//! The parsed `LS_COLORS` ruleset, held as `lscolors::LsColors`, with the
//! trusted queries the resolver makes against it.

use vstd::prelude::*;

use crate::ansi::{style_view, StyleSpec};

verus! {

/// `lscolors::LsColors`, the parsed ruleset, declared opaque: verified code
/// carries it and queries it only through the trusted items below.
#[verifier::external_type_specification]
#[verifier::external_body]
pub struct ExLsColors(lscolors::LsColors);

/// The style a ruleset assigns to a path string by its name and suffix alone,
/// with no filesystem access: what `lscolors::LsColors::style_for_str` finds
/// in the ruleset's suffix rules, a function of the ruleset and the string.
pub uninterp spec fn name_style(rules: lscolors::LsColors, name: Seq<char>) -> Option<StyleSpec>;

/// Relies on `nu_utils::get_ls_colors`: parses the `LS_COLORS` text into a
/// ruleset, and parses a built-in default ruleset when no text is given.
/// The ruleset is opaque; every query about it goes through `name_style` or
/// the metadata-consulting lookup below.
#[verifier::external_body]
pub fn ruleset_from_env_string(env_text: Option<String>) -> lscolors::LsColors {
    nu_utils::get_ls_colors(env_text)
}

/// Relies on `lscolors::LsColors::style_for_str`, a pure lookup of the string
/// against the ruleset's suffix rules, and on
/// `lscolors::Style::to_nu_ansi_term_style`, which carries the found style
/// over field by field.
#[verifier::external_body]
pub fn style_for_name(rules: &lscolors::LsColors, path: &str) -> (r: Option<nu_ansi_term::Style>)
    ensures
        match r {
            Some(s) => name_style(*rules, path@) == Some(style_view(s)),
            None => name_style(*rules, path@) is None,
        },
{
    rules.style_for_str(path).map(|s| s.to_nu_ansi_term_style())
}

/// Relies on `lscolors::LsColors::style_for_path`: it reads the path's
/// filesystem metadata itself and classifies the entry (directory, symlink,
/// executable, ...) before choosing a rule, so the result depends on what is
/// on disk and nothing is promised of it. Callers treat every outcome alike.
#[verifier::external_body]
pub fn style_for_path_on_disk(rules: &lscolors::LsColors, path: &str) -> Option<
    nu_ansi_term::Style,
> {
    rules.style_for_path(path).map(|s| s.to_nu_ansi_term_style())
}

} // verus!
