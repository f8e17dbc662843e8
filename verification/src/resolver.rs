//! The style resolver: decide which style of the ruleset a path gets, asking
//! the filesystem only when the path's name alone does not settle it.

use vstd::prelude::*;
use vstd::string::StringExecFns;

use crate::ansi::{plain_spec, plain_style, style_view};
use crate::rules::{name_style, style_for_name, style_for_path_on_disk};

verus! {

/// What `nu_path::expand_to_real_path` returns for a path without a leading
/// tilde: the path with n-dot components expanded, a function of the path
/// alone.
pub uninterp spec fn dots_expansion(path: Seq<char>) -> Seq<char>;

/// What `nu_path::expand_path_with` returns with tilde expansion disabled:
/// the path joined onto the base when relative, with dot components resolved
/// lexically, a function of the two paths alone.
pub uninterp spec fn base_expansion(path: Seq<char>, base: Seq<char>) -> Seq<char>;

/// Whether two path strings denote the same `std::path::Path`, which compares
/// paths component by component.
pub uninterp spec fn path_eq(a: Seq<char>, b: Seq<char>) -> bool;

/// Whether a path begins with a tilde, the one case in which expanding it
/// consults the user's home directory.
pub open spec fn starts_with_tilde(path: Seq<char>) -> bool {
    path.len() > 0 && path[0] == '~'
}

/// Relies on `nu_path::expand_to_real_path`: it expands a leading tilde from
/// the user's home directory and expands n-dot components; for a path without
/// a leading tilde the result is a function of the path alone.
#[verifier::external_body]
fn expand_real(path: &str) -> (r: String)
    ensures
        !starts_with_tilde(path@) ==> r@ == dots_expansion(path@),
{
    nu_path::expand_to_real_path(path).to_string_lossy().into_owned()
}

/// Relies on `nu_path::expand_path_with` with tilde expansion off: it joins
/// the path onto the base when the path is relative and resolves dot
/// components lexically, touching no system state.
#[verifier::external_body]
fn expand_with_base(path: &str, base: &str) -> (r: String)
    ensures
        r@ == base_expansion(path@, base@),
{
    nu_path::expand_path_with(path, base, false).to_string_lossy().into_owned()
}

/// Relies on the equality of `std::path::Path`, which compares the two paths'
/// components; equal strings are equal paths.
#[verifier::external_body]
fn paths_equal(a: &str, b: &str) -> (r: bool)
    ensures
        r == path_eq(a@, b@),
        a@ == b@ ==> r,
{
    std::path::Path::new(a) == std::path::Path::new(b)
}

/// Relies on `std::path::Path::symlink_metadata`: whether a metadata lookup
/// for the path succeeds, without following a final symlink. The result
/// depends on the filesystem and nothing is promised of it.
#[verifier::external_body]
fn metadata_available(path: &str) -> bool {
    std::path::Path::new(path).symlink_metadata().is_ok()
}

/// The path whose metadata the resolver probes when the path as given has
/// none: the expansion of the path itself when expanding changed it, and
/// otherwise the path joined onto the working directory.
pub open spec fn probe_target(path: Seq<char>, cwd: Seq<char>) -> Seq<char> {
    if path_eq(dots_expansion(path), path) {
        base_expansion(seq!['.', '/'] + path, cwd)
    } else {
        dots_expansion(path)
    }
}

/// Compute the fallback probe target for a path that had no metadata as
/// given: expand the path, and if the expansion resolves to the path itself —
/// the sign that it was a plain relative name — re-anchor it to the working
/// directory instead.
pub fn fallback_target(path: &str, cwd: &str) -> (r: String)
    ensures
        !starts_with_tilde(path@) ==> r@ == probe_target(path@, cwd@),
{
    let expanded = expand_real(path);
    if paths_equal(expanded.as_str(), path) {
        let anchored = String::from_str("./").concat(path);
        proof {
            reveal_strlit("./");
            assert(anchored@ =~= seq!['.', '/'] + path@);
        }
        expand_with_base(anchored.as_str(), cwd)
    } else {
        expanded
    }
}

/// Take whatever the metadata lookup produced, and fall back to the plain
/// style when it produced nothing.
pub fn style_or_plain(found: Option<nu_ansi_term::Style>) -> (r: nu_ansi_term::Style)
    ensures
        match found {
            Some(s) => r == s,
            None => style_view(r) == plain_spec(),
        },
{
    match found {
        Some(s) => s,
        None => plain_style(),
    }
}

/// Resolve the style of one path under the ruleset. The path's name and
/// suffix are tried first, with no filesystem access; when no name rule
/// matches, the entry's metadata decides — looked up for the path as given if
/// it has any, and otherwise for the fallback probe target. A path the
/// filesystem knows nothing of gets the plain style. This function never
/// fails: a failed lookup means only the absence of metadata.
pub fn get_style(path: &str, cwd: &str, ls_colors: &lscolors::LsColors) -> (r:
    nu_ansi_term::Style)
    ensures
        name_style(*ls_colors, path@) matches Some(st) ==> style_view(r) == st,
{
    match style_for_name(ls_colors, path) {
        Some(s) => s,
        None => {
            if metadata_available(path) {
                style_or_plain(style_for_path_on_disk(ls_colors, path))
            } else {
                let target = fallback_target(path, cwd);
                style_or_plain(style_for_path_on_disk(ls_colors, target.as_str()))
            }
        },
    }
}

} // verus!
