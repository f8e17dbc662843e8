//! Resolve the display style of file paths under an `LS_COLORS` ruleset and
//! render the result either as an ANSI-colored string or as a structured
//! record of the style's color and attribute fields.

pub mod ansi;
pub mod command;
pub mod describe;
pub mod resolver;
pub mod rules;
