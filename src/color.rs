//! Terminal colors as plain escape sequences, from optional settings.
use crate::text::{unescape, unescaped};
use vstd::prelude::*;

verus! {

/// The escape sequences that frame a quote line.
pub struct Colors {
    pub green: String,
    pub red: String,
    pub bold: String,
    pub reset: String,
    pub none: String,
}

/// A color setting with its escape notations resolved, or `default` when the
/// setting is absent.
pub open spec fn setting_or(value: Option<String>, default: Seq<char>) -> Seq<char> {
    match value {
        Some(v) => unescaped(v@),
        None => default,
    }
}

/// Resolves one color setting: its text with `\e` and `\033` turned into the
/// escape character, or `default` when it is absent.
pub fn from_env_or_default(value: Option<String>, default: &str) -> (r: String)
    ensures
        r@ == setting_or(value, default@),
{
    match value {
        Some(v) => unescape(v.as_str()),
        None => String::from_str(default),
    }
}

/// The colors to print with. With `no_color` every sequence is empty; else
/// green, red and bold come from their settings or the standard sequences,
/// reset is the standard reset and `none` is empty.
pub fn get_colors(no_color: bool, green: Option<String>, red: Option<String>, bold: Option<String>) -> (r: Colors)
    ensures
        no_color ==> r.green@.len() == 0 && r.red@.len() == 0 && r.bold@.len() == 0
            && r.reset@.len() == 0 && r.none@.len() == 0,
        !no_color ==> r.green@ == setting_or(green, "\x1b[32m"@) && r.red@ == setting_or(
            red,
            "\x1b[31m"@,
        ) && r.bold@ == setting_or(bold, "\x1b[1;37m"@) && r.reset@ == "\x1b[00m"@
            && r.none@.len() == 0,
{
    if no_color {
        return Colors {
            green: String::new(),
            red: String::new(),
            bold: String::new(),
            reset: String::new(),
            none: String::new(),
        };
    }
    Colors {
        green: from_env_or_default(green, "\x1b[32m"),
        red: from_env_or_default(red, "\x1b[31m"),
        bold: from_env_or_default(bold, "\x1b[1;37m"),
        reset: String::from_str("\x1b[00m"),
        none: String::new(),
    }
}

} // verus!
