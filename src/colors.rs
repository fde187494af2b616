//! Colors held as written in settings, resolved when printed.
use crate::text::{unescape, unescaped};
use vstd::prelude::*;

verus! {

/// A color as written, possibly with the escape notations `\e` or `\033`.
#[derive(Debug, Clone)]
pub struct Color {
    s: String,
}

impl View for Color {
    type V = Seq<char>;

    closed spec fn view(&self) -> Seq<char> {
        self.s@
    }
}

impl Color {
    /// The color written as `s`.
    pub fn from(s: &str) -> (r: Color)
        ensures
            r@ == s@,
    {
        Color { s: String::from_str(s) }
    }

    /// The color as a terminal reads it: the escape notations turned into the
    /// escape character.
    pub fn render(&self) -> (r: String)
        ensures
            r@ == unescaped(self@),
    {
        unescape(self.s.as_str())
    }
}

impl From<String> for Color {
    fn from(s: String) -> (r: Color) {
        Color { s }
    }
}

impl vstd::std_specs::convert::FromSpecImpl<String> for Color {
    open spec fn obeys_from_spec() -> bool {
        true
    }

    closed spec fn from_spec(s: String) -> Color {
        Color { s }
    }
}

impl std::str::FromStr for Color {
    type Err = core::convert::Infallible;

    fn from_str(s: &str) -> (r: Result<Color, core::convert::Infallible>)
        ensures
            r matches Ok(c) && c@ == s@,
    {
        Ok(Color::from(s))
    }
}

/// The colors that frame a quote line, as written.
#[derive(Debug, Clone)]
pub struct Colors {
    pub green: Color,
    pub red: Color,
    pub bold: Color,
    pub reset: Color,
    pub none: Color,
}

/// The text of an optional setting, or `default` when it is absent.
pub open spec fn or_default(o: Option<String>, default: Seq<char>) -> Seq<char> {
    match o {
        Some(v) => v@,
        None => default,
    }
}

impl Colors {
    /// Green, red and bold from the given settings or the standard sequences,
    /// the standard reset, and an empty color for `none`.
    pub fn new(green: Option<String>, red: Option<String>, bold: Option<String>) -> (r: Colors)
        ensures
            r.green@ == or_default(green, "\x1b[32m"@),
            r.red@ == or_default(red, "\x1b[31m"@),
            r.bold@ == or_default(bold, "\x1b[1;37m"@),
            r.reset@ == "\x1b[00m"@,
            r.none@.len() == 0,
    {
        proof {
            reveal_strlit("");
        }
        Colors {
            green: Colors::opt_to_color(green, "\x1b[32m"),
            red: Colors::opt_to_color(red, "\x1b[31m"),
            bold: Colors::opt_to_color(bold, "\x1b[1;37m"),
            reset: Colors::opt_to_color(None, "\x1b[00m"),
            none: Color::from(""),
        }
    }

    /// Every color empty: plain text.
    pub fn monochrome() -> (r: Colors)
        ensures
            r.green@.len() == 0,
            r.red@.len() == 0,
            r.bold@.len() == 0,
            r.reset@.len() == 0,
            r.none@.len() == 0,
    {
        proof {
            reveal_strlit("");
        }
        Colors {
            green: Color::from(""),
            red: Color::from(""),
            bold: Color::from(""),
            reset: Color::from(""),
            none: Color::from(""),
        }
    }

    /// The color of a setting, or of `d` when it is absent.
    pub fn opt_to_color(o: Option<String>, d: &str) -> (r: Color)
        ensures
            r@ == or_default(o, d@),
    {
        match o {
            Some(v) => Color::from(v.as_str()),
            None => Color::from(d),
        }
    }
}

} // verus!
