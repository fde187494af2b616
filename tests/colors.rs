use std::str::FromStr;
use ticker::color::{from_env_or_default, get_colors};
use ticker::colors::{Color, Colors};
use ticker::text::unescape;

#[test]
fn unescape_turns_notations_into_escape() {
    assert_eq!(unescape("\\e[38;5;248m"), "\x1b[38;5;248m");
    assert_eq!(unescape("\\033[1m"), "\x1b[1m");
    assert_eq!(unescape("plain"), "plain");
    assert_eq!(unescape("\\e\\033"), "\x1b\x1b");
}

#[test]
fn setting_or_default() {
    assert_eq!(from_env_or_default(Some("\\e[35m".to_string()), "\x1b[32m"), "\x1b[35m");
    assert_eq!(from_env_or_default(None, "\x1b[32m"), "\x1b[32m");
}

#[test]
fn no_color_gives_empty_sequences() {
    let c = get_colors(true, Some("\\e[35m".to_string()), None, None);
    assert_eq!(c.green, "");
    assert_eq!(c.red, "");
    assert_eq!(c.bold, "");
    assert_eq!(c.reset, "");
    assert_eq!(c.none, "");
}

#[test]
fn standard_colors() {
    let c = get_colors(false, None, Some("\\033[91m".to_string()), None);
    assert_eq!(c.green, "\x1b[32m");
    assert_eq!(c.red, "\x1b[91m");
    assert_eq!(c.bold, "\x1b[1;37m");
    assert_eq!(c.reset, "\x1b[00m");
    assert_eq!(c.none, "");
}

#[test]
fn color_renders_escapes() {
    assert_eq!(Color::from("\\e[1m").render(), "\x1b[1m");
    let c: Color = "\\033[2m".to_string().into();
    assert_eq!(c.render(), "\x1b[2m");
    assert_eq!(Color::from_str("x").unwrap().render(), "x");
    assert_eq!(Color::from_str("\\e[3m").unwrap().render(), "\x1b[3m");
}

#[test]
fn colors_new_and_monochrome() {
    let c = Colors::new(Some("\\e[36m".to_string()), None, None);
    assert_eq!(c.green.render(), "\x1b[36m");
    assert_eq!(c.red.render(), "\x1b[31m");
    assert_eq!(c.bold.render(), "\x1b[1;37m");
    assert_eq!(c.reset.render(), "\x1b[00m");
    assert_eq!(c.none.render(), "");
    let m = Colors::monochrome();
    assert_eq!(m.green.render(), "");
    assert_eq!(m.reset.render(), "");
    assert_eq!(Colors::opt_to_color(None, "d").render(), "d");
}
