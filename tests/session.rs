use ticker::persistence::Session;

fn session(cookies: &str, crumb: &str) -> Session {
    Session { cookies: cookies.to_string(), crumb: crumb.to_string() }
}

#[test]
fn empty_when_either_part_missing() {
    assert!(session("", "").is_empty());
    assert!(session("a=1", "").is_empty());
    assert!(session("", "crumb").is_empty());
    assert!(!session("a=1", "crumb").is_empty());
}

#[test]
fn missing_cache_loads_empty_session() {
    let s = Session::load(None);
    assert_eq!(s.cookies, "");
    assert_eq!(s.crumb, "");
    assert!(s.is_empty());
}

#[test]
fn partial_record_loads_as_stored() {
    let s = Session::load(Some(session("", "x")));
    assert_eq!(s.cookies, "");
    assert_eq!(s.crumb, "x");
    assert!(s.is_empty());
    let s = Session::load(Some(session("a=1", "")));
    assert_eq!(s.cookies, "a=1");
    assert_eq!(s.crumb, "");
    assert!(s.is_empty());
}

#[test]
fn stored_session_loads_back() {
    let s = Session::load(Some(session("A=1; path=/,B=2", "AbC.d3")));
    assert_eq!(s.cookies, "A=1; path=/,B=2");
    assert_eq!(s.crumb, "AbC.d3");
}

#[test]
fn handshake_joins_cookies_with_commas() {
    let cookies = vec!["A=1; path=/".to_string(), "B=2".to_string(), "C=3".to_string()];
    let s = Session::from_handshake(&cookies, "crumb7".to_string()).unwrap();
    assert_eq!(s.cookies, "A=1; path=/,B=2,C=3");
    assert_eq!(s.crumb, "crumb7");
    assert!(!s.is_empty());
    let back = Session::load(Some(s));
    assert_eq!(back.cookies, "A=1; path=/,B=2,C=3");
    assert_eq!(back.crumb, "crumb7");
}

#[test]
fn handshake_without_cookies_gives_nothing() {
    assert!(Session::from_handshake(&Vec::new(), "crumb7".to_string()).is_none());
    assert!(Session::from_handshake(&vec!["".to_string()], "crumb7".to_string()).is_none());
}

#[test]
fn handshake_without_crumb_gives_nothing() {
    assert!(Session::from_handshake(&vec!["A=1".to_string()], String::new()).is_none());
}
