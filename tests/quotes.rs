use ticker::entities::{
    find_symbol, locate_symbols, market_sign, no_results_message, select_phase, MarketState,
};
use ticker::text::{join, same_text};

#[test]
fn pre_market_selected_when_it_moved() {
    let pre_change: f64 = 1.5;
    let post_change: f64 = 0.0;
    let s = select_phase(MarketState::Pre, pre_change != 0.0, post_change != 0.0);
    assert_eq!(s, MarketState::Pre);
    assert_eq!(market_sign(s), "*");
}

#[test]
fn post_market_selected_when_it_moved() {
    let pre_change: f64 = 0.0;
    let post_change: f64 = -2.0;
    let s = select_phase(MarketState::Post, pre_change != 0.0, post_change != 0.0);
    assert_eq!(s, MarketState::Post);
    assert_eq!(market_sign(s), "*");
}

#[test]
fn regular_selected_when_nothing_moved() {
    let s = select_phase(MarketState::Regular, false, false);
    assert_eq!(s, MarketState::Regular);
    assert_eq!(market_sign(s), "");
}

#[test]
fn regular_session_ignores_post_change() {
    assert_eq!(select_phase(MarketState::Regular, true, true), MarketState::Regular);
}

#[test]
fn pre_state_falls_back_to_post_then_regular() {
    assert_eq!(select_phase(MarketState::Pre, false, true), MarketState::Post);
    assert_eq!(select_phase(MarketState::Pre, false, false), MarketState::Regular);
    assert_eq!(select_phase(MarketState::Post, true, false), MarketState::Regular);
}

#[test]
fn market_state_aliases() {
    assert_eq!(MarketState::from_name("REGULAR"), Some(MarketState::Regular));
    assert_eq!(MarketState::from_name("CLOSED"), Some(MarketState::Regular));
    assert_eq!(MarketState::from_name("Regular"), Some(MarketState::Regular));
    assert_eq!(MarketState::from_name("PRE"), Some(MarketState::Pre));
    assert_eq!(MarketState::from_name("PREPRE"), Some(MarketState::Pre));
    assert_eq!(MarketState::from_name("POST"), Some(MarketState::Post));
    assert_eq!(MarketState::from_name("POSTPOST"), Some(MarketState::Post));
    assert_eq!(MarketState::from_name("closed"), None);
    assert_eq!(MarketState::from_name(""), None);
}

#[test]
fn missing_symbol_reported_in_input_order() {
    let requested = vec!["AAPL".to_string(), "NOPE".to_string()];
    let found = vec!["AAPL".to_string()];
    let r = locate_symbols(&requested, &found);
    assert_eq!(r, vec![Some(0), None]);
    assert_eq!(no_results_message("NOPE"), "No results for symbol \"NOPE\"");
}

#[test]
fn first_matching_quote_is_used() {
    let found = vec!["MSFT".to_string(), "AAPL".to_string(), "AAPL".to_string()];
    assert_eq!(find_symbol(&found, &"AAPL".to_string()), Some(1));
    assert_eq!(find_symbol(&found, &"aapl".to_string()), None);
    assert_eq!(find_symbol(&Vec::new(), &"AAPL".to_string()), None);
}

#[test]
fn locate_keeps_request_order() {
    let requested = vec!["GOOG".to_string(), "X".to_string(), "MSFT".to_string()];
    let found = vec!["MSFT".to_string(), "GOOG".to_string()];
    assert_eq!(locate_symbols(&requested, &found), vec![Some(1), None, Some(0)]);
}

#[test]
fn join_edges() {
    assert_eq!(join(&Vec::new(), ","), "");
    assert_eq!(join(&vec!["a".to_string()], ","), "a");
    assert_eq!(join(&vec!["a".to_string(), "".to_string(), "c".to_string()], ", "), "a, , c");
}

#[test]
fn same_text_compares_characters() {
    assert!(same_text("abc", "abc"));
    assert!(!same_text("abc", "abd"));
    assert!(!same_text("abc", "ab"));
}
