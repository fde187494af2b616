//! Quote data: market states, which figures of a quote to show, and which
//! quote answers each requested symbol.
use crate::text::same_text;
use vstd::prelude::*;

verus! {

/// The trading session that a quote's current figures belong to.
#[derive(PartialEq, Eq, Structural, Clone, Copy, Debug)]
pub enum MarketState {
    Regular,
    Pre,
    Post,
}

/// The market state that a provider name stands for, with its aliases.
pub open spec fn market_state_named(name: Seq<char>) -> Option<MarketState> {
    if name == "Regular"@ || name == "REGULAR"@ || name == "CLOSED"@ {
        Some(MarketState::Regular)
    } else if name == "Pre"@ || name == "PRE"@ || name == "PREPRE"@ {
        Some(MarketState::Pre)
    } else if name == "Post"@ || name == "POST"@ || name == "POSTPOST"@ {
        Some(MarketState::Post)
    } else {
        None
    }
}

impl MarketState {
    /// Reads a provider's market state name: `Regular`, `REGULAR` and `CLOSED`
    /// are the regular session, `Pre`, `PRE` and `PREPRE` the pre-market,
    /// `Post`, `POST` and `POSTPOST` the post-market; any other name is none.
    pub fn from_name(name: &str) -> (r: Option<MarketState>)
        ensures
            r == market_state_named(name@),
    {
        if same_text(name, "Regular") || same_text(name, "REGULAR") || same_text(name, "CLOSED") {
            Some(MarketState::Regular)
        } else if same_text(name, "Pre") || same_text(name, "PRE") || same_text(name, "PREPRE") {
            Some(MarketState::Pre)
        } else if same_text(name, "Post") || same_text(name, "POST") || same_text(
            name,
            "POSTPOST",
        ) {
            Some(MarketState::Post)
        } else {
            None
        }
    }
}

/// Which figures of a quote are shown: the pre-market ones while the market is
/// in pre-market and they moved, else the post-market ones outside the regular
/// session when they moved, else the regular ones.
pub open spec fn selected_phase(state: MarketState, pre_moved: bool, post_moved: bool) -> MarketState {
    if state == MarketState::Pre && pre_moved {
        MarketState::Pre
    } else if state != MarketState::Regular && post_moved {
        MarketState::Post
    } else {
        MarketState::Regular
    }
}

/// Chooses the figures to show for a quote in market state `state`, where
/// `pre_moved` and `post_moved` tell whether the pre-market and post-market
/// changes are non-zero (a missing change counts as zero).
pub fn select_phase(state: MarketState, pre_moved: bool, post_moved: bool) -> (r: MarketState)
    ensures
        r == selected_phase(state, pre_moved, post_moved),
{
    if state == MarketState::Pre && pre_moved {
        MarketState::Pre
    } else if state != MarketState::Regular && post_moved {
        MarketState::Post
    } else {
        MarketState::Regular
    }
}

/// The mark printed after a quote line: none for regular-session figures, a
/// star for pre-market or post-market ones.
pub fn market_sign(state: MarketState) -> (r: &'static str)
    ensures
        state == MarketState::Regular ==> r@ == ""@,
        state != MarketState::Regular ==> r@ == "*"@,
{
    match state {
        MarketState::Regular => "",
        _ => "*",
    }
}

/// The line printed for a requested symbol that the provider left out.
pub fn no_results_message(symbol: &str) -> (r: String)
    ensures
        r@ == "No results for symbol \""@ + symbol@ + "\""@,
{
    let mut r = String::from_str("No results for symbol \"");
    r.append(symbol);
    r.append("\"");
    r
}

/// The first position of `symbol` in `found`, if it occurs there.
pub open spec fn first_position(found: Seq<String>, symbol: Seq<char>, j: int) -> bool {
    &&& 0 <= j < found.len()
    &&& found[j]@ == symbol
    &&& forall|k: int| 0 <= k < j ==> found[k]@ != symbol
}

/// Whether the answer for `symbol` is right: the first position of the symbol
/// among the symbols of the quotes received, or none when it is absent.
pub open spec fn locates(found: Seq<String>, symbol: Seq<char>, r: Option<usize>) -> bool {
    match r {
        Some(j) => first_position(found, symbol, j as int),
        None => forall|k: int| 0 <= k < found.len() ==> found[k]@ != symbol,
    }
}

/// The position of the first quote whose symbol is `symbol`, if any.
pub fn find_symbol(found: &Vec<String>, symbol: &String) -> (r: Option<usize>)
    ensures
        locates(found@, symbol@, r),
{
    let mut i: usize = 0;
    while i < found.len()
        invariant
            i <= found.len(),
            forall|k: int| 0 <= k < i ==> found@[k]@ != symbol@,
        decreases found.len() - i,
    {
        if found[i] == *symbol {
            return Some(i);
        }
        i = i + 1;
    }
    None
}

/// For each requested symbol, in the order of the request, where its quote
/// stands among the symbols of the quotes received, or `None` when the
/// provider left it out.
pub fn locate_symbols(symbols: &Vec<String>, found: &Vec<String>) -> (r: Vec<Option<usize>>)
    ensures
        r@.len() == symbols@.len(),
        forall|i: int| 0 <= i < symbols@.len() ==> locates(found@, symbols@[i]@, #[trigger] r@[i]),
{
    let mut r: Vec<Option<usize>> = Vec::new();
    let mut i: usize = 0;
    while i < symbols.len()
        invariant
            i <= symbols.len(),
            r@.len() == i,
            forall|k: int| 0 <= k < i ==> locates(found@, symbols@[k]@, #[trigger] r@[k]),
        decreases symbols.len() - i,
    {
        let p = find_symbol(found, &symbols[i]);
        r.push(p);
        i = i + 1;
    }
    r
}

} // verus!
