//! The quote request protocol: handshake when credentials are missing, one
//! quote request, and on an authorization failure one new handshake and one
//! retry. The caller performs the requests; this module decides what comes next.
use crate::persistence::Session;
use crate::text::{join, joined, views};
use vstd::prelude::*;

verus! {

/// The HTTP status of an authorization failure.
pub const UNAUTHORIZED: u16 = 401;

/// Why a fetch ended without a response to parse.
pub enum FetchError {
    /// The handshake failed; the message says how.
    Preflight(String),
    /// The quote request could not be sent or read; the message says how.
    Transport(String),
    /// The quote request was answered with this unsuccessful status.
    Status(u16),
}

/// What happened to the step that the current state asked for.
pub enum FetchEvent {
    /// The handshake stored fresh cookies and crumb.
    PreflightDone,
    /// The handshake failed.
    PreflightFailed(String),
    /// The quote request was answered with this status.
    Response(u16),
    /// The quote request could not be sent.
    SendFailed(String),
}

/// Where one fetch stands. Each live state names the next step: run the
/// handshake, send the quote request, or parse the body that was received.
pub enum FetchState {
    /// The handshake is to run; `retried` once an authorization failure led here.
    Handshaking { retried: bool },
    /// The quote request is to be sent; `retried` for the one retry.
    Fetching { retried: bool },
    /// A successful response was received: its body is to be parsed.
    Done,
    /// The fetch failed.
    Failed(FetchError),
}

/// A status in the success range.
pub open spec fn is_success(status: u16) -> bool {
    200 <= status <= 299
}

/// The state in which a fetch begins.
pub open spec fn start_spec(session_empty: bool) -> FetchState {
    if session_empty {
        FetchState::Handshaking { retried: false }
    } else {
        FetchState::Fetching { retried: false }
    }
}

/// The state that follows `s` on `e`. An event that does not answer the step
/// of `s` leaves it as it is; `Done` and `Failed` are final.
pub open spec fn next_spec(s: FetchState, e: FetchEvent) -> FetchState {
    match (s, e) {
        (FetchState::Handshaking { retried }, FetchEvent::PreflightDone) => FetchState::Fetching {
            retried,
        },
        (FetchState::Handshaking { .. }, FetchEvent::PreflightFailed(m)) => FetchState::Failed(
            FetchError::Preflight(m),
        ),
        (FetchState::Fetching { retried }, FetchEvent::Response(status)) => {
            if is_success(status) {
                FetchState::Done
            } else if status == UNAUTHORIZED && !retried {
                FetchState::Handshaking { retried: true }
            } else {
                FetchState::Failed(FetchError::Status(status))
            }
        },
        (FetchState::Fetching { .. }, FetchEvent::SendFailed(m)) => FetchState::Failed(
            FetchError::Transport(m),
        ),
        (s, _) => s,
    }
}

impl FetchState {
    /// The first state of a fetch: the handshake when the session lacks
    /// credentials, else the quote request.
    pub fn start(session_empty: bool) -> (r: FetchState)
        ensures
            r == start_spec(session_empty),
    {
        if session_empty {
            FetchState::Handshaking { retried: false }
        } else {
            FetchState::Fetching { retried: false }
        }
    }

    /// The state after `event` answered the step of `self`.
    pub fn next(self, event: FetchEvent) -> (r: FetchState)
        ensures
            r == next_spec(self, event),
    {
        match (self, event) {
            (FetchState::Handshaking { retried }, FetchEvent::PreflightDone) => {
                FetchState::Fetching { retried }
            },
            (FetchState::Handshaking { .. }, FetchEvent::PreflightFailed(m)) => {
                FetchState::Failed(FetchError::Preflight(m))
            },
            (FetchState::Fetching { retried }, FetchEvent::Response(status)) => {
                if 200 <= status && status <= 299 {
                    FetchState::Done
                } else if status == UNAUTHORIZED && !retried {
                    FetchState::Handshaking { retried: true }
                } else {
                    FetchState::Failed(FetchError::Status(status))
                }
            },
            (FetchState::Fetching { .. }, FetchEvent::SendFailed(m)) => {
                FetchState::Failed(FetchError::Transport(m))
            },
            (s, _) => s,
        }
    }

    /// Whether the next step is the handshake.
    pub fn wants_preflight(&self) -> (r: bool)
        ensures
            r == (*self is Handshaking),
    {
        matches!(self, FetchState::Handshaking { .. })
    }

    /// Whether the next step is the quote request.
    pub fn wants_request(&self) -> (r: bool)
        ensures
            r == (*self is Fetching),
    {
        matches!(self, FetchState::Fetching { .. })
    }
}

/// The states that a fetch passes through from `s` on `events`, `s` excluded.
pub open spec fn run(s: FetchState, events: Seq<FetchEvent>) -> Seq<FetchState>
    decreases events.len(),
{
    if events.len() == 0 {
        Seq::empty()
    } else {
        let t = next_spec(s, events[0]);
        seq![t] + run(t, events.drop_first())
    }
}

/// The number of steps in `states`, entered from `s`, that begin a quote
/// request: a move into `Fetching` from another state.
pub open spec fn requests_in(s: FetchState, states: Seq<FetchState>) -> nat
    decreases states.len(),
{
    if states.len() == 0 {
        0
    } else {
        let t = states[0];
        (if t is Fetching && t != s { 1nat } else { 0nat }) + requests_in(t, states.drop_first())
    }
}

/// The number of steps in `states`, entered from `s`, that begin a handshake.
pub open spec fn preflights_in(s: FetchState, states: Seq<FetchState>) -> nat
    decreases states.len(),
{
    if states.len() == 0 {
        0
    } else {
        let t = states[0];
        (if t is Handshaking && t != s { 1nat } else { 0nat }) + preflights_in(
            t,
            states.drop_first(),
        )
    }
}

/// How many quote requests may still begin after `s`.
pub open spec fn requests_left(s: FetchState) -> nat {
    match s {
        FetchState::Handshaking { retried } => if retried { 1 } else { 2 },
        FetchState::Fetching { retried } => if retried { 0 } else { 1 },
        _ => 0,
    }
}

/// How many handshakes may still begin after `s`.
pub open spec fn preflights_left(s: FetchState) -> nat {
    match s {
        FetchState::Handshaking { retried } => if retried { 0 } else { 1 },
        FetchState::Fetching { retried } => if retried { 0 } else { 1 },
        _ => 0,
    }
}

proof fn lemma_budget(s: FetchState, events: Seq<FetchEvent>)
    ensures
        requests_in(s, run(s, events)) <= requests_left(s),
        preflights_in(s, run(s, events)) <= preflights_left(s),
    decreases events.len(),
{
    if events.len() > 0 {
        let t = next_spec(s, events[0]);
        lemma_budget(t, events.drop_first());
        assert(run(s, events).drop_first() =~= run(t, events.drop_first()));
    }
}

/// Whatever happens, a fetch sends at most two quote requests (the first and
/// one retry), and after its first state it begins at most one handshake. So
/// with missing credentials it runs the first handshake and at most one more;
/// with cached credentials at most one, after an authorization failure.
pub proof fn lemma_at_most_one_retry(session_empty: bool, events: Seq<FetchEvent>)
    ensures
        requests_in(start_spec(session_empty), run(start_spec(session_empty), events)) + (if session_empty {
            0nat
        } else {
            1nat
        }) <= 2,
        preflights_in(start_spec(session_empty), run(start_spec(session_empty), events)) <= 1,
{
    lemma_budget(start_spec(session_empty), events);
}

/// A fetch waiting for the quote request.
pub open spec fn fetching(retried: bool) -> FetchState {
    FetchState::Fetching { retried }
}

/// A fetch waiting for the handshake.
pub open spec fn handshaking(retried: bool) -> FetchState {
    FetchState::Handshaking { retried }
}

/// A fetch ended by an unsuccessful status.
pub open spec fn failed_with(status: u16) -> FetchState {
    FetchState::Failed(FetchError::Status(status))
}

/// An authorization failure of the first quote request leads to one new
/// handshake; once it succeeds the request is sent once more, and any
/// unsuccessful answer to that retry ends the fetch with its status. After the
/// failure no further handshake begins, and at most the one retry is sent.
pub proof fn lemma_unauthorized_retries_once(events: Seq<FetchEvent>)
    ensures
        next_spec(fetching(false), FetchEvent::Response(UNAUTHORIZED)) == handshaking(true),
        next_spec(handshaking(true), FetchEvent::PreflightDone) == fetching(true),
        forall|status: u16|
            !is_success(status) ==> next_spec(fetching(true), FetchEvent::Response(status))
                == failed_with(status),
        requests_in(handshaking(true), run(handshaking(true), events)) <= 1,
        preflights_in(handshaking(true), run(handshaking(true), events)) == 0,
{
    lemma_budget(handshaking(true), events);
}

/// An unsuccessful status other than an authorization failure ends the fetch
/// at once, with that status, and nothing follows.
pub proof fn lemma_other_failure_not_retried(retried: bool, status: u16, events: Seq<FetchEvent>)
    requires
        !is_success(status),
        status != UNAUTHORIZED,
    ensures
        next_spec(fetching(retried), FetchEvent::Response(status)) == failed_with(status),
        forall|i: int| 0 <= i < events.len() ==> run(failed_with(status), events)[i] == failed_with(status),
        run(failed_with(status), events).len() == events.len(),
    decreases events.len(),
{
    let f = failed_with(status);
    if events.len() > 0 {
        lemma_other_failure_not_retried(retried, status, events.drop_first());
        assert(run(f, events) =~= seq![f] + run(f, events.drop_first()));
    }
}

/// The names of the quote fields that a request asks for, in request order.
pub open spec fn quote_field_names() -> Seq<Seq<char>> {
    seq![
        "symbol"@,
        "marketState"@,
        "regularMarketPrice"@,
        "regularMarketChange"@,
        "regularMarketChangePercent"@,
        "preMarketPrice"@,
        "preMarketChange"@,
        "preMarketChangePercent"@,
        "postMarketPrice"@,
        "postMarketChange"@,
        "postMarketChangePercent"@,
    ]
}

/// The quote fields that a request asks for, in request order.
pub fn quote_fields() -> (r: Vec<String>)
    ensures
        views(r@) == quote_field_names(),
{
    let mut r: Vec<String> = Vec::new();
    r.push(String::from_str("symbol"));
    r.push(String::from_str("marketState"));
    r.push(String::from_str("regularMarketPrice"));
    r.push(String::from_str("regularMarketChange"));
    r.push(String::from_str("regularMarketChangePercent"));
    r.push(String::from_str("preMarketPrice"));
    r.push(String::from_str("preMarketChange"));
    r.push(String::from_str("preMarketChangePercent"));
    r.push(String::from_str("postMarketPrice"));
    r.push(String::from_str("postMarketChange"));
    r.push(String::from_str("postMarketChangePercent"));
    assert(views(r@) =~= quote_field_names());
    r
}

/// The query parameters of a quote request for `symbols`: the comma-joined
/// fields, the comma-joined symbols in their order, and the session's crumb.
pub fn quote_query(symbols: &Vec<String>, session: &Session) -> (r: Vec<(String, String)>)
    ensures
        r@.len() == 3,
        r@[0].0@ == "fields"@,
        r@[0].1@ == joined(quote_field_names(), ","@),
        r@[1].0@ == "symbols"@,
        r@[1].1@ == joined(views(symbols@), ","@),
        r@[2].0@ == "crumb"@,
        r@[2].1@ == session.crumb@,
{
    let fields = quote_fields();
    let mut r: Vec<(String, String)> = Vec::new();
    r.push((String::from_str("fields"), join(&fields, ",")));
    r.push((String::from_str("symbols"), join(symbols, ",")));
    r.push((String::from_str("crumb"), session.crumb.clone()));
    r
}

} // verus!
