//! The cached session: cookies and crumb that authenticate quote requests.
use crate::text::{join, joined, views};
use vstd::prelude::*;

verus! {

/// Credentials obtained by the handshake: the joined cookie header value and
/// the crumb token.
pub struct Session {
    pub cookies: String,
    pub crumb: String,
}

/// The text of a session's two parts.
pub struct SessionView {
    pub cookies: Seq<char>,
    pub crumb: Seq<char>,
}

impl SessionView {
    /// Missing credentials force a new handshake; one part alone is not usable.
    pub open spec fn is_empty(self) -> bool {
        self.crumb.len() == 0 || self.cookies.len() == 0
    }

    /// Neither cookies nor crumb.
    pub open spec fn blank() -> SessionView {
        SessionView { cookies: Seq::empty(), crumb: Seq::empty() }
    }
}

impl View for Session {
    type V = SessionView;

    open spec fn view(&self) -> SessionView {
        SessionView { cookies: self.cookies@, crumb: self.crumb@ }
    }
}

/// The view of a record that may be missing.
pub open spec fn record_view(cached: Option<Session>) -> Option<SessionView> {
    match cached {
        Some(s) => Some(s@),
        None => None,
    }
}

/// The session that a cache record gives: the record as it was stored, or the
/// blank session when there is none.
pub open spec fn loaded(cached: Option<SessionView>) -> SessionView {
    match cached {
        Some(v) => v,
        None => SessionView::blank(),
    }
}

/// The session that a handshake yields: the `Set-Cookie` values joined by
/// commas and the crumb text, or none when either of the two is empty.
pub open spec fn handshake_result(set_cookies: Seq<Seq<char>>, crumb: Seq<char>) -> Option<SessionView> {
    let v = SessionView { cookies: joined(set_cookies, ","@), crumb };
    if v.is_empty() {
        None
    } else {
        Some(v)
    }
}

impl Session {
    /// The session with neither cookies nor crumb.
    pub fn empty() -> (r: Session)
        ensures
            r@ == SessionView::blank(),
    {
        let r = Session { cookies: String::new(), crumb: String::new() };
        assert(r@ =~= SessionView::blank());
        r
    }

    /// True when the crumb or the cookies are missing.
    pub fn is_empty(&self) -> (r: bool)
        ensures
            r == self@.is_empty(),
    {
        self.crumb.as_str().is_empty() || self.cookies.as_str().is_empty()
    }

    /// The session that a cache file gives, from the record decoded out of it:
    /// `None` when the file is missing, unreadable or malformed. A decoded record
    /// is kept as it is; a partial one still counts as empty and so forces a
    /// new handshake.
    pub fn load(cached: Option<Session>) -> (r: Session)
        ensures
            r@ == loaded(record_view(cached)),
    {
        match cached {
            Some(s) => s,
            None => Session::empty(),
        }
    }

    /// The session that a handshake establishes: the `Set-Cookie` values of the
    /// landing page joined by commas, and the crumb text. `None` when the
    /// cookies or the crumb came back empty, so that no partial session is
    /// ever stored.
    pub fn from_handshake(set_cookies: &Vec<String>, crumb: String) -> (r: Option<Session>)
        ensures
            record_view(r) == handshake_result(views(set_cookies@), crumb@),
    {
        let s = Session { cookies: join(set_cookies, ","), crumb };
        if s.is_empty() {
            None
        } else {
            Some(s)
        }
    }
}

/// A missing, unreadable or malformed cache file gives the blank session.
pub proof fn lemma_missing_cache_loads_blank()
    ensures
        loaded(None) == SessionView::blank(),
        loaded(None).is_empty(),
{
}

/// A stored record loads back unchanged.
pub proof fn lemma_stored_record_loads_back(s: SessionView)
    ensures
        loaded(Some(s)) == s,
{
}

/// A handshake only ever yields a session with both parts, and that session,
/// once stored, loads back unchanged.
pub proof fn lemma_handshake_session_round_trips(set_cookies: Seq<Seq<char>>, crumb: Seq<char>)
    ensures
        handshake_result(set_cookies, crumb) matches Some(v) ==> !v.is_empty() && loaded(Some(v))
            == v,
{
}

} // verus!
