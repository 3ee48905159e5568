//! Sessions and where they are kept.

use crate::paths::{extension, file_name, join, path_extension, path_file_name, path_join};
use crate::text::{
    chars_to_string, clone_string, extend_str, lex_le, spec_ends_with, str_chars, text_le,
};
use vstd::prelude::*;

verus! {

/// A session: its name and the times it was made and last touched, as
/// RFC 3339 texts.
#[derive(Debug, Clone)]
pub struct Session {
    pub id: String,
    pub created_at: String,
    pub updated_at: String,
}

pub struct SessionRecord {
    pub id: Seq<char>,
    pub created_at: Seq<char>,
    pub updated_at: Seq<char>,
}

impl View for Session {
    type V = SessionRecord;

    open spec fn view(&self) -> SessionRecord {
        SessionRecord {
            id: self.id@,
            created_at: self.created_at@,
            updated_at: self.updated_at@,
        }
    }
}

pub open spec fn session_views(sessions: Seq<Session>) -> Seq<SessionRecord> {
    Seq::new(sessions.len(), |i: int| sessions[i]@)
}

pub open spec fn opt_session_view(session: Option<Session>) -> Option<SessionRecord> {
    match session {
        Some(s) => Some(s@),
        None => None,
    }
}

/// A lower-case hexadecimal digit.
pub open spec fn is_lower_hex(c: char) -> bool {
    ('0' <= c <= '9') || ('a' <= c <= 'f')
}

/// Whether a text has the form of a random identifier: thirty-two
/// lower-case hexadecimal digits in groups of eight, four, four, four and
/// twelve with hyphens between them, where the third group begins with
/// `4` and the fourth with `8`, `9`, `a` or `b`.
pub open spec fn is_random_id(id: Seq<char>) -> bool {
    &&& id.len() == 36
    &&& forall|i: int|
        0 <= i < 36 ==> if i == 8 || i == 13 || i == 18 || i == 23 {
            id[i] == '-'
        } else {
            is_lower_hex(#[trigger] id[i])
        }
    &&& id[14] == '4'
    &&& (id[19] == '8' || id[19] == '9' || id[19] == 'a' || id[19] == 'b')
}

/// Whether a text ends as every time written for the zone UTC does: with
/// the offset `+00:00`.
pub open spec fn is_utc_time(time: Seq<char>) -> bool {
    spec_ends_with(time, "+00:00"@)
}

/// `Uuid::new_v4`, written out by `to_string`: a random name. Which name
/// it is nobody knows beforehand; its form is always the same, that of a
/// random identifier with hyphens and lower-case digits.
#[verifier::external_body]
fn random_id() -> (id: String)
    ensures
        is_random_id(id@),
{
    uuid::Uuid::new_v4().to_string()
}

/// `Utc::now`, written out by `to_rfc3339`: the time of the call. Which
/// time it is nobody knows beforehand; written for the zone UTC, it always
/// ends with the offset `+00:00`.
#[verifier::external_body]
fn now_rfc3339() -> (now: String)
    ensures
        is_utc_time(now@),
{
    chrono::Utc::now().to_rfc3339()
}

impl Session {
    /// A session with the given name, made and last touched at the given
    /// time.
    pub fn begun(id: String, now: String) -> (session: Session)
        ensures
            session@ == (SessionRecord { id: id@, created_at: now@, updated_at: now@ }),
    {
        Session { id, created_at: clone_string(&now), updated_at: now }
    }

    /// A session with a fresh name, made and last touched now: the name
    /// is a random identifier, and the two times are one time, written for
    /// the zone UTC.
    pub fn new() -> (session: Session)
        ensures
            is_random_id(session@.id),
            is_utc_time(session@.created_at),
            session@.created_at == session@.updated_at,
    {
        let now = now_rfc3339();
        Session::begun(random_id(), now)
    }

    /// A copy of the session.
    pub fn duplicate(&self) -> (out: Session)
        ensures
            out@ == self@,
    {
        Session {
            id: clone_string(&self.id),
            created_at: clone_string(&self.created_at),
            updated_at: clone_string(&self.updated_at),
        }
    }
}

/// The index, among the first `upto` sessions, of the one touched last;
/// of several touched at the same time, the one that stands last. There
/// is none, written -1, among no sessions.
pub open spec fn spec_latest_index(sessions: Seq<SessionRecord>, upto: int) -> int
    decreases upto,
{
    if upto <= 0 || upto > sessions.len() {
        -1
    } else {
        let before = spec_latest_index(sessions, upto - 1);
        if before < 0 || before >= upto - 1 || lex_le(
            sessions[before].updated_at,
            sessions[upto - 1].updated_at,
        ) {
            upto - 1
        } else {
            before
        }
    }
}

/// The session touched last.
pub open spec fn spec_latest(sessions: Seq<SessionRecord>) -> Option<SessionRecord> {
    let at = spec_latest_index(sessions, sessions.len() as int);
    if 0 <= at < sessions.len() {
        Some(sessions[at])
    } else {
        None
    }
}

/// The place where sessions are kept.
#[derive(Debug, Clone)]
pub struct SessionStore {
    pub root: String,
}

impl SessionStore {
    pub fn new(root: String) -> (store: SessionStore)
        ensures
            store.root@ == root@,
    {
        SessionStore { root }
    }

    /// The file of the session with the given name.
    pub fn session_path(&self, id: &str) -> (path: String)
        ensures
            path@ == path_join(self.root@, id@ + ".json"@),
    {
        let mut name = str_chars(id);
        extend_str(&mut name, ".json");
        join(self.root.as_str(), chars_to_string(&name).as_str())
    }

    /// The file of the index.
    pub fn index_path(&self) -> (path: String)
        ensures
            path@ == path_join(self.root@, "sessions.db"@),
    {
        join(self.root.as_str(), "sessions.db")
    }

    /// The session touched last among those that the store holds.
    pub fn latest(&self, sessions: &Vec<Session>) -> (latest: Option<Session>)
        ensures
            opt_session_view(latest) == spec_latest(session_views(sessions@)),
    {
        if sessions.len() == 0 {
            return None;
        }
        let mut best: usize = 0;
        let mut i: usize = 1;
        assert(spec_latest_index(session_views(sessions@), 1) == 0) by {
            assert(spec_latest_index(session_views(sessions@), 0) == -1);
        }
        while i < sessions.len()
            invariant
                1 <= i <= sessions.len(),
                best < i,
                best == spec_latest_index(session_views(sessions@), i as int),
            decreases sessions.len() - i,
        {
            assert(session_views(sessions@)[best as int] == sessions@[best as int]@);
            assert(session_views(sessions@)[i as int] == sessions@[i as int]@);
            if text_le(sessions[best].updated_at.as_str(), sessions[i].updated_at.as_str()) {
                best = i;
            }
            i += 1;
        }
        assert(session_views(sessions@)[best as int] == sessions@[best as int]@);
        Some(sessions[best].duplicate())
    }
}

/// Whether a file with the given extension and name holds a session: its
/// extension is `json`, and it is not the index.
pub open spec fn spec_holds_session(extension: Option<Seq<char>>, name: Option<Seq<char>>) -> bool {
    extension == Some("json"@) && name != Some("sessions.db"@)
}

/// Whether a file in the store holds a session.
pub open spec fn spec_is_session_file(path: Seq<char>) -> bool {
    spec_holds_session(path_extension(path), path_file_name(path))
}

/// Whether a file with the given extension and name holds a session.
pub fn holds_session(extension: &Option<String>, name: &Option<String>) -> (b: bool)
    ensures
        b == spec_holds_session(crate::text::opt_view(*extension), crate::text::opt_view(*name)),
{
    let json = match extension {
        Some(ext) => crate::text::chars_eq_str(&str_chars(ext.as_str()), "json"),
        None => false,
    };
    let index = match name {
        Some(name) => crate::text::chars_eq_str(&str_chars(name.as_str()), "sessions.db"),
        None => false,
    };
    json && !index
}

/// Whether a file in the store holds a session.
pub fn is_session_file(path: &str) -> (b: bool)
    ensures
        b == spec_is_session_file(path@),
{
    holds_session(&extension(path), &file_name(path))
}

} // verus!
