//! On whose behalf the agent registers with the authorization service.

use vstd::prelude::*;

verus! {

/// The subject that requests authorization: a kind, and the details that
/// identify one of that kind. It does not change once it is made.
#[derive(Clone, Debug, PartialEq, Eq)]
pub struct Subject {
    kind: String,
    details: Vec<(String, String)>,
}

/// A subject as a mathematical value.
pub ghost struct SubjectView {
    pub kind: Seq<char>,
    pub details: Seq<(Seq<char>, Seq<char>)>,
}

impl View for Subject {
    type V = SubjectView;

    closed spec fn view(&self) -> SubjectView {
        SubjectView { kind: self.kind@, details: self.details.deep_view() }
    }
}

impl Subject {
    /// A subject of the given kind with the given details.
    pub fn new(kind: String, details: Vec<(String, String)>) -> (r: Subject)
        ensures
            r@ == (SubjectView { kind: kind@, details: details.deep_view() }),
    {
        Subject { kind, details }
    }

    /// The login session with this id: kind `unix-session`, with the id
    /// under `session-id`.
    pub fn unix_session(session_id: String) -> (r: Subject)
        ensures
            r@ == (SubjectView {
                kind: "unix-session"@,
                details: seq![("session-id"@, session_id@)],
            }),
    {
        let mut details: Vec<(String, String)> = Vec::new();
        details.push((String::from_str("session-id"), session_id));
        let r = Subject { kind: String::from_str("unix-session"), details };
        assert(r@.details =~= seq![("session-id"@, session_id@)]);
        r
    }

    /// The kind of subject.
    pub fn kind(&self) -> (r: &str)
        ensures
            r@ == self@.kind,
    {
        self.kind.as_str()
    }

    /// The details, in the order given.
    pub fn details(&self) -> (r: &Vec<(String, String)>)
        ensures
            r.deep_view() == self@.details,
    {
        &self.details
    }
}

} // verus!
