//! The data of one authorization request and the small enums around it.

use crate::text::copy_texts;
use vstd::prelude::*;

verus! {

/// How a request ended.
#[derive(Clone, Copy, Debug, PartialEq, Eq, Structural)]
pub enum Outcome {
    /// The helper accepted the operator's credentials.
    Authorized,
    /// Verification concluded negatively, or the helper could not be used.
    Denied,
    /// The authorization service withdrew the request.
    CanceledByService,
    /// The operator dismissed the prompt.
    CanceledByOperator,
}

/// Where a request stands.
#[derive(Clone, Copy, Debug, PartialEq, Eq, Structural)]
pub enum Status {
    /// Known, but not yet shown to the operator.
    Pending,
    /// Shown to the operator, waiting for input.
    Active,
    /// Finished; nothing changes this any more.
    Resolved(Outcome),
}

impl Status {
    /// Whether the request has reached its outcome.
    pub fn is_resolved(&self) -> (r: bool)
        ensures
            r == (*self is Resolved),
    {
        match self {
            Status::Resolved(_) => true,
            _ => false,
        }
    }
}

/// Why a request is ended without an authorization.
#[derive(Clone, Copy, Debug, PartialEq, Eq, Structural)]
pub enum EndReason {
    /// The authorization service withdrew the request.
    CanceledByService,
    /// The operator dismissed the prompt.
    CanceledByOperator,
    /// Verification concluded negatively.
    Denied,
}

impl EndReason {
    /// The outcome that a request ended for this reason is resolved with.
    pub open spec fn spec_outcome(self) -> Outcome {
        match self {
            EndReason::CanceledByService => Outcome::CanceledByService,
            EndReason::CanceledByOperator => Outcome::CanceledByOperator,
            EndReason::Denied => Outcome::Denied,
        }
    }

    /// The outcome that a request ended for this reason is resolved with.
    #[verifier::when_used_as_spec(spec_outcome)]
    pub fn outcome(self) -> (r: Outcome)
        ensures
            r == self.spec_outcome(),
    {
        match self {
            EndReason::CanceledByService => Outcome::CanceledByService,
            EndReason::CanceledByOperator => Outcome::CanceledByOperator,
            EndReason::Denied => Outcome::Denied,
        }
    }
}

/// A protocol error of the session manager. Neither is fatal.
#[derive(Clone, Copy, Debug, PartialEq, Eq, Structural)]
pub enum SessionError {
    /// A request with this cookie is already under way.
    DuplicateCookie,
    /// No request with this cookie is tracked.
    UnknownCookie,
}

/// The helper's word that the credentials were right.
#[derive(Clone, Copy, Debug, PartialEq, Eq, Structural)]
pub struct Authorized;

/// Why the helper did not authorize.
#[derive(Clone, Copy, Debug, PartialEq, Eq, Structural)]
pub enum VerificationError {
    /// Wrong credentials. The operator may try again.
    Rejected,
    /// The helper could not be run. The request is denied.
    HelperUnavailable,
}

/// One authorization request, as the manager tracks it.
#[derive(Clone, Debug, PartialEq, Eq)]
pub struct Session {
    /// The token by which the authorization service names the request.
    pub cookie: String,
    /// The text to show to the operator.
    pub message: String,
    /// The accounts the operator may authenticate as, in the order offered.
    pub identities: Vec<String>,
    /// Where the request stands.
    pub status: Status,
    /// The identity whose credentials the helper is checking right now.
    pub verifying: Option<String>,
}

/// A session as a mathematical value.
pub ghost struct SessionView {
    pub cookie: Seq<char>,
    pub message: Seq<char>,
    pub identities: Seq<Seq<char>>,
    pub status: Status,
    pub verifying: Option<Seq<char>>,
}

impl SessionView {
    /// What the manager keeps true of every session it tracks: it has been
    /// shown to the operator, some identity is offered, and only an active
    /// session has a check under way, for one of the identities offered.
    pub open spec fn valid(self) -> bool {
        &&& self.status != Status::Pending
        &&& self.identities.len() > 0
        &&& self.verifying matches Some(identity) ==> self.status == Status::Active
            && self.identities.contains(identity)
    }

    /// The session once it has ended with `outcome`.
    pub open spec fn resolved(self, outcome: Outcome) -> SessionView {
        SessionView { status: Status::Resolved(outcome), verifying: None, ..self }
    }

    /// The session while the helper checks the credentials of `identity`.
    pub open spec fn checking(self, identity: Seq<char>) -> SessionView {
        SessionView { verifying: Some(identity), ..self }
    }

    /// The session once the helper has turned the credentials down.
    pub open spec fn idle(self) -> SessionView {
        SessionView { verifying: None, ..self }
    }

    /// Whether a submission for `identity` is taken up: the session is shown,
    /// no check is under way, and the identity is one of those offered.
    pub open spec fn accepts(self, identity: Seq<char>) -> bool {
        &&& self.status == Status::Active
        &&& self.verifying is None
        &&& self.identities.contains(identity)
    }
}

/// A new request, shown to the operator at once.
pub open spec fn surfaced(
    cookie: Seq<char>,
    message: Seq<char>,
    identities: Seq<Seq<char>>,
) -> SessionView {
    SessionView { cookie, message, identities, status: Status::Active, verifying: None }
}

impl View for Session {
    type V = SessionView;

    open spec fn view(&self) -> SessionView {
        SessionView {
            cookie: self.cookie@,
            message: self.message@,
            identities: self.identities.deep_view(),
            status: self.status,
            verifying: match self.verifying {
                Some(identity) => Some(identity@),
                None => None,
            },
        }
    }
}

impl Session {
    /// A copy of the session.
    pub fn duplicate(&self) -> (r: Session)
        ensures
            r@ == self@,
    {
        let verifying = match &self.verifying {
            Some(identity) => Some(identity.clone()),
            None => None,
        };
        Session {
            cookie: self.cookie.clone(),
            message: self.message.clone(),
            identities: copy_texts(&self.identities),
            status: self.status,
            verifying,
        }
    }
}

} // verus!
