//! The session manager as a mathematical state machine: the tracked
//! sessions are a map from cookie to session, and every operation is a
//! function from one such map to the next.

use crate::event::{EventView, IntentView};
use crate::session::{
    surfaced, Authorized, EndReason, Outcome, SessionError, SessionView, Status,
    VerificationError,
};
use vstd::prelude::*;

verus! {

/// The tracked sessions, by cookie.
pub type Sessions = Map<Seq<char>, SessionView>;

/// Whether `cookie` names the session that is shown to the operator.
pub open spec fn active(s: Sessions, cookie: Seq<char>) -> bool {
    s.dom().contains(cookie) && s[cookie].status == Status::Active
}

/// Whether `cookie` names a session that has not reached its outcome.
pub open spec fn unresolved(s: Sessions, cookie: Seq<char>) -> bool {
    s.dom().contains(cookie) && !(s[cookie].status is Resolved)
}

/// Whether `cookie` names a session whose credentials the helper is checking.
pub open spec fn awaiting(s: Sessions, cookie: Seq<char>) -> bool {
    s.dom().contains(cookie) && s[cookie].verifying is Some
}

/// Whether some session is shown to the operator.
pub open spec fn some_active(s: Sessions) -> bool {
    exists|cookie: Seq<char>| active(s, cookie)
}

/// The cookies of the sessions that are shown to the operator.
pub open spec fn active_cookies(s: Sessions) -> Set<Seq<char>> {
    s.dom().filter(|cookie: Seq<char>| s[cookie].status == Status::Active)
}

/// What holds of the tracked sessions at all times: they are finitely many,
/// each is filed under its own cookie and valid, and at most one is active.
pub open spec fn valid(s: Sessions) -> bool {
    &&& s.dom().finite()
    &&& forall|cookie: Seq<char>| #[trigger]
        s.dom().contains(cookie) ==> s[cookie].cookie == cookie && s[cookie].valid()
    &&& forall|a: Seq<char>, b: Seq<char>| active(s, a) && active(s, b) ==> a == b
}

/// What starting a request returns: an error where the cookie names a
/// session that is under way, else whether the prompt slot was free.
pub open spec fn start_result(s: Sessions, cookie: Seq<char>) -> Result<bool, SessionError> {
    if unresolved(s, cookie) {
        Err(SessionError::DuplicateCookie)
    } else {
        Ok(!some_active(s))
    }
}

/// The sessions after starting a request: the new session is filed, active,
/// where the request is taken up; nothing changes where it is not.
pub open spec fn start_state(
    s: Sessions,
    cookie: Seq<char>,
    message: Seq<char>,
    identities: Seq<Seq<char>>,
) -> Sessions {
    if start_result(s, cookie) == Ok::<bool, SessionError>(true) {
        s.insert(cookie, surfaced(cookie, message, identities))
    } else {
        s
    }
}

/// The sessions after ending a request: a session under way is resolved with
/// the outcome that the reason stands for; nothing else changes.
pub open spec fn end_state(s: Sessions, cookie: Seq<char>, reason: EndReason) -> Sessions {
    if unresolved(s, cookie) {
        s.insert(cookie, s[cookie].resolved(reason.spec_outcome()))
    } else {
        s
    }
}

/// What the surroundings are asked to do when a request is ended: nothing
/// unless it was under way; else to take the prompt down if it was shown, to
/// tell the operator of a failure if that is the reason, and to report the
/// end.
pub open spec fn end_intents(s: Sessions, cookie: Seq<char>, reason: EndReason) -> Seq<
    IntentView,
> {
    if unresolved(s, cookie) {
        let retract = if s[cookie].status == Status::Active {
            seq![IntentView::RetractPrompt { cookie }]
        } else {
            seq![]
        };
        let failure = if reason == EndReason::Denied {
            seq![IntentView::ShowFailure { cookie }]
        } else {
            seq![]
        };
        retract + failure + seq![
            IntentView::ReportEnded { cookie, outcome: reason.spec_outcome() },
        ]
    } else {
        seq![]
    }
}

/// What ending a request returns: an error where the cookie is not
/// tracked, else what the surroundings are asked to do.
pub open spec fn end_result(s: Sessions, cookie: Seq<char>, reason: EndReason) -> Result<
    Seq<IntentView>,
    SessionError,
> {
    if s.dom().contains(cookie) {
        Ok(end_intents(s, cookie, reason))
    } else {
        Err(SessionError::UnknownCookie)
    }
}

/// What submitting credentials returns: an error where the cookie is not
/// tracked, else whether the submission is taken up.
pub open spec fn submit_result(s: Sessions, cookie: Seq<char>, identity: Seq<char>) -> Result<
    bool,
    SessionError,
> {
    if s.dom().contains(cookie) {
        Ok(s[cookie].accepts(identity))
    } else {
        Err(SessionError::UnknownCookie)
    }
}

/// The sessions after submitting credentials: where the submission is taken
/// up, the session records the identity under check; nothing else changes.
pub open spec fn submit_state(s: Sessions, cookie: Seq<char>, identity: Seq<char>) -> Sessions {
    if submit_result(s, cookie, identity) == Ok::<bool, SessionError>(true) {
        s.insert(cookie, s[cookie].checking(identity))
    } else {
        s
    }
}

/// The sessions after the helper's answer came back: it counts only for a
/// session that still waits for it. Authorized resolves the session as
/// such; a rejection leaves it active, free for another submission; a
/// helper that could not be used resolves it as denied.
pub open spec fn complete_state(
    s: Sessions,
    cookie: Seq<char>,
    result: Result<Authorized, VerificationError>,
) -> Sessions {
    if awaiting(s, cookie) {
        match result {
            Ok(_) => s.insert(cookie, s[cookie].resolved(Outcome::Authorized)),
            Err(VerificationError::Rejected) => s.insert(cookie, s[cookie].idle()),
            Err(VerificationError::HelperUnavailable) => s.insert(
                cookie,
                s[cookie].resolved(Outcome::Denied),
            ),
        }
    } else {
        s
    }
}

/// What the surroundings are asked to do when the helper's answer came back.
pub open spec fn complete_intents(
    s: Sessions,
    cookie: Seq<char>,
    result: Result<Authorized, VerificationError>,
) -> Seq<IntentView> {
    if awaiting(s, cookie) {
        match result {
            Ok(_) => seq![
                IntentView::RetractPrompt { cookie },
                IntentView::ReportAuthorized { cookie, identity: s[cookie].verifying->0 },
            ],
            Err(VerificationError::Rejected) => seq![IntentView::ShowFailure { cookie }],
            Err(VerificationError::HelperUnavailable) => seq![
                IntentView::RetractPrompt { cookie },
                IntentView::ShowFailure { cookie },
                IntentView::ReportEnded { cookie, outcome: Outcome::Denied },
            ],
        }
    } else {
        seq![]
    }
}

/// The outcome that acknowledging a session hands out: that of a resolved
/// session, none otherwise.
pub open spec fn acknowledged(s: Sessions, cookie: Seq<char>) -> Option<Outcome> {
    if s.dom().contains(cookie) {
        match s[cookie].status {
            Status::Resolved(outcome) => Some(outcome),
            _ => None,
        }
    } else {
        None
    }
}

/// The sessions after acknowledging one: a resolved session is dropped;
/// nothing else changes.
pub open spec fn acknowledge_state(s: Sessions, cookie: Seq<char>) -> Sessions {
    if acknowledged(s, cookie) is Some {
        s.remove(cookie)
    } else {
        s
    }
}

/// The sessions after an event. A `Started` event that offers no identity is
/// dropped.
pub open spec fn step_state(s: Sessions, event: EventView) -> Sessions {
    match event {
        EventView::Started { cookie, message, identities } => if identities.len() > 0 {
            start_state(s, cookie, message, identities)
        } else {
            s
        },
        EventView::Canceled { cookie } => end_state(s, cookie, EndReason::CanceledByService),
        EventView::UserCanceled { cookie } => end_state(s, cookie, EndReason::CanceledByOperator),
        EventView::UserProvidedPassword { cookie, identity, secret } => submit_state(
            s,
            cookie,
            identity,
        ),
        EventView::AuthorizationFailed { cookie } => end_state(s, cookie, EndReason::Denied),
    }
}

/// What the surroundings are asked to do upon an event. An event that is
/// dropped asks for nothing.
pub open spec fn step_intents(s: Sessions, event: EventView) -> Seq<IntentView> {
    match event {
        EventView::Started { cookie, message, identities } => if identities.len() > 0
            && start_result(s, cookie) == Ok::<bool, SessionError>(true) {
            seq![IntentView::ShowPrompt { cookie, message, identities }]
        } else {
            seq![]
        },
        EventView::Canceled { cookie } => end_intents(s, cookie, EndReason::CanceledByService),
        EventView::UserCanceled { cookie } => end_intents(
            s,
            cookie,
            EndReason::CanceledByOperator,
        ),
        EventView::UserProvidedPassword { cookie, identity, secret } => if submit_result(
            s,
            cookie,
            identity,
        ) == Ok::<bool, SessionError>(true) {
            seq![IntentView::Verify { cookie, identity, secret }]
        } else {
            seq![]
        },
        EventView::AuthorizationFailed { cookie } => end_intents(s, cookie, EndReason::Denied),
    }
}

/// One thing that can happen to the manager.
pub ghost enum Input {
    /// An event arrives.
    Event(EventView),
    /// The helper's answer for a request comes back.
    Verified { cookie: Seq<char>, result: Result<Authorized, VerificationError> },
    /// A resolved session is acknowledged.
    Acknowledged { cookie: Seq<char> },
}

/// The sessions after one input.
pub open spec fn apply(s: Sessions, input: Input) -> Sessions {
    match input {
        Input::Event(event) => step_state(s, event),
        Input::Verified { cookie, result } => complete_state(s, cookie, result),
        Input::Acknowledged { cookie } => acknowledge_state(s, cookie),
    }
}

/// The sessions of a manager that started empty and took `inputs` in order.
pub open spec fn reached(inputs: Seq<Input>) -> Sessions
    decreases inputs.len(),
{
    if inputs.len() == 0 {
        Sessions::empty()
    } else {
        apply(reached(inputs.drop_last()), inputs.last())
    }
}

} // verus!
