//! What comes into the session manager and what it asks to be done.

use crate::session::Outcome;
use vstd::prelude::*;

verus! {

/// Something that happened to an authorization request. Events are the
/// manager's input; any producer may publish them. An event may carry a
/// secret, so the type cannot be formatted for a log.
#[derive(Clone, PartialEq, Eq)]
pub enum AuthenticationEvent {
    /// The authorization service opened a request.
    Started { cookie: String, message: String, identities: Vec<String> },
    /// The authorization service withdrew the request.
    Canceled { cookie: String },
    /// The operator dismissed the prompt.
    UserCanceled { cookie: String },
    /// The operator submitted credentials for one of the identities.
    UserProvidedPassword { cookie: String, identity: String, secret: String },
    /// Verification concluded negatively.
    AuthorizationFailed { cookie: String },
}

/// An event as a mathematical value.
pub ghost enum EventView {
    Started { cookie: Seq<char>, message: Seq<char>, identities: Seq<Seq<char>> },
    Canceled { cookie: Seq<char> },
    UserCanceled { cookie: Seq<char> },
    UserProvidedPassword { cookie: Seq<char>, identity: Seq<char>, secret: Seq<char> },
    AuthorizationFailed { cookie: Seq<char> },
}

impl EventView {
    /// The cookie of the request the event is about.
    pub open spec fn cookie(self) -> Seq<char> {
        match self {
            EventView::Started { cookie, .. } => cookie,
            EventView::Canceled { cookie } => cookie,
            EventView::UserCanceled { cookie } => cookie,
            EventView::UserProvidedPassword { cookie, .. } => cookie,
            EventView::AuthorizationFailed { cookie } => cookie,
        }
    }
}

impl View for AuthenticationEvent {
    type V = EventView;

    open spec fn view(&self) -> EventView {
        match self {
            AuthenticationEvent::Started { cookie, message, identities } => EventView::Started {
                cookie: cookie@,
                message: message@,
                identities: identities.deep_view(),
            },
            AuthenticationEvent::Canceled { cookie } => EventView::Canceled { cookie: cookie@ },
            AuthenticationEvent::UserCanceled { cookie } => EventView::UserCanceled {
                cookie: cookie@,
            },
            AuthenticationEvent::UserProvidedPassword {
                cookie,
                identity,
                secret,
            } => EventView::UserProvidedPassword {
                cookie: cookie@,
                identity: identity@,
                secret: secret@,
            },
            AuthenticationEvent::AuthorizationFailed { cookie } => EventView::AuthorizationFailed {
                cookie: cookie@,
            },
        }
    }
}

impl AuthenticationEvent {
    /// The cookie of the request the event is about.
    pub fn cookie(&self) -> (r: &str)
        ensures
            r@ == self@.cookie(),
    {
        match self {
            AuthenticationEvent::Started { cookie, .. } => cookie.as_str(),
            AuthenticationEvent::Canceled { cookie } => cookie.as_str(),
            AuthenticationEvent::UserCanceled { cookie } => cookie.as_str(),
            AuthenticationEvent::UserProvidedPassword { cookie, .. } => cookie.as_str(),
            AuthenticationEvent::AuthorizationFailed { cookie } => cookie.as_str(),
        }
    }
}

/// Something the manager asks its surroundings to do. The manager itself
/// touches neither the prompt, nor the helper, nor the authorization service.
/// An intent may carry a secret, so the type cannot be formatted for a log.
#[derive(Clone, PartialEq, Eq)]
pub enum Intent {
    /// Show the prompt for this request, with these identities to choose from.
    ShowPrompt { cookie: String, message: String, identities: Vec<String> },
    /// Take the prompt for this request down.
    RetractPrompt { cookie: String },
    /// Tell the operator that authentication failed, in general words.
    ShowFailure { cookie: String },
    /// Have the helper check these credentials, then hand its answer back.
    Verify { cookie: String, identity: String, secret: String },
    /// Tell the authorization service that `identity` authenticated.
    ReportAuthorized { cookie: String, identity: String },
    /// Tell the authorization service that the request ended without an
    /// authorization.
    ReportEnded { cookie: String, outcome: Outcome },
}

/// An intent as a mathematical value.
pub ghost enum IntentView {
    ShowPrompt { cookie: Seq<char>, message: Seq<char>, identities: Seq<Seq<char>> },
    RetractPrompt { cookie: Seq<char> },
    ShowFailure { cookie: Seq<char> },
    Verify { cookie: Seq<char>, identity: Seq<char>, secret: Seq<char> },
    ReportAuthorized { cookie: Seq<char>, identity: Seq<char> },
    ReportEnded { cookie: Seq<char>, outcome: Outcome },
}

impl View for Intent {
    type V = IntentView;

    open spec fn view(&self) -> IntentView {
        match self {
            Intent::ShowPrompt { cookie, message, identities } => IntentView::ShowPrompt {
                cookie: cookie@,
                message: message@,
                identities: identities.deep_view(),
            },
            Intent::RetractPrompt { cookie } => IntentView::RetractPrompt { cookie: cookie@ },
            Intent::ShowFailure { cookie } => IntentView::ShowFailure { cookie: cookie@ },
            Intent::Verify { cookie, identity, secret } => IntentView::Verify {
                cookie: cookie@,
                identity: identity@,
                secret: secret@,
            },
            Intent::ReportAuthorized { cookie, identity } => IntentView::ReportAuthorized {
                cookie: cookie@,
                identity: identity@,
            },
            Intent::ReportEnded { cookie, outcome } => IntentView::ReportEnded {
                cookie: cookie@,
                outcome: *outcome,
            },
        }
    }
}

impl DeepView for Intent {
    type V = IntentView;

    open spec fn deep_view(&self) -> IntentView {
        self@
    }
}

/// Turns the authorization service's call to begin an authentication into the
/// event that stands for it. The endpoint keeps no state of its own.
pub fn begin_authentication(cookie: String, message: String, identities: Vec<String>) -> (r:
    AuthenticationEvent)
    ensures
        r@ == (EventView::Started {
            cookie: cookie@,
            message: message@,
            identities: identities.deep_view(),
        }),
{
    AuthenticationEvent::Started { cookie, message, identities }
}

/// Turns the authorization service's call to cancel an authentication into
/// the event that stands for it.
pub fn cancel_authentication(cookie: String) -> (r: AuthenticationEvent)
    ensures
        r@ == (EventView::Canceled { cookie: cookie@ }),
{
    AuthenticationEvent::Canceled { cookie }
}

} // verus!
