//! The session manager: the one owner of the session state. It takes events
//! and the helper's answers one at a time, and answers with what should be
//! done about them.

use crate::event::{AuthenticationEvent, Intent, IntentView};
use crate::invariants::{
    lemma_acknowledge_keeps_valid, lemma_complete_keeps_valid, lemma_end_keeps_valid,
    lemma_submit_keeps_valid,
};
use crate::model::{
    acknowledge_state, acknowledged, active, complete_intents, complete_state, end_intents,
    end_result, end_state, some_active, start_result, start_state, step_intents, step_state,
    submit_result, submit_state, valid, Sessions,
};
use crate::session::{
    Authorized, EndReason, Outcome, Session, SessionError, Status, VerificationError,
};
use crate::text::{contains_text, copy_texts, same_text};
use vstd::prelude::*;

verus! {

/// Whether one of `ss` has this cookie.
spec fn holds(ss: Seq<Session>, cookie: Seq<char>) -> bool {
    exists|i: int| 0 <= i < ss.len() && #[trigger] ss[i].cookie@ == cookie
}

/// Where in `ss` the session with this cookie stands.
spec fn place(ss: Seq<Session>, cookie: Seq<char>) -> int {
    choose|i: int| 0 <= i < ss.len() && #[trigger] ss[i].cookie@ == cookie
}

/// No two of `ss` share a cookie.
spec fn distinct(ss: Seq<Session>) -> bool {
    forall|i: int, j: int|
        0 <= i < j < ss.len() ==> #[trigger] ss[i].cookie@ != #[trigger] ss[j].cookie@
}

/// The sessions of `ss`, by cookie.
spec fn as_map(ss: Seq<Session>) -> Sessions {
    Map::new(|cookie: Seq<char>| holds(ss, cookie), |cookie: Seq<char>| ss[place(ss, cookie)]@)
}

proof fn lemma_lookup(ss: Seq<Session>, i: int)
    requires
        distinct(ss),
        0 <= i < ss.len(),
    ensures
        holds(ss, ss[i].cookie@),
        place(ss, ss[i].cookie@) == i,
        as_map(ss).dom().contains(ss[i].cookie@),
        as_map(ss)[ss[i].cookie@] == ss[i]@,
{
    let j: int = place(ss, ss[i].cookie@);
    assert(ss[j].cookie@ == ss[i].cookie@);
}

proof fn lemma_update(ss: Seq<Session>, i: int, x: Session)
    requires
        distinct(ss),
        0 <= i < ss.len(),
        x.cookie@ == ss[i].cookie@,
    ensures
        distinct(ss.update(i, x)),
        as_map(ss.update(i, x)) == as_map(ss).insert(x.cookie@, x@),
{
    let after = ss.update(i, x);
    assert(distinct(after)) by {
        assert forall|a: int, b: int| 0 <= a < b < after.len() implies #[trigger] after[a].cookie@
            != #[trigger] after[b].cookie@ by {
            assert(after[a].cookie@ == ss[a].cookie@);
            assert(after[b].cookie@ == ss[b].cookie@);
        }
    }
    assert forall|cookie: Seq<char>| holds(after, cookie) == holds(ss, cookie) by {
        if holds(ss, cookie) {
            let j = place(ss, cookie);
            assert(after[j].cookie@ == cookie);
        }
        if holds(after, cookie) {
            let j = place(after, cookie);
            assert(ss[j].cookie@ == cookie);
        }
    }
    assert forall|cookie: Seq<char>| holds(after, cookie) implies as_map(after)[cookie] == as_map(
        ss,
    ).insert(x.cookie@, x@)[cookie] by {
        let j = place(after, cookie);
        lemma_lookup(after, j);
        if j != i {
            lemma_lookup(ss, j);
        }
    }
    assert(as_map(after) =~= as_map(ss).insert(x.cookie@, x@));
}

proof fn lemma_push(ss: Seq<Session>, x: Session)
    requires
        distinct(ss),
        !holds(ss, x.cookie@),
    ensures
        distinct(ss.push(x)),
        as_map(ss.push(x)) == as_map(ss).insert(x.cookie@, x@),
{
    let after = ss.push(x);
    assert(distinct(after)) by {
        assert forall|a: int, b: int| 0 <= a < b < after.len() implies #[trigger] after[a].cookie@
            != #[trigger] after[b].cookie@ by {
            assert(after[a] == ss[a]);
            if b < ss.len() {
                assert(after[b] == ss[b]);
            }
        }
    }
    assert forall|cookie: Seq<char>| holds(after, cookie) == (holds(ss, cookie) || cookie
        == x.cookie@) by {
        if holds(ss, cookie) {
            let j = place(ss, cookie);
            assert(after[j].cookie@ == cookie);
        }
        if cookie == x.cookie@ {
            assert(after[ss.len() as int].cookie@ == cookie);
        }
        if holds(after, cookie) {
            let j = place(after, cookie);
            if j < ss.len() {
                assert(ss[j].cookie@ == cookie);
            }
        }
    }
    assert forall|cookie: Seq<char>| holds(after, cookie) implies as_map(after)[cookie] == as_map(
        ss,
    ).insert(x.cookie@, x@)[cookie] by {
        let j = place(after, cookie);
        lemma_lookup(after, j);
        if j < ss.len() {
            assert(after[j] == ss[j]);
            lemma_lookup(ss, j);
        }
    }
    assert(as_map(after) =~= as_map(ss).insert(x.cookie@, x@));
}

proof fn lemma_remove(ss: Seq<Session>, i: int)
    requires
        distinct(ss),
        0 <= i < ss.len(),
    ensures
        distinct(ss.remove(i)),
        as_map(ss.remove(i)) == as_map(ss).remove(ss[i].cookie@),
{
    let after = ss.remove(i);
    assert forall|a: int| 0 <= a < after.len() implies #[trigger] after[a] == ss[if a < i {
        a
    } else {
        a + 1
    }] by {}
    assert(distinct(after)) by {
        assert forall|a: int, b: int| 0 <= a < b < after.len() implies #[trigger] after[a].cookie@
            != #[trigger] after[b].cookie@ by {
            let a0 = if a < i { a } else { a + 1 };
            let b0 = if b < i { b } else { b + 1 };
            assert(after[a] == ss[a0]);
            assert(after[b] == ss[b0]);
        }
    }
    assert forall|cookie: Seq<char>| holds(after, cookie) == (holds(ss, cookie) && cookie
        != ss[i].cookie@) by {
        if holds(ss, cookie) && cookie != ss[i].cookie@ {
            let j = place(ss, cookie);
            let k = if j < i { j } else { j - 1 };
            assert(after[k] == ss[j]);
            assert(after[k].cookie@ == cookie);
        }
        if holds(after, cookie) {
            let k = place(after, cookie);
            let j = if k < i { k } else { k + 1 };
            assert(after[k] == ss[j]);
            assert(ss[j].cookie@ == cookie);
            if cookie == ss[i].cookie@ {
                lemma_lookup(ss, i);
                lemma_lookup(ss, j);
            }
        }
    }
    assert forall|cookie: Seq<char>| holds(after, cookie) implies as_map(after)[cookie] == as_map(
        ss,
    ).remove(ss[i].cookie@)[cookie] by {
        let k = place(after, cookie);
        let j = if k < i { k } else { k + 1 };
        assert(after[k] == ss[j]);
        lemma_lookup(after, k);
        lemma_lookup(ss, j);
    }
    assert(as_map(after) =~= as_map(ss).remove(ss[i].cookie@));
}

/// A session is active by its cookie exactly if one of `ss` is active.
proof fn lemma_some_active(ss: Seq<Session>)
    requires
        distinct(ss),
    ensures
        some_active(as_map(ss)) <==> exists|i: int|
            0 <= i < ss.len() && (#[trigger] ss[i]).status == Status::Active,
{
    if some_active(as_map(ss)) {
        let cookie = choose|cookie: Seq<char>| active(as_map(ss), cookie);
        let i = place(ss, cookie);
        lemma_lookup(ss, i);
        assert(ss[i].status == Status::Active);
    }
    if exists|i: int| 0 <= i < ss.len() && (#[trigger] ss[i]).status == Status::Active {
        let i: int = choose|i: int|
            0 <= i < ss.len() && (#[trigger] ss[i]).status == Status::Active;
        lemma_lookup(ss, i);
        assert(active(as_map(ss), ss[i].cookie@));
    }
}

/// Tracks the authorization requests that are under way or lately resolved.
pub struct SessionManager {
    sessions: Vec<Session>,
}

impl View for SessionManager {
    type V = Sessions;

    closed spec fn view(&self) -> Sessions {
        as_map(self.sessions@)
    }
}

impl SessionManager {
    /// No cookie is filed twice.
    pub closed spec fn distinct_cookies(&self) -> bool {
        distinct(self.sessions@)
    }

    /// The manager's invariant. `new` establishes it, every method keeps it.
    pub open spec fn wf(&self) -> bool {
        self.distinct_cookies() && valid(self@)
    }

    /// A manager that tracks nothing.
    pub fn new() -> (r: SessionManager)
        ensures
            r.wf(),
            r@ == Sessions::empty(),
    {
        let r = SessionManager { sessions: Vec::new() };
        assert(r@ =~= Sessions::empty());
        r
    }

    /// Where the session with this cookie stands in the list.
    fn find(&self, cookie: &str) -> (r: Option<usize>)
        ensures
            match r {
                Some(i) => i < self.sessions.len() && self.sessions[i as int].cookie@ == cookie@,
                None => !holds(self.sessions@, cookie@),
            },
    {
        let mut i: usize = 0;
        while i < self.sessions.len()
            invariant
                i <= self.sessions.len(),
                forall|j: int| 0 <= j < i ==> self.sessions[j].cookie@ != cookie@,
            decreases self.sessions.len() - i,
        {
            if same_text(self.sessions[i].cookie.as_str(), cookie) {
                return Some(i);
            }
            i += 1;
        }
        None
    }

    /// Where the active session stands in the list.
    fn find_active(&self) -> (r: Option<usize>)
        ensures
            match r {
                Some(i) => i < self.sessions.len() && self.sessions[i as int].status
                    == Status::Active,
                None => forall|j: int|
                    0 <= j < self.sessions.len() ==> (#[trigger] self.sessions[j]).status
                        != Status::Active,
            },
    {
        let mut i: usize = 0;
        while i < self.sessions.len()
            invariant
                i <= self.sessions.len(),
                forall|j: int|
                    0 <= j < i ==> (#[trigger] self.sessions[j]).status != Status::Active,
            decreases self.sessions.len() - i,
        {
            if self.sessions[i].status == Status::Active {
                return Some(i);
            }
            i += 1;
        }
        None
    }

    /// Where the request with this cookie stands, if it is tracked.
    pub fn status(&self, cookie: &str) -> (r: Option<Status>)
        requires
            self.wf(),
        ensures
            r == if self@.dom().contains(cookie@) {
                Some(self@[cookie@].status)
            } else {
                None
            },
    {
        match self.find(cookie) {
            Some(i) => {
                proof {
                    lemma_lookup(self.sessions@, i as int);
                }
                Some(self.sessions[i].status)
            },
            None => None,
        }
    }

    /// A copy of the session with this cookie, if it is tracked.
    pub fn session(&self, cookie: &str) -> (r: Option<Session>)
        requires
            self.wf(),
        ensures
            match r {
                Some(session) => self@.dom().contains(cookie@) && session@ == self@[cookie@],
                None => !self@.dom().contains(cookie@),
            },
    {
        match self.find(cookie) {
            Some(i) => {
                proof {
                    lemma_lookup(self.sessions@, i as int);
                }
                Some(self.sessions[i].duplicate())
            },
            None => None,
        }
    }

    /// The cookie of the session that is shown to the operator, if any is.
    pub fn active_cookie(&self) -> (r: Option<String>)
        requires
            self.wf(),
        ensures
            match r {
                Some(cookie) => active(self@, cookie@),
                None => !some_active(self@),
            },
    {
        proof {
            lemma_some_active(self.sessions@);
        }
        match self.find_active() {
            Some(i) => {
                proof {
                    lemma_lookup(self.sessions@, i as int);
                }
                Some(self.sessions[i].cookie.clone())
            },
            None => None,
        }
    }
}

impl SessionManager {
    /// Takes up a new request. Returns `Ok(true)` where the request is now
    /// shown to the operator, and `Ok(false)` where another request holds the
    /// prompt: the new one is then refused, not queued, and nothing is
    /// tracked for it. A cookie that names a request under way is an error.
    /// A resolved session under the same cookie gives way to the new one.
    pub fn start_authentication(
        &mut self,
        cookie: String,
        message: String,
        identities: Vec<String>,
    ) -> (r: Result<bool, SessionError>)
        requires
            old(self).wf(),
            identities@.len() > 0,
        ensures
            final(self).wf(),
            r == start_result(old(self)@, cookie@),
            final(self)@ == start_state(old(self)@, cookie@, message@, identities.deep_view()),
    {
        let found = self.find(cookie.as_str());
        proof {
            lemma_some_active(self.sessions@);
        }
        if let Some(i) = found {
            proof {
                lemma_lookup(self.sessions@, i as int);
            }
            if !self.sessions[i].status.is_resolved() {
                return Err(SessionError::DuplicateCookie);
            }
        }
        if self.find_active().is_some() {
            return Ok(false);
        }
        let session = Session {
            cookie,
            message,
            identities,
            status: Status::Active,
            verifying: None,
        };
        proof {
            match found {
                Some(i) => lemma_update(self.sessions@, i as int, session),
                None => lemma_push(self.sessions@, session),
            }
        }
        match found {
            Some(i) => {
                self.sessions[i] = session;
            },
            None => {
                self.sessions.push(session);
            },
        }
        Ok(true)
    }

    /// Ends a request for the given reason, and says what is to be done
    /// about it. A session under way is resolved with the outcome the reason
    /// stands for, which frees the prompt for the next request; the prompt is
    /// to be taken down, a denial is to be shown as a failure, and the end is
    /// to be reported. On a session already resolved this changes nothing and
    /// asks for nothing, so a second call is as good as none. A cookie that
    /// is not tracked is an error, and changes nothing either.
    pub fn end_authentication(&mut self, cookie: &str, reason: EndReason) -> (r: Result<
        Vec<Intent>,
        SessionError,
    >)
        requires
            old(self).wf(),
        ensures
            final(self).wf(),
            final(self)@ == end_state(old(self)@, cookie@, reason),
            match r {
                Ok(intents) => end_result(old(self)@, cookie@, reason) == Ok::<
                    Seq<IntentView>,
                    SessionError,
                >(intents.deep_view()),
                Err(error) => end_result(old(self)@, cookie@, reason) == Err::<
                    Seq<IntentView>,
                    SessionError,
                >(error),
            },
    {
        proof {
            lemma_end_keeps_valid(self@, cookie@, reason);
        }
        let i = match self.find(cookie) {
            Some(i) => i,
            None => {
                return Err(SessionError::UnknownCookie);
            },
        };
        proof {
            lemma_lookup(self.sessions@, i as int);
        }
        let mut intents: Vec<Intent> = Vec::new();
        let before = self.sessions[i].status;
        if before.is_resolved() {
            assert(intents.deep_view() =~= Seq::empty());
            return Ok(intents);
        }
        self.sessions[i].status = Status::Resolved(reason.outcome());
        self.sessions[i].verifying = None;
        proof {
            lemma_update(old(self).sessions@, i as int, self.sessions@[i as int]);
            assert(self.sessions@ =~= old(self).sessions@.update(
                i as int,
                self.sessions@[i as int],
            ));
        }
        if before == Status::Active {
            intents.push(Intent::RetractPrompt { cookie: cookie.to_owned() });
        }
        if reason == EndReason::Denied {
            intents.push(Intent::ShowFailure { cookie: cookie.to_owned() });
        }
        intents.push(Intent::ReportEnded { cookie: cookie.to_owned(), outcome: reason.outcome() });
        assert(intents.deep_view() =~= end_intents(old(self)@, cookie@, reason));
        Ok(intents)
    }

    /// Takes a submission of credentials for `identity`. Returns `Ok(true)`
    /// where the helper should now check them: the session is shown, no
    /// check is under way for it, and the identity is one of those offered.
    /// Returns `Ok(false)`, and changes nothing, for any other tracked
    /// session; a cookie that is not tracked is an error.
    pub fn submit_credentials(&mut self, cookie: &str, identity: &str) -> (r: Result<
        bool,
        SessionError,
    >)
        requires
            old(self).wf(),
        ensures
            final(self).wf(),
            r == submit_result(old(self)@, cookie@, identity@),
            final(self)@ == submit_state(old(self)@, cookie@, identity@),
    {
        proof {
            lemma_submit_keeps_valid(self@, cookie@, identity@);
        }
        match self.find(cookie) {
            Some(i) => {
                proof {
                    lemma_lookup(self.sessions@, i as int);
                }
                let taken = self.sessions[i].status == Status::Active
                    && self.sessions[i].verifying.is_none() && contains_text(
                    &self.sessions[i].identities,
                    identity,
                );
                if taken {
                    self.sessions[i].verifying = Some(identity.to_owned());
                    proof {
                        lemma_update(old(self).sessions@, i as int, self.sessions@[i as int]);
                        assert(self.sessions@ =~= old(self).sessions@.update(
                            i as int,
                            self.sessions@[i as int],
                        ));
                    }
                }
                Ok(taken)
            },
            None => Err(SessionError::UnknownCookie),
        }
    }

    /// Takes the helper's answer to the check that `submit_credentials`
    /// asked for. The answer counts only for a session that still waits for
    /// it: where the session was ended meanwhile, or is not tracked, the
    /// answer is dropped and nothing is asked for.
    pub fn complete_verification(
        &mut self,
        cookie: &str,
        result: Result<Authorized, VerificationError>,
    ) -> (r: Vec<Intent>)
        requires
            old(self).wf(),
        ensures
            final(self).wf(),
            final(self)@ == complete_state(old(self)@, cookie@, result),
            r.deep_view() == complete_intents(old(self)@, cookie@, result),
    {
        proof {
            lemma_complete_keeps_valid(self@, cookie@, result);
        }
        let mut intents: Vec<Intent> = Vec::new();
        let i = match self.find(cookie) {
            Some(i) => i,
            None => {
                assert(intents.deep_view() =~= Seq::empty());
                return intents;
            },
        };
        proof {
            lemma_lookup(self.sessions@, i as int);
        }
        let identity = match &self.sessions[i].verifying {
            Some(identity) => identity.clone(),
            None => {
                assert(intents.deep_view() =~= Seq::empty());
                return intents;
            },
        };
        self.sessions[i].verifying = None;
        match result {
            Ok(_) => {
                self.sessions[i].status = Status::Resolved(Outcome::Authorized);
                intents.push(Intent::RetractPrompt { cookie: cookie.to_owned() });
                intents.push(Intent::ReportAuthorized { cookie: cookie.to_owned(), identity });
            },
            Err(VerificationError::Rejected) => {
                intents.push(Intent::ShowFailure { cookie: cookie.to_owned() });
            },
            Err(VerificationError::HelperUnavailable) => {
                self.sessions[i].status = Status::Resolved(Outcome::Denied);
                intents.push(Intent::RetractPrompt { cookie: cookie.to_owned() });
                intents.push(Intent::ShowFailure { cookie: cookie.to_owned() });
                intents.push(
                    Intent::ReportEnded { cookie: cookie.to_owned(), outcome: Outcome::Denied },
                );
            },
        }
        proof {
            lemma_update(old(self).sessions@, i as int, self.sessions@[i as int]);
            assert(self.sessions@ =~= old(self).sessions@.update(
                i as int,
                self.sessions@[i as int],
            ));
            assert(intents.deep_view() =~= complete_intents(old(self)@, cookie@, result));
        }
        intents
    }

    /// Drops a resolved session and hands out its outcome. A session under
    /// way stays, as does everything else.
    pub fn acknowledge(&mut self, cookie: &str) -> (r: Option<Outcome>)
        requires
            old(self).wf(),
        ensures
            final(self).wf(),
            r == acknowledged(old(self)@, cookie@),
            final(self)@ == acknowledge_state(old(self)@, cookie@),
    {
        proof {
            lemma_acknowledge_keeps_valid(self@, cookie@);
        }
        match self.find(cookie) {
            Some(i) => {
                proof {
                    lemma_lookup(self.sessions@, i as int);
                }
                match self.sessions[i].status {
                    Status::Resolved(outcome) => {
                        proof {
                            lemma_remove(self.sessions@, i as int);
                        }
                        self.sessions.remove(i);
                        Some(outcome)
                    },
                    _ => None,
                }
            },
            None => None,
        }
    }
}

impl SessionManager {
    /// Ends a request upon an event. An event that names no tracked request
    /// is dropped.
    fn finish(&mut self, cookie: &str, reason: EndReason) -> (r: Vec<Intent>)
        requires
            old(self).wf(),
        ensures
            final(self).wf(),
            final(self)@ == end_state(old(self)@, cookie@, reason),
            r.deep_view() == end_intents(old(self)@, cookie@, reason),
    {
        match self.end_authentication(cookie, reason) {
            Ok(intents) => intents,
            Err(_) => {
                let intents: Vec<Intent> = Vec::new();
                assert(intents.deep_view() =~= Seq::empty());
                intents
            },
        }
    }

    /// Takes one event and says what is to be done about it. An event that
    /// cannot apply (an unknown cookie, a session already resolved, a
    /// request while another holds the prompt, a `Started` without
    /// identities, a submission that is not taken up) is dropped: it changes
    /// nothing and asks for nothing.
    pub fn handle_event(&mut self, event: AuthenticationEvent) -> (r: Vec<Intent>)
        requires
            old(self).wf(),
        ensures
            final(self).wf(),
            final(self)@ == step_state(old(self)@, event@),
            r.deep_view() == step_intents(old(self)@, event@),
    {
        match event {
            AuthenticationEvent::Started { cookie, message, identities } => {
                let mut intents: Vec<Intent> = Vec::new();
                if identities.len() == 0 {
                    assert(intents.deep_view() =~= Seq::empty());
                    return intents;
                }
                let prompt = Intent::ShowPrompt {
                    cookie: cookie.clone(),
                    message: message.clone(),
                    identities: copy_texts(&identities),
                };
                match self.start_authentication(cookie, message, identities) {
                    Ok(true) => {
                        intents.push(prompt);
                    },
                    _ => {},
                }
                assert(intents.deep_view() =~= step_intents(old(self)@, event@));
                intents
            },
            AuthenticationEvent::Canceled { cookie } => self.finish(
                cookie.as_str(),
                EndReason::CanceledByService,
            ),
            AuthenticationEvent::UserCanceled { cookie } => self.finish(
                cookie.as_str(),
                EndReason::CanceledByOperator,
            ),
            AuthenticationEvent::UserProvidedPassword { cookie, identity, secret } => {
                let mut intents: Vec<Intent> = Vec::new();
                match self.submit_credentials(cookie.as_str(), identity.as_str()) {
                    Ok(true) => {
                        intents.push(Intent::Verify { cookie, identity, secret });
                    },
                    _ => {},
                }
                assert(intents.deep_view() =~= step_intents(old(self)@, event@));
                intents
            },
            AuthenticationEvent::AuthorizationFailed { cookie } => self.finish(
                cookie.as_str(),
                EndReason::Denied,
            ),
        }
    }
}

} // verus!
