//! What holds of the session manager whatever happens to it, proved of the
//! state machine in `model`.

use crate::event::{EventView, IntentView};
use crate::model::{
    acknowledge_state, active, active_cookies, apply, complete_intents, complete_state,
    end_intents, end_result, end_state, reached, some_active, start_result, start_state,
    step_intents, step_state, submit_result, submit_state, unresolved, valid, Input, Sessions,
};
use crate::session::{
    surfaced, Authorized, EndReason, SessionError, Status, VerificationError,
};
use vstd::prelude::*;

verus! {

/// Starting a request keeps the sessions valid.
pub proof fn lemma_start_keeps_valid(
    s: Sessions,
    cookie: Seq<char>,
    message: Seq<char>,
    identities: Seq<Seq<char>>,
)
    requires
        valid(s),
        identities.len() > 0,
    ensures
        valid(start_state(s, cookie, message, identities)),
{
    let after = start_state(s, cookie, message, identities);
    if start_result(s, cookie) == Ok::<bool, SessionError>(true) {
        assert forall|a: Seq<char>, b: Seq<char>| active(after, a) && active(after, b) implies a
            == b by {
            if a != cookie {
                assert(active(s, a));
            }
            if b != cookie {
                assert(active(s, b));
            }
        }
    }
}

/// Ending a request keeps the sessions valid.
pub proof fn lemma_end_keeps_valid(s: Sessions, cookie: Seq<char>, reason: EndReason)
    requires
        valid(s),
    ensures
        valid(end_state(s, cookie, reason)),
{
    let after = end_state(s, cookie, reason);
    assert forall|a: Seq<char>, b: Seq<char>| active(after, a) && active(after, b) implies a
        == b by {
        assert(active(s, a));
        assert(active(s, b));
    }
}

/// Taking a submission keeps the sessions valid.
pub proof fn lemma_submit_keeps_valid(s: Sessions, cookie: Seq<char>, identity: Seq<char>)
    requires
        valid(s),
    ensures
        valid(submit_state(s, cookie, identity)),
{
    let after = submit_state(s, cookie, identity);
    assert forall|a: Seq<char>, b: Seq<char>| active(after, a) && active(after, b) implies a
        == b by {
        assert(active(s, a));
        assert(active(s, b));
    }
}

/// Taking the helper's answer keeps the sessions valid.
pub proof fn lemma_complete_keeps_valid(
    s: Sessions,
    cookie: Seq<char>,
    result: Result<Authorized, VerificationError>,
)
    requires
        valid(s),
    ensures
        valid(complete_state(s, cookie, result)),
{
    let after = complete_state(s, cookie, result);
    assert forall|a: Seq<char>, b: Seq<char>| active(after, a) && active(after, b) implies a
        == b by {
        assert(active(s, a));
        assert(active(s, b));
    }
}

/// Dropping a resolved session keeps the sessions valid.
pub proof fn lemma_acknowledge_keeps_valid(s: Sessions, cookie: Seq<char>)
    requires
        valid(s),
    ensures
        valid(acknowledge_state(s, cookie)),
{
    let after = acknowledge_state(s, cookie);
    assert forall|a: Seq<char>, b: Seq<char>| active(after, a) && active(after, b) implies a
        == b by {
        assert(active(s, a));
        assert(active(s, b));
    }
}

/// An event keeps the sessions valid.
pub proof fn lemma_step_keeps_valid(s: Sessions, event: EventView)
    requires
        valid(s),
    ensures
        valid(step_state(s, event)),
{
    match event {
        EventView::Started { cookie, message, identities } => {
            if identities.len() > 0 {
                lemma_start_keeps_valid(s, cookie, message, identities);
            }
        },
        EventView::Canceled { cookie } => {
            lemma_end_keeps_valid(s, cookie, EndReason::CanceledByService);
        },
        EventView::UserCanceled { cookie } => {
            lemma_end_keeps_valid(s, cookie, EndReason::CanceledByOperator);
        },
        EventView::UserProvidedPassword { cookie, identity, secret } => {
            lemma_submit_keeps_valid(s, cookie, identity);
        },
        EventView::AuthorizationFailed { cookie } => {
            lemma_end_keeps_valid(s, cookie, EndReason::Denied);
        },
    }
}

/// Any input keeps the sessions valid.
pub proof fn lemma_apply_keeps_valid(s: Sessions, input: Input)
    requires
        valid(s),
    ensures
        valid(apply(s, input)),
{
    match input {
        Input::Event(event) => lemma_step_keeps_valid(s, event),
        Input::Verified { cookie, result } => lemma_complete_keeps_valid(s, cookie, result),
        Input::Acknowledged { cookie } => lemma_acknowledge_keeps_valid(s, cookie),
    }
}

/// Among valid sessions, those that are active number at most one.
pub proof fn lemma_valid_counts_one(s: Sessions)
    requires
        valid(s),
    ensures
        active_cookies(s).finite(),
        active_cookies(s).len() <= 1,
{
    let shown = active_cookies(s);
    vstd::set_lib::lemma_len_subset(shown, s.dom());
    if shown.len() > 0 {
        let a = shown.choose();
        assert(shown.contains(a));
        assert forall|b: Seq<char>| !shown.remove(a).contains(b) by {
            if shown.remove(a).contains(b) {
                assert(shown.contains(b));
                assert(active(s, a) && active(s, b));
            }
        }
        assert(shown.remove(a) =~= Set::empty());
    }
}

/// Whatever inputs a manager has taken since it was made, in whatever
/// order, at most one of its sessions is active.
pub proof fn lemma_at_most_one_active(inputs: Seq<Input>)
    ensures
        valid(reached(inputs)),
        active_cookies(reached(inputs)).len() <= 1,
    decreases inputs.len(),
{
    if inputs.len() > 0 {
        lemma_at_most_one_active(inputs.drop_last());
        lemma_apply_keeps_valid(reached(inputs.drop_last()), inputs.last());
    }
    lemma_valid_counts_one(reached(inputs));
}

/// Ending a request twice is ending it once: the second call leaves the
/// sessions as the first left them and asks for nothing, for whatever
/// reasons the two are made. It returns `Ok` with nothing to do where the
/// cookie is tracked, and the error of the first call where it is not.
pub proof fn lemma_end_is_idempotent(
    s: Sessions,
    cookie: Seq<char>,
    first: EndReason,
    second: EndReason,
)
    ensures
        end_state(end_state(s, cookie, first), cookie, second) == end_state(s, cookie, first),
        end_intents(end_state(s, cookie, first), cookie, second) == Seq::<IntentView>::empty(),
        end_result(end_state(s, cookie, first), cookie, second) == if s.dom().contains(cookie) {
            Ok::<Seq<IntentView>, SessionError>(Seq::empty())
        } else {
            end_result(s, cookie, first)
        },
{
}

/// While one request holds the prompt, a request under another cookie is
/// refused: starting it returns `Ok(false)`, nothing changes, and the first
/// stays active.
pub proof fn lemma_one_prompt_at_a_time(
    s: Sessions,
    first: Seq<char>,
    second: Seq<char>,
    message: Seq<char>,
    identities: Seq<Seq<char>>,
)
    requires
        valid(s),
        active(s, first),
        second != first,
    ensures
        start_result(s, second) == Ok::<bool, SessionError>(false),
        start_state(s, second, message, identities) == s,
        active(start_state(s, second, message, identities), first),
{
    if unresolved(s, second) {
        assert(s.dom().contains(second));
        assert(active(s, second));
    }
}

/// A request that was started and taken up is the active one right after.
pub proof fn lemma_started_is_active(
    s: Sessions,
    cookie: Seq<char>,
    message: Seq<char>,
    identities: Seq<Seq<char>>,
)
    requires
        start_result(s, cookie) == Ok::<bool, SessionError>(true),
    ensures
        active(start_state(s, cookie, message, identities), cookie),
        start_state(s, cookie, message, identities)[cookie] == surfaced(
            cookie,
            message,
            identities,
        ),
{
}

/// Once a request has been ended, the helper's answer comes too late: it
/// changes nothing and asks for nothing, whatever it says, and the outcome
/// stays the one the request was ended with.
pub proof fn lemma_end_beats_verification(
    s: Sessions,
    cookie: Seq<char>,
    reason: EndReason,
    result: Result<Authorized, VerificationError>,
)
    requires
        valid(s),
        unresolved(s, cookie),
    ensures
        end_state(s, cookie, reason)[cookie].status == Status::Resolved(reason.spec_outcome()),
        complete_state(end_state(s, cookie, reason), cookie, result) == end_state(
            s,
            cookie,
            reason,
        ),
        complete_intents(end_state(s, cookie, reason), cookie, result) == Seq::<
            IntentView,
        >::empty(),
{
}

/// A resolved session never changes again: after any input it is as it was,
/// unless it was acknowledged and dropped, or a new request was started
/// under its cookie.
pub proof fn lemma_resolved_is_final(s: Sessions, input: Input, cookie: Seq<char>)
    requires
        valid(s),
        s.dom().contains(cookie),
        s[cookie].status is Resolved,
    ensures
        ({
            let after = apply(s, input);
            ||| after.dom().contains(cookie) && after[cookie] == s[cookie]
            ||| input == (Input::Acknowledged { cookie }) && !after.dom().contains(cookie)
            ||| input matches Input::Event(EventView::Started { cookie: c, message, identities })
                && c == cookie && after[cookie] == surfaced(cookie, message, identities)
        }),
{
}

/// Ending the active request frees the prompt: no session is active right
/// after, and the next request is taken up, under whatever cookie it comes.
pub proof fn lemma_end_frees_the_prompt(
    s: Sessions,
    cookie: Seq<char>,
    reason: EndReason,
    next: Seq<char>,
)
    requires
        valid(s),
        active(s, cookie),
    ensures
        !some_active(end_state(s, cookie, reason)),
        start_result(end_state(s, cookie, reason), next) == Ok::<bool, SessionError>(true),
{
    let after = end_state(s, cookie, reason);
    assert forall|other: Seq<char>| !active(after, other) by {
        if active(after, other) {
            assert(active(s, other));
        }
    }
    if unresolved(after, next) {
        assert(after.dom().contains(next));
        assert(active(after, next));
    }
}

/// An event for a request that is not under way is dropped, unless it
/// starts one: it changes nothing and asks for nothing.
pub proof fn lemma_stale_event_is_dropped(s: Sessions, event: EventView)
    requires
        !(event is Started),
        !unresolved(s, event.cookie()),
    ensures
        step_state(s, event) == s,
        step_intents(s, event) == Seq::<IntentView>::empty(),
{
}

/// While the helper checks one submission, no other is taken up for the
/// same request: it returns `Ok(false)` and changes nothing.
pub proof fn lemma_one_check_at_a_time(
    s: Sessions,
    cookie: Seq<char>,
    first: Seq<char>,
    second: Seq<char>,
)
    requires
        submit_result(s, cookie, first) == Ok::<bool, SessionError>(true),
    ensures
        submit_result(submit_state(s, cookie, first), cookie, second) == Ok::<bool, SessionError>(
            false,
        ),
        submit_state(submit_state(s, cookie, first), cookie, second) == submit_state(
            s,
            cookie,
            first,
        ),
{
}

} // verus!
