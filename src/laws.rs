//! Properties of the login flow across several transitions.

use vstd::prelude::*;
use crate::retry::{after_misses, MAX_ATTEMPTS, INTERVAL_MS};
use crate::flow::{
    Action, Event, Gate, LoginFlow, Stage, exhausted_error, fresh_retry, hit,
};

verus! {

/// An attempt of gated step `g` that finds nothing.
pub open spec fn miss_event(g: Gate) -> Event {
    match g {
        Gate::LoginButton => Event::Found(false),
        Gate::CredentialFields => Event::FieldsFound(false, false),
        Gate::Token => Event::TokenRead(None),
    }
}

/// The flow after `n` rounds of a missed attempt of `g` followed by its pause.
pub open spec fn miss_rounds(f: LoginFlow, g: Gate, n: nat) -> LoginFlow
    decreases n,
{
    if n == 0 {
        f
    } else {
        let p = miss_rounds(f, g, (n - 1) as nat);
        p.next(miss_event(g)).0.next(Event::Slept).0
    }
}

/// After `n < MAX_ATTEMPTS` misses a gated step is attempting again, with its
/// own budget, and has paused exactly `n` intervals.
pub proof fn lemma_rounds_below_budget(g: Gate, n: nat)
    requires
        n < MAX_ATTEMPTS,
    ensures
        miss_rounds(LoginFlow::enter(g).0, g, n)
            == (LoginFlow { stage: Stage::Lookup(g), retry: after_misses(fresh_retry(), n) }),
        after_misses(fresh_retry(), n).misses == n,
        after_misses(fresh_retry(), n).max_attempts == MAX_ATTEMPTS,
        after_misses(fresh_retry(), n).interval_ms == INTERVAL_MS,
    decreases n,
{
    let r = fresh_retry();
    if n == 0 {
        assert(after_misses(r, 0) == r);
    } else {
        lemma_rounds_below_budget(g, (n - 1) as nat);
        let q = after_misses(r, (n - 1) as nat);
        assert(after_misses(q, 0) == q);
        assert(after_misses(q, 1) == after_misses(r, n));
        assert(!hit(g, miss_event(g)));
    }
}

/// A gated step whose awaited element or value never appears fails with its
/// own exhaustion error after exactly `MAX_ATTEMPTS` attempts: each of the
/// first `MAX_ATTEMPTS` misses leads to one more attempt, the last one to the
/// release of the session with that error.
pub proof fn law_gate_exhausts_after_exactly_max_attempts(g: Gate, n: nat)
    requires
        n < MAX_ATTEMPTS,
    ensures
        miss_rounds(LoginFlow::enter(g).0, g, n).stage == Stage::Lookup(g),
        ({
            let last = miss_rounds(LoginFlow::enter(g).0, g, (MAX_ATTEMPTS - 1) as nat);
            let paused = last.next(miss_event(g)).0;
            &&& paused.stage == Stage::Backoff(g)
            &&& paused.next(Event::Slept).0.stage == Stage::Closing(Err(exhausted_error(g)))
            &&& paused.next(Event::Slept).1 == Action::CloseSession
        }),
{
    lemma_rounds_below_budget(g, n);
    lemma_rounds_below_budget(g, (MAX_ATTEMPTS - 1) as nat);
    let q = after_misses(fresh_retry(), (MAX_ATTEMPTS - 1) as nat);
    assert(after_misses(q, 0) == q);
    assert(!hit(g, miss_event(g)));
}

/// A gated step whose awaited element or value is there on attempt `n + 1`,
/// within the budget, moves on to its next stage, having paused `n`
/// intervals: less than `n + 1` intervals.
pub proof fn law_gate_succeeds_within_budget(g: Gate, n: nat, ev: Event)
    requires
        n < MAX_ATTEMPTS,
        hit(g, ev),
    ensures
        ({
            let f = miss_rounds(LoginFlow::enter(g).0, g, n);
            &&& f.next(ev) == f.advance(g, ev)
            &&& f.retry.waited() == n * INTERVAL_MS
            &&& f.retry.waited() < (n + 1) * INTERVAL_MS
            &&& !(f.next(ev).0.stage is Backoff)
            &&& !(f.next(ev).0.stage is Closing) || f.next(ev).0.stage == Stage::Closing(
                Ok(ev->TokenRead_0->Some_0),
            )
        }),
{
    lemma_rounds_below_budget(g, n);
}

/// The session is released on every exit: an outcome is handed out only from
/// the closing stage, and every transition that decides an outcome asks for
/// the session to be closed.
pub proof fn law_close_before_finish(f: LoginFlow, ev: Event)
    requires
        f.wf(),
        f.expects(ev),
    ensures
        f.next(ev).1 is Finish ==> f.stage is Closing
            && f.next(ev).1 == Action::Finish(f.stage->Closing_0),
        f.next(ev).0.stage is Closing && !(f.stage is Closing) ==> f.next(ev).1
            == Action::CloseSession,
{
}

} // verus!
