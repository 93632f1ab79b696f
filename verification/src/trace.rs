//! Runs of a machine that answers each event with an action: the tasks of
//! the driver are such machines, and what they do in the long run is said
//! of their runs.

use vstd::prelude::*;

verus! {

/// Where the machine `next` ends up from `s`, and the actions it answers
/// with on the way, when it is fed `events`, oldest first.
pub open spec fn run<S, E, A>(next: spec_fn(S, E) -> (S, A), s: S, events: Seq<E>) -> (S, Seq<A>)
    decreases events.len(),
{
    if events.len() == 0 {
        (s, Seq::empty())
    } else {
        let (before, actions) = run(next, s, events.drop_last());
        let (after, action) = next(before, events.last());
        (after, actions.push(action))
    }
}

/// One more event adds one step to a run.
pub proof fn lemma_run_push<S, E, A>(next: spec_fn(S, E) -> (S, A), s: S, events: Seq<E>, event: E)
    ensures
        run(next, s, events.push(event)) == ({
            let (before, actions) = run(next, s, events);
            let (after, action) = next(before, event);
            (after, actions.push(action))
        }),
{
    assert(events.push(event).drop_last() =~= events);
}

/// A run over two stretches of events is the run over the first, followed
/// by the run over the second from where the first has ended.
pub proof fn lemma_run_concat<S, E, A>(
    next: spec_fn(S, E) -> (S, A),
    s: S,
    first: Seq<E>,
    second: Seq<E>,
)
    ensures
        run(next, s, first + second) == ({
            let (mid, head) = run(next, s, first);
            let (end, tail) = run(next, mid, second);
            (end, head + tail)
        }),
    decreases second.len(),
{
    let (mid, head) = run(next, s, first);
    if second.len() == 0 {
        assert(first + second =~= first);
        assert(head + Seq::<A>::empty() =~= head);
    } else {
        lemma_run_concat(next, s, first, second.drop_last());
        assert((first + second).drop_last() =~= first + second.drop_last());
        let (before, tail) = run(next, mid, second.drop_last());
        let (after, action) = next(before, second.last());
        assert((head + tail).push(action) =~= head + tail.push(action));
    }
}

/// A run that is known step by step: where each of `n` events takes the
/// machine from one given state to the next, the run over all of them
/// leads from the first state to the last and yields the actions of the
/// steps.
pub proof fn lemma_run_steps<S, E, A>(
    next: spec_fn(S, E) -> (S, A),
    n: nat,
    state_at: spec_fn(int) -> S,
    event_at: spec_fn(int) -> E,
    action_at: spec_fn(int) -> A,
)
    requires
        forall|i: int|
            0 <= i < n ==> next(#[trigger] state_at(i), event_at(i)) == (
                state_at(i + 1),
                action_at(i),
            ),
    ensures
        run(next, state_at(0), Seq::new(n, event_at)) == (
            state_at(n as int),
            Seq::new(n, action_at),
        ),
    decreases n,
{
    if n == 0 {
        assert(Seq::new(n, action_at) =~= Seq::<A>::empty());
    } else {
        let m = (n - 1) as nat;
        lemma_run_steps(next, m, state_at, event_at, action_at);
        assert(Seq::new(n, event_at).drop_last() =~= Seq::new(m, event_at));
        assert(next(state_at(m as int), event_at(m as int)) == (
            state_at(m as int + 1),
            action_at(m as int),
        ));
        assert(Seq::new(m, action_at).push(action_at(m as int)) =~= Seq::new(n, action_at));
    }
}

} // verus!
