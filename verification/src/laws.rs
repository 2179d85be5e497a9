//! Laws of the dispatch engine.
//!
//! Each proof function here states a guarantee of the engine over the spec
//! functions that the contracts in [`crate::store`] speak of, so the
//! guarantees hold of every store, every handler and every reaction that
//! meet their trait contracts.

use vstd::prelude::*;

use crate::cond::Cond;
use crate::cond::spec_fires;
use crate::store::Handler;
use crate::store::Reaction;
use crate::store::conds_at;
use crate::store::cycle_fires;
use crate::store::cycle_follow_ups;
use crate::store::drain_pending;
use crate::store::drain_state;
use crate::store::effects_actions;
use crate::store::handlers_actions;
use crate::store::handlers_state;

verus! {

/// What one reaction contributes to the effect phase: its effect's
/// follow-up actions when its condition transitioned from `c` to its value
/// in state `s`, and nothing otherwise.
pub open spec fn effect_contribution<S, A, R: Reaction<S, A>>(r: R, c: Cond, s: S) -> Seq<A> {
    if spec_fires(c, r.cond_at(s)) {
        r.effect_follow_ups(s)
    } else {
        Seq::empty()
    }
}

/// Registration order determinism: the effect phase's output is exactly
/// the concatenation, in registration order, of every reaction's
/// contribution, each reaction contributing at most once per cycle.
pub proof fn lemma_effects_in_registration_order<S, A, R: Reaction<S, A>>(
    reactions: Seq<R>,
    baseline: Seq<Cond>,
    s: S,
)
    requires
        baseline.len() == reactions.len(),
    ensures
        effects_actions(reactions, baseline, s) == Seq::new(
            reactions.len(),
            |i: int| effect_contribution(reactions[i], baseline[i], s),
        ).flatten(),
    decreases reactions.len(),
{
    let contributions = Seq::new(
        reactions.len(),
        |i: int| effect_contribution(reactions[i], baseline[i], s),
    );
    if reactions.len() == 0 {
        assert(contributions =~= Seq::<Seq<A>>::empty());
        assert(contributions.flatten() == Seq::<A>::empty());
    } else {
        lemma_effects_in_registration_order(reactions.drop_first(), baseline.drop_first(), s);
        let rest = Seq::new(
            reactions.drop_first().len(),
            |i: int| effect_contribution(reactions.drop_first()[i], baseline.drop_first()[i], s),
        );
        assert(contributions.drop_first() =~= rest);
        assert(contributions.flatten() == contributions[0] + contributions.drop_first().flatten());
    }
}

/// Appending a reaction to the registry never disturbs the contributions
/// of the earlier ones: the new reaction's contribution comes last, after
/// every reaction registered before it.
pub proof fn lemma_registration_append<S, A, R: Reaction<S, A>>(
    reactions: Seq<R>,
    baseline: Seq<Cond>,
    last: R,
    c: Cond,
    s: S,
)
    requires
        baseline.len() == reactions.len(),
    ensures
        effects_actions(reactions.push(last), baseline.push(c), s) == effects_actions(
            reactions,
            baseline,
            s,
        ) + effect_contribution(last, c, s),
    decreases reactions.len(),
{
    if reactions.len() == 0 {
        assert(reactions.push(last)[0] == last);
        assert(baseline.push(c)[0] == c);
        assert(reactions.push(last).drop_first() =~= reactions);
        assert(baseline.push(c).drop_first() =~= baseline);
        assert(effects_actions(reactions.push(last), baseline.push(c), s) == effect_contribution(
            last,
            c,
            s,
        ) + effects_actions(reactions, baseline, s));
        assert(effect_contribution(last, c, s) + Seq::<A>::empty() =~= effect_contribution(
            last,
            c,
            s,
        ));
        assert(Seq::<A>::empty() + effect_contribution(last, c, s) =~= effect_contribution(
            last,
            c,
            s,
        ));
    } else {
        lemma_registration_append(reactions.drop_first(), baseline.drop_first(), last, c, s);
        assert(reactions.push(last).drop_first() =~= reactions.drop_first().push(last));
        assert(baseline.push(c).drop_first() =~= baseline.drop_first().push(c));
        assert(reactions.push(last)[0] == reactions[0]);
        assert(baseline.push(c)[0] == baseline[0]);
        assert(effects_actions(reactions.push(last), baseline.push(c), s) =~= effects_actions(
            reactions,
            baseline,
            s,
        ) + effect_contribution(last, c, s));
    }
}

/// Barrier ordering: the transition phase of a cycle compares every
/// reaction's baseline against its condition re-evaluated in the state
/// settled by *every* handler of that same cycle — never against a
/// partially-applied subset — and the cycle's follow-up actions are the
/// handlers' actions followed by the so-fired effects' contributions in
/// registration order.
pub proof fn lemma_barrier_ordering<S, A, H: Handler<S, A>, R: Reaction<S, A>>(
    handlers: Seq<H>,
    reactions: Seq<R>,
    s: S,
    a: A,
)
    ensures
        cycle_follow_ups(handlers, reactions, s, a) == handlers_actions(handlers, s, a) + Seq::new(
            reactions.len(),
            |i: int|
                effect_contribution(
                    reactions[i],
                    reactions[i].cond_at(s),
                    handlers_state(handlers, s, a),
                ),
        ).flatten(),
{
    let settled = handlers_state(handlers, s, a);
    lemma_effects_in_registration_order(reactions, conds_at(reactions, s), settled);
    assert(Seq::new(
        reactions.len(),
        |i: int| effect_contribution(reactions[i], conds_at(reactions, s)[i], settled),
    ) =~= Seq::new(
        reactions.len(),
        |i: int| effect_contribution(reactions[i], reactions[i].cond_at(s), settled),
    ));
}

/// Recursive fan-out: a cycle that produced exactly two follow-up actions
/// leads to two further dispatch cycles, one per follow-up action in
/// order, each running the full pipeline; draining the first action with a
/// budget of three cycles leaves exactly the state of those three cycles
/// in sequence.
pub proof fn lemma_recursive_fan_out<S, A, H: Handler<S, A>, R: Reaction<S, A>>(
    handlers: Seq<H>,
    reactions: Seq<R>,
    s: S,
    a: A,
)
    requires
        cycle_follow_ups(handlers, reactions, s, a).len() == 2,
    ensures
        ({
            let follow = cycle_follow_ups(handlers, reactions, s, a);
            let s1 = handlers_state(handlers, s, a);
            let s2 = handlers_state(handlers, s1, follow[0]);
            let s3 = handlers_state(handlers, s2, follow[1]);
            drain_state(handlers, reactions, s, seq![a], 3) == s3
        }),
{
    let follow = cycle_follow_ups(handlers, reactions, s, a);
    let s1 = handlers_state(handlers, s, a);
    let s2 = handlers_state(handlers, s1, follow[0]);
    let queue0 = seq![a];
    assert(queue0[0] == a);
    assert(queue0.drop_first() + follow =~= follow);
    assert(drain_state(handlers, reactions, s, queue0, 3) == drain_state(
        handlers,
        reactions,
        s1,
        follow,
        2,
    ));
    let queue2 = follow.drop_first() + cycle_follow_ups(handlers, reactions, s1, follow[0]);
    assert(drain_state(handlers, reactions, s1, follow, 2) == drain_state(
        handlers,
        reactions,
        s2,
        queue2,
        1,
    ));
    assert(queue2[0] == follow[1]);
    assert(drain_state(handlers, reactions, s2, queue2, 1) == drain_state(
        handlers,
        reactions,
        handlers_state(handlers, s2, queue2[0]),
        queue2.drop_first() + cycle_follow_ups(handlers, reactions, s2, queue2[0]),
        0,
    ));
}

/// The state of applying `actions` in order, one full handler phase per
/// action.
pub open spec fn serial_state<S, A, H: Handler<S, A>>(handlers: Seq<H>, s: S, actions: Seq<A>) -> S
    decreases actions.len(),
{
    if actions.len() == 0 {
        s
    } else {
        serial_state(handlers, handlers_state(handlers, s, actions[0]), actions.drop_first())
    }
}

/// Serial order: draining a queue of actions whose cycles produce no
/// follow-up actions, with a sufficient budget, leaves exactly the state
/// of applying the actions in a serial order, one settled cycle after the
/// other, and leaves nothing pending.  Together with the exclusive write
/// access of the handler phase this is the store's serializability
/// guarantee: concurrent mutation never interleaves below the granularity
/// of one cycle's handler phase.
pub proof fn lemma_serial_order<S, A, H: Handler<S, A>, R: Reaction<S, A>>(
    handlers: Seq<H>,
    reactions: Seq<R>,
    s: S,
    actions: Seq<A>,
    budget: nat,
)
    requires
        budget >= actions.len(),
        forall|s1: S, i: int|
            0 <= i < actions.len() ==> #[trigger] cycle_follow_ups(
                handlers,
                reactions,
                s1,
                actions[i],
            ) == Seq::<A>::empty(),
    ensures
        drain_state(handlers, reactions, s, actions, budget) == serial_state(handlers, s, actions),
        drain_pending(handlers, reactions, s, actions, budget) == Seq::<A>::empty(),
    decreases actions.len(),
{
    if actions.len() == 0 {
    } else {
        let s1 = handlers_state(handlers, s, actions[0]);
        let rest = actions.drop_first();
        assert(cycle_follow_ups(handlers, reactions, s, actions[0]) == Seq::<A>::empty());
        assert(rest + cycle_follow_ups(handlers, reactions, s, actions[0]) =~= rest);
        assert forall|s2: S, j: int| 0 <= j < rest.len() implies #[trigger] cycle_follow_ups(
            handlers,
            reactions,
            s2,
            rest[j],
        ) == Seq::<A>::empty() by {
            assert(rest[j] == actions[j + 1]);
            assert(cycle_follow_ups(handlers, reactions, s2, actions[j + 1]) == Seq::<A>::empty());
        }
        lemma_serial_order(handlers, reactions, s1, rest, (budget - 1) as nat);
    }
}

/// Edge-triggering within a cycle: a reaction that watches a predicate
/// through a becomes-true condition fires in the cycle dispatching `a`
/// from state `s` exactly when the predicate is false before the cycle's
/// handlers and true after all of them.
pub proof fn lemma_rising_edge_in_cycle<S, A, H: Handler<S, A>, R: Reaction<S, A>>(
    handlers: Seq<H>,
    reactions: Seq<R>,
    s: S,
    a: A,
    i: int,
    p: spec_fn(S) -> bool,
)
    requires
        0 <= i < reactions.len(),
        forall|s1: S| #[trigger] reactions[i].cond_at(s1) == Cond::spec_becomes_true(p(s1)),
    ensures
        cycle_fires(handlers, reactions, s, a, i) <==> (!p(s) && p(
            handlers_state(handlers, s, a),
        )),
{
    let settled = handlers_state(handlers, s, a);
    assert(reactions[i].cond_at(s) == Cond::spec_becomes_true(p(s)));
    assert(reactions[i].cond_at(settled) == Cond::spec_becomes_true(p(settled)));
}

/// Edge-triggering within a cycle: a reaction that watches a predicate
/// through a becomes-false condition fires exactly when the predicate is
/// true before the cycle's handlers and false after all of them.
pub proof fn lemma_falling_edge_in_cycle<S, A, H: Handler<S, A>, R: Reaction<S, A>>(
    handlers: Seq<H>,
    reactions: Seq<R>,
    s: S,
    a: A,
    i: int,
    p: spec_fn(S) -> bool,
)
    requires
        0 <= i < reactions.len(),
        forall|s1: S| #[trigger] reactions[i].cond_at(s1) == Cond::spec_becomes_false(p(s1)),
    ensures
        cycle_fires(handlers, reactions, s, a, i) <==> (p(s) && !p(
            handlers_state(handlers, s, a),
        )),
{
    let settled = handlers_state(handlers, s, a);
    assert(reactions[i].cond_at(s) == Cond::spec_becomes_false(p(s)));
    assert(reactions[i].cond_at(settled) == Cond::spec_becomes_false(p(settled)));
}

} // verus!
