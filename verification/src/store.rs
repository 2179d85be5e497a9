//! The store and its dispatch engine.
//!
//! A [`Store`] bundles one state value with an ordered, append-only list of
//! handlers and an ordered, append-only list of reactions.  Dispatching an
//! action runs one *cycle*:
//!
//! 1. baseline phase — every reaction's condition function is evaluated
//!    against the current state;
//! 2. handler phase — every handler runs, in registration order, with write
//!    access to the state, and its follow-up actions are collected;
//! 3. transition phase — every reaction's condition function is evaluated
//!    again, against the state as settled by *all* handlers of the cycle,
//!    and compared with its baseline under the kind-specific transition
//!    rule;
//! 4. effect phase — the effect of every reaction whose condition made a
//!    qualifying transition runs with read-only state access, and its
//!    follow-up actions are collected after the handlers' ones.
//!
//! [`Store::dispatch`] drains follow-up actions through an explicit
//! first-in-first-out queue, one full cycle per queued action, bounded by a
//! caller-chosen budget so that a handler that always produces follow-ups
//! cannot recurse without limit.

use vstd::prelude::*;

use crate::cell::State;
use crate::cond::Cond;
use crate::cond::spec_fires;
use crate::cond::fires;

verus! {

/// The follow-up actions an invocation reported: `None` and an empty list
/// both mean none.
pub open spec fn opt_actions<A>(out: Option<Vec<A>>) -> Seq<A> {
    match out {
        None => Seq::empty(),
        Some(v) => v@,
    }
}

/// An action handler, implemented by the store's users.  Registered once,
/// it is invoked on every dispatched action with write access to the state,
/// and may return follow-up actions.
///
/// The two spec functions name the handler's behaviour; the contract of
/// [`Handler::handle`] ties the executable method to them, so everything
/// the engine guarantees is stated in terms of them.  A verified
/// implementation overrides them; the defaults describe a handler that
/// leaves the state alone and reports nothing, so an implementation
/// outside the crate need not mention them.
pub trait Handler<S, A>: Sized {
    /// The state the handler leaves behind when invoked in state `s` with
    /// action `a`.
    open spec fn next_state(&self, s: S, a: A) -> S {
        s
    }

    /// The follow-up actions the handler returns when invoked in state `s`
    /// with action `a`.
    open spec fn follow_ups(&self, s: S, a: A) -> Seq<A> {
        Seq::empty()
    }

    /// Handles one dispatched action.
    fn handle(&self, state: &mut S, action: &A) -> (out: Option<Vec<A>>)
        ensures
            *final(state) == self.next_state(*old(state), *action),
            opt_actions(out) == self.follow_ups(*old(state), *action),
    ;
}

/// A reaction: a pure condition function over the state, paired with an
/// effect that runs when the condition makes a qualifying transition within
/// one dispatch cycle.  The effect only reads state, and may return
/// follow-up actions.
/// A verified implementation overrides the two spec functions; the
/// defaults describe a reaction whose condition is of the reserved
/// `changed` kind, which never fires, and whose effect reports nothing,
/// so an implementation outside the crate need not mention them.
pub trait Reaction<S, A>: Sized {
    /// The condition value observed in state `s`.
    open spec fn cond_at(&self, s: S) -> Cond {
        Cond::_Changed(crate::cond::Payload::Bool(false))
    }

    /// The follow-up actions the effect returns when fired in state `s`.
    open spec fn effect_follow_ups(&self, s: S) -> Seq<A> {
        Seq::empty()
    }

    /// Evaluates the condition function against a state snapshot.
    fn cond(&self, state: &S) -> (c: Cond)
        ensures
            c == self.cond_at(*state),
    ;

    /// Runs the effect with read-only state access.
    fn effect(&self, state: &S) -> (out: Option<Vec<A>>)
        ensures
            opt_actions(out) == self.effect_follow_ups(*state),
    ;
}

/// The state left behind by running every handler, in registration order,
/// on action `a` starting from state `s`.
pub open spec fn handlers_state<S, A, H: Handler<S, A>>(handlers: Seq<H>, s: S, a: A) -> S
    decreases handlers.len(),
{
    if handlers.len() == 0 {
        s
    } else {
        handlers_state(handlers.drop_first(), handlers[0].next_state(s, a), a)
    }
}

/// The follow-up actions collected from the handler phase, in registration
/// order, duplicates preserved.
pub open spec fn handlers_actions<S, A, H: Handler<S, A>>(handlers: Seq<H>, s: S, a: A) -> Seq<A>
    decreases handlers.len(),
{
    if handlers.len() == 0 {
        Seq::empty()
    } else {
        handlers[0].follow_ups(s, a) + handlers_actions(
            handlers.drop_first(),
            handlers[0].next_state(s, a),
            a,
        )
    }
}

/// The condition values of all reactions, in registration order, evaluated
/// against state `s`.
pub open spec fn conds_at<S, A, R: Reaction<S, A>>(reactions: Seq<R>, s: S) -> Seq<Cond> {
    reactions.map_values(|r: R| r.cond_at(s))
}

/// The follow-up actions collected from the effect phase: for every
/// reaction, in registration order, whose baseline condition and condition
/// re-evaluated in state `s` make a qualifying transition, the actions its
/// effect returns in `s`.
pub open spec fn effects_actions<S, A, R: Reaction<S, A>>(
    reactions: Seq<R>,
    baseline: Seq<Cond>,
    s: S,
) -> Seq<A>
    decreases reactions.len(),
{
    if reactions.len() == 0 {
        Seq::empty()
    } else {
        (if spec_fires(baseline[0], reactions[0].cond_at(s)) {
            reactions[0].effect_follow_ups(s)
        } else {
            Seq::empty()
        }) + effects_actions(reactions.drop_first(), baseline.drop_first(), s)
    }
}

/// Whether reaction `i` fires in the cycle that dispatches `a` from state
/// `s`: its baseline condition, taken before any handler ran, and its
/// condition re-evaluated after every handler finished, make a qualifying
/// transition.
pub open spec fn cycle_fires<S, A, H: Handler<S, A>, R: Reaction<S, A>>(
    handlers: Seq<H>,
    reactions: Seq<R>,
    s: S,
    a: A,
    i: int,
) -> bool {
    spec_fires(reactions[i].cond_at(s), reactions[i].cond_at(handlers_state(handlers, s, a)))
}

/// All follow-up actions of one dispatch cycle: the handlers' actions in
/// handler order, then the fired effects' actions in reaction order.
pub open spec fn cycle_follow_ups<S, A, H: Handler<S, A>, R: Reaction<S, A>>(
    handlers: Seq<H>,
    reactions: Seq<R>,
    s: S,
    a: A,
) -> Seq<A> {
    handlers_actions(handlers, s, a) + effects_actions(
        reactions,
        conds_at(reactions, s),
        handlers_state(handlers, s, a),
    )
}

/// The state after draining `queue` for at most `budget` cycles: each cycle
/// takes the queue's front action, runs the full
/// baseline-handlers-transition-effects pipeline on it, and appends its
/// follow-up actions at the back of the queue.
pub open spec fn drain_state<S, A, H: Handler<S, A>, R: Reaction<S, A>>(
    handlers: Seq<H>,
    reactions: Seq<R>,
    s: S,
    queue: Seq<A>,
    budget: nat,
) -> S
    decreases budget,
{
    if budget == 0 || queue.len() == 0 {
        s
    } else {
        drain_state(
            handlers,
            reactions,
            handlers_state(handlers, s, queue[0]),
            queue.drop_first() + cycle_follow_ups(handlers, reactions, s, queue[0]),
            (budget - 1) as nat,
        )
    }
}

/// The actions still queued when the drain of `queue` stops: empty when the
/// queue ran dry, otherwise the queue as it stood when the budget ran out.
pub open spec fn drain_pending<S, A, H: Handler<S, A>, R: Reaction<S, A>>(
    handlers: Seq<H>,
    reactions: Seq<R>,
    s: S,
    queue: Seq<A>,
    budget: nat,
) -> Seq<A>
    decreases budget,
{
    if queue.len() == 0 {
        Seq::empty()
    } else if budget == 0 {
        queue
    } else {
        drain_pending(
            handlers,
            reactions,
            handlers_state(handlers, s, queue[0]),
            queue.drop_first() + cycle_follow_ups(handlers, reactions, s, queue[0]),
            (budget - 1) as nat,
        )
    }
}

/// Evaluates every reaction's condition function against the given state,
/// in registration order.
pub fn eval_conds<S, A, R: Reaction<S, A>>(reactions: &Vec<R>, state: &S) -> (conds: Vec<Cond>)
    ensures
        conds@ == conds_at(reactions@, *state),
{
    let mut conds: Vec<Cond> = Vec::new();
    let mut i: usize = 0;
    while i < reactions.len()
        invariant
            i <= reactions.len(),
            conds@ =~= conds_at(reactions@, *state).take(i as int),
        decreases reactions.len() - i,
    {
        conds.push(reactions[i].cond(state));
        i = i + 1;
    }
    proof {
        assert(conds@ =~= conds_at(reactions@, *state));
    }
    conds
}

/// Runs every handler, in registration order, on the given action with
/// write access to the state, and collects their follow-up actions.
pub fn run_handlers<S, A, H: Handler<S, A>>(handlers: &Vec<H>, state: &mut S, action: &A) -> (out:
    Vec<A>)
    ensures
        *final(state) == handlers_state(handlers@, *old(state), *action),
        out@ == handlers_actions(handlers@, *old(state), *action),
{
    let mut out: Vec<A> = Vec::new();
    let mut i: usize = 0;
    proof {
        assert(handlers@.skip(0) =~= handlers@);
        assert(Seq::<A>::empty() + handlers_actions(handlers@, *state, *action) =~= handlers_actions(
            handlers@,
            *state,
            *action,
        ));
    }
    while i < handlers.len()
        invariant
            i <= handlers.len(),
            handlers_state(handlers@, *old(state), *action) == handlers_state(
                handlers@.skip(i as int),
                *state,
                *action,
            ),
            handlers_actions(handlers@, *old(state), *action) == out@ + handlers_actions(
                handlers@.skip(i as int),
                *state,
                *action,
            ),
        decreases handlers.len() - i,
    {
        let mut produced = handlers[i].handle(state, action);
        proof {
            assert(handlers@.skip(i as int)[0] == handlers@[i as int]);
            assert(handlers@.skip(i as int).drop_first() =~= handlers@.skip(i as int + 1));
        }
        match &mut produced {
            Some(actions) => {
                out.append(actions);
            },
            None => {},
        }
        i = i + 1;
    }
    proof {
        assert(handlers@.skip(handlers@.len() as int) =~= Seq::<H>::empty());
        assert(out@ + Seq::<A>::empty() =~= out@);
    }
    out
}

/// Runs the transition and effect phases: re-evaluates every reaction's
/// condition against the settled state, compares it with its baseline, and
/// collects the follow-up actions of the effects that fired, in
/// registration order.
pub fn run_effects<S, A, R: Reaction<S, A>>(
    reactions: &Vec<R>,
    baseline: &Vec<Cond>,
    state: &S,
) -> (out: Vec<A>)
    requires
        baseline@.len() == reactions@.len(),
    ensures
        out@ == effects_actions(reactions@, baseline@, *state),
{
    let mut out: Vec<A> = Vec::new();
    let mut i: usize = 0;
    proof {
        assert(reactions@.skip(0) =~= reactions@);
        assert(baseline@.skip(0) =~= baseline@);
        assert(Seq::<A>::empty() + effects_actions(reactions@, baseline@, *state)
            =~= effects_actions(reactions@, baseline@, *state));
    }
    while i < reactions.len()
        invariant
            i <= reactions.len(),
            baseline@.len() == reactions@.len(),
            effects_actions(reactions@, baseline@, *state) == out@ + effects_actions(
                reactions@.skip(i as int),
                baseline@.skip(i as int),
                *state,
            ),
        decreases reactions.len() - i,
    {
        proof {
            assert(reactions@.skip(i as int)[0] == reactions@[i as int]);
            assert(baseline@.skip(i as int)[0] == baseline@[i as int]);
            assert(reactions@.skip(i as int).drop_first() =~= reactions@.skip(i as int + 1));
            assert(baseline@.skip(i as int).drop_first() =~= baseline@.skip(i as int + 1));
        }
        let current = reactions[i].cond(state);
        if fires(&baseline[i], &current) {
            let mut produced = reactions[i].effect(state);
            match &mut produced {
                Some(actions) => {
                    out.append(actions);
                },
                None => {},
            }
        }
        i = i + 1;
    }
    proof {
        assert(reactions@.skip(reactions@.len() as int) =~= Seq::<R>::empty());
        assert(out@ + Seq::<A>::empty() =~= out@);
    }
    out
}

/// The user-facing store: one state value, an ordered list of handlers and
/// an ordered list of reactions.  Both lists are append-only; registration
/// order is the evaluation order of every dispatch cycle.
pub struct Store<S, A, H, R> where H: Handler<S, A>, R: Reaction<S, A> {
    /// The shared state cell.
    pub state: State<S>,
    handlers: Vec<H>,
    reactions: Vec<R>,
    action: core::marker::PhantomData<A>,
}

impl<S, A, H, R> Default for Store<S, A, H, R> where
    S: Default,
    H: Handler<S, A>,
    R: Reaction<S, A>,
 {
    /// A store over the state type's default value, with no handlers and
    /// no reactions registered.
    fn default() -> (store: Store<S, A, H, R>)
        ensures
            store.spec_handlers() == Seq::<H>::empty(),
            store.spec_reactions() == Seq::<R>::empty(),
    {
        Store::new(S::default())
    }
}

impl<S, A, H, R> Store<S, A, H, R> where H: Handler<S, A>, R: Reaction<S, A> {
    /// The current state value.
    pub closed spec fn spec_state(&self) -> S {
        self.state@
    }

    /// The registered handlers, in registration order.
    pub closed spec fn spec_handlers(&self) -> Seq<H> {
        self.handlers@
    }

    /// The registered reactions, in registration order.
    pub closed spec fn spec_reactions(&self) -> Seq<R> {
        self.reactions@
    }

    /// A store over the given initial state, with no handlers and no
    /// reactions registered.
    pub fn new(initial: S) -> (store: Store<S, A, H, R>)
        ensures
            store.spec_state() == initial,
            store.spec_handlers() == Seq::<H>::empty(),
            store.spec_reactions() == Seq::<R>::empty(),
    {
        Store {
            state: State::new(initial),
            handlers: Vec::new(),
            reactions: Vec::new(),
            action: core::marker::PhantomData,
        }
    }

    /// Appends a handler to the registry.  Registration keeps every
    /// earlier entry and its order, and touches neither the state nor the
    /// reactions.
    pub fn handler(&mut self, listener: H)
        ensures
            final(self).spec_handlers() == old(self).spec_handlers().push(listener),
            final(self).spec_reactions() == old(self).spec_reactions(),
            final(self).spec_state() == old(self).spec_state(),
    {
        self.handlers.push(listener);
    }

    /// Appends a reaction to the registry.  Registration keeps every
    /// earlier entry and its order, and touches neither the state nor the
    /// handlers.
    pub fn reaction(&mut self, entry: R)
        ensures
            final(self).spec_reactions() == old(self).spec_reactions().push(entry),
            final(self).spec_handlers() == old(self).spec_handlers(),
            final(self).spec_state() == old(self).spec_state(),
    {
        self.reactions.push(entry);
    }

    /// Runs one full dispatch cycle on `action`: baseline, handlers,
    /// transition comparison and effects, in that order, and returns the
    /// collected follow-up actions without dispatching them.
    pub fn dispatch_cycle(&mut self, action: &A) -> (follow_ups: Vec<A>)
        ensures
            final(self).spec_handlers() == old(self).spec_handlers(),
            final(self).spec_reactions() == old(self).spec_reactions(),
            final(self).spec_state() == handlers_state(
                old(self).spec_handlers(),
                old(self).spec_state(),
                *action,
            ),
            follow_ups@ == cycle_follow_ups(
                old(self).spec_handlers(),
                old(self).spec_reactions(),
                old(self).spec_state(),
                *action,
            ),
    {
        let baseline = eval_conds(&self.reactions, self.state.read());
        let mut follow_ups = run_handlers(&self.handlers, self.state.write(), action);
        let mut effect_ups = run_effects(&self.reactions, &baseline, self.state.read());
        follow_ups.append(&mut effect_ups);
        follow_ups
    }

    /// Dispatches `action` and then drains every follow-up action it
    /// transitively produced, first in first out, one full cycle per
    /// action, for at most `budget` cycles.  Returns the actions still
    /// pending when the drain stopped; an empty result means the action
    /// pipeline ran dry within the budget.
    pub fn dispatch(&mut self, action: A, budget: usize) -> (pending: Vec<A>)
        ensures
            final(self).spec_handlers() == old(self).spec_handlers(),
            final(self).spec_reactions() == old(self).spec_reactions(),
            final(self).spec_state() == drain_state(
                old(self).spec_handlers(),
                old(self).spec_reactions(),
                old(self).spec_state(),
                seq![action],
                budget as nat,
            ),
            pending@ == drain_pending(
                old(self).spec_handlers(),
                old(self).spec_reactions(),
                old(self).spec_state(),
                seq![action],
                budget as nat,
            ),
    {
        let ghost h = old(self).spec_handlers();
        let ghost r = old(self).spec_reactions();
        let mut queue: Vec<A> = Vec::new();
        queue.push(action);
        let mut remaining: usize = budget;
        while remaining > 0 && queue.len() > 0
            invariant
                self.spec_handlers() == h,
                self.spec_reactions() == r,
                drain_state(h, r, old(self).spec_state(), seq![action], budget as nat) == drain_state(
                    h,
                    r,
                    self.spec_state(),
                    queue@,
                    remaining as nat,
                ),
                drain_pending(h, r, old(self).spec_state(), seq![action], budget as nat) == drain_pending(
                    h,
                    r,
                    self.spec_state(),
                    queue@,
                    remaining as nat,
                ),
            decreases remaining,
        {
            let ghost pre_state = self.spec_state();
            let ghost pre_queue = queue@;
            let front = queue.remove(0);
            let mut follow_ups = self.dispatch_cycle(&front);
            queue.append(&mut follow_ups);
            remaining = remaining - 1;
            proof {
                assert(pre_queue[0] == front);
                assert(queue@ =~= pre_queue.drop_first() + cycle_follow_ups(h, r, pre_state, front));
            }
        }
        queue
    }
}

} // verus!
