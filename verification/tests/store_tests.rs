use qurl_core::Cond;
use qurl_core::Handler;
use qurl_core::Reaction;
use qurl_core::Store;

/// A counter state driven by increment actions.
struct CounterState {
    v: i64,
}

#[derive(Clone, Debug, PartialEq)]
enum CounterAction {
    Increment(i64),
    Mark(i64),
}

/// Applies `Increment(n)` as `v = (v + n) mod 1000`; ignores marks.
struct IncHandler;

impl Handler<CounterState, CounterAction> for IncHandler {
    fn handle(
        &self,
        state: &mut CounterState,
        action: &CounterAction,
    ) -> Option<Vec<CounterAction>> {
        match action {
            CounterAction::Increment(n) => {
                state.v = (state.v + n).rem_euclid(1000);
                None
            }
            CounterAction::Mark(_) => None,
        }
    }
}

/// Fires when `v % 23 == 0 && v > 0` becomes true; dispatches `Increment(-v)`.
struct ResetReaction;

impl Reaction<CounterState, CounterAction> for ResetReaction {
    fn cond(&self, state: &CounterState) -> Cond {
        Cond::becomes_true(state.v % 23 == 0 && state.v > 0)
    }

    fn effect(&self, state: &CounterState) -> Option<Vec<CounterAction>> {
        Some(vec![CounterAction::Increment(-state.v)])
    }
}

/// Fires when `v % 23 == 0 && v > 0` becomes true; marks with its tag.
struct MarkReaction(i64);

impl Reaction<CounterState, CounterAction> for MarkReaction {
    fn cond(&self, state: &CounterState) -> Cond {
        Cond::becomes_true(state.v % 23 == 0 && state.v > 0)
    }

    fn effect(&self, _state: &CounterState) -> Option<Vec<CounterAction>> {
        Some(vec![CounterAction::Mark(self.0)])
    }
}

/// Reports a condition of a different kind depending on the state, so the
/// baseline and the re-evaluated condition can mismatch in kind.
struct FlipKindReaction;

impl Reaction<CounterState, CounterAction> for FlipKindReaction {
    fn cond(&self, state: &CounterState) -> Cond {
        if state.v == 0 {
            Cond::becomes_true(false)
        } else {
            Cond::becomes_false(true)
        }
    }

    fn effect(&self, _state: &CounterState) -> Option<Vec<CounterAction>> {
        Some(vec![CounterAction::Mark(99)])
    }
}

fn counter_store<R: Reaction<CounterState, CounterAction>>(
    v: i64,
) -> Store<CounterState, CounterAction, IncHandler, R> {
    let mut store = Store::new(CounterState { v });
    store.handler(IncHandler);
    store
}

#[test]
fn increment_steps_state() {
    let mut store: Store<CounterState, CounterAction, IncHandler, ResetReaction> =
        counter_store(0);
    let pending = store.dispatch(CounterAction::Increment(5), 4);
    assert!(pending.is_empty());
    assert_eq!(store.state.read().v, 5);
}

#[test]
fn increment_wraps_modulo_1000() {
    let mut store: Store<CounterState, CounterAction, IncHandler, ResetReaction> =
        counter_store(998);
    store.dispatch(CounterAction::Increment(5), 4);
    assert_eq!(store.state.read().v, 3);
}

#[test]
fn edge_trigger_fires_exactly_on_false_to_true() {
    let mut store: Store<CounterState, CounterAction, IncHandler, ResetReaction> =
        counter_store(21);
    store.reaction(ResetReaction);

    // 21 -> 22: the condition stays false, nothing fires.
    let f = store.dispatch_cycle(&CounterAction::Increment(1));
    assert!(f.is_empty());
    assert_eq!(store.state.read().v, 22);

    // 22 -> 23: false -> true, the effect fires once.
    let f = store.dispatch_cycle(&CounterAction::Increment(1));
    assert_eq!(f, vec![CounterAction::Increment(-23)]);
    assert_eq!(store.state.read().v, 23);

    // 23 -> 23: true -> true, nothing fires.
    let f = store.dispatch_cycle(&CounterAction::Increment(0));
    assert!(f.is_empty());

    // 23 -> 0: true -> false, a becomes-true reaction does not fire.
    let f = store.dispatch_cycle(&CounterAction::Increment(-23));
    assert!(f.is_empty());
    assert_eq!(store.state.read().v, 0);
}

#[test]
fn steady_state_never_exceeds_22() {
    let mut store: Store<CounterState, CounterAction, IncHandler, ResetReaction> =
        counter_store(0);
    store.reaction(ResetReaction);
    for _ in 0..100 {
        let pending = store.dispatch(CounterAction::Increment(1), 8);
        assert!(pending.is_empty());
        assert!(store.state.read().v <= 22);
    }
    // Four full rounds of 23 steps each have passed and reset.
    assert_eq!(store.state.read().v, 100 - 4 * 23);
}

#[test]
fn mismatched_kinds_never_fire_through_the_engine() {
    let mut store: Store<CounterState, CounterAction, IncHandler, FlipKindReaction> =
        counter_store(0);
    store.reaction(FlipKindReaction);
    // Baseline is a becomes-true condition, the re-evaluated condition is a
    // becomes-false one: the kinds mismatch, so nothing may fire.
    let f = store.dispatch_cycle(&CounterAction::Increment(1));
    assert!(f.is_empty());
    // And back: becomes-false baseline against becomes-true re-evaluation.
    let f = store.dispatch_cycle(&CounterAction::Increment(-1));
    assert!(f.is_empty());
}

#[test]
fn reactions_fire_in_registration_order() {
    let mut store: Store<CounterState, CounterAction, IncHandler, MarkReaction> =
        counter_store(22);
    store.reaction(MarkReaction(1));
    store.reaction(MarkReaction(2));
    let f = store.dispatch_cycle(&CounterAction::Increment(1));
    assert_eq!(f, vec![CounterAction::Mark(1), CounterAction::Mark(2)]);
}

#[test]
fn serial_dispatches_compose() {
    let mut store: Store<CounterState, CounterAction, IncHandler, ResetReaction> =
        counter_store(0);
    store.dispatch(CounterAction::Increment(3), 4);
    store.dispatch(CounterAction::Increment(4), 4);
    store.dispatch(CounterAction::Increment(5), 4);
    assert_eq!(store.state.read().v, 12);
}

/// A root action fans out into two follow-up actions.
struct FanHandler;

#[derive(Clone, Debug, PartialEq)]
enum FanAction {
    Root,
    AddOne,
    AddTen,
}

impl Handler<CounterState, FanAction> for FanHandler {
    fn handle(&self, state: &mut CounterState, action: &FanAction) -> Option<Vec<FanAction>> {
        match action {
            FanAction::Root => Some(vec![FanAction::AddOne, FanAction::AddTen]),
            FanAction::AddOne => {
                state.v += 1;
                None
            }
            FanAction::AddTen => {
                state.v += 10;
                None
            }
        }
    }
}

/// A reaction that never fires, to close the store's type.
struct NeverReaction;

impl Reaction<CounterState, FanAction> for NeverReaction {
    fn cond(&self, _state: &CounterState) -> Cond {
        Cond::becomes_true(false)
    }

    fn effect(&self, _state: &CounterState) -> Option<Vec<FanAction>> {
        None
    }
}

#[test]
fn fan_out_runs_a_full_cycle_per_follow_up() {
    let mut store: Store<CounterState, FanAction, FanHandler, NeverReaction> =
        Store::new(CounterState { v: 0 });
    store.handler(FanHandler);
    let f = store.dispatch_cycle(&FanAction::Root);
    assert_eq!(f, vec![FanAction::AddOne, FanAction::AddTen]);
    assert_eq!(store.state.read().v, 0);

    let mut store: Store<CounterState, FanAction, FanHandler, NeverReaction> =
        Store::new(CounterState { v: 0 });
    store.handler(FanHandler);
    let pending = store.dispatch(FanAction::Root, 3);
    assert!(pending.is_empty());
    assert_eq!(store.state.read().v, 11);
}

#[test]
fn exhausted_budget_returns_the_pending_queue() {
    let mut store: Store<CounterState, FanAction, FanHandler, NeverReaction> =
        Store::new(CounterState { v: 0 });
    store.handler(FanHandler);
    let pending = store.dispatch(FanAction::Root, 2);
    assert_eq!(pending, vec![FanAction::AddTen]);
    assert_eq!(store.state.read().v, 1);
}

#[test]
fn registration_does_not_touch_state() {
    let mut store: Store<CounterState, CounterAction, IncHandler, ResetReaction> =
        counter_store(7);
    store.reaction(ResetReaction);
    assert_eq!(store.state.read().v, 7);
}

#[test]
fn effects_see_the_state_settled_by_every_handler() {
    let mut store: Store<CounterState, CounterAction, IncHandler, ResetReaction> =
        counter_store(21);
    // A second handler: each one applies the increment once.
    store.handler(IncHandler);
    store.reaction(ResetReaction);
    let f = store.dispatch_cycle(&CounterAction::Increment(1));
    // The transition phase saw 23 — the state after *both* handlers — and
    // fired; against the intermediate 22 it would have stayed silent.
    assert_eq!(store.state.read().v, 23);
    assert_eq!(f, vec![CounterAction::Increment(-23)]);
}

/// Increments and reports a marker follow-up.
struct IncAndMark;

impl Handler<CounterState, CounterAction> for IncAndMark {
    fn handle(
        &self,
        state: &mut CounterState,
        action: &CounterAction,
    ) -> Option<Vec<CounterAction>> {
        match action {
            CounterAction::Increment(n) => {
                state.v = (state.v + n).rem_euclid(1000);
                Some(vec![CounterAction::Mark(0)])
            }
            CounterAction::Mark(_) => None,
        }
    }
}

#[test]
fn handler_follow_ups_come_before_effect_follow_ups() {
    let mut store: Store<CounterState, CounterAction, IncAndMark, MarkReaction> =
        Store::new(CounterState { v: 22 });
    store.handler(IncAndMark);
    store.reaction(MarkReaction(1));
    let f = store.dispatch_cycle(&CounterAction::Increment(1));
    assert_eq!(f, vec![CounterAction::Mark(0), CounterAction::Mark(1)]);
}
