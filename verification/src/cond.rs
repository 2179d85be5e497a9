//! Conditions: tagged, transition-classified snapshots of a predicate
//! evaluated against the store's state.
//!
//! A condition function is evaluated once before the handlers of a dispatch
//! cycle run (the baseline) and once after they have all finished.  The two
//! resulting [`Cond`] values are then compared by [`fires`]: only a pair of
//! `Becomes` conditions with the same expectation and payload kind, whose
//! observed value moves from "not the expectation" to "the expectation",
//! counts as a transition.  Every other pairing — mismatched kinds,
//! mismatched payload types, or the reserved `Changed` kind — is treated as
//! "no transition", never as an error.

use vstd::prelude::*;

verus! {

/// The payload a condition carries: a closed sum over the comparable
/// primitives the store's clients need, so that transition comparison is
/// exhaustive and statically checked.
#[derive(Clone, Copy, Debug, PartialEq, Eq, Structural)]
pub enum Payload {
    /// A boolean predicate result.
    Bool(bool),
    /// A numeric counter.
    Num(i64),
}

/// Whether two payloads carry the same primitive type.  Comparing payloads
/// of different types never yields a transition.
pub open spec fn same_payload_kind(a: Payload, b: Payload) -> bool {
    match (a, b) {
        (Payload::Bool(_), Payload::Bool(_)) => true,
        (Payload::Num(_), Payload::Num(_)) => true,
        _ => false,
    }
}

/// A condition value.  The variants are prefixed with an underscore so that
/// the public constructor functions can carry the plain names; most callers
/// go through [`Cond::Becomes`], [`Cond::becomes_true`] or
/// [`Cond::becomes_false`].
#[derive(Clone, Copy, Debug, PartialEq, Eq, Structural)]
pub enum Cond {
    /// Reserved kind for future equality-based triggers; the dispatch
    /// engine's transition logic never fires on it.
    _Changed(Payload),
    /// An observed payload together with the expectation it is measured
    /// against: the condition transitions when the observed value becomes
    /// the expectation.
    _Becomes(Payload, Payload),
}

impl Cond {
    /// Wraps a payload under the reserved `changed` kind.
    #[allow(non_snake_case)]
    pub fn Changed(val: Payload) -> (c: Cond)
        ensures
            c == Cond::_Changed(val),
    {
        Cond::_Changed(val)
    }

    /// Wraps an observed payload together with the expectation it is
    /// measured against.
    #[allow(non_snake_case)]
    pub fn Becomes(val: Payload, expectation: Payload) -> (c: Cond)
        ensures
            c == Cond::_Becomes(val, expectation),
    {
        Cond::_Becomes(val, expectation)
    }

    /// The condition [`Cond::becomes_true`] returns.
    pub open spec fn spec_becomes_true(v: bool) -> Cond {
        Cond::_Becomes(Payload::Bool(v), Payload::Bool(true))
    }

    /// The condition [`Cond::becomes_false`] returns.
    pub open spec fn spec_becomes_false(v: bool) -> Cond {
        Cond::_Becomes(Payload::Bool(v), Payload::Bool(false))
    }

    /// A boolean condition that transitions when its value becomes true.
    pub fn becomes_true(v: bool) -> (c: Cond)
        ensures
            c == Cond::spec_becomes_true(v),
    {
        Cond::_Becomes(Payload::Bool(v), Payload::Bool(true))
    }

    /// A boolean condition that transitions when its value becomes false.
    pub fn becomes_false(v: bool) -> (c: Cond)
        ensures
            c == Cond::spec_becomes_false(v),
    {
        Cond::_Becomes(Payload::Bool(v), Payload::Bool(false))
    }
}

/// The kind-specific transition rule: a baseline and a re-evaluated
/// condition make a qualifying transition exactly when both are `Becomes`
/// conditions with one and the same expectation, the payloads are of the
/// expectation's type, the baseline's observed value differs from the
/// expectation and the new observed value equals it.
pub open spec fn spec_fires(baseline: Cond, current: Cond) -> bool {
    match (baseline, current) {
        (Cond::_Becomes(old_val, old_exp), Cond::_Becomes(new_val, new_exp)) => {
            &&& old_exp == new_exp
            &&& same_payload_kind(old_val, old_exp)
            &&& old_val != old_exp
            &&& new_val == new_exp
        },
        _ => false,
    }
}

/// Whether two payloads carry the same primitive type.
pub fn payloads_same_kind(a: &Payload, b: &Payload) -> (r: bool)
    ensures
        r == same_payload_kind(*a, *b),
{
    match (a, b) {
        (Payload::Bool(_), Payload::Bool(_)) => true,
        (Payload::Num(_), Payload::Num(_)) => true,
        _ => false,
    }
}

/// Decides whether the step from `baseline` to `current` is a qualifying
/// transition.
pub fn fires(baseline: &Cond, current: &Cond) -> (r: bool)
    ensures
        r == spec_fires(*baseline, *current),
{
    match (baseline, current) {
        (Cond::_Becomes(old_val, old_exp), Cond::_Becomes(new_val, new_exp)) => {
            *old_exp == *new_exp && payloads_same_kind(old_val, old_exp) && *old_val != *old_exp
                && *new_val == *new_exp
        },
        _ => false,
    }
}

/// Edge-triggering: a becomes-true condition transitions exactly on a
/// false-to-true step of its value, and a becomes-false condition exactly
/// on a true-to-false step; holding steady in either value never fires.
pub proof fn lemma_edge_trigger(before: bool, after: bool)
    ensures
        spec_fires(Cond::spec_becomes_true(before), Cond::spec_becomes_true(after)) <==> (!before
            && after),
        spec_fires(Cond::spec_becomes_false(before), Cond::spec_becomes_false(after)) <==> (before
            && !after),
{
}

/// Mismatched kinds never fire: comparing a becomes-true condition against
/// a becomes-false condition yields no transition, whatever the two
/// observed values are.
pub proof fn lemma_mismatched_kinds_never_fire(before: bool, after: bool)
    ensures
        !spec_fires(Cond::spec_becomes_true(before), Cond::spec_becomes_false(after)),
        !spec_fires(Cond::spec_becomes_false(before), Cond::spec_becomes_true(after)),
{
}

/// Mismatched payload types never fire: a boolean expectation compared
/// against a numeric observation, or the other way round, yields no
/// transition.
pub proof fn lemma_mismatched_payloads_never_fire(b: bool, n: i64, exp: Payload)
    ensures
        !spec_fires(Cond::_Becomes(Payload::Num(n), exp), Cond::_Becomes(Payload::Bool(b), exp)),
        !spec_fires(Cond::_Becomes(Payload::Bool(b), exp), Cond::_Becomes(Payload::Num(n), exp)),
{
}

/// The reserved `changed` kind is never evaluated by the transition logic:
/// a pair involving it never fires.
pub proof fn lemma_changed_never_fires(baseline: Cond, current: Cond)
    ensures
        (baseline is _Changed || current is _Changed) ==> !spec_fires(baseline, current),
{
}

} // verus!
