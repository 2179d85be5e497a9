use qurl_core::Cond;
use qurl_core::Payload;
use qurl_core::cond::fires;

#[test]
fn becomes_true_fires_only_on_false_to_true() {
    assert!(fires(&Cond::becomes_true(false), &Cond::becomes_true(true)));
    assert!(!fires(&Cond::becomes_true(true), &Cond::becomes_true(true)));
    assert!(!fires(&Cond::becomes_true(true), &Cond::becomes_true(false)));
    assert!(!fires(&Cond::becomes_true(false), &Cond::becomes_true(false)));
}

#[test]
fn becomes_false_fires_only_on_true_to_false() {
    assert!(fires(&Cond::becomes_false(true), &Cond::becomes_false(false)));
    assert!(!fires(&Cond::becomes_false(false), &Cond::becomes_false(false)));
    assert!(!fires(&Cond::becomes_false(false), &Cond::becomes_false(true)));
    assert!(!fires(&Cond::becomes_false(true), &Cond::becomes_false(true)));
}

#[test]
fn mismatched_kinds_never_fire() {
    for &a in &[false, true] {
        for &b in &[false, true] {
            assert!(!fires(&Cond::becomes_true(a), &Cond::becomes_false(b)));
            assert!(!fires(&Cond::becomes_false(a), &Cond::becomes_true(b)));
        }
    }
}

#[test]
fn changed_never_fires() {
    let changed = Cond::Changed(Payload::Bool(true));
    assert!(!fires(&changed, &changed));
    assert!(!fires(&changed, &Cond::becomes_true(true)));
    assert!(!fires(&Cond::becomes_true(false), &changed));
}

#[test]
fn numeric_becomes_fires_on_reaching_the_expectation() {
    let expect = Payload::Num(5);
    assert!(fires(
        &Cond::Becomes(Payload::Num(4), expect),
        &Cond::Becomes(Payload::Num(5), expect),
    ));
    assert!(!fires(
        &Cond::Becomes(Payload::Num(5), expect),
        &Cond::Becomes(Payload::Num(5), expect),
    ));
    assert!(!fires(
        &Cond::Becomes(Payload::Num(4), expect),
        &Cond::Becomes(Payload::Num(6), expect),
    ));
}

#[test]
fn mismatched_payload_types_never_fire() {
    // The expectations differ, so the conditions are of different kinds.
    assert!(!fires(
        &Cond::Becomes(Payload::Num(0), Payload::Num(1)),
        &Cond::Becomes(Payload::Bool(true), Payload::Bool(true)),
    ));
    // One and the same expectation, but the baseline's observation is of
    // the wrong type.
    assert!(!fires(
        &Cond::Becomes(Payload::Bool(false), Payload::Num(1)),
        &Cond::Becomes(Payload::Num(1), Payload::Num(1)),
    ));
}
