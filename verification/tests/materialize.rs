use std::cell::Cell;

use quick_builder::machine::{BuilderInstance, MaterializeOutcome, RecordValue};

/// Counts how often each field validator runs, so evaluation order and
/// short-circuiting are observable.
struct Probe {
    runs: Vec<Cell<usize>>,
    record_runs: Cell<usize>,
}

impl Probe {
    fn new(n: usize) -> Probe {
        Probe { runs: (0..n).map(|_| Cell::new(0)).collect(), record_runs: Cell::new(0) }
    }
}

#[test]
fn validator_order_and_short_circuit() {
    // fields a (validator: a > 0) and b (validator: b > 0), built with
    // a = -1, b = -1: materialize reports absent and b's validator never runs
    let probe = Probe::new(2);
    let field_pred = |i: usize, v: &i64| {
        probe.runs[i].set(probe.runs[i].get() + 1);
        *v > 0
    };
    let b = BuilderInstance::new(2).supply(-1i64).supply(-1i64);
    let outcome = b.build_validated(
        &vec![true, true],
        field_pred,
        None::<fn(&RecordValue<i64>) -> bool>,
    );
    assert!(matches!(&outcome, MaterializeOutcome::FieldRejected(0)));
    assert_eq!(outcome.into_option(), None);
    assert_eq!(probe.runs[0].get(), 1);
    assert_eq!(probe.runs[1].get(), 0);
}

#[test]
fn later_field_rejection_runs_earlier_validators_once() {
    let probe = Probe::new(3);
    let field_pred = |i: usize, v: &i64| {
        probe.runs[i].set(probe.runs[i].get() + 1);
        *v > 0
    };
    let b = BuilderInstance::new(3).supply(5i64).supply(7i64).supply(-2i64);
    let outcome = b.build_validated(
        &vec![true, true, true],
        field_pred,
        None::<fn(&RecordValue<i64>) -> bool>,
    );
    assert!(matches!(outcome, MaterializeOutcome::FieldRejected(2)));
    assert_eq!(probe.runs[0].get(), 1);
    assert_eq!(probe.runs[1].get(), 1);
    assert_eq!(probe.runs[2].get(), 1);
}

#[test]
fn record_validator_runs_only_after_field_validators_pass() {
    // all field validators pass but the record-level validator fails:
    // materialize reports absent, and the record validator ran exactly once
    let probe = Probe::new(2);
    let field_pred = |i: usize, v: &i64| {
        probe.runs[i].set(probe.runs[i].get() + 1);
        *v > 0
    };
    let record_pred = |r: &RecordValue<i64>| {
        probe.record_runs.set(probe.record_runs.get() + 1);
        r.fields[0] > r.fields[1]
    };
    let b = BuilderInstance::new(2).supply(1i64).supply(2i64);
    let outcome = b.build_validated(&vec![true, true], field_pred, Some(record_pred));
    assert!(matches!(&outcome, MaterializeOutcome::RecordRejected));
    assert_eq!(outcome.into_option(), None);
    assert_eq!(probe.record_runs.get(), 1);

    // one failing field validator: the record-level validator never runs
    let probe = Probe::new(2);
    let field_pred = |i: usize, v: &i64| {
        probe.runs[i].set(probe.runs[i].get() + 1);
        *v > 0
    };
    let record_pred = |r: &RecordValue<i64>| {
        probe.record_runs.set(probe.record_runs.get() + 1);
        r.fields[0] > r.fields[1]
    };
    let b = BuilderInstance::new(2).supply(-1i64).supply(2i64);
    let outcome = b.build_validated(&vec![true, true], field_pred, Some(record_pred));
    assert!(matches!(outcome, MaterializeOutcome::FieldRejected(0)));
    assert_eq!(probe.record_runs.get(), 0);
}

#[test]
fn fields_without_validators_are_not_evaluated() {
    let probe = Probe::new(3);
    let field_pred = |i: usize, _v: &u8| {
        probe.runs[i].set(probe.runs[i].get() + 1);
        true
    };
    let b = BuilderInstance::new(3).supply(1u8).supply(2u8).supply(3u8);
    let outcome = b.build_validated(
        &vec![false, true, false],
        field_pred,
        None::<fn(&RecordValue<u8>) -> bool>,
    );
    assert!(matches!(outcome, MaterializeOutcome::Built(_)));
    assert_eq!(probe.runs[0].get(), 0);
    assert_eq!(probe.runs[1].get(), 1);
    assert_eq!(probe.runs[2].get(), 0);
}

#[test]
fn round_trip_without_validators() {
    // materializing a builder populated with v0..v(N-1) yields a record
    // field-wise equal to one constructed directly from the same values
    let values = vec![3u32, 1u32, 4u32, 1u32, 5u32];
    let mut b = BuilderInstance::new(values.len());
    for v in &values {
        b = b.supply(*v);
    }
    assert_eq!(b.index(), values.len());
    assert_eq!(b.n_fields(), values.len());
    let built = b.build();
    assert_eq!(built, RecordValue { fields: values });
}

#[test]
fn accepted_construction_yields_the_record() {
    let b = BuilderInstance::new(2).supply(10i64).supply(2i64);
    let outcome = b.build_validated(
        &vec![true, true],
        |_i: usize, v: &i64| *v > 0,
        Some(|r: &RecordValue<i64>| r.fields[0] > r.fields[1]),
    );
    match outcome {
        MaterializeOutcome::Built(rec) => {
            assert_eq!(rec, RecordValue { fields: vec![10i64, 2i64] });
        },
        _ => panic!("construction should be accepted"),
    }
}
