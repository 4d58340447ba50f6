//! A runtime model of the synthesized artifact: the linear chain of builder
//! states and the terminal materialize operation. Each instance owns a
//! partial value container; supplying a field consumes the instance and
//! produces its successor, so a consumed state is gone for good. Materialize
//! is reachable only in the terminal state, and its guarded shape evaluates
//! the field validators in declaration order, short-circuiting on the first
//! rejection, and the record-level validator only after every field validator
//! passed.

use vstd::prelude::*;

verus! {

/// The finished record: its field values, in declaration order.
#[derive(PartialEq, Eq, Debug)]
pub struct RecordValue<V> {
    pub fields: Vec<V>,
}

/// Mathematical image of a builder state: how many fields the record has, and
/// the values supplied so far. The state's index in the chain is
/// `filled.len()`.
pub ghost struct BuilderInstanceModel<V> {
    pub n_fields: nat,
    pub filled: Seq<V>,
}

/// One builder state at run time. State `i` holds the first `i` field values;
/// the only operation out of a non-terminal state is `supply`, which consumes
/// the state and produces state `i+1`; the only operations out of the
/// terminal state are the two materialize shapes.
pub struct BuilderInstance<V> {
    n_fields: usize,
    filled: Vec<V>,
}

impl<V> View for BuilderInstance<V> {
    type V = BuilderInstanceModel<V>;

    closed spec fn view(&self) -> BuilderInstanceModel<V> {
        BuilderInstanceModel { n_fields: self.n_fields as nat, filled: self.filled@ }
    }
}

/// The validator for field `i` accepts the value `v` as input.
pub open spec fn field_check_requires<V, F: Fn(usize, &V) -> bool>(f: F, i: usize, v: V) -> bool {
    call_requires(f, (i, &v))
}

/// `b` is an outcome the validator for field `i` can return on `v`.
pub open spec fn field_check_returns<V, F: Fn(usize, &V) -> bool>(
    f: F,
    i: usize,
    v: V,
    b: bool,
) -> bool {
    call_ensures(f, (i, &v), b)
}

/// The record-level validator accepts the record `rv` as input.
pub open spec fn record_check_requires<V, G: Fn(&RecordValue<V>) -> bool>(
    g: G,
    rv: RecordValue<V>,
) -> bool {
    call_requires(g, (&rv,))
}

/// `b` is an outcome the record-level validator can return on `rv`.
pub open spec fn record_check_returns<V, G: Fn(&RecordValue<V>) -> bool>(
    g: G,
    rv: RecordValue<V>,
    b: bool,
) -> bool {
    call_ensures(g, (&rv,), b)
}

/// What the guarded materialize operation reports: the record, or which
/// stage rejected the construction. Rejection is data, never an exception,
/// and no partial record is observable.
pub enum MaterializeOutcome<V> {
    /// every evaluated validator accepted; the record is finished
    Built(RecordValue<V>),
    /// the field validator at this index rejected; validators of later
    /// fields, and the record-level validator, were not evaluated
    FieldRejected(usize),
    /// every field validator accepted, then the record-level validator
    /// rejected the reconstructed record
    RecordRejected,
}

impl<V> MaterializeOutcome<V> {
    /// The artifact's surface: a present record exactly when construction
    /// succeeded.
    pub fn into_option(self) -> (r: Option<RecordValue<V>>)
        ensures
            match self {
                MaterializeOutcome::Built(rec) => r == Some(rec),
                _ => r is None,
            },
    {
        match self {
            MaterializeOutcome::Built(rec) => Some(rec),
            _ => None,
        }
    }
}

impl<V> BuilderInstance<V> {
    /// The no-argument constructor of state 0: nothing supplied yet.
    pub fn new(n_fields: usize) -> (b: BuilderInstance<V>)
        ensures
            b@.n_fields == n_fields,
            b@.filled == Seq::<V>::empty(),
    {
        BuilderInstance { n_fields, filled: Vec::new() }
    }

    /// The state's index in the chain: how many fields are supplied.
    pub fn index(&self) -> (i: usize)
        ensures
            i == self@.filled.len(),
    {
        self.filled.len()
    }

    /// How many fields the record declares.
    pub fn n_fields(&self) -> (n: usize)
        ensures
            n == self@.n_fields,
    {
        self.n_fields
    }

    /// The transition out of a non-terminal state: consumes this state,
    /// supplies the value for the field at the current index, and produces
    /// the successor state. No other operation advances the chain, and a
    /// consumed state cannot be reused.
    pub fn supply(self, value: V) -> (r: BuilderInstance<V>)
        requires
            self@.filled.len() < self@.n_fields,
        ensures
            r@.n_fields == self@.n_fields,
            r@.filled == self@.filled.push(value),
    {
        let BuilderInstance { n_fields, mut filled } = self;
        filled.push(value);
        BuilderInstance { n_fields, filled }
    }

    /// The terminal materialize operation in its unconditional shape: no
    /// validator was declared anywhere, so the record is returned directly
    /// and no failure is observable.
    pub fn build(self) -> (r: RecordValue<V>)
        requires
            self@.filled.len() == self@.n_fields,
        ensures
            r.fields@ == self@.filled,
    {
        let BuilderInstance { n_fields: _, filled } = self;
        RecordValue { fields: filled }
    }

    /// The terminal materialize operation in its guarded shape. It first
    /// reconstructs the record, then evaluates the validators of the fields
    /// marked in `has_validator`, in declaration order, stopping at the
    /// first rejection; only if all of them accept is the record-level
    /// validator evaluated, against the reconstructed record.
    pub fn build_validated<F: Fn(usize, &V) -> bool, G: Fn(&RecordValue<V>) -> bool>(
        self,
        has_validator: &Vec<bool>,
        field_pred: F,
        record_pred: Option<G>,
    ) -> (r: MaterializeOutcome<V>)
        requires
            self@.filled.len() == self@.n_fields,
            has_validator.len() == self@.n_fields,
            forall|i: usize|
                i < self@.n_fields && has_validator@[i as int] ==> #[trigger] field_check_requires(
                    field_pred,
                    i,
                    self@.filled[i as int],
                ),
            forall|rv: RecordValue<V>|
                record_pred is Some && rv.fields@ == self@.filled
                    ==> #[trigger] record_check_requires(record_pred->Some_0, rv),
        ensures
            match r {
                MaterializeOutcome::Built(rec) => {
                    &&& rec.fields@ == self@.filled
                    &&& forall|j: usize|
                        j < self@.n_fields && has_validator@[j as int]
                            ==> #[trigger] field_check_returns(
                            field_pred,
                            j,
                            self@.filled[j as int],
                            true,
                        )
                    &&& record_pred matches Some(g) ==> record_check_returns(g, rec, true)
                },
                MaterializeOutcome::FieldRejected(j) => {
                    &&& j < self@.n_fields
                    &&& has_validator@[j as int]
                    &&& field_check_returns(field_pred, j, self@.filled[j as int], false)
                    &&& forall|k: usize|
                        k < j && has_validator@[k as int] ==> #[trigger] field_check_returns(
                            field_pred,
                            k,
                            self@.filled[k as int],
                            true,
                        )
                },
                MaterializeOutcome::RecordRejected => {
                    &&& record_pred is Some
                    &&& forall|j: usize|
                        j < self@.n_fields && has_validator@[j as int]
                            ==> #[trigger] field_check_returns(
                            field_pred,
                            j,
                            self@.filled[j as int],
                            true,
                        )
                    &&& exists|rec: RecordValue<V>|
                        rec.fields@ == self@.filled && #[trigger] record_check_returns(
                            record_pred->Some_0,
                            rec,
                            false,
                        )
                },
            },
    {
        let ghost m = self@;
        let BuilderInstance { n_fields, filled } = self;
        let rec = RecordValue { fields: filled };
        let n = n_fields;
        let mut j: usize = 0;
        while j < n
            invariant
                m == self@,
                n == m.n_fields,
                rec.fields@ == m.filled,
                m.filled.len() == m.n_fields,
                has_validator.len() == n,
                j <= n,
                forall|i: usize|
                    i < m.n_fields && has_validator@[i as int] ==> #[trigger] field_check_requires(
                        field_pred,
                        i,
                        m.filled[i as int],
                    ),
                forall|k: usize|
                    k < j && has_validator@[k as int] ==> #[trigger] field_check_returns(
                        field_pred,
                        k,
                        m.filled[k as int],
                        true,
                    ),
            decreases n - j,
        {
            if has_validator[j] {
                assert(field_check_requires(field_pred, j, m.filled[j as int]));
                let ok = field_pred(j, &rec.fields[j]);
                proof {
                    assert(field_check_returns(field_pred, j, m.filled[j as int], ok));
                }
                if !ok {
                    return MaterializeOutcome::FieldRejected(j);
                }
            }
            j += 1;
        }
        match record_pred {
            Some(g) => {
                assert(record_check_requires(g, rec));
                let ok = g(&rec);
                proof {
                    assert(record_check_returns(g, rec, ok));
                }
                if ok {
                    MaterializeOutcome::Built(rec)
                } else {
                    MaterializeOutcome::RecordRejected
                }
            },
            None => MaterializeOutcome::Built(rec),
        }
    }
}

// ---------------------------------------------------------------------------
// laws of the chain
// ---------------------------------------------------------------------------

/// State 0 of a record with `n_fields` fields.
pub open spec fn spec_start<V>(n_fields: nat) -> BuilderInstanceModel<V> {
    BuilderInstanceModel { n_fields, filled: Seq::empty() }
}

/// One transition at the model level.
pub open spec fn spec_supply<V>(m: BuilderInstanceModel<V>, value: V) -> BuilderInstanceModel<V> {
    BuilderInstanceModel { n_fields: m.n_fields, filled: m.filled.push(value) }
}

/// Supplying a sequence of values, first value first.
pub open spec fn spec_fill<V>(m: BuilderInstanceModel<V>, values: Seq<V>) -> BuilderInstanceModel<V>
    decreases values.len(),
{
    if values.len() == 0 {
        m
    } else {
        spec_fill(spec_supply(m, values.first()), values.drop_first())
    }
}

/// Round trip: supplying the values `v0..v(N-1)` to state 0, in order, and
/// materializing yields a record holding exactly those values — field-wise
/// equal to one constructed directly from them. This is the model behind
/// `supply` and `build`, whose contracts say each step agrees with
/// `spec_supply` and that `build` returns the filled values.
pub proof fn lemma_round_trip<V>(n_fields: nat, values: Seq<V>)
    requires
        values.len() == n_fields,
    ensures
        spec_fill(spec_start::<V>(n_fields), values).filled == values,
        spec_fill(spec_start::<V>(n_fields), values).n_fields == n_fields,
{
    lemma_fill_appends(spec_start::<V>(n_fields), values);
    assert(Seq::<V>::empty() + values =~= values);
}

/// The terminal state, where alone materialize is reachable, is reached from
/// state 0 exactly by supplying one value per field: fewer supplies leave the
/// chain short of it, and a non-terminal state offers no other operation.
pub proof fn lemma_terminal_needs_every_field<V>(n_fields: nat, values: Seq<V>)
    ensures
        spec_fill(spec_start::<V>(n_fields), values).filled.len() == n_fields <==> values.len()
            == n_fields,
{
    lemma_fill_appends(spec_start::<V>(n_fields), values);
}

/// Filling appends: the container ends with the old values followed by the
/// new ones, whatever state the chain was in.
pub proof fn lemma_fill_appends<V>(m: BuilderInstanceModel<V>, values: Seq<V>)
    ensures
        spec_fill(m, values).filled == m.filled + values,
        spec_fill(m, values).n_fields == m.n_fields,
    decreases values.len(),
{
    if values.len() == 0 {
        assert(m.filled + values =~= m.filled);
    } else {
        lemma_fill_appends(spec_supply(m, values.first()), values.drop_first());
        assert(m.filled.push(values.first()) + values.drop_first() =~= m.filled + values);
    }
}

} // verus!
