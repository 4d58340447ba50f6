//! The state-machine synthesizer. From a record schema with N fields it
//! produces the builder family: N+1 builder states indexed 0..=N, exactly one
//! field-setting transition out of every non-terminal state `i` (for field
//! `i`, into state `i+1`), and the terminal materialize operation. The
//! linearity is the point: every field is supplied exactly once, in
//! declaration order, with no runtime bookkeeping of which fields are set.

use vstd::prelude::*;

use crate::builder_state::BuilderState;
use crate::detail::{GenericParam, GenericParamKind};
use crate::machine::BuilderInstance;
use crate::error::{CompileError, ErrorKind, SchemaError, SourceSpan};
use crate::scan::{skip_ws, skip_ws_spec};
use crate::schema::{opt_expr_model, FieldSchema, RecordSchema};
use crate::text::{copy_chars, lemma_chars_deep_view, push_all_chars, push_str_chars};
use crate::validation::InvariantExpression;

verus! {

/// The host type used for the state index the builder types are parameterized
/// by.
#[derive(Clone, Copy, PartialEq, Eq, Structural, Debug)]
pub enum FieldIndexType {
    Usize,
}

/// Largest admissible field count: the chosen state-index encoding must offer
/// at least 63 bits of range.
pub open spec fn max_field_count() -> int {
    0x7fff_ffff_ffff_ffff
}

impl FieldIndexType {
    /// Picks the state-index type for a record with `n_fields` fields;
    /// rejects a count beyond the encoding's range, attributed to `span`.
    pub fn new(n_fields: usize, span: SourceSpan) -> (r: Result<FieldIndexType, CompileError>)
        ensures
            match r {
                Ok(t) => n_fields <= max_field_count() && t == FieldIndexType::Usize,
                Err(e) => {
                    &&& n_fields > max_field_count()
                    &&& e.kind == ErrorKind::Schema(SchemaError::FieldCountExceedsRange)
                    &&& e.span == span
                },
            },
    {
        if (n_fields as u64) > 0x7fff_ffff_ffff_ffffu64 {
            Err(
                CompileError { span, kind: ErrorKind::Schema(SchemaError::FieldCountExceedsRange) },
            )
        } else {
            Ok(FieldIndexType::Usize)
        }
    }
}

/// How a field's finished value is handed to its validator: by reference,
/// except when the field's declared type is itself a reference or pointer
/// type, which is passed as it is, with no second indirection.
#[derive(Clone, Copy, PartialEq, Eq, Structural, Debug)]
pub enum PassMode {
    ByReference,
    AsIs,
}

/// The fixed argument-passing policy, decided by the first significant
/// character of the declared type text.
pub open spec fn pass_mode_spec(ty: Seq<char>) -> PassMode {
    let j = skip_ws_spec(ty, 0);
    if j < ty.len() && (ty[j] == '&' || ty[j] == '*') {
        PassMode::AsIs
    } else {
        PassMode::ByReference
    }
}

pub fn pass_mode_for(ty: &Vec<char>) -> (m: PassMode)
    ensures
        m == pass_mode_spec(ty@),
{
    let j = skip_ws(ty, 0);
    if j < ty.len() && (ty[j] == '&' || ty[j] == '*') {
        PassMode::AsIs
    } else {
        PassMode::ByReference
    }
}

/// The single operation out of builder state `from_index`: it takes ownership
/// of that state, supplies the named field, and produces state `to_index`.
pub struct Transition {
    pub from_index: usize,
    pub to_index: usize,
    pub field_name: Vec<char>,
    pub field_type: Vec<char>,
}

// ---------------------------------------------------------------------------
// type arguments for the synthesized builder types
// ---------------------------------------------------------------------------

/// The lifetime arguments of a parameter list, in order.
pub open spec fn lifetime_args_of(g: Seq<GenericParam>) -> Seq<Seq<char>>
    decreases g.len(),
{
    if g.len() == 0 {
        Seq::empty()
    } else {
        let rest = lifetime_args_of(g.drop_last());
        if g.last().kind is Lifetime {
            rest.push(g.last().ident@)
        } else {
            rest
        }
    }
}

/// The type and const arguments of a parameter list, in order.
pub open spec fn other_args_of(g: Seq<GenericParam>) -> Seq<Seq<char>>
    decreases g.len(),
{
    if g.len() == 0 {
        Seq::empty()
    } else {
        let rest = other_args_of(g.drop_last());
        if g.last().kind is Lifetime {
            rest
        } else {
            rest.push(g.last().ident@)
        }
    }
}

/// The record's generic arguments as the synthesized builder types repeat
/// them, without the enclosing angle brackets: lifetimes first, whatever
/// their declared order, then types and consts, because the builder appends
/// its own state-index parameter and the host language wants lifetimes ahead
/// of it.
pub struct TypeGenericsWithoutAngleBrackets {
    pub args: Vec<Vec<char>>,
}

impl TypeGenericsWithoutAngleBrackets {
    /// Orders the arguments: lifetimes first, then types and consts, keeping
    /// declaration order within each group.
    pub fn from_generics(generics: &Vec<GenericParam>) -> (r: TypeGenericsWithoutAngleBrackets)
        ensures
            r.args.deep_view() == lifetime_args_of(generics@) + other_args_of(generics@),
    {
        let n = generics.len();
        let mut args: Vec<Vec<char>> = Vec::new();
        let mut i: usize = 0;
        while i < n
            invariant
                n == generics.len(),
                i <= n,
                args.deep_view() =~= lifetime_args_of(generics@.subrange(0, i as int)),
            decreases n - i,
        {
            proof {
                assert(generics@.subrange(0, i + 1).drop_last() =~= generics@.subrange(0, i as int));
                assert(generics@.subrange(0, i + 1).last() == generics@[i as int]);
            }
            let ghost prev = args.deep_view();
            match generics[i].kind {
                GenericParamKind::Lifetime => {
                    let ident = copy_chars(&generics[i].ident);
                    args.push(ident);
                    proof {
                        lemma_chars_deep_view(ident);
                        assert(args.deep_view() =~= prev.push(generics@[i as int].ident@));
                    }
                },
                _ => {},
            }
            i += 1;
        }
        assert(generics@.subrange(0, n as int) =~= generics@);
        let mut i: usize = 0;
        while i < n
            invariant
                n == generics.len(),
                i <= n,
                args.deep_view() =~= lifetime_args_of(generics@) + other_args_of(
                    generics@.subrange(0, i as int),
                ),
            decreases n - i,
        {
            proof {
                assert(generics@.subrange(0, i + 1).drop_last() =~= generics@.subrange(0, i as int));
                assert(generics@.subrange(0, i + 1).last() == generics@[i as int]);
            }
            let ghost prev = args.deep_view();
            match generics[i].kind {
                GenericParamKind::Lifetime => {},
                _ => {
                    let ident = copy_chars(&generics[i].ident);
                    args.push(ident);
                    proof {
                        lemma_chars_deep_view(ident);
                        assert(args.deep_view() =~= prev.push(generics@[i as int].ident@));
                    }
                },
            }
            i += 1;
        }
        assert(generics@.subrange(0, n as int) =~= generics@);
        TypeGenericsWithoutAngleBrackets { args }
    }
}

// ---------------------------------------------------------------------------
// finalization
// ---------------------------------------------------------------------------

/// The terminal materialize operation, in one of its two shapes.
pub enum FinalizationOp {
    /// no validator anywhere: materialize consumes the terminal state and
    /// returns the record unconditionally
    Unconditional,
    /// at least one validator: materialize returns an optional record,
    /// evaluating the field validators in declaration order and the
    /// record-level validator only after all of them passed
    Guarded {
        field_validators: Vec<Option<InvariantExpression>>,
        pass_modes: Vec<PassMode>,
        record_validator: Option<InvariantExpression>,
    },
}

/// Does any field, or the record itself, declare a validator?
pub open spec fn has_any_validator(
    fields: Seq<FieldSchema>,
    record_validator: Option<InvariantExpression>,
) -> bool {
    record_validator is Some || exists|i: int|
        0 <= i < fields.len() && (#[trigger] fields[i]).validator is Some
}

/// How the finalization operation reflects the schema: the unconditional
/// shape exactly when no validator is declared anywhere; otherwise the
/// guarded shape, carrying every field's validator in declaration order, the
/// argument-passing mode of every field, and the record-level validator.
pub open spec fn finalization_matches(
    op: FinalizationOp,
    fields: Seq<FieldSchema>,
    record_validator: Option<InvariantExpression>,
) -> bool {
    match op {
        FinalizationOp::Unconditional => !has_any_validator(fields, record_validator),
        FinalizationOp::Guarded { field_validators, pass_modes, record_validator: rv } => {
            &&& has_any_validator(fields, record_validator)
            &&& field_validators.len() == fields.len()
            &&& pass_modes.len() == fields.len()
            &&& forall|i: int|
                0 <= i < fields.len() ==> #[trigger] opt_expr_model(field_validators@[i])
                    == opt_expr_model(fields[i].validator)
            &&& forall|i: int|
                0 <= i < fields.len() ==> #[trigger] pass_modes@[i] == pass_mode_spec(fields[i].ty@)
            &&& opt_expr_model(rv) == opt_expr_model(record_validator)
        },
    }
}

/// The finalization generator: given the fields (with their validators, as
/// the validation model attached them) and the record-level validator, emits
/// the materialize operation in the shape the declared validators call for.
pub fn finalize(fields: &Vec<FieldSchema>, record_validator: &Option<InvariantExpression>) -> (op:
    FinalizationOp)
    ensures
        finalization_matches(op, fields@, *record_validator),
{
    let n = fields.len();
    let mut any: bool = record_validator.is_some();
    let mut i: usize = 0;
    while i < n
        invariant
            n == fields.len(),
            i <= n,
            any == (record_validator is Some || exists|k: int|
                0 <= k < i && (#[trigger] fields@[k]).validator is Some),
        decreases n - i,
    {
        if fields[i].validator.is_some() {
            any = true;
        }
        i += 1;
    }
    if !any {
        return FinalizationOp::Unconditional;
    }
    let mut field_validators: Vec<Option<InvariantExpression>> = Vec::new();
    let mut pass_modes: Vec<PassMode> = Vec::new();
    let mut i: usize = 0;
    while i < n
        invariant
            n == fields.len(),
            i <= n,
            field_validators.len() == i,
            pass_modes.len() == i,
            forall|k: int|
                0 <= k < i ==> #[trigger] opt_expr_model(field_validators@[k]) == opt_expr_model(
                    fields@[k].validator,
                ),
            forall|k: int| 0 <= k < i ==> #[trigger] pass_modes@[k] == pass_mode_spec(
                fields@[k].ty@,
            ),
        decreases n - i,
    {
        let dup = match &fields[i].validator {
            Some(e) => Some(e.duplicate()),
            None => None,
        };
        field_validators.push(dup);
        pass_modes.push(pass_mode_for(&fields[i].ty));
        i += 1;
    }
    let rv = match record_validator {
        Some(e) => Some(e.duplicate()),
        None => None,
    };
    FinalizationOp::Guarded { field_validators, pass_modes, record_validator: rv }
}

// ---------------------------------------------------------------------------
// the builder family
// ---------------------------------------------------------------------------

/// The synthesized builder family for one record: N+1 states (state `i` is
/// the builder type with the first `i` fields supplied), the transition chain
/// between them, and the terminal materialize operation. State 0 additionally
/// gets a no-argument constructor, and the record type an entry point
/// returning it.
pub struct Builder {
    /// name of the builder type family
    pub ident: Vec<char>,
    /// name of the shared partial-value container type
    pub state_ident: Vec<char>,
    /// the record's generic parameters, repeated identically
    pub generics: Vec<GenericParam>,
    /// the type arguments as the builder types repeat them
    pub type_arguments: TypeGenericsWithoutAngleBrackets,
    /// the host type of the appended state-index parameter
    pub index_type: FieldIndexType,
    /// exactly one transition out of every non-terminal state
    pub transitions: Vec<Transition>,
    /// the terminal operation
    pub finalization: FinalizationOp,
}

/// Generic parameter lists that agree element for element.
pub open spec fn generics_equal(a: Seq<GenericParam>, b: Seq<GenericParam>) -> bool {
    &&& a.len() == b.len()
    &&& forall|i: int|
        0 <= i < a.len() ==> {
            &&& (#[trigger] a[i]).kind == b[i].kind
            &&& a[i].ident@ == b[i].ident@
            &&& a[i].bounds@ == b[i].bounds@
        }
}

/// The transitions form the linear chain over the fields: transition `i`
/// leaves state `i`, supplies field `i`, and enters state `i+1`. There is no
/// other operation out of any state, and none out of the terminal state.
pub open spec fn transitions_chain(ts: Seq<Transition>, fields: Seq<FieldSchema>) -> bool {
    &&& ts.len() == fields.len()
    &&& forall|i: int|
        0 <= i < ts.len() ==> {
            &&& (#[trigger] ts[i]).from_index == i
            &&& ts[i].to_index == i + 1
            &&& ts[i].field_name@ == fields[i].name@
            &&& ts[i].field_type@ == fields[i].ty@
        }
}

/// Everything the synthesizer promises of a produced family.
pub open spec fn builder_matches_schema(b: Builder, sch: RecordSchema, state_ident: Seq<char>) -> bool {
    &&& b.ident@ == sch.name@ + "Builder"@
    &&& b.state_ident@ == state_ident
    &&& generics_equal(b.generics@, sch.generics@)
    &&& b.type_arguments.args.deep_view() == lifetime_args_of(sch.generics@) + other_args_of(
        sch.generics@,
    )
    &&& b.index_type == FieldIndexType::Usize
    &&& transitions_chain(b.transitions@, sch.fields@)
    &&& finalization_matches(b.finalization, sch.fields@, sch.record_validator)
}

/// The synthesizer: produces the builder family for a schema, or rejects an
/// empty field list or a field count beyond the state-index range, both
/// attributed to the record's name.
pub fn make_builder(input: &RecordSchema, state: &BuilderState) -> (r: Result<Builder, CompileError>)
    ensures
        match r {
            Ok(b) => {
                &&& 0 < input.fields.len() <= max_field_count()
                &&& builder_matches_schema(b, *input, state@.ident)
            },
            Err(e) => {
                ||| {
                    &&& input.fields.len() == 0
                    &&& e.kind == ErrorKind::Schema(SchemaError::EmptyFieldList)
                    &&& e.span == input.name_span
                }
                ||| {
                    &&& input.fields.len() > max_field_count()
                    &&& e.kind == ErrorKind::Schema(SchemaError::FieldCountExceedsRange)
                    &&& e.span == input.name_span
                }
            },
        },
{
    if input.fields.len() == 0 {
        return Err(
            CompileError {
                span: input.name_span,
                kind: ErrorKind::Schema(SchemaError::EmptyFieldList),
            },
        );
    }
    let index_type = match FieldIndexType::new(input.fields.len(), input.name_span) {
        Ok(t) => t,
        Err(e) => {
            return Err(e);
        },
    };
    let mut ident: Vec<char> = Vec::new();
    push_all_chars(&mut ident, &input.name);
    push_str_chars(&mut ident, "Builder");
    assert(ident@ =~= input.name@ + "Builder"@);
    let state_ident = copy_chars(state.ident());

    let n = input.fields.len();
    let mut transitions: Vec<Transition> = Vec::new();
    let mut i: usize = 0;
    while i < n
        invariant
            n == input.fields.len(),
            i <= n,
            transitions.len() == i,
            forall|k: int|
                0 <= k < i ==> {
                    &&& (#[trigger] transitions@[k]).from_index == k
                    &&& transitions@[k].to_index == k + 1
                    &&& transitions@[k].field_name@ == input.fields@[k].name@
                    &&& transitions@[k].field_type@ == input.fields@[k].ty@
                },
        decreases n - i,
    {
        let field_name = copy_chars(&input.fields[i].name);
        let field_type = copy_chars(&input.fields[i].ty);
        transitions.push(Transition { from_index: i, to_index: i + 1, field_name, field_type });
        i += 1;
    }

    let mut generics: Vec<GenericParam> = Vec::new();
    let n_generics = input.generics.len();
    let mut i: usize = 0;
    while i < n_generics
        invariant
            n_generics == input.generics.len(),
            i <= input.generics.len(),
            generics.len() == i,
            forall|k: int|
                0 <= k < i ==> {
                    &&& (#[trigger] generics@[k]).kind == input.generics@[k].kind
                    &&& generics@[k].ident@ == input.generics@[k].ident@
                    &&& generics@[k].bounds@ == input.generics@[k].bounds@
                },
        decreases input.generics.len() - i,
    {
        let p = GenericParam {
            kind: input.generics[i].kind,
            ident: copy_chars(&input.generics[i].ident),
            bounds: copy_chars(&input.generics[i].bounds),
        };
        generics.push(p);
        i += 1;
    }

    let type_arguments = TypeGenericsWithoutAngleBrackets::from_generics(&input.generics);
    let finalization = finalize(&input.fields, &input.record_validator);
    Ok(
        Builder {
            ident,
            state_ident,
            generics,
            type_arguments,
            index_type,
            transitions,
            finalization,
        },
    )
}

impl Builder {
    /// How many fields the family's record declares: one transition per
    /// field.
    pub fn field_count(&self) -> (n: usize)
        ensures
            n == self.transitions@.len(),
    {
        self.transitions.len()
    }

    /// The family's entry point: a runtime instance of state 0, with one
    /// slot to fill per transition of the chain.
    pub fn start<V>(&self) -> (b: BuilderInstance<V>)
        ensures
            b@.n_fields == self.transitions@.len(),
            b@.filled == Seq::<V>::empty(),
    {
        BuilderInstance::new(self.transitions.len())
    }
}

// ---------------------------------------------------------------------------
// the linearity guarantee
// ---------------------------------------------------------------------------

/// A walk along the family: `path` names transitions by index; each must
/// leave from the state the walk is in, and the walk ends in `s1`.
pub open spec fn chain_reaches(ts: Seq<Transition>, path: Seq<int>, s0: int, s1: int) -> bool
    decreases path.len(),
{
    if path.len() == 0 {
        s1 == s0
    } else {
        let t = path.first();
        &&& 0 <= t < ts.len()
        &&& ts[t].from_index == s0
        &&& chain_reaches(ts, path.drop_first(), ts[t].to_index as int, s1)
    }
}

/// Along a linear chain, the only walk from state `s0` to the terminal state
/// is the full remaining transition sequence, in declaration order: no
/// reordering, no omission and no repetition reaches the materialize
/// operation.
pub proof fn lemma_terminal_needs_every_transition(
    ts: Seq<Transition>,
    fields: Seq<FieldSchema>,
    path: Seq<int>,
    s0: int,
)
    requires
        transitions_chain(ts, fields),
        0 <= s0 <= ts.len(),
        chain_reaches(ts, path, s0, ts.len() as int),
    ensures
        path.len() == ts.len() - s0,
        forall|i: int| 0 <= i < path.len() ==> path[i] == s0 + i,
    decreases path.len(),
{
    if path.len() == 0 {
    } else {
        let t = path.first();
        assert(ts[t].from_index == t);
        lemma_terminal_needs_every_transition(ts, fields, path.drop_first(), s0 + 1);
        assert forall|i: int| 0 <= i < path.len() implies path[i] == s0 + i by {
            if i > 0 {
                assert(path.drop_first()[i - 1] == path[i]);
            }
        }
    }
}

} // verus!
