//! Staged-builder synthesis: from the description of a record type (ordered
//! fields, generic parameters, optional validation predicates) this library
//! computes a linear chain of builder states, one field-setting transition per
//! state, and a terminal materialize operation that evaluates the declared
//! validators in field order.

use vstd::prelude::*;

pub mod builder;
pub mod builder_state;
pub mod detail;
pub mod error;
pub mod machine;
pub mod scan;
pub mod schema;
pub mod text;
pub mod validation;

use crate::builder::{builder_matches_schema, make_builder, Builder};
use crate::builder_state::{make_builder_state, state_matches_schema, BuilderState};
use crate::detail::{StructDeriveInput, TypeDeclaration, TypeDefData};
use crate::error::{CompileError, ErrorKind, SchemaError};
use crate::schema::{build_schema, build_schema_error_spec, schema_matches_input, RecordSchema};

verus! {

/// Everything synthesized for one record: its validated schema, the shared
/// partial-value container, and the builder family with its transitions and
/// terminal operation. Either all of it is produced, or a single diagnostic
/// and nothing else.
pub struct Artifact {
    pub schema: RecordSchema,
    pub state: BuilderState,
    pub builder: Builder,
}

/// The record description a declaration yields once it is known to be a
/// record.
pub open spec fn record_input_of(decl: TypeDeclaration) -> StructDeriveInput
    recommends
        decl.data is RecordFields,
{
    StructDeriveInput {
        ident: decl.ident,
        ident_span: decl.ident_span,
        generics: decl.generics,
        where_clause: decl.where_clause,
        attrs: decl.attrs,
        fields: decl.data->RecordFields_0,
    }
}

/// The whole pipeline for one annotated declaration: the record check, the
/// validation model over every attribute list, and the synthesis of the
/// builder family with its finalization. The first rejection aborts the
/// record's artifact; no partial artifact is ever returned.
pub fn quick_builder(decl: TypeDeclaration) -> (r: Result<Artifact, CompileError>)
    requires
        decl.wf(),
    ensures
        match r {
            Ok(a) => {
                &&& decl.data is RecordFields
                &&& schema_matches_input(a.schema, record_input_of(decl))
                &&& state_matches_schema(a.state@, a.schema)
                &&& builder_matches_schema(a.builder, a.schema, a.state@.ident)
            },
            Err(e) => {
                ||| {
                    &&& !(decl.data is RecordFields)
                    &&& e.kind == ErrorKind::Schema(SchemaError::NotARecord)
                }
                ||| {
                    &&& decl.data is RecordFields
                    &&& build_schema_error_spec(record_input_of(decl)) == Some((e.kind, e.span))
                }
                ||| {
                    &&& decl.data is RecordFields
                    &&& build_schema_error_spec(record_input_of(decl)) is None
                    &&& record_input_of(decl).fields.len() > crate::builder::max_field_count()
                    &&& e.kind == ErrorKind::Schema(SchemaError::FieldCountExceedsRange)
                    &&& e.span == decl.ident_span
                }
            },
        },
{
    let input = match StructDeriveInput::from_declaration(decl) {
        Ok(i) => i,
        Err(e) => {
            return Err(e);
        },
    };
    let schema = match build_schema(input) {
        Ok(s) => s,
        Err(e) => {
            return Err(e);
        },
    };
    let state = match make_builder_state(&schema) {
        Ok(s) => s,
        Err(e) => {
            return Err(e);
        },
    };
    let builder = match make_builder(&schema, &state) {
        Ok(b) => b,
        Err(e) => {
            return Err(e);
        },
    };
    Ok(Artifact { schema, state, builder })
}

/// Unary predicate used by generated validation code: `true` when the value's
/// type occupies at most four bytes.
pub fn validation<T>(f: &T) -> (r: bool)
    ensures
        r == (vstd::layout::size_of::<T>() <= 4),
{
    let _ = f;
    core::mem::size_of::<T>() <= 4
}

/// Applies a unary boolean predicate to a borrowed value. This is the helper
/// the materialize operation uses to run one validator.
pub fn check<F, T>(t: &T, f: F) -> (r: bool) where F: Fn(&T) -> bool
    requires
        call_requires(f, (t,)),
    ensures
        call_ensures(f, (t,), r),
{
    f(t)
}

/// Exercises `check` with an inline predicate, as generated code does.
pub fn bar() -> (r: bool)
    ensures
        r,
{
    let x: u64 = 0;
    let is_zero = |v: &u64| -> (b: bool)
        ensures
            b == (*v == 0),
        { *v == 0 };
    check(&x, is_zero)
}

} // verus!
