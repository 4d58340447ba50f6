//! The record schema: the validated description the synthesizer consumes.
//! Building it from the raw input runs the validation-expression model over
//! the record's own attribute list and over every field's, in declaration
//! order, and stops at the first rejection.

use vstd::prelude::*;

use crate::detail::{GenericParam, RawField, StructDeriveInput};
use crate::error::{CompileError, ErrorKind, SchemaError, SourceSpan};
use crate::text::copy_chars;
use crate::validation::{attr_parse_spec, ExprModel, InvariantAttribute, InvariantExpression};

verus! {

/// One field of the schema: its name, its declared type text, and its
/// validator, if its attributes declared one.
pub struct FieldSchema {
    pub name: Vec<char>,
    pub ty: Vec<char>,
    pub validator: Option<InvariantExpression>,
}

/// The normalized, validated record description. `fields` is never empty and
/// its order is the construction order of the staged builder.
pub struct RecordSchema {
    pub name: Vec<char>,
    pub name_span: SourceSpan,
    pub generics: Vec<GenericParam>,
    pub where_clause: Vec<char>,
    pub fields: Vec<FieldSchema>,
    pub record_validator: Option<InvariantExpression>,
}

/// Model of an optional validator.
pub open spec fn opt_expr_model(o: Option<InvariantExpression>) -> Option<ExprModel> {
    match o {
        Some(e) => Some(e@),
        None => None,
    }
}

/// The first field at or after `i` whose attribute list is rejected, with the
/// rejection.
pub open spec fn first_field_error_spec(fields: Seq<RawField>, i: int) -> Option<
    (ErrorKind, SourceSpan),
>
    decreases fields.len() - i,
    when 0 <= i <= fields.len()
{
    if i < fields.len() {
        match attr_parse_spec(fields[i].attrs@) {
            Err(e) => Some(e),
            Ok(_) => first_field_error_spec(fields, i + 1),
        }
    } else {
        None
    }
}

proof fn lemma_no_field_error(fields: Seq<RawField>, i: int)
    requires
        0 <= i <= fields.len(),
        forall|k: int| i <= k < fields.len() ==> (#[trigger] attr_parse_spec(
            fields[k].attrs@,
        )) is Ok,
    ensures
        first_field_error_spec(fields, i) is None,
    decreases fields.len() - i,
{
    if i < fields.len() {
        lemma_no_field_error(fields, i + 1);
    }
}

proof fn lemma_first_field_error(fields: Seq<RawField>, i: int, j: int, e: (ErrorKind, SourceSpan))
    requires
        0 <= i <= j < fields.len(),
        forall|k: int| i <= k < j ==> (#[trigger] attr_parse_spec(fields[k].attrs@)) is Ok,
        attr_parse_spec(fields[j].attrs@) == Err::<Option<ExprModel>, (ErrorKind, SourceSpan)>(e),
    ensures
        first_field_error_spec(fields, i) == Some(e),
    decreases j - i,
{
    if i < j {
        lemma_first_field_error(fields, i + 1, j, e);
    }
}

/// The rejection the validation pass reports for this input, if any: an empty
/// field list first, then the record's own attribute list, then the fields in
/// declaration order.
pub open spec fn build_schema_error_spec(input: StructDeriveInput) -> Option<
    (ErrorKind, SourceSpan),
> {
    if input.fields.len() == 0 {
        Some((ErrorKind::Schema(SchemaError::EmptyFieldList), input.ident_span))
    } else {
        match attr_parse_spec(input.attrs@) {
            Err(e) => Some(e),
            Ok(_) => first_field_error_spec(input.fields@, 0),
        }
    }
}

/// How a built schema reflects its input: everything is carried over
/// unchanged, and each validator is exactly what the validation model
/// classified out of the matching attribute list.
pub open spec fn schema_matches_input(sch: RecordSchema, input: StructDeriveInput) -> bool {
    &&& sch.name == input.ident
    &&& sch.name_span == input.ident_span
    &&& sch.generics == input.generics
    &&& sch.where_clause == input.where_clause
    &&& sch.fields.len() == input.fields.len()
    &&& sch.fields.len() > 0
    &&& attr_parse_spec(input.attrs@) == Ok::<Option<ExprModel>, (ErrorKind, SourceSpan)>(
        opt_expr_model(sch.record_validator),
    )
    &&& forall|i: int|
        0 <= i < input.fields.len() ==> {
            &&& (#[trigger] sch.fields@[i]).name@ == input.fields@[i].name@
            &&& sch.fields@[i].ty@ == input.fields@[i].ty@
        }
    &&& forall|i: int|
        0 <= i < input.fields.len() ==> #[trigger] attr_parse_spec(input.fields@[i].attrs@)
            == Ok::<Option<ExprModel>, (ErrorKind, SourceSpan)>(
            opt_expr_model(sch.fields@[i].validator),
        )
}

/// Runs the validation model over the input and produces the record schema,
/// or the first rejection in the order `build_schema_error_spec` fixes.
pub fn build_schema(input: StructDeriveInput) -> (r: Result<RecordSchema, CompileError>)
    requires
        input.wf(),
    ensures
        match r {
            Ok(sch) => schema_matches_input(sch, input) && build_schema_error_spec(input) is None,
            Err(e) => build_schema_error_spec(input) == Some((e.kind, e.span)),
        },
{
    if input.fields.len() == 0 {
        return Err(
            CompileError {
                span: input.ident_span,
                kind: ErrorKind::Schema(SchemaError::EmptyFieldList),
            },
        );
    }
    let record_validator = match InvariantAttribute::new(&input.attrs) {
        Ok(Some(a)) => Some(a.into_expression()),
        Ok(None) => None,
        Err(e) => {
            return Err(e);
        },
    };
    let n = input.fields.len();
    let mut fields: Vec<FieldSchema> = Vec::new();
    let mut i: usize = 0;
    while i < n
        invariant
            input.wf(),
            n == input.fields.len(),
            n > 0,
            i <= n,
            fields.len() == i,
            attr_parse_spec(input.attrs@) == Ok::<Option<ExprModel>, (ErrorKind, SourceSpan)>(
                opt_expr_model(record_validator),
            ),
            forall|k: int|
                0 <= k < i ==> {
                    &&& (#[trigger] fields@[k]).name@ == input.fields@[k].name@
                    &&& fields@[k].ty@ == input.fields@[k].ty@
                },
            forall|k: int|
                0 <= k < i ==> #[trigger] attr_parse_spec(input.fields@[k].attrs@) == Ok::<
                    Option<ExprModel>,
                    (ErrorKind, SourceSpan),
                >(opt_expr_model(fields@[k].validator)),
        decreases n - i,
    {
        assert(input.fields@[i as int].wf());
        let validator = match InvariantAttribute::new(&input.fields[i].attrs) {
            Ok(Some(a)) => Some(a.into_expression()),
            Ok(None) => None,
            Err(e) => {
                proof {
                    lemma_first_field_error(
                        input.fields@,
                        0,
                        i as int,
                        (e.kind, e.span),
                    );
                }
                return Err(e);
            },
        };
        let name = copy_chars(&input.fields[i].name);
        let ty = copy_chars(&input.fields[i].ty);
        fields.push(FieldSchema { name, ty, validator });
        i += 1;
    }
    proof {
        lemma_no_field_error(input.fields@, 0);
    }
    Ok(
        RecordSchema {
            name: input.ident,
            name_span: input.ident_span,
            generics: input.generics,
            where_clause: input.where_clause,
            fields,
            record_validator,
        },
    )
}

} // verus!
