//! The internal value container behind every builder state: one wrapped slot
//! per field, created fully unset and consumed all at once when the record is
//! reconstructed. This module computes its descriptor: its name and its
//! slots, aligned with the schema's fields.

use vstd::prelude::*;

use crate::error::CompileError;
use crate::schema::RecordSchema;
use crate::text::{copy_chars, push_all_chars, push_str_chars};

verus! {

/// Mathematical image of the container descriptor.
pub ghost struct BuilderStateModel {
    pub ident: Seq<char>,
    pub field_names: Seq<Seq<char>>,
    pub field_types: Seq<Seq<char>>,
}

/// Descriptor of the partial-value container shared by all builder states of
/// one record: its type name and one slot per field, in declaration order.
/// Every slot starts unset; the transition for field `i` fills slot `i`; the
/// materialize operation consumes all slots at once.
pub struct BuilderState {
    ident: Vec<char>,
    field_names: Vec<Vec<char>>,
    field_types: Vec<Vec<char>>,
}

impl View for BuilderState {
    type V = BuilderStateModel;

    closed spec fn view(&self) -> BuilderStateModel {
        BuilderStateModel {
            ident: self.ident@,
            field_names: self.field_names.deep_view(),
            field_types: self.field_types.deep_view(),
        }
    }
}

impl BuilderState {
    /// The container's type name.
    pub fn ident(&self) -> (r: &Vec<char>)
        ensures
            r@ == self@.ident,
    {
        &self.ident
    }

    /// The slot names, aligned with the schema's fields.
    pub fn field_names(&self) -> (r: &Vec<Vec<char>>)
        ensures
            r.deep_view() == self@.field_names,
    {
        &self.field_names
    }

    /// The slot types, aligned with the schema's fields.
    pub fn field_types(&self) -> (r: &Vec<Vec<char>>)
        ensures
            r.deep_view() == self@.field_types,
    {
        &self.field_types
    }
}

/// How the container descriptor reflects the schema: its name is the record's
/// name fenced off with a reserved prefix and suffix, and its slots carry the
/// schema's field names and types unchanged, in order.
pub open spec fn state_matches_schema(m: BuilderStateModel, sch: RecordSchema) -> bool {
    &&& m.ident == "__"@ + sch.name@ + "BuilderState"@
    &&& m.field_names.len() == sch.fields.len()
    &&& m.field_types.len() == sch.fields.len()
    &&& forall|i: int|
        0 <= i < sch.fields.len() ==> #[trigger] m.field_names[i] == sch.fields@[i].name@
            && m.field_types[i] == sch.fields@[i].ty@
}

/// Computes the container descriptor for a schema. This never fails; the
/// `Result` is the synthesis pipeline's uniform shape.
pub fn make_builder_state(input: &RecordSchema) -> (r: Result<BuilderState, CompileError>)
    ensures
        r is Ok,
        r matches Ok(st) ==> state_matches_schema(st@, *input),
{
    let mut ident: Vec<char> = Vec::new();
    push_str_chars(&mut ident, "__");
    push_all_chars(&mut ident, &input.name);
    push_str_chars(&mut ident, "BuilderState");
    let n = input.fields.len();
    let mut field_names: Vec<Vec<char>> = Vec::new();
    let mut field_types: Vec<Vec<char>> = Vec::new();
    let mut i: usize = 0;
    while i < n
        invariant
            n == input.fields.len(),
            i <= n,
            field_names.len() == i,
            field_types.len() == i,
            forall|k: int|
                0 <= k < i ==> #[trigger] field_names.deep_view()[k] == input.fields@[k].name@
                    && field_types.deep_view()[k] == input.fields@[k].ty@,
        decreases n - i,
    {
        let name = copy_chars(&input.fields[i].name);
        let ty = copy_chars(&input.fields[i].ty);
        let ghost names_prev = field_names.deep_view();
        let ghost types_prev = field_types.deep_view();
        field_names.push(name);
        field_types.push(ty);
        proof {
            crate::text::lemma_chars_deep_view(name);
            crate::text::lemma_chars_deep_view(ty);
            assert(field_names.deep_view() =~= names_prev.push(name@));
            assert(field_types.deep_view() =~= types_prev.push(ty@));
        }
        i += 1;
    }
    assert(ident@ =~= "__"@ + input.name@ + "BuilderState"@);
    let result = BuilderState { ident, field_names, field_types };
    assert(state_matches_schema(result@, *input));
    Ok(result)
}

} // verus!
