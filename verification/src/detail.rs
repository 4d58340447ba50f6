//! The normalized record description the synthesizer works on, and the check
//! that the annotated type is a record at all.

use vstd::prelude::*;

use crate::error::{CompileError, ErrorKind, SchemaError, SourceSpan};
use crate::validation::SourceAttribute;

verus! {

/// Kinds of generic parameters.
#[derive(Clone, Copy, PartialEq, Eq, Structural, Debug)]
pub enum GenericParamKind {
    Lifetime,
    Type,
    Const,
}

/// One generic parameter of the record type: its kind, its identifier and the
/// raw text of its bounds (empty when unbounded).
pub struct GenericParam {
    pub kind: GenericParamKind,
    pub ident: Vec<char>,
    pub bounds: Vec<char>,
}

/// One field as the collaborator extracted it: name, declared type text, and
/// the attributes found on it.
pub struct RawField {
    pub name: Vec<char>,
    pub ty: Vec<char>,
    pub attrs: Vec<SourceAttribute>,
}

impl RawField {
    pub open spec fn wf(self) -> bool {
        forall|k: int| 0 <= k < self.attrs.len() ==> (#[trigger] self.attrs@[k]).wf()
    }
}

/// The body of an annotated type declaration.
pub enum TypeDefData {
    /// a record with named fields
    RecordFields(Vec<RawField>),
    /// a sum type; the span is that of its introducing keyword
    SumType(SourceSpan),
    /// an untagged overlay; the span is that of its introducing keyword
    Untagged(SourceSpan),
}

/// An annotated type declaration, before the record check.
pub struct TypeDeclaration {
    pub ident: Vec<char>,
    pub ident_span: SourceSpan,
    pub generics: Vec<GenericParam>,
    pub where_clause: Vec<char>,
    pub attrs: Vec<SourceAttribute>,
    pub data: TypeDefData,
}

impl TypeDeclaration {
    pub open spec fn wf(self) -> bool {
        &&& forall|k: int| 0 <= k < self.attrs.len() ==> (#[trigger] self.attrs@[k]).wf()
        &&& match self.data {
            TypeDefData::RecordFields(fields) => forall|i: int|
                0 <= i < fields.len() ==> (#[trigger] fields@[i]).wf(),
            _ => true,
        }
    }
}

/// A declaration known to be a record with named fields: what the synthesizer
/// consumes.
pub struct StructDeriveInput {
    pub ident: Vec<char>,
    pub ident_span: SourceSpan,
    pub generics: Vec<GenericParam>,
    pub where_clause: Vec<char>,
    pub attrs: Vec<SourceAttribute>,
    pub fields: Vec<RawField>,
}

impl StructDeriveInput {
    pub open spec fn wf(self) -> bool {
        &&& forall|k: int| 0 <= k < self.attrs.len() ==> (#[trigger] self.attrs@[k]).wf()
        &&& forall|i: int| 0 <= i < self.fields.len() ==> (#[trigger] self.fields@[i]).wf()
    }

    /// Narrows a declaration to a record; a sum type or an untagged overlay
    /// is rejected with `NotARecord`, attributed to its introducing keyword.
    pub fn from_declaration(decl: TypeDeclaration) -> (r: Result<StructDeriveInput, CompileError>)
        ensures
            match r {
                Ok(s) => {
                    &&& decl.data matches TypeDefData::RecordFields(fields) && s.fields == fields
                    &&& s.ident == decl.ident
                    &&& s.ident_span == decl.ident_span
                    &&& s.generics == decl.generics
                    &&& s.where_clause == decl.where_clause
                    &&& s.attrs == decl.attrs
                },
                Err(e) => {
                    &&& !(decl.data is RecordFields)
                    &&& e.kind == ErrorKind::Schema(SchemaError::NotARecord)
                    &&& match decl.data {
                        TypeDefData::RecordFields(_) => false,
                        TypeDefData::SumType(sp) => e.span == sp,
                        TypeDefData::Untagged(sp) => e.span == sp,
                    }
                },
            },
            decl.wf() && r is Ok ==> r->Ok_0.wf(),
    {
        match decl.data {
            TypeDefData::RecordFields(fields) => Ok(
                StructDeriveInput {
                    ident: decl.ident,
                    ident_span: decl.ident_span,
                    generics: decl.generics,
                    where_clause: decl.where_clause,
                    attrs: decl.attrs,
                    fields,
                },
            ),
            TypeDefData::SumType(sp) => Err(
                CompileError { span: sp, kind: ErrorKind::Schema(SchemaError::NotARecord) },
            ),
            TypeDefData::Untagged(sp) => Err(
                CompileError { span: sp, kind: ErrorKind::Schema(SchemaError::NotARecord) },
            ),
        }
    }
}

} // verus!
