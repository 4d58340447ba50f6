//! Error taxonomy for generation-time failures. Every error is attributed to a
//! span: a half-open range of character offsets into the source the schema was
//! extracted from.

use vstd::prelude::*;

verus! {

/// Range of character offsets (`start..end`) an error is attributed to.
#[derive(Clone, Copy, PartialEq, Eq, Structural, Debug)]
pub struct SourceSpan {
    pub start: usize,
    pub end: usize,
}

impl SourceSpan {
    pub open spec fn wf(self) -> bool {
        self.start <= self.end
    }

    pub fn new(start: usize, end: usize) -> (s: SourceSpan)
        requires
            start <= end,
        ensures
            s == (SourceSpan { start, end }),
    {
        SourceSpan { start, end }
    }
}

/// Faults in the record description itself: these make staged-builder
/// synthesis impossible for the whole record.
#[derive(Clone, Copy, PartialEq, Eq, Structural, Debug)]
pub enum SchemaError {
    /// the record declares no fields, so there is no terminal state to reach
    EmptyFieldList,
    /// more fields than the state-index encoding can represent
    FieldCountExceedsRange,
    /// the annotated type is not a record-like type (a sum type or an
    /// untagged overlay cannot be built field by field)
    NotARecord,
}

/// The reserved identifiers that a validation predicate body may not mention,
/// because the generated materialize operation binds them for its own use.
#[derive(Clone, Copy, PartialEq, Eq, Structural, Debug)]
pub enum ReservedWord {
    /// the receiver-self identifier
    SelfValue,
    /// the identifier the materialize operation binds the finished record to
    FinishedValue,
}

/// Faults in a validation attribute.
#[derive(Clone, Copy, PartialEq, Eq, Structural, Debug)]
pub enum AttributeError {
    /// a second validation attribute on the same item
    Duplicate,
    /// the attribute carries no expression at all
    MissingExpression,
    /// the expression is neither a function path nor an inline predicate
    MalformedExpression,
    /// an inline predicate with a parameter count other than one
    WrongArity,
    /// an inline predicate marked asynchronous
    AsyncNotAllowed,
    /// an inline predicate that captures by move
    CaptureNotAllowed,
    /// the predicate body mentions a reserved identifier
    ReservedIdentifier(ReservedWord),
}

/// Every generation-time error is one of the two families.
#[derive(Clone, Copy, PartialEq, Eq, Structural, Debug)]
pub enum ErrorKind {
    Schema(SchemaError),
    Attribute(AttributeError),
}

/// What a diagnostic for the host toolchain says for each error kind.
pub open spec fn message_of(kind: ErrorKind) -> Seq<char> {
    match kind {
        ErrorKind::Schema(SchemaError::EmptyFieldList) => {
            "QuickBuilder: not possible to derive on struct without fields"@
        },
        ErrorKind::Schema(SchemaError::FieldCountExceedsRange) => {
            "QuickBuilder: too many fields in structure"@
        },
        ErrorKind::Schema(SchemaError::NotARecord) => {
            "Expected struct: QuickBuilder can only be derived on structs"@
        },
        ErrorKind::Attribute(AttributeError::Duplicate) => {
            "only one attribute of this kind allowed per item"@
        },
        ErrorKind::Attribute(AttributeError::MissingExpression) => {
            "attribute requires closure or function name for validation in braces"@
        },
        ErrorKind::Attribute(AttributeError::MalformedExpression) => {
            "attribute must have form #[invariant(expression)], where expression is a function name or closure"@
        },
        ErrorKind::Attribute(AttributeError::WrongArity) => {
            "validation closure must have exactly one argument"@
        },
        ErrorKind::Attribute(AttributeError::AsyncNotAllowed) => {
            "async in validation closure not allowed"@
        },
        ErrorKind::Attribute(AttributeError::CaptureNotAllowed) => {
            "move capture in validation closure not allowed"@
        },
        ErrorKind::Attribute(AttributeError::ReservedIdentifier(ReservedWord::SelfValue)) => {
            "self keyword not allowed in validation closure"@
        },
        ErrorKind::Attribute(AttributeError::ReservedIdentifier(ReservedWord::FinishedValue)) => {
            "identifier finished is reserved and may not be used in validation closure"@
        },
    }
}

/// A generation-time error: what went wrong and where. No partial artifact is
/// ever produced alongside one of these.
#[derive(Clone, Copy, PartialEq, Eq, Structural, Debug)]
pub struct CompileError {
    pub span: SourceSpan,
    pub kind: ErrorKind,
}

impl CompileError {
    /// Attributes `kind` to an explicitly chosen span.
    pub fn new(span: SourceSpan, kind: ErrorKind) -> (e: CompileError)
        ensures
            e == (CompileError { span, kind }),
    {
        CompileError { span, kind }
    }

    /// Attributes `kind` to the span of a source construct; `span` is the
    /// span of that construct.
    pub fn new_spanned(span: SourceSpan, kind: ErrorKind) -> (e: CompileError)
        ensures
            e == (CompileError { span, kind }),
    {
        CompileError { span, kind }
    }

    /// The diagnostic text for this error.
    pub fn message(&self) -> (m: &'static str)
        ensures
            m@ == message_of(self.kind),
    {
        match self.kind {
            ErrorKind::Schema(SchemaError::EmptyFieldList) => {
                "QuickBuilder: not possible to derive on struct without fields"
            },
            ErrorKind::Schema(SchemaError::FieldCountExceedsRange) => {
                "QuickBuilder: too many fields in structure"
            },
            ErrorKind::Schema(SchemaError::NotARecord) => {
                "Expected struct: QuickBuilder can only be derived on structs"
            },
            ErrorKind::Attribute(AttributeError::Duplicate) => {
                "only one attribute of this kind allowed per item"
            },
            ErrorKind::Attribute(AttributeError::MissingExpression) => {
                "attribute requires closure or function name for validation in braces"
            },
            ErrorKind::Attribute(AttributeError::MalformedExpression) => {
                "attribute must have form #[invariant(expression)], where expression is a function name or closure"
            },
            ErrorKind::Attribute(AttributeError::WrongArity) => {
                "validation closure must have exactly one argument"
            },
            ErrorKind::Attribute(AttributeError::AsyncNotAllowed) => {
                "async in validation closure not allowed"
            },
            ErrorKind::Attribute(AttributeError::CaptureNotAllowed) => {
                "move capture in validation closure not allowed"
            },
            ErrorKind::Attribute(AttributeError::ReservedIdentifier(ReservedWord::SelfValue)) => {
                "self keyword not allowed in validation closure"
            },
            ErrorKind::Attribute(
                AttributeError::ReservedIdentifier(ReservedWord::FinishedValue),
            ) => {
                "identifier finished is reserved and may not be used in validation closure"
            },
        }
    }
}

} // verus!
