use quick_builder::error::{AttributeError, ErrorKind, ReservedWord, SourceSpan};
use quick_builder::validation::{
    AttributePayload, InvariantAttribute, InvariantExpression, SourceAttribute,
};

fn chars(s: &str) -> Vec<char> {
    s.chars().collect()
}

fn string_of(v: &[char]) -> String {
    v.iter().collect()
}

fn span(start: usize, end: usize) -> SourceSpan {
    SourceSpan { start, end }
}

/// An `invariant(payload)` attribute whose payload text starts at offset `at`.
fn invariant_attr(payload: &str, at: usize) -> SourceAttribute {
    let text = chars(payload);
    let sp = span(at, at + text.len());
    SourceAttribute { name: chars("invariant"), payload: AttributePayload::Arguments(text, sp), span: sp }
}

fn other_attr(name: &str) -> SourceAttribute {
    SourceAttribute { name: chars(name), payload: AttributePayload::Empty, span: span(0, 1) }
}

fn classify(payload: &str) -> Result<InvariantExpression, quick_builder::error::CompileError> {
    match InvariantAttribute::new(&vec![invariant_attr(payload, 10)]) {
        Ok(Some(a)) => Ok(a.into_expression()),
        Ok(None) => panic!("attribute not found"),
        Err(e) => Err(e),
    }
}

#[test]
fn function_path_is_classified_as_reference() {
    let expr = classify("checks::check_foo").unwrap();
    match expr {
        InvariantExpression::Path { segments, .. } => {
            assert_eq!(segments.len(), 2);
            assert_eq!(string_of(&segments[0]), "checks");
            assert_eq!(string_of(&segments[1]), "check_foo");
        },
        _ => panic!("expected a function reference"),
    }
}

#[test]
fn single_ident_path_and_leading_separator() {
    match classify("validation").unwrap() {
        InvariantExpression::Path { segments, span: sp } => {
            assert_eq!(segments.len(), 1);
            assert_eq!(string_of(&segments[0]), "validation");
            // payload starts at offset 10 and the path fills it
            assert_eq!(sp, span(10, 20));
        },
        _ => panic!("expected a function reference"),
    }
    match classify("  ::checks::check_foo  ").unwrap() {
        InvariantExpression::Path { segments, .. } => {
            assert_eq!(segments.len(), 2);
        },
        _ => panic!("expected a function reference"),
    }
}

#[test]
fn inline_predicate_is_classified_with_parameter_and_body() {
    match classify("|this| *this > 0.").unwrap() {
        InvariantExpression::Closure { parameter, body, body_span } => {
            assert_eq!(string_of(&parameter), "this");
            assert_eq!(string_of(&body), "*this > 0.");
            // "|this| " is 7 characters; payload starts at offset 10
            assert_eq!(body_span, span(17, 27));
        },
        _ => panic!("expected an inline predicate"),
    }
}

#[test]
fn typed_parameter_keeps_its_name() {
    match classify("|w: &usize| *w > 0").unwrap() {
        InvariantExpression::Closure { parameter, .. } => {
            assert_eq!(string_of(&parameter), "w");
        },
        _ => panic!("expected an inline predicate"),
    }
}

#[test]
fn async_marking_is_rejected() {
    let e = classify("async |x| true").unwrap_err();
    assert_eq!(e.kind, ErrorKind::Attribute(AttributeError::AsyncNotAllowed));
    assert_eq!(e.message(), "async in validation closure not allowed");
    // the span covers the marker itself
    assert_eq!(e.span, span(10, 15));
}

#[test]
fn move_capture_is_rejected() {
    let e = classify("move |x| true").unwrap_err();
    assert_eq!(e.kind, ErrorKind::Attribute(AttributeError::CaptureNotAllowed));
    assert_eq!(e.message(), "move capture in validation closure not allowed");
}

#[test]
fn wrong_arity_is_rejected() {
    let e = classify("|a, b| true").unwrap_err();
    assert_eq!(e.kind, ErrorKind::Attribute(AttributeError::WrongArity));
    assert_eq!(e.message(), "validation closure must have exactly one argument");
    let e = classify("|| true").unwrap_err();
    assert_eq!(e.kind, ErrorKind::Attribute(AttributeError::WrongArity));
}

#[test]
fn tuple_pattern_is_one_parameter() {
    assert!(classify("|(a, b)| a > b").is_ok());
}

#[test]
fn reserved_identifiers_are_rejected_in_bodies() {
    let e = classify("|x| x.v == self.v").unwrap_err();
    assert_eq!(
        e.kind,
        ErrorKind::Attribute(AttributeError::ReservedIdentifier(ReservedWord::SelfValue))
    );
    assert_eq!(e.message(), "self keyword not allowed in validation closure");

    let e = classify("|x| finished > *x").unwrap_err();
    assert_eq!(
        e.kind,
        ErrorKind::Attribute(AttributeError::ReservedIdentifier(ReservedWord::FinishedValue))
    );
    assert_eq!(
        e.message(),
        "identifier finished is reserved and may not be used in validation closure"
    );
}

#[test]
fn member_access_and_longer_paths_are_not_reserved_references() {
    // a member named like the reserved identifier is someone else's field
    assert!(classify("|x| x.finished").is_ok());
    // a longer path does not reference the bare identifier
    assert!(classify("|x| finished::check(x)").is_ok());
    assert!(classify("|x| checks::finished(x)").is_ok());
    // a string literal mentioning it is data
    assert!(classify("|x| x.name != \"self\"").is_ok());
}

#[test]
fn malformed_expressions_are_rejected() {
    let e = classify("123").unwrap_err();
    assert_eq!(e.kind, ErrorKind::Attribute(AttributeError::MalformedExpression));
    assert_eq!(
        e.message(),
        "attribute must have form #[invariant(expression)], where expression is a function name or closure"
    );
    // an inline predicate needs a body
    let e = classify("|x|   ").unwrap_err();
    assert_eq!(e.kind, ErrorKind::Attribute(AttributeError::MalformedExpression));
}

#[test]
fn bare_attribute_is_rejected() {
    let bare = SourceAttribute {
        name: chars("invariant"),
        payload: AttributePayload::Empty,
        span: span(3, 4),
    };
    let e = InvariantAttribute::new(&vec![bare]).unwrap_err();
    assert_eq!(e.kind, ErrorKind::Attribute(AttributeError::MissingExpression));
    assert_eq!(e.span, span(3, 4));
    assert_eq!(
        e.message(),
        "attribute requires closure or function name for validation in braces"
    );
}

#[test]
fn name_value_attribute_is_rejected() {
    let nv = SourceAttribute {
        name: chars("invariant"),
        payload: AttributePayload::NameValue,
        span: span(5, 9),
    };
    let e = InvariantAttribute::new(&vec![nv]).unwrap_err();
    assert_eq!(e.kind, ErrorKind::Attribute(AttributeError::MalformedExpression));
}

#[test]
fn absent_attribute_yields_none() {
    assert!(InvariantAttribute::new(&vec![]).unwrap().is_none());
    assert!(InvariantAttribute::new(&vec![other_attr("doc"), other_attr("getset")])
        .unwrap()
        .is_none());
}

#[test]
fn attribute_is_found_among_others() {
    let attrs = vec![other_attr("doc"), invariant_attr("|x| true", 42), other_attr("serde")];
    let found = InvariantAttribute::new(&attrs).unwrap().expect("attribute should be found");
    let sp = found.expression_span();
    // body "true" sits 4 characters into the payload
    assert_eq!(sp, span(46, 50));
}

#[test]
fn duplicate_attribute_is_rejected_with_second_occurrence() {
    let attrs = vec![invariant_attr("|x| true", 7), invariant_attr("my_check", 90)];
    let e = InvariantAttribute::new(&attrs).unwrap_err();
    assert_eq!(e.kind, ErrorKind::Attribute(AttributeError::Duplicate));
    assert_eq!(e.message(), "only one attribute of this kind allowed per item");
    // attributed to the second occurrence
    assert_eq!(e.span, span(90, 98));
}

#[test]
fn duplicate_wins_over_malformed_payload() {
    // the first occurrence is malformed, but the duplicate is reported
    let attrs = vec![invariant_attr("123", 7), invariant_attr("|x| true", 90)];
    let e = InvariantAttribute::new(&attrs).unwrap_err();
    assert_eq!(e.kind, ErrorKind::Attribute(AttributeError::Duplicate));
}
