//! The validation-expression model. A validation attribute carries either the
//! dotted path of a named unary boolean predicate, or an inline single-argument
//! predicate. This module classifies the attribute's raw expression text,
//! enforces the predicate shape rules, and rejects predicate bodies that
//! mention an identifier the generated materialize operation reserves for
//! itself.

use vstd::prelude::*;

use crate::error::{AttributeError, CompileError, ErrorKind, ReservedWord, SourceSpan};
use crate::scan::{find_pipe, find_pipe_spec, ident_end, ident_end_spec, lemma_find_pipe_stops,
    lemma_ident_end_bounds, lemma_skip_ws_below, lemma_skip_ws_bounds, lemma_skip_ws_stops,
    lemma_trim_end_above, param_name_end, param_name_end_spec, params_count, params_count_spec,
    reserved_scan, reserved_scan_spec, skip_ws, skip_ws_spec, trim_end, trim_end_spec};
use crate::text::{chars_eq_str, copy_range, is_ident_start, is_ident_start_char,
    lemma_chars_deep_view};

verus! {

/// What stands between the parentheses of a validation attribute, as the
/// schema collaborator hands it over.
pub enum AttributePayload {
    /// the attribute was given bare, with no parentheses at all
    Empty,
    /// the text between the parentheses, and the span it occupies
    Arguments(Vec<char>, SourceSpan),
    /// the attribute was given in name-value form
    NameValue,
}

/// One attribute on a record or on a field: its name and its payload.
pub struct SourceAttribute {
    pub name: Vec<char>,
    pub payload: AttributePayload,
    pub span: SourceSpan,
}

/// The payload span must cover exactly the payload text, character for
/// character, so that positions inside the text translate to source offsets.
pub open spec fn payload_wf(text: Seq<char>, sp: SourceSpan) -> bool {
    sp.start + text.len() == sp.end && sp.end <= usize::MAX
}

impl SourceAttribute {
    pub open spec fn wf(self) -> bool {
        match self.payload {
            AttributePayload::Arguments(text, sp) => payload_wf(text@, sp),
            _ => true,
        }
    }
}

/// Mathematical image of a classified validation expression.
pub ghost enum ExprModel {
    Path { segments: Seq<Seq<char>>, span: SourceSpan },
    Closure { parameter: Seq<char>, body: Seq<char>, body_span: SourceSpan },
}

/// A classified validation expression: either a reference to a named unary
/// predicate (a dotted path) or an inline single-argument predicate, whose
/// body is opaque data carried through to the finalization generator.
#[derive(Debug)]
pub enum InvariantExpression {
    /// reference to a predicate defined elsewhere, as path segments
    Path { segments: Vec<Vec<char>>, span: SourceSpan },
    /// inline predicate: its parameter name and its body text
    Closure { parameter: Vec<char>, body: Vec<char>, body_span: SourceSpan },
}

impl View for InvariantExpression {
    type V = ExprModel;

    open spec fn view(&self) -> ExprModel {
        match self {
            InvariantExpression::Path { segments, span } => ExprModel::Path {
                segments: segments.deep_view(),
                span: *span,
            },
            InvariantExpression::Closure { parameter, body, body_span } => ExprModel::Closure {
                parameter: parameter@,
                body: body@,
                body_span: *body_span,
            },
        }
    }
}

/// The span of a whole expression: the path for a path reference, the
/// predicate body for an inline predicate.
pub open spec fn model_full_span(m: ExprModel) -> SourceSpan {
    match m {
        ExprModel::Path { span, .. } => span,
        ExprModel::Closure { body_span, .. } => body_span,
    }
}

impl InvariantExpression {
    pub fn full_span(&self) -> (s: SourceSpan)
        ensures
            s == model_full_span(self@),
    {
        match self {
            InvariantExpression::Path { span, .. } => *span,
            InvariantExpression::Closure { body_span, .. } => *body_span,
        }
    }

    /// A fresh copy with the same model.
    pub fn duplicate(&self) -> (r: InvariantExpression)
        ensures
            r@ == self@,
    {
        match self {
            InvariantExpression::Path { segments, span } => {
                let mut segs: Vec<Vec<char>> = Vec::new();
                let n = segments.len();
                let mut i: usize = 0;
                while i < n
                    invariant
                        n == segments.len(),
                        i <= n,
                        segs.len() == i,
                        forall|k: int| 0 <= k < i ==> segs.deep_view()[k] == segments.deep_view()[k],
                    decreases n - i,
                {
                    let seg = copy_range(&segments[i], 0, segments[i].len());
                    segs.push(seg);
                    proof {
                        lemma_chars_deep_view(seg);
                        lemma_chars_deep_view(segments@[i as int]);
                        assert(seg@ =~= segments@[i as int]@);
                    }
                    i += 1;
                }
                assert(segs.deep_view() =~= segments.deep_view());
                InvariantExpression::Path { segments: segs, span: *span }
            },
            InvariantExpression::Closure { parameter, body, body_span } => {
                let p2 = copy_range(parameter, 0, parameter.len());
                let b2 = copy_range(body, 0, body.len());
                assert(p2@ =~= parameter@);
                assert(b2@ =~= body@);
                InvariantExpression::Closure { parameter: p2, body: b2, body_span: *body_span }
            },
        }
    }
}

// ---------------------------------------------------------------------------
// the dotted-path shape
// ---------------------------------------------------------------------------

/// Result of reading a dotted path: its segments and the character range it
/// occupies.
pub ghost struct PathParse {
    pub segments: Seq<Seq<char>>,
    pub start: int,
    pub end: int,
}

/// Is there a `::` separator at position `j`?
pub open spec fn path_sep_at_spec(s: Seq<char>, j: int) -> bool {
    j + 1 < s.len() && s[j] == ':' && s[j + 1] == ':'
}

/// Having read a segment that ends at `end_prev`, reads `::`-separated
/// further segments until only trailing whitespace remains. `None` when the
/// text does not continue as a path.
pub open spec fn path_rest_spec(s: Seq<char>, i: int, segs: Seq<Seq<char>>, end_prev: int) -> Option<
    (Seq<Seq<char>>, int),
>
    decreases s.len() - i,
    when 0 <= i <= s.len()
    via path_rest_spec_decreases
{
    let j = skip_ws_spec(s, i);
    if j == s.len() {
        Some((segs, end_prev))
    } else if path_sep_at_spec(s, j) {
        let k = skip_ws_spec(s, j + 2);
        if k < s.len() && is_ident_start_char(s[k]) {
            let e = ident_end_spec(s, k);
            path_rest_spec(s, e, segs.push(s.subrange(k, e)), e)
        } else {
            None
        }
    } else {
        None
    }
}

#[via_fn]
proof fn path_rest_spec_decreases(s: Seq<char>, i: int, segs: Seq<Seq<char>>, end_prev: int) {
    lemma_skip_ws_bounds(s, i);
    let j = skip_ws_spec(s, i);
    if j < s.len() && path_sep_at_spec(s, j) {
        lemma_skip_ws_bounds(s, j + 2);
        let k = skip_ws_spec(s, j + 2);
        if k < s.len() && is_ident_start_char(s[k]) {
            lemma_ident_end_bounds(s, k);
        }
    }
}

/// Reads the whole text as a dotted path: optional leading `::`, then one or
/// more identifier segments separated by `::`, then only whitespace.
pub open spec fn path_parse_spec(s: Seq<char>) -> Option<PathParse> {
    let j0 = skip_ws_spec(s, 0);
    let st = if path_sep_at_spec(s, j0) {
        skip_ws_spec(s, j0 + 2)
    } else {
        j0
    };
    if st < s.len() && is_ident_start_char(s[st]) {
        let e = ident_end_spec(s, st);
        match path_rest_spec(s, e, seq![s.subrange(st, e)], e) {
            Some((segs, end)) => Some(PathParse { segments: segs, start: j0, end }),
            None => None,
        }
    } else {
        None
    }
}

/// Executable `::`-separator test.
fn path_sep_at(s: &Vec<char>, j: usize) -> (r: bool)
    requires
        j <= s.len(),
    ensures
        r == path_sep_at_spec(s@, j as int),
{
    if j < s.len() && s[j] == ':' {
        j + 1 < s.len() && s[j + 1] == ':'
    } else {
        false
    }
}

fn scan_path_rest(s: &Vec<char>, i: usize, segs: Vec<Vec<char>>, end_prev: usize) -> (r: Option<
    (Vec<Vec<char>>, usize),
>)
    requires
        i <= s.len(),
        end_prev <= s.len(),
    ensures
        match r {
            Some((rsegs, end)) => path_rest_spec(s@, i as int, segs.deep_view(), end_prev as int)
                == Some((rsegs.deep_view(), end as int)) && end <= s.len(),
            None => path_rest_spec(s@, i as int, segs.deep_view(), end_prev as int) is None,
        },
    decreases s.len() - i,
{
    let j = skip_ws(s, i);
    if j == s.len() {
        Some((segs, end_prev))
    } else if path_sep_at(s, j) {
        let k = skip_ws(s, j + 2);
        if k < s.len() && is_ident_start(s[k]) {
            let e = ident_end(s, k);
            assert(e > k) by {
                assert(crate::text::is_ident_continue_char(s@[k as int]));
                lemma_ident_end_bounds(s@, k as int + 1);
            }
            let seg = copy_range(s, k, e);
            let ghost old_model = segs.deep_view();
            let mut segs2 = segs;
            segs2.push(seg);
            proof {
                lemma_chars_deep_view(seg);
                assert(segs2.deep_view() =~= old_model.push(s@.subrange(k as int, e as int)));
            }
            scan_path_rest(s, e, segs2, e)
        } else {
            None
        }
    } else {
        None
    }
}

/// Executable path reader; agrees with `path_parse_spec`.
pub fn scan_path(s: &Vec<char>) -> (r: Option<(Vec<Vec<char>>, usize, usize)>)
    ensures
        match r {
            Some((segs, st, en)) => path_parse_spec(s@) == Some(
                PathParse { segments: segs.deep_view(), start: st as int, end: en as int },
            ) && st <= s.len() && en <= s.len(),
            None => path_parse_spec(s@) is None,
        },
{
    let j0 = skip_ws(s, 0);
    let st = if path_sep_at(s, j0) {
        skip_ws(s, j0 + 2)
    } else {
        j0
    };
    if st < s.len() && is_ident_start(s[st]) {
        let e = ident_end(s, st);
        let first = copy_range(s, st, e);
        let mut segs: Vec<Vec<char>> = Vec::new();
        segs.push(first);
        proof {
            lemma_chars_deep_view(first);
            assert(segs.deep_view() =~= seq![s@.subrange(st as int, e as int)]);
        }
        match scan_path_rest(s, e, segs, e) {
            Some((rsegs, end)) => Some((rsegs, j0, end)),
            None => None,
        }
    } else {
        None
    }
}

// ---------------------------------------------------------------------------
// the inline-predicate shape
// ---------------------------------------------------------------------------

/// Result of reading the text as an inline predicate, before the shape rules
/// are enforced.
pub ghost struct ClosureParse {
    /// the predicate is marked asynchronous, and where the marker starts
    pub is_async: bool,
    pub async_start: int,
    /// the predicate captures by move, and where the marker starts
    pub is_move: bool,
    pub move_start: int,
    /// how many parameters the parameter list declares
    pub n_params: int,
    /// the first parameter's name: its pattern text up to any type annotation
    pub param_name: Seq<char>,
    /// the body text, trimmed, and the character range it occupies
    pub body: Seq<char>,
    pub body_start: int,
    pub body_end: int,
    /// the whole expression, trimmed, for diagnostics about its shape
    pub expr_start: int,
    pub expr_end: int,
}

/// Does the identifier run starting at `j` spell exactly `w`?
pub open spec fn keyword_at_spec(s: Seq<char>, j: int, w: Seq<char>) -> bool {
    j < s.len() && is_ident_start_char(s[j]) && s.subrange(j, ident_end_spec(s, j)) == w
}

/// Reads the text as an inline predicate:
/// `ws* ["async"] ws* ["move"] ws* "|" params "|" body`, where the body must
/// show at least one significant character. `None` when the text has no such
/// shape.
pub open spec fn closure_parse_spec(s: Seq<char>) -> Option<ClosureParse> {
    let j0 = skip_ws_spec(s, 0);
    let is_async = keyword_at_spec(s, j0, "async"@);
    let j1 = if is_async {
        skip_ws_spec(s, ident_end_spec(s, j0))
    } else {
        j0
    };
    let is_move = keyword_at_spec(s, j1, "move"@);
    let j2 = if is_move {
        skip_ws_spec(s, ident_end_spec(s, j1))
    } else {
        j1
    };
    if j2 < s.len() && s[j2] == '|' {
        let p = find_pipe_spec(s, j2 + 1);
        if p < s.len() {
            let bstart = skip_ws_spec(s, p + 1);
            if bstart < s.len() {
                let bend = trim_end_spec(s, p + 1, s.len() as int);
                let ps = skip_ws_spec(s, j2 + 1);
                let pe = trim_end_spec(s, ps, param_name_end_spec(s, ps, p, 0));
                Some(
                    ClosureParse {
                        is_async,
                        async_start: j0,
                        is_move,
                        move_start: j1,
                        n_params: params_count_spec(s, j2 + 1, p, 0, false),
                        param_name: s.subrange(ps, pe),
                        body: s.subrange(bstart, bend),
                        body_start: bstart,
                        body_end: bend,
                        expr_start: j0,
                        expr_end: trim_end_spec(s, 0, s.len() as int),
                    },
                )
            } else {
                None
            }
        } else {
            None
        }
    } else {
        None
    }
}

/// Executable keyword test.
fn keyword_at(s: &Vec<char>, j: usize, w: &str) -> (r: bool)
    requires
        j <= s.len(),
    ensures
        r == keyword_at_spec(s@, j as int, w@),
{
    if j < s.len() && is_ident_start(s[j]) {
        let e = ident_end(s, j);
        let run = copy_range(s, j, e);
        chars_eq_str(&run, w)
    } else {
        false
    }
}

/// Executable image of `ClosureParse`.
struct ClosureScan {
    is_async: bool,
    async_start: usize,
    is_move: bool,
    move_start: usize,
    n_params: usize,
    param_name: Vec<char>,
    body: Vec<char>,
    body_start: usize,
    body_end: usize,
    expr_start: usize,
    expr_end: usize,
}

impl ClosureScan {
    spec fn models(&self, cp: ClosureParse) -> bool {
        &&& self.is_async == cp.is_async
        &&& self.async_start == cp.async_start
        &&& self.is_move == cp.is_move
        &&& self.move_start == cp.move_start
        &&& self.n_params == cp.n_params
        &&& self.param_name@ == cp.param_name
        &&& self.body@ == cp.body
        &&& self.body_start == cp.body_start
        &&& self.body_end == cp.body_end
        &&& self.expr_start == cp.expr_start
        &&& self.expr_end == cp.expr_end
    }
}

/// Executable inline-predicate reader; agrees with `closure_parse_spec`.
fn scan_closure(s: &Vec<char>) -> (r: Option<ClosureScan>)
    ensures
        match r {
            Some(cs) => closure_parse_spec(s@) matches Some(cp) && cs.models(cp),
            None => closure_parse_spec(s@) is None,
        },
        r matches Some(cs) ==> {
            &&& cs.is_async ==> cs.async_start + 5 <= s.len()
            &&& cs.is_move ==> cs.move_start + 4 <= s.len()
            &&& cs.expr_start <= cs.expr_end <= s.len()
            &&& cs.body_start <= cs.body_end <= s.len()
            &&& cs.body@.len() == cs.body_end - cs.body_start
        },
{
    let j0 = skip_ws(s, 0);
    let is_async = keyword_at(s, j0, "async");
    let j1 = if is_async {
        let e = ident_end(s, j0);
        assert(e == j0 + 5) by {
            reveal_strlit("async");
            assert(s@.subrange(j0 as int, e as int).len() == "async"@.len());
        }
        skip_ws(s, e)
    } else {
        j0
    };
    let is_move = keyword_at(s, j1, "move");
    let j2 = if is_move {
        let e = ident_end(s, j1);
        assert(e == j1 + 4) by {
            reveal_strlit("move");
            assert(s@.subrange(j1 as int, e as int).len() == "move"@.len());
        }
        skip_ws(s, e)
    } else {
        j1
    };
    if j2 < s.len() && s[j2] == '|' {
        proof {
            lemma_skip_ws_stops(s@, 0);
        }
        let p = find_pipe(s, j2 + 1);
        if p < s.len() {
            proof {
                lemma_find_pipe_stops(s@, j2 as int + 1);
            }
            let bstart = skip_ws(s, p + 1);
            if bstart < s.len() {
                let bend = trim_end(s, p + 1, s.len());
                proof {
                    lemma_skip_ws_stops(s@, p as int + 1);
                    lemma_trim_end_above(s@, p as int + 1, s.len() as int, bstart as int);
                    lemma_trim_end_above(s@, 0, s.len() as int, j0 as int);
                }
                let ps = skip_ws(s, j2 + 1);
                proof {
                    lemma_skip_ws_below(s@, j2 as int + 1, p as int);
                }
                let pe0 = param_name_end(s, ps, p, 0);
                let pe = trim_end(s, ps, pe0);
                let n_params = params_count(s, j2 + 1, p, 0, false);
                Some(
                    ClosureScan {
                        is_async,
                        async_start: j0,
                        is_move,
                        move_start: j1,
                        n_params,
                        param_name: copy_range(s, ps, pe),
                        body: copy_range(s, bstart, bend),
                        body_start: bstart,
                        body_end: bend,
                        expr_start: j0,
                        expr_end: trim_end(s, 0, s.len()),
                    },
                )
            } else {
                None
            }
        } else {
            None
        }
    } else {
        None
    }
}

// ---------------------------------------------------------------------------
// classification
// ---------------------------------------------------------------------------

/// Positions inside the payload text, translated to source offsets.
pub open spec fn abs_span(sp: SourceSpan, a: int, b: int) -> SourceSpan {
    SourceSpan { start: (sp.start + a) as usize, end: (sp.start + b) as usize }
}

/// How the raw expression text of a validation attribute is classified.
///
/// A text that reads as a dotted path with at least one segment is a
/// reference to a named predicate. Otherwise it must read as an inline
/// single-argument predicate: an asynchronous marking, a capture-by-move
/// marking, a parameter count other than one, or a reserved identifier in the
/// body each reject it; a text of neither shape is malformed.
pub open spec fn classify_spec(s: Seq<char>, sp: SourceSpan) -> Result<
    ExprModel,
    (ErrorKind, SourceSpan),
> {
    if let Some(pp) = path_parse_spec(s) {
        Ok(ExprModel::Path { segments: pp.segments, span: abs_span(sp, pp.start, pp.end) })
    } else {
        match closure_parse_spec(s) {
            None => Err((ErrorKind::Attribute(AttributeError::MalformedExpression), sp)),
            Some(cp) => {
                if cp.is_async {
                    Err(
                        (
                            ErrorKind::Attribute(AttributeError::AsyncNotAllowed),
                            abs_span(sp, cp.async_start, cp.async_start + 5),
                        ),
                    )
                } else if cp.is_move {
                    Err(
                        (
                            ErrorKind::Attribute(AttributeError::CaptureNotAllowed),
                            abs_span(sp, cp.move_start, cp.move_start + 4),
                        ),
                    )
                } else if cp.n_params != 1 {
                    Err(
                        (
                            ErrorKind::Attribute(AttributeError::WrongArity),
                            abs_span(sp, cp.expr_start, cp.expr_end),
                        ),
                    )
                } else {
                    match reserved_scan_spec(cp.body, 0, ' ') {
                        Some((w, a, b)) => Err(
                            (
                                ErrorKind::Attribute(AttributeError::ReservedIdentifier(w)),
                                abs_span(sp, cp.body_start + a, cp.body_start + b),
                            ),
                        ),
                        None => Ok(
                            ExprModel::Closure {
                                parameter: cp.param_name,
                                body: cp.body,
                                body_span: abs_span(sp, cp.body_start, cp.body_end),
                            },
                        ),
                    }
                }
            },
        }
    }
}

/// The model of a classification result.
pub open spec fn classify_result_model(r: Result<InvariantExpression, CompileError>) -> Result<
    ExprModel,
    (ErrorKind, SourceSpan),
> {
    match r {
        Ok(e) => Ok(e@),
        Err(c) => Err((c.kind, c.span)),
    }
}

/// Classifies the raw expression text of a validation attribute, with `sp`
/// the source span of that text.
pub fn classify_expression(text: &Vec<char>, sp: SourceSpan) -> (r: Result<
    InvariantExpression,
    CompileError,
>)
    requires
        payload_wf(text@, sp),
    ensures
        classify_result_model(r) == classify_spec(text@, sp),
{
    match scan_path(text) {
        Some((segs, st, en)) => {
            let span = SourceSpan { start: sp.start + st, end: sp.start + en };
            Ok(InvariantExpression::Path { segments: segs, span })
        },
        None => {
            match scan_closure(text) {
                None => Err(
                    CompileError {
                        span: sp,
                        kind: ErrorKind::Attribute(AttributeError::MalformedExpression),
                    },
                ),
                Some(cs) => {
                    if cs.is_async {
                        Err(
                            CompileError {
                                span: SourceSpan {
                                    start: sp.start + cs.async_start,
                                    end: sp.start + cs.async_start + 5,
                                },
                                kind: ErrorKind::Attribute(AttributeError::AsyncNotAllowed),
                            },
                        )
                    } else if cs.is_move {
                        Err(
                            CompileError {
                                span: SourceSpan {
                                    start: sp.start + cs.move_start,
                                    end: sp.start + cs.move_start + 4,
                                },
                                kind: ErrorKind::Attribute(AttributeError::CaptureNotAllowed),
                            },
                        )
                    } else if cs.n_params != 1 {
                        Err(
                            CompileError {
                                span: SourceSpan {
                                    start: sp.start + cs.expr_start,
                                    end: sp.start + cs.expr_end,
                                },
                                kind: ErrorKind::Attribute(AttributeError::WrongArity),
                            },
                        )
                    } else {
                        match reserved_scan(&cs.body, 0, ' ') {
                            Some((w, a, b)) => Err(
                                CompileError {
                                    span: SourceSpan {
                                        start: sp.start + cs.body_start + a,
                                        end: sp.start + cs.body_start + b,
                                    },
                                    kind: ErrorKind::Attribute(
                                        AttributeError::ReservedIdentifier(w),
                                    ),
                                },
                            ),
                            None => {
                                let body_span = SourceSpan {
                                    start: sp.start + cs.body_start,
                                    end: sp.start + cs.body_end,
                                };
                                Ok(
                                    InvariantExpression::Closure {
                                        parameter: cs.param_name,
                                        body: cs.body,
                                        body_span,
                                    },
                                )
                            },
                        }
                    }
                },
            }
        },
    }
}

// ---------------------------------------------------------------------------
// the attribute fold
// ---------------------------------------------------------------------------

/// Is this a validation attribute? It is when it is named `invariant`,
/// whatever its payload form.
pub open spec fn is_invariant_attr(a: SourceAttribute) -> bool {
    a.name@ == "invariant"@
}

/// Index of the first validation attribute at or after `i`, or the list's
/// length.
pub open spec fn find_inv_spec(attrs: Seq<SourceAttribute>, i: int) -> int
    decreases attrs.len() - i,
    when 0 <= i <= attrs.len()
{
    if i < attrs.len() {
        if is_invariant_attr(attrs[i]) {
            i
        } else {
            find_inv_spec(attrs, i + 1)
        }
    } else {
        i
    }
}

/// What parsing an item's attribute list yields: no validation attribute, one
/// classified expression, or the error. At most one validation attribute is
/// permitted per item; on a second one the whole item is rejected, attributed
/// to that second occurrence, before any expression is classified.
pub open spec fn attr_parse_spec(attrs: Seq<SourceAttribute>) -> Result<
    Option<ExprModel>,
    (ErrorKind, SourceSpan),
> {
    let n = attrs.len() as int;
    let i1 = find_inv_spec(attrs, 0);
    if i1 == n {
        Ok(None)
    } else {
        let i2 = find_inv_spec(attrs, i1 + 1);
        if i2 != n {
            Err((ErrorKind::Attribute(AttributeError::Duplicate), attrs[i2].span))
        } else {
            match attrs[i1].payload {
                AttributePayload::Empty => Err(
                    (ErrorKind::Attribute(AttributeError::MissingExpression), attrs[i1].span),
                ),
                AttributePayload::NameValue => Err(
                    (ErrorKind::Attribute(AttributeError::MalformedExpression), attrs[i1].span),
                ),
                AttributePayload::Arguments(text, sp) => match classify_spec(text@, sp) {
                    Ok(m) => Ok(Some(m)),
                    Err(e) => Err(e),
                },
            }
        }
    }
}

fn find_invariant_attr(attributes: &Vec<SourceAttribute>, i: usize) -> (j: usize)
    requires
        i <= attributes.len(),
    ensures
        j == find_inv_spec(attributes@, i as int),
        i <= j <= attributes.len(),
    decreases attributes.len() - i,
{
    if i < attributes.len() {
        if chars_eq_str(&attributes[i].name, "invariant") {
            i
        } else {
            find_invariant_attr(attributes, i + 1)
        }
    } else {
        i
    }
}

/// A validation attribute found on an item, holding its classified
/// expression.
#[derive(Debug)]
pub struct InvariantAttribute {
    expression: InvariantExpression,
}

impl View for InvariantAttribute {
    type V = ExprModel;

    closed spec fn view(&self) -> ExprModel {
        self.expression@
    }
}

/// The model of an attribute-fold result.
pub open spec fn attr_result_model(r: Result<Option<InvariantAttribute>, CompileError>) -> Result<
    Option<ExprModel>,
    (ErrorKind, SourceSpan),
> {
    match r {
        Ok(None) => Ok(None),
        Ok(Some(a)) => Ok(Some(a@)),
        Err(c) => Err((c.kind, c.span)),
    }
}

impl InvariantAttribute {
    /// The classified expression.
    pub fn expression(&self) -> (e: &InvariantExpression)
        ensures
            e@ == self@,
    {
        &self.expression
    }

    /// The classified expression, by value.
    pub fn into_expression(self) -> (e: InvariantExpression)
        ensures
            e@ == self@,
    {
        self.expression
    }

    /// The span of the classified expression.
    pub fn expression_span(&self) -> (s: SourceSpan)
        ensures
            s == model_full_span(self@),
    {
        self.expression.full_span()
    }

    /// Folds an item's attribute list down to its zero-or-one validation
    /// attribute, classifying the expression; agrees with `attr_parse_spec`.
    pub fn new(attributes: &Vec<SourceAttribute>) -> (r: Result<
        Option<InvariantAttribute>,
        CompileError,
    >)
        requires
            forall|k: int| 0 <= k < attributes.len() ==> (#[trigger] attributes@[k]).wf(),
        ensures
            attr_result_model(r) == attr_parse_spec(attributes@),
    {
        let n = attributes.len();
        let i1 = find_invariant_attr(attributes, 0);
        if i1 == n {
            return Ok(None);
        }
        let i2 = find_invariant_attr(attributes, i1 + 1);
        if i2 != n {
            return Err(
                CompileError {
                    span: attributes[i2].span,
                    kind: ErrorKind::Attribute(AttributeError::Duplicate),
                },
            );
        }
        match &attributes[i1].payload {
            AttributePayload::Empty => Err(
                CompileError {
                    span: attributes[i1].span,
                    kind: ErrorKind::Attribute(AttributeError::MissingExpression),
                },
            ),
            AttributePayload::NameValue => Err(
                CompileError {
                    span: attributes[i1].span,
                    kind: ErrorKind::Attribute(AttributeError::MalformedExpression),
                },
            ),
            AttributePayload::Arguments(text, sp) => {
                match classify_expression(text, *sp) {
                    Ok(expression) => Ok(Some(InvariantAttribute { expression })),
                    Err(e) => Err(e),
                }
            },
        }
    }
}

} // verus!
