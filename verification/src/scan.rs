//! Character-level scanning for the validation-expression grammar: whitespace
//! runs, identifier runs, parameter lists, string literals and the reserved
//! identifier walk over predicate bodies. Each scanning function comes as a
//! recursive specification (the grammar's definition) and an executable mirror
//! proved equal to it.

use vstd::prelude::*;

use crate::error::ReservedWord;
use crate::text::{is_ident_continue, is_ident_continue_char, is_ident_start, is_ident_start_char,
    is_ws, is_ws_char};
use crate::text::{chars_eq_str, copy_range};

verus! {

/// Index of the first non-whitespace character at or after `i`, or `s.len()`.
pub open spec fn skip_ws_spec(s: Seq<char>, i: int) -> int
    decreases s.len() - i,
    when 0 <= i <= s.len()
{
    if i < s.len() && is_ws_char(s[i]) {
        skip_ws_spec(s, i + 1)
    } else {
        i
    }
}

pub proof fn lemma_skip_ws_bounds(s: Seq<char>, i: int)
    requires
        0 <= i <= s.len(),
    ensures
        i <= skip_ws_spec(s, i) <= s.len(),
    decreases s.len() - i,
{
    if i < s.len() && is_ws_char(s[i]) {
        lemma_skip_ws_bounds(s, i + 1);
    }
}

/// A whitespace run stops on a non-whitespace character.
pub proof fn lemma_skip_ws_stops(s: Seq<char>, i: int)
    requires
        0 <= i <= s.len(),
    ensures
        skip_ws_spec(s, i) < s.len() ==> !is_ws_char(s[skip_ws_spec(s, i)]),
    decreases s.len() - i,
{
    if i < s.len() && is_ws_char(s[i]) {
        lemma_skip_ws_stops(s, i + 1);
    }
}

/// A whitespace run cannot pass a non-whitespace character.
pub proof fn lemma_skip_ws_below(s: Seq<char>, i: int, p: int)
    requires
        0 <= i <= p < s.len(),
        !is_ws_char(s[p]),
    ensures
        skip_ws_spec(s, i) <= p,
    decreases p - i,
{
    if i < p && is_ws_char(s[i]) {
        lemma_skip_ws_below(s, i + 1, p);
    }
}

pub fn skip_ws(s: &Vec<char>, i: usize) -> (j: usize)
    requires
        i <= s.len(),
    ensures
        j == skip_ws_spec(s@, i as int),
        i <= j <= s.len(),
    decreases s.len() - i,
{
    if i < s.len() && is_ws(s[i]) {
        skip_ws(s, i + 1)
    } else {
        i
    }
}

/// Index one past the last identifier-continue character of the run starting
/// at `i`.
pub open spec fn ident_end_spec(s: Seq<char>, i: int) -> int
    decreases s.len() - i,
    when 0 <= i <= s.len()
{
    if i < s.len() && is_ident_continue_char(s[i]) {
        ident_end_spec(s, i + 1)
    } else {
        i
    }
}

pub proof fn lemma_ident_end_bounds(s: Seq<char>, i: int)
    requires
        0 <= i <= s.len(),
    ensures
        i <= ident_end_spec(s, i) <= s.len(),
    decreases s.len() - i,
{
    if i < s.len() && is_ident_continue_char(s[i]) {
        lemma_ident_end_bounds(s, i + 1);
    }
}

pub fn ident_end(s: &Vec<char>, i: usize) -> (j: usize)
    requires
        i <= s.len(),
    ensures
        j == ident_end_spec(s@, i as int),
        i <= j <= s.len(),
    decreases s.len() - i,
{
    if i < s.len() && is_ident_continue(s[i]) {
        ident_end(s, i + 1)
    } else {
        i
    }
}

/// Index of the first `|` at or after `i`, or `s.len()`.
pub open spec fn find_pipe_spec(s: Seq<char>, i: int) -> int
    decreases s.len() - i,
    when 0 <= i <= s.len()
{
    if i < s.len() && s[i] != '|' {
        find_pipe_spec(s, i + 1)
    } else {
        i
    }
}

/// The pipe search stops on a pipe.
pub proof fn lemma_find_pipe_stops(s: Seq<char>, i: int)
    requires
        0 <= i <= s.len(),
    ensures
        find_pipe_spec(s, i) < s.len() ==> s[find_pipe_spec(s, i)] == '|',
    decreases s.len() - i,
{
    if i < s.len() && s[i] != '|' {
        lemma_find_pipe_stops(s, i + 1);
    }
}

pub fn find_pipe(s: &Vec<char>, i: usize) -> (j: usize)
    requires
        i <= s.len(),
    ensures
        j == find_pipe_spec(s@, i as int),
        i <= j <= s.len(),
    decreases s.len() - i,
{
    if i < s.len() && s[i] != '|' {
        find_pipe(s, i + 1)
    } else {
        i
    }
}

/// Index one past the last non-whitespace character of `s[from..to]`, or
/// `from` when the range is all whitespace.
pub open spec fn trim_end_spec(s: Seq<char>, from: int, to: int) -> int
    decreases to - from,
    when 0 <= from <= to <= s.len()
{
    if to > from && is_ws_char(s[to - 1]) {
        trim_end_spec(s, from, to - 1)
    } else {
        to
    }
}

/// Trimming trailing whitespace cannot pass a non-whitespace character.
pub proof fn lemma_trim_end_above(s: Seq<char>, from: int, to: int, p: int)
    requires
        0 <= from <= p < to <= s.len(),
        !is_ws_char(s[p]),
    ensures
        trim_end_spec(s, from, to) > p,
    decreases to - from,
{
    if to - 1 > p && is_ws_char(s[to - 1]) {
        lemma_trim_end_above(s, from, to - 1, p);
    }
}

pub fn trim_end(s: &Vec<char>, from: usize, to: usize) -> (j: usize)
    requires
        from <= to <= s.len(),
    ensures
        j == trim_end_spec(s@, from as int, to as int),
        from <= j <= to,
    decreases to - from,
{
    if to > from && is_ws(s[to - 1]) {
        trim_end(s, from, to - 1)
    } else {
        to
    }
}

/// `i` points just after an opening double quote; the result is the index just
/// after the closing quote, or `s.len()` when the literal never closes.
/// A backslash escapes the character after it.
pub open spec fn string_lit_end_spec(s: Seq<char>, i: int) -> int
    decreases s.len() - i,
    when 0 <= i <= s.len()
{
    if i >= s.len() {
        i
    } else if s[i] == '"' {
        i + 1
    } else if s[i] == '\\' && i + 1 < s.len() {
        string_lit_end_spec(s, i + 2)
    } else {
        string_lit_end_spec(s, i + 1)
    }
}

pub proof fn lemma_string_lit_end_bounds(s: Seq<char>, i: int)
    requires
        0 <= i <= s.len(),
    ensures
        i <= string_lit_end_spec(s, i) <= s.len(),
    decreases s.len() - i,
{
    if i >= s.len() {
    } else if s[i] == '"' {
    } else if s[i] == '\\' && i + 1 < s.len() {
        lemma_string_lit_end_bounds(s, i + 2);
    } else {
        lemma_string_lit_end_bounds(s, i + 1);
    }
}

pub fn string_lit_end(s: &Vec<char>, i: usize) -> (j: usize)
    requires
        i <= s.len(),
    ensures
        j == string_lit_end_spec(s@, i as int),
        i <= j <= s.len(),
    decreases s.len() - i,
{
    if i >= s.len() {
        i
    } else if s[i] == '"' {
        i + 1
    } else if s[i] == '\\' && i + 1 < s.len() {
        string_lit_end(s, i + 2)
    } else {
        string_lit_end(s, i + 1)
    }
}

/// Number of parameters declared in `s[i..end]`, a closure parameter list.
/// Parameters are separated by commas outside any brackets; a parameter is
/// counted once it shows a non-whitespace character, so a trailing comma does
/// not add one.
pub open spec fn params_count_spec(s: Seq<char>, i: int, end: int, depth: int, in_param: bool) -> int
    decreases end - i,
    when 0 <= i <= end <= s.len()
{
    if i >= end {
        if in_param {
            1
        } else {
            0
        }
    } else {
        let c = s[i];
        if depth == 0 && c == ',' {
            (if in_param {
                1int
            } else {
                0int
            }) + params_count_spec(s, i + 1, end, 0, false)
        } else if is_ws_char(c) {
            params_count_spec(s, i + 1, end, depth, in_param)
        } else {
            let d = if c == '(' || c == '[' || c == '<' {
                depth + 1
            } else if (c == ')' || c == ']' || c == '>') && depth > 0 {
                depth - 1
            } else {
                depth
            };
            params_count_spec(s, i + 1, end, d, true)
        }
    }
}

pub proof fn lemma_params_count_bounds(s: Seq<char>, i: int, end: int, depth: int, in_param: bool)
    requires
        0 <= i <= end <= s.len(),
    ensures
        0 <= params_count_spec(s, i, end, depth, in_param) <= end - i + (if in_param {
            1int
        } else {
            0int
        }),
    decreases end - i,
{
    if i < end {
        let c = s[i];
        if depth == 0 && c == ',' {
            lemma_params_count_bounds(s, i + 1, end, 0, false);
        } else if is_ws_char(c) {
            lemma_params_count_bounds(s, i + 1, end, depth, in_param);
        } else {
            let d = if c == '(' || c == '[' || c == '<' {
                depth + 1
            } else if (c == ')' || c == ']' || c == '>') && depth > 0 {
                depth - 1
            } else {
                depth
            };
            lemma_params_count_bounds(s, i + 1, end, d, true);
        }
    }
}

pub fn params_count(s: &Vec<char>, i: usize, end: usize, depth: usize, in_param: bool) -> (r:
    usize)
    requires
        i <= end <= s.len(),
        depth <= i,
    ensures
        r == params_count_spec(s@, i as int, end as int, depth as int, in_param),
        r <= end - i + (if in_param {
            1int
        } else {
            0int
        }),
    decreases end - i,
{
    proof {
        lemma_params_count_bounds(s@, i as int, end as int, depth as int, in_param);
    }
    if i >= end {
        if in_param {
            1
        } else {
            0
        }
    } else {
        let c = s[i];
        if depth == 0 && c == ',' {
            let rest = params_count(s, i + 1, end, 0, false);
            (if in_param {
                1
            } else {
                0
            }) + rest
        } else if is_ws(c) {
            params_count(s, i + 1, end, depth, in_param)
        } else {
            let d = if c == '(' || c == '[' || c == '<' {
                depth + 1
            } else if (c == ')' || c == ']' || c == '>') && depth > 0 {
                depth - 1
            } else {
                depth
            };
            params_count(s, i + 1, end, d, true)
        }
    }
}

/// End of the parameter name that starts at `i`: the first top-level `:` that
/// does not begin a `::`, the first top-level comma, or `end`.
pub open spec fn param_name_end_spec(s: Seq<char>, i: int, end: int, depth: int) -> int
    decreases end - i,
    when 0 <= i <= end <= s.len()
{
    if i >= end {
        end
    } else {
        let c = s[i];
        if depth == 0 && c == ',' {
            i
        } else if depth == 0 && c == ':' && !(i + 1 < end && s[i + 1] == ':') {
            i
        } else if c == ':' && i + 1 < end && s[i + 1] == ':' {
            param_name_end_spec(s, i + 2, end, depth)
        } else {
            let d = if c == '(' || c == '[' || c == '<' {
                depth + 1
            } else if (c == ')' || c == ']' || c == '>') && depth > 0 {
                depth - 1
            } else {
                depth
            };
            param_name_end_spec(s, i + 1, end, d)
        }
    }
}

pub fn param_name_end(s: &Vec<char>, i: usize, end: usize, depth: usize) -> (j: usize)
    requires
        i <= end <= s.len(),
        depth <= i,
    ensures
        j == param_name_end_spec(s@, i as int, end as int, depth as int),
        i <= j <= end,
    decreases end - i,
{
    if i >= end {
        end
    } else {
        let c = s[i];
        if depth == 0 && c == ',' {
            i
        } else if depth == 0 && c == ':' && !(i + 1 < end && s[i + 1] == ':') {
            i
        } else if c == ':' && i + 1 < end && s[i + 1] == ':' {
            param_name_end(s, i + 2, end, depth)
        } else {
            let d = if c == '(' || c == '[' || c == '<' {
                depth + 1
            } else if (c == ')' || c == ']' || c == '>') && depth > 0 {
                depth - 1
            } else {
                depth
            };
            param_name_end(s, i + 1, end, d)
        }
    }
}

/// Does the identifier run ending at `e` continue into a longer path, that is,
/// is the next significant thing a `::`?
pub open spec fn followed_by_path_sep_spec(s: Seq<char>, e: int) -> bool {
    let k = skip_ws_spec(s, e);
    k + 1 < s.len() && s[k] == ':' && s[k + 1] == ':'
}

/// The reserved word an identifier text names, if any.
pub open spec fn reserved_word_of(w: Seq<char>) -> Option<ReservedWord> {
    if w == "self"@ {
        Some(ReservedWord::SelfValue)
    } else if w == "finished"@ {
        Some(ReservedWord::FinishedValue)
    } else {
        None
    }
}

/// Walks a predicate body looking for a standalone reference to a reserved
/// identifier. `prev` is the last significant character already passed (a
/// space initially). An identifier run is a reference unless it follows a `.`
/// (a member access), follows a `:` (a later segment of a path), or is itself
/// followed by `::` (the head of a longer path). Double-quoted string
/// literals are skipped. Returns the first hit: the word and the character
/// range of its occurrence.
pub open spec fn reserved_scan_spec(s: Seq<char>, i: int, prev: char) -> Option<
    (ReservedWord, int, int),
>
    decreases s.len() - i,
    when 0 <= i <= s.len()
    via reserved_scan_spec_decreases
{
    if i >= s.len() {
        None
    } else {
        let c = s[i];
        if c == '"' {
            reserved_scan_spec(s, string_lit_end_spec(s, i + 1), '"')
        } else if is_ident_start_char(c) && (prev != '.' && prev != ':') {
            let e = ident_end_spec(s, i);
            let word = s.subrange(i, e);
            match reserved_word_of(word) {
                Some(w) => if !followed_by_path_sep_spec(s, e) {
                    Some((w, i, e))
                } else {
                    reserved_scan_spec(s, e, s[e - 1])
                },
                None => reserved_scan_spec(s, e, s[e - 1]),
            }
        } else if is_ident_start_char(c) {
            // an identifier that cannot be a standalone reference; skip its run
            let e = ident_end_spec(s, i);
            reserved_scan_spec(s, e, s[e - 1])
        } else if is_ws_char(c) {
            reserved_scan_spec(s, i + 1, prev)
        } else {
            reserved_scan_spec(s, i + 1, c)
        }
    }
}

#[via_fn]
proof fn reserved_scan_spec_decreases(s: Seq<char>, i: int, prev: char) {
    if 0 <= i < s.len() {
        lemma_string_lit_end_bounds(s, i + 1);
        lemma_ident_end_bounds(s, i);
        if is_ident_start_char(s[i]) {
            assert(is_ident_continue_char(s[i]));
            assert(ident_end_spec(s, i) == ident_end_spec(s, i + 1));
            lemma_ident_end_bounds(s, i + 1);
        }
    }
}

pub fn reserved_scan(s: &Vec<char>, i: usize, prev: char) -> (r: Option<(ReservedWord, usize, usize)>)
    requires
        i <= s.len(),
    ensures
        match r {
            Some((w, a, b)) => {
                reserved_scan_spec(s@, i as int, prev) == Some((w, a as int, b as int)) && a <= b
                    <= s.len()
            },
            None => reserved_scan_spec(s@, i as int, prev) is None,
        },
    decreases s.len() - i,
{
    if i >= s.len() {
        None
    } else {
        let c = s[i];
        if c == '"' {
            let j = string_lit_end(s, i + 1);
            reserved_scan(s, j, '"')
        } else if is_ident_start(c) && (prev != '.' && prev != ':') {
            let e = ident_end(s, i);
            assert(e > i) by {
                assert(is_ident_continue_char(s@[i as int]));
                lemma_ident_end_bounds(s@, i as int + 1);
            }
            let word = copy_range(s, i, e);
            let is_self_word = chars_eq_str(&word, "self");
            let is_finished_word = chars_eq_str(&word, "finished");
            if (is_self_word || is_finished_word) && !followed_by_path_sep(s, e) {
                let w = if is_self_word {
                    ReservedWord::SelfValue
                } else {
                    ReservedWord::FinishedValue
                };
                Some((w, i, e))
            } else {
                reserved_scan(s, e, s[e - 1])
            }
        } else if is_ident_start(c) {
            let e = ident_end(s, i);
            assert(e > i) by {
                assert(is_ident_continue_char(s@[i as int]));
                lemma_ident_end_bounds(s@, i as int + 1);
            }
            reserved_scan(s, e, s[e - 1])
        } else if is_ws(c) {
            reserved_scan(s, i + 1, prev)
        } else {
            reserved_scan(s, i + 1, c)
        }
    }
}

fn followed_by_path_sep(s: &Vec<char>, e: usize) -> (r: bool)
    requires
        e <= s.len(),
    ensures
        r == followed_by_path_sep_spec(s@, e as int),
{
    let k = skip_ws(s, e);
    if k < s.len() && s[k] == ':' {
        k + 1 < s.len() && s[k + 1] == ':'
    } else {
        false
    }
}

} // verus!
