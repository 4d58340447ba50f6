//! Character classes and small verified utilities on character vectors.
//! Identifiers, predicate expressions and type names all travel through the
//! library as `Vec<char>`, viewed as `Seq<char>`.

use vstd::prelude::*;

verus! {

/// Whitespace, as the expression grammar understands it.
pub open spec fn is_ws_char(c: char) -> bool {
    c == ' ' || c == '\t' || c == '\n' || c == '\r'
}

#[verifier::when_used_as_spec(is_ws_char)]
pub fn is_ws(c: char) -> (r: bool)
    ensures
        r == is_ws_char(c),
{
    c == ' ' || c == '\t' || c == '\n' || c == '\r'
}

/// First character of an identifier: an ASCII letter or an underscore.
pub open spec fn is_ident_start_char(c: char) -> bool {
    ('a' as u32) <= (c as u32) <= ('z' as u32) || ('A' as u32) <= (c as u32) <= ('Z' as u32)
        || c == '_'
}

#[verifier::when_used_as_spec(is_ident_start_char)]
pub fn is_ident_start(c: char) -> (r: bool)
    ensures
        r == is_ident_start_char(c),
{
    let u = c as u32;
    (('a' as u32) <= u && u <= ('z' as u32)) || (('A' as u32) <= u && u <= ('Z' as u32)) || c
        == '_'
}

/// Character that may continue an identifier: a letter, a digit or an
/// underscore.
pub open spec fn is_ident_continue_char(c: char) -> bool {
    is_ident_start_char(c) || ('0' as u32) <= (c as u32) <= ('9' as u32)
}

#[verifier::when_used_as_spec(is_ident_continue_char)]
pub fn is_ident_continue(c: char) -> (r: bool)
    ensures
        r == is_ident_continue_char(c),
{
    let u = c as u32;
    is_ident_start(c) || (('0' as u32) <= u && u <= ('9' as u32))
}

/// The deep view of a character vector is its view.
pub proof fn lemma_chars_deep_view(v: Vec<char>)
    ensures
        v.deep_view() == v@,
{
    assert(v.deep_view() =~= v@);
}

/// True when `a` holds exactly the characters of the literal `s`.
pub fn chars_eq_str(a: &Vec<char>, s: &str) -> (r: bool)
    ensures
        r == (a@ == s@),
{
    let n = s.unicode_len();
    if a.len() != n {
        assert(a@ != s@) by {
            assert(a@.len() != s@.len());
        }
        return false;
    }
    let mut i: usize = 0;
    while i < n
        invariant
            n == a.len(),
            n == s@.len(),
            i <= n,
            forall|k: int| 0 <= k < i ==> a@[k] == s@[k],
        decreases n - i,
    {
        if a[i] != s.get_char(i) {
            return false;
        }
        i += 1;
    }
    assert(a@ =~= s@);
    true
}

/// A fresh copy of a text.
pub fn copy_chars(a: &Vec<char>) -> (r: Vec<char>)
    ensures
        r@ == a@,
{
    let mut r: Vec<char> = Vec::new();
    let n = a.len();
    let mut i: usize = 0;
    while i < n
        invariant
            n == a.len(),
            i <= n,
            r@ =~= a@.subrange(0, i as int),
        decreases n - i,
    {
        r.push(a[i]);
        i += 1;
    }
    assert(r@ =~= a@);
    r
}

/// A fresh copy of the characters `a[from..to]`.
pub fn copy_range(a: &Vec<char>, from: usize, to: usize) -> (r: Vec<char>)
    requires
        from <= to <= a.len(),
    ensures
        r@ == a@.subrange(from as int, to as int),
{
    let mut r: Vec<char> = Vec::new();
    let mut i: usize = from;
    while i < to
        invariant
            from <= i <= to <= a.len(),
            r@ =~= a@.subrange(from as int, i as int),
        decreases to - i,
    {
        r.push(a[i]);
        i += 1;
    }
    r
}

/// Appends the characters of the literal `s` to `out`.
pub fn push_str_chars(out: &mut Vec<char>, s: &str)
    ensures
        final(out)@ == old(out)@ + s@,
{
    let n = s.unicode_len();
    let mut i: usize = 0;
    while i < n
        invariant
            n == s@.len(),
            i <= n,
            out@ =~= old(out)@ + s@.subrange(0, i as int),
        decreases n - i,
    {
        out.push(s.get_char(i));
        i += 1;
    }
    assert(out@ =~= old(out)@ + s@);
}

/// Appends all characters of `a` to `out`.
pub fn push_all_chars(out: &mut Vec<char>, a: &Vec<char>)
    ensures
        final(out)@ == old(out)@ + a@,
{
    let n = a.len();
    let mut i: usize = 0;
    while i < n
        invariant
            n == a.len(),
            i <= n,
            out@ =~= old(out)@ + a@.subrange(0, i as int),
        decreases n - i,
    {
        out.push(a[i]);
        i += 1;
    }
    assert(out@ =~= old(out)@ + a@);
}

} // verus!
