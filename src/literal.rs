//! Literals: numbers, strings, characters, booleans and `null`.
use vstd::prelude::*;
use crate::ast::Literal;
use crate::chars::{
    digit_end, digits_value, find_char, group_runs, group_tokens, is_digit, lemma_digit_run,
    lemma_digits_grow, skip_ws,
};
use crate::model::{agrees, node, Shape, Tree};
use crate::token::{at, digit_run, keyword, kept, kw, record, skip, slice_text, Failure};

verus! {

broadcast use {group_runs, group_tokens};

/// Where the integer part of a number that starts at `q` ends: a lone `0`,
/// or a run of digits.
pub open spec fn int_end(s: Seq<char>, q: int) -> int {
    if s[q] == '0' {
        q + 1
    } else {
        digit_end(s, q)
    }
}

pub open spec fn g_int(s: Seq<char>, p: int) -> Option<(Tree, int)> {
    let q = skip_ws(s, p);
    if 0 <= q < s.len() && is_digit(s[q]) {
        let v = digits_value(s.subrange(q, int_end(s, q)));
        if v <= i64::MAX {
            Some((node(Shape::Integer, seq![Tree::Num(v)]), int_end(s, q)))
        } else {
            None
        }
    } else {
        None
    }
}

/// Digits, a dot and digits; the text is kept as written.
pub open spec fn g_decimal(s: Seq<char>, p: int) -> Option<(Tree, int)> {
    let q = skip_ws(s, p);
    if 0 <= q < s.len() && is_digit(s[q]) {
        let e = int_end(s, q);
        if at(s, e, '.') && e + 1 < s.len() && is_digit(s[e + 1]) {
            let d = digit_end(s, e + 1);
            Some((node(Shape::Decimal, seq![Tree::Text(s.subrange(q, d))]), d))
        } else {
            None
        }
    } else {
        None
    }
}

/// `"..."`: everything up to the next double quote.
pub open spec fn g_string(s: Seq<char>, p: int) -> Option<(Tree, int)> {
    let q = skip_ws(s, p);
    if at(s, q, '"') && find_char(s, q + 1, '"') < s.len() {
        let j = find_char(s, q + 1, '"');
        Some((node(Shape::Str, seq![Tree::Text(s.subrange(q + 1, j))]), j + 1))
    } else {
        None
    }
}

/// `'c'`, where `c` is not a single quote.
pub open spec fn g_char(s: Seq<char>, p: int) -> Option<(Tree, int)> {
    let q = skip_ws(s, p);
    if 0 <= q && q + 2 < s.len() && s[q] == '\'' && s[q + 1] != '\'' && s[q + 2] == '\'' {
        Some((node(Shape::Char, seq![Tree::Text(seq![s[q + 1]])]), q + 3))
    } else {
        None
    }
}

/// A literal: the alternatives are tried in this order, and the first that
/// matches wins.
pub open spec fn g_literal(s: Seq<char>, p: int) -> Option<(Tree, int)> {
    if g_decimal(s, p) is Some {
        g_decimal(s, p)
    } else if g_int(s, p) is Some {
        g_int(s, p)
    } else if g_string(s, p) is Some {
        g_string(s, p)
    } else if g_char(s, p) is Some {
        g_char(s, p)
    } else if kw(s, p, "true"@) is Some {
        Some((node(Shape::Boolean, seq![Tree::Flag(true)]), kw(s, p, "true"@)->0))
    } else if kw(s, p, "false"@) is Some {
        Some((node(Shape::Boolean, seq![Tree::Flag(false)]), kw(s, p, "false"@)->0))
    } else if kw(s, p, "null"@) is Some {
        Some((node(Shape::Null, seq![]), kw(s, p, "null"@)->0))
    } else {
        None
    }
}

const TENTH_OF_MAX: u64 = 922337203685477580;

/// The value of the digits `s[q..e]`, if it fits in an `i64`.
fn digits_to_int(s: &Vec<char>, q: usize, e: usize) -> (r: Option<i64>)
    requires
        q <= e <= s@.len(),
        forall|j: int| q <= j < e ==> is_digit(#[trigger] s@[j]),
    ensures
        match r {
            Some(v) => v as int == digits_value(s@.subrange(q as int, e as int)),
            None => digits_value(s@.subrange(q as int, e as int)) > i64::MAX,
        },
{
    let mut v: u64 = 0;
    let mut i = q;
    while i < e
        invariant
            q <= i <= e <= s@.len(),
            forall|j: int| q <= j < e ==> is_digit(#[trigger] s@[j]),
            v as int == digits_value(s@.subrange(q as int, i as int)),
            v <= i64::MAX,
        decreases e - i,
    {
        let d = (s[i] as u32 - '0' as u32) as u64;
        assert(s@.subrange(q as int, i + 1).subrange(0, i - q) =~= s@.subrange(q as int, i as int));
        if v > TENTH_OF_MAX || (v == TENTH_OF_MAX && d > 7) {
            proof {
                lemma_digits_grow(s@, q as int, i + 1, e as int);
            }
            return None;
        }
        v = v * 10 + d;
        i = i + 1;
    }
    Some(v as i64)
}

pub fn int_literal(s: &Vec<char>, p: usize, f: &mut Failure) -> (r: Option<(Literal, usize)>)
    requires
        p <= s@.len(),
    ensures
        agrees(r, g_int(s@, p as int), p as int, s@.len() as int),
        kept(*old(f), *final(f), s@),
{
    let q = skip(s, p);
    if q < s.len() && '0' <= s[q] && s[q] <= '9' {
        let e = if s[q] == '0' {
            q + 1
        } else {
            digit_run(s, q)
        };
        proof {
            lemma_digit_run(s@, q as int);
        }
        match digits_to_int(s, q, e) {
            Some(v) => Some((Literal::Integer(v), e)),
            None => {
                record(f, q, "integer");
                None
            },
        }
    } else {
        record(f, q, "number");
        None
    }
}

pub fn float_literal(s: &Vec<char>, p: usize, f: &mut Failure) -> (r: Option<(Literal, usize)>)
    requires
        p <= s@.len(),
    ensures
        agrees(r, g_decimal(s@, p as int), p as int, s@.len() as int),
        kept(*old(f), *final(f), s@),
{
    let q = skip(s, p);
    if q < s.len() && '0' <= s[q] && s[q] <= '9' {
        let e = if s[q] == '0' {
            q + 1
        } else {
            digit_run(s, q)
        };
        if e < s.len() && s[e] == '.' && s.len() - e >= 2 && '0' <= s[e + 1] && s[e + 1] <= '9' {
            let d = digit_run(s, e + 1);
            return Some((Literal::Decimal(slice_text(s, q, d)), d));
        }
    }
    record(f, q, "number");
    None
}

pub fn string_literal(s: &Vec<char>, p: usize, f: &mut Failure) -> (r: Option<(Literal, usize)>)
    requires
        p <= s@.len(),
    ensures
        agrees(r, g_string(s@, p as int), p as int, s@.len() as int),
        kept(*old(f), *final(f), s@),
{
    let q = skip(s, p);
    if q < s.len() && s[q] == '"' {
        let mut j = q + 1;
        while j < s.len() && s[j] != '"'
            invariant
                q < j <= s@.len(),
                find_char(s@, q + 1, '"') == find_char(s@, j as int, '"'),
            decreases s@.len() - j,
        {
            j = j + 1;
        }
        if j < s.len() {
            return Some((Literal::String(slice_text(s, q + 1, j)), j + 1));
        }
        record(f, j, "\"");
        return None;
    }
    record(f, q, "string");
    None
}

pub fn char_literal(s: &Vec<char>, p: usize, f: &mut Failure) -> (r: Option<(Literal, usize)>)
    requires
        p <= s@.len(),
    ensures
        agrees(r, g_char(s@, p as int), p as int, s@.len() as int),
        kept(*old(f), *final(f), s@),
{
    let q = skip(s, p);
    if q < s.len() && s.len() - q >= 3 && s[q] == '\'' && s[q + 1] != '\'' && s[q + 2] == '\'' {
        Some((Literal::Char(s[q + 1]), q + 3))
    } else {
        record(f, q, "character");
        None
    }
}

pub fn literal_at(s: &Vec<char>, p: usize, f: &mut Failure) -> (r: Option<(Literal, usize)>)
    requires
        p <= s@.len(),
    ensures
        agrees(r, g_literal(s@, p as int), p as int, s@.len() as int),
        kept(*old(f), *final(f), s@),
{
    let r = float_literal(s, p, f);
    if r.is_some() {
        return r;
    }
    let r = int_literal(s, p, f);
    if r.is_some() {
        return r;
    }
    let r = string_literal(s, p, f);
    if r.is_some() {
        return r;
    }
    let r = char_literal(s, p, f);
    if r.is_some() {
        return r;
    }
    if let Some(e) = keyword(s, p, "true", f) {
        return Some((Literal::Boolean(true), e));
    }
    if let Some(e) = keyword(s, p, "false", f) {
        return Some((Literal::Boolean(false), e));
    }
    if let Some(e) = keyword(s, p, "null", f) {
        return Some((Literal::Null, e));
    }
    None
}

} // verus!
