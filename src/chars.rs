//! Character classes and the runs of characters that tokens are made of.
use vstd::prelude::*;

verus! {

pub open spec fn is_ws(c: char) -> bool {
    c == ' ' || c == '\t' || c == '\n' || c == '\r'
}

pub open spec fn is_ident_start(c: char) -> bool {
    ('a' <= c && c <= 'z') || ('A' <= c && c <= 'Z') || c == '_'
}

pub open spec fn is_digit(c: char) -> bool {
    '0' <= c && c <= '9'
}

pub open spec fn is_ident_char(c: char) -> bool {
    is_ident_start(c) || is_digit(c)
}

/// First position at or after `p` that does not hold whitespace.
pub open spec fn skip_ws(s: Seq<char>, p: int) -> int
    decreases s.len() - p,
{
    if 0 <= p < s.len() && is_ws(s[p]) {
        skip_ws(s, p + 1)
    } else {
        p
    }
}

/// End of the run of identifier characters that starts at `p`.
pub open spec fn ident_end(s: Seq<char>, p: int) -> int
    decreases s.len() - p,
{
    if 0 <= p < s.len() && is_ident_char(s[p]) {
        ident_end(s, p + 1)
    } else {
        p
    }
}

/// End of the run of decimal digits that starts at `p`.
pub open spec fn digit_end(s: Seq<char>, p: int) -> int
    decreases s.len() - p,
{
    if 0 <= p < s.len() && is_digit(s[p]) {
        digit_end(s, p + 1)
    } else {
        p
    }
}

pub broadcast proof fn lemma_skip_ws(s: Seq<char>, p: int)
    requires
        0 <= p <= s.len(),
    ensures
        p <= #[trigger] skip_ws(s, p) <= s.len(),
        skip_ws(s, p) < s.len() ==> !is_ws(s[skip_ws(s, p)]),
    decreases s.len() - p,
{
    if p < s.len() && is_ws(s[p]) {
        lemma_skip_ws(s, p + 1);
    }
}

pub broadcast proof fn lemma_ident_end(s: Seq<char>, p: int)
    requires
        0 <= p <= s.len(),
    ensures
        p <= #[trigger] ident_end(s, p) <= s.len(),
        ident_end(s, p) < s.len() ==> !is_ident_char(s[ident_end(s, p)]),
    decreases s.len() - p,
{
    if p < s.len() && is_ident_char(s[p]) {
        lemma_ident_end(s, p + 1);
    }
}

pub broadcast proof fn lemma_digit_end(s: Seq<char>, p: int)
    requires
        0 <= p <= s.len(),
    ensures
        p <= #[trigger] digit_end(s, p) <= s.len(),
        digit_end(s, p) < s.len() ==> !is_digit(s[digit_end(s, p)]),
    decreases s.len() - p,
{
    if p < s.len() && is_digit(s[p]) {
        lemma_digit_end(s, p + 1);
    }
}

/// The first position at or after `p` that holds `c`, or the end.
pub open spec fn find_char(s: Seq<char>, p: int, c: char) -> int
    decreases s.len() - p,
{
    if 0 <= p < s.len() && s[p] != c {
        find_char(s, p + 1, c)
    } else {
        p
    }
}

pub broadcast proof fn lemma_find_char(s: Seq<char>, p: int, c: char)
    requires
        0 <= p <= s.len(),
    ensures
        p <= #[trigger] find_char(s, p, c) <= s.len(),
        find_char(s, p, c) < s.len() ==> s[find_char(s, p, c)] == c,
    decreases s.len() - p,
{
    if p < s.len() && s[p] != c {
        lemma_find_char(s, p + 1, c);
    }
}

/// The value of a run of decimal digits.
pub open spec fn digits_value(d: Seq<char>) -> int
    decreases d.len(),
{
    if d.len() == 0 {
        0
    } else {
        digits_value(d.subrange(0, d.len() - 1)) * 10 + ((d[d.len() - 1] as u32) as int - (
        '0' as u32) as int)
    }
}

pub proof fn lemma_digits_grow(s: Seq<char>, q: int, i: int, e: int)
    requires
        0 <= q <= i <= e <= s.len(),
        forall|j: int| q <= j < e ==> is_digit(#[trigger] s[j]),
    ensures
        0 <= digits_value(s.subrange(q, i)) <= digits_value(s.subrange(q, e)),
    decreases e - q,
{
    if e > q {
        assert(s.subrange(q, e).subrange(0, e - q - 1) =~= s.subrange(q, e - 1));
        if i < e {
            lemma_digits_grow(s, q, i, e - 1);
        } else {
            lemma_digits_grow(s, q, i - 1, e - 1);
        }
    }
}

/// Every character of the run that `digit_end` measures is a digit.
pub proof fn lemma_digit_run(s: Seq<char>, p: int)
    requires
        0 <= p <= s.len(),
    ensures
        forall|i: int| p <= i < digit_end(s, p) ==> is_digit(#[trigger] s[i]),
    decreases s.len() - p,
{
    if p < s.len() && is_digit(s[p]) {
        lemma_digit_run(s, p + 1);
    }
}

pub broadcast group group_runs {
    lemma_find_char,
    lemma_skip_ws,
    lemma_ident_end,
    lemma_digit_end,
}

/// The identifier that starts after the whitespace at `p`, and where it ends.
#[verifier::opaque]
pub open spec fn tok_ident(s: Seq<char>, p: int) -> Option<(Seq<char>, int)> {
    let q = skip_ws(s, p);
    if 0 <= q < s.len() && is_ident_start(s[q]) {
        Some((s.subrange(q, ident_end(s, q)), ident_end(s, q)))
    } else {
        None
    }
}

/// The keyword `w` as a whole word after the whitespace at `p`.
#[verifier::opaque]
pub open spec fn kw(s: Seq<char>, p: int, w: Seq<char>) -> Option<int> {
    match tok_ident(s, p) {
        Some((t, e)) => if t == w { Some(e) } else { None },
        None => None,
    }
}

/// The character `c` after the whitespace at `p`.
#[verifier::opaque]
pub open spec fn ch(s: Seq<char>, p: int, c: char) -> Option<int> {
    let q = skip_ws(s, p);
    if 0 <= q < s.len() && s[q] == c {
        Some(q + 1)
    } else {
        None
    }
}

/// The two characters `a b` after the whitespace at `p`.
#[verifier::opaque]
pub open spec fn sym2(s: Seq<char>, p: int, a: char, b: char) -> Option<int> {
    let q = skip_ws(s, p);
    if 0 <= q && q + 1 < s.len() && s[q] == a && s[q + 1] == b {
        Some(q + 2)
    } else {
        None
    }
}

/// The three characters `a b c` after the whitespace at `p`.
#[verifier::opaque]
pub open spec fn sym3(s: Seq<char>, p: int, a: char, b: char, c: char) -> Option<int> {
    let q = skip_ws(s, p);
    if 0 <= q && q + 2 < s.len() && s[q] == a && s[q + 1] == b && s[q + 2] == c {
        Some(q + 3)
    } else {
        None
    }
}

/// Whether the next token after `p` starts an identifier.
pub open spec fn ident_next(s: Seq<char>, p: int) -> bool {
    let q = skip_ws(s, p);
    0 <= q < s.len() && is_ident_start(s[q])
}

/// The label written right after a keyword: `@name`, with no space.
#[verifier::opaque]
pub open spec fn label_after(s: Seq<char>, p: int) -> Option<(Seq<char>, int)> {
    if 0 <= p && p + 1 < s.len() && s[p] == '@' && is_ident_start(s[p + 1]) {
        Some((s.subrange(p + 1, ident_end(s, p + 1)), ident_end(s, p + 1)))
    } else {
        None
    }
}


pub broadcast proof fn lemma_tok_ident(s: Seq<char>, p: int)
    ensures
        #[trigger] tok_ident(s, p) is Some ==> p < (tok_ident(s, p)->0).1 <= s.len(),
{
    reveal(tok_ident);
    if 0 <= p <= s.len() {
        lemma_skip_ws(s, p);
        let q = skip_ws(s, p);
        if 0 <= q < s.len() {
            lemma_ident_end(s, q);
        }
    }
}

pub broadcast proof fn lemma_kw(s: Seq<char>, p: int, w: Seq<char>)
    ensures
        #[trigger] kw(s, p, w) is Some ==> p < kw(s, p, w)->0 <= s.len(),
{
    reveal(kw);
    lemma_tok_ident(s, p);
}

pub broadcast proof fn lemma_ch(s: Seq<char>, p: int, c: char)
    ensures
        #[trigger] ch(s, p, c) is Some ==> p < ch(s, p, c)->0 <= s.len(),
{
    reveal(ch);
    if 0 <= p <= s.len() {
        lemma_skip_ws(s, p);
    }
}

pub broadcast proof fn lemma_sym2(s: Seq<char>, p: int, a: char, b: char)
    ensures
        #[trigger] sym2(s, p, a, b) is Some ==> p < sym2(s, p, a, b)->0 <= s.len(),
{
    reveal(sym2);
    if 0 <= p <= s.len() {
        lemma_skip_ws(s, p);
    }
}

pub broadcast proof fn lemma_sym3(s: Seq<char>, p: int, a: char, b: char, c: char)
    ensures
        #[trigger] sym3(s, p, a, b, c) is Some ==> p < sym3(s, p, a, b, c)->0 <= s.len(),
{
    reveal(sym3);
    if 0 <= p <= s.len() {
        lemma_skip_ws(s, p);
    }
}

pub broadcast proof fn lemma_label_after(s: Seq<char>, p: int)
    ensures
        #[trigger] label_after(s, p) is Some ==> p < (label_after(s, p)->0).1 <= s.len(),
{
    reveal(label_after);
    if 0 <= p && p + 1 < s.len() {
        lemma_ident_end(s, p + 1);
    }
}

pub broadcast group group_tokens {
    lemma_tok_ident,
    lemma_kw,
    lemma_ch,
    lemma_sym2,
    lemma_sym3,
    lemma_label_after,
}

} // verus!
