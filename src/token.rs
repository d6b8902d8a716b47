//! The tokens that every grammar rule is built from.
use vstd::prelude::*;
pub use crate::chars::{ch, ident_next, kw, label_after, sym2, sym3, tok_ident};
use crate::chars::{
    group_tokens,
    digit_end, group_runs, ident_end, is_ident_char, is_ident_start, is_ws, skip_ws,
};

verus! {

broadcast use {group_runs, group_tokens};

/// The end of a run of `;` tokens that starts at `p`.
pub open spec fn semis(s: Seq<char>, p: int) -> int
    decreases s.len() - p,
{
    match ch(s, p, ';') {
        Some(q) => if p < q <= s.len() {
            semis(s, q)
        } else {
            p
        },
        None => p,
    }
}

/// The character `c` exactly at `p`, with no whitespace before it.
pub open spec fn at(s: Seq<char>, p: int, c: char) -> bool {
    0 <= p < s.len() && s[p] == c
}

/// Relies on `String::push`: the string gains `c` at its end.
#[verifier::external_body]
pub(crate) fn push_char(t: &mut String, c: char)
    ensures
        final(t)@ == old(t)@.push(c),
{
    t.push(c)
}

/// The characters of `text`, in order.
pub fn chars_of(text: &str) -> (r: Vec<char>)
    ensures
        r@ == text@,
{
    let mut r: Vec<char> = Vec::new();
    for c in it: text.chars()
        invariant
            r@ == it.seq().take(it.index() as int),
    {
        r.push(c);
    }
    r
}


/// Where the furthest failed attempt stood, and what it looked for there.
pub struct Failure {
    pub offset: usize,
    pub expected: Vec<String>,
}

/// Whatever a parsing function did, the furthest failure it leaves behind
/// lies within the input, unless it left the tracker as it was.
pub open spec fn kept(f0: Failure, f1: Failure, s: Seq<char>) -> bool {
    &&& f1.offset <= s.len() || f1.offset == f0.offset
    &&& noted(f0) ==> noted(f1)
}

/// Once an attempt has failed past the start, something is expected there.
pub open spec fn noted(f: Failure) -> bool {
    f.offset > 0 ==> f.expected@.len() > 0
}

/// `q` lies between `lo` and the end of the input.
pub open spec fn within(s: Seq<char>, lo: int, q: int) -> bool {
    lo <= q <= s.len()
}

pub open spec fn same_pos(r: Option<usize>, g: Option<int>) -> bool {
    match r {
        Some(e) => g == Some(e as int),
        None => g is None,
    }
}

/// Notes a failed attempt at `q` that looked for `label`.
pub fn record(f: &mut Failure, q: usize, label: &str)
    ensures
        final(f).offset == if q > old(f).offset { q } else { old(f).offset },
        q >= old(f).offset ==> final(f).expected@.len() > 0,
        noted(*old(f)) ==> noted(*final(f)),
{
    if q > f.offset {
        f.offset = q;
        f.expected = Vec::new();
    }
    if q == f.offset {
        let mut seen = false;
        let mut i: usize = 0;
        while i < f.expected.len()
            invariant
                i <= f.expected.len(),
                seen ==> f.expected@.len() > 0,
            decreases f.expected.len() - i,
        {
            if f.expected[i].as_str() == label {
                seen = true;
            }
            i = i + 1;
        }
        if !seen {
            f.expected.push(label.to_owned());
        }
    }
}

pub fn skip(s: &Vec<char>, p: usize) -> (q: usize)
    requires
        p <= s@.len(),
    ensures
        q == skip_ws(s@, p as int),
{
    let mut q = p;
    while q < s.len() && (s[q] == ' ' || s[q] == '\t' || s[q] == '\n' || s[q] == '\r')
        invariant
            p <= q <= s@.len(),
            skip_ws(s@, p as int) == skip_ws(s@, q as int),
        decreases s@.len() - q,
    {
        q = q + 1;
    }
    q
}

pub fn is_ident_start_char(c: char) -> (r: bool)
    ensures
        r == is_ident_start(c),
{
    ('a' <= c && c <= 'z') || ('A' <= c && c <= 'Z') || c == '_'
}

pub fn is_ident_char_char(c: char) -> (r: bool)
    ensures
        r == is_ident_char(c),
{
    is_ident_start_char(c) || ('0' <= c && c <= '9')
}

pub fn ident_run(s: &Vec<char>, p: usize) -> (q: usize)
    requires
        p <= s@.len(),
    ensures
        q == ident_end(s@, p as int),
{
    let mut q = p;
    while q < s.len() && is_ident_char_char(s[q])
        invariant
            p <= q <= s@.len(),
            ident_end(s@, p as int) == ident_end(s@, q as int),
        decreases s@.len() - q,
    {
        q = q + 1;
    }
    q
}

pub fn digit_run(s: &Vec<char>, p: usize) -> (q: usize)
    requires
        p <= s@.len(),
    ensures
        q == digit_end(s@, p as int),
{
    let mut q = p;
    while q < s.len() && '0' <= s[q] && s[q] <= '9'
        invariant
            p <= q <= s@.len(),
            digit_end(s@, p as int) == digit_end(s@, q as int),
        decreases s@.len() - q,
    {
        q = q + 1;
    }
    q
}

/// The characters `s[p..e]` as a string.
pub fn slice_text(s: &Vec<char>, p: usize, e: usize) -> (r: String)
    requires
        p <= e <= s@.len(),
    ensures
        r@ == s@.subrange(p as int, e as int),
{
    let mut r = String::new();
    let mut i = p;
    while i < e
        invariant
            p <= i <= e <= s@.len(),
            r@ == s@.subrange(p as int, i as int),
        decreases e - i,
    {
        push_char(&mut r, s[i]);
        assert(r@ =~= s@.subrange(p as int, i + 1));
        i = i + 1;
    }
    r
}

/// Whether `s[q..]` starts with `w`.
pub fn starts_with(s: &Vec<char>, q: usize, w: &Vec<char>) -> (r: bool)
    requires
        q <= s@.len(),
    ensures
        r == (q + w@.len() <= s@.len() && s@.subrange(q as int, q + w@.len()) == w@),
{
    if w.len() > s.len() - q {
        return false;
    }
    let n = s.len();
    let mut i: usize = 0;
    while i < w.len()
        invariant
            i <= w@.len(),
            n == s@.len(),
            q <= s@.len(),
            q + w@.len() <= s@.len(),
            forall|j: int| 0 <= j < i ==> s@[q + j] == w@[j],
        decreases w@.len() - i,
    {
        if s[q + i] != w[i] {
            assert(s@.subrange(q as int, q + w@.len())[i as int] != w@[i as int]);
            return false;
        }
        i = i + 1;
    }
    assert(s@.subrange(q as int, q + w@.len()) =~= w@);
    true
}

pub fn ident_token(s: &Vec<char>, p: usize, f: &mut Failure) -> (r: Option<(String, usize)>)
    requires
        p <= s@.len(),
    ensures
        match r {
            Some((t, e)) => tok_ident(s@, p as int) == Some((t@, e as int)),
            None => tok_ident(s@, p as int) is None,
        },
        kept(*old(f), *final(f), s@),
{
    proof {
        reveal(tok_ident);
    }
    let q = skip(s, p);
    if q < s.len() && is_ident_start_char(s[q]) {
        let e = ident_run(s, q);
        Some((slice_text(s, q, e), e))
    } else {
        record(f, q, "identifier");
        None
    }
}

pub fn keyword(s: &Vec<char>, p: usize, word: &str, f: &mut Failure) -> (r: Option<usize>)
    requires
        p <= s@.len(),
    ensures
        same_pos(r, kw(s@, p as int, word@)),
        kept(*old(f), *final(f), s@),
{
    proof {
        reveal(kw);
        reveal(tok_ident);
    }
    let q = skip(s, p);
    let w = chars_of(word);
    if q < s.len() && is_ident_start_char(s[q]) {
        let e = ident_run(s, q);
        if e - q == w.len() && starts_with(s, q, &w) {
            return Some(e);
        }
    }
    record(f, q, word);
    None
}

pub fn char_token(s: &Vec<char>, p: usize, c: char, f: &mut Failure) -> (r: Option<usize>)
    requires
        p <= s@.len(),
    ensures
        same_pos(r, ch(s@, p as int, c)),
        kept(*old(f), *final(f), s@),
{
    proof {
        reveal(ch);
    }
    let q = skip(s, p);
    if q < s.len() && s[q] == c {
        Some(q + 1)
    } else {
        let mut label = String::new();
        push_char(&mut label, c);
        record(f, q, label.as_str());
        None
    }
}

fn label2(a: char, b: char) -> String {
    let mut label = String::new();
    push_char(&mut label, a);
    push_char(&mut label, b);
    label
}

pub fn symbol2(s: &Vec<char>, p: usize, a: char, b: char, f: &mut Failure) -> (r: Option<usize>)
    requires
        p <= s@.len(),
    ensures
        same_pos(r, sym2(s@, p as int, a, b)),
        kept(*old(f), *final(f), s@),
{
    proof {
        reveal(sym2);
    }
    let q = skip(s, p);
    if q < s.len() && s.len() - q >= 2 && s[q] == a && s[q + 1] == b {
        Some(q + 2)
    } else {
        let label = label2(a, b);
        record(f, q, label.as_str());
        None
    }
}

pub fn symbol3(s: &Vec<char>, p: usize, a: char, b: char, c: char, f: &mut Failure) -> (r: Option<
    usize,
>)
    requires
        p <= s@.len(),
    ensures
        same_pos(r, sym3(s@, p as int, a, b, c)),
        kept(*old(f), *final(f), s@),
{
    proof {
        reveal(sym3);
    }
    let q = skip(s, p);
    if q < s.len() && s.len() - q >= 3 && s[q] == a && s[q + 1] == b && s[q + 2] == c {
        Some(q + 3)
    } else {
        let mut label = label2(a, b);
        push_char(&mut label, c);
        record(f, q, label.as_str());
        None
    }
}

pub fn ident_follows(s: &Vec<char>, p: usize) -> (r: bool)
    requires
        p <= s@.len(),
    ensures
        r == ident_next(s@, p as int),
{
    let q = skip(s, p);
    q < s.len() && is_ident_start_char(s[q])
}

/// The character at `p` is `c`, with no whitespace before it.
pub fn at_char(s: &Vec<char>, p: usize, c: char) -> (r: bool)
    ensures
        r == at(s@, p as int, c),
        s@.len() <= usize::MAX,
{
    p < s.len() && s[p] == c
}

pub fn label_token(s: &Vec<char>, p: usize) -> (r: Option<(String, usize)>)
    requires
        p <= s@.len(),
    ensures
        match r {
            Some((t, e)) => label_after(s@, p as int) == Some((t@, e as int)) && p < e <= s@.len(),
            None => label_after(s@, p as int) is None,
        },
{
    proof {
        reveal(label_after);
    }
    if p < s.len() && s.len() - p >= 2 && s[p] == '@' && is_ident_start_char(s[p + 1]) {
        let e = ident_run(s, p + 1);
        Some((slice_text(s, p + 1, e), e))
    } else {
        None
    }
}

pub fn skip_semis(s: &Vec<char>, p: usize, f: &mut Failure) -> (q: usize)
    requires
        p <= s@.len(),
    ensures
        q == semis(s@, p as int),
        p <= q <= s@.len(),
        kept(*old(f), *final(f), s@),
{
    let mut q = p;
    loop
        invariant
            p <= q <= s@.len(),
            semis(s@, p as int) == semis(s@, q as int),
            kept(*old(f), *f, s@),
        ensures
            q == semis(s@, p as int),
        decreases s@.len() - q,
    {
        match char_token(s, q, ';', f) {
            Some(e) => {
                assert(semis(s@, q as int) == semis(s@, e as int));
                q = e;
            },
            None => {
                assert(semis(s@, q as int) == q);
                break;
            },
        }
    }
    q
}

/// Whether two strings hold the same characters.
pub fn same_text(a: &str, b: &str) -> (r: bool)
    ensures
        r == (a@ == b@),
{
    let x = a.to_owned();
    let y = b.to_owned();
    x == y
}


} // verus!
