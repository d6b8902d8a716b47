//! Modifiers, dotted paths, annotations and argument lists.
use vstd::prelude::*;
use crate::ast::{Annotation, AnnotationSet, AnnotationSite, CallArg, InvocationArg, Modifier, Path};
use crate::chars::{group_runs, group_tokens, skip_ws};
use crate::expression::{g_expression, parse_expression};
use crate::model::{
    agrees, group_trees, list, list_part, node, opt_part, pass, path_tree, trees_annotation_sets,
    trees_texts,
    trees_annotations, trees_call_args, trees_invocation_args, Shape, Tree,
};
use crate::token::{
    at, at_char, ch, char_token, ident_follows, ident_next, ident_token, kept, same_text, skip,
    tok_ident, within, Failure,
};

verus! {

broadcast use {group_runs, group_tokens, group_trees};

/// The modifier that a word names, if any.
pub open spec fn modifier_word(w: Seq<char>) -> Option<Modifier> {
    if w == "abstract"@ {
        Some(Modifier::Abstract)
    } else if w == "final"@ {
        Some(Modifier::Final)
    } else if w == "open"@ {
        Some(Modifier::Open)
    } else if w == "annotation"@ {
        Some(Modifier::Annotation)
    } else if w == "sealed"@ {
        Some(Modifier::Sealed)
    } else if w == "data"@ {
        Some(Modifier::Data)
    } else if w == "override"@ {
        Some(Modifier::Override)
    } else if w == "lateinit"@ {
        Some(Modifier::Lateinit)
    } else if w == "inner"@ {
        Some(Modifier::Inner)
    } else if w == "private"@ {
        Some(Modifier::Private)
    } else if w == "protected"@ {
        Some(Modifier::Protected)
    } else if w == "public"@ {
        Some(Modifier::Public)
    } else if w == "internal"@ {
        Some(Modifier::Internal)
    } else if w == "in"@ {
        Some(Modifier::In)
    } else if w == "out"@ {
        Some(Modifier::Out)
    } else if w == "noinline"@ {
        Some(Modifier::NoInline)
    } else if w == "crossinline"@ {
        Some(Modifier::CrossInline)
    } else if w == "vararg"@ {
        Some(Modifier::Vararg)
    } else if w == "reified"@ {
        Some(Modifier::Reified)
    } else if w == "tailrec"@ {
        Some(Modifier::Tailrec)
    } else if w == "operator"@ {
        Some(Modifier::Operator)
    } else if w == "infix"@ {
        Some(Modifier::Infix)
    } else if w == "inline"@ {
        Some(Modifier::Inline)
    } else if w == "external"@ {
        Some(Modifier::External)
    } else if w == "suspend"@ {
        Some(Modifier::Suspend)
    } else if w == "const"@ {
        Some(Modifier::Const)
    } else if w == "actual"@ {
        Some(Modifier::Actual)
    } else if w == "expect"@ {
        Some(Modifier::Expect)
    } else {
        None
    }
}

/// The annotation site that a word names, if any.
pub open spec fn site_word(w: Seq<char>) -> Option<AnnotationSite> {
    if w == "field"@ {
        Some(AnnotationSite::Field)
    } else if w == "property"@ {
        Some(AnnotationSite::Property)
    } else if w == "get"@ {
        Some(AnnotationSite::Get)
    } else if w == "set"@ {
        Some(AnnotationSite::Setter)
    } else if w == "receiver"@ {
        Some(AnnotationSite::Receiver)
    } else if w == "param"@ {
        Some(AnnotationSite::Param)
    } else if w == "setparam"@ {
        Some(AnnotationSite::SetParam)
    } else if w == "delegate"@ {
        Some(AnnotationSite::Delegate)
    } else {
        None
    }
}

/// A modifier word; it counts as one only where another word or the end of
/// the input follows it, so that `data` in `fun f(data: Int)` stays a name.
pub open spec fn g_modifier(s: Seq<char>, p: int) -> Option<(Modifier, int)> {
    match tok_ident(s, p) {
        Some((w, e)) => if (ident_next(s, e) || skip_ws(s, e) == s.len()) && modifier_word(w)
            is Some {
            Some((modifier_word(w)->0, e))
        } else {
            None
        },
        None => None,
    }
}

pub open spec fn g_modifiers(s: Seq<char>, p: int) -> (Seq<Modifier>, int)
    decreases s.len() - p,
{
    match g_modifier(s, p) {
        Some((m, q)) => if within(s, p + 1, q) {
            let rest = g_modifiers(s, q);
            (seq![m] + rest.0, rest.1)
        } else {
            (Seq::empty(), p)
        },
        None => (Seq::empty(), p),
    }
}

pub open spec fn g_path_more(s: Seq<char>, p: int) -> (Seq<Tree>, int)
    decreases s.len() - p,
{
    match ch(s, p, '.') {
        Some(p1) => match tok_ident(s, p1) {
            Some((n, q)) => if within(s, p + 1, q) {
                let rest = g_path_more(s, q);
                (seq![Tree::Text(n)] + rest.0, rest.1)
            } else {
                (Seq::empty(), p)
            },
            None => (Seq::empty(), p),
        },
        None => (Seq::empty(), p),
    }
}

/// `a.b.c`: names joined by dots.
pub open spec fn g_path(s: Seq<char>, p: int) -> Option<(Tree, int)> {
    match tok_ident(s, p) {
        Some((n, q)) => {
            let rest = g_path_more(s, q);
            Some((list(seq![Tree::Text(n)] + rest.0), rest.1))
        },
        None => None,
    }
}

/// `name =` before an argument; `==` is no such marker.
pub open spec fn arg_name(s: Seq<char>, p: int) -> (Tree, int) {
    match tok_ident(s, p) {
        Some((n, q)) => match ch(s, q, '=') {
            Some(q1) => if !at(s, q1, '=') {
                (Tree::Text(n), q1)
            } else {
                (Tree::Absent, p)
            },
            None => (Tree::Absent, p),
        },
        None => (Tree::Absent, p),
    }
}

/// `path` or `path(args)`.
pub open spec fn g_annotation(s: Seq<char>, p: int) -> Option<(Tree, int)>
    decreases s.len() - p, 0int,
{
    match pass(s, p + 1, g_path(s, p)) {
        Some((path, q)) => {
            let (args, q1) = match pass(s, q, g_invocation_arg_list(s, q)) {
                Some((a, q1)) => (a, q1),
                None => (list(Seq::empty()), q),
            };
            Some((node(Shape::Annotation, seq![path, args]), q1))
        },
        None => None,
    }
}

/// `@site:Name(args)` or `@site:[A B]`, the site optional.
pub open spec fn g_annotation_set(s: Seq<char>, p: int) -> Option<(Tree, int)>
    decreases s.len() - p, 1int,
{
    let q = skip_ws(s, p);
    if at(s, q, '@') {
        let (site, p1) = match tok_ident(s, q + 1) {
            Some((w, q1)) => if site_word(w) is Some && ch(s, q1, ':') is Some {
                (Tree::Site(site_word(w)->0), ch(s, q1, ':')->0)
            } else {
                (Tree::Absent, q + 1)
            },
            None => (Tree::Absent, q + 1),
        };
        match ch(s, p1, '[') {
            Some(p2) => match list_part(s, p2, g_annotations(s, p2)) {
                Some((anns, p3)) => match ch(s, p3, ']') {
                    Some(p4) => Some((node(Shape::AnnotationSet, seq![site, anns]), p4)),
                    None => None,
                },
                None => None,
            },
            None => match pass(s, p1, g_annotation(s, p1)) {
                Some((a, p2)) => Some((node(Shape::AnnotationSet, seq![site, list(seq![a])]), p2)),
                None => None,
            },
        }
    } else {
        None
    }
}

pub open spec fn g_invocation_arg(s: Seq<char>, p: int) -> Option<(Tree, int)>
    decreases s.len() - p, 8int,
{
    let (name, p1) = arg_name(s, p);
    match pass(s, p1, g_expression(s, p1)) {
        Some((e, q)) => Some((node(Shape::InvocationArg, seq![name, e]), q)),
        None => None,
    }
}

/// `name = *value`, the name and the spread marker optional.
pub open spec fn g_call_arg(s: Seq<char>, p: int) -> Option<(Tree, int)>
    decreases s.len() - p, 8int,
{
    let (name, p1) = arg_name(s, p);
    let (spread, p2) = match ch(s, p1, '*') {
        Some(q) => (true, q),
        None => (false, p1),
    };
    match pass(s, p2, g_expression(s, p2)) {
        Some((e, q)) => Some((node(Shape::CallArg, seq![name, e, Tree::Flag(spread)]), q)),
        None => None,
    }
}

/// `( args )`, as a list.
pub open spec fn g_invocation_arg_list(s: Seq<char>, p: int) -> Option<(Tree, int)>
    decreases s.len() - p, 0int,
{
    match ch(s, p, '(') {
        Some(p1) => match list_part(s, p1, g_invocation_args(s, p1)) {
            Some((a, p2)) => match ch(s, p2, ')') {
                Some(p3) => Some((a, p3)),
                None => None,
            },
            None => None,
        },
        None => None,
    }
}

/// `( args )`, as a list.
pub open spec fn g_call_arg_list(s: Seq<char>, p: int) -> Option<(Tree, int)>
    decreases s.len() - p, 0int,
{
    match ch(s, p, '(') {
        Some(p1) => match list_part(s, p1, g_call_args(s, p1)) {
            Some((a, p2)) => match ch(s, p2, ')') {
                Some(p3) => Some((a, p3)),
                None => None,
            },
            None => None,
        },
        None => None,
    }
}

pub open spec fn g_annotations(s: Seq<char>, p: int) -> (Seq<Tree>, int)
    decreases s.len() - p, 1int,
{
    match g_annotation(s, p) {
        Some((t, q)) => if within(s, p + 1, q) {
            let rest = g_annotations(s, q);
            (seq![t] + rest.0, rest.1)
        } else {
            (Seq::empty(), p)
        },
        None => (Seq::empty(), p),
    }
}

pub fn parse_annotations(s: &Vec<char>, p: usize, f: &mut Failure) -> (r: (Vec<Annotation>, usize))
    requires
        p <= s@.len(),
    ensures
        p <= r.1 <= s@.len(),
        g_annotations(s@, p as int) == (trees_annotations(r.0@), r.1 as int),
        kept(*old(f), *final(f), s@),
    decreases s@.len() - p, 1int,
{
    let mut v: Vec<Annotation> = Vec::new();
    let mut cur = p;
    assert(trees_annotations(v@) + g_annotations(s@, p as int).0 =~= g_annotations(s@, p as int).0);
    loop
        invariant
            p <= cur <= s@.len(),
            g_annotations(s@, p as int) == (trees_annotations(v@) + g_annotations(s@, cur as int).0, g_annotations(s@, cur as int).1),
            kept(*old(f), *f, s@),
        ensures
            p <= cur <= s@.len(),
            g_annotations(s@, p as int) == (trees_annotations(v@), cur as int),
        decreases s@.len() - cur,
    {
        match parse_annotation(s, cur, f) {
            Some((x, q)) => {
                if q <= cur {
                    assert(trees_annotations(v@) + Seq::<Tree>::empty() =~= trees_annotations(v@));
                    break;
                }
                let ghost old_v = v@;
                let ghost rest = g_annotations(s@, q as int);
                v.push(x);
                assert(trees_annotations(v@) + rest.0 =~= trees_annotations(old_v) + (seq![x.tree()] + rest.0));
                cur = q;
            },
            None => {
                assert(trees_annotations(v@) + Seq::<Tree>::empty() =~= trees_annotations(v@));
                break;
            },
        }
    }
    (v, cur)
}

pub open spec fn g_annotation_sets(s: Seq<char>, p: int) -> (Seq<Tree>, int)
    decreases s.len() - p, 2int,
{
    match g_annotation_set(s, p) {
        Some((t, q)) => if within(s, p + 1, q) {
            let rest = g_annotation_sets(s, q);
            (seq![t] + rest.0, rest.1)
        } else {
            (Seq::empty(), p)
        },
        None => (Seq::empty(), p),
    }
}

pub fn parse_annotation_sets(s: &Vec<char>, p: usize, f: &mut Failure) -> (r: (Vec<AnnotationSet>, usize))
    requires
        p <= s@.len(),
    ensures
        p <= r.1 <= s@.len(),
        g_annotation_sets(s@, p as int) == (trees_annotation_sets(r.0@), r.1 as int),
        kept(*old(f), *final(f), s@),
    decreases s@.len() - p, 2int,
{
    let mut v: Vec<AnnotationSet> = Vec::new();
    let mut cur = p;
    assert(trees_annotation_sets(v@) + g_annotation_sets(s@, p as int).0 =~= g_annotation_sets(s@, p as int).0);
    loop
        invariant
            p <= cur <= s@.len(),
            g_annotation_sets(s@, p as int) == (trees_annotation_sets(v@) + g_annotation_sets(s@, cur as int).0, g_annotation_sets(s@, cur as int).1),
            kept(*old(f), *f, s@),
        ensures
            p <= cur <= s@.len(),
            g_annotation_sets(s@, p as int) == (trees_annotation_sets(v@), cur as int),
        decreases s@.len() - cur,
    {
        match parse_annotation_set(s, cur, f) {
            Some((x, q)) => {
                if q <= cur {
                    assert(trees_annotation_sets(v@) + Seq::<Tree>::empty() =~= trees_annotation_sets(v@));
                    break;
                }
                let ghost old_v = v@;
                let ghost rest = g_annotation_sets(s@, q as int);
                v.push(x);
                assert(trees_annotation_sets(v@) + rest.0 =~= trees_annotation_sets(old_v) + (seq![x.tree()] + rest.0));
                cur = q;
            },
            None => {
                assert(trees_annotation_sets(v@) + Seq::<Tree>::empty() =~= trees_annotation_sets(v@));
                break;
            },
        }
    }
    (v, cur)
}

pub open spec fn g_invocation_args(s: Seq<char>, p: int) -> (Seq<Tree>, int)
    decreases s.len() - p, 9int,
{
    match g_invocation_arg(s, p) {
        Some((t, q)) => if within(s, p, q) {
            let rest = g_invocation_args_more(s, q);
            (seq![t] + rest.0, rest.1)
        } else {
            (Seq::empty(), p)
        },
        None => (Seq::empty(), p),
    }
}

pub open spec fn g_invocation_args_more(s: Seq<char>, p: int) -> (Seq<Tree>, int)
    decreases s.len() - p, 0int,
{
    match ch(s, p, ',') {
        Some(p1) => match g_invocation_arg(s, p1) {
            Some((t, q)) => if within(s, p1, q) {
                let rest = g_invocation_args_more(s, q);
                (seq![t] + rest.0, rest.1)
            } else {
                (Seq::empty(), p)
            },
            None => (Seq::empty(), p),
        },
        None => (Seq::empty(), p),
    }
}

pub fn parse_invocation_args(s: &Vec<char>, p: usize, f: &mut Failure) -> (r: (Vec<InvocationArg>, usize))
    requires
        p <= s@.len(),
    ensures
        p <= r.1 <= s@.len(),
        g_invocation_args(s@, p as int) == (trees_invocation_args(r.0@), r.1 as int),
        kept(*old(f), *final(f), s@),
    decreases s@.len() - p, 9int,
{
    let mut v: Vec<InvocationArg> = Vec::new();
    let mut cur = p;
    match parse_invocation_arg(s, p, f) {
        None => return (v, p),
        Some((x, q)) => {
            v.push(x);
            cur = q;
            assert(trees_invocation_args(v@) =~= seq![x.tree()]);
        },
    }
    loop
        invariant
            p <= cur <= s@.len(),
            g_invocation_args(s@, p as int) == (trees_invocation_args(v@) + g_invocation_args_more(s@, cur as int).0, g_invocation_args_more(s@, cur as int).1),
            kept(*old(f), *f, s@),
        ensures
            p <= cur <= s@.len(),
            g_invocation_args(s@, p as int) == (trees_invocation_args(v@), cur as int),
        decreases s@.len() - cur,
    {
        match char_token(s, cur, ',', f) {
            None => {
                assert(trees_invocation_args(v@) + Seq::<Tree>::empty() =~= trees_invocation_args(v@));
                break;
            },
            Some(c1) => match parse_invocation_arg(s, c1, f) {
                None => {
                    assert(trees_invocation_args(v@) + Seq::<Tree>::empty() =~= trees_invocation_args(v@));
                    break;
                },
                Some((x, q)) => {
                    let ghost old_v = v@;
                    let ghost rest = g_invocation_args_more(s@, q as int);
                    v.push(x);
                    assert(trees_invocation_args(v@) + rest.0 =~= trees_invocation_args(old_v) + (seq![x.tree()] + rest.0));
                    cur = q;
                },
            },
        }
    }
    (v, cur)
}

pub open spec fn g_call_args(s: Seq<char>, p: int) -> (Seq<Tree>, int)
    decreases s.len() - p, 9int,
{
    match g_call_arg(s, p) {
        Some((t, q)) => if within(s, p, q) {
            let rest = g_call_args_more(s, q);
            (seq![t] + rest.0, rest.1)
        } else {
            (Seq::empty(), p)
        },
        None => (Seq::empty(), p),
    }
}

pub open spec fn g_call_args_more(s: Seq<char>, p: int) -> (Seq<Tree>, int)
    decreases s.len() - p, 0int,
{
    match ch(s, p, ',') {
        Some(p1) => match g_call_arg(s, p1) {
            Some((t, q)) => if within(s, p1, q) {
                let rest = g_call_args_more(s, q);
                (seq![t] + rest.0, rest.1)
            } else {
                (Seq::empty(), p)
            },
            None => (Seq::empty(), p),
        },
        None => (Seq::empty(), p),
    }
}

pub fn parse_call_args(s: &Vec<char>, p: usize, f: &mut Failure) -> (r: (Vec<CallArg>, usize))
    requires
        p <= s@.len(),
    ensures
        p <= r.1 <= s@.len(),
        g_call_args(s@, p as int) == (trees_call_args(r.0@), r.1 as int),
        kept(*old(f), *final(f), s@),
    decreases s@.len() - p, 9int,
{
    let mut v: Vec<CallArg> = Vec::new();
    let mut cur = p;
    match parse_call_arg(s, p, f) {
        None => return (v, p),
        Some((x, q)) => {
            v.push(x);
            cur = q;
            assert(trees_call_args(v@) =~= seq![x.tree()]);
        },
    }
    loop
        invariant
            p <= cur <= s@.len(),
            g_call_args(s@, p as int) == (trees_call_args(v@) + g_call_args_more(s@, cur as int).0, g_call_args_more(s@, cur as int).1),
            kept(*old(f), *f, s@),
        ensures
            p <= cur <= s@.len(),
            g_call_args(s@, p as int) == (trees_call_args(v@), cur as int),
        decreases s@.len() - cur,
    {
        match char_token(s, cur, ',', f) {
            None => {
                assert(trees_call_args(v@) + Seq::<Tree>::empty() =~= trees_call_args(v@));
                break;
            },
            Some(c1) => match parse_call_arg(s, c1, f) {
                None => {
                    assert(trees_call_args(v@) + Seq::<Tree>::empty() =~= trees_call_args(v@));
                    break;
                },
                Some((x, q)) => {
                    let ghost old_v = v@;
                    let ghost rest = g_call_args_more(s@, q as int);
                    v.push(x);
                    assert(trees_call_args(v@) + rest.0 =~= trees_call_args(old_v) + (seq![x.tree()] + rest.0));
                    cur = q;
                },
            },
        }
    }
    (v, cur)
}

fn modifier_word_of(w: &String) -> (r: Option<Modifier>)
    ensures
        r == modifier_word(w@),
{
    if same_text(w.as_str(), "abstract") {
        return Some(Modifier::Abstract);
    }
    if same_text(w.as_str(), "final") {
        return Some(Modifier::Final);
    }
    if same_text(w.as_str(), "open") {
        return Some(Modifier::Open);
    }
    if same_text(w.as_str(), "annotation") {
        return Some(Modifier::Annotation);
    }
    if same_text(w.as_str(), "sealed") {
        return Some(Modifier::Sealed);
    }
    if same_text(w.as_str(), "data") {
        return Some(Modifier::Data);
    }
    if same_text(w.as_str(), "override") {
        return Some(Modifier::Override);
    }
    if same_text(w.as_str(), "lateinit") {
        return Some(Modifier::Lateinit);
    }
    if same_text(w.as_str(), "inner") {
        return Some(Modifier::Inner);
    }
    if same_text(w.as_str(), "private") {
        return Some(Modifier::Private);
    }
    if same_text(w.as_str(), "protected") {
        return Some(Modifier::Protected);
    }
    if same_text(w.as_str(), "public") {
        return Some(Modifier::Public);
    }
    if same_text(w.as_str(), "internal") {
        return Some(Modifier::Internal);
    }
    if same_text(w.as_str(), "in") {
        return Some(Modifier::In);
    }
    if same_text(w.as_str(), "out") {
        return Some(Modifier::Out);
    }
    if same_text(w.as_str(), "noinline") {
        return Some(Modifier::NoInline);
    }
    if same_text(w.as_str(), "crossinline") {
        return Some(Modifier::CrossInline);
    }
    if same_text(w.as_str(), "vararg") {
        return Some(Modifier::Vararg);
    }
    if same_text(w.as_str(), "reified") {
        return Some(Modifier::Reified);
    }
    if same_text(w.as_str(), "tailrec") {
        return Some(Modifier::Tailrec);
    }
    if same_text(w.as_str(), "operator") {
        return Some(Modifier::Operator);
    }
    if same_text(w.as_str(), "infix") {
        return Some(Modifier::Infix);
    }
    if same_text(w.as_str(), "inline") {
        return Some(Modifier::Inline);
    }
    if same_text(w.as_str(), "external") {
        return Some(Modifier::External);
    }
    if same_text(w.as_str(), "suspend") {
        return Some(Modifier::Suspend);
    }
    if same_text(w.as_str(), "const") {
        return Some(Modifier::Const);
    }
    if same_text(w.as_str(), "actual") {
        return Some(Modifier::Actual);
    }
    if same_text(w.as_str(), "expect") {
        return Some(Modifier::Expect);
    }
    None
}

fn site_word_of(w: &String) -> (r: Option<AnnotationSite>)
    ensures
        r == site_word(w@),
{
    if same_text(w.as_str(), "field") {
        return Some(AnnotationSite::Field);
    }
    if same_text(w.as_str(), "property") {
        return Some(AnnotationSite::Property);
    }
    if same_text(w.as_str(), "get") {
        return Some(AnnotationSite::Get);
    }
    if same_text(w.as_str(), "set") {
        return Some(AnnotationSite::Setter);
    }
    if same_text(w.as_str(), "receiver") {
        return Some(AnnotationSite::Receiver);
    }
    if same_text(w.as_str(), "param") {
        return Some(AnnotationSite::Param);
    }
    if same_text(w.as_str(), "setparam") {
        return Some(AnnotationSite::SetParam);
    }
    if same_text(w.as_str(), "delegate") {
        return Some(AnnotationSite::Delegate);
    }
    None
}

pub fn parse_modifier(s: &Vec<char>, p: usize, f: &mut Failure) -> (r: Option<(Modifier, usize)>)
    requires
        p <= s@.len(),
    ensures
        match r {
            Some((m, e)) => g_modifier(s@, p as int) == Some((m, e as int)) && p < e <= s@.len(),
            None => g_modifier(s@, p as int) is None,
        },
        kept(*old(f), *final(f), s@),
{
    match ident_token(s, p, f) {
        Some((w, e)) => {
            if !ident_follows(s, e) && skip(s, e) != s.len() {
                return None;
            }
            match modifier_word_of(&w) {
                Some(m) => Some((m, e)),
                None => None,
            }
        },
        None => None,
    }
}

pub fn parse_modifiers(s: &Vec<char>, p: usize, f: &mut Failure) -> (r: (Vec<Modifier>, usize))
    requires
        p <= s@.len(),
    ensures
        p <= r.1 <= s@.len(),
        g_modifiers(s@, p as int) == (r.0@, r.1 as int),
        kept(*old(f), *final(f), s@),
{
    let mut v: Vec<Modifier> = Vec::new();
    let mut cur = p;
    loop
        invariant
            p <= cur <= s@.len(),
            g_modifiers(s@, p as int) == (v@ + g_modifiers(s@, cur as int).0, g_modifiers(s@, cur as int).1),
            kept(*old(f), *f, s@),
        ensures
            p <= cur <= s@.len(),
            g_modifiers(s@, p as int) == (v@, cur as int),
        decreases s@.len() - cur,
    {
        match parse_modifier(s, cur, f) {
            Some((m, q)) => {
                let ghost old_v = v@;
                let ghost rest = g_modifiers(s@, q as int);
                v.push(m);
                assert(v@ + rest.0 =~= old_v + (seq![m] + rest.0));
                cur = q;
            },
            None => {
                assert(v@ + Seq::<Modifier>::empty() =~= v@);
                break;
            },
        }
    }
    (v, cur)
}

pub fn parse_path(s: &Vec<char>, p: usize, f: &mut Failure) -> (r: Option<(Path, usize)>)
    requires
        p <= s@.len(),
    ensures
        match r {
            Some((v, e)) => p < e <= s@.len() && g_path(s@, p as int) == Some((path_tree(v), e as int)),
            None => g_path(s@, p as int) is None,
        },
        kept(*old(f), *final(f), s@),
{
    let (first, q) = match ident_token(s, p, f) {
        Some(x) => x,
        None => return None,
    };
    let ghost t0 = Tree::Text(first@);
    let mut v: Vec<String> = Vec::new();
    v.push(first);
    let mut cur = q;
    assert(trees_texts(v@) =~= seq![t0]);
    loop
        invariant
            q <= cur <= s@.len(),
            p < q,
            seq![t0] + g_path_more(s@, q as int).0 == trees_texts(v@)
                + g_path_more(s@, cur as int).0,
            g_path_more(s@, q as int).1 == g_path_more(s@, cur as int).1,
            g_path(s@, p as int) == Some((list(seq![t0] + g_path_more(s@, q as int).0), g_path_more(s@, q as int).1)),
            kept(*old(f), *f, s@),
        ensures
            q <= cur <= s@.len(),
            seq![t0] + g_path_more(s@, q as int).0 == trees_texts(v@),
            g_path_more(s@, q as int).1 == cur,
        decreases s@.len() - cur,
    {
        let c1 = match char_token(s, cur, '.', f) {
            Some(c1) => c1,
            None => {
                assert(trees_texts(v@) + Seq::<Tree>::empty() =~= trees_texts(v@));
                break;
            },
        };
        match ident_token(s, c1, f) {
            Some((n, e)) => {
                let ghost old_v = v@;
                let ghost rest = g_path_more(s@, e as int);
                let ghost tn = Tree::Text(n@);
                v.push(n);
                assert(trees_texts(v@) =~= trees_texts(old_v).push(tn));
                assert(trees_texts(v@) + rest.0 =~= trees_texts(old_v) + (seq![tn] + rest.0));
                cur = e;
            },
            None => {
                assert(trees_texts(v@) + Seq::<Tree>::empty() =~= trees_texts(v@));
                break;
            },
        }
    }
    Some((v, cur))
}

/// Reads `name =` before an argument.
fn parse_arg_name(s: &Vec<char>, p: usize, f: &mut Failure) -> (r: (Option<String>, usize))
    requires
        p <= s@.len(),
    ensures
        arg_name(s@, p as int) == (
            match r.0 {
                Some(n) => Tree::Text(n@),
                None => Tree::Absent,
            },
            r.1 as int,
        ),
        p <= r.1 <= s@.len(),
        kept(*old(f), *final(f), s@),
{
    match ident_token(s, p, f) {
        Some((n, q)) => match char_token(s, q, '=', f) {
            Some(q1) => if !at_char(s, q1, '=') {
                (Some(n), q1)
            } else {
                (None, p)
            },
            None => (None, p),
        },
        None => (None, p),
    }
}

pub fn parse_annotation(s: &Vec<char>, p: usize, f: &mut Failure) -> (r: Option<(Annotation, usize)>)
    requires
        p <= s@.len(),
    ensures
        agrees(r, g_annotation(s@, p as int), p as int, s@.len() as int),
        kept(*old(f), *final(f), s@),
    decreases s@.len() - p, 0int,
{
    reveal(Annotation::tree);
    let (path, q) = match parse_path(s, p, f) {
        Some(x) => x,
        None => return None,
    };
    let (args, q1) = match parse_invocation_arg_list(s, q, f) {
        Some((a, q1)) => (a, q1),
        None => {
            let a: Vec<InvocationArg> = Vec::new();
            assert(trees_invocation_args(a@) =~= Seq::<Tree>::empty());
            (a, q)
        },
    };
    Some((Annotation { path, args }, q1))
}

pub fn parse_annotation_set(s: &Vec<char>, p: usize, f: &mut Failure) -> (r: Option<(AnnotationSet, usize)>)
    requires
        p <= s@.len(),
    ensures
        agrees(r, g_annotation_set(s@, p as int), p as int, s@.len() as int),
        kept(*old(f), *final(f), s@),
    decreases s@.len() - p, 1int,
{
    reveal(AnnotationSet::tree);
    let q = skip(s, p);
    if !at_char(s, q, '@') {
        return None;
    }
    let (site, p1) = match ident_token(s, q + 1, f) {
        Some((w, q1)) => {
            match site_word_of(&w) {
                Some(st) => match char_token(s, q1, ':', f) {
                    Some(q2) => (Some(st), q2),
                    None => (None, q + 1),
                },
                None => (None, q + 1),
            }
        },
        None => (None, q + 1),
    };
    match char_token(s, p1, '[', f) {
        Some(p2) => {
            let (annotations, p3) = parse_annotations(s, p2, f);
            match char_token(s, p3, ']', f) {
                Some(p4) => Some((AnnotationSet { site, annotations }, p4)),
                None => None,
            }
        },
        None => match parse_annotation(s, p1, f) {
            Some((a, p2)) => {
                let mut annotations: Vec<Annotation> = Vec::new();
                annotations.push(a);
                assert(trees_annotations(annotations@) =~= seq![a.tree()]);
                Some((AnnotationSet { site, annotations }, p2))
            },
            None => None,
        },
    }
}

pub fn parse_invocation_arg(s: &Vec<char>, p: usize, f: &mut Failure) -> (r: Option<(InvocationArg, usize)>)
    requires
        p <= s@.len(),
    ensures
        agrees(r, g_invocation_arg(s@, p as int), p as int, s@.len() as int),
        kept(*old(f), *final(f), s@),
    decreases s@.len() - p, 8int,
{
    reveal(InvocationArg::tree);
    let (name, p1) = parse_arg_name(s, p, f);
    match parse_expression(s, p1, f) {
        Some((e, q)) => Some((InvocationArg { name, value: Box::new(e) }, q)),
        None => None,
    }
}

pub fn parse_call_arg(s: &Vec<char>, p: usize, f: &mut Failure) -> (r: Option<(CallArg, usize)>)
    requires
        p <= s@.len(),
    ensures
        agrees(r, g_call_arg(s@, p as int), p as int, s@.len() as int),
        kept(*old(f), *final(f), s@),
    decreases s@.len() - p, 8int,
{
    reveal(CallArg::tree);
    let (name, p1) = parse_arg_name(s, p, f);
    let (is_spread, p2) = match char_token(s, p1, '*', f) {
        Some(q) => (true, q),
        None => (false, p1),
    };
    match parse_expression(s, p2, f) {
        Some((e, q)) => Some((CallArg { name, value: Box::new(e), is_spread }, q)),
        None => None,
    }
}

pub fn parse_invocation_arg_list(s: &Vec<char>, p: usize, f: &mut Failure) -> (r: Option<(Vec<InvocationArg>, usize)>)
    requires
        p <= s@.len(),
    ensures
        match r {
            Some((v, e)) => p <= e <= s@.len() && g_invocation_arg_list(s@, p as int) == Some(
                (list(trees_invocation_args(v@)), e as int),
            ),
            None => g_invocation_arg_list(s@, p as int) is None,
        },
        kept(*old(f), *final(f), s@),
    decreases s@.len() - p, 0int,
{
    let p1 = match char_token(s, p, '(', f) {
        Some(p1) => p1,
        None => return None,
    };
    let (v, p2) = parse_invocation_args(s, p1, f);
    match char_token(s, p2, ')', f) {
        Some(p3) => Some((v, p3)),
        None => None,
    }
}

pub fn parse_call_arg_list(s: &Vec<char>, p: usize, f: &mut Failure) -> (r: Option<(Vec<CallArg>, usize)>)
    requires
        p <= s@.len(),
    ensures
        match r {
            Some((v, e)) => p <= e <= s@.len() && g_call_arg_list(s@, p as int) == Some(
                (list(trees_call_args(v@)), e as int),
            ),
            None => g_call_arg_list(s@, p as int) is None,
        },
        kept(*old(f), *final(f), s@),
    decreases s@.len() - p, 0int,
{
    let p1 = match char_token(s, p, '(', f) {
        Some(p1) => p1,
        None => return None,
    };
    let (v, p2) = parse_call_args(s, p1, f);
    match char_token(s, p2, ')', f) {
        Some(p3) => Some((v, p3)),
        None => None,
    }
}

} // verus!
