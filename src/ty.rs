//! The type grammar: simple and function types, type arguments, `where`
//! clauses, and variable lists.
use vstd::prelude::*;
use crate::ast::{AnonymousParam, FunctionType, SimpleType, Type, TypeBound, Var, Vars};
use crate::chars::{group_runs, group_tokens, skip_ws};
use crate::model::{
    agrees, group_trees, list, node, opt_receiver, opt_type, trees_anonymous_params, trees_type_bounds, trees_types,
    trees_vars, Shape, Tree,
};
use crate::token::{
    at, at_char, ch, char_token, ident_token, keyword, kept, kw, sym2, symbol2, tok_ident, within,
    Failure,
};

verus! {

broadcast use {group_runs, group_tokens, group_trees};


/// A type: a function type if one stands here, else a simple type.
pub open spec fn g_type(s: Seq<char>, p: int) -> Option<(Tree, int)>
    decreases s.len() - p, 3int,
{
    if g_function_type(s, p) is Some {
        g_function_type(s, p)
    } else {
        g_simple_type(s, p)
    }
}

/// `Name<Args>?`; the `?` must follow with no space.
pub open spec fn g_simple_type(s: Seq<char>, p: int) -> Option<(Tree, int)>
    decreases s.len() - p, 0int,
{
    match tok_ident(s, p) {
        Some((name, q)) => {
            let (args, q1) = match g_type_args(s, q) {
                Some((a, q1)) => (a, q1),
                None => (list(Seq::empty()), q),
            };
            if within(s, q, q1) {
                let nullable = at(s, q1, '?');
                Some(
                    (
                        node(Shape::SimpleType, seq![Tree::Text(name), args, Tree::Flag(nullable)]),
                        if nullable {
                            q1 + 1
                        } else {
                            q1
                        },
                    ),
                )
            } else {
                None
            }
        },
        None => None,
    }
}

/// `<T, U>`, as a list of types.
pub open spec fn g_type_args(s: Seq<char>, p: int) -> Option<(Tree, int)>
    decreases s.len() - p, 0int,
{
    match ch(s, p, '<') {
        Some(p1) => {
            let (ts, p2) = g_types(s, p1);
            if within(s, p1, p2) {
                match ch(s, p2, '>') {
                    Some(p3) => Some((list(ts), p3)),
                    None => None,
                }
            } else {
                None
            }
        },
        None => None,
    }
}

/// A function type wrapped in parentheses, which may then be nullable,
/// or a bare one.
pub open spec fn g_function_type(s: Seq<char>, p: int) -> Option<(Tree, int)>
    decreases s.len() - p, 2int,
{
    if g_function_wrapped(s, p) is Some {
        g_function_wrapped(s, p)
    } else {
        match g_function_core(s, p) {
            Some((rv, ps, ret, q)) => Some(
                (node(Shape::FunctionType, seq![rv, ps, ret, Tree::Flag(false)]), q),
            ),
            None => None,
        }
    }
}

/// `( core ) ?`: the closing parenthesis is required once the opening one
/// stands.
pub open spec fn g_function_wrapped(s: Seq<char>, p: int) -> Option<(Tree, int)>
    decreases s.len() - p, 1int,
{
    match ch(s, p, '(') {
        Some(p1) => match g_function_core(s, p1) {
            Some((rv, ps, ret, p2)) => if within(s, p1, p2) {
                match ch(s, p2, ')') {
                    Some(p3) => {
                        let n = at(s, p3, '?');
                        Some(
                            (
                                node(Shape::FunctionType, seq![rv, ps, ret, Tree::Flag(n)]),
                                if n {
                                    p3 + 1
                                } else {
                                    p3
                                },
                            ),
                        )
                    },
                    None => None,
                }
            } else {
                None
            },
            None => None,
        },
        None => None,
    }
}

/// `Receiver.(params) -> Result`, the receiver optional: the receiver, the
/// parameter list and the result type.
pub open spec fn g_function_core(s: Seq<char>, p: int) -> Option<(Tree, Tree, Tree, int)>
    decreases s.len() - p, 1int,
{
    let (recv, p1) = match g_simple_type(s, p) {
        Some((r, q)) => if within(s, p, q) {
            match ch(s, q, '.') {
                Some(q1) => (r, q1),
                None => (Tree::Absent, p),
            }
        } else {
            (Tree::Absent, p)
        },
        None => (Tree::Absent, p),
    };
    match ch(s, p1, '(') {
        Some(p2) => {
            let (ps, p3) = g_anonymous_params(s, p2);
            if within(s, p2, p3) {
                match ch(s, p3, ')') {
                    Some(p4) => match sym2(s, p4, '-', '>') {
                        Some(p5) => match g_type(s, p5) {
                            Some((ret, p6)) => Some((recv, list(ps), ret, p6)),
                            None => None,
                        },
                        None => None,
                    },
                    None => None,
                }
            } else {
                None
            }
        },
        None => None,
    }
}

/// `name: Type` or `Type`.
pub open spec fn g_anonymous_param(s: Seq<char>, p: int) -> Option<(Tree, int)>
    decreases s.len() - p, 4int,
{
    let (name, p1) = match tok_ident(s, p) {
        Some((n, q)) => match ch(s, q, ':') {
            Some(q1) => (Tree::Text(n), q1),
            None => (Tree::Absent, p),
        },
        None => (Tree::Absent, p),
    };
    match g_type(s, p1) {
        Some((t, q)) => Some((node(Shape::AnonymousParam, seq![name, t]), q)),
        None => None,
    }
}

pub open spec fn g_types(s: Seq<char>, p: int) -> (Seq<Tree>, int)
    decreases s.len() - p, 5int,
{
    match g_type(s, p) {
        Some((t, q)) => if within(s, p, q) {
            let rest = g_types_more(s, q);
            (seq![t] + rest.0, rest.1)
        } else {
            (Seq::empty(), p)
        },
        None => (Seq::empty(), p),
    }
}

pub open spec fn g_types_more(s: Seq<char>, p: int) -> (Seq<Tree>, int)
    decreases s.len() - p, 0int,
{
    match ch(s, p, ',') {
        Some(p1) => match g_type(s, p1) {
            Some((t, q)) => if within(s, p1, q) {
                let rest = g_types_more(s, q);
                (seq![t] + rest.0, rest.1)
            } else {
                (Seq::empty(), p)
            },
            None => (Seq::empty(), p),
        },
        None => (Seq::empty(), p),
    }
}

pub fn parse_types(s: &Vec<char>, p: usize, f: &mut Failure) -> (r: (Vec<Type>, usize))
    requires
        p <= s@.len(),
    ensures
        p <= r.1 <= s@.len(),
        g_types(s@, p as int) == (trees_types(r.0@), r.1 as int),
        kept(*old(f), *final(f), s@),
    decreases s@.len() - p, 5int,
{
    let mut v: Vec<Type> = Vec::new();
    let mut cur = p;
    match parse_type(s, p, f) {
        None => return (v, p),
        Some((x, q)) => {
            v.push(x);
            cur = q;
            assert(trees_types(v@) =~= seq![x.tree()]);
        },
    }
    loop
        invariant
            p <= cur <= s@.len(),
            g_types(s@, p as int) == (trees_types(v@) + g_types_more(s@, cur as int).0, g_types_more(s@, cur as int).1),
            kept(*old(f), *f, s@),
        ensures
            p <= cur <= s@.len(),
            g_types(s@, p as int) == (trees_types(v@), cur as int),
        decreases s@.len() - cur,
    {
        match char_token(s, cur, ',', f) {
            None => {
                assert(trees_types(v@) + Seq::<Tree>::empty() =~= trees_types(v@));
                break;
            },
            Some(c1) => match parse_type(s, c1, f) {
                None => {
                    assert(trees_types(v@) + Seq::<Tree>::empty() =~= trees_types(v@));
                    break;
                },
                Some((x, q)) => {
                    let ghost old_v = v@;
                    let ghost rest = g_types_more(s@, q as int);
                    v.push(x);
                    assert(trees_types(v@) + rest.0 =~= trees_types(old_v) + (seq![x.tree()] + rest.0));
                    cur = q;
                },
            },
        }
    }
    (v, cur)
}

pub open spec fn g_anonymous_params(s: Seq<char>, p: int) -> (Seq<Tree>, int)
    decreases s.len() - p, 5int,
{
    match g_anonymous_param(s, p) {
        Some((t, q)) => if within(s, p, q) {
            let rest = g_anonymous_params_more(s, q);
            (seq![t] + rest.0, rest.1)
        } else {
            (Seq::empty(), p)
        },
        None => (Seq::empty(), p),
    }
}

pub open spec fn g_anonymous_params_more(s: Seq<char>, p: int) -> (Seq<Tree>, int)
    decreases s.len() - p, 0int,
{
    match ch(s, p, ',') {
        Some(p1) => match g_anonymous_param(s, p1) {
            Some((t, q)) => if within(s, p1, q) {
                let rest = g_anonymous_params_more(s, q);
                (seq![t] + rest.0, rest.1)
            } else {
                (Seq::empty(), p)
            },
            None => (Seq::empty(), p),
        },
        None => (Seq::empty(), p),
    }
}

pub fn parse_anonymous_params(s: &Vec<char>, p: usize, f: &mut Failure) -> (r: (Vec<AnonymousParam>, usize))
    requires
        p <= s@.len(),
    ensures
        p <= r.1 <= s@.len(),
        g_anonymous_params(s@, p as int) == (trees_anonymous_params(r.0@), r.1 as int),
        kept(*old(f), *final(f), s@),
    decreases s@.len() - p, 5int,
{
    let mut v: Vec<AnonymousParam> = Vec::new();
    let mut cur = p;
    match parse_anonymous_param(s, p, f) {
        None => return (v, p),
        Some((x, q)) => {
            v.push(x);
            cur = q;
            assert(trees_anonymous_params(v@) =~= seq![x.tree()]);
        },
    }
    loop
        invariant
            p <= cur <= s@.len(),
            g_anonymous_params(s@, p as int) == (trees_anonymous_params(v@) + g_anonymous_params_more(s@, cur as int).0, g_anonymous_params_more(s@, cur as int).1),
            kept(*old(f), *f, s@),
        ensures
            p <= cur <= s@.len(),
            g_anonymous_params(s@, p as int) == (trees_anonymous_params(v@), cur as int),
        decreases s@.len() - cur,
    {
        match char_token(s, cur, ',', f) {
            None => {
                assert(trees_anonymous_params(v@) + Seq::<Tree>::empty() =~= trees_anonymous_params(v@));
                break;
            },
            Some(c1) => match parse_anonymous_param(s, c1, f) {
                None => {
                    assert(trees_anonymous_params(v@) + Seq::<Tree>::empty() =~= trees_anonymous_params(v@));
                    break;
                },
                Some((x, q)) => {
                    let ghost old_v = v@;
                    let ghost rest = g_anonymous_params_more(s@, q as int);
                    v.push(x);
                    assert(trees_anonymous_params(v@) + rest.0 =~= trees_anonymous_params(old_v) + (seq![x.tree()] + rest.0));
                    cur = q;
                },
            },
        }
    }
    (v, cur)
}

/// `name: Type` in a `where` clause.
pub open spec fn g_type_bound(s: Seq<char>, p: int) -> Option<(Tree, int)> {
    match tok_ident(s, p) {
        Some((n, q)) => match ch(s, q, ':') {
            Some(q1) => match g_type(s, q1) {
                Some((t, q2)) => Some((node(Shape::TypeBound, seq![Tree::Text(n), t, Tree::Absent]), q2)),
                None => None,
            },
            None => None,
        },
        None => None,
    }
}

pub open spec fn g_type_bounds(s: Seq<char>, p: int) -> (Seq<Tree>, int)
{
    match g_type_bound(s, p) {
        Some((t, q)) => if within(s, p, q) {
            let rest = g_type_bounds_more(s, q);
            (seq![t] + rest.0, rest.1)
        } else {
            (Seq::empty(), p)
        },
        None => (Seq::empty(), p),
    }
}

pub open spec fn g_type_bounds_more(s: Seq<char>, p: int) -> (Seq<Tree>, int)
    decreases s.len() - p,
{
    match ch(s, p, ',') {
        Some(p1) => match g_type_bound(s, p1) {
            Some((t, q)) => if within(s, p1, q) {
                let rest = g_type_bounds_more(s, q);
                (seq![t] + rest.0, rest.1)
            } else {
                (Seq::empty(), p)
            },
            None => (Seq::empty(), p),
        },
        None => (Seq::empty(), p),
    }
}

pub fn parse_type_bounds(s: &Vec<char>, p: usize, f: &mut Failure) -> (r: (Vec<TypeBound>, usize))
    requires
        p <= s@.len(),
    ensures
        p <= r.1 <= s@.len(),
        g_type_bounds(s@, p as int) == (trees_type_bounds(r.0@), r.1 as int),
        kept(*old(f), *final(f), s@),
{
    let mut v: Vec<TypeBound> = Vec::new();
    let mut cur = p;
    match parse_type_bound(s, p, f) {
        None => return (v, p),
        Some((x, q)) => {
            v.push(x);
            cur = q;
            assert(trees_type_bounds(v@) =~= seq![x.tree()]);
        },
    }
    loop
        invariant
            p <= cur <= s@.len(),
            g_type_bounds(s@, p as int) == (trees_type_bounds(v@) + g_type_bounds_more(s@, cur as int).0, g_type_bounds_more(s@, cur as int).1),
            kept(*old(f), *f, s@),
        ensures
            p <= cur <= s@.len(),
            g_type_bounds(s@, p as int) == (trees_type_bounds(v@), cur as int),
        decreases s@.len() - cur,
    {
        match char_token(s, cur, ',', f) {
            None => {
                assert(trees_type_bounds(v@) + Seq::<Tree>::empty() =~= trees_type_bounds(v@));
                break;
            },
            Some(c1) => match parse_type_bound(s, c1, f) {
                None => {
                    assert(trees_type_bounds(v@) + Seq::<Tree>::empty() =~= trees_type_bounds(v@));
                    break;
                },
                Some((x, q)) => {
                    let ghost old_v = v@;
                    let ghost rest = g_type_bounds_more(s@, q as int);
                    v.push(x);
                    assert(trees_type_bounds(v@) + rest.0 =~= trees_type_bounds(old_v) + (seq![x.tree()] + rest.0));
                    cur = q;
                },
            },
        }
    }
    (v, cur)
}

/// An optional `where` clause, as a list of bounds.
pub open spec fn g_where(s: Seq<char>, p: int) -> (Tree, int) {
    match kw(s, p, "where"@) {
        Some(p1) => {
            let (bs, p2) = g_type_bounds(s, p1);
            (list(bs), p2)
        },
        None => (list(Seq::empty()), p),
    }
}

/// `name` or `name: Type`.
pub open spec fn g_var(s: Seq<char>, p: int) -> Option<(Tree, int)> {
    match tok_ident(s, p) {
        Some((n, q)) => {
            let (t, q2) = match ch(s, q, ':') {
                Some(q1) => match g_type(s, q1) {
                    Some((t, q2)) => (t, q2),
                    None => (Tree::Absent, q),
                },
                None => (Tree::Absent, q),
            };
            Some((node(Shape::Var, seq![Tree::Text(n), t]), q2))
        },
        None => None,
    }
}

pub open spec fn g_var_list(s: Seq<char>, p: int) -> (Seq<Tree>, int)
{
    match g_var(s, p) {
        Some((t, q)) => if within(s, p, q) {
            let rest = g_var_list_more(s, q);
            (seq![t] + rest.0, rest.1)
        } else {
            (Seq::empty(), p)
        },
        None => (Seq::empty(), p),
    }
}

pub open spec fn g_var_list_more(s: Seq<char>, p: int) -> (Seq<Tree>, int)
    decreases s.len() - p,
{
    match ch(s, p, ',') {
        Some(p1) => match g_var(s, p1) {
            Some((t, q)) => if within(s, p1, q) {
                let rest = g_var_list_more(s, q);
                (seq![t] + rest.0, rest.1)
            } else {
                (Seq::empty(), p)
            },
            None => (Seq::empty(), p),
        },
        None => (Seq::empty(), p),
    }
}

pub fn parse_var_list(s: &Vec<char>, p: usize, f: &mut Failure) -> (r: (Vec<Var>, usize))
    requires
        p <= s@.len(),
    ensures
        p <= r.1 <= s@.len(),
        g_var_list(s@, p as int) == (trees_vars(r.0@), r.1 as int),
        kept(*old(f), *final(f), s@),
{
    let mut v: Vec<Var> = Vec::new();
    let mut cur = p;
    match parse_var(s, p, f) {
        None => return (v, p),
        Some((x, q)) => {
            v.push(x);
            cur = q;
            assert(trees_vars(v@) =~= seq![x.tree()]);
        },
    }
    loop
        invariant
            p <= cur <= s@.len(),
            g_var_list(s@, p as int) == (trees_vars(v@) + g_var_list_more(s@, cur as int).0, g_var_list_more(s@, cur as int).1),
            kept(*old(f), *f, s@),
        ensures
            p <= cur <= s@.len(),
            g_var_list(s@, p as int) == (trees_vars(v@), cur as int),
        decreases s@.len() - cur,
    {
        match char_token(s, cur, ',', f) {
            None => {
                assert(trees_vars(v@) + Seq::<Tree>::empty() =~= trees_vars(v@));
                break;
            },
            Some(c1) => match parse_var(s, c1, f) {
                None => {
                    assert(trees_vars(v@) + Seq::<Tree>::empty() =~= trees_vars(v@));
                    break;
                },
                Some((x, q)) => {
                    let ghost old_v = v@;
                    let ghost rest = g_var_list_more(s@, q as int);
                    v.push(x);
                    assert(trees_vars(v@) + rest.0 =~= trees_vars(old_v) + (seq![x.tree()] + rest.0));
                    cur = q;
                },
            },
        }
    }
    (v, cur)
}

/// `(a, b: T)`, destructured, or `a, b: T`, with at least one name.
pub open spec fn g_vars(s: Seq<char>, p: int) -> Option<(Tree, int)> {
    match ch(s, p, '(') {
        Some(p1) => {
            let (vs, p2) = g_var_list(s, p1);
            match ch(s, p2, ')') {
                Some(p3) => Some((node(Shape::Vars, seq![Tree::Flag(true), list(vs)]), p3)),
                None => None,
            }
        },
        None => {
            let (vs, p2) = g_var_list(s, p);
            if vs.len() == 0 {
                None
            } else {
                Some((node(Shape::Vars, seq![Tree::Flag(false), list(vs)]), p2))
            }
        },
    }
}

pub fn parse_type(s: &Vec<char>, p: usize, f: &mut Failure) -> (r: Option<(Type, usize)>)
    requires
        p <= s@.len(),
    ensures
        agrees(r, g_type(s@, p as int), p as int, s@.len() as int),
        kept(*old(f), *final(f), s@),
    decreases s@.len() - p, 3int,
{
    let r = parse_function_type(s, p, f);
    if r.is_some() {
        return r;
    }
    parse_simple_type(s, p, f)
}

pub fn parse_simple_type(s: &Vec<char>, p: usize, f: &mut Failure) -> (r: Option<(Type, usize)>)
    requires
        p <= s@.len(),
    ensures
        agrees(r, g_simple_type(s@, p as int), p as int, s@.len() as int),
        kept(*old(f), *final(f), s@),
    decreases s@.len() - p, 0int,
{
    reveal(Type::tree);
    let (name, q) = match ident_token(s, p, f) {
        Some(x) => x,
        None => return None,
    };
    let (args, q1) = match parse_type_args(s, q, f) {
        Some((a, q1)) => (a, q1),
        None => {
            let v: Vec<Type> = Vec::new();
            assert(trees_types(v@) =~= Seq::<Tree>::empty());
            (v, q)
        },
    };
    let nullable = at_char(s, q1, '?');
    let q2 = if nullable {
        q1 + 1
    } else {
        q1
    };
    Some((Type::Simple(Box::new(SimpleType { name, type_args: args, is_nullable: nullable })), q2))
}

pub fn parse_type_args(s: &Vec<char>, p: usize, f: &mut Failure) -> (r: Option<(Vec<Type>, usize)>)
    requires
        p <= s@.len(),
    ensures
        match r {
            Some((v, e)) => p <= e <= s@.len() && g_type_args(s@, p as int) == Some(
                (list(trees_types(v@)), e as int),
            ),
            None => g_type_args(s@, p as int) is None,
        },
        kept(*old(f), *final(f), s@),
    decreases s@.len() - p, 0int,
{
    let p1 = match char_token(s, p, '<', f) {
        Some(p1) => p1,
        None => return None,
    };
    let (ts, p2) = parse_types(s, p1, f);
    match char_token(s, p2, '>', f) {
        Some(p3) => Some((ts, p3)),
        None => None,
    }
}

#[verifier::spinoff_prover]
#[verifier::rlimit(40)]
pub fn parse_function_type(s: &Vec<char>, p: usize, f: &mut Failure) -> (r: Option<(Type, usize)>)
    requires
        p <= s@.len(),
    ensures
        agrees(r, g_function_type(s@, p as int), p as int, s@.len() as int),
        kept(*old(f), *final(f), s@),
    decreases s@.len() - p, 2int,
{
    reveal(Type::tree);
    let r = parse_function_wrapped(s, p, f);
    if r.is_some() {
        return r;
    }
    match parse_function_core(s, p, f) {
        Some((receiver, params, return_ty, q)) => Some(
            (
                Type::Function(
                    Box::new(FunctionType { receiver, params, return_ty, is_nullable: false }),
                ),
                q,
            ),
        ),
        None => None,
    }
}

#[verifier::spinoff_prover]
#[verifier::rlimit(40)]
pub fn parse_function_wrapped(s: &Vec<char>, p: usize, f: &mut Failure) -> (r: Option<(Type, usize)>)
    requires
        p <= s@.len(),
    ensures
        agrees(r, g_function_wrapped(s@, p as int), p as int, s@.len() as int),
        kept(*old(f), *final(f), s@),
    decreases s@.len() - p, 1int,
{
    reveal(Type::tree);
    let p1 = match char_token(s, p, '(', f) {
        Some(p1) => p1,
        None => return None,
    };
    match parse_function_core(s, p1, f) {
        Some((receiver, params, return_ty, p2)) => match char_token(s, p2, ')', f) {
            Some(p3) => {
                let n = at_char(s, p3, '?');
                let q = if n {
                    p3 + 1
                } else {
                    p3
                };
                Some(
                    (
                        Type::Function(
                            Box::new(FunctionType { receiver, params, return_ty, is_nullable: n }),
                        ),
                        q,
                    ),
                )
            },
            None => None,
        },
        None => None,
    }
}

pub fn parse_function_core(s: &Vec<char>, p: usize, f: &mut Failure) -> (r: Option<
    (Option<Type>, Vec<AnonymousParam>, Type, usize),
>)
    requires
        p <= s@.len(),
    ensures
        match r {
            Some((recv, ps, ret, e)) => p <= e <= s@.len() && g_function_core(s@, p as int) == Some(
                (
                    opt_receiver(recv),
                    list(trees_anonymous_params(ps@)),
                    ret.tree(),
                    e as int,
                ),
            ),
            None => g_function_core(s@, p as int) is None,
        },
        kept(*old(f), *final(f), s@),
    decreases s@.len() - p, 1int,
{
    reveal(Type::tree);
    reveal_with_fuel(opt_receiver, 1);
    let (recv, p1) = match parse_simple_type(s, p, f) {
        Some((t, q)) => match char_token(s, q, '.', f) {
            Some(q1) => (Some(t), q1),
            None => (None, p),
        },
        None => (None, p),
    };
    let p2 = match char_token(s, p1, '(', f) {
        Some(p2) => p2,
        None => return None,
    };
    let (ps, p3) = parse_anonymous_params(s, p2, f);
    let p4 = match char_token(s, p3, ')', f) {
        Some(p4) => p4,
        None => return None,
    };
    let p5 = match symbol2(s, p4, '-', '>', f) {
        Some(p5) => p5,
        None => return None,
    };
    match parse_type(s, p5, f) {
        Some((ret, p6)) => Some((recv, ps, ret, p6)),
        None => None,
    }
}

#[verifier::spinoff_prover]
#[verifier::rlimit(40)]
pub fn parse_anonymous_param(s: &Vec<char>, p: usize, f: &mut Failure) -> (r: Option<
    (AnonymousParam, usize),
>)
    requires
        p <= s@.len(),
    ensures
        agrees(r, g_anonymous_param(s@, p as int), p as int, s@.len() as int),
        kept(*old(f), *final(f), s@),
    decreases s@.len() - p, 4int,
{
    reveal(AnonymousParam::tree);
    let (name, p1) = match ident_token(s, p, f) {
        Some((n, q)) => match char_token(s, q, ':', f) {
            Some(q1) => (Some(n), q1),
            None => (None, p),
        },
        None => (None, p),
    };
    match parse_type(s, p1, f) {
        Some((ty, q)) => Some((AnonymousParam { name, ty }, q)),
        None => None,
    }
}

pub fn parse_type_bound(s: &Vec<char>, p: usize, f: &mut Failure) -> (r: Option<(TypeBound, usize)>)
    requires
        p <= s@.len(),
    ensures
        agrees(r, g_type_bound(s@, p as int), p as int, s@.len() as int),
        kept(*old(f), *final(f), s@),
{
    let (name, q) = match ident_token(s, p, f) {
        Some(x) => x,
        None => return None,
    };
    let q1 = match char_token(s, q, ':', f) {
        Some(q1) => q1,
        None => return None,
    };
    match parse_type(s, q1, f) {
        Some((t, q2)) => Some((TypeBound { name, ty: Some(t), kind: None }, q2)),
        None => None,
    }
}

pub fn parse_where(s: &Vec<char>, p: usize, f: &mut Failure) -> (r: (Vec<TypeBound>, usize))
    requires
        p <= s@.len(),
    ensures
        p <= r.1 <= s@.len(),
        g_where(s@, p as int) == (list(trees_type_bounds(r.0@)), r.1 as int),
        kept(*old(f), *final(f), s@),
{
    match keyword(s, p, "where", f) {
        Some(p1) => parse_type_bounds(s, p1, f),
        None => {
            let v: Vec<TypeBound> = Vec::new();
            assert(trees_type_bounds(v@) =~= Seq::<Tree>::empty());
            (v, p)
        },
    }
}

pub fn parse_var(s: &Vec<char>, p: usize, f: &mut Failure) -> (r: Option<(Var, usize)>)
    requires
        p <= s@.len(),
    ensures
        agrees(r, g_var(s@, p as int), p as int, s@.len() as int),
        kept(*old(f), *final(f), s@),
{
    let (name, q) = match ident_token(s, p, f) {
        Some(x) => x,
        None => return None,
    };
    let (ty, q2) = match char_token(s, q, ':', f) {
        Some(q1) => match parse_type(s, q1, f) {
            Some((t, q2)) => (Some(t), q2),
            None => (None, q),
        },
        None => (None, q),
    };
    Some((Var { name, ty }, q2))
}

pub fn parse_vars(s: &Vec<char>, p: usize, f: &mut Failure) -> (r: Option<(Vars, usize)>)
    requires
        p <= s@.len(),
    ensures
        agrees(r, g_vars(s@, p as int), p as int, s@.len() as int),
        kept(*old(f), *final(f), s@),
{
    match char_token(s, p, '(', f) {
        Some(p1) => {
            let (vars, p2) = parse_var_list(s, p1, f);
            match char_token(s, p2, ')', f) {
                Some(p3) => Some((Vars { is_destructured: true, vars }, p3)),
                None => None,
            }
        },
        None => {
            let (vars, p2) = parse_var_list(s, p, f);
            if vars.len() == 0 {
                None
            } else {
                Some((Vars { is_destructured: false, vars }, p2))
            }
        },
    }
}

/// `: A, B`, as a list of types.
pub open spec fn g_supertypes(s: Seq<char>, p: int) -> Option<(Tree, int)> {
    match ch(s, p, ':') {
        Some(q) => {
            let (ts, q1) = g_types(s, q);
            if within(s, q, q1) {
                Some((list(ts), q1))
            } else {
                None
            }
        },
        None => None,
    }
}

/// `: Type`, or `Absent`.
pub open spec fn g_ret_type(s: Seq<char>, p: int) -> (Tree, int) {
    match ch(s, p, ':') {
        Some(q) => match g_type(s, q) {
            Some((t, q1)) => if within(s, q, q1) {
                (t, q1)
            } else {
                (Tree::Absent, p)
            },
            None => (Tree::Absent, p),
        },
        None => (Tree::Absent, p),
    }
}

/// `Receiver.` before a name, or `Absent`.
pub open spec fn g_receiver(s: Seq<char>, p: int) -> (Tree, int) {
    match g_simple_type(s, p) {
        Some((r, q)) => if within(s, p, q) {
            match ch(s, q, '.') {
                Some(q1) => (r, q1),
                None => (Tree::Absent, p),
            }
        } else {
            (Tree::Absent, p)
        },
        None => (Tree::Absent, p),
    }
}

pub fn parse_supertypes(s: &Vec<char>, p: usize, f: &mut Failure) -> (r: Option<(Vec<Type>, usize)>)
    requires
        p <= s@.len(),
    ensures
        match r {
            Some((v, e)) => p <= e <= s@.len() && g_supertypes(s@, p as int) == Some(
                (list(trees_types(v@)), e as int),
            ),
            None => g_supertypes(s@, p as int) is None,
        },
        kept(*old(f), *final(f), s@),
{
    match char_token(s, p, ':', f) {
        Some(q) => Some(parse_types(s, q, f)),
        None => None,
    }
}

pub fn parse_ret_type(s: &Vec<char>, p: usize, f: &mut Failure) -> (r: (Option<Type>, usize))
    requires
        p <= s@.len(),
    ensures
        g_ret_type(s@, p as int) == (opt_type(r.0), r.1 as int),
        p <= r.1 <= s@.len(),
        kept(*old(f), *final(f), s@),
{
    match char_token(s, p, ':', f) {
        Some(q) => match parse_type(s, q, f) {
            Some((t, q1)) => (Some(t), q1),
            None => (None, p),
        },
        None => (None, p),
    }
}

pub fn parse_receiver(s: &Vec<char>, p: usize, f: &mut Failure) -> (r: (Option<Type>, usize))
    requires
        p <= s@.len(),
    ensures
        g_receiver(s@, p as int) == (opt_type(r.0), r.1 as int),
        p <= r.1 <= s@.len(),
        kept(*old(f), *final(f), s@),
{
    match parse_simple_type(s, p, f) {
        Some((t, q)) => match char_token(s, q, '.', f) {
            Some(q1) => (Some(t), q1),
            None => (None, p),
        },
        None => (None, p),
    }
}

} // verus!
