//! The declaration grammar: functions, classes and their kin, constructors,
//! properties and their accessors, type aliases and enum entries.
use vstd::prelude::*;
use crate::annotation::{
    g_annotation_sets, g_call_arg_list, g_modifiers, parse_annotation_sets, parse_call_arg_list,
    parse_modifiers,
};
use crate::ast::{
    AnnotationSet, Block, BoundKind, BoundedTypeParam, ConstructorDeclaration, ConstructorDelegate,
    ConstructorDelegateKind, Declaration, DeclarationKind, EntityDeclaration, EntityDeclarationKind,
    EnumEntryDeclaration, Expression, FunctionDeclaration, Modifier, Param, PrimaryConstructorDeclaration,
    PropertyAccessor, PropertyDeclaration, PropertySetterField, Type, TypeAliasDeclaration, TypeBound,
    TypeParam, CallArg,
};
use crate::chars::{group_runs, group_tokens};
use crate::expression::{g_block, g_expression, g_fun_body, parse_block, parse_expression, parse_fun_body};
use crate::model::{
    modifiers_tree, opt_text, opt_type,
    opt_block, opt_delegate, opt_expr, opt_primary_constructor,
    agrees, group_trees, list, list_part, node, opt_list, opt_part, pass, trees_accessors,
    trees_bounded_type_params, trees_decls, trees_mods, trees_params, trees_type_bounds,
    trees_type_params, trees_types, Shape, Tree,
};
use crate::token::{ch, char_token, ident_token, keyword, kept, kw, semis, skip_semis, tok_ident, within, Failure};
use crate::ty::{
    g_receiver, g_ret_type, g_supertypes, g_type, g_type_args, g_vars, g_where, parse_receiver,
    parse_ret_type, parse_supertypes, parse_type, parse_vars, parse_where,
};

verus! {

broadcast use {group_runs, group_tokens, group_trees};


/// Whether `const` stands among the modifiers.
pub open spec fn has_const(ms: Seq<Modifier>) -> bool
    decreases ms.len(),
{
    if ms.len() == 0 {
        false
    } else {
        has_const(ms.subrange(0, ms.len() - 1)) || ms[ms.len() - 1] == Modifier::Const
    }
}

/// `@A mods var name: Type`: annotations, modifiers and `var`/`val`
/// optional.
pub open spec fn g_param(s: Seq<char>, p: int) -> Option<(Tree, int)>
    decreases s.len() - p, 3int,
{
    match list_part(s, p, g_annotation_sets(s, p)) {
        Some((anns, p1)) => {
            let ms = g_modifiers(s, p1);
            if within(s, p1, ms.1) {
                let (prop, p3) = match kw(s, ms.1, "var"@) {
                    Some(q) => (Tree::Flag(true), q),
                    None => match kw(s, ms.1, "val"@) {
                        Some(q) => (Tree::Flag(false), q),
                        None => (Tree::Absent, ms.1),
                    },
                };
                match tok_ident(s, p3) {
                    Some((n, p4)) => match ch(s, p4, ':') {
                        Some(p5) => match pass(s, p5, g_type(s, p5)) {
                            Some((t, p6)) => Some(
                                (
                                    node(
                                        Shape::Param,
                                        seq![anns, list(trees_mods(ms.0)), prop, Tree::Text(n), t],
                                    ),
                                    p6,
                                ),
                            ),
                            None => None,
                        },
                        None => None,
                    },
                    None => None,
                }
            } else {
                None
            }
        },
        None => None,
    }
}

/// `( params )`, as a list.
pub open spec fn g_param_list(s: Seq<char>, p: int) -> Option<(Tree, int)>
    decreases s.len() - p, 0int,
{
    match ch(s, p, '(') {
        Some(p1) => match list_part(s, p1, g_params(s, p1)) {
            Some((ps, p2)) => match ch(s, p2, ')') {
                Some(p3) => Some((ps, p3)),
                None => None,
            },
            None => None,
        },
        None => None,
    }
}

/// `@A T: Bound`.
pub open spec fn g_type_param(s: Seq<char>, p: int) -> Option<(Tree, int)>
    decreases s.len() - p, 3int,
{
    match list_part(s, p, g_annotation_sets(s, p)) {
        Some((anns, p1)) => match tok_ident(s, p1) {
            Some((n, p2)) => {
                let (t, p3) = g_ret_type(s, p2);
                Some((node(Shape::TypeParam, seq![anns, Tree::Text(n), t]), p3))
            },
            None => None,
        },
        None => None,
    }
}

/// `< params >`, as a list.
pub open spec fn g_type_params(s: Seq<char>, p: int) -> Option<(Tree, int)>
    decreases s.len() - p, 0int,
{
    match ch(s, p, '<') {
        Some(p1) => match list_part(s, p1, g_type_param_list(s, p1)) {
            Some((ps, p2)) => match ch(s, p2, '>') {
                Some(p3) => Some((ps, p3)),
                None => None,
            },
            None => None,
        },
        None => None,
    }
}

/// `@A in T: Bound`: a class's type parameter, with its variance.
pub open spec fn g_bounded_type_param(s: Seq<char>, p: int) -> Option<(Tree, int)>
    decreases s.len() - p, 3int,
{
    match list_part(s, p, g_annotation_sets(s, p)) {
        Some((anns, p1)) => {
            let (variance, p2) = match kw(s, p1, "in"@) {
                Some(q) => (Tree::Variance(BoundKind::In), q),
                None => match kw(s, p1, "out"@) {
                    Some(q) => (Tree::Variance(BoundKind::Out), q),
                    None => (Tree::Absent, p1),
                },
            };
            match tok_ident(s, p2) {
                Some((n, p3)) => {
                    let (t, p4) = g_ret_type(s, p3);
                    Some(
                        (
                            node(
                                Shape::BoundedTypeParam,
                                seq![
                                    anns,
                                    list(seq![node(Shape::TypeBound, seq![Tree::Text(n), t, variance])]),
                                ],
                            ),
                            p4,
                        ),
                    )
                },
                None => None,
            }
        },
        None => None,
    }
}

/// `< params >` of a class, as a list.
pub open spec fn g_class_type_params(s: Seq<char>, p: int) -> Option<(Tree, int)>
    decreases s.len() - p, 0int,
{
    match ch(s, p, '<') {
        Some(p1) => match list_part(s, p1, g_bounded_type_param_list(s, p1)) {
            Some((ps, p2)) => match ch(s, p2, '>') {
                Some(p3) => Some((ps, p3)),
                None => None,
            },
            None => None,
        },
        None => None,
    }
}

/// `mods fun <T> Receiver.name(params): Type where .. body`: all but `fun`
/// and the parameter list optional.
pub open spec fn g_function(s: Seq<char>, p: int) -> Option<(Tree, int)>
    decreases s.len() - p, 1int,
{
    let ms = g_modifiers(s, p);
    if within(s, p, ms.1) {
        match kw(s, ms.1, "fun"@) {
            Some(p2) => {
                let (tps, p3) = opt_list(s, p2, g_type_params(s, p2));
                let (recv, p4) = g_receiver(s, p3);
                let (name, p5) = match tok_ident(s, p4) {
                    Some((n, q)) => (Tree::Text(n), q),
                    None => (Tree::Absent, p4),
                };
                match pass(s, p5, g_param_list(s, p5)) {
                    Some((ps, p6)) => {
                        let (ret, p7) = g_ret_type(s, p6);
                        let (wh, p8) = g_where(s, p7);
                        if within(s, p7, p8) {
                            let (body, p9) = opt_part(s, p8, g_fun_body(s, p8));
                            Some(
                                (
                                    node(
                                        Shape::Function,
                                        seq![list(trees_mods(ms.0)), tps, recv, name, ps, ret, wh, body],
                                    ),
                                    p9,
                                ),
                            )
                        } else {
                            None
                        }
                    },
                    None => None,
                }
            },
            None => None,
        }
    } else {
        None
    }
}

/// `mods NAME(args) { declarations },`: the body and the comma optional.
pub open spec fn g_enum_entry(s: Seq<char>, p: int) -> Option<(Tree, int)>
    decreases s.len() - p, 1int,
{
    let ms = g_modifiers(s, p);
    if within(s, p, ms.1) {
        match tok_ident(s, ms.1) {
            Some((n, p2)) => match pass(s, p2, g_call_arg_list(s, p2)) {
                Some((args, p3)) => {
                    let (body, p4) = opt_list(s, p3, g_decl_body(s, p3));
                    let p5 = match ch(s, p4, ',') {
                        Some(q) => q,
                        None => p4,
                    };
                    Some(
                        (node(Shape::EnumEntry, seq![list(trees_mods(ms.0)), Tree::Text(n), args, body]), p5),
                    )
                },
                None => None,
            },
            None => None,
        }
    } else {
        None
    }
}

/// `init { statements }`.
pub open spec fn g_init(s: Seq<char>, p: int) -> Option<(Tree, int)>
    decreases s.len() - p, 1int,
{
    match kw(s, p, "init"@) {
        Some(q) => match pass(s, q, g_block(s, q)) {
            Some((b, q1)) => Some((node(Shape::InitBlock, seq![b]), q1)),
            None => None,
        },
        None => None,
    }
}

/// `enum class`, `interface`, `class`, `companion object` or `object`.
pub open spec fn g_entity_kind(s: Seq<char>, p: int) -> Option<(EntityDeclarationKind, int)> {
    if kw(s, p, "enum"@) is Some && kw(s, kw(s, p, "enum"@)->0, "class"@) is Some {
        Some((EntityDeclarationKind::Enum, kw(s, kw(s, p, "enum"@)->0, "class"@)->0))
    } else if kw(s, p, "interface"@) is Some {
        Some((EntityDeclarationKind::Interface, kw(s, p, "interface"@)->0))
    } else if kw(s, p, "class"@) is Some {
        Some((EntityDeclarationKind::Class, kw(s, p, "class"@)->0))
    } else if kw(s, p, "companion"@) is Some && kw(s, kw(s, p, "companion"@)->0, "object"@) is Some {
        Some((EntityDeclarationKind::CompanionObject, kw(s, kw(s, p, "companion"@)->0, "object"@)->0))
    } else if kw(s, p, "object"@) is Some {
        Some((EntityDeclarationKind::Object, kw(s, p, "object"@)->0))
    } else {
        None
    }
}

/// `mods constructor (params)`: the modifiers and the keyword optional.
pub open spec fn g_primary_ctor(s: Seq<char>, p: int) -> Option<(Tree, int)>
    decreases s.len() - p, 1int,
{
    let ms = g_modifiers(s, p);
    if within(s, p, ms.1) {
        let p2 = match kw(s, ms.1, "constructor"@) {
            Some(q) => q,
            None => ms.1,
        };
        match pass(s, p2, g_param_list(s, p2)) {
            Some((ps, p3)) => Some((node(Shape::PrimaryConstructor, seq![list(trees_mods(ms.0)), ps]), p3)),
            None => None,
        }
    } else {
        None
    }
}

/// `mods kind Name<T> (ctor) : Supers where .. { declarations }`: all but
/// the kind optional.
pub open spec fn g_entity(s: Seq<char>, p: int) -> Option<(Tree, int)>
    decreases s.len() - p, 1int,
{
    let ms = g_modifiers(s, p);
    if within(s, p, ms.1) {
        match g_entity_kind(s, ms.1) {
            Some((k, p2)) => {
                let (name, p3) = match tok_ident(s, p2) {
                    Some((n, q)) => (Tree::Text(n), q),
                    None => (Tree::Absent, p2),
                };
                let (tps, p4) = opt_list(s, p3, g_class_type_params(s, p3));
                let (pc, p5) = opt_part(s, p4, g_primary_ctor(s, p4));
                let (sup, p6) = opt_list(s, p5, g_supertypes(s, p5));
                let (wh, p7) = g_where(s, p6);
                if within(s, p6, p7) {
                    let (body, p8) = opt_list(s, p7, g_decl_body(s, p7));
                    Some(
                        (
                            node(
                                Shape::Entity,
                                seq![list(trees_mods(ms.0)), Tree::Kind(k), name, tps, pc, sup, wh, body],
                            ),
                            p8,
                        ),
                    )
                } else {
                    None
                }
            },
            None => None,
        }
    } else {
        None
    }
}

/// `: this(args)` or `: super(args)`.
pub open spec fn g_delegate(s: Seq<char>, p: int) -> Option<(Tree, int)>
    decreases s.len() - p, 0int,
{
    match ch(s, p, ':') {
        Some(q) => {
            let k = if kw(s, q, "this"@) is Some {
                Some((ConstructorDelegateKind::This, kw(s, q, "this"@)->0))
            } else if kw(s, q, "super"@) is Some {
                Some((ConstructorDelegateKind::Super, kw(s, q, "super"@)->0))
            } else {
                None
            };
            match k {
                Some((k, q1)) => match pass(s, q1, g_call_arg_list(s, q1)) {
                    Some((args, q2)) => Some((node(Shape::Delegate, seq![Tree::Delegation(k), args]), q2)),
                    None => None,
                },
                None => None,
            }
        },
        None => None,
    }
}

/// `mods constructor(params) : this(args) { statements }`: delegate and
/// body optional.
pub open spec fn g_constructor(s: Seq<char>, p: int) -> Option<(Tree, int)>
    decreases s.len() - p, 1int,
{
    let ms = g_modifiers(s, p);
    if within(s, p, ms.1) {
        match kw(s, ms.1, "constructor"@) {
            Some(p2) => match pass(s, p2, g_param_list(s, p2)) {
                Some((ps, p3)) => {
                    let (del, p4) = opt_part(s, p3, g_delegate(s, p3));
                    let (body, p5) = opt_part(s, p4, g_block(s, p4));
                    Some((node(Shape::Constructor, seq![list(trees_mods(ms.0)), ps, del, body]), p5))
                },
                None => None,
            },
            None => None,
        }
    } else {
        None
    }
}

/// `mods typealias Name<T> = Type`.
pub open spec fn g_typealias(s: Seq<char>, p: int) -> Option<(Tree, int)>
    decreases s.len() - p, 1int,
{
    let ms = g_modifiers(s, p);
    if within(s, p, ms.1) {
        match kw(s, ms.1, "typealias"@) {
            Some(p2) => match tok_ident(s, p2) {
                Some((n, p3)) => {
                    let (tps, p4) = opt_list(s, p3, g_type_params(s, p3));
                    match ch(s, p4, '=') {
                        Some(p5) => match pass(s, p5, g_type(s, p5)) {
                            Some((t, p6)) => Some(
                                (node(Shape::TypeAlias, seq![list(trees_mods(ms.0)), Tree::Text(n), tps, t]), p6),
                            ),
                            None => None,
                        },
                        None => None,
                    }
                },
                None => None,
            },
            None => None,
        }
    } else {
        None
    }
}

/// `mods get() : Type body`: all but `get` optional.
pub open spec fn g_getter(s: Seq<char>, p: int) -> Option<(Tree, int)>
    decreases s.len() - p, 3int,
{
    match list_part(s, p, g_annotation_sets(s, p)) {
        Some((anns, p1)) => {
            let ms = g_modifiers(s, p1);
            if within(s, p1, ms.1) {
                match kw(s, ms.1, "get"@) {
                    Some(p3) => {
                        let p4 = match ch(s, p3, '(') {
                            Some(q) => match ch(s, q, ')') {
                                Some(q1) => q1,
                                None => p3,
                            },
                            None => p3,
                        };
                        let (ret, p5) = g_ret_type(s, p4);
                        let (body, p6) = opt_part(s, p5, g_fun_body(s, p5));
                        Some((node(Shape::Getter, seq![anns, list(trees_mods(ms.0)), ret, body]), p6))
                    },
                    None => None,
                }
            } else {
                None
            }
        },
        None => None,
    }
}

/// `mods set(name: Type) : Type body`: all but `set` optional.
pub open spec fn g_setter(s: Seq<char>, p: int) -> Option<(Tree, int)>
    decreases s.len() - p, 3int,
{
    match list_part(s, p, g_annotation_sets(s, p)) {
        Some((anns, p1)) => {
            let ms = g_modifiers(s, p1);
            if within(s, p1, ms.1) {
                match kw(s, ms.1, "set"@) {
                    Some(p3) => {
                        let (field, p4) = match ch(s, p3, '(') {
                            Some(q) => match tok_ident(s, q) {
                                Some((n, q1)) => {
                                    let (t, q2) = g_ret_type(s, q1);
                                    match ch(s, q2, ')') {
                                        Some(q3) => (node(Shape::SetterField, seq![Tree::Text(n), t]), q3),
                                        None => (Tree::Absent, p3),
                                    }
                                },
                                None => (Tree::Absent, p3),
                            },
                            None => (Tree::Absent, p3),
                        };
                        let (ret, p5) = g_ret_type(s, p4);
                        let (body, p6) = opt_part(s, p5, g_fun_body(s, p5));
                        Some((node(Shape::Setter, seq![anns, list(trees_mods(ms.0)), field, ret, body]), p6))
                    },
                    None => None,
                }
            } else {
                None
            }
        },
        None => None,
    }
}

/// The accessor after a first one: a setter after a getter, or a getter
/// after a setter.
pub open spec fn g_second_accessor(s: Seq<char>, q: int, first: Tree, setter: bool) -> (Seq<Tree>, int)
    decreases s.len() - q, 4int,
{
    let r = if setter {
        g_setter(s, q)
    } else {
        g_getter(s, q)
    };
    match pass(s, q, r) {
        Some((t, q2)) => (seq![first, t], q2),
        None => (seq![first], q),
    }
}

/// A getter, a setter, both in either order, or neither.
pub open spec fn g_accessors(s: Seq<char>, p: int) -> (Seq<Tree>, int)
    decreases s.len() - p, 5int,
{
    match pass(s, p, g_getter(s, p)) {
        Some((g, q)) => g_second_accessor(s, q, g, true),
        None => match pass(s, p, g_setter(s, p)) {
            Some((st, q)) => g_second_accessor(s, q, st, false),
            None => (Seq::empty(), p),
        },
    }
}

/// `mods val|var <T> Receiver.vars = init where .. accessors`, where `by`
/// in place of `=` marks a delegated initializer.
pub open spec fn g_property(s: Seq<char>, p: int) -> Option<(Tree, int)>
    decreases s.len() - p, 1int,
{
    let ms = g_modifiers(s, p);
    let m = if kw(s, ms.1, "val"@) is Some {
        Some((false, kw(s, ms.1, "val"@)->0))
    } else if kw(s, ms.1, "var"@) is Some {
        Some((true, kw(s, ms.1, "var"@)->0))
    } else {
        None
    };
    if within(s, p, ms.1) && m is Some {
        let (mutable, p2) = m->0;
        let (tps, p3) = opt_list(s, p2, g_type_params(s, p2));
        let (recv, p4) = g_receiver(s, p3);
        match pass(s, p4, g_vars(s, p4)) {
            Some((vars, p5)) => {
                let (deleg, init, p6) = match ch(s, p5, '=') {
                    Some(q) => match pass(s, q, g_expression(s, q)) {
                        Some((e, q1)) => (false, e, q1),
                        None => (false, Tree::Absent, p5),
                    },
                    None => match kw(s, p5, "by"@) {
                        Some(q) => match pass(s, q, g_expression(s, q)) {
                            Some((e, q1)) => (true, e, q1),
                            None => (false, Tree::Absent, p5),
                        },
                        None => (false, Tree::Absent, p5),
                    },
                };
                let (wh, p7) = g_where(s, p6);
                if within(s, p6, p7) {
                    let accs = g_accessors(s, p7);
                    if within(s, p7, accs.1) {
                        Some(
                            (
                                node(
                                    Shape::Property,
                                    seq![
                                        list(trees_mods(ms.0)),
                                        Tree::Flag(has_const(ms.0)),
                                        Tree::Flag(mutable),
                                        Tree::Flag(deleg),
                                        tps,
                                        recv,
                                        vars,
                                        init,
                                        wh,
                                        list(accs.0),
                                    ],
                                ),
                                accs.1,
                            ),
                        )
                    } else {
                        None
                    }
                } else {
                    None
                }
            },
            None => None,
        }
    } else {
        None
    }
}

/// A declaration where a statement may stand: annotations, then a
/// function, class-like entity, type alias or property.
pub open spec fn g_local_decl(s: Seq<char>, p: int) -> Option<(Tree, int)>
    decreases s.len() - p, 3int,
{
    match list_part(s, p, g_annotation_sets(s, p)) {
        Some((anns, q)) => {
            let k = if g_function(s, q) is Some {
                g_function(s, q)
            } else if g_entity(s, q) is Some {
                g_entity(s, q)
            } else if g_typealias(s, q) is Some {
                g_typealias(s, q)
            } else {
                g_property(s, q)
            };
            match pass(s, q, k) {
                Some((kt, q1)) => Some((node(Shape::Declaration, seq![anns, kt]), q1)),
                None => None,
            }
        },
        None => None,
    }
}

/// A member or top-level declaration, then any `;`. Its kinds are tried
/// from the most specific to the least: enum entries, which start with a
/// bare name, come last.
pub open spec fn g_declaration(s: Seq<char>, p: int) -> Option<(Tree, int)>
    decreases s.len() - p, 3int,
{
    match list_part(s, p, g_annotation_sets(s, p)) {
        Some((anns, q)) => {
            let k = if g_function(s, q) is Some {
                g_function(s, q)
            } else if g_init(s, q) is Some {
                g_init(s, q)
            } else if g_entity(s, q) is Some {
                g_entity(s, q)
            } else if g_constructor(s, q) is Some {
                g_constructor(s, q)
            } else if g_typealias(s, q) is Some {
                g_typealias(s, q)
            } else if g_property(s, q) is Some {
                g_property(s, q)
            } else {
                g_enum_entry(s, q)
            };
            match pass(s, q, k) {
                Some((kt, q1)) => Some((node(Shape::Declaration, seq![anns, kt]), semis(s, q1))),
                None => None,
            }
        },
        None => None,
    }
}

/// `{ declarations }`, as a list.
pub open spec fn g_decl_body(s: Seq<char>, p: int) -> Option<(Tree, int)>
    decreases s.len() - p, 0int,
{
    match ch(s, p, '{') {
        Some(q) => match list_part(s, q, g_decls(s, q)) {
            Some((ds, q1)) => match ch(s, q1, '}') {
                Some(q2) => Some((ds, q2)),
                None => None,
            },
            None => None,
        },
        None => None,
    }
}

pub open spec fn g_params(s: Seq<char>, p: int) -> (Seq<Tree>, int)
    decreases s.len() - p, 4int,
{
    match g_param(s, p) {
        Some((t, q)) => if within(s, p, q) {
            let rest = g_params_more(s, q);
            (seq![t] + rest.0, rest.1)
        } else {
            (Seq::empty(), p)
        },
        None => (Seq::empty(), p),
    }
}

pub open spec fn g_params_more(s: Seq<char>, p: int) -> (Seq<Tree>, int)
    decreases s.len() - p, 0int,
{
    match ch(s, p, ',') {
        Some(p1) => match g_param(s, p1) {
            Some((t, q)) => if within(s, p1, q) {
                let rest = g_params_more(s, q);
                (seq![t] + rest.0, rest.1)
            } else {
                (Seq::empty(), p)
            },
            None => (Seq::empty(), p),
        },
        None => (Seq::empty(), p),
    }
}

pub fn parse_params(s: &Vec<char>, p: usize, f: &mut Failure) -> (r: (Vec<Param>, usize))
    requires
        p <= s@.len(),
    ensures
        p <= r.1 <= s@.len(),
        g_params(s@, p as int) == (trees_params(r.0@), r.1 as int),
        kept(*old(f), *final(f), s@),
    decreases s@.len() - p, 4int,
{
    let mut v: Vec<Param> = Vec::new();
    let mut cur = p;
    match parse_param(s, p, f) {
        None => return (v, p),
        Some((x, q)) => {
            v.push(x);
            cur = q;
            assert(trees_params(v@) =~= seq![x.tree()]);
        },
    }
    loop
        invariant
            p <= cur <= s@.len(),
            g_params(s@, p as int) == (trees_params(v@) + g_params_more(s@, cur as int).0, g_params_more(s@, cur as int).1),
            kept(*old(f), *f, s@),
        ensures
            p <= cur <= s@.len(),
            g_params(s@, p as int) == (trees_params(v@), cur as int),
        decreases s@.len() - cur,
    {
        match char_token(s, cur, ',', f) {
            None => {
                assert(trees_params(v@) + Seq::<Tree>::empty() =~= trees_params(v@));
                break;
            },
            Some(c1) => match parse_param(s, c1, f) {
                None => {
                    assert(trees_params(v@) + Seq::<Tree>::empty() =~= trees_params(v@));
                    break;
                },
                Some((x, q)) => {
                    let ghost old_v = v@;
                    let ghost rest = g_params_more(s@, q as int);
                    v.push(x);
                    assert(trees_params(v@) + rest.0 =~= trees_params(old_v) + (seq![x.tree()] + rest.0));
                    cur = q;
                },
            },
        }
    }
    (v, cur)
}

pub open spec fn g_type_param_list(s: Seq<char>, p: int) -> (Seq<Tree>, int)
    decreases s.len() - p, 4int,
{
    match g_type_param(s, p) {
        Some((t, q)) => if within(s, p, q) {
            let rest = g_type_param_list_more(s, q);
            (seq![t] + rest.0, rest.1)
        } else {
            (Seq::empty(), p)
        },
        None => (Seq::empty(), p),
    }
}

pub open spec fn g_type_param_list_more(s: Seq<char>, p: int) -> (Seq<Tree>, int)
    decreases s.len() - p, 0int,
{
    match ch(s, p, ',') {
        Some(p1) => match g_type_param(s, p1) {
            Some((t, q)) => if within(s, p1, q) {
                let rest = g_type_param_list_more(s, q);
                (seq![t] + rest.0, rest.1)
            } else {
                (Seq::empty(), p)
            },
            None => (Seq::empty(), p),
        },
        None => (Seq::empty(), p),
    }
}

pub fn parse_type_param_list(s: &Vec<char>, p: usize, f: &mut Failure) -> (r: (Vec<TypeParam>, usize))
    requires
        p <= s@.len(),
    ensures
        p <= r.1 <= s@.len(),
        g_type_param_list(s@, p as int) == (trees_type_params(r.0@), r.1 as int),
        kept(*old(f), *final(f), s@),
    decreases s@.len() - p, 4int,
{
    let mut v: Vec<TypeParam> = Vec::new();
    let mut cur = p;
    match parse_type_param(s, p, f) {
        None => return (v, p),
        Some((x, q)) => {
            v.push(x);
            cur = q;
            assert(trees_type_params(v@) =~= seq![x.tree()]);
        },
    }
    loop
        invariant
            p <= cur <= s@.len(),
            g_type_param_list(s@, p as int) == (trees_type_params(v@) + g_type_param_list_more(s@, cur as int).0, g_type_param_list_more(s@, cur as int).1),
            kept(*old(f), *f, s@),
        ensures
            p <= cur <= s@.len(),
            g_type_param_list(s@, p as int) == (trees_type_params(v@), cur as int),
        decreases s@.len() - cur,
    {
        match char_token(s, cur, ',', f) {
            None => {
                assert(trees_type_params(v@) + Seq::<Tree>::empty() =~= trees_type_params(v@));
                break;
            },
            Some(c1) => match parse_type_param(s, c1, f) {
                None => {
                    assert(trees_type_params(v@) + Seq::<Tree>::empty() =~= trees_type_params(v@));
                    break;
                },
                Some((x, q)) => {
                    let ghost old_v = v@;
                    let ghost rest = g_type_param_list_more(s@, q as int);
                    v.push(x);
                    assert(trees_type_params(v@) + rest.0 =~= trees_type_params(old_v) + (seq![x.tree()] + rest.0));
                    cur = q;
                },
            },
        }
    }
    (v, cur)
}

pub open spec fn g_bounded_type_param_list(s: Seq<char>, p: int) -> (Seq<Tree>, int)
    decreases s.len() - p, 4int,
{
    match g_bounded_type_param(s, p) {
        Some((t, q)) => if within(s, p, q) {
            let rest = g_bounded_type_param_list_more(s, q);
            (seq![t] + rest.0, rest.1)
        } else {
            (Seq::empty(), p)
        },
        None => (Seq::empty(), p),
    }
}

pub open spec fn g_bounded_type_param_list_more(s: Seq<char>, p: int) -> (Seq<Tree>, int)
    decreases s.len() - p, 0int,
{
    match ch(s, p, ',') {
        Some(p1) => match g_bounded_type_param(s, p1) {
            Some((t, q)) => if within(s, p1, q) {
                let rest = g_bounded_type_param_list_more(s, q);
                (seq![t] + rest.0, rest.1)
            } else {
                (Seq::empty(), p)
            },
            None => (Seq::empty(), p),
        },
        None => (Seq::empty(), p),
    }
}

pub fn parse_bounded_type_param_list(s: &Vec<char>, p: usize, f: &mut Failure) -> (r: (Vec<BoundedTypeParam>, usize))
    requires
        p <= s@.len(),
    ensures
        p <= r.1 <= s@.len(),
        g_bounded_type_param_list(s@, p as int) == (trees_bounded_type_params(r.0@), r.1 as int),
        kept(*old(f), *final(f), s@),
    decreases s@.len() - p, 4int,
{
    let mut v: Vec<BoundedTypeParam> = Vec::new();
    let mut cur = p;
    match parse_bounded_type_param(s, p, f) {
        None => return (v, p),
        Some((x, q)) => {
            v.push(x);
            cur = q;
            assert(trees_bounded_type_params(v@) =~= seq![x.tree()]);
        },
    }
    loop
        invariant
            p <= cur <= s@.len(),
            g_bounded_type_param_list(s@, p as int) == (trees_bounded_type_params(v@) + g_bounded_type_param_list_more(s@, cur as int).0, g_bounded_type_param_list_more(s@, cur as int).1),
            kept(*old(f), *f, s@),
        ensures
            p <= cur <= s@.len(),
            g_bounded_type_param_list(s@, p as int) == (trees_bounded_type_params(v@), cur as int),
        decreases s@.len() - cur,
    {
        match char_token(s, cur, ',', f) {
            None => {
                assert(trees_bounded_type_params(v@) + Seq::<Tree>::empty() =~= trees_bounded_type_params(v@));
                break;
            },
            Some(c1) => match parse_bounded_type_param(s, c1, f) {
                None => {
                    assert(trees_bounded_type_params(v@) + Seq::<Tree>::empty() =~= trees_bounded_type_params(v@));
                    break;
                },
                Some((x, q)) => {
                    let ghost old_v = v@;
                    let ghost rest = g_bounded_type_param_list_more(s@, q as int);
                    v.push(x);
                    assert(trees_bounded_type_params(v@) + rest.0 =~= trees_bounded_type_params(old_v) + (seq![x.tree()] + rest.0));
                    cur = q;
                },
            },
        }
    }
    (v, cur)
}

pub open spec fn g_decls(s: Seq<char>, p: int) -> (Seq<Tree>, int)
    decreases s.len() - p, 4int,
{
    match g_declaration(s, p) {
        Some((t, q)) => if within(s, p + 1, q) {
            let rest = g_decls(s, q);
            (seq![t] + rest.0, rest.1)
        } else {
            (Seq::empty(), p)
        },
        None => (Seq::empty(), p),
    }
}

pub fn parse_decls(s: &Vec<char>, p: usize, f: &mut Failure) -> (r: (Vec<Declaration>, usize))
    requires
        p <= s@.len(),
    ensures
        p <= r.1 <= s@.len(),
        g_decls(s@, p as int) == (trees_decls(r.0@), r.1 as int),
        kept(*old(f), *final(f), s@),
    decreases s@.len() - p, 4int,
{
    let mut v: Vec<Declaration> = Vec::new();
    let mut cur = p;
    assert(trees_decls(v@) + g_decls(s@, p as int).0 =~= g_decls(s@, p as int).0);
    loop
        invariant
            p <= cur <= s@.len(),
            g_decls(s@, p as int) == (trees_decls(v@) + g_decls(s@, cur as int).0, g_decls(s@, cur as int).1),
            kept(*old(f), *f, s@),
        ensures
            p <= cur <= s@.len(),
            g_decls(s@, p as int) == (trees_decls(v@), cur as int),
        decreases s@.len() - cur,
    {
        match parse_declaration(s, cur, f) {
            Some((x, q)) => {
                if q <= cur {
                    assert(trees_decls(v@) + Seq::<Tree>::empty() =~= trees_decls(v@));
                    break;
                }
                let ghost old_v = v@;
                let ghost rest = g_decls(s@, q as int);
                v.push(x);
                assert(trees_decls(v@) + rest.0 =~= trees_decls(old_v) + (seq![x.tree()] + rest.0));
                cur = q;
            },
            None => {
                assert(trees_decls(v@) + Seq::<Tree>::empty() =~= trees_decls(v@));
                break;
            },
        }
    }
    (v, cur)
}

fn contains_const(v: &Vec<Modifier>) -> (r: bool)
    ensures
        r == has_const(v@),
{
    let mut found = false;
    let mut i: usize = 0;
    while i < v.len()
        invariant
            i <= v@.len(),
            found == has_const(v@.subrange(0, i as int)),
        decreases v@.len() - i,
    {
        assert(v@.subrange(0, i + 1).subrange(0, i as int) =~= v@.subrange(0, i as int));
        let c = match v[i] {
            Modifier::Const => true,
            _ => false,
        };
        found = found || c;
        i = i + 1;
    }
    assert(v@.subrange(0, v@.len() as int) =~= v@);
    found
}

fn no_annotations() -> (r: Vec<AnnotationSet>)
    ensures
        r@.len() == 0,
{
    Vec::new()
}

pub fn parse_param(s: &Vec<char>, p: usize, f: &mut Failure) -> (r: Option<(Param, usize)>)
    requires
        p <= s@.len(),
    ensures
        agrees(r, g_param(s@, p as int), p as int, s@.len() as int),
        kept(*old(f), *final(f), s@),
    decreases s@.len() - p, 3int,
{
    reveal(Param::tree);
    let (annotations, p1) = parse_annotation_sets(s, p, f);
    let (modifiers, p2) = parse_modifiers(s, p1, f);
    let (property, p3) = match keyword(s, p2, "var", f) {
        Some(q) => (Some(true), q),
        None => match keyword(s, p2, "val", f) {
            Some(q) => (Some(false), q),
            None => (None, p2),
        },
    };
    let (name, p4) = match ident_token(s, p3, f) {
        Some(x) => x,
        None => return None,
    };
    let p5 = match char_token(s, p4, ':', f) {
        Some(p5) => p5,
        None => return None,
    };
    match parse_type(s, p5, f) {
        Some((ty, p6)) => Some((Param { annotations, modifiers, property, name, ty }, p6)),
        None => None,
    }
}

pub fn parse_param_list(s: &Vec<char>, p: usize, f: &mut Failure) -> (r: Option<(Vec<Param>, usize)>)
    requires
        p <= s@.len(),
    ensures
        match r {
            Some((v, e)) => p <= e <= s@.len() && g_param_list(s@, p as int) == Some(
                (list(trees_params(v@)), e as int),
            ),
            None => g_param_list(s@, p as int) is None,
        },
        kept(*old(f), *final(f), s@),
    decreases s@.len() - p, 0int,
{
    let p1 = match char_token(s, p, '(', f) {
        Some(p1) => p1,
        None => return None,
    };
    let (v, p2) = parse_params(s, p1, f);
    match char_token(s, p2, ')', f) {
        Some(p3) => Some((v, p3)),
        None => None,
    }
}

pub fn parse_type_param(s: &Vec<char>, p: usize, f: &mut Failure) -> (r: Option<(TypeParam, usize)>)
    requires
        p <= s@.len(),
    ensures
        agrees(r, g_type_param(s@, p as int), p as int, s@.len() as int),
        kept(*old(f), *final(f), s@),
    decreases s@.len() - p, 3int,
{
    reveal(TypeParam::tree);
    let (annotations, p1) = parse_annotation_sets(s, p, f);
    let (name, p2) = match ident_token(s, p1, f) {
        Some(x) => x,
        None => return None,
    };
    let (ty, p3) = parse_ret_type(s, p2, f);
    Some((TypeParam { annotations, name, ty }, p3))
}

pub fn parse_type_params(s: &Vec<char>, p: usize, f: &mut Failure) -> (r: Option<(Vec<TypeParam>, usize)>)
    requires
        p <= s@.len(),
    ensures
        match r {
            Some((v, e)) => p <= e <= s@.len() && g_type_params(s@, p as int) == Some(
                (list(trees_type_params(v@)), e as int),
            ),
            None => g_type_params(s@, p as int) is None,
        },
        kept(*old(f), *final(f), s@),
    decreases s@.len() - p, 0int,
{
    let p1 = match char_token(s, p, '<', f) {
        Some(p1) => p1,
        None => return None,
    };
    let (v, p2) = parse_type_param_list(s, p1, f);
    match char_token(s, p2, '>', f) {
        Some(p3) => Some((v, p3)),
        None => None,
    }
}

/// The type parameters at `p`, or none.
fn opt_type_params(s: &Vec<char>, p: usize, f: &mut Failure) -> (r: (Vec<TypeParam>, usize))
    requires
        p <= s@.len(),
    ensures
        opt_list(s@, p as int, g_type_params(s@, p as int)) == (list(trees_type_params(r.0@)), r.1 as int),
        p <= r.1 <= s@.len(),
        kept(*old(f), *final(f), s@),
    decreases s@.len() - p, 1int,
{
    match parse_type_params(s, p, f) {
        Some(x) => x,
        None => {
            let v: Vec<TypeParam> = Vec::new();
            assert(trees_type_params(v@) =~= Seq::<Tree>::empty());
            (v, p)
        },
    }
}

pub fn parse_bounded_type_param(s: &Vec<char>, p: usize, f: &mut Failure) -> (r: Option<(BoundedTypeParam, usize)>)
    requires
        p <= s@.len(),
    ensures
        agrees(r, g_bounded_type_param(s@, p as int), p as int, s@.len() as int),
        kept(*old(f), *final(f), s@),
    decreases s@.len() - p, 3int,
{
    reveal(BoundedTypeParam::tree);
    let (annotations, p1) = parse_annotation_sets(s, p, f);
    let (kind, p2) = match keyword(s, p1, "in", f) {
        Some(q) => (Some(BoundKind::In), q),
        None => match keyword(s, p1, "out", f) {
            Some(q) => (Some(BoundKind::Out), q),
            None => (None, p1),
        },
    };
    let (name, p3) = match ident_token(s, p2, f) {
        Some(x) => x,
        None => return None,
    };
    let (ty, p4) = parse_ret_type(s, p3, f);
    let mut bounds: Vec<TypeBound> = Vec::new();
    let b = TypeBound { name, ty, kind };
    let ghost bt = b.tree();
    bounds.push(b);
    assert(trees_type_bounds(bounds@) =~= seq![bt]);
    Some((BoundedTypeParam { annotations, bounds }, p4))
}

pub fn parse_class_type_params(s: &Vec<char>, p: usize, f: &mut Failure) -> (r: Option<(Vec<BoundedTypeParam>, usize)>)
    requires
        p <= s@.len(),
    ensures
        match r {
            Some((v, e)) => p <= e <= s@.len() && g_class_type_params(s@, p as int) == Some(
                (list(trees_bounded_type_params(v@)), e as int),
            ),
            None => g_class_type_params(s@, p as int) is None,
        },
        kept(*old(f), *final(f), s@),
    decreases s@.len() - p, 0int,
{
    let p1 = match char_token(s, p, '<', f) {
        Some(p1) => p1,
        None => return None,
    };
    let (v, p2) = parse_bounded_type_param_list(s, p1, f);
    match char_token(s, p2, '>', f) {
        Some(p3) => Some((v, p3)),
        None => None,
    }
}

#[verifier::spinoff_prover]
#[verifier::rlimit(100)]
pub fn parse_function(s: &Vec<char>, p: usize, f: &mut Failure) -> (r: Option<(DeclarationKind, usize)>)
    requires
        p <= s@.len(),
    ensures
        match r {
            Some((k, e)) => p <= e <= s@.len() && g_function(s@, p as int) == Some((k.tree(), e as int)),
            None => g_function(s@, p as int) is None,
        },
        kept(*old(f), *final(f), s@),
    decreases s@.len() - p, 1int,
{
    reveal(DeclarationKind::tree);
    reveal(FunctionDeclaration::tree);
    reveal_with_fuel(opt_block, 1);
    let (modifiers, p1) = parse_modifiers(s, p, f);
    let p2 = match keyword(s, p1, "fun", f) {
        Some(q) => q,
        None => return None,
    };
    let (type_params, p3) = opt_type_params(s, p2, f);
    let (receiver, p4) = parse_receiver(s, p3, f);
    let (name, p5) = match ident_token(s, p4, f) {
        Some((n, q)) => (Some(n), q),
        None => (None, p4),
    };
    let (params, p6) = match parse_param_list(s, p5, f) {
        Some(x) => x,
        None => return None,
    };
    let (return_ty, p7) = parse_ret_type(s, p6, f);
    let (bounds, p8) = parse_where(s, p7, f);
    let (body, p9) = match parse_fun_body(s, p8, f) {
        Some((b, q)) => (Some(b), q),
        None => (None, p8),
    };
    let ghost kids = seq![
        modifiers_tree(modifiers),
        list(trees_type_params(type_params@)),
        opt_type(receiver),
        opt_text(name),
        list(trees_params(params@)),
        opt_type(return_ty),
        list(trees_type_bounds(bounds@)),
        opt_block(body),
    ];
    let fd = FunctionDeclaration {
        modifiers,
        type_params,
        receiver,
        name,
        params,
        return_ty,
        bounds,
        body,
    };
    assert(fd.tree()->Node_1 =~= kids);
    Some((DeclarationKind::Function(fd), p9))
}

pub fn parse_decl_body(s: &Vec<char>, p: usize, f: &mut Failure) -> (r: Option<(Vec<Declaration>, usize)>)
    requires
        p <= s@.len(),
    ensures
        match r {
            Some((v, e)) => p <= e <= s@.len() && g_decl_body(s@, p as int) == Some(
                (list(trees_decls(v@)), e as int),
            ),
            None => g_decl_body(s@, p as int) is None,
        },
        kept(*old(f), *final(f), s@),
    decreases s@.len() - p, 0int,
{
    let q = match char_token(s, p, '{', f) {
        Some(q) => q,
        None => return None,
    };
    let (v, q1) = parse_decls(s, q, f);
    match char_token(s, q1, '}', f) {
        Some(q2) => Some((v, q2)),
        None => None,
    }
}

/// The declaration body at `p`, or none.
fn opt_decl_body(s: &Vec<char>, p: usize, f: &mut Failure) -> (r: (Vec<Declaration>, usize))
    requires
        p <= s@.len(),
    ensures
        opt_list(s@, p as int, g_decl_body(s@, p as int)) == (list(trees_decls(r.0@)), r.1 as int),
        p <= r.1 <= s@.len(),
        kept(*old(f), *final(f), s@),
    decreases s@.len() - p, 1int,
{
    match parse_decl_body(s, p, f) {
        Some(x) => x,
        None => {
            let v: Vec<Declaration> = Vec::new();
            assert(trees_decls(v@) =~= Seq::<Tree>::empty());
            (v, p)
        },
    }
}

pub fn parse_enum_entry(s: &Vec<char>, p: usize, f: &mut Failure) -> (r: Option<(DeclarationKind, usize)>)
    requires
        p <= s@.len(),
    ensures
        match r {
            Some((k, e)) => p <= e <= s@.len() && g_enum_entry(s@, p as int) == Some((k.tree(), e as int)),
            None => g_enum_entry(s@, p as int) is None,
        },
        kept(*old(f), *final(f), s@),
    decreases s@.len() - p, 1int,
{
    reveal(DeclarationKind::tree);
    reveal(EnumEntryDeclaration::tree);
    let (modifiers, p1) = parse_modifiers(s, p, f);
    let (name, p2) = match ident_token(s, p1, f) {
        Some(x) => x,
        None => return None,
    };
    let (args, p3) = match parse_call_arg_list(s, p2, f) {
        Some(x) => x,
        None => return None,
    };
    let (inner, p4) = opt_decl_body(s, p3, f);
    let p5 = match char_token(s, p4, ',', f) {
        Some(q) => q,
        None => p4,
    };
    Some((DeclarationKind::EnumEntry(EnumEntryDeclaration { modifiers, name, args, inner }), p5))
}

pub fn parse_init(s: &Vec<char>, p: usize, f: &mut Failure) -> (r: Option<(DeclarationKind, usize)>)
    requires
        p <= s@.len(),
    ensures
        match r {
            Some((k, e)) => p <= e <= s@.len() && g_init(s@, p as int) == Some((k.tree(), e as int)),
            None => g_init(s@, p as int) is None,
        },
        kept(*old(f), *final(f), s@),
    decreases s@.len() - p, 1int,
{
    reveal(DeclarationKind::tree);
    let q = match keyword(s, p, "init", f) {
        Some(q) => q,
        None => return None,
    };
    match parse_block(s, q, f) {
        Some((b, q1)) => Some((DeclarationKind::InitBlock(b), q1)),
        None => None,
    }
}

pub fn parse_entity_kind(s: &Vec<char>, p: usize, f: &mut Failure) -> (r: Option<(EntityDeclarationKind, usize)>)
    requires
        p <= s@.len(),
    ensures
        match r {
            Some((k, e)) => p < e <= s@.len() && g_entity_kind(s@, p as int) == Some((k, e as int)),
            None => g_entity_kind(s@, p as int) is None,
        },
        kept(*old(f), *final(f), s@),
{
    if let Some(q) = keyword(s, p, "enum", f) {
        if let Some(q1) = keyword(s, q, "class", f) {
            return Some((EntityDeclarationKind::Enum, q1));
        }
    }
    if let Some(q) = keyword(s, p, "interface", f) {
        return Some((EntityDeclarationKind::Interface, q));
    }
    if let Some(q) = keyword(s, p, "class", f) {
        return Some((EntityDeclarationKind::Class, q));
    }
    if let Some(q) = keyword(s, p, "companion", f) {
        if let Some(q1) = keyword(s, q, "object", f) {
            return Some((EntityDeclarationKind::CompanionObject, q1));
        }
    }
    if let Some(q) = keyword(s, p, "object", f) {
        return Some((EntityDeclarationKind::Object, q));
    }
    None
}

#[verifier::spinoff_prover]
#[verifier::rlimit(100)]
pub fn parse_primary_ctor(s: &Vec<char>, p: usize, f: &mut Failure) -> (r: Option<(PrimaryConstructorDeclaration, usize)>)
    requires
        p <= s@.len(),
    ensures
        agrees(r, g_primary_ctor(s@, p as int), p as int, s@.len() as int),
        kept(*old(f), *final(f), s@),
    decreases s@.len() - p, 1int,
{
    reveal(PrimaryConstructorDeclaration::tree);
    let (modifiers, p1) = parse_modifiers(s, p, f);
    let p2 = match keyword(s, p1, "constructor", f) {
        Some(q) => q,
        None => p1,
    };
    match parse_param_list(s, p2, f) {
        Some((params, p3)) => Some((PrimaryConstructorDeclaration { modifiers, params }, p3)),
        None => None,
    }
}

#[verifier::spinoff_prover]
#[verifier::rlimit(100)]
pub fn parse_entity(s: &Vec<char>, p: usize, f: &mut Failure) -> (r: Option<(DeclarationKind, usize)>)
    requires
        p <= s@.len(),
    ensures
        match r {
            Some((k, e)) => p <= e <= s@.len() && g_entity(s@, p as int) == Some((k.tree(), e as int)),
            None => g_entity(s@, p as int) is None,
        },
        kept(*old(f), *final(f), s@),
    decreases s@.len() - p, 1int,
{
    reveal(DeclarationKind::tree);
    reveal(EntityDeclaration::tree);
    reveal_with_fuel(opt_primary_constructor, 1);
    let (modifiers, p1) = parse_modifiers(s, p, f);
    let (kind, p2) = match parse_entity_kind(s, p1, f) {
        Some(x) => x,
        None => return None,
    };
    let (name, p3) = match ident_token(s, p2, f) {
        Some((n, q)) => (Some(n), q),
        None => (None, p2),
    };
    let (type_params, p4) = match parse_class_type_params(s, p3, f) {
        Some(x) => x,
        None => {
            let v: Vec<BoundedTypeParam> = Vec::new();
            assert(trees_bounded_type_params(v@) =~= Seq::<Tree>::empty());
            (v, p3)
        },
    };
    let (primary_constructor, p5) = match parse_primary_ctor(s, p4, f) {
        Some((c, q)) => (Some(c), q),
        None => (None, p4),
    };
    let (extends, p6) = match parse_supertypes(s, p5, f) {
        Some(x) => x,
        None => {
            let v: Vec<Type> = Vec::new();
            assert(trees_types(v@) =~= Seq::<Tree>::empty());
            (v, p5)
        },
    };
    let (bounds, p7) = parse_where(s, p6, f);
    let (inner, p8) = opt_decl_body(s, p7, f);
    Some(
        (
            DeclarationKind::Entity(
                EntityDeclaration {
                    modifiers,
                    kind,
                    name,
                    type_params,
                    primary_constructor,
                    extends,
                    bounds,
                    inner,
                },
            ),
            p8,
        ),
    )
}

pub fn parse_delegate(s: &Vec<char>, p: usize, f: &mut Failure) -> (r: Option<(ConstructorDelegate, usize)>)
    requires
        p <= s@.len(),
    ensures
        agrees(r, g_delegate(s@, p as int), p as int, s@.len() as int),
        kept(*old(f), *final(f), s@),
    decreases s@.len() - p, 0int,
{
    reveal(ConstructorDelegate::tree);
    let q = match char_token(s, p, ':', f) {
        Some(q) => q,
        None => return None,
    };
    let (kind, q1) = match keyword(s, q, "this", f) {
        Some(q1) => (ConstructorDelegateKind::This, q1),
        None => match keyword(s, q, "super", f) {
            Some(q1) => (ConstructorDelegateKind::Super, q1),
            None => return None,
        },
    };
    match parse_call_arg_list(s, q1, f) {
        Some((args, q2)) => Some((ConstructorDelegate { kind, args }, q2)),
        None => None,
    }
}

#[verifier::spinoff_prover]
#[verifier::rlimit(100)]
pub fn parse_constructor(s: &Vec<char>, p: usize, f: &mut Failure) -> (r: Option<(DeclarationKind, usize)>)
    requires
        p <= s@.len(),
    ensures
        match r {
            Some((k, e)) => p <= e <= s@.len() && g_constructor(s@, p as int) == Some((k.tree(), e as int)),
            None => g_constructor(s@, p as int) is None,
        },
        kept(*old(f), *final(f), s@),
    decreases s@.len() - p, 1int,
{
    reveal(ConstructorDeclaration::tree);
    reveal_with_fuel(opt_block, 1);
    reveal_with_fuel(opt_delegate, 1);
    reveal(DeclarationKind::tree);
    let (modifiers, p1) = parse_modifiers(s, p, f);
    let p2 = match keyword(s, p1, "constructor", f) {
        Some(q) => q,
        None => return None,
    };
    let (params, p3) = match parse_param_list(s, p2, f) {
        Some(x) => x,
        None => return None,
    };
    let (delegate, p4) = match parse_delegate(s, p3, f) {
        Some((d, q)) => (Some(d), q),
        None => (None, p3),
    };
    let (body, p5) = match parse_block(s, p4, f) {
        Some((b, q)) => (Some(b), q),
        None => (None, p4),
    };
    Some((DeclarationKind::Constructor(ConstructorDeclaration { modifiers, params, delegate, body }), p5))
}

pub fn parse_typealias(s: &Vec<char>, p: usize, f: &mut Failure) -> (r: Option<(DeclarationKind, usize)>)
    requires
        p <= s@.len(),
    ensures
        match r {
            Some((k, e)) => p <= e <= s@.len() && g_typealias(s@, p as int) == Some((k.tree(), e as int)),
            None => g_typealias(s@, p as int) is None,
        },
        kept(*old(f), *final(f), s@),
    decreases s@.len() - p, 1int,
{
    reveal(DeclarationKind::tree);
    reveal(TypeAliasDeclaration::tree);
    let (modifiers, p1) = parse_modifiers(s, p, f);
    let p2 = match keyword(s, p1, "typealias", f) {
        Some(q) => q,
        None => return None,
    };
    let (name, p3) = match ident_token(s, p2, f) {
        Some(x) => x,
        None => return None,
    };
    let (type_params, p4) = opt_type_params(s, p3, f);
    let p5 = match char_token(s, p4, '=', f) {
        Some(q) => q,
        None => return None,
    };
    match parse_type(s, p5, f) {
        Some((ty, p6)) => Some((DeclarationKind::TypeAlias(TypeAliasDeclaration { modifiers, name, type_params, ty }), p6)),
        None => None,
    }
}

pub fn parse_getter(s: &Vec<char>, p: usize, f: &mut Failure) -> (r: Option<(PropertyAccessor, usize)>)
    requires
        p <= s@.len(),
    ensures
        agrees(r, g_getter(s@, p as int), p as int, s@.len() as int),
        kept(*old(f), *final(f), s@),
    decreases s@.len() - p, 3int,
{
    reveal(PropertyAccessor::tree);
    reveal_with_fuel(opt_block, 1);
    let (annotations, p1) = parse_annotation_sets(s, p, f);
    let (modifiers, p2) = parse_modifiers(s, p1, f);
    let p3 = match keyword(s, p2, "get", f) {
        Some(q) => q,
        None => return None,
    };
    let p4 = match char_token(s, p3, '(', f) {
        Some(q) => match char_token(s, q, ')', f) {
            Some(q1) => q1,
            None => p3,
        },
        None => p3,
    };
    let (return_ty, p5) = parse_ret_type(s, p4, f);
    let (body, p6) = match parse_fun_body(s, p5, f) {
        Some((b, q)) => (Some(b), q),
        None => (None, p5),
    };
    Some((PropertyAccessor::Getter { annotations, modifiers, return_ty, body }, p6))
}

pub fn parse_setter(s: &Vec<char>, p: usize, f: &mut Failure) -> (r: Option<(PropertyAccessor, usize)>)
    requires
        p <= s@.len(),
    ensures
        agrees(r, g_setter(s@, p as int), p as int, s@.len() as int),
        kept(*old(f), *final(f), s@),
    decreases s@.len() - p, 3int,
{
    reveal(PropertyAccessor::tree);
    reveal_with_fuel(opt_block, 1);
    let (annotations, p1) = parse_annotation_sets(s, p, f);
    let (modifiers, p2) = parse_modifiers(s, p1, f);
    let p3 = match keyword(s, p2, "set", f) {
        Some(q) => q,
        None => return None,
    };
    let (field, p4) = match char_token(s, p3, '(', f) {
        Some(q) => match ident_token(s, q, f) {
            Some((name, q1)) => {
                let (ty, q2) = parse_ret_type(s, q1, f);
                match char_token(s, q2, ')', f) {
                    Some(q3) => (Some(PropertySetterField { name, ty }), q3),
                    None => (None, p3),
                }
            },
            None => (None, p3),
        },
        None => (None, p3),
    };
    let (return_ty, p5) = parse_ret_type(s, p4, f);
    let (body, p6) = match parse_fun_body(s, p5, f) {
        Some((b, q)) => (Some(b), q),
        None => (None, p5),
    };
    Some((PropertyAccessor::Setter { annotations, modifiers, field, return_ty, body }, p6))
}

#[verifier::spinoff_prover]
#[verifier::rlimit(100)]
fn parse_second_accessor(
    s: &Vec<char>,
    q: usize,
    first: PropertyAccessor,
    setter: bool,
    f: &mut Failure,
) -> (r: (Vec<PropertyAccessor>, usize))
    requires
        q <= s@.len(),
    ensures
        q <= r.1 <= s@.len(),
        g_second_accessor(s@, q as int, first.tree(), setter) == (trees_accessors(r.0@), r.1 as int),
        kept(*old(f), *final(f), s@),
    decreases s@.len() - q, 4int,
{
    let ghost ft = first.tree();
    let mut v: Vec<PropertyAccessor> = Vec::new();
    v.push(first);
    let second = if setter {
        parse_setter(s, q, f)
    } else {
        parse_getter(s, q, f)
    };
    match second {
        Some((t, q2)) => {
            let ghost tt = t.tree();
            v.push(t);
            assert(trees_accessors(v@) =~= seq![ft, tt]);
            (v, q2)
        },
        None => {
            assert(trees_accessors(v@) =~= seq![ft]);
            (v, q)
        },
    }
}

pub fn parse_accessors(s: &Vec<char>, p: usize, f: &mut Failure) -> (r: (Vec<PropertyAccessor>, usize))
    requires
        p <= s@.len(),
    ensures
        p <= r.1 <= s@.len(),
        g_accessors(s@, p as int) == (trees_accessors(r.0@), r.1 as int),
        kept(*old(f), *final(f), s@),
    decreases s@.len() - p, 5int,
{
    match parse_getter(s, p, f) {
        Some((g, q)) => parse_second_accessor(s, q, g, true, f),
        None => match parse_setter(s, p, f) {
            Some((st, q)) => parse_second_accessor(s, q, st, false, f),
            None => {
                let v: Vec<PropertyAccessor> = Vec::new();
                assert(trees_accessors(v@) =~= Seq::<Tree>::empty());
                (v, p)
            },
        },
    }
}

#[verifier::spinoff_prover]
#[verifier::rlimit(100)]
pub fn parse_property(s: &Vec<char>, p: usize, f: &mut Failure) -> (r: Option<(DeclarationKind, usize)>)
    requires
        p <= s@.len(),
    ensures
        match r {
            Some((k, e)) => p <= e <= s@.len() && g_property(s@, p as int) == Some((k.tree(), e as int)),
            None => g_property(s@, p as int) is None,
        },
        kept(*old(f), *final(f), s@),
    decreases s@.len() - p, 1int,
{
    reveal(DeclarationKind::tree);
    reveal(PropertyDeclaration::tree);
    reveal_with_fuel(opt_expr, 1);
    let (modifiers, p1) = parse_modifiers(s, p, f);
    let (is_mutable, p2) = match keyword(s, p1, "val", f) {
        Some(q) => (false, q),
        None => match keyword(s, p1, "var", f) {
            Some(q) => (true, q),
            None => return None,
        },
    };
    let is_const = contains_const(&modifiers);
    let (type_params, p3) = opt_type_params(s, p2, f);
    let (receiver, p4) = parse_receiver(s, p3, f);
    let (vars, p5) = match parse_vars(s, p4, f) {
        Some(x) => x,
        None => return None,
    };
    let (is_delegated, init, p6): (bool, Option<Expression>, usize) = match char_token(s, p5, '=', f) {
        Some(q) => match parse_expression(s, q, f) {
            Some((e, q1)) => (false, Some(e), q1),
            None => (false, None, p5),
        },
        None => match keyword(s, p5, "by", f) {
            Some(q) => match parse_expression(s, q, f) {
                Some((e, q1)) => (true, Some(e), q1),
                None => (false, None, p5),
            },
            None => (false, None, p5),
        },
    };
    let (bounds, p7) = parse_where(s, p6, f);
    let (accessors, p8) = parse_accessors(s, p7, f);
    Some(
        (
            DeclarationKind::Property(
                PropertyDeclaration {
                    modifiers,
                    is_const,
                    is_mutable,
                    is_delegated,
                    type_params,
                    receiver,
                    vars,
                    init,
                    bounds,
                    accessors,
                },
            ),
            p8,
        ),
    )
}

#[verifier::spinoff_prover]
#[verifier::rlimit(100)]
pub fn parse_local_decl(s: &Vec<char>, p: usize, f: &mut Failure) -> (r: Option<(Declaration, usize)>)
    requires
        p <= s@.len(),
    ensures
        agrees(r, g_local_decl(s@, p as int), p as int, s@.len() as int),
        kept(*old(f), *final(f), s@),
    decreases s@.len() - p, 3int,
{
    reveal(Declaration::tree);
    let (annotations, q) = parse_annotation_sets(s, p, f);
    let k = match parse_function(s, q, f) {
        Some(x) => Some(x),
        None => match parse_entity(s, q, f) {
            Some(x) => Some(x),
            None => match parse_typealias(s, q, f) {
                Some(x) => Some(x),
                None => parse_property(s, q, f),
            },
        },
    };
    match k {
        Some((kind, q1)) => Some((Declaration { annotations, kind }, q1)),
        None => None,
    }
}

#[verifier::spinoff_prover]
#[verifier::rlimit(100)]
pub fn parse_declaration(s: &Vec<char>, p: usize, f: &mut Failure) -> (r: Option<(Declaration, usize)>)
    requires
        p <= s@.len(),
    ensures
        agrees(r, g_declaration(s@, p as int), p as int, s@.len() as int),
        kept(*old(f), *final(f), s@),
    decreases s@.len() - p, 3int,
{
    reveal(Declaration::tree);
    let (annotations, q) = parse_annotation_sets(s, p, f);
    let k = match parse_function(s, q, f) {
        Some(x) => Some(x),
        None => match parse_init(s, q, f) {
            Some(x) => Some(x),
            None => match parse_entity(s, q, f) {
                Some(x) => Some(x),
                None => match parse_constructor(s, q, f) {
                    Some(x) => Some(x),
                    None => match parse_typealias(s, q, f) {
                        Some(x) => Some(x),
                        None => match parse_property(s, q, f) {
                            Some(x) => Some(x),
                            None => parse_enum_entry(s, q, f),
                        },
                    },
                },
            },
        },
    };
    match k {
        Some((kind, q1)) => {
            let q2 = skip_semis(s, q1, f);
            Some((Declaration { annotations, kind }, q2))
        },
        None => None,
    }
}

} // verus!
