//! The expression grammar, blocks and statements.
//!
//! Binary operators are folded from left to right with no precedence:
//! `1 + 2 * 3` reads as `(1 + 2) * 3`.
use vstd::prelude::*;
use crate::annotation::{
    g_annotation_sets, g_call_arg_list, g_path, parse_annotation_sets, parse_call_arg_list,
    parse_path,
};
use crate::ast::{
    BinaryOp, BinaryOperation, BinaryOperator, Block, BracketExpression, BreakExpression,
    CallExpression, CatchExpression, ContinueExpression, Expression, ForExpression, IfBranch,
    IfExpression, LabeledExpression, LambdaBlock, ObjectExpression, ParenthesizedExpression,
    MemberReferenceExpression, ReferenceExpression, ReturnExpression, Statement, SuperExpression, ThisExpression,
    ThrowExpression, TryExpression, Type, UnaryOperation, UnaryOperator, Vars, WhenEntry,
    WhenExpression, WhileExpression, Declaration,
};
use crate::chars::{group_runs, group_tokens, ident_end, is_ident_start, skip_ws};
use crate::declaration::{g_decl_body, g_local_decl, g_param, parse_decl_body, parse_local_decl, parse_param};
use crate::literal::{g_literal, literal_at};
use crate::model::{
    trees_texts,
    opt_text, path_tree,
    opt_block, opt_lambda,
    agrees, group_trees, list, list_part, node, opt_boxed_expr, opt_part, operator_tree, pass,
    trees_annotation_sets, trees_call_args, trees_catches, trees_decls, trees_exprs, trees_if_branches, trees_stmts,
    trees_types, trees_when_entries, Shape, Tree,
};
use crate::token::{
    at, at_char, ch, char_token, ident_token, keyword, kept, kw, label_after, label_token, semis,
    skip_semis, sym2, sym3, symbol2, symbol3, ident_run, is_ident_start_char, slice_text, skip, tok_ident, within, same_text, Failure,
};
use crate::ty::{g_supertypes, g_type, g_type_args, g_vars, parse_supertypes, parse_type, parse_type_args, parse_vars};

verus! {

broadcast use {group_runs, group_tokens, group_trees};


/// A label written right after a keyword, or `Absent`.
pub open spec fn label_part(s: Seq<char>, p: int) -> (Tree, int) {
    match label_after(s, p) {
        Some((n, e)) => (Tree::Text(n), e),
        None => (Tree::Absent, p),
    }
}

pub open spec fn infix_word(w: Seq<char>) -> bool {
    w == "and"@ || w == "or"@ || w == "xor"@ || w == "shl"@ || w == "shr"@ || w == "ushr"@
        || w == "until"@ || w == "downTo"@ || w == "step"@ || w == "to"@
}

pub open spec fn op(o: BinaryOp, q: Option<int>) -> Option<(Tree, int)> {
    Some((Tree::Op(o), q->0))
}

/// A binary operator. Longer tokens are tried before the shorter ones that
/// they start with.
pub open spec fn g_binop(s: Seq<char>, p: int) -> Option<(Tree, int)> {
    if sym3(s, p, '=', '=', '=') is Some {
        op(BinaryOp::ReferenceEqual, sym3(s, p, '=', '=', '='))
    } else if sym3(s, p, '!', '=', '=') is Some {
        op(BinaryOp::ReferenceNotEqual, sym3(s, p, '!', '=', '='))
    } else if sym2(s, p, '=', '=') is Some {
        op(BinaryOp::Equal, sym2(s, p, '=', '='))
    } else if sym2(s, p, '!', '=') is Some {
        op(BinaryOp::NotEqual, sym2(s, p, '!', '='))
    } else if sym2(s, p, '<', '=') is Some {
        op(BinaryOp::LessThanOrEqual, sym2(s, p, '<', '='))
    } else if sym2(s, p, '>', '=') is Some {
        op(BinaryOp::GreaterThanOrEqual, sym2(s, p, '>', '='))
    } else if sym2(s, p, '&', '&') is Some {
        op(BinaryOp::And, sym2(s, p, '&', '&'))
    } else if sym2(s, p, '|', '|') is Some {
        op(BinaryOp::Or, sym2(s, p, '|', '|'))
    } else if sym2(s, p, '+', '=') is Some {
        op(BinaryOp::AddAssign, sym2(s, p, '+', '='))
    } else if sym2(s, p, '-', '=') is Some {
        op(BinaryOp::SubtractAssign, sym2(s, p, '-', '='))
    } else if sym2(s, p, '*', '=') is Some {
        op(BinaryOp::MultiplyAssign, sym2(s, p, '*', '='))
    } else if sym2(s, p, '/', '=') is Some {
        op(BinaryOp::DivideAssign, sym2(s, p, '/', '='))
    } else if sym2(s, p, '%', '=') is Some {
        op(BinaryOp::ModuloAssign, sym2(s, p, '%', '='))
    } else if sym3(s, p, '.', '.', '<') is Some {
        op(BinaryOp::RangeUntil, sym3(s, p, '.', '.', '<'))
    } else if sym2(s, p, '.', '.') is Some {
        op(BinaryOp::RangeTo, sym2(s, p, '.', '.'))
    } else if sym2(s, p, '?', ':') is Some {
        op(BinaryOp::Elvis, sym2(s, p, '?', ':'))
    } else if sym2(s, p, '?', '.') is Some {
        op(BinaryOp::DotSafe, sym2(s, p, '?', '.'))
    } else if ch(s, p, '!') is Some && kw(s, ch(s, p, '!')->0, "in"@) is Some {
        op(BinaryOp::NotIn, kw(s, ch(s, p, '!')->0, "in"@))
    } else if ch(s, p, '!') is Some && kw(s, ch(s, p, '!')->0, "is"@) is Some {
        op(BinaryOp::IsNot, kw(s, ch(s, p, '!')->0, "is"@))
    } else if kw(s, p, "as"@) is Some {
        if at(s, kw(s, p, "as"@)->0, '?') {
            Some((Tree::Op(BinaryOp::AsNullable), kw(s, p, "as"@)->0 + 1))
        } else {
            op(BinaryOp::As, kw(s, p, "as"@))
        }
    } else if kw(s, p, "in"@) is Some {
        op(BinaryOp::In, kw(s, p, "in"@))
    } else if kw(s, p, "is"@) is Some {
        op(BinaryOp::Is, kw(s, p, "is"@))
    } else if ch(s, p, '.') is Some {
        op(BinaryOp::Dot, ch(s, p, '.'))
    } else if ch(s, p, '<') is Some {
        op(BinaryOp::LessThan, ch(s, p, '<'))
    } else if ch(s, p, '>') is Some {
        op(BinaryOp::GreaterThan, ch(s, p, '>'))
    } else if ch(s, p, '=') is Some {
        op(BinaryOp::Assign, ch(s, p, '='))
    } else if ch(s, p, '+') is Some {
        op(BinaryOp::Add, ch(s, p, '+'))
    } else if ch(s, p, '-') is Some {
        op(BinaryOp::Subtract, ch(s, p, '-'))
    } else if ch(s, p, '*') is Some {
        op(BinaryOp::Multiply, ch(s, p, '*'))
    } else if ch(s, p, '/') is Some {
        op(BinaryOp::Divide, ch(s, p, '/'))
    } else if ch(s, p, '%') is Some {
        op(BinaryOp::Modulo, ch(s, p, '%'))
    } else {
        match tok_ident(s, p) {
            Some((w, e)) => if infix_word(w) {
                Some((Tree::Text(w), e))
            } else {
                None
            },
            None => None,
        }
    }
}

/// A prefix operator.
pub open spec fn g_prefix(s: Seq<char>, p: int) -> Option<(UnaryOperator, int)> {
    if sym2(s, p, '+', '+') is Some {
        Some((UnaryOperator::Increment, sym2(s, p, '+', '+')->0))
    } else if sym2(s, p, '-', '-') is Some {
        Some((UnaryOperator::Decrement, sym2(s, p, '-', '-')->0))
    } else if ch(s, p, '!') is Some {
        Some((UnaryOperator::Not, ch(s, p, '!')->0))
    } else if ch(s, p, '+') is Some {
        Some((UnaryOperator::Plus, ch(s, p, '+')->0))
    } else if ch(s, p, '-') is Some {
        Some((UnaryOperator::Minus, ch(s, p, '-')->0))
    } else {
        None
    }
}

/// A postfix operator, written with no space before it.
pub open spec fn g_postfix_op(s: Seq<char>, p: int) -> Option<(UnaryOperator, int)> {
    if at(s, p, '+') && at(s, p + 1, '+') {
        Some((UnaryOperator::Increment, p + 2))
    } else if at(s, p, '-') && at(s, p + 1, '-') {
        Some((UnaryOperator::Decrement, p + 2))
    } else if at(s, p, '!') && at(s, p + 1, '!') {
        Some((UnaryOperator::NullDeref, p + 2))
    } else {
        None
    }
}

/// `::name`, written with no space.
pub open spec fn g_member_suffix(s: Seq<char>, p: int) -> Option<(Seq<char>, int)> {
    if at(s, p, ':') && at(s, p + 1, ':') && p + 2 < s.len() && is_ident_start(s[p + 2]) {
        Some((s.subrange(p + 2, ident_end(s, p + 2)), ident_end(s, p + 2)))
    } else {
        None
    }
}

/// The reference to `name` as an expression.
pub open spec fn name_ref(name: Seq<char>) -> Tree {
    node(Shape::Reference, seq![list(seq![Tree::Text(name)])])
}

/// Postfix operators and member references, folded onto `acc`.
pub open spec fn g_postfix(s: Seq<char>, p: int, acc: Tree) -> (Tree, int)
    decreases s.len() - p,
{
    match g_postfix_op(s, p) {
        Some((o, q)) => if within(s, p + 1, q) {
            g_postfix(s, q, node(Shape::Unary, seq![Tree::Unary(o), acc, Tree::Flag(false)]))
        } else {
            (acc, p)
        },
        None => match g_member_suffix(s, p) {
            Some((n, q)) => if within(s, p + 1, q) {
                g_postfix(s, q, node(Shape::MemberReference, seq![acc, name_ref(n)]))
            } else {
                (acc, p)
            },
            None => (acc, p),
        },
    }
}

/// `::name` with no left side.
pub open spec fn g_unbound_member(s: Seq<char>, p: int) -> Option<(Tree, int)> {
    match g_member_suffix(s, skip_ws(s, p)) {
        Some((n, q)) => Some((node(Shape::MemberReference, seq![Tree::Absent, name_ref(n)]), q)),
        None => None,
    }
}

/// An expression: operands joined by binary operators, folded from the
/// left.
pub open spec fn g_expression(s: Seq<char>, p: int) -> Option<(Tree, int)>
    decreases s.len() - p, 7int,
{
    match pass(s, p, g_operand(s, p)) {
        Some((t, q)) => Some(g_binary_tail(s, q, t)),
        None => None,
    }
}

/// Folds `op operand` pairs onto `acc` while they stand.
pub open spec fn g_binary_tail(s: Seq<char>, p: int, acc: Tree) -> (Tree, int)
    decreases s.len() - p, 0int,
{
    match g_binop(s, p) {
        Some((o, q1)) => if within(s, p + 1, q1) {
            match pass(s, q1, g_operand(s, q1)) {
                Some((rhs, q2)) => g_binary_tail(s, q2, node(Shape::Binary, seq![acc, o, rhs])),
                None => (acc, p),
            }
        } else {
            (acc, p)
        },
        None => (acc, p),
    }
}

/// A prefix operator and its operand, or a primary with its postfix
/// operators.
pub open spec fn g_operand(s: Seq<char>, p: int) -> Option<(Tree, int)>
    decreases s.len() - p, 6int,
{
    match g_prefix(s, p) {
        Some((o, q)) => if within(s, p + 1, q) {
            match pass(s, q, g_operand(s, q)) {
                Some((e, q2)) => Some((node(Shape::Unary, seq![Tree::Unary(o), e, Tree::Flag(true)]), q2)),
                None => None,
            }
        } else {
            None
        },
        None => match pass(s, p, g_primary(s, p)) {
            Some((e, q)) => Some(g_postfix(s, q, e)),
            None => None,
        },
    }
}

/// The primary expressions, tried in this order; the first that matches
/// wins.
pub open spec fn g_primary(s: Seq<char>, p: int) -> Option<(Tree, int)>
    decreases s.len() - p, 5int,
{
    if g_jump(s, p, "break"@, Shape::Break) is Some {
        g_jump(s, p, "break"@, Shape::Break)
    } else if g_jump(s, p, "continue"@, Shape::Continue) is Some {
        g_jump(s, p, "continue"@, Shape::Continue)
    } else if g_return(s, p) is Some {
        g_return(s, p)
    } else if g_throw(s, p) is Some {
        g_throw(s, p)
    } else if g_for(s, p) is Some {
        g_for(s, p)
    } else if g_if(s, p) is Some {
        g_if(s, p)
    } else if g_try(s, p) is Some {
        g_try(s, p)
    } else if g_when(s, p) is Some {
        g_when(s, p)
    } else if g_while(s, p) is Some {
        g_while(s, p)
    } else if g_do_while(s, p) is Some {
        g_do_while(s, p)
    } else if g_enclosed(s, p, '[', ']', Shape::Bracket) is Some {
        g_enclosed(s, p, '[', ']', Shape::Bracket)
    } else if g_enclosed(s, p, '(', ')', Shape::Parenthesized) is Some {
        g_enclosed(s, p, '(', ')', Shape::Parenthesized)
    } else if g_object(s, p) is Some {
        g_object(s, p)
    } else if g_lambda(s, p) is Some {
        g_lambda(s, p)
    } else if g_labeled(s, p) is Some {
        g_labeled(s, p)
    } else if g_jump(s, p, "this"@, Shape::This) is Some {
        g_jump(s, p, "this"@, Shape::This)
    } else if g_super(s, p) is Some {
        g_super(s, p)
    } else if g_unbound_member(s, p) is Some {
        g_unbound_member(s, p)
    } else if g_literal(s, p) is Some {
        g_literal(s, p)
    } else {
        g_call(s, p)
    }
}

/// `break`, `continue` or `this`, with an optional label.
pub open spec fn g_jump(s: Seq<char>, p: int, word: Seq<char>, shape: Shape) -> Option<(Tree, int)> {
    match kw(s, p, word) {
        Some(q) => {
            let (l, q1) = label_part(s, q);
            Some((node(shape, seq![l]), q1))
        },
        None => None,
    }
}

/// `return@label value`, both parts optional.
pub open spec fn g_return(s: Seq<char>, p: int) -> Option<(Tree, int)>
    decreases s.len() - p, 1int,
{
    match kw(s, p, "return"@) {
        Some(q) => {
            let (l, q1) = label_part(s, q);
            let (e, q2) = opt_part(s, q1, g_expression(s, q1));
            Some((node(Shape::Return, seq![l, e]), q2))
        },
        None => None,
    }
}

pub open spec fn g_throw(s: Seq<char>, p: int) -> Option<(Tree, int)>
    decreases s.len() - p, 1int,
{
    match kw(s, p, "throw"@) {
        Some(q) => match pass(s, q, g_expression(s, q)) {
            Some((e, q1)) => Some((node(Shape::Throw, seq![e]), q1)),
            None => None,
        },
        None => None,
    }
}

/// `( expression )` after a keyword.
pub open spec fn g_condition(s: Seq<char>, p: int) -> Option<(Tree, int)>
    decreases s.len() - p, 0int,
{
    match ch(s, p, '(') {
        Some(q) => match pass(s, q, g_expression(s, q)) {
            Some((e, q1)) => match ch(s, q1, ')') {
                Some(q2) => Some((e, q2)),
                None => None,
            },
            None => None,
        },
        None => None,
    }
}

/// `for (vars in iterable) body`.
pub open spec fn g_for(s: Seq<char>, p: int) -> Option<(Tree, int)>
    decreases s.len() - p, 1int,
{
    match kw(s, p, "for"@) {
        Some(q) => match ch(s, q, '(') {
            Some(q1) => match pass(s, q1, g_vars(s, q1)) {
                Some((v, q2)) => match kw(s, q2, "in"@) {
                    Some(q3) => match pass(s, q3, g_expression(s, q3)) {
                        Some((e, q4)) => match ch(s, q4, ')') {
                            Some(q5) => match pass(s, q5, g_body(s, q5)) {
                                Some((b, q6)) => Some((node(Shape::For, seq![v, e, b]), q6)),
                                None => None,
                            },
                            None => None,
                        },
                        None => None,
                    },
                    None => None,
                },
                None => None,
            },
            None => None,
        },
        None => None,
    }
}

/// `(condition) body`, one branch of an `if`.
pub open spec fn g_if_branch(s: Seq<char>, p: int) -> Option<(Tree, int)>
    decreases s.len() - p, 1int,
{
    match pass(s, p + 1, g_condition(s, p)) {
        Some((c, q)) => match pass(s, q, g_body(s, q)) {
            Some((b, q1)) => Some((node(Shape::IfBranch, seq![c, b]), q1)),
            None => None,
        },
        None => None,
    }
}

/// `else if (condition) body`.
pub open spec fn g_else_if(s: Seq<char>, p: int) -> Option<(Tree, int)>
    decreases s.len() - p, 1int,
{
    match kw(s, p, "else"@) {
        Some(q) => match kw(s, q, "if"@) {
            Some(q1) => pass(s, q1, g_if_branch(s, q1)),
            None => None,
        },
        None => None,
    }
}

/// `if (c) body`, then any `else if (c) body`, then an optional
/// `else body`.
pub open spec fn g_if(s: Seq<char>, p: int) -> Option<(Tree, int)>
    decreases s.len() - p, 1int,
{
    match kw(s, p, "if"@) {
        Some(q) => match pass(s, q, g_if_branch(s, q)) {
            Some((first, q1)) => {
                let rest = g_else_ifs(s, q1);
                if within(s, q1, rest.1) {
                    let (other, q3) = match kw(s, rest.1, "else"@) {
                        Some(q2) => match pass(s, q2, g_body(s, q2)) {
                            Some((b, q3)) => (b, q3),
                            None => (Tree::Absent, rest.1),
                        },
                        None => (Tree::Absent, rest.1),
                    };
                    Some((node(Shape::If, seq![list(seq![first] + rest.0), other]), q3))
                } else {
                    None
                }
            },
            None => None,
        },
        None => None,
    }
}

/// `catch (param) block`.
pub open spec fn g_catch(s: Seq<char>, p: int) -> Option<(Tree, int)>
    decreases s.len() - p, 1int,
{
    match kw(s, p, "catch"@) {
        Some(q) => match ch(s, q, '(') {
            Some(q1) => match pass(s, q1, g_param(s, q1)) {
                Some((prm, q2)) => match ch(s, q2, ')') {
                    Some(q3) => match pass(s, q3, g_block(s, q3)) {
                        Some((b, q4)) => Some((node(Shape::Catch, seq![prm, b]), q4)),
                        None => None,
                    },
                    None => None,
                },
                None => None,
            },
            None => None,
        },
        None => None,
    }
}

/// `try block`, any `catch` clauses, and an optional `finally block`.
pub open spec fn g_try(s: Seq<char>, p: int) -> Option<(Tree, int)>
    decreases s.len() - p, 1int,
{
    match kw(s, p, "try"@) {
        Some(q) => match pass(s, q, g_block(s, q)) {
            Some((b, q1)) => match list_part(s, q1, g_catches(s, q1)) {
                Some((cs, q2)) => {
                    let (fin, q4) = match kw(s, q2, "finally"@) {
                        Some(q3) => match pass(s, q3, g_block(s, q3)) {
                            Some((b, q4)) => (b, q4),
                            None => (Tree::Absent, q2),
                        },
                        None => (Tree::Absent, q2),
                    };
                    Some((node(Shape::Try, seq![b, cs, fin]), q4))
                },
                None => None,
            },
            None => None,
        },
        None => None,
    }
}

/// `else -> body` or `a, b -> body`, then any `;`.
pub open spec fn g_when_entry(s: Seq<char>, p: int) -> Option<(Tree, int)>
    decreases s.len() - p, 9int,
{
    let guards = match kw(s, p, "else"@) {
        Some(q) => Some((list(Seq::empty()), q)),
        None => {
            let r = g_guards(s, p);
            if r.0.len() > 0 && within(s, p, r.1) {
                Some((list(r.0), r.1))
            } else {
                None
            }
        },
    };
    match guards {
        Some((g, q)) => match sym2(s, q, '-', '>') {
            Some(q1) => match pass(s, q1, g_body(s, q1)) {
                Some((b, q2)) => Some((node(Shape::WhenEntry, seq![g, b]), semis(s, q2))),
                None => None,
            },
            None => None,
        },
        None => None,
    }
}

/// `when (subject) { entries }`, the subject optional.
pub open spec fn g_when(s: Seq<char>, p: int) -> Option<(Tree, int)>
    decreases s.len() - p, 1int,
{
    match kw(s, p, "when"@) {
        Some(q) => {
            let (subject, q1) = opt_part(s, q, g_condition(s, q));
            match ch(s, q1, '{') {
                Some(q2) => match list_part(s, q2, g_when_entries(s, q2)) {
                    Some((es, q3)) => match ch(s, q3, '}') {
                        Some(q4) => Some((node(Shape::When, seq![subject, es]), q4)),
                        None => None,
                    },
                    None => None,
                },
                None => None,
            }
        },
        None => None,
    }
}

/// `while (condition) body`.
pub open spec fn g_while(s: Seq<char>, p: int) -> Option<(Tree, int)>
    decreases s.len() - p, 1int,
{
    match kw(s, p, "while"@) {
        Some(q) => match pass(s, q, g_condition(s, q)) {
            Some((c, q1)) => match pass(s, q1, g_body(s, q1)) {
                Some((b, q2)) => Some((node(Shape::While, seq![c, b, Tree::Flag(false)]), q2)),
                None => None,
            },
            None => None,
        },
        None => None,
    }
}

/// `do block while (condition)`.
pub open spec fn g_do_while(s: Seq<char>, p: int) -> Option<(Tree, int)>
    decreases s.len() - p, 1int,
{
    match kw(s, p, "do"@) {
        Some(q) => match pass(s, q, g_block(s, q)) {
            Some((b, q1)) => match kw(s, q1, "while"@) {
                Some(q2) => match pass(s, q2, g_condition(s, q2)) {
                    Some((c, q3)) => Some((node(Shape::While, seq![c, b, Tree::Flag(true)]), q3)),
                    None => None,
                },
                None => None,
            },
            None => None,
        },
        None => None,
    }
}

/// An expression between `open` and `close`.
pub open spec fn g_enclosed(s: Seq<char>, p: int, open: char, close: char, shape: Shape) -> Option<
    (Tree, int),
>
    decreases s.len() - p, 1int,
{
    match ch(s, p, open) {
        Some(q) => match pass(s, q, g_expression(s, q)) {
            Some((e, q1)) => match ch(s, q1, close) {
                Some(q2) => Some((node(shape, seq![e]), q2)),
                None => None,
            },
            None => None,
        },
        None => None,
    }
}

/// `@A object : Super { declarations }`: annotations, supertypes and body
/// optional.
pub open spec fn g_object(s: Seq<char>, p: int) -> Option<(Tree, int)>
    decreases s.len() - p, 3int,
{
    match list_part(s, p, g_annotation_sets(s, p)) {
        Some((anns, q)) => match kw(s, q, "object"@) {
            Some(q1) => {
                let (sup, q2) = match pass(s, q1, g_supertypes(s, q1)) {
                    Some((t, q2)) => (t, q2),
                    None => (list(Seq::empty()), q1),
                };
                let (body, q3) = match pass(s, q2, g_decl_body(s, q2)) {
                    Some((t, q3)) => (t, q3),
                    None => (list(Seq::empty()), q2),
                };
                Some((node(Shape::Object, seq![anns, sup, body]), q3))
            },
            None => None,
        },
        None => None,
    }
}

/// `vars ->` at the start of a lambda.
pub open spec fn g_lambda_params(s: Seq<char>, p: int) -> Option<(Tree, int)> {
    match pass(s, p, g_vars(s, p)) {
        Some((v, q)) => match sym2(s, q, '-', '>') {
            Some(q1) => Some((v, q1)),
            None => None,
        },
        None => None,
    }
}

/// `label@{ params -> statements }`, label and parameters optional.
pub open spec fn g_lambda(s: Seq<char>, p: int) -> Option<(Tree, int)>
    decreases s.len() - p, 1int,
{
    let (label, p1) = match tok_ident(s, p) {
        Some((l, e)) => if at(s, e, '@') {
            (Tree::Text(l), e + 1)
        } else {
            (Tree::Absent, p)
        },
        None => (Tree::Absent, p),
    };
    match ch(s, p1, '{') {
        Some(p2) => {
            let (params, p3) = opt_part(s, p2, g_lambda_params(s, p2));
            let body = g_stmts(s, p3);
            if within(s, p3, body.1) {
                match ch(s, body.1, '}') {
                    Some(p5) => Some(
                        (node(Shape::Lambda, seq![label, params, node(Shape::Block, body.0)]), p5),
                    ),
                    None => None,
                }
            } else {
                None
            }
        },
        None => None,
    }
}

/// `label@ operand`.
pub open spec fn g_labeled(s: Seq<char>, p: int) -> Option<(Tree, int)>
    decreases s.len() - p, 1int,
{
    match tok_ident(s, p) {
        Some((l, e)) => if at(s, e, '@') {
            match pass(s, e + 1, g_operand(s, e + 1)) {
                Some((x, q)) => Some((node(Shape::Labeled, seq![Tree::Text(l), x]), q)),
                None => None,
            }
        } else {
            None
        },
        None => None,
    }
}

/// `super<Type>@label`, both parts optional.
pub open spec fn g_super(s: Seq<char>, p: int) -> Option<(Tree, int)> {
    match kw(s, p, "super"@) {
        Some(q) => {
            let (t, q3) = match ch(s, q, '<') {
                Some(q1) => match pass(s, q1, g_type(s, q1)) {
                    Some((t, q2)) => match ch(s, q2, '>') {
                        Some(q3) => (t, q3),
                        None => (Tree::Absent, q),
                    },
                    None => (Tree::Absent, q),
                },
                None => (Tree::Absent, q),
            };
            let (l, q4) = label_part(s, q3);
            Some((node(Shape::Super, seq![l, t]), q4))
        },
        None => None,
    }
}

/// A path, then type arguments, call arguments and a trailing lambda, each
/// optional. A bare path is a reference.
pub open spec fn g_call(s: Seq<char>, p: int) -> Option<(Tree, int)>
    decreases s.len() - p, 1int,
{
    match pass(s, p + 1, g_path(s, p)) {
        Some((path, q)) => {
            let ta = pass(s, q, g_type_args(s, q));
            let (targs, q1) = match ta {
                Some((t, q1)) => (t, q1),
                None => (list(Seq::empty()), q),
            };
            let ca = pass(s, q1, g_call_arg_list(s, q1));
            let (args, q2) = match ca {
                Some((t, q2)) => (t, q2),
                None => (list(Seq::empty()), q1),
            };
            let la = pass(s, q2, g_lambda(s, q2));
            let (lam, q3) = match la {
                Some((t, q3)) => (t, q3),
                None => (Tree::Absent, q2),
            };
            if ta is None && ca is None && la is None {
                Some((node(Shape::Reference, seq![path]), q))
            } else {
                Some((node(Shape::Call, seq![path, args, targs, lam]), q3))
            }
        },
        None => None,
    }
}

/// `{ statements }`.
pub open spec fn g_block(s: Seq<char>, p: int) -> Option<(Tree, int)>
    decreases s.len() - p, 1int,
{
    match ch(s, p, '{') {
        Some(q) => {
            let body = g_stmts(s, q);
            if within(s, q, body.1) {
                match ch(s, body.1, '}') {
                    Some(q2) => Some((node(Shape::Block, body.0), q2)),
                    None => None,
                }
            } else {
                None
            }
        },
        None => None,
    }
}

/// A statement: a local declaration if one stands here, else an
/// expression; then any `;`.
pub open spec fn g_statement(s: Seq<char>, p: int) -> Option<(Tree, int)>
    decreases s.len() - p, 8int,
{
    let r = if g_local_decl(s, p) is Some {
        pass(s, p, g_local_decl(s, p))
    } else {
        pass(s, p, g_expression(s, p))
    };
    match r {
        Some((t, q)) => Some((t, semis(s, q))),
        None => None,
    }
}

/// The body of a loop or branch: a block, or one statement.
pub open spec fn g_body(s: Seq<char>, p: int) -> Option<(Tree, int)>
    decreases s.len() - p, 9int,
{
    if g_block(s, p) is Some {
        g_block(s, p)
    } else {
        match pass(s, p, g_statement(s, p)) {
            Some((t, q)) => Some((node(Shape::Block, seq![t]), q)),
            None => None,
        }
    }
}

/// The body of a function or accessor: `= expression` or a block.
pub open spec fn g_fun_body(s: Seq<char>, p: int) -> Option<(Tree, int)>
    decreases s.len() - p, 2int,
{
    match ch(s, p, '=') {
        Some(q) => match pass(s, q, g_expression(s, q)) {
            Some((e, q1)) => Some((node(Shape::Block, seq![e]), q1)),
            None => None,
        },
        None => g_block(s, p),
    }
}

pub open spec fn g_else_ifs(s: Seq<char>, p: int) -> (Seq<Tree>, int)
    decreases s.len() - p, 2int,
{
    match g_else_if(s, p) {
        Some((t, q)) => if within(s, p + 1, q) {
            let rest = g_else_ifs(s, q);
            (seq![t] + rest.0, rest.1)
        } else {
            (Seq::empty(), p)
        },
        None => (Seq::empty(), p),
    }
}

pub fn parse_else_ifs(s: &Vec<char>, p: usize, f: &mut Failure) -> (r: (Vec<IfBranch>, usize))
    requires
        p <= s@.len(),
    ensures
        p <= r.1 <= s@.len(),
        g_else_ifs(s@, p as int) == (trees_if_branches(r.0@), r.1 as int),
        kept(*old(f), *final(f), s@),
    decreases s@.len() - p, 2int,
{
    let mut v: Vec<IfBranch> = Vec::new();
    let mut cur = p;
    assert(trees_if_branches(v@) + g_else_ifs(s@, p as int).0 =~= g_else_ifs(s@, p as int).0);
    loop
        invariant
            p <= cur <= s@.len(),
            g_else_ifs(s@, p as int) == (trees_if_branches(v@) + g_else_ifs(s@, cur as int).0, g_else_ifs(s@, cur as int).1),
            kept(*old(f), *f, s@),
        ensures
            p <= cur <= s@.len(),
            g_else_ifs(s@, p as int) == (trees_if_branches(v@), cur as int),
        decreases s@.len() - cur,
    {
        match parse_else_if(s, cur, f) {
            Some((x, q)) => {
                if q <= cur {
                    assert(trees_if_branches(v@) + Seq::<Tree>::empty() =~= trees_if_branches(v@));
                    break;
                }
                let ghost old_v = v@;
                let ghost rest = g_else_ifs(s@, q as int);
                v.push(x);
                assert(trees_if_branches(v@) + rest.0 =~= trees_if_branches(old_v) + (seq![x.tree()] + rest.0));
                cur = q;
            },
            None => {
                assert(trees_if_branches(v@) + Seq::<Tree>::empty() =~= trees_if_branches(v@));
                break;
            },
        }
    }
    (v, cur)
}

pub open spec fn g_catches(s: Seq<char>, p: int) -> (Seq<Tree>, int)
    decreases s.len() - p, 2int,
{
    match g_catch(s, p) {
        Some((t, q)) => if within(s, p + 1, q) {
            let rest = g_catches(s, q);
            (seq![t] + rest.0, rest.1)
        } else {
            (Seq::empty(), p)
        },
        None => (Seq::empty(), p),
    }
}

pub fn parse_catches(s: &Vec<char>, p: usize, f: &mut Failure) -> (r: (Vec<CatchExpression>, usize))
    requires
        p <= s@.len(),
    ensures
        p <= r.1 <= s@.len(),
        g_catches(s@, p as int) == (trees_catches(r.0@), r.1 as int),
        kept(*old(f), *final(f), s@),
    decreases s@.len() - p, 2int,
{
    let mut v: Vec<CatchExpression> = Vec::new();
    let mut cur = p;
    assert(trees_catches(v@) + g_catches(s@, p as int).0 =~= g_catches(s@, p as int).0);
    loop
        invariant
            p <= cur <= s@.len(),
            g_catches(s@, p as int) == (trees_catches(v@) + g_catches(s@, cur as int).0, g_catches(s@, cur as int).1),
            kept(*old(f), *f, s@),
        ensures
            p <= cur <= s@.len(),
            g_catches(s@, p as int) == (trees_catches(v@), cur as int),
        decreases s@.len() - cur,
    {
        match parse_catch(s, cur, f) {
            Some((x, q)) => {
                if q <= cur {
                    assert(trees_catches(v@) + Seq::<Tree>::empty() =~= trees_catches(v@));
                    break;
                }
                let ghost old_v = v@;
                let ghost rest = g_catches(s@, q as int);
                v.push(x);
                assert(trees_catches(v@) + rest.0 =~= trees_catches(old_v) + (seq![x.tree()] + rest.0));
                cur = q;
            },
            None => {
                assert(trees_catches(v@) + Seq::<Tree>::empty() =~= trees_catches(v@));
                break;
            },
        }
    }
    (v, cur)
}

pub open spec fn g_guards(s: Seq<char>, p: int) -> (Seq<Tree>, int)
    decreases s.len() - p, 8int,
{
    match g_expression(s, p) {
        Some((t, q)) => if within(s, p, q) {
            let rest = g_guards_more(s, q);
            (seq![t] + rest.0, rest.1)
        } else {
            (Seq::empty(), p)
        },
        None => (Seq::empty(), p),
    }
}

pub open spec fn g_guards_more(s: Seq<char>, p: int) -> (Seq<Tree>, int)
    decreases s.len() - p, 0int,
{
    match ch(s, p, ',') {
        Some(p1) => match g_expression(s, p1) {
            Some((t, q)) => if within(s, p1, q) {
                let rest = g_guards_more(s, q);
                (seq![t] + rest.0, rest.1)
            } else {
                (Seq::empty(), p)
            },
            None => (Seq::empty(), p),
        },
        None => (Seq::empty(), p),
    }
}

pub fn parse_guards(s: &Vec<char>, p: usize, f: &mut Failure) -> (r: (Vec<Expression>, usize))
    requires
        p <= s@.len(),
    ensures
        p <= r.1 <= s@.len(),
        g_guards(s@, p as int) == (trees_exprs(r.0@), r.1 as int),
        kept(*old(f), *final(f), s@),
    decreases s@.len() - p, 8int,
{
    let mut v: Vec<Expression> = Vec::new();
    let mut cur = p;
    match parse_expression(s, p, f) {
        None => return (v, p),
        Some((x, q)) => {
            v.push(x);
            cur = q;
            assert(trees_exprs(v@) =~= seq![x.tree()]);
        },
    }
    loop
        invariant
            p <= cur <= s@.len(),
            g_guards(s@, p as int) == (trees_exprs(v@) + g_guards_more(s@, cur as int).0, g_guards_more(s@, cur as int).1),
            kept(*old(f), *f, s@),
        ensures
            p <= cur <= s@.len(),
            g_guards(s@, p as int) == (trees_exprs(v@), cur as int),
        decreases s@.len() - cur,
    {
        match char_token(s, cur, ',', f) {
            None => {
                assert(trees_exprs(v@) + Seq::<Tree>::empty() =~= trees_exprs(v@));
                break;
            },
            Some(c1) => match parse_expression(s, c1, f) {
                None => {
                    assert(trees_exprs(v@) + Seq::<Tree>::empty() =~= trees_exprs(v@));
                    break;
                },
                Some((x, q)) => {
                    let ghost old_v = v@;
                    let ghost rest = g_guards_more(s@, q as int);
                    v.push(x);
                    assert(trees_exprs(v@) + rest.0 =~= trees_exprs(old_v) + (seq![x.tree()] + rest.0));
                    cur = q;
                },
            },
        }
    }
    (v, cur)
}

pub open spec fn g_when_entries(s: Seq<char>, p: int) -> (Seq<Tree>, int)
    decreases s.len() - p, 10int,
{
    match g_when_entry(s, p) {
        Some((t, q)) => if within(s, p + 1, q) {
            let rest = g_when_entries(s, q);
            (seq![t] + rest.0, rest.1)
        } else {
            (Seq::empty(), p)
        },
        None => (Seq::empty(), p),
    }
}

pub fn parse_when_entries(s: &Vec<char>, p: usize, f: &mut Failure) -> (r: (Vec<WhenEntry>, usize))
    requires
        p <= s@.len(),
    ensures
        p <= r.1 <= s@.len(),
        g_when_entries(s@, p as int) == (trees_when_entries(r.0@), r.1 as int),
        kept(*old(f), *final(f), s@),
    decreases s@.len() - p, 10int,
{
    let mut v: Vec<WhenEntry> = Vec::new();
    let mut cur = p;
    assert(trees_when_entries(v@) + g_when_entries(s@, p as int).0 =~= g_when_entries(s@, p as int).0);
    loop
        invariant
            p <= cur <= s@.len(),
            g_when_entries(s@, p as int) == (trees_when_entries(v@) + g_when_entries(s@, cur as int).0, g_when_entries(s@, cur as int).1),
            kept(*old(f), *f, s@),
        ensures
            p <= cur <= s@.len(),
            g_when_entries(s@, p as int) == (trees_when_entries(v@), cur as int),
        decreases s@.len() - cur,
    {
        match parse_when_entry(s, cur, f) {
            Some((x, q)) => {
                if q <= cur {
                    assert(trees_when_entries(v@) + Seq::<Tree>::empty() =~= trees_when_entries(v@));
                    break;
                }
                let ghost old_v = v@;
                let ghost rest = g_when_entries(s@, q as int);
                v.push(x);
                assert(trees_when_entries(v@) + rest.0 =~= trees_when_entries(old_v) + (seq![x.tree()] + rest.0));
                cur = q;
            },
            None => {
                assert(trees_when_entries(v@) + Seq::<Tree>::empty() =~= trees_when_entries(v@));
                break;
            },
        }
    }
    (v, cur)
}

pub open spec fn g_stmts(s: Seq<char>, p: int) -> (Seq<Tree>, int)
    decreases s.len() - p, 9int,
{
    match g_statement(s, p) {
        Some((t, q)) => if within(s, p + 1, q) {
            let rest = g_stmts(s, q);
            (seq![t] + rest.0, rest.1)
        } else {
            (Seq::empty(), p)
        },
        None => (Seq::empty(), p),
    }
}

pub fn parse_stmts(s: &Vec<char>, p: usize, f: &mut Failure) -> (r: (Vec<Statement>, usize))
    requires
        p <= s@.len(),
    ensures
        p <= r.1 <= s@.len(),
        g_stmts(s@, p as int) == (trees_stmts(r.0@), r.1 as int),
        kept(*old(f), *final(f), s@),
    decreases s@.len() - p, 9int,
{
    let mut v: Vec<Statement> = Vec::new();
    let mut cur = p;
    assert(trees_stmts(v@) + g_stmts(s@, p as int).0 =~= g_stmts(s@, p as int).0);
    loop
        invariant
            p <= cur <= s@.len(),
            g_stmts(s@, p as int) == (trees_stmts(v@) + g_stmts(s@, cur as int).0, g_stmts(s@, cur as int).1),
            kept(*old(f), *f, s@),
        ensures
            p <= cur <= s@.len(),
            g_stmts(s@, p as int) == (trees_stmts(v@), cur as int),
        decreases s@.len() - cur,
    {
        match parse_statement(s, cur, f) {
            Some((x, q)) => {
                if q <= cur {
                    assert(trees_stmts(v@) + Seq::<Tree>::empty() =~= trees_stmts(v@));
                    break;
                }
                let ghost old_v = v@;
                let ghost rest = g_stmts(s@, q as int);
                v.push(x);
                assert(trees_stmts(v@) + rest.0 =~= trees_stmts(old_v) + (seq![x.tree()] + rest.0));
                cur = q;
            },
            None => {
                assert(trees_stmts(v@) + Seq::<Tree>::empty() =~= trees_stmts(v@));
                break;
            },
        }
    }
    (v, cur)
}

fn parse_label(s: &Vec<char>, p: usize) -> (r: (Option<String>, usize))
    requires
        p <= s@.len(),
    ensures
        label_part(s@, p as int) == (
            match r.0 {
                Some(n) => Tree::Text(n@),
                None => Tree::Absent,
            },
            r.1 as int,
        ),
        p <= r.1 <= s@.len(),
{
    match label_token(s, p) {
        Some((n, e)) => (Some(n), e),
        None => (None, p),
    }
}

fn is_infix_word(w: &String) -> (r: bool)
    ensures
        r == infix_word(w@),
{
    let t = w.as_str();
    same_text(t, "and") || same_text(t, "or") || same_text(t, "xor") || same_text(t, "shl")
        || same_text(t, "shr") || same_text(t, "ushr") || same_text(t, "until") || same_text(
        t,
        "downTo",
    ) || same_text(t, "step") || same_text(t, "to")
}

fn operator(o: BinaryOp, e: usize) -> (r: Option<(BinaryOperator, usize)>)
    ensures
        r == Some((BinaryOperator::Operator(o), e)),
{
    Some((BinaryOperator::Operator(o), e))
}

pub fn parse_binop(s: &Vec<char>, p: usize, f: &mut Failure) -> (r: Option<(BinaryOperator, usize)>)
    requires
        p <= s@.len(),
    ensures
        match r {
            Some((o, e)) => p < e <= s@.len() && g_binop(s@, p as int) == Some(
                (operator_tree(o), e as int),
            ),
            None => g_binop(s@, p as int) is None,
        },
        kept(*old(f), *final(f), s@),
{
    if let Some(e) = symbol3(s, p, '=', '=', '=', f) {
        return operator(BinaryOp::ReferenceEqual, e);
    }
    if let Some(e) = symbol3(s, p, '!', '=', '=', f) {
        return operator(BinaryOp::ReferenceNotEqual, e);
    }
    if let Some(e) = symbol2(s, p, '=', '=', f) {
        return operator(BinaryOp::Equal, e);
    }
    if let Some(e) = symbol2(s, p, '!', '=', f) {
        return operator(BinaryOp::NotEqual, e);
    }
    if let Some(e) = symbol2(s, p, '<', '=', f) {
        return operator(BinaryOp::LessThanOrEqual, e);
    }
    if let Some(e) = symbol2(s, p, '>', '=', f) {
        return operator(BinaryOp::GreaterThanOrEqual, e);
    }
    if let Some(e) = symbol2(s, p, '&', '&', f) {
        return operator(BinaryOp::And, e);
    }
    if let Some(e) = symbol2(s, p, '|', '|', f) {
        return operator(BinaryOp::Or, e);
    }
    if let Some(e) = symbol2(s, p, '+', '=', f) {
        return operator(BinaryOp::AddAssign, e);
    }
    if let Some(e) = symbol2(s, p, '-', '=', f) {
        return operator(BinaryOp::SubtractAssign, e);
    }
    if let Some(e) = symbol2(s, p, '*', '=', f) {
        return operator(BinaryOp::MultiplyAssign, e);
    }
    if let Some(e) = symbol2(s, p, '/', '=', f) {
        return operator(BinaryOp::DivideAssign, e);
    }
    if let Some(e) = symbol2(s, p, '%', '=', f) {
        return operator(BinaryOp::ModuloAssign, e);
    }
    if let Some(e) = symbol3(s, p, '.', '.', '<', f) {
        return operator(BinaryOp::RangeUntil, e);
    }
    if let Some(e) = symbol2(s, p, '.', '.', f) {
        return operator(BinaryOp::RangeTo, e);
    }
    if let Some(e) = symbol2(s, p, '?', ':', f) {
        return operator(BinaryOp::Elvis, e);
    }
    if let Some(e) = symbol2(s, p, '?', '.', f) {
        return operator(BinaryOp::DotSafe, e);
    }
    if let Some(q) = char_token(s, p, '!', f) {
        if let Some(e) = keyword(s, q, "in", f) {
            return operator(BinaryOp::NotIn, e);
        }
        if let Some(e) = keyword(s, q, "is", f) {
            return operator(BinaryOp::IsNot, e);
        }
    }
    if let Some(e) = keyword(s, p, "as", f) {
        if at_char(s, e, '?') {
            return operator(BinaryOp::AsNullable, e + 1);
        }
        return operator(BinaryOp::As, e);
    }
    if let Some(e) = keyword(s, p, "in", f) {
        return operator(BinaryOp::In, e);
    }
    if let Some(e) = keyword(s, p, "is", f) {
        return operator(BinaryOp::Is, e);
    }
    if let Some(e) = char_token(s, p, '.', f) {
        return operator(BinaryOp::Dot, e);
    }
    if let Some(e) = char_token(s, p, '<', f) {
        return operator(BinaryOp::LessThan, e);
    }
    if let Some(e) = char_token(s, p, '>', f) {
        return operator(BinaryOp::GreaterThan, e);
    }
    if let Some(e) = char_token(s, p, '=', f) {
        return operator(BinaryOp::Assign, e);
    }
    if let Some(e) = char_token(s, p, '+', f) {
        return operator(BinaryOp::Add, e);
    }
    if let Some(e) = char_token(s, p, '-', f) {
        return operator(BinaryOp::Subtract, e);
    }
    if let Some(e) = char_token(s, p, '*', f) {
        return operator(BinaryOp::Multiply, e);
    }
    if let Some(e) = char_token(s, p, '/', f) {
        return operator(BinaryOp::Divide, e);
    }
    if let Some(e) = char_token(s, p, '%', f) {
        return operator(BinaryOp::Modulo, e);
    }
    match ident_token(s, p, f) {
        Some((w, e)) => if is_infix_word(&w) {
            Some((BinaryOperator::Infix(w), e))
        } else {
            None
        },
        None => None,
    }
}

pub fn parse_prefix(s: &Vec<char>, p: usize, f: &mut Failure) -> (r: Option<(UnaryOperator, usize)>)
    requires
        p <= s@.len(),
    ensures
        match r {
            Some((o, e)) => p < e <= s@.len() && g_prefix(s@, p as int) == Some((o, e as int)),
            None => g_prefix(s@, p as int) is None,
        },
        kept(*old(f), *final(f), s@),
{
    if let Some(e) = symbol2(s, p, '+', '+', f) {
        return Some((UnaryOperator::Increment, e));
    }
    if let Some(e) = symbol2(s, p, '-', '-', f) {
        return Some((UnaryOperator::Decrement, e));
    }
    if let Some(e) = char_token(s, p, '!', f) {
        return Some((UnaryOperator::Not, e));
    }
    if let Some(e) = char_token(s, p, '+', f) {
        return Some((UnaryOperator::Plus, e));
    }
    if let Some(e) = char_token(s, p, '-', f) {
        return Some((UnaryOperator::Minus, e));
    }
    None
}

fn postfix_at(s: &Vec<char>, p: usize) -> (r: Option<(UnaryOperator, usize)>)
    requires
        p <= s@.len(),
    ensures
        match r {
            Some((o, e)) => p < e <= s@.len() && g_postfix_op(s@, p as int) == Some((o, e as int)),
            None => g_postfix_op(s@, p as int) is None,
        },
{
    if p < s.len() && s.len() - p >= 2 {
        if s[p] == '+' && s[p + 1] == '+' {
            return Some((UnaryOperator::Increment, p + 2));
        }
        if s[p] == '-' && s[p + 1] == '-' {
            return Some((UnaryOperator::Decrement, p + 2));
        }
        if s[p] == '!' && s[p + 1] == '!' {
            return Some((UnaryOperator::NullDeref, p + 2));
        }
    }
    None
}

fn member_suffix(s: &Vec<char>, p: usize) -> (r: Option<(String, usize)>)
    requires
        p <= s@.len(),
    ensures
        match r {
            Some((n, e)) => p < e <= s@.len() && g_member_suffix(s@, p as int) == Some((n@, e as int)),
            None => g_member_suffix(s@, p as int) is None,
        },
{
    if p < s.len() && s.len() - p >= 3 && s[p] == ':' && s[p + 1] == ':' && is_ident_start_char(
        s[p + 2],
    ) {
        let e = ident_run(s, p + 2);
        Some((slice_text(s, p + 2, e), e))
    } else {
        None
    }
}

/// The reference to `name`.
fn name_expr(name: String) -> (r: Expression)
    ensures
        r.tree() == name_ref(name@),
{
    reveal(Expression::tree);
    let ghost t = Tree::Text(name@);
    let mut path: Vec<String> = Vec::new();
    path.push(name);
    assert(trees_texts(path@) =~= seq![t]);
    Expression::Reference(ReferenceExpression { path })
}

pub fn parse_unbound_member(s: &Vec<char>, p: usize) -> (r: Option<(Expression, usize)>)
    requires
        p <= s@.len(),
    ensures
        agrees(r, g_unbound_member(s@, p as int), p as int, s@.len() as int),
{
    reveal(Expression::tree);
    reveal_with_fuel(opt_boxed_expr, 1);
    let q = skip(s, p);
    match member_suffix(s, q) {
        Some((name, e)) => {
            let rhs = name_expr(name);
            let ghost rt = rhs.tree();
            let x = Expression::MemberReference(MemberReferenceExpression { lhs: None, rhs: Box::new(rhs) });
            assert(opt_boxed_expr(None) == Tree::Absent);
            assert(x.tree() == node(Shape::MemberReference, seq![opt_boxed_expr(None), rt]));
            Some((x, e))
        },
        None => None,
    }
}

pub fn parse_expression(s: &Vec<char>, p: usize, f: &mut Failure) -> (r: Option<(Expression, usize)>)
    requires
        p <= s@.len(),
    ensures
        agrees(r, g_expression(s@, p as int), p as int, s@.len() as int),
        kept(*old(f), *final(f), s@),
    decreases s@.len() - p, 7int,
{
    reveal(Expression::tree);
    reveal_with_fuel(opt_boxed_expr, 1);
    reveal_with_fuel(opt_block, 1);
    reveal_with_fuel(opt_lambda, 1);
    let (first, q) = match parse_operand(s, p, f) {
        Some(x) => x,
        None => return None,
    };
    let ghost q0 = q as int;
    let ghost t0 = first.tree();
    let mut acc = first;
    let mut cur = q;
    loop
        invariant
            p <= q0 <= cur <= s@.len(),
            g_expression(s@, p as int) == Some(g_binary_tail(s@, q0, t0)),
            g_binary_tail(s@, q0, t0) == g_binary_tail(s@, cur as int, acc.tree()),
            kept(*old(f), *f, s@),
        ensures
            p <= cur <= s@.len(),
            g_expression(s@, p as int) == Some((acc.tree(), cur as int)),
        decreases s@.len() - cur,
    {
        reveal(Expression::tree);
        reveal_with_fuel(opt_boxed_expr, 1);
        reveal_with_fuel(opt_block, 1);
        reveal_with_fuel(opt_lambda, 1);
        let (o, q1) = match parse_binop(s, cur, f) {
            Some(x) => x,
            None => break,
        };
        match parse_operand(s, q1, f) {
            Some((rhs, q2)) => {
                acc = Expression::BinaryOp(
                    BinaryOperation { lhs: Box::new(acc), op: o, rhs: Box::new(rhs) },
                );
                cur = q2;
            },
            None => break,
        }
    }
    Some((acc, cur))
}

#[verifier::spinoff_prover]
#[verifier::rlimit(100)]
pub fn parse_operand(s: &Vec<char>, p: usize, f: &mut Failure) -> (r: Option<(Expression, usize)>)
    requires
        p <= s@.len(),
    ensures
        agrees(r, g_operand(s@, p as int), p as int, s@.len() as int),
        kept(*old(f), *final(f), s@),
    decreases s@.len() - p, 6int,
{
    reveal(Expression::tree);
    reveal_with_fuel(opt_boxed_expr, 1);
    reveal_with_fuel(opt_block, 1);
    reveal_with_fuel(opt_lambda, 1);
    if let Some((o, q)) = parse_prefix(s, p, f) {
        return match parse_operand(s, q, f) {
            Some((e, q2)) => Some(
                (Expression::UnaryOp(UnaryOperation { op: o, expr: Box::new(e), is_prefix: true }), q2),
            ),
            None => None,
        };
    }
    let (first, q) = match parse_primary(s, p, f) {
        Some(x) => x,
        None => return None,
    };
    let ghost t0 = first.tree();
    let mut acc = first;
    let mut cur = q;
    loop
        invariant
            p <= q <= cur <= s@.len(),
            g_operand(s@, p as int) == Some(g_postfix(s@, q as int, t0)),
            g_postfix(s@, q as int, t0) == g_postfix(s@, cur as int, acc.tree()),
        ensures
            p <= cur <= s@.len(),
            g_operand(s@, p as int) == Some((acc.tree(), cur as int)),
        decreases s@.len() - cur,
    {
        reveal(Expression::tree);
        reveal_with_fuel(opt_boxed_expr, 1);
        reveal_with_fuel(opt_block, 1);
        reveal_with_fuel(opt_lambda, 1);
        match postfix_at(s, cur) {
            Some((o, e)) => {
                acc = Expression::UnaryOp(UnaryOperation { op: o, expr: Box::new(acc), is_prefix: false });
                cur = e;
            },
            None => match member_suffix(s, cur) {
                Some((name, e)) => {
                    let rhs = name_expr(name);
                    let ghost rt = rhs.tree();
                    let ghost at = acc.tree();
                    let lhs = Some(Box::new(acc));
                    assert(opt_boxed_expr(lhs) == at);
                    acc = Expression::MemberReference(
                        MemberReferenceExpression { lhs, rhs: Box::new(rhs) },
                    );
                    assert(acc.tree() == node(Shape::MemberReference, seq![at, rt]));
                    cur = e;
                },
                None => break,
            },
        }
    }
    Some((acc, cur))
}

#[verifier::spinoff_prover]
#[verifier::rlimit(100)]
pub fn parse_primary(s: &Vec<char>, p: usize, f: &mut Failure) -> (r: Option<(Expression, usize)>)
    requires
        p <= s@.len(),
    ensures
        agrees(r, g_primary(s@, p as int), p as int, s@.len() as int),
        kept(*old(f), *final(f), s@),
    decreases s@.len() - p, 5int,
{
    reveal(Expression::tree);
    reveal_with_fuel(opt_boxed_expr, 1);
    reveal_with_fuel(opt_block, 1);
    reveal_with_fuel(opt_lambda, 1);
    let r = parse_break(s, p, f);
    if r.is_some() {
        return r;
    }
    let r = parse_continue(s, p, f);
    if r.is_some() {
        return r;
    }
    let r = parse_return(s, p, f);
    if r.is_some() {
        return r;
    }
    let r = parse_throw(s, p, f);
    if r.is_some() {
        return r;
    }
    let r = parse_for(s, p, f);
    if r.is_some() {
        return r;
    }
    let r = parse_if(s, p, f);
    if r.is_some() {
        return r;
    }
    let r = parse_try(s, p, f);
    if r.is_some() {
        return r;
    }
    let r = parse_when(s, p, f);
    if r.is_some() {
        return r;
    }
    let r = parse_while(s, p, f);
    if r.is_some() {
        return r;
    }
    let r = parse_do_while(s, p, f);
    if r.is_some() {
        return r;
    }
    let r = parse_bracket(s, p, f);
    if r.is_some() {
        return r;
    }
    let r = parse_parenthesized(s, p, f);
    if r.is_some() {
        return r;
    }
    let r = parse_object(s, p, f);
    if r.is_some() {
        return r;
    }
    match parse_lambda(s, p, f) {
        Some((l, e)) => return Some((Expression::Lambda(l), e)),
        None => {},
    }
    let r = parse_labeled(s, p, f);
    if r.is_some() {
        return r;
    }
    let r = parse_this(s, p, f);
    if r.is_some() {
        return r;
    }
    let r = parse_super(s, p, f);
    if r.is_some() {
        return r;
    }
    let r = parse_unbound_member(s, p);
    if r.is_some() {
        return r;
    }
    match literal_at(s, p, f) {
        Some((l, e)) => return Some((Expression::Literal(l), e)),
        None => {},
    }
    parse_call(s, p, f)
}

pub fn parse_break(s: &Vec<char>, p: usize, f: &mut Failure) -> (r: Option<(Expression, usize)>)
    requires
        p <= s@.len(),
    ensures
        agrees(r, g_jump(s@, p as int, "break"@, Shape::Break), p as int, s@.len() as int),
        kept(*old(f), *final(f), s@),
{
    reveal(Expression::tree);
    reveal_with_fuel(opt_boxed_expr, 1);
    reveal_with_fuel(opt_block, 1);
    reveal_with_fuel(opt_lambda, 1);
    match keyword(s, p, "break", f) {
        Some(q) => {
            let (label, q1) = parse_label(s, q);
            Some((Expression::Break(BreakExpression { label }), q1))
        },
        None => None,
    }
}

pub fn parse_continue(s: &Vec<char>, p: usize, f: &mut Failure) -> (r: Option<(Expression, usize)>)
    requires
        p <= s@.len(),
    ensures
        agrees(r, g_jump(s@, p as int, "continue"@, Shape::Continue), p as int, s@.len() as int),
        kept(*old(f), *final(f), s@),
{
    reveal(Expression::tree);
    reveal_with_fuel(opt_boxed_expr, 1);
    reveal_with_fuel(opt_block, 1);
    reveal_with_fuel(opt_lambda, 1);
    match keyword(s, p, "continue", f) {
        Some(q) => {
            let (label, q1) = parse_label(s, q);
            Some((Expression::Continue(ContinueExpression { label }), q1))
        },
        None => None,
    }
}

pub fn parse_this(s: &Vec<char>, p: usize, f: &mut Failure) -> (r: Option<(Expression, usize)>)
    requires
        p <= s@.len(),
    ensures
        agrees(r, g_jump(s@, p as int, "this"@, Shape::This), p as int, s@.len() as int),
        kept(*old(f), *final(f), s@),
{
    reveal(Expression::tree);
    reveal_with_fuel(opt_boxed_expr, 1);
    reveal_with_fuel(opt_block, 1);
    reveal_with_fuel(opt_lambda, 1);
    match keyword(s, p, "this", f) {
        Some(q) => {
            let (label, q1) = parse_label(s, q);
            Some((Expression::This(ThisExpression { label }), q1))
        },
        None => None,
    }
}

#[verifier::rlimit(40)]
#[verifier::spinoff_prover]
#[verifier::rlimit(100)]
pub fn parse_return(s: &Vec<char>, p: usize, f: &mut Failure) -> (r: Option<(Expression, usize)>)
    requires
        p <= s@.len(),
    ensures
        agrees(r, g_return(s@, p as int), p as int, s@.len() as int),
        kept(*old(f), *final(f), s@),
    decreases s@.len() - p, 1int,
{
    reveal(Expression::tree);
    reveal_with_fuel(opt_boxed_expr, 1);
    reveal_with_fuel(opt_block, 1);
    reveal_with_fuel(opt_lambda, 1);
    let q = match keyword(s, p, "return", f) {
        Some(q) => q,
        None => return None,
    };
    let (label, q1) = parse_label(s, q);
    let (expr, q2) = match parse_expression(s, q1, f) {
        Some((e, q2)) => (Some(Box::new(e)), q2),
        None => (None, q1),
    };
    let ghost kids = seq![opt_text(label), opt_boxed_expr(expr)];
    let x = Expression::Return(ReturnExpression { label, expr });
    assert(x.tree()->Node_1 =~= kids);
    Some((x, q2))
}

pub fn parse_throw(s: &Vec<char>, p: usize, f: &mut Failure) -> (r: Option<(Expression, usize)>)
    requires
        p <= s@.len(),
    ensures
        agrees(r, g_throw(s@, p as int), p as int, s@.len() as int),
        kept(*old(f), *final(f), s@),
    decreases s@.len() - p, 1int,
{
    reveal(Expression::tree);
    reveal_with_fuel(opt_boxed_expr, 1);
    reveal_with_fuel(opt_block, 1);
    reveal_with_fuel(opt_lambda, 1);
    let q = match keyword(s, p, "throw", f) {
        Some(q) => q,
        None => return None,
    };
    match parse_expression(s, q, f) {
        Some((e, q1)) => Some((Expression::Throw(ThrowExpression { expr: Box::new(e) }), q1)),
        None => None,
    }
}

pub fn parse_condition(s: &Vec<char>, p: usize, f: &mut Failure) -> (r: Option<(Expression, usize)>)
    requires
        p <= s@.len(),
    ensures
        agrees(r, g_condition(s@, p as int), p + 1, s@.len() as int),
        kept(*old(f), *final(f), s@),
    decreases s@.len() - p, 0int,
{
    let q = match char_token(s, p, '(', f) {
        Some(q) => q,
        None => return None,
    };
    match parse_expression(s, q, f) {
        Some((e, q1)) => match char_token(s, q1, ')', f) {
            Some(q2) => Some((e, q2)),
            None => None,
        },
        None => None,
    }
}

#[verifier::spinoff_prover]
#[verifier::rlimit(100)]
pub fn parse_for(s: &Vec<char>, p: usize, f: &mut Failure) -> (r: Option<(Expression, usize)>)
    requires
        p <= s@.len(),
    ensures
        agrees(r, g_for(s@, p as int), p as int, s@.len() as int),
        kept(*old(f), *final(f), s@),
    decreases s@.len() - p, 1int,
{
    reveal(Expression::tree);
    reveal_with_fuel(opt_boxed_expr, 1);
    reveal_with_fuel(opt_block, 1);
    reveal_with_fuel(opt_lambda, 1);
    let q = match keyword(s, p, "for", f) {
        Some(q) => q,
        None => return None,
    };
    let q1 = match char_token(s, q, '(', f) {
        Some(q1) => q1,
        None => return None,
    };
    let (vars, q2) = match parse_vars(s, q1, f) {
        Some(x) => x,
        None => return None,
    };
    let q3 = match keyword(s, q2, "in", f) {
        Some(q3) => q3,
        None => return None,
    };
    let (iterable, q4) = match parse_expression(s, q3, f) {
        Some(x) => x,
        None => return None,
    };
    let q5 = match char_token(s, q4, ')', f) {
        Some(q5) => q5,
        None => return None,
    };
    match parse_body(s, q5, f) {
        Some((body, q6)) => Some(
            (Expression::For(ForExpression { vars, iterable: Box::new(iterable), body }), q6),
        ),
        None => None,
    }
}

#[verifier::spinoff_prover]
#[verifier::rlimit(100)]
pub fn parse_if_branch(s: &Vec<char>, p: usize, f: &mut Failure) -> (r: Option<(IfBranch, usize)>)
    requires
        p <= s@.len(),
    ensures
        agrees(r, g_if_branch(s@, p as int), p as int, s@.len() as int),
        kept(*old(f), *final(f), s@),
    decreases s@.len() - p, 1int,
{
    reveal(IfBranch::tree);
    let (condition, q) = match parse_condition(s, p, f) {
        Some(x) => x,
        None => return None,
    };
    match parse_body(s, q, f) {
        Some((body, q1)) => Some((IfBranch { condition, body }, q1)),
        None => None,
    }
}

pub fn parse_else_if(s: &Vec<char>, p: usize, f: &mut Failure) -> (r: Option<(IfBranch, usize)>)
    requires
        p <= s@.len(),
    ensures
        agrees(r, g_else_if(s@, p as int), p as int, s@.len() as int),
        kept(*old(f), *final(f), s@),
    decreases s@.len() - p, 1int,
{
    let q = match keyword(s, p, "else", f) {
        Some(q) => q,
        None => return None,
    };
    match keyword(s, q, "if", f) {
        Some(q1) => parse_if_branch(s, q1, f),
        None => None,
    }
}

#[verifier::spinoff_prover]
#[verifier::rlimit(100)]
pub fn parse_if(s: &Vec<char>, p: usize, f: &mut Failure) -> (r: Option<(Expression, usize)>)
    requires
        p <= s@.len(),
    ensures
        agrees(r, g_if(s@, p as int), p as int, s@.len() as int),
        kept(*old(f), *final(f), s@),
    decreases s@.len() - p, 1int,
{
    reveal(Expression::tree);
    reveal_with_fuel(opt_boxed_expr, 1);
    reveal_with_fuel(opt_block, 1);
    reveal_with_fuel(opt_lambda, 1);
    let q = match keyword(s, p, "if", f) {
        Some(q) => q,
        None => return None,
    };
    let (first, q1) = match parse_if_branch(s, q, f) {
        Some(x) => x,
        None => return None,
    };
    let mut v: Vec<IfBranch> = Vec::new();
    v.push(first);
    let ghost t0 = v@[0].tree();
    assert(trees_if_branches(v@) =~= seq![t0]);
    let (branches, q2) = parse_else_ifs_from(s, q1, v, f);
    let (otherwise, q3) = match keyword(s, q2, "else", f) {
        Some(qe) => match parse_body(s, qe, f) {
            Some((b, q3)) => (Some(b), q3),
            None => (None, q2),
        },
        None => (None, q2),
    };
    let ghost kids = seq![list(trees_if_branches(branches@)), opt_block(otherwise)];
    let x = Expression::If(IfExpression { branches, otherwise });
    assert(x.tree()->Node_1 =~= kids);
    Some((x, q3))
}

#[verifier::spinoff_prover]
#[verifier::rlimit(100)]
pub fn parse_catch(s: &Vec<char>, p: usize, f: &mut Failure) -> (r: Option<(CatchExpression, usize)>)
    requires
        p <= s@.len(),
    ensures
        agrees(r, g_catch(s@, p as int), p as int, s@.len() as int),
        kept(*old(f), *final(f), s@),
    decreases s@.len() - p, 1int,
{
    reveal(CatchExpression::tree);
    let q = match keyword(s, p, "catch", f) {
        Some(q) => q,
        None => return None,
    };
    let q1 = match char_token(s, q, '(', f) {
        Some(q1) => q1,
        None => return None,
    };
    let (param, q2) = match parse_param(s, q1, f) {
        Some(x) => x,
        None => return None,
    };
    let q3 = match char_token(s, q2, ')', f) {
        Some(q3) => q3,
        None => return None,
    };
    match parse_block(s, q3, f) {
        Some((body, q4)) => Some((CatchExpression { param, body }, q4)),
        None => None,
    }
}

#[verifier::spinoff_prover]
#[verifier::rlimit(100)]
pub fn parse_try(s: &Vec<char>, p: usize, f: &mut Failure) -> (r: Option<(Expression, usize)>)
    requires
        p <= s@.len(),
    ensures
        agrees(r, g_try(s@, p as int), p as int, s@.len() as int),
        kept(*old(f), *final(f), s@),
    decreases s@.len() - p, 1int,
{
    reveal(Expression::tree);
    reveal_with_fuel(opt_boxed_expr, 1);
    reveal_with_fuel(opt_block, 1);
    reveal_with_fuel(opt_lambda, 1);
    let q = match keyword(s, p, "try", f) {
        Some(q) => q,
        None => return None,
    };
    let (body, q1) = match parse_block(s, q, f) {
        Some(x) => x,
        None => return None,
    };
    let (catches, q2) = parse_catches(s, q1, f);
    let (finally, q4) = match keyword(s, q2, "finally", f) {
        Some(q3) => match parse_block(s, q3, f) {
            Some((b, q4)) => (Some(b), q4),
            None => (None, q2),
        },
        None => (None, q2),
    };
    let ghost kids = seq![body.tree(), list(trees_catches(catches@)), opt_block(finally)];
    let x = Expression::Try(TryExpression { body, catches, finally });
    assert(x.tree()->Node_1 =~= kids);
    Some((x, q4))
}

#[verifier::spinoff_prover]
#[verifier::rlimit(100)]
pub fn parse_when_entry(s: &Vec<char>, p: usize, f: &mut Failure) -> (r: Option<(WhenEntry, usize)>)
    requires
        p <= s@.len(),
    ensures
        agrees(r, g_when_entry(s@, p as int), p as int, s@.len() as int),
        kept(*old(f), *final(f), s@),
    decreases s@.len() - p, 9int,
{
    reveal(WhenEntry::tree);
    let (exprs, q) = match keyword(s, p, "else", f) {
        Some(q) => {
            let v: Vec<Expression> = Vec::new();
            assert(trees_exprs(v@) =~= Seq::<Tree>::empty());
            (v, q)
        },
        None => {
            let (v, q) = parse_guards(s, p, f);
            if v.len() == 0 {
                return None;
            }
            (v, q)
        },
    };
    let q1 = match symbol2(s, q, '-', '>', f) {
        Some(q1) => q1,
        None => return None,
    };
    match parse_body(s, q1, f) {
        Some((body, q2)) => {
            let q3 = skip_semis(s, q2, f);
            Some((WhenEntry { exprs, body }, q3))
        },
        None => None,
    }
}

#[verifier::spinoff_prover]
#[verifier::rlimit(100)]
pub fn parse_when(s: &Vec<char>, p: usize, f: &mut Failure) -> (r: Option<(Expression, usize)>)
    requires
        p <= s@.len(),
    ensures
        agrees(r, g_when(s@, p as int), p as int, s@.len() as int),
        kept(*old(f), *final(f), s@),
    decreases s@.len() - p, 1int,
{
    reveal(Expression::tree);
    reveal_with_fuel(opt_boxed_expr, 1);
    reveal_with_fuel(opt_block, 1);
    reveal_with_fuel(opt_lambda, 1);
    let q = match keyword(s, p, "when", f) {
        Some(q) => q,
        None => return None,
    };
    let (expr, q1) = match parse_condition(s, q, f) {
        Some((e, q1)) => (Some(Box::new(e)), q1),
        None => (None, q),
    };
    let q2 = match char_token(s, q1, '{', f) {
        Some(q2) => q2,
        None => return None,
    };
    let (entries, q3) = parse_when_entries(s, q2, f);
    match char_token(s, q3, '}', f) {
        Some(q4) => {
            let ghost kids = seq![opt_boxed_expr(expr), list(trees_when_entries(entries@))];
            let x = Expression::When(WhenExpression { expr, entries });
            assert(x.tree()->Node_1 =~= kids);
            Some((x, q4))
        },
        None => None,
    }
}

#[verifier::spinoff_prover]
#[verifier::rlimit(100)]
pub fn parse_while(s: &Vec<char>, p: usize, f: &mut Failure) -> (r: Option<(Expression, usize)>)
    requires
        p <= s@.len(),
    ensures
        agrees(r, g_while(s@, p as int), p as int, s@.len() as int),
        kept(*old(f), *final(f), s@),
    decreases s@.len() - p, 1int,
{
    reveal(Expression::tree);
    reveal_with_fuel(opt_boxed_expr, 1);
    reveal_with_fuel(opt_block, 1);
    reveal_with_fuel(opt_lambda, 1);
    let q = match keyword(s, p, "while", f) {
        Some(q) => q,
        None => return None,
    };
    let (c, q1) = match parse_condition(s, q, f) {
        Some(x) => x,
        None => return None,
    };
    match parse_body(s, q1, f) {
        Some((body, q2)) => Some(
            (Expression::While(WhileExpression { expr: Box::new(c), body, is_do_while: false }), q2),
        ),
        None => None,
    }
}

#[verifier::spinoff_prover]
#[verifier::rlimit(100)]
pub fn parse_do_while(s: &Vec<char>, p: usize, f: &mut Failure) -> (r: Option<(Expression, usize)>)
    requires
        p <= s@.len(),
    ensures
        agrees(r, g_do_while(s@, p as int), p as int, s@.len() as int),
        kept(*old(f), *final(f), s@),
    decreases s@.len() - p, 1int,
{
    reveal(Expression::tree);
    reveal_with_fuel(opt_boxed_expr, 1);
    reveal_with_fuel(opt_block, 1);
    reveal_with_fuel(opt_lambda, 1);
    let q = match keyword(s, p, "do", f) {
        Some(q) => q,
        None => return None,
    };
    let (body, q1) = match parse_block(s, q, f) {
        Some(x) => x,
        None => return None,
    };
    let q2 = match keyword(s, q1, "while", f) {
        Some(q2) => q2,
        None => return None,
    };
    match parse_condition(s, q2, f) {
        Some((c, q3)) => Some(
            (Expression::While(WhileExpression { expr: Box::new(c), body, is_do_while: true }), q3),
        ),
        None => None,
    }
}

pub fn parse_bracket(s: &Vec<char>, p: usize, f: &mut Failure) -> (r: Option<(Expression, usize)>)
    requires
        p <= s@.len(),
    ensures
        agrees(r, g_enclosed(s@, p as int, '[', ']', Shape::Bracket), p as int, s@.len() as int),
        kept(*old(f), *final(f), s@),
    decreases s@.len() - p, 1int,
{
    reveal(Expression::tree);
    reveal_with_fuel(opt_boxed_expr, 1);
    reveal_with_fuel(opt_block, 1);
    reveal_with_fuel(opt_lambda, 1);
    let q = match char_token(s, p, '[', f) {
        Some(q) => q,
        None => return None,
    };
    match parse_expression(s, q, f) {
        Some((e, q1)) => match char_token(s, q1, ']', f) {
            Some(q2) => Some((Expression::Bracket(BracketExpression { expr: Box::new(e) }), q2)),
            None => None,
        },
        None => None,
    }
}

pub fn parse_parenthesized(s: &Vec<char>, p: usize, f: &mut Failure) -> (r: Option<(Expression, usize)>)
    requires
        p <= s@.len(),
    ensures
        agrees(r, g_enclosed(s@, p as int, '(', ')', Shape::Parenthesized), p as int, s@.len() as int),
        kept(*old(f), *final(f), s@),
    decreases s@.len() - p, 1int,
{
    reveal(Expression::tree);
    reveal_with_fuel(opt_boxed_expr, 1);
    reveal_with_fuel(opt_block, 1);
    reveal_with_fuel(opt_lambda, 1);
    let q = match char_token(s, p, '(', f) {
        Some(q) => q,
        None => return None,
    };
    match parse_expression(s, q, f) {
        Some((e, q1)) => match char_token(s, q1, ')', f) {
            Some(q2) => Some(
                (Expression::Parenthesized(ParenthesizedExpression { expr: Box::new(e) }), q2),
            ),
            None => None,
        },
        None => None,
    }
}

pub fn parse_object(s: &Vec<char>, p: usize, f: &mut Failure) -> (r: Option<(Expression, usize)>)
    requires
        p <= s@.len(),
    ensures
        agrees(r, g_object(s@, p as int), p as int, s@.len() as int),
        kept(*old(f), *final(f), s@),
    decreases s@.len() - p, 3int,
{
    reveal(Expression::tree);
    reveal_with_fuel(opt_boxed_expr, 1);
    reveal_with_fuel(opt_block, 1);
    reveal_with_fuel(opt_lambda, 1);
    let (annotations, q) = parse_annotation_sets(s, p, f);
    let q1 = match keyword(s, q, "object", f) {
        Some(q1) => q1,
        None => return None,
    };
    let (extends, q2) = match parse_supertypes(s, q1, f) {
        Some(x) => x,
        None => {
            let v: Vec<Type> = Vec::new();
            assert(trees_types(v@) =~= Seq::<Tree>::empty());
            (v, q1)
        },
    };
    let (inner, q3) = match parse_decl_body(s, q2, f) {
        Some(x) => x,
        None => {
            let v: Vec<Declaration> = Vec::new();
            assert(trees_decls(v@) =~= Seq::<Tree>::empty());
            (v, q2)
        },
    };
    Some((Expression::Object(ObjectExpression { annotations, extends, inner }), q3))
}

pub fn parse_lambda_params(s: &Vec<char>, p: usize, f: &mut Failure) -> (r: Option<(Vars, usize)>)
    requires
        p <= s@.len(),
    ensures
        agrees(r, g_lambda_params(s@, p as int), p as int, s@.len() as int),
        kept(*old(f), *final(f), s@),
{
    match parse_vars(s, p, f) {
        Some((v, q)) => match symbol2(s, q, '-', '>', f) {
            Some(q1) => Some((v, q1)),
            None => None,
        },
        None => None,
    }
}

pub fn parse_lambda(s: &Vec<char>, p: usize, f: &mut Failure) -> (r: Option<(LambdaBlock, usize)>)
    requires
        p <= s@.len(),
    ensures
        agrees(r, g_lambda(s@, p as int), p as int, s@.len() as int),
        kept(*old(f), *final(f), s@),
    decreases s@.len() - p, 1int,
{
    reveal(Block::tree);
    reveal(LambdaBlock::tree);
    let (label, p1) = match ident_token(s, p, f) {
        Some((l, e)) => if at_char(s, e, '@') {
            (Some(l), e + 1)
        } else {
            (None, p)
        },
        None => (None, p),
    };
    let p2 = match char_token(s, p1, '{', f) {
        Some(p2) => p2,
        None => return None,
    };
    let (vars, p3) = match parse_lambda_params(s, p2, f) {
        Some((v, q)) => (Some(v), q),
        None => (None, p2),
    };
    let (statements, p4) = parse_stmts(s, p3, f);
    match char_token(s, p4, '}', f) {
        Some(p5) => Some((LambdaBlock { label, vars, body: Block { statements } }, p5)),
        None => None,
    }
}

pub fn parse_labeled(s: &Vec<char>, p: usize, f: &mut Failure) -> (r: Option<(Expression, usize)>)
    requires
        p <= s@.len(),
    ensures
        agrees(r, g_labeled(s@, p as int), p as int, s@.len() as int),
        kept(*old(f), *final(f), s@),
    decreases s@.len() - p, 1int,
{
    reveal(Expression::tree);
    reveal_with_fuel(opt_boxed_expr, 1);
    reveal_with_fuel(opt_block, 1);
    reveal_with_fuel(opt_lambda, 1);
    let (label, e) = match ident_token(s, p, f) {
        Some(x) => x,
        None => return None,
    };
    if !at_char(s, e, '@') {
        return None;
    }
    match parse_operand(s, e + 1, f) {
        Some((x, q)) => Some((Expression::Labeled(LabeledExpression { label, expr: Box::new(x) }), q)),
        None => None,
    }
}

pub fn parse_super(s: &Vec<char>, p: usize, f: &mut Failure) -> (r: Option<(Expression, usize)>)
    requires
        p <= s@.len(),
    ensures
        agrees(r, g_super(s@, p as int), p as int, s@.len() as int),
        kept(*old(f), *final(f), s@),
{
    reveal(Expression::tree);
    reveal_with_fuel(opt_boxed_expr, 1);
    reveal_with_fuel(opt_block, 1);
    reveal_with_fuel(opt_lambda, 1);
    let q = match keyword(s, p, "super", f) {
        Some(q) => q,
        None => return None,
    };
    let (type_arg, q3) = match char_token(s, q, '<', f) {
        Some(q1) => match parse_type(s, q1, f) {
            Some((t, q2)) => match char_token(s, q2, '>', f) {
                Some(q3) => (Some(t), q3),
                None => (None, q),
            },
            None => (None, q),
        },
        None => (None, q),
    };
    let (label, q4) = parse_label(s, q3);
    Some((Expression::Super(SuperExpression { label, type_arg }), q4))
}

#[verifier::spinoff_prover]
#[verifier::rlimit(100)]
pub fn parse_call(s: &Vec<char>, p: usize, f: &mut Failure) -> (r: Option<(Expression, usize)>)
    requires
        p <= s@.len(),
    ensures
        agrees(r, g_call(s@, p as int), p as int, s@.len() as int),
        kept(*old(f), *final(f), s@),
    decreases s@.len() - p, 1int,
{
    reveal(Expression::tree);
    reveal_with_fuel(opt_boxed_expr, 1);
    reveal_with_fuel(opt_block, 1);
    reveal_with_fuel(opt_lambda, 1);
    let (path, q) = match parse_path(s, p, f) {
        Some(x) => x,
        None => return None,
    };
    let ta = parse_type_args(s, q, f);
    let has_targs = ta.is_some();
    let (type_args, q1) = match ta {
        Some((t, q1)) => (t, q1),
        None => {
            let v: Vec<Type> = Vec::new();
            assert(trees_types(v@) =~= Seq::<Tree>::empty());
            (v, q)
        },
    };
    let ca = parse_call_arg_list(s, q1, f);
    let has_args = ca.is_some();
    let (args, q2) = match ca {
        Some((a, q2)) => (a, q2),
        None => {
            let v = Vec::new();
            assert(trees_call_args(v@) =~= Seq::<Tree>::empty());
            (v, q1)
        },
    };
    let (lambda, q3) = match parse_lambda(s, q2, f) {
        Some((l, q3)) => (Some(Box::new(l)), q3),
        None => (None, q2),
    };
    if !has_targs && !has_args && lambda.is_none() {
        Some((Expression::Reference(ReferenceExpression { path }), q))
    } else {
        let ghost kids = seq![
            path_tree(path),
            list(trees_call_args(args@)),
            list(trees_types(type_args@)),
            opt_lambda(lambda),
        ];
        let x = Expression::Call(CallExpression { path, args, type_args, lambda });
        assert(x.tree()->Node_1 =~= kids);
        Some((x, q3))
    }
}

pub fn parse_block(s: &Vec<char>, p: usize, f: &mut Failure) -> (r: Option<(Block, usize)>)
    requires
        p <= s@.len(),
    ensures
        agrees(r, g_block(s@, p as int), p as int, s@.len() as int),
        kept(*old(f), *final(f), s@),
    decreases s@.len() - p, 1int,
{
    reveal(Block::tree);
    let q = match char_token(s, p, '{', f) {
        Some(q) => q,
        None => return None,
    };
    let (statements, q1) = parse_stmts(s, q, f);
    match char_token(s, q1, '}', f) {
        Some(q2) => Some((Block { statements }, q2)),
        None => None,
    }
}

#[verifier::spinoff_prover]
#[verifier::rlimit(100)]
pub fn parse_statement(s: &Vec<char>, p: usize, f: &mut Failure) -> (r: Option<(Statement, usize)>)
    requires
        p <= s@.len(),
    ensures
        agrees(r, g_statement(s@, p as int), p as int, s@.len() as int),
        kept(*old(f), *final(f), s@),
    decreases s@.len() - p, 8int,
{
    reveal(Statement::tree);
    let (st, q) = match parse_local_decl(s, p, f) {
        Some((d, q)) => (Statement::Declaration(d), q),
        None => match parse_expression(s, p, f) {
            Some((e, q)) => (Statement::Expression(e), q),
            None => return None,
        },
    };
    let q1 = skip_semis(s, q, f);
    Some((st, q1))
}

pub fn parse_body(s: &Vec<char>, p: usize, f: &mut Failure) -> (r: Option<(Block, usize)>)
    requires
        p <= s@.len(),
    ensures
        agrees(r, g_body(s@, p as int), p as int, s@.len() as int),
        kept(*old(f), *final(f), s@),
    decreases s@.len() - p, 9int,
{
    reveal(Block::tree);
    let r = parse_block(s, p, f);
    if r.is_some() {
        return r;
    }
    match parse_statement(s, p, f) {
        Some((st, q)) => {
            let mut statements: Vec<Statement> = Vec::new();
            statements.push(st);
            assert(trees_stmts(statements@) =~= seq![st.tree()]);
            Some((Block { statements }, q))
        },
        None => None,
    }
}

#[verifier::spinoff_prover]
#[verifier::rlimit(100)]
pub fn parse_fun_body(s: &Vec<char>, p: usize, f: &mut Failure) -> (r: Option<(Block, usize)>)
    requires
        p <= s@.len(),
    ensures
        agrees(r, g_fun_body(s@, p as int), p as int, s@.len() as int),
        kept(*old(f), *final(f), s@),
    decreases s@.len() - p, 2int,
{
    reveal(Block::tree);
    reveal(Statement::tree);
    match char_token(s, p, '=', f) {
        Some(q) => match parse_expression(s, q, f) {
            Some((e, q1)) => {
                let mut statements: Vec<Statement> = Vec::new();
                statements.push(Statement::Expression(e));
                assert(trees_stmts(statements@) =~= seq![e.tree()]);
                Some((Block { statements }, q1))
            },
            None => None,
        },
        None => parse_block(s, p, f),
    }
}

pub fn parse_else_ifs_from(s: &Vec<char>, p: usize, v: Vec<IfBranch>, f: &mut Failure) -> (r: (Vec<IfBranch>, usize))
    requires
        p <= s@.len(),
    ensures
        p <= r.1 <= s@.len(),
        trees_if_branches(r.0@) == trees_if_branches(v@) + g_else_ifs(s@, p as int).0,
        r.1 == g_else_ifs(s@, p as int).1,
        kept(*old(f), *final(f), s@),
    decreases s@.len() - p, 2int,
{
    let ghost v0 = v@;
    let mut v = v;
    let mut cur = p;
    assert(trees_if_branches(v0) + g_else_ifs(s@, p as int).0 == trees_if_branches(v@) + g_else_ifs(s@, cur as int).0);
    loop
        invariant
            p <= cur <= s@.len(),
            trees_if_branches(v0) + g_else_ifs(s@, p as int).0 == trees_if_branches(v@) + g_else_ifs(s@, cur as int).0,
            g_else_ifs(s@, p as int).1 == g_else_ifs(s@, cur as int).1,
            kept(*old(f), *f, s@),
        ensures
            p <= cur <= s@.len(),
            trees_if_branches(v0) + g_else_ifs(s@, p as int).0 == trees_if_branches(v@),
            g_else_ifs(s@, p as int).1 == cur,
        decreases s@.len() - cur,
    {
        match parse_else_if(s, cur, f) {
            Some((x, q)) => {
                if q <= cur {
                    assert(trees_if_branches(v@) + Seq::<Tree>::empty() =~= trees_if_branches(v@));
                    break;
                }
                let ghost old_v = v@;
                let ghost rest = g_else_ifs(s@, q as int);
                v.push(x);
                assert(trees_if_branches(v@) + rest.0 =~= trees_if_branches(old_v) + (seq![x.tree()] + rest.0));
                cur = q;
            },
            None => {
                assert(trees_if_branches(v@) + Seq::<Tree>::empty() =~= trees_if_branches(v@));
                break;
            },
        }
    }
    (v, cur)
}

} // verus!
