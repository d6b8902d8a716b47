//! Whole files, and the entry points that parse a whole text.
use vstd::prelude::*;
use crate::annotation::{g_annotation, g_annotations, g_path, parse_annotation, parse_annotations, parse_path};
use crate::ast::{
    Annotation, AnnotationSet, Declaration, Expression, Import, KotlinFile, Literal, Package,
    Statement, Type,
};
use crate::chars::{group_runs, group_tokens, skip_ws};
use crate::declaration::{g_declaration, g_decls, parse_declaration, parse_decls};
use crate::expression::{g_expression, g_statement, parse_expression, parse_statement};
use crate::literal::{g_literal, literal_at};
use crate::model::{
    group_trees, list, node, opt_part, pass, path_tree, trees_annotation_sets, trees_annotations,
    trees_decls, trees_imports, Shape, Tree,
};
use crate::token::{
    at, at_char, ch, char_token, chars_of, ident_token, keyword, kept, kw, record, semis, skip,
    skip_semis, tok_ident, within, Failure,
};
use crate::ty::{g_type, parse_type};

verus! {

broadcast use {group_runs, group_tokens, group_trees};

/// A failed parse: the furthest offset that any attempt reached, and what
/// the attempts there looked for.
#[derive(Debug, PartialEq)]
pub struct ParseError {
    pub offset: usize,
    pub expected: Vec<String>,
}

/// `package a.b`, then any `;`.
pub open spec fn g_package(s: Seq<char>, p: int) -> Option<(Tree, int)> {
    match kw(s, p, "package"@) {
        Some(q) => match pass(s, q + 1, g_path(s, q)) {
            Some((path, q1)) => Some((node(Shape::Package, seq![path]), semis(s, q1))),
            None => None,
        },
        None => None,
    }
}

/// `import a.b.*` or `import a.b as c`, then any `;`.
pub open spec fn g_import(s: Seq<char>, p: int) -> Option<(Tree, int)> {
    match kw(s, p, "import"@) {
        Some(q) => match pass(s, q + 1, g_path(s, q)) {
            Some((path, q1)) => {
                let (w, q4) = match ch(s, q1, '.') {
                    Some(q2) => match ch(s, q2, '*') {
                        Some(q3) => (true, q3),
                        None => (false, q1),
                    },
                    None => (false, q1),
                };
                let (alias, q7) = match kw(s, q4, "as"@) {
                    Some(q5) => match tok_ident(s, q5) {
                        Some((n, q6)) => (Tree::Text(n), q6),
                        None => (Tree::Absent, q4),
                    },
                    None => (Tree::Absent, q4),
                };
                Some((node(Shape::Import, seq![path, Tree::Flag(w), alias]), semis(s, q7)))
            },
            None => None,
        },
        None => None,
    }
}

/// `@file:Name(args)` or `@file:[A B]`.
pub open spec fn g_file_annotation_set(s: Seq<char>, p: int) -> Option<(Tree, int)> {
    let q = skip_ws(s, p);
    if at(s, q, '@') && kw(s, q + 1, "file"@) is Some && ch(s, kw(s, q + 1, "file"@)->0, ':') is Some {
        let q2 = ch(s, kw(s, q + 1, "file"@)->0, ':')->0;
        match ch(s, q2, '[') {
            Some(q3) => {
                let anns = g_annotations(s, q3);
                if within(s, q3, anns.1) {
                    match ch(s, anns.1, ']') {
                        Some(q4) => Some((node(Shape::AnnotationSet, seq![Tree::Absent, list(anns.0)]), q4)),
                        None => None,
                    }
                } else {
                    None
                }
            },
            None => match pass(s, q2, g_annotation(s, q2)) {
                Some((a, q3)) => Some((node(Shape::AnnotationSet, seq![Tree::Absent, list(seq![a])]), q3)),
                None => None,
            },
        }
    } else {
        None
    }
}

pub open spec fn g_imports(s: Seq<char>, p: int) -> (Seq<Tree>, int)
    decreases s.len() - p,
{
    match g_import(s, p) {
        Some((t, q)) => if within(s, p + 1, q) {
            let rest = g_imports(s, q);
            (seq![t] + rest.0, rest.1)
        } else {
            (Seq::empty(), p)
        },
        None => (Seq::empty(), p),
    }
}

pub fn parse_imports(s: &Vec<char>, p: usize, f: &mut Failure) -> (r: (Vec<Import>, usize))
    requires
        p <= s@.len(),
    ensures
        p <= r.1 <= s@.len(),
        g_imports(s@, p as int) == (trees_imports(r.0@), r.1 as int),
        kept(*old(f), *final(f), s@),
{
    let mut v: Vec<Import> = Vec::new();
    let mut cur = p;
    assert(trees_imports(v@) + g_imports(s@, p as int).0 =~= g_imports(s@, p as int).0);
    loop
        invariant
            p <= cur <= s@.len(),
            g_imports(s@, p as int) == (trees_imports(v@) + g_imports(s@, cur as int).0, g_imports(s@, cur as int).1),
            kept(*old(f), *f, s@),
        ensures
            p <= cur <= s@.len(),
            g_imports(s@, p as int) == (trees_imports(v@), cur as int),
        decreases s@.len() - cur,
    {
        match parse_import(s, cur, f) {
            Some((x, q)) => {
                if q <= cur {
                    assert(trees_imports(v@) + Seq::<Tree>::empty() =~= trees_imports(v@));
                    break;
                }
                let ghost old_v = v@;
                let ghost rest = g_imports(s@, q as int);
                v.push(x);
                assert(trees_imports(v@) + rest.0 =~= trees_imports(old_v) + (seq![x.tree()] + rest.0));
                cur = q;
            },
            None => {
                assert(trees_imports(v@) + Seq::<Tree>::empty() =~= trees_imports(v@));
                break;
            },
        }
    }
    (v, cur)
}

pub open spec fn g_file_annotation_sets(s: Seq<char>, p: int) -> (Seq<Tree>, int)
    decreases s.len() - p,
{
    match g_file_annotation_set(s, p) {
        Some((t, q)) => if within(s, p + 1, q) {
            let rest = g_file_annotation_sets(s, q);
            (seq![t] + rest.0, rest.1)
        } else {
            (Seq::empty(), p)
        },
        None => (Seq::empty(), p),
    }
}

pub fn parse_file_annotation_sets(s: &Vec<char>, p: usize, f: &mut Failure) -> (r: (Vec<AnnotationSet>, usize))
    requires
        p <= s@.len(),
    ensures
        p <= r.1 <= s@.len(),
        g_file_annotation_sets(s@, p as int) == (trees_annotation_sets(r.0@), r.1 as int),
        kept(*old(f), *final(f), s@),
{
    let mut v: Vec<AnnotationSet> = Vec::new();
    let mut cur = p;
    assert(trees_annotation_sets(v@) + g_file_annotation_sets(s@, p as int).0 =~= g_file_annotation_sets(s@, p as int).0);
    loop
        invariant
            p <= cur <= s@.len(),
            g_file_annotation_sets(s@, p as int) == (trees_annotation_sets(v@) + g_file_annotation_sets(s@, cur as int).0, g_file_annotation_sets(s@, cur as int).1),
            kept(*old(f), *f, s@),
        ensures
            p <= cur <= s@.len(),
            g_file_annotation_sets(s@, p as int) == (trees_annotation_sets(v@), cur as int),
        decreases s@.len() - cur,
    {
        match parse_file_annotation_set(s, cur, f) {
            Some((x, q)) => {
                if q <= cur {
                    assert(trees_annotation_sets(v@) + Seq::<Tree>::empty() =~= trees_annotation_sets(v@));
                    break;
                }
                let ghost old_v = v@;
                let ghost rest = g_file_annotation_sets(s@, q as int);
                v.push(x);
                assert(trees_annotation_sets(v@) + rest.0 =~= trees_annotation_sets(old_v) + (seq![x.tree()] + rest.0));
                cur = q;
            },
            None => {
                assert(trees_annotation_sets(v@) + Seq::<Tree>::empty() =~= trees_annotation_sets(v@));
                break;
            },
        }
    }
    (v, cur)
}

/// A whole file: an optional package clause, imports, file annotations and
/// declarations, with nothing but whitespace after them.
pub open spec fn g_file(s: Seq<char>) -> Option<Tree> {
    let (pkg, p1) = opt_part(s, 0, g_package(s, 0));
    let im = g_imports(s, p1);
    let fa = g_file_annotation_sets(s, im.1);
    let ds = g_decls(s, fa.1);
    if within(s, p1, im.1) && within(s, im.1, fa.1) && within(s, fa.1, ds.1) && skip_ws(s, ds.1)
        == s.len() {
        Some(node(Shape::File, seq![pkg, list(im.0), list(fa.0), list(ds.0)]))
    } else {
        None
    }
}

/// The tree of a rule tried at the start of `s`, if the rule matches and
/// only whitespace follows it.
pub open spec fn whole(s: Seq<char>, r: Option<(Tree, int)>) -> Option<Tree> {
    match r {
        Some((t, e)) => if skip_ws(s, e) == s.len() {
            Some(t)
        } else {
            None
        },
        None => None,
    }
}

/// What `parser` may return for `src`: the file's tree when the grammar
/// accepts the text, else an error within the text.
pub open spec fn file_outcome(src: Seq<char>, r: Result<KotlinFile, ParseError>) -> bool {
    match r {
        Ok(k) => g_file(src) == Some(k.tree()),
        Err(e) => g_file(src) is None && e.offset <= src.len() && e.expected@.len() > 0,
    }
}

/// Parsing is a function of the text: any two outcomes that `parser` may
/// return for one text both succeed or both fail, and when they succeed
/// their trees are equal.
pub proof fn lemma_parse_twice(
    src: Seq<char>,
    r1: Result<KotlinFile, ParseError>,
    r2: Result<KotlinFile, ParseError>,
)
    requires
        file_outcome(src, r1),
        file_outcome(src, r2),
    ensures
        r1 is Ok <==> r2 is Ok,
        r1 is Ok ==> r1->Ok_0.tree() == r2->Ok_0.tree(),
{
}

pub fn parse_package(s: &Vec<char>, p: usize, f: &mut Failure) -> (r: Option<(Package, usize)>)
    requires
        p <= s@.len(),
    ensures
        match r {
            Some((x, e)) => p <= e <= s@.len() && g_package(s@, p as int) == Some((x.tree(), e as int)),
            None => g_package(s@, p as int) is None,
        },
        kept(*old(f), *final(f), s@),
{
    let q = match keyword(s, p, "package", f) {
        Some(q) => q,
        None => return None,
    };
    match parse_path(s, q, f) {
        Some((path, q1)) => {
            let q2 = skip_semis(s, q1, f);
            Some((Package { path }, q2))
        },
        None => None,
    }
}

pub fn parse_import(s: &Vec<char>, p: usize, f: &mut Failure) -> (r: Option<(Import, usize)>)
    requires
        p <= s@.len(),
    ensures
        match r {
            Some((x, e)) => p <= e <= s@.len() && g_import(s@, p as int) == Some((x.tree(), e as int)),
            None => g_import(s@, p as int) is None,
        },
        kept(*old(f), *final(f), s@),
{
    let q = match keyword(s, p, "import", f) {
        Some(q) => q,
        None => return None,
    };
    let (path, q1) = match parse_path(s, q, f) {
        Some(x) => x,
        None => return None,
    };
    let (is_wildcard, q4) = match char_token(s, q1, '.', f) {
        Some(q2) => match char_token(s, q2, '*', f) {
            Some(q3) => (true, q3),
            None => (false, q1),
        },
        None => (false, q1),
    };
    let (alias, q7) = match keyword(s, q4, "as", f) {
        Some(q5) => match ident_token(s, q5, f) {
            Some((n, q6)) => (Some(n), q6),
            None => (None, q4),
        },
        None => (None, q4),
    };
    let q8 = skip_semis(s, q7, f);
    Some((Import { path, is_wildcard, alias }, q8))
}

pub fn parse_file_annotation_set(s: &Vec<char>, p: usize, f: &mut Failure) -> (r: Option<(AnnotationSet, usize)>)
    requires
        p <= s@.len(),
    ensures
        match r {
            Some((x, e)) => p <= e <= s@.len() && g_file_annotation_set(s@, p as int) == Some((x.tree(), e as int)),
            None => g_file_annotation_set(s@, p as int) is None,
        },
        kept(*old(f), *final(f), s@),
{
    reveal(AnnotationSet::tree);
    let q = skip(s, p);
    if !at_char(s, q, '@') {
        return None;
    }
    let q1 = match keyword(s, q + 1, "file", f) {
        Some(q1) => q1,
        None => return None,
    };
    let q2 = match char_token(s, q1, ':', f) {
        Some(q2) => q2,
        None => return None,
    };
    match char_token(s, q2, '[', f) {
        Some(q3) => {
            let (annotations, q4) = parse_annotations(s, q3, f);
            match char_token(s, q4, ']', f) {
                Some(q5) => Some((AnnotationSet { site: None, annotations }, q5)),
                None => None,
            }
        },
        None => match parse_annotation(s, q2, f) {
            Some((a, q3)) => {
                let mut annotations: Vec<Annotation> = Vec::new();
                let ghost at = a.tree();
                annotations.push(a);
                assert(trees_annotations(annotations@) =~= seq![at]);
                Some((AnnotationSet { site: None, annotations }, q3))
            },
            None => None,
        },
    }
}

/// What `type_parser` may return for `src`: the type's tree when the type
/// grammar accepts the whole text, else an error within the text.
pub open spec fn type_outcome(src: Seq<char>, r: Result<Type, ParseError>) -> bool {
    match r {
        Ok(x) => whole(src, g_type(src, 0)) == Some(x.tree()),
        Err(e) => whole(src, g_type(src, 0)) is None && e.offset <= src.len() && e.expected@.len() > 0,
    }
}

/// What `literal_parser` may return for `src`.
pub open spec fn literal_outcome(src: Seq<char>, r: Result<Literal, ParseError>) -> bool {
    match r {
        Ok(x) => whole(src, g_literal(src, 0)) == Some(x.tree()),
        Err(e) => whole(src, g_literal(src, 0)) is None && e.offset <= src.len() && e.expected@.len() > 0,
    }
}

/// Parsing a type is a function of the text: any two outcomes that
/// `type_parser` may return for one text both succeed or both fail, and
/// when they succeed their trees are equal.
pub proof fn lemma_type_parse_twice(src: Seq<char>, r1: Result<Type, ParseError>, r2: Result<Type, ParseError>)
    requires
        type_outcome(src, r1),
        type_outcome(src, r2),
    ensures
        r1 is Ok <==> r2 is Ok,
        r1 is Ok ==> r1->Ok_0.tree() == r2->Ok_0.tree(),
{
}

/// Parsing a literal is a function of the text, in the same sense.
pub proof fn lemma_literal_parse_twice(
    src: Seq<char>,
    r1: Result<Literal, ParseError>,
    r2: Result<Literal, ParseError>,
)
    requires
        literal_outcome(src, r1),
        literal_outcome(src, r2),
    ensures
        r1 is Ok <==> r2 is Ok,
        r1 is Ok ==> r1->Ok_0.tree() == r2->Ok_0.tree(),
{
}

fn new_failure() -> (f: Failure)
    ensures
        f.offset == 0,
{
    Failure { offset: 0, expected: Vec::new() }
}

/// Parses a whole file.
pub fn parser(src: &str) -> (r: Result<KotlinFile, ParseError>)
    ensures
        file_outcome(src@, r),
{
    let s = chars_of(src);
    let mut f = new_failure();
    let (package, p1) = match parse_package(&s, 0, &mut f) {
        Some((k, q)) => (Some(k), q),
        None => (None, 0),
    };
    let (imports, p2) = parse_imports(&s, p1, &mut f);
    let (annotations, p3) = parse_file_annotation_sets(&s, p2, &mut f);
    let (declarations, p4) = parse_decls(&s, p3, &mut f);
    let q = skip(&s, p4);
    if q == s.len() {
        Ok(KotlinFile { package, imports, annotations, declarations })
    } else {
        record(&mut f, q, "declaration");
        Err(ParseError { offset: f.offset, expected: f.expected })
    }
}

/// Parses a whole text as a literal.
pub fn literal_parser(src: &str) -> (r: Result<Literal, ParseError>)
    ensures
        literal_outcome(src@, r),
{
    let s = chars_of(src);
    let mut f = new_failure();
    match literal_at(&s, 0, &mut f) {
        Some((x, e)) => {
            let q = skip(&s, e);
            if q == s.len() {
                return Ok(x);
            }
            record(&mut f, q, "end of input");
        },
        None => {
            let q = skip(&s, 0);
            record(&mut f, q, "start of input");
        },
    }
    Err(ParseError { offset: f.offset, expected: f.expected })
}

/// Parses a whole text as an expression.
pub fn expression_parser(src: &str) -> (r: Result<Expression, ParseError>)
    ensures
        match r {
            Ok(x) => whole(src@, g_expression(src@, 0)) == Some(x.tree()),
            Err(e) => whole(src@, g_expression(src@, 0)) is None && e.offset <= src@.len()
                && e.expected@.len() > 0,
        },
{
    let s = chars_of(src);
    let mut f = new_failure();
    match parse_expression(&s, 0, &mut f) {
        Some((x, e)) => {
            let q = skip(&s, e);
            if q == s.len() {
                return Ok(x);
            }
            record(&mut f, q, "end of input");
        },
        None => {
            let q = skip(&s, 0);
            record(&mut f, q, "start of input");
        },
    }
    Err(ParseError { offset: f.offset, expected: f.expected })
}

/// Parses a whole text as a statement.
pub fn statement_parser(src: &str) -> (r: Result<Statement, ParseError>)
    ensures
        match r {
            Ok(x) => whole(src@, g_statement(src@, 0)) == Some(x.tree()),
            Err(e) => whole(src@, g_statement(src@, 0)) is None && e.offset <= src@.len()
                && e.expected@.len() > 0,
        },
{
    let s = chars_of(src);
    let mut f = new_failure();
    match parse_statement(&s, 0, &mut f) {
        Some((x, e)) => {
            let q = skip(&s, e);
            if q == s.len() {
                return Ok(x);
            }
            record(&mut f, q, "end of input");
        },
        None => {
            let q = skip(&s, 0);
            record(&mut f, q, "start of input");
        },
    }
    Err(ParseError { offset: f.offset, expected: f.expected })
}

/// Parses a whole text as a declaration.
pub fn declaration_parser(src: &str) -> (r: Result<Declaration, ParseError>)
    ensures
        match r {
            Ok(x) => whole(src@, g_declaration(src@, 0)) == Some(x.tree()),
            Err(e) => whole(src@, g_declaration(src@, 0)) is None && e.offset <= src@.len()
                && e.expected@.len() > 0,
        },
{
    let s = chars_of(src);
    let mut f = new_failure();
    match parse_declaration(&s, 0, &mut f) {
        Some((x, e)) => {
            let q = skip(&s, e);
            if q == s.len() {
                return Ok(x);
            }
            record(&mut f, q, "end of input");
        },
        None => {
            let q = skip(&s, 0);
            record(&mut f, q, "start of input");
        },
    }
    Err(ParseError { offset: f.offset, expected: f.expected })
}

/// Parses a whole text as a type.
pub fn type_parser(src: &str) -> (r: Result<Type, ParseError>)
    ensures
        type_outcome(src@, r),
{
    let s = chars_of(src);
    let mut f = new_failure();
    match parse_type(&s, 0, &mut f) {
        Some((x, e)) => {
            let q = skip(&s, e);
            if q == s.len() {
                return Ok(x);
            }
            record(&mut f, q, "end of input");
        },
        None => {
            let q = skip(&s, 0);
            record(&mut f, q, "start of input");
        },
    }
    Err(ParseError { offset: f.offset, expected: f.expected })
}

} // verus!
