use kotlin_parser::annotation::parse_modifiers;
use kotlin_parser::token::Failure;
use kotlin_parser::ast::{
    MemberReferenceExpression, Modifier, ReferenceExpression,
    BinaryOp, BinaryOperation, BinaryOperator, Block, DeclarationKind, EntityDeclarationKind,
    Expression, Literal, Statement, Type, WhileExpression,
};
use kotlin_parser::parser::{
    declaration_parser, expression_parser, literal_parser, parser, statement_parser, type_parser,
};

fn int_lit(v: i64) -> Expression {
    Expression::Literal(Literal::Integer(v))
}

fn binary(lhs: Expression, op: BinaryOp, rhs: Expression) -> Expression {
    Expression::BinaryOp(BinaryOperation {
        lhs: Box::new(lhs),
        op: BinaryOperator::Operator(op),
        rhs: Box::new(rhs),
    })
}

#[test]
fn operators_fold_from_the_left() {
    assert_eq!(
        expression_parser("1 + 2 * 3"),
        Ok(binary(binary(int_lit(1), BinaryOp::Add, int_lit(2)), BinaryOp::Multiply, int_lit(3)))
    );
}

#[test]
fn longer_operators_win() {
    assert_eq!(expression_parser("1 === 2"), Ok(binary(int_lit(1), BinaryOp::ReferenceEqual, int_lit(2))));
    assert_eq!(expression_parser("1 == 2"), Ok(binary(int_lit(1), BinaryOp::Equal, int_lit(2))));
    assert_eq!(expression_parser("1 ..< 2"), Ok(binary(int_lit(1), BinaryOp::RangeUntil, int_lit(2))));
    assert_eq!(expression_parser("1 .. 2"), Ok(binary(int_lit(1), BinaryOp::RangeTo, int_lit(2))));
}

#[test]
fn while_loop_is_not_do_while() {
    assert_eq!(
        statement_parser("while (true) {}"),
        Ok(Statement::Expression(Expression::While(WhileExpression {
            expr: Box::new(Expression::Literal(Literal::Boolean(true))),
            body: Block { statements: vec![] },
            is_do_while: false,
        })))
    );
}

#[test]
fn unterminated_parameter_list_fails_after_the_paren() {
    let e = parser("fun foo(").unwrap_err();
    assert!(e.offset >= 7);
    assert!(!e.expected.is_empty());
    assert!(statement_parser("fun foo(").is_err());
}

#[test]
fn parsing_twice_gives_equal_trees() {
    let text = "package a.b\nimport c.d.*\nclass A(val x: Int) : B { fun f(): Int = x }";
    let first = parser(text);
    let second = parser(text);
    assert!(first.is_ok());
    assert_eq!(first, second);
}

#[test]
fn empty_file_has_nothing() {
    let f = parser("").unwrap();
    assert!(f.package.is_none());
    assert!(f.imports.is_empty());
    assert!(f.declarations.is_empty());
}

#[test]
fn file_with_package_imports_and_class() {
    let f = parser("package a.b\nimport c.d.*\nimport e.f as g\ndata class P(val x: Int, var y: Int)")
        .unwrap();
    assert_eq!(f.package.unwrap().path, vec!["a".to_string(), "b".to_string()]);
    assert_eq!(f.imports.len(), 2);
    assert!(f.imports[0].is_wildcard);
    assert_eq!(f.imports[1].alias, Some("g".to_string()));
    match &f.declarations[0].kind {
        DeclarationKind::Entity(e) => {
            assert_eq!(e.kind, EntityDeclarationKind::Class);
            assert_eq!(e.name, Some("P".to_string()));
            let ctor = e.primary_constructor.as_ref().unwrap();
            assert_eq!(ctor.params.len(), 2);
            assert_eq!(ctor.params[0].property, Some(false));
            assert_eq!(ctor.params[1].property, Some(true));
        }
        other => panic!("not an entity: {:?}", other),
    }
}

#[test]
fn trailing_garbage_is_an_error() {
    assert!(parser("class A }").is_err());
    assert!(literal_parser("12 34").is_err());
}

#[test]
fn integer_out_of_range_is_rejected() {
    assert_eq!(literal_parser("9223372036854775807"), Ok(Literal::Integer(i64::MAX)));
    assert!(literal_parser("9223372036854775808").is_err());
}

#[test]
fn nullable_and_function_types() {
    match type_parser("((Int) -> String)?").unwrap() {
        Type::Function(f) => {
            assert!(f.is_nullable);
            assert_eq!(f.params.len(), 1);
        }
        other => panic!("not a function type: {:?}", other),
    }
    match type_parser("Map<String, Int?>").unwrap() {
        Type::Simple(t) => {
            assert_eq!(t.name, "Map");
            assert_eq!(t.type_args.len(), 2);
        }
        other => panic!("not a simple type: {:?}", other),
    }
}

#[test]
fn when_try_and_lambda() {
    assert!(matches!(
        expression_parser("when (x) { 1, 2 -> a\n else -> b }"),
        Ok(Expression::When(_))
    ));
    assert!(matches!(
        expression_parser("try { a } catch (e: Exception) { b } finally { c }"),
        Ok(Expression::Try(_))
    ));
    match expression_parser("list.map { x -> x + 1 }") {
        Ok(Expression::Call(c)) => {
            assert_eq!(c.path, vec!["list".to_string(), "map".to_string()]);
            assert!(c.lambda.is_some());
        }
        other => panic!("not a call: {:?}", other),
    }
}

#[test]
fn property_with_accessors_and_delegate() {
    match declaration_parser("var x: Int get() = 1 set(v) { }").unwrap().kind {
        DeclarationKind::Property(p) => {
            assert!(p.is_mutable);
            assert_eq!(p.accessors.len(), 2);
        }
        other => panic!("not a property: {:?}", other),
    }
    match declaration_parser("val y by lazy { 1 }").unwrap().kind {
        DeclarationKind::Property(p) => assert!(p.is_delegated),
        other => panic!("not a property: {:?}", other),
    }
}

#[test]
fn enum_class_with_entries() {
    match declaration_parser("enum class Color(val rgb: Int) { RED(1), GREEN(2); fun f() {} }")
        .unwrap()
        .kind
    {
        DeclarationKind::Entity(e) => {
            assert_eq!(e.kind, EntityDeclarationKind::Enum);
            assert_eq!(e.inner.len(), 3);
        }
        other => panic!("not an entity: {:?}", other),
    }
}

#[test]
fn member_references() {
    let r = |n: &str| Expression::Reference(ReferenceExpression { path: vec![n.to_string()] });
    assert_eq!(
        expression_parser("String::length"),
        Ok(Expression::MemberReference(MemberReferenceExpression {
            lhs: Some(Box::new(r("String"))),
            rhs: Box::new(r("length")),
        }))
    );
    assert_eq!(
        expression_parser("::foo"),
        Ok(Expression::MemberReference(MemberReferenceExpression {
            lhs: None,
            rhs: Box::new(r("foo")),
        }))
    );
}

#[test]
fn lone_modifier_is_a_modifier() {
    let text: Vec<char> = "inline".chars().collect();
    let mut f = Failure { offset: 0, expected: vec![] };
    assert_eq!(parse_modifiers(&text, 0, &mut f), (vec![Modifier::Inline], 6));
    let text: Vec<char> = "infix fun".chars().collect();
    assert_eq!(parse_modifiers(&text, 0, &mut f).0, vec![Modifier::Infix]);
}

#[test]
fn errors_name_what_was_expected() {
    let e = type_parser("((Int) -> Unit").unwrap_err();
    assert!(!e.expected.is_empty());
    assert!(e.expected.iter().any(|x| x == ")"));
}
