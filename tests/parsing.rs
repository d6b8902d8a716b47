use kotlin_parser::ast::{
    BinaryOp, BinaryOperation, BinaryOperator, Block, CallArg, CallExpression, Declaration,
    DeclarationKind, Expression, FunctionDeclaration, IfBranch, IfExpression, Literal, Param,
    PropertyDeclaration, ReferenceExpression, ReturnExpression, SimpleType, Statement, Type,
    UnaryOperation, UnaryOperator, Var, Vars, WhileExpression, Modifier,
};
use kotlin_parser::parser::{expression_parser, literal_parser, statement_parser};

fn simple(name: &str, nullable: bool) -> Type {
    Type::Simple(Box::new(SimpleType {
        name: name.to_string(),
        type_args: vec![],
        is_nullable: nullable,
    }))
}

fn reference(name: &str) -> Expression {
    Expression::Reference(ReferenceExpression { path: vec![name.to_string()] })
}

fn int_lit(v: i64) -> Expression {
    Expression::Literal(Literal::Integer(v))
}

fn binary(lhs: Expression, op: BinaryOp, rhs: Expression) -> Expression {
    Expression::BinaryOp(BinaryOperation {
        lhs: Box::new(lhs),
        op: BinaryOperator::Operator(op),
        rhs: Box::new(rhs),
    })
}

fn block_of(e: Expression) -> Block {
    Block { statements: vec![Statement::Expression(e)] }
}

fn check_literals() {
    assert_eq!(literal_parser("123"), Ok(Literal::Integer(123)));
    match literal_parser("123.456") {
        Ok(Literal::Decimal(text)) => {
            assert_eq!(text, "123.456");
            assert_eq!(text.parse::<f64>().unwrap(), 123.456);
        }
        other => panic!("not a decimal literal: {:?}", other),
    }
    assert_eq!(literal_parser("\"abc\""), Ok(Literal::String("abc".to_string())));
    assert_eq!(literal_parser("'a'"), Ok(Literal::Char('a')));
    assert_eq!(literal_parser("true"), Ok(Literal::Boolean(true)));
    assert_eq!(literal_parser("false"), Ok(Literal::Boolean(false)));
    assert_eq!(literal_parser("null"), Ok(Literal::Null));
}

#[test]
fn literal_parse_literal() {
    check_literals();
}

#[test]
fn mod_parse_literal() {
    check_literals();
}

#[test]
fn literals_parse_literal() {
    check_literals();
}

#[test]
fn parse_binary_expr() {
    assert_eq!(
        expression_parser("++1"),
        Ok(Expression::UnaryOp(UnaryOperation {
            op: UnaryOperator::Increment,
            expr: Box::new(int_lit(1)),
            is_prefix: true,
        }))
    );
    assert_eq!(
        expression_parser("1 + 2 - 3"),
        Ok(binary(binary(int_lit(1), BinaryOp::Add, int_lit(2)), BinaryOp::Subtract, int_lit(3)))
    );
}

#[test]
fn parse_function_call() {
    let arg = |name: &str| CallArg {
        name: None,
        value: Box::new(reference(name)),
        is_spread: false,
    };
    assert_eq!(
        expression_parser("mapOf<String, Int?>(a, b, c)"),
        Ok(Expression::Call(CallExpression {
            path: vec!["mapOf".to_string()],
            args: vec![arg("a"), arg("b"), arg("c")],
            type_args: vec![simple("String", false), simple("Int", true)],
            lambda: None,
        }))
    );
}

#[test]
fn parse_variable_declaration() {
    assert_eq!(
        statement_parser("const val foo: Long = 123"),
        Ok(Statement::Declaration(Declaration {
            annotations: vec![],
            kind: DeclarationKind::Property(PropertyDeclaration {
                modifiers: vec![Modifier::Const],
                is_const: true,
                is_mutable: false,
                is_delegated: false,
                type_params: vec![],
                receiver: None,
                vars: Vars {
                    is_destructured: false,
                    vars: vec![Var { name: "foo".to_string(), ty: Some(simple("Long", false)) }],
                },
                init: Some(int_lit(123)),
                bounds: vec![],
                accessors: vec![],
            }),
        }))
    );
}

#[test]
fn parse_function_declaration() {
    assert_eq!(
        statement_parser("fun foo(bar: Bar): Bazz? { return null; }"),
        Ok(Statement::Declaration(Declaration {
            annotations: vec![],
            kind: DeclarationKind::Function(FunctionDeclaration {
                modifiers: vec![],
                type_params: vec![],
                receiver: None,
                name: Some("foo".to_string()),
                params: vec![Param {
                    annotations: vec![],
                    modifiers: vec![],
                    property: None,
                    name: "bar".to_string(),
                    ty: simple("Bar", false),
                }],
                return_ty: Some(simple("Bazz", true)),
                bounds: vec![],
                body: Some(block_of(Expression::Return(ReturnExpression {
                    label: None,
                    expr: Some(Box::new(Expression::Literal(Literal::Null))),
                }))),
            }),
        }))
    );
}

#[test]
fn parse_if_statement() {
    assert_eq!(
        statement_parser("if (a) { b } else if (c) { d } else { e }"),
        Ok(Statement::Expression(Expression::If(IfExpression {
            branches: vec![
                IfBranch { condition: reference("a"), body: block_of(reference("b")) },
                IfBranch { condition: reference("c"), body: block_of(reference("d")) },
            ],
            otherwise: Some(block_of(reference("e"))),
        })))
    );
}

#[test]
fn parse_while_statement() {
    assert_eq!(
        statement_parser("do {} while (true)"),
        Ok(Statement::Expression(Expression::While(WhileExpression {
            expr: Box::new(Expression::Literal(Literal::Boolean(true))),
            body: Block { statements: vec![] },
            is_do_while: true,
        })))
    );
}
