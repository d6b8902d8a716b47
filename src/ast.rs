//! The syntax tree. Every node owns its children; nothing is shared.
use vstd::prelude::*;

verus! {

/// A dotted name, one segment per entry.
pub type Path = Vec<String>;

#[derive(Debug, PartialEq)]
pub struct KotlinFile {
    pub package: Option<Package>,
    pub imports: Vec<Import>,
    pub annotations: Vec<AnnotationSet>,
    pub declarations: Vec<Declaration>,
}

#[derive(Debug, PartialEq)]
pub struct Package {
    pub path: Path,
}

#[derive(Debug, PartialEq)]
pub struct Import {
    pub path: Path,
    pub is_wildcard: bool,
    pub alias: Option<String>,
}

#[derive(Debug, PartialEq)]
pub enum Statement {
    Declaration(Declaration),
    Expression(Expression),
}

#[derive(Debug, PartialEq)]
pub struct Declaration {
    pub annotations: Vec<AnnotationSet>,
    pub kind: DeclarationKind,
}

#[derive(Debug, PartialEq)]
pub enum DeclarationKind {
    Constructor(ConstructorDeclaration),
    Entity(EntityDeclaration),
    EnumEntry(EnumEntryDeclaration),
    Function(FunctionDeclaration),
    InitBlock(Block),
    Property(PropertyDeclaration),
    TypeAlias(TypeAliasDeclaration),
}

/// A class, interface, object, companion object or enum class. Secondary
/// constructors stand among the nested declarations in `inner`.
#[derive(Debug, PartialEq)]
pub struct EntityDeclaration {
    pub modifiers: Vec<Modifier>,
    pub kind: EntityDeclarationKind,
    pub name: Option<String>,
    pub type_params: Vec<BoundedTypeParam>,
    pub primary_constructor: Option<PrimaryConstructorDeclaration>,
    pub extends: Vec<Type>,
    pub bounds: Vec<TypeBound>,
    pub inner: Vec<Declaration>,
}

#[derive(Debug, PartialEq, Clone, Copy)]
pub enum EntityDeclarationKind {
    Class,
    Interface,
    Object,
    CompanionObject,
    Enum,
}

#[derive(Debug, PartialEq)]
pub struct PrimaryConstructorDeclaration {
    pub modifiers: Vec<Modifier>,
    pub params: Vec<Param>,
}

#[derive(Debug, PartialEq)]
pub struct ConstructorDeclaration {
    pub modifiers: Vec<Modifier>,
    pub params: Vec<Param>,
    pub delegate: Option<ConstructorDelegate>,
    pub body: Option<Block>,
}

#[derive(Debug, PartialEq)]
pub struct ConstructorDelegate {
    pub kind: ConstructorDelegateKind,
    pub args: Vec<CallArg>,
}

#[derive(Debug, PartialEq, Clone, Copy)]
pub enum ConstructorDelegateKind {
    This,
    Super,
}

#[derive(Debug, PartialEq)]
pub struct FunctionDeclaration {
    pub modifiers: Vec<Modifier>,
    pub type_params: Vec<TypeParam>,
    pub receiver: Option<Type>,
    pub name: Option<String>,
    pub params: Vec<Param>,
    pub return_ty: Option<Type>,
    pub bounds: Vec<TypeBound>,
    pub body: Option<Block>,
}

#[derive(Debug, PartialEq)]
pub struct Block {
    pub statements: Vec<Statement>,
}

#[derive(Debug, PartialEq)]
pub struct PropertyDeclaration {
    pub modifiers: Vec<Modifier>,
    pub is_const: bool,
    pub is_mutable: bool,
    pub is_delegated: bool,
    pub type_params: Vec<TypeParam>,
    pub receiver: Option<Type>,
    pub vars: Vars,
    pub init: Option<Expression>,
    pub bounds: Vec<TypeBound>,
    pub accessors: Vec<PropertyAccessor>,
}

#[derive(Debug, PartialEq)]
pub enum PropertyAccessor {
    Getter {
        annotations: Vec<AnnotationSet>,
        modifiers: Vec<Modifier>,
        return_ty: Option<Type>,
        body: Option<Block>,
    },
    Setter {
        annotations: Vec<AnnotationSet>,
        modifiers: Vec<Modifier>,
        field: Option<PropertySetterField>,
        return_ty: Option<Type>,
        body: Option<Block>,
    },
}

/// The parameter of a setter.
#[derive(Debug, PartialEq)]
pub struct PropertySetterField {
    pub name: String,
    pub ty: Option<Type>,
}

#[derive(Debug, PartialEq)]
pub struct TypeAliasDeclaration {
    pub modifiers: Vec<Modifier>,
    pub name: String,
    pub type_params: Vec<TypeParam>,
    pub ty: Type,
}

#[derive(Debug, PartialEq)]
pub struct EnumEntryDeclaration {
    pub modifiers: Vec<Modifier>,
    pub name: String,
    pub args: Vec<CallArg>,
    pub inner: Vec<Declaration>,
}

#[derive(Debug, PartialEq)]
pub enum Expression {
    Literal(Literal),
    Bracket(BracketExpression),
    BinaryOp(BinaryOperation),
    Break(BreakExpression),
    Call(CallExpression),
    Continue(ContinueExpression),
    For(ForExpression),
    If(IfExpression),
    Lambda(LambdaBlock),
    Labeled(LabeledExpression),
    Object(ObjectExpression),
    Parenthesized(ParenthesizedExpression),
    Reference(ReferenceExpression),
    MemberReference(MemberReferenceExpression),
    Return(ReturnExpression),
    Super(SuperExpression),
    This(ThisExpression),
    Throw(ThrowExpression),
    Try(TryExpression),
    UnaryOp(UnaryOperation),
    When(WhenExpression),
    While(WhileExpression),
}

/// A decimal literal keeps its digits as written (`"123.456"`).
#[derive(Debug, PartialEq)]
pub enum Literal {
    Integer(i64),
    Decimal(String),
    String(String),
    Char(char),
    Boolean(bool),
    Null,
}

/// `if (a) {..} else if (b) {..} else {..}`: one branch per condition, in
/// order, and the block after the last `else`.
#[derive(Debug, PartialEq)]
pub struct IfExpression {
    pub branches: Vec<IfBranch>,
    pub otherwise: Option<Block>,
}

#[derive(Debug, PartialEq)]
pub struct IfBranch {
    pub condition: Expression,
    pub body: Block,
}

#[derive(Debug, PartialEq)]
pub struct ForExpression {
    pub vars: Vars,
    pub iterable: Box<Expression>,
    pub body: Block,
}

#[derive(Debug, PartialEq)]
pub struct WhileExpression {
    pub expr: Box<Expression>,
    pub body: Block,
    pub is_do_while: bool,
}

#[derive(Debug, PartialEq)]
pub struct TryExpression {
    pub body: Block,
    pub catches: Vec<CatchExpression>,
    pub finally: Option<Block>,
}

#[derive(Debug, PartialEq)]
pub struct CatchExpression {
    pub param: Param,
    pub body: Block,
}

#[derive(Debug, PartialEq)]
pub struct BinaryOperation {
    pub lhs: Box<Expression>,
    pub op: BinaryOperator,
    pub rhs: Box<Expression>,
}

/// A symbolic operator, or a named infix function (`a shl b`).
#[derive(Debug, PartialEq)]
pub enum BinaryOperator {
    Operator(BinaryOp),
    Infix(String),
}

#[derive(Debug, PartialEq, Clone, Copy)]
pub enum BinaryOp {
    Assign,
    AddAssign,
    SubtractAssign,
    MultiplyAssign,
    DivideAssign,
    ModuloAssign,
    Equal,
    NotEqual,
    ReferenceEqual,
    ReferenceNotEqual,
    LessThan,
    LessThanOrEqual,
    GreaterThan,
    GreaterThanOrEqual,
    And,
    Or,
    In,
    NotIn,
    Is,
    IsNot,
    RangeTo,
    RangeUntil,
    Add,
    Subtract,
    Multiply,
    Divide,
    Modulo,
    As,
    AsNullable,
    Elvis,
    Dot,
    DotSafe,
}

#[derive(Debug, PartialEq)]
pub struct UnaryOperation {
    pub op: UnaryOperator,
    pub expr: Box<Expression>,
    pub is_prefix: bool,
}

#[derive(Debug, PartialEq, Clone, Copy)]
pub enum UnaryOperator {
    Plus,
    Minus,
    Increment,
    Decrement,
    Not,
    NullDeref,
}

#[derive(Debug, PartialEq)]
pub struct ThisExpression {
    pub label: Option<String>,
}

#[derive(Debug, PartialEq)]
pub struct SuperExpression {
    pub label: Option<String>,
    pub type_arg: Option<Type>,
}

#[derive(Debug, PartialEq)]
pub struct WhenExpression {
    pub expr: Option<Box<Expression>>,
    pub entries: Vec<WhenEntry>,
}

/// An entry of a `when`; `exprs` is empty for the `else` entry.
#[derive(Debug, PartialEq)]
pub struct WhenEntry {
    pub exprs: Vec<Expression>,
    pub body: Block,
}

#[derive(Debug, PartialEq)]
pub struct ObjectExpression {
    pub annotations: Vec<AnnotationSet>,
    pub extends: Vec<Type>,
    pub inner: Vec<Declaration>,
}

#[derive(Debug, PartialEq)]
pub struct ParenthesizedExpression {
    pub expr: Box<Expression>,
}

#[derive(Debug, PartialEq)]
pub struct ThrowExpression {
    pub expr: Box<Expression>,
}

#[derive(Debug, PartialEq)]
pub struct ReturnExpression {
    pub label: Option<String>,
    pub expr: Option<Box<Expression>>,
}

#[derive(Debug, PartialEq)]
pub struct ContinueExpression {
    pub label: Option<String>,
}

#[derive(Debug, PartialEq)]
pub struct BreakExpression {
    pub label: Option<String>,
}

#[derive(Debug, PartialEq)]
pub struct ReferenceExpression {
    pub path: Path,
}

/// `lhs::name`, or `::name` with no left side.
#[derive(Debug, PartialEq)]
pub struct MemberReferenceExpression {
    pub lhs: Option<Box<Expression>>,
    pub rhs: Box<Expression>,
}

#[derive(Debug, PartialEq)]
pub struct LabeledExpression {
    pub label: String,
    pub expr: Box<Expression>,
}

#[derive(Debug, PartialEq)]
pub struct CallExpression {
    pub path: Path,
    pub args: Vec<CallArg>,
    pub type_args: Vec<Type>,
    pub lambda: Option<Box<LambdaBlock>>,
}

#[derive(Debug, PartialEq)]
pub struct LambdaBlock {
    pub label: Option<String>,
    pub vars: Option<Vars>,
    pub body: Block,
}

#[derive(Debug, PartialEq)]
pub struct BracketExpression {
    pub expr: Box<Expression>,
}

#[derive(Debug, PartialEq)]
pub enum Type {
    Simple(Box<SimpleType>),
    Function(Box<FunctionType>),
}

#[derive(Debug, PartialEq)]
pub struct SimpleType {
    pub name: String,
    pub type_args: Vec<Type>,
    pub is_nullable: bool,
}

#[derive(Debug, PartialEq)]
pub struct FunctionType {
    pub receiver: Option<Type>,
    pub params: Vec<AnonymousParam>,
    pub return_ty: Type,
    pub is_nullable: bool,
}

#[derive(Debug, PartialEq)]
pub struct AnonymousParam {
    pub name: Option<String>,
    pub ty: Type,
}

/// A parameter. `property` is `Some(is_mutable)` where a primary
/// constructor's parameter is marked `var` or `val`.
#[derive(Debug, PartialEq)]
pub struct Param {
    pub annotations: Vec<AnnotationSet>,
    pub modifiers: Vec<Modifier>,
    pub property: Option<bool>,
    pub name: String,
    pub ty: Type,
}

#[derive(Debug, PartialEq)]
pub struct TypeParam {
    pub annotations: Vec<AnnotationSet>,
    pub name: String,
    pub ty: Option<Type>,
}

#[derive(Debug, PartialEq)]
pub struct BoundedTypeParam {
    pub annotations: Vec<AnnotationSet>,
    pub bounds: Vec<TypeBound>,
}

#[derive(Debug, PartialEq)]
pub struct TypeBound {
    pub name: String,
    pub ty: Option<Type>,
    pub kind: Option<BoundKind>,
}

#[derive(Debug, PartialEq, Clone, Copy)]
pub enum BoundKind {
    In,
    Out,
}

#[derive(Debug, PartialEq)]
pub struct AnnotationSet {
    pub site: Option<AnnotationSite>,
    pub annotations: Vec<Annotation>,
}

#[derive(Debug, PartialEq)]
pub struct Annotation {
    pub path: Path,
    pub args: Vec<InvocationArg>,
}

#[derive(Debug, PartialEq)]
pub struct CallArg {
    pub name: Option<String>,
    pub value: Box<Expression>,
    pub is_spread: bool,
}

#[derive(Debug, PartialEq)]
pub struct InvocationArg {
    pub name: Option<String>,
    pub value: Box<Expression>,
}

#[derive(Debug, PartialEq)]
pub struct Vars {
    pub is_destructured: bool,
    pub vars: Vec<Var>,
}

#[derive(Debug, PartialEq)]
pub struct Var {
    pub name: String,
    pub ty: Option<Type>,
}

#[derive(Debug, PartialEq, Clone, Copy)]
pub enum AnnotationSite {
    Field,
    Property,
    Get,
    Setter,
    Receiver,
    Param,
    SetParam,
    Delegate,
}

#[derive(Debug, PartialEq, Clone, Copy)]
pub enum Modifier {
    Abstract,
    Final,
    Open,
    Annotation,
    Sealed,
    Data,
    Override,
    Lateinit,
    Inner,
    Private,
    Protected,
    Public,
    Internal,
    In,
    Out,
    NoInline,
    CrossInline,
    Vararg,
    Reified,
    Tailrec,
    Operator,
    Infix,
    Inline,
    External,
    Suspend,
    Const,
    Actual,
    Expect,
}

} // verus!
