//! The model of the syntax tree: every node as a labelled ordered tree.
//! Grammar rules are stated over this model, and each parsing function is
//! proved to succeed exactly where its rule does, building the node whose
//! model the rule gives and ending where the rule ends.
use vstd::prelude::*;
use crate::ast::{
    Annotation,
    AnnotationSet,
    AnnotationSite,
    AnonymousParam,
    BinaryOp,
    BinaryOperator,
    Block,
    BoundKind,
    BoundedTypeParam,
    CallArg,
    CatchExpression,
    ConstructorDeclaration,
    ConstructorDelegate,
    ConstructorDelegateKind,
    Declaration,
    DeclarationKind,
    EntityDeclaration,
    EntityDeclarationKind,
    EnumEntryDeclaration,
    Expression,
    FunctionDeclaration,
    FunctionType,
    IfBranch,
    Import,
    InvocationArg,
    KotlinFile,
    LambdaBlock,
    Literal,
    Modifier,
    Package,
    Param,
    Path,
    PrimaryConstructorDeclaration,
    PropertyAccessor,
    PropertyDeclaration,
    PropertySetterField,
    SimpleType,
    Statement,
    Type,
    TypeAliasDeclaration,
    TypeBound,
    TypeParam,
    UnaryOperator,
    Var,
    Vars,
    WhenEntry,
};

verus! {

/// What a node of the model stands for.
pub enum Shape {
    List,
    File,
    Package,
    Import,
    Declaration,
    Constructor,
    Entity,
    EnumEntry,
    Function,
    InitBlock,
    Property,
    TypeAlias,
    PrimaryConstructor,
    Delegate,
    Block,
    Getter,
    Setter,
    SetterField,
    Integer,
    Decimal,
    Str,
    Char,
    Boolean,
    Null,
    Bracket,
    Binary,
    Break,
    Call,
    Continue,
    For,
    If,
    IfBranch,
    Lambda,
    Labeled,
    Object,
    Parenthesized,
    Reference,
    MemberReference,
    Return,
    Super,
    This,
    Throw,
    Try,
    Catch,
    Unary,
    When,
    WhenEntry,
    While,
    SimpleType,
    FunctionType,
    AnonymousParam,
    Param,
    TypeParam,
    BoundedTypeParam,
    TypeBound,
    AnnotationSet,
    Annotation,
    CallArg,
    InvocationArg,
    Vars,
    Var,
}

/// A syntax tree as a mathematical value.
pub enum Tree {
    Node(Shape, Seq<Tree>),
    Text(Seq<char>),
    Num(int),
    Flag(bool),
    Absent,
    Mod(Modifier),
    Op(BinaryOp),
    Unary(UnaryOperator),
    Site(AnnotationSite),
    Kind(EntityDeclarationKind),
    Variance(BoundKind),
    Delegation(ConstructorDelegateKind),
}

pub open spec fn node(shape: Shape, kids: Seq<Tree>) -> Tree {
    Tree::Node(shape, kids)
}

pub open spec fn list(kids: Seq<Tree>) -> Tree {
    Tree::Node(Shape::List, kids)
}

pub open spec fn text_tree(t: String) -> Tree {
    Tree::Text(t@)
}

pub open spec fn opt_text(t: Option<String>) -> Tree {
    match t {
        Some(t) => Tree::Text(t@),
        None => Tree::Absent,
    }
}

pub open spec fn opt_type(t: Option<Type>) -> Tree {
    match t {
        Some(t) => t.tree(),
        None => Tree::Absent,
    }
}

pub open spec fn opt_variance(k: Option<BoundKind>) -> Tree {
    match k {
        Some(k) => Tree::Variance(k),
        None => Tree::Absent,
    }
}

pub open spec fn opt_receiver(t: Option<Type>) -> Tree
    decreases t,
{
    match t {
        Some(t) => t.tree(),
        None => Tree::Absent,
    }
}

pub open spec fn opt_flag(b: Option<bool>) -> Tree {
    match b {
        Some(b) => Tree::Flag(b),
        None => Tree::Absent,
    }
}

pub open spec fn opt_site(s: Option<AnnotationSite>) -> Tree {
    match s {
        Some(s) => Tree::Site(s),
        None => Tree::Absent,
    }
}

pub open spec fn operator_tree(op: BinaryOperator) -> Tree {
    match op {
        BinaryOperator::Operator(op) => Tree::Op(op),
        BinaryOperator::Infix(name) => Tree::Text(name@),
    }
}

pub open spec fn opt_block(o: Option<Block>) -> Tree
    decreases o,
{
    match o {
        Some(x) => x.tree(),
        None => Tree::Absent,
    }
}

pub open spec fn opt_lambda(o: Option<Box<LambdaBlock>>) -> Tree
    decreases o,
{
    match o {
        Some(x) => x.tree(),
        None => Tree::Absent,
    }
}

pub open spec fn opt_setter_field(o: Option<PropertySetterField>) -> Tree {
    match o {
        Some(x) => x.tree(),
        None => Tree::Absent,
    }
}

pub open spec fn opt_boxed_expr(o: Option<Box<Expression>>) -> Tree
    decreases o,
{
    match o {
        Some(x) => x.tree(),
        None => Tree::Absent,
    }
}

pub open spec fn opt_delegate(o: Option<ConstructorDelegate>) -> Tree
    decreases o,
{
    match o {
        Some(x) => x.tree(),
        None => Tree::Absent,
    }
}

pub open spec fn opt_expr(o: Option<Expression>) -> Tree
    decreases o,
{
    match o {
        Some(x) => x.tree(),
        None => Tree::Absent,
    }
}

pub open spec fn opt_package(o: Option<Package>) -> Tree {
    match o {
        Some(x) => x.tree(),
        None => Tree::Absent,
    }
}

pub open spec fn opt_primary_constructor(o: Option<PrimaryConstructorDeclaration>) -> Tree
    decreases o,
{
    match o {
        Some(x) => x.tree(),
        None => Tree::Absent,
    }
}

pub open spec fn opt_vars(o: Option<Vars>) -> Tree {
    match o {
        Some(x) => x.tree(),
        None => Tree::Absent,
    }
}

pub open spec fn path_tree(p: Path) -> Tree {
    list(trees_texts(p@))
}

pub open spec fn modifiers_tree(m: Vec<Modifier>) -> Tree {
    list(trees_mods(m@))
}

pub open spec fn trees_texts(v: Seq<String>) -> Seq<Tree>
    decreases v.len(),
{
    if v.len() == 0 {
        Seq::empty()
    } else {
        trees_texts(v.subrange(0, v.len() - 1)).push(Tree::Text(v[v.len() - 1]@))
    }
}

pub broadcast proof fn lemma_trees_texts_push(v: Seq<String>, x: String)
    ensures
        #[trigger] trees_texts(v.push(x)) == trees_texts(v).push(Tree::Text(x@)),
{
    assert(v.push(x).subrange(0, v.len() as int) =~= v);
}

pub open spec fn trees_mods(v: Seq<Modifier>) -> Seq<Tree>
    decreases v.len(),
{
    if v.len() == 0 {
        Seq::empty()
    } else {
        trees_mods(v.subrange(0, v.len() - 1)).push(Tree::Mod(v[v.len() - 1]))
    }
}

pub broadcast proof fn lemma_trees_mods_push(v: Seq<Modifier>, x: Modifier)
    ensures
        #[trigger] trees_mods(v.push(x)) == trees_mods(v).push(Tree::Mod(x)),
{
    assert(v.push(x).subrange(0, v.len() as int) =~= v);
}

pub open spec fn trees_stmts(v: Seq<Statement>) -> Seq<Tree>
    decreases v,
{
    if v.len() == 0 {
        Seq::empty()
    } else {
        trees_stmts(v.subrange(0, v.len() - 1)).push(v[v.len() - 1].tree())
    }
}

pub broadcast proof fn lemma_trees_stmts_push(v: Seq<Statement>, x: Statement)
    ensures
        #[trigger] trees_stmts(v.push(x)) == trees_stmts(v).push(x.tree()),
{
    reveal(Statement::tree);
    assert(v.push(x).subrange(0, v.len() as int) =~= v);
}

pub open spec fn trees_decls(v: Seq<Declaration>) -> Seq<Tree>
    decreases v,
{
    if v.len() == 0 {
        Seq::empty()
    } else {
        trees_decls(v.subrange(0, v.len() - 1)).push(v[v.len() - 1].tree())
    }
}

pub broadcast proof fn lemma_trees_decls_push(v: Seq<Declaration>, x: Declaration)
    ensures
        #[trigger] trees_decls(v.push(x)) == trees_decls(v).push(x.tree()),
{
    reveal(Declaration::tree);
    assert(v.push(x).subrange(0, v.len() as int) =~= v);
}

pub open spec fn trees_exprs(v: Seq<Expression>) -> Seq<Tree>
    decreases v,
{
    if v.len() == 0 {
        Seq::empty()
    } else {
        trees_exprs(v.subrange(0, v.len() - 1)).push(v[v.len() - 1].tree())
    }
}

pub broadcast proof fn lemma_trees_exprs_push(v: Seq<Expression>, x: Expression)
    ensures
        #[trigger] trees_exprs(v.push(x)) == trees_exprs(v).push(x.tree()),
{
    reveal(Expression::tree);
    assert(v.push(x).subrange(0, v.len() as int) =~= v);
}

pub open spec fn trees_types(v: Seq<Type>) -> Seq<Tree>
    decreases v,
{
    if v.len() == 0 {
        Seq::empty()
    } else {
        trees_types(v.subrange(0, v.len() - 1)).push(v[v.len() - 1].tree())
    }
}

pub broadcast proof fn lemma_trees_types_push(v: Seq<Type>, x: Type)
    ensures
        #[trigger] trees_types(v.push(x)) == trees_types(v).push(x.tree()),
{
    reveal(Type::tree);
    assert(v.push(x).subrange(0, v.len() as int) =~= v);
}

pub open spec fn trees_params(v: Seq<Param>) -> Seq<Tree>
    decreases v,
{
    if v.len() == 0 {
        Seq::empty()
    } else {
        trees_params(v.subrange(0, v.len() - 1)).push(v[v.len() - 1].tree())
    }
}

pub broadcast proof fn lemma_trees_params_push(v: Seq<Param>, x: Param)
    ensures
        #[trigger] trees_params(v.push(x)) == trees_params(v).push(x.tree()),
{
    reveal(Param::tree);
    assert(v.push(x).subrange(0, v.len() as int) =~= v);
}

pub open spec fn trees_call_args(v: Seq<CallArg>) -> Seq<Tree>
    decreases v,
{
    if v.len() == 0 {
        Seq::empty()
    } else {
        trees_call_args(v.subrange(0, v.len() - 1)).push(v[v.len() - 1].tree())
    }
}

pub broadcast proof fn lemma_trees_call_args_push(v: Seq<CallArg>, x: CallArg)
    ensures
        #[trigger] trees_call_args(v.push(x)) == trees_call_args(v).push(x.tree()),
{
    reveal(CallArg::tree);
    assert(v.push(x).subrange(0, v.len() as int) =~= v);
}

pub open spec fn trees_annotation_sets(v: Seq<AnnotationSet>) -> Seq<Tree>
    decreases v,
{
    if v.len() == 0 {
        Seq::empty()
    } else {
        trees_annotation_sets(v.subrange(0, v.len() - 1)).push(v[v.len() - 1].tree())
    }
}

pub broadcast proof fn lemma_trees_annotation_sets_push(v: Seq<AnnotationSet>, x: AnnotationSet)
    ensures
        #[trigger] trees_annotation_sets(v.push(x)) == trees_annotation_sets(v).push(x.tree()),
{
    reveal(AnnotationSet::tree);
    assert(v.push(x).subrange(0, v.len() as int) =~= v);
}

pub open spec fn trees_annotations(v: Seq<Annotation>) -> Seq<Tree>
    decreases v,
{
    if v.len() == 0 {
        Seq::empty()
    } else {
        trees_annotations(v.subrange(0, v.len() - 1)).push(v[v.len() - 1].tree())
    }
}

pub broadcast proof fn lemma_trees_annotations_push(v: Seq<Annotation>, x: Annotation)
    ensures
        #[trigger] trees_annotations(v.push(x)) == trees_annotations(v).push(x.tree()),
{
    reveal(Annotation::tree);
    assert(v.push(x).subrange(0, v.len() as int) =~= v);
}

pub open spec fn trees_invocation_args(v: Seq<InvocationArg>) -> Seq<Tree>
    decreases v,
{
    if v.len() == 0 {
        Seq::empty()
    } else {
        trees_invocation_args(v.subrange(0, v.len() - 1)).push(v[v.len() - 1].tree())
    }
}

pub broadcast proof fn lemma_trees_invocation_args_push(v: Seq<InvocationArg>, x: InvocationArg)
    ensures
        #[trigger] trees_invocation_args(v.push(x)) == trees_invocation_args(v).push(x.tree()),
{
    reveal(InvocationArg::tree);
    assert(v.push(x).subrange(0, v.len() as int) =~= v);
}

pub open spec fn trees_vars(v: Seq<Var>) -> Seq<Tree>
    decreases v,
{
    if v.len() == 0 {
        Seq::empty()
    } else {
        trees_vars(v.subrange(0, v.len() - 1)).push(v[v.len() - 1].tree())
    }
}

pub broadcast proof fn lemma_trees_vars_push(v: Seq<Var>, x: Var)
    ensures
        #[trigger] trees_vars(v.push(x)) == trees_vars(v).push(x.tree()),
{
    assert(v.push(x).subrange(0, v.len() as int) =~= v);
}

pub open spec fn trees_type_params(v: Seq<TypeParam>) -> Seq<Tree>
    decreases v,
{
    if v.len() == 0 {
        Seq::empty()
    } else {
        trees_type_params(v.subrange(0, v.len() - 1)).push(v[v.len() - 1].tree())
    }
}

pub broadcast proof fn lemma_trees_type_params_push(v: Seq<TypeParam>, x: TypeParam)
    ensures
        #[trigger] trees_type_params(v.push(x)) == trees_type_params(v).push(x.tree()),
{
    reveal(TypeParam::tree);
    assert(v.push(x).subrange(0, v.len() as int) =~= v);
}

pub open spec fn trees_bounded_type_params(v: Seq<BoundedTypeParam>) -> Seq<Tree>
    decreases v,
{
    if v.len() == 0 {
        Seq::empty()
    } else {
        trees_bounded_type_params(v.subrange(0, v.len() - 1)).push(v[v.len() - 1].tree())
    }
}

pub broadcast proof fn lemma_trees_bounded_type_params_push(v: Seq<BoundedTypeParam>, x: BoundedTypeParam)
    ensures
        #[trigger] trees_bounded_type_params(v.push(x)) == trees_bounded_type_params(v).push(x.tree()),
{
    reveal(BoundedTypeParam::tree);
    assert(v.push(x).subrange(0, v.len() as int) =~= v);
}

pub open spec fn trees_type_bounds(v: Seq<TypeBound>) -> Seq<Tree>
    decreases v,
{
    if v.len() == 0 {
        Seq::empty()
    } else {
        trees_type_bounds(v.subrange(0, v.len() - 1)).push(v[v.len() - 1].tree())
    }
}

pub broadcast proof fn lemma_trees_type_bounds_push(v: Seq<TypeBound>, x: TypeBound)
    ensures
        #[trigger] trees_type_bounds(v.push(x)) == trees_type_bounds(v).push(x.tree()),
{
    assert(v.push(x).subrange(0, v.len() as int) =~= v);
}

pub open spec fn trees_anonymous_params(v: Seq<AnonymousParam>) -> Seq<Tree>
    decreases v,
{
    if v.len() == 0 {
        Seq::empty()
    } else {
        trees_anonymous_params(v.subrange(0, v.len() - 1)).push(v[v.len() - 1].tree())
    }
}

pub broadcast proof fn lemma_trees_anonymous_params_push(v: Seq<AnonymousParam>, x: AnonymousParam)
    ensures
        #[trigger] trees_anonymous_params(v.push(x)) == trees_anonymous_params(v).push(x.tree()),
{
    reveal(AnonymousParam::tree);
    assert(v.push(x).subrange(0, v.len() as int) =~= v);
}

pub open spec fn trees_when_entries(v: Seq<WhenEntry>) -> Seq<Tree>
    decreases v,
{
    if v.len() == 0 {
        Seq::empty()
    } else {
        trees_when_entries(v.subrange(0, v.len() - 1)).push(v[v.len() - 1].tree())
    }
}

pub broadcast proof fn lemma_trees_when_entries_push(v: Seq<WhenEntry>, x: WhenEntry)
    ensures
        #[trigger] trees_when_entries(v.push(x)) == trees_when_entries(v).push(x.tree()),
{
    reveal(WhenEntry::tree);
    assert(v.push(x).subrange(0, v.len() as int) =~= v);
}

pub open spec fn trees_catches(v: Seq<CatchExpression>) -> Seq<Tree>
    decreases v,
{
    if v.len() == 0 {
        Seq::empty()
    } else {
        trees_catches(v.subrange(0, v.len() - 1)).push(v[v.len() - 1].tree())
    }
}

pub broadcast proof fn lemma_trees_catches_push(v: Seq<CatchExpression>, x: CatchExpression)
    ensures
        #[trigger] trees_catches(v.push(x)) == trees_catches(v).push(x.tree()),
{
    reveal(CatchExpression::tree);
    assert(v.push(x).subrange(0, v.len() as int) =~= v);
}

pub open spec fn trees_if_branches(v: Seq<IfBranch>) -> Seq<Tree>
    decreases v,
{
    if v.len() == 0 {
        Seq::empty()
    } else {
        trees_if_branches(v.subrange(0, v.len() - 1)).push(v[v.len() - 1].tree())
    }
}

pub broadcast proof fn lemma_trees_if_branches_push(v: Seq<IfBranch>, x: IfBranch)
    ensures
        #[trigger] trees_if_branches(v.push(x)) == trees_if_branches(v).push(x.tree()),
{
    reveal(IfBranch::tree);
    assert(v.push(x).subrange(0, v.len() as int) =~= v);
}

pub open spec fn trees_accessors(v: Seq<PropertyAccessor>) -> Seq<Tree>
    decreases v,
{
    if v.len() == 0 {
        Seq::empty()
    } else {
        trees_accessors(v.subrange(0, v.len() - 1)).push(v[v.len() - 1].tree())
    }
}

pub broadcast proof fn lemma_trees_accessors_push(v: Seq<PropertyAccessor>, x: PropertyAccessor)
    ensures
        #[trigger] trees_accessors(v.push(x)) == trees_accessors(v).push(x.tree()),
{
    reveal(PropertyAccessor::tree);
    assert(v.push(x).subrange(0, v.len() as int) =~= v);
}

pub open spec fn trees_imports(v: Seq<Import>) -> Seq<Tree>
    decreases v,
{
    if v.len() == 0 {
        Seq::empty()
    } else {
        trees_imports(v.subrange(0, v.len() - 1)).push(v[v.len() - 1].tree())
    }
}

pub broadcast proof fn lemma_trees_imports_push(v: Seq<Import>, x: Import)
    ensures
        #[trigger] trees_imports(v.push(x)) == trees_imports(v).push(x.tree()),
{
    assert(v.push(x).subrange(0, v.len() as int) =~= v);
}

pub broadcast group group_trees {
    lemma_trees_texts_push,
    lemma_trees_mods_push,
    lemma_trees_stmts_push,
    lemma_trees_decls_push,
    lemma_trees_exprs_push,
    lemma_trees_types_push,
    lemma_trees_params_push,
    lemma_trees_call_args_push,
    lemma_trees_annotation_sets_push,
    lemma_trees_annotations_push,
    lemma_trees_invocation_args_push,
    lemma_trees_vars_push,
    lemma_trees_type_params_push,
    lemma_trees_bounded_type_params_push,
    lemma_trees_type_bounds_push,
    lemma_trees_anonymous_params_push,
    lemma_trees_when_entries_push,
    lemma_trees_catches_push,
    lemma_trees_if_branches_push,
    lemma_trees_accessors_push,
    lemma_trees_imports_push,
}

impl KotlinFile {
    pub open spec fn tree(&self) -> Tree {
        node(
            Shape::File,
            seq![
                opt_package(self.package),
                list(trees_imports(self.imports@)),
                list(trees_annotation_sets(self.annotations@)),
                list(trees_decls(self.declarations@)),
            ],
        )
    }
}

impl Package {
    pub open spec fn tree(&self) -> Tree {
        node(Shape::Package, seq![path_tree(self.path)])
    }
}

impl Import {
    pub open spec fn tree(&self) -> Tree {
        node(
            Shape::Import,
            seq![path_tree(self.path), Tree::Flag(self.is_wildcard), opt_text(self.alias)],
        )
    }
}

impl Statement {
    #[verifier::opaque]
    pub open spec fn tree(&self) -> Tree
        decreases self,
    {
        match self {
            Statement::Declaration(d) => d.tree(),
            Statement::Expression(e) => e.tree(),
        }
    }
}

impl Declaration {
    #[verifier::opaque]
    pub open spec fn tree(&self) -> Tree
        decreases self,
    {
        node(
            Shape::Declaration,
            seq![list(trees_annotation_sets(self.annotations@)), self.kind.tree()],
        )
    }
}

impl DeclarationKind {
    #[verifier::opaque]
    pub open spec fn tree(&self) -> Tree
        decreases self,
    {
        match self {
            DeclarationKind::Constructor(c) => c.tree(),
            DeclarationKind::Entity(e) => e.tree(),
            DeclarationKind::EnumEntry(e) => e.tree(),
            DeclarationKind::Function(fd) => fd.tree(),
            DeclarationKind::InitBlock(b) => node(Shape::InitBlock, seq![b.tree()]),
            DeclarationKind::Property(pd) => pd.tree(),
            DeclarationKind::TypeAlias(t) => t.tree(),
        }
    }
}

impl EntityDeclaration {
    #[verifier::opaque]
    pub open spec fn tree(&self) -> Tree
        decreases self,
    {
        node(
            Shape::Entity,
            seq![
                modifiers_tree(self.modifiers),
                Tree::Kind(self.kind),
                opt_text(self.name),
                list(trees_bounded_type_params(self.type_params@)),
                opt_primary_constructor(self.primary_constructor),
                list(trees_types(self.extends@)),
                list(trees_type_bounds(self.bounds@)),
                list(trees_decls(self.inner@)),
            ],
        )
    }
}

impl PrimaryConstructorDeclaration {
    #[verifier::opaque]
    pub open spec fn tree(&self) -> Tree
        decreases self,
    {
        node(
            Shape::PrimaryConstructor,
            seq![modifiers_tree(self.modifiers), list(trees_params(self.params@))],
        )
    }
}

impl ConstructorDeclaration {
    #[verifier::opaque]
    pub open spec fn tree(&self) -> Tree
        decreases self,
    {
        node(
            Shape::Constructor,
            seq![
                modifiers_tree(self.modifiers),
                list(trees_params(self.params@)),
                opt_delegate(self.delegate),
                opt_block(self.body),
            ],
        )
    }
}

impl ConstructorDelegate {
    #[verifier::opaque]
    pub open spec fn tree(&self) -> Tree
        decreases self,
    {
        node(
            Shape::Delegate,
            seq![Tree::Delegation(self.kind), list(trees_call_args(self.args@))],
        )
    }
}

impl FunctionDeclaration {
    #[verifier::opaque]
    pub open spec fn tree(&self) -> Tree
        decreases self,
    {
        node(
            Shape::Function,
            seq![
                modifiers_tree(self.modifiers),
                list(trees_type_params(self.type_params@)),
                opt_type(self.receiver),
                opt_text(self.name),
                list(trees_params(self.params@)),
                opt_type(self.return_ty),
                list(trees_type_bounds(self.bounds@)),
                opt_block(self.body),
            ],
        )
    }
}

impl Block {
    #[verifier::opaque]
    pub open spec fn tree(&self) -> Tree
        decreases self,
    {
        node(Shape::Block, trees_stmts(self.statements@))
    }
}

impl PropertyDeclaration {
    #[verifier::opaque]
    pub open spec fn tree(&self) -> Tree
        decreases self,
    {
        node(
            Shape::Property,
            seq![
                modifiers_tree(self.modifiers),
                Tree::Flag(self.is_const),
                Tree::Flag(self.is_mutable),
                Tree::Flag(self.is_delegated),
                list(trees_type_params(self.type_params@)),
                opt_type(self.receiver),
                self.vars.tree(),
                opt_expr(self.init),
                list(trees_type_bounds(self.bounds@)),
                list(trees_accessors(self.accessors@)),
            ],
        )
    }
}

impl PropertyAccessor {
    #[verifier::opaque]
    pub open spec fn tree(&self) -> Tree
        decreases self,
    {
        match self {
            PropertyAccessor::Getter { annotations, modifiers, return_ty, body } => node(
                Shape::Getter,
                seq![
                    list(trees_annotation_sets(annotations@)),
                    modifiers_tree(*modifiers),
                    opt_type(*return_ty),
                    opt_block(*body),
                ],
            ),
            PropertyAccessor::Setter { annotations, modifiers, field, return_ty, body } => node(
                Shape::Setter,
                seq![
                    list(trees_annotation_sets(annotations@)),
                    modifiers_tree(*modifiers),
                    opt_setter_field(*field),
                    opt_type(*return_ty),
                    opt_block(*body),
                ],
            ),
        }
    }
}

impl PropertySetterField {
    pub open spec fn tree(&self) -> Tree {
        node(
            Shape::SetterField,
            seq![
                text_tree(self.name),
                opt_type(self.ty),
            ],
        )
    }
}

impl TypeAliasDeclaration {
    #[verifier::opaque]
    pub open spec fn tree(&self) -> Tree
        decreases self,
    {
        node(
            Shape::TypeAlias,
            seq![
                modifiers_tree(self.modifiers),
                text_tree(self.name),
                list(trees_type_params(self.type_params@)),
                self.ty.tree(),
            ],
        )
    }
}

impl EnumEntryDeclaration {
    #[verifier::opaque]
    pub open spec fn tree(&self) -> Tree
        decreases self,
    {
        node(
            Shape::EnumEntry,
            seq![
                modifiers_tree(self.modifiers),
                text_tree(self.name),
                list(trees_call_args(self.args@)),
                list(trees_decls(self.inner@)),
            ],
        )
    }
}

impl Literal {
    pub open spec fn tree(&self) -> Tree {
        match self {
            Literal::Integer(n) => node(Shape::Integer, seq![Tree::Num(*n as int)]),
            Literal::Decimal(t) => node(Shape::Decimal, seq![Tree::Text(t@)]),
            Literal::String(t) => node(Shape::Str, seq![Tree::Text(t@)]),
            Literal::Char(c) => node(Shape::Char, seq![Tree::Text(seq![*c])]),
            Literal::Boolean(b) => node(Shape::Boolean, seq![Tree::Flag(*b)]),
            Literal::Null => node(Shape::Null, seq![]),
        }
    }
}

impl Expression {
    #[verifier::opaque]
    pub open spec fn tree(&self) -> Tree
        decreases self,
    {
        match self {
            Expression::Literal(l) => l.tree(),
            Expression::Bracket(b) => node(Shape::Bracket, seq![b.expr.tree()]),
            Expression::BinaryOp(b) => node(
                Shape::Binary,
                seq![
                    b.lhs.tree(),
                    operator_tree(b.op),
                    b.rhs.tree(),
                ],
            ),
            Expression::Break(b) => node(Shape::Break, seq![opt_text(b.label)]),
            Expression::Call(c) => node(
                Shape::Call,
                seq![
                    path_tree(c.path),
                    list(trees_call_args(c.args@)),
                    list(trees_types(c.type_args@)),
                    opt_lambda(c.lambda),
                ],
            ),
            Expression::Continue(c) => node(Shape::Continue, seq![opt_text(c.label)]),
            Expression::For(fe) => node(
                Shape::For,
                seq![fe.vars.tree(), fe.iterable.tree(), fe.body.tree()],
            ),
            Expression::If(i) => node(
                Shape::If,
                seq![
                    list(trees_if_branches(i.branches@)),
                    opt_block(i.otherwise),
                ],
            ),
            Expression::Lambda(l) => l.tree(),
            Expression::Labeled(l) => node(
                Shape::Labeled,
                seq![text_tree(l.label), l.expr.tree()],
            ),
            Expression::Object(o) => node(
                Shape::Object,
                seq![
                    list(trees_annotation_sets(o.annotations@)),
                    list(trees_types(o.extends@)),
                    list(trees_decls(o.inner@)),
                ],
            ),
            Expression::Parenthesized(p) => node(Shape::Parenthesized, seq![p.expr.tree()]),
            Expression::Reference(r) => node(Shape::Reference, seq![path_tree(r.path)]),
            Expression::MemberReference(m) => node(
                Shape::MemberReference,
                seq![opt_boxed_expr(m.lhs), m.rhs.tree()],
            ),
            Expression::Return(r) => node(
                Shape::Return,
                seq![
                    opt_text(r.label),
                    opt_boxed_expr(r.expr),
                ],
            ),
            Expression::Super(sp) => node(
                Shape::Super,
                seq![
                    opt_text(sp.label),
                    opt_type(sp.type_arg),
                ],
            ),
            Expression::This(t) => node(Shape::This, seq![opt_text(t.label)]),
            Expression::Throw(t) => node(Shape::Throw, seq![t.expr.tree()]),
            Expression::Try(t) => node(
                Shape::Try,
                seq![
                    t.body.tree(),
                    list(trees_catches(t.catches@)),
                    opt_block(t.finally),
                ],
            ),
            Expression::UnaryOp(u) => node(
                Shape::Unary,
                seq![Tree::Unary(u.op), u.expr.tree(), Tree::Flag(u.is_prefix)],
            ),
            Expression::When(w) => node(
                Shape::When,
                seq![
                    opt_boxed_expr(w.expr),
                    list(trees_when_entries(w.entries@)),
                ],
            ),
            Expression::While(w) => node(
                Shape::While,
                seq![w.expr.tree(), w.body.tree(), Tree::Flag(w.is_do_while)],
            ),
        }
    }
}

impl IfBranch {
    #[verifier::opaque]
    pub open spec fn tree(&self) -> Tree
        decreases self,
    {
        node(Shape::IfBranch, seq![self.condition.tree(), self.body.tree()])
    }
}

impl CatchExpression {
    #[verifier::opaque]
    pub open spec fn tree(&self) -> Tree
        decreases self,
    {
        node(Shape::Catch, seq![self.param.tree(), self.body.tree()])
    }
}

impl WhenEntry {
    #[verifier::opaque]
    pub open spec fn tree(&self) -> Tree
        decreases self,
    {
        node(Shape::WhenEntry, seq![list(trees_exprs(self.exprs@)), self.body.tree()])
    }
}

impl LambdaBlock {
    #[verifier::opaque]
    pub open spec fn tree(&self) -> Tree
        decreases self,
    {
        node(
            Shape::Lambda,
            seq![
                opt_text(self.label),
                opt_vars(self.vars),
                self.body.tree(),
            ],
        )
    }
}

impl Type {
    #[verifier::opaque]
    pub open spec fn tree(&self) -> Tree
        decreases self,
    {
        match self {
            Type::Simple(t) => node(
                Shape::SimpleType,
                seq![text_tree(t.name), list(trees_types(t.type_args@)), Tree::Flag(t.is_nullable)],
            ),
            Type::Function(t) => node(
                Shape::FunctionType,
                seq![
                    opt_receiver(t.receiver),
                    list(trees_anonymous_params(t.params@)),
                    t.return_ty.tree(),
                    Tree::Flag(t.is_nullable),
                ],
            ),
        }
    }
}

impl AnonymousParam {
    #[verifier::opaque]
    pub open spec fn tree(&self) -> Tree
        decreases self,
    {
        node(Shape::AnonymousParam, seq![opt_text(self.name), self.ty.tree()])
    }
}

impl Param {
    #[verifier::opaque]
    pub open spec fn tree(&self) -> Tree
        decreases self,
    {
        node(
            Shape::Param,
            seq![
                list(trees_annotation_sets(self.annotations@)),
                modifiers_tree(self.modifiers),
                opt_flag(self.property),
                text_tree(self.name),
                self.ty.tree(),
            ],
        )
    }
}

impl TypeParam {
    #[verifier::opaque]
    pub open spec fn tree(&self) -> Tree
        decreases self,
    {
        node(
            Shape::TypeParam,
            seq![
                list(trees_annotation_sets(self.annotations@)),
                text_tree(self.name),
                opt_type(self.ty),
            ],
        )
    }
}

impl BoundedTypeParam {
    #[verifier::opaque]
    pub open spec fn tree(&self) -> Tree
        decreases self,
    {
        node(
            Shape::BoundedTypeParam,
            seq![
                list(trees_annotation_sets(self.annotations@)),
                list(trees_type_bounds(self.bounds@)),
            ],
        )
    }
}

impl TypeBound {
    pub open spec fn tree(&self) -> Tree {
        node(
            Shape::TypeBound,
            seq![
                text_tree(self.name),
                opt_type(self.ty),
                opt_variance(self.kind),
            ],
        )
    }
}

impl AnnotationSet {
    #[verifier::opaque]
    pub open spec fn tree(&self) -> Tree
        decreases self,
    {
        node(
            Shape::AnnotationSet,
            seq![
                opt_site(self.site),
                list(trees_annotations(self.annotations@)),
            ],
        )
    }
}

impl Annotation {
    #[verifier::opaque]
    pub open spec fn tree(&self) -> Tree
        decreases self,
    {
        node(
            Shape::Annotation,
            seq![path_tree(self.path), list(trees_invocation_args(self.args@))],
        )
    }
}

impl CallArg {
    #[verifier::opaque]
    pub open spec fn tree(&self) -> Tree
        decreases self,
    {
        node(
            Shape::CallArg,
            seq![opt_text(self.name), self.value.tree(), Tree::Flag(self.is_spread)],
        )
    }
}

impl InvocationArg {
    #[verifier::opaque]
    pub open spec fn tree(&self) -> Tree
        decreases self,
    {
        node(Shape::InvocationArg, seq![opt_text(self.name), self.value.tree()])
    }
}

impl Vars {
    pub open spec fn tree(&self) -> Tree {
        node(Shape::Vars, seq![Tree::Flag(self.is_destructured), list(trees_vars(self.vars@))])
    }
}

impl Var {
    pub open spec fn tree(&self) -> Tree {
        node(
            Shape::Var,
            seq![
                text_tree(self.name),
                opt_type(self.ty),
            ],
        )
    }
}


/// The outcome `r` of a rule tried at `lo`, kept only if it ends within
/// the input and not before `lo`.
pub open spec fn pass(s: Seq<char>, lo: int, r: Option<(Tree, int)>) -> Option<(Tree, int)> {
    match r {
        Some((t, q)) => if lo <= q <= s.len() {
            Some((t, q))
        } else {
            None
        },
        None => None,
    }
}

/// An optional part tried at `lo`: its tree and end, or `Absent` and `lo`.
pub open spec fn opt_part(s: Seq<char>, lo: int, r: Option<(Tree, int)>) -> (Tree, int) {
    match pass(s, lo, r) {
        Some((t, q)) => (t, q),
        None => (Tree::Absent, lo),
    }
}

/// An optional list tried at `lo`: its tree and end, or the empty list and
/// `lo`.
pub open spec fn opt_list(s: Seq<char>, lo: int, r: Option<(Tree, int)>) -> (Tree, int) {
    match pass(s, lo, r) {
        Some((t, q)) => (t, q),
        None => (list(Seq::empty()), lo),
    }
}

/// A list rule's items and end, as a list tree, kept only if the end lies
/// within the input and not before `lo`.
pub open spec fn list_part(s: Seq<char>, lo: int, r: (Seq<Tree>, int)) -> Option<(Tree, int)> {
    if lo <= r.1 <= s.len() {
        Some((list(r.0), r.1))
    } else {
        None
    }
}

/// A node type whose values have a model.
pub trait Model {
    spec fn model(&self) -> Tree;
}

/// `r` is the outcome of a parsing function called at `lo`, and `g` the
/// outcome its rule gives there: both fail, or both succeed with the same
/// tree and end, and the end lies between `lo` and `hi`.
pub open spec fn agrees<T: Model>(r: Option<(T, usize)>, g: Option<(Tree, int)>, lo: int, hi: int) -> bool {
    match r {
        Some((x, e)) => lo <= e <= hi && g == Some((x.model(), e as int)),
        None => g is None,
    }
}

impl Model for KotlinFile {
    open spec fn model(&self) -> Tree {
        self.tree()
    }
}

impl Model for Package {
    open spec fn model(&self) -> Tree {
        self.tree()
    }
}

impl Model for Import {
    open spec fn model(&self) -> Tree {
        self.tree()
    }
}

impl Model for Statement {
    open spec fn model(&self) -> Tree {
        self.tree()
    }
}

impl Model for Declaration {
    open spec fn model(&self) -> Tree {
        self.tree()
    }
}

impl Model for EntityDeclaration {
    open spec fn model(&self) -> Tree {
        self.tree()
    }
}

impl Model for PrimaryConstructorDeclaration {
    open spec fn model(&self) -> Tree {
        self.tree()
    }
}

impl Model for ConstructorDeclaration {
    open spec fn model(&self) -> Tree {
        self.tree()
    }
}

impl Model for ConstructorDelegate {
    open spec fn model(&self) -> Tree {
        self.tree()
    }
}

impl Model for FunctionDeclaration {
    open spec fn model(&self) -> Tree {
        self.tree()
    }
}

impl Model for Block {
    open spec fn model(&self) -> Tree {
        self.tree()
    }
}

impl Model for PropertyDeclaration {
    open spec fn model(&self) -> Tree {
        self.tree()
    }
}

impl Model for PropertyAccessor {
    open spec fn model(&self) -> Tree {
        self.tree()
    }
}

impl Model for PropertySetterField {
    open spec fn model(&self) -> Tree {
        self.tree()
    }
}

impl Model for TypeAliasDeclaration {
    open spec fn model(&self) -> Tree {
        self.tree()
    }
}

impl Model for EnumEntryDeclaration {
    open spec fn model(&self) -> Tree {
        self.tree()
    }
}

impl Model for Literal {
    open spec fn model(&self) -> Tree {
        self.tree()
    }
}

impl Model for Expression {
    open spec fn model(&self) -> Tree {
        self.tree()
    }
}

impl Model for IfBranch {
    open spec fn model(&self) -> Tree {
        self.tree()
    }
}

impl Model for CatchExpression {
    open spec fn model(&self) -> Tree {
        self.tree()
    }
}

impl Model for WhenEntry {
    open spec fn model(&self) -> Tree {
        self.tree()
    }
}

impl Model for LambdaBlock {
    open spec fn model(&self) -> Tree {
        self.tree()
    }
}

impl Model for Type {
    open spec fn model(&self) -> Tree {
        self.tree()
    }
}

impl Model for AnonymousParam {
    open spec fn model(&self) -> Tree {
        self.tree()
    }
}

impl Model for Param {
    open spec fn model(&self) -> Tree {
        self.tree()
    }
}

impl Model for TypeParam {
    open spec fn model(&self) -> Tree {
        self.tree()
    }
}

impl Model for BoundedTypeParam {
    open spec fn model(&self) -> Tree {
        self.tree()
    }
}

impl Model for TypeBound {
    open spec fn model(&self) -> Tree {
        self.tree()
    }
}

impl Model for AnnotationSet {
    open spec fn model(&self) -> Tree {
        self.tree()
    }
}

impl Model for Annotation {
    open spec fn model(&self) -> Tree {
        self.tree()
    }
}

impl Model for CallArg {
    open spec fn model(&self) -> Tree {
        self.tree()
    }
}

impl Model for InvocationArg {
    open spec fn model(&self) -> Tree {
        self.tree()
    }
}

impl Model for Vars {
    open spec fn model(&self) -> Tree {
        self.tree()
    }
}

impl Model for Var {
    open spec fn model(&self) -> Tree {
        self.tree()
    }
}

} // verus!
