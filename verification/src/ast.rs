//! The syntax tree. Every list is a [`List`] and every name a [`Symbol`], so a
//! tree is a plain mathematical value: two trees with the same shape are equal.
use vstd::prelude::*;
use crate::list::List;
use crate::names::Symbol;
use crate::span::Span;

verus! {

/// A name occurrence.
#[derive(Clone, Copy, PartialEq, Eq, Structural, Debug)]
pub struct Ident {
    pub name: Symbol,
    pub span: Span,
}

/// Whether an item is `pub`, and where that is written.
#[derive(Clone, Copy, PartialEq, Eq, Structural, Debug)]
pub enum Visibility {
    Public(Span),
    Private,
}

impl Visibility {
    pub fn is_public(&self) -> (r: bool)
        ensures
            r == (*self is Public),
    {
        match self {
            Visibility::Public(_) => true,
            Visibility::Private => false,
        }
    }
}

/// The base an integer literal is written in.
#[derive(Clone, Copy, PartialEq, Eq, Structural, Debug)]
pub enum IntBase {
    Dec,
    Hex,
    Oct,
    Bin,
}

/// An integer literal: its digits (possibly with `_`) and its type suffix.
#[derive(Clone, Copy, PartialEq, Eq, Structural, Debug)]
pub struct IntLit {
    pub raw: Symbol,
    pub base: IntBase,
    pub suffix: Option<Symbol>,
}

/// A floating-point literal.
#[derive(Clone, Copy, PartialEq, Eq, Structural, Debug)]
pub struct FloatLit {
    pub raw: Symbol,
    pub suffix: Option<Symbol>,
}

/// A character literal, as written between the quotes.
#[derive(Clone, Copy, PartialEq, Eq, Structural, Debug)]
pub struct CharLit {
    pub raw: Symbol,
}

/// `...name` inside a pattern.
#[derive(Clone, Copy, PartialEq, Eq, Structural, Debug)]
pub struct RestPattern {
    pub name: Option<Ident>,
    pub span: Span,
}

/// A rest pattern and the position it stands at among its siblings.
#[derive(Clone, Copy, PartialEq, Eq, Structural, Debug)]
pub struct RestAt {
    pub index: u32,
    pub rest: RestPattern,
}

/// A prefix operator.
#[derive(Clone, Copy, PartialEq, Eq, Structural, Debug)]
pub enum UnaryOp {
    Neg,
    Not,
    BitNot,
}

/// An infix operator.
#[derive(Clone, Copy, PartialEq, Eq, Structural, Debug)]
pub enum BinaryOp {
    Add,
    Sub,
    Mul,
    Div,
    Rem,
    Eq,
    Ne,
    Lt,
    Le,
    Gt,
    Ge,
    And,
    Or,
    BitAnd,
    BitOr,
    BitXor,
    Shl,
    Shr,
}

/// `as` or `is`.
#[derive(Clone, Copy, PartialEq, Eq, Structural, Debug)]
pub enum CastOp {
    As,
    Is,
}

/// A parsed module: the contents of one file, or of one inline `module` block.
#[derive(Debug)]
pub struct Module {
    pub docs: List<Symbol>,
    pub items: List<Item>,
    pub span: Span,
}

/// One item declaration with its decorators and visibility.
#[derive(Debug)]
pub struct Item {
    pub docs: List<Symbol>,
    pub attrs: List<Attribute>,
    pub visibility: Visibility,
    pub kind: ItemKind,
    pub span: Span,
}

/// A decorator such as `@Derive(Eq)`.
#[derive(Debug)]
pub struct Attribute {
    pub name: Ident,
    pub args: List<AttrArg>,
    pub span: Span,
}

/// One argument of a decorator or macro call.
#[derive(Debug)]
pub enum AttrArg {
    Positional(Expr),
    Named { name: Ident, value: Expr },
}

/// What an item declares.
#[derive(Debug)]
pub enum ItemKind {
    Function(FunctionItem),
    Struct(StructItem),
    Interface(InterfaceItem),
    Extend(ExtendItem),
    Module(ModuleItem),
    TypeAlias(TypeAlias),
    Var(VarItem),
    Extern(ExternItem),
    Import(ImportItem),
    Test(TestItem),
}

/// A function or method; `body` is absent for a mere signature.
#[derive(Debug)]
pub struct FunctionItem {
    pub name: Ident,
    pub generics: Option<GenericParams>,
    pub params: List<Param>,
    pub return_type: Option<Type>,
    pub is_async: bool,
    pub body: Option<Block>,
}

/// A `<T: Bound, U>` parameter list.
#[derive(Debug)]
pub struct GenericParams {
    pub params: List<GenericParam>,
    pub span: Span,
}

/// One generic parameter with its interface bounds.
#[derive(Debug)]
pub struct GenericParam {
    pub name: Ident,
    pub bounds: List<Type>,
}

/// One function parameter.
#[derive(Debug)]
pub struct Param {
    pub kind: ParamKind,
    pub span: Span,
}

/// `self` or `name: ty`.
#[derive(Debug)]
pub enum ParamKind {
    SelfParam,
    Normal { name: Ident, ty: Type },
}

/// A struct declaration.
#[derive(Debug)]
pub struct StructItem {
    pub name: Ident,
    pub generics: Option<GenericParams>,
    pub kind: StructKind,
}

/// The shape of a struct.
#[derive(Debug)]
pub enum StructKind {
    Unit,
    Record(List<FieldDecl>),
    Tuple(List<Type>),
}

/// A named struct field.
#[derive(Debug)]
pub struct FieldDecl {
    pub name: Ident,
    pub ty: Type,
}

/// An interface declaration.
#[derive(Debug)]
pub struct InterfaceItem {
    pub name: Ident,
    pub generics: Option<GenericParams>,
    pub members: List<InterfaceMember>,
}

/// An interface method, with the body it has by default.
#[derive(Debug)]
pub struct InterfaceMember {
    pub function: FunctionItem,
    pub default_body: Option<Block>,
}

/// An `extend Target: Interfaces { .. }` block.
#[derive(Debug)]
pub struct ExtendItem {
    pub generics: Option<GenericParams>,
    pub target: Type,
    pub interfaces: List<Type>,
    pub members: List<ExtendMember>,
}

/// A method inside an `extend` block.
#[derive(Debug)]
pub struct ExtendMember {
    pub docs: List<Symbol>,
    pub attrs: List<Attribute>,
    pub visibility: Visibility,
    pub function: FunctionItem,
    pub span: Span,
}

/// A submodule declaration.
#[derive(Debug)]
pub struct ModuleItem {
    pub name: Ident,
    pub kind: ModuleKind,
}

/// Whether a submodule is written in place or lives in its own file.
#[derive(Debug)]
pub enum ModuleKind {
    Inline { docs: List<Symbol>, items: List<Item> },
    File,
}

/// `type Name<..> = aliased;`
#[derive(Debug)]
pub struct TypeAlias {
    pub name: Ident,
    pub generics: Option<GenericParams>,
    pub aliased: Type,
}

/// A module-level variable.
#[derive(Debug)]
pub struct VarItem {
    pub name: Ident,
    pub ty: Option<Type>,
    pub init: Option<Expr>,
}

/// A declaration of something defined in C.
#[derive(Debug)]
pub enum ExternItem {
    Function(FunctionItem),
    Struct(StructItem),
    Type(Ident),
    Var { name: Ident, ty: Type },
}

/// `import { a, b as c } from "source"` or `import "source" as alias`.
#[derive(Debug)]
pub struct ImportItem {
    pub source: Symbol,
    pub names: List<ImportName>,
    pub alias: Option<Ident>,
}

/// One imported name and the name it is bound to here.
#[derive(Debug)]
pub struct ImportName {
    pub name: Ident,
    pub alias: Option<Ident>,
}

/// `test "name" { .. }`.
#[derive(Debug)]
pub struct TestItem {
    pub name: Symbol,
    pub body: Block,
}

/// A `{ .. }` block: statements and an optional value.
#[derive(Debug)]
pub struct Block {
    pub stmts: List<Stmt>,
    pub trailing: Option<Box<Expr>>,
    pub span: Span,
}

/// A statement.
#[derive(Debug)]
pub struct Stmt {
    pub kind: StmtKind,
    pub span: Span,
}

/// What a statement does.
#[derive(Debug)]
pub enum StmtKind {
    Var(LocalVar),
    Assign { target: Expr, value: Expr },
    Expr(Expr),
    Item(Box<Item>),
}

/// `var pattern: ty = init;`
#[derive(Debug)]
pub struct LocalVar {
    pub pattern: Pattern,
    pub ty: Option<Type>,
    pub init: Expr,
}

/// A pattern.
#[derive(Debug)]
pub struct Pattern {
    pub kind: PatternKind,
    pub span: Span,
}

/// The form of a pattern.
#[derive(Debug)]
pub enum PatternKind {
    Wildcard,
    Binding(Ident),
    Literal(Box<Expr>),
    TypeBinding { ty: Type, binding: Option<Ident> },
    UnitPath(TypePath),
    TupleStruct { path: TypePath, fields: List<Pattern>, rest: Option<RestPattern> },
    RecordStruct { path: TypePath, fields: List<FieldPattern>, has_rest: bool },
    Tuple { elems: List<Pattern>, rest: Option<RestAt> },
    List { elems: List<Pattern>, rest: Option<RestAt> },
    Or(List<Pattern>),
}

/// `name: pattern` (or just `name`) inside a record pattern.
#[derive(Debug)]
pub struct FieldPattern {
    pub name: Ident,
    pub pattern: Option<Pattern>,
    pub span: Span,
}

/// A nominal path `Name<Args>` in expression or pattern position.
#[derive(Debug)]
pub struct TypePath {
    pub name: Ident,
    pub generics: List<Type>,
    pub span: Span,
}

/// A syntactic type.
#[derive(Debug)]
pub struct Type {
    pub kind: TypeKind,
    pub span: Span,
}

/// The form of a syntactic type.
#[derive(Debug)]
pub enum TypeKind {
    Named { name: Ident, generics: List<Type> },
    Tuple(List<Type>),
    Function { params: List<Type>, ret: Box<Type> },
    ExternFunction { params: List<ExternParam>, ret: Box<Type> },
    Union(List<Type>),
    Pointer(Box<Type>),
    Array { elem: Box<Type>, len: Box<Expr> },
    SelfType,
    Paren(Box<Type>),
}

/// A parameter of a C function-pointer type.
#[derive(Debug)]
pub struct ExternParam {
    pub ty: Type,
    pub span: Span,
}

/// An expression.
#[derive(Debug)]
pub struct Expr {
    pub kind: ExprKind,
    pub span: Span,
}

/// The form of an expression.
#[derive(Debug)]
pub enum ExprKind {
    Int(IntLit),
    Float(FloatLit),
    Bool(bool),
    Null,
    Char(CharLit),
    Str(StringLit),
    Ident(Ident),
    SelfExpr,
    Underscore,
    Continue,
    Paren(Box<Expr>),
    Tuple(List<Expr>),
    List(List<Expr>),
    MapLit(List<MapItem>),
    StructLit { path: TypePath, fields: List<FieldInit>, spread: Option<Box<Expr>> },
    Unary { op: UnaryOp, op_span: Span, operand: Box<Expr> },
    Binary { op: BinaryOp, op_span: Span, left: Box<Expr>, right: Box<Expr> },
    Cast { op: CastOp, op_span: Span, expr: Box<Expr>, ty: Box<Type> },
    Field { receiver: Box<Expr>, name: Ident },
    TupleIndex { receiver: Box<Expr>, index: u32, index_span: Span },
    Call { callee: Box<Expr>, generics: List<Type>, args: List<Expr>, trailing_closure: Option<Box<Expr>> },
    Index { receiver: Box<Expr>, index: Box<Expr> },
    Try { expr: Box<Expr>, q_span: Span },
    Ref { expr: Box<Expr>, amp_span: Span },
    Deref { expr: Box<Expr>, star_span: Span },
    Await { expr: Box<Expr>, kw_span: Span },
    Spawn { expr: Box<Expr>, kw_span: Span },
    If { cond: Box<Expr>, then_block: Block, else_branch: Option<ElseBranch> },
    Match { scrutinee: Box<Expr>, arms: List<MatchArm> },
    Block(Block),
    Loop(Block),
    While { cond: Box<Expr>, body: Block },
    For { pattern: Pattern, in_async: bool, iter: Box<Expr>, body: Block },
    Return(Option<Box<Expr>>),
    Break(Option<Box<Expr>>),
    Closure { params: List<ClosureParam>, return_type: Option<Type>, is_async: bool, body: Box<Expr> },
    AnonFn(Box<FunctionItem>),
    AsyncBlock(Block),
    MacroCall { name: Ident, args: List<AttrArg>, block: Option<Block> },
}

/// A string literal, split at its interpolation holes.
#[derive(Debug)]
pub struct StringLit {
    pub parts: List<StringPart>,
    pub span: Span,
}

/// Literal text, a `$name` hole or a `${expr}` hole.
#[derive(Debug)]
pub enum StringPart {
    Text { text: Symbol, span: Span },
    Ident(Ident),
    Expr(Expr),
}

/// A `key: value` entry or a `...spread` of a map literal.
#[derive(Debug)]
pub enum MapItem {
    Entry { key: Box<Expr>, value: Box<Expr>, span: Span },
    Spread(Box<Expr>),
}

/// `name: value` (or just `name`) in a struct literal.
#[derive(Debug)]
pub struct FieldInit {
    pub name: Ident,
    pub value: Option<Expr>,
    pub span: Span,
}

/// `else if ..` or `else { .. }`.
#[derive(Debug)]
pub enum ElseBranch {
    If(Box<Expr>),
    Block(Block),
}

/// One arm of a `match`.
#[derive(Debug)]
pub struct MatchArm {
    pub pattern: Pattern,
    pub guard: Option<Expr>,
    pub body: Expr,
    pub span: Span,
}

/// A closure parameter, with its annotation if it has one.
#[derive(Debug)]
pub struct ClosureParam {
    pub name: Ident,
    pub ty: Option<Type>,
    pub span: Span,
}

} // verus!
