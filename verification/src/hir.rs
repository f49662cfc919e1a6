//! The typed, resolved program that the checker produces.
//!
//! Nodes live in one table and refer to each other by position; a node is put in
//! after its parts. Every node carries its type, every name its resolution, every
//! call its dispatch, and coercions are nodes of their own.
use vstd::prelude::*;
use std::collections::HashMap;
use crate::ast::{BinaryOp, CastOp, UnaryOp};
use crate::ids::{DefId, LocalId};
use crate::list::{dup, List};
use crate::names::Symbol;
use crate::results::{Adjust, Builtin, CloneKind, NumIntrinsic, ValueRes};
use crate::span::Span;
use crate::ty::Ty;

verus! {

broadcast use vstd::std_specs::hash::group_hash_axioms;

/// The position of a node in the table.
pub type NodeId = u32;

/// A typed expression.
#[derive(Debug)]
pub struct Node {
    pub kind: NodeKind,
    pub ty: Ty,
    pub span: Span,
}

/// The form of a typed expression.
#[derive(Debug)]
pub enum NodeKind {
    Int(u128),
    Float(Symbol),
    Bool(bool),
    Null,
    Char(u32),
    Name(ValueRes),
    Discard,
    Continue,
    /// An expression that did not check.
    Error,
    Tuple(List<NodeId>),
    ListLit(List<NodeId>),
    Unary { op: UnaryOp, operand: NodeId, overload: Option<OpOverload> },
    Binary { op: BinaryOp, left: NodeId, right: NodeId, overload: Option<OpOverload> },
    Cast { op: CastOp, expr: NodeId, target: Ty },
    Ref(NodeId),
    Deref(NodeId),
    TupleIndex { receiver: NodeId, index: u32 },
    Index { receiver: NodeId, index: NodeId },
    Try { expr: NodeId, branch: Option<TryBranch>, conversions: List<Conversion> },
    Await { expr: NodeId, output: Ty },
    Spawn { expr: NodeId, output: Ty },
    Field { receiver: NodeId, field: FieldRef },
    Intrinsic { intrinsic: Intrinsic, args: List<NodeId> },
    Call { kind: CallKind, args: List<NodeId>, callee_span: Span, callee_ty: Ty },
    Return(Option<NodeId>),
    Break(Option<NodeId>),
    If { cond: NodeId, then_block: HirBlock, else_branch: Option<NodeId> },
    Match { scrutinee: NodeId, arms: List<HirArm> },
    Block(HirBlock),
    Loop(HirBlock),
    While { cond: NodeId, body: HirBlock },
    For { pattern: HirPattern, iter: NodeId, body: HirBlock, driver: ForDriver, in_async: bool },
    Closure { params: List<LocalTy>, captures: List<LocalTy>, ret: Ty, is_async: bool, body: NodeId },
    AsyncBlock { output: Ty, params: List<LocalTy>, captures: List<LocalTy>, body: HirBlock },
    Str(List<StrPart>),
    MapLit(List<MapEntry>),
    Struct { def: DefId, type_args: List<Ty>, fields: List<HirFieldInit>, spread: Option<NodeId> },
    /// An implicit coercion of another node.
    Adjust { adjust: Adjust, expr: NodeId },
}

/// A local variable and its type.
#[derive(Clone, Copy, PartialEq, Eq, Structural, Debug)]
pub struct LocalTy {
    pub local: LocalId,
    pub ty: Ty,
}

/// The method that an operator stands for.
#[derive(Debug)]
pub struct OpOverload {
    pub method: DefId,
    pub type_args: List<Ty>,
}

/// The `branch` method that `?` calls on a wrapper type.
#[derive(Debug)]
pub struct TryBranch {
    pub method: DefId,
    pub targs: List<Ty>,
    pub union_ty: Ty,
    pub output: Ty,
    pub residual: Ty,
}

/// A failure variant that `?` converts on the way out.
#[derive(Clone, Copy, PartialEq, Eq, Structural, Debug)]
pub struct Conversion {
    pub from: Ty,
    pub method: DefId,
    pub to: Ty,
}

/// A field and its position.
#[derive(Clone, Copy, PartialEq, Eq, Structural, Debug)]
pub struct FieldRef {
    pub struct_def: DefId,
    pub index: u32,
    pub name: Symbol,
}

/// An operation that the code generator implements itself.
#[derive(Clone, Copy, PartialEq, Eq, Structural, Debug)]
pub enum Intrinsic {
    ChannelNew,
    YieldNow,
    AsyncSleep,
    AsyncTimeout { output: Ty },
    SharedNew,
    ForeignFree,
    ForeignRealloc,
    ForeignAlloc { ty: Ty, zeroed: bool },
    ForeignFlex { ty: Ty, elem: Ty },
    ThreadSpawn { output: Ty },
    ThreadJoin { output: Ty },
    TaskSpawn { output: Ty },
    BlockOn { output: Ty },
    FutureCancel,
    Num(NumIntrinsic),
    CollectionCtor,
    Clone(CloneKind),
}

/// How a call is dispatched.
#[derive(Debug)]
pub enum CallKind {
    Direct { def: DefId, type_args: List<Ty> },
    Extern { def: DefId },
    Builtin(Builtin),
    TupleCtor { def: DefId, type_args: List<Ty> },
    Method { def: DefId, type_args: List<Ty>, recv_static: Option<Ty>, is_static: bool },
    BuiltinMethod { name: Symbol },
    Closure { callee: NodeId },
}

/// What a `for` loop runs over.
#[derive(Debug)]
pub enum ForDriver {
    ListFast { elem: Ty },
    MapEntries { key: Ty, value: Ty, entry: Ty },
    StrChars,
    Iter(ForIter),
    AsyncIter(ForAsyncIter),
}

/// A `for` loop over a type with `next(self): Item<T> | Done`.
#[derive(Debug)]
pub struct ForIter {
    pub elem: Ty,
    pub next: DefId,
    pub next_targs: List<Ty>,
    pub iter_ty: Ty,
    pub item_ty: Ty,
    pub done_ty: Ty,
}

/// A `for await` loop over a type with `next_async`.
#[derive(Debug)]
pub struct ForAsyncIter {
    pub elem: Ty,
    pub next_async: DefId,
    pub next_targs: List<Ty>,
    pub iter_ty: Ty,
    pub item_ty: Ty,
    pub done_ty: Ty,
    pub union_ty: Ty,
}

/// Literal text, or a hole with the `to_str` method that renders it.
#[derive(Debug)]
pub enum StrPart {
    Text(Symbol),
    Interp { expr: NodeId, stringify: Option<DefId>, targs: List<Ty> },
}

/// An entry of a map literal.
#[derive(Clone, Copy, PartialEq, Eq, Structural, Debug)]
pub enum MapEntry {
    Kv { key: NodeId, value: NodeId },
    Spread(NodeId),
}

/// A field of a struct literal.
#[derive(Clone, Copy, PartialEq, Eq, Structural, Debug)]
pub struct HirFieldInit {
    pub index: u32,
    pub name: Symbol,
    pub value: NodeId,
    pub span: Span,
}

/// One arm of a `match`.
#[derive(Debug)]
pub struct HirArm {
    pub pattern: HirPattern,
    pub guard: Option<NodeId>,
    pub body: NodeId,
    pub span: Span,
}

/// A block and the type of its value.
#[derive(Debug)]
pub struct HirBlock {
    pub stmts: List<HirStmt>,
    pub trailing: Option<NodeId>,
    pub ty: Ty,
    pub span: Span,
}

/// A statement.
#[derive(Debug)]
pub struct HirStmt {
    pub kind: HirStmtKind,
    pub span: Span,
}

/// What a statement does.
#[derive(Debug)]
pub enum HirStmtKind {
    Let { pattern: HirPattern, init: NodeId },
    Assign { target: NodeId, value: NodeId },
    Expr(NodeId),
    Item(DefId),
}

/// A resolved pattern.
#[derive(Debug)]
pub struct HirPattern {
    pub kind: HirPatternKind,
    pub ty: Ty,
    pub span: Span,
}

/// The form of a resolved pattern.
#[derive(Debug)]
pub enum HirPatternKind {
    Wildcard,
    Bind(LocalId),
    Literal(NodeId),
    TypeBind { test_ty: Ty, bind: Option<LocalId> },
    UnitPath { def: DefId, test_ty: Ty },
    TupleStruct { def: DefId, fields: List<HirPattern>, rest: Option<HirRest> },
    RecordStruct { def: DefId, fields: List<HirFieldPattern>, has_rest: bool },
    Tuple { elems: List<HirPattern>, rest: Option<HirRestAt> },
    ListPat { elems: List<HirPattern>, rest: Option<HirRestAt> },
    Or(List<HirPattern>),
}

/// A field of a record pattern.
#[derive(Debug)]
pub struct HirFieldPattern {
    pub index: u32,
    pub name: Symbol,
    pub pattern: HirPattern,
    pub span: Span,
}

/// What a rest pattern binds.
#[derive(Clone, Copy, PartialEq, Eq, Structural, Debug)]
pub struct HirRest {
    pub bind: Option<LocalId>,
    pub span: Span,
}

/// A rest pattern and its position.
#[derive(Clone, Copy, PartialEq, Eq, Structural, Debug)]
pub struct HirRestAt {
    pub index: u32,
    pub rest: HirRest,
}

/// A field's name and type.
#[derive(Clone, Copy, PartialEq, Eq, Structural, Debug)]
pub struct FieldTy {
    pub name: Symbol,
    pub ty: Ty,
}

/// The shape of a struct with lowered field types.
#[derive(Debug)]
pub enum StructFields {
    Unit,
    Tuple(List<Ty>),
    Record(List<FieldTy>),
}

/// A copy of a shape.
pub fn dup_fields(f: &StructFields) -> (r: StructFields)
    ensures
        r == *f,
{
    match f {
        StructFields::Unit => StructFields::Unit,
        StructFields::Tuple(l) => StructFields::Tuple(dup(l)),
        StructFields::Record(l) => StructFields::Record(dup(l)),
    }
}

/// A struct and its shape.
#[derive(Debug)]
pub struct StructLayout {
    pub def: DefId,
    pub fields: StructFields,
}

/// The signature of a checked function.
#[derive(Debug)]
pub struct FnSig {
    pub def: DefId,
    pub params: List<LocalTy>,
    pub ret: Ty,
    /// What the future of an `async` function yields.
    pub async_output: Option<Ty>,
}

/// The signature of a C function.
#[derive(Debug)]
pub struct ExternSig {
    pub def: DefId,
    pub params: List<Ty>,
    pub ret: Ty,
}

/// The block through which a type implements an interface.
#[derive(Clone, Copy, PartialEq, Eq, Structural, Debug)]
pub struct IfaceImpl {
    pub target: DefId,
    pub iface: DefId,
    pub block: DefId,
}

/// A local variable's type and where it is declared.
#[derive(Clone, Copy, PartialEq, Eq, Structural, Debug)]
pub struct LocalInfo {
    pub ty: Ty,
    pub decl: Span,
}

/// A checked function, method or test body.
#[derive(Debug)]
pub struct Body {
    pub def: DefId,
    pub params: List<LocalId>,
    /// The locals bound or used in the body, in the order they are met.
    pub locals: List<LocalTy>,
    pub ret: Ty,
    pub async_output: Option<Ty>,
    pub block: HirBlock,
    pub span: Span,
}

/// A span as a key: spans with the same key are the same.
pub open spec fn span_key(s: Span) -> u128 {
    (s.file.0 as u128 * 18446744073709551616 + s.lo.0 as u128 * 4294967296 + s.hi.0 as u128) as u128
}

pub fn key_of_span(s: Span) -> (r: u128)
    ensures
        r == span_key(s),
{
    s.file.0 as u128 * 18446744073709551616 + s.lo.0 as u128 * 4294967296 + s.hi.0 as u128
}

/// Two spans have the same key only if they are the same.
pub proof fn law_span_key_injective(a: Span, b: Span)
    requires
        span_key(a) == span_key(b),
    ensures
        a == b,
{
}

/// Node `n` of the table; a position outside it has none.
pub open spec fn node_of(nodes: Seq<Node>, n: NodeId) -> Option<Node> {
    if n < nodes.len() {
        Some(nodes[n as int])
    } else {
        None
    }
}

/// The node last recorded for `span`.
pub open spec fn node_at(nodes: Seq<Node>, at: Map<u128, NodeId>, span: Span) -> Option<Node> {
    if at.contains_key(span_key(span)) {
        node_of(nodes, at[span_key(span)])
    } else {
        None
    }
}

/// The type checked at `span`, before any coercion of the value.
pub open spec fn checked_ty(nodes: Seq<Node>, at: Map<u128, NodeId>, span: Span) -> Option<Ty> {
    match node_at(nodes, at, span) {
        Some(n) => match n.kind {
            NodeKind::Adjust { expr, .. } => match node_of(nodes, expr) {
                Some(x) => Some(x.ty),
                None => None,
            },
            _ => Some(n.ty),
        },
        None => None,
    }
}

/// What the name at `span` resolved to.
pub open spec fn name_at(nodes: Seq<Node>, at: Map<u128, NodeId>, span: Span) -> Option<ValueRes> {
    match node_at(nodes, at, span) {
        Some(n) => match n.kind {
            NodeKind::Name(res) => Some(res),
            NodeKind::Adjust { expr, .. } => match node_of(nodes, expr) {
                Some(x) => match x.kind {
                    NodeKind::Name(res) => Some(res),
                    _ => None,
                },
                None => None,
            },
            _ => None,
        },
        None => None,
    }
}

/// The nodes of a program and the spans they were recorded for.
#[derive(Debug)]
pub struct NodeTable {
    pub nodes: Vec<Node>,
    pub at: HashMap<u128, NodeId>,
}

impl NodeTable {
    pub fn new() -> (r: NodeTable)
        ensures
            r.nodes@ == Seq::<Node>::empty(),
            r.at@ == Map::<u128, NodeId>::empty(),
    {
        NodeTable { nodes: Vec::new(), at: HashMap::new() }
    }

    /// Adds a node.
    pub fn add(&mut self, n: Node) -> (r: NodeId)
        ensures
            final(self).nodes@ == old(self).nodes@.push(n),
            final(self).at@ == old(self).at@,
            r == (old(self).nodes@.len() as usize) as u32,
    {
        let id: u32 = self.nodes.len() as u32;
        self.nodes.push(n);
        id
    }

    /// Records node `n` for `span`.
    pub fn put(&mut self, span: Span, n: NodeId)
        ensures
            final(self).nodes@ == old(self).nodes@,
            final(self).at@ == old(self).at@.insert(span_key(span), n),
    {
        self.at.insert(key_of_span(span), n);
    }

    pub fn id_at(&self, span: Span) -> (r: Option<NodeId>)
        ensures
            r == (if self.at@.contains_key(span_key(span)) {
                Some(self.at@[span_key(span)])
            } else {
                None
            }),
    {
        match self.at.get(&key_of_span(span)) {
            Some(n) => Some(*n),
            None => None,
        }
    }

    pub fn get(&self, n: NodeId) -> (r: Option<&Node>)
        ensures
            match r {
                Some(x) => node_of(self.nodes@, n) == Some(*x),
                None => node_of(self.nodes@, n) is None,
            },
    {
        let i: usize = n as usize;
        if i < self.nodes.len() {
            Some(&self.nodes[i])
        } else {
            None
        }
    }

    pub fn expr_ty(&self, span: Span) -> (r: Option<Ty>)
        ensures
            r == checked_ty(self.nodes@, self.at@, span),
    {
        match self.id_at(span) {
            Some(id) => match self.get(id) {
                Some(n) => match n.kind {
                    NodeKind::Adjust { expr, .. } => match self.get(expr) {
                        Some(x) => Some(x.ty),
                        None => None,
                    },
                    _ => Some(n.ty),
                },
                None => None,
            },
            None => None,
        }
    }

    pub fn resolution(&self, span: Span) -> (r: Option<ValueRes>)
        ensures
            r == name_at(self.nodes@, self.at@, span),
    {
        match self.id_at(span) {
            Some(id) => match self.get(id) {
                Some(n) => match n.kind {
                    NodeKind::Name(res) => Some(res),
                    NodeKind::Adjust { expr, .. } => match self.get(expr) {
                        Some(x) => match x.kind {
                            NodeKind::Name(res) => Some(res),
                            _ => None,
                        },
                        None => None,
                    },
                    _ => None,
                },
                None => None,
            },
            None => None,
        }
    }
}

/// The whole typed program.
#[derive(Debug)]
pub struct Hir {
    pub structs: List<StructLayout>,
    /// The signatures of checked functions, the last checked first.
    pub fn_sigs: List<FnSig>,
    pub extern_sigs: List<ExternSig>,
    pub iface_impls: List<IfaceImpl>,
    /// The libraries to link against.
    pub link_libs: List<Symbol>,
    /// Every local variable; its id is its position.
    pub locals: Vec<LocalInfo>,
    pub table: NodeTable,
    /// The bodies in the order of their definitions.
    pub bodies: List<Body>,
}

impl Hir {
    /// The type checked at `span`, before any coercion of the value.
    pub fn expr_ty(&self, span: Span) -> (r: Option<Ty>)
        ensures
            r == checked_ty(self.table.nodes@, self.table.at@, span),
    {
        self.table.expr_ty(span)
    }

    /// What the name at `span` resolved to.
    pub fn resolution(&self, span: Span) -> (r: Option<ValueRes>)
        ensures
            r == name_at(self.table.nodes@, self.table.at@, span),
    {
        self.table.resolution(span)
    }
}

} // verus!
