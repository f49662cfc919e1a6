//! The typed nodes that checked expressions leave behind.
use vstd::prelude::*;
use crate::ast::{
    Block, ElseBranch, Expr, ExprKind, FieldInit, FieldPattern, MapItem, MatchArm, Pattern, PatternKind, RestAt,
    RestPattern, Stmt, StmtKind, StringPart, TypePath,
};
use crate::check::{take_opt, Ck, Cx, Flex, Hole};
use crate::hir::{
    CallKind, FieldRef, FieldTy, ForDriver, HirArm, HirBlock, HirFieldInit, HirFieldPattern, HirPattern, HirPatternKind,
    HirRest, HirRestAt, HirStmt, HirStmtKind, Intrinsic, MapEntry, NodeId, NodeKind, StrPart, StructFields,
    StructLayout,
};
use crate::ids::{DefId, LocalId};
use crate::list::{dup, List};
use crate::names::Symbol;
use crate::results::{CloneKind, ValueRes};
use crate::span::Span;
use crate::symbols::DefKind;
use crate::ty::{Ty, TyKind, ERROR_TY, NULL_TY};
use crate::words::{
    ALLOC, ALLOC_ZEROED, BLOCK_ON, CANCEL, CHANNEL, FREE, JOIN, NEW, REALLOC, SLEEP, SPAWN, TIMEOUT, T_FOREIGN, T_FUTURE,
    T_LIST, T_MAP, T_RECEIVER, T_SENDER, T_SHARED, T_TASK, T_THREAD, YIELD_NOW,
};

verus! {

broadcast use {crate::check::law_grows_reflexive, crate::check::law_grows_transitive};

/// The form of what is called.
#[derive(Clone, Copy, PartialEq, Eq, Structural, Debug)]
pub enum Callee {
    /// `name(..)`.
    Name(Symbol),
    /// `recv.name(..)`; `recv` if it is a plain name.
    Member { recv: Option<Symbol>, name: Symbol },
    Other,
}

/// What an intrinsic is applied to.
#[derive(Clone, Copy, PartialEq, Eq, Structural, Debug)]
pub enum Operands {
    /// The first so many arguments.
    First(usize),
    /// What the method is called on.
    Receiver,
}

/// The expression inside any parentheses.
pub open spec fn inside(e: Expr) -> Expr
    decreases e,
{
    match e.kind {
        ExprKind::Paren(inner) => inside(*inner),
        _ => e,
    }
}

/// The expression inside any parentheses.
pub fn bare(e: &Expr) -> (r: &Expr)
    ensures
        *r == inside(*e),
    decreases e,
{
    match &e.kind {
        ExprKind::Paren(inner) => bare(&**inner),
        _ => e,
    }
}

pub open spec fn callee_shape(callee: Expr) -> Callee {
    match callee.kind {
        ExprKind::Ident(n) => Callee::Name(n.name),
        ExprKind::Field { receiver, name } => match receiver.kind {
            ExprKind::Ident(r) => Callee::Member { recv: Some(r.name), name: name.name },
            _ => Callee::Member { recv: None, name: name.name },
        },
        _ => Callee::Other,
    }
}

pub fn shape_of(callee: &Expr) -> (r: Callee)
    ensures
        r == callee_shape(*callee),
{
    match &callee.kind {
        ExprKind::Ident(n) => Callee::Name(n.name),
        ExprKind::Field { receiver, name } => match &receiver.kind {
            ExprKind::Ident(r) => Callee::Member { recv: Some(r.name), name: name.name },
            _ => Callee::Member { recv: None, name: name.name },
        },
        _ => Callee::Other,
    }
}

/// The position of a field, the first one if there is none of that name.
pub open spec fn field_position(fs: List<FieldTy>, name: Symbol, i: u32) -> u32
    decreases fs,
{
    match fs {
        List::Nil => 0,
        List::Cons(h, t) => if h.name == name {
            i
        } else {
            field_position(*t, name, i.wrapping_add(1))
        },
    }
}

/// The position of a field, the first one if there is none of that name.
pub fn position(fs: &List<FieldTy>, name: Symbol, i: u32) -> (r: u32)
    ensures
        r == field_position(*fs, name, i),
    decreases fs,
{
    match fs {
        List::Nil => 0,
        List::Cons(h, t) => if h.name == name {
            i
        } else {
            position(&**t, name, i.wrapping_add(1))
        },
    }
}

/// The position of field `name` if `def` is a record struct.
pub open spec fn record_position(l: List<StructLayout>, def: DefId, name: Symbol) -> Option<u32>
    decreases l,
{
    match l {
        List::Nil => None,
        List::Cons(h, t) => if h.def == def {
            match h.fields {
                StructFields::Record(fs) => Some(field_position(fs, name, 0)),
                _ => None,
            }
        } else {
            record_position(*t, def, name)
        },
    }
}

/// The position of field `name` if `def` is a record struct.
pub fn position_in(l: &List<StructLayout>, def: DefId, name: Symbol) -> (r: Option<u32>)
    ensures
        r == record_position(*l, def, name),
    decreases l,
{
    match l {
        List::Nil => None,
        List::Cons(h, t) => if h.def == def {
            match &h.fields {
                StructFields::Record(fs) => Some(position(fs, name, 0)),
                _ => None,
            }
        } else {
            position_in(&**t, def, name)
        },
    }
}

impl Ck {
    /// The node of an expression that was checked.
    #[verifier::opaque]
    pub open spec fn hir_child(self, e: Expr) -> Option<NodeId> {
        self.node_id(inside(e).span)
    }

    /// The node of an expression, an error node if it has none.
    #[verifier::opaque]
    pub open spec fn child_or_error(self, e: Expr) -> (Ck, NodeId) {
        match self.hir_child(e) {
            Some(n) => (self, n),
            None => self.add_node(NodeKind::Error, ERROR_TY, inside(e).span),
        }
    }

    /// The nodes of the first `n` of `l`.
    #[verifier::opaque]
    pub open spec fn hir_children(self, l: List<Expr>, n: usize) -> Option<List<NodeId>>
        decreases l,
    {
        match l {
            List::Nil => Some(List::Nil),
            List::Cons(h, t) => if n == 0 {
                Some(List::Nil)
            } else {
                match (self.hir_child(*h), self.hir_children(*t, n.wrapping_sub(1))) {
                    (Some(x), Some(rest)) => Some(List::Cons(Box::new(x), Box::new(rest))),
                    _ => None,
                }
            },
        }
    }

    /// The local bound at `span`.
    #[verifier::opaque]
    pub open spec fn local_at(self, span: Span) -> LocalId {
        match self.resolution(span) {
            Some(ValueRes::Local(id)) => id,
            _ => LocalId(u32::MAX),
        }
    }

    #[verifier::opaque]
    pub open spec fn path_def(self, path: TypePath) -> DefId {
        match self.p.type_named(self.cur_module, path.name.name) {
            Some(d) => d,
            None => DefId(0),
        }
    }

    #[verifier::opaque]
    pub open spec fn field_index(self, def: DefId, name: Symbol) -> u32 {
        match record_position(self.structs, def, name) {
            Some(i) => i,
            None => self.numeric_name(name),
        }
    }

    #[verifier::opaque]
    pub open spec fn field_ref(self, recv_ty: Ty, name: Symbol) -> FieldRef {
        let def = match self.named_def(recv_ty) {
            Some(d) => d,
            None => DefId(0),
        };
        FieldRef { struct_def: def, index: self.field_index(def, name), name }
    }

    #[verifier::opaque]
    pub open spec fn build_rest(self, rest: RestPattern) -> HirRest {
        HirRest {
            bind: match rest.name { Some(n) => { Some(self.local_at(n.span)) }, None => { None }, },
            span: rest.span,
        }
    }

    #[verifier::opaque]
    pub open spec fn build_rest_at(self, rest: Option<RestAt>) -> Option<HirRestAt> {
        match rest {
            Some(x) => Some(HirRestAt { index: x.index, rest: self.build_rest(x.rest) }),
            None => None,
        }
    }

    /// The resolved form of a pattern whose names are bound.
    pub open spec fn build_pattern(self, p: Pattern) -> (Ck, HirPattern)
        decreases p, 1int,
    {
        let (s1, (kind, ty)) = match p.kind {
            PatternKind::Wildcard => (self, (HirPatternKind::Wildcard, ERROR_TY)),
            PatternKind::Binding(id) => (self, (HirPatternKind::Bind(self.local_at(id.span)), ERROR_TY)),
            PatternKind::Literal(e) => {
                let (s2, n) = self.child_or_error(*e);
                (s2, (HirPatternKind::Literal(n), s2.node_ty(n)))
            },
            PatternKind::TypeBinding { ty, binding } => {
                let env = self.env();
                let (s3, test_ty) = self.lower(ty, env);
                let bind = match binding {
                    Some(i) => Some(s3.local_at(i.span)),
                    None => None,
                };
                (s3, (HirPatternKind::TypeBind { test_ty, bind }, test_ty))
            },
            PatternKind::UnitPath(path) => {
                let def = self.path_def(path);
                let (s4, test_ty) = self.mk_named(def, List::Nil);
                (s4, (HirPatternKind::UnitPath { def, test_ty }, test_ty))
            },
            PatternKind::TupleStruct { path, fields, rest } => {
                let def = self.path_def(path);
                let (s5, fs) = self.build_patterns(fields);
                let r = match rest {
                    Some(x) => Some(s5.build_rest(x)),
                    None => None,
                };
                (s5, (HirPatternKind::TupleStruct { def, fields: fs, rest: r }, ERROR_TY))
            },
            PatternKind::RecordStruct { path, fields, has_rest } => {
                let def = self.path_def(path);
                let (s6, fs) = self.build_field_patterns(def, fields);
                (s6, (HirPatternKind::RecordStruct { def, fields: fs, has_rest }, ERROR_TY))
            },
            PatternKind::Tuple { elems, rest } => {
                let (s7, es) = self.build_patterns(elems);
                (s7, (HirPatternKind::Tuple { elems: es, rest: s7.build_rest_at(rest) }, ERROR_TY))
            },
            PatternKind::List { elems, rest } => {
                let (s8, es) = self.build_patterns(elems);
                (s8, (HirPatternKind::ListPat { elems: es, rest: s8.build_rest_at(rest) }, ERROR_TY))
            },
            PatternKind::Or(ps) => {
                let (s9, es) = self.build_patterns(ps);
                (s9, (HirPatternKind::Or(es), ERROR_TY))
            },
        };
        (s1, HirPattern { kind, ty, span: p.span })
    }

    pub open spec fn build_patterns(self, l: List<Pattern>) -> (Ck, List<HirPattern>)
        decreases l, 1int,
    {
        match l {
            List::Nil => (self, List::Nil),
            List::Cons(h, t) => {
                let (s1, p) = self.build_pattern(*h);
                let (s2, rest) = s1.build_patterns(*t);
                (s2, List::Cons(Box::new(p), Box::new(rest)))
            },
        }
    }

    pub open spec fn build_field_patterns(self, def: DefId, l: List<FieldPattern>) -> (Ck, List<HirFieldPattern>)
        decreases l, 1int,
    {
        match l {
            List::Nil => (self, List::Nil),
            List::Cons(f, t) => {
                let (s1, pattern) = match f.pattern {
                    Some(p) => self.build_pattern(p),
                    None => (
                        self,
                        HirPattern {
                            kind: HirPatternKind::Bind(self.local_at(f.name.span)),
                            ty: self.ty_at(f.name.span),
                            span: f.name.span,
                        },
                    ),
                };
                let index = s1.field_index(def, f.name.name);
                let h = HirFieldPattern { index, name: f.name.name, pattern, span: f.span };
                let (s2, rest) = s1.build_field_patterns(def, *t);
                (s2, List::Cons(Box::new(h), Box::new(rest)))
            },
        }
    }

    /// A statement; a nested item that declares nothing has none.
    #[verifier::opaque]
    pub open spec fn build_stmt(self, s: Stmt) -> (Ck, Option<HirStmt>) {
        match s.kind {
            StmtKind::Var(lv) => {
                let (s1, pattern) = self.build_pattern(lv.pattern);
                let (s2, init) = s1.child_or_error(lv.init);
                (s2, Some(HirStmt { kind: HirStmtKind::Let { pattern, init }, span: s.span }))
            },
            StmtKind::Assign { target, value } => {
                let (s3, t) = self.child_or_error(target);
                let (s4, v) = s3.child_or_error(value);
                (s4, Some(HirStmt { kind: HirStmtKind::Assign { target: t, value: v }, span: s.span }))
            },
            StmtKind::Expr(e) => {
                let (s5, n) = self.child_or_error(e);
                (s5, Some(HirStmt { kind: HirStmtKind::Expr(n), span: s.span }))
            },
            StmtKind::Item(item) => (self, match self.p.at_span(item.span) {
                Some(d) => Some(HirStmt { kind: HirStmtKind::Item(d), span: s.span }),
                None => None,
            }),
        }
    }

    #[verifier::opaque]
    pub open spec fn build_stmts(self, l: List<Stmt>) -> (Ck, List<HirStmt>)
        decreases l,
    {
        match l {
            List::Nil => (self, List::Nil),
            List::Cons(h, t) => {
                let (s1, s) = self.build_stmt(*h);
                let (s2, rest) = s1.build_stmts(*t);
                (s2, match s {
                    Some(x) => List::Cons(Box::new(x), Box::new(rest)),
                    None => rest,
                })
            },
        }
    }

    /// The block of a checked body. Whatever did not check is an error node, so
    /// every body has one.
    #[verifier::opaque]
    pub open spec fn build_block(self, b: Block) -> (Ck, HirBlock) {
        let (s1, stmts) = self.build_stmts(b.stmts);
        match b.trailing {
            Some(e) => {
                let (s2, n) = s1.child_or_error(*e);
                (s2, HirBlock { stmts, trailing: Some(n), ty: s2.ty_at(e.span), span: b.span })
            },
            None => (s1, HirBlock { stmts, trailing: None, ty: NULL_TY, span: b.span }),
        }
    }

    #[verifier::opaque]
    pub open spec fn build_else(self, e: Option<ElseBranch>) -> (Ck, Option<NodeId>) {
        match e {
            None => (self, None),
            Some(ElseBranch::Block(b)) => {
                let (s1, block) = self.build_block(b);
                let ty = block.ty;
                let (s2, n) = s1.add_node(NodeKind::Block(block), ty, b.span);
                (s2, Some(n))
            },
            Some(ElseBranch::If(x)) => {
                let (s3, n) = self.child_or_error(*x);
                (s3, Some(n))
            },
        }
    }

    #[verifier::opaque]
    pub open spec fn guard_node(self, g: Option<Expr>) -> Option<Option<NodeId>> {
        match g {
            Some(x) => match self.hir_child(x) {
                Some(n) => Some(Some(n)),
                None => None,
            },
            None => Some(None),
        }
    }

    #[verifier::opaque]
    pub open spec fn build_arms(self, l: List<MatchArm>) -> (Ck, Option<List<HirArm>>)
        decreases l,
    {
        match l {
            List::Nil => (self, Some(List::Nil)),
            List::Cons(a, t) => {
                let (a, t) = (*a, *t);
                let (s1, pattern) = self.build_pattern(a.pattern);
                match s1.guard_node(a.guard) {
                    Some(n) => {
                        let guard = n;
                        match s1.hir_child(a.body) {
                            Some(n) => {
                                let body = n;
                                let (s2, rest) = s1.build_arms(t);
                                (s2, match rest {
                                    Some(r) => Some(
                                        List::Cons(
                                            Box::new(HirArm { pattern, guard, body, span: a.span }),
                                            Box::new(r),
                                        ),
                                    ),
                                    None => None,
                                })
                            },
                            None => (s1, None),
                        }
                    },
                    None => (s1, None),
                }
            },
        }
    }

    /// Records the node of a checked expression of type `ty`, if all its parts
    /// have one.
    #[verifier::opaque]
    pub open spec fn build_node(self, e: Expr, ty: Ty) -> (Ck, Option<NodeId>) {
        match e.kind {
            ExprKind::Paren(inner) => (self, self.hir_child(*inner)),
            ExprKind::Ident(_) | ExprKind::SelfExpr => match self.resolution(e.span) {
                Some(res) => {
                    let (s1, n) = self.name_node(res, ty, e.span);
                    (s1, Some(n))
                },
                None => (self, None),
            },
            _ => {
                let (s2, kind) = self.node_kind(e, ty);
                match kind {
                    Some(k) => {
                        let (s3, n) = s2.add_node(k, ty, e.span);
                        (s3, Some(n))
                    },
                    None => (s2, None),
                }
            },
        }
    }

    #[verifier::opaque]
    pub open spec fn node_kind(self, e: Expr, ty: Ty) -> (Ck, Option<NodeKind>) {
        match e.kind {
            ExprKind::Int(lit) => {
                let v = match self.literal(lit, u128::MAX) {
                    Some(x) => x,
                    None => 0,
                };
                (self, Some(NodeKind::Int(v)))
            },
            ExprKind::Float(lit) => (self, Some(NodeKind::Float(lit.raw))),
            ExprKind::Bool(b) => (self, Some(NodeKind::Bool(b))),
            ExprKind::Null => (self, Some(NodeKind::Null)),
            ExprKind::Char(c) => (self, Some(NodeKind::Char(self.char_value(c.raw)))),
            ExprKind::Underscore => (self, Some(NodeKind::Discard)),
            ExprKind::Continue => (self, Some(NodeKind::Continue)),
            ExprKind::AnonFn(_) => (self, Some(NodeKind::Error)),
            ExprKind::MacroCall { .. } => (self, Some(NodeKind::Error)),
            ExprKind::Call { .. } => self.call_kind(e, ty),
            ExprKind::Tuple(_)
            | ExprKind::List(_)
            | ExprKind::Str(_)
            | ExprKind::MapLit(_)
            | ExprKind::StructLit { .. }
            | ExprKind::Field { .. } => self.data_kind(e, ty),
            ExprKind::If { .. }
            | ExprKind::Match { .. }
            | ExprKind::Block(_)
            | ExprKind::Loop(_)
            | ExprKind::While { .. }
            | ExprKind::For { .. }
            | ExprKind::Closure { .. }
            | ExprKind::AsyncBlock(_) => self.control_kind(e),
            _ => self.operand_kind(e, ty),
        }
    }

    #[verifier::opaque]
    pub open spec fn one_operand(self, e: Option<Box<Expr>>) -> Option<Option<NodeId>> {
        match e {
            Some(x) => match self.hir_child(*x) {
                Some(n) => Some(Some(n)),
                None => None,
            },
            None => Some(None),
        }
    }

    /// Operators and the forms with one part.
    #[verifier::opaque]
    pub open spec fn operand_kind(self, e: Expr, ty: Ty) -> (Ck, Option<NodeKind>) {
        match e.kind {
            ExprKind::Unary { op, operand, .. } => match self.hir_child(*operand) {
                Some(n) => {
                    let (s1, overload) = (Ck { p_overload: None, ..self }, self.p_overload);
                    (s1, Some(NodeKind::Unary { op, operand: n, overload }))
                },
                None => (self, None),
            },
            ExprKind::Binary { op, left, right, .. } => match (self.hir_child(*left), self.hir_child(*right)) {
                (Some(l), Some(r)) => {
                    let (s2, overload) = (Ck { p_overload: None, ..self }, self.p_overload);
                    (s2, Some(NodeKind::Binary { op, left: l, right: r, overload }))
                },
                _ => (self, None),
            },
            ExprKind::Cast { op, expr, .. } => match self.hir_child(*expr) {
                Some(n) => {
                    let (s3, target) = (Ck { p_cast: None, ..self }, self.p_cast);
                    let to = match target {
                        Some(t) => t,
                        None => ty,
                    };
                    (s3, Some(NodeKind::Cast { op, expr: n, target: to }))
                },
                None => (self, None),
            },
            ExprKind::Ref { expr, .. } => (self, match self.hir_child(*expr) {
                Some(n) => Some(NodeKind::Ref(n)),
                None => None,
            }),
            ExprKind::Deref { expr, .. } => (self, match self.hir_child(*expr) {
                Some(n) => Some(NodeKind::Deref(n)),
                None => None,
            }),
            ExprKind::TupleIndex { receiver, index, .. } => (self, match self.hir_child(*receiver) {
                Some(n) => Some(NodeKind::TupleIndex { receiver: n, index }),
                None => None,
            }),
            ExprKind::Index { receiver, index } => (self, match (self.hir_child(*receiver), self.hir_child(*index)) {
                (Some(r), Some(i)) => Some(NodeKind::Index { receiver: r, index: i }),
                _ => None,
            }),
            ExprKind::Try { expr, .. } => match self.hir_child(*expr) {
                Some(n) => {
                    let (s4, branch) = (Ck { p_try: None, ..self }, self.p_try);
                    let (s5, residuals) = (Ck { p_residuals: None, ..s4 }, s4.p_residuals);
                    let conversions = match residuals {
                        Some(l) => l,
                        None => List::Nil,
                    };
                    (s5, Some(NodeKind::Try { expr: n, branch, conversions }))
                },
                None => (self, None),
            },
            ExprKind::Await { expr, .. } => match self.hir_child(*expr) {
                Some(n) => {
                    let (s6, output) = (Ck { p_await: None, ..self }, self.p_await);
                    (s6, match output {
                        Some(t) => Some(NodeKind::Await { expr: n, output: t }),
                        None => None,
                    })
                },
                None => (self, None),
            },
            ExprKind::Spawn { expr, .. } => match self.hir_child(*expr) {
                Some(n) => {
                    let (s7, output) = (Ck { p_spawn: None, ..self }, self.p_spawn);
                    (s7, match output {
                        Some(t) => Some(NodeKind::Spawn { expr: n, output: t }),
                        None => None,
                    })
                },
                None => (self, None),
            },
            ExprKind::Return(v) => (self, match self.one_operand(v) {
                Some(n) => Some(NodeKind::Return(n)),
                None => None,
            }),
            ExprKind::Break(v) => (self, match self.one_operand(v) {
                Some(n) => Some(NodeKind::Break(n)),
                None => None,
            }),
            _ => (self, Some(NodeKind::Error)),
        }
    }

    /// Branches, loops and closures.
    #[verifier::opaque]
    pub open spec fn control_kind(self, e: Expr) -> (Ck, Option<NodeKind>) {
        match e.kind {
            ExprKind::If { cond, then_block, else_branch } => match self.hir_child(*cond) {
                Some(c) => {
                    let (s1, t) = self.build_block(then_block);
                    let (s2, f) = s1.build_else(else_branch);
                    (s2, Some(NodeKind::If { cond: c, then_block: t, else_branch: f }))
                },
                None => (self, None),
            },
            ExprKind::Match { scrutinee, arms } => {
                let (s3, built) = self.build_arms(arms);
                (s3, match (built, s3.hir_child(*scrutinee)) {
                    (Some(l), Some(n)) => Some(NodeKind::Match { scrutinee: n, arms: l }),
                    _ => None,
                })
            },
            ExprKind::Block(b) => {
                let (s4, block) = self.build_block(b);
                (s4, Some(NodeKind::Block(block)))
            },
            ExprKind::Loop(b) => {
                let (s5, block) = self.build_block(b);
                (s5, Some(NodeKind::Loop(block)))
            },
            ExprKind::While { cond, body } => match self.hir_child(*cond) {
                Some(c) => {
                    let (s6, block) = self.build_block(body);
                    (s6, Some(NodeKind::While { cond: c, body: block }))
                },
                None => (self, None),
            },
            ExprKind::For { pattern, in_async, iter, body } => {
                let (s7, pat) = self.build_pattern(pattern);
                match s7.hir_child(*iter) {
                    Some(n) => {
                        let (s8, block) = s7.build_block(body);
                        let (s9, driver) = s8.build_for_driver(*iter);
                        (s9, Some(NodeKind::For { pattern: pat, iter: n, body: block, driver, in_async }))
                    },
                    None => (s7, None),
                }
            },
            ExprKind::Closure { is_async, body, .. } => match self.hir_child(*body) {
                Some(n) => self.closure_kind(is_async, n),
                None => (self, None),
            },
            ExprKind::AsyncBlock(b) => {
                let (s10, body) = self.build_block(b);
                let (s11, info) = (Ck { p_async: None, ..s10 }, s10.p_async);
                (s11, match info {
                    Some(i) => Some(
                        NodeKind::AsyncBlock { output: i.output, params: i.params, captures: i.captures, body },
                    ),
                    None => Some(NodeKind::Error),
                })
            },
            _ => (self, Some(NodeKind::Error)),
        }
    }

    #[verifier::opaque]
    pub open spec fn closure_kind(self, is_async: bool, body: NodeId) -> (Ck, Option<NodeKind>) {
        if is_async {
            let (s1, info) = (Ck { p_async: None, ..self }, self.p_async);
            (s1, match info {
                Some(i) => Some(
                    NodeKind::Closure { params: i.params, captures: i.captures, ret: i.output, is_async, body },
                ),
                None => Some(NodeKind::Error),
            })
        } else {
            let (s2, info) = (Ck { p_closure: None, ..self }, self.p_closure);
            (s2, match info {
                Some(i) => Some(
                    NodeKind::Closure { params: i.params, captures: i.captures, ret: i.ret, is_async, body },
                ),
                None => Some(NodeKind::Error),
            })
        }
    }

    #[verifier::opaque]
    pub open spec fn build_for_driver(self, iter: Expr) -> (Ck, ForDriver) {
        let (s1, driver) = (Ck { p_driver: None, ..self }, self.p_driver);
        (s1, match driver {
            Some(d) => d,
            None => {
                let ty = s1.ty_at(iter.span);
                let elem = if s1.named_def(ty) == Some(s1.p.well_known(T_LIST)) {
                    s1.first_arg(ty)
                } else {
                    ERROR_TY
                };
                ForDriver::ListFast { elem }
            },
        })
    }

    #[verifier::opaque]
    pub open spec fn build_map_entries(self, l: List<MapItem>) -> Option<List<MapEntry>>
        decreases l,
    {
        match l {
            List::Nil => Some(List::Nil),
            List::Cons(h, t) => {
                let entry = match *h {
                    MapItem::Entry { key, value, .. } => match (self.hir_child(*key), self.hir_child(*value)) {
                        (Some(k), Some(v)) => Some(MapEntry::Kv { key: k, value: v }),
                        _ => None,
                    },
                    MapItem::Spread(base) => match self.hir_child(*base) {
                        Some(n) => Some(MapEntry::Spread(n)),
                        None => None,
                    },
                };
                match (entry, self.build_map_entries(*t)) {
                    (Some(x), Some(rest)) => Some(List::Cons(Box::new(x), Box::new(rest))),
                    _ => None,
                }
            },
        }
    }

    /// The parts of a string literal; `holes` says how each hole is rendered.
    #[verifier::opaque]
    pub open spec fn build_str_parts(self, l: List<StringPart>, holes: List<Hole>) -> (Ck, Option<List<StrPart>>)
        decreases l,
    {
        match l {
            List::Nil => (self, Some(List::Nil)),
            List::Cons(p, t) => {
                let (p, t) = (*p, *t);
                match p {
                    StringPart::Text { text, .. } => {
                        let (s1, more) = self.build_str_parts(t, holes);
                        (s1, match more {
                            Some(r) => Some(List::Cons(Box::new(StrPart::Text(text)), Box::new(r))),
                            None => None,
                        })
                    },
                    _ => {
                        let (s2, expr) = self.part_node(p);
                        match expr {
                            Some(n) => {
                                let node = n;
                                let (part, left) = match holes {
                                    List::Cons(h, r) => {
                                        let hole = *h;
                                        (
                                            StrPart::Interp {
                                                expr: node,
                                                stringify: hole.method,
                                                targs: hole.targs,
                                            },
                                            *r,
                                        )
                                    },
                                    List::Nil => (
                                        StrPart::Interp { expr: node, stringify: None, targs: List::Nil },
                                        List::Nil,
                                    ),
                                };
                                let (s3, rest) = s2.build_str_parts(t, left);
                                (s3, match rest {
                                    Some(r) => Some(List::Cons(Box::new(part), Box::new(r))),
                                    None => None,
                                })
                            },
                            None => (s2, None),
                        }
                    },
                }
            },
        }
    }

    #[verifier::opaque]
    pub open spec fn part_node(self, p: StringPart) -> (Ck, Option<NodeId>) {
        match p {
            StringPart::Text { .. } => (self, None),
            StringPart::Ident(id) => self.build_ident_hole(id.span),
            StringPart::Expr(e) => (self, self.hir_child(e)),
        }
    }

    #[verifier::opaque]
    pub open spec fn build_ident_hole(self, span: Span) -> (Ck, Option<NodeId>) {
        match (self.resolution(span), self.expr_ty(span)) {
            (Some(res), Some(ty)) => {
                let (s1, n) = self.name_node(res, ty, span);
                (s1, Some(n))
            },
            _ => (self, None),
        }
    }

    #[verifier::opaque]
    pub open spec fn build_field_inits(self, def: DefId, l: List<FieldInit>) -> Option<List<HirFieldInit>>
        decreases l,
    {
        match l {
            List::Nil => Some(List::Nil),
            List::Cons(f, t) => {
                let value = match f.value {
                    Some(e) => self.hir_child(e),
                    None => self.node_id(f.name.span),
                };
                match (value, self.build_field_inits(def, *t)) {
                    (Some(v), Some(rest)) => {
                        let index = self.field_index(def, f.name.name);
                        Some(
                            List::Cons(
                                Box::new(HirFieldInit { index, name: f.name.name, value: v, span: f.span }),
                                Box::new(rest),
                            ),
                        )
                    },
                    _ => None,
                }
            },
        }
    }

    /// A constant of a numeric type's namespace, such as `i32.MAX`.
    #[verifier::opaque]
    pub open spec fn namespace_constant(self, receiver: Expr, name: Symbol) -> Option<Intrinsic> {
        match receiver.kind {
            ExprKind::Ident(recv) => if self.resolution(receiver.span) is None {
                match self.num_constant(recv.name, name) {
                    Some(i) => Some(Intrinsic::Num(i)),
                    None => None,
                }
            } else {
                None
            },
            _ => None,
        }
    }

    /// Literals of aggregates, and fields.
    #[verifier::opaque]
    pub open spec fn data_kind(self, e: Expr, ty: Ty) -> (Ck, Option<NodeKind>) {
        match e.kind {
            ExprKind::Tuple(elems) => (self, match self.hir_children(elems, usize::MAX) {
                Some(l) => Some(NodeKind::Tuple(l)),
                None => None,
            }),
            ExprKind::List(elems) => (self, match self.hir_children(elems, usize::MAX) {
                Some(l) => Some(NodeKind::ListLit(l)),
                None => None,
            }),
            ExprKind::Str(s) => {
                let (s1, pending) = (Ck { p_holes: None, ..self }, self.p_holes);
                let holes = match pending {
                    Some(l) => l,
                    None => List::Nil,
                };
                let (s2, parts) = s1.build_str_parts(s.parts, holes);
                (s2, match parts {
                    Some(l) => Some(NodeKind::Str(l)),
                    None => None,
                })
            },
            ExprKind::MapLit(items) => (self, match self.build_map_entries(items) {
                Some(l) => Some(NodeKind::MapLit(l)),
                None => None,
            }),
            ExprKind::StructLit { fields, spread, .. } => {
                let (def, type_args) = match self.kind(ty) {
                    TyKind::Named { def, args } => (def, args),
                    _ => (DefId(0), List::Nil),
                };
                (self, match (self.build_field_inits(def, fields), self.one_operand(spread)) {
                    (Some(fs), Some(sp)) => Some(NodeKind::Struct { def, type_args, fields: fs, spread: sp }),
                    _ => None,
                })
            },
            ExprKind::Field { receiver, name } => (self, match self.namespace_constant(*receiver, name.name) {
                Some(intrinsic) => Some(NodeKind::Intrinsic { intrinsic, args: List::Nil }),
                None => match (self.expr_ty(receiver.span), self.hir_child(*receiver)) {
                    (Some(rty), Some(n)) => Some(
                        NodeKind::Field { receiver: n, field: self.field_ref(rty, name.name) },
                    ),
                    _ => None,
                },
            }),
            _ => (self, Some(NodeKind::Error)),
        }
    }

    #[verifier::opaque]
    pub open spec fn call_kind(self, e: Expr, ty: Ty) -> (Ck, Option<NodeKind>) {
        let (s1, clone) = (Ck { p_clone: None, ..self }, self.p_clone);
        let (s2, recv_static) = (Ck { p_static: None, ..s1 }, s1.p_static);
        let (s3, flex) = (Ck { p_flex: None, ..s2 }, s2.p_flex);
        let (s4, pending) = (Ck { p_targs: None, ..s3 }, s3.p_targs);
        let targs = match pending {
            Some(l) => l,
            None => List::Nil,
        };
        (s4, match s4.intrinsic_call(e, ty, clone, flex) {
            Some((intrinsic, ops)) => match s4.operands(e, ops) {
                Some(args) => Some(NodeKind::Intrinsic { intrinsic, args }),
                None => None,
            },
            None => s4.dispatched_call(e, ty, recv_static, targs),
        })
    }

    /// The nodes of the first `n` arguments, a trailing closure being the last
    /// argument.
    #[verifier::opaque]
    pub open spec fn call_nodes(self, e: Expr, n: usize) -> Option<List<NodeId>> {
        match e.kind {
            ExprKind::Call { args, trailing_closure, .. } => match (
                self.hir_children(args, n),
                trailing_closure,
            ) {
                (Some(l), Some(tc)) => if args.count() < n {
                    match self.hir_child(*tc) {
                        Some(x) => Some(l.snoc(x)),
                        None => None,
                    }
                } else {
                    Some(l)
                },
                (r, _) => r,
            },
            _ => None,
        }
    }

    #[verifier::opaque]
    pub open spec fn receiver_node(self, e: Expr) -> Option<NodeId> {
        match e.kind {
            ExprKind::Call { callee, .. } => match callee.kind {
                ExprKind::Field { receiver, .. } => self.hir_child(*receiver),
                _ => None,
            },
            _ => None,
        }
    }

    #[verifier::opaque]
    pub open spec fn receiver_ty(self, e: Expr) -> Option<Ty> {
        match e.kind {
            ExprKind::Call { callee, .. } => match callee.kind {
                ExprKind::Field { receiver, .. } => self.expr_ty(receiver.span),
                _ => None,
            },
            _ => None,
        }
    }

    #[verifier::opaque]
    pub open spec fn operands(self, e: Expr, ops: Operands) -> Option<List<NodeId>> {
        match ops {
            Operands::First(n) => self.call_nodes(e, n),
            Operands::Receiver => match self.receiver_node(e) {
                Some(n) => Some(List::one(n)),
                None => None,
            },
        }
    }

    /// The pointee of the first pointer among `l`.
    #[verifier::opaque]
    pub open spec fn pointee_in(self, l: List<Ty>) -> Ty
        decreases l,
    {
        match l {
            List::Nil => ERROR_TY,
            List::Cons(h, t) => match self.kind(*h) {
                TyKind::Ptr(p) => p,
                _ => self.pointee_in(*t),
            },
        }
    }

    /// The first type argument of a named type.
    #[verifier::opaque]
    pub open spec fn first_arg(self, ty: Ty) -> Ty {
        match self.kind(ty) {
            TyKind::Named { args, .. } => match args {
                List::Cons(a, _) => *a,
                List::Nil => ERROR_TY,
            },
            _ => ERROR_TY,
        }
    }

    /// What the first argument's future yields.
    #[verifier::opaque]
    pub open spec fn first_future(self, e: Expr) -> Ty {
        let first = match e.kind {
            ExprKind::Call { args, trailing_closure, .. } => match args {
                List::Cons(a, _) => self.ty_at(a.span),
                List::Nil => match trailing_closure {
                    Some(tc) => self.ty_at(tc.span),
                    None => ERROR_TY,
                },
            },
            _ => ERROR_TY,
        };
        match self.sole_arg(first, self.p.well_known(T_FUTURE)) {
            Some(t) => t,
            None => ERROR_TY,
        }
    }

    /// `name` is the type `List` or `Map`.
    #[verifier::opaque]
    pub open spec fn names_collection(self, name: Symbol) -> bool {
        match self.p.type_named(self.cur_module, name) {
            Some(d) => d == self.p.well_known(T_LIST) || d == self.p.well_known(T_MAP),
            None => false,
        }
    }

    #[verifier::opaque]
    pub open spec fn named_intrinsic(self, name: Symbol, e: Expr, ty: Ty) -> Option<(Intrinsic, Operands)> {
        if name == CHANNEL {
            Some((Intrinsic::ChannelNew, Operands::First(0)))
        } else {
            if name == YIELD_NOW {
                Some((Intrinsic::YieldNow, Operands::First(0)))
            } else {
                if name == SLEEP {
                    Some((Intrinsic::AsyncSleep, Operands::First(1)))
                } else {
                    if name == TIMEOUT {
                        Some((Intrinsic::AsyncTimeout { output: self.first_future(e) }, Operands::First(2)))
                    } else {
                        if name == BLOCK_ON {
                            Some((Intrinsic::BlockOn { output: ty }, Operands::First(1)))
                        } else {
                            None
                        }
                    }
                }
            }
        }
    }

    #[verifier::opaque]
    pub open spec fn static_intrinsic(self, recv: Symbol, name: Symbol, ty: Ty) -> Option<(Intrinsic, Operands)> {
        if recv == T_SHARED && name == NEW {
            Some((Intrinsic::SharedNew, Operands::First(usize::MAX)))
        } else {
            if recv == T_FOREIGN && name == FREE {
                Some((Intrinsic::ForeignFree, Operands::First(1)))
            } else {
                if recv == T_FOREIGN && name == REALLOC {
                    Some((Intrinsic::ForeignRealloc, Operands::First(2)))
                } else {
                    if recv == T_FOREIGN && (name == ALLOC || name == ALLOC_ZEROED) {
                        let pointee = self.pointee_in(self.variants(ty));
                        Some(
                            (
                                Intrinsic::ForeignAlloc { ty: pointee, zeroed: name == ALLOC_ZEROED },
                                Operands::First(0),
                            ),
                        )
                    } else {
                        if recv == T_THREAD && name == SPAWN {
                            Some(
                                (
                                    Intrinsic::ThreadSpawn { output: self.first_arg(ty) },
                                    Operands::First(usize::MAX),
                                ),
                            )
                        } else {
                            if recv == T_TASK && name == SPAWN {
                                Some(
                                    (
                                        Intrinsic::TaskSpawn { output: self.first_arg(ty) },
                                        Operands::First(usize::MAX),
                                    ),
                                )
                            } else {
                                None
                            }
                        }
                    }
                }
            }
        }
    }

    #[verifier::opaque]
    pub open spec fn is_handle(self, ty: Ty) -> bool {
        match self.named_def(ty) {
            Some(d) => d != DefId(0) && (d == self.join_handle(T_THREAD) || d == self.join_handle(T_TASK)),
            None => false,
        }
    }

    #[verifier::opaque]
    pub open spec fn method_intrinsic(self, name: Symbol, e: Expr) -> Option<(Intrinsic, Operands)> {
        match self.receiver_ty(e) {
            Some(rty) => if name == CANCEL && self.is_future_ty(rty) {
                Some((Intrinsic::FutureCancel, Operands::Receiver))
            } else {
                if name == JOIN && self.is_handle(rty) {
                    Some((Intrinsic::ThreadJoin { output: self.first_arg(rty) }, Operands::Receiver))
                } else {
                    None
                }
            },
            None => None,
        }
    }

    /// A member call that is recognized by what it is called on: a future, a
    /// numeric type, a join handle or a collection.
    #[verifier::opaque]
    pub open spec fn member_intrinsic(self, recv: Option<Symbol>, name: Symbol, e: Expr) -> Option<
        (Intrinsic, Operands),
    > {
        let num = match recv {
            Some(r) => self.num_method(r, name),
            None => None,
        };
        let collection = match recv {
            Some(r) => name == NEW && self.names_collection(r),
            None => false,
        };
        let method = self.method_intrinsic(name, e);
        if method is Some && (name == CANCEL || num is None) {
            method
        } else {
            match num {
                Some(i) => Some((Intrinsic::Num(i), Operands::First(usize::MAX))),
                None => if collection {
                    Some((Intrinsic::CollectionCtor, Operands::First(0)))
                } else {
                    None
                },
            }
        }
    }

    /// The intrinsic that a call stands for: one of the toolchain's functions,
    /// recognized by its form where nothing else resolved it, or what checking it
    /// found.
    #[verifier::opaque]
    pub open spec fn intrinsic_call(
        self,
        e: Expr,
        ty: Ty,
        clone: Option<CloneKind>,
        flex: Option<Flex>,
    ) -> Option<(Intrinsic, Operands)> {
        match e.kind {
            ExprKind::Call { callee, .. } => {
                let free = self.resolution(callee.span) is None;
                let shape = callee_shape(*callee);
                let known = if !free {
                    None
                } else {
                    match shape {
                        Callee::Name(n) => self.named_intrinsic(n, e, ty),
                        Callee::Member { recv, name } => match recv {
                            Some(r) => self.static_intrinsic(r, name, ty),
                            None => None,
                        },
                        Callee::Other => None,
                    }
                };
                let late = if !free {
                    None
                } else {
                    match shape {
                        Callee::Name(n) => if self.names_collection(n) {
                            Some((Intrinsic::CollectionCtor, Operands::First(0)))
                        } else {
                            None
                        },
                        Callee::Member { recv, name } => self.member_intrinsic(recv, name, e),
                        Callee::Other => None,
                    }
                };
                match (known, flex, late, clone) {
                    (Some(r), _, _, _) => Some(r),
                    (None, Some(f), _, _) => Some(
                        (Intrinsic::ForeignFlex { ty: f.ty, elem: f.elem }, Operands::First(1)),
                    ),
                    (None, None, Some(r), _) => Some(r),
                    (None, None, None, Some(kind)) => if shape is Member {
                        Some((Intrinsic::Clone(kind), Operands::Receiver))
                    } else {
                        None
                    },
                    (None, None, None, None) => None,
                }
            },
            _ => None,
        }
    }

    /// The methods of `ty` are implemented by the code generator.
    #[verifier::opaque]
    pub open spec fn has_builtin_methods(self, ty: Ty) -> bool {
        match self.kind(ty) {
            TyKind::Str => true,
            TyKind::Named { def, .. } => def == self.p.well_known(T_LIST) || def == self.p.well_known(T_MAP) || (
                def != DefId(0) && (
                    def == self.p.well_known(T_SENDER)
                        || def == self.p.well_known(T_RECEIVER)
                        || def == self.p.well_known(T_SHARED)
                )
            ) || self.is_handle(ty),
            _ => false,
        }
    }

    #[verifier::opaque]
    pub open spec fn call_of(self, kind: CallKind, args: Option<List<NodeId>>, callee: Expr) -> Option<NodeKind> {
        let callee_span = match callee.kind {
            ExprKind::Field { name, .. } => name.span,
            _ => callee.span,
        };
        match args {
            Some(l) => Some(NodeKind::Call { kind, args: l, callee_span, callee_ty: self.ty_at(callee.span) }),
            None => None,
        }
    }

    #[verifier::opaque]
    pub open spec fn with_receiver(self, e: Expr) -> Option<List<NodeId>> {
        match (self.receiver_node(e), self.call_nodes(e, usize::MAX)) {
            (Some(r), Some(l)) => Some(List::Cons(Box::new(r), Box::new(l))),
            _ => None,
        }
    }

    #[verifier::opaque]
    pub open spec fn is_closure_ty(self, ty: Ty) -> bool {
        match self.kind(ty) {
            TyKind::Func { is_c, .. } => !is_c,
            _ => false,
        }
    }

    /// A call that is no intrinsic: a builtin method, a function value, or what
    /// the callee resolved to.
    #[verifier::opaque]
    pub open spec fn dispatched_call(
        self,
        e: Expr,
        ty: Ty,
        recv_static: Option<Ty>,
        targs: List<Ty>,
    ) -> Option<NodeKind> {
        match e.kind {
            ExprKind::Call { callee, .. } => {
                let callee = *callee;
                match self.resolution(callee.span) {
                    None => match callee_shape(callee) {
                        Callee::Member { name, .. } => match self.receiver_ty(e) {
                            Some(rty) => if self.has_builtin_methods(rty) {
                                self.call_of(CallKind::BuiltinMethod { name }, self.with_receiver(e), callee)
                            } else {
                                self.value_call(e, callee)
                            },
                            None => None,
                        },
                        _ => self.value_call(e, callee),
                    },
                    Some(ValueRes::Local(_)) | Some(ValueRes::Global(_)) => self.value_call(e, callee),
                    Some(ValueRes::Function(d)) => {
                        let kind = if self.p.def_of(d).kind == DefKind::ExternFunction {
                            CallKind::Extern { def: d }
                        } else {
                            CallKind::Direct { def: d, type_args: targs }
                        };
                        self.call_of(kind, self.call_nodes(e, usize::MAX), callee)
                    },
                    Some(ValueRes::Builtin(b)) => self.call_of(
                        CallKind::Builtin(b),
                        self.call_nodes(e, usize::MAX),
                        callee,
                    ),
                    Some(ValueRes::StructCtor(d)) => {
                        let type_args = match self.kind(ty) {
                            TyKind::Named { args, .. } => args,
                            _ => List::Nil,
                        };
                        self.call_of(
                            CallKind::TupleCtor { def: d, type_args },
                            self.call_nodes(e, usize::MAX),
                            callee,
                        )
                    },
                    Some(ValueRes::Method(d)) => match recv_static {
                        Some(recv) => self.call_of(
                            CallKind::Method {
                                def: d,
                                type_args: targs,
                                recv_static: Some(recv),
                                is_static: true,
                            },
                            self.call_nodes(e, usize::MAX),
                            callee,
                        ),
                        None => match callee_shape(callee) {
                            Callee::Member { .. } => self.call_of(
                                CallKind::Method {
                                    def: d,
                                    type_args: targs,
                                    recv_static: None,
                                    is_static: false,
                                },
                                self.with_receiver(e),
                                callee,
                            ),
                            _ => Some(NodeKind::Error),
                        },
                    },
                }
            },
            _ => None,
        }
    }

    /// A call through a function value.
    #[verifier::opaque]
    pub open spec fn value_call(self, e: Expr, callee: Expr) -> Option<NodeKind> {
        match self.expr_ty(callee.span) {
            Some(cty) => if self.is_closure_ty(cty) {
                match self.hir_child(callee) {
                    Some(n) => self.call_of(
                        CallKind::Closure { callee: n },
                        self.call_nodes(e, usize::MAX),
                        callee,
                    ),
                    None => None,
                }
            } else {
                Some(NodeKind::Error)
            },
            None => None,
        }
    }
}

impl<'a> Cx<'a> {
    /// The node of an expression that was checked.
    pub fn hir_child(&self, e: &Expr) -> (r: Option<NodeId>)
        ensures
            r == self.view().hir_child(*e),
    {
        proof {
            reveal(Ck::hir_child);
        }
        self.node_id(bare(e).span)
    }

    /// The node of an expression, an error node if it has none.
    pub fn child_or_error(&mut self, e: &Expr) -> (r: NodeId)
        ensures
            final(self).answers(r, old(self).view().child_or_error(*e)),
            old(self).view().grows_to(final(self).view()),
    {
        proof {
            reveal(Ck::child_or_error);
        }
        match self.hir_child(e) {
            Some(n) => n,
            None => self.add_node(NodeKind::Error, ERROR_TY, bare(e).span),
        }
    }

    /// The nodes of the first `n` of `l`.
    pub fn hir_children(&self, l: &List<Expr>, n: usize) -> (r: Option<List<NodeId>>)
        ensures
            r == self.view().hir_children(*l, n),
        decreases l,
    {
        proof {
            reveal(Ck::hir_children);
        }
        match l {
            List::Nil => Some(List::Nil),
            List::Cons(h, t) => if n == 0 {
                Some(List::Nil)
            } else {
                match (self.hir_child(&**h), self.hir_children(&**t, n.wrapping_sub(1))) {
                    (Some(x), Some(rest)) => Some(List::Cons(Box::new(x), Box::new(rest))),
                    _ => None,
                }
            },
        }
    }

    /// The local bound at `span`.
    pub fn local_at(&self, span: Span) -> (r: LocalId)
        ensures
            r == self.view().local_at(span),
    {
        proof {
            reveal(Ck::local_at);
        }
        match self.resolution(span) {
            Some(ValueRes::Local(id)) => id,
            _ => LocalId(u32::MAX),
        }
    }

    pub fn path_def(&self, path: &TypePath) -> (r: DefId)
        ensures
            r == self.view().path_def(*path),
    {
        proof {
            reveal(Ck::path_def);
        }
        match self.program().resolve_type_in(self.cur_module(), path.name.name) {
            Some(d) => d,
            None => DefId(0),
        }
    }

    pub fn field_index(&self, def: DefId, name: Symbol) -> (r: u32)
        ensures
            r == self.view().field_index(def, name),
    {
        proof {
            reveal(Ck::field_index);
        }
        match position_in(self.structs(), def, name) {
            Some(i) => i,
            None => self.numeric_name(name),
        }
    }

    pub fn field_ref(&self, recv_ty: Ty, name: Symbol) -> (r: FieldRef)
        ensures
            r == self.view().field_ref(recv_ty, name),
    {
        proof {
            reveal(Ck::field_ref);
        }
        let def = match self.named_def(recv_ty) {
            Some(d) => d,
            None => DefId(0),
        };
        FieldRef { struct_def: def, index: self.field_index(def, name), name }
    }

    pub fn build_rest(&self, rest: RestPattern) -> (r: HirRest)
        ensures
            r == self.view().build_rest(rest),
    {
        proof {
            reveal(Ck::build_rest);
        }
        HirRest {
            bind: match rest.name {
                Some(n) => Some(self.local_at(n.span)),
                None => None,
            },
            span: rest.span,
        }
    }

    pub fn build_rest_at(&self, rest: Option<RestAt>) -> (r: Option<HirRestAt>)
        ensures
            r == self.view().build_rest_at(rest),
    {
        proof {
            reveal(Ck::build_rest_at);
        }
        match rest {
            Some(x) => Some(HirRestAt { index: x.index, rest: self.build_rest(x.rest) }),
            None => None,
        }
    }

    /// The resolved form of a pattern whose names are bound.
    pub fn build_pattern(&mut self, p: &Pattern) -> (r: HirPattern)
        ensures
            final(self).answers(r, old(self).view().build_pattern(*p)),
            old(self).view().grows_to(final(self).view()),
        decreases p, 1int,
    {
        let (kind, ty) = match &p.kind {
            PatternKind::Wildcard => (HirPatternKind::Wildcard, ERROR_TY),
            PatternKind::Binding(id) => (HirPatternKind::Bind(self.local_at(id.span)), ERROR_TY),
            PatternKind::Literal(e) => {
                let n = self.child_or_error(&**e);
                (HirPatternKind::Literal(n), self.node_ty(n))
            },
            PatternKind::TypeBinding { ty, binding } => {
                let env = self.local_env();
                let test_ty = self.lower_ty(ty, &env);
                let bind = match binding {
                    Some(i) => Some(self.local_at(i.span)),
                    None => None,
                };
                (HirPatternKind::TypeBind { test_ty, bind }, test_ty)
            },
            PatternKind::UnitPath(path) => {
                let def = self.path_def(path);
                let test_ty = self.mk_named(def, List::Nil);
                (HirPatternKind::UnitPath { def, test_ty }, test_ty)
            },
            PatternKind::TupleStruct { path, fields, rest } => {
                let def = self.path_def(path);
                let fs = self.build_patterns(fields);
                let r = match rest {
                    Some(x) => Some(self.build_rest(*x)),
                    None => None,
                };
                (HirPatternKind::TupleStruct { def, fields: fs, rest: r }, ERROR_TY)
            },
            PatternKind::RecordStruct { path, fields, has_rest } => {
                let def = self.path_def(path);
                let fs = self.build_field_patterns(def, fields);
                (HirPatternKind::RecordStruct { def, fields: fs, has_rest: *has_rest }, ERROR_TY)
            },
            PatternKind::Tuple { elems, rest } => {
                let es = self.build_patterns(elems);
                (HirPatternKind::Tuple { elems: es, rest: self.build_rest_at(*rest) }, ERROR_TY)
            },
            PatternKind::List { elems, rest } => {
                let es = self.build_patterns(elems);
                (HirPatternKind::ListPat { elems: es, rest: self.build_rest_at(*rest) }, ERROR_TY)
            },
            PatternKind::Or(ps) => {
                let es = self.build_patterns(ps);
                (HirPatternKind::Or(es), ERROR_TY)
            },
        };
        HirPattern { kind, ty, span: p.span }
    }

    pub fn build_patterns(&mut self, l: &List<Pattern>) -> (r: List<HirPattern>)
        ensures
            final(self).answers(r, old(self).view().build_patterns(*l)),
            old(self).view().grows_to(final(self).view()),
        decreases l, 1int,
    {
        match l {
            List::Nil => List::Nil,
            List::Cons(h, t) => {
                let p = self.build_pattern(&**h);
                let rest = self.build_patterns(&**t);
                List::Cons(Box::new(p), Box::new(rest))
            },
        }
    }

    pub fn build_field_patterns(&mut self, def: DefId, l: &List<FieldPattern>) -> (r: List<HirFieldPattern>)
        ensures
            final(self).answers(r, old(self).view().build_field_patterns(def, *l)),
            old(self).view().grows_to(final(self).view()),
        decreases l, 1int,
    {
        match l {
            List::Nil => List::Nil,
            List::Cons(f, t) => {
                let pattern = match &f.pattern {
                    Some(p) => self.build_pattern(p),
                    None => HirPattern {
                        kind: HirPatternKind::Bind(self.local_at(f.name.span)),
                        ty: self.ty_at(f.name.span),
                        span: f.name.span,
                    },
                };
                let index = self.field_index(def, f.name.name);
                let h = HirFieldPattern { index, name: f.name.name, pattern, span: f.span };
                let rest = self.build_field_patterns(def, &**t);
                List::Cons(Box::new(h), Box::new(rest))
            },
        }
    }

    /// A statement; a nested item that declares nothing has none.
    pub fn build_stmt(&mut self, s: &Stmt) -> (r: Option<HirStmt>)
        ensures
            final(self).answers(r, old(self).view().build_stmt(*s)),
            old(self).view().grows_to(final(self).view()),
    {
        proof {
            reveal(Ck::build_stmt);
        }
        match &s.kind {
            StmtKind::Var(lv) => {
                let pattern = self.build_pattern(&lv.pattern);
                let init = self.child_or_error(&lv.init);
                Some(HirStmt { kind: HirStmtKind::Let { pattern, init }, span: s.span })
            },
            StmtKind::Assign { target, value } => {
                let t = self.child_or_error(target);
                let v = self.child_or_error(value);
                Some(HirStmt { kind: HirStmtKind::Assign { target: t, value: v }, span: s.span })
            },
            StmtKind::Expr(e) => {
                let n = self.child_or_error(e);
                Some(HirStmt { kind: HirStmtKind::Expr(n), span: s.span })
            },
            StmtKind::Item(item) => match self.program().find_span(item.span) {
                Some(d) => Some(HirStmt { kind: HirStmtKind::Item(d), span: s.span }),
                None => None,
            },
        }
    }

    pub fn build_stmts(&mut self, l: &List<Stmt>) -> (r: List<HirStmt>)
        ensures
            final(self).answers(r, old(self).view().build_stmts(*l)),
            old(self).view().grows_to(final(self).view()),
        decreases l,
    {
        proof {
            reveal(Ck::build_stmts);
        }
        match l {
            List::Nil => List::Nil,
            List::Cons(h, t) => {
                let s = self.build_stmt(&**h);
                let rest = self.build_stmts(&**t);
                match s {
                    Some(x) => List::Cons(Box::new(x), Box::new(rest)),
                    None => rest,
                }
            },
        }
    }

    /// The block of a checked body. Whatever did not check is an error node, so
    /// every body has one.
    pub fn build_block(&mut self, b: &Block) -> (r: HirBlock)
        ensures
            final(self).answers(r, old(self).view().build_block(*b)),
            old(self).view().grows_to(final(self).view()),
    {
        proof {
            reveal(Ck::build_block);
        }
        let stmts = self.build_stmts(&b.stmts);
        match &b.trailing {
            Some(e) => {
                let n = self.child_or_error(&**e);
                HirBlock { stmts, trailing: Some(n), ty: self.ty_at(e.span), span: b.span }
            },
            None => HirBlock { stmts, trailing: None, ty: NULL_TY, span: b.span },
        }
    }

    pub fn build_else(&mut self, e: &Option<ElseBranch>) -> (r: Option<NodeId>)
        ensures
            final(self).answers(r, old(self).view().build_else(*e)),
            old(self).view().grows_to(final(self).view()),
    {
        proof {
            reveal(Ck::build_else);
        }
        match e {
            None => None,
            Some(ElseBranch::Block(b)) => {
                let block = self.build_block(b);
                let ty = block.ty;
                let n = self.add_node(NodeKind::Block(block), ty, b.span);
                Some(n)
            },
            Some(ElseBranch::If(x)) => {
                let n = self.child_or_error(&**x);
                Some(n)
            },
        }
    }

    pub fn guard_node(&self, g: &Option<Expr>) -> (r: Option<Option<NodeId>>)
        ensures
            r == self.view().guard_node(*g),
    {
        proof {
            reveal(Ck::guard_node);
        }
        match g {
            Some(x) => match self.hir_child(x) {
                Some(n) => Some(Some(n)),
                None => None,
            },
            None => Some(None),
        }
    }

    pub fn build_arms(&mut self, l: &List<MatchArm>) -> (r: Option<List<HirArm>>)
        ensures
            final(self).answers(r, old(self).view().build_arms(*l)),
            old(self).view().grows_to(final(self).view()),
        decreases l,
    {
        proof {
            reveal(Ck::build_arms);
        }
        let (a, t) = match l {
            List::Nil => {
                return Some(List::Nil);
            },
            List::Cons(a, t) => (&**a, &**t),
        };
        let pattern = self.build_pattern(&a.pattern);
        let guard = match self.guard_node(&a.guard) {
            Some(n) => n,
            None => {
                return None;
            },
        };
        let body = match self.hir_child(&a.body) {
            Some(n) => n,
            None => {
                return None;
            },
        };
        let rest = self.build_arms(t);
        match rest {
            Some(r) => Some(List::Cons(Box::new(HirArm { pattern, guard, body, span: a.span }), Box::new(r))),
            None => None,
        }
    }

    /// Records the node of a checked expression of type `ty`, if all its parts
    /// have one.
    pub fn build_node(&mut self, e: &Expr, ty: Ty) -> (r: Option<NodeId>)
        ensures
            final(self).answers(r, old(self).view().build_node(*e, ty)),
            old(self).view().grows_to(final(self).view()),
    {
        proof {
            reveal(Ck::build_node);
        }
        match &e.kind {
            ExprKind::Paren(inner) => self.hir_child(&**inner),
            ExprKind::Ident(_) | ExprKind::SelfExpr => match self.resolution(e.span) {
                Some(res) => {
                    let n = self.build_name_node(res, ty, e.span);
                    Some(n)
                },
                None => None,
            },
            _ => {
                let kind = self.node_kind(e, ty);
                match kind {
                    Some(k) => {
                        let n = self.add_node(k, ty, e.span);
                        Some(n)
                    },
                    None => None,
                }
            },
        }
    }

    pub fn node_kind(&mut self, e: &Expr, ty: Ty) -> (r: Option<NodeKind>)
        ensures
            final(self).answers(r, old(self).view().node_kind(*e, ty)),
            old(self).view().grows_to(final(self).view()),
    {
        proof {
            reveal(Ck::node_kind);
        }
        match &e.kind {
            ExprKind::Int(lit) => {
                let v = match self.literal(lit, u128::MAX) {
                    Some(x) => x,
                    None => 0,
                };
                Some(NodeKind::Int(v))
            },
            ExprKind::Float(lit) => Some(NodeKind::Float(lit.raw)),
            ExprKind::Bool(b) => Some(NodeKind::Bool(*b)),
            ExprKind::Null => Some(NodeKind::Null),
            ExprKind::Char(c) => Some(NodeKind::Char(self.char_value(c.raw))),
            ExprKind::Underscore => Some(NodeKind::Discard),
            ExprKind::Continue => Some(NodeKind::Continue),
            ExprKind::AnonFn(_) => Some(NodeKind::Error),
            ExprKind::MacroCall { .. } => Some(NodeKind::Error),
            ExprKind::Call { .. } => self.call_kind(e, ty),
            ExprKind::Tuple(_) | ExprKind::List(_) | ExprKind::Str(_) | ExprKind::MapLit(_) | ExprKind::StructLit { .. }
            | ExprKind::Field { .. } => self.data_kind(e, ty),
            ExprKind::If { .. } | ExprKind::Match { .. } | ExprKind::Block(_) | ExprKind::Loop(_) | ExprKind::While { .. }
            | ExprKind::For { .. } | ExprKind::Closure { .. } | ExprKind::AsyncBlock(_) => self.control_kind(e),
            _ => self.operand_kind(e, ty),
        }
    }

    pub fn one_operand(&self, e: &Option<Box<Expr>>) -> (r: Option<Option<NodeId>>)
        ensures
            r == self.view().one_operand(*e),
    {
        proof {
            reveal(Ck::one_operand);
        }
        match e {
            Some(x) => match self.hir_child(&**x) {
                Some(n) => Some(Some(n)),
                None => None,
            },
            None => Some(None),
        }
    }

    /// Operators and the forms with one part.
    pub fn operand_kind(&mut self, e: &Expr, ty: Ty) -> (r: Option<NodeKind>)
        ensures
            final(self).answers(r, old(self).view().operand_kind(*e, ty)),
            old(self).view().grows_to(final(self).view()),
    {
        proof {
            reveal(Ck::operand_kind);
        }
        match &e.kind {
            ExprKind::Unary { op, operand, .. } => match self.hir_child(&**operand) {
                Some(n) => {
                    let overload = self.take_p_overload();
                    Some(NodeKind::Unary { op: *op, operand: n, overload })
                },
                None => None,
            },
            ExprKind::Binary { op, left, right, .. } => match (self.hir_child(&**left), self.hir_child(&**right)) {
                (Some(l), Some(r)) => {
                    let overload = self.take_p_overload();
                    Some(NodeKind::Binary { op: *op, left: l, right: r, overload })
                },
                _ => None,
            },
            ExprKind::Cast { op, expr, .. } => match self.hir_child(&**expr) {
                Some(n) => {
                    let target = self.take_p_cast();
                    let to = match target {
                        Some(t) => t,
                        None => ty,
                    };
                    Some(NodeKind::Cast { op: *op, expr: n, target: to })
                },
                None => None,
            },
            ExprKind::Ref { expr, .. } => match self.hir_child(&**expr) {
                Some(n) => Some(NodeKind::Ref(n)),
                None => None,
            },
            ExprKind::Deref { expr, .. } => match self.hir_child(&**expr) {
                Some(n) => Some(NodeKind::Deref(n)),
                None => None,
            },
            ExprKind::TupleIndex { receiver, index, .. } => match self.hir_child(&**receiver) {
                Some(n) => Some(NodeKind::TupleIndex { receiver: n, index: *index }),
                None => None,
            },
            ExprKind::Index { receiver, index } => match (self.hir_child(&**receiver), self.hir_child(&**index)) {
                (Some(r), Some(i)) => Some(NodeKind::Index { receiver: r, index: i }),
                _ => None,
            },
            ExprKind::Try { expr, .. } => match self.hir_child(&**expr) {
                Some(n) => {
                    let branch = self.take_p_try();
                    let residuals = self.take_p_residuals();
                    let conversions = match residuals {
                        Some(l) => l,
                        None => List::Nil,
                    };
                    Some(NodeKind::Try { expr: n, branch, conversions })
                },
                None => None,
            },
            ExprKind::Await { expr, .. } => match self.hir_child(&**expr) {
                Some(n) => {
                    let output = self.take_p_await();
                    match output {
                        Some(t) => Some(NodeKind::Await { expr: n, output: t }),
                        None => None,
                    }
                },
                None => None,
            },
            ExprKind::Spawn { expr, .. } => match self.hir_child(&**expr) {
                Some(n) => {
                    let output = self.take_p_spawn();
                    match output {
                        Some(t) => Some(NodeKind::Spawn { expr: n, output: t }),
                        None => None,
                    }
                },
                None => None,
            },
            ExprKind::Return(v) => match self.one_operand(v) {
                Some(n) => Some(NodeKind::Return(n)),
                None => None,
            },
            ExprKind::Break(v) => match self.one_operand(v) {
                Some(n) => Some(NodeKind::Break(n)),
                None => None,
            },
            _ => Some(NodeKind::Error),
        }
    }

    /// Branches, loops and closures.
    pub fn control_kind(&mut self, e: &Expr) -> (r: Option<NodeKind>)
        ensures
            final(self).answers(r, old(self).view().control_kind(*e)),
            old(self).view().grows_to(final(self).view()),
    {
        proof {
            reveal(Ck::control_kind);
        }
        match &e.kind {
            ExprKind::If { cond, then_block, else_branch } => match self.hir_child(&**cond) {
                Some(c) => {
                    let t = self.build_block(then_block);
                    let f = self.build_else(else_branch);
                    Some(NodeKind::If { cond: c, then_block: t, else_branch: f })
                },
                None => None,
            },
            ExprKind::Match { scrutinee, arms } => {
                let built = self.build_arms(arms);
                match (built, self.hir_child(&**scrutinee)) {
                    (Some(l), Some(n)) => Some(NodeKind::Match { scrutinee: n, arms: l }),
                    _ => None,
                }
            },
            ExprKind::Block(b) => {
                let block = self.build_block(b);
                Some(NodeKind::Block(block))
            },
            ExprKind::Loop(b) => {
                let block = self.build_block(b);
                Some(NodeKind::Loop(block))
            },
            ExprKind::While { cond, body } => match self.hir_child(&**cond) {
                Some(c) => {
                    let block = self.build_block(body);
                    Some(NodeKind::While { cond: c, body: block })
                },
                None => None,
            },
            ExprKind::For { pattern, in_async, iter, body } => {
                let pat = self.build_pattern(pattern);
                match self.hir_child(&**iter) {
                    Some(n) => {
                        let block = self.build_block(body);
                        let driver = self.build_for_driver(&**iter);
                        Some(NodeKind::For { pattern: pat, iter: n, body: block, driver, in_async: *in_async })
                    },
                    None => None,
                }
            },
            ExprKind::Closure { is_async, body, .. } => match self.hir_child(&**body) {
                Some(n) => self.closure_kind(*is_async, n),
                None => None,
            },
            ExprKind::AsyncBlock(b) => {
                let body = self.build_block(b);
                let info = self.take_p_async();
                match info {
                    Some(i) => Some(
                        NodeKind::AsyncBlock { output: i.output, params: i.params, captures: i.captures, body },
                    ),
                    None => Some(NodeKind::Error),
                }
            },
            _ => Some(NodeKind::Error),
        }
    }

    pub fn closure_kind(&mut self, is_async: bool, body: NodeId) -> (r: Option<NodeKind>)
        ensures
            final(self).answers(r, old(self).view().closure_kind(is_async, body)),
            old(self).view().grows_to(final(self).view()),
    {
        proof {
            reveal(Ck::closure_kind);
        }
        if is_async {
            let info = self.take_p_async();
            match info {
                Some(i) => Some(
                    NodeKind::Closure { params: i.params, captures: i.captures, ret: i.output, is_async, body },
                ),
                None => Some(NodeKind::Error),
            }
        } else {
            let info = self.take_p_closure();
            match info {
                Some(i) => Some(
                    NodeKind::Closure { params: i.params, captures: i.captures, ret: i.ret, is_async, body },
                ),
                None => Some(NodeKind::Error),
            }
        }
    }

    pub fn build_for_driver(&mut self, iter: &Expr) -> (r: ForDriver)
        ensures
            final(self).answers(r, old(self).view().build_for_driver(*iter)),
            old(self).view().grows_to(final(self).view()),
    {
        proof {
            reveal(Ck::build_for_driver);
        }
        let driver = self.take_p_driver();
        match driver {
            Some(d) => d,
            None => {
                let ty = self.ty_at(iter.span);
                let elem = match self.named_def(ty) {
                    Some(d) => if d == self.program().known(T_LIST) {
                        self.first_arg(ty)
                    } else {
                        ERROR_TY
                    },
                    None => ERROR_TY,
                };
                ForDriver::ListFast { elem }
            },
        }
    }

    pub fn build_map_entries(&self, l: &List<MapItem>) -> (r: Option<List<MapEntry>>)
        ensures
            r == self.view().build_map_entries(*l),
        decreases l,
    {
        proof {
            reveal(Ck::build_map_entries);
        }
        match l {
            List::Nil => Some(List::Nil),
            List::Cons(h, t) => {
                let entry = match &**h {
                    MapItem::Entry { key, value, .. } => match (self.hir_child(&**key), self.hir_child(&**value)) {
                        (Some(k), Some(v)) => Some(MapEntry::Kv { key: k, value: v }),
                        _ => None,
                    },
                    MapItem::Spread(base) => match self.hir_child(&**base) {
                        Some(n) => Some(MapEntry::Spread(n)),
                        None => None,
                    },
                };
                match (entry, self.build_map_entries(&**t)) {
                    (Some(x), Some(rest)) => Some(List::Cons(Box::new(x), Box::new(rest))),
                    _ => None,
                }
            },
        }
    }

    /// The parts of a string literal; `holes` says how each hole is rendered.
    pub fn build_str_parts(&mut self, l: &List<StringPart>, holes: List<Hole>) -> (r: Option<List<StrPart>>)
        ensures
            final(self).answers(r, old(self).view().build_str_parts(*l, holes)),
            old(self).view().grows_to(final(self).view()),
        decreases l,
    {
        proof {
            reveal(Ck::build_str_parts);
        }
        let (p, t) = match l {
            List::Nil => {
                return Some(List::Nil);
            },
            List::Cons(p, t) => (&**p, &**t),
        };
        match p {
            StringPart::Text { text, .. } => {
                let more = self.build_str_parts(t, holes);
                return match more {
                    Some(r) => Some(List::Cons(Box::new(StrPart::Text(*text)), Box::new(r))),
                    None => None,
                };
            },
            _ => {},
        }
        let expr = self.part_node(p);
        let node = match expr {
            Some(n) => n,
            None => {
                return None;
            },
        };
        let (part, left) = match holes {
            List::Cons(h, r) => {
                let hole = *h;
                (StrPart::Interp { expr: node, stringify: hole.method, targs: hole.targs }, *r)
            },
            List::Nil => (StrPart::Interp { expr: node, stringify: None, targs: List::Nil }, List::Nil),
        };
        let rest = self.build_str_parts(t, left);
        match rest {
            Some(r) => Some(List::Cons(Box::new(part), Box::new(r))),
            None => None,
        }
    }

    pub fn part_node(&mut self, p: &StringPart) -> (r: Option<NodeId>)
        ensures
            final(self).answers(r, old(self).view().part_node(*p)),
            old(self).view().grows_to(final(self).view()),
    {
        proof {
            reveal(Ck::part_node);
        }
        match p {
            StringPart::Text { .. } => None,
            StringPart::Ident(id) => self.build_ident_hole(id.span),
            StringPart::Expr(e) => self.hir_child(e),
        }
    }

    pub fn build_ident_hole(&mut self, span: Span) -> (r: Option<NodeId>)
        ensures
            final(self).answers(r, old(self).view().build_ident_hole(span)),
            old(self).view().grows_to(final(self).view()),
    {
        proof {
            reveal(Ck::build_ident_hole);
        }
        match (self.resolution(span), self.expr_ty(span)) {
            (Some(res), Some(ty)) => {
                let n = self.build_name_node(res, ty, span);
                Some(n)
            },
            _ => None,
        }
    }

    pub fn build_field_inits(&self, def: DefId, l: &List<FieldInit>) -> (r: Option<List<HirFieldInit>>)
        ensures
            r == self.view().build_field_inits(def, *l),
        decreases l,
    {
        proof {
            reveal(Ck::build_field_inits);
        }
        match l {
            List::Nil => Some(List::Nil),
            List::Cons(f, t) => {
                let value = match &f.value {
                    Some(e) => self.hir_child(e),
                    None => self.node_id(f.name.span),
                };
                match (value, self.build_field_inits(def, &**t)) {
                    (Some(v), Some(rest)) => {
                        let index = self.field_index(def, f.name.name);
                        Some(
                            List::Cons(
                                Box::new(HirFieldInit { index, name: f.name.name, value: v, span: f.span }),
                                Box::new(rest),
                            ),
                        )
                    },
                    _ => None,
                }
            },
        }
    }

    /// A constant of a numeric type's namespace, such as `i32.MAX`.
    pub fn namespace_constant(&self, receiver: &Expr, name: Symbol) -> (r: Option<Intrinsic>)
        ensures
            r == self.view().namespace_constant(*receiver, name),
    {
        proof {
            reveal(Ck::namespace_constant);
        }
        match &receiver.kind {
            ExprKind::Ident(recv) => if self.resolution(receiver.span).is_none() {
                match self.num_constant(recv.name, name) {
                    Some(i) => Some(Intrinsic::Num(i)),
                    None => None,
                }
            } else {
                None
            },
            _ => None,
        }
    }

    /// Literals of aggregates, and fields.
    pub fn data_kind(&mut self, e: &Expr, ty: Ty) -> (r: Option<NodeKind>)
        ensures
            final(self).answers(r, old(self).view().data_kind(*e, ty)),
            old(self).view().grows_to(final(self).view()),
    {
        proof {
            reveal(Ck::data_kind);
        }
        match &e.kind {
            ExprKind::Tuple(elems) => match self.hir_children(elems, usize::MAX) {
                Some(l) => Some(NodeKind::Tuple(l)),
                None => None,
            },
            ExprKind::List(elems) => match self.hir_children(elems, usize::MAX) {
                Some(l) => Some(NodeKind::ListLit(l)),
                None => None,
            },
            ExprKind::Str(s) => {
                let pending = self.take_p_holes();
                let holes = match pending {
                    Some(l) => l,
                    None => List::Nil,
                };
                let parts = self.build_str_parts(&s.parts, holes);
                match parts {
                    Some(l) => Some(NodeKind::Str(l)),
                    None => None,
                }
            },
            ExprKind::MapLit(items) => match self.build_map_entries(items) {
                Some(l) => Some(NodeKind::MapLit(l)),
                None => None,
            },
            ExprKind::StructLit { fields, spread, .. } => {
                let (def, type_args) = match self.kind(ty) {
                    TyKind::Named { def, args } => (def, args),
                    _ => (DefId(0), List::Nil),
                };
                match (self.build_field_inits(def, fields), self.one_operand(spread)) {
                    (Some(fs), Some(sp)) => Some(NodeKind::Struct { def, type_args, fields: fs, spread: sp }),
                    _ => None,
                }
            },
            ExprKind::Field { receiver, name } => match self.namespace_constant(&**receiver, name.name) {
                Some(intrinsic) => Some(NodeKind::Intrinsic { intrinsic, args: List::Nil }),
                None => match (self.expr_ty(receiver.span), self.hir_child(&**receiver)) {
                    (Some(rty), Some(n)) => Some(
                        NodeKind::Field { receiver: n, field: self.field_ref(rty, name.name) },
                    ),
                    _ => None,
                },
            },
            _ => Some(NodeKind::Error),
        }
    }

    pub fn call_kind(&mut self, e: &Expr, ty: Ty) -> (r: Option<NodeKind>)
        ensures
            final(self).answers(r, old(self).view().call_kind(*e, ty)),
            old(self).view().grows_to(final(self).view()),
    {
        proof {
            reveal(Ck::call_kind);
        }
        let clone = self.take_p_clone();
        let recv_static = self.take_p_static();
        let flex = self.take_p_flex();
        let pending = self.take_p_targs();
        let targs = match pending {
            Some(l) => l,
            None => List::Nil,
        };
        match self.intrinsic_call(e, ty, clone, flex) {
            Some((intrinsic, ops)) => match self.operands(e, ops) {
                Some(args) => Some(NodeKind::Intrinsic { intrinsic, args }),
                None => None,
            },
            None => self.dispatched_call(e, ty, recv_static, targs),
        }
    }

    /// The nodes of the first `n` arguments, a trailing closure being the last
    /// argument.
    pub fn call_nodes(&self, e: &Expr, n: usize) -> (r: Option<List<NodeId>>)
        ensures
            r == self.view().call_nodes(*e, n),
    {
        proof {
            reveal(Ck::call_nodes);
        }
        match &e.kind {
            ExprKind::Call { args, trailing_closure, .. } => match (self.hir_children(args, n), trailing_closure) {
                (Some(l), Some(tc)) => if args.len() < n {
                    match self.hir_child(&**tc) {
                        Some(x) => Some(l.push_back(x)),
                        None => None,
                    }
                } else {
                    Some(l)
                },
                (r, _) => r,
            },
            _ => None,
        }
    }

    pub fn receiver_node(&self, e: &Expr) -> (r: Option<NodeId>)
        ensures
            r == self.view().receiver_node(*e),
    {
        proof {
            reveal(Ck::receiver_node);
        }
        match &e.kind {
            ExprKind::Call { callee, .. } => match &callee.kind {
                ExprKind::Field { receiver, .. } => self.hir_child(&**receiver),
                _ => None,
            },
            _ => None,
        }
    }

    pub fn receiver_ty(&self, e: &Expr) -> (r: Option<Ty>)
        ensures
            r == self.view().receiver_ty(*e),
    {
        proof {
            reveal(Ck::receiver_ty);
        }
        match &e.kind {
            ExprKind::Call { callee, .. } => match &callee.kind {
                ExprKind::Field { receiver, .. } => self.expr_ty(receiver.span),
                _ => None,
            },
            _ => None,
        }
    }

    pub fn operands(&self, e: &Expr, ops: Operands) -> (r: Option<List<NodeId>>)
        ensures
            r == self.view().operands(*e, ops),
    {
        proof {
            reveal(Ck::operands);
        }
        match ops {
            Operands::First(n) => self.call_nodes(e, n),
            Operands::Receiver => match self.receiver_node(e) {
                Some(n) => Some(List::single(n)),
                None => None,
            },
        }
    }

    /// The pointee of the first pointer among `l`.
    pub fn pointee_in(&self, l: List<Ty>) -> (r: Ty)
        ensures
            r == self.view().pointee_in(l),
        decreases l,
    {
        proof {
            reveal(Ck::pointee_in);
        }
        match l {
            List::Nil => ERROR_TY,
            List::Cons(h, t) => match self.kind(*h) {
                TyKind::Ptr(p) => p,
                _ => self.pointee_in(*t),
            },
        }
    }

    /// The first type argument of a named type.
    pub fn first_arg(&self, ty: Ty) -> (r: Ty)
        ensures
            r == self.view().first_arg(ty),
    {
        proof {
            reveal(Ck::first_arg);
        }
        match self.kind(ty) {
            TyKind::Named { args, .. } => match args {
                List::Cons(a, _) => *a,
                List::Nil => ERROR_TY,
            },
            _ => ERROR_TY,
        }
    }

    /// What the first argument's future yields.
    pub fn first_future(&self, e: &Expr) -> (r: Ty)
        ensures
            r == self.view().first_future(*e),
    {
        proof {
            reveal(Ck::first_future);
        }
        let first = match &e.kind {
            ExprKind::Call { args, trailing_closure, .. } => match args {
                List::Cons(a, _) => self.ty_at(a.span),
                List::Nil => match trailing_closure {
                    Some(tc) => self.ty_at(tc.span),
                    None => ERROR_TY,
                },
            },
            _ => ERROR_TY,
        };
        match self.sole_arg(first, self.program().known(T_FUTURE)) {
            Some(t) => t,
            None => ERROR_TY,
        }
    }

    /// `name` is the type `List` or `Map`.
    pub fn names_collection(&self, name: Symbol) -> (r: bool)
        ensures
            r == self.view().names_collection(name),
    {
        proof {
            reveal(Ck::names_collection);
        }
        match self.program().resolve_type_in(self.cur_module(), name) {
            Some(d) => d == self.program().known(T_LIST) || d == self.program().known(T_MAP),
            None => false,
        }
    }

    pub fn named_intrinsic(&self, name: Symbol, e: &Expr, ty: Ty) -> (r: Option<(Intrinsic, Operands)>)
        ensures
            r == self.view().named_intrinsic(name, *e, ty),
    {
        proof {
            reveal(Ck::named_intrinsic);
        }
        if name == CHANNEL {
            Some((Intrinsic::ChannelNew, Operands::First(0)))
        } else if name == YIELD_NOW {
            Some((Intrinsic::YieldNow, Operands::First(0)))
        } else if name == SLEEP {
            Some((Intrinsic::AsyncSleep, Operands::First(1)))
        } else if name == TIMEOUT {
            Some((Intrinsic::AsyncTimeout { output: self.first_future(e) }, Operands::First(2)))
        } else if name == BLOCK_ON {
            Some((Intrinsic::BlockOn { output: ty }, Operands::First(1)))
        } else {
            None
        }
    }

    pub fn static_intrinsic(&self, recv: Symbol, name: Symbol, ty: Ty) -> (r: Option<(Intrinsic, Operands)>)
        ensures
            r == self.view().static_intrinsic(recv, name, ty),
    {
        proof {
            reveal(Ck::static_intrinsic);
        }
        if recv == T_SHARED && name == NEW {
            Some((Intrinsic::SharedNew, Operands::First(usize::MAX)))
        } else if recv == T_FOREIGN && name == FREE {
            Some((Intrinsic::ForeignFree, Operands::First(1)))
        } else if recv == T_FOREIGN && name == REALLOC {
            Some((Intrinsic::ForeignRealloc, Operands::First(2)))
        } else if recv == T_FOREIGN && (name == ALLOC || name == ALLOC_ZEROED) {
            let pointee = self.pointee_in(self.variants(ty));
            Some((Intrinsic::ForeignAlloc { ty: pointee, zeroed: name == ALLOC_ZEROED }, Operands::First(0)))
        } else if recv == T_THREAD && name == SPAWN {
            Some((Intrinsic::ThreadSpawn { output: self.first_arg(ty) }, Operands::First(usize::MAX)))
        } else if recv == T_TASK && name == SPAWN {
            Some((Intrinsic::TaskSpawn { output: self.first_arg(ty) }, Operands::First(usize::MAX)))
        } else {
            None
        }
    }

    pub fn is_handle(&self, ty: Ty) -> (r: bool)
        ensures
            r == self.view().is_handle(ty),
    {
        proof {
            reveal(Ck::is_handle);
        }
        match self.named_def(ty) {
            Some(d) => d != DefId(0) && (d == self.join_handle(T_THREAD) || d == self.join_handle(T_TASK)),
            None => false,
        }
    }

    pub fn method_intrinsic(&self, name: Symbol, e: &Expr) -> (r: Option<(Intrinsic, Operands)>)
        ensures
            r == self.view().method_intrinsic(name, *e),
    {
        proof {
            reveal(Ck::method_intrinsic);
        }
        match self.receiver_ty(e) {
            Some(rty) => if name == CANCEL && self.is_future_ty(rty) {
                Some((Intrinsic::FutureCancel, Operands::Receiver))
            } else if name == JOIN && self.is_handle(rty) {
                Some((Intrinsic::ThreadJoin { output: self.first_arg(rty) }, Operands::Receiver))
            } else {
                None
            },
            None => None,
        }
    }

    /// A member call that is recognized by what it is called on: a future, a
    /// numeric type, a join handle or a collection.
    pub fn member_intrinsic(&self, recv: Option<Symbol>, name: Symbol, e: &Expr) -> (r: Option<(Intrinsic, Operands)>)
        ensures
            r == self.view().member_intrinsic(recv, name, *e),
    {
        proof {
            reveal(Ck::member_intrinsic);
        }
        let num = match recv {
            Some(r) => self.num_method(r, name),
            None => None,
        };
        let collection = match recv {
            Some(r) => name == NEW && self.names_collection(r),
            None => false,
        };
        let method = self.method_intrinsic(name, e);
        if method.is_some() && (name == CANCEL || num.is_none()) {
            return method;
        }
        match num {
            Some(i) => Some((Intrinsic::Num(i), Operands::First(usize::MAX))),
            None => if collection {
                Some((Intrinsic::CollectionCtor, Operands::First(0)))
            } else {
                None
            },
        }
    }

    /// The intrinsic that a call stands for: one of the toolchain's functions,
    /// recognized by its form where nothing else resolved it, or what checking it
    /// found.
    pub fn intrinsic_call(
        &self,
        e: &Expr,
        ty: Ty,
        clone: Option<CloneKind>,
        flex: Option<Flex>,
    ) -> (r: Option<(Intrinsic, Operands)>)
        ensures
            r == self.view().intrinsic_call(*e, ty, clone, flex),
    {
        proof {
            reveal(Ck::intrinsic_call);
        }
        match &e.kind {
            ExprKind::Call { callee, .. } => {
                let free = self.resolution(callee.span).is_none();
                let shape = shape_of(&**callee);
                let known = if !free {
                    None
                } else {
                    match &shape {
                        Callee::Name(n) => self.named_intrinsic(*n, e, ty),
                        Callee::Member { recv, name } => match recv {
                            Some(r) => self.static_intrinsic(*r, *name, ty),
                            None => None,
                        },
                        Callee::Other => None,
                    }
                };
                let late = if !free {
                    None
                } else {
                    match &shape {
                        Callee::Name(n) => if self.names_collection(*n) {
                            Some((Intrinsic::CollectionCtor, Operands::First(0)))
                        } else {
                            None
                        },
                        Callee::Member { recv, name } => self.member_intrinsic(*recv, *name, e),
                        Callee::Other => None,
                    }
                };
                let member = match &shape {
                    Callee::Member { .. } => true,
                    _ => false,
                };
                match (known, flex, late, clone) {
                    (Some(r), _, _, _) => Some(r),
                    (None, Some(f), _, _) => Some(
                        (Intrinsic::ForeignFlex { ty: f.ty, elem: f.elem }, Operands::First(1)),
                    ),
                    (None, None, Some(r), _) => Some(r),
                    (None, None, None, Some(kind)) => if member {
                        Some((Intrinsic::Clone(kind), Operands::Receiver))
                    } else {
                        None
                    },
                    (None, None, None, None) => None,
                }
            },
            _ => None,
        }
    }

    /// The methods of `ty` are implemented by the code generator.
    pub fn has_builtin_methods(&self, ty: Ty) -> (r: bool)
        ensures
            r == self.view().has_builtin_methods(ty),
    {
        proof {
            reveal(Ck::has_builtin_methods);
        }
        match self.kind(ty) {
            TyKind::Str => true,
            TyKind::Named { def, .. } => def == self.program().known(T_LIST) || def == self.program().known(T_MAP) || (def != DefId(0)
                && (def == self.program().known(T_SENDER) || def == self.program().known(T_RECEIVER) || def == self.program().known(
                T_SHARED,
            ))) || self.is_handle(ty),
            _ => false,
        }
    }

    pub fn call_of(&self, kind: CallKind, args: Option<List<NodeId>>, callee: &Expr) -> (r: Option<NodeKind>)
        ensures
            r == self.view().call_of(kind, args, *callee),
    {
        proof {
            reveal(Ck::call_of);
        }
        let callee_span = match &callee.kind {
            ExprKind::Field { name, .. } => name.span,
            _ => callee.span,
        };
        match args {
            Some(l) => Some(NodeKind::Call { kind, args: l, callee_span, callee_ty: self.ty_at(callee.span) }),
            None => None,
        }
    }

    pub fn with_receiver(&self, e: &Expr) -> (r: Option<List<NodeId>>)
        ensures
            r == self.view().with_receiver(*e),
    {
        proof {
            reveal(Ck::with_receiver);
        }
        match (self.receiver_node(e), self.call_nodes(e, usize::MAX)) {
            (Some(r), Some(l)) => Some(List::Cons(Box::new(r), Box::new(l))),
            _ => None,
        }
    }

    pub fn is_closure_ty(&self, ty: Ty) -> (r: bool)
        ensures
            r == self.view().is_closure_ty(ty),
    {
        proof {
            reveal(Ck::is_closure_ty);
        }
        match self.kind(ty) {
            TyKind::Func { is_c, .. } => !is_c,
            _ => false,
        }
    }

    /// A call that is no intrinsic: a builtin method, a function value, or what
    /// the callee resolved to.
    pub fn dispatched_call(&self, e: &Expr, ty: Ty, recv_static: Option<Ty>, targs: List<Ty>) -> (r: Option<NodeKind>)
        ensures
            r == self.view().dispatched_call(*e, ty, recv_static, targs),
    {
        proof {
            reveal(Ck::dispatched_call);
        }
        let callee = match &e.kind {
            ExprKind::Call { callee, .. } => &**callee,
            _ => {
                return None;
            },
        };
        match self.resolution(callee.span) {
            None => match shape_of(callee) {
                Callee::Member { name, .. } => match self.receiver_ty(e) {
                    Some(rty) => if self.has_builtin_methods(rty) {
                        self.call_of(CallKind::BuiltinMethod { name }, self.with_receiver(e), callee)
                    } else {
                        self.value_call(e, callee)
                    },
                    None => None,
                },
                _ => self.value_call(e, callee),
            },
            Some(ValueRes::Local(_)) | Some(ValueRes::Global(_)) => self.value_call(e, callee),
            Some(ValueRes::Function(d)) => {
                let kind = if self.program().def(d).kind == DefKind::ExternFunction {
                    CallKind::Extern { def: d }
                } else {
                    CallKind::Direct { def: d, type_args: targs }
                };
                self.call_of(kind, self.call_nodes(e, usize::MAX), callee)
            },
            Some(ValueRes::Builtin(b)) => self.call_of(CallKind::Builtin(b), self.call_nodes(e, usize::MAX), callee),
            Some(ValueRes::StructCtor(d)) => {
                let type_args = match self.kind(ty) {
                    TyKind::Named { args, .. } => args,
                    _ => List::Nil,
                };
                self.call_of(CallKind::TupleCtor { def: d, type_args }, self.call_nodes(e, usize::MAX), callee)
            },
            Some(ValueRes::Method(d)) => match recv_static {
                Some(recv) => self.call_of(
                    CallKind::Method { def: d, type_args: targs, recv_static: Some(recv), is_static: true },
                    self.call_nodes(e, usize::MAX),
                    callee,
                ),
                None => match shape_of(callee) {
                    Callee::Member { .. } => self.call_of(
                        CallKind::Method { def: d, type_args: targs, recv_static: None, is_static: false },
                        self.with_receiver(e),
                        callee,
                    ),
                    _ => Some(NodeKind::Error),
                },
            },
        }
    }

    /// A call through a function value.
    pub fn value_call(&self, e: &Expr, callee: &Expr) -> (r: Option<NodeKind>)
        ensures
            r == self.view().value_call(*e, *callee),
    {
        proof {
            reveal(Ck::value_call);
        }
        match self.expr_ty(callee.span) {
            Some(cty) => if self.is_closure_ty(cty) {
                match self.hir_child(callee) {
                    Some(n) => self.call_of(CallKind::Closure { callee: n }, self.call_nodes(e, usize::MAX), callee),
                    None => None,
                }
            } else {
                Some(NodeKind::Error)
            },
            None => None,
        }
    }
}

} // verus!
