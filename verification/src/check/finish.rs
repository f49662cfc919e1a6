//! The finished program: every body with the locals that are bound or used in it.
//!
//! A node is put into the table after its parts, so a walk goes down the table:
//! it looks only at positions below `limit`, which is the node it comes from.
use vstd::prelude::*;
use crate::ast::{AttrArg, Attribute, Expr, ExprKind, ItemKind, StringPart};
use crate::check::structs::contains_symbol;
use crate::check::{find_local_ty, take_list, Ck, Cx, FnBody};
use crate::hir::{
    Body, CallKind, FnSig, HirArm, HirBlock, HirFieldInit, HirFieldPattern, HirPattern, HirPatternKind, HirRest, HirRestAt,
    HirStmt, HirStmtKind, LocalTy, MapEntry, NodeId, NodeKind, StrPart,
};
use crate::ids::{DefId, LocalId};
use crate::list::{dup, List};
use crate::names::Symbol;
use crate::results::ValueRes;
use crate::span::Span;
use crate::symbols::DefKind;
use crate::ty::{Ty, ERROR_TY, NULL_TY};
use crate::words::{LIB, T_LINK};

verus! {

broadcast use {crate::check::law_grows_reflexive, crate::check::law_grows_transitive};

/// The signature recorded last for a function.
pub open spec fn sig_in(l: List<FnSig>, def: DefId) -> Option<FnSig>
    decreases l,
{
    match l {
        List::Nil => None,
        List::Cons(h, t) => if h.def == def {
            Some(FnSig { def: h.def, params: h.params, ret: h.ret, async_output: h.async_output })
        } else {
            sig_in(*t, def)
        },
    }
}

/// The signature recorded last for a function.
pub fn find_sig(l: &List<FnSig>, def: DefId) -> (r: Option<FnSig>)
    ensures
        r == sig_in(*l, def),
    decreases l,
{
    match l {
        List::Nil => None,
        List::Cons(h, t) => if h.def == def {
            Some(FnSig { def: h.def, params: dup(&h.params), ret: h.ret, async_output: h.async_output })
        } else {
            find_sig(&**t, def)
        },
    }
}

/// The block recorded last for a function, and the other blocks.
pub open spec fn without_body(l: List<FnBody>, def: DefId) -> (Option<HirBlock>, List<FnBody>)
    decreases l,
{
    match l {
        List::Nil => (None, List::Nil),
        List::Cons(h, t) => if h.def == def {
            (Some((*h).block), *t)
        } else {
            let (found, rest) = without_body(*t, def);
            (found, List::Cons(h, Box::new(rest)))
        },
    }
}

/// The block recorded last for a function, and the other blocks.
pub fn split_body(l: List<FnBody>, def: DefId) -> (r: (Option<HirBlock>, List<FnBody>))
    ensures
        r == without_body(l, def),
    decreases l,
{
    match l {
        List::Nil => (None, List::Nil),
        List::Cons(h, t) => if h.def == def {
            (Some((*h).block), *t)
        } else {
            let (found, rest) = split_body(*t, def);
            (found, List::Cons(h, Box::new(rest)))
        },
    }
}

/// The locals of parameters.
pub open spec fn ids_of(l: List<LocalTy>) -> List<LocalId>
    decreases l,
{
    match l {
        List::Nil => List::Nil,
        List::Cons(h, t) => List::Cons(Box::new(h.local), Box::new(ids_of(*t))),
    }
}

/// The locals of parameters.
pub fn local_ids(l: &List<LocalTy>) -> (r: List<LocalId>)
    ensures
        r == ids_of(*l),
    decreases l,
{
    match l {
        List::Nil => List::Nil,
        List::Cons(h, t) => List::Cons(Box::new(h.local), Box::new(local_ids(&**t))),
    }
}

/// What a string literal without holes says.
pub open spec fn plain_text(e: Expr) -> Option<Symbol> {
    match e.kind {
        ExprKind::Str(s) => match s.parts {
            List::Cons(h, t) => match (*h, *t) {
                (StringPart::Text { text, .. }, List::Nil) => Some(text),
                _ => None,
            },
            List::Nil => None,
        },
        _ => None,
    }
}

/// What a string literal without holes says.
pub fn text_of(e: &Expr) -> (r: Option<Symbol>)
    ensures
        r == plain_text(*e),
{
    match &e.kind {
        ExprKind::Str(s) => match &s.parts {
            List::Cons(h, t) => match (&**h, &**t) {
                (StringPart::Text { text, .. }, List::Nil) => Some(*text),
                _ => None,
            },
            List::Nil => None,
        },
        _ => None,
    }
}

/// The library among the arguments of a `@Link`.
pub open spec fn lib_arg(l: List<AttrArg>) -> Option<Symbol>
    decreases l,
{
    match l {
        List::Nil => None,
        List::Cons(h, t) => match *h {
            AttrArg::Named { name, value } => if name.name == LIB {
                plain_text(value)
            } else {
                lib_arg(*t)
            },
            AttrArg::Positional(_) => lib_arg(*t),
        },
    }
}

/// The library among the arguments of a `@Link`.
pub fn find_lib(l: &List<AttrArg>) -> (r: Option<Symbol>)
    ensures
        r == lib_arg(*l),
    decreases l,
{
    match l {
        List::Nil => None,
        List::Cons(h, t) => match &**h {
            AttrArg::Named { name, value } => if name.name == LIB {
                text_of(value)
            } else {
                find_lib(&**t)
            },
            AttrArg::Positional(_) => find_lib(&**t),
        },
    }
}

/// `acc` with the library that a decorator names, once.
pub open spec fn libs_with(a: Attribute, acc: List<Symbol>) -> List<Symbol> {
    if a.name.name == T_LINK {
        match lib_arg(a.args) {
            Some(lib) => if crate::check::structs::has_symbol(acc, lib) {
                acc
            } else {
                acc.snoc(lib)
            },
            None => acc,
        }
    } else {
        acc
    }
}

/// `acc` with the library that a decorator names, once.
pub fn add_lib(a: &Attribute, acc: List<Symbol>) -> (r: List<Symbol>)
    ensures
        r == libs_with(*a, acc),
{
    if a.name.name == T_LINK {
        match find_lib(&a.args) {
            Some(lib) => if contains_symbol(&acc, lib) {
                acc
            } else {
                acc.push_back(lib)
            },
            None => acc,
        }
    } else {
        acc
    }
}

pub open spec fn attr_libs(l: List<Attribute>, acc: List<Symbol>) -> List<Symbol>
    decreases l,
{
    match l {
        List::Nil => acc,
        List::Cons(h, t) => attr_libs(*t, libs_with(*h, acc)),
    }
}

pub fn add_libs(l: &List<Attribute>, acc: List<Symbol>) -> (r: List<Symbol>)
    ensures
        r == attr_libs(*l, acc),
    decreases l,
{
    match l {
        List::Nil => acc,
        List::Cons(h, t) => add_libs(&**t, add_lib(&**h, acc)),
    }
}

/// `l` with `ty` for `local`, in place of what it has there.
pub open spec fn with_local(l: List<LocalTy>, local: LocalId, ty: Ty) -> List<LocalTy>
    decreases l,
{
    match l {
        List::Nil => List::one(LocalTy { local, ty }),
        List::Cons(h, t) => if h.local == local {
            List::Cons(Box::new(LocalTy { local, ty }), t)
        } else {
            List::Cons(h, Box::new(with_local(*t, local, ty)))
        },
    }
}

fn set_local(l: List<LocalTy>, local: LocalId, ty: Ty) -> (r: List<LocalTy>)
    ensures
        r == with_local(l, local, ty),
    decreases l,
{
    match l {
        List::Nil => List::single(LocalTy { local, ty }),
        List::Cons(h, t) => if h.local == local {
            List::Cons(Box::new(LocalTy { local, ty }), t)
        } else {
            List::Cons(h, Box::new(set_local(*t, local, ty)))
        },
    }
}

impl Ck {
    /// The libraries that `@Link(lib = "..")` names on the definitions `l`, in the
    /// order they are first named.
    #[verifier::opaque]
    pub open spec fn collect_link_libs(self, l: List<DefId>, acc: List<Symbol>) -> List<Symbol>
        decreases l,
    {
        match l {
            List::Nil => acc,
            List::Cons(h, t) => self.collect_link_libs(*t, attr_libs(self.p.def_of(*h).attrs, acc)),
        }
    }

    /// `acc` with the type of a local; a local without one keeps what it has there,
    /// or else has the type of an error.
    #[verifier::opaque]
    pub open spec fn record_local(self, local: LocalId, acc: List<LocalTy>) -> List<LocalTy> {
        match self.local_ty(local) {
            Some(ty) => with_local(acc, local, ty),
            None => if crate::check::local_ty_in(acc, local) is Some {
                acc
            } else {
                acc.snoc(LocalTy { local, ty: ERROR_TY })
            },
        }
    }

    #[verifier::opaque]
    pub open spec fn record_opt_local(self, local: Option<LocalId>, acc: List<LocalTy>) -> List<LocalTy> {
        match local {
            Some(l) => self.record_local(l, acc),
            None => acc,
        }
    }

    #[verifier::opaque]
    pub open spec fn record_locals(self, l: List<LocalTy>, acc: List<LocalTy>) -> List<LocalTy>
        decreases l,
    {
        match l {
            List::Nil => acc,
            List::Cons(h, t) => self.record_locals(*t, self.record_local(h.local, acc)),
        }
    }

    #[verifier::opaque]
    pub open spec fn record_ids(self, l: List<LocalId>, acc: List<LocalTy>) -> List<LocalTy>
        decreases l,
    {
        match l {
            List::Nil => acc,
            List::Cons(h, t) => self.record_ids(*t, self.record_local(*h, acc)),
        }
    }

    /// The locals of a node below `limit` and its parts.
    pub open spec fn record_node_locals(self, n: NodeId, limit: NodeId, acc: List<LocalTy>) -> List<LocalTy>
        decreases limit, 0int, acc,
    {
        if n >= limit {
            acc
        } else {
            match self.node(n) {
                Some(x) => self.record_kind_locals(x.kind, n, acc),
                None => acc,
            }
        }
    }

    pub open spec fn record_kind_locals(self, k: NodeKind, limit: NodeId, acc: List<LocalTy>) -> List<LocalTy>
        decreases limit, 6int, k,
    {
        match k {
            NodeKind::Name(ValueRes::Local(id)) => self.record_local(id, acc),
            NodeKind::Tuple(xs) | NodeKind::ListLit(xs) | NodeKind::Intrinsic { args: xs, .. } => self.record_each(
                xs,
                limit,
                acc,
            ),
            NodeKind::Unary { operand: x, .. }
            | NodeKind::Cast { expr: x, .. }
            | NodeKind::Ref(x)
            | NodeKind::Deref(x)
            | NodeKind::Adjust { expr: x, .. }
            | NodeKind::Try { expr: x, .. }
            | NodeKind::Await { expr: x, .. }
            | NodeKind::Spawn { expr: x, .. }
            | NodeKind::Field { receiver: x, .. }
            | NodeKind::TupleIndex { receiver: x, .. } => self.record_node_locals(x, limit, acc),
            NodeKind::Binary {
                left: a,
                right: b,
                ..
            } | NodeKind::Index { receiver: a, index: b } => self.record_node_locals(
                b,
                limit,
                self.record_node_locals(a, limit, acc),
            ),
            NodeKind::Return(v) | NodeKind::Break(v) => self.record_opt_node(v, limit, acc),
            NodeKind::Call { args, kind, .. } => self.record_each(
                args,
                limit,
                self.record_callee(kind, limit, acc),
            ),
            NodeKind::Struct { fields, spread, .. } => self.record_opt_node(
                spread,
                limit,
                self.record_inits(fields, limit, acc),
            ),
            NodeKind::Str(parts) => self.record_parts(parts, limit, acc),
            NodeKind::MapLit(entries) => self.record_entries(entries, limit, acc),
            NodeKind::If { cond, then_block, else_branch } => self.record_opt_node(
                else_branch,
                limit,
                self.record_block_locals(then_block, limit, self.record_node_locals(cond, limit, acc)),
            ),
            NodeKind::Match { scrutinee, arms } => self.record_arms(
                arms,
                limit,
                self.record_node_locals(scrutinee, limit, acc),
            ),
            NodeKind::Block(b) | NodeKind::Loop(b) => self.record_block_locals(b, limit, acc),
            NodeKind::While { cond, body } => self.record_block_locals(
                body,
                limit,
                self.record_node_locals(cond, limit, acc),
            ),
            NodeKind::For { pattern, iter, body, .. } => self.record_block_locals(
                body,
                limit,
                self.record_node_locals(iter, limit, self.record_pattern_locals(pattern, limit, acc)),
            ),
            NodeKind::Closure { params, captures, body, .. } => self.record_node_locals(
                body,
                limit,
                self.record_locals(captures, self.record_locals(params, acc)),
            ),
            NodeKind::AsyncBlock { params, captures, body, .. } => self.record_block_locals(
                body,
                limit,
                self.record_locals(captures, self.record_locals(params, acc)),
            ),
            _ => acc,
        }
    }

    pub open spec fn record_opt_node(self, n: Option<NodeId>, limit: NodeId, acc: List<LocalTy>) -> List<LocalTy>
        decreases limit, 1int, acc,
    {
        match n {
            Some(x) => self.record_node_locals(x, limit, acc),
            None => acc,
        }
    }

    pub open spec fn record_each(self, l: List<NodeId>, limit: NodeId, acc: List<LocalTy>) -> List<LocalTy>
        decreases limit, 1int, l,
    {
        match l {
            List::Nil => acc,
            List::Cons(h, t) => self.record_each(*t, limit, self.record_node_locals(*h, limit, acc)),
        }
    }

    /// A called value is part of the call.
    pub open spec fn record_callee(self, k: CallKind, limit: NodeId, acc: List<LocalTy>) -> List<LocalTy>
        decreases limit, 1int, acc,
    {
        match k {
            CallKind::Closure { callee } => self.record_node_locals(callee, limit, acc),
            _ => acc,
        }
    }

    pub open spec fn record_inits(self, l: List<HirFieldInit>, limit: NodeId, acc: List<LocalTy>) -> List<LocalTy>
        decreases limit, 1int, l,
    {
        match l {
            List::Nil => acc,
            List::Cons(h, t) => self.record_inits(*t, limit, self.record_node_locals(h.value, limit, acc)),
        }
    }

    pub open spec fn record_parts(self, l: List<StrPart>, limit: NodeId, acc: List<LocalTy>) -> List<LocalTy>
        decreases limit, 1int, l,
    {
        match l {
            List::Nil => acc,
            List::Cons(h, t) => match *h {
                StrPart::Interp { expr, .. } => self.record_parts(
                    *t,
                    limit,
                    self.record_node_locals(expr, limit, acc),
                ),
                StrPart::Text(_) => self.record_parts(*t, limit, acc),
            },
        }
    }

    pub open spec fn record_entries(self, l: List<MapEntry>, limit: NodeId, acc: List<LocalTy>) -> List<LocalTy>
        decreases limit, 1int, l,
    {
        match l {
            List::Nil => acc,
            List::Cons(h, t) => match *h {
                MapEntry::Kv { key, value } => self.record_entries(
                    *t,
                    limit,
                    self.record_node_locals(value, limit, self.record_node_locals(key, limit, acc)),
                ),
                MapEntry::Spread(e) => self.record_entries(*t, limit, self.record_node_locals(e, limit, acc)),
            },
        }
    }

    pub open spec fn record_arms(self, l: List<HirArm>, limit: NodeId, acc: List<LocalTy>) -> List<LocalTy>
        decreases limit, 4int, l,
    {
        match l {
            List::Nil => acc,
            List::Cons(h, t) => self.record_arms(
                *t,
                limit,
                self.record_node_locals(
                    h.body,
                    limit,
                    self.record_opt_node(h.guard, limit, self.record_pattern_locals(h.pattern, limit, acc)),
                ),
            ),
        }
    }

    pub open spec fn record_block_locals(self, b: HirBlock, limit: NodeId, acc: List<LocalTy>) -> List<LocalTy>
        decreases limit, 5int, b,
    {
        self.record_opt_node(b.trailing, limit, self.record_stmts(b.stmts, limit, acc))
    }

    pub open spec fn record_stmts(self, l: List<HirStmt>, limit: NodeId, acc: List<LocalTy>) -> List<LocalTy>
        decreases limit, 4int, l,
    {
        match l {
            List::Nil => acc,
            List::Cons(h, t) => match h.kind {
                HirStmtKind::Let { pattern, init } => self.record_stmts(
                    *t,
                    limit,
                    self.record_node_locals(init, limit, self.record_pattern_locals(pattern, limit, acc)),
                ),
                HirStmtKind::Assign { target, value } => self.record_stmts(
                    *t,
                    limit,
                    self.record_node_locals(value, limit, self.record_node_locals(target, limit, acc)),
                ),
                HirStmtKind::Expr(e) => self.record_stmts(*t, limit, self.record_node_locals(e, limit, acc)),
                HirStmtKind::Item(_) => self.record_stmts(*t, limit, acc),
            },
        }
    }

    /// The locals that a pattern binds or compares with.
    pub open spec fn record_pattern_locals(self, p: HirPattern, limit: NodeId, acc: List<LocalTy>) -> List<LocalTy>
        decreases limit, 3int, p,
    {
        match p.kind {
            HirPatternKind::Bind(id) => self.record_local(id, acc),
            HirPatternKind::TypeBind { bind, .. } => self.record_opt_local(bind, acc),
            HirPatternKind::Literal(e) => self.record_node_locals(e, limit, acc),
            HirPatternKind::TupleStruct { fields, rest, .. } => self.record_rest(
                rest,
                self.record_patterns(fields, limit, acc),
            ),
            HirPatternKind::RecordStruct { fields, .. } => self.record_field_patterns(fields, limit, acc),
            HirPatternKind::Tuple { elems, rest } | HirPatternKind::ListPat { elems, rest } => self.record_rest_at(
                rest,
                self.record_patterns(elems, limit, acc),
            ),
            HirPatternKind::Or(ps) => self.record_patterns(ps, limit, acc),
            HirPatternKind::Wildcard | HirPatternKind::UnitPath { .. } => acc,
        }
    }

    #[verifier::opaque]
    pub open spec fn record_rest(self, rest: Option<HirRest>, acc: List<LocalTy>) -> List<LocalTy> {
        match rest {
            Some(r) => self.record_opt_local(r.bind, acc),
            None => acc,
        }
    }

    #[verifier::opaque]
    pub open spec fn record_rest_at(self, rest: Option<HirRestAt>, acc: List<LocalTy>) -> List<LocalTy> {
        match rest {
            Some(r) => self.record_opt_local(r.rest.bind, acc),
            None => acc,
        }
    }

    pub open spec fn record_patterns(self, l: List<HirPattern>, limit: NodeId, acc: List<LocalTy>) -> List<LocalTy>
        decreases limit, 3int, l,
    {
        match l {
            List::Nil => acc,
            List::Cons(h, t) => self.record_patterns(*t, limit, self.record_pattern_locals(*h, limit, acc)),
        }
    }

    pub open spec fn record_field_patterns(
        self,
        l: List<HirFieldPattern>,
        limit: NodeId,
        acc: List<LocalTy>,
    ) -> List<LocalTy>
        decreases limit, 3int, l,
    {
        match l {
            List::Nil => acc,
            List::Cons(h, t) => self.record_field_patterns(
                *t,
                limit,
                self.record_pattern_locals(h.pattern, limit, acc),
            ),
        }
    }

    /// Where the body of a definition is, if it has one.
    #[verifier::opaque]
    pub open spec fn body_span(self, def: DefId) -> Option<Span> {
        match self.p.def_of(def).item {
            Some(ItemKind::Function(f)) => match f.body {
                Some(b) => Some(b.span),
                None => None,
            },
            Some(ItemKind::Test(t)) => Some(t.body.span),
            _ => None,
        }
    }

    /// A function, method or test with a body.
    #[verifier::opaque]
    pub open spec fn has_body(self, def: DefId) -> bool {
        let kind = self.p.def_of(def).kind;
        let own = kind == DefKind::Function || kind == DefKind::ExtendMethod || kind == DefKind::Test;
        own && self.body_span(def) is Some
    }

    /// The recorded signature of a function; nothing goes in and nothing comes
    /// out of one that was not checked.
    #[verifier::opaque]
    pub open spec fn sig_or_empty(self, def: DefId) -> FnSig {
        match sig_in(self.fn_sigs, def) {
            Some(s) => s,
            None => FnSig { def, params: List::Nil, ret: NULL_TY, async_output: None },
        }
    }

    /// The body of `def` with its locals.
    #[verifier::opaque]
    pub open spec fn make_body(self, def: DefId, block: HirBlock, span: Span) -> Body {
        let sig = self.sig_or_empty(def);
        let params = ids_of(sig.params);
        let locals = self.record_block_locals(block, u32::MAX, self.record_ids(params, List::Nil));
        Body { def, params, locals, ret: sig.ret, async_output: sig.async_output, block, span }
    }

    /// The body of a definition that has one. A body that was not checked is empty.
    #[verifier::opaque]
    pub open spec fn finish_body(self, def: DefId) -> (Ck, Body) {
        let span = match self.body_span(def) {
            Some(s) => s,
            None => self.p.def_of(def).span,
        };
        let (s1, known) = (Ck { fn_bodies: List::Nil, ..self }, self.fn_bodies);
        let (found, rest) = without_body(known, def);
        let s2 = Ck { fn_bodies: rest, ..s1 };
        let block = match found {
            Some(b) => b,
            None => HirBlock { stmts: List::Nil, trailing: None, ty: NULL_TY, span },
        };
        (s2, s2.make_body(def, block, span))
    }

    #[verifier::opaque]
    pub open spec fn finish_bodies(self, l: List<DefId>) -> (Ck, List<Body>)
        decreases l,
    {
        match l {
            List::Nil => (self, List::Nil),
            List::Cons(h, t) => if self.has_body(*h) {
                let (s1, b) = self.finish_body(*h);
                let (s2, rest) = s1.finish_bodies(*t);
                (s2, List::Cons(Box::new(b), Box::new(rest)))
            } else {
                self.finish_bodies(*t)
            },
        }
    }
}

impl<'a> Cx<'a> {
    /// The libraries that `@Link(lib = "..")` names on the definitions `l`, in the
    /// order they are first named.
    pub fn collect_link_libs(&self, l: &List<DefId>, acc: List<Symbol>) -> (r: List<Symbol>)
        ensures
            r == self.view().collect_link_libs(*l, acc),
        decreases l,
    {
        proof {
            reveal(Ck::collect_link_libs);
        }
        match l {
            List::Nil => acc,
            List::Cons(h, t) => self.collect_link_libs(&**t, add_libs(&self.program().def(**h).attrs, acc)),
        }
    }

    /// `acc` with a local; a local without a type has the type of an error.
    pub fn record_local(&self, local: LocalId, acc: List<LocalTy>) -> (r: List<LocalTy>)
        ensures
            r == self.view().record_local(local, acc),
    {
        proof {
            reveal(Ck::record_local);
        }
        match self.local_ty(local) {
            Some(ty) => set_local(acc, local, ty),
            None => if find_local_ty(&acc, local).is_some() {
                acc
            } else {
                acc.push_back(LocalTy { local, ty: ERROR_TY })
            },
        }
    }

    pub fn record_opt_local(&self, local: Option<LocalId>, acc: List<LocalTy>) -> (r: List<LocalTy>)
        ensures
            r == self.view().record_opt_local(local, acc),
    {
        proof {
            reveal(Ck::record_opt_local);
        }
        match local {
            Some(l) => self.record_local(l, acc),
            None => acc,
        }
    }

    pub fn record_locals(&self, l: &List<LocalTy>, acc: List<LocalTy>) -> (r: List<LocalTy>)
        ensures
            r == self.view().record_locals(*l, acc),
        decreases l,
    {
        proof {
            reveal(Ck::record_locals);
        }
        match l {
            List::Nil => acc,
            List::Cons(h, t) => self.record_locals(&**t, self.record_local(h.local, acc)),
        }
    }

    pub fn record_ids(&self, l: &List<LocalId>, acc: List<LocalTy>) -> (r: List<LocalTy>)
        ensures
            r == self.view().record_ids(*l, acc),
        decreases l,
    {
        proof {
            reveal(Ck::record_ids);
        }
        match l {
            List::Nil => acc,
            List::Cons(h, t) => self.record_ids(&**t, self.record_local(**h, acc)),
        }
    }

    /// The locals of a node below `limit` and its parts.
    pub fn record_node_locals(&self, n: NodeId, limit: NodeId, acc: List<LocalTy>) -> (r: List<LocalTy>)
        ensures
            r == self.view().record_node_locals(n, limit, acc),
        decreases limit, 0int, acc,
    {
        if n >= limit {
            acc
        } else {
            match self.node(n) {
                Some(x) => self.record_kind_locals(&x.kind, n, acc),
                None => acc,
            }
        }
    }

    pub fn record_kind_locals(&self, k: &NodeKind, limit: NodeId, acc: List<LocalTy>) -> (r: List<LocalTy>)
        ensures
            r == self.view().record_kind_locals(*k, limit, acc),
        decreases limit, 6int, k,
    {
        match k {
            NodeKind::Name(ValueRes::Local(id)) => self.record_local(*id, acc),
            NodeKind::Tuple(xs) | NodeKind::ListLit(xs) | NodeKind::Intrinsic { args: xs, .. } => self.record_each(
                xs,
                limit,
                acc,
            ),
            NodeKind::Unary { operand: x, .. } | NodeKind::Cast { expr: x, .. } | NodeKind::Ref(x) | NodeKind::Deref(x)
            | NodeKind::Adjust { expr: x, .. } | NodeKind::Try { expr: x, .. } | NodeKind::Await { expr: x, .. }
            | NodeKind::Spawn { expr: x, .. } | NodeKind::Field { receiver: x, .. }
            | NodeKind::TupleIndex { receiver: x, .. } => self.record_node_locals(*x, limit, acc),
            NodeKind::Binary { left: a, right: b, .. } | NodeKind::Index { receiver: a, index: b } => self.record_node_locals(
                *b,
                limit,
                self.record_node_locals(*a, limit, acc),
            ),
            NodeKind::Return(v) | NodeKind::Break(v) => self.record_opt_node(*v, limit, acc),
            NodeKind::Call { args, kind, .. } => self.record_each(args, limit, self.record_callee(kind, limit, acc)),
            NodeKind::Struct { fields, spread, .. } => self.record_opt_node(
                *spread,
                limit,
                self.record_inits(fields, limit, acc),
            ),
            NodeKind::Str(parts) => self.record_parts(parts, limit, acc),
            NodeKind::MapLit(entries) => self.record_entries(entries, limit, acc),
            NodeKind::If { cond, then_block, else_branch } => self.record_opt_node(
                *else_branch,
                limit,
                self.record_block_locals(then_block, limit, self.record_node_locals(*cond, limit, acc)),
            ),
            NodeKind::Match { scrutinee, arms } => self.record_arms(
                arms,
                limit,
                self.record_node_locals(*scrutinee, limit, acc),
            ),
            NodeKind::Block(b) | NodeKind::Loop(b) => self.record_block_locals(b, limit, acc),
            NodeKind::While { cond, body } => self.record_block_locals(
                body,
                limit,
                self.record_node_locals(*cond, limit, acc),
            ),
            NodeKind::For { pattern, iter, body, .. } => self.record_block_locals(
                body,
                limit,
                self.record_node_locals(*iter, limit, self.record_pattern_locals(pattern, limit, acc)),
            ),
            NodeKind::Closure { params, captures, body, .. } => self.record_node_locals(
                *body,
                limit,
                self.record_locals(captures, self.record_locals(params, acc)),
            ),
            NodeKind::AsyncBlock { params, captures, body, .. } => self.record_block_locals(
                body,
                limit,
                self.record_locals(captures, self.record_locals(params, acc)),
            ),
            _ => acc,
        }
    }

    pub fn record_opt_node(&self, n: Option<NodeId>, limit: NodeId, acc: List<LocalTy>) -> (r: List<LocalTy>)
        ensures
            r == self.view().record_opt_node(n, limit, acc),
        decreases limit, 1int, acc,
    {
        match n {
            Some(x) => self.record_node_locals(x, limit, acc),
            None => acc,
        }
    }

    pub fn record_each(&self, l: &List<NodeId>, limit: NodeId, acc: List<LocalTy>) -> (r: List<LocalTy>)
        ensures
            r == self.view().record_each(*l, limit, acc),
        decreases limit, 1int, l,
    {
        match l {
            List::Nil => acc,
            List::Cons(h, t) => self.record_each(&**t, limit, self.record_node_locals(**h, limit, acc)),
        }
    }

    /// A called value is part of the call.
    pub fn record_callee(&self, k: &CallKind, limit: NodeId, acc: List<LocalTy>) -> (r: List<LocalTy>)
        ensures
            r == self.view().record_callee(*k, limit, acc),
        decreases limit, 1int, acc,
    {
        match k {
            CallKind::Closure { callee } => self.record_node_locals(*callee, limit, acc),
            _ => acc,
        }
    }

    pub fn record_inits(&self, l: &List<HirFieldInit>, limit: NodeId, acc: List<LocalTy>) -> (r: List<LocalTy>)
        ensures
            r == self.view().record_inits(*l, limit, acc),
        decreases limit, 1int, l,
    {
        match l {
            List::Nil => acc,
            List::Cons(h, t) => self.record_inits(&**t, limit, self.record_node_locals(h.value, limit, acc)),
        }
    }

    pub fn record_parts(&self, l: &List<StrPart>, limit: NodeId, acc: List<LocalTy>) -> (r: List<LocalTy>)
        ensures
            r == self.view().record_parts(*l, limit, acc),
        decreases limit, 1int, l,
    {
        match l {
            List::Nil => acc,
            List::Cons(h, t) => match &**h {
                StrPart::Interp { expr, .. } => self.record_parts(
                    &**t,
                    limit,
                    self.record_node_locals(*expr, limit, acc),
                ),
                StrPart::Text(_) => self.record_parts(&**t, limit, acc),
            },
        }
    }

    pub fn record_entries(&self, l: &List<MapEntry>, limit: NodeId, acc: List<LocalTy>) -> (r: List<LocalTy>)
        ensures
            r == self.view().record_entries(*l, limit, acc),
        decreases limit, 1int, l,
    {
        match l {
            List::Nil => acc,
            List::Cons(h, t) => match &**h {
                MapEntry::Kv { key, value } => self.record_entries(
                    &**t,
                    limit,
                    self.record_node_locals(*value, limit, self.record_node_locals(*key, limit, acc)),
                ),
                MapEntry::Spread(e) => self.record_entries(&**t, limit, self.record_node_locals(*e, limit, acc)),
            },
        }
    }

    pub fn record_arms(&self, l: &List<HirArm>, limit: NodeId, acc: List<LocalTy>) -> (r: List<LocalTy>)
        ensures
            r == self.view().record_arms(*l, limit, acc),
        decreases limit, 4int, l,
    {
        match l {
            List::Nil => acc,
            List::Cons(h, t) => self.record_arms(
                &**t,
                limit,
                self.record_node_locals(
                    h.body,
                    limit,
                    self.record_opt_node(h.guard, limit, self.record_pattern_locals(&h.pattern, limit, acc)),
                ),
            ),
        }
    }

    pub fn record_block_locals(&self, b: &HirBlock, limit: NodeId, acc: List<LocalTy>) -> (r: List<LocalTy>)
        ensures
            r == self.view().record_block_locals(*b, limit, acc),
        decreases limit, 5int, b,
    {
        self.record_opt_node(b.trailing, limit, self.record_stmts(&b.stmts, limit, acc))
    }

    pub fn record_stmts(&self, l: &List<HirStmt>, limit: NodeId, acc: List<LocalTy>) -> (r: List<LocalTy>)
        ensures
            r == self.view().record_stmts(*l, limit, acc),
        decreases limit, 4int, l,
    {
        match l {
            List::Nil => acc,
            List::Cons(h, t) => match &h.kind {
                HirStmtKind::Let { pattern, init } => self.record_stmts(
                    &**t,
                    limit,
                    self.record_node_locals(*init, limit, self.record_pattern_locals(pattern, limit, acc)),
                ),
                HirStmtKind::Assign { target, value } => self.record_stmts(
                    &**t,
                    limit,
                    self.record_node_locals(*value, limit, self.record_node_locals(*target, limit, acc)),
                ),
                HirStmtKind::Expr(e) => self.record_stmts(&**t, limit, self.record_node_locals(*e, limit, acc)),
                HirStmtKind::Item(_) => self.record_stmts(&**t, limit, acc),
            },
        }
    }

    /// The locals that a pattern binds or compares with.
    pub fn record_pattern_locals(&self, p: &HirPattern, limit: NodeId, acc: List<LocalTy>) -> (r: List<LocalTy>)
        ensures
            r == self.view().record_pattern_locals(*p, limit, acc),
        decreases limit, 3int, p,
    {
        match &p.kind {
            HirPatternKind::Bind(id) => self.record_local(*id, acc),
            HirPatternKind::TypeBind { bind, .. } => self.record_opt_local(*bind, acc),
            HirPatternKind::Literal(e) => self.record_node_locals(*e, limit, acc),
            HirPatternKind::TupleStruct { fields, rest, .. } => self.record_rest(
                *rest,
                self.record_patterns(fields, limit, acc),
            ),
            HirPatternKind::RecordStruct { fields, .. } => self.record_field_patterns(fields, limit, acc),
            HirPatternKind::Tuple { elems, rest } | HirPatternKind::ListPat { elems, rest } => self.record_rest_at(
                *rest,
                self.record_patterns(elems, limit, acc),
            ),
            HirPatternKind::Or(ps) => self.record_patterns(ps, limit, acc),
            HirPatternKind::Wildcard | HirPatternKind::UnitPath { .. } => acc,
        }
    }

    pub fn record_rest(&self, rest: Option<HirRest>, acc: List<LocalTy>) -> (r: List<LocalTy>)
        ensures
            r == self.view().record_rest(rest, acc),
    {
        proof {
            reveal(Ck::record_rest);
        }
        match rest {
            Some(r) => self.record_opt_local(r.bind, acc),
            None => acc,
        }
    }

    pub fn record_rest_at(&self, rest: Option<HirRestAt>, acc: List<LocalTy>) -> (r: List<LocalTy>)
        ensures
            r == self.view().record_rest_at(rest, acc),
    {
        proof {
            reveal(Ck::record_rest_at);
        }
        match rest {
            Some(r) => self.record_opt_local(r.rest.bind, acc),
            None => acc,
        }
    }

    pub fn record_patterns(&self, l: &List<HirPattern>, limit: NodeId, acc: List<LocalTy>) -> (r: List<LocalTy>)
        ensures
            r == self.view().record_patterns(*l, limit, acc),
        decreases limit, 3int, l,
    {
        match l {
            List::Nil => acc,
            List::Cons(h, t) => self.record_patterns(&**t, limit, self.record_pattern_locals(&**h, limit, acc)),
        }
    }

    pub fn record_field_patterns(
        &self,
        l: &List<HirFieldPattern>,
        limit: NodeId,
        acc: List<LocalTy>,
    ) -> (r: List<LocalTy>)
        ensures
            r == self.view().record_field_patterns(*l, limit, acc),
        decreases limit, 3int, l,
    {
        match l {
            List::Nil => acc,
            List::Cons(h, t) => self.record_field_patterns(
                &**t,
                limit,
                self.record_pattern_locals(&h.pattern, limit, acc),
            ),
        }
    }

    /// Where the body of a definition is, if it has one.
    pub fn body_span(&self, def: DefId) -> (r: Option<Span>)
        ensures
            r == self.view().body_span(def),
    {
        proof {
            reveal(Ck::body_span);
        }
        match &self.program().def(def).item {
            Some(ItemKind::Function(f)) => match &f.body {
                Some(b) => Some(b.span),
                None => None,
            },
            Some(ItemKind::Test(t)) => Some(t.body.span),
            _ => None,
        }
    }

    /// A function, method or test with a body.
    pub fn has_body(&self, def: DefId) -> (r: bool)
        ensures
            r == self.view().has_body(def),
    {
        proof {
            reveal(Ck::has_body);
        }
        let kind = self.program().def(def).kind;
        let own = kind == DefKind::Function || kind == DefKind::ExtendMethod || kind == DefKind::Test;
        own && self.body_span(def).is_some()
    }

    /// The recorded signature of a function; nothing goes in and nothing comes
    /// out of one that was not checked.
    pub fn sig_or_empty(&self, def: DefId) -> (r: FnSig)
        ensures
            r == self.view().sig_or_empty(def),
    {
        proof {
            reveal(Ck::sig_or_empty);
        }
        match find_sig(self.fn_sigs(), def) {
            Some(s) => s,
            None => FnSig { def, params: List::Nil, ret: NULL_TY, async_output: None },
        }
    }

    /// The body of `def` with its locals.
    pub fn make_body(&self, def: DefId, block: HirBlock, span: Span) -> (r: Body)
        ensures
            r == self.view().make_body(def, block, span),
    {
        proof {
            reveal(Ck::make_body);
        }
        let sig = self.sig_or_empty(def);
        let params = local_ids(&sig.params);
        let locals = self.record_block_locals(&block, u32::MAX, self.record_ids(&params, List::Nil));
        Body { def, params, locals, ret: sig.ret, async_output: sig.async_output, block, span }
    }

    /// The body of a definition that has one. A body that was not checked is empty.
    pub fn finish_body(&mut self, def: DefId) -> (r: Body)
        ensures
            final(self).answers(r, old(self).view().finish_body(def)),
            old(self).view().grows_to(final(self).view()),
    {
        proof {
            reveal(Ck::finish_body);
        }
        let span = match self.body_span(def) {
            Some(s) => s,
            None => self.program().def(def).span,
        };
        let known = self.take_fn_bodies();
        let (found, rest) = split_body(known, def);
        self.set_fn_bodies(rest);
        let block = match found {
            Some(b) => b,
            None => HirBlock { stmts: List::Nil, trailing: None, ty: NULL_TY, span },
        };
        self.make_body(def, block, span)
    }

    pub fn finish_bodies(&mut self, l: &List<DefId>) -> (r: List<Body>)
        ensures
            final(self).answers(r, old(self).view().finish_bodies(*l)),
            old(self).view().grows_to(final(self).view()),
        decreases l,
    {
        proof {
            reveal(Ck::finish_bodies);
        }
        match l {
            List::Nil => List::Nil,
            List::Cons(h, t) => if self.has_body(**h) {
                let b = self.finish_body(**h);
                let rest = self.finish_bodies(&**t);
                List::Cons(Box::new(b), Box::new(rest))
            } else {
                self.finish_bodies(&**t)
            },
        }
    }
}

} // verus!
