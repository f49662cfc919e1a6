//! Statements and assignment targets.
use vstd::prelude::*;
use crate::ast::{Block, Expr, ExprKind, FieldInit, Pattern, PatternKind, Stmt, StmtKind};
use crate::check::nodes::{bare, shape_of, Callee};
use crate::check::{take_list, Ck, Cx, LockRoot};
use crate::diag::{Problem, SemaErrorKind};
use crate::hir::LocalTy;
use crate::ids::LocalId;
use crate::list::{dup, List};
use crate::results::ValueRes;
use crate::span::Span;
use crate::symbols::DefKind;
use crate::ty::{Ty, ERROR_TY, NULL_TY};

verus! {

broadcast use {crate::check::law_grows_reflexive, crate::check::law_grows_transitive};

/// The base of the lock that `local` refers into.
pub open spec fn root_base(l: List<LockRoot>, local: LocalId) -> Option<u32>
    decreases l,
{
    match l {
        List::Nil => None,
        List::Cons(h, t) => if h.local == local {
            Some(h.base)
        } else {
            root_base(*t, local)
        },
    }
}

/// The base of the lock that `local` refers into.
pub fn find_root(l: &List<LockRoot>, local: LocalId) -> (r: Option<u32>)
    ensures
        r == root_base(*l, local),
    decreases l,
{
    match l {
        List::Nil => None,
        List::Cons(h, t) => if h.local == local {
            Some(h.base)
        } else {
            find_root(&**t, local)
        },
    }
}

/// `acc` with each of `params` as a root of the lock whose first local is `base`.
pub open spec fn roots_with(params: List<LocalTy>, base: u32, acc: List<LockRoot>) -> List<LockRoot>
    decreases params,
{
    match params {
        List::Nil => acc,
        List::Cons(h, t) => roots_with(
            *t,
            base,
            List::Cons(Box::new(LockRoot { local: h.local, base }), Box::new(acc)),
        ),
    }
}

/// `acc` with each of `params` as a root of the lock whose first local is `base`.
pub fn add_roots(params: &List<LocalTy>, base: u32, acc: List<LockRoot>) -> (r: List<LockRoot>)
    ensures
        r == roots_with(*params, base, acc),
    decreases params,
{
    match params {
        List::Nil => acc,
        List::Cons(h, t) => add_roots(
            &**t,
            base,
            List::Cons(Box::new(LockRoot { local: h.local, base }), Box::new(acc)),
        ),
    }
}

pub open spec fn discards(e: Expr) -> bool {
    match e.kind {
        ExprKind::Underscore => true,
        _ => false,
    }
}

pub fn is_discard(e: &Expr) -> (r: bool)
    ensures
        r == discards(*e),
{
    match &e.kind {
        ExprKind::Underscore => true,
        _ => false,
    }
}

pub open spec fn awaits_now(e: Expr) -> bool {
    match e.kind {
        ExprKind::Await { .. } => true,
        _ => false,
    }
}

pub fn is_await(e: &Expr) -> (r: bool)
    ensures
        r == awaits_now(*e),
{
    match &e.kind {
        ExprKind::Await { .. } => true,
        _ => false,
    }
}

impl Ck {
    /// The local that a place starts from.
    #[verifier::opaque]
    pub open spec fn root_local(self, e: Expr) -> Option<LocalId>
        decreases e,
    {
        match e.kind {
            ExprKind::Paren(inner) => self.root_local(*inner),
            ExprKind::Ident(_) => match self.resolution(e.span) {
                Some(ValueRes::Local(id)) => Some(id),
                _ => None,
            },
            ExprKind::Field { receiver, .. } => self.root_local(*receiver),
            ExprKind::TupleIndex { receiver, .. } => self.root_local(*receiver),
            ExprKind::Index { receiver, .. } => self.root_local(*receiver),
            _ => None,
        }
    }

    /// The base of the held lock whose value the place `e` refers into, unless its
    /// value can be shared.
    #[verifier::opaque]
    pub open spec fn place_base(self, e: Expr) -> Option<u32> {
        if self.is_shareable(self.ty_at(e.span)) {
            None
        } else {
            match self.root_local(e) {
                Some(id) => root_base(self.lock_roots, id),
                None => None,
            }
        }
    }

    /// The base of the held lock that a value refers into: a place in the locked
    /// value, or an aggregate that holds one.
    pub open spec fn live_base(self, e: Expr) -> Option<u32>
        decreases e, 2int,
    {
        match e.kind {
            ExprKind::Paren(inner) => self.live_base(*inner),
            ExprKind::Ident(_)
            | ExprKind::Field { .. }
            | ExprKind::TupleIndex { .. }
            | ExprKind::Index { .. } => self.place_base(e),
            ExprKind::Tuple(elems) | ExprKind::List(elems) => self.live_in(elems),
            ExprKind::StructLit { fields, .. } => self.live_field(fields),
            _ => None,
        }
    }

    pub open spec fn live_in(self, l: List<Expr>) -> Option<u32>
        decreases l, 1int,
    {
        match l {
            List::Nil => None,
            List::Cons(h, t) => match self.live_base(*h) {
                Some(b) => Some(b),
                None => self.live_in(*t),
            },
        }
    }

    pub open spec fn live_field(self, l: List<FieldInit>) -> Option<u32>
        decreases l, 1int,
    {
        match l {
            List::Nil => None,
            List::Cons(h, t) => match h.value {
                Some(v) => match self.live_base(v) {
                    Some(b) => Some(b),
                    None => self.live_field(*t),
                },
                None => self.live_field(*t),
            },
        }
    }

    /// What is stored at `target` is gone when the lock with that base is released.
    #[verifier::opaque]
    pub open spec fn is_within(self, target: Expr, base: u32) -> bool {
        discards(target) || match self.root_local(target) { Some(id) => { id.0 >= base }, None => { false }, }
    }

    /// A reference into a locked value must not be stored where it outlives the
    /// lock.
    #[verifier::opaque]
    pub open spec fn check_stored(self, target: Expr, value: Expr) -> Ck {
        match self.live_base(value) {
            Some(base) => if !self.is_within(target, base) {
                let s1 = self.say(
                    "a reference into the locked value would escape the lock body; `.clone()` it"@,
                    value.span,
                );
                s1
            } else {
                self
            },
            None => self,
        }
    }

    #[verifier::opaque]
    pub open spec fn check_passed(self, callee: Expr, l: List<Expr>) -> Ck
        decreases l,
    {
        match l {
            List::Nil => self,
            List::Cons(h, t) => {
                let s1 = self.check_handed(callee, *h);
                let s2 = s1.check_passed(callee, *t);
                s2
            },
        }
    }

    /// A reference into a locked value must not be passed to a call that could
    /// keep it, other than a method of what the lock holds.
    #[verifier::opaque]
    pub open spec fn check_handed(self, callee: Expr, arg: Expr) -> Ck {
        match self.live_base(arg) {
            Some(base) => {
                let kept = match callee.kind {
                    ExprKind::Field { receiver, .. } => self.is_within(*receiver, base),
                    _ => false,
                };
                if !kept {
                    let s1 = self.say(
                        "passing a reference into the locked value to this call could let it escape the lock body; `.clone()` it"@,
                        arg.span,
                    );
                    s1
                } else {
                    self
                }
            },
            None => self,
        }
    }

    /// A variable that holds a reference into a locked value is one itself.
    #[verifier::opaque]
    pub open spec fn track_alias(self, p: Pattern, init: Expr) -> Ck {
        match self.live_base(init) {
            Some(base) => match p.kind {
                PatternKind::Binding(name) => match self.lookup(name.name) {
                    Some(b) => self.add_root(b.local, base),
                    None => self,
                },
                _ => self,
            },
            None => self,
        }
    }

    /// Records a reference into a locked value.
    #[verifier::opaque]
    pub open spec fn add_root(self, local: LocalId, base: u32) -> Ck {
        let (s1, l) = (Ck { lock_roots: List::Nil, ..self }, self.lock_roots);
        let s2 = Ck { lock_roots: List::Cons(Box::new(LockRoot { local, base }), Box::new(l)), ..s1 };
        s2
    }

    /// The type of a block whose last expression has type `t`.
    #[verifier::opaque]
    pub open spec fn tail_type(self, t: Ty, expected: Option<Ty>, span: Span) -> (Ck, Ty) {
        match expected {
            Some(exp) => {
                let s1 = self.expect(t, exp, span);
                (s1, if s1.assignable(t, exp) && t != exp && (s1.is_union(exp) || s1.is_dynamic(exp)) {
                    exp
                } else {
                    t
                })
            },
            None => (self, t),
        }
    }

    /// A block has a scope of its own; its value is its last expression.
    pub open spec fn check_block(self, block: Block, expected: Option<Ty>) -> (Ck, Ty)
        decreases block, 2int,
    {
        let s1 = self.push_scope();
        let s2 = s1.check_stmts(block.stmts);
        let (s3, ty) = match block.trailing {
            Some(e) => {
                let (s4, t) = s2.check_expr(*e, expected);
                s4.tail_type(t, expected, e.span)
            },
            None => (s2, NULL_TY),
        };
        let s5 = s3.pop_scope();
        (s5, ty)
    }

    pub open spec fn check_stmts(self, l: List<Stmt>) -> Ck
        decreases l, 1int,
    {
        match l {
            List::Nil => self,
            List::Cons(h, t) => {
                let s1 = self.check_stmt(*h);
                let s2 = s1.check_stmts(*t);
                s2
            },
        }
    }

    pub open spec fn check_stmt(self, stmt: Stmt) -> Ck
        decreases stmt, 2int,
    {
        match stmt.kind {
            StmtKind::Var(local) => {
                let env = self.env();
                let (s1, annotated) = match local.ty {
                    Some(t) => {
                        let (s2, ty) = self.lower(t, env);
                        (s2, Some(ty))
                    },
                    None => (self, None),
                };
                let (s3, init_ty) = s1.check_expr(local.init, annotated);
                let (s4, binding_ty) = match annotated {
                    Some(ann) => {
                        let s5 = s3.expect(init_ty, ann, local.init.span);
                        (s5, ann)
                    },
                    None => (s3, init_ty),
                };
                let s6 = s4.bind_pattern(local.pattern, binding_ty);
                let s7 = s6.track_alias(local.pattern, local.init);
                s7
            },
            StmtKind::Assign { target, value } => {
                let (s8, target_ty) = self.check_lvalue(target);
                let (s9, v) = s8.check_expr(value, Some(target_ty));
                let s10 = s9.expect(v, target_ty, value.span);
                let s11 = s10.check_stored(target, value);
                s11
            },
            StmtKind::Expr(e) => {
                let (s12, t) = self.check_expr(e, None);
                if s12.is_future_ty(t) && !awaits_now(e) {
                    let s13 = s12.say(
                        "this `Future` is created but never used — `await` it, `spawn` it, or bind it (e.g. `var _ = …`)"@,
                        e.span,
                    );
                    s13
                } else {
                    s12
                }
            },
            StmtKind::Item(_) => self,
        }
    }

    /// The type that an assignment target holds.
    pub open spec fn check_lvalue(self, target: Expr) -> (Ck, Ty)
        decreases target, 14int,
    {
        let (s1, ty) = self.check_lvalue_inner(target);
        let (s2, node) = s1.build_node(target, ty);
        let s3 = match node {
            Some(n) => s2.put(target.span, n),
            None => s2,
        };
        (s3, ty)
    }

    pub open spec fn check_lvalue_inner(self, target: Expr) -> (Ck, Ty)
        decreases target, 13int,
    {
        match target.kind {
            ExprKind::Ident(name) => match self.lookup(name.name) {
                Some(b) => {
                    let s1 = self.capture(b.local, b.ty);
                    let s2 = s1.record_res(target.span, ValueRes::Local(b.local), b.ty);
                    (s2, b.ty)
                },
                None => match self.p.value_named(self.cur_module, name.name) {
                    Some(def) => if self.p.def_of(def).kind == DefKind::ExternVar {
                        let (s3, t) = self.value_def_ty(def);
                        let s4 = s3.record_res(target.span, ValueRes::Global(def), t);
                        (s4, t)
                    } else {
                        self.unknown_value(name.name, target.span)
                    },
                    None => self.unknown_value(name.name, target.span),
                },
            },
            ExprKind::Underscore => (self, ERROR_TY),
            ExprKind::Field { .. } => self.check_field(target),
            ExprKind::TupleIndex { .. } => self.check_tuple_index(target),
            ExprKind::Index { .. } => self.check_index(target),
            ExprKind::Deref { .. } => self.check_deref(target),
            _ => self.check_expr(target, None),
        }
    }

    #[verifier::opaque]
    pub open spec fn unknown_value(self, name: crate::names::Symbol, span: Span) -> (Ck, Ty) {
        let n = self.name(name);
        let s1 = self.fail(Problem::UnknownValue { name: n }, span);
        (s1, ERROR_TY)
    }
}

impl<'a> Cx<'a> {
    /// The local that a place starts from.
    pub fn root_local(&self, e: &Expr) -> (r: Option<LocalId>)
        ensures
            r == self.view().root_local(*e),
        decreases e,
    {
        proof {
            reveal(Ck::root_local);
        }
        match &e.kind {
            ExprKind::Paren(inner) => self.root_local(&**inner),
            ExprKind::Ident(_) => match self.resolution(e.span) {
                Some(ValueRes::Local(id)) => Some(id),
                _ => None,
            },
            ExprKind::Field { receiver, .. } => self.root_local(&**receiver),
            ExprKind::TupleIndex { receiver, .. } => self.root_local(&**receiver),
            ExprKind::Index { receiver, .. } => self.root_local(&**receiver),
            _ => None,
        }
    }

    /// The base of the held lock whose value the place `e` refers into, unless its
    /// value can be shared.
    pub fn place_base(&self, e: &Expr) -> (r: Option<u32>)
        ensures
            r == self.view().place_base(*e),
    {
        proof {
            reveal(Ck::place_base);
        }
        if self.is_thread_shareable(self.ty_at(e.span)) {
            return None;
        }
        match self.root_local(e) {
            Some(id) => find_root(self.lock_roots(), id),
            None => None,
        }
    }

    /// The base of the held lock that a value refers into: a place in the locked
    /// value, or an aggregate that holds one.
    pub fn live_base(&self, e: &Expr) -> (r: Option<u32>)
        ensures
            r == self.view().live_base(*e),
        decreases e, 2int,
    {
        match &e.kind {
            ExprKind::Paren(inner) => self.live_base(&**inner),
            ExprKind::Ident(_) | ExprKind::Field { .. } | ExprKind::TupleIndex { .. } | ExprKind::Index { .. } => self.place_base(
                e,
            ),
            ExprKind::Tuple(elems) | ExprKind::List(elems) => self.live_in(elems),
            ExprKind::StructLit { fields, .. } => self.live_field(fields),
            _ => None,
        }
    }

    pub fn live_in(&self, l: &List<Expr>) -> (r: Option<u32>)
        ensures
            r == self.view().live_in(*l),
        decreases l, 1int,
    {
        match l {
            List::Nil => None,
            List::Cons(h, t) => match self.live_base(&**h) {
                Some(b) => Some(b),
                None => self.live_in(&**t),
            },
        }
    }

    pub fn live_field(&self, l: &List<FieldInit>) -> (r: Option<u32>)
        ensures
            r == self.view().live_field(*l),
        decreases l, 1int,
    {
        match l {
            List::Nil => None,
            List::Cons(h, t) => match &h.value {
                Some(v) => match self.live_base(v) {
                    Some(b) => Some(b),
                    None => self.live_field(&**t),
                },
                None => self.live_field(&**t),
            },
        }
    }

    /// What is stored at `target` is gone when the lock with that base is released.
    pub fn is_within(&self, target: &Expr, base: u32) -> (r: bool)
        ensures
            r == self.view().is_within(*target, base),
    {
        proof {
            reveal(Ck::is_within);
        }
        is_discard(target) || match self.root_local(target) {
            Some(id) => id.0 >= base,
            None => false,
        }
    }

    /// A reference into a locked value must not be stored where it outlives the
    /// lock.
    pub fn check_stored(&mut self, target: &Expr, value: &Expr)
        ensures
            final(self).stands(old(self).view().check_stored(*target, *value)),
            old(self).view().grows_to(final(self).view()),
    {
        proof {
            reveal(Ck::check_stored);
        }
        match self.live_base(value) {
            Some(base) => if !self.is_within(target, base) {
                self.say("a reference into the locked value would escape the lock body; `.clone()` it", value.span);
            },
            None => {},
        }
    }

    pub fn check_passed(&mut self, callee: &Expr, l: &List<Expr>)
        ensures
            final(self).stands(old(self).view().check_passed(*callee, *l)),
            old(self).view().grows_to(final(self).view()),
        decreases l,
    {
        proof {
            reveal(Ck::check_passed);
        }
        match l {
            List::Nil => {},
            List::Cons(h, t) => {
                self.check_handed(callee, &**h);
                self.check_passed(callee, &**t);
            },
        }
    }

    /// A reference into a locked value must not be passed to a call that could
    /// keep it, other than a method of what the lock holds.
    pub fn check_handed(&mut self, callee: &Expr, arg: &Expr)
        ensures
            final(self).stands(old(self).view().check_handed(*callee, *arg)),
            old(self).view().grows_to(final(self).view()),
    {
        proof {
            reveal(Ck::check_handed);
        }
        match self.live_base(arg) {
            Some(base) => {
                let kept = match &callee.kind {
                    ExprKind::Field { receiver, .. } => self.is_within(&**receiver, base),
                    _ => false,
                };
                if !kept {
                    self.say(
                        "passing a reference into the locked value to this call could let it escape the lock body; `.clone()` it",
                        arg.span,
                    );
                }
            },
            None => {},
        }
    }

    /// A variable that holds a reference into a locked value is one itself.
    pub fn track_alias(&mut self, p: &Pattern, init: &Expr)
        ensures
            final(self).stands(old(self).view().track_alias(*p, *init)),
            old(self).view().grows_to(final(self).view()),
    {
        proof {
            reveal(Ck::track_alias);
        }
        match self.live_base(init) {
            Some(base) => match &p.kind {
                PatternKind::Binding(name) => match self.lookup(name.name) {
                    Some(b) => self.add_root(b.local, base),
                    None => {},
                },
                _ => {},
            },
            None => {},
        }
    }

    /// Records a reference into a locked value.
    pub fn add_root(&mut self, local: LocalId, base: u32)
        ensures
            final(self).stands(old(self).view().add_root(local, base)),
            old(self).view().grows_to(final(self).view()),
    {
        proof {
            reveal(Ck::add_root);
        }
        let l = self.take_lock_roots();
        self.set_lock_roots(List::Cons(Box::new(LockRoot { local, base }), Box::new(l)));
    }

    /// The type of a block whose last expression has type `t`.
    pub fn tail_type(&mut self, t: Ty, expected: Option<Ty>, span: Span) -> (r: Ty)
        ensures
            final(self).answers(r, old(self).view().tail_type(t, expected, span)),
            old(self).view().grows_to(final(self).view()),
    {
        proof {
            reveal(Ck::tail_type);
        }
        match expected {
            Some(exp) => {
                self.expect(t, exp, span);
                if self.assignable(t, exp) && t != exp && (self.is_union(exp) || self.is_dynamic(exp)) {
                    exp
                } else {
                    t
                }
            },
            None => t,
        }
    }

    /// A block has a scope of its own; its value is its last expression.
    pub fn check_block(&mut self, block: &Block, expected: Option<Ty>) -> (r: Ty)
        ensures
            final(self).answers(r, old(self).view().check_block(*block, expected)),
            old(self).view().grows_to(final(self).view()),
        decreases block, 2int,
    {
        self.push_scope();
        self.check_stmts(&block.stmts);
        let ty = match &block.trailing {
            Some(e) => {
                let t = self.check_expr(&**e, expected);
                self.tail_type(t, expected, e.span)
            },
            None => NULL_TY,
        };
        self.pop_scope();
        ty
    }

    pub fn check_stmts(&mut self, l: &List<Stmt>)
        ensures
            final(self).stands(old(self).view().check_stmts(*l)),
            old(self).view().grows_to(final(self).view()),
        decreases l, 1int,
    {
        match l {
            List::Nil => {},
            List::Cons(h, t) => {
                self.check_stmt(&**h);
                self.check_stmts(&**t);
            },
        }
    }

    pub fn check_stmt(&mut self, stmt: &Stmt)
        ensures
            final(self).stands(old(self).view().check_stmt(*stmt)),
            old(self).view().grows_to(final(self).view()),
        decreases stmt, 2int,
    {
        match &stmt.kind {
            StmtKind::Var(local) => {
                let env = self.local_env();
                let annotated = match &local.ty {
                    Some(t) => {
                        let ty = self.lower_ty(t, &env);
                        Some(ty)
                    },
                    None => None,
                };
                let init_ty = self.check_expr(&local.init, annotated);
                let binding_ty = match annotated {
                    Some(ann) => {
                        self.expect(init_ty, ann, local.init.span);
                        ann
                    },
                    None => init_ty,
                };
                self.bind_pattern(&local.pattern, binding_ty);
                self.track_alias(&local.pattern, &local.init);
            },
            StmtKind::Assign { target, value } => {
                let target_ty = self.check_lvalue(target);
                let v = self.check_expr(value, Some(target_ty));
                self.expect(v, target_ty, value.span);
                self.check_stored(target, value);
            },
            StmtKind::Expr(e) => {
                let t = self.check_expr(e, None);
                if self.is_future_ty(t) && !is_await(e) {
                    self.say(
                        "this `Future` is created but never used — `await` it, `spawn` it, or bind it (e.g. `var _ = …`)",
                        e.span,
                    );
                }
            },
            StmtKind::Item(_) => {},
        }
    }

    /// The type that an assignment target holds.
    pub fn check_lvalue(&mut self, target: &Expr) -> (r: Ty)
        ensures
            final(self).answers(r, old(self).view().check_lvalue(*target)),
            old(self).view().grows_to(final(self).view()),
        decreases target, 14int,
    {
        let ty = self.check_lvalue_inner(target);
        let node = self.build_node(target, ty);
        match node {
            Some(n) => self.put(target.span, n),
            None => {},
        }
        ty
    }

    pub fn check_lvalue_inner(&mut self, target: &Expr) -> (r: Ty)
        ensures
            final(self).answers(r, old(self).view().check_lvalue_inner(*target)),
            old(self).view().grows_to(final(self).view()),
        decreases target, 13int,
    {
        match &target.kind {
            ExprKind::Ident(name) => match self.lookup(name.name) {
                Some(b) => {
                    self.record_capture(b.local, b.ty);
                    self.record_res(target.span, ValueRes::Local(b.local), b.ty);
                    b.ty
                },
                None => {
                    match self.program().resolve_value_in(self.cur_module(), name.name) {
                        Some(def) => if self.program().def(def).kind == DefKind::ExternVar {
                            let t = self.value_def_ty(def);
                            self.record_res(target.span, ValueRes::Global(def), t);
                            t
                        } else {
                            self.unknown_value(name.name, target.span)
                        },
                        None => self.unknown_value(name.name, target.span),
                    }
                },
            },
            ExprKind::Underscore => ERROR_TY,
            ExprKind::Field { .. } => self.check_field(target),
            ExprKind::TupleIndex { .. } => self.check_tuple_index(target),
            ExprKind::Index { .. } => self.check_index(target),
            ExprKind::Deref { .. } => self.check_deref(target),
            _ => self.check_expr(target, None),
        }
    }

    pub fn unknown_value(&mut self, name: crate::names::Symbol, span: Span) -> (r: Ty)
        ensures
            final(self).answers(r, old(self).view().unknown_value(name, span)),
            old(self).view().grows_to(final(self).view()),
    {
        proof {
            reveal(Ck::unknown_value);
        }
        let n = self.name(name);
        self.emit(SemaErrorKind::UnknownValue { name: n }, span);
        ERROR_TY
    }
}

} // verus!
