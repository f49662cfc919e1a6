//! Branches, loops and `match`.
use vstd::prelude::*;
use crate::ast::{ElseBranch, Expr, ExprKind, MatchArm, Pattern, PatternKind};
use crate::check::rules::Facts;
use crate::check::{take_list, Ck, Cx, LoopFrame};
use crate::diag::{Problem, SemaErrorKind};
use crate::hir::ForDriver;
use crate::list::{dup, List};
use crate::span::Span;
use crate::ty::{contains_ty, Ty, TyKind, BOOL_TY, CHAR_TY, ERROR_TY, NEVER_TY, NULL_TY, STR_TY};
use crate::words::T_ENTRY;

verus! {

broadcast use {crate::check::law_grows_reflexive, crate::check::law_grows_transitive};

impl Ck {
    /// Applies what a condition says in the branch where it holds, or in the other.
    #[verifier::opaque]
    pub open spec fn enter_branch(self, facts: Option<Facts>, holds: bool) -> Ck {
        match facts {
            Some(f) => if holds {
                let s1 = self.narrow(f.local, f.then_ty);
                s1
            } else {
                let s2 = self.narrow(f.local, f.else_ty);
                s2
            },
            None => self,
        }
    }

    #[verifier::opaque]
    pub open spec fn leave_branch(self, facts: Option<Facts>) -> Ck {
        if facts is Some {
            let s1 = self.widen_back();
            s1
        } else {
            self
        }
    }

    /// `if c { .. } else { .. }`: `c` is a `bool`, and `x is T` narrows `x` in
    /// both branches. Without an `else` it has no value.
    pub open spec fn check_if(self, e: Expr, expected: Option<Ty>) -> (Ck, Ty)
        decreases e, 8int,
    {
        match e.kind {
            ExprKind::If { cond, then_block, else_branch } => {
                let (cond, then_block, else_branch) = (*cond, then_block, else_branch);
                let (s1, cty) = self.check_expr(cond, Some(BOOL_TY));
                let s2 = s1.require_bool(cty, cond.span);
                let (s3, facts) = s2.narrow_facts(cond);
                let s4 = s3.enter_branch(facts, true);
                let (s5, then_ty) = s4.check_block(then_block, expected);
                let s6 = s5.leave_branch(facts);
                match else_branch {
                    None => (s6, NULL_TY),
                    Some(ElseBranch::Block(b)) => {
                        let s7 = s6.enter_branch(facts, false);
                        let (s8, else_ty) = s7.check_block(b, expected);
                        let s9 = s8.leave_branch(facts);
                        s9.mk_union(List::two(then_ty, else_ty))
                    },
                    Some(ElseBranch::If(x)) => {
                        let s10 = s6.enter_branch(facts, false);
                        let (s11, else_ty) = s10.check_expr(*x, expected);
                        let s12 = s11.leave_branch(facts);
                        s12.mk_union(List::two(then_ty, else_ty))
                    },
                }
            },
            _ => (self, ERROR_TY),
        }
    }

    #[verifier::opaque]
    pub open spec fn enter_loop(self, is_loop: bool) -> Ck {
        let (s1, l) = (Ck { loops: List::Nil, ..self }, self.loops);
        let s2 = Ck {
            loops: List::Cons(Box::new(LoopFrame { is_loop, break_types: List::Nil }), Box::new(l)),
            ..s1
        };
        s2
    }

    /// The types of the values that the innermost loop was left with.
    #[verifier::opaque]
    pub open spec fn leave_loop(self) -> (Ck, List<Ty>) {
        let (s1, l) = (Ck { loops: List::Nil, ..self }, self.loops);
        match l {
            List::Cons(f, t) => {
                let s2 = Ck { loops: *t, ..s1 };
                let frame = *f;
                (s2, frame.break_types)
            },
            List::Nil => (s1, List::Nil),
        }
    }

    /// `break` with a value of type `ty`; only `loop` takes one that is written.
    #[verifier::opaque]
    pub open spec fn check_break(self, ty: Ty, written: bool, span: Span) -> Ck {
        let (s1, l) = (Ck { loops: List::Nil, ..self }, self.loops);
        match l {
            List::Nil => s1.fail(Problem::LoopControlOutsideLoop { kw: "break"@ }, span),
            List::Cons(f, t) => {
                let frame = *f;
                if written && !frame.is_loop {
                    let s2 = Ck { loops: List::Cons(Box::new(frame), t), ..s1 };
                    let s3 = s2.say("only `loop` can `break` with a value"@, span);
                    s3
                } else {
                    let kept = LoopFrame { is_loop: frame.is_loop, break_types: frame.break_types.snoc(ty) };
                    let s4 = Ck { loops: List::Cons(Box::new(kept), t), ..s1 };
                    s4
                }
            },
        }
    }

    /// Loops and jumps.
    pub open spec fn check_flow(self, e: Expr) -> (Ck, Ty)
        decreases e, 9int,
    {
        match e.kind {
            ExprKind::Return(value) => {
                let rty = self.ret_ty;
                let s1 = match value {
                    Some(v) => {
                        let (s2, t) = self.check_expr(*v, Some(rty));
                        let s3 = s2.expect(t, rty, v.span);
                        s3
                    },
                    None => self.expect(NULL_TY, rty, e.span),
                };
                (s1, NEVER_TY)
            },
            ExprKind::Break(value) => {
                let (s4, t) = match value {
                    Some(v) => self.check_expr(*v, None),
                    None => (self, NULL_TY),
                };
                let s5 = s4.check_break(t, value is Some, e.span);
                (s5, NEVER_TY)
            },
            ExprKind::Continue => {
                let s6 = if self.loops is Nil {
                    let s7 = self.fail(Problem::LoopControlOutsideLoop { kw: "continue"@ }, e.span);
                    s7
                } else {
                    self
                };
                (s6, NEVER_TY)
            },
            ExprKind::Loop(body) => {
                let s8 = self.enter_loop(true);
                let s9 = s8.check_block(body, None).0;
                let (s10, breaks) = s9.leave_loop();
                if breaks is Nil {
                    (s10, NEVER_TY)
                } else {
                    s10.mk_union(breaks)
                }
            },
            ExprKind::While { cond, body } => {
                let (s11, cty) = self.check_expr(*cond, Some(BOOL_TY));
                let s12 = s11.require_bool(cty, cond.span);
                let s13 = s12.enter_loop(false);
                let s14 = s13.check_block(body, None).0;
                let s15 = s14.leave_loop().0;
                (s15, NULL_TY)
            },
            ExprKind::For { in_async, .. } => self.check_for(e, in_async),
            _ => (self, ERROR_TY),
        }
    }

    /// What a `for` loop over a value of type `ity` binds, and how it runs.
    #[verifier::opaque]
    pub open spec fn loop_over(self, ity: Ty, span: Span) -> (Ck, (Ty, Option<ForDriver>)) {
        if self.is_err(ity) {
            (self, (ERROR_TY, None))
        } else {
            if ity == STR_TY {
                (self, (CHAR_TY, Some(ForDriver::StrChars)))
            } else {
                match (self.list_elem(ity), self.map_kv(ity)) {
                    (Some(elem), _) => (self, (elem, Some(ForDriver::ListFast { elem }))),
                    (None, Some((key, value))) => {
                        let (s1, entry) = self.mk_named(self.p.well_known(T_ENTRY), List::two(key, value));
                        (s1, (entry, Some(ForDriver::MapEntries { key, value, entry })))
                    },
                    (None, None) => {
                        let (s2, found) = self.iterator_elem(ity);
                        match found {
                            Some(info) => (s2, (info.elem, Some(ForDriver::Iter(info)))),
                            None => {
                                let t = s2.show(ity);
                                let s3 = s2.say(
                                    "`"@
                                        + t
                                        + "` is not iterable: it is not a `List` and has no `next(self): Item<T> | Done` method"@,
                                    span,
                                );
                                (s3, (ERROR_TY, None))
                            },
                        }
                    },
                }
            }
        }
    }

    /// What a `for await` loop over a value of type `ity` binds, and how it runs.
    #[verifier::opaque]
    pub open spec fn loop_over_stream(self, ity: Ty, span: Span) -> (Ck, (Ty, Option<ForDriver>)) {
        let (s1, found) = self.async_iterator_elem(ity);
        match found {
            Some(info) => (s1, (info.elem, Some(ForDriver::AsyncIter(info)))),
            None => {
                let s2 = if !s1.is_err(ity) {
                    let t = s1.show(ity);
                    let s3 = s1.say(
                        "`"@
                            + t
                            + "` is not an async stream: it has no `next_async(self): Future<Item<T> | Done>` method"@,
                        span,
                    );
                    s3
                } else {
                    s1
                };
                (s2, (ERROR_TY, None))
            },
        }
    }

    pub open spec fn check_for(self, e: Expr, stream: bool) -> (Ck, Ty)
        decreases e, 8int,
    {
        match e.kind {
            ExprKind::For { pattern, iter, body, .. } => {
                let (pattern, iter, body) = (pattern, *iter, body);
                let s1 = if stream && !self.in_async {
                    let s2 = self.say("`for await` is only allowed inside an async body"@, e.span);
                    s2
                } else {
                    self
                };
                let (s3, ity) = s1.check_expr(iter, None);
                let (s4, (elem, driver)) = if stream {
                    s3.loop_over_stream(ity, iter.span)
                } else {
                    s3.loop_over(ity, iter.span)
                };
                let s5 = s4.push_scope();
                let s6 = s5.bind_pattern(pattern, elem);
                let s7 = s6.enter_loop(false);
                let s8 = s7.check_block(body, None).0;
                let s9 = s8.leave_loop().0;
                let s10 = s9.pop_scope();
                let s11 = Ck { p_driver: driver, ..s10 };
                (s11, NULL_TY)
            },
            _ => (self, ERROR_TY),
        }
    }

    /// `match`: every arm's pattern fits the scrutinee, and together they cover it.
    /// Its value is the union of the arms' values.
    pub open spec fn check_match(self, e: Expr, expected: Option<Ty>) -> (Ck, Ty)
        decreases e, 8int,
    {
        match e.kind {
            ExprKind::Match { scrutinee, arms } => {
                let (scrutinee, arms) = (*scrutinee, arms);
                let (s1, sty) = self.check_expr(scrutinee, None);
                let s2 = if s1.is_nullable_ptr(sty) {
                    let s3 = s1.say(
                        "`match` on a nullable pointer `*T | null` is not yet supported; use `if p is null { … } else { … }` (`docs/19` §2)"@,
                        e.span,
                    );
                    s3
                } else {
                    s1
                };
                let (s4, tys) = s2.check_arms(arms, sty, expected);
                let s5 = s4.check_exhaustive(sty, arms, e.span);
                if tys is Nil {
                    (s5, NULL_TY)
                } else {
                    s5.mk_union(tys)
                }
            },
            _ => (self, ERROR_TY),
        }
    }

    /// The type that an arm of type `t` contributes.
    #[verifier::opaque]
    pub open spec fn arm_type(self, t: Ty, expected: Option<Ty>, span: Span) -> (Ck, Ty) {
        match expected {
            Some(exp) => {
                let s1 = self.expect(t, exp, span);
                (s1, if s1.assignable(t, exp) {
                    exp
                } else {
                    t
                })
            },
            None => (self, t),
        }
    }

    pub open spec fn check_arms(self, l: List<MatchArm>, sty: Ty, expected: Option<Ty>) -> (Ck, List<Ty>)
        decreases l, 1int,
    {
        match l {
            List::Nil => (self, List::Nil),
            List::Cons(a, t) => {
                let (a, t) = (*a, *t);
                let s1 = self.push_scope();
                let s2 = s1.check_pattern(a.pattern, sty);
                let s3 = match a.guard {
                    Some(g) => {
                        let (s4, gt) = s2.check_expr(g, Some(BOOL_TY));
                        let s5 = s4.require_bool(gt, g.span);
                        s5
                    },
                    None => s2,
                };
                let (s6, bt) = s3.check_expr(a.body, expected);
                let (s7, h) = s6.arm_type(bt, expected, a.body.span);
                let s8 = s7.pop_scope();
                let (s9, rest) = s8.check_arms(t, sty, expected);
                (s9, List::Cons(Box::new(h), Box::new(rest)))
            },
        }
    }

    /// A literal pattern must be a possible value of the scrutinee.
    #[verifier::opaque]
    pub open spec fn require_literal(self, lt: Ty, sty: Ty, span: Span) -> Ck {
        if !self.assignable(lt, sty) && !self.is_err(lt) && !crate::ty::has_ty(self.variants(sty), lt) {
            let expected = self.show(sty);
            let found = self.show(lt);
            let s1 = self.fail(Problem::TypeMismatch { expected, found }, span);
            s1
        } else {
            self
        }
    }

    /// Checks a pattern against the type of what it matches, and binds its names.
    pub open spec fn check_pattern(self, p: Pattern, sty: Ty) -> Ck
        decreases p, 2int,
    {
        match p.kind {
            PatternKind::Wildcard => self,
            PatternKind::Binding(name) => {
                let s1 = self.bind(name.name, name.span, sty).0;
                s1
            },
            PatternKind::Literal(x) => {
                let (s2, lt) = self.check_expr(*x, Some(sty));
                let s3 = s2.require_literal(lt, sty, x.span);
                s3
            },
            PatternKind::TypeBinding { ty, binding } => {
                let env = self.env();
                let (s4, t) = self.lower(ty, env);
                match binding {
                    Some(b) => {
                        let s5 = s4.bind(b.name, b.span, t).0;
                        s5
                    },
                    None => s4,
                }
            },
            PatternKind::UnitPath(path) => if self.p.type_named(self.cur_module, path.name.name) is None {
                let n = self.name(path.name.name);
                let s6 = self.fail(Problem::UnknownType { name: n }, path.span);
                s6
            } else {
                self
            },
            PatternKind::Tuple { elems, rest } => if rest is None {
                match self.tuple_expectation(Some(sty), elems.count()) {
                    Some(ts) => self.check_patterns(elems, ts),
                    None => self.say("tuple pattern does not match the scrutinee shape"@, p.span),
                }
            } else {
                let s7 = self.say("this pattern is not yet supported"@, p.span);
                s7
            },
            _ => self.say("this pattern is not yet supported"@, p.span),
        }
    }

    pub open spec fn check_patterns(self, l: List<Pattern>, tys: List<Ty>) -> Ck
        decreases l, 1int,
    {
        match l {
            List::Nil => self,
            List::Cons(p, t) => match tys {
                List::Nil => self,
                List::Cons(ty, rest) => {
                    let s1 = self.check_pattern(*p, *ty);
                    let s2 = s1.check_patterns(*t, *rest);
                    s2
                },
            },
        }
    }
}

impl<'a> Cx<'a> {
    /// Applies what a condition says in the branch where it holds, or in the other.
    pub fn enter_branch(&mut self, facts: Option<Facts>, holds: bool)
        ensures
            final(self).stands(old(self).view().enter_branch(facts, holds)),
            old(self).view().grows_to(final(self).view()),
    {
        proof {
            reveal(Ck::enter_branch);
        }
        match facts {
            Some(f) => if holds {
                self.narrow(f.local, f.then_ty);
            } else {
                self.narrow(f.local, f.else_ty);
            },
            None => {},
        }
    }

    pub fn leave_branch(&mut self, facts: Option<Facts>)
        ensures
            final(self).stands(old(self).view().leave_branch(facts)),
            old(self).view().grows_to(final(self).view()),
    {
        proof {
            reveal(Ck::leave_branch);
        }
        if facts.is_some() {
            self.restore_narrowing();
        }
    }

    /// `if c { .. } else { .. }`: `c` is a `bool`, and `x is T` narrows `x` in
    /// both branches. Without an `else` it has no value.
    pub fn check_if(&mut self, e: &Expr, expected: Option<Ty>) -> (r: Ty)
        ensures
            final(self).answers(r, old(self).view().check_if(*e, expected)),
            old(self).view().grows_to(final(self).view()),
        decreases e, 8int,
    {
        let (cond, then_block, else_branch) = match &e.kind {
            ExprKind::If { cond, then_block, else_branch } => (&**cond, then_block, else_branch),
            _ => {
                return ERROR_TY;
            },
        };
        let cty = self.check_expr(cond, Some(BOOL_TY));
        self.require_bool(cty, cond.span);
        let facts = self.narrow_facts(cond);
        self.enter_branch(facts, true);
        let then_ty = self.check_block(then_block, expected);
        self.leave_branch(facts);
        match else_branch {
            None => NULL_TY,
            Some(ElseBranch::Block(b)) => {
                self.enter_branch(facts, false);
                let else_ty = self.check_block(b, expected);
                self.leave_branch(facts);
                self.mk_union(List::pair(then_ty, else_ty))
            },
            Some(ElseBranch::If(x)) => {
                self.enter_branch(facts, false);
                let else_ty = self.check_expr(&**x, expected);
                self.leave_branch(facts);
                self.mk_union(List::pair(then_ty, else_ty))
            },
        }
    }

    pub fn enter_loop(&mut self, is_loop: bool)
        ensures
            final(self).stands(old(self).view().enter_loop(is_loop)),
            old(self).view().grows_to(final(self).view()),
    {
        proof {
            reveal(Ck::enter_loop);
        }
        let l = self.take_loops();
        self.set_loops(List::Cons(Box::new(LoopFrame { is_loop, break_types: List::Nil }), Box::new(l)));
    }

    /// The types of the values that the innermost loop was left with.
    pub fn leave_loop(&mut self) -> (r: List<Ty>)
        ensures
            final(self).answers(r, old(self).view().leave_loop()),
            old(self).view().grows_to(final(self).view()),
    {
        proof {
            reveal(Ck::leave_loop);
        }
        let l = self.take_loops();
        match l {
            List::Cons(f, t) => {
                self.set_loops(*t);
                let frame = *f;
                frame.break_types
            },
            List::Nil => List::Nil,
        }
    }

    /// `break` with a value of type `ty`; only `loop` takes one that is written.
    pub fn check_break(&mut self, ty: Ty, written: bool, span: Span)
        ensures
            final(self).stands(old(self).view().check_break(ty, written, span)),
            old(self).view().grows_to(final(self).view()),
    {
        proof {
            reveal(Ck::check_break);
        }
        let l = self.take_loops();
        match l {
            List::Nil => self.emit(SemaErrorKind::LoopControlOutsideLoop { kw: "break" }, span),
            List::Cons(f, t) => {
                let frame = *f;
                if written && !frame.is_loop {
                    self.set_loops(List::Cons(Box::new(frame), t));
                    self.say("only `loop` can `break` with a value", span);
                } else {
                    let kept = LoopFrame { is_loop: frame.is_loop, break_types: frame.break_types.push_back(ty) };
                    self.set_loops(List::Cons(Box::new(kept), t));
                }
            },
        }
    }

    /// Loops and jumps.
    pub fn check_flow(&mut self, e: &Expr) -> (r: Ty)
        ensures
            final(self).answers(r, old(self).view().check_flow(*e)),
            old(self).view().grows_to(final(self).view()),
        decreases e, 9int,
    {
        match &e.kind {
            ExprKind::Return(value) => {
                let rty = self.ret_ty();
                match value {
                    Some(v) => {
                        let t = self.check_expr(&**v, Some(rty));
                        self.expect(t, rty, v.span);
                    },
                    None => self.expect(NULL_TY, rty, e.span),
                }
                NEVER_TY
            },
            ExprKind::Break(value) => {
                let t = match value {
                    Some(v) => self.check_expr(&**v, None),
                    None => NULL_TY,
                };
                self.check_break(t, value.is_some(), e.span);
                NEVER_TY
            },
            ExprKind::Continue => {
                if self.loops().is_empty() {
                    self.emit(SemaErrorKind::LoopControlOutsideLoop { kw: "continue" }, e.span);
                }
                NEVER_TY
            },
            ExprKind::Loop(body) => {
                self.enter_loop(true);
                self.check_block(body, None);
                let breaks = self.leave_loop();
                if breaks.is_empty() {
                    NEVER_TY
                } else {
                    self.mk_union(breaks)
                }
            },
            ExprKind::While { cond, body } => {
                let cty = self.check_expr(&**cond, Some(BOOL_TY));
                self.require_bool(cty, cond.span);
                self.enter_loop(false);
                self.check_block(body, None);
                self.leave_loop();
                NULL_TY
            },
            ExprKind::For { in_async, .. } => self.check_for(e, *in_async),
            _ => ERROR_TY,
        }
    }

    /// What a `for` loop over a value of type `ity` binds, and how it runs.
    pub fn loop_over(&mut self, ity: Ty, span: Span) -> (r: (Ty, Option<ForDriver>))
        ensures
            final(self).answers(r, old(self).view().loop_over(ity, span)),
            old(self).view().grows_to(final(self).view()),
    {
        proof {
            reveal(Ck::loop_over);
        }
        if self.is_err(ity) {
            return (ERROR_TY, None);
        }
        if ity == STR_TY {
            return (CHAR_TY, Some(ForDriver::StrChars));
        }
        match (self.list_elem(ity), self.map_kv(ity)) {
            (Some(elem), _) => (elem, Some(ForDriver::ListFast { elem })),
            (None, Some((key, value))) => {
                let entry = self.mk_named(self.program().known(T_ENTRY), List::pair(key, value));
                (entry, Some(ForDriver::MapEntries { key, value, entry }))
            },
            (None, None) => {
                let found = self.iterator_elem(ity);
                match found {
                    Some(info) => (info.elem, Some(ForDriver::Iter(info))),
                    None => {
                        let t = self.display(ity);
                        self.say_text(
                            "`".to_owned().concat(t.as_str()).concat(
                                "` is not iterable: it is not a `List` and has no `next(self): Item<T> | Done` method",
                            ),
                            span,
                        );
                        (ERROR_TY, None)
                    },
                }
            },
        }
    }

    /// What a `for await` loop over a value of type `ity` binds, and how it runs.
    pub fn loop_over_stream(&mut self, ity: Ty, span: Span) -> (r: (Ty, Option<ForDriver>))
        ensures
            final(self).answers(r, old(self).view().loop_over_stream(ity, span)),
            old(self).view().grows_to(final(self).view()),
    {
        proof {
            reveal(Ck::loop_over_stream);
        }
        let found = self.async_iterator_elem(ity);
        match found {
            Some(info) => (info.elem, Some(ForDriver::AsyncIter(info))),
            None => {
                if !self.is_err(ity) {
                    let t = self.display(ity);
                    self.say_text(
                        "`".to_owned().concat(t.as_str()).concat(
                            "` is not an async stream: it has no `next_async(self): Future<Item<T> | Done>` method",
                        ),
                        span,
                    );
                }
                (ERROR_TY, None)
            },
        }
    }

    pub fn check_for(&mut self, e: &Expr, stream: bool) -> (r: Ty)
        ensures
            final(self).answers(r, old(self).view().check_for(*e, stream)),
            old(self).view().grows_to(final(self).view()),
        decreases e, 8int,
    {
        let (pattern, iter, body) = match &e.kind {
            ExprKind::For { pattern, iter, body, .. } => (pattern, &**iter, body),
            _ => {
                return ERROR_TY;
            },
        };
        if stream && !self.in_async() {
            self.say("`for await` is only allowed inside an async body", e.span);
        }
        let ity = self.check_expr(iter, None);
        let (elem, driver) = if stream {
            self.loop_over_stream(ity, iter.span)
        } else {
            self.loop_over(ity, iter.span)
        };
        self.push_scope();
        self.bind_pattern(pattern, elem);
        self.enter_loop(false);
        self.check_block(body, None);
        self.leave_loop();
        self.pop_scope();
        self.set_p_driver(driver);
        NULL_TY
    }

    /// `match`: every arm's pattern fits the scrutinee, and together they cover it.
    /// Its value is the union of the arms' values.
    pub fn check_match(&mut self, e: &Expr, expected: Option<Ty>) -> (r: Ty)
        ensures
            final(self).answers(r, old(self).view().check_match(*e, expected)),
            old(self).view().grows_to(final(self).view()),
        decreases e, 8int,
    {
        let (scrutinee, arms) = match &e.kind {
            ExprKind::Match { scrutinee, arms } => (&**scrutinee, arms),
            _ => {
                return ERROR_TY;
            },
        };
        let sty = self.check_expr(scrutinee, None);
        if self.is_npo_union(sty) {
            self.say(
                "`match` on a nullable pointer `*T | null` is not yet supported; use `if p is null { … } else { … }` (`docs/19` §2)",
                e.span,
            );
        }
        let tys = self.check_arms(arms, sty, expected);
        self.check_exhaustive(sty, arms, e.span);
        if tys.is_empty() {
            NULL_TY
        } else {
            self.mk_union(tys)
        }
    }

    /// The type that an arm of type `t` contributes.
    pub fn arm_type(&mut self, t: Ty, expected: Option<Ty>, span: Span) -> (r: Ty)
        ensures
            final(self).answers(r, old(self).view().arm_type(t, expected, span)),
            old(self).view().grows_to(final(self).view()),
    {
        proof {
            reveal(Ck::arm_type);
        }
        match expected {
            Some(exp) => {
                self.expect(t, exp, span);
                if self.assignable(t, exp) {
                    exp
                } else {
                    t
                }
            },
            None => t,
        }
    }

    pub fn check_arms(&mut self, l: &List<MatchArm>, sty: Ty, expected: Option<Ty>) -> (r: List<Ty>)
        ensures
            final(self).answers(r, old(self).view().check_arms(*l, sty, expected)),
            old(self).view().grows_to(final(self).view()),
        decreases l, 1int,
    {
        let (a, t) = match l {
            List::Nil => {
                return List::Nil;
            },
            List::Cons(a, t) => (&**a, &**t),
        };
        self.push_scope();
        self.check_pattern(&a.pattern, sty);
        match &a.guard {
            Some(g) => {
                let gt = self.check_expr(g, Some(BOOL_TY));
                self.require_bool(gt, g.span);
            },
            None => {},
        }
        let bt = self.check_expr(&a.body, expected);
        let h = self.arm_type(bt, expected, a.body.span);
        self.pop_scope();
        let rest = self.check_arms(t, sty, expected);
        List::Cons(Box::new(h), Box::new(rest))
    }

    /// A literal pattern must be a possible value of the scrutinee.
    pub fn require_literal(&mut self, lt: Ty, sty: Ty, span: Span)
        ensures
            final(self).stands(old(self).view().require_literal(lt, sty, span)),
            old(self).view().grows_to(final(self).view()),
    {
        proof {
            reveal(Ck::require_literal);
        }
        if !self.assignable(lt, sty) && !self.is_err(lt) && !contains_ty(&self.variants(sty), lt) {
            let expected = self.display(sty);
            let found = self.display(lt);
            self.emit(SemaErrorKind::TypeMismatch { expected, found }, span);
        }
    }

    /// Checks a pattern against the type of what it matches, and binds its names.
    pub fn check_pattern(&mut self, p: &Pattern, sty: Ty)
        ensures
            final(self).stands(old(self).view().check_pattern(*p, sty)),
            old(self).view().grows_to(final(self).view()),
        decreases p, 2int,
    {
        match &p.kind {
            PatternKind::Wildcard => {},
            PatternKind::Binding(name) => {
                self.bind(name.name, name.span, sty);
            },
            PatternKind::Literal(x) => {
                let lt = self.check_expr(&**x, Some(sty));
                self.require_literal(lt, sty, x.span);
            },
            PatternKind::TypeBinding { ty, binding } => {
                let env = self.local_env();
                let t = self.lower_ty(ty, &env);
                match binding {
                    Some(b) => {
                        self.bind(b.name, b.span, t);
                    },
                    None => {},
                }
            },
            PatternKind::UnitPath(path) => {
                if self.program().resolve_type_in(self.cur_module(), path.name.name).is_none() {
                    let n = self.name(path.name.name);
                    self.emit(SemaErrorKind::UnknownType { name: n }, path.span);
                }
            },
            PatternKind::Tuple { elems, rest } => {
                if rest.is_none() {
                    match self.tuple_expectation(Some(sty), elems.len()) {
                        Some(ts) => self.check_patterns(elems, ts),
                        None => self.say("tuple pattern does not match the scrutinee shape", p.span),
                    }
                } else {
                    self.say("this pattern is not yet supported", p.span);
                }
            },
            _ => self.say("this pattern is not yet supported", p.span),
        }
    }

    pub fn check_patterns(&mut self, l: &List<Pattern>, tys: List<Ty>)
        ensures
            final(self).stands(old(self).view().check_patterns(*l, tys)),
            old(self).view().grows_to(final(self).view()),
        decreases l, 1int,
    {
        match l {
            List::Nil => {},
            List::Cons(p, t) => match tys {
                List::Nil => {},
                List::Cons(ty, rest) => {
                    self.check_pattern(&**p, *ty);
                    self.check_patterns(&**t, *rest);
                },
            },
        }
    }
}

} // verus!
