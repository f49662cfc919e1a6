//! Method calls: on builtin types, type parameters, interface objects and user
//! types.
use vstd::prelude::*;
use crate::ast::{Expr, ExprKind, Ident, ItemKind};
use crate::check::calls::{count_args, first_span, member_of, second_span, span_of_callee, Target};
use crate::check::sigs::Sig;
use crate::check::{Ck, Cx};
use crate::diag::{Problem, SemaErrorKind};
use crate::ids::DefId;
use crate::list::{dup, List};
use crate::names::Symbol;
use crate::results::{NumIntrinsic, ValueRes};
use crate::solve::{all_solutions, Solved};
use crate::span::Span;
use crate::symbols::DefKind;
use crate::ty::{
    Ty, TyKind, BOOL_TY, CHAR_TY, ERROR_TY, I64_TY, NULL_TY, STR_TY, U32_TY, USIZE_TY,
};
use crate::words::{
    ABORT, ALLOC, ALLOC_FLEX, ALLOC_ZEROED, BLOCK_ON, BYTES, BYTE_SIZE, CANCEL, CHANNEL, CHARS, CLEAR, CLONE, CONTAINS, DETACH,
    EACH, ENDS_WITH, ENTRIES, FILTER, FOLD, FREE, GET, HASH, INDEX_OF, INSERT, IS_EMPTY, ITER, JOIN, KEYS, LOCK, MAP, POP,
    PUSH, REALLOC, RECV, REMOVE, REPEAT, REPLACE, SEND, SET, SIZE, SLEEP, SPLIT, STARTS_WITH, SUBSTRING, TIMEOUT, TO_LOWER,
    TO_UPPER, TRIM, TRUNCATE, TRY_LOCK, TRY_RECV, T_CANCELLED, T_CLONE, T_FUTURE, T_JOINED, T_LIST_ITER, T_LOCK_BUSY, T_MAP_ENTRIES,
    T_MAP_KEYS, T_MAP_VALUES, T_PANICKED, T_RECEIVER, T_SENDER, T_SHARED, T_STR_BYTES, T_STR_CHARS, T_TASK, T_THREAD,
    T_TIMED_OUT, VALUES, YIELD_NOW,
};

verus! {

broadcast use {crate::check::law_grows_reflexive, crate::check::law_grows_transitive};

/// Whose method is called.
#[derive(Clone, Copy, PartialEq, Eq, Structural, Debug)]
pub enum MethodPlan {
    Str,
    OfList(Ty),
    OfMap(Ty, Ty),
    Thread(Ty),
    Task(Ty),
    OfSender(Ty),
    OfReceiver(Ty),
    OfShared(Ty),
    Cancel,
    Bound(DefId),
    Dyn,
    User,
}

impl Ck {
    /// Whose method a call on a value of type `rty` is.
    #[verifier::opaque]
    pub open spec fn method_plan(self, rty: Ty, name: Symbol) -> MethodPlan {
        match self.kind(rty) {
            TyKind::Str => MethodPlan::Str,
            TyKind::Param(p) => MethodPlan::Bound(p),
            TyKind::Named { def, .. } => self.nominal_plan(rty, def, name),
            _ => MethodPlan::User,
        }
    }

    #[verifier::opaque]
    pub open spec fn nominal_plan(self, rty: Ty, def: DefId, name: Symbol) -> MethodPlan {
        match (self.list_elem(rty), self.map_kv(rty)) {
            (Some(elem), _) => MethodPlan::OfList(elem),
            (None, Some((kt, vt))) => MethodPlan::OfMap(kt, vt),
            (None, None) => {
                let dynamic = if self.p.def_of(def).kind == DefKind::Interface {
                    MethodPlan::Dyn
                } else {
                    MethodPlan::User
                };
                let arg = self.first_arg(rty);
                if def == DefId(0) {
                    dynamic
                } else {
                    if def == self.join_handle(T_THREAD) {
                        MethodPlan::Thread(arg)
                    } else {
                        if def == self.join_handle(T_TASK) {
                            MethodPlan::Task(arg)
                        } else {
                            if def == self.p.well_known(T_SENDER) {
                                MethodPlan::OfSender(arg)
                            } else {
                                if def == self.p.well_known(T_RECEIVER) {
                                    MethodPlan::OfReceiver(arg)
                                } else {
                                    if def == self.p.well_known(T_SHARED) {
                                        MethodPlan::OfShared(arg)
                                    } else {
                                        if name == CANCEL && self.is_future_ty(rty) {
                                            MethodPlan::Cancel
                                        } else {
                                            dynamic
                                        }
                                    }
                                }
                            }
                        }
                    }
                }
            },
        }
    }

    /// `receiver.name(..)`.
    pub open spec fn check_method_call(self, e: Expr) -> (Ck, Ty)
        decreases e, 7int,
    {
        match e.kind {
            ExprKind::Call { callee, .. } => match callee.kind {
                ExprKind::Field { receiver, .. } => {
                    let receiver = *receiver;
                    let (s1, rty) = self.check_expr(receiver, None);
                    if s1.is_err(rty) {
                        let s2 = s1.check_all(e, true);
                        (s2, ERROR_TY)
                    } else {
                        let (s3, own) = s1.check_value_method(e, rty);
                        match own {
                            Some(t) => (s3, t),
                            None => s3.check_method_of(e, rty),
                        }
                    }
                },
                _ => (self, ERROR_TY),
            },
            _ => (self, ERROR_TY),
        }
    }

    pub open spec fn check_method_of(self, e: Expr, rty: Ty) -> (Ck, Ty)
        decreases e, 6int,
    {
        match self.method_plan(rty, crate::check::calls::member_name(e).name) {
            MethodPlan::Bound(p) => self.check_bound_method_call(e, p, rty),
            MethodPlan::Dyn => self.check_dyn_method_call(e, rty),
            MethodPlan::User => self.check_user_method(e, rty),
            plan => self.check_builtin_method(e, plan),
        }
    }

    pub open spec fn check_builtin_method(self, e: Expr, plan: MethodPlan) -> (Ck, Ty)
        decreases e, 5int,
    {
        match plan {
            MethodPlan::OfList(elem) => self.check_list_method(e, elem),
            MethodPlan::OfMap(kt, vt) => self.check_map_method(e, kt, vt),
            MethodPlan::Str => self.check_str_method(e),
            MethodPlan::Cancel => {
                let s1 = self.check_arity(0, crate::check::calls::arg_count(e, true), e.span);
                (s1, NULL_TY)
            },
            _ => self.check_sync_method(e, plan),
        }
    }

    pub open spec fn check_sync_method(self, e: Expr, plan: MethodPlan) -> (Ck, Ty)
        decreases e, 4int,
    {
        match plan {
            MethodPlan::Thread(out) => self.check_join_handle_method(e, out, false),
            MethodPlan::Task(out) => self.check_join_handle_method(e, out, true),
            MethodPlan::OfSender(elem) => self.check_channel_method(e, elem, true),
            MethodPlan::OfReceiver(elem) => self.check_channel_method(e, elem, false),
            MethodPlan::OfShared(elem) => self.check_shared_method(e, elem),
            _ => (self, ERROR_TY),
        }
    }

    /// `.clone()` and `.hash()` of values that the language clones and hashes
    /// itself.
    #[verifier::opaque]
    pub open spec fn check_value_method(self, e: Expr, rty: Ty) -> (Ck, Option<Ty>) {
        let name = crate::check::calls::member_name(e);
        if crate::check::calls::arg_count(e, true) != 0 {
            (self, None)
        } else {
            if name.name == CLONE {
                self.check_builtin_clone(rty, name.span)
            } else {
                if name.name == HASH {
                    self.check_builtin_hash(rty, crate::check::calls::callee_span(e))
                } else {
                    (self, None)
                }
            }
        }
    }

    #[verifier::opaque]
    pub open spec fn no_bound_method(self, e: Expr, rty: Ty) -> (Ck, Ty) {
        let name = crate::check::calls::member_name(e);
        let n = self.name(name.name);
        let t = self.show(rty);
        let s1 = self.say(
            "no method `"@ + n + "` is available on type parameter `"@ + t + "` through its bounds"@,
            name.span,
        );
        (s1, ERROR_TY)
    }

    /// The signature of a method that a bound of a type parameter gives.
    #[verifier::opaque]
    pub open spec fn bound_sig(self, e: Expr, param: DefId, rty: Ty) -> (Ck, Option<Sig>) {
        let (s1, found) = self.resolve_bound_method(param, crate::check::calls::member_name(e).name);
        match found {
            Some(b) => {
                let s2 = s1.record_res(
                    crate::check::calls::callee_span(e),
                    ValueRes::Method(b.method),
                    ERROR_TY,
                );
                let (s3, sig) = s2.iface_method_sig(b.method, b.iface, b.iargs, rty);
                (s3, Some(sig))
            },
            None => (s1, None),
        }
    }

    /// `x.method(..)` where `x` is of a type parameter: a method of its bounds.
    pub open spec fn check_bound_method_call(self, e: Expr, param: DefId, rty: Ty) -> (Ck, Ty)
        decreases e, 3int,
    {
        let (s1, found) = self.bound_sig(e, param, rty);
        match found {
            Some(sig) => {
                let s2 = s1.check_fixed(e, sig.params);
                (s2, sig.ret)
            },
            None => {
                let s3 = s1.check_all(e, true);
                s3.no_bound_method(e, rty)
            },
        }
    }

    #[verifier::opaque]
    pub open spec fn no_dyn_method(self, e: Expr, rty: Ty) -> (Ck, Ty) {
        let name = crate::check::calls::member_name(e);
        let t = self.show(rty);
        let n = self.name(name.name);
        let s1 = self.say("interface `"@ + t + "` has no method `"@ + n + "`"@, name.span);
        (s1, ERROR_TY)
    }

    /// The signature of a method of an interface object of type `rty`.
    #[verifier::opaque]
    pub open spec fn dyn_sig(self, e: Expr, rty: Ty) -> (Ck, Option<Sig>) {
        match self.kind(rty) {
            TyKind::Named { def, args } => match self.p.method_named(
                DefKind::InterfaceMethod,
                def,
                crate::check::calls::member_name(e).name,
            ) {
                Some(method) => {
                    let s1 = self.record_res(
                        crate::check::calls::callee_span(e),
                        ValueRes::Method(method),
                        ERROR_TY,
                    );
                    let (s2, sig) = s1.iface_method_sig(method, def, args, rty);
                    (s2, Some(sig))
                },
                None => (self, None),
            },
            _ => (self, None),
        }
    }

    /// `obj.method(..)` where `obj` is an interface object.
    pub open spec fn check_dyn_method_call(self, e: Expr, rty: Ty) -> (Ck, Ty)
        decreases e, 3int,
    {
        let (s1, found) = self.dyn_sig(e, rty);
        match found {
            Some(sig) => {
                let s2 = s1.check_fixed(e, sig.params);
                (s2, sig.ret)
            },
            None => {
                let s3 = s1.check_all(e, true);
                s3.no_dyn_method(e, rty)
            },
        }
    }

    #[verifier::opaque]
    pub open spec fn no_method(self, e: Expr, rty: Ty) -> (Ck, Ty) {
        let name = crate::check::calls::member_name(e);
        let t = self.show(rty);
        let n = self.name(name.name);
        let s1 = self.fail(Problem::NoMethod { ty: t, name: n }, name.span);
        (s1, ERROR_TY)
    }

    /// The method that an `extend` block gives to the receiver: the generics of
    /// the block are what the receiver says, those of the method what is written.
    #[verifier::opaque]
    pub open spec fn method_target(self, e: Expr, rty: Ty) -> (Ck, Option<Target>) {
        let (s1, found) = self.resolve_method(rty, crate::check::calls::member_name(e).name);
        match found {
            Some(f) => {
                let s2 = s1.record_res(
                    crate::check::calls::callee_span(e),
                    ValueRes::Method(f.method),
                    ERROR_TY,
                );
                let (s3, (env, self_ty)) = s2.fn_env(f.method);
                let (s4, tys) = s3.fn_params(f.method, env, f.solved);
                let (s5, given) = s4.written_args(e, f.method, f.solved);
                (s5, Some(Target { method: f.method, env, tys, given }))
            },
            None => (s1, None),
        }
    }

    #[verifier::opaque]
    pub open spec fn has_own_generics(self, target: Target) -> bool {
        !(self.p.def_of(target.method).generics is Nil)
    }

    #[verifier::opaque]
    pub open spec fn target_ret(self, target: Target) -> (Ck, Ty) {
        self.fn_ret(target.method, target.env, target.given)
    }

    /// Hands the arguments of the method's block to the call's node.
    #[verifier::opaque]
    pub open spec fn pend_block_args(self, target: Target) -> Ck {
        let of_block = self.block_args(target.method, target.given);
        let s1 = Ck { p_targs: if of_block is Nil { None } else { Some(of_block) }, ..self };
        s1
    }

    /// Concludes a call of a method with generics of its own, which `m` solves.
    #[verifier::opaque]
    pub open spec fn finish_method(self, e: Expr, target: Target, m: List<Solved>) -> (Ck, Ty) {
        let gens = self.p.def_of(target.method).generics;
        let s1 = self.check_arity(target.tys.count(), crate::check::calls::arg_count(e, true), e.span);
        let s2 = s1.expect_call(e, target.tys, m);
        let own = crate::solve::solutions(m, gens, ERROR_TY);
        let s3 = s2.check_bounds(gens, own, e.span);
        let (s4, ret) = s3.fn_ret(target.method, target.env, m);
        let of_block = s4.block_args(target.method, m);
        let s5 = Ck { p_targs: Some(of_block.then_list(own)), ..s4 };
        (s5, ret)
    }

    /// A method that an `extend` block gives.
    pub open spec fn check_user_method(self, e: Expr, rty: Ty) -> (Ck, Ty)
        decreases e, 3int,
    {
        let (s1, found) = self.method_target(e, rty);
        match found {
            Some(target) => if s1.has_own_generics(target) {
                let (s2, m) = s1.infer_call(e, target.tys, target.given);
                s2.finish_method(e, target, m)
            } else {
                let (s3, ret) = s1.target_ret(target);
                let s4 = s3.check_fixed(e, target.tys);
                let s5 = s4.pend_block_args(target);
                (s5, ret)
            },
            None => {
                let s6 = s1.check_all(e, true);
                s6.no_method(e, rty)
            },
        }
    }

    pub open spec fn no_builtin_method(self, e: Expr, owner: Seq<char>) -> (Ck, Ty)
        decreases e, 2int,
    {
        let name = crate::check::calls::member_name(e);
        let n = self.name(name.name);
        let s1 = self.say("`"@ + owner + "` has no method `"@ + n + "`"@, name.span);
        let s2 = s1.check_all(e, true);
        (s2, ERROR_TY)
    }

    /// The call has `n` arguments; otherwise it is reported.
    #[verifier::opaque]
    pub open spec fn has_args(self, e: Expr, n: usize) -> (Ck, bool) {
        let found = crate::check::calls::arg_count(e, true);
        if found == n {
            (self, true)
        } else {
            let s1 = self.fail(Problem::ArgCount { expected: n, found }, e.span);
            (s1, false)
        }
    }

    /// The parameters of a `List<elem>` method that takes no closure.
    #[verifier::opaque]
    pub open spec fn list_params(self, elem: Ty, name: Symbol) -> Option<List<Ty>> {
        if name == SIZE || name == IS_EMPTY || name == CLEAR || name == POP || name == ITER {
            Some(List::Nil)
        } else {
            if name == PUSH || name == CONTAINS || name == INDEX_OF {
                Some(List::one(elem))
            } else {
                if name == GET || name == REMOVE || name == TRUNCATE {
                    Some(List::one(I64_TY))
                } else {
                    if name == SET || name == INSERT {
                        Some(List::two(I64_TY, elem))
                    } else {
                        None
                    }
                }
            }
        }
    }

    #[verifier::opaque]
    pub open spec fn list_result(self, elem: Ty, name: Symbol, span: Span) -> (Ck, Ty) {
        if name == SIZE {
            (self, I64_TY)
        } else {
            if name == IS_EMPTY {
                (self, BOOL_TY)
            } else {
                if name == GET || name == POP || name == REMOVE {
                    self.mk_nullable(elem)
                } else {
                    if name == ITER {
                        self.mk_named(self.p.well_known(T_LIST_ITER), List::one(elem))
                    } else {
                        if name == CONTAINS || name == INDEX_OF {
                            let (s1, ok) = self.is_equatable(elem);
                            let s2 = if !ok {
                                let n = s1.name(name);
                                let s3 = s1.say(
                                    "`List."@ + n + "` requires the element type to implement `Eq`"@,
                                    span,
                                );
                                s3
                            } else {
                                s1
                            };
                            if name == CONTAINS {
                                (s2, BOOL_TY)
                            } else {
                                s2.mk_nullable(I64_TY)
                            }
                        } else {
                            (self, NULL_TY)
                        }
                    }
                }
            }
        }
    }

    pub open spec fn check_list_method(self, e: Expr, elem: Ty) -> (Ck, Ty)
        decreases e, 3int,
    {
        let name = crate::check::calls::member_name(e).name;
        match self.list_params(elem, name) {
            Some(tys) => {
                let s1 = self.check_fixed(e, tys);
                s1.list_result(elem, name, e.span)
            },
            None => if name == MAP || name == FILTER || name == EACH || name == FOLD {
                self.check_list_closure(e, elem, name)
            } else {
                self.no_builtin_method(e, "List"@)
            },
        }
    }

    /// The methods that take a closure.
    pub open spec fn check_list_closure(self, e: Expr, elem: Ty, name: Symbol) -> (Ck, Ty)
        decreases e, 2int,
    {
        if name == FOLD {
            let (s1, ok) = self.has_args(e, 2);
            if !ok {
                (s1, ERROR_TY)
            } else {
                let (s2, acc) = s1.check_first(e, None);
                let (s3, want) = s2.mk_func(List::two(acc, elem), acc);
                let (s4, ct) = s3.check_second(e, Some(want));
                let s5 = s4.expect(ct, want, crate::check::calls::second_arg_span(e));
                (s5, acc)
            }
        } else {
            let (s6, ok) = self.has_args(e, 1);
            if !ok {
                if name == EACH {
                    (s6, NULL_TY)
                } else {
                    (s6, ERROR_TY)
                }
            } else {
                let ret = if name == MAP {
                    ERROR_TY
                } else {
                    if name == FILTER {
                        BOOL_TY
                    } else {
                        NULL_TY
                    }
                };
                let (s7, want) = s6.mk_func(List::one(elem), ret);
                let (s8, ct) = s7.check_first(e, Some(want));
                if name == MAP {
                    match s8.kind(ct) {
                        TyKind::Func { ret: r, .. } => s8.mk_list(r),
                        _ => (s8, ERROR_TY),
                    }
                } else {
                    if name == FILTER {
                        let s9 = s8.expect(ct, want, crate::check::calls::first_arg_span(e));
                        s9.mk_list(elem)
                    } else {
                        (s8, NULL_TY)
                    }
                }
            }
        }
    }

    #[verifier::opaque]
    pub open spec fn map_params(self, kt: Ty, vt: Ty, name: Symbol) -> Option<List<Ty>> {
        if name == SIZE || name == IS_EMPTY || name == CLEAR || name == KEYS || name == VALUES || name == ENTRIES {
            Some(List::Nil)
        } else {
            if name == CONTAINS || name == GET || name == REMOVE {
                Some(List::one(kt))
            } else {
                if name == SET {
                    Some(List::two(kt, vt))
                } else {
                    None
                }
            }
        }
    }

    #[verifier::opaque]
    pub open spec fn map_result(self, kt: Ty, vt: Ty, name: Symbol) -> (Ck, Ty) {
        if name == SIZE {
            (self, I64_TY)
        } else {
            if name == IS_EMPTY || name == CONTAINS {
                (self, BOOL_TY)
            } else {
                if name == GET || name == REMOVE {
                    self.mk_nullable(vt)
                } else {
                    if name == KEYS {
                        self.mk_named(self.p.well_known(T_MAP_KEYS), List::one(kt))
                    } else {
                        if name == VALUES {
                            self.mk_named(self.p.well_known(T_MAP_VALUES), List::one(vt))
                        } else {
                            if name == ENTRIES {
                                self.mk_named(self.p.well_known(T_MAP_ENTRIES), List::two(kt, vt))
                            } else {
                                (self, NULL_TY)
                            }
                        }
                    }
                }
            }
        }
    }

    pub open spec fn check_map_method(self, e: Expr, kt: Ty, vt: Ty) -> (Ck, Ty)
        decreases e, 3int,
    {
        let name = crate::check::calls::member_name(e).name;
        match self.map_params(kt, vt, name) {
            Some(tys) => {
                let s1 = self.check_fixed(e, tys);
                s1.map_result(kt, vt, name)
            },
            None => self.no_builtin_method(e, "Map"@),
        }
    }

    #[verifier::opaque]
    pub open spec fn str_params(self, name: Symbol) -> Option<List<Ty>> {
        if name == SIZE
            || name == BYTE_SIZE
            || name == IS_EMPTY
            || name == TO_UPPER
            || name == TO_LOWER
            || name == TRIM
            || name == CHARS
            || name == BYTES {
            Some(List::Nil)
        } else {
            if name == CONTAINS || name == STARTS_WITH || name == ENDS_WITH || name == INDEX_OF || name == SPLIT {
                Some(List::one(STR_TY))
            } else {
                if name == REPEAT || name == GET {
                    Some(List::one(I64_TY))
                } else {
                    if name == SUBSTRING {
                        Some(List::two(I64_TY, I64_TY))
                    } else {
                        if name == REPLACE {
                            Some(List::two(STR_TY, STR_TY))
                        } else {
                            None
                        }
                    }
                }
            }
        }
    }

    #[verifier::opaque]
    pub open spec fn str_result(self, name: Symbol) -> (Ck, Ty) {
        if name == SIZE || name == BYTE_SIZE {
            (self, I64_TY)
        } else {
            if name == IS_EMPTY || name == CONTAINS || name == STARTS_WITH || name == ENDS_WITH {
                (self, BOOL_TY)
            } else {
                if name == INDEX_OF {
                    self.mk_nullable(I64_TY)
                } else {
                    if name == SPLIT {
                        self.mk_list(STR_TY)
                    } else {
                        if name == GET {
                            self.mk_nullable(CHAR_TY)
                        } else {
                            if name == CHARS {
                                self.mk_named(self.p.well_known(T_STR_CHARS), List::Nil)
                            } else {
                                if name == BYTES {
                                    self.mk_named(self.p.well_known(T_STR_BYTES), List::Nil)
                                } else {
                                    (self, STR_TY)
                                }
                            }
                        }
                    }
                }
            }
        }
    }

    pub open spec fn check_str_method(self, e: Expr) -> (Ck, Ty)
        decreases e, 3int,
    {
        let name = crate::check::calls::member_name(e).name;
        match self.str_params(name) {
            Some(tys) => {
                let s1 = self.check_fixed(e, tys);
                s1.str_result(name)
            },
            None => self.no_builtin_method(e, "str"@),
        }
    }

    /// Reports each captured type that must not cross to the spawned code.
    #[verifier::opaque]
    pub open spec fn require_sendable(self, tys: List<Ty>, task: bool, span: Span) -> Ck
        decreases tys,
    {
        match tys {
            List::Nil => self,
            List::Cons(h, t) => {
                let ty = *h;
                let shared = self.is_shareable(ty);
                let (s1, ok) = if task && !shared {
                    self.satisfies(ty, self.p.well_known(T_CLONE))
                } else {
                    (self, shared)
                };
                let s2 = if !ok {
                    let n = s1.show(ty);
                    if task {
                        let s3 = s1.say(
                            "`Task.spawn` can only capture immutable values, channel endpoints or `Clone` values that can be snapshotted; captured value of type `"@
                                + n
                                + "` is neither"@,
                            span,
                        );
                        s3
                    } else {
                        let s4 = s1.say(
                            "`Thread.spawn` can only capture immutable values or channel endpoints so far; captured value of type `"@
                                + n
                                + "` would need a deep clone across the thread boundary (`docs/20` §1)"@,
                            span,
                        );
                        s4
                    }
                } else {
                    s1
                };
                let s5 = s2.require_sendable(*t, task, span);
                s5
            },
        }
    }

    /// `Thread.spawn` and `Task.spawn` run a closure without parameters; what an
    /// async one yields is what joining gives.
    pub open spec fn check_spawn_call(self, e: Expr, ns: Symbol) -> (Ck, Ty)
        decreases e, 5int,
    {
        let task = ns == T_TASK;
        if crate::check::calls::arg_count(e, true) != 1 {
            let s1 = if task {
                let s2 = self.say("`Task.spawn` takes a single closure argument"@, e.span);
                s2
            } else {
                let s3 = self.say("`Thread.spawn` takes a single closure argument"@, e.span);
                s3
            };
            let s4 = s1.check_all(e, false);
            (s4, ERROR_TY)
        } else {
            let (s5, want) = self.mk_func(List::Nil, ERROR_TY);
            let (s6, cty) = s5.check_first(e, Some(want));
            match s6.kind(cty) {
                TyKind::Error => (s6, ERROR_TY),
                TyKind::Func { params, ret, .. } => if params is Nil {
                    let out = match s6.sole_arg(ret, s6.p.well_known(T_FUTURE)) {
                        Some(t) => t,
                        None => ret,
                    };
                    let s7 = s6.require_sendable(
                        s6.captured_types(crate::check::calls::first_arg_span(e)),
                        task,
                        crate::check::calls::first_arg_span(e),
                    );
                    s7.mk_named(s7.join_handle(ns), List::one(out))
                } else {
                    s6.bad_worker(task, crate::check::calls::first_arg_span(e))
                },
                _ => s6.bad_worker(task, crate::check::calls::first_arg_span(e)),
            }
        }
    }

    #[verifier::opaque]
    pub open spec fn bad_worker(self, task: bool, span: Span) -> (Ck, Ty) {
        let s1 = if task {
            let s2 = self.say("`Task.spawn` expects a parameterless closure `() => R`"@, span);
            s2
        } else {
            let s3 = self.say("`Thread.spawn` expects a parameterless closure `() => R`"@, span);
            s3
        };
        (s1, ERROR_TY)
    }

    /// A handle's `join()` is a future of `Joined<R> | Panicked`, and of a task
    /// also of `Cancelled`; only a task can be cancelled and aborted.
    pub open spec fn check_join_handle_method(self, e: Expr, out: Ty, task: bool) -> (Ck, Ty)
        decreases e, 3int,
    {
        let (s1, ok) = self.has_args(e, 0);
        let s2 = if !ok {
            let s3 = s1.check_all(e, true);
            s3
        } else {
            s1
        };
        s2.handle_result(crate::check::calls::member_name(e), out, task)
    }

    /// What a handle's method `name` returns.
    #[verifier::opaque]
    pub open spec fn handle_result(self, name: Ident, out: Ty, task: bool) -> (Ck, Ty) {
        if name.name == JOIN {
            let (s1, joined) = self.mk_named(self.p.well_known(T_JOINED), List::one(out));
            let (s2, panicked) = s1.mk_named(s1.p.well_known(T_PANICKED), List::Nil);
            if task {
                let (s3, cancelled) = s2.mk_named(s2.p.well_known(T_CANCELLED), List::Nil);
                let (s4, u) = s3.mk_union(
                    List::Cons(Box::new(joined), Box::new(List::two(panicked, cancelled))),
                );
                s4.mk_future(u)
            } else {
                let (s5, u) = s2.mk_union(List::two(joined, panicked));
                s5.mk_future(u)
            }
        } else {
            if name.name == DETACH || (task && (name.name == CANCEL || name.name == ABORT)) {
                (self, NULL_TY)
            } else {
                let n = self.name(name.name);
                let s6 = self.say("`JoinHandle` has no method `"@ + n + "`"@, name.span);
                (s6, ERROR_TY)
            }
        }
    }

    pub open spec fn check_channel_method(self, e: Expr, elem: Ty, sender: bool) -> (Ck, Ty)
        decreases e, 3int,
    {
        let name = crate::check::calls::member_name(e).name;
        if sender && name == SEND {
            let (s1, ok) = self.has_args(e, 1);
            let s2 = if ok {
                let (s3, at) = s1.check_first(e, Some(elem));
                let s4 = s3.expect(at, elem, crate::check::calls::first_arg_span(e));
                s4
            } else {
                s1
            };
            (s2, NULL_TY)
        } else {
            if !sender && name == RECV {
                let s5 = self.has_args(e, 0).0;
                s5.mk_future(elem)
            } else {
                if !sender && name == TRY_RECV {
                    let s6 = self.has_args(e, 0).0;
                    s6.mk_nullable(elem)
                } else {
                    if sender {
                        self.no_builtin_method(e, "Sender"@)
                    } else {
                        self.no_builtin_method(e, "Receiver"@)
                    }
                }
            }
        }
    }

    /// `Shared.new(value)`.
    pub open spec fn check_shared_new(self, e: Expr) -> (Ck, Ty)
        decreases e, 5int,
    {
        let found = crate::check::calls::arg_count(e, false);
        if found != 1 {
            let s1 = self.fail(Problem::ArgCount { expected: 1, found }, e.span);
            let s2 = s1.check_all(e, false);
            (s2, ERROR_TY)
        } else {
            let (s3, elem) = self.check_first(e, None);
            s3.mk_named(s3.p.well_known(T_SHARED), List::one(elem))
        }
    }

    /// `lock` and `try_lock` run a closure on the locked value and are awaited;
    /// what an async closure yields is what awaiting the lock gives.
    pub open spec fn check_shared_method(self, e: Expr, elem: Ty) -> (Ck, Ty)
        decreases e, 3int,
    {
        let name = crate::check::calls::member_name(e).name;
        if name != LOCK && name != TRY_LOCK {
            self.no_builtin_method(e, "Shared"@)
        } else {
            let (s1, ok) = self.has_args(e, 1);
            if !ok {
                (s1, ERROR_TY)
            } else {
                let s2 = if !s1.in_async {
                    let s3 = s1.say(
                        "locking a `Shared` is async: `await` it inside an `async` body, or `spawn` an async task that does"@,
                        e.span,
                    );
                    s3
                } else {
                    s1
                };
                let (s4, want) = s2.mk_func(List::one(elem), ERROR_TY);
                let s5 = Ck { lock_next: true, ..s4 };
                let (s6, cty) = s5.check_first(e, Some(want));
                let s7 = Ck { lock_next: false, ..s6 };
                let ret = match s7.kind(cty) {
                    TyKind::Func { ret, .. } => ret,
                    _ => ERROR_TY,
                };
                let out = match s7.sole_arg(ret, s7.p.well_known(T_FUTURE)) {
                    Some(t) => t,
                    None => ret,
                };
                if name == LOCK {
                    s7.mk_future(out)
                } else {
                    let (s8, busy) = s7.mk_named(s7.p.well_known(T_LOCK_BUSY), List::Nil);
                    let (s9, u) = s8.mk_union(List::two(out, busy));
                    s9.mk_future(u)
                }
            }
        }
    }

    pub open spec fn check_intrinsic_call(self, e: Expr, name: Symbol) -> (Ck, Ty)
        decreases e, 5int,
    {
        if name == CHANNEL {
            self.check_channel_new(e)
        } else {
            if name == YIELD_NOW {
                let s1 = self.check_arity(0, crate::check::calls::arg_count(e, false), e.span);
                s1.mk_future(NULL_TY)
            } else {
                if name == SLEEP {
                    let found = crate::check::calls::arg_count(e, false);
                    let s2 = if found != 1 {
                        let s3 = self.fail(Problem::ArgCount { expected: 1, found }, e.span);
                        s3
                    } else {
                        let (s4, at) = self.check_first(e, Some(I64_TY));
                        let s5 = s4.expect(at, I64_TY, crate::check::calls::first_arg_span(e));
                        s5
                    };
                    s2.mk_future(NULL_TY)
                } else {
                    if name == TIMEOUT {
                        self.check_timeout(e)
                    } else {
                        self.check_block_on(e)
                    }
                }
            }
        }
    }

    /// `timeout(f, ms)` is a future of what `f` yields or `TimedOut`.
    pub open spec fn check_timeout(self, e: Expr) -> (Ck, Ty)
        decreases e, 4int,
    {
        let found = crate::check::calls::arg_count(e, false);
        if found != 2 {
            let s1 = self.fail(Problem::ArgCount { expected: 2, found }, e.span);
            (s1, ERROR_TY)
        } else {
            let (s2, ft) = self.check_first(e, None);
            let (s3, mt) = s2.check_second(e, Some(I64_TY));
            let s4 = s3.expect(mt, I64_TY, crate::check::calls::second_arg_span(e));
            let (s5, output) = s4.future_output(ft);
            match output {
                Some(out) => {
                    let (s6, late) = s5.mk_named(s5.p.well_known(T_TIMED_OUT), List::Nil);
                    let (s7, u) = s6.mk_union(List::two(out, late));
                    s7.mk_future(u)
                },
                None => {
                    let s8 = if !s5.is_err(ft) {
                        let t = s5.show(ft);
                        let s9 = s5.say(
                            "`timeout` expects a future as its first argument, found `"@ + t + "`"@,
                            crate::check::calls::first_arg_span(e),
                        );
                        s9
                    } else {
                        s5
                    };
                    (s8, ERROR_TY)
                },
            }
        }
    }

    /// `block_on(f)` is what the future `f` yields.
    pub open spec fn check_block_on(self, e: Expr) -> (Ck, Ty)
        decreases e, 4int,
    {
        let found = crate::check::calls::arg_count(e, false);
        if found != 1 {
            let s1 = self.fail(Problem::ArgCount { expected: 1, found }, e.span);
            let s2 = s1.check_all(e, false);
            (s2, ERROR_TY)
        } else {
            let (s3, ft) = self.check_first(e, None);
            let (s4, output) = s3.future_output(ft);
            match output {
                Some(out) => (s4, out),
                None => {
                    let s5 = if !s4.is_err(ft) {
                        let t = s4.show(ft);
                        let s6 = s4.say(
                            "`block_on` requires a `Future`, but `"@ + t + "` is not one"@,
                            crate::check::calls::first_arg_span(e),
                        );
                        s6
                    } else {
                        s4
                    };
                    (s5, ERROR_TY)
                },
            }
        }
    }

    /// The written element type of `channel<T>()`, which is immutable.
    #[verifier::opaque]
    pub open spec fn channel_elem(self, e: Expr) -> (Ck, Option<Ty>) {
        let written = match e.kind {
            ExprKind::Call { generics, .. } => match generics {
                List::Cons(g, rest) => if (*rest) is Nil {
                    Some(*g)
                } else {
                    None
                },
                List::Nil => None,
            },
            _ => None,
        };
        match written {
            Some(t) => {
                let env = self.env();
                let (s1, elem) = self.lower(t, env);
                let s2 = if !s1.is_immutable(elem) && !s1.is_err(elem) {
                    let n = s1.show(elem);
                    s1.say(
                        "`channel` element type `"@
                            + n
                            + "` must be immutable so far (only primitives and `str` can cross threads without a deep clone)"@,
                        e.span,
                    )
                } else {
                    s1
                };
                (s2, Some(elem))
            },
            None => {
                let s3 = self.say(
                    "`channel` needs exactly one explicit type argument: `channel<T>()`"@,
                    e.span,
                );
                (s3, None)
            },
        }
    }

    /// The pair of a sender and a receiver.
    #[verifier::opaque]
    pub open spec fn channel_ends(self, elem: Ty) -> (Ck, Ty) {
        let (s1, sender) = self.mk_named(self.p.well_known(T_SENDER), List::one(elem));
        let (s2, receiver) = s1.mk_named(s1.p.well_known(T_RECEIVER), List::one(elem));
        s2.mk_tuple(List::two(sender, receiver))
    }

    /// `channel<T>()` is a sender and a receiver of an immutable type.
    pub open spec fn check_channel_new(self, e: Expr) -> (Ck, Ty)
        decreases e, 4int,
    {
        let (s1, written) = self.channel_elem(e);
        match written {
            Some(elem) => {
                let found = crate::check::calls::arg_count(e, false);
                if found != 0 {
                    let s2 = s1.fail(Problem::ArgCount { expected: 0, found }, e.span);
                    let s3 = s2.check_all(e, false);
                    s3.channel_ends(elem)
                } else {
                    s1.channel_ends(elem)
                }
            },
            None => (s1, ERROR_TY),
        }
    }

    /// The arithmetic and predicates of numeric types.
    pub open spec fn check_num_method(self, e: Expr, ns: Symbol, name: Symbol) -> (Ck, Ty)
        decreases e, 5int,
    {
        match self.num_method(ns, name) {
            Some(NumIntrinsic::FloatPred { ty, .. }) => {
                let s1 = self.check_num_args(e, List::one(ty));
                (s1, BOOL_TY)
            },
            Some(NumIntrinsic::IntArith { ty, family, op }) => {
                let tys = if op == 5 {
                    List::one(ty)
                } else {
                    if op == 6 || op == 7 {
                        List::two(ty, U32_TY)
                    } else {
                        List::two(ty, ty)
                    }
                };
                let s2 = self.check_num_args(e, tys);
                if family == 2 {
                    s2.mk_nullable(ty)
                } else {
                    if family == 3 {
                        s2.mk_tuple(List::two(ty, BOOL_TY))
                    } else {
                        (s2, ty)
                    }
                }
            },
            _ => (self, ERROR_TY),
        }
    }

    pub open spec fn check_num_args(self, e: Expr, tys: List<Ty>) -> Ck
        decreases e, 4int,
    {
        match e.kind {
            ExprKind::Call { args, .. } => {
                let s1 = self.check_arity(tys.count(), args.count(), e.span);
                let s2 = s1.check_zip(args, tys, false).0;
                s2
            },
            _ => self,
        }
    }

    /// `t` has a C layout.
    #[verifier::opaque]
    pub open spec fn is_foreign(self, t: Ty) -> bool {
        self.is_repr_c(t) || self.is_extern_struct(t)
    }

    /// `*t | null`.
    #[verifier::opaque]
    pub open spec fn mk_nullable_ptr(self, t: Ty) -> (Ck, Ty) {
        let (s1, p) = self.mk_ptr(t);
        s1.mk_nullable(p)
    }

    /// A raw pointer, nullable or not, is wanted as the first argument.
    #[verifier::opaque]
    pub open spec fn require_pointer(self, t: Ty, method: Seq<char>, span: Span) -> Ck {
        if !self.is_ptr(t) && !self.is_nullable_ptr(t) {
            let n = self.show(t);
            let s1 = self.say("`Foreign."@ + method + "` expects a raw pointer `*T`, got `"@ + n + "`"@, span);
            s1
        } else {
            self
        }
    }

    #[verifier::opaque]
    pub open spec fn foreign_args(self, e: Expr, n: usize) -> (Ck, Option<List<Ty>>) {
        match e.kind {
            ExprKind::Call { generics, .. } => if generics.count() == n {
                let env = self.env();
                let (s1, tys) = self.lower_list(generics, env);
                (s1, Some(tys))
            } else {
                (self, None)
            },
            _ => (self, None),
        }
    }

    pub open spec fn check_foreign_builtin(self, e: Expr, name: Symbol) -> (Ck, Ty)
        decreases e, 5int,
    {
        if name == ALLOC || name == ALLOC_ZEROED {
            self.check_foreign_alloc(e, name)
        } else {
            if name == FREE {
                let found = crate::check::calls::arg_count(e, false);
                if found != 1 {
                    let s1 = self.fail(Problem::ArgCount { expected: 1, found }, e.span);
                    (s1, NULL_TY)
                } else {
                    let (s2, at) = self.check_first(e, None);
                    let s3 = s2.require_pointer(at, "free"@, crate::check::calls::first_arg_span(e));
                    (s3, NULL_TY)
                }
            } else {
                if name == REALLOC {
                    self.check_foreign_realloc(e)
                } else {
                    if name == ALLOC_FLEX {
                        self.check_foreign_flex(e)
                    } else {
                        let n = self.name(name);
                        let s4 = self.say(
                            "`Foreign` has no method `"@ + n + "`; expected `alloc`, `alloc_zeroed`, or `free` (`docs/19` §5)"@,
                            e.span,
                        );
                        (s4, ERROR_TY)
                    }
                }
            }
        }
    }

    #[verifier::opaque]
    pub open spec fn check_foreign_alloc(self, e: Expr, name: Symbol) -> (Ck, Ty) {
        let n = self.name(name);
        let (s1, args) = self.foreign_args(e, 1);
        match args {
            Some(List::Cons(t, _)) => {
                let s2 = s1.check_arity(0, crate::check::calls::arg_count(e, false), e.span);
                if s2.is_foreign(*t) {
                    s2.mk_nullable_ptr(*t)
                } else {
                    let tn = s2.show(*t);
                    let s3 = s2.say(
                        "`Foreign."@ + n + "` requires a C-ABI (`ReprC`) type argument, got `"@ + tn + "` (`docs/19` §5)"@,
                        e.span,
                    );
                    (s3, ERROR_TY)
                }
            },
            _ => {
                let s4 = s1.say(
                    "`Foreign."@ + n + "` needs exactly one type argument, e.g. `Foreign."@ + n + "<Pair>()` (`docs/19` §5)"@,
                    e.span,
                );
                (s4, ERROR_TY)
            },
        }
    }

    pub open spec fn check_foreign_realloc(self, e: Expr) -> (Ck, Ty)
        decreases e, 4int,
    {
        let generics = match e.kind {
            ExprKind::Call { generics, .. } => generics.count(),
            _ => 0,
        };
        if generics != 1 {
            let s1 = self.say(
                "`Foreign.realloc` needs one type argument, e.g. `Foreign.realloc<Pair>(p, n)` (`docs/19` §5)"@,
                e.span,
            );
            (s1, ERROR_TY)
        } else {
            let found = crate::check::calls::arg_count(e, false);
            if found != 2 {
                let s2 = self.fail(Problem::ArgCount { expected: 2, found }, e.span);
                (s2, ERROR_TY)
            } else {
                let (s3, args) = self.foreign_args(e, 1);
                match args {
                    Some(List::Cons(t, _)) => {
                        let (s4, ptr) = s3.mk_ptr(*t);
                        let (s5, pt) = s4.check_first(e, Some(ptr));
                        let s6 = s5.require_pointer(pt, "realloc"@, crate::check::calls::first_arg_span(e));
                        let (s7, st) = s6.check_second(e, Some(USIZE_TY));
                        let s8 = s7.expect(st, USIZE_TY, crate::check::calls::second_arg_span(e));
                        s8.mk_nullable(ptr)
                    },
                    _ => (s3, ERROR_TY),
                }
            }
        }
    }

    #[verifier::opaque]
    pub open spec fn require_flex_arg(self, t: Ty, which: Seq<char>, span: Span) -> Ck {
        if !self.is_foreign(t) {
            let n = self.show(t);
            let s1 = self.say(
                "`Foreign.alloc_flex` type argument "@ + which + " (`"@ + n + "`) must be C-ABI (`ReprC`) (`docs/19` §5)"@,
                span,
            );
            s1
        } else {
            self
        }
    }

    pub open spec fn check_foreign_flex(self, e: Expr) -> (Ck, Ty)
        decreases e, 4int,
    {
        let generics = match e.kind {
            ExprKind::Call { generics, .. } => generics.count(),
            _ => 0,
        };
        if generics != 2 {
            let s1 = self.say(
                "`Foreign.alloc_flex` needs two type arguments, e.g. `Foreign.alloc_flex<Msg, u8>(n)` (`docs/19` §5)"@,
                e.span,
            );
            (s1, ERROR_TY)
        } else {
            let found = crate::check::calls::arg_count(e, false);
            if found != 1 {
                let s2 = self.fail(Problem::ArgCount { expected: 1, found }, e.span);
                (s2, ERROR_TY)
            } else {
                let (s3, args) = self.foreign_args(e, 2);
                let (t, elem) = match args {
                    Some(List::Cons(a, rest)) => match *rest {
                        List::Cons(b, _) => (*a, *b),
                        List::Nil => (*a, ERROR_TY),
                    },
                    _ => (ERROR_TY, ERROR_TY),
                };
                let s4 = s3.require_flex_arg(t, "1"@, e.span);
                let s5 = s4.require_flex_arg(elem, "2"@, e.span);
                let (s6, ct) = s5.check_first(e, Some(USIZE_TY));
                let s7 = s6.expect(ct, USIZE_TY, crate::check::calls::first_arg_span(e));
                let s8 = Ck { p_flex: Some(crate::check::Flex { ty: t, elem }), ..s7 };
                s8.mk_nullable_ptr(t)
            }
        }
    }
}

impl<'a> Cx<'a> {
    /// Whose method a call on a value of type `rty` is.
    pub fn method_plan(&self, rty: Ty, name: Symbol) -> (r: MethodPlan)
        ensures
            r == self.view().method_plan(rty, name),
    {
        proof {
            reveal(Ck::method_plan);
        }
        match self.kind(rty) {
            TyKind::Str => MethodPlan::Str,
            TyKind::Param(p) => MethodPlan::Bound(p),
            TyKind::Named { def, .. } => self.nominal_plan(rty, def, name),
            _ => MethodPlan::User,
        }
    }

    pub fn nominal_plan(&self, rty: Ty, def: DefId, name: Symbol) -> (r: MethodPlan)
        ensures
            r == self.view().nominal_plan(rty, def, name),
    {
        proof {
            reveal(Ck::nominal_plan);
        }
        match (self.list_elem(rty), self.map_kv(rty)) {
            (Some(elem), _) => {
                return MethodPlan::OfList(elem);
            },
            (None, Some((kt, vt))) => {
                return MethodPlan::OfMap(kt, vt);
            },
            (None, None) => {},
        }
        let dynamic = if self.program().def(def).kind == DefKind::Interface {
            MethodPlan::Dyn
        } else {
            MethodPlan::User
        };
        let arg = self.first_arg(rty);
        if def == DefId(0) {
            dynamic
        } else if def == self.join_handle(T_THREAD) {
            MethodPlan::Thread(arg)
        } else if def == self.join_handle(T_TASK) {
            MethodPlan::Task(arg)
        } else if def == self.program().known(T_SENDER) {
            MethodPlan::OfSender(arg)
        } else if def == self.program().known(T_RECEIVER) {
            MethodPlan::OfReceiver(arg)
        } else if def == self.program().known(T_SHARED) {
            MethodPlan::OfShared(arg)
        } else if name == CANCEL && self.is_future_ty(rty) {
            MethodPlan::Cancel
        } else {
            dynamic
        }
    }

    /// `receiver.name(..)`.
    pub fn check_method_call(&mut self, e: &Expr) -> (r: Ty)
        ensures
            final(self).answers(r, old(self).view().check_method_call(*e)),
            old(self).view().grows_to(final(self).view()),
        decreases e, 7int,
    {
        let receiver = match &e.kind {
            ExprKind::Call { callee, .. } => match &callee.kind {
                ExprKind::Field { receiver, .. } => &**receiver,
                _ => {
                    return ERROR_TY;
                },
            },
            _ => {
                return ERROR_TY;
            },
        };
        let rty = self.check_expr(receiver, None);
        if self.is_err(rty) {
            self.check_all(e, true);
            return ERROR_TY;
        }
        let own = self.check_value_method(e, rty);
        match own {
            Some(t) => t,
            None => self.check_method_of(e, rty),
        }
    }

    pub fn check_method_of(&mut self, e: &Expr, rty: Ty) -> (r: Ty)
        ensures
            final(self).answers(r, old(self).view().check_method_of(*e, rty)),
            old(self).view().grows_to(final(self).view()),
        decreases e, 6int,
    {
        match self.method_plan(rty, member_of(e).name) {
            MethodPlan::Bound(p) => self.check_bound_method_call(e, p, rty),
            MethodPlan::Dyn => self.check_dyn_method_call(e, rty),
            MethodPlan::User => self.check_user_method(e, rty),
            plan => self.check_builtin_method(e, plan),
        }
    }

    pub fn check_builtin_method(&mut self, e: &Expr, plan: MethodPlan) -> (r: Ty)
        ensures
            final(self).answers(r, old(self).view().check_builtin_method(*e, plan)),
            old(self).view().grows_to(final(self).view()),
        decreases e, 5int,
    {
        match plan {
            MethodPlan::OfList(elem) => self.check_list_method(e, elem),
            MethodPlan::OfMap(kt, vt) => self.check_map_method(e, kt, vt),
            MethodPlan::Str => self.check_str_method(e),
            MethodPlan::Cancel => {
                self.check_arity(0, count_args(e, true), e.span);
                NULL_TY
            },
            _ => self.check_sync_method(e, plan),
        }
    }

    pub fn check_sync_method(&mut self, e: &Expr, plan: MethodPlan) -> (r: Ty)
        ensures
            final(self).answers(r, old(self).view().check_sync_method(*e, plan)),
            old(self).view().grows_to(final(self).view()),
        decreases e, 4int,
    {
        match plan {
            MethodPlan::Thread(out) => self.check_join_handle_method(e, out, false),
            MethodPlan::Task(out) => self.check_join_handle_method(e, out, true),
            MethodPlan::OfSender(elem) => self.check_channel_method(e, elem, true),
            MethodPlan::OfReceiver(elem) => self.check_channel_method(e, elem, false),
            MethodPlan::OfShared(elem) => self.check_shared_method(e, elem),
            _ => ERROR_TY,
        }
    }

    /// `.clone()` and `.hash()` of values that the language clones and hashes
    /// itself.
    pub fn check_value_method(&mut self, e: &Expr, rty: Ty) -> (r: Option<Ty>)
        ensures
            final(self).answers(r, old(self).view().check_value_method(*e, rty)),
            old(self).view().grows_to(final(self).view()),
    {
        proof {
            reveal(Ck::check_value_method);
        }
        let name = member_of(e);
        if count_args(e, true) != 0 {
            return None;
        }
        if name.name == CLONE {
            self.check_builtin_clone(rty, name.span)
        } else if name.name == HASH {
            self.check_builtin_hash(rty, span_of_callee(e))
        } else {
            None
        }
    }

    pub fn no_bound_method(&mut self, e: &Expr, rty: Ty) -> (r: Ty)
        ensures
            final(self).answers(r, old(self).view().no_bound_method(*e, rty)),
            old(self).view().grows_to(final(self).view()),
    {
        proof {
            reveal(Ck::no_bound_method);
        }
        let name = member_of(e);
        let n = self.name(name.name);
        let t = self.display(rty);
        self.say_text(
            "no method `".to_owned().concat(n.as_str()).concat("` is available on type parameter `").concat(
                t.as_str(),
            ).concat("` through its bounds"),
            name.span,
        );
        ERROR_TY
    }

    /// The signature of a method that a bound of a type parameter gives.
    pub fn bound_sig(&mut self, e: &Expr, param: DefId, rty: Ty) -> (r: Option<Sig>)
        ensures
            final(self).answers(r, old(self).view().bound_sig(*e, param, rty)),
            old(self).view().grows_to(final(self).view()),
    {
        proof {
            reveal(Ck::bound_sig);
        }
        let found = self.resolve_bound_method(param, member_of(e).name);
        match found {
            Some(b) => {
                self.record_res(span_of_callee(e), ValueRes::Method(b.method), ERROR_TY);
                let sig = self.iface_method_sig(b.method, b.iface, &b.iargs, rty);
                Some(sig)
            },
            None => None,
        }
    }

    /// `x.method(..)` where `x` is of a type parameter: a method of its bounds.
    pub fn check_bound_method_call(&mut self, e: &Expr, param: DefId, rty: Ty) -> (r: Ty)
        ensures
            final(self).answers(r, old(self).view().check_bound_method_call(*e, param, rty)),
            old(self).view().grows_to(final(self).view()),
        decreases e, 3int,
    {
        let found = self.bound_sig(e, param, rty);
        match found {
            Some(sig) => {
                self.check_fixed(e, &sig.params);
                sig.ret
            },
            None => {
                self.check_all(e, true);
                self.no_bound_method(e, rty)
            },
        }
    }

    pub fn no_dyn_method(&mut self, e: &Expr, rty: Ty) -> (r: Ty)
        ensures
            final(self).answers(r, old(self).view().no_dyn_method(*e, rty)),
            old(self).view().grows_to(final(self).view()),
    {
        proof {
            reveal(Ck::no_dyn_method);
        }
        let name = member_of(e);
        let t = self.display(rty);
        let n = self.name(name.name);
        self.say_text(
            "interface `".to_owned().concat(t.as_str()).concat("` has no method `").concat(n.as_str()).concat("`"),
            name.span,
        );
        ERROR_TY
    }

    /// The signature of a method of an interface object of type `rty`.
    pub fn dyn_sig(&mut self, e: &Expr, rty: Ty) -> (r: Option<Sig>)
        ensures
            final(self).answers(r, old(self).view().dyn_sig(*e, rty)),
            old(self).view().grows_to(final(self).view()),
    {
        proof {
            reveal(Ck::dyn_sig);
        }
        match self.kind(rty) {
            TyKind::Named { def, args } => match self.program().find_method(
                DefKind::InterfaceMethod,
                def,
                member_of(e).name,
            ) {
                Some(method) => {
                    self.record_res(span_of_callee(e), ValueRes::Method(method), ERROR_TY);
                    let sig = self.iface_method_sig(method, def, &args, rty);
                    Some(sig)
                },
                None => None,
            },
            _ => None,
        }
    }

    /// `obj.method(..)` where `obj` is an interface object.
    pub fn check_dyn_method_call(&mut self, e: &Expr, rty: Ty) -> (r: Ty)
        ensures
            final(self).answers(r, old(self).view().check_dyn_method_call(*e, rty)),
            old(self).view().grows_to(final(self).view()),
        decreases e, 3int,
    {
        let found = self.dyn_sig(e, rty);
        match found {
            Some(sig) => {
                self.check_fixed(e, &sig.params);
                sig.ret
            },
            None => {
                self.check_all(e, true);
                self.no_dyn_method(e, rty)
            },
        }
    }

    pub fn no_method(&mut self, e: &Expr, rty: Ty) -> (r: Ty)
        ensures
            final(self).answers(r, old(self).view().no_method(*e, rty)),
            old(self).view().grows_to(final(self).view()),
    {
        proof {
            reveal(Ck::no_method);
        }
        let name = member_of(e);
        let t = self.display(rty);
        let n = self.name(name.name);
        self.emit(SemaErrorKind::NoMethod { ty: t, name: n }, name.span);
        ERROR_TY
    }

    /// The method that an `extend` block gives to the receiver: the generics of
    /// the block are what the receiver says, those of the method what is written.
    pub fn method_target(&mut self, e: &Expr, rty: Ty) -> (r: Option<Target>)
        ensures
            final(self).answers(r, old(self).view().method_target(*e, rty)),
            old(self).view().grows_to(final(self).view()),
    {
        proof {
            reveal(Ck::method_target);
        }
        let found = self.resolve_method(rty, member_of(e).name);
        match found {
            Some(f) => {
                self.record_res(span_of_callee(e), ValueRes::Method(f.method), ERROR_TY);
                let (env, self_ty) = self.fn_env(f.method);
                let tys = self.fn_params(f.method, &env, &f.solved);
                let given = self.written_args(e, f.method, f.solved);
                Some(Target { method: f.method, env, tys, given })
            },
            None => None,
        }
    }

    pub fn has_own_generics(&self, target: &Target) -> (r: bool)
        ensures
            r == self.view().has_own_generics(*target),
    {
        proof {
            reveal(Ck::has_own_generics);
        }
        !self.program().def(target.method).generics.is_empty()
    }

    pub fn target_ret(&mut self, target: &Target) -> (r: Ty)
        ensures
            final(self).answers(r, old(self).view().target_ret(*target)),
            old(self).view().grows_to(final(self).view()),
    {
        proof {
            reveal(Ck::target_ret);
        }
        self.fn_ret(target.method, &target.env, &target.given)
    }

    /// Hands the arguments of the method's block to the call's node.
    pub fn pend_block_args(&mut self, target: &Target)
        ensures
            final(self).stands(old(self).view().pend_block_args(*target)),
            old(self).view().grows_to(final(self).view()),
    {
        proof {
            reveal(Ck::pend_block_args);
        }
        let of_block = self.block_args(target.method, &target.given);
        self.set_p_targs(if of_block.is_empty() {
            None
        } else {
            Some(of_block)
        });
    }

    /// Concludes a call of a method with generics of its own, which `m` solves.
    pub fn finish_method(&mut self, e: &Expr, target: Target, m: List<Solved>) -> (r: Ty)
        ensures
            final(self).answers(r, old(self).view().finish_method(*e, target, m)),
            old(self).view().grows_to(final(self).view()),
    {
        proof {
            reveal(Ck::finish_method);
        }
        let gens = &self.program().def(target.method).generics;
        self.check_arity(target.tys.len(), count_args(e, true), e.span);
        self.expect_call(e, &target.tys, &m);
        let own = all_solutions(&m, gens, ERROR_TY);
        self.check_bounds(gens, &own, e.span);
        let ret = self.fn_ret(target.method, &target.env, &m);
        let of_block = self.block_args(target.method, &m);
        self.set_p_targs(Some(of_block.append(own)));
        ret
    }

    /// A method that an `extend` block gives.
    pub fn check_user_method(&mut self, e: &Expr, rty: Ty) -> (r: Ty)
        ensures
            final(self).answers(r, old(self).view().check_user_method(*e, rty)),
            old(self).view().grows_to(final(self).view()),
        decreases e, 3int,
    {
        let found = self.method_target(e, rty);
        match found {
            Some(target) => {
                if self.has_own_generics(&target) {
                    let m = self.infer_call(e, &target.tys, dup(&target.given));
                    self.finish_method(e, target, m)
                } else {
                    let ret = self.target_ret(&target);
                    self.check_fixed(e, &target.tys);
                    self.pend_block_args(&target);
                    ret
                }
            },
            None => {
                self.check_all(e, true);
                self.no_method(e, rty)
            },
        }
    }

    pub fn no_builtin_method(&mut self, e: &Expr, owner: &'static str) -> (r: Ty)
        ensures
            final(self).answers(r, old(self).view().no_builtin_method(*e, owner@)),
            old(self).view().grows_to(final(self).view()),
        decreases e, 2int,
    {
        let name = member_of(e);
        let n = self.name(name.name);
        self.say_text(
            "`".to_owned().concat(owner).concat("` has no method `").concat(n.as_str()).concat("`"),
            name.span,
        );
        self.check_all(e, true);
        ERROR_TY
    }

    /// The call has `n` arguments; otherwise it is reported.
    pub fn has_args(&mut self, e: &Expr, n: usize) -> (r: bool)
        ensures
            final(self).answers(r, old(self).view().has_args(*e, n)),
            old(self).view().grows_to(final(self).view()),
    {
        proof {
            reveal(Ck::has_args);
        }
        let found = count_args(e, true);
        if found == n {
            true
        } else {
            self.emit_count(n, found, e.span);
            false
        }
    }

    /// The parameters of a `List<elem>` method that takes no closure.
    pub fn list_params(&self, elem: Ty, name: Symbol) -> (r: Option<List<Ty>>)
        ensures
            r == self.view().list_params(elem, name),
    {
        proof {
            reveal(Ck::list_params);
        }
        if name == SIZE || name == IS_EMPTY || name == CLEAR || name == POP || name == ITER {
            Some(List::Nil)
        } else if name == PUSH || name == CONTAINS || name == INDEX_OF {
            Some(List::single(elem))
        } else if name == GET || name == REMOVE || name == TRUNCATE {
            Some(List::single(I64_TY))
        } else if name == SET || name == INSERT {
            Some(List::pair(I64_TY, elem))
        } else {
            None
        }
    }

    pub fn list_result(&mut self, elem: Ty, name: Symbol, span: Span) -> (r: Ty)
        ensures
            final(self).answers(r, old(self).view().list_result(elem, name, span)),
            old(self).view().grows_to(final(self).view()),
    {
        proof {
            reveal(Ck::list_result);
        }
        if name == SIZE {
            I64_TY
        } else if name == IS_EMPTY {
            BOOL_TY
        } else if name == GET || name == POP || name == REMOVE {
            self.mk_nullable(elem)
        } else if name == ITER {
            self.mk_named(self.program().known(T_LIST_ITER), List::single(elem))
        } else if name == CONTAINS || name == INDEX_OF {
            let ok = self.is_equatable(elem);
            if !ok {
                let n = self.name(name);
                self.say_text(
                    "`List.".to_owned().concat(n.as_str()).concat("` requires the element type to implement `Eq`"),
                    span,
                );
            }
            if name == CONTAINS {
                BOOL_TY
            } else {
                self.mk_nullable(I64_TY)
            }
        } else {
            NULL_TY
        }
    }

    pub fn check_list_method(&mut self, e: &Expr, elem: Ty) -> (r: Ty)
        ensures
            final(self).answers(r, old(self).view().check_list_method(*e, elem)),
            old(self).view().grows_to(final(self).view()),
        decreases e, 3int,
    {
        let name = member_of(e).name;
        match self.list_params(elem, name) {
            Some(tys) => {
                self.check_fixed(e, &tys);
                self.list_result(elem, name, e.span)
            },
            None => if name == MAP || name == FILTER || name == EACH || name == FOLD {
                self.check_list_closure(e, elem, name)
            } else {
                self.no_builtin_method(e, "List")
            },
        }
    }

    /// The methods that take a closure.
    pub fn check_list_closure(&mut self, e: &Expr, elem: Ty, name: Symbol) -> (r: Ty)
        ensures
            final(self).answers(r, old(self).view().check_list_closure(*e, elem, name)),
            old(self).view().grows_to(final(self).view()),
        decreases e, 2int,
    {
        if name == FOLD {
            let ok = self.has_args(e, 2);
            if !ok {
                return ERROR_TY;
            }
            let acc = self.check_first(e, None);
            let want = self.mk_func(List::pair(acc, elem), acc);
            let ct = self.check_second(e, Some(want));
            self.expect(ct, want, second_span(e));
            return acc;
        }
        let ok = self.has_args(e, 1);
        if !ok {
            if name == EACH {
                return NULL_TY;
            }
            return ERROR_TY;
        }
        let ret = if name == MAP {
            ERROR_TY
        } else if name == FILTER {
            BOOL_TY
        } else {
            NULL_TY
        };
        let want = self.mk_func(List::single(elem), ret);
        let ct = self.check_first(e, Some(want));
        if name == MAP {
            match self.kind(ct) {
                TyKind::Func { ret: r, .. } => self.mk_list(r),
                _ => ERROR_TY,
            }
        } else if name == FILTER {
            self.expect(ct, want, first_span(e));
            self.mk_list(elem)
        } else {
            NULL_TY
        }
    }

    pub fn map_params(&self, kt: Ty, vt: Ty, name: Symbol) -> (r: Option<List<Ty>>)
        ensures
            r == self.view().map_params(kt, vt, name),
    {
        proof {
            reveal(Ck::map_params);
        }
        if name == SIZE || name == IS_EMPTY || name == CLEAR || name == KEYS || name == VALUES || name == ENTRIES {
            Some(List::Nil)
        } else if name == CONTAINS || name == GET || name == REMOVE {
            Some(List::single(kt))
        } else if name == SET {
            Some(List::pair(kt, vt))
        } else {
            None
        }
    }

    pub fn map_result(&mut self, kt: Ty, vt: Ty, name: Symbol) -> (r: Ty)
        ensures
            final(self).answers(r, old(self).view().map_result(kt, vt, name)),
            old(self).view().grows_to(final(self).view()),
    {
        proof {
            reveal(Ck::map_result);
        }
        if name == SIZE {
            I64_TY
        } else if name == IS_EMPTY || name == CONTAINS {
            BOOL_TY
        } else if name == GET || name == REMOVE {
            self.mk_nullable(vt)
        } else if name == KEYS {
            self.mk_named(self.program().known(T_MAP_KEYS), List::single(kt))
        } else if name == VALUES {
            self.mk_named(self.program().known(T_MAP_VALUES), List::single(vt))
        } else if name == ENTRIES {
            self.mk_named(self.program().known(T_MAP_ENTRIES), List::pair(kt, vt))
        } else {
            NULL_TY
        }
    }

    pub fn check_map_method(&mut self, e: &Expr, kt: Ty, vt: Ty) -> (r: Ty)
        ensures
            final(self).answers(r, old(self).view().check_map_method(*e, kt, vt)),
            old(self).view().grows_to(final(self).view()),
        decreases e, 3int,
    {
        let name = member_of(e).name;
        match self.map_params(kt, vt, name) {
            Some(tys) => {
                self.check_fixed(e, &tys);
                self.map_result(kt, vt, name)
            },
            None => self.no_builtin_method(e, "Map"),
        }
    }

    pub fn str_params(&self, name: Symbol) -> (r: Option<List<Ty>>)
        ensures
            r == self.view().str_params(name),
    {
        proof {
            reveal(Ck::str_params);
        }
        if name == SIZE || name == BYTE_SIZE || name == IS_EMPTY || name == TO_UPPER || name == TO_LOWER || name == TRIM
            || name == CHARS || name == BYTES {
            Some(List::Nil)
        } else if name == CONTAINS || name == STARTS_WITH || name == ENDS_WITH || name == INDEX_OF || name == SPLIT {
            Some(List::single(STR_TY))
        } else if name == REPEAT || name == GET {
            Some(List::single(I64_TY))
        } else if name == SUBSTRING {
            Some(List::pair(I64_TY, I64_TY))
        } else if name == REPLACE {
            Some(List::pair(STR_TY, STR_TY))
        } else {
            None
        }
    }

    pub fn str_result(&mut self, name: Symbol) -> (r: Ty)
        ensures
            final(self).answers(r, old(self).view().str_result(name)),
            old(self).view().grows_to(final(self).view()),
    {
        proof {
            reveal(Ck::str_result);
        }
        if name == SIZE || name == BYTE_SIZE {
            I64_TY
        } else if name == IS_EMPTY || name == CONTAINS || name == STARTS_WITH || name == ENDS_WITH {
            BOOL_TY
        } else if name == INDEX_OF {
            self.mk_nullable(I64_TY)
        } else if name == SPLIT {
            self.mk_list(STR_TY)
        } else if name == GET {
            self.mk_nullable(CHAR_TY)
        } else if name == CHARS {
            self.mk_named(self.program().known(T_STR_CHARS), List::Nil)
        } else if name == BYTES {
            self.mk_named(self.program().known(T_STR_BYTES), List::Nil)
        } else {
            STR_TY
        }
    }

    pub fn check_str_method(&mut self, e: &Expr) -> (r: Ty)
        ensures
            final(self).answers(r, old(self).view().check_str_method(*e)),
            old(self).view().grows_to(final(self).view()),
        decreases e, 3int,
    {
        let name = member_of(e).name;
        match self.str_params(name) {
            Some(tys) => {
                self.check_fixed(e, &tys);
                self.str_result(name)
            },
            None => self.no_builtin_method(e, "str"),
        }
    }

    /// Reports each captured type that must not cross to the spawned code.
    pub fn require_sendable(&mut self, tys: List<Ty>, task: bool, span: Span)
        ensures
            final(self).stands(old(self).view().require_sendable(tys, task, span)),
            old(self).view().grows_to(final(self).view()),
        decreases tys,
    {
        proof {
            reveal(Ck::require_sendable);
        }
        match tys {
            List::Nil => {},
            List::Cons(h, t) => {
                let ty = *h;
                let shared = self.is_thread_shareable(ty);
                let ok = if task && !shared {
                    self.satisfies(ty, self.program().known(T_CLONE))
                } else {
                    shared
                };
                if !ok {
                    let n = self.display(ty);
                    if task {
                        self.say_text(
                            "`Task.spawn` can only capture immutable values, channel endpoints or `Clone` values that can be snapshotted; captured value of type `".to_owned().concat(
                                n.as_str(),
                            ).concat("` is neither"),
                            span,
                        );
                    } else {
                        self.say_text(
                            "`Thread.spawn` can only capture immutable values or channel endpoints so far; captured value of type `".to_owned().concat(
                                n.as_str(),
                            ).concat("` would need a deep clone across the thread boundary (`docs/20` §1)"),
                            span,
                        );
                    }
                }
                self.require_sendable(*t, task, span);
            },
        }
    }

    /// `Thread.spawn` and `Task.spawn` run a closure without parameters; what an
    /// async one yields is what joining gives.
    pub fn check_spawn_call(&mut self, e: &Expr, ns: Symbol) -> (r: Ty)
        ensures
            final(self).answers(r, old(self).view().check_spawn_call(*e, ns)),
            old(self).view().grows_to(final(self).view()),
        decreases e, 5int,
    {
        let task = ns == T_TASK;
        if count_args(e, true) != 1 {
            if task {
                self.say("`Task.spawn` takes a single closure argument", e.span);
            } else {
                self.say("`Thread.spawn` takes a single closure argument", e.span);
            }
            self.check_all(e, false);
            return ERROR_TY;
        }
        let want = self.mk_func(List::Nil, ERROR_TY);
        let cty = self.check_first(e, Some(want));
        match self.kind(cty) {
            TyKind::Error => ERROR_TY,
            TyKind::Func { params, ret, .. } => if params.is_empty() {
                let out = match self.sole_arg(ret, self.program().known(T_FUTURE)) {
                    Some(t) => t,
                    None => ret,
                };
                self.require_sendable(self.captured_types(first_span(e)), task, first_span(e));
                self.mk_named(self.join_handle(ns), List::single(out))
            } else {
                self.bad_worker(task, first_span(e))
            },
            _ => self.bad_worker(task, first_span(e)),
        }
    }

    pub fn bad_worker(&mut self, task: bool, span: Span) -> (r: Ty)
        ensures
            final(self).answers(r, old(self).view().bad_worker(task, span)),
            old(self).view().grows_to(final(self).view()),
    {
        proof {
            reveal(Ck::bad_worker);
        }
        if task {
            self.say("`Task.spawn` expects a parameterless closure `() => R`", span);
        } else {
            self.say("`Thread.spawn` expects a parameterless closure `() => R`", span);
        }
        ERROR_TY
    }

    /// A handle's `join()` is a future of `Joined<R> | Panicked`, and of a task
    /// also of `Cancelled`; only a task can be cancelled and aborted.
    pub fn check_join_handle_method(&mut self, e: &Expr, out: Ty, task: bool) -> (r: Ty)
        ensures
            final(self).answers(r, old(self).view().check_join_handle_method(*e, out, task)),
            old(self).view().grows_to(final(self).view()),
        decreases e, 3int,
    {
        let ok = self.has_args(e, 0);
        if !ok {
            self.check_all(e, true);
        }
        self.handle_result(member_of(e), out, task)
    }

    /// What a handle's method `name` returns.
    pub fn handle_result(&mut self, name: Ident, out: Ty, task: bool) -> (r: Ty)
        ensures
            final(self).answers(r, old(self).view().handle_result(name, out, task)),
            old(self).view().grows_to(final(self).view()),
    {
        proof {
            reveal(Ck::handle_result);
        }
        if name.name == JOIN {
            let joined = self.mk_named(self.program().known(T_JOINED), List::single(out));
            let panicked = self.mk_named(self.program().known(T_PANICKED), List::Nil);
            if task {
                let cancelled = self.mk_named(self.program().known(T_CANCELLED), List::Nil);
                let u = self.mk_union(List::Cons(Box::new(joined), Box::new(List::pair(panicked, cancelled))));
                return self.mk_future(u);
            }
            let u = self.mk_union(List::pair(joined, panicked));
            return self.mk_future(u);
        }
        if name.name == DETACH || (task && (name.name == CANCEL || name.name == ABORT)) {
            return NULL_TY;
        }
        let n = self.name(name.name);
        self.say_text("`JoinHandle` has no method `".to_owned().concat(n.as_str()).concat("`"), name.span);
        ERROR_TY
    }

    pub fn check_channel_method(&mut self, e: &Expr, elem: Ty, sender: bool) -> (r: Ty)
        ensures
            final(self).answers(r, old(self).view().check_channel_method(*e, elem, sender)),
            old(self).view().grows_to(final(self).view()),
        decreases e, 3int,
    {
        let name = member_of(e).name;
        if sender && name == SEND {
            let ok = self.has_args(e, 1);
            if ok {
                let at = self.check_first(e, Some(elem));
                self.expect(at, elem, first_span(e));
            }
            NULL_TY
        } else if !sender && name == RECV {
            self.has_args(e, 0);
            self.mk_future(elem)
        } else if !sender && name == TRY_RECV {
            self.has_args(e, 0);
            self.mk_nullable(elem)
        } else if sender {
            self.no_builtin_method(e, "Sender")
        } else {
            self.no_builtin_method(e, "Receiver")
        }
    }

    /// `Shared.new(value)`.
    pub fn check_shared_new(&mut self, e: &Expr) -> (r: Ty)
        ensures
            final(self).answers(r, old(self).view().check_shared_new(*e)),
            old(self).view().grows_to(final(self).view()),
        decreases e, 5int,
    {
        let found = count_args(e, false);
        if found != 1 {
            self.emit_count(1, found, e.span);
            self.check_all(e, false);
            return ERROR_TY;
        }
        let elem = self.check_first(e, None);
        self.mk_named(self.program().known(T_SHARED), List::single(elem))
    }

    /// `lock` and `try_lock` run a closure on the locked value and are awaited;
    /// what an async closure yields is what awaiting the lock gives.
    pub fn check_shared_method(&mut self, e: &Expr, elem: Ty) -> (r: Ty)
        ensures
            final(self).answers(r, old(self).view().check_shared_method(*e, elem)),
            old(self).view().grows_to(final(self).view()),
        decreases e, 3int,
    {
        let name = member_of(e).name;
        if name != LOCK && name != TRY_LOCK {
            return self.no_builtin_method(e, "Shared");
        }
        let ok = self.has_args(e, 1);
        if !ok {
            return ERROR_TY;
        }
        if !self.in_async() {
            self.say(
                "locking a `Shared` is async: `await` it inside an `async` body, or `spawn` an async task that does",
                e.span,
            );
        }
        let want = self.mk_func(List::single(elem), ERROR_TY);
        self.set_lock_next(true);
        let cty = self.check_first(e, Some(want));
        self.set_lock_next(false);
        let ret = match self.kind(cty) {
            TyKind::Func { ret, .. } => ret,
            _ => ERROR_TY,
        };
        let out = match self.sole_arg(ret, self.program().known(T_FUTURE)) {
            Some(t) => t,
            None => ret,
        };
        if name == LOCK {
            self.mk_future(out)
        } else {
            let busy = self.mk_named(self.program().known(T_LOCK_BUSY), List::Nil);
            let u = self.mk_union(List::pair(out, busy));
            self.mk_future(u)
        }
    }

    pub fn check_intrinsic_call(&mut self, e: &Expr, name: Symbol) -> (r: Ty)
        ensures
            final(self).answers(r, old(self).view().check_intrinsic_call(*e, name)),
            old(self).view().grows_to(final(self).view()),
        decreases e, 5int,
    {
        if name == CHANNEL {
            self.check_channel_new(e)
        } else if name == YIELD_NOW {
            self.check_arity(0, count_args(e, false), e.span);
            self.mk_future(NULL_TY)
        } else if name == SLEEP {
            let found = count_args(e, false);
            if found != 1 {
                self.emit_count(1, found, e.span);
            } else {
                let at = self.check_first(e, Some(I64_TY));
                self.expect(at, I64_TY, first_span(e));
            }
            self.mk_future(NULL_TY)
        } else if name == TIMEOUT {
            self.check_timeout(e)
        } else {
            self.check_block_on(e)
        }
    }

    /// `timeout(f, ms)` is a future of what `f` yields or `TimedOut`.
    pub fn check_timeout(&mut self, e: &Expr) -> (r: Ty)
        ensures
            final(self).answers(r, old(self).view().check_timeout(*e)),
            old(self).view().grows_to(final(self).view()),
        decreases e, 4int,
    {
        let found = count_args(e, false);
        if found != 2 {
            self.emit_count(2, found, e.span);
            return ERROR_TY;
        }
        let ft = self.check_first(e, None);
        let mt = self.check_second(e, Some(I64_TY));
        self.expect(mt, I64_TY, second_span(e));
        let output = self.future_output(ft);
        match output {
            Some(out) => {
                let late = self.mk_named(self.program().known(T_TIMED_OUT), List::Nil);
                let u = self.mk_union(List::pair(out, late));
                self.mk_future(u)
            },
            None => {
                if !self.is_err(ft) {
                    let t = self.display(ft);
                    self.say_text(
                        "`timeout` expects a future as its first argument, found `".to_owned().concat(
                            t.as_str(),
                        ).concat("`"),
                        first_span(e),
                    );
                }
                ERROR_TY
            },
        }
    }

    /// `block_on(f)` is what the future `f` yields.
    pub fn check_block_on(&mut self, e: &Expr) -> (r: Ty)
        ensures
            final(self).answers(r, old(self).view().check_block_on(*e)),
            old(self).view().grows_to(final(self).view()),
        decreases e, 4int,
    {
        let found = count_args(e, false);
        if found != 1 {
            self.emit_count(1, found, e.span);
            self.check_all(e, false);
            return ERROR_TY;
        }
        let ft = self.check_first(e, None);
        let output = self.future_output(ft);
        match output {
            Some(out) => out,
            None => {
                if !self.is_err(ft) {
                    let t = self.display(ft);
                    self.say_text(
                        "`block_on` requires a `Future`, but `".to_owned().concat(t.as_str()).concat("` is not one"),
                        first_span(e),
                    );
                }
                ERROR_TY
            },
        }
    }

    /// The written element type of `channel<T>()`, which is immutable.
    pub fn channel_elem(&mut self, e: &Expr) -> (r: Option<Ty>)
        ensures
            final(self).answers(r, old(self).view().channel_elem(*e)),
            old(self).view().grows_to(final(self).view()),
    {
        proof {
            reveal(Ck::channel_elem);
        }
        let ty = match &e.kind {
            ExprKind::Call { generics, .. } => match generics {
                List::Cons(g, rest) => if (**rest).is_empty() {
                    Some(&**g)
                } else {
                    None
                },
                List::Nil => None,
            },
            _ => None,
        };
        let written = match ty {
            Some(t) => t,
            None => {
                self.say("`channel` needs exactly one explicit type argument: `channel<T>()`", e.span);
                return None;
            },
        };
        let env = self.local_env();
        let elem = self.lower_ty(written, &env);
        if !self.is_immutable_value(elem) && !self.is_err(elem) {
            let t = self.display(elem);
            self.say_text(
                "`channel` element type `".to_owned().concat(t.as_str()).concat(
                    "` must be immutable so far (only primitives and `str` can cross threads without a deep clone)",
                ),
                e.span,
            );
        }
        Some(elem)
    }

    /// The pair of a sender and a receiver.
    pub fn channel_ends(&mut self, elem: Ty) -> (r: Ty)
        ensures
            final(self).answers(r, old(self).view().channel_ends(elem)),
            old(self).view().grows_to(final(self).view()),
    {
        proof {
            reveal(Ck::channel_ends);
        }
        let sender = self.mk_named(self.program().known(T_SENDER), List::single(elem));
        let receiver = self.mk_named(self.program().known(T_RECEIVER), List::single(elem));
        self.mk_tuple(List::pair(sender, receiver))
    }

    /// `channel<T>()` is a sender and a receiver of an immutable type.
    pub fn check_channel_new(&mut self, e: &Expr) -> (r: Ty)
        ensures
            final(self).answers(r, old(self).view().check_channel_new(*e)),
            old(self).view().grows_to(final(self).view()),
        decreases e, 4int,
    {
        let elem = match self.channel_elem(e) {
            Some(t) => t,
            None => {
                return ERROR_TY;
            },
        };
        let found = count_args(e, false);
        if found != 0 {
            self.emit_count(0, found, e.span);
            self.check_all(e, false);
        }
        self.channel_ends(elem)
    }

    /// The arithmetic and predicates of numeric types.
    pub fn check_num_method(&mut self, e: &Expr, ns: Symbol, name: Symbol) -> (r: Ty)
        ensures
            final(self).answers(r, old(self).view().check_num_method(*e, ns, name)),
            old(self).view().grows_to(final(self).view()),
        decreases e, 5int,
    {
        match self.num_method(ns, name) {
            Some(NumIntrinsic::FloatPred { ty, .. }) => {
                self.check_num_args(e, &List::single(ty));
                BOOL_TY
            },
            Some(NumIntrinsic::IntArith { ty, family, op }) => {
                let tys = if op == 5 {
                    List::single(ty)
                } else if op == 6 || op == 7 {
                    List::pair(ty, U32_TY)
                } else {
                    List::pair(ty, ty)
                };
                self.check_num_args(e, &tys);
                if family == 2 {
                    self.mk_nullable(ty)
                } else if family == 3 {
                    self.mk_tuple(List::pair(ty, BOOL_TY))
                } else {
                    ty
                }
            },
            _ => ERROR_TY,
        }
    }

    pub fn check_num_args(&mut self, e: &Expr, tys: &List<Ty>)
        ensures
            final(self).stands(old(self).view().check_num_args(*e, *tys)),
            old(self).view().grows_to(final(self).view()),
        decreases e, 4int,
    {
        match &e.kind {
            ExprKind::Call { args, .. } => {
                self.check_arity(tys.len(), args.len(), e.span);
                self.check_zip(args, tys, false);
            },
            _ => {},
        }
    }

    /// `t` has a C layout.
    pub fn is_foreign(&self, t: Ty) -> (r: bool)
        ensures
            r == self.view().is_foreign(t),
    {
        proof {
            reveal(Ck::is_foreign);
        }
        self.is_repr_c(t) || self.is_extern_struct(t)
    }

    /// `*t | null`.
    pub fn mk_nullable_ptr(&mut self, t: Ty) -> (r: Ty)
        ensures
            final(self).answers(r, old(self).view().mk_nullable_ptr(t)),
            old(self).view().grows_to(final(self).view()),
    {
        proof {
            reveal(Ck::mk_nullable_ptr);
        }
        let p = self.mk_ptr(t);
        self.mk_nullable(p)
    }

    /// A raw pointer, nullable or not, is wanted as the first argument.
    pub fn require_pointer(&mut self, t: Ty, method: &'static str, span: Span)
        ensures
            final(self).stands(old(self).view().require_pointer(t, method@, span)),
            old(self).view().grows_to(final(self).view()),
    {
        proof {
            reveal(Ck::require_pointer);
        }
        if !self.is_ptr(t) && !self.is_npo_union(t) {
            let n = self.display(t);
            self.say_text(
                "`Foreign.".to_owned().concat(method).concat("` expects a raw pointer `*T`, got `").concat(
                    n.as_str(),
                ).concat("`"),
                span,
            );
        }
    }

    pub fn foreign_args(&mut self, e: &Expr, n: usize) -> (r: Option<List<Ty>>)
        ensures
            final(self).answers(r, old(self).view().foreign_args(*e, n)),
            old(self).view().grows_to(final(self).view()),
    {
        proof {
            reveal(Ck::foreign_args);
        }
        match &e.kind {
            ExprKind::Call { generics, .. } => if generics.len() == n {
                let env = self.local_env();
                let tys = self.lower_tys(generics, &env);
                Some(tys)
            } else {
                None
            },
            _ => None,
        }
    }

    pub fn check_foreign_builtin(&mut self, e: &Expr, name: Symbol) -> (r: Ty)
        ensures
            final(self).answers(r, old(self).view().check_foreign_builtin(*e, name)),
            old(self).view().grows_to(final(self).view()),
        decreases e, 5int,
    {
        if name == ALLOC || name == ALLOC_ZEROED {
            self.check_foreign_alloc(e, name)
        } else if name == FREE {
            let found = count_args(e, false);
            if found != 1 {
                self.emit_count(1, found, e.span);
                return NULL_TY;
            }
            let at = self.check_first(e, None);
            self.require_pointer(at, "free", first_span(e));
            NULL_TY
        } else if name == REALLOC {
            self.check_foreign_realloc(e)
        } else if name == ALLOC_FLEX {
            self.check_foreign_flex(e)
        } else {
            let n = self.name(name);
            self.say_text(
                "`Foreign` has no method `".to_owned().concat(n.as_str()).concat(
                    "`; expected `alloc`, `alloc_zeroed`, or `free` (`docs/19` §5)",
                ),
                e.span,
            );
            ERROR_TY
        }
    }

    pub fn check_foreign_alloc(&mut self, e: &Expr, name: Symbol) -> (r: Ty)
        ensures
            final(self).answers(r, old(self).view().check_foreign_alloc(*e, name)),
            old(self).view().grows_to(final(self).view()),
    {
        proof {
            reveal(Ck::check_foreign_alloc);
        }
        let n = self.name(name);
        let args = self.foreign_args(e, 1);
        match args {
            Some(List::Cons(t, _)) => {
                self.check_arity(0, count_args(e, false), e.span);
                if self.is_foreign(*t) {
                    self.mk_nullable_ptr(*t)
                } else {
                    let tn = self.display(*t);
                    self.say_text(
                        "`Foreign.".to_owned().concat(n.as_str()).concat(
                            "` requires a C-ABI (`ReprC`) type argument, got `",
                        ).concat(tn.as_str()).concat("` (`docs/19` §5)"),
                        e.span,
                    );
                    ERROR_TY
                }
            },
            _ => {
                self.say_text(
                    "`Foreign.".to_owned().concat(n.as_str()).concat(
                        "` needs exactly one type argument, e.g. `Foreign.",
                    ).concat(n.as_str()).concat("<Pair>()` (`docs/19` §5)"),
                    e.span,
                );
                ERROR_TY
            },
        }
    }

    pub fn check_foreign_realloc(&mut self, e: &Expr) -> (r: Ty)
        ensures
            final(self).answers(r, old(self).view().check_foreign_realloc(*e)),
            old(self).view().grows_to(final(self).view()),
        decreases e, 4int,
    {
        let generics = match &e.kind {
            ExprKind::Call { generics, .. } => generics.len(),
            _ => 0,
        };
        if generics != 1 {
            self.say("`Foreign.realloc` needs one type argument, e.g. `Foreign.realloc<Pair>(p, n)` (`docs/19` §5)", e.span);
            return ERROR_TY;
        }
        let found = count_args(e, false);
        if found != 2 {
            self.emit_count(2, found, e.span);
            return ERROR_TY;
        }
        let args = self.foreign_args(e, 1);
        match args {
            Some(List::Cons(t, _)) => {
                let ptr = self.mk_ptr(*t);
                let pt = self.check_first(e, Some(ptr));
                self.require_pointer(pt, "realloc", first_span(e));
                let st = self.check_second(e, Some(USIZE_TY));
                self.expect(st, USIZE_TY, second_span(e));
                self.mk_nullable(ptr)
            },
            _ => ERROR_TY,
        }
    }

    pub fn require_flex_arg(&mut self, t: Ty, which: &'static str, span: Span)
        ensures
            final(self).stands(old(self).view().require_flex_arg(t, which@, span)),
            old(self).view().grows_to(final(self).view()),
    {
        proof {
            reveal(Ck::require_flex_arg);
        }
        if !self.is_foreign(t) {
            let n = self.display(t);
            self.say_text(
                "`Foreign.alloc_flex` type argument ".to_owned().concat(which).concat(" (`").concat(n.as_str()).concat(
                    "`) must be C-ABI (`ReprC`) (`docs/19` §5)",
                ),
                span,
            );
        }
    }

    pub fn check_foreign_flex(&mut self, e: &Expr) -> (r: Ty)
        ensures
            final(self).answers(r, old(self).view().check_foreign_flex(*e)),
            old(self).view().grows_to(final(self).view()),
        decreases e, 4int,
    {
        let generics = match &e.kind {
            ExprKind::Call { generics, .. } => generics.len(),
            _ => 0,
        };
        if generics != 2 {
            self.say("`Foreign.alloc_flex` needs two type arguments, e.g. `Foreign.alloc_flex<Msg, u8>(n)` (`docs/19` §5)", e.span);
            return ERROR_TY;
        }
        let found = count_args(e, false);
        if found != 1 {
            self.emit_count(1, found, e.span);
            return ERROR_TY;
        }
        let args = self.foreign_args(e, 2);
        let (t, elem) = match args {
            Some(List::Cons(a, rest)) => match *rest {
                List::Cons(b, _) => (*a, *b),
                List::Nil => (*a, ERROR_TY),
            },
            _ => (ERROR_TY, ERROR_TY),
        };
        self.require_flex_arg(t, "1", e.span);
        self.require_flex_arg(elem, "2", e.span);
        let ct = self.check_first(e, Some(USIZE_TY));
        self.expect(ct, USIZE_TY, first_span(e));
        self.set_p_flex(Some(crate::check::Flex { ty: t, elem }));
        self.mk_nullable_ptr(t)
    }
}

} // verus!
