//! Calls: arguments, functions, namespaces and static methods.
use vstd::prelude::*;
use crate::ast::{Expr, ExprKind, ExternItem, Ident, ItemKind, Type};
use crate::check::nodes::{shape_of, Callee};
use crate::check::sigs::Sig;
use crate::check::{contains_attr, Ck, Cx};
use crate::diag::{Problem, SemaErrorKind};
use crate::ids::{DefId, ModId};
use crate::list::{dup, List};
use crate::lower::{find_generic, TypeEnv};
use crate::names::Symbol;
use crate::results::{Builtin, ValueRes};
use crate::solve::{all_solutions, find_solution, solve, Solved};
use crate::span::Span;
use crate::symbols::DefKind;
use crate::text::decimal_text;
use crate::ty::{Ty, TyKind, ERROR_TY, I64_TY, NULL_TY};
use crate::words::{
    BLOCK_ON, CHANNEL, NEW, SLEEP, SPAWN, TIMEOUT, T_FOREIGN, T_FUTURE, T_LIST, T_MAP, T_SHARED, T_TASK, T_THREAD,
    T_VARIADIC, YIELD_NOW,
};

verus! {

broadcast use {crate::check::law_grows_reflexive, crate::check::law_grows_transitive};

/// The number of arguments; a trailing closure is one if `tc` says so.
#[verifier::opaque]
pub open spec fn arg_count(e: Expr, tc: bool) -> usize {
    match e.kind {
        ExprKind::Call { args, trailing_closure, .. } => if tc && trailing_closure is Some {
            args.count().wrapping_add(1)
        } else {
            args.count()
        },
        _ => 0,
    }
}

/// The number of arguments; a trailing closure is one if `tc` says so.
pub fn count_args(e: &Expr, tc: bool) -> (r: usize)
    ensures
        r == arg_count(*e, tc),
{
    proof {
        reveal(arg_count);
    }
    match &e.kind {
        ExprKind::Call { args, trailing_closure, .. } => if tc && trailing_closure.is_some() {
            args.len().wrapping_add(1)
        } else {
            args.len()
        },
        _ => 0,
    }
}

/// Where the first argument stands.
#[verifier::opaque]
pub open spec fn first_arg_span(e: Expr) -> Span {
    match e.kind {
        ExprKind::Call { args, trailing_closure, .. } => match args {
            List::Cons(a, _) => a.span,
            List::Nil => match trailing_closure {
                Some(tc) => tc.span,
                None => e.span,
            },
        },
        _ => e.span,
    }
}

/// Where the first argument stands.
pub fn first_span(e: &Expr) -> (r: Span)
    ensures
        r == first_arg_span(*e),
{
    proof {
        reveal(first_arg_span);
    }
    match &e.kind {
        ExprKind::Call { args, trailing_closure, .. } => match args {
            List::Cons(a, _) => a.span,
            List::Nil => match trailing_closure {
                Some(tc) => tc.span,
                None => e.span,
            },
        },
        _ => e.span,
    }
}

/// Where the second argument stands.
#[verifier::opaque]
pub open spec fn second_arg_span(e: Expr) -> Span {
    match e.kind {
        ExprKind::Call { args, trailing_closure, .. } => match args {
            List::Cons(_, rest) => match *rest {
                List::Cons(b, _) => b.span,
                List::Nil => match trailing_closure {
                    Some(tc) => tc.span,
                    None => e.span,
                },
            },
            List::Nil => e.span,
        },
        _ => e.span,
    }
}

/// Where the second argument stands.
pub fn second_span(e: &Expr) -> (r: Span)
    ensures
        r == second_arg_span(*e),
{
    proof {
        reveal(second_arg_span);
    }
    match &e.kind {
        ExprKind::Call { args, trailing_closure, .. } => match args {
            List::Cons(_, rest) => match &**rest {
                List::Cons(b, _) => b.span,
                List::Nil => match trailing_closure {
                    Some(tc) => tc.span,
                    None => e.span,
                },
            },
            List::Nil => e.span,
        },
        _ => e.span,
    }
}

/// The name behind the dot of a method call.
#[verifier::opaque]
pub open spec fn member_name(e: Expr) -> Ident {
    match e.kind {
        ExprKind::Call { callee, .. } => match callee.kind {
            ExprKind::Field { name, .. } => name,
            _ => Ident { name: 0, span: callee.span },
        },
        _ => Ident { name: 0, span: e.span },
    }
}

/// The name behind the dot of a method call.
pub fn member_of(e: &Expr) -> (r: Ident)
    ensures
        r == member_name(*e),
{
    proof {
        reveal(member_name);
    }
    match &e.kind {
        ExprKind::Call { callee, .. } => match &callee.kind {
            ExprKind::Field { name, .. } => *name,
            _ => Ident { name: 0, span: callee.span },
        },
        _ => Ident { name: 0, span: e.span },
    }
}

#[verifier::opaque]
pub open spec fn callee_span(e: Expr) -> Span {
    match e.kind {
        ExprKind::Call { callee, .. } => callee.span,
        _ => e.span,
    }
}

pub fn span_of_callee(e: &Expr) -> (r: Span)
    ensures
        r == callee_span(*e),
{
    proof {
        reveal(callee_span);
    }
    match &e.kind {
        ExprKind::Call { callee, .. } => callee.span,
        _ => e.span,
    }
}

/// The arguments of a call that stand in its brackets.
#[verifier::opaque]
pub open spec fn call_args(e: Expr) -> Option<List<Expr>> {
    match e.kind {
        ExprKind::Call { args, .. } => Some(args),
        _ => None,
    }
}

pub proof fn lemma_call_args(e: Expr)
    ensures
        call_args(e) matches Some(args) ==> decreases_to!(e => args),
{
    reveal(call_args);
}

/// The arguments of a call that stand in its brackets.
pub fn args_in(e: &Expr) -> (r: Option<&List<Expr>>)
    ensures
        match r {
            Some(args) => call_args(*e) == Some(*args) && decreases_to!(*e => *args),
            None => call_args(*e) is None,
        },
{
    proof {
        reveal(call_args);
    }
    match &e.kind {
        ExprKind::Call { args, .. } => Some(args),
        _ => None,
    }
}

/// The trailing closure of a call.
#[verifier::opaque]
pub open spec fn call_closure(e: Expr) -> Option<Expr> {
    match e.kind {
        ExprKind::Call { trailing_closure, .. } => match trailing_closure {
            Some(c) => Some(*c),
            None => None,
        },
        _ => None,
    }
}

pub proof fn lemma_call_closure(e: Expr)
    ensures
        call_closure(e) matches Some(c) ==> decreases_to!(e => c),
{
    reveal(call_closure);
}

/// The trailing closure of a call.
pub fn closure_in(e: &Expr) -> (r: Option<&Expr>)
    ensures
        match r {
            Some(c) => call_closure(*e) == Some(*c) && decreases_to!(*e => *c),
            None => call_closure(*e) is None,
        },
{
    proof {
        reveal(call_closure);
    }
    match &e.kind {
        ExprKind::Call { trailing_closure, .. } => match trailing_closure {
            Some(c) => Some(&**c),
            None => None,
        },
        _ => None,
    }
}

/// The first argument of a call, a trailing closure being the last one.
#[verifier::opaque]
pub open spec fn first_arg(e: Expr) -> Option<Expr> {
    match e.kind {
        ExprKind::Call { args, trailing_closure, .. } => match args {
            List::Cons(a, _) => Some(*a),
            List::Nil => match trailing_closure {
                Some(c) => Some(*c),
                None => None,
            },
        },
        _ => None,
    }
}

pub proof fn lemma_first_arg(e: Expr)
    ensures
        first_arg(e) matches Some(a) ==> decreases_to!(e => a),
{
    reveal(first_arg);
}

/// The first argument of a call, a trailing closure being the last one.
pub fn first_in(e: &Expr) -> (r: Option<&Expr>)
    ensures
        match r {
            Some(a) => first_arg(*e) == Some(*a) && decreases_to!(*e => *a),
            None => first_arg(*e) is None,
        },
{
    proof {
        reveal(first_arg);
    }
    match &e.kind {
        ExprKind::Call { args, trailing_closure, .. } => match args {
            List::Cons(a, _) => Some(&**a),
            List::Nil => match trailing_closure {
                Some(c) => Some(&**c),
                None => None,
            },
        },
        _ => None,
    }
}

/// The second argument of a call, a trailing closure being the last one.
#[verifier::opaque]
pub open spec fn second_arg(e: Expr) -> Option<Expr> {
    match e.kind {
        ExprKind::Call { args, trailing_closure, .. } => match args {
            List::Cons(_, rest) => match *rest {
                List::Cons(b, _) => Some(*b),
                List::Nil => match trailing_closure {
                    Some(c) => Some(*c),
                    None => None,
                },
            },
            List::Nil => None,
        },
        _ => None,
    }
}

pub proof fn lemma_second_arg(e: Expr)
    ensures
        second_arg(e) matches Some(b) ==> decreases_to!(e => b),
{
    reveal(second_arg);
}

/// The second argument of a call, a trailing closure being the last one.
pub fn second_in(e: &Expr) -> (r: Option<&Expr>)
    ensures
        match r {
            Some(b) => second_arg(*e) == Some(*b) && decreases_to!(*e => *b),
            None => second_arg(*e) is None,
        },
{
    proof {
        reveal(second_arg);
    }
    match &e.kind {
        ExprKind::Call { args, trailing_closure, .. } => match args {
            List::Cons(_, rest) => match &**rest {
                List::Cons(b, _) => Some(&**b),
                List::Nil => match trailing_closure {
                    Some(c) => Some(&**c),
                    None => None,
                },
            },
            List::Nil => None,
        },
        _ => None,
    }
}

impl Ck {
    /// Checks each of `l` for itself: there is no type to check it against.
    pub open spec fn check_each(self, l: List<Expr>) -> Ck
        decreases l, 2int,
    {
        self.check_zip(l, List::Nil, true).0
    }

    /// Checks the arguments of a call that stand in its brackets.
    pub open spec fn check_listed(self, e: Expr) -> Ck
        decreases e, 0int,
    {
        match call_args(e) {
            Some(args) => {
                proof {
                    lemma_call_args(e);
                }
                self.check_zip(args, List::Nil, true).0
            },
            None => self,
        }
    }

    /// Checks the trailing closure of a call.
    pub open spec fn check_trailing(self, e: Expr) -> Ck
        decreases e, 0int,
    {
        match call_closure(e) {
            Some(c) => {
                proof {
                    lemma_call_closure(e);
                }
                self.check_expr(c, None).0
            },
            None => self,
        }
    }

    /// Checks the arguments of a call for themselves, with the trailing closure
    /// if `tc` says so.
    pub open spec fn check_all(self, e: Expr, tc: bool) -> Ck
        decreases e, 1int,
    {
        let s1 = self.check_listed(e);
        if tc {
            let s2 = s1.check_trailing(e);
            s2
        } else {
            s1
        }
    }

    /// Checks arguments against parameter types, and those beyond for themselves
    /// if `extra` says so; the parameter types that are left.
    pub open spec fn check_zip(self, l: List<Expr>, tys: List<Ty>, extra: bool) -> (Ck, List<Ty>)
        decreases l, 1int,
    {
        match l {
            List::Nil => (self, tys),
            List::Cons(a, t) => match tys {
                List::Cons(ty, tt) => {
                    let (s1, at) = self.check_expr(*a, Some(*ty));
                    let s2 = s1.expect(at, *ty, a.span);
                    s2.check_zip(*t, *tt, extra)
                },
                List::Nil => {
                    let s3 = if extra {
                        let s4 = self.check_expr(*a, None).0;
                        s4
                    } else {
                        self
                    };
                    s3.check_zip(*t, tys, extra)
                },
            },
        }
    }

    /// Checks the arguments in the brackets of a call against parameter types;
    /// the parameter types that are left.
    pub open spec fn check_listed_against(self, e: Expr, tys: List<Ty>, extra: bool) -> (Ck, List<Ty>)
        decreases e, 0int,
    {
        match call_args(e) {
            Some(args) => {
                proof {
                    lemma_call_args(e);
                }
                self.check_zip(args, tys, extra)
            },
            None => (self, tys),
        }
    }

    /// Checks the trailing closure of a call against the first of `left`.
    pub open spec fn check_trailing_against(self, e: Expr, left: List<Ty>, extra: bool) -> Ck
        decreases e, 0int,
    {
        match call_closure(e) {
            Some(c) => {
                proof {
                    lemma_call_closure(e);
                }
                match left {
                    List::Cons(ty, _) => {
                        let (s1, t) = self.check_expr(c, Some(*ty));
                        s1.expect(t, *ty, c.span)
                    },
                    List::Nil => if extra {
                        self.check_expr(c, None).0
                    } else {
                        self
                    },
                }
            },
            None => self,
        }
    }

    /// Checks the arguments of a call, a trailing closure being the last one.
    pub open spec fn check_against(self, e: Expr, tys: List<Ty>, extra: bool) -> Ck
        decreases e, 1int,
    {
        let (s1, left) = self.check_listed_against(e, tys, extra);
        let s2 = s1.check_trailing_against(e, left, extra);
        s2
    }

    /// The call has exactly the parameters `tys`.
    pub open spec fn check_fixed(self, e: Expr, tys: List<Ty>) -> Ck
        decreases e, 2int,
    {
        let s1 = self.check_arity(tys.count(), arg_count(e, true), e.span);
        let s2 = s1.check_against(e, tys, false);
        s2
    }

    /// Checks arguments for themselves and unifies the parameter types with what
    /// they are; the parameter types that are left, and what is solved.
    pub open spec fn infer_zip(
        self,
        l: List<Expr>,
        tys: List<Ty>,
        extra: bool,
        m: List<Solved>,
    ) -> (Ck, (List<Ty>, List<Solved>))
        decreases l, 1int,
    {
        match l {
            List::Nil => (self, (tys, m)),
            List::Cons(a, t) => match tys {
                List::Cons(ty, tt) => {
                    let (s1, at) = self.check_expr(*a, None);
                    s1.infer_zip(*t, *tt, extra, s1.unify(*ty, at, m))
                },
                List::Nil => {
                    let s2 = if extra {
                        let s3 = self.check_expr(*a, None).0;
                        s3
                    } else {
                        self
                    };
                    s2.infer_zip(*t, tys, extra, m)
                },
            },
        }
    }

    /// What the arguments of a call say of the generics in `tys`.
    pub open spec fn infer_call(self, e: Expr, tys: List<Ty>, start: List<Solved>) -> (Ck, List<Solved>)
        decreases e, 1int,
    {
        match e.kind {
            ExprKind::Call { args, trailing_closure, .. } => {
                let (s1, (left, m)) = self.infer_zip(args, tys, true, start);
                match trailing_closure {
                    Some(c) => {
                        let (s2, t) = s1.check_expr(*c, None);
                        (s2, match left {
                            List::Cons(ty, _) => s2.unify(*ty, t, m),
                            List::Nil => m,
                        })
                    },
                    None => (s1, m),
                }
            },
            _ => (self, start),
        }
    }

    /// The checked arguments of a call have the types `tys` with `m` put in.
    #[verifier::opaque]
    pub open spec fn expect_call(self, e: Expr, tys: List<Ty>, m: List<Solved>) -> Ck {
        match e.kind {
            ExprKind::Call { args, trailing_closure, .. } => {
                let (s1, left) = self.expect_args(args, tys, m);
                match (trailing_closure, left) {
                    (Some(c), List::Cons(ty, _)) => {
                        let (s2, want) = s1.subst(*ty, m);
                        let s3 = s2.expect(s2.ty_at(c.span), want, c.span);
                        s3
                    },
                    _ => s1,
                }
            },
            _ => self,
        }
    }

    /// Checks the first argument against `want`.
    pub open spec fn check_first(self, e: Expr, want: Option<Ty>) -> (Ck, Ty)
        decreases e, 1int,
    {
        match first_arg(e) {
            Some(a) => {
                proof {
                    lemma_first_arg(e);
                }
                self.check_expr(a, want)
            },
            None => (self, ERROR_TY),
        }
    }

    /// Checks the second argument against `want`.
    pub open spec fn check_second(self, e: Expr, want: Option<Ty>) -> (Ck, Ty)
        decreases e, 1int,
    {
        match second_arg(e) {
            Some(b) => {
                proof {
                    lemma_second_arg(e);
                }
                self.check_expr(b, want)
            },
            None => (self, ERROR_TY),
        }
    }

    /// `name` is a toolchain function that no local hides.
    #[verifier::opaque]
    pub open spec fn intr_fn(self, name: Symbol) -> bool {
        self.lookup(name) is None && match self.p.value_named(self.cur_module, name) {
            Some(d) => { self.p.is_toolchain(d) },
            None => { false },
        }
    }

    /// `name` is a toolchain namespace that no local hides.
    #[verifier::opaque]
    pub open spec fn intr_ns(self, name: Symbol) -> bool {
        self.lookup(name) is None && match self.p.type_named(self.cur_module, name) {
            Some(d) => { self.p.is_toolchain(d) },
            None => { false },
        }
    }

    /// A call. Afterwards no argument may have carried a reference out of a held
    /// lock.
    pub open spec fn check_call(self, e: Expr) -> (Ck, Ty)
        decreases e, 10int,
    {
        let (s1, ty) = self.check_call_inner(e);
        let s2 = match e.kind {
            ExprKind::Call { callee, args, trailing_closure, .. } => {
                let s3 = s1.check_passed(*callee, args);
                match trailing_closure {
                    Some(c) => s3.check_handed(*callee, *c),
                    None => s3,
                }
            },
            _ => s1,
        };
        (s2, ty)
    }

    pub open spec fn check_call_inner(self, e: Expr) -> (Ck, Ty)
        decreases e, 9int,
    {
        match e.kind {
            ExprKind::Call { callee, .. } => {
                let callee = *callee;
                let (s1, ctor) = self.try_builtin_ctor(e);
                match ctor {
                    Some(t) => (s1, t),
                    None => match crate::check::nodes::callee_shape(callee) {
                        Callee::Name(n) => s1.check_named_call(e, n),
                        Callee::Member { recv, name } => match recv {
                            Some(r) => s1.check_member_call(e, r, name),
                            None => s1.check_method_call(e),
                        },
                        Callee::Other => s1.check_value_call(e),
                    },
                }
            },
            _ => (self, ERROR_TY),
        }
    }

    /// `List<T>()`, `List.new<T>()`, `Map<K, V>()` and `Map.new<K, V>()` make an
    /// empty collection.
    pub open spec fn try_builtin_ctor(self, e: Expr) -> (Ck, Option<Ty>)
        decreases e, 6int,
    {
        match e.kind {
            ExprKind::Call { callee, generics, .. } => {
                let (callee, generics) = (*callee, generics);
                let tyname = match crate::check::nodes::callee_shape(callee) {
                    Callee::Name(n) => Some(n),
                    Callee::Member { recv, name } => if name == NEW {
                        recv
                    } else {
                        None
                    },
                    Callee::Other => None,
                };
                let found = match tyname {
                    Some(n) => self.p.type_named(self.cur_module, n),
                    None => None,
                };
                match found {
                    Some(d) => {
                        let def = d;
                        let is_map = def == self.p.well_known(T_MAP);
                        if !is_map && def != self.p.well_known(T_LIST) {
                            (self, None)
                        } else {
                            let (s1, t) = self.collection_ctor(e, generics, def, is_map);
                            (s1, Some(t))
                        }
                    },
                    None => (self, None),
                }
            },
            _ => (self, None),
        }
    }

    pub open spec fn collection_ctor(self, e: Expr, generics: List<Type>, def: DefId, is_map: bool) -> (Ck, Ty)
        decreases e, 5int,
    {
        if is_map && generics.count() != 2 {
            let s1 = self.say("`Map` constructor needs 2 explicit type argument(s)"@, e.span);
            (s1, ERROR_TY)
        } else {
            if !is_map && generics.count() != 1 {
                let s2 = self.say("`List` constructor needs 1 explicit type argument(s)"@, e.span);
                (s2, ERROR_TY)
            } else {
                let env = self.env();
                let (s3, tys) = self.lower_list(generics, env);
                let found = arg_count(e, false);
                let s4 = if found != 0 {
                    let s5 = s3.fail(Problem::ArgCount { expected: 0, found }, e.span);
                    let s6 = s5.check_all(e, false);
                    s6
                } else {
                    s3
                };
                let s7 = if is_map {
                    match tys {
                        List::Cons(kt, _) => s4.require_map_key(*kt, e.span),
                        List::Nil => s4,
                    }
                } else {
                    s4
                };
                s7.mk_named(def, tys)
            }
        }
    }

    /// What a call `name(..)` is: of a local it is a call of its value, else of a
    /// builtin function, a toolchain intrinsic, a struct's constructor, a generic
    /// function, or any other value.
    #[verifier::opaque]
    pub open spec fn named_plan(self, name: Symbol) -> NamedPlan {
        if self.lookup(name) is Some {
            NamedPlan::Value
        } else {
            let value = self.p.value_named(self.cur_module, name);
            let builtin = match value {
                Some(d) => self.p.builtin_for(d),
                None => None,
            };
            let generic = match value {
                Some(d) => if self.is_generic_fn(d) {
                    NamedPlan::Generic(d)
                } else {
                    NamedPlan::Value
                },
                None => NamedPlan::Value,
            };
            match builtin {
                Some(b) => NamedPlan::Builtin(b),
                None => if self.intr_fn(name) && (
                    name == CHANNEL || name == YIELD_NOW || name == SLEEP || name == TIMEOUT || name == BLOCK_ON
                ) {
                    NamedPlan::Intrinsic
                } else {
                    match self.p.type_named(self.cur_module, name) {
                        Some(d) => if self.p.def_of(d).kind == DefKind::Struct
                            || self.p.def_of(d).kind == DefKind::ExternStruct {
                            NamedPlan::Struct(d)
                        } else {
                            generic
                        },
                        None => generic,
                    }
                },
            }
        }
    }

    pub open spec fn check_named_call(self, e: Expr, name: Symbol) -> (Ck, Ty)
        decreases e, 7int,
    {
        match self.named_plan(name) {
            NamedPlan::Builtin(b) => {
                let (s1, t) = self.builtin_ty(b);
                let s2 = s1.record_res(callee_span(e), ValueRes::Builtin(b), t);
                s2.check_args_against(e, t, None)
            },
            NamedPlan::Intrinsic => self.check_intrinsic_call(e, name),
            NamedPlan::Struct(d) => self.check_tuple_ctor(e, d),
            NamedPlan::Generic(d) => self.check_generic_call(e, d),
            NamedPlan::Value => self.check_value_call(e),
        }
    }

    #[verifier::opaque]
    pub open spec fn is_generic_fn(self, d: DefId) -> bool {
        let def = self.p.def_of(d);
        (def.kind == DefKind::Function || def.kind == DefKind::ExternFunction) && !(def.generics is Nil)
    }

    /// A call of whatever value the callee is.
    pub open spec fn check_value_call(self, e: Expr) -> (Ck, Ty)
        decreases e, 4int,
    {
        match e.kind {
            ExprKind::Call { callee, .. } => {
                let callee = *callee;
                let (s1, cty) = self.check_expr(callee, None);
                if s1.is_err(cty) {
                    (s1, ERROR_TY)
                } else {
                    let def = match s1.resolution(callee.span) {
                        Some(ValueRes::Function(d)) => Some(d),
                        _ => None,
                    };
                    s1.check_args_against(e, cty, def)
                }
            },
            _ => (self, ERROR_TY),
        }
    }

    /// `d` is a C function that takes any number of further arguments.
    #[verifier::opaque]
    pub open spec fn is_variadic(self, d: Option<DefId>) -> bool {
        match d {
            Some(x) => self.p.def_of(x).kind == DefKind::ExternFunction && crate::check::has_attr(
                self.p.def_of(x).attrs,
                T_VARIADIC,
            ),
            None => false,
        }
    }

    /// Checks the arguments of a call of a value of type `callee_ty`, which is the
    /// function `def` if it is known.
    pub open spec fn check_args_against(self, e: Expr, callee_ty: Ty, def: Option<DefId>) -> (Ck, Ty)
        decreases e, 3int,
    {
        match self.kind(callee_ty) {
            TyKind::Func { params, ret, .. } => {
                let found = arg_count(e, true);
                let fixed = params.count();
                let s1 = if self.is_variadic(def) {
                    let s2 = if found < fixed {
                        let s3 = self.fail(Problem::ArgCount { expected: fixed, found }, e.span);
                        s3
                    } else {
                        self
                    };
                    let s4 = s2.check_against(e, params, true);
                    let s5 = s4.require_variadics(e, params);
                    s5
                } else {
                    let s6 = self.check_arity(fixed, found, e.span);
                    let s7 = s6.check_against(e, params, true);
                    s7
                };
                (s1, ret)
            },
            _ => {
                let found = self.show(callee_ty);
                let s8 = self.fail(Problem::NotCallable { found }, e.span);
                (s8, ERROR_TY)
            },
        }
    }

    #[verifier::opaque]
    pub open spec fn require_variadics(self, e: Expr, params: List<Ty>) -> Ck {
        match e.kind {
            ExprKind::Call { args, .. } => self.require_beyond(args, params),
            _ => self,
        }
    }

    /// The arguments beyond the fixed ones can be passed to C.
    #[verifier::opaque]
    pub open spec fn require_beyond(self, args: List<Expr>, params: List<Ty>) -> Ck
        decreases args,
    {
        match args {
            List::Nil => self,
            List::Cons(a, t) => match params {
                List::Cons(_, pt) => self.require_beyond(*t, *pt),
                List::Nil => {
                    let s1 = self.require_variadic(self.ty_at(a.span), a.span);
                    let s2 = s1.require_beyond(*t, params);
                    s2
                },
            },
        }
    }

    /// What a call `ns.name(..)` is where `ns` is a plain name: of a toolchain
    /// namespace, a numeric type, an imported module, a type, or a value.
    #[verifier::opaque]
    pub open spec fn member_plan(self, ns: Symbol, name: Symbol) -> MemberPlan {
        if self.lookup(ns) is Some {
            MemberPlan::Method
        } else {
            if ns == T_SHARED && name == NEW && self.intr_ns(ns) {
                MemberPlan::SharedNew
            } else {
                if ns == T_FOREIGN && self.intr_ns(ns) {
                    MemberPlan::Foreign
                } else {
                    if self.num_method(ns, name) is Some {
                        MemberPlan::Num
                    } else {
                        match self.p.namespace(self.cur_module, ns) {
                            Some(target) => MemberPlan::Namespace(target),
                            None => if name == SPAWN && (ns == T_THREAD || ns == T_TASK) && self.intr_ns(ns) {
                                MemberPlan::Spawn
                            } else {
                                match self.static_receiver(ns) {
                                    Some(StaticRecv::Param(def, ty)) => MemberPlan::Bound(def, ty),
                                    Some(StaticRecv::Type(def)) => MemberPlan::Type(def),
                                    None => MemberPlan::Method,
                                }
                            },
                        }
                    }
                }
            }
        }
    }

    pub open spec fn check_member_call(self, e: Expr, ns: Symbol, name: Symbol) -> (Ck, Ty)
        decreases e, 8int,
    {
        match self.member_plan(ns, name) {
            MemberPlan::Namespace(target) => self.check_namespaced_call(e, target, ns),
            MemberPlan::Bound(def, ty) => self.check_bound_static_call(e, def, ty),
            MemberPlan::Type(def) => self.check_type_static_call(e, def),
            MemberPlan::Method => self.check_method_call(e),
            plan => self.check_toolchain_call(e, plan, ns, name),
        }
    }

    pub open spec fn check_toolchain_call(self, e: Expr, plan: MemberPlan, ns: Symbol, name: Symbol) -> (Ck, Ty)
        decreases e, 7int,
    {
        match plan {
            MemberPlan::SharedNew => self.check_shared_new(e),
            MemberPlan::Foreign => self.check_foreign_builtin(e, name),
            MemberPlan::Num => self.check_num_method(e, ns, name),
            MemberPlan::Spawn => self.check_spawn_call(e, ns),
            _ => (self, ERROR_TY),
        }
    }

    /// What a name that no local hides stands for before a dot: a type parameter
    /// or a struct.
    #[verifier::opaque]
    pub open spec fn static_receiver(self, name: Symbol) -> Option<StaticRecv> {
        let param = match crate::lower::generic_ty(self.cur_generics, name) {
            Some(t) => match self.kind(t) {
                TyKind::Param(d) => Some(StaticRecv::Param(d, t)),
                _ => None,
            },
            None => None,
        };
        match (param, self.p.type_named(self.cur_module, name)) {
            (Some(p), _) => Some(p),
            (None, Some(d)) => if self.p.def_of(d).kind == DefKind::Struct
                || self.p.def_of(d).kind == DefKind::ExternStruct {
                Some(StaticRecv::Type(d))
            } else {
                None
            },
            (None, None) => None,
        }
    }

    /// `M.foo(..)` where `M` is an imported module.
    pub open spec fn check_namespaced_call(self, e: Expr, target: ModId, alias: Symbol) -> (Ck, Ty)
        decreases e, 5int,
    {
        let name = member_name(e);
        match self.p.pub_value_named(target, name.name) {
            Some(d) => {
                let def = d;
                if self.is_generic_fn(def) {
                    self.check_generic_call(e, def)
                } else {
                    let s1 = self.record_res(callee_span(e), self.value_res(def), ERROR_TY);
                    let (s2, cty) = s1.value_def_ty(def);
                    s2.check_args_against(e, cty, Some(def))
                }
            },
            None => {
                let n = self.name(name.name);
                let a = self.name(alias);
                let s3 = self.say("no public value `"@ + n + "` in module `"@ + a + "`"@, name.span);
                (s3, ERROR_TY)
            },
        }
    }

    /// `m` with each of `gens` standing for the written type in its place.
    #[verifier::opaque]
    pub open spec fn explicit_args(
        self,
        gens: List<DefId>,
        tys: List<Type>,
        env: TypeEnv,
        m: List<Solved>,
    ) -> (Ck, List<Solved>)
        decreases gens,
    {
        match gens {
            List::Nil => (self, m),
            List::Cons(g, gt) => match tys {
                List::Nil => (self, m),
                List::Cons(x, xt) => {
                    let (s1, ty) = self.lower(*x, env);
                    s1.explicit_args(*gt, *xt, env, crate::solve::solved(m, *g, ty))
                },
            },
        }
    }

    /// The generics of `def` as far as the call writes them out.
    #[verifier::opaque]
    pub open spec fn written_args(self, e: Expr, def: DefId, start: List<Solved>) -> (Ck, List<Solved>) {
        match e.kind {
            ExprKind::Call { generics, .. } => {
                let env = self.env();
                self.explicit_args(self.p.def_of(def).generics, generics, env, start)
            },
            _ => (self, start),
        }
    }

    /// The parameter types of a function.
    #[verifier::opaque]
    pub open spec fn fn_params(self, def: DefId, env: TypeEnv, m: List<Solved>) -> (Ck, List<Ty>) {
        match self.p.def_of(def).item {
            Some(ItemKind::Function(f)) | Some(
                ItemKind::Extern(ExternItem::Function(f)),
            ) => self.lower_params(f.params, env, m),
            _ => (self, List::Nil),
        }
    }

    /// The result type of a function.
    #[verifier::opaque]
    pub open spec fn fn_ret(self, def: DefId, env: TypeEnv, m: List<Solved>) -> (Ck, Ty) {
        match self.p.def_of(def).item {
            Some(ItemKind::Function(f)) | Some(
                ItemKind::Extern(ExternItem::Function(f)),
            ) => self.lower_ret(f.return_type, env, m),
            _ => (self, ERROR_TY),
        }
    }

    #[verifier::opaque]
    pub open spec fn generic_target(self, e: Expr, def: DefId) -> (Ck, Target) {
        let s1 = self.record_res(callee_span(e), ValueRes::Function(def), ERROR_TY);
        let (s2, env) = s1.def_env(def, None);
        let (s3, tys) = s2.fn_params(def, env, List::Nil);
        (s3, Target { method: def, env, tys, given: List::Nil })
    }

    /// What the generics of a called function stand for: what is written out, else
    /// what the arguments say.
    pub open spec fn generic_args(self, e: Expr, def: DefId, tys: List<Ty>) -> (Ck, List<Solved>)
        decreases e, 3int,
    {
        match e.kind {
            ExprKind::Call { args, generics, .. } => if generics is Nil {
                let (s1, (left, found)) = self.infer_zip(args, tys, true, List::Nil);
                (s1, found)
            } else {
                let (s2, given) = self.written_args(e, def, List::Nil);
                let s3 = s2.check_each(args);
                (s3, given)
            },
            _ => (self, List::Nil),
        }
    }

    #[verifier::opaque]
    pub open spec fn finish_generic(self, e: Expr, target: Target, m: List<Solved>) -> (Ck, Ty) {
        let d = self.p.def_of(target.method);
        let s1 = self.check_arity(target.tys.count(), arg_count(e, false), e.span);
        let targs = crate::solve::solutions(m, d.generics, ERROR_TY);
        let s2 = s1.check_bounds(d.generics, targs, e.span);
        let s3 = match e.kind {
            ExprKind::Call { args, .. } => {
                let s4 = s2.expect_args(args, target.tys, m).0;
                s4
            },
            _ => s2,
        };
        let (s5, ret) = s3.fn_ret(target.method, target.env, m);
        let s6 = Ck { p_targs: Some(targs), ..s5 };
        (s6, ret)
    }

    /// A call of a generic function: its type arguments are written out, or what
    /// the arguments say, and must satisfy their bounds.
    pub open spec fn check_generic_call(self, e: Expr, def: DefId) -> (Ck, Ty)
        decreases e, 4int,
    {
        let (s1, target) = self.generic_target(e, def);
        let (s2, m) = s1.generic_args(e, def, target.tys);
        s2.finish_generic(e, target, m)
    }

    #[verifier::opaque]
    pub open spec fn no_bound_static(self, e: Expr, ty: Ty) -> (Ck, Ty) {
        let name = member_name(e);
        let n = self.name(name.name);
        let t = self.show(ty);
        let s1 = self.say(
            "no static method `"@ + n + "` on type parameter `"@ + t + "` through its bounds"@,
            name.span,
        );
        (s1, ERROR_TY)
    }

    /// The signature of a static method that a bound of a type parameter gives.
    #[verifier::opaque]
    pub open spec fn bound_static_sig(self, e: Expr, param: DefId, ty: Ty) -> (Ck, Option<Sig>) {
        let name = member_name(e);
        let (s1, found) = self.resolve_bound_method(param, name.name);
        match found {
            Some(b) => {
                let s2 = if !s1.p.def_of(b.method).is_static {
                    let n = s1.name(name.name);
                    let s3 = s1.say(
                        "`"@ + n + "` is an instance method; call it on a value, not on the type"@,
                        name.span,
                    );
                    s3
                } else {
                    s1
                };
                let s4 = s2.record_res(callee_span(e), ValueRes::Method(b.method), ERROR_TY);
                let (s5, sig) = s4.iface_method_sig(b.method, b.iface, b.iargs, ty);
                (s5, Some(sig))
            },
            None => (s1, None),
        }
    }

    /// `T.method(..)` on a type parameter: a static method of one of its bounds.
    pub open spec fn check_bound_static_call(self, e: Expr, param: DefId, ty: Ty) -> (Ck, Ty)
        decreases e, 5int,
    {
        let (s1, found) = self.bound_static_sig(e, param, ty);
        match found {
            Some(sig) => {
                let s2 = s1.check_fixed(e, sig.params);
                let s3 = Ck { p_static: Some(ty), ..s2 };
                (s3, sig.ret)
            },
            None => {
                let s4 = s1.check_all(e, true);
                s4.no_bound_static(e, ty)
            },
        }
    }

    /// `m` with an entry for each of `gens` that has none, which is reported.
    #[verifier::opaque]
    pub open spec fn solve_missing(
        self,
        gens: List<DefId>,
        m: List<Solved>,
        owner: Symbol,
        span: Span,
    ) -> (Ck, List<Solved>)
        decreases gens,
    {
        match gens {
            List::Nil => (self, m),
            List::Cons(g, t) => if crate::solve::solution(m, *g) is Some {
                self.solve_missing(*t, m, owner, span)
            } else {
                let s1 = self.report_unsolved(*g, owner, span);
                s1.solve_missing(*t, crate::solve::solved(m, *g, ERROR_TY), owner, span)
            },
        }
    }

    /// `m` with what it says itself put into each of the entries `l`, the oldest
    /// first.
    #[verifier::opaque]
    pub open spec fn settled(self, l: List<Solved>, m: List<Solved>) -> (Ck, List<Solved>)
        decreases l,
    {
        match l {
            List::Nil => (self, m),
            List::Cons(h, t) => {
                let (s1, older) = self.settled(*t, m);
                let now = match crate::solve::solution(older, h.param) {
                    Some(x) => x,
                    None => h.ty,
                };
                let (s2, ty) = s1.subst(now, older);
                (s2, crate::solve::solved(older, h.param, ty))
            },
        }
    }

    /// `m` settled once for each of `rounds`.
    #[verifier::opaque]
    pub open spec fn settled_often(self, rounds: List<DefId>, m: List<Solved>) -> (Ck, List<Solved>)
        decreases rounds,
    {
        match rounds {
            List::Nil => (self, m),
            List::Cons(_, t) => {
                let entries = m;
                let (s1, next) = self.settled(entries, m);
                s1.settled_often(*t, next)
            },
        }
    }

    /// Chains of generics (of the method's block, of the struct) are short: a few
    /// rounds reach what they stand for.
    #[verifier::opaque]
    pub open spec fn resolve_chain(self, gens: List<DefId>, m: List<Solved>) -> (Ck, List<Solved>) {
        let entries = m;
        let (s1, once) = self.settled(entries, m);
        let entries2 = once;
        let (s2, twice) = s1.settled(entries2, once);
        s2.settled_often(gens, twice)
    }

    #[verifier::opaque]
    pub open spec fn no_static_method(self, e: Expr, def: DefId) -> (Ck, Ty) {
        let name = member_name(e);
        let tn = self.name(self.p.def_of(def).name);
        let n = self.name(name.name);
        let s1 = self.say("type `"@ + tn + "` has no static method `"@ + n + "`"@, name.span);
        (s1, ERROR_TY)
    }

    /// The static method that a call names, with its parameter types in terms of
    /// the struct's generics.
    #[verifier::opaque]
    pub open spec fn static_target(self, e: Expr, def: DefId) -> (Ck, Option<Target>) {
        let name = member_name(e);
        let (s1, params) = self.param_tys(self.p.def_of(def).generics);
        let (s2, recv) = s1.mk_named(def, params);
        let (s3, found) = s2.resolve_method(recv, name.name);
        match found {
            Some(f) => {
                let s4 = if !s3.p.def_of(f.method).is_static {
                    let tn = s3.name(s3.p.def_of(def).name);
                    let n = s3.name(name.name);
                    let s5 = s3.say(
                        "`"@ + n + "` is an instance method on `"@ + tn + "`; call it on a value"@,
                        name.span,
                    );
                    s5
                } else {
                    s3
                };
                let s6 = s4.record_res(callee_span(e), ValueRes::Method(f.method), ERROR_TY);
                let (s7, given) = s6.written_args(e, f.method, f.solved);
                let (s8, (env, self_ty)) = s7.fn_env(f.method);
                let (s9, tys) = s8.fn_params(f.method, env, given);
                (s9, Some(Target { method: f.method, env, tys, given }))
            },
            None => (s3, None),
        }
    }

    /// Concludes a static call in which the arguments have solved `inferred`.
    #[verifier::opaque]
    pub open spec fn finish_static(self, e: Expr, def: DefId, target: Target, inferred: List<Solved>) -> (Ck, Ty) {
        let gens = self.p.def_of(def).generics;
        let md = self.p.def_of(target.method);
        let recv_args = crate::solve::solutions(inferred, gens, ERROR_TY);
        let (s1, recv) = self.mk_named(def, recv_args);
        let (s2, complete) = s1.solve_missing(gens, inferred, s1.p.def_of(def).name, e.span);
        let (s3, m) = s2.resolve_chain(gens, complete);
        let (s4, tys) = s3.subst_all(target.tys, m);
        let s5 = s4.check_arity(tys.count(), arg_count(e, true), e.span);
        let s6 = s5.expect_call(e, tys, List::Nil);
        let ext_gens = match md.parent {
            Some(p) => s6.p.def_of(p).generics,
            None => List::Nil,
        };
        let (s7, of_block) = s6.subst_all(crate::solve::solutions(m, ext_gens, ERROR_TY), m);
        let targs = of_block.then_list(crate::solve::solutions(m, md.generics, ERROR_TY));
        let s8 = s7.check_bounds(ext_gens.then_list(md.generics), targs, e.span);
        let (s9, ret) = s8.fn_ret(target.method, target.env, m);
        let s10 = Ck { p_static: Some(recv), ..s9 };
        let s11 = Ck { p_targs: if targs is Nil { None } else { Some(targs) }, ..s10 };
        (s11, ret)
    }

    /// `Type.method(..)`: a static method of an `extend` block; the struct's
    /// generics are what the arguments say.
    pub open spec fn check_type_static_call(self, e: Expr, def: DefId) -> (Ck, Ty)
        decreases e, 5int,
    {
        let (s1, found) = self.static_target(e, def);
        match found {
            Some(target) => {
                let (s2, m) = s1.infer_call(e, target.tys, target.given);
                s2.finish_static(e, def, target, m)
            },
            None => {
                let s3 = s1.check_all(e, true);
                s3.no_static_method(e, def)
            },
        }
    }
}

impl<'a> Cx<'a> {
    /// Checks each of `l` for itself: there is no type to check it against.
    pub fn check_each(&mut self, l: &List<Expr>)
        ensures
            final(self).stands(old(self).view().check_each(*l)),
            old(self).view().grows_to(final(self).view()),
        decreases l, 2int,
    {
        self.check_zip(l, &List::Nil, true);
    }

    /// Checks the arguments of a call that stand in its brackets.
    pub fn check_listed(&mut self, e: &Expr)
        ensures
            final(self).stands(old(self).view().check_listed(*e)),
            old(self).view().grows_to(final(self).view()),
        decreases e, 0int,
    {
        match args_in(e) {
            Some(args) => {
                self.check_zip(args, &List::Nil, true);
            },
            None => {},
        }
    }

    /// Checks the trailing closure of a call.
    pub fn check_trailing(&mut self, e: &Expr)
        ensures
            final(self).stands(old(self).view().check_trailing(*e)),
            old(self).view().grows_to(final(self).view()),
        decreases e, 0int,
    {
        match closure_in(e) {
            Some(c) => {
                self.check_expr(c, None);
            },
            None => {},
        }
    }

    /// Checks the arguments of a call for themselves, with the trailing closure
    /// if `tc` says so.
    pub fn check_all(&mut self, e: &Expr, tc: bool)
        ensures
            final(self).stands(old(self).view().check_all(*e, tc)),
            old(self).view().grows_to(final(self).view()),
        decreases e, 1int,
    {
        self.check_listed(e);
        if tc {
            self.check_trailing(e);
        }
    }

    /// Checks arguments against parameter types, and those beyond for themselves
    /// if `extra` says so; the parameter types that are left.
    pub fn check_zip(&mut self, l: &List<Expr>, tys: &List<Ty>, extra: bool) -> (r: List<Ty>)
        ensures
            final(self).answers(r, old(self).view().check_zip(*l, *tys, extra)),
            old(self).view().grows_to(final(self).view()),
        decreases l, 1int,
    {
        match l {
            List::Nil => dup(tys),
            List::Cons(a, t) => match tys {
                List::Cons(ty, tt) => {
                    let at = self.check_expr(&**a, Some(**ty));
                    self.expect(at, **ty, a.span);
                    self.check_zip(&**t, &**tt, extra)
                },
                List::Nil => {
                    if extra {
                        self.check_expr(&**a, None);
                    }
                    self.check_zip(&**t, tys, extra)
                },
            },
        }
    }

    /// Checks the arguments in the brackets of a call against parameter types;
    /// the parameter types that are left.
    pub fn check_listed_against(&mut self, e: &Expr, tys: &List<Ty>, extra: bool) -> (r: List<Ty>)
        ensures
            final(self).answers(r, old(self).view().check_listed_against(*e, *tys, extra)),
            old(self).view().grows_to(final(self).view()),
        decreases e, 0int,
    {
        match args_in(e) {
            Some(args) => self.check_zip(args, tys, extra),
            None => dup(tys),
        }
    }

    /// Checks the trailing closure of a call against the first of `left`.
    pub fn check_trailing_against(&mut self, e: &Expr, left: &List<Ty>, extra: bool)
        ensures
            final(self).stands(old(self).view().check_trailing_against(*e, *left, extra)),
            old(self).view().grows_to(final(self).view()),
        decreases e, 0int,
    {
        match closure_in(e) {
            Some(c) => match left {
                List::Cons(ty, _) => {
                    let t = self.check_expr(c, Some(**ty));
                    self.expect(t, **ty, c.span);
                },
                List::Nil => if extra {
                    self.check_expr(c, None);
                },
            },
            None => {},
        }
    }

    /// Checks the arguments of a call, a trailing closure being the last one.
    pub fn check_against(&mut self, e: &Expr, tys: &List<Ty>, extra: bool)
        ensures
            final(self).stands(old(self).view().check_against(*e, *tys, extra)),
            old(self).view().grows_to(final(self).view()),
        decreases e, 1int,
    {
        let left = self.check_listed_against(e, tys, extra);
        self.check_trailing_against(e, &left, extra);
    }

    /// The call has exactly the parameters `tys`.
    pub fn check_fixed(&mut self, e: &Expr, tys: &List<Ty>)
        ensures
            final(self).stands(old(self).view().check_fixed(*e, *tys)),
            old(self).view().grows_to(final(self).view()),
        decreases e, 2int,
    {
        self.check_arity(tys.len(), count_args(e, true), e.span);
        self.check_against(e, tys, false);
    }

    /// Checks arguments for themselves and unifies the parameter types with what
    /// they are; the parameter types that are left, and what is solved.
    pub fn infer_zip(
        &mut self,
        l: &List<Expr>,
        tys: &List<Ty>,
        extra: bool,
        m: List<Solved>,
    ) -> (r: (List<Ty>, List<Solved>))
        ensures
            final(self).answers(r, old(self).view().infer_zip(*l, *tys, extra, m)),
            old(self).view().grows_to(final(self).view()),
        decreases l, 1int,
    {
        match l {
            List::Nil => (dup(tys), m),
            List::Cons(a, t) => match tys {
                List::Cons(ty, tt) => {
                    let at = self.check_expr(&**a, None);
                    self.infer_zip(&**t, &**tt, extra, self.unify(**ty, at, m))
                },
                List::Nil => {
                    if extra {
                        self.check_expr(&**a, None);
                    }
                    self.infer_zip(&**t, tys, extra, m)
                },
            },
        }
    }

    /// What the arguments of a call say of the generics in `tys`.
    pub fn infer_call(&mut self, e: &Expr, tys: &List<Ty>, start: List<Solved>) -> (r: List<Solved>)
        ensures
            final(self).answers(r, old(self).view().infer_call(*e, *tys, start)),
            old(self).view().grows_to(final(self).view()),
        decreases e, 1int,
    {
        match &e.kind {
            ExprKind::Call { args, trailing_closure, .. } => {
                let (left, m) = self.infer_zip(args, tys, true, start);
                match trailing_closure {
                    Some(c) => {
                        let t = self.check_expr(&**c, None);
                        match left {
                            List::Cons(ty, _) => self.unify(*ty, t, m),
                            List::Nil => m,
                        }
                    },
                    None => m,
                }
            },
            _ => start,
        }
    }

    /// The checked arguments of a call have the types `tys` with `m` put in.
    pub fn expect_call(&mut self, e: &Expr, tys: &List<Ty>, m: &List<Solved>)
        ensures
            final(self).stands(old(self).view().expect_call(*e, *tys, *m)),
            old(self).view().grows_to(final(self).view()),
    {
        proof {
            reveal(Ck::expect_call);
        }
        match &e.kind {
            ExprKind::Call { args, trailing_closure, .. } => {
                let left = self.expect_args(args, tys, m);
                match (trailing_closure, left) {
                    (Some(c), List::Cons(ty, _)) => {
                        let want = self.subst_ty(*ty, m);
                        self.expect(self.ty_at(c.span), want, c.span);
                    },
                    _ => {},
                }
            },
            _ => {},
        }
    }

    /// Checks the first argument against `want`.
    pub fn check_first(&mut self, e: &Expr, want: Option<Ty>) -> (r: Ty)
        ensures
            final(self).answers(r, old(self).view().check_first(*e, want)),
            old(self).view().grows_to(final(self).view()),
        decreases e, 1int,
    {
        match first_in(e) {
            Some(a) => self.check_expr(a, want),
            None => ERROR_TY,
        }
    }

    /// Checks the second argument against `want`.
    pub fn check_second(&mut self, e: &Expr, want: Option<Ty>) -> (r: Ty)
        ensures
            final(self).answers(r, old(self).view().check_second(*e, want)),
            old(self).view().grows_to(final(self).view()),
        decreases e, 1int,
    {
        match second_in(e) {
            Some(b) => self.check_expr(b, want),
            None => ERROR_TY,
        }
    }

    /// `name` is a toolchain function that no local hides.
    pub fn intr_fn(&self, name: Symbol) -> (r: bool)
        ensures
            r == self.view().intr_fn(name),
    {
        proof {
            reveal(Ck::intr_fn);
        }
        self.lookup(name).is_none() && match self.program().resolve_value_in(self.cur_module(), name) {
            Some(d) => self.program().is_builtin_def(d),
            None => false,
        }
    }

    /// `name` is a toolchain namespace that no local hides.
    pub fn intr_ns(&self, name: Symbol) -> (r: bool)
        ensures
            r == self.view().intr_ns(name),
    {
        proof {
            reveal(Ck::intr_ns);
        }
        self.lookup(name).is_none() && match self.program().resolve_type_in(self.cur_module(), name) {
            Some(d) => self.program().is_builtin_def(d),
            None => false,
        }
    }

    /// A call. Afterwards no argument may have carried a reference out of a held
    /// lock.
    pub fn check_call(&mut self, e: &Expr) -> (r: Ty)
        ensures
            final(self).answers(r, old(self).view().check_call(*e)),
            old(self).view().grows_to(final(self).view()),
        decreases e, 10int,
    {
        let ty = self.check_call_inner(e);
        match &e.kind {
            ExprKind::Call { callee, args, trailing_closure, .. } => {
                self.check_passed(&**callee, args);
                match trailing_closure {
                    Some(c) => self.check_handed(&**callee, &**c),
                    None => {},
                }
            },
            _ => {},
        }
        ty
    }

    pub fn check_call_inner(&mut self, e: &Expr) -> (r: Ty)
        ensures
            final(self).answers(r, old(self).view().check_call_inner(*e)),
            old(self).view().grows_to(final(self).view()),
        decreases e, 9int,
    {
        let callee = match &e.kind {
            ExprKind::Call { callee, .. } => &**callee,
            _ => {
                return ERROR_TY;
            },
        };
        let ctor = self.try_builtin_ctor(e);
        match ctor {
            Some(t) => {
                return t;
            },
            None => {},
        }
        match shape_of(callee) {
            Callee::Name(n) => self.check_named_call(e, n),
            Callee::Member { recv, name } => match recv {
                Some(r) => self.check_member_call(e, r, name),
                None => self.check_method_call(e),
            },
            Callee::Other => self.check_value_call(e),
        }
    }

    /// `List<T>()`, `List.new<T>()`, `Map<K, V>()` and `Map.new<K, V>()` make an
    /// empty collection.
    pub fn try_builtin_ctor(&mut self, e: &Expr) -> (r: Option<Ty>)
        ensures
            final(self).answers(r, old(self).view().try_builtin_ctor(*e)),
            old(self).view().grows_to(final(self).view()),
        decreases e, 6int,
    {
        let (callee, generics) = match &e.kind {
            ExprKind::Call { callee, generics, .. } => (&**callee, generics),
            _ => {
                return None;
            },
        };
        let tyname = match shape_of(callee) {
            Callee::Name(n) => Some(n),
            Callee::Member { recv, name } => if name == NEW {
                recv
            } else {
                None
            },
            Callee::Other => None,
        };
        let found = match tyname {
            Some(n) => self.program().resolve_type_in(self.cur_module(), n),
            None => None,
        };
        let def = match found {
            Some(d) => d,
            None => {
                return None;
            },
        };
        let is_map = def == self.program().known(T_MAP);
        if !is_map && def != self.program().known(T_LIST) {
            return None;
        }
        let t = self.collection_ctor(e, generics, def, is_map);
        Some(t)
    }

    pub fn collection_ctor(&mut self, e: &Expr, generics: &List<Type>, def: DefId, is_map: bool) -> (r: Ty)
        ensures
            final(self).answers(r, old(self).view().collection_ctor(*e, *generics, def, is_map)),
            old(self).view().grows_to(final(self).view()),
        decreases e, 5int,
    {
        if is_map && generics.len() != 2 {
            self.say("`Map` constructor needs 2 explicit type argument(s)", e.span);
            return ERROR_TY;
        }
        if !is_map && generics.len() != 1 {
            self.say("`List` constructor needs 1 explicit type argument(s)", e.span);
            return ERROR_TY;
        }
        let env = self.local_env();
        let tys = self.lower_tys(generics, &env);
        let found = count_args(e, false);
        if found != 0 {
            self.emit_count(0, found, e.span);
            self.check_all(e, false);
        }
        if is_map {
            match &tys {
                List::Cons(kt, _) => self.require_map_key(**kt, e.span),
                List::Nil => {},
            }
        }
        self.mk_named(def, tys)
    }

    /// What a call `name(..)` is: of a local it is a call of its value, else of a
    /// builtin function, a toolchain intrinsic, a struct's constructor, a generic
    /// function, or any other value.
    pub fn named_plan(&self, name: Symbol) -> (r: NamedPlan)
        ensures
            r == self.view().named_plan(name),
    {
        proof {
            reveal(Ck::named_plan);
        }
        if self.lookup(name).is_some() {
            return NamedPlan::Value;
        }
        let value = self.program().resolve_value_in(self.cur_module(), name);
        let builtin = match value {
            Some(d) => self.program().builtin_of_def(d),
            None => None,
        };
        let generic = match value {
            Some(d) => if self.is_generic_fn(d) {
                NamedPlan::Generic(d)
            } else {
                NamedPlan::Value
            },
            None => NamedPlan::Value,
        };
        match builtin {
            Some(b) => NamedPlan::Builtin(b),
            None => if self.intr_fn(name) && (name == CHANNEL || name == YIELD_NOW || name == SLEEP || name == TIMEOUT || name
                == BLOCK_ON) {
                NamedPlan::Intrinsic
            } else {
                match self.program().resolve_type_in(self.cur_module(), name) {
                    Some(d) => if self.program().def(d).kind == DefKind::Struct
                        || self.program().def(d).kind == DefKind::ExternStruct {
                        NamedPlan::Struct(d)
                    } else {
                        generic
                    },
                    None => generic,
                }
            },
        }
    }

    pub fn check_named_call(&mut self, e: &Expr, name: Symbol) -> (r: Ty)
        ensures
            final(self).answers(r, old(self).view().check_named_call(*e, name)),
            old(self).view().grows_to(final(self).view()),
        decreases e, 7int,
    {
        match self.named_plan(name) {
            NamedPlan::Builtin(b) => {
                let t = self.builtin_ty(b);
                self.record_res(span_of_callee(e), ValueRes::Builtin(b), t);
                self.check_args_against(e, t, None)
            },
            NamedPlan::Intrinsic => self.check_intrinsic_call(e, name),
            NamedPlan::Struct(d) => self.check_tuple_ctor(e, d),
            NamedPlan::Generic(d) => self.check_generic_call(e, d),
            NamedPlan::Value => self.check_value_call(e),
        }
    }

    pub fn is_generic_fn(&self, d: DefId) -> (r: bool)
        ensures
            r == self.view().is_generic_fn(d),
    {
        proof {
            reveal(Ck::is_generic_fn);
        }
        let def = self.program().def(d);
        (def.kind == DefKind::Function || def.kind == DefKind::ExternFunction) && !def.generics.is_empty()
    }

    /// A call of whatever value the callee is.
    pub fn check_value_call(&mut self, e: &Expr) -> (r: Ty)
        ensures
            final(self).answers(r, old(self).view().check_value_call(*e)),
            old(self).view().grows_to(final(self).view()),
        decreases e, 4int,
    {
        let callee = match &e.kind {
            ExprKind::Call { callee, .. } => &**callee,
            _ => {
                return ERROR_TY;
            },
        };
        let cty = self.check_expr(callee, None);
        if self.is_err(cty) {
            return ERROR_TY;
        }
        let def = match self.resolution(callee.span) {
            Some(ValueRes::Function(d)) => Some(d),
            _ => None,
        };
        self.check_args_against(e, cty, def)
    }

    /// `d` is a C function that takes any number of further arguments.
    pub fn is_variadic(&self, d: Option<DefId>) -> (r: bool)
        ensures
            r == self.view().is_variadic(d),
    {
        proof {
            reveal(Ck::is_variadic);
        }
        match d {
            Some(x) => {
                self.program().def(x).kind == DefKind::ExternFunction
                    && contains_attr(&self.program().def(x).attrs, T_VARIADIC)
            },
            None => false,
        }
    }

    /// Checks the arguments of a call of a value of type `callee_ty`, which is the
    /// function `def` if it is known.
    pub fn check_args_against(&mut self, e: &Expr, callee_ty: Ty, def: Option<DefId>) -> (r: Ty)
        ensures
            final(self).answers(r, old(self).view().check_args_against(*e, callee_ty, def)),
            old(self).view().grows_to(final(self).view()),
        decreases e, 3int,
    {
        match self.kind(callee_ty) {
            TyKind::Func { params, ret, .. } => {
                let found = count_args(e, true);
                let fixed = params.len();
                if self.is_variadic(def) {
                    if found < fixed {
                        self.emit_count(fixed, found, e.span);
                    }
                    self.check_against(e, &params, true);
                    self.require_variadics(e, &params);
                } else {
                    self.check_arity(fixed, found, e.span);
                    self.check_against(e, &params, true);
                }
                ret
            },
            _ => {
                let found = self.display(callee_ty);
                self.emit(SemaErrorKind::NotCallable { found }, e.span);
                ERROR_TY
            },
        }
    }

    pub fn require_variadics(&mut self, e: &Expr, params: &List<Ty>)
        ensures
            final(self).stands(old(self).view().require_variadics(*e, *params)),
            old(self).view().grows_to(final(self).view()),
    {
        proof {
            reveal(Ck::require_variadics);
        }
        match &e.kind {
            ExprKind::Call { args, .. } => self.require_beyond(args, params),
            _ => {},
        }
    }

    /// The arguments beyond the fixed ones can be passed to C.
    pub fn require_beyond(&mut self, args: &List<Expr>, params: &List<Ty>)
        ensures
            final(self).stands(old(self).view().require_beyond(*args, *params)),
            old(self).view().grows_to(final(self).view()),
        decreases args,
    {
        proof {
            reveal(Ck::require_beyond);
        }
        match args {
            List::Nil => {},
            List::Cons(a, t) => match params {
                List::Cons(_, pt) => self.require_beyond(&**t, &**pt),
                List::Nil => {
                    self.require_variadic(self.ty_at(a.span), a.span);
                    self.require_beyond(&**t, params);
                },
            },
        }
    }

    /// What a call `ns.name(..)` is where `ns` is a plain name: of a toolchain
    /// namespace, a numeric type, an imported module, a type, or a value.
    pub fn member_plan(&self, ns: Symbol, name: Symbol) -> (r: MemberPlan)
        ensures
            r == self.view().member_plan(ns, name),
    {
        proof {
            reveal(Ck::member_plan);
        }
        if self.lookup(ns).is_some() {
            return MemberPlan::Method;
        }
        if ns == T_SHARED && name == NEW && self.intr_ns(ns) {
            return MemberPlan::SharedNew;
        }
        if ns == T_FOREIGN && self.intr_ns(ns) {
            return MemberPlan::Foreign;
        }
        if self.num_method(ns, name).is_some() {
            return MemberPlan::Num;
        }
        match self.program().namespace_target(self.cur_module(), ns) {
            Some(target) => {
                return MemberPlan::Namespace(target);
            },
            None => {},
        }
        if name == SPAWN && (ns == T_THREAD || ns == T_TASK) && self.intr_ns(ns) {
            return MemberPlan::Spawn;
        }
        match self.static_receiver(ns) {
            Some(StaticRecv::Param(def, ty)) => MemberPlan::Bound(def, ty),
            Some(StaticRecv::Type(def)) => MemberPlan::Type(def),
            None => MemberPlan::Method,
        }
    }

    pub fn check_member_call(&mut self, e: &Expr, ns: Symbol, name: Symbol) -> (r: Ty)
        ensures
            final(self).answers(r, old(self).view().check_member_call(*e, ns, name)),
            old(self).view().grows_to(final(self).view()),
        decreases e, 8int,
    {
        match self.member_plan(ns, name) {
            MemberPlan::Namespace(target) => self.check_namespaced_call(e, target, ns),
            MemberPlan::Bound(def, ty) => self.check_bound_static_call(e, def, ty),
            MemberPlan::Type(def) => self.check_type_static_call(e, def),
            MemberPlan::Method => self.check_method_call(e),
            plan => self.check_toolchain_call(e, plan, ns, name),
        }
    }

    pub fn check_toolchain_call(&mut self, e: &Expr, plan: MemberPlan, ns: Symbol, name: Symbol) -> (r: Ty)
        ensures
            final(self).answers(r, old(self).view().check_toolchain_call(*e, plan, ns, name)),
            old(self).view().grows_to(final(self).view()),
        decreases e, 7int,
    {
        match plan {
            MemberPlan::SharedNew => self.check_shared_new(e),
            MemberPlan::Foreign => self.check_foreign_builtin(e, name),
            MemberPlan::Num => self.check_num_method(e, ns, name),
            MemberPlan::Spawn => self.check_spawn_call(e, ns),
            _ => ERROR_TY,
        }
    }

    /// What a name that no local hides stands for before a dot: a type parameter
    /// or a struct.
    pub fn static_receiver(&self, name: Symbol) -> (r: Option<StaticRecv>)
        ensures
            r == self.view().static_receiver(name),
    {
        proof {
            reveal(Ck::static_receiver);
        }
        let param = match find_generic(self.cur_generics(), name) {
            Some(t) => match self.kind(t) {
                TyKind::Param(d) => Some(StaticRecv::Param(d, t)),
                _ => None,
            },
            None => None,
        };
        match (param, self.program().resolve_type_in(self.cur_module(), name)) {
            (Some(p), _) => Some(p),
            (None, Some(d)) => if self.program().def(d).kind == DefKind::Struct
                || self.program().def(d).kind == DefKind::ExternStruct {
                Some(StaticRecv::Type(d))
            } else {
                None
            },
            (None, None) => None,
        }
    }

    /// `M.foo(..)` where `M` is an imported module.
    pub fn check_namespaced_call(&mut self, e: &Expr, target: ModId, alias: Symbol) -> (r: Ty)
        ensures
            final(self).answers(r, old(self).view().check_namespaced_call(*e, target, alias)),
            old(self).view().grows_to(final(self).view()),
        decreases e, 5int,
    {
        let name = member_of(e);
        let def = match self.program().resolve_pub_value_in(target, name.name) {
            Some(d) => d,
            None => {
                let n = self.name(name.name);
                let a = self.name(alias);
                self.say_text(
                    "no public value `".to_owned().concat(n.as_str()).concat(
                        "` in module `",
                    ).concat(a.as_str()).concat("`"),
                    name.span,
                );
                return ERROR_TY;
            },
        };
        if self.is_generic_fn(def) {
            return self.check_generic_call(e, def);
        }
        self.record_res(span_of_callee(e), self.value_res(def), ERROR_TY);
        let cty = self.value_def_ty(def);
        self.check_args_against(e, cty, Some(def))
    }

    /// `m` with each of `gens` standing for the written type in its place.
    pub fn explicit_args(
        &mut self,
        gens: &List<DefId>,
        tys: &List<Type>,
        env: &TypeEnv,
        m: List<Solved>,
    ) -> (r: List<Solved>)
        ensures
            final(self).answers(r, old(self).view().explicit_args(*gens, *tys, *env, m)),
            old(self).view().grows_to(final(self).view()),
        decreases gens,
    {
        proof {
            reveal(Ck::explicit_args);
        }
        match gens {
            List::Nil => m,
            List::Cons(g, gt) => match tys {
                List::Nil => m,
                List::Cons(x, xt) => {
                    let ty = self.lower_ty(&**x, env);
                    self.explicit_args(&**gt, &**xt, env, solve(m, **g, ty))
                },
            },
        }
    }

    /// The generics of `def` as far as the call writes them out.
    pub fn written_args(&mut self, e: &Expr, def: DefId, start: List<Solved>) -> (r: List<Solved>)
        ensures
            final(self).answers(r, old(self).view().written_args(*e, def, start)),
            old(self).view().grows_to(final(self).view()),
    {
        proof {
            reveal(Ck::written_args);
        }
        match &e.kind {
            ExprKind::Call { generics, .. } => {
                let env = self.local_env();
                self.explicit_args(&self.program().def(def).generics, generics, &env, start)
            },
            _ => start,
        }
    }

    /// The parameter types of a function.
    pub fn fn_params(&mut self, def: DefId, env: &TypeEnv, m: &List<Solved>) -> (r: List<Ty>)
        ensures
            final(self).answers(r, old(self).view().fn_params(def, *env, *m)),
            old(self).view().grows_to(final(self).view()),
    {
        proof {
            reveal(Ck::fn_params);
        }
        match &self.program().def(def).item {
            Some(ItemKind::Function(f)) | Some(ItemKind::Extern(ExternItem::Function(f))) => self.lower_params(
                &f.params,
                env,
                m,
            ),
            _ => List::Nil,
        }
    }

    /// The result type of a function.
    pub fn fn_ret(&mut self, def: DefId, env: &TypeEnv, m: &List<Solved>) -> (r: Ty)
        ensures
            final(self).answers(r, old(self).view().fn_ret(def, *env, *m)),
            old(self).view().grows_to(final(self).view()),
    {
        proof {
            reveal(Ck::fn_ret);
        }
        match &self.program().def(def).item {
            Some(ItemKind::Function(f)) | Some(ItemKind::Extern(ExternItem::Function(f))) => self.lower_ret(
                &f.return_type,
                env,
                m,
            ),
            _ => ERROR_TY,
        }
    }

    pub fn generic_target(&mut self, e: &Expr, def: DefId) -> (r: Target)
        ensures
            final(self).answers(r, old(self).view().generic_target(*e, def)),
            old(self).view().grows_to(final(self).view()),
    {
        proof {
            reveal(Ck::generic_target);
        }
        self.record_res(span_of_callee(e), ValueRes::Function(def), ERROR_TY);
        let env = self.def_env(def, None);
        let tys = self.fn_params(def, &env, &List::Nil);
        Target { method: def, env, tys, given: List::Nil }
    }

    /// What the generics of a called function stand for: what is written out, else
    /// what the arguments say.
    pub fn generic_args(&mut self, e: &Expr, def: DefId, tys: &List<Ty>) -> (r: List<Solved>)
        ensures
            final(self).answers(r, old(self).view().generic_args(*e, def, *tys)),
            old(self).view().grows_to(final(self).view()),
        decreases e, 3int,
    {
        match &e.kind {
            ExprKind::Call { args, generics, .. } => if generics.is_empty() {
                let (left, found) = self.infer_zip(args, tys, true, List::Nil);
                found
            } else {
                let given = self.written_args(e, def, List::Nil);
                self.check_each(args);
                given
            },
            _ => List::Nil,
        }
    }

    pub fn finish_generic(&mut self, e: &Expr, target: Target, m: List<Solved>) -> (r: Ty)
        ensures
            final(self).answers(r, old(self).view().finish_generic(*e, target, m)),
            old(self).view().grows_to(final(self).view()),
    {
        proof {
            reveal(Ck::finish_generic);
        }
        let d = self.program().def(target.method);
        self.check_arity(target.tys.len(), count_args(e, false), e.span);
        let targs = all_solutions(&m, &d.generics, ERROR_TY);
        self.check_bounds(&d.generics, &targs, e.span);
        match &e.kind {
            ExprKind::Call { args, .. } => {
                self.expect_args(args, &target.tys, &m);
            },
            _ => {},
        }
        let ret = self.fn_ret(target.method, &target.env, &m);
        self.set_p_targs(Some(targs));
        ret
    }

    /// A call of a generic function: its type arguments are written out, or what
    /// the arguments say, and must satisfy their bounds.
    pub fn check_generic_call(&mut self, e: &Expr, def: DefId) -> (r: Ty)
        ensures
            final(self).answers(r, old(self).view().check_generic_call(*e, def)),
            old(self).view().grows_to(final(self).view()),
        decreases e, 4int,
    {
        let target = self.generic_target(e, def);
        let m = self.generic_args(e, def, &target.tys);
        self.finish_generic(e, target, m)
    }

    pub fn no_bound_static(&mut self, e: &Expr, ty: Ty) -> (r: Ty)
        ensures
            final(self).answers(r, old(self).view().no_bound_static(*e, ty)),
            old(self).view().grows_to(final(self).view()),
    {
        proof {
            reveal(Ck::no_bound_static);
        }
        let name = member_of(e);
        let n = self.name(name.name);
        let t = self.display(ty);
        self.say_text(
            "no static method `".to_owned().concat(n.as_str()).concat("` on type parameter `").concat(t.as_str()).concat(
                "` through its bounds",
            ),
            name.span,
        );
        ERROR_TY
    }

    /// The signature of a static method that a bound of a type parameter gives.
    pub fn bound_static_sig(&mut self, e: &Expr, param: DefId, ty: Ty) -> (r: Option<Sig>)
        ensures
            final(self).answers(r, old(self).view().bound_static_sig(*e, param, ty)),
            old(self).view().grows_to(final(self).view()),
    {
        proof {
            reveal(Ck::bound_static_sig);
        }
        let name = member_of(e);
        let found = self.resolve_bound_method(param, name.name);
        match found {
            Some(b) => {
                if !self.program().def(b.method).is_static {
                    let n = self.name(name.name);
                    self.say_text(
                        "`".to_owned().concat(n.as_str()).concat(
                            "` is an instance method; call it on a value, not on the type",
                        ),
                        name.span,
                    );
                }
                self.record_res(span_of_callee(e), ValueRes::Method(b.method), ERROR_TY);
                let sig = self.iface_method_sig(b.method, b.iface, &b.iargs, ty);
                Some(sig)
            },
            None => None,
        }
    }

    /// `T.method(..)` on a type parameter: a static method of one of its bounds.
    pub fn check_bound_static_call(&mut self, e: &Expr, param: DefId, ty: Ty) -> (r: Ty)
        ensures
            final(self).answers(r, old(self).view().check_bound_static_call(*e, param, ty)),
            old(self).view().grows_to(final(self).view()),
        decreases e, 5int,
    {
        let found = self.bound_static_sig(e, param, ty);
        match found {
            Some(sig) => {
                self.check_fixed(e, &sig.params);
                self.set_p_static(Some(ty));
                sig.ret
            },
            None => {
                self.check_all(e, true);
                self.no_bound_static(e, ty)
            },
        }
    }

    /// `m` with an entry for each of `gens` that has none, which is reported.
    pub fn solve_missing(
        &mut self,
        gens: &List<DefId>,
        m: List<Solved>,
        owner: Symbol,
        span: Span,
    ) -> (r: List<Solved>)
        ensures
            final(self).answers(r, old(self).view().solve_missing(*gens, m, owner, span)),
            old(self).view().grows_to(final(self).view()),
        decreases gens,
    {
        proof {
            reveal(Ck::solve_missing);
        }
        match gens {
            List::Nil => m,
            List::Cons(g, t) => if find_solution(&m, **g).is_some() {
                self.solve_missing(&**t, m, owner, span)
            } else {
                self.report_unsolved(**g, owner, span);
                self.solve_missing(&**t, solve(m, **g, ERROR_TY), owner, span)
            },
        }
    }

    /// `m` with what it says itself put into each of the entries `l`, the oldest
    /// first.
    pub fn settled(&mut self, l: &List<Solved>, m: List<Solved>) -> (r: List<Solved>)
        ensures
            final(self).answers(r, old(self).view().settled(*l, m)),
            old(self).view().grows_to(final(self).view()),
        decreases l,
    {
        proof {
            reveal(Ck::settled);
        }
        match l {
            List::Nil => m,
            List::Cons(h, t) => {
                let older = self.settled(&**t, m);
                let now = match find_solution(&older, h.param) {
                    Some(x) => x,
                    None => h.ty,
                };
                let ty = self.subst_ty(now, &older);
                solve(older, h.param, ty)
            },
        }
    }

    /// `m` settled once for each of `rounds`.
    pub fn settled_often(&mut self, rounds: &List<DefId>, m: List<Solved>) -> (r: List<Solved>)
        ensures
            final(self).answers(r, old(self).view().settled_often(*rounds, m)),
            old(self).view().grows_to(final(self).view()),
        decreases rounds,
    {
        proof {
            reveal(Ck::settled_often);
        }
        match rounds {
            List::Nil => m,
            List::Cons(_, t) => {
                let entries = dup(&m);
                let next = self.settled(&entries, m);
                self.settled_often(&**t, next)
            },
        }
    }

    /// Chains of generics (of the method's block, of the struct) are short: a few
    /// rounds reach what they stand for.
    pub fn resolve_chain(&mut self, gens: &List<DefId>, m: List<Solved>) -> (r: List<Solved>)
        ensures
            final(self).answers(r, old(self).view().resolve_chain(*gens, m)),
            old(self).view().grows_to(final(self).view()),
    {
        proof {
            reveal(Ck::resolve_chain);
        }
        let entries = dup(&m);
        let once = self.settled(&entries, m);
        let entries2 = dup(&once);
        let twice = self.settled(&entries2, once);
        self.settled_often(gens, twice)
    }

    pub fn no_static_method(&mut self, e: &Expr, def: DefId) -> (r: Ty)
        ensures
            final(self).answers(r, old(self).view().no_static_method(*e, def)),
            old(self).view().grows_to(final(self).view()),
    {
        proof {
            reveal(Ck::no_static_method);
        }
        let name = member_of(e);
        let tn = self.name(self.program().def(def).name);
        let n = self.name(name.name);
        self.say_text(
            "type `".to_owned().concat(tn.as_str()).concat("` has no static method `").concat(n.as_str()).concat("`"),
            name.span,
        );
        ERROR_TY
    }

    /// The static method that a call names, with its parameter types in terms of
    /// the struct's generics.
    pub fn static_target(&mut self, e: &Expr, def: DefId) -> (r: Option<Target>)
        ensures
            final(self).answers(r, old(self).view().static_target(*e, def)),
            old(self).view().grows_to(final(self).view()),
    {
        proof {
            reveal(Ck::static_target);
        }
        let name = member_of(e);
        let params = self.param_tys(&self.program().def(def).generics);
        let recv = self.mk_named(def, params);
        let found = self.resolve_method(recv, name.name);
        match found {
            Some(f) => {
                if !self.program().def(f.method).is_static {
                    let tn = self.name(self.program().def(def).name);
                    let n = self.name(name.name);
                    self.say_text(
                        "`".to_owned().concat(n.as_str()).concat("` is an instance method on `").concat(
                            tn.as_str(),
                        ).concat("`; call it on a value"),
                        name.span,
                    );
                }
                self.record_res(span_of_callee(e), ValueRes::Method(f.method), ERROR_TY);
                let given = self.written_args(e, f.method, f.solved);
                let (env, self_ty) = self.fn_env(f.method);
                let tys = self.fn_params(f.method, &env, &given);
                Some(Target { method: f.method, env, tys, given })
            },
            None => None,
        }
    }

    /// Concludes a static call in which the arguments have solved `inferred`.
    pub fn finish_static(&mut self, e: &Expr, def: DefId, target: Target, inferred: List<Solved>) -> (r: Ty)
        ensures
            final(self).answers(r, old(self).view().finish_static(*e, def, target, inferred)),
            old(self).view().grows_to(final(self).view()),
    {
        proof {
            reveal(Ck::finish_static);
        }
        let gens = &self.program().def(def).generics;
        let md = self.program().def(target.method);
        let recv_args = all_solutions(&inferred, gens, ERROR_TY);
        let recv = self.mk_named(def, recv_args);
        let complete = self.solve_missing(gens, inferred, self.program().def(def).name, e.span);
        let m = self.resolve_chain(gens, complete);
        let tys = self.subst_tys(&target.tys, &m);
        self.check_arity(tys.len(), count_args(e, true), e.span);
        self.expect_call(e, &tys, &List::Nil);
        let ext_gens = match md.parent {
            Some(p) => dup(&self.program().def(p).generics),
            None => List::Nil,
        };
        let of_block = self.subst_tys(&all_solutions(&m, &ext_gens, ERROR_TY), &m);
        let targs = of_block.append(all_solutions(&m, &md.generics, ERROR_TY));
        self.check_bounds(&ext_gens.append(dup(&md.generics)), &targs, e.span);
        let ret = self.fn_ret(target.method, &target.env, &m);
        self.set_p_static(Some(recv));
        self.set_p_targs(if targs.is_empty() {
            None
        } else {
            Some(targs)
        });
        ret
    }

    /// `Type.method(..)`: a static method of an `extend` block; the struct's
    /// generics are what the arguments say.
    pub fn check_type_static_call(&mut self, e: &Expr, def: DefId) -> (r: Ty)
        ensures
            final(self).answers(r, old(self).view().check_type_static_call(*e, def)),
            old(self).view().grows_to(final(self).view()),
        decreases e, 5int,
    {
        let found = self.static_target(e, def);
        match found {
            Some(target) => {
                let m = self.infer_call(e, &target.tys, dup(&target.given));
                self.finish_static(e, def, target, m)
            },
            None => {
                self.check_all(e, true);
                self.no_static_method(e, def)
            },
        }
    }
}

/// What a call by name is.
#[derive(Clone, Copy, PartialEq, Eq, Structural, Debug)]
pub enum NamedPlan {
    Builtin(Builtin),
    Intrinsic,
    Struct(DefId),
    Generic(DefId),
    Value,
}

/// What a call behind a dot is.
#[derive(Clone, Copy, PartialEq, Eq, Structural, Debug)]
pub enum MemberPlan {
    SharedNew,
    Foreign,
    Num,
    Spawn,
    Namespace(ModId),
    Bound(DefId, Ty),
    Type(DefId),
    Method,
}

/// A resolved callee: its parameter types in its environment, and what the call
/// already says of its generics.
#[derive(Debug)]
pub struct Target {
    pub method: DefId,
    pub env: TypeEnv,
    pub tys: List<Ty>,
    pub given: List<Solved>,
}

/// What a static method is called on.
#[derive(Clone, Copy, PartialEq, Eq, Structural, Debug)]
pub enum StaticRecv {
    Param(DefId, Ty),
    Type(DefId),
}

} // verus!
