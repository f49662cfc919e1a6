//! The rules of checking that do not look inside expressions.
use vstd::prelude::*;
use crate::ast::{CastOp, Expr, ExprKind, FloatLit, IntLit, MatchArm, Pattern, PatternKind};
use crate::check::{find_local_ty, Ck, Cx};
use crate::check::sigs::Bound;
use crate::diag::{Problem, SemaErrorKind};
use crate::hir::{Conversion, FieldTy, LocalTy, StructFields, StructLayout};
use crate::ids::{DefId, LocalId};
use crate::list::{dup, List};
use crate::names::Symbol;
use crate::results::{CloneKind, ValueRes};
use crate::solve::{find_solution, Solved};
use crate::span::Span;
use crate::symbols::DefKind;
use crate::ty::{contains_ty, difference, IntTy, Ty, TyKind, ERROR_TY, F64_TY, I64_TY, NULL_TY, U64_TY};
use crate::words::{HASH, T_CLONE, T_HASH, T_RECEIVER, T_SENDER, T_SHARED, T_TRANSPARENT};
use crate::check::contains_attr;

verus! {

broadcast use {crate::check::law_grows_reflexive, crate::check::law_grows_transitive};

/// What `?` does with the variants of its operand.
#[derive(Debug)]
pub struct Split {
    /// Some variant is returned as it is.
    pub failed: bool,
    /// The variants that are converted and returned.
    pub conversions: List<Conversion>,
    /// The variants that `?` yields.
    pub successes: List<Ty>,
}

/// What `name is T` says of a local in either branch.
#[derive(Clone, Copy, PartialEq, Eq, Structural, Debug)]
pub struct Facts {
    pub local: LocalId,
    pub then_ty: Ty,
    pub else_ty: Ty,
}

/// The largest value that a literal of that type may have.
pub open spec fn largest(it: IntTy) -> u128 {
    match it {
        IntTy::I8 => 127,
        IntTy::I16 => 32767,
        IntTy::I32 => 2147483647,
        IntTy::I64 => 9223372036854775807,
        IntTy::U8 => 255,
        IntTy::U16 => 65535,
        IntTy::U32 => 4294967295,
        IntTy::U64 => 18446744073709551615,
        IntTy::Isize => u128::MAX,
        IntTy::Usize => u128::MAX,
    }
}

/// The largest value that a literal of that type may have.
pub fn int_max(it: IntTy) -> (r: u128)
    ensures
        r == largest(it),
{
    match it {
        IntTy::I8 => 127,
        IntTy::I16 => 32767,
        IntTy::I32 => 2147483647,
        IntTy::I64 => 9223372036854775807,
        IntTy::U8 => 255,
        IntTy::U16 => 65535,
        IntTy::U32 => 4294967295,
        IntTy::U64 => 18446744073709551615,
        IntTy::Isize => u128::MAX,
        IntTy::Usize => u128::MAX,
    }
}

/// The type of field `name`.
pub open spec fn field_ty(fs: List<FieldTy>, name: Symbol) -> Option<Ty>
    decreases fs,
{
    match fs {
        List::Nil => None,
        List::Cons(h, t) => if h.name == name {
            Some(h.ty)
        } else {
            field_ty(*t, name)
        },
    }
}

/// The type of field `name`.
pub fn find_field(fs: &List<FieldTy>, name: Symbol) -> (r: Option<Ty>)
    ensures
        r == field_ty(*fs, name),
    decreases fs,
{
    match fs {
        List::Nil => None,
        List::Cons(h, t) => if h.name == name {
            Some(h.ty)
        } else {
            find_field(&**t, name)
        },
    }
}

/// The field type of a struct with a single positional field.
pub open spec fn wrapped_ty(l: List<StructLayout>, def: DefId) -> Option<Ty>
    decreases l,
{
    match l {
        List::Nil => None,
        List::Cons(h, t) => if h.def == def {
            match h.fields {
                StructFields::Tuple(ts) => match ts {
                    List::Cons(a, rest) => if (*rest) is Nil {
                        Some(*a)
                    } else {
                        None
                    },
                    List::Nil => None,
                },
                _ => None,
            }
        } else {
            wrapped_ty(*t, def)
        },
    }
}

/// The field type of a struct with a single positional field.
pub fn find_wrapped(l: &List<StructLayout>, def: DefId) -> (r: Option<Ty>)
    ensures
        r == wrapped_ty(*l, def),
    decreases l,
{
    match l {
        List::Nil => None,
        List::Cons(h, t) => if h.def == def {
            match &h.fields {
                StructFields::Tuple(ts) => match ts {
                    List::Cons(a, rest) => if (**rest).is_empty() {
                        Some(**a)
                    } else {
                        None
                    },
                    List::Nil => None,
                },
                _ => None,
            }
        } else {
            find_wrapped(&**t, def)
        },
    }
}

pub open spec fn types_of(l: List<LocalTy>) -> List<Ty>
    decreases l,
{
    match l {
        List::Nil => List::Nil,
        List::Cons(h, t) => List::Cons(Box::new(h.ty), Box::new(types_of(*t))),
    }
}

pub fn local_types(l: &List<LocalTy>) -> (r: List<Ty>)
    ensures
        r == types_of(*l),
    decreases l,
{
    match l {
        List::Nil => List::Nil,
        List::Cons(h, t) => List::Cons(Box::new(h.ty), Box::new(local_types(&**t))),
    }
}

impl Ck {
    /// The type of an integer literal: its suffix decides, then the expected type
    /// if it is an integer type, and `i64` otherwise. It must fit.
    #[verifier::opaque]
    pub open spec fn check_int_lit(self, lit: IntLit, expected: Option<Ty>, span: Span) -> (Ck, Ty) {
        let (s1, ty) = match lit.suffix {
            Some(suffix) => match self.int_named(suffix) {
                Some(t) => (self, t),
                None => {
                    let n = self.name(suffix);
                    let s2 = self.say("`"@ + n + "` is not a valid integer suffix"@, span);
                    (s2, ERROR_TY)
                },
            },
            None => (self, match expected {
                Some(x) => if self.is_integer(x) {
                    x
                } else {
                    I64_TY
                },
                None => I64_TY,
            }),
        };
        let s3 = s1.check_int_range(lit, ty, span);
        (s3, ty)
    }

    #[verifier::opaque]
    pub open spec fn check_int_range(self, lit: IntLit, ty: Ty, span: Span) -> Ck {
        match self.kind(ty) {
            TyKind::Int(it) => match self.literal(lit, u128::MAX) {
                Some(v) => if v > largest(it) {
                    let d = self.digits(lit.raw);
                    let s1 = self.say("literal `"@ + d + "` does not fit in `"@ + it.text() + "`"@, span);
                    s1
                } else {
                    self
                },
                None => self,
            },
            _ => self,
        }
    }

    #[verifier::opaque]
    pub open spec fn check_float_lit(self, lit: FloatLit, expected: Option<Ty>) -> Ty {
        match lit.suffix {
            Some(suffix) => match self.float_named(suffix) {
                Some(t) => t,
                None => ERROR_TY,
            },
            None => match expected {
                Some(x) => match self.kind(x) {
                    TyKind::Float(_) => x,
                    _ => F64_TY,
                },
                None => F64_TY,
            },
        }
    }

    /// The type of a name: a local, as far as flow narrowing has narrowed it, or a
    /// module-level value.
    #[verifier::opaque]
    pub open spec fn check_ident(self, name: Symbol, span: Span) -> (Ck, Ty) {
        match self.lookup(name) {
            Some(b) => {
                let s1 = self.capture(b.local, b.ty);
                let result = match crate::check::local_ty_in(s1.narrowings, b.local) {
                    Some(t) => t,
                    None => b.ty,
                };
                let s2 = s1.record_res(span, ValueRes::Local(b.local), result);
                (s2, result)
            },
            None => match self.p.value_named(self.cur_module, name) {
                Some(def) => match self.p.builtin_for(def) {
                    Some(b) => {
                        let (s3, t) = self.builtin_ty(b);
                        let s4 = s3.record_res(span, ValueRes::Builtin(b), t);
                        (s4, t)
                    },
                    None => {
                        let res = self.value_res(def);
                        let (s5, t) = self.value_def_ty(def);
                        let s6 = s5.record_res(span, res, t);
                        (s6, t)
                    },
                },
                None => {
                    let n = self.name(name);
                    let s7 = self.fail(Problem::UnknownValue { name: n }, span);
                    (s7, ERROR_TY)
                },
            },
        }
    }

    /// Checks a name that stands for itself outside an expression, and leaves its
    /// node.
    #[verifier::opaque]
    pub open spec fn check_name_use(self, name: Symbol, span: Span) -> (Ck, Ty) {
        let (s1, t) = self.check_ident(name, span);
        let s2 = match s1.resolution(span) {
            Some(res) => s1.record_res(span, res, t),
            None => s1,
        };
        (s2, t)
    }

    #[verifier::opaque]
    pub open spec fn check_arity(self, expected: usize, found: usize, span: Span) -> Ck {
        if found != expected {
            let s1 = self.fail(Problem::ArgCount { expected, found }, span);
            s1
        } else {
            self
        }
    }

    /// A condition must be `bool`.
    #[verifier::opaque]
    pub open spec fn require_bool(self, ty: Ty, span: Span) -> Ck {
        if !self.is_err(ty) && ty != crate::ty::BOOL_TY {
            let found = self.show(ty);
            let s1 = self.fail(Problem::NonBoolCondition { found }, span);
            s1
        } else {
            self
        }
    }

    /// Binds the names of an irrefutable pattern.
    pub open spec fn bind_pattern(self, p: Pattern, ty: Ty) -> Ck
        decreases p,
    {
        match p.kind {
            PatternKind::Binding(name) => {
                let s1 = self.bind(name.name, name.span, ty).0;
                s1
            },
            PatternKind::Wildcard => self,
            PatternKind::Tuple { elems, rest } => if rest is None {
                match self.kind(ty) {
                    TyKind::Tuple(ts) => if ts.count() == elems.count() {
                        let s2 = self.bind_patterns(elems, Some(ts));
                        s2
                    } else {
                        let s3 = self.bind_patterns(elems, None);
                        s3
                    },
                    _ => self.bind_patterns(elems, None),
                }
            } else {
                let s4 = self.say("this binding pattern is not yet supported"@, p.span);
                s4
            },
            _ => self.say("this binding pattern is not yet supported"@, p.span),
        }
    }

    /// Binds patterns to the types of a tuple, to the error type where there is
    /// none.
    pub open spec fn bind_patterns(self, l: List<Pattern>, tys: Option<List<Ty>>) -> Ck
        decreases l,
    {
        match l {
            List::Nil => self,
            List::Cons(p, t) => match tys {
                Some(List::Cons(ty, rest)) => {
                    let s1 = self.bind_pattern(*p, *ty);
                    let s2 = s1.bind_patterns(*t, Some(*rest));
                    s2
                },
                _ => {
                    let s3 = self.bind_pattern(*p, ERROR_TY);
                    let s4 = s3.bind_patterns(*t, None);
                    s4
                },
            },
        }
    }

    /// The variant that a type or unit pattern tests for.
    #[verifier::opaque]
    pub open spec fn pattern_test_ty(self, p: Pattern) -> (Ck, Option<Ty>) {
        match p.kind {
            PatternKind::TypeBinding { ty, .. } => {
                let env = self.env();
                let (s1, t) = self.lower(ty, env);
                (s1, Some(t))
            },
            PatternKind::UnitPath(path) => match self.p.type_named(self.cur_module, path.name.name) {
                Some(def) => {
                    let (s2, t) = self.mk_named(def, List::Nil);
                    (s2, Some(t))
                },
                None => (self, None),
            },
            _ => (self, None),
        }
    }

    /// The pattern matches every value of type `sty`.
    pub open spec fn is_irrefutable(self, p: Pattern, sty: Ty) -> (Ck, bool)
        decreases p,
    {
        match p.kind {
            PatternKind::Wildcard | PatternKind::Binding(_) => (self, true),
            PatternKind::Tuple { elems, rest } => match self.kind(sty) {
                TyKind::Tuple(ts) => if rest is None && ts.count() == elems.count() {
                    self.all_irrefutable(elems, ts)
                } else {
                    (self, false)
                },
                _ => (self, false),
            },
            PatternKind::TypeBinding { .. } => if self.is_union(sty) || self.is_dynamic(sty) {
                (self, false)
            } else {
                let (s1, t) = self.pattern_test_ty(p);
                (s1, t == Some(sty))
            },
            _ => (self, false),
        }
    }

    pub open spec fn all_irrefutable(self, l: List<Pattern>, tys: List<Ty>) -> (Ck, bool)
        decreases l,
    {
        match l {
            List::Nil => (self, true),
            List::Cons(p, t) => match tys {
                List::Nil => (self, true),
                List::Cons(ty, rest) => {
                    let (s1, h) = self.is_irrefutable(*p, *ty);
                    if h {
                        s1.all_irrefutable(*t, *rest)
                    } else {
                        (s1, false)
                    }
                },
            },
        }
    }

    /// Some arm without a guard matches every value of type `sty`.
    #[verifier::opaque]
    pub open spec fn has_catch_all(self, arms: List<MatchArm>, sty: Ty) -> (Ck, bool)
        decreases arms,
    {
        match arms {
            List::Nil => (self, false),
            List::Cons(a, t) => if a.guard is None {
                let (s1, all) = self.is_irrefutable(a.pattern, sty);
                if all {
                    (s1, true)
                } else {
                    s1.has_catch_all(*t, sty)
                }
            } else {
                self.has_catch_all(*t, sty)
            },
        }
    }

    /// The variants that the arms without a guard cover.
    #[verifier::opaque]
    pub open spec fn covered(self, arms: List<MatchArm>) -> (Ck, List<Ty>)
        decreases arms,
    {
        match arms {
            List::Nil => (self, List::Nil),
            List::Cons(a, t) => if a.guard is None {
                let (s1, test) = self.pattern_test_ty(a.pattern);
                let (s2, rest) = s1.covered(*t);
                (s2, match test {
                    Some(ty) => List::Cons(Box::new(ty), Box::new(rest)),
                    None => if null_pattern(a.pattern) {
                        List::Cons(Box::new(NULL_TY), Box::new(rest))
                    } else {
                        rest
                    },
                })
            } else {
                self.covered(*t)
            },
        }
    }

    /// A `match` must have a catch-all arm or cover every variant of a union.
    #[verifier::opaque]
    pub open spec fn check_exhaustive(self, sty: Ty, arms: List<MatchArm>, span: Span) -> Ck {
        let (s1, all) = self.has_catch_all(arms, sty);
        if all {
            s1
        } else {
            match s1.kind(sty) {
                TyKind::Union(variants) => {
                    let (s2, seen) = s1.covered(arms);
                    let missing = crate::ty::without(variants, seen);
                    if !(missing is Nil) {
                        let names = s2.show_all(missing);
                        let s3 = s2.fail(Problem::NonExhaustiveMatch { missing: names }, span);
                        s3
                    } else {
                        s2
                    }
                },
                _ => s1.say("non-exhaustive match: add a `_` arm"@, span),
            }
        }
    }

    /// What a condition of the form `name is T` says of `name`.
    #[verifier::opaque]
    pub open spec fn narrow_facts(self, cond: Expr) -> (Ck, Option<Facts>) {
        match cond.kind {
            ExprKind::Cast { op, expr, ty, .. } => match expr.kind {
                ExprKind::Ident(name) => match self.lookup(name.name) {
                    Some(b) => if op != CastOp::Is {
                        (self, None)
                    } else {
                        let env = self.env();
                        let (s1, t) = self.lower(*ty, env);
                        let base = match crate::check::local_ty_in(s1.narrowings, b.local) {
                            Some(x) => x,
                            None => b.ty,
                        };
                        let left = crate::ty::without(s1.variants(base), s1.variants(t));
                        if left is Nil {
                            (s1, Some(Facts { local: b.local, then_ty: t, else_ty: base }))
                        } else {
                            let (s2, else_ty) = s1.mk_union(left);
                            (s2, Some(Facts { local: b.local, then_ty: t, else_ty }))
                        }
                    },
                    None => (self, None),
                },
                _ => (self, None),
            },
            _ => (self, None),
        }
    }

    #[verifier::opaque]
    pub open spec fn require_bounds(self, bounds: List<Bound>, arg: Ty, span: Span) -> Ck
        decreases bounds,
    {
        match bounds {
            List::Nil => self,
            List::Cons(b, t) => {
                let iface = b.iface;
                let (s1, ok) = self.type_implements(arg, iface);
                let s2 = if !ok {
                    let an = s1.show(arg);
                    let inm = s1.name(s1.p.def_of(iface).name);
                    let s3 = s1.say(
                        "type `"@ + an + "` does not implement `"@ + inm + "`, required by this bound"@,
                        span,
                    );
                    s3
                } else {
                    s1
                };
                let s4 = s2.require_bounds(*t, arg, span);
                s4
            },
        }
    }

    /// Every type argument satisfies the bounds of its parameter.
    #[verifier::opaque]
    pub open spec fn check_bounds(self, gens: List<DefId>, args: List<Ty>, span: Span) -> Ck
        decreases gens,
    {
        match gens {
            List::Nil => self,
            List::Cons(g, gt) => match args {
                List::Nil => self,
                List::Cons(a, at) => {
                    let s1 = if !self.is_err(*a) {
                        let (s2, bounds) = self.bound_ifaces(*g);
                        let s3 = s2.require_bounds(bounds, *a, span);
                        s3
                    } else {
                        self
                    };
                    let s4 = s1.check_bounds(*gt, *at, span);
                    s4
                },
            },
        }
    }

    /// The type argument of each of `gens`; one that nothing decides is reported.
    #[verifier::opaque]
    pub open spec fn inferred_args(
        self,
        gens: List<DefId>,
        m: List<Solved>,
        owner: Symbol,
        span: Span,
    ) -> (Ck, List<Ty>)
        decreases gens,
    {
        match gens {
            List::Nil => (self, List::Nil),
            List::Cons(g, t) => {
                let (s1, h) = match crate::solve::solution(m, *g) {
                    Some(ty) => (self, ty),
                    None => {
                        let s2 = self.report_unsolved(*g, owner, span);
                        (s2, ERROR_TY)
                    },
                };
                let (s3, rest) = s1.inferred_args(*t, m, owner, span);
                (s3, List::Cons(Box::new(h), Box::new(rest)))
            },
        }
    }

    #[verifier::opaque]
    pub open spec fn report_unsolved(self, g: DefId, owner: Symbol, span: Span) -> Ck {
        let gn = self.name(self.p.def_of(g).name);
        let on = self.name(owner);
        let s1 = self.say("cannot infer generic argument `"@ + gn + "` for `"@ + on + "`; annotate it"@, span);
        s1
    }

    /// Checked arguments have the types `tys` with `m` put in; what is left of
    /// `tys`.
    #[verifier::opaque]
    pub open spec fn expect_args(self, args: List<Expr>, tys: List<Ty>, m: List<Solved>) -> (Ck, List<Ty>)
        decreases args,
    {
        match args {
            List::Nil => (self, tys),
            List::Cons(a, at) => match tys {
                List::Nil => (self, List::Nil),
                List::Cons(ty, tt) => {
                    let (s1, want) = self.subst(*ty, m);
                    let s2 = s1.expect(s1.ty_at(a.span), want, a.span);
                    s2.expect_args(*at, *tt, m)
                },
            },
        }
    }

    /// Sorts the variants `vs`: those of the return type fail, those that convert
    /// into it fail converted, and the rest is the value. What `branch` calls a
    /// residual must fail.
    #[verifier::opaque]
    pub open spec fn split_variants(self, vs: List<Ty>, is_try: bool, q_span: Span, acc: Split) -> (Ck, Split)
        decreases vs,
    {
        match vs {
            List::Nil => (self, acc),
            List::Cons(v, rest) => {
                let (v, rest) = (*v, *rest);
                let into = self.variants(self.ret_ty);
                if crate::ty::has_ty(into, v) {
                    self.split_variants(
                        rest,
                        is_try,
                        q_span,
                        Split { failed: true, conversions: acc.conversions, successes: acc.successes },
                    )
                } else {
                    let (s1, conv) = self.find_residual_conversion(v, into);
                    match conv {
                        Some(c) => s1.split_variants(
                            rest,
                            is_try,
                            q_span,
                            Split {
                                failed: acc.failed,
                                conversions: acc.conversions.snoc(c),
                                successes: acc.successes,
                            },
                        ),
                        None => if is_try {
                            let vn = s1.show(v);
                            let rn = s1.show(s1.ret_ty);
                            let s2 = s1.say(
                                "residual variant `"@
                                    + vn
                                    + "` from `branch` cannot propagate into `"@
                                    + rn
                                    + "`; add a `FromResidual<"@
                                    + vn
                                    + ">` impl on a variant of the return type"@,
                                q_span,
                            );
                            s2.split_variants(rest, is_try, q_span, acc)
                        } else {
                            s1.split_variants(
                                rest,
                                is_try,
                                q_span,
                                Split {
                                    failed: acc.failed,
                                    conversions: acc.conversions,
                                    successes: acc.successes.snoc(v),
                                },
                            )
                        },
                    }
                }
            },
        }
    }

    /// The value of `operand?` where the operand has type `raw`.
    #[verifier::opaque]
    pub open spec fn try_value(self, raw: Ty, q_span: Span) -> (Ck, Ty) {
        if self.is_err(raw) {
            (self, ERROR_TY)
        } else {
            if self.is_nullable_ptr(raw) {
                let s1 = self.say(
                    "`?` on a nullable pointer `*T | null` is not supported; check it explicitly with `if p is null { … }` (`docs/19` §2)"@,
                    q_span,
                );
                (s1, ERROR_TY)
            } else {
                if self.is_union(raw) || self.is_dynamic(raw) {
                    let (s2, split) = self.split_variants(
                        self.variants(raw),
                        false,
                        q_span,
                        Split { failed: false, conversions: List::Nil, successes: List::Nil },
                    );
                    s2.try_result(raw, None, split, q_span)
                } else {
                    let (s3, found) = self.find_try_impl(raw);
                    match found {
                        Some(branch) => {
                            let (s4, split) = s3.split_variants(
                                s3.variants(branch.residual),
                                true,
                                q_span,
                                Split {
                                    failed: false,
                                    conversions: List::Nil,
                                    successes: s3.variants(branch.output),
                                },
                            );
                            s4.try_result(raw, Some(branch), split, q_span)
                        },
                        None => {
                            let nm = s3.show(raw);
                            let s5 = s3.say(
                                "nothing to propagate here: `"@
                                    + nm
                                    + "` is not a union and has no `Try` impl; remove the `?`"@,
                                q_span,
                            );
                            (s5, ERROR_TY)
                        },
                    }
                }
            }
        }
    }

    #[verifier::opaque]
    pub open spec fn try_result(
        self,
        raw: Ty,
        branch: Option<crate::hir::TryBranch>,
        split: Split,
        q_span: Span,
    ) -> (Ck, Ty) {
        if !split.failed && split.conversions is Nil {
            let s1 = self.say("nothing to propagate here; remove the `?`"@, q_span);
            (s1, raw)
        } else {
            if split.successes is Nil {
                let s2 = self.say("this expression always returns; use a `match` instead"@, q_span);
                (s2, ERROR_TY)
            } else {
                let s3 = Ck { p_try: branch, ..self };
                let s4 = Ck {
                    p_residuals: if split.conversions is Nil { None } else { Some(split.conversions) },
                    ..s3
                };
                s4.mk_union(split.successes)
            }
        }
    }

    /// `.hash()` of a value that the language hashes itself.
    #[verifier::opaque]
    pub open spec fn check_builtin_hash(self, rty: Ty, callee_span: Span) -> (Ck, Option<Ty>) {
        let iface = self.p.well_known(T_HASH);
        if !self.is_hashable(rty) || iface == DefId(0) {
            (self, None)
        } else {
            match self.p.method_named(DefKind::InterfaceMethod, iface, HASH) {
                Some(method) => {
                    let s1 = self.record_res(callee_span, ValueRes::Method(method), ERROR_TY);
                    (s1, Some(U64_TY))
                },
                None => (self, None),
            }
        }
    }

    /// A `Shared`, `Sender` or `Receiver` handle.
    #[verifier::opaque]
    pub open spec fn is_sync_handle(self, ty: Ty) -> bool {
        match self.named_def(ty) {
            Some(d) => {
                d == self.p.well_known(T_SHARED)
                    || d == self.p.well_known(T_SENDER)
                    || d == self.p.well_known(T_RECEIVER)
            },
            None => false,
        }
    }

    /// `.clone()` of a value that the language clones itself; other types clone
    /// through their own method.
    #[verifier::opaque]
    pub open spec fn check_builtin_clone(self, rty: Ty, name_span: Span) -> (Ck, Option<Ty>) {
        if self.is_immutable(rty) || self.is_sync_handle(rty) {
            let s1 = Ck { p_clone: Some(CloneKind::Identity), ..self };
            (s1, Some(rty))
        } else {
            match self.list_elem(rty) {
                Some(elem) => self.clone_list(rty, elem, name_span),
                None => match self.map_kv(rty) {
                    Some((kt, vt)) => self.clone_map(rty, kt, vt, name_span),
                    None => (self, None),
                },
            }
        }
    }

    #[verifier::opaque]
    pub open spec fn clone_list(self, rty: Ty, elem: Ty, name_span: Span) -> (Ck, Option<Ty>) {
        if self.is_immutable(elem) {
            let s1 = Ck { p_clone: Some(CloneKind::ListShallow), ..self };
            (s1, Some(rty))
        } else {
            let clone = self.p.well_known(T_CLONE);
            let (s2, ok) = if clone != DefId(0) {
                self.type_implements(elem, clone)
            } else {
                (self, false)
            };
            if ok {
                let s3 = Ck { p_clone: Some(CloneKind::ListDeep), ..s2 };
                (s3, Some(rty))
            } else {
                let en = s2.show(elem);
                let s4 = s2.say(
                    "cannot `clone` a `List` of `"@ + en + "` — its element type does not implement `Clone`"@,
                    name_span,
                );
                (s4, Some(ERROR_TY))
            }
        }
    }

    #[verifier::opaque]
    pub open spec fn clone_map(self, rty: Ty, kt: Ty, vt: Ty, name_span: Span) -> (Ck, Option<Ty>) {
        if self.is_immutable(kt) && self.is_immutable(vt) {
            let s1 = Ck { p_clone: Some(CloneKind::MapShallow), ..self };
            (s1, Some(rty))
        } else {
            let clone = self.p.well_known(T_CLONE);
            let (s2, ok) = if self.is_immutable(kt) && clone != DefId(0) {
                self.type_implements(vt, clone)
            } else {
                (self, false)
            };
            if ok {
                let s3 = Ck { p_clone: Some(CloneKind::MapDeep), ..s2 };
                (s3, Some(rty))
            } else {
                let kn = s2.show(kt);
                let vn = s2.show(vt);
                let s4 = s2.say(
                    "cannot `clone` a `Map<"@
                        + kn
                        + ", "@
                        + vn
                        + ">` — key must be immutable and value must implement `Clone`"@,
                    name_span,
                );
                (s4, Some(ERROR_TY))
            }
        }
    }

    #[verifier::opaque]
    pub open spec fn is_c_scalar(self, ty: Ty) -> bool {
        match self.kind(ty) {
            TyKind::Int(_) | TyKind::Float(_) | TyKind::Bool | TyKind::Char | TyKind::Ptr(_) => true,
            TyKind::Func { is_c, .. } => is_c,
            _ => self.is_nullable_ptr(ty),
        }
    }

    /// A value that C can take after the fixed arguments: a scalar, or a
    /// `@Transparent` wrapper of one.
    #[verifier::opaque]
    pub open spec fn is_variadic_arg(self, ty: Ty) -> bool {
        if self.is_c_scalar(ty) || self.is_err(ty) {
            true
        } else {
            match self.named_def(ty) {
                Some(d) => match wrapped_ty(self.structs, d) {
                    Some(inner) => crate::check::has_attr(
                        self.p.def_of(d).attrs,
                        T_TRANSPARENT,
                    ) && self.is_c_scalar(inner),
                    None => false,
                },
                None => false,
            }
        }
    }

    #[verifier::opaque]
    pub open spec fn require_variadic(self, ty: Ty, span: Span) -> Ck {
        if !self.is_variadic_arg(ty) {
            let t = self.show(ty);
            let s1 = self.say("a value of type `"@ + t + "` cannot be passed as a variadic argument"@, span);
            s1
        } else {
            self
        }
    }
}

impl<'a> Cx<'a> {
    /// The type of an integer literal: its suffix decides, then the expected type
    /// if it is an integer type, and `i64` otherwise. It must fit.
    pub fn check_int_lit(&mut self, lit: &IntLit, expected: Option<Ty>, span: Span) -> (r: Ty)
        ensures
            final(self).answers(r, old(self).view().check_int_lit(*lit, expected, span)),
            old(self).view().grows_to(final(self).view()),
    {
        proof {
            reveal(Ck::check_int_lit);
        }
        let ty = match lit.suffix {
            Some(suffix) => match self.int_named(suffix) {
                Some(t) => t,
                None => {
                    let n = self.name(suffix);
                    self.say_text("`".to_owned().concat(n.as_str()).concat("` is not a valid integer suffix"), span);
                    ERROR_TY
                },
            },
            None => match expected {
                Some(x) => if self.is_integer(x) {
                    x
                } else {
                    I64_TY
                },
                None => I64_TY,
            },
        };
        self.check_int_range(lit, ty, span);
        ty
    }

    pub fn check_int_range(&mut self, lit: &IntLit, ty: Ty, span: Span)
        ensures
            final(self).stands(old(self).view().check_int_range(*lit, ty, span)),
            old(self).view().grows_to(final(self).view()),
    {
        proof {
            reveal(Ck::check_int_range);
        }
        match self.kind(ty) {
            TyKind::Int(it) => match self.literal(lit, u128::MAX) {
                Some(v) => if v > int_max(it) {
                    let d = self.digits(lit.raw);
                    self.say_text(
                        "literal `".to_owned().concat(d.as_str()).concat(
                            "` does not fit in `",
                        ).concat(it.name()).concat("`"),
                        span,
                    );
                },
                None => {},
            },
            _ => {},
        }
    }

    pub fn check_float_lit(&self, lit: &FloatLit, expected: Option<Ty>) -> (r: Ty)
        ensures
            r == self.view().check_float_lit(*lit, expected),
    {
        proof {
            reveal(Ck::check_float_lit);
        }
        match lit.suffix {
            Some(suffix) => match self.float_named(suffix) {
                Some(t) => t,
                None => ERROR_TY,
            },
            None => match expected {
                Some(x) => match self.kind(x) {
                    TyKind::Float(_) => x,
                    _ => F64_TY,
                },
                None => F64_TY,
            },
        }
    }

    /// The type of a name: a local, as far as flow narrowing has narrowed it, or a
    /// module-level value.
    pub fn check_ident(&mut self, name: Symbol, span: Span) -> (r: Ty)
        ensures
            final(self).answers(r, old(self).view().check_ident(name, span)),
            old(self).view().grows_to(final(self).view()),
    {
        proof {
            reveal(Ck::check_ident);
        }
        match self.lookup(name) {
            Some(b) => {
                self.record_capture(b.local, b.ty);
                let result = match find_local_ty(self.narrowings(), b.local) {
                    Some(t) => t,
                    None => b.ty,
                };
                self.record_res(span, ValueRes::Local(b.local), result);
                result
            },
            None => match self.program().resolve_value_in(self.cur_module(), name) {
                Some(def) => match self.program().builtin_of_def(def) {
                    Some(b) => {
                        let t = self.builtin_ty(b);
                        self.record_res(span, ValueRes::Builtin(b), t);
                        t
                    },
                    None => {
                        let res = self.value_res(def);
                        let t = self.value_def_ty(def);
                        self.record_res(span, res, t);
                        t
                    },
                },
                None => {
                    let n = self.name(name);
                    self.emit(SemaErrorKind::UnknownValue { name: n }, span);
                    ERROR_TY
                },
            },
        }
    }

    /// Checks a name that stands for itself outside an expression, and leaves its
    /// node.
    pub fn check_name_use(&mut self, name: Symbol, span: Span) -> (r: Ty)
        ensures
            final(self).answers(r, old(self).view().check_name_use(name, span)),
            old(self).view().grows_to(final(self).view()),
    {
        proof {
            reveal(Ck::check_name_use);
        }
        let t = self.check_ident(name, span);
        match self.resolution(span) {
            Some(res) => self.record_res(span, res, t),
            None => {},
        }
        t
    }

    pub fn check_arity(&mut self, expected: usize, found: usize, span: Span)
        ensures
            final(self).stands(old(self).view().check_arity(expected, found, span)),
            old(self).view().grows_to(final(self).view()),
    {
        proof {
            reveal(Ck::check_arity);
        }
        if found != expected {
            self.emit_count(expected, found, span);
        }
    }

    /// A condition must be `bool`.
    pub fn require_bool(&mut self, ty: Ty, span: Span)
        ensures
            final(self).stands(old(self).view().require_bool(ty, span)),
            old(self).view().grows_to(final(self).view()),
    {
        proof {
            reveal(Ck::require_bool);
        }
        if !self.is_err(ty) && ty != crate::ty::BOOL_TY {
            let found = self.display(ty);
            self.emit(SemaErrorKind::NonBoolCondition { found }, span);
        }
    }

    /// Binds the names of an irrefutable pattern.
    pub fn bind_pattern(&mut self, p: &Pattern, ty: Ty)
        ensures
            final(self).stands(old(self).view().bind_pattern(*p, ty)),
            old(self).view().grows_to(final(self).view()),
        decreases p,
    {
        match &p.kind {
            PatternKind::Binding(name) => {
                self.bind(name.name, name.span, ty);
            },
            PatternKind::Wildcard => {},
            PatternKind::Tuple { elems, rest } => {
                if rest.is_none() {
                    match self.kind(ty) {
                        TyKind::Tuple(ts) => if ts.len() == elems.len() {
                            self.bind_patterns(elems, Some(ts));
                        } else {
                            self.bind_patterns(elems, None);
                        },
                        _ => self.bind_patterns(elems, None),
                    }
                } else {
                    self.say("this binding pattern is not yet supported", p.span);
                }
            },
            _ => self.say("this binding pattern is not yet supported", p.span),
        }
    }

    /// Binds patterns to the types of a tuple, to the error type where there is
    /// none.
    pub fn bind_patterns(&mut self, l: &List<Pattern>, tys: Option<List<Ty>>)
        ensures
            final(self).stands(old(self).view().bind_patterns(*l, tys)),
            old(self).view().grows_to(final(self).view()),
        decreases l,
    {
        match l {
            List::Nil => {},
            List::Cons(p, t) => match tys {
                Some(List::Cons(ty, rest)) => {
                    self.bind_pattern(&**p, *ty);
                    self.bind_patterns(&**t, Some(*rest));
                },
                _ => {
                    self.bind_pattern(&**p, ERROR_TY);
                    self.bind_patterns(&**t, None);
                },
            },
        }
    }

    /// The variant that a type or unit pattern tests for.
    pub fn pattern_test_ty(&mut self, p: &Pattern) -> (r: Option<Ty>)
        ensures
            final(self).answers(r, old(self).view().pattern_test_ty(*p)),
            old(self).view().grows_to(final(self).view()),
    {
        proof {
            reveal(Ck::pattern_test_ty);
        }
        match &p.kind {
            PatternKind::TypeBinding { ty, .. } => {
                let env = self.local_env();
                let t = self.lower_ty(ty, &env);
                Some(t)
            },
            PatternKind::UnitPath(path) => match self.program().resolve_type_in(self.cur_module(), path.name.name) {
                Some(def) => {
                    let t = self.mk_named(def, List::Nil);
                    Some(t)
                },
                None => None,
            },
            _ => None,
        }
    }

    /// The pattern matches every value of type `sty`.
    pub fn is_irrefutable(&mut self, p: &Pattern, sty: Ty) -> (r: bool)
        ensures
            final(self).answers(r, old(self).view().is_irrefutable(*p, sty)),
            old(self).view().grows_to(final(self).view()),
        decreases p,
    {
        match &p.kind {
            PatternKind::Wildcard | PatternKind::Binding(_) => true,
            PatternKind::Tuple { elems, rest } => match self.kind(sty) {
                TyKind::Tuple(ts) => if rest.is_none() && ts.len() == elems.len() {
                    self.all_irrefutable(elems, ts)
                } else {
                    false
                },
                _ => false,
            },
            PatternKind::TypeBinding { .. } => {
                if self.is_union(sty) || self.is_dynamic(sty) {
                    return false;
                }
                let t = self.pattern_test_ty(p);
                t == Some(sty)
            },
            _ => false,
        }
    }

    pub fn all_irrefutable(&mut self, l: &List<Pattern>, tys: List<Ty>) -> (r: bool)
        ensures
            final(self).answers(r, old(self).view().all_irrefutable(*l, tys)),
            old(self).view().grows_to(final(self).view()),
        decreases l,
    {
        match l {
            List::Nil => true,
            List::Cons(p, t) => match tys {
                List::Nil => true,
                List::Cons(ty, rest) => {
                    let h = self.is_irrefutable(&**p, *ty);
                    if h {
                        self.all_irrefutable(&**t, *rest)
                    } else {
                        false
                    }
                },
            },
        }
    }

    /// Some arm without a guard matches every value of type `sty`.
    pub fn has_catch_all(&mut self, arms: &List<MatchArm>, sty: Ty) -> (r: bool)
        ensures
            final(self).answers(r, old(self).view().has_catch_all(*arms, sty)),
            old(self).view().grows_to(final(self).view()),
        decreases arms,
    {
        proof {
            reveal(Ck::has_catch_all);
        }
        match arms {
            List::Nil => false,
            List::Cons(a, t) => if a.guard.is_none() {
                let all = self.is_irrefutable(&a.pattern, sty);
                if all {
                    true
                } else {
                    self.has_catch_all(&**t, sty)
                }
            } else {
                self.has_catch_all(&**t, sty)
            },
        }
    }

    /// The variants that the arms without a guard cover.
    pub fn covered(&mut self, arms: &List<MatchArm>) -> (r: List<Ty>)
        ensures
            final(self).answers(r, old(self).view().covered(*arms)),
            old(self).view().grows_to(final(self).view()),
        decreases arms,
    {
        proof {
            reveal(Ck::covered);
        }
        match arms {
            List::Nil => List::Nil,
            List::Cons(a, t) => if a.guard.is_none() {
                let test = self.pattern_test_ty(&a.pattern);
                let rest = self.covered(&**t);
                match test {
                    Some(ty) => List::Cons(Box::new(ty), Box::new(rest)),
                    None => if is_null_pattern(&a.pattern) {
                        List::Cons(Box::new(NULL_TY), Box::new(rest))
                    } else {
                        rest
                    },
                }
            } else {
                self.covered(&**t)
            },
        }
    }

    /// A `match` must have a catch-all arm or cover every variant of a union.
    pub fn check_exhaustive(&mut self, sty: Ty, arms: &List<MatchArm>, span: Span)
        ensures
            final(self).stands(old(self).view().check_exhaustive(sty, *arms, span)),
            old(self).view().grows_to(final(self).view()),
    {
        proof {
            reveal(Ck::check_exhaustive);
        }
        let all = self.has_catch_all(arms, sty);
        if all {
            return;
        }
        match self.kind(sty) {
            TyKind::Union(variants) => {
                let seen = self.covered(arms);
                let missing = difference(&variants, &seen);
                if !missing.is_empty() {
                    let names = self.show_all(&missing);
                    self.emit(SemaErrorKind::NonExhaustiveMatch { missing: names }, span);
                }
            },
            _ => self.say("non-exhaustive match: add a `_` arm", span),
        }
    }

    /// What a condition of the form `name is T` says of `name`.
    pub fn narrow_facts(&mut self, cond: &Expr) -> (r: Option<Facts>)
        ensures
            final(self).answers(r, old(self).view().narrow_facts(*cond)),
            old(self).view().grows_to(final(self).view()),
    {
        proof {
            reveal(Ck::narrow_facts);
        }
        match &cond.kind {
            ExprKind::Cast { op, expr, ty, .. } => match &expr.kind {
                ExprKind::Ident(name) => match self.lookup(name.name) {
                    Some(b) => {
                        if *op != CastOp::Is {
                            return None;
                        }
                        let env = self.local_env();
                        let t = self.lower_ty(&**ty, &env);
                        let base = match find_local_ty(self.narrowings(), b.local) {
                            Some(x) => x,
                            None => b.ty,
                        };
                        let left = difference(&self.variants(base), &self.variants(t));
                        if left.is_empty() {
                            return Some(Facts { local: b.local, then_ty: t, else_ty: base });
                        }
                        let else_ty = self.mk_union(left);
                        Some(Facts { local: b.local, then_ty: t, else_ty })
                    },
                    None => None,
                },
                _ => None,
            },
            _ => None,
        }
    }

    pub fn require_bounds(&mut self, bounds: List<Bound>, arg: Ty, span: Span)
        ensures
            final(self).stands(old(self).view().require_bounds(bounds, arg, span)),
            old(self).view().grows_to(final(self).view()),
        decreases bounds,
    {
        proof {
            reveal(Ck::require_bounds);
        }
        match bounds {
            List::Nil => {},
            List::Cons(b, t) => {
                let iface = b.iface;
                let ok = self.type_implements(arg, iface);
                if !ok {
                    let an = self.display(arg);
                    let inm = self.name(self.program().def(iface).name);
                    self.say_text(
                        "type `".to_owned().concat(an.as_str()).concat("` does not implement `").concat(inm.as_str()).concat(
                            "`, required by this bound",
                        ),
                        span,
                    );
                }
                self.require_bounds(*t, arg, span);
            },
        }
    }

    /// Every type argument satisfies the bounds of its parameter.
    pub fn check_bounds(&mut self, gens: &List<DefId>, args: &List<Ty>, span: Span)
        ensures
            final(self).stands(old(self).view().check_bounds(*gens, *args, span)),
            old(self).view().grows_to(final(self).view()),
        decreases gens,
    {
        proof {
            reveal(Ck::check_bounds);
        }
        match gens {
            List::Nil => {},
            List::Cons(g, gt) => match args {
                List::Nil => {},
                List::Cons(a, at) => {
                    if !self.is_err(**a) {
                        let bounds = self.bound_ifaces(**g);
                        self.require_bounds(bounds, **a, span);
                    }
                    self.check_bounds(&**gt, &**at, span);
                },
            },
        }
    }

    /// The type argument of each of `gens`; one that nothing decides is reported.
    pub fn inferred_args(&mut self, gens: &List<DefId>, m: &List<Solved>, owner: Symbol, span: Span) -> (r: List<Ty>)
        ensures
            final(self).answers(r, old(self).view().inferred_args(*gens, *m, owner, span)),
            old(self).view().grows_to(final(self).view()),
        decreases gens,
    {
        proof {
            reveal(Ck::inferred_args);
        }
        match gens {
            List::Nil => List::Nil,
            List::Cons(g, t) => {
                let h = match find_solution(m, **g) {
                    Some(ty) => ty,
                    None => {
                        self.report_unsolved(**g, owner, span);
                        ERROR_TY
                    },
                };
                let rest = self.inferred_args(&**t, m, owner, span);
                List::Cons(Box::new(h), Box::new(rest))
            },
        }
    }

    pub fn report_unsolved(&mut self, g: DefId, owner: Symbol, span: Span)
        ensures
            final(self).stands(old(self).view().report_unsolved(g, owner, span)),
            old(self).view().grows_to(final(self).view()),
    {
        proof {
            reveal(Ck::report_unsolved);
        }
        let gn = self.name(self.program().def(g).name);
        let on = self.name(owner);
        self.say_text(
            "cannot infer generic argument `".to_owned().concat(gn.as_str()).concat("` for `").concat(on.as_str()).concat(
                "`; annotate it",
            ),
            span,
        );
    }

    /// Checked arguments have the types `tys` with `m` put in; what is left of
    /// `tys`.
    pub fn expect_args(&mut self, args: &List<Expr>, tys: &List<Ty>, m: &List<Solved>) -> (r: List<Ty>)
        ensures
            final(self).answers(r, old(self).view().expect_args(*args, *tys, *m)),
            old(self).view().grows_to(final(self).view()),
        decreases args,
    {
        proof {
            reveal(Ck::expect_args);
        }
        match args {
            List::Nil => dup(tys),
            List::Cons(a, at) => match tys {
                List::Nil => List::Nil,
                List::Cons(ty, tt) => {
                    let want = self.subst_ty(**ty, m);
                    self.expect(self.ty_at(a.span), want, a.span);
                    self.expect_args(&**at, &**tt, m)
                },
            },
        }
    }

    /// Sorts the variants `vs`: those of the return type fail, those that convert
    /// into it fail converted, and the rest is the value. What `branch` calls a
    /// residual must fail.
    pub fn split_variants(&mut self, vs: List<Ty>, is_try: bool, q_span: Span, acc: Split) -> (r: Split)
        ensures
            final(self).answers(r, old(self).view().split_variants(vs, is_try, q_span, acc)),
            old(self).view().grows_to(final(self).view()),
        decreases vs,
    {
        proof {
            reveal(Ck::split_variants);
        }
        let (v, rest) = match vs {
            List::Nil => {
                return acc;
            },
            List::Cons(v, rest) => (*v, *rest),
        };
        let into = self.variants(self.ret_ty());
        if contains_ty(&into, v) {
            return self.split_variants(
                rest,
                is_try,
                q_span,
                Split { failed: true, conversions: acc.conversions, successes: acc.successes },
            );
        }
        let conv = self.find_residual_conversion(v, &into);
        match conv {
            Some(c) => self.split_variants(
                rest,
                is_try,
                q_span,
                Split { failed: acc.failed, conversions: acc.conversions.push_back(c), successes: acc.successes },
            ),
            None => if is_try {
                let vn = self.display(v);
                let rn = self.display(self.ret_ty());
                self.say_text(
                    "residual variant `".to_owned().concat(vn.as_str()).concat(
                        "` from `branch` cannot propagate into `",
                    ).concat(rn.as_str()).concat("`; add a `FromResidual<").concat(vn.as_str()).concat(
                        ">` impl on a variant of the return type",
                    ),
                    q_span,
                );
                self.split_variants(rest, is_try, q_span, acc)
            } else {
                self.split_variants(
                    rest,
                    is_try,
                    q_span,
                    Split { failed: acc.failed, conversions: acc.conversions, successes: acc.successes.push_back(v) },
                )
            },
        }
    }

    /// The value of `operand?` where the operand has type `raw`.
    pub fn try_value(&mut self, raw: Ty, q_span: Span) -> (r: Ty)
        ensures
            final(self).answers(r, old(self).view().try_value(raw, q_span)),
            old(self).view().grows_to(final(self).view()),
    {
        proof {
            reveal(Ck::try_value);
        }
        if self.is_err(raw) {
            return ERROR_TY;
        }
        if self.is_npo_union(raw) {
            self.say(
                "`?` on a nullable pointer `*T | null` is not supported; check it explicitly with `if p is null { … }` (`docs/19` §2)",
                q_span,
            );
            return ERROR_TY;
        }
        if self.is_union(raw) || self.is_dynamic(raw) {
            let split = self.split_variants(
                self.variants(raw),
                false,
                q_span,
                Split { failed: false, conversions: List::Nil, successes: List::Nil },
            );
            return self.try_result(raw, None, split, q_span);
        }
        let found = self.find_try_impl(raw);
        match found {
            Some(branch) => {
                let split = self.split_variants(
                    self.variants(branch.residual),
                    true,
                    q_span,
                    Split { failed: false, conversions: List::Nil, successes: self.variants(branch.output) },
                );
                self.try_result(raw, Some(branch), split, q_span)
            },
            None => {
                let nm = self.display(raw);
                self.say_text(
                    "nothing to propagate here: `".to_owned().concat(nm.as_str()).concat(
                        "` is not a union and has no `Try` impl; remove the `?`",
                    ),
                    q_span,
                );
                ERROR_TY
            },
        }
    }

    pub fn try_result(
        &mut self,
        raw: Ty,
        branch: Option<crate::hir::TryBranch>,
        split: Split,
        q_span: Span,
    ) -> (r: Ty)
        ensures
            final(self).answers(r, old(self).view().try_result(raw, branch, split, q_span)),
            old(self).view().grows_to(final(self).view()),
    {
        proof {
            reveal(Ck::try_result);
        }
        if !split.failed && split.conversions.is_empty() {
            self.say("nothing to propagate here; remove the `?`", q_span);
            return raw;
        }
        if split.successes.is_empty() {
            self.say("this expression always returns; use a `match` instead", q_span);
            return ERROR_TY;
        }
        self.set_p_try(branch);
        self.set_p_residuals(if split.conversions.is_empty() {
            None
        } else {
            Some(split.conversions)
        });
        self.mk_union(split.successes)
    }

    /// `.hash()` of a value that the language hashes itself.
    pub fn check_builtin_hash(&mut self, rty: Ty, callee_span: Span) -> (r: Option<Ty>)
        ensures
            final(self).answers(r, old(self).view().check_builtin_hash(rty, callee_span)),
            old(self).view().grows_to(final(self).view()),
    {
        proof {
            reveal(Ck::check_builtin_hash);
        }
        let iface = self.program().known(T_HASH);
        if !self.is_hashable(rty) || iface == DefId(0) {
            return None;
        }
        match self.program().find_method(DefKind::InterfaceMethod, iface, HASH) {
            Some(method) => {
                self.record_res(callee_span, ValueRes::Method(method), ERROR_TY);
                Some(U64_TY)
            },
            None => None,
        }
    }

    /// A `Shared`, `Sender` or `Receiver` handle.
    pub fn is_sync_handle(&self, ty: Ty) -> (r: bool)
        ensures
            r == self.view().is_sync_handle(ty),
    {
        proof {
            reveal(Ck::is_sync_handle);
        }
        match self.named_def(ty) {
            Some(d) => {
                d == self.program().known(T_SHARED)
                    || d == self.program().known(T_SENDER)
                    || d == self.program().known(T_RECEIVER)
            },
            None => false,
        }
    }

    /// `.clone()` of a value that the language clones itself; other types clone
    /// through their own method.
    pub fn check_builtin_clone(&mut self, rty: Ty, name_span: Span) -> (r: Option<Ty>)
        ensures
            final(self).answers(r, old(self).view().check_builtin_clone(rty, name_span)),
            old(self).view().grows_to(final(self).view()),
    {
        proof {
            reveal(Ck::check_builtin_clone);
        }
        if self.is_immutable_value(rty) || self.is_sync_handle(rty) {
            self.set_p_clone(Some(CloneKind::Identity));
            return Some(rty);
        }
        match self.list_elem(rty) {
            Some(elem) => self.clone_list(rty, elem, name_span),
            None => match self.map_kv(rty) {
                Some((kt, vt)) => self.clone_map(rty, kt, vt, name_span),
                None => None,
            },
        }
    }

    pub fn clone_list(&mut self, rty: Ty, elem: Ty, name_span: Span) -> (r: Option<Ty>)
        ensures
            final(self).answers(r, old(self).view().clone_list(rty, elem, name_span)),
            old(self).view().grows_to(final(self).view()),
    {
        proof {
            reveal(Ck::clone_list);
        }
        if self.is_immutable_value(elem) {
            self.set_p_clone(Some(CloneKind::ListShallow));
            return Some(rty);
        }
        let clone = self.program().known(T_CLONE);
        let ok = if clone != DefId(0) {
            self.type_implements(elem, clone)
        } else {
            false
        };
        if ok {
            self.set_p_clone(Some(CloneKind::ListDeep));
            return Some(rty);
        }
        let en = self.display(elem);
        self.say_text(
            "cannot `clone` a `List` of `".to_owned().concat(en.as_str()).concat(
                "` — its element type does not implement `Clone`",
            ),
            name_span,
        );
        Some(ERROR_TY)
    }

    pub fn clone_map(&mut self, rty: Ty, kt: Ty, vt: Ty, name_span: Span) -> (r: Option<Ty>)
        ensures
            final(self).answers(r, old(self).view().clone_map(rty, kt, vt, name_span)),
            old(self).view().grows_to(final(self).view()),
    {
        proof {
            reveal(Ck::clone_map);
        }
        if self.is_immutable_value(kt) && self.is_immutable_value(vt) {
            self.set_p_clone(Some(CloneKind::MapShallow));
            return Some(rty);
        }
        let clone = self.program().known(T_CLONE);
        let ok = if self.is_immutable_value(kt) && clone != DefId(0) {
            self.type_implements(vt, clone)
        } else {
            false
        };
        if ok {
            self.set_p_clone(Some(CloneKind::MapDeep));
            return Some(rty);
        }
        let kn = self.display(kt);
        let vn = self.display(vt);
        self.say_text(
            "cannot `clone` a `Map<".to_owned().concat(kn.as_str()).concat(", ").concat(vn.as_str()).concat(
                ">` — key must be immutable and value must implement `Clone`",
            ),
            name_span,
        );
        Some(ERROR_TY)
    }

    pub fn is_c_scalar(&self, ty: Ty) -> (r: bool)
        ensures
            r == self.view().is_c_scalar(ty),
    {
        proof {
            reveal(Ck::is_c_scalar);
        }
        match self.kind(ty) {
            TyKind::Int(_) | TyKind::Float(_) | TyKind::Bool | TyKind::Char | TyKind::Ptr(_) => true,
            TyKind::Func { is_c, .. } => is_c,
            _ => self.is_npo_union(ty),
        }
    }

    /// A value that C can take after the fixed arguments: a scalar, or a
    /// `@Transparent` wrapper of one.
    pub fn is_variadic_arg(&self, ty: Ty) -> (r: bool)
        ensures
            r == self.view().is_variadic_arg(ty),
    {
        proof {
            reveal(Ck::is_variadic_arg);
        }
        if self.is_c_scalar(ty) || self.is_err(ty) {
            return true;
        }
        match self.named_def(ty) {
            Some(d) => match find_wrapped(self.structs(), d) {
                Some(inner) => contains_attr(&self.program().def(d).attrs, T_TRANSPARENT) && self.is_c_scalar(inner),
                None => false,
            },
            None => false,
        }
    }

    pub fn require_variadic(&mut self, ty: Ty, span: Span)
        ensures
            final(self).stands(old(self).view().require_variadic(ty, span)),
            old(self).view().grows_to(final(self).view()),
    {
        proof {
            reveal(Ck::require_variadic);
        }
        if !self.is_variadic_arg(ty) {
            let t = self.display(ty);
            self.say_text(
                "a value of type `".to_owned().concat(t.as_str()).concat("` cannot be passed as a variadic argument"),
                span,
            );
        }
    }
}

/// The pattern `null`.
pub open spec fn null_pattern(p: Pattern) -> bool {
    match p.kind {
        PatternKind::Literal(e) => match e.kind {
            ExprKind::Null => true,
            _ => false,
        },
        _ => false,
    }
}

/// The pattern `null`.
pub fn is_null_pattern(p: &Pattern) -> (r: bool)
    ensures
        r == null_pattern(*p),
{
    match &p.kind {
        PatternKind::Literal(e) => match &e.kind {
            ExprKind::Null => true,
            _ => false,
        },
        _ => false,
    }
}

} // verus!
