//! Generic inference: substitution, unification and matching of types.
use vstd::prelude::*;
use crate::ids::DefId;
use crate::list::List;
use crate::ty::{Ty, TyCtxt, TyKind};

verus! {

/// A generic parameter and the type it stands for.
#[derive(Clone, Copy, PartialEq, Eq, Structural, Debug)]
pub struct Solved {
    pub param: DefId,
    pub ty: Ty,
}

/// The type a parameter stands for; the entry made last wins.
pub open spec fn solution(m: List<Solved>, d: DefId) -> Option<Ty>
    decreases m,
{
    match m {
        List::Nil => None,
        List::Cons(h, t) => if h.param == d {
            Some(h.ty)
        } else {
            solution(*t, d)
        },
    }
}

pub fn find_solution(m: &List<Solved>, d: DefId) -> (r: Option<Ty>)
    ensures
        r == solution(*m, d),
    decreases m,
{
    match m {
        List::Nil => None,
        List::Cons(h, t) => if h.param == d {
            Some(h.ty)
        } else {
            find_solution(t, d)
        },
    }
}

/// `m` with an entry for `d`, in front of any other.
pub open spec fn solved(m: List<Solved>, d: DefId, ty: Ty) -> List<Solved> {
    List::Cons(Box::new(Solved { param: d, ty }), Box::new(m))
}

pub fn solve(m: List<Solved>, d: DefId, ty: Ty) -> (r: List<Solved>)
    ensures
        r == solved(m, d, ty),
{
    List::Cons(Box::new(Solved { param: d, ty }), Box::new(m))
}

/// The type of each parameter of `gens`, `missing` where it is not solved.
pub open spec fn solutions(m: List<Solved>, gens: List<DefId>, missing: Ty) -> List<Ty>
    decreases gens,
{
    match gens {
        List::Nil => List::Nil,
        List::Cons(h, t) => {
            let ty = match solution(m, *h) {
                Some(x) => x,
                None => missing,
            };
            List::Cons(Box::new(ty), Box::new(solutions(m, *t, missing)))
        },
    }
}

pub fn all_solutions(m: &List<Solved>, gens: &List<DefId>, missing: Ty) -> (r: List<Ty>)
    ensures
        r == solutions(*m, *gens, missing),
    decreases gens,
{
    match gens {
        List::Nil => List::Nil,
        List::Cons(h, t) => {
            let ty = match find_solution(m, **h) {
                Some(x) => x,
                None => missing,
            };
            List::Cons(Box::new(ty), Box::new(all_solutions(m, t, missing)))
        },
    }
}

/// Every parameter of `gens` is solved.
pub open spec fn all_solved(m: List<Solved>, gens: List<DefId>) -> bool
    decreases gens,
{
    match gens {
        List::Nil => true,
        List::Cons(h, t) => solution(m, *h) is Some && all_solved(m, *t),
    }
}

pub fn is_all_solved(m: &List<Solved>, gens: &List<DefId>) -> (r: bool)
    ensures
        r == all_solved(*m, *gens),
    decreases gens,
{
    match gens {
        List::Nil => true,
        List::Cons(h, t) => find_solution(m, **h).is_some() && is_all_solved(m, t),
    }
}

// -- substitution -----------------------------------------------------------------------

/// `t` with its generic parameters replaced as `m` says. The parts of a type
/// stand before it in the table, which bounds the descent.
pub open spec fn substituted(k: Seq<TyKind>, t: Ty, m: List<Solved>) -> (Seq<TyKind>, Ty)
    decreases t, 1int, List::<Ty>::Nil,
{
    if m is Nil {
        (k, t)
    } else {
        match crate::ty::kind_of(k, t) {
            TyKind::Param(d) => match solution(m, d) {
                Some(x) => (k, x),
                None => (k, t),
            },
            TyKind::Named { def, args } => {
                let (k1, args1) = substituted_list(k, args, t, m);
                crate::ty::interned(k1, TyKind::Named { def, args: args1 })
            },
            TyKind::Tuple(es) => {
                let (k1, es1) = substituted_list(k, es, t, m);
                crate::ty::interned(k1, TyKind::Tuple(es1))
            },
            TyKind::Func { params, ret, is_c } => {
                let (k1, ps) = substituted_list(k, params, t, m);
                let (k2, r) = if ret < t {
                    substituted(k1, ret, m)
                } else {
                    (k1, ret)
                };
                crate::ty::interned(k2, TyKind::Func { params: ps, ret: r, is_c })
            },
            TyKind::Union(ms) => {
                let (k1, ms1) = substituted_list(k, ms, t, m);
                crate::ty::union_of(k1, ms1)
            },
            TyKind::Ptr(x) => {
                let (k1, y) = if x < t {
                    substituted(k, x, m)
                } else {
                    (k, x)
                };
                crate::ty::interned(k1, TyKind::Ptr(y))
            },
            TyKind::Array { elem, len } => {
                let (k1, y) = if elem < t {
                    substituted(k, elem, m)
                } else {
                    (k, elem)
                };
                crate::ty::interned(k1, TyKind::Array { elem: y, len })
            },
            _ => (k, t),
        }
    }
}

pub open spec fn substituted_list(k: Seq<TyKind>, l: List<Ty>, bound: Ty, m: List<Solved>) -> (
    Seq<TyKind>,
    List<Ty>,
)
    decreases bound, 0int, l,
{
    match l {
        List::Nil => (k, List::Nil),
        List::Cons(h, t) => {
            let (k1, x) = if *h < bound {
                substituted(k, *h, m)
            } else {
                (k, *h)
            };
            let (k2, xs) = substituted_list(k1, *t, bound, m);
            (k2, List::Cons(Box::new(x), Box::new(xs)))
        },
    }
}

pub fn subst_ty(tcx: &mut TyCtxt, t: Ty, m: &List<Solved>) -> (r: Ty)
    ensures
        (final(tcx).view(), r) == substituted(old(tcx).view(), t, *m),
    decreases t, 1int, List::<Ty>::Nil,
{
    if m.is_empty() {
        return t;
    }
    match tcx.kind(t) {
        TyKind::Param(d) => match find_solution(m, d) {
            Some(x) => x,
            None => t,
        },
        TyKind::Named { def, args } => {
            let args = subst_list(tcx, &args, t, m);
            tcx.mk_named(def, args)
        },
        TyKind::Tuple(es) => {
            let es = subst_list(tcx, &es, t, m);
            tcx.mk_tuple(es)
        },
        TyKind::Func { params, ret, is_c } => {
            let ps = subst_list(tcx, &params, t, m);
            let r = if ret < t {
                subst_ty(tcx, ret, m)
            } else {
                ret
            };
            tcx.mk_func(ps, r, is_c)
        },
        TyKind::Union(ms) => {
            let ms = subst_list(tcx, &ms, t, m);
            tcx.mk_union(ms)
        },
        TyKind::Ptr(x) => {
            let y = if x < t {
                subst_ty(tcx, x, m)
            } else {
                x
            };
            tcx.mk_ptr(y)
        },
        TyKind::Array { elem, len } => {
            let y = if elem < t {
                subst_ty(tcx, elem, m)
            } else {
                elem
            };
            tcx.intern(TyKind::Array { elem: y, len })
        },
        _ => t,
    }
}

fn subst_list(tcx: &mut TyCtxt, l: &List<Ty>, bound: Ty, m: &List<Solved>) -> (r: List<Ty>)
    ensures
        (final(tcx).view(), r) == substituted_list(old(tcx).view(), *l, bound, *m),
    decreases bound, 0int, l,
{
    match l {
        List::Nil => List::Nil,
        List::Cons(h, t) => {
            let x = if **h < bound {
                subst_ty(tcx, **h, m)
            } else {
                **h
            };
            let xs = subst_list(tcx, t, bound, m);
            List::Cons(Box::new(x), Box::new(xs))
        },
    }
}

/// Each type of `l` substituted, in order.
pub open spec fn substituted_all(k: Seq<TyKind>, l: List<Ty>, m: List<Solved>) -> (Seq<TyKind>, List<Ty>)
    decreases l,
{
    match l {
        List::Nil => (k, List::Nil),
        List::Cons(h, t) => {
            let (k1, x) = substituted(k, *h, m);
            let (k2, xs) = substituted_all(k1, *t, m);
            (k2, List::Cons(Box::new(x), Box::new(xs)))
        },
    }
}

pub fn subst_all(tcx: &mut TyCtxt, l: &List<Ty>, m: &List<Solved>) -> (r: List<Ty>)
    ensures
        (final(tcx).view(), r) == substituted_all(old(tcx).view(), *l, *m),
    decreases l,
{
    match l {
        List::Nil => List::Nil,
        List::Cons(h, t) => {
            let x = subst_ty(tcx, **h, m);
            let xs = subst_all(tcx, t, m);
            List::Cons(Box::new(x), Box::new(xs))
        },
    }
}

// -- unification ------------------------------------------------------------------------

/// `m` extended by what makes `pat` (which may contain parameters) look like
/// `val`. A parameter keeps the first type it met.
pub open spec fn unified(k: Seq<TyKind>, pat: Ty, val: Ty, m: List<Solved>) -> List<Solved>
    decreases pat, 1int, List::<Ty>::Nil,
{
    match (crate::ty::kind_of(k, pat), crate::ty::kind_of(k, val)) {
        (TyKind::Param(d), _) => match solution(m, d) {
            Some(_) => m,
            None => solved(m, d, val),
        },
        (TyKind::Named { def: d1, args: a1 }, TyKind::Named { def: d2, args: a2 }) => if d1 == d2
            && a1.count() == a2.count() {
            unified_lists(k, a1, a2, pat, m)
        } else {
            m
        },
        (TyKind::Tuple(p), TyKind::Tuple(v)) => if p.count() == v.count() {
            unified_lists(k, p, v, pat, m)
        } else {
            m
        },
        (TyKind::Func { params: pp, ret: pr, .. }, TyKind::Func { params: vp, ret: vr, .. }) => if pp.count()
            == vp.count() {
            let m1 = unified_lists(k, pp, vp, pat, m);
            if pr < pat {
                unified(k, pr, vr, m1)
            } else {
                m1
            }
        } else {
            m
        },
        (TyKind::Ptr(p), TyKind::Ptr(v)) => if p < pat {
            unified(k, p, v, m)
        } else {
            m
        },
        _ => m,
    }
}

pub open spec fn unified_lists(
    k: Seq<TyKind>,
    p: List<Ty>,
    v: List<Ty>,
    bound: Ty,
    m: List<Solved>,
) -> List<Solved>
    decreases bound, 0int, p,
{
    match (p, v) {
        (List::Cons(a, ps), List::Cons(b, vs)) => {
            let m1 = if *a < bound {
                unified(k, *a, *b, m)
            } else {
                m
            };
            unified_lists(k, *ps, *vs, bound, m1)
        },
        _ => m,
    }
}

pub fn unify(tcx: &TyCtxt, pat: Ty, val: Ty, m: List<Solved>) -> (r: List<Solved>)
    ensures
        r == unified(tcx.view(), pat, val, m),
    decreases pat, 1int, List::<Ty>::Nil,
{
    match (tcx.kind(pat), tcx.kind(val)) {
        (TyKind::Param(d), _) => {
            if find_solution(&m, d).is_some() {
                m
            } else {
                solve(m, d, val)
            }
        },
        (TyKind::Named { def: d1, args: a1 }, TyKind::Named { def: d2, args: a2 }) => {
            if d1 == d2 && a1.len() == a2.len() {
                unify_lists(tcx, &a1, &a2, pat, m)
            } else {
                m
            }
        },
        (TyKind::Tuple(p), TyKind::Tuple(v)) => {
            if p.len() == v.len() {
                unify_lists(tcx, &p, &v, pat, m)
            } else {
                m
            }
        },
        (TyKind::Func { params: pp, ret: pr, .. }, TyKind::Func { params: vp, ret: vr, .. }) => {
            if pp.len() == vp.len() {
                let m = unify_lists(tcx, &pp, &vp, pat, m);
                if pr < pat {
                    unify(tcx, pr, vr, m)
                } else {
                    m
                }
            } else {
                m
            }
        },
        (TyKind::Ptr(p), TyKind::Ptr(v)) => {
            if p < pat {
                unify(tcx, p, v, m)
            } else {
                m
            }
        },
        _ => m,
    }
}

fn unify_lists(tcx: &TyCtxt, p: &List<Ty>, v: &List<Ty>, bound: Ty, m: List<Solved>) -> (r: List<Solved>)
    ensures
        r == unified_lists(tcx.view(), *p, *v, bound, m),
    decreases bound, 0int, p,
{
    match (p, v) {
        (List::Cons(a, ps), List::Cons(b, vs)) => {
            let m = if **a < bound {
                unify(tcx, **a, **b, m)
            } else {
                m
            };
            unify_lists(tcx, ps, vs, bound, m)
        },
        _ => m,
    }
}

// -- matching ---------------------------------------------------------------------------

/// Whether `pat` (which may contain parameters) has the shape of `val`.
pub open spec fn matching(k: Seq<TyKind>, pat: Ty, val: Ty) -> bool
    decreases pat, 1int, List::<Ty>::Nil,
{
    match (crate::ty::kind_of(k, pat), crate::ty::kind_of(k, val)) {
        (TyKind::Param(_), _) => true,
        (TyKind::Named { def: d1, args: a1 }, TyKind::Named { def: d2, args: a2 }) => d1 == d2 && a1.count()
            == a2.count() && matching_lists(k, a1, a2, pat),
        (TyKind::Tuple(p), TyKind::Tuple(v)) => p.count() == v.count() && matching_lists(k, p, v, pat),
        (TyKind::Ptr(p), TyKind::Ptr(v)) => if p < pat {
            matching(k, p, v)
        } else {
            p == v
        },
        _ => pat == val,
    }
}

pub open spec fn matching_lists(k: Seq<TyKind>, p: List<Ty>, v: List<Ty>, bound: Ty) -> bool
    decreases bound, 0int, p,
{
    match (p, v) {
        (List::Cons(a, ps), List::Cons(b, vs)) => (if *a < bound {
            matching(k, *a, *b)
        } else {
            *a == *b
        }) && matching_lists(k, *ps, *vs, bound),
        _ => true,
    }
}

pub fn ty_matches(tcx: &TyCtxt, pat: Ty, val: Ty) -> (r: bool)
    ensures
        r == matching(tcx.view(), pat, val),
    decreases pat, 1int, List::<Ty>::Nil,
{
    match (tcx.kind(pat), tcx.kind(val)) {
        (TyKind::Param(_), _) => true,
        (TyKind::Named { def: d1, args: a1 }, TyKind::Named { def: d2, args: a2 }) => {
            d1 == d2 && a1.len() == a2.len() && lists_match(tcx, &a1, &a2, pat)
        },
        (TyKind::Tuple(p), TyKind::Tuple(v)) => p.len() == v.len() && lists_match(tcx, &p, &v, pat),
        (TyKind::Ptr(p), TyKind::Ptr(v)) => {
            if p < pat {
                ty_matches(tcx, p, v)
            } else {
                p == v
            }
        },
        _ => pat == val,
    }
}

fn lists_match(tcx: &TyCtxt, p: &List<Ty>, v: &List<Ty>, bound: Ty) -> (r: bool)
    ensures
        r == matching_lists(tcx.view(), *p, *v, bound),
    decreases bound, 0int, p,
{
    match (p, v) {
        (List::Cons(a, ps), List::Cons(b, vs)) => {
            let first = if **a < bound {
                ty_matches(tcx, **a, **b)
            } else {
                **a == **b
            };
            first && lists_match(tcx, ps, vs, bound)
        },
        _ => true,
    }
}

// -- laws -----------------------------------------------------------------------------

/// Unification only adds: what is solved stays as it is.
pub proof fn law_unify_keeps(k: Seq<TyKind>, pat: Ty, val: Ty, m: List<Solved>, d: DefId)
    requires
        solution(m, d) is Some,
    ensures
        solution(unified(k, pat, val, m), d) == solution(m, d),
    decreases pat, 1int, List::<Ty>::Nil,
{
    match (crate::ty::kind_of(k, pat), crate::ty::kind_of(k, val)) {
        (TyKind::Named { args: a1, .. }, TyKind::Named { args: a2, .. }) => lemma_unify_lists_keeps(
            k,
            a1,
            a2,
            pat,
            m,
            d,
        ),
        (TyKind::Tuple(p), TyKind::Tuple(v)) => lemma_unify_lists_keeps(k, p, v, pat, m, d),
        (TyKind::Func { params: pp, ret: pr, .. }, TyKind::Func { params: vp, ret: vr, .. }) => {
            lemma_unify_lists_keeps(k, pp, vp, pat, m, d);
            if pr < pat {
                law_unify_keeps(k, pr, vr, unified_lists(k, pp, vp, pat, m), d);
            }
        },
        (TyKind::Ptr(p), TyKind::Ptr(v)) => {
            if p < pat {
                law_unify_keeps(k, p, v, m, d);
            }
        },
        _ => {},
    }
}

proof fn lemma_unify_lists_keeps(
    k: Seq<TyKind>,
    a: List<Ty>,
    b: List<Ty>,
    bound: Ty,
    m: List<Solved>,
    d: DefId,
)
    requires
        solution(m, d) is Some,
    ensures
        solution(unified_lists(k, a, b, bound, m), d) == solution(m, d),
    decreases bound, 0int, a,
{
    match (a, b) {
        (List::Cons(x, a1), List::Cons(y, b1)) => {
            if *x < bound {
                law_unify_keeps(k, *x, *y, m, d);
                lemma_unify_lists_keeps(k, *a1, *b1, bound, unified(k, *x, *y, m), d);
            } else {
                lemma_unify_lists_keeps(k, *a1, *b1, bound, m, d);
            }
        },
        _ => {},
    }
}

/// A parameter that is unified with a type stands for that type.
pub proof fn law_unify_then_substitute(k: Seq<TyKind>, pat: Ty, val: Ty, m: List<Solved>)
    requires
        crate::ty::kind_of(k, pat) is Param,
        solution(m, crate::ty::kind_of(k, pat)->Param_0) is None,
    ensures
        substituted(k, pat, unified(k, pat, val, m)) == (k, val),
{
}

/// The type `t` mentions no generic parameter, and its parts stand before it.
pub open spec fn closed(k: Seq<TyKind>, t: Ty) -> bool
    decreases t, 1int, List::<Ty>::Nil,
{
    match crate::ty::kind_of(k, t) {
        TyKind::Param(_) => false,
        TyKind::Named { args, .. } => closed_list(k, args, t),
        TyKind::Tuple(es) => closed_list(k, es, t),
        TyKind::Func { params, ret, .. } => closed_list(k, params, t) && ret < t && closed(k, ret),
        TyKind::Union(ms) => closed_list(k, ms, t),
        TyKind::Ptr(x) => x < t && closed(k, x),
        TyKind::Array { elem, .. } => elem < t && closed(k, elem),
        _ => true,
    }
}

pub open spec fn closed_list(k: Seq<TyKind>, l: List<Ty>, bound: Ty) -> bool
    decreases bound, 0int, l,
{
    match l {
        List::Nil => true,
        List::Cons(h, t) => *h < bound && closed(k, *h) && closed_list(k, *t, bound),
    }
}

/// No two handles of the table stand for the same type.
pub open spec fn distinct_kinds(k: Seq<TyKind>) -> bool {
    forall|i: int, j: int| 0 <= i < k.len() && 0 <= j < k.len() && i != j ==> k[i] != k[j]
}

proof fn lemma_interned_same(k: Seq<TyKind>, t: Ty, i: int)
    requires
        distinct_kinds(k),
        0 <= i <= t < k.len(),
    ensures
        crate::ty::find_kind(k, k[t as int], i) == Some(t as int),
    decreases t - i,
{
    if i < t {
        assert(k[i] != k[t as int]);
        lemma_interned_same(k, t, i + 1);
    }
}

/// Substitution leaves a type without generic parameters alone.
pub proof fn law_substitute_closed(k: Seq<TyKind>, t: Ty, m: List<Solved>)
    requires
        distinct_kinds(k),
        crate::ty::unions_flat(k),
        t < k.len(),
        closed(k, t),
    ensures
        substituted(k, t, m) == (k, t),
    decreases t, 1int, List::<Ty>::Nil,
{
    lemma_interned_same(k, t, 0);
    if !(m is Nil) {
        match crate::ty::kind_of(k, t) {
            TyKind::Named { args, .. } => lemma_substitute_list_closed(k, args, t, m),
            TyKind::Tuple(es) => lemma_substitute_list_closed(k, es, t, m),
            TyKind::Func { params, ret, .. } => {
                lemma_substitute_list_closed(k, params, t, m);
                law_substitute_closed(k, ret, m);
            },
            TyKind::Union(ms) => {
                lemma_substitute_list_closed(k, ms, t, m);
                assert(crate::ty::union_flat(k, k[t as int]));
                crate::ty::law_union_of_flat(k, ms);
            },
            TyKind::Ptr(x) => law_substitute_closed(k, x, m),
            TyKind::Array { elem, .. } => law_substitute_closed(k, elem, m),
            _ => {},
        }
    }
}

proof fn lemma_substitute_list_closed(k: Seq<TyKind>, l: List<Ty>, bound: Ty, m: List<Solved>)
    requires
        distinct_kinds(k),
        crate::ty::unions_flat(k),
        bound < k.len(),
        closed_list(k, l, bound),
    ensures
        substituted_list(k, l, bound, m) == (k, l),
    decreases bound, 0int, l,
{
    match l {
        List::Nil => {},
        List::Cons(h, t) => {
            law_substitute_closed(k, *h, m);
            lemma_substitute_list_closed(k, *t, bound, m);
        },
    }
}

/// Substitution only adds to the table.
pub proof fn law_substitute_grows(k: Seq<TyKind>, t: Ty, m: List<Solved>)
    ensures
        crate::list::extends(k, substituted(k, t, m).0),
    decreases t, 1int, List::<Ty>::Nil,
{
    if !(m is Nil) {
        match crate::ty::kind_of(k, t) {
            TyKind::Named { def, args } => {
                lemma_substitute_list_grows(k, args, t, m);
                let (k1, args1) = substituted_list(k, args, t, m);
                lemma_then_interned(k, k1, TyKind::Named { def, args: args1 });
            },
            TyKind::Tuple(es) => {
                lemma_substitute_list_grows(k, es, t, m);
                let (k1, es1) = substituted_list(k, es, t, m);
                lemma_then_interned(k, k1, TyKind::Tuple(es1));
            },
            TyKind::Func { params, ret, is_c } => {
                lemma_substitute_list_grows(k, params, t, m);
                let (k1, ps) = substituted_list(k, params, t, m);
                let (k2, r) = if ret < t {
                    substituted(k1, ret, m)
                } else {
                    (k1, ret)
                };
                if ret < t {
                    law_substitute_grows(k1, ret, m);
                }
                crate::list::law_extends_transitive(k, k1, k2);
                lemma_then_interned(k, k2, TyKind::Func { params: ps, ret: r, is_c });
            },
            TyKind::Union(ms) => {
                lemma_substitute_list_grows(k, ms, t, m);
                let (k1, ms1) = substituted_list(k, ms, t, m);
                crate::ty::law_union_grows(k1, ms1);
                crate::list::law_extends_transitive(k, k1, crate::ty::union_of(k1, ms1).0);
            },
            TyKind::Ptr(x) => {
                let (k1, y) = if x < t {
                    substituted(k, x, m)
                } else {
                    (k, x)
                };
                if x < t {
                    law_substitute_grows(k, x, m);
                }
                lemma_then_interned(k, k1, TyKind::Ptr(y));
            },
            TyKind::Array { elem, len } => {
                let (k1, y) = if elem < t {
                    substituted(k, elem, m)
                } else {
                    (k, elem)
                };
                if elem < t {
                    law_substitute_grows(k, elem, m);
                }
                lemma_then_interned(k, k1, TyKind::Array { elem: y, len });
            },
            _ => {},
        }
    }
}

proof fn lemma_then_interned(k: Seq<TyKind>, k1: Seq<TyKind>, x: TyKind)
    requires
        crate::list::extends(k, k1),
    ensures
        crate::list::extends(k, crate::ty::interned(k1, x).0),
{
    crate::ty::law_interned_grows(k1, x);
    crate::list::law_extends_transitive(k, k1, crate::ty::interned(k1, x).0);
}

proof fn lemma_substitute_list_grows(k: Seq<TyKind>, l: List<Ty>, bound: Ty, m: List<Solved>)
    ensures
        crate::list::extends(k, substituted_list(k, l, bound, m).0),
    decreases bound, 0int, l,
{
    match l {
        List::Nil => {},
        List::Cons(h, t) => {
            let k1 = if *h < bound {
                substituted(k, *h, m).0
            } else {
                k
            };
            if *h < bound {
                law_substitute_grows(k, *h, m);
            }
            lemma_substitute_list_grows(k1, *t, bound, m);
            crate::list::law_extends_transitive(k, k1, substituted_list(k1, *t, bound, m).0);
        },
    }
}

/// So does the substitution of several types.
pub proof fn law_substitute_all_grows(k: Seq<TyKind>, l: List<Ty>, m: List<Solved>)
    ensures
        crate::list::extends(k, substituted_all(k, l, m).0),
    decreases l,
{
    match l {
        List::Nil => {},
        List::Cons(h, t) => {
            let k1 = substituted(k, *h, m).0;
            law_substitute_grows(k, *h, m);
            law_substitute_all_grows(k1, *t, m);
            crate::list::law_extends_transitive(k, k1, substituted_all(k1, *t, m).0);
        },
    }
}

// -- unification of whole patterns -------------------------------------------------------

/// The generic parameters of `t`, each as often as it occurs.
pub open spec fn params_of(k: Seq<TyKind>, t: Ty) -> Seq<DefId>
    decreases t, 1int, List::<Ty>::Nil,
{
    match crate::ty::kind_of(k, t) {
        TyKind::Param(d) => seq![d],
        TyKind::Named { args, .. } => params_of_list(k, args, t),
        TyKind::Tuple(es) => params_of_list(k, es, t),
        TyKind::Func { params, ret, .. } => params_of_list(k, params, t) + if ret < t {
            params_of(k, ret)
        } else {
            Seq::empty()
        },
        TyKind::Union(ms) => params_of_list(k, ms, t),
        TyKind::Ptr(x) => if x < t {
            params_of(k, x)
        } else {
            Seq::empty()
        },
        TyKind::Array { elem, .. } => if elem < t {
            params_of(k, elem)
        } else {
            Seq::empty()
        },
        _ => Seq::empty(),
    }
}

pub open spec fn params_of_list(k: Seq<TyKind>, l: List<Ty>, bound: Ty) -> Seq<DefId>
    decreases bound, 0int, l,
{
    match l {
        List::Nil => Seq::empty(),
        List::Cons(h, t) => (if *h < bound {
            params_of(k, *h)
        } else {
            Seq::empty()
        }) + params_of_list(k, *t, bound),
    }
}

/// `m` and `n` say the same of the parameters `ps`.
pub open spec fn agree(m: List<Solved>, n: List<Solved>, ps: Seq<DefId>) -> bool {
    forall|d: DefId| #[trigger] ps.contains(d) ==> solution(m, d) == solution(n, d)
}

/// Nothing is known of the parameters `ps`.
pub open spec fn unsolved(m: List<Solved>, ps: Seq<DefId>) -> bool {
    forall|d: DefId| #[trigger] ps.contains(d) ==> solution(m, d) is None
}

proof fn lemma_solved(m: List<Solved>, d: DefId, ty: Ty, x: DefId)
    ensures
        solution(solved(m, d, ty), x) == if x == d {
            Some(ty)
        } else {
            solution(m, x)
        },
{
}

/// Unification says nothing new of a parameter that does not occur in the pattern.
proof fn lemma_unify_frame(k: Seq<TyKind>, pat: Ty, val: Ty, m: List<Solved>, d: DefId)
    requires
        !params_of(k, pat).contains(d),
    ensures
        solution(unified(k, pat, val, m), d) == solution(m, d),
    decreases pat, 1int, List::<Ty>::Nil,
{
    match (crate::ty::kind_of(k, pat), crate::ty::kind_of(k, val)) {
        (TyKind::Param(p), _) => {
            assert(seq![p].contains(p)) by {
                assert(seq![p][0] == p);
            }
        },
        (TyKind::Named { args: a1, .. }, TyKind::Named { args: a2, .. }) => lemma_unify_lists_frame(
            k,
            a1,
            a2,
            pat,
            m,
            d,
        ),
        (TyKind::Tuple(p), TyKind::Tuple(v)) => lemma_unify_lists_frame(k, p, v, pat, m, d),
        (TyKind::Func { params: pp, ret: pr, .. }, TyKind::Func { params: vp, ret: vr, .. }) => {
            let tail = if pr < pat {
                params_of(k, pr)
            } else {
                Seq::empty()
            };
            lemma_contains_parts(params_of_list(k, pp, pat), tail, d);
            lemma_unify_lists_frame(k, pp, vp, pat, m, d);
            if pr < pat {
                lemma_unify_frame(k, pr, vr, unified_lists(k, pp, vp, pat, m), d);
            }
        },
        (TyKind::Ptr(p), TyKind::Ptr(v)) => {
            if p < pat {
                lemma_unify_frame(k, p, v, m, d);
            }
        },
        _ => {},
    }
}

proof fn lemma_contains_parts(a: Seq<DefId>, b: Seq<DefId>, d: DefId)
    ensures
        (a + b).contains(d) == (a.contains(d) || b.contains(d)),
{
    if a.contains(d) {
        let i = choose|i: int| 0 <= i < a.len() && a[i] == d;
        assert((a + b)[i] == d);
    }
    if b.contains(d) {
        let i = choose|i: int| 0 <= i < b.len() && b[i] == d;
        assert((a + b)[a.len() + i] == d);
    }
}

proof fn lemma_unify_lists_frame(
    k: Seq<TyKind>,
    a: List<Ty>,
    b: List<Ty>,
    bound: Ty,
    m: List<Solved>,
    d: DefId,
)
    requires
        !params_of_list(k, a, bound).contains(d),
    ensures
        solution(unified_lists(k, a, b, bound, m), d) == solution(m, d),
    decreases bound, 0int, a,
{
    match (a, b) {
        (List::Cons(x, a1), List::Cons(y, b1)) => {
            let first = if *x < bound {
                params_of(k, *x)
            } else {
                Seq::empty()
            };
            lemma_contains_parts(first, params_of_list(k, *a1, bound), d);
            if *x < bound {
                lemma_unify_frame(k, *x, *y, m, d);
                lemma_unify_lists_frame(k, *a1, *b1, bound, unified(k, *x, *y, m), d);
            } else {
                lemma_unify_lists_frame(k, *a1, *b1, bound, m, d);
            }
        },
        _ => {},
    }
}

/// The parts of `t` stand before it, through all its parts, and no list of parts is
/// longer than can be counted.
pub open spec fn ordered(k: Seq<TyKind>, t: Ty) -> bool
    decreases t, 1int, List::<Ty>::Nil,
{
    match crate::ty::kind_of(k, t) {
        TyKind::Named { args, .. } => args.count() < usize::MAX && ordered_list(k, args, t),
        TyKind::Tuple(es) => es.count() < usize::MAX && ordered_list(k, es, t),
        TyKind::Func { params, ret, .. } => ordered_list(k, params, t) && ret < t && ordered(k, ret),
        TyKind::Union(ms) => ordered_list(k, ms, t),
        TyKind::Ptr(x) => x < t && ordered(k, x),
        TyKind::Array { elem, .. } => elem < t && ordered(k, elem),
        _ => true,
    }
}

pub open spec fn ordered_list(k: Seq<TyKind>, l: List<Ty>, bound: Ty) -> bool
    decreases bound, 0int, l,
{
    match l {
        List::Nil => true,
        List::Cons(h, t) => *h < bound && ordered(k, *h) && ordered_list(k, *t, bound),
    }
}

/// Each parameter of `ps` is unknown to `m` or stands for itself in it.
pub open spec fn inert(k: Seq<TyKind>, m: List<Solved>, ps: Seq<DefId>) -> bool {
    forall|d: DefId| #[trigger] ps.contains(d) ==> at_home(k, solution(m, d), d)
}

/// What is known of parameter `d` is nothing, or `d` itself.
pub open spec fn at_home(k: Seq<TyKind>, known: Option<Ty>, d: DefId) -> bool {
    match known {
        Some(x) => x < k.len() && k[x as int] == TyKind::Param(d),
        None => true,
    }
}

/// Substitution leaves a type alone whose parameters are inert.
proof fn lemma_substitute_inert(k: Seq<TyKind>, t: Ty, m: List<Solved>)
    requires
        distinct_kinds(k),
        crate::ty::unions_flat(k),
        t < k.len(),
        ordered(k, t),
        inert(k, m, params_of(k, t)),
    ensures
        substituted(k, t, m) == (k, t),
    decreases t, 1int, List::<Ty>::Nil,
{
    lemma_interned_same(k, t, 0);
    if !(m is Nil) {
        match crate::ty::kind_of(k, t) {
            TyKind::Param(d) => {
                assert(seq![d][0] == d);
                assert(params_of(k, t).contains(d));
                assert(at_home(k, solution(m, d), d));
                if let Some(x) = solution(m, d) {
                    assert(k[x as int] == k[t as int]);
                }
            },
            TyKind::Named { args, .. } => lemma_substitute_list_inert(k, args, t, m),
            TyKind::Tuple(es) => lemma_substitute_list_inert(k, es, t, m),
            TyKind::Func { params, ret, .. } => {
                lemma_inert_parts(k, m, params_of_list(k, params, t), params_of(k, ret));
                lemma_substitute_list_inert(k, params, t, m);
                lemma_substitute_inert(k, ret, m);
            },
            TyKind::Union(ms) => {
                lemma_substitute_list_inert(k, ms, t, m);
                assert(crate::ty::union_flat(k, k[t as int]));
                crate::ty::law_union_of_flat(k, ms);
            },
            TyKind::Ptr(x) => lemma_substitute_inert(k, x, m),
            TyKind::Array { elem, .. } => lemma_substitute_inert(k, elem, m),
            _ => {},
        }
    }
}

proof fn lemma_inert_parts(k: Seq<TyKind>, m: List<Solved>, a: Seq<DefId>, b: Seq<DefId>)
    requires
        inert(k, m, a + b),
    ensures
        inert(k, m, a),
        inert(k, m, b),
{
    assert forall|d: DefId| #[trigger] a.contains(d) implies at_home(k, solution(m, d), d) by {
        lemma_contains_parts(a, b, d);
        assert((a + b).contains(d));
    }
    assert forall|d: DefId| #[trigger] b.contains(d) implies at_home(k, solution(m, d), d) by {
        lemma_contains_parts(a, b, d);
        assert((a + b).contains(d));
    }
}

proof fn lemma_substitute_list_inert(k: Seq<TyKind>, l: List<Ty>, bound: Ty, m: List<Solved>)
    requires
        distinct_kinds(k),
        crate::ty::unions_flat(k),
        bound < k.len(),
        ordered_list(k, l, bound),
        inert(k, m, params_of_list(k, l, bound)),
    ensures
        substituted_list(k, l, bound, m) == (k, l),
    decreases bound, 0int, l,
{
    match l {
        List::Nil => {},
        List::Cons(h, t) => {
            lemma_inert_parts(k, m, params_of(k, *h), params_of_list(k, *t, bound));
            lemma_substitute_inert(k, *h, m);
            lemma_substitute_list_inert(k, *t, bound, m);
        },
    }
}

/// Unifying a type with itself makes its parameters stand for themselves, at most.
proof fn lemma_unify_self(k: Seq<TyKind>, t: Ty, m: List<Solved>)
    requires
        t < k.len(),
        ordered(k, t),
        inert(k, m, params_of(k, t)),
    ensures
        inert(k, unified(k, t, t, m), params_of(k, t)),
    decreases t, 1int, List::<Ty>::Nil,
{
    match crate::ty::kind_of(k, t) {
        TyKind::Param(d) => {},
        TyKind::Named { args, .. } => lemma_unify_lists_self(k, args, t, m, params_of(k, t)),
        TyKind::Tuple(es) => lemma_unify_lists_self(k, es, t, m, params_of(k, t)),
        TyKind::Func { params, ret, .. } => {
            let all = params_of(k, t);
            let a = params_of_list(k, params, t);
            let b = params_of(k, ret);
            assert(all =~= a + b);
            assert forall|d: DefId| #[trigger] a.contains(d) implies all.contains(d) by {
                lemma_contains_parts(a, b, d);
            }
            assert forall|d: DefId| #[trigger] b.contains(d) implies all.contains(d) by {
                lemma_contains_parts(a, b, d);
            }
            lemma_unify_lists_self(k, params, t, m, all);
            lemma_unify_self_in(k, ret, unified_lists(k, params, params, t, m), all);
        },
        TyKind::Ptr(x) => lemma_unify_self(k, x, m),
        _ => {},
    }
}

/// The same with further parameters `all` in view.
proof fn lemma_unify_self_in(k: Seq<TyKind>, t: Ty, m: List<Solved>, all: Seq<DefId>)
    requires
        t < k.len(),
        ordered(k, t),
        inert(k, m, all),
        forall|d: DefId| #[trigger] params_of(k, t).contains(d) ==> all.contains(d),
    ensures
        inert(k, unified(k, t, t, m), all),
    decreases t, 2int, List::<Ty>::Nil,
{
    assert(inert(k, m, params_of(k, t))) by {
        assert forall|d: DefId| #[trigger] params_of(k, t).contains(d) implies at_home(k, solution(m, d), d) by {
            assert(all.contains(d));
        }
    }
    lemma_unify_self(k, t, m);
    let n = unified(k, t, t, m);
    assert forall|d: DefId| #[trigger] all.contains(d) implies at_home(k, solution(n, d), d) by {
        if !params_of(k, t).contains(d) {
            lemma_unify_frame(k, t, t, m, d);
            assert(at_home(k, solution(m, d), d));
        }
    }
}

proof fn lemma_unify_lists_self(k: Seq<TyKind>, l: List<Ty>, bound: Ty, m: List<Solved>, all: Seq<DefId>)
    requires
        bound < k.len(),
        ordered_list(k, l, bound),
        inert(k, m, all),
        forall|d: DefId| #[trigger] params_of_list(k, l, bound).contains(d) ==> all.contains(d),
    ensures
        inert(k, unified_lists(k, l, l, bound, m), all),
    decreases bound, 0int, l,
{
    match l {
        List::Nil => {},
        List::Cons(h, t) => {
            let a = params_of(k, *h);
            let b = params_of_list(k, *t, bound);
            assert forall|d: DefId| #[trigger] a.contains(d) implies all.contains(d) by {
                lemma_contains_parts(a, b, d);
                assert(params_of_list(k, l, bound).contains(d));
            }
            assert forall|d: DefId| #[trigger] b.contains(d) implies all.contains(d) by {
                lemma_contains_parts(a, b, d);
                assert(params_of_list(k, l, bound).contains(d));
            }
            lemma_unify_self_in(k, *h, m, all);
            lemma_unify_lists_self(k, *t, bound, unified(k, *h, *h, m), all);
        },
    }
}

/// Unification never forgets everything.
proof fn lemma_unify_nonempty(k: Seq<TyKind>, pat: Ty, val: Ty, m: List<Solved>)
    requires
        !(m is Nil),
    ensures
        !(unified(k, pat, val, m) is Nil),
    decreases pat, 1int, List::<Ty>::Nil,
{
    match (crate::ty::kind_of(k, pat), crate::ty::kind_of(k, val)) {
        (TyKind::Named { args: a1, .. }, TyKind::Named { args: a2, .. }) => lemma_unify_lists_nonempty(
            k,
            a1,
            a2,
            pat,
            m,
        ),
        (TyKind::Tuple(p), TyKind::Tuple(v)) => lemma_unify_lists_nonempty(k, p, v, pat, m),
        (TyKind::Func { params: pp, ret: pr, .. }, TyKind::Func { params: vp, ret: vr, .. }) => {
            lemma_unify_lists_nonempty(k, pp, vp, pat, m);
            if pr < pat {
                lemma_unify_nonempty(k, pr, vr, unified_lists(k, pp, vp, pat, m));
            }
        },
        (TyKind::Ptr(p), TyKind::Ptr(v)) => {
            if p < pat {
                lemma_unify_nonempty(k, p, v, m);
            }
        },
        _ => {},
    }
}

proof fn lemma_unify_lists_nonempty(k: Seq<TyKind>, a: List<Ty>, b: List<Ty>, bound: Ty, m: List<Solved>)
    requires
        !(m is Nil),
    ensures
        !(unified_lists(k, a, b, bound, m) is Nil),
    decreases bound, 0int, a,
{
    match (a, b) {
        (List::Cons(x, a1), List::Cons(y, b1)) => {
            if *x < bound {
                lemma_unify_nonempty(k, *x, *y, m);
                lemma_unify_lists_nonempty(k, *a1, *b1, bound, unified(k, *x, *y, m));
            } else {
                lemma_unify_lists_nonempty(k, *a1, *b1, bound, m);
            }
        },
        _ => {},
    }
}

/// A pattern that matches without anything being solved is the type itself.
proof fn lemma_nothing_solved(k: Seq<TyKind>, pat: Ty, val: Ty)
    requires
        distinct_kinds(k),
        pat < k.len(),
        val < k.len(),
        ordered(k, pat),
        ordered(k, val),
        matching(k, pat, val),
        unified(k, pat, val, List::Nil) is Nil,
    ensures
        pat == val,
    decreases pat, 1int, List::<Ty>::Nil,
{
    match (crate::ty::kind_of(k, pat), crate::ty::kind_of(k, val)) {
        (TyKind::Named { args: a1, .. }, TyKind::Named { args: a2, .. }) => {
            lemma_nothing_solved_lists(k, a1, a2, pat, val);
            assert(k[pat as int] == k[val as int]);
        },
        (TyKind::Tuple(p), TyKind::Tuple(v)) => {
            lemma_nothing_solved_lists(k, p, v, pat, val);
            assert(k[pat as int] == k[val as int]);
        },
        (TyKind::Ptr(p), TyKind::Ptr(v)) => {
            lemma_nothing_solved(k, p, v);
            assert(k[pat as int] == k[val as int]);
        },
        _ => {},
    }
}

proof fn lemma_nothing_solved_lists(k: Seq<TyKind>, a: List<Ty>, b: List<Ty>, pat: Ty, val: Ty)
    requires
        distinct_kinds(k),
        pat < k.len(),
        val < k.len(),
        ordered_list(k, a, pat),
        ordered_list(k, b, val),
        a.count() == b.count(),
        a.count() < usize::MAX,
        matching_lists(k, a, b, pat),
        unified_lists(k, a, b, pat, List::Nil) is Nil,
    ensures
        a == b,
    decreases pat, 0int, a,
{
    match (a, b) {
        (List::Cons(x, a1), List::Cons(y, b1)) => {
            let m1 = unified(k, *x, *y, List::Nil);
            if !(m1 is Nil) {
                lemma_unify_lists_nonempty(k, *a1, *b1, pat, m1);
            }
            lemma_nothing_solved(k, *x, *y);
            crate::list::lemma_count_tails(a, b);
            lemma_nothing_solved_lists(k, *a1, *b1, pat, val);
        },
        _ => {
            crate::list::lemma_count_tails(a, b);
        },
    }
}

proof fn lemma_no_duplicates_parts(a: Seq<DefId>, b: Seq<DefId>)
    requires
        (a + b).no_duplicates(),
    ensures
        a.no_duplicates(),
        b.no_duplicates(),
        forall|d: DefId| #[trigger] a.contains(d) ==> !b.contains(d),
{
    let c = a + b;
    assert forall|i: int, j: int| 0 <= i < a.len() && 0 <= j < a.len() && i != j implies a[i] != a[j] by {
        assert(c[i] == a[i] && c[j] == a[j]);
    }
    assert forall|i: int, j: int| 0 <= i < b.len() && 0 <= j < b.len() && i != j implies b[i] != b[j] by {
        assert(c[a.len() + i] == b[i] && c[a.len() + j] == b[j]);
    }
    assert forall|d: DefId| #[trigger] a.contains(d) implies !b.contains(d) by {
        if b.contains(d) {
            let i = choose|i: int| 0 <= i < a.len() && a[i] == d;
            let j = choose|j: int| 0 <= j < b.len() && b[j] == d;
            assert(c[i] == d && c[a.len() + j] == d);
        }
    }
}

proof fn lemma_unify_match(k: Seq<TyKind>, pat: Ty, val: Ty, m: List<Solved>, n: List<Solved>)
    requires
        distinct_kinds(k),
        crate::ty::unions_flat(k),
        pat < k.len(),
        val < k.len(),
        ordered(k, pat),
        ordered(k, val),
        matching(k, pat, val),
        params_of(k, pat).no_duplicates(),
        unsolved(m, params_of(k, pat)),
        agree(n, unified(k, pat, val, m), params_of(k, pat)),
        !(n is Nil),
    ensures
        substituted(k, pat, n) == (k, val),
    decreases pat, 1int, List::<Ty>::Nil,
{
    let ps = params_of(k, pat);
    lemma_interned_same(k, val, 0);
    match (crate::ty::kind_of(k, pat), crate::ty::kind_of(k, val)) {
        (TyKind::Param(d), _) => {
            assert(seq![d][0] == d);
            assert(ps.contains(d));
            lemma_solved(m, d, val, d);
        },
        (TyKind::Named { args: a1, .. }, TyKind::Named { args: a2, .. }) => lemma_unify_match_lists(
            k,
            a1,
            a2,
            pat,
            val,
            m,
            n,
        ),
        (TyKind::Tuple(p), TyKind::Tuple(v)) => lemma_unify_match_lists(k, p, v, pat, val, m, n),
        (TyKind::Ptr(p), TyKind::Ptr(v)) => lemma_unify_match(k, p, v, m, n),
        _ => {
            assert(inert(k, m, ps)) by {
                assert forall|d: DefId| #[trigger] ps.contains(d) implies at_home(k, solution(m, d), d) by {
                    assert(solution(m, d) is None);
                }
            }
            lemma_unify_self(k, pat, m);
            let u = unified(k, pat, val, m);
            assert(inert(k, n, ps)) by {
                assert forall|d: DefId| #[trigger] ps.contains(d) implies at_home(k, solution(n, d), d) by {
                    assert(at_home(k, solution(u, d), d));
                }
            }
            lemma_substitute_inert(k, pat, n);
        },
    }
}

proof fn lemma_unify_match_lists(
    k: Seq<TyKind>,
    a: List<Ty>,
    b: List<Ty>,
    pat: Ty,
    val: Ty,
    m: List<Solved>,
    n: List<Solved>,
)
    requires
        distinct_kinds(k),
        crate::ty::unions_flat(k),
        pat < k.len(),
        val < k.len(),
        ordered_list(k, a, pat),
        ordered_list(k, b, val),
        a.count() == b.count(),
        a.count() < usize::MAX,
        matching_lists(k, a, b, pat),
        params_of_list(k, a, pat).no_duplicates(),
        unsolved(m, params_of_list(k, a, pat)),
        agree(n, unified_lists(k, a, b, pat, m), params_of_list(k, a, pat)),
        !(n is Nil),
    ensures
        substituted_list(k, a, pat, n) == (k, b),
    decreases pat, 0int, a,
{
    crate::list::lemma_count_tails(a, b);
    match (a, b) {
        (List::Cons(x, a1), List::Cons(y, b1)) => {
            let ps = params_of(k, *x);
            let qs = params_of_list(k, *a1, pat);
            let all = params_of_list(k, a, pat);
            assert(all =~= ps + qs);
            lemma_no_duplicates_parts(ps, qs);
            let m1 = unified(k, *x, *y, m);
            let u = unified_lists(k, *a1, *b1, pat, m1);
            assert forall|d: DefId| #[trigger] ps.contains(d) implies solution(n, d) == solution(m1, d) && solution(m, d)
                is None by {
                lemma_contains_parts(ps, qs, d);
                assert(all.contains(d));
                lemma_unify_lists_frame(k, *a1, *b1, pat, m1, d);
            }
            assert forall|d: DefId| #[trigger] qs.contains(d) implies solution(m1, d) is None && solution(n, d)
                == solution(u, d) by {
                lemma_contains_parts(ps, qs, d);
                assert(all.contains(d));
                assert(!ps.contains(d));
                lemma_unify_frame(k, *x, *y, m, d);
            }
            lemma_unify_match(k, *x, *y, m, n);
            lemma_unify_match_lists(k, *a1, *b1, pat, val, m1, n);
        },
        _ => {},
    }
}

/// A pattern that matches a type and in which no parameter occurs twice becomes
/// that type when what unification found is substituted in it.
pub proof fn law_unify_solves(k: Seq<TyKind>, pat: Ty, val: Ty)
    requires
        distinct_kinds(k),
        crate::ty::unions_flat(k),
        pat < k.len(),
        val < k.len(),
        ordered(k, pat),
        ordered(k, val),
        matching(k, pat, val),
        params_of(k, pat).no_duplicates(),
    ensures
        substituted(k, pat, unified(k, pat, val, List::Nil)) == (k, val),
{
    let n = unified(k, pat, val, List::Nil);
    if n is Nil {
        lemma_nothing_solved(k, pat, val);
    } else {
        lemma_unify_match(k, pat, val, List::Nil, n);
    }
}

} // verus!
