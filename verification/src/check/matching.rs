//! What makes a `match` complete.
use vstd::prelude::*;
use crate::ast::{Expr, MatchArm, Pattern, PatternKind};
use crate::check::Ck;
use crate::diag::{Problem, Report};
use crate::list::List;
use crate::span::Span;
use crate::ty::{Ty, NULL_TY};

verus! {

/// The pattern stands for the variant `v` of a union: it names its type, or it is
/// `null` and `v` is the type of `null`.
pub open spec fn stands_for(s: Ck, p: Pattern, v: Ty) -> bool {
    match p.kind {
        PatternKind::TypeBinding { ty, .. } => s.lower(ty, s.env()).1 == v,
        PatternKind::UnitPath(path) => match s.p.type_named(s.cur_module, path.name.name) {
            Some(def) => s.mk_named(def, List::Nil).1 == v,
            None => false,
        },
        PatternKind::Literal(e) => e.kind is Null && v == NULL_TY,
        _ => false,
    }
}

/// The state in which the pattern of arm `i` is read: the types that the earlier arms
/// without a guard name have been made.
pub open spec fn reading(s: Ck, arms: Seq<MatchArm>, i: nat) -> Ck
    decreases i,
{
    if i == 0 || i > arms.len() {
        s
    } else {
        let t = reading(s, arms, (i - 1) as nat);
        let a = arms[i - 1];
        if a.guard is Some {
            t
        } else {
            match a.pattern.kind {
                PatternKind::TypeBinding { ty, .. } => t.lower(ty, t.env()).0,
                PatternKind::UnitPath(path) => match t.p.type_named(t.cur_module, path.name.name) {
                    Some(def) => t.mk_named(def, List::Nil).0,
                    None => t,
                },
                _ => t,
            }
        }
    }
}

/// Arm `i` has no guard and stands for `v`.
pub open spec fn arm_stands_for(s: Ck, arms: Seq<MatchArm>, i: int, v: Ty) -> bool {
    arms[i].guard is None && stands_for(reading(s, arms, i as nat), arms[i].pattern, v)
}

/// Some arm without a guard stands for `v`.
pub open spec fn matched(s: Ck, arms: Seq<MatchArm>, v: Ty) -> bool {
    exists|i: int| 0 <= i < arms.len() && #[trigger] arm_stands_for(s, arms, i, v)
}

/// The arm has no guard and takes whatever comes.
pub open spec fn takes_anything(a: MatchArm) -> bool {
    a.guard is None && (a.pattern.kind is Wildcard || a.pattern.kind is Binding)
}

/// Some arm without a guard takes whatever comes.
pub open spec fn takes_all(arms: Seq<MatchArm>) -> bool {
    exists|i: int| 0 <= i < arms.len() && takes_anything(#[trigger] arms[i])
}

proof fn lemma_takes_all(a: MatchArm, t: List<MatchArm>)
    ensures
        takes_all(seq![a] + t.view()) == (takes_anything(a) || takes_all(t.view())),
{
    let l = seq![a] + t.view();
    if takes_anything(a) {
        assert(takes_anything(l[0]));
    }
    if takes_all(t.view()) {
        let i = choose|i: int| 0 <= i < t.view().len() && takes_anything(#[trigger] t.view()[i]);
        assert(l[i + 1] == t.view()[i]);
        assert(takes_anything(l[i + 1]));
    }
    if takes_all(l) {
        let i = choose|i: int| 0 <= i < l.len() && takes_anything(#[trigger] l[i]);
        if i > 0 {
            assert(l[i] == t.view()[i - 1]);
            assert(takes_anything(t.view()[i - 1]));
        }
    }
}

proof fn lemma_catch_all(s: Ck, arms: List<MatchArm>, sty: Ty)
    requires
        s.kind(sty) is Union,
    ensures
        s.has_catch_all(arms, sty) == (s, takes_all(arms.view())),
    decreases arms,
{
    reveal(Ck::has_catch_all);
    reveal(Ck::is_union);
    match arms {
        List::Nil => {},
        List::Cons(a, t) => {
            lemma_takes_all(*a, *t);
            lemma_catch_all(s, *t, sty);
            assert(s.is_irrefutable(a.pattern, sty) == (s, a.pattern.kind is Wildcard || a.pattern.kind is Binding));
        },
    }
}

/// Reading the arms one by one, or the first and then the others.
proof fn lemma_reading(s: Ck, a: MatchArm, t: Seq<MatchArm>, i: nat)
    requires
        i <= t.len(),
    ensures
        reading(s, seq![a] + t, i + 1) == reading(reading(s, seq![a] + t, 1), t, i),
    decreases i,
{
    let l = seq![a] + t;
    if i > 0 {
        lemma_reading(s, a, t, (i - 1) as nat);
        assert(l[i as int] == t[i - 1]);
    }
}

proof fn lemma_reads(s: Ck, p: Pattern)
    ensures
        s.pattern_test_ty(p).0 == (match p.kind {
            PatternKind::TypeBinding { ty, .. } => s.lower(ty, s.env()).0,
            PatternKind::UnitPath(path) => match s.p.type_named(s.cur_module, path.name.name) {
                Some(def) => s.mk_named(def, List::Nil).0,
                None => s,
            },
            _ => s,
        }),
        forall|v: Ty| #[trigger]
            stands_for(s, p, v) == (s.pattern_test_ty(p).1 == Some(v) || (s.pattern_test_ty(p).1 is None
                && crate::check::rules::null_pattern(p) && v == NULL_TY)),
{
    reveal(Ck::pattern_test_ty);
}

proof fn lemma_matched(s: Ck, a: MatchArm, t: List<MatchArm>, v: Ty)
    ensures
        matched(s, seq![a] + t.view(), v) == ((a.guard is None && stands_for(s, a.pattern, v)) || matched(
            reading(s, seq![a] + t.view(), 1),
            t.view(),
            v,
        )),
{
    let l = seq![a] + t.view();
    let s1 = reading(s, l, 1);
    assert(reading(s, l, 0) == s);
    if a.guard is None && stands_for(s, a.pattern, v) {
        assert(arm_stands_for(s, l, 0, v));
    }
    if matched(s1, t.view(), v) {
        let i = choose|i: int| 0 <= i < t.view().len() && #[trigger] arm_stands_for(s1, t.view(), i, v);
        lemma_reading(s, a, t.view(), i as nat);
        assert(l[i + 1] == t.view()[i]);
        assert(arm_stands_for(s, l, i + 1, v));
    }
    if matched(s, l, v) {
        let i = choose|i: int| 0 <= i < l.len() && #[trigger] arm_stands_for(s, l, i, v);
        if i > 0 {
            lemma_reading(s, a, t.view(), (i - 1) as nat);
            assert(l[i] == t.view()[i - 1]);
            assert(arm_stands_for(s1, t.view(), i - 1, v));
        }
    }
}

proof fn lemma_covered(s: Ck, arms: List<MatchArm>)
    ensures
        s.covered(arms).0 == reading(s, arms.view(), arms.view().len()),
        forall|v: Ty| #[trigger]
            crate::ty::has_ty(s.covered(arms).1, v) == matched(s, arms.view(), v),
    decreases arms,
{
    reveal(Ck::covered);
    match arms {
        List::Nil => {},
        List::Cons(a, t) => {
            let l = seq![*a] + t.view();
            let s1 = reading(s, l, 1);
            assert(reading(s, l, 0) == s);
            assert(l[0] == *a);
            lemma_reads(s, a.pattern);
            assert(s1 == if a.guard is None {
                s.pattern_test_ty(a.pattern).0
            } else {
                s
            });
            lemma_covered(s1, *t);
            lemma_reading(s, *a, t.view(), t.view().len());
            assert forall|v: Ty| #[trigger]
                crate::ty::has_ty(s.covered(arms).1, v) == matched(s, arms.view(), v) by {
                lemma_matched(s, *a, *t, v);
                assert(crate::ty::has_ty(s1.covered(*t).1, v) == matched(s1, t.view(), v));
                assert(stands_for(s, a.pattern, v) == (s.pattern_test_ty(a.pattern).1 == Some(v) || (s.pattern_test_ty(
                    a.pattern,
                ).1 is None && crate::check::rules::null_pattern(a.pattern) && v == NULL_TY)));
            }
        },
    }
}

proof fn lemma_without(l: List<Ty>, drop: List<Ty>, x: Ty)
    ensures
        crate::ty::has_ty(crate::ty::without(l, drop), x) == (crate::ty::has_ty(l, x) && !crate::ty::has_ty(drop, x)),
    decreases l,
{
    match l {
        List::Nil => {},
        List::Cons(_, t) => lemma_without(*t, drop, x),
    }
}

/// `missing` are the alternatives `vs` that no arm without a guard stands for.
pub open spec fn are_missing(s: Ck, arms: Seq<MatchArm>, vs: List<Ty>, missing: List<Ty>) -> bool {
    forall|v: Ty| #[trigger]
        crate::ty::has_ty(missing, v) <==> crate::ty::has_ty(vs, v) && !matched(s, arms, v)
}

/// A `match` on a union is complete exactly if an arm without a guard takes
/// everything, or each alternative has an arm without a guard that stands for it.
/// Otherwise one diagnostic is added, and it lists exactly the alternatives that have
/// no such arm. An arm with a guard never counts.
pub proof fn law_match_on_union(s: Ck, sty: Ty, arms: List<MatchArm>, span: Span)
    requires
        s.kind(sty) is Union,
    ensures
        ({
            let vs = s.kind(sty)->Union_0;
            let r = s.check_exhaustive(sty, arms, span);
            let end = reading(s, arms.view(), arms.view().len());
            if takes_all(arms.view()) {
                r.errors == s.errors
            } else if forall|v: Ty| #[trigger] crate::ty::has_ty(vs, v) ==> matched(s, arms.view(), v) {
                r.errors == end.errors
            } else {
                exists|missing: List<Ty>|
                    {
                        &&& #[trigger] are_missing(s, arms.view(), vs, missing)
                        &&& r.errors == end.errors.push(
                            Report { problem: Problem::NonExhaustiveMatch { missing: end.show_all(missing) }, span },
                        )
                    }
            }
        }),
{
    reveal(Ck::check_exhaustive);
    reveal(Ck::fail);
    lemma_catch_all(s, arms, sty);
    lemma_covered(s, arms);
    let vs = s.kind(sty)->Union_0;
    let seen = s.covered(arms).1;
    let missing = crate::ty::without(vs, seen);
    assert forall|v: Ty| #[trigger]
        crate::ty::has_ty(missing, v) <==> crate::ty::has_ty(vs, v) && !matched(s, arms.view(), v) by {
        lemma_without(vs, seen, v);
        assert(crate::ty::has_ty(seen, v) == matched(s, arms.view(), v));
    }
    assert(are_missing(s, arms.view(), vs, missing));
    match missing {
        List::Nil => {
            assert forall|v: Ty| #[trigger] crate::ty::has_ty(vs, v) implies matched(s, arms.view(), v) by {
                assert(!crate::ty::has_ty(missing, v));
            }
        },
        List::Cons(h, _) => {
            assert(crate::ty::has_ty(missing, *h));
            assert(crate::ty::has_ty(vs, *h) && !matched(s, arms.view(), *h));
        },
    }
}

/// Arm `i` has no guard and matches every value of type `sty`.
pub open spec fn arm_irrefutable(at: Ck, arms: Seq<MatchArm>, i: int, sty: Ty) -> bool {
    arms[i].guard is None && at.is_irrefutable(arms[i].pattern, sty).1
}

/// A `match` on anything but a union is complete only if some arm without a guard
/// matches every value; otherwise one diagnostic is added after what reading the
/// patterns adds.
pub proof fn law_match_on_other(s: Ck, sty: Ty, arms: List<MatchArm>, span: Span)
    requires
        !(s.has_catch_all(arms, sty).0.kind(sty) is Union),
    ensures
        ({
            let r = s.check_exhaustive(sty, arms, span);
            let (t, all) = s.has_catch_all(arms, sty);
            &&& all ==> exists|i: int, at: Ck|
                0 <= i < arms.view().len() && #[trigger] arm_irrefutable(at, arms.view(), i, sty)
            &&& !all ==> exists|text: Seq<char>|
                r.errors == #[trigger] t.errors.push(Report { problem: Problem::Message(text), span })
            &&& all ==> r.errors == t.errors
        }),
{
    reveal(Ck::check_exhaustive);
    reveal(Ck::say);
    reveal(Ck::fail);
    lemma_some_irrefutable(s, arms, sty);
    let (t, all) = s.has_catch_all(arms, sty);
    if !all {
        let text = "non-exhaustive match: add a `_` arm"@;
        assert(s.check_exhaustive(sty, arms, span).errors == t.errors.push(
            Report { problem: Problem::Message(text), span },
        ));
    }
}

proof fn lemma_some_irrefutable(s: Ck, arms: List<MatchArm>, sty: Ty)
    ensures
        s.has_catch_all(arms, sty).1 ==> exists|i: int, at: Ck|
            0 <= i < arms.view().len() && #[trigger] arm_irrefutable(at, arms.view(), i, sty),
    decreases arms,
{
    reveal(Ck::has_catch_all);
    match arms {
        List::Nil => {},
        List::Cons(a, t) => {
            let l = seq![*a] + t.view();
            assert(l[0] == *a);
            assert(arms.view() == l);
            let s1 = if a.guard is None {
                s.is_irrefutable(a.pattern, sty).0
            } else {
                s
            };
            lemma_some_irrefutable(s1, *t, sty);
            if a.guard is None && s.is_irrefutable(a.pattern, sty).1 {
                assert(arm_irrefutable(s, l, 0, sty));
            } else if s1.has_catch_all(*t, sty).1 {
                let (i, at) = choose|i: int, at: Ck|
                    0 <= i < t.view().len() && #[trigger] arm_irrefutable(at, t.view(), i, sty);
                assert(l[i + 1] == t.view()[i]);
                assert(arm_irrefutable(at, l, i + 1, sty));
            }
        },
    }
}

/// A pattern that matches every value of a type is a name or `_`; or it names exactly
/// that type, which is neither a union nor `dynamic`; or it is a tuple of as many
/// patterns as the type has elements, the first of which matches every value of the
/// first element.
pub proof fn law_irrefutable(s: Ck, p: Pattern, sty: Ty)
    ensures
        s.is_irrefutable(p, sty).1 ==> match p.kind {
            PatternKind::Wildcard | PatternKind::Binding(_) => true,
            PatternKind::TypeBinding { ty, .. } => {
                &&& !(s.kind(sty) is Union)
                &&& !(s.kind(sty) is Dynamic)
                &&& s.lower(ty, s.env()).1 == sty
            },
            PatternKind::Tuple { elems, rest } => {
                &&& rest is None
                &&& s.kind(sty) is Tuple
                &&& s.kind(sty)->Tuple_0.count() == elems.count()
                &&& s.all_irrefutable(elems, s.kind(sty)->Tuple_0).1
            },
            _ => false,
        },
        p.kind is Wildcard || p.kind is Binding ==> s.is_irrefutable(p, sty).1,
{
    reveal(Ck::is_union);
    reveal(Ck::is_dynamic);
    reveal(Ck::pattern_test_ty);
}

/// If patterns match all tuples of the types `tys`, each of them matches every value of
/// its type.
pub proof fn law_all_irrefutable(s: Ck, l: List<Pattern>, tys: List<Ty>, i: int)
    requires
        s.all_irrefutable(l, tys).1,
        0 <= i < l.view().len(),
        i < tys.view().len(),
    ensures
        exists|at: Ck| #[trigger] at.is_irrefutable(l.view()[i], tys.view()[i]).1,
    decreases l,
{
    match (l, tys) {
        (List::Cons(p, t), List::Cons(ty, rest)) => {
            if i == 0 {
                assert(l.view()[0] == *p && tys.view()[0] == *ty);
                assert(s.is_irrefutable(l.view()[0], tys.view()[0]).1);
            } else {
                assert(l.view()[i] == t.view()[i - 1] && tys.view()[i] == rest.view()[i - 1]);
                let s1 = s.is_irrefutable(*p, *ty).0;
                law_all_irrefutable(s1, *t, *rest, i - 1);
            }
        },
        _ => {},
    }
}

/// A `match` expression on a union in which some alternative has no arm without a guard
/// is reported, at the whole expression and after everything else.
pub proof fn law_incomplete_match_reported(s: Ck, e: Expr, expected: Option<Ty>, v: Ty)
    requires
        e.kind is Match,
        ({
            let (s1, sty) = s.check_expr(*e.kind->Match_scrutinee, None);
            let arms = e.kind->Match_arms;
            let t = s1.check_arms(arms, sty, expected).0;
            &&& !s1.is_nullable_ptr(sty)
            &&& t.kind(sty) is Union
            &&& crate::ty::has_ty(t.kind(sty)->Union_0, v)
            &&& !takes_all(arms.view())
            &&& !matched(t, arms.view(), v)
        }),
    ensures
        ({
            let r = s.check_match(e, expected).0;
            &&& r.errors.len() > 0
            &&& r.errors.last().problem is NonExhaustiveMatch
            &&& r.errors.last().span == e.span
        }),
{
    let (s1, sty) = s.check_expr(*e.kind->Match_scrutinee, None);
    let arms = e.kind->Match_arms;
    let (t, tys) = s1.check_arms(arms, sty, expected);
    law_match_on_union(t, sty, arms, e.span);
    let s5 = t.check_exhaustive(sty, arms, e.span);
    reveal(Ck::mk_union);
    reveal(Ck::with_kinds);
    assert(s.check_match(e, expected).0.errors == s5.errors);
}

} // verus!
