//! What the bounds of type parameters demand of type arguments.
use vstd::prelude::*;
use crate::ast::{Expr, ExprKind, ExtendItem, ItemKind, Type, TypeKind};
use crate::check::calls::Target;
use crate::check::sigs::Bound;
use crate::check::Ck;
use crate::diag::{Problem, Report};
use crate::ids::{DefId, ModId};
use crate::list::List;
use crate::lower::{GenericName, TypeEnv};
use crate::solve::Solved;
use crate::span::Span;
use crate::symbols::DefKind;
use crate::ty::{Ty, TyKind, ERROR_TY};
use crate::words::{T_CLONE, T_EQ, T_ORD, T_TO_STR};

verus! {

/// `t` is a later state of the same program: no diagnostic was lost.
pub open spec fn reports_more(s: Ck, t: Ck) -> bool {
    t.p == s.p && t.cur_module == s.cur_module && s.errors.len() <= t.errors.len()
}

proof fn lemma_lower(s: Ck, ty: Type, env: TypeEnv)
    ensures
        reports_more(s, s.lower(ty, env).0),
{
    reveal(Ck::lower);
    reveal(Ck::low);
    crate::lower::law_lower_grows(s.p, s.low(), List::Nil, ty, env);
}

proof fn lemma_lower_list(s: Ck, tys: List<Type>, env: TypeEnv)
    ensures
        reports_more(s, s.lower_list(tys, env).0),
{
    reveal(Ck::lower_list);
    reveal(Ck::low);
    crate::lower::law_lower_list_grows(s.p, s.low(), List::Nil, tys, env);
}

proof fn lemma_bind_params(s: Ck, gens: List<DefId>, acc: List<GenericName>)
    ensures
        reports_more(s, s.bind_params(gens, acc).0),
    decreases gens,
{
    reveal(Ck::bind_params);
    reveal(Ck::mk_param);
    reveal(Ck::mk);
    reveal(Ck::with_kinds);
    match gens {
        List::Nil => {},
        List::Cons(g, t) => {
            let (s1, ty) = s.mk_param(*g);
            lemma_bind_params(
                s1,
                *t,
                List::Cons(Box::new(GenericName { name: s.p.def_of(*g).name, ty }), Box::new(acc)),
            );
        },
    }
}

proof fn lemma_def_env(s: Ck, def: DefId, self_ty: Option<Ty>)
    ensures
        reports_more(s, s.def_env(def, self_ty).0),
{
    reveal(Ck::def_env);
    lemma_bind_params(s, s.p.def_of(def).generics, List::Nil);
}

proof fn lemma_lower_bounds(s: Ck, bounds: List<Type>, env: TypeEnv, module: ModId)
    ensures
        reports_more(s, s.lower_bounds(bounds, env, module).0),
    decreases bounds,
{
    reveal(Ck::lower_bounds);
    match bounds {
        List::Nil => {},
        List::Cons(b, t) => {
            lemma_lower_bounds(s, *t, env, module);
            match b.kind {
                TypeKind::Named { generics, .. } => {
                    lemma_lower_list(s, generics, env);
                    lemma_lower_bounds(s.lower_list(generics, env).0, *t, env, module);
                },
                _ => {},
            }
        },
    }
}

proof fn lemma_bound_ifaces(s: Ck, param: DefId)
    ensures
        reports_more(s, s.bound_ifaces(param).0),
{
    reveal(Ck::bound_ifaces);
    let d = s.p.def_of(param);
    match d.parent {
        Some(owner) => {
            lemma_def_env(s, owner, None);
            let (s1, env) = s.def_env(owner, None);
            lemma_lower_bounds(s1, d.param_bounds, env, s1.p.def_of(owner).module);
        },
        None => lemma_lower_bounds(s, d.param_bounds, s.env(), ModId(0)),
    }
}

proof fn lemma_extended_with(s: Ck, exts: List<DefId>, ty: Ty, iface: DefId)
    ensures
        reports_more(s, s.extended_with(exts, ty, iface).0),
    decreases exts,
{
    reveal(Ck::extended_with);
    match exts {
        List::Nil => {},
        List::Cons(h, t) => {
            lemma_extended_with(s, *t, ty, iface);
            match s.p.def_of(*h).item {
                Some(ItemKind::Extend(e)) => {
                    lemma_def_env(s, *h, None);
                    let (s1, env) = s.def_env(*h, None);
                    lemma_lower(s1, e.target, env);
                    lemma_extended_with(s1.lower(e.target, env).0, *t, ty, iface);
                },
                _ => {},
            }
        },
    }
}

proof fn lemma_type_implements(s: Ck, ty: Ty, iface: DefId)
    ensures
        reports_more(s, s.type_implements(ty, iface).0),
{
    reveal(Ck::type_implements);
    lemma_extended_with(s, s.p.all_of(DefKind::Extend), ty, iface);
}

// -- what a type implements ---------------------------------------------------------------

/// An `extend` block that the current module sees is for `ty` and names `iface` among
/// its interfaces.
pub open spec fn gives(s: Ck, ext: DefId, e: ExtendItem, ty: Ty, iface: DefId) -> bool {
    let d = s.p.def_of(ext);
    let (s1, env) = s.def_env(ext, None);
    let (s2, target) = s1.lower(e.target, env);
    &&& d.item == Some(ItemKind::Extend(e))
    &&& d.module == s.cur_module || d.builtin
    &&& s2.ty_matches(target, ty)
    &&& exists|i: int| 0 <= i < e.interfaces.view().len() && #[trigger] names(s, e.interfaces.view()[i], d, iface)
}

/// The written type `t` names the interface `iface` where `d` is declared.
pub open spec fn names(s: Ck, t: Type, d: crate::symbols::Def, iface: DefId) -> bool {
    match t.kind {
        TypeKind::Named { name, .. } => s.p.type_named(d.module, name.name) == Some(iface),
        _ => false,
    }
}

proof fn lemma_names_iface(s: Ck, l: List<Type>, d: crate::symbols::Def, iface: DefId)
    ensures
        s.names_iface(l, d.module, iface) == exists|i: int|
            0 <= i < l.view().len() && #[trigger] names(s, l.view()[i], d, iface),
    decreases l,
{
    reveal(Ck::names_iface);
    match l {
        List::Nil => {},
        List::Cons(h, t) => {
            lemma_names_iface(s, *t, d, iface);
            let v = seq![*h] + t.view();
            assert(l.view() == v);
            assert(v[0] == *h);
            if names(s, *h, d, iface) {
                assert(names(s, v[0], d, iface));
            }
            if s.names_iface(*t, d.module, iface) {
                let i = choose|i: int| 0 <= i < t.view().len() && #[trigger] names(s, t.view()[i], d, iface);
                assert(v[i + 1] == t.view()[i]);
                assert(names(s, v[i + 1], d, iface));
            }
            if exists|i: int| 0 <= i < v.len() && #[trigger] names(s, v[i], d, iface) {
                let i = choose|i: int| 0 <= i < v.len() && #[trigger] names(s, v[i], d, iface);
                if i > 0 {
                    assert(v[i] == t.view()[i - 1]);
                    assert(names(s, t.view()[i - 1], d, iface));
                }
            }
        },
    }
}

/// Some block of `exts` gives `iface` to `ty`, looked at in some later state.
pub open spec fn given(s: Ck, exts: Seq<DefId>, ty: Ty, iface: DefId) -> bool {
    exists|i: int, at: Ck, e: ExtendItem|
        0 <= i < exts.len() && reports_more(s, at) && #[trigger] gives(at, exts[i], e, ty, iface)
}

proof fn lemma_given(s: Ck, exts: List<DefId>, ty: Ty, iface: DefId)
    ensures
        s.extended_with(exts, ty, iface).1 ==> given(s, exts.view(), ty, iface),
    decreases exts,
{
    reveal(Ck::extended_with);
    match exts {
        List::Nil => {},
        List::Cons(h, t) => {
            let v = seq![*h] + t.view();
            assert(exts.view() == v);
            assert(v[0] == *h);
            let d = s.p.def_of(*h);
            let s2 = match d.item {
                Some(ItemKind::Extend(e)) => if d.module != s.cur_module && !d.builtin {
                    s
                } else {
                    let (s1, env) = s.def_env(*h, None);
                    s1.lower(e.target, env).0
                },
                _ => s,
            };
            match d.item {
                Some(ItemKind::Extend(e)) => {
                    lemma_def_env(s, *h, None);
                    let (s1, env) = s.def_env(*h, None);
                    lemma_lower(s1, e.target, env);
                    let (s3, target) = s1.lower(e.target, env);
                    lemma_names_iface(s3, e.interfaces, d, iface);
                    if (d.module == s.cur_module || d.builtin) && s3.ty_matches(target, ty) && s3.names_iface(
                        e.interfaces,
                        d.module,
                        iface,
                    ) {
                        let i = choose|i: int|
                            0 <= i < e.interfaces.view().len() && #[trigger] names(s3, e.interfaces.view()[i], d, iface);
                        assert(names(s, e.interfaces.view()[i], d, iface));
                        assert(gives(s, v[0], e, ty, iface));
                    }
                },
                _ => {},
            }
            lemma_given(s2, *t, ty, iface);
            if given(s2, t.view(), ty, iface) {
                let (i, at, e) = choose|i: int, at: Ck, e: ExtendItem|
                    0 <= i < t.view().len() && reports_more(s2, at) && #[trigger] gives(at, t.view()[i], e, ty, iface);
                assert(v[i + 1] == t.view()[i]);
                assert(gives(at, v[i + 1], e, ty, iface));
            }
        },
    }
}

/// A kind of value that is never changed in place: a number, `bool`, `char`, `str` or
/// `null`.
pub open spec fn is_plain_value(k: TyKind) -> bool {
    k is Int || k is Float || k is Bool || k is Char || k is Str || k is Null
}

/// The language itself gives `iface` to `ty`: the interface type to itself; `Clone` to
/// plain values and to lists and maps of them; `Eq` and `ToStr` to plain values; `Ord`
/// to numbers, characters and strings.
pub open spec fn built_in(s: Ck, ty: Ty, iface: DefId) -> bool {
    ||| s.kind(ty) is Named && s.kind(ty)->Named_def == iface
    ||| iface == s.p.well_known(T_CLONE) && (is_plain_value(s.kind(ty)) || match s.list_elem(ty) {
        Some(e) => is_plain_value(s.kind(e)),
        None => match s.map_kv(ty) {
            Some((k, v)) => is_plain_value(s.kind(k)) && is_plain_value(s.kind(v)),
            None => false,
        },
    })
    ||| iface == s.p.well_known(T_EQ) && is_plain_value(s.kind(ty))
    ||| iface == s.p.well_known(T_ORD) && (s.kind(ty) is Int || s.kind(ty) is Float || s.kind(ty) is Char
        || s.kind(ty) is Str)
    ||| iface == s.p.well_known(T_TO_STR) && is_plain_value(s.kind(ty))
}

/// A type implements an interface only if the language itself gives it, or an `extend`
/// block for the type that the current module sees names it.
pub proof fn law_implements_only_what_is_given(s: Ck, ty: Ty, iface: DefId)
    requires
        s.type_implements(ty, iface).1,
    ensures
        built_in(s, ty, iface) || given(s, s.p.all_of(DefKind::Extend).view(), ty, iface),
{
    reveal(Ck::type_implements);
    reveal(Ck::intrinsic_impl);
    reveal(Ck::named_def);
    reveal(Ck::is_immutable);
    reveal(Ck::is_stringifiable);
    reveal(Ck::is_ordered);
    lemma_given(s, s.p.all_of(DefKind::Extend), ty, iface);
}

// -- the bounds of a parameter --------------------------------------------------------------

/// Every interface among the written bounds is demanded, and nothing else.
proof fn lemma_lowered_bounds(s: Ck, bounds: List<Type>, env: TypeEnv, module: ModId, iface: DefId)
    ensures
        (exists|j: int| 0 <= j < s.lower_bounds(bounds, env, module).1.view().len() && (#[trigger] s.lower_bounds(
            bounds,
            env,
            module,
        ).1.view()[j]).iface == iface) <==> exists|i: int|
            0 <= i < bounds.view().len() && #[trigger] bound_names(s, bounds.view()[i], module, iface),
    decreases bounds,
{
    reveal(Ck::lower_bounds);
    match bounds {
        List::Nil => {},
        List::Cons(b, t) => {
            let v = seq![*b] + t.view();
            assert(bounds.view() == v && v[0] == *b);
            let s1 = match b.kind {
                TypeKind::Named { name, generics } => match s.p.type_named(module, name.name) {
                    Some(f) => if s.p.def_of(f).kind == DefKind::Interface {
                        s.lower_list(generics, env).0
                    } else {
                        s
                    },
                    None => s,
                },
                _ => s,
            };
            match b.kind {
                TypeKind::Named { generics, .. } => lemma_lower_list(s, generics, env),
                _ => {},
            }
            lemma_lowered_bounds(s1, *t, env, module, iface);
            let rest = s1.lower_bounds(*t, env, module).1.view();
            let all = s.lower_bounds(bounds, env, module).1.view();
            let first = exists|f: DefId| #[trigger] bound_names(s, *b, module, f);
            if first {
                let f = choose|f: DefId| #[trigger] bound_names(s, *b, module, f);
                assert(all.len() == rest.len() + 1 && all[0].iface == f);
                assert forall|j: int| 0 <= j < rest.len() implies #[trigger] all[j + 1] == rest[j] by {}
            } else {
                match b.kind {
                    TypeKind::Named { name, .. } => match s.p.type_named(module, name.name) {
                        Some(f) => assert(!bound_names(s, *b, module, f)),
                        None => {},
                    },
                    _ => {},
                }
                assert(all == rest);
            }
            if exists|j: int| 0 <= j < all.len() && (#[trigger] all[j]).iface == iface {
                let j = choose|j: int| 0 <= j < all.len() && (#[trigger] all[j]).iface == iface;
                if first && j == 0 {
                    assert(bound_names(s, v[0], module, iface));
                } else {
                    let k = if first {
                        j - 1
                    } else {
                        j
                    };
                    assert(all[j] == rest[k]);
                    let i = choose|i: int|
                        0 <= i < t.view().len() && #[trigger] bound_names(s1, t.view()[i], module, iface);
                    assert(v[i + 1] == t.view()[i]);
                    assert(bound_names(s, v[i + 1], module, iface));
                }
            }
            if exists|i: int| 0 <= i < v.len() && #[trigger] bound_names(s, v[i], module, iface) {
                let i = choose|i: int| 0 <= i < v.len() && #[trigger] bound_names(s, v[i], module, iface);
                if i == 0 {
                    assert(first);
                    assert(all[0].iface == iface);
                } else {
                    assert(v[i] == t.view()[i - 1]);
                    assert(bound_names(s1, t.view()[i - 1], module, iface));
                    let j = choose|j: int| 0 <= j < rest.len() && (#[trigger] rest[j]).iface == iface;
                    if first {
                        assert(all[j + 1].iface == iface);
                    } else {
                        assert(all[j].iface == iface);
                    }
                }
            }
        },
    }
}

/// The written bound names the interface `iface` in `module`.
pub open spec fn bound_names(s: Ck, b: Type, module: ModId, iface: DefId) -> bool {
    match b.kind {
        TypeKind::Named { name, .. } => s.p.type_named(module, name.name) == Some(iface) && s.p.def_of(iface).kind
            == DefKind::Interface,
        _ => false,
    }
}

/// A type parameter is bounded by exactly the interfaces that its declaration names, in
/// the module of what declares it.
pub proof fn law_bounds_as_written(s: Ck, param: DefId, owner: DefId, iface: DefId)
    requires
        s.p.def_of(param).parent == Some(owner),
    ensures
        ({
            let written = s.p.def_of(param).param_bounds.view();
            let found = s.bound_ifaces(param).1.view();
            (exists|j: int| 0 <= j < found.len() && (#[trigger] found[j]).iface == iface) <==> exists|i: int|
                0 <= i < written.len() && #[trigger] bound_names(s, written[i], s.p.def_of(owner).module, iface)
        }),
{
    reveal(Ck::bound_ifaces);
    let d = s.p.def_of(param);
    lemma_def_env(s, owner, None);
    let (s1, env) = s.def_env(owner, None);
    let module = s.p.def_of(owner).module;
    lemma_lowered_bounds(s1, d.param_bounds, env, module, iface);
    let written = d.param_bounds.view();
    assert forall|i: int| 0 <= i < written.len() implies #[trigger] bound_names(s1, written[i], module, iface)
        == bound_names(s, written[i], module, iface) by {}
    assert forall|i: int| 0 <= i < written.len() implies #[trigger] bound_names(s, written[i], module, iface)
        == bound_names(s1, written[i], module, iface) by {}
}

// -- that they are enforced -------------------------------------------------------------------

/// Demanding one bound: a type that implements the interface adds nothing to what looking
/// for it adds; one that does not adds one diagnostic, at `span`.
pub open spec fn bound_step(a: Ck, iface: DefId, arg: Ty, span: Span, b: Ck) -> bool {
    let (t, ok) = a.type_implements(arg, iface);
    if ok {
        b.errors == t.errors
    } else {
        exists|text: Seq<char>| b.errors == #[trigger] t.errors.push(Report { problem: Problem::Message(text), span })
    }
}

/// `trace` leads from `from` to `to` by demanding the bounds one by one.
pub open spec fn demanded(from: Ck, bounds: Seq<Bound>, arg: Ty, span: Span, to: Ck, trace: Seq<Ck>) -> bool {
    &&& trace.len() == bounds.len() + 1
    &&& trace[0] == from
    &&& trace.last() == to
    &&& forall|j: int|
        0 <= j < bounds.len() ==> #[trigger] bound_step(trace[j], bounds[j].iface, arg, span, trace[j + 1])
}

/// Each bound is demanded of a type argument, in order, and each that it does not meet
/// adds exactly one diagnostic.
pub proof fn law_bounds_demanded(s: Ck, bounds: List<Bound>, arg: Ty, span: Span)
    ensures
        exists|trace: Seq<Ck>| #[trigger]
            demanded(s, bounds.view(), arg, span, s.require_bounds(bounds, arg, span), trace),
    decreases bounds,
{
    reveal(Ck::require_bounds);
    reveal(Ck::say);
    reveal(Ck::fail);
    let to = s.require_bounds(bounds, arg, span);
    match bounds {
        List::Nil => {
            assert(demanded(s, bounds.view(), arg, span, to, seq![s]));
        },
        List::Cons(b, t) => {
            let v = seq![*b] + t.view();
            assert(bounds.view() == v && v[0] == *b);
            let (s1, ok) = s.type_implements(arg, b.iface);
            let text = "type `"@ + s1.show(arg) + "` does not implement `"@ + s1.name(s1.p.def_of(b.iface).name)
                + "`, required by this bound"@;
            let s2 = if ok {
                s1
            } else {
                s1.say(text, span)
            };
            if !ok {
                assert(s2.errors == s1.errors.push(Report { problem: Problem::Message(text), span }));
            }
            assert(bound_step(s, b.iface, arg, span, s2));
            law_bounds_demanded(s2, *t, arg, span);
            let rest = choose|trace: Seq<Ck>| #[trigger]
                demanded(s2, t.view(), arg, span, s2.require_bounds(*t, arg, span), trace);
            let trace = seq![s] + rest;
            assert(trace.last() == rest.last());
            assert forall|j: int| 0 <= j < v.len() implies #[trigger] bound_step(
                trace[j],
                v[j].iface,
                arg,
                span,
                trace[j + 1],
            ) by {
                if j > 0 {
                    assert(v[j] == t.view()[j - 1]);
                    assert(bound_step(rest[j - 1], t.view()[j - 1].iface, arg, span, rest[j - 1 + 1]));
                }
            }
            assert(demanded(s, v, arg, span, to, trace));
        },
    }
}

/// From `a` to `b`, the bounds of parameter `g` were demanded of `arg`; nothing is
/// demanded of a type that failed to check.
pub open spec fn position_step(a: Ck, g: DefId, arg: Ty, span: Span, b: Ck) -> bool {
    if a.is_err(arg) {
        b == a
    } else {
        let (t, bounds) = a.bound_ifaces(g);
        exists|trace: Seq<Ck>| #[trigger] demanded(t, bounds.view(), arg, span, b, trace)
    }
}

/// `trace` leads from `from` to `to` by one parameter after the other.
pub open spec fn all_demanded(
    from: Ck,
    gens: Seq<DefId>,
    args: Seq<Ty>,
    span: Span,
    to: Ck,
    trace: Seq<Ck>,
) -> bool {
    let n = if gens.len() < args.len() {
        gens.len()
    } else {
        args.len()
    };
    &&& trace.len() == n + 1
    &&& trace[0] == from
    &&& trace.last() == to
    &&& forall|i: int| 0 <= i < n ==> #[trigger] position_step(trace[i], gens[i], args[i], span, trace[i + 1])
}

/// Every type argument meets the bounds of its parameter, or what is not met is
/// reported: argument by argument and bound by bound, one diagnostic each.
pub proof fn law_every_bound_demanded(s: Ck, gens: List<DefId>, args: List<Ty>, span: Span)
    ensures
        exists|trace: Seq<Ck>| #[trigger]
            all_demanded(s, gens.view(), args.view(), span, s.check_bounds(gens, args, span), trace),
    decreases gens,
{
    reveal(Ck::check_bounds);
    let to = s.check_bounds(gens, args, span);
    match (gens, args) {
        (List::Cons(g, gt), List::Cons(a, at)) => {
            let gv = seq![*g] + gt.view();
            let av = seq![*a] + at.view();
            assert(gens.view() == gv && args.view() == av && gv[0] == *g && av[0] == *a);
            let s1 = if s.is_err(*a) {
                s
            } else {
                let (s2, bounds) = s.bound_ifaces(*g);
                law_bounds_demanded(s2, bounds, *a, span);
                s2.require_bounds(bounds, *a, span)
            };
            assert(position_step(s, *g, *a, span, s1));
            law_every_bound_demanded(s1, *gt, *at, span);
            let rest = choose|trace: Seq<Ck>| #[trigger]
                all_demanded(s1, gt.view(), at.view(), span, s1.check_bounds(*gt, *at, span), trace);
            let trace = seq![s] + rest;
            assert(trace.last() == rest.last());
            let n = trace.len() - 1;
            assert forall|i: int| 0 <= i < n implies #[trigger] position_step(
                trace[i],
                gv[i],
                av[i],
                span,
                trace[i + 1],
            ) by {
                if i > 0 {
                    assert(gv[i] == gt.view()[i - 1] && av[i] == at.view()[i - 1]);
                    assert(position_step(rest[i - 1], gt.view()[i - 1], at.view()[i - 1], span, rest[i - 1 + 1]));
                }
            }
            assert(all_demanded(s, gv, av, span, to, trace));
        },
        _ => {
            assert(all_demanded(s, gens.view(), args.view(), span, to, seq![s]));
        },
    }
}

/// `arg` implements every interface that parameter `g` is bounded by, or failed to check.
pub open spec fn meets(at: Ck, g: DefId, arg: Ty) -> bool {
    at.is_err(arg) || forall|j: int|
        0 <= j < at.bound_ifaces(g).1.view().len() ==> implemented(at, arg, #[trigger] at.bound_ifaces(g).1.view()[j])
}

pub open spec fn implemented(s: Ck, arg: Ty, b: Bound) -> bool {
    exists|at: Ck| reports_more(s, at) && #[trigger] at.type_implements(arg, b.iface).1
}

proof fn lemma_require_bounds(s: Ck, bounds: List<Bound>, arg: Ty, span: Span)
    ensures
        reports_more(s, s.require_bounds(bounds, arg, span)),
        s.require_bounds(bounds, arg, span).errors.len() == s.errors.len() ==> forall|j: int|
            0 <= j < bounds.view().len() ==> implemented(s, arg, #[trigger] bounds.view()[j]),
    decreases bounds,
{
    reveal(Ck::require_bounds);
    reveal(Ck::say);
    reveal(Ck::fail);
    match bounds {
        List::Nil => {},
        List::Cons(b, t) => {
            let v = seq![*b] + t.view();
            assert(bounds.view() == v && v[0] == *b);
            lemma_type_implements(s, arg, b.iface);
            let (s1, ok) = s.type_implements(arg, b.iface);
            let text = "type `"@ + s1.show(arg) + "` does not implement `"@ + s1.name(s1.p.def_of(b.iface).name)
                + "`, required by this bound"@;
            let s2 = if ok {
                s1
            } else {
                s1.say(text, span)
            };
            lemma_require_bounds(s2, *t, arg, span);
            if s.require_bounds(bounds, arg, span).errors.len() == s.errors.len() {
                assert(ok);
                assert(implemented(s, arg, v[0]));
                assert forall|j: int| 0 <= j < v.len() implies implemented(s, arg, #[trigger] v[j]) by {
                    if j > 0 {
                        assert(v[j] == t.view()[j - 1]);
                        assert(implemented(s2, arg, t.view()[j - 1]));
                        let at = choose|at: Ck|
                            reports_more(s2, at) && #[trigger] at.type_implements(arg, v[j].iface).1;
                        assert(reports_more(s, at) && at.type_implements(arg, v[j].iface).1);
                    }
                }
            }
        },
    }
}

proof fn lemma_check_bounds(s: Ck, gens: List<DefId>, args: List<Ty>, span: Span)
    ensures
        reports_more(s, s.check_bounds(gens, args, span)),
    decreases gens,
{
    reveal(Ck::check_bounds);
    match (gens, args) {
        (List::Cons(g, gt), List::Cons(a, at)) => {
            lemma_bound_ifaces(s, *g);
            let (s2, bounds) = s.bound_ifaces(*g);
            lemma_require_bounds(s2, bounds, *a, span);
            let s1 = if s.is_err(*a) {
                s
            } else {
                s2.require_bounds(bounds, *a, span)
            };
            lemma_check_bounds(s1, *gt, *at, span);
        },
        _ => {},
    }
}

/// Type arguments are accepted without a diagnostic only if each of them implements
/// every interface that its parameter is bounded by, or failed to check before.
pub proof fn law_accepted_arguments_meet_bounds(s: Ck, gens: List<DefId>, args: List<Ty>, span: Span, i: int)
    requires
        s.check_bounds(gens, args, span).errors.len() == s.errors.len(),
        0 <= i < gens.view().len(),
        i < args.view().len(),
    ensures
        exists|at: Ck| reports_more(s, at) && #[trigger] meets(at, gens.view()[i], args.view()[i]),
    decreases gens,
{
    reveal(Ck::check_bounds);
    match (gens, args) {
        (List::Cons(g, gt), List::Cons(a, at)) => {
            let gv = seq![*g] + gt.view();
            let av = seq![*a] + at.view();
            assert(gens.view() == gv && args.view() == av && gv[0] == *g && av[0] == *a);
            lemma_bound_ifaces(s, *g);
            let (s2, bounds) = s.bound_ifaces(*g);
            lemma_require_bounds(s2, bounds, *a, span);
            let s1 = if s.is_err(*a) {
                s
            } else {
                s2.require_bounds(bounds, *a, span)
            };
            lemma_check_bounds(s1, *gt, *at, span);
            if i == 0 {
                if !s.is_err(*a) {
                    assert forall|j: int| 0 <= j < bounds.view().len() implies implemented(
                        s,
                        *a,
                        #[trigger] s.bound_ifaces(*g).1.view()[j],
                    ) by {
                        assert(implemented(s2, *a, bounds.view()[j]));
                        let t = choose|t: Ck|
                            reports_more(s2, t) && #[trigger] t.type_implements(*a, bounds.view()[j].iface).1;
                        assert(reports_more(s, t) && t.type_implements(*a, bounds.view()[j].iface).1);
                    }
                }
                assert(meets(s, gv[0], av[0]));
            } else {
                assert(gv[i] == gt.view()[i - 1] && av[i] == at.view()[i - 1]);
                law_accepted_arguments_meet_bounds(s1, *gt, *at, span, i - 1);
                let t = choose|t: Ck| reports_more(s1, t) && #[trigger] meets(t, gv[i], av[i]);
                assert(reports_more(s, t) && meets(t, gv[i], av[i]));
            }
        },
        _ => {},
    }
}

proof fn lemma_expect(s: Ck, found: Ty, expected: Ty, span: Span)
    ensures
        reports_more(s, s.expect(found, expected, span)),
{
    reveal(Ck::expect);
    reveal(Ck::fail);
    reveal(Ck::bake);
    reveal(Ck::add_node);
    reveal(Ck::put);
}

proof fn lemma_expect_args(s: Ck, args: List<Expr>, tys: List<Ty>, m: List<Solved>)
    ensures
        reports_more(s, s.expect_args(args, tys, m).0),
    decreases args,
{
    reveal(Ck::expect_args);
    reveal(Ck::subst);
    reveal(Ck::with_kinds);
    match (args, tys) {
        (List::Cons(a, at), List::Cons(ty, tt)) => {
            let (s1, want) = s.subst(*ty, m);
            lemma_expect(s1, s1.ty_at(a.span), want, a.span);
            lemma_expect_args(s1.expect(s1.ty_at(a.span), want, a.span), *at, *tt, m);
        },
        _ => {},
    }
}

proof fn lemma_fn_ret(s: Ck, def: DefId, env: TypeEnv, m: List<Solved>)
    ensures
        reports_more(s, s.fn_ret(def, env, m).0),
{
    reveal(Ck::fn_ret);
    reveal(Ck::lower_ret);
    reveal(Ck::subst);
    reveal(Ck::with_kinds);
    match s.p.def_of(def).item {
        Some(ItemKind::Function(f)) | Some(ItemKind::Extern(crate::ast::ExternItem::Function(f))) => {
            match f.return_type {
                Some(t) => lemma_lower(s, t, env),
                None => {},
            }
        },
        _ => {},
    }
}

/// What a type parameter stands for in a call; the error type, if nothing decides it.
pub open spec fn argument_of(m: List<Solved>, g: DefId) -> Ty {
    match crate::solve::solution(m, g) {
        Some(t) => t,
        None => ERROR_TY,
    }
}

/// A call of a generic function ends without a new diagnostic only if what each of its
/// type parameters stands for meets the bounds of the parameter.
pub proof fn law_generic_call_meets_bounds(s: Ck, e: Expr, target: Target, m: List<Solved>, i: int)
    requires
        s.finish_generic(e, target, m).0.errors.len() == s.errors.len(),
        0 <= i < s.p.def_of(target.method).generics.view().len(),
    ensures
        ({
            let g = s.p.def_of(target.method).generics.view()[i];
            exists|at: Ck| reports_more(s, at) && #[trigger] meets(at, g, argument_of(m, g))
        }),
{
    reveal(Ck::finish_generic);
    reveal(Ck::check_arity);
    reveal(Ck::fail);
    let d = s.p.def_of(target.method);
    let s1 = s.check_arity(target.tys.count(), crate::check::calls::arg_count(e, false), e.span);
    let targs = crate::solve::solutions(m, d.generics, ERROR_TY);
    lemma_check_bounds(s1, d.generics, targs, e.span);
    let s2 = s1.check_bounds(d.generics, targs, e.span);
    let s3 = match e.kind {
        ExprKind::Call { args, .. } => {
            lemma_expect_args(s2, args, target.tys, m);
            s2.expect_args(args, target.tys, m).0
        },
        _ => s2,
    };
    lemma_fn_ret(s3, target.method, target.env, m);
    lemma_solutions(m, d.generics, i);
    law_accepted_arguments_meet_bounds(s1, d.generics, targs, e.span, i);
    let g = d.generics.view()[i];
    let at = choose|at: Ck| reports_more(s1, at) && #[trigger] meets(at, g, targs.view()[i]);
    assert(reports_more(s, at) && meets(at, g, targs.view()[i]));
}

proof fn lemma_solutions(m: List<Solved>, gens: List<DefId>, i: int)
    requires
        0 <= i < gens.view().len(),
    ensures
        crate::solve::solutions(m, gens, ERROR_TY).view().len() == gens.view().len(),
        crate::solve::solutions(m, gens, ERROR_TY).view()[i] == argument_of(m, gens.view()[i]),
    decreases gens,
{
    match gens {
        List::Nil => {},
        List::Cons(g, t) => {
            let v = seq![*g] + t.view();
            assert(gens.view() == v && v[0] == *g);
            if i > 0 {
                assert(v[i] == t.view()[i - 1]);
                lemma_solutions(m, *t, i - 1);
            } else if t.view().len() > 0 {
                lemma_solutions(m, *t, 0);
            } else {
                assert(*t is Nil);
            }
        },
    }
}

} // verus!
