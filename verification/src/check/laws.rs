//! What the checker's rules promise.
use vstd::prelude::*;
use crate::ast::{Attribute, Expr};
use crate::check::{Binding, Ck};
use crate::diag::{Problem, Report};
use crate::hir::{Body, CallKind, LocalInfo, Node, NodeId, NodeKind};
use crate::ids::{DefId, LocalId};
use crate::list::List;
use crate::names::Symbol;
use crate::results::{Adjust, ValueRes};
use crate::span::Span;
use crate::ty::{Ty, TyKind};

verus! {

// -- scopes ---------------------------------------------------------------------------

/// Leaving a scope right after entering it changes nothing at all.
pub proof fn law_scope_undone(s: Ck)
    ensures
        s.push_scope().pop_scope() == s,
{
    reveal(Ck::push_scope);
    reveal(Ck::pop_scope);
}

/// Undoing a narrowing right after it changes nothing.
pub proof fn law_narrowing_undone(s: Ck, local: LocalId, ty: Ty)
    ensures
        s.narrow(local, ty).widen_back() == s,
{
    reveal(Ck::narrow);
    reveal(Ck::widen_back);
}

proof fn lemma_record_res(s: Ck, span: Span, res: ValueRes, ty: Ty)
    ensures
        s.record_res(span, res, ty).scopes == s.scopes,
        s.record_res(span, res, ty).locals == s.locals,
        s.record_res(span, res, ty).errors == s.errors,
{
    reveal(Ck::record_res);
    reveal(Ck::name_node);
    reveal(Ck::add_node);
    reveal(Ck::put);
}

/// Inside a scope, a name that was just bound stands for its new local, and every
/// other name for what it stood for before.
pub proof fn law_bind_innermost(s: Ck, name: Symbol, span: Span, ty: Ty, other: Symbol)
    requires
        s.scopes is Cons,
    ensures
        ({
            let (s1, id) = s.bind(name, span, ty);
            s1.lookup(other) == if other == name {
                Some(Binding { name, ty, local: id })
            } else {
                s.lookup(other)
            }
        }),
{
    reveal(Ck::bind);
    reveal(Ck::lookup);
    let id = LocalId(s.next_local());
    let s1 = Ck { locals: s.locals.push(LocalInfo { ty, decl: span }), ..s };
    lemma_record_res(s1, span, ValueRes::Local(id), ty);
    reveal_with_fuel(crate::check::visible, 2);
    reveal_with_fuel(crate::check::binding_in, 2);
}

/// A binding to come: a name, where it is declared, and its type.
pub struct Declared {
    pub name: Symbol,
    pub span: Span,
    pub ty: Ty,
}

/// The state after the bindings `l`, one after the other.
pub open spec fn bound_all(s: Ck, l: Seq<Declared>) -> Ck
    decreases l.len(),
{
    if l.len() == 0 {
        s
    } else {
        let d = l.last();
        bound_all(s, l.drop_last()).bind(d.name, d.span, d.ty).0
    }
}

proof fn lemma_bound_scopes(s: Ck, l: Seq<Declared>, outer: List<List<Binding>>)
    requires
        s.scopes matches List::Cons(_, t) && *t == outer,
    ensures
        bound_all(s, l).scopes matches List::Cons(_, t) && *t == outer,
    decreases l.len(),
{
    if l.len() > 0 {
        let d = l.last();
        let s0 = bound_all(s, l.drop_last());
        lemma_bound_scopes(s, l.drop_last(), outer);
        reveal(Ck::bind);
        let id = LocalId(s0.next_local());
        let s1 = Ck { locals: s0.locals.push(LocalInfo { ty: d.ty, decl: d.span }), ..s0 };
        lemma_record_res(s1, d.span, ValueRes::Local(id), d.ty);
    }
}

/// Leaving a scope takes back every name that was bound in it: all names stand for
/// what they stood for before it was entered.
pub proof fn law_scope_restores_names(s: Ck, l: Seq<Declared>, name: Symbol)
    ensures
        bound_all(s.push_scope(), l).pop_scope().scopes == s.scopes,
        bound_all(s.push_scope(), l).pop_scope().lookup(name) == s.lookup(name),
{
    reveal(Ck::push_scope);
    reveal(Ck::pop_scope);
    reveal(Ck::lookup);
    lemma_bound_scopes(s.push_scope(), l, s.scopes);
}

/// A new local has the type it was bound with and an id that no local had before;
/// the other locals keep their types.
pub proof fn law_bind_fresh(s: Ck, name: Symbol, span: Span, ty: Ty, old_local: LocalId)
    requires
        s.locals.len() < u32::MAX,
    ensures
        ({
            let (s1, id) = s.bind(name, span, ty);
            &&& s.local_ty(id) is None
            &&& s1.local_ty(id) == Some(ty)
            &&& s.local_ty(old_local) is Some ==> s1.local_ty(old_local) == s.local_ty(old_local)
        }),
{
    reveal(Ck::bind);
    reveal(Ck::next_local);
    reveal(Ck::local_ty);
    let id = LocalId(s.next_local());
    let s1 = Ck { locals: s.locals.push(LocalInfo { ty, decl: span }), ..s };
    lemma_record_res(s1, span, ValueRes::Local(id), ty);
}

// -- assignment and casts ---------------------------------------------------------------

proof fn lemma_all_in_grows(a: List<Ty>, h: Ty, t: List<Ty>)
    requires
        crate::ty::all_in(a, t),
    ensures
        crate::ty::all_in(a, List::Cons(Box::new(h), Box::new(t))),
    decreases a,
{
    match a {
        List::Nil => {},
        List::Cons(_, u) => lemma_all_in_grows(*u, h, t),
    }
}

proof fn lemma_all_in_self(a: List<Ty>)
    ensures
        crate::ty::all_in(a, a),
    decreases a,
{
    match a {
        List::Nil => {},
        List::Cons(h, t) => {
            lemma_all_in_self(*t);
            lemma_all_in_grows(*t, *h, *t);
        },
    }
}

proof fn lemma_all_in_member(a: List<Ty>, b: List<Ty>, x: Ty)
    requires
        crate::ty::all_in(a, b),
        crate::ty::has_ty(a, x),
    ensures
        crate::ty::has_ty(b, x),
    decreases a,
{
    match a {
        List::Nil => {},
        List::Cons(h, t) => {
            if *h != x {
                lemma_all_in_member(*t, b, x);
            }
        },
    }
}

proof fn lemma_all_in_trans(a: List<Ty>, b: List<Ty>, c: List<Ty>)
    requires
        crate::ty::all_in(a, b),
        crate::ty::all_in(b, c),
    ensures
        crate::ty::all_in(a, c),
    decreases a,
{
    match a {
        List::Nil => {},
        List::Cons(h, t) => {
            lemma_all_in_member(b, c, *h);
            lemma_all_in_trans(*t, b, c);
        },
    }
}

/// A value may stand where its own type is required; a value that failed to check
/// and one that never comes may stand anywhere, and anything may stand where
/// `dynamic` or a type that failed to check is required.
pub proof fn law_assignable(s: Ck, t: Ty, u: Ty)
    ensures
        s.assignable(t, t),
        s.is_err(t) || s.is_err(u) || s.kind(t) is Never || s.kind(u) is Dynamic ==> s.assignable(t, u),
{
    reveal(Ck::assignable);
}

/// A value may stand where a union with its type among the alternatives is
/// required.
pub proof fn law_assignable_to_union(s: Ck, t: Ty, u: Ty)
    requires
        s.kind(u) is Union,
        crate::ty::has_ty(s.kind(u)->Union_0, t),
        !(s.kind(t) is Union),
    ensures
        s.assignable(t, u),
{
    reveal(Ck::assignable);
    reveal(Ck::kind);
    reveal_with_fuel(crate::ty::all_in, 2);
}

/// A union may not stand where one of its alternatives is required, as long as it
/// has another one.
pub proof fn law_no_narrowing(s: Ck, u: Ty, v: Ty, other: Ty)
    requires
        s.kind(u) is Union,
        crate::ty::has_ty(s.kind(u)->Union_0, v),
        crate::ty::has_ty(s.kind(u)->Union_0, other),
        other != v,
        !(s.kind(v) is Union),
        !(s.kind(v) is Dynamic),
        !s.is_err(v),
    ensures
        !s.assignable(u, v),
{
    reveal(Ck::assignable);
    reveal(Ck::implements_dyn);
    reveal(Ck::named_def);
    reveal(Ck::is_err);
    reveal(Ck::kind);
    if crate::ty::union_subtype(s.kinds, u, v) {
        lemma_all_in_member(s.kind(u)->Union_0, List::one(v), other);
        reveal_with_fuel(crate::ty::has_ty, 2);
    }
}

/// A number may not stand where another numeric type is required.
pub proof fn law_no_numeric_coercion(s: Ck, a: Ty, b: Ty)
    requires
        s.is_numeric(a),
        s.is_numeric(b),
        a != b,
    ensures
        !s.assignable(a, b),
{
    reveal(Ck::assignable);
    reveal(Ck::implements_dyn);
    reveal(Ck::named_def);
    reveal(Ck::is_numeric);
    reveal(Ck::is_err);
    reveal(Ck::kind);
    reveal_with_fuel(crate::ty::all_in, 2);
    reveal_with_fuel(crate::ty::has_ty, 2);
}

/// A value of type `dynamic` may stand nowhere but where `dynamic`, or a union with
/// it, is required.
pub proof fn law_no_dynamic_narrowing(s: Ck, t: Ty, d: Ty)
    requires
        s.kind(t) is Dynamic,
        !(s.kind(d) is Dynamic),
        !(s.kind(d) is Union),
        !s.is_err(d),
    ensures
        !s.assignable(t, d),
{
    reveal(Ck::assignable);
    reveal(Ck::implements_dyn);
    reveal(Ck::named_def);
    reveal(Ck::is_err);
    reveal(Ck::kind);
    reveal_with_fuel(crate::ty::all_in, 2);
    reveal_with_fuel(crate::ty::has_ty, 2);
}

/// Every type is one of its own alternatives.
pub proof fn law_union_widening_reflexive(k: Seq<TyKind>, a: Ty)
    ensures
        crate::ty::union_subtype(k, a, a),
{
    lemma_all_in_self(crate::ty::variants_of(k, a));
}

/// Unions widen step by step as well as at once.
pub proof fn law_union_widening_transitive(k: Seq<TyKind>, a: Ty, b: Ty, c: Ty)
    requires
        crate::ty::union_subtype(k, a, b),
        crate::ty::union_subtype(k, b, c),
    ensures
        crate::ty::union_subtype(k, a, c),
{
    lemma_all_in_trans(
        crate::ty::variants_of(k, a),
        crate::ty::variants_of(k, b),
        crate::ty::variants_of(k, c),
    );
}

/// A type may be cast to itself, and a union back to what was widened into it.
pub proof fn law_cast_back(s: Ck, t: Ty, u: Ty)
    ensures
        s.castable(t, t),
        crate::ty::union_subtype(s.kinds, t, u) ==> s.castable(u, t),
        s.kind(u) is Dynamic ==> s.castable(u, t),
{
    reveal(Ck::castable);
}

proof fn lemma_bake_errors(s: Ck, span: Span, adjust: Adjust)
    ensures
        s.bake(span, adjust).errors == s.errors,
{
    reveal(Ck::bake);
    reveal(Ck::add_node);
    reveal(Ck::put);
}

/// A requirement is reported, once and as a mismatch, exactly if the value may not
/// stand there.
pub proof fn law_expect_reports(s: Ck, found: Ty, expected: Ty, span: Span)
    ensures
        s.expect(found, expected, span).errors == if s.assignable(found, expected) {
            s.errors
        } else {
            s.errors.push(
                Report {
                    problem: Problem::TypeMismatch { expected: s.show(expected), found: s.show(found) },
                    span,
                },
            )
        },
{
    reveal(Ck::expect);
    reveal(Ck::fail);
    lemma_bake_errors(s, span, Adjust::Widen(expected));
    lemma_bake_errors(s, span, Adjust::WidenDyn(expected));
    lemma_bake_errors(s.bake(span, Adjust::Widen(expected)), span, Adjust::WidenDyn(expected));
}

/// A coercion does not change the type that was checked at its place, whether or
/// not there was a coercion before.
pub proof fn law_coercion_keeps_type(s: Ck, span: Span, adjust: Adjust, raw: Node)
    requires
        s.nodes.len() < u32::MAX,
        s.node_id(span) is Some,
        s.node(s.node_id(span)->0) == Some(raw),
        match raw.kind {
            NodeKind::Adjust { expr, .. } => s.node(expr) is Some,
            _ => true,
        },
    ensures
        s.bake(span, adjust).expr_ty(span) == s.expr_ty(span),
{
    reveal(Ck::bake);
    reveal(Ck::add_node);
    reveal(Ck::put);
    reveal(Ck::node_id);
    reveal(Ck::node);
    reveal(Ck::expr_ty);
}

// -- nodes --------------------------------------------------------------------------------

/// The form of a node, if there is one, is not that of a coercion.
pub open spec fn no_coercion(k: Option<NodeKind>) -> bool {
    match k {
        Some(x) => !(x is Adjust),
        None => true,
    }
}

proof fn lemma_call_forms()
    ensures
        forall|s: Ck, kind: CallKind, args: Option<List<NodeId>>, callee: Expr|
            no_coercion(#[trigger] s.call_of(kind, args, callee)),
        forall|s: Ck, e: Expr, callee: Expr| no_coercion(#[trigger] s.value_call(e, callee)),
        forall|s: Ck, e: Expr, ty: Ty, recv: Option<Ty>, targs: List<Ty>|
            no_coercion(#[trigger] s.dispatched_call(e, ty, recv, targs)),
{
    assert forall|s: Ck, kind: CallKind, args: Option<List<NodeId>>, callee: Expr|
        no_coercion(#[trigger] s.call_of(kind, args, callee)) by {
        reveal(Ck::call_of);
    }
    assert forall|s: Ck, e: Expr, callee: Expr| no_coercion(#[trigger] s.value_call(e, callee)) by {
        reveal(Ck::value_call);
    }
    assert forall|s: Ck, e: Expr, ty: Ty, recv: Option<Ty>, targs: List<Ty>|
        no_coercion(#[trigger] s.dispatched_call(e, ty, recv, targs)) by {
        reveal(Ck::dispatched_call);
    }
}

proof fn lemma_call_kind(s: Ck, e: Expr, ty: Ty)
    ensures
        no_coercion(s.call_kind(e, ty).1),
{
    lemma_call_forms();
    reveal(Ck::call_kind);
}

proof fn lemma_data_kind(s: Ck, e: Expr, ty: Ty)
    ensures
        no_coercion(s.data_kind(e, ty).1),
{
    reveal(Ck::data_kind);
}

proof fn lemma_control_kind(s: Ck, e: Expr)
    ensures
        no_coercion(s.control_kind(e).1),
{
    assert forall|t: Ck, is_async: bool, body: NodeId| no_coercion((#[trigger] t.closure_kind(is_async, body)).1) by {
        reveal(Ck::closure_kind);
    }
    reveal(Ck::control_kind);
}

proof fn lemma_operand_kind(s: Ck, e: Expr, ty: Ty)
    ensures
        no_coercion(s.operand_kind(e, ty).1),
{
    reveal(Ck::operand_kind);
}

proof fn lemma_node_kind(s: Ck, e: Expr, ty: Ty)
    ensures
        no_coercion(s.node_kind(e, ty).1),
{
    lemma_call_kind(s, e, ty);
    lemma_data_kind(s, e, ty);
    lemma_control_kind(s, e);
    lemma_operand_kind(s, e, ty);
    reveal(Ck::node_kind);
}

/// What is recorded for a checked expression that leaves a node is the type that
/// the check gave it; a bracketed expression has the node of what it holds.
pub proof fn law_checked_type_recorded(s: Ck, e: Expr, expected: Option<Ty>)
    requires
        !(e.kind is Paren),
        ({
            let (s1, ty) = s.check_expr_inner(e, expected);
            let (s2, node) = s1.build_node(e, ty);
            node is Some && s2.nodes.len() <= u32::MAX
        }),
    ensures
        s.check_expr(e, expected).0.expr_ty(e.span) == Some(s.check_expr(e, expected).1),
{
    let (s1, ty) = s.check_expr_inner(e, expected);
    let (s2, node) = s1.build_node(e, ty);
    assert(s.check_expr(e, expected) == (s1.leave_node(e, ty), ty));
    lemma_node_kind(s1, e, ty);
    reveal(Ck::leave_node);
    reveal(Ck::build_node);
    reveal(Ck::name_node);
    reveal(Ck::add_node);
    reveal(Ck::put);
    reveal(Ck::expr_ty);
}

// -- the finished program -----------------------------------------------------------------

/// The definitions that bodies belong to.
pub open spec fn defs_of(l: List<Body>) -> List<DefId>
    decreases l,
{
    match l {
        List::Nil => List::Nil,
        List::Cons(h, t) => List::Cons(Box::new(h.def), Box::new(defs_of(*t))),
    }
}

/// Those of `l` that have a body.
pub open spec fn with_body(s: Ck, l: List<DefId>) -> List<DefId>
    decreases l,
{
    match l {
        List::Nil => List::Nil,
        List::Cons(h, t) => if s.has_body(*h) {
            List::Cons(h, Box::new(with_body(s, *t)))
        } else {
            with_body(s, *t)
        },
    }
}

proof fn lemma_has_body(a: Ck, b: Ck, def: DefId)
    requires
        a.p == b.p,
    ensures
        a.has_body(def) == b.has_body(def),
{
    reveal(Ck::has_body);
    reveal(Ck::body_span);
}

proof fn lemma_with_body(a: Ck, b: Ck, l: List<DefId>)
    requires
        a.p == b.p,
    ensures
        with_body(a, l) == with_body(b, l),
    decreases l,
{
    match l {
        List::Nil => {},
        List::Cons(h, t) => {
            lemma_has_body(a, b, *h);
            lemma_with_body(a, b, *t);
        },
    }
}

/// The finished program has one body for each function, method and test that has
/// one, in the order of the definitions.
pub proof fn law_one_body_each(s: Ck, l: List<DefId>)
    ensures
        defs_of(s.finish_bodies(l).1) == with_body(s, l),
    decreases l,
{
    reveal(Ck::finish_bodies);
    reveal(Ck::finish_body);
    reveal(Ck::make_body);
    match l {
        List::Nil => {},
        List::Cons(h, t) => {
            if s.has_body(*h) {
                let s1 = s.finish_body(*h).0;
                law_one_body_each(s1, *t);
                lemma_with_body(s1, s, *t);
            } else {
                law_one_body_each(s, *t);
            }
        },
    }
}

/// The libraries to link against are named once each.
pub open spec fn all_different(l: List<Symbol>) -> bool
    decreases l,
{
    match l {
        List::Nil => true,
        List::Cons(h, t) => !crate::check::structs::has_symbol(*t, *h) && all_different(*t),
    }
}

proof fn lemma_has_symbol_snoc(l: List<Symbol>, x: Symbol, y: Symbol)
    ensures
        crate::check::structs::has_symbol(l.snoc(x), y) <==> crate::check::structs::has_symbol(l, y) || x == y,
    decreases l,
{
    reveal_with_fuel(crate::check::structs::has_symbol, 2);
    match l {
        List::Nil => {},
        List::Cons(_, t) => lemma_has_symbol_snoc(*t, x, y),
    }
}

proof fn lemma_different_snoc(l: List<Symbol>, x: Symbol)
    requires
        all_different(l),
        !crate::check::structs::has_symbol(l, x),
    ensures
        all_different(l.snoc(x)),
    decreases l,
{
    reveal_with_fuel(all_different, 2);
    reveal_with_fuel(crate::check::structs::has_symbol, 2);
    match l {
        List::Nil => {},
        List::Cons(h, t) => {
            lemma_different_snoc(*t, x);
            lemma_has_symbol_snoc(*t, x, *h);
        },
    }
}

proof fn lemma_attr_libs(l: List<Attribute>, acc: List<Symbol>)
    requires
        all_different(acc),
    ensures
        all_different(crate::check::finish::attr_libs(l, acc)),
    decreases l,
{
    match l {
        List::Nil => {},
        List::Cons(h, t) => {
            match crate::check::finish::lib_arg(h.args) {
                Some(lib) => {
                    if !crate::check::structs::has_symbol(acc, lib) {
                        lemma_different_snoc(acc, lib);
                    }
                },
                None => {},
            }
            lemma_attr_libs(*t, crate::check::finish::libs_with(*h, acc));
        },
    }
}

/// No library is linked against twice.
pub proof fn law_link_libs_once(s: Ck, l: List<DefId>, acc: List<Symbol>)
    requires
        all_different(acc),
    ensures
        all_different(s.collect_link_libs(l, acc)),
    decreases l,
{
    reveal(Ck::collect_link_libs);
    match l {
        List::Nil => {},
        List::Cons(h, t) => {
            let attrs = s.p.def_of(*h).attrs;
            lemma_attr_libs(attrs, acc);
            law_link_libs_once(s, *t, crate::check::finish::attr_libs(attrs, acc));
        },
    }
}

} // verus!
