//! The type checker.
//!
//! Checking is bidirectional: an expression is checked against an expected type
//! where one is known, which drives literal defaulting and union widening, and
//! otherwise finds its own type. Widening into a union, `dynamic` or an interface
//! object is implicit, narrowing is not, and numbers never convert implicitly.
//! Each checked expression leaves a typed node behind.
//!
//! [`Ck`] is the mathematical state of a check, [`Cx`] the one that runs; every
//! method of `Cx` computes what the function of the same purpose on `Ck` says.
use vstd::prelude::*;
use crate::ast::{Attribute, Type};
use crate::diag::{report, Problem, Report, SemaError, SemaErrorKind};
use crate::hir::{
    Conversion, ExternSig, FnSig, ForDriver, Hir, HirBlock, IfaceImpl, LocalInfo, LocalTy, Node, NodeId, NodeKind,
    NodeTable, OpOverload, StructLayout, TryBranch,
};
use crate::ids::{DefId, LocalId, ModId};
use crate::list::{dup, List};
use crate::lower::{lower_list, lower_type, GenericName, Low, TypeEnv};
use crate::names::Symbol;
use crate::results::{Adjust, CloneKind, ValueRes};
use crate::show::display;
use crate::solve::{subst_all, subst_ty, unify, Solved};
use crate::span::Span;
use crate::symbols::{DefKind, Program};
use crate::ty::{Ty, TyCtxt, TyKind, ERROR_TY, NULL_TY};

pub mod methods;
pub mod calls;
pub mod exprs;
pub mod stmt;
pub mod bounds;
pub mod builtins;
pub mod control;
pub mod finish;
pub mod laws;
pub mod matching;
pub mod nodes;
pub mod nums;
pub mod program;
pub mod rules;
pub mod sigs;
pub mod state;
pub mod structs;
pub mod types;
pub mod verdicts;

verus! {

/// A name in scope.
#[derive(Clone, Copy, PartialEq, Eq, Structural, Debug)]
pub struct Binding {
    pub name: Symbol,
    pub ty: Ty,
    pub local: LocalId,
}

/// An enclosing loop.
#[derive(Debug)]
pub struct LoopFrame {
    /// A `loop`, out of which `break` may carry a value.
    pub is_loop: bool,
    /// The types of the `break` values seen so far.
    pub break_types: List<Ty>,
}

/// An enclosing closure: the first local it owns and the outer locals it uses.
#[derive(Debug)]
pub struct ClosureFrame {
    pub first_local: u32,
    pub captures: List<LocalTy>,
}

/// The `to_str` method of an interpolation hole, if it needs one.
#[derive(Debug)]
pub struct Hole {
    pub method: Option<DefId>,
    pub targs: List<Ty>,
}

/// A checked closure.
#[derive(Debug)]
pub struct ClosureInfo {
    pub params: List<LocalTy>,
    pub captures: List<LocalTy>,
    pub ret: Ty,
}

/// A checked async block.
#[derive(Debug)]
pub struct AsyncInfo {
    pub output: Ty,
    pub params: List<LocalTy>,
    pub captures: List<LocalTy>,
}

/// A local that refers into the value of a held lock. Whatever was declared
/// before `base` outlives the lock.
#[derive(Clone, Copy, PartialEq, Eq, Structural, Debug)]
pub struct LockRoot {
    pub local: LocalId,
    pub base: u32,
}

/// The types of a `Foreign.alloc_flex` call.
#[derive(Clone, Copy, PartialEq, Eq, Structural, Debug)]
pub struct Flex {
    pub ty: Ty,
    pub elem: Ty,
}

/// A function and its checked body.
#[derive(Debug)]
pub struct FnBody {
    pub def: DefId,
    pub block: HirBlock,
}

/// The state of a check.
pub struct Ck {
    pub p: Program,
    pub kinds: Seq<TyKind>,
    pub errors: Seq<Report>,
    pub nodes: Seq<Node>,
    pub at: Map<u128, NodeId>,
    /// Every local variable met so far; its id is its position.
    pub locals: Seq<LocalInfo>,
    /// The scopes, innermost first.
    pub scopes: List<List<Binding>>,
    /// What the body being checked returns.
    pub ret_ty: Ty,
    pub loops: List<LoopFrame>,
    pub self_local: Option<LocalId>,
    pub cur_module: ModId,
    pub cur_generics: List<GenericName>,
    pub cur_self_ty: Option<Ty>,
    /// What flow narrowing says of locals in the current branch, newest first.
    pub narrowings: List<LocalTy>,
    pub closures: List<ClosureFrame>,
    /// The locals that refer into the values of held locks.
    pub lock_roots: List<LockRoot>,
    /// The closure about to be checked is the body of a lock.
    pub lock_next: bool,
    pub in_async: bool,
    // What the expression being checked hands to its node.
    pub p_overload: Option<OpOverload>,
    pub p_cast: Option<Ty>,
    pub p_await: Option<Ty>,
    pub p_spawn: Option<Ty>,
    pub p_try: Option<TryBranch>,
    pub p_residuals: Option<List<Conversion>>,
    pub p_clone: Option<CloneKind>,
    pub p_static: Option<Ty>,
    pub p_flex: Option<Flex>,
    pub p_driver: Option<ForDriver>,
    pub p_targs: Option<List<Ty>>,
    pub p_holes: Option<List<Hole>>,
    pub p_closure: Option<ClosureInfo>,
    pub p_async: Option<AsyncInfo>,
    // What the whole program needs.
    pub structs: List<StructLayout>,
    pub fn_sigs: List<FnSig>,
    pub extern_sigs: List<ExternSig>,
    pub iface_impls: List<IfaceImpl>,
    pub fn_bodies: List<FnBody>,
}

/// A running check.
pub struct Cx<'a> {
    pub prog: &'a Program,
    pub tcx: TyCtxt,
    pub errors: Vec<SemaError>,
    pub table: NodeTable,
    pub locals: Vec<LocalInfo>,
    pub scopes: List<List<Binding>>,
    pub ret_ty: Ty,
    pub loops: List<LoopFrame>,
    pub self_local: Option<LocalId>,
    pub cur_module: ModId,
    pub cur_generics: List<GenericName>,
    pub cur_self_ty: Option<Ty>,
    pub narrowings: List<LocalTy>,
    pub closures: List<ClosureFrame>,
    pub lock_roots: List<LockRoot>,
    pub lock_next: bool,
    pub in_async: bool,
    pub p_overload: Option<OpOverload>,
    pub p_cast: Option<Ty>,
    pub p_await: Option<Ty>,
    pub p_spawn: Option<Ty>,
    pub p_try: Option<TryBranch>,
    pub p_residuals: Option<List<Conversion>>,
    pub p_clone: Option<CloneKind>,
    pub p_static: Option<Ty>,
    pub p_flex: Option<Flex>,
    pub p_driver: Option<ForDriver>,
    pub p_targs: Option<List<Ty>>,
    pub p_holes: Option<List<Hole>>,
    pub p_closure: Option<ClosureInfo>,
    pub p_async: Option<AsyncInfo>,
    pub structs: List<StructLayout>,
    pub fn_sigs: List<FnSig>,
    pub extern_sigs: List<ExternSig>,
    pub iface_impls: List<IfaceImpl>,
    pub fn_bodies: List<FnBody>,
}

/// Moves a list out, leaving an empty one.
pub fn take_list<T>(l: &mut List<T>) -> (r: List<T>)
    ensures
        r == *old(l),
        *final(l) is Nil,
{
    let mut out = List::Nil;
    std::mem::swap(&mut out, l);
    out
}

/// Moves a value out, leaving nothing.
pub fn take_opt<T>(o: &mut Option<T>) -> (r: Option<T>)
    ensures
        r == *old(o),
        *final(o) is None,
{
    let mut out = None;
    std::mem::swap(&mut out, o);
    out
}

// -- small lookups --------------------------------------------------------------------------

pub open spec fn has_attr(l: List<Attribute>, name: Symbol) -> bool
    decreases l,
{
    match l {
        List::Nil => false,
        List::Cons(h, t) => h.name.name == name || has_attr(*t, name),
    }
}

pub fn contains_attr(l: &List<Attribute>, name: Symbol) -> (r: bool)
    ensures
        r == has_attr(*l, name),
    decreases l,
{
    match l {
        List::Nil => false,
        List::Cons(h, t) => h.name.name == name || contains_attr(t, name),
    }
}

pub open spec fn binding_in(l: List<Binding>, name: Symbol) -> Option<Binding>
    decreases l,
{
    match l {
        List::Nil => None,
        List::Cons(h, t) => if h.name == name {
            Some(*h)
        } else {
            binding_in(*t, name)
        },
    }
}

fn find_binding(l: &List<Binding>, name: Symbol) -> (r: Option<Binding>)
    ensures
        r == binding_in(*l, name),
    decreases l,
{
    match l {
        List::Nil => None,
        List::Cons(h, t) => if h.name == name {
            Some(**h)
        } else {
            find_binding(t, name)
        },
    }
}

/// The innermost binding of `name`.
pub open spec fn visible(l: List<List<Binding>>, name: Symbol) -> Option<Binding>
    decreases l,
{
    match l {
        List::Nil => None,
        List::Cons(h, t) => match binding_in(*h, name) {
            Some(b) => Some(b),
            None => visible(*t, name),
        },
    }
}

fn find_visible(l: &List<List<Binding>>, name: Symbol) -> (r: Option<Binding>)
    ensures
        r == visible(*l, name),
    decreases l,
{
    match l {
        List::Nil => None,
        List::Cons(h, t) => match find_binding(h, name) {
            Some(b) => Some(b),
            None => find_visible(t, name),
        },
    }
}

/// The type that `l` gives to `local`.
pub open spec fn local_ty_in(l: List<LocalTy>, local: LocalId) -> Option<Ty>
    decreases l,
{
    match l {
        List::Nil => None,
        List::Cons(h, t) => if h.local == local {
            Some(h.ty)
        } else {
            local_ty_in(*t, local)
        },
    }
}

pub fn find_local_ty(l: &List<LocalTy>, local: LocalId) -> (r: Option<Ty>)
    ensures
        r == local_ty_in(*l, local),
    decreases l,
{
    match l {
        List::Nil => None,
        List::Cons(h, t) => if h.local == local {
            Some(h.ty)
        } else {
            find_local_ty(t, local)
        },
    }
}

pub open spec fn has_impl(l: List<IfaceImpl>, target: DefId, iface: DefId) -> bool
    decreases l,
{
    match l {
        List::Nil => false,
        List::Cons(h, t) => (h.target == target && h.iface == iface) || has_impl(*t, target, iface),
    }
}

pub fn contains_impl(l: &List<IfaceImpl>, target: DefId, iface: DefId) -> (r: bool)
    ensures
        r == has_impl(*l, target, iface),
    decreases l,
{
    match l {
        List::Nil => false,
        List::Cons(h, t) => (h.target == target && h.iface == iface) || contains_impl(t, target, iface),
    }
}

pub open spec fn has_local(l: List<LocalTy>, local: LocalId) -> bool {
    local_ty_in(l, local) is Some
}

/// Each frame that does not own `local` records it as captured, once.
pub open spec fn captured(l: List<ClosureFrame>, local: LocalId, ty: Ty) -> List<ClosureFrame>
    decreases l,
{
    match l {
        List::Nil => List::Nil,
        List::Cons(h, t) => {
            let f = if local.0 < h.first_local && !has_local(h.captures, local) {
                ClosureFrame { first_local: h.first_local, captures: h.captures.snoc(LocalTy { local, ty }) }
            } else {
                *h
            };
            List::Cons(Box::new(f), Box::new(captured(*t, local, ty)))
        },
    }
}

fn capture_in(l: List<ClosureFrame>, local: LocalId, ty: Ty) -> (r: List<ClosureFrame>)
    ensures
        r == captured(l, local, ty),
    decreases l,
{
    match l {
        List::Nil => List::Nil,
        List::Cons(h, t) => {
            let f = if local.0 < h.first_local && find_local_ty(&h.captures, local).is_none() {
                let h = *h;
                ClosureFrame {
                    first_local: h.first_local,
                    captures: h.captures.push_back(LocalTy { local, ty }),
                }
            } else {
                *h
            };
            List::Cons(Box::new(f), Box::new(capture_in(*t, local, ty)))
        },
    }
}

// -- the state: reading -----------------------------------------------------------------------

impl Ck {
    #[verifier::opaque]
    pub open spec fn kind(self, t: Ty) -> TyKind {
        crate::ty::kind_of(self.kinds, t)
    }

    #[verifier::opaque]
    pub open spec fn is_err(self, t: Ty) -> bool {
        self.kind(t) is Error
    }

    /// The text of a type.
    #[verifier::opaque]
    pub open spec fn show(self, t: Ty) -> Seq<char> {
        crate::show::ty_text(self.p, self.kinds, t)
    }

    #[verifier::opaque]
    pub open spec fn name(self, n: Symbol) -> Seq<char> {
        self.p.text(n)
    }

    #[verifier::opaque]
    pub open spec fn lookup(self, name: Symbol) -> Option<Binding> {
        visible(self.scopes, name)
    }

    #[verifier::opaque]
    pub open spec fn expr_ty(self, span: Span) -> Option<Ty> {
        crate::hir::checked_ty(self.nodes, self.at, span)
    }

    #[verifier::opaque]
    pub open spec fn resolution(self, span: Span) -> Option<ValueRes> {
        crate::hir::name_at(self.nodes, self.at, span)
    }

    /// The node recorded for `span`.
    #[verifier::opaque]
    pub open spec fn node_id(self, span: Span) -> Option<NodeId> {
        if self.at.contains_key(crate::hir::span_key(span)) {
            Some(self.at[crate::hir::span_key(span)])
        } else {
            None
        }
    }

    /// The type of `expr_ty`, or the error type where nothing was checked.
    #[verifier::opaque]
    pub open spec fn ty_at(self, span: Span) -> Ty {
        match self.expr_ty(span) {
            Some(t) => t,
            None => ERROR_TY,
        }
    }

    /// The declared type of a local.
    #[verifier::opaque]
    pub open spec fn local_ty(self, local: LocalId) -> Option<Ty> {
        if local.0 < self.locals.len() {
            Some(self.locals[local.0 as int].ty)
        } else {
            None
        }
    }

    #[verifier::opaque]
    pub open spec fn node(self, n: NodeId) -> Option<Node> {
        crate::hir::node_of(self.nodes, n)
    }

    /// The id that the next local gets.
    #[verifier::opaque]
    pub open spec fn next_local(self) -> u32 {
        (self.locals.len() as usize) as u32
    }

    #[verifier::opaque]
    pub open spec fn env(self) -> TypeEnv {
        TypeEnv { module: self.cur_module, generics: self.cur_generics, self_ty: self.cur_self_ty }
    }
}

impl<'a> Cx<'a> {
    /// The checker stands in state `s`. The states are equal as wholes: a `==`
    /// in a contract would be taken apart into the equality of all their parts.
    pub open spec fn stands(self, s: Ck) -> bool {
        self.view() == s
    }

    /// The checker has given `r` and stands in the state that goes with it.
    pub open spec fn answers<T>(self, r: T, s: (Ck, T)) -> bool {
        (self.view(), r) == s
    }
}

impl Ck {
    /// `t` comes after this state: no type, diagnostic, node or local was lost or
    /// changed, and it is the same program.
    #[verifier::opaque]
    pub open spec fn grows_to(self, t: Ck) -> bool {
        &&& t.p == self.p
        &&& crate::list::extends(self.kinds, t.kinds)
        &&& crate::list::extends(self.errors, t.errors)
        &&& crate::list::extends(self.nodes, t.nodes)
        &&& crate::list::extends(self.locals, t.locals)
    }
}

/// A state comes after itself.
pub broadcast proof fn law_grows_reflexive(s: Ck)
    ensures
        #[trigger] s.grows_to(s),
{
    reveal(Ck::grows_to);
}

/// What comes after a later state comes after an earlier one.
pub broadcast proof fn law_grows_transitive(a: Ck, b: Ck, c: Ck)
    requires
        #[trigger] a.grows_to(b),
        #[trigger] b.grows_to(c),
    ensures
        a.grows_to(c),
{
    reveal(Ck::grows_to);
    crate::list::law_extends_transitive(a.kinds, b.kinds, c.kinds);
    crate::list::law_extends_transitive(a.errors, b.errors, c.errors);
    crate::list::law_extends_transitive(a.nodes, b.nodes, c.nodes);
    crate::list::law_extends_transitive(a.locals, b.locals, c.locals);
}

/// The state before anything is checked.
pub open spec fn fresh_state(p: Program, kinds: Seq<TyKind>, errors: Seq<Report>) -> Ck {
    Ck {
        p,
        kinds,
        errors,
        nodes: Seq::empty(),
        at: Map::empty(),
        locals: Seq::empty(),
        scopes: List::Nil,
        ret_ty: NULL_TY,
        loops: List::Nil,
        self_local: None,
        cur_module: ModId(0),
        cur_generics: List::Nil,
        cur_self_ty: None,
        narrowings: List::Nil,
        closures: List::Nil,
        lock_roots: List::Nil,
        lock_next: false,
        in_async: false,
        p_overload: None,
        p_cast: None,
        p_await: None,
        p_spawn: None,
        p_try: None,
        p_residuals: None,
        p_clone: None,
        p_static: None,
        p_flex: None,
        p_driver: None,
        p_targs: None,
        p_holes: None,
        p_closure: None,
        p_async: None,
        structs: List::Nil,
        fn_sigs: List::Nil,
        extern_sigs: List::Nil,
        iface_impls: List::Nil,
        fn_bodies: List::Nil,
    }
}

impl<'a> Cx<'a> {
    #[verifier::opaque]
    pub open spec fn view(&self) -> Ck {
        Ck {
            p: *self.prog,
            kinds: self.tcx.view(),
            errors: crate::diag::reports(self.errors@),
            nodes: self.table.nodes@,
            at: self.table.at@,
            locals: self.locals@,
            scopes: self.scopes,
            ret_ty: self.ret_ty,
            loops: self.loops,
            self_local: self.self_local,
            cur_module: self.cur_module,
            cur_generics: self.cur_generics,
            cur_self_ty: self.cur_self_ty,
            narrowings: self.narrowings,
            closures: self.closures,
            lock_roots: self.lock_roots,
            lock_next: self.lock_next,
            in_async: self.in_async,
            p_overload: self.p_overload,
            p_cast: self.p_cast,
            p_await: self.p_await,
            p_spawn: self.p_spawn,
            p_try: self.p_try,
            p_residuals: self.p_residuals,
            p_clone: self.p_clone,
            p_static: self.p_static,
            p_flex: self.p_flex,
            p_driver: self.p_driver,
            p_targs: self.p_targs,
            p_holes: self.p_holes,
            p_closure: self.p_closure,
            p_async: self.p_async,
            structs: self.structs,
            fn_sigs: self.fn_sigs,
            extern_sigs: self.extern_sigs,
            iface_impls: self.iface_impls,
            fn_bodies: self.fn_bodies,
        }
    }

    pub fn new(prog: &'a Program, tcx: TyCtxt, errors: Vec<SemaError>) -> (r: Cx<'a>)
        ensures
            r.view() == fresh_state(*prog, tcx.view(), crate::diag::reports(errors@)),
    {
        proof {
            reveal(Cx::view);
        }
        Cx {
            prog,
            tcx,
            errors,
            table: NodeTable::new(),
            locals: Vec::new(),
            scopes: List::Nil,
            ret_ty: NULL_TY,
            loops: List::Nil,
            self_local: None,
            cur_module: ModId(0),
            cur_generics: List::Nil,
            cur_self_ty: None,
            narrowings: List::Nil,
            closures: List::Nil,
            lock_roots: List::Nil,
            lock_next: false,
            in_async: false,
            p_overload: None,
            p_cast: None,
            p_await: None,
            p_spawn: None,
            p_try: None,
            p_residuals: None,
            p_clone: None,
            p_static: None,
            p_flex: None,
            p_driver: None,
            p_targs: None,
            p_holes: None,
            p_closure: None,
            p_async: None,
            structs: List::Nil,
            fn_sigs: List::Nil,
            extern_sigs: List::Nil,
            iface_impls: List::Nil,
            fn_bodies: List::Nil,
        }
    }

    /// Swaps the types and the errors for others.
    pub fn exchange(&mut self, tcx: &mut TyCtxt, errors: &mut Vec<SemaError>)
        ensures
            final(self).view() == (Ck {
                kinds: old(tcx).view(),
                errors: crate::diag::reports(old(errors)@),
                ..old(self).view()
            }),
            final(tcx).view() == old(self).view().kinds,
            crate::diag::reports(final(errors)@) == old(self).view().errors,
    {
        proof {
            reveal(Cx::view);
        }
        std::mem::swap(&mut self.tcx, tcx);
        std::mem::swap(&mut self.errors, errors);
    }

    /// The typed program; the bodies and all else that belongs to it leave the
    /// state.
    pub fn finish(&mut self) -> (r: Hir)
        ensures
            crate::checker::is_finished(r, old(self).view()),
            final(self).view().kinds == old(self).view().finish_bodies(old(self).view().p.def_ids()).0.kinds,
            final(self).view().errors == old(self).view().finish_bodies(old(self).view().p.def_ids()).0.errors,
    {
        proof {
            crate::checker::law_finish_keeps_state(self.view(), self.view().p.def_ids());
            reveal(Cx::view);
        }
        let ids = self.prog.all_defs();
        let link_libs = self.collect_link_libs(&ids, List::Nil);
        let bodies = self.finish_bodies(&ids);
        let structs = take_list(&mut self.structs);
        let fn_sigs = take_list(&mut self.fn_sigs);
        let extern_sigs = take_list(&mut self.extern_sigs);
        let iface_impls = take_list(&mut self.iface_impls);
        let mut locals: Vec<LocalInfo> = Vec::new();
        std::mem::swap(&mut self.locals, &mut locals);
        let mut table = NodeTable::new();
        std::mem::swap(&mut self.table, &mut table);
        Hir { structs, fn_sigs, extern_sigs, iface_impls, link_libs, locals, table, bodies }
    }

    pub fn kind(&self, t: Ty) -> (r: TyKind)
        ensures
            r == self.view().kind(t),
    {
        proof {
            reveal(Cx::view);
            reveal(Ck::kind);
        }
        self.tcx.kind(t)
    }

    pub fn is_err(&self, t: Ty) -> (r: bool)
        ensures
            r == self.view().is_err(t),
    {
        proof {
            reveal(Cx::view);
            reveal(Ck::is_err);
            reveal(Ck::kind);
        }
        self.tcx.is_error(t)
    }

    pub fn display(&self, t: Ty) -> (r: String)
        ensures
            r@ == self.view().show(t),
    {
        proof {
            reveal(Cx::view);
            reveal(Ck::show);
        }
        display(self.prog, &self.tcx, t)
    }

    pub fn name(&self, n: Symbol) -> (r: String)
        ensures
            r@ == self.view().name(n),
    {
        proof {
            reveal(Cx::view);
            reveal(Ck::name);
        }
        self.prog.names.text(n).to_owned()
    }

    pub fn lookup(&self, name: Symbol) -> (r: Option<Binding>)
        ensures
            r == self.view().lookup(name),
    {
        proof {
            reveal(Cx::view);
            reveal(Ck::lookup);
        }
        find_visible(&self.scopes, name)
    }

    pub fn expr_ty(&self, span: Span) -> (r: Option<Ty>)
        ensures
            r == self.view().expr_ty(span),
    {
        proof {
            reveal(Cx::view);
            reveal(Ck::expr_ty);
        }
        self.table.expr_ty(span)
    }

    pub fn ty_at(&self, span: Span) -> (r: Ty)
        ensures
            r == self.view().ty_at(span),
    {
        proof {
            reveal(Cx::view);
            reveal(Ck::ty_at);
            reveal(Ck::expr_ty);
        }
        match self.table.expr_ty(span) {
            Some(t) => t,
            None => ERROR_TY,
        }
    }

    pub fn resolution(&self, span: Span) -> (r: Option<ValueRes>)
        ensures
            r == self.view().resolution(span),
    {
        proof {
            reveal(Cx::view);
            reveal(Ck::resolution);
        }
        self.table.resolution(span)
    }

    pub fn node_id(&self, span: Span) -> (r: Option<NodeId>)
        ensures
            r == self.view().node_id(span),
    {
        proof {
            reveal(Cx::view);
            reveal(Ck::node_id);
        }
        self.table.id_at(span)
    }

    pub fn node(&self, n: NodeId) -> (r: Option<&Node>)
        ensures
            match r {
                Some(x) => self.view().node(n) == Some(*x),
                None => self.view().node(n) is None,
            },
    {
        proof {
            reveal(Cx::view);
            reveal(Ck::node);
        }
        self.table.get(n)
    }

    pub fn local_ty(&self, local: LocalId) -> (r: Option<Ty>)
        ensures
            r == self.view().local_ty(local),
    {
        proof {
            reveal(Cx::view);
            reveal(Ck::local_ty);
        }
        let i: usize = local.0 as usize;
        if i < self.locals.len() {
            Some(self.locals[i].ty)
        } else {
            None
        }
    }

    pub fn next_local(&self) -> (r: u32)
        ensures
            r == self.view().next_local(),
    {
        proof {
            reveal(Cx::view);
            reveal(Ck::next_local);
        }
        self.locals.len() as u32
    }

    /// The environment that type annotations of the current body are lowered in.
    pub fn local_env(&self) -> (r: TypeEnv)
        ensures
            r == self.view().env(),
    {
        proof {
            reveal(Cx::view);
            reveal(Ck::env);
        }
        TypeEnv { module: self.cur_module, generics: dup(&self.cur_generics), self_ty: self.cur_self_ty }
    }
}

// -- the state: changing ------------------------------------------------------------------------

impl Ck {
    #[verifier::opaque]
    pub open spec fn fail(self, problem: Problem, span: Span) -> Ck {
        Ck { errors: self.errors.push(Report { problem, span }), ..self }
    }

    /// A free-form complaint.
    #[verifier::opaque]
    pub open spec fn say(self, text: Seq<char>, span: Span) -> Ck {
        self.fail(Problem::Message(text), span)
    }

    #[verifier::opaque]
    pub open spec fn with_kinds(self, r: (Seq<TyKind>, Ty)) -> (Ck, Ty) {
        (Ck { kinds: r.0, ..self }, r.1)
    }

    #[verifier::opaque]
    pub open spec fn mk(self, k: TyKind) -> (Ck, Ty) {
        self.with_kinds(crate::ty::interned(self.kinds, k))
    }

    #[verifier::opaque]
    pub open spec fn mk_named(self, def: DefId, args: List<Ty>) -> (Ck, Ty) {
        self.mk(TyKind::Named { def, args })
    }

    #[verifier::opaque]
    pub open spec fn mk_union(self, l: List<Ty>) -> (Ck, Ty) {
        self.with_kinds(crate::ty::union_of(self.kinds, l))
    }

    #[verifier::opaque]
    pub open spec fn low(self) -> Low {
        Low { kinds: self.kinds, errors: self.errors }
    }

    #[verifier::opaque]
    pub open spec fn lower(self, ty: Type, env: TypeEnv) -> (Ck, Ty) {
        let (l, t) = crate::lower::lowered(self.p, self.low(), List::Nil, ty, env);
        (Ck { kinds: l.kinds, errors: l.errors, ..self }, t)
    }

    #[verifier::opaque]
    pub open spec fn lower_list(self, tys: List<Type>, env: TypeEnv) -> (Ck, List<Ty>) {
        let (l, t) = crate::lower::lowered_list(self.p, self.low(), List::Nil, tys, env);
        (Ck { kinds: l.kinds, errors: l.errors, ..self }, t)
    }

    #[verifier::opaque]
    pub open spec fn subst(self, t: Ty, m: List<Solved>) -> (Ck, Ty) {
        self.with_kinds(crate::solve::substituted(self.kinds, t, m))
    }

    #[verifier::opaque]
    pub open spec fn subst_all(self, l: List<Ty>, m: List<Solved>) -> (Ck, List<Ty>) {
        let (k, ts) = crate::solve::substituted_all(self.kinds, l, m);
        (Ck { kinds: k, ..self }, ts)
    }

    #[verifier::opaque]
    pub open spec fn unify(self, pat: Ty, val: Ty, m: List<Solved>) -> List<Solved> {
        crate::solve::unified(self.kinds, pat, val, m)
    }

    #[verifier::opaque]
    pub open spec fn add_node(self, kind: NodeKind, ty: Ty, span: Span) -> (Ck, NodeId) {
        (Ck { nodes: self.nodes.push(Node { kind, ty, span }), ..self }, (self.nodes.len() as usize) as u32)
    }

    #[verifier::opaque]
    pub open spec fn put(self, span: Span, n: NodeId) -> Ck {
        Ck { at: self.at.insert(crate::hir::span_key(span), n), ..self }
    }

    #[verifier::opaque]
    pub open spec fn push_scope(self) -> Ck {
        Ck { scopes: List::Cons(Box::new(List::Nil), Box::new(self.scopes)), ..self }
    }

    #[verifier::opaque]
    pub open spec fn pop_scope(self) -> Ck {
        match self.scopes {
            List::Cons(_, t) => Ck { scopes: *t, ..self },
            List::Nil => self,
        }
    }

    #[verifier::opaque]
    pub open spec fn capture(self, local: LocalId, ty: Ty) -> Ck {
        Ck { closures: captured(self.closures, local, ty), ..self }
    }

    #[verifier::opaque]
    pub open spec fn narrow(self, local: LocalId, ty: Ty) -> Ck {
        Ck { narrowings: List::Cons(Box::new(LocalTy { local, ty }), Box::new(self.narrowings)), ..self }
    }

    /// Undoes the newest narrowing.
    #[verifier::opaque]
    pub open spec fn widen_back(self) -> Ck {
        match self.narrowings {
            List::Cons(_, t) => Ck { narrowings: *t, ..self },
            List::Nil => self,
        }
    }
}

impl<'a> Cx<'a> {
    pub fn emit(&mut self, kind: SemaErrorKind, span: Span)
        ensures
            final(self).stands(old(self).view().fail(kind.view(), span)),
            old(self).view().grows_to(final(self).view()),
    {
        proof {
            reveal(Ck::grows_to);
            reveal(Cx::view);
            reveal(Ck::fail);
        }
        report(&mut self.errors, kind, span);
    }

    /// `found` arguments where `expected` are taken.
    pub fn emit_count(&mut self, expected: usize, found: usize, span: Span)
        ensures
            final(self).stands(old(self).view().fail(Problem::ArgCount { expected, found }, span)),
            old(self).view().grows_to(final(self).view()),
    {
        self.emit(SemaErrorKind::ArgCount { expected, found }, span);
    }

    pub fn say(&mut self, text: &str, span: Span)
        ensures
            final(self).stands(old(self).view().say(text@, span)),
            old(self).view().grows_to(final(self).view()),
    {
        proof {
            reveal(Ck::grows_to);
            reveal(Cx::view);
            reveal(Ck::say);
            reveal(Ck::fail);
        }
        self.emit(SemaErrorKind::Message(text.to_owned()), span);
    }

    pub fn say_text(&mut self, text: String, span: Span)
        ensures
            final(self).stands(old(self).view().say(text@, span)),
            old(self).view().grows_to(final(self).view()),
    {
        proof {
            reveal(Ck::grows_to);
            reveal(Cx::view);
            reveal(Ck::say);
            reveal(Ck::fail);
        }
        self.emit(SemaErrorKind::Message(text), span);
    }

    pub fn mk(&mut self, k: TyKind) -> (r: Ty)
        ensures
            final(self).answers(r, old(self).view().mk(k)),
            old(self).view().grows_to(final(self).view()),
    {
        proof {
            reveal(Ck::grows_to);
            crate::ty::law_interned_grows(self.view().kinds, k);
            reveal(Cx::view);
            reveal(Ck::mk);
            reveal(Ck::with_kinds);
        }
        self.tcx.intern(k)
    }

    pub fn mk_named(&mut self, def: DefId, args: List<Ty>) -> (r: Ty)
        ensures
            final(self).answers(r, old(self).view().mk_named(def, args)),
            old(self).view().grows_to(final(self).view()),
    {
        proof {
            reveal(Ck::grows_to);
            crate::ty::law_interned_grows(self.view().kinds, TyKind::Named { def, args });
            reveal(Cx::view);
            reveal(Ck::mk_named);
            reveal(Ck::mk);
        }
        self.mk(TyKind::Named { def, args })
    }

    pub fn mk_union(&mut self, l: List<Ty>) -> (r: Ty)
        ensures
            final(self).answers(r, old(self).view().mk_union(l)),
            old(self).view().grows_to(final(self).view()),
    {
        proof {
            reveal(Ck::grows_to);
            crate::ty::law_union_grows(self.view().kinds, l);
            reveal(Cx::view);
            reveal(Ck::mk_union);
            reveal(Ck::with_kinds);
        }
        self.tcx.mk_union(l)
    }

    pub fn lower_ty(&mut self, ty: &Type, env: &TypeEnv) -> (r: Ty)
        ensures
            final(self).answers(r, old(self).view().lower(*ty, *env)),
            old(self).view().grows_to(final(self).view()),
    {
        proof {
            reveal(Ck::grows_to);
            crate::lower::law_lower_grows(self.view().p, self.view().low(), List::Nil, *ty, *env);
            reveal(Ck::low);
            reveal(Cx::view);
            reveal(Ck::lower);
            reveal(Ck::low);
        }
        lower_type(self.prog, &mut self.tcx, &mut self.errors, &List::Nil, ty, env)
    }

    pub fn lower_tys(&mut self, tys: &List<Type>, env: &TypeEnv) -> (r: List<Ty>)
        ensures
            final(self).answers(r, old(self).view().lower_list(*tys, *env)),
            old(self).view().grows_to(final(self).view()),
    {
        proof {
            reveal(Ck::grows_to);
            crate::lower::law_lower_list_grows(self.view().p, self.view().low(), List::Nil, *tys, *env);
            reveal(Ck::low);
            reveal(Cx::view);
            reveal(Ck::lower_list);
            reveal(Ck::low);
        }
        lower_list(self.prog, &mut self.tcx, &mut self.errors, &List::Nil, tys, env)
    }

    pub fn subst_ty(&mut self, t: Ty, m: &List<Solved>) -> (r: Ty)
        ensures
            final(self).answers(r, old(self).view().subst(t, *m)),
            old(self).view().grows_to(final(self).view()),
    {
        proof {
            reveal(Ck::grows_to);
            crate::solve::law_substitute_grows(self.view().kinds, t, *m);
            reveal(Cx::view);
            reveal(Ck::subst);
            reveal(Ck::with_kinds);
        }
        subst_ty(&mut self.tcx, t, m)
    }

    pub fn subst_tys(&mut self, l: &List<Ty>, m: &List<Solved>) -> (r: List<Ty>)
        ensures
            final(self).answers(r, old(self).view().subst_all(*l, *m)),
            old(self).view().grows_to(final(self).view()),
    {
        proof {
            reveal(Ck::grows_to);
            crate::solve::law_substitute_all_grows(self.view().kinds, *l, *m);
            reveal(Cx::view);
            reveal(Ck::subst_all);
        }
        subst_all(&mut self.tcx, l, m)
    }

    pub fn unify(&self, pat: Ty, val: Ty, m: List<Solved>) -> (r: List<Solved>)
        ensures
            r == self.view().unify(pat, val, m),
    {
        proof {
            reveal(Cx::view);
            reveal(Ck::unify);
        }
        unify(&self.tcx, pat, val, m)
    }

    pub fn add_node(&mut self, kind: NodeKind, ty: Ty, span: Span) -> (r: NodeId)
        ensures
            final(self).answers(r, old(self).view().add_node(kind, ty, span)),
            old(self).view().grows_to(final(self).view()),
    {
        proof {
            reveal(Ck::grows_to);
            reveal(Cx::view);
            reveal(Ck::add_node);
        }
        self.table.add(Node { kind, ty, span })
    }

    pub fn put(&mut self, span: Span, n: NodeId)
        ensures
            final(self).stands(old(self).view().put(span, n)),
            old(self).view().grows_to(final(self).view()),
    {
        proof {
            reveal(Ck::grows_to);
            reveal(Cx::view);
            reveal(Ck::put);
        }
        self.table.put(span, n);
    }

    pub fn push_scope(&mut self)
        ensures
            final(self).stands(old(self).view().push_scope()),
            old(self).view().grows_to(final(self).view()),
    {
        proof {
            reveal(Ck::grows_to);
            reveal(Cx::view);
            reveal(Ck::push_scope);
        }
        let l = take_list(&mut self.scopes);
        self.scopes = List::Cons(Box::new(List::Nil), Box::new(l));
    }

    pub fn pop_scope(&mut self)
        ensures
            final(self).stands(old(self).view().pop_scope()),
            old(self).view().grows_to(final(self).view()),
    {
        proof {
            reveal(Ck::grows_to);
            reveal(Cx::view);
            reveal(Ck::pop_scope);
        }
        match take_list(&mut self.scopes) {
            List::Cons(_, t) => {
                self.scopes = *t;
            },
            List::Nil => {},
        }
    }

    /// Records `local` as captured by every enclosing closure that does not own
    /// it.
    pub fn record_capture(&mut self, local: LocalId, ty: Ty)
        ensures
            final(self).stands(old(self).view().capture(local, ty)),
            old(self).view().grows_to(final(self).view()),
    {
        proof {
            reveal(Ck::grows_to);
            reveal(Cx::view);
            reveal(Ck::capture);
        }
        let l = take_list(&mut self.closures);
        self.closures = capture_in(l, local, ty);
    }

    pub fn narrow(&mut self, local: LocalId, ty: Ty)
        ensures
            final(self).stands(old(self).view().narrow(local, ty)),
            old(self).view().grows_to(final(self).view()),
    {
        proof {
            reveal(Ck::grows_to);
            reveal(Cx::view);
            reveal(Ck::narrow);
        }
        let l = take_list(&mut self.narrowings);
        self.narrowings = List::Cons(Box::new(LocalTy { local, ty }), Box::new(l));
    }

    pub fn restore_narrowing(&mut self)
        ensures
            final(self).stands(old(self).view().widen_back()),
            old(self).view().grows_to(final(self).view()),
    {
        proof {
            reveal(Ck::grows_to);
            reveal(Cx::view);
            reveal(Ck::widen_back);
        }
        match take_list(&mut self.narrowings) {
            List::Cons(_, t) => {
                self.narrowings = *t;
            },
            List::Nil => {},
        }
    }
}

} // verus!
