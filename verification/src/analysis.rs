//! The whole analysis: expansion of decorators and default methods, hoisting of
//! `await`, collection of definitions, and the type check.
use vstd::prelude::*;
use crate::anf::hoist_awaits;
use crate::ast::{Item, Module};
use crate::checker::Checker;
use crate::defaults::{collect_pub_interfaces, expand_default_methods, ForeignEntry, ForeignIfaces};
use crate::derive::expand_derives;
use crate::diag::{dup_errors, SemaError};
use crate::dup::dup_module;
use crate::hir::Hir;
use crate::ids::ModId;
use crate::list::List;
use crate::results::ValueRes;
use crate::session::{Sess, Session};
use crate::span::Span;
use crate::symbols::{Coll, External, Externals, Program};
use crate::ty::{Ty, TyCtxt};

verus! {

/// The result of an analysis.
pub struct Analysis {
    pub program: Program,
    /// Every type that was made.
    pub tcx: TyCtxt,
    pub hir: Hir,
    /// What is wrong, in the order it was found.
    pub errors: Vec<SemaError>,
}

impl Analysis {
    /// The type checked at `span`, before any coercion of the value.
    pub fn expr_ty(&self, span: Span) -> (r: Option<Ty>)
        ensures
            r == crate::hir::checked_ty(self.hir.table.nodes@, self.hir.table.at@, span),
    {
        self.hir.expr_ty(span)
    }

    /// What the name at `span` resolved to.
    pub fn resolution(&self, span: Span) -> (r: Option<ValueRes>)
        ensures
            r == crate::hir::name_at(self.hir.table.nodes@, self.hir.table.at@, span),
    {
        self.hir.resolution(span)
    }
}

/// A module's items as collection sees them: derived blocks are added, default
/// methods copied, and every nested `await` hoisted.
pub open spec fn prepared(s: Sess, items: List<Item>, foreign: List<ForeignEntry>) -> (Sess, List<Item>) {
    let (s1, derived) = crate::derive::expanded(s, items);
    let (g, filled) = crate::defaults::expanded(s1.default_spans, derived, foreign);
    crate::anf::hoisted_items(Sess { default_spans: g, ..s1 }, filled)
}

fn prepare(m: &Module, foreign: &ForeignIfaces, s: &mut Session) -> (r: Module)
    ensures
        (final(s).view(), r.items) == prepared(old(s).view(), m.items, foreign.by_name),
        r.docs == m.docs,
        r.span == m.span,
{
    let mut out = dup_module(m);
    expand_derives(&mut out, s);
    expand_default_methods(&mut out, foreign, s);
    hoist_awaits(&mut out, s);
    out
}

pub open spec fn prepared_externals(s: Sess, l: Externals, foreign: List<ForeignEntry>) -> (Sess, Externals)
    decreases l,
{
    match l {
        List::Nil => (s, List::Nil),
        List::Cons(h, t) => {
            let (s1, items) = prepared(s, h.module.items, foreign);
            let (s2, rest) = prepared_externals(s1, *t, foreign);
            let head = External {
                source: h.source,
                builtin: h.builtin,
                module: Module { docs: h.module.docs, items, span: h.module.span },
            };
            (s2, List::Cons(Box::new(head), Box::new(rest)))
        },
    }
}

fn prepare_externals(l: &Externals, foreign: &ForeignIfaces, s: &mut Session) -> (r: Externals)
    ensures
        (final(s).view(), r) == prepared_externals(old(s).view(), *l, foreign.by_name),
    decreases l,
{
    match l {
        List::Nil => List::Nil,
        List::Cons(h, t) => {
            let module = prepare(&h.module, foreign, s);
            let rest = prepare_externals(t, foreign, s);
            List::Cons(Box::new(External { source: h.source, builtin: h.builtin, module }), Box::new(rest))
        },
    }
}

/// The `pub` interfaces of the loaded modules on top of `out`.
pub open spec fn external_interfaces(l: Externals, out: List<ForeignEntry>) -> List<ForeignEntry>
    decreases l,
{
    match l {
        List::Nil => out,
        List::Cons(h, t) => external_interfaces(*t, crate::defaults::pub_interfaces(h.module.items, out)),
    }
}

fn collect_external_interfaces(l: &Externals, out: &mut ForeignIfaces)
    ensures
        final(out).by_name == external_interfaces(*l, old(out).by_name),
    decreases l,
{
    match l {
        List::Nil => {},
        List::Cons(h, t) => {
            collect_pub_interfaces(&h.module, out);
            collect_external_interfaces(t, out);
        },
    }
}

/// The `pub` interfaces of all modules.
pub open spec fn all_interfaces(root: Module, externals: Externals) -> List<ForeignEntry> {
    external_interfaces(externals, crate::defaults::pub_interfaces(root.items, List::Nil))
}

/// The definitions of a program.
pub open spec fn program_of(s: Sess, root: Module, externals: Externals) -> Coll {
    let foreign = all_interfaces(root, externals);
    let (s1, items) = prepared(s, root.items, foreign);
    let (s2, rest) = prepared_externals(s1, externals, foreign);
    crate::symbols::collected_externals(
        crate::symbols::collected_items(crate::symbols::root_table(s2.texts, root.span), items, ModId(0), false),
        rest,
    )
}

/// `a` is what checking its own program leads to.
pub open spec fn is_analysis(a: Analysis) -> bool {
    let start = crate::check::fresh_state(
        a.program,
        crate::ty::primitive_kinds(),
        crate::diag::reports(a.program.errors@),
    );
    let end = start.check_program();
    &&& crate::checker::is_finished(a.hir, end)
    &&& a.tcx.view() == end.kinds
    &&& crate::diag::reports(a.errors@) == end.errors
}

/// Analyses a program of one module. The names in the module are those of `s`.
pub fn analyze(module: &Module, s: Session) -> (r: Analysis)
    ensures
        r.program.view() == program_of(s.view(), *module, List::Nil),
        is_analysis(r),
        crate::list::extends(crate::diag::reports(r.program.errors@), crate::diag::reports(r.errors@)),
{
    analyze_multi(module, &List::Nil, s)
}

/// Analyses a program of several modules: the root and every other loaded
/// module. The names in the modules are those of `s`.
pub fn analyze_multi(root: &Module, externals: &Externals, s: Session) -> (r: Analysis)
    ensures
        r.program.view() == program_of(s.view(), *root, *externals),
        is_analysis(r),
        crate::list::extends(crate::diag::reports(r.program.errors@), crate::diag::reports(r.errors@)),
{
    let mut s = s;
    let mut foreign = ForeignIfaces::new();
    collect_pub_interfaces(root, &mut foreign);
    collect_external_interfaces(externals, &mut foreign);
    let root = prepare(root, &foreign, &mut s);
    let externals = prepare_externals(externals, &foreign, &mut s);
    let program = Program::collect_multi(&root, &externals, s.names);
    let mut tcx = TyCtxt::new();
    let mut errors = dup_errors(&program.errors);
    let mut ck = Checker::new(&program, &mut tcx, &mut errors);
    ck.check_program();
    proof {
        reveal(crate::check::Ck::grows_to);
    }
    let hir = ck.finish();
    Analysis { program, tcx, hir, errors }
}

} // verus!
