//! The type checker as its users see it.
use vstd::prelude::*;
use crate::check::{Ck, Cx};
use crate::diag::SemaError;
use crate::hir::Hir;
use crate::ids::DefId;
use crate::list::List;
use crate::symbols::Program;
use crate::ty::TyCtxt;

verus! {

/// Checks the bodies of a program and builds its typed form. Types are interned
/// in `tcx`, and what is wrong is added to `errors`.
pub struct Checker<'a> {
    pub tcx: &'a mut TyCtxt,
    pub errors: &'a mut Vec<SemaError>,
    /// The state of the check but for the types and the errors.
    pub cx: Cx<'a>,
}

/// The typed program that the state `s` has led to.
pub open spec fn is_finished(h: Hir, s: Ck) -> bool {
    let ids = s.p.def_ids();
    &&& h.structs == s.structs
    &&& h.fn_sigs == s.fn_sigs
    &&& h.extern_sigs == s.extern_sigs
    &&& h.iface_impls == s.iface_impls
    &&& h.link_libs == s.collect_link_libs(ids, List::Nil)
    &&& h.locals@ == s.locals
    &&& h.table.nodes@ == s.nodes
    &&& h.table.at@ == s.at
    &&& h.bodies == s.finish_bodies(ids).1
}

/// Putting the bodies together changes nothing but that they are taken out of
/// the state: no type is made and nothing is reported.
pub proof fn law_finish_keeps_state(s: Ck, l: List<DefId>)
    ensures
        s.finish_bodies(l).0 == (Ck { fn_bodies: s.finish_bodies(l).0.fn_bodies, ..s }),
    decreases l,
{
    reveal(Ck::finish_bodies);
    reveal(Ck::finish_body);
    match l {
        List::Nil => {},
        List::Cons(h, t) => {
            if s.has_body(*h) {
                law_finish_keeps_state(s.finish_body(*h).0, *t);
            } else {
                law_finish_keeps_state(s, *t);
            }
        },
    }
}

impl<'a> Checker<'a> {
    /// Everything known so far.
    pub open spec fn state(&self) -> Ck {
        Ck { kinds: self.tcx.view(), errors: crate::diag::reports(self.errors@), ..self.cx.view() }
    }

    pub fn new(prog: &'a Program, tcx: &'a mut TyCtxt, errors: &'a mut Vec<SemaError>) -> (r: Checker<'a>)
        ensures
            r.state() == crate::check::fresh_state(*prog, old(tcx).view(), crate::diag::reports(old(errors)@)),
            *final(tcx) == *final(r.tcx),
            *final(errors) == *final(r.errors),
    {
        let cx = Cx::new(prog, TyCtxt::new(), Vec::new());
        Checker { tcx, errors, cx }
    }

    /// Checks every definition of the program.
    pub fn check_program(&mut self)
        ensures
            final(self).state() == old(self).state().check_program(),
            old(self).state().grows_to(final(self).state()),
            *final(final(self).tcx) == *final(old(self).tcx),
            *final(final(self).errors) == *final(old(self).errors),
    {
        self.cx.exchange(&mut *self.tcx, &mut *self.errors);
        self.cx.check_program();
        self.cx.exchange(&mut *self.tcx, &mut *self.errors);
    }

    /// Checks a function or method; any other definition is left alone.
    pub fn check_function(&mut self, def: DefId)
        ensures
            final(self).state() == old(self).state().check_function(def),
            old(self).state().grows_to(final(self).state()),
            *final(final(self).tcx) == *final(old(self).tcx),
            *final(final(self).errors) == *final(old(self).errors),
    {
        self.cx.exchange(&mut *self.tcx, &mut *self.errors);
        self.cx.check_function(def);
        self.cx.exchange(&mut *self.tcx, &mut *self.errors);
    }

    /// The typed program.
    pub fn finish(self) -> (r: Hir)
        ensures
            is_finished(r, self.state()),
            final(self.tcx).view() == self.state().kinds,
            crate::diag::reports(final(self.errors)@) == self.state().errors,
    {
        let ghost s = self.state();
        let mut ck = self;
        ck.cx.exchange(&mut *ck.tcx, &mut *ck.errors);
        let h = ck.cx.finish();
        ck.cx.exchange(&mut *ck.tcx, &mut *ck.errors);
        proof {
            law_finish_keeps_state(s, s.p.def_ids());
        }
        h
    }
}

} // verus!
