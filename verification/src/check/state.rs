//! Reading and changing the parts of the checker's state.
use vstd::prelude::*;
use crate::check::{
    take_list, take_opt, AsyncInfo, Binding, Ck, ClosureFrame, ClosureInfo, Cx, Flex, FnBody, Hole, LockRoot, LoopFrame,
};
use crate::hir::{
    Conversion, ExternSig, FnSig, ForDriver, IfaceImpl, LocalTy, OpOverload, StructLayout, TryBranch,
};
use crate::ids::{LocalId, ModId};
use crate::list::List;
use crate::lower::GenericName;
use crate::results::CloneKind;
use crate::symbols::Program;
use crate::ty::Ty;

verus! {

impl<'a> Cx<'a> {
    /// The program being checked.
    pub fn program(&self) -> (r: &'a Program)
        ensures
            *r == self.view().p,
    {
        proof {
            reveal(Cx::view);
        }
        self.prog
    }

    pub fn set_scopes(&mut self, x: List<List<Binding>>)
        ensures
            final(self).stands((Ck { scopes: x, ..old(self).view() })),
            old(self).view().grows_to(final(self).view()),
    {
        proof {
            reveal(Ck::grows_to);
            reveal(Cx::view);
        }
        self.scopes = x;
    }

    pub fn ret_ty(&self) -> (r: Ty)
        ensures
            r == self.view().ret_ty,
    {
        proof {
            reveal(Cx::view);
        }
        self.ret_ty
    }

    pub fn set_ret_ty(&mut self, x: Ty)
        ensures
            final(self).stands((Ck { ret_ty: x, ..old(self).view() })),
            old(self).view().grows_to(final(self).view()),
    {
        proof {
            reveal(Ck::grows_to);
            reveal(Cx::view);
        }
        self.ret_ty = x;
    }

    pub fn loops(&self) -> (r: &List<LoopFrame>)
        ensures
            *r == self.view().loops,
    {
        proof {
            reveal(Cx::view);
        }
        &self.loops
    }

    pub fn take_loops(&mut self) -> (r: List<LoopFrame>)
        ensures
            (final(self).view(), r) == (Ck { loops: List::Nil, ..old(self).view() }, old(self).view().loops),
            old(self).view().grows_to(final(self).view()),
    {
        proof {
            reveal(Ck::grows_to);
            reveal(Cx::view);
        }
        take_list(&mut self.loops)
    }

    pub fn set_loops(&mut self, x: List<LoopFrame>)
        ensures
            final(self).stands((Ck { loops: x, ..old(self).view() })),
            old(self).view().grows_to(final(self).view()),
    {
        proof {
            reveal(Ck::grows_to);
            reveal(Cx::view);
        }
        self.loops = x;
    }

    pub fn self_local(&self) -> (r: Option<LocalId>)
        ensures
            r == self.view().self_local,
    {
        proof {
            reveal(Cx::view);
        }
        self.self_local
    }

    pub fn set_self_local(&mut self, x: Option<LocalId>)
        ensures
            final(self).stands((Ck { self_local: x, ..old(self).view() })),
            old(self).view().grows_to(final(self).view()),
    {
        proof {
            reveal(Ck::grows_to);
            reveal(Cx::view);
        }
        self.self_local = x;
    }

    pub fn cur_module(&self) -> (r: ModId)
        ensures
            r == self.view().cur_module,
    {
        proof {
            reveal(Cx::view);
        }
        self.cur_module
    }

    pub fn set_cur_module(&mut self, x: ModId)
        ensures
            final(self).stands((Ck { cur_module: x, ..old(self).view() })),
            old(self).view().grows_to(final(self).view()),
    {
        proof {
            reveal(Ck::grows_to);
            reveal(Cx::view);
        }
        self.cur_module = x;
    }

    pub fn cur_generics(&self) -> (r: &List<GenericName>)
        ensures
            *r == self.view().cur_generics,
    {
        proof {
            reveal(Cx::view);
        }
        &self.cur_generics
    }

    pub fn set_cur_generics(&mut self, x: List<GenericName>)
        ensures
            final(self).stands((Ck { cur_generics: x, ..old(self).view() })),
            old(self).view().grows_to(final(self).view()),
    {
        proof {
            reveal(Ck::grows_to);
            reveal(Cx::view);
        }
        self.cur_generics = x;
    }

    pub fn set_cur_self_ty(&mut self, x: Option<Ty>)
        ensures
            final(self).stands((Ck { cur_self_ty: x, ..old(self).view() })),
            old(self).view().grows_to(final(self).view()),
    {
        proof {
            reveal(Ck::grows_to);
            reveal(Cx::view);
        }
        self.cur_self_ty = x;
    }

    pub fn narrowings(&self) -> (r: &List<LocalTy>)
        ensures
            *r == self.view().narrowings,
    {
        proof {
            reveal(Cx::view);
        }
        &self.narrowings
    }

    pub fn take_closures(&mut self) -> (r: List<ClosureFrame>)
        ensures
            (final(self).view(), r) == (Ck { closures: List::Nil, ..old(self).view() }, old(self).view().closures),
            old(self).view().grows_to(final(self).view()),
    {
        proof {
            reveal(Ck::grows_to);
            reveal(Cx::view);
        }
        take_list(&mut self.closures)
    }

    pub fn set_closures(&mut self, x: List<ClosureFrame>)
        ensures
            final(self).stands((Ck { closures: x, ..old(self).view() })),
            old(self).view().grows_to(final(self).view()),
    {
        proof {
            reveal(Ck::grows_to);
            reveal(Cx::view);
        }
        self.closures = x;
    }

    pub fn lock_roots(&self) -> (r: &List<LockRoot>)
        ensures
            *r == self.view().lock_roots,
    {
        proof {
            reveal(Cx::view);
        }
        &self.lock_roots
    }

    pub fn take_lock_roots(&mut self) -> (r: List<LockRoot>)
        ensures
            (final(self).view(), r) == (Ck { lock_roots: List::Nil, ..old(self).view() }, old(self).view().lock_roots),
            old(self).view().grows_to(final(self).view()),
    {
        proof {
            reveal(Ck::grows_to);
            reveal(Cx::view);
        }
        take_list(&mut self.lock_roots)
    }

    pub fn set_lock_roots(&mut self, x: List<LockRoot>)
        ensures
            final(self).stands((Ck { lock_roots: x, ..old(self).view() })),
            old(self).view().grows_to(final(self).view()),
    {
        proof {
            reveal(Ck::grows_to);
            reveal(Cx::view);
        }
        self.lock_roots = x;
    }

    pub fn lock_next(&self) -> (r: bool)
        ensures
            r == self.view().lock_next,
    {
        proof {
            reveal(Cx::view);
        }
        self.lock_next
    }

    pub fn set_lock_next(&mut self, x: bool)
        ensures
            final(self).stands((Ck { lock_next: x, ..old(self).view() })),
            old(self).view().grows_to(final(self).view()),
    {
        proof {
            reveal(Ck::grows_to);
            reveal(Cx::view);
        }
        self.lock_next = x;
    }

    pub fn in_async(&self) -> (r: bool)
        ensures
            r == self.view().in_async,
    {
        proof {
            reveal(Cx::view);
        }
        self.in_async
    }

    pub fn set_in_async(&mut self, x: bool)
        ensures
            final(self).stands((Ck { in_async: x, ..old(self).view() })),
            old(self).view().grows_to(final(self).view()),
    {
        proof {
            reveal(Ck::grows_to);
            reveal(Cx::view);
        }
        self.in_async = x;
    }

    pub fn take_p_overload(&mut self) -> (r: Option<OpOverload>)
        ensures
            (final(self).view(), r) == (Ck { p_overload: None, ..old(self).view() }, old(self).view().p_overload),
            old(self).view().grows_to(final(self).view()),
    {
        proof {
            reveal(Ck::grows_to);
            reveal(Cx::view);
        }
        take_opt(&mut self.p_overload)
    }

    pub fn set_p_overload(&mut self, x: Option<OpOverload>)
        ensures
            final(self).stands((Ck { p_overload: x, ..old(self).view() })),
            old(self).view().grows_to(final(self).view()),
    {
        proof {
            reveal(Ck::grows_to);
            reveal(Cx::view);
        }
        self.p_overload = x;
    }

    pub fn take_p_cast(&mut self) -> (r: Option<Ty>)
        ensures
            (final(self).view(), r) == (Ck { p_cast: None, ..old(self).view() }, old(self).view().p_cast),
            old(self).view().grows_to(final(self).view()),
    {
        proof {
            reveal(Ck::grows_to);
            reveal(Cx::view);
        }
        take_opt(&mut self.p_cast)
    }

    pub fn set_p_cast(&mut self, x: Option<Ty>)
        ensures
            final(self).stands((Ck { p_cast: x, ..old(self).view() })),
            old(self).view().grows_to(final(self).view()),
    {
        proof {
            reveal(Ck::grows_to);
            reveal(Cx::view);
        }
        self.p_cast = x;
    }

    pub fn take_p_await(&mut self) -> (r: Option<Ty>)
        ensures
            (final(self).view(), r) == (Ck { p_await: None, ..old(self).view() }, old(self).view().p_await),
            old(self).view().grows_to(final(self).view()),
    {
        proof {
            reveal(Ck::grows_to);
            reveal(Cx::view);
        }
        take_opt(&mut self.p_await)
    }

    pub fn set_p_await(&mut self, x: Option<Ty>)
        ensures
            final(self).stands((Ck { p_await: x, ..old(self).view() })),
            old(self).view().grows_to(final(self).view()),
    {
        proof {
            reveal(Ck::grows_to);
            reveal(Cx::view);
        }
        self.p_await = x;
    }

    pub fn take_p_spawn(&mut self) -> (r: Option<Ty>)
        ensures
            (final(self).view(), r) == (Ck { p_spawn: None, ..old(self).view() }, old(self).view().p_spawn),
            old(self).view().grows_to(final(self).view()),
    {
        proof {
            reveal(Ck::grows_to);
            reveal(Cx::view);
        }
        take_opt(&mut self.p_spawn)
    }

    pub fn set_p_spawn(&mut self, x: Option<Ty>)
        ensures
            final(self).stands((Ck { p_spawn: x, ..old(self).view() })),
            old(self).view().grows_to(final(self).view()),
    {
        proof {
            reveal(Ck::grows_to);
            reveal(Cx::view);
        }
        self.p_spawn = x;
    }

    pub fn take_p_try(&mut self) -> (r: Option<TryBranch>)
        ensures
            (final(self).view(), r) == (Ck { p_try: None, ..old(self).view() }, old(self).view().p_try),
            old(self).view().grows_to(final(self).view()),
    {
        proof {
            reveal(Ck::grows_to);
            reveal(Cx::view);
        }
        take_opt(&mut self.p_try)
    }

    pub fn set_p_try(&mut self, x: Option<TryBranch>)
        ensures
            final(self).stands((Ck { p_try: x, ..old(self).view() })),
            old(self).view().grows_to(final(self).view()),
    {
        proof {
            reveal(Ck::grows_to);
            reveal(Cx::view);
        }
        self.p_try = x;
    }

    pub fn take_p_residuals(&mut self) -> (r: Option<List<Conversion>>)
        ensures
            (final(self).view(), r) == (Ck { p_residuals: None, ..old(self).view() }, old(self).view().p_residuals),
            old(self).view().grows_to(final(self).view()),
    {
        proof {
            reveal(Ck::grows_to);
            reveal(Cx::view);
        }
        take_opt(&mut self.p_residuals)
    }

    pub fn set_p_residuals(&mut self, x: Option<List<Conversion>>)
        ensures
            final(self).stands((Ck { p_residuals: x, ..old(self).view() })),
            old(self).view().grows_to(final(self).view()),
    {
        proof {
            reveal(Ck::grows_to);
            reveal(Cx::view);
        }
        self.p_residuals = x;
    }

    pub fn take_p_clone(&mut self) -> (r: Option<CloneKind>)
        ensures
            (final(self).view(), r) == (Ck { p_clone: None, ..old(self).view() }, old(self).view().p_clone),
            old(self).view().grows_to(final(self).view()),
    {
        proof {
            reveal(Ck::grows_to);
            reveal(Cx::view);
        }
        take_opt(&mut self.p_clone)
    }

    pub fn set_p_clone(&mut self, x: Option<CloneKind>)
        ensures
            final(self).stands((Ck { p_clone: x, ..old(self).view() })),
            old(self).view().grows_to(final(self).view()),
    {
        proof {
            reveal(Ck::grows_to);
            reveal(Cx::view);
        }
        self.p_clone = x;
    }

    pub fn take_p_static(&mut self) -> (r: Option<Ty>)
        ensures
            (final(self).view(), r) == (Ck { p_static: None, ..old(self).view() }, old(self).view().p_static),
            old(self).view().grows_to(final(self).view()),
    {
        proof {
            reveal(Ck::grows_to);
            reveal(Cx::view);
        }
        take_opt(&mut self.p_static)
    }

    pub fn set_p_static(&mut self, x: Option<Ty>)
        ensures
            final(self).stands((Ck { p_static: x, ..old(self).view() })),
            old(self).view().grows_to(final(self).view()),
    {
        proof {
            reveal(Ck::grows_to);
            reveal(Cx::view);
        }
        self.p_static = x;
    }

    pub fn take_p_flex(&mut self) -> (r: Option<Flex>)
        ensures
            (final(self).view(), r) == (Ck { p_flex: None, ..old(self).view() }, old(self).view().p_flex),
            old(self).view().grows_to(final(self).view()),
    {
        proof {
            reveal(Ck::grows_to);
            reveal(Cx::view);
        }
        take_opt(&mut self.p_flex)
    }

    pub fn set_p_flex(&mut self, x: Option<Flex>)
        ensures
            final(self).stands((Ck { p_flex: x, ..old(self).view() })),
            old(self).view().grows_to(final(self).view()),
    {
        proof {
            reveal(Ck::grows_to);
            reveal(Cx::view);
        }
        self.p_flex = x;
    }

    pub fn take_p_driver(&mut self) -> (r: Option<ForDriver>)
        ensures
            (final(self).view(), r) == (Ck { p_driver: None, ..old(self).view() }, old(self).view().p_driver),
            old(self).view().grows_to(final(self).view()),
    {
        proof {
            reveal(Ck::grows_to);
            reveal(Cx::view);
        }
        take_opt(&mut self.p_driver)
    }

    pub fn set_p_driver(&mut self, x: Option<ForDriver>)
        ensures
            final(self).stands((Ck { p_driver: x, ..old(self).view() })),
            old(self).view().grows_to(final(self).view()),
    {
        proof {
            reveal(Ck::grows_to);
            reveal(Cx::view);
        }
        self.p_driver = x;
    }

    pub fn take_p_targs(&mut self) -> (r: Option<List<Ty>>)
        ensures
            (final(self).view(), r) == (Ck { p_targs: None, ..old(self).view() }, old(self).view().p_targs),
            old(self).view().grows_to(final(self).view()),
    {
        proof {
            reveal(Ck::grows_to);
            reveal(Cx::view);
        }
        take_opt(&mut self.p_targs)
    }

    pub fn set_p_targs(&mut self, x: Option<List<Ty>>)
        ensures
            final(self).stands((Ck { p_targs: x, ..old(self).view() })),
            old(self).view().grows_to(final(self).view()),
    {
        proof {
            reveal(Ck::grows_to);
            reveal(Cx::view);
        }
        self.p_targs = x;
    }

    pub fn take_p_holes(&mut self) -> (r: Option<List<Hole>>)
        ensures
            (final(self).view(), r) == (Ck { p_holes: None, ..old(self).view() }, old(self).view().p_holes),
            old(self).view().grows_to(final(self).view()),
    {
        proof {
            reveal(Ck::grows_to);
            reveal(Cx::view);
        }
        take_opt(&mut self.p_holes)
    }

    pub fn set_p_holes(&mut self, x: Option<List<Hole>>)
        ensures
            final(self).stands((Ck { p_holes: x, ..old(self).view() })),
            old(self).view().grows_to(final(self).view()),
    {
        proof {
            reveal(Ck::grows_to);
            reveal(Cx::view);
        }
        self.p_holes = x;
    }

    pub fn take_p_closure(&mut self) -> (r: Option<ClosureInfo>)
        ensures
            (final(self).view(), r) == (Ck { p_closure: None, ..old(self).view() }, old(self).view().p_closure),
            old(self).view().grows_to(final(self).view()),
    {
        proof {
            reveal(Ck::grows_to);
            reveal(Cx::view);
        }
        take_opt(&mut self.p_closure)
    }

    pub fn set_p_closure(&mut self, x: Option<ClosureInfo>)
        ensures
            final(self).stands((Ck { p_closure: x, ..old(self).view() })),
            old(self).view().grows_to(final(self).view()),
    {
        proof {
            reveal(Ck::grows_to);
            reveal(Cx::view);
        }
        self.p_closure = x;
    }

    pub fn take_p_async(&mut self) -> (r: Option<AsyncInfo>)
        ensures
            (final(self).view(), r) == (Ck { p_async: None, ..old(self).view() }, old(self).view().p_async),
            old(self).view().grows_to(final(self).view()),
    {
        proof {
            reveal(Ck::grows_to);
            reveal(Cx::view);
        }
        take_opt(&mut self.p_async)
    }

    pub fn set_p_async(&mut self, x: Option<AsyncInfo>)
        ensures
            final(self).stands((Ck { p_async: x, ..old(self).view() })),
            old(self).view().grows_to(final(self).view()),
    {
        proof {
            reveal(Ck::grows_to);
            reveal(Cx::view);
        }
        self.p_async = x;
    }

    pub fn structs(&self) -> (r: &List<StructLayout>)
        ensures
            *r == self.view().structs,
    {
        proof {
            reveal(Cx::view);
        }
        &self.structs
    }

    pub fn take_structs(&mut self) -> (r: List<StructLayout>)
        ensures
            (final(self).view(), r) == (Ck { structs: List::Nil, ..old(self).view() }, old(self).view().structs),
            old(self).view().grows_to(final(self).view()),
    {
        proof {
            reveal(Ck::grows_to);
            reveal(Cx::view);
        }
        take_list(&mut self.structs)
    }

    pub fn set_structs(&mut self, x: List<StructLayout>)
        ensures
            final(self).stands((Ck { structs: x, ..old(self).view() })),
            old(self).view().grows_to(final(self).view()),
    {
        proof {
            reveal(Ck::grows_to);
            reveal(Cx::view);
        }
        self.structs = x;
    }

    pub fn fn_sigs(&self) -> (r: &List<FnSig>)
        ensures
            *r == self.view().fn_sigs,
    {
        proof {
            reveal(Cx::view);
        }
        &self.fn_sigs
    }

    pub fn take_fn_sigs(&mut self) -> (r: List<FnSig>)
        ensures
            (final(self).view(), r) == (Ck { fn_sigs: List::Nil, ..old(self).view() }, old(self).view().fn_sigs),
            old(self).view().grows_to(final(self).view()),
    {
        proof {
            reveal(Ck::grows_to);
            reveal(Cx::view);
        }
        take_list(&mut self.fn_sigs)
    }

    pub fn set_fn_sigs(&mut self, x: List<FnSig>)
        ensures
            final(self).stands((Ck { fn_sigs: x, ..old(self).view() })),
            old(self).view().grows_to(final(self).view()),
    {
        proof {
            reveal(Ck::grows_to);
            reveal(Cx::view);
        }
        self.fn_sigs = x;
    }

    pub fn take_extern_sigs(&mut self) -> (r: List<ExternSig>)
        ensures
            (final(self).view(), r) == (
                Ck { extern_sigs: List::Nil, ..old(self).view() },
                old(self).view().extern_sigs,
            ),
            old(self).view().grows_to(final(self).view()),
    {
        proof {
            reveal(Ck::grows_to);
            reveal(Cx::view);
        }
        take_list(&mut self.extern_sigs)
    }

    pub fn set_extern_sigs(&mut self, x: List<ExternSig>)
        ensures
            final(self).stands((Ck { extern_sigs: x, ..old(self).view() })),
            old(self).view().grows_to(final(self).view()),
    {
        proof {
            reveal(Ck::grows_to);
            reveal(Cx::view);
        }
        self.extern_sigs = x;
    }

    pub fn take_iface_impls(&mut self) -> (r: List<IfaceImpl>)
        ensures
            (final(self).view(), r) == (
                Ck { iface_impls: List::Nil, ..old(self).view() },
                old(self).view().iface_impls,
            ),
            old(self).view().grows_to(final(self).view()),
    {
        proof {
            reveal(Ck::grows_to);
            reveal(Cx::view);
        }
        take_list(&mut self.iface_impls)
    }

    pub fn set_iface_impls(&mut self, x: List<IfaceImpl>)
        ensures
            final(self).stands((Ck { iface_impls: x, ..old(self).view() })),
            old(self).view().grows_to(final(self).view()),
    {
        proof {
            reveal(Ck::grows_to);
            reveal(Cx::view);
        }
        self.iface_impls = x;
    }

    pub fn take_fn_bodies(&mut self) -> (r: List<FnBody>)
        ensures
            (final(self).view(), r) == (Ck { fn_bodies: List::Nil, ..old(self).view() }, old(self).view().fn_bodies),
            old(self).view().grows_to(final(self).view()),
    {
        proof {
            reveal(Ck::grows_to);
            reveal(Cx::view);
        }
        take_list(&mut self.fn_bodies)
    }

    pub fn set_fn_bodies(&mut self, x: List<FnBody>)
        ensures
            final(self).stands((Ck { fn_bodies: x, ..old(self).view() })),
            old(self).view().grows_to(final(self).view()),
    {
        proof {
            reveal(Ck::grows_to);
            reveal(Cx::view);
        }
        self.fn_bodies = x;
    }
}

} // verus!
