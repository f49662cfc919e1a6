//! Signatures: the types that definitions declare, and the methods that types
//! have.
use vstd::prelude::*;
use crate::ast::{ExternItem, FieldDecl, ItemKind, Param, ParamKind, StructKind, Type, TypeKind};
use crate::check::{Ck, Cx};
use crate::hir::{Conversion, FieldTy, ForAsyncIter, ForIter, TryBranch};
use crate::ids::{DefId, ModId};
use crate::list::{dup, get, List};
use crate::lower::{bind_generics, GenericName, TypeEnv};
use crate::names::Symbol;
use crate::results::{Builtin, ValueRes};
use crate::solve::{all_solutions, is_all_solved, Solved};
use crate::symbols::DefKind;
use crate::ty::{contains_ty, Ty, TyKind, DYNAMIC_TY, ERROR_TY, I32_TY, NEVER_TY, NULL_TY, STR_TY};
use crate::words::{
    BRANCH, FROM_RESIDUAL, NEXT, NEXT_ASYNC, POLL, TO_STR, T_CLONE, T_DONE, T_EQ, T_FROM_RESIDUAL, T_FUTURE, T_HASH,
    T_ITEM, T_JOIN_HANDLE, T_ORD, T_READY, T_TO_STR, T_TRY,
};

verus! {

broadcast use {crate::check::law_grows_reflexive, crate::check::law_grows_transitive};

/// A method that a type has, and what the generics of its block stand for.
#[derive(Debug)]
pub struct Found {
    pub method: DefId,
    pub solved: List<Solved>,
}

/// A method that an interface bound gives.
#[derive(Debug)]
pub struct BoundMethod {
    pub method: DefId,
    pub iface: DefId,
    pub iargs: List<Ty>,
}

/// An interface bound.
#[derive(Debug)]
pub struct Bound {
    pub iface: DefId,
    pub iargs: List<Ty>,
}

/// The types of a function's parameters other than `self`, and of its result.
#[derive(Debug)]
pub struct Sig {
    pub params: List<Ty>,
    pub ret: Ty,
}

impl Ck {
    #[verifier::opaque]
    pub open spec fn mk_param(self, d: DefId) -> (Ck, Ty) {
        self.mk(TyKind::Param(d))
    }

    #[verifier::opaque]
    pub open spec fn mk_tuple(self, es: List<Ty>) -> (Ck, Ty) {
        self.mk(TyKind::Tuple(es))
    }

    #[verifier::opaque]
    pub open spec fn mk_func(self, params: List<Ty>, ret: Ty) -> (Ck, Ty) {
        self.mk(TyKind::Func { params, ret, is_c: false })
    }

    #[verifier::opaque]
    pub open spec fn mk_ptr(self, t: Ty) -> (Ck, Ty) {
        self.mk(TyKind::Ptr(t))
    }

    /// `Future<out>`.
    #[verifier::opaque]
    pub open spec fn mk_future(self, out: Ty) -> (Ck, Ty) {
        self.mk_named(self.p.well_known(T_FUTURE), List::one(out))
    }

    /// `t | null`.
    #[verifier::opaque]
    pub open spec fn mk_nullable(self, t: Ty) -> (Ck, Ty) {
        self.mk_union(List::two(t, NULL_TY))
    }

    /// `acc` with each of `gens` bound to itself as a type parameter.
    #[verifier::opaque]
    pub open spec fn bind_params(self, gens: List<DefId>, acc: List<GenericName>) -> (Ck, List<GenericName>)
        decreases gens,
    {
        match gens {
            List::Nil => (self, acc),
            List::Cons(g, t) => {
                let name = self.p.def_of(*g).name;
                let (s1, ty) = self.mk_param(*g);
                s1.bind_params(*t, List::Cons(Box::new(GenericName { name, ty }), Box::new(acc)))
            },
        }
    }

    /// The type parameters `gens`, as types.
    #[verifier::opaque]
    pub open spec fn param_tys(self, gens: List<DefId>) -> (Ck, List<Ty>)
        decreases gens,
    {
        match gens {
            List::Nil => (self, List::Nil),
            List::Cons(g, t) => {
                let (s1, h) = self.mk_param(*g);
                let (s2, rest) = s1.param_tys(*t);
                (s2, List::Cons(Box::new(h), Box::new(rest)))
            },
        }
    }

    /// The environment of a definition: its own generics, in its module.
    #[verifier::opaque]
    pub open spec fn def_env(self, def: DefId, self_ty: Option<Ty>) -> (Ck, TypeEnv) {
        let d = self.p.def_of(def);
        let (s1, generics) = self.bind_params(d.generics, List::Nil);
        (s1, TypeEnv { module: d.module, generics, self_ty })
    }

    /// The environment of a function, and the type of its `self` if it is a
    /// method of an `extend` block.
    #[verifier::opaque]
    pub open spec fn fn_env(self, def: DefId) -> (Ck, (TypeEnv, Option<Ty>)) {
        let d = self.p.def_of(def);
        match d.parent {
            Some(p) => {
                let parent = p;
                match self.p.def_of(parent).item {
                    Some(ItemKind::Extend(e)) => {
                        let (s1, outer) = self.def_env(parent, None);
                        let (s2, self_ty) = s1.lower(e.target, outer);
                        let (s3, generics) = s2.bind_params(d.generics, outer.generics);
                        (
                            s3,
                            (TypeEnv { module: outer.module, generics, self_ty: Some(self_ty) }, Some(self_ty)),
                        )
                    },
                    _ => {
                        let (s4, env) = self.def_env(def, None);
                        (s4, (env, None))
                    },
                }
            },
            None => {
                let (s5, env) = self.def_env(def, None);
                (s5, (env, None))
            },
        }
    }

    /// The environment of a struct whose generics stand for `args`.
    #[verifier::opaque]
    pub open spec fn subst_env(self, def: DefId, args: List<Ty>) -> TypeEnv {
        let d = self.p.def_of(def);
        TypeEnv {
            module: d.module,
            generics: crate::lower::alias_generics(self.p, d.generics, args, 0, List::Nil),
            self_ty: None,
        }
    }

    #[verifier::opaque]
    pub open spec fn lower_fields(self, fields: List<FieldDecl>, env: TypeEnv) -> (Ck, List<FieldTy>)
        decreases fields,
    {
        match fields {
            List::Nil => (self, List::Nil),
            List::Cons(f, t) => {
                let (s1, ty) = self.lower(f.ty, env);
                let (s2, rest) = s1.lower_fields(*t, env);
                (s2, List::Cons(Box::new(FieldTy { name: f.name.name, ty }), Box::new(rest)))
            },
        }
    }

    /// The fields of a record struct whose generics stand for `args`.
    #[verifier::opaque]
    pub open spec fn record_fields(self, def: DefId, args: List<Ty>) -> (Ck, Option<List<FieldTy>>) {
        match self.p.def_of(def).item {
            Some(ItemKind::Struct(s)) => match s.kind {
                StructKind::Record(fields) => {
                    let env = self.subst_env(def, args);
                    let (s1, fs) = self.lower_fields(fields, env);
                    (s1, Some(fs))
                },
                _ => (self, None),
            },
            _ => (self, None),
        }
    }

    /// The field types of a tuple struct whose generics stand for `args`.
    #[verifier::opaque]
    pub open spec fn tuple_fields(self, def: DefId, args: List<Ty>) -> (Ck, Option<List<Ty>>) {
        match self.p.def_of(def).item {
            Some(ItemKind::Struct(s)) => match s.kind {
                StructKind::Tuple(tys) => {
                    let env = self.subst_env(def, args);
                    let (s1, ts) = self.lower_list(tys, env);
                    (s1, Some(ts))
                },
                _ => (self, None),
            },
            _ => (self, None),
        }
    }

    /// The types of the parameters other than `self`, with `m` put in.
    #[verifier::opaque]
    pub open spec fn lower_params(self, params: List<Param>, env: TypeEnv, m: List<Solved>) -> (Ck, List<Ty>)
        decreases params,
    {
        match params {
            List::Nil => (self, List::Nil),
            List::Cons(p, t) => match p.kind {
                ParamKind::SelfParam => self.lower_params(*t, env, m),
                ParamKind::Normal { ty, .. } => {
                    let (s1, raw) = self.lower(ty, env);
                    let (s2, h) = s1.subst(raw, m);
                    let (s3, rest) = s2.lower_params(*t, env, m);
                    (s3, List::Cons(Box::new(h), Box::new(rest)))
                },
            },
        }
    }

    /// The type of a result, `null` if none is declared, with `m` put in.
    #[verifier::opaque]
    pub open spec fn lower_ret(self, ret: Option<Type>, env: TypeEnv, m: List<Solved>) -> (Ck, Ty) {
        match ret {
            Some(t) => {
                let (s1, raw) = self.lower(t, env);
                s1.subst(raw, m)
            },
            None => (self, NULL_TY),
        }
    }

    /// The parameters of `gens` that `m` does not say are the error type.
    #[verifier::opaque]
    pub open spec fn block_args(self, method: DefId, m: List<Solved>) -> List<Ty> {
        match self.p.def_of(method).parent {
            Some(parent) => crate::solve::solutions(m, self.p.def_of(parent).generics, ERROR_TY),
            None => List::Nil,
        }
    }

    /// The method `name` that an `extend` block gives to `recv`.
    #[verifier::opaque]
    pub open spec fn resolve_method(self, recv: Ty, name: Symbol) -> (Ck, Option<Found>) {
        let methods = self.p.all_of(DefKind::ExtendMethod);
        self.method_among(methods, recv, name)
    }

    #[verifier::opaque]
    pub open spec fn method_among(self, methods: List<DefId>, recv: Ty, name: Symbol) -> (Ck, Option<Found>)
        decreases methods,
    {
        match methods {
            List::Nil => (self, None),
            List::Cons(d, t) => {
                let (d, t) = (*d, *t);
                if self.p.def_of(d).name != name {
                    self.method_among(t, recv, name)
                } else {
                    match self.p.def_of(d).parent {
                        Some(p) => {
                            let parent = p;
                            match self.p.def_of(parent).item {
                                Some(ItemKind::Extend(e)) => {
                                    let (s1, env) = self.def_env(parent, None);
                                    let (s2, target) = s1.lower(e.target, env);
                                    if s2.ty_matches(target, recv) {
                                        let solved = s2.unify(target, recv, List::Nil);
                                        (s2, Some(Found { method: d, solved }))
                                    } else {
                                        s2.method_among(t, recv, name)
                                    }
                                },
                                _ => self.method_among(t, recv, name),
                            }
                        },
                        None => (self, None),
                    }
                }
            },
        }
    }

    /// The `to_str(self): str` method of `ty`, with the arguments of its block.
    #[verifier::opaque]
    pub open spec fn tostr_method(self, ty: Ty) -> (Ck, Option<(DefId, List<Ty>)>) {
        if self.named_def(ty) is None {
            (self, None)
        } else {
            let (s1, found) = self.resolve_method(ty, TO_STR);
            match found {
                Some(f) => {
                    let (s2, (env, self_ty)) = s1.fn_env(f.method);
                    match s2.p.def_of(f.method).item {
                        Some(ItemKind::Function(func)) => {
                            let (s3, ret) = s2.lower_ret(func.return_type, env, f.solved);
                            (s3, if takes_only_self(func.params) && ret == STR_TY {
                                Some((f.method, s3.block_args(f.method, f.solved)))
                            } else {
                                None
                            })
                        },
                        _ => (s2, None),
                    }
                },
                None => (s1, None),
            }
        }
    }

    #[verifier::opaque]
    pub open spec fn lower_bounds(self, bounds: List<Type>, env: TypeEnv, module: ModId) -> (Ck, List<Bound>)
        decreases bounds,
    {
        match bounds {
            List::Nil => (self, List::Nil),
            List::Cons(b, t) => {
                let (b, t) = (*b, *t);
                match b.kind {
                    TypeKind::Named { name, generics } => match self.p.type_named(module, name.name) {
                        Some(iface) => if self.p.def_of(iface).kind == DefKind::Interface {
                            let (s1, iargs) = self.lower_list(generics, env);
                            let (s2, rest) = s1.lower_bounds(t, env, module);
                            (s2, List::Cons(Box::new(Bound { iface, iargs }), Box::new(rest)))
                        } else {
                            self.lower_bounds(t, env, module)
                        },
                        None => self.lower_bounds(t, env, module),
                    },
                    _ => self.lower_bounds(t, env, module),
                }
            },
        }
    }

    /// The interface bounds of a type parameter.
    #[verifier::opaque]
    pub open spec fn bound_ifaces(self, param: DefId) -> (Ck, List<Bound>) {
        let d = self.p.def_of(param);
        if d.param_bounds is Nil {
            (self, List::Nil)
        } else {
            match d.parent {
                Some(owner) => {
                    let (s1, env) = self.def_env(owner, None);
                    s1.lower_bounds(d.param_bounds, env, s1.p.def_of(owner).module)
                },
                None => {
                    let env = self.env();
                    self.lower_bounds(d.param_bounds, env, ModId(0))
                },
            }
        }
    }

    /// The first of `bounds` whose interface declares `name`.
    #[verifier::opaque]
    pub open spec fn bound_with(self, bounds: List<Bound>, name: Symbol) -> Option<BoundMethod>
        decreases bounds,
    {
        match bounds {
            List::Nil => None,
            List::Cons(b, t) => match self.p.method_named(DefKind::InterfaceMethod, b.iface, name) {
                Some(method) => Some(BoundMethod { method, iface: b.iface, iargs: b.iargs }),
                None => self.bound_with(*t, name),
            },
        }
    }

    /// The interface method `name` that the bounds of a type parameter give.
    #[verifier::opaque]
    pub open spec fn resolve_bound_method(self, param: DefId, name: Symbol) -> (Ck, Option<BoundMethod>) {
        let (s1, bounds) = self.bound_ifaces(param);
        (s1, s1.bound_with(bounds, name))
    }

    /// The signature of an interface method where the interface's generics stand
    /// for `iargs` and `Self` for `self_ty`.
    #[verifier::opaque]
    pub open spec fn iface_method_sig(self, method: DefId, iface: DefId, iargs: List<Ty>, self_ty: Ty) -> (Ck, Sig) {
        let d = self.p.def_of(method);
        let outer = self.bind_zip(self.p.def_of(iface).generics, iargs, List::Nil);
        let (s1, generics) = self.bind_params(d.generics, outer);
        let env = TypeEnv { module: d.module, generics, self_ty: Some(self_ty) };
        match d.item {
            Some(ItemKind::Function(f)) => {
                let (s2, params) = s1.lower_params(f.params, env, List::Nil);
                let (s3, ret) = s2.lower_ret(f.return_type, env, List::Nil);
                (s3, Sig { params, ret })
            },
            _ => (s1, Sig { params: List::Nil, ret: ERROR_TY }),
        }
    }

    /// `acc` with the names of `gens` bound to `args`, as far as both go.
    #[verifier::opaque]
    pub open spec fn bind_zip(self, gens: List<DefId>, args: List<Ty>, acc: List<GenericName>) -> List<GenericName>
        decreases gens,
    {
        match gens {
            List::Nil => acc,
            List::Cons(g, gt) => match args {
                List::Nil => acc,
                List::Cons(a, at) => self.bind_zip(
                    *gt,
                    *at,
                    List::Cons(Box::new(GenericName { name: self.p.def_of(*g).name, ty: *a }), Box::new(acc)),
                ),
            },
        }
    }

    /// One of `ifaces` names the interface `iface`.
    #[verifier::opaque]
    pub open spec fn names_iface(self, ifaces: List<Type>, module: ModId, iface: DefId) -> bool
        decreases ifaces,
    {
        match ifaces {
            List::Nil => false,
            List::Cons(h, t) => match h.kind {
                TypeKind::Named { name, .. } => {
                    self.p.type_named(module, name.name) == Some(iface)
                        || self.names_iface(*t, module, iface)
                },
                _ => self.names_iface(*t, module, iface),
            },
        }
    }

    /// One of the `extend` blocks `exts` that the current module sees gives the
    /// interface `iface` to `ty`.
    #[verifier::opaque]
    pub open spec fn extended_with(self, exts: List<DefId>, ty: Ty, iface: DefId) -> (Ck, bool)
        decreases exts,
    {
        match exts {
            List::Nil => (self, false),
            List::Cons(h, t) => {
                let (ext, t) = (*h, *t);
                let d = self.p.def_of(ext);
                if d.module != self.cur_module && !d.builtin {
                    self.extended_with(t, ty, iface)
                } else {
                    match d.item {
                        Some(ItemKind::Extend(e)) => {
                            let (s1, env) = self.def_env(ext, None);
                            let (s2, target) = s1.lower(e.target, env);
                            if s2.ty_matches(target, ty) && s2.names_iface(e.interfaces, d.module, iface) {
                                (s2, true)
                            } else {
                                s2.extended_with(t, ty, iface)
                            }
                        },
                        _ => self.extended_with(t, ty, iface),
                    }
                }
            },
        }
    }

    /// What a type implements without an `extend` block, if the interface is one
    /// that the language itself gives.
    #[verifier::opaque]
    pub open spec fn intrinsic_impl(self, ty: Ty, iface: DefId) -> Option<bool> {
        if self.named_def(ty) == Some(iface) {
            Some(true)
        } else {
            if iface == DefId(0) {
                None
            } else {
                if iface == self.p.well_known(T_CLONE) && self.is_immutable(ty) {
                    Some(true)
                } else {
                    if iface == self.p.well_known(T_CLONE) && self.list_elem(ty) is Some {
                        match self.list_elem(ty) {
                            Some(e) => Some(self.is_immutable(e)),
                            None => None,
                        }
                    } else {
                        if iface == self.p.well_known(T_CLONE) && self.map_kv(ty) is Some {
                            match self.map_kv(ty) {
                                Some((k, v)) => Some(self.is_immutable(k) && self.is_immutable(v)),
                                None => None,
                            }
                        } else {
                            if iface == self.p.well_known(T_EQ) && self.is_immutable(ty) {
                                Some(true)
                            } else {
                                if iface == self.p.well_known(T_ORD) && self.is_ordered(ty) {
                                    Some(true)
                                } else {
                                    if iface == self.p.well_known(T_TO_STR) && self.is_stringifiable(ty) {
                                        Some(true)
                                    } else {
                                        None
                                    }
                                }
                            }
                        }
                    }
                }
            }
        }
    }

    /// `ty` implements `iface`, by itself or through an `extend` block.
    #[verifier::opaque]
    pub open spec fn type_implements(self, ty: Ty, iface: DefId) -> (Ck, bool) {
        match self.intrinsic_impl(ty, iface) {
            Some(b) => (self, b),
            None => {
                let exts = self.p.all_of(DefKind::Extend);
                self.extended_with(exts, ty, iface)
            },
        }
    }

    #[verifier::opaque]
    pub open spec fn bounded_by(self, bounds: List<Bound>, iface: DefId) -> bool
        decreases bounds,
    {
        match bounds {
            List::Nil => false,
            List::Cons(b, t) => b.iface == iface || self.bounded_by(*t, iface),
        }
    }

    /// `ty` implements `iface`, or is a type parameter that is bounded by it.
    #[verifier::opaque]
    pub open spec fn satisfies(self, ty: Ty, iface: DefId) -> (Ck, bool) {
        match self.kind(ty) {
            TyKind::Param(p) => {
                let (s1, bounds) = self.bound_ifaces(p);
                if s1.bounded_by(bounds, iface) {
                    (s1, true)
                } else {
                    s1.type_implements(ty, iface)
                }
            },
            _ => self.type_implements(ty, iface),
        }
    }

    /// Values of `ty` can be compared for equality.
    #[verifier::opaque]
    pub open spec fn is_equatable(self, ty: Ty) -> (Ck, bool) {
        if self.is_immutable(ty) {
            (self, true)
        } else {
            self.satisfies(ty, self.p.well_known(T_EQ))
        }
    }

    /// A map key can be hashed and compared.
    #[verifier::opaque]
    pub open spec fn is_valid_map_key(self, ty: Ty) -> (Ck, bool) {
        if self.is_hashable(ty) {
            (self, true)
        } else {
            let hash = self.p.well_known(T_HASH);
            let eq = self.p.well_known(T_EQ);
            if hash == DefId(0) || eq == DefId(0) {
                (self, false)
            } else {
                let (s1, hashes) = self.type_implements(ty, hash);
                if hashes {
                    s1.type_implements(ty, eq)
                } else {
                    (s1, false)
                }
            }
        }
    }

    /// What a result `Ready<T> | Pending` holds when it is ready.
    #[verifier::opaque]
    pub open spec fn ready_of(self, members: List<Ty>) -> Option<Ty>
        decreases members,
    {
        match members {
            List::Nil => None,
            List::Cons(m, t) => match self.sole_arg(*m, self.p.well_known(T_READY)) {
                Some(a) => Some(a),
                None => self.ready_of(*t),
            },
        }
    }

    /// The argument of `def<arg>`.
    #[verifier::opaque]
    pub open spec fn sole_arg(self, ty: Ty, def: DefId) -> Option<Ty> {
        match self.kind(ty) {
            TyKind::Named { def: d, args } => match args {
                List::Cons(a, rest) => if d == def && (*rest) is Nil {
                    Some(*a)
                } else {
                    None
                },
                List::Nil => None,
            },
            _ => None,
        }
    }

    /// What awaiting a value of type `ty` yields, if it is a future: `Future<T>`
    /// itself, or a type with `poll(self, ..): Ready<T> | Pending`.
    #[verifier::opaque]
    pub open spec fn future_output(self, ty: Ty) -> (Ck, Option<Ty>) {
        if self.is_err(ty) {
            (self, None)
        } else {
            if self.sole_arg(ty, self.p.well_known(T_FUTURE)) is Some {
                (self, self.sole_arg(ty, self.p.well_known(T_FUTURE)))
            } else {
                let (s1, found) = self.resolve_method(ty, POLL);
                match found {
                    Some(f) => {
                        let (s2, (env, self_ty)) = s1.fn_env(f.method);
                        match s2.p.def_of(f.method).item {
                            Some(ItemKind::Function(func)) => if func.return_type is None {
                                (s2, None)
                            } else {
                                let (s3, ret) = s2.lower_ret(func.return_type, env, f.solved);
                                (s3, s3.ready_of(s3.variants(ret)))
                            },
                            _ => (s2, None),
                        }
                    },
                    None => (s1, None),
                }
            }
        }
    }

    /// `Future<..>` itself.
    #[verifier::opaque]
    pub open spec fn is_future_ty(self, ty: Ty) -> bool {
        self.named_def(ty) == Some(self.p.well_known(T_FUTURE))
    }

    /// The last `Item<T>` among `members`, as its argument and itself.
    #[verifier::opaque]
    pub open spec fn item_in(self, members: List<Ty>) -> Option<(Ty, Ty)>
        decreases members,
    {
        match members {
            List::Nil => None,
            List::Cons(m, t) => match self.item_in(*t) {
                Some(r) => Some(r),
                None => match self.sole_arg(*m, self.p.well_known(T_ITEM)) {
                    Some(a) => Some((a, *m)),
                    None => None,
                },
            },
        }
    }

    /// The last `Done` among `members`.
    #[verifier::opaque]
    pub open spec fn done_in(self, members: List<Ty>) -> Option<Ty>
        decreases members,
    {
        match members {
            List::Nil => None,
            List::Cons(m, t) => match self.done_in(*t) {
                Some(r) => Some(r),
                None => if self.named_def(*m) == Some(self.p.well_known(T_DONE)) {
                    Some(*m)
                } else {
                    None
                },
            },
        }
    }

    /// The `next` method that drives a `for` loop over `ity`, its block's
    /// arguments and its result type.
    #[verifier::opaque]
    pub open spec fn next_method(self, ity: Ty) -> (Ck, Option<(DefId, List<Ty>, Ty)>) {
        match self.kind(ity) {
            TyKind::Param(p) => {
                let (s1, bound) = self.resolve_bound_method(p, NEXT);
                match bound {
                    Some(b) => {
                        let (s2, sig) = s1.iface_method_sig(b.method, b.iface, b.iargs, ity);
                        (s2, Some((b.method, List::Nil, sig.ret)))
                    },
                    None => (s1, None),
                }
            },
            TyKind::Named { def, args } => if self.is_interface(ity) {
                match self.p.method_named(DefKind::InterfaceMethod, def, NEXT) {
                    Some(method) => {
                        let (s3, sig) = self.iface_method_sig(method, def, args, ity);
                        (s3, Some((method, List::Nil, sig.ret)))
                    },
                    None => (self, None),
                }
            } else {
                self.next_in_block(ity)
            },
            _ => self.next_in_block(ity),
        }
    }

    #[verifier::opaque]
    pub open spec fn next_in_block(self, ity: Ty) -> (Ck, Option<(DefId, List<Ty>, Ty)>) {
        let (s1, found) = self.resolve_method(ity, NEXT);
        match found {
            Some(f) => {
                let targs = s1.block_args(f.method, f.solved);
                let (s2, (env, self_ty)) = s1.fn_env(f.method);
                match s2.p.def_of(f.method).item {
                    Some(ItemKind::Function(func)) => if func.return_type is None {
                        (s2, None)
                    } else {
                        let (s3, ret) = s2.lower_ret(func.return_type, env, f.solved);
                        (s3, Some((f.method, targs, ret)))
                    },
                    _ => (s2, None),
                }
            },
            None => (s1, None),
        }
    }

    /// How a `for` loop runs over a type with `next(self): Item<T> | Done`.
    #[verifier::opaque]
    pub open spec fn iterator_elem(self, ity: Ty) -> (Ck, Option<ForIter>) {
        if self.is_err(ity) {
            (self, None)
        } else {
            let (s1, found) = self.next_method(ity);
            (s1, match found {
                Some((next, next_targs, ret)) => {
                    let members = s1.variants(ret);
                    match (s1.item_in(members), s1.done_in(members)) {
                        (Some((elem, item_ty)), Some(done_ty)) => Some(
                            ForIter { elem, next, next_targs, iter_ty: ity, item_ty, done_ty },
                        ),
                        _ => None,
                    }
                },
                None => None,
            })
        }
    }

    /// How a `for await` loop runs over a type with
    /// `next_async(self): Future<Item<T> | Done>`.
    #[verifier::opaque]
    pub open spec fn async_iterator_elem(self, ity: Ty) -> (Ck, Option<ForAsyncIter>) {
        if self.is_err(ity) {
            (self, None)
        } else {
            let (s1, found) = self.resolve_method(ity, NEXT_ASYNC);
            match found {
                Some(f) => {
                    let next_targs = s1.block_args(f.method, f.solved);
                    let (s2, (env, self_ty)) = s1.fn_env(f.method);
                    match s2.p.def_of(f.method).item {
                        Some(ItemKind::Function(func)) => if func.return_type is None {
                            (s2, None)
                        } else {
                            let (s3, ret) = s2.lower_ret(func.return_type, env, f.solved);
                            let (s4, out) = s3.future_output(ret);
                            (s4, match out {
                                Some(union_ty) => {
                                    let members = s4.variants(union_ty);
                                    match (s4.item_in(members), s4.done_in(members)) {
                                        (Some((elem, item_ty)), Some(done_ty)) => Some(
                                            ForAsyncIter {
                                                elem,
                                                next_async: f.method,
                                                next_targs,
                                                iter_ty: ity,
                                                item_ty,
                                                done_ty,
                                                union_ty,
                                            },
                                        ),
                                        _ => None,
                                    }
                                },
                                None => None,
                            })
                        },
                        _ => (s2, None),
                    }
                },
                None => (s1, None),
            }
        }
    }

    /// One of `ifaces` is `FromResidual<residual>`.
    #[verifier::opaque]
    pub open spec fn takes_residual(self, ifaces: List<Type>, env: TypeEnv, residual: Ty) -> (Ck, bool)
        decreases ifaces,
    {
        match ifaces {
            List::Nil => (self, false),
            List::Cons(h, t) => {
                let (h, t) = (*h, *t);
                match h.kind {
                    TypeKind::Named { name, generics } => match generics {
                        List::Cons(g, rest) => {
                            let known = Some(self.p.well_known(T_FROM_RESIDUAL));
                            if (*rest) is Nil && self.p.type_named(env.module, name.name) == known {
                                let (s1, r) = self.lower(*g, env);
                                if r == residual {
                                    (s1, true)
                                } else {
                                    s1.takes_residual(t, env, residual)
                                }
                            } else {
                                self.takes_residual(t, env, residual)
                            }
                        },
                        List::Nil => self.takes_residual(t, env, residual),
                    },
                    _ => self.takes_residual(t, env, residual),
                }
            },
        }
    }

    /// The method through which `?` turns the failure `e` into one of the
    /// variants `into`.
    #[verifier::opaque]
    pub open spec fn find_residual_conversion(self, e: Ty, into: List<Ty>) -> (Ck, Option<Conversion>) {
        let exts = self.p.all_of(DefKind::Extend);
        self.conversion_among(exts, e, into)
    }

    #[verifier::opaque]
    pub open spec fn conversion_among(self, exts: List<DefId>, e: Ty, into: List<Ty>) -> (Ck, Option<Conversion>)
        decreases exts,
    {
        match exts {
            List::Nil => (self, None),
            List::Cons(h, t) => {
                let (ext, t) = (*h, *t);
                let d = self.p.def_of(ext);
                match d.item {
                    Some(ItemKind::Extend(item)) => if !(d.generics is Nil) {
                        self.conversion_among(t, e, into)
                    } else {
                        let env = TypeEnv::bare(d.module);
                        let (s1, target) = self.lower(item.target, env);
                        if !crate::ty::has_ty(into, target) {
                            s1.conversion_among(t, e, into)
                        } else {
                            let (s2, takes) = s1.takes_residual(item.interfaces, env, e);
                            let method = s2.p.method_named(DefKind::ExtendMethod, ext, FROM_RESIDUAL);
                            match method {
                                Some(m) => if takes {
                                    (s2, Some(Conversion { from: e, method: m, to: target }))
                                } else {
                                    s2.conversion_among(t, e, into)
                                },
                                None => s2.conversion_among(t, e, into),
                            }
                        }
                    },
                    _ => self.conversion_among(t, e, into),
                }
            },
        }
    }

    /// The arguments of the first of `ifaces` that is `Try<O, R>`.
    #[verifier::opaque]
    pub open spec fn try_args(self, ifaces: List<Type>, env: TypeEnv, m: List<Solved>) -> (Ck, Option<(Ty, Ty)>)
        decreases ifaces,
    {
        match ifaces {
            List::Nil => (self, None),
            List::Cons(h, t) => {
                let (h, t) = (*h, *t);
                match h.kind {
                    TypeKind::Named { name, generics } => {
                        let known = Some(self.p.well_known(T_TRY));
                        if generics.count() == 2 && self.p.type_named(env.module, name.name) == known {
                            let (s1, raw) = self.lower_list(generics, env);
                            let (s2, args) = s1.subst_all(raw, m);
                            (s2, match (crate::list::nth(args, 0), crate::list::nth(args, 1)) {
                                (Some(o), Some(r)) => Some((o, r)),
                                _ => None,
                            })
                        } else {
                            self.try_args(t, env, m)
                        }
                    },
                    _ => self.try_args(t, env, m),
                }
            },
        }
    }

    /// The `Try<O, R>` implementation of `ty`.
    #[verifier::opaque]
    pub open spec fn find_try_impl(self, ty: Ty) -> (Ck, Option<TryBranch>) {
        if self.p.well_known(T_TRY) == DefId(0) {
            (self, None)
        } else {
            let exts = self.p.all_of(DefKind::Extend);
            self.try_among(exts, ty)
        }
    }

    #[verifier::opaque]
    pub open spec fn try_among(self, exts: List<DefId>, ty: Ty) -> (Ck, Option<TryBranch>)
        decreases exts,
    {
        match exts {
            List::Nil => (self, None),
            List::Cons(h, t) => {
                let (ext, t) = (*h, *t);
                let d = self.p.def_of(ext);
                match d.item {
                    Some(ItemKind::Extend(item)) => {
                        let (s1, env) = self.def_env(ext, None);
                        let (s2, target) = s1.lower(item.target, env);
                        let m = s2.unify(target, ty, List::Nil);
                        if !crate::solve::all_solved(m, d.generics) {
                            s2.try_among(t, ty)
                        } else {
                            let (s3, solved_target) = s2.subst(target, m);
                            if solved_target != ty {
                                s3.try_among(t, ty)
                            } else {
                                let (s4, args) = s3.try_args(item.interfaces, env, m);
                                match (args, s4.p.method_named(DefKind::ExtendMethod, ext, BRANCH)) {
                                    (Some((output, residual)), Some(method)) => {
                                        let (s5, union_ty) = s4.mk_union(List::two(output, residual));
                                        (
                                            s5,
                                            Some(
                                                TryBranch {
                                                    method,
                                                    targs: crate::solve::solutions(m, d.generics, ERROR_TY),
                                                    union_ty,
                                                    output,
                                                    residual,
                                                },
                                            ),
                                        )
                                    },
                                    _ => s4.try_among(t, ty),
                                }
                            }
                        }
                    },
                    _ => self.try_among(t, ty),
                }
            },
        }
    }

    /// The type of a function used as a value.
    #[verifier::opaque]
    pub open spec fn function_value_ty(self, def: DefId) -> (Ck, Ty) {
        let (s1, env) = self.def_env(def, None);
        match s1.p.def_of(def).item {
            Some(ItemKind::Function(f)) => {
                let (s2, params) = s1.lower_params(f.params, env, List::Nil);
                let (s3, ret) = s2.lower_ret(f.return_type, env, List::Nil);
                s3.mk(TyKind::Func { params, ret, is_c: false })
            },
            Some(ItemKind::Extern(ExternItem::Function(f))) => {
                let (s4, params) = s1.lower_params(f.params, env, List::Nil);
                let (s5, ret) = s4.lower_ret(f.return_type, env, List::Nil);
                s5.mk(TyKind::Func { params, ret, is_c: true })
            },
            _ => (s1, ERROR_TY),
        }
    }

    /// The type of a module-level value.
    #[verifier::opaque]
    pub open spec fn value_def_ty(self, def: DefId) -> (Ck, Ty) {
        match self.p.def_of(def).kind {
            DefKind::Function | DefKind::ExternFunction => self.function_value_ty(def),
            DefKind::ModuleVar => {
                let (s1, env) = self.def_env(def, None);
                match s1.p.def_of(def).item {
                    Some(ItemKind::Var(v)) => match v.ty {
                        Some(t) => s1.lower(t, env),
                        None => (s1, ERROR_TY),
                    },
                    _ => (s1, ERROR_TY),
                }
            },
            DefKind::ExternVar => {
                let (s2, env) = self.def_env(def, None);
                match s2.p.def_of(def).item {
                    Some(ItemKind::Extern(ExternItem::Var { ty, .. })) => s2.lower(ty, env),
                    _ => (s2, ERROR_TY),
                }
            },
            DefKind::Struct => self.mk_named(def, List::Nil),
            _ => (self, ERROR_TY),
        }
    }

    /// What a module-level value resolves to.
    #[verifier::opaque]
    pub open spec fn value_res(self, def: DefId) -> ValueRes {
        match self.p.def_of(def).kind {
            DefKind::Function | DefKind::ExternFunction => ValueRes::Function(def),
            DefKind::Struct => ValueRes::StructCtor(def),
            _ => ValueRes::Global(def),
        }
    }

    #[verifier::opaque]
    pub open spec fn builtin_ty(self, b: Builtin) -> (Ck, Ty) {
        match b {
            Builtin::Print | Builtin::Println => self.mk_func(List::one(STR_TY), NULL_TY),
            Builtin::Panic => self.mk_func(List::one(STR_TY), NEVER_TY),
            Builtin::PanicWith => self.mk_func(List::one(DYNAMIC_TY), NEVER_TY),
            Builtin::Exit => self.mk_func(List::one(I32_TY), NEVER_TY),
            Builtin::Abort => self.mk_func(List::Nil, NEVER_TY),
        }
    }

    /// The handle type of the module that declares the namespace `ns`.
    #[verifier::opaque]
    pub open spec fn join_handle(self, ns: Symbol) -> DefId {
        match self.p.type_named(self.p.def_of(self.p.well_known(ns)).module, T_JOIN_HANDLE) {
            Some(d) => d,
            None => DefId(0),
        }
    }

    /// Numbers, `bool`, `char`, raw pointers, C function pointers, arrays of such
    /// and nested `extern struct`s have a C layout.
    #[verifier::opaque]
    pub open spec fn is_repr_c(self, ty: Ty) -> bool
        decreases ty,
    {
        match self.kind(ty) {
            TyKind::Int(_) | TyKind::Float(_) | TyKind::Bool | TyKind::Char | TyKind::Ptr(_) => true,
            TyKind::Func { is_c, .. } => is_c,
            TyKind::Array { elem, .. } => elem < ty && self.is_repr_c(elem),
            TyKind::Named { def, .. } => self.p.def_of(def).kind == DefKind::ExternStruct,
            _ => false,
        }
    }
}

impl<'a> Cx<'a> {
    pub fn mk_param(&mut self, d: DefId) -> (r: Ty)
        ensures
            final(self).answers(r, old(self).view().mk_param(d)),
            old(self).view().grows_to(final(self).view()),
    {
        proof {
            reveal(Ck::mk_param);
        }
        self.mk(TyKind::Param(d))
    }

    pub fn mk_tuple(&mut self, es: List<Ty>) -> (r: Ty)
        ensures
            final(self).answers(r, old(self).view().mk_tuple(es)),
            old(self).view().grows_to(final(self).view()),
    {
        proof {
            reveal(Ck::mk_tuple);
        }
        self.mk(TyKind::Tuple(es))
    }

    pub fn mk_func(&mut self, params: List<Ty>, ret: Ty) -> (r: Ty)
        ensures
            final(self).answers(r, old(self).view().mk_func(params, ret)),
            old(self).view().grows_to(final(self).view()),
    {
        proof {
            reveal(Ck::mk_func);
        }
        self.mk(TyKind::Func { params, ret, is_c: false })
    }

    pub fn mk_ptr(&mut self, t: Ty) -> (r: Ty)
        ensures
            final(self).answers(r, old(self).view().mk_ptr(t)),
            old(self).view().grows_to(final(self).view()),
    {
        proof {
            reveal(Ck::mk_ptr);
        }
        self.mk(TyKind::Ptr(t))
    }

    /// `Future<out>`.
    pub fn mk_future(&mut self, out: Ty) -> (r: Ty)
        ensures
            final(self).answers(r, old(self).view().mk_future(out)),
            old(self).view().grows_to(final(self).view()),
    {
        proof {
            reveal(Ck::mk_future);
        }
        self.mk_named(self.program().known(T_FUTURE), List::single(out))
    }

    /// `t | null`.
    pub fn mk_nullable(&mut self, t: Ty) -> (r: Ty)
        ensures
            final(self).answers(r, old(self).view().mk_nullable(t)),
            old(self).view().grows_to(final(self).view()),
    {
        proof {
            reveal(Ck::mk_nullable);
        }
        self.mk_union(List::pair(t, NULL_TY))
    }

    /// `acc` with each of `gens` bound to itself as a type parameter.
    pub fn bind_params(&mut self, gens: &List<DefId>, acc: List<GenericName>) -> (r: List<GenericName>)
        ensures
            final(self).answers(r, old(self).view().bind_params(*gens, acc)),
            old(self).view().grows_to(final(self).view()),
        decreases gens,
    {
        proof {
            reveal(Ck::bind_params);
        }
        match gens {
            List::Nil => acc,
            List::Cons(g, t) => {
                let name = self.program().def(**g).name;
                let ty = self.mk_param(**g);
                self.bind_params(&**t, List::Cons(Box::new(GenericName { name, ty }), Box::new(acc)))
            },
        }
    }

    /// The type parameters `gens`, as types.
    pub fn param_tys(&mut self, gens: &List<DefId>) -> (r: List<Ty>)
        ensures
            final(self).answers(r, old(self).view().param_tys(*gens)),
            old(self).view().grows_to(final(self).view()),
        decreases gens,
    {
        proof {
            reveal(Ck::param_tys);
        }
        match gens {
            List::Nil => List::Nil,
            List::Cons(g, t) => {
                let h = self.mk_param(**g);
                let rest = self.param_tys(&**t);
                List::Cons(Box::new(h), Box::new(rest))
            },
        }
    }

    /// The environment of a definition: its own generics, in its module.
    pub fn def_env(&mut self, def: DefId, self_ty: Option<Ty>) -> (r: TypeEnv)
        ensures
            final(self).answers(r, old(self).view().def_env(def, self_ty)),
            old(self).view().grows_to(final(self).view()),
    {
        proof {
            reveal(Ck::def_env);
        }
        let d = self.program().def(def);
        let generics = self.bind_params(&d.generics, List::Nil);
        TypeEnv { module: d.module, generics, self_ty }
    }

    /// The environment of a function, and the type of its `self` if it is a
    /// method of an `extend` block.
    pub fn fn_env(&mut self, def: DefId) -> (r: (TypeEnv, Option<Ty>))
        ensures
            final(self).answers(r, old(self).view().fn_env(def)),
            old(self).view().grows_to(final(self).view()),
    {
        proof {
            reveal(Ck::fn_env);
        }
        let d = self.program().def(def);
        let parent = match d.parent {
            Some(p) => p,
            None => {
                let env = self.def_env(def, None);
                return (env, None);
            },
        };
        match &self.program().def(parent).item {
            Some(ItemKind::Extend(e)) => {
                let outer = self.def_env(parent, None);
                let self_ty = self.lower_ty(&e.target, &outer);
                let generics = self.bind_params(&d.generics, dup(&outer.generics));
                (TypeEnv { module: outer.module, generics, self_ty: Some(self_ty) }, Some(self_ty))
            },
            _ => {
                let env = self.def_env(def, None);
                (env, None)
            },
        }
    }

    /// The environment of a struct whose generics stand for `args`.
    pub fn subst_env(&self, def: DefId, args: &List<Ty>) -> (r: TypeEnv)
        ensures
            r == self.view().subst_env(def, *args),
    {
        proof {
            reveal(Ck::subst_env);
        }
        let d = self.program().def(def);
        TypeEnv {
            module: d.module,
            generics: bind_generics(self.program(), &d.generics, args, 0, List::Nil),
            self_ty: None,
        }
    }

    pub fn lower_fields(&mut self, fields: &List<FieldDecl>, env: &TypeEnv) -> (r: List<FieldTy>)
        ensures
            final(self).answers(r, old(self).view().lower_fields(*fields, *env)),
            old(self).view().grows_to(final(self).view()),
        decreases fields,
    {
        proof {
            reveal(Ck::lower_fields);
        }
        match fields {
            List::Nil => List::Nil,
            List::Cons(f, t) => {
                let ty = self.lower_ty(&f.ty, env);
                let rest = self.lower_fields(&**t, env);
                List::Cons(Box::new(FieldTy { name: f.name.name, ty }), Box::new(rest))
            },
        }
    }

    /// The fields of a record struct whose generics stand for `args`.
    pub fn record_fields(&mut self, def: DefId, args: &List<Ty>) -> (r: Option<List<FieldTy>>)
        ensures
            final(self).answers(r, old(self).view().record_fields(def, *args)),
            old(self).view().grows_to(final(self).view()),
    {
        proof {
            reveal(Ck::record_fields);
        }
        match &self.program().def(def).item {
            Some(ItemKind::Struct(s)) => match &s.kind {
                StructKind::Record(fields) => {
                    let env = self.subst_env(def, args);
                    let fs = self.lower_fields(fields, &env);
                    Some(fs)
                },
                _ => None,
            },
            _ => None,
        }
    }

    /// The field types of a tuple struct whose generics stand for `args`.
    pub fn tuple_fields(&mut self, def: DefId, args: &List<Ty>) -> (r: Option<List<Ty>>)
        ensures
            final(self).answers(r, old(self).view().tuple_fields(def, *args)),
            old(self).view().grows_to(final(self).view()),
    {
        proof {
            reveal(Ck::tuple_fields);
        }
        match &self.program().def(def).item {
            Some(ItemKind::Struct(s)) => match &s.kind {
                StructKind::Tuple(tys) => {
                    let env = self.subst_env(def, args);
                    let ts = self.lower_tys(tys, &env);
                    Some(ts)
                },
                _ => None,
            },
            _ => None,
        }
    }

    /// The types of the parameters other than `self`, with `m` put in.
    pub fn lower_params(&mut self, params: &List<Param>, env: &TypeEnv, m: &List<Solved>) -> (r: List<Ty>)
        ensures
            final(self).answers(r, old(self).view().lower_params(*params, *env, *m)),
            old(self).view().grows_to(final(self).view()),
        decreases params,
    {
        proof {
            reveal(Ck::lower_params);
        }
        match params {
            List::Nil => List::Nil,
            List::Cons(p, t) => match &p.kind {
                ParamKind::SelfParam => self.lower_params(&**t, env, m),
                ParamKind::Normal { ty, .. } => {
                    let raw = self.lower_ty(ty, env);
                    let h = self.subst_ty(raw, m);
                    let rest = self.lower_params(&**t, env, m);
                    List::Cons(Box::new(h), Box::new(rest))
                },
            },
        }
    }

    /// The type of a result, `null` if none is declared, with `m` put in.
    pub fn lower_ret(&mut self, ret: &Option<Type>, env: &TypeEnv, m: &List<Solved>) -> (r: Ty)
        ensures
            final(self).answers(r, old(self).view().lower_ret(*ret, *env, *m)),
            old(self).view().grows_to(final(self).view()),
    {
        proof {
            reveal(Ck::lower_ret);
        }
        match ret {
            Some(t) => {
                let raw = self.lower_ty(t, env);
                self.subst_ty(raw, m)
            },
            None => NULL_TY,
        }
    }

    /// The parameters of `gens` that `m` does not say are the error type.
    pub fn block_args(&self, method: DefId, m: &List<Solved>) -> (r: List<Ty>)
        ensures
            r == self.view().block_args(method, *m),
    {
        proof {
            reveal(Ck::block_args);
        }
        match self.program().def(method).parent {
            Some(parent) => all_solutions(m, &self.program().def(parent).generics, ERROR_TY),
            None => List::Nil,
        }
    }

    /// The method `name` that an `extend` block gives to `recv`.
    pub fn resolve_method(&mut self, recv: Ty, name: Symbol) -> (r: Option<Found>)
        ensures
            final(self).answers(r, old(self).view().resolve_method(recv, name)),
            old(self).view().grows_to(final(self).view()),
    {
        proof {
            reveal(Ck::resolve_method);
        }
        let methods = self.program().all_of_kind(DefKind::ExtendMethod);
        self.method_among(&methods, recv, name)
    }

    pub fn method_among(&mut self, methods: &List<DefId>, recv: Ty, name: Symbol) -> (r: Option<Found>)
        ensures
            final(self).answers(r, old(self).view().method_among(*methods, recv, name)),
            old(self).view().grows_to(final(self).view()),
        decreases methods,
    {
        proof {
            reveal(Ck::method_among);
        }
        let (d, t) = match methods {
            List::Nil => {
                return None;
            },
            List::Cons(d, t) => (**d, &**t),
        };
        if self.program().def(d).name != name {
            return self.method_among(t, recv, name);
        }
        let parent = match self.program().def(d).parent {
            Some(p) => p,
            None => {
                return None;
            },
        };
        match &self.program().def(parent).item {
            Some(ItemKind::Extend(e)) => {
                let env = self.def_env(parent, None);
                let target = self.lower_ty(&e.target, &env);
                if self.ty_matches(target, recv) {
                    let solved = self.unify(target, recv, List::Nil);
                    Some(Found { method: d, solved })
                } else {
                    self.method_among(t, recv, name)
                }
            },
            _ => self.method_among(t, recv, name),
        }
    }

    /// The `to_str(self): str` method of `ty`, with the arguments of its block.
    pub fn tostr_method(&mut self, ty: Ty) -> (r: Option<(DefId, List<Ty>)>)
        ensures
            final(self).answers(r, old(self).view().tostr_method(ty)),
            old(self).view().grows_to(final(self).view()),
    {
        proof {
            reveal(Ck::tostr_method);
        }
        if self.named_def(ty).is_none() {
            return None;
        }
        let found = self.resolve_method(ty, TO_STR);
        let f = match found {
            Some(f) => f,
            None => {
                return None;
            },
        };
        let (env, self_ty) = self.fn_env(f.method);
        match &self.program().def(f.method).item {
            Some(ItemKind::Function(func)) => {
                let ret = self.lower_ret(&func.return_type, &env, &f.solved);
                if only_self(&func.params) && ret == STR_TY {
                    Some((f.method, self.block_args(f.method, &f.solved)))
                } else {
                    None
                }
            },
            _ => None,
        }
    }

    pub fn lower_bounds(&mut self, bounds: &List<Type>, env: &TypeEnv, module: ModId) -> (r: List<Bound>)
        ensures
            final(self).answers(r, old(self).view().lower_bounds(*bounds, *env, module)),
            old(self).view().grows_to(final(self).view()),
        decreases bounds,
    {
        proof {
            reveal(Ck::lower_bounds);
        }
        let (b, t) = match bounds {
            List::Nil => {
                return List::Nil;
            },
            List::Cons(b, t) => (&**b, &**t),
        };
        match &b.kind {
            TypeKind::Named { name, generics } => match self.program().resolve_type_in(module, name.name) {
                Some(iface) => if self.program().def(iface).kind == DefKind::Interface {
                    let iargs = self.lower_tys(generics, env);
                    let rest = self.lower_bounds(t, env, module);
                    List::Cons(Box::new(Bound { iface, iargs }), Box::new(rest))
                } else {
                    self.lower_bounds(t, env, module)
                },
                None => self.lower_bounds(t, env, module),
            },
            _ => self.lower_bounds(t, env, module),
        }
    }

    /// The interface bounds of a type parameter.
    pub fn bound_ifaces(&mut self, param: DefId) -> (r: List<Bound>)
        ensures
            final(self).answers(r, old(self).view().bound_ifaces(param)),
            old(self).view().grows_to(final(self).view()),
    {
        proof {
            reveal(Ck::bound_ifaces);
        }
        let d = self.program().def(param);
        if d.param_bounds.is_empty() {
            return List::Nil;
        }
        match d.parent {
            Some(owner) => {
                let env = self.def_env(owner, None);
                self.lower_bounds(&d.param_bounds, &env, self.program().def(owner).module)
            },
            None => {
                let env = self.local_env();
                self.lower_bounds(&d.param_bounds, &env, ModId(0))
            },
        }
    }

    /// The first of `bounds` whose interface declares `name`.
    pub fn bound_with(&self, bounds: List<Bound>, name: Symbol) -> (r: Option<BoundMethod>)
        ensures
            r == self.view().bound_with(bounds, name),
        decreases bounds,
    {
        proof {
            reveal(Ck::bound_with);
        }
        match bounds {
            List::Nil => None,
            List::Cons(b, t) => match self.program().find_method(DefKind::InterfaceMethod, b.iface, name) {
                Some(method) => Some(BoundMethod { method, iface: b.iface, iargs: dup(&b.iargs) }),
                None => self.bound_with(*t, name),
            },
        }
    }

    /// The interface method `name` that the bounds of a type parameter give.
    pub fn resolve_bound_method(&mut self, param: DefId, name: Symbol) -> (r: Option<BoundMethod>)
        ensures
            final(self).answers(r, old(self).view().resolve_bound_method(param, name)),
            old(self).view().grows_to(final(self).view()),
    {
        proof {
            reveal(Ck::resolve_bound_method);
        }
        let bounds = self.bound_ifaces(param);
        self.bound_with(bounds, name)
    }

    /// The signature of an interface method where the interface's generics stand
    /// for `iargs` and `Self` for `self_ty`.
    pub fn iface_method_sig(&mut self, method: DefId, iface: DefId, iargs: &List<Ty>, self_ty: Ty) -> (r: Sig)
        ensures
            final(self).answers(r, old(self).view().iface_method_sig(method, iface, *iargs, self_ty)),
            old(self).view().grows_to(final(self).view()),
    {
        proof {
            reveal(Ck::iface_method_sig);
        }
        let d = self.program().def(method);
        let outer = self.bind_zip(&self.program().def(iface).generics, iargs, List::Nil);
        let generics = self.bind_params(&d.generics, outer);
        let env = TypeEnv { module: d.module, generics, self_ty: Some(self_ty) };
        match &d.item {
            Some(ItemKind::Function(f)) => {
                let params = self.lower_params(&f.params, &env, &List::Nil);
                let ret = self.lower_ret(&f.return_type, &env, &List::Nil);
                Sig { params, ret }
            },
            _ => Sig { params: List::Nil, ret: ERROR_TY },
        }
    }

    /// `acc` with the names of `gens` bound to `args`, as far as both go.
    pub fn bind_zip(&self, gens: &List<DefId>, args: &List<Ty>, acc: List<GenericName>) -> (r: List<GenericName>)
        ensures
            r == self.view().bind_zip(*gens, *args, acc),
        decreases gens,
    {
        proof {
            reveal(Ck::bind_zip);
        }
        match gens {
            List::Nil => acc,
            List::Cons(g, gt) => match args {
                List::Nil => acc,
                List::Cons(a, at) => self.bind_zip(
                    &**gt,
                    &**at,
                    List::Cons(Box::new(GenericName { name: self.program().def(**g).name, ty: **a }), Box::new(acc)),
                ),
            },
        }
    }

    /// One of `ifaces` names the interface `iface`.
    pub fn names_iface(&self, ifaces: &List<Type>, module: ModId, iface: DefId) -> (r: bool)
        ensures
            r == self.view().names_iface(*ifaces, module, iface),
        decreases ifaces,
    {
        proof {
            reveal(Ck::names_iface);
        }
        match ifaces {
            List::Nil => false,
            List::Cons(h, t) => match &h.kind {
                TypeKind::Named { name, .. } => self.program().resolve_type_in(module, name.name) == Some(iface)
                    || self.names_iface(&**t, module, iface),
                _ => self.names_iface(&**t, module, iface),
            },
        }
    }

    /// One of the `extend` blocks `exts` that the current module sees gives the
    /// interface `iface` to `ty`.
    pub fn extended_with(&mut self, exts: &List<DefId>, ty: Ty, iface: DefId) -> (r: bool)
        ensures
            final(self).answers(r, old(self).view().extended_with(*exts, ty, iface)),
            old(self).view().grows_to(final(self).view()),
        decreases exts,
    {
        proof {
            reveal(Ck::extended_with);
        }
        let (ext, t) = match exts {
            List::Nil => {
                return false;
            },
            List::Cons(h, t) => (**h, &**t),
        };
        let d = self.program().def(ext);
        if d.module != self.cur_module() && !d.builtin {
            return self.extended_with(t, ty, iface);
        }
        match &d.item {
            Some(ItemKind::Extend(e)) => {
                let env = self.def_env(ext, None);
                let target = self.lower_ty(&e.target, &env);
                if self.ty_matches(target, ty) && self.names_iface(&e.interfaces, d.module, iface) {
                    true
                } else {
                    self.extended_with(t, ty, iface)
                }
            },
            _ => self.extended_with(t, ty, iface),
        }
    }

    /// What a type implements without an `extend` block, if the interface is one
    /// that the language itself gives.
    pub fn intrinsic_impl(&self, ty: Ty, iface: DefId) -> (r: Option<bool>)
        ensures
            r == self.view().intrinsic_impl(ty, iface),
    {
        proof {
            reveal(Ck::intrinsic_impl);
        }
        if self.named_def(ty) == Some(iface) {
            Some(true)
        } else if iface == DefId(0) {
            None
        } else if iface == self.program().known(T_CLONE) && self.is_immutable_value(ty) {
            Some(true)
        } else if iface == self.program().known(T_CLONE) && self.list_elem(ty).is_some() {
            match self.list_elem(ty) {
                Some(e) => Some(self.is_immutable_value(e)),
                None => None,
            }
        } else if iface == self.program().known(T_CLONE) && self.map_kv(ty).is_some() {
            match self.map_kv(ty) {
                Some((k, v)) => Some(self.is_immutable_value(k) && self.is_immutable_value(v)),
                None => None,
            }
        } else if iface == self.program().known(T_EQ) && self.is_immutable_value(ty) {
            Some(true)
        } else if iface == self.program().known(T_ORD) && self.is_ordered(ty) {
            Some(true)
        } else if iface == self.program().known(T_TO_STR) && self.is_stringifiable(ty) {
            Some(true)
        } else {
            None
        }
    }

    /// `ty` implements `iface`, by itself or through an `extend` block.
    pub fn type_implements(&mut self, ty: Ty, iface: DefId) -> (r: bool)
        ensures
            final(self).answers(r, old(self).view().type_implements(ty, iface)),
            old(self).view().grows_to(final(self).view()),
    {
        proof {
            reveal(Ck::type_implements);
        }
        match self.intrinsic_impl(ty, iface) {
            Some(b) => b,
            None => {
                let exts = self.program().all_of_kind(DefKind::Extend);
                self.extended_with(&exts, ty, iface)
            },
        }
    }

    pub fn bounded_by(&self, bounds: List<Bound>, iface: DefId) -> (r: bool)
        ensures
            r == self.view().bounded_by(bounds, iface),
        decreases bounds,
    {
        proof {
            reveal(Ck::bounded_by);
        }
        match bounds {
            List::Nil => false,
            List::Cons(b, t) => b.iface == iface || self.bounded_by(*t, iface),
        }
    }

    /// `ty` implements `iface`, or is a type parameter that is bounded by it.
    pub fn satisfies(&mut self, ty: Ty, iface: DefId) -> (r: bool)
        ensures
            final(self).answers(r, old(self).view().satisfies(ty, iface)),
            old(self).view().grows_to(final(self).view()),
    {
        proof {
            reveal(Ck::satisfies);
        }
        match self.kind(ty) {
            TyKind::Param(p) => {
                let bounds = self.bound_ifaces(p);
                if self.bounded_by(bounds, iface) {
                    true
                } else {
                    self.type_implements(ty, iface)
                }
            },
            _ => self.type_implements(ty, iface),
        }
    }

    /// Values of `ty` can be compared for equality.
    pub fn is_equatable(&mut self, ty: Ty) -> (r: bool)
        ensures
            final(self).answers(r, old(self).view().is_equatable(ty)),
            old(self).view().grows_to(final(self).view()),
    {
        proof {
            reveal(Ck::is_equatable);
        }
        if self.is_immutable_value(ty) {
            return true;
        }
        self.satisfies(ty, self.program().known(T_EQ))
    }

    /// A map key can be hashed and compared.
    pub fn is_valid_map_key(&mut self, ty: Ty) -> (r: bool)
        ensures
            final(self).answers(r, old(self).view().is_valid_map_key(ty)),
            old(self).view().grows_to(final(self).view()),
    {
        proof {
            reveal(Ck::is_valid_map_key);
        }
        if self.is_hashable(ty) {
            return true;
        }
        let hash = self.program().known(T_HASH);
        let eq = self.program().known(T_EQ);
        if hash == DefId(0) || eq == DefId(0) {
            return false;
        }
        let hashes = self.type_implements(ty, hash);
        if hashes {
            self.type_implements(ty, eq)
        } else {
            false
        }
    }

    /// What a result `Ready<T> | Pending` holds when it is ready.
    pub fn ready_of(&self, members: List<Ty>) -> (r: Option<Ty>)
        ensures
            r == self.view().ready_of(members),
        decreases members,
    {
        proof {
            reveal(Ck::ready_of);
        }
        match members {
            List::Nil => None,
            List::Cons(m, t) => match self.sole_arg(*m, self.program().known(T_READY)) {
                Some(a) => Some(a),
                None => self.ready_of(*t),
            },
        }
    }

    /// The argument of `def<arg>`.
    pub fn sole_arg(&self, ty: Ty, def: DefId) -> (r: Option<Ty>)
        ensures
            r == self.view().sole_arg(ty, def),
    {
        proof {
            reveal(Ck::sole_arg);
        }
        match self.kind(ty) {
            TyKind::Named { def: d, args } => match args {
                List::Cons(a, rest) => if d == def && (*rest).is_empty() {
                    Some(*a)
                } else {
                    None
                },
                List::Nil => None,
            },
            _ => None,
        }
    }

    /// What awaiting a value of type `ty` yields, if it is a future: `Future<T>`
    /// itself, or a type with `poll(self, ..): Ready<T> | Pending`.
    pub fn future_output(&mut self, ty: Ty) -> (r: Option<Ty>)
        ensures
            final(self).answers(r, old(self).view().future_output(ty)),
            old(self).view().grows_to(final(self).view()),
    {
        proof {
            reveal(Ck::future_output);
        }
        if self.is_err(ty) {
            return None;
        }
        if self.sole_arg(ty, self.program().known(T_FUTURE)).is_some() {
            return self.sole_arg(ty, self.program().known(T_FUTURE));
        }
        let found = self.resolve_method(ty, POLL);
        let f = match found {
            Some(f) => f,
            None => {
                return None;
            },
        };
        let (env, self_ty) = self.fn_env(f.method);
        match &self.program().def(f.method).item {
            Some(ItemKind::Function(func)) => {
                if func.return_type.is_none() {
                    return None;
                }
                let ret = self.lower_ret(&func.return_type, &env, &f.solved);
                self.ready_of(self.variants(ret))
            },
            _ => None,
        }
    }

    /// `Future<..>` itself.
    pub fn is_future_ty(&self, ty: Ty) -> (r: bool)
        ensures
            r == self.view().is_future_ty(ty),
    {
        proof {
            reveal(Ck::is_future_ty);
        }
        self.named_def(ty) == Some(self.program().known(T_FUTURE))
    }

    /// The last `Item<T>` among `members`, as its argument and itself.
    pub fn item_in(&self, members: &List<Ty>) -> (r: Option<(Ty, Ty)>)
        ensures
            r == self.view().item_in(*members),
        decreases members,
    {
        proof {
            reveal(Ck::item_in);
        }
        match members {
            List::Nil => None,
            List::Cons(m, t) => match self.item_in(&**t) {
                Some(r) => Some(r),
                None => match self.sole_arg(**m, self.program().known(T_ITEM)) {
                    Some(a) => Some((a, **m)),
                    None => None,
                },
            },
        }
    }

    /// The last `Done` among `members`.
    pub fn done_in(&self, members: &List<Ty>) -> (r: Option<Ty>)
        ensures
            r == self.view().done_in(*members),
        decreases members,
    {
        proof {
            reveal(Ck::done_in);
        }
        match members {
            List::Nil => None,
            List::Cons(m, t) => match self.done_in(&**t) {
                Some(r) => Some(r),
                None => if self.named_def(**m) == Some(self.program().known(T_DONE)) {
                    Some(**m)
                } else {
                    None
                },
            },
        }
    }

    /// The `next` method that drives a `for` loop over `ity`, its block's
    /// arguments and its result type.
    pub fn next_method(&mut self, ity: Ty) -> (r: Option<(DefId, List<Ty>, Ty)>)
        ensures
            final(self).answers(r, old(self).view().next_method(ity)),
            old(self).view().grows_to(final(self).view()),
    {
        proof {
            reveal(Ck::next_method);
        }
        match self.kind(ity) {
            TyKind::Param(p) => {
                let bound = self.resolve_bound_method(p, NEXT);
                match bound {
                    Some(b) => {
                        let sig = self.iface_method_sig(b.method, b.iface, &b.iargs, ity);
                        Some((b.method, List::Nil, sig.ret))
                    },
                    None => None,
                }
            },
            TyKind::Named { def, args } => {
                if self.is_interface(ity) {
                    match self.program().find_method(DefKind::InterfaceMethod, def, NEXT) {
                        Some(method) => {
                            let sig = self.iface_method_sig(method, def, &args, ity);
                            Some((method, List::Nil, sig.ret))
                        },
                        None => None,
                    }
                } else {
                    self.next_in_block(ity)
                }
            },
            _ => self.next_in_block(ity),
        }
    }

    pub fn next_in_block(&mut self, ity: Ty) -> (r: Option<(DefId, List<Ty>, Ty)>)
        ensures
            final(self).answers(r, old(self).view().next_in_block(ity)),
            old(self).view().grows_to(final(self).view()),
    {
        proof {
            reveal(Ck::next_in_block);
        }
        let found = self.resolve_method(ity, NEXT);
        let f = match found {
            Some(f) => f,
            None => {
                return None;
            },
        };
        let targs = self.block_args(f.method, &f.solved);
        let (env, self_ty) = self.fn_env(f.method);
        match &self.program().def(f.method).item {
            Some(ItemKind::Function(func)) => {
                if func.return_type.is_none() {
                    return None;
                }
                let ret = self.lower_ret(&func.return_type, &env, &f.solved);
                Some((f.method, targs, ret))
            },
            _ => None,
        }
    }

    /// How a `for` loop runs over a type with `next(self): Item<T> | Done`.
    pub fn iterator_elem(&mut self, ity: Ty) -> (r: Option<ForIter>)
        ensures
            final(self).answers(r, old(self).view().iterator_elem(ity)),
            old(self).view().grows_to(final(self).view()),
    {
        proof {
            reveal(Ck::iterator_elem);
        }
        if self.is_err(ity) {
            return None;
        }
        let found = self.next_method(ity);
        match found {
            Some((next, next_targs, ret)) => {
                let members = self.variants(ret);
                match (self.item_in(&members), self.done_in(&members)) {
                    (Some((elem, item_ty)), Some(done_ty)) => Some(
                        ForIter { elem, next, next_targs, iter_ty: ity, item_ty, done_ty },
                    ),
                    _ => None,
                }
            },
            None => None,
        }
    }

    /// How a `for await` loop runs over a type with
    /// `next_async(self): Future<Item<T> | Done>`.
    pub fn async_iterator_elem(&mut self, ity: Ty) -> (r: Option<ForAsyncIter>)
        ensures
            final(self).answers(r, old(self).view().async_iterator_elem(ity)),
            old(self).view().grows_to(final(self).view()),
    {
        proof {
            reveal(Ck::async_iterator_elem);
        }
        if self.is_err(ity) {
            return None;
        }
        let found = self.resolve_method(ity, NEXT_ASYNC);
        let f = match found {
            Some(f) => f,
            None => {
                return None;
            },
        };
        let next_targs = self.block_args(f.method, &f.solved);
        let (env, self_ty) = self.fn_env(f.method);
        let func = match &self.program().def(f.method).item {
            Some(ItemKind::Function(func)) => func,
            _ => {
                return None;
            },
        };
        if func.return_type.is_none() {
            return None;
        }
        let ret = self.lower_ret(&func.return_type, &env, &f.solved);
        let out = self.future_output(ret);
        match out {
            Some(union_ty) => {
                let members = self.variants(union_ty);
                match (self.item_in(&members), self.done_in(&members)) {
                    (Some((elem, item_ty)), Some(done_ty)) => Some(
                        ForAsyncIter {
                            elem,
                            next_async: f.method,
                            next_targs,
                            iter_ty: ity,
                            item_ty,
                            done_ty,
                            union_ty,
                        },
                    ),
                    _ => None,
                }
            },
            None => None,
        }
    }

    /// One of `ifaces` is `FromResidual<residual>`.
    pub fn takes_residual(&mut self, ifaces: &List<Type>, env: &TypeEnv, residual: Ty) -> (r: bool)
        ensures
            final(self).answers(r, old(self).view().takes_residual(*ifaces, *env, residual)),
            old(self).view().grows_to(final(self).view()),
        decreases ifaces,
    {
        proof {
            reveal(Ck::takes_residual);
        }
        let (h, t) = match ifaces {
            List::Nil => {
                return false;
            },
            List::Cons(h, t) => (&**h, &**t),
        };
        match &h.kind {
            TypeKind::Named { name, generics } => match generics {
                List::Cons(g, rest) => {
                    let known = Some(self.program().known(T_FROM_RESIDUAL));
                    if (**rest).is_empty() && self.program().resolve_type_in(env.module, name.name) == known {
                        let r = self.lower_ty(&**g, env);
                        if r == residual {
                            true
                        } else {
                            self.takes_residual(t, env, residual)
                        }
                    } else {
                        self.takes_residual(t, env, residual)
                    }
                },
                List::Nil => self.takes_residual(t, env, residual),
            },
            _ => self.takes_residual(t, env, residual),
        }
    }

    /// The method through which `?` turns the failure `e` into one of the
    /// variants `into`.
    pub fn find_residual_conversion(&mut self, e: Ty, into: &List<Ty>) -> (r: Option<Conversion>)
        ensures
            final(self).answers(r, old(self).view().find_residual_conversion(e, *into)),
            old(self).view().grows_to(final(self).view()),
    {
        proof {
            reveal(Ck::find_residual_conversion);
        }
        let exts = self.program().all_of_kind(DefKind::Extend);
        self.conversion_among(&exts, e, into)
    }

    pub fn conversion_among(&mut self, exts: &List<DefId>, e: Ty, into: &List<Ty>) -> (r: Option<Conversion>)
        ensures
            final(self).answers(r, old(self).view().conversion_among(*exts, e, *into)),
            old(self).view().grows_to(final(self).view()),
        decreases exts,
    {
        proof {
            reveal(Ck::conversion_among);
        }
        let (ext, t) = match exts {
            List::Nil => {
                return None;
            },
            List::Cons(h, t) => (**h, &**t),
        };
        let d = self.program().def(ext);
        let item = match &d.item {
            Some(ItemKind::Extend(item)) => item,
            _ => {
                return self.conversion_among(t, e, into);
            },
        };
        if !d.generics.is_empty() {
            return self.conversion_among(t, e, into);
        }
        let env = TypeEnv::new(d.module);
        let target = self.lower_ty(&item.target, &env);
        if !contains_ty(into, target) {
            return self.conversion_among(t, e, into);
        }
        let takes = self.takes_residual(&item.interfaces, &env, e);
        let method = self.program().find_method(DefKind::ExtendMethod, ext, FROM_RESIDUAL);
        match method {
            Some(m) => if takes {
                Some(Conversion { from: e, method: m, to: target })
            } else {
                self.conversion_among(t, e, into)
            },
            None => self.conversion_among(t, e, into),
        }
    }

    /// The arguments of the first of `ifaces` that is `Try<O, R>`.
    pub fn try_args(&mut self, ifaces: &List<Type>, env: &TypeEnv, m: &List<Solved>) -> (r: Option<(Ty, Ty)>)
        ensures
            final(self).answers(r, old(self).view().try_args(*ifaces, *env, *m)),
            old(self).view().grows_to(final(self).view()),
        decreases ifaces,
    {
        proof {
            reveal(Ck::try_args);
        }
        let (h, t) = match ifaces {
            List::Nil => {
                return None;
            },
            List::Cons(h, t) => (&**h, &**t),
        };
        match &h.kind {
            TypeKind::Named { name, generics } => {
                let known = Some(self.program().known(T_TRY));
                if generics.len() == 2 && self.program().resolve_type_in(env.module, name.name) == known {
                    let raw = self.lower_tys(generics, env);
                    let args = self.subst_tys(&raw, m);
                    match (get(&args, 0), get(&args, 1)) {
                        (Some(o), Some(r)) => Some((o, r)),
                        _ => None,
                    }
                } else {
                    self.try_args(t, env, m)
                }
            },
            _ => self.try_args(t, env, m),
        }
    }

    /// The `Try<O, R>` implementation of `ty`.
    pub fn find_try_impl(&mut self, ty: Ty) -> (r: Option<TryBranch>)
        ensures
            final(self).answers(r, old(self).view().find_try_impl(ty)),
            old(self).view().grows_to(final(self).view()),
    {
        proof {
            reveal(Ck::find_try_impl);
        }
        if self.program().known(T_TRY) == DefId(0) {
            return None;
        }
        let exts = self.program().all_of_kind(DefKind::Extend);
        self.try_among(&exts, ty)
    }

    pub fn try_among(&mut self, exts: &List<DefId>, ty: Ty) -> (r: Option<TryBranch>)
        ensures
            final(self).answers(r, old(self).view().try_among(*exts, ty)),
            old(self).view().grows_to(final(self).view()),
        decreases exts,
    {
        proof {
            reveal(Ck::try_among);
        }
        let (ext, t) = match exts {
            List::Nil => {
                return None;
            },
            List::Cons(h, t) => (**h, &**t),
        };
        let d = self.program().def(ext);
        let item = match &d.item {
            Some(ItemKind::Extend(item)) => item,
            _ => {
                return self.try_among(t, ty);
            },
        };
        let env = self.def_env(ext, None);
        let target = self.lower_ty(&item.target, &env);
        let m = self.unify(target, ty, List::Nil);
        if !is_all_solved(&m, &d.generics) {
            return self.try_among(t, ty);
        }
        let solved_target = self.subst_ty(target, &m);
        if solved_target != ty {
            return self.try_among(t, ty);
        }
        let args = self.try_args(&item.interfaces, &env, &m);
        match (args, self.program().find_method(DefKind::ExtendMethod, ext, BRANCH)) {
            (Some((output, residual)), Some(method)) => {
                let union_ty = self.mk_union(List::pair(output, residual));
                Some(TryBranch { method, targs: all_solutions(&m, &d.generics, ERROR_TY), union_ty, output, residual })
            },
            _ => self.try_among(t, ty),
        }
    }

    /// The type of a function used as a value.
    pub fn function_value_ty(&mut self, def: DefId) -> (r: Ty)
        ensures
            final(self).answers(r, old(self).view().function_value_ty(def)),
            old(self).view().grows_to(final(self).view()),
    {
        proof {
            reveal(Ck::function_value_ty);
        }
        let env = self.def_env(def, None);
        match &self.program().def(def).item {
            Some(ItemKind::Function(f)) => {
                let params = self.lower_params(&f.params, &env, &List::Nil);
                let ret = self.lower_ret(&f.return_type, &env, &List::Nil);
                self.mk(TyKind::Func { params, ret, is_c: false })
            },
            Some(ItemKind::Extern(ExternItem::Function(f))) => {
                let params = self.lower_params(&f.params, &env, &List::Nil);
                let ret = self.lower_ret(&f.return_type, &env, &List::Nil);
                self.mk(TyKind::Func { params, ret, is_c: true })
            },
            _ => ERROR_TY,
        }
    }

    /// The type of a module-level value.
    pub fn value_def_ty(&mut self, def: DefId) -> (r: Ty)
        ensures
            final(self).answers(r, old(self).view().value_def_ty(def)),
            old(self).view().grows_to(final(self).view()),
    {
        proof {
            reveal(Ck::value_def_ty);
        }
        match self.program().def(def).kind {
            DefKind::Function | DefKind::ExternFunction => self.function_value_ty(def),
            DefKind::ModuleVar => {
                let env = self.def_env(def, None);
                match &self.program().def(def).item {
                    Some(ItemKind::Var(v)) => match &v.ty {
                        Some(t) => self.lower_ty(t, &env),
                        None => ERROR_TY,
                    },
                    _ => ERROR_TY,
                }
            },
            DefKind::ExternVar => {
                let env = self.def_env(def, None);
                match &self.program().def(def).item {
                    Some(ItemKind::Extern(ExternItem::Var { ty, .. })) => self.lower_ty(ty, &env),
                    _ => ERROR_TY,
                }
            },
            DefKind::Struct => self.mk_named(def, List::Nil),
            _ => ERROR_TY,
        }
    }

    /// What a module-level value resolves to.
    pub fn value_res(&self, def: DefId) -> (r: ValueRes)
        ensures
            r == self.view().value_res(def),
    {
        proof {
            reveal(Ck::value_res);
        }
        match self.program().def(def).kind {
            DefKind::Function | DefKind::ExternFunction => ValueRes::Function(def),
            DefKind::Struct => ValueRes::StructCtor(def),
            _ => ValueRes::Global(def),
        }
    }

    pub fn builtin_ty(&mut self, b: Builtin) -> (r: Ty)
        ensures
            final(self).answers(r, old(self).view().builtin_ty(b)),
            old(self).view().grows_to(final(self).view()),
    {
        proof {
            reveal(Ck::builtin_ty);
        }
        match b {
            Builtin::Print | Builtin::Println => self.mk_func(List::single(STR_TY), NULL_TY),
            Builtin::Panic => self.mk_func(List::single(STR_TY), NEVER_TY),
            Builtin::PanicWith => self.mk_func(List::single(DYNAMIC_TY), NEVER_TY),
            Builtin::Exit => self.mk_func(List::single(I32_TY), NEVER_TY),
            Builtin::Abort => self.mk_func(List::Nil, NEVER_TY),
        }
    }

    /// The handle type of the module that declares the namespace `ns`.
    pub fn join_handle(&self, ns: Symbol) -> (r: DefId)
        ensures
            r == self.view().join_handle(ns),
    {
        proof {
            reveal(Ck::join_handle);
        }
        match self.program().resolve_type_in(self.program().def(self.program().known(ns)).module, T_JOIN_HANDLE) {
            Some(d) => d,
            None => DefId(0),
        }
    }

    /// Numbers, `bool`, `char`, raw pointers, C function pointers, arrays of such
    /// and nested `extern struct`s have a C layout.
    pub fn is_repr_c(&self, ty: Ty) -> (r: bool)
        ensures
            r == self.view().is_repr_c(ty),
        decreases ty,
    {
        proof {
            reveal(Ck::is_repr_c);
        }
        match self.kind(ty) {
            TyKind::Int(_) | TyKind::Float(_) | TyKind::Bool | TyKind::Char | TyKind::Ptr(_) => true,
            TyKind::Func { is_c, .. } => is_c,
            TyKind::Array { elem, .. } => elem < ty && self.is_repr_c(elem),
            TyKind::Named { def, .. } => self.program().def(def).kind == DefKind::ExternStruct,
            _ => false,
        }
    }
}

/// Every parameter is `self`.
pub open spec fn takes_only_self(params: List<Param>) -> bool
    decreases params,
{
    match params {
        List::Nil => true,
        List::Cons(p, t) => match p.kind {
            ParamKind::SelfParam => takes_only_self(*t),
            ParamKind::Normal { .. } => false,
        },
    }
}

/// Every parameter is `self`.
pub fn only_self(params: &List<Param>) -> (r: bool)
    ensures
        r == takes_only_self(*params),
    decreases params,
{
    match params {
        List::Nil => true,
        List::Cons(p, t) => match &p.kind {
            ParamKind::SelfParam => only_self(&**t),
            ParamKind::Normal { .. } => false,
        },
    }
}

} // verus!
