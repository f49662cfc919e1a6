//! Whole programs: layouts, implementations and C declarations come first, then
//! every function, method and test body in the order of the definitions.
use vstd::prelude::*;
use crate::ast::{Attribute, Block, ExternItem, FunctionItem, ItemKind, Param, ParamKind, StructKind, Type, TypeKind};
use crate::check::{contains_attr, take_list, Ck, Cx, FnBody};
use crate::hir::{dup_fields, ExternSig, FieldTy, FnSig, IfaceImpl, LocalTy, StructFields, StructLayout};
use crate::ids::{DefId, ModId};
use crate::list::{dup, List};
use crate::lower::TypeEnv;
use crate::names::Symbol;
use crate::span::Span;
use crate::symbols::DefKind;
use crate::text::decimal_text;
use crate::ty::{Ty, TyKind, ERROR_TY, NULL_TY};
use crate::words::{SELF, T_ALIGN, T_PACKED, T_TRANSPARENT, T_UNION, T_VARIADIC};

verus! {

broadcast use {crate::check::law_grows_reflexive, crate::check::law_grows_transitive};

/// A copy of the shape recorded for a struct.
pub open spec fn layout_in(l: List<StructLayout>, def: DefId) -> Option<StructFields>
    decreases l,
{
    match l {
        List::Nil => None,
        List::Cons(h, t) => if h.def == def {
            Some(h.fields)
        } else {
            layout_in(*t, def)
        },
    }
}

/// A copy of the shape recorded for a struct.
pub fn find_layout(l: &List<StructLayout>, def: DefId) -> (r: Option<StructFields>)
    ensures
        r == layout_in(*l, def),
    decreases l,
{
    match l {
        List::Nil => None,
        List::Cons(h, t) => if h.def == def {
            Some(dup_fields(&h.fields))
        } else {
            find_layout(&**t, def)
        },
    }
}

/// `l` with the block through which `target` implements `iface`; a later block
/// takes the place of an earlier one.
pub open spec fn impls_with(l: List<IfaceImpl>, i: IfaceImpl) -> List<IfaceImpl>
    decreases l,
{
    match l {
        List::Nil => List::one(i),
        List::Cons(h, t) => if h.target == i.target && h.iface == i.iface {
            List::Cons(Box::new(i), Box::new(*t))
        } else {
            List::Cons(Box::new(*h), Box::new(impls_with(*t, i)))
        },
    }
}

/// `l` with the block through which `target` implements `iface`; a later block
/// takes the place of an earlier one.
pub fn put_impl(l: &List<IfaceImpl>, i: IfaceImpl) -> (r: List<IfaceImpl>)
    ensures
        r == impls_with(*l, i),
    decreases l,
{
    match l {
        List::Nil => List::single(i),
        List::Cons(h, t) => if h.target == i.target && h.iface == i.iface {
            List::Cons(Box::new(i), Box::new(dup(&**t)))
        } else {
            List::Cons(Box::new(**h), Box::new(put_impl(&**t, i)))
        },
    }
}

/// Where a function says what it returns; the function itself if it does not.
pub open spec fn return_span(f: FunctionItem, whole: Span) -> Span {
    match f.return_type {
        Some(t) => t.span,
        None => whole,
    }
}

/// Where a function says what it returns; the function itself if it does not.
pub fn span_of_return(f: &FunctionItem, whole: Span) -> (r: Span)
    ensures
        r == return_span(*f, whole),
{
    match &f.return_type {
        Some(t) => t.span,
        None => whole,
    }
}

impl Ck {
    /// The lowered shape of a struct.
    #[verifier::opaque]
    pub open spec fn struct_shape(self, kind: StructKind, env: TypeEnv) -> (Ck, StructFields) {
        match kind {
            StructKind::Unit => (self, StructFields::Unit),
            StructKind::Tuple(ts) => {
                let (s1, tys) = self.lower_list(ts, env);
                (s1, StructFields::Tuple(tys))
            },
            StructKind::Record(fs) => {
                let (s2, fields) = self.lower_fields(fs, env);
                (s2, StructFields::Record(fields))
            },
        }
    }

    /// Records the shape of `def` if it is a struct.
    #[verifier::opaque]
    pub open spec fn collect_layout(self, def: DefId) -> Ck {
        match self.p.def_of(def).item {
            Some(ItemKind::Struct(s)) => {
                let (s1, env) = self.def_env(def, None);
                let (s2, fields) = s1.struct_shape(s.kind, env);
                let (s3, rest) = (Ck { structs: List::Nil, ..s2 }, s2.structs);
                let s4 = Ck {
                    structs: List::Cons(Box::new(StructLayout { def, fields }), Box::new(rest)),
                    ..s3
                };
                s4
            },
            _ => self,
        }
    }

    /// Records the shape of every struct among `l`.
    #[verifier::opaque]
    pub open spec fn collect_struct_layouts(self, l: List<DefId>) -> Ck
        decreases l,
    {
        match l {
            List::Nil => self,
            List::Cons(h, t) => {
                let s1 = if self.p.def_of(*h).kind == DefKind::Struct
                    || self.p.def_of(*h).kind == DefKind::ExternStruct {
                    let s2 = self.collect_layout(*h);
                    s2
                } else {
                    self
                };
                let s3 = s1.collect_struct_layouts(*t);
                s3
            },
        }
    }

    /// Records that `block` implements each of `ifaces` for `target`.
    #[verifier::opaque]
    pub open spec fn collect_ifaces(self, ifaces: List<Type>, target: DefId, block: DefId) -> Ck
        decreases ifaces,
    {
        match ifaces {
            List::Nil => self,
            List::Cons(h, t) => {
                let s1 = match self.iface_named(*h, self.p.def_of(block).module) {
                    Some(iface) => {
                        let (s2, known) = (Ck { iface_impls: List::Nil, ..self }, self.iface_impls);
                        let s3 = Ck {
                            iface_impls: impls_with(known, IfaceImpl { target, iface, block }),
                            ..s2
                        };
                        s3
                    },
                    None => self,
                };
                let s4 = s1.collect_ifaces(*t, target, block);
                s4
            },
        }
    }

    /// The interface that a type names.
    #[verifier::opaque]
    pub open spec fn iface_named(self, t: Type, module: ModId) -> Option<DefId> {
        match t.kind {
            TypeKind::Named { name, .. } => match self.p.type_named(module, name.name) {
                Some(d) => if self.p.def_of(d).kind == DefKind::Interface {
                    Some(d)
                } else {
                    None
                },
                None => None,
            },
            _ => None,
        }
    }

    /// Records what an `extend` block implements.
    #[verifier::opaque]
    pub open spec fn collect_block(self, block: DefId) -> Ck {
        match self.p.def_of(block).item {
            Some(ItemKind::Extend(e)) => {
                let (s1, env) = self.def_env(block, None);
                let (s2, target) = s1.lower(e.target, env);
                match s2.kind(target) {
                    TyKind::Named { def, .. } => s2.collect_ifaces(e.interfaces, def, block),
                    _ => s2,
                }
            },
            _ => self,
        }
    }

    /// Records what each `extend` block implements.
    #[verifier::opaque]
    pub open spec fn collect_impls(self, l: List<DefId>) -> Ck
        decreases l,
    {
        match l {
            List::Nil => self,
            List::Cons(h, t) => {
                let s1 = self.collect_block(*h);
                let s2 = s1.collect_impls(*t);
                s2
            },
        }
    }

    /// A `@Transparent` struct has exactly one field, which has no name.
    #[verifier::opaque]
    pub open spec fn validate_transparent(self, def: DefId) -> Ck {
        let d = self.p.def_of(def);
        if crate::check::has_attr(d.attrs, T_TRANSPARENT) {
            let name = self.name(d.name);
            match layout_in(self.structs, def) {
                Some(StructFields::Tuple(ts)) => {
                    let n = ts.count();
                    if n != 1 {
                        let s1 = self.say(
                            "`@Transparent` requires exactly one field, but `"@
                                + name
                                + "` has "@
                                + crate::text::decimal(n as nat)
                                + " (`docs/19` §3)"@,
                            d.span,
                        );
                        s1
                    } else {
                        self
                    }
                },
                _ => self.say(
                    "`@Transparent` requires a single-field tuple struct, e.g. `@Transparent struct "@
                        + name
                        + "(i32)` (`docs/19` §3)"@,
                    d.span,
                ),
            }
        } else {
            self
        }
    }

    /// Reports the decorators that only an `extern struct` can have.
    #[verifier::opaque]
    pub open spec fn reject_layout_attrs(self, l: List<Attribute>) -> Ck
        decreases l,
    {
        match l {
            List::Nil => self,
            List::Cons(h, t) => {
                let name = h.name.name;
                let s1 = if name == T_PACKED || name == T_ALIGN || name == T_UNION {
                    let n = self.name(name);
                    let s2 = self.say("`@"@ + n + "` is only valid on an `extern struct` (`docs/19` §3)"@, h.span);
                    s2
                } else {
                    self
                };
                let s3 = s1.reject_layout_attrs(*t);
                s3
            },
        }
    }

    /// A field of an `extern struct` has a C type.
    #[verifier::opaque]
    pub open spec fn validate_c_field(self, field: Seq<char>, ty: Ty, def: DefId) -> Ck {
        if !self.is_repr_c(ty) {
            let d = self.p.def_of(def);
            let name = self.name(d.name);
            let shown = self.show(ty);
            let s1 = self.say(
                "field `"@
                    + field
                    + "` of `extern struct "@
                    + name
                    + "` has type `"@
                    + shown
                    + "`, which is not C-ABI-compatible; extern struct fields must be numeric, `bool`, `char`, or a raw pointer `*T` (`docs/19` §3)"@,
                d.span,
            );
            s1
        } else {
            self
        }
    }

    #[verifier::opaque]
    pub open spec fn validate_c_fields(self, l: List<FieldTy>, def: DefId) -> Ck
        decreases l,
    {
        match l {
            List::Nil => self,
            List::Cons(h, t) => {
                let name = self.name(h.name);
                let s1 = self.validate_c_field(name, h.ty, def);
                let s2 = s1.validate_c_fields(*t, def);
                s2
            },
        }
    }

    /// The fields of a tuple struct are named by position, the first of `l` by `i`.
    #[verifier::opaque]
    pub open spec fn validate_c_tuple(self, l: List<Ty>, i: usize, def: DefId) -> Ck
        decreases l,
    {
        match l {
            List::Nil => self,
            List::Cons(h, t) => {
                let s1 = self.validate_c_field(crate::text::decimal(i as nat), *h, def);
                let s2 = s1.validate_c_tuple(*t, i.wrapping_add(1), def);
                s2
            },
        }
    }

    /// The rules on decorators and C fields for one struct.
    #[verifier::opaque]
    pub open spec fn validate_struct(self, def: DefId, fields: Option<StructFields>) -> Ck {
        let s1 = self.validate_transparent(def);
        let d = s1.p.def_of(def);
        if d.kind != DefKind::ExternStruct {
            let s2 = s1.reject_layout_attrs(d.attrs);
            s2
        } else {
            match fields {
                Some(StructFields::Record(fs)) => s1.validate_c_fields(fs, def),
                Some(StructFields::Tuple(ts)) => s1.validate_c_tuple(ts, 0, def),
                _ => s1,
            }
        }
    }

    #[verifier::opaque]
    pub open spec fn validate_extern_structs(self, l: List<DefId>) -> Ck
        decreases l,
    {
        match l {
            List::Nil => self,
            List::Cons(h, t) => {
                let s1 = if self.p.def_of(*h).kind == DefKind::Struct
                    || self.p.def_of(*h).kind == DefKind::ExternStruct {
                    let fields = layout_in(self.structs, *h);
                    let s2 = self.validate_struct(*h, fields);
                    s2
                } else {
                    self
                };
                let s3 = s1.validate_extern_structs(*t);
                s3
            },
        }
    }

    /// The rules on `@Variadic` for one definition.
    #[verifier::opaque]
    pub open spec fn validate_variadic(self, def: DefId) -> Ck {
        let d = self.p.def_of(def);
        if crate::check::has_attr(d.attrs, T_VARIADIC) {
            match d.item {
                Some(ItemKind::Extern(ExternItem::Function(f))) => {
                    let s1 = if variadic_with_args(d.attrs) {
                        let s2 = self.say("`@Variadic` takes no arguments"@, d.span);
                        s2
                    } else {
                        self
                    };
                    let s3 = if f.body is Some {
                        let s4 = s1.say(
                            "`@Variadic` is for an `extern function` declaration, not a definition with a body"@,
                            d.span,
                        );
                        s4
                    } else {
                        s1
                    };
                    if f.params is Nil {
                        let s5 = s3.say("a `@Variadic` function needs at least one fixed parameter"@, d.span);
                        s5
                    } else {
                        s3
                    }
                },
                _ => self.say("`@Variadic` is only valid on an `extern function`"@, d.span),
            }
        } else {
            self
        }
    }

    #[verifier::opaque]
    pub open spec fn validate_variadics(self, l: List<DefId>) -> Ck
        decreases l,
    {
        match l {
            List::Nil => self,
            List::Cons(h, t) => {
                let s1 = self.validate_variadic(*h);
                let s2 = s1.validate_variadics(*t);
                s2
            },
        }
    }

    /// Records the types of a C function.
    #[verifier::opaque]
    pub open spec fn record_extern_sig(self, def: DefId) -> Ck {
        let s1 = Ck { cur_module: self.p.def_of(def).module, ..self };
        let (s2, env) = s1.def_env(def, None);
        match s2.p.def_of(def).item {
            Some(ItemKind::Extern(ExternItem::Function(f))) => {
                let (s3, params) = s2.lower_params(f.params, env, List::Nil);
                let (s4, ret) = s3.lower_ret(f.return_type, env, List::Nil);
                let (s5, rest) = (Ck { extern_sigs: List::Nil, ..s4 }, s4.extern_sigs);
                let s6 = Ck {
                    extern_sigs: List::Cons(Box::new(ExternSig { def, params, ret }), Box::new(rest)),
                    ..s5
                };
                s6
            },
            _ => s2,
        }
    }

    /// Binds the parameters of a function; `self` has the type `self_ty`.
    #[verifier::opaque]
    pub open spec fn bind_fn_params(self, l: List<Param>, self_ty: Option<Ty>, env: TypeEnv) -> (Ck, List<LocalTy>)
        decreases l,
    {
        match l {
            List::Nil => (self, List::Nil),
            List::Cons(h, t) => {
                let (s1, p) = self.bind_fn_param(*h, self_ty, env);
                let (s2, rest) = s1.bind_fn_params(*t, self_ty, env);
                (s2, List::Cons(Box::new(p), Box::new(rest)))
            },
        }
    }

    #[verifier::opaque]
    pub open spec fn bind_fn_param(self, p: Param, self_ty: Option<Ty>, env: TypeEnv) -> (Ck, LocalTy) {
        match p.kind {
            ParamKind::SelfParam => {
                let ty = match self_ty {
                    Some(t) => t,
                    None => ERROR_TY,
                };
                let (s1, local) = self.bind(SELF, p.span, ty);
                let s2 = Ck { self_local: Some(local), ..s1 };
                (s2, LocalTy { local, ty })
            },
            ParamKind::Normal { name, ty } => {
                let (s3, ty) = self.lower(ty, env);
                let (s4, local) = s3.bind(name.name, name.span, ty);
                (s4, LocalTy { local, ty })
            },
        }
    }

    /// What an `async` function's body yields; the declared type has to be a future.
    #[verifier::opaque]
    pub open spec fn async_result(self, ret: Ty, span: Span) -> (Ck, Option<Ty>) {
        let (s1, out) = self.future_output(ret);
        let s2 = if out is None {
            let s3 = s1.say("an `async` function must declare its return type as `Future<Output>`"@, span);
            s3
        } else {
            s1
        };
        (s2, out)
    }

    /// Opens the outermost scope of a body that returns `ret`.
    #[verifier::opaque]
    pub open spec fn open_body(self, ret: Ty) -> Ck {
        let s1 = Ck { ret_ty: ret, ..self };
        let s2 = Ck { scopes: List::Nil, ..s1 };
        let s3 = Ck { self_local: None, ..s2 };
        let s4 = s3.push_scope();
        s4
    }

    /// Checks a body, which yields `ret`, and records it for `def`.
    #[verifier::opaque]
    pub open spec fn check_body(self, def: DefId, body: Block, ret: Ty) -> Ck {
        let (s1, ty) = self.check_block(body, Some(ret));
        let s2 = s1.expect(ty, ret, body.span);
        let (s3, block) = s2.build_block(body);
        let (s4, rest) = (Ck { fn_bodies: List::Nil, ..s3 }, s3.fn_bodies);
        let s5 = Ck { fn_bodies: List::Cons(Box::new(FnBody { def, block }), Box::new(rest)), ..s4 };
        s5
    }

    /// Records the signature of a function.
    #[verifier::opaque]
    pub open spec fn record_sig(self, sig: FnSig) -> Ck {
        let (s1, rest) = (Ck { fn_sigs: List::Nil, ..self }, self.fn_sigs);
        let s2 = Ck { fn_sigs: List::Cons(Box::new(sig), Box::new(rest)), ..s1 };
        s2
    }

    /// Checks a function that is declared to return `ret`.
    #[verifier::opaque]
    pub open spec fn check_fn_item(self, def: DefId, f: FunctionItem, env: TypeEnv, self_ty: Option<Ty>) -> Ck {
        let span = return_span(f, self.p.def_of(def).span);
        let (s1, ret) = self.lower_ret(f.return_type, env, List::Nil);
        let s2 = if s1.is_extern_struct(ret) {
            let s3 = s1.say(
                "returning an `extern struct` by value is not yet supported; pass it through a `*T` out-pointer parameter (`docs/19`)"@,
                span,
            );
            s3
        } else {
            s1
        };
        let outer = s2.in_async;
        let (s4, output) = if f.is_async {
            s2.async_result(ret, span)
        } else {
            (s2, None)
        };
        let s5 = Ck { in_async: f.is_async || outer, ..s4 };
        let yields = match output {
            Some(t) => t,
            None => ret,
        };
        let s6 = s5.open_body(yields);
        let (s7, params) = s6.bind_fn_params(f.params, self_ty, env);
        let s8 = s7.record_sig(FnSig { def, params, ret, async_output: output });
        let s9 = match f.body {
            Some(body) => s8.check_body(def, body, yields),
            None => s8,
        };
        let s10 = Ck { in_async: outer, ..s9 };
        let s11 = s10.pop_scope();
        s11
    }

    /// Checks a function or method.
    #[verifier::opaque]
    pub open spec fn check_function(self, def: DefId) -> Ck {
        match self.p.def_of(def).item {
            Some(ItemKind::Function(f)) => {
                let s1 = Ck { cur_module: self.p.def_of(def).module, ..self };
                let (s2, (env, self_ty)) = s1.fn_env(def);
                let s3 = Ck { cur_generics: env.generics, ..s2 };
                let s4 = Ck { cur_self_ty: env.self_ty, ..s3 };
                let s5 = s4.check_fn_item(def, f, env, self_ty);
                s5
            },
            _ => self,
        }
    }

    /// Checks a test: a body without parameters that yields nothing.
    #[verifier::opaque]
    pub open spec fn check_test(self, def: DefId) -> Ck {
        match self.p.def_of(def).item {
            Some(ItemKind::Test(t)) => {
                let s1 = Ck { cur_module: self.p.def_of(def).module, ..self };
                let s2 = Ck { cur_generics: List::Nil, ..s1 };
                let s3 = Ck { cur_self_ty: None, ..s2 };
                let s4 = s3.open_body(NULL_TY);
                let s5 = s4.record_sig(FnSig { def, params: List::Nil, ret: NULL_TY, async_output: None });
                let s6 = s5.check_body(def, t.body, NULL_TY);
                let s7 = s6.pop_scope();
                s7
            },
            _ => self,
        }
    }

    /// Checks one definition.
    #[verifier::opaque]
    pub open spec fn check_def(self, def: DefId) -> Ck {
        match self.p.def_of(def).kind {
            DefKind::Function | DefKind::ExtendMethod => self.check_function(def),
            DefKind::Test => self.check_test(def),
            DefKind::ExternFunction => self.record_extern_sig(def),
            _ => self,
        }
    }

    #[verifier::opaque]
    pub open spec fn check_defs(self, l: List<DefId>) -> Ck
        decreases l,
    {
        match l {
            List::Nil => self,
            List::Cons(h, t) => {
                let s1 = self.check_def(*h);
                let s2 = s1.check_defs(*t);
                s2
            },
        }
    }

    /// Checks every definition of the program.
    #[verifier::opaque]
    pub open spec fn check_program(self) -> Ck {
        let defs = self.p.def_ids();
        let s1 = self.collect_struct_layouts(defs);
        let s2 = s1.collect_impls(s1.p.all_of(DefKind::Extend));
        let s3 = s2.validate_extern_structs(defs);
        let s4 = s3.validate_variadics(defs);
        let s5 = s4.check_defs(defs);
        s5
    }
}

impl<'a> Cx<'a> {
    /// The lowered shape of a struct.
    pub fn struct_shape(&mut self, kind: &StructKind, env: &TypeEnv) -> (r: StructFields)
        ensures
            final(self).answers(r, old(self).view().struct_shape(*kind, *env)),
            old(self).view().grows_to(final(self).view()),
    {
        proof {
            reveal(Ck::struct_shape);
        }
        match kind {
            StructKind::Unit => StructFields::Unit,
            StructKind::Tuple(ts) => {
                let tys = self.lower_tys(ts, env);
                StructFields::Tuple(tys)
            },
            StructKind::Record(fs) => {
                let fields = self.lower_fields(fs, env);
                StructFields::Record(fields)
            },
        }
    }

    /// Records the shape of `def` if it is a struct.
    pub fn collect_layout(&mut self, def: DefId)
        ensures
            final(self).stands(old(self).view().collect_layout(def)),
            old(self).view().grows_to(final(self).view()),
    {
        proof {
            reveal(Ck::collect_layout);
        }
        match &self.program().def(def).item {
            Some(ItemKind::Struct(s)) => {
                let env = self.def_env(def, None);
                let fields = self.struct_shape(&s.kind, &env);
                let rest = self.take_structs();
                self.set_structs(List::Cons(Box::new(StructLayout { def, fields }), Box::new(rest)));
            },
            _ => {},
        }
    }

    /// Records the shape of every struct among `l`.
    pub fn collect_struct_layouts(&mut self, l: &List<DefId>)
        ensures
            final(self).stands(old(self).view().collect_struct_layouts(*l)),
            old(self).view().grows_to(final(self).view()),
        decreases l,
    {
        proof {
            reveal(Ck::collect_struct_layouts);
        }
        match l {
            List::Nil => {},
            List::Cons(h, t) => {
                if self.program().def(**h).kind == DefKind::Struct
                    || self.program().def(**h).kind == DefKind::ExternStruct {
                    self.collect_layout(**h);
                }
                self.collect_struct_layouts(&**t);
            },
        }
    }

    /// Records that `block` implements each of `ifaces` for `target`.
    pub fn collect_ifaces(&mut self, ifaces: &List<Type>, target: DefId, block: DefId)
        ensures
            final(self).stands(old(self).view().collect_ifaces(*ifaces, target, block)),
            old(self).view().grows_to(final(self).view()),
        decreases ifaces,
    {
        proof {
            reveal(Ck::collect_ifaces);
        }
        match ifaces {
            List::Nil => {},
            List::Cons(h, t) => {
                match self.iface_named(&**h, self.program().def(block).module) {
                    Some(iface) => {
                        let known = self.take_iface_impls();
                        self.set_iface_impls(put_impl(&known, IfaceImpl { target, iface, block }));
                    },
                    None => {},
                }
                self.collect_ifaces(&**t, target, block);
            },
        }
    }

    /// The interface that a type names.
    pub fn iface_named(&self, t: &Type, module: ModId) -> (r: Option<DefId>)
        ensures
            r == self.view().iface_named(*t, module),
    {
        proof {
            reveal(Ck::iface_named);
        }
        match &t.kind {
            TypeKind::Named { name, .. } => match self.program().resolve_type_in(module, name.name) {
                Some(d) => if self.program().def(d).kind == DefKind::Interface {
                    Some(d)
                } else {
                    None
                },
                None => None,
            },
            _ => None,
        }
    }

    /// Records what an `extend` block implements.
    pub fn collect_block(&mut self, block: DefId)
        ensures
            final(self).stands(old(self).view().collect_block(block)),
            old(self).view().grows_to(final(self).view()),
    {
        proof {
            reveal(Ck::collect_block);
        }
        match &self.program().def(block).item {
            Some(ItemKind::Extend(e)) => {
                let env = self.def_env(block, None);
                let target = self.lower_ty(&e.target, &env);
                match self.kind(target) {
                    TyKind::Named { def, .. } => self.collect_ifaces(&e.interfaces, def, block),
                    _ => {},
                }
            },
            _ => {},
        }
    }

    /// Records what each `extend` block implements.
    pub fn collect_impls(&mut self, l: &List<DefId>)
        ensures
            final(self).stands(old(self).view().collect_impls(*l)),
            old(self).view().grows_to(final(self).view()),
        decreases l,
    {
        proof {
            reveal(Ck::collect_impls);
        }
        match l {
            List::Nil => {},
            List::Cons(h, t) => {
                self.collect_block(**h);
                self.collect_impls(&**t);
            },
        }
    }

    /// A `@Transparent` struct has exactly one field, which has no name.
    pub fn validate_transparent(&mut self, def: DefId)
        ensures
            final(self).stands(old(self).view().validate_transparent(def)),
            old(self).view().grows_to(final(self).view()),
    {
        proof {
            reveal(Ck::validate_transparent);
        }
        let d = self.program().def(def);
        if contains_attr(&d.attrs, T_TRANSPARENT) {
            let name = self.name(d.name);
            match find_layout(self.structs(), def) {
                Some(StructFields::Tuple(ts)) => {
                    let n = ts.len();
                    if n != 1 {
                        self.say_text(
                            "`@Transparent` requires exactly one field, but `".to_owned().concat(name.as_str()).concat(
                                "` has ",
                            ).concat(decimal_text(n as u64).as_str()).concat(" (`docs/19` §3)"),
                            d.span,
                        );
                    }
                },
                _ => self.say_text(
                    "`@Transparent` requires a single-field tuple struct, e.g. `@Transparent struct ".to_owned().concat(
                        name.as_str(),
                    ).concat("(i32)` (`docs/19` §3)"),
                    d.span,
                ),
            }
        }
    }

    /// Reports the decorators that only an `extern struct` can have.
    pub fn reject_layout_attrs(&mut self, l: &List<Attribute>)
        ensures
            final(self).stands(old(self).view().reject_layout_attrs(*l)),
            old(self).view().grows_to(final(self).view()),
        decreases l,
    {
        proof {
            reveal(Ck::reject_layout_attrs);
        }
        match l {
            List::Nil => {},
            List::Cons(h, t) => {
                let name = h.name.name;
                if name == T_PACKED || name == T_ALIGN || name == T_UNION {
                    let n = self.name(name);
                    self.say_text(
                        "`@".to_owned().concat(n.as_str()).concat("` is only valid on an `extern struct` (`docs/19` §3)"),
                        h.span,
                    );
                }
                self.reject_layout_attrs(&**t);
            },
        }
    }

    /// A field of an `extern struct` has a C type.
    pub fn validate_c_field(&mut self, field: String, ty: Ty, def: DefId)
        ensures
            final(self).stands(old(self).view().validate_c_field(field@, ty, def)),
            old(self).view().grows_to(final(self).view()),
    {
        proof {
            reveal(Ck::validate_c_field);
        }
        if !self.is_repr_c(ty) {
            let d = self.program().def(def);
            let name = self.name(d.name);
            let shown = self.display(ty);
            self.say_text(
                "field `".to_owned().concat(field.as_str()).concat("` of `extern struct ").concat(name.as_str()).concat(
                    "` has type `",
                ).concat(shown.as_str()).concat(
                    "`, which is not C-ABI-compatible; extern struct fields must be numeric, `bool`, `char`, or a raw pointer `*T` (`docs/19` §3)",
                ),
                d.span,
            );
        }
    }

    pub fn validate_c_fields(&mut self, l: &List<FieldTy>, def: DefId)
        ensures
            final(self).stands(old(self).view().validate_c_fields(*l, def)),
            old(self).view().grows_to(final(self).view()),
        decreases l,
    {
        proof {
            reveal(Ck::validate_c_fields);
        }
        match l {
            List::Nil => {},
            List::Cons(h, t) => {
                let name = self.name(h.name);
                self.validate_c_field(name, h.ty, def);
                self.validate_c_fields(&**t, def);
            },
        }
    }

    /// The fields of a tuple struct are named by position, the first of `l` by `i`.
    pub fn validate_c_tuple(&mut self, l: &List<Ty>, i: usize, def: DefId)
        ensures
            final(self).stands(old(self).view().validate_c_tuple(*l, i, def)),
            old(self).view().grows_to(final(self).view()),
        decreases l,
    {
        proof {
            reveal(Ck::validate_c_tuple);
        }
        match l {
            List::Nil => {},
            List::Cons(h, t) => {
                self.validate_c_field(decimal_text(i as u64), **h, def);
                self.validate_c_tuple(&**t, i.wrapping_add(1), def);
            },
        }
    }

    /// The rules on decorators and C fields for one struct.
    pub fn validate_struct(&mut self, def: DefId, fields: Option<StructFields>)
        ensures
            final(self).stands(old(self).view().validate_struct(def, fields)),
            old(self).view().grows_to(final(self).view()),
    {
        proof {
            reveal(Ck::validate_struct);
        }
        self.validate_transparent(def);
        let d = self.program().def(def);
        if d.kind != DefKind::ExternStruct {
            self.reject_layout_attrs(&d.attrs);
        } else {
            match fields {
                Some(StructFields::Record(fs)) => self.validate_c_fields(&fs, def),
                Some(StructFields::Tuple(ts)) => self.validate_c_tuple(&ts, 0, def),
                _ => {},
            }
        }
    }

    pub fn validate_extern_structs(&mut self, l: &List<DefId>)
        ensures
            final(self).stands(old(self).view().validate_extern_structs(*l)),
            old(self).view().grows_to(final(self).view()),
        decreases l,
    {
        proof {
            reveal(Ck::validate_extern_structs);
        }
        match l {
            List::Nil => {},
            List::Cons(h, t) => {
                if self.program().def(**h).kind == DefKind::Struct
                    || self.program().def(**h).kind == DefKind::ExternStruct {
                    let fields = find_layout(self.structs(), **h);
                    self.validate_struct(**h, fields);
                }
                self.validate_extern_structs(&**t);
            },
        }
    }

    /// The rules on `@Variadic` for one definition.
    pub fn validate_variadic(&mut self, def: DefId)
        ensures
            final(self).stands(old(self).view().validate_variadic(def)),
            old(self).view().grows_to(final(self).view()),
    {
        proof {
            reveal(Ck::validate_variadic);
        }
        let d = self.program().def(def);
        if contains_attr(&d.attrs, T_VARIADIC) {
            match &d.item {
                Some(ItemKind::Extern(ExternItem::Function(f))) => {
                    if has_variadic_args(&d.attrs) {
                        self.say("`@Variadic` takes no arguments", d.span);
                    }
                    if f.body.is_some() {
                        self.say(
                            "`@Variadic` is for an `extern function` declaration, not a definition with a body",
                            d.span,
                        );
                    }
                    if f.params.is_empty() {
                        self.say("a `@Variadic` function needs at least one fixed parameter", d.span);
                    }
                },
                _ => self.say("`@Variadic` is only valid on an `extern function`", d.span),
            }
        }
    }

    pub fn validate_variadics(&mut self, l: &List<DefId>)
        ensures
            final(self).stands(old(self).view().validate_variadics(*l)),
            old(self).view().grows_to(final(self).view()),
        decreases l,
    {
        proof {
            reveal(Ck::validate_variadics);
        }
        match l {
            List::Nil => {},
            List::Cons(h, t) => {
                self.validate_variadic(**h);
                self.validate_variadics(&**t);
            },
        }
    }

    /// Records the types of a C function.
    pub fn record_extern_sig(&mut self, def: DefId)
        ensures
            final(self).stands(old(self).view().record_extern_sig(def)),
            old(self).view().grows_to(final(self).view()),
    {
        proof {
            reveal(Ck::record_extern_sig);
        }
        self.set_cur_module(self.program().def(def).module);
        let env = self.def_env(def, None);
        match &self.program().def(def).item {
            Some(ItemKind::Extern(ExternItem::Function(f))) => {
                let params = self.lower_params(&f.params, &env, &List::Nil);
                let ret = self.lower_ret(&f.return_type, &env, &List::Nil);
                let rest = self.take_extern_sigs();
                self.set_extern_sigs(List::Cons(Box::new(ExternSig { def, params, ret }), Box::new(rest)));
            },
            _ => {},
        }
    }

    /// Binds the parameters of a function; `self` has the type `self_ty`.
    pub fn bind_fn_params(&mut self, l: &List<Param>, self_ty: Option<Ty>, env: &TypeEnv) -> (r: List<LocalTy>)
        ensures
            final(self).answers(r, old(self).view().bind_fn_params(*l, self_ty, *env)),
            old(self).view().grows_to(final(self).view()),
        decreases l,
    {
        proof {
            reveal(Ck::bind_fn_params);
        }
        match l {
            List::Nil => List::Nil,
            List::Cons(h, t) => {
                let p = self.bind_fn_param(&**h, self_ty, env);
                let rest = self.bind_fn_params(&**t, self_ty, env);
                List::Cons(Box::new(p), Box::new(rest))
            },
        }
    }

    pub fn bind_fn_param(&mut self, p: &Param, self_ty: Option<Ty>, env: &TypeEnv) -> (r: LocalTy)
        ensures
            final(self).answers(r, old(self).view().bind_fn_param(*p, self_ty, *env)),
            old(self).view().grows_to(final(self).view()),
    {
        proof {
            reveal(Ck::bind_fn_param);
        }
        match &p.kind {
            ParamKind::SelfParam => {
                let ty = match self_ty {
                    Some(t) => t,
                    None => ERROR_TY,
                };
                let local = self.bind(SELF, p.span, ty);
                self.set_self_local(Some(local));
                LocalTy { local, ty }
            },
            ParamKind::Normal { name, ty } => {
                let ty = self.lower_ty(ty, env);
                let local = self.bind(name.name, name.span, ty);
                LocalTy { local, ty }
            },
        }
    }

    /// What an `async` function's body yields; the declared type has to be a future.
    pub fn async_result(&mut self, ret: Ty, span: Span) -> (r: Option<Ty>)
        ensures
            final(self).answers(r, old(self).view().async_result(ret, span)),
            old(self).view().grows_to(final(self).view()),
    {
        proof {
            reveal(Ck::async_result);
        }
        let out = self.future_output(ret);
        if out.is_none() {
            self.say("an `async` function must declare its return type as `Future<Output>`", span);
        }
        out
    }

    /// Opens the outermost scope of a body that returns `ret`.
    pub fn open_body(&mut self, ret: Ty)
        ensures
            final(self).stands(old(self).view().open_body(ret)),
            old(self).view().grows_to(final(self).view()),
    {
        proof {
            reveal(Ck::open_body);
        }
        self.set_ret_ty(ret);
        self.set_scopes(List::Nil);
        self.set_self_local(None);
        self.push_scope();
    }

    /// Checks a body, which yields `ret`, and records it for `def`.
    pub fn check_body(&mut self, def: DefId, body: &Block, ret: Ty)
        ensures
            final(self).stands(old(self).view().check_body(def, *body, ret)),
            old(self).view().grows_to(final(self).view()),
    {
        proof {
            reveal(Ck::check_body);
        }
        let ty = self.check_block(body, Some(ret));
        self.expect(ty, ret, body.span);
        let block = self.build_block(body);
        let rest = self.take_fn_bodies();
        self.set_fn_bodies(List::Cons(Box::new(FnBody { def, block }), Box::new(rest)));
    }

    /// Records the signature of a function.
    pub fn record_sig(&mut self, sig: FnSig)
        ensures
            final(self).stands(old(self).view().record_sig(sig)),
            old(self).view().grows_to(final(self).view()),
    {
        proof {
            reveal(Ck::record_sig);
        }
        let rest = self.take_fn_sigs();
        self.set_fn_sigs(List::Cons(Box::new(sig), Box::new(rest)));
    }

    /// Checks a function that is declared to return `ret`.
    pub fn check_fn_item(&mut self, def: DefId, f: &FunctionItem, env: &TypeEnv, self_ty: Option<Ty>)
        ensures
            final(self).stands(old(self).view().check_fn_item(def, *f, *env, self_ty)),
            old(self).view().grows_to(final(self).view()),
    {
        proof {
            reveal(Ck::check_fn_item);
        }
        let span = span_of_return(f, self.program().def(def).span);
        let ret = self.lower_ret(&f.return_type, env, &List::Nil);
        if self.is_extern_struct(ret) {
            self.say(
                "returning an `extern struct` by value is not yet supported; pass it through a `*T` out-pointer parameter (`docs/19`)",
                span,
            );
        }
        let outer = self.in_async();
        let output = if f.is_async {
            self.async_result(ret, span)
        } else {
            None
        };
        self.set_in_async(f.is_async || outer);
        let yields = match output {
            Some(t) => t,
            None => ret,
        };
        self.open_body(yields);
        let params = self.bind_fn_params(&f.params, self_ty, env);
        self.record_sig(FnSig { def, params, ret, async_output: output });
        match &f.body {
            Some(body) => self.check_body(def, body, yields),
            None => {},
        }
        self.set_in_async(outer);
        self.pop_scope();
    }

    /// Checks a function or method.
    pub fn check_function(&mut self, def: DefId)
        ensures
            final(self).stands(old(self).view().check_function(def)),
            old(self).view().grows_to(final(self).view()),
    {
        proof {
            reveal(Ck::check_function);
        }
        match &self.program().def(def).item {
            Some(ItemKind::Function(f)) => {
                self.set_cur_module(self.program().def(def).module);
                let (env, self_ty) = self.fn_env(def);
                self.set_cur_generics(dup(&env.generics));
                self.set_cur_self_ty(env.self_ty);
                self.check_fn_item(def, f, &env, self_ty);
            },
            _ => {},
        }
    }

    /// Checks a test: a body without parameters that yields nothing.
    pub fn check_test(&mut self, def: DefId)
        ensures
            final(self).stands(old(self).view().check_test(def)),
            old(self).view().grows_to(final(self).view()),
    {
        proof {
            reveal(Ck::check_test);
        }
        match &self.program().def(def).item {
            Some(ItemKind::Test(t)) => {
                self.set_cur_module(self.program().def(def).module);
                self.set_cur_generics(List::Nil);
                self.set_cur_self_ty(None);
                self.open_body(NULL_TY);
                self.record_sig(FnSig { def, params: List::Nil, ret: NULL_TY, async_output: None });
                self.check_body(def, &t.body, NULL_TY);
                self.pop_scope();
            },
            _ => {},
        }
    }

    /// Checks one definition.
    pub fn check_def(&mut self, def: DefId)
        ensures
            final(self).stands(old(self).view().check_def(def)),
            old(self).view().grows_to(final(self).view()),
    {
        proof {
            reveal(Ck::check_def);
        }
        match self.program().def(def).kind {
            DefKind::Function | DefKind::ExtendMethod => self.check_function(def),
            DefKind::Test => self.check_test(def),
            DefKind::ExternFunction => self.record_extern_sig(def),
            _ => {},
        }
    }

    pub fn check_defs(&mut self, l: &List<DefId>)
        ensures
            final(self).stands(old(self).view().check_defs(*l)),
            old(self).view().grows_to(final(self).view()),
        decreases l,
    {
        proof {
            reveal(Ck::check_defs);
        }
        match l {
            List::Nil => {},
            List::Cons(h, t) => {
                self.check_def(**h);
                self.check_defs(&**t);
            },
        }
    }

    /// Checks every definition of the program.
    pub fn check_program(&mut self)
        ensures
            final(self).stands(old(self).view().check_program()),
            old(self).view().grows_to(final(self).view()),
    {
        proof {
            reveal(Ck::check_program);
        }
        let defs = self.program().all_defs();
        self.collect_struct_layouts(&defs);
        self.collect_impls(&self.program().all_of_kind(DefKind::Extend));
        self.validate_extern_structs(&defs);
        self.validate_variadics(&defs);
        self.check_defs(&defs);
    }
}

/// A `@Variadic` among `l` has arguments.
pub open spec fn variadic_with_args(l: List<Attribute>) -> bool
    decreases l,
{
    match l {
        List::Nil => false,
        List::Cons(h, t) => (h.name.name == T_VARIADIC && !(h.args is Nil)) || variadic_with_args(*t),
    }
}

/// A `@Variadic` among `l` has arguments.
pub fn has_variadic_args(l: &List<Attribute>) -> (r: bool)
    ensures
        r == variadic_with_args(*l),
    decreases l,
{
    match l {
        List::Nil => false,
        List::Cons(h, t) => (h.name.name == T_VARIADIC && !h.args.is_empty()) || has_variadic_args(&**t),
    }
}

} // verus!
