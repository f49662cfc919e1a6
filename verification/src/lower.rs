//! Lowering of syntactic types to interned ones.
//!
//! Primitive names, generic parameters and `Self` are recognised, nominal names
//! are looked up, and type aliases are expanded, so that two spellings of the
//! same union are the same type. An alias that is reached again while its own
//! right-hand side is expanded contributes nothing (`never`, which a union
//! absorbs), directly or through other aliases; one that reduces to nothing else
//! is an error.
use vstd::prelude::*;
use crate::ast::{Expr, ExprKind, ExternParam, IntBase, IntLit, ItemKind, Type, TypeKind};
use crate::diag::{report, Problem, Report, SemaError, SemaErrorKind};
use crate::ids::{DefId, ModId};
use crate::list::List;
use crate::names::Symbol;
use crate::symbols::{DefKind, Program};
use crate::text::{digits, parse_number};
use crate::ty::{FloatTy, IntTy, Ty, TyCtxt, TyKind, BOOL_TY, CHAR_TY, DYNAMIC_TY, ERROR_TY, NEVER_TY, NULL_TY, STR_TY};

verus! {

/// A generic parameter's name and what it stands for.
#[derive(Clone, Copy, PartialEq, Eq, Structural, Debug)]
pub struct GenericName {
    pub name: Symbol,
    pub ty: Ty,
}

/// What a type is lowered in: the module it is written in, the generic
/// parameters in scope and the `Self` type.
#[derive(Debug)]
pub struct TypeEnv {
    pub module: ModId,
    /// The parameter added last shadows others of its name.
    pub generics: List<GenericName>,
    pub self_ty: Option<Ty>,
}

impl TypeEnv {
    pub open spec fn bare(module: ModId) -> TypeEnv {
        TypeEnv { module, generics: List::Nil, self_ty: None }
    }

    pub fn new(module: ModId) -> (r: TypeEnv)
        ensures
            r == TypeEnv::bare(module),
    {
        TypeEnv { module, generics: List::Nil, self_ty: None }
    }
}

pub open spec fn generic_ty(l: List<GenericName>, name: Symbol) -> Option<Ty>
    decreases l,
{
    match l {
        List::Nil => None,
        List::Cons(h, t) => if h.name == name {
            Some(h.ty)
        } else {
            generic_ty(*t, name)
        },
    }
}

pub fn find_generic(l: &List<GenericName>, name: Symbol) -> (r: Option<Ty>)
    ensures
        r == generic_ty(*l, name),
    decreases l,
{
    match l {
        List::Nil => None,
        List::Cons(h, t) => if h.name == name {
            Some(h.ty)
        } else {
            find_generic(t, name)
        },
    }
}

pub open spec fn has_def(l: List<DefId>, d: DefId) -> bool
    decreases l,
{
    match l {
        List::Nil => false,
        List::Cons(h, t) => *h == d || has_def(*t, d),
    }
}

pub fn contains_def(l: &List<DefId>, d: DefId) -> (r: bool)
    ensures
        r == has_def(*l, d),
    decreases l,
{
    match l {
        List::Nil => false,
        List::Cons(h, t) => **h == d || contains_def(t, d),
    }
}

/// How many of the first `n` definitions are not in `l`.
pub open spec fn absent(n: nat, l: List<DefId>) -> nat
    decreases n,
{
    if n == 0 {
        0
    } else {
        absent((n - 1) as nat, l) + if has_def(l, DefId((n - 1) as u32)) {
            0nat
        } else {
            1nat
        }
    }
}

proof fn lemma_absent(n: nat, l: List<DefId>, d: DefId)
    requires
        n <= u32::MAX + 1,
    ensures
        absent(n, List::Cons(Box::new(d), Box::new(l))) <= absent(n, l),
        d.0 < n && !has_def(l, d) ==> absent(n, List::Cons(Box::new(d), Box::new(l))) < absent(n, l),
    decreases n,
{
    if n > 0 {
        lemma_absent((n - 1) as nat, l, d);
    }
}

/// The number of definitions that an alias may still be among.
pub open spec fn budget(p: Program, l: List<DefId>) -> nat {
    let n = p.defs@.len();
    absent(
        if n <= u32::MAX {
            n
        } else {
            u32::MAX as nat
        },
        l,
    )
}

pub proof fn lemma_budget(p: Program, l: List<DefId>, d: DefId)
    requires
        d.0 < p.defs@.len(),
        d.0 < u32::MAX,
        !has_def(l, d),
    ensures
        budget(p, List::Cons(Box::new(d), Box::new(l))) < budget(p, l),
{
    let n = p.defs@.len();
    lemma_absent(
        if n <= u32::MAX {
            n
        } else {
            u32::MAX as nat
        },
        l,
        d,
    );
}

/// The types and diagnostics that lowering adds to.
#[verifier::ext_equal]
pub struct Low {
    pub kinds: Seq<TyKind>,
    pub errors: Seq<Report>,
}

impl Low {
    pub open spec fn fail(self, problem: Problem, span: crate::span::Span) -> Low {
        Low { errors: self.errors.push(Report { problem, span }), ..self }
    }

    pub open spec fn with(self, r: (Seq<TyKind>, Ty)) -> (Low, Ty) {
        (Low { kinds: r.0, ..self }, r.1)
    }
}

/// The primitive type with that name.
pub open spec fn primitive_ty(name: Symbol) -> Option<Ty> {
    match (IntTy::named(name), FloatTy::named(name)) {
        (Some(i), _) => Some(i.handle()),
        (None, Some(f)) => Some(f.handle()),
        (None, None) => if name == crate::words::BOOL {
            Some(BOOL_TY)
        } else if name == crate::words::CHAR {
            Some(CHAR_TY)
        } else if name == crate::words::STR {
            Some(STR_TY)
        } else if name == crate::words::NULL {
            Some(NULL_TY)
        } else if name == crate::words::DYNAMIC {
            Some(DYNAMIC_TY)
        } else {
            None
        },
    }
}

pub fn primitive(tcx: &TyCtxt, name: Symbol) -> (r: Option<Ty>)
    ensures
        r == primitive_ty(name),
{
    if let Some(it) = IntTy::from_name(name) {
        return Some(tcx.int_ty(it));
    }
    if let Some(ft) = FloatTy::from_name(name) {
        return Some(tcx.float_ty(ft));
    }
    if name == crate::words::BOOL {
        Some(BOOL_TY)
    } else if name == crate::words::CHAR {
        Some(CHAR_TY)
    } else if name == crate::words::STR {
        Some(STR_TY)
    } else if name == crate::words::NULL {
        Some(NULL_TY)
    } else if name == crate::words::DYNAMIC {
        Some(DYNAMIC_TY)
    } else {
        None
    }
}

pub open spec fn radix_of(b: IntBase) -> u32 {
    match b {
        IntBase::Dec => 10,
        IntBase::Hex => 16,
        IntBase::Oct => 8,
        IntBase::Bin => 2,
    }
}

pub fn radix(b: IntBase) -> (r: u32)
    ensures
        r == radix_of(b),
{
    match b {
        IntBase::Dec => 10,
        IntBase::Hex => 16,
        IntBase::Oct => 8,
        IntBase::Bin => 2,
    }
}

/// The value of an integer literal, if it is at most `limit`.
pub open spec fn literal_value(p: Program, lit: IntLit, limit: u128) -> Option<u128> {
    crate::text::number_of(crate::text::digits_of(p.text(lit.raw)), radix_of(lit.base), limit)
}

pub fn value_of_literal(p: &Program, lit: &IntLit, limit: u128) -> (r: Option<u128>)
    ensures
        r == literal_value(*p, *lit, limit),
{
    let d = digits(p.names.text(lit.raw));
    parse_number(d.as_str(), radix(lit.base), limit)
}

/// The length of a fixed array: a plain integer literal.
pub open spec fn array_len(p: Program, s: Low, e: Expr) -> (Low, u64) {
    let v = match e.kind {
        ExprKind::Int(lit) => literal_value(p, lit, u64::MAX as u128),
        _ => None,
    };
    match v {
        Some(n) => (s, n as u64),
        None => (
            s.fail(Problem::Message("array length must be a constant non-negative integer literal"@), e.span),
            0,
        ),
    }
}

/// The environment in which an alias with the parameters `ps` is expanded.
pub open spec fn alias_generics(p: Program, ps: List<DefId>, args: List<Ty>, i: usize, acc: List<GenericName>) -> List<
    GenericName,
>
    decreases ps,
{
    match ps {
        List::Nil => acc,
        List::Cons(h, t) => {
            let ty = match crate::list::nth(args, i) {
                Some(x) => x,
                None => ERROR_TY,
            };
            let g = GenericName { name: p.def_of(*h).name, ty };
            alias_generics(p, *t, args, i.wrapping_add(1), List::Cons(Box::new(g), Box::new(acc)))
        },
    }
}

/// `ps` named and bound to `args` in order; a parameter without an argument gets
/// the error type.
pub fn bind_generics(p: &Program, ps: &List<DefId>, args: &List<Ty>, i: usize, acc: List<GenericName>) -> (r: List<
    GenericName,
>)
    ensures
        r == alias_generics(*p, *ps, *args, i, acc),
    decreases ps,
{
    match ps {
        List::Nil => acc,
        List::Cons(h, t) => {
            let ty = match crate::list::get(args, i) {
                Some(x) => x,
                None => ERROR_TY,
            };
            let g = GenericName { name: p.def(**h).name, ty };
            bind_generics(p, t, args, i.wrapping_add(1), List::Cons(Box::new(g), Box::new(acc)))
        },
    }
}

/// Type `ty` lowered in `env`, while the aliases `ex` are being expanded.
pub open spec fn lowered(p: Program, s: Low, ex: List<DefId>, ty: Type, env: TypeEnv) -> (Low, Ty)
    decreases budget(p, ex), ty, 2int,
{
    match ty.kind {
        TypeKind::Named { .. } => lowered_named(p, s, ex, ty, env),
        TypeKind::Tuple(es) => {
            let (s1, ts) = lowered_list(p, s, ex, es, env);
            s1.with(crate::ty::interned(s1.kinds, TyKind::Tuple(ts)))
        },
        TypeKind::Function { params, ret } => {
            let (s1, ps) = lowered_list(p, s, ex, params, env);
            let (s2, r) = lowered(p, s1, ex, *ret, env);
            s2.with(crate::ty::interned(s2.kinds, TyKind::Func { params: ps, ret: r, is_c: false }))
        },
        TypeKind::ExternFunction { params, ret } => {
            let (s1, ps) = lowered_params(p, s, ex, params, env);
            let (s2, r) = lowered(p, s1, ex, *ret, env);
            s2.with(crate::ty::interned(s2.kinds, TyKind::Func { params: ps, ret: r, is_c: true }))
        },
        TypeKind::Union(ms) => {
            let (s1, ts) = lowered_list(p, s, ex, ms, env);
            s1.with(crate::ty::union_of(s1.kinds, ts))
        },
        TypeKind::Pointer(x) => {
            let (s1, t) = lowered(p, s, ex, *x, env);
            s1.with(crate::ty::interned(s1.kinds, TyKind::Ptr(t)))
        },
        TypeKind::Array { elem, len } => {
            let (s1, t) = lowered(p, s, ex, *elem, env);
            let (s2, n) = array_len(p, s1, *len);
            s2.with(crate::ty::interned(s2.kinds, TyKind::Array { elem: t, len: n }))
        },
        TypeKind::SelfType => match env.self_ty {
            Some(t) => (s, t),
            None => (s.fail(Problem::Message("`Self` is not valid here"@), ty.span), ERROR_TY),
        },
        TypeKind::Paren(x) => lowered(p, s, ex, *x, env),
    }
}

pub open spec fn lowered_list(p: Program, s: Low, ex: List<DefId>, l: List<Type>, env: TypeEnv) -> (Low, List<Ty>)
    decreases budget(p, ex), l, 0int,
{
    match l {
        List::Nil => (s, List::Nil),
        List::Cons(h, t) => {
            let (s1, x) = lowered(p, s, ex, *h, env);
            let (s2, xs) = lowered_list(p, s1, ex, *t, env);
            (s2, List::Cons(Box::new(x), Box::new(xs)))
        },
    }
}

pub open spec fn lowered_params(p: Program, s: Low, ex: List<DefId>, l: List<ExternParam>, env: TypeEnv) -> (
    Low,
    List<Ty>,
)
    decreases budget(p, ex), l, 0int,
{
    match l {
        List::Nil => (s, List::Nil),
        List::Cons(h, t) => {
            let (s1, x) = lowered(p, s, ex, h.ty, env);
            let (s2, xs) = lowered_params(p, s1, ex, *t, env);
            (s2, List::Cons(Box::new(x), Box::new(xs)))
        },
    }
}

/// With a complaint unless `found` arguments were `expected`.
pub open spec fn arity_checked(
    p: Program,
    s: Low,
    name: Symbol,
    expected: usize,
    found: usize,
    span: crate::span::Span,
) -> Low {
    if expected == found {
        s
    } else {
        s.fail(Problem::GenericArity { name: p.text(name), expected, found }, span)
    }
}

/// A named type: a primitive, a generic parameter, or a nominal type or alias.
pub open spec fn lowered_named(p: Program, s: Low, ex: List<DefId>, node: Type, env: TypeEnv) -> (Low, Ty)
    decreases budget(p, ex), node, 1int,
{
    match node.kind {
        TypeKind::Named { name, generics } => match (primitive_ty(name.name), generic_ty(env.generics, name.name)) {
            (Some(t), _) => (arity_checked(p, s, name.name, 0, generics.count(), node.span), t),
            (None, Some(t)) => (arity_checked(p, s, name.name, 0, generics.count(), node.span), t),
            (None, None) => match p.type_named(env.module, name.name) {
                None => (s.fail(Problem::UnknownType { name: p.text(name.name) }, node.span), ERROR_TY),
                Some(def) => {
                    let (s1, args) = lowered_list(p, s, ex, generics, env);
                    let s2 = arity_checked(
                        p,
                        s1,
                        name.name,
                        p.def_of(def).generics.count(),
                        args.count(),
                        node.span,
                    );
                    match p.def_of(def).kind {
                        DefKind::TypeAlias => alias_expanded(p, s2, ex, def, args, node, env),
                        DefKind::Struct | DefKind::Interface | DefKind::ExternStruct
                        | DefKind::ExternType => s2.with(
                            crate::ty::interned(s2.kinds, TyKind::Named { def, args }),
                        ),
                        other => (
                            s2.fail(
                                Problem::Message(
                                    "`"@ + p.text(name.name) + "` is a "@ + other.text()
                                        + " and cannot be used as a type"@,
                                ),
                                node.span,
                            ),
                            ERROR_TY,
                        ),
                    }
                },
            },
        },
        _ => (s, ERROR_TY),
    }
}

/// Whether `ty`, of which nothing is left, comes back to one of the aliases `ex`
/// that are being expanded, or stands for an argument of which nothing is left.
/// The aliases `seen` were followed already.
pub open spec fn returns_to(
    p: Program,
    kinds: Seq<TyKind>,
    ex: List<DefId>,
    seen: List<DefId>,
    ty: Type,
    env: TypeEnv,
) -> bool
    decreases budget(p, seen), ty, 0int,
{
    match ty.kind {
        TypeKind::Paren(x) => returns_to(p, kinds, ex, seen, *x, env),
        TypeKind::Union(ms) => any_returns_to(p, kinds, ex, seen, ms, env),
        TypeKind::Named { name, generics } => match (primitive_ty(name.name), generic_ty(env.generics, name.name)) {
            (Some(_), _) => false,
            (None, Some(t)) => crate::ty::kind_of(kinds, t) is Never,
            (None, None) => match p.type_named(env.module, name.name) {
                None => false,
                Some(def) => if p.def_of(def).kind != DefKind::TypeAlias {
                    false
                } else if has_def(ex, def) || any_returns_to(p, kinds, ex, seen, generics, env) {
                    true
                } else if has_def(seen, def) || def.0 >= p.defs@.len() || def.0 == u32::MAX {
                    false
                } else {
                    match p.def_of(def).item {
                        Some(ItemKind::TypeAlias(alias)) => {
                            proof {
                                lemma_budget(p, seen, def);
                            }
                            let sub = TypeEnv {
                                module: p.def_of(def).module,
                                generics: alias_generics(p, p.def_of(def).generics, List::Nil, 0, List::Nil),
                                self_ty: None,
                            };
                            returns_to(p, kinds, ex, List::Cons(Box::new(def), Box::new(seen)), alias.aliased, sub)
                        },
                        _ => false,
                    }
                },
            },
        },
        _ => false,
    }
}

pub open spec fn any_returns_to(
    p: Program,
    kinds: Seq<TyKind>,
    ex: List<DefId>,
    seen: List<DefId>,
    l: List<Type>,
    env: TypeEnv,
) -> bool
    decreases budget(p, seen), l, 0int,
{
    match l {
        List::Nil => false,
        List::Cons(h, t) => returns_to(p, kinds, ex, seen, *h, env) || any_returns_to(p, kinds, ex, seen, *t, env),
    }
}

/// Alias `def` applied to `args`. One that reduces to nothing on its own is
/// reported; one that only comes back to an alias being expanded adds nothing.
pub open spec fn alias_expanded(
    p: Program,
    s: Low,
    ex: List<DefId>,
    def: DefId,
    args: List<Ty>,
    node: Type,
    env: TypeEnv,
) -> (Low, Ty)
    decreases budget(p, ex), node, 0int,
{
    if has_def(ex, def) {
        (s, NEVER_TY)
    } else if def.0 >= p.defs@.len() || def.0 == u32::MAX {
        (s, ERROR_TY)
    } else {
        match p.def_of(def).item {
            Some(ItemKind::TypeAlias(alias)) => {
                proof {
                    lemma_budget(p, ex, def);
                }
                let sub = TypeEnv {
                    module: p.def_of(def).module,
                    generics: alias_generics(p, p.def_of(def).generics, args, 0, List::Nil),
                    self_ty: env.self_ty,
                };
                let (s1, t) = lowered(p, s, List::Cons(Box::new(def), Box::new(ex)), alias.aliased, sub);
                if crate::ty::kind_of(s1.kinds, t) is Never && !returns_to(
                    p,
                    s1.kinds,
                    ex,
                    List::one(def),
                    alias.aliased,
                    sub,
                ) {
                    (
                        s1.fail(Problem::RecursiveAlias { name: p.text(p.def_of(def).name) }, node.span),
                        ERROR_TY,
                    )
                } else {
                    (s1, t)
                }
            },
            _ => (s, ERROR_TY),
        }
    }
}

/// Lowers syntactic types using a program's definition table.
pub struct Lowerer<'a> {
    pub prog: &'a Program,
    pub tcx: &'a mut TyCtxt,
    pub errors: &'a mut Vec<SemaError>,
}

/// The mathematical value of a type table and a list of diagnostics.
pub open spec fn low(tcx: TyCtxt, errors: Vec<SemaError>) -> Low {
    Low { kinds: tcx.view(), errors: crate::diag::reports(errors@) }
}

fn check_arity(
    p: &Program,
    name: Symbol,
    expected: usize,
    found: usize,
    span: crate::span::Span,
    tcx: &TyCtxt,
    errors: &mut Vec<SemaError>,
)
    ensures
        low(*tcx, *final(errors)) == arity_checked(*p, low(*tcx, *old(errors)), name, expected, found, span),
{
    if expected != found {
        let text = p.names.text(name).to_owned();
        report(errors, SemaErrorKind::GenericArity { name: text, expected, found }, span);
    }
}

pub fn lower_type(
    p: &Program,
    tcx: &mut TyCtxt,
    errors: &mut Vec<SemaError>,
    ex: &List<DefId>,
    ty: &Type,
    env: &TypeEnv,
) -> (r: Ty)
    ensures
        (low(*final(tcx), *final(errors)), r) == lowered(*p, low(*old(tcx), *old(errors)), *ex, *ty, *env),
    decreases budget(*p, *ex), ty, 2int,
{
    match &ty.kind {
        TypeKind::Named { .. } => lower_named(p, tcx, errors, ex, ty, env),
        TypeKind::Tuple(es) => {
            let ts = lower_list(p, tcx, errors, ex, es, env);
            tcx.mk_tuple(ts)
        },
        TypeKind::Function { params, ret } => {
            let ps = lower_list(p, tcx, errors, ex, params, env);
            let r = lower_type(p, tcx, errors, ex, ret, env);
            tcx.mk_func(ps, r, false)
        },
        TypeKind::ExternFunction { params, ret } => {
            let ps = lower_params(p, tcx, errors, ex, params, env);
            let r = lower_type(p, tcx, errors, ex, ret, env);
            tcx.mk_func(ps, r, true)
        },
        TypeKind::Union(ms) => {
            let ts = lower_list(p, tcx, errors, ex, ms, env);
            tcx.mk_union(ts)
        },
        TypeKind::Pointer(x) => {
            let t = lower_type(p, tcx, errors, ex, x, env);
            tcx.mk_ptr(t)
        },
        TypeKind::Array { elem, len } => {
            let t = lower_type(p, tcx, errors, ex, elem, env);
            let n = const_eval_len(p, tcx, errors, len);
            tcx.intern(TyKind::Array { elem: t, len: n })
        },
        TypeKind::SelfType => match env.self_ty {
            Some(t) => t,
            None => {
                report(errors, SemaErrorKind::Message("`Self` is not valid here".to_owned()), ty.span);
                ERROR_TY
            },
        },
        TypeKind::Paren(x) => lower_type(p, tcx, errors, ex, x, env),
    }
}

fn const_eval_len(p: &Program, tcx: &TyCtxt, errors: &mut Vec<SemaError>, e: &Expr) -> (r: u64)
    ensures
        (low(*tcx, *final(errors)), r) == array_len(*p, low(*tcx, *old(errors)), *e),
{
    let v = match &e.kind {
        ExprKind::Int(lit) => value_of_literal(p, lit, u64::MAX as u128),
        _ => None,
    };
    match v {
        Some(n) => n as u64,
        None => {
            report(
                errors,
                SemaErrorKind::Message("array length must be a constant non-negative integer literal".to_owned()),
                e.span,
            );
            0
        },
    }
}

pub fn lower_list(
    p: &Program,
    tcx: &mut TyCtxt,
    errors: &mut Vec<SemaError>,
    ex: &List<DefId>,
    l: &List<Type>,
    env: &TypeEnv,
) -> (r: List<Ty>)
    ensures
        (low(*final(tcx), *final(errors)), r) == lowered_list(*p, low(*old(tcx), *old(errors)), *ex, *l, *env),
    decreases budget(*p, *ex), l, 0int,
{
    match l {
        List::Nil => List::Nil,
        List::Cons(h, t) => {
            let x = lower_type(p, tcx, errors, ex, h, env);
            let xs = lower_list(p, tcx, errors, ex, t, env);
            List::Cons(Box::new(x), Box::new(xs))
        },
    }
}

fn lower_params(
    p: &Program,
    tcx: &mut TyCtxt,
    errors: &mut Vec<SemaError>,
    ex: &List<DefId>,
    l: &List<ExternParam>,
    env: &TypeEnv,
) -> (r: List<Ty>)
    ensures
        (low(*final(tcx), *final(errors)), r) == lowered_params(*p, low(*old(tcx), *old(errors)), *ex, *l, *env),
    decreases budget(*p, *ex), l, 0int,
{
    match l {
        List::Nil => List::Nil,
        List::Cons(h, t) => {
            let x = lower_type(p, tcx, errors, ex, &h.ty, env);
            let xs = lower_params(p, tcx, errors, ex, t, env);
            List::Cons(Box::new(x), Box::new(xs))
        },
    }
}

fn lower_named(
    p: &Program,
    tcx: &mut TyCtxt,
    errors: &mut Vec<SemaError>,
    ex: &List<DefId>,
    node: &Type,
    env: &TypeEnv,
) -> (r: Ty)
    ensures
        (low(*final(tcx), *final(errors)), r) == lowered_named(*p, low(*old(tcx), *old(errors)), *ex, *node, *env),
    decreases budget(*p, *ex), node, 1int,
{
    match &node.kind {
        TypeKind::Named { name, generics } => {
            if let Some(t) = primitive(tcx, name.name) {
                check_arity(p, name.name, 0, generics.len(), node.span, tcx, errors);
                return t;
            }
            if let Some(t) = find_generic(&env.generics, name.name) {
                check_arity(p, name.name, 0, generics.len(), node.span, tcx, errors);
                return t;
            }
            let def = match p.resolve_type_in(env.module, name.name) {
                Some(d) => d,
                None => {
                    let text = p.names.text(name.name).to_owned();
                    report(errors, SemaErrorKind::UnknownType { name: text }, node.span);
                    return ERROR_TY;
                },
            };
            let args = lower_list(p, tcx, errors, ex, generics, env);
            check_arity(p, name.name, p.def(def).generics.len(), args.len(), node.span, tcx, errors);
            match p.def(def).kind {
                DefKind::TypeAlias => expand_alias(p, tcx, errors, ex, def, &args, node, env),
                DefKind::Struct | DefKind::Interface | DefKind::ExternStruct | DefKind::ExternType => {
                    tcx.mk_named(def, args)
                },
                other => {
                    let text = "`".to_owned().concat(p.names.text(name.name)).concat("` is a ").concat(
                        other.describe(),
                    ).concat(" and cannot be used as a type");
                    report(errors, SemaErrorKind::Message(text), node.span);
                    ERROR_TY
                },
            }
        },
        _ => ERROR_TY,
    }
}

fn comes_back(
    p: &Program,
    tcx: &TyCtxt,
    ex: &List<DefId>,
    seen: &List<DefId>,
    ty: &Type,
    env: &TypeEnv,
) -> (r: bool)
    ensures
        r == returns_to(*p, tcx.view(), *ex, *seen, *ty, *env),
    decreases budget(*p, *seen), ty, 0int,
{
    match &ty.kind {
        TypeKind::Paren(x) => comes_back(p, tcx, ex, seen, x, env),
        TypeKind::Union(ms) => any_comes_back(p, tcx, ex, seen, ms, env),
        TypeKind::Named { name, generics } => {
            if primitive(tcx, name.name).is_some() {
                return false;
            }
            if let Some(t) = find_generic(&env.generics, name.name) {
                return tcx.is_never(t);
            }
            let def = match p.resolve_type_in(env.module, name.name) {
                Some(d) => d,
                None => {
                    return false;
                },
            };
            if p.def(def).kind != DefKind::TypeAlias {
                return false;
            }
            if contains_def(ex, def) || any_comes_back(p, tcx, ex, seen, generics, env) {
                return true;
            }
            if contains_def(seen, def) || def.0 as usize >= p.defs.len() || def.0 == u32::MAX {
                return false;
            }
            match &p.def(def).item {
                Some(ItemKind::TypeAlias(alias)) => {
                    proof {
                        lemma_budget(*p, *seen, def);
                    }
                    let sub = TypeEnv {
                        module: p.def(def).module,
                        generics: bind_generics(p, &p.def(def).generics, &List::Nil, 0, List::Nil),
                        self_ty: None,
                    };
                    let more = List::Cons(Box::new(def), Box::new(crate::list::dup(seen)));
                    comes_back(p, tcx, ex, &more, &alias.aliased, &sub)
                },
                _ => false,
            }
        },
        _ => false,
    }
}

fn any_comes_back(
    p: &Program,
    tcx: &TyCtxt,
    ex: &List<DefId>,
    seen: &List<DefId>,
    l: &List<Type>,
    env: &TypeEnv,
) -> (r: bool)
    ensures
        r == any_returns_to(*p, tcx.view(), *ex, *seen, *l, *env),
    decreases budget(*p, *seen), l, 0int,
{
    match l {
        List::Nil => false,
        List::Cons(h, t) => comes_back(p, tcx, ex, seen, h, env) || any_comes_back(p, tcx, ex, seen, t, env),
    }
}

fn expand_alias(
    p: &Program,
    tcx: &mut TyCtxt,
    errors: &mut Vec<SemaError>,
    ex: &List<DefId>,
    def: DefId,
    args: &List<Ty>,
    node: &Type,
    env: &TypeEnv,
) -> (r: Ty)
    ensures
        (low(*final(tcx), *final(errors)), r) == alias_expanded(
            *p,
            low(*old(tcx), *old(errors)),
            *ex,
            def,
            *args,
            *node,
            *env,
        ),
    decreases budget(*p, *ex), node, 0int,
{
    if contains_def(ex, def) {
        return NEVER_TY;
    }
    if def.0 as usize >= p.defs.len() || def.0 == u32::MAX {
        return ERROR_TY;
    }
    match &p.def(def).item {
        Some(ItemKind::TypeAlias(alias)) => {
            proof {
                lemma_budget(*p, *ex, def);
            }
            let sub = TypeEnv {
                module: p.def(def).module,
                generics: bind_generics(p, &p.def(def).generics, args, 0, List::Nil),
                self_ty: env.self_ty,
            };
            let inside = List::Cons(Box::new(def), Box::new(crate::list::dup(ex)));
            let t = lower_type(p, tcx, errors, &inside, &alias.aliased, &sub);
            if tcx.is_never(t) && !comes_back(p, tcx, ex, &List::single(def), &alias.aliased, &sub) {
                let text = p.names.text(p.def(def).name).to_owned();
                report(errors, SemaErrorKind::RecursiveAlias { name: text }, node.span);
                return ERROR_TY;
            }
            t
        },
        _ => ERROR_TY,
    }
}

impl<'a> Lowerer<'a> {
    pub fn new(prog: &'a Program, tcx: &'a mut TyCtxt, errors: &'a mut Vec<SemaError>) -> (r: Lowerer<'a>)
        ensures
            *r.prog == *prog,
            *r.tcx == *old(tcx),
            *r.errors == *old(errors),
            *final(r.tcx) == *final(tcx),
            *final(r.errors) == *final(errors),
    {
        Lowerer { prog, tcx, errors }
    }

    /// Lowers a syntactic type in environment `env`.
    pub fn lower(&mut self, ty: &Type, env: &TypeEnv) -> (r: Ty)
        ensures
            (low(*final(self).tcx, *final(self).errors), r) == lowered(
                *old(self).prog,
                low(*old(self).tcx, *old(self).errors),
                List::Nil,
                *ty,
                *env,
            ),
            final(self).prog == old(self).prog,
            *final(final(self).tcx) == *final(old(self).tcx),
            *final(final(self).errors) == *final(old(self).errors),
    {
        lower_type(self.prog, self.tcx, self.errors, &List::Nil, ty, env)
    }
}

// -- laws -----------------------------------------------------------------------------

/// `b` has every type and diagnostic of `a`, and possibly more.
pub open spec fn grows(a: Low, b: Low) -> bool {
    crate::list::extends(a.kinds, b.kinds) && crate::list::extends(a.errors, b.errors)
}

proof fn lemma_grows(a: Low, b: Low, c: Low)
    requires
        grows(a, b),
        grows(b, c),
    ensures
        grows(a, c),
{
    crate::list::law_extends_transitive(a.kinds, b.kinds, c.kinds);
    crate::list::law_extends_transitive(a.errors, b.errors, c.errors);
}

proof fn lemma_interned_grows(a: Low, b: Low, x: TyKind)
    requires
        grows(a, b),
    ensures
        grows(a, b.with(crate::ty::interned(b.kinds, x)).0),
{
    crate::ty::law_interned_grows(b.kinds, x);
    lemma_grows(a, b, b.with(crate::ty::interned(b.kinds, x)).0);
}

/// Lowering a type only adds types and diagnostics.
pub proof fn law_lower_grows(p: Program, s: Low, ex: List<DefId>, ty: Type, env: TypeEnv)
    ensures
        grows(s, lowered(p, s, ex, ty, env).0),
    decreases budget(p, ex), ty, 2int,
{
    match ty.kind {
        TypeKind::Named { .. } => lemma_named_grows(p, s, ex, ty, env),
        TypeKind::Tuple(es) => {
            law_lower_list_grows(p, s, ex, es, env);
            let (s1, ts) = lowered_list(p, s, ex, es, env);
            lemma_interned_grows(s, s1, TyKind::Tuple(ts));
        },
        TypeKind::Function { params, ret } => {
            law_lower_list_grows(p, s, ex, params, env);
            let (s1, ps) = lowered_list(p, s, ex, params, env);
            law_lower_grows(p, s1, ex, *ret, env);
            let (s2, r) = lowered(p, s1, ex, *ret, env);
            lemma_grows(s, s1, s2);
            lemma_interned_grows(s, s2, TyKind::Func { params: ps, ret: r, is_c: false });
        },
        TypeKind::ExternFunction { params, ret } => {
            lemma_params_grow(p, s, ex, params, env);
            let (s1, ps) = lowered_params(p, s, ex, params, env);
            law_lower_grows(p, s1, ex, *ret, env);
            let (s2, r) = lowered(p, s1, ex, *ret, env);
            lemma_grows(s, s1, s2);
            lemma_interned_grows(s, s2, TyKind::Func { params: ps, ret: r, is_c: true });
        },
        TypeKind::Union(ms) => {
            law_lower_list_grows(p, s, ex, ms, env);
            let (s1, ts) = lowered_list(p, s, ex, ms, env);
            crate::ty::law_union_grows(s1.kinds, ts);
            lemma_grows(s, s1, s1.with(crate::ty::union_of(s1.kinds, ts)).0);
        },
        TypeKind::Pointer(x) => {
            law_lower_grows(p, s, ex, *x, env);
            let (s1, t) = lowered(p, s, ex, *x, env);
            lemma_interned_grows(s, s1, TyKind::Ptr(t));
        },
        TypeKind::Array { elem, len } => {
            law_lower_grows(p, s, ex, *elem, env);
            let (s1, t) = lowered(p, s, ex, *elem, env);
            let (s2, n) = array_len(p, s1, *len);
            lemma_grows(s, s1, s2);
            lemma_interned_grows(s, s2, TyKind::Array { elem: t, len: n });
        },
        TypeKind::SelfType => {},
        TypeKind::Paren(x) => law_lower_grows(p, s, ex, *x, env),
    }
}

/// So does lowering several types.
pub proof fn law_lower_list_grows(p: Program, s: Low, ex: List<DefId>, l: List<Type>, env: TypeEnv)
    ensures
        grows(s, lowered_list(p, s, ex, l, env).0),
    decreases budget(p, ex), l, 0int,
{
    match l {
        List::Nil => {},
        List::Cons(h, t) => {
            law_lower_grows(p, s, ex, *h, env);
            let s1 = lowered(p, s, ex, *h, env).0;
            law_lower_list_grows(p, s1, ex, *t, env);
            lemma_grows(s, s1, lowered_list(p, s1, ex, *t, env).0);
        },
    }
}

proof fn lemma_params_grow(p: Program, s: Low, ex: List<DefId>, l: List<ExternParam>, env: TypeEnv)
    ensures
        grows(s, lowered_params(p, s, ex, l, env).0),
    decreases budget(p, ex), l, 0int,
{
    match l {
        List::Nil => {},
        List::Cons(h, t) => {
            law_lower_grows(p, s, ex, h.ty, env);
            let s1 = lowered(p, s, ex, h.ty, env).0;
            lemma_params_grow(p, s1, ex, *t, env);
            lemma_grows(s, s1, lowered_params(p, s1, ex, *t, env).0);
        },
    }
}

proof fn lemma_named_grows(p: Program, s: Low, ex: List<DefId>, node: Type, env: TypeEnv)
    ensures
        grows(s, lowered_named(p, s, ex, node, env).0),
    decreases budget(p, ex), node, 1int,
{
    match node.kind {
        TypeKind::Named { name, generics } => match (primitive_ty(name.name), generic_ty(env.generics, name.name)) {
            (None, None) => match p.type_named(env.module, name.name) {
                None => {},
                Some(def) => {
                    law_lower_list_grows(p, s, ex, generics, env);
                    let (s1, args) = lowered_list(p, s, ex, generics, env);
                    let s2 = arity_checked(
                        p,
                        s1,
                        name.name,
                        p.def_of(def).generics.count(),
                        args.count(),
                        node.span,
                    );
                    lemma_grows(s, s1, s2);
                    match p.def_of(def).kind {
                        DefKind::TypeAlias => {
                            lemma_alias_grows(p, s2, ex, def, args, node, env);
                            lemma_grows(s, s2, alias_expanded(p, s2, ex, def, args, node, env).0);
                        },
                        DefKind::Struct | DefKind::Interface | DefKind::ExternStruct | DefKind::ExternType => {
                            lemma_interned_grows(s, s2, TyKind::Named { def, args });
                        },
                        other => {
                            let text = "`"@ + p.text(name.name) + "` is a "@ + other.text()
                                + " and cannot be used as a type"@;
                            lemma_grows(s, s2, s2.fail(Problem::Message(text), node.span));
                        },
                    }
                },
            },
            _ => {},
        },
        _ => {},
    }
}

proof fn lemma_alias_grows(
    p: Program,
    s: Low,
    ex: List<DefId>,
    def: DefId,
    args: List<Ty>,
    node: Type,
    env: TypeEnv,
)
    ensures
        grows(s, alias_expanded(p, s, ex, def, args, node, env).0),
    decreases budget(p, ex), node, 0int,
{
    if !has_def(ex, def) && def.0 < p.defs@.len() && def.0 != u32::MAX {
        match p.def_of(def).item {
            Some(ItemKind::TypeAlias(alias)) => {
                lemma_budget(p, ex, def);
                let sub = TypeEnv {
                    module: p.def_of(def).module,
                    generics: alias_generics(p, p.def_of(def).generics, args, 0, List::Nil),
                    self_ty: env.self_ty,
                };
                let ex1 = List::Cons(Box::new(def), Box::new(ex));
                law_lower_grows(p, s, ex1, alias.aliased, sub);
                let s1 = lowered(p, s, ex1, alias.aliased, sub).0;
                lemma_grows(
                    s,
                    s1,
                    s1.fail(Problem::RecursiveAlias { name: p.text(p.def_of(def).name) }, node.span),
                );
            },
            _ => {},
        }
    }
}

} // verus!
