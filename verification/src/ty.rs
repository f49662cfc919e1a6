//! Interned semantic types.
//!
//! A [`Ty`] is a position in the table of a [`TyCtxt`]; equal types have equal
//! positions, and the parts of a type stand before it.
use vstd::prelude::*;
use crate::ids::DefId;
use crate::list::{dup, List};
use crate::names::Symbol;

verus! {

/// A handle to an interned type.
pub type Ty = u32;

pub const ERROR_TY: Ty = 0;
pub const NEVER_TY: Ty = 1;
pub const BOOL_TY: Ty = 2;
pub const CHAR_TY: Ty = 3;
pub const STR_TY: Ty = 4;
pub const NULL_TY: Ty = 5;
pub const DYNAMIC_TY: Ty = 6;
pub const I8_TY: Ty = 7;
pub const I16_TY: Ty = 8;
pub const I32_TY: Ty = 9;
pub const I64_TY: Ty = 10;
pub const U8_TY: Ty = 11;
pub const U16_TY: Ty = 12;
pub const U32_TY: Ty = 13;
pub const U64_TY: Ty = 14;
pub const ISIZE_TY: Ty = 15;
pub const USIZE_TY: Ty = 16;
pub const F32_TY: Ty = 17;
pub const F64_TY: Ty = 18;

/// The integer types.
#[derive(Clone, Copy, PartialEq, Eq, Structural, Debug)]
pub enum IntTy {
    I8,
    I16,
    I32,
    I64,
    U8,
    U16,
    U32,
    U64,
    Isize,
    Usize,
}

/// The floating-point types.
#[derive(Clone, Copy, PartialEq, Eq, Structural, Debug)]
pub enum FloatTy {
    F32,
    F64,
}

impl IntTy {
    /// The integer type with that name.
    pub open spec fn named(name: Symbol) -> Option<IntTy> {
        if name == crate::words::I8 {
            Some(IntTy::I8)
        } else if name == crate::words::I16 {
            Some(IntTy::I16)
        } else if name == crate::words::I32 {
            Some(IntTy::I32)
        } else if name == crate::words::I64 {
            Some(IntTy::I64)
        } else if name == crate::words::U8 {
            Some(IntTy::U8)
        } else if name == crate::words::U16 {
            Some(IntTy::U16)
        } else if name == crate::words::U32 {
            Some(IntTy::U32)
        } else if name == crate::words::U64 {
            Some(IntTy::U64)
        } else if name == crate::words::ISIZE {
            Some(IntTy::Isize)
        } else if name == crate::words::USIZE {
            Some(IntTy::Usize)
        } else {
            None
        }
    }

    pub fn from_name(name: Symbol) -> (r: Option<IntTy>)
        ensures
            r == IntTy::named(name),
    {
        if name == crate::words::I8 {
            Some(IntTy::I8)
        } else if name == crate::words::I16 {
            Some(IntTy::I16)
        } else if name == crate::words::I32 {
            Some(IntTy::I32)
        } else if name == crate::words::I64 {
            Some(IntTy::I64)
        } else if name == crate::words::U8 {
            Some(IntTy::U8)
        } else if name == crate::words::U16 {
            Some(IntTy::U16)
        } else if name == crate::words::U32 {
            Some(IntTy::U32)
        } else if name == crate::words::U64 {
            Some(IntTy::U64)
        } else if name == crate::words::ISIZE {
            Some(IntTy::Isize)
        } else if name == crate::words::USIZE {
            Some(IntTy::Usize)
        } else {
            None
        }
    }

    /// The width in bits; `None` for the pointer-width types.
    pub open spec fn width(self) -> Option<u32> {
        match self {
            IntTy::I8 => Some(8),
            IntTy::I16 => Some(16),
            IntTy::I32 => Some(32),
            IntTy::I64 => Some(64),
            IntTy::U8 => Some(8),
            IntTy::U16 => Some(16),
            IntTy::U32 => Some(32),
            IntTy::U64 => Some(64),
            IntTy::Isize | IntTy::Usize => None,
        }
    }

    pub fn bits(self) -> (r: Option<u32>)
        ensures
            r == self.width(),
    {
        match self {
            IntTy::I8 => Some(8),
            IntTy::I16 => Some(16),
            IntTy::I32 => Some(32),
            IntTy::I64 => Some(64),
            IntTy::U8 => Some(8),
            IntTy::U16 => Some(16),
            IntTy::U32 => Some(32),
            IntTy::U64 => Some(64),
            IntTy::Isize | IntTy::Usize => None,
        }
    }

    pub open spec fn signed(self) -> bool {
        match self {
            IntTy::I8 | IntTy::I16 | IntTy::I32 | IntTy::I64 | IntTy::Isize => true,
            _ => false,
        }
    }

    pub fn is_signed(self) -> (r: bool)
        ensures
            r == self.signed(),
    {
        match self {
            IntTy::I8 | IntTy::I16 | IntTy::I32 | IntTy::I64 | IntTy::Isize => true,
            _ => false,
        }
    }

    /// The name of the type.
    pub open spec fn text(self) -> Seq<char> {
        match self {
            IntTy::I8 => "i8"@,
            IntTy::I16 => "i16"@,
            IntTy::I32 => "i32"@,
            IntTy::I64 => "i64"@,
            IntTy::U8 => "u8"@,
            IntTy::U16 => "u16"@,
            IntTy::U32 => "u32"@,
            IntTy::U64 => "u64"@,
            IntTy::Isize => "isize"@,
            IntTy::Usize => "usize"@,
        }
    }

    pub fn name(self) -> (r: &'static str)
        ensures
            r@ == self.text(),
    {
        match self {
            IntTy::I8 => "i8",
            IntTy::I16 => "i16",
            IntTy::I32 => "i32",
            IntTy::I64 => "i64",
            IntTy::U8 => "u8",
            IntTy::U16 => "u16",
            IntTy::U32 => "u32",
            IntTy::U64 => "u64",
            IntTy::Isize => "isize",
            IntTy::Usize => "usize",
        }
    }

    /// The handle of the type.
    pub open spec fn handle(self) -> Ty {
        match self {
            IntTy::I8 => I8_TY,
            IntTy::I16 => I16_TY,
            IntTy::I32 => I32_TY,
            IntTy::I64 => I64_TY,
            IntTy::U8 => U8_TY,
            IntTy::U16 => U16_TY,
            IntTy::U32 => U32_TY,
            IntTy::U64 => U64_TY,
            IntTy::Isize => ISIZE_TY,
            IntTy::Usize => USIZE_TY,
        }
    }
}

impl FloatTy {
    /// The floating-point type with that name.
    pub open spec fn named(name: Symbol) -> Option<FloatTy> {
        if name == crate::words::F32 {
            Some(FloatTy::F32)
        } else if name == crate::words::F64 {
            Some(FloatTy::F64)
        } else {
            None
        }
    }

    pub fn from_name(name: Symbol) -> (r: Option<FloatTy>)
        ensures
            r == FloatTy::named(name),
    {
        if name == crate::words::F32 {
            Some(FloatTy::F32)
        } else if name == crate::words::F64 {
            Some(FloatTy::F64)
        } else {
            None
        }
    }

    /// The handle of the type.
    pub open spec fn handle(self) -> Ty {
        match self {
            FloatTy::F32 => F32_TY,
            FloatTy::F64 => F64_TY,
        }
    }
}

/// The structure of a type.
#[derive(Debug)]
pub enum TyKind {
    /// The type of an expression that did not check; it goes with everything.
    Error,
    /// The type of an expression that does not complete.
    Never,
    Bool,
    Char,
    Str,
    Null,
    /// Accepts any value, and yields one only by narrowing.
    Dynamic,
    Int(IntTy),
    Float(FloatTy),
    /// A generic parameter.
    Param(DefId),
    /// A struct, interface or C type applied to its arguments.
    Named { def: DefId, args: List<Ty> },
    Tuple(List<Ty>),
    Func { params: List<Ty>, ret: Ty, is_c: bool },
    /// Two or more variants, in increasing order, none of them a union.
    Union(List<Ty>),
    /// A raw pointer.
    Ptr(Ty),
    /// A fixed-size C array.
    Array { elem: Ty, len: u64 },
}

/// The types that every table starts with.
pub open spec fn primitive_kinds() -> Seq<TyKind> {
    seq![
        TyKind::Error,
        TyKind::Never,
        TyKind::Bool,
        TyKind::Char,
        TyKind::Str,
        TyKind::Null,
        TyKind::Dynamic,
        TyKind::Int(IntTy::I8),
        TyKind::Int(IntTy::I16),
        TyKind::Int(IntTy::I32),
        TyKind::Int(IntTy::I64),
        TyKind::Int(IntTy::U8),
        TyKind::Int(IntTy::U16),
        TyKind::Int(IntTy::U32),
        TyKind::Int(IntTy::U64),
        TyKind::Int(IntTy::Isize),
        TyKind::Int(IntTy::Usize),
        TyKind::Float(FloatTy::F32),
        TyKind::Float(FloatTy::F64),
    ]
}

/// The structure of type `t` in table `k`; a handle that is not in the table has
/// none and counts as an error.
pub open spec fn kind_of(k: Seq<TyKind>, t: Ty) -> TyKind {
    if t < k.len() {
        k[t as int]
    } else {
        TyKind::Error
    }
}

/// The first position at or after `i` that holds `x`.
pub open spec fn find_kind(k: Seq<TyKind>, x: TyKind, i: int) -> Option<int>
    decreases k.len() - i,
{
    if i < 0 || i >= k.len() {
        None
    } else if k[i] == x {
        Some(i)
    } else {
        find_kind(k, x, i + 1)
    }
}

/// The table after `x` was interned, and its handle.
pub open spec fn interned(k: Seq<TyKind>, x: TyKind) -> (Seq<TyKind>, Ty) {
    match find_kind(k, x, 0) {
        Some(i) => (k, (i as usize) as u32),
        None => (k.push(x), (k.len() as usize) as u32),
    }
}

// -- lists of types -------------------------------------------------------------------

pub open spec fn has_ty(l: List<Ty>, t: Ty) -> bool
    decreases l,
{
    match l {
        List::Nil => false,
        List::Cons(h, u) => *h == t || has_ty(*u, t),
    }
}

pub fn contains_ty(l: &List<Ty>, t: Ty) -> (r: bool)
    ensures
        r == has_ty(*l, t),
    decreases l,
{
    match l {
        List::Nil => false,
        List::Cons(h, u) => **h == t || contains_ty(u, t),
    }
}

fn same_tys(a: &List<Ty>, b: &List<Ty>) -> (r: bool)
    ensures
        r == (*a == *b),
    decreases a,
{
    match (a, b) {
        (List::Nil, List::Nil) => true,
        (List::Cons(h, t), List::Cons(i, u)) => **h == **i && same_tys(t, u),
        _ => false,
    }
}

/// `l` with `t` put in its place; an increasing list stays one.
pub open spec fn with_ty(l: List<Ty>, t: Ty) -> List<Ty>
    decreases l,
{
    match l {
        List::Nil => List::one(t),
        List::Cons(h, u) => if t < *h {
            List::Cons(Box::new(t), Box::new(l))
        } else if t == *h {
            l
        } else {
            List::Cons(h, Box::new(with_ty(*u, t)))
        },
    }
}

fn insert_ty(l: List<Ty>, t: Ty) -> (r: List<Ty>)
    ensures
        r == with_ty(l, t),
    decreases l,
{
    match l {
        List::Nil => List::single(t),
        List::Cons(h, u) => {
            if t < *h {
                List::Cons(Box::new(t), Box::new(List::Cons(h, u)))
            } else if t == *h {
                List::Cons(h, u)
            } else {
                List::Cons(h, Box::new(insert_ty(*u, t)))
            }
        },
    }
}

pub open spec fn with_tys(l: List<Ty>, ts: List<Ty>) -> List<Ty>
    decreases ts,
{
    match ts {
        List::Nil => l,
        List::Cons(h, t) => with_tys(with_ty(l, *h), *t),
    }
}

fn insert_tys(l: List<Ty>, ts: &List<Ty>) -> (r: List<Ty>)
    ensures
        r == with_tys(l, *ts),
    decreases ts,
{
    match ts {
        List::Nil => l,
        List::Cons(h, t) => insert_tys(insert_ty(l, **h), t),
    }
}

// -- unions ---------------------------------------------------------------------------

/// The alternatives of a type: those of a union, else the type itself.
pub open spec fn variants_of(k: Seq<TyKind>, t: Ty) -> List<Ty> {
    match kind_of(k, t) {
        TyKind::Union(ms) => ms,
        _ => List::one(t),
    }
}

/// The alternatives that `t` adds to a union: `never` adds none.
pub open spec fn contributes(k: Seq<TyKind>, t: Ty) -> List<Ty> {
    match kind_of(k, t) {
        TyKind::Union(ms) => ms,
        TyKind::Never => List::Nil,
        _ => List::one(t),
    }
}

/// The alternatives of the union of `l`, added to `acc`.
pub open spec fn union_members(k: Seq<TyKind>, l: List<Ty>, acc: List<Ty>) -> List<Ty>
    decreases l,
{
    match l {
        List::Nil => acc,
        List::Cons(h, t) => union_members(k, *t, with_tys(acc, contributes(k, *h))),
    }
}

/// The union with the alternatives `ms`: `never` if there is none, the only one
/// if there is one.
pub open spec fn union_with(k: Seq<TyKind>, ms: List<Ty>) -> (Seq<TyKind>, Ty) {
    match ms {
        List::Nil => (k, NEVER_TY),
        List::Cons(h, t) => if *t is Nil {
            (k, *h)
        } else {
            interned(k, TyKind::Union(ms))
        },
    }
}

/// The union of the types `l`: nested unions are flattened, repetitions and
/// `never` drop out, and the order in which the types are given does not matter.
pub open spec fn union_of(k: Seq<TyKind>, l: List<Ty>) -> (Seq<TyKind>, Ty) {
    union_with(k, union_members(k, l, List::Nil))
}

/// Every type of `a` is in `b`.
pub open spec fn all_in(a: List<Ty>, b: List<Ty>) -> bool
    decreases a,
{
    match a {
        List::Nil => true,
        List::Cons(h, t) => has_ty(b, *h) && all_in(*t, b),
    }
}

fn all_contained(a: &List<Ty>, b: &List<Ty>) -> (r: bool)
    ensures
        r == all_in(*a, *b),
    decreases a,
{
    match a {
        List::Nil => true,
        List::Cons(h, t) => contains_ty(b, **h) && all_contained(t, b),
    }
}

/// Every alternative of `a` is one of `b`.
pub open spec fn union_subtype(k: Seq<TyKind>, a: Ty, b: Ty) -> bool {
    all_in(variants_of(k, a), variants_of(k, b))
}

/// The types of `l` that are not in `drop`.
pub open spec fn without(l: List<Ty>, drop: List<Ty>) -> List<Ty>
    decreases l,
{
    match l {
        List::Nil => List::Nil,
        List::Cons(h, t) => if has_ty(drop, *h) {
            without(*t, drop)
        } else {
            List::Cons(h, Box::new(without(*t, drop)))
        },
    }
}

pub fn difference(l: &List<Ty>, drop: &List<Ty>) -> (r: List<Ty>)
    ensures
        r == without(*l, *drop),
    decreases l,
{
    match l {
        List::Nil => List::Nil,
        List::Cons(h, t) => {
            let rest = difference(t, drop);
            if contains_ty(drop, **h) {
                rest
            } else {
                List::Cons(Box::new(**h), Box::new(rest))
            }
        },
    }
}

pub fn dup_kind(k: &TyKind) -> (r: TyKind)
    ensures
        r == *k,
{
    match k {
        TyKind::Error => TyKind::Error,
        TyKind::Never => TyKind::Never,
        TyKind::Bool => TyKind::Bool,
        TyKind::Char => TyKind::Char,
        TyKind::Str => TyKind::Str,
        TyKind::Null => TyKind::Null,
        TyKind::Dynamic => TyKind::Dynamic,
        TyKind::Int(i) => TyKind::Int(*i),
        TyKind::Float(f) => TyKind::Float(*f),
        TyKind::Param(d) => TyKind::Param(*d),
        TyKind::Named { def, args } => TyKind::Named { def: *def, args: dup(args) },
        TyKind::Tuple(es) => TyKind::Tuple(dup(es)),
        TyKind::Func { params, ret, is_c } => TyKind::Func { params: dup(params), ret: *ret, is_c: *is_c },
        TyKind::Union(ms) => TyKind::Union(dup(ms)),
        TyKind::Ptr(t) => TyKind::Ptr(*t),
        TyKind::Array { elem, len } => TyKind::Array { elem: *elem, len: *len },
    }
}

fn same_kind(a: &TyKind, b: &TyKind) -> (r: bool)
    ensures
        r == (*a == *b),
{
    match (a, b) {
        (TyKind::Error, TyKind::Error) => true,
        (TyKind::Never, TyKind::Never) => true,
        (TyKind::Bool, TyKind::Bool) => true,
        (TyKind::Char, TyKind::Char) => true,
        (TyKind::Str, TyKind::Str) => true,
        (TyKind::Null, TyKind::Null) => true,
        (TyKind::Dynamic, TyKind::Dynamic) => true,
        (TyKind::Int(x), TyKind::Int(y)) => *x == *y,
        (TyKind::Float(x), TyKind::Float(y)) => *x == *y,
        (TyKind::Param(x), TyKind::Param(y)) => *x == *y,
        (TyKind::Named { def: d, args: x }, TyKind::Named { def: e, args: y }) => *d == *e && same_tys(x, y),
        (TyKind::Tuple(x), TyKind::Tuple(y)) => same_tys(x, y),
        (
            TyKind::Func { params: p, ret: r, is_c: c },
            TyKind::Func { params: q, ret: s, is_c: d },
        ) => same_tys(p, q) && *r == *s && *c == *d,
        (TyKind::Union(x), TyKind::Union(y)) => same_tys(x, y),
        (TyKind::Ptr(x), TyKind::Ptr(y)) => *x == *y,
        (TyKind::Array { elem: x, len: m }, TyKind::Array { elem: y, len: n }) => *x == *y && *m == *n,
        _ => false,
    }
}

/// The table of interned types.
#[derive(Debug)]
pub struct TyCtxt {
    pub kinds: Vec<TyKind>,
}

impl TyCtxt {
    pub open spec fn view(&self) -> Seq<TyKind> {
        self.kinds@
    }

    pub fn new() -> (r: TyCtxt)
        ensures
            r.view() == primitive_kinds(),
    {
        let mut kinds: Vec<TyKind> = Vec::new();
        kinds.push(TyKind::Error);
        kinds.push(TyKind::Never);
        kinds.push(TyKind::Bool);
        kinds.push(TyKind::Char);
        kinds.push(TyKind::Str);
        kinds.push(TyKind::Null);
        kinds.push(TyKind::Dynamic);
        kinds.push(TyKind::Int(IntTy::I8));
        kinds.push(TyKind::Int(IntTy::I16));
        kinds.push(TyKind::Int(IntTy::I32));
        kinds.push(TyKind::Int(IntTy::I64));
        kinds.push(TyKind::Int(IntTy::U8));
        kinds.push(TyKind::Int(IntTy::U16));
        kinds.push(TyKind::Int(IntTy::U32));
        kinds.push(TyKind::Int(IntTy::U64));
        kinds.push(TyKind::Int(IntTy::Isize));
        kinds.push(TyKind::Int(IntTy::Usize));
        kinds.push(TyKind::Float(FloatTy::F32));
        kinds.push(TyKind::Float(FloatTy::F64));
        assert(kinds@ =~= primitive_kinds());
        TyCtxt { kinds }
    }

    /// The structure of a type.
    pub fn kind(&self, t: Ty) -> (r: TyKind)
        ensures
            r == kind_of(self.view(), t),
    {
        let i: usize = t as usize;
        if i < self.kinds.len() {
            dup_kind(&self.kinds[i])
        } else {
            TyKind::Error
        }
    }

    /// The handle of a type structure, which is added if it is new.
    pub fn intern(&mut self, x: TyKind) -> (r: Ty)
        ensures
            (final(self).view(), r) == interned(old(self).view(), x),
    {
        let mut i: usize = 0;
        while i < self.kinds.len()
            invariant
                i <= self.kinds.len(),
                self.view() == old(self).view(),
                find_kind(self.view(), x, 0) == find_kind(self.view(), x, i as int),
            decreases self.kinds.len() - i,
        {
            if same_kind(&self.kinds[i], &x) {
                return i as u32;
            }
            i = i + 1;
        }
        let n: u32 = self.kinds.len() as u32;
        self.kinds.push(x);
        n
    }

    pub fn int_ty(&self, it: IntTy) -> (r: Ty)
        ensures
            r == it.handle(),
    {
        match it {
            IntTy::I8 => I8_TY,
            IntTy::I16 => I16_TY,
            IntTy::I32 => I32_TY,
            IntTy::I64 => I64_TY,
            IntTy::U8 => U8_TY,
            IntTy::U16 => U16_TY,
            IntTy::U32 => U32_TY,
            IntTy::U64 => U64_TY,
            IntTy::Isize => ISIZE_TY,
            IntTy::Usize => USIZE_TY,
        }
    }

    pub fn float_ty(&self, ft: FloatTy) -> (r: Ty)
        ensures
            r == ft.handle(),
    {
        match ft {
            FloatTy::F32 => F32_TY,
            FloatTy::F64 => F64_TY,
        }
    }

    pub fn mk_param(&mut self, d: DefId) -> (r: Ty)
        ensures
            (final(self).view(), r) == interned(old(self).view(), TyKind::Param(d)),
    {
        self.intern(TyKind::Param(d))
    }

    pub fn mk_named(&mut self, def: DefId, args: List<Ty>) -> (r: Ty)
        ensures
            (final(self).view(), r) == interned(old(self).view(), TyKind::Named { def, args }),
    {
        self.intern(TyKind::Named { def, args })
    }

    pub fn mk_tuple(&mut self, es: List<Ty>) -> (r: Ty)
        ensures
            (final(self).view(), r) == interned(old(self).view(), TyKind::Tuple(es)),
    {
        self.intern(TyKind::Tuple(es))
    }

    pub fn mk_func(&mut self, params: List<Ty>, ret: Ty, is_c: bool) -> (r: Ty)
        ensures
            (final(self).view(), r) == interned(old(self).view(), TyKind::Func { params, ret, is_c }),
    {
        self.intern(TyKind::Func { params, ret, is_c })
    }

    pub fn mk_ptr(&mut self, t: Ty) -> (r: Ty)
        ensures
            (final(self).view(), r) == interned(old(self).view(), TyKind::Ptr(t)),
    {
        self.intern(TyKind::Ptr(t))
    }

    fn members(&self, l: &List<Ty>, acc: List<Ty>) -> (r: List<Ty>)
        ensures
            r == union_members(self.view(), *l, acc),
        decreases l,
    {
        match l {
            List::Nil => acc,
            List::Cons(h, t) => {
                let parts = match self.kind(**h) {
                    TyKind::Union(ms) => ms,
                    TyKind::Never => List::Nil,
                    _ => List::single(**h),
                };
                self.members(t, insert_tys(acc, &parts))
            },
        }
    }

    /// The union of the given types.
    pub fn mk_union(&mut self, l: List<Ty>) -> (r: Ty)
        ensures
            (final(self).view(), r) == union_of(old(self).view(), l),
    {
        let ms = self.members(&l, List::Nil);
        match ms {
            List::Nil => NEVER_TY,
            List::Cons(h, t) => {
                if t.is_empty() {
                    *h
                } else {
                    self.intern(TyKind::Union(List::Cons(h, t)))
                }
            },
        }
    }

    pub fn is_error(&self, t: Ty) -> (r: bool)
        ensures
            r == (kind_of(self.view(), t) is Error),
    {
        match self.kind(t) {
            TyKind::Error => true,
            _ => false,
        }
    }

    pub fn is_never(&self, t: Ty) -> (r: bool)
        ensures
            r == (kind_of(self.view(), t) is Never),
    {
        match self.kind(t) {
            TyKind::Never => true,
            _ => false,
        }
    }

    pub fn variants(&self, t: Ty) -> (r: List<Ty>)
        ensures
            r == variants_of(self.view(), t),
    {
        match self.kind(t) {
            TyKind::Union(ms) => ms,
            _ => List::single(t),
        }
    }

    pub fn is_union_subtype(&self, a: Ty, b: Ty) -> (r: bool)
        ensures
            r == union_subtype(self.view(), a, b),
    {
        all_contained(&self.variants(a), &self.variants(b))
    }
}

// -- laws -----------------------------------------------------------------------------

proof fn lemma_find_kind(k: Seq<TyKind>, x: TyKind, i: int)
    requires
        0 <= i,
    ensures
        match find_kind(k, x, i) {
            Some(j) => i <= j < k.len() && k[j] == x,
            None => forall|j: int| i <= j < k.len() ==> k[j] != x,
        },
    decreases k.len() - i,
{
    if i < k.len() && k[i] != x {
        lemma_find_kind(k, x, i + 1);
    }
}

proof fn lemma_find_kind_push(k: Seq<TyKind>, x: TyKind, i: int)
    requires
        0 <= i <= k.len(),
        find_kind(k, x, i) is None,
    ensures
        find_kind(k.push(x), x, i) == Some(k.len() as int),
    decreases k.len() - i,
{
    if i < k.len() {
        lemma_find_kind_push(k, x, i + 1);
    }
}

/// The handle of an interned type stands for that type.
pub proof fn law_interned_kind(k: Seq<TyKind>, x: TyKind)
    requires
        k.len() < u32::MAX,
    ensures
        kind_of(interned(k, x).0, interned(k, x).1) == x,
{
    lemma_find_kind(k, x, 0);
}

/// Interning changes no type that was there before.
pub proof fn law_interned_keeps(k: Seq<TyKind>, x: TyKind, t: Ty)
    requires
        t < k.len(),
    ensures
        kind_of(interned(k, x).0, t) == kind_of(k, t),
{
}

/// Equal types get equal handles: interning a second time changes nothing.
pub proof fn law_interned_twice(k: Seq<TyKind>, x: TyKind)
    requires
        k.len() < u32::MAX,
    ensures
        interned(interned(k, x).0, x) == interned(k, x),
{
    if find_kind(k, x, 0) is None {
        lemma_find_kind_push(k, x, 0);
    }
}

/// Strictly increasing, so without repetitions.
pub open spec fn increasing(l: List<Ty>) -> bool
    decreases l,
{
    match l {
        List::Nil => true,
        List::Cons(h, t) => match *t {
            List::Nil => true,
            List::Cons(u, _) => *h < *u && increasing(*t),
        },
    }
}

proof fn lemma_increasing_head(l: List<Ty>, t: Ty)
    requires
        increasing(l),
        l is Cons,
        has_ty(l, t),
    ensures
        *l->Cons_0 <= t,
    decreases l,
{
    reveal_with_fuel(has_ty, 2);
    let u = *l->Cons_1;
    if *l->Cons_0 != t {
        lemma_increasing_head(u, t);
    }
}

proof fn lemma_with_ty(l: List<Ty>, t: Ty)
    requires
        increasing(l),
    ensures
        increasing(with_ty(l, t)),
        forall|x: Ty| #[trigger] has_ty(with_ty(l, t), x) <==> has_ty(l, x) || x == t,
        l is Cons ==> *with_ty(l, t)->Cons_0 == (if t < *l->Cons_0 {
            t
        } else {
            *l->Cons_0
        }),
        with_ty(l, t) is Cons,
    decreases l,
{
    reveal_with_fuel(has_ty, 2);
    match l {
        List::Nil => {
            assert forall|x: Ty| #[trigger] has_ty(with_ty(l, t), x) <==> has_ty(l, x) || x == t by {
                assert(with_ty(l, t) == List::Cons(Box::new(t), Box::new(List::Nil)));
            }
        },
        List::Cons(h, u) => {
            lemma_with_ty(*u, t);
            assert forall|x: Ty| #[trigger] has_ty(with_ty(l, t), x) <==> has_ty(l, x) || x == t by {
                assert(has_ty(with_ty(*u, t), x) <==> has_ty(*u, x) || x == t);
            }
        },
    }
}

proof fn lemma_with_tys(l: List<Ty>, ts: List<Ty>)
    requires
        increasing(l),
    ensures
        increasing(with_tys(l, ts)),
        forall|x: Ty| #[trigger] has_ty(with_tys(l, ts), x) <==> has_ty(l, x) || has_ty(ts, x),
    decreases ts,
{
    match ts {
        List::Nil => {},
        List::Cons(h, t) => {
            lemma_with_ty(l, *h);
            lemma_with_tys(with_ty(l, *h), *t);
            assert forall|x: Ty| #[trigger] has_ty(with_tys(l, ts), x) <==> has_ty(l, x) || has_ty(ts, x) by {
                assert(has_ty(with_ty(l, *h), x) <==> has_ty(l, x) || x == *h);
            }
        },
    }
}

/// Some type of `l` contributes the alternative `x`.
pub open spec fn contributed(k: Seq<TyKind>, l: List<Ty>, x: Ty) -> bool {
    exists|t: Ty| #[trigger] has_ty(l, t) && has_ty(contributes(k, t), x)
}

proof fn lemma_contributed(k: Seq<TyKind>, l: List<Ty>, x: Ty)
    requires
        l is Cons,
    ensures
        contributed(k, l, x) <==> has_ty(contributes(k, *l->Cons_0), x) || contributed(k, *l->Cons_1, x),
{
    let h = *l->Cons_0;
    let t = *l->Cons_1;
    if contributed(k, l, x) {
        let w = choose|w: Ty| #[trigger] has_ty(l, w) && has_ty(contributes(k, w), x);
        if w != h {
            assert(has_ty(t, w));
        }
    }
    if has_ty(contributes(k, h), x) {
        assert(has_ty(l, h));
    }
    if contributed(k, t, x) {
        let w = choose|w: Ty| #[trigger] has_ty(t, w) && has_ty(contributes(k, w), x);
        assert(has_ty(l, w));
    }
}

proof fn lemma_union_members(k: Seq<TyKind>, l: List<Ty>, acc: List<Ty>)
    requires
        increasing(acc),
    ensures
        increasing(union_members(k, l, acc)),
        forall|x: Ty| #[trigger]
            has_ty(union_members(k, l, acc), x) <==> has_ty(acc, x) || contributed(k, l, x),
    decreases l,
{
    match l {
        List::Nil => {
            assert forall|x: Ty| #[trigger] has_ty(union_members(k, l, acc), x) <==> has_ty(acc, x) || contributed(
                k,
                l,
                x,
            ) by {
                assert(!contributed(k, l, x));
            }
        },
        List::Cons(h, t) => {
            let next = with_tys(acc, contributes(k, *h));
            lemma_with_tys(acc, contributes(k, *h));
            lemma_union_members(k, *t, next);
            assert forall|x: Ty| #[trigger] has_ty(union_members(k, l, acc), x) <==> has_ty(acc, x) || contributed(
                k,
                l,
                x,
            ) by {
                lemma_contributed(k, l, x);
                assert(has_ty(next, x) <==> has_ty(acc, x) || has_ty(contributes(k, *h), x));
                assert(has_ty(union_members(k, *t, next), x) <==> has_ty(next, x) || contributed(k, *t, x));
            }
        },
    }
}

/// Increasing lists of the same types are the same list.
proof fn lemma_increasing_unique(a: List<Ty>, b: List<Ty>)
    requires
        increasing(a),
        increasing(b),
        forall|x: Ty| #[trigger] has_ty(a, x) <==> has_ty(b, x),
    ensures
        a == b,
    decreases a,
{
    match (a, b) {
        (List::Nil, List::Nil) => {},
        (List::Nil, List::Cons(h, _)) => {
            assert(has_ty(b, *h));
            assert(has_ty(a, *h));
        },
        (List::Cons(h, _), List::Nil) => {
            assert(has_ty(a, *h));
            assert(has_ty(b, *h));
        },
        (List::Cons(h, t), List::Cons(i, u)) => {
            assert(has_ty(a, *h));
            assert(has_ty(b, *i));
            lemma_increasing_head(b, *h);
            lemma_increasing_head(a, *i);
            assert(*h == *i);
            assert forall|x: Ty| #[trigger] has_ty(*t, x) <==> has_ty(*u, x) by {
                if has_ty(*t, x) {
                    lemma_increasing_head(*t, x);
                    assert(has_ty(a, x));
                    assert(has_ty(b, x));
                }
                if has_ty(*u, x) {
                    lemma_increasing_head(*u, x);
                    assert(has_ty(b, x));
                    assert(has_ty(a, x));
                }
            }
            lemma_increasing_unique(*t, *u);
        },
    }
}

/// A union depends only on which types it is made of: neither their order nor
/// how often one is given matters.
pub proof fn law_union_order(k: Seq<TyKind>, a: List<Ty>, b: List<Ty>)
    requires
        forall|x: Ty| #[trigger] has_ty(a, x) <==> has_ty(b, x),
    ensures
        union_of(k, a) == union_of(k, b),
{
    lemma_union_members(k, a, List::Nil);
    lemma_union_members(k, b, List::Nil);
    let ma = union_members(k, a, List::Nil);
    let mb = union_members(k, b, List::Nil);
    assert forall|x: Ty| #[trigger] has_ty(ma, x) <==> has_ty(mb, x) by {
        assert(has_ty(ma, x) <==> contributed(k, a, x));
        assert(has_ty(mb, x) <==> contributed(k, b, x));
        if contributed(k, a, x) {
            let t = choose|t: Ty| #[trigger] has_ty(a, t) && has_ty(contributes(k, t), x);
            assert(has_ty(b, t));
        }
        if contributed(k, b, x) {
            let t = choose|t: Ty| #[trigger] has_ty(b, t) && has_ty(contributes(k, t), x);
            assert(has_ty(a, t));
        }
    }
    lemma_increasing_unique(ma, mb);
}

/// `never` adds nothing to a union.
pub proof fn law_union_never(k: Seq<TyKind>, l: List<Ty>)
    requires
        kind_of(k, NEVER_TY) is Never,
    ensures
        union_of(k, List::Cons(Box::new(NEVER_TY), Box::new(l))) == union_of(k, l),
{
}

/// The union of one type is the type itself.
pub proof fn law_union_single(k: Seq<TyKind>, t: Ty)
    requires
        !(kind_of(k, t) is Union),
        !(kind_of(k, t) is Never),
    ensures
        union_of(k, List::one(t)) == (k, t),
{
    reveal_with_fuel(union_members, 2);
    reveal_with_fuel(with_tys, 2);
}

/// Every union in the table has at least two alternatives, in increasing order,
/// and none of them is a union or `never`.
pub open spec fn unions_flat(k: Seq<TyKind>) -> bool {
    forall|i: int| 0 <= i < k.len() ==> #[trigger] union_flat(k, k[i])
}

pub open spec fn union_flat(k: Seq<TyKind>, x: TyKind) -> bool {
    match x {
        TyKind::Union(ms) => {
            &&& increasing(ms)
            &&& ms is Cons && *ms->Cons_1 is Cons
            &&& forall|t: Ty| #[trigger] has_ty(ms, t) ==> plain_in(k, t)
        },
        _ => true,
    }
}

/// `t` is in the table, and neither a union nor `never`.
pub open spec fn plain_in(k: Seq<TyKind>, t: Ty) -> bool {
    t < k.len() && !(kind_of(k, t) is Union) && !(kind_of(k, t) is Never)
}

proof fn lemma_interned_flat(k: Seq<TyKind>, x: TyKind)
    requires
        unions_flat(k),
        union_flat(k, x),
    ensures
        unions_flat(interned(k, x).0),
{
    let m = interned(k, x).0;
    assert forall|i: int| 0 <= i < m.len() implies #[trigger] union_flat(m, m[i]) by {
        let y = m[i];
        assert(union_flat(k, y)) by {
            if i < k.len() {
                assert(union_flat(k, k[i]));
            }
        }
        match y {
            TyKind::Union(ms) => {
                assert forall|t: Ty| #[trigger] has_ty(ms, t) implies plain_in(m, t) by {
                    assert(plain_in(k, t));
                }
            },
            _ => {},
        }
    }
}

/// Making a type that is not a union keeps the unions of the table flat.
pub proof fn law_interned_flat(k: Seq<TyKind>, x: TyKind)
    requires
        unions_flat(k),
        !(x is Union),
    ensures
        unions_flat(interned(k, x).0),
{
    lemma_interned_flat(k, x);
}

/// Making a union of types of the table keeps the unions of the table flat.
pub proof fn law_union_flat(k: Seq<TyKind>, l: List<Ty>)
    requires
        unions_flat(k),
        forall|t: Ty| #[trigger] has_ty(l, t) ==> t < k.len(),
    ensures
        unions_flat(union_of(k, l).0),
{
    lemma_union_members(k, l, List::Nil);
    let ms = union_members(k, l, List::Nil);
    assert forall|x: Ty| #[trigger] has_ty(ms, x) implies plain_in(k, x) by {
        assert(contributed(k, l, x));
        let t = choose|t: Ty| #[trigger] has_ty(l, t) && has_ty(contributes(k, t), x);
        assert(union_flat(k, k[t as int]));
        reveal_with_fuel(has_ty, 2);
    }
    match ms {
        List::Nil => {},
        List::Cons(_, u) => {
            if !(*u is Nil) {
                lemma_interned_flat(k, TyKind::Union(ms));
            }
        },
    }
}

/// The union of alternatives that already are those of a union has exactly these.
pub proof fn law_union_of_flat(k: Seq<TyKind>, ms: List<Ty>)
    requires
        union_flat(k, TyKind::Union(ms)),
    ensures
        union_of(k, ms) == interned(k, TyKind::Union(ms)),
{
    let all = union_members(k, ms, List::Nil);
    lemma_union_members(k, ms, List::Nil);
    assert forall|x: Ty| #[trigger] has_ty(all, x) <==> has_ty(ms, x) by {
        reveal_with_fuel(has_ty, 2);
        if contributed(k, ms, x) {
            let t = choose|t: Ty| #[trigger] has_ty(ms, t) && has_ty(contributes(k, t), x);
            assert(plain_in(k, t));
        }
        if has_ty(ms, x) {
            assert(plain_in(k, x));
            assert(has_ty(contributes(k, x), x));
        }
    }
    lemma_increasing_unique(all, ms);
}

/// The alternatives of a union are those of its parts, without `never`.
pub proof fn law_union_variants(k: Seq<TyKind>, l: List<Ty>, x: Ty, some: Ty)
    requires
        unions_flat(k),
        k.len() < u32::MAX,
        forall|t: Ty| #[trigger] has_ty(l, t) ==> t < k.len(),
        contributed(k, l, some),
    ensures
        has_ty(variants_of(union_of(k, l).0, union_of(k, l).1), x) <==> contributed(k, l, x),
{
    lemma_union_members(k, l, List::Nil);
    let ms = union_members(k, l, List::Nil);
    assert(has_ty(ms, some));
    assert(has_ty(ms, x) <==> contributed(k, l, x));
    match ms {
        List::Nil => {},
        List::Cons(h, u) => {
            if *u is Nil {
                assert(has_ty(ms, *h));
                assert(contributed(k, l, *h));
                let t = choose|t: Ty| #[trigger] has_ty(l, t) && has_ty(contributes(k, t), *h);
                assert(union_flat(k, k[t as int]));
                reveal_with_fuel(has_ty, 2);
                assert(plain_in(k, *h));
            } else {
                law_interned_kind(k, TyKind::Union(ms));
            }
        },
    }
}

/// The unions of the table that everything starts with are flat.
pub proof fn law_primitives_flat()
    ensures
        unions_flat(primitive_kinds()),
{
}

/// Interning only adds to the table.
pub proof fn law_interned_grows(k: Seq<TyKind>, x: TyKind)
    ensures
        crate::list::extends(k, interned(k, x).0),
{
}

/// Making a union only adds to the table.
pub proof fn law_union_grows(k: Seq<TyKind>, l: List<Ty>)
    ensures
        crate::list::extends(k, union_of(k, l).0),
{
    law_interned_grows(k, TyKind::Union(union_members(k, l, List::Nil)));
}

} // verus!
