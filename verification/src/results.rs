//! What the checker resolves names, calls and coercions to.
use vstd::prelude::*;
use crate::ids::{DefId, LocalId};
use crate::list::List;
use crate::names::Symbol;
use crate::ty::Ty;
use crate::words::{ABORT, EXIT, PANIC, PANIC_WITH, PRINT, PRINTLN};

verus! {

/// What a name in value position stands for.
#[derive(Clone, Copy, PartialEq, Eq, Structural, Debug)]
pub enum ValueRes {
    Local(LocalId),
    Function(DefId),
    Global(DefId),
    StructCtor(DefId),
    Method(DefId),
    Builtin(Builtin),
}

/// An implicit coercion.
#[derive(Clone, Copy, PartialEq, Eq, Structural, Debug)]
pub enum Adjust {
    /// Into a union or `dynamic`.
    Widen(Ty),
    /// Into an interface object.
    WidenDyn(Ty),
    /// Out of a box, where flow narrowing shows which variant it holds.
    Unbox(Ty),
}

impl Adjust {
    pub open spec fn target(self) -> Ty {
        match self {
            Adjust::Widen(t) | Adjust::WidenDyn(t) | Adjust::Unbox(t) => t,
        }
    }

    pub fn to(self) -> (r: Ty)
        ensures
            r == self.target(),
    {
        match self {
            Adjust::Widen(t) | Adjust::WidenDyn(t) | Adjust::Unbox(t) => t,
        }
    }
}

/// A toolchain function that the code generator implements itself.
#[derive(Clone, Copy, PartialEq, Eq, Structural, Debug)]
pub enum Builtin {
    Print,
    Println,
    Panic,
    PanicWith,
    Exit,
    Abort,
}

impl Builtin {
    pub open spec fn named(name: Symbol) -> Option<Builtin> {
        if name == PRINT {
            Some(Builtin::Print)
        } else if name == PRINTLN {
            Some(Builtin::Println)
        } else if name == PANIC {
            Some(Builtin::Panic)
        } else if name == PANIC_WITH {
            Some(Builtin::PanicWith)
        } else if name == EXIT {
            Some(Builtin::Exit)
        } else if name == ABORT {
            Some(Builtin::Abort)
        } else {
            None
        }
    }

    pub fn from_name(name: Symbol) -> (r: Option<Builtin>)
        ensures
            r == Builtin::named(name),
    {
        if name == PRINT {
            Some(Builtin::Print)
        } else if name == PRINTLN {
            Some(Builtin::Println)
        } else if name == PANIC {
            Some(Builtin::Panic)
        } else if name == PANIC_WITH {
            Some(Builtin::PanicWith)
        } else if name == EXIT {
            Some(Builtin::Exit)
        } else if name == ABORT {
            Some(Builtin::Abort)
        } else {
            None
        }
    }
}

/// How a builtin `.clone()` copies.
#[derive(Clone, Copy, PartialEq, Eq, Structural, Debug)]
pub enum CloneKind {
    /// The value can be shared.
    Identity,
    ListShallow,
    MapShallow,
    /// The elements are cloned one by one.
    ListDeep,
    MapDeep,
}

/// A member of a numeric type's namespace, such as `i32.MAX`.
#[derive(Clone, Copy, PartialEq, Eq, Structural, Debug)]
pub enum NumIntrinsic {
    IntBound { ty: Ty, max: bool },
    /// 0: infinity, 1: negative infinity, 2: not a number.
    FloatConst { ty: Ty, kind: u8 },
    /// 0: is not a number, 1: is infinite, 2: is finite.
    FloatPred { ty: Ty, kind: u8 },
    /// Families: 0 wrapping, 1 saturating, 2 checked, 3 overflowing. Operations:
    /// 0 add, 1 sub, 2 mul, 3 div, 4 rem, 5 neg, 6 shl, 7 shr.
    IntArith { ty: Ty, family: u8, op: u8 },
}

} // verus!
