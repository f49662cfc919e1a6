//! Identifiers of definitions, modules and local variables.
use vstd::prelude::*;

verus! {

/// A definition: an index into the program's definition table. Definition 0
/// is the root module, so a well-known definition that is absent is `DefId(0)`.
#[derive(Clone, Copy, PartialEq, Eq, Structural, Debug)]
pub struct DefId(pub u32);

/// A module: an index into the program's module table.
#[derive(Clone, Copy, PartialEq, Eq, Structural, Debug)]
pub struct ModId(pub u32);

/// A local variable; ids are unique over the whole program.
#[derive(Clone, Copy, PartialEq, Eq, Structural, Debug)]
pub struct LocalId(pub u32);

/// The root module.
pub const ROOT_MODULE: u32 = 0;

impl ModId {
    pub fn root() -> (r: ModId)
        ensures
            r == ModId(ROOT_MODULE),
    {
        ModId(ROOT_MODULE)
    }
}

} // verus!
