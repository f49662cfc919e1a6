//! The members of the numeric types' namespaces.
use vstd::prelude::*;
use crate::check::{Ck, Cx};
use crate::names::Symbol;
use crate::results::NumIntrinsic;
use crate::words::{
    WRAPPING_ADD, WRAPPING_SUB, WRAPPING_MUL, WRAPPING_DIV, WRAPPING_REM, WRAPPING_NEG, WRAPPING_SHL, WRAPPING_SHR, SATURATING_ADD, SATURATING_SUB, SATURATING_MUL, SATURATING_DIV, SATURATING_REM, SATURATING_NEG, SATURATING_SHL, SATURATING_SHR, CHECKED_ADD, CHECKED_SUB, CHECKED_MUL, CHECKED_DIV, CHECKED_REM, CHECKED_NEG, CHECKED_SHL, CHECKED_SHR, OVERFLOWING_ADD, OVERFLOWING_SUB, OVERFLOWING_MUL, OVERFLOWING_DIV, OVERFLOWING_REM, OVERFLOWING_NEG, OVERFLOWING_SHL, OVERFLOWING_SHR, C_NAN, INFINITY, IS_FINITE, IS_INFINITE, IS_NAN, MAX, MIN, NEG_INFINITY,
};

verus! {

/// The operation of a `family_operation` name.
pub open spec fn arith_op(name: Symbol) -> Option<u8> {
    if name == WRAPPING_ADD || name == SATURATING_ADD || name == CHECKED_ADD || name == OVERFLOWING_ADD {
        Some(0)
    } else {
        if name == WRAPPING_SUB || name == SATURATING_SUB || name == CHECKED_SUB || name == OVERFLOWING_SUB {
            Some(1)
        } else {
            if name == WRAPPING_MUL || name == SATURATING_MUL || name == CHECKED_MUL || name == OVERFLOWING_MUL {
                Some(2)
            } else {
                if name == WRAPPING_DIV || name == SATURATING_DIV || name == CHECKED_DIV || name == OVERFLOWING_DIV {
                    Some(3)
                } else {
                    if name == WRAPPING_REM
                        || name == SATURATING_REM
                        || name == CHECKED_REM
                        || name == OVERFLOWING_REM {
                        Some(4)
                    } else {
                        if name == WRAPPING_NEG
                            || name == SATURATING_NEG
                            || name == CHECKED_NEG
                            || name == OVERFLOWING_NEG {
                            Some(5)
                        } else {
                            if name == WRAPPING_SHL
                                || name == SATURATING_SHL
                                || name == CHECKED_SHL
                                || name == OVERFLOWING_SHL {
                                Some(6)
                            } else {
                                if name == WRAPPING_SHR
                                    || name == SATURATING_SHR
                                    || name == CHECKED_SHR
                                    || name == OVERFLOWING_SHR {
                                    Some(7)
                                } else {
                                    None
                                }
                            }
                        }
                    }
                }
            }
        }
    }
}

/// The operation of a `family_operation` name.
fn op_of(name: Symbol) -> (r: Option<u8>)
    ensures
        r == arith_op(name),
{
    if name == WRAPPING_ADD || name == SATURATING_ADD || name == CHECKED_ADD || name == OVERFLOWING_ADD {
        Some(0)
    } else if name == WRAPPING_SUB || name == SATURATING_SUB || name == CHECKED_SUB || name == OVERFLOWING_SUB {
        Some(1)
    } else if name == WRAPPING_MUL || name == SATURATING_MUL || name == CHECKED_MUL || name == OVERFLOWING_MUL {
        Some(2)
    } else if name == WRAPPING_DIV || name == SATURATING_DIV || name == CHECKED_DIV || name == OVERFLOWING_DIV {
        Some(3)
    } else if name == WRAPPING_REM || name == SATURATING_REM || name == CHECKED_REM || name == OVERFLOWING_REM {
        Some(4)
    } else if name == WRAPPING_NEG || name == SATURATING_NEG || name == CHECKED_NEG || name == OVERFLOWING_NEG {
        Some(5)
    } else if name == WRAPPING_SHL || name == SATURATING_SHL || name == CHECKED_SHL || name == OVERFLOWING_SHL {
        Some(6)
    } else if name == WRAPPING_SHR || name == SATURATING_SHR || name == CHECKED_SHR || name == OVERFLOWING_SHR {
        Some(7)
    } else {
        None
    }
}

/// The family of a `family_operation` name.
pub open spec fn arith_family(name: Symbol) -> u8 {
    if name == SATURATING_ADD
        || name == SATURATING_SUB
        || name == SATURATING_MUL
        || name == SATURATING_DIV
        || name == SATURATING_REM
        || name == SATURATING_NEG
        || name == SATURATING_SHL
        || name == SATURATING_SHR {
        1
    } else {
        if name == CHECKED_ADD
            || name == CHECKED_SUB
            || name == CHECKED_MUL
            || name == CHECKED_DIV
            || name == CHECKED_REM
            || name == CHECKED_NEG
            || name == CHECKED_SHL
            || name == CHECKED_SHR {
            2
        } else {
            if name == OVERFLOWING_ADD
                || name == OVERFLOWING_SUB
                || name == OVERFLOWING_MUL
                || name == OVERFLOWING_DIV
                || name == OVERFLOWING_REM
                || name == OVERFLOWING_NEG
                || name == OVERFLOWING_SHL
                || name == OVERFLOWING_SHR {
                3
            } else {
                0
            }
        }
    }
}

/// The family of a `family_operation` name.
fn family_of(name: Symbol) -> (r: u8)
    ensures
        r == arith_family(name),
{
    if name == SATURATING_ADD
        || name == SATURATING_SUB
        || name == SATURATING_MUL
        || name == SATURATING_DIV
        || name == SATURATING_REM
        || name == SATURATING_NEG
        || name == SATURATING_SHL
        || name == SATURATING_SHR {
        1
    } else if name == CHECKED_ADD || name == CHECKED_SUB || name == CHECKED_MUL || name == CHECKED_DIV || name == CHECKED_REM || name == CHECKED_NEG || name == CHECKED_SHL || name == CHECKED_SHR {
        2
    } else if name == OVERFLOWING_ADD || name == OVERFLOWING_SUB || name == OVERFLOWING_MUL || name == OVERFLOWING_DIV || name == OVERFLOWING_REM || name == OVERFLOWING_NEG || name == OVERFLOWING_SHL || name == OVERFLOWING_SHR {
        3
    } else {
        0
    }
}

impl Ck {
    /// The constant `name` of the numeric type `tyname`.
    #[verifier::opaque]
    pub open spec fn num_constant(self, tyname: Symbol, name: Symbol) -> Option<NumIntrinsic> {
        match self.int_named(tyname) {
            Some(ty) => if name == MIN {
                Some(NumIntrinsic::IntBound { ty, max: false })
            } else {
                if name == MAX {
                    Some(NumIntrinsic::IntBound { ty, max: true })
                } else {
                    None
                }
            },
            None => match self.float_named(tyname) {
                Some(ty) => if name == INFINITY {
                    Some(NumIntrinsic::FloatConst { ty, kind: 0 })
                } else {
                    if name == NEG_INFINITY {
                        Some(NumIntrinsic::FloatConst { ty, kind: 1 })
                    } else {
                        if name == C_NAN {
                            Some(NumIntrinsic::FloatConst { ty, kind: 2 })
                        } else {
                            None
                        }
                    }
                },
                None => None,
            },
        }
    }

    /// The method `name` of the numeric type `tyname`.
    #[verifier::opaque]
    pub open spec fn num_method(self, tyname: Symbol, name: Symbol) -> Option<NumIntrinsic> {
        match self.int_named(tyname) {
            Some(ty) => match arith_op(name) {
                Some(op) => Some(NumIntrinsic::IntArith { ty, family: arith_family(name), op }),
                None => None,
            },
            None => match self.float_named(tyname) {
                Some(ty) => if name == IS_NAN {
                    Some(NumIntrinsic::FloatPred { ty, kind: 0 })
                } else {
                    if name == IS_INFINITE {
                        Some(NumIntrinsic::FloatPred { ty, kind: 1 })
                    } else {
                        if name == IS_FINITE {
                            Some(NumIntrinsic::FloatPred { ty, kind: 2 })
                        } else {
                            None
                        }
                    }
                },
                None => None,
            },
        }
    }
}

impl<'a> Cx<'a> {
    /// The constant `name` of the numeric type `tyname`.
    pub fn num_constant(&self, tyname: Symbol, name: Symbol) -> (r: Option<NumIntrinsic>)
        ensures
            r == self.view().num_constant(tyname, name),
    {
        proof {
            reveal(Ck::num_constant);
        }
        match self.int_named(tyname) {
            Some(ty) => if name == MIN {
                Some(NumIntrinsic::IntBound { ty, max: false })
            } else if name == MAX {
                Some(NumIntrinsic::IntBound { ty, max: true })
            } else {
                None
            },
            None => match self.float_named(tyname) {
                Some(ty) => if name == INFINITY {
                    Some(NumIntrinsic::FloatConst { ty, kind: 0 })
                } else if name == NEG_INFINITY {
                    Some(NumIntrinsic::FloatConst { ty, kind: 1 })
                } else if name == C_NAN {
                    Some(NumIntrinsic::FloatConst { ty, kind: 2 })
                } else {
                    None
                },
                None => None,
            },
        }
    }

    /// The method `name` of the numeric type `tyname`.
    pub fn num_method(&self, tyname: Symbol, name: Symbol) -> (r: Option<NumIntrinsic>)
        ensures
            r == self.view().num_method(tyname, name),
    {
        proof {
            reveal(Ck::num_method);
        }
        match self.int_named(tyname) {
            Some(ty) => match op_of(name) {
                Some(op) => Some(NumIntrinsic::IntArith { ty, family: family_of(name), op }),
                None => None,
            },
            None => match self.float_named(tyname) {
                Some(ty) => if name == IS_NAN {
                    Some(NumIntrinsic::FloatPred { ty, kind: 0 })
                } else if name == IS_INFINITE {
                    Some(NumIntrinsic::FloatPred { ty, kind: 1 })
                } else if name == IS_FINITE {
                    Some(NumIntrinsic::FloatPred { ty, kind: 2 })
                } else {
                    None
                },
                None => None,
            },
        }
    }
}

} // verus!
