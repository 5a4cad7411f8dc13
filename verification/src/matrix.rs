//! Square matrices, column-major: each field is one basis column.

use vstd::prelude::*;

pub mod matrix2;
pub mod matrix3;
pub mod matrix4;

verus! {

/// A type with an identity element (the identity matrix, the identity
/// rotation).
pub trait Unit: Sized + Copy {
    spec fn unit_s() -> Self;

    fn unit() -> (r: Self)
        ensures
            r == Self::unit_s(),
    ;
}

} // verus!
