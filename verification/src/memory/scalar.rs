//! The element types a memory handle may hold: plain integer scalars with a
//! device representation, an all-zero-bytes value and a 64-bit image for
//! argument marshaling.

use vstd::prelude::*;

verus! {

/// A plain value that can live in device-reachable memory and cross the
/// kernel-call boundary by value.
pub trait Scalar: Copy {
    /// The value whose bytes are all zero.
    spec fn spec_zero() -> Self;

    /// The value's bits, extended to 64, as the marshaling layer passes them.
    spec fn spec_bits(&self) -> u64;

    /// The value whose bytes are all zero.
    fn zero() -> (r: Self)
        ensures
            r == Self::spec_zero(),
    ;

    /// The value's bits, extended to 64, as the marshaling layer passes them.
    fn to_bits(&self) -> (b: u64)
        ensures
            b == self.spec_bits(),
    ;
}

impl Scalar for u8 {
    open spec fn spec_zero() -> u8 {
        0u8
    }

    open spec fn spec_bits(&self) -> u64 {
        *self as u64
    }

    fn zero() -> u8 {
        0
    }

    fn to_bits(&self) -> u64 {
        *self as u64
    }
}

impl Scalar for u16 {
    open spec fn spec_zero() -> u16 {
        0u16
    }

    open spec fn spec_bits(&self) -> u64 {
        *self as u64
    }

    fn zero() -> u16 {
        0
    }

    fn to_bits(&self) -> u64 {
        *self as u64
    }
}

impl Scalar for u32 {
    open spec fn spec_zero() -> u32 {
        0u32
    }

    open spec fn spec_bits(&self) -> u64 {
        *self as u64
    }

    fn zero() -> u32 {
        0
    }

    fn to_bits(&self) -> u64 {
        *self as u64
    }
}

impl Scalar for u64 {
    open spec fn spec_zero() -> u64 {
        0u64
    }

    open spec fn spec_bits(&self) -> u64 {
        *self
    }

    fn zero() -> u64 {
        0
    }

    fn to_bits(&self) -> u64 {
        *self
    }
}

impl Scalar for usize {
    open spec fn spec_zero() -> usize {
        0usize
    }

    open spec fn spec_bits(&self) -> u64 {
        *self as u64
    }

    fn zero() -> usize {
        0
    }

    fn to_bits(&self) -> u64 {
        *self as u64
    }
}

impl Scalar for i8 {
    open spec fn spec_zero() -> i8 {
        0i8
    }

    open spec fn spec_bits(&self) -> u64 {
        *self as u64
    }

    fn zero() -> i8 {
        0
    }

    fn to_bits(&self) -> u64 {
        *self as u64
    }
}

impl Scalar for i16 {
    open spec fn spec_zero() -> i16 {
        0i16
    }

    open spec fn spec_bits(&self) -> u64 {
        *self as u64
    }

    fn zero() -> i16 {
        0
    }

    fn to_bits(&self) -> u64 {
        *self as u64
    }
}

impl Scalar for i32 {
    open spec fn spec_zero() -> i32 {
        0i32
    }

    open spec fn spec_bits(&self) -> u64 {
        *self as u64
    }

    fn zero() -> i32 {
        0
    }

    fn to_bits(&self) -> u64 {
        *self as u64
    }
}

impl Scalar for i64 {
    open spec fn spec_zero() -> i64 {
        0i64
    }

    open spec fn spec_bits(&self) -> u64 {
        *self as u64
    }

    fn zero() -> i64 {
        0
    }

    fn to_bits(&self) -> u64 {
        *self as u64
    }
}

impl Scalar for isize {
    open spec fn spec_zero() -> isize {
        0isize
    }

    open spec fn spec_bits(&self) -> u64 {
        *self as u64
    }

    fn zero() -> isize {
        0
    }

    fn to_bits(&self) -> u64 {
        *self as u64
    }
}

} // verus!
