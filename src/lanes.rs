//! Scalar helpers that mirror the GPU's integer min/max and scalar-to-vector
//! swizzles; a vector of `N` lanes is held as an array.
use vstd::prelude::*;

verus! {

/// Lane-wise minimum and maximum as the GPU's integer instructions compute them.
pub trait GpuMinMax: Sized {
    fn minv(self, other: Self) -> Self;

    fn maxv(self, other: Self) -> Self;
}

impl GpuMinMax for i32 {
    fn minv(self, other: Self) -> (r: Self)
        ensures
            r == (if other < self { other } else { self }),
    {
        self.min(other)
    }

    fn maxv(self, other: Self) -> (r: Self)
        ensures
            r == (if other < self { self } else { other }),
    {
        self.max(other)
    }
}

impl GpuMinMax for u32 {
    fn minv(self, other: Self) -> (r: Self)
        ensures
            r == (if other < self { other } else { self }),
    {
        self.min(other)
    }

    fn maxv(self, other: Self) -> (r: Self)
        ensures
            r == (if other < self { self } else { other }),
    {
        self.max(other)
    }
}

/// Broadcasts an unsigned scalar into every lane of a vector.
pub trait U32ScalarSwizzle: Sized {
    fn xxxx(self) -> [u32; 4];

    fn xxx(self) -> [u32; 3];

    fn xx(self) -> [u32; 2];
}

impl U32ScalarSwizzle for u32 {
    fn xxxx(self) -> (r: [u32; 4])
        ensures
            r@ == seq![self, self, self, self],
    {
        [self, self, self, self]
    }

    fn xxx(self) -> (r: [u32; 3])
        ensures
            r@ == seq![self, self, self],
    {
        [self, self, self]
    }

    fn xx(self) -> (r: [u32; 2])
        ensures
            r@ == seq![self, self],
    {
        [self, self]
    }
}

/// Broadcasts a signed scalar into every lane of a vector.
pub trait I32ScalarSwizzle: Sized {
    fn xxxx(self) -> [i32; 4];

    fn xxx(self) -> [i32; 3];

    fn xx(self) -> [i32; 2];
}

impl I32ScalarSwizzle for i32 {
    fn xxxx(self) -> (r: [i32; 4])
        ensures
            r@ == seq![self, self, self, self],
    {
        [self, self, self, self]
    }

    fn xxx(self) -> (r: [i32; 3])
        ensures
            r@ == seq![self, self, self],
    {
        [self, self, self]
    }

    fn xx(self) -> (r: [i32; 2])
        ensures
            r@ == seq![self, self],
    {
        [self, self]
    }
}

} // verus!
