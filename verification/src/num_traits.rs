//! Scalar traits for the numeric tower.
//!
//! Every vector, quaternion and matrix type is generic over a scalar that
//! provides constants (`Zero`, `One`, `Two`, `NegOne`) and operations
//! (`Arith`, `Sqrt`, `SinCos`, `ScreenCast`).  Each executable operation is
//! pinned to a spec-level counterpart, so contracts further up the tower can
//! state results componentwise and exactly.

use vstd::prelude::*;

verus! {

use vstd::arithmetic::div_mod::{
    lemma_div_pos_is_pos,
    lemma_div_nonincreasing,
    lemma_div_is_ordered_by_denominator,
};

/// A scalar with an additive identity.
pub trait Zero: Sized + Copy {
    /// The additive identity, at the specification level.
    spec fn zero_s() -> Self;

    fn zero() -> (r: Self)
        ensures
            r == Self::zero_s(),
    ;
}

/// A scalar with a multiplicative identity.
pub trait One: Sized + Copy {
    /// The multiplicative identity, at the specification level.
    spec fn one_s() -> Self;

    fn one() -> (r: Self)
        ensures
            r == Self::one_s(),
    ;
}

/// A scalar that knows the constant two (used to halve angles and lengths).
pub trait Two: Sized + Copy {
    spec fn two_s() -> Self;

    fn two() -> (r: Self)
        ensures
            r == Self::two_s(),
    ;
}

/// A scalar that knows the constant minus one.
pub trait NegOne: Sized + Copy {
    spec fn neg_one_s() -> Self;

    fn neg_one() -> (r: Self)
        ensures
            r == Self::neg_one_s(),
    ;
}

/// Shorthand for a scalar that has both identities.
pub trait Consts: Zero + One {
}

impl<T: Zero + One> Consts for T {
}

/// Total arithmetic on a scalar.
///
/// Every operation is total; what an operation does on a given scalar type is
/// fixed by that type's spec functions, and the executable methods are bound
/// to them exactly.  Division is the one partial operation: its divisor must
/// not be the additive identity (use [`div_or_zero`] where the divisor may be
/// zero; the library treats a zero divisor as a degenerate input that yields
/// zero, never an error).
pub trait Arith: Zero + One {
    spec fn add_s(self, o: Self) -> Self;

    spec fn sub_s(self, o: Self) -> Self;

    spec fn mul_s(self, o: Self) -> Self;

    spec fn neg_s(self) -> Self;

    spec fn div_s(self, o: Self) -> Self;

    fn add(self, o: Self) -> (r: Self)
        ensures
            r == self.add_s(o),
    ;

    fn sub(self, o: Self) -> (r: Self)
        ensures
            r == self.sub_s(o),
    ;

    fn mul(self, o: Self) -> (r: Self)
        ensures
            r == self.mul_s(o),
    ;

    fn neg(self) -> (r: Self)
        ensures
            r == self.neg_s(),
    ;

    fn div(self, o: Self) -> (r: Self)
        requires
            o != Self::zero_s(),
        ensures
            r == self.div_s(o),
    ;

    /// Decidable equality on the scalar.
    fn equals(self, o: Self) -> (r: bool)
        ensures
            r == (self == o),
    ;
}

/// What a division with the library's degenerate-input policy returns:
/// the quotient, or zero when the divisor is zero.
pub open spec fn div_or_zero_s<T: Arith>(a: T, b: T) -> T {
    if b == T::zero_s() {
        T::zero_s()
    } else {
        a.div_s(b)
    }
}

/// Divide, returning zero on a zero divisor instead of failing.
pub fn div_or_zero<T: Arith>(a: T, b: T) -> (r: T)
    ensures
        r == div_or_zero_s(a, b),
{
    if b.equals(T::zero()) {
        T::zero()
    } else {
        a.div(b)
    }
}

impl Zero for i64 {
    open spec fn zero_s() -> i64 {
        0
    }

    fn zero() -> i64 {
        0
    }
}

impl One for i64 {
    open spec fn one_s() -> i64 {
        1
    }

    fn one() -> i64 {
        1
    }
}

impl Two for i64 {
    open spec fn two_s() -> i64 {
        2
    }

    fn two() -> i64 {
        2
    }
}

impl NegOne for i64 {
    open spec fn neg_one_s() -> i64 {
        -1i64
    }

    fn neg_one() -> i64 {
        -1
    }
}

/// Truncating integer division (rounds toward zero), for a nonzero divisor.
pub open spec fn trunc_div_s(x: int, d: int) -> int
    recommends
        d != 0,
{
    if x == 0 {
        0
    } else if x > 0 && d > 0 {
        x / d
    } else if x < 0 && d < 0 {
        (x * -1) / (d * -1)
    } else if x < 0 {
        ((x * -1) / d) * -1
    } else {
        (x / (d * -1)) * -1
    }
}

/// Truncating division of one `i64` by a nonzero `i64` stays in range, except
/// for the lone overflowing pair of the minimum value and minus one.
proof fn lemma_trunc_div_in_range(x: int, d: int)
    requires
        i64::MIN <= x <= i64::MAX,
        i64::MIN <= d <= i64::MAX,
        d != 0,
        !(x == i64::MIN && d == -1),
    ensures
        i64::MIN <= trunc_div_s(x, d) <= i64::MAX,
{
    if x == 0 {
    } else if x > 0 && d > 0 {
        lemma_div_pos_is_pos(x, d);
        lemma_div_nonincreasing(x, d);
    } else if x < 0 && d < 0 {
        lemma_div_pos_is_pos(x * -1, d * -1);
        lemma_div_nonincreasing(x * -1, d * -1);
        if x == i64::MIN {
            lemma_div_is_ordered_by_denominator(x * -1, 2, d * -1);
            assert((x * -1) / 2 <= i64::MAX);
        }
    } else if x < 0 {
        lemma_div_pos_is_pos(x * -1, d);
        lemma_div_nonincreasing(x * -1, d);
    } else {
        lemma_div_pos_is_pos(x, d * -1);
        lemma_div_nonincreasing(x, d * -1);
    }
}

impl Arith for i64 {
    open spec fn add_s(self, o: i64) -> i64 {
        vstd::wrapping::i64_specs::wrapping_add(self, o)
    }

    open spec fn sub_s(self, o: i64) -> i64 {
        vstd::wrapping::i64_specs::wrapping_sub(self, o)
    }

    open spec fn mul_s(self, o: i64) -> i64 {
        vstd::wrapping::i64_specs::wrapping_mul(self, o)
    }

    open spec fn neg_s(self) -> i64 {
        vstd::wrapping::i64_specs::wrapping_sub(0, self)
    }

    open spec fn div_s(self, o: i64) -> i64 {
        if self == i64::MIN && o == -1 {
            i64::MIN
        } else {
            trunc_div_s(self as int, o as int) as i64
        }
    }

    fn add(self, o: i64) -> i64 {
        self.wrapping_add(o)
    }

    fn sub(self, o: i64) -> i64 {
        self.wrapping_sub(o)
    }

    fn mul(self, o: i64) -> i64 {
        self.wrapping_mul(o)
    }

    fn neg(self) -> i64 {
        0i64.wrapping_sub(self)
    }

    fn div(self, o: i64) -> (r: i64) {
        if self == i64::MIN && o == -1 {
            i64::MIN
        } else {
            proof {
                lemma_trunc_div_in_range(self as int, o as int);
            }
            match self.checked_div(o) {
                Some(q) => q,
                None => {
                    proof {
                        assert(false);
                    }
                    0
                },
            }
        }
    }

    fn equals(self, o: i64) -> bool {
        self == o
    }
}

/// A scalar with a square root.
pub trait Sqrt: Sized + Copy {
    spec fn sqrt_s(self) -> Self;

    fn sqrt(self) -> (r: Self)
        ensures
            r == self.sqrt_s(),
    ;
}

/// The integer square root: the greatest `r` with `r * r <= n`, and zero for
/// a negative argument.
pub open spec fn spec_isqrt(n: int) -> int {
    if n <= 0 {
        0
    } else {
        choose|r: int| 0 <= r && #[trigger] (r * r) <= n && n < (r + 1) * (r + 1)
    }
}

/// At most one integer is the rounded-down square root of `n`.
proof fn lemma_isqrt_unique(n: int, a: int, b: int)
    by (nonlinear_arith)
    requires
        0 <= a && a * a <= n && n < (a + 1) * (a + 1),
        0 <= b && b * b <= n && n < (b + 1) * (b + 1),
    ensures
        a == b,
{
}

impl Sqrt for i64 {
    open spec fn sqrt_s(self) -> i64 {
        spec_isqrt(self as int) as i64
    }

    fn sqrt(self) -> (r: i64) {
        if self <= 0 {
            return 0;
        }
        let mut lo: i64 = 0;
        let mut hi: i64 = 3037000500;
        proof {
            assert(hi * hi > i64::MAX);
        }
        while lo + 1 < hi
            invariant
                0 <= lo < hi <= 3037000500,
                lo * lo <= self,
                self < hi * hi,
            decreases hi - lo,
        {
            let gap: u64 = ((hi - lo) as u64) / 2;
            let mid: i64 = lo + (gap as i64);
            proof {
                assert(lo < mid < hi);
                assert(mid * mid <= 3037000499i64 * 3037000499i64) by (nonlinear_arith)
                    requires
                        0 <= mid <= 3037000499i64,
                ;
            }
            if mid * mid <= self {
                lo = mid;
            } else {
                hi = mid;
            }
        }
        proof {
            assert(0 <= lo && lo * lo <= self && self < (lo + 1) * (lo + 1));
            let c = spec_isqrt(self as int);
            assert(0 <= c && c * c <= self && (self as int) < (c + 1) * (c + 1));
            lemma_isqrt_unique(self as int, c, lo as int);
        }
        lo
    }
}

impl ScreenCast for i64 {
    open spec fn from_usize_s(u: usize) -> i64 {
        if u <= i64::MAX {
            u as i64
        } else {
            i64::MAX
        }
    }

    open spec fn into_isize_s(self) -> isize {
        if self > isize::MAX {
            isize::MAX
        } else if self < isize::MIN {
            isize::MIN
        } else {
            self as isize
        }
    }

    fn from_usize(u: usize) -> (r: i64) {
        if (u as u64) <= (i64::MAX as u64) {
            u as i64
        } else {
            i64::MAX
        }
    }

    fn into_isize(self) -> (r: isize) {
        if self > (isize::MAX as i64) {
            isize::MAX
        } else if self < (isize::MIN as i64) {
            isize::MIN
        } else {
            self as isize
        }
    }
}

/// A scalar with trigonometric functions and a degree-to-radian conversion.
///
/// No type in this library implements it: it exists for the scalar types that
/// users of the library bring (floating-point numbers live outside the
/// verified tower), just as rotation angles do in practice.
pub trait SinCos: Sized + Copy {
    spec fn sin_s(self) -> Self;

    spec fn cos_s(self) -> Self;

    spec fn to_radians_s(self) -> Self;

    fn sin(self) -> (r: Self)
        ensures
            r == self.sin_s(),
    ;

    fn cos(self) -> (r: Self)
        ensures
            r == self.cos_s(),
    ;

    fn sin_cos(self) -> (r: (Self, Self))
        ensures
            r == (self.sin_s(), self.cos_s()),
    ;

    fn to_radians(self) -> (r: Self)
        ensures
            r == self.to_radians_s(),
    ;
}

/// Conversions between a scalar and the screen's integer coordinates.
///
/// Both directions saturate at the representable range, so they are total.
pub trait ScreenCast: Sized + Copy {
    spec fn from_usize_s(u: usize) -> Self;

    spec fn into_isize_s(self) -> isize;

    fn from_usize(u: usize) -> (r: Self)
        ensures
            r == Self::from_usize_s(u),
    ;

    fn into_isize(self) -> (r: isize)
        ensures
            r == self.into_isize_s(),
    ;
}

} // verus!
