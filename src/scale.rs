use vstd::prelude::*;

use crate::dimension::lemma_i32_product_fits_i64;

verus! {

/// A positive scale factor, held exactly as a product of prime powers:
/// `2^p2 * 3^p3 * 5^p5 * 7^p7 * 773^p773`. These primes cover every factor of
/// the unit table (773 divides the length of the Gregorian year in seconds,
/// 31556952 = 2^3 * 3^6 * 7 * 773).
#[derive(Debug, Clone, Copy, PartialEq, Eq, Structural)]
pub struct Scale {
    pub p2: i32,
    pub p3: i32,
    pub p5: i32,
    pub p7: i32,
    pub p773: i32,
}

/// The prime exponents of a scale over unbounded integers: the mathematical
/// value of a `Scale`.
pub struct ScaleVec {
    pub p2: int,
    pub p3: int,
    pub p5: int,
    pub p7: int,
    pub p773: int,
}

impl ScaleVec {
    /// Product of two scales: exponents add.
    pub open spec fn mul(self, rhs: ScaleVec) -> ScaleVec {
        ScaleVec {
            p2: self.p2 + rhs.p2,
            p3: self.p3 + rhs.p3,
            p5: self.p5 + rhs.p5,
            p7: self.p7 + rhs.p7,
            p773: self.p773 + rhs.p773,
        }
    }

    /// Quotient of two scales: exponents subtract.
    pub open spec fn div(self, rhs: ScaleVec) -> ScaleVec {
        ScaleVec {
            p2: self.p2 - rhs.p2,
            p3: self.p3 - rhs.p3,
            p5: self.p5 - rhs.p5,
            p7: self.p7 - rhs.p7,
            p773: self.p773 - rhs.p773,
        }
    }

    /// Integer power of a scale: exponents multiply by `k`.
    pub open spec fn pow(self, k: int) -> ScaleVec {
        ScaleVec {
            p2: self.p2 * k,
            p3: self.p3 * k,
            p5: self.p5 * k,
            p7: self.p7 * k,
            p773: self.p773 * k,
        }
    }

    /// Every exponent fits in an `i32`.
    pub open spec fn fits(self) -> bool {
        &&& i32::MIN <= self.p2 <= i32::MAX
        &&& i32::MIN <= self.p3 <= i32::MAX
        &&& i32::MIN <= self.p5 <= i32::MAX
        &&& i32::MIN <= self.p7 <= i32::MAX
        &&& i32::MIN <= self.p773 <= i32::MAX
    }

    /// Every exponent lies within `-b ..= b`.
    pub open spec fn bounded_by(self, b: int) -> bool {
        &&& -b <= self.p2 <= b
        &&& -b <= self.p3 <= b
        &&& -b <= self.p5 <= b
        &&& -b <= self.p7 <= b
        &&& -b <= self.p773 <= b
    }
}

impl View for Scale {
    type V = ScaleVec;

    open spec fn view(&self) -> ScaleVec {
        ScaleVec {
            p2: self.p2 as int,
            p3: self.p3 as int,
            p5: self.p5 as int,
            p7: self.p7 as int,
            p773: self.p773 as int,
        }
    }
}

impl Scale {
    /// Product of two scales (exponents add).
    pub fn mul(self, rhs: Self) -> (r: Self)
        requires
            self@.mul(rhs@).fits(),
        ensures
            r@ == self@.mul(rhs@),
    {
        Scale {
            p2: self.p2 + rhs.p2,
            p3: self.p3 + rhs.p3,
            p5: self.p5 + rhs.p5,
            p7: self.p7 + rhs.p7,
            p773: self.p773 + rhs.p773,
        }
    }

    /// Quotient of two scales (exponents subtract).
    pub fn div(self, rhs: Self) -> (r: Self)
        requires
            self@.div(rhs@).fits(),
        ensures
            r@ == self@.div(rhs@),
    {
        Scale {
            p2: self.p2 - rhs.p2,
            p3: self.p3 - rhs.p3,
            p5: self.p5 - rhs.p5,
            p7: self.p7 - rhs.p7,
            p773: self.p773 - rhs.p773,
        }
    }

    /// Integer power of a scale (exponents multiply by `k`).
    pub fn pow(self, k: i32) -> (r: Self)
        requires
            self@.pow(k as int).fits(),
        ensures
            r@ == self@.pow(k as int),
    {
        Scale {
            p2: self.p2 * k,
            p3: self.p3 * k,
            p5: self.p5 * k,
            p7: self.p7 * k,
            p773: self.p773 * k,
        }
    }

    /// Composition of two values, or `None` where an exponent would leave
    /// the range of `i32`.
    pub fn checked_mul(self, rhs: Self) -> (r: Option<Self>)
        ensures
            r is Some <==> self@.mul(rhs@).fits(),
            r is Some ==> r->0@ == self@.mul(rhs@),
    {
        let p2: i64 = self.p2 as i64 + rhs.p2 as i64;
        let p3: i64 = self.p3 as i64 + rhs.p3 as i64;
        let p5: i64 = self.p5 as i64 + rhs.p5 as i64;
        let p7: i64 = self.p7 as i64 + rhs.p7 as i64;
        let p773: i64 = self.p773 as i64 + rhs.p773 as i64;
        if i32::MIN as i64 <= p2 && p2 <= i32::MAX as i64 && i32::MIN as i64 <= p3 && p3 <= i32::MAX as i64 && i32::MIN as i64 <= p5 && p5 <= i32::MAX as i64 && i32::MIN as i64 <= p7 && p7 <= i32::MAX as i64 && i32::MIN as i64 <= p773 && p773 <= i32::MAX as i64 {
            Some(Scale { p2: p2 as i32, p3: p3 as i32, p5: p5 as i32, p7: p7 as i32, p773: p773 as i32 })
        } else {
            None
        }
    }

    /// Integer power `k` of a value, or `None` where an exponent would leave
    /// the range of `i32`.
    pub fn checked_pow(self, k: i32) -> (r: Option<Self>)
        ensures
            r is Some <==> self@.pow(k as int).fits(),
            r is Some ==> r->0@ == self@.pow(k as int),
    {
        proof {
            lemma_i32_product_fits_i64(self.p2 as int, k as int);
            lemma_i32_product_fits_i64(self.p3 as int, k as int);
            lemma_i32_product_fits_i64(self.p5 as int, k as int);
            lemma_i32_product_fits_i64(self.p7 as int, k as int);
            lemma_i32_product_fits_i64(self.p773 as int, k as int);
        }
        let p2: i64 = self.p2 as i64 * k as i64;
        let p3: i64 = self.p3 as i64 * k as i64;
        let p5: i64 = self.p5 as i64 * k as i64;
        let p7: i64 = self.p7 as i64 * k as i64;
        let p773: i64 = self.p773 as i64 * k as i64;
        if i32::MIN as i64 <= p2 && p2 <= i32::MAX as i64 && i32::MIN as i64 <= p3 && p3 <= i32::MAX as i64 && i32::MIN as i64 <= p5 && p5 <= i32::MAX as i64 && i32::MIN as i64 <= p7 && p7 <= i32::MAX as i64 && i32::MIN as i64 <= p773 && p773 <= i32::MAX as i64 {
            Some(Scale { p2: p2 as i32, p3: p3 as i32, p5: p5 as i32, p7: p7 as i32, p773: p773 as i32 })
        } else {
            None
        }
    }
}

/// The scale with the given prime exponents.
pub open spec fn scale_vec(p2: int, p3: int, p5: int, p7: int, p773: int) -> ScaleVec {
    ScaleVec { p2, p3, p5, p7, p773 }
}

impl Scale {
    /// The scale `2^p2 * 3^p3 * 5^p5 * 7^p7 * 773^p773`.
    pub fn new(p2: i32, p3: i32, p5: i32, p7: i32, p773: i32) -> (r: Scale)
        ensures
            r@ == scale_vec(p2 as int, p3 as int, p5 as int, p7 as int, p773 as int),
    {
        Scale { p2, p3, p5, p7, p773 }
    }

    /// The scale one.
    pub fn one() -> (r: Scale)
        ensures
            r@ == scale_vec(0, 0, 0, 0, 0),
    {
        Scale { p2: 0, p3: 0, p5: 0, p7: 0, p773: 0 }
    }

    /// The scale `10^k`.
    pub fn power_of_ten(k: i32) -> (r: Scale)
        ensures
            r@ == scale_vec(k as int, 0, k as int, 0, 0),
    {
        Scale { p2: k, p3: 0, p5: k, p7: 0, p773: 0 }
    }
}

} // verus!
