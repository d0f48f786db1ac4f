use vstd::prelude::*;

verus! {

/// Exponents of the six SI base dimensions: length (metre), mass (kilogram),
/// time (second), electric current (ampere), temperature (kelvin) and
/// amount of substance (mole).
#[derive(Debug, Clone, Copy, PartialEq, Eq, Structural)]
pub struct Dimension {
    pub length: i32,
    pub mass: i32,
    pub time: i32,
    pub current: i32,
    pub temperature: i32,
    pub amount: i32,
}

/// A dimension vector over unbounded integers: the mathematical value of a
/// `Dimension`.
pub struct DimensionVec {
    pub length: int,
    pub mass: int,
    pub time: int,
    pub current: int,
    pub temperature: int,
    pub amount: int,
}

impl DimensionVec {
    /// Composition of two dimensions: exponents add.
    pub open spec fn mul(self, rhs: DimensionVec) -> DimensionVec {
        DimensionVec {
            length: self.length + rhs.length,
            mass: self.mass + rhs.mass,
            time: self.time + rhs.time,
            current: self.current + rhs.current,
            temperature: self.temperature + rhs.temperature,
            amount: self.amount + rhs.amount,
        }
    }

    /// Quotient of two dimensions: exponents subtract.
    pub open spec fn div(self, rhs: DimensionVec) -> DimensionVec {
        DimensionVec {
            length: self.length - rhs.length,
            mass: self.mass - rhs.mass,
            time: self.time - rhs.time,
            current: self.current - rhs.current,
            temperature: self.temperature - rhs.temperature,
            amount: self.amount - rhs.amount,
        }
    }

    /// Integer power of a dimension: exponents scale by `k`.
    pub open spec fn pow(self, k: int) -> DimensionVec {
        DimensionVec {
            length: self.length * k,
            mass: self.mass * k,
            time: self.time * k,
            current: self.current * k,
            temperature: self.temperature * k,
            amount: self.amount * k,
        }
    }

    /// Every exponent fits in an `i32`.
    pub open spec fn fits(self) -> bool {
        &&& i32::MIN <= self.length <= i32::MAX
        &&& i32::MIN <= self.mass <= i32::MAX
        &&& i32::MIN <= self.time <= i32::MAX
        &&& i32::MIN <= self.current <= i32::MAX
        &&& i32::MIN <= self.temperature <= i32::MAX
        &&& i32::MIN <= self.amount <= i32::MAX
    }

    /// Every exponent lies within `-b ..= b`.
    pub open spec fn bounded_by(self, b: int) -> bool {
        &&& -b <= self.length <= b
        &&& -b <= self.mass <= b
        &&& -b <= self.time <= b
        &&& -b <= self.current <= b
        &&& -b <= self.temperature <= b
        &&& -b <= self.amount <= b
    }
}

impl View for Dimension {
    type V = DimensionVec;

    open spec fn view(&self) -> DimensionVec {
        DimensionVec {
            length: self.length as int,
            mass: self.mass as int,
            time: self.time as int,
            current: self.current as int,
            temperature: self.temperature as int,
            amount: self.amount as int,
        }
    }
}

impl Dimension {
    /// Composition of two dimensions (exponents add).
    pub fn mul(self, rhs: Self) -> (r: Self)
        requires
            self@.mul(rhs@).fits(),
        ensures
            r@ == self@.mul(rhs@),
    {
        Dimension {
            length: self.length + rhs.length,
            mass: self.mass + rhs.mass,
            time: self.time + rhs.time,
            current: self.current + rhs.current,
            temperature: self.temperature + rhs.temperature,
            amount: self.amount + rhs.amount,
        }
    }

    /// Quotient of two dimensions (exponents subtract).
    pub fn div(self, rhs: Self) -> (r: Self)
        requires
            self@.div(rhs@).fits(),
        ensures
            r@ == self@.div(rhs@),
    {
        Dimension {
            length: self.length - rhs.length,
            mass: self.mass - rhs.mass,
            time: self.time - rhs.time,
            current: self.current - rhs.current,
            temperature: self.temperature - rhs.temperature,
            amount: self.amount - rhs.amount,
        }
    }

    /// Integer power of a dimension (exponents scale by `k`).
    pub fn pow(self, k: i32) -> (r: Self)
        requires
            self@.pow(k as int).fits(),
        ensures
            r@ == self@.pow(k as int),
    {
        Dimension {
            length: self.length * k,
            mass: self.mass * k,
            time: self.time * k,
            current: self.current * k,
            temperature: self.temperature * k,
            amount: self.amount * k,
        }
    }

    /// Composition of two values, or `None` where an exponent would leave
    /// the range of `i32`.
    pub fn checked_mul(self, rhs: Self) -> (r: Option<Self>)
        ensures
            r is Some <==> self@.mul(rhs@).fits(),
            r is Some ==> r->0@ == self@.mul(rhs@),
    {
        let length: i64 = self.length as i64 + rhs.length as i64;
        let mass: i64 = self.mass as i64 + rhs.mass as i64;
        let time: i64 = self.time as i64 + rhs.time as i64;
        let current: i64 = self.current as i64 + rhs.current as i64;
        let temperature: i64 = self.temperature as i64 + rhs.temperature as i64;
        let amount: i64 = self.amount as i64 + rhs.amount as i64;
        if i32::MIN as i64 <= length && length <= i32::MAX as i64 && i32::MIN as i64 <= mass && mass <= i32::MAX as i64 && i32::MIN as i64 <= time && time <= i32::MAX as i64 && i32::MIN as i64 <= current && current <= i32::MAX as i64 && i32::MIN as i64 <= temperature && temperature <= i32::MAX as i64 && i32::MIN as i64 <= amount && amount <= i32::MAX as i64 {
            Some(Dimension { length: length as i32, mass: mass as i32, time: time as i32, current: current as i32, temperature: temperature as i32, amount: amount as i32 })
        } else {
            None
        }
    }

    /// Integer power `k` of a value, or `None` where an exponent would leave
    /// the range of `i32`.
    pub fn checked_pow(self, k: i32) -> (r: Option<Self>)
        ensures
            r is Some <==> self@.pow(k as int).fits(),
            r is Some ==> r->0@ == self@.pow(k as int),
    {
        proof {
            lemma_i32_product_fits_i64(self.length as int, k as int);
            lemma_i32_product_fits_i64(self.mass as int, k as int);
            lemma_i32_product_fits_i64(self.time as int, k as int);
            lemma_i32_product_fits_i64(self.current as int, k as int);
            lemma_i32_product_fits_i64(self.temperature as int, k as int);
            lemma_i32_product_fits_i64(self.amount as int, k as int);
        }
        let length: i64 = self.length as i64 * k as i64;
        let mass: i64 = self.mass as i64 * k as i64;
        let time: i64 = self.time as i64 * k as i64;
        let current: i64 = self.current as i64 * k as i64;
        let temperature: i64 = self.temperature as i64 * k as i64;
        let amount: i64 = self.amount as i64 * k as i64;
        if i32::MIN as i64 <= length && length <= i32::MAX as i64 && i32::MIN as i64 <= mass && mass <= i32::MAX as i64 && i32::MIN as i64 <= time && time <= i32::MAX as i64 && i32::MIN as i64 <= current && current <= i32::MAX as i64 && i32::MIN as i64 <= temperature && temperature <= i32::MAX as i64 && i32::MIN as i64 <= amount && amount <= i32::MAX as i64 {
            Some(Dimension { length: length as i32, mass: mass as i32, time: time as i32, current: current as i32, temperature: temperature as i32, amount: amount as i32 })
        } else {
            None
        }
    }
}

/// The product of two `i32` values fits in an `i64`.
pub(crate) proof fn lemma_i32_product_fits_i64(a: int, b: int)
    requires
        i32::MIN <= a <= i32::MAX,
        i32::MIN <= b <= i32::MAX,
    ensures
        i64::MIN <= a * b <= i64::MAX,
{
    assert(-0x8000_0000 * 0x8000_0000 <= a * b <= 0x8000_0000 * 0x8000_0000) by (nonlinear_arith)
        requires
            -0x8000_0000 <= a <= 0x8000_0000,
            -0x8000_0000 <= b <= 0x8000_0000,
    ;
}

/// The dimension vector with the given exponents.
pub open spec fn dim_vec(length: int, mass: int, time: int, current: int, temperature: int, amount: int) -> DimensionVec {
    DimensionVec { length, mass, time, current, temperature, amount }
}

/// The dimensionless vector.
pub fn dimensionless() -> (r: Dimension)
    ensures
        r@ == dim_vec(0, 0, 0, 0, 0, 0),
{
    Dimension { length: 0, mass: 0, time: 0, current: 0, temperature: 0, amount: 0 }
}

/// Length (metre).
pub fn length() -> (r: Dimension)
    ensures
        r@ == dim_vec(1, 0, 0, 0, 0, 0),
{
    Dimension { length: 1, mass: 0, time: 0, current: 0, temperature: 0, amount: 0 }
}

/// Mass (kilogram).
pub fn mass() -> (r: Dimension)
    ensures
        r@ == dim_vec(0, 1, 0, 0, 0, 0),
{
    Dimension { length: 0, mass: 1, time: 0, current: 0, temperature: 0, amount: 0 }
}

/// Time (second).
pub fn time() -> (r: Dimension)
    ensures
        r@ == dim_vec(0, 0, 1, 0, 0, 0),
{
    Dimension { length: 0, mass: 0, time: 1, current: 0, temperature: 0, amount: 0 }
}

/// Electric current (ampere).
pub fn current() -> (r: Dimension)
    ensures
        r@ == dim_vec(0, 0, 0, 1, 0, 0),
{
    Dimension { length: 0, mass: 0, time: 0, current: 1, temperature: 0, amount: 0 }
}

/// Temperature (kelvin).
pub fn temperature() -> (r: Dimension)
    ensures
        r@ == dim_vec(0, 0, 0, 0, 1, 0),
{
    Dimension { length: 0, mass: 0, time: 0, current: 0, temperature: 1, amount: 0 }
}

/// Amount of substance (mole).
pub fn amount() -> (r: Dimension)
    ensures
        r@ == dim_vec(0, 0, 0, 0, 0, 1),
{
    Dimension { length: 0, mass: 0, time: 0, current: 0, temperature: 0, amount: 1 }
}

/// Length squared.
pub fn area() -> (r: Dimension)
    ensures
        r@ == dim_vec(2, 0, 0, 0, 0, 0),
{
    Dimension { length: 2, mass: 0, time: 0, current: 0, temperature: 0, amount: 0 }
}

/// Length cubed.
pub fn volume() -> (r: Dimension)
    ensures
        r@ == dim_vec(3, 0, 0, 0, 0, 0),
{
    Dimension { length: 3, mass: 0, time: 0, current: 0, temperature: 0, amount: 0 }
}

/// Length per time.
pub fn velocity() -> (r: Dimension)
    ensures
        r@ == dim_vec(1, 0, -1, 0, 0, 0),
{
    Dimension { length: 1, mass: 0, time: -1, current: 0, temperature: 0, amount: 0 }
}

/// Mass per time squared.
pub fn acceleration() -> (r: Dimension)
    ensures
        r@ == dim_vec(0, 1, -2, 0, 0, 0),
{
    Dimension { length: 0, mass: 1, time: -2, current: 0, temperature: 0, amount: 0 }
}

/// Mass per velocity squared.
pub fn energy() -> (r: Dimension)
    ensures
        r@ == dim_vec(-2, 1, 2, 0, 0, 0),
{
    Dimension { length: -2, mass: 1, time: 2, current: 0, temperature: 0, amount: 0 }
}

/// Energy per time.
pub fn power() -> (r: Dimension)
    ensures
        r@ == dim_vec(-2, 1, 1, 0, 0, 0),
{
    Dimension { length: -2, mass: 1, time: 1, current: 0, temperature: 0, amount: 0 }
}

/// The derived dimensions (area, volume, velocity, acceleration, energy,
/// power) are the compositions of the base vectors that their names describe.
pub proof fn lemma_derived_dimensions()
    ensures
        dim_vec(2, 0, 0, 0, 0, 0) == dim_vec(1, 0, 0, 0, 0, 0).pow(2),
        dim_vec(3, 0, 0, 0, 0, 0) == dim_vec(1, 0, 0, 0, 0, 0).pow(3),
        dim_vec(1, 0, -1, 0, 0, 0) == dim_vec(1, 0, 0, 0, 0, 0).div(dim_vec(0, 0, 1, 0, 0, 0)),
        dim_vec(0, 1, -2, 0, 0, 0) == dim_vec(0, 1, 0, 0, 0, 0).div(dim_vec(0, 0, 1, 0, 0, 0).pow(2)),
        dim_vec(-2, 1, 2, 0, 0, 0) == dim_vec(0, 1, 0, 0, 0, 0).div(dim_vec(1, 0, -1, 0, 0, 0).pow(2)),
        dim_vec(-2, 1, 1, 0, 0, 0) == dim_vec(-2, 1, 2, 0, 0, 0).div(dim_vec(0, 0, 1, 0, 0, 0)),
{
}

/// Multiplying and then dividing by the dimensionless vector changes
/// nothing, and dividing by `d2` is multiplying by `d2` to the power -1.
pub proof fn lemma_div_is_mul_by_inverse(d1: Dimension, d2: Dimension)
    ensures
        d1@.mul(d2@) == d1@.mul(d2@).div(dim_vec(0, 0, 0, 0, 0, 0)),
        d1@.div(d2@) == d1@.mul(d2@.pow(-1)),
{
}

/// Any dimension to the power zero is dimensionless.
pub proof fn lemma_pow_zero(d: Dimension)
    ensures
        d@.pow(0) == dim_vec(0, 0, 0, 0, 0, 0),
{
}

} // verus!
