use vstd::prelude::*;

use crate::dimension::{Dimension, DimensionVec};
use crate::chars::string_of;
use crate::scale::{Scale, ScaleVec};

verus! {

/// A multiplicative unit: its physical dimension and the factor that turns
/// one of it into SI base units.
#[derive(Debug, Clone, Copy, PartialEq, Eq, Structural)]
pub struct Unit {
    pub dimension: Dimension,
    pub scale_to_si: Scale,
}

/// The mathematical value of a `Unit`.
pub struct UnitVec {
    pub dimension: DimensionVec,
    pub scale: ScaleVec,
}

impl UnitVec {
    /// Product of two units: dimensions compose, scales multiply.
    pub open spec fn mul(self, rhs: UnitVec) -> UnitVec {
        UnitVec { dimension: self.dimension.mul(rhs.dimension), scale: self.scale.mul(rhs.scale) }
    }

    /// Quotient of two units: dimensions divide, scales divide.
    pub open spec fn div(self, rhs: UnitVec) -> UnitVec {
        UnitVec { dimension: self.dimension.div(rhs.dimension), scale: self.scale.div(rhs.scale) }
    }

    /// Integer power of a unit: of its dimension and of its scale.
    pub open spec fn pow(self, k: int) -> UnitVec {
        UnitVec { dimension: self.dimension.pow(k), scale: self.scale.pow(k) }
    }

    /// Every exponent fits in an `i32`.
    pub open spec fn fits(self) -> bool {
        self.dimension.fits() && self.scale.fits()
    }

    /// Every exponent lies within `-b ..= b`.
    pub open spec fn bounded_by(self, b: int) -> bool {
        self.dimension.bounded_by(b) && self.scale.bounded_by(b)
    }
}

/// `u` where it fits in a `Unit`, else `None`.
pub open spec fn within_range(u: UnitVec) -> Option<UnitVec> {
    if u.fits() {
        Some(u)
    } else {
        None
    }
}

/// The value of an optional unit.
pub open spec fn opt_view(u: Option<Unit>) -> Option<UnitVec> {
    match u {
        Some(u) => Some(u@),
        None => None,
    }
}

impl View for Unit {
    type V = UnitVec;

    open spec fn view(&self) -> UnitVec {
        UnitVec { dimension: self.dimension@, scale: self.scale_to_si@ }
    }
}

impl Unit {
    /// The ratio of this unit to `to`, where both have the same dimension:
    /// the dimension stays and the scale is `self / to`. `None` where the
    /// dimensions differ.
    pub fn convert(self, to: &Unit) -> (r: Option<Unit>)
        requires
            self.scale_to_si@.div(to.scale_to_si@).fits(),
        ensures
            r is Some <==> self.dimension == to.dimension,
            r is Some ==> r->0@ == (UnitVec {
                dimension: self.dimension@,
                scale: self.scale_to_si@.div(to.scale_to_si@),
            }),
    {
        if self.dimension == to.dimension {
            let scale_to_si = self.scale_to_si.div(to.scale_to_si);
            let dimension = self.dimension;
            Some(Unit { dimension, scale_to_si })
        } else {
            None
        }
    }

    /// This unit to the integer power `exp`.
    pub fn pow(&self, exp: i32) -> (r: Unit)
        requires
            self@.pow(exp as int).fits(),
        ensures
            r@ == self@.pow(exp as int),
    {
        let scale_to_si = self.scale_to_si.pow(exp);
        let dimension = self.dimension.pow(exp);
        Unit { dimension, scale_to_si }
    }

    /// Product of two units.
    pub fn mul(self, rhs: Unit) -> (r: Unit)
        requires
            self@.mul(rhs@).fits(),
        ensures
            r@ == self@.mul(rhs@),
    {
        Unit {
            dimension: self.dimension.mul(rhs.dimension),
            scale_to_si: self.scale_to_si.mul(rhs.scale_to_si),
        }
    }

    /// Quotient of two units.
    pub fn div(self, rhs: Unit) -> (r: Unit)
        requires
            self@.div(rhs@).fits(),
        ensures
            r@ == self@.div(rhs@),
    {
        Unit {
            dimension: self.dimension.div(rhs.dimension),
            scale_to_si: self.scale_to_si.div(rhs.scale_to_si),
        }
    }

    /// Product of two units, or `None` where an exponent would leave the
    /// range of `i32`.
    pub fn checked_mul(self, rhs: Unit) -> (r: Option<Unit>)
        ensures
            opt_view(r) == within_range(self@.mul(rhs@)),
    {
        match (self.dimension.checked_mul(rhs.dimension), self.scale_to_si.checked_mul(rhs.scale_to_si)) {
            (Some(dimension), Some(scale_to_si)) => Some(Unit { dimension, scale_to_si }),
            _ => None,
        }
    }

    /// This unit to the power `exp`, or `None` where an exponent would leave
    /// the range of `i32`.
    pub fn checked_pow(&self, exp: i32) -> (r: Option<Unit>)
        ensures
            opt_view(r) == within_range(self@.pow(exp as int)),
    {
        match (self.dimension.checked_pow(exp), self.scale_to_si.checked_pow(exp)) {
            (Some(dimension), Some(scale_to_si)) => Some(Unit { dimension, scale_to_si }),
            _ => None,
        }
    }
}

/// The decimal digit of `d`, for `0 <= d < 10`.
pub open spec fn digit_char(d: int) -> char {
    ((d + 48) as u8) as char
}

/// The decimal digits of `n`, most significant first, without leading zeros.
pub open spec fn natural_digits(n: nat) -> Seq<char>
    decreases n,
{
    if n < 10 {
        seq![digit_char(n as int)]
    } else {
        natural_digits(n / 10) + seq![digit_char((n % 10) as int)]
    }
}

/// The decimal text of `x`, with a leading `-` where it is negative.
pub open spec fn decimal(x: int) -> Seq<char> {
    if x < 0 {
        seq!['-'] + natural_digits((-x) as nat)
    } else {
        natural_digits(x as nat)
    }
}

/// The text of a unit's dimension: its exponents of time, mass, length,
/// temperature, current and amount, in that order, separated by `;`.
pub open spec fn dimension_text(d: DimensionVec) -> Seq<char> {
    decimal(d.time) + seq![';'] + decimal(d.mass) + seq![';'] + decimal(d.length) + seq![';']
        + decimal(d.temperature) + seq![';'] + decimal(d.current) + seq![';'] + decimal(d.amount)
}

fn push_natural(v: &mut Vec<char>, n: u64)
    ensures
        final(v)@ == old(v)@ + natural_digits(n as nat),
    decreases n,
{
    if n >= 10 {
        push_natural(v, n / 10);
    }
    let d = (n % 10) as u8;
    v.push((d + 48) as char);
    assert(final(v)@ =~= old(v)@ + natural_digits(n as nat));
}

fn push_decimal(v: &mut Vec<char>, x: i32)
    ensures
        final(v)@ == old(v)@ + decimal(x as int),
{
    if x < 0 {
        v.push('-');
        push_natural(v, (-(x as i64)) as u64);
        assert(final(v)@ =~= old(v)@ + decimal(x as int));
    } else {
        push_natural(v, x as u64);
    }
}

impl Unit {
    /// The dimension's exponents as text, as `dimension_text` spells them
    /// (time first, then mass, length, temperature, current, amount).
    pub fn to_text(&self) -> (r: String)
        ensures
            r@ == dimension_text(self.dimension@),
    {
        let d = self.dimension;
        let mut v: Vec<char> = Vec::new();
        push_decimal(&mut v, d.time);
        v.push(';');
        push_decimal(&mut v, d.mass);
        v.push(';');
        push_decimal(&mut v, d.length);
        v.push(';');
        push_decimal(&mut v, d.temperature);
        v.push(';');
        push_decimal(&mut v, d.current);
        v.push(';');
        push_decimal(&mut v, d.amount);
        assert(v@ =~= dimension_text(d@));
        string_of(v.as_slice())
    }
}

} // verus!
