use vstd::prelude::*;

use crate::chars::{chars_of, matches_at};
use crate::dimension::{area, dim_vec, energy, length, mass, time, volume, DimensionVec};
use crate::scale::{scale_vec, Scale, ScaleVec};
use crate::unit::{opt_view, Unit, UnitVec};

verus! {

/// The unit with the given dimension and scale.
pub open spec fn unit_vec(dimension: DimensionVec, scale: ScaleVec) -> UnitVec {
    UnitVec { dimension, scale }
}

/// The base units that take a prefix: each symbol with its unit and the
/// power to which a prefix's factor is raised for it.
pub open spec fn base_unit(s: Seq<char>) -> Option<(UnitVec, int)> {
    if s == "m"@ {
        Some((unit_vec(dim_vec(1, 0, 0, 0, 0, 0), scale_vec(0, 0, 0, 0, 0)), 1))
    } else if s == "g"@ {
        Some((unit_vec(dim_vec(0, 1, 0, 0, 0, 0), scale_vec(-3, 0, -3, 0, 0)), 1))
    } else if s == "t"@ {
        Some((unit_vec(dim_vec(0, 1, 0, 0, 0, 0), scale_vec(3, 0, 3, 0, 0)), 1))
    } else if s == "m2"@ {
        Some((unit_vec(dim_vec(2, 0, 0, 0, 0, 0), scale_vec(0, 0, 0, 0, 0)), 2))
    } else if s == "m3"@ {
        Some((unit_vec(dim_vec(3, 0, 0, 0, 0, 0), scale_vec(0, 0, 0, 0, 0)), 3))
    } else if s == "Sm3"@ {
        Some((unit_vec(dim_vec(3, 0, 0, 0, 0, 0), scale_vec(0, 0, 0, 0, 0)), 3))
    } else if s == "l"@ {
        Some((unit_vec(dim_vec(3, 0, 0, 0, 0, 0), scale_vec(-3, 0, -3, 0, 0)), 3))
    } else if s == "L"@ {
        Some((unit_vec(dim_vec(3, 0, 0, 0, 0, 0), scale_vec(-3, 0, -3, 0, 0)), 3))
    } else if s == "J"@ {
        Some((unit_vec(dim_vec(-2, 1, 2, 0, 0, 0), scale_vec(0, 0, 0, 0, 0)), 1))
    } else if s == "Wh"@ {
        Some((unit_vec(dim_vec(-2, 1, 2, 0, 0, 0), scale_vec(4, 2, 2, 0, 0)), 1))
    } else {
        None
    }
}

/// The SI prefixes: each symbol with the power of ten that it stands for.
pub open spec fn prefix_power(p: Seq<char>) -> Option<int> {
    if p == "n"@ {
        Some(-9)
    } else if p == "µ"@ {
        Some(-6)
    } else if p == "m"@ {
        Some(-3)
    } else if p == "c"@ {
        Some(-2)
    } else if p == "d"@ {
        Some(-1)
    } else if p == "da"@ {
        Some(1)
    } else if p == "h"@ {
        Some(2)
    } else if p == "k"@ {
        Some(3)
    } else if p == "M"@ {
        Some(6)
    } else if p == "G"@ {
        Some(9)
    } else {
        None
    }
}

/// The units that take no prefix.
pub open spec fn standalone_unit(s: Seq<char>) -> Option<UnitVec> {
    if s == "s"@ {
        Some(unit_vec(dim_vec(0, 0, 1, 0, 0, 0), scale_vec(0, 0, 0, 0, 0)))
    } else if s == "min"@ {
        Some(unit_vec(dim_vec(0, 0, 1, 0, 0, 0), scale_vec(2, 1, 1, 0, 0)))
    } else if s == "h"@ {
        Some(unit_vec(dim_vec(0, 0, 1, 0, 0, 0), scale_vec(4, 2, 2, 0, 0)))
    } else if s == "hour"@ {
        Some(unit_vec(dim_vec(0, 0, 1, 0, 0, 0), scale_vec(4, 2, 2, 0, 0)))
    } else if s == "d"@ {
        Some(unit_vec(dim_vec(0, 0, 1, 0, 0, 0), scale_vec(7, 3, 2, 0, 0)))
    } else if s == "day"@ {
        Some(unit_vec(dim_vec(0, 0, 1, 0, 0, 0), scale_vec(7, 3, 2, 0, 0)))
    } else if s == "y"@ {
        Some(unit_vec(dim_vec(0, 0, 1, 0, 0, 0), scale_vec(3, 6, 0, 1, 1)))
    } else if s == "year"@ {
        Some(unit_vec(dim_vec(0, 0, 1, 0, 0, 0), scale_vec(3, 6, 0, 1, 1)))
    } else if s == "yr"@ {
        Some(unit_vec(dim_vec(0, 0, 1, 0, 0, 0), scale_vec(3, 6, 0, 1, 1)))
    } else if s == "ha"@ {
        Some(unit_vec(dim_vec(2, 0, 0, 0, 0, 0), scale_vec(4, 0, 4, 0, 0)))
    } else {
        None
    }
}

/// The unit of `s` read as a prefix of `n` characters followed by a base
/// unit: the base unit's scale times the prefix's factor raised to the base
/// unit's power.
pub open spec fn prefixed_unit(s: Seq<char>, n: int) -> Option<UnitVec> {
    if 0 <= n <= s.len() {
        match (prefix_power(s.subrange(0, n)), base_unit(s.subrange(n, s.len() as int))) {
            (Some(k), Some((u, pw))) => Some(
                unit_vec(u.dimension, u.scale.mul(scale_vec(k * pw, 0, k * pw, 0, 0))),
            ),
            _ => None,
        }
    } else {
        None
    }
}

/// The registry: every standalone unit, every base unit, and every base unit
/// with each prefix (of one character, then of two), read in that order. No
/// symbol has two readings (`lemma_symbols_unique`), so the order is moot.
#[verifier::opaque]
pub open spec fn registry(s: Seq<char>) -> Option<UnitVec> {
    if standalone_unit(s) is Some {
        standalone_unit(s)
    } else if base_unit(s) is Some {
        Some((base_unit(s)->0).0)
    } else if prefixed_unit(s, 1) is Some {
        prefixed_unit(s, 1)
    } else {
        prefixed_unit(s, 2)
    }
}

/// The base unit spelled by `v[from..]`.
fn base_unit_at(v: &Vec<char>, from: usize) -> (r: Option<(Unit, i32)>)
    requires
        from <= v.len(),
    ensures
        match r {
            Some((u, pw)) => base_unit(v@.subrange(from as int, v.len() as int)) == Some((u@, pw as int)),
            None => base_unit(v@.subrange(from as int, v.len() as int)) is None,
        },
{
    let n = v.len();
    if matches_at(v, from, n, "m") {
        Some((Unit { dimension: length(), scale_to_si: Scale::new(0, 0, 0, 0, 0) }, 1))
    } else if matches_at(v, from, n, "g") {
        Some((Unit { dimension: mass(), scale_to_si: Scale::new(-3, 0, -3, 0, 0) }, 1))
    } else if matches_at(v, from, n, "t") {
        Some((Unit { dimension: mass(), scale_to_si: Scale::new(3, 0, 3, 0, 0) }, 1))
    } else if matches_at(v, from, n, "m2") {
        Some((Unit { dimension: area(), scale_to_si: Scale::new(0, 0, 0, 0, 0) }, 2))
    } else if matches_at(v, from, n, "m3") {
        Some((Unit { dimension: volume(), scale_to_si: Scale::new(0, 0, 0, 0, 0) }, 3))
    } else if matches_at(v, from, n, "Sm3") {
        Some((Unit { dimension: volume(), scale_to_si: Scale::new(0, 0, 0, 0, 0) }, 3))
    } else if matches_at(v, from, n, "l") {
        Some((Unit { dimension: volume(), scale_to_si: Scale::new(-3, 0, -3, 0, 0) }, 3))
    } else if matches_at(v, from, n, "L") {
        Some((Unit { dimension: volume(), scale_to_si: Scale::new(-3, 0, -3, 0, 0) }, 3))
    } else if matches_at(v, from, n, "J") {
        Some((Unit { dimension: energy(), scale_to_si: Scale::new(0, 0, 0, 0, 0) }, 1))
    } else if matches_at(v, from, n, "Wh") {
        Some((Unit { dimension: energy(), scale_to_si: Scale::new(4, 2, 2, 0, 0) }, 1))
    } else {
        None
    }
}

/// The power of ten of the prefix spelled by `v[..n]`.
fn prefix_power_at(v: &Vec<char>, n: usize) -> (r: Option<i32>)
    requires
        n <= v.len(),
    ensures
        match r {
            Some(k) => prefix_power(v@.subrange(0, n as int)) == Some(k as int) && -9 <= k <= 9,
            None => prefix_power(v@.subrange(0, n as int)) is None,
        },
{
    if matches_at(v, 0, n, "n") {
        Some(-9)
    } else if matches_at(v, 0, n, "µ") {
        Some(-6)
    } else if matches_at(v, 0, n, "m") {
        Some(-3)
    } else if matches_at(v, 0, n, "c") {
        Some(-2)
    } else if matches_at(v, 0, n, "d") {
        Some(-1)
    } else if matches_at(v, 0, n, "da") {
        Some(1)
    } else if matches_at(v, 0, n, "h") {
        Some(2)
    } else if matches_at(v, 0, n, "k") {
        Some(3)
    } else if matches_at(v, 0, n, "M") {
        Some(6)
    } else if matches_at(v, 0, n, "G") {
        Some(9)
    } else {
        None
    }
}

/// The standalone unit spelled by `v`.
fn standalone_unit_of(v: &Vec<char>) -> (r: Option<Unit>)
    ensures
        opt_view(r) == standalone_unit(v@),
{
    let n = v.len();
    proof {
        assert(v@.subrange(0, n as int) =~= v@);
    }
    if matches_at(v, 0, n, "s") {
        Some(Unit { dimension: time(), scale_to_si: Scale::new(0, 0, 0, 0, 0) })
    } else if matches_at(v, 0, n, "min") {
        Some(Unit { dimension: time(), scale_to_si: Scale::new(2, 1, 1, 0, 0) })
    } else if matches_at(v, 0, n, "h") {
        Some(Unit { dimension: time(), scale_to_si: Scale::new(4, 2, 2, 0, 0) })
    } else if matches_at(v, 0, n, "hour") {
        Some(Unit { dimension: time(), scale_to_si: Scale::new(4, 2, 2, 0, 0) })
    } else if matches_at(v, 0, n, "d") {
        Some(Unit { dimension: time(), scale_to_si: Scale::new(7, 3, 2, 0, 0) })
    } else if matches_at(v, 0, n, "day") {
        Some(Unit { dimension: time(), scale_to_si: Scale::new(7, 3, 2, 0, 0) })
    } else if matches_at(v, 0, n, "y") {
        Some(Unit { dimension: time(), scale_to_si: Scale::new(3, 6, 0, 1, 1) })
    } else if matches_at(v, 0, n, "year") {
        Some(Unit { dimension: time(), scale_to_si: Scale::new(3, 6, 0, 1, 1) })
    } else if matches_at(v, 0, n, "yr") {
        Some(Unit { dimension: time(), scale_to_si: Scale::new(3, 6, 0, 1, 1) })
    } else if matches_at(v, 0, n, "ha") {
        Some(Unit { dimension: area(), scale_to_si: Scale::new(4, 0, 4, 0, 0) })
    } else {
        None
    }
}

/// The unit spelled by `v` as a prefix of `n` characters and a base unit.
fn prefixed_unit_of(v: &Vec<char>, n: usize) -> (r: Option<Unit>)
    ensures
        opt_view(r) == prefixed_unit(v@, n as int),
{
    if n > v.len() {
        return None;
    }
    match (prefix_power_at(v, n), base_unit_at(v, n)) {
        (Some(k), Some((u, pw))) => {
            let factor = Scale::power_of_ten(k * pw);
            Some(Unit { dimension: u.dimension, scale_to_si: u.scale_to_si.mul(factor) })
        },
        _ => None,
    }
}

/// The unit that `symbol` names in the registry, or `None` where it names
/// none.
pub fn lookup(symbol: &str) -> (r: Option<Unit>)
    ensures
        opt_view(r) == registry(symbol@),
{
    let v = chars_of(symbol);
    let n = v.len();
    proof {
        reveal(registry);
        assert(v@.subrange(0, n as int) =~= v@);
    }
    let standalone = standalone_unit_of(&v);
    if standalone.is_some() {
        return standalone;
    }
    match base_unit_at(&v, 0) {
        Some((u, _)) => {
            return Some(u);
        },
        None => {},
    }
    let one = prefixed_unit_of(&v, 1);
    if one.is_some() {
        return one;
    }
    prefixed_unit_of(&v, 2)
}

proof fn lemma_base_unit_shape(t: Seq<char>)
    ensures
        base_unit(t) is Some ==> t.len() >= 1 && (t[0] == 'm' || t[0] == 'g' || t[0] == 't'
            || t[0] == 'S' || t[0] == 'l' || t[0] == 'L' || t[0] == 'J' || t[0] == 'W'),
{
    reveal_strlit("m");
    reveal_strlit("g");
    reveal_strlit("t");
    reveal_strlit("m2");
    reveal_strlit("m3");
    reveal_strlit("Sm3");
    reveal_strlit("l");
    reveal_strlit("L");
    reveal_strlit("J");
    reveal_strlit("Wh");
}

proof fn lemma_prefix_shape(p: Seq<char>)
    ensures
        prefix_power(p) is Some ==> 1 <= p.len() <= 2 && (p[0] == 'n' || p[0] == 'µ'
            || p[0] == 'm' || p[0] == 'c' || p[0] == 'd' || p[0] == 'h' || p[0] == 'k'
            || p[0] == 'M' || p[0] == 'G'),
        prefix_power(p) is Some && p.len() == 2 ==> p[0] == 'd' && p[1] == 'a',
{
    reveal_strlit("n");
    reveal_strlit("µ");
    reveal_strlit("m");
    reveal_strlit("c");
    reveal_strlit("d");
    reveal_strlit("da");
    reveal_strlit("h");
    reveal_strlit("k");
    reveal_strlit("M");
    reveal_strlit("G");
}

/// Every symbol has at most one reading: as a standalone unit, as a base
/// unit, or as a base unit after a prefix of one or two characters.
pub proof fn lemma_symbols_unique(s: Seq<char>)
    ensures
        standalone_unit(s) is Some ==> base_unit(s) is None && prefixed_unit(s, 1) is None
            && prefixed_unit(s, 2) is None,
        base_unit(s) is Some ==> prefixed_unit(s, 1) is None && prefixed_unit(s, 2) is None,
        prefixed_unit(s, 1) is Some ==> prefixed_unit(s, 2) is None,
{
    reveal_strlit("G");
    reveal_strlit("J");
    reveal_strlit("L");
    reveal_strlit("M");
    reveal_strlit("Sm3");
    reveal_strlit("Wh");
    reveal_strlit("c");
    reveal_strlit("d");
    reveal_strlit("da");
    reveal_strlit("day");
    reveal_strlit("g");
    reveal_strlit("h");
    reveal_strlit("ha");
    reveal_strlit("hour");
    reveal_strlit("k");
    reveal_strlit("l");
    reveal_strlit("m");
    reveal_strlit("m2");
    reveal_strlit("m3");
    reveal_strlit("min");
    reveal_strlit("n");
    reveal_strlit("s");
    reveal_strlit("t");
    reveal_strlit("y");
    reveal_strlit("year");
    reveal_strlit("yr");
    reveal_strlit("µ");
    lemma_base_unit_shape(s);
    if s.len() >= 1 {
        lemma_prefix_shape(s.subrange(0, 1));
        lemma_base_unit_shape(s.subrange(1, s.len() as int));
        assert(s.subrange(0, 1)[0] == s[0]);
    }
    if s.len() >= 2 {
        lemma_prefix_shape(s.subrange(0, 2));
        lemma_base_unit_shape(s.subrange(2, s.len() as int));
        assert(s.subrange(0, 2)[0] == s[0]);
        assert(s.subrange(0, 2)[1] == s[1]);
        assert(s.subrange(1, s.len() as int)[0] == s[1]);
    }
    if s.len() >= 3 {
        assert(s.subrange(2, s.len() as int)[0] == s[2]);
    }
}

} // verus!
