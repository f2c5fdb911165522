//! Percentiles, held by the bit pattern of an IEEE 754 double.
//!
//! A percentile is a fractional number between 0 and 100. The library never
//! computes with it: it carries it from the configuration to the sampler and
//! tests whether it lies in range. Both are done on the 64 bits of the double
//! (what `f64::to_bits` gives and `f64::from_bits` takes): one sign bit,
//! eleven bits of exponent and fifty-two bits of fraction.

use vstd::prelude::*;
use vstd::arithmetic::power2::{
    lemma2_to64_rest, lemma_pow2_adds, lemma_pow2_pos, lemma_pow2_strictly_increases,
    lemma_pow2_unfold, pow2,
};
use crate::error::ConfigError;

verus! {

/// The bit pattern of the double 100.0.
pub const ONE_HUNDRED_BITS: u64 = 0x4059_0000_0000_0000;

/// The sign bit alone, which is the bit pattern of the double -0.0.
pub const NEGATIVE_ZERO_BITS: u64 = 0x8000_0000_0000_0000;

/// The number of patterns that the fraction bits can take: 2 to the 52.
pub const FRACTION_SPAN: u64 = 0x0010_0000_0000_0000;

/// A percentile, as the bit pattern of a double.
#[derive(Clone, Copy, Debug, PartialEq, Eq, Hash, Structural)]
pub struct Percentile {
    pub bits: u64,
}

impl Percentile {
    /// Whether the sign bit is set.
    pub open spec fn is_negative(self) -> bool {
        self.bits >= NEGATIVE_ZERO_BITS
    }

    /// The eleven bits of the exponent, as a number.
    pub open spec fn exponent(self) -> nat {
        ((self.bits % NEGATIVE_ZERO_BITS) / FRACTION_SPAN) as nat
    }

    /// The fifty-two bits of the fraction, as a number.
    pub open spec fn fraction(self) -> nat {
        (self.bits % FRACTION_SPAN) as nat
    }

    /// Whether the double is a number: neither an infinity nor one of the
    /// patterns that stand for no number.
    pub open spec fn is_finite(self) -> bool {
        self.exponent() != 2047
    }

    /// The size of a finite double without its sign, counted in units of 2
    /// to the -1074, the smallest size that a double can have.
    pub open spec fn magnitude(self) -> nat {
        if self.exponent() == 0 {
            self.fraction()
        } else {
            (FRACTION_SPAN as nat + self.fraction()) * pow2((self.exponent() - 1) as nat)
        }
    }

    /// Whether the double is the whole number `n`.
    pub open spec fn is_whole(self, n: nat) -> bool {
        &&& self.is_finite()
        &&& !self.is_negative()
        &&& self.magnitude() == n * pow2(1074)
    }

    /// Whether the double is a number between 0 and 100, both included:
    /// it is finite, it is not below zero, and its size is at most 100.
    pub open spec fn in_range(self) -> bool {
        &&& self.is_finite()
        &&& self.is_negative() ==> self.magnitude() == 0
        &&& self.magnitude() <= 100 * pow2(1074)
    }

    /// The percentile with the given bit pattern.
    pub fn from_bits(bits: u64) -> (percentile: Percentile)
        ensures
            percentile.bits == bits,
    {
        Percentile { bits }
    }

    /// The bit pattern of the percentile.
    pub fn to_bits(self) -> (bits: u64)
        ensures
            bits == self.bits,
    {
        self.bits
    }

    /// Whether the double is a number between 0 and 100, both included.
    /// Doubles that are not negative are ordered as their bit patterns are,
    /// so one comparison with the pattern of 100.0 decides; the one pattern
    /// in range with the sign bit set is that of -0.0.
    pub fn is_in_range(self) -> (inside: bool)
        ensures
            inside == self.in_range(),
    {
        proof {
            lemma_in_range_by_bits(self);
        }
        self.bits <= ONE_HUNDRED_BITS || self.bits == NEGATIVE_ZERO_BITS
    }
}

/// A double lies between 0 and 100 if and only if its bit pattern is at most
/// that of 100.0, or is that of -0.0.
pub proof fn lemma_in_range_by_bits(p: Percentile)
    ensures
        p.in_range() <==> (p.bits <= ONE_HUNDRED_BITS || p.bits == NEGATIVE_ZERO_BITS),
{
    let e = p.exponent();
    let f = p.fraction();
    let span = FRACTION_SPAN as nat;
    // In the units of the magnitude the number 100 is `limit` times `unit`.
    // The pattern of 100.0 says the same: its exponent is 1029, and its
    // fraction with the leading one before it is `limit`.
    let unit = pow2(1028);
    let limit: nat = 0x19_0000_0000_0000;
    assert(unit > 0) by {
        lemma_pow2_pos(1028);
    }
    assert(100 * pow2(1074) == limit * unit) by {
        lemma2_to64_rest();
        lemma_pow2_adds(46, 1028);
        assert(100 * (pow2(46) * unit) == (100 * pow2(46)) * unit) by (nonlinear_arith);
    }
    if e == 0 {
        // Too small to have a leading one: far below 100.
        assert(f <= limit * unit) by (nonlinear_arith)
            requires
                f < 0x10_0000_0000_0000,
                limit == 0x19_0000_0000_0000,
                unit > 0,
        ;
    } else {
        let scale = pow2((e - 1) as nat);
        assert(scale > 0) by {
            lemma_pow2_pos((e - 1) as nat);
        }
        assert((span + f) * scale > 0) by (nonlinear_arith)
            requires
                span + f > 0,
                scale > 0,
        ;
        if e < 1029 {
            // A smaller exponent than that of 100.0: below 100, whatever the
            // fraction.
            assert(2 * scale <= unit) by {
                lemma_pow2_unfold(1028);
                if e < 1028 {
                    lemma_pow2_strictly_increases((e - 1) as nat, 1027);
                }
            }
            assert((span + f) * scale <= limit * unit) by (nonlinear_arith)
                requires
                    span + f < 0x20_0000_0000_0000,
                    limit == 0x19_0000_0000_0000,
                    2 * scale <= unit,
                    scale > 0,
            ;
        } else if e == 1029 {
            // The exponent of 100.0: the fraction decides.
            assert(((span + f) * unit <= limit * unit) <==> (span + f <= limit))
                by (nonlinear_arith)
                requires
                    unit > 0,
            ;
        } else {
            // A larger exponent: above 100, or no number.
            assert(scale >= 2 * unit) by {
                lemma_pow2_unfold(1029);
                if e > 1030 {
                    lemma_pow2_strictly_increases(1029, (e - 1) as nat);
                }
            }
            assert((span + f) * scale > limit * unit) by (nonlinear_arith)
                requires
                    span + f >= 0x10_0000_0000_0000,
                    limit == 0x19_0000_0000_0000,
                    scale >= 2 * unit,
                    unit > 0,
            ;
        }
    }
}

/// The percentiles that are reported where a configuration names none:
/// 1, 10, 50, 90 and 99.
pub open spec fn spec_default_percentiles() -> Seq<Percentile> {
    seq![
        Percentile { bits: 0x3FF0_0000_0000_0000 },
        Percentile { bits: 0x4024_0000_0000_0000 },
        Percentile { bits: 0x4049_0000_0000_0000 },
        Percentile { bits: 0x4056_8000_0000_0000 },
        Percentile { bits: 0x4058_C000_0000_0000 },
    ]
}

/// Whether a list of percentiles can stand in a configuration: it names at
/// least one percentile, and each lies in range.
pub open spec fn percentiles_valid(list: Seq<Percentile>) -> bool {
    &&& list.len() > 0
    &&& forall|i: int| 0 <= i < list.len() ==> (#[trigger] list[i]).in_range()
}

/// Why a list of percentiles cannot stand in a configuration, if it cannot:
/// it is empty, or else one of its percentiles lies out of range.
pub open spec fn percentiles_fault(list: Seq<Percentile>) -> Option<ConfigError> {
    if list.len() == 0 {
        Some(ConfigError::EmptyPercentiles)
    } else if !percentiles_valid(list) {
        Some(ConfigError::InvalidPercentile)
    } else {
        None
    }
}

/// Copies a list of percentiles that can stand in a configuration, and says
/// what is wrong with one that cannot.
pub fn validated_percentiles(list: &Vec<Percentile>) -> (validated: Result<
    Vec<Percentile>,
    ConfigError,
>)
    ensures
        match validated {
            Ok(copy) => percentiles_fault(list@) is None && copy@ == list@,
            Err(error) => percentiles_fault(list@) == Some(error),
        },
{
    if list.len() == 0 {
        return Err(ConfigError::EmptyPercentiles);
    }
    let mut copy: Vec<Percentile> = Vec::new();
    let mut i: usize = 0;
    while i < list.len()
        invariant
            i <= list@.len(),
            copy@ == list@.take(i as int),
            forall|j: int| 0 <= j < i ==> (#[trigger] list@[j]).in_range(),
        decreases list@.len() - i,
    {
        let percentile = list[i];
        if !percentile.is_in_range() {
            return Err(ConfigError::InvalidPercentile);
        }
        copy.push(percentile);
        i += 1;
    }
    Ok(copy)
}

/// A double with the sign bit clear whose fraction, with the leading one put
/// before it, is `n` shifted up to the place that its exponent names, is the
/// whole number `n`.
pub proof fn lemma_whole_by_bits(p: Percentile, n: nat, shift: nat)
    requires
        !p.is_negative(),
        1 <= p.exponent() <= 1075,
        shift == 1075 - p.exponent(),
        FRACTION_SPAN + p.fraction() == n * pow2(shift),
    ensures
        p.is_whole(n),
{
    let scale = pow2((p.exponent() - 1) as nat);
    lemma_pow2_adds(shift, (p.exponent() - 1) as nat);
    assert((n * pow2(shift)) * scale == n * (pow2(shift) * scale)) by (nonlinear_arith);
}

/// The pattern that bounds the range is that of the number 100.
pub proof fn lemma_one_hundred()
    ensures
        (Percentile { bits: ONE_HUNDRED_BITS }).is_whole(100),
{
    lemma2_to64_rest();
    lemma_whole_by_bits(Percentile { bits: ONE_HUNDRED_BITS }, 100, 46);
}

/// The default percentiles are the numbers 1, 10, 50, 90 and 99.
pub proof fn lemma_default_percentiles_are_whole()
    ensures
        spec_default_percentiles().len() == 5,
        spec_default_percentiles()[0].is_whole(1),
        spec_default_percentiles()[1].is_whole(10),
        spec_default_percentiles()[2].is_whole(50),
        spec_default_percentiles()[3].is_whole(90),
        spec_default_percentiles()[4].is_whole(99),
{
    let list = spec_default_percentiles();
    lemma2_to64_rest();
    lemma_whole_by_bits(list[0], 1, 52);
    lemma_whole_by_bits(list[1], 10, 49);
    lemma_whole_by_bits(list[2], 50, 47);
    lemma_whole_by_bits(list[3], 90, 46);
    lemma_whole_by_bits(list[4], 99, 46);
}

/// The default percentiles can stand in a configuration.
pub proof fn lemma_default_percentiles_are_valid()
    ensures
        percentiles_valid(spec_default_percentiles()),
{
    let list = spec_default_percentiles();
    assert forall|i: int| 0 <= i < list.len() implies (#[trigger] list[i]).in_range() by {
        lemma_in_range_by_bits(list[i]);
    }
}

/// The percentiles that are reported where a configuration names none.
pub fn default_percentiles() -> (list: Vec<Percentile>)
    ensures
        list@ == spec_default_percentiles(),
        percentiles_valid(list@),
{
    proof {
        lemma_default_percentiles_are_valid();
    }
    let mut list: Vec<Percentile> = Vec::new();
    list.push(Percentile { bits: 0x3FF0_0000_0000_0000 });
    list.push(Percentile { bits: 0x4024_0000_0000_0000 });
    list.push(Percentile { bits: 0x4049_0000_0000_0000 });
    list.push(Percentile { bits: 0x4056_8000_0000_0000 });
    list.push(Percentile { bits: 0x4058_C000_0000_0000 });
    list
}

} // verus!
