use vstd::prelude::*;
use vstd::arithmetic::power2::{lemma2_to64, lemma_pow2_strictly_increases, pow2};
use vstd::bits::{lemma_u64_shl_is_mul, lemma_u64_shr_is_div};

verus! {

/// A double-precision number, held as its IEEE 754 bit pattern: one sign
/// bit, eleven bits of exponent and fifty-two bits of fraction.
///
/// The library carries such numbers between caller and engine and cuts
/// them down to integers; it never computes with them as floating point.
#[derive(Clone, Copy, Debug, PartialEq, Eq, Structural)]
pub struct Double {
    pub bits: u64,
}

impl View for Double {
    type V = Double;

    open spec fn view(&self) -> Double {
        *self
    }
}

/// The value nearest to `v` between `lo` and `hi`.
pub open spec fn clamp(v: int, lo: int, hi: int) -> int {
    if v < lo {
        lo
    } else if v > hi {
        hi
    } else {
        v
    }
}

impl Double {
    /// Whether the sign bit is set.
    pub open spec fn negative(self) -> bool {
        self.bits >= 0x8000_0000_0000_0000
    }

    /// The exponent field.
    pub open spec fn exponent(self) -> nat {
        (self.bits as nat / 0x10_0000_0000_0000) % 0x800
    }

    /// The fraction field.
    pub open spec fn fraction(self) -> nat {
        self.bits as nat % 0x10_0000_0000_0000
    }

    /// Whether the pattern is not a number.
    pub open spec fn is_nan(self) -> bool {
        self.exponent() == 0x7ff && self.fraction() != 0
    }

    /// The magnitude of the number with what follows the point cut off.
    /// A number with exponent field `e` above 0 has the magnitude
    /// `(2^52 + fraction) * 2^(e - 1075)`; one with exponent field 0 is
    /// below 1. Infinity counts as `2^1024`.
    pub open spec fn whole(self) -> nat {
        let e = self.exponent();
        let significand = 0x10_0000_0000_0000 + self.fraction();
        if e < 1023 {
            0
        } else if e < 1075 {
            significand / pow2((1075 - e) as nat)
        } else {
            significand * pow2((e - 1075) as nat)
        }
    }

    /// The number cut off towards zero; 0 where it is not a number.
    pub open spec fn truncated(self) -> int {
        if self.is_nan() {
            0
        } else if self.negative() {
            -(self.whole() as int)
        } else {
            self.whole() as int
        }
    }

    /// The number with the given bit pattern.
    pub fn from_bits(bits: u64) -> (r: Double)
        ensures
            r.bits == bits,
    {
        Double { bits }
    }

    /// The bit pattern of the number.
    pub fn to_bits(&self) -> (bits: u64)
        ensures
            bits == self.bits,
    {
        self.bits
    }

    /// Whether the pattern is not a number.
    fn nan(&self) -> (nan: bool)
        ensures
            nan == self.is_nan(),
    {
        let bits = self.bits;
        let e: u64 = (bits >> 52) & 0x7ff;
        let f: u64 = bits & 0xf_ffff_ffff_ffff;
        assert((bits >> 52) & 0x7ff == (bits / 0x10_0000_0000_0000) % 0x800) by (bit_vector);
        assert(bits & 0xf_ffff_ffff_ffff == bits % 0x10_0000_0000_0000) by (bit_vector);
        e == 0x7ff && f != 0
    }

    /// Whether the sign bit is set.
    fn sign(&self) -> (negative: bool)
        ensures
            negative == self.negative(),
    {
        self.bits >= 0x8000_0000_0000_0000
    }

    /// The magnitude cut off to a whole number, if it fits 64 bits.
    fn magnitude(&self) -> (m: Option<u64>)
        ensures
            match m {
                Some(m) => m == self.whole(),
                None => self.whole() > u64::MAX,
            },
    {
        let bits = self.bits;
        let e: u64 = (bits >> 52) & 0x7ff;
        let f: u64 = bits & 0xf_ffff_ffff_ffff;
        let significand: u64 = f | 0x10_0000_0000_0000;
        assert((bits >> 52) & 0x7ff == (bits / 0x10_0000_0000_0000) % 0x800) by (bit_vector);
        assert(bits & 0xf_ffff_ffff_ffff == bits % 0x10_0000_0000_0000) by (bit_vector);
        assert(f | 0x10_0000_0000_0000 == f + 0x10_0000_0000_0000) by (bit_vector)
            requires
                f == bits & 0xf_ffff_ffff_ffff,
        ;
        assert(f < 0x10_0000_0000_0000) by (bit_vector)
            requires
                f == bits & 0xf_ffff_ffff_ffff,
        ;
        assert(e == self.exponent());
        assert(significand == 0x10_0000_0000_0000 + self.fraction());
        if e < 1023 {
            Some(0)
        } else if e < 1075 {
            let shift: u64 = 1075 - e;
            proof {
                lemma_u64_shr_is_div(significand, shift);
            }
            Some(significand >> shift)
        } else if e <= 1086 {
            let shift: u64 = e - 1075;
            proof {
                lemma2_to64();
                if shift < 11 {
                    lemma_pow2_strictly_increases(shift as nat, 11);
                }
                assert(significand * pow2(shift as nat) <= u64::MAX) by (nonlinear_arith)
                    requires
                        significand < 0x20_0000_0000_0000,
                        pow2(shift as nat) <= 2048,
                ;
                lemma_u64_shl_is_mul(significand, shift);
            }
            Some(significand << shift)
        } else {
            proof {
                lemma2_to64();
                if e > 1087 {
                    lemma_pow2_strictly_increases(12, (e - 1075) as nat);
                }
                assert(significand * pow2((e - 1075) as nat) > u64::MAX) by (nonlinear_arith)
                    requires
                        significand >= 0x10_0000_0000_0000,
                        pow2((e - 1075) as nat) >= 4096,
                ;
            }
            None
        }
    }

    /// The number as a signed 64-bit integer: cut off towards zero and
    /// held within the type's range; 0 where it is not a number.
    pub fn to_i64(&self) -> (r: i64)
        ensures
            r == clamp(self.truncated(), i64::MIN as int, i64::MAX as int),
    {
        if self.nan() {
            return 0;
        }
        let negative = self.sign();
        match self.magnitude() {
            None => if negative {
                i64::MIN
            } else {
                i64::MAX
            },
            Some(m) => {
                if negative {
                    if m >= 0x8000_0000_0000_0000 {
                        i64::MIN
                    } else {
                        -(m as i64)
                    }
                } else if m > i64::MAX as u64 {
                    i64::MAX
                } else {
                    m as i64
                }
            },
        }
    }

    /// The number as an unsigned 64-bit integer: cut off towards zero and
    /// held within the type's range; 0 where it is not a number.
    pub fn to_u64(&self) -> (r: u64)
        ensures
            r == clamp(self.truncated(), 0, u64::MAX as int),
    {
        if self.nan() || self.sign() {
            return 0;
        }
        match self.magnitude() {
            None => u64::MAX,
            Some(m) => m,
        }
    }

    /// The number as a signed 32-bit integer: cut off towards zero and
    /// held within the type's range; 0 where it is not a number.
    pub fn to_i32(&self) -> (r: i32)
        ensures
            r == clamp(self.truncated(), i32::MIN as int, i32::MAX as int),
    {
        let wide = self.to_i64();
        if wide < i32::MIN as i64 {
            i32::MIN
        } else if wide > i32::MAX as i64 {
            i32::MAX
        } else {
            wide as i32
        }
    }

    /// The number as an unsigned 32-bit integer: cut off towards zero and
    /// held within the type's range; 0 where it is not a number.
    pub fn to_u32(&self) -> (r: u32)
        ensures
            r == clamp(self.truncated(), 0, u32::MAX as int),
    {
        let wide = self.to_u64();
        if wide > u32::MAX as u64 {
            u32::MAX
        } else {
            wide as u32
        }
    }

    /// The number as a `usize`: cut off towards zero and held within the
    /// type's range; 0 where it is not a number.
    pub fn to_usize(&self) -> (r: usize)
        ensures
            r == clamp(self.truncated(), 0, usize::MAX as int),
    {
        let wide = self.to_u64();
        if wide > usize::MAX as u64 {
            usize::MAX
        } else {
            wide as usize
        }
    }
}

} // verus!
