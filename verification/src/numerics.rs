//! Shifts, saturation, byte order and the division by 255 that the kernels are
//! built from.

use crate::yuv_support::YuvBytesPacking;
use crate::yuv_support::YuvEndianness;
use vstd::arithmetic::div_mod::lemma_fundamental_div_mod;
use vstd::arithmetic::div_mod::lemma_fundamental_div_mod_converse;
use vstd::arithmetic::power2::lemma2_to64;
use vstd::arithmetic::power2::lemma_pow2_pos;
use vstd::arithmetic::power2::lemma_pow2_strictly_increases;
use vstd::arithmetic::power2::pow2;
use vstd::bits::lemma_u16_shr_is_div;
use vstd::bits::lemma_u64_pow2_no_overflow;
use vstd::bits::lemma_u64_shl_is_mul;
use vstd::bits::lemma_u64_shr_is_div;
use vstd::prelude::*;

verus! {

/// `value` held to the closed interval from `low` to `high`.
pub open spec fn saturate(value: int, low: int, high: int) -> int {
    if value < low {
        low
    } else if value > high {
        high
    } else {
        value
    }
}

/// An arithmetic right shift: the quotient of `value` by `2^bits`, rounded
/// towards minus infinity.
pub open spec fn floor_shift(value: int, bits: nat) -> int {
    value / (pow2(bits) as int)
}

/// The largest sample of `bit_depth` bits.
pub open spec fn max_sample(bit_depth: nat) -> int {
    pow2(bit_depth) - 1
}

/// The product of two bounded integers is bounded by the product of the
/// bounds.
pub proof fn lemma_product_bound(a: int, b: int, bound_a: int, bound_b: int)
    by (nonlinear_arith)
    requires
        -bound_a <= a <= bound_a,
        -bound_b <= b <= bound_b,
    ensures
        -(bound_a * bound_b) <= a * b <= bound_a * bound_b,
{
}

/// The floor of a negative quotient, through a quotient of naturals.
pub proof fn lemma_floor_of_negative(value: int, divisor: int)
    requires
        value < 0,
        divisor > 0,
    ensures
        value / divisor == -((-value - 1) / divisor) - 1,
{
    let u = -value - 1;
    let q = u / divisor;
    let r = u % divisor;
    lemma_fundamental_div_mod(u, divisor);
    assert(u == divisor * q + r);
    assert(value == (-q - 1) * divisor + (divisor - 1 - r)) by (nonlinear_arith)
        requires
            u == divisor * q + r,
            value == -u - 1,
    ;
    lemma_fundamental_div_mod_converse(value, divisor, -q - 1, divisor - 1 - r);
}

/// `2^bits`, for a power that fits.
pub fn power_of_two(bits: u32) -> (power: u64)
    requires
        bits < 63,
    ensures
        power == pow2(bits as nat),
        0 < power <= 0x4000_0000_0000_0000,
{
    proof {
        lemma_u64_pow2_no_overflow(bits as nat);
        lemma_u64_shl_is_mul(1, bits as u64);
        lemma2_to64();
        vstd::arithmetic::power2::lemma2_to64_rest();
        if bits < 62 {
            lemma_pow2_strictly_increases(bits as nat, 62);
        }
    }
    1u64 << (bits as u64)
}

/// `value >> bits` on a signed value.
pub fn shift_right(value: i64, bits: u32) -> (shifted: i64)
    requires
        bits < 63,
    ensures
        shifted == floor_shift(value as int, bits as nat),
{
    proof {
        lemma_pow2_pos(bits as nat);
    }
    if value >= 0 {
        let magnitude: u64 = value as u64;
        proof {
            lemma_u64_shr_is_div(magnitude, bits as u64);
        }
        (magnitude >> (bits as u64)) as i64
    } else {
        let magnitude: u64 = (-(value + 1)) as u64;
        proof {
            lemma_u64_shr_is_div(magnitude, bits as u64);
            lemma_floor_of_negative(value as int, pow2(bits as nat) as int);
        }
        -((magnitude >> (bits as u64)) as i64) - 1
    }
}

/// A sum of products brought back to samples: shifted right by `bits` and held
/// to the interval from `low` to `high`. The rounding constant is part of
/// `value` already.
pub fn shift_saturate(value: i64, bits: u32, low: i32, high: i32) -> (sample: i32)
    requires
        bits < 63,
        low <= high,
    ensures
        sample == saturate(floor_shift(value as int, bits as nat), low as int, high as int),
{
    let shifted: i64 = shift_right(value, bits);
    if shifted < low as i64 {
        low
    } else if shifted > high as i64 {
        high
    } else {
        shifted as i32
    }
}

/// The sums of products of samples and 32-bit coefficients stay below this
/// bound, far from the limits of `i64`.
pub const ACCUMULATOR_LIMIT: i64 = 0x1000_0000_0000_0000;

/// Quantized rounding shift: `value` plus half of `2^precision`, shifted right
/// by `precision`, saturated to the samples of `bit_depth` bits.
pub open spec fn spec_qrshr(value: int, precision: nat, bit_depth: nat) -> int {
    saturate(
        floor_shift(value + pow2((precision - 1) as nat), precision),
        0,
        max_sample(bit_depth),
    )
}

/// Computes [`spec_qrshr`].
pub fn qrshr(value: i64, precision: u32, bit_depth: u32) -> (sample: i32)
    requires
        1 <= precision <= 30,
        bit_depth <= 16,
        -ACCUMULATOR_LIMIT <= value <= ACCUMULATOR_LIMIT,
    ensures
        sample == spec_qrshr(value as int, precision as nat, bit_depth as nat),
        0 <= sample <= max_sample(bit_depth as nat) <= 0xffff,
{
    let rounding: u64 = power_of_two(precision - 1);
    let top: u64 = power_of_two(bit_depth);
    proof {
        lemma2_to64();
        if precision - 1 < 30 {
            lemma_pow2_strictly_increases((precision - 1) as nat, 30);
        }
        if bit_depth < 16 {
            lemma_pow2_strictly_increases(bit_depth as nat, 16);
        }
    }
    shift_saturate(value + rounding as i64, precision, 0, (top - 1) as i32)
}

/// The two bytes of a 16-bit word in exchanged places.
pub open spec fn swap_bytes(word: u16) -> u16 {
    ((word % 256) * 256 + word / 256) as u16
}

/// Computes [`swap_bytes`].
pub fn swapped(word: u16) -> (turned: u16)
    ensures
        turned == swap_bytes(word),
{
    (word % 256) * 256 + word / 256
}

/// `u16::from_be`, which takes a word stored most significant byte first to
/// the byte order of the machine. On a big-endian machine it returns the word
/// as it is, on a little-endian machine with its bytes exchanged; nothing
/// more is claimed, since the outcome depends on the machine.
#[verifier::external_body]
fn word_from_be(word: u16) -> (native: u16)
    ensures
        native == word || native == swap_bytes(word),
{
    u16::from_be(word)
}

/// The byte order of the machine the conversion runs on. Nothing is known of
/// it before it is asked for.
pub fn host_endianness() -> (host: YuvEndianness) {
    // The probe is the word 1 taken as stored most significant byte first: a
    // machine of that byte order reads it back as 1, the other as 256. What
    // byte order a probe tells is decided by `byte_order_of_probe`.
    let probe: u16 = word_from_be(1);
    byte_order_of_probe(probe)
}

/// The byte order that a probe tells: the word 1, taken as stored most
/// significant byte first, comes back as 1 on a big-endian machine and with
/// its bytes exchanged on a little-endian one.
pub open spec fn spec_byte_order_of_probe(probe: u16) -> YuvEndianness {
    if probe == 1 {
        YuvEndianness::BigEndian
    } else {
        YuvEndianness::LittleEndian
    }
}

/// Computes [`spec_byte_order_of_probe`].
pub fn byte_order_of_probe(probe: u16) -> (order: YuvEndianness)
    ensures
        order == spec_byte_order_of_probe(probe),
{
    if probe == 1 {
        YuvEndianness::BigEndian
    } else {
        YuvEndianness::LittleEndian
    }
}

/// A stored 16-bit word brought to the sample it holds, on a machine of byte
/// order `host`: the bytes are taken in the declared order first, then a
/// sample that sits in the high bits of its word is shifted down by
/// `msb_shift`.
pub open spec fn spec_to_ne(
    word: u16,
    endianness: YuvEndianness,
    packing: YuvBytesPacking,
    msb_shift: nat,
    host: YuvEndianness,
) -> u16 {
    let native = if endianness == host {
        word
    } else {
        swap_bytes(word)
    };
    if packing == YuvBytesPacking::MostSignificantBytes {
        (native as nat / pow2(msb_shift)) as u16
    } else {
        native
    }
}

/// Computes [`spec_to_ne`].
pub fn to_ne(
    word: u16,
    endianness: YuvEndianness,
    packing: YuvBytesPacking,
    msb_shift: u32,
    host: YuvEndianness,
) -> (sample: u16)
    requires
        msb_shift < 16,
    ensures
        sample == spec_to_ne(word, endianness, packing, msb_shift as nat, host),
{
    let native: u16 = if endianness == host {
        word
    } else {
        swapped(word)
    };
    if packing == YuvBytesPacking::MostSignificantBytes {
        proof {
            lemma_u16_shr_is_div(native, msb_shift as u16);
        }
        native >> (msb_shift as u16)
    } else {
        native
    }
}

/// How the 16-bit words of a plane hold their samples, and the byte order of
/// the machine that reads them.
#[derive(Debug, Copy, Clone, PartialEq, Eq, Structural)]
pub struct SampleLayout {
    pub endianness: YuvEndianness,
    pub packing: YuvBytesPacking,
    pub bit_depth: u32,
    pub host: YuvEndianness,
}

impl SampleLayout {
    /// The samples have between 1 and 16 bits.
    pub open spec fn wf(self) -> bool {
        1 <= self.bit_depth <= 16
    }

    /// The sample that a stored word holds.
    pub open spec fn decode(self, word: u16) -> u16 {
        spec_to_ne(
            word,
            self.endianness,
            self.packing,
            (16 - self.bit_depth) as nat,
            self.host,
        )
    }

    /// Computes [`SampleLayout::decode`].
    pub fn load(&self, word: u16) -> (sample: u16)
        requires
            self.wf(),
        ensures
            sample == self.decode(word),
    {
        to_ne(word, self.endianness, self.packing, 16 - self.bit_depth, self.host)
    }
}

/// `v * a / 255` rounded to nearest, by shifts: the scaling of a colour
/// sample `v` by an alpha sample `a` of 8 bits.
pub open spec fn spec_div_by_255(product: int) -> int {
    (product + 128 + (product + 128) / 256) / 256
}

/// Computes [`spec_div_by_255`].
pub fn div_by_255(product: u32) -> (quotient: u32)
    requires
        product <= 0xffff,
    ensures
        quotient == spec_div_by_255(product as int),
        quotient <= 0x101,
{
    let biased: u32 = product + 128;
    (biased + biased / 256) / 256
}

/// For products of two 8-bit samples the shifts give the nearest integer to
/// `product / 255`, halves rounded up.
pub proof fn lemma_div_by_255_rounds(product: int)
    requires
        0 <= product <= 255 * 255,
    ensures
        spec_div_by_255(product) == (2 * product + 255) / 510,
        0 <= spec_div_by_255(product) <= 255,
{
    let p = product as u32;
    assert((p + 128 + (p + 128) / 256) / 256 == (2 * p + 255) / 510 && (2 * p + 255) / 510 <= 255)
        by (bit_vector)
        requires
            p <= 65025,
    ;
}

/// A colour sample scaled by an alpha sample: `value * alpha / 255` rounded
/// to nearest.
pub open spec fn spec_premultiply(value: int, alpha: int) -> int {
    spec_div_by_255(value * alpha)
}

/// Computes [`spec_premultiply`].
pub fn premultiply(value: u8, alpha: u8) -> (scaled: u8)
    ensures
        scaled == spec_premultiply(value as int, alpha as int),
        scaled <= value,
{
    proof {
        lemma_product_bound(value as int, alpha as int, 255, 255);
        assert(0 <= value * alpha <= value * 255) by (nonlinear_arith)
            requires
                0 <= value,
                0 <= alpha <= 255,
        ;
        lemma_div_by_255_rounds(value * alpha);
    }
    div_by_255(value as u32 * alpha as u32) as u8
}

} // verus!
