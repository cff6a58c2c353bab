//! Packing and unpacking of bit ranges inside a raw 32-bit register value.

use vstd::arithmetic::power2::{lemma2_to64, pow2};
use vstd::bits::{
    lemma_u32_low_bits_mask_is_mod, lemma_u32_shl_is_mul, lemma_u32_shr_is_div, low_bits_mask,
};
use vstd::prelude::*;

verus! {

/// A bit range `[offset, offset + width)` that lies inside a 32-bit value.
pub open spec fn range_fits(offset: u32, width: u32) -> bool {
    1 <= width && offset + width <= 32
}

/// The value with the low `width` bits set (for `1 <= width <= 32`).
pub open spec fn low_mask(width: u32) -> u32 {
    0xffff_ffffu32 >> ((32 - width) as u32)
}

/// `raw` shifted right by `offset`, masked to `width` bits.
pub open spec fn extract_spec(raw: u32, offset: u32, width: u32) -> u32 {
    (raw >> offset) & low_mask(width)
}

/// `raw` with the range `[offset, offset + width)` cleared, then set to the
/// low `width` bits of `value`.
pub open spec fn inject_spec(raw: u32, offset: u32, width: u32, value: u32) -> u32 {
    (raw & !(low_mask(width) << offset)) | ((value & low_mask(width)) << offset)
}

/// The mask of `width` bits is `2^width - 1`.
pub proof fn lemma_low_mask_value(width: u32)
    requires
        1 <= width <= 32,
    ensures
        low_mask(width) as nat == pow2(width as nat) - 1,
        low_mask(width) as nat == low_bits_mask(width as nat),
{
    lemma2_to64();
    if width == 32 {
        assert(0xffff_ffffu32 >> 0u32 == 0xffff_ffffu32) by (bit_vector);
    } else {
        assert(0xffff_ffffu32 >> ((32 - width) as u32) == vstd::prelude::sub(1u32 << width, 1u32))
            by (bit_vector)
            requires
                1 <= width < 32,
        ;
        vstd::bits::lemma_u32_pow2_no_overflow(width as nat);
        lemma_u32_shl_is_mul(1, width);
    }
}

/// A value fits in `width` bits exactly when it is below `2^width`.
pub proof fn lemma_fits_iff_below_pow2(value: u32, width: u32)
    requires
        1 <= width <= 32,
    ensures
        (value <= low_mask(width)) <==> (value as nat) < pow2(width as nat),
        (value <= low_mask(width)) <==> (value & !low_mask(width)) == 0,
{
    lemma_low_mask_value(width);
    assert((value <= low_mask(width)) <==> (value & !low_mask(width)) == 0) by (bit_vector)
        requires
            1 <= width <= 32,
    ;
}

/// Masking to `width` bits is taking the remainder modulo `2^width`.
pub proof fn lemma_mask_is_mod(value: u32, width: u32)
    requires
        1 <= width <= 32,
    ensures
        (value & low_mask(width)) as nat == value as nat % pow2(width as nat),
{
    lemma_low_mask_value(width);
    if width == 32 {
        assert(value & low_mask(32) == value) by (bit_vector);
        lemma2_to64();
        vstd::arithmetic::div_mod::lemma_small_mod(value as nat, pow2(32));
    } else {
        lemma_u32_low_bits_mask_is_mod(value, width as nat);
        vstd::bits::lemma_u32_pow2_no_overflow(width as nat);
    }
}

/// Extraction reads the range as a number: `(raw / 2^offset) mod 2^width`.
pub proof fn lemma_extract_value(raw: u32, offset: u32, width: u32)
    requires
        range_fits(offset, width),
    ensures
        extract_spec(raw, offset, width) as nat == (raw as nat / pow2(offset as nat)) % pow2(
            width as nat,
        ),
{
    lemma2_to64();
    lemma_u32_shr_is_div(raw, offset);
    lemma_low_mask_value(width);
    let shifted = raw >> offset;
    if width == 32 {
        assert(shifted & 0xffff_ffffu32 == shifted) by (bit_vector);
        assert(low_mask(32) == 0xffff_ffffu32) by (bit_vector);
        assert((shifted as nat) < pow2(32));
        vstd::arithmetic::div_mod::lemma_small_mod(shifted as nat, pow2(32));
    } else {
        lemma_u32_low_bits_mask_is_mod(shifted, width as nat);
        vstd::bits::lemma_u32_pow2_no_overflow(width as nat);
    }
}

/// Extracting a range right after writing it gives back the written value.
pub proof fn lemma_round_trip(raw: u32, offset: u32, width: u32, value: u32)
    requires
        range_fits(offset, width),
        (value as nat) < pow2(width as nat),
    ensures
        extract_spec(inject_spec(raw, offset, width, value), offset, width) == value,
{
    lemma_fits_iff_below_pow2(value, width);
    assert(extract_spec(inject_spec(raw, offset, width, value), offset, width) == value)
        by (bit_vector)
        requires
            1 <= width,
            offset + width <= 32,
            value <= low_mask(width),
    ;
}

/// Writing one range leaves every range that does not overlap it unchanged.
pub proof fn lemma_disjoint_write(
    raw: u32,
    offset: u32,
    width: u32,
    value: u32,
    other_offset: u32,
    other_width: u32,
)
    requires
        range_fits(offset, width),
        range_fits(other_offset, other_width),
        offset + width <= other_offset || other_offset + other_width <= offset,
    ensures
        extract_spec(inject_spec(raw, offset, width, value), other_offset, other_width)
            == extract_spec(raw, other_offset, other_width),
{
    assert(extract_spec(inject_spec(raw, offset, width, value), other_offset, other_width)
        == extract_spec(raw, other_offset, other_width)) by (bit_vector)
        requires
            1 <= width,
            offset + width <= 32,
            1 <= other_width,
            other_offset + other_width <= 32,
            offset + width <= other_offset || other_offset + other_width <= offset,
    ;
}

/// A value was wider than the field it was meant for.
#[derive(Clone, Copy, Debug, PartialEq, Eq, Structural)]
pub struct RangeError {
    /// The value that was refused.
    pub value: u32,
    /// The width, in bits, that it had to fit in.
    pub width: u32,
}

/// The mask of the low `width` bits.
pub fn mask(width: u32) -> (r: u32)
    requires
        1 <= width <= 32,
    ensures
        r == low_mask(width),
        r as nat == pow2(width as nat) - 1,
{
    proof {
        lemma_low_mask_value(width);
    }
    0xffff_ffffu32 >> (32 - width)
}

/// Reads the range `[offset, offset + width)` of `raw`, shifted down to bit 0.
pub fn extract(raw: u32, offset: u32, width: u32) -> (r: u32)
    requires
        range_fits(offset, width),
    ensures
        r == extract_spec(raw, offset, width),
        r as nat == (raw as nat / pow2(offset as nat)) % pow2(width as nat),
        (r as nat) < pow2(width as nat),
{
    let r = (raw >> offset) & mask(width);
    proof {
        lemma_extract_value(raw, offset, width);
        lemma_fits_iff_below_pow2(r, width);
        assert(r <= low_mask(width)) by (bit_vector)
            requires
                r == (raw >> offset) & low_mask(width),
        ;
    }
    r
}

/// Writes the low `width` bits of `value` into the range
/// `[offset, offset + width)` of `raw`; bits of `value` above the range are
/// dropped, and every bit of `raw` outside the range is kept.
pub fn inject(raw: u32, offset: u32, width: u32, value: u32) -> (r: u32)
    requires
        range_fits(offset, width),
    ensures
        r == inject_spec(raw, offset, width, value),
        extract_spec(r, offset, width) as nat == value as nat % pow2(width as nat),
{
    let m = mask(width);
    proof {
        assert(extract_spec(inject_spec(raw, offset, width, value), offset, width) == value & m)
            by (bit_vector)
            requires
                1 <= width,
                offset + width <= 32,
                m == low_mask(width),
        ;
        lemma_mask_is_mod(value, width);
    }
    (raw & !(m << offset)) | ((value & m) << offset)
}

/// Checks that `value` fits in `width` bits and hands it back unchanged;
/// a wider value is refused, never truncated.
pub fn try_pack(value: u32, width: u32) -> (r: Result<u32, RangeError>)
    requires
        1 <= width <= 32,
    ensures
        (value as nat) < pow2(width as nat) ==> r == Ok::<u32, RangeError>(value),
        (value as nat) >= pow2(width as nat) ==> r == Err::<u32, RangeError>(
            RangeError { value, width },
        ),
{
    proof {
        lemma_fits_iff_below_pow2(value, width);
    }
    if value <= mask(width) {
        Ok(value)
    } else {
        Err(RangeError { value, width })
    }
}

} // verus!
