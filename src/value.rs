//! Values that are known to fit in a field of a given width.

use crate::codec::{
    lemma_fits_iff_below_pow2, lemma_mask_is_mod, low_mask, mask, try_pack, RangeError,
};
use vstd::arithmetic::power2::pow2;
use vstd::prelude::*;

verus! {

/// An unsigned value of at most `width` bits (`1 <= width <= 32`).
///
/// It is made either by checking that a number fits, which refuses one that
/// does not, or by keeping only the number's low bits; the two are kept apart.
#[derive(Clone, Copy, Debug, PartialEq, Eq, Structural)]
pub struct FieldValue {
    width: u32,
    value: u32,
}

impl FieldValue {
    #[verifier::type_invariant]
    spec fn inv(self) -> bool {
        1 <= self.width <= 32 && (self.value as nat) < pow2(self.width as nat)
    }

    pub closed spec fn spec_width(self) -> u32 {
        self.width
    }

    pub closed spec fn spec_value(self) -> u32 {
        self.value
    }

    /// `value` as a value of `width` bits, or an error when it needs more.
    pub fn try_new(value: u32, width: u32) -> (r: Result<FieldValue, RangeError>)
        requires
            1 <= width <= 32,
        ensures
            (value as nat) < pow2(width as nat) <==> r is Ok,
            r is Ok ==> r->Ok_0.spec_value() == value && r->Ok_0.spec_width() == width,
            r is Err ==> r == Err::<FieldValue, RangeError>(RangeError { value, width }),
    {
        let v = try_pack(value, width)?;
        Ok(FieldValue { width, value: v })
    }

    /// `value`, already known to fit in `width` bits.
    pub(crate) fn fitting(value: u32, width: u32) -> (r: FieldValue)
        requires
            1 <= width <= 32,
            (value as nat) < pow2(width as nat),
        ensures
            r.spec_width() == width,
            r.spec_value() == value,
    {
        FieldValue { width, value }
    }

    /// The low `width` bits of `value`.
    pub fn truncating(value: u32, width: u32) -> (r: FieldValue)
        requires
            1 <= width <= 32,
        ensures
            r.spec_width() == width,
            r.spec_value() as nat == value as nat % pow2(width as nat),
    {
        let v = value & mask(width);
        proof {
            lemma_mask_is_mod(value, width);
            lemma_fits_iff_below_pow2(v, width);
            assert(v <= low_mask(width)) by (bit_vector)
                requires
                    v == value & low_mask(width),
            ;
        }
        FieldValue { width, value: v }
    }

    /// The number held.
    pub fn value(&self) -> (r: u32)
        ensures
            r == self.spec_value(),
            (r as nat) < pow2(self.spec_width() as nat),
    {
        proof {
            use_type_invariant(self);
        }
        self.value
    }

    /// The width, in bits, that the number is known to fit in.
    pub fn width(&self) -> (r: u32)
        ensures
            r == self.spec_width(),
            1 <= r <= 32,
    {
        proof {
            use_type_invariant(self);
        }
        self.width
    }
}

} // verus!
