//! Field descriptors: a named bit range of a register, with its access mode.

use crate::codec::{
    extract, extract_spec, inject, inject_spec, try_pack, RangeError,
};
use crate::value::FieldValue;
use vstd::arithmetic::power2::{lemma2_to64, pow2};
use vstd::prelude::*;

verus! {

/// Which directions a field may be used in.
#[derive(Clone, Copy, Debug, PartialEq, Eq, Structural)]
pub enum Access {
    /// Only read: the bits report hardware state.
    ReadOnly,
    /// Only written: the bits trigger an action and read back as something else.
    WriteOnly,
    /// Read and written.
    ReadWrite,
}

impl Access {
    pub open spec fn can_read(self) -> bool {
        !(self is WriteOnly)
    }

    pub open spec fn can_write(self) -> bool {
        !(self is ReadOnly)
    }

    /// Whether a field with this access mode may be read.
    pub fn readable(&self) -> (r: bool)
        ensures
            r == self.can_read(),
    {
        !matches!(self, Access::WriteOnly)
    }

    /// Whether a field with this access mode may be written.
    pub fn writable(&self) -> (r: bool)
        ensures
            r == self.can_write(),
    {
        !matches!(self, Access::ReadOnly)
    }
}

/// The width of a register cell.
#[derive(Clone, Copy, Debug, PartialEq, Eq, Structural)]
pub enum RegisterWidth {
    Bits8,
    Bits16,
    Bits32,
}

impl RegisterWidth {
    pub open spec fn bit_count(self) -> u32 {
        match self {
            RegisterWidth::Bits8 => 8,
            RegisterWidth::Bits16 => 16,
            RegisterWidth::Bits32 => 32,
        }
    }

    /// Number of bits in a register of this width.
    pub fn bits(&self) -> (r: u32)
        ensures
            r == self.bit_count(),
    {
        match self {
            RegisterWidth::Bits8 => 8,
            RegisterWidth::Bits16 => 16,
            RegisterWidth::Bits32 => 32,
        }
    }

    /// Whether `raw` is a value that a register of this width can hold.
    pub open spec fn holds(self, raw: u32) -> bool {
        (raw as nat) < pow2(self.bit_count() as nat)
    }
}

/// Writing a range that lies inside a register keeps the value inside the
/// register: no bit above the register's width is ever set.
pub proof fn lemma_inject_stays_in_register(
    register: RegisterWidth,
    raw: u32,
    offset: u32,
    width: u32,
    value: u32,
)
    requires
        1 <= width,
        offset + width <= register.bit_count(),
    ensures
        register.holds(raw) ==> register.holds(inject_spec(raw, offset, width, value)),
{
    lemma2_to64();
    let r = inject_spec(raw, offset, width, value);
    match register {
        RegisterWidth::Bits8 => {
            assert(raw < 0x100 ==> r < 0x100) by (bit_vector)
                requires
                    r == inject_spec(raw, offset, width, value),
                    1 <= width,
                    offset + width <= 8,
            ;
        },
        RegisterWidth::Bits16 => {
            assert(raw < 0x1_0000 ==> r < 0x1_0000) by (bit_vector)
                requires
                    r == inject_spec(raw, offset, width, value),
                    1 <= width,
                    offset + width <= 16,
            ;
        },
        RegisterWidth::Bits32 => {},
    }
}

/// Why a field definition was refused.
#[derive(Clone, Copy, Debug, PartialEq, Eq, Structural)]
pub enum LayoutError {
    /// The field has no bits.
    ZeroWidth,
    /// The field reaches past the last bit of its register.
    PastRegisterEnd,
}

/// A named, contiguous bit range `[offset, offset + width)` of a register.
///
/// A field owns no storage: it reads from and writes into raw register values
/// that the caller holds. Two fields of one register may share bits when their
/// access modes differ (a bit that reports one thing when read and triggers
/// another when written).
#[derive(Clone, Copy, Debug, PartialEq, Eq, Structural)]
pub struct Field {
    pub register: RegisterWidth,
    pub offset: u32,
    pub width: u32,
    pub access: Access,
}

impl Field {
    /// The field has at least one bit and lies inside its register.
    pub open spec fn wf(self) -> bool {
        1 <= self.width && self.offset + self.width <= self.register.bit_count()
    }

    /// Defines a field, refusing one with no bits or one that does not fit in
    /// its register.
    pub fn new(register: RegisterWidth, offset: u32, width: u32, access: Access) -> (r: Result<
        Field,
        LayoutError,
    >)
        ensures
            width == 0 ==> r == Err::<Field, LayoutError>(LayoutError::ZeroWidth),
            width >= 1 && offset + width > register.bit_count() ==> r == Err::<Field, LayoutError>(
                LayoutError::PastRegisterEnd,
            ),
            width >= 1 && offset + width <= register.bit_count() ==> r == Ok::<Field, LayoutError>(
                Field { register, offset, width, access },
            ),
    {
        if width == 0 {
            Err(LayoutError::ZeroWidth)
        } else if width > register.bits() || offset > register.bits() - width {
            Err(LayoutError::PastRegisterEnd)
        } else {
            Ok(Field { register, offset, width, access })
        }
    }

    /// Whether the descriptor has at least one bit and fits in its register.
    pub fn is_valid(&self) -> (r: bool)
        ensures
            r == self.wf(),
    {
        self.width >= 1 && self.width <= self.register.bits() && self.offset
            <= self.register.bits() - self.width
    }

    /// The field's value in the raw register value `raw`.
    pub fn get(&self, raw: u32) -> (r: u32)
        requires
            self.wf(),
            self.access.can_read(),
        ensures
            r == extract_spec(raw, self.offset, self.width),
            (r as nat) < pow2(self.width as nat),
    {
        extract(raw, self.offset, self.width)
    }

    /// The field's value in `raw`, as a value of the field's width.
    pub fn read(&self, raw: u32) -> (r: FieldValue)
        requires
            self.wf(),
            self.access.can_read(),
        ensures
            r.spec_width() == self.width,
            r.spec_value() == extract_spec(raw, self.offset, self.width),
    {
        FieldValue::fitting(self.get(raw), self.width)
    }

    /// The value of a one-bit field in `raw`.
    pub fn get_flag(&self, raw: u32) -> (r: bool)
        requires
            self.wf(),
            self.access.can_read(),
            self.width == 1,
        ensures
            r == (extract_spec(raw, self.offset, 1) == 1),
    {
        extract(raw, self.offset, 1) == 1
    }

    /// `raw` with the field set to `value`, or an error, with `raw` left as it
    /// was, when `value` does not fit in the field.
    pub fn set(&self, raw: u32, value: u32) -> (r: Result<u32, RangeError>)
        requires
            self.wf(),
            self.access.can_write(),
        ensures
            (value as nat) < pow2(self.width as nat) ==> r == Ok::<u32, RangeError>(
                inject_spec(raw, self.offset, self.width, value),
            ),
            (value as nat) >= pow2(self.width as nat) ==> r == Err::<u32, RangeError>(
                RangeError { value, width: self.width },
            ),
            r is Ok && self.register.holds(raw) ==> self.register.holds(r->Ok_0),
    {
        let v = try_pack(value, self.width)?;
        proof {
            lemma_inject_stays_in_register(self.register, raw, self.offset, self.width, v);
        }
        Ok(inject(raw, self.offset, self.width, v))
    }

    /// `raw` with the field set to `value`, which is known to fit.
    pub fn write(&self, raw: u32, value: FieldValue) -> (r: u32)
        requires
            self.wf(),
            self.access.can_write(),
            value.spec_width() == self.width,
        ensures
            r == inject_spec(raw, self.offset, self.width, value.spec_value()),
            self.register.holds(raw) ==> self.register.holds(r),
    {
        self.set_truncating(raw, value.value())
    }

    /// `raw` with the field set to the low bits of `value`; higher bits of
    /// `value` are dropped.
    pub fn set_truncating(&self, raw: u32, value: u32) -> (r: u32)
        requires
            self.wf(),
            self.access.can_write(),
        ensures
            r == inject_spec(raw, self.offset, self.width, value),
            self.register.holds(raw) ==> self.register.holds(r),
    {
        proof {
            lemma_inject_stays_in_register(self.register, raw, self.offset, self.width, value);
        }
        inject(raw, self.offset, self.width, value)
    }

    /// `raw` with a one-bit field set to 1 for `true` and 0 for `false`.
    pub fn set_flag(&self, raw: u32, flag: bool) -> (r: u32)
        requires
            self.wf(),
            self.access.can_write(),
            self.width == 1,
        ensures
            r == inject_spec(raw, self.offset, 1, if flag { 1 } else { 0 }),
            self.register.holds(raw) ==> self.register.holds(r),
    {
        proof {
            lemma_inject_stays_in_register(self.register, raw, self.offset, 1, if flag { 1 } else { 0 });
        }
        inject(raw, self.offset, 1, if flag { 1 } else { 0 })
    }
}

} // verus!
