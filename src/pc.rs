//! RSP program counter (PC).

use crate::codec::{extract_spec, inject_spec, RangeError};
use crate::field::{Access, Field, RegisterWidth};
use vstd::arithmetic::power2::pow2;
use vstd::prelude::*;

verus! {

/// Base address of the PC register block.
pub const PC_BASE_ADDR: u32 = 0x0408_0000;

/// Byte offset of the program counter register.
pub const SP_PC_REG: u32 = 0x00;

/// Byte offset of the IMEM BIST register.
pub const SP_IBIST_REG: u32 = 0x04;

/// Exclusive ownership of the PC register block.
///
/// The one token of this type comes out of the hardware registry; holding it
/// is what entitles code to access the block's registers.
#[derive(Debug)]
pub struct Pc {
    owned: (),
}

impl Pc {
    pub(crate) fn new() -> (r: Pc) {
        Pc { owned: () }
    }

    /// Address of the block's first register.
    pub fn ptr() -> (r: u32)
        ensures
            r == PC_BASE_ADDR,
    {
        PC_BASE_ADDR
    }
}

/// The raw values of the PC registers, one per register in address
/// order.
#[derive(Clone, Copy, Debug, PartialEq, Eq, Structural)]
pub struct PcRegisters {
    /// Program counter.
    pub sp_pc_reg: u32,
    /// IMEM BIST.
    pub sp_ibist_reg: u32,
}

/// The named fields of the PC registers.
#[derive(Clone, Copy, Debug, PartialEq, Eq, Structural)]
pub enum PcField {
    PcProgramCounter,
    IbistBistCheck,
    IbistBistGo,
    IbistBistDone,
    IbistBistFail,
    IbistBistClear,
}

impl PcField {
    pub open spec fn spec_field(self) -> Field {
        match self {
            PcField::PcProgramCounter => Field { register: RegisterWidth::Bits32, offset: 0, width: 12, access: Access::ReadWrite },
            PcField::IbistBistCheck => Field { register: RegisterWidth::Bits32, offset: 0, width: 1, access: Access::ReadWrite },
            PcField::IbistBistGo => Field { register: RegisterWidth::Bits32, offset: 1, width: 1, access: Access::ReadWrite },
            PcField::IbistBistDone => Field { register: RegisterWidth::Bits32, offset: 2, width: 1, access: Access::ReadOnly },
            PcField::IbistBistFail => Field { register: RegisterWidth::Bits32, offset: 3, width: 4, access: Access::ReadOnly },
            PcField::IbistBistClear => Field { register: RegisterWidth::Bits32, offset: 2, width: 1, access: Access::WriteOnly },
        }
    }

    pub open spec fn spec_register(self) -> u32 {
        match self {
            PcField::PcProgramCounter => SP_PC_REG,
            PcField::IbistBistCheck
            | PcField::IbistBistGo
            | PcField::IbistBistDone
            | PcField::IbistBistFail
            | PcField::IbistBistClear => SP_IBIST_REG,
        }
    }

    /// Where the field lies in its register, and how it may be used.
    pub fn field(&self) -> (r: Field)
        ensures
            r == self.spec_field(),
            r.wf(),
    {
        match self {
            PcField::PcProgramCounter => Field { register: RegisterWidth::Bits32, offset: 0, width: 12, access: Access::ReadWrite },
            PcField::IbistBistCheck => Field { register: RegisterWidth::Bits32, offset: 0, width: 1, access: Access::ReadWrite },
            PcField::IbistBistGo => Field { register: RegisterWidth::Bits32, offset: 1, width: 1, access: Access::ReadWrite },
            PcField::IbistBistDone => Field { register: RegisterWidth::Bits32, offset: 2, width: 1, access: Access::ReadOnly },
            PcField::IbistBistFail => Field { register: RegisterWidth::Bits32, offset: 3, width: 4, access: Access::ReadOnly },
            PcField::IbistBistClear => Field { register: RegisterWidth::Bits32, offset: 2, width: 1, access: Access::WriteOnly },
        }
    }

    /// Byte offset of the field's register from the block's base address.
    pub fn register(&self) -> (r: u32)
        ensures
            r == self.spec_register(),
    {
        match self {
            PcField::PcProgramCounter => SP_PC_REG,
            PcField::IbistBistCheck
            | PcField::IbistBistGo
            | PcField::IbistBistDone
            | PcField::IbistBistFail
            | PcField::IbistBistClear => SP_IBIST_REG,
        }
    }
}

impl PcRegisters {
    /// The raw value of the register at byte offset `register`.
    pub open spec fn spec_raw(self, register: u32) -> u32 {
        if register == SP_PC_REG {
            self.sp_pc_reg
        } else if register == SP_IBIST_REG {
            self.sp_ibist_reg
        } else {
            0
        }
    }

    /// The block with the register at byte offset `register` set to `raw`.
    pub open spec fn spec_with_raw(self, register: u32, raw: u32) -> PcRegisters {
        if register == SP_PC_REG {
            PcRegisters { sp_pc_reg: raw, ..self }
        } else if register == SP_IBIST_REG {
            PcRegisters { sp_ibist_reg: raw, ..self }
        } else {
            self
        }
    }

    fn raw_of(&self, field: PcField) -> (r: u32)
        ensures
            r == self.spec_raw(field.spec_register()),
    {
        match field {
            PcField::PcProgramCounter => self.sp_pc_reg,
            PcField::IbistBistCheck
            | PcField::IbistBistGo
            | PcField::IbistBistDone
            | PcField::IbistBistFail
            | PcField::IbistBistClear => self.sp_ibist_reg,
        }
    }

    fn set_raw_of(&mut self, field: PcField, raw: u32)
        ensures
            *final(self) == old(self).spec_with_raw(field.spec_register(), raw),
    {
        match field {
            PcField::PcProgramCounter => self.sp_pc_reg = raw,
            PcField::IbistBistCheck
            | PcField::IbistBistGo
            | PcField::IbistBistDone
            | PcField::IbistBistFail
            | PcField::IbistBistClear => self.sp_ibist_reg = raw,
        }
    }

    /// The value of `field` in its register.
    pub fn get(&self, field: PcField) -> (r: u32)
        requires
            field.spec_field().access.can_read(),
        ensures
            r == extract_spec(
                self.spec_raw(field.spec_register()),
                field.spec_field().offset,
                field.spec_field().width,
            ),
    {
        field.field().get(self.raw_of(field))
    }

    /// Sets `field` to `value` in its register, leaving every other bit of
    /// the block as it was; a value too wide for the field is refused and
    /// nothing changes.
    pub fn set(&mut self, field: PcField, value: u32) -> (r: Result<(), RangeError>)
        requires
            field.spec_field().access.can_write(),
        ensures
            (value as nat) < pow2(field.spec_field().width as nat) <==> r is Ok,
            r is Ok ==> *final(self) == old(self).spec_with_raw(
                field.spec_register(),
                inject_spec(
                    old(self).spec_raw(field.spec_register()),
                    field.spec_field().offset,
                    field.spec_field().width,
                    value,
                ),
            ),
            r is Err ==> *final(self) == *old(self),
    {
        let raw = field.field().set(self.raw_of(field), value)?;
        self.set_raw_of(field, raw);
        Ok(())
    }
}

} // verus!
