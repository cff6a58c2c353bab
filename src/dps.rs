//! Display processor span (DPS).

use crate::codec::{extract_spec, inject_spec, RangeError};
use crate::field::{Access, Field, RegisterWidth};
use vstd::arithmetic::power2::pow2;
use vstd::prelude::*;

verus! {

/// Base address of the DPS register block.
pub const DPS_BASE_ADDR: u32 = 0x0420_0000;

/// Byte offset of the TBIST register.
pub const DPS_TBIST_REG: u32 = 0x00;

/// Byte offset of the test mode register.
pub const DPS_TEST_MODE_REG: u32 = 0x04;

/// Byte offset of the buffer test address register.
pub const DPS_BUFTEST_ADDR_REG: u32 = 0x08;

/// Byte offset of the buffer test data register.
pub const DPS_BUFTEST_DATA_REG: u32 = 0x0C;

/// Exclusive ownership of the DPS register block.
///
/// The one token of this type comes out of the hardware registry; holding it
/// is what entitles code to access the block's registers.
#[derive(Debug)]
pub struct Dps {
    owned: (),
}

impl Dps {
    pub(crate) fn new() -> (r: Dps) {
        Dps { owned: () }
    }

    /// Address of the block's first register.
    pub fn ptr() -> (r: u32)
        ensures
            r == DPS_BASE_ADDR,
    {
        DPS_BASE_ADDR
    }
}

/// The raw values of the DPS registers, one per register in address
/// order.
#[derive(Clone, Copy, Debug, PartialEq, Eq, Structural)]
pub struct DpsRegisters {
    /// TBIST.
    pub dps_tbist_reg: u32,
    /// Test mode.
    pub dps_test_mode_reg: u32,
    /// Buffer test address.
    pub dps_buftest_addr_reg: u32,
    /// Buffer test data.
    pub dps_buftest_data_reg: u32,
}

/// The named fields of the DPS registers.
#[derive(Clone, Copy, Debug, PartialEq, Eq, Structural)]
pub enum DpsField {
    TbistBistCheck,
    TbistBistGo,
    TbistBistClear,
    TbistBistDone,
    TbistBistFail,
    TestModeSpanBufferTestAccessEnable,
    BuftestAddrSpanBufferAddress,
    BuftestDataSpanBufferData,
}

impl DpsField {
    pub open spec fn spec_field(self) -> Field {
        match self {
            DpsField::TbistBistCheck => Field { register: RegisterWidth::Bits32, offset: 0, width: 1, access: Access::ReadWrite },
            DpsField::TbistBistGo => Field { register: RegisterWidth::Bits32, offset: 1, width: 1, access: Access::ReadWrite },
            DpsField::TbistBistClear => Field { register: RegisterWidth::Bits32, offset: 2, width: 1, access: Access::WriteOnly },
            DpsField::TbistBistDone => Field { register: RegisterWidth::Bits32, offset: 2, width: 1, access: Access::ReadOnly },
            DpsField::TbistBistFail => Field { register: RegisterWidth::Bits32, offset: 3, width: 8, access: Access::ReadOnly },
            DpsField::TestModeSpanBufferTestAccessEnable => Field { register: RegisterWidth::Bits32, offset: 0, width: 1, access: Access::ReadWrite },
            DpsField::BuftestAddrSpanBufferAddress => Field { register: RegisterWidth::Bits32, offset: 0, width: 7, access: Access::ReadWrite },
            DpsField::BuftestDataSpanBufferData => Field { register: RegisterWidth::Bits32, offset: 0, width: 32, access: Access::ReadWrite },
        }
    }

    pub open spec fn spec_register(self) -> u32 {
        match self {
            DpsField::TbistBistCheck
            | DpsField::TbistBistGo
            | DpsField::TbistBistClear
            | DpsField::TbistBistDone
            | DpsField::TbistBistFail => DPS_TBIST_REG,
            DpsField::TestModeSpanBufferTestAccessEnable => DPS_TEST_MODE_REG,
            DpsField::BuftestAddrSpanBufferAddress => DPS_BUFTEST_ADDR_REG,
            DpsField::BuftestDataSpanBufferData => DPS_BUFTEST_DATA_REG,
        }
    }

    /// Where the field lies in its register, and how it may be used.
    pub fn field(&self) -> (r: Field)
        ensures
            r == self.spec_field(),
            r.wf(),
    {
        match self {
            DpsField::TbistBistCheck => Field { register: RegisterWidth::Bits32, offset: 0, width: 1, access: Access::ReadWrite },
            DpsField::TbistBistGo => Field { register: RegisterWidth::Bits32, offset: 1, width: 1, access: Access::ReadWrite },
            DpsField::TbistBistClear => Field { register: RegisterWidth::Bits32, offset: 2, width: 1, access: Access::WriteOnly },
            DpsField::TbistBistDone => Field { register: RegisterWidth::Bits32, offset: 2, width: 1, access: Access::ReadOnly },
            DpsField::TbistBistFail => Field { register: RegisterWidth::Bits32, offset: 3, width: 8, access: Access::ReadOnly },
            DpsField::TestModeSpanBufferTestAccessEnable => Field { register: RegisterWidth::Bits32, offset: 0, width: 1, access: Access::ReadWrite },
            DpsField::BuftestAddrSpanBufferAddress => Field { register: RegisterWidth::Bits32, offset: 0, width: 7, access: Access::ReadWrite },
            DpsField::BuftestDataSpanBufferData => Field { register: RegisterWidth::Bits32, offset: 0, width: 32, access: Access::ReadWrite },
        }
    }

    /// Byte offset of the field's register from the block's base address.
    pub fn register(&self) -> (r: u32)
        ensures
            r == self.spec_register(),
    {
        match self {
            DpsField::TbistBistCheck
            | DpsField::TbistBistGo
            | DpsField::TbistBistClear
            | DpsField::TbistBistDone
            | DpsField::TbistBistFail => DPS_TBIST_REG,
            DpsField::TestModeSpanBufferTestAccessEnable => DPS_TEST_MODE_REG,
            DpsField::BuftestAddrSpanBufferAddress => DPS_BUFTEST_ADDR_REG,
            DpsField::BuftestDataSpanBufferData => DPS_BUFTEST_DATA_REG,
        }
    }
}

impl DpsRegisters {
    /// The raw value of the register at byte offset `register`.
    pub open spec fn spec_raw(self, register: u32) -> u32 {
        if register == DPS_TBIST_REG {
            self.dps_tbist_reg
        } else if register == DPS_TEST_MODE_REG {
            self.dps_test_mode_reg
        } else if register == DPS_BUFTEST_ADDR_REG {
            self.dps_buftest_addr_reg
        } else if register == DPS_BUFTEST_DATA_REG {
            self.dps_buftest_data_reg
        } else {
            0
        }
    }

    /// The block with the register at byte offset `register` set to `raw`.
    pub open spec fn spec_with_raw(self, register: u32, raw: u32) -> DpsRegisters {
        if register == DPS_TBIST_REG {
            DpsRegisters { dps_tbist_reg: raw, ..self }
        } else if register == DPS_TEST_MODE_REG {
            DpsRegisters { dps_test_mode_reg: raw, ..self }
        } else if register == DPS_BUFTEST_ADDR_REG {
            DpsRegisters { dps_buftest_addr_reg: raw, ..self }
        } else if register == DPS_BUFTEST_DATA_REG {
            DpsRegisters { dps_buftest_data_reg: raw, ..self }
        } else {
            self
        }
    }

    fn raw_of(&self, field: DpsField) -> (r: u32)
        ensures
            r == self.spec_raw(field.spec_register()),
    {
        match field {
            DpsField::TbistBistCheck
            | DpsField::TbistBistGo
            | DpsField::TbistBistClear
            | DpsField::TbistBistDone
            | DpsField::TbistBistFail => self.dps_tbist_reg,
            DpsField::TestModeSpanBufferTestAccessEnable => self.dps_test_mode_reg,
            DpsField::BuftestAddrSpanBufferAddress => self.dps_buftest_addr_reg,
            DpsField::BuftestDataSpanBufferData => self.dps_buftest_data_reg,
        }
    }

    fn set_raw_of(&mut self, field: DpsField, raw: u32)
        ensures
            *final(self) == old(self).spec_with_raw(field.spec_register(), raw),
    {
        match field {
            DpsField::TbistBistCheck
            | DpsField::TbistBistGo
            | DpsField::TbistBistClear
            | DpsField::TbistBistDone
            | DpsField::TbistBistFail => self.dps_tbist_reg = raw,
            DpsField::TestModeSpanBufferTestAccessEnable => self.dps_test_mode_reg = raw,
            DpsField::BuftestAddrSpanBufferAddress => self.dps_buftest_addr_reg = raw,
            DpsField::BuftestDataSpanBufferData => self.dps_buftest_data_reg = raw,
        }
    }

    /// The value of `field` in its register.
    pub fn get(&self, field: DpsField) -> (r: u32)
        requires
            field.spec_field().access.can_read(),
        ensures
            r == extract_spec(
                self.spec_raw(field.spec_register()),
                field.spec_field().offset,
                field.spec_field().width,
            ),
    {
        field.field().get(self.raw_of(field))
    }

    /// Sets `field` to `value` in its register, leaving every other bit of
    /// the block as it was; a value too wide for the field is refused and
    /// nothing changes.
    pub fn set(&mut self, field: DpsField, value: u32) -> (r: Result<(), RangeError>)
        requires
            field.spec_field().access.can_write(),
        ensures
            (value as nat) < pow2(field.spec_field().width as nat) <==> r is Ok,
            r is Ok ==> *final(self) == old(self).spec_with_raw(
                field.spec_register(),
                inject_spec(
                    old(self).spec_raw(field.spec_register()),
                    field.spec_field().offset,
                    field.spec_field().width,
                    value,
                ),
            ),
            r is Err ==> *final(self) == *old(self),
    {
        let raw = field.field().set(self.raw_of(field), value)?;
        self.set_raw_of(field, raw);
        Ok(())
    }
}

} // verus!
