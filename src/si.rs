//! Serial interface (SI).

use crate::codec::{extract_spec, inject_spec, RangeError};
use crate::field::{Access, Field, RegisterWidth};
use vstd::arithmetic::power2::pow2;
use vstd::prelude::*;

verus! {

/// Base address of the SI register block.
pub const SI_BASE_REG: u32 = 0x0480_0000;

/// Byte offset of the DRAM address register.
pub const SI_DRAM_ADDR_REG: u32 = 0x00;

/// Byte offset of the PIF address read 64 bits register.
pub const SI_PIF_ADDR_RD64B_REG: u32 = 0x04;

/// Byte offset of the PIF address write 64 bits register.
pub const SI_PIF_ADDR_WR64B_REG: u32 = 0x10;

/// Byte offset of the status register.
pub const SI_STATUS_REG: u32 = 0x18;

/// Exclusive ownership of the SI register block.
///
/// The one token of this type comes out of the hardware registry; holding it
/// is what entitles code to access the block's registers.
#[derive(Debug)]
pub struct Si {
    owned: (),
}

impl Si {
    pub(crate) fn new() -> (r: Si) {
        Si { owned: () }
    }

    /// Address of the block's first register.
    pub fn ptr() -> (r: u32)
        ensures
            r == SI_BASE_REG,
    {
        SI_BASE_REG
    }
}

/// The raw values of the SI registers, one per register in address
/// order.
#[derive(Clone, Copy, Debug, PartialEq, Eq, Structural)]
pub struct SiRegisters {
    /// DRAM address.
    pub si_dram_addr_reg: u32,
    /// PIF address read 64 bits.
    pub si_pif_addr_rd64b_reg: u32,
    /// Reserved.
    pub reserved_0: u32,
    /// Reserved.
    pub reserved_1: u32,
    /// PIF address write 64 bits.
    pub si_pif_addr_wr64b_reg: u32,
    /// Reserved.
    pub reserved_2: u32,
    /// Status.
    pub si_status_reg: u32,
}

/// The named fields of the SI registers.
#[derive(Clone, Copy, Debug, PartialEq, Eq, Structural)]
pub enum SiField {
    DramAddrStartingRdramAddress,
    PifAddrRd64bDmaWrite64b,
    PifAddrWr64bDmaRead64b,
    StatusDmaBusy,
    StatusIoReadBusy,
    StatusDmaError,
    StatusInterrupt,
    StatusClearIntr,
}

impl SiField {
    pub open spec fn spec_field(self) -> Field {
        match self {
            SiField::DramAddrStartingRdramAddress => Field { register: RegisterWidth::Bits32, offset: 0, width: 24, access: Access::ReadWrite },
            SiField::PifAddrRd64bDmaWrite64b => Field { register: RegisterWidth::Bits32, offset: 0, width: 1, access: Access::WriteOnly },
            SiField::PifAddrWr64bDmaRead64b => Field { register: RegisterWidth::Bits32, offset: 0, width: 1, access: Access::WriteOnly },
            SiField::StatusDmaBusy => Field { register: RegisterWidth::Bits32, offset: 0, width: 1, access: Access::ReadOnly },
            SiField::StatusIoReadBusy => Field { register: RegisterWidth::Bits32, offset: 1, width: 1, access: Access::ReadOnly },
            SiField::StatusDmaError => Field { register: RegisterWidth::Bits32, offset: 3, width: 1, access: Access::ReadOnly },
            SiField::StatusInterrupt => Field { register: RegisterWidth::Bits32, offset: 12, width: 1, access: Access::ReadOnly },
            SiField::StatusClearIntr => Field { register: RegisterWidth::Bits32, offset: 0, width: 1, access: Access::WriteOnly },
        }
    }

    pub open spec fn spec_register(self) -> u32 {
        match self {
            SiField::DramAddrStartingRdramAddress => SI_DRAM_ADDR_REG,
            SiField::PifAddrRd64bDmaWrite64b => SI_PIF_ADDR_RD64B_REG,
            SiField::PifAddrWr64bDmaRead64b => SI_PIF_ADDR_WR64B_REG,
            SiField::StatusDmaBusy
            | SiField::StatusIoReadBusy
            | SiField::StatusDmaError
            | SiField::StatusInterrupt
            | SiField::StatusClearIntr => SI_STATUS_REG,
        }
    }

    /// Where the field lies in its register, and how it may be used.
    pub fn field(&self) -> (r: Field)
        ensures
            r == self.spec_field(),
            r.wf(),
    {
        match self {
            SiField::DramAddrStartingRdramAddress => Field { register: RegisterWidth::Bits32, offset: 0, width: 24, access: Access::ReadWrite },
            SiField::PifAddrRd64bDmaWrite64b => Field { register: RegisterWidth::Bits32, offset: 0, width: 1, access: Access::WriteOnly },
            SiField::PifAddrWr64bDmaRead64b => Field { register: RegisterWidth::Bits32, offset: 0, width: 1, access: Access::WriteOnly },
            SiField::StatusDmaBusy => Field { register: RegisterWidth::Bits32, offset: 0, width: 1, access: Access::ReadOnly },
            SiField::StatusIoReadBusy => Field { register: RegisterWidth::Bits32, offset: 1, width: 1, access: Access::ReadOnly },
            SiField::StatusDmaError => Field { register: RegisterWidth::Bits32, offset: 3, width: 1, access: Access::ReadOnly },
            SiField::StatusInterrupt => Field { register: RegisterWidth::Bits32, offset: 12, width: 1, access: Access::ReadOnly },
            SiField::StatusClearIntr => Field { register: RegisterWidth::Bits32, offset: 0, width: 1, access: Access::WriteOnly },
        }
    }

    /// Byte offset of the field's register from the block's base address.
    pub fn register(&self) -> (r: u32)
        ensures
            r == self.spec_register(),
    {
        match self {
            SiField::DramAddrStartingRdramAddress => SI_DRAM_ADDR_REG,
            SiField::PifAddrRd64bDmaWrite64b => SI_PIF_ADDR_RD64B_REG,
            SiField::PifAddrWr64bDmaRead64b => SI_PIF_ADDR_WR64B_REG,
            SiField::StatusDmaBusy
            | SiField::StatusIoReadBusy
            | SiField::StatusDmaError
            | SiField::StatusInterrupt
            | SiField::StatusClearIntr => SI_STATUS_REG,
        }
    }
}

impl SiRegisters {
    /// The raw value of the register at byte offset `register`.
    pub open spec fn spec_raw(self, register: u32) -> u32 {
        if register == SI_DRAM_ADDR_REG {
            self.si_dram_addr_reg
        } else if register == SI_PIF_ADDR_RD64B_REG {
            self.si_pif_addr_rd64b_reg
        } else if register == SI_PIF_ADDR_WR64B_REG {
            self.si_pif_addr_wr64b_reg
        } else if register == SI_STATUS_REG {
            self.si_status_reg
        } else {
            0
        }
    }

    /// The block with the register at byte offset `register` set to `raw`.
    pub open spec fn spec_with_raw(self, register: u32, raw: u32) -> SiRegisters {
        if register == SI_DRAM_ADDR_REG {
            SiRegisters { si_dram_addr_reg: raw, ..self }
        } else if register == SI_PIF_ADDR_RD64B_REG {
            SiRegisters { si_pif_addr_rd64b_reg: raw, ..self }
        } else if register == SI_PIF_ADDR_WR64B_REG {
            SiRegisters { si_pif_addr_wr64b_reg: raw, ..self }
        } else if register == SI_STATUS_REG {
            SiRegisters { si_status_reg: raw, ..self }
        } else {
            self
        }
    }

    fn raw_of(&self, field: SiField) -> (r: u32)
        ensures
            r == self.spec_raw(field.spec_register()),
    {
        match field {
            SiField::DramAddrStartingRdramAddress => self.si_dram_addr_reg,
            SiField::PifAddrRd64bDmaWrite64b => self.si_pif_addr_rd64b_reg,
            SiField::PifAddrWr64bDmaRead64b => self.si_pif_addr_wr64b_reg,
            SiField::StatusDmaBusy
            | SiField::StatusIoReadBusy
            | SiField::StatusDmaError
            | SiField::StatusInterrupt
            | SiField::StatusClearIntr => self.si_status_reg,
        }
    }

    fn set_raw_of(&mut self, field: SiField, raw: u32)
        ensures
            *final(self) == old(self).spec_with_raw(field.spec_register(), raw),
    {
        match field {
            SiField::DramAddrStartingRdramAddress => self.si_dram_addr_reg = raw,
            SiField::PifAddrRd64bDmaWrite64b => self.si_pif_addr_rd64b_reg = raw,
            SiField::PifAddrWr64bDmaRead64b => self.si_pif_addr_wr64b_reg = raw,
            SiField::StatusDmaBusy
            | SiField::StatusIoReadBusy
            | SiField::StatusDmaError
            | SiField::StatusInterrupt
            | SiField::StatusClearIntr => self.si_status_reg = raw,
        }
    }

    /// The value of `field` in its register.
    pub fn get(&self, field: SiField) -> (r: u32)
        requires
            field.spec_field().access.can_read(),
        ensures
            r == extract_spec(
                self.spec_raw(field.spec_register()),
                field.spec_field().offset,
                field.spec_field().width,
            ),
    {
        field.field().get(self.raw_of(field))
    }

    /// Sets `field` to `value` in its register, leaving every other bit of
    /// the block as it was; a value too wide for the field is refused and
    /// nothing changes.
    pub fn set(&mut self, field: SiField, value: u32) -> (r: Result<(), RangeError>)
        requires
            field.spec_field().access.can_write(),
        ensures
            (value as nat) < pow2(field.spec_field().width as nat) <==> r is Ok,
            r is Ok ==> *final(self) == old(self).spec_with_raw(
                field.spec_register(),
                inject_spec(
                    old(self).spec_raw(field.spec_register()),
                    field.spec_field().offset,
                    field.spec_field().width,
                    value,
                ),
            ),
            r is Err ==> *final(self) == *old(self),
    {
        let raw = field.field().set(self.raw_of(field), value)?;
        self.set_raw_of(field, raw);
        Ok(())
    }
}

} // verus!
