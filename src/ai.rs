//! Audio interface (AI).

use crate::codec::{extract_spec, inject_spec, RangeError};
use crate::field::{Access, Field, RegisterWidth};
use vstd::arithmetic::power2::pow2;
use vstd::prelude::*;

verus! {

/// Base address of the AI register block.
pub const AI_BASE_REG: u32 = 0x0450_0000;

/// Byte offset of the DRAM address register: where the audio sample lies.
pub const AI_DRAM_ADDR_REG: u32 = 0x00;

/// Byte offset of the length register: the audio sample's length.
pub const AI_LEN_REG: u32 = 0x04;

/// Byte offset of the control register.
pub const AI_CONTROL_REG: u32 = 0x08;

/// Byte offset of the status register.
pub const AI_STATUS_REG: u32 = 0x0C;

/// Byte offset of the DAC rate register.
pub const AI_DACRATE_REG: u32 = 0x10;

/// Byte offset of the bitrate register.
pub const AI_BITRATE_REG: u32 = 0x14;

/// Exclusive ownership of the AI register block.
///
/// The one token of this type comes out of the hardware registry; holding it
/// is what entitles code to access the block's registers.
#[derive(Debug)]
pub struct Ai {
    owned: (),
}

impl Ai {
    pub(crate) fn new() -> (r: Ai) {
        Ai { owned: () }
    }

    /// Address of the block's first register.
    pub fn ptr() -> (r: u32)
        ensures
            r == AI_BASE_REG,
    {
        AI_BASE_REG
    }
}

/// The raw values of the AI registers, one per register in address
/// order.
#[derive(Clone, Copy, Debug, PartialEq, Eq, Structural)]
pub struct AiRegisters {
    /// Address of audio sample in DRAM.
    pub ai_dram_addr_reg: u32,
    /// Length of audio sample.
    pub ai_len_reg: u32,
    /// Control.
    pub ai_control_reg: u32,
    /// Status.
    pub ai_status_reg: u32,
    /// DAC rate.
    pub ai_dacrate_reg: u32,
    /// Bitrate.
    pub ai_bitrate_reg: u32,
}

/// The named fields of the AI registers.
#[derive(Clone, Copy, Debug, PartialEq, Eq, Structural)]
pub enum AiField {
    DramAddrDramAddr,
    LenTransferLengthV1,
    LenTransferLengthV2,
    ControlDmaEnable,
    StatusAiBusy,
    StatusAiFull,
    StatusClearAiIntr,
    DacrateDacrate,
    BitrateBitrate,
}

impl AiField {
    pub open spec fn spec_field(self) -> Field {
        match self {
            AiField::DramAddrDramAddr => Field { register: RegisterWidth::Bits32, offset: 0, width: 24, access: Access::WriteOnly },
            AiField::LenTransferLengthV1 => Field { register: RegisterWidth::Bits32, offset: 0, width: 15, access: Access::ReadWrite },
            AiField::LenTransferLengthV2 => Field { register: RegisterWidth::Bits32, offset: 0, width: 18, access: Access::ReadWrite },
            AiField::ControlDmaEnable => Field { register: RegisterWidth::Bits32, offset: 0, width: 1, access: Access::WriteOnly },
            AiField::StatusAiBusy => Field { register: RegisterWidth::Bits32, offset: 30, width: 1, access: Access::ReadOnly },
            AiField::StatusAiFull => Field { register: RegisterWidth::Bits32, offset: 31, width: 1, access: Access::ReadOnly },
            AiField::StatusClearAiIntr => Field { register: RegisterWidth::Bits32, offset: 0, width: 1, access: Access::WriteOnly },
            AiField::DacrateDacrate => Field { register: RegisterWidth::Bits32, offset: 0, width: 14, access: Access::WriteOnly },
            AiField::BitrateBitrate => Field { register: RegisterWidth::Bits32, offset: 0, width: 4, access: Access::WriteOnly },
        }
    }

    pub open spec fn spec_register(self) -> u32 {
        match self {
            AiField::DramAddrDramAddr => AI_DRAM_ADDR_REG,
            AiField::LenTransferLengthV1
            | AiField::LenTransferLengthV2 => AI_LEN_REG,
            AiField::ControlDmaEnable => AI_CONTROL_REG,
            AiField::StatusAiBusy
            | AiField::StatusAiFull
            | AiField::StatusClearAiIntr => AI_STATUS_REG,
            AiField::DacrateDacrate => AI_DACRATE_REG,
            AiField::BitrateBitrate => AI_BITRATE_REG,
        }
    }

    /// Where the field lies in its register, and how it may be used.
    pub fn field(&self) -> (r: Field)
        ensures
            r == self.spec_field(),
            r.wf(),
    {
        match self {
            AiField::DramAddrDramAddr => Field { register: RegisterWidth::Bits32, offset: 0, width: 24, access: Access::WriteOnly },
            AiField::LenTransferLengthV1 => Field { register: RegisterWidth::Bits32, offset: 0, width: 15, access: Access::ReadWrite },
            AiField::LenTransferLengthV2 => Field { register: RegisterWidth::Bits32, offset: 0, width: 18, access: Access::ReadWrite },
            AiField::ControlDmaEnable => Field { register: RegisterWidth::Bits32, offset: 0, width: 1, access: Access::WriteOnly },
            AiField::StatusAiBusy => Field { register: RegisterWidth::Bits32, offset: 30, width: 1, access: Access::ReadOnly },
            AiField::StatusAiFull => Field { register: RegisterWidth::Bits32, offset: 31, width: 1, access: Access::ReadOnly },
            AiField::StatusClearAiIntr => Field { register: RegisterWidth::Bits32, offset: 0, width: 1, access: Access::WriteOnly },
            AiField::DacrateDacrate => Field { register: RegisterWidth::Bits32, offset: 0, width: 14, access: Access::WriteOnly },
            AiField::BitrateBitrate => Field { register: RegisterWidth::Bits32, offset: 0, width: 4, access: Access::WriteOnly },
        }
    }

    /// Byte offset of the field's register from the block's base address.
    pub fn register(&self) -> (r: u32)
        ensures
            r == self.spec_register(),
    {
        match self {
            AiField::DramAddrDramAddr => AI_DRAM_ADDR_REG,
            AiField::LenTransferLengthV1
            | AiField::LenTransferLengthV2 => AI_LEN_REG,
            AiField::ControlDmaEnable => AI_CONTROL_REG,
            AiField::StatusAiBusy
            | AiField::StatusAiFull
            | AiField::StatusClearAiIntr => AI_STATUS_REG,
            AiField::DacrateDacrate => AI_DACRATE_REG,
            AiField::BitrateBitrate => AI_BITRATE_REG,
        }
    }
}

impl AiRegisters {
    /// The raw value of the register at byte offset `register`.
    pub open spec fn spec_raw(self, register: u32) -> u32 {
        if register == AI_DRAM_ADDR_REG {
            self.ai_dram_addr_reg
        } else if register == AI_LEN_REG {
            self.ai_len_reg
        } else if register == AI_CONTROL_REG {
            self.ai_control_reg
        } else if register == AI_STATUS_REG {
            self.ai_status_reg
        } else if register == AI_DACRATE_REG {
            self.ai_dacrate_reg
        } else if register == AI_BITRATE_REG {
            self.ai_bitrate_reg
        } else {
            0
        }
    }

    /// The block with the register at byte offset `register` set to `raw`.
    pub open spec fn spec_with_raw(self, register: u32, raw: u32) -> AiRegisters {
        if register == AI_DRAM_ADDR_REG {
            AiRegisters { ai_dram_addr_reg: raw, ..self }
        } else if register == AI_LEN_REG {
            AiRegisters { ai_len_reg: raw, ..self }
        } else if register == AI_CONTROL_REG {
            AiRegisters { ai_control_reg: raw, ..self }
        } else if register == AI_STATUS_REG {
            AiRegisters { ai_status_reg: raw, ..self }
        } else if register == AI_DACRATE_REG {
            AiRegisters { ai_dacrate_reg: raw, ..self }
        } else if register == AI_BITRATE_REG {
            AiRegisters { ai_bitrate_reg: raw, ..self }
        } else {
            self
        }
    }

    fn raw_of(&self, field: AiField) -> (r: u32)
        ensures
            r == self.spec_raw(field.spec_register()),
    {
        match field {
            AiField::DramAddrDramAddr => self.ai_dram_addr_reg,
            AiField::LenTransferLengthV1
            | AiField::LenTransferLengthV2 => self.ai_len_reg,
            AiField::ControlDmaEnable => self.ai_control_reg,
            AiField::StatusAiBusy
            | AiField::StatusAiFull
            | AiField::StatusClearAiIntr => self.ai_status_reg,
            AiField::DacrateDacrate => self.ai_dacrate_reg,
            AiField::BitrateBitrate => self.ai_bitrate_reg,
        }
    }

    fn set_raw_of(&mut self, field: AiField, raw: u32)
        ensures
            *final(self) == old(self).spec_with_raw(field.spec_register(), raw),
    {
        match field {
            AiField::DramAddrDramAddr => self.ai_dram_addr_reg = raw,
            AiField::LenTransferLengthV1
            | AiField::LenTransferLengthV2 => self.ai_len_reg = raw,
            AiField::ControlDmaEnable => self.ai_control_reg = raw,
            AiField::StatusAiBusy
            | AiField::StatusAiFull
            | AiField::StatusClearAiIntr => self.ai_status_reg = raw,
            AiField::DacrateDacrate => self.ai_dacrate_reg = raw,
            AiField::BitrateBitrate => self.ai_bitrate_reg = raw,
        }
    }

    /// The value of `field` in its register.
    pub fn get(&self, field: AiField) -> (r: u32)
        requires
            field.spec_field().access.can_read(),
        ensures
            r == extract_spec(
                self.spec_raw(field.spec_register()),
                field.spec_field().offset,
                field.spec_field().width,
            ),
    {
        field.field().get(self.raw_of(field))
    }

    /// Sets `field` to `value` in its register, leaving every other bit of
    /// the block as it was; a value too wide for the field is refused and
    /// nothing changes.
    pub fn set(&mut self, field: AiField, value: u32) -> (r: Result<(), RangeError>)
        requires
            field.spec_field().access.can_write(),
        ensures
            (value as nat) < pow2(field.spec_field().width as nat) <==> r is Ok,
            r is Ok ==> *final(self) == old(self).spec_with_raw(
                field.spec_register(),
                inject_spec(
                    old(self).spec_raw(field.spec_register()),
                    field.spec_field().offset,
                    field.spec_field().width,
                    value,
                ),
            ),
            r is Err ==> *final(self) == *old(self),
    {
        let raw = field.field().set(self.raw_of(field), value)?;
        self.set_raw_of(field, raw);
        Ok(())
    }
}

} // verus!
