//! RDRAM interface (RI).

use crate::codec::{extract_spec, inject_spec, RangeError};
use crate::field::{Access, Field, RegisterWidth};
use vstd::arithmetic::power2::pow2;
use vstd::prelude::*;

verus! {

/// Base address of the RI register block.
pub const RI_BASE_ADDR: u32 = 0x0470_0000;

/// Byte offset of the mode register.
pub const RI_MODE_REG: u32 = 0x00;

/// Byte offset of the config register.
pub const RI_CONFIG_REG: u32 = 0x04;

/// Byte offset of the current load register.
pub const RI_CURRENT_LOAD_REG: u32 = 0x08;

/// Byte offset of the select register.
pub const RI_SELECT_REG: u32 = 0x0C;

/// Byte offset of the refresh register.
pub const RI_REFRESH_REG: u32 = 0x10;

/// Byte offset of the latency register.
pub const RI_LATENCY_REG: u32 = 0x14;

/// Byte offset of the read error register.
pub const RI_RERROR_REG: u32 = 0x18;

/// Byte offset of the write error register.
pub const RI_WERROR_REG: u32 = 0x1C;

/// Exclusive ownership of the RI register block.
///
/// The one token of this type comes out of the hardware registry; holding it
/// is what entitles code to access the block's registers.
#[derive(Debug)]
pub struct Ri {
    owned: (),
}

impl Ri {
    pub(crate) fn new() -> (r: Ri) {
        Ri { owned: () }
    }

    /// Address of the block's first register.
    pub fn ptr() -> (r: u32)
        ensures
            r == RI_BASE_ADDR,
    {
        RI_BASE_ADDR
    }
}

/// The raw values of the RI registers, one per register in address
/// order.
#[derive(Clone, Copy, Debug, PartialEq, Eq, Structural)]
pub struct RiRegisters {
    /// Mode.
    pub ri_mode_reg: u32,
    /// Config.
    pub ri_config_reg: u32,
    /// Current load.
    pub ri_current_load_reg: u32,
    /// Select.
    pub ri_select_reg: u32,
    /// Refresh.
    pub ri_refresh_reg: u32,
    /// Latency.
    pub ri_latency_reg: u32,
    /// Read error.
    pub ri_rerror_reg: u32,
    /// Write error.
    pub ri_werror_reg: u32,
}

/// The named fields of the RI registers.
#[derive(Clone, Copy, Debug, PartialEq, Eq, Structural)]
pub enum RiField {
    ModeOperatingMode,
    ModeStopTransmitActive,
    ModeStopReceiveActive,
    ConfigCurrentControlInput,
    ConfigCurrentControlEnable,
    SelectTransmitSelect,
    SelectReceiveSelect,
    RefreshCleanRefreshDelay,
    RefreshDirtyRefreshDelay,
    RefreshRefreshBank,
    RefreshRefreshEnable,
    RefreshRefreshOptimize,
    LatencyDmaLatencyOverlap,
    RerrorNackError,
    RerrorAckError,
}

impl RiField {
    pub open spec fn spec_field(self) -> Field {
        match self {
            RiField::ModeOperatingMode => Field { register: RegisterWidth::Bits32, offset: 0, width: 2, access: Access::ReadWrite },
            RiField::ModeStopTransmitActive => Field { register: RegisterWidth::Bits32, offset: 2, width: 1, access: Access::ReadWrite },
            RiField::ModeStopReceiveActive => Field { register: RegisterWidth::Bits32, offset: 3, width: 1, access: Access::ReadWrite },
            RiField::ConfigCurrentControlInput => Field { register: RegisterWidth::Bits32, offset: 0, width: 6, access: Access::ReadWrite },
            RiField::ConfigCurrentControlEnable => Field { register: RegisterWidth::Bits32, offset: 6, width: 1, access: Access::ReadWrite },
            RiField::SelectTransmitSelect => Field { register: RegisterWidth::Bits32, offset: 0, width: 4, access: Access::ReadWrite },
            RiField::SelectReceiveSelect => Field { register: RegisterWidth::Bits32, offset: 4, width: 4, access: Access::ReadWrite },
            RiField::RefreshCleanRefreshDelay => Field { register: RegisterWidth::Bits32, offset: 0, width: 7, access: Access::ReadWrite },
            RiField::RefreshDirtyRefreshDelay => Field { register: RegisterWidth::Bits32, offset: 8, width: 7, access: Access::ReadWrite },
            RiField::RefreshRefreshBank => Field { register: RegisterWidth::Bits32, offset: 16, width: 1, access: Access::ReadWrite },
            RiField::RefreshRefreshEnable => Field { register: RegisterWidth::Bits32, offset: 17, width: 1, access: Access::ReadWrite },
            RiField::RefreshRefreshOptimize => Field { register: RegisterWidth::Bits32, offset: 18, width: 1, access: Access::ReadWrite },
            RiField::LatencyDmaLatencyOverlap => Field { register: RegisterWidth::Bits32, offset: 0, width: 4, access: Access::ReadWrite },
            RiField::RerrorNackError => Field { register: RegisterWidth::Bits32, offset: 0, width: 1, access: Access::ReadOnly },
            RiField::RerrorAckError => Field { register: RegisterWidth::Bits32, offset: 1, width: 1, access: Access::ReadOnly },
        }
    }

    pub open spec fn spec_register(self) -> u32 {
        match self {
            RiField::ModeOperatingMode
            | RiField::ModeStopTransmitActive
            | RiField::ModeStopReceiveActive => RI_MODE_REG,
            RiField::ConfigCurrentControlInput
            | RiField::ConfigCurrentControlEnable => RI_CONFIG_REG,
            RiField::SelectTransmitSelect
            | RiField::SelectReceiveSelect => RI_SELECT_REG,
            RiField::RefreshCleanRefreshDelay
            | RiField::RefreshDirtyRefreshDelay
            | RiField::RefreshRefreshBank
            | RiField::RefreshRefreshEnable
            | RiField::RefreshRefreshOptimize => RI_REFRESH_REG,
            RiField::LatencyDmaLatencyOverlap => RI_LATENCY_REG,
            RiField::RerrorNackError
            | RiField::RerrorAckError => RI_RERROR_REG,
        }
    }

    /// Where the field lies in its register, and how it may be used.
    pub fn field(&self) -> (r: Field)
        ensures
            r == self.spec_field(),
            r.wf(),
    {
        match self {
            RiField::ModeOperatingMode => Field { register: RegisterWidth::Bits32, offset: 0, width: 2, access: Access::ReadWrite },
            RiField::ModeStopTransmitActive => Field { register: RegisterWidth::Bits32, offset: 2, width: 1, access: Access::ReadWrite },
            RiField::ModeStopReceiveActive => Field { register: RegisterWidth::Bits32, offset: 3, width: 1, access: Access::ReadWrite },
            RiField::ConfigCurrentControlInput => Field { register: RegisterWidth::Bits32, offset: 0, width: 6, access: Access::ReadWrite },
            RiField::ConfigCurrentControlEnable => Field { register: RegisterWidth::Bits32, offset: 6, width: 1, access: Access::ReadWrite },
            RiField::SelectTransmitSelect => Field { register: RegisterWidth::Bits32, offset: 0, width: 4, access: Access::ReadWrite },
            RiField::SelectReceiveSelect => Field { register: RegisterWidth::Bits32, offset: 4, width: 4, access: Access::ReadWrite },
            RiField::RefreshCleanRefreshDelay => Field { register: RegisterWidth::Bits32, offset: 0, width: 7, access: Access::ReadWrite },
            RiField::RefreshDirtyRefreshDelay => Field { register: RegisterWidth::Bits32, offset: 8, width: 7, access: Access::ReadWrite },
            RiField::RefreshRefreshBank => Field { register: RegisterWidth::Bits32, offset: 16, width: 1, access: Access::ReadWrite },
            RiField::RefreshRefreshEnable => Field { register: RegisterWidth::Bits32, offset: 17, width: 1, access: Access::ReadWrite },
            RiField::RefreshRefreshOptimize => Field { register: RegisterWidth::Bits32, offset: 18, width: 1, access: Access::ReadWrite },
            RiField::LatencyDmaLatencyOverlap => Field { register: RegisterWidth::Bits32, offset: 0, width: 4, access: Access::ReadWrite },
            RiField::RerrorNackError => Field { register: RegisterWidth::Bits32, offset: 0, width: 1, access: Access::ReadOnly },
            RiField::RerrorAckError => Field { register: RegisterWidth::Bits32, offset: 1, width: 1, access: Access::ReadOnly },
        }
    }

    /// Byte offset of the field's register from the block's base address.
    pub fn register(&self) -> (r: u32)
        ensures
            r == self.spec_register(),
    {
        match self {
            RiField::ModeOperatingMode
            | RiField::ModeStopTransmitActive
            | RiField::ModeStopReceiveActive => RI_MODE_REG,
            RiField::ConfigCurrentControlInput
            | RiField::ConfigCurrentControlEnable => RI_CONFIG_REG,
            RiField::SelectTransmitSelect
            | RiField::SelectReceiveSelect => RI_SELECT_REG,
            RiField::RefreshCleanRefreshDelay
            | RiField::RefreshDirtyRefreshDelay
            | RiField::RefreshRefreshBank
            | RiField::RefreshRefreshEnable
            | RiField::RefreshRefreshOptimize => RI_REFRESH_REG,
            RiField::LatencyDmaLatencyOverlap => RI_LATENCY_REG,
            RiField::RerrorNackError
            | RiField::RerrorAckError => RI_RERROR_REG,
        }
    }
}

impl RiRegisters {
    /// The raw value of the register at byte offset `register`.
    pub open spec fn spec_raw(self, register: u32) -> u32 {
        if register == RI_MODE_REG {
            self.ri_mode_reg
        } else if register == RI_CONFIG_REG {
            self.ri_config_reg
        } else if register == RI_SELECT_REG {
            self.ri_select_reg
        } else if register == RI_REFRESH_REG {
            self.ri_refresh_reg
        } else if register == RI_LATENCY_REG {
            self.ri_latency_reg
        } else if register == RI_RERROR_REG {
            self.ri_rerror_reg
        } else {
            0
        }
    }

    /// The block with the register at byte offset `register` set to `raw`.
    pub open spec fn spec_with_raw(self, register: u32, raw: u32) -> RiRegisters {
        if register == RI_MODE_REG {
            RiRegisters { ri_mode_reg: raw, ..self }
        } else if register == RI_CONFIG_REG {
            RiRegisters { ri_config_reg: raw, ..self }
        } else if register == RI_SELECT_REG {
            RiRegisters { ri_select_reg: raw, ..self }
        } else if register == RI_REFRESH_REG {
            RiRegisters { ri_refresh_reg: raw, ..self }
        } else if register == RI_LATENCY_REG {
            RiRegisters { ri_latency_reg: raw, ..self }
        } else if register == RI_RERROR_REG {
            RiRegisters { ri_rerror_reg: raw, ..self }
        } else {
            self
        }
    }

    fn raw_of(&self, field: RiField) -> (r: u32)
        ensures
            r == self.spec_raw(field.spec_register()),
    {
        match field {
            RiField::ModeOperatingMode
            | RiField::ModeStopTransmitActive
            | RiField::ModeStopReceiveActive => self.ri_mode_reg,
            RiField::ConfigCurrentControlInput
            | RiField::ConfigCurrentControlEnable => self.ri_config_reg,
            RiField::SelectTransmitSelect
            | RiField::SelectReceiveSelect => self.ri_select_reg,
            RiField::RefreshCleanRefreshDelay
            | RiField::RefreshDirtyRefreshDelay
            | RiField::RefreshRefreshBank
            | RiField::RefreshRefreshEnable
            | RiField::RefreshRefreshOptimize => self.ri_refresh_reg,
            RiField::LatencyDmaLatencyOverlap => self.ri_latency_reg,
            RiField::RerrorNackError
            | RiField::RerrorAckError => self.ri_rerror_reg,
        }
    }

    fn set_raw_of(&mut self, field: RiField, raw: u32)
        ensures
            *final(self) == old(self).spec_with_raw(field.spec_register(), raw),
    {
        match field {
            RiField::ModeOperatingMode
            | RiField::ModeStopTransmitActive
            | RiField::ModeStopReceiveActive => self.ri_mode_reg = raw,
            RiField::ConfigCurrentControlInput
            | RiField::ConfigCurrentControlEnable => self.ri_config_reg = raw,
            RiField::SelectTransmitSelect
            | RiField::SelectReceiveSelect => self.ri_select_reg = raw,
            RiField::RefreshCleanRefreshDelay
            | RiField::RefreshDirtyRefreshDelay
            | RiField::RefreshRefreshBank
            | RiField::RefreshRefreshEnable
            | RiField::RefreshRefreshOptimize => self.ri_refresh_reg = raw,
            RiField::LatencyDmaLatencyOverlap => self.ri_latency_reg = raw,
            RiField::RerrorNackError
            | RiField::RerrorAckError => self.ri_rerror_reg = raw,
        }
    }

    /// The value of `field` in its register.
    pub fn get(&self, field: RiField) -> (r: u32)
        requires
            field.spec_field().access.can_read(),
        ensures
            r == extract_spec(
                self.spec_raw(field.spec_register()),
                field.spec_field().offset,
                field.spec_field().width,
            ),
    {
        field.field().get(self.raw_of(field))
    }

    /// Sets `field` to `value` in its register, leaving every other bit of
    /// the block as it was; a value too wide for the field is refused and
    /// nothing changes.
    pub fn set(&mut self, field: RiField, value: u32) -> (r: Result<(), RangeError>)
        requires
            field.spec_field().access.can_write(),
        ensures
            (value as nat) < pow2(field.spec_field().width as nat) <==> r is Ok,
            r is Ok ==> *final(self) == old(self).spec_with_raw(
                field.spec_register(),
                inject_spec(
                    old(self).spec_raw(field.spec_register()),
                    field.spec_field().offset,
                    field.spec_field().width,
                    value,
                ),
            ),
            r is Err ==> *final(self) == *old(self),
    {
        let raw = field.field().set(self.raw_of(field), value)?;
        self.set_raw_of(field, raw);
        Ok(())
    }
}

} // verus!
