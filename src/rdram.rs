//! RDRAM.

use vstd::prelude::*;

verus! {

/// Base address of the RDRAM register block.
pub const RDRAM_BASE_ADDR: u32 = 0x03F0_0000;

/// Byte offset of the device type register.
pub const RDRAM_DEVICE_TYPE_REG: u32 = 0x00;

/// Byte offset of the device ID register.
pub const RDRAM_DEVICE_ID_REG: u32 = 0x04;

/// Byte offset of the delay register.
pub const RDRAM_DELAY_REG: u32 = 0x08;

/// Byte offset of the mode register.
pub const RDRAM_MODE_REG: u32 = 0x0C;

/// Byte offset of the ref interval register.
pub const RDRAM_REF_INTERVAL_REG: u32 = 0x10;

/// Byte offset of the ref row register.
pub const RDRAM_REF_ROW_REG: u32 = 0x14;

/// Byte offset of the ras interval register.
pub const RDRAM_RAS_INTERVAL_REG: u32 = 0x18;

/// Byte offset of the minimum interval register.
pub const RDRAM_MIN_INTERVAL_REG: u32 = 0x1C;

/// Byte offset of the address select register.
pub const RDRAM_ADDR_SELECT_REG: u32 = 0x20;

/// Byte offset of the device manufacturer register.
pub const RDRAM_DEVICE_MANUF_REG: u32 = 0x24;

/// Exclusive ownership of the RDRAM register block.
///
/// The one token of this type comes out of the hardware registry; holding it
/// is what entitles code to access the block's registers.
#[derive(Debug)]
pub struct Rdram {
    owned: (),
}

impl Rdram {
    pub(crate) fn new() -> (r: Rdram) {
        Rdram { owned: () }
    }

    /// Address of the block's first register.
    pub fn ptr() -> (r: u32)
        ensures
            r == RDRAM_BASE_ADDR,
    {
        RDRAM_BASE_ADDR
    }
}

/// The raw values of the RDRAM registers, one per register in address
/// order.
#[derive(Clone, Copy, Debug, PartialEq, Eq, Structural)]
pub struct RdramRegisters {
    /// Device type.
    pub rdram_device_type_reg: u32,
    /// Device ID.
    pub rdram_device_id_reg: u32,
    /// Delay.
    pub rdram_delay_reg: u32,
    /// Mode.
    pub rdram_mode_reg: u32,
    /// Ref interval.
    pub rdram_ref_interval_reg: u32,
    /// Ref row.
    pub rdram_ref_row_reg: u32,
    /// Ras interval.
    pub rdram_ras_interval_reg: u32,
    /// Minimum interval.
    pub rdram_min_interval_reg: u32,
    /// Address select.
    pub rdram_addr_select_reg: u32,
    /// Device manufacturer.
    pub rdram_device_manuf_reg: u32,
}

} // verus!
