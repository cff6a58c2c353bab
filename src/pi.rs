//! Peripheral interface (PI).

use crate::codec::{extract_spec, inject_spec, RangeError};
use crate::field::{Access, Field, RegisterWidth};
use vstd::arithmetic::power2::pow2;
use vstd::prelude::*;

verus! {

/// Base address of the PI register block.
pub const PI_BASE_ADDR: u32 = 0x0460_0000;

/// Byte offset of the DRAM address register.
pub const PI_DRAM_ADDR_REG: u32 = 0x00;

/// Byte offset of the PBUS (cartridge) address register.
pub const PI_CART_ADDR_REG: u32 = 0x04;

/// Byte offset of the read length register.
pub const PI_RD_LEN_REG: u32 = 0x08;

/// Byte offset of the write length register.
pub const PI_WR_LEN_REG: u32 = 0x0C;

/// Byte offset of the status register.
pub const PI_STATUS_REG: u32 = 0x10;

/// Byte offset of the domain 1 latency register.
pub const PI_BSD_DOM1_LAT_REG: u32 = 0x14;

/// Byte offset of the domain 1 pulse width register.
pub const PI_BSD_DOM1_PWD_REG: u32 = 0x18;

/// Byte offset of the domain 1 page size register.
pub const PI_BSD_DOM1_PGS_REG: u32 = 0x1C;

/// Byte offset of the domain 1 release register.
pub const PI_BSD_DOM1_RLS_REG: u32 = 0x20;

/// Byte offset of the domain 2 latency register.
pub const PI_BSD_DOM2_LAT_REG: u32 = 0x24;

/// Byte offset of the domain 2 pulse width register.
pub const PI_BSD_DOM2_PWD_REG: u32 = 0x28;

/// Byte offset of the domain 2 page size register.
pub const PI_BSD_DOM2_PGS_REG: u32 = 0x2C;

/// Byte offset of the domain 2 release register.
pub const PI_BSD_DOM2_RLS_REG: u32 = 0x30;

/// Exclusive ownership of the PI register block.
///
/// The one token of this type comes out of the hardware registry; holding it
/// is what entitles code to access the block's registers.
#[derive(Debug)]
pub struct Pi {
    owned: (),
}

impl Pi {
    pub(crate) fn new() -> (r: Pi) {
        Pi { owned: () }
    }

    /// Address of the block's first register.
    pub fn ptr() -> (r: u32)
        ensures
            r == PI_BASE_ADDR,
    {
        PI_BASE_ADDR
    }
}

/// The raw values of the PI registers, one per register in address
/// order.
#[derive(Clone, Copy, Debug, PartialEq, Eq, Structural)]
pub struct PiRegisters {
    /// DRAM address.
    pub pi_dram_addr_reg: u32,
    /// PBUS (cartridge) address.
    pub pi_cart_addr_reg: u32,
    /// Read length.
    pub pi_rd_len_reg: u32,
    /// Write length.
    pub pi_wr_len_reg: u32,
    /// Status.
    pub pi_status_reg: u32,
    /// Domain 1 latency.
    pub pi_bsd_dom1_lat_reg: u32,
    /// Domain 1 pulse width.
    pub pi_bsd_dom1_pwd_reg: u32,
    /// Domain 1 page size.
    pub pi_bsd_dom1_pgs_reg: u32,
    /// Domain 1 release.
    pub pi_bsd_dom1_rls_reg: u32,
    /// Domain 2 latency.
    pub pi_bsd_dom2_lat_reg: u32,
    /// Domain 2 pulse width.
    pub pi_bsd_dom2_pwd_reg: u32,
    /// Domain 2 page size.
    pub pi_bsd_dom2_pgs_reg: u32,
    /// Domain 2 release.
    pub pi_bsd_dom2_rls_reg: u32,
}

/// The named fields of the PI registers.
#[derive(Clone, Copy, Debug, PartialEq, Eq, Structural)]
pub enum PiField {
    DramAddrStartingRdramAddress,
    CartAddrStartingAd16Address,
    RdLenReadDataLength,
    WrLenWriteDataLength,
    StatusDmaBusy,
    StatusIoBusy,
    StatusError,
    StatusResetController,
    StatusClearIntr,
    BsdDom1LatLatency,
    BsdDom1PwdPulseWidth,
    BsdDom1PgsPageSize,
    BsdDom1RlsRelease,
    BsdDom2LatLatency,
    BsdDom2PwdPulseWidth,
    BsdDom2PgsPageSize,
    BsdDom2RlsRelease,
}

impl PiField {
    pub open spec fn spec_field(self) -> Field {
        match self {
            PiField::DramAddrStartingRdramAddress => Field { register: RegisterWidth::Bits32, offset: 0, width: 24, access: Access::ReadWrite },
            PiField::CartAddrStartingAd16Address => Field { register: RegisterWidth::Bits32, offset: 0, width: 32, access: Access::ReadWrite },
            PiField::RdLenReadDataLength => Field { register: RegisterWidth::Bits32, offset: 0, width: 24, access: Access::ReadWrite },
            PiField::WrLenWriteDataLength => Field { register: RegisterWidth::Bits32, offset: 0, width: 24, access: Access::ReadWrite },
            PiField::StatusDmaBusy => Field { register: RegisterWidth::Bits32, offset: 0, width: 1, access: Access::ReadOnly },
            PiField::StatusIoBusy => Field { register: RegisterWidth::Bits32, offset: 1, width: 1, access: Access::ReadOnly },
            PiField::StatusError => Field { register: RegisterWidth::Bits32, offset: 2, width: 1, access: Access::ReadOnly },
            PiField::StatusResetController => Field { register: RegisterWidth::Bits32, offset: 0, width: 1, access: Access::WriteOnly },
            PiField::StatusClearIntr => Field { register: RegisterWidth::Bits32, offset: 1, width: 1, access: Access::WriteOnly },
            PiField::BsdDom1LatLatency => Field { register: RegisterWidth::Bits32, offset: 0, width: 8, access: Access::ReadWrite },
            PiField::BsdDom1PwdPulseWidth => Field { register: RegisterWidth::Bits32, offset: 0, width: 8, access: Access::ReadWrite },
            PiField::BsdDom1PgsPageSize => Field { register: RegisterWidth::Bits32, offset: 0, width: 4, access: Access::ReadWrite },
            PiField::BsdDom1RlsRelease => Field { register: RegisterWidth::Bits32, offset: 0, width: 2, access: Access::ReadWrite },
            PiField::BsdDom2LatLatency => Field { register: RegisterWidth::Bits32, offset: 0, width: 8, access: Access::ReadWrite },
            PiField::BsdDom2PwdPulseWidth => Field { register: RegisterWidth::Bits32, offset: 0, width: 8, access: Access::ReadWrite },
            PiField::BsdDom2PgsPageSize => Field { register: RegisterWidth::Bits32, offset: 0, width: 4, access: Access::ReadWrite },
            PiField::BsdDom2RlsRelease => Field { register: RegisterWidth::Bits32, offset: 0, width: 2, access: Access::ReadWrite },
        }
    }

    pub open spec fn spec_register(self) -> u32 {
        match self {
            PiField::DramAddrStartingRdramAddress => PI_DRAM_ADDR_REG,
            PiField::CartAddrStartingAd16Address => PI_CART_ADDR_REG,
            PiField::RdLenReadDataLength => PI_RD_LEN_REG,
            PiField::WrLenWriteDataLength => PI_WR_LEN_REG,
            PiField::StatusDmaBusy
            | PiField::StatusIoBusy
            | PiField::StatusError
            | PiField::StatusResetController
            | PiField::StatusClearIntr => PI_STATUS_REG,
            PiField::BsdDom1LatLatency => PI_BSD_DOM1_LAT_REG,
            PiField::BsdDom1PwdPulseWidth => PI_BSD_DOM1_PWD_REG,
            PiField::BsdDom1PgsPageSize => PI_BSD_DOM1_PGS_REG,
            PiField::BsdDom1RlsRelease => PI_BSD_DOM1_RLS_REG,
            PiField::BsdDom2LatLatency => PI_BSD_DOM2_LAT_REG,
            PiField::BsdDom2PwdPulseWidth => PI_BSD_DOM2_PWD_REG,
            PiField::BsdDom2PgsPageSize => PI_BSD_DOM2_PGS_REG,
            PiField::BsdDom2RlsRelease => PI_BSD_DOM2_RLS_REG,
        }
    }

    /// Where the field lies in its register, and how it may be used.
    pub fn field(&self) -> (r: Field)
        ensures
            r == self.spec_field(),
            r.wf(),
    {
        match self {
            PiField::DramAddrStartingRdramAddress => Field { register: RegisterWidth::Bits32, offset: 0, width: 24, access: Access::ReadWrite },
            PiField::CartAddrStartingAd16Address => Field { register: RegisterWidth::Bits32, offset: 0, width: 32, access: Access::ReadWrite },
            PiField::RdLenReadDataLength => Field { register: RegisterWidth::Bits32, offset: 0, width: 24, access: Access::ReadWrite },
            PiField::WrLenWriteDataLength => Field { register: RegisterWidth::Bits32, offset: 0, width: 24, access: Access::ReadWrite },
            PiField::StatusDmaBusy => Field { register: RegisterWidth::Bits32, offset: 0, width: 1, access: Access::ReadOnly },
            PiField::StatusIoBusy => Field { register: RegisterWidth::Bits32, offset: 1, width: 1, access: Access::ReadOnly },
            PiField::StatusError => Field { register: RegisterWidth::Bits32, offset: 2, width: 1, access: Access::ReadOnly },
            PiField::StatusResetController => Field { register: RegisterWidth::Bits32, offset: 0, width: 1, access: Access::WriteOnly },
            PiField::StatusClearIntr => Field { register: RegisterWidth::Bits32, offset: 1, width: 1, access: Access::WriteOnly },
            PiField::BsdDom1LatLatency => Field { register: RegisterWidth::Bits32, offset: 0, width: 8, access: Access::ReadWrite },
            PiField::BsdDom1PwdPulseWidth => Field { register: RegisterWidth::Bits32, offset: 0, width: 8, access: Access::ReadWrite },
            PiField::BsdDom1PgsPageSize => Field { register: RegisterWidth::Bits32, offset: 0, width: 4, access: Access::ReadWrite },
            PiField::BsdDom1RlsRelease => Field { register: RegisterWidth::Bits32, offset: 0, width: 2, access: Access::ReadWrite },
            PiField::BsdDom2LatLatency => Field { register: RegisterWidth::Bits32, offset: 0, width: 8, access: Access::ReadWrite },
            PiField::BsdDom2PwdPulseWidth => Field { register: RegisterWidth::Bits32, offset: 0, width: 8, access: Access::ReadWrite },
            PiField::BsdDom2PgsPageSize => Field { register: RegisterWidth::Bits32, offset: 0, width: 4, access: Access::ReadWrite },
            PiField::BsdDom2RlsRelease => Field { register: RegisterWidth::Bits32, offset: 0, width: 2, access: Access::ReadWrite },
        }
    }

    /// Byte offset of the field's register from the block's base address.
    pub fn register(&self) -> (r: u32)
        ensures
            r == self.spec_register(),
    {
        match self {
            PiField::DramAddrStartingRdramAddress => PI_DRAM_ADDR_REG,
            PiField::CartAddrStartingAd16Address => PI_CART_ADDR_REG,
            PiField::RdLenReadDataLength => PI_RD_LEN_REG,
            PiField::WrLenWriteDataLength => PI_WR_LEN_REG,
            PiField::StatusDmaBusy
            | PiField::StatusIoBusy
            | PiField::StatusError
            | PiField::StatusResetController
            | PiField::StatusClearIntr => PI_STATUS_REG,
            PiField::BsdDom1LatLatency => PI_BSD_DOM1_LAT_REG,
            PiField::BsdDom1PwdPulseWidth => PI_BSD_DOM1_PWD_REG,
            PiField::BsdDom1PgsPageSize => PI_BSD_DOM1_PGS_REG,
            PiField::BsdDom1RlsRelease => PI_BSD_DOM1_RLS_REG,
            PiField::BsdDom2LatLatency => PI_BSD_DOM2_LAT_REG,
            PiField::BsdDom2PwdPulseWidth => PI_BSD_DOM2_PWD_REG,
            PiField::BsdDom2PgsPageSize => PI_BSD_DOM2_PGS_REG,
            PiField::BsdDom2RlsRelease => PI_BSD_DOM2_RLS_REG,
        }
    }
}

impl PiRegisters {
    /// The raw value of the register at byte offset `register`.
    pub open spec fn spec_raw(self, register: u32) -> u32 {
        if register == PI_DRAM_ADDR_REG {
            self.pi_dram_addr_reg
        } else if register == PI_CART_ADDR_REG {
            self.pi_cart_addr_reg
        } else if register == PI_RD_LEN_REG {
            self.pi_rd_len_reg
        } else if register == PI_WR_LEN_REG {
            self.pi_wr_len_reg
        } else if register == PI_STATUS_REG {
            self.pi_status_reg
        } else if register == PI_BSD_DOM1_LAT_REG {
            self.pi_bsd_dom1_lat_reg
        } else if register == PI_BSD_DOM1_PWD_REG {
            self.pi_bsd_dom1_pwd_reg
        } else if register == PI_BSD_DOM1_PGS_REG {
            self.pi_bsd_dom1_pgs_reg
        } else if register == PI_BSD_DOM1_RLS_REG {
            self.pi_bsd_dom1_rls_reg
        } else if register == PI_BSD_DOM2_LAT_REG {
            self.pi_bsd_dom2_lat_reg
        } else if register == PI_BSD_DOM2_PWD_REG {
            self.pi_bsd_dom2_pwd_reg
        } else if register == PI_BSD_DOM2_PGS_REG {
            self.pi_bsd_dom2_pgs_reg
        } else if register == PI_BSD_DOM2_RLS_REG {
            self.pi_bsd_dom2_rls_reg
        } else {
            0
        }
    }

    /// The block with the register at byte offset `register` set to `raw`.
    pub open spec fn spec_with_raw(self, register: u32, raw: u32) -> PiRegisters {
        if register == PI_DRAM_ADDR_REG {
            PiRegisters { pi_dram_addr_reg: raw, ..self }
        } else if register == PI_CART_ADDR_REG {
            PiRegisters { pi_cart_addr_reg: raw, ..self }
        } else if register == PI_RD_LEN_REG {
            PiRegisters { pi_rd_len_reg: raw, ..self }
        } else if register == PI_WR_LEN_REG {
            PiRegisters { pi_wr_len_reg: raw, ..self }
        } else if register == PI_STATUS_REG {
            PiRegisters { pi_status_reg: raw, ..self }
        } else if register == PI_BSD_DOM1_LAT_REG {
            PiRegisters { pi_bsd_dom1_lat_reg: raw, ..self }
        } else if register == PI_BSD_DOM1_PWD_REG {
            PiRegisters { pi_bsd_dom1_pwd_reg: raw, ..self }
        } else if register == PI_BSD_DOM1_PGS_REG {
            PiRegisters { pi_bsd_dom1_pgs_reg: raw, ..self }
        } else if register == PI_BSD_DOM1_RLS_REG {
            PiRegisters { pi_bsd_dom1_rls_reg: raw, ..self }
        } else if register == PI_BSD_DOM2_LAT_REG {
            PiRegisters { pi_bsd_dom2_lat_reg: raw, ..self }
        } else if register == PI_BSD_DOM2_PWD_REG {
            PiRegisters { pi_bsd_dom2_pwd_reg: raw, ..self }
        } else if register == PI_BSD_DOM2_PGS_REG {
            PiRegisters { pi_bsd_dom2_pgs_reg: raw, ..self }
        } else if register == PI_BSD_DOM2_RLS_REG {
            PiRegisters { pi_bsd_dom2_rls_reg: raw, ..self }
        } else {
            self
        }
    }

    fn raw_of(&self, field: PiField) -> (r: u32)
        ensures
            r == self.spec_raw(field.spec_register()),
    {
        match field {
            PiField::DramAddrStartingRdramAddress => self.pi_dram_addr_reg,
            PiField::CartAddrStartingAd16Address => self.pi_cart_addr_reg,
            PiField::RdLenReadDataLength => self.pi_rd_len_reg,
            PiField::WrLenWriteDataLength => self.pi_wr_len_reg,
            PiField::StatusDmaBusy
            | PiField::StatusIoBusy
            | PiField::StatusError
            | PiField::StatusResetController
            | PiField::StatusClearIntr => self.pi_status_reg,
            PiField::BsdDom1LatLatency => self.pi_bsd_dom1_lat_reg,
            PiField::BsdDom1PwdPulseWidth => self.pi_bsd_dom1_pwd_reg,
            PiField::BsdDom1PgsPageSize => self.pi_bsd_dom1_pgs_reg,
            PiField::BsdDom1RlsRelease => self.pi_bsd_dom1_rls_reg,
            PiField::BsdDom2LatLatency => self.pi_bsd_dom2_lat_reg,
            PiField::BsdDom2PwdPulseWidth => self.pi_bsd_dom2_pwd_reg,
            PiField::BsdDom2PgsPageSize => self.pi_bsd_dom2_pgs_reg,
            PiField::BsdDom2RlsRelease => self.pi_bsd_dom2_rls_reg,
        }
    }

    fn set_raw_of(&mut self, field: PiField, raw: u32)
        ensures
            *final(self) == old(self).spec_with_raw(field.spec_register(), raw),
    {
        match field {
            PiField::DramAddrStartingRdramAddress => self.pi_dram_addr_reg = raw,
            PiField::CartAddrStartingAd16Address => self.pi_cart_addr_reg = raw,
            PiField::RdLenReadDataLength => self.pi_rd_len_reg = raw,
            PiField::WrLenWriteDataLength => self.pi_wr_len_reg = raw,
            PiField::StatusDmaBusy
            | PiField::StatusIoBusy
            | PiField::StatusError
            | PiField::StatusResetController
            | PiField::StatusClearIntr => self.pi_status_reg = raw,
            PiField::BsdDom1LatLatency => self.pi_bsd_dom1_lat_reg = raw,
            PiField::BsdDom1PwdPulseWidth => self.pi_bsd_dom1_pwd_reg = raw,
            PiField::BsdDom1PgsPageSize => self.pi_bsd_dom1_pgs_reg = raw,
            PiField::BsdDom1RlsRelease => self.pi_bsd_dom1_rls_reg = raw,
            PiField::BsdDom2LatLatency => self.pi_bsd_dom2_lat_reg = raw,
            PiField::BsdDom2PwdPulseWidth => self.pi_bsd_dom2_pwd_reg = raw,
            PiField::BsdDom2PgsPageSize => self.pi_bsd_dom2_pgs_reg = raw,
            PiField::BsdDom2RlsRelease => self.pi_bsd_dom2_rls_reg = raw,
        }
    }

    /// The value of `field` in its register.
    pub fn get(&self, field: PiField) -> (r: u32)
        requires
            field.spec_field().access.can_read(),
        ensures
            r == extract_spec(
                self.spec_raw(field.spec_register()),
                field.spec_field().offset,
                field.spec_field().width,
            ),
    {
        field.field().get(self.raw_of(field))
    }

    /// Sets `field` to `value` in its register, leaving every other bit of
    /// the block as it was; a value too wide for the field is refused and
    /// nothing changes.
    pub fn set(&mut self, field: PiField, value: u32) -> (r: Result<(), RangeError>)
        requires
            field.spec_field().access.can_write(),
        ensures
            (value as nat) < pow2(field.spec_field().width as nat) <==> r is Ok,
            r is Ok ==> *final(self) == old(self).spec_with_raw(
                field.spec_register(),
                inject_spec(
                    old(self).spec_raw(field.spec_register()),
                    field.spec_field().offset,
                    field.spec_field().width,
                    value,
                ),
            ),
            r is Err ==> *final(self) == *old(self),
    {
        let raw = field.field().set(self.raw_of(field), value)?;
        self.set_raw_of(field, raw);
        Ok(())
    }
}

} // verus!
