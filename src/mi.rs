//! MIPS interface (MI).

use crate::codec::{extract_spec, inject_spec, RangeError};
use crate::field::{Access, Field, RegisterWidth};
use vstd::arithmetic::power2::pow2;
use vstd::prelude::*;

verus! {

/// Base address of the MI register block.
pub const MI_BASE_ADDR: u32 = 0x0430_0000;

/// Byte offset of the init mode register.
pub const MI_INIT_MODE_REG: u32 = 0x00;

/// Byte offset of the version register.
pub const MI_VERSION_REG: u32 = 0x04;

/// Byte offset of the interrupts register.
pub const MI_INTR_REG: u32 = 0x08;

/// Byte offset of the interrupt masks register.
pub const MI_INTR_MASK_REG: u32 = 0x0C;

/// Exclusive ownership of the MI register block.
///
/// The one token of this type comes out of the hardware registry; holding it
/// is what entitles code to access the block's registers.
#[derive(Debug)]
pub struct Mi {
    owned: (),
}

impl Mi {
    pub(crate) fn new() -> (r: Mi) {
        Mi { owned: () }
    }

    /// Address of the block's first register.
    pub fn ptr() -> (r: u32)
        ensures
            r == MI_BASE_ADDR,
    {
        MI_BASE_ADDR
    }
}

/// The raw values of the MI registers, one per register in address
/// order.
#[derive(Clone, Copy, Debug, PartialEq, Eq, Structural)]
pub struct MiRegisters {
    /// Init mode.
    pub mi_init_mode_reg: u32,
    /// Version.
    pub mi_version_reg: u32,
    /// Interrupts.
    pub mi_intr_reg: u32,
    /// Interrupt masks.
    pub mi_intr_mask_reg: u32,
}

/// The named fields of the MI registers.
#[derive(Clone, Copy, Debug, PartialEq, Eq, Structural)]
pub enum MiField {
    InitModeInitLength,
    InitModeInitMode,
    InitModeEbusTestMode,
    InitModeRdramRegMode,
    InitModeClearInitMode,
    InitModeSetInitMode,
    InitModeClearEbusTestMode,
    InitModeSetEbusTestMode,
    InitModeClearDpIntr,
    InitModeClearRdramReg,
    InitModeSetDramRegMode,
    VersionIo,
    VersionRac,
    VersionRdp,
    VersionRsp,
    IntrSpIntr,
    IntrSiIntr,
    IntrAiIntr,
    IntrViIntr,
    IntrPiIntr,
    IntrDpIntr,
    IntrMaskSpIntrMask,
    IntrMaskSiIntrMask,
    IntrMaskAiIntrMask,
    IntrMaskViIntrMask,
    IntrMaskPiIntrMask,
    IntrMaskDpIntrMask,
    IntrMaskClearSpMask,
    IntrMaskSetSpMask,
    IntrMaskClearSiMask,
    IntrMaskSetSiMask,
    IntrMaskClearAiMask,
    IntrMaskSetAiMask,
    IntrMaskClearViMask,
    IntrMaskSetViMask,
    IntrMaskClearPiMask,
    IntrMaskSetPiMask,
    IntrMaskClearDpMask,
    IntrMaskSetDpMask,
}

impl MiField {
    pub open spec fn spec_field(self) -> Field {
        match self {
            MiField::InitModeInitLength => Field { register: RegisterWidth::Bits32, offset: 0, width: 7, access: Access::ReadWrite },
            MiField::InitModeInitMode => Field { register: RegisterWidth::Bits32, offset: 7, width: 1, access: Access::ReadOnly },
            MiField::InitModeEbusTestMode => Field { register: RegisterWidth::Bits32, offset: 8, width: 1, access: Access::ReadOnly },
            MiField::InitModeRdramRegMode => Field { register: RegisterWidth::Bits32, offset: 9, width: 1, access: Access::ReadOnly },
            MiField::InitModeClearInitMode => Field { register: RegisterWidth::Bits32, offset: 7, width: 1, access: Access::WriteOnly },
            MiField::InitModeSetInitMode => Field { register: RegisterWidth::Bits32, offset: 8, width: 1, access: Access::WriteOnly },
            MiField::InitModeClearEbusTestMode => Field { register: RegisterWidth::Bits32, offset: 9, width: 1, access: Access::WriteOnly },
            MiField::InitModeSetEbusTestMode => Field { register: RegisterWidth::Bits32, offset: 10, width: 1, access: Access::WriteOnly },
            MiField::InitModeClearDpIntr => Field { register: RegisterWidth::Bits32, offset: 11, width: 1, access: Access::WriteOnly },
            MiField::InitModeClearRdramReg => Field { register: RegisterWidth::Bits32, offset: 12, width: 1, access: Access::WriteOnly },
            MiField::InitModeSetDramRegMode => Field { register: RegisterWidth::Bits32, offset: 13, width: 1, access: Access::WriteOnly },
            MiField::VersionIo => Field { register: RegisterWidth::Bits32, offset: 0, width: 8, access: Access::ReadOnly },
            MiField::VersionRac => Field { register: RegisterWidth::Bits32, offset: 8, width: 8, access: Access::ReadOnly },
            MiField::VersionRdp => Field { register: RegisterWidth::Bits32, offset: 16, width: 8, access: Access::ReadOnly },
            MiField::VersionRsp => Field { register: RegisterWidth::Bits32, offset: 24, width: 8, access: Access::ReadOnly },
            MiField::IntrSpIntr => Field { register: RegisterWidth::Bits32, offset: 0, width: 1, access: Access::ReadOnly },
            MiField::IntrSiIntr => Field { register: RegisterWidth::Bits32, offset: 1, width: 1, access: Access::ReadOnly },
            MiField::IntrAiIntr => Field { register: RegisterWidth::Bits32, offset: 2, width: 1, access: Access::ReadOnly },
            MiField::IntrViIntr => Field { register: RegisterWidth::Bits32, offset: 3, width: 1, access: Access::ReadOnly },
            MiField::IntrPiIntr => Field { register: RegisterWidth::Bits32, offset: 4, width: 1, access: Access::ReadOnly },
            MiField::IntrDpIntr => Field { register: RegisterWidth::Bits32, offset: 5, width: 1, access: Access::ReadOnly },
            MiField::IntrMaskSpIntrMask => Field { register: RegisterWidth::Bits32, offset: 0, width: 1, access: Access::ReadOnly },
            MiField::IntrMaskSiIntrMask => Field { register: RegisterWidth::Bits32, offset: 1, width: 1, access: Access::ReadOnly },
            MiField::IntrMaskAiIntrMask => Field { register: RegisterWidth::Bits32, offset: 2, width: 1, access: Access::ReadOnly },
            MiField::IntrMaskViIntrMask => Field { register: RegisterWidth::Bits32, offset: 3, width: 1, access: Access::ReadOnly },
            MiField::IntrMaskPiIntrMask => Field { register: RegisterWidth::Bits32, offset: 4, width: 1, access: Access::ReadOnly },
            MiField::IntrMaskDpIntrMask => Field { register: RegisterWidth::Bits32, offset: 5, width: 1, access: Access::ReadOnly },
            MiField::IntrMaskClearSpMask => Field { register: RegisterWidth::Bits32, offset: 0, width: 1, access: Access::WriteOnly },
            MiField::IntrMaskSetSpMask => Field { register: RegisterWidth::Bits32, offset: 1, width: 1, access: Access::WriteOnly },
            MiField::IntrMaskClearSiMask => Field { register: RegisterWidth::Bits32, offset: 2, width: 1, access: Access::WriteOnly },
            MiField::IntrMaskSetSiMask => Field { register: RegisterWidth::Bits32, offset: 3, width: 1, access: Access::WriteOnly },
            MiField::IntrMaskClearAiMask => Field { register: RegisterWidth::Bits32, offset: 4, width: 1, access: Access::WriteOnly },
            MiField::IntrMaskSetAiMask => Field { register: RegisterWidth::Bits32, offset: 5, width: 1, access: Access::WriteOnly },
            MiField::IntrMaskClearViMask => Field { register: RegisterWidth::Bits32, offset: 6, width: 1, access: Access::WriteOnly },
            MiField::IntrMaskSetViMask => Field { register: RegisterWidth::Bits32, offset: 7, width: 1, access: Access::WriteOnly },
            MiField::IntrMaskClearPiMask => Field { register: RegisterWidth::Bits32, offset: 8, width: 1, access: Access::WriteOnly },
            MiField::IntrMaskSetPiMask => Field { register: RegisterWidth::Bits32, offset: 9, width: 1, access: Access::WriteOnly },
            MiField::IntrMaskClearDpMask => Field { register: RegisterWidth::Bits32, offset: 10, width: 1, access: Access::WriteOnly },
            MiField::IntrMaskSetDpMask => Field { register: RegisterWidth::Bits32, offset: 11, width: 1, access: Access::WriteOnly },
        }
    }

    pub open spec fn spec_register(self) -> u32 {
        match self {
            MiField::InitModeInitLength
            | MiField::InitModeInitMode
            | MiField::InitModeEbusTestMode
            | MiField::InitModeRdramRegMode
            | MiField::InitModeClearInitMode
            | MiField::InitModeSetInitMode
            | MiField::InitModeClearEbusTestMode
            | MiField::InitModeSetEbusTestMode
            | MiField::InitModeClearDpIntr
            | MiField::InitModeClearRdramReg
            | MiField::InitModeSetDramRegMode => MI_INIT_MODE_REG,
            MiField::VersionIo
            | MiField::VersionRac
            | MiField::VersionRdp
            | MiField::VersionRsp => MI_VERSION_REG,
            MiField::IntrSpIntr
            | MiField::IntrSiIntr
            | MiField::IntrAiIntr
            | MiField::IntrViIntr
            | MiField::IntrPiIntr
            | MiField::IntrDpIntr => MI_INTR_REG,
            MiField::IntrMaskSpIntrMask
            | MiField::IntrMaskSiIntrMask
            | MiField::IntrMaskAiIntrMask
            | MiField::IntrMaskViIntrMask
            | MiField::IntrMaskPiIntrMask
            | MiField::IntrMaskDpIntrMask
            | MiField::IntrMaskClearSpMask
            | MiField::IntrMaskSetSpMask
            | MiField::IntrMaskClearSiMask
            | MiField::IntrMaskSetSiMask
            | MiField::IntrMaskClearAiMask
            | MiField::IntrMaskSetAiMask
            | MiField::IntrMaskClearViMask
            | MiField::IntrMaskSetViMask
            | MiField::IntrMaskClearPiMask
            | MiField::IntrMaskSetPiMask
            | MiField::IntrMaskClearDpMask
            | MiField::IntrMaskSetDpMask => MI_INTR_MASK_REG,
        }
    }

    /// Where the field lies in its register, and how it may be used.
    pub fn field(&self) -> (r: Field)
        ensures
            r == self.spec_field(),
            r.wf(),
    {
        match self {
            MiField::InitModeInitLength => Field { register: RegisterWidth::Bits32, offset: 0, width: 7, access: Access::ReadWrite },
            MiField::InitModeInitMode => Field { register: RegisterWidth::Bits32, offset: 7, width: 1, access: Access::ReadOnly },
            MiField::InitModeEbusTestMode => Field { register: RegisterWidth::Bits32, offset: 8, width: 1, access: Access::ReadOnly },
            MiField::InitModeRdramRegMode => Field { register: RegisterWidth::Bits32, offset: 9, width: 1, access: Access::ReadOnly },
            MiField::InitModeClearInitMode => Field { register: RegisterWidth::Bits32, offset: 7, width: 1, access: Access::WriteOnly },
            MiField::InitModeSetInitMode => Field { register: RegisterWidth::Bits32, offset: 8, width: 1, access: Access::WriteOnly },
            MiField::InitModeClearEbusTestMode => Field { register: RegisterWidth::Bits32, offset: 9, width: 1, access: Access::WriteOnly },
            MiField::InitModeSetEbusTestMode => Field { register: RegisterWidth::Bits32, offset: 10, width: 1, access: Access::WriteOnly },
            MiField::InitModeClearDpIntr => Field { register: RegisterWidth::Bits32, offset: 11, width: 1, access: Access::WriteOnly },
            MiField::InitModeClearRdramReg => Field { register: RegisterWidth::Bits32, offset: 12, width: 1, access: Access::WriteOnly },
            MiField::InitModeSetDramRegMode => Field { register: RegisterWidth::Bits32, offset: 13, width: 1, access: Access::WriteOnly },
            MiField::VersionIo => Field { register: RegisterWidth::Bits32, offset: 0, width: 8, access: Access::ReadOnly },
            MiField::VersionRac => Field { register: RegisterWidth::Bits32, offset: 8, width: 8, access: Access::ReadOnly },
            MiField::VersionRdp => Field { register: RegisterWidth::Bits32, offset: 16, width: 8, access: Access::ReadOnly },
            MiField::VersionRsp => Field { register: RegisterWidth::Bits32, offset: 24, width: 8, access: Access::ReadOnly },
            MiField::IntrSpIntr => Field { register: RegisterWidth::Bits32, offset: 0, width: 1, access: Access::ReadOnly },
            MiField::IntrSiIntr => Field { register: RegisterWidth::Bits32, offset: 1, width: 1, access: Access::ReadOnly },
            MiField::IntrAiIntr => Field { register: RegisterWidth::Bits32, offset: 2, width: 1, access: Access::ReadOnly },
            MiField::IntrViIntr => Field { register: RegisterWidth::Bits32, offset: 3, width: 1, access: Access::ReadOnly },
            MiField::IntrPiIntr => Field { register: RegisterWidth::Bits32, offset: 4, width: 1, access: Access::ReadOnly },
            MiField::IntrDpIntr => Field { register: RegisterWidth::Bits32, offset: 5, width: 1, access: Access::ReadOnly },
            MiField::IntrMaskSpIntrMask => Field { register: RegisterWidth::Bits32, offset: 0, width: 1, access: Access::ReadOnly },
            MiField::IntrMaskSiIntrMask => Field { register: RegisterWidth::Bits32, offset: 1, width: 1, access: Access::ReadOnly },
            MiField::IntrMaskAiIntrMask => Field { register: RegisterWidth::Bits32, offset: 2, width: 1, access: Access::ReadOnly },
            MiField::IntrMaskViIntrMask => Field { register: RegisterWidth::Bits32, offset: 3, width: 1, access: Access::ReadOnly },
            MiField::IntrMaskPiIntrMask => Field { register: RegisterWidth::Bits32, offset: 4, width: 1, access: Access::ReadOnly },
            MiField::IntrMaskDpIntrMask => Field { register: RegisterWidth::Bits32, offset: 5, width: 1, access: Access::ReadOnly },
            MiField::IntrMaskClearSpMask => Field { register: RegisterWidth::Bits32, offset: 0, width: 1, access: Access::WriteOnly },
            MiField::IntrMaskSetSpMask => Field { register: RegisterWidth::Bits32, offset: 1, width: 1, access: Access::WriteOnly },
            MiField::IntrMaskClearSiMask => Field { register: RegisterWidth::Bits32, offset: 2, width: 1, access: Access::WriteOnly },
            MiField::IntrMaskSetSiMask => Field { register: RegisterWidth::Bits32, offset: 3, width: 1, access: Access::WriteOnly },
            MiField::IntrMaskClearAiMask => Field { register: RegisterWidth::Bits32, offset: 4, width: 1, access: Access::WriteOnly },
            MiField::IntrMaskSetAiMask => Field { register: RegisterWidth::Bits32, offset: 5, width: 1, access: Access::WriteOnly },
            MiField::IntrMaskClearViMask => Field { register: RegisterWidth::Bits32, offset: 6, width: 1, access: Access::WriteOnly },
            MiField::IntrMaskSetViMask => Field { register: RegisterWidth::Bits32, offset: 7, width: 1, access: Access::WriteOnly },
            MiField::IntrMaskClearPiMask => Field { register: RegisterWidth::Bits32, offset: 8, width: 1, access: Access::WriteOnly },
            MiField::IntrMaskSetPiMask => Field { register: RegisterWidth::Bits32, offset: 9, width: 1, access: Access::WriteOnly },
            MiField::IntrMaskClearDpMask => Field { register: RegisterWidth::Bits32, offset: 10, width: 1, access: Access::WriteOnly },
            MiField::IntrMaskSetDpMask => Field { register: RegisterWidth::Bits32, offset: 11, width: 1, access: Access::WriteOnly },
        }
    }

    /// Byte offset of the field's register from the block's base address.
    pub fn register(&self) -> (r: u32)
        ensures
            r == self.spec_register(),
    {
        match self {
            MiField::InitModeInitLength
            | MiField::InitModeInitMode
            | MiField::InitModeEbusTestMode
            | MiField::InitModeRdramRegMode
            | MiField::InitModeClearInitMode
            | MiField::InitModeSetInitMode
            | MiField::InitModeClearEbusTestMode
            | MiField::InitModeSetEbusTestMode
            | MiField::InitModeClearDpIntr
            | MiField::InitModeClearRdramReg
            | MiField::InitModeSetDramRegMode => MI_INIT_MODE_REG,
            MiField::VersionIo
            | MiField::VersionRac
            | MiField::VersionRdp
            | MiField::VersionRsp => MI_VERSION_REG,
            MiField::IntrSpIntr
            | MiField::IntrSiIntr
            | MiField::IntrAiIntr
            | MiField::IntrViIntr
            | MiField::IntrPiIntr
            | MiField::IntrDpIntr => MI_INTR_REG,
            MiField::IntrMaskSpIntrMask
            | MiField::IntrMaskSiIntrMask
            | MiField::IntrMaskAiIntrMask
            | MiField::IntrMaskViIntrMask
            | MiField::IntrMaskPiIntrMask
            | MiField::IntrMaskDpIntrMask
            | MiField::IntrMaskClearSpMask
            | MiField::IntrMaskSetSpMask
            | MiField::IntrMaskClearSiMask
            | MiField::IntrMaskSetSiMask
            | MiField::IntrMaskClearAiMask
            | MiField::IntrMaskSetAiMask
            | MiField::IntrMaskClearViMask
            | MiField::IntrMaskSetViMask
            | MiField::IntrMaskClearPiMask
            | MiField::IntrMaskSetPiMask
            | MiField::IntrMaskClearDpMask
            | MiField::IntrMaskSetDpMask => MI_INTR_MASK_REG,
        }
    }
}

impl MiRegisters {
    /// The raw value of the register at byte offset `register`.
    pub open spec fn spec_raw(self, register: u32) -> u32 {
        if register == MI_INIT_MODE_REG {
            self.mi_init_mode_reg
        } else if register == MI_VERSION_REG {
            self.mi_version_reg
        } else if register == MI_INTR_REG {
            self.mi_intr_reg
        } else if register == MI_INTR_MASK_REG {
            self.mi_intr_mask_reg
        } else {
            0
        }
    }

    /// The block with the register at byte offset `register` set to `raw`.
    pub open spec fn spec_with_raw(self, register: u32, raw: u32) -> MiRegisters {
        if register == MI_INIT_MODE_REG {
            MiRegisters { mi_init_mode_reg: raw, ..self }
        } else if register == MI_VERSION_REG {
            MiRegisters { mi_version_reg: raw, ..self }
        } else if register == MI_INTR_REG {
            MiRegisters { mi_intr_reg: raw, ..self }
        } else if register == MI_INTR_MASK_REG {
            MiRegisters { mi_intr_mask_reg: raw, ..self }
        } else {
            self
        }
    }

    fn raw_of(&self, field: MiField) -> (r: u32)
        ensures
            r == self.spec_raw(field.spec_register()),
    {
        match field {
            MiField::InitModeInitLength
            | MiField::InitModeInitMode
            | MiField::InitModeEbusTestMode
            | MiField::InitModeRdramRegMode
            | MiField::InitModeClearInitMode
            | MiField::InitModeSetInitMode
            | MiField::InitModeClearEbusTestMode
            | MiField::InitModeSetEbusTestMode
            | MiField::InitModeClearDpIntr
            | MiField::InitModeClearRdramReg
            | MiField::InitModeSetDramRegMode => self.mi_init_mode_reg,
            MiField::VersionIo
            | MiField::VersionRac
            | MiField::VersionRdp
            | MiField::VersionRsp => self.mi_version_reg,
            MiField::IntrSpIntr
            | MiField::IntrSiIntr
            | MiField::IntrAiIntr
            | MiField::IntrViIntr
            | MiField::IntrPiIntr
            | MiField::IntrDpIntr => self.mi_intr_reg,
            MiField::IntrMaskSpIntrMask
            | MiField::IntrMaskSiIntrMask
            | MiField::IntrMaskAiIntrMask
            | MiField::IntrMaskViIntrMask
            | MiField::IntrMaskPiIntrMask
            | MiField::IntrMaskDpIntrMask
            | MiField::IntrMaskClearSpMask
            | MiField::IntrMaskSetSpMask
            | MiField::IntrMaskClearSiMask
            | MiField::IntrMaskSetSiMask
            | MiField::IntrMaskClearAiMask
            | MiField::IntrMaskSetAiMask
            | MiField::IntrMaskClearViMask
            | MiField::IntrMaskSetViMask
            | MiField::IntrMaskClearPiMask
            | MiField::IntrMaskSetPiMask
            | MiField::IntrMaskClearDpMask
            | MiField::IntrMaskSetDpMask => self.mi_intr_mask_reg,
        }
    }

    fn set_raw_of(&mut self, field: MiField, raw: u32)
        ensures
            *final(self) == old(self).spec_with_raw(field.spec_register(), raw),
    {
        match field {
            MiField::InitModeInitLength
            | MiField::InitModeInitMode
            | MiField::InitModeEbusTestMode
            | MiField::InitModeRdramRegMode
            | MiField::InitModeClearInitMode
            | MiField::InitModeSetInitMode
            | MiField::InitModeClearEbusTestMode
            | MiField::InitModeSetEbusTestMode
            | MiField::InitModeClearDpIntr
            | MiField::InitModeClearRdramReg
            | MiField::InitModeSetDramRegMode => self.mi_init_mode_reg = raw,
            MiField::VersionIo
            | MiField::VersionRac
            | MiField::VersionRdp
            | MiField::VersionRsp => self.mi_version_reg = raw,
            MiField::IntrSpIntr
            | MiField::IntrSiIntr
            | MiField::IntrAiIntr
            | MiField::IntrViIntr
            | MiField::IntrPiIntr
            | MiField::IntrDpIntr => self.mi_intr_reg = raw,
            MiField::IntrMaskSpIntrMask
            | MiField::IntrMaskSiIntrMask
            | MiField::IntrMaskAiIntrMask
            | MiField::IntrMaskViIntrMask
            | MiField::IntrMaskPiIntrMask
            | MiField::IntrMaskDpIntrMask
            | MiField::IntrMaskClearSpMask
            | MiField::IntrMaskSetSpMask
            | MiField::IntrMaskClearSiMask
            | MiField::IntrMaskSetSiMask
            | MiField::IntrMaskClearAiMask
            | MiField::IntrMaskSetAiMask
            | MiField::IntrMaskClearViMask
            | MiField::IntrMaskSetViMask
            | MiField::IntrMaskClearPiMask
            | MiField::IntrMaskSetPiMask
            | MiField::IntrMaskClearDpMask
            | MiField::IntrMaskSetDpMask => self.mi_intr_mask_reg = raw,
        }
    }

    /// The value of `field` in its register.
    pub fn get(&self, field: MiField) -> (r: u32)
        requires
            field.spec_field().access.can_read(),
        ensures
            r == extract_spec(
                self.spec_raw(field.spec_register()),
                field.spec_field().offset,
                field.spec_field().width,
            ),
    {
        field.field().get(self.raw_of(field))
    }

    /// Sets `field` to `value` in its register, leaving every other bit of
    /// the block as it was; a value too wide for the field is refused and
    /// nothing changes.
    pub fn set(&mut self, field: MiField, value: u32) -> (r: Result<(), RangeError>)
        requires
            field.spec_field().access.can_write(),
        ensures
            (value as nat) < pow2(field.spec_field().width as nat) <==> r is Ok,
            r is Ok ==> *final(self) == old(self).spec_with_raw(
                field.spec_register(),
                inject_spec(
                    old(self).spec_raw(field.spec_register()),
                    field.spec_field().offset,
                    field.spec_field().width,
                    value,
                ),
            ),
            r is Err ==> *final(self) == *old(self),
    {
        let raw = field.field().set(self.raw_of(field), value)?;
        self.set_raw_of(field, raw);
        Ok(())
    }
}

} // verus!
