//! Display processor command (DPC).

use crate::codec::{extract_spec, inject_spec, RangeError};
use crate::field::{Access, Field, RegisterWidth};
use vstd::arithmetic::power2::pow2;
use vstd::prelude::*;

verus! {

/// Base address of the DPC register block.
pub const DPC_BASE_ADDR: u32 = 0x0410_0000;

/// Byte offset of the command start location register.
pub const DPC_START_REG: u32 = 0x00;

/// Byte offset of the command end location register.
pub const DPC_END_REG: u32 = 0x04;

/// Byte offset of the current command load location register.
pub const DPC_CURRENT_REG: u32 = 0x08;

/// Byte offset of the status register.
pub const DPC_STATUS_REG: u32 = 0x0C;

/// Byte offset of the clock register.
pub const DPC_CLOCK_REG: u32 = 0x10;

/// Byte offset of the command buffer busy register.
pub const DPC_BUFBUSY_REG: u32 = 0x14;

/// Byte offset of the graphics pipe busy register.
pub const DPC_PIPEBUSY_REG: u32 = 0x18;

/// Byte offset of the TMEM register.
pub const DPC_TMEM_REG: u32 = 0x1C;

/// Exclusive ownership of the DPC register block.
///
/// The one token of this type comes out of the hardware registry; holding it
/// is what entitles code to access the block's registers.
#[derive(Debug)]
pub struct Dpc {
    owned: (),
}

impl Dpc {
    pub(crate) fn new() -> (r: Dpc) {
        Dpc { owned: () }
    }

    /// Address of the block's first register.
    pub fn ptr() -> (r: u32)
        ensures
            r == DPC_BASE_ADDR,
    {
        DPC_BASE_ADDR
    }
}

/// The raw values of the DPC registers, one per register in address
/// order.
#[derive(Clone, Copy, Debug, PartialEq, Eq, Structural)]
pub struct DpcRegisters {
    /// Command start location.
    pub dpc_start_reg: u32,
    /// Command end location.
    pub dpc_end_reg: u32,
    /// Current command load location.
    pub dpc_current_reg: u32,
    /// Status.
    pub dpc_status_reg: u32,
    /// Clock.
    pub dpc_clock_reg: u32,
    /// Command buffer busy.
    pub dpc_bufbusy_reg: u32,
    /// Graphics pipe busy.
    pub dpc_pipebusy_reg: u32,
    /// TMEM.
    pub dpc_tmem_reg: u32,
}

/// The named fields of the DPC registers.
#[derive(Clone, Copy, Debug, PartialEq, Eq, Structural)]
pub enum DpcField {
    StartStartAddress,
    EndEndAddress,
    CurrentCurrentAddress,
    StatusXbusDmemDma,
    StatusFreeze,
    StatusFlush,
    StatusStartGclk,
    StatusTmemBusy,
    StatusPipeBusy,
    StatusCmdBusy,
    StatusCbufReady,
    StatusDmaBusy,
    StatusEndValid,
    StatusStartValid,
    StatusClearXbusDmemDma,
    StatusSetXbusDmemDma,
    StatusClearFreeze,
    StatusSetFreeze,
    StatusClearFlush,
    StatusSetFlush,
    StatusClearTmemCtr,
    StatusClearPipeCtr,
    StatusClearCmdCtr,
    StatusClearClockCtr,
    ClockClockCounter,
    BufbusyClockCounter,
    PipebusyClockCounter,
    TmemClockCounter,
}

impl DpcField {
    pub open spec fn spec_field(self) -> Field {
        match self {
            DpcField::StartStartAddress => Field { register: RegisterWidth::Bits32, offset: 0, width: 24, access: Access::ReadWrite },
            DpcField::EndEndAddress => Field { register: RegisterWidth::Bits32, offset: 0, width: 24, access: Access::ReadWrite },
            DpcField::CurrentCurrentAddress => Field { register: RegisterWidth::Bits32, offset: 0, width: 24, access: Access::ReadOnly },
            DpcField::StatusXbusDmemDma => Field { register: RegisterWidth::Bits32, offset: 0, width: 1, access: Access::ReadOnly },
            DpcField::StatusFreeze => Field { register: RegisterWidth::Bits32, offset: 1, width: 1, access: Access::ReadOnly },
            DpcField::StatusFlush => Field { register: RegisterWidth::Bits32, offset: 2, width: 1, access: Access::ReadOnly },
            DpcField::StatusStartGclk => Field { register: RegisterWidth::Bits32, offset: 3, width: 1, access: Access::ReadOnly },
            DpcField::StatusTmemBusy => Field { register: RegisterWidth::Bits32, offset: 4, width: 1, access: Access::ReadOnly },
            DpcField::StatusPipeBusy => Field { register: RegisterWidth::Bits32, offset: 5, width: 1, access: Access::ReadOnly },
            DpcField::StatusCmdBusy => Field { register: RegisterWidth::Bits32, offset: 6, width: 1, access: Access::ReadOnly },
            DpcField::StatusCbufReady => Field { register: RegisterWidth::Bits32, offset: 7, width: 1, access: Access::ReadOnly },
            DpcField::StatusDmaBusy => Field { register: RegisterWidth::Bits32, offset: 8, width: 1, access: Access::ReadOnly },
            DpcField::StatusEndValid => Field { register: RegisterWidth::Bits32, offset: 9, width: 1, access: Access::ReadOnly },
            DpcField::StatusStartValid => Field { register: RegisterWidth::Bits32, offset: 10, width: 1, access: Access::ReadOnly },
            DpcField::StatusClearXbusDmemDma => Field { register: RegisterWidth::Bits32, offset: 0, width: 1, access: Access::WriteOnly },
            DpcField::StatusSetXbusDmemDma => Field { register: RegisterWidth::Bits32, offset: 1, width: 1, access: Access::WriteOnly },
            DpcField::StatusClearFreeze => Field { register: RegisterWidth::Bits32, offset: 2, width: 1, access: Access::WriteOnly },
            DpcField::StatusSetFreeze => Field { register: RegisterWidth::Bits32, offset: 3, width: 1, access: Access::WriteOnly },
            DpcField::StatusClearFlush => Field { register: RegisterWidth::Bits32, offset: 4, width: 1, access: Access::WriteOnly },
            DpcField::StatusSetFlush => Field { register: RegisterWidth::Bits32, offset: 5, width: 1, access: Access::WriteOnly },
            DpcField::StatusClearTmemCtr => Field { register: RegisterWidth::Bits32, offset: 6, width: 1, access: Access::WriteOnly },
            DpcField::StatusClearPipeCtr => Field { register: RegisterWidth::Bits32, offset: 7, width: 1, access: Access::WriteOnly },
            DpcField::StatusClearCmdCtr => Field { register: RegisterWidth::Bits32, offset: 8, width: 1, access: Access::WriteOnly },
            DpcField::StatusClearClockCtr => Field { register: RegisterWidth::Bits32, offset: 9, width: 1, access: Access::WriteOnly },
            DpcField::ClockClockCounter => Field { register: RegisterWidth::Bits32, offset: 0, width: 24, access: Access::ReadOnly },
            DpcField::BufbusyClockCounter => Field { register: RegisterWidth::Bits32, offset: 0, width: 24, access: Access::ReadOnly },
            DpcField::PipebusyClockCounter => Field { register: RegisterWidth::Bits32, offset: 0, width: 24, access: Access::ReadOnly },
            DpcField::TmemClockCounter => Field { register: RegisterWidth::Bits32, offset: 0, width: 24, access: Access::ReadOnly },
        }
    }

    pub open spec fn spec_register(self) -> u32 {
        match self {
            DpcField::StartStartAddress => DPC_START_REG,
            DpcField::EndEndAddress => DPC_END_REG,
            DpcField::CurrentCurrentAddress => DPC_CURRENT_REG,
            DpcField::StatusXbusDmemDma
            | DpcField::StatusFreeze
            | DpcField::StatusFlush
            | DpcField::StatusStartGclk
            | DpcField::StatusTmemBusy
            | DpcField::StatusPipeBusy
            | DpcField::StatusCmdBusy
            | DpcField::StatusCbufReady
            | DpcField::StatusDmaBusy
            | DpcField::StatusEndValid
            | DpcField::StatusStartValid
            | DpcField::StatusClearXbusDmemDma
            | DpcField::StatusSetXbusDmemDma
            | DpcField::StatusClearFreeze
            | DpcField::StatusSetFreeze
            | DpcField::StatusClearFlush
            | DpcField::StatusSetFlush
            | DpcField::StatusClearTmemCtr
            | DpcField::StatusClearPipeCtr
            | DpcField::StatusClearCmdCtr
            | DpcField::StatusClearClockCtr => DPC_STATUS_REG,
            DpcField::ClockClockCounter => DPC_CLOCK_REG,
            DpcField::BufbusyClockCounter => DPC_BUFBUSY_REG,
            DpcField::PipebusyClockCounter => DPC_PIPEBUSY_REG,
            DpcField::TmemClockCounter => DPC_TMEM_REG,
        }
    }

    /// Where the field lies in its register, and how it may be used.
    pub fn field(&self) -> (r: Field)
        ensures
            r == self.spec_field(),
            r.wf(),
    {
        match self {
            DpcField::StartStartAddress => Field { register: RegisterWidth::Bits32, offset: 0, width: 24, access: Access::ReadWrite },
            DpcField::EndEndAddress => Field { register: RegisterWidth::Bits32, offset: 0, width: 24, access: Access::ReadWrite },
            DpcField::CurrentCurrentAddress => Field { register: RegisterWidth::Bits32, offset: 0, width: 24, access: Access::ReadOnly },
            DpcField::StatusXbusDmemDma => Field { register: RegisterWidth::Bits32, offset: 0, width: 1, access: Access::ReadOnly },
            DpcField::StatusFreeze => Field { register: RegisterWidth::Bits32, offset: 1, width: 1, access: Access::ReadOnly },
            DpcField::StatusFlush => Field { register: RegisterWidth::Bits32, offset: 2, width: 1, access: Access::ReadOnly },
            DpcField::StatusStartGclk => Field { register: RegisterWidth::Bits32, offset: 3, width: 1, access: Access::ReadOnly },
            DpcField::StatusTmemBusy => Field { register: RegisterWidth::Bits32, offset: 4, width: 1, access: Access::ReadOnly },
            DpcField::StatusPipeBusy => Field { register: RegisterWidth::Bits32, offset: 5, width: 1, access: Access::ReadOnly },
            DpcField::StatusCmdBusy => Field { register: RegisterWidth::Bits32, offset: 6, width: 1, access: Access::ReadOnly },
            DpcField::StatusCbufReady => Field { register: RegisterWidth::Bits32, offset: 7, width: 1, access: Access::ReadOnly },
            DpcField::StatusDmaBusy => Field { register: RegisterWidth::Bits32, offset: 8, width: 1, access: Access::ReadOnly },
            DpcField::StatusEndValid => Field { register: RegisterWidth::Bits32, offset: 9, width: 1, access: Access::ReadOnly },
            DpcField::StatusStartValid => Field { register: RegisterWidth::Bits32, offset: 10, width: 1, access: Access::ReadOnly },
            DpcField::StatusClearXbusDmemDma => Field { register: RegisterWidth::Bits32, offset: 0, width: 1, access: Access::WriteOnly },
            DpcField::StatusSetXbusDmemDma => Field { register: RegisterWidth::Bits32, offset: 1, width: 1, access: Access::WriteOnly },
            DpcField::StatusClearFreeze => Field { register: RegisterWidth::Bits32, offset: 2, width: 1, access: Access::WriteOnly },
            DpcField::StatusSetFreeze => Field { register: RegisterWidth::Bits32, offset: 3, width: 1, access: Access::WriteOnly },
            DpcField::StatusClearFlush => Field { register: RegisterWidth::Bits32, offset: 4, width: 1, access: Access::WriteOnly },
            DpcField::StatusSetFlush => Field { register: RegisterWidth::Bits32, offset: 5, width: 1, access: Access::WriteOnly },
            DpcField::StatusClearTmemCtr => Field { register: RegisterWidth::Bits32, offset: 6, width: 1, access: Access::WriteOnly },
            DpcField::StatusClearPipeCtr => Field { register: RegisterWidth::Bits32, offset: 7, width: 1, access: Access::WriteOnly },
            DpcField::StatusClearCmdCtr => Field { register: RegisterWidth::Bits32, offset: 8, width: 1, access: Access::WriteOnly },
            DpcField::StatusClearClockCtr => Field { register: RegisterWidth::Bits32, offset: 9, width: 1, access: Access::WriteOnly },
            DpcField::ClockClockCounter => Field { register: RegisterWidth::Bits32, offset: 0, width: 24, access: Access::ReadOnly },
            DpcField::BufbusyClockCounter => Field { register: RegisterWidth::Bits32, offset: 0, width: 24, access: Access::ReadOnly },
            DpcField::PipebusyClockCounter => Field { register: RegisterWidth::Bits32, offset: 0, width: 24, access: Access::ReadOnly },
            DpcField::TmemClockCounter => Field { register: RegisterWidth::Bits32, offset: 0, width: 24, access: Access::ReadOnly },
        }
    }

    /// Byte offset of the field's register from the block's base address.
    pub fn register(&self) -> (r: u32)
        ensures
            r == self.spec_register(),
    {
        match self {
            DpcField::StartStartAddress => DPC_START_REG,
            DpcField::EndEndAddress => DPC_END_REG,
            DpcField::CurrentCurrentAddress => DPC_CURRENT_REG,
            DpcField::StatusXbusDmemDma
            | DpcField::StatusFreeze
            | DpcField::StatusFlush
            | DpcField::StatusStartGclk
            | DpcField::StatusTmemBusy
            | DpcField::StatusPipeBusy
            | DpcField::StatusCmdBusy
            | DpcField::StatusCbufReady
            | DpcField::StatusDmaBusy
            | DpcField::StatusEndValid
            | DpcField::StatusStartValid
            | DpcField::StatusClearXbusDmemDma
            | DpcField::StatusSetXbusDmemDma
            | DpcField::StatusClearFreeze
            | DpcField::StatusSetFreeze
            | DpcField::StatusClearFlush
            | DpcField::StatusSetFlush
            | DpcField::StatusClearTmemCtr
            | DpcField::StatusClearPipeCtr
            | DpcField::StatusClearCmdCtr
            | DpcField::StatusClearClockCtr => DPC_STATUS_REG,
            DpcField::ClockClockCounter => DPC_CLOCK_REG,
            DpcField::BufbusyClockCounter => DPC_BUFBUSY_REG,
            DpcField::PipebusyClockCounter => DPC_PIPEBUSY_REG,
            DpcField::TmemClockCounter => DPC_TMEM_REG,
        }
    }
}

impl DpcRegisters {
    /// The raw value of the register at byte offset `register`.
    pub open spec fn spec_raw(self, register: u32) -> u32 {
        if register == DPC_START_REG {
            self.dpc_start_reg
        } else if register == DPC_END_REG {
            self.dpc_end_reg
        } else if register == DPC_CURRENT_REG {
            self.dpc_current_reg
        } else if register == DPC_STATUS_REG {
            self.dpc_status_reg
        } else if register == DPC_CLOCK_REG {
            self.dpc_clock_reg
        } else if register == DPC_BUFBUSY_REG {
            self.dpc_bufbusy_reg
        } else if register == DPC_PIPEBUSY_REG {
            self.dpc_pipebusy_reg
        } else if register == DPC_TMEM_REG {
            self.dpc_tmem_reg
        } else {
            0
        }
    }

    /// The block with the register at byte offset `register` set to `raw`.
    pub open spec fn spec_with_raw(self, register: u32, raw: u32) -> DpcRegisters {
        if register == DPC_START_REG {
            DpcRegisters { dpc_start_reg: raw, ..self }
        } else if register == DPC_END_REG {
            DpcRegisters { dpc_end_reg: raw, ..self }
        } else if register == DPC_CURRENT_REG {
            DpcRegisters { dpc_current_reg: raw, ..self }
        } else if register == DPC_STATUS_REG {
            DpcRegisters { dpc_status_reg: raw, ..self }
        } else if register == DPC_CLOCK_REG {
            DpcRegisters { dpc_clock_reg: raw, ..self }
        } else if register == DPC_BUFBUSY_REG {
            DpcRegisters { dpc_bufbusy_reg: raw, ..self }
        } else if register == DPC_PIPEBUSY_REG {
            DpcRegisters { dpc_pipebusy_reg: raw, ..self }
        } else if register == DPC_TMEM_REG {
            DpcRegisters { dpc_tmem_reg: raw, ..self }
        } else {
            self
        }
    }

    fn raw_of(&self, field: DpcField) -> (r: u32)
        ensures
            r == self.spec_raw(field.spec_register()),
    {
        match field {
            DpcField::StartStartAddress => self.dpc_start_reg,
            DpcField::EndEndAddress => self.dpc_end_reg,
            DpcField::CurrentCurrentAddress => self.dpc_current_reg,
            DpcField::StatusXbusDmemDma
            | DpcField::StatusFreeze
            | DpcField::StatusFlush
            | DpcField::StatusStartGclk
            | DpcField::StatusTmemBusy
            | DpcField::StatusPipeBusy
            | DpcField::StatusCmdBusy
            | DpcField::StatusCbufReady
            | DpcField::StatusDmaBusy
            | DpcField::StatusEndValid
            | DpcField::StatusStartValid
            | DpcField::StatusClearXbusDmemDma
            | DpcField::StatusSetXbusDmemDma
            | DpcField::StatusClearFreeze
            | DpcField::StatusSetFreeze
            | DpcField::StatusClearFlush
            | DpcField::StatusSetFlush
            | DpcField::StatusClearTmemCtr
            | DpcField::StatusClearPipeCtr
            | DpcField::StatusClearCmdCtr
            | DpcField::StatusClearClockCtr => self.dpc_status_reg,
            DpcField::ClockClockCounter => self.dpc_clock_reg,
            DpcField::BufbusyClockCounter => self.dpc_bufbusy_reg,
            DpcField::PipebusyClockCounter => self.dpc_pipebusy_reg,
            DpcField::TmemClockCounter => self.dpc_tmem_reg,
        }
    }

    fn set_raw_of(&mut self, field: DpcField, raw: u32)
        ensures
            *final(self) == old(self).spec_with_raw(field.spec_register(), raw),
    {
        match field {
            DpcField::StartStartAddress => self.dpc_start_reg = raw,
            DpcField::EndEndAddress => self.dpc_end_reg = raw,
            DpcField::CurrentCurrentAddress => self.dpc_current_reg = raw,
            DpcField::StatusXbusDmemDma
            | DpcField::StatusFreeze
            | DpcField::StatusFlush
            | DpcField::StatusStartGclk
            | DpcField::StatusTmemBusy
            | DpcField::StatusPipeBusy
            | DpcField::StatusCmdBusy
            | DpcField::StatusCbufReady
            | DpcField::StatusDmaBusy
            | DpcField::StatusEndValid
            | DpcField::StatusStartValid
            | DpcField::StatusClearXbusDmemDma
            | DpcField::StatusSetXbusDmemDma
            | DpcField::StatusClearFreeze
            | DpcField::StatusSetFreeze
            | DpcField::StatusClearFlush
            | DpcField::StatusSetFlush
            | DpcField::StatusClearTmemCtr
            | DpcField::StatusClearPipeCtr
            | DpcField::StatusClearCmdCtr
            | DpcField::StatusClearClockCtr => self.dpc_status_reg = raw,
            DpcField::ClockClockCounter => self.dpc_clock_reg = raw,
            DpcField::BufbusyClockCounter => self.dpc_bufbusy_reg = raw,
            DpcField::PipebusyClockCounter => self.dpc_pipebusy_reg = raw,
            DpcField::TmemClockCounter => self.dpc_tmem_reg = raw,
        }
    }

    /// The value of `field` in its register.
    pub fn get(&self, field: DpcField) -> (r: u32)
        requires
            field.spec_field().access.can_read(),
        ensures
            r == extract_spec(
                self.spec_raw(field.spec_register()),
                field.spec_field().offset,
                field.spec_field().width,
            ),
    {
        field.field().get(self.raw_of(field))
    }

    /// Sets `field` to `value` in its register, leaving every other bit of
    /// the block as it was; a value too wide for the field is refused and
    /// nothing changes.
    pub fn set(&mut self, field: DpcField, value: u32) -> (r: Result<(), RangeError>)
        requires
            field.spec_field().access.can_write(),
        ensures
            (value as nat) < pow2(field.spec_field().width as nat) <==> r is Ok,
            r is Ok ==> *final(self) == old(self).spec_with_raw(
                field.spec_register(),
                inject_spec(
                    old(self).spec_raw(field.spec_register()),
                    field.spec_field().offset,
                    field.spec_field().width,
                    value,
                ),
            ),
            r is Err ==> *final(self) == *old(self),
    {
        let raw = field.field().set(self.raw_of(field), value)?;
        self.set_raw_of(field, raw);
        Ok(())
    }
}

/// Where the RDP fetches its commands from, as the status register reports.
#[derive(Clone, Copy, Debug, PartialEq, Eq, Structural)]
pub enum RdpCommandSource {
    /// The RSP's data memory.
    RspDmem,
    /// Main memory.
    Rdram,
}

impl RdpCommandSource {
    pub open spec fn spec_flag(self) -> bool {
        self is RspDmem
    }

    /// The source that the status bit `flag` reports.
    pub fn from_flag(flag: bool) -> (r: RdpCommandSource)
        ensures
            r.spec_flag() == flag,
    {
        if flag {
            RdpCommandSource::RspDmem
        } else {
            RdpCommandSource::Rdram
        }
    }

    /// The status bit that reports this source.
    pub fn flag(&self) -> (r: bool)
        ensures
            r == self.spec_flag(),
    {
        matches!(self, RdpCommandSource::RspDmem)
    }
}

} // verus!
