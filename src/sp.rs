//! RSP interface (SP).

use crate::codec::{extract_spec, inject_spec, RangeError};
use crate::field::{Access, Field, RegisterWidth};
use vstd::arithmetic::power2::pow2;
use vstd::prelude::*;

verus! {

/// Base address of the SP register block.
pub const SP_BASE_REG: u32 = 0x0404_0000;

/// Byte offset of the DMEM/IMEM address register.
pub const SP_MEM_ADDR_REG: u32 = 0x00;

/// Byte offset of the DRAM address register.
pub const SP_DRAM_ADDR_REG: u32 = 0x04;

/// Byte offset of the read length register.
pub const SP_RD_LEN_REG: u32 = 0x08;

/// Byte offset of the write length register.
pub const SP_WR_LEN_REG: u32 = 0x0C;

/// Byte offset of the status register.
pub const SP_STATUS_REG: u32 = 0x10;

/// Byte offset of the DMA full register.
pub const SP_DMA_FULL_REG: u32 = 0x14;

/// Byte offset of the DMA busy register.
pub const SP_DMA_BUSY_REG: u32 = 0x18;

/// Byte offset of the semaphore register.
pub const SP_SEMAPHORE_REG: u32 = 0x1C;

/// Exclusive ownership of the SP register block.
///
/// The one token of this type comes out of the hardware registry; holding it
/// is what entitles code to access the block's registers.
#[derive(Debug)]
pub struct Sp {
    owned: (),
}

impl Sp {
    pub(crate) fn new() -> (r: Sp) {
        Sp { owned: () }
    }

    /// Address of the block's first register.
    pub fn ptr() -> (r: u32)
        ensures
            r == SP_BASE_REG,
    {
        SP_BASE_REG
    }
}

/// The raw values of the SP registers, one per register in address
/// order.
#[derive(Clone, Copy, Debug, PartialEq, Eq, Structural)]
pub struct SpRegisters {
    /// DMEM/IMEM address.
    pub sp_mem_addr_reg: u32,
    /// DRAM address.
    pub sp_dram_addr_reg: u32,
    /// Read length.
    pub sp_rd_len_reg: u32,
    /// Write length.
    pub sp_wr_len_reg: u32,
    /// Status.
    pub sp_status_reg: u32,
    /// DMA full.
    pub sp_dma_full_reg: u32,
    /// DMA busy.
    pub sp_dma_busy_reg: u32,
    /// Semaphore.
    pub sp_semaphore_reg: u32,
}

/// The named fields of the SP registers.
#[derive(Clone, Copy, Debug, PartialEq, Eq, Structural)]
pub enum SpField {
    MemAddrMemAddress,
    MemAddrDmemImem,
    DramAddrRdramAddress,
    RdLenLength,
    RdLenCount,
    RdLenSkip,
    WrLenLength,
    WrLenCount,
    WrLenSkip,
    StatusHalt,
    StatusBroke,
    StatusDmaBusy,
    StatusDmaFull,
    StatusIoFull,
    StatusSingleStep,
    StatusIntrOnBreak,
    StatusSignal0Set,
    StatusSignal1Set,
    StatusSignal2Set,
    StatusSignal3Set,
    StatusSignal4Set,
    StatusSignal5Set,
    StatusSignal6Set,
    StatusSignal7Set,
    StatusClearHalt,
    StatusSetHalt,
    StatusClearBroke,
    StatusClearIntr,
    StatusSetIntr,
    StatusClearSstep,
    StatusSetSstep,
    StatusClearIntrOnBreak,
    StatusSetIntrOnBreak,
    StatusClearSignal0,
    StatusSetSignal0,
    StatusClearSignal1,
    StatusSetSignal1,
    StatusClearSignal2,
    StatusSetSignal2,
    StatusClearSignal3,
    StatusSetSignal3,
    StatusClearSignal4,
    StatusSetSignal4,
    StatusClearSignal5,
    StatusSetSignal5,
    StatusClearSignal6,
    StatusSetSignal6,
    StatusClearSignal7,
    StatusSetSignal7,
    DmaFullDmaFull,
    DmaBusyDmaBusy,
    SemaphoreSemaphoreFlag,
    SemaphoreClearSemaphoreFlag,
}

impl SpField {
    pub open spec fn spec_field(self) -> Field {
        match self {
            SpField::MemAddrMemAddress => Field { register: RegisterWidth::Bits32, offset: 0, width: 12, access: Access::ReadWrite },
            SpField::MemAddrDmemImem => Field { register: RegisterWidth::Bits32, offset: 12, width: 1, access: Access::ReadWrite },
            SpField::DramAddrRdramAddress => Field { register: RegisterWidth::Bits32, offset: 0, width: 24, access: Access::ReadWrite },
            SpField::RdLenLength => Field { register: RegisterWidth::Bits32, offset: 0, width: 12, access: Access::ReadWrite },
            SpField::RdLenCount => Field { register: RegisterWidth::Bits32, offset: 12, width: 8, access: Access::ReadWrite },
            SpField::RdLenSkip => Field { register: RegisterWidth::Bits32, offset: 20, width: 12, access: Access::ReadWrite },
            SpField::WrLenLength => Field { register: RegisterWidth::Bits32, offset: 0, width: 12, access: Access::ReadWrite },
            SpField::WrLenCount => Field { register: RegisterWidth::Bits32, offset: 12, width: 8, access: Access::ReadWrite },
            SpField::WrLenSkip => Field { register: RegisterWidth::Bits32, offset: 20, width: 12, access: Access::ReadWrite },
            SpField::StatusHalt => Field { register: RegisterWidth::Bits32, offset: 0, width: 1, access: Access::ReadOnly },
            SpField::StatusBroke => Field { register: RegisterWidth::Bits32, offset: 1, width: 1, access: Access::ReadOnly },
            SpField::StatusDmaBusy => Field { register: RegisterWidth::Bits32, offset: 2, width: 1, access: Access::ReadOnly },
            SpField::StatusDmaFull => Field { register: RegisterWidth::Bits32, offset: 3, width: 1, access: Access::ReadOnly },
            SpField::StatusIoFull => Field { register: RegisterWidth::Bits32, offset: 4, width: 1, access: Access::ReadOnly },
            SpField::StatusSingleStep => Field { register: RegisterWidth::Bits32, offset: 5, width: 1, access: Access::ReadOnly },
            SpField::StatusIntrOnBreak => Field { register: RegisterWidth::Bits32, offset: 6, width: 1, access: Access::ReadOnly },
            SpField::StatusSignal0Set => Field { register: RegisterWidth::Bits32, offset: 7, width: 1, access: Access::ReadOnly },
            SpField::StatusSignal1Set => Field { register: RegisterWidth::Bits32, offset: 8, width: 1, access: Access::ReadOnly },
            SpField::StatusSignal2Set => Field { register: RegisterWidth::Bits32, offset: 9, width: 1, access: Access::ReadOnly },
            SpField::StatusSignal3Set => Field { register: RegisterWidth::Bits32, offset: 10, width: 1, access: Access::ReadOnly },
            SpField::StatusSignal4Set => Field { register: RegisterWidth::Bits32, offset: 11, width: 1, access: Access::ReadOnly },
            SpField::StatusSignal5Set => Field { register: RegisterWidth::Bits32, offset: 12, width: 1, access: Access::ReadOnly },
            SpField::StatusSignal6Set => Field { register: RegisterWidth::Bits32, offset: 13, width: 1, access: Access::ReadOnly },
            SpField::StatusSignal7Set => Field { register: RegisterWidth::Bits32, offset: 14, width: 1, access: Access::ReadOnly },
            SpField::StatusClearHalt => Field { register: RegisterWidth::Bits32, offset: 0, width: 1, access: Access::WriteOnly },
            SpField::StatusSetHalt => Field { register: RegisterWidth::Bits32, offset: 1, width: 1, access: Access::WriteOnly },
            SpField::StatusClearBroke => Field { register: RegisterWidth::Bits32, offset: 2, width: 1, access: Access::WriteOnly },
            SpField::StatusClearIntr => Field { register: RegisterWidth::Bits32, offset: 3, width: 1, access: Access::WriteOnly },
            SpField::StatusSetIntr => Field { register: RegisterWidth::Bits32, offset: 4, width: 1, access: Access::WriteOnly },
            SpField::StatusClearSstep => Field { register: RegisterWidth::Bits32, offset: 5, width: 1, access: Access::WriteOnly },
            SpField::StatusSetSstep => Field { register: RegisterWidth::Bits32, offset: 6, width: 1, access: Access::WriteOnly },
            SpField::StatusClearIntrOnBreak => Field { register: RegisterWidth::Bits32, offset: 7, width: 1, access: Access::WriteOnly },
            SpField::StatusSetIntrOnBreak => Field { register: RegisterWidth::Bits32, offset: 8, width: 1, access: Access::WriteOnly },
            SpField::StatusClearSignal0 => Field { register: RegisterWidth::Bits32, offset: 9, width: 1, access: Access::WriteOnly },
            SpField::StatusSetSignal0 => Field { register: RegisterWidth::Bits32, offset: 10, width: 1, access: Access::WriteOnly },
            SpField::StatusClearSignal1 => Field { register: RegisterWidth::Bits32, offset: 11, width: 1, access: Access::WriteOnly },
            SpField::StatusSetSignal1 => Field { register: RegisterWidth::Bits32, offset: 12, width: 1, access: Access::WriteOnly },
            SpField::StatusClearSignal2 => Field { register: RegisterWidth::Bits32, offset: 13, width: 1, access: Access::WriteOnly },
            SpField::StatusSetSignal2 => Field { register: RegisterWidth::Bits32, offset: 14, width: 1, access: Access::WriteOnly },
            SpField::StatusClearSignal3 => Field { register: RegisterWidth::Bits32, offset: 15, width: 1, access: Access::WriteOnly },
            SpField::StatusSetSignal3 => Field { register: RegisterWidth::Bits32, offset: 16, width: 1, access: Access::WriteOnly },
            SpField::StatusClearSignal4 => Field { register: RegisterWidth::Bits32, offset: 17, width: 1, access: Access::WriteOnly },
            SpField::StatusSetSignal4 => Field { register: RegisterWidth::Bits32, offset: 18, width: 1, access: Access::WriteOnly },
            SpField::StatusClearSignal5 => Field { register: RegisterWidth::Bits32, offset: 19, width: 1, access: Access::WriteOnly },
            SpField::StatusSetSignal5 => Field { register: RegisterWidth::Bits32, offset: 20, width: 1, access: Access::WriteOnly },
            SpField::StatusClearSignal6 => Field { register: RegisterWidth::Bits32, offset: 21, width: 1, access: Access::WriteOnly },
            SpField::StatusSetSignal6 => Field { register: RegisterWidth::Bits32, offset: 22, width: 1, access: Access::WriteOnly },
            SpField::StatusClearSignal7 => Field { register: RegisterWidth::Bits32, offset: 23, width: 1, access: Access::WriteOnly },
            SpField::StatusSetSignal7 => Field { register: RegisterWidth::Bits32, offset: 24, width: 1, access: Access::WriteOnly },
            SpField::DmaFullDmaFull => Field { register: RegisterWidth::Bits32, offset: 0, width: 1, access: Access::ReadOnly },
            SpField::DmaBusyDmaBusy => Field { register: RegisterWidth::Bits32, offset: 0, width: 1, access: Access::ReadOnly },
            SpField::SemaphoreSemaphoreFlag => Field { register: RegisterWidth::Bits32, offset: 0, width: 1, access: Access::ReadOnly },
            SpField::SemaphoreClearSemaphoreFlag => Field { register: RegisterWidth::Bits32, offset: 0, width: 1, access: Access::WriteOnly },
        }
    }

    pub open spec fn spec_register(self) -> u32 {
        match self {
            SpField::MemAddrMemAddress
            | SpField::MemAddrDmemImem => SP_MEM_ADDR_REG,
            SpField::DramAddrRdramAddress => SP_DRAM_ADDR_REG,
            SpField::RdLenLength
            | SpField::RdLenCount
            | SpField::RdLenSkip => SP_RD_LEN_REG,
            SpField::WrLenLength
            | SpField::WrLenCount
            | SpField::WrLenSkip => SP_WR_LEN_REG,
            SpField::StatusHalt
            | SpField::StatusBroke
            | SpField::StatusDmaBusy
            | SpField::StatusDmaFull
            | SpField::StatusIoFull
            | SpField::StatusSingleStep
            | SpField::StatusIntrOnBreak
            | SpField::StatusSignal0Set
            | SpField::StatusSignal1Set
            | SpField::StatusSignal2Set
            | SpField::StatusSignal3Set
            | SpField::StatusSignal4Set
            | SpField::StatusSignal5Set
            | SpField::StatusSignal6Set
            | SpField::StatusSignal7Set
            | SpField::StatusClearHalt
            | SpField::StatusSetHalt
            | SpField::StatusClearBroke
            | SpField::StatusClearIntr
            | SpField::StatusSetIntr
            | SpField::StatusClearSstep
            | SpField::StatusSetSstep
            | SpField::StatusClearIntrOnBreak
            | SpField::StatusSetIntrOnBreak
            | SpField::StatusClearSignal0
            | SpField::StatusSetSignal0
            | SpField::StatusClearSignal1
            | SpField::StatusSetSignal1
            | SpField::StatusClearSignal2
            | SpField::StatusSetSignal2
            | SpField::StatusClearSignal3
            | SpField::StatusSetSignal3
            | SpField::StatusClearSignal4
            | SpField::StatusSetSignal4
            | SpField::StatusClearSignal5
            | SpField::StatusSetSignal5
            | SpField::StatusClearSignal6
            | SpField::StatusSetSignal6
            | SpField::StatusClearSignal7
            | SpField::StatusSetSignal7 => SP_STATUS_REG,
            SpField::DmaFullDmaFull => SP_DMA_FULL_REG,
            SpField::DmaBusyDmaBusy => SP_DMA_BUSY_REG,
            SpField::SemaphoreSemaphoreFlag
            | SpField::SemaphoreClearSemaphoreFlag => SP_SEMAPHORE_REG,
        }
    }

    /// Where the field lies in its register, and how it may be used.
    pub fn field(&self) -> (r: Field)
        ensures
            r == self.spec_field(),
            r.wf(),
    {
        match self {
            SpField::MemAddrMemAddress => Field { register: RegisterWidth::Bits32, offset: 0, width: 12, access: Access::ReadWrite },
            SpField::MemAddrDmemImem => Field { register: RegisterWidth::Bits32, offset: 12, width: 1, access: Access::ReadWrite },
            SpField::DramAddrRdramAddress => Field { register: RegisterWidth::Bits32, offset: 0, width: 24, access: Access::ReadWrite },
            SpField::RdLenLength => Field { register: RegisterWidth::Bits32, offset: 0, width: 12, access: Access::ReadWrite },
            SpField::RdLenCount => Field { register: RegisterWidth::Bits32, offset: 12, width: 8, access: Access::ReadWrite },
            SpField::RdLenSkip => Field { register: RegisterWidth::Bits32, offset: 20, width: 12, access: Access::ReadWrite },
            SpField::WrLenLength => Field { register: RegisterWidth::Bits32, offset: 0, width: 12, access: Access::ReadWrite },
            SpField::WrLenCount => Field { register: RegisterWidth::Bits32, offset: 12, width: 8, access: Access::ReadWrite },
            SpField::WrLenSkip => Field { register: RegisterWidth::Bits32, offset: 20, width: 12, access: Access::ReadWrite },
            SpField::StatusHalt => Field { register: RegisterWidth::Bits32, offset: 0, width: 1, access: Access::ReadOnly },
            SpField::StatusBroke => Field { register: RegisterWidth::Bits32, offset: 1, width: 1, access: Access::ReadOnly },
            SpField::StatusDmaBusy => Field { register: RegisterWidth::Bits32, offset: 2, width: 1, access: Access::ReadOnly },
            SpField::StatusDmaFull => Field { register: RegisterWidth::Bits32, offset: 3, width: 1, access: Access::ReadOnly },
            SpField::StatusIoFull => Field { register: RegisterWidth::Bits32, offset: 4, width: 1, access: Access::ReadOnly },
            SpField::StatusSingleStep => Field { register: RegisterWidth::Bits32, offset: 5, width: 1, access: Access::ReadOnly },
            SpField::StatusIntrOnBreak => Field { register: RegisterWidth::Bits32, offset: 6, width: 1, access: Access::ReadOnly },
            SpField::StatusSignal0Set => Field { register: RegisterWidth::Bits32, offset: 7, width: 1, access: Access::ReadOnly },
            SpField::StatusSignal1Set => Field { register: RegisterWidth::Bits32, offset: 8, width: 1, access: Access::ReadOnly },
            SpField::StatusSignal2Set => Field { register: RegisterWidth::Bits32, offset: 9, width: 1, access: Access::ReadOnly },
            SpField::StatusSignal3Set => Field { register: RegisterWidth::Bits32, offset: 10, width: 1, access: Access::ReadOnly },
            SpField::StatusSignal4Set => Field { register: RegisterWidth::Bits32, offset: 11, width: 1, access: Access::ReadOnly },
            SpField::StatusSignal5Set => Field { register: RegisterWidth::Bits32, offset: 12, width: 1, access: Access::ReadOnly },
            SpField::StatusSignal6Set => Field { register: RegisterWidth::Bits32, offset: 13, width: 1, access: Access::ReadOnly },
            SpField::StatusSignal7Set => Field { register: RegisterWidth::Bits32, offset: 14, width: 1, access: Access::ReadOnly },
            SpField::StatusClearHalt => Field { register: RegisterWidth::Bits32, offset: 0, width: 1, access: Access::WriteOnly },
            SpField::StatusSetHalt => Field { register: RegisterWidth::Bits32, offset: 1, width: 1, access: Access::WriteOnly },
            SpField::StatusClearBroke => Field { register: RegisterWidth::Bits32, offset: 2, width: 1, access: Access::WriteOnly },
            SpField::StatusClearIntr => Field { register: RegisterWidth::Bits32, offset: 3, width: 1, access: Access::WriteOnly },
            SpField::StatusSetIntr => Field { register: RegisterWidth::Bits32, offset: 4, width: 1, access: Access::WriteOnly },
            SpField::StatusClearSstep => Field { register: RegisterWidth::Bits32, offset: 5, width: 1, access: Access::WriteOnly },
            SpField::StatusSetSstep => Field { register: RegisterWidth::Bits32, offset: 6, width: 1, access: Access::WriteOnly },
            SpField::StatusClearIntrOnBreak => Field { register: RegisterWidth::Bits32, offset: 7, width: 1, access: Access::WriteOnly },
            SpField::StatusSetIntrOnBreak => Field { register: RegisterWidth::Bits32, offset: 8, width: 1, access: Access::WriteOnly },
            SpField::StatusClearSignal0 => Field { register: RegisterWidth::Bits32, offset: 9, width: 1, access: Access::WriteOnly },
            SpField::StatusSetSignal0 => Field { register: RegisterWidth::Bits32, offset: 10, width: 1, access: Access::WriteOnly },
            SpField::StatusClearSignal1 => Field { register: RegisterWidth::Bits32, offset: 11, width: 1, access: Access::WriteOnly },
            SpField::StatusSetSignal1 => Field { register: RegisterWidth::Bits32, offset: 12, width: 1, access: Access::WriteOnly },
            SpField::StatusClearSignal2 => Field { register: RegisterWidth::Bits32, offset: 13, width: 1, access: Access::WriteOnly },
            SpField::StatusSetSignal2 => Field { register: RegisterWidth::Bits32, offset: 14, width: 1, access: Access::WriteOnly },
            SpField::StatusClearSignal3 => Field { register: RegisterWidth::Bits32, offset: 15, width: 1, access: Access::WriteOnly },
            SpField::StatusSetSignal3 => Field { register: RegisterWidth::Bits32, offset: 16, width: 1, access: Access::WriteOnly },
            SpField::StatusClearSignal4 => Field { register: RegisterWidth::Bits32, offset: 17, width: 1, access: Access::WriteOnly },
            SpField::StatusSetSignal4 => Field { register: RegisterWidth::Bits32, offset: 18, width: 1, access: Access::WriteOnly },
            SpField::StatusClearSignal5 => Field { register: RegisterWidth::Bits32, offset: 19, width: 1, access: Access::WriteOnly },
            SpField::StatusSetSignal5 => Field { register: RegisterWidth::Bits32, offset: 20, width: 1, access: Access::WriteOnly },
            SpField::StatusClearSignal6 => Field { register: RegisterWidth::Bits32, offset: 21, width: 1, access: Access::WriteOnly },
            SpField::StatusSetSignal6 => Field { register: RegisterWidth::Bits32, offset: 22, width: 1, access: Access::WriteOnly },
            SpField::StatusClearSignal7 => Field { register: RegisterWidth::Bits32, offset: 23, width: 1, access: Access::WriteOnly },
            SpField::StatusSetSignal7 => Field { register: RegisterWidth::Bits32, offset: 24, width: 1, access: Access::WriteOnly },
            SpField::DmaFullDmaFull => Field { register: RegisterWidth::Bits32, offset: 0, width: 1, access: Access::ReadOnly },
            SpField::DmaBusyDmaBusy => Field { register: RegisterWidth::Bits32, offset: 0, width: 1, access: Access::ReadOnly },
            SpField::SemaphoreSemaphoreFlag => Field { register: RegisterWidth::Bits32, offset: 0, width: 1, access: Access::ReadOnly },
            SpField::SemaphoreClearSemaphoreFlag => Field { register: RegisterWidth::Bits32, offset: 0, width: 1, access: Access::WriteOnly },
        }
    }

    /// Byte offset of the field's register from the block's base address.
    pub fn register(&self) -> (r: u32)
        ensures
            r == self.spec_register(),
    {
        match self {
            SpField::MemAddrMemAddress
            | SpField::MemAddrDmemImem => SP_MEM_ADDR_REG,
            SpField::DramAddrRdramAddress => SP_DRAM_ADDR_REG,
            SpField::RdLenLength
            | SpField::RdLenCount
            | SpField::RdLenSkip => SP_RD_LEN_REG,
            SpField::WrLenLength
            | SpField::WrLenCount
            | SpField::WrLenSkip => SP_WR_LEN_REG,
            SpField::StatusHalt
            | SpField::StatusBroke
            | SpField::StatusDmaBusy
            | SpField::StatusDmaFull
            | SpField::StatusIoFull
            | SpField::StatusSingleStep
            | SpField::StatusIntrOnBreak
            | SpField::StatusSignal0Set
            | SpField::StatusSignal1Set
            | SpField::StatusSignal2Set
            | SpField::StatusSignal3Set
            | SpField::StatusSignal4Set
            | SpField::StatusSignal5Set
            | SpField::StatusSignal6Set
            | SpField::StatusSignal7Set
            | SpField::StatusClearHalt
            | SpField::StatusSetHalt
            | SpField::StatusClearBroke
            | SpField::StatusClearIntr
            | SpField::StatusSetIntr
            | SpField::StatusClearSstep
            | SpField::StatusSetSstep
            | SpField::StatusClearIntrOnBreak
            | SpField::StatusSetIntrOnBreak
            | SpField::StatusClearSignal0
            | SpField::StatusSetSignal0
            | SpField::StatusClearSignal1
            | SpField::StatusSetSignal1
            | SpField::StatusClearSignal2
            | SpField::StatusSetSignal2
            | SpField::StatusClearSignal3
            | SpField::StatusSetSignal3
            | SpField::StatusClearSignal4
            | SpField::StatusSetSignal4
            | SpField::StatusClearSignal5
            | SpField::StatusSetSignal5
            | SpField::StatusClearSignal6
            | SpField::StatusSetSignal6
            | SpField::StatusClearSignal7
            | SpField::StatusSetSignal7 => SP_STATUS_REG,
            SpField::DmaFullDmaFull => SP_DMA_FULL_REG,
            SpField::DmaBusyDmaBusy => SP_DMA_BUSY_REG,
            SpField::SemaphoreSemaphoreFlag
            | SpField::SemaphoreClearSemaphoreFlag => SP_SEMAPHORE_REG,
        }
    }
}

impl SpRegisters {
    /// The raw value of the register at byte offset `register`.
    pub open spec fn spec_raw(self, register: u32) -> u32 {
        if register == SP_MEM_ADDR_REG {
            self.sp_mem_addr_reg
        } else if register == SP_DRAM_ADDR_REG {
            self.sp_dram_addr_reg
        } else if register == SP_RD_LEN_REG {
            self.sp_rd_len_reg
        } else if register == SP_WR_LEN_REG {
            self.sp_wr_len_reg
        } else if register == SP_STATUS_REG {
            self.sp_status_reg
        } else if register == SP_DMA_FULL_REG {
            self.sp_dma_full_reg
        } else if register == SP_DMA_BUSY_REG {
            self.sp_dma_busy_reg
        } else if register == SP_SEMAPHORE_REG {
            self.sp_semaphore_reg
        } else {
            0
        }
    }

    /// The block with the register at byte offset `register` set to `raw`.
    pub open spec fn spec_with_raw(self, register: u32, raw: u32) -> SpRegisters {
        if register == SP_MEM_ADDR_REG {
            SpRegisters { sp_mem_addr_reg: raw, ..self }
        } else if register == SP_DRAM_ADDR_REG {
            SpRegisters { sp_dram_addr_reg: raw, ..self }
        } else if register == SP_RD_LEN_REG {
            SpRegisters { sp_rd_len_reg: raw, ..self }
        } else if register == SP_WR_LEN_REG {
            SpRegisters { sp_wr_len_reg: raw, ..self }
        } else if register == SP_STATUS_REG {
            SpRegisters { sp_status_reg: raw, ..self }
        } else if register == SP_DMA_FULL_REG {
            SpRegisters { sp_dma_full_reg: raw, ..self }
        } else if register == SP_DMA_BUSY_REG {
            SpRegisters { sp_dma_busy_reg: raw, ..self }
        } else if register == SP_SEMAPHORE_REG {
            SpRegisters { sp_semaphore_reg: raw, ..self }
        } else {
            self
        }
    }

    fn raw_of(&self, field: SpField) -> (r: u32)
        ensures
            r == self.spec_raw(field.spec_register()),
    {
        match field {
            SpField::MemAddrMemAddress
            | SpField::MemAddrDmemImem => self.sp_mem_addr_reg,
            SpField::DramAddrRdramAddress => self.sp_dram_addr_reg,
            SpField::RdLenLength
            | SpField::RdLenCount
            | SpField::RdLenSkip => self.sp_rd_len_reg,
            SpField::WrLenLength
            | SpField::WrLenCount
            | SpField::WrLenSkip => self.sp_wr_len_reg,
            SpField::StatusHalt
            | SpField::StatusBroke
            | SpField::StatusDmaBusy
            | SpField::StatusDmaFull
            | SpField::StatusIoFull
            | SpField::StatusSingleStep
            | SpField::StatusIntrOnBreak
            | SpField::StatusSignal0Set
            | SpField::StatusSignal1Set
            | SpField::StatusSignal2Set
            | SpField::StatusSignal3Set
            | SpField::StatusSignal4Set
            | SpField::StatusSignal5Set
            | SpField::StatusSignal6Set
            | SpField::StatusSignal7Set
            | SpField::StatusClearHalt
            | SpField::StatusSetHalt
            | SpField::StatusClearBroke
            | SpField::StatusClearIntr
            | SpField::StatusSetIntr
            | SpField::StatusClearSstep
            | SpField::StatusSetSstep
            | SpField::StatusClearIntrOnBreak
            | SpField::StatusSetIntrOnBreak
            | SpField::StatusClearSignal0
            | SpField::StatusSetSignal0
            | SpField::StatusClearSignal1
            | SpField::StatusSetSignal1
            | SpField::StatusClearSignal2
            | SpField::StatusSetSignal2
            | SpField::StatusClearSignal3
            | SpField::StatusSetSignal3
            | SpField::StatusClearSignal4
            | SpField::StatusSetSignal4
            | SpField::StatusClearSignal5
            | SpField::StatusSetSignal5
            | SpField::StatusClearSignal6
            | SpField::StatusSetSignal6
            | SpField::StatusClearSignal7
            | SpField::StatusSetSignal7 => self.sp_status_reg,
            SpField::DmaFullDmaFull => self.sp_dma_full_reg,
            SpField::DmaBusyDmaBusy => self.sp_dma_busy_reg,
            SpField::SemaphoreSemaphoreFlag
            | SpField::SemaphoreClearSemaphoreFlag => self.sp_semaphore_reg,
        }
    }

    fn set_raw_of(&mut self, field: SpField, raw: u32)
        ensures
            *final(self) == old(self).spec_with_raw(field.spec_register(), raw),
    {
        match field {
            SpField::MemAddrMemAddress
            | SpField::MemAddrDmemImem => self.sp_mem_addr_reg = raw,
            SpField::DramAddrRdramAddress => self.sp_dram_addr_reg = raw,
            SpField::RdLenLength
            | SpField::RdLenCount
            | SpField::RdLenSkip => self.sp_rd_len_reg = raw,
            SpField::WrLenLength
            | SpField::WrLenCount
            | SpField::WrLenSkip => self.sp_wr_len_reg = raw,
            SpField::StatusHalt
            | SpField::StatusBroke
            | SpField::StatusDmaBusy
            | SpField::StatusDmaFull
            | SpField::StatusIoFull
            | SpField::StatusSingleStep
            | SpField::StatusIntrOnBreak
            | SpField::StatusSignal0Set
            | SpField::StatusSignal1Set
            | SpField::StatusSignal2Set
            | SpField::StatusSignal3Set
            | SpField::StatusSignal4Set
            | SpField::StatusSignal5Set
            | SpField::StatusSignal6Set
            | SpField::StatusSignal7Set
            | SpField::StatusClearHalt
            | SpField::StatusSetHalt
            | SpField::StatusClearBroke
            | SpField::StatusClearIntr
            | SpField::StatusSetIntr
            | SpField::StatusClearSstep
            | SpField::StatusSetSstep
            | SpField::StatusClearIntrOnBreak
            | SpField::StatusSetIntrOnBreak
            | SpField::StatusClearSignal0
            | SpField::StatusSetSignal0
            | SpField::StatusClearSignal1
            | SpField::StatusSetSignal1
            | SpField::StatusClearSignal2
            | SpField::StatusSetSignal2
            | SpField::StatusClearSignal3
            | SpField::StatusSetSignal3
            | SpField::StatusClearSignal4
            | SpField::StatusSetSignal4
            | SpField::StatusClearSignal5
            | SpField::StatusSetSignal5
            | SpField::StatusClearSignal6
            | SpField::StatusSetSignal6
            | SpField::StatusClearSignal7
            | SpField::StatusSetSignal7 => self.sp_status_reg = raw,
            SpField::DmaFullDmaFull => self.sp_dma_full_reg = raw,
            SpField::DmaBusyDmaBusy => self.sp_dma_busy_reg = raw,
            SpField::SemaphoreSemaphoreFlag
            | SpField::SemaphoreClearSemaphoreFlag => self.sp_semaphore_reg = raw,
        }
    }

    /// The value of `field` in its register.
    pub fn get(&self, field: SpField) -> (r: u32)
        requires
            field.spec_field().access.can_read(),
        ensures
            r == extract_spec(
                self.spec_raw(field.spec_register()),
                field.spec_field().offset,
                field.spec_field().width,
            ),
    {
        field.field().get(self.raw_of(field))
    }

    /// Sets `field` to `value` in its register, leaving every other bit of
    /// the block as it was; a value too wide for the field is refused and
    /// nothing changes.
    pub fn set(&mut self, field: SpField, value: u32) -> (r: Result<(), RangeError>)
        requires
            field.spec_field().access.can_write(),
        ensures
            (value as nat) < pow2(field.spec_field().width as nat) <==> r is Ok,
            r is Ok ==> *final(self) == old(self).spec_with_raw(
                field.spec_register(),
                inject_spec(
                    old(self).spec_raw(field.spec_register()),
                    field.spec_field().offset,
                    field.spec_field().width,
                    value,
                ),
            ),
            r is Err ==> *final(self) == *old(self),
    {
        let raw = field.field().set(self.raw_of(field), value)?;
        self.set_raw_of(field, raw);
        Ok(())
    }
}

} // verus!
