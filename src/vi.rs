//! Video interface (VI).

use crate::codec::{extract_spec, inject_spec, RangeError};
use crate::field::{Access, Field, RegisterWidth};
use vstd::arithmetic::power2::pow2;
use vstd::prelude::*;

verus! {

/// Base address of the VI register block.
pub const VI_BASE_ADDR: u32 = 0x0440_0000;

/// Byte offset of the status register.
pub const VI_STATUS_REG: u32 = 0x00;

/// Byte offset of the frame buffer origin register.
pub const VI_ORIGIN_REG: u32 = 0x04;

/// Byte offset of the frame buffer line width register.
pub const VI_WIDTH_REG: u32 = 0x08;

/// Byte offset of the vertical interrupt register.
pub const VI_INTR_REG: u32 = 0x0C;

/// Byte offset of the current vertical line register.
pub const VI_CURRENT_REG: u32 = 0x10;

/// Byte offset of the timing register.
pub const VI_TIMING_REG: u32 = 0x14;

/// Byte offset of the vertical sync register.
pub const VI_V_SYNC_REG: u32 = 0x18;

/// Byte offset of the horizontal sync register.
pub const VI_H_SYNC_REG: u32 = 0x1C;

/// Byte offset of the horizontal sync leap register.
pub const VI_H_SYNC_LEAP_REG: u32 = 0x20;

/// Byte offset of the horizontal video register.
pub const VI_H_VIDEO_REG: u32 = 0x24;

/// Byte offset of the vertical video register.
pub const VI_V_VIDEO_REG: u32 = 0x28;

/// Byte offset of the vertical burst register.
pub const VI_V_BURST_REG: u32 = 0x2C;

/// Byte offset of the x-scale register.
pub const VI_X_SCALE_REG: u32 = 0x30;

/// Byte offset of the y-scale register.
pub const VI_Y_SCALE_REG: u32 = 0x34;

/// Exclusive ownership of the VI register block.
///
/// The one token of this type comes out of the hardware registry; holding it
/// is what entitles code to access the block's registers.
#[derive(Debug)]
pub struct Vi {
    owned: (),
}

impl Vi {
    pub(crate) fn new() -> (r: Vi) {
        Vi { owned: () }
    }

    /// Address of the block's first register.
    pub fn ptr() -> (r: u32)
        ensures
            r == VI_BASE_ADDR,
    {
        VI_BASE_ADDR
    }
}

/// The raw values of the VI registers, one per register in address
/// order.
#[derive(Clone, Copy, Debug, PartialEq, Eq, Structural)]
pub struct ViRegisters {
    /// Status.
    pub vi_status_reg: u32,
    /// Frame buffer origin.
    pub vi_origin_reg: u32,
    /// Frame buffer line width.
    pub vi_width_reg: u32,
    /// Vertical interrupt.
    pub vi_intr_reg: u32,
    /// Current vertical line.
    pub vi_current_reg: u32,
    /// Timing.
    pub vi_timing_reg: u32,
    /// Vertical sync.
    pub vi_v_sync_reg: u32,
    /// Horizontal sync.
    pub vi_h_sync_reg: u32,
    /// Horizontal sync leap.
    pub vi_h_sync_leap_reg: u32,
    /// Horizontal video.
    pub vi_h_video_reg: u32,
    /// Vertical video.
    pub vi_v_video_reg: u32,
    /// Vertical burst.
    pub vi_v_burst_reg: u32,
    /// X-scale.
    pub vi_x_scale_reg: u32,
    /// Y-scale.
    pub vi_y_scale_reg: u32,
}

/// The named fields of the VI registers.
#[derive(Clone, Copy, Debug, PartialEq, Eq, Structural)]
pub enum ViField {
    StatusPixelSize,
    StatusGammaDitherEnable,
    StatusGammaEnable,
    StatusDivotEnable,
    StatusSerrate,
    StatusAntialiasMode,
    OriginFrameBufferOrigin,
    WidthFrameBufferLineWidth,
    IntrIntrHalfLine,
    CurrentCurrentHalfLine,
    TimingHorizontalSyncWidth,
    TimingColorBurstWidth,
    TimingVerticalSyncWidth,
    TimingColorBurstOffset,
    VSyncHalfLinesPerField,
    HSyncLineDuration,
    HSyncLeapPattern,
    HSyncLeapHSyncPeriod0,
    HSyncLeapHSyncPeriod1,
    HVideoEndActiveVideo,
    HVideoStartActiveVideo,
    VVideoEndActiveVideo,
    VVideoStartActiveVideo,
    VBurstEndColorBurst,
    VBurstStartColorBurst,
    XScaleInverseScaleFactor,
    XScaleSubpixelOffset,
    YScaleInverseScaleFactor,
    YScaleSubpixelOffset,
}

impl ViField {
    pub open spec fn spec_field(self) -> Field {
        match self {
            ViField::StatusPixelSize => Field { register: RegisterWidth::Bits32, offset: 0, width: 2, access: Access::ReadWrite },
            ViField::StatusGammaDitherEnable => Field { register: RegisterWidth::Bits32, offset: 2, width: 1, access: Access::ReadWrite },
            ViField::StatusGammaEnable => Field { register: RegisterWidth::Bits32, offset: 3, width: 1, access: Access::ReadWrite },
            ViField::StatusDivotEnable => Field { register: RegisterWidth::Bits32, offset: 4, width: 1, access: Access::ReadWrite },
            ViField::StatusSerrate => Field { register: RegisterWidth::Bits32, offset: 6, width: 1, access: Access::ReadWrite },
            ViField::StatusAntialiasMode => Field { register: RegisterWidth::Bits32, offset: 8, width: 2, access: Access::ReadWrite },
            ViField::OriginFrameBufferOrigin => Field { register: RegisterWidth::Bits32, offset: 0, width: 24, access: Access::ReadWrite },
            ViField::WidthFrameBufferLineWidth => Field { register: RegisterWidth::Bits32, offset: 0, width: 12, access: Access::ReadWrite },
            ViField::IntrIntrHalfLine => Field { register: RegisterWidth::Bits32, offset: 0, width: 10, access: Access::ReadWrite },
            ViField::CurrentCurrentHalfLine => Field { register: RegisterWidth::Bits32, offset: 0, width: 10, access: Access::ReadWrite },
            ViField::TimingHorizontalSyncWidth => Field { register: RegisterWidth::Bits32, offset: 0, width: 8, access: Access::ReadWrite },
            ViField::TimingColorBurstWidth => Field { register: RegisterWidth::Bits32, offset: 8, width: 8, access: Access::ReadWrite },
            ViField::TimingVerticalSyncWidth => Field { register: RegisterWidth::Bits32, offset: 16, width: 4, access: Access::ReadWrite },
            ViField::TimingColorBurstOffset => Field { register: RegisterWidth::Bits32, offset: 20, width: 10, access: Access::ReadWrite },
            ViField::VSyncHalfLinesPerField => Field { register: RegisterWidth::Bits32, offset: 0, width: 10, access: Access::ReadWrite },
            ViField::HSyncLineDuration => Field { register: RegisterWidth::Bits32, offset: 0, width: 12, access: Access::ReadWrite },
            ViField::HSyncLeapPattern => Field { register: RegisterWidth::Bits32, offset: 16, width: 5, access: Access::ReadWrite },
            ViField::HSyncLeapHSyncPeriod0 => Field { register: RegisterWidth::Bits32, offset: 0, width: 12, access: Access::ReadWrite },
            ViField::HSyncLeapHSyncPeriod1 => Field { register: RegisterWidth::Bits32, offset: 16, width: 12, access: Access::ReadWrite },
            ViField::HVideoEndActiveVideo => Field { register: RegisterWidth::Bits32, offset: 0, width: 10, access: Access::ReadWrite },
            ViField::HVideoStartActiveVideo => Field { register: RegisterWidth::Bits32, offset: 16, width: 10, access: Access::ReadWrite },
            ViField::VVideoEndActiveVideo => Field { register: RegisterWidth::Bits32, offset: 0, width: 10, access: Access::ReadWrite },
            ViField::VVideoStartActiveVideo => Field { register: RegisterWidth::Bits32, offset: 16, width: 10, access: Access::ReadWrite },
            ViField::VBurstEndColorBurst => Field { register: RegisterWidth::Bits32, offset: 0, width: 10, access: Access::ReadWrite },
            ViField::VBurstStartColorBurst => Field { register: RegisterWidth::Bits32, offset: 16, width: 10, access: Access::ReadWrite },
            ViField::XScaleInverseScaleFactor => Field { register: RegisterWidth::Bits32, offset: 0, width: 12, access: Access::ReadWrite },
            ViField::XScaleSubpixelOffset => Field { register: RegisterWidth::Bits32, offset: 16, width: 12, access: Access::ReadWrite },
            ViField::YScaleInverseScaleFactor => Field { register: RegisterWidth::Bits32, offset: 0, width: 12, access: Access::ReadWrite },
            ViField::YScaleSubpixelOffset => Field { register: RegisterWidth::Bits32, offset: 16, width: 12, access: Access::ReadWrite },
        }
    }

    pub open spec fn spec_register(self) -> u32 {
        match self {
            ViField::StatusPixelSize
            | ViField::StatusGammaDitherEnable
            | ViField::StatusGammaEnable
            | ViField::StatusDivotEnable
            | ViField::StatusSerrate
            | ViField::StatusAntialiasMode => VI_STATUS_REG,
            ViField::OriginFrameBufferOrigin => VI_ORIGIN_REG,
            ViField::WidthFrameBufferLineWidth => VI_WIDTH_REG,
            ViField::IntrIntrHalfLine => VI_INTR_REG,
            ViField::CurrentCurrentHalfLine => VI_CURRENT_REG,
            ViField::TimingHorizontalSyncWidth
            | ViField::TimingColorBurstWidth
            | ViField::TimingVerticalSyncWidth
            | ViField::TimingColorBurstOffset => VI_TIMING_REG,
            ViField::VSyncHalfLinesPerField => VI_V_SYNC_REG,
            ViField::HSyncLineDuration
            | ViField::HSyncLeapPattern => VI_H_SYNC_REG,
            ViField::HSyncLeapHSyncPeriod0
            | ViField::HSyncLeapHSyncPeriod1 => VI_H_SYNC_LEAP_REG,
            ViField::HVideoEndActiveVideo
            | ViField::HVideoStartActiveVideo => VI_H_VIDEO_REG,
            ViField::VVideoEndActiveVideo
            | ViField::VVideoStartActiveVideo => VI_V_VIDEO_REG,
            ViField::VBurstEndColorBurst
            | ViField::VBurstStartColorBurst => VI_V_BURST_REG,
            ViField::XScaleInverseScaleFactor
            | ViField::XScaleSubpixelOffset => VI_X_SCALE_REG,
            ViField::YScaleInverseScaleFactor
            | ViField::YScaleSubpixelOffset => VI_Y_SCALE_REG,
        }
    }

    /// Where the field lies in its register, and how it may be used.
    pub fn field(&self) -> (r: Field)
        ensures
            r == self.spec_field(),
            r.wf(),
    {
        match self {
            ViField::StatusPixelSize => Field { register: RegisterWidth::Bits32, offset: 0, width: 2, access: Access::ReadWrite },
            ViField::StatusGammaDitherEnable => Field { register: RegisterWidth::Bits32, offset: 2, width: 1, access: Access::ReadWrite },
            ViField::StatusGammaEnable => Field { register: RegisterWidth::Bits32, offset: 3, width: 1, access: Access::ReadWrite },
            ViField::StatusDivotEnable => Field { register: RegisterWidth::Bits32, offset: 4, width: 1, access: Access::ReadWrite },
            ViField::StatusSerrate => Field { register: RegisterWidth::Bits32, offset: 6, width: 1, access: Access::ReadWrite },
            ViField::StatusAntialiasMode => Field { register: RegisterWidth::Bits32, offset: 8, width: 2, access: Access::ReadWrite },
            ViField::OriginFrameBufferOrigin => Field { register: RegisterWidth::Bits32, offset: 0, width: 24, access: Access::ReadWrite },
            ViField::WidthFrameBufferLineWidth => Field { register: RegisterWidth::Bits32, offset: 0, width: 12, access: Access::ReadWrite },
            ViField::IntrIntrHalfLine => Field { register: RegisterWidth::Bits32, offset: 0, width: 10, access: Access::ReadWrite },
            ViField::CurrentCurrentHalfLine => Field { register: RegisterWidth::Bits32, offset: 0, width: 10, access: Access::ReadWrite },
            ViField::TimingHorizontalSyncWidth => Field { register: RegisterWidth::Bits32, offset: 0, width: 8, access: Access::ReadWrite },
            ViField::TimingColorBurstWidth => Field { register: RegisterWidth::Bits32, offset: 8, width: 8, access: Access::ReadWrite },
            ViField::TimingVerticalSyncWidth => Field { register: RegisterWidth::Bits32, offset: 16, width: 4, access: Access::ReadWrite },
            ViField::TimingColorBurstOffset => Field { register: RegisterWidth::Bits32, offset: 20, width: 10, access: Access::ReadWrite },
            ViField::VSyncHalfLinesPerField => Field { register: RegisterWidth::Bits32, offset: 0, width: 10, access: Access::ReadWrite },
            ViField::HSyncLineDuration => Field { register: RegisterWidth::Bits32, offset: 0, width: 12, access: Access::ReadWrite },
            ViField::HSyncLeapPattern => Field { register: RegisterWidth::Bits32, offset: 16, width: 5, access: Access::ReadWrite },
            ViField::HSyncLeapHSyncPeriod0 => Field { register: RegisterWidth::Bits32, offset: 0, width: 12, access: Access::ReadWrite },
            ViField::HSyncLeapHSyncPeriod1 => Field { register: RegisterWidth::Bits32, offset: 16, width: 12, access: Access::ReadWrite },
            ViField::HVideoEndActiveVideo => Field { register: RegisterWidth::Bits32, offset: 0, width: 10, access: Access::ReadWrite },
            ViField::HVideoStartActiveVideo => Field { register: RegisterWidth::Bits32, offset: 16, width: 10, access: Access::ReadWrite },
            ViField::VVideoEndActiveVideo => Field { register: RegisterWidth::Bits32, offset: 0, width: 10, access: Access::ReadWrite },
            ViField::VVideoStartActiveVideo => Field { register: RegisterWidth::Bits32, offset: 16, width: 10, access: Access::ReadWrite },
            ViField::VBurstEndColorBurst => Field { register: RegisterWidth::Bits32, offset: 0, width: 10, access: Access::ReadWrite },
            ViField::VBurstStartColorBurst => Field { register: RegisterWidth::Bits32, offset: 16, width: 10, access: Access::ReadWrite },
            ViField::XScaleInverseScaleFactor => Field { register: RegisterWidth::Bits32, offset: 0, width: 12, access: Access::ReadWrite },
            ViField::XScaleSubpixelOffset => Field { register: RegisterWidth::Bits32, offset: 16, width: 12, access: Access::ReadWrite },
            ViField::YScaleInverseScaleFactor => Field { register: RegisterWidth::Bits32, offset: 0, width: 12, access: Access::ReadWrite },
            ViField::YScaleSubpixelOffset => Field { register: RegisterWidth::Bits32, offset: 16, width: 12, access: Access::ReadWrite },
        }
    }

    /// Byte offset of the field's register from the block's base address.
    pub fn register(&self) -> (r: u32)
        ensures
            r == self.spec_register(),
    {
        match self {
            ViField::StatusPixelSize
            | ViField::StatusGammaDitherEnable
            | ViField::StatusGammaEnable
            | ViField::StatusDivotEnable
            | ViField::StatusSerrate
            | ViField::StatusAntialiasMode => VI_STATUS_REG,
            ViField::OriginFrameBufferOrigin => VI_ORIGIN_REG,
            ViField::WidthFrameBufferLineWidth => VI_WIDTH_REG,
            ViField::IntrIntrHalfLine => VI_INTR_REG,
            ViField::CurrentCurrentHalfLine => VI_CURRENT_REG,
            ViField::TimingHorizontalSyncWidth
            | ViField::TimingColorBurstWidth
            | ViField::TimingVerticalSyncWidth
            | ViField::TimingColorBurstOffset => VI_TIMING_REG,
            ViField::VSyncHalfLinesPerField => VI_V_SYNC_REG,
            ViField::HSyncLineDuration
            | ViField::HSyncLeapPattern => VI_H_SYNC_REG,
            ViField::HSyncLeapHSyncPeriod0
            | ViField::HSyncLeapHSyncPeriod1 => VI_H_SYNC_LEAP_REG,
            ViField::HVideoEndActiveVideo
            | ViField::HVideoStartActiveVideo => VI_H_VIDEO_REG,
            ViField::VVideoEndActiveVideo
            | ViField::VVideoStartActiveVideo => VI_V_VIDEO_REG,
            ViField::VBurstEndColorBurst
            | ViField::VBurstStartColorBurst => VI_V_BURST_REG,
            ViField::XScaleInverseScaleFactor
            | ViField::XScaleSubpixelOffset => VI_X_SCALE_REG,
            ViField::YScaleInverseScaleFactor
            | ViField::YScaleSubpixelOffset => VI_Y_SCALE_REG,
        }
    }
}

impl ViRegisters {
    /// The raw value of the register at byte offset `register`.
    pub open spec fn spec_raw(self, register: u32) -> u32 {
        if register == VI_STATUS_REG {
            self.vi_status_reg
        } else if register == VI_ORIGIN_REG {
            self.vi_origin_reg
        } else if register == VI_WIDTH_REG {
            self.vi_width_reg
        } else if register == VI_INTR_REG {
            self.vi_intr_reg
        } else if register == VI_CURRENT_REG {
            self.vi_current_reg
        } else if register == VI_TIMING_REG {
            self.vi_timing_reg
        } else if register == VI_V_SYNC_REG {
            self.vi_v_sync_reg
        } else if register == VI_H_SYNC_REG {
            self.vi_h_sync_reg
        } else if register == VI_H_SYNC_LEAP_REG {
            self.vi_h_sync_leap_reg
        } else if register == VI_H_VIDEO_REG {
            self.vi_h_video_reg
        } else if register == VI_V_VIDEO_REG {
            self.vi_v_video_reg
        } else if register == VI_V_BURST_REG {
            self.vi_v_burst_reg
        } else if register == VI_X_SCALE_REG {
            self.vi_x_scale_reg
        } else if register == VI_Y_SCALE_REG {
            self.vi_y_scale_reg
        } else {
            0
        }
    }

    /// The block with the register at byte offset `register` set to `raw`.
    pub open spec fn spec_with_raw(self, register: u32, raw: u32) -> ViRegisters {
        if register == VI_STATUS_REG {
            ViRegisters { vi_status_reg: raw, ..self }
        } else if register == VI_ORIGIN_REG {
            ViRegisters { vi_origin_reg: raw, ..self }
        } else if register == VI_WIDTH_REG {
            ViRegisters { vi_width_reg: raw, ..self }
        } else if register == VI_INTR_REG {
            ViRegisters { vi_intr_reg: raw, ..self }
        } else if register == VI_CURRENT_REG {
            ViRegisters { vi_current_reg: raw, ..self }
        } else if register == VI_TIMING_REG {
            ViRegisters { vi_timing_reg: raw, ..self }
        } else if register == VI_V_SYNC_REG {
            ViRegisters { vi_v_sync_reg: raw, ..self }
        } else if register == VI_H_SYNC_REG {
            ViRegisters { vi_h_sync_reg: raw, ..self }
        } else if register == VI_H_SYNC_LEAP_REG {
            ViRegisters { vi_h_sync_leap_reg: raw, ..self }
        } else if register == VI_H_VIDEO_REG {
            ViRegisters { vi_h_video_reg: raw, ..self }
        } else if register == VI_V_VIDEO_REG {
            ViRegisters { vi_v_video_reg: raw, ..self }
        } else if register == VI_V_BURST_REG {
            ViRegisters { vi_v_burst_reg: raw, ..self }
        } else if register == VI_X_SCALE_REG {
            ViRegisters { vi_x_scale_reg: raw, ..self }
        } else if register == VI_Y_SCALE_REG {
            ViRegisters { vi_y_scale_reg: raw, ..self }
        } else {
            self
        }
    }

    fn raw_of(&self, field: ViField) -> (r: u32)
        ensures
            r == self.spec_raw(field.spec_register()),
    {
        match field {
            ViField::StatusPixelSize
            | ViField::StatusGammaDitherEnable
            | ViField::StatusGammaEnable
            | ViField::StatusDivotEnable
            | ViField::StatusSerrate
            | ViField::StatusAntialiasMode => self.vi_status_reg,
            ViField::OriginFrameBufferOrigin => self.vi_origin_reg,
            ViField::WidthFrameBufferLineWidth => self.vi_width_reg,
            ViField::IntrIntrHalfLine => self.vi_intr_reg,
            ViField::CurrentCurrentHalfLine => self.vi_current_reg,
            ViField::TimingHorizontalSyncWidth
            | ViField::TimingColorBurstWidth
            | ViField::TimingVerticalSyncWidth
            | ViField::TimingColorBurstOffset => self.vi_timing_reg,
            ViField::VSyncHalfLinesPerField => self.vi_v_sync_reg,
            ViField::HSyncLineDuration
            | ViField::HSyncLeapPattern => self.vi_h_sync_reg,
            ViField::HSyncLeapHSyncPeriod0
            | ViField::HSyncLeapHSyncPeriod1 => self.vi_h_sync_leap_reg,
            ViField::HVideoEndActiveVideo
            | ViField::HVideoStartActiveVideo => self.vi_h_video_reg,
            ViField::VVideoEndActiveVideo
            | ViField::VVideoStartActiveVideo => self.vi_v_video_reg,
            ViField::VBurstEndColorBurst
            | ViField::VBurstStartColorBurst => self.vi_v_burst_reg,
            ViField::XScaleInverseScaleFactor
            | ViField::XScaleSubpixelOffset => self.vi_x_scale_reg,
            ViField::YScaleInverseScaleFactor
            | ViField::YScaleSubpixelOffset => self.vi_y_scale_reg,
        }
    }

    fn set_raw_of(&mut self, field: ViField, raw: u32)
        ensures
            *final(self) == old(self).spec_with_raw(field.spec_register(), raw),
    {
        match field {
            ViField::StatusPixelSize
            | ViField::StatusGammaDitherEnable
            | ViField::StatusGammaEnable
            | ViField::StatusDivotEnable
            | ViField::StatusSerrate
            | ViField::StatusAntialiasMode => self.vi_status_reg = raw,
            ViField::OriginFrameBufferOrigin => self.vi_origin_reg = raw,
            ViField::WidthFrameBufferLineWidth => self.vi_width_reg = raw,
            ViField::IntrIntrHalfLine => self.vi_intr_reg = raw,
            ViField::CurrentCurrentHalfLine => self.vi_current_reg = raw,
            ViField::TimingHorizontalSyncWidth
            | ViField::TimingColorBurstWidth
            | ViField::TimingVerticalSyncWidth
            | ViField::TimingColorBurstOffset => self.vi_timing_reg = raw,
            ViField::VSyncHalfLinesPerField => self.vi_v_sync_reg = raw,
            ViField::HSyncLineDuration
            | ViField::HSyncLeapPattern => self.vi_h_sync_reg = raw,
            ViField::HSyncLeapHSyncPeriod0
            | ViField::HSyncLeapHSyncPeriod1 => self.vi_h_sync_leap_reg = raw,
            ViField::HVideoEndActiveVideo
            | ViField::HVideoStartActiveVideo => self.vi_h_video_reg = raw,
            ViField::VVideoEndActiveVideo
            | ViField::VVideoStartActiveVideo => self.vi_v_video_reg = raw,
            ViField::VBurstEndColorBurst
            | ViField::VBurstStartColorBurst => self.vi_v_burst_reg = raw,
            ViField::XScaleInverseScaleFactor
            | ViField::XScaleSubpixelOffset => self.vi_x_scale_reg = raw,
            ViField::YScaleInverseScaleFactor
            | ViField::YScaleSubpixelOffset => self.vi_y_scale_reg = raw,
        }
    }

    /// The value of `field` in its register.
    pub fn get(&self, field: ViField) -> (r: u32)
        requires
            field.spec_field().access.can_read(),
        ensures
            r == extract_spec(
                self.spec_raw(field.spec_register()),
                field.spec_field().offset,
                field.spec_field().width,
            ),
    {
        field.field().get(self.raw_of(field))
    }

    /// Sets `field` to `value` in its register, leaving every other bit of
    /// the block as it was; a value too wide for the field is refused and
    /// nothing changes.
    pub fn set(&mut self, field: ViField, value: u32) -> (r: Result<(), RangeError>)
        requires
            field.spec_field().access.can_write(),
        ensures
            (value as nat) < pow2(field.spec_field().width as nat) <==> r is Ok,
            r is Ok ==> *final(self) == old(self).spec_with_raw(
                field.spec_register(),
                inject_spec(
                    old(self).spec_raw(field.spec_register()),
                    field.spec_field().offset,
                    field.spec_field().width,
                    value,
                ),
            ),
            r is Err ==> *final(self) == *old(self),
    {
        let raw = field.field().set(self.raw_of(field), value)?;
        self.set_raw_of(field, raw);
        Ok(())
    }
}

/// What the pixel-size field of the status register selects.
#[derive(Clone, Copy, Debug, PartialEq, Eq, Structural)]
pub enum PixelSize {
    /// No picture is output.
    Blank,
    /// 5/5/5/1 pixels.
    SixteenBit,
    /// 8/8/8/8 pixels.
    ThirtyTwoBit,
}

impl PixelSize {
    pub open spec fn spec_bits(self) -> u32 {
        match self {
            PixelSize::Blank => 0,
            PixelSize::SixteenBit => 2,
            PixelSize::ThirtyTwoBit => 3,
        }
    }

    /// The setting that the field's value `bits` stands for; the value 1
    /// stands for none.
    pub fn from_bits(bits: u32) -> (r: Option<PixelSize>)
        ensures
            r is Some <==> (bits == 0 || bits == 2 || bits == 3),
            r is Some ==> r->Some_0.spec_bits() == bits,
    {
        match bits {
            0 => Some(PixelSize::Blank),
            2 => Some(PixelSize::SixteenBit),
            3 => Some(PixelSize::ThirtyTwoBit),
            _ => None,
        }
    }

    /// The field value that selects this setting.
    pub fn bits(&self) -> (r: u32)
        ensures
            r == self.spec_bits(),
    {
        match self {
            PixelSize::Blank => 0,
            PixelSize::SixteenBit => 2,
            PixelSize::ThirtyTwoBit => 3,
        }
    }
}

/// What the antialias-mode field of the status register selects.
#[derive(Clone, Copy, Debug, PartialEq, Eq, Structural)]
pub enum AntialiasMode {
    /// Antialiasing and resampling, always fetching extra lines.
    Full,
    /// Antialiasing and resampling, fetching extra lines only when needed.
    Optimized,
    /// Resampling only.
    ResampleOnly,
    /// Neither antialiasing nor resampling.
    Disabled,
}

impl AntialiasMode {
    pub open spec fn spec_bits(self) -> u32 {
        match self {
            AntialiasMode::Full => 0,
            AntialiasMode::Optimized => 1,
            AntialiasMode::ResampleOnly => 2,
            AntialiasMode::Disabled => 3,
        }
    }

    /// The setting that the field's value `bits` stands for; every value of
    /// two bits stands for one.
    pub fn from_bits(bits: u32) -> (r: Option<AntialiasMode>)
        ensures
            r is Some <==> bits < 4,
            r is Some ==> r->Some_0.spec_bits() == bits,
    {
        match bits {
            0 => Some(AntialiasMode::Full),
            1 => Some(AntialiasMode::Optimized),
            2 => Some(AntialiasMode::ResampleOnly),
            3 => Some(AntialiasMode::Disabled),
            _ => None,
        }
    }

    /// The field value that selects this setting.
    pub fn bits(&self) -> (r: u32)
        ensures
            r == self.spec_bits(),
    {
        match self {
            AntialiasMode::Full => 0,
            AntialiasMode::Optimized => 1,
            AntialiasMode::ResampleOnly => 2,
            AntialiasMode::Disabled => 3,
        }
    }
}

} // verus!
