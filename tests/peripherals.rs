use n64_pac::ai::{Ai, AiField, AiRegisters, AI_BASE_REG, AI_DRAM_ADDR_REG};
use n64_pac::codec::RangeError;
use n64_pac::dps::{Dps, DpsField, DpsRegisters, DPS_TBIST_REG};
use n64_pac::field::{Access, Field, RegisterWidth};
use n64_pac::mi::{Mi, MiField, MiRegisters};
use n64_pac::pc::{Pc, PcField, PcRegisters};
use n64_pac::rdram::{Rdram, RdramRegisters};
use n64_pac::dpc::RdpCommandSource;
use n64_pac::vi::{AntialiasMode, PixelSize, Vi, ViField, ViRegisters};

fn ai_zero() -> AiRegisters {
    AiRegisters {
        ai_dram_addr_reg: 0,
        ai_len_reg: 0,
        ai_control_reg: 0,
        ai_status_reg: 0,
        ai_dacrate_reg: 0,
        ai_bitrate_reg: 0,
    }
}

fn dps_zero() -> DpsRegisters {
    DpsRegisters { dps_tbist_reg: 0, dps_test_mode_reg: 0, dps_buftest_addr_reg: 0, dps_buftest_data_reg: 0 }
}

#[test]
fn base_addresses() {
    assert_eq!(Ai::ptr(), 0x0450_0000);
    assert_eq!(Ai::ptr(), AI_BASE_REG);
    assert_eq!(Dps::ptr(), 0x0420_0000);
    assert_eq!(Mi::ptr(), 0x0430_0000);
    assert_eq!(Pc::ptr(), 0x0408_0000);
    assert_eq!(Rdram::ptr(), 0x03F0_0000);
    assert_eq!(Vi::ptr(), 0x0440_0000);
}

#[test]
fn dram_address_of_24_bits() {
    let mut regs = ai_zero();
    assert_eq!(AiField::DramAddrDramAddr.register(), AI_DRAM_ADDR_REG);
    assert_eq!(regs.set(AiField::DramAddrDramAddr, 0x12_3456), Ok(()));
    assert_eq!(regs.ai_dram_addr_reg, 0x0012_3456);
    assert_eq!(
        regs.set(AiField::DramAddrDramAddr, 0x123_4567),
        Err(RangeError { value: 0x123_4567, width: 24 })
    );
    assert_eq!(regs.ai_dram_addr_reg, 0x0012_3456);
}

#[test]
fn bist_done_and_clear_share_a_bit() {
    let done = DpsField::TbistBistDone.field();
    let clear = DpsField::TbistBistClear.field();
    assert_eq!(done, Field { register: RegisterWidth::Bits32, offset: 2, width: 1, access: Access::ReadOnly });
    assert_eq!(clear, Field { register: RegisterWidth::Bits32, offset: 2, width: 1, access: Access::WriteOnly });
    assert_eq!(DpsField::TbistBistDone.register(), DPS_TBIST_REG);

    // The value to write, with "clear" set, is built apart from what was read.
    let read_back = dps_zero();
    let mut to_write = read_back;
    assert_eq!(to_write.set(DpsField::TbistBistClear, 1), Ok(()));
    assert_eq!(to_write.dps_tbist_reg, 0b100);
    assert_eq!(read_back.get(DpsField::TbistBistDone), 0);
    assert!(!done.get_flag(read_back.dps_tbist_reg));

    // A snapshot in which the hardware reports "done".
    let mut finished = dps_zero();
    finished.dps_tbist_reg = 0b100;
    assert_eq!(finished.get(DpsField::TbistBistDone), 1);
}

#[test]
fn several_writes_accumulate_in_one_register() {
    let mut regs = dps_zero();
    assert_eq!(regs.set(DpsField::TbistBistCheck, 1), Ok(()));
    assert_eq!(regs.set(DpsField::TbistBistGo, 1), Ok(()));
    assert_eq!(regs.set(DpsField::TbistBistClear, 1), Ok(()));
    assert_eq!(regs.dps_tbist_reg, 0b111);
    assert_eq!(regs.dps_test_mode_reg, 0);
    assert_eq!(regs.set(DpsField::BuftestAddrSpanBufferAddress, 0x80), Err(RangeError { value: 0x80, width: 7 }));
    assert_eq!(regs.set(DpsField::BuftestDataSpanBufferData, 0xffff_ffff), Ok(()));
    assert_eq!(regs.dps_buftest_data_reg, 0xffff_ffff);
}

#[test]
fn bist_fail_reads_eight_bits() {
    let mut regs = dps_zero();
    regs.dps_tbist_reg = 0x0000_07f8;
    assert_eq!(regs.get(DpsField::TbistBistFail), 0xff);
    assert_eq!(regs.get(DpsField::TbistBistCheck), 0);
}

#[test]
fn mi_version_bytes() {
    let regs = MiRegisters { mi_init_mode_reg: 0, mi_version_reg: 0x0102_0304, mi_intr_reg: 0, mi_intr_mask_reg: 0 };
    assert_eq!(regs.get(MiField::VersionRsp), 0x01);
    assert_eq!(regs.get(MiField::VersionRdp), 0x02);
    assert_eq!(regs.get(MiField::VersionRac), 0x03);
    assert_eq!(regs.get(MiField::VersionIo), 0x04);
}

#[test]
fn pc_program_counter_is_twelve_bits() {
    let mut regs = PcRegisters { sp_pc_reg: 0, sp_ibist_reg: 0 };
    assert_eq!(regs.set(PcField::PcProgramCounter, 0xfff), Ok(()));
    assert_eq!(regs.get(PcField::PcProgramCounter), 0xfff);
    assert_eq!(regs.set(PcField::PcProgramCounter, 0x1000), Err(RangeError { value: 0x1000, width: 12 }));
    assert_eq!(PcField::IbistBistFail.field().width, 4);
}

#[test]
fn vi_two_fields_in_one_register() {
    let mut regs = ViRegisters {
        vi_status_reg: 0,
        vi_origin_reg: 0,
        vi_width_reg: 0,
        vi_intr_reg: 0,
        vi_current_reg: 0,
        vi_timing_reg: 0,
        vi_v_sync_reg: 0,
        vi_h_sync_reg: 0,
        vi_h_sync_leap_reg: 0,
        vi_h_video_reg: 0,
        vi_v_video_reg: 0,
        vi_v_burst_reg: 0,
        vi_x_scale_reg: 0,
        vi_y_scale_reg: 0,
    };
    assert_eq!(regs.set(ViField::HVideoStartActiveVideo, 0x06c), Ok(()));
    assert_eq!(regs.set(ViField::HVideoEndActiveVideo, 0x2ec), Ok(()));
    assert_eq!(regs.vi_h_video_reg, 0x006c_02ec);
    assert_eq!(regs.get(ViField::HVideoStartActiveVideo), 0x06c);
}

#[test]
fn rdram_block_is_raw_words() {
    let regs = RdramRegisters {
        rdram_device_type_reg: 1,
        rdram_device_id_reg: 2,
        rdram_delay_reg: 3,
        rdram_mode_reg: 4,
        rdram_ref_interval_reg: 5,
        rdram_ref_row_reg: 6,
        rdram_ras_interval_reg: 7,
        rdram_min_interval_reg: 8,
        rdram_addr_select_reg: 9,
        rdram_device_manuf_reg: 10,
    };
    let copy = regs;
    assert_eq!(copy, regs);
}

#[test]
fn pixel_size_values() {
    assert_eq!(PixelSize::from_bits(0), Some(PixelSize::Blank));
    assert_eq!(PixelSize::from_bits(1), None);
    assert_eq!(PixelSize::from_bits(2), Some(PixelSize::SixteenBit));
    assert_eq!(PixelSize::from_bits(3), Some(PixelSize::ThirtyTwoBit));
    assert_eq!(PixelSize::from_bits(4), None);
    assert_eq!(PixelSize::ThirtyTwoBit.bits(), 3);
}

#[test]
fn antialias_mode_values() {
    assert_eq!(AntialiasMode::from_bits(0), Some(AntialiasMode::Full));
    assert_eq!(AntialiasMode::from_bits(1), Some(AntialiasMode::Optimized));
    assert_eq!(AntialiasMode::from_bits(2), Some(AntialiasMode::ResampleOnly));
    assert_eq!(AntialiasMode::from_bits(3), Some(AntialiasMode::Disabled));
    assert_eq!(AntialiasMode::from_bits(4), None);
    assert_eq!(AntialiasMode::Disabled.bits(), 3);
}

#[test]
fn status_fields_decode_to_settings() {
    let mut regs = ViRegisters {
        vi_status_reg: 0,
        vi_origin_reg: 0,
        vi_width_reg: 0,
        vi_intr_reg: 0,
        vi_current_reg: 0,
        vi_timing_reg: 0,
        vi_v_sync_reg: 0,
        vi_h_sync_reg: 0,
        vi_h_sync_leap_reg: 0,
        vi_h_video_reg: 0,
        vi_v_video_reg: 0,
        vi_v_burst_reg: 0,
        vi_x_scale_reg: 0,
        vi_y_scale_reg: 0,
    };
    assert_eq!(regs.set(ViField::StatusPixelSize, PixelSize::SixteenBit.bits()), Ok(()));
    assert_eq!(regs.set(ViField::StatusAntialiasMode, AntialiasMode::ResampleOnly.bits()), Ok(()));
    assert_eq!(regs.vi_status_reg, 0x0000_0202);
    assert_eq!(PixelSize::from_bits(regs.get(ViField::StatusPixelSize)), Some(PixelSize::SixteenBit));
    assert_eq!(
        AntialiasMode::from_bits(regs.get(ViField::StatusAntialiasMode)),
        Some(AntialiasMode::ResampleOnly)
    );
}

#[test]
fn command_source_flag() {
    assert_eq!(RdpCommandSource::from_flag(true), RdpCommandSource::RspDmem);
    assert_eq!(RdpCommandSource::from_flag(false), RdpCommandSource::Rdram);
    assert!(RdpCommandSource::RspDmem.flag());
    assert!(!RdpCommandSource::Rdram.flag());
}
