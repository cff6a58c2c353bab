use n64_pac::codec::{extract, inject, mask, try_pack, RangeError};
use proc_bitfield::{Bits, WithBits};

#[test]
fn mask_has_width_low_bits() {
    assert_eq!(mask(1), 0x1);
    assert_eq!(mask(3), 0x7);
    assert_eq!(mask(24), 0x00ff_ffff);
    assert_eq!(mask(31), 0x7fff_ffff);
    assert_eq!(mask(32), 0xffff_ffff);
}

#[test]
fn extract_shifts_and_masks() {
    assert_eq!(extract(0xdead_beef, 0, 8), 0xef);
    assert_eq!(extract(0xdead_beef, 4, 8), 0xee);
    assert_eq!(extract(0xdead_beef, 16, 16), 0xdead);
    assert_eq!(extract(0x8000_0000, 31, 1), 1);
    assert_eq!(extract(0x0000_0004, 2, 1), 1);
    assert_eq!(extract(0x0000_0004, 3, 1), 0);
}

#[test]
fn inject_clears_then_sets_range() {
    assert_eq!(inject(0xffff_ffff, 8, 8, 0x00), 0xffff_00ff);
    assert_eq!(inject(0x0000_0000, 8, 8, 0xab), 0x0000_ab00);
    assert_eq!(inject(0x1234_5678, 0, 4, 0xf), 0x1234_567f);
}

#[test]
fn inject_truncates_excess_bits() {
    // 0x1ff does not fit in 8 bits: the ninth bit is dropped, not carried.
    assert_eq!(inject(0x0000_0000, 4, 8, 0x1ff), 0x0000_0ff0);
    assert_eq!(inject(0xffff_ffff, 0, 3, 0b1000), 0xffff_fff8);
}

#[test]
fn full_width_is_identity() {
    for raw in [0u32, 1, 0x1234_5678, 0xffff_ffff] {
        assert_eq!(extract(raw, 0, 32), raw);
        assert_eq!(inject(0xa5a5_a5a5, 0, 32, raw), raw);
    }
}

#[test]
fn round_trip_over_widths_and_offsets() {
    let raws = [0u32, 0xffff_ffff, 0x1234_5678, 0x8000_0001];
    for width in 1..=32u32 {
        for offset in 0..=(32 - width) {
            let top = mask(width);
            for value in [0u32, 1, top / 2, top] {
                for raw in raws {
                    let written = inject(raw, offset, width, value);
                    assert_eq!(extract(written, offset, width), value);
                }
            }
        }
    }
}

#[test]
fn disjoint_write_keeps_other_field() {
    let raw = 0xcafe_f00d;
    // field one: bits 0..8, field two: bits 8..20
    let written = inject(raw, 0, 8, 0x42);
    assert_eq!(extract(written, 8, 12), extract(raw, 8, 12));
    // field one: bits 20..32, field two: bits 0..20
    let written = inject(raw, 20, 12, 0xfff);
    assert_eq!(extract(written, 0, 20), extract(raw, 0, 20));
    // adjacent single bits
    let written = inject(raw, 5, 1, 1);
    assert_eq!(extract(written, 4, 1), extract(raw, 4, 1));
    assert_eq!(extract(written, 6, 1), extract(raw, 6, 1));
}

#[test]
fn try_pack_rejects_values_too_wide() {
    assert_eq!(try_pack(0b1000, 3), Err(RangeError { value: 0b1000, width: 3 }));
    assert_eq!(try_pack(0b111, 3), Ok(0b111));
    assert_eq!(try_pack(0, 1), Ok(0));
    assert_eq!(try_pack(2, 1), Err(RangeError { value: 2, width: 1 }));
    assert_eq!(try_pack(0xffff_ffff, 32), Ok(0xffff_ffff));
    assert_eq!(try_pack(0x8000_0000, 31), Err(RangeError { value: 0x8000_0000, width: 31 }));
}

#[test]
fn address_field_of_24_bits() {
    let packed = try_pack(0x12_3456, 24).unwrap();
    assert_eq!(inject(0, 0, 24, packed), 0x0012_3456);
    assert_eq!(try_pack(0x123_4567, 24), Err(RangeError { value: 0x123_4567, width: 24 }));
}

#[test]
fn codec_agrees_with_proc_bitfield() {
    for raw in [0u32, 0xffff_ffff, 0x1234_5678, 0xdead_beef] {
        assert_eq!(extract(raw, 0, 24), Bits::<u32>::bits::<0, 24>(&raw));
        assert_eq!(extract(raw, 3, 8), Bits::<u32>::bits::<3, 11>(&raw));
        assert_eq!(extract(raw, 20, 12), Bits::<u32>::bits::<20, 32>(&raw));
        for value in [0u32, 0x5a, 0xfff, 0xffff_ffff] {
            assert_eq!(inject(raw, 0, 24, value), WithBits::<u32>::with_bits::<0, 24>(raw, value));
            assert_eq!(inject(raw, 3, 8, value), WithBits::<u32>::with_bits::<3, 11>(raw, value));
            assert_eq!(inject(raw, 20, 12, value), WithBits::<u32>::with_bits::<20, 32>(raw, value));
        }
    }
}

#[test]
fn try_pack_agrees_with_ux() {
    for value in [0u32, 1, 0x7f, 0x80, 0xff_ffff, 0x100_0000, 0xffff_ffff] {
        assert_eq!(try_pack(value, 24).is_ok(), ux::u24::try_from(value).is_ok());
        assert_eq!(try_pack(value, 7).is_ok(), ux::u7::try_from(value).is_ok());
        assert_eq!(try_pack(value, 4).is_ok(), ux::u4::try_from(value).is_ok());
    }
}
