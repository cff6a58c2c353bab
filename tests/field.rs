use n64_pac::codec::RangeError;
use n64_pac::field::{Access, Field, LayoutError, RegisterWidth};
use n64_pac::value::FieldValue;

fn word(offset: u32, width: u32, access: Access) -> Field {
    Field::new(RegisterWidth::Bits32, offset, width, access).unwrap()
}

#[test]
fn zero_width_field_is_refused() {
    assert_eq!(
        Field::new(RegisterWidth::Bits32, 3, 0, Access::ReadWrite),
        Err(LayoutError::ZeroWidth)
    );
}

#[test]
fn field_past_register_end_is_refused() {
    assert_eq!(
        Field::new(RegisterWidth::Bits8, 4, 5, Access::ReadWrite),
        Err(LayoutError::PastRegisterEnd)
    );
    assert_eq!(
        Field::new(RegisterWidth::Bits16, 0, 17, Access::ReadOnly),
        Err(LayoutError::PastRegisterEnd)
    );
    assert_eq!(
        Field::new(RegisterWidth::Bits32, 31, 2, Access::WriteOnly),
        Err(LayoutError::PastRegisterEnd)
    );
    assert_eq!(
        Field::new(RegisterWidth::Bits32, 0xffff_ffff, 1, Access::WriteOnly),
        Err(LayoutError::PastRegisterEnd)
    );
}

#[test]
fn field_that_fits_is_accepted() {
    let f = Field::new(RegisterWidth::Bits8, 4, 4, Access::ReadWrite).unwrap();
    assert_eq!(f, Field { register: RegisterWidth::Bits8, offset: 4, width: 4, access: Access::ReadWrite });
    assert!(f.is_valid());
    assert!(!Field { register: RegisterWidth::Bits16, offset: 8, width: 9, access: Access::ReadOnly }.is_valid());
    assert_eq!(RegisterWidth::Bits16.bits(), 16);
}

#[test]
fn access_modes() {
    assert!(Access::ReadOnly.readable() && !Access::ReadOnly.writable());
    assert!(!Access::WriteOnly.readable() && Access::WriteOnly.writable());
    assert!(Access::ReadWrite.readable() && Access::ReadWrite.writable());
}

#[test]
fn get_and_set_through_field() {
    let f = word(4, 8, Access::ReadWrite);
    assert_eq!(f.get(0x0000_0ab0), 0xab);
    assert_eq!(f.set(0xffff_ffff, 0x12), Ok(0xffff_f12f));
    assert_eq!(f.set(0xffff_ffff, 0x100), Err(RangeError { value: 0x100, width: 8 }));
    assert_eq!(f.set_truncating(0x0000_0000, 0x1ab), 0x0000_0ab0);
}

#[test]
fn flags_through_field() {
    let f = word(2, 1, Access::ReadWrite);
    assert!(f.get_flag(0b100));
    assert!(!f.get_flag(0b011));
    assert_eq!(f.set_flag(0, true), 0b100);
    assert_eq!(f.set_flag(0xffff_ffff, false), 0xffff_fffb);
}

#[test]
fn eight_bit_register_stays_eight_bits() {
    let f = Field::new(RegisterWidth::Bits8, 6, 2, Access::ReadWrite).unwrap();
    assert_eq!(f.set(0x3f, 3), Ok(0xff));
    assert_eq!(f.set_truncating(0x00, 0xffff_ffff), 0xc0);
}

#[test]
fn field_values_checked_and_truncated() {
    let v = FieldValue::try_new(0x7f, 7).unwrap();
    assert_eq!((v.value(), v.width()), (0x7f, 7));
    assert_eq!(FieldValue::try_new(0x80, 7), Err(RangeError { value: 0x80, width: 7 }));
    let t = FieldValue::truncating(0x1ff, 8);
    assert_eq!((t.value(), t.width()), (0xff, 8));
    let full = FieldValue::try_new(0xffff_ffff, 32).unwrap();
    assert_eq!(full.value(), 0xffff_ffff);
}

#[test]
fn read_and_write_field_values() {
    let f = word(8, 12, Access::ReadWrite);
    let v = f.read(0x00ab_cd00);
    assert_eq!((v.value(), v.width()), (0xbcd, 12));
    let w = FieldValue::try_new(0x123, 12).unwrap();
    assert_eq!(f.write(0xffff_ffff, w), 0xfff1_23ff);
}
