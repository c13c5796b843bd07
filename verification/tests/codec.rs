use physics_eater::error::DecodeError;
use physics_eater::util::{
    bit_indices, clut_of, collection_of, decode_flags, read16, read32, read_angle, read_fx_16_16,
    read_fx_6_10, read_generic_bitfield32, read_optional_16, read_optional_32,
    read_optional_fx_6_10, read_signed_16, Angle, ByteCursor, Fixed16_16, Fixed6_10,
};

#[test]
fn read16_is_big_endian() {
    let bytes = [0x12u8, 0x34, 0xab, 0xcd];
    let mut cursor = ByteCursor::new(&bytes);
    assert_eq!(read16(&mut cursor), Ok(0x1234));
    assert_eq!(cursor.position(), 2);
    assert_eq!(read16(&mut cursor), Ok(0xabcd));
    assert_eq!(cursor.position(), 4);
    assert_eq!(cursor.remaining(), 0);
}

#[test]
fn read16_fails_on_short_input_and_exhausts_the_cursor() {
    let bytes = [0x12u8, 0x34, 0x56];
    let mut cursor = ByteCursor::new(&bytes);
    assert_eq!(read16(&mut cursor), Ok(0x1234));
    assert_eq!(read16(&mut cursor), Err(DecodeError::IoFailure));
    assert_eq!(cursor.position(), 3);
    assert_eq!(cursor.remaining(), 0);
    assert_eq!(read16(&mut cursor), Err(DecodeError::IoFailure));
}

#[test]
fn read32_is_big_endian() {
    let bytes = [0x01u8, 0x02, 0x03, 0x04, 0xff, 0xff, 0xff, 0xff];
    let mut cursor = ByteCursor::new(&bytes);
    assert_eq!(read32(&mut cursor), Ok(0x0102_0304));
    assert_eq!(read32(&mut cursor), Ok(0xffff_ffff));
    assert_eq!(read32(&mut cursor), Err(DecodeError::IoFailure));
}

#[test]
fn read32_fails_on_three_bytes() {
    let bytes = [1u8, 2, 3];
    let mut cursor = ByteCursor::new(&bytes);
    assert_eq!(read32(&mut cursor), Err(DecodeError::IoFailure));
    assert_eq!(cursor.position(), 3);
}

#[test]
fn read_signed_16_is_twos_complement() {
    let bytes = [0xffu8, 0xfe, 0x7f, 0xff, 0x80, 0x00];
    let mut cursor = ByteCursor::new(&bytes);
    assert_eq!(read_signed_16(&mut cursor), Ok(-2));
    assert_eq!(read_signed_16(&mut cursor), Ok(32767));
    assert_eq!(read_signed_16(&mut cursor), Ok(-32768));
}

#[test]
fn optional_16_is_absent_from_0x8000_on() {
    let bytes = [0x80u8, 0x00, 0x7f, 0xff, 0x00, 0x00, 0xff, 0xff, 0x80, 0x01];
    let mut cursor = ByteCursor::new(&bytes);
    assert_eq!(read_optional_16(&mut cursor), Ok(None));
    assert_eq!(read_optional_16(&mut cursor), Ok(Some(0x7fff)));
    assert_eq!(read_optional_16(&mut cursor), Ok(Some(0)));
    assert_eq!(read_optional_16(&mut cursor), Ok(None));
    assert_eq!(read_optional_16(&mut cursor), Ok(None));
    assert_eq!(read_optional_16(&mut cursor), Err(DecodeError::IoFailure));
}

#[test]
fn optional_16_is_present_for_every_value_below_0x8000() {
    let mut value: u16 = 0;
    while value < 0x8000 {
        let bytes = value.to_be_bytes();
        let mut cursor = ByteCursor::new(&bytes);
        assert_eq!(read_optional_16(&mut cursor), Ok(Some(value)));
        value += 1;
    }
}

#[test]
fn optional_32_is_judged_by_bit_15() {
    let words: [(u32, Option<u32>); 6] = [
        (0x0000_8000, None),
        (0x8000_0000, Some(0x8000_0000)),
        (0x0001_0000, Some(0x0001_0000)),
        (0xffff_7fff, Some(0xffff_7fff)),
        (0xffff_ffff, None),
        (0, Some(0)),
    ];
    for (word, expected) in words {
        let bytes = word.to_be_bytes();
        let mut cursor = ByteCursor::new(&bytes);
        assert_eq!(read_optional_32(&mut cursor), Ok(expected));
    }
}

#[test]
fn bit_set_lists_the_set_bits_in_ascending_order() {
    let bytes = [0u8, 0, 0, 0b101];
    let mut cursor = ByteCursor::new(&bytes);
    assert_eq!(read_generic_bitfield32(&mut cursor), Ok(vec![0, 2]));

    let bytes = [0u8, 0, 0, 0];
    let mut cursor = ByteCursor::new(&bytes);
    assert_eq!(read_generic_bitfield32(&mut cursor), Ok(vec![]));

    let bytes = [0xffu8, 0xff, 0xff, 0xff];
    let mut cursor = ByteCursor::new(&bytes);
    let all: Vec<u32> = (0..32).collect();
    assert_eq!(read_generic_bitfield32(&mut cursor), Ok(all));
}

#[test]
fn bit_indices_of_single_bits() {
    assert_eq!(bit_indices(0x8000_0000), vec![31]);
    assert_eq!(bit_indices(0x0001_0001), vec![0, 16]);
    assert_eq!(bit_indices(0), Vec::<u32>::new());
}

#[test]
fn bit_set_fails_on_short_input() {
    let bytes = [0u8, 0, 1];
    let mut cursor = ByteCursor::new(&bytes);
    assert_eq!(read_generic_bitfield32(&mut cursor), Err(DecodeError::IoFailure));
}

#[test]
fn fixed_16_16_of_one() {
    let bytes = [0x00u8, 0x01, 0x00, 0x00];
    let mut cursor = ByteCursor::new(&bytes);
    let value = read_fx_16_16(&mut cursor).unwrap();
    assert_eq!(value, Fixed16_16 { raw: 65536 });
    assert_eq!(value.raw as f32 / 65536.0, 1.0);
}

#[test]
fn fixed_16_16_is_signed() {
    let bytes = [0xffu8, 0xff, 0x80, 0x00];
    let mut cursor = ByteCursor::new(&bytes);
    let value = read_fx_16_16(&mut cursor).unwrap();
    assert_eq!(value.raw, -32768);
    assert_eq!(value.raw as f32 / 65536.0, -0.5);

    let bytes = [0x80u8, 0x00, 0x00, 0x00];
    let mut cursor = ByteCursor::new(&bytes);
    assert_eq!(read_fx_16_16(&mut cursor), Ok(Fixed16_16 { raw: i32::MIN }));
}

#[test]
fn fixed_6_10_of_one() {
    let bytes = [0x04u8, 0x00];
    let mut cursor = ByteCursor::new(&bytes);
    let value = read_fx_6_10(&mut cursor).unwrap();
    assert_eq!(value, Fixed6_10 { raw: 1024 });
    assert_eq!(value.raw as f32 / 1024.0, 1.0);
}

#[test]
fn fixed_6_10_is_signed() {
    let bytes = [0xfcu8, 0x00];
    let mut cursor = ByteCursor::new(&bytes);
    let value = read_fx_6_10(&mut cursor).unwrap();
    assert_eq!(value.raw, -1024);
    assert_eq!(value.raw as f32 / 1024.0, -1.0);
}

#[test]
fn angle_of_half_a_turn() {
    let bytes = [0x01u8, 0x00];
    let mut cursor = ByteCursor::new(&bytes);
    let value = read_angle(&mut cursor).unwrap();
    assert_eq!(value, Angle { raw: 256 });
    assert_eq!(value.raw as f32 * 360.0 / 512.0, 180.0);
}

#[test]
fn optional_fixed_6_10() {
    let bytes = [0x80u8, 0x00, 0x04, 0x00, 0xff, 0xff, 0x00, 0x00];
    let mut cursor = ByteCursor::new(&bytes);
    assert_eq!(read_optional_fx_6_10(&mut cursor), Ok(None));
    assert_eq!(read_optional_fx_6_10(&mut cursor), Ok(Some(Fixed6_10 { raw: 1024 })));
    assert_eq!(read_optional_fx_6_10(&mut cursor), Ok(None));
    assert_eq!(read_optional_fx_6_10(&mut cursor), Ok(Some(Fixed6_10 { raw: 0 })));
    assert_eq!(read_optional_fx_6_10(&mut cursor), Err(DecodeError::IoFailure));
}

#[test]
fn flags_come_out_bit_0_first() {
    assert_eq!(decode_flags(0b1010, 4), vec![false, true, false, true]);
    assert_eq!(decode_flags(0b1, 3), vec![true, false, false]);
    assert_eq!(decode_flags(0xffff_ffff, 0), Vec::<bool>::new());
}

#[test]
fn flags_past_the_word_are_not_set() {
    let flags = decode_flags(0xffff_ffff, 34);
    assert_eq!(flags.len(), 34);
    assert!(flags[..32].iter().all(|flag| *flag));
    assert!(!flags[32]);
    assert!(!flags[33]);
    let flags = decode_flags(0x8000_0000, 32);
    assert!(flags[31]);
    assert!(flags[..31].iter().all(|flag| !*flag));
}

#[test]
fn shape_descriptor_splits_into_collection_and_clut() {
    assert_eq!(collection_of(Some(0x47)), Some(7));
    assert_eq!(clut_of(Some(0x47)), Some(2));
    assert_eq!(collection_of(Some(31)), Some(31));
    assert_eq!(clut_of(Some(31)), Some(0));
    assert_eq!(collection_of(Some(32)), Some(0));
    assert_eq!(clut_of(Some(32)), Some(1));
    assert_eq!(collection_of(None), None);
    assert_eq!(clut_of(None), None);
}

#[test]
fn cursor_seeks_and_reads_bytes() {
    let bytes = [10u8, 11, 12, 13, 14, 15];
    let mut cursor = ByteCursor::new(&bytes);
    assert_eq!(cursor.remaining(), 6);
    cursor.seek(4);
    assert_eq!(cursor.position(), 4);
    assert_eq!(cursor.remaining(), 2);
    assert_eq!(cursor.read_bytes(2), Ok(&bytes[4..6]));
    assert_eq!(cursor.position(), 6);
    cursor.seek(1);
    assert_eq!(cursor.read_tag(), Ok([11, 12, 13, 14]));
    assert_eq!(cursor.read_tag(), Err(DecodeError::IoFailure));
    assert_eq!(cursor.position(), 6);
}

#[test]
fn cursor_past_the_end_reads_nothing_but_nothing() {
    let bytes = [1u8, 2];
    let mut cursor = ByteCursor::new(&bytes);
    cursor.seek(100);
    assert_eq!(cursor.remaining(), 0);
    assert_eq!(cursor.read_bytes(0), Ok(&bytes[0..0]));
    assert_eq!(cursor.position(), 100);
    assert_eq!(cursor.read_bytes(1), Err(DecodeError::IoFailure));
    assert_eq!(cursor.position(), 2);
}
