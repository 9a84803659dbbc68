use bytebuf::ByteBuf;

fn fresh() -> ByteBuf {
    ByteBuf::new_with_capacity(0)
}

#[test]
fn round_trip_bool() {
    let mut buf = fresh();
    buf.write_bool(true).unwrap();
    buf.write_bool(false).unwrap();
    assert!(buf.read_bool());
    assert!(!buf.read_bool());
}

#[test]
fn bool_reads_true_only_on_exactly_one() {
    let mut buf = ByteBuf::new_from(&[0x01, 0x02, 0x00, 0xFF]);
    assert!(buf.read_bool());
    assert!(!buf.read_bool());
    assert!(!buf.read_bool());
    assert!(!buf.read_bool());
}

#[test]
fn round_trip_u8_i8() {
    for v in [0u8, 1, 0x7F, 0x80, 0xFF] {
        let mut buf = fresh();
        buf.write_u8_be(v).unwrap();
        buf.write_u8_le(v).unwrap();
        assert_eq!(buf.read_u8(), v);
        assert_eq!(buf.read_u8(), v);
    }
    for v in [i8::MIN, -1, 0, 1, i8::MAX] {
        let mut buf = fresh();
        buf.write_i8_be(v).unwrap();
        buf.write_i8_le(v).unwrap();
        assert_eq!(buf.read_i8(), v);
        assert_eq!(buf.read_i8(), v);
    }
}

#[test]
fn round_trip_u16_i16() {
    for v in [0u16, 1, 0x1234, u16::MAX] {
        let mut buf = fresh();
        buf.write_u16_be(v).unwrap();
        buf.write_u16_le(v).unwrap();
        assert_eq!(buf.read_u16_be(), v);
        assert_eq!(buf.read_u16_le(), v);
    }
    for v in [i16::MIN, -1, 0, 1, 0x1234, i16::MAX] {
        let mut buf = fresh();
        buf.write_i16_be(v).unwrap();
        buf.write_i16_le(v).unwrap();
        assert_eq!(buf.read_i16_be(), v);
        assert_eq!(buf.read_i16_le(), v);
    }
}

#[test]
fn round_trip_u32_i32() {
    for v in [0u32, 1, 0xDEADBEEF, u32::MAX] {
        let mut buf = fresh();
        buf.write_u32_be(v).unwrap();
        buf.write_u32_le(v).unwrap();
        assert_eq!(buf.read_u32_be(), v);
        assert_eq!(buf.read_u32_le(), v);
    }
    for v in [i32::MIN, -1, 0, 1, 0x12345678, i32::MAX] {
        let mut buf = fresh();
        buf.write_i32_be(v).unwrap();
        buf.write_i32_le(v).unwrap();
        assert_eq!(buf.read_i32_be(), v);
        assert_eq!(buf.read_i32_le(), v);
    }
}

#[test]
fn round_trip_u64_i64() {
    for v in [0u64, 1, 0x0123_4567_89AB_CDEF, u64::MAX] {
        let mut buf = fresh();
        buf.write_u64_be(v).unwrap();
        buf.write_u64_le(v).unwrap();
        assert_eq!(buf.read_u64_be(), v);
        assert_eq!(buf.read_u64_le(), v);
    }
    for v in [i64::MIN, -1, 0, 1, i64::MAX] {
        let mut buf = fresh();
        buf.write_i64_be(v).unwrap();
        buf.write_i64_le(v).unwrap();
        assert_eq!(buf.read_i64_be(), v);
        assert_eq!(buf.read_i64_le(), v);
    }
}

#[test]
fn round_trip_u128_i128() {
    for v in [0u128, 1, 0x0123_4567_89AB_CDEF_0123_4567_89AB_CDEF, u128::MAX] {
        let mut buf = fresh();
        buf.write_u128_be(v).unwrap();
        buf.write_u128_le(v).unwrap();
        assert_eq!(buf.read_u128_be(), v);
        assert_eq!(buf.read_u128_le(), v);
    }
    for v in [i128::MIN, -1, 0, 1, i128::MAX] {
        let mut buf = fresh();
        buf.write_i128_be(v).unwrap();
        buf.write_i128_le(v).unwrap();
        assert_eq!(buf.read_i128_be(), v);
        assert_eq!(buf.read_i128_le(), v);
    }
}

#[test]
fn float_bit_patterns_survive_via_bits() {
    // IEEE-754 payloads travel as their bit patterns: the quiet-NaN and
    // infinity patterns come back bit-identical.
    for f in [0.0f32, -0.0, 1.5, f32::INFINITY, f32::NEG_INFINITY, f32::NAN, 89.001] {
        let mut buf = fresh();
        buf.write_u32_be(f.to_bits()).unwrap();
        buf.write_u32_le(f.to_bits()).unwrap();
        assert_eq!(buf.read_u32_be(), f.to_bits());
        assert_eq!(buf.read_u32_le(), f.to_bits());
    }
    for f in [0.0f64, -0.0, 1.5, f64::INFINITY, f64::NEG_INFINITY, f64::NAN, 89.001] {
        let mut buf = fresh();
        buf.write_u64_be(f.to_bits()).unwrap();
        buf.write_u64_le(f.to_bits()).unwrap();
        assert_eq!(buf.read_u64_be(), f.to_bits());
        assert_eq!(buf.read_u64_le(), f.to_bits());
    }
}

#[test]
fn big_endian_puts_most_significant_byte_first() {
    let mut buf = fresh();
    buf.write_u32_be(0x01020304).unwrap();
    assert_eq!(buf.as_slice(), &[1, 2, 3, 4]);
    let mut buf2 = fresh();
    buf2.write_u32_le(0x01020304).unwrap();
    assert_eq!(buf2.as_slice(), &[4, 3, 2, 1]);
    let mut buf3 = fresh();
    buf3.write_i16_be(-2).unwrap();
    assert_eq!(buf3.as_slice(), &[0xFF, 0xFE]);
    let mut buf4 = fresh();
    buf4.write_u128_be(1).unwrap();
    assert_eq!(buf4.as_slice()[15], 1);
    assert_eq!(buf4.as_slice()[0], 0);
}

#[test]
fn set_and_get_every_width() {
    let mut buf = ByteBuf::new_from(&[0u8; 80]);
    assert_eq!(buf.set_u8_le(0, 0xAB).unwrap(), 0xAB);
    assert_eq!(buf.set_i8_be(1, -1).unwrap(), -1);
    assert_eq!(buf.set_u16_be(2, 0x1234).unwrap(), 0x1234);
    assert_eq!(buf.set_u16_le(4, 0x1234).unwrap(), 0x1234);
    assert_eq!(buf.set_i16_be(6, -2).unwrap(), -2);
    assert_eq!(buf.set_i16_le(8, -2).unwrap(), -2);
    assert_eq!(buf.set_i32_be(10, -3).unwrap(), -3);
    assert_eq!(buf.set_i32_le(14, -3).unwrap(), -3);
    assert_eq!(buf.set_u64_be(18, 7).unwrap(), 7);
    assert_eq!(buf.set_u64_le(26, 7).unwrap(), 7);
    assert_eq!(buf.set_i64_be(18, -7).unwrap(), -7);
    assert_eq!(buf.set_i64_le(26, -7).unwrap(), -7);
    assert_eq!(buf.set_u128_be(34, 9).unwrap(), 9);
    assert_eq!(buf.set_i128_le(50, -9).unwrap(), -9);

    buf.set_reader_index(2);
    assert_eq!(buf.get_u16_be(), 0x1234);
    buf.set_reader_index(4);
    assert_eq!(buf.get_u16_le(), 0x1234);
    buf.set_reader_index(6);
    assert_eq!(buf.get_i16_be(), -2);
    buf.set_reader_index(8);
    assert_eq!(buf.get_i16_le(), -2);
    buf.set_reader_index(10);
    assert_eq!(buf.get_i32_be(), -3);
    buf.set_reader_index(14);
    assert_eq!(buf.get_i32_le(), -3);
    buf.set_reader_index(18);
    assert_eq!(buf.get_i64_be(), -7);
    buf.set_reader_index(26);
    assert_eq!(buf.get_i64_le(), -7);
    buf.set_reader_index(34);
    assert_eq!(buf.get_u128_be(), 9);
    buf.set_reader_index(50);
    assert_eq!(buf.get_i128_le(), -9);
    buf.set_reader_index(0);
    assert_eq!(buf.get_u8(), 0xAB);
    buf.set_reader_index(1);
    assert_eq!(buf.get_i8(), -1);
}

#[test]
fn set_grows_physical_store_but_not_write_index() {
    let mut buf = ByteBuf::new_with_capacity(16);
    buf.write_u8_be(1).unwrap();
    buf.set_u32_be(4, 0xCAFEBABE).unwrap();
    assert_eq!(buf.get_writer_index(), 1);
    assert_eq!(buf.as_slice(), &[1, 0, 0, 0, 0xCA, 0xFE, 0xBA, 0xBE]);
}

#[test]
fn every_set_width_enforces_capacity() {
    let mut buf = ByteBuf::new_with_capacity(4);
    assert!(buf.set_u8_be(4, 1).is_err());
    assert!(buf.set_i8_le(4, 1).is_err());
    assert!(buf.set_u16_be(3, 1).is_err());
    assert!(buf.set_i16_le(3, 1).is_err());
    assert!(buf.set_u32_be(1, 1).is_err());
    assert!(buf.set_i32_le(1, 1).is_err());
    assert!(buf.set_u64_be(0, 1).is_err());
    assert!(buf.set_i64_le(0, 1).is_err());
    assert!(buf.set_u128_be(0, 1).is_err());
    assert!(buf.set_i128_le(0, 1).is_err());
    assert_eq!(buf.as_slice().len(), 0);
}
