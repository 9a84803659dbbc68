use bytebuf::ByteBuf;

#[test]
fn test_bytebuf() {
    let mut buf = ByteBuf::new_with_capacity(0);
    println!("bytebuf capacity :{}", buf.capacity());

    let s = "hello world".to_string();

    buf.write_u32_be(40u32).unwrap();
    buf.write_u64_be(18u64).unwrap();
    buf.write_string_with_u8_be_len(s.clone()).unwrap();

    buf.write_bytes(s.as_bytes()).unwrap();

    buf.set_u64_be(4, 89.001f64.to_bits()).unwrap();

    println!("buf redadindex :{}", buf.get_reader_index());

    let i = buf.read_u32_be();
    let b = f64::from_bits(buf.read_u64_be());
    let rs = buf.read_string_with_u8_be_len();
    let mut bytes = vec![0u8; s.as_bytes().len()];
    buf.read_bytes(&mut bytes);

    println!("read_u32 :{}", i);
    println!("read_u16 :{}", b);

    println!("read_string_with_u8_len :{}", rs);

    println!("bytes :{}", String::from_utf8_lossy(&bytes));

    println!("available_bytes :{}", buf.available_bytes().len());
    println!("readable_bytes :{}", buf.readable_bytes());
    println!("as_slice :{}", buf.as_slice().len());

    println!("buf redadindex :{}", buf.get_reader_index());
    println!("buf writeIndex :{}", buf.get_writer_index());

    let buf_clone = buf.clone();
    println!("buf_clone redadindex :{}", buf_clone.get_reader_index());

    let buf_copy = buf.deep_clone();
    println!("buf_copy redadindex :{}", buf_copy.get_reader_index());

    assert_eq!(i, 40u32);
    assert_eq!(b, 89.001f64);
    assert_eq!(rs, "hello world");
    assert_eq!(String::from_utf8_lossy(&bytes), "hello world");
}

#[test]
fn default_capacity_when_hint_is_zero() {
    let buf = ByteBuf::new_with_capacity(0);
    assert_eq!(buf.capacity(), 1024);
    assert_eq!(buf.get_reader_index(), 0);
    assert_eq!(buf.get_writer_index(), 0);
    let buf2 = ByteBuf::new_with_capacity(7);
    assert_eq!(buf2.capacity(), 7);
}

#[test]
fn new_from_starts_full() {
    let buf = ByteBuf::new_from(&[1u8, 2, 3]);
    assert_eq!(buf.capacity(), 3);
    assert_eq!(buf.get_reader_index(), 0);
    assert_eq!(buf.get_writer_index(), 3);
    assert_eq!(buf.readable_bytes(), 3);
    assert_eq!(buf.as_slice(), &[1u8, 2, 3]);
    assert_eq!(buf.available_bytes(), &[1u8, 2, 3]);
    let empty = ByteBuf::new_from(&[]);
    assert_eq!(empty.get_writer_index(), 0);
    assert_eq!(empty.capacity(), 0);
}

#[test]
fn cursor_sums_after_writes_and_reads() {
    // write_index is the sum of the bytes written; read_index the sum of the
    // bytes read; readable_bytes is always their difference.
    let mut buf = ByteBuf::new_with_capacity(0);
    buf.write_u8_be(1).unwrap();
    assert_eq!(buf.get_writer_index(), 1);
    buf.write_u16_le(2).unwrap();
    assert_eq!(buf.get_writer_index(), 3);
    buf.write_u32_be(3).unwrap();
    assert_eq!(buf.get_writer_index(), 7);
    buf.write_u64_le(4).unwrap();
    assert_eq!(buf.get_writer_index(), 15);
    buf.write_u128_be(5).unwrap();
    assert_eq!(buf.get_writer_index(), 31);
    buf.write_bool(true).unwrap();
    assert_eq!(buf.get_writer_index(), 32);
    assert_eq!(buf.readable_bytes(), 32);

    buf.read_u8();
    assert_eq!(buf.get_reader_index(), 1);
    buf.read_u16_le();
    assert_eq!(buf.get_reader_index(), 3);
    buf.read_u32_be();
    assert_eq!(buf.get_reader_index(), 7);
    assert_eq!(buf.readable_bytes(), 32 - 7);
    buf.read_u64_le();
    buf.read_u128_be();
    assert!(buf.read_bool());
    assert_eq!(buf.get_reader_index(), 32);
    assert_eq!(buf.readable_bytes(), 0);
    assert!(!buf.is_readable());
}

#[test]
fn mark_reset_restores_and_second_reset_is_noop() {
    let mut buf = ByteBuf::new_with_capacity(0);
    buf.write_u8_be(7).unwrap();
    buf.write_u8_be(8).unwrap();

    buf.mark_reader_index();
    let first = buf.read_u8();
    assert_eq!(first, 7);
    assert_eq!(buf.get_reader_index(), 1);
    buf.reset_reader_index();
    assert_eq!(buf.get_reader_index(), 0);
    // The mark was consumed: another reset moves nothing even after a read.
    let again = buf.read_u8();
    assert_eq!(again, 7);
    buf.reset_reader_index();
    assert_eq!(buf.get_reader_index(), 1);
}

#[test]
fn skip_within_write_index_moves_reader() {
    let mut buf = ByteBuf::new_with_capacity(0);
    buf.write_u32_be(0xDEADBEEF).unwrap();
    let r = buf.skip_index(3);
    assert_eq!(r.unwrap(), 3);
    assert_eq!(buf.get_reader_index(), 3);
    // The check compares against write_index, not remaining bytes, so a
    // second skip of 3 from position 3 is still allowed.
    let r2 = buf.skip_index(3);
    assert_eq!(r2.unwrap(), 6);
    assert_eq!(buf.get_reader_index(), 6);
}

#[test]
fn skip_beyond_write_index_is_bounds_error() {
    let mut buf = ByteBuf::new_with_capacity(0);
    buf.write_u16_be(5).unwrap();
    let before = buf.get_reader_index();
    let r = buf.skip_index(3);
    assert!(r.is_err());
    assert_eq!(buf.get_reader_index(), before);
    let e = r.unwrap_err();
    assert!(e.message.contains("writeIndex"));
}

#[test]
fn set_within_capacity_overwrites_in_place() {
    let mut buf = ByteBuf::new_from(&[0u8; 8]);
    buf.set_u32_be(2, 0x01020304).unwrap();
    assert_eq!(buf.as_slice(), &[0, 0, 1, 2, 3, 4, 0, 0]);
    buf.set_u32_le(2, 0x01020304).unwrap();
    assert_eq!(buf.as_slice(), &[0, 0, 4, 3, 2, 1, 0, 0]);
    // Cursors do not move.
    assert_eq!(buf.get_reader_index(), 0);
    assert_eq!(buf.get_writer_index(), 8);
}

#[test]
fn set_past_capacity_is_capacity_error() {
    let mut buf = ByteBuf::new_from(&[9u8; 8]);
    let r = buf.set_u32_be(5, 0xAABBCCDD);
    assert!(r.is_err());
    assert_eq!(buf.as_slice(), &[9u8; 8]);
    let e = r.unwrap_err();
    assert!(e.message.contains("capacity"));
    // The boundary position still fits.
    assert_eq!(buf.set_u32_be(4, 0xAABBCCDD).unwrap(), 0xAABBCCDD);
    assert_eq!(buf.as_slice(), &[9, 9, 9, 9, 0xAA, 0xBB, 0xCC, 0xDD]);
}

#[test]
fn clone_keeps_reader_and_clears_mark() {
    let mut buf = ByteBuf::new_with_capacity(0);
    buf.write_u32_be(11).unwrap();
    buf.read_u8();
    buf.mark_reader_index();
    let c = buf.clone();
    assert_eq!(c.get_reader_index(), 1);
    assert_eq!(c.get_writer_index(), 4);
    assert_eq!(c.capacity(), buf.capacity());
    assert_eq!(c.as_slice(), buf.as_slice());
    // The clone carries no mark: resetting it moves nothing.
    let mut c2 = c;
    c2.read_u8();
    c2.reset_reader_index();
    assert_eq!(c2.get_reader_index(), 2);
}

#[test]
fn deep_clone_cuts_to_written_region_and_rewinds() {
    let mut buf = ByteBuf::new_from(&[1u8, 2, 3, 4, 5]);
    buf.read_u8();
    buf.read_u8();
    let d = buf.deep_clone();
    assert_eq!(d.get_reader_index(), 0);
    assert_eq!(d.get_writer_index(), 5);
    assert_eq!(d.as_slice(), &[1u8, 2, 3, 4, 5]);
}

#[test]
fn clones_are_isolated_from_the_source() {
    let mut buf = ByteBuf::new_from(&[1u8, 2, 3, 4]);
    let shallow = buf.clone();
    let deep = buf.deep_clone();
    buf.set_u8_be(0, 0xFF).unwrap();
    assert_eq!(buf.as_slice()[0], 0xFF);
    assert_eq!(shallow.as_slice(), &[1u8, 2, 3, 4]);
    assert_eq!(deep.as_slice(), &[1u8, 2, 3, 4]);
}

#[test]
fn get_peeks_without_moving() {
    let mut buf = ByteBuf::new_with_capacity(0);
    buf.write_u32_be(0x01020304).unwrap();
    assert_eq!(buf.get_u32_be(), 0x01020304);
    assert_eq!(buf.get_reader_index(), 0);
    assert_eq!(buf.get_u8(), 1);
    assert_eq!(buf.get_reader_index(), 0);
    assert_eq!(buf.read_u32_be(), 0x01020304);
    assert_eq!(buf.get_reader_index(), 4);
}

#[test]
fn get_bytes_and_read_bytes() {
    let mut buf = ByteBuf::new_from(b"abcdef");
    let mut out = vec![0u8; 3];
    let n = buf.get_bytes(&mut out);
    assert_eq!(n, 3);
    assert_eq!(&out, b"abc");
    assert_eq!(buf.get_reader_index(), 0);
    buf.read_bytes(&mut out);
    assert_eq!(&out, b"abc");
    assert_eq!(buf.get_reader_index(), 3);
    buf.read_bytes(&mut out);
    assert_eq!(&out, b"def");
    assert_eq!(buf.readable_bytes(), 0);
}

#[test]
fn is_writable_is_advisory_only() {
    let mut buf = ByteBuf::new_with_capacity(2);
    assert!(buf.is_writable());
    buf.write_u32_be(1).unwrap();
    // The append went past the advisory capacity and grew the store.
    assert_eq!(buf.get_writer_index(), 4);
    assert!(!buf.is_writable());
}

#[test]
fn write_bytebuf_appends_whole_store() {
    let mut a = ByteBuf::new_from(&[1u8, 2]);
    let b = ByteBuf::new_from(&[3u8, 4, 5]);
    let n = a.write_bytebuf(b).unwrap();
    assert_eq!(n, 3);
    assert_eq!(a.as_slice(), &[1u8, 2, 3, 4, 5]);
    assert_eq!(a.get_writer_index(), 5);
}

#[test]
fn set_reader_index_is_unchecked() {
    let mut buf = ByteBuf::new_from(&[1u8, 2, 3]);
    buf.set_reader_index(2);
    assert_eq!(buf.get_reader_index(), 2);
    assert_eq!(buf.read_u8(), 3);
    buf.set_reader_index(0);
    assert_eq!(buf.read_u8(), 1);
}

#[test]
fn concrete_scenario_u32_u64_then_string() {
    let mut buf = ByteBuf::new_with_capacity(0);
    buf.write_u32_be(40).unwrap();
    buf.write_u64_be(18).unwrap();
    buf.write_string_with_u8_be_len("hello".to_string()).unwrap();

    assert_eq!(buf.read_u32_be(), 40);
    assert_eq!(buf.read_u64_be(), 18);
    assert_eq!(buf.read_string_with_u8_be_len(), "hello");
    assert_eq!(buf.readable_bytes(), 0);
}
