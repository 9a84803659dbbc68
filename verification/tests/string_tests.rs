use bytebuf::ByteBuf;

fn fresh() -> ByteBuf {
    ByteBuf::new_with_capacity(0)
}

#[test]
fn u8_framed_string_round_trips_up_to_255() {
    for len in [0usize, 1, 255] {
        let s = "a".repeat(len);
        let mut buf = fresh();
        let n = buf.write_string_with_u8_be_len(s.clone()).unwrap();
        assert_eq!(n, len);
        assert_eq!(buf.get_writer_index(), 1 + len);
        assert_eq!(buf.read_string_with_u8_be_len(), s);
        assert_eq!(buf.readable_bytes(), 0);
    }
}

#[test]
fn u8_framed_string_rejects_256() {
    let s = "a".repeat(256);
    let mut buf = fresh();
    let r = buf.write_string_with_u8_be_len(s);
    assert!(r.is_err());
    assert_eq!(buf.get_writer_index(), 0);
    assert_eq!(buf.as_slice().len(), 0);
    assert!(r.unwrap_err().message.contains("u8 max_value"));
}

#[test]
fn u16_framed_string_round_trips_across_the_u8_boundary() {
    for len in [0usize, 1, 255, 256, 65535] {
        let s = "b".repeat(len);
        let mut buf = fresh();
        let n = buf.write_string_with_u16_be_len(s.clone()).unwrap();
        assert_eq!(n, len);
        assert_eq!(buf.get_writer_index(), 2 + len);
        assert_eq!(buf.read_string_with_u16_be_len(), s);
        assert_eq!(buf.readable_bytes(), 0);

        let mut buf2 = fresh();
        buf2.write_string_with_u16_le_len(s.clone()).unwrap();
        assert_eq!(buf2.read_string_with_u16_le_len(), s);
    }
}

#[test]
fn u16_framed_string_rejects_65536() {
    let s = "c".repeat(65536);
    let mut buf = fresh();
    let r = buf.write_string_with_u16_be_len(s.clone());
    assert!(r.is_err());
    assert_eq!(buf.get_writer_index(), 0);
    let r2 = buf.write_string_with_u16_le_len(s);
    assert!(r2.is_err());
    assert!(r2.unwrap_err().message.contains("u16 max_value"));
}

#[test]
fn u32_framed_string_accepts_65536() {
    let s = "d".repeat(65536);
    let mut buf = fresh();
    let n = buf.write_string_with_u32_be_len(s.clone()).unwrap();
    assert_eq!(n, 65536);
    assert_eq!(buf.read_string_with_u32_be_len(), s);

    let mut buf2 = fresh();
    buf2.write_string_with_u32_le_len(s.clone()).unwrap();
    assert_eq!(buf2.read_string_with_u32_le_len(), s);
}

#[test]
fn multibyte_utf8_length_counts_bytes_not_chars() {
    let s = "héllo\u{1F600}".to_string();
    let byte_len = s.as_bytes().len();
    let mut buf = fresh();
    let n = buf.write_string_with_u8_be_len(s.clone()).unwrap();
    assert_eq!(n, byte_len);
    assert_eq!(buf.read_string_with_u8_be_len(), s);
}

#[test]
fn read_string_of_zero_length_touches_nothing() {
    let mut buf = ByteBuf::new_from(b"xyz");
    let s = buf.read_string(0);
    assert_eq!(s, "");
    assert_eq!(buf.get_reader_index(), 0);
    assert_eq!(buf.read_string(3), "xyz");
    assert_eq!(buf.get_reader_index(), 3);
}

#[test]
fn read_string_replaces_invalid_utf8() {
    let mut buf = ByteBuf::new_from(&[0xFF, 0xFE, b'o', b'k']);
    let s = buf.read_string(4);
    assert_eq!(s, "\u{FFFD}\u{FFFD}ok");
    assert_eq!(buf.get_reader_index(), 4);
}

#[test]
fn framed_prefix_is_written_in_the_chosen_order() {
    let mut buf = fresh();
    buf.write_string_with_u16_be_len("hi".to_string()).unwrap();
    assert_eq!(buf.as_slice(), &[0, 2, b'h', b'i']);
    let mut buf2 = fresh();
    buf2.write_string_with_u16_le_len("hi".to_string()).unwrap();
    assert_eq!(buf2.as_slice(), &[2, 0, b'h', b'i']);
    let mut buf3 = fresh();
    buf3.write_string_with_u32_be_len("hi".to_string()).unwrap();
    assert_eq!(buf3.as_slice(), &[0, 0, 0, 2, b'h', b'i']);
}

#[test]
fn write_str_and_write_bytes_append_raw() {
    let mut buf = fresh();
    let n = buf.write_str("hello").unwrap();
    assert_eq!(n, 5);
    let m = buf.write_bytes(&[1, 2, 3]).unwrap();
    assert_eq!(m, 3);
    assert_eq!(buf.as_slice(), &[b'h', b'e', b'l', b'l', b'o', 1, 2, 3]);
    assert_eq!(buf.read_string(5), "hello");
}

#[test]
fn mixed_prefix_widths_in_one_buffer() {
    let mut buf = fresh();
    buf.write_string_with_u8_be_len("one".to_string()).unwrap();
    buf.write_string_with_u16_le_len("two".to_string()).unwrap();
    buf.write_string_with_u32_be_len("three".to_string()).unwrap();
    assert_eq!(buf.read_string_with_u8_be_len(), "one");
    assert_eq!(buf.read_string_with_u16_le_len(), "two");
    assert_eq!(buf.read_string_with_u32_be_len(), "three");
    assert_eq!(buf.readable_bytes(), 0);
}
