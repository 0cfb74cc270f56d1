use rustboy_core::bits::{bit_mask, get_byte_or, shl_u32, test_bit, with_bit_cleared, with_bit_set};
use rustboy_core::save_state::{
    read_bool, read_bytes, read_slice, read_u16, read_u32, read_u64, read_u8, write_bool, write_bytes,
    write_slice, write_u16, write_u32, write_u64, write_u8,
};

#[test]
fn bit_helpers() {
    assert_eq!(bit_mask(0), 1);
    assert_eq!(bit_mask(7), 0x80);
    assert!(test_bit(0x10, 4));
    assert!(!test_bit(0x10, 3));
    assert_eq!(with_bit_cleared(0xFF, 2), 0xFB);
    assert_eq!(with_bit_set(0x00, 6), 0x40);
    assert_eq!(with_bit_set(0x40, 6), 0x40);
    assert_eq!(shl_u32(3, 4), 48);
    assert_eq!(shl_u32(1, 31), 0x8000_0000);
}

#[test]
fn byte_or_default() {
    let v = vec![1u8, 2, 3];
    assert_eq!(get_byte_or(&v, 2, 9), 3);
    assert_eq!(get_byte_or(&v, 3, 9), 9);
    assert_eq!(get_byte_or(&v, u64::MAX, 7), 7);
}

#[test]
fn integers_are_little_endian() {
    let mut buf = Vec::new();
    write_u8(&mut buf, 0xAB);
    write_u16(&mut buf, 0x1234);
    write_u32(&mut buf, 0xDEADBEEF);
    write_u64(&mut buf, 0x0102_0304_0506_0708);
    write_bool(&mut buf, true);
    write_bool(&mut buf, false);
    assert_eq!(
        buf,
        vec![0xAB, 0x34, 0x12, 0xEF, 0xBE, 0xAD, 0xDE, 8, 7, 6, 5, 4, 3, 2, 1, 1, 0]
    );
}

#[test]
fn reads_give_back_what_was_written() {
    let mut buf = Vec::new();
    write_u8(&mut buf, 7);
    write_u16(&mut buf, 0xFFFE);
    write_u32(&mut buf, 123_456_789);
    write_u64(&mut buf, u64::MAX - 1);
    write_bool(&mut buf, true);
    write_bytes(&mut buf, &[9, 8, 7]);
    write_slice(&mut buf, &[1, 2]);
    let mut off = 0usize;
    assert_eq!(read_u8(&buf, &mut off), 7);
    assert_eq!(read_u16(&buf, &mut off), 0xFFFE);
    assert_eq!(read_u32(&buf, &mut off), 123_456_789);
    assert_eq!(read_u64(&buf, &mut off), u64::MAX - 1);
    assert!(read_bool(&buf, &mut off));
    assert_eq!(read_bytes(&buf, &mut off), vec![9, 8, 7]);
    assert_eq!(read_slice(&buf, &mut off, 2), &[1, 2]);
    assert_eq!(off, buf.len());
}

#[test]
fn length_prefix_comes_first() {
    let mut buf = Vec::new();
    write_bytes(&mut buf, &[0xAA; 3]);
    assert_eq!(buf, vec![3, 0, 0, 0, 0xAA, 0xAA, 0xAA]);
    let mut off = 0usize;
    write_bytes(&mut buf, &[]);
    read_bytes(&buf, &mut off);
    assert!(read_bytes(&buf, &mut off).is_empty());
}

#[test]
fn any_nonzero_byte_reads_as_true() {
    let data = [0u8, 2];
    let mut off = 0usize;
    assert!(!read_bool(&data, &mut off));
    assert!(read_bool(&data, &mut off));
}
