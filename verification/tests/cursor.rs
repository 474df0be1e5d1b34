use azilis_parser::cursor::Cursor;
use azilis_parser::decode::{
    read_list_u16, read_list_u32, read_list_u8, read_many, read_or_stay, read_typed_list, Record,
};

#[test]
fn reads_little_endian_words() {
    let data = [0x01u8, 0x02, 0x03, 0x04, 0x05, 0x06, 0x07, 0x08, 0x09, 0x0A, 0x0B, 0x0C, 0x0D, 0x0E, 0x0F];
    let mut cur = Cursor::new(&data);
    assert_eq!(cur.read_u8(), Some(0x01));
    assert_eq!(cur.read_u16_le(), Some(0x0302));
    assert_eq!(cur.read_u32_le(), Some(0x0706_0504));
    assert_eq!(cur.read_u64_le(), Some(0x0F0E_0D0C_0B0A_0908));
    assert_eq!(cur.position(), 15);
    assert_eq!(cur.read_u8(), None);
}

#[test]
fn reads_big_endian_word() {
    let data = *b"BKHD";
    let mut cur = Cursor::new(&data);
    assert_eq!(cur.read_u32_be(), Some(0x424B_4844));
    assert_eq!(cur.position(), 4);
}

#[test]
fn largest_words_do_not_overflow() {
    let data = [0xFFu8; 8];
    assert_eq!(Cursor::new(&data).read_u16_le(), Some(u16::MAX));
    assert_eq!(Cursor::new(&data).read_u32_le(), Some(u32::MAX));
    assert_eq!(Cursor::new(&data).read_u32_be(), Some(u32::MAX));
    assert_eq!(Cursor::new(&data).read_u64_le(), Some(u64::MAX));
}

#[test]
fn failed_read_leaves_position() {
    let data = [1u8, 2, 3];
    let mut cur = Cursor::new(&data);
    assert_eq!(cur.read_u32_le(), None);
    assert_eq!(cur.position(), 0);
    assert_eq!(cur.read_u64_le(), None);
    assert_eq!(cur.position(), 0);
    assert_eq!(cur.read_u16_le(), Some(0x0201));
    assert_eq!(cur.read_u16_le(), None);
    assert_eq!(cur.position(), 2);
    assert_eq!(cur.skip(2), None);
    assert_eq!(cur.position(), 2);
}

#[test]
fn peek_does_not_consume() {
    let data = [9u8, 8];
    let mut cur = Cursor::new(&data);
    assert_eq!(cur.peek_u8(), Some(9));
    assert_eq!(cur.peek_u8(), Some(9));
    assert_eq!(cur.position(), 0);
    assert_eq!(cur.read_u8(), Some(9));
    assert_eq!(cur.peek_u8(), Some(8));
}

#[test]
fn seek_beyond_end_makes_reads_fail() {
    let data = [1u8, 2, 3, 4];
    let mut cur = Cursor::new(&data);
    cur.seek_to(100);
    assert_eq!(cur.position(), 100);
    assert_eq!(cur.remaining(), 0);
    assert_eq!(cur.peek_u8(), None);
    assert_eq!(cur.read_u8(), None);
    assert_eq!(cur.skip(0), None);
    cur.seek_to(4);
    assert_eq!(cur.skip(0), Some(()));
    assert_eq!(cur.read_u8(), None);
    cur.seek_to(3);
    assert_eq!(cur.remaining(), 1);
    assert_eq!(cur.read_u8(), Some(4));
}

#[test]
fn skip_moves_over_present_bytes() {
    let data = [0u8, 0, 0, 7];
    let mut cur = Cursor::new(&data);
    assert_eq!(cur.skip(3), Some(()));
    assert_eq!(cur.read_u8(), Some(7));
    let mut cur = Cursor::new(&data);
    assert_eq!(cur.skip(4), Some(()));
    assert_eq!(cur.position(), 4);
    let mut cur = Cursor::new(&data);
    assert_eq!(cur.skip(5), None);
}

#[test]
fn counted_lists_by_width() {
    let data = [2u8, 10, 20];
    let mut cur = Cursor::new(&data);
    assert_eq!(read_list_u8::<u8>(&mut cur), Some(vec![10, 20]));
    assert_eq!(cur.position(), 3);

    let data = [2u8, 0, 1, 0, 2, 0];
    let mut cur = Cursor::new(&data);
    assert_eq!(read_list_u16::<u16>(&mut cur), Some(vec![1, 2]));
    assert_eq!(cur.position(), 6);

    let data = [1u8, 0, 0, 0, 0x78, 0x56, 0x34, 0x12];
    let mut cur = Cursor::new(&data);
    assert_eq!(read_list_u32::<u32>(&mut cur), Some(vec![0x1234_5678]));
    assert_eq!(cur.position(), 8);
}

#[test]
fn empty_list_takes_only_its_count() {
    let data = [0u8, 0xAA];
    let mut cur = Cursor::new(&data);
    assert_eq!(read_list_u8::<u32>(&mut cur), Some(Vec::new()));
    assert_eq!(cur.position(), 1);
}

#[test]
fn truncated_list_fails() {
    let data = [3u8, 1, 2];
    let mut cur = Cursor::new(&data);
    assert_eq!(read_list_u8::<u8>(&mut cur), None);
    let data = [0xFFu8, 0xFF, 0xFF, 0xFF, 1, 2, 3, 4];
    let mut cur = Cursor::new(&data);
    assert_eq!(read_list_u32::<u32>(&mut cur), None);
}

#[test]
fn read_many_reads_back_to_back() {
    let data = [1u8, 0, 0, 0, 7, 2, 0, 0, 0, 8];
    let mut cur = Cursor::new(&data);
    assert_eq!(read_many::<(u32, u8)>(&mut cur, 2), Some(vec![(1, 7), (2, 8)]));
    assert_eq!(cur.position(), 10);
    let mut cur = Cursor::new(&data);
    assert_eq!(read_many::<(u32, u8)>(&mut cur, 0), Some(Vec::new()));
    assert_eq!(cur.position(), 0);
}

#[test]
fn typed_list_reads_types_then_values() {
    // two types, then two 32-bit values
    let data = [2u8, 0x10, 0x20, 1, 0, 0, 0, 2, 0, 0, 0];
    let mut cur = Cursor::new(&data);
    assert_eq!(read_typed_list::<u32>(&mut cur), Some((vec![0x10, 0x20], vec![1, 2])));
    assert_eq!(cur.position(), 11);
    // a value is missing
    let mut cur = Cursor::new(&data[..10]);
    assert_eq!(read_typed_list::<u32>(&mut cur), None);
}

#[test]
fn tuples_and_arrays_decode_in_field_order() {
    let data = [1u8, 0, 0, 0, 2, 0, 0, 0, 3, 0, 0, 0, 4, 0, 0, 0];
    assert_eq!(<(u32, u32)>::read(&mut Cursor::new(&data)), Some((1, 2)));
    assert_eq!(<(u32, u32, u32)>::read(&mut Cursor::new(&data)), Some((1, 2, 3)));
    assert_eq!(<(u32, u32, u32, u32)>::read(&mut Cursor::new(&data)), Some((1, 2, 3, 4)));
    assert_eq!(<[u8; 3]>::read(&mut Cursor::new(&data)), Some([1, 0, 0]));
    assert_eq!(<[u8; 4]>::read(&mut Cursor::new(&data[4..])), Some([2, 0, 0, 0]));
    assert_eq!(<(u32, u32, u32, u32)>::read(&mut Cursor::new(&data[..15])), None);
}

#[test]
fn read_or_stay_goes_back_on_failure() {
    // a pair whose second half is missing
    let data = [1u8, 0, 0, 0, 2, 0];
    let mut cur = Cursor::new(&data);
    assert_eq!(read_or_stay::<(u32, u32)>(&mut cur), None);
    assert_eq!(cur.position(), 0);
    assert_eq!(read_or_stay::<(u32, u8)>(&mut cur), Some((1, 2)));
    assert_eq!(cur.position(), 5);
    assert_eq!(read_or_stay::<u32>(&mut cur), None);
    assert_eq!(cur.position(), 5);
}
