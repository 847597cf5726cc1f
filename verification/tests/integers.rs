use slice_reader::{ByteOrder, Reader};

const PATTERN: [u8; 8] = [0x01, 0x23, 0x45, 0x67, 0x89, 0xAB, 0xCD, 0xEF];

#[test]
fn next_u32_le_then_next_u8_at_the_end() {
    let buffer = [0x01u8, 0x02, 0x03, 0x04];
    let mut reader = Reader::new(&buffer);
    assert_eq!(reader.position(), 0);
    assert_eq!(reader.next_u32_le(), Some(0x04030201));
    assert_eq!(reader.position(), 4);
    assert_eq!(reader.next_u8(), None);
    assert_eq!(reader.position(), 4);
}

#[test]
fn next_i8_of_all_ones_is_minus_one() {
    let buffer = [0xFFu8];
    let mut reader = Reader::new(&buffer);
    assert_eq!(reader.next_i8(), Some(-1));
    assert_eq!(reader.position(), 1);
}

#[test]
fn the_bits_of_one_as_a_float_read_little_endian() {
    let buffer = [0x00u8, 0x00, 0x80, 0x3F];
    let mut reader = Reader::new(&buffer);
    let bits = reader.next_u32_le();
    assert_eq!(bits, Some(0x3F800000));
    assert_eq!(bits.map(f32::from_bits), Some(1.0));
    assert_eq!(reader.position(), 4);
}

#[test]
fn the_bits_of_a_double_read_big_endian() {
    let buffer = [0xC0u8, 0x04, 0x00, 0x00, 0x00, 0x00, 0x00, 0x00];
    let reader = Reader::new(&buffer);
    assert_eq!(reader.peek_u64_be().map(f64::from_bits), Some(-2.5));
    assert_eq!(reader.peek_u64_be().map(f64::from_bits), Some(f64::from_be_bytes(buffer)));
    assert_eq!(reader.peek_u64_le().map(f64::from_bits), Some(f64::from_le_bytes(buffer)));
    assert_eq!(reader.peek_u64().map(f64::from_bits), Some(f64::from_ne_bytes(buffer)));
}

#[test]
fn u8_in_every_order() {
    let buffer = [0x80u8, 0x7F];
    let mut reader = Reader::new(&buffer);
    assert_eq!(reader.peek_u8(), Some(0x80));
    assert_eq!(reader.peek_u8_ne(), Some(0x80));
    assert_eq!(reader.peek_u8_le(), Some(0x80));
    assert_eq!(reader.peek_u8_be(), Some(0x80));
    assert_eq!(reader.peek_u8_in(ByteOrder::Little), Some(0x80));
    assert_eq!(reader.peek_u8_in(ByteOrder::Big), Some(0x80));
    assert_eq!(reader.position(), 0);
    assert_eq!(reader.next_u8(), Some(0x80));
    assert_eq!(reader.next_u8_be(), Some(0x7F));
    assert_eq!(reader.next_u8_le(), None);
    assert_eq!(reader.next_u8_ne(), None);
    assert_eq!(reader.next_u8_in(ByteOrder::Big), None);
    assert_eq!(reader.peek_u8(), None);
    assert_eq!(reader.position(), 2);
}

#[test]
fn i8_in_every_order() {
    let buffer = [0x80u8, 0x7F, 0x00, 0xFE];
    let mut reader = Reader::new(&buffer);
    assert_eq!(reader.peek_i8(), Some(-128));
    assert_eq!(reader.peek_i8_ne(), Some(-128));
    assert_eq!(reader.peek_i8_le(), Some(-128));
    assert_eq!(reader.peek_i8_be(), Some(-128));
    assert_eq!(reader.peek_i8_in(ByteOrder::Little), Some(-128));
    assert_eq!(reader.next_i8_ne(), Some(-128));
    assert_eq!(reader.next_i8_le(), Some(127));
    assert_eq!(reader.next_i8_be(), Some(0));
    assert_eq!(reader.next_i8_in(ByteOrder::Little), Some(-2));
    assert_eq!(reader.next_i8(), None);
    assert_eq!(reader.position(), 4);
}

#[test]
fn u16_little_and_big_endian() {
    let reader = Reader::new(&PATTERN);
    assert_eq!(reader.peek_u16_le(), Some(0x2301));
    assert_eq!(reader.peek_u16_be(), Some(0x0123));
    assert_eq!(reader.peek_u16_in(ByteOrder::Little), Some(0x2301));
    assert_eq!(reader.peek_u16_in(ByteOrder::Big), Some(0x0123));
    let mut reader = Reader::new(&PATTERN);
    assert_eq!(reader.next_u16_le(), Some(0x2301));
    assert_eq!(reader.next_u16_be(), Some(0x4567));
    assert_eq!(reader.next_u16_in(ByteOrder::Little), Some(0xAB89));
    assert_eq!(reader.next_u16_in(ByteOrder::Big), Some(0xCDEF));
    assert_eq!(reader.position(), 8);
    assert_eq!(reader.next_u16_le(), None);
}

#[test]
fn u32_little_and_big_endian() {
    let reader = Reader::new(&PATTERN);
    assert_eq!(reader.peek_u32_le(), Some(0x67452301));
    assert_eq!(reader.peek_u32_be(), Some(0x01234567));
    let mut reader = Reader::new(&PATTERN);
    assert_eq!(reader.next_u32_be(), Some(0x01234567));
    assert_eq!(reader.position(), 4);
    assert_eq!(reader.next_u32_le(), Some(0xEFCDAB89));
    assert_eq!(reader.position(), 8);
    assert_eq!(reader.next_u32_be(), None);
    assert_eq!(reader.next_u32_in(ByteOrder::Big), None);
}

#[test]
fn u64_little_and_big_endian() {
    let mut reader = Reader::new(&PATTERN);
    assert_eq!(reader.peek_u64_le(), Some(0xEFCDAB8967452301));
    assert_eq!(reader.peek_u64_be(), Some(0x0123456789ABCDEF));
    assert_eq!(reader.peek_u64_in(ByteOrder::Big), Some(0x0123456789ABCDEF));
    assert_eq!(reader.position(), 0);
    assert_eq!(reader.next_u64_le(), Some(0xEFCDAB8967452301));
    assert_eq!(reader.position(), 8);
    assert_eq!(reader.next_u64_be(), None);
}

#[test]
fn the_largest_unsigned_values() {
    let buffer = [0xFFu8; 8];
    let reader = Reader::new(&buffer);
    assert_eq!(reader.peek_u8(), Some(u8::MAX));
    assert_eq!(reader.peek_u16_le(), Some(u16::MAX));
    assert_eq!(reader.peek_u16_be(), Some(u16::MAX));
    assert_eq!(reader.peek_u32_le(), Some(u32::MAX));
    assert_eq!(reader.peek_u32_be(), Some(u32::MAX));
    assert_eq!(reader.peek_u64_le(), Some(u64::MAX));
    assert_eq!(reader.peek_u64_be(), Some(u64::MAX));
    assert_eq!(reader.peek_i16_le(), Some(-1));
    assert_eq!(reader.peek_i32_be(), Some(-1));
    assert_eq!(reader.peek_i64_le(), Some(-1));
}

#[test]
fn i16_around_the_sign() {
    let buffer = [0x00u8, 0x80, 0xFF, 0x7F, 0x80, 0x00, 0xFE, 0xFF];
    let mut reader = Reader::new(&buffer);
    assert_eq!(reader.peek_i16_le(), Some(i16::MIN));
    assert_eq!(reader.peek_i16_be(), Some(0x0080));
    assert_eq!(reader.next_i16_le(), Some(i16::MIN));
    assert_eq!(reader.next_i16_le(), Some(i16::MAX));
    assert_eq!(reader.next_i16_be(), Some(i16::MIN));
    assert_eq!(reader.peek_i16_in(ByteOrder::Big), Some(-257));
    assert_eq!(reader.next_i16_in(ByteOrder::Little), Some(-2));
    assert_eq!(reader.next_i16_be(), None);
    assert_eq!(reader.position(), 8);
}

#[test]
fn i32_around_the_sign() {
    let buffer = [0x80u8, 0x00, 0x00, 0x00, 0xFF, 0xFF, 0xFF, 0x7F, 0xFF, 0xFF, 0xFF, 0xFE];
    let mut reader = Reader::new(&buffer);
    assert_eq!(reader.peek_i32_be(), Some(i32::MIN));
    assert_eq!(reader.peek_i32_le(), Some(0x80));
    assert_eq!(reader.next_i32_be(), Some(i32::MIN));
    assert_eq!(reader.next_i32_le(), Some(i32::MAX));
    assert_eq!(reader.peek_i32_in(ByteOrder::Little), Some(-16777217));
    assert_eq!(reader.next_i32_in(ByteOrder::Big), Some(-2));
    assert_eq!(reader.next_i32_le(), None);
    assert_eq!(reader.position(), 12);
}

#[test]
fn i64_around_the_sign() {
    let buffer = [
        0x00u8, 0x00, 0x00, 0x00, 0x00, 0x00, 0x00, 0x80, 0x7F, 0xFF, 0xFF, 0xFF, 0xFF, 0xFF, 0xFF,
        0xFF,
    ];
    let mut reader = Reader::new(&buffer);
    assert_eq!(reader.peek_i64_le(), Some(i64::MIN));
    assert_eq!(reader.peek_i64_be(), Some(0x80));
    assert_eq!(reader.peek_i64_in(ByteOrder::Little), Some(i64::MIN));
    assert_eq!(reader.next_i64_le(), Some(i64::MIN));
    assert_eq!(reader.peek_i64_le(), Some(-129));
    assert_eq!(reader.next_i64_in(ByteOrder::Big), Some(i64::MAX));
    assert_eq!(reader.next_i64_be(), None);
    assert_eq!(reader.position(), 16);
}

#[test]
fn every_read_agrees_with_the_standard_conversions() {
    let buffer: Vec<u8> = (0..64u32).map(|i| (i * 37 + 11) as u8).chain([0xFF, 0x80, 0x00, 0x7F, 0xFF, 0xFF, 0xFF, 0xFF]).collect();
    for start in 0..buffer.len() {
        let mut reader = Reader::new(&buffer);
        reader.next_n(start);
        let left = &buffer[start..];
        let one: Option<[u8; 1]> = left.get(..1).map(|run| run.try_into().unwrap());
        let two: Option<[u8; 2]> = left.get(..2).map(|run| run.try_into().unwrap());
        let four: Option<[u8; 4]> = left.get(..4).map(|run| run.try_into().unwrap());
        let eight: Option<[u8; 8]> = left.get(..8).map(|run| run.try_into().unwrap());
        assert_eq!(reader.peek_u8_le(), one.map(u8::from_le_bytes));
        assert_eq!(reader.peek_u8_be(), one.map(u8::from_be_bytes));
        assert_eq!(reader.peek_i8_le(), one.map(i8::from_le_bytes));
        assert_eq!(reader.peek_i8_be(), one.map(i8::from_be_bytes));
        assert_eq!(reader.peek_u16_le(), two.map(u16::from_le_bytes));
        assert_eq!(reader.peek_u16_be(), two.map(u16::from_be_bytes));
        assert_eq!(reader.peek_i16_le(), two.map(i16::from_le_bytes));
        assert_eq!(reader.peek_i16_be(), two.map(i16::from_be_bytes));
        assert_eq!(reader.peek_u32_le(), four.map(u32::from_le_bytes));
        assert_eq!(reader.peek_u32_be(), four.map(u32::from_be_bytes));
        assert_eq!(reader.peek_i32_le(), four.map(i32::from_le_bytes));
        assert_eq!(reader.peek_i32_be(), four.map(i32::from_be_bytes));
        assert_eq!(reader.peek_u64_le(), eight.map(u64::from_le_bytes));
        assert_eq!(reader.peek_u64_be(), eight.map(u64::from_be_bytes));
        assert_eq!(reader.peek_i64_le(), eight.map(i64::from_le_bytes));
        assert_eq!(reader.peek_i64_be(), eight.map(i64::from_be_bytes));
        assert_eq!(reader.position(), start);
    }
}

#[test]
fn reads_in_the_order_of_the_machine_agree_with_the_standard_conversions() {
    let buffer = [0x01u8, 0x23, 0x45, 0x67, 0x89, 0xAB, 0xCD, 0xEF, 0xF0, 0x0F];
    for start in 0..buffer.len() {
        let mut reader = Reader::new(&buffer);
        reader.next_n(start);
        let left = &buffer[start..];
        let one: Option<[u8; 1]> = left.get(..1).map(|run| run.try_into().unwrap());
        let two: Option<[u8; 2]> = left.get(..2).map(|run| run.try_into().unwrap());
        let four: Option<[u8; 4]> = left.get(..4).map(|run| run.try_into().unwrap());
        let eight: Option<[u8; 8]> = left.get(..8).map(|run| run.try_into().unwrap());
        assert_eq!(reader.peek_u8(), one.map(u8::from_ne_bytes));
        assert_eq!(reader.peek_u8_ne(), one.map(u8::from_ne_bytes));
        assert_eq!(reader.peek_i8(), one.map(i8::from_ne_bytes));
        assert_eq!(reader.peek_i8_ne(), one.map(i8::from_ne_bytes));
        assert_eq!(reader.peek_u16(), two.map(u16::from_ne_bytes));
        assert_eq!(reader.peek_u16_ne(), two.map(u16::from_ne_bytes));
        assert_eq!(reader.peek_i16(), two.map(i16::from_ne_bytes));
        assert_eq!(reader.peek_i16_ne(), two.map(i16::from_ne_bytes));
        assert_eq!(reader.peek_u32(), four.map(u32::from_ne_bytes));
        assert_eq!(reader.peek_u32_ne(), four.map(u32::from_ne_bytes));
        assert_eq!(reader.peek_i32(), four.map(i32::from_ne_bytes));
        assert_eq!(reader.peek_i32_ne(), four.map(i32::from_ne_bytes));
        assert_eq!(reader.peek_u64(), eight.map(u64::from_ne_bytes));
        assert_eq!(reader.peek_u64_ne(), eight.map(u64::from_ne_bytes));
        assert_eq!(reader.peek_i64(), eight.map(i64::from_ne_bytes));
        assert_eq!(reader.peek_i64_ne(), eight.map(i64::from_ne_bytes));
        assert_eq!(reader.clone().next_u16(), two.map(u16::from_ne_bytes));
        assert_eq!(reader.clone().next_u16_ne(), two.map(u16::from_ne_bytes));
        assert_eq!(reader.clone().next_i16(), two.map(i16::from_ne_bytes));
        assert_eq!(reader.clone().next_i16_ne(), two.map(i16::from_ne_bytes));
        assert_eq!(reader.clone().next_u32(), four.map(u32::from_ne_bytes));
        assert_eq!(reader.clone().next_u32_ne(), four.map(u32::from_ne_bytes));
        assert_eq!(reader.clone().next_i32(), four.map(i32::from_ne_bytes));
        assert_eq!(reader.clone().next_i32_ne(), four.map(i32::from_ne_bytes));
        assert_eq!(reader.clone().next_u64(), eight.map(u64::from_ne_bytes));
        assert_eq!(reader.clone().next_u64_ne(), eight.map(u64::from_ne_bytes));
        assert_eq!(reader.clone().next_i64(), eight.map(i64::from_ne_bytes));
        assert_eq!(reader.clone().next_i64_ne(), eight.map(i64::from_ne_bytes));
        assert_eq!(reader.position(), start);
    }
}

#[test]
fn each_next_advances_by_the_width_of_its_type() {
    let buffer = [0u8; 64];
    let mut reader = Reader::new(&buffer);
    let mut expected = 0;
    reader.next_u8();
    expected += 1;
    assert_eq!(reader.position(), expected);
    reader.next_i8_le();
    expected += 1;
    assert_eq!(reader.position(), expected);
    reader.next_u16();
    expected += 2;
    assert_eq!(reader.position(), expected);
    reader.next_i16_be();
    expected += 2;
    assert_eq!(reader.position(), expected);
    reader.next_u32_ne();
    expected += 4;
    assert_eq!(reader.position(), expected);
    reader.next_i32_le();
    expected += 4;
    assert_eq!(reader.position(), expected);
    reader.next_u64_be();
    expected += 8;
    assert_eq!(reader.position(), expected);
    reader.next_i64();
    expected += 8;
    assert_eq!(reader.position(), expected);
    assert_eq!(reader.position(), 30);
    assert_eq!(reader.remaining(), 34);
}

#[test]
fn a_next_that_finds_too_few_bytes_changes_nothing() {
    let buffer = [1u8, 2, 3, 4, 5, 6, 7];
    let mut reader = Reader::new(&buffer);
    assert_eq!(reader.next_u64(), None);
    assert_eq!(reader.next_u64_ne(), None);
    assert_eq!(reader.next_u64_le(), None);
    assert_eq!(reader.next_u64_be(), None);
    assert_eq!(reader.next_i64(), None);
    assert_eq!(reader.next_i64_ne(), None);
    assert_eq!(reader.next_i64_le(), None);
    assert_eq!(reader.next_i64_be(), None);
    assert_eq!(reader.position(), 0);
    assert_eq!(reader.next_u32_le(), Some(0x04030201));
    assert_eq!(reader.next_u32(), None);
    assert_eq!(reader.next_u32_ne(), None);
    assert_eq!(reader.next_u32_le(), None);
    assert_eq!(reader.next_u32_be(), None);
    assert_eq!(reader.next_i32(), None);
    assert_eq!(reader.next_i32_ne(), None);
    assert_eq!(reader.next_i32_le(), None);
    assert_eq!(reader.next_i32_be(), None);
    assert_eq!(reader.position(), 4);
    assert_eq!(reader.next_u16_be(), Some(0x0506));
    assert_eq!(reader.next_u16(), None);
    assert_eq!(reader.next_u16_ne(), None);
    assert_eq!(reader.next_u16_le(), None);
    assert_eq!(reader.next_u16_be(), None);
    assert_eq!(reader.next_i16(), None);
    assert_eq!(reader.next_i16_ne(), None);
    assert_eq!(reader.next_i16_le(), None);
    assert_eq!(reader.next_i16_be(), None);
    assert_eq!(reader.position(), 6);
    assert_eq!(reader.remaining(), 1);
    assert_eq!(reader.next_i8(), Some(7));
    assert_eq!(reader.next_i8(), None);
    assert_eq!(reader.next_u8(), None);
    assert_eq!(reader.position(), 7);
}

#[test]
fn a_peek_that_finds_too_few_bytes_gives_none() {
    let buffer = [1u8, 2, 3];
    let mut reader = Reader::new(&buffer);
    assert_eq!(reader.peek_u32(), None);
    assert_eq!(reader.peek_u32_le(), None);
    assert_eq!(reader.peek_i32_be(), None);
    assert_eq!(reader.peek_u64_ne(), None);
    assert_eq!(reader.peek_i64(), None);
    assert_eq!(reader.peek_u16_be(), Some(0x0102));
    reader.next_n(2);
    assert_eq!(reader.peek_u16(), None);
    assert_eq!(reader.peek_i16_le(), None);
    assert_eq!(reader.peek_u8(), Some(3));
    reader.next();
    assert_eq!(reader.peek_u8(), None);
    assert_eq!(reader.peek_i8_be(), None);
    assert_eq!(reader.position(), 3);
}

#[test]
fn peeked_integers_repeat_and_do_not_move() {
    let mut reader = Reader::new(&PATTERN);
    reader.next();
    for _ in 0..3 {
        assert_eq!(reader.peek_u16_le(), Some(0x4523));
        assert_eq!(reader.peek_u32_be(), Some(0x23456789));
        assert_eq!(reader.peek_i32_le(), Some(0x89674523u32 as i32));
        assert_eq!(reader.peek_u64_be(), None);
        assert_eq!(reader.position(), 1);
    }
}

#[test]
fn little_and_big_endian_reads_are_byte_swaps_of_each_other() {
    let reader = Reader::new(&PATTERN);
    assert_eq!(reader.peek_u16_le().map(u16::swap_bytes), reader.peek_u16_be());
    assert_eq!(reader.peek_u32_le().map(u32::swap_bytes), reader.peek_u32_be());
    assert_eq!(reader.peek_u64_le().map(u64::swap_bytes), reader.peek_u64_be());
    assert_eq!(reader.peek_i16_le().map(i16::swap_bytes), reader.peek_i16_be());
    assert_eq!(reader.peek_i32_le().map(i32::swap_bytes), reader.peek_i32_be());
    assert_eq!(reader.peek_i64_le().map(i64::swap_bytes), reader.peek_i64_be());
    assert_ne!(reader.peek_u16_le(), reader.peek_u16_be());
    assert_ne!(reader.peek_u32_le(), reader.peek_u32_be());
    assert_ne!(reader.peek_u64_le(), reader.peek_u64_be());
    assert_ne!(reader.peek_i16_le(), reader.peek_i16_be());
    assert_ne!(reader.peek_i32_le(), reader.peek_i32_be());
    assert_ne!(reader.peek_i64_le(), reader.peek_i64_be());
}

#[test]
fn bytes_that_read_the_same_both_ways_give_the_same_value_in_both_orders() {
    let buffer = [0xA1u8, 0xB2, 0xC3, 0xD4, 0xD4, 0xC3, 0xB2, 0xA1];
    let mut reader = Reader::new(&buffer);
    assert_eq!(reader.peek_u64_le(), reader.peek_u64_be());
    assert_eq!(reader.peek_i64_le(), reader.peek_i64_be());
    assert_eq!(reader.peek_u64_le(), Some(0xA1B2C3D4D4C3B2A1));
    reader.next_n(2);
    assert_eq!(reader.peek_u32_le(), reader.peek_u32_be());
    assert_eq!(reader.peek_i32_le(), reader.peek_i32_be());
    assert_eq!(reader.peek_u32_be(), Some(0xC3D4D4C3));
    reader.next();
    assert_eq!(reader.peek_u16_le(), reader.peek_u16_be());
    assert_eq!(reader.peek_i16_le(), reader.peek_i16_be());
    assert_eq!(reader.peek_u16_le(), Some(0xD4D4));
}

#[test]
fn the_unsuffixed_reads_are_the_native_ones() {
    let mut plain = Reader::new(&PATTERN);
    let mut native = Reader::new(&PATTERN);
    assert_eq!(plain.peek_u16(), native.peek_u16_ne());
    assert_eq!(plain.next_u16(), native.next_u16_ne());
    assert_eq!(plain.peek_i32(), native.peek_i32_ne());
    assert_eq!(plain.next_i32(), native.next_i32_ne());
    assert_eq!(plain.position(), 6);
    assert_eq!(native.position(), 6);
    let order = ByteOrder::native();
    let reader = Reader::new(&PATTERN);
    assert_eq!(reader.peek_u64(), reader.peek_u64_in(order));
    assert_eq!(reader.peek_i64_ne(), reader.peek_i64_in(order));
}
