use qr_code::bit_utils::bit_string::BitAddressOutOfBoundsError;
use qr_code::bit_utils::bitmap::get_byte_location;
use qr_code::Bit;
use qr_code::BitMap;
use qr_code::BitString;

#[test]
fn bit_string_bit_basics() {
    let mut bit_string: BitString = BitString::new();

    bit_string.push_bit(Bit::One);
    bit_string.push_bit(Bit::One);
    bit_string.push_bit(Bit::One);
    bit_string.push_bit(Bit::One);

    for i in 0..4 {
        match bit_string.get_bit(i) {
            Ok(bit) => {
                assert_eq!(bit, Bit::One);
            }
            Err(_) => {
                assert!(false);
            }
        }
    }

    match bit_string.get_bit(5) {
        Ok(_) => {
            assert!(false);
        }
        Err(_) => {
            assert!(true);
        }
    }

    bit_string = BitString::new();
    for _ in 0..50 {
        bit_string.push_bit(Bit::One);
    }
    bit_string.push_bit(Bit::Zero);
    for _ in 0..50 {
        bit_string.push_bit(Bit::One);
    }

    match bit_string.get_bit(0) {
        Ok(bit) => {
            assert_eq!(bit, Bit::One);
        }
        Err(_) => {
            assert!(false);
        }
    }

    match bit_string.get_bit(50) {
        Ok(bit) => {
            assert_eq!(bit, Bit::Zero);
        }
        Err(_) => {
            assert!(false);
        }
    }

    match bit_string.get_bit(99) {
        Ok(bit) => {
            assert_eq!(bit, Bit::One);
        }
        Err(_) => {
            assert!(false);
        }
    }

    match bit_string.get_bit(110) {
        Ok(_) => {
            assert!(false);
        }
        Err(_) => {
            assert!(true);
        }
    }
}

#[test]
fn bit_string_test_bit_push_byte() {
    let mut bits = BitString::new();

    bits.push_bit(1);
    bits.push_bit(0);
    bits.push_bit(1);
    bits.push_bit(0);

    assert_eq!("1010", bits.to_string());

    bits.push_byte(1);
    assert_eq!("101000000001", bits.to_string());
}

#[test]
fn test_bitmap_basics() {
    let mut bit_map = BitMap::new(10);

    bit_map.set(5, 7, 1);

    assert_eq!(bit_map.get(5, 7), Bit::One);
}

#[test]
fn test_bitmap_sizing() {
    let bit_map = BitMap::new(10);

    assert_eq!(bit_map.row_count(), 10);
    assert_eq!(bit_map.row_bytes(0), 2);
}

#[test]
fn bits_convert_from_numbers() {
    assert_eq!(Bit::from(0u8), Bit::Zero);
    assert_eq!(Bit::from(7u8), Bit::One);
    assert_eq!(Bit::from(-3i32), Bit::One);
    assert_eq!(Bit::from(0usize), Bit::Zero);
    assert_eq!(Bit::from(1u128 << 100), Bit::One);
    assert!(Bit::One.is_one());
    assert!(!Bit::Zero.is_one());
    assert_eq!(Bit::from_bool(true), Bit::One);
}

#[test]
fn bit_string_packs_the_first_bit_highest() {
    let mut bits = BitString::new();
    bits.push_bit(Bit::One);
    assert_eq!(bits.len(), 1);
    assert_eq!(bits.get_byte(0), 0x80);
    bits.push_bit(Bit::Zero);
    bits.push_bit(Bit::One);
    assert_eq!(*bits.get_bytes(), vec![0xA0]);
    bits.push_byte(0xFFu8);
    assert_eq!(bits.len(), 11);
    assert_eq!(*bits.get_bytes(), vec![0xBF, 0xE0]);
    assert_eq!(bits.get_bit(11), Err(BitAddressOutOfBoundsError));
    assert_eq!(bits.get_bit(10), Ok(Bit::One));
}

#[test]
fn bit_string_appends_values_and_runs() {
    let mut bits = BitString::new();
    bits.append_value(0b0010, 4);
    bits.append_value(11, 9);
    assert_eq!(bits.to_string(), "0010000001011");
    bits.push_bit_times(1u8, 3u8);
    assert_eq!(bits.to_string(), "0010000001011111");
    bits.append_times(Bit::Zero, 2);
    bits.append_byte(0x11);
    assert_eq!(bits.to_string(), "00100000010111110000010001");
    let from_bytes = BitString::from_vec(vec![0x20, 0x5B]);
    assert_eq!(from_bytes.len(), 16);
    assert_eq!(from_bytes.to_string(), "0010000001011011");
}

#[test]
fn bit_string_as_hex() {
    let mut bits = BitString::from_vec(vec![0x20, 0x5B, 0x0B, 0x78]);
    assert_eq!(bits.as_hex().to_string(), "20 5B 0B 78 \n");
    bits.push_bit(Bit::One);
    assert_eq!(bits.as_hex().to_string(), "20 5B 0B 78 8\n");
    let long = BitString::from_vec(vec![0xAB; 17]);
    assert_eq!(
        long.as_hex().to_string(),
        "AB AB AB AB AB AB AB AB AB AB AB AB AB AB AB AB \nAB \n"
    );
    assert_eq!(BitString::new().as_hex().to_string(), "\n");
}

#[test]
fn bitmap_set_get_invert() {
    let mut bit_map = BitMap::new(21);
    assert_eq!(bit_map.size(), 21);
    for r in 0..21 {
        for c in 0..21 {
            assert_eq!(bit_map.get(r, c), Bit::Zero);
        }
    }
    bit_map.set(20, 20, Bit::One);
    bit_map.set(0, 8, 5u16);
    bit_map.set(21, 0, Bit::One);
    bit_map.set(0, 21, Bit::One);
    assert_eq!(bit_map.get(20, 20), Bit::One);
    assert_eq!(bit_map.get(0, 8), Bit::One);
    assert_eq!(bit_map.get(0, 7), Bit::Zero);
    assert_eq!(bit_map.get(0, 9), Bit::Zero);
    bit_map.invert_bit(0, 8);
    bit_map.invert_bit(0, 9);
    assert_eq!(bit_map.get(0, 8), Bit::Zero);
    assert_eq!(bit_map.get(0, 9), Bit::One);
    bit_map.set(0, 9, 0);
    assert_eq!(bit_map.get(0, 9), Bit::Zero);
    let copy = bit_map.duplicate();
    assert_eq!(copy.get(20, 20), Bit::One);
    assert_eq!(get_byte_location(13), (1, 5));
}

#[test]
fn bitmap_as_text() {
    let mut bit_map = BitMap::new(2);
    bit_map.set(0, 1, Bit::One);
    let block = "\u{2588}\u{2588}";
    let border = format!("{}\n", block.repeat(6));
    let expected = format!(
        "{border}{border}{b}{b}{b}  {b}{b}\n{b}{b}{b}{b}{b}{b}\n{border}{border}",
        border = border,
        b = block
    );
    assert_eq!(bit_map.to_string(), expected);
}

#[test]
fn bitmap_as_bmp_file() {
    let mut bit_map = BitMap::new(10);
    bit_map.set(0, 0, Bit::One);
    bit_map.set(9, 9, Bit::One);
    bit_map.set(3, 8, Bit::One);
    let bytes = bit_map.to_bmp();
    assert_eq!(bytes.len(), 62 + 10 * 4);
    assert_eq!(
        bytes[0..14],
        [0x42, 0x4D, 102, 0, 0, 0, 0, 0, 0, 0, 62, 0, 0, 0]
    );
    assert_eq!(
        bytes[14..54],
        [
            40, 0, 0, 0, 10, 0, 0, 0, 10, 0, 0, 0, 1, 0, 1, 0, 0, 0, 0, 0, 0, 0, 0, 0, 0xC4, 0x0E,
            0, 0, 0xC4, 0x0E, 0, 0, 2, 0, 0, 0, 0, 0, 0, 0
        ]
    );
    assert_eq!(bytes[54..62], [0xFF, 0xFF, 0xFF, 0, 0, 0, 0, 0]);
    assert_eq!(bytes[62..66], [0x00, 0x40, 0, 0]);
    assert_eq!(bytes[62 + 6 * 4..62 + 7 * 4], [0x00, 0x80, 0, 0]);
    assert_eq!(bytes[62 + 9 * 4..62 + 10 * 4], [0x80, 0x00, 0, 0]);
    for r in 0..10 {
        for c in 0..10 {
            let byte = bytes[62 + (9 - r) * 4 + c / 8];
            let pixel = byte & (0x80 >> (c % 8)) != 0;
            assert_eq!(pixel, bit_map.get(r, c) == Bit::One);
        }
    }
}

#[test]
fn bit_as_text() {
    assert_eq!(Bit::Zero.to_string(), "0");
    assert_eq!(Bit::One.to_string(), "1");
    assert_eq!(Bit::from(7u8).to_string(), "1");
    assert_eq!(Bit::from(0i64).to_string(), "0");
}
