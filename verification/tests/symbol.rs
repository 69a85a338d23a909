use qr_code::create_qr_code;
use qr_code::encode;
use qr_code::qr_code::level::get_remainder_bits;
use qr_code::qr_code::level::get_total_codewords;
use qr_code::qr_code::mask::mask_data;
use qr_code::qr_code::mask::penalty_score;
use qr_code::qr_code::matrix::count_free;
use qr_code::qr_code::matrix::function_patterns;
use qr_code::qr_code::matrix::select_mask;
use qr_code::qr_code::mode::classify;
use qr_code::qr_code::mode::fits_version;
use qr_code::qr_code::mode::get_count_indicator_width;
use qr_code::qr_code::mode::is_alphanumeric;
use qr_code::qr_code::mode::is_numeric;
use qr_code::qr_code::mode::smallest_version;
use qr_code::qr_code::mode::value_of_character;
use qr_code::qr_code::mode::Mode;
use qr_code::qr_code::placement::place_data_bits;
use qr_code::qr_code::symbol::QRCode;
use qr_code::qr_code::format::format_information;
use qr_code::qr_code::format::version_information;
use qr_code::Bit;
use qr_code::BitMap;
use qr_code::BitString;
use qr_code::ErrorCorrectionLevel;
use qr_code::QRMode;
use qr_code::QrError;

fn rows_of(bit_map: &BitMap) -> Vec<String> {
    let mut rows = Vec::new();
    for r in 0..bit_map.size() {
        let mut row = String::new();
        for c in 0..bit_map.size() {
            row.push(if bit_map.get(r, c) == Bit::One { '1' } else { '0' });
        }
        rows.push(row);
    }
    rows
}

fn codewords_of(text: &str, level: ErrorCorrectionLevel) -> (usize, Vec<u8>, Vec<Vec<u8>>) {
    let mut symbol = QRMode::analyze_data(text, level).unwrap();
    let bits = symbol.encode();
    let data = bits.get_bytes().clone();
    let (_, error_correction) = symbol.generate_error_correction(bits);
    (symbol.version(), data, error_correction)
}

#[test]
fn test_qr_code() {
    println!(
        "{}",
        create_qr_code("HELLO, WORLD!", ErrorCorrectionLevel::Q).unwrap().to_string()
    );
}

#[test]
fn qr_code_test_qr_modes() {
    let qr_mode = QRMode::analyze_data("123", ErrorCorrectionLevel::L).unwrap();
    assert_eq!(qr_mode.get_mode(), Mode::Numeric);
    assert_eq!(*qr_mode.data(), vec![1, 2, 3]);

    let qr_mode = QRMode::analyze_data("A113", ErrorCorrectionLevel::L).unwrap();
    assert_eq!(qr_mode.get_mode(), Mode::Alphanumeric);
    assert_eq!(*qr_mode.data(), vec![10, 1, 1, 3]);

    let qr_mode = QRMode::analyze_data("a113", ErrorCorrectionLevel::L).unwrap();
    assert_eq!(qr_mode.get_mode(), Mode::Byte);
    assert_eq!(*qr_mode.data(), vec![97, 49, 49, 51]);
}

#[test]
fn mod_test_qr_modes() {
    let qr_mode = QRMode::analyze_data("123", ErrorCorrectionLevel::L).unwrap();
    match &qr_mode {
        QRMode::Numeric(code) => assert_eq!(*code.data(), vec![1, 2, 3]),
        _ => panic!("digits are numeric"),
    }

    let qr_mode = QRMode::analyze_data("A113", ErrorCorrectionLevel::L).unwrap();
    match &qr_mode {
        QRMode::AlphaNumeric(code) => {
            assert_eq!(*code.data(), vec![10, 1, 1, 3]);
            assert_eq!(code.version(), 1);
            assert_eq!(*code.error_correction_level(), ErrorCorrectionLevel::L);
            assert_eq!(code.data_len(), 4);
        }
        _ => panic!("upper-case letters and digits are alphanumeric"),
    }

    let qr_mode = QRMode::analyze_data("a113", ErrorCorrectionLevel::L).unwrap();
    match &qr_mode {
        QRMode::Byte(code) => assert_eq!(*code.data(), vec![97, 49, 49, 51]),
        _ => panic!("lower-case letters need byte mode"),
    }
}

#[test]
fn hello_world_at_q_is_version_one() {
    let (version, data, error_correction) = codewords_of("HELLO WORLD", ErrorCorrectionLevel::Q);
    assert_eq!(version, 1);
    assert_eq!(data, vec![0x20, 0x5B, 0x0B, 0x78, 0xD1, 0x72, 0xDC, 0x4D, 0x43, 0x40, 0xEC, 0x11, 0xEC]);
    assert_eq!(error_correction, vec![vec![0xA8, 0x48, 0x16, 0x52, 0xD9, 0x36, 0x9C, 0x00, 0x2E, 0x0F, 0xB4, 0x7A, 0x10]]);
    let symbol = create_qr_code("HELLO WORLD", ErrorCorrectionLevel::Q).unwrap();
    assert_eq!(symbol.size(), 21);
}

#[test]
fn digits_at_m_are_numeric_version_one() {
    let (version, data, error_correction) = codewords_of("01234567", ErrorCorrectionLevel::M);
    assert_eq!(version, 1);
    assert_eq!(data, vec![0x10, 0x20, 0x0C, 0x56, 0x61, 0x80, 0xEC, 0x11, 0xEC, 0x11, 0xEC, 0x11, 0xEC, 0x11, 0xEC, 0x11]);
    assert_eq!(error_correction, vec![vec![0xA5, 0x24, 0xD4, 0xC1, 0xED, 0x36, 0xC7, 0x87, 0x2C, 0x55]]);
}

#[test]
fn hi_at_l_is_byte_version_one() {
    let (version, data, error_correction) = codewords_of("Hi", ErrorCorrectionLevel::L);
    assert_eq!(version, 1);
    assert_eq!(data[0..3], [0x40, 0x24, 0x86]);
    assert_eq!(data, vec![0x40, 0x24, 0x86, 0x90, 0xEC, 0x11, 0xEC, 0x11, 0xEC, 0x11, 0xEC, 0x11, 0xEC, 0x11, 0xEC, 0x11, 0xEC, 0x11, 0xEC]);
    assert_eq!(error_correction, vec![vec![0x7C, 0xB8, 0x54, 0xFB, 0x46, 0x11, 0x5F]]);
}

#[test]
fn empty_text_is_the_smallest_numeric_symbol() {
    let symbol = QRMode::analyze_data("", ErrorCorrectionLevel::L).unwrap();
    assert_eq!(symbol.get_mode(), Mode::Numeric);
    assert_eq!(symbol.version(), 1);
    assert_eq!(symbol.data().len(), 0);
    let (_, data, _) = codewords_of("", ErrorCorrectionLevel::L);
    assert_eq!(data, vec![0x10, 0x00, 0x00, 0xEC, 0x11, 0xEC, 0x11, 0xEC, 0x11, 0xEC, 0x11, 0xEC, 0x11, 0xEC, 0x11, 0xEC, 0x11, 0xEC, 0x11]);
    let matrix = create_qr_code("", ErrorCorrectionLevel::L).unwrap();
    assert_eq!(matrix.size(), 21);
    assert_eq!(rows_of(&matrix), vec![
        "111111100101101111111",
        "100000100111001000001",
        "101110101101101011101",
        "101110100101001011101",
        "101110100010101011101",
        "100000100000101000001",
        "111111101010101111111",
        "000000001101100000000",
        "111011111111011000100",
        "101101010110001000110",
        "000010101010100010001",
        "110111010010001000110",
        "010010101000101010101",
        "000000001011010101010",
        "111111101011011101101",
        "100000101101110111010",
        "101110101111011101101",
        "101110100010001000110",
        "101110101010100010001",
        "100000101110001000100",
        "111111101110101010101",
    ]);
}

#[test]
fn hello_world_matrix_and_mask() {
    let mut symbol = QRMode::analyze_data("HELLO WORLD", ErrorCorrectionLevel::Q).unwrap();
    let bits = symbol.encode();
    let blocks = symbol.generate_error_correction(bits);
    let stream = symbol.structure_codewords(blocks);
    let (mut placed, reservations) = function_patterns(21);
    place_data_bits(&mut placed, &reservations, &stream);
    let mask = select_mask(&placed, &reservations, &ErrorCorrectionLevel::Q, 1);
    assert_eq!(mask, 6);
    let matrix = create_qr_code("HELLO WORLD", ErrorCorrectionLevel::Q).unwrap();
    assert_eq!(rows_of(&matrix), vec![
        "111111100001001111111",
        "100000101100101000001",
        "101110100101101011101",
        "101110101111101011101",
        "101110101101001011101",
        "100000100100101000001",
        "111111101010101111111",
        "000000001101100000000",
        "010111101100111011010",
        "101111010000111101110",
        "001010110001001100000",
        "101101000101100011000",
        "110111111110111011111",
        "000000001000100101000",
        "111111100110011001111",
        "100000101010010010111",
        "101110101101001000111",
        "101110101011100010100",
        "101110100100001000011",
        "100000101110011100110",
        "111111100101000000010",
    ]);
    assert_eq!(penalty_score(&matrix), 314);
}

#[test]
fn digits_matrix() {
    let matrix = create_qr_code("01234567", ErrorCorrectionLevel::M).unwrap();
    assert_eq!(rows_of(&matrix), vec![
        "111111100011101111111",
        "100000101110001000001",
        "101110100110001011101",
        "101110100101101011101",
        "101110101101101011101",
        "100000100001001000001",
        "111111101010101111111",
        "000000000000000000000",
        "101010100010100010010",
        "110100001011010100010",
        "000110111011011101110",
        "110011010101110110010",
        "001001110111011100001",
        "000000001010001000010",
        "111111100000100010001",
        "100000100010001001011",
        "101110101110101011101",
        "101110100101010101110",
        "101110101101011100101",
        "100000100001110111000",
        "111111101001011100101",
    ]);
}

#[test]
fn hi_matrix() {
    let matrix = encode(b"Hi", ErrorCorrectionLevel::L).unwrap();
    assert_eq!(rows_of(&matrix), vec![
        "111111101111101111111",
        "100000101101101000001",
        "101110100111001011101",
        "101110100101101011101",
        "101110101000101011101",
        "100000101010001000001",
        "111111101010101111111",
        "000000001111000000000",
        "111001101111111110011",
        "101010011100000000101",
        "011111110000001000101",
        "111010011110100010000",
        "001110100110001001110",
        "000000001011011101100",
        "111111100001110111001",
        "100000101011011101101",
        "101110100111111111111",
        "101110100100000000000",
        "101110101010001000111",
        "100000101100100010000",
        "111111101110001000101",
    ]);
}

#[test]
fn two_blocks_are_interleaved() {
    let (version, data, error_correction) = codewords_of("Lorem ipsum dolor sit amet, consectetur adipiscing elit, sed do eiusmod tempor incididunt ut labore et dolore magna aliqua. Ut enim ad minim veniam, quis nostrud exercitation ullamco laboris nisi ut aliquip ex ea commodo consequat.", ErrorCorrectionLevel::Q);
    assert_eq!(version, 13);
    assert_eq!(data.len(), 244);
    assert_eq!(error_correction.len(), 12);
    let matrix = create_qr_code("Lorem ipsum dolor sit amet, consectetur adipiscing elit, sed do eiusmod tempor incididunt ut labore et dolore magna aliqua. Ut enim ad minim veniam, quis nostrud exercitation ullamco laboris nisi ut aliquip ex ea commodo consequat.", ErrorCorrectionLevel::Q).unwrap();
    assert_eq!(matrix.size(), 17 + 4 * 13);
    assert_eq!(rows_of(&matrix), vec![
        "111111101000100011111010000010011100110101100001100100100111101111111",
        "100000100010100000101101111011110011101000011111101000010100001000001",
        "101110100100100010001110110111111000111111110100010110101110001011101",
        "101110100111100010000110010011001110001100100101110001110000101011101",
        "101110101010011101111100100111101111111101110001000001100010101011101",
        "100000101111000010100010001010101000100000000010101010011110001000001",
        "111111101010101010101010101010101010101010101010101010101010101111111",
        "000000000101100111010011010000101000111111101000011110111111000000000",
        "011111110101000001100000101010111111100000110101101000010001000110001",
        "000111010011001101111000110010110000110100110100110111100001110001101",
        "100000101001110010010100010100101100101010011110101010010011101001100",
        "000111010110001010110001100000000000100011001100100111011001100011101",
        "111001101110000001011001000100010100100001100001000001010000000000000",
        "110011010111111011101101001110110101110011110000010011110001110000101",
        "011010100010100111110110101111110110001101001111011101001011111000110",
        "101110000001101111010101111001001100011110101100010011101001110111111",
        "111101110100101101000111101011100111111001100101100001110000000000000",
        "100101000110101010000010100111000111100001101000110011111000100111101",
        "111111100000000111010011001110011001001110011110101101000110001011111",
        "111000000010101000010100100101110101000110101110000100101011011110100",
        "100110111111100011110010110001001010110001110001111101100000011000000",
        "001111011100100110110001000000001101100000100000000111100001100100001",
        "000100100101111000111011000000110100110100000011001011010110101101110",
        "100101001011001111111110101110000001100010101110010110001100100111100",
        "110001111101000001101100001100100110011000100001110001110100010001000",
        "111110011010010000110010001111101100110011100000110101100001110000001",
        "010111101110110101101001100101111110101010010111101101000111111101110",
        "011000011101111001010001000110011011010011001110011011001100011111110",
        "000011111100101111011110110100101001001000010001101000110100001100000",
        "010010011010110001011000010010110011000011101001111000110000110100101",
        "010101111110001010100100000111100111011010011011100110010111011000010",
        "011101001100010110110100010000010010001010101100010010101001011111110",
        "000011111110101101011010010011001111110000110010110001010101111111000",
        "110010001110100011100000110000111000100101100001110001100001100011011",
        "101110101101010110101010110111011010110101011111001110000111101011110",
        "010110001100110000100100110001111000110010101100011111101000100011100",
        "110111111001000110010000110011111111110000110001111101110101111110010",
        "111001011110101111111110011001101101010101110101110101101000111001001",
        "101011100101000010011001111111100101101001010001001011000111110100110",
        "110111001010000011101100010001010101100111011001010111111101011011101",
        "010110100100000001001101000011001010001101110101111001110100000110011",
        "101110001111001000111100011111010001010111110001100001110000100000101",
        "110010111110010010110111111001101100001100001111101000010000110011010",
        "001000011010110011100010011101111011011001011000011111001011001011100",
        "100011111111011100010011001100010000100100010000111001010110110010011",
        "000100001011100101111100001010000001011001011000110111110001100001101",
        "110100101100011001110110100110100100000100100111101101001110110001010",
        "001110011101100100011111100011011010011111001010000010111111001111101",
        "001001110000100001011111110000001011101001010101100000110100010110100",
        "010110000101011110010110001001001111101011111000110111110001100000001",
        "100110111111110001111101100010110101101011011110111010010110110011100",
        "111010010111110101010110010100101000001011100001000111001101001101101",
        "100111101101110111001111111110101110001001111101100001110000000111000",
        "000000001100100111110011111101101110001001101000010010111000011000101",
        "111001110011000111110001010000101010001001011111001100011110110000110",
        "111110011010011110000110100100000111011111001100001110101101001001111",
        "101111101011011000001010010010100011010000110100110001010100110110000",
        "101101011010010011010101011101111000100000111001110001110100100101111",
        "101011100011001111000010110001001001110000011111001110001110100000110",
        "100000001001110111010000101011101000010010101001100110101101001010110",
        "100110111001100111111100010101101111101000110010110000010000111110010",
        "000000001010111001011101111011001000100011111001110101110000100010011",
        "111111101101110110001001110111111010101010000110111100010010101011110",
        "100000101100110000001010001010001000101110101100000010011010100011100",
        "101110101010111010010101100110011111101000010000110000110000111110000",
        "101110101010001101101111111001110111101001111001110100110100000010100",
        "101110101100110001100101000100110110000010011110111100001111110000100",
        "100000101000011001010010001001100011101110101100000111111000000001100",
        "111111100101001101110111110000100011101000100011100100110001101100010",
    ]);
}

#[test]
fn text_outside_ascii_is_unsupported() {
    assert_eq!(
        create_qr_code("gr\u{fc}n", ErrorCorrectionLevel::L).err(),
        Some(QrError::UnsupportedCharacter)
    );
    assert_eq!(encode(&[72, 200], ErrorCorrectionLevel::L).err(), Some(QrError::UnsupportedCharacter));
}

#[test]
fn text_beyond_version_forty_is_too_large() {
    let digits = "7".repeat(7090);
    assert_eq!(
        create_qr_code(&digits, ErrorCorrectionLevel::L).err(),
        Some(QrError::PayloadTooLarge)
    );
    let digits = "7".repeat(7089);
    let matrix = create_qr_code(&digits, ErrorCorrectionLevel::L).unwrap();
    assert_eq!(matrix.size(), 177);
    let letters = "A".repeat(1853);
    assert_eq!(
        create_qr_code(&letters, ErrorCorrectionLevel::H).err(),
        Some(QrError::PayloadTooLarge)
    );
}

#[test]
fn every_version_has_a_cell_for_every_bit() {
    for version in 1..=40usize {
        let (_, reservations) = function_patterns(17 + 4 * version);
        assert_eq!(
            count_free(&reservations),
            8 * get_total_codewords(version) + get_remainder_bits(version)
        );
    }
}

#[test]
fn stream_has_a_bit_for_every_cell() {
    for (text, level) in [
        ("HELLO WORLD", ErrorCorrectionLevel::Q),
        ("01234567", ErrorCorrectionLevel::M),
        ("Hi", ErrorCorrectionLevel::L),
        ("Lorem ipsum dolor sit amet, consectetur adipiscing elit, sed do eiusmod tempor incididunt ut labore et dolore magna aliqua. Ut enim ad minim veniam, quis nostrud exercitation ullamco laboris nisi ut aliquip ex ea commodo consequat.", ErrorCorrectionLevel::H),
    ] {
        let mut symbol = QRMode::analyze_data(text, level).unwrap();
        let version = symbol.version();
        let bits = symbol.encode();
        assert_eq!(bits.len(), 8 * level.get_num_codewords(version));
        let blocks = symbol.generate_error_correction(bits);
        let total: usize = blocks.0.iter().map(|b| b.len()).sum();
        assert_eq!(total, level.get_num_codewords(version));
        for block in blocks.1.iter() {
            assert_eq!(block.len(), level.get_num_error_correction_codewords(version));
        }
        let stream = symbol.structure_codewords(blocks);
        assert_eq!(
            stream.len(),
            8 * get_total_codewords(version) + get_remainder_bits(version)
        );
    }
}

#[test]
fn a_mask_applied_twice_is_undone() {
    let matrix = create_qr_code("HELLO WORLD", ErrorCorrectionLevel::Q).unwrap();
    let (_, reservations) = function_patterns(21);
    for mask in 0..8u32 {
        let mut twice = matrix.duplicate();
        mask_data(&mut twice, &reservations, mask);
        assert_ne!(rows_of(&twice), rows_of(&matrix));
        mask_data(&mut twice, &reservations, mask);
        assert_eq!(rows_of(&twice), rows_of(&matrix));
    }
}

#[test]
fn format_and_version_words() {
    assert_eq!(format_information(&ErrorCorrectionLevel::L, 0), 0x77C4);
    assert_eq!(format_information(&ErrorCorrectionLevel::M, 0), 0x5412);
    assert_eq!(format_information(&ErrorCorrectionLevel::Q, 0), 0x355F);
    assert_eq!(format_information(&ErrorCorrectionLevel::H, 0), 0x1689);
    assert_eq!(format_information(&ErrorCorrectionLevel::M, 5), 0x40CE);
    assert_eq!(format_information(&ErrorCorrectionLevel::H, 7), 0x083B);
    assert_eq!(ErrorCorrectionLevel::L.get_format_mask_bits(), 0x77C4);
    assert_eq!(ErrorCorrectionLevel::Q.get_format_mask_bits(), 0x355F);
    assert_eq!(ErrorCorrectionLevel::L.get_format_bits(), 1);
    assert_eq!(ErrorCorrectionLevel::M.get_format_bits(), 0);
    assert_eq!(ErrorCorrectionLevel::Q.get_format_bits(), 3);
    assert_eq!(ErrorCorrectionLevel::H.get_format_bits(), 2);
    assert_eq!(version_information(7), 0x07C94);
    assert_eq!(version_information(40), 0x28C69);
}

#[test]
fn capacities_and_block_layouts() {
    assert_eq!(ErrorCorrectionLevel::L.get_numeric_version_size(1), 41);
    assert_eq!(ErrorCorrectionLevel::L.get_numeric_version_size(40), 7089);
    assert_eq!(ErrorCorrectionLevel::L.get_alpha_numeric_version_size(1), 25);
    assert_eq!(ErrorCorrectionLevel::H.get_alpha_numeric_version_size(40), 1852);
    assert_eq!(ErrorCorrectionLevel::L.get_byte_version_size(40), 2953);
    assert_eq!(ErrorCorrectionLevel::Q.get_num_codewords(1), 13);
    assert_eq!(ErrorCorrectionLevel::Q.get_num_error_correction_codewords(1), 13);
    assert_eq!(ErrorCorrectionLevel::Q.get_block_data(5), (2, 15, 2, 16));
    assert_eq!(ErrorCorrectionLevel::H.get_block_data(40), (20, 15, 61, 16));
    assert_eq!(ErrorCorrectionLevel::L.get_block_data(1), (1, 19, 0, 0));
    for level in [
        ErrorCorrectionLevel::L,
        ErrorCorrectionLevel::M,
        ErrorCorrectionLevel::Q,
        ErrorCorrectionLevel::H,
    ] {
        for version in 1..=40usize {
            let (g1, s1, g2, s2) = level.get_block_data(version);
            assert_eq!(g1 * s1 + g2 * s2, level.get_num_codewords(version));
            assert_eq!(
                level.get_num_codewords(version)
                    + (g1 + g2) * level.get_num_error_correction_codewords(version),
                get_total_codewords(version)
            );
        }
    }
}

#[test]
fn a_capacity_is_the_largest_count_that_fits() {
    for level in [
        ErrorCorrectionLevel::L,
        ErrorCorrectionLevel::M,
        ErrorCorrectionLevel::Q,
        ErrorCorrectionLevel::H,
    ] {
        for version in 1..=40usize {
            let numeric = level.get_numeric_version_size(version);
            let alphanumeric = level.get_alpha_numeric_version_size(version);
            let bytes = level.get_byte_version_size(version);
            assert!(fits_version(Mode::Numeric, numeric, level, version));
            assert!(!fits_version(Mode::Numeric, numeric + 1, level, version));
            assert!(fits_version(Mode::Alphanumeric, alphanumeric, level, version));
            assert!(!fits_version(Mode::Alphanumeric, alphanumeric + 1, level, version));
            assert!(fits_version(Mode::Byte, bytes, level, version));
            assert!(!fits_version(Mode::Byte, bytes + 1, level, version));
        }
    }
}

#[test]
fn smallest_version_grows_with_the_payload() {
    assert_eq!(smallest_version(Mode::Numeric, 0, ErrorCorrectionLevel::H), Some(1));
    assert_eq!(smallest_version(Mode::Numeric, 41, ErrorCorrectionLevel::L), Some(1));
    assert_eq!(smallest_version(Mode::Numeric, 42, ErrorCorrectionLevel::L), Some(2));
    assert_eq!(smallest_version(Mode::Alphanumeric, 16, ErrorCorrectionLevel::Q), Some(1));
    assert_eq!(smallest_version(Mode::Alphanumeric, 17, ErrorCorrectionLevel::Q), Some(2));
    assert_eq!(smallest_version(Mode::Byte, 2953, ErrorCorrectionLevel::L), Some(40));
    assert_eq!(smallest_version(Mode::Byte, 2954, ErrorCorrectionLevel::L), None);
    assert_eq!(smallest_version(Mode::Numeric, 3057, ErrorCorrectionLevel::H), Some(40));
    assert_eq!(smallest_version(Mode::Numeric, 3058, ErrorCorrectionLevel::H), None);
}

#[test]
fn texts_are_told_apart_by_their_characters() {
    assert!(is_numeric("0123456789"));
    assert!(is_numeric(""));
    assert!(!is_numeric("12A"));
    assert!(!is_numeric("1 2"));
    assert!(is_alphanumeric("HELLO WORLD"));
    assert!(is_alphanumeric("0123456789ABCDEFGHIJKLMNOPQRSTUVWXYZ $%*+-./:"));
    assert!(!is_alphanumeric("hello"));
    assert!(!is_alphanumeric("A,B"));
    assert_eq!(classify(b"2024"), Some(Mode::Numeric));
    assert_eq!(classify(b"A-1"), Some(Mode::Alphanumeric));
    assert_eq!(classify(b"a-1"), Some(Mode::Byte));
    assert_eq!(classify(&[0x80]), None);
}

#[test]
fn characters_have_their_table_values() {
    assert_eq!(value_of_character(Mode::Numeric, b'7'), 7);
    assert_eq!(value_of_character(Mode::Alphanumeric, b'0'), 0);
    assert_eq!(value_of_character(Mode::Alphanumeric, b'A'), 10);
    assert_eq!(value_of_character(Mode::Alphanumeric, b'Z'), 35);
    assert_eq!(value_of_character(Mode::Alphanumeric, b' '), 36);
    assert_eq!(value_of_character(Mode::Alphanumeric, b'$'), 37);
    assert_eq!(value_of_character(Mode::Alphanumeric, b'%'), 38);
    assert_eq!(value_of_character(Mode::Alphanumeric, b'*'), 39);
    assert_eq!(value_of_character(Mode::Alphanumeric, b'+'), 40);
    assert_eq!(value_of_character(Mode::Alphanumeric, b'-'), 41);
    assert_eq!(value_of_character(Mode::Alphanumeric, b'.'), 42);
    assert_eq!(value_of_character(Mode::Alphanumeric, b'/'), 43);
    assert_eq!(value_of_character(Mode::Alphanumeric, b':'), 44);
    assert_eq!(value_of_character(Mode::Byte, b'a'), 97);
    assert_eq!(get_count_indicator_width(Mode::Numeric, 1), 10);
    assert_eq!(get_count_indicator_width(Mode::Numeric, 10), 12);
    assert_eq!(get_count_indicator_width(Mode::Numeric, 27), 14);
    assert_eq!(get_count_indicator_width(Mode::Alphanumeric, 9), 9);
    assert_eq!(get_count_indicator_width(Mode::Alphanumeric, 26), 11);
    assert_eq!(get_count_indicator_width(Mode::Alphanumeric, 40), 13);
    assert_eq!(get_count_indicator_width(Mode::Byte, 9), 8);
    assert_eq!(get_count_indicator_width(Mode::Byte, 10), 16);
    assert_eq!(get_count_indicator_width(Mode::Byte, 40), 16);
}

#[test]
fn bits_run_up_and_down_in_stripes() {
    let mut stream = BitString::new();
    for i in 0..208usize {
        stream.push_bit(if i % 3 == 0 || i % 7 == 0 { Bit::One } else { Bit::Zero });
    }
    let (mut placed, reservations) = function_patterns(21);
    assert_eq!(count_free(&reservations), 208);
    place_data_bits(&mut placed, &reservations, &stream);
    let bit = |i: usize| stream.get_bit(i).unwrap();
    // The first stripe runs upwards from the bottom right corner.
    assert_eq!(placed.get(20, 20), bit(0));
    assert_eq!(placed.get(20, 19), bit(1));
    assert_eq!(placed.get(19, 20), bit(2));
    assert_eq!(placed.get(19, 19), bit(3));
    assert_eq!(placed.get(9, 20), bit(22));
    assert_eq!(placed.get(9, 19), bit(23));
    // The second one runs downwards from below the finder pattern.
    assert_eq!(placed.get(9, 18), bit(24));
    assert_eq!(placed.get(9, 17), bit(25));
    assert_eq!(placed.get(20, 18), bit(46));
    assert_eq!(placed.get(20, 17), bit(47));
    // Between the finder patterns a stripe runs the whole height, but for
    // the timing row.
    assert_eq!(placed.get(20, 12), bit(96));
    assert_eq!(placed.get(0, 11), bit(135));
    assert_eq!(placed.get(0, 10), bit(136));
    assert_eq!(placed.get(5, 9), bit(147));
    assert_eq!(placed.get(7, 10), bit(148));
    // The stripe of columns 8 and 7 runs upwards, the next one, left of the
    // timing column, downwards.
    assert_eq!(placed.get(12, 8), bit(176));
    assert_eq!(placed.get(9, 8), bit(182));
    assert_eq!(placed.get(9, 5), bit(184));
    // The last stripe lies left of the timing column and ends the stream.
    assert_eq!(placed.get(9, 1), bit(200));
    assert_eq!(placed.get(12, 0), bit(207));
    // Reserved cells keep their function patterns.
    let (patterns, _) = function_patterns(21);
    for r in 0..21usize {
        for c in 0..21usize {
            if reservations.get(r, c) == Bit::One {
                assert_eq!(placed.get(r, c), patterns.get(r, c));
            }
        }
    }
}
