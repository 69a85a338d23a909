use qr_code::galios::field::galios_256;
use qr_code::galios::field::galios_reduction;
use qr_code::galios::field::get_antilog;
use qr_code::galios::field::get_log;
use qr_code::galios::generator::GeneratorPolynomial;
use qr_code::galios::polynomial::Polynomial;
use qr_code::galios::polynomial::PolynomialData;
use qr_code::galios::reed_solomon::generator_polynomial;
use qr_code::galios::reed_solomon::remainder_codewords;

#[test]
fn test_galios_256() {
    assert_eq!(6, galios_256(261));
}

#[test]
fn test_galios_reduction() {
    assert_eq!(29, galios_reduction(8));
    assert_eq!(58, galios_reduction(9));
    assert_eq!(116, galios_reduction(10));
    assert_eq!(232, galios_reduction(11));
    assert_eq!(205, galios_reduction(12));
}

#[test]
fn test_polynomial_multiply() {
    let mut poly: GeneratorPolynomial = GeneratorPolynomial::from(vec![1, -1]);
    let other_poly: GeneratorPolynomial = GeneratorPolynomial::from(vec![1, -2]);

    poly = poly.multiply_galios_256(&other_poly);

    assert_eq!(*poly.get(), vec![1, 3, 2]);

    let other_poly: GeneratorPolynomial = GeneratorPolynomial::from(vec![1, -4]);
    poly = poly.multiply_galios_256(&other_poly);

    assert_eq!(*poly.get(), vec![1, 7, 14, 8]);
}

#[test]
fn test_exponent_polynomial_multiply() {
    let mut poly: GeneratorPolynomial = GeneratorPolynomial::from(vec![0, 0]);
    let other_poly: GeneratorPolynomial = GeneratorPolynomial::from(vec![0, 1]);

    poly = poly.multiply_as_exponents(&other_poly);

    assert_eq!(*poly.get(), vec![0, 25, 1]);

    let other_poly: GeneratorPolynomial = GeneratorPolynomial::from(vec![0, 2]);

    poly = poly.multiply_as_exponents(&other_poly);

    assert_eq!(*poly.get(), vec![0, 198, 199, 3]);
}

#[test]
fn test_drop_leading_zeros() {
    let mut poly = Polynomial::from_integer_notation(vec![0, 0, 34, 45]);

    poly.drop_leading_zeros();

    assert_eq!(poly.get_as_integer_vec(), vec![34, 45]);
}

#[test]
fn test_xor() {
    let mut generator = Polynomial::from_integer_notation(vec![
        1, 239, 251, 183, 113, 149, 175, 199, 215, 240, 220, 73, 82, 173, 75, 32, 67, 217, 146,
    ]);

    let mut message = Polynomial::from_integer_notation(vec![
        113, 243, 192, 247, 129, 201, 251, 208, 28, 37, 221, 214, 227, 47, 155, 119, 93, 207,
    ]);

    let mut poly = generator.multiply_by_exponent(message.get_as_exponent_vec()[0]);
    poly = poly.xor(&mut message);
    poly.drop_leading_zeros();
    message = poly;

    poly = generator.multiply_by_exponent(message.get_as_exponent_vec()[0]);
    poly = poly.xor(&mut message);
    poly.drop_leading_zeros();
    assert_eq!(
        poly.get_as_integer_vec(),
        vec![4, 18, 55, 14, 12, 132, 147, 12, 208, 46, 154, 72, 215, 6, 54, 95, 250]
    );
}

#[test]
fn log_and_antilog_undo_each_other() {
    for exponent in 0..255 {
        assert_eq!(get_antilog(get_log(exponent)), exponent);
    }
    for value in 1..=255 {
        assert_eq!(get_log(get_antilog(value)), value);
    }
    assert_eq!(get_antilog(0), 255);
    assert_eq!(get_log(255), 1);
    assert_eq!(get_log(0), 1);
    assert_eq!(get_log(8), 29);
    assert_eq!(get_antilog(29), 8);
    for exponent in 0..300u32 {
        assert_eq!(galios_reduction(exponent) as i32, get_log((exponent % 255) as i32));
    }
    assert_eq!(galios_256(255), 255);
    assert_eq!(galios_256(256), 1);
    assert_eq!(galios_256(0xFFFF), 254);
}

#[test]
fn polynomial_notations() {
    let mut poly = Polynomial::from_integer_notation(vec![1, 2, 0, 29]);
    assert_eq!(poly.len(), 4);
    assert_eq!(poly.get_as_exponent_vec(), vec![0, 1, 255, 8]);
    poly.convert_to_exponent_notation();
    assert_eq!(poly.get_as_integer_vec(), vec![1, 2, 0, 29]);
    assert_eq!(poly.as_exponent_notation().get_as_exponent_vec(), vec![0, 1, 255, 8]);
    poly.convert_to_integer_notation();
    assert_eq!(poly.get_as_integer_vec(), vec![1, 2, 0, 29]);
    let mut from_exponents = Polynomial::from_exponent_notation(vec![0, 25, 255]);
    assert_eq!(from_exponents.get_as_integer_vec(), vec![1, 3, 0]);
    assert_eq!(from_exponents.as_integer_notation().get_as_integer_vec(), vec![1, 3, 0]);
    assert_eq!(from_exponents.duplicate().get_as_exponent_vec(), vec![0, 25, 255]);
}

#[test]
fn polynomial_multiply_and_scale() {
    let mut left = Polynomial::from_exponent_notation(vec![0, 0]);
    let mut right = Polynomial::from_exponent_notation(vec![0, 1]);
    let mut product = left.multiply(&mut right);
    assert_eq!(product.get_as_integer_vec(), vec![1, 3, 2]);
    assert_eq!(product.get_as_exponent_vec(), vec![0, 25, 1]);
    let mut with_zero = Polynomial::from_integer_notation(vec![2, 0, 3]);
    let mut two = Polynomial::from_integer_notation(vec![2]);
    assert_eq!(with_zero.multiply(&mut two).get_as_integer_vec(), vec![4, 0, 6]);
    let mut scaled = with_zero.multiply_by_exponent(1);
    assert_eq!(scaled.get_as_integer_vec(), vec![4, 0, 6]);
    let mut by_zero = with_zero.multiply_by_exponent(255);
    assert_eq!(by_zero.get_as_integer_vec(), vec![0, 0, 0]);
    let mut high = Polynomial::from_integer_notation(vec![128]);
    assert_eq!(high.multiply_by_exponent(1).get_as_integer_vec(), vec![29]);
    assert_eq!(high.multiply_by_exponent(254).get_as_integer_vec(), vec![64]);
}

#[test]
fn polynomial_xor_and_leading_zero() {
    let mut short = Polynomial::from_integer_notation(vec![1, 2]);
    let mut long = Polynomial::from_integer_notation(vec![1, 3, 7]);
    assert_eq!(short.xor(&mut long).get_as_integer_vec(), vec![0, 1, 7]);
    assert_eq!(long.xor(&mut short).get_as_integer_vec(), vec![0, 1, 7]);
    let mut leading = Polynomial::from_integer_notation(vec![0, 0, 5]);
    assert!(leading.drop_leading_zero());
    assert_eq!(leading.get_as_integer_vec(), vec![0, 5]);
    assert!(leading.drop_leading_zero());
    assert!(!leading.drop_leading_zero());
    assert_eq!(leading.get_as_integer_vec(), vec![5]);
    let mut zeros = Polynomial::from_integer_notation(vec![0, 0]);
    zeros.drop_leading_zeros();
    assert_eq!(zeros.len(), 0);
    assert!(!zeros.drop_leading_zero());
}

#[test]
fn polynomial_data_holds_its_numbers() {
    let mut data = PolynomialData::new(vec![3, 1, 4]);
    assert_eq!(data.len(), 3);
    assert_eq!(*data.get(), vec![3, 1, 4]);
    data.get_mut().push(1);
    assert_eq!(*data.get(), vec![3, 1, 4, 1]);
}

#[test]
fn generator_polynomials() {
    assert_eq!(generator_polynomial(1).get_as_exponent_vec(), vec![0, 0]);
    assert_eq!(generator_polynomial(2).get_as_exponent_vec(), vec![0, 25, 1]);
    assert_eq!(
        generator_polynomial(7).get_as_exponent_vec(),
        vec![0, 87, 229, 146, 149, 238, 102, 21]
    );
    assert_eq!(
        generator_polynomial(10).get_as_exponent_vec(),
        vec![0, 251, 67, 46, 61, 118, 70, 64, 94, 32, 45]
    );
}

#[test]
fn reed_solomon_codewords() {
    let mut generator = generator_polynomial(10);
    let message: Vec<u8> = vec![
        0x20, 0x5B, 0x0B, 0x78, 0xD1, 0x72, 0xDC, 0x4D, 0x43, 0x40, 0xEC, 0x11, 0xEC, 0x11, 0xEC,
        0x11,
    ];
    assert_eq!(
        remainder_codewords(&message, &mut generator),
        vec![0xC4, 0x23, 0x27, 0x77, 0xEB, 0xD7, 0xE7, 0xE2, 0x5D, 0x17]
    );
    let zeros: Vec<u8> = vec![0, 0, 0];
    assert_eq!(remainder_codewords(&zeros, &mut generator), vec![0; 10]);
    let one: Vec<u8> = vec![1];
    assert_eq!(
        remainder_codewords(&one, &mut generator),
        vec![216, 194, 159, 111, 199, 94, 95, 113, 157, 193]
    );
}

#[test]
fn codeword_polynomials_vanish_at_the_generator_roots() {
    let message: Vec<u8> = vec![0x40, 0x24, 0x86, 0x90, 0xEC, 0x11, 0xEC, 0x11, 0xEC];
    let mut generator = generator_polynomial(7);
    let codes = remainder_codewords(&message, &mut generator);
    assert_eq!(codes.len(), 7);
    let mut codeword: Vec<i32> = message.iter().map(|b| *b as i32).collect();
    codeword.extend(codes.iter().map(|b| *b as i32));
    for root in 0..7 {
        let mut value: i32 = 0;
        for coefficient in codeword.iter() {
            let scaled = if value == 0 { 0 } else { get_log((get_antilog(value) + root) % 255) };
            value = scaled ^ coefficient;
        }
        assert_eq!(value, 0);
    }
}

#[test]
fn polynomial_as_text() {
    let poly = Polynomial::from_integer_notation(vec![0, 0, 34, 45]);
    assert_eq!(poly.to_string(), "[0, 0, 34, 45] Notation: Integer\n");
    let poly = Polynomial::from_exponent_notation(vec![255, 100, 99, 10, 9]);
    assert_eq!(poly.to_string(), "[255, 100, 99, 10, 9] Notation: Exponent\n");
    let poly = Polynomial::from_integer_notation(vec![]);
    assert_eq!(poly.to_string(), "[] Notation: Integer\n");
    let poly = Polynomial::from_integer_notation(vec![207]);
    assert_eq!(poly.to_string(), "[207] Notation: Integer\n");
}
