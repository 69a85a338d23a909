//! The modes of a payload, the length of its segment, and the smallest
//! version that holds it.

use super::level::data_codewords;
use super::level::is_version;
use super::level::lemma_block_layout;
use super::level::ErrorCorrectionLevel;
use vstd::prelude::*;
use vstd::string::StringSliceAdditionalSpecFns;

verus! {

/// How the characters of a payload are packed into bits.
#[derive(Debug, Clone, Copy, PartialEq, Eq, Structural)]
pub enum Mode {
    /// Decimal digits, three to ten bits.
    Numeric,
    /// The 45 characters of the alphanumeric table, two to eleven bits.
    Alphanumeric,
    /// Bytes, eight bits each.
    Byte,
}

/// Why a payload has no symbol.
#[derive(Debug, Clone, Copy, PartialEq, Eq, Structural)]
pub enum QrError {
    /// No version holds the payload at the requested level.
    PayloadTooLarge,
    /// The payload holds a byte outside ASCII.
    UnsupportedCharacter,
}

/// Whether a byte is a decimal digit.
pub open spec fn is_digit_byte(b: u8) -> bool {
    48 <= b <= 57
}

/// Whether a byte is one of the 45 alphanumeric characters: a digit, an
/// upper-case letter, a space, or one of `$%*+-./:`.
pub open spec fn is_alphanumeric_byte(b: u8) -> bool {
    ||| 48 <= b <= 57
    ||| 65 <= b <= 90
    ||| b == 32
    ||| b == 36
    ||| b == 37
    ||| b == 42
    ||| b == 43
    ||| b == 45
    ||| b == 46
    ||| b == 47
    ||| b == 58
}

/// Every byte is a decimal digit.
pub open spec fn all_digits(s: Seq<u8>) -> bool {
    forall|i: int| 0 <= i < s.len() ==> is_digit_byte(#[trigger] s[i])
}

/// Every byte is an alphanumeric character.
pub open spec fn all_alphanumeric(s: Seq<u8>) -> bool {
    forall|i: int| 0 <= i < s.len() ==> is_alphanumeric_byte(#[trigger] s[i])
}

/// Every byte lies in ASCII.
pub open spec fn all_ascii(s: Seq<u8>) -> bool {
    forall|i: int| 0 <= i < s.len() ==> #[trigger] s[i] < 128
}

/// The value of an alphanumeric character in the table of 45: digits come
/// first, then the letters, then space and `$%*+-./:`.
pub open spec fn alphanumeric_value(b: u8) -> int {
    if 48 <= b <= 57 {
        b - 48
    } else if 65 <= b <= 90 {
        b - 55
    } else if b == 32 {
        36
    } else if b == 36 {
        37
    } else if b == 37 {
        38
    } else if b == 42 {
        39
    } else if b == 43 {
        40
    } else if b == 45 {
        41
    } else if b == 46 {
        42
    } else if b == 47 {
        43
    } else {
        44
    }
}

/// The mode of a payload: the densest one whose alphabet holds every byte,
/// and none for a payload with a byte outside ASCII.
pub open spec fn payload_mode(payload: Seq<u8>) -> Option<Mode> {
    if all_digits(payload) {
        Some(Mode::Numeric)
    } else if all_alphanumeric(payload) {
        Some(Mode::Alphanumeric)
    } else if all_ascii(payload) {
        Some(Mode::Byte)
    } else {
        None
    }
}

/// The value that stands for a payload byte in a mode: the digit, the
/// place in the alphanumeric table, or the byte itself.
pub open spec fn character_value(mode: Mode, b: u8) -> u8 {
    match mode {
        Mode::Numeric => (b - 48) as u8,
        Mode::Alphanumeric => alphanumeric_value(b) as u8,
        Mode::Byte => b,
    }
}

/// The character values of a payload in a mode.
pub open spec fn character_values(mode: Mode, payload: Seq<u8>) -> Seq<u8> {
    Seq::new(payload.len(), |i: int| character_value(mode, payload[i]))
}

/// Whether a value can stand for a character in a mode.
pub open spec fn is_character_value(mode: Mode, value: u8) -> bool {
    match mode {
        Mode::Numeric => value < 10,
        Mode::Alphanumeric => value < 45,
        Mode::Byte => true,
    }
}

/// Every value can stand for a character in the mode.
pub open spec fn all_character_values(mode: Mode, data: Seq<u8>) -> bool {
    forall|i: int| 0 <= i < data.len() ==> is_character_value(mode, #[trigger] data[i])
}

/// The four bits that announce a mode.
pub open spec fn mode_indicator(mode: Mode) -> int {
    match mode {
        Mode::Numeric => 1,
        Mode::Alphanumeric => 2,
        Mode::Byte => 4,
    }
}

/// The number of bits in which a symbol of the given version states its
/// character count.
pub open spec fn count_indicator_width(mode: Mode, version: int) -> int {
    match mode {
        Mode::Numeric => if version <= 9 {
            10
        } else if version <= 26 {
            12
        } else {
            14
        },
        Mode::Alphanumeric => if version <= 9 {
            9
        } else if version <= 26 {
            11
        } else {
            13
        },
        Mode::Byte => if version <= 9 {
            8
        } else {
            16
        },
    }
}

/// The number of bits that `n` characters take in a mode.
pub open spec fn data_bit_count(mode: Mode, n: int) -> int {
    match mode {
        Mode::Numeric => 10 * (n / 3) + (if n % 3 == 0 {
            0int
        } else if n % 3 == 1 {
            4
        } else {
            7
        }),
        Mode::Alphanumeric => 11 * (n / 2) + (if n % 2 == 0 {
            0int
        } else {
            6
        }),
        Mode::Byte => 8 * n,
    }
}

/// The length in bits of a segment of `n` characters in a symbol of the
/// given version, before terminator and padding.
pub open spec fn encoded_length(mode: Mode, n: int, version: int) -> int {
    4 + count_indicator_width(mode, version) + data_bit_count(mode, n)
}

/// Whether `n` characters fit the data codewords of a version at a level.
pub open spec fn fits(mode: Mode, n: int, level: ErrorCorrectionLevel, version: int) -> bool {
    encoded_length(mode, n, version) <= 8 * data_codewords(level, version)
}

/// Whether `version` is the smallest version that `n` characters fit.
pub open spec fn is_smallest_fit(
    mode: Mode,
    n: int,
    level: ErrorCorrectionLevel,
    version: int,
) -> bool {
    &&& is_version(version)
    &&& fits(mode, n, level, version)
    &&& forall|smaller: int| 1 <= smaller < version ==> !fits(mode, n, level, smaller)
}

/// The smallest version that `n` characters fit.
pub open spec fn chosen_version(mode: Mode, n: int, level: ErrorCorrectionLevel) -> int {
    choose|version: int| is_smallest_fit(mode, n, level, version)
}

/// There is one smallest version at most.
pub proof fn lemma_smallest_fit_unique(
    mode: Mode,
    n: int,
    level: ErrorCorrectionLevel,
    version: int,
)
    requires
        is_smallest_fit(mode, n, level, version),
    ensures
        chosen_version(mode, n, level) == version,
{
    let other = chosen_version(mode, n, level);
    assert(is_smallest_fit(mode, n, level, other));
    if other < version {
        assert(!fits(mode, n, level, other));
    }
    if version < other {
        assert(!fits(mode, n, level, version));
    }
}

/// Whether no version holds `n` characters.
pub open spec fn fits_nowhere(mode: Mode, n: int, level: ErrorCorrectionLevel) -> bool {
    forall|version: int| 1 <= version <= 40 ==> !fits(mode, n, level, version)
}

/// Whether every byte of the text is a decimal digit.
pub fn is_numeric(input: &str) -> (numeric: bool)
    ensures
        numeric == all_digits(input.spec_bytes()),
{
    bytes_are_numeric(input.as_bytes())
}

/// Whether every byte of the text is an alphanumeric character.
pub fn is_alphanumeric(input: &str) -> (alphanumeric: bool)
    ensures
        alphanumeric == all_alphanumeric(input.spec_bytes()),
{
    bytes_are_alphanumeric(input.as_bytes())
}

/// Whether every byte is a decimal digit.
pub fn bytes_are_numeric(payload: &[u8]) -> (numeric: bool)
    ensures
        numeric == all_digits(payload@),
{
    let mut i: usize = 0;
    while i < payload.len()
        invariant
            i <= payload@.len(),
            forall|k: int| 0 <= k < i ==> is_digit_byte(#[trigger] payload@[k]),
        decreases payload@.len() - i,
    {
        let character = payload[i];
        if !(character >= 48 && character <= 57) {
            assert(!is_digit_byte(payload@[i as int]));
            return false;
        }
        i += 1;
    }
    true
}

/// Whether a byte is an alphanumeric character.
pub fn byte_is_alphanumeric(character: u8) -> (alphanumeric: bool)
    ensures
        alphanumeric == is_alphanumeric_byte(character),
{
    character == 32 || (character > 35 && character < 38) || (character > 41 && character < 44)
        || (character > 44 && character < 59) || (character > 64 && character < 91)
}

/// Whether every byte is an alphanumeric character.
pub fn bytes_are_alphanumeric(payload: &[u8]) -> (alphanumeric: bool)
    ensures
        alphanumeric == all_alphanumeric(payload@),
{
    let mut i: usize = 0;
    while i < payload.len()
        invariant
            i <= payload@.len(),
            forall|k: int| 0 <= k < i ==> is_alphanumeric_byte(#[trigger] payload@[k]),
        decreases payload@.len() - i,
    {
        if !byte_is_alphanumeric(payload[i]) {
            assert(!is_alphanumeric_byte(payload@[i as int]));
            return false;
        }
        i += 1;
    }
    true
}

/// Whether every byte lies in ASCII.
pub fn bytes_are_ascii(payload: &[u8]) -> (ascii: bool)
    ensures
        ascii == all_ascii(payload@),
{
    let mut i: usize = 0;
    while i < payload.len()
        invariant
            i <= payload@.len(),
            forall|k: int| 0 <= k < i ==> #[trigger] payload@[k] < 128,
        decreases payload@.len() - i,
    {
        if payload[i] >= 128 {
            return false;
        }
        i += 1;
    }
    true
}

/// The mode of a payload, or none for a payload with a byte outside ASCII.
pub fn classify(payload: &[u8]) -> (mode: Option<Mode>)
    ensures
        mode == payload_mode(payload@),
{
    if bytes_are_numeric(payload) {
        Some(Mode::Numeric)
    } else if bytes_are_alphanumeric(payload) {
        Some(Mode::Alphanumeric)
    } else if bytes_are_ascii(payload) {
        Some(Mode::Byte)
    } else {
        None
    }
}

/// The value that stands for a payload byte in a mode.
pub fn value_of_character(mode: Mode, character: u8) -> (value: u8)
    requires
        mode == Mode::Numeric ==> is_digit_byte(character),
        mode == Mode::Alphanumeric ==> is_alphanumeric_byte(character),
    ensures
        value == character_value(mode, character),
        is_character_value(mode, value),
{
    match mode {
        Mode::Numeric => character - 48,
        Mode::Alphanumeric => {
            if character > 47 && character < 58 {
                character - 48
            } else if character > 64 && character < 91 {
                character - 55
            } else if character == 32 {
                36
            } else if character > 35 && character < 38 {
                character + 1
            } else if character > 41 && character < 44 {
                character - 3
            } else if character > 44 && character < 48 {
                character - 4
            } else {
                44
            }
        },
        Mode::Byte => character,
    }
}

/// The number of bits in which a symbol of `version` states its character
/// count.
pub fn get_count_indicator_width(mode: Mode, version: usize) -> (width: usize)
    ensures
        width == count_indicator_width(mode, version as int),
        8 <= width <= 16,
{
    match mode {
        Mode::Numeric => if version <= 9 {
            10
        } else if version <= 26 {
            12
        } else {
            14
        },
        Mode::Alphanumeric => if version <= 9 {
            9
        } else if version <= 26 {
            11
        } else {
            13
        },
        Mode::Byte => if version <= 9 {
            8
        } else {
            16
        },
    }
}

/// Whether `n` characters fit `version` at `level`.
pub fn fits_version(mode: Mode, n: usize, level: ErrorCorrectionLevel, version: usize) -> (fit: bool)
    requires
        1 <= version <= 40,
    ensures
        fit == fits(mode, n as int, level, version as int),
{
    proof {
        lemma_block_layout(level, version as int);
    }
    let count: u128 = n as u128;
    let data_bits: u128 = match mode {
        Mode::Numeric => 10 * (count / 3) + (if count % 3 == 0 {
            0
        } else if count % 3 == 1 {
            4
        } else {
            7
        }),
        Mode::Alphanumeric => 11 * (count / 2) + (if count % 2 == 0 {
            0
        } else {
            6
        }),
        Mode::Byte => 8 * count,
    };
    let length: u128 = 4 + get_count_indicator_width(mode, version) as u128 + data_bits;
    let capacity: u128 = 8 * (level.get_num_codewords(version) as u128);
    length <= capacity
}

/// The smallest version that `n` characters fit at `level`, or none where
/// no version holds them.
pub fn smallest_version(mode: Mode, n: usize, level: ErrorCorrectionLevel) -> (version: Option<
    usize,
>)
    ensures
        match version {
            Some(v) => is_smallest_fit(mode, n as int, level, v as int),
            None => fits_nowhere(mode, n as int, level),
        },
{
    let mut candidate: usize = 1;
    while candidate <= 40
        invariant
            1 <= candidate <= 41,
            forall|smaller: int| 1 <= smaller < candidate ==> !fits(mode, n as int, level, smaller),
        decreases 41 - candidate,
    {
        if fits_version(mode, n, level, candidate) {
            return Some(candidate);
        }
        candidate += 1;
    }
    None
}

} // verus!
