//! A payload with its mode, version and level, and its encoding.

use super::level::data_codewords;
use super::level::is_version;
use super::level::lemma_block_layout;
use super::level::ErrorCorrectionLevel;
use super::mode::all_character_values;
use super::mode::character_value;
use super::mode::character_values;
use super::mode::classify;
use super::mode::fits;
use super::mode::fits_nowhere;
use super::mode::get_count_indicator_width;
use super::mode::is_smallest_fit;
use super::mode::payload_mode;
use super::mode::smallest_version;
use super::mode::value_of_character;
use super::mode::Mode;
use super::mode::QrError;
use super::segment::append_alphanumeric;
use super::segment::append_bytes;
use super::segment::append_numeric;
use super::segment::append_padding;
use super::segment::lemma_segment_len;
use super::segment::padded_stream;
use super::segment::segment_bits;
use crate::bit_utils::bit_string::BitString;
use vstd::prelude::*;
use vstd::string::StringSliceAdditionalSpecFns;

verus! {

/// A payload of decimal digits with the version and level of its symbol.
#[derive(Debug, PartialEq, Eq)]
pub struct NumericQrCode {
    data: Vec<u8>,
    version: usize,
    error_correction_level: ErrorCorrectionLevel,
}

/// A payload of alphanumeric characters, held as their table values, with
/// the version and level of its symbol.
#[derive(Debug, PartialEq, Eq)]
pub struct AlphaNumericQrCode {
    data: Vec<u8>,
    version: usize,
    error_correction_level: ErrorCorrectionLevel,
}

/// A payload of bytes with the version and level of its symbol.
#[derive(Debug, PartialEq, Eq)]
pub struct ByteQrCode {
    data: Vec<u8>,
    version: usize,
    error_correction_level: ErrorCorrectionLevel,
}

/// What every kind of symbol data tells of itself.
pub trait QRCode {
    /// The version of the symbol.
    spec fn symbol_version(&self) -> int;

    /// The error-correction level of the symbol.
    spec fn level(&self) -> ErrorCorrectionLevel;

    /// The values of the payload's characters.
    spec fn values(&self) -> Seq<u8>;

    /// The version of the symbol.
    fn version(&self) -> (version: usize)
        ensures
            version == self.symbol_version(),
    ;

    /// The error-correction level of the symbol.
    fn error_correction_level(&self) -> (level: &ErrorCorrectionLevel)
        ensures
            *level == self.level(),
    ;

    /// The values of the payload's characters.
    fn data(&self) -> (data: &Vec<u8>)
        ensures
            data@ == self.values(),
    ;

    /// The number of characters of the payload.
    fn data_len(&self) -> (n: usize)
        ensures
            n == self.values().len(),
    ;
}

impl QRCode for NumericQrCode {
    /// The version of the symbol.
    closed spec fn symbol_version(&self) -> int {
        self.version as int
    }

    /// The error-correction level of the symbol.
    closed spec fn level(&self) -> ErrorCorrectionLevel {
        self.error_correction_level
    }

    /// The digits of the payload.
    closed spec fn values(&self) -> Seq<u8> {
        self.data@
    }

    /// The version of the symbol.
    fn version(&self) -> (version: usize)
    {
        self.version
    }

    /// The error-correction level of the symbol.
    fn error_correction_level(&self) -> (level: &ErrorCorrectionLevel)
    {
        &self.error_correction_level
    }

    /// The digits of the payload.
    fn data(&self) -> (data: &Vec<u8>)
    {
        &self.data
    }

    /// The number of digits.
    fn data_len(&self) -> (n: usize)
    {
        self.data.len()
    }
}

impl QRCode for AlphaNumericQrCode {
    /// The version of the symbol.
    closed spec fn symbol_version(&self) -> int {
        self.version as int
    }

    /// The error-correction level of the symbol.
    closed spec fn level(&self) -> ErrorCorrectionLevel {
        self.error_correction_level
    }

    /// The table values of the payload's characters.
    closed spec fn values(&self) -> Seq<u8> {
        self.data@
    }

    /// The version of the symbol.
    fn version(&self) -> (version: usize)
    {
        self.version
    }

    /// The error-correction level of the symbol.
    fn error_correction_level(&self) -> (level: &ErrorCorrectionLevel)
    {
        &self.error_correction_level
    }

    /// The table values of the payload's characters.
    fn data(&self) -> (data: &Vec<u8>)
    {
        &self.data
    }

    /// The number of characters.
    fn data_len(&self) -> (n: usize)
    {
        self.data.len()
    }
}

impl QRCode for ByteQrCode {
    /// The version of the symbol.
    closed spec fn symbol_version(&self) -> int {
        self.version as int
    }

    /// The error-correction level of the symbol.
    closed spec fn level(&self) -> ErrorCorrectionLevel {
        self.error_correction_level
    }

    /// The bytes of the payload.
    closed spec fn values(&self) -> Seq<u8> {
        self.data@
    }

    /// The version of the symbol.
    fn version(&self) -> (version: usize)
    {
        self.version
    }

    /// The error-correction level of the symbol.
    fn error_correction_level(&self) -> (level: &ErrorCorrectionLevel)
    {
        &self.error_correction_level
    }

    /// The bytes of the payload.
    fn data(&self) -> (data: &Vec<u8>)
    {
        &self.data
    }

    /// The number of bytes.
    fn data_len(&self) -> (n: usize)
    {
        self.data.len()
    }
}

/// A payload in its mode, with the version and level of its symbol.
#[derive(Debug, PartialEq, Eq)]
pub enum QRMode {
    Numeric(NumericQrCode),
    AlphaNumeric(AlphaNumericQrCode),
    Byte(ByteQrCode),
}

/// The stream of data codewords of a symbol: its segment, filled up to the
/// data codewords of its version and level.
pub open spec fn encoded_stream(
    mode: Mode,
    data: Seq<u8>,
    version: int,
    level: ErrorCorrectionLevel,
) -> Seq<bool> {
    padded_stream(segment_bits(mode, data, version), 8 * data_codewords(level, version))
}

impl QRMode {
    /// The mode of the payload.
    pub closed spec fn mode(&self) -> Mode {
        match self {
            QRMode::Numeric(_) => Mode::Numeric,
            QRMode::AlphaNumeric(_) => Mode::Alphanumeric,
            QRMode::Byte(_) => Mode::Byte,
        }
    }

    /// The version of the symbol.
    pub closed spec fn symbol_version(&self) -> int {
        match self {
            QRMode::Numeric(code) => code.version as int,
            QRMode::AlphaNumeric(code) => code.version as int,
            QRMode::Byte(code) => code.version as int,
        }
    }

    /// The error-correction level of the symbol.
    pub closed spec fn level(&self) -> ErrorCorrectionLevel {
        match self {
            QRMode::Numeric(code) => code.error_correction_level,
            QRMode::AlphaNumeric(code) => code.error_correction_level,
            QRMode::Byte(code) => code.error_correction_level,
        }
    }

    /// The character values of the payload.
    pub closed spec fn values(&self) -> Seq<u8> {
        match self {
            QRMode::Numeric(code) => code.data@,
            QRMode::AlphaNumeric(code) => code.data@,
            QRMode::Byte(code) => code.data@,
        }
    }

    /// The version is one of the forty, the values are character values of
    /// the mode, and the payload fits the version at the level.
    pub closed spec fn wf(&self) -> bool {
        &&& is_version(self.symbol_version())
        &&& all_character_values(self.mode(), self.values())
        &&& fits(self.mode(), self.values().len() as int, self.level(), self.symbol_version())
    }

    /// What a well-formed symbol description holds.
    pub proof fn lemma_wf(&self)
        requires
            self.wf(),
        ensures
            is_version(self.symbol_version()),
            all_character_values(self.mode(), self.values()),
            fits(self.mode(), self.values().len() as int, self.level(), self.symbol_version()),
    {
    }

    /// Whether this is the symbol description of a payload at a level: its
    /// mode is the payload's, its values are the payload's character
    /// values, and its version is the smallest that they fit.
    pub open spec fn describes(&self, payload: Seq<u8>, level: ErrorCorrectionLevel) -> bool {
        &&& self.wf()
        &&& payload_mode(payload) == Some(self.mode())
        &&& self.values() == character_values(self.mode(), payload)
        &&& self.level() == level
        &&& is_smallest_fit(
            self.mode(),
            payload.len() as int,
            level,
            self.symbol_version(),
        )
    }

    /// The symbol description of a payload at a level. A payload with a
    /// byte outside ASCII is refused as unsupported, one that no version
    /// holds as too large.
    pub fn analyze_bytes(payload: &[u8], error_correction_level: ErrorCorrectionLevel) -> (symbol:
        Result<QRMode, QrError>)
        ensures
            match symbol {
                Ok(described) => described.describes(payload@, error_correction_level),
                Err(QrError::UnsupportedCharacter) => payload_mode(payload@) is None,
                Err(QrError::PayloadTooLarge) => payload_mode(payload@) is Some && fits_nowhere(
                    payload_mode(payload@)->0,
                    payload@.len() as int,
                    error_correction_level,
                ),
            },
    {
        let mode = match classify(payload) {
            Some(mode) => mode,
            None => {
                return Err(QrError::UnsupportedCharacter);
            },
        };
        let n = payload.len();
        let version = match smallest_version(mode, n, error_correction_level) {
            Some(version) => version,
            None => {
                return Err(QrError::PayloadTooLarge);
            },
        };
        let mut data: Vec<u8> = Vec::new();
        let mut i: usize = 0;
        while i < n
            invariant
                i <= n,
                n == payload@.len(),
                payload_mode(payload@) == Some(mode),
                data@.len() == i,
                forall|k: int| 0 <= k < i ==> #[trigger] data@[k] == character_value(mode, payload@[k]),
                all_character_values(mode, data@),
            decreases n - i,
        {
            data.push(value_of_character(mode, payload[i]));
            i += 1;
        }
        assert(data@ =~= character_values(mode, payload@));
        let symbol = match mode {
            Mode::Numeric => QRMode::Numeric(
                NumericQrCode { data, version, error_correction_level },
            ),
            Mode::Alphanumeric => QRMode::AlphaNumeric(
                AlphaNumericQrCode { data, version, error_correction_level },
            ),
            Mode::Byte => QRMode::Byte(ByteQrCode { data, version, error_correction_level }),
        };
        Ok(symbol)
    }

    /// The symbol description of a text at a level. A text with a byte
    /// outside ASCII is refused as unsupported, one that no version holds as
    /// too large.
    pub fn analyze_data(input: &str, error_correction_level: ErrorCorrectionLevel) -> (symbol:
        Result<QRMode, QrError>)
        ensures
            match symbol {
                Ok(described) => described.describes(input.spec_bytes(), error_correction_level),
                Err(QrError::UnsupportedCharacter) => payload_mode(input.spec_bytes()) is None,
                Err(QrError::PayloadTooLarge) => payload_mode(input.spec_bytes()) is Some
                    && fits_nowhere(
                    payload_mode(input.spec_bytes())->0,
                    input.spec_bytes().len() as int,
                    error_correction_level,
                ),
            },
    {
        QRMode::analyze_bytes(input.as_bytes(), error_correction_level)
    }

    /// The mode of the payload.
    pub fn get_mode(&self) -> (mode: Mode)
        ensures
            mode == self.mode(),
    {
        match self {
            QRMode::Numeric(_) => Mode::Numeric,
            QRMode::AlphaNumeric(_) => Mode::Alphanumeric,
            QRMode::Byte(_) => Mode::Byte,
        }
    }

    /// The version of the symbol.
    pub fn version(&self) -> (version: usize)
        ensures
            version == self.symbol_version(),
    {
        match self {
            QRMode::Numeric(code) => code.version(),
            QRMode::AlphaNumeric(code) => code.version(),
            QRMode::Byte(code) => code.version(),
        }
    }

    /// The error-correction level of the symbol.
    pub fn error_correction_level(&self) -> (level: &ErrorCorrectionLevel)
        ensures
            *level == self.level(),
    {
        match self {
            QRMode::Numeric(code) => code.error_correction_level(),
            QRMode::AlphaNumeric(code) => code.error_correction_level(),
            QRMode::Byte(code) => code.error_correction_level(),
        }
    }

    /// The character values of the payload.
    pub fn data(&self) -> (data: &Vec<u8>)
        ensures
            data@ == self.values(),
    {
        match self {
            QRMode::Numeric(code) => code.data(),
            QRMode::AlphaNumeric(code) => code.data(),
            QRMode::Byte(code) => code.data(),
        }
    }

    /// The stream of data codewords: the mode indicator, the character
    /// count, the data bits, the terminator and the padding, as many bits
    /// as the data codewords of the version and level hold.
    pub fn encode(&mut self) -> (stream: BitString)
        requires
            old(self).wf(),
        ensures
            *final(self) == *old(self),
            stream.wf(),
            stream@ == encoded_stream(
                old(self).mode(),
                old(self).values(),
                old(self).symbol_version(),
                old(self).level(),
            ),
            stream@.len() == 8 * data_codewords(old(self).level(), old(self).symbol_version()),
    {
        let mode = self.get_mode();
        let version = self.version();
        let level = *self.error_correction_level();
        let data = self.data();
        proof {
            lemma_block_layout(level, version as int);
            lemma_segment_len(mode, data@, version as int);
        }
        let width = get_count_indicator_width(mode, version);
        let indicator: u32 = match mode {
            Mode::Numeric => 1,
            Mode::Alphanumeric => 2,
            Mode::Byte => 4,
        };
        let mut bit_string = BitString::new();
        bit_string.append_value(indicator, 4);
        bit_string.append_value(data.len() as u32, width);
        match mode {
            Mode::Numeric => {
                append_numeric(&mut bit_string, data);
            },
            Mode::Alphanumeric => {
                append_alphanumeric(&mut bit_string, data);
            },
            Mode::Byte => {
                append_bytes(&mut bit_string, data);
            },
        }
        assert(bit_string@ =~= segment_bits(mode, data@, version as int));
        let capacity: usize = level.get_num_codewords(version) * 8;
        append_padding(&mut bit_string, capacity);
        bit_string
    }
}

} // verus!
