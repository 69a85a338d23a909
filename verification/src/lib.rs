//! An encoder of QR code symbols.
//!
//! A payload of digits, of alphanumeric characters or of ASCII bytes is
//! encoded at one of the four error-correction levels into the smallest
//! version that holds it. The result is the square matrix of the symbol,
//! one bit for each module.
//!
//! - `bit_utils` holds bits, bit strings and the square bitmap.
//! - `galios` holds the arithmetic of GF(256), polynomials over it and the
//!   Reed-Solomon codewords.
//! - `qr_code` holds the tables of the versions and every step from the
//!   payload to the matrix.

pub mod bit_utils;
pub mod galios;
pub mod qr_code;

pub use bit_utils::bit::Bit;
pub use bit_utils::bit_string::BitString;
pub use bit_utils::bitmap::BitMap;
pub use qr_code::level::ErrorCorrectionLevel;
pub use qr_code::mode::QrError;
pub use qr_code::symbol::QRMode;

use bit_utils::bit_string::pack_bits;
use qr_code::blocks::data_blocks;
use qr_code::blocks::ec_blocks;
use qr_code::blocks::lemma_block_totals;
use qr_code::blocks::structured_stream;
use qr_code::level::data_codewords;
use qr_code::level::lemma_block_layout;
use qr_code::level::remainder_bits;
use qr_code::level::symbol_side;
use qr_code::level::total_codewords;
use qr_code::capacity::lemma_data_capacity;
use qr_code::matrix::data_capacity;
use qr_code::matrix::symbol_matrix;
use qr_code::mode::character_values;
use qr_code::mode::chosen_version;
use qr_code::mode::fits_nowhere;
use qr_code::mode::lemma_smallest_fit_unique;
use qr_code::mode::payload_mode;
use qr_code::mode::Mode;
use qr_code::symbol::encoded_stream;
use vstd::prelude::*;
use vstd::string::StringSliceAdditionalSpecFns;

verus! {

/// The bits of a symbol in the order of their placement: the stream of
/// data codewords cut into blocks, the blocks and their error-correction
/// codewords interleaved, and the remainder bits.
pub open spec fn symbol_stream(
    mode: Mode,
    values: Seq<u8>,
    version: int,
    level: ErrorCorrectionLevel,
) -> Seq<bool> {
    let codewords = pack_bits(encoded_stream(mode, values, version, level));
    structured_stream(
        data_blocks(codewords, level, version),
        ec_blocks(codewords, level, version),
        version,
    )
}

/// The matrix of the symbol of a payload that has a mode and fits a
/// version at the level.
pub open spec fn qr_matrix(payload: Seq<u8>, level: ErrorCorrectionLevel) -> Seq<Seq<bool>> {
    let mode = payload_mode(payload)->0;
    let version = chosen_version(mode, payload.len() as int, level);
    symbol_matrix(
        symbol_stream(mode, character_values(mode, payload), version, level),
        symbol_side(version),
        level,
    )
}

/// The side of the symbol of a payload that has a mode and fits a version
/// at the level.
pub open spec fn qr_side(payload: Seq<u8>, level: ErrorCorrectionLevel) -> int {
    symbol_side(chosen_version(payload_mode(payload)->0, payload.len() as int, level))
}

/// The stream of a symbol has eight bits for each codeword of its version,
/// data and error correction together, and the remainder bits.
pub proof fn lemma_symbol_stream_len(
    mode: Mode,
    values: Seq<u8>,
    version: int,
    level: ErrorCorrectionLevel,
)
    requires
        1 <= version <= 40,
    ensures
        symbol_stream(mode, values, version, level).len() == 8 * total_codewords(version)
            + remainder_bits(version),
{
    lemma_block_layout(level, version);
    let codewords = pack_bits(encoded_stream(mode, values, version, level));
    assert(codewords.len() == data_codewords(level, version));
    lemma_block_totals(codewords, level, version);
    qr_code::blocks::lemma_interleave_len(data_blocks(codewords, level, version));
    qr_code::blocks::lemma_interleave_len(ec_blocks(codewords, level, version));
}

/// The stream of a symbol has a bit for every cell of the symbol that is
/// not reserved, and no more.
pub proof fn lemma_stream_fills_symbol(
    mode: Mode,
    values: Seq<u8>,
    version: int,
    level: ErrorCorrectionLevel,
)
    requires
        1 <= version <= 40,
    ensures
        symbol_stream(mode, values, version, level).len() == data_capacity(symbol_side(version)),
{
    lemma_symbol_stream_len(mode, values, version, level);
    lemma_data_capacity(version);
}

/// The symbol of the bytes of a payload at an error-correction level. A
/// payload with a byte outside ASCII is refused as unsupported, one that no
/// version holds as too large.
pub fn encode(payload: &[u8], error_correction_level: ErrorCorrectionLevel) -> (symbol: Result<
    BitMap,
    QrError,
>)
    ensures
        match symbol {
            Ok(bit_map) => {
                &&& payload_mode(payload@) is Some
                &&& !fits_nowhere(
                    payload_mode(payload@)->0,
                    payload@.len() as int,
                    error_correction_level,
                )
                &&& bit_map.wf()
                &&& bit_map.side() == qr_side(payload@, error_correction_level)
                &&& bit_map@ == qr_matrix(payload@, error_correction_level)
            },
            Err(QrError::UnsupportedCharacter) => payload_mode(payload@) is None,
            Err(QrError::PayloadTooLarge) => payload_mode(payload@) is Some && fits_nowhere(
                payload_mode(payload@)->0,
                payload@.len() as int,
                error_correction_level,
            ),
        },
{
    let mut qr_code = match QRMode::analyze_bytes(payload, error_correction_level) {
        Ok(described) => described,
        Err(error) => {
            return Err(error);
        },
    };
    let ghost mode = qr_code.mode();
    let ghost version = qr_code.symbol_version();
    let ghost values = qr_code.values();
    proof {
        qr_code.lemma_wf();
        lemma_smallest_fit_unique(mode, payload@.len() as int, error_correction_level, version);
        lemma_block_layout(error_correction_level, version);
        lemma_symbol_stream_len(mode, values, version, error_correction_level);
    }
    let bits = qr_code.encode();
    let ghost codewords = pack_bits(bits@);
    proof {
        assert(codewords.len() == data_codewords(error_correction_level, version));
        lemma_block_totals(codewords, error_correction_level, version);
    }
    let qr_data = qr_code.generate_error_correction(bits);
    let stream = qr_code.structure_codewords(qr_data);
    proof {
        lemma_data_capacity(version);
    }
    Ok(qr_code.create_bit_map(stream))
}

/// The symbol of a text at an error-correction level. A text with a byte
/// outside ASCII is refused as unsupported, one that no version holds as
/// too large.
pub fn create_qr_code(data: &str, error_correction_level: ErrorCorrectionLevel) -> (symbol: Result<
    BitMap,
    QrError,
>)
    ensures
        match symbol {
            Ok(bit_map) => {
                &&& payload_mode(data.spec_bytes()) is Some
                &&& !fits_nowhere(
                    payload_mode(data.spec_bytes())->0,
                    data.spec_bytes().len() as int,
                    error_correction_level,
                )
                &&& bit_map.wf()
                &&& bit_map.side() == qr_side(data.spec_bytes(), error_correction_level)
                &&& bit_map@ == qr_matrix(data.spec_bytes(), error_correction_level)
            },
            Err(QrError::UnsupportedCharacter) => payload_mode(data.spec_bytes()) is None,
            Err(QrError::PayloadTooLarge) => payload_mode(data.spec_bytes()) is Some
                && fits_nowhere(
                payload_mode(data.spec_bytes())->0,
                data.spec_bytes().len() as int,
                error_correction_level,
            ),
        },
{
    encode(data.as_bytes(), error_correction_level)
}

} // verus!
