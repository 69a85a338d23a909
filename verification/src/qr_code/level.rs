//! The error-correction levels and what the tables give for a version at a
//! level.

use super::constants::ALPHA_NUMERIC_H_MAX_CAPACITY;
use super::constants::ALPHA_NUMERIC_L_MAX_CAPACITY;
use super::constants::ALPHA_NUMERIC_M_MAX_CAPACITY;
use super::constants::ALPHA_NUMERIC_Q_MAX_CAPACITY;
use super::constants::BYTE_H_MAX_CAPACITY;
use super::constants::BYTE_L_MAX_CAPACITY;
use super::constants::BYTE_M_MAX_CAPACITY;
use super::constants::BYTE_Q_MAX_CAPACITY;
use super::constants::H_ERROR_CORRECTION_CODE_WORDS;
use super::constants::H_NUM_CODEWORDS;
use super::constants::L_ERROR_CORRECTION_CODE_WORDS;
use super::constants::L_NUM_CODEWORDS;
use super::constants::M_ERROR_CORRECTION_CODE_WORDS;
use super::constants::M_NUM_CODEWORDS;
use super::constants::NUMERIC_H_MAX_CAPACITY;
use super::constants::NUMERIC_L_MAX_CAPACITY;
use super::constants::NUMERIC_M_MAX_CAPACITY;
use super::constants::NUMERIC_Q_MAX_CAPACITY;
use super::constants::NUM_CODE_WORDS_PER_BLOCK_GROUP_1_H;
use super::constants::NUM_CODE_WORDS_PER_BLOCK_GROUP_1_L;
use super::constants::NUM_CODE_WORDS_PER_BLOCK_GROUP_1_M;
use super::constants::NUM_CODE_WORDS_PER_BLOCK_GROUP_1_Q;
use super::constants::NUM_CODE_WORDS_PER_BLOCK_GROUP_2_H;
use super::constants::NUM_CODE_WORDS_PER_BLOCK_GROUP_2_L;
use super::constants::NUM_CODE_WORDS_PER_BLOCK_GROUP_2_M;
use super::constants::NUM_CODE_WORDS_PER_BLOCK_GROUP_2_Q;
use super::constants::NUM_ERROR_CORRECTION_BLOCKS_GROUP_1_H;
use super::constants::NUM_ERROR_CORRECTION_BLOCKS_GROUP_1_L;
use super::constants::NUM_ERROR_CORRECTION_BLOCKS_GROUP_1_M;
use super::constants::NUM_ERROR_CORRECTION_BLOCKS_GROUP_1_Q;
use super::constants::NUM_ERROR_CORRECTION_BLOCKS_GROUP_2_H;
use super::constants::NUM_ERROR_CORRECTION_BLOCKS_GROUP_2_L;
use super::constants::NUM_ERROR_CORRECTION_BLOCKS_GROUP_2_M;
use super::constants::NUM_ERROR_CORRECTION_BLOCKS_GROUP_2_Q;
use super::constants::Q_ERROR_CORRECTION_CODE_WORDS;
use super::constants::Q_NUM_CODEWORDS;
use super::constants::REQUIRED_REMAINDER_BITS;
use super::constants::TOTAL_CODEWORDS;
use vstd::prelude::*;

verus! {

/// How much of a symbol is given to error correction.
#[derive(Debug, Clone, Copy, PartialEq, Eq, Structural)]
pub enum ErrorCorrectionLevel {
    L,
    M,
    Q,
    H,
}

/// Whether `version` names a symbol version.
pub open spec fn is_version(version: int) -> bool {
    1 <= version <= 40
}

/// The side of the symbol of a version, in modules.
pub open spec fn symbol_side(version: int) -> int {
    17 + 4 * version
}

/// The two bits that name a level in the format information.
pub open spec fn format_bits(level: ErrorCorrectionLevel) -> int {
    match level {
        ErrorCorrectionLevel::L => 1,
        ErrorCorrectionLevel::M => 0,
        ErrorCorrectionLevel::Q => 3,
        ErrorCorrectionLevel::H => 2,
    }
}

/// The codewords of a version, data and error correction together.
pub open spec fn total_codewords(version: int) -> int {
    TOTAL_CODEWORDS@[version - 1] as int
}

/// The zero bits that follow the codewords of a version.
pub open spec fn remainder_bits(version: int) -> int {
    REQUIRED_REMAINDER_BITS@[version - 1] as int
}

/// The data codewords of a version at a level.
pub open spec fn data_codewords(level: ErrorCorrectionLevel, version: int) -> int {
    match level {
        ErrorCorrectionLevel::L => L_NUM_CODEWORDS@[version - 1] as int,
        ErrorCorrectionLevel::M => M_NUM_CODEWORDS@[version - 1] as int,
        ErrorCorrectionLevel::Q => Q_NUM_CODEWORDS@[version - 1] as int,
        ErrorCorrectionLevel::H => H_NUM_CODEWORDS@[version - 1] as int,
    }
}

/// The error-correction codewords of each block of a version at a level.
pub open spec fn ec_codewords_per_block(level: ErrorCorrectionLevel, version: int) -> int {
    match level {
        ErrorCorrectionLevel::L => L_ERROR_CORRECTION_CODE_WORDS@[version - 1] as int,
        ErrorCorrectionLevel::M => M_ERROR_CORRECTION_CODE_WORDS@[version - 1] as int,
        ErrorCorrectionLevel::Q => Q_ERROR_CORRECTION_CODE_WORDS@[version - 1] as int,
        ErrorCorrectionLevel::H => H_ERROR_CORRECTION_CODE_WORDS@[version - 1] as int,
    }
}

/// The number of blocks in the first group.
pub open spec fn group1_blocks(level: ErrorCorrectionLevel, version: int) -> int {
    match level {
        ErrorCorrectionLevel::L => NUM_ERROR_CORRECTION_BLOCKS_GROUP_1_L@[version - 1] as int,
        ErrorCorrectionLevel::M => NUM_ERROR_CORRECTION_BLOCKS_GROUP_1_M@[version - 1] as int,
        ErrorCorrectionLevel::Q => NUM_ERROR_CORRECTION_BLOCKS_GROUP_1_Q@[version - 1] as int,
        ErrorCorrectionLevel::H => NUM_ERROR_CORRECTION_BLOCKS_GROUP_1_H@[version - 1] as int,
    }
}

/// The data codewords of each block of the first group.
pub open spec fn group1_block_size(level: ErrorCorrectionLevel, version: int) -> int {
    match level {
        ErrorCorrectionLevel::L => NUM_CODE_WORDS_PER_BLOCK_GROUP_1_L@[version - 1] as int,
        ErrorCorrectionLevel::M => NUM_CODE_WORDS_PER_BLOCK_GROUP_1_M@[version - 1] as int,
        ErrorCorrectionLevel::Q => NUM_CODE_WORDS_PER_BLOCK_GROUP_1_Q@[version - 1] as int,
        ErrorCorrectionLevel::H => NUM_CODE_WORDS_PER_BLOCK_GROUP_1_H@[version - 1] as int,
    }
}

/// The number of blocks in the second group.
pub open spec fn group2_blocks(level: ErrorCorrectionLevel, version: int) -> int {
    match level {
        ErrorCorrectionLevel::L => NUM_ERROR_CORRECTION_BLOCKS_GROUP_2_L@[version - 1] as int,
        ErrorCorrectionLevel::M => NUM_ERROR_CORRECTION_BLOCKS_GROUP_2_M@[version - 1] as int,
        ErrorCorrectionLevel::Q => NUM_ERROR_CORRECTION_BLOCKS_GROUP_2_Q@[version - 1] as int,
        ErrorCorrectionLevel::H => NUM_ERROR_CORRECTION_BLOCKS_GROUP_2_H@[version - 1] as int,
    }
}

/// The data codewords of each block of the second group, zero where the group is empty.
pub open spec fn group2_block_size(level: ErrorCorrectionLevel, version: int) -> int {
    match level {
        ErrorCorrectionLevel::L => NUM_CODE_WORDS_PER_BLOCK_GROUP_2_L@[version - 1] as int,
        ErrorCorrectionLevel::M => NUM_CODE_WORDS_PER_BLOCK_GROUP_2_M@[version - 1] as int,
        ErrorCorrectionLevel::Q => NUM_CODE_WORDS_PER_BLOCK_GROUP_2_Q@[version - 1] as int,
        ErrorCorrectionLevel::H => NUM_CODE_WORDS_PER_BLOCK_GROUP_2_H@[version - 1] as int,
    }
}

/// The most digits that a version holds at a level.
pub open spec fn numeric_capacity(level: ErrorCorrectionLevel, version: int) -> int {
    match level {
        ErrorCorrectionLevel::L => NUMERIC_L_MAX_CAPACITY@[version - 1] as int,
        ErrorCorrectionLevel::M => NUMERIC_M_MAX_CAPACITY@[version - 1] as int,
        ErrorCorrectionLevel::Q => NUMERIC_Q_MAX_CAPACITY@[version - 1] as int,
        ErrorCorrectionLevel::H => NUMERIC_H_MAX_CAPACITY@[version - 1] as int,
    }
}

/// The most alphanumeric characters that a version holds at a level.
pub open spec fn alphanumeric_capacity(level: ErrorCorrectionLevel, version: int) -> int {
    match level {
        ErrorCorrectionLevel::L => ALPHA_NUMERIC_L_MAX_CAPACITY@[version - 1] as int,
        ErrorCorrectionLevel::M => ALPHA_NUMERIC_M_MAX_CAPACITY@[version - 1] as int,
        ErrorCorrectionLevel::Q => ALPHA_NUMERIC_Q_MAX_CAPACITY@[version - 1] as int,
        ErrorCorrectionLevel::H => ALPHA_NUMERIC_H_MAX_CAPACITY@[version - 1] as int,
    }
}

/// The most bytes that a version holds at a level.
pub open spec fn byte_capacity(level: ErrorCorrectionLevel, version: int) -> int {
    match level {
        ErrorCorrectionLevel::L => BYTE_L_MAX_CAPACITY@[version - 1] as int,
        ErrorCorrectionLevel::M => BYTE_M_MAX_CAPACITY@[version - 1] as int,
        ErrorCorrectionLevel::Q => BYTE_Q_MAX_CAPACITY@[version - 1] as int,
        ErrorCorrectionLevel::H => BYTE_H_MAX_CAPACITY@[version - 1] as int,
    }
}

/// The number of blocks of a version at a level.
pub open spec fn block_count(level: ErrorCorrectionLevel, version: int) -> int {
    group1_blocks(level, version) + group2_blocks(level, version)
}

impl ErrorCorrectionLevel {
    /// The two bits that name the level in the format information.
    pub fn get_format_bits(&self) -> (bits: u32)
        ensures
            bits == format_bits(*self),
    {
        match self {
            ErrorCorrectionLevel::L => 0b01,
            ErrorCorrectionLevel::M => 0b00,
            ErrorCorrectionLevel::Q => 0b11,
            ErrorCorrectionLevel::H => 0b10,
        }
    }

    /// The most alphanumeric characters that `version` holds at this level.
    pub fn get_alpha_numeric_version_size(&self, version: usize) -> (n: usize)
        requires
            1 <= version <= 40,
        ensures
            n == alphanumeric_capacity(*self, version as int),
    {
        match self {
            ErrorCorrectionLevel::L => ALPHA_NUMERIC_L_MAX_CAPACITY[version - 1],
            ErrorCorrectionLevel::M => ALPHA_NUMERIC_M_MAX_CAPACITY[version - 1],
            ErrorCorrectionLevel::Q => ALPHA_NUMERIC_Q_MAX_CAPACITY[version - 1],
            ErrorCorrectionLevel::H => ALPHA_NUMERIC_H_MAX_CAPACITY[version - 1],
        }
    }

    /// The most digits that `version` holds at this level.
    pub fn get_numeric_version_size(&self, version: usize) -> (n: usize)
        requires
            1 <= version <= 40,
        ensures
            n == numeric_capacity(*self, version as int),
    {
        match self {
            ErrorCorrectionLevel::L => NUMERIC_L_MAX_CAPACITY[version - 1],
            ErrorCorrectionLevel::M => NUMERIC_M_MAX_CAPACITY[version - 1],
            ErrorCorrectionLevel::Q => NUMERIC_Q_MAX_CAPACITY[version - 1],
            ErrorCorrectionLevel::H => NUMERIC_H_MAX_CAPACITY[version - 1],
        }
    }

    /// The most bytes that `version` holds at this level.
    pub fn get_byte_version_size(&self, version: usize) -> (n: usize)
        requires
            1 <= version <= 40,
        ensures
            n == byte_capacity(*self, version as int),
    {
        match self {
            ErrorCorrectionLevel::L => BYTE_L_MAX_CAPACITY[version - 1],
            ErrorCorrectionLevel::M => BYTE_M_MAX_CAPACITY[version - 1],
            ErrorCorrectionLevel::Q => BYTE_Q_MAX_CAPACITY[version - 1],
            ErrorCorrectionLevel::H => BYTE_H_MAX_CAPACITY[version - 1],
        }
    }

    /// The data codewords of `version` at this level.
    pub fn get_num_codewords(&self, version: usize) -> (n: usize)
        requires
            1 <= version <= 40,
        ensures
            n == data_codewords(*self, version as int),
    {
        match self {
            ErrorCorrectionLevel::L => L_NUM_CODEWORDS[version - 1],
            ErrorCorrectionLevel::M => M_NUM_CODEWORDS[version - 1],
            ErrorCorrectionLevel::Q => Q_NUM_CODEWORDS[version - 1],
            ErrorCorrectionLevel::H => H_NUM_CODEWORDS[version - 1],
        }
    }

    /// The error-correction codewords of each block of `version` at this level.
    pub fn get_num_error_correction_codewords(&self, version: usize) -> (n: usize)
        requires
            1 <= version <= 40,
        ensures
            n == ec_codewords_per_block(*self, version as int),
    {
        match self {
            ErrorCorrectionLevel::L => L_ERROR_CORRECTION_CODE_WORDS[version - 1],
            ErrorCorrectionLevel::M => M_ERROR_CORRECTION_CODE_WORDS[version - 1],
            ErrorCorrectionLevel::Q => Q_ERROR_CORRECTION_CODE_WORDS[version - 1],
            ErrorCorrectionLevel::H => H_ERROR_CORRECTION_CODE_WORDS[version - 1],
        }
    }

    /// The block layout of `version` at this level: the number of blocks of
    /// the first group and the data codewords of each, then the same for the
    /// second group.
    pub fn get_block_data(&self, version: usize) -> (layout: (usize, usize, usize, usize))
        requires
            1 <= version <= 40,
        ensures
            layout.0 == group1_blocks(*self, version as int),
            layout.1 == group1_block_size(*self, version as int),
            layout.2 == group2_blocks(*self, version as int),
            layout.3 == group2_block_size(*self, version as int),
    {
        match self {
            ErrorCorrectionLevel::L => (
                NUM_ERROR_CORRECTION_BLOCKS_GROUP_1_L[version - 1],
                NUM_CODE_WORDS_PER_BLOCK_GROUP_1_L[version - 1],
                NUM_ERROR_CORRECTION_BLOCKS_GROUP_2_L[version - 1],
                NUM_CODE_WORDS_PER_BLOCK_GROUP_2_L[version - 1],
            ),
            ErrorCorrectionLevel::M => (
                NUM_ERROR_CORRECTION_BLOCKS_GROUP_1_M[version - 1],
                NUM_CODE_WORDS_PER_BLOCK_GROUP_1_M[version - 1],
                NUM_ERROR_CORRECTION_BLOCKS_GROUP_2_M[version - 1],
                NUM_CODE_WORDS_PER_BLOCK_GROUP_2_M[version - 1],
            ),
            ErrorCorrectionLevel::Q => (
                NUM_ERROR_CORRECTION_BLOCKS_GROUP_1_Q[version - 1],
                NUM_CODE_WORDS_PER_BLOCK_GROUP_1_Q[version - 1],
                NUM_ERROR_CORRECTION_BLOCKS_GROUP_2_Q[version - 1],
                NUM_CODE_WORDS_PER_BLOCK_GROUP_2_Q[version - 1],
            ),
            ErrorCorrectionLevel::H => (
                NUM_ERROR_CORRECTION_BLOCKS_GROUP_1_H[version - 1],
                NUM_CODE_WORDS_PER_BLOCK_GROUP_1_H[version - 1],
                NUM_ERROR_CORRECTION_BLOCKS_GROUP_2_H[version - 1],
                NUM_CODE_WORDS_PER_BLOCK_GROUP_2_H[version - 1],
            ),
        }
    }
}

/// The codewords of `version`, data and error correction together.
pub fn get_total_codewords(version: usize) -> (n: usize)
    requires
        1 <= version <= 40,
    ensures
        n == total_codewords(version as int),
{
    TOTAL_CODEWORDS[version - 1]
}

/// The zero bits that follow the codewords of `version`.
pub fn get_remainder_bits(version: usize) -> (n: usize)
    requires
        1 <= version <= 40,
    ensures
        n == remainder_bits(version as int),
{
    REQUIRED_REMAINDER_BITS[version - 1]
}

proof fn lemma_product(a: int, b: int, x: int, y: int)
    by (nonlinear_arith)
    requires
        a == x,
        b == y,
    ensures
        a * b == x * y,
{
}

/// The blocks of a layout hold the data codewords between them: the block
/// sizes add up to the data codewords, the second group's blocks are one
/// codeword longer than the first group's, and with the error-correction
/// codewords of every block they fill the version's codewords.
pub proof fn lemma_block_layout(level: ErrorCorrectionLevel, version: int)
    requires
        is_version(version),
    ensures
        group1_blocks(level, version) * group1_block_size(level, version) + group2_blocks(
            level,
            version,
        ) * group2_block_size(level, version) == data_codewords(level, version),
        group1_blocks(level, version) >= 1,
        group1_block_size(level, version) >= 1,
        group2_blocks(level, version) >= 0,
        group2_blocks(level, version) > 0 ==> group2_block_size(level, version)
            == group1_block_size(level, version) + 1,
        group2_blocks(level, version) == 0 ==> group2_block_size(level, version) == 0,
        7 <= ec_codewords_per_block(level, version) <= 30,
        data_codewords(level, version) + block_count(level, version) * ec_codewords_per_block(
            level,
            version,
        ) == total_codewords(version),
        1 <= block_count(level, version) <= 81,
        9 <= data_codewords(level, version) <= 2956,
        26 <= total_codewords(version) <= 3706,
        0 <= remainder_bits(version) <= 7,
{
    match level {
        ErrorCorrectionLevel::L => lemma_block_layout_l(version),
        ErrorCorrectionLevel::M => lemma_block_layout_m(version),
        ErrorCorrectionLevel::Q => lemma_block_layout_q(version),
        ErrorCorrectionLevel::H => lemma_block_layout_h(version),
    }
}

proof fn lemma_block_layout_l(version: int)
    requires
        is_version(version),
    ensures
        NUM_ERROR_CORRECTION_BLOCKS_GROUP_1_L@[version - 1] * NUM_CODE_WORDS_PER_BLOCK_GROUP_1_L@[version
            - 1] + NUM_ERROR_CORRECTION_BLOCKS_GROUP_2_L@[version - 1]
            * NUM_CODE_WORDS_PER_BLOCK_GROUP_2_L@[version - 1] == L_NUM_CODEWORDS@[version - 1],
        NUM_ERROR_CORRECTION_BLOCKS_GROUP_1_L@[version - 1] >= 1,
        NUM_CODE_WORDS_PER_BLOCK_GROUP_1_L@[version - 1] >= 1,
        NUM_ERROR_CORRECTION_BLOCKS_GROUP_2_L@[version - 1] > 0
            ==> NUM_CODE_WORDS_PER_BLOCK_GROUP_2_L@[version - 1]
            == NUM_CODE_WORDS_PER_BLOCK_GROUP_1_L@[version - 1] + 1,
        NUM_ERROR_CORRECTION_BLOCKS_GROUP_2_L@[version - 1] == 0
            ==> NUM_CODE_WORDS_PER_BLOCK_GROUP_2_L@[version - 1] == 0,
        7 <= L_ERROR_CORRECTION_CODE_WORDS@[version - 1] <= 30,
        L_NUM_CODEWORDS@[version - 1] + (NUM_ERROR_CORRECTION_BLOCKS_GROUP_1_L@[version - 1]
            + NUM_ERROR_CORRECTION_BLOCKS_GROUP_2_L@[version - 1])
            * L_ERROR_CORRECTION_CODE_WORDS@[version - 1] == TOTAL_CODEWORDS@[version - 1],
        1 <= NUM_ERROR_CORRECTION_BLOCKS_GROUP_1_L@[version - 1]
            + NUM_ERROR_CORRECTION_BLOCKS_GROUP_2_L@[version - 1] <= 81,
        9 <= L_NUM_CODEWORDS@[version - 1] <= 2956,
        26 <= TOTAL_CODEWORDS@[version - 1] <= 3706,
        0 <= REQUIRED_REMAINDER_BITS@[version - 1] <= 7,
{
    if version == 1 {
        lemma_product(NUM_ERROR_CORRECTION_BLOCKS_GROUP_1_L@[0] as int, NUM_CODE_WORDS_PER_BLOCK_GROUP_1_L@[0] as int, 1, 19);
        lemma_product(NUM_ERROR_CORRECTION_BLOCKS_GROUP_2_L@[0] as int, NUM_CODE_WORDS_PER_BLOCK_GROUP_2_L@[0] as int, 0, 0);
        lemma_product((NUM_ERROR_CORRECTION_BLOCKS_GROUP_1_L@[0] + NUM_ERROR_CORRECTION_BLOCKS_GROUP_2_L@[0]) as int, L_ERROR_CORRECTION_CODE_WORDS@[0] as int, 1, 7);
        assert(NUM_ERROR_CORRECTION_BLOCKS_GROUP_1_L@[0] * NUM_CODE_WORDS_PER_BLOCK_GROUP_1_L@[0] + NUM_ERROR_CORRECTION_BLOCKS_GROUP_2_L@[0] * NUM_CODE_WORDS_PER_BLOCK_GROUP_2_L@[0] == L_NUM_CODEWORDS@[0]);
    }
    if version == 2 {
        lemma_product(NUM_ERROR_CORRECTION_BLOCKS_GROUP_1_L@[1] as int, NUM_CODE_WORDS_PER_BLOCK_GROUP_1_L@[1] as int, 1, 34);
        lemma_product(NUM_ERROR_CORRECTION_BLOCKS_GROUP_2_L@[1] as int, NUM_CODE_WORDS_PER_BLOCK_GROUP_2_L@[1] as int, 0, 0);
        lemma_product((NUM_ERROR_CORRECTION_BLOCKS_GROUP_1_L@[1] + NUM_ERROR_CORRECTION_BLOCKS_GROUP_2_L@[1]) as int, L_ERROR_CORRECTION_CODE_WORDS@[1] as int, 1, 10);
        assert(NUM_ERROR_CORRECTION_BLOCKS_GROUP_1_L@[1] * NUM_CODE_WORDS_PER_BLOCK_GROUP_1_L@[1] + NUM_ERROR_CORRECTION_BLOCKS_GROUP_2_L@[1] * NUM_CODE_WORDS_PER_BLOCK_GROUP_2_L@[1] == L_NUM_CODEWORDS@[1]);
    }
    if version == 3 {
        lemma_product(NUM_ERROR_CORRECTION_BLOCKS_GROUP_1_L@[2] as int, NUM_CODE_WORDS_PER_BLOCK_GROUP_1_L@[2] as int, 1, 55);
        lemma_product(NUM_ERROR_CORRECTION_BLOCKS_GROUP_2_L@[2] as int, NUM_CODE_WORDS_PER_BLOCK_GROUP_2_L@[2] as int, 0, 0);
        lemma_product((NUM_ERROR_CORRECTION_BLOCKS_GROUP_1_L@[2] + NUM_ERROR_CORRECTION_BLOCKS_GROUP_2_L@[2]) as int, L_ERROR_CORRECTION_CODE_WORDS@[2] as int, 1, 15);
        assert(NUM_ERROR_CORRECTION_BLOCKS_GROUP_1_L@[2] * NUM_CODE_WORDS_PER_BLOCK_GROUP_1_L@[2] + NUM_ERROR_CORRECTION_BLOCKS_GROUP_2_L@[2] * NUM_CODE_WORDS_PER_BLOCK_GROUP_2_L@[2] == L_NUM_CODEWORDS@[2]);
    }
    if version == 4 {
        lemma_product(NUM_ERROR_CORRECTION_BLOCKS_GROUP_1_L@[3] as int, NUM_CODE_WORDS_PER_BLOCK_GROUP_1_L@[3] as int, 1, 80);
        lemma_product(NUM_ERROR_CORRECTION_BLOCKS_GROUP_2_L@[3] as int, NUM_CODE_WORDS_PER_BLOCK_GROUP_2_L@[3] as int, 0, 0);
        lemma_product((NUM_ERROR_CORRECTION_BLOCKS_GROUP_1_L@[3] + NUM_ERROR_CORRECTION_BLOCKS_GROUP_2_L@[3]) as int, L_ERROR_CORRECTION_CODE_WORDS@[3] as int, 1, 20);
        assert(NUM_ERROR_CORRECTION_BLOCKS_GROUP_1_L@[3] * NUM_CODE_WORDS_PER_BLOCK_GROUP_1_L@[3] + NUM_ERROR_CORRECTION_BLOCKS_GROUP_2_L@[3] * NUM_CODE_WORDS_PER_BLOCK_GROUP_2_L@[3] == L_NUM_CODEWORDS@[3]);
    }
    if version == 5 {
        lemma_product(NUM_ERROR_CORRECTION_BLOCKS_GROUP_1_L@[4] as int, NUM_CODE_WORDS_PER_BLOCK_GROUP_1_L@[4] as int, 1, 108);
        lemma_product(NUM_ERROR_CORRECTION_BLOCKS_GROUP_2_L@[4] as int, NUM_CODE_WORDS_PER_BLOCK_GROUP_2_L@[4] as int, 0, 0);
        lemma_product((NUM_ERROR_CORRECTION_BLOCKS_GROUP_1_L@[4] + NUM_ERROR_CORRECTION_BLOCKS_GROUP_2_L@[4]) as int, L_ERROR_CORRECTION_CODE_WORDS@[4] as int, 1, 26);
        assert(NUM_ERROR_CORRECTION_BLOCKS_GROUP_1_L@[4] * NUM_CODE_WORDS_PER_BLOCK_GROUP_1_L@[4] + NUM_ERROR_CORRECTION_BLOCKS_GROUP_2_L@[4] * NUM_CODE_WORDS_PER_BLOCK_GROUP_2_L@[4] == L_NUM_CODEWORDS@[4]);
    }
    if version == 6 {
        lemma_product(NUM_ERROR_CORRECTION_BLOCKS_GROUP_1_L@[5] as int, NUM_CODE_WORDS_PER_BLOCK_GROUP_1_L@[5] as int, 2, 68);
        lemma_product(NUM_ERROR_CORRECTION_BLOCKS_GROUP_2_L@[5] as int, NUM_CODE_WORDS_PER_BLOCK_GROUP_2_L@[5] as int, 0, 0);
        lemma_product((NUM_ERROR_CORRECTION_BLOCKS_GROUP_1_L@[5] + NUM_ERROR_CORRECTION_BLOCKS_GROUP_2_L@[5]) as int, L_ERROR_CORRECTION_CODE_WORDS@[5] as int, 2, 18);
        assert(NUM_ERROR_CORRECTION_BLOCKS_GROUP_1_L@[5] * NUM_CODE_WORDS_PER_BLOCK_GROUP_1_L@[5] + NUM_ERROR_CORRECTION_BLOCKS_GROUP_2_L@[5] * NUM_CODE_WORDS_PER_BLOCK_GROUP_2_L@[5] == L_NUM_CODEWORDS@[5]);
    }
    if version == 7 {
        lemma_product(NUM_ERROR_CORRECTION_BLOCKS_GROUP_1_L@[6] as int, NUM_CODE_WORDS_PER_BLOCK_GROUP_1_L@[6] as int, 2, 78);
        lemma_product(NUM_ERROR_CORRECTION_BLOCKS_GROUP_2_L@[6] as int, NUM_CODE_WORDS_PER_BLOCK_GROUP_2_L@[6] as int, 0, 0);
        lemma_product((NUM_ERROR_CORRECTION_BLOCKS_GROUP_1_L@[6] + NUM_ERROR_CORRECTION_BLOCKS_GROUP_2_L@[6]) as int, L_ERROR_CORRECTION_CODE_WORDS@[6] as int, 2, 20);
        assert(NUM_ERROR_CORRECTION_BLOCKS_GROUP_1_L@[6] * NUM_CODE_WORDS_PER_BLOCK_GROUP_1_L@[6] + NUM_ERROR_CORRECTION_BLOCKS_GROUP_2_L@[6] * NUM_CODE_WORDS_PER_BLOCK_GROUP_2_L@[6] == L_NUM_CODEWORDS@[6]);
    }
    if version == 8 {
        lemma_product(NUM_ERROR_CORRECTION_BLOCKS_GROUP_1_L@[7] as int, NUM_CODE_WORDS_PER_BLOCK_GROUP_1_L@[7] as int, 2, 97);
        lemma_product(NUM_ERROR_CORRECTION_BLOCKS_GROUP_2_L@[7] as int, NUM_CODE_WORDS_PER_BLOCK_GROUP_2_L@[7] as int, 0, 0);
        lemma_product((NUM_ERROR_CORRECTION_BLOCKS_GROUP_1_L@[7] + NUM_ERROR_CORRECTION_BLOCKS_GROUP_2_L@[7]) as int, L_ERROR_CORRECTION_CODE_WORDS@[7] as int, 2, 24);
        assert(NUM_ERROR_CORRECTION_BLOCKS_GROUP_1_L@[7] * NUM_CODE_WORDS_PER_BLOCK_GROUP_1_L@[7] + NUM_ERROR_CORRECTION_BLOCKS_GROUP_2_L@[7] * NUM_CODE_WORDS_PER_BLOCK_GROUP_2_L@[7] == L_NUM_CODEWORDS@[7]);
    }
    if version == 9 {
        lemma_product(NUM_ERROR_CORRECTION_BLOCKS_GROUP_1_L@[8] as int, NUM_CODE_WORDS_PER_BLOCK_GROUP_1_L@[8] as int, 2, 116);
        lemma_product(NUM_ERROR_CORRECTION_BLOCKS_GROUP_2_L@[8] as int, NUM_CODE_WORDS_PER_BLOCK_GROUP_2_L@[8] as int, 0, 0);
        lemma_product((NUM_ERROR_CORRECTION_BLOCKS_GROUP_1_L@[8] + NUM_ERROR_CORRECTION_BLOCKS_GROUP_2_L@[8]) as int, L_ERROR_CORRECTION_CODE_WORDS@[8] as int, 2, 30);
        assert(NUM_ERROR_CORRECTION_BLOCKS_GROUP_1_L@[8] * NUM_CODE_WORDS_PER_BLOCK_GROUP_1_L@[8] + NUM_ERROR_CORRECTION_BLOCKS_GROUP_2_L@[8] * NUM_CODE_WORDS_PER_BLOCK_GROUP_2_L@[8] == L_NUM_CODEWORDS@[8]);
    }
    if version == 10 {
        lemma_product(NUM_ERROR_CORRECTION_BLOCKS_GROUP_1_L@[9] as int, NUM_CODE_WORDS_PER_BLOCK_GROUP_1_L@[9] as int, 2, 68);
        lemma_product(NUM_ERROR_CORRECTION_BLOCKS_GROUP_2_L@[9] as int, NUM_CODE_WORDS_PER_BLOCK_GROUP_2_L@[9] as int, 2, 69);
        lemma_product((NUM_ERROR_CORRECTION_BLOCKS_GROUP_1_L@[9] + NUM_ERROR_CORRECTION_BLOCKS_GROUP_2_L@[9]) as int, L_ERROR_CORRECTION_CODE_WORDS@[9] as int, 4, 18);
        assert(NUM_ERROR_CORRECTION_BLOCKS_GROUP_1_L@[9] * NUM_CODE_WORDS_PER_BLOCK_GROUP_1_L@[9] + NUM_ERROR_CORRECTION_BLOCKS_GROUP_2_L@[9] * NUM_CODE_WORDS_PER_BLOCK_GROUP_2_L@[9] == L_NUM_CODEWORDS@[9]);
    }
    if version == 11 {
        lemma_product(NUM_ERROR_CORRECTION_BLOCKS_GROUP_1_L@[10] as int, NUM_CODE_WORDS_PER_BLOCK_GROUP_1_L@[10] as int, 4, 81);
        lemma_product(NUM_ERROR_CORRECTION_BLOCKS_GROUP_2_L@[10] as int, NUM_CODE_WORDS_PER_BLOCK_GROUP_2_L@[10] as int, 0, 0);
        lemma_product((NUM_ERROR_CORRECTION_BLOCKS_GROUP_1_L@[10] + NUM_ERROR_CORRECTION_BLOCKS_GROUP_2_L@[10]) as int, L_ERROR_CORRECTION_CODE_WORDS@[10] as int, 4, 20);
        assert(NUM_ERROR_CORRECTION_BLOCKS_GROUP_1_L@[10] * NUM_CODE_WORDS_PER_BLOCK_GROUP_1_L@[10] + NUM_ERROR_CORRECTION_BLOCKS_GROUP_2_L@[10] * NUM_CODE_WORDS_PER_BLOCK_GROUP_2_L@[10] == L_NUM_CODEWORDS@[10]);
    }
    if version == 12 {
        lemma_product(NUM_ERROR_CORRECTION_BLOCKS_GROUP_1_L@[11] as int, NUM_CODE_WORDS_PER_BLOCK_GROUP_1_L@[11] as int, 2, 92);
        lemma_product(NUM_ERROR_CORRECTION_BLOCKS_GROUP_2_L@[11] as int, NUM_CODE_WORDS_PER_BLOCK_GROUP_2_L@[11] as int, 2, 93);
        lemma_product((NUM_ERROR_CORRECTION_BLOCKS_GROUP_1_L@[11] + NUM_ERROR_CORRECTION_BLOCKS_GROUP_2_L@[11]) as int, L_ERROR_CORRECTION_CODE_WORDS@[11] as int, 4, 24);
        assert(NUM_ERROR_CORRECTION_BLOCKS_GROUP_1_L@[11] * NUM_CODE_WORDS_PER_BLOCK_GROUP_1_L@[11] + NUM_ERROR_CORRECTION_BLOCKS_GROUP_2_L@[11] * NUM_CODE_WORDS_PER_BLOCK_GROUP_2_L@[11] == L_NUM_CODEWORDS@[11]);
    }
    if version == 13 {
        lemma_product(NUM_ERROR_CORRECTION_BLOCKS_GROUP_1_L@[12] as int, NUM_CODE_WORDS_PER_BLOCK_GROUP_1_L@[12] as int, 4, 107);
        lemma_product(NUM_ERROR_CORRECTION_BLOCKS_GROUP_2_L@[12] as int, NUM_CODE_WORDS_PER_BLOCK_GROUP_2_L@[12] as int, 0, 0);
        lemma_product((NUM_ERROR_CORRECTION_BLOCKS_GROUP_1_L@[12] + NUM_ERROR_CORRECTION_BLOCKS_GROUP_2_L@[12]) as int, L_ERROR_CORRECTION_CODE_WORDS@[12] as int, 4, 26);
        assert(NUM_ERROR_CORRECTION_BLOCKS_GROUP_1_L@[12] * NUM_CODE_WORDS_PER_BLOCK_GROUP_1_L@[12] + NUM_ERROR_CORRECTION_BLOCKS_GROUP_2_L@[12] * NUM_CODE_WORDS_PER_BLOCK_GROUP_2_L@[12] == L_NUM_CODEWORDS@[12]);
    }
    if version == 14 {
        lemma_product(NUM_ERROR_CORRECTION_BLOCKS_GROUP_1_L@[13] as int, NUM_CODE_WORDS_PER_BLOCK_GROUP_1_L@[13] as int, 3, 115);
        lemma_product(NUM_ERROR_CORRECTION_BLOCKS_GROUP_2_L@[13] as int, NUM_CODE_WORDS_PER_BLOCK_GROUP_2_L@[13] as int, 1, 116);
        lemma_product((NUM_ERROR_CORRECTION_BLOCKS_GROUP_1_L@[13] + NUM_ERROR_CORRECTION_BLOCKS_GROUP_2_L@[13]) as int, L_ERROR_CORRECTION_CODE_WORDS@[13] as int, 4, 30);
        assert(NUM_ERROR_CORRECTION_BLOCKS_GROUP_1_L@[13] * NUM_CODE_WORDS_PER_BLOCK_GROUP_1_L@[13] + NUM_ERROR_CORRECTION_BLOCKS_GROUP_2_L@[13] * NUM_CODE_WORDS_PER_BLOCK_GROUP_2_L@[13] == L_NUM_CODEWORDS@[13]);
    }
    if version == 15 {
        lemma_product(NUM_ERROR_CORRECTION_BLOCKS_GROUP_1_L@[14] as int, NUM_CODE_WORDS_PER_BLOCK_GROUP_1_L@[14] as int, 5, 87);
        lemma_product(NUM_ERROR_CORRECTION_BLOCKS_GROUP_2_L@[14] as int, NUM_CODE_WORDS_PER_BLOCK_GROUP_2_L@[14] as int, 1, 88);
        lemma_product((NUM_ERROR_CORRECTION_BLOCKS_GROUP_1_L@[14] + NUM_ERROR_CORRECTION_BLOCKS_GROUP_2_L@[14]) as int, L_ERROR_CORRECTION_CODE_WORDS@[14] as int, 6, 22);
        assert(NUM_ERROR_CORRECTION_BLOCKS_GROUP_1_L@[14] * NUM_CODE_WORDS_PER_BLOCK_GROUP_1_L@[14] + NUM_ERROR_CORRECTION_BLOCKS_GROUP_2_L@[14] * NUM_CODE_WORDS_PER_BLOCK_GROUP_2_L@[14] == L_NUM_CODEWORDS@[14]);
    }
    if version == 16 {
        lemma_product(NUM_ERROR_CORRECTION_BLOCKS_GROUP_1_L@[15] as int, NUM_CODE_WORDS_PER_BLOCK_GROUP_1_L@[15] as int, 5, 98);
        lemma_product(NUM_ERROR_CORRECTION_BLOCKS_GROUP_2_L@[15] as int, NUM_CODE_WORDS_PER_BLOCK_GROUP_2_L@[15] as int, 1, 99);
        lemma_product((NUM_ERROR_CORRECTION_BLOCKS_GROUP_1_L@[15] + NUM_ERROR_CORRECTION_BLOCKS_GROUP_2_L@[15]) as int, L_ERROR_CORRECTION_CODE_WORDS@[15] as int, 6, 24);
        assert(NUM_ERROR_CORRECTION_BLOCKS_GROUP_1_L@[15] * NUM_CODE_WORDS_PER_BLOCK_GROUP_1_L@[15] + NUM_ERROR_CORRECTION_BLOCKS_GROUP_2_L@[15] * NUM_CODE_WORDS_PER_BLOCK_GROUP_2_L@[15] == L_NUM_CODEWORDS@[15]);
    }
    if version == 17 {
        lemma_product(NUM_ERROR_CORRECTION_BLOCKS_GROUP_1_L@[16] as int, NUM_CODE_WORDS_PER_BLOCK_GROUP_1_L@[16] as int, 1, 107);
        lemma_product(NUM_ERROR_CORRECTION_BLOCKS_GROUP_2_L@[16] as int, NUM_CODE_WORDS_PER_BLOCK_GROUP_2_L@[16] as int, 5, 108);
        lemma_product((NUM_ERROR_CORRECTION_BLOCKS_GROUP_1_L@[16] + NUM_ERROR_CORRECTION_BLOCKS_GROUP_2_L@[16]) as int, L_ERROR_CORRECTION_CODE_WORDS@[16] as int, 6, 28);
        assert(NUM_ERROR_CORRECTION_BLOCKS_GROUP_1_L@[16] * NUM_CODE_WORDS_PER_BLOCK_GROUP_1_L@[16] + NUM_ERROR_CORRECTION_BLOCKS_GROUP_2_L@[16] * NUM_CODE_WORDS_PER_BLOCK_GROUP_2_L@[16] == L_NUM_CODEWORDS@[16]);
    }
    if version == 18 {
        lemma_product(NUM_ERROR_CORRECTION_BLOCKS_GROUP_1_L@[17] as int, NUM_CODE_WORDS_PER_BLOCK_GROUP_1_L@[17] as int, 5, 120);
        lemma_product(NUM_ERROR_CORRECTION_BLOCKS_GROUP_2_L@[17] as int, NUM_CODE_WORDS_PER_BLOCK_GROUP_2_L@[17] as int, 1, 121);
        lemma_product((NUM_ERROR_CORRECTION_BLOCKS_GROUP_1_L@[17] + NUM_ERROR_CORRECTION_BLOCKS_GROUP_2_L@[17]) as int, L_ERROR_CORRECTION_CODE_WORDS@[17] as int, 6, 30);
        assert(NUM_ERROR_CORRECTION_BLOCKS_GROUP_1_L@[17] * NUM_CODE_WORDS_PER_BLOCK_GROUP_1_L@[17] + NUM_ERROR_CORRECTION_BLOCKS_GROUP_2_L@[17] * NUM_CODE_WORDS_PER_BLOCK_GROUP_2_L@[17] == L_NUM_CODEWORDS@[17]);
    }
    if version == 19 {
        lemma_product(NUM_ERROR_CORRECTION_BLOCKS_GROUP_1_L@[18] as int, NUM_CODE_WORDS_PER_BLOCK_GROUP_1_L@[18] as int, 3, 113);
        lemma_product(NUM_ERROR_CORRECTION_BLOCKS_GROUP_2_L@[18] as int, NUM_CODE_WORDS_PER_BLOCK_GROUP_2_L@[18] as int, 4, 114);
        lemma_product((NUM_ERROR_CORRECTION_BLOCKS_GROUP_1_L@[18] + NUM_ERROR_CORRECTION_BLOCKS_GROUP_2_L@[18]) as int, L_ERROR_CORRECTION_CODE_WORDS@[18] as int, 7, 28);
        assert(NUM_ERROR_CORRECTION_BLOCKS_GROUP_1_L@[18] * NUM_CODE_WORDS_PER_BLOCK_GROUP_1_L@[18] + NUM_ERROR_CORRECTION_BLOCKS_GROUP_2_L@[18] * NUM_CODE_WORDS_PER_BLOCK_GROUP_2_L@[18] == L_NUM_CODEWORDS@[18]);
    }
    if version == 20 {
        lemma_product(NUM_ERROR_CORRECTION_BLOCKS_GROUP_1_L@[19] as int, NUM_CODE_WORDS_PER_BLOCK_GROUP_1_L@[19] as int, 3, 107);
        lemma_product(NUM_ERROR_CORRECTION_BLOCKS_GROUP_2_L@[19] as int, NUM_CODE_WORDS_PER_BLOCK_GROUP_2_L@[19] as int, 5, 108);
        lemma_product((NUM_ERROR_CORRECTION_BLOCKS_GROUP_1_L@[19] + NUM_ERROR_CORRECTION_BLOCKS_GROUP_2_L@[19]) as int, L_ERROR_CORRECTION_CODE_WORDS@[19] as int, 8, 28);
        assert(NUM_ERROR_CORRECTION_BLOCKS_GROUP_1_L@[19] * NUM_CODE_WORDS_PER_BLOCK_GROUP_1_L@[19] + NUM_ERROR_CORRECTION_BLOCKS_GROUP_2_L@[19] * NUM_CODE_WORDS_PER_BLOCK_GROUP_2_L@[19] == L_NUM_CODEWORDS@[19]);
    }
    if version == 21 {
        lemma_product(NUM_ERROR_CORRECTION_BLOCKS_GROUP_1_L@[20] as int, NUM_CODE_WORDS_PER_BLOCK_GROUP_1_L@[20] as int, 4, 116);
        lemma_product(NUM_ERROR_CORRECTION_BLOCKS_GROUP_2_L@[20] as int, NUM_CODE_WORDS_PER_BLOCK_GROUP_2_L@[20] as int, 4, 117);
        lemma_product((NUM_ERROR_CORRECTION_BLOCKS_GROUP_1_L@[20] + NUM_ERROR_CORRECTION_BLOCKS_GROUP_2_L@[20]) as int, L_ERROR_CORRECTION_CODE_WORDS@[20] as int, 8, 28);
        assert(NUM_ERROR_CORRECTION_BLOCKS_GROUP_1_L@[20] * NUM_CODE_WORDS_PER_BLOCK_GROUP_1_L@[20] + NUM_ERROR_CORRECTION_BLOCKS_GROUP_2_L@[20] * NUM_CODE_WORDS_PER_BLOCK_GROUP_2_L@[20] == L_NUM_CODEWORDS@[20]);
    }
    if version == 22 {
        lemma_product(NUM_ERROR_CORRECTION_BLOCKS_GROUP_1_L@[21] as int, NUM_CODE_WORDS_PER_BLOCK_GROUP_1_L@[21] as int, 2, 111);
        lemma_product(NUM_ERROR_CORRECTION_BLOCKS_GROUP_2_L@[21] as int, NUM_CODE_WORDS_PER_BLOCK_GROUP_2_L@[21] as int, 7, 112);
        lemma_product((NUM_ERROR_CORRECTION_BLOCKS_GROUP_1_L@[21] + NUM_ERROR_CORRECTION_BLOCKS_GROUP_2_L@[21]) as int, L_ERROR_CORRECTION_CODE_WORDS@[21] as int, 9, 28);
        assert(NUM_ERROR_CORRECTION_BLOCKS_GROUP_1_L@[21] * NUM_CODE_WORDS_PER_BLOCK_GROUP_1_L@[21] + NUM_ERROR_CORRECTION_BLOCKS_GROUP_2_L@[21] * NUM_CODE_WORDS_PER_BLOCK_GROUP_2_L@[21] == L_NUM_CODEWORDS@[21]);
    }
    if version == 23 {
        lemma_product(NUM_ERROR_CORRECTION_BLOCKS_GROUP_1_L@[22] as int, NUM_CODE_WORDS_PER_BLOCK_GROUP_1_L@[22] as int, 4, 121);
        lemma_product(NUM_ERROR_CORRECTION_BLOCKS_GROUP_2_L@[22] as int, NUM_CODE_WORDS_PER_BLOCK_GROUP_2_L@[22] as int, 5, 122);
        lemma_product((NUM_ERROR_CORRECTION_BLOCKS_GROUP_1_L@[22] + NUM_ERROR_CORRECTION_BLOCKS_GROUP_2_L@[22]) as int, L_ERROR_CORRECTION_CODE_WORDS@[22] as int, 9, 30);
        assert(NUM_ERROR_CORRECTION_BLOCKS_GROUP_1_L@[22] * NUM_CODE_WORDS_PER_BLOCK_GROUP_1_L@[22] + NUM_ERROR_CORRECTION_BLOCKS_GROUP_2_L@[22] * NUM_CODE_WORDS_PER_BLOCK_GROUP_2_L@[22] == L_NUM_CODEWORDS@[22]);
    }
    if version == 24 {
        lemma_product(NUM_ERROR_CORRECTION_BLOCKS_GROUP_1_L@[23] as int, NUM_CODE_WORDS_PER_BLOCK_GROUP_1_L@[23] as int, 6, 117);
        lemma_product(NUM_ERROR_CORRECTION_BLOCKS_GROUP_2_L@[23] as int, NUM_CODE_WORDS_PER_BLOCK_GROUP_2_L@[23] as int, 4, 118);
        lemma_product((NUM_ERROR_CORRECTION_BLOCKS_GROUP_1_L@[23] + NUM_ERROR_CORRECTION_BLOCKS_GROUP_2_L@[23]) as int, L_ERROR_CORRECTION_CODE_WORDS@[23] as int, 10, 30);
        assert(NUM_ERROR_CORRECTION_BLOCKS_GROUP_1_L@[23] * NUM_CODE_WORDS_PER_BLOCK_GROUP_1_L@[23] + NUM_ERROR_CORRECTION_BLOCKS_GROUP_2_L@[23] * NUM_CODE_WORDS_PER_BLOCK_GROUP_2_L@[23] == L_NUM_CODEWORDS@[23]);
    }
    if version == 25 {
        lemma_product(NUM_ERROR_CORRECTION_BLOCKS_GROUP_1_L@[24] as int, NUM_CODE_WORDS_PER_BLOCK_GROUP_1_L@[24] as int, 8, 106);
        lemma_product(NUM_ERROR_CORRECTION_BLOCKS_GROUP_2_L@[24] as int, NUM_CODE_WORDS_PER_BLOCK_GROUP_2_L@[24] as int, 4, 107);
        lemma_product((NUM_ERROR_CORRECTION_BLOCKS_GROUP_1_L@[24] + NUM_ERROR_CORRECTION_BLOCKS_GROUP_2_L@[24]) as int, L_ERROR_CORRECTION_CODE_WORDS@[24] as int, 12, 26);
        assert(NUM_ERROR_CORRECTION_BLOCKS_GROUP_1_L@[24] * NUM_CODE_WORDS_PER_BLOCK_GROUP_1_L@[24] + NUM_ERROR_CORRECTION_BLOCKS_GROUP_2_L@[24] * NUM_CODE_WORDS_PER_BLOCK_GROUP_2_L@[24] == L_NUM_CODEWORDS@[24]);
    }
    if version == 26 {
        lemma_product(NUM_ERROR_CORRECTION_BLOCKS_GROUP_1_L@[25] as int, NUM_CODE_WORDS_PER_BLOCK_GROUP_1_L@[25] as int, 10, 114);
        lemma_product(NUM_ERROR_CORRECTION_BLOCKS_GROUP_2_L@[25] as int, NUM_CODE_WORDS_PER_BLOCK_GROUP_2_L@[25] as int, 2, 115);
        lemma_product((NUM_ERROR_CORRECTION_BLOCKS_GROUP_1_L@[25] + NUM_ERROR_CORRECTION_BLOCKS_GROUP_2_L@[25]) as int, L_ERROR_CORRECTION_CODE_WORDS@[25] as int, 12, 28);
        assert(NUM_ERROR_CORRECTION_BLOCKS_GROUP_1_L@[25] * NUM_CODE_WORDS_PER_BLOCK_GROUP_1_L@[25] + NUM_ERROR_CORRECTION_BLOCKS_GROUP_2_L@[25] * NUM_CODE_WORDS_PER_BLOCK_GROUP_2_L@[25] == L_NUM_CODEWORDS@[25]);
    }
    if version == 27 {
        lemma_product(NUM_ERROR_CORRECTION_BLOCKS_GROUP_1_L@[26] as int, NUM_CODE_WORDS_PER_BLOCK_GROUP_1_L@[26] as int, 8, 122);
        lemma_product(NUM_ERROR_CORRECTION_BLOCKS_GROUP_2_L@[26] as int, NUM_CODE_WORDS_PER_BLOCK_GROUP_2_L@[26] as int, 4, 123);
        lemma_product((NUM_ERROR_CORRECTION_BLOCKS_GROUP_1_L@[26] + NUM_ERROR_CORRECTION_BLOCKS_GROUP_2_L@[26]) as int, L_ERROR_CORRECTION_CODE_WORDS@[26] as int, 12, 30);
        assert(NUM_ERROR_CORRECTION_BLOCKS_GROUP_1_L@[26] * NUM_CODE_WORDS_PER_BLOCK_GROUP_1_L@[26] + NUM_ERROR_CORRECTION_BLOCKS_GROUP_2_L@[26] * NUM_CODE_WORDS_PER_BLOCK_GROUP_2_L@[26] == L_NUM_CODEWORDS@[26]);
    }
    if version == 28 {
        lemma_product(NUM_ERROR_CORRECTION_BLOCKS_GROUP_1_L@[27] as int, NUM_CODE_WORDS_PER_BLOCK_GROUP_1_L@[27] as int, 3, 117);
        lemma_product(NUM_ERROR_CORRECTION_BLOCKS_GROUP_2_L@[27] as int, NUM_CODE_WORDS_PER_BLOCK_GROUP_2_L@[27] as int, 10, 118);
        lemma_product((NUM_ERROR_CORRECTION_BLOCKS_GROUP_1_L@[27] + NUM_ERROR_CORRECTION_BLOCKS_GROUP_2_L@[27]) as int, L_ERROR_CORRECTION_CODE_WORDS@[27] as int, 13, 30);
        assert(NUM_ERROR_CORRECTION_BLOCKS_GROUP_1_L@[27] * NUM_CODE_WORDS_PER_BLOCK_GROUP_1_L@[27] + NUM_ERROR_CORRECTION_BLOCKS_GROUP_2_L@[27] * NUM_CODE_WORDS_PER_BLOCK_GROUP_2_L@[27] == L_NUM_CODEWORDS@[27]);
    }
    if version == 29 {
        lemma_product(NUM_ERROR_CORRECTION_BLOCKS_GROUP_1_L@[28] as int, NUM_CODE_WORDS_PER_BLOCK_GROUP_1_L@[28] as int, 7, 116);
        lemma_product(NUM_ERROR_CORRECTION_BLOCKS_GROUP_2_L@[28] as int, NUM_CODE_WORDS_PER_BLOCK_GROUP_2_L@[28] as int, 7, 117);
        lemma_product((NUM_ERROR_CORRECTION_BLOCKS_GROUP_1_L@[28] + NUM_ERROR_CORRECTION_BLOCKS_GROUP_2_L@[28]) as int, L_ERROR_CORRECTION_CODE_WORDS@[28] as int, 14, 30);
        assert(NUM_ERROR_CORRECTION_BLOCKS_GROUP_1_L@[28] * NUM_CODE_WORDS_PER_BLOCK_GROUP_1_L@[28] + NUM_ERROR_CORRECTION_BLOCKS_GROUP_2_L@[28] * NUM_CODE_WORDS_PER_BLOCK_GROUP_2_L@[28] == L_NUM_CODEWORDS@[28]);
    }
    if version == 30 {
        lemma_product(NUM_ERROR_CORRECTION_BLOCKS_GROUP_1_L@[29] as int, NUM_CODE_WORDS_PER_BLOCK_GROUP_1_L@[29] as int, 5, 115);
        lemma_product(NUM_ERROR_CORRECTION_BLOCKS_GROUP_2_L@[29] as int, NUM_CODE_WORDS_PER_BLOCK_GROUP_2_L@[29] as int, 10, 116);
        lemma_product((NUM_ERROR_CORRECTION_BLOCKS_GROUP_1_L@[29] + NUM_ERROR_CORRECTION_BLOCKS_GROUP_2_L@[29]) as int, L_ERROR_CORRECTION_CODE_WORDS@[29] as int, 15, 30);
        assert(NUM_ERROR_CORRECTION_BLOCKS_GROUP_1_L@[29] * NUM_CODE_WORDS_PER_BLOCK_GROUP_1_L@[29] + NUM_ERROR_CORRECTION_BLOCKS_GROUP_2_L@[29] * NUM_CODE_WORDS_PER_BLOCK_GROUP_2_L@[29] == L_NUM_CODEWORDS@[29]);
    }
    if version == 31 {
        lemma_product(NUM_ERROR_CORRECTION_BLOCKS_GROUP_1_L@[30] as int, NUM_CODE_WORDS_PER_BLOCK_GROUP_1_L@[30] as int, 13, 115);
        lemma_product(NUM_ERROR_CORRECTION_BLOCKS_GROUP_2_L@[30] as int, NUM_CODE_WORDS_PER_BLOCK_GROUP_2_L@[30] as int, 3, 116);
        lemma_product((NUM_ERROR_CORRECTION_BLOCKS_GROUP_1_L@[30] + NUM_ERROR_CORRECTION_BLOCKS_GROUP_2_L@[30]) as int, L_ERROR_CORRECTION_CODE_WORDS@[30] as int, 16, 30);
        assert(NUM_ERROR_CORRECTION_BLOCKS_GROUP_1_L@[30] * NUM_CODE_WORDS_PER_BLOCK_GROUP_1_L@[30] + NUM_ERROR_CORRECTION_BLOCKS_GROUP_2_L@[30] * NUM_CODE_WORDS_PER_BLOCK_GROUP_2_L@[30] == L_NUM_CODEWORDS@[30]);
    }
    if version == 32 {
        lemma_product(NUM_ERROR_CORRECTION_BLOCKS_GROUP_1_L@[31] as int, NUM_CODE_WORDS_PER_BLOCK_GROUP_1_L@[31] as int, 17, 115);
        lemma_product(NUM_ERROR_CORRECTION_BLOCKS_GROUP_2_L@[31] as int, NUM_CODE_WORDS_PER_BLOCK_GROUP_2_L@[31] as int, 0, 0);
        lemma_product((NUM_ERROR_CORRECTION_BLOCKS_GROUP_1_L@[31] + NUM_ERROR_CORRECTION_BLOCKS_GROUP_2_L@[31]) as int, L_ERROR_CORRECTION_CODE_WORDS@[31] as int, 17, 30);
        assert(NUM_ERROR_CORRECTION_BLOCKS_GROUP_1_L@[31] * NUM_CODE_WORDS_PER_BLOCK_GROUP_1_L@[31] + NUM_ERROR_CORRECTION_BLOCKS_GROUP_2_L@[31] * NUM_CODE_WORDS_PER_BLOCK_GROUP_2_L@[31] == L_NUM_CODEWORDS@[31]);
    }
    if version == 33 {
        lemma_product(NUM_ERROR_CORRECTION_BLOCKS_GROUP_1_L@[32] as int, NUM_CODE_WORDS_PER_BLOCK_GROUP_1_L@[32] as int, 17, 115);
        lemma_product(NUM_ERROR_CORRECTION_BLOCKS_GROUP_2_L@[32] as int, NUM_CODE_WORDS_PER_BLOCK_GROUP_2_L@[32] as int, 1, 116);
        lemma_product((NUM_ERROR_CORRECTION_BLOCKS_GROUP_1_L@[32] + NUM_ERROR_CORRECTION_BLOCKS_GROUP_2_L@[32]) as int, L_ERROR_CORRECTION_CODE_WORDS@[32] as int, 18, 30);
        assert(NUM_ERROR_CORRECTION_BLOCKS_GROUP_1_L@[32] * NUM_CODE_WORDS_PER_BLOCK_GROUP_1_L@[32] + NUM_ERROR_CORRECTION_BLOCKS_GROUP_2_L@[32] * NUM_CODE_WORDS_PER_BLOCK_GROUP_2_L@[32] == L_NUM_CODEWORDS@[32]);
    }
    if version == 34 {
        lemma_product(NUM_ERROR_CORRECTION_BLOCKS_GROUP_1_L@[33] as int, NUM_CODE_WORDS_PER_BLOCK_GROUP_1_L@[33] as int, 13, 115);
        lemma_product(NUM_ERROR_CORRECTION_BLOCKS_GROUP_2_L@[33] as int, NUM_CODE_WORDS_PER_BLOCK_GROUP_2_L@[33] as int, 6, 116);
        lemma_product((NUM_ERROR_CORRECTION_BLOCKS_GROUP_1_L@[33] + NUM_ERROR_CORRECTION_BLOCKS_GROUP_2_L@[33]) as int, L_ERROR_CORRECTION_CODE_WORDS@[33] as int, 19, 30);
        assert(NUM_ERROR_CORRECTION_BLOCKS_GROUP_1_L@[33] * NUM_CODE_WORDS_PER_BLOCK_GROUP_1_L@[33] + NUM_ERROR_CORRECTION_BLOCKS_GROUP_2_L@[33] * NUM_CODE_WORDS_PER_BLOCK_GROUP_2_L@[33] == L_NUM_CODEWORDS@[33]);
    }
    if version == 35 {
        lemma_product(NUM_ERROR_CORRECTION_BLOCKS_GROUP_1_L@[34] as int, NUM_CODE_WORDS_PER_BLOCK_GROUP_1_L@[34] as int, 12, 121);
        lemma_product(NUM_ERROR_CORRECTION_BLOCKS_GROUP_2_L@[34] as int, NUM_CODE_WORDS_PER_BLOCK_GROUP_2_L@[34] as int, 7, 122);
        lemma_product((NUM_ERROR_CORRECTION_BLOCKS_GROUP_1_L@[34] + NUM_ERROR_CORRECTION_BLOCKS_GROUP_2_L@[34]) as int, L_ERROR_CORRECTION_CODE_WORDS@[34] as int, 19, 30);
        assert(NUM_ERROR_CORRECTION_BLOCKS_GROUP_1_L@[34] * NUM_CODE_WORDS_PER_BLOCK_GROUP_1_L@[34] + NUM_ERROR_CORRECTION_BLOCKS_GROUP_2_L@[34] * NUM_CODE_WORDS_PER_BLOCK_GROUP_2_L@[34] == L_NUM_CODEWORDS@[34]);
    }
    if version == 36 {
        lemma_product(NUM_ERROR_CORRECTION_BLOCKS_GROUP_1_L@[35] as int, NUM_CODE_WORDS_PER_BLOCK_GROUP_1_L@[35] as int, 6, 121);
        lemma_product(NUM_ERROR_CORRECTION_BLOCKS_GROUP_2_L@[35] as int, NUM_CODE_WORDS_PER_BLOCK_GROUP_2_L@[35] as int, 14, 122);
        lemma_product((NUM_ERROR_CORRECTION_BLOCKS_GROUP_1_L@[35] + NUM_ERROR_CORRECTION_BLOCKS_GROUP_2_L@[35]) as int, L_ERROR_CORRECTION_CODE_WORDS@[35] as int, 20, 30);
        assert(NUM_ERROR_CORRECTION_BLOCKS_GROUP_1_L@[35] * NUM_CODE_WORDS_PER_BLOCK_GROUP_1_L@[35] + NUM_ERROR_CORRECTION_BLOCKS_GROUP_2_L@[35] * NUM_CODE_WORDS_PER_BLOCK_GROUP_2_L@[35] == L_NUM_CODEWORDS@[35]);
    }
    if version == 37 {
        lemma_product(NUM_ERROR_CORRECTION_BLOCKS_GROUP_1_L@[36] as int, NUM_CODE_WORDS_PER_BLOCK_GROUP_1_L@[36] as int, 17, 122);
        lemma_product(NUM_ERROR_CORRECTION_BLOCKS_GROUP_2_L@[36] as int, NUM_CODE_WORDS_PER_BLOCK_GROUP_2_L@[36] as int, 4, 123);
        lemma_product((NUM_ERROR_CORRECTION_BLOCKS_GROUP_1_L@[36] + NUM_ERROR_CORRECTION_BLOCKS_GROUP_2_L@[36]) as int, L_ERROR_CORRECTION_CODE_WORDS@[36] as int, 21, 30);
        assert(NUM_ERROR_CORRECTION_BLOCKS_GROUP_1_L@[36] * NUM_CODE_WORDS_PER_BLOCK_GROUP_1_L@[36] + NUM_ERROR_CORRECTION_BLOCKS_GROUP_2_L@[36] * NUM_CODE_WORDS_PER_BLOCK_GROUP_2_L@[36] == L_NUM_CODEWORDS@[36]);
    }
    if version == 38 {
        lemma_product(NUM_ERROR_CORRECTION_BLOCKS_GROUP_1_L@[37] as int, NUM_CODE_WORDS_PER_BLOCK_GROUP_1_L@[37] as int, 4, 122);
        lemma_product(NUM_ERROR_CORRECTION_BLOCKS_GROUP_2_L@[37] as int, NUM_CODE_WORDS_PER_BLOCK_GROUP_2_L@[37] as int, 18, 123);
        lemma_product((NUM_ERROR_CORRECTION_BLOCKS_GROUP_1_L@[37] + NUM_ERROR_CORRECTION_BLOCKS_GROUP_2_L@[37]) as int, L_ERROR_CORRECTION_CODE_WORDS@[37] as int, 22, 30);
        assert(NUM_ERROR_CORRECTION_BLOCKS_GROUP_1_L@[37] * NUM_CODE_WORDS_PER_BLOCK_GROUP_1_L@[37] + NUM_ERROR_CORRECTION_BLOCKS_GROUP_2_L@[37] * NUM_CODE_WORDS_PER_BLOCK_GROUP_2_L@[37] == L_NUM_CODEWORDS@[37]);
    }
    if version == 39 {
        lemma_product(NUM_ERROR_CORRECTION_BLOCKS_GROUP_1_L@[38] as int, NUM_CODE_WORDS_PER_BLOCK_GROUP_1_L@[38] as int, 20, 117);
        lemma_product(NUM_ERROR_CORRECTION_BLOCKS_GROUP_2_L@[38] as int, NUM_CODE_WORDS_PER_BLOCK_GROUP_2_L@[38] as int, 4, 118);
        lemma_product((NUM_ERROR_CORRECTION_BLOCKS_GROUP_1_L@[38] + NUM_ERROR_CORRECTION_BLOCKS_GROUP_2_L@[38]) as int, L_ERROR_CORRECTION_CODE_WORDS@[38] as int, 24, 30);
        assert(NUM_ERROR_CORRECTION_BLOCKS_GROUP_1_L@[38] * NUM_CODE_WORDS_PER_BLOCK_GROUP_1_L@[38] + NUM_ERROR_CORRECTION_BLOCKS_GROUP_2_L@[38] * NUM_CODE_WORDS_PER_BLOCK_GROUP_2_L@[38] == L_NUM_CODEWORDS@[38]);
    }
    if version == 40 {
        lemma_product(NUM_ERROR_CORRECTION_BLOCKS_GROUP_1_L@[39] as int, NUM_CODE_WORDS_PER_BLOCK_GROUP_1_L@[39] as int, 19, 118);
        lemma_product(NUM_ERROR_CORRECTION_BLOCKS_GROUP_2_L@[39] as int, NUM_CODE_WORDS_PER_BLOCK_GROUP_2_L@[39] as int, 6, 119);
        lemma_product((NUM_ERROR_CORRECTION_BLOCKS_GROUP_1_L@[39] + NUM_ERROR_CORRECTION_BLOCKS_GROUP_2_L@[39]) as int, L_ERROR_CORRECTION_CODE_WORDS@[39] as int, 25, 30);
        assert(NUM_ERROR_CORRECTION_BLOCKS_GROUP_1_L@[39] * NUM_CODE_WORDS_PER_BLOCK_GROUP_1_L@[39] + NUM_ERROR_CORRECTION_BLOCKS_GROUP_2_L@[39] * NUM_CODE_WORDS_PER_BLOCK_GROUP_2_L@[39] == L_NUM_CODEWORDS@[39]);
    }
}

proof fn lemma_block_layout_m(version: int)
    requires
        is_version(version),
    ensures
        NUM_ERROR_CORRECTION_BLOCKS_GROUP_1_M@[version - 1] * NUM_CODE_WORDS_PER_BLOCK_GROUP_1_M@[version
            - 1] + NUM_ERROR_CORRECTION_BLOCKS_GROUP_2_M@[version - 1]
            * NUM_CODE_WORDS_PER_BLOCK_GROUP_2_M@[version - 1] == M_NUM_CODEWORDS@[version - 1],
        NUM_ERROR_CORRECTION_BLOCKS_GROUP_1_M@[version - 1] >= 1,
        NUM_CODE_WORDS_PER_BLOCK_GROUP_1_M@[version - 1] >= 1,
        NUM_ERROR_CORRECTION_BLOCKS_GROUP_2_M@[version - 1] > 0
            ==> NUM_CODE_WORDS_PER_BLOCK_GROUP_2_M@[version - 1]
            == NUM_CODE_WORDS_PER_BLOCK_GROUP_1_M@[version - 1] + 1,
        NUM_ERROR_CORRECTION_BLOCKS_GROUP_2_M@[version - 1] == 0
            ==> NUM_CODE_WORDS_PER_BLOCK_GROUP_2_M@[version - 1] == 0,
        7 <= M_ERROR_CORRECTION_CODE_WORDS@[version - 1] <= 30,
        M_NUM_CODEWORDS@[version - 1] + (NUM_ERROR_CORRECTION_BLOCKS_GROUP_1_M@[version - 1]
            + NUM_ERROR_CORRECTION_BLOCKS_GROUP_2_M@[version - 1])
            * M_ERROR_CORRECTION_CODE_WORDS@[version - 1] == TOTAL_CODEWORDS@[version - 1],
        1 <= NUM_ERROR_CORRECTION_BLOCKS_GROUP_1_M@[version - 1]
            + NUM_ERROR_CORRECTION_BLOCKS_GROUP_2_M@[version - 1] <= 81,
        9 <= M_NUM_CODEWORDS@[version - 1] <= 2956,
        26 <= TOTAL_CODEWORDS@[version - 1] <= 3706,
        0 <= REQUIRED_REMAINDER_BITS@[version - 1] <= 7,
{
    if version == 1 {
        lemma_product(NUM_ERROR_CORRECTION_BLOCKS_GROUP_1_M@[0] as int, NUM_CODE_WORDS_PER_BLOCK_GROUP_1_M@[0] as int, 1, 16);
        lemma_product(NUM_ERROR_CORRECTION_BLOCKS_GROUP_2_M@[0] as int, NUM_CODE_WORDS_PER_BLOCK_GROUP_2_M@[0] as int, 0, 0);
        lemma_product((NUM_ERROR_CORRECTION_BLOCKS_GROUP_1_M@[0] + NUM_ERROR_CORRECTION_BLOCKS_GROUP_2_M@[0]) as int, M_ERROR_CORRECTION_CODE_WORDS@[0] as int, 1, 10);
        assert(NUM_ERROR_CORRECTION_BLOCKS_GROUP_1_M@[0] * NUM_CODE_WORDS_PER_BLOCK_GROUP_1_M@[0] + NUM_ERROR_CORRECTION_BLOCKS_GROUP_2_M@[0] * NUM_CODE_WORDS_PER_BLOCK_GROUP_2_M@[0] == M_NUM_CODEWORDS@[0]);
    }
    if version == 2 {
        lemma_product(NUM_ERROR_CORRECTION_BLOCKS_GROUP_1_M@[1] as int, NUM_CODE_WORDS_PER_BLOCK_GROUP_1_M@[1] as int, 1, 28);
        lemma_product(NUM_ERROR_CORRECTION_BLOCKS_GROUP_2_M@[1] as int, NUM_CODE_WORDS_PER_BLOCK_GROUP_2_M@[1] as int, 0, 0);
        lemma_product((NUM_ERROR_CORRECTION_BLOCKS_GROUP_1_M@[1] + NUM_ERROR_CORRECTION_BLOCKS_GROUP_2_M@[1]) as int, M_ERROR_CORRECTION_CODE_WORDS@[1] as int, 1, 16);
        assert(NUM_ERROR_CORRECTION_BLOCKS_GROUP_1_M@[1] * NUM_CODE_WORDS_PER_BLOCK_GROUP_1_M@[1] + NUM_ERROR_CORRECTION_BLOCKS_GROUP_2_M@[1] * NUM_CODE_WORDS_PER_BLOCK_GROUP_2_M@[1] == M_NUM_CODEWORDS@[1]);
    }
    if version == 3 {
        lemma_product(NUM_ERROR_CORRECTION_BLOCKS_GROUP_1_M@[2] as int, NUM_CODE_WORDS_PER_BLOCK_GROUP_1_M@[2] as int, 1, 44);
        lemma_product(NUM_ERROR_CORRECTION_BLOCKS_GROUP_2_M@[2] as int, NUM_CODE_WORDS_PER_BLOCK_GROUP_2_M@[2] as int, 0, 0);
        lemma_product((NUM_ERROR_CORRECTION_BLOCKS_GROUP_1_M@[2] + NUM_ERROR_CORRECTION_BLOCKS_GROUP_2_M@[2]) as int, M_ERROR_CORRECTION_CODE_WORDS@[2] as int, 1, 26);
        assert(NUM_ERROR_CORRECTION_BLOCKS_GROUP_1_M@[2] * NUM_CODE_WORDS_PER_BLOCK_GROUP_1_M@[2] + NUM_ERROR_CORRECTION_BLOCKS_GROUP_2_M@[2] * NUM_CODE_WORDS_PER_BLOCK_GROUP_2_M@[2] == M_NUM_CODEWORDS@[2]);
    }
    if version == 4 {
        lemma_product(NUM_ERROR_CORRECTION_BLOCKS_GROUP_1_M@[3] as int, NUM_CODE_WORDS_PER_BLOCK_GROUP_1_M@[3] as int, 2, 32);
        lemma_product(NUM_ERROR_CORRECTION_BLOCKS_GROUP_2_M@[3] as int, NUM_CODE_WORDS_PER_BLOCK_GROUP_2_M@[3] as int, 0, 0);
        lemma_product((NUM_ERROR_CORRECTION_BLOCKS_GROUP_1_M@[3] + NUM_ERROR_CORRECTION_BLOCKS_GROUP_2_M@[3]) as int, M_ERROR_CORRECTION_CODE_WORDS@[3] as int, 2, 18);
        assert(NUM_ERROR_CORRECTION_BLOCKS_GROUP_1_M@[3] * NUM_CODE_WORDS_PER_BLOCK_GROUP_1_M@[3] + NUM_ERROR_CORRECTION_BLOCKS_GROUP_2_M@[3] * NUM_CODE_WORDS_PER_BLOCK_GROUP_2_M@[3] == M_NUM_CODEWORDS@[3]);
    }
    if version == 5 {
        lemma_product(NUM_ERROR_CORRECTION_BLOCKS_GROUP_1_M@[4] as int, NUM_CODE_WORDS_PER_BLOCK_GROUP_1_M@[4] as int, 2, 43);
        lemma_product(NUM_ERROR_CORRECTION_BLOCKS_GROUP_2_M@[4] as int, NUM_CODE_WORDS_PER_BLOCK_GROUP_2_M@[4] as int, 0, 0);
        lemma_product((NUM_ERROR_CORRECTION_BLOCKS_GROUP_1_M@[4] + NUM_ERROR_CORRECTION_BLOCKS_GROUP_2_M@[4]) as int, M_ERROR_CORRECTION_CODE_WORDS@[4] as int, 2, 24);
        assert(NUM_ERROR_CORRECTION_BLOCKS_GROUP_1_M@[4] * NUM_CODE_WORDS_PER_BLOCK_GROUP_1_M@[4] + NUM_ERROR_CORRECTION_BLOCKS_GROUP_2_M@[4] * NUM_CODE_WORDS_PER_BLOCK_GROUP_2_M@[4] == M_NUM_CODEWORDS@[4]);
    }
    if version == 6 {
        lemma_product(NUM_ERROR_CORRECTION_BLOCKS_GROUP_1_M@[5] as int, NUM_CODE_WORDS_PER_BLOCK_GROUP_1_M@[5] as int, 4, 27);
        lemma_product(NUM_ERROR_CORRECTION_BLOCKS_GROUP_2_M@[5] as int, NUM_CODE_WORDS_PER_BLOCK_GROUP_2_M@[5] as int, 0, 0);
        lemma_product((NUM_ERROR_CORRECTION_BLOCKS_GROUP_1_M@[5] + NUM_ERROR_CORRECTION_BLOCKS_GROUP_2_M@[5]) as int, M_ERROR_CORRECTION_CODE_WORDS@[5] as int, 4, 16);
        assert(NUM_ERROR_CORRECTION_BLOCKS_GROUP_1_M@[5] * NUM_CODE_WORDS_PER_BLOCK_GROUP_1_M@[5] + NUM_ERROR_CORRECTION_BLOCKS_GROUP_2_M@[5] * NUM_CODE_WORDS_PER_BLOCK_GROUP_2_M@[5] == M_NUM_CODEWORDS@[5]);
    }
    if version == 7 {
        lemma_product(NUM_ERROR_CORRECTION_BLOCKS_GROUP_1_M@[6] as int, NUM_CODE_WORDS_PER_BLOCK_GROUP_1_M@[6] as int, 4, 31);
        lemma_product(NUM_ERROR_CORRECTION_BLOCKS_GROUP_2_M@[6] as int, NUM_CODE_WORDS_PER_BLOCK_GROUP_2_M@[6] as int, 0, 0);
        lemma_product((NUM_ERROR_CORRECTION_BLOCKS_GROUP_1_M@[6] + NUM_ERROR_CORRECTION_BLOCKS_GROUP_2_M@[6]) as int, M_ERROR_CORRECTION_CODE_WORDS@[6] as int, 4, 18);
        assert(NUM_ERROR_CORRECTION_BLOCKS_GROUP_1_M@[6] * NUM_CODE_WORDS_PER_BLOCK_GROUP_1_M@[6] + NUM_ERROR_CORRECTION_BLOCKS_GROUP_2_M@[6] * NUM_CODE_WORDS_PER_BLOCK_GROUP_2_M@[6] == M_NUM_CODEWORDS@[6]);
    }
    if version == 8 {
        lemma_product(NUM_ERROR_CORRECTION_BLOCKS_GROUP_1_M@[7] as int, NUM_CODE_WORDS_PER_BLOCK_GROUP_1_M@[7] as int, 2, 38);
        lemma_product(NUM_ERROR_CORRECTION_BLOCKS_GROUP_2_M@[7] as int, NUM_CODE_WORDS_PER_BLOCK_GROUP_2_M@[7] as int, 2, 39);
        lemma_product((NUM_ERROR_CORRECTION_BLOCKS_GROUP_1_M@[7] + NUM_ERROR_CORRECTION_BLOCKS_GROUP_2_M@[7]) as int, M_ERROR_CORRECTION_CODE_WORDS@[7] as int, 4, 22);
        assert(NUM_ERROR_CORRECTION_BLOCKS_GROUP_1_M@[7] * NUM_CODE_WORDS_PER_BLOCK_GROUP_1_M@[7] + NUM_ERROR_CORRECTION_BLOCKS_GROUP_2_M@[7] * NUM_CODE_WORDS_PER_BLOCK_GROUP_2_M@[7] == M_NUM_CODEWORDS@[7]);
    }
    if version == 9 {
        lemma_product(NUM_ERROR_CORRECTION_BLOCKS_GROUP_1_M@[8] as int, NUM_CODE_WORDS_PER_BLOCK_GROUP_1_M@[8] as int, 3, 36);
        lemma_product(NUM_ERROR_CORRECTION_BLOCKS_GROUP_2_M@[8] as int, NUM_CODE_WORDS_PER_BLOCK_GROUP_2_M@[8] as int, 2, 37);
        lemma_product((NUM_ERROR_CORRECTION_BLOCKS_GROUP_1_M@[8] + NUM_ERROR_CORRECTION_BLOCKS_GROUP_2_M@[8]) as int, M_ERROR_CORRECTION_CODE_WORDS@[8] as int, 5, 22);
        assert(NUM_ERROR_CORRECTION_BLOCKS_GROUP_1_M@[8] * NUM_CODE_WORDS_PER_BLOCK_GROUP_1_M@[8] + NUM_ERROR_CORRECTION_BLOCKS_GROUP_2_M@[8] * NUM_CODE_WORDS_PER_BLOCK_GROUP_2_M@[8] == M_NUM_CODEWORDS@[8]);
    }
    if version == 10 {
        lemma_product(NUM_ERROR_CORRECTION_BLOCKS_GROUP_1_M@[9] as int, NUM_CODE_WORDS_PER_BLOCK_GROUP_1_M@[9] as int, 4, 43);
        lemma_product(NUM_ERROR_CORRECTION_BLOCKS_GROUP_2_M@[9] as int, NUM_CODE_WORDS_PER_BLOCK_GROUP_2_M@[9] as int, 1, 44);
        lemma_product((NUM_ERROR_CORRECTION_BLOCKS_GROUP_1_M@[9] + NUM_ERROR_CORRECTION_BLOCKS_GROUP_2_M@[9]) as int, M_ERROR_CORRECTION_CODE_WORDS@[9] as int, 5, 26);
        assert(NUM_ERROR_CORRECTION_BLOCKS_GROUP_1_M@[9] * NUM_CODE_WORDS_PER_BLOCK_GROUP_1_M@[9] + NUM_ERROR_CORRECTION_BLOCKS_GROUP_2_M@[9] * NUM_CODE_WORDS_PER_BLOCK_GROUP_2_M@[9] == M_NUM_CODEWORDS@[9]);
    }
    if version == 11 {
        lemma_product(NUM_ERROR_CORRECTION_BLOCKS_GROUP_1_M@[10] as int, NUM_CODE_WORDS_PER_BLOCK_GROUP_1_M@[10] as int, 1, 50);
        lemma_product(NUM_ERROR_CORRECTION_BLOCKS_GROUP_2_M@[10] as int, NUM_CODE_WORDS_PER_BLOCK_GROUP_2_M@[10] as int, 4, 51);
        lemma_product((NUM_ERROR_CORRECTION_BLOCKS_GROUP_1_M@[10] + NUM_ERROR_CORRECTION_BLOCKS_GROUP_2_M@[10]) as int, M_ERROR_CORRECTION_CODE_WORDS@[10] as int, 5, 30);
        assert(NUM_ERROR_CORRECTION_BLOCKS_GROUP_1_M@[10] * NUM_CODE_WORDS_PER_BLOCK_GROUP_1_M@[10] + NUM_ERROR_CORRECTION_BLOCKS_GROUP_2_M@[10] * NUM_CODE_WORDS_PER_BLOCK_GROUP_2_M@[10] == M_NUM_CODEWORDS@[10]);
    }
    if version == 12 {
        lemma_product(NUM_ERROR_CORRECTION_BLOCKS_GROUP_1_M@[11] as int, NUM_CODE_WORDS_PER_BLOCK_GROUP_1_M@[11] as int, 6, 36);
        lemma_product(NUM_ERROR_CORRECTION_BLOCKS_GROUP_2_M@[11] as int, NUM_CODE_WORDS_PER_BLOCK_GROUP_2_M@[11] as int, 2, 37);
        lemma_product((NUM_ERROR_CORRECTION_BLOCKS_GROUP_1_M@[11] + NUM_ERROR_CORRECTION_BLOCKS_GROUP_2_M@[11]) as int, M_ERROR_CORRECTION_CODE_WORDS@[11] as int, 8, 22);
        assert(NUM_ERROR_CORRECTION_BLOCKS_GROUP_1_M@[11] * NUM_CODE_WORDS_PER_BLOCK_GROUP_1_M@[11] + NUM_ERROR_CORRECTION_BLOCKS_GROUP_2_M@[11] * NUM_CODE_WORDS_PER_BLOCK_GROUP_2_M@[11] == M_NUM_CODEWORDS@[11]);
    }
    if version == 13 {
        lemma_product(NUM_ERROR_CORRECTION_BLOCKS_GROUP_1_M@[12] as int, NUM_CODE_WORDS_PER_BLOCK_GROUP_1_M@[12] as int, 8, 37);
        lemma_product(NUM_ERROR_CORRECTION_BLOCKS_GROUP_2_M@[12] as int, NUM_CODE_WORDS_PER_BLOCK_GROUP_2_M@[12] as int, 1, 38);
        lemma_product((NUM_ERROR_CORRECTION_BLOCKS_GROUP_1_M@[12] + NUM_ERROR_CORRECTION_BLOCKS_GROUP_2_M@[12]) as int, M_ERROR_CORRECTION_CODE_WORDS@[12] as int, 9, 22);
        assert(NUM_ERROR_CORRECTION_BLOCKS_GROUP_1_M@[12] * NUM_CODE_WORDS_PER_BLOCK_GROUP_1_M@[12] + NUM_ERROR_CORRECTION_BLOCKS_GROUP_2_M@[12] * NUM_CODE_WORDS_PER_BLOCK_GROUP_2_M@[12] == M_NUM_CODEWORDS@[12]);
    }
    if version == 14 {
        lemma_product(NUM_ERROR_CORRECTION_BLOCKS_GROUP_1_M@[13] as int, NUM_CODE_WORDS_PER_BLOCK_GROUP_1_M@[13] as int, 4, 40);
        lemma_product(NUM_ERROR_CORRECTION_BLOCKS_GROUP_2_M@[13] as int, NUM_CODE_WORDS_PER_BLOCK_GROUP_2_M@[13] as int, 5, 41);
        lemma_product((NUM_ERROR_CORRECTION_BLOCKS_GROUP_1_M@[13] + NUM_ERROR_CORRECTION_BLOCKS_GROUP_2_M@[13]) as int, M_ERROR_CORRECTION_CODE_WORDS@[13] as int, 9, 24);
        assert(NUM_ERROR_CORRECTION_BLOCKS_GROUP_1_M@[13] * NUM_CODE_WORDS_PER_BLOCK_GROUP_1_M@[13] + NUM_ERROR_CORRECTION_BLOCKS_GROUP_2_M@[13] * NUM_CODE_WORDS_PER_BLOCK_GROUP_2_M@[13] == M_NUM_CODEWORDS@[13]);
    }
    if version == 15 {
        lemma_product(NUM_ERROR_CORRECTION_BLOCKS_GROUP_1_M@[14] as int, NUM_CODE_WORDS_PER_BLOCK_GROUP_1_M@[14] as int, 5, 41);
        lemma_product(NUM_ERROR_CORRECTION_BLOCKS_GROUP_2_M@[14] as int, NUM_CODE_WORDS_PER_BLOCK_GROUP_2_M@[14] as int, 5, 42);
        lemma_product((NUM_ERROR_CORRECTION_BLOCKS_GROUP_1_M@[14] + NUM_ERROR_CORRECTION_BLOCKS_GROUP_2_M@[14]) as int, M_ERROR_CORRECTION_CODE_WORDS@[14] as int, 10, 24);
        assert(NUM_ERROR_CORRECTION_BLOCKS_GROUP_1_M@[14] * NUM_CODE_WORDS_PER_BLOCK_GROUP_1_M@[14] + NUM_ERROR_CORRECTION_BLOCKS_GROUP_2_M@[14] * NUM_CODE_WORDS_PER_BLOCK_GROUP_2_M@[14] == M_NUM_CODEWORDS@[14]);
    }
    if version == 16 {
        lemma_product(NUM_ERROR_CORRECTION_BLOCKS_GROUP_1_M@[15] as int, NUM_CODE_WORDS_PER_BLOCK_GROUP_1_M@[15] as int, 7, 45);
        lemma_product(NUM_ERROR_CORRECTION_BLOCKS_GROUP_2_M@[15] as int, NUM_CODE_WORDS_PER_BLOCK_GROUP_2_M@[15] as int, 3, 46);
        lemma_product((NUM_ERROR_CORRECTION_BLOCKS_GROUP_1_M@[15] + NUM_ERROR_CORRECTION_BLOCKS_GROUP_2_M@[15]) as int, M_ERROR_CORRECTION_CODE_WORDS@[15] as int, 10, 28);
        assert(NUM_ERROR_CORRECTION_BLOCKS_GROUP_1_M@[15] * NUM_CODE_WORDS_PER_BLOCK_GROUP_1_M@[15] + NUM_ERROR_CORRECTION_BLOCKS_GROUP_2_M@[15] * NUM_CODE_WORDS_PER_BLOCK_GROUP_2_M@[15] == M_NUM_CODEWORDS@[15]);
    }
    if version == 17 {
        lemma_product(NUM_ERROR_CORRECTION_BLOCKS_GROUP_1_M@[16] as int, NUM_CODE_WORDS_PER_BLOCK_GROUP_1_M@[16] as int, 10, 46);
        lemma_product(NUM_ERROR_CORRECTION_BLOCKS_GROUP_2_M@[16] as int, NUM_CODE_WORDS_PER_BLOCK_GROUP_2_M@[16] as int, 1, 47);
        lemma_product((NUM_ERROR_CORRECTION_BLOCKS_GROUP_1_M@[16] + NUM_ERROR_CORRECTION_BLOCKS_GROUP_2_M@[16]) as int, M_ERROR_CORRECTION_CODE_WORDS@[16] as int, 11, 28);
        assert(NUM_ERROR_CORRECTION_BLOCKS_GROUP_1_M@[16] * NUM_CODE_WORDS_PER_BLOCK_GROUP_1_M@[16] + NUM_ERROR_CORRECTION_BLOCKS_GROUP_2_M@[16] * NUM_CODE_WORDS_PER_BLOCK_GROUP_2_M@[16] == M_NUM_CODEWORDS@[16]);
    }
    if version == 18 {
        lemma_product(NUM_ERROR_CORRECTION_BLOCKS_GROUP_1_M@[17] as int, NUM_CODE_WORDS_PER_BLOCK_GROUP_1_M@[17] as int, 9, 43);
        lemma_product(NUM_ERROR_CORRECTION_BLOCKS_GROUP_2_M@[17] as int, NUM_CODE_WORDS_PER_BLOCK_GROUP_2_M@[17] as int, 4, 44);
        lemma_product((NUM_ERROR_CORRECTION_BLOCKS_GROUP_1_M@[17] + NUM_ERROR_CORRECTION_BLOCKS_GROUP_2_M@[17]) as int, M_ERROR_CORRECTION_CODE_WORDS@[17] as int, 13, 26);
        assert(NUM_ERROR_CORRECTION_BLOCKS_GROUP_1_M@[17] * NUM_CODE_WORDS_PER_BLOCK_GROUP_1_M@[17] + NUM_ERROR_CORRECTION_BLOCKS_GROUP_2_M@[17] * NUM_CODE_WORDS_PER_BLOCK_GROUP_2_M@[17] == M_NUM_CODEWORDS@[17]);
    }
    if version == 19 {
        lemma_product(NUM_ERROR_CORRECTION_BLOCKS_GROUP_1_M@[18] as int, NUM_CODE_WORDS_PER_BLOCK_GROUP_1_M@[18] as int, 3, 44);
        lemma_product(NUM_ERROR_CORRECTION_BLOCKS_GROUP_2_M@[18] as int, NUM_CODE_WORDS_PER_BLOCK_GROUP_2_M@[18] as int, 11, 45);
        lemma_product((NUM_ERROR_CORRECTION_BLOCKS_GROUP_1_M@[18] + NUM_ERROR_CORRECTION_BLOCKS_GROUP_2_M@[18]) as int, M_ERROR_CORRECTION_CODE_WORDS@[18] as int, 14, 26);
        assert(NUM_ERROR_CORRECTION_BLOCKS_GROUP_1_M@[18] * NUM_CODE_WORDS_PER_BLOCK_GROUP_1_M@[18] + NUM_ERROR_CORRECTION_BLOCKS_GROUP_2_M@[18] * NUM_CODE_WORDS_PER_BLOCK_GROUP_2_M@[18] == M_NUM_CODEWORDS@[18]);
    }
    if version == 20 {
        lemma_product(NUM_ERROR_CORRECTION_BLOCKS_GROUP_1_M@[19] as int, NUM_CODE_WORDS_PER_BLOCK_GROUP_1_M@[19] as int, 3, 41);
        lemma_product(NUM_ERROR_CORRECTION_BLOCKS_GROUP_2_M@[19] as int, NUM_CODE_WORDS_PER_BLOCK_GROUP_2_M@[19] as int, 13, 42);
        lemma_product((NUM_ERROR_CORRECTION_BLOCKS_GROUP_1_M@[19] + NUM_ERROR_CORRECTION_BLOCKS_GROUP_2_M@[19]) as int, M_ERROR_CORRECTION_CODE_WORDS@[19] as int, 16, 26);
        assert(NUM_ERROR_CORRECTION_BLOCKS_GROUP_1_M@[19] * NUM_CODE_WORDS_PER_BLOCK_GROUP_1_M@[19] + NUM_ERROR_CORRECTION_BLOCKS_GROUP_2_M@[19] * NUM_CODE_WORDS_PER_BLOCK_GROUP_2_M@[19] == M_NUM_CODEWORDS@[19]);
    }
    if version == 21 {
        lemma_product(NUM_ERROR_CORRECTION_BLOCKS_GROUP_1_M@[20] as int, NUM_CODE_WORDS_PER_BLOCK_GROUP_1_M@[20] as int, 17, 42);
        lemma_product(NUM_ERROR_CORRECTION_BLOCKS_GROUP_2_M@[20] as int, NUM_CODE_WORDS_PER_BLOCK_GROUP_2_M@[20] as int, 0, 0);
        lemma_product((NUM_ERROR_CORRECTION_BLOCKS_GROUP_1_M@[20] + NUM_ERROR_CORRECTION_BLOCKS_GROUP_2_M@[20]) as int, M_ERROR_CORRECTION_CODE_WORDS@[20] as int, 17, 26);
        assert(NUM_ERROR_CORRECTION_BLOCKS_GROUP_1_M@[20] * NUM_CODE_WORDS_PER_BLOCK_GROUP_1_M@[20] + NUM_ERROR_CORRECTION_BLOCKS_GROUP_2_M@[20] * NUM_CODE_WORDS_PER_BLOCK_GROUP_2_M@[20] == M_NUM_CODEWORDS@[20]);
    }
    if version == 22 {
        lemma_product(NUM_ERROR_CORRECTION_BLOCKS_GROUP_1_M@[21] as int, NUM_CODE_WORDS_PER_BLOCK_GROUP_1_M@[21] as int, 17, 46);
        lemma_product(NUM_ERROR_CORRECTION_BLOCKS_GROUP_2_M@[21] as int, NUM_CODE_WORDS_PER_BLOCK_GROUP_2_M@[21] as int, 0, 0);
        lemma_product((NUM_ERROR_CORRECTION_BLOCKS_GROUP_1_M@[21] + NUM_ERROR_CORRECTION_BLOCKS_GROUP_2_M@[21]) as int, M_ERROR_CORRECTION_CODE_WORDS@[21] as int, 17, 28);
        assert(NUM_ERROR_CORRECTION_BLOCKS_GROUP_1_M@[21] * NUM_CODE_WORDS_PER_BLOCK_GROUP_1_M@[21] + NUM_ERROR_CORRECTION_BLOCKS_GROUP_2_M@[21] * NUM_CODE_WORDS_PER_BLOCK_GROUP_2_M@[21] == M_NUM_CODEWORDS@[21]);
    }
    if version == 23 {
        lemma_product(NUM_ERROR_CORRECTION_BLOCKS_GROUP_1_M@[22] as int, NUM_CODE_WORDS_PER_BLOCK_GROUP_1_M@[22] as int, 4, 47);
        lemma_product(NUM_ERROR_CORRECTION_BLOCKS_GROUP_2_M@[22] as int, NUM_CODE_WORDS_PER_BLOCK_GROUP_2_M@[22] as int, 14, 48);
        lemma_product((NUM_ERROR_CORRECTION_BLOCKS_GROUP_1_M@[22] + NUM_ERROR_CORRECTION_BLOCKS_GROUP_2_M@[22]) as int, M_ERROR_CORRECTION_CODE_WORDS@[22] as int, 18, 28);
        assert(NUM_ERROR_CORRECTION_BLOCKS_GROUP_1_M@[22] * NUM_CODE_WORDS_PER_BLOCK_GROUP_1_M@[22] + NUM_ERROR_CORRECTION_BLOCKS_GROUP_2_M@[22] * NUM_CODE_WORDS_PER_BLOCK_GROUP_2_M@[22] == M_NUM_CODEWORDS@[22]);
    }
    if version == 24 {
        lemma_product(NUM_ERROR_CORRECTION_BLOCKS_GROUP_1_M@[23] as int, NUM_CODE_WORDS_PER_BLOCK_GROUP_1_M@[23] as int, 6, 45);
        lemma_product(NUM_ERROR_CORRECTION_BLOCKS_GROUP_2_M@[23] as int, NUM_CODE_WORDS_PER_BLOCK_GROUP_2_M@[23] as int, 14, 46);
        lemma_product((NUM_ERROR_CORRECTION_BLOCKS_GROUP_1_M@[23] + NUM_ERROR_CORRECTION_BLOCKS_GROUP_2_M@[23]) as int, M_ERROR_CORRECTION_CODE_WORDS@[23] as int, 20, 28);
        assert(NUM_ERROR_CORRECTION_BLOCKS_GROUP_1_M@[23] * NUM_CODE_WORDS_PER_BLOCK_GROUP_1_M@[23] + NUM_ERROR_CORRECTION_BLOCKS_GROUP_2_M@[23] * NUM_CODE_WORDS_PER_BLOCK_GROUP_2_M@[23] == M_NUM_CODEWORDS@[23]);
    }
    if version == 25 {
        lemma_product(NUM_ERROR_CORRECTION_BLOCKS_GROUP_1_M@[24] as int, NUM_CODE_WORDS_PER_BLOCK_GROUP_1_M@[24] as int, 8, 47);
        lemma_product(NUM_ERROR_CORRECTION_BLOCKS_GROUP_2_M@[24] as int, NUM_CODE_WORDS_PER_BLOCK_GROUP_2_M@[24] as int, 13, 48);
        lemma_product((NUM_ERROR_CORRECTION_BLOCKS_GROUP_1_M@[24] + NUM_ERROR_CORRECTION_BLOCKS_GROUP_2_M@[24]) as int, M_ERROR_CORRECTION_CODE_WORDS@[24] as int, 21, 28);
        assert(NUM_ERROR_CORRECTION_BLOCKS_GROUP_1_M@[24] * NUM_CODE_WORDS_PER_BLOCK_GROUP_1_M@[24] + NUM_ERROR_CORRECTION_BLOCKS_GROUP_2_M@[24] * NUM_CODE_WORDS_PER_BLOCK_GROUP_2_M@[24] == M_NUM_CODEWORDS@[24]);
    }
    if version == 26 {
        lemma_product(NUM_ERROR_CORRECTION_BLOCKS_GROUP_1_M@[25] as int, NUM_CODE_WORDS_PER_BLOCK_GROUP_1_M@[25] as int, 19, 46);
        lemma_product(NUM_ERROR_CORRECTION_BLOCKS_GROUP_2_M@[25] as int, NUM_CODE_WORDS_PER_BLOCK_GROUP_2_M@[25] as int, 4, 47);
        lemma_product((NUM_ERROR_CORRECTION_BLOCKS_GROUP_1_M@[25] + NUM_ERROR_CORRECTION_BLOCKS_GROUP_2_M@[25]) as int, M_ERROR_CORRECTION_CODE_WORDS@[25] as int, 23, 28);
        assert(NUM_ERROR_CORRECTION_BLOCKS_GROUP_1_M@[25] * NUM_CODE_WORDS_PER_BLOCK_GROUP_1_M@[25] + NUM_ERROR_CORRECTION_BLOCKS_GROUP_2_M@[25] * NUM_CODE_WORDS_PER_BLOCK_GROUP_2_M@[25] == M_NUM_CODEWORDS@[25]);
    }
    if version == 27 {
        lemma_product(NUM_ERROR_CORRECTION_BLOCKS_GROUP_1_M@[26] as int, NUM_CODE_WORDS_PER_BLOCK_GROUP_1_M@[26] as int, 22, 45);
        lemma_product(NUM_ERROR_CORRECTION_BLOCKS_GROUP_2_M@[26] as int, NUM_CODE_WORDS_PER_BLOCK_GROUP_2_M@[26] as int, 3, 46);
        lemma_product((NUM_ERROR_CORRECTION_BLOCKS_GROUP_1_M@[26] + NUM_ERROR_CORRECTION_BLOCKS_GROUP_2_M@[26]) as int, M_ERROR_CORRECTION_CODE_WORDS@[26] as int, 25, 28);
        assert(NUM_ERROR_CORRECTION_BLOCKS_GROUP_1_M@[26] * NUM_CODE_WORDS_PER_BLOCK_GROUP_1_M@[26] + NUM_ERROR_CORRECTION_BLOCKS_GROUP_2_M@[26] * NUM_CODE_WORDS_PER_BLOCK_GROUP_2_M@[26] == M_NUM_CODEWORDS@[26]);
    }
    if version == 28 {
        lemma_product(NUM_ERROR_CORRECTION_BLOCKS_GROUP_1_M@[27] as int, NUM_CODE_WORDS_PER_BLOCK_GROUP_1_M@[27] as int, 3, 45);
        lemma_product(NUM_ERROR_CORRECTION_BLOCKS_GROUP_2_M@[27] as int, NUM_CODE_WORDS_PER_BLOCK_GROUP_2_M@[27] as int, 23, 46);
        lemma_product((NUM_ERROR_CORRECTION_BLOCKS_GROUP_1_M@[27] + NUM_ERROR_CORRECTION_BLOCKS_GROUP_2_M@[27]) as int, M_ERROR_CORRECTION_CODE_WORDS@[27] as int, 26, 28);
        assert(NUM_ERROR_CORRECTION_BLOCKS_GROUP_1_M@[27] * NUM_CODE_WORDS_PER_BLOCK_GROUP_1_M@[27] + NUM_ERROR_CORRECTION_BLOCKS_GROUP_2_M@[27] * NUM_CODE_WORDS_PER_BLOCK_GROUP_2_M@[27] == M_NUM_CODEWORDS@[27]);
    }
    if version == 29 {
        lemma_product(NUM_ERROR_CORRECTION_BLOCKS_GROUP_1_M@[28] as int, NUM_CODE_WORDS_PER_BLOCK_GROUP_1_M@[28] as int, 21, 45);
        lemma_product(NUM_ERROR_CORRECTION_BLOCKS_GROUP_2_M@[28] as int, NUM_CODE_WORDS_PER_BLOCK_GROUP_2_M@[28] as int, 7, 46);
        lemma_product((NUM_ERROR_CORRECTION_BLOCKS_GROUP_1_M@[28] + NUM_ERROR_CORRECTION_BLOCKS_GROUP_2_M@[28]) as int, M_ERROR_CORRECTION_CODE_WORDS@[28] as int, 28, 28);
        assert(NUM_ERROR_CORRECTION_BLOCKS_GROUP_1_M@[28] * NUM_CODE_WORDS_PER_BLOCK_GROUP_1_M@[28] + NUM_ERROR_CORRECTION_BLOCKS_GROUP_2_M@[28] * NUM_CODE_WORDS_PER_BLOCK_GROUP_2_M@[28] == M_NUM_CODEWORDS@[28]);
    }
    if version == 30 {
        lemma_product(NUM_ERROR_CORRECTION_BLOCKS_GROUP_1_M@[29] as int, NUM_CODE_WORDS_PER_BLOCK_GROUP_1_M@[29] as int, 19, 47);
        lemma_product(NUM_ERROR_CORRECTION_BLOCKS_GROUP_2_M@[29] as int, NUM_CODE_WORDS_PER_BLOCK_GROUP_2_M@[29] as int, 10, 48);
        lemma_product((NUM_ERROR_CORRECTION_BLOCKS_GROUP_1_M@[29] + NUM_ERROR_CORRECTION_BLOCKS_GROUP_2_M@[29]) as int, M_ERROR_CORRECTION_CODE_WORDS@[29] as int, 29, 28);
        assert(NUM_ERROR_CORRECTION_BLOCKS_GROUP_1_M@[29] * NUM_CODE_WORDS_PER_BLOCK_GROUP_1_M@[29] + NUM_ERROR_CORRECTION_BLOCKS_GROUP_2_M@[29] * NUM_CODE_WORDS_PER_BLOCK_GROUP_2_M@[29] == M_NUM_CODEWORDS@[29]);
    }
    if version == 31 {
        lemma_product(NUM_ERROR_CORRECTION_BLOCKS_GROUP_1_M@[30] as int, NUM_CODE_WORDS_PER_BLOCK_GROUP_1_M@[30] as int, 2, 46);
        lemma_product(NUM_ERROR_CORRECTION_BLOCKS_GROUP_2_M@[30] as int, NUM_CODE_WORDS_PER_BLOCK_GROUP_2_M@[30] as int, 29, 47);
        lemma_product((NUM_ERROR_CORRECTION_BLOCKS_GROUP_1_M@[30] + NUM_ERROR_CORRECTION_BLOCKS_GROUP_2_M@[30]) as int, M_ERROR_CORRECTION_CODE_WORDS@[30] as int, 31, 28);
        assert(NUM_ERROR_CORRECTION_BLOCKS_GROUP_1_M@[30] * NUM_CODE_WORDS_PER_BLOCK_GROUP_1_M@[30] + NUM_ERROR_CORRECTION_BLOCKS_GROUP_2_M@[30] * NUM_CODE_WORDS_PER_BLOCK_GROUP_2_M@[30] == M_NUM_CODEWORDS@[30]);
    }
    if version == 32 {
        lemma_product(NUM_ERROR_CORRECTION_BLOCKS_GROUP_1_M@[31] as int, NUM_CODE_WORDS_PER_BLOCK_GROUP_1_M@[31] as int, 10, 46);
        lemma_product(NUM_ERROR_CORRECTION_BLOCKS_GROUP_2_M@[31] as int, NUM_CODE_WORDS_PER_BLOCK_GROUP_2_M@[31] as int, 23, 47);
        lemma_product((NUM_ERROR_CORRECTION_BLOCKS_GROUP_1_M@[31] + NUM_ERROR_CORRECTION_BLOCKS_GROUP_2_M@[31]) as int, M_ERROR_CORRECTION_CODE_WORDS@[31] as int, 33, 28);
        assert(NUM_ERROR_CORRECTION_BLOCKS_GROUP_1_M@[31] * NUM_CODE_WORDS_PER_BLOCK_GROUP_1_M@[31] + NUM_ERROR_CORRECTION_BLOCKS_GROUP_2_M@[31] * NUM_CODE_WORDS_PER_BLOCK_GROUP_2_M@[31] == M_NUM_CODEWORDS@[31]);
    }
    if version == 33 {
        lemma_product(NUM_ERROR_CORRECTION_BLOCKS_GROUP_1_M@[32] as int, NUM_CODE_WORDS_PER_BLOCK_GROUP_1_M@[32] as int, 14, 46);
        lemma_product(NUM_ERROR_CORRECTION_BLOCKS_GROUP_2_M@[32] as int, NUM_CODE_WORDS_PER_BLOCK_GROUP_2_M@[32] as int, 21, 47);
        lemma_product((NUM_ERROR_CORRECTION_BLOCKS_GROUP_1_M@[32] + NUM_ERROR_CORRECTION_BLOCKS_GROUP_2_M@[32]) as int, M_ERROR_CORRECTION_CODE_WORDS@[32] as int, 35, 28);
        assert(NUM_ERROR_CORRECTION_BLOCKS_GROUP_1_M@[32] * NUM_CODE_WORDS_PER_BLOCK_GROUP_1_M@[32] + NUM_ERROR_CORRECTION_BLOCKS_GROUP_2_M@[32] * NUM_CODE_WORDS_PER_BLOCK_GROUP_2_M@[32] == M_NUM_CODEWORDS@[32]);
    }
    if version == 34 {
        lemma_product(NUM_ERROR_CORRECTION_BLOCKS_GROUP_1_M@[33] as int, NUM_CODE_WORDS_PER_BLOCK_GROUP_1_M@[33] as int, 14, 46);
        lemma_product(NUM_ERROR_CORRECTION_BLOCKS_GROUP_2_M@[33] as int, NUM_CODE_WORDS_PER_BLOCK_GROUP_2_M@[33] as int, 23, 47);
        lemma_product((NUM_ERROR_CORRECTION_BLOCKS_GROUP_1_M@[33] + NUM_ERROR_CORRECTION_BLOCKS_GROUP_2_M@[33]) as int, M_ERROR_CORRECTION_CODE_WORDS@[33] as int, 37, 28);
        assert(NUM_ERROR_CORRECTION_BLOCKS_GROUP_1_M@[33] * NUM_CODE_WORDS_PER_BLOCK_GROUP_1_M@[33] + NUM_ERROR_CORRECTION_BLOCKS_GROUP_2_M@[33] * NUM_CODE_WORDS_PER_BLOCK_GROUP_2_M@[33] == M_NUM_CODEWORDS@[33]);
    }
    if version == 35 {
        lemma_product(NUM_ERROR_CORRECTION_BLOCKS_GROUP_1_M@[34] as int, NUM_CODE_WORDS_PER_BLOCK_GROUP_1_M@[34] as int, 12, 47);
        lemma_product(NUM_ERROR_CORRECTION_BLOCKS_GROUP_2_M@[34] as int, NUM_CODE_WORDS_PER_BLOCK_GROUP_2_M@[34] as int, 26, 48);
        lemma_product((NUM_ERROR_CORRECTION_BLOCKS_GROUP_1_M@[34] + NUM_ERROR_CORRECTION_BLOCKS_GROUP_2_M@[34]) as int, M_ERROR_CORRECTION_CODE_WORDS@[34] as int, 38, 28);
        assert(NUM_ERROR_CORRECTION_BLOCKS_GROUP_1_M@[34] * NUM_CODE_WORDS_PER_BLOCK_GROUP_1_M@[34] + NUM_ERROR_CORRECTION_BLOCKS_GROUP_2_M@[34] * NUM_CODE_WORDS_PER_BLOCK_GROUP_2_M@[34] == M_NUM_CODEWORDS@[34]);
    }
    if version == 36 {
        lemma_product(NUM_ERROR_CORRECTION_BLOCKS_GROUP_1_M@[35] as int, NUM_CODE_WORDS_PER_BLOCK_GROUP_1_M@[35] as int, 6, 47);
        lemma_product(NUM_ERROR_CORRECTION_BLOCKS_GROUP_2_M@[35] as int, NUM_CODE_WORDS_PER_BLOCK_GROUP_2_M@[35] as int, 34, 48);
        lemma_product((NUM_ERROR_CORRECTION_BLOCKS_GROUP_1_M@[35] + NUM_ERROR_CORRECTION_BLOCKS_GROUP_2_M@[35]) as int, M_ERROR_CORRECTION_CODE_WORDS@[35] as int, 40, 28);
        assert(NUM_ERROR_CORRECTION_BLOCKS_GROUP_1_M@[35] * NUM_CODE_WORDS_PER_BLOCK_GROUP_1_M@[35] + NUM_ERROR_CORRECTION_BLOCKS_GROUP_2_M@[35] * NUM_CODE_WORDS_PER_BLOCK_GROUP_2_M@[35] == M_NUM_CODEWORDS@[35]);
    }
    if version == 37 {
        lemma_product(NUM_ERROR_CORRECTION_BLOCKS_GROUP_1_M@[36] as int, NUM_CODE_WORDS_PER_BLOCK_GROUP_1_M@[36] as int, 29, 46);
        lemma_product(NUM_ERROR_CORRECTION_BLOCKS_GROUP_2_M@[36] as int, NUM_CODE_WORDS_PER_BLOCK_GROUP_2_M@[36] as int, 14, 47);
        lemma_product((NUM_ERROR_CORRECTION_BLOCKS_GROUP_1_M@[36] + NUM_ERROR_CORRECTION_BLOCKS_GROUP_2_M@[36]) as int, M_ERROR_CORRECTION_CODE_WORDS@[36] as int, 43, 28);
        assert(NUM_ERROR_CORRECTION_BLOCKS_GROUP_1_M@[36] * NUM_CODE_WORDS_PER_BLOCK_GROUP_1_M@[36] + NUM_ERROR_CORRECTION_BLOCKS_GROUP_2_M@[36] * NUM_CODE_WORDS_PER_BLOCK_GROUP_2_M@[36] == M_NUM_CODEWORDS@[36]);
    }
    if version == 38 {
        lemma_product(NUM_ERROR_CORRECTION_BLOCKS_GROUP_1_M@[37] as int, NUM_CODE_WORDS_PER_BLOCK_GROUP_1_M@[37] as int, 13, 46);
        lemma_product(NUM_ERROR_CORRECTION_BLOCKS_GROUP_2_M@[37] as int, NUM_CODE_WORDS_PER_BLOCK_GROUP_2_M@[37] as int, 32, 47);
        lemma_product((NUM_ERROR_CORRECTION_BLOCKS_GROUP_1_M@[37] + NUM_ERROR_CORRECTION_BLOCKS_GROUP_2_M@[37]) as int, M_ERROR_CORRECTION_CODE_WORDS@[37] as int, 45, 28);
        assert(NUM_ERROR_CORRECTION_BLOCKS_GROUP_1_M@[37] * NUM_CODE_WORDS_PER_BLOCK_GROUP_1_M@[37] + NUM_ERROR_CORRECTION_BLOCKS_GROUP_2_M@[37] * NUM_CODE_WORDS_PER_BLOCK_GROUP_2_M@[37] == M_NUM_CODEWORDS@[37]);
    }
    if version == 39 {
        lemma_product(NUM_ERROR_CORRECTION_BLOCKS_GROUP_1_M@[38] as int, NUM_CODE_WORDS_PER_BLOCK_GROUP_1_M@[38] as int, 40, 47);
        lemma_product(NUM_ERROR_CORRECTION_BLOCKS_GROUP_2_M@[38] as int, NUM_CODE_WORDS_PER_BLOCK_GROUP_2_M@[38] as int, 7, 48);
        lemma_product((NUM_ERROR_CORRECTION_BLOCKS_GROUP_1_M@[38] + NUM_ERROR_CORRECTION_BLOCKS_GROUP_2_M@[38]) as int, M_ERROR_CORRECTION_CODE_WORDS@[38] as int, 47, 28);
        assert(NUM_ERROR_CORRECTION_BLOCKS_GROUP_1_M@[38] * NUM_CODE_WORDS_PER_BLOCK_GROUP_1_M@[38] + NUM_ERROR_CORRECTION_BLOCKS_GROUP_2_M@[38] * NUM_CODE_WORDS_PER_BLOCK_GROUP_2_M@[38] == M_NUM_CODEWORDS@[38]);
    }
    if version == 40 {
        lemma_product(NUM_ERROR_CORRECTION_BLOCKS_GROUP_1_M@[39] as int, NUM_CODE_WORDS_PER_BLOCK_GROUP_1_M@[39] as int, 18, 47);
        lemma_product(NUM_ERROR_CORRECTION_BLOCKS_GROUP_2_M@[39] as int, NUM_CODE_WORDS_PER_BLOCK_GROUP_2_M@[39] as int, 31, 48);
        lemma_product((NUM_ERROR_CORRECTION_BLOCKS_GROUP_1_M@[39] + NUM_ERROR_CORRECTION_BLOCKS_GROUP_2_M@[39]) as int, M_ERROR_CORRECTION_CODE_WORDS@[39] as int, 49, 28);
        assert(NUM_ERROR_CORRECTION_BLOCKS_GROUP_1_M@[39] * NUM_CODE_WORDS_PER_BLOCK_GROUP_1_M@[39] + NUM_ERROR_CORRECTION_BLOCKS_GROUP_2_M@[39] * NUM_CODE_WORDS_PER_BLOCK_GROUP_2_M@[39] == M_NUM_CODEWORDS@[39]);
    }
}

proof fn lemma_block_layout_q(version: int)
    requires
        is_version(version),
    ensures
        NUM_ERROR_CORRECTION_BLOCKS_GROUP_1_Q@[version - 1] * NUM_CODE_WORDS_PER_BLOCK_GROUP_1_Q@[version
            - 1] + NUM_ERROR_CORRECTION_BLOCKS_GROUP_2_Q@[version - 1]
            * NUM_CODE_WORDS_PER_BLOCK_GROUP_2_Q@[version - 1] == Q_NUM_CODEWORDS@[version - 1],
        NUM_ERROR_CORRECTION_BLOCKS_GROUP_1_Q@[version - 1] >= 1,
        NUM_CODE_WORDS_PER_BLOCK_GROUP_1_Q@[version - 1] >= 1,
        NUM_ERROR_CORRECTION_BLOCKS_GROUP_2_Q@[version - 1] > 0
            ==> NUM_CODE_WORDS_PER_BLOCK_GROUP_2_Q@[version - 1]
            == NUM_CODE_WORDS_PER_BLOCK_GROUP_1_Q@[version - 1] + 1,
        NUM_ERROR_CORRECTION_BLOCKS_GROUP_2_Q@[version - 1] == 0
            ==> NUM_CODE_WORDS_PER_BLOCK_GROUP_2_Q@[version - 1] == 0,
        7 <= Q_ERROR_CORRECTION_CODE_WORDS@[version - 1] <= 30,
        Q_NUM_CODEWORDS@[version - 1] + (NUM_ERROR_CORRECTION_BLOCKS_GROUP_1_Q@[version - 1]
            + NUM_ERROR_CORRECTION_BLOCKS_GROUP_2_Q@[version - 1])
            * Q_ERROR_CORRECTION_CODE_WORDS@[version - 1] == TOTAL_CODEWORDS@[version - 1],
        1 <= NUM_ERROR_CORRECTION_BLOCKS_GROUP_1_Q@[version - 1]
            + NUM_ERROR_CORRECTION_BLOCKS_GROUP_2_Q@[version - 1] <= 81,
        9 <= Q_NUM_CODEWORDS@[version - 1] <= 2956,
        26 <= TOTAL_CODEWORDS@[version - 1] <= 3706,
        0 <= REQUIRED_REMAINDER_BITS@[version - 1] <= 7,
{
    if version == 1 {
        lemma_product(NUM_ERROR_CORRECTION_BLOCKS_GROUP_1_Q@[0] as int, NUM_CODE_WORDS_PER_BLOCK_GROUP_1_Q@[0] as int, 1, 13);
        lemma_product(NUM_ERROR_CORRECTION_BLOCKS_GROUP_2_Q@[0] as int, NUM_CODE_WORDS_PER_BLOCK_GROUP_2_Q@[0] as int, 0, 0);
        lemma_product((NUM_ERROR_CORRECTION_BLOCKS_GROUP_1_Q@[0] + NUM_ERROR_CORRECTION_BLOCKS_GROUP_2_Q@[0]) as int, Q_ERROR_CORRECTION_CODE_WORDS@[0] as int, 1, 13);
        assert(NUM_ERROR_CORRECTION_BLOCKS_GROUP_1_Q@[0] * NUM_CODE_WORDS_PER_BLOCK_GROUP_1_Q@[0] + NUM_ERROR_CORRECTION_BLOCKS_GROUP_2_Q@[0] * NUM_CODE_WORDS_PER_BLOCK_GROUP_2_Q@[0] == Q_NUM_CODEWORDS@[0]);
    }
    if version == 2 {
        lemma_product(NUM_ERROR_CORRECTION_BLOCKS_GROUP_1_Q@[1] as int, NUM_CODE_WORDS_PER_BLOCK_GROUP_1_Q@[1] as int, 1, 22);
        lemma_product(NUM_ERROR_CORRECTION_BLOCKS_GROUP_2_Q@[1] as int, NUM_CODE_WORDS_PER_BLOCK_GROUP_2_Q@[1] as int, 0, 0);
        lemma_product((NUM_ERROR_CORRECTION_BLOCKS_GROUP_1_Q@[1] + NUM_ERROR_CORRECTION_BLOCKS_GROUP_2_Q@[1]) as int, Q_ERROR_CORRECTION_CODE_WORDS@[1] as int, 1, 22);
        assert(NUM_ERROR_CORRECTION_BLOCKS_GROUP_1_Q@[1] * NUM_CODE_WORDS_PER_BLOCK_GROUP_1_Q@[1] + NUM_ERROR_CORRECTION_BLOCKS_GROUP_2_Q@[1] * NUM_CODE_WORDS_PER_BLOCK_GROUP_2_Q@[1] == Q_NUM_CODEWORDS@[1]);
    }
    if version == 3 {
        lemma_product(NUM_ERROR_CORRECTION_BLOCKS_GROUP_1_Q@[2] as int, NUM_CODE_WORDS_PER_BLOCK_GROUP_1_Q@[2] as int, 2, 17);
        lemma_product(NUM_ERROR_CORRECTION_BLOCKS_GROUP_2_Q@[2] as int, NUM_CODE_WORDS_PER_BLOCK_GROUP_2_Q@[2] as int, 0, 0);
        lemma_product((NUM_ERROR_CORRECTION_BLOCKS_GROUP_1_Q@[2] + NUM_ERROR_CORRECTION_BLOCKS_GROUP_2_Q@[2]) as int, Q_ERROR_CORRECTION_CODE_WORDS@[2] as int, 2, 18);
        assert(NUM_ERROR_CORRECTION_BLOCKS_GROUP_1_Q@[2] * NUM_CODE_WORDS_PER_BLOCK_GROUP_1_Q@[2] + NUM_ERROR_CORRECTION_BLOCKS_GROUP_2_Q@[2] * NUM_CODE_WORDS_PER_BLOCK_GROUP_2_Q@[2] == Q_NUM_CODEWORDS@[2]);
    }
    if version == 4 {
        lemma_product(NUM_ERROR_CORRECTION_BLOCKS_GROUP_1_Q@[3] as int, NUM_CODE_WORDS_PER_BLOCK_GROUP_1_Q@[3] as int, 2, 24);
        lemma_product(NUM_ERROR_CORRECTION_BLOCKS_GROUP_2_Q@[3] as int, NUM_CODE_WORDS_PER_BLOCK_GROUP_2_Q@[3] as int, 0, 0);
        lemma_product((NUM_ERROR_CORRECTION_BLOCKS_GROUP_1_Q@[3] + NUM_ERROR_CORRECTION_BLOCKS_GROUP_2_Q@[3]) as int, Q_ERROR_CORRECTION_CODE_WORDS@[3] as int, 2, 26);
        assert(NUM_ERROR_CORRECTION_BLOCKS_GROUP_1_Q@[3] * NUM_CODE_WORDS_PER_BLOCK_GROUP_1_Q@[3] + NUM_ERROR_CORRECTION_BLOCKS_GROUP_2_Q@[3] * NUM_CODE_WORDS_PER_BLOCK_GROUP_2_Q@[3] == Q_NUM_CODEWORDS@[3]);
    }
    if version == 5 {
        lemma_product(NUM_ERROR_CORRECTION_BLOCKS_GROUP_1_Q@[4] as int, NUM_CODE_WORDS_PER_BLOCK_GROUP_1_Q@[4] as int, 2, 15);
        lemma_product(NUM_ERROR_CORRECTION_BLOCKS_GROUP_2_Q@[4] as int, NUM_CODE_WORDS_PER_BLOCK_GROUP_2_Q@[4] as int, 2, 16);
        lemma_product((NUM_ERROR_CORRECTION_BLOCKS_GROUP_1_Q@[4] + NUM_ERROR_CORRECTION_BLOCKS_GROUP_2_Q@[4]) as int, Q_ERROR_CORRECTION_CODE_WORDS@[4] as int, 4, 18);
        assert(NUM_ERROR_CORRECTION_BLOCKS_GROUP_1_Q@[4] * NUM_CODE_WORDS_PER_BLOCK_GROUP_1_Q@[4] + NUM_ERROR_CORRECTION_BLOCKS_GROUP_2_Q@[4] * NUM_CODE_WORDS_PER_BLOCK_GROUP_2_Q@[4] == Q_NUM_CODEWORDS@[4]);
    }
    if version == 6 {
        lemma_product(NUM_ERROR_CORRECTION_BLOCKS_GROUP_1_Q@[5] as int, NUM_CODE_WORDS_PER_BLOCK_GROUP_1_Q@[5] as int, 4, 19);
        lemma_product(NUM_ERROR_CORRECTION_BLOCKS_GROUP_2_Q@[5] as int, NUM_CODE_WORDS_PER_BLOCK_GROUP_2_Q@[5] as int, 0, 0);
        lemma_product((NUM_ERROR_CORRECTION_BLOCKS_GROUP_1_Q@[5] + NUM_ERROR_CORRECTION_BLOCKS_GROUP_2_Q@[5]) as int, Q_ERROR_CORRECTION_CODE_WORDS@[5] as int, 4, 24);
        assert(NUM_ERROR_CORRECTION_BLOCKS_GROUP_1_Q@[5] * NUM_CODE_WORDS_PER_BLOCK_GROUP_1_Q@[5] + NUM_ERROR_CORRECTION_BLOCKS_GROUP_2_Q@[5] * NUM_CODE_WORDS_PER_BLOCK_GROUP_2_Q@[5] == Q_NUM_CODEWORDS@[5]);
    }
    if version == 7 {
        lemma_product(NUM_ERROR_CORRECTION_BLOCKS_GROUP_1_Q@[6] as int, NUM_CODE_WORDS_PER_BLOCK_GROUP_1_Q@[6] as int, 2, 14);
        lemma_product(NUM_ERROR_CORRECTION_BLOCKS_GROUP_2_Q@[6] as int, NUM_CODE_WORDS_PER_BLOCK_GROUP_2_Q@[6] as int, 4, 15);
        lemma_product((NUM_ERROR_CORRECTION_BLOCKS_GROUP_1_Q@[6] + NUM_ERROR_CORRECTION_BLOCKS_GROUP_2_Q@[6]) as int, Q_ERROR_CORRECTION_CODE_WORDS@[6] as int, 6, 18);
        assert(NUM_ERROR_CORRECTION_BLOCKS_GROUP_1_Q@[6] * NUM_CODE_WORDS_PER_BLOCK_GROUP_1_Q@[6] + NUM_ERROR_CORRECTION_BLOCKS_GROUP_2_Q@[6] * NUM_CODE_WORDS_PER_BLOCK_GROUP_2_Q@[6] == Q_NUM_CODEWORDS@[6]);
    }
    if version == 8 {
        lemma_product(NUM_ERROR_CORRECTION_BLOCKS_GROUP_1_Q@[7] as int, NUM_CODE_WORDS_PER_BLOCK_GROUP_1_Q@[7] as int, 4, 18);
        lemma_product(NUM_ERROR_CORRECTION_BLOCKS_GROUP_2_Q@[7] as int, NUM_CODE_WORDS_PER_BLOCK_GROUP_2_Q@[7] as int, 2, 19);
        lemma_product((NUM_ERROR_CORRECTION_BLOCKS_GROUP_1_Q@[7] + NUM_ERROR_CORRECTION_BLOCKS_GROUP_2_Q@[7]) as int, Q_ERROR_CORRECTION_CODE_WORDS@[7] as int, 6, 22);
        assert(NUM_ERROR_CORRECTION_BLOCKS_GROUP_1_Q@[7] * NUM_CODE_WORDS_PER_BLOCK_GROUP_1_Q@[7] + NUM_ERROR_CORRECTION_BLOCKS_GROUP_2_Q@[7] * NUM_CODE_WORDS_PER_BLOCK_GROUP_2_Q@[7] == Q_NUM_CODEWORDS@[7]);
    }
    if version == 9 {
        lemma_product(NUM_ERROR_CORRECTION_BLOCKS_GROUP_1_Q@[8] as int, NUM_CODE_WORDS_PER_BLOCK_GROUP_1_Q@[8] as int, 4, 16);
        lemma_product(NUM_ERROR_CORRECTION_BLOCKS_GROUP_2_Q@[8] as int, NUM_CODE_WORDS_PER_BLOCK_GROUP_2_Q@[8] as int, 4, 17);
        lemma_product((NUM_ERROR_CORRECTION_BLOCKS_GROUP_1_Q@[8] + NUM_ERROR_CORRECTION_BLOCKS_GROUP_2_Q@[8]) as int, Q_ERROR_CORRECTION_CODE_WORDS@[8] as int, 8, 20);
        assert(NUM_ERROR_CORRECTION_BLOCKS_GROUP_1_Q@[8] * NUM_CODE_WORDS_PER_BLOCK_GROUP_1_Q@[8] + NUM_ERROR_CORRECTION_BLOCKS_GROUP_2_Q@[8] * NUM_CODE_WORDS_PER_BLOCK_GROUP_2_Q@[8] == Q_NUM_CODEWORDS@[8]);
    }
    if version == 10 {
        lemma_product(NUM_ERROR_CORRECTION_BLOCKS_GROUP_1_Q@[9] as int, NUM_CODE_WORDS_PER_BLOCK_GROUP_1_Q@[9] as int, 6, 19);
        lemma_product(NUM_ERROR_CORRECTION_BLOCKS_GROUP_2_Q@[9] as int, NUM_CODE_WORDS_PER_BLOCK_GROUP_2_Q@[9] as int, 2, 20);
        lemma_product((NUM_ERROR_CORRECTION_BLOCKS_GROUP_1_Q@[9] + NUM_ERROR_CORRECTION_BLOCKS_GROUP_2_Q@[9]) as int, Q_ERROR_CORRECTION_CODE_WORDS@[9] as int, 8, 24);
        assert(NUM_ERROR_CORRECTION_BLOCKS_GROUP_1_Q@[9] * NUM_CODE_WORDS_PER_BLOCK_GROUP_1_Q@[9] + NUM_ERROR_CORRECTION_BLOCKS_GROUP_2_Q@[9] * NUM_CODE_WORDS_PER_BLOCK_GROUP_2_Q@[9] == Q_NUM_CODEWORDS@[9]);
    }
    if version == 11 {
        lemma_product(NUM_ERROR_CORRECTION_BLOCKS_GROUP_1_Q@[10] as int, NUM_CODE_WORDS_PER_BLOCK_GROUP_1_Q@[10] as int, 4, 22);
        lemma_product(NUM_ERROR_CORRECTION_BLOCKS_GROUP_2_Q@[10] as int, NUM_CODE_WORDS_PER_BLOCK_GROUP_2_Q@[10] as int, 4, 23);
        lemma_product((NUM_ERROR_CORRECTION_BLOCKS_GROUP_1_Q@[10] + NUM_ERROR_CORRECTION_BLOCKS_GROUP_2_Q@[10]) as int, Q_ERROR_CORRECTION_CODE_WORDS@[10] as int, 8, 28);
        assert(NUM_ERROR_CORRECTION_BLOCKS_GROUP_1_Q@[10] * NUM_CODE_WORDS_PER_BLOCK_GROUP_1_Q@[10] + NUM_ERROR_CORRECTION_BLOCKS_GROUP_2_Q@[10] * NUM_CODE_WORDS_PER_BLOCK_GROUP_2_Q@[10] == Q_NUM_CODEWORDS@[10]);
    }
    if version == 12 {
        lemma_product(NUM_ERROR_CORRECTION_BLOCKS_GROUP_1_Q@[11] as int, NUM_CODE_WORDS_PER_BLOCK_GROUP_1_Q@[11] as int, 4, 20);
        lemma_product(NUM_ERROR_CORRECTION_BLOCKS_GROUP_2_Q@[11] as int, NUM_CODE_WORDS_PER_BLOCK_GROUP_2_Q@[11] as int, 6, 21);
        lemma_product((NUM_ERROR_CORRECTION_BLOCKS_GROUP_1_Q@[11] + NUM_ERROR_CORRECTION_BLOCKS_GROUP_2_Q@[11]) as int, Q_ERROR_CORRECTION_CODE_WORDS@[11] as int, 10, 26);
        assert(NUM_ERROR_CORRECTION_BLOCKS_GROUP_1_Q@[11] * NUM_CODE_WORDS_PER_BLOCK_GROUP_1_Q@[11] + NUM_ERROR_CORRECTION_BLOCKS_GROUP_2_Q@[11] * NUM_CODE_WORDS_PER_BLOCK_GROUP_2_Q@[11] == Q_NUM_CODEWORDS@[11]);
    }
    if version == 13 {
        lemma_product(NUM_ERROR_CORRECTION_BLOCKS_GROUP_1_Q@[12] as int, NUM_CODE_WORDS_PER_BLOCK_GROUP_1_Q@[12] as int, 8, 20);
        lemma_product(NUM_ERROR_CORRECTION_BLOCKS_GROUP_2_Q@[12] as int, NUM_CODE_WORDS_PER_BLOCK_GROUP_2_Q@[12] as int, 4, 21);
        lemma_product((NUM_ERROR_CORRECTION_BLOCKS_GROUP_1_Q@[12] + NUM_ERROR_CORRECTION_BLOCKS_GROUP_2_Q@[12]) as int, Q_ERROR_CORRECTION_CODE_WORDS@[12] as int, 12, 24);
        assert(NUM_ERROR_CORRECTION_BLOCKS_GROUP_1_Q@[12] * NUM_CODE_WORDS_PER_BLOCK_GROUP_1_Q@[12] + NUM_ERROR_CORRECTION_BLOCKS_GROUP_2_Q@[12] * NUM_CODE_WORDS_PER_BLOCK_GROUP_2_Q@[12] == Q_NUM_CODEWORDS@[12]);
    }
    if version == 14 {
        lemma_product(NUM_ERROR_CORRECTION_BLOCKS_GROUP_1_Q@[13] as int, NUM_CODE_WORDS_PER_BLOCK_GROUP_1_Q@[13] as int, 11, 16);
        lemma_product(NUM_ERROR_CORRECTION_BLOCKS_GROUP_2_Q@[13] as int, NUM_CODE_WORDS_PER_BLOCK_GROUP_2_Q@[13] as int, 5, 17);
        lemma_product((NUM_ERROR_CORRECTION_BLOCKS_GROUP_1_Q@[13] + NUM_ERROR_CORRECTION_BLOCKS_GROUP_2_Q@[13]) as int, Q_ERROR_CORRECTION_CODE_WORDS@[13] as int, 16, 20);
        assert(NUM_ERROR_CORRECTION_BLOCKS_GROUP_1_Q@[13] * NUM_CODE_WORDS_PER_BLOCK_GROUP_1_Q@[13] + NUM_ERROR_CORRECTION_BLOCKS_GROUP_2_Q@[13] * NUM_CODE_WORDS_PER_BLOCK_GROUP_2_Q@[13] == Q_NUM_CODEWORDS@[13]);
    }
    if version == 15 {
        lemma_product(NUM_ERROR_CORRECTION_BLOCKS_GROUP_1_Q@[14] as int, NUM_CODE_WORDS_PER_BLOCK_GROUP_1_Q@[14] as int, 5, 24);
        lemma_product(NUM_ERROR_CORRECTION_BLOCKS_GROUP_2_Q@[14] as int, NUM_CODE_WORDS_PER_BLOCK_GROUP_2_Q@[14] as int, 7, 25);
        lemma_product((NUM_ERROR_CORRECTION_BLOCKS_GROUP_1_Q@[14] + NUM_ERROR_CORRECTION_BLOCKS_GROUP_2_Q@[14]) as int, Q_ERROR_CORRECTION_CODE_WORDS@[14] as int, 12, 30);
        assert(NUM_ERROR_CORRECTION_BLOCKS_GROUP_1_Q@[14] * NUM_CODE_WORDS_PER_BLOCK_GROUP_1_Q@[14] + NUM_ERROR_CORRECTION_BLOCKS_GROUP_2_Q@[14] * NUM_CODE_WORDS_PER_BLOCK_GROUP_2_Q@[14] == Q_NUM_CODEWORDS@[14]);
    }
    if version == 16 {
        lemma_product(NUM_ERROR_CORRECTION_BLOCKS_GROUP_1_Q@[15] as int, NUM_CODE_WORDS_PER_BLOCK_GROUP_1_Q@[15] as int, 15, 19);
        lemma_product(NUM_ERROR_CORRECTION_BLOCKS_GROUP_2_Q@[15] as int, NUM_CODE_WORDS_PER_BLOCK_GROUP_2_Q@[15] as int, 2, 20);
        lemma_product((NUM_ERROR_CORRECTION_BLOCKS_GROUP_1_Q@[15] + NUM_ERROR_CORRECTION_BLOCKS_GROUP_2_Q@[15]) as int, Q_ERROR_CORRECTION_CODE_WORDS@[15] as int, 17, 24);
        assert(NUM_ERROR_CORRECTION_BLOCKS_GROUP_1_Q@[15] * NUM_CODE_WORDS_PER_BLOCK_GROUP_1_Q@[15] + NUM_ERROR_CORRECTION_BLOCKS_GROUP_2_Q@[15] * NUM_CODE_WORDS_PER_BLOCK_GROUP_2_Q@[15] == Q_NUM_CODEWORDS@[15]);
    }
    if version == 17 {
        lemma_product(NUM_ERROR_CORRECTION_BLOCKS_GROUP_1_Q@[16] as int, NUM_CODE_WORDS_PER_BLOCK_GROUP_1_Q@[16] as int, 1, 22);
        lemma_product(NUM_ERROR_CORRECTION_BLOCKS_GROUP_2_Q@[16] as int, NUM_CODE_WORDS_PER_BLOCK_GROUP_2_Q@[16] as int, 15, 23);
        lemma_product((NUM_ERROR_CORRECTION_BLOCKS_GROUP_1_Q@[16] + NUM_ERROR_CORRECTION_BLOCKS_GROUP_2_Q@[16]) as int, Q_ERROR_CORRECTION_CODE_WORDS@[16] as int, 16, 28);
        assert(NUM_ERROR_CORRECTION_BLOCKS_GROUP_1_Q@[16] * NUM_CODE_WORDS_PER_BLOCK_GROUP_1_Q@[16] + NUM_ERROR_CORRECTION_BLOCKS_GROUP_2_Q@[16] * NUM_CODE_WORDS_PER_BLOCK_GROUP_2_Q@[16] == Q_NUM_CODEWORDS@[16]);
    }
    if version == 18 {
        lemma_product(NUM_ERROR_CORRECTION_BLOCKS_GROUP_1_Q@[17] as int, NUM_CODE_WORDS_PER_BLOCK_GROUP_1_Q@[17] as int, 17, 22);
        lemma_product(NUM_ERROR_CORRECTION_BLOCKS_GROUP_2_Q@[17] as int, NUM_CODE_WORDS_PER_BLOCK_GROUP_2_Q@[17] as int, 1, 23);
        lemma_product((NUM_ERROR_CORRECTION_BLOCKS_GROUP_1_Q@[17] + NUM_ERROR_CORRECTION_BLOCKS_GROUP_2_Q@[17]) as int, Q_ERROR_CORRECTION_CODE_WORDS@[17] as int, 18, 28);
        assert(NUM_ERROR_CORRECTION_BLOCKS_GROUP_1_Q@[17] * NUM_CODE_WORDS_PER_BLOCK_GROUP_1_Q@[17] + NUM_ERROR_CORRECTION_BLOCKS_GROUP_2_Q@[17] * NUM_CODE_WORDS_PER_BLOCK_GROUP_2_Q@[17] == Q_NUM_CODEWORDS@[17]);
    }
    if version == 19 {
        lemma_product(NUM_ERROR_CORRECTION_BLOCKS_GROUP_1_Q@[18] as int, NUM_CODE_WORDS_PER_BLOCK_GROUP_1_Q@[18] as int, 17, 21);
        lemma_product(NUM_ERROR_CORRECTION_BLOCKS_GROUP_2_Q@[18] as int, NUM_CODE_WORDS_PER_BLOCK_GROUP_2_Q@[18] as int, 4, 22);
        lemma_product((NUM_ERROR_CORRECTION_BLOCKS_GROUP_1_Q@[18] + NUM_ERROR_CORRECTION_BLOCKS_GROUP_2_Q@[18]) as int, Q_ERROR_CORRECTION_CODE_WORDS@[18] as int, 21, 26);
        assert(NUM_ERROR_CORRECTION_BLOCKS_GROUP_1_Q@[18] * NUM_CODE_WORDS_PER_BLOCK_GROUP_1_Q@[18] + NUM_ERROR_CORRECTION_BLOCKS_GROUP_2_Q@[18] * NUM_CODE_WORDS_PER_BLOCK_GROUP_2_Q@[18] == Q_NUM_CODEWORDS@[18]);
    }
    if version == 20 {
        lemma_product(NUM_ERROR_CORRECTION_BLOCKS_GROUP_1_Q@[19] as int, NUM_CODE_WORDS_PER_BLOCK_GROUP_1_Q@[19] as int, 15, 24);
        lemma_product(NUM_ERROR_CORRECTION_BLOCKS_GROUP_2_Q@[19] as int, NUM_CODE_WORDS_PER_BLOCK_GROUP_2_Q@[19] as int, 5, 25);
        lemma_product((NUM_ERROR_CORRECTION_BLOCKS_GROUP_1_Q@[19] + NUM_ERROR_CORRECTION_BLOCKS_GROUP_2_Q@[19]) as int, Q_ERROR_CORRECTION_CODE_WORDS@[19] as int, 20, 30);
        assert(NUM_ERROR_CORRECTION_BLOCKS_GROUP_1_Q@[19] * NUM_CODE_WORDS_PER_BLOCK_GROUP_1_Q@[19] + NUM_ERROR_CORRECTION_BLOCKS_GROUP_2_Q@[19] * NUM_CODE_WORDS_PER_BLOCK_GROUP_2_Q@[19] == Q_NUM_CODEWORDS@[19]);
    }
    if version == 21 {
        lemma_product(NUM_ERROR_CORRECTION_BLOCKS_GROUP_1_Q@[20] as int, NUM_CODE_WORDS_PER_BLOCK_GROUP_1_Q@[20] as int, 17, 22);
        lemma_product(NUM_ERROR_CORRECTION_BLOCKS_GROUP_2_Q@[20] as int, NUM_CODE_WORDS_PER_BLOCK_GROUP_2_Q@[20] as int, 6, 23);
        lemma_product((NUM_ERROR_CORRECTION_BLOCKS_GROUP_1_Q@[20] + NUM_ERROR_CORRECTION_BLOCKS_GROUP_2_Q@[20]) as int, Q_ERROR_CORRECTION_CODE_WORDS@[20] as int, 23, 28);
        assert(NUM_ERROR_CORRECTION_BLOCKS_GROUP_1_Q@[20] * NUM_CODE_WORDS_PER_BLOCK_GROUP_1_Q@[20] + NUM_ERROR_CORRECTION_BLOCKS_GROUP_2_Q@[20] * NUM_CODE_WORDS_PER_BLOCK_GROUP_2_Q@[20] == Q_NUM_CODEWORDS@[20]);
    }
    if version == 22 {
        lemma_product(NUM_ERROR_CORRECTION_BLOCKS_GROUP_1_Q@[21] as int, NUM_CODE_WORDS_PER_BLOCK_GROUP_1_Q@[21] as int, 7, 24);
        lemma_product(NUM_ERROR_CORRECTION_BLOCKS_GROUP_2_Q@[21] as int, NUM_CODE_WORDS_PER_BLOCK_GROUP_2_Q@[21] as int, 16, 25);
        lemma_product((NUM_ERROR_CORRECTION_BLOCKS_GROUP_1_Q@[21] + NUM_ERROR_CORRECTION_BLOCKS_GROUP_2_Q@[21]) as int, Q_ERROR_CORRECTION_CODE_WORDS@[21] as int, 23, 30);
        assert(NUM_ERROR_CORRECTION_BLOCKS_GROUP_1_Q@[21] * NUM_CODE_WORDS_PER_BLOCK_GROUP_1_Q@[21] + NUM_ERROR_CORRECTION_BLOCKS_GROUP_2_Q@[21] * NUM_CODE_WORDS_PER_BLOCK_GROUP_2_Q@[21] == Q_NUM_CODEWORDS@[21]);
    }
    if version == 23 {
        lemma_product(NUM_ERROR_CORRECTION_BLOCKS_GROUP_1_Q@[22] as int, NUM_CODE_WORDS_PER_BLOCK_GROUP_1_Q@[22] as int, 11, 24);
        lemma_product(NUM_ERROR_CORRECTION_BLOCKS_GROUP_2_Q@[22] as int, NUM_CODE_WORDS_PER_BLOCK_GROUP_2_Q@[22] as int, 14, 25);
        lemma_product((NUM_ERROR_CORRECTION_BLOCKS_GROUP_1_Q@[22] + NUM_ERROR_CORRECTION_BLOCKS_GROUP_2_Q@[22]) as int, Q_ERROR_CORRECTION_CODE_WORDS@[22] as int, 25, 30);
        assert(NUM_ERROR_CORRECTION_BLOCKS_GROUP_1_Q@[22] * NUM_CODE_WORDS_PER_BLOCK_GROUP_1_Q@[22] + NUM_ERROR_CORRECTION_BLOCKS_GROUP_2_Q@[22] * NUM_CODE_WORDS_PER_BLOCK_GROUP_2_Q@[22] == Q_NUM_CODEWORDS@[22]);
    }
    if version == 24 {
        lemma_product(NUM_ERROR_CORRECTION_BLOCKS_GROUP_1_Q@[23] as int, NUM_CODE_WORDS_PER_BLOCK_GROUP_1_Q@[23] as int, 11, 24);
        lemma_product(NUM_ERROR_CORRECTION_BLOCKS_GROUP_2_Q@[23] as int, NUM_CODE_WORDS_PER_BLOCK_GROUP_2_Q@[23] as int, 16, 25);
        lemma_product((NUM_ERROR_CORRECTION_BLOCKS_GROUP_1_Q@[23] + NUM_ERROR_CORRECTION_BLOCKS_GROUP_2_Q@[23]) as int, Q_ERROR_CORRECTION_CODE_WORDS@[23] as int, 27, 30);
        assert(NUM_ERROR_CORRECTION_BLOCKS_GROUP_1_Q@[23] * NUM_CODE_WORDS_PER_BLOCK_GROUP_1_Q@[23] + NUM_ERROR_CORRECTION_BLOCKS_GROUP_2_Q@[23] * NUM_CODE_WORDS_PER_BLOCK_GROUP_2_Q@[23] == Q_NUM_CODEWORDS@[23]);
    }
    if version == 25 {
        lemma_product(NUM_ERROR_CORRECTION_BLOCKS_GROUP_1_Q@[24] as int, NUM_CODE_WORDS_PER_BLOCK_GROUP_1_Q@[24] as int, 7, 24);
        lemma_product(NUM_ERROR_CORRECTION_BLOCKS_GROUP_2_Q@[24] as int, NUM_CODE_WORDS_PER_BLOCK_GROUP_2_Q@[24] as int, 22, 25);
        lemma_product((NUM_ERROR_CORRECTION_BLOCKS_GROUP_1_Q@[24] + NUM_ERROR_CORRECTION_BLOCKS_GROUP_2_Q@[24]) as int, Q_ERROR_CORRECTION_CODE_WORDS@[24] as int, 29, 30);
        assert(NUM_ERROR_CORRECTION_BLOCKS_GROUP_1_Q@[24] * NUM_CODE_WORDS_PER_BLOCK_GROUP_1_Q@[24] + NUM_ERROR_CORRECTION_BLOCKS_GROUP_2_Q@[24] * NUM_CODE_WORDS_PER_BLOCK_GROUP_2_Q@[24] == Q_NUM_CODEWORDS@[24]);
    }
    if version == 26 {
        lemma_product(NUM_ERROR_CORRECTION_BLOCKS_GROUP_1_Q@[25] as int, NUM_CODE_WORDS_PER_BLOCK_GROUP_1_Q@[25] as int, 28, 22);
        lemma_product(NUM_ERROR_CORRECTION_BLOCKS_GROUP_2_Q@[25] as int, NUM_CODE_WORDS_PER_BLOCK_GROUP_2_Q@[25] as int, 6, 23);
        lemma_product((NUM_ERROR_CORRECTION_BLOCKS_GROUP_1_Q@[25] + NUM_ERROR_CORRECTION_BLOCKS_GROUP_2_Q@[25]) as int, Q_ERROR_CORRECTION_CODE_WORDS@[25] as int, 34, 28);
        assert(NUM_ERROR_CORRECTION_BLOCKS_GROUP_1_Q@[25] * NUM_CODE_WORDS_PER_BLOCK_GROUP_1_Q@[25] + NUM_ERROR_CORRECTION_BLOCKS_GROUP_2_Q@[25] * NUM_CODE_WORDS_PER_BLOCK_GROUP_2_Q@[25] == Q_NUM_CODEWORDS@[25]);
    }
    if version == 27 {
        lemma_product(NUM_ERROR_CORRECTION_BLOCKS_GROUP_1_Q@[26] as int, NUM_CODE_WORDS_PER_BLOCK_GROUP_1_Q@[26] as int, 8, 23);
        lemma_product(NUM_ERROR_CORRECTION_BLOCKS_GROUP_2_Q@[26] as int, NUM_CODE_WORDS_PER_BLOCK_GROUP_2_Q@[26] as int, 26, 24);
        lemma_product((NUM_ERROR_CORRECTION_BLOCKS_GROUP_1_Q@[26] + NUM_ERROR_CORRECTION_BLOCKS_GROUP_2_Q@[26]) as int, Q_ERROR_CORRECTION_CODE_WORDS@[26] as int, 34, 30);
        assert(NUM_ERROR_CORRECTION_BLOCKS_GROUP_1_Q@[26] * NUM_CODE_WORDS_PER_BLOCK_GROUP_1_Q@[26] + NUM_ERROR_CORRECTION_BLOCKS_GROUP_2_Q@[26] * NUM_CODE_WORDS_PER_BLOCK_GROUP_2_Q@[26] == Q_NUM_CODEWORDS@[26]);
    }
    if version == 28 {
        lemma_product(NUM_ERROR_CORRECTION_BLOCKS_GROUP_1_Q@[27] as int, NUM_CODE_WORDS_PER_BLOCK_GROUP_1_Q@[27] as int, 4, 24);
        lemma_product(NUM_ERROR_CORRECTION_BLOCKS_GROUP_2_Q@[27] as int, NUM_CODE_WORDS_PER_BLOCK_GROUP_2_Q@[27] as int, 31, 25);
        lemma_product((NUM_ERROR_CORRECTION_BLOCKS_GROUP_1_Q@[27] + NUM_ERROR_CORRECTION_BLOCKS_GROUP_2_Q@[27]) as int, Q_ERROR_CORRECTION_CODE_WORDS@[27] as int, 35, 30);
        assert(NUM_ERROR_CORRECTION_BLOCKS_GROUP_1_Q@[27] * NUM_CODE_WORDS_PER_BLOCK_GROUP_1_Q@[27] + NUM_ERROR_CORRECTION_BLOCKS_GROUP_2_Q@[27] * NUM_CODE_WORDS_PER_BLOCK_GROUP_2_Q@[27] == Q_NUM_CODEWORDS@[27]);
    }
    if version == 29 {
        lemma_product(NUM_ERROR_CORRECTION_BLOCKS_GROUP_1_Q@[28] as int, NUM_CODE_WORDS_PER_BLOCK_GROUP_1_Q@[28] as int, 1, 23);
        lemma_product(NUM_ERROR_CORRECTION_BLOCKS_GROUP_2_Q@[28] as int, NUM_CODE_WORDS_PER_BLOCK_GROUP_2_Q@[28] as int, 37, 24);
        lemma_product((NUM_ERROR_CORRECTION_BLOCKS_GROUP_1_Q@[28] + NUM_ERROR_CORRECTION_BLOCKS_GROUP_2_Q@[28]) as int, Q_ERROR_CORRECTION_CODE_WORDS@[28] as int, 38, 30);
        assert(NUM_ERROR_CORRECTION_BLOCKS_GROUP_1_Q@[28] * NUM_CODE_WORDS_PER_BLOCK_GROUP_1_Q@[28] + NUM_ERROR_CORRECTION_BLOCKS_GROUP_2_Q@[28] * NUM_CODE_WORDS_PER_BLOCK_GROUP_2_Q@[28] == Q_NUM_CODEWORDS@[28]);
    }
    if version == 30 {
        lemma_product(NUM_ERROR_CORRECTION_BLOCKS_GROUP_1_Q@[29] as int, NUM_CODE_WORDS_PER_BLOCK_GROUP_1_Q@[29] as int, 15, 24);
        lemma_product(NUM_ERROR_CORRECTION_BLOCKS_GROUP_2_Q@[29] as int, NUM_CODE_WORDS_PER_BLOCK_GROUP_2_Q@[29] as int, 25, 25);
        lemma_product((NUM_ERROR_CORRECTION_BLOCKS_GROUP_1_Q@[29] + NUM_ERROR_CORRECTION_BLOCKS_GROUP_2_Q@[29]) as int, Q_ERROR_CORRECTION_CODE_WORDS@[29] as int, 40, 30);
        assert(NUM_ERROR_CORRECTION_BLOCKS_GROUP_1_Q@[29] * NUM_CODE_WORDS_PER_BLOCK_GROUP_1_Q@[29] + NUM_ERROR_CORRECTION_BLOCKS_GROUP_2_Q@[29] * NUM_CODE_WORDS_PER_BLOCK_GROUP_2_Q@[29] == Q_NUM_CODEWORDS@[29]);
    }
    if version == 31 {
        lemma_product(NUM_ERROR_CORRECTION_BLOCKS_GROUP_1_Q@[30] as int, NUM_CODE_WORDS_PER_BLOCK_GROUP_1_Q@[30] as int, 42, 24);
        lemma_product(NUM_ERROR_CORRECTION_BLOCKS_GROUP_2_Q@[30] as int, NUM_CODE_WORDS_PER_BLOCK_GROUP_2_Q@[30] as int, 1, 25);
        lemma_product((NUM_ERROR_CORRECTION_BLOCKS_GROUP_1_Q@[30] + NUM_ERROR_CORRECTION_BLOCKS_GROUP_2_Q@[30]) as int, Q_ERROR_CORRECTION_CODE_WORDS@[30] as int, 43, 30);
        assert(NUM_ERROR_CORRECTION_BLOCKS_GROUP_1_Q@[30] * NUM_CODE_WORDS_PER_BLOCK_GROUP_1_Q@[30] + NUM_ERROR_CORRECTION_BLOCKS_GROUP_2_Q@[30] * NUM_CODE_WORDS_PER_BLOCK_GROUP_2_Q@[30] == Q_NUM_CODEWORDS@[30]);
    }
    if version == 32 {
        lemma_product(NUM_ERROR_CORRECTION_BLOCKS_GROUP_1_Q@[31] as int, NUM_CODE_WORDS_PER_BLOCK_GROUP_1_Q@[31] as int, 10, 24);
        lemma_product(NUM_ERROR_CORRECTION_BLOCKS_GROUP_2_Q@[31] as int, NUM_CODE_WORDS_PER_BLOCK_GROUP_2_Q@[31] as int, 35, 25);
        lemma_product((NUM_ERROR_CORRECTION_BLOCKS_GROUP_1_Q@[31] + NUM_ERROR_CORRECTION_BLOCKS_GROUP_2_Q@[31]) as int, Q_ERROR_CORRECTION_CODE_WORDS@[31] as int, 45, 30);
        assert(NUM_ERROR_CORRECTION_BLOCKS_GROUP_1_Q@[31] * NUM_CODE_WORDS_PER_BLOCK_GROUP_1_Q@[31] + NUM_ERROR_CORRECTION_BLOCKS_GROUP_2_Q@[31] * NUM_CODE_WORDS_PER_BLOCK_GROUP_2_Q@[31] == Q_NUM_CODEWORDS@[31]);
    }
    if version == 33 {
        lemma_product(NUM_ERROR_CORRECTION_BLOCKS_GROUP_1_Q@[32] as int, NUM_CODE_WORDS_PER_BLOCK_GROUP_1_Q@[32] as int, 29, 24);
        lemma_product(NUM_ERROR_CORRECTION_BLOCKS_GROUP_2_Q@[32] as int, NUM_CODE_WORDS_PER_BLOCK_GROUP_2_Q@[32] as int, 19, 25);
        lemma_product((NUM_ERROR_CORRECTION_BLOCKS_GROUP_1_Q@[32] + NUM_ERROR_CORRECTION_BLOCKS_GROUP_2_Q@[32]) as int, Q_ERROR_CORRECTION_CODE_WORDS@[32] as int, 48, 30);
        assert(NUM_ERROR_CORRECTION_BLOCKS_GROUP_1_Q@[32] * NUM_CODE_WORDS_PER_BLOCK_GROUP_1_Q@[32] + NUM_ERROR_CORRECTION_BLOCKS_GROUP_2_Q@[32] * NUM_CODE_WORDS_PER_BLOCK_GROUP_2_Q@[32] == Q_NUM_CODEWORDS@[32]);
    }
    if version == 34 {
        lemma_product(NUM_ERROR_CORRECTION_BLOCKS_GROUP_1_Q@[33] as int, NUM_CODE_WORDS_PER_BLOCK_GROUP_1_Q@[33] as int, 44, 24);
        lemma_product(NUM_ERROR_CORRECTION_BLOCKS_GROUP_2_Q@[33] as int, NUM_CODE_WORDS_PER_BLOCK_GROUP_2_Q@[33] as int, 7, 25);
        lemma_product((NUM_ERROR_CORRECTION_BLOCKS_GROUP_1_Q@[33] + NUM_ERROR_CORRECTION_BLOCKS_GROUP_2_Q@[33]) as int, Q_ERROR_CORRECTION_CODE_WORDS@[33] as int, 51, 30);
        assert(NUM_ERROR_CORRECTION_BLOCKS_GROUP_1_Q@[33] * NUM_CODE_WORDS_PER_BLOCK_GROUP_1_Q@[33] + NUM_ERROR_CORRECTION_BLOCKS_GROUP_2_Q@[33] * NUM_CODE_WORDS_PER_BLOCK_GROUP_2_Q@[33] == Q_NUM_CODEWORDS@[33]);
    }
    if version == 35 {
        lemma_product(NUM_ERROR_CORRECTION_BLOCKS_GROUP_1_Q@[34] as int, NUM_CODE_WORDS_PER_BLOCK_GROUP_1_Q@[34] as int, 39, 24);
        lemma_product(NUM_ERROR_CORRECTION_BLOCKS_GROUP_2_Q@[34] as int, NUM_CODE_WORDS_PER_BLOCK_GROUP_2_Q@[34] as int, 14, 25);
        lemma_product((NUM_ERROR_CORRECTION_BLOCKS_GROUP_1_Q@[34] + NUM_ERROR_CORRECTION_BLOCKS_GROUP_2_Q@[34]) as int, Q_ERROR_CORRECTION_CODE_WORDS@[34] as int, 53, 30);
        assert(NUM_ERROR_CORRECTION_BLOCKS_GROUP_1_Q@[34] * NUM_CODE_WORDS_PER_BLOCK_GROUP_1_Q@[34] + NUM_ERROR_CORRECTION_BLOCKS_GROUP_2_Q@[34] * NUM_CODE_WORDS_PER_BLOCK_GROUP_2_Q@[34] == Q_NUM_CODEWORDS@[34]);
    }
    if version == 36 {
        lemma_product(NUM_ERROR_CORRECTION_BLOCKS_GROUP_1_Q@[35] as int, NUM_CODE_WORDS_PER_BLOCK_GROUP_1_Q@[35] as int, 46, 24);
        lemma_product(NUM_ERROR_CORRECTION_BLOCKS_GROUP_2_Q@[35] as int, NUM_CODE_WORDS_PER_BLOCK_GROUP_2_Q@[35] as int, 10, 25);
        lemma_product((NUM_ERROR_CORRECTION_BLOCKS_GROUP_1_Q@[35] + NUM_ERROR_CORRECTION_BLOCKS_GROUP_2_Q@[35]) as int, Q_ERROR_CORRECTION_CODE_WORDS@[35] as int, 56, 30);
        assert(NUM_ERROR_CORRECTION_BLOCKS_GROUP_1_Q@[35] * NUM_CODE_WORDS_PER_BLOCK_GROUP_1_Q@[35] + NUM_ERROR_CORRECTION_BLOCKS_GROUP_2_Q@[35] * NUM_CODE_WORDS_PER_BLOCK_GROUP_2_Q@[35] == Q_NUM_CODEWORDS@[35]);
    }
    if version == 37 {
        lemma_product(NUM_ERROR_CORRECTION_BLOCKS_GROUP_1_Q@[36] as int, NUM_CODE_WORDS_PER_BLOCK_GROUP_1_Q@[36] as int, 49, 24);
        lemma_product(NUM_ERROR_CORRECTION_BLOCKS_GROUP_2_Q@[36] as int, NUM_CODE_WORDS_PER_BLOCK_GROUP_2_Q@[36] as int, 10, 25);
        lemma_product((NUM_ERROR_CORRECTION_BLOCKS_GROUP_1_Q@[36] + NUM_ERROR_CORRECTION_BLOCKS_GROUP_2_Q@[36]) as int, Q_ERROR_CORRECTION_CODE_WORDS@[36] as int, 59, 30);
        assert(NUM_ERROR_CORRECTION_BLOCKS_GROUP_1_Q@[36] * NUM_CODE_WORDS_PER_BLOCK_GROUP_1_Q@[36] + NUM_ERROR_CORRECTION_BLOCKS_GROUP_2_Q@[36] * NUM_CODE_WORDS_PER_BLOCK_GROUP_2_Q@[36] == Q_NUM_CODEWORDS@[36]);
    }
    if version == 38 {
        lemma_product(NUM_ERROR_CORRECTION_BLOCKS_GROUP_1_Q@[37] as int, NUM_CODE_WORDS_PER_BLOCK_GROUP_1_Q@[37] as int, 48, 24);
        lemma_product(NUM_ERROR_CORRECTION_BLOCKS_GROUP_2_Q@[37] as int, NUM_CODE_WORDS_PER_BLOCK_GROUP_2_Q@[37] as int, 14, 25);
        lemma_product((NUM_ERROR_CORRECTION_BLOCKS_GROUP_1_Q@[37] + NUM_ERROR_CORRECTION_BLOCKS_GROUP_2_Q@[37]) as int, Q_ERROR_CORRECTION_CODE_WORDS@[37] as int, 62, 30);
        assert(NUM_ERROR_CORRECTION_BLOCKS_GROUP_1_Q@[37] * NUM_CODE_WORDS_PER_BLOCK_GROUP_1_Q@[37] + NUM_ERROR_CORRECTION_BLOCKS_GROUP_2_Q@[37] * NUM_CODE_WORDS_PER_BLOCK_GROUP_2_Q@[37] == Q_NUM_CODEWORDS@[37]);
    }
    if version == 39 {
        lemma_product(NUM_ERROR_CORRECTION_BLOCKS_GROUP_1_Q@[38] as int, NUM_CODE_WORDS_PER_BLOCK_GROUP_1_Q@[38] as int, 43, 24);
        lemma_product(NUM_ERROR_CORRECTION_BLOCKS_GROUP_2_Q@[38] as int, NUM_CODE_WORDS_PER_BLOCK_GROUP_2_Q@[38] as int, 22, 25);
        lemma_product((NUM_ERROR_CORRECTION_BLOCKS_GROUP_1_Q@[38] + NUM_ERROR_CORRECTION_BLOCKS_GROUP_2_Q@[38]) as int, Q_ERROR_CORRECTION_CODE_WORDS@[38] as int, 65, 30);
        assert(NUM_ERROR_CORRECTION_BLOCKS_GROUP_1_Q@[38] * NUM_CODE_WORDS_PER_BLOCK_GROUP_1_Q@[38] + NUM_ERROR_CORRECTION_BLOCKS_GROUP_2_Q@[38] * NUM_CODE_WORDS_PER_BLOCK_GROUP_2_Q@[38] == Q_NUM_CODEWORDS@[38]);
    }
    if version == 40 {
        lemma_product(NUM_ERROR_CORRECTION_BLOCKS_GROUP_1_Q@[39] as int, NUM_CODE_WORDS_PER_BLOCK_GROUP_1_Q@[39] as int, 34, 24);
        lemma_product(NUM_ERROR_CORRECTION_BLOCKS_GROUP_2_Q@[39] as int, NUM_CODE_WORDS_PER_BLOCK_GROUP_2_Q@[39] as int, 34, 25);
        lemma_product((NUM_ERROR_CORRECTION_BLOCKS_GROUP_1_Q@[39] + NUM_ERROR_CORRECTION_BLOCKS_GROUP_2_Q@[39]) as int, Q_ERROR_CORRECTION_CODE_WORDS@[39] as int, 68, 30);
        assert(NUM_ERROR_CORRECTION_BLOCKS_GROUP_1_Q@[39] * NUM_CODE_WORDS_PER_BLOCK_GROUP_1_Q@[39] + NUM_ERROR_CORRECTION_BLOCKS_GROUP_2_Q@[39] * NUM_CODE_WORDS_PER_BLOCK_GROUP_2_Q@[39] == Q_NUM_CODEWORDS@[39]);
    }
}

proof fn lemma_block_layout_h(version: int)
    requires
        is_version(version),
    ensures
        NUM_ERROR_CORRECTION_BLOCKS_GROUP_1_H@[version - 1] * NUM_CODE_WORDS_PER_BLOCK_GROUP_1_H@[version
            - 1] + NUM_ERROR_CORRECTION_BLOCKS_GROUP_2_H@[version - 1]
            * NUM_CODE_WORDS_PER_BLOCK_GROUP_2_H@[version - 1] == H_NUM_CODEWORDS@[version - 1],
        NUM_ERROR_CORRECTION_BLOCKS_GROUP_1_H@[version - 1] >= 1,
        NUM_CODE_WORDS_PER_BLOCK_GROUP_1_H@[version - 1] >= 1,
        NUM_ERROR_CORRECTION_BLOCKS_GROUP_2_H@[version - 1] > 0
            ==> NUM_CODE_WORDS_PER_BLOCK_GROUP_2_H@[version - 1]
            == NUM_CODE_WORDS_PER_BLOCK_GROUP_1_H@[version - 1] + 1,
        NUM_ERROR_CORRECTION_BLOCKS_GROUP_2_H@[version - 1] == 0
            ==> NUM_CODE_WORDS_PER_BLOCK_GROUP_2_H@[version - 1] == 0,
        7 <= H_ERROR_CORRECTION_CODE_WORDS@[version - 1] <= 30,
        H_NUM_CODEWORDS@[version - 1] + (NUM_ERROR_CORRECTION_BLOCKS_GROUP_1_H@[version - 1]
            + NUM_ERROR_CORRECTION_BLOCKS_GROUP_2_H@[version - 1])
            * H_ERROR_CORRECTION_CODE_WORDS@[version - 1] == TOTAL_CODEWORDS@[version - 1],
        1 <= NUM_ERROR_CORRECTION_BLOCKS_GROUP_1_H@[version - 1]
            + NUM_ERROR_CORRECTION_BLOCKS_GROUP_2_H@[version - 1] <= 81,
        9 <= H_NUM_CODEWORDS@[version - 1] <= 2956,
        26 <= TOTAL_CODEWORDS@[version - 1] <= 3706,
        0 <= REQUIRED_REMAINDER_BITS@[version - 1] <= 7,
{
    if version == 1 {
        lemma_product(NUM_ERROR_CORRECTION_BLOCKS_GROUP_1_H@[0] as int, NUM_CODE_WORDS_PER_BLOCK_GROUP_1_H@[0] as int, 1, 9);
        lemma_product(NUM_ERROR_CORRECTION_BLOCKS_GROUP_2_H@[0] as int, NUM_CODE_WORDS_PER_BLOCK_GROUP_2_H@[0] as int, 0, 0);
        lemma_product((NUM_ERROR_CORRECTION_BLOCKS_GROUP_1_H@[0] + NUM_ERROR_CORRECTION_BLOCKS_GROUP_2_H@[0]) as int, H_ERROR_CORRECTION_CODE_WORDS@[0] as int, 1, 17);
        assert(NUM_ERROR_CORRECTION_BLOCKS_GROUP_1_H@[0] * NUM_CODE_WORDS_PER_BLOCK_GROUP_1_H@[0] + NUM_ERROR_CORRECTION_BLOCKS_GROUP_2_H@[0] * NUM_CODE_WORDS_PER_BLOCK_GROUP_2_H@[0] == H_NUM_CODEWORDS@[0]);
    }
    if version == 2 {
        lemma_product(NUM_ERROR_CORRECTION_BLOCKS_GROUP_1_H@[1] as int, NUM_CODE_WORDS_PER_BLOCK_GROUP_1_H@[1] as int, 1, 16);
        lemma_product(NUM_ERROR_CORRECTION_BLOCKS_GROUP_2_H@[1] as int, NUM_CODE_WORDS_PER_BLOCK_GROUP_2_H@[1] as int, 0, 0);
        lemma_product((NUM_ERROR_CORRECTION_BLOCKS_GROUP_1_H@[1] + NUM_ERROR_CORRECTION_BLOCKS_GROUP_2_H@[1]) as int, H_ERROR_CORRECTION_CODE_WORDS@[1] as int, 1, 28);
        assert(NUM_ERROR_CORRECTION_BLOCKS_GROUP_1_H@[1] * NUM_CODE_WORDS_PER_BLOCK_GROUP_1_H@[1] + NUM_ERROR_CORRECTION_BLOCKS_GROUP_2_H@[1] * NUM_CODE_WORDS_PER_BLOCK_GROUP_2_H@[1] == H_NUM_CODEWORDS@[1]);
    }
    if version == 3 {
        lemma_product(NUM_ERROR_CORRECTION_BLOCKS_GROUP_1_H@[2] as int, NUM_CODE_WORDS_PER_BLOCK_GROUP_1_H@[2] as int, 2, 13);
        lemma_product(NUM_ERROR_CORRECTION_BLOCKS_GROUP_2_H@[2] as int, NUM_CODE_WORDS_PER_BLOCK_GROUP_2_H@[2] as int, 0, 0);
        lemma_product((NUM_ERROR_CORRECTION_BLOCKS_GROUP_1_H@[2] + NUM_ERROR_CORRECTION_BLOCKS_GROUP_2_H@[2]) as int, H_ERROR_CORRECTION_CODE_WORDS@[2] as int, 2, 22);
        assert(NUM_ERROR_CORRECTION_BLOCKS_GROUP_1_H@[2] * NUM_CODE_WORDS_PER_BLOCK_GROUP_1_H@[2] + NUM_ERROR_CORRECTION_BLOCKS_GROUP_2_H@[2] * NUM_CODE_WORDS_PER_BLOCK_GROUP_2_H@[2] == H_NUM_CODEWORDS@[2]);
    }
    if version == 4 {
        lemma_product(NUM_ERROR_CORRECTION_BLOCKS_GROUP_1_H@[3] as int, NUM_CODE_WORDS_PER_BLOCK_GROUP_1_H@[3] as int, 4, 9);
        lemma_product(NUM_ERROR_CORRECTION_BLOCKS_GROUP_2_H@[3] as int, NUM_CODE_WORDS_PER_BLOCK_GROUP_2_H@[3] as int, 0, 0);
        lemma_product((NUM_ERROR_CORRECTION_BLOCKS_GROUP_1_H@[3] + NUM_ERROR_CORRECTION_BLOCKS_GROUP_2_H@[3]) as int, H_ERROR_CORRECTION_CODE_WORDS@[3] as int, 4, 16);
        assert(NUM_ERROR_CORRECTION_BLOCKS_GROUP_1_H@[3] * NUM_CODE_WORDS_PER_BLOCK_GROUP_1_H@[3] + NUM_ERROR_CORRECTION_BLOCKS_GROUP_2_H@[3] * NUM_CODE_WORDS_PER_BLOCK_GROUP_2_H@[3] == H_NUM_CODEWORDS@[3]);
    }
    if version == 5 {
        lemma_product(NUM_ERROR_CORRECTION_BLOCKS_GROUP_1_H@[4] as int, NUM_CODE_WORDS_PER_BLOCK_GROUP_1_H@[4] as int, 2, 11);
        lemma_product(NUM_ERROR_CORRECTION_BLOCKS_GROUP_2_H@[4] as int, NUM_CODE_WORDS_PER_BLOCK_GROUP_2_H@[4] as int, 2, 12);
        lemma_product((NUM_ERROR_CORRECTION_BLOCKS_GROUP_1_H@[4] + NUM_ERROR_CORRECTION_BLOCKS_GROUP_2_H@[4]) as int, H_ERROR_CORRECTION_CODE_WORDS@[4] as int, 4, 22);
        assert(NUM_ERROR_CORRECTION_BLOCKS_GROUP_1_H@[4] * NUM_CODE_WORDS_PER_BLOCK_GROUP_1_H@[4] + NUM_ERROR_CORRECTION_BLOCKS_GROUP_2_H@[4] * NUM_CODE_WORDS_PER_BLOCK_GROUP_2_H@[4] == H_NUM_CODEWORDS@[4]);
    }
    if version == 6 {
        lemma_product(NUM_ERROR_CORRECTION_BLOCKS_GROUP_1_H@[5] as int, NUM_CODE_WORDS_PER_BLOCK_GROUP_1_H@[5] as int, 4, 15);
        lemma_product(NUM_ERROR_CORRECTION_BLOCKS_GROUP_2_H@[5] as int, NUM_CODE_WORDS_PER_BLOCK_GROUP_2_H@[5] as int, 0, 0);
        lemma_product((NUM_ERROR_CORRECTION_BLOCKS_GROUP_1_H@[5] + NUM_ERROR_CORRECTION_BLOCKS_GROUP_2_H@[5]) as int, H_ERROR_CORRECTION_CODE_WORDS@[5] as int, 4, 28);
        assert(NUM_ERROR_CORRECTION_BLOCKS_GROUP_1_H@[5] * NUM_CODE_WORDS_PER_BLOCK_GROUP_1_H@[5] + NUM_ERROR_CORRECTION_BLOCKS_GROUP_2_H@[5] * NUM_CODE_WORDS_PER_BLOCK_GROUP_2_H@[5] == H_NUM_CODEWORDS@[5]);
    }
    if version == 7 {
        lemma_product(NUM_ERROR_CORRECTION_BLOCKS_GROUP_1_H@[6] as int, NUM_CODE_WORDS_PER_BLOCK_GROUP_1_H@[6] as int, 4, 13);
        lemma_product(NUM_ERROR_CORRECTION_BLOCKS_GROUP_2_H@[6] as int, NUM_CODE_WORDS_PER_BLOCK_GROUP_2_H@[6] as int, 1, 14);
        lemma_product((NUM_ERROR_CORRECTION_BLOCKS_GROUP_1_H@[6] + NUM_ERROR_CORRECTION_BLOCKS_GROUP_2_H@[6]) as int, H_ERROR_CORRECTION_CODE_WORDS@[6] as int, 5, 26);
        assert(NUM_ERROR_CORRECTION_BLOCKS_GROUP_1_H@[6] * NUM_CODE_WORDS_PER_BLOCK_GROUP_1_H@[6] + NUM_ERROR_CORRECTION_BLOCKS_GROUP_2_H@[6] * NUM_CODE_WORDS_PER_BLOCK_GROUP_2_H@[6] == H_NUM_CODEWORDS@[6]);
    }
    if version == 8 {
        lemma_product(NUM_ERROR_CORRECTION_BLOCKS_GROUP_1_H@[7] as int, NUM_CODE_WORDS_PER_BLOCK_GROUP_1_H@[7] as int, 4, 14);
        lemma_product(NUM_ERROR_CORRECTION_BLOCKS_GROUP_2_H@[7] as int, NUM_CODE_WORDS_PER_BLOCK_GROUP_2_H@[7] as int, 2, 15);
        lemma_product((NUM_ERROR_CORRECTION_BLOCKS_GROUP_1_H@[7] + NUM_ERROR_CORRECTION_BLOCKS_GROUP_2_H@[7]) as int, H_ERROR_CORRECTION_CODE_WORDS@[7] as int, 6, 26);
        assert(NUM_ERROR_CORRECTION_BLOCKS_GROUP_1_H@[7] * NUM_CODE_WORDS_PER_BLOCK_GROUP_1_H@[7] + NUM_ERROR_CORRECTION_BLOCKS_GROUP_2_H@[7] * NUM_CODE_WORDS_PER_BLOCK_GROUP_2_H@[7] == H_NUM_CODEWORDS@[7]);
    }
    if version == 9 {
        lemma_product(NUM_ERROR_CORRECTION_BLOCKS_GROUP_1_H@[8] as int, NUM_CODE_WORDS_PER_BLOCK_GROUP_1_H@[8] as int, 4, 12);
        lemma_product(NUM_ERROR_CORRECTION_BLOCKS_GROUP_2_H@[8] as int, NUM_CODE_WORDS_PER_BLOCK_GROUP_2_H@[8] as int, 4, 13);
        lemma_product((NUM_ERROR_CORRECTION_BLOCKS_GROUP_1_H@[8] + NUM_ERROR_CORRECTION_BLOCKS_GROUP_2_H@[8]) as int, H_ERROR_CORRECTION_CODE_WORDS@[8] as int, 8, 24);
        assert(NUM_ERROR_CORRECTION_BLOCKS_GROUP_1_H@[8] * NUM_CODE_WORDS_PER_BLOCK_GROUP_1_H@[8] + NUM_ERROR_CORRECTION_BLOCKS_GROUP_2_H@[8] * NUM_CODE_WORDS_PER_BLOCK_GROUP_2_H@[8] == H_NUM_CODEWORDS@[8]);
    }
    if version == 10 {
        lemma_product(NUM_ERROR_CORRECTION_BLOCKS_GROUP_1_H@[9] as int, NUM_CODE_WORDS_PER_BLOCK_GROUP_1_H@[9] as int, 6, 15);
        lemma_product(NUM_ERROR_CORRECTION_BLOCKS_GROUP_2_H@[9] as int, NUM_CODE_WORDS_PER_BLOCK_GROUP_2_H@[9] as int, 2, 16);
        lemma_product((NUM_ERROR_CORRECTION_BLOCKS_GROUP_1_H@[9] + NUM_ERROR_CORRECTION_BLOCKS_GROUP_2_H@[9]) as int, H_ERROR_CORRECTION_CODE_WORDS@[9] as int, 8, 28);
        assert(NUM_ERROR_CORRECTION_BLOCKS_GROUP_1_H@[9] * NUM_CODE_WORDS_PER_BLOCK_GROUP_1_H@[9] + NUM_ERROR_CORRECTION_BLOCKS_GROUP_2_H@[9] * NUM_CODE_WORDS_PER_BLOCK_GROUP_2_H@[9] == H_NUM_CODEWORDS@[9]);
    }
    if version == 11 {
        lemma_product(NUM_ERROR_CORRECTION_BLOCKS_GROUP_1_H@[10] as int, NUM_CODE_WORDS_PER_BLOCK_GROUP_1_H@[10] as int, 3, 12);
        lemma_product(NUM_ERROR_CORRECTION_BLOCKS_GROUP_2_H@[10] as int, NUM_CODE_WORDS_PER_BLOCK_GROUP_2_H@[10] as int, 8, 13);
        lemma_product((NUM_ERROR_CORRECTION_BLOCKS_GROUP_1_H@[10] + NUM_ERROR_CORRECTION_BLOCKS_GROUP_2_H@[10]) as int, H_ERROR_CORRECTION_CODE_WORDS@[10] as int, 11, 24);
        assert(NUM_ERROR_CORRECTION_BLOCKS_GROUP_1_H@[10] * NUM_CODE_WORDS_PER_BLOCK_GROUP_1_H@[10] + NUM_ERROR_CORRECTION_BLOCKS_GROUP_2_H@[10] * NUM_CODE_WORDS_PER_BLOCK_GROUP_2_H@[10] == H_NUM_CODEWORDS@[10]);
    }
    if version == 12 {
        lemma_product(NUM_ERROR_CORRECTION_BLOCKS_GROUP_1_H@[11] as int, NUM_CODE_WORDS_PER_BLOCK_GROUP_1_H@[11] as int, 7, 14);
        lemma_product(NUM_ERROR_CORRECTION_BLOCKS_GROUP_2_H@[11] as int, NUM_CODE_WORDS_PER_BLOCK_GROUP_2_H@[11] as int, 4, 15);
        lemma_product((NUM_ERROR_CORRECTION_BLOCKS_GROUP_1_H@[11] + NUM_ERROR_CORRECTION_BLOCKS_GROUP_2_H@[11]) as int, H_ERROR_CORRECTION_CODE_WORDS@[11] as int, 11, 28);
        assert(NUM_ERROR_CORRECTION_BLOCKS_GROUP_1_H@[11] * NUM_CODE_WORDS_PER_BLOCK_GROUP_1_H@[11] + NUM_ERROR_CORRECTION_BLOCKS_GROUP_2_H@[11] * NUM_CODE_WORDS_PER_BLOCK_GROUP_2_H@[11] == H_NUM_CODEWORDS@[11]);
    }
    if version == 13 {
        lemma_product(NUM_ERROR_CORRECTION_BLOCKS_GROUP_1_H@[12] as int, NUM_CODE_WORDS_PER_BLOCK_GROUP_1_H@[12] as int, 12, 11);
        lemma_product(NUM_ERROR_CORRECTION_BLOCKS_GROUP_2_H@[12] as int, NUM_CODE_WORDS_PER_BLOCK_GROUP_2_H@[12] as int, 4, 12);
        lemma_product((NUM_ERROR_CORRECTION_BLOCKS_GROUP_1_H@[12] + NUM_ERROR_CORRECTION_BLOCKS_GROUP_2_H@[12]) as int, H_ERROR_CORRECTION_CODE_WORDS@[12] as int, 16, 22);
        assert(NUM_ERROR_CORRECTION_BLOCKS_GROUP_1_H@[12] * NUM_CODE_WORDS_PER_BLOCK_GROUP_1_H@[12] + NUM_ERROR_CORRECTION_BLOCKS_GROUP_2_H@[12] * NUM_CODE_WORDS_PER_BLOCK_GROUP_2_H@[12] == H_NUM_CODEWORDS@[12]);
    }
    if version == 14 {
        lemma_product(NUM_ERROR_CORRECTION_BLOCKS_GROUP_1_H@[13] as int, NUM_CODE_WORDS_PER_BLOCK_GROUP_1_H@[13] as int, 11, 12);
        lemma_product(NUM_ERROR_CORRECTION_BLOCKS_GROUP_2_H@[13] as int, NUM_CODE_WORDS_PER_BLOCK_GROUP_2_H@[13] as int, 5, 13);
        lemma_product((NUM_ERROR_CORRECTION_BLOCKS_GROUP_1_H@[13] + NUM_ERROR_CORRECTION_BLOCKS_GROUP_2_H@[13]) as int, H_ERROR_CORRECTION_CODE_WORDS@[13] as int, 16, 24);
        assert(NUM_ERROR_CORRECTION_BLOCKS_GROUP_1_H@[13] * NUM_CODE_WORDS_PER_BLOCK_GROUP_1_H@[13] + NUM_ERROR_CORRECTION_BLOCKS_GROUP_2_H@[13] * NUM_CODE_WORDS_PER_BLOCK_GROUP_2_H@[13] == H_NUM_CODEWORDS@[13]);
    }
    if version == 15 {
        lemma_product(NUM_ERROR_CORRECTION_BLOCKS_GROUP_1_H@[14] as int, NUM_CODE_WORDS_PER_BLOCK_GROUP_1_H@[14] as int, 11, 12);
        lemma_product(NUM_ERROR_CORRECTION_BLOCKS_GROUP_2_H@[14] as int, NUM_CODE_WORDS_PER_BLOCK_GROUP_2_H@[14] as int, 7, 13);
        lemma_product((NUM_ERROR_CORRECTION_BLOCKS_GROUP_1_H@[14] + NUM_ERROR_CORRECTION_BLOCKS_GROUP_2_H@[14]) as int, H_ERROR_CORRECTION_CODE_WORDS@[14] as int, 18, 24);
        assert(NUM_ERROR_CORRECTION_BLOCKS_GROUP_1_H@[14] * NUM_CODE_WORDS_PER_BLOCK_GROUP_1_H@[14] + NUM_ERROR_CORRECTION_BLOCKS_GROUP_2_H@[14] * NUM_CODE_WORDS_PER_BLOCK_GROUP_2_H@[14] == H_NUM_CODEWORDS@[14]);
    }
    if version == 16 {
        lemma_product(NUM_ERROR_CORRECTION_BLOCKS_GROUP_1_H@[15] as int, NUM_CODE_WORDS_PER_BLOCK_GROUP_1_H@[15] as int, 3, 15);
        lemma_product(NUM_ERROR_CORRECTION_BLOCKS_GROUP_2_H@[15] as int, NUM_CODE_WORDS_PER_BLOCK_GROUP_2_H@[15] as int, 13, 16);
        lemma_product((NUM_ERROR_CORRECTION_BLOCKS_GROUP_1_H@[15] + NUM_ERROR_CORRECTION_BLOCKS_GROUP_2_H@[15]) as int, H_ERROR_CORRECTION_CODE_WORDS@[15] as int, 16, 30);
        assert(NUM_ERROR_CORRECTION_BLOCKS_GROUP_1_H@[15] * NUM_CODE_WORDS_PER_BLOCK_GROUP_1_H@[15] + NUM_ERROR_CORRECTION_BLOCKS_GROUP_2_H@[15] * NUM_CODE_WORDS_PER_BLOCK_GROUP_2_H@[15] == H_NUM_CODEWORDS@[15]);
    }
    if version == 17 {
        lemma_product(NUM_ERROR_CORRECTION_BLOCKS_GROUP_1_H@[16] as int, NUM_CODE_WORDS_PER_BLOCK_GROUP_1_H@[16] as int, 2, 14);
        lemma_product(NUM_ERROR_CORRECTION_BLOCKS_GROUP_2_H@[16] as int, NUM_CODE_WORDS_PER_BLOCK_GROUP_2_H@[16] as int, 17, 15);
        lemma_product((NUM_ERROR_CORRECTION_BLOCKS_GROUP_1_H@[16] + NUM_ERROR_CORRECTION_BLOCKS_GROUP_2_H@[16]) as int, H_ERROR_CORRECTION_CODE_WORDS@[16] as int, 19, 28);
        assert(NUM_ERROR_CORRECTION_BLOCKS_GROUP_1_H@[16] * NUM_CODE_WORDS_PER_BLOCK_GROUP_1_H@[16] + NUM_ERROR_CORRECTION_BLOCKS_GROUP_2_H@[16] * NUM_CODE_WORDS_PER_BLOCK_GROUP_2_H@[16] == H_NUM_CODEWORDS@[16]);
    }
    if version == 18 {
        lemma_product(NUM_ERROR_CORRECTION_BLOCKS_GROUP_1_H@[17] as int, NUM_CODE_WORDS_PER_BLOCK_GROUP_1_H@[17] as int, 2, 14);
        lemma_product(NUM_ERROR_CORRECTION_BLOCKS_GROUP_2_H@[17] as int, NUM_CODE_WORDS_PER_BLOCK_GROUP_2_H@[17] as int, 19, 15);
        lemma_product((NUM_ERROR_CORRECTION_BLOCKS_GROUP_1_H@[17] + NUM_ERROR_CORRECTION_BLOCKS_GROUP_2_H@[17]) as int, H_ERROR_CORRECTION_CODE_WORDS@[17] as int, 21, 28);
        assert(NUM_ERROR_CORRECTION_BLOCKS_GROUP_1_H@[17] * NUM_CODE_WORDS_PER_BLOCK_GROUP_1_H@[17] + NUM_ERROR_CORRECTION_BLOCKS_GROUP_2_H@[17] * NUM_CODE_WORDS_PER_BLOCK_GROUP_2_H@[17] == H_NUM_CODEWORDS@[17]);
    }
    if version == 19 {
        lemma_product(NUM_ERROR_CORRECTION_BLOCKS_GROUP_1_H@[18] as int, NUM_CODE_WORDS_PER_BLOCK_GROUP_1_H@[18] as int, 9, 13);
        lemma_product(NUM_ERROR_CORRECTION_BLOCKS_GROUP_2_H@[18] as int, NUM_CODE_WORDS_PER_BLOCK_GROUP_2_H@[18] as int, 16, 14);
        lemma_product((NUM_ERROR_CORRECTION_BLOCKS_GROUP_1_H@[18] + NUM_ERROR_CORRECTION_BLOCKS_GROUP_2_H@[18]) as int, H_ERROR_CORRECTION_CODE_WORDS@[18] as int, 25, 26);
        assert(NUM_ERROR_CORRECTION_BLOCKS_GROUP_1_H@[18] * NUM_CODE_WORDS_PER_BLOCK_GROUP_1_H@[18] + NUM_ERROR_CORRECTION_BLOCKS_GROUP_2_H@[18] * NUM_CODE_WORDS_PER_BLOCK_GROUP_2_H@[18] == H_NUM_CODEWORDS@[18]);
    }
    if version == 20 {
        lemma_product(NUM_ERROR_CORRECTION_BLOCKS_GROUP_1_H@[19] as int, NUM_CODE_WORDS_PER_BLOCK_GROUP_1_H@[19] as int, 15, 15);
        lemma_product(NUM_ERROR_CORRECTION_BLOCKS_GROUP_2_H@[19] as int, NUM_CODE_WORDS_PER_BLOCK_GROUP_2_H@[19] as int, 10, 16);
        lemma_product((NUM_ERROR_CORRECTION_BLOCKS_GROUP_1_H@[19] + NUM_ERROR_CORRECTION_BLOCKS_GROUP_2_H@[19]) as int, H_ERROR_CORRECTION_CODE_WORDS@[19] as int, 25, 28);
        assert(NUM_ERROR_CORRECTION_BLOCKS_GROUP_1_H@[19] * NUM_CODE_WORDS_PER_BLOCK_GROUP_1_H@[19] + NUM_ERROR_CORRECTION_BLOCKS_GROUP_2_H@[19] * NUM_CODE_WORDS_PER_BLOCK_GROUP_2_H@[19] == H_NUM_CODEWORDS@[19]);
    }
    if version == 21 {
        lemma_product(NUM_ERROR_CORRECTION_BLOCKS_GROUP_1_H@[20] as int, NUM_CODE_WORDS_PER_BLOCK_GROUP_1_H@[20] as int, 19, 16);
        lemma_product(NUM_ERROR_CORRECTION_BLOCKS_GROUP_2_H@[20] as int, NUM_CODE_WORDS_PER_BLOCK_GROUP_2_H@[20] as int, 6, 17);
        lemma_product((NUM_ERROR_CORRECTION_BLOCKS_GROUP_1_H@[20] + NUM_ERROR_CORRECTION_BLOCKS_GROUP_2_H@[20]) as int, H_ERROR_CORRECTION_CODE_WORDS@[20] as int, 25, 30);
        assert(NUM_ERROR_CORRECTION_BLOCKS_GROUP_1_H@[20] * NUM_CODE_WORDS_PER_BLOCK_GROUP_1_H@[20] + NUM_ERROR_CORRECTION_BLOCKS_GROUP_2_H@[20] * NUM_CODE_WORDS_PER_BLOCK_GROUP_2_H@[20] == H_NUM_CODEWORDS@[20]);
    }
    if version == 22 {
        lemma_product(NUM_ERROR_CORRECTION_BLOCKS_GROUP_1_H@[21] as int, NUM_CODE_WORDS_PER_BLOCK_GROUP_1_H@[21] as int, 34, 13);
        lemma_product(NUM_ERROR_CORRECTION_BLOCKS_GROUP_2_H@[21] as int, NUM_CODE_WORDS_PER_BLOCK_GROUP_2_H@[21] as int, 0, 0);
        lemma_product((NUM_ERROR_CORRECTION_BLOCKS_GROUP_1_H@[21] + NUM_ERROR_CORRECTION_BLOCKS_GROUP_2_H@[21]) as int, H_ERROR_CORRECTION_CODE_WORDS@[21] as int, 34, 24);
        assert(NUM_ERROR_CORRECTION_BLOCKS_GROUP_1_H@[21] * NUM_CODE_WORDS_PER_BLOCK_GROUP_1_H@[21] + NUM_ERROR_CORRECTION_BLOCKS_GROUP_2_H@[21] * NUM_CODE_WORDS_PER_BLOCK_GROUP_2_H@[21] == H_NUM_CODEWORDS@[21]);
    }
    if version == 23 {
        lemma_product(NUM_ERROR_CORRECTION_BLOCKS_GROUP_1_H@[22] as int, NUM_CODE_WORDS_PER_BLOCK_GROUP_1_H@[22] as int, 16, 15);
        lemma_product(NUM_ERROR_CORRECTION_BLOCKS_GROUP_2_H@[22] as int, NUM_CODE_WORDS_PER_BLOCK_GROUP_2_H@[22] as int, 14, 16);
        lemma_product((NUM_ERROR_CORRECTION_BLOCKS_GROUP_1_H@[22] + NUM_ERROR_CORRECTION_BLOCKS_GROUP_2_H@[22]) as int, H_ERROR_CORRECTION_CODE_WORDS@[22] as int, 30, 30);
        assert(NUM_ERROR_CORRECTION_BLOCKS_GROUP_1_H@[22] * NUM_CODE_WORDS_PER_BLOCK_GROUP_1_H@[22] + NUM_ERROR_CORRECTION_BLOCKS_GROUP_2_H@[22] * NUM_CODE_WORDS_PER_BLOCK_GROUP_2_H@[22] == H_NUM_CODEWORDS@[22]);
    }
    if version == 24 {
        lemma_product(NUM_ERROR_CORRECTION_BLOCKS_GROUP_1_H@[23] as int, NUM_CODE_WORDS_PER_BLOCK_GROUP_1_H@[23] as int, 30, 16);
        lemma_product(NUM_ERROR_CORRECTION_BLOCKS_GROUP_2_H@[23] as int, NUM_CODE_WORDS_PER_BLOCK_GROUP_2_H@[23] as int, 2, 17);
        lemma_product((NUM_ERROR_CORRECTION_BLOCKS_GROUP_1_H@[23] + NUM_ERROR_CORRECTION_BLOCKS_GROUP_2_H@[23]) as int, H_ERROR_CORRECTION_CODE_WORDS@[23] as int, 32, 30);
        assert(NUM_ERROR_CORRECTION_BLOCKS_GROUP_1_H@[23] * NUM_CODE_WORDS_PER_BLOCK_GROUP_1_H@[23] + NUM_ERROR_CORRECTION_BLOCKS_GROUP_2_H@[23] * NUM_CODE_WORDS_PER_BLOCK_GROUP_2_H@[23] == H_NUM_CODEWORDS@[23]);
    }
    if version == 25 {
        lemma_product(NUM_ERROR_CORRECTION_BLOCKS_GROUP_1_H@[24] as int, NUM_CODE_WORDS_PER_BLOCK_GROUP_1_H@[24] as int, 22, 15);
        lemma_product(NUM_ERROR_CORRECTION_BLOCKS_GROUP_2_H@[24] as int, NUM_CODE_WORDS_PER_BLOCK_GROUP_2_H@[24] as int, 13, 16);
        lemma_product((NUM_ERROR_CORRECTION_BLOCKS_GROUP_1_H@[24] + NUM_ERROR_CORRECTION_BLOCKS_GROUP_2_H@[24]) as int, H_ERROR_CORRECTION_CODE_WORDS@[24] as int, 35, 30);
        assert(NUM_ERROR_CORRECTION_BLOCKS_GROUP_1_H@[24] * NUM_CODE_WORDS_PER_BLOCK_GROUP_1_H@[24] + NUM_ERROR_CORRECTION_BLOCKS_GROUP_2_H@[24] * NUM_CODE_WORDS_PER_BLOCK_GROUP_2_H@[24] == H_NUM_CODEWORDS@[24]);
    }
    if version == 26 {
        lemma_product(NUM_ERROR_CORRECTION_BLOCKS_GROUP_1_H@[25] as int, NUM_CODE_WORDS_PER_BLOCK_GROUP_1_H@[25] as int, 33, 16);
        lemma_product(NUM_ERROR_CORRECTION_BLOCKS_GROUP_2_H@[25] as int, NUM_CODE_WORDS_PER_BLOCK_GROUP_2_H@[25] as int, 4, 17);
        lemma_product((NUM_ERROR_CORRECTION_BLOCKS_GROUP_1_H@[25] + NUM_ERROR_CORRECTION_BLOCKS_GROUP_2_H@[25]) as int, H_ERROR_CORRECTION_CODE_WORDS@[25] as int, 37, 30);
        assert(NUM_ERROR_CORRECTION_BLOCKS_GROUP_1_H@[25] * NUM_CODE_WORDS_PER_BLOCK_GROUP_1_H@[25] + NUM_ERROR_CORRECTION_BLOCKS_GROUP_2_H@[25] * NUM_CODE_WORDS_PER_BLOCK_GROUP_2_H@[25] == H_NUM_CODEWORDS@[25]);
    }
    if version == 27 {
        lemma_product(NUM_ERROR_CORRECTION_BLOCKS_GROUP_1_H@[26] as int, NUM_CODE_WORDS_PER_BLOCK_GROUP_1_H@[26] as int, 12, 15);
        lemma_product(NUM_ERROR_CORRECTION_BLOCKS_GROUP_2_H@[26] as int, NUM_CODE_WORDS_PER_BLOCK_GROUP_2_H@[26] as int, 28, 16);
        lemma_product((NUM_ERROR_CORRECTION_BLOCKS_GROUP_1_H@[26] + NUM_ERROR_CORRECTION_BLOCKS_GROUP_2_H@[26]) as int, H_ERROR_CORRECTION_CODE_WORDS@[26] as int, 40, 30);
        assert(NUM_ERROR_CORRECTION_BLOCKS_GROUP_1_H@[26] * NUM_CODE_WORDS_PER_BLOCK_GROUP_1_H@[26] + NUM_ERROR_CORRECTION_BLOCKS_GROUP_2_H@[26] * NUM_CODE_WORDS_PER_BLOCK_GROUP_2_H@[26] == H_NUM_CODEWORDS@[26]);
    }
    if version == 28 {
        lemma_product(NUM_ERROR_CORRECTION_BLOCKS_GROUP_1_H@[27] as int, NUM_CODE_WORDS_PER_BLOCK_GROUP_1_H@[27] as int, 11, 15);
        lemma_product(NUM_ERROR_CORRECTION_BLOCKS_GROUP_2_H@[27] as int, NUM_CODE_WORDS_PER_BLOCK_GROUP_2_H@[27] as int, 31, 16);
        lemma_product((NUM_ERROR_CORRECTION_BLOCKS_GROUP_1_H@[27] + NUM_ERROR_CORRECTION_BLOCKS_GROUP_2_H@[27]) as int, H_ERROR_CORRECTION_CODE_WORDS@[27] as int, 42, 30);
        assert(NUM_ERROR_CORRECTION_BLOCKS_GROUP_1_H@[27] * NUM_CODE_WORDS_PER_BLOCK_GROUP_1_H@[27] + NUM_ERROR_CORRECTION_BLOCKS_GROUP_2_H@[27] * NUM_CODE_WORDS_PER_BLOCK_GROUP_2_H@[27] == H_NUM_CODEWORDS@[27]);
    }
    if version == 29 {
        lemma_product(NUM_ERROR_CORRECTION_BLOCKS_GROUP_1_H@[28] as int, NUM_CODE_WORDS_PER_BLOCK_GROUP_1_H@[28] as int, 19, 15);
        lemma_product(NUM_ERROR_CORRECTION_BLOCKS_GROUP_2_H@[28] as int, NUM_CODE_WORDS_PER_BLOCK_GROUP_2_H@[28] as int, 26, 16);
        lemma_product((NUM_ERROR_CORRECTION_BLOCKS_GROUP_1_H@[28] + NUM_ERROR_CORRECTION_BLOCKS_GROUP_2_H@[28]) as int, H_ERROR_CORRECTION_CODE_WORDS@[28] as int, 45, 30);
        assert(NUM_ERROR_CORRECTION_BLOCKS_GROUP_1_H@[28] * NUM_CODE_WORDS_PER_BLOCK_GROUP_1_H@[28] + NUM_ERROR_CORRECTION_BLOCKS_GROUP_2_H@[28] * NUM_CODE_WORDS_PER_BLOCK_GROUP_2_H@[28] == H_NUM_CODEWORDS@[28]);
    }
    if version == 30 {
        lemma_product(NUM_ERROR_CORRECTION_BLOCKS_GROUP_1_H@[29] as int, NUM_CODE_WORDS_PER_BLOCK_GROUP_1_H@[29] as int, 23, 15);
        lemma_product(NUM_ERROR_CORRECTION_BLOCKS_GROUP_2_H@[29] as int, NUM_CODE_WORDS_PER_BLOCK_GROUP_2_H@[29] as int, 25, 16);
        lemma_product((NUM_ERROR_CORRECTION_BLOCKS_GROUP_1_H@[29] + NUM_ERROR_CORRECTION_BLOCKS_GROUP_2_H@[29]) as int, H_ERROR_CORRECTION_CODE_WORDS@[29] as int, 48, 30);
        assert(NUM_ERROR_CORRECTION_BLOCKS_GROUP_1_H@[29] * NUM_CODE_WORDS_PER_BLOCK_GROUP_1_H@[29] + NUM_ERROR_CORRECTION_BLOCKS_GROUP_2_H@[29] * NUM_CODE_WORDS_PER_BLOCK_GROUP_2_H@[29] == H_NUM_CODEWORDS@[29]);
    }
    if version == 31 {
        lemma_product(NUM_ERROR_CORRECTION_BLOCKS_GROUP_1_H@[30] as int, NUM_CODE_WORDS_PER_BLOCK_GROUP_1_H@[30] as int, 23, 15);
        lemma_product(NUM_ERROR_CORRECTION_BLOCKS_GROUP_2_H@[30] as int, NUM_CODE_WORDS_PER_BLOCK_GROUP_2_H@[30] as int, 28, 16);
        lemma_product((NUM_ERROR_CORRECTION_BLOCKS_GROUP_1_H@[30] + NUM_ERROR_CORRECTION_BLOCKS_GROUP_2_H@[30]) as int, H_ERROR_CORRECTION_CODE_WORDS@[30] as int, 51, 30);
        assert(NUM_ERROR_CORRECTION_BLOCKS_GROUP_1_H@[30] * NUM_CODE_WORDS_PER_BLOCK_GROUP_1_H@[30] + NUM_ERROR_CORRECTION_BLOCKS_GROUP_2_H@[30] * NUM_CODE_WORDS_PER_BLOCK_GROUP_2_H@[30] == H_NUM_CODEWORDS@[30]);
    }
    if version == 32 {
        lemma_product(NUM_ERROR_CORRECTION_BLOCKS_GROUP_1_H@[31] as int, NUM_CODE_WORDS_PER_BLOCK_GROUP_1_H@[31] as int, 19, 15);
        lemma_product(NUM_ERROR_CORRECTION_BLOCKS_GROUP_2_H@[31] as int, NUM_CODE_WORDS_PER_BLOCK_GROUP_2_H@[31] as int, 35, 16);
        lemma_product((NUM_ERROR_CORRECTION_BLOCKS_GROUP_1_H@[31] + NUM_ERROR_CORRECTION_BLOCKS_GROUP_2_H@[31]) as int, H_ERROR_CORRECTION_CODE_WORDS@[31] as int, 54, 30);
        assert(NUM_ERROR_CORRECTION_BLOCKS_GROUP_1_H@[31] * NUM_CODE_WORDS_PER_BLOCK_GROUP_1_H@[31] + NUM_ERROR_CORRECTION_BLOCKS_GROUP_2_H@[31] * NUM_CODE_WORDS_PER_BLOCK_GROUP_2_H@[31] == H_NUM_CODEWORDS@[31]);
    }
    if version == 33 {
        lemma_product(NUM_ERROR_CORRECTION_BLOCKS_GROUP_1_H@[32] as int, NUM_CODE_WORDS_PER_BLOCK_GROUP_1_H@[32] as int, 11, 15);
        lemma_product(NUM_ERROR_CORRECTION_BLOCKS_GROUP_2_H@[32] as int, NUM_CODE_WORDS_PER_BLOCK_GROUP_2_H@[32] as int, 46, 16);
        lemma_product((NUM_ERROR_CORRECTION_BLOCKS_GROUP_1_H@[32] + NUM_ERROR_CORRECTION_BLOCKS_GROUP_2_H@[32]) as int, H_ERROR_CORRECTION_CODE_WORDS@[32] as int, 57, 30);
        assert(NUM_ERROR_CORRECTION_BLOCKS_GROUP_1_H@[32] * NUM_CODE_WORDS_PER_BLOCK_GROUP_1_H@[32] + NUM_ERROR_CORRECTION_BLOCKS_GROUP_2_H@[32] * NUM_CODE_WORDS_PER_BLOCK_GROUP_2_H@[32] == H_NUM_CODEWORDS@[32]);
    }
    if version == 34 {
        lemma_product(NUM_ERROR_CORRECTION_BLOCKS_GROUP_1_H@[33] as int, NUM_CODE_WORDS_PER_BLOCK_GROUP_1_H@[33] as int, 59, 16);
        lemma_product(NUM_ERROR_CORRECTION_BLOCKS_GROUP_2_H@[33] as int, NUM_CODE_WORDS_PER_BLOCK_GROUP_2_H@[33] as int, 1, 17);
        lemma_product((NUM_ERROR_CORRECTION_BLOCKS_GROUP_1_H@[33] + NUM_ERROR_CORRECTION_BLOCKS_GROUP_2_H@[33]) as int, H_ERROR_CORRECTION_CODE_WORDS@[33] as int, 60, 30);
        assert(NUM_ERROR_CORRECTION_BLOCKS_GROUP_1_H@[33] * NUM_CODE_WORDS_PER_BLOCK_GROUP_1_H@[33] + NUM_ERROR_CORRECTION_BLOCKS_GROUP_2_H@[33] * NUM_CODE_WORDS_PER_BLOCK_GROUP_2_H@[33] == H_NUM_CODEWORDS@[33]);
    }
    if version == 35 {
        lemma_product(NUM_ERROR_CORRECTION_BLOCKS_GROUP_1_H@[34] as int, NUM_CODE_WORDS_PER_BLOCK_GROUP_1_H@[34] as int, 22, 15);
        lemma_product(NUM_ERROR_CORRECTION_BLOCKS_GROUP_2_H@[34] as int, NUM_CODE_WORDS_PER_BLOCK_GROUP_2_H@[34] as int, 41, 16);
        lemma_product((NUM_ERROR_CORRECTION_BLOCKS_GROUP_1_H@[34] + NUM_ERROR_CORRECTION_BLOCKS_GROUP_2_H@[34]) as int, H_ERROR_CORRECTION_CODE_WORDS@[34] as int, 63, 30);
        assert(NUM_ERROR_CORRECTION_BLOCKS_GROUP_1_H@[34] * NUM_CODE_WORDS_PER_BLOCK_GROUP_1_H@[34] + NUM_ERROR_CORRECTION_BLOCKS_GROUP_2_H@[34] * NUM_CODE_WORDS_PER_BLOCK_GROUP_2_H@[34] == H_NUM_CODEWORDS@[34]);
    }
    if version == 36 {
        lemma_product(NUM_ERROR_CORRECTION_BLOCKS_GROUP_1_H@[35] as int, NUM_CODE_WORDS_PER_BLOCK_GROUP_1_H@[35] as int, 2, 15);
        lemma_product(NUM_ERROR_CORRECTION_BLOCKS_GROUP_2_H@[35] as int, NUM_CODE_WORDS_PER_BLOCK_GROUP_2_H@[35] as int, 64, 16);
        lemma_product((NUM_ERROR_CORRECTION_BLOCKS_GROUP_1_H@[35] + NUM_ERROR_CORRECTION_BLOCKS_GROUP_2_H@[35]) as int, H_ERROR_CORRECTION_CODE_WORDS@[35] as int, 66, 30);
        assert(NUM_ERROR_CORRECTION_BLOCKS_GROUP_1_H@[35] * NUM_CODE_WORDS_PER_BLOCK_GROUP_1_H@[35] + NUM_ERROR_CORRECTION_BLOCKS_GROUP_2_H@[35] * NUM_CODE_WORDS_PER_BLOCK_GROUP_2_H@[35] == H_NUM_CODEWORDS@[35]);
    }
    if version == 37 {
        lemma_product(NUM_ERROR_CORRECTION_BLOCKS_GROUP_1_H@[36] as int, NUM_CODE_WORDS_PER_BLOCK_GROUP_1_H@[36] as int, 24, 15);
        lemma_product(NUM_ERROR_CORRECTION_BLOCKS_GROUP_2_H@[36] as int, NUM_CODE_WORDS_PER_BLOCK_GROUP_2_H@[36] as int, 46, 16);
        lemma_product((NUM_ERROR_CORRECTION_BLOCKS_GROUP_1_H@[36] + NUM_ERROR_CORRECTION_BLOCKS_GROUP_2_H@[36]) as int, H_ERROR_CORRECTION_CODE_WORDS@[36] as int, 70, 30);
        assert(NUM_ERROR_CORRECTION_BLOCKS_GROUP_1_H@[36] * NUM_CODE_WORDS_PER_BLOCK_GROUP_1_H@[36] + NUM_ERROR_CORRECTION_BLOCKS_GROUP_2_H@[36] * NUM_CODE_WORDS_PER_BLOCK_GROUP_2_H@[36] == H_NUM_CODEWORDS@[36]);
    }
    if version == 38 {
        lemma_product(NUM_ERROR_CORRECTION_BLOCKS_GROUP_1_H@[37] as int, NUM_CODE_WORDS_PER_BLOCK_GROUP_1_H@[37] as int, 42, 15);
        lemma_product(NUM_ERROR_CORRECTION_BLOCKS_GROUP_2_H@[37] as int, NUM_CODE_WORDS_PER_BLOCK_GROUP_2_H@[37] as int, 32, 16);
        lemma_product((NUM_ERROR_CORRECTION_BLOCKS_GROUP_1_H@[37] + NUM_ERROR_CORRECTION_BLOCKS_GROUP_2_H@[37]) as int, H_ERROR_CORRECTION_CODE_WORDS@[37] as int, 74, 30);
        assert(NUM_ERROR_CORRECTION_BLOCKS_GROUP_1_H@[37] * NUM_CODE_WORDS_PER_BLOCK_GROUP_1_H@[37] + NUM_ERROR_CORRECTION_BLOCKS_GROUP_2_H@[37] * NUM_CODE_WORDS_PER_BLOCK_GROUP_2_H@[37] == H_NUM_CODEWORDS@[37]);
    }
    if version == 39 {
        lemma_product(NUM_ERROR_CORRECTION_BLOCKS_GROUP_1_H@[38] as int, NUM_CODE_WORDS_PER_BLOCK_GROUP_1_H@[38] as int, 10, 15);
        lemma_product(NUM_ERROR_CORRECTION_BLOCKS_GROUP_2_H@[38] as int, NUM_CODE_WORDS_PER_BLOCK_GROUP_2_H@[38] as int, 67, 16);
        lemma_product((NUM_ERROR_CORRECTION_BLOCKS_GROUP_1_H@[38] + NUM_ERROR_CORRECTION_BLOCKS_GROUP_2_H@[38]) as int, H_ERROR_CORRECTION_CODE_WORDS@[38] as int, 77, 30);
        assert(NUM_ERROR_CORRECTION_BLOCKS_GROUP_1_H@[38] * NUM_CODE_WORDS_PER_BLOCK_GROUP_1_H@[38] + NUM_ERROR_CORRECTION_BLOCKS_GROUP_2_H@[38] * NUM_CODE_WORDS_PER_BLOCK_GROUP_2_H@[38] == H_NUM_CODEWORDS@[38]);
    }
    if version == 40 {
        lemma_product(NUM_ERROR_CORRECTION_BLOCKS_GROUP_1_H@[39] as int, NUM_CODE_WORDS_PER_BLOCK_GROUP_1_H@[39] as int, 20, 15);
        lemma_product(NUM_ERROR_CORRECTION_BLOCKS_GROUP_2_H@[39] as int, NUM_CODE_WORDS_PER_BLOCK_GROUP_2_H@[39] as int, 61, 16);
        lemma_product((NUM_ERROR_CORRECTION_BLOCKS_GROUP_1_H@[39] + NUM_ERROR_CORRECTION_BLOCKS_GROUP_2_H@[39]) as int, H_ERROR_CORRECTION_CODE_WORDS@[39] as int, 81, 30);
        assert(NUM_ERROR_CORRECTION_BLOCKS_GROUP_1_H@[39] * NUM_CODE_WORDS_PER_BLOCK_GROUP_1_H@[39] + NUM_ERROR_CORRECTION_BLOCKS_GROUP_2_H@[39] * NUM_CODE_WORDS_PER_BLOCK_GROUP_2_H@[39] == H_NUM_CODEWORDS@[39]);
    }
}

} // verus!
