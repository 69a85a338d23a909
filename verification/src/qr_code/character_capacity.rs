//! The character capacities of the versions, held against the lengths of
//! the segments that they stand for.

use super::constants::ALPHA_NUMERIC_H_MAX_CAPACITY;
use super::constants::ALPHA_NUMERIC_L_MAX_CAPACITY;
use super::constants::ALPHA_NUMERIC_M_MAX_CAPACITY;
use super::constants::ALPHA_NUMERIC_Q_MAX_CAPACITY;
use super::constants::BYTE_H_MAX_CAPACITY;
use super::constants::BYTE_L_MAX_CAPACITY;
use super::constants::BYTE_M_MAX_CAPACITY;
use super::constants::BYTE_Q_MAX_CAPACITY;
use super::constants::H_NUM_CODEWORDS;
use super::constants::L_NUM_CODEWORDS;
use super::constants::M_NUM_CODEWORDS;
use super::constants::NUMERIC_H_MAX_CAPACITY;
use super::constants::NUMERIC_L_MAX_CAPACITY;
use super::constants::NUMERIC_M_MAX_CAPACITY;
use super::constants::NUMERIC_Q_MAX_CAPACITY;
use super::constants::Q_NUM_CODEWORDS;
use super::level::alphanumeric_capacity;
use super::level::byte_capacity;
use super::level::is_version;
use super::level::numeric_capacity;
use super::level::ErrorCorrectionLevel;
use super::mode::fits;
use super::mode::Mode;
use vstd::prelude::*;

verus! {

/// The most characters of a mode that a version holds at a level.
pub open spec fn character_capacity(mode: Mode, level: ErrorCorrectionLevel, version: int) -> int {
    match mode {
        Mode::Numeric => numeric_capacity(level, version),
        Mode::Alphanumeric => alphanumeric_capacity(level, version),
        Mode::Byte => byte_capacity(level, version),
    }
}

/// The capacity of a version is the greatest number of characters that
/// fit it: so many fit, and one more does not.
pub proof fn lemma_character_capacity(mode: Mode, level: ErrorCorrectionLevel, version: int)
    requires
        is_version(version),
    ensures
        fits(mode, character_capacity(mode, level, version), level, version),
        !fits(mode, character_capacity(mode, level, version) + 1, level, version),
{
    match mode {
        Mode::Numeric => match level {
            ErrorCorrectionLevel::L => lemma_numeric_capacity_l(version),
            ErrorCorrectionLevel::M => lemma_numeric_capacity_m(version),
            ErrorCorrectionLevel::Q => lemma_numeric_capacity_q(version),
            ErrorCorrectionLevel::H => lemma_numeric_capacity_h(version),
        },
        Mode::Alphanumeric => match level {
            ErrorCorrectionLevel::L => lemma_alphanumeric_capacity_l(version),
            ErrorCorrectionLevel::M => lemma_alphanumeric_capacity_m(version),
            ErrorCorrectionLevel::Q => lemma_alphanumeric_capacity_q(version),
            ErrorCorrectionLevel::H => lemma_alphanumeric_capacity_h(version),
        },
        Mode::Byte => match level {
            ErrorCorrectionLevel::L => lemma_byte_capacity_l(version),
            ErrorCorrectionLevel::M => lemma_byte_capacity_m(version),
            ErrorCorrectionLevel::Q => lemma_byte_capacity_q(version),
            ErrorCorrectionLevel::H => lemma_byte_capacity_h(version),
        },
    }
}

proof fn lemma_numeric_capacity_l(version: int)
    requires
        is_version(version),
    ensures
        fits(Mode::Numeric, numeric_capacity(ErrorCorrectionLevel::L, version), ErrorCorrectionLevel::L, version),
        !fits(
            Mode::Numeric,
            numeric_capacity(ErrorCorrectionLevel::L, version) + 1,
            ErrorCorrectionLevel::L,
            version,
        ),
{
    if version == 1 {
        assert(NUMERIC_L_MAX_CAPACITY@[0] == 41 && L_NUM_CODEWORDS@[0] == 19);
    }
    if version == 2 {
        assert(NUMERIC_L_MAX_CAPACITY@[1] == 77 && L_NUM_CODEWORDS@[1] == 34);
    }
    if version == 3 {
        assert(NUMERIC_L_MAX_CAPACITY@[2] == 127 && L_NUM_CODEWORDS@[2] == 55);
    }
    if version == 4 {
        assert(NUMERIC_L_MAX_CAPACITY@[3] == 187 && L_NUM_CODEWORDS@[3] == 80);
    }
    if version == 5 {
        assert(NUMERIC_L_MAX_CAPACITY@[4] == 255 && L_NUM_CODEWORDS@[4] == 108);
    }
    if version == 6 {
        assert(NUMERIC_L_MAX_CAPACITY@[5] == 322 && L_NUM_CODEWORDS@[5] == 136);
    }
    if version == 7 {
        assert(NUMERIC_L_MAX_CAPACITY@[6] == 370 && L_NUM_CODEWORDS@[6] == 156);
    }
    if version == 8 {
        assert(NUMERIC_L_MAX_CAPACITY@[7] == 461 && L_NUM_CODEWORDS@[7] == 194);
    }
    if version == 9 {
        assert(NUMERIC_L_MAX_CAPACITY@[8] == 552 && L_NUM_CODEWORDS@[8] == 232);
    }
    if version == 10 {
        assert(NUMERIC_L_MAX_CAPACITY@[9] == 652 && L_NUM_CODEWORDS@[9] == 274);
    }
    if version == 11 {
        assert(NUMERIC_L_MAX_CAPACITY@[10] == 772 && L_NUM_CODEWORDS@[10] == 324);
    }
    if version == 12 {
        assert(NUMERIC_L_MAX_CAPACITY@[11] == 883 && L_NUM_CODEWORDS@[11] == 370);
    }
    if version == 13 {
        assert(NUMERIC_L_MAX_CAPACITY@[12] == 1022 && L_NUM_CODEWORDS@[12] == 428);
    }
    if version == 14 {
        assert(NUMERIC_L_MAX_CAPACITY@[13] == 1101 && L_NUM_CODEWORDS@[13] == 461);
    }
    if version == 15 {
        assert(NUMERIC_L_MAX_CAPACITY@[14] == 1250 && L_NUM_CODEWORDS@[14] == 523);
    }
    if version == 16 {
        assert(NUMERIC_L_MAX_CAPACITY@[15] == 1408 && L_NUM_CODEWORDS@[15] == 589);
    }
    if version == 17 {
        assert(NUMERIC_L_MAX_CAPACITY@[16] == 1548 && L_NUM_CODEWORDS@[16] == 647);
    }
    if version == 18 {
        assert(NUMERIC_L_MAX_CAPACITY@[17] == 1725 && L_NUM_CODEWORDS@[17] == 721);
    }
    if version == 19 {
        assert(NUMERIC_L_MAX_CAPACITY@[18] == 1903 && L_NUM_CODEWORDS@[18] == 795);
    }
    if version == 20 {
        assert(NUMERIC_L_MAX_CAPACITY@[19] == 2061 && L_NUM_CODEWORDS@[19] == 861);
    }
    if version == 21 {
        assert(NUMERIC_L_MAX_CAPACITY@[20] == 2232 && L_NUM_CODEWORDS@[20] == 932);
    }
    if version == 22 {
        assert(NUMERIC_L_MAX_CAPACITY@[21] == 2409 && L_NUM_CODEWORDS@[21] == 1006);
    }
    if version == 23 {
        assert(NUMERIC_L_MAX_CAPACITY@[22] == 2620 && L_NUM_CODEWORDS@[22] == 1094);
    }
    if version == 24 {
        assert(NUMERIC_L_MAX_CAPACITY@[23] == 2812 && L_NUM_CODEWORDS@[23] == 1174);
    }
    if version == 25 {
        assert(NUMERIC_L_MAX_CAPACITY@[24] == 3057 && L_NUM_CODEWORDS@[24] == 1276);
    }
    if version == 26 {
        assert(NUMERIC_L_MAX_CAPACITY@[25] == 3283 && L_NUM_CODEWORDS@[25] == 1370);
    }
    if version == 27 {
        assert(NUMERIC_L_MAX_CAPACITY@[26] == 3517 && L_NUM_CODEWORDS@[26] == 1468);
    }
    if version == 28 {
        assert(NUMERIC_L_MAX_CAPACITY@[27] == 3669 && L_NUM_CODEWORDS@[27] == 1531);
    }
    if version == 29 {
        assert(NUMERIC_L_MAX_CAPACITY@[28] == 3909 && L_NUM_CODEWORDS@[28] == 1631);
    }
    if version == 30 {
        assert(NUMERIC_L_MAX_CAPACITY@[29] == 4158 && L_NUM_CODEWORDS@[29] == 1735);
    }
    if version == 31 {
        assert(NUMERIC_L_MAX_CAPACITY@[30] == 4417 && L_NUM_CODEWORDS@[30] == 1843);
    }
    if version == 32 {
        assert(NUMERIC_L_MAX_CAPACITY@[31] == 4686 && L_NUM_CODEWORDS@[31] == 1955);
    }
    if version == 33 {
        assert(NUMERIC_L_MAX_CAPACITY@[32] == 4965 && L_NUM_CODEWORDS@[32] == 2071);
    }
    if version == 34 {
        assert(NUMERIC_L_MAX_CAPACITY@[33] == 5253 && L_NUM_CODEWORDS@[33] == 2191);
    }
    if version == 35 {
        assert(NUMERIC_L_MAX_CAPACITY@[34] == 5529 && L_NUM_CODEWORDS@[34] == 2306);
    }
    if version == 36 {
        assert(NUMERIC_L_MAX_CAPACITY@[35] == 5836 && L_NUM_CODEWORDS@[35] == 2434);
    }
    if version == 37 {
        assert(NUMERIC_L_MAX_CAPACITY@[36] == 6153 && L_NUM_CODEWORDS@[36] == 2566);
    }
    if version == 38 {
        assert(NUMERIC_L_MAX_CAPACITY@[37] == 6479 && L_NUM_CODEWORDS@[37] == 2702);
    }
    if version == 39 {
        assert(NUMERIC_L_MAX_CAPACITY@[38] == 6743 && L_NUM_CODEWORDS@[38] == 2812);
    }
    if version == 40 {
        assert(NUMERIC_L_MAX_CAPACITY@[39] == 7089 && L_NUM_CODEWORDS@[39] == 2956);
    }
}

proof fn lemma_numeric_capacity_m(version: int)
    requires
        is_version(version),
    ensures
        fits(Mode::Numeric, numeric_capacity(ErrorCorrectionLevel::M, version), ErrorCorrectionLevel::M, version),
        !fits(
            Mode::Numeric,
            numeric_capacity(ErrorCorrectionLevel::M, version) + 1,
            ErrorCorrectionLevel::M,
            version,
        ),
{
    if version == 1 {
        assert(NUMERIC_M_MAX_CAPACITY@[0] == 34 && M_NUM_CODEWORDS@[0] == 16);
    }
    if version == 2 {
        assert(NUMERIC_M_MAX_CAPACITY@[1] == 63 && M_NUM_CODEWORDS@[1] == 28);
    }
    if version == 3 {
        assert(NUMERIC_M_MAX_CAPACITY@[2] == 101 && M_NUM_CODEWORDS@[2] == 44);
    }
    if version == 4 {
        assert(NUMERIC_M_MAX_CAPACITY@[3] == 149 && M_NUM_CODEWORDS@[3] == 64);
    }
    if version == 5 {
        assert(NUMERIC_M_MAX_CAPACITY@[4] == 202 && M_NUM_CODEWORDS@[4] == 86);
    }
    if version == 6 {
        assert(NUMERIC_M_MAX_CAPACITY@[5] == 255 && M_NUM_CODEWORDS@[5] == 108);
    }
    if version == 7 {
        assert(NUMERIC_M_MAX_CAPACITY@[6] == 293 && M_NUM_CODEWORDS@[6] == 124);
    }
    if version == 8 {
        assert(NUMERIC_M_MAX_CAPACITY@[7] == 365 && M_NUM_CODEWORDS@[7] == 154);
    }
    if version == 9 {
        assert(NUMERIC_M_MAX_CAPACITY@[8] == 432 && M_NUM_CODEWORDS@[8] == 182);
    }
    if version == 10 {
        assert(NUMERIC_M_MAX_CAPACITY@[9] == 513 && M_NUM_CODEWORDS@[9] == 216);
    }
    if version == 11 {
        assert(NUMERIC_M_MAX_CAPACITY@[10] == 604 && M_NUM_CODEWORDS@[10] == 254);
    }
    if version == 12 {
        assert(NUMERIC_M_MAX_CAPACITY@[11] == 691 && M_NUM_CODEWORDS@[11] == 290);
    }
    if version == 13 {
        assert(NUMERIC_M_MAX_CAPACITY@[12] == 796 && M_NUM_CODEWORDS@[12] == 334);
    }
    if version == 14 {
        assert(NUMERIC_M_MAX_CAPACITY@[13] == 871 && M_NUM_CODEWORDS@[13] == 365);
    }
    if version == 15 {
        assert(NUMERIC_M_MAX_CAPACITY@[14] == 991 && M_NUM_CODEWORDS@[14] == 415);
    }
    if version == 16 {
        assert(NUMERIC_M_MAX_CAPACITY@[15] == 1082 && M_NUM_CODEWORDS@[15] == 453);
    }
    if version == 17 {
        assert(NUMERIC_M_MAX_CAPACITY@[16] == 1212 && M_NUM_CODEWORDS@[16] == 507);
    }
    if version == 18 {
        assert(NUMERIC_M_MAX_CAPACITY@[17] == 1346 && M_NUM_CODEWORDS@[17] == 563);
    }
    if version == 19 {
        assert(NUMERIC_M_MAX_CAPACITY@[18] == 1500 && M_NUM_CODEWORDS@[18] == 627);
    }
    if version == 20 {
        assert(NUMERIC_M_MAX_CAPACITY@[19] == 1600 && M_NUM_CODEWORDS@[19] == 669);
    }
    if version == 21 {
        assert(NUMERIC_M_MAX_CAPACITY@[20] == 1708 && M_NUM_CODEWORDS@[20] == 714);
    }
    if version == 22 {
        assert(NUMERIC_M_MAX_CAPACITY@[21] == 1872 && M_NUM_CODEWORDS@[21] == 782);
    }
    if version == 23 {
        assert(NUMERIC_M_MAX_CAPACITY@[22] == 2059 && M_NUM_CODEWORDS@[22] == 860);
    }
    if version == 24 {
        assert(NUMERIC_M_MAX_CAPACITY@[23] == 2188 && M_NUM_CODEWORDS@[23] == 914);
    }
    if version == 25 {
        assert(NUMERIC_M_MAX_CAPACITY@[24] == 2395 && M_NUM_CODEWORDS@[24] == 1000);
    }
    if version == 26 {
        assert(NUMERIC_M_MAX_CAPACITY@[25] == 2544 && M_NUM_CODEWORDS@[25] == 1062);
    }
    if version == 27 {
        assert(NUMERIC_M_MAX_CAPACITY@[26] == 2701 && M_NUM_CODEWORDS@[26] == 1128);
    }
    if version == 28 {
        assert(NUMERIC_M_MAX_CAPACITY@[27] == 2857 && M_NUM_CODEWORDS@[27] == 1193);
    }
    if version == 29 {
        assert(NUMERIC_M_MAX_CAPACITY@[28] == 3035 && M_NUM_CODEWORDS@[28] == 1267);
    }
    if version == 30 {
        assert(NUMERIC_M_MAX_CAPACITY@[29] == 3289 && M_NUM_CODEWORDS@[29] == 1373);
    }
    if version == 31 {
        assert(NUMERIC_M_MAX_CAPACITY@[30] == 3486 && M_NUM_CODEWORDS@[30] == 1455);
    }
    if version == 32 {
        assert(NUMERIC_M_MAX_CAPACITY@[31] == 3693 && M_NUM_CODEWORDS@[31] == 1541);
    }
    if version == 33 {
        assert(NUMERIC_M_MAX_CAPACITY@[32] == 3909 && M_NUM_CODEWORDS@[32] == 1631);
    }
    if version == 34 {
        assert(NUMERIC_M_MAX_CAPACITY@[33] == 4134 && M_NUM_CODEWORDS@[33] == 1725);
    }
    if version == 35 {
        assert(NUMERIC_M_MAX_CAPACITY@[34] == 4343 && M_NUM_CODEWORDS@[34] == 1812);
    }
    if version == 36 {
        assert(NUMERIC_M_MAX_CAPACITY@[35] == 4588 && M_NUM_CODEWORDS@[35] == 1914);
    }
    if version == 37 {
        assert(NUMERIC_M_MAX_CAPACITY@[36] == 4775 && M_NUM_CODEWORDS@[36] == 1992);
    }
    if version == 38 {
        assert(NUMERIC_M_MAX_CAPACITY@[37] == 5039 && M_NUM_CODEWORDS@[37] == 2102);
    }
    if version == 39 {
        assert(NUMERIC_M_MAX_CAPACITY@[38] == 5313 && M_NUM_CODEWORDS@[38] == 2216);
    }
    if version == 40 {
        assert(NUMERIC_M_MAX_CAPACITY@[39] == 5596 && M_NUM_CODEWORDS@[39] == 2334);
    }
}

proof fn lemma_numeric_capacity_q(version: int)
    requires
        is_version(version),
    ensures
        fits(Mode::Numeric, numeric_capacity(ErrorCorrectionLevel::Q, version), ErrorCorrectionLevel::Q, version),
        !fits(
            Mode::Numeric,
            numeric_capacity(ErrorCorrectionLevel::Q, version) + 1,
            ErrorCorrectionLevel::Q,
            version,
        ),
{
    if version == 1 {
        assert(NUMERIC_Q_MAX_CAPACITY@[0] == 27 && Q_NUM_CODEWORDS@[0] == 13);
    }
    if version == 2 {
        assert(NUMERIC_Q_MAX_CAPACITY@[1] == 48 && Q_NUM_CODEWORDS@[1] == 22);
    }
    if version == 3 {
        assert(NUMERIC_Q_MAX_CAPACITY@[2] == 77 && Q_NUM_CODEWORDS@[2] == 34);
    }
    if version == 4 {
        assert(NUMERIC_Q_MAX_CAPACITY@[3] == 111 && Q_NUM_CODEWORDS@[3] == 48);
    }
    if version == 5 {
        assert(NUMERIC_Q_MAX_CAPACITY@[4] == 144 && Q_NUM_CODEWORDS@[4] == 62);
    }
    if version == 6 {
        assert(NUMERIC_Q_MAX_CAPACITY@[5] == 178 && Q_NUM_CODEWORDS@[5] == 76);
    }
    if version == 7 {
        assert(NUMERIC_Q_MAX_CAPACITY@[6] == 207 && Q_NUM_CODEWORDS@[6] == 88);
    }
    if version == 8 {
        assert(NUMERIC_Q_MAX_CAPACITY@[7] == 259 && Q_NUM_CODEWORDS@[7] == 110);
    }
    if version == 9 {
        assert(NUMERIC_Q_MAX_CAPACITY@[8] == 312 && Q_NUM_CODEWORDS@[8] == 132);
    }
    if version == 10 {
        assert(NUMERIC_Q_MAX_CAPACITY@[9] == 364 && Q_NUM_CODEWORDS@[9] == 154);
    }
    if version == 11 {
        assert(NUMERIC_Q_MAX_CAPACITY@[10] == 427 && Q_NUM_CODEWORDS@[10] == 180);
    }
    if version == 12 {
        assert(NUMERIC_Q_MAX_CAPACITY@[11] == 489 && Q_NUM_CODEWORDS@[11] == 206);
    }
    if version == 13 {
        assert(NUMERIC_Q_MAX_CAPACITY@[12] == 580 && Q_NUM_CODEWORDS@[12] == 244);
    }
    if version == 14 {
        assert(NUMERIC_Q_MAX_CAPACITY@[13] == 621 && Q_NUM_CODEWORDS@[13] == 261);
    }
    if version == 15 {
        assert(NUMERIC_Q_MAX_CAPACITY@[14] == 703 && Q_NUM_CODEWORDS@[14] == 295);
    }
    if version == 16 {
        assert(NUMERIC_Q_MAX_CAPACITY@[15] == 775 && Q_NUM_CODEWORDS@[15] == 325);
    }
    if version == 17 {
        assert(NUMERIC_Q_MAX_CAPACITY@[16] == 876 && Q_NUM_CODEWORDS@[16] == 367);
    }
    if version == 18 {
        assert(NUMERIC_Q_MAX_CAPACITY@[17] == 948 && Q_NUM_CODEWORDS@[17] == 397);
    }
    if version == 19 {
        assert(NUMERIC_Q_MAX_CAPACITY@[18] == 1063 && Q_NUM_CODEWORDS@[18] == 445);
    }
    if version == 20 {
        assert(NUMERIC_Q_MAX_CAPACITY@[19] == 1159 && Q_NUM_CODEWORDS@[19] == 485);
    }
    if version == 21 {
        assert(NUMERIC_Q_MAX_CAPACITY@[20] == 1224 && Q_NUM_CODEWORDS@[20] == 512);
    }
    if version == 22 {
        assert(NUMERIC_Q_MAX_CAPACITY@[21] == 1358 && Q_NUM_CODEWORDS@[21] == 568);
    }
    if version == 23 {
        assert(NUMERIC_Q_MAX_CAPACITY@[22] == 1468 && Q_NUM_CODEWORDS@[22] == 614);
    }
    if version == 24 {
        assert(NUMERIC_Q_MAX_CAPACITY@[23] == 1588 && Q_NUM_CODEWORDS@[23] == 664);
    }
    if version == 25 {
        assert(NUMERIC_Q_MAX_CAPACITY@[24] == 1718 && Q_NUM_CODEWORDS@[24] == 718);
    }
    if version == 26 {
        assert(NUMERIC_Q_MAX_CAPACITY@[25] == 1804 && Q_NUM_CODEWORDS@[25] == 754);
    }
    if version == 27 {
        assert(NUMERIC_Q_MAX_CAPACITY@[26] == 1933 && Q_NUM_CODEWORDS@[26] == 808);
    }
    if version == 28 {
        assert(NUMERIC_Q_MAX_CAPACITY@[27] == 2085 && Q_NUM_CODEWORDS@[27] == 871);
    }
    if version == 29 {
        assert(NUMERIC_Q_MAX_CAPACITY@[28] == 2181 && Q_NUM_CODEWORDS@[28] == 911);
    }
    if version == 30 {
        assert(NUMERIC_Q_MAX_CAPACITY@[29] == 2358 && Q_NUM_CODEWORDS@[29] == 985);
    }
    if version == 31 {
        assert(NUMERIC_Q_MAX_CAPACITY@[30] == 2473 && Q_NUM_CODEWORDS@[30] == 1033);
    }
    if version == 32 {
        assert(NUMERIC_Q_MAX_CAPACITY@[31] == 2670 && Q_NUM_CODEWORDS@[31] == 1115);
    }
    if version == 33 {
        assert(NUMERIC_Q_MAX_CAPACITY@[32] == 2805 && Q_NUM_CODEWORDS@[32] == 1171);
    }
    if version == 34 {
        assert(NUMERIC_Q_MAX_CAPACITY@[33] == 2949 && Q_NUM_CODEWORDS@[33] == 1231);
    }
    if version == 35 {
        assert(NUMERIC_Q_MAX_CAPACITY@[34] == 3081 && Q_NUM_CODEWORDS@[34] == 1286);
    }
    if version == 36 {
        assert(NUMERIC_Q_MAX_CAPACITY@[35] == 3244 && Q_NUM_CODEWORDS@[35] == 1354);
    }
    if version == 37 {
        assert(NUMERIC_Q_MAX_CAPACITY@[36] == 3417 && Q_NUM_CODEWORDS@[36] == 1426);
    }
    if version == 38 {
        assert(NUMERIC_Q_MAX_CAPACITY@[37] == 3599 && Q_NUM_CODEWORDS@[37] == 1502);
    }
    if version == 39 {
        assert(NUMERIC_Q_MAX_CAPACITY@[38] == 3791 && Q_NUM_CODEWORDS@[38] == 1582);
    }
    if version == 40 {
        assert(NUMERIC_Q_MAX_CAPACITY@[39] == 3993 && Q_NUM_CODEWORDS@[39] == 1666);
    }
}

proof fn lemma_numeric_capacity_h(version: int)
    requires
        is_version(version),
    ensures
        fits(Mode::Numeric, numeric_capacity(ErrorCorrectionLevel::H, version), ErrorCorrectionLevel::H, version),
        !fits(
            Mode::Numeric,
            numeric_capacity(ErrorCorrectionLevel::H, version) + 1,
            ErrorCorrectionLevel::H,
            version,
        ),
{
    if version == 1 {
        assert(NUMERIC_H_MAX_CAPACITY@[0] == 17 && H_NUM_CODEWORDS@[0] == 9);
    }
    if version == 2 {
        assert(NUMERIC_H_MAX_CAPACITY@[1] == 34 && H_NUM_CODEWORDS@[1] == 16);
    }
    if version == 3 {
        assert(NUMERIC_H_MAX_CAPACITY@[2] == 58 && H_NUM_CODEWORDS@[2] == 26);
    }
    if version == 4 {
        assert(NUMERIC_H_MAX_CAPACITY@[3] == 82 && H_NUM_CODEWORDS@[3] == 36);
    }
    if version == 5 {
        assert(NUMERIC_H_MAX_CAPACITY@[4] == 106 && H_NUM_CODEWORDS@[4] == 46);
    }
    if version == 6 {
        assert(NUMERIC_H_MAX_CAPACITY@[5] == 139 && H_NUM_CODEWORDS@[5] == 60);
    }
    if version == 7 {
        assert(NUMERIC_H_MAX_CAPACITY@[6] == 154 && H_NUM_CODEWORDS@[6] == 66);
    }
    if version == 8 {
        assert(NUMERIC_H_MAX_CAPACITY@[7] == 202 && H_NUM_CODEWORDS@[7] == 86);
    }
    if version == 9 {
        assert(NUMERIC_H_MAX_CAPACITY@[8] == 235 && H_NUM_CODEWORDS@[8] == 100);
    }
    if version == 10 {
        assert(NUMERIC_H_MAX_CAPACITY@[9] == 288 && H_NUM_CODEWORDS@[9] == 122);
    }
    if version == 11 {
        assert(NUMERIC_H_MAX_CAPACITY@[10] == 331 && H_NUM_CODEWORDS@[10] == 140);
    }
    if version == 12 {
        assert(NUMERIC_H_MAX_CAPACITY@[11] == 374 && H_NUM_CODEWORDS@[11] == 158);
    }
    if version == 13 {
        assert(NUMERIC_H_MAX_CAPACITY@[12] == 427 && H_NUM_CODEWORDS@[12] == 180);
    }
    if version == 14 {
        assert(NUMERIC_H_MAX_CAPACITY@[13] == 468 && H_NUM_CODEWORDS@[13] == 197);
    }
    if version == 15 {
        assert(NUMERIC_H_MAX_CAPACITY@[14] == 530 && H_NUM_CODEWORDS@[14] == 223);
    }
    if version == 16 {
        assert(NUMERIC_H_MAX_CAPACITY@[15] == 602 && H_NUM_CODEWORDS@[15] == 253);
    }
    if version == 17 {
        assert(NUMERIC_H_MAX_CAPACITY@[16] == 674 && H_NUM_CODEWORDS@[16] == 283);
    }
    if version == 18 {
        assert(NUMERIC_H_MAX_CAPACITY@[17] == 746 && H_NUM_CODEWORDS@[17] == 313);
    }
    if version == 19 {
        assert(NUMERIC_H_MAX_CAPACITY@[18] == 813 && H_NUM_CODEWORDS@[18] == 341);
    }
    if version == 20 {
        assert(NUMERIC_H_MAX_CAPACITY@[19] == 919 && H_NUM_CODEWORDS@[19] == 385);
    }
    if version == 21 {
        assert(NUMERIC_H_MAX_CAPACITY@[20] == 969 && H_NUM_CODEWORDS@[20] == 406);
    }
    if version == 22 {
        assert(NUMERIC_H_MAX_CAPACITY@[21] == 1056 && H_NUM_CODEWORDS@[21] == 442);
    }
    if version == 23 {
        assert(NUMERIC_H_MAX_CAPACITY@[22] == 1108 && H_NUM_CODEWORDS@[22] == 464);
    }
    if version == 24 {
        assert(NUMERIC_H_MAX_CAPACITY@[23] == 1228 && H_NUM_CODEWORDS@[23] == 514);
    }
    if version == 25 {
        assert(NUMERIC_H_MAX_CAPACITY@[24] == 1286 && H_NUM_CODEWORDS@[24] == 538);
    }
    if version == 26 {
        assert(NUMERIC_H_MAX_CAPACITY@[25] == 1425 && H_NUM_CODEWORDS@[25] == 596);
    }
    if version == 27 {
        assert(NUMERIC_H_MAX_CAPACITY@[26] == 1501 && H_NUM_CODEWORDS@[26] == 628);
    }
    if version == 28 {
        assert(NUMERIC_H_MAX_CAPACITY@[27] == 1581 && H_NUM_CODEWORDS@[27] == 661);
    }
    if version == 29 {
        assert(NUMERIC_H_MAX_CAPACITY@[28] == 1677 && H_NUM_CODEWORDS@[28] == 701);
    }
    if version == 30 {
        assert(NUMERIC_H_MAX_CAPACITY@[29] == 1782 && H_NUM_CODEWORDS@[29] == 745);
    }
    if version == 31 {
        assert(NUMERIC_H_MAX_CAPACITY@[30] == 1897 && H_NUM_CODEWORDS@[30] == 793);
    }
    if version == 32 {
        assert(NUMERIC_H_MAX_CAPACITY@[31] == 2022 && H_NUM_CODEWORDS@[31] == 845);
    }
    if version == 33 {
        assert(NUMERIC_H_MAX_CAPACITY@[32] == 2157 && H_NUM_CODEWORDS@[32] == 901);
    }
    if version == 34 {
        assert(NUMERIC_H_MAX_CAPACITY@[33] == 2301 && H_NUM_CODEWORDS@[33] == 961);
    }
    if version == 35 {
        assert(NUMERIC_H_MAX_CAPACITY@[34] == 2361 && H_NUM_CODEWORDS@[34] == 986);
    }
    if version == 36 {
        assert(NUMERIC_H_MAX_CAPACITY@[35] == 2524 && H_NUM_CODEWORDS@[35] == 1054);
    }
    if version == 37 {
        assert(NUMERIC_H_MAX_CAPACITY@[36] == 2625 && H_NUM_CODEWORDS@[36] == 1096);
    }
    if version == 38 {
        assert(NUMERIC_H_MAX_CAPACITY@[37] == 2735 && H_NUM_CODEWORDS@[37] == 1142);
    }
    if version == 39 {
        assert(NUMERIC_H_MAX_CAPACITY@[38] == 2927 && H_NUM_CODEWORDS@[38] == 1222);
    }
    if version == 40 {
        assert(NUMERIC_H_MAX_CAPACITY@[39] == 3057 && H_NUM_CODEWORDS@[39] == 1276);
    }
}

proof fn lemma_alphanumeric_capacity_l(version: int)
    requires
        is_version(version),
    ensures
        fits(Mode::Alphanumeric, alphanumeric_capacity(ErrorCorrectionLevel::L, version), ErrorCorrectionLevel::L, version),
        !fits(
            Mode::Alphanumeric,
            alphanumeric_capacity(ErrorCorrectionLevel::L, version) + 1,
            ErrorCorrectionLevel::L,
            version,
        ),
{
    if version == 1 {
        assert(ALPHA_NUMERIC_L_MAX_CAPACITY@[0] == 25 && L_NUM_CODEWORDS@[0] == 19);
    }
    if version == 2 {
        assert(ALPHA_NUMERIC_L_MAX_CAPACITY@[1] == 47 && L_NUM_CODEWORDS@[1] == 34);
    }
    if version == 3 {
        assert(ALPHA_NUMERIC_L_MAX_CAPACITY@[2] == 77 && L_NUM_CODEWORDS@[2] == 55);
    }
    if version == 4 {
        assert(ALPHA_NUMERIC_L_MAX_CAPACITY@[3] == 114 && L_NUM_CODEWORDS@[3] == 80);
    }
    if version == 5 {
        assert(ALPHA_NUMERIC_L_MAX_CAPACITY@[4] == 154 && L_NUM_CODEWORDS@[4] == 108);
    }
    if version == 6 {
        assert(ALPHA_NUMERIC_L_MAX_CAPACITY@[5] == 195 && L_NUM_CODEWORDS@[5] == 136);
    }
    if version == 7 {
        assert(ALPHA_NUMERIC_L_MAX_CAPACITY@[6] == 224 && L_NUM_CODEWORDS@[6] == 156);
    }
    if version == 8 {
        assert(ALPHA_NUMERIC_L_MAX_CAPACITY@[7] == 279 && L_NUM_CODEWORDS@[7] == 194);
    }
    if version == 9 {
        assert(ALPHA_NUMERIC_L_MAX_CAPACITY@[8] == 335 && L_NUM_CODEWORDS@[8] == 232);
    }
    if version == 10 {
        assert(ALPHA_NUMERIC_L_MAX_CAPACITY@[9] == 395 && L_NUM_CODEWORDS@[9] == 274);
    }
    if version == 11 {
        assert(ALPHA_NUMERIC_L_MAX_CAPACITY@[10] == 468 && L_NUM_CODEWORDS@[10] == 324);
    }
    if version == 12 {
        assert(ALPHA_NUMERIC_L_MAX_CAPACITY@[11] == 535 && L_NUM_CODEWORDS@[11] == 370);
    }
    if version == 13 {
        assert(ALPHA_NUMERIC_L_MAX_CAPACITY@[12] == 619 && L_NUM_CODEWORDS@[12] == 428);
    }
    if version == 14 {
        assert(ALPHA_NUMERIC_L_MAX_CAPACITY@[13] == 667 && L_NUM_CODEWORDS@[13] == 461);
    }
    if version == 15 {
        assert(ALPHA_NUMERIC_L_MAX_CAPACITY@[14] == 758 && L_NUM_CODEWORDS@[14] == 523);
    }
    if version == 16 {
        assert(ALPHA_NUMERIC_L_MAX_CAPACITY@[15] == 854 && L_NUM_CODEWORDS@[15] == 589);
    }
    if version == 17 {
        assert(ALPHA_NUMERIC_L_MAX_CAPACITY@[16] == 938 && L_NUM_CODEWORDS@[16] == 647);
    }
    if version == 18 {
        assert(ALPHA_NUMERIC_L_MAX_CAPACITY@[17] == 1046 && L_NUM_CODEWORDS@[17] == 721);
    }
    if version == 19 {
        assert(ALPHA_NUMERIC_L_MAX_CAPACITY@[18] == 1153 && L_NUM_CODEWORDS@[18] == 795);
    }
    if version == 20 {
        assert(ALPHA_NUMERIC_L_MAX_CAPACITY@[19] == 1249 && L_NUM_CODEWORDS@[19] == 861);
    }
    if version == 21 {
        assert(ALPHA_NUMERIC_L_MAX_CAPACITY@[20] == 1352 && L_NUM_CODEWORDS@[20] == 932);
    }
    if version == 22 {
        assert(ALPHA_NUMERIC_L_MAX_CAPACITY@[21] == 1460 && L_NUM_CODEWORDS@[21] == 1006);
    }
    if version == 23 {
        assert(ALPHA_NUMERIC_L_MAX_CAPACITY@[22] == 1588 && L_NUM_CODEWORDS@[22] == 1094);
    }
    if version == 24 {
        assert(ALPHA_NUMERIC_L_MAX_CAPACITY@[23] == 1704 && L_NUM_CODEWORDS@[23] == 1174);
    }
    if version == 25 {
        assert(ALPHA_NUMERIC_L_MAX_CAPACITY@[24] == 1853 && L_NUM_CODEWORDS@[24] == 1276);
    }
    if version == 26 {
        assert(ALPHA_NUMERIC_L_MAX_CAPACITY@[25] == 1990 && L_NUM_CODEWORDS@[25] == 1370);
    }
    if version == 27 {
        assert(ALPHA_NUMERIC_L_MAX_CAPACITY@[26] == 2132 && L_NUM_CODEWORDS@[26] == 1468);
    }
    if version == 28 {
        assert(ALPHA_NUMERIC_L_MAX_CAPACITY@[27] == 2223 && L_NUM_CODEWORDS@[27] == 1531);
    }
    if version == 29 {
        assert(ALPHA_NUMERIC_L_MAX_CAPACITY@[28] == 2369 && L_NUM_CODEWORDS@[28] == 1631);
    }
    if version == 30 {
        assert(ALPHA_NUMERIC_L_MAX_CAPACITY@[29] == 2520 && L_NUM_CODEWORDS@[29] == 1735);
    }
    if version == 31 {
        assert(ALPHA_NUMERIC_L_MAX_CAPACITY@[30] == 2677 && L_NUM_CODEWORDS@[30] == 1843);
    }
    if version == 32 {
        assert(ALPHA_NUMERIC_L_MAX_CAPACITY@[31] == 2840 && L_NUM_CODEWORDS@[31] == 1955);
    }
    if version == 33 {
        assert(ALPHA_NUMERIC_L_MAX_CAPACITY@[32] == 3009 && L_NUM_CODEWORDS@[32] == 2071);
    }
    if version == 34 {
        assert(ALPHA_NUMERIC_L_MAX_CAPACITY@[33] == 3183 && L_NUM_CODEWORDS@[33] == 2191);
    }
    if version == 35 {
        assert(ALPHA_NUMERIC_L_MAX_CAPACITY@[34] == 3351 && L_NUM_CODEWORDS@[34] == 2306);
    }
    if version == 36 {
        assert(ALPHA_NUMERIC_L_MAX_CAPACITY@[35] == 3537 && L_NUM_CODEWORDS@[35] == 2434);
    }
    if version == 37 {
        assert(ALPHA_NUMERIC_L_MAX_CAPACITY@[36] == 3729 && L_NUM_CODEWORDS@[36] == 2566);
    }
    if version == 38 {
        assert(ALPHA_NUMERIC_L_MAX_CAPACITY@[37] == 3927 && L_NUM_CODEWORDS@[37] == 2702);
    }
    if version == 39 {
        assert(ALPHA_NUMERIC_L_MAX_CAPACITY@[38] == 4087 && L_NUM_CODEWORDS@[38] == 2812);
    }
    if version == 40 {
        assert(ALPHA_NUMERIC_L_MAX_CAPACITY@[39] == 4296 && L_NUM_CODEWORDS@[39] == 2956);
    }
}

proof fn lemma_alphanumeric_capacity_m(version: int)
    requires
        is_version(version),
    ensures
        fits(Mode::Alphanumeric, alphanumeric_capacity(ErrorCorrectionLevel::M, version), ErrorCorrectionLevel::M, version),
        !fits(
            Mode::Alphanumeric,
            alphanumeric_capacity(ErrorCorrectionLevel::M, version) + 1,
            ErrorCorrectionLevel::M,
            version,
        ),
{
    if version == 1 {
        assert(ALPHA_NUMERIC_M_MAX_CAPACITY@[0] == 20 && M_NUM_CODEWORDS@[0] == 16);
    }
    if version == 2 {
        assert(ALPHA_NUMERIC_M_MAX_CAPACITY@[1] == 38 && M_NUM_CODEWORDS@[1] == 28);
    }
    if version == 3 {
        assert(ALPHA_NUMERIC_M_MAX_CAPACITY@[2] == 61 && M_NUM_CODEWORDS@[2] == 44);
    }
    if version == 4 {
        assert(ALPHA_NUMERIC_M_MAX_CAPACITY@[3] == 90 && M_NUM_CODEWORDS@[3] == 64);
    }
    if version == 5 {
        assert(ALPHA_NUMERIC_M_MAX_CAPACITY@[4] == 122 && M_NUM_CODEWORDS@[4] == 86);
    }
    if version == 6 {
        assert(ALPHA_NUMERIC_M_MAX_CAPACITY@[5] == 154 && M_NUM_CODEWORDS@[5] == 108);
    }
    if version == 7 {
        assert(ALPHA_NUMERIC_M_MAX_CAPACITY@[6] == 178 && M_NUM_CODEWORDS@[6] == 124);
    }
    if version == 8 {
        assert(ALPHA_NUMERIC_M_MAX_CAPACITY@[7] == 221 && M_NUM_CODEWORDS@[7] == 154);
    }
    if version == 9 {
        assert(ALPHA_NUMERIC_M_MAX_CAPACITY@[8] == 262 && M_NUM_CODEWORDS@[8] == 182);
    }
    if version == 10 {
        assert(ALPHA_NUMERIC_M_MAX_CAPACITY@[9] == 311 && M_NUM_CODEWORDS@[9] == 216);
    }
    if version == 11 {
        assert(ALPHA_NUMERIC_M_MAX_CAPACITY@[10] == 366 && M_NUM_CODEWORDS@[10] == 254);
    }
    if version == 12 {
        assert(ALPHA_NUMERIC_M_MAX_CAPACITY@[11] == 419 && M_NUM_CODEWORDS@[11] == 290);
    }
    if version == 13 {
        assert(ALPHA_NUMERIC_M_MAX_CAPACITY@[12] == 483 && M_NUM_CODEWORDS@[12] == 334);
    }
    if version == 14 {
        assert(ALPHA_NUMERIC_M_MAX_CAPACITY@[13] == 528 && M_NUM_CODEWORDS@[13] == 365);
    }
    if version == 15 {
        assert(ALPHA_NUMERIC_M_MAX_CAPACITY@[14] == 600 && M_NUM_CODEWORDS@[14] == 415);
    }
    if version == 16 {
        assert(ALPHA_NUMERIC_M_MAX_CAPACITY@[15] == 656 && M_NUM_CODEWORDS@[15] == 453);
    }
    if version == 17 {
        assert(ALPHA_NUMERIC_M_MAX_CAPACITY@[16] == 734 && M_NUM_CODEWORDS@[16] == 507);
    }
    if version == 18 {
        assert(ALPHA_NUMERIC_M_MAX_CAPACITY@[17] == 816 && M_NUM_CODEWORDS@[17] == 563);
    }
    if version == 19 {
        assert(ALPHA_NUMERIC_M_MAX_CAPACITY@[18] == 909 && M_NUM_CODEWORDS@[18] == 627);
    }
    if version == 20 {
        assert(ALPHA_NUMERIC_M_MAX_CAPACITY@[19] == 970 && M_NUM_CODEWORDS@[19] == 669);
    }
    if version == 21 {
        assert(ALPHA_NUMERIC_M_MAX_CAPACITY@[20] == 1035 && M_NUM_CODEWORDS@[20] == 714);
    }
    if version == 22 {
        assert(ALPHA_NUMERIC_M_MAX_CAPACITY@[21] == 1134 && M_NUM_CODEWORDS@[21] == 782);
    }
    if version == 23 {
        assert(ALPHA_NUMERIC_M_MAX_CAPACITY@[22] == 1248 && M_NUM_CODEWORDS@[22] == 860);
    }
    if version == 24 {
        assert(ALPHA_NUMERIC_M_MAX_CAPACITY@[23] == 1326 && M_NUM_CODEWORDS@[23] == 914);
    }
    if version == 25 {
        assert(ALPHA_NUMERIC_M_MAX_CAPACITY@[24] == 1451 && M_NUM_CODEWORDS@[24] == 1000);
    }
    if version == 26 {
        assert(ALPHA_NUMERIC_M_MAX_CAPACITY@[25] == 1542 && M_NUM_CODEWORDS@[25] == 1062);
    }
    if version == 27 {
        assert(ALPHA_NUMERIC_M_MAX_CAPACITY@[26] == 1637 && M_NUM_CODEWORDS@[26] == 1128);
    }
    if version == 28 {
        assert(ALPHA_NUMERIC_M_MAX_CAPACITY@[27] == 1732 && M_NUM_CODEWORDS@[27] == 1193);
    }
    if version == 29 {
        assert(ALPHA_NUMERIC_M_MAX_CAPACITY@[28] == 1839 && M_NUM_CODEWORDS@[28] == 1267);
    }
    if version == 30 {
        assert(ALPHA_NUMERIC_M_MAX_CAPACITY@[29] == 1994 && M_NUM_CODEWORDS@[29] == 1373);
    }
    if version == 31 {
        assert(ALPHA_NUMERIC_M_MAX_CAPACITY@[30] == 2113 && M_NUM_CODEWORDS@[30] == 1455);
    }
    if version == 32 {
        assert(ALPHA_NUMERIC_M_MAX_CAPACITY@[31] == 2238 && M_NUM_CODEWORDS@[31] == 1541);
    }
    if version == 33 {
        assert(ALPHA_NUMERIC_M_MAX_CAPACITY@[32] == 2369 && M_NUM_CODEWORDS@[32] == 1631);
    }
    if version == 34 {
        assert(ALPHA_NUMERIC_M_MAX_CAPACITY@[33] == 2506 && M_NUM_CODEWORDS@[33] == 1725);
    }
    if version == 35 {
        assert(ALPHA_NUMERIC_M_MAX_CAPACITY@[34] == 2632 && M_NUM_CODEWORDS@[34] == 1812);
    }
    if version == 36 {
        assert(ALPHA_NUMERIC_M_MAX_CAPACITY@[35] == 2780 && M_NUM_CODEWORDS@[35] == 1914);
    }
    if version == 37 {
        assert(ALPHA_NUMERIC_M_MAX_CAPACITY@[36] == 2894 && M_NUM_CODEWORDS@[36] == 1992);
    }
    if version == 38 {
        assert(ALPHA_NUMERIC_M_MAX_CAPACITY@[37] == 3054 && M_NUM_CODEWORDS@[37] == 2102);
    }
    if version == 39 {
        assert(ALPHA_NUMERIC_M_MAX_CAPACITY@[38] == 3220 && M_NUM_CODEWORDS@[38] == 2216);
    }
    if version == 40 {
        assert(ALPHA_NUMERIC_M_MAX_CAPACITY@[39] == 3391 && M_NUM_CODEWORDS@[39] == 2334);
    }
}

proof fn lemma_alphanumeric_capacity_q(version: int)
    requires
        is_version(version),
    ensures
        fits(Mode::Alphanumeric, alphanumeric_capacity(ErrorCorrectionLevel::Q, version), ErrorCorrectionLevel::Q, version),
        !fits(
            Mode::Alphanumeric,
            alphanumeric_capacity(ErrorCorrectionLevel::Q, version) + 1,
            ErrorCorrectionLevel::Q,
            version,
        ),
{
    if version == 1 {
        assert(ALPHA_NUMERIC_Q_MAX_CAPACITY@[0] == 16 && Q_NUM_CODEWORDS@[0] == 13);
    }
    if version == 2 {
        assert(ALPHA_NUMERIC_Q_MAX_CAPACITY@[1] == 29 && Q_NUM_CODEWORDS@[1] == 22);
    }
    if version == 3 {
        assert(ALPHA_NUMERIC_Q_MAX_CAPACITY@[2] == 47 && Q_NUM_CODEWORDS@[2] == 34);
    }
    if version == 4 {
        assert(ALPHA_NUMERIC_Q_MAX_CAPACITY@[3] == 67 && Q_NUM_CODEWORDS@[3] == 48);
    }
    if version == 5 {
        assert(ALPHA_NUMERIC_Q_MAX_CAPACITY@[4] == 87 && Q_NUM_CODEWORDS@[4] == 62);
    }
    if version == 6 {
        assert(ALPHA_NUMERIC_Q_MAX_CAPACITY@[5] == 108 && Q_NUM_CODEWORDS@[5] == 76);
    }
    if version == 7 {
        assert(ALPHA_NUMERIC_Q_MAX_CAPACITY@[6] == 125 && Q_NUM_CODEWORDS@[6] == 88);
    }
    if version == 8 {
        assert(ALPHA_NUMERIC_Q_MAX_CAPACITY@[7] == 157 && Q_NUM_CODEWORDS@[7] == 110);
    }
    if version == 9 {
        assert(ALPHA_NUMERIC_Q_MAX_CAPACITY@[8] == 189 && Q_NUM_CODEWORDS@[8] == 132);
    }
    if version == 10 {
        assert(ALPHA_NUMERIC_Q_MAX_CAPACITY@[9] == 221 && Q_NUM_CODEWORDS@[9] == 154);
    }
    if version == 11 {
        assert(ALPHA_NUMERIC_Q_MAX_CAPACITY@[10] == 259 && Q_NUM_CODEWORDS@[10] == 180);
    }
    if version == 12 {
        assert(ALPHA_NUMERIC_Q_MAX_CAPACITY@[11] == 296 && Q_NUM_CODEWORDS@[11] == 206);
    }
    if version == 13 {
        assert(ALPHA_NUMERIC_Q_MAX_CAPACITY@[12] == 352 && Q_NUM_CODEWORDS@[12] == 244);
    }
    if version == 14 {
        assert(ALPHA_NUMERIC_Q_MAX_CAPACITY@[13] == 376 && Q_NUM_CODEWORDS@[13] == 261);
    }
    if version == 15 {
        assert(ALPHA_NUMERIC_Q_MAX_CAPACITY@[14] == 426 && Q_NUM_CODEWORDS@[14] == 295);
    }
    if version == 16 {
        assert(ALPHA_NUMERIC_Q_MAX_CAPACITY@[15] == 470 && Q_NUM_CODEWORDS@[15] == 325);
    }
    if version == 17 {
        assert(ALPHA_NUMERIC_Q_MAX_CAPACITY@[16] == 531 && Q_NUM_CODEWORDS@[16] == 367);
    }
    if version == 18 {
        assert(ALPHA_NUMERIC_Q_MAX_CAPACITY@[17] == 574 && Q_NUM_CODEWORDS@[17] == 397);
    }
    if version == 19 {
        assert(ALPHA_NUMERIC_Q_MAX_CAPACITY@[18] == 644 && Q_NUM_CODEWORDS@[18] == 445);
    }
    if version == 20 {
        assert(ALPHA_NUMERIC_Q_MAX_CAPACITY@[19] == 702 && Q_NUM_CODEWORDS@[19] == 485);
    }
    if version == 21 {
        assert(ALPHA_NUMERIC_Q_MAX_CAPACITY@[20] == 742 && Q_NUM_CODEWORDS@[20] == 512);
    }
    if version == 22 {
        assert(ALPHA_NUMERIC_Q_MAX_CAPACITY@[21] == 823 && Q_NUM_CODEWORDS@[21] == 568);
    }
    if version == 23 {
        assert(ALPHA_NUMERIC_Q_MAX_CAPACITY@[22] == 890 && Q_NUM_CODEWORDS@[22] == 614);
    }
    if version == 24 {
        assert(ALPHA_NUMERIC_Q_MAX_CAPACITY@[23] == 963 && Q_NUM_CODEWORDS@[23] == 664);
    }
    if version == 25 {
        assert(ALPHA_NUMERIC_Q_MAX_CAPACITY@[24] == 1041 && Q_NUM_CODEWORDS@[24] == 718);
    }
    if version == 26 {
        assert(ALPHA_NUMERIC_Q_MAX_CAPACITY@[25] == 1094 && Q_NUM_CODEWORDS@[25] == 754);
    }
    if version == 27 {
        assert(ALPHA_NUMERIC_Q_MAX_CAPACITY@[26] == 1172 && Q_NUM_CODEWORDS@[26] == 808);
    }
    if version == 28 {
        assert(ALPHA_NUMERIC_Q_MAX_CAPACITY@[27] == 1263 && Q_NUM_CODEWORDS@[27] == 871);
    }
    if version == 29 {
        assert(ALPHA_NUMERIC_Q_MAX_CAPACITY@[28] == 1322 && Q_NUM_CODEWORDS@[28] == 911);
    }
    if version == 30 {
        assert(ALPHA_NUMERIC_Q_MAX_CAPACITY@[29] == 1429 && Q_NUM_CODEWORDS@[29] == 985);
    }
    if version == 31 {
        assert(ALPHA_NUMERIC_Q_MAX_CAPACITY@[30] == 1499 && Q_NUM_CODEWORDS@[30] == 1033);
    }
    if version == 32 {
        assert(ALPHA_NUMERIC_Q_MAX_CAPACITY@[31] == 1618 && Q_NUM_CODEWORDS@[31] == 1115);
    }
    if version == 33 {
        assert(ALPHA_NUMERIC_Q_MAX_CAPACITY@[32] == 1700 && Q_NUM_CODEWORDS@[32] == 1171);
    }
    if version == 34 {
        assert(ALPHA_NUMERIC_Q_MAX_CAPACITY@[33] == 1787 && Q_NUM_CODEWORDS@[33] == 1231);
    }
    if version == 35 {
        assert(ALPHA_NUMERIC_Q_MAX_CAPACITY@[34] == 1867 && Q_NUM_CODEWORDS@[34] == 1286);
    }
    if version == 36 {
        assert(ALPHA_NUMERIC_Q_MAX_CAPACITY@[35] == 1966 && Q_NUM_CODEWORDS@[35] == 1354);
    }
    if version == 37 {
        assert(ALPHA_NUMERIC_Q_MAX_CAPACITY@[36] == 2071 && Q_NUM_CODEWORDS@[36] == 1426);
    }
    if version == 38 {
        assert(ALPHA_NUMERIC_Q_MAX_CAPACITY@[37] == 2181 && Q_NUM_CODEWORDS@[37] == 1502);
    }
    if version == 39 {
        assert(ALPHA_NUMERIC_Q_MAX_CAPACITY@[38] == 2298 && Q_NUM_CODEWORDS@[38] == 1582);
    }
    if version == 40 {
        assert(ALPHA_NUMERIC_Q_MAX_CAPACITY@[39] == 2420 && Q_NUM_CODEWORDS@[39] == 1666);
    }
}

proof fn lemma_alphanumeric_capacity_h(version: int)
    requires
        is_version(version),
    ensures
        fits(Mode::Alphanumeric, alphanumeric_capacity(ErrorCorrectionLevel::H, version), ErrorCorrectionLevel::H, version),
        !fits(
            Mode::Alphanumeric,
            alphanumeric_capacity(ErrorCorrectionLevel::H, version) + 1,
            ErrorCorrectionLevel::H,
            version,
        ),
{
    if version == 1 {
        assert(ALPHA_NUMERIC_H_MAX_CAPACITY@[0] == 10 && H_NUM_CODEWORDS@[0] == 9);
    }
    if version == 2 {
        assert(ALPHA_NUMERIC_H_MAX_CAPACITY@[1] == 20 && H_NUM_CODEWORDS@[1] == 16);
    }
    if version == 3 {
        assert(ALPHA_NUMERIC_H_MAX_CAPACITY@[2] == 35 && H_NUM_CODEWORDS@[2] == 26);
    }
    if version == 4 {
        assert(ALPHA_NUMERIC_H_MAX_CAPACITY@[3] == 50 && H_NUM_CODEWORDS@[3] == 36);
    }
    if version == 5 {
        assert(ALPHA_NUMERIC_H_MAX_CAPACITY@[4] == 64 && H_NUM_CODEWORDS@[4] == 46);
    }
    if version == 6 {
        assert(ALPHA_NUMERIC_H_MAX_CAPACITY@[5] == 84 && H_NUM_CODEWORDS@[5] == 60);
    }
    if version == 7 {
        assert(ALPHA_NUMERIC_H_MAX_CAPACITY@[6] == 93 && H_NUM_CODEWORDS@[6] == 66);
    }
    if version == 8 {
        assert(ALPHA_NUMERIC_H_MAX_CAPACITY@[7] == 122 && H_NUM_CODEWORDS@[7] == 86);
    }
    if version == 9 {
        assert(ALPHA_NUMERIC_H_MAX_CAPACITY@[8] == 143 && H_NUM_CODEWORDS@[8] == 100);
    }
    if version == 10 {
        assert(ALPHA_NUMERIC_H_MAX_CAPACITY@[9] == 174 && H_NUM_CODEWORDS@[9] == 122);
    }
    if version == 11 {
        assert(ALPHA_NUMERIC_H_MAX_CAPACITY@[10] == 200 && H_NUM_CODEWORDS@[10] == 140);
    }
    if version == 12 {
        assert(ALPHA_NUMERIC_H_MAX_CAPACITY@[11] == 227 && H_NUM_CODEWORDS@[11] == 158);
    }
    if version == 13 {
        assert(ALPHA_NUMERIC_H_MAX_CAPACITY@[12] == 259 && H_NUM_CODEWORDS@[12] == 180);
    }
    if version == 14 {
        assert(ALPHA_NUMERIC_H_MAX_CAPACITY@[13] == 283 && H_NUM_CODEWORDS@[13] == 197);
    }
    if version == 15 {
        assert(ALPHA_NUMERIC_H_MAX_CAPACITY@[14] == 321 && H_NUM_CODEWORDS@[14] == 223);
    }
    if version == 16 {
        assert(ALPHA_NUMERIC_H_MAX_CAPACITY@[15] == 365 && H_NUM_CODEWORDS@[15] == 253);
    }
    if version == 17 {
        assert(ALPHA_NUMERIC_H_MAX_CAPACITY@[16] == 408 && H_NUM_CODEWORDS@[16] == 283);
    }
    if version == 18 {
        assert(ALPHA_NUMERIC_H_MAX_CAPACITY@[17] == 452 && H_NUM_CODEWORDS@[17] == 313);
    }
    if version == 19 {
        assert(ALPHA_NUMERIC_H_MAX_CAPACITY@[18] == 493 && H_NUM_CODEWORDS@[18] == 341);
    }
    if version == 20 {
        assert(ALPHA_NUMERIC_H_MAX_CAPACITY@[19] == 557 && H_NUM_CODEWORDS@[19] == 385);
    }
    if version == 21 {
        assert(ALPHA_NUMERIC_H_MAX_CAPACITY@[20] == 587 && H_NUM_CODEWORDS@[20] == 406);
    }
    if version == 22 {
        assert(ALPHA_NUMERIC_H_MAX_CAPACITY@[21] == 640 && H_NUM_CODEWORDS@[21] == 442);
    }
    if version == 23 {
        assert(ALPHA_NUMERIC_H_MAX_CAPACITY@[22] == 672 && H_NUM_CODEWORDS@[22] == 464);
    }
    if version == 24 {
        assert(ALPHA_NUMERIC_H_MAX_CAPACITY@[23] == 744 && H_NUM_CODEWORDS@[23] == 514);
    }
    if version == 25 {
        assert(ALPHA_NUMERIC_H_MAX_CAPACITY@[24] == 779 && H_NUM_CODEWORDS@[24] == 538);
    }
    if version == 26 {
        assert(ALPHA_NUMERIC_H_MAX_CAPACITY@[25] == 864 && H_NUM_CODEWORDS@[25] == 596);
    }
    if version == 27 {
        assert(ALPHA_NUMERIC_H_MAX_CAPACITY@[26] == 910 && H_NUM_CODEWORDS@[26] == 628);
    }
    if version == 28 {
        assert(ALPHA_NUMERIC_H_MAX_CAPACITY@[27] == 958 && H_NUM_CODEWORDS@[27] == 661);
    }
    if version == 29 {
        assert(ALPHA_NUMERIC_H_MAX_CAPACITY@[28] == 1016 && H_NUM_CODEWORDS@[28] == 701);
    }
    if version == 30 {
        assert(ALPHA_NUMERIC_H_MAX_CAPACITY@[29] == 1080 && H_NUM_CODEWORDS@[29] == 745);
    }
    if version == 31 {
        assert(ALPHA_NUMERIC_H_MAX_CAPACITY@[30] == 1150 && H_NUM_CODEWORDS@[30] == 793);
    }
    if version == 32 {
        assert(ALPHA_NUMERIC_H_MAX_CAPACITY@[31] == 1226 && H_NUM_CODEWORDS@[31] == 845);
    }
    if version == 33 {
        assert(ALPHA_NUMERIC_H_MAX_CAPACITY@[32] == 1307 && H_NUM_CODEWORDS@[32] == 901);
    }
    if version == 34 {
        assert(ALPHA_NUMERIC_H_MAX_CAPACITY@[33] == 1394 && H_NUM_CODEWORDS@[33] == 961);
    }
    if version == 35 {
        assert(ALPHA_NUMERIC_H_MAX_CAPACITY@[34] == 1431 && H_NUM_CODEWORDS@[34] == 986);
    }
    if version == 36 {
        assert(ALPHA_NUMERIC_H_MAX_CAPACITY@[35] == 1530 && H_NUM_CODEWORDS@[35] == 1054);
    }
    if version == 37 {
        assert(ALPHA_NUMERIC_H_MAX_CAPACITY@[36] == 1591 && H_NUM_CODEWORDS@[36] == 1096);
    }
    if version == 38 {
        assert(ALPHA_NUMERIC_H_MAX_CAPACITY@[37] == 1658 && H_NUM_CODEWORDS@[37] == 1142);
    }
    if version == 39 {
        assert(ALPHA_NUMERIC_H_MAX_CAPACITY@[38] == 1774 && H_NUM_CODEWORDS@[38] == 1222);
    }
    if version == 40 {
        assert(ALPHA_NUMERIC_H_MAX_CAPACITY@[39] == 1852 && H_NUM_CODEWORDS@[39] == 1276);
    }
}

proof fn lemma_byte_capacity_l(version: int)
    requires
        is_version(version),
    ensures
        fits(Mode::Byte, byte_capacity(ErrorCorrectionLevel::L, version), ErrorCorrectionLevel::L, version),
        !fits(
            Mode::Byte,
            byte_capacity(ErrorCorrectionLevel::L, version) + 1,
            ErrorCorrectionLevel::L,
            version,
        ),
{
    if version == 1 {
        assert(BYTE_L_MAX_CAPACITY@[0] == 17 && L_NUM_CODEWORDS@[0] == 19);
    }
    if version == 2 {
        assert(BYTE_L_MAX_CAPACITY@[1] == 32 && L_NUM_CODEWORDS@[1] == 34);
    }
    if version == 3 {
        assert(BYTE_L_MAX_CAPACITY@[2] == 53 && L_NUM_CODEWORDS@[2] == 55);
    }
    if version == 4 {
        assert(BYTE_L_MAX_CAPACITY@[3] == 78 && L_NUM_CODEWORDS@[3] == 80);
    }
    if version == 5 {
        assert(BYTE_L_MAX_CAPACITY@[4] == 106 && L_NUM_CODEWORDS@[4] == 108);
    }
    if version == 6 {
        assert(BYTE_L_MAX_CAPACITY@[5] == 134 && L_NUM_CODEWORDS@[5] == 136);
    }
    if version == 7 {
        assert(BYTE_L_MAX_CAPACITY@[6] == 154 && L_NUM_CODEWORDS@[6] == 156);
    }
    if version == 8 {
        assert(BYTE_L_MAX_CAPACITY@[7] == 192 && L_NUM_CODEWORDS@[7] == 194);
    }
    if version == 9 {
        assert(BYTE_L_MAX_CAPACITY@[8] == 230 && L_NUM_CODEWORDS@[8] == 232);
    }
    if version == 10 {
        assert(BYTE_L_MAX_CAPACITY@[9] == 271 && L_NUM_CODEWORDS@[9] == 274);
    }
    if version == 11 {
        assert(BYTE_L_MAX_CAPACITY@[10] == 321 && L_NUM_CODEWORDS@[10] == 324);
    }
    if version == 12 {
        assert(BYTE_L_MAX_CAPACITY@[11] == 367 && L_NUM_CODEWORDS@[11] == 370);
    }
    if version == 13 {
        assert(BYTE_L_MAX_CAPACITY@[12] == 425 && L_NUM_CODEWORDS@[12] == 428);
    }
    if version == 14 {
        assert(BYTE_L_MAX_CAPACITY@[13] == 458 && L_NUM_CODEWORDS@[13] == 461);
    }
    if version == 15 {
        assert(BYTE_L_MAX_CAPACITY@[14] == 520 && L_NUM_CODEWORDS@[14] == 523);
    }
    if version == 16 {
        assert(BYTE_L_MAX_CAPACITY@[15] == 586 && L_NUM_CODEWORDS@[15] == 589);
    }
    if version == 17 {
        assert(BYTE_L_MAX_CAPACITY@[16] == 644 && L_NUM_CODEWORDS@[16] == 647);
    }
    if version == 18 {
        assert(BYTE_L_MAX_CAPACITY@[17] == 718 && L_NUM_CODEWORDS@[17] == 721);
    }
    if version == 19 {
        assert(BYTE_L_MAX_CAPACITY@[18] == 792 && L_NUM_CODEWORDS@[18] == 795);
    }
    if version == 20 {
        assert(BYTE_L_MAX_CAPACITY@[19] == 858 && L_NUM_CODEWORDS@[19] == 861);
    }
    if version == 21 {
        assert(BYTE_L_MAX_CAPACITY@[20] == 929 && L_NUM_CODEWORDS@[20] == 932);
    }
    if version == 22 {
        assert(BYTE_L_MAX_CAPACITY@[21] == 1003 && L_NUM_CODEWORDS@[21] == 1006);
    }
    if version == 23 {
        assert(BYTE_L_MAX_CAPACITY@[22] == 1091 && L_NUM_CODEWORDS@[22] == 1094);
    }
    if version == 24 {
        assert(BYTE_L_MAX_CAPACITY@[23] == 1171 && L_NUM_CODEWORDS@[23] == 1174);
    }
    if version == 25 {
        assert(BYTE_L_MAX_CAPACITY@[24] == 1273 && L_NUM_CODEWORDS@[24] == 1276);
    }
    if version == 26 {
        assert(BYTE_L_MAX_CAPACITY@[25] == 1367 && L_NUM_CODEWORDS@[25] == 1370);
    }
    if version == 27 {
        assert(BYTE_L_MAX_CAPACITY@[26] == 1465 && L_NUM_CODEWORDS@[26] == 1468);
    }
    if version == 28 {
        assert(BYTE_L_MAX_CAPACITY@[27] == 1528 && L_NUM_CODEWORDS@[27] == 1531);
    }
    if version == 29 {
        assert(BYTE_L_MAX_CAPACITY@[28] == 1628 && L_NUM_CODEWORDS@[28] == 1631);
    }
    if version == 30 {
        assert(BYTE_L_MAX_CAPACITY@[29] == 1732 && L_NUM_CODEWORDS@[29] == 1735);
    }
    if version == 31 {
        assert(BYTE_L_MAX_CAPACITY@[30] == 1840 && L_NUM_CODEWORDS@[30] == 1843);
    }
    if version == 32 {
        assert(BYTE_L_MAX_CAPACITY@[31] == 1952 && L_NUM_CODEWORDS@[31] == 1955);
    }
    if version == 33 {
        assert(BYTE_L_MAX_CAPACITY@[32] == 2068 && L_NUM_CODEWORDS@[32] == 2071);
    }
    if version == 34 {
        assert(BYTE_L_MAX_CAPACITY@[33] == 2188 && L_NUM_CODEWORDS@[33] == 2191);
    }
    if version == 35 {
        assert(BYTE_L_MAX_CAPACITY@[34] == 2303 && L_NUM_CODEWORDS@[34] == 2306);
    }
    if version == 36 {
        assert(BYTE_L_MAX_CAPACITY@[35] == 2431 && L_NUM_CODEWORDS@[35] == 2434);
    }
    if version == 37 {
        assert(BYTE_L_MAX_CAPACITY@[36] == 2563 && L_NUM_CODEWORDS@[36] == 2566);
    }
    if version == 38 {
        assert(BYTE_L_MAX_CAPACITY@[37] == 2699 && L_NUM_CODEWORDS@[37] == 2702);
    }
    if version == 39 {
        assert(BYTE_L_MAX_CAPACITY@[38] == 2809 && L_NUM_CODEWORDS@[38] == 2812);
    }
    if version == 40 {
        assert(BYTE_L_MAX_CAPACITY@[39] == 2953 && L_NUM_CODEWORDS@[39] == 2956);
    }
}

proof fn lemma_byte_capacity_m(version: int)
    requires
        is_version(version),
    ensures
        fits(Mode::Byte, byte_capacity(ErrorCorrectionLevel::M, version), ErrorCorrectionLevel::M, version),
        !fits(
            Mode::Byte,
            byte_capacity(ErrorCorrectionLevel::M, version) + 1,
            ErrorCorrectionLevel::M,
            version,
        ),
{
    if version == 1 {
        assert(BYTE_M_MAX_CAPACITY@[0] == 14 && M_NUM_CODEWORDS@[0] == 16);
    }
    if version == 2 {
        assert(BYTE_M_MAX_CAPACITY@[1] == 26 && M_NUM_CODEWORDS@[1] == 28);
    }
    if version == 3 {
        assert(BYTE_M_MAX_CAPACITY@[2] == 42 && M_NUM_CODEWORDS@[2] == 44);
    }
    if version == 4 {
        assert(BYTE_M_MAX_CAPACITY@[3] == 62 && M_NUM_CODEWORDS@[3] == 64);
    }
    if version == 5 {
        assert(BYTE_M_MAX_CAPACITY@[4] == 84 && M_NUM_CODEWORDS@[4] == 86);
    }
    if version == 6 {
        assert(BYTE_M_MAX_CAPACITY@[5] == 106 && M_NUM_CODEWORDS@[5] == 108);
    }
    if version == 7 {
        assert(BYTE_M_MAX_CAPACITY@[6] == 122 && M_NUM_CODEWORDS@[6] == 124);
    }
    if version == 8 {
        assert(BYTE_M_MAX_CAPACITY@[7] == 152 && M_NUM_CODEWORDS@[7] == 154);
    }
    if version == 9 {
        assert(BYTE_M_MAX_CAPACITY@[8] == 180 && M_NUM_CODEWORDS@[8] == 182);
    }
    if version == 10 {
        assert(BYTE_M_MAX_CAPACITY@[9] == 213 && M_NUM_CODEWORDS@[9] == 216);
    }
    if version == 11 {
        assert(BYTE_M_MAX_CAPACITY@[10] == 251 && M_NUM_CODEWORDS@[10] == 254);
    }
    if version == 12 {
        assert(BYTE_M_MAX_CAPACITY@[11] == 287 && M_NUM_CODEWORDS@[11] == 290);
    }
    if version == 13 {
        assert(BYTE_M_MAX_CAPACITY@[12] == 331 && M_NUM_CODEWORDS@[12] == 334);
    }
    if version == 14 {
        assert(BYTE_M_MAX_CAPACITY@[13] == 362 && M_NUM_CODEWORDS@[13] == 365);
    }
    if version == 15 {
        assert(BYTE_M_MAX_CAPACITY@[14] == 412 && M_NUM_CODEWORDS@[14] == 415);
    }
    if version == 16 {
        assert(BYTE_M_MAX_CAPACITY@[15] == 450 && M_NUM_CODEWORDS@[15] == 453);
    }
    if version == 17 {
        assert(BYTE_M_MAX_CAPACITY@[16] == 504 && M_NUM_CODEWORDS@[16] == 507);
    }
    if version == 18 {
        assert(BYTE_M_MAX_CAPACITY@[17] == 560 && M_NUM_CODEWORDS@[17] == 563);
    }
    if version == 19 {
        assert(BYTE_M_MAX_CAPACITY@[18] == 624 && M_NUM_CODEWORDS@[18] == 627);
    }
    if version == 20 {
        assert(BYTE_M_MAX_CAPACITY@[19] == 666 && M_NUM_CODEWORDS@[19] == 669);
    }
    if version == 21 {
        assert(BYTE_M_MAX_CAPACITY@[20] == 711 && M_NUM_CODEWORDS@[20] == 714);
    }
    if version == 22 {
        assert(BYTE_M_MAX_CAPACITY@[21] == 779 && M_NUM_CODEWORDS@[21] == 782);
    }
    if version == 23 {
        assert(BYTE_M_MAX_CAPACITY@[22] == 857 && M_NUM_CODEWORDS@[22] == 860);
    }
    if version == 24 {
        assert(BYTE_M_MAX_CAPACITY@[23] == 911 && M_NUM_CODEWORDS@[23] == 914);
    }
    if version == 25 {
        assert(BYTE_M_MAX_CAPACITY@[24] == 997 && M_NUM_CODEWORDS@[24] == 1000);
    }
    if version == 26 {
        assert(BYTE_M_MAX_CAPACITY@[25] == 1059 && M_NUM_CODEWORDS@[25] == 1062);
    }
    if version == 27 {
        assert(BYTE_M_MAX_CAPACITY@[26] == 1125 && M_NUM_CODEWORDS@[26] == 1128);
    }
    if version == 28 {
        assert(BYTE_M_MAX_CAPACITY@[27] == 1190 && M_NUM_CODEWORDS@[27] == 1193);
    }
    if version == 29 {
        assert(BYTE_M_MAX_CAPACITY@[28] == 1264 && M_NUM_CODEWORDS@[28] == 1267);
    }
    if version == 30 {
        assert(BYTE_M_MAX_CAPACITY@[29] == 1370 && M_NUM_CODEWORDS@[29] == 1373);
    }
    if version == 31 {
        assert(BYTE_M_MAX_CAPACITY@[30] == 1452 && M_NUM_CODEWORDS@[30] == 1455);
    }
    if version == 32 {
        assert(BYTE_M_MAX_CAPACITY@[31] == 1538 && M_NUM_CODEWORDS@[31] == 1541);
    }
    if version == 33 {
        assert(BYTE_M_MAX_CAPACITY@[32] == 1628 && M_NUM_CODEWORDS@[32] == 1631);
    }
    if version == 34 {
        assert(BYTE_M_MAX_CAPACITY@[33] == 1722 && M_NUM_CODEWORDS@[33] == 1725);
    }
    if version == 35 {
        assert(BYTE_M_MAX_CAPACITY@[34] == 1809 && M_NUM_CODEWORDS@[34] == 1812);
    }
    if version == 36 {
        assert(BYTE_M_MAX_CAPACITY@[35] == 1911 && M_NUM_CODEWORDS@[35] == 1914);
    }
    if version == 37 {
        assert(BYTE_M_MAX_CAPACITY@[36] == 1989 && M_NUM_CODEWORDS@[36] == 1992);
    }
    if version == 38 {
        assert(BYTE_M_MAX_CAPACITY@[37] == 2099 && M_NUM_CODEWORDS@[37] == 2102);
    }
    if version == 39 {
        assert(BYTE_M_MAX_CAPACITY@[38] == 2213 && M_NUM_CODEWORDS@[38] == 2216);
    }
    if version == 40 {
        assert(BYTE_M_MAX_CAPACITY@[39] == 2331 && M_NUM_CODEWORDS@[39] == 2334);
    }
}

proof fn lemma_byte_capacity_q(version: int)
    requires
        is_version(version),
    ensures
        fits(Mode::Byte, byte_capacity(ErrorCorrectionLevel::Q, version), ErrorCorrectionLevel::Q, version),
        !fits(
            Mode::Byte,
            byte_capacity(ErrorCorrectionLevel::Q, version) + 1,
            ErrorCorrectionLevel::Q,
            version,
        ),
{
    if version == 1 {
        assert(BYTE_Q_MAX_CAPACITY@[0] == 11 && Q_NUM_CODEWORDS@[0] == 13);
    }
    if version == 2 {
        assert(BYTE_Q_MAX_CAPACITY@[1] == 20 && Q_NUM_CODEWORDS@[1] == 22);
    }
    if version == 3 {
        assert(BYTE_Q_MAX_CAPACITY@[2] == 32 && Q_NUM_CODEWORDS@[2] == 34);
    }
    if version == 4 {
        assert(BYTE_Q_MAX_CAPACITY@[3] == 46 && Q_NUM_CODEWORDS@[3] == 48);
    }
    if version == 5 {
        assert(BYTE_Q_MAX_CAPACITY@[4] == 60 && Q_NUM_CODEWORDS@[4] == 62);
    }
    if version == 6 {
        assert(BYTE_Q_MAX_CAPACITY@[5] == 74 && Q_NUM_CODEWORDS@[5] == 76);
    }
    if version == 7 {
        assert(BYTE_Q_MAX_CAPACITY@[6] == 86 && Q_NUM_CODEWORDS@[6] == 88);
    }
    if version == 8 {
        assert(BYTE_Q_MAX_CAPACITY@[7] == 108 && Q_NUM_CODEWORDS@[7] == 110);
    }
    if version == 9 {
        assert(BYTE_Q_MAX_CAPACITY@[8] == 130 && Q_NUM_CODEWORDS@[8] == 132);
    }
    if version == 10 {
        assert(BYTE_Q_MAX_CAPACITY@[9] == 151 && Q_NUM_CODEWORDS@[9] == 154);
    }
    if version == 11 {
        assert(BYTE_Q_MAX_CAPACITY@[10] == 177 && Q_NUM_CODEWORDS@[10] == 180);
    }
    if version == 12 {
        assert(BYTE_Q_MAX_CAPACITY@[11] == 203 && Q_NUM_CODEWORDS@[11] == 206);
    }
    if version == 13 {
        assert(BYTE_Q_MAX_CAPACITY@[12] == 241 && Q_NUM_CODEWORDS@[12] == 244);
    }
    if version == 14 {
        assert(BYTE_Q_MAX_CAPACITY@[13] == 258 && Q_NUM_CODEWORDS@[13] == 261);
    }
    if version == 15 {
        assert(BYTE_Q_MAX_CAPACITY@[14] == 292 && Q_NUM_CODEWORDS@[14] == 295);
    }
    if version == 16 {
        assert(BYTE_Q_MAX_CAPACITY@[15] == 322 && Q_NUM_CODEWORDS@[15] == 325);
    }
    if version == 17 {
        assert(BYTE_Q_MAX_CAPACITY@[16] == 364 && Q_NUM_CODEWORDS@[16] == 367);
    }
    if version == 18 {
        assert(BYTE_Q_MAX_CAPACITY@[17] == 394 && Q_NUM_CODEWORDS@[17] == 397);
    }
    if version == 19 {
        assert(BYTE_Q_MAX_CAPACITY@[18] == 442 && Q_NUM_CODEWORDS@[18] == 445);
    }
    if version == 20 {
        assert(BYTE_Q_MAX_CAPACITY@[19] == 482 && Q_NUM_CODEWORDS@[19] == 485);
    }
    if version == 21 {
        assert(BYTE_Q_MAX_CAPACITY@[20] == 509 && Q_NUM_CODEWORDS@[20] == 512);
    }
    if version == 22 {
        assert(BYTE_Q_MAX_CAPACITY@[21] == 565 && Q_NUM_CODEWORDS@[21] == 568);
    }
    if version == 23 {
        assert(BYTE_Q_MAX_CAPACITY@[22] == 611 && Q_NUM_CODEWORDS@[22] == 614);
    }
    if version == 24 {
        assert(BYTE_Q_MAX_CAPACITY@[23] == 661 && Q_NUM_CODEWORDS@[23] == 664);
    }
    if version == 25 {
        assert(BYTE_Q_MAX_CAPACITY@[24] == 715 && Q_NUM_CODEWORDS@[24] == 718);
    }
    if version == 26 {
        assert(BYTE_Q_MAX_CAPACITY@[25] == 751 && Q_NUM_CODEWORDS@[25] == 754);
    }
    if version == 27 {
        assert(BYTE_Q_MAX_CAPACITY@[26] == 805 && Q_NUM_CODEWORDS@[26] == 808);
    }
    if version == 28 {
        assert(BYTE_Q_MAX_CAPACITY@[27] == 868 && Q_NUM_CODEWORDS@[27] == 871);
    }
    if version == 29 {
        assert(BYTE_Q_MAX_CAPACITY@[28] == 908 && Q_NUM_CODEWORDS@[28] == 911);
    }
    if version == 30 {
        assert(BYTE_Q_MAX_CAPACITY@[29] == 982 && Q_NUM_CODEWORDS@[29] == 985);
    }
    if version == 31 {
        assert(BYTE_Q_MAX_CAPACITY@[30] == 1030 && Q_NUM_CODEWORDS@[30] == 1033);
    }
    if version == 32 {
        assert(BYTE_Q_MAX_CAPACITY@[31] == 1112 && Q_NUM_CODEWORDS@[31] == 1115);
    }
    if version == 33 {
        assert(BYTE_Q_MAX_CAPACITY@[32] == 1168 && Q_NUM_CODEWORDS@[32] == 1171);
    }
    if version == 34 {
        assert(BYTE_Q_MAX_CAPACITY@[33] == 1228 && Q_NUM_CODEWORDS@[33] == 1231);
    }
    if version == 35 {
        assert(BYTE_Q_MAX_CAPACITY@[34] == 1283 && Q_NUM_CODEWORDS@[34] == 1286);
    }
    if version == 36 {
        assert(BYTE_Q_MAX_CAPACITY@[35] == 1351 && Q_NUM_CODEWORDS@[35] == 1354);
    }
    if version == 37 {
        assert(BYTE_Q_MAX_CAPACITY@[36] == 1423 && Q_NUM_CODEWORDS@[36] == 1426);
    }
    if version == 38 {
        assert(BYTE_Q_MAX_CAPACITY@[37] == 1499 && Q_NUM_CODEWORDS@[37] == 1502);
    }
    if version == 39 {
        assert(BYTE_Q_MAX_CAPACITY@[38] == 1579 && Q_NUM_CODEWORDS@[38] == 1582);
    }
    if version == 40 {
        assert(BYTE_Q_MAX_CAPACITY@[39] == 1663 && Q_NUM_CODEWORDS@[39] == 1666);
    }
}

proof fn lemma_byte_capacity_h(version: int)
    requires
        is_version(version),
    ensures
        fits(Mode::Byte, byte_capacity(ErrorCorrectionLevel::H, version), ErrorCorrectionLevel::H, version),
        !fits(
            Mode::Byte,
            byte_capacity(ErrorCorrectionLevel::H, version) + 1,
            ErrorCorrectionLevel::H,
            version,
        ),
{
    if version == 1 {
        assert(BYTE_H_MAX_CAPACITY@[0] == 7 && H_NUM_CODEWORDS@[0] == 9);
    }
    if version == 2 {
        assert(BYTE_H_MAX_CAPACITY@[1] == 14 && H_NUM_CODEWORDS@[1] == 16);
    }
    if version == 3 {
        assert(BYTE_H_MAX_CAPACITY@[2] == 24 && H_NUM_CODEWORDS@[2] == 26);
    }
    if version == 4 {
        assert(BYTE_H_MAX_CAPACITY@[3] == 34 && H_NUM_CODEWORDS@[3] == 36);
    }
    if version == 5 {
        assert(BYTE_H_MAX_CAPACITY@[4] == 44 && H_NUM_CODEWORDS@[4] == 46);
    }
    if version == 6 {
        assert(BYTE_H_MAX_CAPACITY@[5] == 58 && H_NUM_CODEWORDS@[5] == 60);
    }
    if version == 7 {
        assert(BYTE_H_MAX_CAPACITY@[6] == 64 && H_NUM_CODEWORDS@[6] == 66);
    }
    if version == 8 {
        assert(BYTE_H_MAX_CAPACITY@[7] == 84 && H_NUM_CODEWORDS@[7] == 86);
    }
    if version == 9 {
        assert(BYTE_H_MAX_CAPACITY@[8] == 98 && H_NUM_CODEWORDS@[8] == 100);
    }
    if version == 10 {
        assert(BYTE_H_MAX_CAPACITY@[9] == 119 && H_NUM_CODEWORDS@[9] == 122);
    }
    if version == 11 {
        assert(BYTE_H_MAX_CAPACITY@[10] == 137 && H_NUM_CODEWORDS@[10] == 140);
    }
    if version == 12 {
        assert(BYTE_H_MAX_CAPACITY@[11] == 155 && H_NUM_CODEWORDS@[11] == 158);
    }
    if version == 13 {
        assert(BYTE_H_MAX_CAPACITY@[12] == 177 && H_NUM_CODEWORDS@[12] == 180);
    }
    if version == 14 {
        assert(BYTE_H_MAX_CAPACITY@[13] == 194 && H_NUM_CODEWORDS@[13] == 197);
    }
    if version == 15 {
        assert(BYTE_H_MAX_CAPACITY@[14] == 220 && H_NUM_CODEWORDS@[14] == 223);
    }
    if version == 16 {
        assert(BYTE_H_MAX_CAPACITY@[15] == 250 && H_NUM_CODEWORDS@[15] == 253);
    }
    if version == 17 {
        assert(BYTE_H_MAX_CAPACITY@[16] == 280 && H_NUM_CODEWORDS@[16] == 283);
    }
    if version == 18 {
        assert(BYTE_H_MAX_CAPACITY@[17] == 310 && H_NUM_CODEWORDS@[17] == 313);
    }
    if version == 19 {
        assert(BYTE_H_MAX_CAPACITY@[18] == 338 && H_NUM_CODEWORDS@[18] == 341);
    }
    if version == 20 {
        assert(BYTE_H_MAX_CAPACITY@[19] == 382 && H_NUM_CODEWORDS@[19] == 385);
    }
    if version == 21 {
        assert(BYTE_H_MAX_CAPACITY@[20] == 403 && H_NUM_CODEWORDS@[20] == 406);
    }
    if version == 22 {
        assert(BYTE_H_MAX_CAPACITY@[21] == 439 && H_NUM_CODEWORDS@[21] == 442);
    }
    if version == 23 {
        assert(BYTE_H_MAX_CAPACITY@[22] == 461 && H_NUM_CODEWORDS@[22] == 464);
    }
    if version == 24 {
        assert(BYTE_H_MAX_CAPACITY@[23] == 511 && H_NUM_CODEWORDS@[23] == 514);
    }
    if version == 25 {
        assert(BYTE_H_MAX_CAPACITY@[24] == 535 && H_NUM_CODEWORDS@[24] == 538);
    }
    if version == 26 {
        assert(BYTE_H_MAX_CAPACITY@[25] == 593 && H_NUM_CODEWORDS@[25] == 596);
    }
    if version == 27 {
        assert(BYTE_H_MAX_CAPACITY@[26] == 625 && H_NUM_CODEWORDS@[26] == 628);
    }
    if version == 28 {
        assert(BYTE_H_MAX_CAPACITY@[27] == 658 && H_NUM_CODEWORDS@[27] == 661);
    }
    if version == 29 {
        assert(BYTE_H_MAX_CAPACITY@[28] == 698 && H_NUM_CODEWORDS@[28] == 701);
    }
    if version == 30 {
        assert(BYTE_H_MAX_CAPACITY@[29] == 742 && H_NUM_CODEWORDS@[29] == 745);
    }
    if version == 31 {
        assert(BYTE_H_MAX_CAPACITY@[30] == 790 && H_NUM_CODEWORDS@[30] == 793);
    }
    if version == 32 {
        assert(BYTE_H_MAX_CAPACITY@[31] == 842 && H_NUM_CODEWORDS@[31] == 845);
    }
    if version == 33 {
        assert(BYTE_H_MAX_CAPACITY@[32] == 898 && H_NUM_CODEWORDS@[32] == 901);
    }
    if version == 34 {
        assert(BYTE_H_MAX_CAPACITY@[33] == 958 && H_NUM_CODEWORDS@[33] == 961);
    }
    if version == 35 {
        assert(BYTE_H_MAX_CAPACITY@[34] == 983 && H_NUM_CODEWORDS@[34] == 986);
    }
    if version == 36 {
        assert(BYTE_H_MAX_CAPACITY@[35] == 1051 && H_NUM_CODEWORDS@[35] == 1054);
    }
    if version == 37 {
        assert(BYTE_H_MAX_CAPACITY@[36] == 1093 && H_NUM_CODEWORDS@[36] == 1096);
    }
    if version == 38 {
        assert(BYTE_H_MAX_CAPACITY@[37] == 1139 && H_NUM_CODEWORDS@[37] == 1142);
    }
    if version == 39 {
        assert(BYTE_H_MAX_CAPACITY@[38] == 1219 && H_NUM_CODEWORDS@[38] == 1222);
    }
    if version == 40 {
        assert(BYTE_H_MAX_CAPACITY@[39] == 1273 && H_NUM_CODEWORDS@[39] == 1276);
    }
}

} // verus!
