//! The elements of GF(256) modulo x^8 + x^4 + x^3 + x^2 + 1: the powers of
//! `alpha` and their logarithms, by table.

use vstd::prelude::*;

verus! {

/// The powers of the generator: entry `e` is the field element `alpha^e`.
/// Entry 255 wraps around to `alpha^0`.
pub const LOG_TABLE: [u8; 256] = [
    1, 2, 4, 8, 16, 32, 64, 128, 29, 58, 116, 232, 205, 135, 19, 38,
    76, 152, 45, 90, 180, 117, 234, 201, 143, 3, 6, 12, 24, 48, 96, 192,
    157, 39, 78, 156, 37, 74, 148, 53, 106, 212, 181, 119, 238, 193, 159, 35,
    70, 140, 5, 10, 20, 40, 80, 160, 93, 186, 105, 210, 185, 111, 222, 161,
    95, 190, 97, 194, 153, 47, 94, 188, 101, 202, 137, 15, 30, 60, 120, 240,
    253, 231, 211, 187, 107, 214, 177, 127, 254, 225, 223, 163, 91, 182, 113, 226,
    217, 175, 67, 134, 17, 34, 68, 136, 13, 26, 52, 104, 208, 189, 103, 206,
    129, 31, 62, 124, 248, 237, 199, 147, 59, 118, 236, 197, 151, 51, 102, 204,
    133, 23, 46, 92, 184, 109, 218, 169, 79, 158, 33, 66, 132, 21, 42, 84,
    168, 77, 154, 41, 82, 164, 85, 170, 73, 146, 57, 114, 228, 213, 183, 115,
    230, 209, 191, 99, 198, 145, 63, 126, 252, 229, 215, 179, 123, 246, 241, 255,
    227, 219, 171, 75, 150, 49, 98, 196, 149, 55, 110, 220, 165, 87, 174, 65,
    130, 25, 50, 100, 200, 141, 7, 14, 28, 56, 112, 224, 221, 167, 83, 166,
    81, 162, 89, 178, 121, 242, 249, 239, 195, 155, 43, 86, 172, 69, 138, 9,
    18, 36, 72, 144, 61, 122, 244, 245, 247, 243, 251, 235, 203, 139, 11, 22,
    44, 88, 176, 125, 250, 233, 207, 131, 27, 54, 108, 216, 173, 71, 142, 1,
];

/// The discrete logarithms: entry `v` is the exponent `e` below 255 with
/// `alpha^e == v`. Zero has no logarithm; its entry holds the sentinel 255.
pub const ANTI_LOG_TABLE: [u8; 256] = [
    255, 0, 1, 25, 2, 50, 26, 198, 3, 223, 51, 238, 27, 104, 199, 75,
    4, 100, 224, 14, 52, 141, 239, 129, 28, 193, 105, 248, 200, 8, 76, 113,
    5, 138, 101, 47, 225, 36, 15, 33, 53, 147, 142, 218, 240, 18, 130, 69,
    29, 181, 194, 125, 106, 39, 249, 185, 201, 154, 9, 120, 77, 228, 114, 166,
    6, 191, 139, 98, 102, 221, 48, 253, 226, 152, 37, 179, 16, 145, 34, 136,
    54, 208, 148, 206, 143, 150, 219, 189, 241, 210, 19, 92, 131, 56, 70, 64,
    30, 66, 182, 163, 195, 72, 126, 110, 107, 58, 40, 84, 250, 133, 186, 61,
    202, 94, 155, 159, 10, 21, 121, 43, 78, 212, 229, 172, 115, 243, 167, 87,
    7, 112, 192, 247, 140, 128, 99, 13, 103, 74, 222, 237, 49, 197, 254, 24,
    227, 165, 153, 119, 38, 184, 180, 124, 17, 68, 146, 217, 35, 32, 137, 46,
    55, 63, 209, 91, 149, 188, 207, 205, 144, 135, 151, 178, 220, 252, 190, 97,
    242, 86, 211, 171, 20, 42, 93, 158, 132, 60, 57, 83, 71, 109, 65, 162,
    31, 45, 67, 216, 183, 123, 164, 118, 196, 23, 73, 236, 127, 12, 111, 246,
    108, 161, 59, 82, 41, 157, 85, 170, 251, 96, 134, 177, 187, 204, 62, 90,
    203, 89, 95, 176, 156, 169, 160, 81, 11, 245, 22, 235, 122, 117, 44, 215,
    79, 174, 213, 233, 230, 231, 173, 232, 116, 214, 244, 234, 168, 80, 88, 175,
];

/// The exponent that stands for the field's zero, which has no logarithm.
pub const ZERO_EXPONENT: i32 = 255;

/// Multiplication by `alpha` in GF(256): a doubling, reduced by the
/// primitive polynomial 0x11D where it leaves the byte range.
pub open spec fn times_alpha(v: u32) -> u32 {
    if 2 * v > 255 {
        ((2 * v) as u32) ^ 285u32
    } else {
        (2 * v) as u32
    }
}

/// The field element `alpha^e`.
pub open spec fn alpha_pow(e: nat) -> u32
    decreases e,
{
    if e == 0 {
        1
    } else {
        times_alpha(alpha_pow((e - 1) as nat))
    }
}

/// The discrete logarithm of a field element, 255 for zero.
pub closed spec fn field_log(v: int) -> int {
    ANTI_LOG_TABLE@[v] as int
}

/// The field element that an exponent stands for: `alpha^e`, and zero for
/// the sentinel 255.
pub open spec fn exponent_value(e: int) -> int {
    if e == 255 {
        0
    } else {
        alpha_pow(e as nat) as int
    }
}

/// The product of two field elements.
pub open spec fn field_mul(a: int, b: int) -> int {
    if a == 0 || b == 0 {
        0
    } else {
        alpha_pow(((field_log(a) + field_log(b)) % 255) as nat) as int
    }
}

proof fn lemma_reductions()
    by (bit_vector)
    ensures
        ((2u32 * 128u32) as u32) ^ 285u32 == 29u32,
        ((2u32 * 129u32) as u32) ^ 285u32 == 31u32,
        ((2u32 * 130u32) as u32) ^ 285u32 == 25u32,
        ((2u32 * 131u32) as u32) ^ 285u32 == 27u32,
        ((2u32 * 132u32) as u32) ^ 285u32 == 21u32,
        ((2u32 * 133u32) as u32) ^ 285u32 == 23u32,
        ((2u32 * 134u32) as u32) ^ 285u32 == 17u32,
        ((2u32 * 135u32) as u32) ^ 285u32 == 19u32,
        ((2u32 * 136u32) as u32) ^ 285u32 == 13u32,
        ((2u32 * 137u32) as u32) ^ 285u32 == 15u32,
        ((2u32 * 138u32) as u32) ^ 285u32 == 9u32,
        ((2u32 * 139u32) as u32) ^ 285u32 == 11u32,
        ((2u32 * 140u32) as u32) ^ 285u32 == 5u32,
        ((2u32 * 141u32) as u32) ^ 285u32 == 7u32,
        ((2u32 * 142u32) as u32) ^ 285u32 == 1u32,
        ((2u32 * 143u32) as u32) ^ 285u32 == 3u32,
        ((2u32 * 144u32) as u32) ^ 285u32 == 61u32,
        ((2u32 * 145u32) as u32) ^ 285u32 == 63u32,
        ((2u32 * 146u32) as u32) ^ 285u32 == 57u32,
        ((2u32 * 147u32) as u32) ^ 285u32 == 59u32,
        ((2u32 * 148u32) as u32) ^ 285u32 == 53u32,
        ((2u32 * 149u32) as u32) ^ 285u32 == 55u32,
        ((2u32 * 150u32) as u32) ^ 285u32 == 49u32,
        ((2u32 * 151u32) as u32) ^ 285u32 == 51u32,
        ((2u32 * 152u32) as u32) ^ 285u32 == 45u32,
        ((2u32 * 153u32) as u32) ^ 285u32 == 47u32,
        ((2u32 * 154u32) as u32) ^ 285u32 == 41u32,
        ((2u32 * 155u32) as u32) ^ 285u32 == 43u32,
        ((2u32 * 156u32) as u32) ^ 285u32 == 37u32,
        ((2u32 * 157u32) as u32) ^ 285u32 == 39u32,
        ((2u32 * 158u32) as u32) ^ 285u32 == 33u32,
        ((2u32 * 159u32) as u32) ^ 285u32 == 35u32,
        ((2u32 * 160u32) as u32) ^ 285u32 == 93u32,
        ((2u32 * 161u32) as u32) ^ 285u32 == 95u32,
        ((2u32 * 162u32) as u32) ^ 285u32 == 89u32,
        ((2u32 * 163u32) as u32) ^ 285u32 == 91u32,
        ((2u32 * 164u32) as u32) ^ 285u32 == 85u32,
        ((2u32 * 165u32) as u32) ^ 285u32 == 87u32,
        ((2u32 * 166u32) as u32) ^ 285u32 == 81u32,
        ((2u32 * 167u32) as u32) ^ 285u32 == 83u32,
        ((2u32 * 168u32) as u32) ^ 285u32 == 77u32,
        ((2u32 * 169u32) as u32) ^ 285u32 == 79u32,
        ((2u32 * 170u32) as u32) ^ 285u32 == 73u32,
        ((2u32 * 171u32) as u32) ^ 285u32 == 75u32,
        ((2u32 * 172u32) as u32) ^ 285u32 == 69u32,
        ((2u32 * 173u32) as u32) ^ 285u32 == 71u32,
        ((2u32 * 174u32) as u32) ^ 285u32 == 65u32,
        ((2u32 * 175u32) as u32) ^ 285u32 == 67u32,
        ((2u32 * 176u32) as u32) ^ 285u32 == 125u32,
        ((2u32 * 177u32) as u32) ^ 285u32 == 127u32,
        ((2u32 * 178u32) as u32) ^ 285u32 == 121u32,
        ((2u32 * 179u32) as u32) ^ 285u32 == 123u32,
        ((2u32 * 180u32) as u32) ^ 285u32 == 117u32,
        ((2u32 * 181u32) as u32) ^ 285u32 == 119u32,
        ((2u32 * 182u32) as u32) ^ 285u32 == 113u32,
        ((2u32 * 183u32) as u32) ^ 285u32 == 115u32,
        ((2u32 * 184u32) as u32) ^ 285u32 == 109u32,
        ((2u32 * 185u32) as u32) ^ 285u32 == 111u32,
        ((2u32 * 186u32) as u32) ^ 285u32 == 105u32,
        ((2u32 * 187u32) as u32) ^ 285u32 == 107u32,
        ((2u32 * 188u32) as u32) ^ 285u32 == 101u32,
        ((2u32 * 189u32) as u32) ^ 285u32 == 103u32,
        ((2u32 * 190u32) as u32) ^ 285u32 == 97u32,
        ((2u32 * 191u32) as u32) ^ 285u32 == 99u32,
        ((2u32 * 192u32) as u32) ^ 285u32 == 157u32,
        ((2u32 * 193u32) as u32) ^ 285u32 == 159u32,
        ((2u32 * 194u32) as u32) ^ 285u32 == 153u32,
        ((2u32 * 195u32) as u32) ^ 285u32 == 155u32,
        ((2u32 * 196u32) as u32) ^ 285u32 == 149u32,
        ((2u32 * 197u32) as u32) ^ 285u32 == 151u32,
        ((2u32 * 198u32) as u32) ^ 285u32 == 145u32,
        ((2u32 * 199u32) as u32) ^ 285u32 == 147u32,
        ((2u32 * 200u32) as u32) ^ 285u32 == 141u32,
        ((2u32 * 201u32) as u32) ^ 285u32 == 143u32,
        ((2u32 * 202u32) as u32) ^ 285u32 == 137u32,
        ((2u32 * 203u32) as u32) ^ 285u32 == 139u32,
        ((2u32 * 204u32) as u32) ^ 285u32 == 133u32,
        ((2u32 * 205u32) as u32) ^ 285u32 == 135u32,
        ((2u32 * 206u32) as u32) ^ 285u32 == 129u32,
        ((2u32 * 207u32) as u32) ^ 285u32 == 131u32,
        ((2u32 * 208u32) as u32) ^ 285u32 == 189u32,
        ((2u32 * 209u32) as u32) ^ 285u32 == 191u32,
        ((2u32 * 210u32) as u32) ^ 285u32 == 185u32,
        ((2u32 * 211u32) as u32) ^ 285u32 == 187u32,
        ((2u32 * 212u32) as u32) ^ 285u32 == 181u32,
        ((2u32 * 213u32) as u32) ^ 285u32 == 183u32,
        ((2u32 * 214u32) as u32) ^ 285u32 == 177u32,
        ((2u32 * 215u32) as u32) ^ 285u32 == 179u32,
        ((2u32 * 216u32) as u32) ^ 285u32 == 173u32,
        ((2u32 * 217u32) as u32) ^ 285u32 == 175u32,
        ((2u32 * 218u32) as u32) ^ 285u32 == 169u32,
        ((2u32 * 219u32) as u32) ^ 285u32 == 171u32,
        ((2u32 * 220u32) as u32) ^ 285u32 == 165u32,
        ((2u32 * 221u32) as u32) ^ 285u32 == 167u32,
        ((2u32 * 222u32) as u32) ^ 285u32 == 161u32,
        ((2u32 * 223u32) as u32) ^ 285u32 == 163u32,
        ((2u32 * 224u32) as u32) ^ 285u32 == 221u32,
        ((2u32 * 225u32) as u32) ^ 285u32 == 223u32,
        ((2u32 * 226u32) as u32) ^ 285u32 == 217u32,
        ((2u32 * 227u32) as u32) ^ 285u32 == 219u32,
        ((2u32 * 228u32) as u32) ^ 285u32 == 213u32,
        ((2u32 * 229u32) as u32) ^ 285u32 == 215u32,
        ((2u32 * 230u32) as u32) ^ 285u32 == 209u32,
        ((2u32 * 231u32) as u32) ^ 285u32 == 211u32,
        ((2u32 * 232u32) as u32) ^ 285u32 == 205u32,
        ((2u32 * 233u32) as u32) ^ 285u32 == 207u32,
        ((2u32 * 234u32) as u32) ^ 285u32 == 201u32,
        ((2u32 * 235u32) as u32) ^ 285u32 == 203u32,
        ((2u32 * 236u32) as u32) ^ 285u32 == 197u32,
        ((2u32 * 237u32) as u32) ^ 285u32 == 199u32,
        ((2u32 * 238u32) as u32) ^ 285u32 == 193u32,
        ((2u32 * 239u32) as u32) ^ 285u32 == 195u32,
        ((2u32 * 240u32) as u32) ^ 285u32 == 253u32,
        ((2u32 * 241u32) as u32) ^ 285u32 == 255u32,
        ((2u32 * 242u32) as u32) ^ 285u32 == 249u32,
        ((2u32 * 243u32) as u32) ^ 285u32 == 251u32,
        ((2u32 * 244u32) as u32) ^ 285u32 == 245u32,
        ((2u32 * 245u32) as u32) ^ 285u32 == 247u32,
        ((2u32 * 246u32) as u32) ^ 285u32 == 241u32,
        ((2u32 * 247u32) as u32) ^ 285u32 == 243u32,
        ((2u32 * 248u32) as u32) ^ 285u32 == 237u32,
        ((2u32 * 249u32) as u32) ^ 285u32 == 239u32,
        ((2u32 * 250u32) as u32) ^ 285u32 == 233u32,
        ((2u32 * 251u32) as u32) ^ 285u32 == 235u32,
        ((2u32 * 252u32) as u32) ^ 285u32 == 229u32,
        ((2u32 * 253u32) as u32) ^ 285u32 == 231u32,
        ((2u32 * 254u32) as u32) ^ 285u32 == 225u32,
        ((2u32 * 255u32) as u32) ^ 285u32 == 227u32,
{
}

/// Each entry of the power table is `alpha` times the entry before it.
proof fn lemma_table_steps()
    ensures
        LOG_TABLE@[0] == 1,
        forall|i: int| 0 <= i < 255 ==> #[trigger] LOG_TABLE@[i + 1] as u32 == times_alpha(LOG_TABLE@[i] as u32),
{
    lemma_reductions();
}

/// The power table holds the powers of `alpha`.
pub proof fn lemma_log_table(e: nat)
    requires
        e <= 255,
    ensures
        LOG_TABLE@[e as int] as u32 == alpha_pow(e),
        0 < alpha_pow(e) <= 255,
    decreases e,
{
    lemma_table_steps();
    if e > 0 {
        lemma_log_table((e - 1) as nat);
        assert(LOG_TABLE@[(e - 1) + 1] as u32 == times_alpha(LOG_TABLE@[e - 1] as u32));
    }
}

/// The sum of two field elements: their bitwise exclusive or.
pub open spec fn field_add(a: int, b: int) -> int {
    ((a as u8) ^ (b as u8)) as int
}

/// The entries of the logarithm table index the power table back to
/// themselves, and the other way round.
proof fn lemma_tables_inverse()
    ensures
        forall|v: int| 1 <= v <= 255 ==> #[trigger] LOG_TABLE@[ANTI_LOG_TABLE@[v] as int] == v,
        forall|v: int| 1 <= v <= 255 ==> #[trigger] ANTI_LOG_TABLE@[v] < 255,
        forall|e: int| 0 <= e < 255 ==> #[trigger] ANTI_LOG_TABLE@[LOG_TABLE@[e] as int] == e,
        forall|e: int| 0 <= e <= 255 ==> #[trigger] LOG_TABLE@[e] > 0,
        ANTI_LOG_TABLE@[0] == 255,
{
}

/// The first 256 powers of `alpha` are nonzero field elements, and the
/// 255th is one again.
pub proof fn lemma_alpha_pow_range(e: nat)
    requires
        e <= 255,
    ensures
        1 <= alpha_pow(e) <= 255,
        alpha_pow(255) == 1,
        alpha_pow(0) == 1,
{
    lemma_log_table(e);
    lemma_log_table(255);
}

/// Raising `alpha` to the logarithm of a nonzero field element gives the
/// element back.
pub proof fn lemma_power_of_log(v: int)
    requires
        1 <= v <= 255,
    ensures
        0 <= field_log(v) < 255,
        alpha_pow(field_log(v) as nat) == v,
        exponent_value(field_log(v)) == v,
{
    lemma_tables_inverse();
    assert(LOG_TABLE@[ANTI_LOG_TABLE@[v] as int] == v);
    lemma_log_table(field_log(v) as nat);
}

/// The logarithm of a power of `alpha` below the 255th is its exponent.
pub proof fn lemma_log_of_power(e: int)
    requires
        0 <= e < 255,
    ensures
        1 <= alpha_pow(e as nat) <= 255,
        field_log(alpha_pow(e as nat) as int) == e,
{
    lemma_tables_inverse();
    lemma_log_table(e as nat);
    assert(ANTI_LOG_TABLE@[LOG_TABLE@[e] as int] == e);
}

/// Zero has the sentinel for its logarithm, and the sentinel stands for zero.
pub proof fn lemma_zero_sentinel()
    ensures
        field_log(0) == 255,
        exponent_value(255) == 0,
        forall|v: int| 0 <= v <= 255 ==> 0 <= #[trigger] field_log(v) <= 255,
        forall|e: int| 0 <= e <= 255 ==> 0 <= #[trigger] exponent_value(e) <= 255,
        forall|v: int| 0 <= v <= 255 ==> #[trigger] exponent_value(field_log(v)) == v,
        forall|e: int| 0 <= e <= 255 ==> #[trigger] field_log(exponent_value(e)) == e,
{
    lemma_tables_inverse();
    assert forall|e: int| 0 <= e <= 255 implies 0 <= #[trigger] exponent_value(e) <= 255 by {
        lemma_log_table(e as nat);
    }
    assert forall|v: int| 0 <= v <= 255 implies #[trigger] exponent_value(field_log(v)) == v by {
        if v != 0 {
            lemma_power_of_log(v);
        }
    }
    assert forall|e: int| 0 <= e <= 255 implies #[trigger] field_log(exponent_value(e)) == e by {
        if e != 255 {
            lemma_log_of_power(e);
        }
    }
}

/// The sum and the product of two field elements are field elements.
pub proof fn lemma_field_closed(a: int, b: int)
    requires
        0 <= a <= 255,
        0 <= b <= 255,
    ensures
        0 <= field_add(a, b) <= 255,
        0 <= field_mul(a, b) <= 255,
{
    if a != 0 && b != 0 {
        lemma_log_table(((field_log(a) + field_log(b)) % 255) as nat);
    }
}

/// The power `alpha^exponent`, read from the power table.
pub fn get_log(exponent: i32) -> (value: i32)
    requires
        0 <= exponent <= 255,
    ensures
        value == alpha_pow(exponent as nat),
        1 <= value <= 255,
{
    proof {
        lemma_log_table(exponent as nat);
    }
    LOG_TABLE[exponent as usize] as i32
}

/// The discrete logarithm of `value`, read from the logarithm table; 255 for
/// zero.
pub fn get_antilog(value: i32) -> (exponent: i32)
    requires
        0 <= value <= 255,
    ensures
        exponent == field_log(value as int),
        0 <= exponent <= 255,
{
    ANTI_LOG_TABLE[value as usize] as i32
}

/// The field element that an exponent stands for, zero for the sentinel.
pub fn exponent_to_value(exponent: i32) -> (value: i32)
    requires
        0 <= exponent <= 255,
    ensures
        value == exponent_value(exponent as int),
        0 <= value <= 255,
{
    if exponent == ZERO_EXPONENT {
        0
    } else {
        get_log(exponent)
    }
}

/// The low byte of `number` plus what lies above it, cut to a byte.
pub fn galios_256(number: u32) -> (folded: u8)
    ensures
        folded == (number % 256 + number / 256) % 256,
{
    let sum: u32 = (number % 256) + (number / 256);
    (sum % 256) as u8
}

/// The power `alpha^exponent`, computed by repeated doubling and reduction
/// by the primitive polynomial.
pub fn galios_reduction(exponent: u32) -> (value: u8)
    ensures
        value == alpha_pow(exponent as nat),
{
    let mut value: u32 = 1;
    let mut done: u32 = 0;
    while done < exponent
        invariant
            done <= exponent,
            value == alpha_pow(done as nat),
            1 <= value <= 255,
        decreases exponent - done,
    {
        let ghost before = value;
        value = value * 2;
        if value > 255 {
            proof {
                lemma_reduce_in_range(value);
            }
            value = value ^ 285;
        }
        done += 1;
        assert(value == times_alpha(before));
    }
    value as u8
}

proof fn lemma_reduce_in_range(doubled: u32)
    by (bit_vector)
    requires
        256 <= doubled <= 510,
        doubled % 2 == 0,
    ensures
        1 <= doubled ^ 285u32 <= 255,
{
}

} // verus!
