//! The laws of addition and multiplication in GF(256).

use super::field::alpha_pow;
use super::field::field_add;
use super::field::field_log;
use super::field::field_mul;
use super::field::lemma_log_of_power;
use super::field::lemma_alpha_pow_range;
use super::field::lemma_power_of_log;
use super::field::times_alpha;
use vstd::prelude::*;

verus! {

/// Whether a number is an element of the field.
pub open spec fn is_element(a: int) -> bool {
    0 <= a <= 255
}

/// A field element multiplied by `alpha` `k` times over.
pub open spec fn times_alpha_power(a: u32, k: nat) -> u32
    decreases k,
{
    if k == 0 {
        a
    } else {
        times_alpha(times_alpha_power(a, (k - 1) as nat))
    }
}

proof fn lemma_times_alpha_linear(a: u32, b: u32)
    by (bit_vector)
    requires
        a < 256,
        b < 256,
    ensures
        (a ^ b) < 256,
        times_alpha(a) < 256,
        times_alpha(a ^ b) == times_alpha(a) ^ times_alpha(b),
        times_alpha(0) == 0,
{
}

proof fn lemma_xor_laws(a: u8, b: u8, c: u8)
    by (bit_vector)
    ensures
        a ^ b == b ^ a,
        (a ^ b) ^ c == a ^ (b ^ c),
        a ^ a == 0,
        a ^ 0 == a,
        0 ^ a == a,
{
}

proof fn lemma_xor_widths(a: u8, b: u8)
    by (bit_vector)
    ensures
        ((a as u32) ^ (b as u32)) == (a ^ b) as u32,
{
}

/// The sum in the field is commutative and associative, zero is its
/// neutral element, and every element is its own inverse.
pub proof fn lemma_add_laws(a: int, b: int, c: int)
    requires
        is_element(a),
        is_element(b),
        is_element(c),
    ensures
        is_element(field_add(a, b)),
        field_add(a, b) == field_add(b, a),
        field_add(field_add(a, b), c) == field_add(a, field_add(b, c)),
        field_add(a, a) == 0,
        field_add(a, 0) == a,
        field_add(0, a) == a,
{
    lemma_xor_laws(a as u8, b as u8, c as u8);
}

/// The powers of `alpha` repeat after 255 steps.
pub proof fn lemma_alpha_pow_period(e: nat)
    ensures
        alpha_pow(e + 255) == alpha_pow(e),
        1 <= alpha_pow(e) <= 255,
    decreases e,
{
    lemma_alpha_pow_range(0);
    if e > 0 {
        lemma_alpha_pow_period((e - 1) as nat);
        assert(alpha_pow(e + 255) == times_alpha(alpha_pow((e + 255 - 1) as nat)));
        lemma_times_alpha_linear(alpha_pow((e - 1) as nat), 0);
        lemma_alpha_pow_nonzero(e);
    }
}

proof fn lemma_times_alpha_nonzero(a: u32)
    by (bit_vector)
    requires
        1 <= a < 256,
    ensures
        1 <= times_alpha(a) < 256,
{
}

proof fn lemma_alpha_pow_nonzero(e: nat)
    ensures
        1 <= alpha_pow(e) <= 255,
    decreases e,
{
    if e > 0 {
        lemma_alpha_pow_nonzero((e - 1) as nat);
        lemma_times_alpha_nonzero(alpha_pow((e - 1) as nat));
    }
}

/// A power of `alpha` depends on its exponent modulo 255 alone.
pub proof fn lemma_alpha_pow_mod(e: nat)
    ensures
        alpha_pow(e) == alpha_pow(e % 255),
        1 <= alpha_pow(e) <= 255,
    decreases e,
{
    lemma_alpha_pow_nonzero(e);
    if e >= 255 {
        lemma_alpha_pow_mod((e - 255) as nat);
        lemma_alpha_pow_period((e - 255) as nat);
    }
}

proof fn lemma_times_alpha_power_of_power(e: nat, k: nat)
    ensures
        times_alpha_power(alpha_pow(e), k) == alpha_pow(e + k),
    decreases k,
{
    if k > 0 {
        lemma_times_alpha_power_of_power(e, (k - 1) as nat);
    }
}

proof fn lemma_times_alpha_power_linear(a: u32, b: u32, k: nat)
    requires
        a < 256,
        b < 256,
    ensures
        times_alpha_power(a, k) < 256,
        times_alpha_power(b, k) < 256,
        (a ^ b) < 256,
        times_alpha_power(a ^ b, k) == times_alpha_power(a, k) ^ times_alpha_power(b, k),
        times_alpha_power(0, k) == 0,
    decreases k,
{
    lemma_times_alpha_linear(a, b);
    if k > 0 {
        lemma_times_alpha_power_linear(a, b, (k - 1) as nat);
        lemma_times_alpha_linear(
            times_alpha_power(a, (k - 1) as nat),
            times_alpha_power(b, (k - 1) as nat),
        );
        lemma_times_alpha_linear(
            times_alpha_power(b, (k - 1) as nat),
            times_alpha_power(a, (k - 1) as nat),
        );
    }
}

/// A product with a nonzero element is the other factor multiplied by
/// `alpha` as often as the logarithm of the element says.
pub proof fn lemma_mul_as_power(a: int, x: int)
    requires
        is_element(a),
        1 <= x <= 255,
    ensures
        field_mul(a, x) == times_alpha_power(a as u32, field_log(x) as nat),
        is_element(field_mul(a, x)),
{
    lemma_power_of_log(x);
    let k = field_log(x) as nat;
    if a == 0 {
        lemma_times_alpha_power_linear(0, 0, k);
    } else {
        lemma_power_of_log(a);
        let la = field_log(a) as nat;
        lemma_times_alpha_power_of_power(la, k);
        lemma_alpha_pow_mod(la + k);
    }
}

/// The product in the field is commutative, zero times anything is zero,
/// and one is its neutral element.
pub proof fn lemma_mul_basics(a: int, b: int)
    requires
        is_element(a),
        is_element(b),
    ensures
        is_element(field_mul(a, b)),
        field_mul(a, b) == field_mul(b, a),
        field_mul(a, 0) == 0,
        field_mul(0, a) == 0,
        field_mul(a, 1) == a,
        field_mul(1, a) == a,
        (a != 0 && b != 0) ==> field_mul(a, b) != 0,
{
    lemma_alpha_pow_range(0);
    lemma_log_of_power(0);
    if a != 0 {
        lemma_power_of_log(a);
    }
    if a != 0 && b != 0 {
        lemma_power_of_log(b);
        lemma_alpha_pow_range(((field_log(a) + field_log(b)) % 255) as nat);
    }
}

/// The product distributes over the sum.
pub proof fn lemma_mul_distributes(a: int, b: int, x: int)
    requires
        is_element(a),
        is_element(b),
        is_element(x),
    ensures
        field_mul(field_add(a, b), x) == field_add(field_mul(a, x), field_mul(b, x)),
        field_mul(x, field_add(a, b)) == field_add(field_mul(x, a), field_mul(x, b)),
{
    lemma_add_laws(a, b, 0);
    lemma_mul_basics(a, x);
    lemma_mul_basics(b, x);
    lemma_mul_basics(field_add(a, b), x);
    if x == 0 {
        lemma_add_laws(0, 0, 0);
    } else {
        let k = field_log(x) as nat;
        lemma_mul_as_power(a, x);
        lemma_mul_as_power(b, x);
        lemma_mul_as_power(field_add(a, b), x);
        lemma_times_alpha_power_linear(a as u32, b as u32, k);
        lemma_xor_widths(a as u8, b as u8);
        lemma_xor_widths(times_alpha_power(a as u32, k) as u8, times_alpha_power(b as u32, k) as u8);
    }
}

proof fn lemma_alpha_pow_of_sum(la: int, lb: int, lc: int)
    requires
        0 <= la < 255,
        0 <= lb < 255,
        0 <= lc < 255,
    ensures
        alpha_pow((((la + lb) % 255 + lc) % 255) as nat) == alpha_pow((la + lb + lc) as nat),
{
    let ab = (la + lb) % 255;
    assert(ab == la + lb || ab == la + lb - 255);
    lemma_alpha_pow_mod((ab + lc) as nat);
    if ab == la + lb - 255 {
        lemma_alpha_pow_period((ab + lc) as nat);
    }
}

/// The product of two nonzero elements is the power of `alpha` whose
/// exponent is the sum of their logarithms.
proof fn lemma_mul_nonzero(a: int, b: int)
    requires
        1 <= a <= 255,
        1 <= b <= 255,
    ensures
        1 <= field_mul(a, b) <= 255,
        field_mul(a, b) == alpha_pow(((field_log(a) + field_log(b)) % 255) as nat),
        field_log(field_mul(a, b)) == (field_log(a) + field_log(b)) % 255,
        0 <= field_log(a) < 255,
        0 <= field_log(b) < 255,
{
    lemma_power_of_log(a);
    lemma_power_of_log(b);
    lemma_log_of_power((field_log(a) + field_log(b)) % 255);
}

/// The product in the field is associative.
pub proof fn lemma_mul_associative(a: int, b: int, c: int)
    requires
        is_element(a),
        is_element(b),
        is_element(c),
    ensures
        field_mul(field_mul(a, b), c) == field_mul(a, field_mul(b, c)),
{
    if a != 0 && b != 0 && c != 0 {
        lemma_mul_nonzero(a, b);
        lemma_mul_nonzero(b, c);
        lemma_mul_nonzero(field_mul(a, b), c);
        lemma_mul_nonzero(a, field_mul(b, c));
        let la = field_log(a);
        let lb = field_log(b);
        let lc = field_log(c);
        lemma_alpha_pow_of_sum(la, lb, lc);
        lemma_alpha_pow_of_sum(lb, lc, la);
        assert((la + (lb + lc) % 255) % 255 == ((lb + lc) % 255 + la) % 255);
    } else {
        lemma_mul_basics(a, b);
        lemma_mul_basics(b, c);
        lemma_mul_basics(field_mul(a, b), c);
        lemma_mul_basics(a, field_mul(b, c));
    }
}

} // verus!
