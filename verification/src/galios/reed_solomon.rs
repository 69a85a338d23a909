//! Generator polynomials and the remainder of a message by long division.

use super::field::alpha_pow;
use super::field::exponent_value;
use super::field::field_add;
use super::field::field_log;
use super::field::field_mul;
use super::field::lemma_log_table;
use super::field::lemma_power_of_log;
use super::field::lemma_zero_sentinel;
use super::polynomial::ints;
use super::polynomial::is_field_seq;
use super::polynomial::lemma_add_zero;
use super::polynomial::lemma_product_coeff_closed;
use super::polynomial::poly_mul;
use super::polynomial::poly_scale;
use super::polynomial::poly_xor;
use super::polynomial::product_coeff;
use super::polynomial::product_term;
use super::polynomial::Polynomial;
use vstd::prelude::*;

verus! {

/// The bytes of a sequence as mathematical integers.
pub open spec fn bytes_ints(s: Seq<u8>) -> Seq<int> {
    Seq::new(s.len(), |i: int| s[i] as int)
}

/// The polynomial `x + alpha^i`.
pub open spec fn binomial(i: nat) -> Seq<int> {
    seq![1int, alpha_pow(i) as int]
}

/// The generator polynomial for `n` error-correction codewords: the product
/// of `x + alpha^i` for `i` from 0 up to `n - 1`.
pub open spec fn generator_poly(n: nat) -> Seq<int>
    decreases n,
{
    if n <= 1 {
        binomial(0)
    } else {
        poly_mul(generator_poly((n - 1) as nat), binomial((n - 1) as nat))
    }
}

/// Every coefficient is a field element.
pub open spec fn is_field_poly(p: Seq<int>) -> bool {
    forall|i: int| 0 <= i < p.len() ==> 0 <= #[trigger] p[i] <= 255
}

/// One step of the long division by `g`: `g` times the leading coefficient
/// of the residue is added to the residue, and the leading coefficient,
/// which this cancels, is dropped.
pub open spec fn division_step(residue: Seq<int>, g: Seq<int>) -> Seq<int> {
    poly_xor(poly_scale(g, residue[0]), residue).drop_first()
}

/// The residue after `steps` steps of the long division by `g`.
pub open spec fn division_steps(residue: Seq<int>, g: Seq<int>, steps: nat) -> Seq<int>
    decreases steps,
{
    if steps == 0 {
        residue
    } else {
        division_steps(division_step(residue, g), g, (steps - 1) as nat)
    }
}

/// The error-correction codewords of a message for the generator `g`: the
/// residue after one division step per message codeword.
pub open spec fn remainder_by(message: Seq<int>, g: Seq<int>) -> Seq<int> {
    division_steps(message, g, message.len())
}

/// The `n` Reed-Solomon error-correction codewords of a message.
pub open spec fn rs_remainder(message: Seq<int>, n: nat) -> Seq<int> {
    remainder_by(message, generator_poly(n))
}

/// One is the neutral element of the field's multiplication.
pub proof fn lemma_mul_one(a: int)
    requires
        0 <= a <= 255,
    ensures
        field_mul(1, a) == a,
        field_mul(a, 1) == a,
{
    lemma_zero_sentinel();
    lemma_log_table(0);
    assert(alpha_pow(0) == 1);
    super::field::lemma_log_of_power(0);
    if a != 0 {
        lemma_power_of_log(a);
        assert((0 + field_log(a)) % 255 == field_log(a));
    }
}

/// A product of polynomials with field elements for coefficients has field
/// elements for coefficients, one fewer than its factors have together, and
/// leads with the product of their leading coefficients.
pub proof fn lemma_poly_mul_shape(p: Seq<int>, q: Seq<int>)
    requires
        p.len() >= 1,
        q.len() >= 1,
        is_field_poly(p),
        is_field_poly(q),
    ensures
        poly_mul(p, q).len() == p.len() + q.len() - 1,
        is_field_poly(poly_mul(p, q)),
        poly_mul(p, q)[0] == field_mul(p[0], q[0]),
{
    assert forall|k: int| 0 <= k < poly_mul(p, q).len() implies 0 <= #[trigger] poly_mul(p, q)[k]
        <= 255 by {
        lemma_product_coeff_closed(p, q, k, p.len());
    }
    lemma_leading_product(p, q, p.len());
}

proof fn lemma_leading_product(p: Seq<int>, q: Seq<int>, upto: nat)
    requires
        p.len() >= 1,
        q.len() >= 1,
        is_field_poly(p),
        is_field_poly(q),
        1 <= upto <= p.len(),
    ensures
        product_coeff(p, q, 0, upto) == field_mul(p[0], q[0]),
    decreases upto,
{
    super::field::lemma_field_closed(p[0], q[0]);
    if upto == 1 {
        assert(product_coeff(p, q, 0, 0) == 0);
        assert(product_term(p, q, 0, 0) == field_mul(p[0], q[0]));
        lemma_add_zero(field_mul(p[0], q[0]));
    } else {
        lemma_leading_product(p, q, (upto - 1) as nat);
        assert(product_term(p, q, 0, upto - 1) == 0);
        lemma_add_zero(field_mul(p[0], q[0]));
    }
}

/// The generator polynomial has `n + 1` field elements for coefficients and
/// leads with one.
pub proof fn lemma_generator_shape(n: nat)
    requires
        1 <= n <= 255,
    ensures
        generator_poly(n).len() == n + 1,
        is_field_poly(generator_poly(n)),
        generator_poly(n)[0] == 1,
    decreases n,
{
    lemma_log_table(0);
    if n > 1 {
        lemma_generator_shape((n - 1) as nat);
        lemma_log_table((n - 1) as nat);
        lemma_poly_mul_shape(generator_poly((n - 1) as nat), binomial((n - 1) as nat));
        lemma_mul_one(1);
    }
}

/// A division step by a polynomial that leads with one leaves field
/// elements, and as many of them as the longer of the residue and the
/// divisor has, less one.
pub proof fn lemma_division_step_shape(residue: Seq<int>, g: Seq<int>)
    requires
        g.len() >= 1,
        is_field_poly(g),
        is_field_poly(residue),
    ensures
        is_field_poly(division_step(residue, g)),
        division_step(residue, g).len() == (if residue.len() >= g.len() {
            residue.len() - 1
        } else {
            g.len() - 1
        }),
{
}

/// The residue after `steps` division steps, one at least, by a polynomial
/// of `n + 1` coefficients has `n` coefficients, or as many as the residue
/// had at first less `steps`, whichever is more.
pub proof fn lemma_division_steps_shape(residue: Seq<int>, g: Seq<int>, steps: nat)
    requires
        g.len() >= 1,
        is_field_poly(g),
        is_field_poly(residue),
        steps >= 1,
    ensures
        is_field_poly(division_steps(residue, g, steps)),
        division_steps(residue, g, steps).len() == (if residue.len() - steps >= g.len() - 1 {
            residue.len() - steps
        } else {
            g.len() - 1
        }),
    decreases steps,
{
    lemma_division_step_shape(residue, g);
    let next = division_step(residue, g);
    assert(division_steps(residue, g, steps) == division_steps(next, g, (steps - 1) as nat));
    if steps > 1 {
        lemma_division_steps_shape(next, g, (steps - 1) as nat);
    } else {
        assert(division_steps(next, g, 0) == next);
    }
}

/// A message of at least one codeword has exactly `n` error-correction
/// codewords, each a field element.
pub proof fn lemma_rs_remainder_shape(message: Seq<int>, n: nat)
    requires
        message.len() >= 1,
        is_field_poly(message),
        1 <= n <= 255,
    ensures
        rs_remainder(message, n).len() == n,
        is_field_poly(rs_remainder(message, n)),
{
    lemma_generator_shape(n);
    lemma_division_steps_shape(message, generator_poly(n), message.len());
}

/// The generator polynomial for `count` error-correction codewords.
pub fn generator_polynomial(count: usize) -> (generator: Polynomial)
    requires
        1 <= count <= 255,
    ensures
        generator.wf(),
        generator@ == generator_poly(count as nat),
{
    let mut first: Vec<i32> = Vec::new();
    first.push(0);
    first.push(0);
    let mut poly = Polynomial::from_exponent_notation(first);
    proof {
        assert(poly@ =~= binomial(0));
    }
    let mut i: usize = 1;
    while i < count
        invariant
            1 <= i <= count <= 255,
            poly.wf(),
            poly@ == generator_poly(i as nat),
        decreases count - i,
    {
        let mut factor_data: Vec<i32> = Vec::new();
        factor_data.push(0);
        factor_data.push(i as i32);
        let mut factor = Polynomial::from_exponent_notation(factor_data);
        proof {
            assert(factor@ =~= binomial(i as nat));
            lemma_generator_shape(i as nat);
        }
        poly = poly.multiply(&mut factor);
        i += 1;
    }
    poly
}

/// The codewords of a block as polynomial coefficients.
pub fn to_coefficients(block: &Vec<u8>) -> (coefficients: Vec<i32>)
    ensures
        is_field_seq(coefficients@),
        ints(coefficients@) == bytes_ints(block@),
{
    let mut output: Vec<i32> = Vec::new();
    let mut i: usize = 0;
    while i < block.len()
        invariant
            i <= block@.len(),
            output@.len() == i,
            forall|k: int| 0 <= k < i ==> #[trigger] output@[k] == block@[k] as i32,
        decreases block@.len() - i,
    {
        output.push(block[i] as i32);
        i += 1;
    }
    assert(ints(output@) =~= bytes_ints(block@));
    output
}

/// The error-correction codewords of a block for the given generator
/// polynomial: the remainder of the long division of the block, read as a
/// polynomial with its first codeword in the highest degree, by the
/// generator.
pub fn remainder_codewords(block: &Vec<u8>, generator: &mut Polynomial) -> (codewords: Vec<u8>)
    requires
        old(generator).wf(),
        old(generator)@.len() >= 1,
        old(generator)@[0] == 1,
    ensures
        final(generator).wf(),
        final(generator)@ == old(generator)@,
        bytes_ints(codewords@) == remainder_by(bytes_ints(block@), old(generator)@),
{
    let ghost g = generator@;
    let ghost message = bytes_ints(block@);
    let mut current = Polynomial::from_integer_notation(to_coefficients(block));
    proof {
        generator.lemma_stored();
    }
    let steps = block.len();
    let mut done: usize = 0;
    while done < steps
        invariant
            done <= steps,
            steps == message.len(),
            generator.wf(),
            generator@ == g,
            g.len() >= 1,
            g[0] == 1,
            is_field_poly(g),
            current.wf(),
            current@.len() >= steps - done,
            remainder_by(message, g) == division_steps(current@, g, (steps - done) as nat),
        decreases steps - done,
    {
        let ghost residue = current@;
        proof {
            current.lemma_stored();
            lemma_zero_sentinel();
        }
        let exponents = current.get_as_exponent_vec();
        assert(ints(exponents@).len() == exponents@.len());
        assert(ints(exponents@)[0] == field_log(residue[0]));
        let leading: i32 = exponents[0];
        let mut inter_poly = generator.multiply_by_exponent(leading);
        inter_poly = inter_poly.xor(&mut current);
        proof {
            assert(exponent_value(leading as int) == residue[0]);
            lemma_mul_one(residue[0]);
            assert(field_add(residue[0], residue[0]) == 0) by {
                lemma_self_cancel(residue[0] as u8);
            }
            assert(inter_poly@ == poly_xor(poly_scale(g, residue[0]), residue));
            assert(inter_poly@[0] == 0);
        }
        let dropped = inter_poly.drop_leading_zero();
        assert(dropped);
        current = inter_poly;
        done += 1;
    }
    let values = current.get_as_integer_vec();
    let mut output: Vec<u8> = Vec::new();
    let mut i: usize = 0;
    while i < values.len()
        invariant
            i <= values@.len(),
            is_field_seq(values@),
            output@.len() == i,
            forall|k: int| 0 <= k < i ==> #[trigger] output@[k] == values@[k],
        decreases values@.len() - i,
    {
        output.push(values[i] as u8);
        i += 1;
    }
    assert(bytes_ints(output@) =~= ints(values@));
    output
}

proof fn lemma_self_cancel(a: u8)
    by (bit_vector)
    ensures
        a ^ a == 0,
{
}

} // verus!
