//! The value of a polynomial at a point, and the law of the codewords: a
//! message followed by its remainder vanishes at the roots of the generator.

use super::algebra::is_element;
use super::algebra::lemma_add_laws;
use super::algebra::lemma_alpha_pow_mod;
use super::algebra::lemma_mul_associative;
use super::algebra::lemma_mul_basics;
use super::algebra::lemma_mul_distributes;
use super::field::alpha_pow;
use super::field::field_add;
use super::field::field_mul;
use super::polynomial::poly_mul;
use super::polynomial::poly_scale;
use super::polynomial::poly_xor;
use super::polynomial::product_coeff;
use super::polynomial::product_term;
use super::polynomial::zero_poly;
use super::reed_solomon::binomial;
use super::reed_solomon::division_step;
use super::reed_solomon::division_steps;
use super::reed_solomon::generator_poly;
use super::reed_solomon::is_field_poly;
use super::reed_solomon::lemma_division_step_shape;
use super::reed_solomon::lemma_generator_shape;
use super::reed_solomon::lemma_rs_remainder_shape;
use super::reed_solomon::rs_remainder;
use vstd::prelude::*;

verus! {

/// The value of a polynomial at `x`, its first coefficient being that of
/// the highest degree.
pub open spec fn eval(p: Seq<int>, x: int) -> int
    decreases p.len(),
{
    if p.len() == 0 {
        0
    } else {
        field_add(field_mul(eval(p.drop_last(), x), x), p.last())
    }
}

/// A message followed by its error-correction codewords.
pub open spec fn rs_codeword(message: Seq<int>, n: nat) -> Seq<int> {
    message + rs_remainder(message, n)
}

/// A polynomial filled up with zero coefficients of lower degree to
/// `total` coefficients.
pub open spec fn padded(p: Seq<int>, total: int) -> Seq<int> {
    p + zero_poly((total - p.len()) as nat)
}

proof fn lemma_add_swap(a: int, b: int, c: int, d: int)
    requires
        is_element(a),
        is_element(b),
        is_element(c),
        is_element(d),
    ensures
        field_add(field_add(a, b), field_add(c, d)) == field_add(
            field_add(a, c),
            field_add(b, d),
        ),
{
    lemma_add_laws(a, b, field_add(c, d));
    lemma_add_laws(b, c, d);
    lemma_add_laws(c, b, d);
    lemma_add_laws(a, c, field_add(b, d));
}

/// The value of a polynomial over the field at an element of the field is
/// an element of the field.
pub proof fn lemma_eval_element(p: Seq<int>, x: int)
    requires
        is_field_poly(p),
        is_element(x),
    ensures
        is_element(eval(p, x)),
    decreases p.len(),
{
    if p.len() > 0 {
        lemma_eval_element(p.drop_last(), x);
        lemma_mul_basics(eval(p.drop_last(), x), x);
        lemma_add_laws(field_mul(eval(p.drop_last(), x), x), p.last(), 0);
    }
}

/// The value of a sum of two polynomials of one length is the sum of
/// their values.
pub proof fn lemma_eval_sum(p: Seq<int>, q: Seq<int>, x: int)
    requires
        p.len() == q.len(),
        is_field_poly(p),
        is_field_poly(q),
        is_element(x),
    ensures
        eval(poly_xor(p, q), x) == field_add(eval(p, x), eval(q, x)),
        is_field_poly(poly_xor(p, q)),
    decreases p.len(),
{
    let sum = poly_xor(p, q);
    if p.len() > 0 {
        let p_init = p.drop_last();
        let q_init = q.drop_last();
        assert(sum.drop_last() =~= poly_xor(p_init, q_init));
        lemma_eval_sum(p_init, q_init, x);
        lemma_eval_element(p_init, x);
        lemma_eval_element(q_init, x);
        let ep = eval(p_init, x);
        let eq = eval(q_init, x);
        lemma_mul_distributes(ep, eq, x);
        lemma_mul_basics(ep, x);
        lemma_mul_basics(eq, x);
        lemma_add_swap(field_mul(ep, x), field_mul(eq, x), p.last(), q.last());
        assert(sum.last() == field_add(p.last(), q.last()));
    } else {
        lemma_add_laws(0, 0, 0);
    }
    assert forall|i: int| 0 <= i < sum.len() implies 0 <= #[trigger] sum[i] <= 255 by {
        lemma_add_laws(p[i], q[i], 0);
    }
}

/// The value of a polynomial scaled by a field element is its value
/// scaled.
pub proof fn lemma_eval_scaled(p: Seq<int>, c: int, x: int)
    requires
        is_field_poly(p),
        is_element(c),
        is_element(x),
    ensures
        eval(poly_scale(p, c), x) == field_mul(eval(p, x), c),
        is_field_poly(poly_scale(p, c)),
    decreases p.len(),
{
    let scaled = poly_scale(p, c);
    assert forall|i: int| 0 <= i < scaled.len() implies 0 <= #[trigger] scaled[i] <= 255 by {
        lemma_mul_basics(p[i], c);
    }
    if p.len() > 0 {
        let p_init = p.drop_last();
        assert(scaled.drop_last() =~= poly_scale(p_init, c));
        lemma_eval_scaled(p_init, c, x);
        lemma_eval_element(p_init, x);
        let e = eval(p_init, x);
        lemma_mul_basics(e, x);
        lemma_mul_basics(e, c);
        lemma_mul_basics(c, x);
        lemma_mul_associative(e, c, x);
        lemma_mul_associative(e, x, c);
        lemma_mul_distributes(field_mul(e, x), p.last(), c);
        assert(scaled.last() == field_mul(p.last(), c));
    } else {
        lemma_mul_basics(c, 0);
    }
}

/// Zero coefficients of lower degree keep a value of zero at zero.
pub proof fn lemma_eval_padded_zero(p: Seq<int>, z: nat, x: int)
    requires
        is_element(x),
        eval(p, x) == 0,
    ensures
        eval(p + zero_poly(z), x) == 0,
    decreases z,
{
    if z > 0 {
        let longer = p + zero_poly(z);
        assert(longer.drop_last() =~= p + zero_poly((z - 1) as nat));
        lemma_eval_padded_zero(p, (z - 1) as nat, x);
        lemma_mul_basics(x, 0);
        lemma_add_laws(0, 0, 0);
    } else {
        assert(p + zero_poly(0) =~= p);
    }
}

/// Zero coefficients of higher degree leave the value as it is.
pub proof fn lemma_eval_leading_zeros(z: nat, p: Seq<int>, x: int)
    requires
        is_field_poly(p),
        is_element(x),
    ensures
        eval(zero_poly(z) + p, x) == eval(p, x),
    decreases p.len(),
{
    let longer = zero_poly(z) + p;
    if p.len() > 0 {
        assert(longer.drop_last() =~= zero_poly(z) + p.drop_last());
        lemma_eval_leading_zeros(z, p.drop_last(), x);
    } else {
        assert(longer =~= zero_poly(z) + zero_poly(0));
        assert(eval(zero_poly(0), x) == 0);
        lemma_eval_padded_zero(zero_poly(0), z, x);
        assert(zero_poly(0) + zero_poly(z) =~= zero_poly(z));
        assert(longer =~= zero_poly(z));
    }
}

proof fn lemma_binomial_coefficient(p: Seq<int>, b: int, k: int, upto: nat)
    requires
        is_field_poly(p),
        is_element(b),
        upto <= p.len(),
    ensures
        product_coeff(p, seq![1int, b], k, upto) == field_add(
            if 0 <= k < upto {
                p[k]
            } else {
                0
            },
            if 0 <= k - 1 < upto {
                field_mul(p[k - 1], b)
            } else {
                0
            },
        ),
    decreases upto,
{
    let q = seq![1int, b];
    lemma_add_laws(0, 0, 0);
    if upto > 0 {
        lemma_binomial_coefficient(p, b, k, (upto - 1) as nat);
        let i = upto - 1;
        let first = if 0 <= k < upto - 1 {
            p[k]
        } else {
            0
        };
        let second = if 0 <= k - 1 < upto - 1 {
            field_mul(p[k - 1], b)
        } else {
            0
        };
        if 0 <= k - 1 < upto - 1 {
            lemma_mul_basics(p[k - 1], b);
        }
        lemma_add_laws(first, second, 0);
        lemma_add_laws(second, first, 0);
        lemma_add_laws(field_add(first, second), 0, 0);
        if i == k {
            lemma_mul_basics(p[k], 1);
            assert(product_term(p, q, k, i) == p[k]);
            lemma_add_laws(second, p[k], 0);
            lemma_add_laws(first, second, p[k]);
        } else if i == k - 1 {
            lemma_mul_basics(p[k - 1], b);
            assert(product_term(p, q, k, i) == field_mul(p[k - 1], b));
            lemma_add_laws(field_mul(p[k - 1], b), 0, 0);
        } else {
            assert(product_term(p, q, k, i) == 0);
        }
    }
}

/// The value of a polynomial times `x + b` is its value times the value
/// of `x + b`.
pub proof fn lemma_eval_times_binomial(p: Seq<int>, b: int, x: int)
    requires
        is_field_poly(p),
        is_element(b),
        is_element(x),
    ensures
        eval(poly_mul(p, seq![1int, b]), x) == field_mul(eval(p, x), field_add(x, b)),
    decreases p.len(),
{
    let q = seq![1int, b];
    let r1 = poly_mul(p, q);
    lemma_add_laws(x, b, 0);
    let xb = field_add(x, b);
    if p.len() == 0 {
        lemma_binomial_coefficient(p, b, 0, 0);
        assert(r1.len() == 1);
        assert(r1.drop_last().len() == 0);
        lemma_mul_basics(0, x);
        lemma_mul_basics(0, xb);
        lemma_add_laws(0, 0, 0);
        assert(r1[0] == 0);
        assert(r1.drop_last() =~= Seq::<int>::empty());
        assert(eval(Seq::<int>::empty(), x) == 0);
        assert(eval(r1, x) == 0);
        assert(eval(p, x) == 0);
    } else {
        let m = p.len() - 1;
        let p_init = p.drop_last();
        let r_init = poly_mul(p_init, q);
        lemma_eval_times_binomial(p_init, b, x);
        let t_seq = r1.drop_last().drop_last();
        assert forall|k: int| 0 <= k < m implies t_seq[k] == r_init.drop_last()[k] by {
            lemma_binomial_coefficient(p, b, k, p.len());
            lemma_binomial_coefficient(p_init, b, k, p_init.len());
        }
        assert(t_seq =~= r_init.drop_last());
        let t = eval(t_seq, x);
        lemma_binomial_coefficient(p, b, m, p.len());
        lemma_binomial_coefficient(p, b, m + 1, p.len());
        lemma_binomial_coefficient(p_init, b, m, p_init.len());
        let c0 = r_init[m];
        let pm = p[m];
        lemma_mul_basics(pm, b);
        let bpm = field_mul(pm, b);
        if m >= 1 {
            lemma_mul_basics(p[m - 1], b);
        }
        let below = if m >= 1 {
            field_mul(p[m - 1], b)
        } else {
            0
        };
        lemma_add_laws(below, 0, 0);
        lemma_add_laws(bpm, 0, 0);
        assert(c0 == below);
        assert(r1[m + 1] == bpm);
        assert(r1[m] == field_add(pm, c0));
        assert forall|k: int| 0 <= k < t_seq.len() implies 0 <= #[trigger] t_seq[k] <= 255 by {
            lemma_binomial_coefficient(p_init, b, k, p_init.len());
            if 0 <= k - 1 {
                lemma_mul_basics(p_init[k - 1], b);
            }
            lemma_add_laws(
                if 0 <= k < p_init.len() {
                    p_init[k]
                } else {
                    0
                },
                if 0 <= k - 1 < p_init.len() {
                    field_mul(p_init[k - 1], b)
                } else {
                    0
                },
                0,
            );
        }
        lemma_eval_element(t_seq, x);
        lemma_eval_element(p_init, x);
        let e0 = eval(p_init, x);
        lemma_mul_basics(t, x);
        let tx = field_mul(t, x);
        // The value of the shorter product, by induction.
        assert(eval(r_init, x) == field_add(tx, c0));
        assert(field_add(tx, c0) == field_mul(e0, xb));
        lemma_mul_basics(e0, xb);
        let head = field_mul(e0, xb);
        // The value of the longer product.
        assert(eval(r1.drop_last(), x) == field_add(tx, field_add(pm, c0)));
        lemma_add_laws(tx, c0, pm);
        lemma_add_laws(c0, pm, 0);
        assert(eval(r1.drop_last(), x) == field_add(head, pm));
        lemma_add_laws(head, pm, 0);
        assert(eval(r1, x) == field_add(field_mul(field_add(head, pm), x), bpm));
        lemma_mul_distributes(head, pm, x);
        lemma_mul_basics(head, x);
        lemma_mul_basics(pm, x);
        // The value of the polynomial times the value of the binomial.
        lemma_mul_basics(e0, x);
        let e1 = field_add(field_mul(e0, x), pm);
        assert(eval(p, x) == e1);
        lemma_add_laws(field_mul(e0, x), pm, 0);
        lemma_mul_distributes(field_mul(e0, x), pm, xb);
        lemma_mul_distributes(x, b, pm);
        lemma_mul_basics(pm, xb);
        lemma_mul_basics(x, pm);
        lemma_mul_basics(b, pm);
        lemma_mul_associative(e0, x, xb);
        lemma_mul_associative(e0, xb, x);
        lemma_mul_basics(x, xb);
        lemma_add_laws(field_mul(head, x), field_mul(pm, x), bpm);
        let hx = field_mul(head, x);
        let px = field_mul(pm, x);
        assert(eval(r1, x) == field_add(field_add(hx, px), bpm));
        assert(field_mul(field_mul(e0, x), xb) == hx);
        assert(field_mul(pm, xb) == field_add(px, bpm));
        assert(field_mul(e1, xb) == field_add(hx, field_add(px, bpm)));
    }
}

/// Every power of `alpha` below the `n`-th is a root of the generator
/// polynomial for `n` codewords.
pub proof fn lemma_generator_roots(n: nat, i: nat)
    requires
        1 <= n <= 255,
        i < n,
    ensures
        eval(generator_poly(n), alpha_pow(i) as int) == 0,
    decreases n,
{
    let x = alpha_pow(i) as int;
    lemma_alpha_pow_mod(i);
    lemma_alpha_pow_mod((n - 1) as nat);
    lemma_alpha_pow_mod(0);
    let b = alpha_pow((n - 1) as nat) as int;
    if n == 1 {
        let one = seq![1int, 1int];
        assert(generator_poly(1) =~= one);
        lemma_eval_times_binomial(seq![1int], 1, x);
        assert(eval(seq![1int], x) == 1) by {
            assert(seq![1int].drop_last() =~= Seq::<int>::empty());
            assert(eval(Seq::<int>::empty(), x) == 0);
            lemma_mul_basics(0, x);
            lemma_add_laws(1, 0, 0);
        }
        assert(poly_mul(seq![1int], seq![1int, 1int]) =~= one) by {
            lemma_binomial_coefficient(seq![1int], 1, 0, 1);
            lemma_binomial_coefficient(seq![1int], 1, 1, 1);
            lemma_mul_basics(1, 1);
            lemma_add_laws(1, 0, 0);
        }
        lemma_add_laws(x, x, 0);
        lemma_mul_basics(1, 0);
    } else {
        let shorter = generator_poly((n - 1) as nat);
        lemma_generator_shape((n - 1) as nat);
        lemma_eval_times_binomial(shorter, b, x);
        lemma_eval_element(shorter, x);
        lemma_add_laws(x, b, 0);
        if i < n - 1 {
            lemma_generator_roots((n - 1) as nat, i);
            lemma_mul_basics(0, field_add(x, b));
        } else {
            lemma_add_laws(x, x, 0);
            lemma_mul_basics(eval(shorter, x), 0);
        }
    }
}

proof fn lemma_division_keeps_value(
    residue: Seq<int>,
    g: Seq<int>,
    steps: nat,
    total: int,
    x: int,
)
    requires
        g.len() >= 1,
        g[0] == 1,
        is_field_poly(g),
        is_field_poly(residue),
        is_element(x),
        eval(g, x) == 0,
        residue.len() >= steps,
        total >= residue.len(),
        total - steps >= g.len() - 1,
    ensures
        division_steps(residue, g, steps).len() <= total - steps,
        is_field_poly(division_steps(residue, g, steps)),
        eval(padded(division_steps(residue, g, steps), total - steps), x) == eval(
            padded(residue, total),
            x,
        ),
    decreases steps,
{
    if steps > 0 {
        let c = residue[0];
        let scaled = poly_scale(g, c);
        let sum = poly_xor(scaled, residue);
        let next = division_step(residue, g);
        lemma_division_step_shape(residue, g);
        lemma_eval_scaled(g, c, x);
        lemma_mul_basics(c, 0);
        lemma_mul_basics(0, c);
        lemma_eval_padded_zero(scaled, (total - scaled.len()) as nat, x);
        let wide_scaled = padded(scaled, total);
        let wide_residue = padded(residue, total);
        let wide_sum = padded(sum, total);
        assert forall|i: int| 0 <= i < total implies wide_sum[i] == poly_xor(
            wide_scaled,
            wide_residue,
        )[i] by {
            lemma_add_laws(0, 0, 0);
        }
        assert(wide_sum =~= poly_xor(wide_scaled, wide_residue));
        assert(is_field_poly(wide_scaled));
        assert(is_field_poly(wide_residue));
        lemma_eval_sum(wide_scaled, wide_residue, x);
        lemma_eval_element(wide_residue, x);
        lemma_add_laws(eval(wide_residue, x), 0, 0);
        assert(eval(wide_sum, x) == eval(wide_residue, x));
        // The leading coefficient of the sum is zero and drops out.
        lemma_mul_basics(c, 1);
        lemma_add_laws(c, c, 0);
        assert(sum[0] == 0);
        let wide_next = padded(next, total - 1);
        assert(wide_sum =~= zero_poly(1) + wide_next);
        assert(is_field_poly(wide_next));
        lemma_eval_leading_zeros(1, wide_next, x);
        lemma_division_keeps_value(next, g, (steps - 1) as nat, total - 1, x);
        assert(division_steps(residue, g, steps) == division_steps(
            next,
            g,
            (steps - 1) as nat,
        ));
    }
}

/// The polynomial of a message followed by its error-correction codewords
/// vanishes at every power of `alpha` below the number of these codewords.
pub proof fn lemma_codeword_vanishes(message: Seq<int>, n: nat, i: nat)
    requires
        message.len() >= 1,
        is_field_poly(message),
        1 <= n <= 255,
        i < n,
    ensures
        eval(rs_codeword(message, n), alpha_pow(i) as int) == 0,
{
    let x = alpha_pow(i) as int;
    let g = generator_poly(n);
    let k = message.len();
    let rest = rs_remainder(message, n);
    lemma_alpha_pow_mod(i);
    lemma_generator_shape(n);
    lemma_generator_roots(n, i);
    lemma_rs_remainder_shape(message, n);
    lemma_division_keeps_value(message, g, k, (k + n) as int, x);
    assert(padded(rest, n as int) =~= rest);
    let high = padded(message, (k + n) as int);
    let low = zero_poly(k) + rest;
    assert(eval(rest, x) == eval(high, x));
    lemma_eval_leading_zeros(k, rest, x);
    assert forall|j: int| 0 <= j < k + n implies rs_codeword(message, n)[j] == poly_xor(
        high,
        low,
    )[j] by {
        if j < k {
            lemma_add_laws(message[j], 0, 0);
        } else {
            lemma_add_laws(rest[j - k], 0, 0);
        }
    }
    assert(rs_codeword(message, n) =~= poly_xor(high, low));
    assert(is_field_poly(high));
    assert(is_field_poly(low));
    lemma_eval_sum(high, low, x);
    lemma_eval_element(rest, x);
    lemma_add_laws(eval(rest, x), 0, 0);
}

} // verus!
