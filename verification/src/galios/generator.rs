//! Polynomials held as plain coefficient lists, multiplied term by term.

use super::field::alpha_pow;
use super::field::field_log;
use super::field::galios_reduction;
use super::field::get_antilog;
use super::field::lemma_log_table;
use super::polynomial::lemma_xor_i32;
use vstd::prelude::*;

verus! {

/// The absolute value of a number.
pub open spec fn magnitude(x: int) -> int {
    if x < 0 {
        -x
    } else {
        x
    }
}

/// What coefficient `i` of `a` adds to coefficient `k` of a product with
/// `b`. As numbers, it is the magnitude of the product of the two
/// coefficients; as exponents, it is the power of `alpha` whose exponent is
/// the magnitude of their sum, taken modulo 255.
pub open spec fn pair_term(exponents: bool, a: Seq<i32>, b: Seq<i32>, k: int, i: int) -> i32 {
    if 0 <= i < a.len() && 0 <= k - i < b.len() {
        if exponents {
            alpha_pow((magnitude(a[i] + b[k - i]) % 255) as nat) as i32
        } else {
            magnitude(a[i] * b[k - i]) as i32
        }
    } else {
        0
    }
}

/// The exclusive or of what the first `upto` coefficients of `a` add to
/// coefficient `k` of a product with `b`.
pub open spec fn folded_terms(exponents: bool, a: Seq<i32>, b: Seq<i32>, k: int, upto: nat) -> i32
    decreases upto,
{
    if upto == 0 {
        0
    } else {
        folded_terms(exponents, a, b, k, (upto - 1) as nat) ^ pair_term(
            exponents,
            a,
            b,
            k,
            upto - 1,
        )
    }
}

/// The magnitude of every product of a coefficient of `a` with one of `b`
/// fits the coefficient type.
pub open spec fn products_fit(a: Seq<i32>, b: Seq<i32>) -> bool {
    forall|i: int, j: int|
        0 <= i < a.len() && 0 <= j < b.len() ==> -0x7fff_ffff <= #[trigger] (a[i] * b[j])
            <= 0x7fff_ffff
}

/// The magnitude of every sum of a coefficient of `a` with one of `b` fits
/// the coefficient type.
pub open spec fn sums_fit(a: Seq<i32>, b: Seq<i32>) -> bool {
    forall|i: int, j: int|
        0 <= i < a.len() && 0 <= j < b.len() ==> -0x7fff_ffff <= #[trigger] (a[i] + b[j])
            <= 0x7fff_ffff
}

proof fn lemma_folded_exponents_bound(a: Seq<i32>, b: Seq<i32>, k: int, upto: nat)
    ensures
        0 <= folded_terms(true, a, b, k, upto) <= 255,
    decreases upto,
{
    if upto > 0 {
        lemma_folded_exponents_bound(a, b, k, (upto - 1) as nat);
        let i = upto - 1;
        if 0 <= i < a.len() && 0 <= k - i < b.len() {
            lemma_log_table((magnitude(a[i] + b[k - i]) % 255) as nat);
        }
        lemma_xor_i32(
            folded_terms(true, a, b, k, (upto - 1) as nat),
            pair_term(true, a, b, k, upto - 1),
        );
    }
}

proof fn lemma_xor_zero(x: i32)
    by (bit_vector)
    ensures
        x ^ 0i32 == x,
{
}

/// A polynomial held as a list of numbers.
pub struct GeneratorPolynomial {
    coefficients: Vec<i32>,
}

impl View for GeneratorPolynomial {
    type V = Seq<i32>;

    closed spec fn view(&self) -> Seq<i32> {
        self.coefficients@
    }
}

impl GeneratorPolynomial {
    /// The polynomial with the given coefficients.
    pub fn from(coefficients: Vec<i32>) -> (poly: Self)
        ensures
            poly@ == coefficients@,
    {
        Self { coefficients }
    }

    /// The coefficients.
    pub fn get(&self) -> (coefficients: &Vec<i32>)
        ensures
            coefficients@ == self@,
    {
        &self.coefficients
    }

    /// The product of two polynomials whose coefficients are multiplied as
    /// numbers and gathered by exclusive or.
    pub fn multiply_galios_256(&self, other: &GeneratorPolynomial) -> (product: Self)
        requires
            self@.len() + other@.len() >= 1,
            self@.len() + other@.len() <= usize::MAX,
            products_fit(self@, other@),
        ensures
            product@.len() == self@.len() + other@.len() - 1,
            forall|k: int|
                0 <= k < product@.len() ==> #[trigger] product@[k] == folded_terms(
                    false,
                    self@,
                    other@,
                    k,
                    self@.len(),
                ),
    {
        let output = self.multiply_terms(other, false);
        Self { coefficients: output }
    }

    /// The product of two polynomials whose coefficients are exponents of
    /// `alpha`: the powers are gathered by exclusive or, and each sum is
    /// given as its logarithm, 255 for a sum of zero.
    pub fn multiply_as_exponents(&self, other: &GeneratorPolynomial) -> (product: Self)
        requires
            self@.len() + other@.len() >= 1,
            self@.len() + other@.len() <= usize::MAX,
            sums_fit(self@, other@),
        ensures
            product@.len() == self@.len() + other@.len() - 1,
            forall|k: int|
                0 <= k < product@.len() ==> #[trigger] product@[k] == field_log(
                    folded_terms(true, self@, other@, k, self@.len()) as int,
                ),
    {
        let mut output = self.multiply_terms(other, true);
        let ghost sums = output@;
        let total = output.len();
        let mut k: usize = 0;
        while k < total
            invariant
                k <= total,
                total == sums.len(),
                output@.len() == total,
                forall|t: int|
                    0 <= t < total ==> #[trigger] sums[t] == folded_terms(
                        true,
                        self@,
                        other@,
                        t,
                        self@.len(),
                    ),
                forall|t: int| 0 <= t < k ==> #[trigger] output@[t] == field_log(sums[t] as int),
                forall|t: int| k <= t < total ==> #[trigger] output@[t] == sums[t],
            decreases total - k,
        {
            proof {
                lemma_folded_exponents_bound(self@, other@, k as int, self@.len());
            }
            let value = output[k];
            output.set(k, get_antilog(value));
            k += 1;
        }
        Self { coefficients: output }
    }

    /// The coefficients of a product, each the exclusive or of the terms of
    /// its pairs.
    fn multiply_terms(&self, other: &GeneratorPolynomial, exponents: bool) -> (output: Vec<i32>)
        requires
            self@.len() + other@.len() >= 1,
            self@.len() + other@.len() <= usize::MAX,
            exponents ==> sums_fit(self@, other@),
            !exponents ==> products_fit(self@, other@),
        ensures
            output@.len() == self@.len() + other@.len() - 1,
            forall|k: int|
                0 <= k < output@.len() ==> #[trigger] output@[k] == folded_terms(
                    exponents,
                    self@,
                    other@,
                    k,
                    self@.len(),
                ),
    {
        let n = self.coefficients.len();
        let m = other.coefficients.len();
        let total: usize = n + m - 1;
        let ghost a = self@;
        let ghost b = other@;
        let mut output: Vec<i32> = Vec::new();
        let mut k: usize = 0;
        while k < total
            invariant
                k <= total,
                output@.len() == k,
                forall|t: int| 0 <= t < k ==> #[trigger] output@[t] == 0,
            decreases total - k,
        {
            output.push(0);
            k += 1;
        }
        let mut i: usize = 0;
        while i < n
            invariant
                i <= n,
                n == a.len(),
                m == b.len(),
                total == n + m - 1,
                a == self@,
                b == other@,
                exponents ==> sums_fit(a, b),
                !exponents ==> products_fit(a, b),
                output@.len() == total,
                forall|t: int|
                    0 <= t < total ==> #[trigger] output@[t] == folded_terms(
                        exponents,
                        a,
                        b,
                        t,
                        i as nat,
                    ),
            decreases n - i,
        {
            let mut j: usize = 0;
            while j < m
                invariant
                    j <= m,
                    i < n,
                    n == a.len(),
                    m == b.len(),
                    total == n + m - 1,
                    a == self@,
                    b == other@,
                    exponents ==> sums_fit(a, b),
                    !exponents ==> products_fit(a, b),
                    output@.len() == total,
                    forall|t: int|
                        0 <= t < total ==> #[trigger] output@[t] == (if i <= t < i + j {
                            folded_terms(exponents, a, b, t, (i + 1) as nat)
                        } else {
                            folded_terms(exponents, a, b, t, i as nat)
                        }),
                decreases m - j,
            {
                let coefficient: i32 = self.coefficients[i];
                let other_coeff: i32 = other.coefficients[j];
                let term: i32 = if exponents {
                    assert(-0x7fff_ffff <= a[i as int] + b[j as int] <= 0x7fff_ffff);
                    let sum: i32 = coefficient + other_coeff;
                    let size: i32 = if sum < 0 {
                        -sum
                    } else {
                        sum
                    };
                    galios_reduction((size % 255) as u32) as i32
                } else {
                    assert(-0x7fff_ffff <= a[i as int] * b[j as int] <= 0x7fff_ffff);
                    let product: i32 = coefficient * other_coeff;
                    if product < 0 {
                        -product
                    } else {
                        product
                    }
                };
                assert(term == pair_term(exponents, a, b, i + j, i as int));
                let current: i32 = output[i + j];
                output.set(i + j, current ^ term);
                j += 1;
            }
            proof {
                assert forall|t: int| 0 <= t < total implies #[trigger] output@[t] == folded_terms(
                    exponents,
                    a,
                    b,
                    t,
                    (i + 1) as nat,
                ) by {
                    if !(i <= t < i + m) {
                        lemma_xor_zero(folded_terms(exponents, a, b, t, i as nat));
                    }
                }
            }
            i += 1;
        }
        output
    }
}

} // verus!
