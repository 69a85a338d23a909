//! Polynomials over GF(256), held as field elements or as exponents of
//! `alpha`.

use super::field::alpha_pow;
use super::field::exponent_to_value;
use super::field::exponent_value;
use super::field::field_add;
use super::field::field_log;
use super::field::field_mul;
use super::field::get_antilog;
use super::field::get_log;
use super::field::lemma_log_of_power;
use super::field::lemma_power_of_log;
use super::field::lemma_zero_sentinel;
use super::field::ZERO_EXPONENT;
use crate::bit_utils::bit_string::hex_digit;
use vstd::prelude::*;
use vstd::string::StringExecFns;

verus! {

/// Every entry lies in the byte range of a field element or exponent.
pub open spec fn is_field_seq(s: Seq<i32>) -> bool {
    forall|i: int| 0 <= i < s.len() ==> 0 <= #[trigger] s[i] <= 255
}

/// The entries of a sequence as mathematical integers.
pub open spec fn ints(s: Seq<i32>) -> Seq<int> {
    Seq::new(s.len(), |i: int| s[i] as int)
}

/// The field elements that a sequence of exponents stands for.
pub open spec fn exponents_to_values(s: Seq<int>) -> Seq<int> {
    Seq::new(s.len(), |i: int| exponent_value(s[i]))
}

/// The logarithms of a sequence of field elements.
pub open spec fn values_to_exponents(s: Seq<int>) -> Seq<int> {
    Seq::new(s.len(), |i: int| field_log(s[i]))
}

/// Coefficient `i` of a polynomial, zero past its end.
pub open spec fn coeff_or_zero(p: Seq<int>, i: int) -> int {
    if 0 <= i < p.len() {
        p[i]
    } else {
        0
    }
}

/// The coefficient-wise sum of two polynomials aligned at index 0, the
/// shorter one extended with zeros at its end.
pub open spec fn poly_xor(p: Seq<int>, q: Seq<int>) -> Seq<int> {
    Seq::new(
        if p.len() >= q.len() {
            p.len()
        } else {
            q.len()
        },
        |i: int| field_add(coeff_or_zero(p, i), coeff_or_zero(q, i)),
    )
}

/// Every coefficient of a polynomial multiplied by the field element `c`.
pub open spec fn poly_scale(p: Seq<int>, c: int) -> Seq<int> {
    Seq::new(p.len(), |i: int| field_mul(p[i], c))
}

/// What coefficient `i` of `p` adds to coefficient `k` of the product of `p`
/// and `q`.
pub open spec fn product_term(p: Seq<int>, q: Seq<int>, k: int, i: int) -> int {
    if 0 <= i < p.len() && 0 <= k - i < q.len() {
        field_mul(p[i], q[k - i])
    } else {
        0
    }
}

/// The sum of what the first `upto` coefficients of `p` add to coefficient
/// `k` of the product of `p` and `q`.
pub open spec fn product_coeff(p: Seq<int>, q: Seq<int>, k: int, upto: nat) -> int
    decreases upto,
{
    if upto == 0 {
        0
    } else {
        field_add(product_coeff(p, q, k, (upto - 1) as nat), product_term(p, q, k, upto - 1))
    }
}

/// The product of two polynomials over GF(256).
pub open spec fn poly_mul(p: Seq<int>, q: Seq<int>) -> Seq<int> {
    Seq::new((p.len() + q.len() - 1) as nat, |k: int| product_coeff(p, q, k, p.len()))
}

/// The polynomial without its leading zero coefficients.
pub open spec fn strip_leading_zeros(p: Seq<int>) -> Seq<int>
    decreases p.len(),
{
    if p.len() > 0 && p[0] == 0 {
        strip_leading_zeros(p.drop_first())
    } else {
        p
    }
}

/// A zero polynomial of the given length.
pub open spec fn zero_poly(len: nat) -> Seq<int> {
    Seq::new(len, |i: int| 0int)
}

/// The exclusive or of two field elements is their sum in the field.
pub proof fn lemma_xor_i32(a: i32, b: i32)
    by (bit_vector)
    requires
        0 <= a <= 255,
        0 <= b <= 255,
    ensures
        0 <= (a ^ b) <= 255,
        (a ^ b) == ((a as u8) ^ (b as u8)) as i32,
        0u8 ^ (b as u8) == b as u8,
        (a as u8) ^ 0u8 == a as u8,
{
}

/// Adding zero leaves a field element as it is.
pub proof fn lemma_add_zero(a: int)
    requires
        0 <= a <= 255,
    ensures
        field_add(a, 0) == a,
        field_add(0, a) == a,
{
    lemma_xor_i32(a as i32, a as i32);
}

/// Every partial sum of a product coefficient is a field element.
pub proof fn lemma_product_coeff_closed(p: Seq<int>, q: Seq<int>, k: int, upto: nat)
    ensures
        0 <= product_coeff(p, q, k, upto) <= 255,
    decreases upto,
{
    if upto > 0 {
        lemma_product_coeff_closed(p, q, k, (upto - 1) as nat);
    }
}

/// The coefficients of a polynomial, as stored.
pub struct PolynomialData(Vec<i32>);

impl View for PolynomialData {
    type V = Seq<i32>;

    closed spec fn view(&self) -> Seq<i32> {
        self.0@
    }
}

impl PolynomialData {
    /// Wraps a vector of coefficients.
    pub fn new(data: Vec<i32>) -> (wrapped: Self)
        ensures
            wrapped@ == data@,
    {
        Self(data)
    }

    /// The number of coefficients.
    pub fn len(&self) -> (n: usize)
        ensures
            n == self@.len(),
    {
        self.0.len()
    }

    /// The coefficients.
    pub fn get(&self) -> (data: &Vec<i32>)
        ensures
            data@ == self@,
    {
        &self.0
    }

    /// The coefficients, open to change.
    pub fn get_mut(&mut self) -> (data: &mut Vec<i32>)
        ensures
            data@ == old(self)@,
            final(self)@ == final(data)@,
    {
        &mut self.0
    }
}

/// How the stored numbers of a polynomial are to be read.
#[derive(Debug, Clone, Copy, PartialEq, Eq, Structural)]
pub enum Notation {
    /// Each number is a field element.
    Integer,
    /// Each number is the exponent of the power of `alpha` that the
    /// coefficient equals, 255 for a zero coefficient.
    Exponent,
}

/// A polynomial over GF(256), its coefficients held as field elements or as
/// exponents of `alpha`. Index 0 is the coefficient of the highest degree.
pub struct Polynomial {
    data: PolynomialData,
    notation: Notation,
}

impl View for Polynomial {
    type V = Seq<int>;

    /// The coefficients as field elements, whatever the notation.
    closed spec fn view(&self) -> Seq<int> {
        match self.notation {
            Notation::Integer => ints(self.data@),
            Notation::Exponent => exponents_to_values(ints(self.data@)),
        }
    }
}

impl Polynomial {
    /// Every stored number lies in the byte range.
    pub closed spec fn wf(&self) -> bool {
        is_field_seq(self.data@)
    }

    /// The notation in which the coefficients are held.
    pub closed spec fn notation(&self) -> Notation {
        self.notation
    }

    /// The numbers as stored.
    pub closed spec fn stored(&self) -> Seq<int> {
        ints(self.data@)
    }

    /// How the stored numbers relate to the coefficients: they are the
    /// coefficients themselves, or their logarithms.
    pub proof fn lemma_stored(&self)
        requires
            self.wf(),
        ensures
            self@.len() == self.stored().len(),
            forall|i: int| 0 <= i < self@.len() ==> 0 <= #[trigger] self@[i] <= 255,
            forall|i: int| 0 <= i < self@.len() ==> 0 <= #[trigger] self.stored()[i] <= 255,
            self.notation() == Notation::Integer ==> self.stored() == self@,
            self.notation() == Notation::Exponent ==> self.stored() == values_to_exponents(self@),
            self.notation() == Notation::Exponent ==> self@ == exponents_to_values(self.stored()),
    {
        lemma_zero_sentinel();
        if self.notation == Notation::Exponent {
            assert(self.stored() =~= values_to_exponents(self@));
        }
    }

    /// The polynomial with the given field elements as its coefficients.
    pub fn from_integer_notation(data: Vec<i32>) -> (poly: Self)
        requires
            is_field_seq(data@),
        ensures
            poly.wf(),
            poly.notation() == Notation::Integer,
            poly@ == ints(data@),
    {
        Self { data: PolynomialData::new(data), notation: Notation::Integer }
    }

    /// The polynomial whose coefficients are the powers of `alpha` with the
    /// given exponents, 255 standing for a zero coefficient.
    pub fn from_exponent_notation(data: Vec<i32>) -> (poly: Self)
        requires
            is_field_seq(data@),
        ensures
            poly.wf(),
            poly.notation() == Notation::Exponent,
            poly@ == exponents_to_values(ints(data@)),
    {
        Self { data: PolynomialData::new(data), notation: Notation::Exponent }
    }

    /// The number of coefficients.
    pub fn len(&self) -> (n: usize)
        ensures
            n == self@.len(),
    {
        self.data.len()
    }

    /// Turns the stored numbers into exponents. The polynomial stays the
    /// same.
    pub fn convert_to_exponent_notation(&mut self)
        requires
            old(self).wf(),
        ensures
            final(self).wf(),
            final(self).notation() == Notation::Exponent,
            final(self)@ == old(self)@,
    {
        match self.notation {
            Notation::Integer => {
                let converted = self.as_exponent_notation();
                *self = converted;
            },
            Notation::Exponent => {},
        }
    }

    /// Turns the stored numbers into field elements. The polynomial stays
    /// the same.
    pub fn convert_to_integer_notation(&mut self)
        requires
            old(self).wf(),
        ensures
            final(self).wf(),
            final(self).notation() == Notation::Integer,
            final(self)@ == old(self)@,
    {
        match self.notation {
            Notation::Exponent => {
                let converted = self.as_integer_notation();
                *self = converted;
            },
            Notation::Integer => {},
        }
    }

    /// A copy of the polynomial.
    pub fn duplicate(&self) -> (copy: Self)
        ensures
            copy@ == self@,
            copy.notation() == self.notation(),
            copy.wf() == self.wf(),
            copy.stored() == self.stored(),
    {
        let mut output: Vec<i32> = Vec::new();
        let source = self.data.get();
        let mut i: usize = 0;
        while i < source.len()
            invariant
                i <= source@.len(),
                source@ == self.data@,
                output@ == source@.subrange(0, i as int),
            decreases source@.len() - i,
        {
            output.push(source[i]);
            i += 1;
            assert(output@ =~= source@.subrange(0, i as int));
        }
        assert(output@ =~= self.data@);
        Self { data: PolynomialData::new(output), notation: self.notation }
    }

    /// The same polynomial, held in exponent notation.
    pub fn as_exponent_notation(&self) -> (poly: Self)
        requires
            self.wf(),
        ensures
            poly.wf(),
            poly.notation() == Notation::Exponent,
            poly@ == self@,
    {
        match self.notation {
            Notation::Integer => {
                let source = self.data.get();
                let mut output: Vec<i32> = Vec::new();
                let mut i: usize = 0;
                while i < source.len()
                    invariant
                        i <= source@.len(),
                        source@ == self.data@,
                        is_field_seq(source@),
                        output@.len() == i,
                        forall|k: int|
                            0 <= k < i ==> #[trigger] output@[k] == field_log(source@[k] as int),
                        is_field_seq(output@),
                    decreases source@.len() - i,
                {
                    output.push(get_antilog(source[i]));
                    i += 1;
                }
                let poly = Self { data: PolynomialData::new(output), notation: Notation::Exponent };
                proof {
                    lemma_zero_sentinel();
                    assert(poly@ =~= self@);
                }
                poly
            },
            Notation::Exponent => self.duplicate(),
        }
    }

    /// The same polynomial, held in integer notation.
    pub fn as_integer_notation(&self) -> (poly: Self)
        requires
            self.wf(),
        ensures
            poly.wf(),
            poly.notation() == Notation::Integer,
            poly@ == self@,
    {
        match self.notation {
            Notation::Exponent => {
                let source = self.data.get();
                let mut output: Vec<i32> = Vec::new();
                let mut i: usize = 0;
                while i < source.len()
                    invariant
                        i <= source@.len(),
                        source@ == self.data@,
                        is_field_seq(source@),
                        output@.len() == i,
                        forall|k: int|
                            0 <= k < i ==> #[trigger] output@[k] == exponent_value(
                                source@[k] as int,
                            ),
                        is_field_seq(output@),
                    decreases source@.len() - i,
                {
                    output.push(exponent_to_value(source[i]));
                    i += 1;
                }
                let poly = Self { data: PolynomialData::new(output), notation: Notation::Integer };
                proof {
                    assert(poly@ =~= self@);
                }
                poly
            },
            Notation::Integer => self.duplicate(),
        }
    }

    /// The product of the two polynomials, in integer notation. Both
    /// operands are left in exponent notation.
    pub fn multiply(&mut self, other: &mut Polynomial) -> (product: Self)
        requires
            old(self).wf(),
            old(other).wf(),
            old(self)@.len() + old(other)@.len() >= 1,
            old(self)@.len() + old(other)@.len() <= usize::MAX,
        ensures
            final(self).wf(),
            final(other).wf(),
            final(self)@ == old(self)@,
            final(other)@ == old(other)@,
            final(self).notation() == Notation::Exponent,
            final(other).notation() == Notation::Exponent,
            product.wf(),
            product.notation() == Notation::Integer,
            product@ == poly_mul(old(self)@, old(other)@),
    {
        self.convert_to_exponent_notation();
        other.convert_to_exponent_notation();
        let ghost p = self@;
        let ghost q = other@;
        proof {
            self.lemma_stored();
            other.lemma_stored();
        }
        let n = self.len();
        let m = other.len();
        let total: usize = n + m - 1;
        let mut output: Vec<i32> = Vec::new();
        let mut k: usize = 0;
        while k < total
            invariant
                k <= total,
                output@.len() == k,
                forall|t: int| 0 <= t < k ==> #[trigger] output@[t] == 0,
            decreases total - k,
        {
            output.push(0);
            k += 1;
        }
        let left = self.data.get();
        let right = other.data.get();
        let mut i: usize = 0;
        while i < n
            invariant
                i <= n,
                n == p.len(),
                m == q.len(),
                total == n + m - 1,
                left@ == self.data@,
                right@ == other.data@,
                left@.len() == n,
                right@.len() == m,
                self.wf(),
                other.wf(),
                self@ == p,
                other@ == q,
                self.notation() == Notation::Exponent,
                other.notation() == Notation::Exponent,
                self.stored() == values_to_exponents(p),
                other.stored() == values_to_exponents(q),
                forall|t: int| 0 <= t < p.len() ==> 0 <= #[trigger] p[t] <= 255,
                forall|t: int| 0 <= t < q.len() ==> 0 <= #[trigger] q[t] <= 255,
                output@.len() == total,
                forall|t: int|
                    0 <= t < total ==> #[trigger] output@[t] == product_coeff(p, q, t, i as nat),
            decreases n - i,
        {
            let mut j: usize = 0;
            while j < m
                invariant
                    j <= m,
                    i < n,
                    n == p.len(),
                    m == q.len(),
                    total == n + m - 1,
                    left@ == self.data@,
                    right@ == other.data@,
                    left@.len() == n,
                    right@.len() == m,
                    self.wf(),
                    other.wf(),
                    self.stored() == values_to_exponents(p),
                    other.stored() == values_to_exponents(q),
                    forall|t: int| 0 <= t < p.len() ==> 0 <= #[trigger] p[t] <= 255,
                    forall|t: int| 0 <= t < q.len() ==> 0 <= #[trigger] q[t] <= 255,
                    output@.len() == total,
                    forall|t: int|
                        0 <= t < total ==> #[trigger] output@[t] == (if i <= t < i + j {
                            product_coeff(p, q, t, (i + 1) as nat)
                        } else {
                            product_coeff(p, q, t, i as nat)
                        }),
                decreases m - j,
            {
                let a: i32 = left[i];
                let b: i32 = right[j];
                assert(a == self.stored()[i as int]);
                assert(b == other.stored()[j as int]);
                let term: i32 = if a == ZERO_EXPONENT || b == ZERO_EXPONENT {
                    0
                } else {
                    get_log((a + b) % 255)
                };
                proof {
                    lemma_zero_sentinel();
                    if p[i as int] != 0 {
                        lemma_power_of_log(p[i as int]);
                    }
                    if q[j as int] != 0 {
                        lemma_power_of_log(q[j as int]);
                    }
                    assert(term == field_mul(p[i as int], q[j as int]));
                    assert(term == product_term(p, q, i + j, i as int));
                    lemma_product_coeff_closed(p, q, i + j, i as nat);
                    lemma_xor_i32(output@[i + j], term);
                }
                let current: i32 = output[i + j];
                output.set(i + j, current ^ term);
                j += 1;
            }
            proof {
                assert forall|t: int| 0 <= t < total implies #[trigger] output@[t] == product_coeff(
                    p,
                    q,
                    t,
                    (i + 1) as nat,
                ) by {
                    if !(i <= t < i + m) {
                        lemma_product_coeff_closed(p, q, t, i as nat);
                        lemma_add_zero(product_coeff(p, q, t, i as nat));
                    }
                }
            }
            i += 1;
        }
        proof {
            assert forall|t: int| 0 <= t < total implies 0 <= #[trigger] output@[t] <= 255 by {
                lemma_product_coeff_closed(p, q, t, n as nat);
            }
        }
        let product = Self { data: PolynomialData::new(output), notation: Notation::Integer };
        assert(product@ =~= poly_mul(p, q));
        product
    }

    /// The coefficient-wise sum of the two polynomials, in integer notation.
    /// Both operands are left in integer notation.
    pub fn xor(&mut self, other: &mut Polynomial) -> (sum: Self)
        requires
            old(self).wf(),
            old(other).wf(),
        ensures
            final(self).wf(),
            final(other).wf(),
            final(self)@ == old(self)@,
            final(other)@ == old(other)@,
            final(self).notation() == Notation::Integer,
            final(other).notation() == Notation::Integer,
            sum.wf(),
            sum.notation() == Notation::Integer,
            sum@ == poly_xor(old(self)@, old(other)@),
    {
        self.convert_to_integer_notation();
        other.convert_to_integer_notation();
        let ghost p = self@;
        let ghost q = other@;
        proof {
            self.lemma_stored();
            other.lemma_stored();
        }
        let left = self.data.get();
        let right = other.data.get();
        let n = left.len();
        let m = right.len();
        let mut output: Vec<i32> = Vec::new();
        let mut i: usize = 0;
        while i < n || i < m
            invariant
                i <= n || i <= m,
                n == p.len(),
                m == q.len(),
                left@ == self.data@,
                right@ == other.data@,
                self.stored() == p,
                other.stored() == q,
                forall|t: int| 0 <= t < p.len() ==> 0 <= #[trigger] p[t] <= 255,
                forall|t: int| 0 <= t < q.len() ==> 0 <= #[trigger] q[t] <= 255,
                output@.len() == i,
                forall|t: int|
                    0 <= t < i ==> #[trigger] output@[t] == field_add(
                        coeff_or_zero(p, t),
                        coeff_or_zero(q, t),
                    ),
                is_field_seq(output@),
            decreases (if n >= m {
                n
            } else {
                m
            }) - i,
        {
            let a: i32 = if i < n {
                left[i]
            } else {
                0
            };
            let b: i32 = if i < m {
                right[i]
            } else {
                0
            };
            proof {
                assert(i < n ==> a == self.stored()[i as int]);
                assert(i < m ==> b == other.stored()[i as int]);
                lemma_xor_i32(a, b);
            }
            output.push(a ^ b);
            i += 1;
        }
        let sum = Self { data: PolynomialData::new(output), notation: Notation::Integer };
        assert(sum@ =~= poly_xor(p, q));
        sum
    }

    /// The polynomial multiplied by the power of `alpha` with the given
    /// exponent, where 255 stands for a zero factor. The product is in
    /// exponent notation, or a zero polynomial in integer notation for a
    /// zero factor; the operand is left in exponent notation unless the
    /// factor is zero.
    pub fn multiply_by_exponent(&mut self, exponent: i32) -> (product: Self)
        requires
            old(self).wf(),
            0 <= exponent <= 255,
        ensures
            final(self).wf(),
            final(self)@ == old(self)@,
            product.wf(),
            product@ == poly_scale(old(self)@, exponent_value(exponent as int)),
            product.notation() == (if exponent == 255 {
                Notation::Integer
            } else {
                Notation::Exponent
            }),
    {
        if exponent == ZERO_EXPONENT {
            let n = self.len();
            let mut zeros: Vec<i32> = Vec::new();
            let mut k: usize = 0;
            while k < n
                invariant
                    k <= n,
                    zeros@.len() == k,
                    forall|t: int| 0 <= t < k ==> #[trigger] zeros@[t] == 0,
                decreases n - k,
            {
                zeros.push(0);
                k += 1;
            }
            let product = Self { data: PolynomialData::new(zeros), notation: Notation::Integer };
            assert(product@ =~= poly_scale(self@, 0));
            return product;
        }
        self.convert_to_exponent_notation();
        let ghost p = self@;
        proof {
            self.lemma_stored();
            lemma_log_of_power(exponent as int);
        }
        let source = self.data.get();
        let mut output: Vec<i32> = Vec::new();
        let mut i: usize = 0;
        while i < source.len()
            invariant
                i <= source@.len(),
                source@ == self.data@,
                source@.len() == p.len(),
                0 <= exponent < 255,
                self.stored() == values_to_exponents(p),
                forall|t: int| 0 <= t < p.len() ==> 0 <= #[trigger] p[t] <= 255,
                forall|t: int| 0 <= t < p.len() ==> 0 <= #[trigger] self.stored()[t] <= 255,
                field_log(alpha_pow(exponent as nat) as int) == exponent,
                1 <= alpha_pow(exponent as nat) <= 255,
                output@.len() == i,
                is_field_seq(output@),
                forall|t: int|
                    0 <= t < i ==> exponent_value(#[trigger] output@[t] as int) == field_mul(
                        p[t],
                        exponent_value(exponent as int),
                    ),
            decreases source@.len() - i,
        {
            let e: i32 = source[i];
            assert(e == self.stored()[i as int]);
            let scaled: i32 = if e == ZERO_EXPONENT {
                ZERO_EXPONENT
            } else {
                (e + exponent) % 255
            };
            proof {
                lemma_zero_sentinel();
                if p[i as int] != 0 {
                    lemma_power_of_log(p[i as int]);
                }
            }
            output.push(scaled);
            i += 1;
        }
        let product = Self { data: PolynomialData::new(output), notation: Notation::Exponent };
        assert(product@ =~= poly_scale(p, exponent_value(exponent as int)));
        product
    }

    /// Removes every leading zero coefficient. The polynomial is left in
    /// integer notation.
    pub fn drop_leading_zeros(&mut self)
        requires
            old(self).wf(),
        ensures
            final(self).wf(),
            final(self).notation() == Notation::Integer,
            final(self)@ == strip_leading_zeros(old(self)@),
    {
        self.convert_to_integer_notation();
        let ghost p = self@;
        proof {
            self.lemma_stored();
        }
        let source = self.data.get();
        let n = source.len();
        let mut start: usize = 0;
        assert(p.subrange(0, n as int) =~= p);
        while start < n && source[start] == 0
            invariant
                start <= n,
                n == p.len(),
                n == source@.len(),
                source@ == self.data@,
                self.stored() == p,
                strip_leading_zeros(p) == strip_leading_zeros(p.subrange(start as int, n as int)),
            decreases n - start,
        {
            proof {
                let rest = p.subrange(start as int, n as int);
                assert(rest[0] == self.stored()[start as int]);
                assert(rest.drop_first() =~= p.subrange(start + 1, n as int));
            }
            start += 1;
        }
        let mut output: Vec<i32> = Vec::new();
        let mut index: usize = start;
        while index < n
            invariant
                start <= index <= n,
                n == p.len(),
                n == source@.len(),
                source@ == self.data@,
                is_field_seq(source@),
                output@ == source@.subrange(start as int, index as int),
            decreases n - index,
        {
            output.push(source[index]);
            index += 1;
            assert(output@ =~= source@.subrange(start as int, index as int));
        }
        proof {
            let rest = p.subrange(start as int, n as int);
            if start < n {
                assert(rest[0] == self.stored()[start as int]);
            }
            assert(strip_leading_zeros(rest) == rest);
            assert(ints(output@) =~= rest);
        }
        self.data = PolynomialData::new(output);
    }

    /// Removes the leading coefficient where it is zero, and says whether it
    /// did. The polynomial is left in integer notation.
    pub fn drop_leading_zero(&mut self) -> (dropped: bool)
        requires
            old(self).wf(),
        ensures
            final(self).wf(),
            final(self).notation() == Notation::Integer,
            dropped == (old(self)@.len() > 0 && old(self)@[0] == 0),
            dropped ==> final(self)@ == old(self)@.drop_first(),
            !dropped ==> final(self)@ == old(self)@,
    {
        self.convert_to_integer_notation();
        let ghost p = self@;
        proof {
            self.lemma_stored();
        }
        let source = self.data.get();
        let n = source.len();
        if n == 0 {
            return false;
        }
        assert(source@[0] == self.stored()[0]);
        if source[0] != 0 {
            return false;
        }
        let mut output: Vec<i32> = Vec::new();
        let mut index: usize = 1;
        while index < n
            invariant
                1 <= index <= n,
                n == p.len(),
                n == source@.len(),
                source@ == self.data@,
                is_field_seq(source@),
                output@ == source@.subrange(1, index as int),
            decreases n - index,
        {
            output.push(source[index]);
            index += 1;
            assert(output@ =~= source@.subrange(1, index as int));
        }
        proof {
            assert(ints(output@) =~= p.drop_first());
        }
        self.data = PolynomialData::new(output);
        true
    }

    /// The coefficients as field elements.
    pub fn get_as_integer_vec(&mut self) -> (values: Vec<i32>)
        requires
            old(self).wf(),
        ensures
            *final(self) == *old(self),
            ints(values@) == old(self)@,
            is_field_seq(values@),
    {
        let converted = self.as_integer_notation();
        proof {
            converted.lemma_stored();
        }
        let source = converted.data.get();
        let mut output: Vec<i32> = Vec::new();
        let mut i: usize = 0;
        while i < source.len()
            invariant
                i <= source@.len(),
                output@ == source@.subrange(0, i as int),
            decreases source@.len() - i,
        {
            output.push(source[i]);
            i += 1;
            assert(output@ =~= source@.subrange(0, i as int));
        }
        assert(output@ =~= source@);
        assert(ints(output@) =~= self@);
        output
    }

    /// The coefficients as exponents of `alpha`, 255 for a zero coefficient.
    pub fn get_as_exponent_vec(&mut self) -> (exponents: Vec<i32>)
        requires
            old(self).wf(),
        ensures
            *final(self) == *old(self),
            ints(exponents@) == values_to_exponents(old(self)@),
            is_field_seq(exponents@),
    {
        let converted = self.as_exponent_notation();
        proof {
            converted.lemma_stored();
        }
        let source = converted.data.get();
        let mut output: Vec<i32> = Vec::new();
        let mut i: usize = 0;
        while i < source.len()
            invariant
                i <= source@.len(),
                output@ == source@.subrange(0, i as int),
            decreases source@.len() - i,
        {
            output.push(source[i]);
            i += 1;
            assert(output@ =~= source@.subrange(0, i as int));
        }
        assert(output@ =~= source@);
        assert(ints(output@) =~= values_to_exponents(self@));
        output
    }
}

/// The decimal digits of a number below 256, without leading zeros.
pub open spec fn decimal_text(n: int) -> Seq<char> {
    if n < 10 {
        seq![hex_digit(n)]
    } else if n < 100 {
        seq![hex_digit(n / 10), hex_digit(n % 10)]
    } else {
        seq![hex_digit(n / 100), hex_digit((n / 10) % 10), hex_digit(n % 10)]
    }
}

/// The first `upto` numbers in decimal, a comma and a space between two
/// of them.
pub open spec fn list_text(numbers: Seq<int>, upto: nat) -> Seq<char>
    decreases upto,
{
    if upto == 0 {
        Seq::empty()
    } else if upto == 1 {
        decimal_text(numbers[0])
    } else {
        list_text(numbers, (upto - 1) as nat) + seq![',', ' '] + decimal_text(numbers[upto - 1])
    }
}

/// The name of a notation.
pub open spec fn notation_text(notation: Notation) -> Seq<char> {
    match notation {
        Notation::Integer => seq!['I', 'n', 't', 'e', 'g', 'e', 'r'],
        Notation::Exponent => seq!['E', 'x', 'p', 'o', 'n', 'e', 'n', 't'],
    }
}

/// The text of a polynomial: its stored numbers in square brackets, the
/// name of its notation, and a line break.
pub open spec fn polynomial_text(numbers: Seq<int>, notation: Notation) -> Seq<char> {
    seq!['['] + list_text(numbers, numbers.len()) + seq![
        ']',
        ' ',
        'N',
        'o',
        't',
        'a',
        't',
        'i',
        'o',
        'n',
        ':',
        ' ',
    ] + notation_text(notation) + seq!['\n']
}

/// The text of one decimal digit.
fn decimal_digit_text(digit: i32) -> (text: &'static str)
    requires
        0 <= digit <= 9,
    ensures
        text@ == seq![hex_digit(digit as int)],
{
    proof {
        reveal_strlit("0");
        reveal_strlit("1");
        reveal_strlit("2");
        reveal_strlit("3");
        reveal_strlit("4");
        reveal_strlit("5");
        reveal_strlit("6");
        reveal_strlit("7");
        reveal_strlit("8");
        reveal_strlit("9");
    }
    let text = if digit == 0 {
        "0"
    } else if digit == 1 {
        "1"
    } else if digit == 2 {
        "2"
    } else if digit == 3 {
        "3"
    } else if digit == 4 {
        "4"
    } else if digit == 5 {
        "5"
    } else if digit == 6 {
        "6"
    } else if digit == 7 {
        "7"
    } else if digit == 8 {
        "8"
    } else {
        "9"
    };
    assert(text@ =~= seq![hex_digit(digit as int)]);
    text
}

/// Appends a number below 256 in decimal.
fn append_decimal(text: &mut String, number: i32)
    requires
        0 <= number <= 255,
    ensures
        final(text)@ == old(text)@ + decimal_text(number as int),
{
    let ghost before = text@;
    if number >= 100 {
        text.append(decimal_digit_text(number / 100));
        text.append(decimal_digit_text((number / 10) % 10));
    } else if number >= 10 {
        text.append(decimal_digit_text(number / 10));
    }
    text.append(decimal_digit_text(number % 10));
    assert(text@ =~= before + decimal_text(number as int));
}

impl Polynomial {
    /// The polynomial as text: the stored numbers in square brackets,
    /// then the notation in which they are held.
    pub fn to_string(&self) -> (text: String)
        requires
            self.wf(),
        ensures
            text@ == polynomial_text(self.stored(), self.notation()),
    {
        proof {
            reveal_strlit("[");
            reveal_strlit(", ");
            reveal_strlit("] Notation: ");
            reveal_strlit("Integer");
            reveal_strlit("Exponent");
            reveal_strlit("\n");
        }
        let numbers = self.data.get();
        let n = numbers.len();
        let mut text = String::new();
        text.append("[");
        let mut i: usize = 0;
        assert(text@ =~= seq!['['] + list_text(self.stored(), 0));
        while i < n
            invariant
                i <= n,
                n == numbers@.len(),
                numbers@ == self.data@,
                self.wf(),
                ", "@ == seq![',', ' '],
                text@ == seq!['['] + list_text(self.stored(), i as nat),
            decreases n - i,
        {
            if i > 0 {
                text.append(", ");
            }
            append_decimal(&mut text, numbers[i]);
            i += 1;
            assert(text@ =~= seq!['['] + list_text(self.stored(), i as nat));
        }
        text.append("] Notation: ");
        match self.notation {
            Notation::Integer => text.append("Integer"),
            Notation::Exponent => text.append("Exponent"),
        }
        text.append("\n");
        assert(text@ =~= polynomial_text(self.stored(), self.notation()));
        text
    }
}

} // verus!
