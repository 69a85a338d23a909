//! An append-only string of bits, packed into bytes with the first bit in
//! the most significant place, and its hexadecimal digits.

use super::bit::Bit;
use vstd::arithmetic::power2::lemma2_to64;
use vstd::arithmetic::power2::pow2;
use vstd::bits::lemma_u32_shr_is_div;
use vstd::prelude::*;
use vstd::string::StringExecFns;
use vstd::std_specs::convert::IntoSpec;

verus! {

/// The place value of bit `k` of a byte, counted from the most significant
/// bit: bit 0 weighs 128, bit 7 weighs 1.
pub open spec fn bit_weight(k: int) -> int {
    if k == 0 {
        128
    } else if k == 1 {
        64
    } else if k == 2 {
        32
    } else if k == 3 {
        16
    } else if k == 4 {
        8
    } else if k == 5 {
        4
    } else if k == 6 {
        2
    } else {
        1
    }
}

/// Bit `k` of a byte, counted from the most significant bit.
pub open spec fn byte_bit(b: u8, k: int) -> bool {
    b & (0x80u8 >> (k as u8)) != 0
}

/// The eight bits of a byte, most significant first.
pub open spec fn byte_bits(b: u8) -> Seq<bool> {
    Seq::new(8, |k: int| byte_bit(b, k))
}

/// The bits of a byte sequence, each byte most significant bit first.
pub open spec fn bytes_bits(bytes: Seq<u8>) -> Seq<bool> {
    Seq::new(8 * bytes.len(), |i: int| byte_bit(bytes[i / 8], i % 8))
}

/// What bit `start + k` of `bits` adds to the byte that begins at `start`;
/// positions past the end count as zero.
pub open spec fn bit_term(bits: Seq<bool>, start: int, k: int) -> int {
    if start + k < bits.len() && bits[start + k] {
        bit_weight(k)
    } else {
        0
    }
}

/// The byte packed from the eight bits of `bits` that begin at `start`, the
/// first of them in the most significant place, missing bits taken as zero.
pub open spec fn bits_to_byte(bits: Seq<bool>, start: int) -> int {
    bit_term(bits, start, 0) + bit_term(bits, start, 1) + bit_term(bits, start, 2) + bit_term(
        bits,
        start,
        3,
    ) + bit_term(bits, start, 4) + bit_term(bits, start, 5) + bit_term(bits, start, 6) + bit_term(
        bits,
        start,
        7,
    )
}

/// The big-endian packing of a bit sequence into bytes, the last byte padded
/// with zero bits.
pub open spec fn pack_bits(bits: Seq<bool>) -> Seq<u8> {
    Seq::new((bits.len() + 7) / 8, |i: int| bits_to_byte(bits, 8 * i) as u8)
}

/// The value of the four bits that begin at `start`, missing bits taken as
/// zero.
pub open spec fn nibble_value(bits: Seq<bool>, start: int) -> int {
    bit_term(bits, start - 4, 4) + bit_term(bits, start - 4, 5) + bit_term(bits, start - 4, 6)
        + bit_term(bits, start - 4, 7)
}

/// The upper-case hexadecimal digit of a value below sixteen.
pub open spec fn hex_digit(value: int) -> char {
    if value == 0 {
        '0'
    } else if value == 1 {
        '1'
    } else if value == 2 {
        '2'
    } else if value == 3 {
        '3'
    } else if value == 4 {
        '4'
    } else if value == 5 {
        '5'
    } else if value == 6 {
        '6'
    } else if value == 7 {
        '7'
    } else if value == 8 {
        '8'
    } else if value == 9 {
        '9'
    } else if value == 10 {
        'A'
    } else if value == 11 {
        'B'
    } else if value == 12 {
        'C'
    } else if value == 13 {
        'D'
    } else if value == 14 {
        'E'
    } else if value == 15 {
        'F'
    } else {
        '@'
    }
}

/// The hexadecimal digits of a bit sequence, one per started group of four
/// bits.
pub open spec fn hex_digits(bits: Seq<bool>) -> Seq<char> {
    Seq::new((bits.len() + 3) / 4, |i: int| hex_digit(nibble_value(bits, 4 * i)))
}

/// The text of a bit sequence: one `'0'` or `'1'` per bit.
pub open spec fn bits_text(bits: Seq<bool>) -> Seq<char> {
    Seq::new(
        bits.len(),
        |i: int|
            if bits[i] {
                '1'
            } else {
                '0'
            },
    )
}

/// The `width` low bits of `value`, most significant first.
pub open spec fn value_bits(value: nat, width: nat) -> Seq<bool> {
    Seq::new(width, |i: int| (value / pow2((width - 1 - i) as nat)) % 2 == 1)
}

/// `count` copies of one bit.
pub open spec fn repeated_bit(bit: bool, count: nat) -> Seq<bool> {
    Seq::new(count, |i: int| bit)
}

proof fn lemma_low_bit(x: u32)
    by (bit_vector)
    ensures
        (x & 1 != 0) == (x % 2 == 1),
{
}

proof fn lemma_byte_bit_div(b: u8)
    by (bit_vector)
    ensures
        (b & (0x80u8 >> 0u8) != 0) == ((b / 128) % 2 == 1),
        (b & (0x80u8 >> 1u8) != 0) == ((b / 64) % 2 == 1),
        (b & (0x80u8 >> 2u8) != 0) == ((b / 32) % 2 == 1),
        (b & (0x80u8 >> 3u8) != 0) == ((b / 16) % 2 == 1),
        (b & (0x80u8 >> 4u8) != 0) == ((b / 8) % 2 == 1),
        (b & (0x80u8 >> 5u8) != 0) == ((b / 4) % 2 == 1),
        (b & (0x80u8 >> 6u8) != 0) == ((b / 2) % 2 == 1),
        (b & (0x80u8 >> 7u8) != 0) == ((b / 1) % 2 == 1),
{
}

/// Bit `k` of a byte is the parity of the byte divided by the bit's weight.
pub proof fn lemma_byte_bit_arith(b: u8, k: int)
    requires
        0 <= k < 8,
    ensures
        byte_bit(b, k) == ((b as int / bit_weight(k)) % 2 == 1),
{
    lemma_byte_bit_div(b);
}

/// The bits of a byte are the eight low bits of its value.
pub proof fn lemma_byte_bits_are_value_bits(b: u8)
    ensures
        byte_bits(b) == value_bits(b as nat, 8),
{
    lemma2_to64();
    assert forall|k: int| 0 <= k < 8 implies byte_bits(b)[k] == value_bits(b as nat, 8)[k] by {
        lemma_byte_bit_arith(b, k);
    }
    assert(byte_bits(b) =~= value_bits(b as nat, 8));
}

proof fn lemma_mask_shapes(k: u8)
    by (bit_vector)
    requires
        k < 8,
    ensures
        1u8 << ((7 - k) as u8) == 0x80u8 >> k,
{
}

proof fn lemma_set_bit(b: u8, k: u8, m: u8)
    by (bit_vector)
    requires
        k < 8,
        m < 8,
    ensures
        ((b | (0x80u8 >> k)) & (0x80u8 >> m) != 0) == (m == k || (b & (0x80u8 >> m) != 0)),
        0u8 & (0x80u8 >> m) == 0,
{
}

proof fn lemma_byte_sum(b: u8)
    by (bit_vector)
    ensures
        b == (if b & (0x80u8 >> 0u8) != 0 {
            128u8
        } else {
            0u8
        }) + (if b & (0x80u8 >> 1u8) != 0 {
            64u8
        } else {
            0u8
        }) + (if b & (0x80u8 >> 2u8) != 0 {
            32u8
        } else {
            0u8
        }) + (if b & (0x80u8 >> 3u8) != 0 {
            16u8
        } else {
            0u8
        }) + (if b & (0x80u8 >> 4u8) != 0 {
            8u8
        } else {
            0u8
        }) + (if b & (0x80u8 >> 5u8) != 0 {
            4u8
        } else {
            0u8
        }) + (if b & (0x80u8 >> 6u8) != 0 {
            2u8
        } else {
            0u8
        }) + (if b & (0x80u8 >> 7u8) != 0 {
            1u8
        } else {
            0u8
        }),
{
}

/// A byte is the sum of the weights of its set bits.
pub proof fn lemma_byte_is_sum_of_bits(b: u8)
    ensures
        b as int == (if byte_bit(b, 0) {
            128int
        } else {
            0
        }) + (if byte_bit(b, 1) {
            64int
        } else {
            0
        }) + (if byte_bit(b, 2) {
            32int
        } else {
            0
        }) + (if byte_bit(b, 3) {
            16int
        } else {
            0
        }) + (if byte_bit(b, 4) {
            8int
        } else {
            0
        }) + (if byte_bit(b, 5) {
            4int
        } else {
            0
        }) + (if byte_bit(b, 6) {
            2int
        } else {
            0
        }) + (if byte_bit(b, 7) {
            1int
        } else {
            0
        }),
{
    lemma_byte_sum(b);
}

/// Packing the eight bits of a byte gives the byte back.
pub proof fn lemma_pack_byte_bits(bytes: Seq<u8>, i: int)
    requires
        0 <= i < bytes.len(),
    ensures
        bits_to_byte(bytes_bits(bytes), 8 * i) == bytes[i],
{
    let bits = bytes_bits(bytes);
    lemma_byte_is_sum_of_bits(bytes[i]);
    assert forall|k: int| 0 <= k < 8 implies #[trigger] bit_term(bits, 8 * i, k) == (if byte_bit(
        bytes[i],
        k,
    ) {
        bit_weight(k)
    } else {
        0
    }) by {
        assert((8 * i + k) / 8 == i);
        assert((8 * i + k) % 8 == k);
    }
    assert(bit_term(bits, 8 * i, 0) == if byte_bit(bytes[i], 0) { 128int } else { 0 });
    assert(bit_term(bits, 8 * i, 1) == if byte_bit(bytes[i], 1) { 64int } else { 0 });
    assert(bit_term(bits, 8 * i, 2) == if byte_bit(bytes[i], 2) { 32int } else { 0 });
    assert(bit_term(bits, 8 * i, 3) == if byte_bit(bytes[i], 3) { 16int } else { 0 });
    assert(bit_term(bits, 8 * i, 4) == if byte_bit(bytes[i], 4) { 8int } else { 0 });
    assert(bit_term(bits, 8 * i, 5) == if byte_bit(bytes[i], 5) { 4int } else { 0 });
    assert(bit_term(bits, 8 * i, 6) == if byte_bit(bytes[i], 6) { 2int } else { 0 });
    assert(bit_term(bits, 8 * i, 7) == if byte_bit(bytes[i], 7) { 1int } else { 0 });
}

/// An address past the end of a bit string.
#[derive(Debug, Clone, Copy, PartialEq, Eq, Structural)]
pub struct BitAddressOutOfBoundsError;

/// An append-only sequence of bits, packed into bytes with the first bit in
/// the most significant place of the first byte.
pub struct BitString {
    bits: Vec<u8>,
    bits_len: usize,
}

impl View for BitString {
    type V = Seq<bool>;

    closed spec fn view(&self) -> Seq<bool> {
        Seq::new(self.bits_len as nat, |i: int| byte_bit(self.bits@[i / 8], i % 8))
    }
}

impl BitString {
    /// The stored bytes number one per started group of eight bits, and the
    /// bits of the last byte past the end are zero.
    pub closed spec fn wf(&self) -> bool {
        &&& self.bits@.len() == (self.bits_len + 7) / 8
        &&& forall|i: int|
            self.bits_len <= i < 8 * self.bits@.len() ==> !#[trigger] byte_bit(
                self.bits@[i / 8],
                i % 8,
            )
    }

    /// The stored bytes.
    pub closed spec fn bytes(&self) -> Seq<u8> {
        self.bits@
    }

    /// Each stored byte is the byte packed from its eight bits.
    pub proof fn lemma_byte_at(&self, i: int)
        requires
            self.wf(),
            0 <= i < self.bytes().len(),
        ensures
            self.bytes()[i] as int == bits_to_byte(self@, 8 * i),
    {
        let bits = self@;
        let b = self.bits@[i];
        lemma_byte_is_sum_of_bits(b);
        assert forall|k: int| 0 <= k < 8 implies #[trigger] bit_term(bits, 8 * i, k) == (if byte_bit(
            b,
            k,
        ) {
            bit_weight(k)
        } else {
            0
        }) by {
            assert((8 * i + k) / 8 == i);
            assert((8 * i + k) % 8 == k);
            if 8 * i + k >= bits.len() {
                assert(!byte_bit(self.bits@[(8 * i + k) / 8], (8 * i + k) % 8));
            }
        }
        assert(bit_term(bits, 8 * i, 0) == if byte_bit(b, 0) { 128int } else { 0 });
        assert(bit_term(bits, 8 * i, 1) == if byte_bit(b, 1) { 64int } else { 0 });
        assert(bit_term(bits, 8 * i, 2) == if byte_bit(b, 2) { 32int } else { 0 });
        assert(bit_term(bits, 8 * i, 3) == if byte_bit(b, 3) { 16int } else { 0 });
        assert(bit_term(bits, 8 * i, 4) == if byte_bit(b, 4) { 8int } else { 0 });
        assert(bit_term(bits, 8 * i, 5) == if byte_bit(b, 5) { 4int } else { 0 });
        assert(bit_term(bits, 8 * i, 6) == if byte_bit(b, 6) { 2int } else { 0 });
        assert(bit_term(bits, 8 * i, 7) == if byte_bit(b, 7) { 1int } else { 0 });
    }

    /// The stored bytes are the packing of the bits.
    pub proof fn lemma_bytes_pack(&self)
        requires
            self.wf(),
        ensures
            self.bytes() == pack_bits(self@),
            self.bytes().len() == (self@.len() + 7) / 8,
    {
        assert forall|i: int| 0 <= i < self.bits@.len() implies self.bits@[i] == bits_to_byte(
            self@,
            8 * i,
        ) as u8 by {
            self.lemma_byte_at(i);
        }
        assert(self.bits@ =~= pack_bits(self@));
    }

    /// The empty bit string.
    pub fn new() -> (s: Self)
        ensures
            s.wf(),
            s@ == Seq::<bool>::empty(),
    {
        let s = Self { bits: Vec::new(), bits_len: 0 };
        assert(s@ =~= Seq::<bool>::empty());
        s
    }

    /// The bit string that holds the bits of `vector`, each byte most
    /// significant bit first.
    pub fn from_vec(vector: Vec<u8>) -> (s: Self)
        requires
            8 * vector.len() <= usize::MAX,
        ensures
            s.wf(),
            s@ == bytes_bits(vector@),
            s.bytes() == vector@,
    {
        let s = Self { bits_len: vector.len() * 8, bits: vector };
        assert(s@ =~= bytes_bits(vector@));
        s
    }

    /// Appends one bit.
    pub fn append(&mut self, bit: Bit)
        requires
            old(self).wf(),
            old(self)@.len() < usize::MAX,
        ensures
            final(self).wf(),
            final(self)@ == old(self)@.push(bit.as_bool()),
    {
        let bit_offset = self.bits_len % 8;
        if bit_offset == 0 {
            self.bits.push(0);
        }
        let last = self.bits.len() - 1;
        let ghost before = self.bits@;
        let byte = self.bits[last];
        proof {
            lemma_mask_shapes(bit_offset as u8);
            assert forall|m: u8| m < 8 implies (#[trigger] ((byte | (0x80u8 >> (bit_offset as u8)))
                & (0x80u8 >> m)) != 0) == (m == bit_offset as u8 || (byte & (0x80u8 >> m) != 0))
                && 0u8 & (0x80u8 >> m) == 0 by {
                lemma_set_bit(byte, bit_offset as u8, m);
            }
        }
        match bit {
            Bit::Zero => {},
            Bit::One => {
                self.bits.set(last, byte | (1u8 << (7 - bit_offset as u8)));
            },
        }
        self.bits_len += 1;
        proof {
            let old_bits = old(self)@;
            let new_bits = self@;
            let n = old(self).bits_len as int;
            assert(last == n / 8);
            assert forall|i: int| 0 <= i < new_bits.len() implies new_bits[i] == old_bits.push(
                bit.as_bool(),
            )[i] by {
                let m = (i % 8) as u8;
                assert(m < 8);
                if i / 8 == last {
                    if i < n {
                        assert(byte_bit(old(self).bits@[i / 8], i % 8) == old_bits[i]);
                    } else {
                        if bit_offset != 0 {
                            assert(!byte_bit(old(self).bits@[n / 8], n % 8));
                        }
                    }
                    assert(((byte | (0x80u8 >> (bit_offset as u8))) & (0x80u8 >> m)) != 0 == (m
                        == bit_offset as u8 || (byte & (0x80u8 >> m) != 0)));
                }
            }
            assert(new_bits =~= old_bits.push(bit.as_bool()));
            assert forall|i: int| self.bits_len <= i < 8 * self.bits@.len() implies !#[trigger] byte_bit(
                self.bits@[i / 8],
                i % 8,
            ) by {
                let m = (i % 8) as u8;
                assert(m < 8);
                assert(i / 8 == last);
                if bit_offset != 0 {
                    assert(!byte_bit(old(self).bits@[i / 8], i % 8));
                }
                assert(((byte | (0x80u8 >> (bit_offset as u8))) & (0x80u8 >> m)) != 0 == (m
                    == bit_offset as u8 || (byte & (0x80u8 >> m) != 0)));
            }
        }
    }

    /// Appends the bit that `bit` converts to.
    pub fn push_bit<B: Into<Bit>>(&mut self, bit: B)
        requires
            old(self).wf(),
            old(self)@.len() < usize::MAX,
        ensures
            final(self).wf(),
            final(self)@.len() == old(self)@.len() + 1,
            final(self)@.subrange(0, old(self)@.len() as int) == old(self)@,
            B::obeys_into_spec() ==> final(self)@ == old(self)@.push(bit.into_spec().as_bool()),
    {
        let b: Bit = bit.into();
        self.append(b);
        assert(self@.subrange(0, old(self)@.len() as int) =~= old(self)@);
    }

    /// Appends `times` copies of one bit.
    pub fn append_times(&mut self, bit: Bit, times: usize)
        requires
            old(self).wf(),
            old(self)@.len() + times <= usize::MAX,
        ensures
            final(self).wf(),
            final(self)@ == old(self)@ + repeated_bit(bit.as_bool(), times as nat),
    {
        let mut done: usize = 0;
        while done < times
            invariant
                done <= times,
                self.wf(),
                old(self)@.len() + times <= usize::MAX,
                self@ == old(self)@ + repeated_bit(bit.as_bool(), done as nat),
            decreases times - done,
        {
            self.append(bit);
            done += 1;
            assert(self@ =~= old(self)@ + repeated_bit(bit.as_bool(), done as nat));
        }
    }

    /// Appends `times` copies of the bit that `bit` converts to.
    pub fn push_bit_times<B: Into<Bit>, USIZE: Into<usize>>(&mut self, bit: B, times: USIZE)
        requires
            old(self).wf(),
            USIZE::obeys_into_spec(),
            old(self)@.len() + times.into_spec() <= usize::MAX,
        ensures
            final(self).wf(),
            final(self)@.len() == old(self)@.len() + times.into_spec(),
            B::obeys_into_spec() ==> final(self)@ == old(self)@ + repeated_bit(
                bit.into_spec().as_bool(),
                times.into_spec() as nat,
            ),
    {
        let b: Bit = bit.into();
        let count: usize = times.into();
        self.append_times(b, count);
    }

    /// Appends the `width` low bits of `value`, most significant first.
    pub fn append_value(&mut self, value: u32, width: usize)
        requires
            old(self).wf(),
            width <= 32,
            old(self)@.len() + width <= usize::MAX,
        ensures
            final(self).wf(),
            final(self)@ == old(self)@ + value_bits(value as nat, width as nat),
    {
        let mut i: usize = 0;
        while i < width
            invariant
                i <= width <= 32,
                self.wf(),
                old(self)@.len() + width <= usize::MAX,
                self@ == old(self)@ + value_bits(value as nat, width as nat).subrange(0, i as int),
            decreases width - i,
        {
            let shift: u32 = (width - 1 - i) as u32;
            let shifted: u32 = value >> shift;
            proof {
                lemma_u32_shr_is_div(value, shift);
                lemma_low_bit(shifted);
            }
            let bit = Bit::from_bool(shifted & 1 != 0);
            self.append(bit);
            i += 1;
            assert(self@ =~= old(self)@ + value_bits(value as nat, width as nat).subrange(
                0,
                i as int,
            ));
        }
        assert(value_bits(value as nat, width as nat).subrange(0, width as int) =~= value_bits(
            value as nat,
            width as nat,
        ));
    }

    /// Appends the eight bits of a byte, most significant first.
    pub fn append_byte(&mut self, byte: u8)
        requires
            old(self).wf(),
            old(self)@.len() + 8 <= usize::MAX,
        ensures
            final(self).wf(),
            final(self)@ == old(self)@ + byte_bits(byte),
    {
        proof {
            lemma_byte_bits_are_value_bits(byte);
        }
        self.append_value(byte as u32, 8);
    }

    /// Appends the eight bits of the byte that `byte` converts to.
    pub fn push_byte<U8: Into<u8>>(&mut self, byte: U8)
        requires
            old(self).wf(),
            old(self)@.len() + 8 <= usize::MAX,
        ensures
            final(self).wf(),
            final(self)@.len() == old(self)@.len() + 8,
            final(self)@.subrange(0, old(self)@.len() as int) == old(self)@,
            U8::obeys_into_spec() ==> final(self)@ == old(self)@ + byte_bits(byte.into_spec()),
    {
        let byte_to_push: u8 = byte.into();
        self.append_byte(byte_to_push);
        assert(self@.subrange(0, old(self)@.len() as int) =~= old(self)@);
    }

    /// The number of bits.
    pub fn len(&self) -> (n: usize)
        ensures
            n == self@.len(),
    {
        self.bits_len
    }

    /// The bit at `address`, or an error where `address` is past the end.
    pub fn get_bit(&self, address: usize) -> (r: Result<Bit, BitAddressOutOfBoundsError>)
        requires
            self.wf(),
        ensures
            address < self@.len() ==> r == Ok::<Bit, BitAddressOutOfBoundsError>(
                Bit::of_bool(self@[address as int]),
            ),
            address >= self@.len() ==> r.is_err(),
    {
        if address >= self.bits_len {
            return Err(BitAddressOutOfBoundsError);
        }
        let bit_address = address / 8;
        let bit_offset = address % 8;
        proof {
            lemma_mask_shapes(bit_offset as u8);
        }
        if self.bits[bit_address] & (1u8 << (7 - bit_offset as u8)) == 0 {
            Ok(Bit::Zero)
        } else {
            Ok(Bit::One)
        }
    }

    /// The byte at `index` of the packed bits.
    pub fn get_byte(&self, index: usize) -> (b: u8)
        requires
            self.wf(),
            8 * index < self@.len(),
        ensures
            b == bits_to_byte(self@, 8 * index),
            b == self.bytes()[index as int],
    {
        proof {
            self.lemma_byte_at(index as int);
        }
        self.bits[index]
    }

    /// The packed bytes.
    pub fn get_bytes(&self) -> (bytes: &Vec<u8>)
        requires
            self.wf(),
        ensures
            bytes@ == pack_bits(self@),
            bytes@ == self.bytes(),
    {
        proof {
            self.lemma_bytes_pack();
        }
        &self.bits
    }
}

/// The text in which a line of hexadecimal digits is shown: a space after
/// every second digit and a line break after every thirty-second, among
/// the first `upto` digits.
pub open spec fn hex_layout(digits: Seq<char>, upto: nat) -> Seq<char>
    decreases upto,
{
    if upto == 0 {
        Seq::<char>::empty()
    } else {
        hex_layout(digits, (upto - 1) as nat).push(digits[upto - 1]) + (if upto % 2 == 0 {
            seq![' ']
        } else {
            Seq::<char>::empty()
        }) + (if upto % 32 == 0 {
            seq!['\n']
        } else {
            Seq::<char>::empty()
        })
    }
}

/// The text of a run of hexadecimal digits: the digits laid out, and a
/// line break at the end.
pub open spec fn hex_text(digits: Seq<char>) -> Seq<char> {
    hex_layout(digits, digits.len()).push('\n')
}

/// The hexadecimal digits of a bit string.
pub struct HexStr(Vec<char>);

impl View for HexStr {
    type V = Seq<char>;

    closed spec fn view(&self) -> Seq<char> {
        self.0@
    }
}

/// The text of one character of a hexadecimal digit string; a character
/// that is no upper-case hexadecimal digit is shown as `@`.
fn digit_text(digit: char) -> (text: &'static str)
    ensures
        text@ == seq![
            if is_hex_digit(digit) {
                digit
            } else {
                '@'
            },
        ],
{
    proof {
        reveal_strlit("0");
        reveal_strlit("1");
        reveal_strlit("2");
        reveal_strlit("3");
        reveal_strlit("4");
        reveal_strlit("5");
        reveal_strlit("6");
        reveal_strlit("7");
        reveal_strlit("8");
        reveal_strlit("9");
        reveal_strlit("A");
        reveal_strlit("B");
        reveal_strlit("C");
        reveal_strlit("D");
        reveal_strlit("E");
        reveal_strlit("F");
        reveal_strlit("@");
    }
    if digit == '0' {
        assert("0"@ =~= seq!['0']);
        "0"
    }     else if digit == '1' {
        assert("1"@ =~= seq!['1']);
        "1"
    }     else if digit == '2' {
        assert("2"@ =~= seq!['2']);
        "2"
    }     else if digit == '3' {
        assert("3"@ =~= seq!['3']);
        "3"
    }     else if digit == '4' {
        assert("4"@ =~= seq!['4']);
        "4"
    }     else if digit == '5' {
        assert("5"@ =~= seq!['5']);
        "5"
    }     else if digit == '6' {
        assert("6"@ =~= seq!['6']);
        "6"
    }     else if digit == '7' {
        assert("7"@ =~= seq!['7']);
        "7"
    }     else if digit == '8' {
        assert("8"@ =~= seq!['8']);
        "8"
    }     else if digit == '9' {
        assert("9"@ =~= seq!['9']);
        "9"
    }     else if digit == 'A' {
        assert("A"@ =~= seq!['A']);
        "A"
    }     else if digit == 'B' {
        assert("B"@ =~= seq!['B']);
        "B"
    }     else if digit == 'C' {
        assert("C"@ =~= seq!['C']);
        "C"
    }     else if digit == 'D' {
        assert("D"@ =~= seq!['D']);
        "D"
    }     else if digit == 'E' {
        assert("E"@ =~= seq!['E']);
        "E"
    }     else if digit == 'F' {
        assert("F"@ =~= seq!['F']);
        "F"
    } else {
        assert("@"@ =~= seq!['@']);
        "@"
    }
}

/// Whether a character is an upper-case hexadecimal digit.
pub open spec fn is_hex_digit(c: char) -> bool {
    c == '0' || c == '1' || c == '2' || c == '3' || c == '4' || c == '5' || c == '6' || c == '7' || c == '8' || c == '9' || c == 'A' || c == 'B' || c == 'C' || c == 'D' || c == 'E' || c == 'F'
}

/// Every character is an upper-case hexadecimal digit.
pub open spec fn all_hex_digits(digits: Seq<char>) -> bool {
    forall|i: int| 0 <= i < digits.len() ==> is_hex_digit(#[trigger] digits[i])
}

impl HexStr {
    /// The digits hold nothing but upper-case hexadecimal digits.
    pub closed spec fn wf(&self) -> bool {
        all_hex_digits(self.0@)
    }

    /// The digits as text: a space after every second digit, a line break
    /// after every thirty-second, and a line break at the end.
    pub fn to_string(&self) -> (text: String)
        requires
            self.wf(),
        ensures
            text@ == hex_text(self@),
    {
        let mut text = String::new();
        let n = self.0.len();
        let mut i: usize = 0;
        proof {
            reveal_strlit(" ");
            reveal_strlit("\n");
        }
        assert(text@ =~= hex_layout(self@, 0));
        while i < n
            invariant
                i <= n,
                n == self.0@.len(),
                self.wf(),
                " "@ == seq![' '],
                "\n"@ == seq!['\n'],
                text@ == hex_layout(self@, i as nat),
            decreases n - i,
        {
            let ghost before = text@;
            text.append(digit_text(self.0[i]));
            i += 1;
            if i % 2 == 0 {
                text.append(" ");
            }
            if i % 32 == 0 {
                text.append("\n");
            }
            assert(text@ =~= hex_layout(self@, i as nat));
        }
        text.append("\n");
        assert(text@ =~= hex_text(self@));
        text
    }
}

impl BitString {
    /// The hexadecimal digits of the bits, one for each started group of
    /// four, missing bits taken as zero.
    pub fn as_hex(&self) -> (hex: HexStr)
        requires
            self.wf(),
            self@.len() + 4 <= usize::MAX,
        ensures
            hex.wf(),
            hex@ == hex_digits(self@),
    {
        let mut chars: Vec<char> = Vec::new();
        let n = self.len();
        let mut index: usize = 0;
        while index < n
            invariant
                index % 4 == 0,
                index <= n + 3,
                n == self@.len(),
                n + 4 <= usize::MAX,
                self.wf(),
                chars@.len() == index / 4,
                all_hex_digits(chars@),
                forall|k: int|
                    0 <= k < chars@.len() ==> #[trigger] chars@[k] == hex_digit(
                        nibble_value(self@, 4 * k),
                    ),
            decreases n + 3 - index,
        {
            let mut val: u8 = 0;
            let mut k: usize = 0;
            while k < 4
                invariant
                    k <= 4,
                    index % 4 == 0,
                    index < n,
                    n == self@.len(),
                    n + 4 <= usize::MAX,
                    self.wf(),
                    val as int == (if k >= 1 {
                        bit_term(self@, index - 4, 4)
                    } else {
                        0
                    }) + (if k >= 2 {
                        bit_term(self@, index - 4, 5)
                    } else {
                        0
                    }) + (if k >= 3 {
                        bit_term(self@, index - 4, 6)
                    } else {
                        0
                    }) + (if k >= 4 {
                        bit_term(self@, index - 4, 7)
                    } else {
                        0
                    }),
                decreases 4 - k,
            {
                let weight: u8 = if k == 0 {
                    8
                } else if k == 1 {
                    4
                } else if k == 2 {
                    2
                } else {
                    1
                };
                match self.get_bit(index + k) {
                    Ok(bit) => {
                        if bit.is_one() {
                            val = val + weight;
                        }
                    },
                    Err(_) => {},
                }
                k += 1;
            }
            let digit: char = if val == 0 {
                '0'
            } else if val == 1 {
                '1'
            } else if val == 2 {
                '2'
            } else if val == 3 {
                '3'
            } else if val == 4 {
                '4'
            } else if val == 5 {
                '5'
            } else if val == 6 {
                '6'
            } else if val == 7 {
                '7'
            } else if val == 8 {
                '8'
            } else if val == 9 {
                '9'
            } else if val == 10 {
                'A'
            } else if val == 11 {
                'B'
            } else if val == 12 {
                'C'
            } else if val == 13 {
                'D'
            } else if val == 14 {
                'E'
            } else {
                'F'
            };
            chars.push(digit);
            index += 4;
        }
        assert(chars@ =~= hex_digits(self@));
        HexStr(chars)
    }

    /// The bits as text, one `0` or `1` for each.
    pub fn to_string(&self) -> (text: String)
        requires
            self.wf(),
        ensures
            text@ == bits_text(self@),
    {
        let mut text = String::new();
        let n = self.len();
        let mut i: usize = 0;
        proof {
            reveal_strlit("0");
            reveal_strlit("1");
        }
        assert(text@ =~= bits_text(self@).subrange(0, 0));
        while i < n
            invariant
                i <= n,
                n == self@.len(),
                self.wf(),
                "0"@ == seq!['0'],
                "1"@ == seq!['1'],
                text@ == bits_text(self@).subrange(0, i as int),
            decreases n - i,
        {
            match self.get_bit(i) {
                Ok(bit) => {
                    if bit.is_one() {
                        text.append("1");
                    } else {
                        text.append("0");
                    }
                },
                Err(_) => {},
            }
            i += 1;
            assert(text@ =~= bits_text(self@).subrange(0, i as int));
        }
        assert(bits_text(self@).subrange(0, n as int) =~= bits_text(self@));
        text
    }
}

} // verus!
