//! The bits of a segment: mode indicator, character count, data,
//! terminator and padding.

use super::mode::all_character_values;
use super::mode::count_indicator_width;
use super::mode::data_bit_count;
use super::mode::encoded_length;
use super::mode::mode_indicator;
use super::mode::Mode;
use crate::bit_utils::bit::Bit;
use crate::bit_utils::bit_string::byte_bit;
use crate::bit_utils::bit_string::byte_bits;
use crate::bit_utils::bit_string::bytes_bits;
use crate::bit_utils::bit_string::value_bits;
use crate::bit_utils::bit_string::BitString;
use vstd::prelude::*;

verus! {

/// The bits of a run of digits: ten bits for each group of three, seven
/// for a last group of two, four for a last single digit.
pub open spec fn numeric_bits(digits: Seq<u8>) -> Seq<bool>
    decreases digits.len(),
{
    if digits.len() == 0 {
        Seq::<bool>::empty()
    } else if digits.len() == 1 {
        value_bits(digits[0] as nat, 4)
    } else if digits.len() == 2 {
        value_bits((10 * digits[0] + digits[1]) as nat, 7)
    } else {
        value_bits((100 * digits[0] + 10 * digits[1] + digits[2]) as nat, 10) + numeric_bits(
            digits.subrange(3, digits.len() as int),
        )
    }
}

/// The bits of a run of alphanumeric values: eleven bits for each pair,
/// six for a last single value.
pub open spec fn alphanumeric_bits(values: Seq<u8>) -> Seq<bool>
    decreases values.len(),
{
    if values.len() == 0 {
        Seq::<bool>::empty()
    } else if values.len() == 1 {
        value_bits(values[0] as nat, 6)
    } else {
        value_bits((45 * values[0] + values[1]) as nat, 11) + alphanumeric_bits(
            values.subrange(2, values.len() as int),
        )
    }
}

/// The data bits of the character values of a mode.
pub open spec fn data_bits(mode: Mode, data: Seq<u8>) -> Seq<bool> {
    match mode {
        Mode::Numeric => numeric_bits(data),
        Mode::Alphanumeric => alphanumeric_bits(data),
        Mode::Byte => bytes_bits(data),
    }
}

/// A segment: the mode indicator, the character count, and the data bits.
pub open spec fn segment_bits(mode: Mode, data: Seq<u8>, version: int) -> Seq<bool> {
    value_bits(mode_indicator(mode) as nat, 4) + value_bits(
        data.len(),
        count_indicator_width(mode, version) as nat,
    ) + data_bits(mode, data)
}

/// Where the pad codewords begin in a stream of `capacity` bits whose
/// segment has `len` bits: after a terminator of up to four bits, as far as
/// the capacity lets it go, at the next byte boundary.
pub open spec fn pad_start(len: int, capacity: int) -> int {
    let terminated = if len + 4 <= capacity {
        len + 4
    } else {
        capacity
    };
    ((terminated + 7) / 8) * 8
}

/// Bit `k` of the pad pattern, the bytes 0xEC and 0x11 in turn.
pub open spec fn pad_bit(k: int) -> bool {
    byte_bit(
        if (k / 8) % 2 == 0 {
            0xECu8
        } else {
            0x11u8
        },
        k % 8,
    )
}

/// The stream of `capacity` bits that a segment is filled up to: the
/// segment, zero bits for the terminator and up to the byte boundary, then
/// the pad pattern.
pub open spec fn padded_stream(segment: Seq<bool>, capacity: int) -> Seq<bool> {
    Seq::new(
        capacity as nat,
        |i: int|
            if i < segment.len() {
                segment[i]
            } else if i < pad_start(segment.len() as int, capacity) {
                false
            } else {
                pad_bit(i - pad_start(segment.len() as int, capacity))
            },
    )
}

/// The number of bits that a run of digits takes.
pub proof fn lemma_numeric_bits_len(digits: Seq<u8>)
    ensures
        numeric_bits(digits).len() == data_bit_count(Mode::Numeric, digits.len() as int),
    decreases digits.len(),
{
    if digits.len() >= 3 {
        lemma_numeric_bits_len(digits.subrange(3, digits.len() as int));
    }
}

/// The number of bits that a run of alphanumeric values takes.
pub proof fn lemma_alphanumeric_bits_len(values: Seq<u8>)
    ensures
        alphanumeric_bits(values).len() == data_bit_count(Mode::Alphanumeric, values.len() as int),
    decreases values.len(),
{
    if values.len() >= 2 {
        lemma_alphanumeric_bits_len(values.subrange(2, values.len() as int));
    }
}

/// A segment has as many bits as its encoded length says.
pub proof fn lemma_segment_len(mode: Mode, data: Seq<u8>, version: int)
    ensures
        segment_bits(mode, data, version).len() == encoded_length(
            mode,
            data.len() as int,
            version,
        ),
        data_bits(mode, data).len() == data_bit_count(mode, data.len() as int),
{
    lemma_numeric_bits_len(data);
    lemma_alphanumeric_bits_len(data);
}

/// Appends the bits of a run of digits.
pub fn append_numeric(stream: &mut BitString, digits: &Vec<u8>)
    requires
        old(stream).wf(),
        all_character_values(Mode::Numeric, digits@),
        old(stream)@.len() + data_bit_count(Mode::Numeric, digits@.len() as int) <= usize::MAX,
    ensures
        final(stream).wf(),
        final(stream)@ == old(stream)@ + numeric_bits(digits@),
{
    let n = digits.len();
    let mut i: usize = 0;
    proof {
        assert(digits@.subrange(0, n as int) =~= digits@);
        assert(stream@ + numeric_bits(digits@) =~= old(stream)@ + numeric_bits(digits@));
    }
    while n - i >= 3
        invariant
            i <= n,
            n == digits@.len(),
            i % 3 == 0,
            stream.wf(),
            all_character_values(Mode::Numeric, digits@),
            stream@.len() == old(stream)@.len() + 10 * (i / 3),
            old(stream)@.len() + data_bit_count(Mode::Numeric, n as int) <= usize::MAX,
            old(stream)@ + numeric_bits(digits@) == stream@ + numeric_bits(
                digits@.subrange(i as int, n as int),
            ),
        decreases n - i,
    {
        let ghost rest = digits@.subrange(i as int, n as int);
        let ghost before = stream@;
        let value: u32 = 100 * (digits[i] as u32) + 10 * (digits[i + 1] as u32) + (digits[i
            + 2] as u32);
        stream.append_value(value, 10);
        proof {
            assert(rest.subrange(3, rest.len() as int) =~= digits@.subrange(i + 3, n as int));
            assert(before + numeric_bits(rest) =~= stream@ + numeric_bits(
                digits@.subrange(i + 3, n as int),
            ));
        }
        i += 3;
    }
    let ghost rest = digits@.subrange(i as int, n as int);
    let ghost before = stream@;
    if n - i == 2 {
        let value: u32 = 10 * (digits[i] as u32) + (digits[i + 1] as u32);
        stream.append_value(value, 7);
    } else if n - i == 1 {
        stream.append_value(digits[i] as u32, 4);
    }
    proof {
        assert(before + numeric_bits(rest) =~= stream@);
    }
}

/// Appends the bits of a run of alphanumeric values.
pub fn append_alphanumeric(stream: &mut BitString, values: &Vec<u8>)
    requires
        old(stream).wf(),
        all_character_values(Mode::Alphanumeric, values@),
        old(stream)@.len() + data_bit_count(Mode::Alphanumeric, values@.len() as int)
            <= usize::MAX,
    ensures
        final(stream).wf(),
        final(stream)@ == old(stream)@ + alphanumeric_bits(values@),
{
    let n = values.len();
    let mut i: usize = 0;
    proof {
        assert(values@.subrange(0, n as int) =~= values@);
        assert(stream@ + alphanumeric_bits(values@) =~= old(stream)@ + alphanumeric_bits(values@));
    }
    while n - i >= 2
        invariant
            i <= n,
            n == values@.len(),
            i % 2 == 0,
            stream.wf(),
            all_character_values(Mode::Alphanumeric, values@),
            stream@.len() == old(stream)@.len() + 11 * (i / 2),
            old(stream)@.len() + data_bit_count(Mode::Alphanumeric, n as int) <= usize::MAX,
            old(stream)@ + alphanumeric_bits(values@) == stream@ + alphanumeric_bits(
                values@.subrange(i as int, n as int),
            ),
        decreases n - i,
    {
        let ghost rest = values@.subrange(i as int, n as int);
        let ghost before = stream@;
        let value: u32 = 45 * (values[i] as u32) + (values[i + 1] as u32);
        stream.append_value(value, 11);
        proof {
            assert(rest.subrange(2, rest.len() as int) =~= values@.subrange(i + 2, n as int));
            assert(before + alphanumeric_bits(rest) =~= stream@ + alphanumeric_bits(
                values@.subrange(i + 2, n as int),
            ));
        }
        i += 2;
    }
    let ghost rest = values@.subrange(i as int, n as int);
    let ghost before = stream@;
    if n - i == 1 {
        stream.append_value(values[i] as u32, 6);
    }
    proof {
        assert(before + alphanumeric_bits(rest) =~= stream@);
    }
}

/// Appends the bits of a run of bytes, eight for each.
pub fn append_bytes(stream: &mut BitString, bytes: &Vec<u8>)
    requires
        old(stream).wf(),
        old(stream)@.len() + 8 * bytes@.len() <= usize::MAX,
    ensures
        final(stream).wf(),
        final(stream)@ == old(stream)@ + bytes_bits(bytes@),
{
    let n = bytes.len();
    let mut i: usize = 0;
    proof {
        assert(stream@ =~= old(stream)@ + bytes_bits(bytes@.subrange(0, 0)));
    }
    while i < n
        invariant
            i <= n,
            n == bytes@.len(),
            stream.wf(),
            old(stream)@.len() + 8 * n <= usize::MAX,
            stream@ == old(stream)@ + bytes_bits(bytes@.subrange(0, i as int)),
        decreases n - i,
    {
        stream.append_byte(bytes[i]);
        proof {
            let shorter = bytes@.subrange(0, i as int);
            let longer = bytes@.subrange(0, i + 1);
            assert forall|k: int| 0 <= k < 8 * (i + 1) implies (bytes_bits(shorter) + byte_bits(
                bytes@[i as int],
            ))[k] == bytes_bits(longer)[k] by {
                if k >= 8 * i {
                    assert(k / 8 == i);
                    assert(k % 8 == k - 8 * i);
                }
            }
            assert(bytes_bits(shorter) + byte_bits(bytes@[i as int]) =~= bytes_bits(longer));
            assert(stream@ =~= old(stream)@ + bytes_bits(longer));
        }
        i += 1;
    }
    assert(bytes@.subrange(0, n as int) =~= bytes@);
}

/// Fills a stream that holds a segment up to `capacity` bits: a terminator
/// of up to four zero bits, zero bits up to the byte boundary, then the pad
/// bytes 0xEC and 0x11 in turn.
pub fn append_padding(stream: &mut BitString, capacity: usize)
    requires
        old(stream).wf(),
        old(stream)@.len() <= capacity,
        capacity % 8 == 0,
        capacity + 8 <= usize::MAX,
    ensures
        final(stream).wf(),
        final(stream)@ == padded_stream(old(stream)@, capacity as int),
{
    let ghost segment = stream@;
    let ghost target = padded_stream(segment, capacity as int);
    let ghost start = pad_start(segment.len() as int, capacity as int);
    let length = stream.len();
    let terminator: usize = if capacity - length < 4 {
        capacity - length
    } else {
        4
    };
    stream.append_times(Bit::Zero, terminator);
    let terminated = stream.len();
    let to_boundary: usize = (8 - terminated % 8) % 8;
    stream.append_times(Bit::Zero, to_boundary);
    proof {
        assert(stream@.len() == start);
        assert(start <= capacity);
        assert(stream@ =~= target.subrange(0, start));
    }
    let mut pads: usize = 0;
    while stream.len() < capacity
        invariant
            stream.wf(),
            capacity % 8 == 0,
            capacity + 8 <= usize::MAX,
            start % 8 == 0,
            0 <= start <= capacity,
            stream@.len() == start + 8 * pads,
            stream@.len() <= capacity,
            target == padded_stream(segment, capacity as int),
            start == pad_start(segment.len() as int, capacity as int),
            segment.len() <= start,
            stream@ == target.subrange(0, stream@.len() as int),
        decreases capacity - stream@.len(),
    {
        let pad: u8 = if pads % 2 == 0 {
            0xEC
        } else {
            0x11
        };
        let ghost before = stream@;
        stream.append_byte(pad);
        proof {
            assert forall|k: int| 0 <= k < before.len() + 8 implies stream@[k] == target[k] by {
                if k >= before.len() {
                    let offset = k - start;
                    assert(offset / 8 == pads);
                    assert(offset % 8 == k - before.len());
                    assert(stream@[k] == byte_bits(pad)[k - before.len()]);
                } else {
                    assert(before[k] == target.subrange(0, before.len() as int)[k]);
                }
            }
            assert(stream@ =~= target.subrange(0, (before.len() + 8) as int));
        }
        pads += 1;
    }
    proof {
        assert(target.subrange(0, capacity as int) =~= target);
    }
}

} // verus!
