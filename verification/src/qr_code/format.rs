//! The format and version information: their words and their cells.

use super::level::format_bits;
use super::level::ErrorCorrectionLevel;
use super::patterns::is_symbol_side;
use super::patterns::version_of_side;
use crate::bit_utils::bit::Bit;
use crate::bit_utils::bitmap::is_square;
use crate::bit_utils::bitmap::BitMap;
use vstd::prelude::*;

verus! {

/// One step of the division by the format generator 0x537: the remainder
/// moves up one place and the generator is taken off where bit 10 comes up.
pub open spec fn format_step(rem: u32) -> u32 {
    if rem & 0x200u32 != 0 {
        (rem << 1u32) ^ 0x537u32
    } else {
        rem << 1u32
    }
}

/// One step of the division by the version generator 0x1F25.
pub open spec fn version_step(rem: u32) -> u32 {
    if rem & 0x800u32 != 0 {
        (rem << 1u32) ^ 0x1F25u32
    } else {
        rem << 1u32
    }
}

/// The remainder after `steps` steps of the division by the format
/// generator.
pub open spec fn format_steps(rem: u32, steps: nat) -> u32
    decreases steps,
{
    if steps == 0 {
        rem
    } else {
        format_step(format_steps(rem, (steps - 1) as nat))
    }
}

/// The remainder after `steps` steps of the division by the version
/// generator.
pub open spec fn version_steps(rem: u32, steps: nat) -> u32
    decreases steps,
{
    if steps == 0 {
        rem
    } else {
        version_step(version_steps(rem, (steps - 1) as nat))
    }
}

/// The five data bits of the format information: the level above the mask.
pub open spec fn format_data(level: ErrorCorrectionLevel, mask: int) -> u32 {
    (8 * format_bits(level) + mask) as u32
}

/// The fifteen bits of format information for a level and a mask: the data
/// bits above the ten bits of their remainder, masked with 0x5412.
pub open spec fn format_word(level: ErrorCorrectionLevel, mask: int) -> u32 {
    ((format_data(level, mask) << 10u32) | format_steps(format_data(level, mask), 10)) ^ 0x5412u32
}

/// The eighteen bits of version information: the version above the twelve
/// bits of its remainder.
pub open spec fn version_word(version: int) -> u32 {
    ((version as u32) << 12u32) | version_steps(version as u32, 12)
}

/// Bit `j` of a word of `width` bits, counted from the most significant.
pub open spec fn word_bit(word: u32, width: int, j: int) -> bool {
    word & (1u32 << ((width - 1 - j) as u32)) != 0
}

/// The place in the format word, counted from its most significant bit, of
/// the bit that a cell of the format strips holds.
pub open spec fn format_cell_index(n: int, r: int, c: int) -> Option<int> {
    if r == 8 && 0 <= c <= 5 {
        Some(c)
    } else if r == 8 && c == 7 {
        Some(6int)
    } else if r == 8 && c == 8 {
        Some(7int)
    } else if r == 7 && c == 8 {
        Some(8int)
    } else if c == 8 && 0 <= r <= 5 {
        Some(14 - r)
    } else if c == 8 && n - 7 <= r <= n - 1 {
        Some(n - 1 - r)
    } else if r == 8 && n - 8 <= c <= n - 1 {
        Some(c - n + 15)
    } else {
        None
    }
}

/// The place in the version word, counted from its least significant bit,
/// of the bit that a cell of the version blocks holds.
pub open spec fn version_cell_index(n: int, r: int, c: int) -> Option<int> {
    if 0 <= r <= 5 && n - 11 <= c <= n - 9 {
        Some(3 * r + (c - (n - 11)))
    } else if 0 <= c <= 5 && n - 11 <= r <= n - 9 {
        Some(3 * c + (r - (n - 11)))
    } else {
        None
    }
}

/// What a cell holds once the format information for a level and a mask,
/// and from version 7 on the version information, are written over a grid.
pub open spec fn informed_cell(
    grid: Seq<Seq<bool>>,
    n: int,
    level: ErrorCorrectionLevel,
    mask: int,
    r: int,
    c: int,
) -> bool {
    if format_cell_index(n, r, c) is Some {
        word_bit(format_word(level, mask), 15, format_cell_index(n, r, c)->0)
    } else if version_of_side(n) >= 7 && version_cell_index(n, r, c) is Some {
        word_bit(version_word(version_of_side(n)), 18, 17 - version_cell_index(n, r, c)->0)
    } else {
        grid[r][c]
    }
}

/// The grid with the format information and, from version 7 on, the
/// version information written over it.
pub open spec fn with_information(
    grid: Seq<Seq<bool>>,
    n: int,
    level: ErrorCorrectionLevel,
    mask: int,
) -> Seq<Seq<bool>> {
    Seq::new(
        n as nat,
        |r: int| Seq::new(n as nat, |c: int| informed_cell(grid, n, level, mask, r, c)),
    )
}

proof fn lemma_format_step_bound(rem: u32)
    by (bit_vector)
    requires
        rem < 1024,
    ensures
        format_step(rem) < 1024,
        (rem << 1u32) < 2048,
{
}

proof fn lemma_version_step_bound(rem: u32)
    by (bit_vector)
    requires
        rem < 4096,
    ensures
        version_step(rem) < 4096,
        (rem << 1u32) < 8192,
{
}

proof fn lemma_word_shapes(data: u32, rem: u32)
    by (bit_vector)
    requires
        data < 64,
        rem < 4096,
    ensures
        ((data << 10u32) | rem) < 0x10000,
        (((data << 10u32) | rem) ^ 0x5412u32) < 0x10000,
        ((data << 12u32) | rem) < 0x40000,
{
}

proof fn lemma_format_chain()
    by (bit_vector)
    ensures
        format_step(0u32) == 0u32,
        format_step(8u32) == 16u32,
        format_step(16u32) == 32u32,
        format_step(24u32) == 48u32,
        format_step(32u32) == 64u32,
        format_step(48u32) == 96u32,
        format_step(64u32) == 128u32,
        format_step(96u32) == 192u32,
        format_step(128u32) == 256u32,
        format_step(192u32) == 384u32,
        format_step(256u32) == 512u32,
        format_step(311u32) == 622u32,
        format_step(384u32) == 768u32,
        format_step(491u32) == 982u32,
        format_step(512u32) == 311u32,
        format_step(573u32) == 333u32,
        format_step(622u32) == 491u32,
        format_step(768u32) == 823u32,
        format_step(823u32) == 857u32,
        format_step(857u32) == 901u32,
        format_step(901u32) == 573u32,
        format_step(982u32) == 667u32,
        ((8u32 << 10u32) | 982u32) ^ 0x5412u32 == 30660u32,
        ((0u32 << 10u32) | 0u32) ^ 0x5412u32 == 21522u32,
        ((24u32 << 10u32) | 333u32) ^ 0x5412u32 == 13663u32,
        ((16u32 << 10u32) | 667u32) ^ 0x5412u32 == 5769u32,
{
}

/// The format words of the four levels for mask 0.
pub proof fn lemma_format_words_of_mask_zero()
    ensures
        format_word(ErrorCorrectionLevel::L, 0) == 0x77C4,
        format_word(ErrorCorrectionLevel::M, 0) == 0x5412,
        format_word(ErrorCorrectionLevel::Q, 0) == 0x355F,
        format_word(ErrorCorrectionLevel::H, 0) == 0x1689,
{
    lemma_format_chain();
    reveal_with_fuel(format_steps, 11);
}

/// The remainder of five data bits after the division by the format
/// generator.
pub fn format_remainder(data: u32) -> (rem: u32)
    requires
        data < 32,
    ensures
        rem == format_steps(data, 10),
        rem < 1024,
{
    let mut rem: u32 = data;
    let mut i: usize = 0;
    while i < 10
        invariant
            i <= 10,
            rem < 1024,
            rem == format_steps(data, i as nat),
        decreases 10 - i,
    {
        proof {
            lemma_format_step_bound(rem);
        }
        rem = if rem & 0x200 != 0 {
            (rem << 1) ^ 0x537
        } else {
            rem << 1
        };
        i += 1;
    }
    rem
}

/// The remainder of six data bits after the division by the version
/// generator.
pub fn version_remainder(data: u32) -> (rem: u32)
    requires
        data < 64,
    ensures
        rem == version_steps(data, 12),
        rem < 4096,
{
    let mut rem: u32 = data;
    let mut i: usize = 0;
    while i < 12
        invariant
            i <= 12,
            rem < 4096,
            rem == version_steps(data, i as nat),
        decreases 12 - i,
    {
        proof {
            lemma_version_step_bound(rem);
        }
        rem = if rem & 0x800 != 0 {
            (rem << 1) ^ 0x1F25
        } else {
            rem << 1
        };
        i += 1;
    }
    rem
}

/// The fifteen bits of format information for a level and a mask.
pub fn format_information(level: &ErrorCorrectionLevel, mask: u32) -> (word: u32)
    requires
        mask < 8,
    ensures
        word == format_word(*level, mask as int),
        word < 0x10000,
{
    let data: u32 = 8 * level.get_format_bits() + mask;
    let rem = format_remainder(data);
    proof {
        lemma_word_shapes(data, rem);
    }
    ((data << 10) | rem) ^ 0x5412
}

/// The eighteen bits of version information.
pub fn version_information(version: usize) -> (word: u32)
    requires
        1 <= version <= 40,
    ensures
        word == version_word(version as int),
        word < 0x40000,
{
    let data: u32 = version as u32;
    let rem = version_remainder(data);
    proof {
        lemma_word_shapes(data, rem);
    }
    (data << 12) | rem
}

impl ErrorCorrectionLevel {
    /// The fifteen bits of format information of the level for mask 0.
    pub fn get_format_mask_bits(&self) -> (bits: u32)
        ensures
            bits == format_word(*self, 0),
    {
        proof {
            lemma_format_words_of_mask_zero();
        }
        match self {
            ErrorCorrectionLevel::L => 0x77C4,
            ErrorCorrectionLevel::M => 0x5412,
            ErrorCorrectionLevel::Q => 0x355F,
            ErrorCorrectionLevel::H => 0x1689,
        }
    }
}

/// Bit `j` of a word of `width` bits, counted from the most significant.
fn bit_of_word(word: u32, width: u32, j: u32) -> (bit: Bit)
    requires
        j < width <= 32,
    ensures
        bit.as_bool() == word_bit(word, width as int, j as int),
{
    Bit::from_bool(word & (1u32 << (width - 1 - j)) != 0)
}

/// Writes the format information for a level and a mask into its two
/// strips and, from version 7 on, the version information into its two
/// blocks.
pub fn add_format_information(
    bit_map: &mut BitMap,
    error_correction_level: &ErrorCorrectionLevel,
    version: usize,
    mask: u32,
)
    requires
        old(bit_map).wf(),
        is_symbol_side(old(bit_map).side() as int),
        version == version_of_side(old(bit_map).side() as int),
        mask < 8,
    ensures
        final(bit_map).wf(),
        final(bit_map).side() == old(bit_map).side(),
        final(bit_map)@ == with_information(
            old(bit_map)@,
            old(bit_map).side() as int,
            *error_correction_level,
            mask as int,
        ),
{
    let size = bit_map.size();
    let ghost n = size as int;
    let ghost start = bit_map@;
    let ghost level = *error_correction_level;
    proof {
        bit_map.lemma_view_square();
    }
    let version_bits: u32 = if version >= 7 {
        version_information(version)
    } else {
        0
    };
    let mut index: usize = 0;
    while index < 18 && version >= 7
        invariant
            index <= 18,
            size == n,
            is_symbol_side(n),
            version == version_of_side(n),
            version >= 7 ==> version_bits == version_word(version as int),
            bit_map.wf(),
            bit_map.side() == n,
            is_square(start, n as nat),
            forall|r: int, c: int|
                0 <= r < n && 0 <= c < n ==> #[trigger] bit_map@[r][c] == (if version >= 7
                    && version_cell_index(n, r, c) is Some && version_cell_index(n, r, c)->0
                    < index {
                    word_bit(version_bits, 18, 17 - version_cell_index(n, r, c)->0)
                } else {
                    start[r][c]
                }),
        decreases 18 - index,
    {
        let j: usize = index / 3;
        let i: usize = index % 3;
        let bit = bit_of_word(version_bits, 18, (17 - index) as u32);
        let ghost before = bit_map@;
        proof {
            bit_map.lemma_view_square();
        }
        bit_map.put(size - 11 + i, j, bit);
        let ghost between = bit_map@;
        proof {
            bit_map.lemma_view_square();
        }
        bit_map.put(j, size - 11 + i, bit);
        proof {
            bit_map.lemma_view_square();
            assert forall|r: int, c: int| 0 <= r < n && 0 <= c < n implies #[trigger] bit_map@[r][c]
                == (if version >= 7 && version_cell_index(n, r, c) is Some && version_cell_index(
                n,
                r,
                c,
            )->0 < index + 1 {
                word_bit(version_bits, 18, 17 - version_cell_index(n, r, c)->0)
            } else {
                start[r][c]
            }) by {
                assert(before[r][c] == (if version >= 7 && version_cell_index(n, r, c) is Some
                    && version_cell_index(n, r, c)->0 < index {
                    word_bit(version_bits, 18, 17 - version_cell_index(n, r, c)->0)
                } else {
                    start[r][c]
                }));
                assert(between[r][c] == (if r == size - 11 + i && c == j {
                    bit.as_bool()
                } else {
                    before[r][c]
                }));
            }
        }
        index += 1;
    }
    let ghost versioned = bit_map@;
    let bits = format_information(error_correction_level, mask);
    let mut k: usize = 0;
    while k < 15
        invariant
            k <= 15,
            size == n,
            is_symbol_side(n),
            bits == format_word(level, mask as int),
            bit_map.wf(),
            bit_map.side() == n,
            forall|r: int, c: int|
                0 <= r < n && 0 <= c < n ==> #[trigger] bit_map@[r][c] == (if format_cell_index(
                    n,
                    r,
                    c,
                ) is Some && format_cell_index(n, r, c)->0 < k {
                    word_bit(bits, 15, format_cell_index(n, r, c)->0)
                } else {
                    versioned[r][c]
                }),
        decreases 15 - k,
    {
        let bit = bit_of_word(bits, 15, k as u32);
        let (first_row, first_column): (usize, usize) = if k <= 5 {
            (8, k)
        } else if k == 6 {
            (8, 7)
        } else if k == 7 {
            (8, 8)
        } else if k == 8 {
            (7, 8)
        } else {
            (14 - k, 8)
        };
        let (second_row, second_column): (usize, usize) = if k <= 6 {
            (size - 1 - k, 8)
        } else {
            (8, size - 15 + k)
        };
        let ghost before = bit_map@;
        proof {
            bit_map.lemma_view_square();
        }
        bit_map.put(first_row, first_column, bit);
        let ghost between = bit_map@;
        proof {
            bit_map.lemma_view_square();
        }
        bit_map.put(second_row, second_column, bit);
        proof {
            bit_map.lemma_view_square();
            assert forall|r: int, c: int| 0 <= r < n && 0 <= c < n implies #[trigger] bit_map@[r][c]
                == (if format_cell_index(n, r, c) is Some && format_cell_index(n, r, c)->0 < k
                + 1 {
                word_bit(bits, 15, format_cell_index(n, r, c)->0)
            } else {
                versioned[r][c]
            }) by {
                assert(before[r][c] == (if format_cell_index(n, r, c) is Some
                    && format_cell_index(n, r, c)->0 < k {
                    word_bit(bits, 15, format_cell_index(n, r, c)->0)
                } else {
                    versioned[r][c]
                }));
                assert(between[r][c] == (if r == first_row && c == first_column {
                    bit.as_bool()
                } else {
                    before[r][c]
                }));
            }
        }
        k += 1;
    }
    proof {
        bit_map.lemma_view_square();
        let target = with_information(start, n, level, mask as int);
        assert forall|r: int| 0 <= r < n implies #[trigger] bit_map@[r] =~= target[r] by {
            assert forall|c: int| 0 <= c < n implies bit_map@[r][c] == target[r][c] by {
                assert(bit_map@[r][c] == (if format_cell_index(n, r, c) is Some
                    && format_cell_index(n, r, c)->0 < 15 {
                    word_bit(bits, 15, format_cell_index(n, r, c)->0)
                } else {
                    versioned[r][c]
                }));
            }
        }
        assert(bit_map@ =~= target);
    }
}

} // verus!
