//! A square grid of bits, stored row by row in packed bytes.

use super::bit::Bit;
use vstd::prelude::*;
use vstd::std_specs::convert::IntoSpec;

verus! {

/// Bit `k` of a byte, counted from the least significant bit.
pub open spec fn low_bit(b: u8, k: int) -> bool {
    b & (1u8 << (k as u8)) != 0
}

/// A square grid of the given side with every cell clear.
pub open spec fn blank_grid(size: nat) -> Seq<Seq<bool>> {
    Seq::new(size, |i: int| Seq::new(size, |j: int| false))
}

/// The grid with the cell in row `i`, column `j` replaced.
pub open spec fn grid_put(grid: Seq<Seq<bool>>, i: int, j: int, value: bool) -> Seq<Seq<bool>> {
    grid.update(i, grid[i].update(j, value))
}

/// Every row of the grid is as long as the grid is high.
pub open spec fn is_square(grid: Seq<Seq<bool>>, size: nat) -> bool {
    &&& grid.len() == size
    &&& forall|i: int| 0 <= i < size ==> (#[trigger] grid[i]).len() == size
}

proof fn lemma_low_bit_ops(b: u8, k: u8, m: u8)
    by (bit_vector)
    requires
        k < 8,
        m < 8,
    ensures
        ((b | (1u8 << k)) & (1u8 << m) != 0) == (m == k || (b & (1u8 << m) != 0)),
        ((b & !(1u8 << k)) & (1u8 << m) != 0) == (m != k && (b & (1u8 << m) != 0)),
        ((b ^ (1u8 << k)) & (1u8 << m) != 0) == (if m == k {
            b & (1u8 << m) == 0
        } else {
            b & (1u8 << m) != 0
        }),
        0u8 & (1u8 << m) == 0,
{
}

/// Where column `j` lies in a packed row: the byte, and the bit in it.
pub fn get_byte_location(j: usize) -> (location: (usize, usize))
    ensures
        location.0 == j / 8,
        location.1 == j % 8,
{
    (j / 8, j % 8)
}

/// A square grid of bits, each row packed into bytes.
pub struct BitMap {
    map: Vec<Vec<u8>>,
    size: usize,
}

impl View for BitMap {
    type V = Seq<Seq<bool>>;

    closed spec fn view(&self) -> Seq<Seq<bool>> {
        Seq::new(
            self.size as nat,
            |i: int| Seq::new(self.size as nat, |j: int| low_bit(self.map@[i]@[j / 8], j % 8)),
        )
    }
}

impl BitMap {
    /// There is one packed row per grid row, each long enough for a row.
    pub closed spec fn wf(&self) -> bool {
        &&& self.map@.len() == self.size
        &&& forall|i: int| 0 <= i < self.size ==> (#[trigger] self.map@[i])@.len() == self.size / 8 + 1
    }

    /// The side of the grid.
    pub closed spec fn side(&self) -> nat {
        self.size as nat
    }

    /// The number of packed rows.
    pub closed spec fn stored_rows(&self) -> nat {
        self.map@.len()
    }

    /// The number of bytes of the packed row `i`.
    pub closed spec fn stored_row_len(&self, i: int) -> nat {
        self.map@[i]@.len()
    }

    /// The view is a square grid of the bitmap's side.
    pub proof fn lemma_view_square(&self)
        ensures
            is_square(self@, self.side()),
    {
    }

    /// A well-formed bitmap stores one row of `side / 8 + 1` bytes per grid
    /// row.
    pub proof fn lemma_storage(&self)
        requires
            self.wf(),
        ensures
            self.stored_rows() == self.side(),
            forall|i: int|
                0 <= i < self.side() ==> #[trigger] self.stored_row_len(i) == self.side() / 8 + 1,
    {
    }

    /// A bitmap of the given side with every cell clear.
    pub fn new(size: usize) -> (bit_map: Self)
        ensures
            bit_map.wf(),
            bit_map.side() == size,
            bit_map@ == blank_grid(size as nat),
    {
        let mut map: Vec<Vec<u8>> = Vec::new();
        let row_len: usize = size / 8 + 1;
        let mut i: usize = 0;
        while i < size
            invariant
                i <= size,
                row_len == size / 8 + 1,
                map@.len() == i,
                forall|r: int| 0 <= r < i ==> (#[trigger] map@[r])@.len() == row_len,
                forall|r: int, b: int| 0 <= r < i && 0 <= b < row_len ==> (#[trigger] map@[r]@[b]) == 0,
            decreases size - i,
        {
            let mut row: Vec<u8> = Vec::new();
            let mut k: usize = 0;
            while k < row_len
                invariant
                    k <= row_len,
                    row@.len() == k,
                    forall|b: int| 0 <= b < k ==> row@[b] == 0,
                decreases row_len - k,
            {
                row.push(0u8);
                k += 1;
            }
            map.push(row);
            i += 1;
        }
        let bit_map = Self { map, size };
        proof {
            assert forall|r: int, c: int| 0 <= r < size && 0 <= c < size implies !low_bit(
                #[trigger] bit_map.map@[r]@[c / 8],
                c % 8,
            ) by {
                lemma_low_bit_ops(0, 0, (c % 8) as u8);
            }
            assert forall|r: int| 0 <= r < size implies #[trigger] bit_map@[r] =~= blank_grid(
                size as nat,
            )[r] by {
                assert forall|c: int| 0 <= c < size implies bit_map@[r][c] == false by {
                    assert(!low_bit(bit_map.map@[r]@[c / 8], c % 8));
                }
            }
            assert(bit_map@ =~= blank_grid(size as nat));
        }
        bit_map
    }

    /// Stores `bit` in row `i`, column `j`; a place outside the grid is left
    /// alone.
    pub fn put(&mut self, i: usize, j: usize, bit: Bit)
        requires
            old(self).wf(),
        ensures
            final(self).wf(),
            final(self).side() == old(self).side(),
            i < old(self).side() && j < old(self).side() ==> final(self)@ == grid_put(
                old(self)@,
                i as int,
                j as int,
                bit.as_bool(),
            ),
            !(i < old(self).side() && j < old(self).side()) ==> final(self)@ == old(self)@,
    {
        if i >= self.size || j >= self.size {
            return ;
        }
        let (byte, byte_offset) = get_byte_location(j);
        let current: u8 = self.map[i][byte];
        let mask: u8 = 1u8 << (byte_offset as u8);
        let updated: u8 = match bit {
            Bit::One => current | mask,
            Bit::Zero => current & !mask,
        };
        self.map[i][byte] = updated;
        proof {
            assert forall|m: u8| m < 8 implies (low_bit(updated, m as int) == (if m
                == byte_offset as u8 {
                bit.as_bool()
            } else {
                low_bit(current, m as int)
            })) by {
                lemma_low_bit_ops(current, byte_offset as u8, m);
            }
            let target = grid_put(old(self)@, i as int, j as int, bit.as_bool());
            assert forall|r: int| 0 <= r < self.size implies #[trigger] self@[r] =~= target[r] by {
                assert forall|c: int| 0 <= c < self.size implies self@[r][c] == target[r][c] by {
                    let m = (c % 8) as u8;
                    assert(m < 8);
                    if r == i && c / 8 == byte {
                        assert(low_bit(updated, m as int) == (if m == byte_offset as u8 {
                            bit.as_bool()
                        } else {
                            low_bit(current, m as int)
                        }));
                    }
                }
            }
            assert(self@ =~= target);
        }
    }

    /// Stores the bit that `bit` converts to in row `i`, column `j`; a place
    /// outside the grid is left alone.
    pub fn set<B: Into<Bit>>(&mut self, i: usize, j: usize, bit: B)
        requires
            old(self).wf(),
        ensures
            final(self).wf(),
            final(self).side() == old(self).side(),
            B::obeys_into_spec() && i < old(self).side() && j < old(self).side() ==> final(self)@
                == grid_put(old(self)@, i as int, j as int, bit.into_spec().as_bool()),
            !(i < old(self).side() && j < old(self).side()) ==> final(self)@ == old(self)@,
    {
        let b: Bit = bit.into();
        self.put(i, j, b);
    }

    /// Flips the bit in row `i`, column `j`.
    pub fn invert_bit(&mut self, i: usize, j: usize)
        requires
            old(self).wf(),
            i < old(self).side(),
            j < old(self).side(),
        ensures
            final(self).wf(),
            final(self).side() == old(self).side(),
            final(self)@ == grid_put(old(self)@, i as int, j as int, !old(self)@[i as int][j as int]),
    {
        let (byte, byte_offset) = get_byte_location(j);
        let current: u8 = self.map[i][byte];
        let updated: u8 = current ^ (1u8 << (byte_offset as u8));
        self.map[i][byte] = updated;
        proof {
            assert forall|m: u8| m < 8 implies (low_bit(updated, m as int) == (if m
                == byte_offset as u8 {
                !low_bit(current, m as int)
            } else {
                low_bit(current, m as int)
            })) by {
                lemma_low_bit_ops(current, byte_offset as u8, m);
            }
            let target = grid_put(old(self)@, i as int, j as int, !old(self)@[i as int][j as int]);
            assert forall|r: int| 0 <= r < self.size implies #[trigger] self@[r] =~= target[r] by {
                assert forall|c: int| 0 <= c < self.size implies self@[r][c] == target[r][c] by {
                    let m = (c % 8) as u8;
                    assert(m < 8);
                    if r == i && c / 8 == byte {
                        assert(low_bit(updated, m as int) == (if m == byte_offset as u8 {
                            !low_bit(current, m as int)
                        } else {
                            low_bit(current, m as int)
                        }));
                    }
                }
            }
            assert(self@ =~= target);
        }
    }

    /// The bit in row `i`, column `j`.
    pub fn get(&self, i: usize, j: usize) -> (bit: Bit)
        requires
            self.wf(),
            i < self.side(),
            j < self.side(),
        ensures
            bit == Bit::of_bool(self@[i as int][j as int]),
            bit.as_bool() == self@[i as int][j as int],
    {
        let (byte, byte_offset) = get_byte_location(j);
        if self.map[i][byte] & (1u8 << (byte_offset as u8)) == 0 {
            Bit::Zero
        } else {
            Bit::One
        }
    }

    /// A copy of the bitmap.
    pub fn duplicate(&self) -> (copy: Self)
        requires
            self.wf(),
        ensures
            copy.wf(),
            copy.side() == self.side(),
            copy@ == self@,
    {
        let mut map: Vec<Vec<u8>> = Vec::new();
        let mut i: usize = 0;
        while i < self.size
            invariant
                i <= self.size,
                self.wf(),
                map@.len() == i,
                forall|r: int| 0 <= r < i ==> (#[trigger] map@[r])@ == self.map@[r]@,
            decreases self.size - i,
        {
            let source = &self.map[i];
            let mut row: Vec<u8> = Vec::new();
            let mut k: usize = 0;
            while k < source.len()
                invariant
                    k <= source@.len(),
                    row@ == source@.subrange(0, k as int),
                decreases source@.len() - k,
            {
                row.push(source[k]);
                k += 1;
                assert(row@ =~= source@.subrange(0, k as int));
            }
            assert(row@ =~= source@);
            map.push(row);
            i += 1;
        }
        let copy = Self { map, size: self.size };
        proof {
            assert forall|r: int| 0 <= r < self.size implies #[trigger] copy@[r] =~= self@[r] by {
                assert(copy.map@[r]@ == self.map@[r]@);
            }
            assert(copy@ =~= self@);
        }
        copy
    }

    /// The side of the grid.
    pub fn size(&self) -> (n: usize)
        ensures
            n == self.side(),
    {
        self.size
    }

    /// The number of packed rows that the bitmap stores.
    pub fn row_count(&self) -> (n: usize)
        ensures
            n == self.stored_rows(),
    {
        self.map.len()
    }

    /// The number of bytes in the packed row `i`.
    pub fn row_bytes(&self, i: usize) -> (n: usize)
        requires
            i < self.stored_rows(),
        ensures
            n == self.stored_row_len(i as int),
    {
        self.map[i].len()
    }
}

} // verus!
