//! A bitmap as text for a terminal and as the bytes of a monochrome
//! bitmap file.

use super::bit_string::bit_term;
use super::bit_string::bits_to_byte;
use super::bit_string::byte_bit;
use super::bitmap::is_square;
use super::bitmap::BitMap;
use vstd::prelude::*;
use vstd::string::StringExecFns;

verus! {

/// A text repeated `count` times.
pub open spec fn repeat_text(text: Seq<char>, count: nat) -> Seq<char>
    decreases count,
{
    if count == 0 {
        Seq::<char>::empty()
    } else {
        repeat_text(text, (count - 1) as nat) + text
    }
}

/// The two characters that show a light module: a full block.
pub open spec fn light_text() -> Seq<char> {
    seq!['\u{2588}', '\u{2588}']
}

/// The two characters that show a dark module: blanks.
pub open spec fn dark_text() -> Seq<char> {
    seq![' ', ' ']
}

/// A border line of the picture of a grid of side `n`: light for the width
/// of the grid and two modules on either side.
pub open spec fn border_text(n: nat) -> Seq<char> {
    repeat_text(light_text(), n + 4).push('\n')
}

/// The picture of the first `upto` modules of a row.
pub open spec fn cells_text(line: Seq<bool>, upto: nat) -> Seq<char>
    decreases upto,
{
    if upto == 0 {
        Seq::<char>::empty()
    } else {
        cells_text(line, (upto - 1) as nat) + (if line[upto - 1] {
            dark_text()
        } else {
            light_text()
        })
    }
}

/// The picture of the first `upto` rows of a grid, each between two light
/// modules on either side.
pub open spec fn rows_text(grid: Seq<Seq<bool>>, n: nat, upto: nat) -> Seq<char>
    decreases upto,
{
    if upto == 0 {
        Seq::<char>::empty()
    } else {
        rows_text(grid, n, (upto - 1) as nat) + light_text() + light_text() + cells_text(
            grid[upto - 1],
            n,
        ) + light_text() + light_text().push('\n')
    }
}

/// The picture of a grid: its rows in a light border two modules wide,
/// dark modules shown as blanks.
pub open spec fn grid_text(grid: Seq<Seq<bool>>, n: nat) -> Seq<char> {
    border_text(n) + border_text(n) + rows_text(grid, n, n) + border_text(n) + border_text(n)
}

/// The four bytes of a number, the least significant first.
pub open spec fn le_bytes(value: int) -> Seq<u8> {
    seq![
        (value % 256) as u8,
        ((value / 256) % 256) as u8,
        ((value / 65536) % 256) as u8,
        ((value / 16777216) % 256) as u8,
    ]
}

/// The number of bytes of a row of pixels of a bitmap file: one bit for
/// each pixel, filled up to a multiple of four bytes.
pub open spec fn bmp_row_bytes(n: int) -> int {
    ((n + 31) / 32) * 4
}

/// The number of bytes of the bitmap file of a grid of side `n`.
pub open spec fn bmp_file_size(n: int) -> int {
    62 + n * bmp_row_bytes(n)
}

/// The headers and the palette of the bitmap file of a grid of side `n`:
/// the file header, the information header for one bit per pixel, and the
/// colours white and black.
pub open spec fn bmp_header(n: int) -> Seq<u8> {
    seq![0x42u8, 0x4Du8] + le_bytes(bmp_file_size(n)) + seq![0u8, 0u8, 0u8, 0u8] + seq![
        62u8,
        0u8,
        0u8,
        0u8,
    ] + seq![40u8, 0u8, 0u8, 0u8] + le_bytes(n) + le_bytes(n) + seq![1u8, 0u8, 1u8, 0u8] + seq![
        0u8,
        0u8,
        0u8,
        0u8,
        0u8,
        0u8,
        0u8,
        0u8,
    ] + seq![0xC4u8, 0x0Eu8, 0u8, 0u8, 0xC4u8, 0x0Eu8, 0u8, 0u8] + seq![
        2u8,
        0u8,
        0u8,
        0u8,
        0u8,
        0u8,
        0u8,
        0u8,
    ] + seq![0xFFu8, 0xFFu8, 0xFFu8, 0u8, 0u8, 0u8, 0u8, 0u8]
}

/// The first `upto` bytes of a row of pixels: eight pixels to the byte,
/// the leftmost in the most significant bit, dark as one.
pub open spec fn bmp_row(line: Seq<bool>, upto: nat) -> Seq<u8> {
    Seq::new(upto, |b: int| bits_to_byte(line, 8 * b) as u8)
}

/// The first `upto` rows of pixels of the bitmap file of a grid, the
/// bottom row of the grid first.
pub open spec fn bmp_rows(grid: Seq<Seq<bool>>, n: int, upto: nat) -> Seq<u8>
    decreases upto,
{
    if upto == 0 {
        Seq::<u8>::empty()
    } else {
        bmp_rows(grid, n, (upto - 1) as nat) + bmp_row(grid[n - upto], bmp_row_bytes(n) as nat)
    }
}

/// The bitmap file of a grid: headers, palette, and the rows of pixels
/// from the bottom up.
pub open spec fn bmp_bytes(grid: Seq<Seq<bool>>, n: int) -> Seq<u8> {
    bmp_header(n) + bmp_rows(grid, n, n as nat)
}

/// The pixel in row `r`, column `c` of the picture that a bitmap file of
/// side `n` holds.
pub open spec fn bmp_pixel(bytes: Seq<u8>, n: int, r: int, c: int) -> bool {
    byte_bit(bytes[62 + (n - 1 - r) * bmp_row_bytes(n) + c / 8], c % 8)
}

proof fn lemma_rows_len(grid: Seq<Seq<bool>>, n: int, upto: nat)
    requires
        n >= 0,
    ensures
        bmp_rows(grid, n, upto).len() == upto * bmp_row_bytes(n),
    decreases upto,
{
    if upto > 0 {
        lemma_rows_len(grid, n, (upto - 1) as nat);
        assert(upto * bmp_row_bytes(n) == (upto - 1) * bmp_row_bytes(n) + bmp_row_bytes(n))
            by (nonlinear_arith);
    } else {
        assert(0 * bmp_row_bytes(n) == 0) by (nonlinear_arith);
    }
}

proof fn lemma_rows_index(grid: Seq<Seq<bool>>, n: int, upto: nat, y: int, b: int)
    requires
        n >= 0,
        0 <= y < upto,
        0 <= b < bmp_row_bytes(n),
    ensures
        0 <= y * bmp_row_bytes(n) + b < bmp_rows(grid, n, upto).len(),
        bmp_rows(grid, n, upto)[y * bmp_row_bytes(n) + b] == bits_to_byte(grid[n - 1 - y], 8 * b)
            as u8,
    decreases upto,
{
    let rb = bmp_row_bytes(n);
    lemma_rows_len(grid, n, upto);
    lemma_rows_len(grid, n, (upto - 1) as nat);
    assert(0 <= y * rb && (y + 1) * rb <= upto * rb && (y + 1) * rb == y * rb + rb)
        by (nonlinear_arith)
        requires
            rb >= 0,
            0 <= y < upto,
    ;
    if y < upto - 1 {
        lemma_rows_index(grid, n, (upto - 1) as nat, y, b);
    } else {
        assert(y * rb == (upto - 1) * rb);
    }
}

proof fn lemma_sum_bits(b0: bool, b1: bool, b2: bool, b3: bool, b4: bool, b5: bool, b6: bool, b7: bool)
    by (bit_vector)
    ensures
        ({
            let v: u8 = ((if b0 {
                128u8
            } else {
                0u8
            }) | (if b1 {
                64u8
            } else {
                0u8
            }) | (if b2 {
                32u8
            } else {
                0u8
            }) | (if b3 {
                16u8
            } else {
                0u8
            }) | (if b4 {
                8u8
            } else {
                0u8
            }) | (if b5 {
                4u8
            } else {
                0u8
            }) | (if b6 {
                2u8
            } else {
                0u8
            }) | (if b7 {
                1u8
            } else {
                0u8
            }));
            &&& v == (if b0 {
                128u8
            } else {
                0u8
            }) + (if b1 {
                64u8
            } else {
                0u8
            }) + (if b2 {
                32u8
            } else {
                0u8
            }) + (if b3 {
                16u8
            } else {
                0u8
            }) + (if b4 {
                8u8
            } else {
                0u8
            }) + (if b5 {
                4u8
            } else {
                0u8
            }) + (if b6 {
                2u8
            } else {
                0u8
            }) + (if b7 {
                1u8
            } else {
                0u8
            })
            &&& (v & (0x80u8 >> 0u8) != 0) == b0
            &&& (v & (0x80u8 >> 1u8) != 0) == b1
            &&& (v & (0x80u8 >> 2u8) != 0) == b2
            &&& (v & (0x80u8 >> 3u8) != 0) == b3
            &&& (v & (0x80u8 >> 4u8) != 0) == b4
            &&& (v & (0x80u8 >> 5u8) != 0) == b5
            &&& (v & (0x80u8 >> 6u8) != 0) == b6
            &&& (v & (0x80u8 >> 7u8) != 0) == b7
        }),
{
}

/// The bits of a packed byte are the bits that it was packed from.
pub proof fn lemma_packed_bit(line: Seq<bool>, start: int, k: int)
    requires
        0 <= start,
        0 <= k < 8,
    ensures
        0 <= bits_to_byte(line, start) <= 255,
        byte_bit(bits_to_byte(line, start) as u8, k) == (start + k < line.len() && line[start + k]),
{
    let b0 = start + 0 < line.len() && line[start + 0];
    let b1 = start + 1 < line.len() && line[start + 1];
    let b2 = start + 2 < line.len() && line[start + 2];
    let b3 = start + 3 < line.len() && line[start + 3];
    let b4 = start + 4 < line.len() && line[start + 4];
    let b5 = start + 5 < line.len() && line[start + 5];
    let b6 = start + 6 < line.len() && line[start + 6];
    let b7 = start + 7 < line.len() && line[start + 7];
    lemma_sum_bits(b0, b1, b2, b3, b4, b5, b6, b7);
    assert(bit_term(line, start, 0) == if b0 { 128int } else { 0 });
    assert(bit_term(line, start, 1) == if b1 { 64int } else { 0 });
    assert(bit_term(line, start, 2) == if b2 { 32int } else { 0 });
    assert(bit_term(line, start, 3) == if b3 { 16int } else { 0 });
    assert(bit_term(line, start, 4) == if b4 { 8int } else { 0 });
    assert(bit_term(line, start, 5) == if b5 { 4int } else { 0 });
    assert(bit_term(line, start, 6) == if b6 { 2int } else { 0 });
    assert(bit_term(line, start, 7) == if b7 { 1int } else { 0 });
}

/// Every pixel of the bitmap file of a grid shows the module of the grid
/// that it stands for.
pub proof fn lemma_bmp_round_trip(grid: Seq<Seq<bool>>, n: int, r: int, c: int)
    requires
        n >= 1,
        is_square(grid, n as nat),
        0 <= r < n,
        0 <= c < n,
    ensures
        bmp_pixel(bmp_bytes(grid, n), n, r, c) == grid[r][c],
{
    let rb = bmp_row_bytes(n);
    let y = n - 1 - r;
    let b = c / 8;
    assert(bmp_header(n).len() == 62);
    lemma_rows_index(grid, n, n as nat, y, b);
    lemma_packed_bit(grid[r], 8 * b, c % 8);
    assert(bmp_bytes(grid, n)[62 + y * rb + b] == bmp_rows(grid, n, n as nat)[y * rb + b]);
}

/// The byte packed from the eight modules of a row that begin at column
/// `start`.
fn pack_pixels(bit_map: &BitMap, row: usize, start: usize) -> (byte: u8)
    requires
        bit_map.wf(),
        row < bit_map.side(),
        start + 8 <= usize::MAX,
    ensures
        byte == bits_to_byte(bit_map@[row as int], start as int),
{
    let size = bit_map.size();
    proof {
        bit_map.lemma_view_square();
    }
    let ghost line = bit_map@[row as int];
    let mut byte: u8 = 0;
    let mut k: usize = 0;
    while k < 8
        invariant
            k <= 8,
            size == bit_map.side(),
            row < size,
            start + 8 <= usize::MAX,
            bit_map.wf(),
            line == bit_map@[row as int],
            line.len() == size,
            byte as int == (if k >= 1 {
                bit_term(line, start as int, 0)
            } else {
                0
            }) + (if k >= 2 {
                bit_term(line, start as int, 1)
            } else {
                0
            }) + (if k >= 3 {
                bit_term(line, start as int, 2)
            } else {
                0
            }) + (if k >= 4 {
                bit_term(line, start as int, 3)
            } else {
                0
            }) + (if k >= 5 {
                bit_term(line, start as int, 4)
            } else {
                0
            }) + (if k >= 6 {
                bit_term(line, start as int, 5)
            } else {
                0
            }) + (if k >= 7 {
                bit_term(line, start as int, 6)
            } else {
                0
            }) + (if k >= 8 {
                bit_term(line, start as int, 7)
            } else {
                0
            }),
        decreases 8 - k,
    {
        let weight: u8 = if k == 0 {
            128
        } else if k == 1 {
            64
        } else if k == 2 {
            32
        } else if k == 3 {
            16
        } else if k == 4 {
            8
        } else if k == 5 {
            4
        } else if k == 6 {
            2
        } else {
            1
        };
        if start + k < size {
            if bit_map.get(row, start + k).is_one() {
                byte = byte + weight;
            }
        }
        k += 1;
    }
    byte
}

/// Appends the four bytes of a number, the least significant first.
fn push_le(output: &mut Vec<u8>, value: u32)
    ensures
        final(output)@ == old(output)@ + le_bytes(value as int),
{
    output.push((value % 256) as u8);
    output.push(((value / 256) % 256) as u8);
    output.push(((value / 65536) % 256) as u8);
    output.push(((value / 16777216) % 256) as u8);
    assert(output@ =~= old(output)@ + le_bytes(value as int));
}

impl BitMap {
    /// The picture of the grid as text: the rows in a light border, light
    /// modules as full blocks and dark modules as blanks, two characters
    /// for each.
    pub fn to_string(&self) -> (text: String)
        requires
            self.wf(),
            self.side() + 4 <= usize::MAX,
        ensures
            text@ == grid_text(self@, self.side()),
    {
        let size = self.size();
        let ghost n = size as nat;
        let ghost grid = self@;
        proof {
            reveal_strlit("\u{2588}\u{2588}");
            reveal_strlit("  ");
            reveal_strlit("\n");
            self.lemma_view_square();
            assert("\u{2588}\u{2588}"@ =~= light_text());
            assert("  "@ =~= dark_text());
            assert("\n"@ =~= seq!['\n']);
        }
        let mut text = String::new();
        let mut line: usize = 0;
        let ghost mut done: Seq<char> = Seq::empty();
        assert(text@ =~= done);
        while line < 2
            invariant
                line <= 2,
                size == n,
                n + 4 <= usize::MAX,
                "\u{2588}\u{2588}"@ == light_text(),
                "\n"@ == seq!['\n'],
                done == (if line == 0 {
                    Seq::<char>::empty()
                } else if line == 1 {
                    border_text(n)
                } else {
                    border_text(n) + border_text(n)
                }),
                text@ == done,
            decreases 2 - line,
        {
            let ghost before = text@;
            let mut k: usize = 0;
            assert(text@ =~= before + repeat_text(light_text(), 0));
            while k < size + 4
                invariant
                    k <= size + 4,
                    size == n,
                    n + 4 <= usize::MAX,
                    "\u{2588}\u{2588}"@ == light_text(),
                    text@ == before + repeat_text(light_text(), k as nat),
                decreases size + 4 - k,
            {
                text.append("\u{2588}\u{2588}");
                k += 1;
                assert(text@ =~= before + repeat_text(light_text(), k as nat));
            }
            text.append("\n");
            line += 1;
            proof {
                done = before + border_text(n);
                assert(text@ =~= done);
            }
        }
        let ghost top = text@;
        let mut i: usize = 0;
        assert(text@ =~= top + rows_text(grid, n, 0));
        while i < size
            invariant
                i <= size,
                size == n,
                self.wf(),
                self.side() == n,
                grid == self@,
                is_square(grid, n),
                "\u{2588}\u{2588}"@ == light_text(),
                "  "@ == dark_text(),
                "\n"@ == seq!['\n'],
                top == border_text(n) + border_text(n),
                text@ == top + rows_text(grid, n, i as nat),
            decreases size - i,
        {
            let ghost before = text@;
            text.append("\u{2588}\u{2588}");
            text.append("\u{2588}\u{2588}");
            let ghost lead = text@;
            let mut j: usize = 0;
            assert(text@ =~= lead + cells_text(grid[i as int], 0));
            while j < size
                invariant
                    j <= size,
                    i < size,
                    size == n,
                    self.wf(),
                    self.side() == n,
                    grid == self@,
                    is_square(grid, n),
                    "\u{2588}\u{2588}"@ == light_text(),
                    "  "@ == dark_text(),
                    text@ == lead + cells_text(grid[i as int], j as nat),
                decreases size - j,
            {
                if self.get(i, j).is_one() {
                    text.append("  ");
                } else {
                    text.append("\u{2588}\u{2588}");
                }
                j += 1;
                assert(text@ =~= lead + cells_text(grid[i as int], j as nat));
            }
            text.append("\u{2588}\u{2588}");
            text.append("\u{2588}\u{2588}");
            text.append("\n");
            i += 1;
            assert(text@ =~= top + rows_text(grid, n, i as nat));
        }
        let ghost body = text@;
        let mut line: usize = 0;
        proof {
            done = body;
        }
        while line < 2
            invariant
                line <= 2,
                size == n,
                n + 4 <= usize::MAX,
                "\u{2588}\u{2588}"@ == light_text(),
                "\n"@ == seq!['\n'],
                done == (if line == 0 {
                    body
                } else if line == 1 {
                    body + border_text(n)
                } else {
                    body + border_text(n) + border_text(n)
                }),
                text@ == done,
            decreases 2 - line,
        {
            let ghost before = text@;
            let mut k: usize = 0;
            assert(text@ =~= before + repeat_text(light_text(), 0));
            while k < size + 4
                invariant
                    k <= size + 4,
                    size == n,
                    n + 4 <= usize::MAX,
                    "\u{2588}\u{2588}"@ == light_text(),
                    text@ == before + repeat_text(light_text(), k as nat),
                decreases size + 4 - k,
            {
                text.append("\u{2588}\u{2588}");
                k += 1;
                assert(text@ =~= before + repeat_text(light_text(), k as nat));
            }
            text.append("\n");
            line += 1;
            proof {
                done = before + border_text(n);
                assert(text@ =~= done);
            }
        }
        assert(text@ =~= grid_text(grid, n));
        text
    }

    /// The grid as a bitmap file of one bit per pixel: the file header, the
    /// information header, the colours white and black, and the rows of
    /// pixels from the bottom up, dark modules in black.
    pub fn to_bmp(&self) -> (bytes: Vec<u8>)
        requires
            self.wf(),
            self.side() <= 32768,
        ensures
            bytes@ == bmp_bytes(self@, self.side() as int),
            bytes@.len() == bmp_file_size(self.side() as int),
    {
        let size = self.size();
        let ghost n = size as int;
        let ghost grid = self@;
        let row_bytes: usize = ((size + 31) / 32) * 4;
        proof {
            self.lemma_view_square();
            assert(n * bmp_row_bytes(n) <= 32768 * 4100) by (nonlinear_arith)
                requires
                    0 <= n <= 32768,
                    0 <= bmp_row_bytes(n) <= 4100,
            ;
            assert(n * bmp_row_bytes(n) >= 0) by (nonlinear_arith)
                requires
                    0 <= n,
                    0 <= bmp_row_bytes(n),
            ;
            lemma_rows_len(grid, n, n as nat);
        }
        let file_size: u32 = (62 + size * row_bytes) as u32;
        let mut bytes: Vec<u8> = Vec::new();
        bytes.push(0x42);
        bytes.push(0x4D);
        push_le(&mut bytes, file_size);
        push_le(&mut bytes, 0);
        push_le(&mut bytes, 62);
        push_le(&mut bytes, 40);
        push_le(&mut bytes, size as u32);
        push_le(&mut bytes, size as u32);
        bytes.push(1);
        bytes.push(0);
        bytes.push(1);
        bytes.push(0);
        push_le(&mut bytes, 0);
        push_le(&mut bytes, 0);
        push_le(&mut bytes, 0x0EC4);
        push_le(&mut bytes, 0x0EC4);
        push_le(&mut bytes, 2);
        push_le(&mut bytes, 0);
        bytes.push(0xFF);
        bytes.push(0xFF);
        bytes.push(0xFF);
        bytes.push(0);
        push_le(&mut bytes, 0);
        assert(bytes@ =~= bmp_header(n));
        let mut y: usize = 0;
        assert(bytes@ =~= bmp_header(n) + bmp_rows(grid, n, 0));
        while y < size
            invariant
                y <= size,
                size == n,
                n <= 32768,
                row_bytes == bmp_row_bytes(n),
                self.wf(),
                self.side() == n,
                grid == self@,
                is_square(grid, n as nat),
                bytes@ == bmp_header(n) + bmp_rows(grid, n, y as nat),
            decreases size - y,
        {
            let row = size - 1 - y;
            let ghost before = bytes@;
            let mut b: usize = 0;
            assert(bytes@ =~= before + bmp_row(grid[row as int], 0));
            while b < row_bytes
                invariant
                    b <= row_bytes,
                    row < size,
                    size == n,
                    n <= 32768,
                    row_bytes == bmp_row_bytes(n),
                    self.wf(),
                    self.side() == n,
                    grid == self@,
                    bytes@ == before + bmp_row(grid[row as int], b as nat),
                decreases row_bytes - b,
            {
                bytes.push(pack_pixels(self, row, 8 * b));
                b += 1;
                assert(bytes@ =~= before + bmp_row(grid[row as int], b as nat));
            }
            y += 1;
            assert(bytes@ =~= bmp_header(n) + bmp_rows(grid, n, y as nat));
        }
        bytes
    }
}

} // verus!
