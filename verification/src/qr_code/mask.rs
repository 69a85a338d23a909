//! The eight masks and the penalty score by which one is chosen.

use crate::bit_utils::bitmap::is_square;
use crate::bit_utils::bitmap::BitMap;
use vstd::prelude::*;

verus! {

/// Whether mask `mask` flips the cell in row `r`, column `c`.
pub open spec fn mask_condition(mask: int, r: int, c: int) -> bool {
    if mask == 0 {
        (r + c) % 2 == 0
    } else if mask == 1 {
        r % 2 == 0
    } else if mask == 2 {
        c % 3 == 0
    } else if mask == 3 {
        (r + c) % 3 == 0
    } else if mask == 4 {
        (r / 2 + c / 3) % 2 == 0
    } else if mask == 5 {
        (r * c) % 2 + (r * c) % 3 == 0
    } else if mask == 6 {
        ((r * c) % 2 + (r * c) % 3) % 2 == 0
    } else {
        ((r + c) % 2 + (r * c) % 3) % 2 == 0
    }
}

/// What a cell holds once a mask is applied: the cells that are not
/// reserved and that the mask selects are flipped.
pub open spec fn masked_cell(
    grid: Seq<Seq<bool>>,
    res: Seq<Seq<bool>>,
    mask: int,
    r: int,
    c: int,
) -> bool {
    if !res[r][c] && mask_condition(mask, r, c) {
        !grid[r][c]
    } else {
        grid[r][c]
    }
}

/// The grid with a mask applied.
pub open spec fn masked(grid: Seq<Seq<bool>>, res: Seq<Seq<bool>>, n: int, mask: int) -> Seq<
    Seq<bool>,
> {
    Seq::new(n as nat, |r: int| Seq::new(n as nat, |c: int| masked_cell(grid, res, mask, r, c)))
}

/// Applying a mask twice gives the grid back.
pub proof fn lemma_mask_involution(grid: Seq<Seq<bool>>, res: Seq<Seq<bool>>, n: int, mask: int)
    requires
        n >= 0,
        is_square(grid, n as nat),
    ensures
        masked(masked(grid, res, n, mask), res, n, mask) == grid,
{
    let once = masked(grid, res, n, mask);
    let twice = masked(once, res, n, mask);
    assert forall|r: int| 0 <= r < n implies #[trigger] twice[r] =~= grid[r] by {
        assert forall|c: int| 0 <= c < n implies twice[r][c] == grid[r][c] by {
            assert(once[r][c] == masked_cell(grid, res, mask, r, c));
        }
    }
    assert(twice =~= grid);
}

/// Column `c` of a grid, from the top down.
pub open spec fn column(grid: Seq<Seq<bool>>, n: int, c: int) -> Seq<bool> {
    Seq::new(n as nat, |r: int| grid[r][c])
}

/// The length of the run of equal cells that ends at place `i` of a line.
pub open spec fn run_length(line: Seq<bool>, i: int) -> int
    decreases i,
{
    if i <= 0 {
        1
    } else if line[i] == line[i - 1] {
        run_length(line, i - 1) + 1
    } else {
        1
    }
}

/// What place `i` adds to the penalty for runs: three where a run reaches
/// five cells, one for every further cell of it.
pub open spec fn run_penalty_at(line: Seq<bool>, i: int) -> int {
    if run_length(line, i) == 5 {
        3
    } else if run_length(line, i) > 5 {
        1
    } else {
        0
    }
}

/// The penalty for the runs of five or more equal cells among the first
/// `upto` cells of a line: three and the cells beyond five for each run.
pub open spec fn line_run_penalty(line: Seq<bool>, upto: nat) -> int
    decreases upto,
{
    if upto == 0 {
        0
    } else {
        line_run_penalty(line, (upto - 1) as nat) + run_penalty_at(line, upto - 1)
    }
}

/// Whether the eleven cells that begin at place `i` of a line show the
/// pattern 10111010000 or 00001011101.
pub open spec fn finder_like_at(line: Seq<bool>, i: int) -> bool {
    ||| (line[i] && !line[i + 1] && line[i + 2] && line[i + 3] && line[i + 4] && !line[i + 5]
        && line[i + 6] && !line[i + 7] && !line[i + 8] && !line[i + 9] && !line[i + 10])
    ||| (!line[i] && !line[i + 1] && !line[i + 2] && !line[i + 3] && line[i + 4] && !line[i + 5]
        && line[i + 6] && line[i + 7] && line[i + 8] && !line[i + 9] && line[i + 10])
}

/// The number of places among the first `upto` of a line where one of the
/// two patterns begins.
pub open spec fn line_pattern_count(line: Seq<bool>, upto: nat) -> int
    decreases upto,
{
    if upto == 0 {
        0
    } else {
        line_pattern_count(line, (upto - 1) as nat) + (if finder_like_at(line, upto - 1) {
            1int
        } else {
            0
        })
    }
}

/// The number of places of a line where one of the two patterns fits.
pub open spec fn pattern_places(len: int) -> nat {
    if len >= 11 {
        (len - 10) as nat
    } else {
        0
    }
}

/// The run penalties of the first `upto` rows.
pub open spec fn rows_run_penalty(grid: Seq<Seq<bool>>, n: int, upto: nat) -> int
    decreases upto,
{
    if upto == 0 {
        0
    } else {
        rows_run_penalty(grid, n, (upto - 1) as nat) + line_run_penalty(grid[upto - 1], n as nat)
    }
}

/// The run penalties of the first `upto` columns.
pub open spec fn columns_run_penalty(grid: Seq<Seq<bool>>, n: int, upto: nat) -> int
    decreases upto,
{
    if upto == 0 {
        0
    } else {
        columns_run_penalty(grid, n, (upto - 1) as nat) + line_run_penalty(
            column(grid, n, upto - 1),
            n as nat,
        )
    }
}

/// The pattern counts of the first `upto` rows.
pub open spec fn rows_pattern_count(grid: Seq<Seq<bool>>, n: int, upto: nat) -> int
    decreases upto,
{
    if upto == 0 {
        0
    } else {
        rows_pattern_count(grid, n, (upto - 1) as nat) + line_pattern_count(
            grid[upto - 1],
            pattern_places(n),
        )
    }
}

/// The pattern counts of the first `upto` columns.
pub open spec fn columns_pattern_count(grid: Seq<Seq<bool>>, n: int, upto: nat) -> int
    decreases upto,
{
    if upto == 0 {
        0
    } else {
        columns_pattern_count(grid, n, (upto - 1) as nat) + line_pattern_count(
            column(grid, n, upto - 1),
            pattern_places(n),
        )
    }
}

/// Whether the four cells whose top-left one is `(r, c)` are equal.
pub open spec fn is_solid_block(grid: Seq<Seq<bool>>, r: int, c: int) -> bool {
    grid[r][c] == grid[r][c + 1] && grid[r][c] == grid[r + 1][c] && grid[r][c] == grid[r + 1][c
        + 1]
}

/// The number of solid blocks whose top-left cell is among the first
/// `upto` cells of row `r`.
pub open spec fn row_blocks(grid: Seq<Seq<bool>>, r: int, upto: nat) -> int
    decreases upto,
{
    if upto == 0 {
        0
    } else {
        row_blocks(grid, r, (upto - 1) as nat) + (if is_solid_block(grid, r, upto - 1) {
            1int
        } else {
            0
        })
    }
}

/// The number of solid blocks whose top-left cell is in the first `upto`
/// rows.
pub open spec fn grid_blocks(grid: Seq<Seq<bool>>, n: int, upto: nat) -> int
    decreases upto,
{
    if upto == 0 {
        0
    } else {
        grid_blocks(grid, n, (upto - 1) as nat) + row_blocks(grid, upto - 1, (n - 1) as nat)
    }
}

/// The number of dark cells among the first `upto` of a line.
pub open spec fn line_dark(line: Seq<bool>, upto: nat) -> int
    decreases upto,
{
    if upto == 0 {
        0
    } else {
        line_dark(line, (upto - 1) as nat) + (if line[upto - 1] {
            1int
        } else {
            0
        })
    }
}

/// The number of dark cells in the first `upto` rows.
pub open spec fn grid_dark(grid: Seq<Seq<bool>>, n: int, upto: nat) -> int
    decreases upto,
{
    if upto == 0 {
        0
    } else {
        grid_dark(grid, n, (upto - 1) as nat) + line_dark(grid[upto - 1], n as nat)
    }
}

/// The penalty for runs of equal cells in rows and columns.
pub open spec fn run_penalty(grid: Seq<Seq<bool>>, n: int) -> int {
    rows_run_penalty(grid, n, n as nat) + columns_run_penalty(grid, n, n as nat)
}

/// The penalty for solid blocks of two by two: three for each.
pub open spec fn block_penalty(grid: Seq<Seq<bool>>, n: int) -> int {
    3 * grid_blocks(grid, n, (n - 1) as nat)
}

/// The penalty for finder-like patterns in rows and columns: forty for
/// each.
pub open spec fn pattern_penalty(grid: Seq<Seq<bool>>, n: int) -> int {
    40 * (rows_pattern_count(grid, n, n as nat) + columns_pattern_count(grid, n, n as nat))
}

/// The penalty for imbalance: ten for every five points that the share of
/// dark cells, in whole percent, lies away from fifty.
pub open spec fn balance_penalty(grid: Seq<Seq<bool>>, n: int) -> int {
    let percent = (100 * grid_dark(grid, n, n as nat)) / (n * n);
    let distance = if percent >= 50 {
        percent - 50
    } else {
        50 - percent
    };
    10 * (distance / 5)
}

/// The penalty score of a grid: the sum of its four penalties.
pub open spec fn penalty(grid: Seq<Seq<bool>>, n: int) -> int {
    run_penalty(grid, n) + block_penalty(grid, n) + pattern_penalty(grid, n) + balance_penalty(
        grid,
        n,
    )
}

proof fn lemma_line_run_bound(line: Seq<bool>, upto: nat)
    ensures
        0 <= line_run_penalty(line, upto) <= 3 * upto,
    decreases upto,
{
    if upto > 0 {
        lemma_line_run_bound(line, (upto - 1) as nat);
    }
}

proof fn lemma_line_pattern_bound(line: Seq<bool>, upto: nat)
    ensures
        0 <= line_pattern_count(line, upto) <= upto,
    decreases upto,
{
    if upto > 0 {
        lemma_line_pattern_bound(line, (upto - 1) as nat);
    }
}

proof fn lemma_row_blocks_bound(grid: Seq<Seq<bool>>, r: int, upto: nat)
    ensures
        0 <= row_blocks(grid, r, upto) <= upto,
    decreases upto,
{
    if upto > 0 {
        lemma_row_blocks_bound(grid, r, (upto - 1) as nat);
    }
}

proof fn lemma_line_dark_bound(line: Seq<bool>, upto: nat)
    ensures
        0 <= line_dark(line, upto) <= upto,
    decreases upto,
{
    if upto > 0 {
        lemma_line_dark_bound(line, (upto - 1) as nat);
    }
}

proof fn lemma_sums_bound(grid: Seq<Seq<bool>>, n: int, upto: nat)
    requires
        0 <= n <= 177,
        upto <= n,
    ensures
        0 <= rows_run_penalty(grid, n, upto) <= 531 * upto,
        0 <= columns_run_penalty(grid, n, upto) <= 531 * upto,
        0 <= rows_pattern_count(grid, n, upto) <= 177 * upto,
        0 <= columns_pattern_count(grid, n, upto) <= 177 * upto,
        0 <= grid_blocks(grid, n, upto) <= 177 * upto,
        0 <= grid_dark(grid, n, upto) <= 177 * upto,
    decreases upto,
{
    if upto > 0 {
        lemma_sums_bound(grid, n, (upto - 1) as nat);
        lemma_line_run_bound(grid[upto - 1], n as nat);
        lemma_line_run_bound(column(grid, n, upto - 1), n as nat);
        lemma_line_pattern_bound(grid[upto - 1], pattern_places(n));
        lemma_line_pattern_bound(column(grid, n, upto - 1), pattern_places(n));
        lemma_row_blocks_bound(grid, upto - 1, (n - 1) as nat);
        lemma_line_dark_bound(grid[upto - 1], n as nat);
    }
}

proof fn lemma_product_bound(r: int, c: int)
    by (nonlinear_arith)
    requires
        0 <= r <= 177,
        0 <= c <= 177,
    ensures
        0 <= r * c <= 31329,
{
}

/// Whether mask `mask` flips the cell in row `row`, column `column`.
pub fn mask_selects(mask: u32, row: usize, column: usize) -> (selected: bool)
    requires
        mask < 8,
        row <= 177,
        column <= 177,
    ensures
        selected == mask_condition(mask as int, row as int, column as int),
{
    proof {
        lemma_product_bound(row as int, column as int);
    }
    if mask == 0 {
        (row + column) % 2 == 0
    } else if mask == 1 {
        row % 2 == 0
    } else if mask == 2 {
        column % 3 == 0
    } else if mask == 3 {
        (row + column) % 3 == 0
    } else if mask == 4 {
        (row / 2 + column / 3) % 2 == 0
    } else if mask == 5 {
        (row * column) % 2 + (row * column) % 3 == 0
    } else if mask == 6 {
        ((row * column) % 2 + (row * column) % 3) % 2 == 0
    } else {
        ((row + column) % 2 + (row * column) % 3) % 2 == 0
    }
}

/// Applies a mask: every cell that is not reserved and that the mask
/// selects is flipped.
pub fn mask_data(bit_map: &mut BitMap, reservations: &BitMap, mask: u32)
    requires
        old(bit_map).wf(),
        reservations.wf(),
        old(bit_map).side() == reservations.side(),
        old(bit_map).side() <= 177,
        mask < 8,
    ensures
        final(bit_map).wf(),
        final(bit_map).side() == old(bit_map).side(),
        final(bit_map)@ == masked(
            old(bit_map)@,
            reservations@,
            old(bit_map).side() as int,
            mask as int,
        ),
{
    let size = bit_map.size();
    let ghost n = size as int;
    let ghost start = bit_map@;
    let ghost res = reservations@;
    proof {
        bit_map.lemma_view_square();
    }
    let mut row: usize = 0;
    while row < size
        invariant
            row <= size,
            size == n,
            n <= 177,
            mask < 8,
            bit_map.wf(),
            reservations.wf(),
            bit_map.side() == n,
            reservations.side() == n,
            res == reservations@,
            is_square(start, n as nat),
            forall|r: int, c: int|
                0 <= r < n && 0 <= c < n ==> #[trigger] bit_map@[r][c] == (if r < row {
                    masked_cell(start, res, mask as int, r, c)
                } else {
                    start[r][c]
                }),
        decreases size - row,
    {
        let mut column: usize = 0;
        while column < size
            invariant
                column <= size,
                row < size,
                size == n,
                n <= 177,
                mask < 8,
                bit_map.wf(),
                reservations.wf(),
                bit_map.side() == n,
                reservations.side() == n,
                res == reservations@,
                is_square(start, n as nat),
                forall|r: int, c: int|
                    0 <= r < n && 0 <= c < n ==> #[trigger] bit_map@[r][c] == (if r < row || (r
                        == row && c < column) {
                        masked_cell(start, res, mask as int, r, c)
                    } else {
                        start[r][c]
                    }),
            decreases size - column,
        {
            let ghost before = bit_map@;
            proof {
                bit_map.lemma_view_square();
            }
            if mask_selects(mask, row, column) {
                if !reservations.get(row, column).is_one() {
                    bit_map.invert_bit(row, column);
                }
            }
            proof {
                bit_map.lemma_view_square();
                assert forall|r: int, c: int| 0 <= r < n && 0 <= c < n implies #[trigger] bit_map@[r][c]
                    == (if r < row || (r == row && c < column + 1) {
                    masked_cell(start, res, mask as int, r, c)
                } else {
                    start[r][c]
                }) by {
                    assert(before[r][c] == (if r < row || (r == row && c < column) {
                        masked_cell(start, res, mask as int, r, c)
                    } else {
                        start[r][c]
                    }));
                }
            }
            column += 1;
        }
        row += 1;
    }
    proof {
        bit_map.lemma_view_square();
        let target = masked(start, res, n, mask as int);
        assert forall|r: int| 0 <= r < n implies #[trigger] bit_map@[r] =~= target[r] by {
            assert forall|c: int| 0 <= c < n implies bit_map@[r][c] == target[r][c] by {
                assert(bit_map@[r][c] == masked_cell(start, res, mask as int, r, c));
            }
        }
        assert(bit_map@ =~= target);
    }
}

/// The cells of a row.
fn row_cells(bit_map: &BitMap, r: usize) -> (line: Vec<bool>)
    requires
        bit_map.wf(),
        r < bit_map.side(),
    ensures
        line@ == bit_map@[r as int],
{
    let size = bit_map.size();
    proof {
        bit_map.lemma_view_square();
    }
    let mut line: Vec<bool> = Vec::new();
    let mut c: usize = 0;
    while c < size
        invariant
            c <= size,
            size == bit_map.side(),
            r < size,
            bit_map.wf(),
            is_square(bit_map@, size as nat),
            line@ == bit_map@[r as int].subrange(0, c as int),
        decreases size - c,
    {
        line.push(bit_map.get(r, c).is_one());
        c += 1;
        assert(line@ =~= bit_map@[r as int].subrange(0, c as int));
    }
    assert(line@ =~= bit_map@[r as int]);
    line
}

/// The cells of a column, from the top down.
fn column_cells(bit_map: &BitMap, c: usize) -> (line: Vec<bool>)
    requires
        bit_map.wf(),
        c < bit_map.side(),
    ensures
        line@ == column(bit_map@, bit_map.side() as int, c as int),
{
    let size = bit_map.size();
    let ghost target = column(bit_map@, size as int, c as int);
    let mut line: Vec<bool> = Vec::new();
    let mut r: usize = 0;
    while r < size
        invariant
            r <= size,
            size == bit_map.side(),
            c < size,
            bit_map.wf(),
            target == column(bit_map@, size as int, c as int),
            line@ == target.subrange(0, r as int),
        decreases size - r,
    {
        line.push(bit_map.get(r, c).is_one());
        r += 1;
        assert(line@ =~= target.subrange(0, r as int));
    }
    assert(line@ =~= target);
    line
}

/// The penalty for the runs of a line.
fn line_runs(line: &Vec<bool>) -> (score: u32)
    requires
        line@.len() <= 177,
    ensures
        score == line_run_penalty(line@, line@.len()),
{
    let n = line.len();
    let mut score: u32 = 0;
    let mut length: usize = 0;
    let mut i: usize = 0;
    while i < n
        invariant
            i <= n,
            n == line@.len(),
            n <= 177,
            score == line_run_penalty(line@, i as nat),
            i > 0 ==> length == run_length(line@, i - 1),
            length <= i,
        decreases n - i,
    {
        proof {
            lemma_line_run_bound(line@, i as nat);
        }
        if i > 0 && line[i] == line[i - 1] {
            length += 1;
        } else {
            length = 1;
        }
        if length == 5 {
            score += 3;
        } else if length > 5 {
            score += 1;
        }
        i += 1;
    }
    score
}

/// The number of places of a line where one of the two patterns begins.
fn line_patterns(line: &Vec<bool>) -> (count: u32)
    requires
        line@.len() <= 177,
    ensures
        count == line_pattern_count(line@, pattern_places(line@.len() as int)),
{
    let n = line.len();
    if n < 11 {
        return 0;
    }
    let places = n - 10;
    let mut count: u32 = 0;
    let mut i: usize = 0;
    while i < places
        invariant
            i <= places,
            places == n - 10,
            n == line@.len(),
            11 <= n <= 177,
            count == line_pattern_count(line@, i as nat),
        decreases places - i,
    {
        proof {
            lemma_line_pattern_bound(line@, i as nat);
        }
        let first = line[i] && !line[i + 1] && line[i + 2] && line[i + 3] && line[i + 4]
            && !line[i + 5] && line[i + 6] && !line[i + 7] && !line[i + 8] && !line[i + 9]
            && !line[i + 10];
        let second = !line[i] && !line[i + 1] && !line[i + 2] && !line[i + 3] && line[i + 4]
            && !line[i + 5] && line[i + 6] && line[i + 7] && line[i + 8] && !line[i + 9] && line[i
            + 10];
        if first || second {
            count += 1;
        }
        i += 1;
    }
    count
}

/// The number of dark cells of a line.
fn line_darks(line: &Vec<bool>) -> (count: u32)
    requires
        line@.len() <= 177,
    ensures
        count == line_dark(line@, line@.len()),
{
    let n = line.len();
    let mut count: u32 = 0;
    let mut i: usize = 0;
    while i < n
        invariant
            i <= n,
            n == line@.len(),
            n <= 177,
            count == line_dark(line@, i as nat),
        decreases n - i,
    {
        proof {
            lemma_line_dark_bound(line@, i as nat);
        }
        if line[i] {
            count += 1;
        }
        i += 1;
    }
    count
}

/// The number of solid blocks whose top-left cell lies in the upper of two
/// rows that follow one another.
fn blocks_between(upper: &Vec<bool>, lower: &Vec<bool>, Ghost(grid): Ghost<Seq<Seq<bool>>>, Ghost(
    r,
): Ghost<int>) -> (count: u32)
    requires
        1 <= upper@.len() <= 177,
        lower@.len() == upper@.len(),
        upper@ == grid[r],
        lower@ == grid[r + 1],
    ensures
        count == row_blocks(grid, r, (upper@.len() - 1) as nat),
{
    let n = upper.len();
    let mut count: u32 = 0;
    let mut c: usize = 0;
    while c < n - 1
        invariant
            c <= n - 1,
            n == upper@.len(),
            n == lower@.len(),
            1 <= n <= 177,
            upper@ == grid[r],
            lower@ == grid[r + 1],
            count == row_blocks(grid, r, c as nat),
        decreases n - 1 - c,
    {
        proof {
            lemma_row_blocks_bound(grid, r, c as nat);
        }
        let cell = upper[c];
        if cell == upper[c + 1] && cell == lower[c] && cell == lower[c + 1] {
            count += 1;
        }
        c += 1;
    }
    count
}

/// The penalty score of a symbol: for runs of five or more equal modules
/// in a row or column, for solid blocks of two by two, for finder-like
/// patterns, and for the imbalance of dark and light.
pub fn penalty_score(bit_map: &BitMap) -> (score: u32)
    requires
        bit_map.wf(),
        1 <= bit_map.side() <= 177,
    ensures
        score == penalty(bit_map@, bit_map.side() as int),
{
    let size = bit_map.size();
    let ghost n = size as int;
    let ghost grid = bit_map@;
    proof {
        bit_map.lemma_view_square();
    }
    let mut runs: u32 = 0;
    let mut patterns: u32 = 0;
    let mut darks: u32 = 0;
    let mut blocks: u32 = 0;
    let mut r: usize = 0;
    while r < size
        invariant
            r <= size,
            size == n,
            1 <= n <= 177,
            bit_map.wf(),
            bit_map.side() == n,
            grid == bit_map@,
            is_square(grid, n as nat),
            runs == rows_run_penalty(grid, n, r as nat),
            patterns == rows_pattern_count(grid, n, r as nat),
            darks == grid_dark(grid, n, r as nat),
            blocks == grid_blocks(grid, n, (if r < size - 1 {
                r
            } else {
                (size - 1) as usize
            }) as nat),
        decreases size - r,
    {
        proof {
            lemma_sums_bound(grid, n, r as nat);
            lemma_sums_bound(grid, n, (r + 1) as nat);
            if r < size - 1 {
                lemma_sums_bound(grid, n, r as nat);
            }
        }
        let line = row_cells(bit_map, r);
        runs += line_runs(&line);
        patterns += line_patterns(&line);
        darks += line_darks(&line);
        if r + 1 < size {
            let below = row_cells(bit_map, r + 1);
            blocks += blocks_between(&line, &below, Ghost(grid), Ghost(r as int));
        }
        r += 1;
    }
    let mut c: usize = 0;
    let ghost row_runs = runs as int;
    let ghost row_patterns = patterns as int;
    while c < size
        invariant
            c <= size,
            size == n,
            1 <= n <= 177,
            bit_map.wf(),
            bit_map.side() == n,
            grid == bit_map@,
            row_runs == rows_run_penalty(grid, n, n as nat),
            row_patterns == rows_pattern_count(grid, n, n as nat),
            runs == row_runs + columns_run_penalty(grid, n, c as nat),
            patterns == row_patterns + columns_pattern_count(grid, n, c as nat),
        decreases size - c,
    {
        proof {
            lemma_sums_bound(grid, n, n as nat);
            lemma_sums_bound(grid, n, c as nat);
            lemma_sums_bound(grid, n, (c + 1) as nat);
        }
        let line = column_cells(bit_map, c);
        runs += line_runs(&line);
        patterns += line_patterns(&line);
        c += 1;
    }
    proof {
        lemma_sums_bound(grid, n, n as nat);
        lemma_sums_bound(grid, n, (n - 1) as nat);
        lemma_product_bound(n, n);
        assert(n * n >= 1) by (nonlinear_arith)
            requires
                n >= 1,
        ;
    }
    let total: u32 = (size * size) as u32;
    let percent: u32 = (100 * darks) / total;
    let distance: u32 = if percent >= 50 {
        percent - 50
    } else {
        50 - percent
    };
    runs + 3 * blocks + 40 * patterns + 10 * (distance / 5)
}

} // verus!
