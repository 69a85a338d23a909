//! The matrix of a symbol: function patterns, the stream placed, the best
//! mask, and the format and version information.

use super::format::add_format_information;
use super::format::format_cell_index;
use super::format::format_word;
use super::format::informed_cell;
use super::format::version_cell_index;
use super::format::version_word;
use super::format::with_information;
use super::format::word_bit;
use super::level::symbol_side;
use super::level::ErrorCorrectionLevel;
use super::mask::mask_data;
use super::mask::mask_condition;
use super::mask::masked;
use super::mask::masked_cell;
use super::mask::penalty;
use super::mask::penalty_score;
use super::patterns::create_alignment_patterns;
use super::patterns::create_dark_module;
use super::patterns::create_finder_patterns;
use super::patterns::create_timing_patterns;
use super::patterns::function_dark;
use super::patterns::is_reserved;
use super::patterns::is_symbol_side;
use super::patterns::reserve_format_information_areas;
use super::patterns::version_of_side;
use super::placement::cell_bit_index;
use super::placement::data_placed;
use super::placement::lemma_placed_cell;
use super::placement::free_count;
use super::placement::free_in_stripe;
use super::placement::place_data_bits;
use super::placement::stripe_count;
use super::placement::visit_column;
use super::placement::visit_row;
use super::placement::free_before_stripe;
use super::symbol::QRMode;
use crate::bit_utils::bit_string::BitString;
use crate::bit_utils::bitmap::blank_grid;
use crate::bit_utils::bitmap::BitMap;
use vstd::prelude::*;

verus! {

/// The grid of a symbol of side `n` with nothing but its function patterns.
pub open spec fn function_grid(n: int) -> Seq<Seq<bool>> {
    Seq::new(n as nat, |r: int| Seq::new(n as nat, |c: int| function_dark(n, r, c)))
}

/// The cells of a symbol of side `n` that are kept from data and masking.
pub open spec fn reservation_grid(n: int) -> Seq<Seq<bool>> {
    Seq::new(n as nat, |r: int| Seq::new(n as nat, |c: int| is_reserved(n, r, c)))
}

/// The number of cells of a symbol of side `n` that take a bit of the
/// stream.
pub open spec fn data_capacity(n: int) -> int {
    free_count(reservation_grid(n), n)
}

/// A grid with a mask applied and the format information for that mask
/// written: what the mask is judged by, and what the symbol shows.
pub open spec fn candidate(
    placed: Seq<Seq<bool>>,
    res: Seq<Seq<bool>>,
    n: int,
    level: ErrorCorrectionLevel,
    mask: int,
) -> Seq<Seq<bool>> {
    with_information(masked(placed, res, n, mask), n, level, mask)
}

/// The penalty score of the candidate of a mask.
pub open spec fn candidate_penalty(
    placed: Seq<Seq<bool>>,
    res: Seq<Seq<bool>>,
    n: int,
    level: ErrorCorrectionLevel,
    mask: int,
) -> int {
    penalty(candidate(placed, res, n, level, mask), n)
}

/// The best of the first `upto` masks: the one with the lowest penalty
/// score, and the lowest of them where several share it.
pub open spec fn best_mask_upto(
    placed: Seq<Seq<bool>>,
    res: Seq<Seq<bool>>,
    n: int,
    level: ErrorCorrectionLevel,
    upto: nat,
) -> int
    decreases upto,
{
    if upto <= 1 {
        0
    } else {
        let before = best_mask_upto(placed, res, n, level, (upto - 1) as nat);
        if candidate_penalty(placed, res, n, level, upto - 1) < candidate_penalty(
            placed,
            res,
            n,
            level,
            before,
        ) {
            upto - 1
        } else {
            before
        }
    }
}

/// The mask of a symbol: the best of the eight.
pub open spec fn best_mask(
    placed: Seq<Seq<bool>>,
    res: Seq<Seq<bool>>,
    n: int,
    level: ErrorCorrectionLevel,
) -> int {
    best_mask_upto(placed, res, n, level, 8)
}

/// The best mask is one of the eight, no mask has a lower penalty score,
/// and no lower mask has the same.
pub proof fn lemma_best_mask(
    placed: Seq<Seq<bool>>,
    res: Seq<Seq<bool>>,
    n: int,
    level: ErrorCorrectionLevel,
    upto: nat,
)
    requires
        1 <= upto <= 8,
    ensures
        0 <= best_mask_upto(placed, res, n, level, upto) < upto,
        forall|mask: int|
            0 <= mask < upto ==> candidate_penalty(
                placed,
                res,
                n,
                level,
                best_mask_upto(placed, res, n, level, upto),
            ) <= #[trigger] candidate_penalty(placed, res, n, level, mask),
        forall|mask: int|
            0 <= mask < best_mask_upto(placed, res, n, level, upto) ==> candidate_penalty(
                placed,
                res,
                n,
                level,
                best_mask_upto(placed, res, n, level, upto),
            ) < #[trigger] candidate_penalty(placed, res, n, level, mask),
    decreases upto,
{
    if upto > 1 {
        lemma_best_mask(placed, res, n, level, (upto - 1) as nat);
    }
}

/// The matrix of a symbol of side `n` at a level that shows a stream: the
/// function patterns, the stream placed, the best mask applied, and the
/// format and version information.
pub open spec fn symbol_matrix(bits: Seq<bool>, n: int, level: ErrorCorrectionLevel) -> Seq<
    Seq<bool>,
> {
    let placed = data_placed(function_grid(n), reservation_grid(n), bits, n);
    candidate(
        placed,
        reservation_grid(n),
        n,
        level,
        best_mask(placed, reservation_grid(n), n, level),
    )
}

/// What each cell of a symbol shows. A cell of the format or version
/// information shows its bit of the word for the level and the best mask,
/// or for the version; any other reserved cell shows its function
/// pattern; and every cell that is left shows its bit of the stream,
/// flipped where the best mask selects the cell.
pub proof fn lemma_symbol_cell(
    bits: Seq<bool>,
    n: int,
    level: ErrorCorrectionLevel,
    r: int,
    c: int,
)
    requires
        is_symbol_side(n),
        0 <= r < n,
        0 <= c < n,
    ensures
        ({
            let res = reservation_grid(n);
            let mask = best_mask(data_placed(function_grid(n), res, bits, n), res, n, level);
            symbol_matrix(bits, n, level)[r][c] == (if format_cell_index(n, r, c) is Some {
                word_bit(format_word(level, mask), 15, format_cell_index(n, r, c)->0)
            } else if version_of_side(n) >= 7 && version_cell_index(n, r, c) is Some {
                word_bit(version_word(version_of_side(n)), 18, 17 - version_cell_index(n, r, c)->0)
            } else if is_reserved(n, r, c) {
                function_dark(n, r, c)
            } else {
                bits[cell_bit_index(res, n, r, c)] != mask_condition(mask, r, c)
            })
        }),
        !is_reserved(n, r, c) ==> 0 <= cell_bit_index(reservation_grid(n), n, r, c)
            < data_capacity(n),
{
    let res = reservation_grid(n);
    let grid = function_grid(n);
    let placed = data_placed(grid, res, bits, n);
    let mask = best_mask(placed, res, n, level);
    lemma_placed_cell(grid, res, bits, n, r, c);
    assert(res[r][c] == is_reserved(n, r, c));
    assert(grid[r][c] == function_dark(n, r, c));
    assert(masked(placed, res, n, mask)[r][c] == masked_cell(placed, res, mask, r, c));
    assert(symbol_matrix(bits, n, level)[r][c] == informed_cell(
        masked(placed, res, n, mask),
        n,
        level,
        mask,
        r,
        c,
    ));
}

/// The function patterns of a symbol and the cells that they and the
/// format and version information reserve.
pub fn function_patterns(size: usize) -> (grids: (BitMap, BitMap))
    requires
        is_symbol_side(size as int),
    ensures
        grids.0.wf(),
        grids.1.wf(),
        grids.0.side() == size,
        grids.1.side() == size,
        grids.0@ == function_grid(size as int),
        grids.1@ == reservation_grid(size as int),
{
    let mut bit_map = BitMap::new(size);
    let mut reservations = BitMap::new(size);
    create_finder_patterns(&mut bit_map, &mut reservations);
    create_alignment_patterns(&mut bit_map, &mut reservations);
    create_timing_patterns(&mut bit_map, &mut reservations);
    create_dark_module(&mut bit_map, &mut reservations);
    reserve_format_information_areas(&mut reservations);
    proof {
        let n = size as int;
        bit_map.lemma_view_square();
        reservations.lemma_view_square();
        assert forall|r: int| 0 <= r < n implies #[trigger] bit_map@[r] =~= function_grid(n)[r] by {
            assert forall|c: int| 0 <= c < n implies bit_map@[r][c] == function_dark(n, r, c) by {
                assert(blank_grid(n as nat)[r][c] == false);
            }
        }
        assert(bit_map@ =~= function_grid(n));
        assert forall|r: int| 0 <= r < n implies #[trigger] reservations@[r] =~= reservation_grid(
            n,
        )[r] by {
            assert forall|c: int| 0 <= c < n implies reservations@[r][c] == is_reserved(n, r, c) by {
                assert(blank_grid(n as nat)[r][c] == false);
            }
        }
        assert(reservations@ =~= reservation_grid(n));
    }
    (bit_map, reservations)
}

/// The number of cells that take a bit of the stream: the cells outside
/// column 6 that are not reserved.
pub fn count_free(reservations: &BitMap) -> (count: usize)
    requires
        reservations.wf(),
        is_symbol_side(reservations.side() as int),
    ensures
        count == free_count(reservations@, reservations.side() as int),
{
    let size = reservations.size();
    let ghost n = size as int;
    let ghost res = reservations@;
    let stripes: usize = (size - 1) / 2;
    let mut count: usize = 0;
    let mut x_pos: usize = size - 1;
    let mut s: usize = 0;
    while s < stripes
        invariant
            s <= stripes,
            stripes == stripe_count(n),
            size == n,
            is_symbol_side(n),
            reservations.wf(),
            reservations.side() == n,
            res == reservations@,
            s < stripes ==> x_pos == super::placement::stripe_column(n, s as int),
            count == free_before_stripe(res, n, s as nat),
            count <= 2 * n * s,
        decreases stripes - s,
    {
        let upwards = s % 2 == 0;
        let mut i: usize = 0;
        let ghost base = count as int;
        while i < size
            invariant
                i <= size,
                s < stripes,
                stripes == stripe_count(n),
                size == n,
                is_symbol_side(n),
                reservations.wf(),
                reservations.side() == n,
                res == reservations@,
                x_pos == super::placement::stripe_column(n, s as int),
                upwards == (s % 2 == 0),
                base == free_before_stripe(res, n, s as nat),
                base <= 2 * n * s,
                count == base + free_in_stripe(res, n, s as int, (2 * i) as nat),
                count <= base + 2 * i,
            decreases size - i,
        {
            let y_pos: usize = if upwards {
                size - 1 - i
            } else {
                i
            };
            proof {
                assert(y_pos == visit_row(n, s as int, 2 * i));
                assert(y_pos == visit_row(n, s as int, 2 * i + 1));
                assert(x_pos == visit_column(n, s as int, 2 * i));
                assert(x_pos - 1 == visit_column(n, s as int, 2 * i + 1));
                assert(2 * n * s <= 2 * 177 * 88) by (nonlinear_arith)
                    requires
                        0 <= n <= 177,
                        0 <= s <= 88,
                ;
            }
            if !reservations.get(y_pos, x_pos).is_one() {
                count += 1;
            }
            assert(count == base + free_in_stripe(res, n, s as int, (2 * i + 1) as nat));
            if !reservations.get(y_pos, x_pos - 1).is_one() {
                count += 1;
            }
            i += 1;
        }
        proof {
            assert(2 * n * (s + 1) == 2 * n * s + 2 * n) by (nonlinear_arith);
        }
        s += 1;
        if s < stripes {
            x_pos -= 2;
            if x_pos == 6 {
                x_pos -= 1;
            }
        }
    }
    count
}

/// The best of the eight masks for a grid with its data placed: each mask
/// is applied to a copy, the format information for it is written, and
/// the copy is scored; the lowest score wins, and the lowest mask among
/// equal scores.
pub fn select_mask(
    placed: &BitMap,
    reservations: &BitMap,
    error_correction_level: &ErrorCorrectionLevel,
    version: usize,
) -> (mask: u32)
    requires
        placed.wf(),
        reservations.wf(),
        placed.side() == reservations.side(),
        is_symbol_side(placed.side() as int),
        version == version_of_side(placed.side() as int),
    ensures
        mask < 8,
        mask == best_mask(placed@, reservations@, placed.side() as int, *error_correction_level),
{
    let ghost n = placed.side() as int;
    let ghost level = *error_correction_level;
    let mut best: u32 = 0;
    let mut best_score: u32 = 0;
    let mut mask: u32 = 0;
    while mask < 8
        invariant
            mask <= 8,
            placed.wf(),
            reservations.wf(),
            placed.side() == n,
            reservations.side() == n,
            is_symbol_side(n),
            version == version_of_side(n),
            level == *error_correction_level,
            mask > 0 ==> best == best_mask_upto(placed@, reservations@, n, level, mask as nat),
            mask > 0 ==> best_score == candidate_penalty(
                placed@,
                reservations@,
                n,
                level,
                best as int,
            ),
            best < 8,
        decreases 8 - mask,
    {
        let mut trial = placed.duplicate();
        mask_data(&mut trial, reservations, mask);
        add_format_information(&mut trial, error_correction_level, version, mask);
        let score = penalty_score(&trial);
        if mask == 0 || score < best_score {
            best = mask;
            best_score = score;
        }
        mask += 1;
    }
    best
}

impl QRMode {
    /// The matrix of the symbol for a stream of its bits: the function
    /// patterns, the stream placed in the cells that are not reserved, the
    /// best mask applied, and the format and version information.
    pub fn create_bit_map(&self, bits: BitString) -> (bit_map: BitMap)
        requires
            self.wf(),
            bits.wf(),
            data_capacity(symbol_side(self.symbol_version())) <= bits@.len(),
        ensures
            bit_map.wf(),
            bit_map.side() == symbol_side(self.symbol_version()),
            bit_map@ == symbol_matrix(bits@, symbol_side(self.symbol_version()), self.level()),
    {
        proof {
            self.lemma_wf();
        }
        let version = self.version();
        let size = 17 + (4 * version);
        let (mut bit_map, reservations) = function_patterns(size);
        place_data_bits(&mut bit_map, &reservations, &bits);
        let mask = select_mask(&bit_map, &reservations, self.error_correction_level(), version);
        mask_data(&mut bit_map, &reservations, mask);
        add_format_information(&mut bit_map, self.error_correction_level(), version, mask);
        bit_map
    }
}

} // verus!
