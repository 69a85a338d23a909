//! The stream placed in the matrix, in stripes of two columns from the
//! right edge leftwards.

use super::patterns::is_symbol_side;
use crate::bit_utils::bit_string::BitString;
use crate::bit_utils::bitmap::grid_put;
use crate::bit_utils::bitmap::is_square;
use crate::bit_utils::bitmap::BitMap;
use vstd::prelude::*;

verus! {

/// The number of stripes, two columns wide, that the data runs through:
/// every column but the timing column 6 belongs to one.
pub open spec fn stripe_count(n: int) -> int {
    (n - 1) / 2
}

/// The right column of stripe `s`, counted from the right edge. The
/// stripes left of the timing column lie one column further left.
pub open spec fn stripe_column(n: int, s: int) -> int {
    if n - 1 - 2 * s > 6 {
        n - 1 - 2 * s
    } else {
        n - 2 - 2 * s
    }
}

/// The row of step `i` of stripe `s`: the stripes run upwards and
/// downwards in turn, the first one upwards.
pub open spec fn stripe_row(n: int, s: int, i: int) -> int {
    if s % 2 == 0 {
        n - 1 - i
    } else {
        i
    }
}

/// The row of visit `t` of a stripe: each row is visited twice.
pub open spec fn visit_row(n: int, s: int, t: int) -> int {
    stripe_row(n, s, t / 2)
}

/// The column of visit `t` of a stripe: the right module first, then the
/// left one.
pub open spec fn visit_column(n: int, s: int, t: int) -> int {
    stripe_column(n, s) - t % 2
}

/// The number of cells that take a bit among the first `t_upto` visits of
/// stripe `s`.
pub open spec fn free_in_stripe(res: Seq<Seq<bool>>, n: int, s: int, t_upto: nat) -> int
    decreases t_upto,
{
    if t_upto == 0 {
        0
    } else {
        free_in_stripe(res, n, s, (t_upto - 1) as nat) + (if res[visit_row(
            n,
            s,
            t_upto - 1,
        )][visit_column(n, s, t_upto - 1)] {
            0int
        } else {
            1
        })
    }
}

/// The number of cells that take a bit in the first `s_upto` stripes.
pub open spec fn free_before_stripe(res: Seq<Seq<bool>>, n: int, s_upto: nat) -> int
    decreases s_upto,
{
    if s_upto == 0 {
        0
    } else {
        free_before_stripe(res, n, (s_upto - 1) as nat) + free_in_stripe(
            res,
            n,
            s_upto - 1,
            (2 * n) as nat,
        )
    }
}

/// The number of cells that take a bit: the cells outside column 6 that
/// are not reserved.
pub open spec fn free_count(res: Seq<Seq<bool>>, n: int) -> int {
    free_before_stripe(res, n, stripe_count(n) as nat)
}

/// The place in the stream of the bit for visit `t` of stripe `s`.
pub open spec fn bit_index(res: Seq<Seq<bool>>, n: int, s: int, t: int) -> int {
    free_before_stripe(res, n, s as nat) + free_in_stripe(res, n, s, t as nat)
}

/// The grid after the first `t_upto` visits of stripe `s`: each visited
/// cell that is not reserved holds the next bit of the stream.
pub open spec fn fill_stripe(
    grid: Seq<Seq<bool>>,
    res: Seq<Seq<bool>>,
    bits: Seq<bool>,
    n: int,
    s: int,
    t_upto: nat,
) -> Seq<Seq<bool>>
    decreases t_upto,
{
    if t_upto == 0 {
        grid
    } else {
        let before = fill_stripe(grid, res, bits, n, s, (t_upto - 1) as nat);
        let r = visit_row(n, s, t_upto - 1);
        let c = visit_column(n, s, t_upto - 1);
        if res[r][c] {
            before
        } else {
            grid_put(before, r, c, bits[bit_index(res, n, s, t_upto - 1)])
        }
    }
}

/// The grid after the first `s_upto` stripes.
pub open spec fn fill_stripes(
    grid: Seq<Seq<bool>>,
    res: Seq<Seq<bool>>,
    bits: Seq<bool>,
    n: int,
    s_upto: nat,
) -> Seq<Seq<bool>>
    decreases s_upto,
{
    if s_upto == 0 {
        grid
    } else {
        fill_stripe(
            fill_stripes(grid, res, bits, n, (s_upto - 1) as nat),
            res,
            bits,
            n,
            s_upto - 1,
            (2 * n) as nat,
        )
    }
}

/// The grid with the stream placed: the stripes run from the right edge
/// leftwards, upwards and downwards in turn, and every cell that is not
/// reserved takes the next bit.
pub open spec fn data_placed(
    grid: Seq<Seq<bool>>,
    res: Seq<Seq<bool>>,
    bits: Seq<bool>,
    n: int,
) -> Seq<Seq<bool>> {
    fill_stripes(grid, res, bits, n, stripe_count(n) as nat)
}

proof fn lemma_free_in_stripe_grows(res: Seq<Seq<bool>>, n: int, s: int, t: nat, upto: nat)
    requires
        t <= upto,
    ensures
        0 <= free_in_stripe(res, n, s, t) <= free_in_stripe(res, n, s, upto),
    decreases upto,
{
    if t < upto {
        lemma_free_in_stripe_grows(res, n, s, t, (upto - 1) as nat);
    } else {
        if t > 0 {
            lemma_free_in_stripe_grows(res, n, s, (t - 1) as nat, (t - 1) as nat);
        }
    }
}

proof fn lemma_free_before_grows(res: Seq<Seq<bool>>, n: int, s: nat, upto: nat)
    requires
        s <= upto,
        n >= 0,
    ensures
        0 <= free_before_stripe(res, n, s) <= free_before_stripe(res, n, upto),
    decreases upto,
{
    if s < upto {
        lemma_free_before_grows(res, n, s, (upto - 1) as nat);
        lemma_free_in_stripe_grows(res, n, upto - 1, 0, (2 * n) as nat);
    } else {
        if s > 0 {
            lemma_free_before_grows(res, n, (s - 1) as nat, (s - 1) as nat);
            lemma_free_in_stripe_grows(res, n, s - 1, 0, (2 * n) as nat);
        }
    }
}

/// Every visit that takes a bit finds one: its place in the stream lies
/// below the number of cells that take a bit.
pub proof fn lemma_bit_index_bound(res: Seq<Seq<bool>>, n: int, s: int, t: int)
    requires
        n >= 0,
        0 <= s < stripe_count(n),
        0 <= t < 2 * n,
        !res[visit_row(n, s, t)][visit_column(n, s, t)],
    ensures
        0 <= bit_index(res, n, s, t) < free_count(res, n),
{
    lemma_free_in_stripe_grows(res, n, s, (t + 1) as nat, (2 * n) as nat);
    lemma_free_in_stripe_grows(res, n, s, t as nat, t as nat);
    lemma_free_before_grows(res, n, (s + 1) as nat, stripe_count(n) as nat);
    lemma_free_before_grows(res, n, s as nat, s as nat);
}

/// The stripe that a column other than the timing column 6 belongs to.
pub open spec fn stripe_of(n: int, c: int) -> int {
    if c > 6 {
        (n - 1 - c) / 2
    } else {
        (n - 2 - c) / 2
    }
}

/// The visit of stripe `s` that comes to the cell in row `r` and column `c`
/// of the stripe.
pub open spec fn visit_of(n: int, s: int, r: int, c: int) -> int {
    2 * (if s % 2 == 0 {
        n - 1 - r
    } else {
        r
    }) + (stripe_column(n, s) - c)
}

/// The place in the stream of the bit for the cell in row `r` and column
/// `c`: the number of cells that take a bit and are visited before it.
pub open spec fn cell_bit_index(res: Seq<Seq<bool>>, n: int, r: int, c: int) -> int {
    bit_index(res, n, stripe_of(n, c), visit_of(n, stripe_of(n, c), r, c))
}

/// Every cell outside the timing column lies in one stripe and is visited
/// once there.
pub proof fn lemma_visit_of_cell(n: int, r: int, c: int)
    requires
        is_symbol_side(n),
        0 <= r < n,
        0 <= c < n,
        c != 6,
    ensures
        0 <= stripe_of(n, c) < stripe_count(n),
        0 <= visit_of(n, stripe_of(n, c), r, c) < 2 * n,
        visit_row(n, stripe_of(n, c), visit_of(n, stripe_of(n, c), r, c)) == r,
        visit_column(n, stripe_of(n, c), visit_of(n, stripe_of(n, c), r, c)) == c,
{
}

/// A visit comes to a cell outside the timing column, and to no cell that
/// another visit comes to.
pub proof fn lemma_cell_of_visit(n: int, s: int, t: int)
    requires
        is_symbol_side(n),
        0 <= s < stripe_count(n),
        0 <= t < 2 * n,
    ensures
        0 <= visit_row(n, s, t) < n,
        0 <= visit_column(n, s, t) < n,
        visit_column(n, s, t) != 6,
        stripe_of(n, visit_column(n, s, t)) == s,
        visit_of(n, s, visit_row(n, s, t), visit_column(n, s, t)) == t,
{
}

/// What a cell holds after the first `t_upto` visits of stripe `s`.
proof fn lemma_fill_stripe_cell(
    grid: Seq<Seq<bool>>,
    res: Seq<Seq<bool>>,
    bits: Seq<bool>,
    n: int,
    s: int,
    t_upto: nat,
    r: int,
    c: int,
)
    requires
        is_symbol_side(n),
        is_square(grid, n as nat),
        0 <= s < stripe_count(n),
        t_upto <= 2 * n,
        0 <= r < n,
        0 <= c < n,
    ensures
        is_square(fill_stripe(grid, res, bits, n, s, t_upto), n as nat),
        fill_stripe(grid, res, bits, n, s, t_upto)[r][c] == (if c != 6 && stripe_of(n, c) == s
            && visit_of(n, s, r, c) < t_upto && !res[r][c] {
            bits[cell_bit_index(res, n, r, c)]
        } else {
            grid[r][c]
        }),
    decreases t_upto,
{
    if t_upto > 0 {
        let t = t_upto - 1;
        lemma_fill_stripe_cell(grid, res, bits, n, s, t as nat, r, c);
        lemma_cell_of_visit(n, s, t);
        if c != 6 {
            lemma_visit_of_cell(n, r, c);
        }
        let before = fill_stripe(grid, res, bits, n, s, t as nat);
        let vr = visit_row(n, s, t);
        let vc = visit_column(n, s, t);
        if !res[vr][vc] {
            let after = grid_put(before, vr, vc, bits[bit_index(res, n, s, t)]);
            assert(after == fill_stripe(grid, res, bits, n, s, t_upto));
            assert(is_square(after, n as nat)) by {
                assert forall|i: int| 0 <= i < n implies (#[trigger] after[i]).len() == n by {
                    assert(before[i].len() == n);
                }
            }
            assert(before[r].len() == n);
        }
    }
}

/// What a cell holds after the first `s_upto` stripes.
proof fn lemma_fill_stripes_cell(
    grid: Seq<Seq<bool>>,
    res: Seq<Seq<bool>>,
    bits: Seq<bool>,
    n: int,
    s_upto: nat,
    r: int,
    c: int,
)
    requires
        is_symbol_side(n),
        is_square(grid, n as nat),
        s_upto <= stripe_count(n),
        0 <= r < n,
        0 <= c < n,
    ensures
        is_square(fill_stripes(grid, res, bits, n, s_upto), n as nat),
        fill_stripes(grid, res, bits, n, s_upto)[r][c] == (if c != 6 && stripe_of(n, c) < s_upto
            && !res[r][c] {
            bits[cell_bit_index(res, n, r, c)]
        } else {
            grid[r][c]
        }),
    decreases s_upto,
{
    if s_upto > 0 {
        let s = s_upto - 1;
        lemma_fill_stripes_cell(grid, res, bits, n, s as nat, r, c);
        let before = fill_stripes(grid, res, bits, n, s as nat);
        lemma_fill_stripe_cell(before, res, bits, n, s, (2 * n) as nat, r, c);
        if c != 6 {
            lemma_visit_of_cell(n, r, c);
        }
    }
}

/// Placing the stream keeps the shape of the grid. A cell that is
/// reserved, or lies in the timing column, keeps what it held; every other
/// cell holds the bit whose place in the stream is the number of cells
/// that take a bit and are visited before it.
pub proof fn lemma_placed_cell(
    grid: Seq<Seq<bool>>,
    res: Seq<Seq<bool>>,
    bits: Seq<bool>,
    n: int,
    r: int,
    c: int,
)
    requires
        is_symbol_side(n),
        is_square(grid, n as nat),
        0 <= r < n,
        0 <= c < n,
    ensures
        is_square(data_placed(grid, res, bits, n), n as nat),
        data_placed(grid, res, bits, n)[r][c] == (if c == 6 || res[r][c] {
            grid[r][c]
        } else {
            bits[cell_bit_index(res, n, r, c)]
        }),
        c != 6 && !res[r][c] ==> 0 <= cell_bit_index(res, n, r, c) < free_count(res, n),
{
    lemma_fill_stripes_cell(grid, res, bits, n, stripe_count(n) as nat, r, c);
    if c != 6 {
        lemma_visit_of_cell(n, r, c);
        if !res[r][c] {
            lemma_bit_index_bound(
                res,
                n,
                stripe_of(n, c),
                visit_of(n, stripe_of(n, c), r, c),
            );
        }
    }
}

/// Places the bits of the stream in the cells that are not reserved, in
/// stripes of two columns from the right edge leftwards, upwards and
/// downwards in turn, the right module of a row before the left one.
pub fn place_data_bits(bit_map: &mut BitMap, reservations: &BitMap, bits: &BitString)
    requires
        old(bit_map).wf(),
        reservations.wf(),
        bits.wf(),
        old(bit_map).side() == reservations.side(),
        is_symbol_side(old(bit_map).side() as int),
        free_count(reservations@, reservations.side() as int) <= bits@.len(),
    ensures
        final(bit_map).wf(),
        final(bit_map).side() == old(bit_map).side(),
        final(bit_map)@ == data_placed(
            old(bit_map)@,
            reservations@,
            bits@,
            old(bit_map).side() as int,
        ),
{
    let size = bit_map.size();
    let ghost n = size as int;
    let ghost res = reservations@;
    let ghost stream = bits@;
    let ghost start = bit_map@;
    let stripes: usize = (size - 1) / 2;
    let total = bits.len();
    let mut index: usize = 0;
    let mut x_pos: usize = size - 1;
    let mut s: usize = 0;
    proof {
        bit_map.lemma_view_square();
        reservations.lemma_view_square();
    }
    while s < stripes
        invariant
            s <= stripes,
            stripes == stripe_count(n),
            size == n,
            is_symbol_side(n),
            bit_map.wf(),
            reservations.wf(),
            bits.wf(),
            bit_map.side() == n,
            reservations.side() == n,
            res == reservations@,
            stream == bits@,
            is_square(start, n as nat),
            is_square(bit_map@, n as nat),
            free_count(res, n) <= stream.len(),
            stream.len() == total,
            s < stripes ==> x_pos == stripe_column(n, s as int),
            index == free_before_stripe(res, n, s as nat),
            bit_map@ == fill_stripes(start, res, stream, n, s as nat),
        decreases stripes - s,
    {
        let ghost stripe_start = bit_map@;
        let upwards = s % 2 == 0;
        let mut i: usize = 0;
        while i < size
            invariant
                i <= size,
                s < stripes,
                stripes == stripe_count(n),
                size == n,
                is_symbol_side(n),
                bit_map.wf(),
                reservations.wf(),
                bits.wf(),
                bit_map.side() == n,
                reservations.side() == n,
                res == reservations@,
                stream == bits@,
                is_square(stripe_start, n as nat),
                is_square(bit_map@, n as nat),
                free_count(res, n) <= stream.len(),
                stream.len() == total,
                x_pos == stripe_column(n, s as int),
                upwards == (s % 2 == 0),
                index == bit_index(res, n, s as int, 2 * i),
                bit_map@ == fill_stripe(stripe_start, res, stream, n, s as int, (2 * i) as nat),
            decreases size - i,
        {
            let y_pos: usize = if upwards {
                size - 1 - i
            } else {
                i
            };
            proof {
                assert(y_pos == visit_row(n, s as int, 2 * i));
                assert(y_pos == visit_row(n, s as int, 2 * i + 1));
                assert(x_pos == visit_column(n, s as int, 2 * i));
                assert(x_pos - 1 == visit_column(n, s as int, 2 * i + 1));
            }
            if !reservations.get(y_pos, x_pos).is_one() {
                proof {
                    lemma_bit_index_bound(res, n, s as int, 2 * i);
                }
                match bits.get_bit(index) {
                    Ok(bit) => {
                        bit_map.put(y_pos, x_pos, bit);
                    },
                    Err(_) => {},
                }
                index += 1;
            }
            proof {
                bit_map.lemma_view_square();
                assert(bit_map@ == fill_stripe(
                    stripe_start,
                    res,
                    stream,
                    n,
                    s as int,
                    (2 * i + 1) as nat,
                ));
                assert(index == bit_index(res, n, s as int, 2 * i + 1));
            }
            if !reservations.get(y_pos, x_pos - 1).is_one() {
                proof {
                    lemma_bit_index_bound(res, n, s as int, 2 * i + 1);
                }
                match bits.get_bit(index) {
                    Ok(bit) => {
                        bit_map.put(y_pos, x_pos - 1, bit);
                    },
                    Err(_) => {},
                }
                index += 1;
            }
            proof {
                bit_map.lemma_view_square();
                assert(bit_map@ == fill_stripe(
                    stripe_start,
                    res,
                    stream,
                    n,
                    s as int,
                    (2 * i + 2) as nat,
                ));
            }
            i += 1;
        }
        s += 1;
        if s < stripes {
            x_pos -= 2;
            if x_pos == 6 {
                x_pos -= 1;
            }
        }
    }
}

} // verus!
