//! The number of cells of a symbol that take a bit: as many as the bits of
//! its codewords and its remainder bits.

use super::capacity_tables::lemma_columns_of_version;
use super::level::remainder_bits;
use super::level::symbol_side;
use super::level::total_codewords;
use super::matrix::data_capacity;
use super::matrix::reservation_grid;
use super::patterns::is_reserved;
use super::patterns::is_symbol_side;
use super::placement::free_before_stripe;
use super::placement::free_in_stripe;
use super::placement::stripe_column;
use super::placement::stripe_count;
use super::placement::visit_column;
use super::placement::visit_row;
use vstd::prelude::*;

verus! {

/// The number of rows from `lo` up to `hi` whose cell in column `c` is not
/// reserved.
pub open spec fn rows_free(n: int, c: int, lo: int, hi: int) -> int
    decreases hi - lo,
{
    if hi <= lo {
        0
    } else {
        rows_free(n, c, lo, hi - 1) + (if is_reserved(n, hi - 1, c) {
            0int
        } else {
            1
        })
    }
}

/// The number of cells that are not reserved in the columns from `lo` up
/// to `hi`.
pub open spec fn columns_free(n: int, lo: int, hi: int) -> int
    decreases hi - lo,
{
    if hi <= lo {
        0
    } else {
        columns_free(n, lo, hi - 1) + rows_free(n, hi - 1, 0, n)
    }
}

/// A run of rows counts as its two parts together.
pub proof fn lemma_rows_split(n: int, c: int, lo: int, mid: int, hi: int)
    requires
        lo <= mid <= hi,
    ensures
        rows_free(n, c, lo, hi) == rows_free(n, c, lo, mid) + rows_free(n, c, mid, hi),
    decreases hi - mid,
{
    if mid < hi {
        lemma_rows_split(n, c, lo, mid, hi - 1);
    }
}

/// A run of rows that are all reserved counts nothing, one of rows that
/// are all free counts its length.
pub proof fn lemma_rows_uniform(n: int, c: int, lo: int, hi: int, reserved: bool)
    requires
        lo <= hi,
        forall|r: int| lo <= r < hi ==> #[trigger] is_reserved(n, r, c) == reserved,
    ensures
        rows_free(n, c, lo, hi) == (if reserved {
            0
        } else {
            hi - lo
        }),
    decreases hi - lo,
{
    if lo < hi {
        lemma_rows_uniform(n, c, lo, hi - 1, reserved);
    }
}

/// The count of a column grows by a run of rows that are all reserved or
/// all free.
pub proof fn lemma_rows_next(n: int, c: int, mid: int, hi: int, reserved: bool)
    requires
        0 <= mid <= hi,
        forall|r: int| mid <= r < hi ==> #[trigger] is_reserved(n, r, c) == reserved,
    ensures
        rows_free(n, c, 0, hi) == rows_free(n, c, 0, mid) + (if reserved {
            0
        } else {
            hi - mid
        }),
{
    lemma_rows_split(n, c, 0, mid, hi);
    lemma_rows_uniform(n, c, mid, hi, reserved);
}

/// A run of columns counts as its two parts together.
pub proof fn lemma_columns_split(n: int, lo: int, mid: int, hi: int)
    requires
        lo <= mid <= hi,
    ensures
        columns_free(n, lo, hi) == columns_free(n, lo, mid) + columns_free(n, mid, hi),
    decreases hi - mid,
{
    if mid < hi {
        lemma_columns_split(n, lo, mid, hi - 1);
    }
}

/// A run of columns with `each` free cells apiece counts `each` times its
/// length.
pub proof fn lemma_columns_uniform(n: int, lo: int, hi: int, each: int)
    requires
        lo <= hi,
        forall|c: int| lo <= c < hi ==> #[trigger] rows_free(n, c, 0, n) == each,
    ensures
        columns_free(n, lo, hi) == each * (hi - lo),
    decreases hi - lo,
{
    if lo < hi {
        lemma_columns_uniform(n, lo, hi - 1, each);
        assert(each * (hi - lo) == each * (hi - 1 - lo) + each) by (nonlinear_arith);
    } else {
        assert(each * (hi - lo) == 0) by (nonlinear_arith)
            requires
                hi - lo == 0,
        ;
    }
}

/// The count of a run of columns that starts at `base` grows by a run of
/// columns with `each` free cells apiece.
pub proof fn lemma_columns_next(n: int, base: int, mid: int, hi: int, each: int)
    requires
        base <= mid <= hi,
        forall|c: int| mid <= c < hi ==> #[trigger] rows_free(n, c, 0, n) == each,
    ensures
        columns_free(n, base, hi) == columns_free(n, base, mid) + each * (hi - mid),
{
    lemma_columns_split(n, base, mid, hi);
    lemma_columns_uniform(n, mid, hi, each);
}

proof fn lemma_stripe_downwards(n: int, s: int, i: nat)
    requires
        is_symbol_side(n),
        0 <= s < stripe_count(n),
        s % 2 == 1,
        i <= n,
    ensures
        free_in_stripe(reservation_grid(n), n, s, 2 * i) == rows_free(
            n,
            stripe_column(n, s),
            0,
            i as int,
        ) + rows_free(n, stripe_column(n, s) - 1, 0, i as int),
    decreases i,
{
    let res = reservation_grid(n);
    let x = stripe_column(n, s);
    if i > 0 {
        lemma_stripe_downwards(n, s, (i - 1) as nat);
        let t = 2 * i - 2;
        assert(visit_row(n, s, t) == i - 1 && visit_row(n, s, t + 1) == i - 1);
        assert(visit_column(n, s, t) == x && visit_column(n, s, t + 1) == x - 1);
        assert(res[i - 1][x] == is_reserved(n, i - 1, x));
        assert(res[i - 1][x - 1] == is_reserved(n, i - 1, x - 1));
        assert(free_in_stripe(res, n, s, (2 * i) as nat) == free_in_stripe(
            res,
            n,
            s,
            (2 * i - 1) as nat,
        ) + (if res[i - 1][x - 1] {
            0int
        } else {
            1
        }));
        assert(free_in_stripe(res, n, s, (2 * i - 1) as nat) == free_in_stripe(
            res,
            n,
            s,
            (2 * i - 2) as nat,
        ) + (if res[i - 1][x] {
            0int
        } else {
            1
        }));
    }
}

proof fn lemma_stripe_upwards(n: int, s: int, i: nat)
    requires
        is_symbol_side(n),
        0 <= s < stripe_count(n),
        s % 2 == 0,
        i <= n,
    ensures
        free_in_stripe(reservation_grid(n), n, s, 2 * i) == rows_free(
            n,
            stripe_column(n, s),
            n - i,
            n,
        ) + rows_free(n, stripe_column(n, s) - 1, n - i, n),
    decreases i,
{
    let res = reservation_grid(n);
    let x = stripe_column(n, s);
    if i > 0 {
        lemma_stripe_upwards(n, s, (i - 1) as nat);
        let t = 2 * i - 2;
        let row = n - i;
        assert(visit_row(n, s, t) == row && visit_row(n, s, t + 1) == row);
        assert(visit_column(n, s, t) == x && visit_column(n, s, t + 1) == x - 1);
        assert(res[row][x] == is_reserved(n, row, x));
        assert(res[row][x - 1] == is_reserved(n, row, x - 1));
        lemma_rows_split(n, x, row, row + 1, n);
        lemma_rows_split(n, x - 1, row, row + 1, n);
        assert(rows_free(n, x, row, row + 1) == rows_free(n, x, row, row) + (if is_reserved(
            n,
            row,
            x,
        ) {
            0int
        } else {
            1
        }));
        assert(rows_free(n, x - 1, row, row + 1) == rows_free(n, x - 1, row, row) + (
        if is_reserved(n, row, x - 1) {
            0int
        } else {
            1
        }));
        assert(free_in_stripe(res, n, s, (2 * i) as nat) == free_in_stripe(
            res,
            n,
            s,
            (2 * i - 1) as nat,
        ) + (if res[row][x - 1] {
            0int
        } else {
            1
        }));
        assert(free_in_stripe(res, n, s, (2 * i - 1) as nat) == free_in_stripe(
            res,
            n,
            s,
            (2 * i - 2) as nat,
        ) + (if res[row][x] {
            0int
        } else {
            1
        }));
    }
}

/// A stripe takes as many bits as its two columns have free cells.
pub proof fn lemma_stripe_columns(n: int, s: int)
    requires
        is_symbol_side(n),
        0 <= s < stripe_count(n),
    ensures
        free_in_stripe(reservation_grid(n), n, s, (2 * n) as nat) == rows_free(
            n,
            stripe_column(n, s),
            0,
            n,
        ) + rows_free(n, stripe_column(n, s) - 1, 0, n),
{
    if s % 2 == 0 {
        lemma_stripe_upwards(n, s, n as nat);
    } else {
        lemma_stripe_downwards(n, s, n as nat);
    }
}

proof fn lemma_stripes_upto(n: int, s: nat)
    requires
        is_symbol_side(n),
        s <= stripe_count(n),
    ensures
        free_before_stripe(reservation_grid(n), n, s) == (if n - 2 * s >= 7 {
            columns_free(n, n - 2 * s, n)
        } else {
            columns_free(n, 7, n) + columns_free(n, n - 1 - 2 * s, 6)
        }),
    decreases s,
{
    if s > 0 {
        lemma_stripes_upto(n, (s - 1) as nat);
        lemma_stripe_columns(n, s - 1);
        let x = stripe_column(n, s - 1);
        if n - 2 * s >= 7 {
            assert(x == n - 2 * s + 1);
            lemma_columns_split(n, x - 1, x + 1, n);
            assert(columns_free(n, x - 1, x + 1) == columns_free(n, x - 1, x) + rows_free(
                n,
                x,
                0,
                n,
            ));
            assert(columns_free(n, x - 1, x) == columns_free(n, x - 1, x - 1) + rows_free(
                n,
                x - 1,
                0,
                n,
            ));
        } else {
            assert(x == n - 2 * s);
            assert(n - 2 * (s - 1) >= 7 ==> n - 2 * (s - 1) == 7 && x == 5);
            lemma_columns_split(n, x - 1, x + 1, 6);
            assert(columns_free(n, x - 1, x + 1) == columns_free(n, x - 1, x) + rows_free(
                n,
                x,
                0,
                n,
            ));
            assert(columns_free(n, x - 1, x) == columns_free(n, x - 1, x - 1) + rows_free(
                n,
                x - 1,
                0,
                n,
            ));
            assert(columns_free(n, 6, 6) == 0);
        }
    } else {
        assert(columns_free(n, n, n) == 0);
    }
}

/// The cells that take a bit are the free cells of every column but the
/// timing column.
pub proof fn lemma_capacity_by_columns(n: int)
    requires
        is_symbol_side(n),
    ensures
        data_capacity(n) == columns_free(n, 0, 6) + columns_free(n, 7, n),
{
    lemma_stripes_upto(n, stripe_count(n) as nat);
}

/// A symbol has a cell for every bit of its stream and no more: the cells
/// that are not reserved number eight for each codeword of the version, data
/// and error correction together, and its remainder bits.
pub proof fn lemma_data_capacity(version: int)
    requires
        1 <= version <= 40,
    ensures
        data_capacity(symbol_side(version)) == 8 * total_codewords(version) + remainder_bits(
            version,
        ),
{
    lemma_capacity_by_columns(symbol_side(version));
    lemma_columns_of_version(version);
}

} // verus!
