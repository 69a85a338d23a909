//! The free cells of every version, counted column by column. The columns of
//! a version are taken in runs that have the same rows reserved, and the rows
//! of a run in stretches that are reserved or free throughout.

use super::capacity::columns_free;
use super::capacity::lemma_columns_next;
use super::capacity::lemma_rows_next;
use super::capacity::rows_free;
use super::level::remainder_bits;
use super::level::symbol_side;
use super::level::total_codewords;
use super::patterns::alignment_hit;
use super::patterns::alignment_row_hit;
use super::patterns::alignment_zone;
use vstd::prelude::*;

verus! {

/// Where the alignment patterns of version 1 lie.
proof fn lemma_alignment_zone_of_version_1()
    ensures
        forall|r: int, c: int|
            #[trigger] alignment_zone(1, r, c) == (false),
{
    reveal_with_fuel(alignment_hit, 1);
    reveal_with_fuel(alignment_row_hit, 1);
}

/// The free cells of the columns of version 1.
proof fn lemma_columns_of_version_1()
    ensures
        columns_free(21, 0, 6) + columns_free(21, 7, 21) == 208,
{
    lemma_alignment_zone_of_version_1();
    assert(columns_free(21, 0, 0) == 0);
    assert forall|c: int| 0 <= c < 6 implies rows_free(21, c, 0, 21) == 4 by {
        lemma_rows_next(21, c, 0, 9, true);
        lemma_rows_next(21, c, 9, 13, false);
        lemma_rows_next(21, c, 13, 21, true);
    }
    lemma_columns_next(21, 0, 0, 6, 4);
    assert(columns_free(21, 7, 7) == 0);
    assert forall|c: int| 7 <= c < 9 implies rows_free(21, c, 0, 21) == 4 by {
        lemma_rows_next(21, c, 0, 9, true);
        lemma_rows_next(21, c, 9, 13, false);
        lemma_rows_next(21, c, 13, 21, true);
    }
    lemma_columns_next(21, 7, 7, 9, 4);
    assert forall|c: int| 9 <= c < 13 implies rows_free(21, c, 0, 21) == 20 by {
        lemma_rows_next(21, c, 0, 6, false);
        lemma_rows_next(21, c, 6, 7, true);
        lemma_rows_next(21, c, 7, 21, false);
    }
    lemma_columns_next(21, 7, 9, 13, 20);
    assert forall|c: int| 13 <= c < 21 implies rows_free(21, c, 0, 21) == 12 by {
        lemma_rows_next(21, c, 0, 9, true);
        lemma_rows_next(21, c, 9, 21, false);
    }
    lemma_columns_next(21, 7, 13, 21, 12);
}

/// Where the alignment patterns of version 2 lie.
proof fn lemma_alignment_zone_of_version_2()
    ensures
        forall|r: int, c: int|
            #[trigger] alignment_zone(2, r, c) == (((16 <= r <= 20) && ((16 <= c <= 20)))),
{
    reveal_with_fuel(alignment_hit, 3);
    reveal_with_fuel(alignment_row_hit, 3);
}

/// The free cells of the columns of version 2.
proof fn lemma_columns_of_version_2()
    ensures
        columns_free(25, 0, 6) + columns_free(25, 7, 25) == 359,
{
    lemma_alignment_zone_of_version_2();
    assert(columns_free(25, 0, 0) == 0);
    assert forall|c: int| 0 <= c < 6 implies rows_free(25, c, 0, 25) == 8 by {
        lemma_rows_next(25, c, 0, 9, true);
        lemma_rows_next(25, c, 9, 17, false);
        lemma_rows_next(25, c, 17, 25, true);
    }
    lemma_columns_next(25, 0, 0, 6, 8);
    assert(columns_free(25, 7, 7) == 0);
    assert forall|c: int| 7 <= c < 9 implies rows_free(25, c, 0, 25) == 8 by {
        lemma_rows_next(25, c, 0, 9, true);
        lemma_rows_next(25, c, 9, 17, false);
        lemma_rows_next(25, c, 17, 25, true);
    }
    lemma_columns_next(25, 7, 7, 9, 8);
    assert forall|c: int| 9 <= c < 16 implies rows_free(25, c, 0, 25) == 24 by {
        lemma_rows_next(25, c, 0, 6, false);
        lemma_rows_next(25, c, 6, 7, true);
        lemma_rows_next(25, c, 7, 25, false);
    }
    lemma_columns_next(25, 7, 9, 16, 24);
    assert forall|c: int| 16 <= c < 17 implies rows_free(25, c, 0, 25) == 19 by {
        lemma_rows_next(25, c, 0, 6, false);
        lemma_rows_next(25, c, 6, 7, true);
        lemma_rows_next(25, c, 7, 16, false);
        lemma_rows_next(25, c, 16, 21, true);
        lemma_rows_next(25, c, 21, 25, false);
    }
    lemma_columns_next(25, 7, 16, 17, 19);
    assert forall|c: int| 17 <= c < 21 implies rows_free(25, c, 0, 25) == 11 by {
        lemma_rows_next(25, c, 0, 9, true);
        lemma_rows_next(25, c, 9, 16, false);
        lemma_rows_next(25, c, 16, 21, true);
        lemma_rows_next(25, c, 21, 25, false);
    }
    lemma_columns_next(25, 7, 17, 21, 11);
    assert forall|c: int| 21 <= c < 25 implies rows_free(25, c, 0, 25) == 16 by {
        lemma_rows_next(25, c, 0, 9, true);
        lemma_rows_next(25, c, 9, 25, false);
    }
    lemma_columns_next(25, 7, 21, 25, 16);
}

/// Where the alignment patterns of version 3 lie.
proof fn lemma_alignment_zone_of_version_3()
    ensures
        forall|r: int, c: int|
            #[trigger] alignment_zone(3, r, c) == (((20 <= r <= 24) && ((20 <= c <= 24)))),
{
    reveal_with_fuel(alignment_hit, 3);
    reveal_with_fuel(alignment_row_hit, 3);
}

/// The free cells of the columns of version 3.
proof fn lemma_columns_of_version_3()
    ensures
        columns_free(29, 0, 6) + columns_free(29, 7, 29) == 567,
{
    lemma_alignment_zone_of_version_3();
    assert(columns_free(29, 0, 0) == 0);
    assert forall|c: int| 0 <= c < 6 implies rows_free(29, c, 0, 29) == 12 by {
        lemma_rows_next(29, c, 0, 9, true);
        lemma_rows_next(29, c, 9, 21, false);
        lemma_rows_next(29, c, 21, 29, true);
    }
    lemma_columns_next(29, 0, 0, 6, 12);
    assert(columns_free(29, 7, 7) == 0);
    assert forall|c: int| 7 <= c < 9 implies rows_free(29, c, 0, 29) == 12 by {
        lemma_rows_next(29, c, 0, 9, true);
        lemma_rows_next(29, c, 9, 21, false);
        lemma_rows_next(29, c, 21, 29, true);
    }
    lemma_columns_next(29, 7, 7, 9, 12);
    assert forall|c: int| 9 <= c < 20 implies rows_free(29, c, 0, 29) == 28 by {
        lemma_rows_next(29, c, 0, 6, false);
        lemma_rows_next(29, c, 6, 7, true);
        lemma_rows_next(29, c, 7, 29, false);
    }
    lemma_columns_next(29, 7, 9, 20, 28);
    assert forall|c: int| 20 <= c < 21 implies rows_free(29, c, 0, 29) == 23 by {
        lemma_rows_next(29, c, 0, 6, false);
        lemma_rows_next(29, c, 6, 7, true);
        lemma_rows_next(29, c, 7, 20, false);
        lemma_rows_next(29, c, 20, 25, true);
        lemma_rows_next(29, c, 25, 29, false);
    }
    lemma_columns_next(29, 7, 20, 21, 23);
    assert forall|c: int| 21 <= c < 25 implies rows_free(29, c, 0, 29) == 15 by {
        lemma_rows_next(29, c, 0, 9, true);
        lemma_rows_next(29, c, 9, 20, false);
        lemma_rows_next(29, c, 20, 25, true);
        lemma_rows_next(29, c, 25, 29, false);
    }
    lemma_columns_next(29, 7, 21, 25, 15);
    assert forall|c: int| 25 <= c < 29 implies rows_free(29, c, 0, 29) == 20 by {
        lemma_rows_next(29, c, 0, 9, true);
        lemma_rows_next(29, c, 9, 29, false);
    }
    lemma_columns_next(29, 7, 25, 29, 20);
}

/// Where the alignment patterns of version 4 lie.
proof fn lemma_alignment_zone_of_version_4()
    ensures
        forall|r: int, c: int|
            #[trigger] alignment_zone(4, r, c) == (((24 <= r <= 28) && ((24 <= c <= 28)))),
{
    reveal_with_fuel(alignment_hit, 3);
    reveal_with_fuel(alignment_row_hit, 3);
}

/// The free cells of the columns of version 4.
proof fn lemma_columns_of_version_4()
    ensures
        columns_free(33, 0, 6) + columns_free(33, 7, 33) == 807,
{
    lemma_alignment_zone_of_version_4();
    assert(columns_free(33, 0, 0) == 0);
    assert forall|c: int| 0 <= c < 6 implies rows_free(33, c, 0, 33) == 16 by {
        lemma_rows_next(33, c, 0, 9, true);
        lemma_rows_next(33, c, 9, 25, false);
        lemma_rows_next(33, c, 25, 33, true);
    }
    lemma_columns_next(33, 0, 0, 6, 16);
    assert(columns_free(33, 7, 7) == 0);
    assert forall|c: int| 7 <= c < 9 implies rows_free(33, c, 0, 33) == 16 by {
        lemma_rows_next(33, c, 0, 9, true);
        lemma_rows_next(33, c, 9, 25, false);
        lemma_rows_next(33, c, 25, 33, true);
    }
    lemma_columns_next(33, 7, 7, 9, 16);
    assert forall|c: int| 9 <= c < 24 implies rows_free(33, c, 0, 33) == 32 by {
        lemma_rows_next(33, c, 0, 6, false);
        lemma_rows_next(33, c, 6, 7, true);
        lemma_rows_next(33, c, 7, 33, false);
    }
    lemma_columns_next(33, 7, 9, 24, 32);
    assert forall|c: int| 24 <= c < 25 implies rows_free(33, c, 0, 33) == 27 by {
        lemma_rows_next(33, c, 0, 6, false);
        lemma_rows_next(33, c, 6, 7, true);
        lemma_rows_next(33, c, 7, 24, false);
        lemma_rows_next(33, c, 24, 29, true);
        lemma_rows_next(33, c, 29, 33, false);
    }
    lemma_columns_next(33, 7, 24, 25, 27);
    assert forall|c: int| 25 <= c < 29 implies rows_free(33, c, 0, 33) == 19 by {
        lemma_rows_next(33, c, 0, 9, true);
        lemma_rows_next(33, c, 9, 24, false);
        lemma_rows_next(33, c, 24, 29, true);
        lemma_rows_next(33, c, 29, 33, false);
    }
    lemma_columns_next(33, 7, 25, 29, 19);
    assert forall|c: int| 29 <= c < 33 implies rows_free(33, c, 0, 33) == 24 by {
        lemma_rows_next(33, c, 0, 9, true);
        lemma_rows_next(33, c, 9, 33, false);
    }
    lemma_columns_next(33, 7, 29, 33, 24);
}

/// Where the alignment patterns of version 5 lie.
proof fn lemma_alignment_zone_of_version_5()
    ensures
        forall|r: int, c: int|
            #[trigger] alignment_zone(5, r, c) == (((28 <= r <= 32) && ((28 <= c <= 32)))),
{
    reveal_with_fuel(alignment_hit, 3);
    reveal_with_fuel(alignment_row_hit, 3);
}

/// The free cells of the columns of version 5.
proof fn lemma_columns_of_version_5()
    ensures
        columns_free(37, 0, 6) + columns_free(37, 7, 37) == 1079,
{
    lemma_alignment_zone_of_version_5();
    assert(columns_free(37, 0, 0) == 0);
    assert forall|c: int| 0 <= c < 6 implies rows_free(37, c, 0, 37) == 20 by {
        lemma_rows_next(37, c, 0, 9, true);
        lemma_rows_next(37, c, 9, 29, false);
        lemma_rows_next(37, c, 29, 37, true);
    }
    lemma_columns_next(37, 0, 0, 6, 20);
    assert(columns_free(37, 7, 7) == 0);
    assert forall|c: int| 7 <= c < 9 implies rows_free(37, c, 0, 37) == 20 by {
        lemma_rows_next(37, c, 0, 9, true);
        lemma_rows_next(37, c, 9, 29, false);
        lemma_rows_next(37, c, 29, 37, true);
    }
    lemma_columns_next(37, 7, 7, 9, 20);
    assert forall|c: int| 9 <= c < 28 implies rows_free(37, c, 0, 37) == 36 by {
        lemma_rows_next(37, c, 0, 6, false);
        lemma_rows_next(37, c, 6, 7, true);
        lemma_rows_next(37, c, 7, 37, false);
    }
    lemma_columns_next(37, 7, 9, 28, 36);
    assert forall|c: int| 28 <= c < 29 implies rows_free(37, c, 0, 37) == 31 by {
        lemma_rows_next(37, c, 0, 6, false);
        lemma_rows_next(37, c, 6, 7, true);
        lemma_rows_next(37, c, 7, 28, false);
        lemma_rows_next(37, c, 28, 33, true);
        lemma_rows_next(37, c, 33, 37, false);
    }
    lemma_columns_next(37, 7, 28, 29, 31);
    assert forall|c: int| 29 <= c < 33 implies rows_free(37, c, 0, 37) == 23 by {
        lemma_rows_next(37, c, 0, 9, true);
        lemma_rows_next(37, c, 9, 28, false);
        lemma_rows_next(37, c, 28, 33, true);
        lemma_rows_next(37, c, 33, 37, false);
    }
    lemma_columns_next(37, 7, 29, 33, 23);
    assert forall|c: int| 33 <= c < 37 implies rows_free(37, c, 0, 37) == 28 by {
        lemma_rows_next(37, c, 0, 9, true);
        lemma_rows_next(37, c, 9, 37, false);
    }
    lemma_columns_next(37, 7, 33, 37, 28);
}

/// Where the alignment patterns of version 6 lie.
proof fn lemma_alignment_zone_of_version_6()
    ensures
        forall|r: int, c: int|
            #[trigger] alignment_zone(6, r, c) == (((32 <= r <= 36) && ((32 <= c <= 36)))),
{
    reveal_with_fuel(alignment_hit, 3);
    reveal_with_fuel(alignment_row_hit, 3);
}

/// The free cells of the columns of version 6.
proof fn lemma_columns_of_version_6()
    ensures
        columns_free(41, 0, 6) + columns_free(41, 7, 41) == 1383,
{
    lemma_alignment_zone_of_version_6();
    assert(columns_free(41, 0, 0) == 0);
    assert forall|c: int| 0 <= c < 6 implies rows_free(41, c, 0, 41) == 24 by {
        lemma_rows_next(41, c, 0, 9, true);
        lemma_rows_next(41, c, 9, 33, false);
        lemma_rows_next(41, c, 33, 41, true);
    }
    lemma_columns_next(41, 0, 0, 6, 24);
    assert(columns_free(41, 7, 7) == 0);
    assert forall|c: int| 7 <= c < 9 implies rows_free(41, c, 0, 41) == 24 by {
        lemma_rows_next(41, c, 0, 9, true);
        lemma_rows_next(41, c, 9, 33, false);
        lemma_rows_next(41, c, 33, 41, true);
    }
    lemma_columns_next(41, 7, 7, 9, 24);
    assert forall|c: int| 9 <= c < 32 implies rows_free(41, c, 0, 41) == 40 by {
        lemma_rows_next(41, c, 0, 6, false);
        lemma_rows_next(41, c, 6, 7, true);
        lemma_rows_next(41, c, 7, 41, false);
    }
    lemma_columns_next(41, 7, 9, 32, 40);
    assert forall|c: int| 32 <= c < 33 implies rows_free(41, c, 0, 41) == 35 by {
        lemma_rows_next(41, c, 0, 6, false);
        lemma_rows_next(41, c, 6, 7, true);
        lemma_rows_next(41, c, 7, 32, false);
        lemma_rows_next(41, c, 32, 37, true);
        lemma_rows_next(41, c, 37, 41, false);
    }
    lemma_columns_next(41, 7, 32, 33, 35);
    assert forall|c: int| 33 <= c < 37 implies rows_free(41, c, 0, 41) == 27 by {
        lemma_rows_next(41, c, 0, 9, true);
        lemma_rows_next(41, c, 9, 32, false);
        lemma_rows_next(41, c, 32, 37, true);
        lemma_rows_next(41, c, 37, 41, false);
    }
    lemma_columns_next(41, 7, 33, 37, 27);
    assert forall|c: int| 37 <= c < 41 implies rows_free(41, c, 0, 41) == 32 by {
        lemma_rows_next(41, c, 0, 9, true);
        lemma_rows_next(41, c, 9, 41, false);
    }
    lemma_columns_next(41, 7, 37, 41, 32);
}

/// Where the alignment patterns of version 7 lie.
proof fn lemma_alignment_zone_of_version_7()
    ensures
        forall|r: int, c: int|
            #[trigger] alignment_zone(7, r, c) == (((4 <= r <= 8) && ((20 <= c <= 24)))
            || (((20 <= r <= 24)) && ((4 <= c <= 8) || (20 <= c <= 24) || (36 <= c <= 40)))
            || ((36 <= r <= 40) && ((20 <= c <= 24) || (36 <= c <= 40)))),
{
    reveal_with_fuel(alignment_hit, 4);
    reveal_with_fuel(alignment_row_hit, 4);
}

/// The free cells of the columns of version 7.
proof fn lemma_columns_of_version_7()
    ensures
        columns_free(45, 0, 6) + columns_free(45, 7, 45) == 1568,
{
    lemma_alignment_zone_of_version_7();
    assert(columns_free(45, 0, 0) == 0);
    assert forall|c: int| 0 <= c < 4 implies rows_free(45, c, 0, 45) == 25 by {
        lemma_rows_next(45, c, 0, 9, true);
        lemma_rows_next(45, c, 9, 34, false);
        lemma_rows_next(45, c, 34, 45, true);
    }
    lemma_columns_next(45, 0, 0, 4, 25);
    assert forall|c: int| 4 <= c < 6 implies rows_free(45, c, 0, 45) == 20 by {
        lemma_rows_next(45, c, 0, 9, true);
        lemma_rows_next(45, c, 9, 20, false);
        lemma_rows_next(45, c, 20, 25, true);
        lemma_rows_next(45, c, 25, 34, false);
        lemma_rows_next(45, c, 34, 45, true);
    }
    lemma_columns_next(45, 0, 4, 6, 20);
    assert(columns_free(45, 7, 7) == 0);
    assert forall|c: int| 7 <= c < 9 implies rows_free(45, c, 0, 45) == 23 by {
        lemma_rows_next(45, c, 0, 9, true);
        lemma_rows_next(45, c, 9, 20, false);
        lemma_rows_next(45, c, 20, 25, true);
        lemma_rows_next(45, c, 25, 37, false);
        lemma_rows_next(45, c, 37, 45, true);
    }
    lemma_columns_next(45, 7, 7, 9, 23);
    assert forall|c: int| 9 <= c < 20 implies rows_free(45, c, 0, 45) == 44 by {
        lemma_rows_next(45, c, 0, 6, false);
        lemma_rows_next(45, c, 6, 7, true);
        lemma_rows_next(45, c, 7, 45, false);
    }
    lemma_columns_next(45, 7, 9, 20, 44);
    assert forall|c: int| 20 <= c < 25 implies rows_free(45, c, 0, 45) == 30 by {
        lemma_rows_next(45, c, 0, 4, false);
        lemma_rows_next(45, c, 4, 9, true);
        lemma_rows_next(45, c, 9, 20, false);
        lemma_rows_next(45, c, 20, 25, true);
        lemma_rows_next(45, c, 25, 36, false);
        lemma_rows_next(45, c, 36, 41, true);
        lemma_rows_next(45, c, 41, 45, false);
    }
    lemma_columns_next(45, 7, 20, 25, 30);
    assert forall|c: int| 25 <= c < 34 implies rows_free(45, c, 0, 45) == 44 by {
        lemma_rows_next(45, c, 0, 6, false);
        lemma_rows_next(45, c, 6, 7, true);
        lemma_rows_next(45, c, 7, 45, false);
    }
    lemma_columns_next(45, 7, 25, 34, 44);
    assert forall|c: int| 34 <= c < 36 implies rows_free(45, c, 0, 45) == 38 by {
        lemma_rows_next(45, c, 0, 7, true);
        lemma_rows_next(45, c, 7, 45, false);
    }
    lemma_columns_next(45, 7, 34, 36, 38);
    assert forall|c: int| 36 <= c < 37 implies rows_free(45, c, 0, 45) == 28 by {
        lemma_rows_next(45, c, 0, 7, true);
        lemma_rows_next(45, c, 7, 20, false);
        lemma_rows_next(45, c, 20, 25, true);
        lemma_rows_next(45, c, 25, 36, false);
        lemma_rows_next(45, c, 36, 41, true);
        lemma_rows_next(45, c, 41, 45, false);
    }
    lemma_columns_next(45, 7, 36, 37, 28);
    assert forall|c: int| 37 <= c < 41 implies rows_free(45, c, 0, 45) == 26 by {
        lemma_rows_next(45, c, 0, 9, true);
        lemma_rows_next(45, c, 9, 20, false);
        lemma_rows_next(45, c, 20, 25, true);
        lemma_rows_next(45, c, 25, 36, false);
        lemma_rows_next(45, c, 36, 41, true);
        lemma_rows_next(45, c, 41, 45, false);
    }
    lemma_columns_next(45, 7, 37, 41, 26);
    assert forall|c: int| 41 <= c < 45 implies rows_free(45, c, 0, 45) == 36 by {
        lemma_rows_next(45, c, 0, 9, true);
        lemma_rows_next(45, c, 9, 45, false);
    }
    lemma_columns_next(45, 7, 41, 45, 36);
}

/// Where the alignment patterns of version 8 lie.
proof fn lemma_alignment_zone_of_version_8()
    ensures
        forall|r: int, c: int|
            #[trigger] alignment_zone(8, r, c) == (((4 <= r <= 8) && ((22 <= c <= 26)))
            || (((22 <= r <= 26)) && ((4 <= c <= 8) || (22 <= c <= 26) || (40 <= c <= 44)))
            || ((40 <= r <= 44) && ((22 <= c <= 26) || (40 <= c <= 44)))),
{
    reveal_with_fuel(alignment_hit, 4);
    reveal_with_fuel(alignment_row_hit, 4);
}

/// The free cells of the columns of version 8.
proof fn lemma_columns_of_version_8()
    ensures
        columns_free(49, 0, 6) + columns_free(49, 7, 49) == 1936,
{
    lemma_alignment_zone_of_version_8();
    assert(columns_free(49, 0, 0) == 0);
    assert forall|c: int| 0 <= c < 4 implies rows_free(49, c, 0, 49) == 29 by {
        lemma_rows_next(49, c, 0, 9, true);
        lemma_rows_next(49, c, 9, 38, false);
        lemma_rows_next(49, c, 38, 49, true);
    }
    lemma_columns_next(49, 0, 0, 4, 29);
    assert forall|c: int| 4 <= c < 6 implies rows_free(49, c, 0, 49) == 24 by {
        lemma_rows_next(49, c, 0, 9, true);
        lemma_rows_next(49, c, 9, 22, false);
        lemma_rows_next(49, c, 22, 27, true);
        lemma_rows_next(49, c, 27, 38, false);
        lemma_rows_next(49, c, 38, 49, true);
    }
    lemma_columns_next(49, 0, 4, 6, 24);
    assert(columns_free(49, 7, 7) == 0);
    assert forall|c: int| 7 <= c < 9 implies rows_free(49, c, 0, 49) == 27 by {
        lemma_rows_next(49, c, 0, 9, true);
        lemma_rows_next(49, c, 9, 22, false);
        lemma_rows_next(49, c, 22, 27, true);
        lemma_rows_next(49, c, 27, 41, false);
        lemma_rows_next(49, c, 41, 49, true);
    }
    lemma_columns_next(49, 7, 7, 9, 27);
    assert forall|c: int| 9 <= c < 22 implies rows_free(49, c, 0, 49) == 48 by {
        lemma_rows_next(49, c, 0, 6, false);
        lemma_rows_next(49, c, 6, 7, true);
        lemma_rows_next(49, c, 7, 49, false);
    }
    lemma_columns_next(49, 7, 9, 22, 48);
    assert forall|c: int| 22 <= c < 27 implies rows_free(49, c, 0, 49) == 34 by {
        lemma_rows_next(49, c, 0, 4, false);
        lemma_rows_next(49, c, 4, 9, true);
        lemma_rows_next(49, c, 9, 22, false);
        lemma_rows_next(49, c, 22, 27, true);
        lemma_rows_next(49, c, 27, 40, false);
        lemma_rows_next(49, c, 40, 45, true);
        lemma_rows_next(49, c, 45, 49, false);
    }
    lemma_columns_next(49, 7, 22, 27, 34);
    assert forall|c: int| 27 <= c < 38 implies rows_free(49, c, 0, 49) == 48 by {
        lemma_rows_next(49, c, 0, 6, false);
        lemma_rows_next(49, c, 6, 7, true);
        lemma_rows_next(49, c, 7, 49, false);
    }
    lemma_columns_next(49, 7, 27, 38, 48);
    assert forall|c: int| 38 <= c < 40 implies rows_free(49, c, 0, 49) == 42 by {
        lemma_rows_next(49, c, 0, 7, true);
        lemma_rows_next(49, c, 7, 49, false);
    }
    lemma_columns_next(49, 7, 38, 40, 42);
    assert forall|c: int| 40 <= c < 41 implies rows_free(49, c, 0, 49) == 32 by {
        lemma_rows_next(49, c, 0, 7, true);
        lemma_rows_next(49, c, 7, 22, false);
        lemma_rows_next(49, c, 22, 27, true);
        lemma_rows_next(49, c, 27, 40, false);
        lemma_rows_next(49, c, 40, 45, true);
        lemma_rows_next(49, c, 45, 49, false);
    }
    lemma_columns_next(49, 7, 40, 41, 32);
    assert forall|c: int| 41 <= c < 45 implies rows_free(49, c, 0, 49) == 30 by {
        lemma_rows_next(49, c, 0, 9, true);
        lemma_rows_next(49, c, 9, 22, false);
        lemma_rows_next(49, c, 22, 27, true);
        lemma_rows_next(49, c, 27, 40, false);
        lemma_rows_next(49, c, 40, 45, true);
        lemma_rows_next(49, c, 45, 49, false);
    }
    lemma_columns_next(49, 7, 41, 45, 30);
    assert forall|c: int| 45 <= c < 49 implies rows_free(49, c, 0, 49) == 40 by {
        lemma_rows_next(49, c, 0, 9, true);
        lemma_rows_next(49, c, 9, 49, false);
    }
    lemma_columns_next(49, 7, 45, 49, 40);
}

/// Where the alignment patterns of version 9 lie.
proof fn lemma_alignment_zone_of_version_9()
    ensures
        forall|r: int, c: int|
            #[trigger] alignment_zone(9, r, c) == (((4 <= r <= 8) && ((24 <= c <= 28)))
            || (((24 <= r <= 28)) && ((4 <= c <= 8) || (24 <= c <= 28) || (44 <= c <= 48)))
            || ((44 <= r <= 48) && ((24 <= c <= 28) || (44 <= c <= 48)))),
{
    reveal_with_fuel(alignment_hit, 4);
    reveal_with_fuel(alignment_row_hit, 4);
}

/// The free cells of the columns of version 9.
proof fn lemma_columns_of_version_9()
    ensures
        columns_free(53, 0, 6) + columns_free(53, 7, 53) == 2336,
{
    lemma_alignment_zone_of_version_9();
    assert(columns_free(53, 0, 0) == 0);
    assert forall|c: int| 0 <= c < 4 implies rows_free(53, c, 0, 53) == 33 by {
        lemma_rows_next(53, c, 0, 9, true);
        lemma_rows_next(53, c, 9, 42, false);
        lemma_rows_next(53, c, 42, 53, true);
    }
    lemma_columns_next(53, 0, 0, 4, 33);
    assert forall|c: int| 4 <= c < 6 implies rows_free(53, c, 0, 53) == 28 by {
        lemma_rows_next(53, c, 0, 9, true);
        lemma_rows_next(53, c, 9, 24, false);
        lemma_rows_next(53, c, 24, 29, true);
        lemma_rows_next(53, c, 29, 42, false);
        lemma_rows_next(53, c, 42, 53, true);
    }
    lemma_columns_next(53, 0, 4, 6, 28);
    assert(columns_free(53, 7, 7) == 0);
    assert forall|c: int| 7 <= c < 9 implies rows_free(53, c, 0, 53) == 31 by {
        lemma_rows_next(53, c, 0, 9, true);
        lemma_rows_next(53, c, 9, 24, false);
        lemma_rows_next(53, c, 24, 29, true);
        lemma_rows_next(53, c, 29, 45, false);
        lemma_rows_next(53, c, 45, 53, true);
    }
    lemma_columns_next(53, 7, 7, 9, 31);
    assert forall|c: int| 9 <= c < 24 implies rows_free(53, c, 0, 53) == 52 by {
        lemma_rows_next(53, c, 0, 6, false);
        lemma_rows_next(53, c, 6, 7, true);
        lemma_rows_next(53, c, 7, 53, false);
    }
    lemma_columns_next(53, 7, 9, 24, 52);
    assert forall|c: int| 24 <= c < 29 implies rows_free(53, c, 0, 53) == 38 by {
        lemma_rows_next(53, c, 0, 4, false);
        lemma_rows_next(53, c, 4, 9, true);
        lemma_rows_next(53, c, 9, 24, false);
        lemma_rows_next(53, c, 24, 29, true);
        lemma_rows_next(53, c, 29, 44, false);
        lemma_rows_next(53, c, 44, 49, true);
        lemma_rows_next(53, c, 49, 53, false);
    }
    lemma_columns_next(53, 7, 24, 29, 38);
    assert forall|c: int| 29 <= c < 42 implies rows_free(53, c, 0, 53) == 52 by {
        lemma_rows_next(53, c, 0, 6, false);
        lemma_rows_next(53, c, 6, 7, true);
        lemma_rows_next(53, c, 7, 53, false);
    }
    lemma_columns_next(53, 7, 29, 42, 52);
    assert forall|c: int| 42 <= c < 44 implies rows_free(53, c, 0, 53) == 46 by {
        lemma_rows_next(53, c, 0, 7, true);
        lemma_rows_next(53, c, 7, 53, false);
    }
    lemma_columns_next(53, 7, 42, 44, 46);
    assert forall|c: int| 44 <= c < 45 implies rows_free(53, c, 0, 53) == 36 by {
        lemma_rows_next(53, c, 0, 7, true);
        lemma_rows_next(53, c, 7, 24, false);
        lemma_rows_next(53, c, 24, 29, true);
        lemma_rows_next(53, c, 29, 44, false);
        lemma_rows_next(53, c, 44, 49, true);
        lemma_rows_next(53, c, 49, 53, false);
    }
    lemma_columns_next(53, 7, 44, 45, 36);
    assert forall|c: int| 45 <= c < 49 implies rows_free(53, c, 0, 53) == 34 by {
        lemma_rows_next(53, c, 0, 9, true);
        lemma_rows_next(53, c, 9, 24, false);
        lemma_rows_next(53, c, 24, 29, true);
        lemma_rows_next(53, c, 29, 44, false);
        lemma_rows_next(53, c, 44, 49, true);
        lemma_rows_next(53, c, 49, 53, false);
    }
    lemma_columns_next(53, 7, 45, 49, 34);
    assert forall|c: int| 49 <= c < 53 implies rows_free(53, c, 0, 53) == 44 by {
        lemma_rows_next(53, c, 0, 9, true);
        lemma_rows_next(53, c, 9, 53, false);
    }
    lemma_columns_next(53, 7, 49, 53, 44);
}

/// Where the alignment patterns of version 10 lie.
proof fn lemma_alignment_zone_of_version_10()
    ensures
        forall|r: int, c: int|
            #[trigger] alignment_zone(10, r, c) == (((4 <= r <= 8) && ((26 <= c <= 30)))
            || (((26 <= r <= 30)) && ((4 <= c <= 8) || (26 <= c <= 30) || (48 <= c <= 52)))
            || ((48 <= r <= 52) && ((26 <= c <= 30) || (48 <= c <= 52)))),
{
    reveal_with_fuel(alignment_hit, 4);
    reveal_with_fuel(alignment_row_hit, 4);
}

/// The free cells of the columns of version 10.
proof fn lemma_columns_of_version_10()
    ensures
        columns_free(57, 0, 6) + columns_free(57, 7, 57) == 2768,
{
    lemma_alignment_zone_of_version_10();
    assert(columns_free(57, 0, 0) == 0);
    assert forall|c: int| 0 <= c < 4 implies rows_free(57, c, 0, 57) == 37 by {
        lemma_rows_next(57, c, 0, 9, true);
        lemma_rows_next(57, c, 9, 46, false);
        lemma_rows_next(57, c, 46, 57, true);
    }
    lemma_columns_next(57, 0, 0, 4, 37);
    assert forall|c: int| 4 <= c < 6 implies rows_free(57, c, 0, 57) == 32 by {
        lemma_rows_next(57, c, 0, 9, true);
        lemma_rows_next(57, c, 9, 26, false);
        lemma_rows_next(57, c, 26, 31, true);
        lemma_rows_next(57, c, 31, 46, false);
        lemma_rows_next(57, c, 46, 57, true);
    }
    lemma_columns_next(57, 0, 4, 6, 32);
    assert(columns_free(57, 7, 7) == 0);
    assert forall|c: int| 7 <= c < 9 implies rows_free(57, c, 0, 57) == 35 by {
        lemma_rows_next(57, c, 0, 9, true);
        lemma_rows_next(57, c, 9, 26, false);
        lemma_rows_next(57, c, 26, 31, true);
        lemma_rows_next(57, c, 31, 49, false);
        lemma_rows_next(57, c, 49, 57, true);
    }
    lemma_columns_next(57, 7, 7, 9, 35);
    assert forall|c: int| 9 <= c < 26 implies rows_free(57, c, 0, 57) == 56 by {
        lemma_rows_next(57, c, 0, 6, false);
        lemma_rows_next(57, c, 6, 7, true);
        lemma_rows_next(57, c, 7, 57, false);
    }
    lemma_columns_next(57, 7, 9, 26, 56);
    assert forall|c: int| 26 <= c < 31 implies rows_free(57, c, 0, 57) == 42 by {
        lemma_rows_next(57, c, 0, 4, false);
        lemma_rows_next(57, c, 4, 9, true);
        lemma_rows_next(57, c, 9, 26, false);
        lemma_rows_next(57, c, 26, 31, true);
        lemma_rows_next(57, c, 31, 48, false);
        lemma_rows_next(57, c, 48, 53, true);
        lemma_rows_next(57, c, 53, 57, false);
    }
    lemma_columns_next(57, 7, 26, 31, 42);
    assert forall|c: int| 31 <= c < 46 implies rows_free(57, c, 0, 57) == 56 by {
        lemma_rows_next(57, c, 0, 6, false);
        lemma_rows_next(57, c, 6, 7, true);
        lemma_rows_next(57, c, 7, 57, false);
    }
    lemma_columns_next(57, 7, 31, 46, 56);
    assert forall|c: int| 46 <= c < 48 implies rows_free(57, c, 0, 57) == 50 by {
        lemma_rows_next(57, c, 0, 7, true);
        lemma_rows_next(57, c, 7, 57, false);
    }
    lemma_columns_next(57, 7, 46, 48, 50);
    assert forall|c: int| 48 <= c < 49 implies rows_free(57, c, 0, 57) == 40 by {
        lemma_rows_next(57, c, 0, 7, true);
        lemma_rows_next(57, c, 7, 26, false);
        lemma_rows_next(57, c, 26, 31, true);
        lemma_rows_next(57, c, 31, 48, false);
        lemma_rows_next(57, c, 48, 53, true);
        lemma_rows_next(57, c, 53, 57, false);
    }
    lemma_columns_next(57, 7, 48, 49, 40);
    assert forall|c: int| 49 <= c < 53 implies rows_free(57, c, 0, 57) == 38 by {
        lemma_rows_next(57, c, 0, 9, true);
        lemma_rows_next(57, c, 9, 26, false);
        lemma_rows_next(57, c, 26, 31, true);
        lemma_rows_next(57, c, 31, 48, false);
        lemma_rows_next(57, c, 48, 53, true);
        lemma_rows_next(57, c, 53, 57, false);
    }
    lemma_columns_next(57, 7, 49, 53, 38);
    assert forall|c: int| 53 <= c < 57 implies rows_free(57, c, 0, 57) == 48 by {
        lemma_rows_next(57, c, 0, 9, true);
        lemma_rows_next(57, c, 9, 57, false);
    }
    lemma_columns_next(57, 7, 53, 57, 48);
}

/// Where the alignment patterns of version 11 lie.
proof fn lemma_alignment_zone_of_version_11()
    ensures
        forall|r: int, c: int|
            #[trigger] alignment_zone(11, r, c) == (((4 <= r <= 8) && ((28 <= c <= 32)))
            || (((28 <= r <= 32)) && ((4 <= c <= 8) || (28 <= c <= 32) || (52 <= c <= 56)))
            || ((52 <= r <= 56) && ((28 <= c <= 32) || (52 <= c <= 56)))),
{
    reveal_with_fuel(alignment_hit, 4);
    reveal_with_fuel(alignment_row_hit, 4);
}

/// The free cells of the columns of version 11.
proof fn lemma_columns_of_version_11()
    ensures
        columns_free(61, 0, 6) + columns_free(61, 7, 61) == 3232,
{
    lemma_alignment_zone_of_version_11();
    assert(columns_free(61, 0, 0) == 0);
    assert forall|c: int| 0 <= c < 4 implies rows_free(61, c, 0, 61) == 41 by {
        lemma_rows_next(61, c, 0, 9, true);
        lemma_rows_next(61, c, 9, 50, false);
        lemma_rows_next(61, c, 50, 61, true);
    }
    lemma_columns_next(61, 0, 0, 4, 41);
    assert forall|c: int| 4 <= c < 6 implies rows_free(61, c, 0, 61) == 36 by {
        lemma_rows_next(61, c, 0, 9, true);
        lemma_rows_next(61, c, 9, 28, false);
        lemma_rows_next(61, c, 28, 33, true);
        lemma_rows_next(61, c, 33, 50, false);
        lemma_rows_next(61, c, 50, 61, true);
    }
    lemma_columns_next(61, 0, 4, 6, 36);
    assert(columns_free(61, 7, 7) == 0);
    assert forall|c: int| 7 <= c < 9 implies rows_free(61, c, 0, 61) == 39 by {
        lemma_rows_next(61, c, 0, 9, true);
        lemma_rows_next(61, c, 9, 28, false);
        lemma_rows_next(61, c, 28, 33, true);
        lemma_rows_next(61, c, 33, 53, false);
        lemma_rows_next(61, c, 53, 61, true);
    }
    lemma_columns_next(61, 7, 7, 9, 39);
    assert forall|c: int| 9 <= c < 28 implies rows_free(61, c, 0, 61) == 60 by {
        lemma_rows_next(61, c, 0, 6, false);
        lemma_rows_next(61, c, 6, 7, true);
        lemma_rows_next(61, c, 7, 61, false);
    }
    lemma_columns_next(61, 7, 9, 28, 60);
    assert forall|c: int| 28 <= c < 33 implies rows_free(61, c, 0, 61) == 46 by {
        lemma_rows_next(61, c, 0, 4, false);
        lemma_rows_next(61, c, 4, 9, true);
        lemma_rows_next(61, c, 9, 28, false);
        lemma_rows_next(61, c, 28, 33, true);
        lemma_rows_next(61, c, 33, 52, false);
        lemma_rows_next(61, c, 52, 57, true);
        lemma_rows_next(61, c, 57, 61, false);
    }
    lemma_columns_next(61, 7, 28, 33, 46);
    assert forall|c: int| 33 <= c < 50 implies rows_free(61, c, 0, 61) == 60 by {
        lemma_rows_next(61, c, 0, 6, false);
        lemma_rows_next(61, c, 6, 7, true);
        lemma_rows_next(61, c, 7, 61, false);
    }
    lemma_columns_next(61, 7, 33, 50, 60);
    assert forall|c: int| 50 <= c < 52 implies rows_free(61, c, 0, 61) == 54 by {
        lemma_rows_next(61, c, 0, 7, true);
        lemma_rows_next(61, c, 7, 61, false);
    }
    lemma_columns_next(61, 7, 50, 52, 54);
    assert forall|c: int| 52 <= c < 53 implies rows_free(61, c, 0, 61) == 44 by {
        lemma_rows_next(61, c, 0, 7, true);
        lemma_rows_next(61, c, 7, 28, false);
        lemma_rows_next(61, c, 28, 33, true);
        lemma_rows_next(61, c, 33, 52, false);
        lemma_rows_next(61, c, 52, 57, true);
        lemma_rows_next(61, c, 57, 61, false);
    }
    lemma_columns_next(61, 7, 52, 53, 44);
    assert forall|c: int| 53 <= c < 57 implies rows_free(61, c, 0, 61) == 42 by {
        lemma_rows_next(61, c, 0, 9, true);
        lemma_rows_next(61, c, 9, 28, false);
        lemma_rows_next(61, c, 28, 33, true);
        lemma_rows_next(61, c, 33, 52, false);
        lemma_rows_next(61, c, 52, 57, true);
        lemma_rows_next(61, c, 57, 61, false);
    }
    lemma_columns_next(61, 7, 53, 57, 42);
    assert forall|c: int| 57 <= c < 61 implies rows_free(61, c, 0, 61) == 52 by {
        lemma_rows_next(61, c, 0, 9, true);
        lemma_rows_next(61, c, 9, 61, false);
    }
    lemma_columns_next(61, 7, 57, 61, 52);
}

/// Where the alignment patterns of version 12 lie.
proof fn lemma_alignment_zone_of_version_12()
    ensures
        forall|r: int, c: int|
            #[trigger] alignment_zone(12, r, c) == (((4 <= r <= 8) && ((30 <= c <= 34)))
            || (((30 <= r <= 34)) && ((4 <= c <= 8) || (30 <= c <= 34) || (56 <= c <= 60)))
            || ((56 <= r <= 60) && ((30 <= c <= 34) || (56 <= c <= 60)))),
{
    reveal_with_fuel(alignment_hit, 4);
    reveal_with_fuel(alignment_row_hit, 4);
}

/// The free cells of the columns of version 12.
proof fn lemma_columns_of_version_12()
    ensures
        columns_free(65, 0, 6) + columns_free(65, 7, 65) == 3728,
{
    lemma_alignment_zone_of_version_12();
    assert(columns_free(65, 0, 0) == 0);
    assert forall|c: int| 0 <= c < 4 implies rows_free(65, c, 0, 65) == 45 by {
        lemma_rows_next(65, c, 0, 9, true);
        lemma_rows_next(65, c, 9, 54, false);
        lemma_rows_next(65, c, 54, 65, true);
    }
    lemma_columns_next(65, 0, 0, 4, 45);
    assert forall|c: int| 4 <= c < 6 implies rows_free(65, c, 0, 65) == 40 by {
        lemma_rows_next(65, c, 0, 9, true);
        lemma_rows_next(65, c, 9, 30, false);
        lemma_rows_next(65, c, 30, 35, true);
        lemma_rows_next(65, c, 35, 54, false);
        lemma_rows_next(65, c, 54, 65, true);
    }
    lemma_columns_next(65, 0, 4, 6, 40);
    assert(columns_free(65, 7, 7) == 0);
    assert forall|c: int| 7 <= c < 9 implies rows_free(65, c, 0, 65) == 43 by {
        lemma_rows_next(65, c, 0, 9, true);
        lemma_rows_next(65, c, 9, 30, false);
        lemma_rows_next(65, c, 30, 35, true);
        lemma_rows_next(65, c, 35, 57, false);
        lemma_rows_next(65, c, 57, 65, true);
    }
    lemma_columns_next(65, 7, 7, 9, 43);
    assert forall|c: int| 9 <= c < 30 implies rows_free(65, c, 0, 65) == 64 by {
        lemma_rows_next(65, c, 0, 6, false);
        lemma_rows_next(65, c, 6, 7, true);
        lemma_rows_next(65, c, 7, 65, false);
    }
    lemma_columns_next(65, 7, 9, 30, 64);
    assert forall|c: int| 30 <= c < 35 implies rows_free(65, c, 0, 65) == 50 by {
        lemma_rows_next(65, c, 0, 4, false);
        lemma_rows_next(65, c, 4, 9, true);
        lemma_rows_next(65, c, 9, 30, false);
        lemma_rows_next(65, c, 30, 35, true);
        lemma_rows_next(65, c, 35, 56, false);
        lemma_rows_next(65, c, 56, 61, true);
        lemma_rows_next(65, c, 61, 65, false);
    }
    lemma_columns_next(65, 7, 30, 35, 50);
    assert forall|c: int| 35 <= c < 54 implies rows_free(65, c, 0, 65) == 64 by {
        lemma_rows_next(65, c, 0, 6, false);
        lemma_rows_next(65, c, 6, 7, true);
        lemma_rows_next(65, c, 7, 65, false);
    }
    lemma_columns_next(65, 7, 35, 54, 64);
    assert forall|c: int| 54 <= c < 56 implies rows_free(65, c, 0, 65) == 58 by {
        lemma_rows_next(65, c, 0, 7, true);
        lemma_rows_next(65, c, 7, 65, false);
    }
    lemma_columns_next(65, 7, 54, 56, 58);
    assert forall|c: int| 56 <= c < 57 implies rows_free(65, c, 0, 65) == 48 by {
        lemma_rows_next(65, c, 0, 7, true);
        lemma_rows_next(65, c, 7, 30, false);
        lemma_rows_next(65, c, 30, 35, true);
        lemma_rows_next(65, c, 35, 56, false);
        lemma_rows_next(65, c, 56, 61, true);
        lemma_rows_next(65, c, 61, 65, false);
    }
    lemma_columns_next(65, 7, 56, 57, 48);
    assert forall|c: int| 57 <= c < 61 implies rows_free(65, c, 0, 65) == 46 by {
        lemma_rows_next(65, c, 0, 9, true);
        lemma_rows_next(65, c, 9, 30, false);
        lemma_rows_next(65, c, 30, 35, true);
        lemma_rows_next(65, c, 35, 56, false);
        lemma_rows_next(65, c, 56, 61, true);
        lemma_rows_next(65, c, 61, 65, false);
    }
    lemma_columns_next(65, 7, 57, 61, 46);
    assert forall|c: int| 61 <= c < 65 implies rows_free(65, c, 0, 65) == 56 by {
        lemma_rows_next(65, c, 0, 9, true);
        lemma_rows_next(65, c, 9, 65, false);
    }
    lemma_columns_next(65, 7, 61, 65, 56);
}

/// Where the alignment patterns of version 13 lie.
proof fn lemma_alignment_zone_of_version_13()
    ensures
        forall|r: int, c: int|
            #[trigger] alignment_zone(13, r, c) == (((4 <= r <= 8) && ((32 <= c <= 36)))
            || (((32 <= r <= 36)) && ((4 <= c <= 8) || (32 <= c <= 36) || (60 <= c <= 64)))
            || ((60 <= r <= 64) && ((32 <= c <= 36) || (60 <= c <= 64)))),
{
    reveal_with_fuel(alignment_hit, 4);
    reveal_with_fuel(alignment_row_hit, 4);
}

/// The free cells of the columns of version 13.
proof fn lemma_columns_of_version_13()
    ensures
        columns_free(69, 0, 6) + columns_free(69, 7, 69) == 4256,
{
    lemma_alignment_zone_of_version_13();
    assert(columns_free(69, 0, 0) == 0);
    assert forall|c: int| 0 <= c < 4 implies rows_free(69, c, 0, 69) == 49 by {
        lemma_rows_next(69, c, 0, 9, true);
        lemma_rows_next(69, c, 9, 58, false);
        lemma_rows_next(69, c, 58, 69, true);
    }
    lemma_columns_next(69, 0, 0, 4, 49);
    assert forall|c: int| 4 <= c < 6 implies rows_free(69, c, 0, 69) == 44 by {
        lemma_rows_next(69, c, 0, 9, true);
        lemma_rows_next(69, c, 9, 32, false);
        lemma_rows_next(69, c, 32, 37, true);
        lemma_rows_next(69, c, 37, 58, false);
        lemma_rows_next(69, c, 58, 69, true);
    }
    lemma_columns_next(69, 0, 4, 6, 44);
    assert(columns_free(69, 7, 7) == 0);
    assert forall|c: int| 7 <= c < 9 implies rows_free(69, c, 0, 69) == 47 by {
        lemma_rows_next(69, c, 0, 9, true);
        lemma_rows_next(69, c, 9, 32, false);
        lemma_rows_next(69, c, 32, 37, true);
        lemma_rows_next(69, c, 37, 61, false);
        lemma_rows_next(69, c, 61, 69, true);
    }
    lemma_columns_next(69, 7, 7, 9, 47);
    assert forall|c: int| 9 <= c < 32 implies rows_free(69, c, 0, 69) == 68 by {
        lemma_rows_next(69, c, 0, 6, false);
        lemma_rows_next(69, c, 6, 7, true);
        lemma_rows_next(69, c, 7, 69, false);
    }
    lemma_columns_next(69, 7, 9, 32, 68);
    assert forall|c: int| 32 <= c < 37 implies rows_free(69, c, 0, 69) == 54 by {
        lemma_rows_next(69, c, 0, 4, false);
        lemma_rows_next(69, c, 4, 9, true);
        lemma_rows_next(69, c, 9, 32, false);
        lemma_rows_next(69, c, 32, 37, true);
        lemma_rows_next(69, c, 37, 60, false);
        lemma_rows_next(69, c, 60, 65, true);
        lemma_rows_next(69, c, 65, 69, false);
    }
    lemma_columns_next(69, 7, 32, 37, 54);
    assert forall|c: int| 37 <= c < 58 implies rows_free(69, c, 0, 69) == 68 by {
        lemma_rows_next(69, c, 0, 6, false);
        lemma_rows_next(69, c, 6, 7, true);
        lemma_rows_next(69, c, 7, 69, false);
    }
    lemma_columns_next(69, 7, 37, 58, 68);
    assert forall|c: int| 58 <= c < 60 implies rows_free(69, c, 0, 69) == 62 by {
        lemma_rows_next(69, c, 0, 7, true);
        lemma_rows_next(69, c, 7, 69, false);
    }
    lemma_columns_next(69, 7, 58, 60, 62);
    assert forall|c: int| 60 <= c < 61 implies rows_free(69, c, 0, 69) == 52 by {
        lemma_rows_next(69, c, 0, 7, true);
        lemma_rows_next(69, c, 7, 32, false);
        lemma_rows_next(69, c, 32, 37, true);
        lemma_rows_next(69, c, 37, 60, false);
        lemma_rows_next(69, c, 60, 65, true);
        lemma_rows_next(69, c, 65, 69, false);
    }
    lemma_columns_next(69, 7, 60, 61, 52);
    assert forall|c: int| 61 <= c < 65 implies rows_free(69, c, 0, 69) == 50 by {
        lemma_rows_next(69, c, 0, 9, true);
        lemma_rows_next(69, c, 9, 32, false);
        lemma_rows_next(69, c, 32, 37, true);
        lemma_rows_next(69, c, 37, 60, false);
        lemma_rows_next(69, c, 60, 65, true);
        lemma_rows_next(69, c, 65, 69, false);
    }
    lemma_columns_next(69, 7, 61, 65, 50);
    assert forall|c: int| 65 <= c < 69 implies rows_free(69, c, 0, 69) == 60 by {
        lemma_rows_next(69, c, 0, 9, true);
        lemma_rows_next(69, c, 9, 69, false);
    }
    lemma_columns_next(69, 7, 65, 69, 60);
}

/// Where the alignment patterns of version 14 lie.
proof fn lemma_alignment_zone_of_version_14()
    ensures
        forall|r: int, c: int|
            #[trigger] alignment_zone(14, r, c) == (((4 <= r <= 8) && ((24 <= c <= 28) || (44 <= c <= 48)))
            || (((24 <= r <= 28) || (44 <= r <= 48)) && ((4 <= c <= 8) || (24 <= c <= 28) || (44 <= c <= 48) || (64 <= c <= 68)))
            || ((64 <= r <= 68) && ((24 <= c <= 28) || (44 <= c <= 48) || (64 <= c <= 68)))),
{
    reveal_with_fuel(alignment_hit, 5);
    reveal_with_fuel(alignment_row_hit, 5);
}

/// The free cells of the columns of version 14.
proof fn lemma_columns_of_version_14()
    ensures
        columns_free(73, 0, 6) + columns_free(73, 7, 73) == 4651,
{
    lemma_alignment_zone_of_version_14();
    assert(columns_free(73, 0, 0) == 0);
    assert forall|c: int| 0 <= c < 4 implies rows_free(73, c, 0, 73) == 53 by {
        lemma_rows_next(73, c, 0, 9, true);
        lemma_rows_next(73, c, 9, 62, false);
        lemma_rows_next(73, c, 62, 73, true);
    }
    lemma_columns_next(73, 0, 0, 4, 53);
    assert forall|c: int| 4 <= c < 6 implies rows_free(73, c, 0, 73) == 43 by {
        lemma_rows_next(73, c, 0, 9, true);
        lemma_rows_next(73, c, 9, 24, false);
        lemma_rows_next(73, c, 24, 29, true);
        lemma_rows_next(73, c, 29, 44, false);
        lemma_rows_next(73, c, 44, 49, true);
        lemma_rows_next(73, c, 49, 62, false);
        lemma_rows_next(73, c, 62, 73, true);
    }
    lemma_columns_next(73, 0, 4, 6, 43);
    assert(columns_free(73, 7, 7) == 0);
    assert forall|c: int| 7 <= c < 9 implies rows_free(73, c, 0, 73) == 46 by {
        lemma_rows_next(73, c, 0, 9, true);
        lemma_rows_next(73, c, 9, 24, false);
        lemma_rows_next(73, c, 24, 29, true);
        lemma_rows_next(73, c, 29, 44, false);
        lemma_rows_next(73, c, 44, 49, true);
        lemma_rows_next(73, c, 49, 65, false);
        lemma_rows_next(73, c, 65, 73, true);
    }
    lemma_columns_next(73, 7, 7, 9, 46);
    assert forall|c: int| 9 <= c < 24 implies rows_free(73, c, 0, 73) == 72 by {
        lemma_rows_next(73, c, 0, 6, false);
        lemma_rows_next(73, c, 6, 7, true);
        lemma_rows_next(73, c, 7, 73, false);
    }
    lemma_columns_next(73, 7, 9, 24, 72);
    assert forall|c: int| 24 <= c < 29 implies rows_free(73, c, 0, 73) == 53 by {
        lemma_rows_next(73, c, 0, 4, false);
        lemma_rows_next(73, c, 4, 9, true);
        lemma_rows_next(73, c, 9, 24, false);
        lemma_rows_next(73, c, 24, 29, true);
        lemma_rows_next(73, c, 29, 44, false);
        lemma_rows_next(73, c, 44, 49, true);
        lemma_rows_next(73, c, 49, 64, false);
        lemma_rows_next(73, c, 64, 69, true);
        lemma_rows_next(73, c, 69, 73, false);
    }
    lemma_columns_next(73, 7, 24, 29, 53);
    assert forall|c: int| 29 <= c < 44 implies rows_free(73, c, 0, 73) == 72 by {
        lemma_rows_next(73, c, 0, 6, false);
        lemma_rows_next(73, c, 6, 7, true);
        lemma_rows_next(73, c, 7, 73, false);
    }
    lemma_columns_next(73, 7, 29, 44, 72);
    assert forall|c: int| 44 <= c < 49 implies rows_free(73, c, 0, 73) == 53 by {
        lemma_rows_next(73, c, 0, 4, false);
        lemma_rows_next(73, c, 4, 9, true);
        lemma_rows_next(73, c, 9, 24, false);
        lemma_rows_next(73, c, 24, 29, true);
        lemma_rows_next(73, c, 29, 44, false);
        lemma_rows_next(73, c, 44, 49, true);
        lemma_rows_next(73, c, 49, 64, false);
        lemma_rows_next(73, c, 64, 69, true);
        lemma_rows_next(73, c, 69, 73, false);
    }
    lemma_columns_next(73, 7, 44, 49, 53);
    assert forall|c: int| 49 <= c < 62 implies rows_free(73, c, 0, 73) == 72 by {
        lemma_rows_next(73, c, 0, 6, false);
        lemma_rows_next(73, c, 6, 7, true);
        lemma_rows_next(73, c, 7, 73, false);
    }
    lemma_columns_next(73, 7, 49, 62, 72);
    assert forall|c: int| 62 <= c < 64 implies rows_free(73, c, 0, 73) == 66 by {
        lemma_rows_next(73, c, 0, 7, true);
        lemma_rows_next(73, c, 7, 73, false);
    }
    lemma_columns_next(73, 7, 62, 64, 66);
    assert forall|c: int| 64 <= c < 65 implies rows_free(73, c, 0, 73) == 51 by {
        lemma_rows_next(73, c, 0, 7, true);
        lemma_rows_next(73, c, 7, 24, false);
        lemma_rows_next(73, c, 24, 29, true);
        lemma_rows_next(73, c, 29, 44, false);
        lemma_rows_next(73, c, 44, 49, true);
        lemma_rows_next(73, c, 49, 64, false);
        lemma_rows_next(73, c, 64, 69, true);
        lemma_rows_next(73, c, 69, 73, false);
    }
    lemma_columns_next(73, 7, 64, 65, 51);
    assert forall|c: int| 65 <= c < 69 implies rows_free(73, c, 0, 73) == 49 by {
        lemma_rows_next(73, c, 0, 9, true);
        lemma_rows_next(73, c, 9, 24, false);
        lemma_rows_next(73, c, 24, 29, true);
        lemma_rows_next(73, c, 29, 44, false);
        lemma_rows_next(73, c, 44, 49, true);
        lemma_rows_next(73, c, 49, 64, false);
        lemma_rows_next(73, c, 64, 69, true);
        lemma_rows_next(73, c, 69, 73, false);
    }
    lemma_columns_next(73, 7, 65, 69, 49);
    assert forall|c: int| 69 <= c < 73 implies rows_free(73, c, 0, 73) == 64 by {
        lemma_rows_next(73, c, 0, 9, true);
        lemma_rows_next(73, c, 9, 73, false);
    }
    lemma_columns_next(73, 7, 69, 73, 64);
}

/// Where the alignment patterns of version 15 lie.
proof fn lemma_alignment_zone_of_version_15()
    ensures
        forall|r: int, c: int|
            #[trigger] alignment_zone(15, r, c) == (((4 <= r <= 8) && ((24 <= c <= 28) || (46 <= c <= 50)))
            || (((24 <= r <= 28) || (46 <= r <= 50)) && ((4 <= c <= 8) || (24 <= c <= 28) || (46 <= c <= 50) || (68 <= c <= 72)))
            || ((68 <= r <= 72) && ((24 <= c <= 28) || (46 <= c <= 50) || (68 <= c <= 72)))),
{
    reveal_with_fuel(alignment_hit, 5);
    reveal_with_fuel(alignment_row_hit, 5);
}

/// The free cells of the columns of version 15.
proof fn lemma_columns_of_version_15()
    ensures
        columns_free(77, 0, 6) + columns_free(77, 7, 77) == 5243,
{
    lemma_alignment_zone_of_version_15();
    assert(columns_free(77, 0, 0) == 0);
    assert forall|c: int| 0 <= c < 4 implies rows_free(77, c, 0, 77) == 57 by {
        lemma_rows_next(77, c, 0, 9, true);
        lemma_rows_next(77, c, 9, 66, false);
        lemma_rows_next(77, c, 66, 77, true);
    }
    lemma_columns_next(77, 0, 0, 4, 57);
    assert forall|c: int| 4 <= c < 6 implies rows_free(77, c, 0, 77) == 47 by {
        lemma_rows_next(77, c, 0, 9, true);
        lemma_rows_next(77, c, 9, 24, false);
        lemma_rows_next(77, c, 24, 29, true);
        lemma_rows_next(77, c, 29, 46, false);
        lemma_rows_next(77, c, 46, 51, true);
        lemma_rows_next(77, c, 51, 66, false);
        lemma_rows_next(77, c, 66, 77, true);
    }
    lemma_columns_next(77, 0, 4, 6, 47);
    assert(columns_free(77, 7, 7) == 0);
    assert forall|c: int| 7 <= c < 9 implies rows_free(77, c, 0, 77) == 50 by {
        lemma_rows_next(77, c, 0, 9, true);
        lemma_rows_next(77, c, 9, 24, false);
        lemma_rows_next(77, c, 24, 29, true);
        lemma_rows_next(77, c, 29, 46, false);
        lemma_rows_next(77, c, 46, 51, true);
        lemma_rows_next(77, c, 51, 69, false);
        lemma_rows_next(77, c, 69, 77, true);
    }
    lemma_columns_next(77, 7, 7, 9, 50);
    assert forall|c: int| 9 <= c < 24 implies rows_free(77, c, 0, 77) == 76 by {
        lemma_rows_next(77, c, 0, 6, false);
        lemma_rows_next(77, c, 6, 7, true);
        lemma_rows_next(77, c, 7, 77, false);
    }
    lemma_columns_next(77, 7, 9, 24, 76);
    assert forall|c: int| 24 <= c < 29 implies rows_free(77, c, 0, 77) == 57 by {
        lemma_rows_next(77, c, 0, 4, false);
        lemma_rows_next(77, c, 4, 9, true);
        lemma_rows_next(77, c, 9, 24, false);
        lemma_rows_next(77, c, 24, 29, true);
        lemma_rows_next(77, c, 29, 46, false);
        lemma_rows_next(77, c, 46, 51, true);
        lemma_rows_next(77, c, 51, 68, false);
        lemma_rows_next(77, c, 68, 73, true);
        lemma_rows_next(77, c, 73, 77, false);
    }
    lemma_columns_next(77, 7, 24, 29, 57);
    assert forall|c: int| 29 <= c < 46 implies rows_free(77, c, 0, 77) == 76 by {
        lemma_rows_next(77, c, 0, 6, false);
        lemma_rows_next(77, c, 6, 7, true);
        lemma_rows_next(77, c, 7, 77, false);
    }
    lemma_columns_next(77, 7, 29, 46, 76);
    assert forall|c: int| 46 <= c < 51 implies rows_free(77, c, 0, 77) == 57 by {
        lemma_rows_next(77, c, 0, 4, false);
        lemma_rows_next(77, c, 4, 9, true);
        lemma_rows_next(77, c, 9, 24, false);
        lemma_rows_next(77, c, 24, 29, true);
        lemma_rows_next(77, c, 29, 46, false);
        lemma_rows_next(77, c, 46, 51, true);
        lemma_rows_next(77, c, 51, 68, false);
        lemma_rows_next(77, c, 68, 73, true);
        lemma_rows_next(77, c, 73, 77, false);
    }
    lemma_columns_next(77, 7, 46, 51, 57);
    assert forall|c: int| 51 <= c < 66 implies rows_free(77, c, 0, 77) == 76 by {
        lemma_rows_next(77, c, 0, 6, false);
        lemma_rows_next(77, c, 6, 7, true);
        lemma_rows_next(77, c, 7, 77, false);
    }
    lemma_columns_next(77, 7, 51, 66, 76);
    assert forall|c: int| 66 <= c < 68 implies rows_free(77, c, 0, 77) == 70 by {
        lemma_rows_next(77, c, 0, 7, true);
        lemma_rows_next(77, c, 7, 77, false);
    }
    lemma_columns_next(77, 7, 66, 68, 70);
    assert forall|c: int| 68 <= c < 69 implies rows_free(77, c, 0, 77) == 55 by {
        lemma_rows_next(77, c, 0, 7, true);
        lemma_rows_next(77, c, 7, 24, false);
        lemma_rows_next(77, c, 24, 29, true);
        lemma_rows_next(77, c, 29, 46, false);
        lemma_rows_next(77, c, 46, 51, true);
        lemma_rows_next(77, c, 51, 68, false);
        lemma_rows_next(77, c, 68, 73, true);
        lemma_rows_next(77, c, 73, 77, false);
    }
    lemma_columns_next(77, 7, 68, 69, 55);
    assert forall|c: int| 69 <= c < 73 implies rows_free(77, c, 0, 77) == 53 by {
        lemma_rows_next(77, c, 0, 9, true);
        lemma_rows_next(77, c, 9, 24, false);
        lemma_rows_next(77, c, 24, 29, true);
        lemma_rows_next(77, c, 29, 46, false);
        lemma_rows_next(77, c, 46, 51, true);
        lemma_rows_next(77, c, 51, 68, false);
        lemma_rows_next(77, c, 68, 73, true);
        lemma_rows_next(77, c, 73, 77, false);
    }
    lemma_columns_next(77, 7, 69, 73, 53);
    assert forall|c: int| 73 <= c < 77 implies rows_free(77, c, 0, 77) == 68 by {
        lemma_rows_next(77, c, 0, 9, true);
        lemma_rows_next(77, c, 9, 77, false);
    }
    lemma_columns_next(77, 7, 73, 77, 68);
}

/// Where the alignment patterns of version 16 lie.
proof fn lemma_alignment_zone_of_version_16()
    ensures
        forall|r: int, c: int|
            #[trigger] alignment_zone(16, r, c) == (((4 <= r <= 8) && ((24 <= c <= 28) || (48 <= c <= 52)))
            || (((24 <= r <= 28) || (48 <= r <= 52)) && ((4 <= c <= 8) || (24 <= c <= 28) || (48 <= c <= 52) || (72 <= c <= 76)))
            || ((72 <= r <= 76) && ((24 <= c <= 28) || (48 <= c <= 52) || (72 <= c <= 76)))),
{
    reveal_with_fuel(alignment_hit, 5);
    reveal_with_fuel(alignment_row_hit, 5);
}

/// The free cells of the columns of version 16.
proof fn lemma_columns_of_version_16()
    ensures
        columns_free(81, 0, 6) + columns_free(81, 7, 81) == 5867,
{
    lemma_alignment_zone_of_version_16();
    assert(columns_free(81, 0, 0) == 0);
    assert forall|c: int| 0 <= c < 4 implies rows_free(81, c, 0, 81) == 61 by {
        lemma_rows_next(81, c, 0, 9, true);
        lemma_rows_next(81, c, 9, 70, false);
        lemma_rows_next(81, c, 70, 81, true);
    }
    lemma_columns_next(81, 0, 0, 4, 61);
    assert forall|c: int| 4 <= c < 6 implies rows_free(81, c, 0, 81) == 51 by {
        lemma_rows_next(81, c, 0, 9, true);
        lemma_rows_next(81, c, 9, 24, false);
        lemma_rows_next(81, c, 24, 29, true);
        lemma_rows_next(81, c, 29, 48, false);
        lemma_rows_next(81, c, 48, 53, true);
        lemma_rows_next(81, c, 53, 70, false);
        lemma_rows_next(81, c, 70, 81, true);
    }
    lemma_columns_next(81, 0, 4, 6, 51);
    assert(columns_free(81, 7, 7) == 0);
    assert forall|c: int| 7 <= c < 9 implies rows_free(81, c, 0, 81) == 54 by {
        lemma_rows_next(81, c, 0, 9, true);
        lemma_rows_next(81, c, 9, 24, false);
        lemma_rows_next(81, c, 24, 29, true);
        lemma_rows_next(81, c, 29, 48, false);
        lemma_rows_next(81, c, 48, 53, true);
        lemma_rows_next(81, c, 53, 73, false);
        lemma_rows_next(81, c, 73, 81, true);
    }
    lemma_columns_next(81, 7, 7, 9, 54);
    assert forall|c: int| 9 <= c < 24 implies rows_free(81, c, 0, 81) == 80 by {
        lemma_rows_next(81, c, 0, 6, false);
        lemma_rows_next(81, c, 6, 7, true);
        lemma_rows_next(81, c, 7, 81, false);
    }
    lemma_columns_next(81, 7, 9, 24, 80);
    assert forall|c: int| 24 <= c < 29 implies rows_free(81, c, 0, 81) == 61 by {
        lemma_rows_next(81, c, 0, 4, false);
        lemma_rows_next(81, c, 4, 9, true);
        lemma_rows_next(81, c, 9, 24, false);
        lemma_rows_next(81, c, 24, 29, true);
        lemma_rows_next(81, c, 29, 48, false);
        lemma_rows_next(81, c, 48, 53, true);
        lemma_rows_next(81, c, 53, 72, false);
        lemma_rows_next(81, c, 72, 77, true);
        lemma_rows_next(81, c, 77, 81, false);
    }
    lemma_columns_next(81, 7, 24, 29, 61);
    assert forall|c: int| 29 <= c < 48 implies rows_free(81, c, 0, 81) == 80 by {
        lemma_rows_next(81, c, 0, 6, false);
        lemma_rows_next(81, c, 6, 7, true);
        lemma_rows_next(81, c, 7, 81, false);
    }
    lemma_columns_next(81, 7, 29, 48, 80);
    assert forall|c: int| 48 <= c < 53 implies rows_free(81, c, 0, 81) == 61 by {
        lemma_rows_next(81, c, 0, 4, false);
        lemma_rows_next(81, c, 4, 9, true);
        lemma_rows_next(81, c, 9, 24, false);
        lemma_rows_next(81, c, 24, 29, true);
        lemma_rows_next(81, c, 29, 48, false);
        lemma_rows_next(81, c, 48, 53, true);
        lemma_rows_next(81, c, 53, 72, false);
        lemma_rows_next(81, c, 72, 77, true);
        lemma_rows_next(81, c, 77, 81, false);
    }
    lemma_columns_next(81, 7, 48, 53, 61);
    assert forall|c: int| 53 <= c < 70 implies rows_free(81, c, 0, 81) == 80 by {
        lemma_rows_next(81, c, 0, 6, false);
        lemma_rows_next(81, c, 6, 7, true);
        lemma_rows_next(81, c, 7, 81, false);
    }
    lemma_columns_next(81, 7, 53, 70, 80);
    assert forall|c: int| 70 <= c < 72 implies rows_free(81, c, 0, 81) == 74 by {
        lemma_rows_next(81, c, 0, 7, true);
        lemma_rows_next(81, c, 7, 81, false);
    }
    lemma_columns_next(81, 7, 70, 72, 74);
    assert forall|c: int| 72 <= c < 73 implies rows_free(81, c, 0, 81) == 59 by {
        lemma_rows_next(81, c, 0, 7, true);
        lemma_rows_next(81, c, 7, 24, false);
        lemma_rows_next(81, c, 24, 29, true);
        lemma_rows_next(81, c, 29, 48, false);
        lemma_rows_next(81, c, 48, 53, true);
        lemma_rows_next(81, c, 53, 72, false);
        lemma_rows_next(81, c, 72, 77, true);
        lemma_rows_next(81, c, 77, 81, false);
    }
    lemma_columns_next(81, 7, 72, 73, 59);
    assert forall|c: int| 73 <= c < 77 implies rows_free(81, c, 0, 81) == 57 by {
        lemma_rows_next(81, c, 0, 9, true);
        lemma_rows_next(81, c, 9, 24, false);
        lemma_rows_next(81, c, 24, 29, true);
        lemma_rows_next(81, c, 29, 48, false);
        lemma_rows_next(81, c, 48, 53, true);
        lemma_rows_next(81, c, 53, 72, false);
        lemma_rows_next(81, c, 72, 77, true);
        lemma_rows_next(81, c, 77, 81, false);
    }
    lemma_columns_next(81, 7, 73, 77, 57);
    assert forall|c: int| 77 <= c < 81 implies rows_free(81, c, 0, 81) == 72 by {
        lemma_rows_next(81, c, 0, 9, true);
        lemma_rows_next(81, c, 9, 81, false);
    }
    lemma_columns_next(81, 7, 77, 81, 72);
}

/// Where the alignment patterns of version 17 lie.
proof fn lemma_alignment_zone_of_version_17()
    ensures
        forall|r: int, c: int|
            #[trigger] alignment_zone(17, r, c) == (((4 <= r <= 8) && ((28 <= c <= 32) || (52 <= c <= 56)))
            || (((28 <= r <= 32) || (52 <= r <= 56)) && ((4 <= c <= 8) || (28 <= c <= 32) || (52 <= c <= 56) || (76 <= c <= 80)))
            || ((76 <= r <= 80) && ((28 <= c <= 32) || (52 <= c <= 56) || (76 <= c <= 80)))),
{
    reveal_with_fuel(alignment_hit, 5);
    reveal_with_fuel(alignment_row_hit, 5);
}

/// The free cells of the columns of version 17.
proof fn lemma_columns_of_version_17()
    ensures
        columns_free(85, 0, 6) + columns_free(85, 7, 85) == 6523,
{
    lemma_alignment_zone_of_version_17();
    assert(columns_free(85, 0, 0) == 0);
    assert forall|c: int| 0 <= c < 4 implies rows_free(85, c, 0, 85) == 65 by {
        lemma_rows_next(85, c, 0, 9, true);
        lemma_rows_next(85, c, 9, 74, false);
        lemma_rows_next(85, c, 74, 85, true);
    }
    lemma_columns_next(85, 0, 0, 4, 65);
    assert forall|c: int| 4 <= c < 6 implies rows_free(85, c, 0, 85) == 55 by {
        lemma_rows_next(85, c, 0, 9, true);
        lemma_rows_next(85, c, 9, 28, false);
        lemma_rows_next(85, c, 28, 33, true);
        lemma_rows_next(85, c, 33, 52, false);
        lemma_rows_next(85, c, 52, 57, true);
        lemma_rows_next(85, c, 57, 74, false);
        lemma_rows_next(85, c, 74, 85, true);
    }
    lemma_columns_next(85, 0, 4, 6, 55);
    assert(columns_free(85, 7, 7) == 0);
    assert forall|c: int| 7 <= c < 9 implies rows_free(85, c, 0, 85) == 58 by {
        lemma_rows_next(85, c, 0, 9, true);
        lemma_rows_next(85, c, 9, 28, false);
        lemma_rows_next(85, c, 28, 33, true);
        lemma_rows_next(85, c, 33, 52, false);
        lemma_rows_next(85, c, 52, 57, true);
        lemma_rows_next(85, c, 57, 77, false);
        lemma_rows_next(85, c, 77, 85, true);
    }
    lemma_columns_next(85, 7, 7, 9, 58);
    assert forall|c: int| 9 <= c < 28 implies rows_free(85, c, 0, 85) == 84 by {
        lemma_rows_next(85, c, 0, 6, false);
        lemma_rows_next(85, c, 6, 7, true);
        lemma_rows_next(85, c, 7, 85, false);
    }
    lemma_columns_next(85, 7, 9, 28, 84);
    assert forall|c: int| 28 <= c < 33 implies rows_free(85, c, 0, 85) == 65 by {
        lemma_rows_next(85, c, 0, 4, false);
        lemma_rows_next(85, c, 4, 9, true);
        lemma_rows_next(85, c, 9, 28, false);
        lemma_rows_next(85, c, 28, 33, true);
        lemma_rows_next(85, c, 33, 52, false);
        lemma_rows_next(85, c, 52, 57, true);
        lemma_rows_next(85, c, 57, 76, false);
        lemma_rows_next(85, c, 76, 81, true);
        lemma_rows_next(85, c, 81, 85, false);
    }
    lemma_columns_next(85, 7, 28, 33, 65);
    assert forall|c: int| 33 <= c < 52 implies rows_free(85, c, 0, 85) == 84 by {
        lemma_rows_next(85, c, 0, 6, false);
        lemma_rows_next(85, c, 6, 7, true);
        lemma_rows_next(85, c, 7, 85, false);
    }
    lemma_columns_next(85, 7, 33, 52, 84);
    assert forall|c: int| 52 <= c < 57 implies rows_free(85, c, 0, 85) == 65 by {
        lemma_rows_next(85, c, 0, 4, false);
        lemma_rows_next(85, c, 4, 9, true);
        lemma_rows_next(85, c, 9, 28, false);
        lemma_rows_next(85, c, 28, 33, true);
        lemma_rows_next(85, c, 33, 52, false);
        lemma_rows_next(85, c, 52, 57, true);
        lemma_rows_next(85, c, 57, 76, false);
        lemma_rows_next(85, c, 76, 81, true);
        lemma_rows_next(85, c, 81, 85, false);
    }
    lemma_columns_next(85, 7, 52, 57, 65);
    assert forall|c: int| 57 <= c < 74 implies rows_free(85, c, 0, 85) == 84 by {
        lemma_rows_next(85, c, 0, 6, false);
        lemma_rows_next(85, c, 6, 7, true);
        lemma_rows_next(85, c, 7, 85, false);
    }
    lemma_columns_next(85, 7, 57, 74, 84);
    assert forall|c: int| 74 <= c < 76 implies rows_free(85, c, 0, 85) == 78 by {
        lemma_rows_next(85, c, 0, 7, true);
        lemma_rows_next(85, c, 7, 85, false);
    }
    lemma_columns_next(85, 7, 74, 76, 78);
    assert forall|c: int| 76 <= c < 77 implies rows_free(85, c, 0, 85) == 63 by {
        lemma_rows_next(85, c, 0, 7, true);
        lemma_rows_next(85, c, 7, 28, false);
        lemma_rows_next(85, c, 28, 33, true);
        lemma_rows_next(85, c, 33, 52, false);
        lemma_rows_next(85, c, 52, 57, true);
        lemma_rows_next(85, c, 57, 76, false);
        lemma_rows_next(85, c, 76, 81, true);
        lemma_rows_next(85, c, 81, 85, false);
    }
    lemma_columns_next(85, 7, 76, 77, 63);
    assert forall|c: int| 77 <= c < 81 implies rows_free(85, c, 0, 85) == 61 by {
        lemma_rows_next(85, c, 0, 9, true);
        lemma_rows_next(85, c, 9, 28, false);
        lemma_rows_next(85, c, 28, 33, true);
        lemma_rows_next(85, c, 33, 52, false);
        lemma_rows_next(85, c, 52, 57, true);
        lemma_rows_next(85, c, 57, 76, false);
        lemma_rows_next(85, c, 76, 81, true);
        lemma_rows_next(85, c, 81, 85, false);
    }
    lemma_columns_next(85, 7, 77, 81, 61);
    assert forall|c: int| 81 <= c < 85 implies rows_free(85, c, 0, 85) == 76 by {
        lemma_rows_next(85, c, 0, 9, true);
        lemma_rows_next(85, c, 9, 85, false);
    }
    lemma_columns_next(85, 7, 81, 85, 76);
}

/// Where the alignment patterns of version 18 lie.
proof fn lemma_alignment_zone_of_version_18()
    ensures
        forall|r: int, c: int|
            #[trigger] alignment_zone(18, r, c) == (((4 <= r <= 8) && ((28 <= c <= 32) || (54 <= c <= 58)))
            || (((28 <= r <= 32) || (54 <= r <= 58)) && ((4 <= c <= 8) || (28 <= c <= 32) || (54 <= c <= 58) || (80 <= c <= 84)))
            || ((80 <= r <= 84) && ((28 <= c <= 32) || (54 <= c <= 58) || (80 <= c <= 84)))),
{
    reveal_with_fuel(alignment_hit, 5);
    reveal_with_fuel(alignment_row_hit, 5);
}

/// The free cells of the columns of version 18.
proof fn lemma_columns_of_version_18()
    ensures
        columns_free(89, 0, 6) + columns_free(89, 7, 89) == 7211,
{
    lemma_alignment_zone_of_version_18();
    assert(columns_free(89, 0, 0) == 0);
    assert forall|c: int| 0 <= c < 4 implies rows_free(89, c, 0, 89) == 69 by {
        lemma_rows_next(89, c, 0, 9, true);
        lemma_rows_next(89, c, 9, 78, false);
        lemma_rows_next(89, c, 78, 89, true);
    }
    lemma_columns_next(89, 0, 0, 4, 69);
    assert forall|c: int| 4 <= c < 6 implies rows_free(89, c, 0, 89) == 59 by {
        lemma_rows_next(89, c, 0, 9, true);
        lemma_rows_next(89, c, 9, 28, false);
        lemma_rows_next(89, c, 28, 33, true);
        lemma_rows_next(89, c, 33, 54, false);
        lemma_rows_next(89, c, 54, 59, true);
        lemma_rows_next(89, c, 59, 78, false);
        lemma_rows_next(89, c, 78, 89, true);
    }
    lemma_columns_next(89, 0, 4, 6, 59);
    assert(columns_free(89, 7, 7) == 0);
    assert forall|c: int| 7 <= c < 9 implies rows_free(89, c, 0, 89) == 62 by {
        lemma_rows_next(89, c, 0, 9, true);
        lemma_rows_next(89, c, 9, 28, false);
        lemma_rows_next(89, c, 28, 33, true);
        lemma_rows_next(89, c, 33, 54, false);
        lemma_rows_next(89, c, 54, 59, true);
        lemma_rows_next(89, c, 59, 81, false);
        lemma_rows_next(89, c, 81, 89, true);
    }
    lemma_columns_next(89, 7, 7, 9, 62);
    assert forall|c: int| 9 <= c < 28 implies rows_free(89, c, 0, 89) == 88 by {
        lemma_rows_next(89, c, 0, 6, false);
        lemma_rows_next(89, c, 6, 7, true);
        lemma_rows_next(89, c, 7, 89, false);
    }
    lemma_columns_next(89, 7, 9, 28, 88);
    assert forall|c: int| 28 <= c < 33 implies rows_free(89, c, 0, 89) == 69 by {
        lemma_rows_next(89, c, 0, 4, false);
        lemma_rows_next(89, c, 4, 9, true);
        lemma_rows_next(89, c, 9, 28, false);
        lemma_rows_next(89, c, 28, 33, true);
        lemma_rows_next(89, c, 33, 54, false);
        lemma_rows_next(89, c, 54, 59, true);
        lemma_rows_next(89, c, 59, 80, false);
        lemma_rows_next(89, c, 80, 85, true);
        lemma_rows_next(89, c, 85, 89, false);
    }
    lemma_columns_next(89, 7, 28, 33, 69);
    assert forall|c: int| 33 <= c < 54 implies rows_free(89, c, 0, 89) == 88 by {
        lemma_rows_next(89, c, 0, 6, false);
        lemma_rows_next(89, c, 6, 7, true);
        lemma_rows_next(89, c, 7, 89, false);
    }
    lemma_columns_next(89, 7, 33, 54, 88);
    assert forall|c: int| 54 <= c < 59 implies rows_free(89, c, 0, 89) == 69 by {
        lemma_rows_next(89, c, 0, 4, false);
        lemma_rows_next(89, c, 4, 9, true);
        lemma_rows_next(89, c, 9, 28, false);
        lemma_rows_next(89, c, 28, 33, true);
        lemma_rows_next(89, c, 33, 54, false);
        lemma_rows_next(89, c, 54, 59, true);
        lemma_rows_next(89, c, 59, 80, false);
        lemma_rows_next(89, c, 80, 85, true);
        lemma_rows_next(89, c, 85, 89, false);
    }
    lemma_columns_next(89, 7, 54, 59, 69);
    assert forall|c: int| 59 <= c < 78 implies rows_free(89, c, 0, 89) == 88 by {
        lemma_rows_next(89, c, 0, 6, false);
        lemma_rows_next(89, c, 6, 7, true);
        lemma_rows_next(89, c, 7, 89, false);
    }
    lemma_columns_next(89, 7, 59, 78, 88);
    assert forall|c: int| 78 <= c < 80 implies rows_free(89, c, 0, 89) == 82 by {
        lemma_rows_next(89, c, 0, 7, true);
        lemma_rows_next(89, c, 7, 89, false);
    }
    lemma_columns_next(89, 7, 78, 80, 82);
    assert forall|c: int| 80 <= c < 81 implies rows_free(89, c, 0, 89) == 67 by {
        lemma_rows_next(89, c, 0, 7, true);
        lemma_rows_next(89, c, 7, 28, false);
        lemma_rows_next(89, c, 28, 33, true);
        lemma_rows_next(89, c, 33, 54, false);
        lemma_rows_next(89, c, 54, 59, true);
        lemma_rows_next(89, c, 59, 80, false);
        lemma_rows_next(89, c, 80, 85, true);
        lemma_rows_next(89, c, 85, 89, false);
    }
    lemma_columns_next(89, 7, 80, 81, 67);
    assert forall|c: int| 81 <= c < 85 implies rows_free(89, c, 0, 89) == 65 by {
        lemma_rows_next(89, c, 0, 9, true);
        lemma_rows_next(89, c, 9, 28, false);
        lemma_rows_next(89, c, 28, 33, true);
        lemma_rows_next(89, c, 33, 54, false);
        lemma_rows_next(89, c, 54, 59, true);
        lemma_rows_next(89, c, 59, 80, false);
        lemma_rows_next(89, c, 80, 85, true);
        lemma_rows_next(89, c, 85, 89, false);
    }
    lemma_columns_next(89, 7, 81, 85, 65);
    assert forall|c: int| 85 <= c < 89 implies rows_free(89, c, 0, 89) == 80 by {
        lemma_rows_next(89, c, 0, 9, true);
        lemma_rows_next(89, c, 9, 89, false);
    }
    lemma_columns_next(89, 7, 85, 89, 80);
}

/// Where the alignment patterns of version 19 lie.
proof fn lemma_alignment_zone_of_version_19()
    ensures
        forall|r: int, c: int|
            #[trigger] alignment_zone(19, r, c) == (((4 <= r <= 8) && ((28 <= c <= 32) || (56 <= c <= 60)))
            || (((28 <= r <= 32) || (56 <= r <= 60)) && ((4 <= c <= 8) || (28 <= c <= 32) || (56 <= c <= 60) || (84 <= c <= 88)))
            || ((84 <= r <= 88) && ((28 <= c <= 32) || (56 <= c <= 60) || (84 <= c <= 88)))),
{
    reveal_with_fuel(alignment_hit, 5);
    reveal_with_fuel(alignment_row_hit, 5);
}

/// The free cells of the columns of version 19.
proof fn lemma_columns_of_version_19()
    ensures
        columns_free(93, 0, 6) + columns_free(93, 7, 93) == 7931,
{
    lemma_alignment_zone_of_version_19();
    assert(columns_free(93, 0, 0) == 0);
    assert forall|c: int| 0 <= c < 4 implies rows_free(93, c, 0, 93) == 73 by {
        lemma_rows_next(93, c, 0, 9, true);
        lemma_rows_next(93, c, 9, 82, false);
        lemma_rows_next(93, c, 82, 93, true);
    }
    lemma_columns_next(93, 0, 0, 4, 73);
    assert forall|c: int| 4 <= c < 6 implies rows_free(93, c, 0, 93) == 63 by {
        lemma_rows_next(93, c, 0, 9, true);
        lemma_rows_next(93, c, 9, 28, false);
        lemma_rows_next(93, c, 28, 33, true);
        lemma_rows_next(93, c, 33, 56, false);
        lemma_rows_next(93, c, 56, 61, true);
        lemma_rows_next(93, c, 61, 82, false);
        lemma_rows_next(93, c, 82, 93, true);
    }
    lemma_columns_next(93, 0, 4, 6, 63);
    assert(columns_free(93, 7, 7) == 0);
    assert forall|c: int| 7 <= c < 9 implies rows_free(93, c, 0, 93) == 66 by {
        lemma_rows_next(93, c, 0, 9, true);
        lemma_rows_next(93, c, 9, 28, false);
        lemma_rows_next(93, c, 28, 33, true);
        lemma_rows_next(93, c, 33, 56, false);
        lemma_rows_next(93, c, 56, 61, true);
        lemma_rows_next(93, c, 61, 85, false);
        lemma_rows_next(93, c, 85, 93, true);
    }
    lemma_columns_next(93, 7, 7, 9, 66);
    assert forall|c: int| 9 <= c < 28 implies rows_free(93, c, 0, 93) == 92 by {
        lemma_rows_next(93, c, 0, 6, false);
        lemma_rows_next(93, c, 6, 7, true);
        lemma_rows_next(93, c, 7, 93, false);
    }
    lemma_columns_next(93, 7, 9, 28, 92);
    assert forall|c: int| 28 <= c < 33 implies rows_free(93, c, 0, 93) == 73 by {
        lemma_rows_next(93, c, 0, 4, false);
        lemma_rows_next(93, c, 4, 9, true);
        lemma_rows_next(93, c, 9, 28, false);
        lemma_rows_next(93, c, 28, 33, true);
        lemma_rows_next(93, c, 33, 56, false);
        lemma_rows_next(93, c, 56, 61, true);
        lemma_rows_next(93, c, 61, 84, false);
        lemma_rows_next(93, c, 84, 89, true);
        lemma_rows_next(93, c, 89, 93, false);
    }
    lemma_columns_next(93, 7, 28, 33, 73);
    assert forall|c: int| 33 <= c < 56 implies rows_free(93, c, 0, 93) == 92 by {
        lemma_rows_next(93, c, 0, 6, false);
        lemma_rows_next(93, c, 6, 7, true);
        lemma_rows_next(93, c, 7, 93, false);
    }
    lemma_columns_next(93, 7, 33, 56, 92);
    assert forall|c: int| 56 <= c < 61 implies rows_free(93, c, 0, 93) == 73 by {
        lemma_rows_next(93, c, 0, 4, false);
        lemma_rows_next(93, c, 4, 9, true);
        lemma_rows_next(93, c, 9, 28, false);
        lemma_rows_next(93, c, 28, 33, true);
        lemma_rows_next(93, c, 33, 56, false);
        lemma_rows_next(93, c, 56, 61, true);
        lemma_rows_next(93, c, 61, 84, false);
        lemma_rows_next(93, c, 84, 89, true);
        lemma_rows_next(93, c, 89, 93, false);
    }
    lemma_columns_next(93, 7, 56, 61, 73);
    assert forall|c: int| 61 <= c < 82 implies rows_free(93, c, 0, 93) == 92 by {
        lemma_rows_next(93, c, 0, 6, false);
        lemma_rows_next(93, c, 6, 7, true);
        lemma_rows_next(93, c, 7, 93, false);
    }
    lemma_columns_next(93, 7, 61, 82, 92);
    assert forall|c: int| 82 <= c < 84 implies rows_free(93, c, 0, 93) == 86 by {
        lemma_rows_next(93, c, 0, 7, true);
        lemma_rows_next(93, c, 7, 93, false);
    }
    lemma_columns_next(93, 7, 82, 84, 86);
    assert forall|c: int| 84 <= c < 85 implies rows_free(93, c, 0, 93) == 71 by {
        lemma_rows_next(93, c, 0, 7, true);
        lemma_rows_next(93, c, 7, 28, false);
        lemma_rows_next(93, c, 28, 33, true);
        lemma_rows_next(93, c, 33, 56, false);
        lemma_rows_next(93, c, 56, 61, true);
        lemma_rows_next(93, c, 61, 84, false);
        lemma_rows_next(93, c, 84, 89, true);
        lemma_rows_next(93, c, 89, 93, false);
    }
    lemma_columns_next(93, 7, 84, 85, 71);
    assert forall|c: int| 85 <= c < 89 implies rows_free(93, c, 0, 93) == 69 by {
        lemma_rows_next(93, c, 0, 9, true);
        lemma_rows_next(93, c, 9, 28, false);
        lemma_rows_next(93, c, 28, 33, true);
        lemma_rows_next(93, c, 33, 56, false);
        lemma_rows_next(93, c, 56, 61, true);
        lemma_rows_next(93, c, 61, 84, false);
        lemma_rows_next(93, c, 84, 89, true);
        lemma_rows_next(93, c, 89, 93, false);
    }
    lemma_columns_next(93, 7, 85, 89, 69);
    assert forall|c: int| 89 <= c < 93 implies rows_free(93, c, 0, 93) == 84 by {
        lemma_rows_next(93, c, 0, 9, true);
        lemma_rows_next(93, c, 9, 93, false);
    }
    lemma_columns_next(93, 7, 89, 93, 84);
}

/// Where the alignment patterns of version 20 lie.
proof fn lemma_alignment_zone_of_version_20()
    ensures
        forall|r: int, c: int|
            #[trigger] alignment_zone(20, r, c) == (((4 <= r <= 8) && ((32 <= c <= 36) || (60 <= c <= 64)))
            || (((32 <= r <= 36) || (60 <= r <= 64)) && ((4 <= c <= 8) || (32 <= c <= 36) || (60 <= c <= 64) || (88 <= c <= 92)))
            || ((88 <= r <= 92) && ((32 <= c <= 36) || (60 <= c <= 64) || (88 <= c <= 92)))),
{
    reveal_with_fuel(alignment_hit, 5);
    reveal_with_fuel(alignment_row_hit, 5);
}

/// The free cells of the columns of version 20.
proof fn lemma_columns_of_version_20()
    ensures
        columns_free(97, 0, 6) + columns_free(97, 7, 97) == 8683,
{
    lemma_alignment_zone_of_version_20();
    assert(columns_free(97, 0, 0) == 0);
    assert forall|c: int| 0 <= c < 4 implies rows_free(97, c, 0, 97) == 77 by {
        lemma_rows_next(97, c, 0, 9, true);
        lemma_rows_next(97, c, 9, 86, false);
        lemma_rows_next(97, c, 86, 97, true);
    }
    lemma_columns_next(97, 0, 0, 4, 77);
    assert forall|c: int| 4 <= c < 6 implies rows_free(97, c, 0, 97) == 67 by {
        lemma_rows_next(97, c, 0, 9, true);
        lemma_rows_next(97, c, 9, 32, false);
        lemma_rows_next(97, c, 32, 37, true);
        lemma_rows_next(97, c, 37, 60, false);
        lemma_rows_next(97, c, 60, 65, true);
        lemma_rows_next(97, c, 65, 86, false);
        lemma_rows_next(97, c, 86, 97, true);
    }
    lemma_columns_next(97, 0, 4, 6, 67);
    assert(columns_free(97, 7, 7) == 0);
    assert forall|c: int| 7 <= c < 9 implies rows_free(97, c, 0, 97) == 70 by {
        lemma_rows_next(97, c, 0, 9, true);
        lemma_rows_next(97, c, 9, 32, false);
        lemma_rows_next(97, c, 32, 37, true);
        lemma_rows_next(97, c, 37, 60, false);
        lemma_rows_next(97, c, 60, 65, true);
        lemma_rows_next(97, c, 65, 89, false);
        lemma_rows_next(97, c, 89, 97, true);
    }
    lemma_columns_next(97, 7, 7, 9, 70);
    assert forall|c: int| 9 <= c < 32 implies rows_free(97, c, 0, 97) == 96 by {
        lemma_rows_next(97, c, 0, 6, false);
        lemma_rows_next(97, c, 6, 7, true);
        lemma_rows_next(97, c, 7, 97, false);
    }
    lemma_columns_next(97, 7, 9, 32, 96);
    assert forall|c: int| 32 <= c < 37 implies rows_free(97, c, 0, 97) == 77 by {
        lemma_rows_next(97, c, 0, 4, false);
        lemma_rows_next(97, c, 4, 9, true);
        lemma_rows_next(97, c, 9, 32, false);
        lemma_rows_next(97, c, 32, 37, true);
        lemma_rows_next(97, c, 37, 60, false);
        lemma_rows_next(97, c, 60, 65, true);
        lemma_rows_next(97, c, 65, 88, false);
        lemma_rows_next(97, c, 88, 93, true);
        lemma_rows_next(97, c, 93, 97, false);
    }
    lemma_columns_next(97, 7, 32, 37, 77);
    assert forall|c: int| 37 <= c < 60 implies rows_free(97, c, 0, 97) == 96 by {
        lemma_rows_next(97, c, 0, 6, false);
        lemma_rows_next(97, c, 6, 7, true);
        lemma_rows_next(97, c, 7, 97, false);
    }
    lemma_columns_next(97, 7, 37, 60, 96);
    assert forall|c: int| 60 <= c < 65 implies rows_free(97, c, 0, 97) == 77 by {
        lemma_rows_next(97, c, 0, 4, false);
        lemma_rows_next(97, c, 4, 9, true);
        lemma_rows_next(97, c, 9, 32, false);
        lemma_rows_next(97, c, 32, 37, true);
        lemma_rows_next(97, c, 37, 60, false);
        lemma_rows_next(97, c, 60, 65, true);
        lemma_rows_next(97, c, 65, 88, false);
        lemma_rows_next(97, c, 88, 93, true);
        lemma_rows_next(97, c, 93, 97, false);
    }
    lemma_columns_next(97, 7, 60, 65, 77);
    assert forall|c: int| 65 <= c < 86 implies rows_free(97, c, 0, 97) == 96 by {
        lemma_rows_next(97, c, 0, 6, false);
        lemma_rows_next(97, c, 6, 7, true);
        lemma_rows_next(97, c, 7, 97, false);
    }
    lemma_columns_next(97, 7, 65, 86, 96);
    assert forall|c: int| 86 <= c < 88 implies rows_free(97, c, 0, 97) == 90 by {
        lemma_rows_next(97, c, 0, 7, true);
        lemma_rows_next(97, c, 7, 97, false);
    }
    lemma_columns_next(97, 7, 86, 88, 90);
    assert forall|c: int| 88 <= c < 89 implies rows_free(97, c, 0, 97) == 75 by {
        lemma_rows_next(97, c, 0, 7, true);
        lemma_rows_next(97, c, 7, 32, false);
        lemma_rows_next(97, c, 32, 37, true);
        lemma_rows_next(97, c, 37, 60, false);
        lemma_rows_next(97, c, 60, 65, true);
        lemma_rows_next(97, c, 65, 88, false);
        lemma_rows_next(97, c, 88, 93, true);
        lemma_rows_next(97, c, 93, 97, false);
    }
    lemma_columns_next(97, 7, 88, 89, 75);
    assert forall|c: int| 89 <= c < 93 implies rows_free(97, c, 0, 97) == 73 by {
        lemma_rows_next(97, c, 0, 9, true);
        lemma_rows_next(97, c, 9, 32, false);
        lemma_rows_next(97, c, 32, 37, true);
        lemma_rows_next(97, c, 37, 60, false);
        lemma_rows_next(97, c, 60, 65, true);
        lemma_rows_next(97, c, 65, 88, false);
        lemma_rows_next(97, c, 88, 93, true);
        lemma_rows_next(97, c, 93, 97, false);
    }
    lemma_columns_next(97, 7, 89, 93, 73);
    assert forall|c: int| 93 <= c < 97 implies rows_free(97, c, 0, 97) == 88 by {
        lemma_rows_next(97, c, 0, 9, true);
        lemma_rows_next(97, c, 9, 97, false);
    }
    lemma_columns_next(97, 7, 93, 97, 88);
}

/// Where the alignment patterns of version 21 lie.
proof fn lemma_alignment_zone_of_version_21()
    ensures
        forall|r: int, c: int|
            #[trigger] alignment_zone(21, r, c) == (((4 <= r <= 8) && ((26 <= c <= 30) || (48 <= c <= 52) || (70 <= c <= 74)))
            || (((26 <= r <= 30) || (48 <= r <= 52) || (70 <= r <= 74)) && ((4 <= c <= 8) || (26 <= c <= 30) || (48 <= c <= 52) || (70 <= c <= 74) || (92 <= c <= 96)))
            || ((92 <= r <= 96) && ((26 <= c <= 30) || (48 <= c <= 52) || (70 <= c <= 74) || (92 <= c <= 96)))),
{
    reveal_with_fuel(alignment_hit, 6);
    reveal_with_fuel(alignment_row_hit, 6);
}

/// The free cells of the columns of version 21.
proof fn lemma_columns_of_version_21()
    ensures
        columns_free(101, 0, 6) + columns_free(101, 7, 101) == 9252,
{
    lemma_alignment_zone_of_version_21();
    assert(columns_free(101, 0, 0) == 0);
    assert forall|c: int| 0 <= c < 4 implies rows_free(101, c, 0, 101) == 81 by {
        lemma_rows_next(101, c, 0, 9, true);
        lemma_rows_next(101, c, 9, 90, false);
        lemma_rows_next(101, c, 90, 101, true);
    }
    lemma_columns_next(101, 0, 0, 4, 81);
    assert forall|c: int| 4 <= c < 6 implies rows_free(101, c, 0, 101) == 66 by {
        lemma_rows_next(101, c, 0, 9, true);
        lemma_rows_next(101, c, 9, 26, false);
        lemma_rows_next(101, c, 26, 31, true);
        lemma_rows_next(101, c, 31, 48, false);
        lemma_rows_next(101, c, 48, 53, true);
        lemma_rows_next(101, c, 53, 70, false);
        lemma_rows_next(101, c, 70, 75, true);
        lemma_rows_next(101, c, 75, 90, false);
        lemma_rows_next(101, c, 90, 101, true);
    }
    lemma_columns_next(101, 0, 4, 6, 66);
    assert(columns_free(101, 7, 7) == 0);
    assert forall|c: int| 7 <= c < 9 implies rows_free(101, c, 0, 101) == 69 by {
        lemma_rows_next(101, c, 0, 9, true);
        lemma_rows_next(101, c, 9, 26, false);
        lemma_rows_next(101, c, 26, 31, true);
        lemma_rows_next(101, c, 31, 48, false);
        lemma_rows_next(101, c, 48, 53, true);
        lemma_rows_next(101, c, 53, 70, false);
        lemma_rows_next(101, c, 70, 75, true);
        lemma_rows_next(101, c, 75, 93, false);
        lemma_rows_next(101, c, 93, 101, true);
    }
    lemma_columns_next(101, 7, 7, 9, 69);
    assert forall|c: int| 9 <= c < 26 implies rows_free(101, c, 0, 101) == 100 by {
        lemma_rows_next(101, c, 0, 6, false);
        lemma_rows_next(101, c, 6, 7, true);
        lemma_rows_next(101, c, 7, 101, false);
    }
    lemma_columns_next(101, 7, 9, 26, 100);
    assert forall|c: int| 26 <= c < 31 implies rows_free(101, c, 0, 101) == 76 by {
        lemma_rows_next(101, c, 0, 4, false);
        lemma_rows_next(101, c, 4, 9, true);
        lemma_rows_next(101, c, 9, 26, false);
        lemma_rows_next(101, c, 26, 31, true);
        lemma_rows_next(101, c, 31, 48, false);
        lemma_rows_next(101, c, 48, 53, true);
        lemma_rows_next(101, c, 53, 70, false);
        lemma_rows_next(101, c, 70, 75, true);
        lemma_rows_next(101, c, 75, 92, false);
        lemma_rows_next(101, c, 92, 97, true);
        lemma_rows_next(101, c, 97, 101, false);
    }
    lemma_columns_next(101, 7, 26, 31, 76);
    assert forall|c: int| 31 <= c < 48 implies rows_free(101, c, 0, 101) == 100 by {
        lemma_rows_next(101, c, 0, 6, false);
        lemma_rows_next(101, c, 6, 7, true);
        lemma_rows_next(101, c, 7, 101, false);
    }
    lemma_columns_next(101, 7, 31, 48, 100);
    assert forall|c: int| 48 <= c < 53 implies rows_free(101, c, 0, 101) == 76 by {
        lemma_rows_next(101, c, 0, 4, false);
        lemma_rows_next(101, c, 4, 9, true);
        lemma_rows_next(101, c, 9, 26, false);
        lemma_rows_next(101, c, 26, 31, true);
        lemma_rows_next(101, c, 31, 48, false);
        lemma_rows_next(101, c, 48, 53, true);
        lemma_rows_next(101, c, 53, 70, false);
        lemma_rows_next(101, c, 70, 75, true);
        lemma_rows_next(101, c, 75, 92, false);
        lemma_rows_next(101, c, 92, 97, true);
        lemma_rows_next(101, c, 97, 101, false);
    }
    lemma_columns_next(101, 7, 48, 53, 76);
    assert forall|c: int| 53 <= c < 70 implies rows_free(101, c, 0, 101) == 100 by {
        lemma_rows_next(101, c, 0, 6, false);
        lemma_rows_next(101, c, 6, 7, true);
        lemma_rows_next(101, c, 7, 101, false);
    }
    lemma_columns_next(101, 7, 53, 70, 100);
    assert forall|c: int| 70 <= c < 75 implies rows_free(101, c, 0, 101) == 76 by {
        lemma_rows_next(101, c, 0, 4, false);
        lemma_rows_next(101, c, 4, 9, true);
        lemma_rows_next(101, c, 9, 26, false);
        lemma_rows_next(101, c, 26, 31, true);
        lemma_rows_next(101, c, 31, 48, false);
        lemma_rows_next(101, c, 48, 53, true);
        lemma_rows_next(101, c, 53, 70, false);
        lemma_rows_next(101, c, 70, 75, true);
        lemma_rows_next(101, c, 75, 92, false);
        lemma_rows_next(101, c, 92, 97, true);
        lemma_rows_next(101, c, 97, 101, false);
    }
    lemma_columns_next(101, 7, 70, 75, 76);
    assert forall|c: int| 75 <= c < 90 implies rows_free(101, c, 0, 101) == 100 by {
        lemma_rows_next(101, c, 0, 6, false);
        lemma_rows_next(101, c, 6, 7, true);
        lemma_rows_next(101, c, 7, 101, false);
    }
    lemma_columns_next(101, 7, 75, 90, 100);
    assert forall|c: int| 90 <= c < 92 implies rows_free(101, c, 0, 101) == 94 by {
        lemma_rows_next(101, c, 0, 7, true);
        lemma_rows_next(101, c, 7, 101, false);
    }
    lemma_columns_next(101, 7, 90, 92, 94);
    assert forall|c: int| 92 <= c < 93 implies rows_free(101, c, 0, 101) == 74 by {
        lemma_rows_next(101, c, 0, 7, true);
        lemma_rows_next(101, c, 7, 26, false);
        lemma_rows_next(101, c, 26, 31, true);
        lemma_rows_next(101, c, 31, 48, false);
        lemma_rows_next(101, c, 48, 53, true);
        lemma_rows_next(101, c, 53, 70, false);
        lemma_rows_next(101, c, 70, 75, true);
        lemma_rows_next(101, c, 75, 92, false);
        lemma_rows_next(101, c, 92, 97, true);
        lemma_rows_next(101, c, 97, 101, false);
    }
    lemma_columns_next(101, 7, 92, 93, 74);
    assert forall|c: int| 93 <= c < 97 implies rows_free(101, c, 0, 101) == 72 by {
        lemma_rows_next(101, c, 0, 9, true);
        lemma_rows_next(101, c, 9, 26, false);
        lemma_rows_next(101, c, 26, 31, true);
        lemma_rows_next(101, c, 31, 48, false);
        lemma_rows_next(101, c, 48, 53, true);
        lemma_rows_next(101, c, 53, 70, false);
        lemma_rows_next(101, c, 70, 75, true);
        lemma_rows_next(101, c, 75, 92, false);
        lemma_rows_next(101, c, 92, 97, true);
        lemma_rows_next(101, c, 97, 101, false);
    }
    lemma_columns_next(101, 7, 93, 97, 72);
    assert forall|c: int| 97 <= c < 101 implies rows_free(101, c, 0, 101) == 92 by {
        lemma_rows_next(101, c, 0, 9, true);
        lemma_rows_next(101, c, 9, 101, false);
    }
    lemma_columns_next(101, 7, 97, 101, 92);
}

/// Where the alignment patterns of version 22 lie.
proof fn lemma_alignment_zone_of_version_22()
    ensures
        forall|r: int, c: int|
            #[trigger] alignment_zone(22, r, c) == (((4 <= r <= 8) && ((24 <= c <= 28) || (48 <= c <= 52) || (72 <= c <= 76)))
            || (((24 <= r <= 28) || (48 <= r <= 52) || (72 <= r <= 76)) && ((4 <= c <= 8) || (24 <= c <= 28) || (48 <= c <= 52) || (72 <= c <= 76) || (96 <= c <= 100)))
            || ((96 <= r <= 100) && ((24 <= c <= 28) || (48 <= c <= 52) || (72 <= c <= 76) || (96 <= c <= 100)))),
{
    reveal_with_fuel(alignment_hit, 6);
    reveal_with_fuel(alignment_row_hit, 6);
}

/// The free cells of the columns of version 22.
proof fn lemma_columns_of_version_22()
    ensures
        columns_free(105, 0, 6) + columns_free(105, 7, 105) == 10068,
{
    lemma_alignment_zone_of_version_22();
    assert(columns_free(105, 0, 0) == 0);
    assert forall|c: int| 0 <= c < 4 implies rows_free(105, c, 0, 105) == 85 by {
        lemma_rows_next(105, c, 0, 9, true);
        lemma_rows_next(105, c, 9, 94, false);
        lemma_rows_next(105, c, 94, 105, true);
    }
    lemma_columns_next(105, 0, 0, 4, 85);
    assert forall|c: int| 4 <= c < 6 implies rows_free(105, c, 0, 105) == 70 by {
        lemma_rows_next(105, c, 0, 9, true);
        lemma_rows_next(105, c, 9, 24, false);
        lemma_rows_next(105, c, 24, 29, true);
        lemma_rows_next(105, c, 29, 48, false);
        lemma_rows_next(105, c, 48, 53, true);
        lemma_rows_next(105, c, 53, 72, false);
        lemma_rows_next(105, c, 72, 77, true);
        lemma_rows_next(105, c, 77, 94, false);
        lemma_rows_next(105, c, 94, 105, true);
    }
    lemma_columns_next(105, 0, 4, 6, 70);
    assert(columns_free(105, 7, 7) == 0);
    assert forall|c: int| 7 <= c < 9 implies rows_free(105, c, 0, 105) == 73 by {
        lemma_rows_next(105, c, 0, 9, true);
        lemma_rows_next(105, c, 9, 24, false);
        lemma_rows_next(105, c, 24, 29, true);
        lemma_rows_next(105, c, 29, 48, false);
        lemma_rows_next(105, c, 48, 53, true);
        lemma_rows_next(105, c, 53, 72, false);
        lemma_rows_next(105, c, 72, 77, true);
        lemma_rows_next(105, c, 77, 97, false);
        lemma_rows_next(105, c, 97, 105, true);
    }
    lemma_columns_next(105, 7, 7, 9, 73);
    assert forall|c: int| 9 <= c < 24 implies rows_free(105, c, 0, 105) == 104 by {
        lemma_rows_next(105, c, 0, 6, false);
        lemma_rows_next(105, c, 6, 7, true);
        lemma_rows_next(105, c, 7, 105, false);
    }
    lemma_columns_next(105, 7, 9, 24, 104);
    assert forall|c: int| 24 <= c < 29 implies rows_free(105, c, 0, 105) == 80 by {
        lemma_rows_next(105, c, 0, 4, false);
        lemma_rows_next(105, c, 4, 9, true);
        lemma_rows_next(105, c, 9, 24, false);
        lemma_rows_next(105, c, 24, 29, true);
        lemma_rows_next(105, c, 29, 48, false);
        lemma_rows_next(105, c, 48, 53, true);
        lemma_rows_next(105, c, 53, 72, false);
        lemma_rows_next(105, c, 72, 77, true);
        lemma_rows_next(105, c, 77, 96, false);
        lemma_rows_next(105, c, 96, 101, true);
        lemma_rows_next(105, c, 101, 105, false);
    }
    lemma_columns_next(105, 7, 24, 29, 80);
    assert forall|c: int| 29 <= c < 48 implies rows_free(105, c, 0, 105) == 104 by {
        lemma_rows_next(105, c, 0, 6, false);
        lemma_rows_next(105, c, 6, 7, true);
        lemma_rows_next(105, c, 7, 105, false);
    }
    lemma_columns_next(105, 7, 29, 48, 104);
    assert forall|c: int| 48 <= c < 53 implies rows_free(105, c, 0, 105) == 80 by {
        lemma_rows_next(105, c, 0, 4, false);
        lemma_rows_next(105, c, 4, 9, true);
        lemma_rows_next(105, c, 9, 24, false);
        lemma_rows_next(105, c, 24, 29, true);
        lemma_rows_next(105, c, 29, 48, false);
        lemma_rows_next(105, c, 48, 53, true);
        lemma_rows_next(105, c, 53, 72, false);
        lemma_rows_next(105, c, 72, 77, true);
        lemma_rows_next(105, c, 77, 96, false);
        lemma_rows_next(105, c, 96, 101, true);
        lemma_rows_next(105, c, 101, 105, false);
    }
    lemma_columns_next(105, 7, 48, 53, 80);
    assert forall|c: int| 53 <= c < 72 implies rows_free(105, c, 0, 105) == 104 by {
        lemma_rows_next(105, c, 0, 6, false);
        lemma_rows_next(105, c, 6, 7, true);
        lemma_rows_next(105, c, 7, 105, false);
    }
    lemma_columns_next(105, 7, 53, 72, 104);
    assert forall|c: int| 72 <= c < 77 implies rows_free(105, c, 0, 105) == 80 by {
        lemma_rows_next(105, c, 0, 4, false);
        lemma_rows_next(105, c, 4, 9, true);
        lemma_rows_next(105, c, 9, 24, false);
        lemma_rows_next(105, c, 24, 29, true);
        lemma_rows_next(105, c, 29, 48, false);
        lemma_rows_next(105, c, 48, 53, true);
        lemma_rows_next(105, c, 53, 72, false);
        lemma_rows_next(105, c, 72, 77, true);
        lemma_rows_next(105, c, 77, 96, false);
        lemma_rows_next(105, c, 96, 101, true);
        lemma_rows_next(105, c, 101, 105, false);
    }
    lemma_columns_next(105, 7, 72, 77, 80);
    assert forall|c: int| 77 <= c < 94 implies rows_free(105, c, 0, 105) == 104 by {
        lemma_rows_next(105, c, 0, 6, false);
        lemma_rows_next(105, c, 6, 7, true);
        lemma_rows_next(105, c, 7, 105, false);
    }
    lemma_columns_next(105, 7, 77, 94, 104);
    assert forall|c: int| 94 <= c < 96 implies rows_free(105, c, 0, 105) == 98 by {
        lemma_rows_next(105, c, 0, 7, true);
        lemma_rows_next(105, c, 7, 105, false);
    }
    lemma_columns_next(105, 7, 94, 96, 98);
    assert forall|c: int| 96 <= c < 97 implies rows_free(105, c, 0, 105) == 78 by {
        lemma_rows_next(105, c, 0, 7, true);
        lemma_rows_next(105, c, 7, 24, false);
        lemma_rows_next(105, c, 24, 29, true);
        lemma_rows_next(105, c, 29, 48, false);
        lemma_rows_next(105, c, 48, 53, true);
        lemma_rows_next(105, c, 53, 72, false);
        lemma_rows_next(105, c, 72, 77, true);
        lemma_rows_next(105, c, 77, 96, false);
        lemma_rows_next(105, c, 96, 101, true);
        lemma_rows_next(105, c, 101, 105, false);
    }
    lemma_columns_next(105, 7, 96, 97, 78);
    assert forall|c: int| 97 <= c < 101 implies rows_free(105, c, 0, 105) == 76 by {
        lemma_rows_next(105, c, 0, 9, true);
        lemma_rows_next(105, c, 9, 24, false);
        lemma_rows_next(105, c, 24, 29, true);
        lemma_rows_next(105, c, 29, 48, false);
        lemma_rows_next(105, c, 48, 53, true);
        lemma_rows_next(105, c, 53, 72, false);
        lemma_rows_next(105, c, 72, 77, true);
        lemma_rows_next(105, c, 77, 96, false);
        lemma_rows_next(105, c, 96, 101, true);
        lemma_rows_next(105, c, 101, 105, false);
    }
    lemma_columns_next(105, 7, 97, 101, 76);
    assert forall|c: int| 101 <= c < 105 implies rows_free(105, c, 0, 105) == 96 by {
        lemma_rows_next(105, c, 0, 9, true);
        lemma_rows_next(105, c, 9, 105, false);
    }
    lemma_columns_next(105, 7, 101, 105, 96);
}

/// Where the alignment patterns of version 23 lie.
proof fn lemma_alignment_zone_of_version_23()
    ensures
        forall|r: int, c: int|
            #[trigger] alignment_zone(23, r, c) == (((4 <= r <= 8) && ((28 <= c <= 32) || (52 <= c <= 56) || (76 <= c <= 80)))
            || (((28 <= r <= 32) || (52 <= r <= 56) || (76 <= r <= 80)) && ((4 <= c <= 8) || (28 <= c <= 32) || (52 <= c <= 56) || (76 <= c <= 80) || (100 <= c <= 104)))
            || ((100 <= r <= 104) && ((28 <= c <= 32) || (52 <= c <= 56) || (76 <= c <= 80) || (100 <= c <= 104)))),
{
    reveal_with_fuel(alignment_hit, 6);
    reveal_with_fuel(alignment_row_hit, 6);
}

/// The free cells of the columns of version 23.
proof fn lemma_columns_of_version_23()
    ensures
        columns_free(109, 0, 6) + columns_free(109, 7, 109) == 10916,
{
    lemma_alignment_zone_of_version_23();
    assert(columns_free(109, 0, 0) == 0);
    assert forall|c: int| 0 <= c < 4 implies rows_free(109, c, 0, 109) == 89 by {
        lemma_rows_next(109, c, 0, 9, true);
        lemma_rows_next(109, c, 9, 98, false);
        lemma_rows_next(109, c, 98, 109, true);
    }
    lemma_columns_next(109, 0, 0, 4, 89);
    assert forall|c: int| 4 <= c < 6 implies rows_free(109, c, 0, 109) == 74 by {
        lemma_rows_next(109, c, 0, 9, true);
        lemma_rows_next(109, c, 9, 28, false);
        lemma_rows_next(109, c, 28, 33, true);
        lemma_rows_next(109, c, 33, 52, false);
        lemma_rows_next(109, c, 52, 57, true);
        lemma_rows_next(109, c, 57, 76, false);
        lemma_rows_next(109, c, 76, 81, true);
        lemma_rows_next(109, c, 81, 98, false);
        lemma_rows_next(109, c, 98, 109, true);
    }
    lemma_columns_next(109, 0, 4, 6, 74);
    assert(columns_free(109, 7, 7) == 0);
    assert forall|c: int| 7 <= c < 9 implies rows_free(109, c, 0, 109) == 77 by {
        lemma_rows_next(109, c, 0, 9, true);
        lemma_rows_next(109, c, 9, 28, false);
        lemma_rows_next(109, c, 28, 33, true);
        lemma_rows_next(109, c, 33, 52, false);
        lemma_rows_next(109, c, 52, 57, true);
        lemma_rows_next(109, c, 57, 76, false);
        lemma_rows_next(109, c, 76, 81, true);
        lemma_rows_next(109, c, 81, 101, false);
        lemma_rows_next(109, c, 101, 109, true);
    }
    lemma_columns_next(109, 7, 7, 9, 77);
    assert forall|c: int| 9 <= c < 28 implies rows_free(109, c, 0, 109) == 108 by {
        lemma_rows_next(109, c, 0, 6, false);
        lemma_rows_next(109, c, 6, 7, true);
        lemma_rows_next(109, c, 7, 109, false);
    }
    lemma_columns_next(109, 7, 9, 28, 108);
    assert forall|c: int| 28 <= c < 33 implies rows_free(109, c, 0, 109) == 84 by {
        lemma_rows_next(109, c, 0, 4, false);
        lemma_rows_next(109, c, 4, 9, true);
        lemma_rows_next(109, c, 9, 28, false);
        lemma_rows_next(109, c, 28, 33, true);
        lemma_rows_next(109, c, 33, 52, false);
        lemma_rows_next(109, c, 52, 57, true);
        lemma_rows_next(109, c, 57, 76, false);
        lemma_rows_next(109, c, 76, 81, true);
        lemma_rows_next(109, c, 81, 100, false);
        lemma_rows_next(109, c, 100, 105, true);
        lemma_rows_next(109, c, 105, 109, false);
    }
    lemma_columns_next(109, 7, 28, 33, 84);
    assert forall|c: int| 33 <= c < 52 implies rows_free(109, c, 0, 109) == 108 by {
        lemma_rows_next(109, c, 0, 6, false);
        lemma_rows_next(109, c, 6, 7, true);
        lemma_rows_next(109, c, 7, 109, false);
    }
    lemma_columns_next(109, 7, 33, 52, 108);
    assert forall|c: int| 52 <= c < 57 implies rows_free(109, c, 0, 109) == 84 by {
        lemma_rows_next(109, c, 0, 4, false);
        lemma_rows_next(109, c, 4, 9, true);
        lemma_rows_next(109, c, 9, 28, false);
        lemma_rows_next(109, c, 28, 33, true);
        lemma_rows_next(109, c, 33, 52, false);
        lemma_rows_next(109, c, 52, 57, true);
        lemma_rows_next(109, c, 57, 76, false);
        lemma_rows_next(109, c, 76, 81, true);
        lemma_rows_next(109, c, 81, 100, false);
        lemma_rows_next(109, c, 100, 105, true);
        lemma_rows_next(109, c, 105, 109, false);
    }
    lemma_columns_next(109, 7, 52, 57, 84);
    assert forall|c: int| 57 <= c < 76 implies rows_free(109, c, 0, 109) == 108 by {
        lemma_rows_next(109, c, 0, 6, false);
        lemma_rows_next(109, c, 6, 7, true);
        lemma_rows_next(109, c, 7, 109, false);
    }
    lemma_columns_next(109, 7, 57, 76, 108);
    assert forall|c: int| 76 <= c < 81 implies rows_free(109, c, 0, 109) == 84 by {
        lemma_rows_next(109, c, 0, 4, false);
        lemma_rows_next(109, c, 4, 9, true);
        lemma_rows_next(109, c, 9, 28, false);
        lemma_rows_next(109, c, 28, 33, true);
        lemma_rows_next(109, c, 33, 52, false);
        lemma_rows_next(109, c, 52, 57, true);
        lemma_rows_next(109, c, 57, 76, false);
        lemma_rows_next(109, c, 76, 81, true);
        lemma_rows_next(109, c, 81, 100, false);
        lemma_rows_next(109, c, 100, 105, true);
        lemma_rows_next(109, c, 105, 109, false);
    }
    lemma_columns_next(109, 7, 76, 81, 84);
    assert forall|c: int| 81 <= c < 98 implies rows_free(109, c, 0, 109) == 108 by {
        lemma_rows_next(109, c, 0, 6, false);
        lemma_rows_next(109, c, 6, 7, true);
        lemma_rows_next(109, c, 7, 109, false);
    }
    lemma_columns_next(109, 7, 81, 98, 108);
    assert forall|c: int| 98 <= c < 100 implies rows_free(109, c, 0, 109) == 102 by {
        lemma_rows_next(109, c, 0, 7, true);
        lemma_rows_next(109, c, 7, 109, false);
    }
    lemma_columns_next(109, 7, 98, 100, 102);
    assert forall|c: int| 100 <= c < 101 implies rows_free(109, c, 0, 109) == 82 by {
        lemma_rows_next(109, c, 0, 7, true);
        lemma_rows_next(109, c, 7, 28, false);
        lemma_rows_next(109, c, 28, 33, true);
        lemma_rows_next(109, c, 33, 52, false);
        lemma_rows_next(109, c, 52, 57, true);
        lemma_rows_next(109, c, 57, 76, false);
        lemma_rows_next(109, c, 76, 81, true);
        lemma_rows_next(109, c, 81, 100, false);
        lemma_rows_next(109, c, 100, 105, true);
        lemma_rows_next(109, c, 105, 109, false);
    }
    lemma_columns_next(109, 7, 100, 101, 82);
    assert forall|c: int| 101 <= c < 105 implies rows_free(109, c, 0, 109) == 80 by {
        lemma_rows_next(109, c, 0, 9, true);
        lemma_rows_next(109, c, 9, 28, false);
        lemma_rows_next(109, c, 28, 33, true);
        lemma_rows_next(109, c, 33, 52, false);
        lemma_rows_next(109, c, 52, 57, true);
        lemma_rows_next(109, c, 57, 76, false);
        lemma_rows_next(109, c, 76, 81, true);
        lemma_rows_next(109, c, 81, 100, false);
        lemma_rows_next(109, c, 100, 105, true);
        lemma_rows_next(109, c, 105, 109, false);
    }
    lemma_columns_next(109, 7, 101, 105, 80);
    assert forall|c: int| 105 <= c < 109 implies rows_free(109, c, 0, 109) == 100 by {
        lemma_rows_next(109, c, 0, 9, true);
        lemma_rows_next(109, c, 9, 109, false);
    }
    lemma_columns_next(109, 7, 105, 109, 100);
}

/// Where the alignment patterns of version 24 lie.
proof fn lemma_alignment_zone_of_version_24()
    ensures
        forall|r: int, c: int|
            #[trigger] alignment_zone(24, r, c) == (((4 <= r <= 8) && ((26 <= c <= 30) || (52 <= c <= 56) || (78 <= c <= 82)))
            || (((26 <= r <= 30) || (52 <= r <= 56) || (78 <= r <= 82)) && ((4 <= c <= 8) || (26 <= c <= 30) || (52 <= c <= 56) || (78 <= c <= 82) || (104 <= c <= 108)))
            || ((104 <= r <= 108) && ((26 <= c <= 30) || (52 <= c <= 56) || (78 <= c <= 82) || (104 <= c <= 108)))),
{
    reveal_with_fuel(alignment_hit, 6);
    reveal_with_fuel(alignment_row_hit, 6);
}

/// The free cells of the columns of version 24.
proof fn lemma_columns_of_version_24()
    ensures
        columns_free(113, 0, 6) + columns_free(113, 7, 113) == 11796,
{
    lemma_alignment_zone_of_version_24();
    assert(columns_free(113, 0, 0) == 0);
    assert forall|c: int| 0 <= c < 4 implies rows_free(113, c, 0, 113) == 93 by {
        lemma_rows_next(113, c, 0, 9, true);
        lemma_rows_next(113, c, 9, 102, false);
        lemma_rows_next(113, c, 102, 113, true);
    }
    lemma_columns_next(113, 0, 0, 4, 93);
    assert forall|c: int| 4 <= c < 6 implies rows_free(113, c, 0, 113) == 78 by {
        lemma_rows_next(113, c, 0, 9, true);
        lemma_rows_next(113, c, 9, 26, false);
        lemma_rows_next(113, c, 26, 31, true);
        lemma_rows_next(113, c, 31, 52, false);
        lemma_rows_next(113, c, 52, 57, true);
        lemma_rows_next(113, c, 57, 78, false);
        lemma_rows_next(113, c, 78, 83, true);
        lemma_rows_next(113, c, 83, 102, false);
        lemma_rows_next(113, c, 102, 113, true);
    }
    lemma_columns_next(113, 0, 4, 6, 78);
    assert(columns_free(113, 7, 7) == 0);
    assert forall|c: int| 7 <= c < 9 implies rows_free(113, c, 0, 113) == 81 by {
        lemma_rows_next(113, c, 0, 9, true);
        lemma_rows_next(113, c, 9, 26, false);
        lemma_rows_next(113, c, 26, 31, true);
        lemma_rows_next(113, c, 31, 52, false);
        lemma_rows_next(113, c, 52, 57, true);
        lemma_rows_next(113, c, 57, 78, false);
        lemma_rows_next(113, c, 78, 83, true);
        lemma_rows_next(113, c, 83, 105, false);
        lemma_rows_next(113, c, 105, 113, true);
    }
    lemma_columns_next(113, 7, 7, 9, 81);
    assert forall|c: int| 9 <= c < 26 implies rows_free(113, c, 0, 113) == 112 by {
        lemma_rows_next(113, c, 0, 6, false);
        lemma_rows_next(113, c, 6, 7, true);
        lemma_rows_next(113, c, 7, 113, false);
    }
    lemma_columns_next(113, 7, 9, 26, 112);
    assert forall|c: int| 26 <= c < 31 implies rows_free(113, c, 0, 113) == 88 by {
        lemma_rows_next(113, c, 0, 4, false);
        lemma_rows_next(113, c, 4, 9, true);
        lemma_rows_next(113, c, 9, 26, false);
        lemma_rows_next(113, c, 26, 31, true);
        lemma_rows_next(113, c, 31, 52, false);
        lemma_rows_next(113, c, 52, 57, true);
        lemma_rows_next(113, c, 57, 78, false);
        lemma_rows_next(113, c, 78, 83, true);
        lemma_rows_next(113, c, 83, 104, false);
        lemma_rows_next(113, c, 104, 109, true);
        lemma_rows_next(113, c, 109, 113, false);
    }
    lemma_columns_next(113, 7, 26, 31, 88);
    assert forall|c: int| 31 <= c < 52 implies rows_free(113, c, 0, 113) == 112 by {
        lemma_rows_next(113, c, 0, 6, false);
        lemma_rows_next(113, c, 6, 7, true);
        lemma_rows_next(113, c, 7, 113, false);
    }
    lemma_columns_next(113, 7, 31, 52, 112);
    assert forall|c: int| 52 <= c < 57 implies rows_free(113, c, 0, 113) == 88 by {
        lemma_rows_next(113, c, 0, 4, false);
        lemma_rows_next(113, c, 4, 9, true);
        lemma_rows_next(113, c, 9, 26, false);
        lemma_rows_next(113, c, 26, 31, true);
        lemma_rows_next(113, c, 31, 52, false);
        lemma_rows_next(113, c, 52, 57, true);
        lemma_rows_next(113, c, 57, 78, false);
        lemma_rows_next(113, c, 78, 83, true);
        lemma_rows_next(113, c, 83, 104, false);
        lemma_rows_next(113, c, 104, 109, true);
        lemma_rows_next(113, c, 109, 113, false);
    }
    lemma_columns_next(113, 7, 52, 57, 88);
    assert forall|c: int| 57 <= c < 78 implies rows_free(113, c, 0, 113) == 112 by {
        lemma_rows_next(113, c, 0, 6, false);
        lemma_rows_next(113, c, 6, 7, true);
        lemma_rows_next(113, c, 7, 113, false);
    }
    lemma_columns_next(113, 7, 57, 78, 112);
    assert forall|c: int| 78 <= c < 83 implies rows_free(113, c, 0, 113) == 88 by {
        lemma_rows_next(113, c, 0, 4, false);
        lemma_rows_next(113, c, 4, 9, true);
        lemma_rows_next(113, c, 9, 26, false);
        lemma_rows_next(113, c, 26, 31, true);
        lemma_rows_next(113, c, 31, 52, false);
        lemma_rows_next(113, c, 52, 57, true);
        lemma_rows_next(113, c, 57, 78, false);
        lemma_rows_next(113, c, 78, 83, true);
        lemma_rows_next(113, c, 83, 104, false);
        lemma_rows_next(113, c, 104, 109, true);
        lemma_rows_next(113, c, 109, 113, false);
    }
    lemma_columns_next(113, 7, 78, 83, 88);
    assert forall|c: int| 83 <= c < 102 implies rows_free(113, c, 0, 113) == 112 by {
        lemma_rows_next(113, c, 0, 6, false);
        lemma_rows_next(113, c, 6, 7, true);
        lemma_rows_next(113, c, 7, 113, false);
    }
    lemma_columns_next(113, 7, 83, 102, 112);
    assert forall|c: int| 102 <= c < 104 implies rows_free(113, c, 0, 113) == 106 by {
        lemma_rows_next(113, c, 0, 7, true);
        lemma_rows_next(113, c, 7, 113, false);
    }
    lemma_columns_next(113, 7, 102, 104, 106);
    assert forall|c: int| 104 <= c < 105 implies rows_free(113, c, 0, 113) == 86 by {
        lemma_rows_next(113, c, 0, 7, true);
        lemma_rows_next(113, c, 7, 26, false);
        lemma_rows_next(113, c, 26, 31, true);
        lemma_rows_next(113, c, 31, 52, false);
        lemma_rows_next(113, c, 52, 57, true);
        lemma_rows_next(113, c, 57, 78, false);
        lemma_rows_next(113, c, 78, 83, true);
        lemma_rows_next(113, c, 83, 104, false);
        lemma_rows_next(113, c, 104, 109, true);
        lemma_rows_next(113, c, 109, 113, false);
    }
    lemma_columns_next(113, 7, 104, 105, 86);
    assert forall|c: int| 105 <= c < 109 implies rows_free(113, c, 0, 113) == 84 by {
        lemma_rows_next(113, c, 0, 9, true);
        lemma_rows_next(113, c, 9, 26, false);
        lemma_rows_next(113, c, 26, 31, true);
        lemma_rows_next(113, c, 31, 52, false);
        lemma_rows_next(113, c, 52, 57, true);
        lemma_rows_next(113, c, 57, 78, false);
        lemma_rows_next(113, c, 78, 83, true);
        lemma_rows_next(113, c, 83, 104, false);
        lemma_rows_next(113, c, 104, 109, true);
        lemma_rows_next(113, c, 109, 113, false);
    }
    lemma_columns_next(113, 7, 105, 109, 84);
    assert forall|c: int| 109 <= c < 113 implies rows_free(113, c, 0, 113) == 104 by {
        lemma_rows_next(113, c, 0, 9, true);
        lemma_rows_next(113, c, 9, 113, false);
    }
    lemma_columns_next(113, 7, 109, 113, 104);
}

/// Where the alignment patterns of version 25 lie.
proof fn lemma_alignment_zone_of_version_25()
    ensures
        forall|r: int, c: int|
            #[trigger] alignment_zone(25, r, c) == (((4 <= r <= 8) && ((30 <= c <= 34) || (56 <= c <= 60) || (82 <= c <= 86)))
            || (((30 <= r <= 34) || (56 <= r <= 60) || (82 <= r <= 86)) && ((4 <= c <= 8) || (30 <= c <= 34) || (56 <= c <= 60) || (82 <= c <= 86) || (108 <= c <= 112)))
            || ((108 <= r <= 112) && ((30 <= c <= 34) || (56 <= c <= 60) || (82 <= c <= 86) || (108 <= c <= 112)))),
{
    reveal_with_fuel(alignment_hit, 6);
    reveal_with_fuel(alignment_row_hit, 6);
}

/// The free cells of the columns of version 25.
proof fn lemma_columns_of_version_25()
    ensures
        columns_free(117, 0, 6) + columns_free(117, 7, 117) == 12708,
{
    lemma_alignment_zone_of_version_25();
    assert(columns_free(117, 0, 0) == 0);
    assert forall|c: int| 0 <= c < 4 implies rows_free(117, c, 0, 117) == 97 by {
        lemma_rows_next(117, c, 0, 9, true);
        lemma_rows_next(117, c, 9, 106, false);
        lemma_rows_next(117, c, 106, 117, true);
    }
    lemma_columns_next(117, 0, 0, 4, 97);
    assert forall|c: int| 4 <= c < 6 implies rows_free(117, c, 0, 117) == 82 by {
        lemma_rows_next(117, c, 0, 9, true);
        lemma_rows_next(117, c, 9, 30, false);
        lemma_rows_next(117, c, 30, 35, true);
        lemma_rows_next(117, c, 35, 56, false);
        lemma_rows_next(117, c, 56, 61, true);
        lemma_rows_next(117, c, 61, 82, false);
        lemma_rows_next(117, c, 82, 87, true);
        lemma_rows_next(117, c, 87, 106, false);
        lemma_rows_next(117, c, 106, 117, true);
    }
    lemma_columns_next(117, 0, 4, 6, 82);
    assert(columns_free(117, 7, 7) == 0);
    assert forall|c: int| 7 <= c < 9 implies rows_free(117, c, 0, 117) == 85 by {
        lemma_rows_next(117, c, 0, 9, true);
        lemma_rows_next(117, c, 9, 30, false);
        lemma_rows_next(117, c, 30, 35, true);
        lemma_rows_next(117, c, 35, 56, false);
        lemma_rows_next(117, c, 56, 61, true);
        lemma_rows_next(117, c, 61, 82, false);
        lemma_rows_next(117, c, 82, 87, true);
        lemma_rows_next(117, c, 87, 109, false);
        lemma_rows_next(117, c, 109, 117, true);
    }
    lemma_columns_next(117, 7, 7, 9, 85);
    assert forall|c: int| 9 <= c < 30 implies rows_free(117, c, 0, 117) == 116 by {
        lemma_rows_next(117, c, 0, 6, false);
        lemma_rows_next(117, c, 6, 7, true);
        lemma_rows_next(117, c, 7, 117, false);
    }
    lemma_columns_next(117, 7, 9, 30, 116);
    assert forall|c: int| 30 <= c < 35 implies rows_free(117, c, 0, 117) == 92 by {
        lemma_rows_next(117, c, 0, 4, false);
        lemma_rows_next(117, c, 4, 9, true);
        lemma_rows_next(117, c, 9, 30, false);
        lemma_rows_next(117, c, 30, 35, true);
        lemma_rows_next(117, c, 35, 56, false);
        lemma_rows_next(117, c, 56, 61, true);
        lemma_rows_next(117, c, 61, 82, false);
        lemma_rows_next(117, c, 82, 87, true);
        lemma_rows_next(117, c, 87, 108, false);
        lemma_rows_next(117, c, 108, 113, true);
        lemma_rows_next(117, c, 113, 117, false);
    }
    lemma_columns_next(117, 7, 30, 35, 92);
    assert forall|c: int| 35 <= c < 56 implies rows_free(117, c, 0, 117) == 116 by {
        lemma_rows_next(117, c, 0, 6, false);
        lemma_rows_next(117, c, 6, 7, true);
        lemma_rows_next(117, c, 7, 117, false);
    }
    lemma_columns_next(117, 7, 35, 56, 116);
    assert forall|c: int| 56 <= c < 61 implies rows_free(117, c, 0, 117) == 92 by {
        lemma_rows_next(117, c, 0, 4, false);
        lemma_rows_next(117, c, 4, 9, true);
        lemma_rows_next(117, c, 9, 30, false);
        lemma_rows_next(117, c, 30, 35, true);
        lemma_rows_next(117, c, 35, 56, false);
        lemma_rows_next(117, c, 56, 61, true);
        lemma_rows_next(117, c, 61, 82, false);
        lemma_rows_next(117, c, 82, 87, true);
        lemma_rows_next(117, c, 87, 108, false);
        lemma_rows_next(117, c, 108, 113, true);
        lemma_rows_next(117, c, 113, 117, false);
    }
    lemma_columns_next(117, 7, 56, 61, 92);
    assert forall|c: int| 61 <= c < 82 implies rows_free(117, c, 0, 117) == 116 by {
        lemma_rows_next(117, c, 0, 6, false);
        lemma_rows_next(117, c, 6, 7, true);
        lemma_rows_next(117, c, 7, 117, false);
    }
    lemma_columns_next(117, 7, 61, 82, 116);
    assert forall|c: int| 82 <= c < 87 implies rows_free(117, c, 0, 117) == 92 by {
        lemma_rows_next(117, c, 0, 4, false);
        lemma_rows_next(117, c, 4, 9, true);
        lemma_rows_next(117, c, 9, 30, false);
        lemma_rows_next(117, c, 30, 35, true);
        lemma_rows_next(117, c, 35, 56, false);
        lemma_rows_next(117, c, 56, 61, true);
        lemma_rows_next(117, c, 61, 82, false);
        lemma_rows_next(117, c, 82, 87, true);
        lemma_rows_next(117, c, 87, 108, false);
        lemma_rows_next(117, c, 108, 113, true);
        lemma_rows_next(117, c, 113, 117, false);
    }
    lemma_columns_next(117, 7, 82, 87, 92);
    assert forall|c: int| 87 <= c < 106 implies rows_free(117, c, 0, 117) == 116 by {
        lemma_rows_next(117, c, 0, 6, false);
        lemma_rows_next(117, c, 6, 7, true);
        lemma_rows_next(117, c, 7, 117, false);
    }
    lemma_columns_next(117, 7, 87, 106, 116);
    assert forall|c: int| 106 <= c < 108 implies rows_free(117, c, 0, 117) == 110 by {
        lemma_rows_next(117, c, 0, 7, true);
        lemma_rows_next(117, c, 7, 117, false);
    }
    lemma_columns_next(117, 7, 106, 108, 110);
    assert forall|c: int| 108 <= c < 109 implies rows_free(117, c, 0, 117) == 90 by {
        lemma_rows_next(117, c, 0, 7, true);
        lemma_rows_next(117, c, 7, 30, false);
        lemma_rows_next(117, c, 30, 35, true);
        lemma_rows_next(117, c, 35, 56, false);
        lemma_rows_next(117, c, 56, 61, true);
        lemma_rows_next(117, c, 61, 82, false);
        lemma_rows_next(117, c, 82, 87, true);
        lemma_rows_next(117, c, 87, 108, false);
        lemma_rows_next(117, c, 108, 113, true);
        lemma_rows_next(117, c, 113, 117, false);
    }
    lemma_columns_next(117, 7, 108, 109, 90);
    assert forall|c: int| 109 <= c < 113 implies rows_free(117, c, 0, 117) == 88 by {
        lemma_rows_next(117, c, 0, 9, true);
        lemma_rows_next(117, c, 9, 30, false);
        lemma_rows_next(117, c, 30, 35, true);
        lemma_rows_next(117, c, 35, 56, false);
        lemma_rows_next(117, c, 56, 61, true);
        lemma_rows_next(117, c, 61, 82, false);
        lemma_rows_next(117, c, 82, 87, true);
        lemma_rows_next(117, c, 87, 108, false);
        lemma_rows_next(117, c, 108, 113, true);
        lemma_rows_next(117, c, 113, 117, false);
    }
    lemma_columns_next(117, 7, 109, 113, 88);
    assert forall|c: int| 113 <= c < 117 implies rows_free(117, c, 0, 117) == 108 by {
        lemma_rows_next(117, c, 0, 9, true);
        lemma_rows_next(117, c, 9, 117, false);
    }
    lemma_columns_next(117, 7, 113, 117, 108);
}

/// Where the alignment patterns of version 26 lie.
proof fn lemma_alignment_zone_of_version_26()
    ensures
        forall|r: int, c: int|
            #[trigger] alignment_zone(26, r, c) == (((4 <= r <= 8) && ((28 <= c <= 32) || (56 <= c <= 60) || (84 <= c <= 88)))
            || (((28 <= r <= 32) || (56 <= r <= 60) || (84 <= r <= 88)) && ((4 <= c <= 8) || (28 <= c <= 32) || (56 <= c <= 60) || (84 <= c <= 88) || (112 <= c <= 116)))
            || ((112 <= r <= 116) && ((28 <= c <= 32) || (56 <= c <= 60) || (84 <= c <= 88) || (112 <= c <= 116)))),
{
    reveal_with_fuel(alignment_hit, 6);
    reveal_with_fuel(alignment_row_hit, 6);
}

/// The free cells of the columns of version 26.
proof fn lemma_columns_of_version_26()
    ensures
        columns_free(121, 0, 6) + columns_free(121, 7, 121) == 13652,
{
    lemma_alignment_zone_of_version_26();
    assert(columns_free(121, 0, 0) == 0);
    assert forall|c: int| 0 <= c < 4 implies rows_free(121, c, 0, 121) == 101 by {
        lemma_rows_next(121, c, 0, 9, true);
        lemma_rows_next(121, c, 9, 110, false);
        lemma_rows_next(121, c, 110, 121, true);
    }
    lemma_columns_next(121, 0, 0, 4, 101);
    assert forall|c: int| 4 <= c < 6 implies rows_free(121, c, 0, 121) == 86 by {
        lemma_rows_next(121, c, 0, 9, true);
        lemma_rows_next(121, c, 9, 28, false);
        lemma_rows_next(121, c, 28, 33, true);
        lemma_rows_next(121, c, 33, 56, false);
        lemma_rows_next(121, c, 56, 61, true);
        lemma_rows_next(121, c, 61, 84, false);
        lemma_rows_next(121, c, 84, 89, true);
        lemma_rows_next(121, c, 89, 110, false);
        lemma_rows_next(121, c, 110, 121, true);
    }
    lemma_columns_next(121, 0, 4, 6, 86);
    assert(columns_free(121, 7, 7) == 0);
    assert forall|c: int| 7 <= c < 9 implies rows_free(121, c, 0, 121) == 89 by {
        lemma_rows_next(121, c, 0, 9, true);
        lemma_rows_next(121, c, 9, 28, false);
        lemma_rows_next(121, c, 28, 33, true);
        lemma_rows_next(121, c, 33, 56, false);
        lemma_rows_next(121, c, 56, 61, true);
        lemma_rows_next(121, c, 61, 84, false);
        lemma_rows_next(121, c, 84, 89, true);
        lemma_rows_next(121, c, 89, 113, false);
        lemma_rows_next(121, c, 113, 121, true);
    }
    lemma_columns_next(121, 7, 7, 9, 89);
    assert forall|c: int| 9 <= c < 28 implies rows_free(121, c, 0, 121) == 120 by {
        lemma_rows_next(121, c, 0, 6, false);
        lemma_rows_next(121, c, 6, 7, true);
        lemma_rows_next(121, c, 7, 121, false);
    }
    lemma_columns_next(121, 7, 9, 28, 120);
    assert forall|c: int| 28 <= c < 33 implies rows_free(121, c, 0, 121) == 96 by {
        lemma_rows_next(121, c, 0, 4, false);
        lemma_rows_next(121, c, 4, 9, true);
        lemma_rows_next(121, c, 9, 28, false);
        lemma_rows_next(121, c, 28, 33, true);
        lemma_rows_next(121, c, 33, 56, false);
        lemma_rows_next(121, c, 56, 61, true);
        lemma_rows_next(121, c, 61, 84, false);
        lemma_rows_next(121, c, 84, 89, true);
        lemma_rows_next(121, c, 89, 112, false);
        lemma_rows_next(121, c, 112, 117, true);
        lemma_rows_next(121, c, 117, 121, false);
    }
    lemma_columns_next(121, 7, 28, 33, 96);
    assert forall|c: int| 33 <= c < 56 implies rows_free(121, c, 0, 121) == 120 by {
        lemma_rows_next(121, c, 0, 6, false);
        lemma_rows_next(121, c, 6, 7, true);
        lemma_rows_next(121, c, 7, 121, false);
    }
    lemma_columns_next(121, 7, 33, 56, 120);
    assert forall|c: int| 56 <= c < 61 implies rows_free(121, c, 0, 121) == 96 by {
        lemma_rows_next(121, c, 0, 4, false);
        lemma_rows_next(121, c, 4, 9, true);
        lemma_rows_next(121, c, 9, 28, false);
        lemma_rows_next(121, c, 28, 33, true);
        lemma_rows_next(121, c, 33, 56, false);
        lemma_rows_next(121, c, 56, 61, true);
        lemma_rows_next(121, c, 61, 84, false);
        lemma_rows_next(121, c, 84, 89, true);
        lemma_rows_next(121, c, 89, 112, false);
        lemma_rows_next(121, c, 112, 117, true);
        lemma_rows_next(121, c, 117, 121, false);
    }
    lemma_columns_next(121, 7, 56, 61, 96);
    assert forall|c: int| 61 <= c < 84 implies rows_free(121, c, 0, 121) == 120 by {
        lemma_rows_next(121, c, 0, 6, false);
        lemma_rows_next(121, c, 6, 7, true);
        lemma_rows_next(121, c, 7, 121, false);
    }
    lemma_columns_next(121, 7, 61, 84, 120);
    assert forall|c: int| 84 <= c < 89 implies rows_free(121, c, 0, 121) == 96 by {
        lemma_rows_next(121, c, 0, 4, false);
        lemma_rows_next(121, c, 4, 9, true);
        lemma_rows_next(121, c, 9, 28, false);
        lemma_rows_next(121, c, 28, 33, true);
        lemma_rows_next(121, c, 33, 56, false);
        lemma_rows_next(121, c, 56, 61, true);
        lemma_rows_next(121, c, 61, 84, false);
        lemma_rows_next(121, c, 84, 89, true);
        lemma_rows_next(121, c, 89, 112, false);
        lemma_rows_next(121, c, 112, 117, true);
        lemma_rows_next(121, c, 117, 121, false);
    }
    lemma_columns_next(121, 7, 84, 89, 96);
    assert forall|c: int| 89 <= c < 110 implies rows_free(121, c, 0, 121) == 120 by {
        lemma_rows_next(121, c, 0, 6, false);
        lemma_rows_next(121, c, 6, 7, true);
        lemma_rows_next(121, c, 7, 121, false);
    }
    lemma_columns_next(121, 7, 89, 110, 120);
    assert forall|c: int| 110 <= c < 112 implies rows_free(121, c, 0, 121) == 114 by {
        lemma_rows_next(121, c, 0, 7, true);
        lemma_rows_next(121, c, 7, 121, false);
    }
    lemma_columns_next(121, 7, 110, 112, 114);
    assert forall|c: int| 112 <= c < 113 implies rows_free(121, c, 0, 121) == 94 by {
        lemma_rows_next(121, c, 0, 7, true);
        lemma_rows_next(121, c, 7, 28, false);
        lemma_rows_next(121, c, 28, 33, true);
        lemma_rows_next(121, c, 33, 56, false);
        lemma_rows_next(121, c, 56, 61, true);
        lemma_rows_next(121, c, 61, 84, false);
        lemma_rows_next(121, c, 84, 89, true);
        lemma_rows_next(121, c, 89, 112, false);
        lemma_rows_next(121, c, 112, 117, true);
        lemma_rows_next(121, c, 117, 121, false);
    }
    lemma_columns_next(121, 7, 112, 113, 94);
    assert forall|c: int| 113 <= c < 117 implies rows_free(121, c, 0, 121) == 92 by {
        lemma_rows_next(121, c, 0, 9, true);
        lemma_rows_next(121, c, 9, 28, false);
        lemma_rows_next(121, c, 28, 33, true);
        lemma_rows_next(121, c, 33, 56, false);
        lemma_rows_next(121, c, 56, 61, true);
        lemma_rows_next(121, c, 61, 84, false);
        lemma_rows_next(121, c, 84, 89, true);
        lemma_rows_next(121, c, 89, 112, false);
        lemma_rows_next(121, c, 112, 117, true);
        lemma_rows_next(121, c, 117, 121, false);
    }
    lemma_columns_next(121, 7, 113, 117, 92);
    assert forall|c: int| 117 <= c < 121 implies rows_free(121, c, 0, 121) == 112 by {
        lemma_rows_next(121, c, 0, 9, true);
        lemma_rows_next(121, c, 9, 121, false);
    }
    lemma_columns_next(121, 7, 117, 121, 112);
}

/// Where the alignment patterns of version 27 lie.
proof fn lemma_alignment_zone_of_version_27()
    ensures
        forall|r: int, c: int|
            #[trigger] alignment_zone(27, r, c) == (((4 <= r <= 8) && ((32 <= c <= 36) || (60 <= c <= 64) || (88 <= c <= 92)))
            || (((32 <= r <= 36) || (60 <= r <= 64) || (88 <= r <= 92)) && ((4 <= c <= 8) || (32 <= c <= 36) || (60 <= c <= 64) || (88 <= c <= 92) || (116 <= c <= 120)))
            || ((116 <= r <= 120) && ((32 <= c <= 36) || (60 <= c <= 64) || (88 <= c <= 92) || (116 <= c <= 120)))),
{
    reveal_with_fuel(alignment_hit, 6);
    reveal_with_fuel(alignment_row_hit, 6);
}

/// The free cells of the columns of version 27.
proof fn lemma_columns_of_version_27()
    ensures
        columns_free(125, 0, 6) + columns_free(125, 7, 125) == 14628,
{
    lemma_alignment_zone_of_version_27();
    assert(columns_free(125, 0, 0) == 0);
    assert forall|c: int| 0 <= c < 4 implies rows_free(125, c, 0, 125) == 105 by {
        lemma_rows_next(125, c, 0, 9, true);
        lemma_rows_next(125, c, 9, 114, false);
        lemma_rows_next(125, c, 114, 125, true);
    }
    lemma_columns_next(125, 0, 0, 4, 105);
    assert forall|c: int| 4 <= c < 6 implies rows_free(125, c, 0, 125) == 90 by {
        lemma_rows_next(125, c, 0, 9, true);
        lemma_rows_next(125, c, 9, 32, false);
        lemma_rows_next(125, c, 32, 37, true);
        lemma_rows_next(125, c, 37, 60, false);
        lemma_rows_next(125, c, 60, 65, true);
        lemma_rows_next(125, c, 65, 88, false);
        lemma_rows_next(125, c, 88, 93, true);
        lemma_rows_next(125, c, 93, 114, false);
        lemma_rows_next(125, c, 114, 125, true);
    }
    lemma_columns_next(125, 0, 4, 6, 90);
    assert(columns_free(125, 7, 7) == 0);
    assert forall|c: int| 7 <= c < 9 implies rows_free(125, c, 0, 125) == 93 by {
        lemma_rows_next(125, c, 0, 9, true);
        lemma_rows_next(125, c, 9, 32, false);
        lemma_rows_next(125, c, 32, 37, true);
        lemma_rows_next(125, c, 37, 60, false);
        lemma_rows_next(125, c, 60, 65, true);
        lemma_rows_next(125, c, 65, 88, false);
        lemma_rows_next(125, c, 88, 93, true);
        lemma_rows_next(125, c, 93, 117, false);
        lemma_rows_next(125, c, 117, 125, true);
    }
    lemma_columns_next(125, 7, 7, 9, 93);
    assert forall|c: int| 9 <= c < 32 implies rows_free(125, c, 0, 125) == 124 by {
        lemma_rows_next(125, c, 0, 6, false);
        lemma_rows_next(125, c, 6, 7, true);
        lemma_rows_next(125, c, 7, 125, false);
    }
    lemma_columns_next(125, 7, 9, 32, 124);
    assert forall|c: int| 32 <= c < 37 implies rows_free(125, c, 0, 125) == 100 by {
        lemma_rows_next(125, c, 0, 4, false);
        lemma_rows_next(125, c, 4, 9, true);
        lemma_rows_next(125, c, 9, 32, false);
        lemma_rows_next(125, c, 32, 37, true);
        lemma_rows_next(125, c, 37, 60, false);
        lemma_rows_next(125, c, 60, 65, true);
        lemma_rows_next(125, c, 65, 88, false);
        lemma_rows_next(125, c, 88, 93, true);
        lemma_rows_next(125, c, 93, 116, false);
        lemma_rows_next(125, c, 116, 121, true);
        lemma_rows_next(125, c, 121, 125, false);
    }
    lemma_columns_next(125, 7, 32, 37, 100);
    assert forall|c: int| 37 <= c < 60 implies rows_free(125, c, 0, 125) == 124 by {
        lemma_rows_next(125, c, 0, 6, false);
        lemma_rows_next(125, c, 6, 7, true);
        lemma_rows_next(125, c, 7, 125, false);
    }
    lemma_columns_next(125, 7, 37, 60, 124);
    assert forall|c: int| 60 <= c < 65 implies rows_free(125, c, 0, 125) == 100 by {
        lemma_rows_next(125, c, 0, 4, false);
        lemma_rows_next(125, c, 4, 9, true);
        lemma_rows_next(125, c, 9, 32, false);
        lemma_rows_next(125, c, 32, 37, true);
        lemma_rows_next(125, c, 37, 60, false);
        lemma_rows_next(125, c, 60, 65, true);
        lemma_rows_next(125, c, 65, 88, false);
        lemma_rows_next(125, c, 88, 93, true);
        lemma_rows_next(125, c, 93, 116, false);
        lemma_rows_next(125, c, 116, 121, true);
        lemma_rows_next(125, c, 121, 125, false);
    }
    lemma_columns_next(125, 7, 60, 65, 100);
    assert forall|c: int| 65 <= c < 88 implies rows_free(125, c, 0, 125) == 124 by {
        lemma_rows_next(125, c, 0, 6, false);
        lemma_rows_next(125, c, 6, 7, true);
        lemma_rows_next(125, c, 7, 125, false);
    }
    lemma_columns_next(125, 7, 65, 88, 124);
    assert forall|c: int| 88 <= c < 93 implies rows_free(125, c, 0, 125) == 100 by {
        lemma_rows_next(125, c, 0, 4, false);
        lemma_rows_next(125, c, 4, 9, true);
        lemma_rows_next(125, c, 9, 32, false);
        lemma_rows_next(125, c, 32, 37, true);
        lemma_rows_next(125, c, 37, 60, false);
        lemma_rows_next(125, c, 60, 65, true);
        lemma_rows_next(125, c, 65, 88, false);
        lemma_rows_next(125, c, 88, 93, true);
        lemma_rows_next(125, c, 93, 116, false);
        lemma_rows_next(125, c, 116, 121, true);
        lemma_rows_next(125, c, 121, 125, false);
    }
    lemma_columns_next(125, 7, 88, 93, 100);
    assert forall|c: int| 93 <= c < 114 implies rows_free(125, c, 0, 125) == 124 by {
        lemma_rows_next(125, c, 0, 6, false);
        lemma_rows_next(125, c, 6, 7, true);
        lemma_rows_next(125, c, 7, 125, false);
    }
    lemma_columns_next(125, 7, 93, 114, 124);
    assert forall|c: int| 114 <= c < 116 implies rows_free(125, c, 0, 125) == 118 by {
        lemma_rows_next(125, c, 0, 7, true);
        lemma_rows_next(125, c, 7, 125, false);
    }
    lemma_columns_next(125, 7, 114, 116, 118);
    assert forall|c: int| 116 <= c < 117 implies rows_free(125, c, 0, 125) == 98 by {
        lemma_rows_next(125, c, 0, 7, true);
        lemma_rows_next(125, c, 7, 32, false);
        lemma_rows_next(125, c, 32, 37, true);
        lemma_rows_next(125, c, 37, 60, false);
        lemma_rows_next(125, c, 60, 65, true);
        lemma_rows_next(125, c, 65, 88, false);
        lemma_rows_next(125, c, 88, 93, true);
        lemma_rows_next(125, c, 93, 116, false);
        lemma_rows_next(125, c, 116, 121, true);
        lemma_rows_next(125, c, 121, 125, false);
    }
    lemma_columns_next(125, 7, 116, 117, 98);
    assert forall|c: int| 117 <= c < 121 implies rows_free(125, c, 0, 125) == 96 by {
        lemma_rows_next(125, c, 0, 9, true);
        lemma_rows_next(125, c, 9, 32, false);
        lemma_rows_next(125, c, 32, 37, true);
        lemma_rows_next(125, c, 37, 60, false);
        lemma_rows_next(125, c, 60, 65, true);
        lemma_rows_next(125, c, 65, 88, false);
        lemma_rows_next(125, c, 88, 93, true);
        lemma_rows_next(125, c, 93, 116, false);
        lemma_rows_next(125, c, 116, 121, true);
        lemma_rows_next(125, c, 121, 125, false);
    }
    lemma_columns_next(125, 7, 117, 121, 96);
    assert forall|c: int| 121 <= c < 125 implies rows_free(125, c, 0, 125) == 116 by {
        lemma_rows_next(125, c, 0, 9, true);
        lemma_rows_next(125, c, 9, 125, false);
    }
    lemma_columns_next(125, 7, 121, 125, 116);
}

/// Where the alignment patterns of version 28 lie.
proof fn lemma_alignment_zone_of_version_28()
    ensures
        forall|r: int, c: int|
            #[trigger] alignment_zone(28, r, c) == (((4 <= r <= 8) && ((24 <= c <= 28) || (48 <= c <= 52) || (72 <= c <= 76) || (96 <= c <= 100)))
            || (((24 <= r <= 28) || (48 <= r <= 52) || (72 <= r <= 76) || (96 <= r <= 100)) && ((4 <= c <= 8) || (24 <= c <= 28) || (48 <= c <= 52) || (72 <= c <= 76) || (96 <= c <= 100) || (120 <= c <= 124)))
            || ((120 <= r <= 124) && ((24 <= c <= 28) || (48 <= c <= 52) || (72 <= c <= 76) || (96 <= c <= 100) || (120 <= c <= 124)))),
{
    reveal_with_fuel(alignment_hit, 7);
    reveal_with_fuel(alignment_row_hit, 7);
}

/// The free cells of the columns of version 28.
proof fn lemma_columns_of_version_28()
    ensures
        columns_free(129, 0, 6) + columns_free(129, 7, 129) == 15371,
{
    lemma_alignment_zone_of_version_28();
    assert(columns_free(129, 0, 0) == 0);
    assert forall|c: int| 0 <= c < 4 implies rows_free(129, c, 0, 129) == 109 by {
        lemma_rows_next(129, c, 0, 9, true);
        lemma_rows_next(129, c, 9, 118, false);
        lemma_rows_next(129, c, 118, 129, true);
    }
    lemma_columns_next(129, 0, 0, 4, 109);
    assert forall|c: int| 4 <= c < 6 implies rows_free(129, c, 0, 129) == 89 by {
        lemma_rows_next(129, c, 0, 9, true);
        lemma_rows_next(129, c, 9, 24, false);
        lemma_rows_next(129, c, 24, 29, true);
        lemma_rows_next(129, c, 29, 48, false);
        lemma_rows_next(129, c, 48, 53, true);
        lemma_rows_next(129, c, 53, 72, false);
        lemma_rows_next(129, c, 72, 77, true);
        lemma_rows_next(129, c, 77, 96, false);
        lemma_rows_next(129, c, 96, 101, true);
        lemma_rows_next(129, c, 101, 118, false);
        lemma_rows_next(129, c, 118, 129, true);
    }
    lemma_columns_next(129, 0, 4, 6, 89);
    assert(columns_free(129, 7, 7) == 0);
    assert forall|c: int| 7 <= c < 9 implies rows_free(129, c, 0, 129) == 92 by {
        lemma_rows_next(129, c, 0, 9, true);
        lemma_rows_next(129, c, 9, 24, false);
        lemma_rows_next(129, c, 24, 29, true);
        lemma_rows_next(129, c, 29, 48, false);
        lemma_rows_next(129, c, 48, 53, true);
        lemma_rows_next(129, c, 53, 72, false);
        lemma_rows_next(129, c, 72, 77, true);
        lemma_rows_next(129, c, 77, 96, false);
        lemma_rows_next(129, c, 96, 101, true);
        lemma_rows_next(129, c, 101, 121, false);
        lemma_rows_next(129, c, 121, 129, true);
    }
    lemma_columns_next(129, 7, 7, 9, 92);
    assert forall|c: int| 9 <= c < 24 implies rows_free(129, c, 0, 129) == 128 by {
        lemma_rows_next(129, c, 0, 6, false);
        lemma_rows_next(129, c, 6, 7, true);
        lemma_rows_next(129, c, 7, 129, false);
    }
    lemma_columns_next(129, 7, 9, 24, 128);
    assert forall|c: int| 24 <= c < 29 implies rows_free(129, c, 0, 129) == 99 by {
        lemma_rows_next(129, c, 0, 4, false);
        lemma_rows_next(129, c, 4, 9, true);
        lemma_rows_next(129, c, 9, 24, false);
        lemma_rows_next(129, c, 24, 29, true);
        lemma_rows_next(129, c, 29, 48, false);
        lemma_rows_next(129, c, 48, 53, true);
        lemma_rows_next(129, c, 53, 72, false);
        lemma_rows_next(129, c, 72, 77, true);
        lemma_rows_next(129, c, 77, 96, false);
        lemma_rows_next(129, c, 96, 101, true);
        lemma_rows_next(129, c, 101, 120, false);
        lemma_rows_next(129, c, 120, 125, true);
        lemma_rows_next(129, c, 125, 129, false);
    }
    lemma_columns_next(129, 7, 24, 29, 99);
    assert forall|c: int| 29 <= c < 48 implies rows_free(129, c, 0, 129) == 128 by {
        lemma_rows_next(129, c, 0, 6, false);
        lemma_rows_next(129, c, 6, 7, true);
        lemma_rows_next(129, c, 7, 129, false);
    }
    lemma_columns_next(129, 7, 29, 48, 128);
    assert forall|c: int| 48 <= c < 53 implies rows_free(129, c, 0, 129) == 99 by {
        lemma_rows_next(129, c, 0, 4, false);
        lemma_rows_next(129, c, 4, 9, true);
        lemma_rows_next(129, c, 9, 24, false);
        lemma_rows_next(129, c, 24, 29, true);
        lemma_rows_next(129, c, 29, 48, false);
        lemma_rows_next(129, c, 48, 53, true);
        lemma_rows_next(129, c, 53, 72, false);
        lemma_rows_next(129, c, 72, 77, true);
        lemma_rows_next(129, c, 77, 96, false);
        lemma_rows_next(129, c, 96, 101, true);
        lemma_rows_next(129, c, 101, 120, false);
        lemma_rows_next(129, c, 120, 125, true);
        lemma_rows_next(129, c, 125, 129, false);
    }
    lemma_columns_next(129, 7, 48, 53, 99);
    assert forall|c: int| 53 <= c < 72 implies rows_free(129, c, 0, 129) == 128 by {
        lemma_rows_next(129, c, 0, 6, false);
        lemma_rows_next(129, c, 6, 7, true);
        lemma_rows_next(129, c, 7, 129, false);
    }
    lemma_columns_next(129, 7, 53, 72, 128);
    assert forall|c: int| 72 <= c < 77 implies rows_free(129, c, 0, 129) == 99 by {
        lemma_rows_next(129, c, 0, 4, false);
        lemma_rows_next(129, c, 4, 9, true);
        lemma_rows_next(129, c, 9, 24, false);
        lemma_rows_next(129, c, 24, 29, true);
        lemma_rows_next(129, c, 29, 48, false);
        lemma_rows_next(129, c, 48, 53, true);
        lemma_rows_next(129, c, 53, 72, false);
        lemma_rows_next(129, c, 72, 77, true);
        lemma_rows_next(129, c, 77, 96, false);
        lemma_rows_next(129, c, 96, 101, true);
        lemma_rows_next(129, c, 101, 120, false);
        lemma_rows_next(129, c, 120, 125, true);
        lemma_rows_next(129, c, 125, 129, false);
    }
    lemma_columns_next(129, 7, 72, 77, 99);
    assert forall|c: int| 77 <= c < 96 implies rows_free(129, c, 0, 129) == 128 by {
        lemma_rows_next(129, c, 0, 6, false);
        lemma_rows_next(129, c, 6, 7, true);
        lemma_rows_next(129, c, 7, 129, false);
    }
    lemma_columns_next(129, 7, 77, 96, 128);
    assert forall|c: int| 96 <= c < 101 implies rows_free(129, c, 0, 129) == 99 by {
        lemma_rows_next(129, c, 0, 4, false);
        lemma_rows_next(129, c, 4, 9, true);
        lemma_rows_next(129, c, 9, 24, false);
        lemma_rows_next(129, c, 24, 29, true);
        lemma_rows_next(129, c, 29, 48, false);
        lemma_rows_next(129, c, 48, 53, true);
        lemma_rows_next(129, c, 53, 72, false);
        lemma_rows_next(129, c, 72, 77, true);
        lemma_rows_next(129, c, 77, 96, false);
        lemma_rows_next(129, c, 96, 101, true);
        lemma_rows_next(129, c, 101, 120, false);
        lemma_rows_next(129, c, 120, 125, true);
        lemma_rows_next(129, c, 125, 129, false);
    }
    lemma_columns_next(129, 7, 96, 101, 99);
    assert forall|c: int| 101 <= c < 118 implies rows_free(129, c, 0, 129) == 128 by {
        lemma_rows_next(129, c, 0, 6, false);
        lemma_rows_next(129, c, 6, 7, true);
        lemma_rows_next(129, c, 7, 129, false);
    }
    lemma_columns_next(129, 7, 101, 118, 128);
    assert forall|c: int| 118 <= c < 120 implies rows_free(129, c, 0, 129) == 122 by {
        lemma_rows_next(129, c, 0, 7, true);
        lemma_rows_next(129, c, 7, 129, false);
    }
    lemma_columns_next(129, 7, 118, 120, 122);
    assert forall|c: int| 120 <= c < 121 implies rows_free(129, c, 0, 129) == 97 by {
        lemma_rows_next(129, c, 0, 7, true);
        lemma_rows_next(129, c, 7, 24, false);
        lemma_rows_next(129, c, 24, 29, true);
        lemma_rows_next(129, c, 29, 48, false);
        lemma_rows_next(129, c, 48, 53, true);
        lemma_rows_next(129, c, 53, 72, false);
        lemma_rows_next(129, c, 72, 77, true);
        lemma_rows_next(129, c, 77, 96, false);
        lemma_rows_next(129, c, 96, 101, true);
        lemma_rows_next(129, c, 101, 120, false);
        lemma_rows_next(129, c, 120, 125, true);
        lemma_rows_next(129, c, 125, 129, false);
    }
    lemma_columns_next(129, 7, 120, 121, 97);
    assert forall|c: int| 121 <= c < 125 implies rows_free(129, c, 0, 129) == 95 by {
        lemma_rows_next(129, c, 0, 9, true);
        lemma_rows_next(129, c, 9, 24, false);
        lemma_rows_next(129, c, 24, 29, true);
        lemma_rows_next(129, c, 29, 48, false);
        lemma_rows_next(129, c, 48, 53, true);
        lemma_rows_next(129, c, 53, 72, false);
        lemma_rows_next(129, c, 72, 77, true);
        lemma_rows_next(129, c, 77, 96, false);
        lemma_rows_next(129, c, 96, 101, true);
        lemma_rows_next(129, c, 101, 120, false);
        lemma_rows_next(129, c, 120, 125, true);
        lemma_rows_next(129, c, 125, 129, false);
    }
    lemma_columns_next(129, 7, 121, 125, 95);
    assert forall|c: int| 125 <= c < 129 implies rows_free(129, c, 0, 129) == 120 by {
        lemma_rows_next(129, c, 0, 9, true);
        lemma_rows_next(129, c, 9, 129, false);
    }
    lemma_columns_next(129, 7, 125, 129, 120);
}

/// Where the alignment patterns of version 29 lie.
proof fn lemma_alignment_zone_of_version_29()
    ensures
        forall|r: int, c: int|
            #[trigger] alignment_zone(29, r, c) == (((4 <= r <= 8) && ((28 <= c <= 32) || (52 <= c <= 56) || (76 <= c <= 80) || (100 <= c <= 104)))
            || (((28 <= r <= 32) || (52 <= r <= 56) || (76 <= r <= 80) || (100 <= r <= 104)) && ((4 <= c <= 8) || (28 <= c <= 32) || (52 <= c <= 56) || (76 <= c <= 80) || (100 <= c <= 104) || (124 <= c <= 128)))
            || ((124 <= r <= 128) && ((28 <= c <= 32) || (52 <= c <= 56) || (76 <= c <= 80) || (100 <= c <= 104) || (124 <= c <= 128)))),
{
    reveal_with_fuel(alignment_hit, 7);
    reveal_with_fuel(alignment_row_hit, 7);
}

/// The free cells of the columns of version 29.
proof fn lemma_columns_of_version_29()
    ensures
        columns_free(133, 0, 6) + columns_free(133, 7, 133) == 16411,
{
    lemma_alignment_zone_of_version_29();
    assert(columns_free(133, 0, 0) == 0);
    assert forall|c: int| 0 <= c < 4 implies rows_free(133, c, 0, 133) == 113 by {
        lemma_rows_next(133, c, 0, 9, true);
        lemma_rows_next(133, c, 9, 122, false);
        lemma_rows_next(133, c, 122, 133, true);
    }
    lemma_columns_next(133, 0, 0, 4, 113);
    assert forall|c: int| 4 <= c < 6 implies rows_free(133, c, 0, 133) == 93 by {
        lemma_rows_next(133, c, 0, 9, true);
        lemma_rows_next(133, c, 9, 28, false);
        lemma_rows_next(133, c, 28, 33, true);
        lemma_rows_next(133, c, 33, 52, false);
        lemma_rows_next(133, c, 52, 57, true);
        lemma_rows_next(133, c, 57, 76, false);
        lemma_rows_next(133, c, 76, 81, true);
        lemma_rows_next(133, c, 81, 100, false);
        lemma_rows_next(133, c, 100, 105, true);
        lemma_rows_next(133, c, 105, 122, false);
        lemma_rows_next(133, c, 122, 133, true);
    }
    lemma_columns_next(133, 0, 4, 6, 93);
    assert(columns_free(133, 7, 7) == 0);
    assert forall|c: int| 7 <= c < 9 implies rows_free(133, c, 0, 133) == 96 by {
        lemma_rows_next(133, c, 0, 9, true);
        lemma_rows_next(133, c, 9, 28, false);
        lemma_rows_next(133, c, 28, 33, true);
        lemma_rows_next(133, c, 33, 52, false);
        lemma_rows_next(133, c, 52, 57, true);
        lemma_rows_next(133, c, 57, 76, false);
        lemma_rows_next(133, c, 76, 81, true);
        lemma_rows_next(133, c, 81, 100, false);
        lemma_rows_next(133, c, 100, 105, true);
        lemma_rows_next(133, c, 105, 125, false);
        lemma_rows_next(133, c, 125, 133, true);
    }
    lemma_columns_next(133, 7, 7, 9, 96);
    assert forall|c: int| 9 <= c < 28 implies rows_free(133, c, 0, 133) == 132 by {
        lemma_rows_next(133, c, 0, 6, false);
        lemma_rows_next(133, c, 6, 7, true);
        lemma_rows_next(133, c, 7, 133, false);
    }
    lemma_columns_next(133, 7, 9, 28, 132);
    assert forall|c: int| 28 <= c < 33 implies rows_free(133, c, 0, 133) == 103 by {
        lemma_rows_next(133, c, 0, 4, false);
        lemma_rows_next(133, c, 4, 9, true);
        lemma_rows_next(133, c, 9, 28, false);
        lemma_rows_next(133, c, 28, 33, true);
        lemma_rows_next(133, c, 33, 52, false);
        lemma_rows_next(133, c, 52, 57, true);
        lemma_rows_next(133, c, 57, 76, false);
        lemma_rows_next(133, c, 76, 81, true);
        lemma_rows_next(133, c, 81, 100, false);
        lemma_rows_next(133, c, 100, 105, true);
        lemma_rows_next(133, c, 105, 124, false);
        lemma_rows_next(133, c, 124, 129, true);
        lemma_rows_next(133, c, 129, 133, false);
    }
    lemma_columns_next(133, 7, 28, 33, 103);
    assert forall|c: int| 33 <= c < 52 implies rows_free(133, c, 0, 133) == 132 by {
        lemma_rows_next(133, c, 0, 6, false);
        lemma_rows_next(133, c, 6, 7, true);
        lemma_rows_next(133, c, 7, 133, false);
    }
    lemma_columns_next(133, 7, 33, 52, 132);
    assert forall|c: int| 52 <= c < 57 implies rows_free(133, c, 0, 133) == 103 by {
        lemma_rows_next(133, c, 0, 4, false);
        lemma_rows_next(133, c, 4, 9, true);
        lemma_rows_next(133, c, 9, 28, false);
        lemma_rows_next(133, c, 28, 33, true);
        lemma_rows_next(133, c, 33, 52, false);
        lemma_rows_next(133, c, 52, 57, true);
        lemma_rows_next(133, c, 57, 76, false);
        lemma_rows_next(133, c, 76, 81, true);
        lemma_rows_next(133, c, 81, 100, false);
        lemma_rows_next(133, c, 100, 105, true);
        lemma_rows_next(133, c, 105, 124, false);
        lemma_rows_next(133, c, 124, 129, true);
        lemma_rows_next(133, c, 129, 133, false);
    }
    lemma_columns_next(133, 7, 52, 57, 103);
    assert forall|c: int| 57 <= c < 76 implies rows_free(133, c, 0, 133) == 132 by {
        lemma_rows_next(133, c, 0, 6, false);
        lemma_rows_next(133, c, 6, 7, true);
        lemma_rows_next(133, c, 7, 133, false);
    }
    lemma_columns_next(133, 7, 57, 76, 132);
    assert forall|c: int| 76 <= c < 81 implies rows_free(133, c, 0, 133) == 103 by {
        lemma_rows_next(133, c, 0, 4, false);
        lemma_rows_next(133, c, 4, 9, true);
        lemma_rows_next(133, c, 9, 28, false);
        lemma_rows_next(133, c, 28, 33, true);
        lemma_rows_next(133, c, 33, 52, false);
        lemma_rows_next(133, c, 52, 57, true);
        lemma_rows_next(133, c, 57, 76, false);
        lemma_rows_next(133, c, 76, 81, true);
        lemma_rows_next(133, c, 81, 100, false);
        lemma_rows_next(133, c, 100, 105, true);
        lemma_rows_next(133, c, 105, 124, false);
        lemma_rows_next(133, c, 124, 129, true);
        lemma_rows_next(133, c, 129, 133, false);
    }
    lemma_columns_next(133, 7, 76, 81, 103);
    assert forall|c: int| 81 <= c < 100 implies rows_free(133, c, 0, 133) == 132 by {
        lemma_rows_next(133, c, 0, 6, false);
        lemma_rows_next(133, c, 6, 7, true);
        lemma_rows_next(133, c, 7, 133, false);
    }
    lemma_columns_next(133, 7, 81, 100, 132);
    assert forall|c: int| 100 <= c < 105 implies rows_free(133, c, 0, 133) == 103 by {
        lemma_rows_next(133, c, 0, 4, false);
        lemma_rows_next(133, c, 4, 9, true);
        lemma_rows_next(133, c, 9, 28, false);
        lemma_rows_next(133, c, 28, 33, true);
        lemma_rows_next(133, c, 33, 52, false);
        lemma_rows_next(133, c, 52, 57, true);
        lemma_rows_next(133, c, 57, 76, false);
        lemma_rows_next(133, c, 76, 81, true);
        lemma_rows_next(133, c, 81, 100, false);
        lemma_rows_next(133, c, 100, 105, true);
        lemma_rows_next(133, c, 105, 124, false);
        lemma_rows_next(133, c, 124, 129, true);
        lemma_rows_next(133, c, 129, 133, false);
    }
    lemma_columns_next(133, 7, 100, 105, 103);
    assert forall|c: int| 105 <= c < 122 implies rows_free(133, c, 0, 133) == 132 by {
        lemma_rows_next(133, c, 0, 6, false);
        lemma_rows_next(133, c, 6, 7, true);
        lemma_rows_next(133, c, 7, 133, false);
    }
    lemma_columns_next(133, 7, 105, 122, 132);
    assert forall|c: int| 122 <= c < 124 implies rows_free(133, c, 0, 133) == 126 by {
        lemma_rows_next(133, c, 0, 7, true);
        lemma_rows_next(133, c, 7, 133, false);
    }
    lemma_columns_next(133, 7, 122, 124, 126);
    assert forall|c: int| 124 <= c < 125 implies rows_free(133, c, 0, 133) == 101 by {
        lemma_rows_next(133, c, 0, 7, true);
        lemma_rows_next(133, c, 7, 28, false);
        lemma_rows_next(133, c, 28, 33, true);
        lemma_rows_next(133, c, 33, 52, false);
        lemma_rows_next(133, c, 52, 57, true);
        lemma_rows_next(133, c, 57, 76, false);
        lemma_rows_next(133, c, 76, 81, true);
        lemma_rows_next(133, c, 81, 100, false);
        lemma_rows_next(133, c, 100, 105, true);
        lemma_rows_next(133, c, 105, 124, false);
        lemma_rows_next(133, c, 124, 129, true);
        lemma_rows_next(133, c, 129, 133, false);
    }
    lemma_columns_next(133, 7, 124, 125, 101);
    assert forall|c: int| 125 <= c < 129 implies rows_free(133, c, 0, 133) == 99 by {
        lemma_rows_next(133, c, 0, 9, true);
        lemma_rows_next(133, c, 9, 28, false);
        lemma_rows_next(133, c, 28, 33, true);
        lemma_rows_next(133, c, 33, 52, false);
        lemma_rows_next(133, c, 52, 57, true);
        lemma_rows_next(133, c, 57, 76, false);
        lemma_rows_next(133, c, 76, 81, true);
        lemma_rows_next(133, c, 81, 100, false);
        lemma_rows_next(133, c, 100, 105, true);
        lemma_rows_next(133, c, 105, 124, false);
        lemma_rows_next(133, c, 124, 129, true);
        lemma_rows_next(133, c, 129, 133, false);
    }
    lemma_columns_next(133, 7, 125, 129, 99);
    assert forall|c: int| 129 <= c < 133 implies rows_free(133, c, 0, 133) == 124 by {
        lemma_rows_next(133, c, 0, 9, true);
        lemma_rows_next(133, c, 9, 133, false);
    }
    lemma_columns_next(133, 7, 129, 133, 124);
}

/// Where the alignment patterns of version 30 lie.
proof fn lemma_alignment_zone_of_version_30()
    ensures
        forall|r: int, c: int|
            #[trigger] alignment_zone(30, r, c) == (((4 <= r <= 8) && ((24 <= c <= 28) || (50 <= c <= 54) || (76 <= c <= 80) || (102 <= c <= 106)))
            || (((24 <= r <= 28) || (50 <= r <= 54) || (76 <= r <= 80) || (102 <= r <= 106)) && ((4 <= c <= 8) || (24 <= c <= 28) || (50 <= c <= 54) || (76 <= c <= 80) || (102 <= c <= 106) || (128 <= c <= 132)))
            || ((128 <= r <= 132) && ((24 <= c <= 28) || (50 <= c <= 54) || (76 <= c <= 80) || (102 <= c <= 106) || (128 <= c <= 132)))),
{
    reveal_with_fuel(alignment_hit, 7);
    reveal_with_fuel(alignment_row_hit, 7);
}

/// The free cells of the columns of version 30.
proof fn lemma_columns_of_version_30()
    ensures
        columns_free(137, 0, 6) + columns_free(137, 7, 137) == 17483,
{
    lemma_alignment_zone_of_version_30();
    assert(columns_free(137, 0, 0) == 0);
    assert forall|c: int| 0 <= c < 4 implies rows_free(137, c, 0, 137) == 117 by {
        lemma_rows_next(137, c, 0, 9, true);
        lemma_rows_next(137, c, 9, 126, false);
        lemma_rows_next(137, c, 126, 137, true);
    }
    lemma_columns_next(137, 0, 0, 4, 117);
    assert forall|c: int| 4 <= c < 6 implies rows_free(137, c, 0, 137) == 97 by {
        lemma_rows_next(137, c, 0, 9, true);
        lemma_rows_next(137, c, 9, 24, false);
        lemma_rows_next(137, c, 24, 29, true);
        lemma_rows_next(137, c, 29, 50, false);
        lemma_rows_next(137, c, 50, 55, true);
        lemma_rows_next(137, c, 55, 76, false);
        lemma_rows_next(137, c, 76, 81, true);
        lemma_rows_next(137, c, 81, 102, false);
        lemma_rows_next(137, c, 102, 107, true);
        lemma_rows_next(137, c, 107, 126, false);
        lemma_rows_next(137, c, 126, 137, true);
    }
    lemma_columns_next(137, 0, 4, 6, 97);
    assert(columns_free(137, 7, 7) == 0);
    assert forall|c: int| 7 <= c < 9 implies rows_free(137, c, 0, 137) == 100 by {
        lemma_rows_next(137, c, 0, 9, true);
        lemma_rows_next(137, c, 9, 24, false);
        lemma_rows_next(137, c, 24, 29, true);
        lemma_rows_next(137, c, 29, 50, false);
        lemma_rows_next(137, c, 50, 55, true);
        lemma_rows_next(137, c, 55, 76, false);
        lemma_rows_next(137, c, 76, 81, true);
        lemma_rows_next(137, c, 81, 102, false);
        lemma_rows_next(137, c, 102, 107, true);
        lemma_rows_next(137, c, 107, 129, false);
        lemma_rows_next(137, c, 129, 137, true);
    }
    lemma_columns_next(137, 7, 7, 9, 100);
    assert forall|c: int| 9 <= c < 24 implies rows_free(137, c, 0, 137) == 136 by {
        lemma_rows_next(137, c, 0, 6, false);
        lemma_rows_next(137, c, 6, 7, true);
        lemma_rows_next(137, c, 7, 137, false);
    }
    lemma_columns_next(137, 7, 9, 24, 136);
    assert forall|c: int| 24 <= c < 29 implies rows_free(137, c, 0, 137) == 107 by {
        lemma_rows_next(137, c, 0, 4, false);
        lemma_rows_next(137, c, 4, 9, true);
        lemma_rows_next(137, c, 9, 24, false);
        lemma_rows_next(137, c, 24, 29, true);
        lemma_rows_next(137, c, 29, 50, false);
        lemma_rows_next(137, c, 50, 55, true);
        lemma_rows_next(137, c, 55, 76, false);
        lemma_rows_next(137, c, 76, 81, true);
        lemma_rows_next(137, c, 81, 102, false);
        lemma_rows_next(137, c, 102, 107, true);
        lemma_rows_next(137, c, 107, 128, false);
        lemma_rows_next(137, c, 128, 133, true);
        lemma_rows_next(137, c, 133, 137, false);
    }
    lemma_columns_next(137, 7, 24, 29, 107);
    assert forall|c: int| 29 <= c < 50 implies rows_free(137, c, 0, 137) == 136 by {
        lemma_rows_next(137, c, 0, 6, false);
        lemma_rows_next(137, c, 6, 7, true);
        lemma_rows_next(137, c, 7, 137, false);
    }
    lemma_columns_next(137, 7, 29, 50, 136);
    assert forall|c: int| 50 <= c < 55 implies rows_free(137, c, 0, 137) == 107 by {
        lemma_rows_next(137, c, 0, 4, false);
        lemma_rows_next(137, c, 4, 9, true);
        lemma_rows_next(137, c, 9, 24, false);
        lemma_rows_next(137, c, 24, 29, true);
        lemma_rows_next(137, c, 29, 50, false);
        lemma_rows_next(137, c, 50, 55, true);
        lemma_rows_next(137, c, 55, 76, false);
        lemma_rows_next(137, c, 76, 81, true);
        lemma_rows_next(137, c, 81, 102, false);
        lemma_rows_next(137, c, 102, 107, true);
        lemma_rows_next(137, c, 107, 128, false);
        lemma_rows_next(137, c, 128, 133, true);
        lemma_rows_next(137, c, 133, 137, false);
    }
    lemma_columns_next(137, 7, 50, 55, 107);
    assert forall|c: int| 55 <= c < 76 implies rows_free(137, c, 0, 137) == 136 by {
        lemma_rows_next(137, c, 0, 6, false);
        lemma_rows_next(137, c, 6, 7, true);
        lemma_rows_next(137, c, 7, 137, false);
    }
    lemma_columns_next(137, 7, 55, 76, 136);
    assert forall|c: int| 76 <= c < 81 implies rows_free(137, c, 0, 137) == 107 by {
        lemma_rows_next(137, c, 0, 4, false);
        lemma_rows_next(137, c, 4, 9, true);
        lemma_rows_next(137, c, 9, 24, false);
        lemma_rows_next(137, c, 24, 29, true);
        lemma_rows_next(137, c, 29, 50, false);
        lemma_rows_next(137, c, 50, 55, true);
        lemma_rows_next(137, c, 55, 76, false);
        lemma_rows_next(137, c, 76, 81, true);
        lemma_rows_next(137, c, 81, 102, false);
        lemma_rows_next(137, c, 102, 107, true);
        lemma_rows_next(137, c, 107, 128, false);
        lemma_rows_next(137, c, 128, 133, true);
        lemma_rows_next(137, c, 133, 137, false);
    }
    lemma_columns_next(137, 7, 76, 81, 107);
    assert forall|c: int| 81 <= c < 102 implies rows_free(137, c, 0, 137) == 136 by {
        lemma_rows_next(137, c, 0, 6, false);
        lemma_rows_next(137, c, 6, 7, true);
        lemma_rows_next(137, c, 7, 137, false);
    }
    lemma_columns_next(137, 7, 81, 102, 136);
    assert forall|c: int| 102 <= c < 107 implies rows_free(137, c, 0, 137) == 107 by {
        lemma_rows_next(137, c, 0, 4, false);
        lemma_rows_next(137, c, 4, 9, true);
        lemma_rows_next(137, c, 9, 24, false);
        lemma_rows_next(137, c, 24, 29, true);
        lemma_rows_next(137, c, 29, 50, false);
        lemma_rows_next(137, c, 50, 55, true);
        lemma_rows_next(137, c, 55, 76, false);
        lemma_rows_next(137, c, 76, 81, true);
        lemma_rows_next(137, c, 81, 102, false);
        lemma_rows_next(137, c, 102, 107, true);
        lemma_rows_next(137, c, 107, 128, false);
        lemma_rows_next(137, c, 128, 133, true);
        lemma_rows_next(137, c, 133, 137, false);
    }
    lemma_columns_next(137, 7, 102, 107, 107);
    assert forall|c: int| 107 <= c < 126 implies rows_free(137, c, 0, 137) == 136 by {
        lemma_rows_next(137, c, 0, 6, false);
        lemma_rows_next(137, c, 6, 7, true);
        lemma_rows_next(137, c, 7, 137, false);
    }
    lemma_columns_next(137, 7, 107, 126, 136);
    assert forall|c: int| 126 <= c < 128 implies rows_free(137, c, 0, 137) == 130 by {
        lemma_rows_next(137, c, 0, 7, true);
        lemma_rows_next(137, c, 7, 137, false);
    }
    lemma_columns_next(137, 7, 126, 128, 130);
    assert forall|c: int| 128 <= c < 129 implies rows_free(137, c, 0, 137) == 105 by {
        lemma_rows_next(137, c, 0, 7, true);
        lemma_rows_next(137, c, 7, 24, false);
        lemma_rows_next(137, c, 24, 29, true);
        lemma_rows_next(137, c, 29, 50, false);
        lemma_rows_next(137, c, 50, 55, true);
        lemma_rows_next(137, c, 55, 76, false);
        lemma_rows_next(137, c, 76, 81, true);
        lemma_rows_next(137, c, 81, 102, false);
        lemma_rows_next(137, c, 102, 107, true);
        lemma_rows_next(137, c, 107, 128, false);
        lemma_rows_next(137, c, 128, 133, true);
        lemma_rows_next(137, c, 133, 137, false);
    }
    lemma_columns_next(137, 7, 128, 129, 105);
    assert forall|c: int| 129 <= c < 133 implies rows_free(137, c, 0, 137) == 103 by {
        lemma_rows_next(137, c, 0, 9, true);
        lemma_rows_next(137, c, 9, 24, false);
        lemma_rows_next(137, c, 24, 29, true);
        lemma_rows_next(137, c, 29, 50, false);
        lemma_rows_next(137, c, 50, 55, true);
        lemma_rows_next(137, c, 55, 76, false);
        lemma_rows_next(137, c, 76, 81, true);
        lemma_rows_next(137, c, 81, 102, false);
        lemma_rows_next(137, c, 102, 107, true);
        lemma_rows_next(137, c, 107, 128, false);
        lemma_rows_next(137, c, 128, 133, true);
        lemma_rows_next(137, c, 133, 137, false);
    }
    lemma_columns_next(137, 7, 129, 133, 103);
    assert forall|c: int| 133 <= c < 137 implies rows_free(137, c, 0, 137) == 128 by {
        lemma_rows_next(137, c, 0, 9, true);
        lemma_rows_next(137, c, 9, 137, false);
    }
    lemma_columns_next(137, 7, 133, 137, 128);
}

/// Where the alignment patterns of version 31 lie.
proof fn lemma_alignment_zone_of_version_31()
    ensures
        forall|r: int, c: int|
            #[trigger] alignment_zone(31, r, c) == (((4 <= r <= 8) && ((28 <= c <= 32) || (54 <= c <= 58) || (80 <= c <= 84) || (106 <= c <= 110)))
            || (((28 <= r <= 32) || (54 <= r <= 58) || (80 <= r <= 84) || (106 <= r <= 110)) && ((4 <= c <= 8) || (28 <= c <= 32) || (54 <= c <= 58) || (80 <= c <= 84) || (106 <= c <= 110) || (132 <= c <= 136)))
            || ((132 <= r <= 136) && ((28 <= c <= 32) || (54 <= c <= 58) || (80 <= c <= 84) || (106 <= c <= 110) || (132 <= c <= 136)))),
{
    reveal_with_fuel(alignment_hit, 7);
    reveal_with_fuel(alignment_row_hit, 7);
}

/// The free cells of the columns of version 31.
proof fn lemma_columns_of_version_31()
    ensures
        columns_free(141, 0, 6) + columns_free(141, 7, 141) == 18587,
{
    lemma_alignment_zone_of_version_31();
    assert(columns_free(141, 0, 0) == 0);
    assert forall|c: int| 0 <= c < 4 implies rows_free(141, c, 0, 141) == 121 by {
        lemma_rows_next(141, c, 0, 9, true);
        lemma_rows_next(141, c, 9, 130, false);
        lemma_rows_next(141, c, 130, 141, true);
    }
    lemma_columns_next(141, 0, 0, 4, 121);
    assert forall|c: int| 4 <= c < 6 implies rows_free(141, c, 0, 141) == 101 by {
        lemma_rows_next(141, c, 0, 9, true);
        lemma_rows_next(141, c, 9, 28, false);
        lemma_rows_next(141, c, 28, 33, true);
        lemma_rows_next(141, c, 33, 54, false);
        lemma_rows_next(141, c, 54, 59, true);
        lemma_rows_next(141, c, 59, 80, false);
        lemma_rows_next(141, c, 80, 85, true);
        lemma_rows_next(141, c, 85, 106, false);
        lemma_rows_next(141, c, 106, 111, true);
        lemma_rows_next(141, c, 111, 130, false);
        lemma_rows_next(141, c, 130, 141, true);
    }
    lemma_columns_next(141, 0, 4, 6, 101);
    assert(columns_free(141, 7, 7) == 0);
    assert forall|c: int| 7 <= c < 9 implies rows_free(141, c, 0, 141) == 104 by {
        lemma_rows_next(141, c, 0, 9, true);
        lemma_rows_next(141, c, 9, 28, false);
        lemma_rows_next(141, c, 28, 33, true);
        lemma_rows_next(141, c, 33, 54, false);
        lemma_rows_next(141, c, 54, 59, true);
        lemma_rows_next(141, c, 59, 80, false);
        lemma_rows_next(141, c, 80, 85, true);
        lemma_rows_next(141, c, 85, 106, false);
        lemma_rows_next(141, c, 106, 111, true);
        lemma_rows_next(141, c, 111, 133, false);
        lemma_rows_next(141, c, 133, 141, true);
    }
    lemma_columns_next(141, 7, 7, 9, 104);
    assert forall|c: int| 9 <= c < 28 implies rows_free(141, c, 0, 141) == 140 by {
        lemma_rows_next(141, c, 0, 6, false);
        lemma_rows_next(141, c, 6, 7, true);
        lemma_rows_next(141, c, 7, 141, false);
    }
    lemma_columns_next(141, 7, 9, 28, 140);
    assert forall|c: int| 28 <= c < 33 implies rows_free(141, c, 0, 141) == 111 by {
        lemma_rows_next(141, c, 0, 4, false);
        lemma_rows_next(141, c, 4, 9, true);
        lemma_rows_next(141, c, 9, 28, false);
        lemma_rows_next(141, c, 28, 33, true);
        lemma_rows_next(141, c, 33, 54, false);
        lemma_rows_next(141, c, 54, 59, true);
        lemma_rows_next(141, c, 59, 80, false);
        lemma_rows_next(141, c, 80, 85, true);
        lemma_rows_next(141, c, 85, 106, false);
        lemma_rows_next(141, c, 106, 111, true);
        lemma_rows_next(141, c, 111, 132, false);
        lemma_rows_next(141, c, 132, 137, true);
        lemma_rows_next(141, c, 137, 141, false);
    }
    lemma_columns_next(141, 7, 28, 33, 111);
    assert forall|c: int| 33 <= c < 54 implies rows_free(141, c, 0, 141) == 140 by {
        lemma_rows_next(141, c, 0, 6, false);
        lemma_rows_next(141, c, 6, 7, true);
        lemma_rows_next(141, c, 7, 141, false);
    }
    lemma_columns_next(141, 7, 33, 54, 140);
    assert forall|c: int| 54 <= c < 59 implies rows_free(141, c, 0, 141) == 111 by {
        lemma_rows_next(141, c, 0, 4, false);
        lemma_rows_next(141, c, 4, 9, true);
        lemma_rows_next(141, c, 9, 28, false);
        lemma_rows_next(141, c, 28, 33, true);
        lemma_rows_next(141, c, 33, 54, false);
        lemma_rows_next(141, c, 54, 59, true);
        lemma_rows_next(141, c, 59, 80, false);
        lemma_rows_next(141, c, 80, 85, true);
        lemma_rows_next(141, c, 85, 106, false);
        lemma_rows_next(141, c, 106, 111, true);
        lemma_rows_next(141, c, 111, 132, false);
        lemma_rows_next(141, c, 132, 137, true);
        lemma_rows_next(141, c, 137, 141, false);
    }
    lemma_columns_next(141, 7, 54, 59, 111);
    assert forall|c: int| 59 <= c < 80 implies rows_free(141, c, 0, 141) == 140 by {
        lemma_rows_next(141, c, 0, 6, false);
        lemma_rows_next(141, c, 6, 7, true);
        lemma_rows_next(141, c, 7, 141, false);
    }
    lemma_columns_next(141, 7, 59, 80, 140);
    assert forall|c: int| 80 <= c < 85 implies rows_free(141, c, 0, 141) == 111 by {
        lemma_rows_next(141, c, 0, 4, false);
        lemma_rows_next(141, c, 4, 9, true);
        lemma_rows_next(141, c, 9, 28, false);
        lemma_rows_next(141, c, 28, 33, true);
        lemma_rows_next(141, c, 33, 54, false);
        lemma_rows_next(141, c, 54, 59, true);
        lemma_rows_next(141, c, 59, 80, false);
        lemma_rows_next(141, c, 80, 85, true);
        lemma_rows_next(141, c, 85, 106, false);
        lemma_rows_next(141, c, 106, 111, true);
        lemma_rows_next(141, c, 111, 132, false);
        lemma_rows_next(141, c, 132, 137, true);
        lemma_rows_next(141, c, 137, 141, false);
    }
    lemma_columns_next(141, 7, 80, 85, 111);
    assert forall|c: int| 85 <= c < 106 implies rows_free(141, c, 0, 141) == 140 by {
        lemma_rows_next(141, c, 0, 6, false);
        lemma_rows_next(141, c, 6, 7, true);
        lemma_rows_next(141, c, 7, 141, false);
    }
    lemma_columns_next(141, 7, 85, 106, 140);
    assert forall|c: int| 106 <= c < 111 implies rows_free(141, c, 0, 141) == 111 by {
        lemma_rows_next(141, c, 0, 4, false);
        lemma_rows_next(141, c, 4, 9, true);
        lemma_rows_next(141, c, 9, 28, false);
        lemma_rows_next(141, c, 28, 33, true);
        lemma_rows_next(141, c, 33, 54, false);
        lemma_rows_next(141, c, 54, 59, true);
        lemma_rows_next(141, c, 59, 80, false);
        lemma_rows_next(141, c, 80, 85, true);
        lemma_rows_next(141, c, 85, 106, false);
        lemma_rows_next(141, c, 106, 111, true);
        lemma_rows_next(141, c, 111, 132, false);
        lemma_rows_next(141, c, 132, 137, true);
        lemma_rows_next(141, c, 137, 141, false);
    }
    lemma_columns_next(141, 7, 106, 111, 111);
    assert forall|c: int| 111 <= c < 130 implies rows_free(141, c, 0, 141) == 140 by {
        lemma_rows_next(141, c, 0, 6, false);
        lemma_rows_next(141, c, 6, 7, true);
        lemma_rows_next(141, c, 7, 141, false);
    }
    lemma_columns_next(141, 7, 111, 130, 140);
    assert forall|c: int| 130 <= c < 132 implies rows_free(141, c, 0, 141) == 134 by {
        lemma_rows_next(141, c, 0, 7, true);
        lemma_rows_next(141, c, 7, 141, false);
    }
    lemma_columns_next(141, 7, 130, 132, 134);
    assert forall|c: int| 132 <= c < 133 implies rows_free(141, c, 0, 141) == 109 by {
        lemma_rows_next(141, c, 0, 7, true);
        lemma_rows_next(141, c, 7, 28, false);
        lemma_rows_next(141, c, 28, 33, true);
        lemma_rows_next(141, c, 33, 54, false);
        lemma_rows_next(141, c, 54, 59, true);
        lemma_rows_next(141, c, 59, 80, false);
        lemma_rows_next(141, c, 80, 85, true);
        lemma_rows_next(141, c, 85, 106, false);
        lemma_rows_next(141, c, 106, 111, true);
        lemma_rows_next(141, c, 111, 132, false);
        lemma_rows_next(141, c, 132, 137, true);
        lemma_rows_next(141, c, 137, 141, false);
    }
    lemma_columns_next(141, 7, 132, 133, 109);
    assert forall|c: int| 133 <= c < 137 implies rows_free(141, c, 0, 141) == 107 by {
        lemma_rows_next(141, c, 0, 9, true);
        lemma_rows_next(141, c, 9, 28, false);
        lemma_rows_next(141, c, 28, 33, true);
        lemma_rows_next(141, c, 33, 54, false);
        lemma_rows_next(141, c, 54, 59, true);
        lemma_rows_next(141, c, 59, 80, false);
        lemma_rows_next(141, c, 80, 85, true);
        lemma_rows_next(141, c, 85, 106, false);
        lemma_rows_next(141, c, 106, 111, true);
        lemma_rows_next(141, c, 111, 132, false);
        lemma_rows_next(141, c, 132, 137, true);
        lemma_rows_next(141, c, 137, 141, false);
    }
    lemma_columns_next(141, 7, 133, 137, 107);
    assert forall|c: int| 137 <= c < 141 implies rows_free(141, c, 0, 141) == 132 by {
        lemma_rows_next(141, c, 0, 9, true);
        lemma_rows_next(141, c, 9, 141, false);
    }
    lemma_columns_next(141, 7, 137, 141, 132);
}

/// Where the alignment patterns of version 32 lie.
proof fn lemma_alignment_zone_of_version_32()
    ensures
        forall|r: int, c: int|
            #[trigger] alignment_zone(32, r, c) == (((4 <= r <= 8) && ((32 <= c <= 36) || (58 <= c <= 62) || (84 <= c <= 88) || (110 <= c <= 114)))
            || (((32 <= r <= 36) || (58 <= r <= 62) || (84 <= r <= 88) || (110 <= r <= 114)) && ((4 <= c <= 8) || (32 <= c <= 36) || (58 <= c <= 62) || (84 <= c <= 88) || (110 <= c <= 114) || (136 <= c <= 140)))
            || ((136 <= r <= 140) && ((32 <= c <= 36) || (58 <= c <= 62) || (84 <= c <= 88) || (110 <= c <= 114) || (136 <= c <= 140)))),
{
    reveal_with_fuel(alignment_hit, 7);
    reveal_with_fuel(alignment_row_hit, 7);
}

/// The free cells of the columns of version 32.
proof fn lemma_columns_of_version_32()
    ensures
        columns_free(145, 0, 6) + columns_free(145, 7, 145) == 19723,
{
    lemma_alignment_zone_of_version_32();
    assert(columns_free(145, 0, 0) == 0);
    assert forall|c: int| 0 <= c < 4 implies rows_free(145, c, 0, 145) == 125 by {
        lemma_rows_next(145, c, 0, 9, true);
        lemma_rows_next(145, c, 9, 134, false);
        lemma_rows_next(145, c, 134, 145, true);
    }
    lemma_columns_next(145, 0, 0, 4, 125);
    assert forall|c: int| 4 <= c < 6 implies rows_free(145, c, 0, 145) == 105 by {
        lemma_rows_next(145, c, 0, 9, true);
        lemma_rows_next(145, c, 9, 32, false);
        lemma_rows_next(145, c, 32, 37, true);
        lemma_rows_next(145, c, 37, 58, false);
        lemma_rows_next(145, c, 58, 63, true);
        lemma_rows_next(145, c, 63, 84, false);
        lemma_rows_next(145, c, 84, 89, true);
        lemma_rows_next(145, c, 89, 110, false);
        lemma_rows_next(145, c, 110, 115, true);
        lemma_rows_next(145, c, 115, 134, false);
        lemma_rows_next(145, c, 134, 145, true);
    }
    lemma_columns_next(145, 0, 4, 6, 105);
    assert(columns_free(145, 7, 7) == 0);
    assert forall|c: int| 7 <= c < 9 implies rows_free(145, c, 0, 145) == 108 by {
        lemma_rows_next(145, c, 0, 9, true);
        lemma_rows_next(145, c, 9, 32, false);
        lemma_rows_next(145, c, 32, 37, true);
        lemma_rows_next(145, c, 37, 58, false);
        lemma_rows_next(145, c, 58, 63, true);
        lemma_rows_next(145, c, 63, 84, false);
        lemma_rows_next(145, c, 84, 89, true);
        lemma_rows_next(145, c, 89, 110, false);
        lemma_rows_next(145, c, 110, 115, true);
        lemma_rows_next(145, c, 115, 137, false);
        lemma_rows_next(145, c, 137, 145, true);
    }
    lemma_columns_next(145, 7, 7, 9, 108);
    assert forall|c: int| 9 <= c < 32 implies rows_free(145, c, 0, 145) == 144 by {
        lemma_rows_next(145, c, 0, 6, false);
        lemma_rows_next(145, c, 6, 7, true);
        lemma_rows_next(145, c, 7, 145, false);
    }
    lemma_columns_next(145, 7, 9, 32, 144);
    assert forall|c: int| 32 <= c < 37 implies rows_free(145, c, 0, 145) == 115 by {
        lemma_rows_next(145, c, 0, 4, false);
        lemma_rows_next(145, c, 4, 9, true);
        lemma_rows_next(145, c, 9, 32, false);
        lemma_rows_next(145, c, 32, 37, true);
        lemma_rows_next(145, c, 37, 58, false);
        lemma_rows_next(145, c, 58, 63, true);
        lemma_rows_next(145, c, 63, 84, false);
        lemma_rows_next(145, c, 84, 89, true);
        lemma_rows_next(145, c, 89, 110, false);
        lemma_rows_next(145, c, 110, 115, true);
        lemma_rows_next(145, c, 115, 136, false);
        lemma_rows_next(145, c, 136, 141, true);
        lemma_rows_next(145, c, 141, 145, false);
    }
    lemma_columns_next(145, 7, 32, 37, 115);
    assert forall|c: int| 37 <= c < 58 implies rows_free(145, c, 0, 145) == 144 by {
        lemma_rows_next(145, c, 0, 6, false);
        lemma_rows_next(145, c, 6, 7, true);
        lemma_rows_next(145, c, 7, 145, false);
    }
    lemma_columns_next(145, 7, 37, 58, 144);
    assert forall|c: int| 58 <= c < 63 implies rows_free(145, c, 0, 145) == 115 by {
        lemma_rows_next(145, c, 0, 4, false);
        lemma_rows_next(145, c, 4, 9, true);
        lemma_rows_next(145, c, 9, 32, false);
        lemma_rows_next(145, c, 32, 37, true);
        lemma_rows_next(145, c, 37, 58, false);
        lemma_rows_next(145, c, 58, 63, true);
        lemma_rows_next(145, c, 63, 84, false);
        lemma_rows_next(145, c, 84, 89, true);
        lemma_rows_next(145, c, 89, 110, false);
        lemma_rows_next(145, c, 110, 115, true);
        lemma_rows_next(145, c, 115, 136, false);
        lemma_rows_next(145, c, 136, 141, true);
        lemma_rows_next(145, c, 141, 145, false);
    }
    lemma_columns_next(145, 7, 58, 63, 115);
    assert forall|c: int| 63 <= c < 84 implies rows_free(145, c, 0, 145) == 144 by {
        lemma_rows_next(145, c, 0, 6, false);
        lemma_rows_next(145, c, 6, 7, true);
        lemma_rows_next(145, c, 7, 145, false);
    }
    lemma_columns_next(145, 7, 63, 84, 144);
    assert forall|c: int| 84 <= c < 89 implies rows_free(145, c, 0, 145) == 115 by {
        lemma_rows_next(145, c, 0, 4, false);
        lemma_rows_next(145, c, 4, 9, true);
        lemma_rows_next(145, c, 9, 32, false);
        lemma_rows_next(145, c, 32, 37, true);
        lemma_rows_next(145, c, 37, 58, false);
        lemma_rows_next(145, c, 58, 63, true);
        lemma_rows_next(145, c, 63, 84, false);
        lemma_rows_next(145, c, 84, 89, true);
        lemma_rows_next(145, c, 89, 110, false);
        lemma_rows_next(145, c, 110, 115, true);
        lemma_rows_next(145, c, 115, 136, false);
        lemma_rows_next(145, c, 136, 141, true);
        lemma_rows_next(145, c, 141, 145, false);
    }
    lemma_columns_next(145, 7, 84, 89, 115);
    assert forall|c: int| 89 <= c < 110 implies rows_free(145, c, 0, 145) == 144 by {
        lemma_rows_next(145, c, 0, 6, false);
        lemma_rows_next(145, c, 6, 7, true);
        lemma_rows_next(145, c, 7, 145, false);
    }
    lemma_columns_next(145, 7, 89, 110, 144);
    assert forall|c: int| 110 <= c < 115 implies rows_free(145, c, 0, 145) == 115 by {
        lemma_rows_next(145, c, 0, 4, false);
        lemma_rows_next(145, c, 4, 9, true);
        lemma_rows_next(145, c, 9, 32, false);
        lemma_rows_next(145, c, 32, 37, true);
        lemma_rows_next(145, c, 37, 58, false);
        lemma_rows_next(145, c, 58, 63, true);
        lemma_rows_next(145, c, 63, 84, false);
        lemma_rows_next(145, c, 84, 89, true);
        lemma_rows_next(145, c, 89, 110, false);
        lemma_rows_next(145, c, 110, 115, true);
        lemma_rows_next(145, c, 115, 136, false);
        lemma_rows_next(145, c, 136, 141, true);
        lemma_rows_next(145, c, 141, 145, false);
    }
    lemma_columns_next(145, 7, 110, 115, 115);
    assert forall|c: int| 115 <= c < 134 implies rows_free(145, c, 0, 145) == 144 by {
        lemma_rows_next(145, c, 0, 6, false);
        lemma_rows_next(145, c, 6, 7, true);
        lemma_rows_next(145, c, 7, 145, false);
    }
    lemma_columns_next(145, 7, 115, 134, 144);
    assert forall|c: int| 134 <= c < 136 implies rows_free(145, c, 0, 145) == 138 by {
        lemma_rows_next(145, c, 0, 7, true);
        lemma_rows_next(145, c, 7, 145, false);
    }
    lemma_columns_next(145, 7, 134, 136, 138);
    assert forall|c: int| 136 <= c < 137 implies rows_free(145, c, 0, 145) == 113 by {
        lemma_rows_next(145, c, 0, 7, true);
        lemma_rows_next(145, c, 7, 32, false);
        lemma_rows_next(145, c, 32, 37, true);
        lemma_rows_next(145, c, 37, 58, false);
        lemma_rows_next(145, c, 58, 63, true);
        lemma_rows_next(145, c, 63, 84, false);
        lemma_rows_next(145, c, 84, 89, true);
        lemma_rows_next(145, c, 89, 110, false);
        lemma_rows_next(145, c, 110, 115, true);
        lemma_rows_next(145, c, 115, 136, false);
        lemma_rows_next(145, c, 136, 141, true);
        lemma_rows_next(145, c, 141, 145, false);
    }
    lemma_columns_next(145, 7, 136, 137, 113);
    assert forall|c: int| 137 <= c < 141 implies rows_free(145, c, 0, 145) == 111 by {
        lemma_rows_next(145, c, 0, 9, true);
        lemma_rows_next(145, c, 9, 32, false);
        lemma_rows_next(145, c, 32, 37, true);
        lemma_rows_next(145, c, 37, 58, false);
        lemma_rows_next(145, c, 58, 63, true);
        lemma_rows_next(145, c, 63, 84, false);
        lemma_rows_next(145, c, 84, 89, true);
        lemma_rows_next(145, c, 89, 110, false);
        lemma_rows_next(145, c, 110, 115, true);
        lemma_rows_next(145, c, 115, 136, false);
        lemma_rows_next(145, c, 136, 141, true);
        lemma_rows_next(145, c, 141, 145, false);
    }
    lemma_columns_next(145, 7, 137, 141, 111);
    assert forall|c: int| 141 <= c < 145 implies rows_free(145, c, 0, 145) == 136 by {
        lemma_rows_next(145, c, 0, 9, true);
        lemma_rows_next(145, c, 9, 145, false);
    }
    lemma_columns_next(145, 7, 141, 145, 136);
}

/// Where the alignment patterns of version 33 lie.
proof fn lemma_alignment_zone_of_version_33()
    ensures
        forall|r: int, c: int|
            #[trigger] alignment_zone(33, r, c) == (((4 <= r <= 8) && ((28 <= c <= 32) || (56 <= c <= 60) || (84 <= c <= 88) || (112 <= c <= 116)))
            || (((28 <= r <= 32) || (56 <= r <= 60) || (84 <= r <= 88) || (112 <= r <= 116)) && ((4 <= c <= 8) || (28 <= c <= 32) || (56 <= c <= 60) || (84 <= c <= 88) || (112 <= c <= 116) || (140 <= c <= 144)))
            || ((140 <= r <= 144) && ((28 <= c <= 32) || (56 <= c <= 60) || (84 <= c <= 88) || (112 <= c <= 116) || (140 <= c <= 144)))),
{
    reveal_with_fuel(alignment_hit, 7);
    reveal_with_fuel(alignment_row_hit, 7);
}

/// The free cells of the columns of version 33.
proof fn lemma_columns_of_version_33()
    ensures
        columns_free(149, 0, 6) + columns_free(149, 7, 149) == 20891,
{
    lemma_alignment_zone_of_version_33();
    assert(columns_free(149, 0, 0) == 0);
    assert forall|c: int| 0 <= c < 4 implies rows_free(149, c, 0, 149) == 129 by {
        lemma_rows_next(149, c, 0, 9, true);
        lemma_rows_next(149, c, 9, 138, false);
        lemma_rows_next(149, c, 138, 149, true);
    }
    lemma_columns_next(149, 0, 0, 4, 129);
    assert forall|c: int| 4 <= c < 6 implies rows_free(149, c, 0, 149) == 109 by {
        lemma_rows_next(149, c, 0, 9, true);
        lemma_rows_next(149, c, 9, 28, false);
        lemma_rows_next(149, c, 28, 33, true);
        lemma_rows_next(149, c, 33, 56, false);
        lemma_rows_next(149, c, 56, 61, true);
        lemma_rows_next(149, c, 61, 84, false);
        lemma_rows_next(149, c, 84, 89, true);
        lemma_rows_next(149, c, 89, 112, false);
        lemma_rows_next(149, c, 112, 117, true);
        lemma_rows_next(149, c, 117, 138, false);
        lemma_rows_next(149, c, 138, 149, true);
    }
    lemma_columns_next(149, 0, 4, 6, 109);
    assert(columns_free(149, 7, 7) == 0);
    assert forall|c: int| 7 <= c < 9 implies rows_free(149, c, 0, 149) == 112 by {
        lemma_rows_next(149, c, 0, 9, true);
        lemma_rows_next(149, c, 9, 28, false);
        lemma_rows_next(149, c, 28, 33, true);
        lemma_rows_next(149, c, 33, 56, false);
        lemma_rows_next(149, c, 56, 61, true);
        lemma_rows_next(149, c, 61, 84, false);
        lemma_rows_next(149, c, 84, 89, true);
        lemma_rows_next(149, c, 89, 112, false);
        lemma_rows_next(149, c, 112, 117, true);
        lemma_rows_next(149, c, 117, 141, false);
        lemma_rows_next(149, c, 141, 149, true);
    }
    lemma_columns_next(149, 7, 7, 9, 112);
    assert forall|c: int| 9 <= c < 28 implies rows_free(149, c, 0, 149) == 148 by {
        lemma_rows_next(149, c, 0, 6, false);
        lemma_rows_next(149, c, 6, 7, true);
        lemma_rows_next(149, c, 7, 149, false);
    }
    lemma_columns_next(149, 7, 9, 28, 148);
    assert forall|c: int| 28 <= c < 33 implies rows_free(149, c, 0, 149) == 119 by {
        lemma_rows_next(149, c, 0, 4, false);
        lemma_rows_next(149, c, 4, 9, true);
        lemma_rows_next(149, c, 9, 28, false);
        lemma_rows_next(149, c, 28, 33, true);
        lemma_rows_next(149, c, 33, 56, false);
        lemma_rows_next(149, c, 56, 61, true);
        lemma_rows_next(149, c, 61, 84, false);
        lemma_rows_next(149, c, 84, 89, true);
        lemma_rows_next(149, c, 89, 112, false);
        lemma_rows_next(149, c, 112, 117, true);
        lemma_rows_next(149, c, 117, 140, false);
        lemma_rows_next(149, c, 140, 145, true);
        lemma_rows_next(149, c, 145, 149, false);
    }
    lemma_columns_next(149, 7, 28, 33, 119);
    assert forall|c: int| 33 <= c < 56 implies rows_free(149, c, 0, 149) == 148 by {
        lemma_rows_next(149, c, 0, 6, false);
        lemma_rows_next(149, c, 6, 7, true);
        lemma_rows_next(149, c, 7, 149, false);
    }
    lemma_columns_next(149, 7, 33, 56, 148);
    assert forall|c: int| 56 <= c < 61 implies rows_free(149, c, 0, 149) == 119 by {
        lemma_rows_next(149, c, 0, 4, false);
        lemma_rows_next(149, c, 4, 9, true);
        lemma_rows_next(149, c, 9, 28, false);
        lemma_rows_next(149, c, 28, 33, true);
        lemma_rows_next(149, c, 33, 56, false);
        lemma_rows_next(149, c, 56, 61, true);
        lemma_rows_next(149, c, 61, 84, false);
        lemma_rows_next(149, c, 84, 89, true);
        lemma_rows_next(149, c, 89, 112, false);
        lemma_rows_next(149, c, 112, 117, true);
        lemma_rows_next(149, c, 117, 140, false);
        lemma_rows_next(149, c, 140, 145, true);
        lemma_rows_next(149, c, 145, 149, false);
    }
    lemma_columns_next(149, 7, 56, 61, 119);
    assert forall|c: int| 61 <= c < 84 implies rows_free(149, c, 0, 149) == 148 by {
        lemma_rows_next(149, c, 0, 6, false);
        lemma_rows_next(149, c, 6, 7, true);
        lemma_rows_next(149, c, 7, 149, false);
    }
    lemma_columns_next(149, 7, 61, 84, 148);
    assert forall|c: int| 84 <= c < 89 implies rows_free(149, c, 0, 149) == 119 by {
        lemma_rows_next(149, c, 0, 4, false);
        lemma_rows_next(149, c, 4, 9, true);
        lemma_rows_next(149, c, 9, 28, false);
        lemma_rows_next(149, c, 28, 33, true);
        lemma_rows_next(149, c, 33, 56, false);
        lemma_rows_next(149, c, 56, 61, true);
        lemma_rows_next(149, c, 61, 84, false);
        lemma_rows_next(149, c, 84, 89, true);
        lemma_rows_next(149, c, 89, 112, false);
        lemma_rows_next(149, c, 112, 117, true);
        lemma_rows_next(149, c, 117, 140, false);
        lemma_rows_next(149, c, 140, 145, true);
        lemma_rows_next(149, c, 145, 149, false);
    }
    lemma_columns_next(149, 7, 84, 89, 119);
    assert forall|c: int| 89 <= c < 112 implies rows_free(149, c, 0, 149) == 148 by {
        lemma_rows_next(149, c, 0, 6, false);
        lemma_rows_next(149, c, 6, 7, true);
        lemma_rows_next(149, c, 7, 149, false);
    }
    lemma_columns_next(149, 7, 89, 112, 148);
    assert forall|c: int| 112 <= c < 117 implies rows_free(149, c, 0, 149) == 119 by {
        lemma_rows_next(149, c, 0, 4, false);
        lemma_rows_next(149, c, 4, 9, true);
        lemma_rows_next(149, c, 9, 28, false);
        lemma_rows_next(149, c, 28, 33, true);
        lemma_rows_next(149, c, 33, 56, false);
        lemma_rows_next(149, c, 56, 61, true);
        lemma_rows_next(149, c, 61, 84, false);
        lemma_rows_next(149, c, 84, 89, true);
        lemma_rows_next(149, c, 89, 112, false);
        lemma_rows_next(149, c, 112, 117, true);
        lemma_rows_next(149, c, 117, 140, false);
        lemma_rows_next(149, c, 140, 145, true);
        lemma_rows_next(149, c, 145, 149, false);
    }
    lemma_columns_next(149, 7, 112, 117, 119);
    assert forall|c: int| 117 <= c < 138 implies rows_free(149, c, 0, 149) == 148 by {
        lemma_rows_next(149, c, 0, 6, false);
        lemma_rows_next(149, c, 6, 7, true);
        lemma_rows_next(149, c, 7, 149, false);
    }
    lemma_columns_next(149, 7, 117, 138, 148);
    assert forall|c: int| 138 <= c < 140 implies rows_free(149, c, 0, 149) == 142 by {
        lemma_rows_next(149, c, 0, 7, true);
        lemma_rows_next(149, c, 7, 149, false);
    }
    lemma_columns_next(149, 7, 138, 140, 142);
    assert forall|c: int| 140 <= c < 141 implies rows_free(149, c, 0, 149) == 117 by {
        lemma_rows_next(149, c, 0, 7, true);
        lemma_rows_next(149, c, 7, 28, false);
        lemma_rows_next(149, c, 28, 33, true);
        lemma_rows_next(149, c, 33, 56, false);
        lemma_rows_next(149, c, 56, 61, true);
        lemma_rows_next(149, c, 61, 84, false);
        lemma_rows_next(149, c, 84, 89, true);
        lemma_rows_next(149, c, 89, 112, false);
        lemma_rows_next(149, c, 112, 117, true);
        lemma_rows_next(149, c, 117, 140, false);
        lemma_rows_next(149, c, 140, 145, true);
        lemma_rows_next(149, c, 145, 149, false);
    }
    lemma_columns_next(149, 7, 140, 141, 117);
    assert forall|c: int| 141 <= c < 145 implies rows_free(149, c, 0, 149) == 115 by {
        lemma_rows_next(149, c, 0, 9, true);
        lemma_rows_next(149, c, 9, 28, false);
        lemma_rows_next(149, c, 28, 33, true);
        lemma_rows_next(149, c, 33, 56, false);
        lemma_rows_next(149, c, 56, 61, true);
        lemma_rows_next(149, c, 61, 84, false);
        lemma_rows_next(149, c, 84, 89, true);
        lemma_rows_next(149, c, 89, 112, false);
        lemma_rows_next(149, c, 112, 117, true);
        lemma_rows_next(149, c, 117, 140, false);
        lemma_rows_next(149, c, 140, 145, true);
        lemma_rows_next(149, c, 145, 149, false);
    }
    lemma_columns_next(149, 7, 141, 145, 115);
    assert forall|c: int| 145 <= c < 149 implies rows_free(149, c, 0, 149) == 140 by {
        lemma_rows_next(149, c, 0, 9, true);
        lemma_rows_next(149, c, 9, 149, false);
    }
    lemma_columns_next(149, 7, 145, 149, 140);
}

/// Where the alignment patterns of version 34 lie.
proof fn lemma_alignment_zone_of_version_34()
    ensures
        forall|r: int, c: int|
            #[trigger] alignment_zone(34, r, c) == (((4 <= r <= 8) && ((32 <= c <= 36) || (60 <= c <= 64) || (88 <= c <= 92) || (116 <= c <= 120)))
            || (((32 <= r <= 36) || (60 <= r <= 64) || (88 <= r <= 92) || (116 <= r <= 120)) && ((4 <= c <= 8) || (32 <= c <= 36) || (60 <= c <= 64) || (88 <= c <= 92) || (116 <= c <= 120) || (144 <= c <= 148)))
            || ((144 <= r <= 148) && ((32 <= c <= 36) || (60 <= c <= 64) || (88 <= c <= 92) || (116 <= c <= 120) || (144 <= c <= 148)))),
{
    reveal_with_fuel(alignment_hit, 7);
    reveal_with_fuel(alignment_row_hit, 7);
}

/// The free cells of the columns of version 34.
proof fn lemma_columns_of_version_34()
    ensures
        columns_free(153, 0, 6) + columns_free(153, 7, 153) == 22091,
{
    lemma_alignment_zone_of_version_34();
    assert(columns_free(153, 0, 0) == 0);
    assert forall|c: int| 0 <= c < 4 implies rows_free(153, c, 0, 153) == 133 by {
        lemma_rows_next(153, c, 0, 9, true);
        lemma_rows_next(153, c, 9, 142, false);
        lemma_rows_next(153, c, 142, 153, true);
    }
    lemma_columns_next(153, 0, 0, 4, 133);
    assert forall|c: int| 4 <= c < 6 implies rows_free(153, c, 0, 153) == 113 by {
        lemma_rows_next(153, c, 0, 9, true);
        lemma_rows_next(153, c, 9, 32, false);
        lemma_rows_next(153, c, 32, 37, true);
        lemma_rows_next(153, c, 37, 60, false);
        lemma_rows_next(153, c, 60, 65, true);
        lemma_rows_next(153, c, 65, 88, false);
        lemma_rows_next(153, c, 88, 93, true);
        lemma_rows_next(153, c, 93, 116, false);
        lemma_rows_next(153, c, 116, 121, true);
        lemma_rows_next(153, c, 121, 142, false);
        lemma_rows_next(153, c, 142, 153, true);
    }
    lemma_columns_next(153, 0, 4, 6, 113);
    assert(columns_free(153, 7, 7) == 0);
    assert forall|c: int| 7 <= c < 9 implies rows_free(153, c, 0, 153) == 116 by {
        lemma_rows_next(153, c, 0, 9, true);
        lemma_rows_next(153, c, 9, 32, false);
        lemma_rows_next(153, c, 32, 37, true);
        lemma_rows_next(153, c, 37, 60, false);
        lemma_rows_next(153, c, 60, 65, true);
        lemma_rows_next(153, c, 65, 88, false);
        lemma_rows_next(153, c, 88, 93, true);
        lemma_rows_next(153, c, 93, 116, false);
        lemma_rows_next(153, c, 116, 121, true);
        lemma_rows_next(153, c, 121, 145, false);
        lemma_rows_next(153, c, 145, 153, true);
    }
    lemma_columns_next(153, 7, 7, 9, 116);
    assert forall|c: int| 9 <= c < 32 implies rows_free(153, c, 0, 153) == 152 by {
        lemma_rows_next(153, c, 0, 6, false);
        lemma_rows_next(153, c, 6, 7, true);
        lemma_rows_next(153, c, 7, 153, false);
    }
    lemma_columns_next(153, 7, 9, 32, 152);
    assert forall|c: int| 32 <= c < 37 implies rows_free(153, c, 0, 153) == 123 by {
        lemma_rows_next(153, c, 0, 4, false);
        lemma_rows_next(153, c, 4, 9, true);
        lemma_rows_next(153, c, 9, 32, false);
        lemma_rows_next(153, c, 32, 37, true);
        lemma_rows_next(153, c, 37, 60, false);
        lemma_rows_next(153, c, 60, 65, true);
        lemma_rows_next(153, c, 65, 88, false);
        lemma_rows_next(153, c, 88, 93, true);
        lemma_rows_next(153, c, 93, 116, false);
        lemma_rows_next(153, c, 116, 121, true);
        lemma_rows_next(153, c, 121, 144, false);
        lemma_rows_next(153, c, 144, 149, true);
        lemma_rows_next(153, c, 149, 153, false);
    }
    lemma_columns_next(153, 7, 32, 37, 123);
    assert forall|c: int| 37 <= c < 60 implies rows_free(153, c, 0, 153) == 152 by {
        lemma_rows_next(153, c, 0, 6, false);
        lemma_rows_next(153, c, 6, 7, true);
        lemma_rows_next(153, c, 7, 153, false);
    }
    lemma_columns_next(153, 7, 37, 60, 152);
    assert forall|c: int| 60 <= c < 65 implies rows_free(153, c, 0, 153) == 123 by {
        lemma_rows_next(153, c, 0, 4, false);
        lemma_rows_next(153, c, 4, 9, true);
        lemma_rows_next(153, c, 9, 32, false);
        lemma_rows_next(153, c, 32, 37, true);
        lemma_rows_next(153, c, 37, 60, false);
        lemma_rows_next(153, c, 60, 65, true);
        lemma_rows_next(153, c, 65, 88, false);
        lemma_rows_next(153, c, 88, 93, true);
        lemma_rows_next(153, c, 93, 116, false);
        lemma_rows_next(153, c, 116, 121, true);
        lemma_rows_next(153, c, 121, 144, false);
        lemma_rows_next(153, c, 144, 149, true);
        lemma_rows_next(153, c, 149, 153, false);
    }
    lemma_columns_next(153, 7, 60, 65, 123);
    assert forall|c: int| 65 <= c < 88 implies rows_free(153, c, 0, 153) == 152 by {
        lemma_rows_next(153, c, 0, 6, false);
        lemma_rows_next(153, c, 6, 7, true);
        lemma_rows_next(153, c, 7, 153, false);
    }
    lemma_columns_next(153, 7, 65, 88, 152);
    assert forall|c: int| 88 <= c < 93 implies rows_free(153, c, 0, 153) == 123 by {
        lemma_rows_next(153, c, 0, 4, false);
        lemma_rows_next(153, c, 4, 9, true);
        lemma_rows_next(153, c, 9, 32, false);
        lemma_rows_next(153, c, 32, 37, true);
        lemma_rows_next(153, c, 37, 60, false);
        lemma_rows_next(153, c, 60, 65, true);
        lemma_rows_next(153, c, 65, 88, false);
        lemma_rows_next(153, c, 88, 93, true);
        lemma_rows_next(153, c, 93, 116, false);
        lemma_rows_next(153, c, 116, 121, true);
        lemma_rows_next(153, c, 121, 144, false);
        lemma_rows_next(153, c, 144, 149, true);
        lemma_rows_next(153, c, 149, 153, false);
    }
    lemma_columns_next(153, 7, 88, 93, 123);
    assert forall|c: int| 93 <= c < 116 implies rows_free(153, c, 0, 153) == 152 by {
        lemma_rows_next(153, c, 0, 6, false);
        lemma_rows_next(153, c, 6, 7, true);
        lemma_rows_next(153, c, 7, 153, false);
    }
    lemma_columns_next(153, 7, 93, 116, 152);
    assert forall|c: int| 116 <= c < 121 implies rows_free(153, c, 0, 153) == 123 by {
        lemma_rows_next(153, c, 0, 4, false);
        lemma_rows_next(153, c, 4, 9, true);
        lemma_rows_next(153, c, 9, 32, false);
        lemma_rows_next(153, c, 32, 37, true);
        lemma_rows_next(153, c, 37, 60, false);
        lemma_rows_next(153, c, 60, 65, true);
        lemma_rows_next(153, c, 65, 88, false);
        lemma_rows_next(153, c, 88, 93, true);
        lemma_rows_next(153, c, 93, 116, false);
        lemma_rows_next(153, c, 116, 121, true);
        lemma_rows_next(153, c, 121, 144, false);
        lemma_rows_next(153, c, 144, 149, true);
        lemma_rows_next(153, c, 149, 153, false);
    }
    lemma_columns_next(153, 7, 116, 121, 123);
    assert forall|c: int| 121 <= c < 142 implies rows_free(153, c, 0, 153) == 152 by {
        lemma_rows_next(153, c, 0, 6, false);
        lemma_rows_next(153, c, 6, 7, true);
        lemma_rows_next(153, c, 7, 153, false);
    }
    lemma_columns_next(153, 7, 121, 142, 152);
    assert forall|c: int| 142 <= c < 144 implies rows_free(153, c, 0, 153) == 146 by {
        lemma_rows_next(153, c, 0, 7, true);
        lemma_rows_next(153, c, 7, 153, false);
    }
    lemma_columns_next(153, 7, 142, 144, 146);
    assert forall|c: int| 144 <= c < 145 implies rows_free(153, c, 0, 153) == 121 by {
        lemma_rows_next(153, c, 0, 7, true);
        lemma_rows_next(153, c, 7, 32, false);
        lemma_rows_next(153, c, 32, 37, true);
        lemma_rows_next(153, c, 37, 60, false);
        lemma_rows_next(153, c, 60, 65, true);
        lemma_rows_next(153, c, 65, 88, false);
        lemma_rows_next(153, c, 88, 93, true);
        lemma_rows_next(153, c, 93, 116, false);
        lemma_rows_next(153, c, 116, 121, true);
        lemma_rows_next(153, c, 121, 144, false);
        lemma_rows_next(153, c, 144, 149, true);
        lemma_rows_next(153, c, 149, 153, false);
    }
    lemma_columns_next(153, 7, 144, 145, 121);
    assert forall|c: int| 145 <= c < 149 implies rows_free(153, c, 0, 153) == 119 by {
        lemma_rows_next(153, c, 0, 9, true);
        lemma_rows_next(153, c, 9, 32, false);
        lemma_rows_next(153, c, 32, 37, true);
        lemma_rows_next(153, c, 37, 60, false);
        lemma_rows_next(153, c, 60, 65, true);
        lemma_rows_next(153, c, 65, 88, false);
        lemma_rows_next(153, c, 88, 93, true);
        lemma_rows_next(153, c, 93, 116, false);
        lemma_rows_next(153, c, 116, 121, true);
        lemma_rows_next(153, c, 121, 144, false);
        lemma_rows_next(153, c, 144, 149, true);
        lemma_rows_next(153, c, 149, 153, false);
    }
    lemma_columns_next(153, 7, 145, 149, 119);
    assert forall|c: int| 149 <= c < 153 implies rows_free(153, c, 0, 153) == 144 by {
        lemma_rows_next(153, c, 0, 9, true);
        lemma_rows_next(153, c, 9, 153, false);
    }
    lemma_columns_next(153, 7, 149, 153, 144);
}

/// Where the alignment patterns of version 35 lie.
proof fn lemma_alignment_zone_of_version_35()
    ensures
        forall|r: int, c: int|
            #[trigger] alignment_zone(35, r, c) == (((4 <= r <= 8) && ((28 <= c <= 32) || (52 <= c <= 56) || (76 <= c <= 80) || (100 <= c <= 104) || (124 <= c <= 128)))
            || (((28 <= r <= 32) || (52 <= r <= 56) || (76 <= r <= 80) || (100 <= r <= 104) || (124 <= r <= 128)) && ((4 <= c <= 8) || (28 <= c <= 32) || (52 <= c <= 56) || (76 <= c <= 80) || (100 <= c <= 104) || (124 <= c <= 128) || (148 <= c <= 152)))
            || ((148 <= r <= 152) && ((28 <= c <= 32) || (52 <= c <= 56) || (76 <= c <= 80) || (100 <= c <= 104) || (124 <= c <= 128) || (148 <= c <= 152)))),
{
    reveal_with_fuel(alignment_hit, 8);
    reveal_with_fuel(alignment_row_hit, 8);
}

/// The free cells of the columns of version 35.
proof fn lemma_columns_of_version_35()
    ensures
        columns_free(157, 0, 6) + columns_free(157, 7, 157) == 23008,
{
    lemma_alignment_zone_of_version_35();
    assert(columns_free(157, 0, 0) == 0);
    assert forall|c: int| 0 <= c < 4 implies rows_free(157, c, 0, 157) == 137 by {
        lemma_rows_next(157, c, 0, 9, true);
        lemma_rows_next(157, c, 9, 146, false);
        lemma_rows_next(157, c, 146, 157, true);
    }
    lemma_columns_next(157, 0, 0, 4, 137);
    assert forall|c: int| 4 <= c < 6 implies rows_free(157, c, 0, 157) == 112 by {
        lemma_rows_next(157, c, 0, 9, true);
        lemma_rows_next(157, c, 9, 28, false);
        lemma_rows_next(157, c, 28, 33, true);
        lemma_rows_next(157, c, 33, 52, false);
        lemma_rows_next(157, c, 52, 57, true);
        lemma_rows_next(157, c, 57, 76, false);
        lemma_rows_next(157, c, 76, 81, true);
        lemma_rows_next(157, c, 81, 100, false);
        lemma_rows_next(157, c, 100, 105, true);
        lemma_rows_next(157, c, 105, 124, false);
        lemma_rows_next(157, c, 124, 129, true);
        lemma_rows_next(157, c, 129, 146, false);
        lemma_rows_next(157, c, 146, 157, true);
    }
    lemma_columns_next(157, 0, 4, 6, 112);
    assert(columns_free(157, 7, 7) == 0);
    assert forall|c: int| 7 <= c < 9 implies rows_free(157, c, 0, 157) == 115 by {
        lemma_rows_next(157, c, 0, 9, true);
        lemma_rows_next(157, c, 9, 28, false);
        lemma_rows_next(157, c, 28, 33, true);
        lemma_rows_next(157, c, 33, 52, false);
        lemma_rows_next(157, c, 52, 57, true);
        lemma_rows_next(157, c, 57, 76, false);
        lemma_rows_next(157, c, 76, 81, true);
        lemma_rows_next(157, c, 81, 100, false);
        lemma_rows_next(157, c, 100, 105, true);
        lemma_rows_next(157, c, 105, 124, false);
        lemma_rows_next(157, c, 124, 129, true);
        lemma_rows_next(157, c, 129, 149, false);
        lemma_rows_next(157, c, 149, 157, true);
    }
    lemma_columns_next(157, 7, 7, 9, 115);
    assert forall|c: int| 9 <= c < 28 implies rows_free(157, c, 0, 157) == 156 by {
        lemma_rows_next(157, c, 0, 6, false);
        lemma_rows_next(157, c, 6, 7, true);
        lemma_rows_next(157, c, 7, 157, false);
    }
    lemma_columns_next(157, 7, 9, 28, 156);
    assert forall|c: int| 28 <= c < 33 implies rows_free(157, c, 0, 157) == 122 by {
        lemma_rows_next(157, c, 0, 4, false);
        lemma_rows_next(157, c, 4, 9, true);
        lemma_rows_next(157, c, 9, 28, false);
        lemma_rows_next(157, c, 28, 33, true);
        lemma_rows_next(157, c, 33, 52, false);
        lemma_rows_next(157, c, 52, 57, true);
        lemma_rows_next(157, c, 57, 76, false);
        lemma_rows_next(157, c, 76, 81, true);
        lemma_rows_next(157, c, 81, 100, false);
        lemma_rows_next(157, c, 100, 105, true);
        lemma_rows_next(157, c, 105, 124, false);
        lemma_rows_next(157, c, 124, 129, true);
        lemma_rows_next(157, c, 129, 148, false);
        lemma_rows_next(157, c, 148, 153, true);
        lemma_rows_next(157, c, 153, 157, false);
    }
    lemma_columns_next(157, 7, 28, 33, 122);
    assert forall|c: int| 33 <= c < 52 implies rows_free(157, c, 0, 157) == 156 by {
        lemma_rows_next(157, c, 0, 6, false);
        lemma_rows_next(157, c, 6, 7, true);
        lemma_rows_next(157, c, 7, 157, false);
    }
    lemma_columns_next(157, 7, 33, 52, 156);
    assert forall|c: int| 52 <= c < 57 implies rows_free(157, c, 0, 157) == 122 by {
        lemma_rows_next(157, c, 0, 4, false);
        lemma_rows_next(157, c, 4, 9, true);
        lemma_rows_next(157, c, 9, 28, false);
        lemma_rows_next(157, c, 28, 33, true);
        lemma_rows_next(157, c, 33, 52, false);
        lemma_rows_next(157, c, 52, 57, true);
        lemma_rows_next(157, c, 57, 76, false);
        lemma_rows_next(157, c, 76, 81, true);
        lemma_rows_next(157, c, 81, 100, false);
        lemma_rows_next(157, c, 100, 105, true);
        lemma_rows_next(157, c, 105, 124, false);
        lemma_rows_next(157, c, 124, 129, true);
        lemma_rows_next(157, c, 129, 148, false);
        lemma_rows_next(157, c, 148, 153, true);
        lemma_rows_next(157, c, 153, 157, false);
    }
    lemma_columns_next(157, 7, 52, 57, 122);
    assert forall|c: int| 57 <= c < 76 implies rows_free(157, c, 0, 157) == 156 by {
        lemma_rows_next(157, c, 0, 6, false);
        lemma_rows_next(157, c, 6, 7, true);
        lemma_rows_next(157, c, 7, 157, false);
    }
    lemma_columns_next(157, 7, 57, 76, 156);
    assert forall|c: int| 76 <= c < 81 implies rows_free(157, c, 0, 157) == 122 by {
        lemma_rows_next(157, c, 0, 4, false);
        lemma_rows_next(157, c, 4, 9, true);
        lemma_rows_next(157, c, 9, 28, false);
        lemma_rows_next(157, c, 28, 33, true);
        lemma_rows_next(157, c, 33, 52, false);
        lemma_rows_next(157, c, 52, 57, true);
        lemma_rows_next(157, c, 57, 76, false);
        lemma_rows_next(157, c, 76, 81, true);
        lemma_rows_next(157, c, 81, 100, false);
        lemma_rows_next(157, c, 100, 105, true);
        lemma_rows_next(157, c, 105, 124, false);
        lemma_rows_next(157, c, 124, 129, true);
        lemma_rows_next(157, c, 129, 148, false);
        lemma_rows_next(157, c, 148, 153, true);
        lemma_rows_next(157, c, 153, 157, false);
    }
    lemma_columns_next(157, 7, 76, 81, 122);
    assert forall|c: int| 81 <= c < 100 implies rows_free(157, c, 0, 157) == 156 by {
        lemma_rows_next(157, c, 0, 6, false);
        lemma_rows_next(157, c, 6, 7, true);
        lemma_rows_next(157, c, 7, 157, false);
    }
    lemma_columns_next(157, 7, 81, 100, 156);
    assert forall|c: int| 100 <= c < 105 implies rows_free(157, c, 0, 157) == 122 by {
        lemma_rows_next(157, c, 0, 4, false);
        lemma_rows_next(157, c, 4, 9, true);
        lemma_rows_next(157, c, 9, 28, false);
        lemma_rows_next(157, c, 28, 33, true);
        lemma_rows_next(157, c, 33, 52, false);
        lemma_rows_next(157, c, 52, 57, true);
        lemma_rows_next(157, c, 57, 76, false);
        lemma_rows_next(157, c, 76, 81, true);
        lemma_rows_next(157, c, 81, 100, false);
        lemma_rows_next(157, c, 100, 105, true);
        lemma_rows_next(157, c, 105, 124, false);
        lemma_rows_next(157, c, 124, 129, true);
        lemma_rows_next(157, c, 129, 148, false);
        lemma_rows_next(157, c, 148, 153, true);
        lemma_rows_next(157, c, 153, 157, false);
    }
    lemma_columns_next(157, 7, 100, 105, 122);
    assert forall|c: int| 105 <= c < 124 implies rows_free(157, c, 0, 157) == 156 by {
        lemma_rows_next(157, c, 0, 6, false);
        lemma_rows_next(157, c, 6, 7, true);
        lemma_rows_next(157, c, 7, 157, false);
    }
    lemma_columns_next(157, 7, 105, 124, 156);
    assert forall|c: int| 124 <= c < 129 implies rows_free(157, c, 0, 157) == 122 by {
        lemma_rows_next(157, c, 0, 4, false);
        lemma_rows_next(157, c, 4, 9, true);
        lemma_rows_next(157, c, 9, 28, false);
        lemma_rows_next(157, c, 28, 33, true);
        lemma_rows_next(157, c, 33, 52, false);
        lemma_rows_next(157, c, 52, 57, true);
        lemma_rows_next(157, c, 57, 76, false);
        lemma_rows_next(157, c, 76, 81, true);
        lemma_rows_next(157, c, 81, 100, false);
        lemma_rows_next(157, c, 100, 105, true);
        lemma_rows_next(157, c, 105, 124, false);
        lemma_rows_next(157, c, 124, 129, true);
        lemma_rows_next(157, c, 129, 148, false);
        lemma_rows_next(157, c, 148, 153, true);
        lemma_rows_next(157, c, 153, 157, false);
    }
    lemma_columns_next(157, 7, 124, 129, 122);
    assert forall|c: int| 129 <= c < 146 implies rows_free(157, c, 0, 157) == 156 by {
        lemma_rows_next(157, c, 0, 6, false);
        lemma_rows_next(157, c, 6, 7, true);
        lemma_rows_next(157, c, 7, 157, false);
    }
    lemma_columns_next(157, 7, 129, 146, 156);
    assert forall|c: int| 146 <= c < 148 implies rows_free(157, c, 0, 157) == 150 by {
        lemma_rows_next(157, c, 0, 7, true);
        lemma_rows_next(157, c, 7, 157, false);
    }
    lemma_columns_next(157, 7, 146, 148, 150);
    assert forall|c: int| 148 <= c < 149 implies rows_free(157, c, 0, 157) == 120 by {
        lemma_rows_next(157, c, 0, 7, true);
        lemma_rows_next(157, c, 7, 28, false);
        lemma_rows_next(157, c, 28, 33, true);
        lemma_rows_next(157, c, 33, 52, false);
        lemma_rows_next(157, c, 52, 57, true);
        lemma_rows_next(157, c, 57, 76, false);
        lemma_rows_next(157, c, 76, 81, true);
        lemma_rows_next(157, c, 81, 100, false);
        lemma_rows_next(157, c, 100, 105, true);
        lemma_rows_next(157, c, 105, 124, false);
        lemma_rows_next(157, c, 124, 129, true);
        lemma_rows_next(157, c, 129, 148, false);
        lemma_rows_next(157, c, 148, 153, true);
        lemma_rows_next(157, c, 153, 157, false);
    }
    lemma_columns_next(157, 7, 148, 149, 120);
    assert forall|c: int| 149 <= c < 153 implies rows_free(157, c, 0, 157) == 118 by {
        lemma_rows_next(157, c, 0, 9, true);
        lemma_rows_next(157, c, 9, 28, false);
        lemma_rows_next(157, c, 28, 33, true);
        lemma_rows_next(157, c, 33, 52, false);
        lemma_rows_next(157, c, 52, 57, true);
        lemma_rows_next(157, c, 57, 76, false);
        lemma_rows_next(157, c, 76, 81, true);
        lemma_rows_next(157, c, 81, 100, false);
        lemma_rows_next(157, c, 100, 105, true);
        lemma_rows_next(157, c, 105, 124, false);
        lemma_rows_next(157, c, 124, 129, true);
        lemma_rows_next(157, c, 129, 148, false);
        lemma_rows_next(157, c, 148, 153, true);
        lemma_rows_next(157, c, 153, 157, false);
    }
    lemma_columns_next(157, 7, 149, 153, 118);
    assert forall|c: int| 153 <= c < 157 implies rows_free(157, c, 0, 157) == 148 by {
        lemma_rows_next(157, c, 0, 9, true);
        lemma_rows_next(157, c, 9, 157, false);
    }
    lemma_columns_next(157, 7, 153, 157, 148);
}

/// Where the alignment patterns of version 36 lie.
proof fn lemma_alignment_zone_of_version_36()
    ensures
        forall|r: int, c: int|
            #[trigger] alignment_zone(36, r, c) == (((4 <= r <= 8) && ((22 <= c <= 26) || (48 <= c <= 52) || (74 <= c <= 78) || (100 <= c <= 104) || (126 <= c <= 130)))
            || (((22 <= r <= 26) || (48 <= r <= 52) || (74 <= r <= 78) || (100 <= r <= 104) || (126 <= r <= 130)) && ((4 <= c <= 8) || (22 <= c <= 26) || (48 <= c <= 52) || (74 <= c <= 78) || (100 <= c <= 104) || (126 <= c <= 130) || (152 <= c <= 156)))
            || ((152 <= r <= 156) && ((22 <= c <= 26) || (48 <= c <= 52) || (74 <= c <= 78) || (100 <= c <= 104) || (126 <= c <= 130) || (152 <= c <= 156)))),
{
    reveal_with_fuel(alignment_hit, 8);
    reveal_with_fuel(alignment_row_hit, 8);
}

/// The free cells of the columns of version 36.
proof fn lemma_columns_of_version_36()
    ensures
        columns_free(161, 0, 6) + columns_free(161, 7, 161) == 24272,
{
    lemma_alignment_zone_of_version_36();
    assert(columns_free(161, 0, 0) == 0);
    assert forall|c: int| 0 <= c < 4 implies rows_free(161, c, 0, 161) == 141 by {
        lemma_rows_next(161, c, 0, 9, true);
        lemma_rows_next(161, c, 9, 150, false);
        lemma_rows_next(161, c, 150, 161, true);
    }
    lemma_columns_next(161, 0, 0, 4, 141);
    assert forall|c: int| 4 <= c < 6 implies rows_free(161, c, 0, 161) == 116 by {
        lemma_rows_next(161, c, 0, 9, true);
        lemma_rows_next(161, c, 9, 22, false);
        lemma_rows_next(161, c, 22, 27, true);
        lemma_rows_next(161, c, 27, 48, false);
        lemma_rows_next(161, c, 48, 53, true);
        lemma_rows_next(161, c, 53, 74, false);
        lemma_rows_next(161, c, 74, 79, true);
        lemma_rows_next(161, c, 79, 100, false);
        lemma_rows_next(161, c, 100, 105, true);
        lemma_rows_next(161, c, 105, 126, false);
        lemma_rows_next(161, c, 126, 131, true);
        lemma_rows_next(161, c, 131, 150, false);
        lemma_rows_next(161, c, 150, 161, true);
    }
    lemma_columns_next(161, 0, 4, 6, 116);
    assert(columns_free(161, 7, 7) == 0);
    assert forall|c: int| 7 <= c < 9 implies rows_free(161, c, 0, 161) == 119 by {
        lemma_rows_next(161, c, 0, 9, true);
        lemma_rows_next(161, c, 9, 22, false);
        lemma_rows_next(161, c, 22, 27, true);
        lemma_rows_next(161, c, 27, 48, false);
        lemma_rows_next(161, c, 48, 53, true);
        lemma_rows_next(161, c, 53, 74, false);
        lemma_rows_next(161, c, 74, 79, true);
        lemma_rows_next(161, c, 79, 100, false);
        lemma_rows_next(161, c, 100, 105, true);
        lemma_rows_next(161, c, 105, 126, false);
        lemma_rows_next(161, c, 126, 131, true);
        lemma_rows_next(161, c, 131, 153, false);
        lemma_rows_next(161, c, 153, 161, true);
    }
    lemma_columns_next(161, 7, 7, 9, 119);
    assert forall|c: int| 9 <= c < 22 implies rows_free(161, c, 0, 161) == 160 by {
        lemma_rows_next(161, c, 0, 6, false);
        lemma_rows_next(161, c, 6, 7, true);
        lemma_rows_next(161, c, 7, 161, false);
    }
    lemma_columns_next(161, 7, 9, 22, 160);
    assert forall|c: int| 22 <= c < 27 implies rows_free(161, c, 0, 161) == 126 by {
        lemma_rows_next(161, c, 0, 4, false);
        lemma_rows_next(161, c, 4, 9, true);
        lemma_rows_next(161, c, 9, 22, false);
        lemma_rows_next(161, c, 22, 27, true);
        lemma_rows_next(161, c, 27, 48, false);
        lemma_rows_next(161, c, 48, 53, true);
        lemma_rows_next(161, c, 53, 74, false);
        lemma_rows_next(161, c, 74, 79, true);
        lemma_rows_next(161, c, 79, 100, false);
        lemma_rows_next(161, c, 100, 105, true);
        lemma_rows_next(161, c, 105, 126, false);
        lemma_rows_next(161, c, 126, 131, true);
        lemma_rows_next(161, c, 131, 152, false);
        lemma_rows_next(161, c, 152, 157, true);
        lemma_rows_next(161, c, 157, 161, false);
    }
    lemma_columns_next(161, 7, 22, 27, 126);
    assert forall|c: int| 27 <= c < 48 implies rows_free(161, c, 0, 161) == 160 by {
        lemma_rows_next(161, c, 0, 6, false);
        lemma_rows_next(161, c, 6, 7, true);
        lemma_rows_next(161, c, 7, 161, false);
    }
    lemma_columns_next(161, 7, 27, 48, 160);
    assert forall|c: int| 48 <= c < 53 implies rows_free(161, c, 0, 161) == 126 by {
        lemma_rows_next(161, c, 0, 4, false);
        lemma_rows_next(161, c, 4, 9, true);
        lemma_rows_next(161, c, 9, 22, false);
        lemma_rows_next(161, c, 22, 27, true);
        lemma_rows_next(161, c, 27, 48, false);
        lemma_rows_next(161, c, 48, 53, true);
        lemma_rows_next(161, c, 53, 74, false);
        lemma_rows_next(161, c, 74, 79, true);
        lemma_rows_next(161, c, 79, 100, false);
        lemma_rows_next(161, c, 100, 105, true);
        lemma_rows_next(161, c, 105, 126, false);
        lemma_rows_next(161, c, 126, 131, true);
        lemma_rows_next(161, c, 131, 152, false);
        lemma_rows_next(161, c, 152, 157, true);
        lemma_rows_next(161, c, 157, 161, false);
    }
    lemma_columns_next(161, 7, 48, 53, 126);
    assert forall|c: int| 53 <= c < 74 implies rows_free(161, c, 0, 161) == 160 by {
        lemma_rows_next(161, c, 0, 6, false);
        lemma_rows_next(161, c, 6, 7, true);
        lemma_rows_next(161, c, 7, 161, false);
    }
    lemma_columns_next(161, 7, 53, 74, 160);
    assert forall|c: int| 74 <= c < 79 implies rows_free(161, c, 0, 161) == 126 by {
        lemma_rows_next(161, c, 0, 4, false);
        lemma_rows_next(161, c, 4, 9, true);
        lemma_rows_next(161, c, 9, 22, false);
        lemma_rows_next(161, c, 22, 27, true);
        lemma_rows_next(161, c, 27, 48, false);
        lemma_rows_next(161, c, 48, 53, true);
        lemma_rows_next(161, c, 53, 74, false);
        lemma_rows_next(161, c, 74, 79, true);
        lemma_rows_next(161, c, 79, 100, false);
        lemma_rows_next(161, c, 100, 105, true);
        lemma_rows_next(161, c, 105, 126, false);
        lemma_rows_next(161, c, 126, 131, true);
        lemma_rows_next(161, c, 131, 152, false);
        lemma_rows_next(161, c, 152, 157, true);
        lemma_rows_next(161, c, 157, 161, false);
    }
    lemma_columns_next(161, 7, 74, 79, 126);
    assert forall|c: int| 79 <= c < 100 implies rows_free(161, c, 0, 161) == 160 by {
        lemma_rows_next(161, c, 0, 6, false);
        lemma_rows_next(161, c, 6, 7, true);
        lemma_rows_next(161, c, 7, 161, false);
    }
    lemma_columns_next(161, 7, 79, 100, 160);
    assert forall|c: int| 100 <= c < 105 implies rows_free(161, c, 0, 161) == 126 by {
        lemma_rows_next(161, c, 0, 4, false);
        lemma_rows_next(161, c, 4, 9, true);
        lemma_rows_next(161, c, 9, 22, false);
        lemma_rows_next(161, c, 22, 27, true);
        lemma_rows_next(161, c, 27, 48, false);
        lemma_rows_next(161, c, 48, 53, true);
        lemma_rows_next(161, c, 53, 74, false);
        lemma_rows_next(161, c, 74, 79, true);
        lemma_rows_next(161, c, 79, 100, false);
        lemma_rows_next(161, c, 100, 105, true);
        lemma_rows_next(161, c, 105, 126, false);
        lemma_rows_next(161, c, 126, 131, true);
        lemma_rows_next(161, c, 131, 152, false);
        lemma_rows_next(161, c, 152, 157, true);
        lemma_rows_next(161, c, 157, 161, false);
    }
    lemma_columns_next(161, 7, 100, 105, 126);
    assert forall|c: int| 105 <= c < 126 implies rows_free(161, c, 0, 161) == 160 by {
        lemma_rows_next(161, c, 0, 6, false);
        lemma_rows_next(161, c, 6, 7, true);
        lemma_rows_next(161, c, 7, 161, false);
    }
    lemma_columns_next(161, 7, 105, 126, 160);
    assert forall|c: int| 126 <= c < 131 implies rows_free(161, c, 0, 161) == 126 by {
        lemma_rows_next(161, c, 0, 4, false);
        lemma_rows_next(161, c, 4, 9, true);
        lemma_rows_next(161, c, 9, 22, false);
        lemma_rows_next(161, c, 22, 27, true);
        lemma_rows_next(161, c, 27, 48, false);
        lemma_rows_next(161, c, 48, 53, true);
        lemma_rows_next(161, c, 53, 74, false);
        lemma_rows_next(161, c, 74, 79, true);
        lemma_rows_next(161, c, 79, 100, false);
        lemma_rows_next(161, c, 100, 105, true);
        lemma_rows_next(161, c, 105, 126, false);
        lemma_rows_next(161, c, 126, 131, true);
        lemma_rows_next(161, c, 131, 152, false);
        lemma_rows_next(161, c, 152, 157, true);
        lemma_rows_next(161, c, 157, 161, false);
    }
    lemma_columns_next(161, 7, 126, 131, 126);
    assert forall|c: int| 131 <= c < 150 implies rows_free(161, c, 0, 161) == 160 by {
        lemma_rows_next(161, c, 0, 6, false);
        lemma_rows_next(161, c, 6, 7, true);
        lemma_rows_next(161, c, 7, 161, false);
    }
    lemma_columns_next(161, 7, 131, 150, 160);
    assert forall|c: int| 150 <= c < 152 implies rows_free(161, c, 0, 161) == 154 by {
        lemma_rows_next(161, c, 0, 7, true);
        lemma_rows_next(161, c, 7, 161, false);
    }
    lemma_columns_next(161, 7, 150, 152, 154);
    assert forall|c: int| 152 <= c < 153 implies rows_free(161, c, 0, 161) == 124 by {
        lemma_rows_next(161, c, 0, 7, true);
        lemma_rows_next(161, c, 7, 22, false);
        lemma_rows_next(161, c, 22, 27, true);
        lemma_rows_next(161, c, 27, 48, false);
        lemma_rows_next(161, c, 48, 53, true);
        lemma_rows_next(161, c, 53, 74, false);
        lemma_rows_next(161, c, 74, 79, true);
        lemma_rows_next(161, c, 79, 100, false);
        lemma_rows_next(161, c, 100, 105, true);
        lemma_rows_next(161, c, 105, 126, false);
        lemma_rows_next(161, c, 126, 131, true);
        lemma_rows_next(161, c, 131, 152, false);
        lemma_rows_next(161, c, 152, 157, true);
        lemma_rows_next(161, c, 157, 161, false);
    }
    lemma_columns_next(161, 7, 152, 153, 124);
    assert forall|c: int| 153 <= c < 157 implies rows_free(161, c, 0, 161) == 122 by {
        lemma_rows_next(161, c, 0, 9, true);
        lemma_rows_next(161, c, 9, 22, false);
        lemma_rows_next(161, c, 22, 27, true);
        lemma_rows_next(161, c, 27, 48, false);
        lemma_rows_next(161, c, 48, 53, true);
        lemma_rows_next(161, c, 53, 74, false);
        lemma_rows_next(161, c, 74, 79, true);
        lemma_rows_next(161, c, 79, 100, false);
        lemma_rows_next(161, c, 100, 105, true);
        lemma_rows_next(161, c, 105, 126, false);
        lemma_rows_next(161, c, 126, 131, true);
        lemma_rows_next(161, c, 131, 152, false);
        lemma_rows_next(161, c, 152, 157, true);
        lemma_rows_next(161, c, 157, 161, false);
    }
    lemma_columns_next(161, 7, 153, 157, 122);
    assert forall|c: int| 157 <= c < 161 implies rows_free(161, c, 0, 161) == 152 by {
        lemma_rows_next(161, c, 0, 9, true);
        lemma_rows_next(161, c, 9, 161, false);
    }
    lemma_columns_next(161, 7, 157, 161, 152);
}

/// Where the alignment patterns of version 37 lie.
proof fn lemma_alignment_zone_of_version_37()
    ensures
        forall|r: int, c: int|
            #[trigger] alignment_zone(37, r, c) == (((4 <= r <= 8) && ((26 <= c <= 30) || (52 <= c <= 56) || (78 <= c <= 82) || (104 <= c <= 108) || (130 <= c <= 134)))
            || (((26 <= r <= 30) || (52 <= r <= 56) || (78 <= r <= 82) || (104 <= r <= 108) || (130 <= r <= 134)) && ((4 <= c <= 8) || (26 <= c <= 30) || (52 <= c <= 56) || (78 <= c <= 82) || (104 <= c <= 108) || (130 <= c <= 134) || (156 <= c <= 160)))
            || ((156 <= r <= 160) && ((26 <= c <= 30) || (52 <= c <= 56) || (78 <= c <= 82) || (104 <= c <= 108) || (130 <= c <= 134) || (156 <= c <= 160)))),
{
    reveal_with_fuel(alignment_hit, 8);
    reveal_with_fuel(alignment_row_hit, 8);
}

/// The free cells of the columns of version 37.
proof fn lemma_columns_of_version_37()
    ensures
        columns_free(165, 0, 6) + columns_free(165, 7, 165) == 25568,
{
    lemma_alignment_zone_of_version_37();
    assert(columns_free(165, 0, 0) == 0);
    assert forall|c: int| 0 <= c < 4 implies rows_free(165, c, 0, 165) == 145 by {
        lemma_rows_next(165, c, 0, 9, true);
        lemma_rows_next(165, c, 9, 154, false);
        lemma_rows_next(165, c, 154, 165, true);
    }
    lemma_columns_next(165, 0, 0, 4, 145);
    assert forall|c: int| 4 <= c < 6 implies rows_free(165, c, 0, 165) == 120 by {
        lemma_rows_next(165, c, 0, 9, true);
        lemma_rows_next(165, c, 9, 26, false);
        lemma_rows_next(165, c, 26, 31, true);
        lemma_rows_next(165, c, 31, 52, false);
        lemma_rows_next(165, c, 52, 57, true);
        lemma_rows_next(165, c, 57, 78, false);
        lemma_rows_next(165, c, 78, 83, true);
        lemma_rows_next(165, c, 83, 104, false);
        lemma_rows_next(165, c, 104, 109, true);
        lemma_rows_next(165, c, 109, 130, false);
        lemma_rows_next(165, c, 130, 135, true);
        lemma_rows_next(165, c, 135, 154, false);
        lemma_rows_next(165, c, 154, 165, true);
    }
    lemma_columns_next(165, 0, 4, 6, 120);
    assert(columns_free(165, 7, 7) == 0);
    assert forall|c: int| 7 <= c < 9 implies rows_free(165, c, 0, 165) == 123 by {
        lemma_rows_next(165, c, 0, 9, true);
        lemma_rows_next(165, c, 9, 26, false);
        lemma_rows_next(165, c, 26, 31, true);
        lemma_rows_next(165, c, 31, 52, false);
        lemma_rows_next(165, c, 52, 57, true);
        lemma_rows_next(165, c, 57, 78, false);
        lemma_rows_next(165, c, 78, 83, true);
        lemma_rows_next(165, c, 83, 104, false);
        lemma_rows_next(165, c, 104, 109, true);
        lemma_rows_next(165, c, 109, 130, false);
        lemma_rows_next(165, c, 130, 135, true);
        lemma_rows_next(165, c, 135, 157, false);
        lemma_rows_next(165, c, 157, 165, true);
    }
    lemma_columns_next(165, 7, 7, 9, 123);
    assert forall|c: int| 9 <= c < 26 implies rows_free(165, c, 0, 165) == 164 by {
        lemma_rows_next(165, c, 0, 6, false);
        lemma_rows_next(165, c, 6, 7, true);
        lemma_rows_next(165, c, 7, 165, false);
    }
    lemma_columns_next(165, 7, 9, 26, 164);
    assert forall|c: int| 26 <= c < 31 implies rows_free(165, c, 0, 165) == 130 by {
        lemma_rows_next(165, c, 0, 4, false);
        lemma_rows_next(165, c, 4, 9, true);
        lemma_rows_next(165, c, 9, 26, false);
        lemma_rows_next(165, c, 26, 31, true);
        lemma_rows_next(165, c, 31, 52, false);
        lemma_rows_next(165, c, 52, 57, true);
        lemma_rows_next(165, c, 57, 78, false);
        lemma_rows_next(165, c, 78, 83, true);
        lemma_rows_next(165, c, 83, 104, false);
        lemma_rows_next(165, c, 104, 109, true);
        lemma_rows_next(165, c, 109, 130, false);
        lemma_rows_next(165, c, 130, 135, true);
        lemma_rows_next(165, c, 135, 156, false);
        lemma_rows_next(165, c, 156, 161, true);
        lemma_rows_next(165, c, 161, 165, false);
    }
    lemma_columns_next(165, 7, 26, 31, 130);
    assert forall|c: int| 31 <= c < 52 implies rows_free(165, c, 0, 165) == 164 by {
        lemma_rows_next(165, c, 0, 6, false);
        lemma_rows_next(165, c, 6, 7, true);
        lemma_rows_next(165, c, 7, 165, false);
    }
    lemma_columns_next(165, 7, 31, 52, 164);
    assert forall|c: int| 52 <= c < 57 implies rows_free(165, c, 0, 165) == 130 by {
        lemma_rows_next(165, c, 0, 4, false);
        lemma_rows_next(165, c, 4, 9, true);
        lemma_rows_next(165, c, 9, 26, false);
        lemma_rows_next(165, c, 26, 31, true);
        lemma_rows_next(165, c, 31, 52, false);
        lemma_rows_next(165, c, 52, 57, true);
        lemma_rows_next(165, c, 57, 78, false);
        lemma_rows_next(165, c, 78, 83, true);
        lemma_rows_next(165, c, 83, 104, false);
        lemma_rows_next(165, c, 104, 109, true);
        lemma_rows_next(165, c, 109, 130, false);
        lemma_rows_next(165, c, 130, 135, true);
        lemma_rows_next(165, c, 135, 156, false);
        lemma_rows_next(165, c, 156, 161, true);
        lemma_rows_next(165, c, 161, 165, false);
    }
    lemma_columns_next(165, 7, 52, 57, 130);
    assert forall|c: int| 57 <= c < 78 implies rows_free(165, c, 0, 165) == 164 by {
        lemma_rows_next(165, c, 0, 6, false);
        lemma_rows_next(165, c, 6, 7, true);
        lemma_rows_next(165, c, 7, 165, false);
    }
    lemma_columns_next(165, 7, 57, 78, 164);
    assert forall|c: int| 78 <= c < 83 implies rows_free(165, c, 0, 165) == 130 by {
        lemma_rows_next(165, c, 0, 4, false);
        lemma_rows_next(165, c, 4, 9, true);
        lemma_rows_next(165, c, 9, 26, false);
        lemma_rows_next(165, c, 26, 31, true);
        lemma_rows_next(165, c, 31, 52, false);
        lemma_rows_next(165, c, 52, 57, true);
        lemma_rows_next(165, c, 57, 78, false);
        lemma_rows_next(165, c, 78, 83, true);
        lemma_rows_next(165, c, 83, 104, false);
        lemma_rows_next(165, c, 104, 109, true);
        lemma_rows_next(165, c, 109, 130, false);
        lemma_rows_next(165, c, 130, 135, true);
        lemma_rows_next(165, c, 135, 156, false);
        lemma_rows_next(165, c, 156, 161, true);
        lemma_rows_next(165, c, 161, 165, false);
    }
    lemma_columns_next(165, 7, 78, 83, 130);
    assert forall|c: int| 83 <= c < 104 implies rows_free(165, c, 0, 165) == 164 by {
        lemma_rows_next(165, c, 0, 6, false);
        lemma_rows_next(165, c, 6, 7, true);
        lemma_rows_next(165, c, 7, 165, false);
    }
    lemma_columns_next(165, 7, 83, 104, 164);
    assert forall|c: int| 104 <= c < 109 implies rows_free(165, c, 0, 165) == 130 by {
        lemma_rows_next(165, c, 0, 4, false);
        lemma_rows_next(165, c, 4, 9, true);
        lemma_rows_next(165, c, 9, 26, false);
        lemma_rows_next(165, c, 26, 31, true);
        lemma_rows_next(165, c, 31, 52, false);
        lemma_rows_next(165, c, 52, 57, true);
        lemma_rows_next(165, c, 57, 78, false);
        lemma_rows_next(165, c, 78, 83, true);
        lemma_rows_next(165, c, 83, 104, false);
        lemma_rows_next(165, c, 104, 109, true);
        lemma_rows_next(165, c, 109, 130, false);
        lemma_rows_next(165, c, 130, 135, true);
        lemma_rows_next(165, c, 135, 156, false);
        lemma_rows_next(165, c, 156, 161, true);
        lemma_rows_next(165, c, 161, 165, false);
    }
    lemma_columns_next(165, 7, 104, 109, 130);
    assert forall|c: int| 109 <= c < 130 implies rows_free(165, c, 0, 165) == 164 by {
        lemma_rows_next(165, c, 0, 6, false);
        lemma_rows_next(165, c, 6, 7, true);
        lemma_rows_next(165, c, 7, 165, false);
    }
    lemma_columns_next(165, 7, 109, 130, 164);
    assert forall|c: int| 130 <= c < 135 implies rows_free(165, c, 0, 165) == 130 by {
        lemma_rows_next(165, c, 0, 4, false);
        lemma_rows_next(165, c, 4, 9, true);
        lemma_rows_next(165, c, 9, 26, false);
        lemma_rows_next(165, c, 26, 31, true);
        lemma_rows_next(165, c, 31, 52, false);
        lemma_rows_next(165, c, 52, 57, true);
        lemma_rows_next(165, c, 57, 78, false);
        lemma_rows_next(165, c, 78, 83, true);
        lemma_rows_next(165, c, 83, 104, false);
        lemma_rows_next(165, c, 104, 109, true);
        lemma_rows_next(165, c, 109, 130, false);
        lemma_rows_next(165, c, 130, 135, true);
        lemma_rows_next(165, c, 135, 156, false);
        lemma_rows_next(165, c, 156, 161, true);
        lemma_rows_next(165, c, 161, 165, false);
    }
    lemma_columns_next(165, 7, 130, 135, 130);
    assert forall|c: int| 135 <= c < 154 implies rows_free(165, c, 0, 165) == 164 by {
        lemma_rows_next(165, c, 0, 6, false);
        lemma_rows_next(165, c, 6, 7, true);
        lemma_rows_next(165, c, 7, 165, false);
    }
    lemma_columns_next(165, 7, 135, 154, 164);
    assert forall|c: int| 154 <= c < 156 implies rows_free(165, c, 0, 165) == 158 by {
        lemma_rows_next(165, c, 0, 7, true);
        lemma_rows_next(165, c, 7, 165, false);
    }
    lemma_columns_next(165, 7, 154, 156, 158);
    assert forall|c: int| 156 <= c < 157 implies rows_free(165, c, 0, 165) == 128 by {
        lemma_rows_next(165, c, 0, 7, true);
        lemma_rows_next(165, c, 7, 26, false);
        lemma_rows_next(165, c, 26, 31, true);
        lemma_rows_next(165, c, 31, 52, false);
        lemma_rows_next(165, c, 52, 57, true);
        lemma_rows_next(165, c, 57, 78, false);
        lemma_rows_next(165, c, 78, 83, true);
        lemma_rows_next(165, c, 83, 104, false);
        lemma_rows_next(165, c, 104, 109, true);
        lemma_rows_next(165, c, 109, 130, false);
        lemma_rows_next(165, c, 130, 135, true);
        lemma_rows_next(165, c, 135, 156, false);
        lemma_rows_next(165, c, 156, 161, true);
        lemma_rows_next(165, c, 161, 165, false);
    }
    lemma_columns_next(165, 7, 156, 157, 128);
    assert forall|c: int| 157 <= c < 161 implies rows_free(165, c, 0, 165) == 126 by {
        lemma_rows_next(165, c, 0, 9, true);
        lemma_rows_next(165, c, 9, 26, false);
        lemma_rows_next(165, c, 26, 31, true);
        lemma_rows_next(165, c, 31, 52, false);
        lemma_rows_next(165, c, 52, 57, true);
        lemma_rows_next(165, c, 57, 78, false);
        lemma_rows_next(165, c, 78, 83, true);
        lemma_rows_next(165, c, 83, 104, false);
        lemma_rows_next(165, c, 104, 109, true);
        lemma_rows_next(165, c, 109, 130, false);
        lemma_rows_next(165, c, 130, 135, true);
        lemma_rows_next(165, c, 135, 156, false);
        lemma_rows_next(165, c, 156, 161, true);
        lemma_rows_next(165, c, 161, 165, false);
    }
    lemma_columns_next(165, 7, 157, 161, 126);
    assert forall|c: int| 161 <= c < 165 implies rows_free(165, c, 0, 165) == 156 by {
        lemma_rows_next(165, c, 0, 9, true);
        lemma_rows_next(165, c, 9, 165, false);
    }
    lemma_columns_next(165, 7, 161, 165, 156);
}

/// Where the alignment patterns of version 38 lie.
proof fn lemma_alignment_zone_of_version_38()
    ensures
        forall|r: int, c: int|
            #[trigger] alignment_zone(38, r, c) == (((4 <= r <= 8) && ((30 <= c <= 34) || (56 <= c <= 60) || (82 <= c <= 86) || (108 <= c <= 112) || (134 <= c <= 138)))
            || (((30 <= r <= 34) || (56 <= r <= 60) || (82 <= r <= 86) || (108 <= r <= 112) || (134 <= r <= 138)) && ((4 <= c <= 8) || (30 <= c <= 34) || (56 <= c <= 60) || (82 <= c <= 86) || (108 <= c <= 112) || (134 <= c <= 138) || (160 <= c <= 164)))
            || ((160 <= r <= 164) && ((30 <= c <= 34) || (56 <= c <= 60) || (82 <= c <= 86) || (108 <= c <= 112) || (134 <= c <= 138) || (160 <= c <= 164)))),
{
    reveal_with_fuel(alignment_hit, 8);
    reveal_with_fuel(alignment_row_hit, 8);
}

/// The free cells of the columns of version 38.
proof fn lemma_columns_of_version_38()
    ensures
        columns_free(169, 0, 6) + columns_free(169, 7, 169) == 26896,
{
    lemma_alignment_zone_of_version_38();
    assert(columns_free(169, 0, 0) == 0);
    assert forall|c: int| 0 <= c < 4 implies rows_free(169, c, 0, 169) == 149 by {
        lemma_rows_next(169, c, 0, 9, true);
        lemma_rows_next(169, c, 9, 158, false);
        lemma_rows_next(169, c, 158, 169, true);
    }
    lemma_columns_next(169, 0, 0, 4, 149);
    assert forall|c: int| 4 <= c < 6 implies rows_free(169, c, 0, 169) == 124 by {
        lemma_rows_next(169, c, 0, 9, true);
        lemma_rows_next(169, c, 9, 30, false);
        lemma_rows_next(169, c, 30, 35, true);
        lemma_rows_next(169, c, 35, 56, false);
        lemma_rows_next(169, c, 56, 61, true);
        lemma_rows_next(169, c, 61, 82, false);
        lemma_rows_next(169, c, 82, 87, true);
        lemma_rows_next(169, c, 87, 108, false);
        lemma_rows_next(169, c, 108, 113, true);
        lemma_rows_next(169, c, 113, 134, false);
        lemma_rows_next(169, c, 134, 139, true);
        lemma_rows_next(169, c, 139, 158, false);
        lemma_rows_next(169, c, 158, 169, true);
    }
    lemma_columns_next(169, 0, 4, 6, 124);
    assert(columns_free(169, 7, 7) == 0);
    assert forall|c: int| 7 <= c < 9 implies rows_free(169, c, 0, 169) == 127 by {
        lemma_rows_next(169, c, 0, 9, true);
        lemma_rows_next(169, c, 9, 30, false);
        lemma_rows_next(169, c, 30, 35, true);
        lemma_rows_next(169, c, 35, 56, false);
        lemma_rows_next(169, c, 56, 61, true);
        lemma_rows_next(169, c, 61, 82, false);
        lemma_rows_next(169, c, 82, 87, true);
        lemma_rows_next(169, c, 87, 108, false);
        lemma_rows_next(169, c, 108, 113, true);
        lemma_rows_next(169, c, 113, 134, false);
        lemma_rows_next(169, c, 134, 139, true);
        lemma_rows_next(169, c, 139, 161, false);
        lemma_rows_next(169, c, 161, 169, true);
    }
    lemma_columns_next(169, 7, 7, 9, 127);
    assert forall|c: int| 9 <= c < 30 implies rows_free(169, c, 0, 169) == 168 by {
        lemma_rows_next(169, c, 0, 6, false);
        lemma_rows_next(169, c, 6, 7, true);
        lemma_rows_next(169, c, 7, 169, false);
    }
    lemma_columns_next(169, 7, 9, 30, 168);
    assert forall|c: int| 30 <= c < 35 implies rows_free(169, c, 0, 169) == 134 by {
        lemma_rows_next(169, c, 0, 4, false);
        lemma_rows_next(169, c, 4, 9, true);
        lemma_rows_next(169, c, 9, 30, false);
        lemma_rows_next(169, c, 30, 35, true);
        lemma_rows_next(169, c, 35, 56, false);
        lemma_rows_next(169, c, 56, 61, true);
        lemma_rows_next(169, c, 61, 82, false);
        lemma_rows_next(169, c, 82, 87, true);
        lemma_rows_next(169, c, 87, 108, false);
        lemma_rows_next(169, c, 108, 113, true);
        lemma_rows_next(169, c, 113, 134, false);
        lemma_rows_next(169, c, 134, 139, true);
        lemma_rows_next(169, c, 139, 160, false);
        lemma_rows_next(169, c, 160, 165, true);
        lemma_rows_next(169, c, 165, 169, false);
    }
    lemma_columns_next(169, 7, 30, 35, 134);
    assert forall|c: int| 35 <= c < 56 implies rows_free(169, c, 0, 169) == 168 by {
        lemma_rows_next(169, c, 0, 6, false);
        lemma_rows_next(169, c, 6, 7, true);
        lemma_rows_next(169, c, 7, 169, false);
    }
    lemma_columns_next(169, 7, 35, 56, 168);
    assert forall|c: int| 56 <= c < 61 implies rows_free(169, c, 0, 169) == 134 by {
        lemma_rows_next(169, c, 0, 4, false);
        lemma_rows_next(169, c, 4, 9, true);
        lemma_rows_next(169, c, 9, 30, false);
        lemma_rows_next(169, c, 30, 35, true);
        lemma_rows_next(169, c, 35, 56, false);
        lemma_rows_next(169, c, 56, 61, true);
        lemma_rows_next(169, c, 61, 82, false);
        lemma_rows_next(169, c, 82, 87, true);
        lemma_rows_next(169, c, 87, 108, false);
        lemma_rows_next(169, c, 108, 113, true);
        lemma_rows_next(169, c, 113, 134, false);
        lemma_rows_next(169, c, 134, 139, true);
        lemma_rows_next(169, c, 139, 160, false);
        lemma_rows_next(169, c, 160, 165, true);
        lemma_rows_next(169, c, 165, 169, false);
    }
    lemma_columns_next(169, 7, 56, 61, 134);
    assert forall|c: int| 61 <= c < 82 implies rows_free(169, c, 0, 169) == 168 by {
        lemma_rows_next(169, c, 0, 6, false);
        lemma_rows_next(169, c, 6, 7, true);
        lemma_rows_next(169, c, 7, 169, false);
    }
    lemma_columns_next(169, 7, 61, 82, 168);
    assert forall|c: int| 82 <= c < 87 implies rows_free(169, c, 0, 169) == 134 by {
        lemma_rows_next(169, c, 0, 4, false);
        lemma_rows_next(169, c, 4, 9, true);
        lemma_rows_next(169, c, 9, 30, false);
        lemma_rows_next(169, c, 30, 35, true);
        lemma_rows_next(169, c, 35, 56, false);
        lemma_rows_next(169, c, 56, 61, true);
        lemma_rows_next(169, c, 61, 82, false);
        lemma_rows_next(169, c, 82, 87, true);
        lemma_rows_next(169, c, 87, 108, false);
        lemma_rows_next(169, c, 108, 113, true);
        lemma_rows_next(169, c, 113, 134, false);
        lemma_rows_next(169, c, 134, 139, true);
        lemma_rows_next(169, c, 139, 160, false);
        lemma_rows_next(169, c, 160, 165, true);
        lemma_rows_next(169, c, 165, 169, false);
    }
    lemma_columns_next(169, 7, 82, 87, 134);
    assert forall|c: int| 87 <= c < 108 implies rows_free(169, c, 0, 169) == 168 by {
        lemma_rows_next(169, c, 0, 6, false);
        lemma_rows_next(169, c, 6, 7, true);
        lemma_rows_next(169, c, 7, 169, false);
    }
    lemma_columns_next(169, 7, 87, 108, 168);
    assert forall|c: int| 108 <= c < 113 implies rows_free(169, c, 0, 169) == 134 by {
        lemma_rows_next(169, c, 0, 4, false);
        lemma_rows_next(169, c, 4, 9, true);
        lemma_rows_next(169, c, 9, 30, false);
        lemma_rows_next(169, c, 30, 35, true);
        lemma_rows_next(169, c, 35, 56, false);
        lemma_rows_next(169, c, 56, 61, true);
        lemma_rows_next(169, c, 61, 82, false);
        lemma_rows_next(169, c, 82, 87, true);
        lemma_rows_next(169, c, 87, 108, false);
        lemma_rows_next(169, c, 108, 113, true);
        lemma_rows_next(169, c, 113, 134, false);
        lemma_rows_next(169, c, 134, 139, true);
        lemma_rows_next(169, c, 139, 160, false);
        lemma_rows_next(169, c, 160, 165, true);
        lemma_rows_next(169, c, 165, 169, false);
    }
    lemma_columns_next(169, 7, 108, 113, 134);
    assert forall|c: int| 113 <= c < 134 implies rows_free(169, c, 0, 169) == 168 by {
        lemma_rows_next(169, c, 0, 6, false);
        lemma_rows_next(169, c, 6, 7, true);
        lemma_rows_next(169, c, 7, 169, false);
    }
    lemma_columns_next(169, 7, 113, 134, 168);
    assert forall|c: int| 134 <= c < 139 implies rows_free(169, c, 0, 169) == 134 by {
        lemma_rows_next(169, c, 0, 4, false);
        lemma_rows_next(169, c, 4, 9, true);
        lemma_rows_next(169, c, 9, 30, false);
        lemma_rows_next(169, c, 30, 35, true);
        lemma_rows_next(169, c, 35, 56, false);
        lemma_rows_next(169, c, 56, 61, true);
        lemma_rows_next(169, c, 61, 82, false);
        lemma_rows_next(169, c, 82, 87, true);
        lemma_rows_next(169, c, 87, 108, false);
        lemma_rows_next(169, c, 108, 113, true);
        lemma_rows_next(169, c, 113, 134, false);
        lemma_rows_next(169, c, 134, 139, true);
        lemma_rows_next(169, c, 139, 160, false);
        lemma_rows_next(169, c, 160, 165, true);
        lemma_rows_next(169, c, 165, 169, false);
    }
    lemma_columns_next(169, 7, 134, 139, 134);
    assert forall|c: int| 139 <= c < 158 implies rows_free(169, c, 0, 169) == 168 by {
        lemma_rows_next(169, c, 0, 6, false);
        lemma_rows_next(169, c, 6, 7, true);
        lemma_rows_next(169, c, 7, 169, false);
    }
    lemma_columns_next(169, 7, 139, 158, 168);
    assert forall|c: int| 158 <= c < 160 implies rows_free(169, c, 0, 169) == 162 by {
        lemma_rows_next(169, c, 0, 7, true);
        lemma_rows_next(169, c, 7, 169, false);
    }
    lemma_columns_next(169, 7, 158, 160, 162);
    assert forall|c: int| 160 <= c < 161 implies rows_free(169, c, 0, 169) == 132 by {
        lemma_rows_next(169, c, 0, 7, true);
        lemma_rows_next(169, c, 7, 30, false);
        lemma_rows_next(169, c, 30, 35, true);
        lemma_rows_next(169, c, 35, 56, false);
        lemma_rows_next(169, c, 56, 61, true);
        lemma_rows_next(169, c, 61, 82, false);
        lemma_rows_next(169, c, 82, 87, true);
        lemma_rows_next(169, c, 87, 108, false);
        lemma_rows_next(169, c, 108, 113, true);
        lemma_rows_next(169, c, 113, 134, false);
        lemma_rows_next(169, c, 134, 139, true);
        lemma_rows_next(169, c, 139, 160, false);
        lemma_rows_next(169, c, 160, 165, true);
        lemma_rows_next(169, c, 165, 169, false);
    }
    lemma_columns_next(169, 7, 160, 161, 132);
    assert forall|c: int| 161 <= c < 165 implies rows_free(169, c, 0, 169) == 130 by {
        lemma_rows_next(169, c, 0, 9, true);
        lemma_rows_next(169, c, 9, 30, false);
        lemma_rows_next(169, c, 30, 35, true);
        lemma_rows_next(169, c, 35, 56, false);
        lemma_rows_next(169, c, 56, 61, true);
        lemma_rows_next(169, c, 61, 82, false);
        lemma_rows_next(169, c, 82, 87, true);
        lemma_rows_next(169, c, 87, 108, false);
        lemma_rows_next(169, c, 108, 113, true);
        lemma_rows_next(169, c, 113, 134, false);
        lemma_rows_next(169, c, 134, 139, true);
        lemma_rows_next(169, c, 139, 160, false);
        lemma_rows_next(169, c, 160, 165, true);
        lemma_rows_next(169, c, 165, 169, false);
    }
    lemma_columns_next(169, 7, 161, 165, 130);
    assert forall|c: int| 165 <= c < 169 implies rows_free(169, c, 0, 169) == 160 by {
        lemma_rows_next(169, c, 0, 9, true);
        lemma_rows_next(169, c, 9, 169, false);
    }
    lemma_columns_next(169, 7, 165, 169, 160);
}

/// Where the alignment patterns of version 39 lie.
proof fn lemma_alignment_zone_of_version_39()
    ensures
        forall|r: int, c: int|
            #[trigger] alignment_zone(39, r, c) == (((4 <= r <= 8) && ((24 <= c <= 28) || (52 <= c <= 56) || (80 <= c <= 84) || (108 <= c <= 112) || (136 <= c <= 140)))
            || (((24 <= r <= 28) || (52 <= r <= 56) || (80 <= r <= 84) || (108 <= r <= 112) || (136 <= r <= 140)) && ((4 <= c <= 8) || (24 <= c <= 28) || (52 <= c <= 56) || (80 <= c <= 84) || (108 <= c <= 112) || (136 <= c <= 140) || (164 <= c <= 168)))
            || ((164 <= r <= 168) && ((24 <= c <= 28) || (52 <= c <= 56) || (80 <= c <= 84) || (108 <= c <= 112) || (136 <= c <= 140) || (164 <= c <= 168)))),
{
    reveal_with_fuel(alignment_hit, 8);
    reveal_with_fuel(alignment_row_hit, 8);
}

/// The free cells of the columns of version 39.
proof fn lemma_columns_of_version_39()
    ensures
        columns_free(173, 0, 6) + columns_free(173, 7, 173) == 28256,
{
    lemma_alignment_zone_of_version_39();
    assert(columns_free(173, 0, 0) == 0);
    assert forall|c: int| 0 <= c < 4 implies rows_free(173, c, 0, 173) == 153 by {
        lemma_rows_next(173, c, 0, 9, true);
        lemma_rows_next(173, c, 9, 162, false);
        lemma_rows_next(173, c, 162, 173, true);
    }
    lemma_columns_next(173, 0, 0, 4, 153);
    assert forall|c: int| 4 <= c < 6 implies rows_free(173, c, 0, 173) == 128 by {
        lemma_rows_next(173, c, 0, 9, true);
        lemma_rows_next(173, c, 9, 24, false);
        lemma_rows_next(173, c, 24, 29, true);
        lemma_rows_next(173, c, 29, 52, false);
        lemma_rows_next(173, c, 52, 57, true);
        lemma_rows_next(173, c, 57, 80, false);
        lemma_rows_next(173, c, 80, 85, true);
        lemma_rows_next(173, c, 85, 108, false);
        lemma_rows_next(173, c, 108, 113, true);
        lemma_rows_next(173, c, 113, 136, false);
        lemma_rows_next(173, c, 136, 141, true);
        lemma_rows_next(173, c, 141, 162, false);
        lemma_rows_next(173, c, 162, 173, true);
    }
    lemma_columns_next(173, 0, 4, 6, 128);
    assert(columns_free(173, 7, 7) == 0);
    assert forall|c: int| 7 <= c < 9 implies rows_free(173, c, 0, 173) == 131 by {
        lemma_rows_next(173, c, 0, 9, true);
        lemma_rows_next(173, c, 9, 24, false);
        lemma_rows_next(173, c, 24, 29, true);
        lemma_rows_next(173, c, 29, 52, false);
        lemma_rows_next(173, c, 52, 57, true);
        lemma_rows_next(173, c, 57, 80, false);
        lemma_rows_next(173, c, 80, 85, true);
        lemma_rows_next(173, c, 85, 108, false);
        lemma_rows_next(173, c, 108, 113, true);
        lemma_rows_next(173, c, 113, 136, false);
        lemma_rows_next(173, c, 136, 141, true);
        lemma_rows_next(173, c, 141, 165, false);
        lemma_rows_next(173, c, 165, 173, true);
    }
    lemma_columns_next(173, 7, 7, 9, 131);
    assert forall|c: int| 9 <= c < 24 implies rows_free(173, c, 0, 173) == 172 by {
        lemma_rows_next(173, c, 0, 6, false);
        lemma_rows_next(173, c, 6, 7, true);
        lemma_rows_next(173, c, 7, 173, false);
    }
    lemma_columns_next(173, 7, 9, 24, 172);
    assert forall|c: int| 24 <= c < 29 implies rows_free(173, c, 0, 173) == 138 by {
        lemma_rows_next(173, c, 0, 4, false);
        lemma_rows_next(173, c, 4, 9, true);
        lemma_rows_next(173, c, 9, 24, false);
        lemma_rows_next(173, c, 24, 29, true);
        lemma_rows_next(173, c, 29, 52, false);
        lemma_rows_next(173, c, 52, 57, true);
        lemma_rows_next(173, c, 57, 80, false);
        lemma_rows_next(173, c, 80, 85, true);
        lemma_rows_next(173, c, 85, 108, false);
        lemma_rows_next(173, c, 108, 113, true);
        lemma_rows_next(173, c, 113, 136, false);
        lemma_rows_next(173, c, 136, 141, true);
        lemma_rows_next(173, c, 141, 164, false);
        lemma_rows_next(173, c, 164, 169, true);
        lemma_rows_next(173, c, 169, 173, false);
    }
    lemma_columns_next(173, 7, 24, 29, 138);
    assert forall|c: int| 29 <= c < 52 implies rows_free(173, c, 0, 173) == 172 by {
        lemma_rows_next(173, c, 0, 6, false);
        lemma_rows_next(173, c, 6, 7, true);
        lemma_rows_next(173, c, 7, 173, false);
    }
    lemma_columns_next(173, 7, 29, 52, 172);
    assert forall|c: int| 52 <= c < 57 implies rows_free(173, c, 0, 173) == 138 by {
        lemma_rows_next(173, c, 0, 4, false);
        lemma_rows_next(173, c, 4, 9, true);
        lemma_rows_next(173, c, 9, 24, false);
        lemma_rows_next(173, c, 24, 29, true);
        lemma_rows_next(173, c, 29, 52, false);
        lemma_rows_next(173, c, 52, 57, true);
        lemma_rows_next(173, c, 57, 80, false);
        lemma_rows_next(173, c, 80, 85, true);
        lemma_rows_next(173, c, 85, 108, false);
        lemma_rows_next(173, c, 108, 113, true);
        lemma_rows_next(173, c, 113, 136, false);
        lemma_rows_next(173, c, 136, 141, true);
        lemma_rows_next(173, c, 141, 164, false);
        lemma_rows_next(173, c, 164, 169, true);
        lemma_rows_next(173, c, 169, 173, false);
    }
    lemma_columns_next(173, 7, 52, 57, 138);
    assert forall|c: int| 57 <= c < 80 implies rows_free(173, c, 0, 173) == 172 by {
        lemma_rows_next(173, c, 0, 6, false);
        lemma_rows_next(173, c, 6, 7, true);
        lemma_rows_next(173, c, 7, 173, false);
    }
    lemma_columns_next(173, 7, 57, 80, 172);
    assert forall|c: int| 80 <= c < 85 implies rows_free(173, c, 0, 173) == 138 by {
        lemma_rows_next(173, c, 0, 4, false);
        lemma_rows_next(173, c, 4, 9, true);
        lemma_rows_next(173, c, 9, 24, false);
        lemma_rows_next(173, c, 24, 29, true);
        lemma_rows_next(173, c, 29, 52, false);
        lemma_rows_next(173, c, 52, 57, true);
        lemma_rows_next(173, c, 57, 80, false);
        lemma_rows_next(173, c, 80, 85, true);
        lemma_rows_next(173, c, 85, 108, false);
        lemma_rows_next(173, c, 108, 113, true);
        lemma_rows_next(173, c, 113, 136, false);
        lemma_rows_next(173, c, 136, 141, true);
        lemma_rows_next(173, c, 141, 164, false);
        lemma_rows_next(173, c, 164, 169, true);
        lemma_rows_next(173, c, 169, 173, false);
    }
    lemma_columns_next(173, 7, 80, 85, 138);
    assert forall|c: int| 85 <= c < 108 implies rows_free(173, c, 0, 173) == 172 by {
        lemma_rows_next(173, c, 0, 6, false);
        lemma_rows_next(173, c, 6, 7, true);
        lemma_rows_next(173, c, 7, 173, false);
    }
    lemma_columns_next(173, 7, 85, 108, 172);
    assert forall|c: int| 108 <= c < 113 implies rows_free(173, c, 0, 173) == 138 by {
        lemma_rows_next(173, c, 0, 4, false);
        lemma_rows_next(173, c, 4, 9, true);
        lemma_rows_next(173, c, 9, 24, false);
        lemma_rows_next(173, c, 24, 29, true);
        lemma_rows_next(173, c, 29, 52, false);
        lemma_rows_next(173, c, 52, 57, true);
        lemma_rows_next(173, c, 57, 80, false);
        lemma_rows_next(173, c, 80, 85, true);
        lemma_rows_next(173, c, 85, 108, false);
        lemma_rows_next(173, c, 108, 113, true);
        lemma_rows_next(173, c, 113, 136, false);
        lemma_rows_next(173, c, 136, 141, true);
        lemma_rows_next(173, c, 141, 164, false);
        lemma_rows_next(173, c, 164, 169, true);
        lemma_rows_next(173, c, 169, 173, false);
    }
    lemma_columns_next(173, 7, 108, 113, 138);
    assert forall|c: int| 113 <= c < 136 implies rows_free(173, c, 0, 173) == 172 by {
        lemma_rows_next(173, c, 0, 6, false);
        lemma_rows_next(173, c, 6, 7, true);
        lemma_rows_next(173, c, 7, 173, false);
    }
    lemma_columns_next(173, 7, 113, 136, 172);
    assert forall|c: int| 136 <= c < 141 implies rows_free(173, c, 0, 173) == 138 by {
        lemma_rows_next(173, c, 0, 4, false);
        lemma_rows_next(173, c, 4, 9, true);
        lemma_rows_next(173, c, 9, 24, false);
        lemma_rows_next(173, c, 24, 29, true);
        lemma_rows_next(173, c, 29, 52, false);
        lemma_rows_next(173, c, 52, 57, true);
        lemma_rows_next(173, c, 57, 80, false);
        lemma_rows_next(173, c, 80, 85, true);
        lemma_rows_next(173, c, 85, 108, false);
        lemma_rows_next(173, c, 108, 113, true);
        lemma_rows_next(173, c, 113, 136, false);
        lemma_rows_next(173, c, 136, 141, true);
        lemma_rows_next(173, c, 141, 164, false);
        lemma_rows_next(173, c, 164, 169, true);
        lemma_rows_next(173, c, 169, 173, false);
    }
    lemma_columns_next(173, 7, 136, 141, 138);
    assert forall|c: int| 141 <= c < 162 implies rows_free(173, c, 0, 173) == 172 by {
        lemma_rows_next(173, c, 0, 6, false);
        lemma_rows_next(173, c, 6, 7, true);
        lemma_rows_next(173, c, 7, 173, false);
    }
    lemma_columns_next(173, 7, 141, 162, 172);
    assert forall|c: int| 162 <= c < 164 implies rows_free(173, c, 0, 173) == 166 by {
        lemma_rows_next(173, c, 0, 7, true);
        lemma_rows_next(173, c, 7, 173, false);
    }
    lemma_columns_next(173, 7, 162, 164, 166);
    assert forall|c: int| 164 <= c < 165 implies rows_free(173, c, 0, 173) == 136 by {
        lemma_rows_next(173, c, 0, 7, true);
        lemma_rows_next(173, c, 7, 24, false);
        lemma_rows_next(173, c, 24, 29, true);
        lemma_rows_next(173, c, 29, 52, false);
        lemma_rows_next(173, c, 52, 57, true);
        lemma_rows_next(173, c, 57, 80, false);
        lemma_rows_next(173, c, 80, 85, true);
        lemma_rows_next(173, c, 85, 108, false);
        lemma_rows_next(173, c, 108, 113, true);
        lemma_rows_next(173, c, 113, 136, false);
        lemma_rows_next(173, c, 136, 141, true);
        lemma_rows_next(173, c, 141, 164, false);
        lemma_rows_next(173, c, 164, 169, true);
        lemma_rows_next(173, c, 169, 173, false);
    }
    lemma_columns_next(173, 7, 164, 165, 136);
    assert forall|c: int| 165 <= c < 169 implies rows_free(173, c, 0, 173) == 134 by {
        lemma_rows_next(173, c, 0, 9, true);
        lemma_rows_next(173, c, 9, 24, false);
        lemma_rows_next(173, c, 24, 29, true);
        lemma_rows_next(173, c, 29, 52, false);
        lemma_rows_next(173, c, 52, 57, true);
        lemma_rows_next(173, c, 57, 80, false);
        lemma_rows_next(173, c, 80, 85, true);
        lemma_rows_next(173, c, 85, 108, false);
        lemma_rows_next(173, c, 108, 113, true);
        lemma_rows_next(173, c, 113, 136, false);
        lemma_rows_next(173, c, 136, 141, true);
        lemma_rows_next(173, c, 141, 164, false);
        lemma_rows_next(173, c, 164, 169, true);
        lemma_rows_next(173, c, 169, 173, false);
    }
    lemma_columns_next(173, 7, 165, 169, 134);
    assert forall|c: int| 169 <= c < 173 implies rows_free(173, c, 0, 173) == 164 by {
        lemma_rows_next(173, c, 0, 9, true);
        lemma_rows_next(173, c, 9, 173, false);
    }
    lemma_columns_next(173, 7, 169, 173, 164);
}

/// Where the alignment patterns of version 40 lie.
proof fn lemma_alignment_zone_of_version_40()
    ensures
        forall|r: int, c: int|
            #[trigger] alignment_zone(40, r, c) == (((4 <= r <= 8) && ((28 <= c <= 32) || (56 <= c <= 60) || (84 <= c <= 88) || (112 <= c <= 116) || (140 <= c <= 144)))
            || (((28 <= r <= 32) || (56 <= r <= 60) || (84 <= r <= 88) || (112 <= r <= 116) || (140 <= r <= 144)) && ((4 <= c <= 8) || (28 <= c <= 32) || (56 <= c <= 60) || (84 <= c <= 88) || (112 <= c <= 116) || (140 <= c <= 144) || (168 <= c <= 172)))
            || ((168 <= r <= 172) && ((28 <= c <= 32) || (56 <= c <= 60) || (84 <= c <= 88) || (112 <= c <= 116) || (140 <= c <= 144) || (168 <= c <= 172)))),
{
    reveal_with_fuel(alignment_hit, 8);
    reveal_with_fuel(alignment_row_hit, 8);
}

/// The free cells of the columns of version 40.
proof fn lemma_columns_of_version_40()
    ensures
        columns_free(177, 0, 6) + columns_free(177, 7, 177) == 29648,
{
    lemma_alignment_zone_of_version_40();
    assert(columns_free(177, 0, 0) == 0);
    assert forall|c: int| 0 <= c < 4 implies rows_free(177, c, 0, 177) == 157 by {
        lemma_rows_next(177, c, 0, 9, true);
        lemma_rows_next(177, c, 9, 166, false);
        lemma_rows_next(177, c, 166, 177, true);
    }
    lemma_columns_next(177, 0, 0, 4, 157);
    assert forall|c: int| 4 <= c < 6 implies rows_free(177, c, 0, 177) == 132 by {
        lemma_rows_next(177, c, 0, 9, true);
        lemma_rows_next(177, c, 9, 28, false);
        lemma_rows_next(177, c, 28, 33, true);
        lemma_rows_next(177, c, 33, 56, false);
        lemma_rows_next(177, c, 56, 61, true);
        lemma_rows_next(177, c, 61, 84, false);
        lemma_rows_next(177, c, 84, 89, true);
        lemma_rows_next(177, c, 89, 112, false);
        lemma_rows_next(177, c, 112, 117, true);
        lemma_rows_next(177, c, 117, 140, false);
        lemma_rows_next(177, c, 140, 145, true);
        lemma_rows_next(177, c, 145, 166, false);
        lemma_rows_next(177, c, 166, 177, true);
    }
    lemma_columns_next(177, 0, 4, 6, 132);
    assert(columns_free(177, 7, 7) == 0);
    assert forall|c: int| 7 <= c < 9 implies rows_free(177, c, 0, 177) == 135 by {
        lemma_rows_next(177, c, 0, 9, true);
        lemma_rows_next(177, c, 9, 28, false);
        lemma_rows_next(177, c, 28, 33, true);
        lemma_rows_next(177, c, 33, 56, false);
        lemma_rows_next(177, c, 56, 61, true);
        lemma_rows_next(177, c, 61, 84, false);
        lemma_rows_next(177, c, 84, 89, true);
        lemma_rows_next(177, c, 89, 112, false);
        lemma_rows_next(177, c, 112, 117, true);
        lemma_rows_next(177, c, 117, 140, false);
        lemma_rows_next(177, c, 140, 145, true);
        lemma_rows_next(177, c, 145, 169, false);
        lemma_rows_next(177, c, 169, 177, true);
    }
    lemma_columns_next(177, 7, 7, 9, 135);
    assert forall|c: int| 9 <= c < 28 implies rows_free(177, c, 0, 177) == 176 by {
        lemma_rows_next(177, c, 0, 6, false);
        lemma_rows_next(177, c, 6, 7, true);
        lemma_rows_next(177, c, 7, 177, false);
    }
    lemma_columns_next(177, 7, 9, 28, 176);
    assert forall|c: int| 28 <= c < 33 implies rows_free(177, c, 0, 177) == 142 by {
        lemma_rows_next(177, c, 0, 4, false);
        lemma_rows_next(177, c, 4, 9, true);
        lemma_rows_next(177, c, 9, 28, false);
        lemma_rows_next(177, c, 28, 33, true);
        lemma_rows_next(177, c, 33, 56, false);
        lemma_rows_next(177, c, 56, 61, true);
        lemma_rows_next(177, c, 61, 84, false);
        lemma_rows_next(177, c, 84, 89, true);
        lemma_rows_next(177, c, 89, 112, false);
        lemma_rows_next(177, c, 112, 117, true);
        lemma_rows_next(177, c, 117, 140, false);
        lemma_rows_next(177, c, 140, 145, true);
        lemma_rows_next(177, c, 145, 168, false);
        lemma_rows_next(177, c, 168, 173, true);
        lemma_rows_next(177, c, 173, 177, false);
    }
    lemma_columns_next(177, 7, 28, 33, 142);
    assert forall|c: int| 33 <= c < 56 implies rows_free(177, c, 0, 177) == 176 by {
        lemma_rows_next(177, c, 0, 6, false);
        lemma_rows_next(177, c, 6, 7, true);
        lemma_rows_next(177, c, 7, 177, false);
    }
    lemma_columns_next(177, 7, 33, 56, 176);
    assert forall|c: int| 56 <= c < 61 implies rows_free(177, c, 0, 177) == 142 by {
        lemma_rows_next(177, c, 0, 4, false);
        lemma_rows_next(177, c, 4, 9, true);
        lemma_rows_next(177, c, 9, 28, false);
        lemma_rows_next(177, c, 28, 33, true);
        lemma_rows_next(177, c, 33, 56, false);
        lemma_rows_next(177, c, 56, 61, true);
        lemma_rows_next(177, c, 61, 84, false);
        lemma_rows_next(177, c, 84, 89, true);
        lemma_rows_next(177, c, 89, 112, false);
        lemma_rows_next(177, c, 112, 117, true);
        lemma_rows_next(177, c, 117, 140, false);
        lemma_rows_next(177, c, 140, 145, true);
        lemma_rows_next(177, c, 145, 168, false);
        lemma_rows_next(177, c, 168, 173, true);
        lemma_rows_next(177, c, 173, 177, false);
    }
    lemma_columns_next(177, 7, 56, 61, 142);
    assert forall|c: int| 61 <= c < 84 implies rows_free(177, c, 0, 177) == 176 by {
        lemma_rows_next(177, c, 0, 6, false);
        lemma_rows_next(177, c, 6, 7, true);
        lemma_rows_next(177, c, 7, 177, false);
    }
    lemma_columns_next(177, 7, 61, 84, 176);
    assert forall|c: int| 84 <= c < 89 implies rows_free(177, c, 0, 177) == 142 by {
        lemma_rows_next(177, c, 0, 4, false);
        lemma_rows_next(177, c, 4, 9, true);
        lemma_rows_next(177, c, 9, 28, false);
        lemma_rows_next(177, c, 28, 33, true);
        lemma_rows_next(177, c, 33, 56, false);
        lemma_rows_next(177, c, 56, 61, true);
        lemma_rows_next(177, c, 61, 84, false);
        lemma_rows_next(177, c, 84, 89, true);
        lemma_rows_next(177, c, 89, 112, false);
        lemma_rows_next(177, c, 112, 117, true);
        lemma_rows_next(177, c, 117, 140, false);
        lemma_rows_next(177, c, 140, 145, true);
        lemma_rows_next(177, c, 145, 168, false);
        lemma_rows_next(177, c, 168, 173, true);
        lemma_rows_next(177, c, 173, 177, false);
    }
    lemma_columns_next(177, 7, 84, 89, 142);
    assert forall|c: int| 89 <= c < 112 implies rows_free(177, c, 0, 177) == 176 by {
        lemma_rows_next(177, c, 0, 6, false);
        lemma_rows_next(177, c, 6, 7, true);
        lemma_rows_next(177, c, 7, 177, false);
    }
    lemma_columns_next(177, 7, 89, 112, 176);
    assert forall|c: int| 112 <= c < 117 implies rows_free(177, c, 0, 177) == 142 by {
        lemma_rows_next(177, c, 0, 4, false);
        lemma_rows_next(177, c, 4, 9, true);
        lemma_rows_next(177, c, 9, 28, false);
        lemma_rows_next(177, c, 28, 33, true);
        lemma_rows_next(177, c, 33, 56, false);
        lemma_rows_next(177, c, 56, 61, true);
        lemma_rows_next(177, c, 61, 84, false);
        lemma_rows_next(177, c, 84, 89, true);
        lemma_rows_next(177, c, 89, 112, false);
        lemma_rows_next(177, c, 112, 117, true);
        lemma_rows_next(177, c, 117, 140, false);
        lemma_rows_next(177, c, 140, 145, true);
        lemma_rows_next(177, c, 145, 168, false);
        lemma_rows_next(177, c, 168, 173, true);
        lemma_rows_next(177, c, 173, 177, false);
    }
    lemma_columns_next(177, 7, 112, 117, 142);
    assert forall|c: int| 117 <= c < 140 implies rows_free(177, c, 0, 177) == 176 by {
        lemma_rows_next(177, c, 0, 6, false);
        lemma_rows_next(177, c, 6, 7, true);
        lemma_rows_next(177, c, 7, 177, false);
    }
    lemma_columns_next(177, 7, 117, 140, 176);
    assert forall|c: int| 140 <= c < 145 implies rows_free(177, c, 0, 177) == 142 by {
        lemma_rows_next(177, c, 0, 4, false);
        lemma_rows_next(177, c, 4, 9, true);
        lemma_rows_next(177, c, 9, 28, false);
        lemma_rows_next(177, c, 28, 33, true);
        lemma_rows_next(177, c, 33, 56, false);
        lemma_rows_next(177, c, 56, 61, true);
        lemma_rows_next(177, c, 61, 84, false);
        lemma_rows_next(177, c, 84, 89, true);
        lemma_rows_next(177, c, 89, 112, false);
        lemma_rows_next(177, c, 112, 117, true);
        lemma_rows_next(177, c, 117, 140, false);
        lemma_rows_next(177, c, 140, 145, true);
        lemma_rows_next(177, c, 145, 168, false);
        lemma_rows_next(177, c, 168, 173, true);
        lemma_rows_next(177, c, 173, 177, false);
    }
    lemma_columns_next(177, 7, 140, 145, 142);
    assert forall|c: int| 145 <= c < 166 implies rows_free(177, c, 0, 177) == 176 by {
        lemma_rows_next(177, c, 0, 6, false);
        lemma_rows_next(177, c, 6, 7, true);
        lemma_rows_next(177, c, 7, 177, false);
    }
    lemma_columns_next(177, 7, 145, 166, 176);
    assert forall|c: int| 166 <= c < 168 implies rows_free(177, c, 0, 177) == 170 by {
        lemma_rows_next(177, c, 0, 7, true);
        lemma_rows_next(177, c, 7, 177, false);
    }
    lemma_columns_next(177, 7, 166, 168, 170);
    assert forall|c: int| 168 <= c < 169 implies rows_free(177, c, 0, 177) == 140 by {
        lemma_rows_next(177, c, 0, 7, true);
        lemma_rows_next(177, c, 7, 28, false);
        lemma_rows_next(177, c, 28, 33, true);
        lemma_rows_next(177, c, 33, 56, false);
        lemma_rows_next(177, c, 56, 61, true);
        lemma_rows_next(177, c, 61, 84, false);
        lemma_rows_next(177, c, 84, 89, true);
        lemma_rows_next(177, c, 89, 112, false);
        lemma_rows_next(177, c, 112, 117, true);
        lemma_rows_next(177, c, 117, 140, false);
        lemma_rows_next(177, c, 140, 145, true);
        lemma_rows_next(177, c, 145, 168, false);
        lemma_rows_next(177, c, 168, 173, true);
        lemma_rows_next(177, c, 173, 177, false);
    }
    lemma_columns_next(177, 7, 168, 169, 140);
    assert forall|c: int| 169 <= c < 173 implies rows_free(177, c, 0, 177) == 138 by {
        lemma_rows_next(177, c, 0, 9, true);
        lemma_rows_next(177, c, 9, 28, false);
        lemma_rows_next(177, c, 28, 33, true);
        lemma_rows_next(177, c, 33, 56, false);
        lemma_rows_next(177, c, 56, 61, true);
        lemma_rows_next(177, c, 61, 84, false);
        lemma_rows_next(177, c, 84, 89, true);
        lemma_rows_next(177, c, 89, 112, false);
        lemma_rows_next(177, c, 112, 117, true);
        lemma_rows_next(177, c, 117, 140, false);
        lemma_rows_next(177, c, 140, 145, true);
        lemma_rows_next(177, c, 145, 168, false);
        lemma_rows_next(177, c, 168, 173, true);
        lemma_rows_next(177, c, 173, 177, false);
    }
    lemma_columns_next(177, 7, 169, 173, 138);
    assert forall|c: int| 173 <= c < 177 implies rows_free(177, c, 0, 177) == 168 by {
        lemma_rows_next(177, c, 0, 9, true);
        lemma_rows_next(177, c, 9, 177, false);
    }
    lemma_columns_next(177, 7, 173, 177, 168);
}

/// The free cells of the columns of a version, outside the timing column,
/// number eight for each of its codewords and its remainder bits.
pub proof fn lemma_columns_of_version(version: int)
    requires
        1 <= version <= 40,
    ensures
        columns_free(symbol_side(version), 0, 6) + columns_free(
            symbol_side(version),
            7,
            symbol_side(version),
        ) == 8 * total_codewords(version) + remainder_bits(version),
{
    if version == 1 {
        lemma_columns_of_version_1();
    }     else if version == 2 {
        lemma_columns_of_version_2();
    }     else if version == 3 {
        lemma_columns_of_version_3();
    }     else if version == 4 {
        lemma_columns_of_version_4();
    }     else if version == 5 {
        lemma_columns_of_version_5();
    }     else if version == 6 {
        lemma_columns_of_version_6();
    }     else if version == 7 {
        lemma_columns_of_version_7();
    }     else if version == 8 {
        lemma_columns_of_version_8();
    }     else if version == 9 {
        lemma_columns_of_version_9();
    }     else if version == 10 {
        lemma_columns_of_version_10();
    }     else if version == 11 {
        lemma_columns_of_version_11();
    }     else if version == 12 {
        lemma_columns_of_version_12();
    }     else if version == 13 {
        lemma_columns_of_version_13();
    }     else if version == 14 {
        lemma_columns_of_version_14();
    }     else if version == 15 {
        lemma_columns_of_version_15();
    }     else if version == 16 {
        lemma_columns_of_version_16();
    }     else if version == 17 {
        lemma_columns_of_version_17();
    }     else if version == 18 {
        lemma_columns_of_version_18();
    }     else if version == 19 {
        lemma_columns_of_version_19();
    }     else if version == 20 {
        lemma_columns_of_version_20();
    }     else if version == 21 {
        lemma_columns_of_version_21();
    }     else if version == 22 {
        lemma_columns_of_version_22();
    }     else if version == 23 {
        lemma_columns_of_version_23();
    }     else if version == 24 {
        lemma_columns_of_version_24();
    }     else if version == 25 {
        lemma_columns_of_version_25();
    }     else if version == 26 {
        lemma_columns_of_version_26();
    }     else if version == 27 {
        lemma_columns_of_version_27();
    }     else if version == 28 {
        lemma_columns_of_version_28();
    }     else if version == 29 {
        lemma_columns_of_version_29();
    }     else if version == 30 {
        lemma_columns_of_version_30();
    }     else if version == 31 {
        lemma_columns_of_version_31();
    }     else if version == 32 {
        lemma_columns_of_version_32();
    }     else if version == 33 {
        lemma_columns_of_version_33();
    }     else if version == 34 {
        lemma_columns_of_version_34();
    }     else if version == 35 {
        lemma_columns_of_version_35();
    }     else if version == 36 {
        lemma_columns_of_version_36();
    }     else if version == 37 {
        lemma_columns_of_version_37();
    }     else if version == 38 {
        lemma_columns_of_version_38();
    }     else if version == 39 {
        lemma_columns_of_version_39();
    }     else if version == 40 {
        lemma_columns_of_version_40();
    }
}

} // verus!
