//! The function patterns of a symbol and the cells that are reserved.

use super::constants::ALIGNMENT_CENTERS;
use super::constants::ALIGNMENT_COUNTS;
use crate::bit_utils::bit::Bit;
use crate::bit_utils::bitmap::is_square;
use crate::bit_utils::bitmap::BitMap;
use vstd::prelude::*;

verus! {

/// Whether `side` is the side of a symbol: 21 modules for version 1 and
/// four more for each further version up to 40.
pub open spec fn is_symbol_side(side: int) -> bool {
    21 <= side <= 177 && (side - 17) % 4 == 0
}

/// The version of the symbol of a side.
pub open spec fn version_of_side(side: int) -> int {
    (side - 17) / 4
}

/// Whether the cell lies in the rectangle of `h` rows and `w` columns whose
/// top-left cell is `(r0, c0)`.
pub open spec fn in_rect(r: int, c: int, r0: int, c0: int, h: int, w: int) -> bool {
    r0 <= r < r0 + h && c0 <= c < c0 + w
}

/// Whether the cell is a dark module of the finder pattern whose top-left
/// cell is `(r0, c0)`: its outer ring or its centre of three by three.
pub open spec fn finder_dark_at(r: int, c: int, r0: int, c0: int) -> bool {
    &&& in_rect(r, c, r0, c0, 7, 7)
    &&& (r == r0 || r == r0 + 6 || c == c0 || c == c0 + 6 || in_rect(r, c, r0 + 2, c0 + 2, 3, 3))
}

/// Whether the cell is a dark module of one of the three finder patterns.
pub open spec fn finder_dark(n: int, r: int, c: int) -> bool {
    finder_dark_at(r, c, 0, 0) || finder_dark_at(r, c, n - 7, 0) || finder_dark_at(r, c, 0, n - 7)
}

/// Whether the cell belongs to a finder pattern or its separator.
pub open spec fn finder_zone(n: int, r: int, c: int) -> bool {
    in_rect(r, c, 0, 0, 8, 8) || in_rect(r, c, n - 8, 0, 8, 8) || in_rect(r, c, 0, n - 8, 8, 8)
}

/// Whether the cell lies on a timing line: row 6 or column 6, between the
/// finder patterns.
pub open spec fn timing_zone(n: int, r: int, c: int) -> bool {
    (c == 6 && 7 <= r < n - 7) || (r == 6 && 7 <= c < n - 7)
}

/// Whether the cell is a dark module of a timing line: every other one.
pub open spec fn timing_dark(n: int, r: int, c: int) -> bool {
    timing_zone(n, r, c) && (r + c) % 2 == 0
}

/// Whether the cell belongs to the alignment pattern with the given centre.
pub open spec fn alignment_zone_at(r: int, c: int, cr: int, cc: int) -> bool {
    in_rect(r, c, cr - 2, cc - 2, 5, 5)
}

/// Whether the cell is a dark module of the alignment pattern with the
/// given centre: its ring or its centre.
pub open spec fn alignment_dark_at(r: int, c: int, cr: int, cc: int) -> bool {
    &&& alignment_zone_at(r, c, cr, cc)
    &&& (r == cr - 2 || r == cr + 2 || c == cc - 2 || c == cc + 2 || (r == cr && c == cc))
}

/// The cell of one alignment pattern, as a dark module or as a member of
/// the pattern.
pub open spec fn alignment_at(zone: bool, r: int, c: int, cr: int, cc: int) -> bool {
    if zone {
        alignment_zone_at(r, c, cr, cc)
    } else {
        alignment_dark_at(r, c, cr, cc)
    }
}

/// The number of centre coordinates of a version.
pub open spec fn alignment_count(version: int) -> int {
    ALIGNMENT_COUNTS@[version - 1] as int
}

/// Centre coordinate `i` of a version.
pub open spec fn alignment_center(version: int, i: int) -> int {
    ALIGNMENT_CENTERS@[7 * (version - 1) + i] as int
}

/// The centre coordinates of a version, in rising order.
pub open spec fn alignment_centers(version: int) -> Seq<usize> {
    Seq::new(alignment_count(version) as nat, |i: int| alignment_center(version, i) as usize)
}

/// Whether the pair of centre coordinates `(x, y)` has no alignment
/// pattern because a finder pattern lies there.
pub open spec fn is_finder_corner(x: int, y: int, count: int) -> bool {
    (x == 0 && y == 0) || (x == 0 && y == count - 1) || (x == count - 1 && y == 0)
}

/// Whether the cell belongs to an alignment pattern in row `x` of the
/// centres and one of the first `y_upto` columns.
pub open spec fn alignment_row_hit(
    zone: bool,
    version: int,
    r: int,
    c: int,
    x: int,
    y_upto: nat,
) -> bool
    decreases y_upto,
{
    if y_upto == 0 {
        false
    } else {
        alignment_row_hit(zone, version, r, c, x, (y_upto - 1) as nat) || (!is_finder_corner(
            x,
            y_upto - 1,
            alignment_count(version),
        ) && alignment_at(
            zone,
            r,
            c,
            alignment_center(version, x),
            alignment_center(version, y_upto - 1),
        ))
    }
}

/// Whether the cell belongs to an alignment pattern in one of the first
/// `x_upto` rows of the centres.
pub open spec fn alignment_hit(zone: bool, version: int, r: int, c: int, x_upto: nat) -> bool
    decreases x_upto,
{
    if x_upto == 0 {
        false
    } else {
        alignment_hit(zone, version, r, c, (x_upto - 1) as nat) || alignment_row_hit(
            zone,
            version,
            r,
            c,
            x_upto - 1,
            alignment_count(version) as nat,
        )
    }
}

/// Whether the cell is a dark module of an alignment pattern.
pub open spec fn alignment_dark(version: int, r: int, c: int) -> bool {
    alignment_hit(false, version, r, c, alignment_count(version) as nat)
}

/// Whether the cell belongs to an alignment pattern.
pub open spec fn alignment_zone(version: int, r: int, c: int) -> bool {
    alignment_hit(true, version, r, c, alignment_count(version) as nat)
}

/// Whether the cell is the dark module beside the bottom-left finder.
pub open spec fn is_dark_module(n: int, r: int, c: int) -> bool {
    r == n - 8 && c == 8
}

/// Whether the cell belongs to one of the two strips of format
/// information.
pub open spec fn format_zone(n: int, r: int, c: int) -> bool {
    (r == 8 && (c <= 8 || c >= n - 8)) || (c == 8 && (r <= 8 || r >= n - 8))
}

/// Whether the cell belongs to one of the two blocks of version
/// information.
pub open spec fn version_zone(n: int, r: int, c: int) -> bool {
    (r <= 5 && n - 11 <= c <= n - 9) || (c <= 5 && n - 11 <= r <= n - 9)
}

/// Whether the cell belongs to the format information or, from version 7
/// on, to the version information.
pub open spec fn information_zone(n: int, r: int, c: int) -> bool {
    format_zone(n, r, c) || (version_of_side(n) >= 7 && version_zone(n, r, c))
}

/// Whether a function pattern makes the cell dark.
pub open spec fn function_dark(n: int, r: int, c: int) -> bool {
    ||| finder_dark(n, r, c)
    ||| alignment_dark(version_of_side(n), r, c)
    ||| timing_dark(n, r, c)
    ||| is_dark_module(n, r, c)
}

/// Whether the cell is kept from data and masking: it belongs to a
/// function pattern or to the format or version information.
pub open spec fn is_reserved(n: int, r: int, c: int) -> bool {
    ||| finder_zone(n, r, c)
    ||| alignment_zone(version_of_side(n), r, c)
    ||| timing_zone(n, r, c)
    ||| is_dark_module(n, r, c)
    ||| information_zone(n, r, c)
}

/// The centre coordinates of every version lie between the finder
/// patterns.
pub proof fn lemma_alignment_table(version: int, i: int)
    requires
        1 <= version <= 40,
        0 <= i < alignment_count(version),
    ensures
        0 <= alignment_count(version) <= 7,
        6 <= alignment_center(version, i) <= 4 * version + 10,
        alignment_center(version, i) % 2 == 0,
{
    assert(0 <= 7 * (version - 1) + i < 280);
}

/// Makes every cell of a rectangle dark; what lies outside the grid is
/// left out.
pub fn paint_rect(map: &mut BitMap, r0: usize, c0: usize, h: usize, w: usize)
    requires
        old(map).wf(),
        r0 + h <= usize::MAX,
        c0 + w <= usize::MAX,
    ensures
        final(map).wf(),
        final(map).side() == old(map).side(),
        forall|r: int, c: int|
            0 <= r < old(map).side() && 0 <= c < old(map).side() ==> #[trigger] final(map)@[r][c]
                == (old(map)@[r][c] || in_rect(r, c, r0 as int, c0 as int, h as int, w as int)),
{
    let ghost n = map.side();
    proof {
        map.lemma_view_square();
    }
    let mut i: usize = 0;
    while i < h
        invariant
            i <= h,
            r0 + h <= usize::MAX,
            c0 + w <= usize::MAX,
            map.wf(),
            map.side() == n,
            n == old(map).side(),
            is_square(old(map)@, n),
            forall|r: int, c: int|
                0 <= r < n && 0 <= c < n ==> #[trigger] map@[r][c] == (old(map)@[r][c] || in_rect(
                    r,
                    c,
                    r0 as int,
                    c0 as int,
                    i as int,
                    w as int,
                )),
        decreases h - i,
    {
        let mut j: usize = 0;
        while j < w
            invariant
                j <= w,
                i < h,
                r0 + h <= usize::MAX,
                c0 + w <= usize::MAX,
                map.wf(),
                map.side() == n,
                n == old(map).side(),
                forall|r: int, c: int|
                    0 <= r < n && 0 <= c < n ==> #[trigger] map@[r][c] == (old(map)@[r][c]
                        || in_rect(r, c, r0 as int, c0 as int, i as int, w as int) || (r == r0 + i
                        && c0 <= c < c0 + j)),
            decreases w - j,
        {
            let ghost before = map@;
            proof {
                map.lemma_view_square();
            }
            map.put(r0 + i, c0 + j, Bit::One);
            proof {
                assert forall|r: int, c: int| 0 <= r < n && 0 <= c < n implies #[trigger] map@[r][c]
                    == (old(map)@[r][c] || in_rect(r, c, r0 as int, c0 as int, i as int, w as int)
                    || (r == r0 + i && c0 <= c < c0 + j + 1)) by {
                    assert(before[r][c] == (old(map)@[r][c] || in_rect(
                        r,
                        c,
                        r0 as int,
                        c0 as int,
                        i as int,
                        w as int,
                    ) || (r == r0 + i && c0 <= c < c0 + j)));
                }
            }
            j += 1;
        }
        i += 1;
    }
}

/// Paints the three finder patterns and reserves them with their
/// separators.
pub fn create_finder_patterns(bit_map: &mut BitMap, reservations: &mut BitMap)
    requires
        old(bit_map).wf(),
        old(reservations).wf(),
        old(bit_map).side() == old(reservations).side(),
        is_symbol_side(old(bit_map).side() as int),
    ensures
        final(bit_map).wf(),
        final(reservations).wf(),
        final(bit_map).side() == old(bit_map).side(),
        final(reservations).side() == old(reservations).side(),
        forall|r: int, c: int|
            0 <= r < old(bit_map).side() && 0 <= c < old(bit_map).side() ==> #[trigger] final(bit_map)@[r][c] == (old(bit_map)@[r][c] || finder_dark(old(bit_map).side() as int, r, c)),
        forall|r: int, c: int|
            0 <= r < old(bit_map).side() && 0 <= c < old(bit_map).side() ==> #[trigger] final(reservations)@[r][c] == (old(reservations)@[r][c] || finder_zone(
                old(bit_map).side() as int,
                r,
                c,
            )),
{
    let size = bit_map.size();
    add_finder(bit_map, 0, 0);
    add_finder(bit_map, size - 7, 0);
    add_finder(bit_map, 0, size - 7);
    paint_rect(reservations, 0, 0, 8, 8);
    paint_rect(reservations, size - 8, 0, 8, 8);
    paint_rect(reservations, 0, size - 8, 8, 8);
}

/// Paints the finder pattern whose top-left cell is `(i, j)`.
fn add_finder(bit_map: &mut BitMap, i: usize, j: usize)
    requires
        old(bit_map).wf(),
        i <= 200,
        j <= 200,
    ensures
        final(bit_map).wf(),
        final(bit_map).side() == old(bit_map).side(),
        forall|r: int, c: int|
            0 <= r < old(bit_map).side() && 0 <= c < old(bit_map).side() ==> #[trigger] final(bit_map)@[r][c] == (old(bit_map)@[r][c] || finder_dark_at(r, c, i as int, j as int)),
{
    paint_rect(bit_map, i, j, 1, 7);
    paint_rect(bit_map, i + 6, j, 1, 7);
    paint_rect(bit_map, i, j, 7, 1);
    paint_rect(bit_map, i, j + 6, 7, 1);
    paint_rect(bit_map, i + 2, j + 2, 3, 3);
}

/// Paints the two timing lines and reserves them.
pub fn create_timing_patterns(bit_map: &mut BitMap, reservations: &mut BitMap)
    requires
        old(bit_map).wf(),
        old(reservations).wf(),
        old(bit_map).side() == old(reservations).side(),
        is_symbol_side(old(bit_map).side() as int),
    ensures
        final(bit_map).wf(),
        final(reservations).wf(),
        final(bit_map).side() == old(bit_map).side(),
        final(reservations).side() == old(reservations).side(),
        forall|r: int, c: int|
            0 <= r < old(bit_map).side() && 0 <= c < old(bit_map).side() ==> #[trigger] final(bit_map)@[r][c] == (old(bit_map)@[r][c] || timing_dark(old(bit_map).side() as int, r, c)),
        forall|r: int, c: int|
            0 <= r < old(bit_map).side() && 0 <= c < old(bit_map).side() ==> #[trigger] final(reservations)@[r][c] == (old(reservations)@[r][c] || timing_zone(
                old(bit_map).side() as int,
                r,
                c,
            )),
{
    let size = bit_map.size();
    let ghost n = size as int;
    paint_rect(reservations, 7, 6, size - 14, 1);
    paint_rect(reservations, 6, 7, 1, size - 14);
    let mut i: usize = 7;
    while i < size - 7
        invariant
            7 <= i <= size - 7,
            size == n,
            is_symbol_side(n),
            bit_map.wf(),
            bit_map.side() == n,
            old(bit_map).side() == n,
            forall|r: int, c: int|
                0 <= r < n && 0 <= c < n ==> #[trigger] bit_map@[r][c] == (old(bit_map)@[r][c] || ((
                (c == 6 && 7 <= r < i) || (r == 6 && 7 <= c < i)) && (r + c) % 2 == 0)),
        decreases size - i,
    {
        if i % 2 == 0 {
            paint_rect(bit_map, i, 6, 1, 1);
            paint_rect(bit_map, 6, i, 1, 1);
        }
        i += 1;
    }
}

/// Paints the dark module beside the bottom-left finder and reserves it.
pub fn create_dark_module(bit_map: &mut BitMap, reservations: &mut BitMap)
    requires
        old(bit_map).wf(),
        old(reservations).wf(),
        old(bit_map).side() == old(reservations).side(),
        is_symbol_side(old(bit_map).side() as int),
    ensures
        final(bit_map).wf(),
        final(reservations).wf(),
        final(bit_map).side() == old(bit_map).side(),
        final(reservations).side() == old(reservations).side(),
        forall|r: int, c: int|
            0 <= r < old(bit_map).side() && 0 <= c < old(bit_map).side() ==> #[trigger] final(bit_map)@[r][c] == (old(bit_map)@[r][c] || is_dark_module(old(bit_map).side() as int, r, c)),
        forall|r: int, c: int|
            0 <= r < old(bit_map).side() && 0 <= c < old(bit_map).side() ==> #[trigger] final(reservations)@[r][c] == (old(reservations)@[r][c] || is_dark_module(
                old(bit_map).side() as int,
                r,
                c,
            )),
{
    let size = bit_map.size();
    paint_rect(bit_map, size - 8, 8, 1, 1);
    paint_rect(reservations, size - 8, 8, 1, 1);
}

/// Reserves the two strips of format information and, from version 7 on,
/// the two blocks of version information.
pub fn reserve_format_information_areas(reservations: &mut BitMap)
    requires
        old(reservations).wf(),
        is_symbol_side(old(reservations).side() as int),
    ensures
        final(reservations).wf(),
        final(reservations).side() == old(reservations).side(),
        forall|r: int, c: int|
            0 <= r < old(reservations).side() && 0 <= c < old(reservations).side()
                ==> #[trigger] final(reservations)@[r][c] == (old(reservations)@[r][c]
                || information_zone(old(reservations).side() as int, r, c)),
{
    let size = reservations.size();
    let version = (size - 17) / 4;
    if version >= 7 {
        paint_rect(reservations, 0, size - 11, 6, 3);
        paint_rect(reservations, size - 11, 0, 3, 6);
    }
    paint_rect(reservations, 8, 0, 1, 9);
    paint_rect(reservations, 8, size - 8, 1, 8);
    paint_rect(reservations, 0, 8, 9, 1);
    paint_rect(reservations, size - 8, 8, 8, 1);
}

/// The centre coordinates of the alignment patterns of the symbol of the
/// given side, in rising order.
pub fn get_alignment_pattern_coordinates_list(bit_map_size: usize) -> (coordinates: Vec<usize>)
    requires
        is_symbol_side(bit_map_size as int),
    ensures
        coordinates@ == alignment_centers(version_of_side(bit_map_size as int)),
{
    let version = (bit_map_size - 17) / 4;
    let count = ALIGNMENT_COUNTS[version - 1];
    let mut coordinates: Vec<usize> = Vec::new();
    let mut i: usize = 0;
    while i < count
        invariant
            i <= count,
            1 <= version <= 40,
            count == alignment_count(version as int),
            count <= 7,
            coordinates@.len() == i,
            forall|k: int|
                0 <= k < i ==> #[trigger] coordinates@[k] == alignment_center(version as int, k),
        decreases count - i,
    {
        coordinates.push(ALIGNMENT_CENTERS[7 * (version - 1) + i]);
        i += 1;
    }
    assert(coordinates@ =~= alignment_centers(version as int));
    coordinates
}

/// Paints the alignment pattern with the given centre and reserves it.
fn add_alignment_pattern(bit_map: &mut BitMap, reservations: &mut BitMap, i: usize, j: usize)
    requires
        old(bit_map).wf(),
        old(reservations).wf(),
        old(bit_map).side() == old(reservations).side(),
        2 <= i <= 200,
        2 <= j <= 200,
    ensures
        final(bit_map).wf(),
        final(reservations).wf(),
        final(bit_map).side() == old(bit_map).side(),
        final(reservations).side() == old(reservations).side(),
        forall|r: int, c: int|
            0 <= r < old(bit_map).side() && 0 <= c < old(bit_map).side() ==> #[trigger] final(bit_map)@[r][c] == (old(bit_map)@[r][c] || alignment_dark_at(r, c, i as int, j as int)),
        forall|r: int, c: int|
            0 <= r < old(bit_map).side() && 0 <= c < old(bit_map).side() ==> #[trigger] final(reservations)@[r][c] == (old(reservations)@[r][c] || alignment_zone_at(r, c, i as int, j as int)),
{
    paint_rect(bit_map, i, j, 1, 1);
    paint_rect(bit_map, i - 2, j - 2, 1, 5);
    paint_rect(bit_map, i + 2, j - 2, 1, 5);
    paint_rect(bit_map, i - 2, j - 2, 5, 1);
    paint_rect(bit_map, i - 2, j + 2, 5, 1);
    paint_rect(reservations, i - 2, j - 2, 5, 5);
}

/// Paints the alignment patterns of the symbol and reserves them. No
/// pattern is put where a finder pattern lies.
pub fn create_alignment_patterns(bit_map: &mut BitMap, reservations: &mut BitMap)
    requires
        old(bit_map).wf(),
        old(reservations).wf(),
        old(bit_map).side() == old(reservations).side(),
        is_symbol_side(old(bit_map).side() as int),
    ensures
        final(bit_map).wf(),
        final(reservations).wf(),
        final(bit_map).side() == old(bit_map).side(),
        final(reservations).side() == old(reservations).side(),
        forall|r: int, c: int|
            0 <= r < old(bit_map).side() && 0 <= c < old(bit_map).side() ==> #[trigger] final(bit_map)@[r][c] == (old(bit_map)@[r][c] || alignment_dark(
                version_of_side(old(bit_map).side() as int),
                r,
                c,
            )),
        forall|r: int, c: int|
            0 <= r < old(bit_map).side() && 0 <= c < old(bit_map).side() ==> #[trigger] final(reservations)@[r][c] == (old(reservations)@[r][c] || alignment_zone(
                version_of_side(old(bit_map).side() as int),
                r,
                c,
            )),
{
    let size = bit_map.size();
    let ghost n = size as int;
    let ghost version = version_of_side(n);
    let coords = get_alignment_pattern_coordinates_list(size);
    let count = coords.len();
    let mut x: usize = 0;
    while x < count
        invariant
            x <= count,
            1 <= version <= 40,
            count == alignment_count(version),
            coords@ == alignment_centers(version),
            bit_map.wf(),
            reservations.wf(),
            bit_map.side() == n,
            reservations.side() == n,
            old(bit_map).side() == n,
            forall|r: int, c: int|
                0 <= r < n && 0 <= c < n ==> #[trigger] bit_map@[r][c] == (old(bit_map)@[r][c]
                    || alignment_hit(false, version, r, c, x as nat)),
            forall|r: int, c: int|
                0 <= r < n && 0 <= c < n ==> #[trigger] reservations@[r][c] == (old(reservations)@[r][c] || alignment_hit(true, version, r, c, x as nat)),
        decreases count - x,
    {
        let mut y: usize = 0;
        while y < count
            invariant
                y <= count,
                x < count,
                1 <= version <= 40,
                count == alignment_count(version),
                coords@ == alignment_centers(version),
                bit_map.wf(),
                reservations.wf(),
                bit_map.side() == n,
                reservations.side() == n,
                old(bit_map).side() == n,
                forall|r: int, c: int|
                    0 <= r < n && 0 <= c < n ==> #[trigger] bit_map@[r][c] == (old(bit_map)@[r][c]
                        || alignment_hit(false, version, r, c, x as nat) || alignment_row_hit(
                        false,
                        version,
                        r,
                        c,
                        x as int,
                        y as nat,
                    )),
                forall|r: int, c: int|
                    0 <= r < n && 0 <= c < n ==> #[trigger] reservations@[r][c] == (old(reservations)@[r][c] || alignment_hit(true, version, r, c, x as nat) || alignment_row_hit(
                        true,
                        version,
                        r,
                        c,
                        x as int,
                        y as nat,
                    )),
            decreases count - y,
        {
            let is_corner = (x == 0 && y == 0) || (x == 0 && y == count - 1) || (x == count - 1
                && y == 0);
            if !is_corner {
                proof {
                    lemma_alignment_table(version, x as int);
                    lemma_alignment_table(version, y as int);
                    assert(coords@[x as int] == alignment_center(version, x as int));
                    assert(coords@[y as int] == alignment_center(version, y as int));
                }
                add_alignment_pattern(bit_map, reservations, coords[x], coords[y]);
            }
            y += 1;
        }
        x += 1;
    }
}

} // verus!
