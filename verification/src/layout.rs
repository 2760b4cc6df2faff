use ratatui::layout::{Constraint, Direction, Layout, Rect};
use vstd::prelude::*;

verus! {

/// A rectangle of terminal cells: its top left corner and its size.
#[derive(Clone, Copy, Debug, PartialEq, Eq, Structural)]
pub struct Area {
    pub x: u16,
    pub y: u16,
    pub width: u16,
    pub height: u16,
}

/// The direction along which an area is cut into bands.
#[derive(Clone, Copy, Debug, PartialEq, Eq, Structural)]
pub enum Axis {
    /// Bands stacked from top to bottom.
    Vertical,
    /// Bands side by side, from left to right.
    Horizontal,
}

/// The size asked for one band.
#[derive(Clone, Copy, Debug, PartialEq, Eq, Structural)]
pub enum Extent {
    /// Exactly so many cells.
    Length(u16),
    /// At least so many cells.
    Min(u16),
    /// So many percent of the whole.
    Percentage(u16),
}

/// `value + amount`, or the largest `u16` when that does not fit.
pub open spec fn saturating_add_u16(value: u16, amount: u16) -> u16 {
    if value + amount > u16::MAX {
        u16::MAX
    } else {
        (value + amount) as u16
    }
}

/// `area` less `margin` cells on every side, as ratatui's `Rect::inner`
/// gives it: the empty area at the origin when the margins do not fit.
pub open spec fn inner_area(area: Area, margin: u16) -> Area {
    let doubled: int = if 2 * margin > u16::MAX {
        u16::MAX as int
    } else {
        2 * margin
    };
    if area.width < doubled || area.height < doubled {
        Area { x: 0, y: 0, width: 0, height: 0 }
    } else {
        Area {
            x: saturating_add_u16(area.x, margin),
            y: saturating_add_u16(area.y, margin),
            width: (area.width - doubled) as u16,
            height: (area.height - doubled) as u16,
        }
    }
}

/// `band` is one of the bands cut from `outer` along `axis`: it spans
/// `outer` across the axis and lies within it along the axis.
pub open spec fn band_of(band: Area, outer: Area, axis: Axis) -> bool {
    match axis {
        Axis::Vertical => {
            &&& band.x == outer.x
            &&& band.width == outer.width
            &&& outer.y <= band.y
            &&& band.y + band.height <= outer.y + outer.height
        },
        Axis::Horizontal => {
            &&& band.y == outer.y
            &&& band.height == outer.height
            &&& outer.x <= band.x
            &&& band.x + band.width <= outer.x + outer.width
        },
    }
}

/// `inner` lies within `outer`.
pub open spec fn lies_within(inner: Area, outer: Area) -> bool {
    &&& outer.x <= inner.x
    &&& inner.x + inner.width <= outer.x + outer.width
    &&& outer.y <= inner.y
    &&& inner.y + inner.height <= outer.y + outer.height
}

/// Where `a` starts along `axis`.
pub open spec fn start_on(a: Area, axis: Axis) -> int {
    match axis {
        Axis::Vertical => a.y as int,
        Axis::Horizontal => a.x as int,
    }
}

/// How long `a` is along `axis`.
pub open spec fn length_on(a: Area, axis: Axis) -> int {
    match axis {
        Axis::Vertical => a.height as int,
        Axis::Horizontal => a.width as int,
    }
}

/// `a` ends at a coordinate that a `u16` holds, on both axes.
pub open spec fn fits_in_u16(a: Area) -> bool {
    &&& a.x + a.width <= u16::MAX
    &&& a.y + a.height <= u16::MAX
}

/// `band` spans `outer` across `axis` and covers exactly `from..to` along it.
pub open spec fn band_at(band: Area, outer: Area, axis: Axis, from: int, to: int) -> bool {
    match axis {
        Axis::Vertical => {
            &&& band.x == outer.x
            &&& band.width == outer.width
            &&& band.y == from
            &&& band.y + band.height == to
        },
        Axis::Horizontal => {
            &&& band.y == outer.y
            &&& band.height == outer.height
            &&& band.x == from
            &&& band.x + band.width == to
        },
    }
}

/// The percentage an extent asks for (none for the others).
pub open spec fn percent_of(e: Extent) -> int {
    match e {
        Extent::Percentage(p) => p as int,
        _ => 0,
    }
}

/// The sum of the percentages asked for by the first `k` extents.
pub open spec fn percent_cut(extents: Seq<Extent>, k: int) -> int
    decreases k,
{
    if k <= 0 {
        0
    } else {
        percent_cut(extents, k - 1) + percent_of(extents[k - 1])
    }
}

/// Every extent is a percentage.
pub open spec fn all_percentages(extents: Seq<Extent>) -> bool {
    forall|i: int| 0 <= i < extents.len() ==> #[trigger] extents[i] is Percentage
}

/// The coordinate `percent` percent of the way along `a`, rounded to the
/// nearest cell (halves upwards).
pub open spec fn percent_bound(a: Area, axis: Axis, percent: int) -> int {
    start_on(a, axis) + (length_on(a, axis) * percent + 50) / 100
}

/// A boundary at a percentage lies within the area: at its start for none,
/// at its end for all of it.
proof fn lemma_percent_bound(a: Area, axis: Axis, percent: int)
    requires
        0 <= percent <= 100,
    ensures
        start_on(a, axis) <= percent_bound(a, axis, percent) <= start_on(a, axis) + length_on(a, axis),
        percent_bound(a, axis, 0) == start_on(a, axis),
        percent_bound(a, axis, 100) == start_on(a, axis) + length_on(a, axis),
{
    let len = length_on(a, axis);
    assert(0 <= len);
    assert(0 <= (len * percent + 50) / 100 <= len) by (nonlinear_arith)
        requires
            0 <= len,
            0 <= percent <= 100,
    ;
    assert((len * 100 + 50) / 100 == len) by (nonlinear_arith)
        requires
            0 <= len,
    ;
}

/// The length an extent asks for (none for the others).
pub open spec fn length_of(e: Extent) -> int {
    match e {
        Extent::Length(n) => n as int,
        _ => 0,
    }
}

/// The least length a `Min` extent asks for (none for the others).
pub open spec fn min_of(e: Extent) -> int {
    match e {
        Extent::Min(n) => n as int,
        _ => 0,
    }
}

/// The sum of the lengths asked for by the first `k` extents.
pub open spec fn length_cut(extents: Seq<Extent>, k: int) -> int
    decreases k,
{
    if k <= 0 {
        0
    } else {
        length_cut(extents, k - 1) + length_of(extents[k - 1])
    }
}

/// How many of the first `k` extents are `Min`.
pub open spec fn min_count(extents: Seq<Extent>, k: int) -> int
    decreases k,
{
    if k <= 0 {
        0
    } else {
        min_count(extents, k - 1) + if extents[k - 1] is Min {
            1int
        } else {
            0int
        }
    }
}

/// Lengths and exactly one `Min`, which all fit in `room` cells.
pub open spec fn lengths_and_one_min_fit(extents: Seq<Extent>, room: int) -> bool {
    &&& forall|i: int| 0 <= i < extents.len() ==> #[trigger] extents[i] is Length || extents[i] is Min
    &&& min_count(extents, extents.len() as int) == 1
    &&& forall|i: int|
        0 <= i < extents.len() ==> length_cut(extents, extents.len() as int) + min_of(
            #[trigger] extents[i],
        ) <= room
}

/// The cells the first `k` extents take when the `Min` takes `rest`.
pub open spec fn fixed_cut(extents: Seq<Extent>, k: int, rest: int) -> int
    decreases k,
{
    if k <= 0 {
        0
    } else {
        fixed_cut(extents, k - 1, rest) + if extents[k - 1] is Min {
            rest
        } else {
            length_of(extents[k - 1])
        }
    }
}

/// Cuts `area` with ratatui's `Layout::split` (direction `axis`, margin
/// `margin` on every side, one constraint per extent, the default `Start`
/// flex and no spacing) and returns the bands in order.
///
/// What the source guarantees of every outcome: one band per constraint,
/// each within `area.inner(margin)` along the axis (required constraints of
/// the solver) and spanning it across the axis.
///
/// Where the constraints fit, every one of them is met and the solver's
/// optimum is unique, so the cuts are stated, for an inner area whose far
/// edges a `u16` holds:
/// - percentages only, summing to at most 100: the bands follow each other
///   from the start, each boundary lying at its running percentage of the
///   length, rounded to the nearest cell (halves upwards);
/// - lengths and one `Min`, all fitting: the bands follow each other from
///   the start, each length exact, the `Min` taking what the lengths leave.
#[verifier::external_body]
fn split_area(area: Area, axis: Axis, margin: u16, extents: &Vec<Extent>) -> (r: Vec<Area>)
    ensures
        r@.len() == extents@.len(),
        forall|i: int| 0 <= i < r@.len() ==> band_of(#[trigger] r@[i], inner_area(area, margin), axis),
        fits_in_u16(inner_area(area, margin)) && all_percentages(extents@) && percent_cut(
            extents@,
            extents@.len() as int,
        ) <= 100 ==> forall|i: int|
            0 <= i < r@.len() ==> band_at(
                #[trigger] r@[i],
                inner_area(area, margin),
                axis,
                percent_bound(inner_area(area, margin), axis, percent_cut(extents@, i)),
                percent_bound(inner_area(area, margin), axis, percent_cut(extents@, i + 1)),
            ),
        fits_in_u16(inner_area(area, margin)) && lengths_and_one_min_fit(
            extents@,
            length_on(inner_area(area, margin), axis),
        ) ==> forall|i: int|
            0 <= i < r@.len() ==> band_at(
                #[trigger] r@[i],
                inner_area(area, margin),
                axis,
                start_on(inner_area(area, margin), axis) + fixed_cut(
                    extents@,
                    i,
                    length_on(inner_area(area, margin), axis) - length_cut(
                        extents@,
                        extents@.len() as int,
                    ),
                ),
                start_on(inner_area(area, margin), axis) + fixed_cut(
                    extents@,
                    i + 1,
                    length_on(inner_area(area, margin), axis) - length_cut(
                        extents@,
                        extents@.len() as int,
                    ),
                ),
            ),
{
    let direction = match axis {
        Axis::Vertical => Direction::Vertical,
        Axis::Horizontal => Direction::Horizontal,
    };
    let constraints = extents.iter().map(|e| match *e {
        Extent::Length(n) => Constraint::Length(n),
        Extent::Min(n) => Constraint::Min(n),
        Extent::Percentage(n) => Constraint::Percentage(n),
    });
    let rect = Rect { x: area.x, y: area.y, width: area.width, height: area.height };
    let bands = Layout::default().direction(direction).margin(margin).constraints(constraints).split(rect);
    bands.iter().map(|b| Area { x: b.x, y: b.y, width: b.width, height: b.height }).collect()
}

/// The popup `percent_x` percent wide and `percent_y` percent high centred
/// in `r`: between the boundaries at `(100 - p) / 2` and `(100 - p) / 2 + p`
/// percent of each side, rounded to the nearest cell.
pub open spec fn centered_bounds(percent: int, start: int, length: int) -> (int, int) {
    let outer = (100 - percent) / 2;
    (start + (length * outer + 50) / 100, start + (length * (outer + percent) + 50) / 100)
}

/// The area of a popup centred in `r`, `percent_x` percent of its width and
/// `percent_y` percent of its height: the middle of three rows sized
/// `(100 - percent_y) / 2`, `percent_y` and `(100 - percent_y) / 2` percent,
/// then the middle of three columns of that row sized alike. The popup lies
/// within `r`; where the far edges of `r` fit in a `u16`, its edges are
/// those boundaries.
pub fn centered_rect(percent_x: u16, percent_y: u16, r: Area) -> (c: Area)
    requires
        percent_x <= 100,
        percent_y <= 100,
    ensures
        lies_within(c, r),
        fits_in_u16(r) ==> {
            let xs = centered_bounds(percent_x as int, r.x as int, r.width as int);
            let ys = centered_bounds(percent_y as int, r.y as int, r.height as int);
            &&& c.x == xs.0
            &&& c.x + c.width == xs.1
            &&& c.y == ys.0
            &&& c.y + c.height == ys.1
        },
{
    let outer_y = Extent::Percentage((100 - percent_y) / 2);
    let rows = vec![outer_y, Extent::Percentage(percent_y), outer_y];
    let band = split_area(r, Axis::Vertical, 0, &rows)[1];
    let outer_x = Extent::Percentage((100 - percent_x) / 2);
    let columns = vec![outer_x, Extent::Percentage(percent_x), outer_x];
    let popup = split_area(band, Axis::Horizontal, 0, &columns)[1];
    proof {
        assert(inner_area(r, 0) == r);
        assert(inner_area(band, 0) == band);
        reveal_with_fuel(percent_cut, 4);
        assert(all_percentages(rows@));
        assert(all_percentages(columns@));
        assert(percent_cut(rows@, 3) <= 100);
        assert(percent_cut(columns@, 3) <= 100);
        if fits_in_u16(r) {
            assert(fits_in_u16(band));
        }
    }
    popup
}

/// The header, body and footer of the screen: three rows (three high, the
/// rest, three high), each spanning the screen's width within its height.
/// On a screen at least seven rows high whose far edges fit in a `u16`, the
/// header is the top three rows, the footer the bottom three, the body the
/// rows between.
pub fn screen_areas(area: Area) -> (r: (Area, Area, Area))
    ensures
        band_of(r.0, area, Axis::Vertical),
        band_of(r.1, area, Axis::Vertical),
        band_of(r.2, area, Axis::Vertical),
        fits_in_u16(area) && area.height >= 7 ==> {
            &&& band_at(r.0, area, Axis::Vertical, area.y as int, area.y + 3)
            &&& band_at(r.1, area, Axis::Vertical, area.y + 3, area.y + area.height - 3)
            &&& band_at(r.2, area, Axis::Vertical, area.y + area.height - 3, area.y + area.height)
        },
{
    let rows = vec![Extent::Length(3), Extent::Min(1), Extent::Length(3)];
    let bands = split_area(area, Axis::Vertical, 0, &rows);
    proof {
        assert(inner_area(area, 0) == area);
        reveal_with_fuel(min_count, 4);
        reveal_with_fuel(length_cut, 4);
        reveal_with_fuel(fixed_cut, 4);
        assert(length_cut(rows@, 3) == 6);
        if area.height >= 7 {
            assert(lengths_and_one_min_fit(rows@, area.height as int));
        }
    }
    (bands[0], bands[1], bands[2])
}

/// The logo, middle and statistics of the header: three columns (30 wide,
/// the rest, 25 wide), each of the header's height within its width. On a
/// header at least 56 columns wide whose far edges fit in a `u16`, they are
/// the first 30 columns, the last 25, and those between.
pub fn header_areas(area: Area) -> (r: (Area, Area, Area))
    ensures
        band_of(r.0, area, Axis::Horizontal),
        band_of(r.1, area, Axis::Horizontal),
        band_of(r.2, area, Axis::Horizontal),
        fits_in_u16(area) && area.width >= 56 ==> {
            &&& band_at(r.0, area, Axis::Horizontal, area.x as int, area.x + 30)
            &&& band_at(r.1, area, Axis::Horizontal, area.x + 30, area.x + area.width - 25)
            &&& band_at(r.2, area, Axis::Horizontal, area.x + area.width - 25, area.x + area.width)
        },
{
    let columns = vec![Extent::Length(30), Extent::Min(1), Extent::Length(25)];
    let bands = split_area(area, Axis::Horizontal, 0, &columns);
    proof {
        assert(inner_area(area, 0) == area);
        reveal_with_fuel(min_count, 4);
        reveal_with_fuel(length_cut, 4);
        reveal_with_fuel(fixed_cut, 4);
        assert(length_cut(columns@, 3) == 55);
        if area.width >= 56 {
            assert(lengths_and_one_min_fit(columns@, area.width as int));
        }
    }
    (bands[0], bands[1], bands[2])
}

/// The library screen, inside a margin of one cell: the manga list (28 %),
/// the chapter list (32 %), and a side column (40 %) holding the manga
/// information (65 %) over the lower panel (35 %). Every part lies within
/// the area less its margin. Where that inner area's far edges fit in a
/// `u16`, the columns end at 28 % and 60 % of its width and the side column
/// is cut at 65 % of its height, each rounded to the nearest cell.
pub fn browse_areas(area: Area) -> (r: (Area, Area, Area, Area))
    ensures
        band_of(r.0, inner_area(area, 1), Axis::Horizontal),
        band_of(r.1, inner_area(area, 1), Axis::Horizontal),
        lies_within(r.2, inner_area(area, 1)),
        lies_within(r.3, inner_area(area, 1)),
        r.2.x == r.3.x,
        r.2.width == r.3.width,
        fits_in_u16(inner_area(area, 1)) ==> {
            let inner = inner_area(area, 1);
            let list_end = percent_bound(inner, Axis::Horizontal, 28);
            let chapters_end = percent_bound(inner, Axis::Horizontal, 60);
            let side = Area {
                x: chapters_end as u16,
                y: inner.y,
                width: (inner.x + inner.width - chapters_end) as u16,
                height: inner.height,
            };
            &&& band_at(r.0, inner, Axis::Horizontal, inner.x as int, list_end)
            &&& band_at(r.1, inner, Axis::Horizontal, list_end, chapters_end)
            &&& band_at(r.2, side, Axis::Vertical, inner.y as int, percent_bound(side, Axis::Vertical, 65))
            &&& band_at(
                r.3,
                side,
                Axis::Vertical,
                percent_bound(side, Axis::Vertical, 65),
                inner.y + inner.height,
            )
        },
{
    let widths = vec![Extent::Percentage(28), Extent::Percentage(32), Extent::Percentage(40)];
    let columns = split_area(area, Axis::Horizontal, 1, &widths);
    let heights = vec![Extent::Percentage(65), Extent::Percentage(35)];
    let side = split_area(columns[2], Axis::Vertical, 0, &heights);
    proof {
        assert(inner_area(columns[2], 0) == columns[2]);
        reveal_with_fuel(percent_cut, 4);
        assert(all_percentages(widths@));
        assert(all_percentages(heights@));
        assert(percent_cut(widths@, 3) == 100);
        assert(percent_cut(heights@, 2) == 100);
        let inner = inner_area(area, 1);
        lemma_percent_bound(inner, Axis::Horizontal, 28);
        lemma_percent_bound(inner, Axis::Horizontal, 60);
        lemma_percent_bound(inner, Axis::Vertical, 100);
        lemma_percent_bound(columns@[2], Axis::Vertical, 65);
        if fits_in_u16(inner) {
            assert(fits_in_u16(columns@[2]));
            let chapters_end = percent_bound(inner, Axis::Horizontal, 60);
            assert(columns@[2] == Area {
                x: chapters_end as u16,
                y: inner.y,
                width: (inner.x + inner.width - chapters_end) as u16,
                height: inner.height,
            });
        }
    }
    (columns[0], columns[1], side[0], side[1])
}

/// The manga information: the cover (35 %) beside a column (65 %) holding
/// the synopsis (75 %) over the source link (25 %), all within the area.
/// Where the far edges of the area fit in a `u16`, the cover ends at 35 %
/// of the width and the column is cut at 75 % of the height, each rounded
/// to the nearest cell.
pub fn manga_info_areas(area: Area) -> (r: (Area, Area, Area))
    ensures
        band_of(r.0, area, Axis::Horizontal),
        lies_within(r.1, area),
        lies_within(r.2, area),
        r.1.x == r.2.x,
        r.1.width == r.2.width,
        fits_in_u16(area) ==> {
            let cover_end = percent_bound(area, Axis::Horizontal, 35);
            let text = Area {
                x: cover_end as u16,
                y: area.y,
                width: (area.x + area.width - cover_end) as u16,
                height: area.height,
            };
            &&& band_at(r.0, area, Axis::Horizontal, area.x as int, cover_end)
            &&& band_at(r.1, text, Axis::Vertical, area.y as int, percent_bound(text, Axis::Vertical, 75))
            &&& band_at(
                r.2,
                text,
                Axis::Vertical,
                percent_bound(text, Axis::Vertical, 75),
                area.y + area.height,
            )
        },
{
    let widths = vec![Extent::Percentage(35), Extent::Percentage(65)];
    let columns = split_area(area, Axis::Horizontal, 0, &widths);
    let heights = vec![Extent::Percentage(75), Extent::Percentage(25)];
    let text = split_area(columns[1], Axis::Vertical, 0, &heights);
    proof {
        assert(inner_area(area, 0) == area);
        assert(inner_area(columns[1], 0) == columns[1]);
        reveal_with_fuel(percent_cut, 3);
        assert(all_percentages(widths@));
        assert(all_percentages(heights@));
        assert(percent_cut(widths@, 2) == 100);
        assert(percent_cut(heights@, 2) == 100);
        lemma_percent_bound(area, Axis::Horizontal, 35);
        lemma_percent_bound(columns@[1], Axis::Vertical, 75);
        if fits_in_u16(area) {
            assert(fits_in_u16(columns@[1]));
            let cover_end = percent_bound(area, Axis::Horizontal, 35);
            assert(columns@[1] == Area {
                x: cover_end as u16,
                y: area.y,
                width: (area.x + area.width - cover_end) as u16,
                height: area.height,
            });
        }
    }
    (columns[0], text[0], text[1])
}

/// A panel of two rows three high over the rest, as the quick actions and
/// the download form use, each row spanning the panel's width. On a panel
/// at least seven rows high whose far edges fit in a `u16`, the rows are
/// the first three, the next three and the rest.
pub fn form_areas(area: Area) -> (r: (Area, Area, Area))
    ensures
        band_of(r.0, area, Axis::Vertical),
        band_of(r.1, area, Axis::Vertical),
        band_of(r.2, area, Axis::Vertical),
        fits_in_u16(area) && area.height >= 7 ==> {
            &&& band_at(r.0, area, Axis::Vertical, area.y as int, area.y + 3)
            &&& band_at(r.1, area, Axis::Vertical, area.y + 3, area.y + 6)
            &&& band_at(r.2, area, Axis::Vertical, area.y + 6, area.y + area.height)
        },
{
    let rows = vec![Extent::Length(3), Extent::Length(3), Extent::Min(1)];
    let bands = split_area(area, Axis::Vertical, 0, &rows);
    proof {
        assert(inner_area(area, 0) == area);
        reveal_with_fuel(min_count, 4);
        reveal_with_fuel(length_cut, 4);
        reveal_with_fuel(fixed_cut, 4);
        assert(length_cut(rows@, 3) == 6);
        if area.height >= 7 {
            assert(lengths_and_one_min_fit(rows@, area.height as int));
        }
    }
    (bands[0], bands[1], bands[2])
}

/// The download panel: status (4 rows), progress (5 rows), log (the rest),
/// actions (3 rows), each spanning the panel's width. On a panel at least
/// thirteen rows high whose far edges fit in a `u16`, they follow each
/// other from the top, the log taking what the others leave.
pub fn downloading_areas(area: Area) -> (r: (Area, Area, Area, Area))
    ensures
        band_of(r.0, area, Axis::Vertical),
        band_of(r.1, area, Axis::Vertical),
        band_of(r.2, area, Axis::Vertical),
        band_of(r.3, area, Axis::Vertical),
        fits_in_u16(area) && area.height >= 13 ==> {
            &&& band_at(r.0, area, Axis::Vertical, area.y as int, area.y + 4)
            &&& band_at(r.1, area, Axis::Vertical, area.y + 4, area.y + 9)
            &&& band_at(r.2, area, Axis::Vertical, area.y + 9, area.y + area.height - 3)
            &&& band_at(r.3, area, Axis::Vertical, area.y + area.height - 3, area.y + area.height)
        },
{
    let rows = vec![Extent::Length(4), Extent::Length(5), Extent::Min(1), Extent::Length(3)];
    let bands = split_area(area, Axis::Vertical, 0, &rows);
    proof {
        assert(inner_area(area, 0) == area);
        reveal_with_fuel(min_count, 5);
        reveal_with_fuel(length_cut, 5);
        reveal_with_fuel(fixed_cut, 5);
        assert(length_cut(rows@, 4) == 12);
        if area.height >= 13 {
            assert(lengths_and_one_min_fit(rows@, area.height as int));
        }
    }
    (bands[0], bands[1], bands[2], bands[3])
}

/// The details screen: a main column (70 %) with the manga information (6
/// rows) over the chapters, and a side column (30 %) with the cover (60 %)
/// over a side panel (40 %), all within the area. Where the far edges of
/// the area fit in a `u16`, the main column ends at 70 % of the width
/// (rounded to the nearest cell), the side column is cut at 60 % of the
/// height (rounded), and, on an area at least seven rows high, the
/// information takes the top six rows.
pub fn details_areas(area: Area) -> (r: (Area, Area, Area, Area))
    ensures
        lies_within(r.0, area),
        lies_within(r.1, area),
        lies_within(r.2, area),
        lies_within(r.3, area),
        r.0.x == r.1.x && r.0.width == r.1.width,
        r.2.x == r.3.x && r.2.width == r.3.width,
        fits_in_u16(area) ==> {
            let main_end = percent_bound(area, Axis::Horizontal, 70);
            let main = Area {
                x: area.x,
                y: area.y,
                width: (main_end - area.x) as u16,
                height: area.height,
            };
            let side = Area {
                x: main_end as u16,
                y: area.y,
                width: (area.x + area.width - main_end) as u16,
                height: area.height,
            };
            &&& band_at(r.2, side, Axis::Vertical, area.y as int, percent_bound(side, Axis::Vertical, 60))
            &&& band_at(
                r.3,
                side,
                Axis::Vertical,
                percent_bound(side, Axis::Vertical, 60),
                area.y + area.height,
            )
            &&& area.height >= 7 ==> {
                &&& band_at(r.0, main, Axis::Vertical, area.y as int, area.y + 6)
                &&& band_at(r.1, main, Axis::Vertical, area.y + 6, area.y + area.height)
            }
        },
{
    let widths = vec![Extent::Percentage(70), Extent::Percentage(30)];
    let columns = split_area(area, Axis::Horizontal, 0, &widths);
    let main_rows = vec![Extent::Length(6), Extent::Min(1)];
    let main = split_area(columns[0], Axis::Vertical, 0, &main_rows);
    let side_rows = vec![Extent::Percentage(60), Extent::Percentage(40)];
    let side = split_area(columns[1], Axis::Vertical, 0, &side_rows);
    proof {
        assert(inner_area(area, 0) == area);
        assert(inner_area(columns[0], 0) == columns[0]);
        assert(inner_area(columns[1], 0) == columns[1]);
        reveal_with_fuel(percent_cut, 3);
        reveal_with_fuel(min_count, 3);
        reveal_with_fuel(length_cut, 3);
        reveal_with_fuel(fixed_cut, 3);
        assert(all_percentages(widths@));
        assert(all_percentages(side_rows@));
        assert(percent_cut(widths@, 2) == 100);
        assert(percent_cut(side_rows@, 2) == 100);
        assert(length_cut(main_rows@, 2) == 6);
        lemma_percent_bound(area, Axis::Horizontal, 70);
        lemma_percent_bound(columns@[1], Axis::Vertical, 60);
        if fits_in_u16(area) {
            assert(fits_in_u16(columns@[0]));
            assert(fits_in_u16(columns@[1]));
            let main_end = percent_bound(area, Axis::Horizontal, 70);
            assert(columns@[0] == Area {
                x: area.x,
                y: area.y,
                width: (main_end - area.x) as u16,
                height: area.height,
            });
            assert(columns@[1] == Area {
                x: main_end as u16,
                y: area.y,
                width: (area.x + area.width - main_end) as u16,
                height: area.height,
            });
            if area.height >= 7 {
                assert(lengths_and_one_min_fit(main_rows@, area.height as int));
            }
        }
    }
    (main[0], main[1], side[0], side[1])
}

/// The footer: status (40 %) beside shortcuts (60 %), each of the footer's
/// height within its width. Where the far edges of the footer fit in a
/// `u16`, the status ends at 40 % of the width, rounded to the nearest cell.
pub fn footer_areas(area: Area) -> (r: (Area, Area))
    ensures
        band_of(r.0, area, Axis::Horizontal),
        band_of(r.1, area, Axis::Horizontal),
        fits_in_u16(area) ==> {
            &&& band_at(
                r.0,
                area,
                Axis::Horizontal,
                area.x as int,
                percent_bound(area, Axis::Horizontal, 40),
            )
            &&& band_at(
                r.1,
                area,
                Axis::Horizontal,
                percent_bound(area, Axis::Horizontal, 40),
                area.x + area.width,
            )
        },
{
    let columns = vec![Extent::Percentage(40), Extent::Percentage(60)];
    let bands = split_area(area, Axis::Horizontal, 0, &columns);
    proof {
        assert(inner_area(area, 0) == area);
        reveal_with_fuel(percent_cut, 3);
        assert(all_percentages(columns@));
        assert(percent_cut(columns@, 2) == 100);
        lemma_percent_bound(area, Axis::Horizontal, 40);
    }
    (bands[0], bands[1])
}

} // verus!
