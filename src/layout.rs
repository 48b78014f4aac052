//! Board layout engine: how many departure rows fit in the terminal, how tall
//! each one is, and how each row is divided into its zones.
use vstd::prelude::*;
use vstd::string::*;

use ratatui::layout::{Constraint, Direction, Layout, Rect};

verus! {

/// Height of the first (focused) departure row.
pub const FIRST_ROW_HEIGHT: u16 = 7;

/// Height of every later departure row.
pub const ROW_HEIGHT: u16 = 6;

/// Terminal lines per departure row when bounding the number of rows.
pub const LINES_PER_ROW: u16 = 6;

/// Rows of terminal height held back for the title, status and borders.
pub const RESERVED_ROWS: u16 = 3;

/// Width of the zone that holds the departure clock time.
pub const CLOCK_ZONE_WIDTH: u16 = 14;

/// Width of the zone that holds the countdown text.
pub const COUNTDOWN_ZONE_WIDTH: u16 = 20;

/// A rectangle of terminal cells.
#[derive(Clone, Copy, Debug, PartialEq, Eq, Structural)]
pub struct Region {
    pub x: u16,
    pub y: u16,
    pub width: u16,
    pub height: u16,
}

/// Space kept free on each side of a region.
#[derive(Clone, Copy, Debug, PartialEq, Eq, Structural)]
pub struct Margin {
    pub horizontal: u16,
    pub vertical: u16,
}

/// Direction in which a region is split.
#[derive(Clone, Copy, Debug, PartialEq, Eq, Structural)]
pub enum Axis {
    Vertical,
    Horizontal,
}

/// Size asked for one part of a split.
#[derive(Clone, Copy, Debug, PartialEq, Eq, Structural)]
pub enum Extent {
    /// A fixed number of cells.
    Length(u16),
    /// A share of whatever is left.
    Fill(u16),
}

/// The zones of one departure row.
#[derive(Clone, Copy, Debug, PartialEq, Eq, Structural)]
pub struct RowLayout {
    /// Bordered box of the row.
    pub frame: Region,
    /// Left zone: the departure clock time.
    pub clock: Region,
    /// Middle zone: the proximity gauge.
    pub gauge: Region,
    /// Right zone: the countdown text.
    pub countdown: Region,
    /// Decorative strip under the row.
    pub footer: Region,
}

/// The rows of a departure board.
#[derive(Clone, Debug)]
pub struct BoardLayout {
    /// The region that the vertical split gave each row.
    pub row_areas: Vec<Region>,
    pub rows: Vec<RowLayout>,
}

/// Relies on ratatui's `Layout::split`: one region per constraint. Which
/// regions come back is left open: where several splits are equally good,
/// the solver's choice may differ from one process to another.
#[verifier::external_body]
fn split_region(area: Region, axis: Axis, extents: &Vec<Extent>) -> (r: Vec<Region>)
    ensures
        r@.len() == extents@.len(),
{
    let direction = match axis {
        Axis::Vertical => Direction::Vertical,
        Axis::Horizontal => Direction::Horizontal,
    };
    let constraints = extents.iter().map(|e| match e {
        Extent::Length(n) => Constraint::Length(*n),
        Extent::Fill(n) => Constraint::Fill(*n),
    });
    let rect = Rect::new(area.x, area.y, area.width, area.height);
    let parts = Layout::default().direction(direction).constraints(constraints).split(rect);
    parts.iter().map(|p| Region { x: p.x, y: p.y, width: p.width, height: p.height }).collect()
}

/// `a - b`, or zero where that would be negative.
pub open spec fn clamped_sub(a: int, b: int) -> int {
    if a >= b {
        a - b
    } else {
        0
    }
}

/// `a + b`, or the largest cell coordinate where that would not fit.
pub open spec fn capped_add(a: int, b: int) -> int {
    if a + b <= u16::MAX {
        a + b
    } else {
        u16::MAX as int
    }
}

/// The most departure rows that a terminal of `terminal_height` lines shows.
pub open spec fn max_rows_of(terminal_height: int) -> int {
    clamped_sub(terminal_height / 6, 3)
}

/// The number of rows drawn for `departure_count` departures.
pub open spec fn row_count_of(departure_count: int, terminal_height: int) -> int {
    if departure_count <= max_rows_of(terminal_height) {
        departure_count
    } else {
        max_rows_of(terminal_height)
    }
}

/// Height of row `i`: the first row is taller than the others.
pub open spec fn row_height_of(i: int) -> u16 {
    if i == 0 {
        FIRST_ROW_HEIGHT
    } else {
        ROW_HEIGHT
    }
}

/// The vertical constraints of the board's rows.
pub open spec fn row_extents_of(departure_count: int, terminal_height: int) -> Seq<Extent> {
    Seq::new(
        row_count_of(departure_count, terminal_height) as nat,
        |i: int| Extent::Length(row_height_of(i)),
    )
}

/// Twice a margin, saturated at the largest cell count.
pub open spec fn doubled_of(m: int) -> int {
    if 2 * m <= u16::MAX {
        2 * m
    } else {
        u16::MAX as int
    }
}

/// `area` shrunk by `margin` on every side; an area too small for the margin
/// becomes the empty region at the origin.
pub open spec fn inset_of(area: Region, margin: Margin) -> Region {
    let dh = doubled_of(margin.horizontal as int);
    let dv = doubled_of(margin.vertical as int);
    if area.width < dh || area.height < dv {
        Region { x: 0, y: 0, width: 0, height: 0 }
    } else {
        Region {
            x: capped_add(area.x as int, margin.horizontal as int) as u16,
            y: capped_add(area.y as int, margin.vertical as int) as u16,
            width: (area.width - dh) as u16,
            height: (area.height - dv) as u16,
        }
    }
}

/// The bordered box of row `index` inside the area the split gave it.
pub open spec fn row_frame_of(row: Region, index: int) -> Region {
    if index == 0 {
        Region {
            x: capped_add(row.x as int, 1) as u16,
            y: capped_add(row.y as int, 1) as u16,
            width: clamped_sub(row.width as int, 2) as u16,
            height: clamped_sub(row.height as int, 1) as u16,
        }
    } else {
        inset_of(row, Margin { horizontal: 1, vertical: 0 })
    }
}

/// The footer strip drawn over the last line of a row's box.
pub open spec fn footer_of(bottom: Region) -> Region {
    Region {
        x: capped_add(bottom.x as int, 1) as u16,
        y: clamped_sub(bottom.y as int, 1) as u16,
        width: clamped_sub(bottom.width as int, 2) as u16,
        height: bottom.height,
    }
}

/// The glyphs of a row's footer strip.
pub open spec fn footer_glyphs_of(has_feature_flag: bool) -> Seq<char> {
    if has_feature_flag {
        "/˳˳_˳˳][˳˳_˳˳][˳˳_˳˳][˳˳_˳˳][˳˳_˳˳][˳˳_˳˳][˳˳_˳˳\\"@
    } else {
        "/˳˳_˳˳][˳˳_˳˳][˳˳_˳˳][˳˳_˳˳\\"@
    }
}

/// The zones of a row whose bordered box is `frame`, where splitting it into
/// a body and its last line gave `parts`, and splitting the body into clock,
/// gauge and countdown zones gave `zones`.
pub open spec fn row_layout_of(frame: Region, parts: Seq<Region>, zones: Seq<Region>) -> RowLayout {
    RowLayout {
        frame,
        clock: inset_of(zones[0], Margin { horizontal: 2, vertical: 2 }),
        gauge: inset_of(zones[1], Margin { horizontal: 1, vertical: 1 }),
        countdown: inset_of(zones[2], Margin { horizontal: 2, vertical: 2 }),
        footer: footer_of(parts[1]),
    }
}

/// `r` is the layout of its frame for some outcome of the two splits of a
/// row.
pub open spec fn is_row_layout(r: RowLayout) -> bool {
    exists|parts: Seq<Region>, zones: Seq<Region>|
        parts.len() == 2 && zones.len() == 3 && #[trigger] row_layout_of(r.frame, parts, zones)
            == r
}

/// `a + b`, capped at the largest cell coordinate.
fn capped_add_u16(a: u16, b: u16) -> (r: u16)
    ensures
        r as int == capped_add(a as int, b as int),
{
    if a <= u16::MAX - b {
        a + b
    } else {
        u16::MAX
    }
}

/// `a - b`, clamped at zero.
fn clamped_sub_u16(a: u16, b: u16) -> (r: u16)
    ensures
        r as int == clamped_sub(a as int, b as int),
{
    if a >= b {
        a - b
    } else {
        0
    }
}

/// The most departure rows that a terminal of `terminal_height` lines shows.
pub fn max_rows(terminal_height: u16) -> (r: usize)
    ensures
        r as int == max_rows_of(terminal_height as int),
{
    clamped_sub_u16(terminal_height / LINES_PER_ROW, RESERVED_ROWS) as usize
}

/// The number of rows drawn for `departure_count` departures.
pub fn row_count(departure_count: usize, terminal_height: u16) -> (r: usize)
    ensures
        r as int == row_count_of(departure_count as int, terminal_height as int),
        r <= departure_count,
{
    let limit = max_rows(terminal_height);
    if departure_count <= limit {
        departure_count
    } else {
        limit
    }
}

/// The vertical constraints of the board's rows: 7 cells for the first row,
/// 6 for each later one, and no row beyond what the terminal shows.
pub fn row_extents(departure_count: usize, terminal_height: u16) -> (r: Vec<Extent>)
    ensures
        r@ == row_extents_of(departure_count as int, terminal_height as int),
{
    let n = row_count(departure_count, terminal_height);
    let mut extents: Vec<Extent> = Vec::new();
    let mut i: usize = 0;
    while i < n
        invariant
            i <= n,
            n as int == row_count_of(departure_count as int, terminal_height as int),
            extents@ == row_extents_of(departure_count as int, terminal_height as int).take(
                i as int,
            ),
        decreases n - i,
    {
        let height = if i == 0 {
            FIRST_ROW_HEIGHT
        } else {
            ROW_HEIGHT
        };
        extents.push(Extent::Length(height));
        i = i + 1;
        assert(extents@ =~= row_extents_of(departure_count as int, terminal_height as int).take(
            i as int,
        ));
    }
    assert(extents@ =~= row_extents_of(departure_count as int, terminal_height as int));
    extents
}

/// Twice a margin, saturated at the largest cell count.
fn doubled(m: u16) -> (r: u16)
    ensures
        r as int == doubled_of(m as int),
{
    if m <= u16::MAX / 2 {
        2 * m
    } else {
        u16::MAX
    }
}

/// `area` shrunk by `margin` on every side, as ratatui's `Rect::inner` does
/// (the doubled margin saturates).
pub fn inset(area: Region, margin: Margin) -> (r: Region)
    ensures
        r == inset_of(area, margin),
{
    let dh = doubled(margin.horizontal);
    let dv = doubled(margin.vertical);
    if area.width < dh || area.height < dv {
        Region { x: 0, y: 0, width: 0, height: 0 }
    } else {
        Region {
            x: capped_add_u16(area.x, margin.horizontal),
            y: capped_add_u16(area.y, margin.vertical),
            width: area.width - dh,
            height: area.height - dv,
        }
    }
}

/// The bordered box of row `index` inside the area the split gave it: the
/// first row loses its top line and both side columns, later rows one
/// column on each side.
pub fn row_frame(row: Region, index: usize) -> (r: Region)
    ensures
        r == row_frame_of(row, index as int),
{
    if index == 0 {
        Region {
            x: capped_add_u16(row.x, 1),
            y: capped_add_u16(row.y, 1),
            width: clamped_sub_u16(row.width, 2),
            height: clamped_sub_u16(row.height, 1),
        }
    } else {
        inset(row, Margin { horizontal: 1, vertical: 0 })
    }
}

/// The footer strip of a row whose box ends with the line `bottom`.
pub fn footer_region(bottom: Region) -> (r: Region)
    ensures
        r == footer_of(bottom),
{
    Region {
        x: capped_add_u16(bottom.x, 1),
        y: clamped_sub_u16(bottom.y, 1),
        width: clamped_sub_u16(bottom.width, 2),
        height: bottom.height,
    }
}

/// The glyphs of a row's footer strip: a longer train where the vehicle has
/// a listed feature.
pub fn footer_glyphs(has_feature_flag: bool) -> (r: String)
    ensures
        r@ == footer_glyphs_of(has_feature_flag),
{
    if has_feature_flag {
        String::from_str("/˳˳_˳˳][˳˳_˳˳][˳˳_˳˳][˳˳_˳˳][˳˳_˳˳][˳˳_˳˳][˳˳_˳˳\\")
    } else {
        String::from_str("/˳˳_˳˳][˳˳_˳˳][˳˳_˳˳][˳˳_˳˳\\")
    }
}

/// The zones of a row whose bordered box is `frame`, from the two splits'
/// results: `parts` (body, last line) and `zones` (clock, gauge, countdown
/// parts of the body).
pub fn row_layout_from(frame: Region, parts: &Vec<Region>, zones: &Vec<Region>) -> (r: RowLayout)
    requires
        parts@.len() == 2,
        zones@.len() == 3,
    ensures
        r == row_layout_of(frame, parts@, zones@),
{
    RowLayout {
        frame,
        clock: inset(zones[0], Margin { horizontal: 2, vertical: 2 }),
        gauge: inset(zones[1], Margin { horizontal: 1, vertical: 1 }),
        countdown: inset(zones[2], Margin { horizontal: 2, vertical: 2 }),
        footer: footer_region(parts[1]),
    }
}

/// The zones of a row whose bordered box is `frame`: the box is split into
/// a body and its last line, and the body into a 14-cell clock zone, a
/// flexible gauge zone and a 20-cell countdown zone.
pub fn row_layout(frame: Region) -> (r: RowLayout)
    ensures
        r.frame == frame,
        is_row_layout(r),
{
    let body = vec![Extent::Fill(1), Extent::Length(1)];
    let parts = split_region(frame, Axis::Vertical, &body);
    let zone_sizes = vec![
        Extent::Length(CLOCK_ZONE_WIDTH),
        Extent::Fill(1),
        Extent::Length(COUNTDOWN_ZONE_WIDTH),
    ];
    let zones = split_region(parts[0], Axis::Horizontal, &zone_sizes);
    let r = row_layout_from(frame, &parts, &zones);
    assert(row_layout_of(r.frame, parts@, zones@) == r);
    r
}

/// Lays out `departure_count` departure rows in `area` of a terminal that is
/// `terminal_height` lines tall: `area` is split by `row_extents`, and each
/// row's box and zones are taken from the region it got.
pub fn layout(departure_count: usize, terminal_height: u16, area: Region) -> (r: BoardLayout)
    ensures
        r.row_areas@.len() == row_count_of(departure_count as int, terminal_height as int),
        r.rows@.len() == r.row_areas@.len(),
        forall|i: int|
            0 <= i < r.rows@.len() ==> #[trigger] r.rows@[i].frame == row_frame_of(
                r.row_areas@[i],
                i,
            ) && is_row_layout(r.rows@[i]),
{
    let extents = row_extents(departure_count, terminal_height);
    let areas = split_region(area, Axis::Vertical, &extents);
    let n = areas.len();
    let mut rows: Vec<RowLayout> = Vec::new();
    let mut i: usize = 0;
    while i < n
        invariant
            i <= n,
            n == areas@.len(),
            rows@.len() == i,
            forall|k: int|
                0 <= k < i ==> #[trigger] rows@[k].frame == row_frame_of(areas@[k], k)
                    && is_row_layout(rows@[k]),
        decreases n - i,
    {
        let frame = row_frame(areas[i], i);
        rows.push(row_layout(frame));
        i = i + 1;
    }
    BoardLayout { row_areas: areas, rows }
}

/// Row count and sizes of the board: no rows without departures, as many rows
/// as departures up to the terminal's bound, a first row 7 cells tall and
/// later rows 6 cells tall.
pub proof fn lemma_board_rows(departure_count: nat, terminal_height: u16)
    ensures
        row_count_of(0, terminal_height as int) == 0,
        row_count_of(departure_count as int, terminal_height as int) == if departure_count
            <= max_rows_of(terminal_height as int) {
            departure_count as int
        } else {
            max_rows_of(terminal_height as int)
        },
        max_rows_of(terminal_height as int) >= 0,
        row_extents_of(departure_count as int, terminal_height as int).len() == row_count_of(
            departure_count as int,
            terminal_height as int,
        ),
        forall|i: int|
            0 <= i < row_count_of(departure_count as int, terminal_height as int) ==> #[trigger] row_extents_of(
                departure_count as int,
                terminal_height as int,
            )[i] == Extent::Length(if i == 0 {
                7u16
            } else {
                6u16
            }),
{
}

} // verus!
