//! One render frame of the departure board: the visible rows of the selected
//! station, each with its zones and its countdown.
use vstd::prelude::*;

use crate::countdown::{
    compute, countdown_text_of, duration_in_range, humanized_of, proximity_of, Countdown,
};
use crate::layout::{
    footer_glyphs, footer_glyphs_of, is_row_layout, layout, row_count_of, row_frame_of, Region,
    RowLayout,
};
use crate::navigation::App;
use crate::timetable::StationTimetable;

verus! {

/// Everything drawn for one departure row.
pub struct BoardRow {
    /// The region that the board's vertical split gave the row.
    pub area: Region,
    pub zones: RowLayout,
    pub countdown: Countdown,
    pub direction_label: String,
    pub footer_glyphs: String,
}

/// The departures of `t` that a terminal of `terminal_height` lines shows
/// are within chrono's range of `now`.
pub open spec fn countdowns_in_range(t: StationTimetable, now: i64, terminal_height: u16) -> bool {
    forall|i: int|
        0 <= i < row_count_of(t.departures@.len() as int, terminal_height as int)
            ==> duration_in_range(#[trigger] t.departures@[i].expected_departure_time - now)
}

/// The rows of one frame for station timetable `t` at instant `now`: one per
/// departure that the terminal shows, in order, each with its region, zones
/// and countdown.
pub fn board_frame(t: &StationTimetable, now: i64, terminal_height: u16, area: Region) -> (r: Vec<
    BoardRow,
>)
    requires
        countdowns_in_range(*t, now, terminal_height),
    ensures
        r@.len() == row_count_of(t.departures@.len() as int, terminal_height as int),
        forall|i: int|
            0 <= i < r@.len() ==> {
                let d = t.departures@[i];
                let row = #[trigger] r@[i];
                &&& row.zones.frame == row_frame_of(row.area, i)
                &&& is_row_layout(row.zones)
                &&& row.countdown.remaining == d.expected_departure_time - now
                &&& row.countdown.display_text@ == countdown_text_of(
                    humanized_of(row.countdown.remaining),
                    d.status,
                )
                &&& row.countdown.proximity_ratio as int == proximity_of(
                    row.countdown.remaining as int,
                )
                &&& row.direction_label == d.direction_label
                &&& row.footer_glyphs@ == footer_glyphs_of(d.has_feature_flag)
            },
{
    let board = layout(t.departures.len(), terminal_height, area);
    let mut rows: Vec<BoardRow> = Vec::new();
    let mut i: usize = 0;
    while i < board.rows.len()
        invariant
            board.rows@.len() == board.row_areas@.len(),
            board.rows@.len() == row_count_of(t.departures@.len() as int, terminal_height as int),
            board.rows@.len() <= t.departures@.len(),
            forall|k: int|
                0 <= k < board.rows@.len() ==> #[trigger] board.rows@[k].frame == row_frame_of(
                    board.row_areas@[k],
                    k,
                ) && is_row_layout(board.rows@[k]),
            countdowns_in_range(*t, now, terminal_height),
            i <= board.rows@.len(),
            rows@.len() == i,
            forall|k: int|
                0 <= k < i ==> {
                    let d = t.departures@[k];
                        let row = #[trigger] rows@[k];
                        &&& row.zones.frame == row_frame_of(row.area, k)
                        &&& is_row_layout(row.zones)
                        &&& row.countdown.remaining == d.expected_departure_time - now
                        &&& row.countdown.display_text@ == countdown_text_of(
                            humanized_of(row.countdown.remaining),
                            d.status,
                        )
                        &&& row.countdown.proximity_ratio as int == proximity_of(
                            row.countdown.remaining as int,
                        )
                        &&& row.direction_label == d.direction_label
                        &&& row.footer_glyphs@ == footer_glyphs_of(d.has_feature_flag)
                },
        decreases board.rows@.len() - i,
    {
        let d = &t.departures[i];
        let row = BoardRow {
            area: board.row_areas[i],
            zones: board.rows[i],
            countdown: compute(d, now),
            direction_label: d.direction_label.clone(),
            footer_glyphs: footer_glyphs(d.has_feature_flag),
        };
        rows.push(row);
        i = i + 1;
    }
    rows
}

/// The timetable of the station under the cursor, if the store holds one.
pub fn selected_timetable<'a>(store: &'a Vec<StationTimetable>, app: &App) -> (r: Option<
    &'a StationTimetable,
>)
    ensures
        app.selected < store@.len() ==> r == Some(&store@[app.selected as int]),
        app.selected >= store@.len() ==> r is None,
{
    if app.selected < store.len() {
        Some(&store[app.selected])
    } else {
        None
    }
}

} // verus!
