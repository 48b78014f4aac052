use nezumi_p::layout::{
    row_layout_from, footer_glyphs, footer_region, inset, layout, max_rows, row_count, row_extents, row_frame,
    Extent, Margin, Region,
};

fn region(x: u16, y: u16, width: u16, height: u16) -> Region {
    Region { x, y, width, height }
}

#[test]
fn max_rows_from_terminal_height() {
    assert_eq!(max_rows(1), 0);
    assert_eq!(max_rows(18), 0);
    assert_eq!(max_rows(24), 1);
    assert_eq!(max_rows(36), 3);
    assert_eq!(max_rows(41), 3);
    assert_eq!(max_rows(60), 7);
}

#[test]
fn no_departures_no_rows() {
    assert_eq!(row_count(0, 60), 0);
    assert!(row_extents(0, 60).is_empty());
    assert!(layout(0, 60, region(0, 0, 80, 54)).rows.is_empty());
}

#[test]
fn five_departures_three_rows() {
    assert_eq!(row_count(5, 36), 3);
    assert_eq!(
        row_extents(5, 36),
        vec![Extent::Length(7), Extent::Length(6), Extent::Length(6)]
    );
    let board = layout(5, 36, region(40, 1, 40, 30));
    assert_eq!(board.rows.len(), 3);
    assert_eq!(board.rows[0].frame, region(41, 2, 38, 6));
    assert_eq!(board.rows[1].frame, region(41, 8, 38, 6));
    assert_eq!(board.rows[2].frame, region(41, 14, 38, 6));
}

#[test]
fn tiny_terminal_has_no_rows() {
    for h in 1..24u16 {
        assert_eq!(row_count(5, h), 0);
        assert!(layout(5, h, region(0, 0, 10, h)).rows.is_empty());
    }
}

#[test]
fn inset_like_ratatui() {
    assert_eq!(inset(region(2, 3, 10, 8), Margin { horizontal: 2, vertical: 2 }), region(4, 5, 6, 4));
    assert_eq!(inset(region(2, 3, 3, 8), Margin { horizontal: 2, vertical: 2 }), region(0, 0, 0, 0));
    assert_eq!(inset(region(2, 3, 10, 1), Margin { horizontal: 1, vertical: 0 }), region(3, 3, 8, 1));
}

#[test]
fn first_row_frame_is_clamped() {
    assert_eq!(row_frame(region(10, 5, 40, 7), 0), region(11, 6, 38, 6));
    assert_eq!(row_frame(region(10, 5, 1, 0), 0), region(11, 6, 0, 0));
    assert_eq!(row_frame(region(10, 5, 40, 6), 1), region(11, 5, 38, 6));
}

#[test]
fn footer_region_is_clamped() {
    assert_eq!(footer_region(region(10, 5, 40, 1)), region(11, 4, 38, 1));
    assert_eq!(footer_region(region(0, 0, 1, 1)), region(1, 0, 0, 1));
}

#[test]
fn footer_glyph_variants() {
    assert_eq!(footer_glyphs(false), "/˳˳_˳˳][˳˳_˳˳][˳˳_˳˳][˳˳_˳˳\\");
    assert_eq!(
        footer_glyphs(true),
        "/˳˳_˳˳][˳˳_˳˳][˳˳_˳˳][˳˳_˳˳][˳˳_˳˳][˳˳_˳˳][˳˳_˳˳\\"
    );
}

#[test]
fn row_zones_fit_in_frame() {
    let board = layout(2, 60, region(40, 1, 60, 50));
    let first = board.rows[0];
    assert_eq!(first.clock.width, 10);
    assert_eq!(first.countdown.width, 16);
    assert!(first.gauge.x > first.clock.x);
    assert!(first.countdown.x > first.gauge.x);
    assert_eq!(first.footer.width, first.frame.width - 2);
}

#[test]
fn inset_saturates_doubled_margin() {
    let wide = region(10, 10, 65535, 4);
    assert_eq!(
        inset(wide, Margin { horizontal: 40000, vertical: 1 }),
        region(40010, 11, 0, 2)
    );
    assert_eq!(inset(region(0, 0, 65534, 4), Margin { horizontal: 40000, vertical: 1 }), region(0, 0, 0, 0));
}

#[test]
fn row_layout_from_split_results() {
    let frame = region(41, 2, 58, 6);
    let parts = vec![region(41, 2, 58, 5), region(41, 7, 58, 1)];
    let zones = vec![region(41, 2, 14, 5), region(55, 2, 24, 5), region(79, 2, 20, 5)];
    let row = row_layout_from(frame, &parts, &zones);
    assert_eq!(row.frame, frame);
    assert_eq!(row.clock, region(43, 4, 10, 1));
    assert_eq!(row.gauge, region(56, 3, 22, 3));
    assert_eq!(row.countdown, region(81, 4, 16, 1));
    assert_eq!(row.footer, region(42, 6, 56, 1));
}

#[test]
fn layout_keeps_split_areas() {
    let board = layout(4, 60, region(40, 1, 60, 50));
    assert_eq!(board.row_areas.len(), 4);
    assert_eq!(board.rows.len(), 4);
    for (i, (a, r)) in board.row_areas.iter().zip(board.rows.iter()).enumerate() {
        assert_eq!(r.frame, row_frame(*a, i));
    }
    assert_eq!(board.row_areas[0].height, 7);
    assert_eq!(board.row_areas[1].height, 6);
}
