use gauge2::gauge::{Gauge2, GaugeError, Label};
use tui::buffer::{Buffer, Cell};
use tui::layout::Rect;
use tui::style::{Color, Modifier, Style};
use tui::widgets::{Block, Borders};

#[test]
fn gauge_invalid_percentage() {
    let r = Gauge2::default().percent(110);
    assert_eq!(r.err(), Some(GaugeError::PercentOutOfRange));
}

#[test]
fn gauge_invalid_ratio_upper_bound() {
    let r = Gauge2::default().ratio(11, 10);
    assert_eq!(r.err(), Some(GaugeError::RatioOutOfRange));
}

#[test]
fn gauge_invalid_ratio_lower_bound() {
    let r = Gauge2::default().ratio(-5, 10);
    assert_eq!(r.err(), Some(GaugeError::RatioOutOfRange));
}

#[test]
fn ratio_bounds_are_inclusive() {
    assert!(Gauge2::default().ratio(0, 1).is_ok());
    assert!(Gauge2::default().ratio(1, 1).is_ok());
    let r = Gauge2::default().ratio(0, 0);
    assert_eq!(r.err(), Some(GaugeError::RatioOutOfRange));
}

#[test]
fn percent_sets_ratio() {
    let g = Gauge2::default().percent(20).unwrap();
    assert_eq!(g.ratio_num, 20);
    assert_eq!(g.ratio_den, 100);
    assert!(Gauge2::default().percent(0).is_ok());
    assert!(Gauge2::default().percent(100).is_ok());
    assert_eq!(
        Gauge2::default().percent(101).err(),
        Some(GaugeError::PercentOutOfRange)
    );
}

fn row_symbols(buf: &Buffer, y: u16) -> String {
    let mut s = String::new();
    for x in buf.area.left()..buf.area.right() {
        s.push_str(&buf.get(x, y).symbol);
    }
    s
}

#[test]
fn default_label_is_rounded_percent() {
    // ratio 0.2 -> "20%", centered on the single row.
    let area = Rect::new(0, 0, 10, 1);
    let mut buf = Buffer::empty(area);
    Gauge2::default().percent(20).unwrap().render(area, &mut buf);
    assert_eq!(row_symbols(&buf, 0), "   20%    ");

    // ratio 0.205 rounds half up to "21%".
    let mut buf2 = Buffer::empty(area);
    Gauge2::default().ratio(205, 1000).unwrap().render(area, &mut buf2);
    assert_eq!(row_symbols(&buf2, 0), "   21%    ");

    // boundary labels
    let mut buf3 = Buffer::empty(area);
    Gauge2::default().render(area, &mut buf3);
    assert_eq!(row_symbols(&buf3, 0), "    0%    ");
    let mut buf4 = Buffer::empty(area);
    Gauge2::default().percent(100).unwrap().render(area, &mut buf4);
    assert_eq!(row_symbols(&buf4, 0), "   100%   ");
}

fn swapped_count(buf: &Buffer, y: u16, fg: Color, bg: Color) -> usize {
    let mut n = 0;
    for x in buf.area.left()..buf.area.right() {
        let c = buf.get(x, y);
        if c.fg == bg && c.bg == fg {
            n += 1;
        }
    }
    n
}

#[test]
fn fill_span_matches_rounded_ratio() {
    let area = Rect::new(0, 0, 8, 1);
    let style = Style::default().fg(Color::Magenta).bg(Color::Cyan);

    // ratio 1/2 of width 8 -> 4 swapped cells.
    let mut buf = Buffer::empty(area);
    Gauge2::default()
        .gauge_style(style)
        .ratio(1, 2)
        .unwrap()
        .render(area, &mut buf);
    assert_eq!(swapped_count(&buf, 0, Color::Magenta, Color::Cyan), 4);

    // ratio 0 -> no swapped cells.
    let mut buf0 = Buffer::empty(area);
    Gauge2::default()
        .gauge_style(style)
        .ratio(0, 1)
        .unwrap()
        .render(area, &mut buf0);
    assert_eq!(swapped_count(&buf0, 0, Color::Magenta, Color::Cyan), 0);

    // ratio 1 -> all 8 cells swapped.
    let mut buf1 = Buffer::empty(area);
    Gauge2::default()
        .gauge_style(style)
        .ratio(1, 1)
        .unwrap()
        .render(area, &mut buf1);
    assert_eq!(swapped_count(&buf1, 0, Color::Magenta, Color::Cyan), 8);

    // rounding: 3/8 of width 8 -> exactly 3; 5/12 of 8 -> round(3.33) = 3.
    let mut buf2 = Buffer::empty(area);
    Gauge2::default()
        .gauge_style(style)
        .ratio(5, 12)
        .unwrap()
        .render(area, &mut buf2);
    assert_eq!(swapped_count(&buf2, 0, Color::Magenta, Color::Cyan), 3);
}

#[test]
fn single_row_area_bypasses_block_inset() {
    // With a bordered block and a one-row area, the drawable rectangle is
    // the full area: the fill still covers all ten columns.
    let area = Rect::new(0, 0, 10, 1);
    let style = Style::default().fg(Color::White).bg(Color::Black);
    let mut buf = Buffer::empty(Rect::new(0, 0, 11, 1));
    Gauge2::default()
        .block(Block::default().borders(Borders::ALL))
        .gauge_style(style)
        .percent(100)
        .unwrap()
        .render(area, &mut buf);
    for x in 0..10 {
        let c = buf.get(x, 0);
        assert_eq!(c.fg, Color::Black, "column {}", x);
        assert_eq!(c.bg, Color::White, "column {}", x);
    }
}

#[test]
fn taller_block_uses_inner_rectangle() {
    // area 10x3 with borders: drawable is (1,1)..(9,2); percent 50 of
    // width 8 fills 4 cells; label "50%" is centered at column 3.
    let area = Rect::new(0, 0, 10, 3);
    let base = Style::default().fg(Color::Yellow);
    let fill = Style::default().fg(Color::Magenta).bg(Color::Cyan);
    let mut buf = Buffer::empty(Rect::new(0, 0, 11, 3));
    Gauge2::default()
        .block(Block::default().borders(Borders::ALL))
        .style(base)
        .gauge_style(fill)
        .percent(50)
        .unwrap()
        .render(area, &mut buf);
    // the border keeps the base foreground and its own glyph
    assert_ne!(buf.get(0, 0).symbol, " ");
    assert_eq!(buf.get(0, 0).fg, Color::Yellow);
    // filled inner cells have the swapped colors
    for x in 1..5 {
        let c = buf.get(x, 1);
        assert_eq!(c.fg, Color::Cyan, "column {}", x);
        assert_eq!(c.bg, Color::Magenta, "column {}", x);
    }
    // unfilled inner cells keep the fill style unswapped
    let c = buf.get(6, 1);
    assert_eq!(c.fg, Color::Magenta);
    assert_eq!(c.bg, Color::Cyan);
    // label: start = 1 + (8-3)/2 = 3
    assert_eq!(buf.get(3, 1).symbol, "5");
    assert_eq!(buf.get(4, 1).symbol, "0");
    assert_eq!(buf.get(5, 1).symbol, "%");
}

#[test]
fn label_only_on_center_row() {
    // 3 rows without a block: the label sits on row 0 + 3/2 = 1 only.
    let area = Rect::new(0, 0, 9, 3);
    let mut buf = Buffer::empty(area);
    Gauge2::default().render(area, &mut buf);
    assert_eq!(row_symbols(&buf, 0), "         ");
    assert_eq!(row_symbols(&buf, 1), "   0%    ");
    assert_eq!(row_symbols(&buf, 2), "         ");
}

#[test]
fn explicit_label_overrides_default() {
    let area = Rect::new(0, 0, 11, 1);
    let mut buf = Buffer::empty(area);
    Gauge2::default()
        .label(Label {
            content: String::from("busy"),
            style: Style::default().fg(Color::Green),
        })
        .render(area, &mut buf);
    // start = (11-4)/2 = 3
    assert_eq!(row_symbols(&buf, 0), "   busy    ");
    assert_eq!(buf.get(3, 0).fg, Color::Green);
}

#[test]
fn rendering_is_deterministic() {
    let area = Rect::new(0, 0, 12, 2);
    let style = Style::default().fg(Color::Red).bg(Color::Blue);
    let mut buf1 = Buffer::empty(area);
    let mut buf2 = Buffer::empty(area);
    Gauge2::default()
        .style(Style::default().bg(Color::Gray))
        .gauge_style(style)
        .ratio(2, 3)
        .unwrap()
        .render(area, &mut buf1);
    Gauge2::default()
        .style(Style::default().bg(Color::Gray))
        .gauge_style(style)
        .ratio(2, 3)
        .unwrap()
        .render(area, &mut buf2);
    assert_eq!(buf1, buf2);
}

#[test]
fn end_to_end_half_gauge() {
    // area 10x1, no container, ratio 0.5, no label: fill end 5, label
    // "50%" centered at column 3 with max width 7, swap re-applied to
    // columns 0..5 under the label.
    let area = Rect::new(0, 0, 10, 1);
    let mut cell = Cell::default();
    cell.set_symbol(".");
    cell.set_fg(Color::Red);
    cell.set_bg(Color::Green);
    let mut buf = Buffer::filled(area, &cell);
    Gauge2::default().ratio(1, 2).unwrap().render(area, &mut buf);
    let expect_sym = [" ", " ", " ", "5", "0", "%", ".", ".", ".", "."];
    for x in 0..10u16 {
        let c = buf.get(x, 0);
        assert_eq!(c.symbol, expect_sym[x as usize], "column {}", x);
        if x < 5 {
            // swapped fill colors; both unset, so both reset
            assert_eq!(c.fg, Color::Reset, "column {}", x);
            assert_eq!(c.bg, Color::Reset, "column {}", x);
        } else {
            // untouched colors survive outside the filled span
            assert_eq!(c.fg, Color::Red, "column {}", x);
            assert_eq!(c.bg, Color::Green, "column {}", x);
        }
        assert_eq!(c.modifier, Modifier::empty());
    }
}

#[test]
fn wide_label_is_clipped_to_the_area() {
    // A label wider than the drawable rectangle keeps its centered start
    // column, which lies left of the rectangle; the part before the left
    // edge is clipped away and the rest is cut off at the right edge, so
    // the label's middle shows. Width 5, 11 characters: start (5-11)/2 = -3.
    let area = Rect::new(0, 0, 5, 1);
    let mut buf = Buffer::empty(area);
    Gauge2::default()
        .label(Label {
            content: String::from("downloading"),
            style: Style::default(),
        })
        .render(area, &mut buf);
    assert_eq!(row_symbols(&buf, 0), "nload");

    // odd overhang floors the start column: width 4, start (4-11)/2 = -4.
    let area2 = Rect::new(0, 0, 4, 1);
    let mut buf2 = Buffer::empty(area2);
    Gauge2::default()
        .label(Label {
            content: String::from("downloading"),
            style: Style::default(),
        })
        .render(area2, &mut buf2);
    assert_eq!(row_symbols(&buf2, 0), "load");
}

#[test]
fn zero_width_area_writes_nothing() {
    let area = Rect::new(0, 0, 0, 1);
    let mut buf = Buffer::empty(Rect::new(0, 0, 3, 1));
    Gauge2::default().percent(100).unwrap().render(area, &mut buf);
    assert_eq!(buf, Buffer::empty(Rect::new(0, 0, 3, 1)));
}

#[test]
fn degenerate_height_paints_styles_only() {
    // A zero-height area is a no-op beyond the style passes.
    let area = Rect::new(0, 0, 4, 0);
    let mut buf = Buffer::empty(Rect::new(0, 0, 4, 2));
    Gauge2::default().percent(75).unwrap().render(area, &mut buf);
    assert_eq!(buf, Buffer::empty(Rect::new(0, 0, 4, 2)));
}
