//! The trusted boundary around the `tui` crate.
//!
//! Rendering works on `tui`'s cell buffer, styles and optional surrounding
//! block. The plain data types (`Rect`, `Color`, `Style`) are declared so
//! their public fields are visible to verification; the buffer and the
//! block are opaque, and every call into `tui` that the gauge logic makes
//! goes through one of the contracted wrappers below.

use vstd::prelude::*;
use tui::buffer::Buffer;
use tui::layout::Rect;
use tui::style::{Color, Modifier, Style};
use tui::widgets::{Block, Widget};
use unicode_width::UnicodeWidthStr;
use crate::model::{CellModel, in_rect, rect_bounded, rect_within, styled_cell};

verus! {

#[verifier::external_type_specification]
pub struct ExRect(Rect);

#[verifier::external_type_specification]
pub struct ExColor(Color);

#[verifier::external_type_specification]
#[verifier::external_body]
pub struct ExModifier(Modifier);

#[verifier::external_type_specification]
pub struct ExStyle(Style);

#[verifier::external_type_specification]
#[verifier::external_body]
pub struct ExBuffer(Buffer);

#[verifier::external_type_specification]
#[verifier::external_body]
pub struct ExBlock<'a>(Block<'a>);

/// The cell grid of a buffer: one model cell for each coordinate of the
/// buffer's area. The domain of the map is exactly the set of coordinates
/// the buffer covers.
pub uninterp spec fn buf_cells(b: Buffer) -> Map<(int, int), CellModel>;

/// The terminal display width of a string, as the `unicode-width` tables
/// define it. It depends on the characters alone.
pub uninterp spec fn display_width(s: Seq<char>) -> nat;

/// Every character of `s` is printable ASCII, so each occupies exactly one
/// cell and forms its own grapheme.
pub open spec fn ascii_label(s: Seq<char>) -> bool {
    forall|i: int| 0 <= i < s.len() ==> ' ' <= #[trigger] s[i] <= '~'
}

/// Relies on `unicode_width::UnicodeWidthStr::width`: the sum of the
/// character widths; printable ASCII characters have width 1 each.
#[verifier::external_body]
pub(crate) fn str_display_width(s: &String) -> (w: usize)
    ensures
        w == display_width(s@),
        ascii_label(s@) ==> w == s@.len(),
{
    UnicodeWidthStr::width(s.as_str())
}

/// Relies on the derived `Clone` of `tui::style::Style`, a `Copy` type: the
/// clone is the same value.
pub assume_specification[ <Style as Clone>::clone ](s: &Style) -> (r: Style)
    ensures
        r == *s,
;

/// Relies on the derived `Clone` of `tui::widgets::Block`; nothing is
/// claimed of the result.
pub assume_specification<'a>[ <Block<'a> as Clone>::clone ](b: &Block<'a>) -> Block<'a>;

/// Relies on `tui::style::Style::default`: both colors unset.
#[verifier::external_body]
pub(crate) fn style_default() -> (s: Style)
    ensures
        s.fg is None,
        s.bg is None,
{
    Style::default()
}

/// Relies on `tui::buffer::Buffer::set_style`: applies the style to every
/// cell of `area`, replacing each color the style sets and keeping the rest.
#[verifier::external_body]
pub(crate) fn buf_set_style(buf: &mut Buffer, area: Rect, style: Style)
    requires
        rect_bounded(area),
        forall|x: int, y: int|
            in_rect(area, x, y) ==> buf_cells(*old(buf)).dom().contains((x, y)),
    ensures
        buf_cells(*final(buf)).dom() == buf_cells(*old(buf)).dom(),
        forall|x: int, y: int|
            buf_cells(*old(buf)).dom().contains((x, y)) ==> buf_cells(*final(buf))[(x, y)] == (if in_rect(
                area,
                x,
                y,
            ) {
                styled_cell(buf_cells(*old(buf))[(x, y)], style.fg, style.bg)
            } else {
                buf_cells(*old(buf))[(x, y)]
            }),
{
    buf.set_style(area, style)
}

/// The content rectangle that `tui::widgets::Block::inner` computes for a
/// block over a given area: a function of the block's borders and title and
/// of the area alone.
pub uninterp spec fn block_inner_rect(b: Block<'_>, area: Rect) -> Rect;

/// Relies on `tui::widgets::Block::inner`: the content rectangle after the
/// block's borders and title take their space; it never grows past `area`.
#[verifier::external_body]
pub(crate) fn block_inner(b: &Block<'_>, area: Rect) -> (r: Rect)
    requires
        rect_bounded(area),
    ensures
        r == block_inner_rect(*b, area),
        rect_within(r, area),
{
    b.inner(area)
}

/// Relies on `tui::widgets::Block::render` (through `Widget`): draws the
/// block's borders and title, touching only cells inside `area`. The title
/// placement can compute a start column one past the area's right edge (a
/// right-aligned title of display width zero with no right border); the
/// buffer's index check asserts that column lies in the buffer, so a cell
/// right of the area's top row is demanded unless the area is empty — in
/// that corner the call writes nothing there.
#[verifier::external_body]
pub(crate) fn block_render(b: Block<'_>, area: Rect, buf: &mut Buffer)
    requires
        rect_bounded(area),
        area.width * area.height <= u16::MAX,
        forall|x: int, y: int|
            in_rect(area, x, y) ==> buf_cells(*old(buf)).dom().contains((x, y)),
        area.width == 0 || area.height == 0 || buf_cells(*old(buf)).dom().contains(
            (area.x + area.width, area.y as int),
        ),
    ensures
        buf_cells(*final(buf)).dom() == buf_cells(*old(buf)).dom(),
        forall|x: int, y: int|
            buf_cells(*old(buf)).dom().contains((x, y)) && !in_rect(area, x, y)
                ==> buf_cells(*final(buf))[(x, y)] == buf_cells(*old(buf))[(x, y)],
{
    b.render(area, buf)
}

/// Relies on `tui::buffer::Buffer::get_mut` and `Cell::set_symbol`: replaces
/// the symbol of the cell at `(x, y)` with a single space.
#[verifier::external_body]
pub(crate) fn set_symbol_space(buf: &mut Buffer, x: u16, y: u16)
    requires
        buf_cells(*old(buf)).dom().contains((x as int, y as int)),
    ensures
        buf_cells(*final(buf)) == buf_cells(*old(buf)).insert(
            (x as int, y as int),
            (CellModel { symbol: seq![' '], ..buf_cells(*old(buf))[(x as int, y as int)] }),
        ),
{
    buf.get_mut(x, y).set_symbol(" ");
}

/// Relies on `tui::buffer::Buffer::get_mut` and `Cell::set_fg`: replaces the
/// foreground color of the cell at `(x, y)`.
#[verifier::external_body]
pub(crate) fn set_fg_at(buf: &mut Buffer, x: u16, y: u16, color: Color)
    requires
        buf_cells(*old(buf)).dom().contains((x as int, y as int)),
    ensures
        buf_cells(*final(buf)) == buf_cells(*old(buf)).insert(
            (x as int, y as int),
            (CellModel { fg: color, ..buf_cells(*old(buf))[(x as int, y as int)] }),
        ),
{
    buf.get_mut(x, y).set_fg(color);
}

/// Relies on `tui::buffer::Buffer::get_mut` and `Cell::set_bg`: replaces the
/// background color of the cell at `(x, y)`.
#[verifier::external_body]
pub(crate) fn set_bg_at(buf: &mut Buffer, x: u16, y: u16, color: Color)
    requires
        buf_cells(*old(buf)).dom().contains((x as int, y as int)),
    ensures
        buf_cells(*final(buf)) == buf_cells(*old(buf)).insert(
            (x as int, y as int),
            (CellModel { bg: color, ..buf_cells(*old(buf))[(x as int, y as int)] }),
        ),
{
    buf.get_mut(x, y).set_bg(color);
}

/// Relies on `tui::buffer::Buffer::set_stringn`: writes up to `max` cells of
/// `text` at `(x, y)`, applying `style` to each touched cell. For printable
/// ASCII text each character lands in one cell, so the first
/// `min(len, max)` characters are written; cells outside `[x, x + max)` of
/// row `y` are untouched either way.
#[verifier::external_body]
pub(crate) fn buf_write_text(buf: &mut Buffer, x: u16, y: u16, text: &str, max: u16, style: Style)
    requires
        x + max <= u16::MAX,
        buf_cells(*old(buf)).dom().contains((x as int, y as int)),
        forall|i: int| x <= i < x + max ==> buf_cells(*old(buf)).dom().contains((i, y as int)),
    ensures
        buf_cells(*final(buf)).dom() == buf_cells(*old(buf)).dom(),
        forall|p: (int, int)|
            buf_cells(*old(buf)).dom().contains(p) && (p.1 != y || p.0 < x || p.0 >= x + max)
                ==> buf_cells(*final(buf))[p] == buf_cells(*old(buf))[p],
        ascii_label(text@) ==> forall|px: int|
            x <= px < x + max && buf_cells(*old(buf)).dom().contains((px, y as int))
                ==> #[trigger] buf_cells(*final(buf))[(px, y as int)] == (if px - x < text@.len() {
                    (CellModel {
                        symbol: seq![text@[px - x]],
                        ..styled_cell(
                            buf_cells(*old(buf))[(px, y as int)],
                            style.fg,
                            style.bg,
                        )
                    })
                } else {
                    buf_cells(*old(buf))[(px, y as int)]
                }),
{
    buf.set_stringn(x, y, text, max as usize, style);
}

} // verus!
