//! Mathematical model of the cell grid that rendering mutates.
//!
//! A buffer cell is modelled by the parts of it that this crate's contracts
//! speak about: its symbol (as a sequence of characters), its foreground
//! color and its background color. Style modifiers are left out of the
//! model, so no contract in this crate constrains them.

use vstd::prelude::*;
use tui::layout::Rect;
use tui::style::Color;

verus! {

/// Model of one buffer cell: symbol and the two colors.
pub ghost struct CellModel {
    pub symbol: Seq<char>,
    pub fg: Color,
    pub bg: Color,
}

/// The rectangle's corners fit in the coordinate type, so that
/// `x + width` and `y + height` can be computed without overflow.
pub open spec fn rect_bounded(r: Rect) -> bool {
    r.x + r.width <= u16::MAX && r.y + r.height <= u16::MAX
}

/// `(x, y)` lies inside rectangle `r`.
pub open spec fn in_rect(r: Rect, x: int, y: int) -> bool {
    r.x <= x < r.x + r.width && r.y <= y < r.y + r.height
}

/// `inner` lies entirely inside `outer`.
pub open spec fn rect_within(inner: Rect, outer: Rect) -> bool {
    outer.x <= inner.x
        && outer.y <= inner.y
        && inner.x + inner.width <= outer.x + outer.width
        && inner.y + inner.height <= outer.y + outer.height
}

/// The effect of applying optional foreground/background colors to a cell:
/// each color replaces the cell's when present, and is kept otherwise.
/// The symbol is untouched.
pub open spec fn styled_cell(c: CellModel, fg: Option<Color>, bg: Option<Color>) -> CellModel {
    CellModel {
        symbol: c.symbol,
        fg: match fg {
            Some(f) => f,
            None => c.fg,
        },
        bg: match bg {
            Some(b) => b,
            None => c.bg,
        },
    }
}

/// An unset color falls back to the reset (terminal default) sentinel.
pub open spec fn or_reset(c: Option<Color>) -> Color {
    match c {
        Some(col) => col,
        None => Color::Reset,
    }
}

} // verus!
