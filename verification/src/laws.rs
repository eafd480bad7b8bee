//! Properties of the rendering pass, stated over its cell-level model.

use vstd::prelude::*;
use vstd::set_lib::lemma_int_range;
use tui::layout::Rect;
use tui::style::Color;
use crate::model::{in_rect, or_reset, styled_cell, CellModel};
use crate::rational::{lemma_scale_round_range, ratio_wf, scale_round};
use crate::gauge::{center_row, rendered_cell, Gauge2};
use crate::tui_api::ascii_label;

verus! {

/// Every cell of the filled span — the first `scale_round(w, num, den)`
/// columns of each drawable row — ends up with the fill style's colors
/// swapped: foreground from the fill background, background from the fill
/// foreground, unset colors falling back to the reset sentinel. This holds
/// whatever the cell held before.
pub proof fn lemma_fill_span_swapped(
    c: CellModel,
    x: int,
    y: int,
    g: Rect,
    num: int,
    den: int,
    lchars: Seq<char>,
    lfg: Option<Color>,
    lbg: Option<Color>,
    gfg: Option<Color>,
    gbg: Option<Color>,
)
    requires
        in_rect(g, x, y),
        g.x <= x < g.x + scale_round(g.width as int, num, den),
    ensures
        rendered_cell(c, x, y, g, num, den, lchars, lfg, lbg, gfg, gbg).fg == or_reset(gbg),
        rendered_cell(c, x, y, g, num, den, lchars, lfg, lbg, gfg, gbg).bg == or_reset(gfg),
{
}

/// Each drawable row of width `w` has exactly `scale_round(w, num, den)`
/// columns in the filled span: none for ratio 0, and all `w` for ratio 1.
pub proof fn lemma_fill_count(g: Rect, num: int, den: int)
    requires
        ratio_wf(num, den),
    ensures
        vstd::set_lib::set_int_range(
            g.x as int,
            g.x + scale_round(g.width as int, num, den),
        ).len() == scale_round(g.width as int, num, den),
        num == 0 ==> scale_round(g.width as int, num, den) == 0,
        num == den ==> scale_round(g.width as int, num, den) == g.width,
{
    lemma_scale_round_range(g.width as int, num, den);
    lemma_int_range(g.x as int, g.x + scale_round(g.width as int, num, den));
}

/// Off the center row, a rendered cell's symbol is either the fill space or
/// whatever the cell already held: label glyphs appear on the single row
/// `g.y + g.height / 2` only.
pub proof fn lemma_label_only_on_center_row(
    c: CellModel,
    x: int,
    y: int,
    g: Rect,
    num: int,
    den: int,
    lchars: Seq<char>,
    lfg: Option<Color>,
    lbg: Option<Color>,
    gfg: Option<Color>,
    gbg: Option<Color>,
)
    requires
        in_rect(g, x, y),
        y != center_row(g),
    ensures
        rendered_cell(c, x, y, g, num, den, lchars, lfg, lbg, gfg, gbg).symbol == (if x < g.x
            + scale_round(g.width as int, num, den) {
            seq![' ']
        } else {
            c.symbol
        }),
{
}

/// In a single-row area the drawable rectangle is the full area, with or
/// without a block: the container inset is bypassed there.
pub proof fn lemma_single_row_keeps_full_area<'a>(g: Gauge2<'a>, area: Rect)
    requires
        area.height == 1,
    ensures
        g.drawable_rect(area) == area,
{
}

/// Rendering is deterministic: two buffers that start from the same cell
/// grid and both satisfy the rendering contract of the same block-free
/// gauge over the same area hold the same cells afterwards.
pub proof fn lemma_render_deterministic<'a>(
    g: Gauge2<'a>,
    area: Rect,
    m: Map<(int, int), CellModel>,
    mf1: Map<(int, int), CellModel>,
    mf2: Map<(int, int), CellModel>,
)
    requires
        g.block is None,
        ascii_label(g.label_chars()),
        forall|x: int, y: int| in_rect(area, x, y) ==> m.dom().contains((x, y)),
        mf1.dom() == m.dom(),
        mf2.dom() == m.dom(),
        forall|x: int, y: int|
            m.dom().contains((x, y)) && !in_rect(area, x, y) ==> mf1[(x, y)] == m[(x, y)],
        forall|x: int, y: int|
            m.dom().contains((x, y)) && !in_rect(area, x, y) ==> mf2[(x, y)] == m[(x, y)],
        forall|x: int, y: int|
            in_rect(area, x, y) ==> mf1[(x, y)] == g.gauge_rendered_cell(
                styled_cell(m[(x, y)], g.style.fg, g.style.bg),
                x,
                y,
                area,
            ),
        forall|x: int, y: int|
            in_rect(area, x, y) ==> mf2[(x, y)] == g.gauge_rendered_cell(
                styled_cell(m[(x, y)], g.style.fg, g.style.bg),
                x,
                y,
                area,
            ),
    ensures
        mf1 == mf2,
{
    assert forall|p: (int, int)| mf1.dom().contains(p) implies mf1[p] == mf2[p] by {
        if in_rect(area, p.0, p.1) {
            assert(mf1[p] == g.gauge_rendered_cell(
                styled_cell(m[p], g.style.fg, g.style.bg),
                p.0,
                p.1,
                area,
            ));
            assert(mf2[p] == g.gauge_rendered_cell(
                styled_cell(m[p], g.style.fg, g.style.bg),
                p.0,
                p.1,
                area,
            ));
        }
    }
    assert(mf1 =~= mf2);
}

} // verus!
