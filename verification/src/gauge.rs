//! The gauge configuration and its rendering pass.

use vstd::prelude::*;
use tui::buffer::Buffer;
use tui::layout::Rect;
use tui::style::{Color, Style};
use tui::widgets::Block;
use crate::model::{in_rect, or_reset, rect_bounded, rect_within, styled_cell, CellModel};
use crate::rational::{fill_width, ratio_wf, scale_round};
use crate::label::{default_label, default_label_chars};
use crate::tui_api::{
    ascii_label, block_inner, block_inner_rect, block_render, buf_cells, buf_set_style,
    buf_write_text, set_bg_at, set_fg_at, set_symbol_space, str_display_width, style_default,
};
use vstd::string::StrSliceExecFns;

verus! {

/// The row of `g` on which the label is written: the middle row, rounding
/// towards the top.
pub open spec fn center_row(g: Rect) -> int {
    g.y + g.height as int / 2
}

/// The column where a label of display width `lw` starts:
/// `g.x + (g.width - lw) / 2` with floor division, negative-leaning when the
/// label is wider than `g`. Characters that would land left of the drawable
/// rectangle are clipped away; only the suffix from `g.x` on is written.
pub open spec fn label_start(g: Rect, lw: int) -> int {
    g.x + (g.width - lw) / 2
}

/// The number of cells available to the label: from its start column to
/// `g`'s right edge.
pub open spec fn label_max(g: Rect, lw: int) -> int {
    g.x + g.width - label_start(g, lw)
}

/// The number of label characters actually written.
pub open spec fn label_len(g: Rect, lchars: Seq<char>) -> int {
    let lm = label_max(g, lchars.len() as int);
    if lchars.len() <= lm {
        lchars.len() as int
    } else {
        lm
    }
}

/// The label text rendering writes for a configuration: the configured
/// text, or the synthesized percentage for ratio `num / den`.
pub open spec fn config_label_chars(label: Option<Label>, num: int, den: int) -> Seq<char> {
    match label {
        Some(l) => l.content@,
        None => default_label_chars(num, den),
    }
}

/// The label's foreground color, unset for the synthesized label.
pub open spec fn config_label_fg(label: Option<Label>) -> Option<Color> {
    match label {
        Some(l) => l.style.fg,
        None => None,
    }
}

/// The label's background color, unset for the synthesized label.
pub open spec fn config_label_bg(label: Option<Label>) -> Option<Color> {
    match label {
        Some(l) => l.style.bg,
        None => None,
    }
}

/// The final state of the cell at `(x, y)` after the gauge pass over
/// drawable rectangle `g`, starting from cell value `c`.
///
/// Inside `g` the fill style is applied first; cells left of the fill end
/// get a space symbol; the center row gets the label (its characters each
/// one cell wide); and the filled span then has the fill style's colors
/// swapped, unset colors falling back to the reset sentinel. Cells outside
/// `g` are untouched.
pub open spec fn rendered_cell(
    c: CellModel,
    x: int,
    y: int,
    g: Rect,
    num: int,
    den: int,
    lchars: Seq<char>,
    lfg: Option<Color>,
    lbg: Option<Color>,
    gfg: Option<Color>,
    gbg: Option<Color>,
) -> CellModel {
    if !in_rect(g, x, y) {
        c
    } else {
        let c1 = styled_cell(c, gfg, gbg);
        let fill = x < g.x + scale_round(g.width as int, num, den);
        let c2 = if fill {
            CellModel { symbol: seq![' '], ..c1 }
        } else {
            c1
        };
        let ls = label_start(g, lchars.len() as int);
        let c3 = if y == center_row(g) && ls <= x < ls + label_len(g, lchars) {
            CellModel { symbol: seq![lchars[x - ls]], ..styled_cell(c2, lfg, lbg) }
        } else {
            c2
        };
        if fill {
            CellModel { symbol: c3.symbol, fg: or_reset(gbg), bg: or_reset(gfg) }
        } else {
            c3
        }
    }
}

/// A styled text span that overrides the synthesized percentage label.
#[derive(Debug, Clone)]
pub struct Label {
    pub content: String,
    pub style: Style,
}

/// Rejected configuration values.
#[derive(Debug, PartialEq, Eq, Structural, Clone, Copy)]
pub enum GaugeError {
    /// A percentage outside `[0, 100]`.
    PercentOutOfRange,
    /// A ratio outside `[0, 1]`, or one with a non-positive denominator.
    RatioOutOfRange,
}

/// A progress gauge, usable even in a single-row area.
///
/// The completion ratio is the exact rational `ratio_num / ratio_den`.
#[derive(Debug, Clone)]
pub struct Gauge2<'a> {
    pub block: Option<Block<'a>>,
    pub ratio_num: u64,
    pub ratio_den: u64,
    pub label: Option<Label>,
    pub style: Style,
    pub gauge_style: Style,
}

impl<'a> Gauge2<'a> {
    /// The stored ratio is a well-formed fraction in `[0, 1]`.
    pub open spec fn wf(self) -> bool {
        ratio_wf(self.ratio_num as int, self.ratio_den as int)
    }

    /// The label text that rendering writes: the configured one, or the
    /// synthesized percentage.
    pub open spec fn label_chars(self) -> Seq<char> {
        config_label_chars(self.label, self.ratio_num as int, self.ratio_den as int)
    }

    /// The label's foreground color, unset for the synthesized label.
    pub open spec fn label_fg(self) -> Option<Color> {
        config_label_fg(self.label)
    }

    /// The label's background color, unset for the synthesized label.
    pub open spec fn label_bg(self) -> Option<Color> {
        config_label_bg(self.label)
    }

    /// The drawable rectangle for this gauge over `area`: the area itself
    /// without a block, the block's inner rectangle with one — except that a
    /// single-row area stays drawable in full.
    pub open spec fn drawable_rect(self, area: Rect) -> Rect {
        match self.block {
            None => area,
            Some(b) => if area.height == 1 {
                area
            } else {
                block_inner_rect(b, area)
            },
        }
    }

    /// The final state of the cell at `(x, y)` after this gauge's pass over
    /// drawable rectangle `g`, starting from cell value `c`.
    pub open spec fn gauge_rendered_cell(self, c: CellModel, x: int, y: int, g: Rect) -> CellModel {
        rendered_cell(
            c,
            x,
            y,
            g,
            self.ratio_num as int,
            self.ratio_den as int,
            self.label_chars(),
            self.label_fg(),
            self.label_bg(),
            self.gauge_style.fg,
            self.gauge_style.bg,
        )
    }

    /// Surrounds the gauge with a block, whose inner rectangle becomes the
    /// drawable area except in single-row regions.
    pub fn block(self, block: Block<'a>) -> (r: Gauge2<'a>)
        ensures
            r == (Gauge2 { block: Some(block), ..self }),
    {
        Gauge2 { block: Some(block), ..self }
    }

    /// Sets the ratio to `percent / 100`. Succeeds exactly when `percent`
    /// is at most 100, and rejects anything larger.
    pub fn percent(self, percent: u16) -> (r: Result<Gauge2<'a>, GaugeError>)
        ensures
            percent <= 100 <==> r is Ok,
            percent <= 100 ==> r == Ok::<Gauge2<'a>, GaugeError>(
                Gauge2 { ratio_num: percent as u64, ratio_den: 100, ..self },
            ),
            percent > 100 ==> r == Err::<Gauge2<'a>, GaugeError>(GaugeError::PercentOutOfRange),
    {
        if percent > 100 {
            Err(GaugeError::PercentOutOfRange)
        } else {
            Ok(Gauge2 { ratio_num: percent as u64, ratio_den: 100, ..self })
        }
    }

    /// Sets the ratio to the fraction `num / den`. Succeeds exactly when the
    /// fraction is well-formed and lies in `[0, 1]`, that is when
    /// `den >= 1` and `0 <= num <= den`.
    pub fn ratio(self, num: i64, den: i64) -> (r: Result<Gauge2<'a>, GaugeError>)
        ensures
            (1 <= den && 0 <= num <= den) <==> r is Ok,
            (1 <= den && 0 <= num <= den) ==> r == Ok::<Gauge2<'a>, GaugeError>(
                Gauge2 { ratio_num: num as u64, ratio_den: den as u64, ..self },
            ),
            !(1 <= den && 0 <= num <= den) ==> r == Err::<Gauge2<'a>, GaugeError>(
                GaugeError::RatioOutOfRange,
            ),
    {
        if den >= 1 && 0 <= num && num <= den {
            Ok(Gauge2 { ratio_num: num as u64, ratio_den: den as u64, ..self })
        } else {
            Err(GaugeError::RatioOutOfRange)
        }
    }

    /// Overrides the synthesized percentage label.
    pub fn label(self, label: Label) -> (r: Gauge2<'a>)
        ensures
            r == (Gauge2 { label: Some(label), ..self }),
    {
        Gauge2 { label: Some(label), ..self }
    }

    /// Sets the base style painted over the whole allotted area.
    pub fn style(self, style: Style) -> (r: Gauge2<'a>)
        ensures
            r == (Gauge2 { style, ..self }),
    {
        Gauge2 { style, ..self }
    }

    /// Sets the fill style, whose colors are swapped over the filled span.
    pub fn gauge_style(self, style: Style) -> (r: Gauge2<'a>)
        ensures
            r == (Gauge2 { gauge_style: style, ..self }),
    {
        Gauge2 { gauge_style: style, ..self }
    }
}

/// Writes a space symbol into every cell of row `y` with column in
/// `[x0, x1)`, leaving all other cells untouched.
#[verifier::loop_isolation(false)]
fn fill_symbols_row(buf: &mut Buffer, x0: u16, x1: u16, y: u16)
    requires
        x0 <= x1,
        forall|i: int| x0 <= i < x1 ==> buf_cells(*old(buf)).dom().contains((i, y as int)),
    ensures
        buf_cells(*final(buf)).dom() == buf_cells(*old(buf)).dom(),
        forall|p: (int, int)|
            buf_cells(*old(buf)).dom().contains(p) ==> buf_cells(*final(buf))[p] == (if p.1 == y
                && x0 <= p.0 < x1 {
                (CellModel { symbol: seq![' '], ..buf_cells(*old(buf))[p] })
            } else {
                buf_cells(*old(buf))[p]
            }),
{
    let mut x = x0;
    while x < x1
        invariant
            x0 <= x <= x1,
            buf_cells(*buf).dom() == buf_cells(*old(buf)).dom(),
            forall|p: (int, int)|
                buf_cells(*old(buf)).dom().contains(p) ==> buf_cells(*buf)[p] == (if p.1 == y
                    && x0 <= p.0 < x {
                    (CellModel { symbol: seq![' '], ..buf_cells(*old(buf))[p] })
                } else {
                    buf_cells(*old(buf))[p]
                }),
        decreases x1 - x,
    {
        set_symbol_space(buf, x, y);
        x += 1;
    }
}

/// Sets the given foreground and background colors on every cell of row `y`
/// with column in `[x0, x1)`, keeping the symbols and all other cells.
#[verifier::loop_isolation(false)]
fn swap_colors_row(buf: &mut Buffer, x0: u16, x1: u16, y: u16, fg: Color, bg: Color)
    requires
        x0 <= x1,
        forall|i: int| x0 <= i < x1 ==> buf_cells(*old(buf)).dom().contains((i, y as int)),
    ensures
        buf_cells(*final(buf)).dom() == buf_cells(*old(buf)).dom(),
        forall|p: (int, int)|
            buf_cells(*old(buf)).dom().contains(p) ==> buf_cells(*final(buf))[p] == (if p.1 == y
                && x0 <= p.0 < x1 {
                (CellModel { symbol: buf_cells(*old(buf))[p].symbol, fg: fg, bg: bg })
            } else {
                buf_cells(*old(buf))[p]
            }),
{
    let mut x = x0;
    while x < x1
        invariant
            x0 <= x <= x1,
            buf_cells(*buf).dom() == buf_cells(*old(buf)).dom(),
            forall|p: (int, int)|
                buf_cells(*old(buf)).dom().contains(p) ==> buf_cells(*buf)[p] == (if p.1 == y
                    && x0 <= p.0 < x {
                    (CellModel { symbol: buf_cells(*old(buf))[p].symbol, fg: fg, bg: bg })
                } else {
                    buf_cells(*old(buf))[p]
                }),
        decreases x1 - x,
    {
        set_fg_at(buf, x, y, fg);
        set_bg_at(buf, x, y, bg);
        x += 1;
    }
}

/// Paints the gauge over drawable rectangle `g`: applies the fill style to
/// every cell of `g`, and then — unless `g` has no rows — writes the fill
/// span's spaces, the label on the center row, and the swapped fill colors
/// over the span.
#[verifier::loop_isolation(false)]
#[verifier::rlimit(100)]
fn paint_gauge(
    buf: &mut Buffer,
    g: Rect,
    ratio_num: u64,
    ratio_den: u64,
    label: Option<Label>,
    gauge_style: Style,
)
    requires
        ratio_wf(ratio_num as int, ratio_den as int),
        rect_bounded(g),
        forall|x: int, y: int| in_rect(g, x, y) ==> buf_cells(*old(buf)).dom().contains((x, y)),
    ensures
        buf_cells(*final(buf)).dom() == buf_cells(*old(buf)).dom(),
        forall|p: (int, int)|
            buf_cells(*old(buf)).dom().contains(p) && !in_rect(g, p.0, p.1)
                ==> buf_cells(*final(buf))[p] == buf_cells(*old(buf))[p],
        forall|x: int, y: int|
            in_rect(g, x, y) && x < g.x + scale_round(
                g.width as int,
                ratio_num as int,
                ratio_den as int,
            ) ==> (#[trigger] buf_cells(*final(buf))[(x, y)]).fg == or_reset(gauge_style.bg)
                && buf_cells(*final(buf))[(x, y)].bg == or_reset(gauge_style.fg),
        forall|x: int, y: int|
            in_rect(g, x, y) && (ascii_label(
                config_label_chars(label, ratio_num as int, ratio_den as int),
            ) || y != center_row(g)) ==> #[trigger] buf_cells(*final(buf))[(x, y)]
                == rendered_cell(
                buf_cells(*old(buf))[(x, y)],
                x,
                y,
                g,
                ratio_num as int,
                ratio_den as int,
                config_label_chars(label, ratio_num as int, ratio_den as int),
                config_label_fg(label),
                config_label_bg(label),
                gauge_style.fg,
                gauge_style.bg,
            ),
{
    let ghost mid = buf_cells(*buf);
    let ghost lch = config_label_chars(label, ratio_num as int, ratio_den as int);
    let ghost lfg = config_label_fg(label);
    let ghost lbg = config_label_bg(label);
    buf_set_style(buf, g, gauge_style);
    let ghost mid2 = buf_cells(*buf);
    if g.height < 1 {
        return ;
    }
    let fw: u16 = fill_width(g.width, ratio_num, ratio_den);
    let end: u16 = g.x + fw;
    let center: u16 = g.y + g.height / 2;
    let (ltext, lstyle): (String, Style) = match label {
        Some(l) => (l.content, l.style),
        None => (default_label(ratio_num, ratio_den), style_default()),
    };
    assert(ltext@ == lch);
    assert(lstyle.fg == lfg && lstyle.bg == lbg);
    let lw = str_display_width(&ltext);
    let gwu: usize = g.width as usize;
    let (lstart, skip): (u16, usize) = if lw < gwu {
        (g.x + (g.width - lw as u16) / 2, 0)
    } else {
        ((g.x), ((lw - gwu) / 2 + (lw - gwu) % 2))
    };
    let lmax: u16 = g.x + g.width - lstart;
    let clen = ltext.as_str().unicode_len();
    let skip_c: usize = if skip <= clen {
        skip
    } else {
        clen
    };
    let wtext: &str = if skip_c == 0 {
        ltext.as_str()
    } else {
        ltext.as_str().substring_char(skip_c, clen)
    };
    proof {
        assert(clen == lch.len());
        if ascii_label(lch) {
            assert(skip_c == skip);
            assert(lstart - skip == label_start(g, lch.len() as int));
            assert(lmax + skip == label_max(g, lch.len() as int));
            assert(wtext@ =~= lch.subrange(skip as int, lch.len() as int));
        }
    }
    let sfg: Color = match gauge_style.bg {
        Some(c) => c,
        None => Color::Reset,
    };
    let sbg: Color = match gauge_style.fg {
        Some(c) => c,
        None => Color::Reset,
    };
    assert(sfg == or_reset(gauge_style.bg) && sbg == or_reset(gauge_style.fg));
    let mut y: u16 = g.y;
    while y < g.y + g.height
        invariant
            g.y <= y <= g.y + g.height,
            buf_cells(*buf).dom() == mid.dom(),
            forall|p: (int, int)|
                mid.dom().contains(p) && !in_rect(g, p.0, p.1) ==> buf_cells(*buf)[p] == mid2[p],
            forall|px: int, py: int|
                in_rect(g, px, py) && (py != center || ascii_label(lch))
                    ==> #[trigger] buf_cells(*buf)[(px, py)] == (if py < y {
                    rendered_cell(
                        mid[(px, py)],
                        px,
                        py,
                        g,
                        ratio_num as int,
                        ratio_den as int,
                        lch,
                        lfg,
                        lbg,
                        gauge_style.fg,
                        gauge_style.bg,
                    )
                } else {
                    mid2[(px, py)]
                }),
            forall|px: int, py: int|
                in_rect(g, px, py) && py < y && px < g.x + fw ==> (#[trigger] buf_cells(
                    *buf,
                )[(px, py)]).fg == sfg && buf_cells(*buf)[(px, py)].bg == sbg,
        decreases g.y + g.height - y,
    {
        let ghost r0 = buf_cells(*buf);
        proof {
            assert forall|i: int| g.x <= i < end implies mid.dom().contains((i, y as int)) by {
                assert(in_rect(g, i, y as int));
            }
        }
        fill_symbols_row(buf, g.x, end, y);
        let ghost r1 = buf_cells(*buf);
        if y == center && lmax > 0 {
            proof {
                assert(in_rect(g, lstart as int, y as int));
                assert forall|i: int| lstart <= i < lstart + lmax implies mid.dom().contains(
                    (i, y as int),
                ) by {
                    assert(in_rect(g, i, y as int));
                }
            }
            buf_write_text(buf, lstart, y, wtext, lmax, lstyle);
        }
        let ghost r2 = buf_cells(*buf);
        swap_colors_row(buf, g.x, end, y, sfg, sbg);
        proof {
            assert forall|px: int|
                in_rect(g, px, y as int) && (y != center || ascii_label(lch))
                    implies #[trigger] buf_cells(*buf)[(px, y as int)] == rendered_cell(
                    mid[(px, y as int)],
                    px,
                    y as int,
                    g,
                    ratio_num as int,
                    ratio_den as int,
                    lch,
                    lfg,
                    lbg,
                    gauge_style.fg,
                    gauge_style.bg,
                ) by {
                let py = y as int;
                let p = (px, py);
                assert(mid.dom().contains(p));
                let c0 = mid[p];
                assert(r0[p] == mid2[p]);
                let c1 = styled_cell(c0, gauge_style.fg, gauge_style.bg);
                assert(mid2[p] == c1);
                let fill = px < g.x + scale_round(
                    g.width as int,
                    ratio_num as int,
                    ratio_den as int,
                );
                assert(fill <==> g.x <= px < end);
                let c2 = if fill {
                    CellModel { symbol: seq![' '], ..c1 }
                } else {
                    c1
                };
                assert(r1[p] == c2);
                let ls = label_start(g, lch.len() as int);
                let c3 = if py == center_row(g) && ls <= px < ls + label_len(g, lch) {
                    CellModel { symbol: seq![lch[px - ls]], ..styled_cell(c2, lfg, lbg) }
                } else {
                    c2
                };
                if y == center && lmax > 0 {
                    if ascii_label(lch) {
                        assert(ls == lstart - skip);
                        assert(ls + label_max(g, lch.len() as int) == lstart + lmax);
                        assert(wtext@.len() == lch.len() - skip);
                        if lstart <= px < lstart + lmax {
                            assert(r2[p] == (if px - lstart < wtext@.len() {
                                (CellModel {
                                    symbol: seq![wtext@[px - lstart]],
                                    ..styled_cell(r1[p], lfg, lbg)
                                })
                            } else {
                                r1[p]
                            }));
                            if px - lstart < wtext@.len() {
                                assert(wtext@[px - lstart] == lch[px - ls]);
                            }
                            assert(r2[p] == c3);
                        } else {
                            assert(r2[p] == r1[p]);
                            assert(r2[p] == c3);
                        }
                    }
                } else if y == center {
                    // an in-rect column means the row is nonempty, so the
                    // label write cannot have been skipped
                    assert(g.width >= 1);
                    assert(lmax >= 1);
                    assert(false);
                } else {
                    assert(r2[p] == r1[p]);
                    assert(py != center_row(g));
                    assert(r2[p] == c3);
                }
                let c4 = if fill {
                    CellModel { symbol: c3.symbol, fg: or_reset(gauge_style.bg), bg: or_reset(
                        gauge_style.fg,
                    ) }
                } else {
                    c3
                };
                assert(buf_cells(*buf)[p] == c4);
            }
        }
        y += 1;
    }
}

impl<'a> Gauge2<'a> {
    /// Renders the gauge into `area` of `buf`, consuming the configuration.
    ///
    /// The base style is painted over all of `area`; the block, when
    /// present, is drawn and its inner rectangle becomes the drawable
    /// rectangle, except that a single-row `area` stays drawable in full;
    /// the fill style is painted over the drawable rectangle; and unless the
    /// drawable rectangle has no rows, every cell of it ends up as
    /// `gauge_rendered_cell` describes. A label too wide for the drawable
    /// rectangle starts at its left edge and is clipped at its right edge.
    #[verifier::loop_isolation(false)]
    #[verifier::rlimit(100)]
    pub fn render(self, area: Rect, buf: &mut Buffer)
        requires
            self.wf(),
            rect_bounded(area),
            area.width * area.height <= u16::MAX,
            forall|x: int, y: int|
                in_rect(area, x, y) ==> buf_cells(*old(buf)).dom().contains((x, y)),
            self.block is Some ==> area.width == 0 || area.height == 0 || buf_cells(
                *old(buf),
            ).dom().contains((area.x + area.width, area.y as int)),
        ensures
            buf_cells(*final(buf)).dom() == buf_cells(*old(buf)).dom(),
            forall|x: int, y: int|
                buf_cells(*old(buf)).dom().contains((x, y)) && !in_rect(area, x, y)
                    ==> buf_cells(*final(buf))[(x, y)] == buf_cells(*old(buf))[(x, y)],
            rect_within(self.drawable_rect(area), area),
            forall|x: int, y: int|
                in_rect(self.drawable_rect(area), x, y) && x < self.drawable_rect(area).x
                    + scale_round(
                    self.drawable_rect(area).width as int,
                    self.ratio_num as int,
                    self.ratio_den as int,
                ) ==> (#[trigger] buf_cells(*final(buf))[(x, y)]).fg == or_reset(
                    self.gauge_style.bg,
                ) && buf_cells(*final(buf))[(x, y)].bg == or_reset(self.gauge_style.fg),
            self.block is None && ascii_label(self.label_chars()) ==> forall|x: int, y: int|
                in_rect(area, x, y) ==> buf_cells(*final(buf))[(x, y)]
                    == self.gauge_rendered_cell(
                    styled_cell(buf_cells(*old(buf))[(x, y)], self.style.fg, self.style.bg),
                    x,
                    y,
                    area,
                ),
            self.block is None ==> forall|x: int, y: int|
                in_rect(area, x, y) && y != center_row(area) ==> buf_cells(*final(buf))[(x, y)]
                    == self.gauge_rendered_cell(
                    styled_cell(buf_cells(*old(buf))[(x, y)], self.style.fg, self.style.bg),
                    x,
                    y,
                    area,
                ),
            self.block is Some ==> forall|x: int, y: int|
                in_rect(self.drawable_rect(area), x, y) && (ascii_label(self.label_chars()) || y
                    != center_row(self.drawable_rect(area))) ==> exists|c: CellModel|
                    #[trigger] buf_cells(*final(buf))[(x, y)] == self.gauge_rendered_cell(
                        c,
                        x,
                        y,
                        self.drawable_rect(area),
                    ),
    {
        let ghost m0 = buf_cells(*buf);
        let Gauge2 { block, ratio_num, ratio_den, label, style, gauge_style } = self;
        buf_set_style(buf, area, style);
        let gauge_area: Rect = match block {
            Some(b) => {
                let inner = block_inner(&b, area);
                let ga = if area.height == 1 {
                    area
                } else {
                    inner
                };
                block_render(b, area, buf);
                ga
            },
            None => area,
        };
        let ghost mid = buf_cells(*buf);
        assert(gauge_area == self.drawable_rect(area));
        assert(rect_within(gauge_area, area));
        assert(forall|x: int, y: int| in_rect(gauge_area, x, y) ==> in_rect(area, x, y));
        paint_gauge(buf, gauge_area, ratio_num, ratio_den, label, gauge_style);
        proof {
            if self.block is None {
                assert forall|x: int, y: int|
                    in_rect(area, x, y) && (ascii_label(self.label_chars()) || y != center_row(
                        area,
                    )) implies #[trigger] buf_cells(*buf)[(x, y)] == self.gauge_rendered_cell(
                    styled_cell(m0[(x, y)], self.style.fg, self.style.bg),
                    x,
                    y,
                    area,
                ) by {
                    assert(mid[(x, y)] == styled_cell(m0[(x, y)], style.fg, style.bg));
                }
            } else {
                assert forall|x: int, y2: int|
                    in_rect(self.drawable_rect(area), x, y2) && (ascii_label(self.label_chars())
                        || y2 != center_row(self.drawable_rect(area))) implies exists|c: CellModel|
                    buf_cells(*buf)[(x, y2)] == self.gauge_rendered_cell(
                        c,
                        x,
                        y2,
                        self.drawable_rect(area),
                    ) by {
                    assert(buf_cells(*buf)[(x, y2)] == self.gauge_rendered_cell(
                        mid[(x, y2)],
                        x,
                        y2,
                        self.drawable_rect(area),
                    ));
                }
            }
        }
    }
}

impl<'a> Default for Gauge2<'a> {
    /// An empty gauge: ratio 0, no label, no block, default styles.
    fn default() -> (g: Gauge2<'a>)
        ensures
            g.block is None,
            g.ratio_num == 0,
            g.ratio_den == 1,
            g.label is None,
            g.style.fg is None,
            g.style.bg is None,
            g.gauge_style.fg is None,
            g.gauge_style.bg is None,
            g.wf(),
    {
        Gauge2 {
            block: None,
            ratio_num: 0,
            ratio_den: 1,
            label: None,
            style: style_default(),
            gauge_style: style_default(),
        }
    }
}

} // verus!
