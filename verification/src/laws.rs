//! Laws of the layout engine: counting and position properties that hold of
//! every page the composers can produce, proved over the spec functions that
//! the executable methods' contracts are stated in.
use vstd::prelude::*;

use crate::layout::{
    cal_anchor_x, cal_anchor_y, cal_days_v, cal_row_rects_v, cal_rows_v, calendar_page_v,
    calendar_v, ceil_div, cut_lines_v, default_labels, default_page_v, full_calendar_page_v,
    full_default_page_v, grid_col_v, grid_v, header_left_cells, quad_cols, quad_rows,
    BOTTOM_QUAD_Y, CELL_H, CELL_W, MID_CELLS, OUTER_X, OUTER_Y, RIGHT_CELLS, RIGHT_QUAD_X,
};
use crate::shapes::{dot_v, text_v, ShapeV};

verus! {

/// Whether a shape is a text label.
pub open spec fn is_text(v: ShapeV) -> bool {
    match v {
        ShapeV::Text { .. } => true,
        _ => false,
    }
}

/// Whether a shape is a rectangle.
pub open spec fn is_rect(v: ShapeV) -> bool {
    match v {
        ShapeV::Rect { .. } => true,
        _ => false,
    }
}

/// The number of text labels in a shape sequence.
pub open spec fn count_texts(s: Seq<ShapeV>) -> int
    decreases s.len(),
{
    if s.len() == 0 {
        0
    } else {
        count_texts(s.drop_last()) + if is_text(s.last()) {
            1int
        } else {
            0int
        }
    }
}

/// The number of rectangles in a shape sequence.
pub open spec fn count_rects(s: Seq<ShapeV>) -> int
    decreases s.len(),
{
    if s.len() == 0 {
        0
    } else {
        count_rects(s.drop_last()) + if is_rect(s.last()) {
            1int
        } else {
            0int
        }
    }
}

/// Text labels count across concatenation.
pub proof fn lemma_count_texts_concat(a: Seq<ShapeV>, b: Seq<ShapeV>)
    ensures
        count_texts(a + b) == count_texts(a) + count_texts(b),
    decreases b.len(),
{
    if b.len() == 0 {
        assert(a + b =~= a);
    } else {
        lemma_count_texts_concat(a, b.drop_last());
        assert((a + b).drop_last() =~= a + b.drop_last());
        assert((a + b).last() == b.last());
    }
}

/// Rectangles count across concatenation.
pub proof fn lemma_count_rects_concat(a: Seq<ShapeV>, b: Seq<ShapeV>)
    ensures
        count_rects(a + b) == count_rects(a) + count_rects(b),
    decreases b.len(),
{
    if b.len() == 0 {
        assert(a + b =~= a);
    } else {
        lemma_count_rects_concat(a, b.drop_last());
        assert((a + b).drop_last() =~= a + b.drop_last());
        assert((a + b).last() == b.last());
    }
}

/// One lattice column holds exactly `rows` dots.
pub proof fn lemma_grid_col_len(
    color: Seq<char>,
    ox: int,
    oy: int,
    cw: int,
    ch: int,
    x: int,
    rows: int,
)
    requires
        rows >= 0,
    ensures
        grid_col_v(color, ox, oy, cw, ch, x, rows).len() == rows,
    decreases rows,
{
    if rows > 0 {
        lemma_grid_col_len(color, ox, oy, cw, ch, x, rows - 1);
    }
}

/// The lattice holds exactly `cols * rows` dots.
pub proof fn lemma_grid_len(
    color: Seq<char>,
    ox: int,
    oy: int,
    cw: int,
    ch: int,
    cols: int,
    rows: int,
)
    requires
        cols >= 0,
        rows >= 0,
    ensures
        grid_v(color, ox, oy, cw, ch, cols, rows).len() == cols * rows,
    decreases cols,
{
    if cols > 0 {
        lemma_grid_len(color, ox, oy, cw, ch, cols - 1, rows);
        lemma_grid_col_len(color, ox, oy, cw, ch, cols - 1, rows);
        assert((cols - 1) * rows + rows == cols * rows) by (nonlinear_arith);
    } else {
        assert(cols * rows == 0) by (nonlinear_arith)
            requires
                cols == 0,
        ;
    }
}

/// The first dot of a non-empty column sits at the column's top.
proof fn lemma_grid_col_first(
    color: Seq<char>,
    ox: int,
    oy: int,
    cw: int,
    ch: int,
    x: int,
    rows: int,
)
    requires
        rows >= 1,
    ensures
        grid_col_v(color, ox, oy, cw, ch, x, rows)[0] == dot_v(color, ox + x * cw, oy),
    decreases rows,
{
    if rows == 1 {
    } else {
        lemma_grid_col_first(color, ox, oy, cw, ch, x, rows - 1);
        lemma_grid_col_len(color, ox, oy, cw, ch, x, rows - 1);
    }
}

/// The first dot of a non-empty lattice sits exactly at the anchor.
pub proof fn lemma_grid_first(
    color: Seq<char>,
    ox: int,
    oy: int,
    cw: int,
    ch: int,
    cols: int,
    rows: int,
)
    requires
        cols >= 1,
        rows >= 1,
    ensures
        grid_v(color, ox, oy, cw, ch, cols, rows)[0] == dot_v(color, ox, oy),
    decreases cols,
{
    if cols == 1 {
        assert(grid_v(color, ox, oy, cw, ch, 1, rows) =~= grid_col_v(
            color,
            ox,
            oy,
            cw,
            ch,
            0,
            rows,
        ));
        lemma_grid_col_first(color, ox, oy, cw, ch, 0, rows);
    } else {
        lemma_grid_first(color, ox, oy, cw, ch, cols - 1, rows);
        lemma_grid_len(color, ox, oy, cw, ch, cols - 1, rows);
        assert((cols - 1) * rows >= 1) by (nonlinear_arith)
            requires
                cols >= 2,
                rows >= 1,
        ;
    }
}

/// Law: for any positive cell size and any usable quadrant area, the
/// lattice built from the ceiling-derived cell counts holds exactly
/// `ceil(w / cw) * ceil(h / ch)` dots, and its first dot sits exactly at
/// the quadrant anchor.
pub proof fn lemma_grid_tiler(
    color: Seq<char>,
    ox: int,
    oy: int,
    cw: int,
    ch: int,
    w: int,
    h: int,
)
    requires
        cw > 0,
        ch > 0,
        w >= 0,
        h >= 0,
    ensures
        grid_v(color, ox, oy, cw, ch, ceil_div(w, cw), ceil_div(h, ch)).len() == ceil_div(w, cw)
            * ceil_div(h, ch),
        ceil_div(w, cw) >= 1 && ceil_div(h, ch) >= 1 ==> grid_v(
            color,
            ox,
            oy,
            cw,
            ch,
            ceil_div(w, cw),
            ceil_div(h, ch),
        )[0] == dot_v(color, ox, oy),
{
    let cols = ceil_div(w, cw);
    let rows = ceil_div(h, ch);
    assert(cols >= 0);
    assert(rows >= 0);
    lemma_grid_len(color, ox, oy, cw, ch, cols, rows);
    if cols >= 1 && rows >= 1 {
        lemma_grid_first(color, ox, oy, cw, ch, cols, rows);
    }
}

/// Law: the three header box widths always sum to one cell less than the
/// full header row, the reserved margin cell, whenever the row holds the
/// eight cells the fixed boxes and the margin need.
pub proof fn lemma_header_widths(cols: int)
    requires
        cols >= 8,
    ensures
        CELL_W * header_left_cells(cols) + CELL_W * MID_CELLS + CELL_W * RIGHT_CELLS == cols
            * CELL_W - CELL_W,
        CELL_W * header_left_cells(cols) >= 0,
{
}

/// The day-label strip holds `n` texts and no rectangles.
proof fn lemma_cal_days_counts(color: Seq<char>, sx: int, sy: int, n: int)
    requires
        n >= 0,
    ensures
        cal_days_v(color, sx, sy, n).len() == n,
        count_texts(cal_days_v(color, sx, sy, n)) == n,
        count_rects(cal_days_v(color, sx, sy, n)) == 0,
    decreases n,
{
    if n > 0 {
        lemma_cal_days_counts(color, sx, sy, n - 1);
        let s = cal_days_v(color, sx, sy, n);
        assert(s.drop_last() =~= cal_days_v(color, sx, sy, n - 1));
    }
}

/// One row's task boxes are `n` rectangles and no texts.
proof fn lemma_cal_row_rects_counts(color: Seq<char>, sx: int, sy: int, r: int, n: int)
    requires
        n >= 0,
    ensures
        cal_row_rects_v(color, sx, sy, r, n).len() == n,
        count_texts(cal_row_rects_v(color, sx, sy, r, n)) == 0,
        count_rects(cal_row_rects_v(color, sx, sy, r, n)) == n,
    decreases n,
{
    if n > 0 {
        lemma_cal_row_rects_counts(color, sx, sy, r, n - 1);
        let s = cal_row_rects_v(color, sx, sy, r, n);
        assert(s.drop_last() =~= cal_row_rects_v(color, sx, sy, r, n - 1));
    }
}

/// The first `n` calendar rows hold `n` texts and `7 * n` rectangles.
proof fn lemma_cal_rows_counts(
    color: Seq<char>,
    ox: int,
    sx: int,
    sy: int,
    labels: Seq<Seq<char>>,
    n: int,
)
    requires
        n >= 0,
    ensures
        cal_rows_v(color, ox, sx, sy, labels, n).len() == 8 * n,
        count_texts(cal_rows_v(color, ox, sx, sy, labels, n)) == n,
        count_rects(cal_rows_v(color, ox, sx, sy, labels, n)) == 7 * n,
    decreases n,
{
    if n > 0 {
        lemma_cal_rows_counts(color, ox, sx, sy, labels, n - 1);
        let prev = cal_rows_v(color, ox, sx, sy, labels, n - 1);
        let label = seq![text_v(color, labels[n - 1], ox, sy + CELL_H * n - 100)];
        let boxes = cal_row_rects_v(color, sx, sy, n - 1, 7);
        lemma_cal_row_rects_counts(color, sx, sy, n - 1, 7);
        lemma_count_texts_concat(prev, label);
        lemma_count_texts_concat(prev + label, boxes);
        lemma_count_rects_concat(prev, label);
        lemma_count_rects_concat(prev + label, boxes);
        assert(count_texts(Seq::<ShapeV>::empty()) == 0);
        assert(count_rects(Seq::<ShapeV>::empty()) == 0);
        assert(label.drop_last() =~= Seq::<ShapeV>::empty());
        assert(label.len() == 1);
        assert(is_text(label.last()));
        assert(count_texts(label) == 1);
        assert(count_rects(label) == 0);
    }
}

/// Law: the calendar overlay always emits exactly `7 + rows` text labels
/// and `7 * rows` rectangles for a row-label list of length `rows`.
pub proof fn lemma_calendar_counts(
    color: Seq<char>,
    ox: int,
    oy: int,
    cols: int,
    labels: Seq<Seq<char>>,
)
    ensures
        calendar_v(color, ox, oy, cols, labels).len() == 7 + 8 * labels.len(),
        count_texts(calendar_v(color, ox, oy, cols, labels)) == 7 + labels.len(),
        count_rects(calendar_v(color, ox, oy, cols, labels)) == 7 * labels.len(),
{
    let sx = cal_anchor_x(ox, cols);
    let sy = cal_anchor_y(oy);
    let days = cal_days_v(color, sx, sy, 7);
    let rows = cal_rows_v(color, ox, sx, sy, labels, labels.len() as int);
    lemma_cal_days_counts(color, sx, sy, 7);
    lemma_cal_rows_counts(color, ox, sx, sy, labels, labels.len() as int);
    lemma_count_texts_concat(days, rows);
    lemma_count_rects_concat(days, rows);
}

/// A plain quadrant holds its full lattice plus the three header boxes,
/// whatever its anchor.
pub proof fn lemma_default_page_len(color: Seq<char>, ox: int, oy: int)
    ensures
        default_page_v(color, ox, oy).len() == quad_cols() * quad_rows() + 3,
{
    lemma_grid_len(color, ox, oy, CELL_W as int, CELL_H as int, quad_cols(), quad_rows());
}

/// A calendar quadrant holds the plain quadrant plus the calendar overlay,
/// whatever its anchor.
pub proof fn lemma_calendar_page_len(color: Seq<char>, ox: int, oy: int)
    ensures
        calendar_page_v(color, ox, oy).len() == quad_cols() * quad_rows() + 3 + 7 + 8 * 13,
{
    lemma_default_page_len(color, ox, oy);
    lemma_calendar_counts(color, ox, oy, quad_cols(), default_labels());
}

/// Law: a full page always holds exactly four times one quadrant's
/// drawable count plus the three guide lines, for both page kinds.
pub proof fn lemma_page_composition(color: Seq<char>)
    ensures
        full_default_page_v(color).len() == 4 * default_page_v(
            color,
            OUTER_X as int,
            OUTER_Y as int,
        ).len() + 3,
        full_calendar_page_v(color).len() == 4 * calendar_page_v(
            color,
            OUTER_X as int,
            OUTER_Y as int,
        ).len() + 3,
{
    lemma_default_page_len(color, OUTER_X as int, OUTER_Y as int);
    lemma_default_page_len(color, RIGHT_QUAD_X as int, OUTER_Y as int);
    lemma_default_page_len(color, OUTER_X as int, BOTTOM_QUAD_Y as int);
    lemma_default_page_len(color, RIGHT_QUAD_X as int, BOTTOM_QUAD_Y as int);
    lemma_calendar_page_len(color, OUTER_X as int, OUTER_Y as int);
    lemma_calendar_page_len(color, RIGHT_QUAD_X as int, OUTER_Y as int);
    lemma_calendar_page_len(color, OUTER_X as int, BOTTOM_QUAD_Y as int);
    lemma_calendar_page_len(color, RIGHT_QUAD_X as int, BOTTOM_QUAD_Y as int);
    assert(cut_lines_v(color).len() == 3);
}

/// Law: the full pipeline is deterministic.  The plain-page content is a
/// function of the color alone, so two runs with the same parameters
/// produce the same document, shape for shape.
pub proof fn lemma_default_pipeline_deterministic(
    a: Seq<ShapeV>,
    b: Seq<ShapeV>,
    color: Seq<char>,
)
    requires
        a == full_default_page_v(color),
        b == full_default_page_v(color),
    ensures
        a == b,
{
}

/// Law: the calendar pipeline is deterministic in the same way.
pub proof fn lemma_calendar_pipeline_deterministic(
    a: Seq<ShapeV>,
    b: Seq<ShapeV>,
    color: Seq<char>,
)
    requires
        a == full_calendar_page_v(color),
        b == full_calendar_page_v(color),
    ensures
        a == b,
{
}

} // verus!
