//! The layout engine: grid tiler, header layout, calendar overlay, and the
//! quadrant and page composers.
//!
//! Every length is an `i64` in hundredths of a millimetre (see
//! [`crate::units`]).  A [`Document`] accumulates [`Drawable`]s in paint
//! order; each composition method appends exactly the shapes its spec
//! function describes, so the whole page content is pinned down shape by
//! shape and attribute by attribute.
use vstd::prelude::*;
use vstd::string::StringExecFns;

use crate::shapes::{
    dot, dot_v, line_v, make_line, make_rect, make_text, rect_v, text_v, views_of, Drawable,
    ShapeV,
};

verus! {

/// Paper width: 215.9 mm.
pub const PAPER_W: i64 = 21590;

/// Paper height: 279.4 mm.
pub const PAPER_H: i64 = 27940;

/// Outer page margin, horizontal: 10 mm.
pub const OUTER_X: i64 = 1000;

/// Outer page margin, vertical: 10 mm.
pub const OUTER_Y: i64 = 1000;

/// Inner gutter margin, horizontal: 5 mm.
pub const INNER_X: i64 = 500;

/// Inner gutter margin, vertical: 5 mm.
pub const INNER_Y: i64 = 500;

/// Grid cell width: 5 mm.
pub const CELL_W: i64 = 500;

/// Grid cell height: 5 mm.
pub const CELL_H: i64 = 500;

/// Width of the central fold split between quadrants: 4 mm.
pub const MID_SPLIT: i64 = 400;

/// Half the fold split: 2 mm.
pub const MID_HALF: i64 = 200;

/// Anchor of the two right-hand quadrants on the x axis.
pub const RIGHT_QUAD_X: i64 = HALF_W + INNER_X + MID_HALF;

/// Anchor of the two bottom quadrants on the y axis.
pub const BOTTOM_QUAD_Y: i64 = HALF_H + OUTER_Y;

/// Width of the header's right box, in cells.
pub const RIGHT_CELLS: i64 = 5;

/// Width of the header's mid box, in cells.
pub const MID_CELLS: i64 = 2;

/// Half the paper width: 107.95 mm.
pub const HALF_W: i64 = 10795;

/// Half the paper height: 139.7 mm.
pub const HALF_H: i64 = 13970;

/// Usable width of one quadrant: half the paper minus the outer margin and
/// the quadrant's share of the gutter, 92.95 mm.
pub const QUAD_W: i64 = HALF_W - OUTER_X - INNER_X;

/// Usable height of one quadrant: 124.7 mm.
pub const QUAD_H: i64 = HALF_H - OUTER_Y - INNER_Y;

/// The parameter bundle threaded through one quadrant's layout: stroke/fill
/// color, the quadrant's top-left anchor, and the lattice dimensions in
/// (columns, rows).
pub struct GridSettings {
    pub color: String,
    pub offset: (i64, i64),
    pub num_cells: (usize, usize),
}

/// The spec-level value of a [`GridSettings`].
pub struct SettingsV {
    pub color: Seq<char>,
    pub offset: (int, int),
    pub num_cells: (int, int),
}

impl View for GridSettings {
    type V = SettingsV;

    open spec fn view(&self) -> SettingsV {
        SettingsV {
            color: self.color@,
            offset: (self.offset.0 as int, self.offset.1 as int),
            num_cells: (self.num_cells.0 as int, self.num_cells.1 as int),
        }
    }
}

/// Machine bounds under which the layout arithmetic cannot overflow: at most
/// 100000 cells along each axis and offsets within ten metres of the origin.
pub open spec fn in_bounds(g: SettingsV) -> bool {
    &&& g.num_cells.0 <= 100000
    &&& g.num_cells.1 <= 100000
    &&& -1000000000 <= g.offset.0 <= 1000000000
    &&& -1000000000 <= g.offset.1 <= 1000000000
}

/// One column of lattice dots: the first `rows` dots of column `x`, top to
/// bottom, spaced by the cell size (`cw`, `ch`) from the anchor (`ox`, `oy`).
pub open spec fn grid_col_v(
    color: Seq<char>,
    ox: int,
    oy: int,
    cw: int,
    ch: int,
    x: int,
    rows: int,
) -> Seq<ShapeV>
    decreases rows,
{
    if rows <= 0 {
        Seq::<ShapeV>::empty()
    } else {
        grid_col_v(color, ox, oy, cw, ch, x, rows - 1).push(
            dot_v(color, ox + x * cw, oy + (rows - 1) * ch),
        )
    }
}

/// The full lattice: the first `cols` columns, left to right, each of `rows`
/// dots.  The dot of column `i`, row `j` sits at the anchor plus
/// (`i * cw`, `j * ch`), so the top-left dot sits exactly at the anchor.
pub open spec fn grid_v(
    color: Seq<char>,
    ox: int,
    oy: int,
    cw: int,
    ch: int,
    cols: int,
    rows: int,
) -> Seq<ShapeV>
    decreases cols,
{
    if cols <= 0 {
        Seq::<ShapeV>::empty()
    } else {
        grid_v(color, ox, oy, cw, ch, cols - 1, rows) + grid_col_v(
            color,
            ox,
            oy,
            cw,
            ch,
            cols - 1,
            rows,
        )
    }
}

/// The header's left box width, in cells: the full row minus the fixed right
/// and mid boxes and one reserved margin cell.  Negative for fewer than
/// eight columns; that degenerate rectangle is kept as the layout's accepted
/// behaviour for implausibly small configurations.
pub open spec fn header_left_cells(cols: int) -> int {
    cols - RIGHT_CELLS - MID_CELLS - 1
}

/// The three-box header strip at the quadrant anchor (`ox`, `oy`): a wide
/// left box, a two-cell mid box, and a five-cell right box, adjacent and one
/// cell high.
pub open spec fn header_v(color: Seq<char>, ox: int, oy: int, cols: int) -> Seq<ShapeV> {
    let lw = CELL_W * header_left_cells(cols);
    seq![
        rect_v(color, ox, oy, lw, CELL_H as int),
        rect_v(color, ox + lw, oy, CELL_W * MID_CELLS, CELL_H as int),
        rect_v(color, ox + lw + CELL_W * MID_CELLS, oy, CELL_W * RIGHT_CELLS, CELL_H as int),
    ]
}

/// The name of day-of-week column `c` (0 to 6), Monday first.
pub open spec fn day_label(c: int) -> Seq<char> {
    if c == 0 {
        "Mon"@
    } else if c == 1 {
        "Tue"@
    } else if c == 2 {
        "Wed"@
    } else if c == 3 {
        "Thu"@
    } else if c == 4 {
        "Fri"@
    } else if c == 5 {
        "Sat"@
    } else {
        "Sun"@
    }
}

/// X anchor of the calendar table: right-aligned so that the seven
/// two-cell day columns plus one margin cell end at the lattice's right
/// edge.
pub open spec fn cal_anchor_x(ox: int, cols: int) -> int {
    CELL_W * (cols - 14 - 1) + ox
}

/// Y anchor of the calendar table: three cell heights below the quadrant
/// anchor, leaving room for the header row and the grid above.
pub open spec fn cal_anchor_y(oy: int) -> int {
    CELL_H * 3 + oy
}

/// The first `n` day-name labels, left to right, each 1 mm above the table
/// anchor and two cells apart.
pub open spec fn cal_days_v(color: Seq<char>, sx: int, sy: int, n: int) -> Seq<ShapeV>
    decreases n,
{
    if n <= 0 {
        Seq::<ShapeV>::empty()
    } else {
        cal_days_v(color, sx, sy, n - 1).push(
            text_v(color, day_label(n - 1), sx + 2 * CELL_W * (n - 1), sy - 100),
        )
    }
}

/// The first `n` task boxes of row `r`: two cells wide, one cell high,
/// left to right under the day columns.
pub open spec fn cal_row_rects_v(color: Seq<char>, sx: int, sy: int, r: int, n: int) -> Seq<
    ShapeV,
>
    decreases n,
{
    if n <= 0 {
        Seq::<ShapeV>::empty()
    } else {
        cal_row_rects_v(color, sx, sy, r, n - 1).push(
            rect_v(
                color,
                sx + 2 * CELL_W * (n - 1),
                sy + CELL_H * r,
                2 * CELL_W,
                CELL_H as int,
            ),
        )
    }
}

/// The first `n` rows of the calendar table: each row is its label at the
/// quadrant's left edge, 1 mm above the row's lower boundary, followed by
/// its seven task boxes.
pub open spec fn cal_rows_v(
    color: Seq<char>,
    ox: int,
    sx: int,
    sy: int,
    labels: Seq<Seq<char>>,
    n: int,
) -> Seq<ShapeV>
    decreases n,
{
    if n <= 0 {
        Seq::<ShapeV>::empty()
    } else {
        cal_rows_v(color, ox, sx, sy, labels, n - 1) + seq![
            text_v(color, labels[n - 1], ox, sy + CELL_H * n - 100),
        ] + cal_row_rects_v(color, sx, sy, n - 1, 7)
    }
}

/// Calendar Overlay: the seven day-name labels, then one row per label,
/// anchored to the bottom-right of the quadrant at (`ox`, `oy`).
pub open spec fn calendar_v(
    color: Seq<char>,
    ox: int,
    oy: int,
    cols: int,
    labels: Seq<Seq<char>>,
) -> Seq<ShapeV> {
    cal_days_v(color, cal_anchor_x(ox, cols), cal_anchor_y(oy), 7) + cal_rows_v(
        color,
        ox,
        cal_anchor_x(ox, cols),
        cal_anchor_y(oy),
        labels,
        labels.len() as int,
    )
}

/// The spec views of a sequence of label strings, in order.
pub open spec fn labels_of(s: Seq<String>) -> Seq<Seq<char>> {
    Seq::new(s.len(), |i: int| s[i]@)
}

/// The default row labels of the calendar table: eight task names followed
/// by five blank rows.
pub open spec fn default_labels() -> Seq<Seq<char>> {
    seq![
        "Art"@,
        "Brush Teeth"@,
        "Chores"@,
        "Dread"@,
        "Entropy"@,
        "Flee"@,
        "Grand"@,
        "Immediate"@,
        ""@,
        ""@,
        ""@,
        ""@,
        ""@,
    ]
}

/// The least integer at or above `a / b`, for positive `b`.
pub open spec fn ceil_div(a: int, b: int) -> int {
    (a + b - 1) / b
}

/// Columns of a quadrant's lattice: the usable width divided by the cell
/// width, rounded up, so the lattice may overflow the nominal bounds by
/// less than one cell.
pub open spec fn quad_cols() -> int {
    ceil_div(QUAD_W as int, CELL_W as int)
}

/// Rows of a quadrant's lattice.
pub open spec fn quad_rows() -> int {
    ceil_div(QUAD_H as int, CELL_H as int)
}

/// Quadrant Composer, plain page: the dot lattice, then the header boxes
/// drawn on top.
pub open spec fn default_page_v(color: Seq<char>, ox: int, oy: int) -> Seq<ShapeV> {
    grid_v(color, ox, oy, CELL_W as int, CELL_H as int, quad_cols(), quad_rows()) + header_v(
        color,
        ox,
        oy,
        quad_cols(),
    )
}

/// Quadrant Composer, calendar page: the plain quadrant, then the calendar
/// table with the default row labels.
pub open spec fn calendar_page_v(color: Seq<char>, ox: int, oy: int) -> Seq<ShapeV> {
    default_page_v(color, ox, oy) + calendar_v(color, ox, oy, quad_cols(), default_labels())
}

/// The three fold/cut guide lines: two vertical lines 2 mm either side of
/// the page's vertical centre, and one horizontal line across its middle.
pub open spec fn cut_lines_v(color: Seq<char>) -> Seq<ShapeV> {
    seq![
        line_v(color, (HALF_W - MID_HALF) as int, 0, (HALF_W - MID_HALF) as int, PAPER_H as int),
        line_v(color, (HALF_W + MID_HALF) as int, 0, (HALF_W + MID_HALF) as int, PAPER_H as int),
        line_v(color, 0, HALF_H as int, PAPER_W as int, HALF_H as int),
    ]
}

/// Page Composer, plain page: one plain quadrant in each corner, then the
/// guide lines.
pub open spec fn full_default_page_v(color: Seq<char>) -> Seq<ShapeV> {
    default_page_v(color, OUTER_X as int, OUTER_Y as int) + default_page_v(
        color,
        RIGHT_QUAD_X as int,
        OUTER_Y as int,
    ) + default_page_v(color, OUTER_X as int, BOTTOM_QUAD_Y as int) + default_page_v(
        color,
        RIGHT_QUAD_X as int,
        BOTTOM_QUAD_Y as int,
    ) + cut_lines_v(color)
}

/// Page Composer, calendar page: one calendar quadrant in each corner, then
/// the guide lines.
pub open spec fn full_calendar_page_v(color: Seq<char>) -> Seq<ShapeV> {
    calendar_page_v(color, OUTER_X as int, OUTER_Y as int) + calendar_page_v(
        color,
        RIGHT_QUAD_X as int,
        OUTER_Y as int,
    ) + calendar_page_v(color, OUTER_X as int, BOTTOM_QUAD_Y as int) + calendar_page_v(
        color,
        RIGHT_QUAD_X as int,
        BOTTOM_QUAD_Y as int,
    ) + cut_lines_v(color)
}

/// An ordered sequence of drawable shapes plus the page viewport, sized to
/// the full paper.  Shapes are append-only; their order is the paint order.
pub struct Document {
    pub shapes: Vec<Drawable>,
    pub width: i64,
    pub height: i64,
}

impl View for Document {
    type V = Seq<ShapeV>;

    open spec fn view(&self) -> Seq<ShapeV> {
        views_of(self.shapes@)
    }
}

impl Document {
    /// A fresh, empty document with the paper-sized viewport.
    pub fn new() -> (d: Document)
        ensures
            d@ == Seq::<ShapeV>::empty(),
            d.width == PAPER_W,
            d.height == PAPER_H,
    {
        let d = Document { shapes: Vec::new(), width: PAPER_W, height: PAPER_H };
        proof {
            assert(d@ =~= Seq::<ShapeV>::empty());
        }
        d
    }

    /// Grid Tiler: appends the full dot lattice for `s`, column by column,
    /// each column top to bottom.
    pub fn grid(&mut self, s: &GridSettings)
        requires
            in_bounds(s@),
        ensures
            final(self)@ == old(self)@ + grid_v(
                s@.color,
                s@.offset.0,
                s@.offset.1,
                CELL_W as int,
                CELL_H as int,
                s@.num_cells.0,
                s@.num_cells.1,
            ),
            final(self).width == old(self).width,
            final(self).height == old(self).height,
    {
        broadcast use crate::shapes::lemma_views_push;

        let mut x: usize = 0;
        while x < s.num_cells.0
            invariant
                x <= s.num_cells.0,
                self@ == old(self)@ + grid_v(
                    s@.color,
                    s@.offset.0,
                    s@.offset.1,
                    CELL_W as int,
                    CELL_H as int,
                    x as int,
                    s@.num_cells.1,
                ),
                self.width == old(self).width,
                self.height == old(self).height,
            decreases s.num_cells.0 - x,
        {
            let mut y: usize = 0;
            while y < s.num_cells.1
                invariant
                    x < s.num_cells.0,
                    y <= s.num_cells.1,
                    self@ == old(self)@ + grid_v(
                        s@.color,
                        s@.offset.0,
                        s@.offset.1,
                        CELL_W as int,
                        CELL_H as int,
                        x as int,
                        s@.num_cells.1,
                    ) + grid_col_v(
                        s@.color,
                        s@.offset.0,
                        s@.offset.1,
                        CELL_W as int,
                        CELL_H as int,
                        x as int,
                        y as int,
                    ),
                    self.width == old(self).width,
                    self.height == old(self).height,
                decreases s.num_cells.1 - y,
            {
                let cx = s.offset.0 + (x as i64) * CELL_W;
                let cy = s.offset.1 + (y as i64) * CELL_H;
                let d = dot(settings_color(s), cx, cy);
                self.shapes.push(d);
                proof {
                    assert(self@ =~= old(self)@ + grid_v(
                        s@.color,
                        s@.offset.0,
                        s@.offset.1,
                        CELL_W as int,
                        CELL_H as int,
                        x as int,
                        s@.num_cells.1,
                    ) + grid_col_v(
                        s@.color,
                        s@.offset.0,
                        s@.offset.1,
                        CELL_W as int,
                        CELL_H as int,
                        x as int,
                        y + 1,
                    ));
                }
                y = y + 1;
            }
            proof {
                assert(self@ =~= old(self)@ + grid_v(
                    s@.color,
                    s@.offset.0,
                    s@.offset.1,
                    CELL_W as int,
                    CELL_H as int,
                    x + 1,
                    s@.num_cells.1,
                ));
            }
            x = x + 1;
        }
    }

    /// Header Layout: appends the three header boxes for `s`, left to right,
    /// spanning the header row at the quadrant anchor.
    pub fn header(&mut self, s: &GridSettings)
        requires
            in_bounds(s@),
        ensures
            final(self)@ == old(self)@ + header_v(s@.color, s@.offset.0, s@.offset.1, s@.num_cells.0),
            final(self).width == old(self).width,
            final(self).height == old(self).height,
    {
        broadcast use crate::shapes::lemma_views_push;

        let left_cells: i64 = (s.num_cells.0 as i64) - RIGHT_CELLS - MID_CELLS - 1;
        let lw: i64 = CELL_W * left_cells;
        let r_left = make_rect(settings_color(s), s.offset.0, s.offset.1, lw, CELL_H);
        self.shapes.push(r_left);
        let r_mid = make_rect(settings_color(s), s.offset.0 + lw, s.offset.1, CELL_W * MID_CELLS, CELL_H);
        self.shapes.push(r_mid);
        let r_right = make_rect(
            settings_color(s),
            s.offset.0 + lw + CELL_W * MID_CELLS,
            s.offset.1,
            CELL_W * RIGHT_CELLS,
            CELL_H,
        );
        self.shapes.push(r_right);
        proof {
            assert(self@ =~= old(self)@ + header_v(
                s@.color,
                s@.offset.0,
                s@.offset.1,
                s@.num_cells.0,
            ));
        }
    }

    /// Calendar Overlay with the given row labels: appends the seven
    /// day-name labels, then one labelled row of seven task boxes per
    /// entry of `labels`.
    pub fn calendar_with(&mut self, s: &GridSettings, labels: &Vec<String>)
        requires
            in_bounds(s@),
            s@.num_cells.0 >= 15,
            labels@.len() <= 100000,
        ensures
            final(self)@ == old(self)@ + calendar_v(
                s@.color,
                s@.offset.0,
                s@.offset.1,
                s@.num_cells.0,
                labels_of(labels@),
            ),
            final(self).width == old(self).width,
            final(self).height == old(self).height,
    {
        broadcast use crate::shapes::lemma_views_push;

        let sx: i64 = CELL_W * ((s.num_cells.0 as i64) - 15) + s.offset.0;
        let sy: i64 = CELL_H * 3 + s.offset.1;
        let mut c: usize = 0;
        while c < 7
            invariant
                c <= 7,
                self@ == old(self)@ + cal_days_v(s@.color, sx as int, sy as int, c as int),
                self.width == old(self).width,
                self.height == old(self).height,
            decreases 7 - c,
        {
            let t = make_text(settings_color(s), day_name(c), sx + 2 * CELL_W * (c as i64), sy - 100);
            self.shapes.push(t);
            proof {
                assert(self@ =~= old(self)@ + cal_days_v(s@.color, sx as int, sy as int, c + 1));
            }
            c = c + 1;
        }
        let mut r: usize = 0;
        while r < labels.len()
            invariant
                r <= labels@.len(),
                self@ == old(self)@ + cal_days_v(s@.color, sx as int, sy as int, 7) + cal_rows_v(
                    s@.color,
                    s@.offset.0,
                    sx as int,
                    sy as int,
                    labels_of(labels@),
                    r as int,
                ),
                self.width == old(self).width,
                self.height == old(self).height,
            decreases labels@.len() - r,
        {
            let t = make_text(
                settings_color(s),
                labels[r].as_str(),
                s.offset.0,
                sy + CELL_H * ((r as i64) + 1) - 100,
            );
            self.shapes.push(t);
            let mut bc: usize = 0;
            while bc < 7
                invariant
                    r < labels@.len(),
                    bc <= 7,
                    self@ == old(self)@ + cal_days_v(s@.color, sx as int, sy as int, 7)
                        + cal_rows_v(
                        s@.color,
                        s@.offset.0,
                        sx as int,
                        sy as int,
                        labels_of(labels@),
                        r as int,
                    ) + seq![
                        text_v(
                            s@.color,
                            labels@[r as int]@,
                            s@.offset.0,
                            sy as int + CELL_H * (r + 1) - 100,
                        ),
                    ] + cal_row_rects_v(s@.color, sx as int, sy as int, r as int, bc as int),
                    self.width == old(self).width,
                    self.height == old(self).height,
                decreases 7 - bc,
            {
                let b = make_rect(
                    settings_color(s),
                    sx + 2 * CELL_W * (bc as i64),
                    sy + CELL_H * (r as i64),
                    2 * CELL_W,
                    CELL_H,
                );
                self.shapes.push(b);
                proof {
                    assert(self@ =~= old(self)@ + cal_days_v(s@.color, sx as int, sy as int, 7)
                        + cal_rows_v(
                        s@.color,
                        s@.offset.0,
                        sx as int,
                        sy as int,
                        labels_of(labels@),
                        r as int,
                    ) + seq![
                        text_v(
                            s@.color,
                            labels@[r as int]@,
                            s@.offset.0,
                            sy as int + CELL_H * (r + 1) - 100,
                        ),
                    ] + cal_row_rects_v(s@.color, sx as int, sy as int, r as int, bc + 1));
                }
                bc = bc + 1;
            }
            proof {
                assert(self@ =~= old(self)@ + cal_days_v(s@.color, sx as int, sy as int, 7)
                    + cal_rows_v(
                    s@.color,
                    s@.offset.0,
                    sx as int,
                    sy as int,
                    labels_of(labels@),
                    r + 1,
                ));
            }
            r = r + 1;
        }
        proof {
            assert(self@ =~= old(self)@ + calendar_v(
                s@.color,
                s@.offset.0,
                s@.offset.1,
                s@.num_cells.0,
                labels_of(labels@),
            ));
        }
    }

    /// Calendar Overlay with the default row labels.
    pub fn calendar(&mut self, s: &GridSettings)
        requires
            in_bounds(s@),
            s@.num_cells.0 >= 15,
        ensures
            final(self)@ == old(self)@ + calendar_v(
                s@.color,
                s@.offset.0,
                s@.offset.1,
                s@.num_cells.0,
                default_labels(),
            ),
            final(self).width == old(self).width,
            final(self).height == old(self).height,
    {
        let labels = default_row_labels();
        self.calendar_with(s, &labels);
    }

    /// Quadrant Composer, plain page: derives the lattice dimensions from
    /// the quadrant's usable area and appends the lattice, then the header.
    pub fn default_page(&mut self, offset: (i64, i64), color: &str)
        requires
            -1000000000 <= offset.0 <= 1000000000,
            -1000000000 <= offset.1 <= 1000000000,
        ensures
            final(self)@ == old(self)@ + default_page_v(color@, offset.0 as int, offset.1 as int),
            final(self).width == old(self).width,
            final(self).height == old(self).height,
    {
        let num_cells = quadrant_cells();
        let gs = GridSettings { color: color.to_owned(), offset: offset, num_cells: num_cells };
        self.grid(&gs);
        self.header(&gs);
        proof {
            assert(self@ =~= old(self)@ + default_page_v(
                color@,
                offset.0 as int,
                offset.1 as int,
            ));
        }
    }

    /// Quadrant Composer, calendar page: the plain quadrant, then the
    /// calendar table with the default row labels.
    #[verifier::rlimit(50)]
    pub fn calendar_page(&mut self, offset: (i64, i64), color: &str)
        requires
            -1000000000 <= offset.0 <= 1000000000,
            -1000000000 <= offset.1 <= 1000000000,
        ensures
            final(self)@ == old(self)@ + calendar_page_v(color@, offset.0 as int, offset.1 as int),
            final(self).width == old(self).width,
            final(self).height == old(self).height,
    {
        self.default_page(offset, color);
        let num_cells = quadrant_cells();
        let gs = GridSettings { color: color.to_owned(), offset: offset, num_cells: num_cells };
        self.calendar(&gs);
        proof {
            assert(self@ =~= old(self)@ + calendar_page_v(
                color@,
                offset.0 as int,
                offset.1 as int,
            ));
        }
    }

    /// Appends the three fold/cut guide lines.
    pub fn cut_lines(&mut self, color: &str)
        ensures
            final(self)@ == old(self)@ + cut_lines_v(color@),
            final(self).width == old(self).width,
            final(self).height == old(self).height,
    {
        broadcast use crate::shapes::lemma_views_push;

        let l1 = make_line(color, HALF_W - MID_HALF, 0, HALF_W - MID_HALF, PAPER_H);
        self.shapes.push(l1);
        let l2 = make_line(color, HALF_W + MID_HALF, 0, HALF_W + MID_HALF, PAPER_H);
        self.shapes.push(l2);
        let l3 = make_line(color, 0, HALF_H, PAPER_W, HALF_H);
        self.shapes.push(l3);
        proof {
            assert(self@ =~= old(self)@ + cut_lines_v(color@));
        }
    }

    /// Page Composer, plain page: one plain quadrant in each corner of the
    /// paper, then the guide lines.
    pub fn full_default_page(&mut self, color: &str)
        ensures
            final(self)@ == old(self)@ + full_default_page_v(color@),
            final(self).width == old(self).width,
            final(self).height == old(self).height,
    {
        self.default_page((OUTER_X, OUTER_Y), color);
        self.default_page((RIGHT_QUAD_X, OUTER_Y), color);
        self.default_page((OUTER_X, BOTTOM_QUAD_Y), color);
        self.default_page((RIGHT_QUAD_X, BOTTOM_QUAD_Y), color);
        self.cut_lines(color);
        proof {
            assert(self@ =~= old(self)@ + full_default_page_v(color@));
        }
    }

    /// Page Composer, calendar page: one calendar quadrant in each corner
    /// of the paper, then the guide lines.
    pub fn full_calendar_page(&mut self, color: &str)
        ensures
            final(self)@ == old(self)@ + full_calendar_page_v(color@),
            final(self).width == old(self).width,
            final(self).height == old(self).height,
    {
        self.calendar_page((OUTER_X, OUTER_Y), color);
        self.calendar_page((RIGHT_QUAD_X, OUTER_Y), color);
        self.calendar_page((OUTER_X, BOTTOM_QUAD_Y), color);
        self.calendar_page((RIGHT_QUAD_X, BOTTOM_QUAD_Y), color);
        self.cut_lines(color);
        proof {
            assert(self@ =~= old(self)@ + full_calendar_page_v(color@));
        }
    }
}

/// The settings' color as a string slice.
fn settings_color(s: &GridSettings) -> (r: &str)
    ensures
        r@ == s@.color,
{
    s.color.as_str()
}

/// The name of day-of-week column `c`, Monday first.
fn day_name(c: usize) -> (r: &'static str)
    requires
        c < 7,
    ensures
        r@ == day_label(c as int),
{
    if c == 0 {
        "Mon"
    } else if c == 1 {
        "Tue"
    } else if c == 2 {
        "Wed"
    } else if c == 3 {
        "Thu"
    } else if c == 4 {
        "Fri"
    } else if c == 5 {
        "Sat"
    } else {
        "Sun"
    }
}

/// Builds the default row labels of the calendar table.
pub fn default_row_labels() -> (v: Vec<String>)
    ensures
        labels_of(v@) == default_labels(),
        v@.len() == 13,
{
    let mut v: Vec<String> = Vec::new();
    v.push(String::from_str("Art"));
    v.push(String::from_str("Brush Teeth"));
    v.push(String::from_str("Chores"));
    v.push(String::from_str("Dread"));
    v.push(String::from_str("Entropy"));
    v.push(String::from_str("Flee"));
    v.push(String::from_str("Grand"));
    v.push(String::from_str("Immediate"));
    v.push(String::from_str(""));
    v.push(String::from_str(""));
    v.push(String::from_str(""));
    v.push(String::from_str(""));
    v.push(String::from_str(""));
    proof {
        assert(labels_of(v@) =~= default_labels());
    }
    v
}

/// Grid Dimensions of one quadrant, derived from its usable area divided by
/// the cell size, rounding up.
pub fn quadrant_cells() -> (nc: (usize, usize))
    ensures
        nc.0 as int == quad_cols(),
        nc.1 as int == quad_rows(),
{
    let cols = ((QUAD_W + CELL_W - 1) / CELL_W) as usize;
    let rows = ((QUAD_H + CELL_H - 1) / CELL_H) as usize;
    (cols, rows)
}

} // verus!
