//! Drawable primitives and their factory.
//!
//! A `Drawable` is one styled shape of the finished page: a lattice dot, an
//! unfilled rectangle, a guide line, or a text label.  Geometry is carried as
//! millimetre strings, already converted from integer hundredths of a
//! millimetre by [`crate::units::mm`]; the spec-level mirror [`ShapeV`] holds
//! the same data as character sequences so that contracts can pin every
//! attribute of every emitted shape.
use vstd::prelude::*;
use vstd::string::StringExecFns;

use crate::units::{mm, mm_spec};

verus! {

/// The spec-level value of one drawable shape: each field is the character
/// sequence of the attribute the output format will carry.
pub enum ShapeV {
    Dot { cx: Seq<char>, cy: Seq<char>, color: Seq<char> },
    Rect { x: Seq<char>, y: Seq<char>, width: Seq<char>, height: Seq<char>, color: Seq<char> },
    Line { x1: Seq<char>, y1: Seq<char>, x2: Seq<char>, y2: Seq<char>, color: Seq<char> },
    Text { content: Seq<char>, x: Seq<char>, y: Seq<char>, style: Seq<char> },
}

/// One styled shape of the finished page, with its geometry pre-converted to
/// millimetre strings.  Dots also carry a fixed radius of 0.25 mm, rectangles
/// and lines a fixed stroke width of 0.25 mm, and text a style built by
/// [`style_spec`]; those constants live in the serialization, not here.
#[derive(Debug)]
pub enum Drawable {
    Dot { cx: String, cy: String, color: String },
    Rect { x: String, y: String, width: String, height: String, color: String },
    Line { x1: String, y1: String, x2: String, y2: String, color: String },
    Text { content: String, x: String, y: String, style: String },
}

impl View for Drawable {
    type V = ShapeV;

    open spec fn view(&self) -> ShapeV {
        match self {
            Drawable::Dot { cx, cy, color } => ShapeV::Dot {
                cx: cx@,
                cy: cy@,
                color: color@,
            },
            Drawable::Rect { x, y, width, height, color } => ShapeV::Rect {
                x: x@,
                y: y@,
                width: width@,
                height: height@,
                color: color@,
            },
            Drawable::Line { x1, y1, x2, y2, color } => ShapeV::Line {
                x1: x1@,
                y1: y1@,
                x2: x2@,
                y2: y2@,
                color: color@,
            },
            Drawable::Text { content, x, y, style } => ShapeV::Text {
                content: content@,
                x: x@,
                y: y@,
                style: style@,
            },
        }
    }
}

/// The dot of the lattice at position (`cx`, `cy`), in hundredths of a
/// millimetre, filled with `color`.
pub open spec fn dot_v(color: Seq<char>, cx: int, cy: int) -> ShapeV {
    ShapeV::Dot { cx: mm_spec(cx), cy: mm_spec(cy), color: color }
}

/// An unfilled rectangle at (`x`, `y`) of size `w` by `h`, in hundredths of a
/// millimetre, stroked with `color`.
pub open spec fn rect_v(color: Seq<char>, x: int, y: int, w: int, h: int) -> ShapeV {
    ShapeV::Rect {
        x: mm_spec(x),
        y: mm_spec(y),
        width: mm_spec(w),
        height: mm_spec(h),
        color: color,
    }
}

/// A line from (`x1`, `y1`) to (`x2`, `y2`), in hundredths of a millimetre,
/// stroked with `color`.
pub open spec fn line_v(color: Seq<char>, x1: int, y1: int, x2: int, y2: int) -> ShapeV {
    ShapeV::Line {
        x1: mm_spec(x1),
        y1: mm_spec(y1),
        x2: mm_spec(x2),
        y2: mm_spec(y2),
        color: color,
    }
}

/// The inline style of a text label: fill color, lighter weight, 14px size.
pub open spec fn style_spec(color: Seq<char>) -> Seq<char> {
    "fill: "@ + color + "; font-weight: lighter; font-size: 14px;"@
}

/// A text label with the given content at (`x`, `y`), in hundredths of a
/// millimetre, styled by [`style_spec`] for `color`.
pub open spec fn text_v(color: Seq<char>, content: Seq<char>, x: int, y: int) -> ShapeV {
    ShapeV::Text { content: content, x: mm_spec(x), y: mm_spec(y), style: style_spec(color) }
}

/// Builds the lattice dot at (`cx`, `cy`) filled with `color`.
pub fn dot(color: &str, cx: i64, cy: i64) -> (d: Drawable)
    requires
        cx > i64::MIN,
        cy > i64::MIN,
    ensures
        d@ == dot_v(color@, cx as int, cy as int),
{
    Drawable::Dot { cx: mm(cx), cy: mm(cy), color: color.to_owned() }
}

/// Builds the unfilled rectangle at (`x`, `y`) of size `w` by `h` stroked
/// with `color`.
pub fn make_rect(color: &str, x: i64, y: i64, w: i64, h: i64) -> (d: Drawable)
    requires
        x > i64::MIN,
        y > i64::MIN,
        w > i64::MIN,
        h > i64::MIN,
    ensures
        d@ == rect_v(color@, x as int, y as int, w as int, h as int),
{
    Drawable::Rect { x: mm(x), y: mm(y), width: mm(w), height: mm(h), color: color.to_owned() }
}

/// Builds the line from (`x1`, `y1`) to (`x2`, `y2`) stroked with `color`.
pub fn make_line(color: &str, x1: i64, y1: i64, x2: i64, y2: i64) -> (d: Drawable)
    requires
        x1 > i64::MIN,
        y1 > i64::MIN,
        x2 > i64::MIN,
        y2 > i64::MIN,
    ensures
        d@ == line_v(color@, x1 as int, y1 as int, x2 as int, y2 as int),
{
    Drawable::Line { x1: mm(x1), y1: mm(y1), x2: mm(x2), y2: mm(y2), color: color.to_owned() }
}

/// Builds the text label `content` at (`x`, `y`) styled for `color`.
pub fn make_text(color: &str, content: &str, x: i64, y: i64) -> (d: Drawable)
    requires
        x > i64::MIN,
        y > i64::MIN,
    ensures
        d@ == text_v(color@, content@, x as int, y as int),
{
    let mut style = String::from_str("fill: ");
    style.append(color);
    style.append("; font-weight: lighter; font-size: 14px;");
    proof {
        assert(style@ =~= style_spec(color@));
    }
    Drawable::Text { content: content.to_owned(), x: mm(x), y: mm(y), style: style }
}

/// The spec views of a sequence of drawables, in order.
pub open spec fn views_of(s: Seq<Drawable>) -> Seq<ShapeV> {
    Seq::new(s.len(), |i: int| s[i]@)
}

/// Law of the view: appending one drawable appends exactly its view.
pub broadcast proof fn lemma_views_push(s: Seq<Drawable>, d: Drawable)
    ensures
        #[trigger] views_of(s.push(d)) == views_of(s).push(d@),
{
    assert(views_of(s.push(d)) =~= views_of(s).push(d@));
}

} // verus!
