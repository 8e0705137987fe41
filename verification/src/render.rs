//! Rendering a [`Document`] into an `svg::Document`.
//!
//! The svg crate is the output sink: each wrapper below makes one kind of
//! element and appends it to the svg document, and the uninterpreted
//! functions [`svg_shapes`] and [`svg_dims`] name what the svg document
//! holds, so that [`Document::to_svg`] can promise that the svg tree carries
//! exactly the drawables of the verified document, in order, under the
//! paper-sized viewport.  Writing the finished document to a file is the
//! caller's business.
use vstd::prelude::*;

use crate::layout::Document;
use crate::shapes::{Drawable, ShapeV};
use crate::units::{mm, mm_spec};

verus! {

#[verifier::external_type_specification]
#[verifier::external_body]
pub struct ExSvgElement(svg::node::element::SVG);

/// The shapes an svg document holds, in child order, each reduced to the
/// attribute values the wrappers below set on it.
pub uninterp spec fn svg_shapes(d: svg::node::element::SVG) -> Seq<ShapeV>;

/// The width and height attributes of an svg document's viewport.
pub uninterp spec fn svg_dims(d: svg::node::element::SVG) -> (Seq<char>, Seq<char>);

/// Relies on svg::Document::new and SVG::set: a fresh document holds no
/// shape children, and carries the width and height it was given.
#[verifier::external_body]
fn new_svg_document(width: &str, height: &str) -> (d: svg::Document)
    ensures
        svg_shapes(d) == Seq::<ShapeV>::empty(),
        svg_dims(d) == (width@, height@),
{
    svg::Document::new().set("width", width).set("height", height)
}

/// Relies on Circle::new and SVG::add: appends one circle child with the
/// given centre, the fixed 0.25 mm radius, and the fill color.
#[verifier::external_body]
fn add_dot(d: svg::Document, cx: &str, cy: &str, color: &str) -> (r: svg::Document)
    ensures
        svg_shapes(r) == svg_shapes(d).push((ShapeV::Dot { cx: cx@, cy: cy@, color: color@ })),
        svg_dims(r) == svg_dims(d),
{
    d.add(
        svg::node::element::Circle::new()
            .set("stroke-width", 1)
            .set("fill", color)
            .set("r", "0.25mm")
            .set("cx", cx)
            .set("cy", cy),
    )
}

/// Relies on Rectangle::new and SVG::add: appends one unfilled rectangle
/// child with the given position, size, and stroke color.
#[verifier::external_body]
fn add_rect(
    d: svg::Document,
    x: &str,
    y: &str,
    width: &str,
    height: &str,
    color: &str,
) -> (r: svg::Document)
    ensures
        svg_shapes(r) == svg_shapes(d).push(
            (ShapeV::Rect { x: x@, y: y@, width: width@, height: height@, color: color@ }),
        ),
        svg_dims(r) == svg_dims(d),
{
    d.add(
        svg::node::element::Rectangle::new()
            .set("width", width)
            .set("height", height)
            .set("x", x)
            .set("y", y)
            .set("fill", "none")
            .set("stroke-width", "0.25mm")
            .set("stroke", color),
    )
}

/// Relies on Line::new and SVG::add: appends one line child with the given
/// endpoints and stroke color.
#[verifier::external_body]
fn add_line(
    d: svg::Document,
    x1: &str,
    y1: &str,
    x2: &str,
    y2: &str,
    color: &str,
) -> (r: svg::Document)
    ensures
        svg_shapes(r) == svg_shapes(d).push(
            (ShapeV::Line { x1: x1@, y1: y1@, x2: x2@, y2: y2@, color: color@ }),
        ),
        svg_dims(r) == svg_dims(d),
{
    d.add(
        svg::node::element::Line::new()
            .set("x1", x1)
            .set("x2", x2)
            .set("y1", y1)
            .set("y2", y2)
            .set("stroke-width", "0.25mm")
            .set("stroke", color),
    )
}

/// Relies on Text::new and SVG::add: appends one text child holding the
/// given content, position, and style.
#[verifier::external_body]
fn add_text(d: svg::Document, content: &str, x: &str, y: &str, style: &str) -> (r: svg::Document)
    ensures
        svg_shapes(r) == svg_shapes(d).push(
            (ShapeV::Text { content: content@, x: x@, y: y@, style: style@ }),
        ),
        svg_dims(r) == svg_dims(d),
{
    d.add(
        svg::node::element::Text::new(content).set("x", x).set("y", y).set("style", style),
    )
}

impl Document {
    /// Builds the svg document holding exactly this document's drawables,
    /// in paint order, under the paper-sized viewport.
    pub fn to_svg(&self) -> (r: svg::Document)
        requires
            self.width > i64::MIN,
            self.height > i64::MIN,
        ensures
            svg_shapes(r) == self@,
            svg_dims(r) == (mm_spec(self.width as int), mm_spec(self.height as int)),
    {
        let w = mm(self.width);
        let h = mm(self.height);
        let mut r = new_svg_document(w.as_str(), h.as_str());
        let mut i: usize = 0;
        while i < self.shapes.len()
            invariant
                i <= self.shapes@.len(),
                svg_shapes(r) == self@.take(i as int),
                svg_dims(r) == (mm_spec(self.width as int), mm_spec(self.height as int)),
            decreases self.shapes@.len() - i,
        {
            let sh = &self.shapes[i];
            match sh {
                Drawable::Dot { cx, cy, color } => {
                    r = add_dot(r, cx.as_str(), cy.as_str(), color.as_str());
                },
                Drawable::Rect { x, y, width, height, color } => {
                    r = add_rect(
                        r,
                        x.as_str(),
                        y.as_str(),
                        width.as_str(),
                        height.as_str(),
                        color.as_str(),
                    );
                },
                Drawable::Line { x1, y1, x2, y2, color } => {
                    r = add_line(
                        r,
                        x1.as_str(),
                        y1.as_str(),
                        x2.as_str(),
                        y2.as_str(),
                        color.as_str(),
                    );
                },
                Drawable::Text { content, x, y, style } => {
                    r = add_text(r, content.as_str(), x.as_str(), y.as_str(), style.as_str());
                },
            }
            proof {
                assert(self@.take(i + 1) =~= self@.take(i as int).push(self.shapes@[i as int]@));
            }
            i = i + 1;
        }
        proof {
            assert(self@.take(self.shapes@.len() as int) =~= self@);
        }
        r
    }
}

} // verus!
