use gridpaper::layout::Document;
use gridpaper::shapes::{dot, make_line, make_rect, make_text};

#[test]
fn rendered_dot_carries_its_attributes() {
    let mut doc = Document::new();
    doc.shapes.push(dot("red", 500, 1000));
    let out = doc.to_svg().to_string();
    assert!(out.contains("<circle"));
    assert!(out.contains("cx=\"5mm\""));
    assert!(out.contains("cy=\"10mm\""));
    assert!(out.contains("r=\"0.25mm\""));
    assert!(out.contains("fill=\"red\""));
}

#[test]
fn rendered_rect_is_unfilled_and_stroked() {
    let mut doc = Document::new();
    doc.shapes.push(make_rect("blue", 1000, 2000, 5500, 500));
    let out = doc.to_svg().to_string();
    assert!(out.contains("<rect"));
    assert!(out.contains("x=\"10mm\""));
    assert!(out.contains("y=\"20mm\""));
    assert!(out.contains("width=\"55mm\""));
    assert!(out.contains("height=\"5mm\""));
    assert!(out.contains("fill=\"none\""));
    assert!(out.contains("stroke=\"blue\""));
    assert!(out.contains("stroke-width=\"0.25mm\""));
}

#[test]
fn rendered_line_spans_its_endpoints() {
    let mut doc = Document::new();
    doc.shapes.push(make_line("green", 10595, 0, 10595, 27940));
    let out = doc.to_svg().to_string();
    assert!(out.contains("<line"));
    assert!(out.contains("x1=\"105.95mm\""));
    assert!(out.contains("y2=\"279.4mm\""));
}

#[test]
fn rendered_text_keeps_content_and_style() {
    let mut doc = Document::new();
    doc.shapes.push(make_text("blue", "Mon", 3000, 2400));
    let out = doc.to_svg().to_string();
    assert!(out.contains("<text"));
    assert!(out.contains("Mon"));
    assert!(out.contains("x=\"30mm\""));
    assert!(out.contains("y=\"24mm\""));
    assert!(out.contains("fill: blue; font-weight: lighter; font-size: 14px;"));
}

#[test]
fn rendering_appends_rather_than_echoes() {
    let empty = Document::new();
    let mut one = Document::new();
    one.shapes.push(dot("red", 0, 0));
    assert_ne!(empty.to_svg().to_string(), one.to_svg().to_string());
}

#[test]
fn viewport_matches_the_paper() {
    let doc = Document::new();
    let out = doc.to_svg().to_string();
    assert!(out.contains("width=\"215.9mm\""));
    assert!(out.contains("height=\"279.4mm\""));
}

#[test]
fn pipeline_is_idempotent_byte_for_byte() {
    let mut first = Document::new();
    first.full_default_page("red");
    let mut second = Document::new();
    second.full_default_page("red");
    assert_eq!(first.to_svg().to_string(), second.to_svg().to_string());

    let mut cal_first = Document::new();
    cal_first.full_calendar_page("blue");
    let mut cal_second = Document::new();
    cal_second.full_calendar_page("blue");
    assert_eq!(cal_first.to_svg().to_string(), cal_second.to_svg().to_string());
}
