use gridpaper::layout::{quadrant_cells, Document, GridSettings};
use gridpaper::shapes::Drawable;

fn count_texts(doc: &Document) -> usize {
    doc.shapes
        .iter()
        .filter(|s| matches!(s, Drawable::Text { .. }))
        .count()
}

fn count_rects(doc: &Document) -> usize {
    doc.shapes
        .iter()
        .filter(|s| matches!(s, Drawable::Rect { .. }))
        .count()
}

fn count_dots(doc: &Document) -> usize {
    doc.shapes
        .iter()
        .filter(|s| matches!(s, Drawable::Dot { .. }))
        .count()
}

#[test]
fn quadrant_lattice_is_nineteen_by_twentyfive() {
    // usable area (92.95, 124.7) mm over 5 mm cells, rounded up
    assert_eq!(quadrant_cells(), (19, 25));
}

#[test]
fn plain_quadrant_emits_lattice_then_header() {
    let mut doc = Document::new();
    doc.default_page((1000, 1000), "red");
    assert_eq!(doc.shapes.len(), 19 * 25 + 3);
    assert_eq!(count_dots(&doc), 475);
    assert_eq!(count_rects(&doc), 3);
    // the top-left dot sits exactly at the quadrant offset
    match &doc.shapes[0] {
        Drawable::Dot { cx, cy, color } => {
            assert_eq!(cx, "10mm");
            assert_eq!(cy, "10mm");
            assert_eq!(color, "red");
        }
        other => panic!("expected a dot first, got {:?}", other),
    }
}

#[test]
fn header_boxes_span_all_but_one_cell() {
    let mut doc = Document::new();
    doc.default_page((1000, 1000), "red");
    // 19 columns: left 11 cells (55mm), mid 2 cells (10mm), right 5 cells (25mm)
    let boxes: Vec<&Drawable> = doc.shapes[475..].iter().collect();
    match boxes[0] {
        Drawable::Rect { x, y, width, height, .. } => {
            assert_eq!(x, "10mm");
            assert_eq!(y, "10mm");
            assert_eq!(width, "55mm");
            assert_eq!(height, "5mm");
        }
        other => panic!("expected the left box, got {:?}", other),
    }
    match boxes[1] {
        Drawable::Rect { x, width, .. } => {
            assert_eq!(x, "65mm");
            assert_eq!(width, "10mm");
        }
        other => panic!("expected the mid box, got {:?}", other),
    }
    match boxes[2] {
        Drawable::Rect { x, width, .. } => {
            assert_eq!(x, "75mm");
            assert_eq!(width, "25mm");
        }
        other => panic!("expected the right box, got {:?}", other),
    }
    // widths sum to the full row minus the reserved margin cell
    assert_eq!(55 + 10 + 25, 19 * 5 - 5);
}

#[test]
fn header_left_box_degenerates_below_eight_columns() {
    let mut doc = Document::new();
    let gs = GridSettings {
        color: String::from("red"),
        offset: (0, 0),
        num_cells: (7, 1),
    };
    doc.header(&gs);
    match &doc.shapes[0] {
        Drawable::Rect { width, .. } => assert_eq!(width, "-5mm"),
        other => panic!("expected the left box, got {:?}", other),
    }
}

#[test]
fn calendar_anchors_bottom_right_of_quadrant() {
    // columns=19, offset=(10,10)mm: table anchor (30,25)mm
    let mut doc = Document::new();
    let gs = GridSettings {
        color: String::from("blue"),
        offset: (1000, 1000),
        num_cells: (19, 25),
    };
    doc.calendar(&gs);
    match &doc.shapes[0] {
        Drawable::Text { content, x, y, .. } => {
            assert_eq!(content, "Mon");
            assert_eq!(x, "30mm");
            assert_eq!(y, "24mm");
        }
        other => panic!("expected the Monday label, got {:?}", other),
    }
    // first row's label, then its first box at y=25mm
    match &doc.shapes[7] {
        Drawable::Text { content, x, y, .. } => {
            assert_eq!(content, "Art");
            assert_eq!(x, "10mm");
            assert_eq!(y, "29mm");
        }
        other => panic!("expected the first row label, got {:?}", other),
    }
    match &doc.shapes[8] {
        Drawable::Rect { x, y, width, height, .. } => {
            assert_eq!(x, "30mm");
            assert_eq!(y, "25mm");
            assert_eq!(width, "10mm");
            assert_eq!(height, "5mm");
        }
        other => panic!("expected the first row box, got {:?}", other),
    }
}

#[test]
fn calendar_emits_seven_plus_rows_texts_and_seven_per_row_rects() {
    let mut doc = Document::new();
    let gs = GridSettings {
        color: String::from("blue"),
        offset: (1000, 1000),
        num_cells: (19, 25),
    };
    doc.calendar(&gs);
    // 13 default row labels
    assert_eq!(count_texts(&doc), 7 + 13);
    assert_eq!(count_rects(&doc), 7 * 13);
    assert_eq!(doc.shapes.len(), 7 + 13 * 8);
}

#[test]
fn calendar_respects_custom_row_labels() {
    let mut doc = Document::new();
    let gs = GridSettings {
        color: String::from("blue"),
        offset: (1000, 1000),
        num_cells: (19, 25),
    };
    let labels = vec![String::from("One"), String::from("Two")];
    doc.calendar_with(&gs, &labels);
    assert_eq!(count_texts(&doc), 7 + 2);
    assert_eq!(count_rects(&doc), 7 * 2);
}

#[test]
fn full_page_is_four_quadrants_plus_guides() {
    let mut plain = Document::new();
    plain.full_default_page("green");
    assert_eq!(plain.shapes.len(), 4 * (19 * 25 + 3) + 3);

    let mut cal = Document::new();
    cal.full_calendar_page("blue");
    assert_eq!(cal.shapes.len(), 4 * (19 * 25 + 3 + 7 + 13 * 8) + 3);
}

#[test]
fn guide_lines_split_the_page() {
    let mut doc = Document::new();
    doc.full_default_page("green");
    let n = doc.shapes.len();
    match &doc.shapes[n - 3] {
        Drawable::Line { x1, y1, x2, y2, color } => {
            assert_eq!(x1, "105.95mm");
            assert_eq!(x2, "105.95mm");
            assert_eq!(y1, "0mm");
            assert_eq!(y2, "279.4mm");
            assert_eq!(color, "green");
        }
        other => panic!("expected the left guide line, got {:?}", other),
    }
    match &doc.shapes[n - 2] {
        Drawable::Line { x1, .. } => assert_eq!(x1, "109.95mm"),
        other => panic!("expected the right guide line, got {:?}", other),
    }
    match &doc.shapes[n - 1] {
        Drawable::Line { x1, y1, x2, y2, .. } => {
            assert_eq!(x1, "0mm");
            assert_eq!(x2, "215.9mm");
            assert_eq!(y1, "139.7mm");
            assert_eq!(y2, "139.7mm");
        }
        other => panic!("expected the horizontal guide line, got {:?}", other),
    }
}

#[test]
fn quadrants_repeat_the_same_content_at_each_corner() {
    let mut doc = Document::new();
    doc.full_default_page("red");
    let quad = 19 * 25 + 3;
    // the top-right quadrant's first dot sits at its own anchor
    match &doc.shapes[quad] {
        Drawable::Dot { cx, cy, .. } => {
            assert_eq!(cx, "114.95mm");
            assert_eq!(cy, "10mm");
        }
        other => panic!("expected the second quadrant's first dot, got {:?}", other),
    }
    // the bottom-left quadrant starts below the horizontal fold
    match &doc.shapes[2 * quad] {
        Drawable::Dot { cx, cy, .. } => {
            assert_eq!(cx, "10mm");
            assert_eq!(cy, "149.7mm");
        }
        other => panic!("expected the third quadrant's first dot, got {:?}", other),
    }
}
