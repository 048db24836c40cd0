use pony_renderer::canvas::{parse_line_cap, parse_line_join, rgba_buffer_layout, LineCap, LineJoin, StrokeStyle};

#[test]
fn line_caps_and_joins_by_name() {
    assert_eq!(parse_line_cap(&"round".to_string()), Some(LineCap::Round));
    assert_eq!(parse_line_cap(&"butt".to_string()), Some(LineCap::Butt));
    assert_eq!(parse_line_cap(&"square".to_string()), Some(LineCap::Square));
    assert_eq!(parse_line_cap(&"Round".to_string()), None);
    assert_eq!(parse_line_join(&"bevel".to_string()), Some(LineJoin::Bevel));
    assert_eq!(parse_line_join(&"miter".to_string()), Some(LineJoin::Miter));
    assert_eq!(parse_line_join(&"round".to_string()), Some(LineJoin::Round));
    assert_eq!(parse_line_join(&"".to_string()), None);
}

#[test]
fn unknown_names_leave_the_style_alone() {
    let mut style = StrokeStyle::new();
    assert_eq!(style, StrokeStyle { line_cap: LineCap::Butt, line_join: LineJoin::Miter });
    assert!(style.js_set_line_cap("square".to_string()));
    assert!(!style.js_set_line_cap("pointy".to_string()));
    assert!(style.js_set_line_join("round".to_string()));
    assert!(!style.js_set_line_join("soft".to_string()));
    assert_eq!(style, StrokeStyle { line_cap: LineCap::Square, line_join: LineJoin::Round });
}

#[test]
fn rgba_rows() {
    assert_eq!(rgba_buffer_layout(1000, 500), (4000, 2_000_000));
    assert_eq!(rgba_buffer_layout(0, 7), (0, 0));
}
