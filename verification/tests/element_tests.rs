use peregrine::element::{dynamic_to_element, elements_from_result, parse_path_element, Element, ScriptValue, Segment};
use peregrine::material_error::MaterialError;

fn fl(x: f64) -> ScriptValue {
    ScriptValue::Float { bits: x.to_bits(), as_f32: (x as f32).to_bits(), as_i64: x as i64, text: format!("{}", x) }
}

fn int_v(i: i64) -> ScriptValue {
    ScriptValue::Int { value: i, as_f32: (i as f32).to_bits(), text: format!("{}", i as f64) }
}

fn s(t: &str) -> ScriptValue {
    ScriptValue::Str(t.to_string())
}

fn map(entries: Vec<(&str, ScriptValue)>) -> ScriptValue {
    ScriptValue::Object(entries.into_iter().map(|(k, v)| (k.to_string(), v)).collect())
}

fn arr(items: Vec<ScriptValue>) -> ScriptValue {
    ScriptValue::Array(items)
}

fn v(b: &peregrine::float_bits::F32) -> f32 {
    f32::from_bits(b.bits)
}

fn evaluate(elements: Vec<ScriptValue>) -> Result<Vec<Element>, MaterialError> {
    elements_from_result("test.path", arr(elements))
}

fn m(x: f64, y: f64) -> ScriptValue {
    map(vec![("cmd", s("M")), ("x", fl(x)), ("y", fl(y))])
}

fn l(x: f64, y: f64) -> ScriptValue {
    map(vec![("cmd", s("L")), ("x", fl(x)), ("y", fl(y))])
}

#[test]
fn path_element_full_parse() {
    let path = map(vec![
        ("type", s("path")),
        (
            "segments",
            arr(vec![
                map(vec![("cmd", s("M")), ("x", int_v(100)), ("y", int_v(100))]),
                map(vec![("cmd", s("L")), ("x", fl(200.5)), ("y", int_v(100))]),
                map(vec![("cmd", s("Q")), ("x1", int_v(10)), ("y1", int_v(20)), ("x", int_v(30)), ("y", int_v(40))]),
                map(vec![
                    ("cmd", s("C")),
                    ("x1", fl(0.0)),
                    ("y1", fl(1.0)),
                    ("x2", fl(2.0)),
                    ("y2", fl(3.0)),
                    ("x", fl(4.0)),
                    ("y", fl(5.0)),
                ]),
                map(vec![("cmd", s("Z"))]),
            ]),
        ),
        ("thickness", fl(2.0)),
        ("fill", ScriptValue::Bool(true)),
        ("fill_color", arr(vec![fl(0.3), fl(0.5), fl(1.0), fl(0.2)])),
        ("stroke_color", arr(vec![fl(1.0), fl(0.0), fl(0.0), fl(1.0)])),
    ]);
    let els = evaluate(vec![path]).expect("path element must parse");
    match &els[0] {
        Element::Path { segments, fill, thickness, stroke_color, fill_color } => {
            assert_eq!(segments.len(), 5);
            assert!(matches!(&segments[0], Segment::M { x, y } if v(x) == 100.0 && v(y) == 100.0));
            assert!(matches!(&segments[1], Segment::L { x, y } if v(x) == 200.5 && v(y) == 100.0));
            assert!(matches!(segments[2], Segment::Q { .. }));
            assert!(matches!(segments[3], Segment::C { .. }));
            assert!(matches!(segments[4], Segment::Z));
            assert!(*fill);
            assert_eq!(v(thickness), 2.0);
            assert_eq!(stroke_color.map(|c| [v(&c[0]), v(&c[1]), v(&c[2]), v(&c[3])]), Some([1.0, 0.0, 0.0, 1.0]));
            assert_eq!(fill_color.map(|c| [v(&c[0]), v(&c[1]), v(&c[2]), v(&c[3])]), Some([0.3, 0.5, 1.0, 0.2]));
        },
        other => panic!("expected Path, got {:?}", other),
    }
}

#[test]
fn path_element_unknown_cmd_rejected() {
    let path = map(vec![
        ("type", s("path")),
        ("segments", arr(vec![m(0.0, 0.0), map(vec![("cmd", s("a")), ("x", fl(1.0)), ("y", fl(1.0))])])),
        ("thickness", fl(2.0)),
    ]);
    match evaluate(vec![path]).expect_err("unknown cmd must be rejected") {
        MaterialError::ElementField { detail, .. } => {
            assert!(detail.contains('a'), "detail should name the cmd: {}", detail);
            assert_eq!(detail, "path segment 1 has unknown cmd 'a' (expected M/L/Q/C/Z)");
        },
        other => panic!("expected ElementField, got {:?}", other),
    }
}

#[test]
fn path_element_q_missing_control_point_rejected() {
    let path = map(vec![
        ("type", s("path")),
        ("segments", arr(vec![m(0.0, 0.0), map(vec![("cmd", s("Q")), ("x", fl(10.0)), ("y", fl(10.0))])])),
        ("thickness", fl(2.0)),
    ]);
    match evaluate(vec![path]).expect_err("Q without control point must be rejected") {
        MaterialError::ElementField { detail, .. } => {
            assert!(detail.contains("x1"), "detail should name the field: {}", detail);
        },
        other => panic!("expected ElementField, got {:?}", other),
    }
}

#[test]
fn path_element_invisible_combo_rejected() {
    let path = map(vec![("type", s("path")), ("segments", arr(vec![m(0.0, 0.0), l(1.0, 1.0)])), ("thickness", fl(0.0))]);
    assert!(evaluate(vec![path]).is_err());
}

#[test]
fn path_element_fill_only_accepted() {
    let path = map(vec![
        ("type", s("path")),
        ("segments", arr(vec![m(0.0, 0.0), l(1.0, 1.0), map(vec![("cmd", s("Z"))])])),
        ("thickness", fl(0.0)),
        ("fill", ScriptValue::Bool(true)),
    ]);
    let els = evaluate(vec![path]).expect("fill-only path must be accepted");
    assert!(matches!(&els[0], Element::Path { fill: true, thickness, .. } if v(thickness) == 0.0));
}

#[test]
fn path_element_first_segment_not_m_rejected() {
    let path = map(vec![("type", s("path")), ("segments", arr(vec![l(0.0, 0.0)])), ("thickness", fl(2.0))]);
    match evaluate(vec![path]).expect_err("first segment must be M") {
        MaterialError::ElementField { detail, .. } => assert!(detail.contains('M'), "detail should explain: {}", detail),
        other => panic!("expected ElementField, got {:?}", other),
    }
}

#[test]
fn path_element_empty_segments_rejected() {
    let path = map(vec![("type", s("path")), ("segments", arr(vec![])), ("thickness", fl(2.0))]);
    assert!(evaluate(vec![path]).is_err());
}

#[test]
fn path_element_color_out_of_range_rejected() {
    let path = map(vec![
        ("type", s("path")),
        ("segments", arr(vec![m(0.0, 0.0), l(1.0, 1.0)])),
        ("thickness", fl(2.0)),
        ("stroke_color", arr(vec![fl(1.5), fl(0.0), fl(0.0), fl(1.0)])),
    ]);
    match evaluate(vec![path]).unwrap_err() {
        MaterialError::ElementField { detail, .. } => {
            assert_eq!(detail, "field 'stroke_color' element 0 must be in 0..=1, got 1.5")
        },
        other => panic!("expected ElementField, got {:?}", other),
    }
}

#[test]
fn path_element_color_wrong_length_rejected() {
    let path = map(vec![
        ("type", s("path")),
        ("segments", arr(vec![m(0.0, 0.0), l(1.0, 1.0)])),
        ("thickness", fl(2.0)),
        ("fill_color", arr(vec![fl(1.0), fl(0.0), fl(0.0)])),
    ]);
    match evaluate(vec![path]).unwrap_err() {
        MaterialError::ElementField { detail, .. } => assert_eq!(detail, "field 'fill_color' must have 4 elements, got 3"),
        other => panic!("expected ElementField, got {:?}", other),
    }
}

#[test]
fn path_element_negative_thickness_rejected() {
    let path = map(vec![("type", s("path")), ("segments", arr(vec![m(0.0, 0.0), l(1.0, 1.0)])), ("thickness", fl(-1.0))]);
    match evaluate(vec![path]).unwrap_err() {
        MaterialError::ElementField { detail, .. } => assert_eq!(detail, "field 'thickness' must be >= 0"),
        other => panic!("expected ElementField, got {:?}", other),
    }
}

#[test]
fn unknown_element_type_fails() {
    let result = evaluate(vec![map(vec![("type", s("ellipse"))])]);
    match result.unwrap_err() {
        MaterialError::UnknownElementType { element_type, .. } => assert_eq!(element_type, "ellipse"),
        other => panic!("expected UnknownElementType, got {:?}", other),
    }
}

fn text_with(weight: Option<ScriptValue>) -> ScriptValue {
    let mut e = vec![("type", s("text")), ("x", fl(0.0)), ("y", fl(0.0)), ("content", s("t")), ("font_size", fl(16.0))];
    if let Some(w) = weight {
        e.push(("font_weight", w));
    }
    map(e)
}

#[test]
fn text_element_font_weight_conversion() {
    let els = evaluate(vec![text_with(None)]).unwrap();
    assert!(matches!(&els[0], Element::Text { font_weight: None, .. }));
    let els = evaluate(vec![text_with(Some(ScriptValue::Unit))]).unwrap();
    assert!(matches!(&els[0], Element::Text { font_weight: None, .. }));
    let els = evaluate(vec![text_with(Some(int_v(700)))]).unwrap();
    assert!(matches!(&els[0], Element::Text { font_weight: Some(700), .. }));
    assert!(evaluate(vec![text_with(Some(int_v(150)))]).is_err());
    assert!(evaluate(vec![text_with(Some(int_v(1000)))]).is_err());
    match evaluate(vec![text_with(Some(int_v(-250)))]).unwrap_err() {
        MaterialError::ElementField { detail, .. } => {
            assert_eq!(detail, "field 'font_weight' must be a multiple of 100 in 100..=900, got -250")
        },
        other => panic!("expected ElementField, got {:?}", other),
    }
    let els = evaluate(vec![text_with(Some(fl(400.7)))]).unwrap();
    assert!(matches!(&els[0], Element::Text { font_weight: Some(400), .. }));
}

#[test]
fn simple_shapes_and_errors() {
    let els = evaluate(vec![
        map(vec![("type", s("rect")), ("x", int_v(1)), ("y", int_v(2)), ("w", int_v(3)), ("h", int_v(4)), ("corner_radius", s("x"))]),
        map(vec![("type", s("circle")), ("cx", fl(1.0)), ("cy", fl(2.0)), ("radius", fl(3.0))]),
        map(vec![("type", s("polygon")), ("points", arr(vec![map(vec![("x", int_v(1)), ("1", int_v(2))]), arr(vec![int_v(3), int_v(4)])]))]),
    ])
    .unwrap();
    assert!(matches!(&els[0], Element::Rect { corner_radius: None, w, .. } if v(w) == 3.0));
    assert!(matches!(&els[1], Element::Circle { radius, .. } if v(radius) == 3.0));
    match &els[2] {
        Element::Polygon { points } => {
            assert_eq!(points.len(), 2);
            assert_eq!((v(&points[0][0]), v(&points[0][1])), (1.0, 2.0));
            assert_eq!((v(&points[1][0]), v(&points[1][1])), (3.0, 4.0));
        },
        other => panic!("unexpected {:?}", other),
    }
    match evaluate(vec![map(vec![("type", s("circle")), ("cx", fl(1.0))])]).unwrap_err() {
        MaterialError::ElementField { detail, id } => {
            assert_eq!(detail, "missing field 'cy'");
            assert_eq!(id, "test.path");
        },
        other => panic!("unexpected {:?}", other),
    }
    match evaluate(vec![int_v(3)]).unwrap_err() {
        MaterialError::InvalidReturnType { detail, .. } => assert_eq!(detail, "element must be a Map, got i64"),
        other => panic!("unexpected {:?}", other),
    }
    match elements_from_result("m", s("x")).unwrap_err() {
        MaterialError::InvalidReturnType { detail, .. } => assert_eq!(detail, "expected Array, got string"),
        other => panic!("unexpected {:?}", other),
    }
    match dynamic_to_element("m", map(vec![("type", int_v(1))])).unwrap_err() {
        MaterialError::ElementField { detail, .. } => assert_eq!(detail, "field 'type' must be string"),
        other => panic!("unexpected {:?}", other),
    }
    match dynamic_to_element("m", map(vec![("type", s("polygon")), ("points", arr(vec![arr(vec![int_v(1)])]))])).unwrap_err() {
        MaterialError::ElementField { detail, .. } => assert_eq!(detail, "polygon point array must have 2 elements"),
        other => panic!("unexpected {:?}", other),
    }
}

#[test]
fn path_fields_read_from_map() {
    let entries = vec![
        ("thickness".to_string(), fl(1.0)),
        ("fill".to_string(), int_v(1)),
        ("segments".to_string(), arr(vec![m(0.0, 0.0)])),
    ];
    assert_eq!(parse_path_element(&entries).unwrap_err(), "field 'fill' must be bool");
    let entries = vec![("thickness".to_string(), fl(1.0)), ("segments".to_string(), arr(vec![int_v(1)]))];
    assert_eq!(parse_path_element(&entries).unwrap_err(), "path segment 0 must be Map");
    let entries = vec![("fill".to_string(), ScriptValue::Bool(true))];
    assert_eq!(parse_path_element(&entries).unwrap_err(), "missing field 'thickness'");
}

#[test]
fn material_error_texts() {
    let e = MaterialError::ElementField { id: "a".to_string(), detail: "d".to_string() };
    assert_eq!(e.to_text(), "material 'a' element field error: d");
    assert_eq!(MaterialError::NotFound("x".to_string()).to_text(), "material not found: x");
    assert_eq!(MaterialError::OperationsLimitExceeded { id: "q".to_string() }.to_text(), "material 'q' exceeded operations limit");
}
