use peregrine::material::parse_display_name;
use peregrine::svg_path::{parse_svg_path_d, Coord, PathError, PathSegment};

fn token(t: &[char]) -> f32 {
    t.iter().collect::<String>().parse::<f32>().unwrap()
}

fn eval(c: &Coord) -> f32 {
    let mut v = match &c.base {
        Some(t) => token(t),
        None => 0.0,
    };
    for o in &c.offsets {
        v += token(o);
    }
    v
}

#[derive(Debug, PartialEq)]
enum PS {
    M { x: f32, y: f32 },
    L { x: f32, y: f32 },
    Q { x1: f32, y1: f32, x: f32, y: f32 },
    C { x1: f32, y1: f32, x2: f32, y2: f32, x: f32, y: f32 },
    Z,
}

fn evaluate(segs: Vec<PathSegment>) -> Vec<PS> {
    segs.iter()
        .map(|s| match s {
            PathSegment::M { x, y } => PS::M { x: eval(x), y: eval(y) },
            PathSegment::L { x, y } => PS::L { x: eval(x), y: eval(y) },
            PathSegment::Q { x1, y1, x, y } => PS::Q { x1: eval(x1), y1: eval(y1), x: eval(x), y: eval(y) },
            PathSegment::C { x1, y1, x2, y2, x, y } => PS::C {
                x1: eval(x1),
                y1: eval(y1),
                x2: eval(x2),
                y2: eval(y2),
                x: eval(x),
                y: eval(y),
            },
            PathSegment::Z => PS::Z,
        })
        .collect()
}

fn parse(d: &str) -> Result<Vec<PS>, PathError> {
    parse_svg_path_d(d).map(evaluate)
}

#[test]
fn parse_svg_path_d_core_grammar() {
    assert_eq!(
        parse("M 0 0 L 10 20 Z").unwrap(),
        vec![PS::M { x: 0.0, y: 0.0 }, PS::L { x: 10.0, y: 20.0 }, PS::Z]
    );
    assert_eq!(
        parse("m 10 10 l 5 0").unwrap(),
        vec![PS::M { x: 10.0, y: 10.0 }, PS::L { x: 15.0, y: 10.0 }]
    );
    assert_eq!(
        parse("M 0 0 H 30 V 20 h -10 v -5").unwrap(),
        vec![
            PS::M { x: 0.0, y: 0.0 },
            PS::L { x: 30.0, y: 0.0 },
            PS::L { x: 30.0, y: 20.0 },
            PS::L { x: 20.0, y: 20.0 },
            PS::L { x: 20.0, y: 15.0 },
        ]
    );
    assert_eq!(
        parse("M 1 2 3 4").unwrap(),
        vec![PS::M { x: 1.0, y: 2.0 }, PS::L { x: 3.0, y: 4.0 }]
    );
    assert_eq!(
        parse("M 0 0 L 1 1 2 2").unwrap(),
        vec![PS::M { x: 0.0, y: 0.0 }, PS::L { x: 1.0, y: 1.0 }, PS::L { x: 2.0, y: 2.0 }]
    );
    assert_eq!(
        parse("M 0 0 q 10 10 20 0").unwrap(),
        vec![PS::M { x: 0.0, y: 0.0 }, PS::Q { x1: 10.0, y1: 10.0, x: 20.0, y: 0.0 }]
    );
    assert_eq!(
        parse("M 0 0 c 1 2 3 4 5 6").unwrap(),
        vec![
            PS::M { x: 0.0, y: 0.0 },
            PS::C { x1: 1.0, y1: 2.0, x2: 3.0, y2: 4.0, x: 5.0, y: 6.0 },
        ]
    );
    assert_eq!(
        parse("M 10 10 L 20 20 Z l 5 5").unwrap(),
        vec![
            PS::M { x: 10.0, y: 10.0 },
            PS::L { x: 20.0, y: 20.0 },
            PS::Z,
            PS::L { x: 15.0, y: 15.0 },
        ]
    );
    assert_eq!(
        parse("M0,0L10-5").unwrap(),
        vec![PS::M { x: 0.0, y: 0.0 }, PS::L { x: 10.0, y: -5.0 }]
    );
}

#[test]
fn parse_svg_path_d_errors() {
    assert!(parse_svg_path_d("M 0 0 A 5 5 0 0 1 10 10").is_err());
    assert!(parse_svg_path_d("M 0 0 S 10 10 20 20").is_err());
    assert!(parse_svg_path_d("M 0 0 T 10 10").is_err());
    assert!(parse_svg_path_d("M 0").is_err());
    assert!(parse_svg_path_d("M x y").is_err());
    assert!(parse_svg_path_d("").is_ok());
}

#[test]
fn svg_error_kinds_and_positions() {
    assert_eq!(
        parse_svg_path_d("M 0 0 A 5 5 0 0 1 10 10").unwrap_err(),
        PathError::Unsupported { cmd: 'A', pos: 7 }
    );
    assert_eq!(parse_svg_path_d("M 0").unwrap_err(), PathError::MissingNumber { pos: 3 });
    assert!(matches!(parse_svg_path_d("X 1 2").unwrap_err(), PathError::Unknown { cmd: 'X', pos: 1 }));
    assert!(matches!(parse_svg_path_d("M 1.2.3 4").unwrap_err(), PathError::InvalidNumber { .. }));
}

#[test]
fn parse_display_name_extracts_label() {
    assert_eq!(parse_display_name("// Name: 准星\nfn defaults()...").unwrap(), "准星");
    assert!(parse_display_name("// just a comment").is_none());
    assert!(parse_display_name("fn defaults() {}").is_none());
}

#[test]
fn display_name_blank_and_empty() {
    assert!(parse_display_name("").is_none());
    assert!(parse_display_name("// Name:   \nx").is_none());
    assert_eq!(parse_display_name("  //Name:  Clock  ").unwrap(), "Clock");
}
