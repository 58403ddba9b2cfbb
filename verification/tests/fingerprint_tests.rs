use peregrine::element::{svg_needs_cjk, Element, Segment};
use peregrine::fingerprint::{hash_pieces, HashPiece};
use peregrine::float_bits::F32;
use peregrine::registry::{is_builtin_id, MaterialRegistry};
use peregrine::rng::SimpleRng;

fn f(x: f32) -> F32 {
    F32 { bits: x.to_bits() }
}

#[test]
fn rect_fingerprint_lists_fields_in_order() {
    let e = Element::Rect { x: f(1.0), y: f(2.0), w: f(3.0), h: f(4.0), corner_radius: Some(f(0.5)) };
    assert_eq!(
        hash_pieces(&e),
        vec![
            HashPiece::Variant(0),
            HashPiece::Word(1.0f32.to_bits()),
            HashPiece::Word(2.0f32.to_bits()),
            HashPiece::Word(3.0f32.to_bits()),
            HashPiece::Word(4.0f32.to_bits()),
            HashPiece::OptWord(Some(0.5f32.to_bits())),
        ]
    );
}

#[test]
fn path_fingerprint_covers_segments_and_colours() {
    let e = Element::Path {
        segments: vec![Segment::M { x: f(0.0), y: f(1.0) }, Segment::Z],
        fill: true,
        thickness: f(2.0),
        stroke_color: None,
        fill_color: Some([f(1.0), f(0.0), f(0.0), f(1.0)]),
    };
    assert_eq!(
        hash_pieces(&e),
        vec![
            HashPiece::Variant(9),
            HashPiece::Byte(1),
            HashPiece::Word(2.0f32.to_bits()),
            HashPiece::Variant(0),
            HashPiece::Word(0.0f32.to_bits()),
            HashPiece::Word(1.0f32.to_bits()),
            HashPiece::Variant(4),
            HashPiece::Byte(0),
            HashPiece::Byte(1),
            HashPiece::Word(1.0f32.to_bits()),
            HashPiece::Word(0.0f32.to_bits()),
            HashPiece::Word(0.0f32.to_bits()),
            HashPiece::Word(1.0f32.to_bits()),
        ]
    );
}

#[test]
fn fingerprints_of_different_variants_differ() {
    let circle = Element::Circle { cx: f(1.0), cy: f(2.0), radius: f(3.0) };
    let stroke = Element::CircleStroke { cx: f(1.0), cy: f(2.0), radius: f(3.0), thickness: f(0.0) };
    assert_ne!(hash_pieces(&circle)[0], hash_pieces(&stroke)[0]);
    let text = Element::Text { x: f(0.0), y: f(0.0), content: "12:00".to_string(), font_size: f(16.0), font_weight: Some(700) };
    assert_eq!(
        hash_pieces(&text),
        vec![
            HashPiece::Variant(7),
            HashPiece::Word(0),
            HashPiece::Word(0),
            HashPiece::Text("12:00".to_string()),
            HashPiece::Word(16.0f32.to_bits()),
            HashPiece::OptWeight(Some(700)),
        ]
    );
}

#[test]
fn cjk_detection() {
    assert!(!svg_needs_cjk("<svg><text>12:34</text></svg>"));
    assert!(svg_needs_cjk("<svg><text>十二点</text></svg>"));
    assert!(!svg_needs_cjk(""));
}

#[test]
fn next_24_is_low_bits_of_next_u64() {
    let mut a = SimpleRng::new(1);
    let mut b = SimpleRng::new(1);
    let n = a.next_u64();
    assert_eq!(n, 6364136223846793006);
    assert_eq!(b.next_24() as u64, n & 0x00FF_FFFF);
    assert_eq!(a.next_u64(), b.next_u64());
}

#[test]
fn registry_ids_and_builtin_prefix() {
    let mut r: MaterialRegistry<u8> = MaterialRegistry::new();
    r.insert("builtin.cross".to_string(), 1);
    r.insert("user.glow".to_string(), 2);
    r.insert("builtin.cross".to_string(), 3);
    let mut ids = r.ids();
    ids.sort();
    assert_eq!(ids, vec!["builtin.cross".to_string(), "user.glow".to_string()]);
    assert!(is_builtin_id("builtin.cross"));
    assert!(!is_builtin_id("user.glow"));
    assert!(!is_builtin_id("builtin"));
}

#[test]
fn any_changed_field_changes_the_fingerprint() {
    let a = Element::Text { x: f(1.0), y: f(2.0), content: "12:00".to_string(), font_size: f(16.0), font_weight: None };
    let b = Element::Text { x: f(1.0), y: f(2.5), content: "12:00".to_string(), font_size: f(16.0), font_weight: None };
    let c = Element::Text { x: f(1.0), y: f(2.0), content: "12:01".to_string(), font_size: f(16.0), font_weight: None };
    assert_ne!(hash_pieces(&a), hash_pieces(&b));
    assert_ne!(hash_pieces(&a), hash_pieces(&c));
    let p = Element::Polygon { points: vec![[f(0.0), f(0.0)], [f(1.0), f(0.0)]] };
    let q = Element::Polygon { points: vec![[f(0.0), f(0.0)], [f(1.0), f(1.0)]] };
    assert_ne!(hash_pieces(&p), hash_pieces(&q));
}

#[test]
fn path_segments_and_colours_change_the_fingerprint() {
    let path = |segments: Vec<Segment>, stroke: Option<[F32; 4]>, fill_color: Option<[F32; 4]>| Element::Path {
        segments,
        fill: false,
        thickness: f(1.0),
        stroke_color: stroke,
        fill_color,
    };
    let red = Some([f(1.0), f(0.0), f(0.0), f(1.0)]);
    let base = path(vec![Segment::M { x: f(0.0), y: f(0.0) }, Segment::L { x: f(1.0), y: f(1.0) }], red, None);
    let moved = path(vec![Segment::M { x: f(0.0), y: f(0.0) }, Segment::L { x: f(1.0), y: f(2.0) }], red, None);
    let closed = path(vec![Segment::M { x: f(0.0), y: f(0.0) }, Segment::L { x: f(1.0), y: f(1.0) }, Segment::Z], red, None);
    let swapped = path(vec![Segment::M { x: f(0.0), y: f(0.0) }, Segment::L { x: f(1.0), y: f(1.0) }], None, red);
    assert_ne!(hash_pieces(&base), hash_pieces(&moved));
    assert_ne!(hash_pieces(&base), hash_pieces(&closed));
    assert_ne!(hash_pieces(&base), hash_pieces(&swapped));
    assert_eq!(hash_pieces(&base), hash_pieces(&path(vec![Segment::M { x: f(0.0), y: f(0.0) }, Segment::L { x: f(1.0), y: f(1.0) }], red, None)));
}
