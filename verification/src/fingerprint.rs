//! The frame fingerprint of a drawing element: the exact sequence of
//! writes that feed it into a hasher. Every geometric and text field takes
//! part, numbers by their bit patterns, and each enum contributes its
//! variant index before its fields.

use vstd::prelude::*;
use crate::element::{Element, ElementModel, Segment, SegmentModel, ShapeKind};
use crate::float_bits::F32;

verus! {

/// One write into a hasher.
#[derive(Debug, Clone, PartialEq, Eq)]
pub enum HashPiece {
    /// An enum variant's index, hashed as its discriminant (`isize`).
    Variant(u8),
    /// A 32-bit word: a binary32 bit pattern.
    Word(u32),
    /// One byte.
    Byte(u8),
    /// A text, hashed as a string.
    Text(String),
    /// An optional bit pattern, hashed as an `Option<u32>`.
    OptWord(Option<u32>),
    /// An optional font weight, hashed as an `Option<u16>`.
    OptWeight(Option<u16>),
}

/// Model of a write: texts as character sequences.
pub enum PieceModel {
    Variant(u8),
    Word(u32),
    Byte(u8),
    Text(Seq<char>),
    OptWord(Option<u32>),
    OptWeight(Option<u16>),
}

impl HashPiece {
    pub open spec fn model(&self) -> PieceModel {
        match self {
            HashPiece::Variant(i) => PieceModel::Variant(*i),
            HashPiece::Word(w) => PieceModel::Word(*w),
            HashPiece::Byte(b) => PieceModel::Byte(*b),
            HashPiece::Text(s) => PieceModel::Text(s@),
            HashPiece::OptWord(o) => PieceModel::OptWord(*o),
            HashPiece::OptWeight(o) => PieceModel::OptWeight(*o),
        }
    }
}

/// The models of a sequence of writes.
pub open spec fn pieces_model(s: Seq<HashPiece>) -> Seq<PieceModel> {
    s.map_values(|p: HashPiece| p.model())
}

/// Each number of `nums` as a word, in order.
pub open spec fn words(nums: Seq<u32>) -> Seq<PieceModel> {
    nums.map_values(|w: u32| PieceModel::Word(w))
}

/// Each point's two coordinates as words, point by point.
pub open spec fn point_pieces(ps: Seq<(u32, u32)>) -> Seq<PieceModel>
    decreases ps.len(),
{
    if ps.len() == 0 {
        Seq::empty()
    } else {
        point_pieces(ps.drop_last()) + seq![PieceModel::Word(ps.last().0), PieceModel::Word(ps.last().1)]
    }
}

/// The variant index of a path command: `M L Q C Z` in that order.
pub open spec fn segment_index(cmd: char) -> u8 {
    if cmd == 'M' {
        0
    } else if cmd == 'L' {
        1
    } else if cmd == 'Q' {
        2
    } else if cmd == 'C' {
        3
    } else {
        4
    }
}

/// Each segment as its variant index followed by its coordinates.
pub open spec fn segment_pieces(ss: Seq<SegmentModel>) -> Seq<PieceModel>
    decreases ss.len(),
{
    if ss.len() == 0 {
        Seq::empty()
    } else {
        segment_pieces(ss.drop_last()) + seq![PieceModel::Variant(segment_index(ss.last().cmd))] + words(
            ss.last().nums,
        )
    }
}

/// An optional colour: byte 1 and its four channels, or byte 0.
pub open spec fn color_pieces(c: Option<Seq<u32>>) -> Seq<PieceModel> {
    match c {
        Some(ch) => seq![PieceModel::Byte(1)] + words(ch),
        None => seq![PieceModel::Byte(0)],
    }
}

/// The variant index of a simple shape among the element variants
/// (`Rect Circle CircleStroke DashedCircle Triangle Polygon Line Text Image
/// Path`).
pub open spec fn shape_index(k: ShapeKind) -> u8 {
    match k {
        ShapeKind::Circle => 1,
        ShapeKind::CircleStroke => 2,
        ShapeKind::DashedCircle => 3,
        ShapeKind::Triangle => 4,
        ShapeKind::Line => 6,
    }
}

/// The writes of an element's fingerprint: the variant index, then the
/// fields in declaration order (a path: fill flag, thickness, segments,
/// stroke colour, fill colour).
pub open spec fn element_pieces(e: ElementModel) -> Seq<PieceModel> {
    match e {
        ElementModel::Rect { nums, corner_radius } => seq![PieceModel::Variant(0)] + words(nums) + seq![
            PieceModel::OptWord(corner_radius),
        ],
        ElementModel::Shape { kind, nums } => seq![PieceModel::Variant(shape_index(kind))] + words(nums),
        ElementModel::Polygon { points } => seq![PieceModel::Variant(5)] + point_pieces(points),
        ElementModel::Text { nums, content, font_size, font_weight } => seq![
            PieceModel::Variant(7),
            PieceModel::Word(nums[0]),
            PieceModel::Word(nums[1]),
            PieceModel::Text(content),
            PieceModel::Word(font_size),
            PieceModel::OptWeight(font_weight),
        ],
        ElementModel::Image { path, nums } => seq![PieceModel::Variant(8), PieceModel::Text(path)] + words(nums),
        ElementModel::Path { segments, fill, thickness, stroke_color, fill_color } => seq![
            PieceModel::Variant(9),
            PieceModel::Byte(if fill { 1u8 } else { 0u8 }),
            PieceModel::Word(thickness),
        ] + segment_pieces(segments) + color_pieces(stroke_color) + color_pieces(fill_color),
    }
}

/// The variant index of an element.
pub open spec fn variant_index(e: ElementModel) -> u8 {
    match e {
        ElementModel::Rect { .. } => 0,
        ElementModel::Shape { kind, .. } => shape_index(kind),
        ElementModel::Polygon { .. } => 5,
        ElementModel::Text { .. } => 7,
        ElementModel::Image { .. } => 8,
        ElementModel::Path { .. } => 9,
    }
}

/// An element's fingerprint begins with its variant index, and distinct
/// variants have distinct indices: elements of different variants never
/// feed the same writes, whatever their fields.
pub proof fn law_variant_leads(a: ElementModel, b: ElementModel)
    ensures
        element_pieces(a).len() > 0,
        element_pieces(a)[0] == PieceModel::Variant(variant_index(a)),
        variant_index(a) != variant_index(b) ==> element_pieces(a) != element_pieces(b),
{
    assert(element_pieces(a)[0] == PieceModel::Variant(variant_index(a)));
    assert(element_pieces(b)[0] == PieceModel::Variant(variant_index(b)));
}

proof fn lemma_point_pieces(ps: Seq<(u32, u32)>)
    ensures
        point_pieces(ps).len() == 2 * ps.len(),
        forall|i: int| #![trigger ps[i]] 0 <= i < ps.len() ==> point_pieces(ps)[2 * i] == PieceModel::Word(ps[i].0)
            && point_pieces(ps)[2 * i + 1] == PieceModel::Word(ps[i].1),
    decreases ps.len(),
{
    if ps.len() > 0 {
        let q = ps.drop_last();
        lemma_point_pieces(q);
        let pq = point_pieces(q);
        let tail = seq![PieceModel::Word(ps.last().0), PieceModel::Word(ps.last().1)];
        assert(point_pieces(ps) == pq + tail);
        assert forall|i: int| #![trigger ps[i]] 0 <= i < ps.len() implies point_pieces(ps)[2 * i]
            == PieceModel::Word(ps[i].0) && point_pieces(ps)[2 * i + 1] == PieceModel::Word(ps[i].1) by {
            if i < q.len() {
                assert(q[i] == ps[i]);
                assert((pq + tail)[2 * i] == pq[2 * i]);
                assert((pq + tail)[2 * i + 1] == pq[2 * i + 1]);
            } else {
                assert(i == q.len());
                assert((pq + tail)[2 * i] == tail[0]);
                assert((pq + tail)[2 * i + 1] == tail[1]);
            }
        }
    }
}

proof fn lemma_words_equal(a: Seq<u32>, b: Seq<u32>, pa: Seq<PieceModel>, pb: Seq<PieceModel>)
    requires
        pa + words(a) == pb + words(b),
        pa.len() == pb.len(),
    ensures
        a == b,
{
    let l = pa + words(a);
    let r = pb + words(b);
    assert(words(a).len() == a.len());
    assert(words(b).len() == b.len());
    assert(l.len() == r.len());
    assert(a.len() == b.len());
    assert forall|i: int| 0 <= i < a.len() implies a[i] == b[i] by {
        assert(l[pa.len() + i] == words(a)[i]);
        assert(r[pb.len() + i] == words(b)[i]);
        assert(words(a)[i] == PieceModel::Word(a[i]));
        assert(words(b)[i] == PieceModel::Word(b[i]));
    }
    assert(a =~= b);
}

/// The number of coordinates a path command carries.
pub open spec fn arity(cmd: char) -> int {
    if cmd == 'M' || cmd == 'L' {
        2
    } else if cmd == 'Q' {
        4
    } else if cmd == 'C' {
        6
    } else {
        0
    }
}

/// A segment as `Segment::model` gives it: one of the five commands with
/// its coordinates.
pub open spec fn segment_wf(s: SegmentModel) -> bool {
    &&& (s.cmd == 'M' || s.cmd == 'L' || s.cmd == 'Q' || s.cmd == 'C' || s.cmd == 'Z')
    &&& s.nums.len() == arity(s.cmd)
}

/// An optional colour as `Element::model` gives it: four channels.
pub open spec fn color_wf(c: Option<Seq<u32>>) -> bool {
    c matches Some(ch) ==> ch.len() == 4
}

/// An element model as `Element::model` gives it: a text has its two
/// coordinates, a path's segments and colours are whole.
pub open spec fn model_wf(m: ElementModel) -> bool {
    match m {
        ElementModel::Text { nums, .. } => nums.len() == 2,
        ElementModel::Path { segments, stroke_color, fill_color, .. } => {
            &&& forall|i: int| 0 <= i < segments.len() ==> #[trigger] segment_wf(segments[i])
            &&& color_wf(stroke_color)
            &&& color_wf(fill_color)
        },
        _ => true,
    }
}

/// Every element's model is whole.
pub proof fn lemma_element_model_wf(e: Element)
    ensures
        model_wf(e.model()),
{
    match e {
        Element::Path { segments, .. } => {
            assert forall|i: int| 0 <= i < segments@.len() implies #[trigger] segment_wf(
                crate::element::segments_model(segments@)[i],
            ) by {
                assert(crate::element::segments_model(segments@)[i] == segments@[i].model());
            }
        },
        _ => {},
    }
}

proof fn lemma_segment_pieces_no_byte(ss: Seq<SegmentModel>)
    ensures
        forall|k: int| 0 <= k < segment_pieces(ss).len() ==> !(#[trigger] segment_pieces(ss)[k] is Byte),
        ss.len() > 0 ==> segment_pieces(ss).len() > 0,
    decreases ss.len(),
{
    if ss.len() > 0 {
        let p = segment_pieces(ss.drop_last());
        let t = seq![PieceModel::Variant(segment_index(ss.last().cmd))] + words(ss.last().nums);
        lemma_segment_pieces_no_byte(ss.drop_last());
        assert(segment_pieces(ss) == p + t);
        assert forall|k: int| 0 <= k < segment_pieces(ss).len() implies !(#[trigger] segment_pieces(ss)[k] is Byte) by {
            if k < p.len() {
                assert((p + t)[k] == p[k]);
            } else {
                assert((p + t)[k] == t[k - p.len()]);
                if k - p.len() > 0 {
                    assert(t[k - p.len()] == words(ss.last().nums)[k - p.len() - 1]);
                }
            }
        }
    }
}

/// Whole segments are determined by their writes.
proof fn lemma_segments_determined(a: Seq<SegmentModel>, b: Seq<SegmentModel>)
    requires
        forall|i: int| 0 <= i < a.len() ==> #[trigger] segment_wf(a[i]),
        forall|i: int| 0 <= i < b.len() ==> #[trigger] segment_wf(b[i]),
        segment_pieces(a) == segment_pieces(b),
    ensures
        a == b,
    decreases a.len() + b.len(),
{
    lemma_segment_pieces_no_byte(a);
    lemma_segment_pieces_no_byte(b);
    if a.len() == 0 || b.len() == 0 {
        assert(a.len() == 0 && b.len() == 0);
        assert(a =~= b);
    } else {
        let (pa, pb) = (a.drop_last(), b.drop_last());
        let (la, lb) = (a.last(), b.last());
        assert(segment_wf(a[a.len() - 1]));
        assert(segment_wf(b[b.len() - 1]));
        let s = segment_pieces(a);
        let ta = seq![PieceModel::Variant(segment_index(la.cmd))] + words(la.nums);
        let tb = seq![PieceModel::Variant(segment_index(lb.cmd))] + words(lb.nums);
        let qa = segment_pieces(pa);
        let qb = segment_pieces(pb);
        assert(s == qa + ta);
        assert(s == qb + tb);
        let na = la.nums.len() as int;
        let nb = lb.nums.len() as int;
        let len = s.len() as int;
        assert(s[len - 1 - na] == PieceModel::Variant(segment_index(la.cmd))) by {
            assert((qa + ta)[len - 1 - na] == ta[0]);
        }
        assert(s[len - 1 - nb] == PieceModel::Variant(segment_index(lb.cmd))) by {
            assert((qb + tb)[len - 1 - nb] == tb[0]);
        }
        if na < nb {
            let k = len - 1 - na;
            assert((qb + tb)[k] == tb[k - qb.len()]);
            assert(tb[k - qb.len()] == words(lb.nums)[k - qb.len() - 1]);
            assert(false);
        }
        if nb < na {
            let k = len - 1 - nb;
            assert((qa + ta)[k] == ta[k - qa.len()]);
            assert(ta[k - qa.len()] == words(la.nums)[k - qa.len() - 1]);
            assert(false);
        }
        assert(la.cmd == lb.cmd);
        assert(qa.len() == qb.len());
        assert(qa =~= s.subrange(0, qa.len() as int));
        assert(qb =~= s.subrange(0, qb.len() as int));
        lemma_words_equal(la.nums, lb.nums, qa + seq![PieceModel::Variant(segment_index(la.cmd))], qb + seq![
            PieceModel::Variant(segment_index(lb.cmd)),
        ]);
        assert(qa + ta =~= qa + seq![PieceModel::Variant(segment_index(la.cmd))] + words(la.nums));
        assert(qb + tb =~= qb + seq![PieceModel::Variant(segment_index(lb.cmd))] + words(lb.nums));
        assert forall|i: int| 0 <= i < pa.len() implies #[trigger] segment_wf(pa[i]) by {
            assert(pa[i] == a[i]);
        }
        assert forall|i: int| 0 <= i < pb.len() implies #[trigger] segment_wf(pb[i]) by {
            assert(pb[i] == b[i]);
        }
        lemma_segments_determined(pa, pb);
        assert(la == lb);
        assert(a =~= pa.push(la));
        assert(b =~= pb.push(lb));
    }
}

/// A whole colour is determined by its writes, whatever follows them.
proof fn lemma_color_determined(c: Option<Seq<u32>>, d: Option<Seq<u32>>, x: Seq<PieceModel>, y: Seq<PieceModel>)
    requires
        color_wf(c),
        color_wf(d),
        color_pieces(c) + x == color_pieces(d) + y,
    ensures
        c == d,
        x == y,
{
    let l = color_pieces(c) + x;
    assert(l[0] == color_pieces(c)[0]);
    assert((color_pieces(d) + y)[0] == color_pieces(d)[0]);
    match (c, d) {
        (Some(ch), Some(dh)) => {
            assert(color_pieces(c).len() == 5);
            assert(color_pieces(d).len() == 5);
            assert(color_pieces(c) =~= l.subrange(0, 5));
            assert(color_pieces(d) =~= l.subrange(0, 5));
            lemma_words_equal(ch, dh, seq![PieceModel::Byte(1)], seq![PieceModel::Byte(1)]);
            assert(x =~= l.skip(5));
            assert(y =~= (color_pieces(d) + y).skip(5));
        },
        (None, None) => {
            assert(x =~= l.skip(1));
            assert(y =~= (color_pieces(d) + y).skip(1));
        },
        _ => {},
    }
}

/// A run without bytes followed by a run that starts with a byte splits
/// in one way only.
proof fn lemma_split_at_byte(sa: Seq<PieceModel>, ra: Seq<PieceModel>, sb: Seq<PieceModel>, rb: Seq<PieceModel>)
    requires
        forall|k: int| 0 <= k < sa.len() ==> !(#[trigger] sa[k] is Byte),
        forall|k: int| 0 <= k < sb.len() ==> !(#[trigger] sb[k] is Byte),
        ra.len() > 0 && ra[0] is Byte,
        rb.len() > 0 && rb[0] is Byte,
        sa + ra == sb + rb,
    ensures
        sa == sb,
        ra == rb,
{
    let t = sa + ra;
    if sa.len() < sb.len() {
        assert(t[sa.len() as int] == ra[0]);
        assert((sb + rb)[sa.len() as int] == sb[sa.len() as int]);
    }
    if sb.len() < sa.len() {
        assert((sb + rb)[sb.len() as int] == rb[0]);
        assert(t[sb.len() as int] == sa[sb.len() as int]);
    }
    assert(sa =~= t.subrange(0, sa.len() as int));
    assert(sb =~= (sb + rb).subrange(0, sb.len() as int));
    assert(ra =~= t.skip(sa.len() as int));
    assert(rb =~= (sb + rb).skip(sb.len() as int));
}

/// Two whole paths that feed the same writes are equal.
#[verifier::spinoff_prover]
#[verifier::rlimit(40)]
proof fn lemma_path_determined(a: ElementModel, b: ElementModel)
    requires
        a is Path,
        b is Path,
        element_pieces(a) == element_pieces(b),
        model_wf(a),
        model_wf(b),
    ensures
        a == b,
{
    let (s1, f1, t1, c1, g1) = (a->Path_segments, a->Path_fill, a->Path_thickness, a->Path_stroke_color, a->Path_fill_color);
    let (s2, f2, t2, c2, g2) = (b->Path_segments, b->Path_fill, b->Path_thickness, b->Path_stroke_color, b->Path_fill_color);
    let l = element_pieces(a);
    let h1 = seq![PieceModel::Variant(9), PieceModel::Byte(if f1 { 1u8 } else { 0u8 }), PieceModel::Word(t1)];
    let h2 = seq![PieceModel::Variant(9), PieceModel::Byte(if f2 { 1u8 } else { 0u8 }), PieceModel::Word(t2)];
    let ta = segment_pieces(s1) + (color_pieces(c1) + color_pieces(g1));
    let tb = segment_pieces(s2) + (color_pieces(c2) + color_pieces(g2));
    assert(l =~= h1 + ta);
    assert(element_pieces(b) =~= h2 + tb);
    assert(l[1] == h1[1] && l[2] == h1[2]);
    assert(element_pieces(b)[1] == h2[1] && element_pieces(b)[2] == h2[2]);
    assert(f1 == f2 && t1 == t2);
    assert(ta =~= l.skip(3));
    assert(tb =~= element_pieces(b).skip(3));
    lemma_segment_pieces_no_byte(s1);
    lemma_segment_pieces_no_byte(s2);
    assert((color_pieces(c1) + color_pieces(g1))[0] == color_pieces(c1)[0]);
    assert((color_pieces(c2) + color_pieces(g2))[0] == color_pieces(c2)[0]);
    lemma_split_at_byte(segment_pieces(s1), color_pieces(c1) + color_pieces(g1), segment_pieces(s2), color_pieces(c2)
        + color_pieces(g2));
    lemma_segments_determined(s1, s2);
    lemma_color_determined(c1, c2, color_pieces(g1), color_pieces(g2));
    assert(color_pieces(g1) + Seq::<PieceModel>::empty() =~= color_pieces(g1));
    assert(color_pieces(g2) + Seq::<PieceModel>::empty() =~= color_pieces(g2));
    lemma_color_determined(g1, g2, Seq::empty(), Seq::empty());
}

/// Every field of an element takes part in its fingerprint: two whole
/// elements (as `Element::model` gives them, see `lemma_element_model_wf`)
/// that feed the same writes are equal, so elements that differ in any
/// coordinate, size, text, weight, image path, path segment or colour feed
/// different writes.
pub proof fn law_fields_feed_fingerprint(a: ElementModel, b: ElementModel)
    requires
        element_pieces(a) == element_pieces(b),
        model_wf(a),
        model_wf(b),
    ensures
        a == b,
{
    let l = element_pieces(a);
    law_variant_leads(a, b);
    law_variant_leads(b, a);
    match (a, b) {
        (ElementModel::Rect { nums: n1, corner_radius: c1 }, ElementModel::Rect { nums: n2, corner_radius: c2 }) => {
            let p = seq![PieceModel::Variant(0)];
            assert(l.len() == n1.len() + 2);
            assert(l.drop_last() =~= p + words(n1));
            assert(element_pieces(b).drop_last() =~= p + words(n2));
            lemma_words_equal(n1, n2, p, p);
            assert(l.last() == PieceModel::OptWord(c1));
            assert(element_pieces(b).last() == PieceModel::OptWord(c2));
        },
        (ElementModel::Shape { kind: k1, nums: n1 }, ElementModel::Shape { kind: k2, nums: n2 }) => {
            assert(shape_index(k1) == shape_index(k2));
            assert(k1 == k2);
            let p = seq![PieceModel::Variant(shape_index(k1))];
            lemma_words_equal(n1, n2, p, p);
        },
        (ElementModel::Polygon { points: q1 }, ElementModel::Polygon { points: q2 }) => {
            lemma_point_pieces(q1);
            lemma_point_pieces(q2);
            assert(point_pieces(q1).len() == point_pieces(q2).len());
            assert forall|i: int| 0 <= i < q1.len() implies q1[i] == q2[i] by {
                assert(l[1 + 2 * i] == point_pieces(q1)[2 * i]);
                assert(element_pieces(b)[1 + 2 * i] == point_pieces(q2)[2 * i]);
                assert(l[2 + 2 * i] == point_pieces(q1)[2 * i + 1]);
                assert(element_pieces(b)[2 + 2 * i] == point_pieces(q2)[2 * i + 1]);
            }
            assert(q1 =~= q2);
        },
        (ElementModel::Text { nums: n1, .. }, ElementModel::Text { nums: n2, .. }) => {
            assert(l[1] == element_pieces(b)[1]);
            assert(n1 =~= n2);
            assert(l[2] == element_pieces(b)[2]);
            assert(l[3] == element_pieces(b)[3]);
            assert(l[4] == element_pieces(b)[4]);
            assert(l[5] == element_pieces(b)[5]);
        },
        (ElementModel::Image { path: t1, nums: n1 }, ElementModel::Image { path: t2, nums: n2 }) => {
            assert(l[1] == element_pieces(b)[1]);
            lemma_words_equal(n1, n2, seq![PieceModel::Variant(8), PieceModel::Text(t1)], seq![
                PieceModel::Variant(8),
                PieceModel::Text(t2),
            ]);
        },
        (ElementModel::Path { .. }, ElementModel::Path { .. }) => {
            lemma_path_determined(a, b);
        },
        _ => {},
    }
}

fn push_piece(v: &mut Vec<HashPiece>, p: HashPiece)
    ensures
        pieces_model(final(v)@) == pieces_model(old(v)@).push(p.model()),
{
    let ghost before = v@;
    v.push(p);
    proof {
        assert(pieces_model(v@) =~= pieces_model(before).push(p.model()));
    }
}

fn push_words(v: &mut Vec<HashPiece>, nums: &[F32])
    ensures
        pieces_model(final(v)@) == pieces_model(old(v)@) + words(nums@.map_values(|f: F32| f.bits)),
{
    let ghost start = pieces_model(v@);
    let mut i: usize = 0;
    while i < nums.len()
        invariant
            0 <= i <= nums@.len(),
            pieces_model(v@) == start + words(nums@.take(i as int).map_values(|f: F32| f.bits)),
        decreases nums@.len() - i,
    {
        push_piece(v, HashPiece::Word(nums[i].bits));
        proof {
            assert(nums@.take(i + 1) =~= nums@.take(i as int).push(nums@[i as int]));
            assert(words(nums@.take(i + 1).map_values(|f: F32| f.bits)) =~= words(
                nums@.take(i as int).map_values(|f: F32| f.bits),
            ).push(PieceModel::Word(nums@[i as int].bits)));
        }
        i = i + 1;
    }
    proof {
        assert(nums@.take(i as int) =~= nums@);
    }
}

fn push_color(v: &mut Vec<HashPiece>, c: &Option<[F32; 4]>)
    ensures
        pieces_model(final(v)@) == pieces_model(old(v)@) + color_pieces(crate::element::color_model(*c)),
{
    let ghost start = pieces_model(v@);
    match c {
        Some(ch) => {
            push_piece(v, HashPiece::Byte(1));
            push_words(v, ch);
            proof {
                assert(ch@.map_values(|f: F32| f.bits) =~= ch@.map_values(|f: F32| f.bits));
                assert(start.push(PieceModel::Byte(1)) + words(ch@.map_values(|f: F32| f.bits)) =~= start + (
                seq![PieceModel::Byte(1)] + words(ch@.map_values(|f: F32| f.bits))));
            }
        },
        None => {
            push_piece(v, HashPiece::Byte(0));
            proof {
                assert(start.push(PieceModel::Byte(0)) =~= start + seq![PieceModel::Byte(0)]);
            }
        },
    }
}

fn push_points(v: &mut Vec<HashPiece>, points: &Vec<[F32; 2]>)
    ensures
        pieces_model(final(v)@) == pieces_model(old(v)@) + point_pieces(crate::element::points_model(points@)),
{
    let ghost start = pieces_model(v@);
    let ghost pm = crate::element::points_model(points@);
    let mut i: usize = 0;
    while i < points.len()
        invariant
            0 <= i <= points@.len(),
            pm == crate::element::points_model(points@),
            pm.len() == points@.len(),
            pieces_model(v@) == start + point_pieces(pm.take(i as int)),
        decreases points@.len() - i,
    {
        let p = points[i];
        push_piece(v, HashPiece::Word(p[0].bits));
        push_piece(v, HashPiece::Word(p[1].bits));
        proof {
            let t = pm.take(i + 1);
            assert(t.drop_last() =~= pm.take(i as int));
            assert(t.last() == (p[0].bits, p[1].bits));
            assert(point_pieces(t) == point_pieces(pm.take(i as int)) + seq![
                PieceModel::Word(p[0].bits),
                PieceModel::Word(p[1].bits),
            ]);
            assert(start + point_pieces(t) =~= start + point_pieces(pm.take(i as int)) + seq![
                PieceModel::Word(p[0].bits),
                PieceModel::Word(p[1].bits),
            ]);
        }
        i = i + 1;
    }
    proof {
        assert(pm.take(i as int) =~= pm);
    }
}

fn segment_words(s: &Segment) -> (r: (u8, Vec<F32>))
    ensures
        r.0 == segment_index(s.model().cmd),
        r.1@.map_values(|f: F32| f.bits) == s.model().nums,
{
    let r = match *s {
        Segment::M { x, y } => (0u8, vec![x, y]),
        Segment::L { x, y } => (1u8, vec![x, y]),
        Segment::Q { x1, y1, x, y } => (2u8, vec![x1, y1, x, y]),
        Segment::C { x1, y1, x2, y2, x, y } => (3u8, vec![x1, y1, x2, y2, x, y]),
        Segment::Z => (4u8, Vec::new()),
    };
    proof {
        assert(r.1@.map_values(|f: F32| f.bits) =~= s.model().nums);
    }
    r
}

fn push_segments(v: &mut Vec<HashPiece>, segments: &Vec<Segment>)
    ensures
        pieces_model(final(v)@) == pieces_model(old(v)@) + segment_pieces(crate::element::segments_model(segments@)),
{
    let ghost start = pieces_model(v@);
    let ghost sm = crate::element::segments_model(segments@);
    let mut i: usize = 0;
    while i < segments.len()
        invariant
            0 <= i <= segments@.len(),
            sm == crate::element::segments_model(segments@),
            sm.len() == segments@.len(),
            pieces_model(v@) == start + segment_pieces(sm.take(i as int)),
        decreases segments@.len() - i,
    {
        let (idx, nums) = segment_words(&segments[i]);
        let ghost mid = pieces_model(v@);
        push_piece(v, HashPiece::Variant(idx));
        push_words(v, nums.as_slice());
        proof {
            let t = sm.take(i + 1);
            assert(t.drop_last() =~= sm.take(i as int));
            assert(t.last() == segments@[i as int].model());
            assert(start + segment_pieces(t) =~= mid.push(PieceModel::Variant(idx)) + words(
                nums@.map_values(|f: F32| f.bits),
            ));
        }
        i = i + 1;
    }
    proof {
        assert(sm.take(i as int) =~= sm);
    }
}

/// The writes that feed `e` into a frame fingerprint.
pub fn hash_pieces(e: &Element) -> (r: Vec<HashPiece>)
    ensures
        pieces_model(r@) == element_pieces(e.model()),
{
    let mut v: Vec<HashPiece> = Vec::new();
    proof {
        assert(pieces_model(v@) =~= Seq::<PieceModel>::empty());
    }
    match e {
        Element::Rect { x, y, w, h, corner_radius } => {
            push_piece(&mut v, HashPiece::Variant(0));
            push_words(&mut v, &[*x, *y, *w, *h]);
            let c = match corner_radius {
                Some(f) => Some(f.bits),
                None => None,
            };
            push_piece(&mut v, HashPiece::OptWord(c));
            proof {
                assert(pieces_model(v@) =~= element_pieces(e.model()));
            }
        },
        Element::Circle { cx, cy, radius } => {
            push_piece(&mut v, HashPiece::Variant(1));
            push_words(&mut v, &[*cx, *cy, *radius]);
            proof {
                assert(pieces_model(v@) =~= element_pieces(e.model()));
            }
        },
        Element::CircleStroke { cx, cy, radius, thickness } => {
            push_piece(&mut v, HashPiece::Variant(2));
            push_words(&mut v, &[*cx, *cy, *radius, *thickness]);
            proof {
                assert(pieces_model(v@) =~= element_pieces(e.model()));
            }
        },
        Element::DashedCircle { cx, cy, radius, thickness, dash_len, gap_len } => {
            push_piece(&mut v, HashPiece::Variant(3));
            push_words(&mut v, &[*cx, *cy, *radius, *thickness, *dash_len, *gap_len]);
            proof {
                assert(pieces_model(v@) =~= element_pieces(e.model()));
            }
        },
        Element::Triangle { x1, y1, x2, y2, x3, y3 } => {
            push_piece(&mut v, HashPiece::Variant(4));
            push_words(&mut v, &[*x1, *y1, *x2, *y2, *x3, *y3]);
            proof {
                assert(pieces_model(v@) =~= element_pieces(e.model()));
            }
        },
        Element::Polygon { points } => {
            push_piece(&mut v, HashPiece::Variant(5));
            push_points(&mut v, points);
            proof {
                assert(pieces_model(v@) =~= element_pieces(e.model()));
            }
        },
        Element::Line { x1, y1, x2, y2, thickness } => {
            push_piece(&mut v, HashPiece::Variant(6));
            push_words(&mut v, &[*x1, *y1, *x2, *y2, *thickness]);
            proof {
                assert(pieces_model(v@) =~= element_pieces(e.model()));
            }
        },
        Element::Text { x, y, content, font_size, font_weight } => {
            push_piece(&mut v, HashPiece::Variant(7));
            push_piece(&mut v, HashPiece::Word(x.bits));
            push_piece(&mut v, HashPiece::Word(y.bits));
            push_piece(&mut v, HashPiece::Text(content.clone()));
            push_piece(&mut v, HashPiece::Word(font_size.bits));
            push_piece(&mut v, HashPiece::OptWeight(*font_weight));
            proof {
                assert(pieces_model(v@) =~= element_pieces(e.model()));
            }
        },
        Element::Image { path, x, y, w, h } => {
            push_piece(&mut v, HashPiece::Variant(8));
            push_piece(&mut v, HashPiece::Text(path.clone()));
            push_words(&mut v, &[*x, *y, *w, *h]);
            proof {
                assert(pieces_model(v@) =~= element_pieces(e.model()));
            }
        },
        Element::Path { segments, fill, thickness, stroke_color, fill_color } => {
            push_piece(&mut v, HashPiece::Variant(9));
            push_piece(&mut v, HashPiece::Byte(if *fill { 1u8 } else { 0u8 }));
            push_piece(&mut v, HashPiece::Word(thickness.bits));
            push_segments(&mut v, segments);
            push_color(&mut v, stroke_color);
            push_color(&mut v, fill_color);
            proof {
                assert(pieces_model(v@) =~= element_pieces(e.model()));
            }
        },
    }
    v
}

} // verus!
