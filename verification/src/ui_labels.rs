//! The choices the settings panel offers and their display names.

use vstd::prelude::*;
use crate::schema::{Anchor, BorderFrameStyle, CrosshairStyle, RingStyle};

verus! {

/// Every style the panel offers, each once, in menu order.
pub fn all_styles() -> (r: [CrosshairStyle; 13])
    ensures
        r@ == seq![
            CrosshairStyle::EdgeRect,
            CrosshairStyle::Cross,
            CrosshairStyle::LargeCross,
            CrosshairStyle::CornerDots4,
            CrosshairStyle::CornerDots6,
            CrosshairStyle::CornerDots8,
            CrosshairStyle::Ring,
            CrosshairStyle::CustomOrb,
            CrosshairStyle::RandomOrb,
            CrosshairStyle::BorderFrame,
            CrosshairStyle::CustomImage,
            CrosshairStyle::EdgeArrows,
            CrosshairStyle::Grid,
        ],
{
    let r = [
        CrosshairStyle::EdgeRect,
        CrosshairStyle::Cross,
        CrosshairStyle::LargeCross,
        CrosshairStyle::CornerDots4,
        CrosshairStyle::CornerDots6,
        CrosshairStyle::CornerDots8,
        CrosshairStyle::Ring,
        CrosshairStyle::CustomOrb,
        CrosshairStyle::RandomOrb,
        CrosshairStyle::BorderFrame,
        CrosshairStyle::CustomImage,
        CrosshairStyle::EdgeArrows,
        CrosshairStyle::Grid,
    ];
    assert(r@ =~= seq![
        CrosshairStyle::EdgeRect,
        CrosshairStyle::Cross,
        CrosshairStyle::LargeCross,
        CrosshairStyle::CornerDots4,
        CrosshairStyle::CornerDots6,
        CrosshairStyle::CornerDots8,
        CrosshairStyle::Ring,
        CrosshairStyle::CustomOrb,
        CrosshairStyle::RandomOrb,
        CrosshairStyle::BorderFrame,
        CrosshairStyle::CustomImage,
        CrosshairStyle::EdgeArrows,
        CrosshairStyle::Grid,
    ]);
    r
}

/// The panel's name of a style.
pub open spec fn spec_style_label(style: CrosshairStyle) -> Seq<char> {
    match style {
        CrosshairStyle::EdgeRect => "卫生纸"@,
        CrosshairStyle::Cross => "准星"@,
        CrosshairStyle::LargeCross => "大准星"@,
        CrosshairStyle::CornerDots4 => "定位球4"@,
        CrosshairStyle::CornerDots6 => "定位球6"@,
        CrosshairStyle::CornerDots8 => "定位球8"@,
        CrosshairStyle::Ring => "中心环"@,
        CrosshairStyle::CustomOrb => "自定义定位球"@,
        CrosshairStyle::RandomOrb => "随机球"@,
        CrosshairStyle::BorderFrame => "边框"@,
        CrosshairStyle::CustomImage => "自定义图片"@,
        CrosshairStyle::EdgeArrows => "箭头"@,
        CrosshairStyle::Grid => "网格"@,
    }
}

/// The panel's name of a style.
pub fn style_display_name(style: CrosshairStyle) -> (s: String)
    ensures
        s@ == spec_style_label(style),
{
    let t = match style {
        CrosshairStyle::EdgeRect => "卫生纸",
        CrosshairStyle::Cross => "准星",
        CrosshairStyle::LargeCross => "大准星",
        CrosshairStyle::CornerDots4 => "定位球4",
        CrosshairStyle::CornerDots6 => "定位球6",
        CrosshairStyle::CornerDots8 => "定位球8",
        CrosshairStyle::Ring => "中心环",
        CrosshairStyle::CustomOrb => "自定义定位球",
        CrosshairStyle::RandomOrb => "随机球",
        CrosshairStyle::BorderFrame => "边框",
        CrosshairStyle::CustomImage => "自定义图片",
        CrosshairStyle::EdgeArrows => "箭头",
        CrosshairStyle::Grid => "网格",
    };
    t.to_owned()
}

/// The edges an edge rectangle can attach to, in menu order.
pub fn all_anchors() -> (r: [Anchor; 5])
    ensures
        r@ == seq![Anchor::Top, Anchor::Bottom, Anchor::Left, Anchor::Right, Anchor::Center],
{
    let r = [Anchor::Top, Anchor::Bottom, Anchor::Left, Anchor::Right, Anchor::Center];
    assert(r@ =~= seq![Anchor::Top, Anchor::Bottom, Anchor::Left, Anchor::Right, Anchor::Center]);
    r
}

/// The panel's name of an edge.
pub open spec fn spec_anchor_label(anchor: Anchor) -> Seq<char> {
    match anchor {
        Anchor::Top => "顶部"@,
        Anchor::Bottom => "底部"@,
        Anchor::Left => "左侧"@,
        Anchor::Right => "右侧"@,
        Anchor::Center => "居中"@,
    }
}

/// The panel's name of an edge.
pub fn anchor_display_name(anchor: Anchor) -> (s: String)
    ensures
        s@ == spec_anchor_label(anchor),
{
    let t = match anchor {
        Anchor::Top => "顶部",
        Anchor::Bottom => "底部",
        Anchor::Left => "左侧",
        Anchor::Right => "右侧",
        Anchor::Center => "居中",
    };
    t.to_owned()
}

/// The ring line styles, in menu order.
pub fn all_ring_styles() -> (r: [RingStyle; 3])
    ensures
        r@ == seq![RingStyle::Solid, RingStyle::Dashed, RingStyle::Double],
{
    let r = [RingStyle::Solid, RingStyle::Dashed, RingStyle::Double];
    assert(r@ =~= seq![RingStyle::Solid, RingStyle::Dashed, RingStyle::Double]);
    r
}

/// The panel's name of a ring line style.
pub open spec fn spec_ring_style_label(style: RingStyle) -> Seq<char> {
    match style {
        RingStyle::Solid => "实线"@,
        RingStyle::Dashed => "虚线"@,
        RingStyle::Double => "双环"@,
    }
}

/// The panel's name of a ring line style.
pub fn ring_style_display_name(style: RingStyle) -> (s: String)
    ensures
        s@ == spec_ring_style_label(style),
{
    let t = match style {
        RingStyle::Solid => "实线",
        RingStyle::Dashed => "虚线",
        RingStyle::Double => "双环",
    };
    t.to_owned()
}

/// The border frame styles, in menu order.
pub fn all_border_frame_styles() -> (r: [BorderFrameStyle; 2])
    ensures
        r@ == seq![BorderFrameStyle::Solid, BorderFrameStyle::Gap],
{
    let r = [BorderFrameStyle::Solid, BorderFrameStyle::Gap];
    assert(r@ =~= seq![BorderFrameStyle::Solid, BorderFrameStyle::Gap]);
    r
}

/// The panel's name of a border frame style.
pub open spec fn spec_border_frame_label(style: BorderFrameStyle) -> Seq<char> {
    match style {
        BorderFrameStyle::Solid => "完整"@,
        BorderFrameStyle::Gap => "四边缺口"@,
    }
}

/// The panel's name of a border frame style.
pub fn border_frame_style_display_name(style: BorderFrameStyle) -> (s: String)
    ensures
        s@ == spec_border_frame_label(style),
{
    let t = match style {
        BorderFrameStyle::Solid => "完整",
        BorderFrameStyle::Gap => "四边缺口",
    };
    t.to_owned()
}

/// The longest window title the target-window menu shows whole, in
/// characters.
pub const TITLE_DISPLAY_MAX: usize = 30usize;

/// How the target-window menu shows a title: at most
/// `TITLE_DISPLAY_MAX` characters, a longer one cut there and ended with
/// an ellipsis.
pub open spec fn spec_truncated_title(s: Seq<char>) -> Seq<char> {
    if s.len() > TITLE_DISPLAY_MAX {
        s.take(TITLE_DISPLAY_MAX as int).push('\u{2026}')
    } else {
        s
    }
}

/// A window title as the target-window menu shows it.
pub fn truncate_title(s: &str) -> (r: String)
    ensures
        r@ == spec_truncated_title(s@),
{
    let c = crate::text::chars_of(s);
    if c.len() > TITLE_DISPLAY_MAX {
        let mut v: Vec<char> = Vec::new();
        let mut i: usize = 0;
        while i < TITLE_DISPLAY_MAX
            invariant
                i <= TITLE_DISPLAY_MAX < c@.len(),
                v@ == c@.take(i as int),
            decreases TITLE_DISPLAY_MAX - i,
        {
            v.push(c[i]);
            i = i + 1;
            assert(v@ =~= c@.take(i as int));
        }
        v.push('\u{2026}');
        crate::text::string_from_chars(&v)
    } else {
        s.to_owned()
    }
}

} // verus!
