//! Migration of the legacy single-anchor configuration to layers.
//!
//! A legacy `Crosshair` becomes one `Layer` that uses the matching builtin
//! material; its fields move one to one into the layer parameters, and its
//! colour and opacity into the layer style.

use vstd::prelude::*;
use crate::crosshair::Crosshair;
use crate::layer::{Layer, LayerStyle, ParamValue, ScalarModel, entries_model, scalar_model};
use crate::config::Profile;
use crate::schema::{Anchor, BorderFrameStyle, CrosshairStyle, GridAlignment, MaterialRef, RandomOrbMode, RingStyle};
use crate::float_bits::{F32_0, F32_1};

verus! {

/// The parameter spelling of a `Anchor`.
pub open spec fn spec_anchor_to_str(v: Anchor) -> Seq<char> {
    match v {
        Anchor::Top => "top"@,
        Anchor::Bottom => "bottom"@,
        Anchor::Left => "left"@,
        Anchor::Right => "right"@,
        Anchor::Center => "center"@,
    }
}

/// The parameter spelling of a `Anchor`.
pub fn anchor_to_str(v: Anchor) -> (s: &'static str)
    ensures
        s@ == spec_anchor_to_str(v),
{
    match v {
        Anchor::Top => "top",
        Anchor::Bottom => "bottom",
        Anchor::Left => "left",
        Anchor::Right => "right",
        Anchor::Center => "center",
    }
}

/// The parameter spelling of a `RingStyle`.
pub open spec fn spec_ring_style_to_str(v: RingStyle) -> Seq<char> {
    match v {
        RingStyle::Solid => "solid"@,
        RingStyle::Dashed => "dashed"@,
        RingStyle::Double => "double"@,
    }
}

/// The parameter spelling of a `RingStyle`.
pub fn ring_style_to_str(v: RingStyle) -> (s: &'static str)
    ensures
        s@ == spec_ring_style_to_str(v),
{
    match v {
        RingStyle::Solid => "solid",
        RingStyle::Dashed => "dashed",
        RingStyle::Double => "double",
    }
}

/// The parameter spelling of a `BorderFrameStyle`.
pub open spec fn spec_border_frame_style_to_str(v: BorderFrameStyle) -> Seq<char> {
    match v {
        BorderFrameStyle::Solid => "solid"@,
        BorderFrameStyle::Gap => "gap"@,
    }
}

/// The parameter spelling of a `BorderFrameStyle`.
pub fn border_frame_style_to_str(v: BorderFrameStyle) -> (s: &'static str)
    ensures
        s@ == spec_border_frame_style_to_str(v),
{
    match v {
        BorderFrameStyle::Solid => "solid",
        BorderFrameStyle::Gap => "gap",
    }
}

/// The parameter spelling of a `RandomOrbMode`.
pub open spec fn spec_random_mode_to_str(v: RandomOrbMode) -> Seq<char> {
    match v {
        RandomOrbMode::LockOnStart => "lock_on_start"@,
        RandomOrbMode::Reshuffle => "reshuffle"@,
    }
}

/// The parameter spelling of a `RandomOrbMode`.
pub fn random_mode_to_str(v: RandomOrbMode) -> (s: &'static str)
    ensures
        s@ == spec_random_mode_to_str(v),
{
    match v {
        RandomOrbMode::LockOnStart => "lock_on_start",
        RandomOrbMode::Reshuffle => "reshuffle",
    }
}

/// The parameter spelling of a `GridAlignment`.
pub open spec fn spec_grid_alignment_to_str(v: GridAlignment) -> Seq<char> {
    match v {
        GridAlignment::Center => "center"@,
        GridAlignment::Edge => "edge"@,
    }
}

/// The parameter spelling of a `GridAlignment`.
pub fn grid_alignment_to_str(v: GridAlignment) -> (s: &'static str)
    ensures
        s@ == spec_grid_alignment_to_str(v),
{
    match v {
        GridAlignment::Center => "center",
        GridAlignment::Edge => "edge",
    }
}

/// The id suffix of a migrated layer.
pub open spec fn spec_style_id(s: CrosshairStyle) -> Seq<char> {
    match s {
        CrosshairStyle::Cross => "cross"@,
        CrosshairStyle::LargeCross => "large_cross"@,
        CrosshairStyle::CornerDots4 => "corner_dots4"@,
        CrosshairStyle::CornerDots6 => "corner_dots6"@,
        CrosshairStyle::CornerDots8 => "corner_dots8"@,
        CrosshairStyle::Ring => "ring"@,
        CrosshairStyle::CustomOrb => "custom_orb"@,
        CrosshairStyle::RandomOrb => "random_orb"@,
        CrosshairStyle::BorderFrame => "border_frame"@,
        CrosshairStyle::EdgeArrows => "edge_arrows"@,
        CrosshairStyle::Grid => "grid"@,
        CrosshairStyle::EdgeRect => "edge_rect_or_image"@,
        CrosshairStyle::CustomImage => "edge_rect_or_image"@,
    }
}

/// The id suffix of a migrated layer.
pub fn style_id(s: CrosshairStyle) -> (r: &'static str)
    ensures
        r@ == spec_style_id(s),
{
    match s {
        CrosshairStyle::Cross => "cross",
        CrosshairStyle::LargeCross => "large_cross",
        CrosshairStyle::CornerDots4 => "corner_dots4",
        CrosshairStyle::CornerDots6 => "corner_dots6",
        CrosshairStyle::CornerDots8 => "corner_dots8",
        CrosshairStyle::Ring => "ring",
        CrosshairStyle::CustomOrb => "custom_orb",
        CrosshairStyle::RandomOrb => "random_orb",
        CrosshairStyle::BorderFrame => "border_frame",
        CrosshairStyle::EdgeArrows => "edge_arrows",
        CrosshairStyle::Grid => "grid",
        CrosshairStyle::EdgeRect => "edge_rect_or_image",
        CrosshairStyle::CustomImage => "edge_rect_or_image",
    }
}

/// The display name of a migrated layer.
pub open spec fn spec_style_display_name(s: CrosshairStyle) -> Seq<char> {
    match s {
        CrosshairStyle::Cross => "准星"@,
        CrosshairStyle::LargeCross => "大准星"@,
        CrosshairStyle::CornerDots4 => "定位球4"@,
        CrosshairStyle::CornerDots6 => "定位球6"@,
        CrosshairStyle::CornerDots8 => "定位球8"@,
        CrosshairStyle::Ring => "中心环"@,
        CrosshairStyle::CustomOrb => "自定义定位球"@,
        CrosshairStyle::RandomOrb => "随机球"@,
        CrosshairStyle::BorderFrame => "边框"@,
        CrosshairStyle::EdgeArrows => "箭头"@,
        CrosshairStyle::Grid => "网格"@,
        CrosshairStyle::EdgeRect => "贴边矩形"@,
        CrosshairStyle::CustomImage => "自定义图片"@,
    }
}

/// The display name of a migrated layer.
pub fn style_display_name(s: CrosshairStyle) -> (r: &'static str)
    ensures
        r@ == spec_style_display_name(s),
{
    match s {
        CrosshairStyle::Cross => "准星",
        CrosshairStyle::LargeCross => "大准星",
        CrosshairStyle::CornerDots4 => "定位球4",
        CrosshairStyle::CornerDots6 => "定位球6",
        CrosshairStyle::CornerDots8 => "定位球8",
        CrosshairStyle::Ring => "中心环",
        CrosshairStyle::CustomOrb => "自定义定位球",
        CrosshairStyle::RandomOrb => "随机球",
        CrosshairStyle::BorderFrame => "边框",
        CrosshairStyle::EdgeArrows => "箭头",
        CrosshairStyle::Grid => "网格",
        CrosshairStyle::EdgeRect => "贴边矩形",
        CrosshairStyle::CustomImage => "自定义图片",
    }
}

/// The builtin material a migrated style uses.
pub open spec fn migrated_material_id(s: CrosshairStyle) -> Seq<char> {
    match s {
        CrosshairStyle::Cross => "builtin.cross"@,
        CrosshairStyle::LargeCross => "builtin.large_cross"@,
        CrosshairStyle::CornerDots4 => "builtin.corner_dots"@,
        CrosshairStyle::CornerDots6 => "builtin.corner_dots"@,
        CrosshairStyle::CornerDots8 => "builtin.corner_dots"@,
        CrosshairStyle::Ring => "builtin.ring"@,
        CrosshairStyle::CustomOrb => "builtin.custom_orb"@,
        CrosshairStyle::RandomOrb => "builtin.random_orb"@,
        CrosshairStyle::BorderFrame => "builtin.border_frame"@,
        CrosshairStyle::EdgeArrows => "builtin.edge_arrows"@,
        CrosshairStyle::Grid => "builtin.grid"@,
        CrosshairStyle::EdgeRect => "builtin.edge_rect"@,
        CrosshairStyle::CustomImage => "builtin.image"@,
    }
}

/// The parameters a migrated anchor carries, in order.
pub open spec fn migrated_params(c: Crosshair) -> Seq<(Seq<char>, Option<ScalarModel>)> {
    match c.style {
        CrosshairStyle::Cross => seq![("size"@, Some(ScalarModel::Float32(c.size.bits))), ("thickness"@, Some(ScalarModel::Float32(c.thickness.bits))), ("gap"@, Some(ScalarModel::Float32(c.gap.bits)))],
        CrosshairStyle::LargeCross => seq![("thickness"@, Some(ScalarModel::Float32(c.thickness.bits)))],
        CrosshairStyle::CornerDots4 => seq![("count"@, Some(ScalarModel::Int(4))), ("offset"@, Some(ScalarModel::Float32(c.offset.bits))), ("thickness"@, Some(ScalarModel::Float32(c.thickness.bits))), ("radius"@, Some(ScalarModel::Float32(c.radius.bits)))],
        CrosshairStyle::CornerDots6 => seq![("count"@, Some(ScalarModel::Int(6))), ("offset"@, Some(ScalarModel::Float32(c.offset.bits))), ("thickness"@, Some(ScalarModel::Float32(c.thickness.bits))), ("radius"@, Some(ScalarModel::Float32(c.radius.bits)))],
        CrosshairStyle::CornerDots8 => seq![("count"@, Some(ScalarModel::Int(8))), ("offset"@, Some(ScalarModel::Float32(c.offset.bits))), ("thickness"@, Some(ScalarModel::Float32(c.thickness.bits))), ("radius"@, Some(ScalarModel::Float32(c.radius.bits)))],
        CrosshairStyle::Ring => seq![("thickness"@, Some(ScalarModel::Float32(c.thickness.bits))), ("ring_radius_pct"@, Some(ScalarModel::Float32(c.ring_radius_pct.bits))), ("ring_style"@, Some(ScalarModel::Str(spec_ring_style_to_str(c.ring_style))))],
        CrosshairStyle::CustomOrb => seq![("radius"@, Some(ScalarModel::Float32(c.radius.bits))), ("offset"@, Some(ScalarModel::Float32(c.offset.bits))), ("orb_positions"@, Some(ScalarModel::Int(c.orb_positions.0 as i64))), ("top_count"@, Some(ScalarModel::UInt(c.custom_orb_top_count as u64))), ("bottom_count"@, Some(ScalarModel::UInt(c.custom_orb_bottom_count as u64))), ("left_count"@, Some(ScalarModel::UInt(c.custom_orb_left_count as u64))), ("right_count"@, Some(ScalarModel::UInt(c.custom_orb_right_count as u64)))],
        CrosshairStyle::RandomOrb => seq![("orb_count"@, Some(ScalarModel::UInt(c.random_orb_count as u64))), ("offset"@, Some(ScalarModel::Float32(c.random_orb_offset.bits))), ("jitter"@, Some(ScalarModel::Float32(c.random_orb_jitter.bits))), ("radius_min"@, Some(ScalarModel::Float32(c.random_radius_min.bits))), ("radius_max"@, Some(ScalarModel::Float32(c.random_radius_max.bits))), ("center_deviation"@, Some(ScalarModel::Float32(c.random_center_deviation.bits))), ("mode"@, Some(ScalarModel::Str(spec_random_mode_to_str(c.random_mode))))],
        CrosshairStyle::BorderFrame => seq![("thickness"@, Some(ScalarModel::Float32(c.thickness.bits))), ("offset"@, Some(ScalarModel::Float32(c.offset.bits))), ("frame_style"@, Some(ScalarModel::Str(spec_border_frame_style_to_str(c.border_frame_style)))), ("inset"@, Some(ScalarModel::Bool(c.border_inset)))],
        CrosshairStyle::EdgeArrows => seq![("size"@, Some(ScalarModel::Float32(c.size.bits))), ("distance"@, Some(ScalarModel::Float32(c.arrow_distance.bits))), ("width"@, Some(ScalarModel::Float32(c.arrow_width.bits))), ("tail_per_edge"@, Some(ScalarModel::Bool(c.arrow_tail_per_edge))), ("tail_top"@, Some(ScalarModel::Float32(c.arrow_tail_top.bits))), ("tail_bottom"@, Some(ScalarModel::Float32(c.arrow_tail_bottom.bits))), ("tail_left"@, Some(ScalarModel::Float32(c.arrow_tail_left.bits))), ("tail_right"@, Some(ScalarModel::Float32(c.arrow_tail_right.bits))), ("positions_mask"@, Some(ScalarModel::Int(c.orb_positions.0 as i64)))],
        CrosshairStyle::Grid => seq![("grid_size"@, Some(ScalarModel::Float32(c.grid_size.bits))), ("thickness"@, Some(ScalarModel::Float32(c.thickness.bits))), ("alignment"@, Some(ScalarModel::Str(spec_grid_alignment_to_str(c.grid_alignment))))],
        CrosshairStyle::EdgeRect => seq![("size"@, Some(ScalarModel::Float32(c.size.bits))), ("secondary_size"@, Some(ScalarModel::Float32(c.secondary_size.bits))), ("anchor"@, Some(ScalarModel::Str(spec_anchor_to_str(c.anchor)))), ("margin"@, Some(ScalarModel::Float32(c.margin.bits))), ("corner_radius"@, Some(ScalarModel::Float32(c.corner_radius.bits)))],
        CrosshairStyle::CustomImage => seq![("path"@, Some(ScalarModel::Str(c.image_path@))), ("scale"@, Some(ScalarModel::Float32(c.image_scale.bits))), ("offset_x"@, Some(ScalarModel::Float32(c.image_offset_x.bits))), ("offset_y"@, Some(ScalarModel::Float32(c.image_offset_y.bits))), ("width"@, Some(ScalarModel::Float32(c.size.bits))), ("height"@, Some(ScalarModel::Float32(c.size.bits)))],
    }
}
fn push_param(p: &mut Vec<(String, ParamValue)>, key: &str, v: ParamValue)
    ensures
        entries_model(final(p)@) == entries_model(old(p)@).push((key@, scalar_model(v))),
{
    let ghost sm = scalar_model(v);
    p.push((key.to_owned(), v));
    proof {
        assert(entries_model(p@) =~= entries_model(old(p)@).push((key@, sm)));
    }
}

fn str_param(s: &str) -> (v: ParamValue)
    ensures
        scalar_model(v) == Some(ScalarModel::Str(s@)),
{
    ParamValue::Str(s.to_owned())
}

fn migrate_cross(c: &Crosshair) -> (r: (MaterialRef, Vec<(String, ParamValue)>))
    requires
        c.style == CrosshairStyle::Cross,
    ensures
        r.0 matches MaterialRef::Builtin { id } && id@ == migrated_material_id(c.style),
        entries_model(r.1@) == migrated_params(*c),
{
    let mut p: Vec<(String, ParamValue)> = Vec::new();
    push_param(&mut p, "size", ParamValue::Float32(c.size));
    push_param(&mut p, "thickness", ParamValue::Float32(c.thickness));
    push_param(&mut p, "gap", ParamValue::Float32(c.gap));
    proof {
        assert(entries_model(p@) =~= migrated_params(*c));
    }
    (MaterialRef::Builtin { id: "builtin.cross".to_owned() }, p)
}

fn migrate_large_cross(c: &Crosshair) -> (r: (MaterialRef, Vec<(String, ParamValue)>))
    requires
        c.style == CrosshairStyle::LargeCross,
    ensures
        r.0 matches MaterialRef::Builtin { id } && id@ == migrated_material_id(c.style),
        entries_model(r.1@) == migrated_params(*c),
{
    let mut p: Vec<(String, ParamValue)> = Vec::new();
    push_param(&mut p, "thickness", ParamValue::Float32(c.thickness));
    proof {
        assert(entries_model(p@) =~= migrated_params(*c));
    }
    (MaterialRef::Builtin { id: "builtin.large_cross".to_owned() }, p)
}

fn migrate_corner_dots(c: &Crosshair, count: i64) -> (r: (MaterialRef, Vec<(String, ParamValue)>))
    requires
        (c.style == CrosshairStyle::CornerDots4 && count == 4) || (c.style == CrosshairStyle::CornerDots6 && count == 6) || (c.style == CrosshairStyle::CornerDots8 && count == 8),
    ensures
        r.0 matches MaterialRef::Builtin { id } && id@ == migrated_material_id(c.style),
        entries_model(r.1@) == migrated_params(*c),
{
    let mut p: Vec<(String, ParamValue)> = Vec::new();
    push_param(&mut p, "count", ParamValue::Int(count));
    push_param(&mut p, "offset", ParamValue::Float32(c.offset));
    push_param(&mut p, "thickness", ParamValue::Float32(c.thickness));
    push_param(&mut p, "radius", ParamValue::Float32(c.radius));
    proof {
        assert(entries_model(p@) =~= migrated_params(*c));
    }
    (MaterialRef::Builtin { id: "builtin.corner_dots".to_owned() }, p)
}

fn migrate_ring(c: &Crosshair) -> (r: (MaterialRef, Vec<(String, ParamValue)>))
    requires
        c.style == CrosshairStyle::Ring,
    ensures
        r.0 matches MaterialRef::Builtin { id } && id@ == migrated_material_id(c.style),
        entries_model(r.1@) == migrated_params(*c),
{
    let mut p: Vec<(String, ParamValue)> = Vec::new();
    push_param(&mut p, "thickness", ParamValue::Float32(c.thickness));
    push_param(&mut p, "ring_radius_pct", ParamValue::Float32(c.ring_radius_pct));
    push_param(&mut p, "ring_style", str_param(ring_style_to_str(c.ring_style)));
    proof {
        assert(entries_model(p@) =~= migrated_params(*c));
    }
    (MaterialRef::Builtin { id: "builtin.ring".to_owned() }, p)
}

fn migrate_custom_orb(c: &Crosshair) -> (r: (MaterialRef, Vec<(String, ParamValue)>))
    requires
        c.style == CrosshairStyle::CustomOrb,
    ensures
        r.0 matches MaterialRef::Builtin { id } && id@ == migrated_material_id(c.style),
        entries_model(r.1@) == migrated_params(*c),
{
    let mut p: Vec<(String, ParamValue)> = Vec::new();
    push_param(&mut p, "radius", ParamValue::Float32(c.radius));
    push_param(&mut p, "offset", ParamValue::Float32(c.offset));
    push_param(&mut p, "orb_positions", ParamValue::Int(c.orb_positions.0 as i64));
    push_param(&mut p, "top_count", ParamValue::UInt(c.custom_orb_top_count as u64));
    push_param(&mut p, "bottom_count", ParamValue::UInt(c.custom_orb_bottom_count as u64));
    push_param(&mut p, "left_count", ParamValue::UInt(c.custom_orb_left_count as u64));
    push_param(&mut p, "right_count", ParamValue::UInt(c.custom_orb_right_count as u64));
    proof {
        assert(entries_model(p@) =~= migrated_params(*c));
    }
    (MaterialRef::Builtin { id: "builtin.custom_orb".to_owned() }, p)
}

fn migrate_random_orb(c: &Crosshair) -> (r: (MaterialRef, Vec<(String, ParamValue)>))
    requires
        c.style == CrosshairStyle::RandomOrb,
    ensures
        r.0 matches MaterialRef::Builtin { id } && id@ == migrated_material_id(c.style),
        entries_model(r.1@) == migrated_params(*c),
{
    let mut p: Vec<(String, ParamValue)> = Vec::new();
    push_param(&mut p, "orb_count", ParamValue::UInt(c.random_orb_count as u64));
    push_param(&mut p, "offset", ParamValue::Float32(c.random_orb_offset));
    push_param(&mut p, "jitter", ParamValue::Float32(c.random_orb_jitter));
    push_param(&mut p, "radius_min", ParamValue::Float32(c.random_radius_min));
    push_param(&mut p, "radius_max", ParamValue::Float32(c.random_radius_max));
    push_param(&mut p, "center_deviation", ParamValue::Float32(c.random_center_deviation));
    push_param(&mut p, "mode", str_param(random_mode_to_str(c.random_mode)));
    proof {
        assert(entries_model(p@) =~= migrated_params(*c));
    }
    (MaterialRef::Builtin { id: "builtin.random_orb".to_owned() }, p)
}

fn migrate_border_frame(c: &Crosshair) -> (r: (MaterialRef, Vec<(String, ParamValue)>))
    requires
        c.style == CrosshairStyle::BorderFrame,
    ensures
        r.0 matches MaterialRef::Builtin { id } && id@ == migrated_material_id(c.style),
        entries_model(r.1@) == migrated_params(*c),
{
    let mut p: Vec<(String, ParamValue)> = Vec::new();
    push_param(&mut p, "thickness", ParamValue::Float32(c.thickness));
    push_param(&mut p, "offset", ParamValue::Float32(c.offset));
    push_param(&mut p, "frame_style", str_param(border_frame_style_to_str(c.border_frame_style)));
    push_param(&mut p, "inset", ParamValue::Bool(c.border_inset));
    proof {
        assert(entries_model(p@) =~= migrated_params(*c));
    }
    (MaterialRef::Builtin { id: "builtin.border_frame".to_owned() }, p)
}

fn migrate_edge_arrows(c: &Crosshair) -> (r: (MaterialRef, Vec<(String, ParamValue)>))
    requires
        c.style == CrosshairStyle::EdgeArrows,
    ensures
        r.0 matches MaterialRef::Builtin { id } && id@ == migrated_material_id(c.style),
        entries_model(r.1@) == migrated_params(*c),
{
    let mut p: Vec<(String, ParamValue)> = Vec::new();
    push_param(&mut p, "size", ParamValue::Float32(c.size));
    push_param(&mut p, "distance", ParamValue::Float32(c.arrow_distance));
    push_param(&mut p, "width", ParamValue::Float32(c.arrow_width));
    push_param(&mut p, "tail_per_edge", ParamValue::Bool(c.arrow_tail_per_edge));
    push_param(&mut p, "tail_top", ParamValue::Float32(c.arrow_tail_top));
    push_param(&mut p, "tail_bottom", ParamValue::Float32(c.arrow_tail_bottom));
    push_param(&mut p, "tail_left", ParamValue::Float32(c.arrow_tail_left));
    push_param(&mut p, "tail_right", ParamValue::Float32(c.arrow_tail_right));
    push_param(&mut p, "positions_mask", ParamValue::Int(c.orb_positions.0 as i64));
    proof {
        assert(entries_model(p@) =~= migrated_params(*c));
    }
    (MaterialRef::Builtin { id: "builtin.edge_arrows".to_owned() }, p)
}

fn migrate_grid(c: &Crosshair) -> (r: (MaterialRef, Vec<(String, ParamValue)>))
    requires
        c.style == CrosshairStyle::Grid,
    ensures
        r.0 matches MaterialRef::Builtin { id } && id@ == migrated_material_id(c.style),
        entries_model(r.1@) == migrated_params(*c),
{
    let mut p: Vec<(String, ParamValue)> = Vec::new();
    push_param(&mut p, "grid_size", ParamValue::Float32(c.grid_size));
    push_param(&mut p, "thickness", ParamValue::Float32(c.thickness));
    push_param(&mut p, "alignment", str_param(grid_alignment_to_str(c.grid_alignment)));
    proof {
        assert(entries_model(p@) =~= migrated_params(*c));
    }
    (MaterialRef::Builtin { id: "builtin.grid".to_owned() }, p)
}

fn edge_rect_params(c: &Crosshair) -> (r: (MaterialRef, Vec<(String, ParamValue)>))
    requires
        c.style == CrosshairStyle::EdgeRect,
    ensures
        r.0 matches MaterialRef::Builtin { id } && id@ == migrated_material_id(c.style),
        entries_model(r.1@) == migrated_params(*c),
{
    let mut p: Vec<(String, ParamValue)> = Vec::new();
    push_param(&mut p, "size", ParamValue::Float32(c.size));
    push_param(&mut p, "secondary_size", ParamValue::Float32(c.secondary_size));
    push_param(&mut p, "anchor", str_param(anchor_to_str(c.anchor)));
    push_param(&mut p, "margin", ParamValue::Float32(c.margin));
    push_param(&mut p, "corner_radius", ParamValue::Float32(c.corner_radius));
    proof {
        assert(entries_model(p@) =~= migrated_params(*c));
    }
    (MaterialRef::Builtin { id: "builtin.edge_rect".to_owned() }, p)
}

fn image_params(c: &Crosshair) -> (r: (MaterialRef, Vec<(String, ParamValue)>))
    requires
        c.style == CrosshairStyle::CustomImage,
    ensures
        r.0 matches MaterialRef::Builtin { id } && id@ == migrated_material_id(c.style),
        entries_model(r.1@) == migrated_params(*c),
{
    let mut p: Vec<(String, ParamValue)> = Vec::new();
    push_param(&mut p, "path", str_param(c.image_path.as_str()));
    push_param(&mut p, "scale", ParamValue::Float32(c.image_scale));
    push_param(&mut p, "offset_x", ParamValue::Float32(c.image_offset_x));
    push_param(&mut p, "offset_y", ParamValue::Float32(c.image_offset_y));
    push_param(&mut p, "width", ParamValue::Float32(c.size));
    push_param(&mut p, "height", ParamValue::Float32(c.size));
    proof {
        assert(entries_model(p@) =~= migrated_params(*c));
    }
    (MaterialRef::Builtin { id: "builtin.image".to_owned() }, p)
}

/// The id suffix of the layer a style migrates to.
pub open spec fn migrated_id_suffix(s: CrosshairStyle) -> Seq<char> {
    match s {
        CrosshairStyle::EdgeRect => "edge_rect"@,
        CrosshairStyle::CustomImage => "image"@,
        _ => spec_style_id(s),
    }
}

/// Whether `l` is the layer the anchor `c` migrates to: id
/// `migrated_<suffix>`, the style's display name, its builtin material, the
/// anchor's fields as parameters, the anchor's colour and opacity with
/// normal blending, the identity transform, visible and unlocked.
pub open spec fn is_migrated_layer(l: Layer, c: Crosshair) -> bool {
    &&& l.id@ == "migrated_"@ + migrated_id_suffix(c.style)
    &&& l.name@ == spec_style_display_name(c.style)
    &&& l.material matches MaterialRef::Builtin { id } && id@ == migrated_material_id(c.style)
    &&& l.params matches ParamValue::Object(e) && entries_model(e@) == migrated_params(c)
    &&& l.style.color[0].bits == c.color[0].bits
    &&& l.style.color[1].bits == c.color[1].bits
    &&& l.style.color[2].bits == c.color[2].bits
    &&& l.style.color[3].bits == c.color[3].bits
    &&& l.style.opacity.bits == c.opacity.bits
    &&& l.style.blend_mode == crate::schema::BlendMode::Normal
    &&& l.transform.offset_x.bits == F32_0
    &&& l.transform.offset_y.bits == F32_0
    &&& l.transform.scale.bits == F32_1
    &&& l.transform.rotation_deg.bits == F32_0
    &&& l.visible
    &&& !l.locked
}

/// `migrated_<suffix>`.
fn migrated_id(suffix: &str) -> (s: String)
    ensures
        s@ == "migrated_"@ + suffix@,
{
    let mut v: Vec<char> = Vec::new();
    crate::text::push_chars(&mut v, "migrated_");
    crate::text::push_chars(&mut v, suffix);
    crate::text::string_from_chars(&v)
}

/// A new layer for the anchor `c` with the given id suffix, name, material
/// and parameters, in the anchor's colour and opacity.
fn build_layer(
    id_suffix: &str,
    name: &str,
    material: MaterialRef,
    params: Vec<(String, ParamValue)>,
    c: &Crosshair,
) -> (l: Layer)
    ensures
        l.id@ == "migrated_"@ + id_suffix@,
        l.name@ == name@,
        l.material == material,
        l.params == ParamValue::Object(params),
        l.style.color == c.color,
        l.style.opacity == c.opacity,
        l.style.blend_mode == crate::schema::BlendMode::Normal,
        l.transform.offset_x.bits == F32_0 && l.transform.offset_y.bits == F32_0
            && l.transform.scale.bits == F32_1 && l.transform.rotation_deg.bits == F32_0,
        l.visible,
        !l.locked,
{
    let mut layer = Layer::new(migrated_id(id_suffix), name.to_owned(), material);
    layer.params = ParamValue::Object(params);
    layer.style = LayerStyle {
        color: c.color,
        opacity: c.opacity,
        blend_mode: LayerStyle::default_style().blend_mode,
    };
    layer
}

/// The layer that an anchor of a style other than the edge rectangle and
/// the custom image migrates to.
pub fn migrate_crosshair_to_layer(c: &Crosshair) -> (l: Layer)
    requires
        c.style != CrosshairStyle::EdgeRect,
        c.style != CrosshairStyle::CustomImage,
    ensures
        is_migrated_layer(l, *c),
{
    let (material, params) = match c.style {
        CrosshairStyle::Cross => migrate_cross(c),
        CrosshairStyle::LargeCross => migrate_large_cross(c),
        CrosshairStyle::CornerDots4 => migrate_corner_dots(c, 4),
        CrosshairStyle::CornerDots6 => migrate_corner_dots(c, 6),
        CrosshairStyle::CornerDots8 => migrate_corner_dots(c, 8),
        CrosshairStyle::Ring => migrate_ring(c),
        CrosshairStyle::CustomOrb => migrate_custom_orb(c),
        CrosshairStyle::RandomOrb => migrate_random_orb(c),
        CrosshairStyle::BorderFrame => migrate_border_frame(c),
        CrosshairStyle::EdgeArrows => migrate_edge_arrows(c),
        _ => migrate_grid(c),
    };
    build_layer(style_id(c.style), style_display_name(c.style), material, params, c)
}

/// The layer an edge-rectangle anchor migrates to.
pub fn migrate_edge_rect(c: &Crosshair) -> (l: Layer)
    requires
        c.style == CrosshairStyle::EdgeRect,
    ensures
        is_migrated_layer(l, *c),
{
    let (material, params) = edge_rect_params(c);
    let suffix = "edge_rect";
    let name = "贴边矩形";
    proof {
        reveal_strlit("edge_rect");
        reveal_strlit("贴边矩形");
    }
    build_layer(suffix, name, material, params, c)
}

/// The layer a custom-image anchor migrates to.
pub fn migrate_custom_image(c: &Crosshair) -> (l: Layer)
    requires
        c.style == CrosshairStyle::CustomImage,
    ensures
        is_migrated_layer(l, *c),
{
    let (material, params) = image_params(c);
    let suffix = "image";
    let name = "自定义图片";
    proof {
        reveal_strlit("image");
        reveal_strlit("自定义图片");
    }
    build_layer(suffix, name, material, params, c)
}

/// Whether `r` is the migration of `p`: for a profile with an anchor, the
/// anchor dropped, that anchor's layer as the only layer, and the trigger,
/// the hotkey and the followed window kept; a profile without one
/// unchanged.
pub open spec fn is_migration_of(r: Profile, p: Profile) -> bool {
    match p.crosshair {
        None => r == p,
        Some(c) => {
            &&& r.crosshair is None
            &&& r.layers@.len() == 1
            &&& is_migrated_layer(r.layers@[0], c)
            &&& r.trigger == p.trigger
            &&& r.settings_hotkey == p.settings_hotkey
            &&& r.target_window == p.target_window
        },
    }
}

/// The migrated profile: a profile with an anchor gets that anchor's layer
/// as its only layer, loses the anchor and keeps the trigger, the hotkey
/// and the followed window; a profile without one is returned as it is.
pub fn migrate_profile(profile: Profile) -> (r: Profile)
    ensures
        is_migration_of(r, profile),
{
    let Profile { crosshair, layers, trigger, settings_hotkey, target_window } = profile;
    match crosshair {
        None => Profile { crosshair: None, layers, trigger, settings_hotkey, target_window },
        Some(c) => {
            let layer = match c.style {
                CrosshairStyle::EdgeRect => migrate_edge_rect(&c),
                CrosshairStyle::CustomImage => migrate_custom_image(&c),
                _ => migrate_crosshair_to_layer(&c),
            };
            let mut new_layers: Vec<Layer> = Vec::new();
            new_layers.push(layer);
            Profile { crosshair: None, layers: new_layers, trigger, settings_hotkey, target_window }
        },
    }
}

/// The value a layer's parameters hold under `key`: the first entry of that
/// name, if any.
pub open spec fn param_lookup(es: Seq<(Seq<char>, Option<ScalarModel>)>, key: Seq<char>) -> Option<ScalarModel>
    decreases es.len(),
{
    if es.len() == 0 {
        None
    } else if es[0].0 == key {
        es[0].1
    } else {
        param_lookup(es.drop_first(), key)
    }
}

/// The value of the parameter `key` of a layer whose parameters are an
/// object.
pub open spec fn param_of(l: Layer, key: Seq<char>) -> Option<ScalarModel> {
    match l.params {
        ParamValue::Object(e) => param_lookup(entries_model(e@), key),
        _ => None,
    }
}

proof fn lemma_lookup_at(es: Seq<(Seq<char>, Option<ScalarModel>)>, key: Seq<char>, i: int)
    requires
        0 <= i < es.len(),
        es[i].0 == key,
        forall|j: int| 0 <= j < i ==> #[trigger] es[j].0 != key,
    ensures
        param_lookup(es, key) == es[i].1,
    decreases i,
{
    if i > 0 {
        assert(es[0].0 != key);
        let d = es.drop_first();
        assert forall|j: int| 0 <= j < i - 1 implies #[trigger] d[j].0 != key by {
            assert(d[j] == es[j + 1]);
        }
        lemma_lookup_at(d, key, i - 1);
    }
}

proof fn lemma_params_cross(l: Layer, c: Crosshair)
    requires
        is_migrated_layer(l, c),
        c.style == CrosshairStyle::Cross,
    ensures
        param_of(l, "size"@) == Some(ScalarModel::Float32(c.size.bits)),
        param_of(l, "thickness"@) == Some(ScalarModel::Float32(c.thickness.bits)),
        param_of(l, "gap"@) == Some(ScalarModel::Float32(c.gap.bits)),
{
    reveal_strlit("size");
    reveal_strlit("thickness");
    reveal_strlit("gap");
    let es = migrated_params(c);
    lemma_lookup_at(es, "size"@, 0);
    assert("size"@ != "thickness"@) by { assert("size"@.len() != "thickness"@.len()); }
    lemma_lookup_at(es, "thickness"@, 1);
    assert("size"@ != "gap"@) by { assert("size"@.len() != "gap"@.len()); }
    assert("thickness"@ != "gap"@) by { assert("thickness"@.len() != "gap"@.len()); }
    lemma_lookup_at(es, "gap"@, 2);
}

proof fn lemma_params_largecross(l: Layer, c: Crosshair)
    requires
        is_migrated_layer(l, c),
        c.style == CrosshairStyle::LargeCross,
    ensures
        param_of(l, "thickness"@) == Some(ScalarModel::Float32(c.thickness.bits)),
{
    reveal_strlit("thickness");
    let es = migrated_params(c);
    lemma_lookup_at(es, "thickness"@, 0);
}

proof fn lemma_params_cornerdots4(l: Layer, c: Crosshair)
    requires
        is_migrated_layer(l, c),
        c.style == CrosshairStyle::CornerDots4,
    ensures
        param_of(l, "count"@) == Some(ScalarModel::Int(4)),
        param_of(l, "offset"@) == Some(ScalarModel::Float32(c.offset.bits)),
        param_of(l, "thickness"@) == Some(ScalarModel::Float32(c.thickness.bits)),
        param_of(l, "radius"@) == Some(ScalarModel::Float32(c.radius.bits)),
{
    reveal_strlit("count");
    reveal_strlit("offset");
    reveal_strlit("thickness");
    reveal_strlit("radius");
    let es = migrated_params(c);
    lemma_lookup_at(es, "count"@, 0);
    assert("count"@ != "offset"@) by { assert("count"@.len() != "offset"@.len()); }
    lemma_lookup_at(es, "offset"@, 1);
    assert("count"@ != "thickness"@) by { assert("count"@.len() != "thickness"@.len()); }
    assert("offset"@ != "thickness"@) by { assert("offset"@.len() != "thickness"@.len()); }
    lemma_lookup_at(es, "thickness"@, 2);
    assert("count"@ != "radius"@) by { assert("count"@.len() != "radius"@.len()); }
    assert("offset"@ != "radius"@) by { assert("offset"@[0] != "radius"@[0]); }
    assert("thickness"@ != "radius"@) by { assert("thickness"@.len() != "radius"@.len()); }
    lemma_lookup_at(es, "radius"@, 3);
}

proof fn lemma_params_cornerdots6(l: Layer, c: Crosshair)
    requires
        is_migrated_layer(l, c),
        c.style == CrosshairStyle::CornerDots6,
    ensures
        param_of(l, "count"@) == Some(ScalarModel::Int(6)),
        param_of(l, "offset"@) == Some(ScalarModel::Float32(c.offset.bits)),
        param_of(l, "thickness"@) == Some(ScalarModel::Float32(c.thickness.bits)),
        param_of(l, "radius"@) == Some(ScalarModel::Float32(c.radius.bits)),
{
    reveal_strlit("count");
    reveal_strlit("offset");
    reveal_strlit("thickness");
    reveal_strlit("radius");
    let es = migrated_params(c);
    lemma_lookup_at(es, "count"@, 0);
    assert("count"@ != "offset"@) by { assert("count"@.len() != "offset"@.len()); }
    lemma_lookup_at(es, "offset"@, 1);
    assert("count"@ != "thickness"@) by { assert("count"@.len() != "thickness"@.len()); }
    assert("offset"@ != "thickness"@) by { assert("offset"@.len() != "thickness"@.len()); }
    lemma_lookup_at(es, "thickness"@, 2);
    assert("count"@ != "radius"@) by { assert("count"@.len() != "radius"@.len()); }
    assert("offset"@ != "radius"@) by { assert("offset"@[0] != "radius"@[0]); }
    assert("thickness"@ != "radius"@) by { assert("thickness"@.len() != "radius"@.len()); }
    lemma_lookup_at(es, "radius"@, 3);
}

proof fn lemma_params_cornerdots8(l: Layer, c: Crosshair)
    requires
        is_migrated_layer(l, c),
        c.style == CrosshairStyle::CornerDots8,
    ensures
        param_of(l, "count"@) == Some(ScalarModel::Int(8)),
        param_of(l, "offset"@) == Some(ScalarModel::Float32(c.offset.bits)),
        param_of(l, "thickness"@) == Some(ScalarModel::Float32(c.thickness.bits)),
        param_of(l, "radius"@) == Some(ScalarModel::Float32(c.radius.bits)),
{
    reveal_strlit("count");
    reveal_strlit("offset");
    reveal_strlit("thickness");
    reveal_strlit("radius");
    let es = migrated_params(c);
    lemma_lookup_at(es, "count"@, 0);
    assert("count"@ != "offset"@) by { assert("count"@.len() != "offset"@.len()); }
    lemma_lookup_at(es, "offset"@, 1);
    assert("count"@ != "thickness"@) by { assert("count"@.len() != "thickness"@.len()); }
    assert("offset"@ != "thickness"@) by { assert("offset"@.len() != "thickness"@.len()); }
    lemma_lookup_at(es, "thickness"@, 2);
    assert("count"@ != "radius"@) by { assert("count"@.len() != "radius"@.len()); }
    assert("offset"@ != "radius"@) by { assert("offset"@[0] != "radius"@[0]); }
    assert("thickness"@ != "radius"@) by { assert("thickness"@.len() != "radius"@.len()); }
    lemma_lookup_at(es, "radius"@, 3);
}

proof fn lemma_params_ring(l: Layer, c: Crosshair)
    requires
        is_migrated_layer(l, c),
        c.style == CrosshairStyle::Ring,
    ensures
        param_of(l, "thickness"@) == Some(ScalarModel::Float32(c.thickness.bits)),
        param_of(l, "ring_radius_pct"@) == Some(ScalarModel::Float32(c.ring_radius_pct.bits)),
        param_of(l, "ring_style"@) == Some(ScalarModel::Str(spec_ring_style_to_str(c.ring_style))),
{
    reveal_strlit("thickness");
    reveal_strlit("ring_radius_pct");
    reveal_strlit("ring_style");
    let es = migrated_params(c);
    lemma_lookup_at(es, "thickness"@, 0);
    assert("thickness"@ != "ring_radius_pct"@) by { assert("thickness"@.len() != "ring_radius_pct"@.len()); }
    lemma_lookup_at(es, "ring_radius_pct"@, 1);
    assert("thickness"@ != "ring_style"@) by { assert("thickness"@.len() != "ring_style"@.len()); }
    assert("ring_radius_pct"@ != "ring_style"@) by { assert("ring_radius_pct"@.len() != "ring_style"@.len()); }
    lemma_lookup_at(es, "ring_style"@, 2);
}

proof fn lemma_params_customorb(l: Layer, c: Crosshair)
    requires
        is_migrated_layer(l, c),
        c.style == CrosshairStyle::CustomOrb,
    ensures
        param_of(l, "radius"@) == Some(ScalarModel::Float32(c.radius.bits)),
        param_of(l, "offset"@) == Some(ScalarModel::Float32(c.offset.bits)),
        param_of(l, "orb_positions"@) == Some(ScalarModel::Int(c.orb_positions.0 as i64)),
        param_of(l, "top_count"@) == Some(ScalarModel::UInt(c.custom_orb_top_count as u64)),
        param_of(l, "bottom_count"@) == Some(ScalarModel::UInt(c.custom_orb_bottom_count as u64)),
        param_of(l, "left_count"@) == Some(ScalarModel::UInt(c.custom_orb_left_count as u64)),
        param_of(l, "right_count"@) == Some(ScalarModel::UInt(c.custom_orb_right_count as u64)),
{
    reveal_strlit("radius");
    reveal_strlit("offset");
    reveal_strlit("orb_positions");
    reveal_strlit("top_count");
    reveal_strlit("bottom_count");
    reveal_strlit("left_count");
    reveal_strlit("right_count");
    let es = migrated_params(c);
    lemma_lookup_at(es, "radius"@, 0);
    assert("radius"@ != "offset"@) by { assert("radius"@[0] != "offset"@[0]); }
    lemma_lookup_at(es, "offset"@, 1);
    assert("radius"@ != "orb_positions"@) by { assert("radius"@.len() != "orb_positions"@.len()); }
    assert("offset"@ != "orb_positions"@) by { assert("offset"@.len() != "orb_positions"@.len()); }
    lemma_lookup_at(es, "orb_positions"@, 2);
    assert("radius"@ != "top_count"@) by { assert("radius"@.len() != "top_count"@.len()); }
    assert("offset"@ != "top_count"@) by { assert("offset"@.len() != "top_count"@.len()); }
    assert("orb_positions"@ != "top_count"@) by { assert("orb_positions"@.len() != "top_count"@.len()); }
    lemma_lookup_at(es, "top_count"@, 3);
    assert("radius"@ != "bottom_count"@) by { assert("radius"@.len() != "bottom_count"@.len()); }
    assert("offset"@ != "bottom_count"@) by { assert("offset"@.len() != "bottom_count"@.len()); }
    assert("orb_positions"@ != "bottom_count"@) by { assert("orb_positions"@.len() != "bottom_count"@.len()); }
    assert("top_count"@ != "bottom_count"@) by { assert("top_count"@.len() != "bottom_count"@.len()); }
    lemma_lookup_at(es, "bottom_count"@, 4);
    assert("radius"@ != "left_count"@) by { assert("radius"@.len() != "left_count"@.len()); }
    assert("offset"@ != "left_count"@) by { assert("offset"@.len() != "left_count"@.len()); }
    assert("orb_positions"@ != "left_count"@) by { assert("orb_positions"@.len() != "left_count"@.len()); }
    assert("top_count"@ != "left_count"@) by { assert("top_count"@.len() != "left_count"@.len()); }
    assert("bottom_count"@ != "left_count"@) by { assert("bottom_count"@.len() != "left_count"@.len()); }
    lemma_lookup_at(es, "left_count"@, 5);
    assert("radius"@ != "right_count"@) by { assert("radius"@.len() != "right_count"@.len()); }
    assert("offset"@ != "right_count"@) by { assert("offset"@.len() != "right_count"@.len()); }
    assert("orb_positions"@ != "right_count"@) by { assert("orb_positions"@.len() != "right_count"@.len()); }
    assert("top_count"@ != "right_count"@) by { assert("top_count"@.len() != "right_count"@.len()); }
    assert("bottom_count"@ != "right_count"@) by { assert("bottom_count"@.len() != "right_count"@.len()); }
    assert("left_count"@ != "right_count"@) by { assert("left_count"@.len() != "right_count"@.len()); }
    lemma_lookup_at(es, "right_count"@, 6);
}

proof fn lemma_params_randomorb(l: Layer, c: Crosshair)
    requires
        is_migrated_layer(l, c),
        c.style == CrosshairStyle::RandomOrb,
    ensures
        param_of(l, "orb_count"@) == Some(ScalarModel::UInt(c.random_orb_count as u64)),
        param_of(l, "offset"@) == Some(ScalarModel::Float32(c.random_orb_offset.bits)),
        param_of(l, "jitter"@) == Some(ScalarModel::Float32(c.random_orb_jitter.bits)),
        param_of(l, "radius_min"@) == Some(ScalarModel::Float32(c.random_radius_min.bits)),
        param_of(l, "radius_max"@) == Some(ScalarModel::Float32(c.random_radius_max.bits)),
        param_of(l, "center_deviation"@) == Some(ScalarModel::Float32(c.random_center_deviation.bits)),
        param_of(l, "mode"@) == Some(ScalarModel::Str(spec_random_mode_to_str(c.random_mode))),
{
    reveal_strlit("orb_count");
    reveal_strlit("offset");
    reveal_strlit("jitter");
    reveal_strlit("radius_min");
    reveal_strlit("radius_max");
    reveal_strlit("center_deviation");
    reveal_strlit("mode");
    let es = migrated_params(c);
    lemma_lookup_at(es, "orb_count"@, 0);
    assert("orb_count"@ != "offset"@) by { assert("orb_count"@.len() != "offset"@.len()); }
    lemma_lookup_at(es, "offset"@, 1);
    assert("orb_count"@ != "jitter"@) by { assert("orb_count"@.len() != "jitter"@.len()); }
    assert("offset"@ != "jitter"@) by { assert("offset"@[0] != "jitter"@[0]); }
    lemma_lookup_at(es, "jitter"@, 2);
    assert("orb_count"@ != "radius_min"@) by { assert("orb_count"@.len() != "radius_min"@.len()); }
    assert("offset"@ != "radius_min"@) by { assert("offset"@.len() != "radius_min"@.len()); }
    assert("jitter"@ != "radius_min"@) by { assert("jitter"@.len() != "radius_min"@.len()); }
    lemma_lookup_at(es, "radius_min"@, 3);
    assert("orb_count"@ != "radius_max"@) by { assert("orb_count"@.len() != "radius_max"@.len()); }
    assert("offset"@ != "radius_max"@) by { assert("offset"@.len() != "radius_max"@.len()); }
    assert("jitter"@ != "radius_max"@) by { assert("jitter"@.len() != "radius_max"@.len()); }
    assert("radius_min"@ != "radius_max"@) by { assert("radius_min"@[8] != "radius_max"@[8]); }
    lemma_lookup_at(es, "radius_max"@, 4);
    assert("orb_count"@ != "center_deviation"@) by { assert("orb_count"@.len() != "center_deviation"@.len()); }
    assert("offset"@ != "center_deviation"@) by { assert("offset"@.len() != "center_deviation"@.len()); }
    assert("jitter"@ != "center_deviation"@) by { assert("jitter"@.len() != "center_deviation"@.len()); }
    assert("radius_min"@ != "center_deviation"@) by { assert("radius_min"@.len() != "center_deviation"@.len()); }
    assert("radius_max"@ != "center_deviation"@) by { assert("radius_max"@.len() != "center_deviation"@.len()); }
    lemma_lookup_at(es, "center_deviation"@, 5);
    assert("orb_count"@ != "mode"@) by { assert("orb_count"@.len() != "mode"@.len()); }
    assert("offset"@ != "mode"@) by { assert("offset"@.len() != "mode"@.len()); }
    assert("jitter"@ != "mode"@) by { assert("jitter"@.len() != "mode"@.len()); }
    assert("radius_min"@ != "mode"@) by { assert("radius_min"@.len() != "mode"@.len()); }
    assert("radius_max"@ != "mode"@) by { assert("radius_max"@.len() != "mode"@.len()); }
    assert("center_deviation"@ != "mode"@) by { assert("center_deviation"@.len() != "mode"@.len()); }
    lemma_lookup_at(es, "mode"@, 6);
}

proof fn lemma_params_borderframe(l: Layer, c: Crosshair)
    requires
        is_migrated_layer(l, c),
        c.style == CrosshairStyle::BorderFrame,
    ensures
        param_of(l, "thickness"@) == Some(ScalarModel::Float32(c.thickness.bits)),
        param_of(l, "offset"@) == Some(ScalarModel::Float32(c.offset.bits)),
        param_of(l, "frame_style"@) == Some(ScalarModel::Str(spec_border_frame_style_to_str(c.border_frame_style))),
        param_of(l, "inset"@) == Some(ScalarModel::Bool(c.border_inset)),
{
    reveal_strlit("thickness");
    reveal_strlit("offset");
    reveal_strlit("frame_style");
    reveal_strlit("inset");
    let es = migrated_params(c);
    lemma_lookup_at(es, "thickness"@, 0);
    assert("thickness"@ != "offset"@) by { assert("thickness"@.len() != "offset"@.len()); }
    lemma_lookup_at(es, "offset"@, 1);
    assert("thickness"@ != "frame_style"@) by { assert("thickness"@.len() != "frame_style"@.len()); }
    assert("offset"@ != "frame_style"@) by { assert("offset"@.len() != "frame_style"@.len()); }
    lemma_lookup_at(es, "frame_style"@, 2);
    assert("thickness"@ != "inset"@) by { assert("thickness"@.len() != "inset"@.len()); }
    assert("offset"@ != "inset"@) by { assert("offset"@.len() != "inset"@.len()); }
    assert("frame_style"@ != "inset"@) by { assert("frame_style"@.len() != "inset"@.len()); }
    lemma_lookup_at(es, "inset"@, 3);
}

proof fn lemma_params_edgearrows(l: Layer, c: Crosshair)
    requires
        is_migrated_layer(l, c),
        c.style == CrosshairStyle::EdgeArrows,
    ensures
        param_of(l, "size"@) == Some(ScalarModel::Float32(c.size.bits)),
        param_of(l, "distance"@) == Some(ScalarModel::Float32(c.arrow_distance.bits)),
        param_of(l, "width"@) == Some(ScalarModel::Float32(c.arrow_width.bits)),
        param_of(l, "tail_per_edge"@) == Some(ScalarModel::Bool(c.arrow_tail_per_edge)),
        param_of(l, "tail_top"@) == Some(ScalarModel::Float32(c.arrow_tail_top.bits)),
        param_of(l, "tail_bottom"@) == Some(ScalarModel::Float32(c.arrow_tail_bottom.bits)),
        param_of(l, "tail_left"@) == Some(ScalarModel::Float32(c.arrow_tail_left.bits)),
        param_of(l, "tail_right"@) == Some(ScalarModel::Float32(c.arrow_tail_right.bits)),
        param_of(l, "positions_mask"@) == Some(ScalarModel::Int(c.orb_positions.0 as i64)),
{
    reveal_strlit("size");
    reveal_strlit("distance");
    reveal_strlit("width");
    reveal_strlit("tail_per_edge");
    reveal_strlit("tail_top");
    reveal_strlit("tail_bottom");
    reveal_strlit("tail_left");
    reveal_strlit("tail_right");
    reveal_strlit("positions_mask");
    let es = migrated_params(c);
    lemma_lookup_at(es, "size"@, 0);
    assert("size"@ != "distance"@) by { assert("size"@.len() != "distance"@.len()); }
    lemma_lookup_at(es, "distance"@, 1);
    assert("size"@ != "width"@) by { assert("size"@.len() != "width"@.len()); }
    assert("distance"@ != "width"@) by { assert("distance"@.len() != "width"@.len()); }
    lemma_lookup_at(es, "width"@, 2);
    assert("size"@ != "tail_per_edge"@) by { assert("size"@.len() != "tail_per_edge"@.len()); }
    assert("distance"@ != "tail_per_edge"@) by { assert("distance"@.len() != "tail_per_edge"@.len()); }
    assert("width"@ != "tail_per_edge"@) by { assert("width"@.len() != "tail_per_edge"@.len()); }
    lemma_lookup_at(es, "tail_per_edge"@, 3);
    assert("size"@ != "tail_top"@) by { assert("size"@.len() != "tail_top"@.len()); }
    assert("distance"@ != "tail_top"@) by { assert("distance"@[0] != "tail_top"@[0]); }
    assert("width"@ != "tail_top"@) by { assert("width"@.len() != "tail_top"@.len()); }
    assert("tail_per_edge"@ != "tail_top"@) by { assert("tail_per_edge"@.len() != "tail_top"@.len()); }
    lemma_lookup_at(es, "tail_top"@, 4);
    assert("size"@ != "tail_bottom"@) by { assert("size"@.len() != "tail_bottom"@.len()); }
    assert("distance"@ != "tail_bottom"@) by { assert("distance"@.len() != "tail_bottom"@.len()); }
    assert("width"@ != "tail_bottom"@) by { assert("width"@.len() != "tail_bottom"@.len()); }
    assert("tail_per_edge"@ != "tail_bottom"@) by { assert("tail_per_edge"@.len() != "tail_bottom"@.len()); }
    assert("tail_top"@ != "tail_bottom"@) by { assert("tail_top"@.len() != "tail_bottom"@.len()); }
    lemma_lookup_at(es, "tail_bottom"@, 5);
    assert("size"@ != "tail_left"@) by { assert("size"@.len() != "tail_left"@.len()); }
    assert("distance"@ != "tail_left"@) by { assert("distance"@.len() != "tail_left"@.len()); }
    assert("width"@ != "tail_left"@) by { assert("width"@.len() != "tail_left"@.len()); }
    assert("tail_per_edge"@ != "tail_left"@) by { assert("tail_per_edge"@.len() != "tail_left"@.len()); }
    assert("tail_top"@ != "tail_left"@) by { assert("tail_top"@.len() != "tail_left"@.len()); }
    assert("tail_bottom"@ != "tail_left"@) by { assert("tail_bottom"@.len() != "tail_left"@.len()); }
    lemma_lookup_at(es, "tail_left"@, 6);
    assert("size"@ != "tail_right"@) by { assert("size"@.len() != "tail_right"@.len()); }
    assert("distance"@ != "tail_right"@) by { assert("distance"@.len() != "tail_right"@.len()); }
    assert("width"@ != "tail_right"@) by { assert("width"@.len() != "tail_right"@.len()); }
    assert("tail_per_edge"@ != "tail_right"@) by { assert("tail_per_edge"@.len() != "tail_right"@.len()); }
    assert("tail_top"@ != "tail_right"@) by { assert("tail_top"@.len() != "tail_right"@.len()); }
    assert("tail_bottom"@ != "tail_right"@) by { assert("tail_bottom"@.len() != "tail_right"@.len()); }
    assert("tail_left"@ != "tail_right"@) by { assert("tail_left"@.len() != "tail_right"@.len()); }
    lemma_lookup_at(es, "tail_right"@, 7);
    assert("size"@ != "positions_mask"@) by { assert("size"@.len() != "positions_mask"@.len()); }
    assert("distance"@ != "positions_mask"@) by { assert("distance"@.len() != "positions_mask"@.len()); }
    assert("width"@ != "positions_mask"@) by { assert("width"@.len() != "positions_mask"@.len()); }
    assert("tail_per_edge"@ != "positions_mask"@) by { assert("tail_per_edge"@.len() != "positions_mask"@.len()); }
    assert("tail_top"@ != "positions_mask"@) by { assert("tail_top"@.len() != "positions_mask"@.len()); }
    assert("tail_bottom"@ != "positions_mask"@) by { assert("tail_bottom"@.len() != "positions_mask"@.len()); }
    assert("tail_left"@ != "positions_mask"@) by { assert("tail_left"@.len() != "positions_mask"@.len()); }
    assert("tail_right"@ != "positions_mask"@) by { assert("tail_right"@.len() != "positions_mask"@.len()); }
    lemma_lookup_at(es, "positions_mask"@, 8);
}

proof fn lemma_params_grid(l: Layer, c: Crosshair)
    requires
        is_migrated_layer(l, c),
        c.style == CrosshairStyle::Grid,
    ensures
        param_of(l, "grid_size"@) == Some(ScalarModel::Float32(c.grid_size.bits)),
        param_of(l, "thickness"@) == Some(ScalarModel::Float32(c.thickness.bits)),
        param_of(l, "alignment"@) == Some(ScalarModel::Str(spec_grid_alignment_to_str(c.grid_alignment))),
{
    reveal_strlit("grid_size");
    reveal_strlit("thickness");
    reveal_strlit("alignment");
    let es = migrated_params(c);
    lemma_lookup_at(es, "grid_size"@, 0);
    assert("grid_size"@ != "thickness"@) by { assert("grid_size"@[0] != "thickness"@[0]); }
    lemma_lookup_at(es, "thickness"@, 1);
    assert("grid_size"@ != "alignment"@) by { assert("grid_size"@[0] != "alignment"@[0]); }
    assert("thickness"@ != "alignment"@) by { assert("thickness"@[0] != "alignment"@[0]); }
    lemma_lookup_at(es, "alignment"@, 2);
}

proof fn lemma_params_edgerect(l: Layer, c: Crosshair)
    requires
        is_migrated_layer(l, c),
        c.style == CrosshairStyle::EdgeRect,
    ensures
        param_of(l, "size"@) == Some(ScalarModel::Float32(c.size.bits)),
        param_of(l, "secondary_size"@) == Some(ScalarModel::Float32(c.secondary_size.bits)),
        param_of(l, "anchor"@) == Some(ScalarModel::Str(spec_anchor_to_str(c.anchor))),
        param_of(l, "margin"@) == Some(ScalarModel::Float32(c.margin.bits)),
        param_of(l, "corner_radius"@) == Some(ScalarModel::Float32(c.corner_radius.bits)),
{
    reveal_strlit("size");
    reveal_strlit("secondary_size");
    reveal_strlit("anchor");
    reveal_strlit("margin");
    reveal_strlit("corner_radius");
    let es = migrated_params(c);
    lemma_lookup_at(es, "size"@, 0);
    assert("size"@ != "secondary_size"@) by { assert("size"@.len() != "secondary_size"@.len()); }
    lemma_lookup_at(es, "secondary_size"@, 1);
    assert("size"@ != "anchor"@) by { assert("size"@.len() != "anchor"@.len()); }
    assert("secondary_size"@ != "anchor"@) by { assert("secondary_size"@.len() != "anchor"@.len()); }
    lemma_lookup_at(es, "anchor"@, 2);
    assert("size"@ != "margin"@) by { assert("size"@.len() != "margin"@.len()); }
    assert("secondary_size"@ != "margin"@) by { assert("secondary_size"@.len() != "margin"@.len()); }
    assert("anchor"@ != "margin"@) by { assert("anchor"@[0] != "margin"@[0]); }
    lemma_lookup_at(es, "margin"@, 3);
    assert("size"@ != "corner_radius"@) by { assert("size"@.len() != "corner_radius"@.len()); }
    assert("secondary_size"@ != "corner_radius"@) by { assert("secondary_size"@.len() != "corner_radius"@.len()); }
    assert("anchor"@ != "corner_radius"@) by { assert("anchor"@.len() != "corner_radius"@.len()); }
    assert("margin"@ != "corner_radius"@) by { assert("margin"@.len() != "corner_radius"@.len()); }
    lemma_lookup_at(es, "corner_radius"@, 4);
}

proof fn lemma_params_customimage(l: Layer, c: Crosshair)
    requires
        is_migrated_layer(l, c),
        c.style == CrosshairStyle::CustomImage,
    ensures
        param_of(l, "path"@) == Some(ScalarModel::Str(c.image_path@)),
        param_of(l, "scale"@) == Some(ScalarModel::Float32(c.image_scale.bits)),
        param_of(l, "offset_x"@) == Some(ScalarModel::Float32(c.image_offset_x.bits)),
        param_of(l, "offset_y"@) == Some(ScalarModel::Float32(c.image_offset_y.bits)),
        param_of(l, "width"@) == Some(ScalarModel::Float32(c.size.bits)),
        param_of(l, "height"@) == Some(ScalarModel::Float32(c.size.bits)),
{
    reveal_strlit("path");
    reveal_strlit("scale");
    reveal_strlit("offset_x");
    reveal_strlit("offset_y");
    reveal_strlit("width");
    reveal_strlit("height");
    let es = migrated_params(c);
    lemma_lookup_at(es, "path"@, 0);
    assert("path"@ != "scale"@) by { assert("path"@.len() != "scale"@.len()); }
    lemma_lookup_at(es, "scale"@, 1);
    assert("path"@ != "offset_x"@) by { assert("path"@.len() != "offset_x"@.len()); }
    assert("scale"@ != "offset_x"@) by { assert("scale"@.len() != "offset_x"@.len()); }
    lemma_lookup_at(es, "offset_x"@, 2);
    assert("path"@ != "offset_y"@) by { assert("path"@.len() != "offset_y"@.len()); }
    assert("scale"@ != "offset_y"@) by { assert("scale"@.len() != "offset_y"@.len()); }
    assert("offset_x"@ != "offset_y"@) by { assert("offset_x"@[7] != "offset_y"@[7]); }
    lemma_lookup_at(es, "offset_y"@, 3);
    assert("path"@ != "width"@) by { assert("path"@.len() != "width"@.len()); }
    assert("scale"@ != "width"@) by { assert("scale"@[0] != "width"@[0]); }
    assert("offset_x"@ != "width"@) by { assert("offset_x"@.len() != "width"@.len()); }
    assert("offset_y"@ != "width"@) by { assert("offset_y"@.len() != "width"@.len()); }
    lemma_lookup_at(es, "width"@, 4);
    assert("path"@ != "height"@) by { assert("path"@.len() != "height"@.len()); }
    assert("scale"@ != "height"@) by { assert("scale"@.len() != "height"@.len()); }
    assert("offset_x"@ != "height"@) by { assert("offset_x"@.len() != "height"@.len()); }
    assert("offset_y"@ != "height"@) by { assert("offset_y"@.len() != "height"@.len()); }
    assert("width"@ != "height"@) by { assert("width"@.len() != "height"@.len()); }
    lemma_lookup_at(es, "height"@, 5);
}

/// Each migrated parameter carries the anchor field of the same name (the
/// corner dot styles also their dot count, the custom image its size as
/// width and height): for every style, the value under each key of the
/// migrated layer is the field it names.
pub proof fn law_migrated_params(l: Layer, c: Crosshair)
    requires
        is_migrated_layer(l, c),
    ensures
        c.style == CrosshairStyle::Cross ==> ({
            &&& param_of(l, "size"@) == Some(ScalarModel::Float32(c.size.bits))
            &&& param_of(l, "thickness"@) == Some(ScalarModel::Float32(c.thickness.bits))
            &&& param_of(l, "gap"@) == Some(ScalarModel::Float32(c.gap.bits))
        }),
        c.style == CrosshairStyle::LargeCross ==> ({
            &&& param_of(l, "thickness"@) == Some(ScalarModel::Float32(c.thickness.bits))
        }),
        c.style == CrosshairStyle::CornerDots4 ==> ({
            &&& param_of(l, "count"@) == Some(ScalarModel::Int(4))
            &&& param_of(l, "offset"@) == Some(ScalarModel::Float32(c.offset.bits))
            &&& param_of(l, "thickness"@) == Some(ScalarModel::Float32(c.thickness.bits))
            &&& param_of(l, "radius"@) == Some(ScalarModel::Float32(c.radius.bits))
        }),
        c.style == CrosshairStyle::CornerDots6 ==> ({
            &&& param_of(l, "count"@) == Some(ScalarModel::Int(6))
            &&& param_of(l, "offset"@) == Some(ScalarModel::Float32(c.offset.bits))
            &&& param_of(l, "thickness"@) == Some(ScalarModel::Float32(c.thickness.bits))
            &&& param_of(l, "radius"@) == Some(ScalarModel::Float32(c.radius.bits))
        }),
        c.style == CrosshairStyle::CornerDots8 ==> ({
            &&& param_of(l, "count"@) == Some(ScalarModel::Int(8))
            &&& param_of(l, "offset"@) == Some(ScalarModel::Float32(c.offset.bits))
            &&& param_of(l, "thickness"@) == Some(ScalarModel::Float32(c.thickness.bits))
            &&& param_of(l, "radius"@) == Some(ScalarModel::Float32(c.radius.bits))
        }),
        c.style == CrosshairStyle::Ring ==> ({
            &&& param_of(l, "thickness"@) == Some(ScalarModel::Float32(c.thickness.bits))
            &&& param_of(l, "ring_radius_pct"@) == Some(ScalarModel::Float32(c.ring_radius_pct.bits))
            &&& param_of(l, "ring_style"@) == Some(ScalarModel::Str(spec_ring_style_to_str(c.ring_style)))
        }),
        c.style == CrosshairStyle::CustomOrb ==> ({
            &&& param_of(l, "radius"@) == Some(ScalarModel::Float32(c.radius.bits))
            &&& param_of(l, "offset"@) == Some(ScalarModel::Float32(c.offset.bits))
            &&& param_of(l, "orb_positions"@) == Some(ScalarModel::Int(c.orb_positions.0 as i64))
            &&& param_of(l, "top_count"@) == Some(ScalarModel::UInt(c.custom_orb_top_count as u64))
            &&& param_of(l, "bottom_count"@) == Some(ScalarModel::UInt(c.custom_orb_bottom_count as u64))
            &&& param_of(l, "left_count"@) == Some(ScalarModel::UInt(c.custom_orb_left_count as u64))
            &&& param_of(l, "right_count"@) == Some(ScalarModel::UInt(c.custom_orb_right_count as u64))
        }),
        c.style == CrosshairStyle::RandomOrb ==> ({
            &&& param_of(l, "orb_count"@) == Some(ScalarModel::UInt(c.random_orb_count as u64))
            &&& param_of(l, "offset"@) == Some(ScalarModel::Float32(c.random_orb_offset.bits))
            &&& param_of(l, "jitter"@) == Some(ScalarModel::Float32(c.random_orb_jitter.bits))
            &&& param_of(l, "radius_min"@) == Some(ScalarModel::Float32(c.random_radius_min.bits))
            &&& param_of(l, "radius_max"@) == Some(ScalarModel::Float32(c.random_radius_max.bits))
            &&& param_of(l, "center_deviation"@) == Some(ScalarModel::Float32(c.random_center_deviation.bits))
            &&& param_of(l, "mode"@) == Some(ScalarModel::Str(spec_random_mode_to_str(c.random_mode)))
        }),
        c.style == CrosshairStyle::BorderFrame ==> ({
            &&& param_of(l, "thickness"@) == Some(ScalarModel::Float32(c.thickness.bits))
            &&& param_of(l, "offset"@) == Some(ScalarModel::Float32(c.offset.bits))
            &&& param_of(l, "frame_style"@) == Some(ScalarModel::Str(spec_border_frame_style_to_str(c.border_frame_style)))
            &&& param_of(l, "inset"@) == Some(ScalarModel::Bool(c.border_inset))
        }),
        c.style == CrosshairStyle::EdgeArrows ==> ({
            &&& param_of(l, "size"@) == Some(ScalarModel::Float32(c.size.bits))
            &&& param_of(l, "distance"@) == Some(ScalarModel::Float32(c.arrow_distance.bits))
            &&& param_of(l, "width"@) == Some(ScalarModel::Float32(c.arrow_width.bits))
            &&& param_of(l, "tail_per_edge"@) == Some(ScalarModel::Bool(c.arrow_tail_per_edge))
            &&& param_of(l, "tail_top"@) == Some(ScalarModel::Float32(c.arrow_tail_top.bits))
            &&& param_of(l, "tail_bottom"@) == Some(ScalarModel::Float32(c.arrow_tail_bottom.bits))
            &&& param_of(l, "tail_left"@) == Some(ScalarModel::Float32(c.arrow_tail_left.bits))
            &&& param_of(l, "tail_right"@) == Some(ScalarModel::Float32(c.arrow_tail_right.bits))
            &&& param_of(l, "positions_mask"@) == Some(ScalarModel::Int(c.orb_positions.0 as i64))
        }),
        c.style == CrosshairStyle::Grid ==> ({
            &&& param_of(l, "grid_size"@) == Some(ScalarModel::Float32(c.grid_size.bits))
            &&& param_of(l, "thickness"@) == Some(ScalarModel::Float32(c.thickness.bits))
            &&& param_of(l, "alignment"@) == Some(ScalarModel::Str(spec_grid_alignment_to_str(c.grid_alignment)))
        }),
        c.style == CrosshairStyle::EdgeRect ==> ({
            &&& param_of(l, "size"@) == Some(ScalarModel::Float32(c.size.bits))
            &&& param_of(l, "secondary_size"@) == Some(ScalarModel::Float32(c.secondary_size.bits))
            &&& param_of(l, "anchor"@) == Some(ScalarModel::Str(spec_anchor_to_str(c.anchor)))
            &&& param_of(l, "margin"@) == Some(ScalarModel::Float32(c.margin.bits))
            &&& param_of(l, "corner_radius"@) == Some(ScalarModel::Float32(c.corner_radius.bits))
        }),
        c.style == CrosshairStyle::CustomImage ==> ({
            &&& param_of(l, "path"@) == Some(ScalarModel::Str(c.image_path@))
            &&& param_of(l, "scale"@) == Some(ScalarModel::Float32(c.image_scale.bits))
            &&& param_of(l, "offset_x"@) == Some(ScalarModel::Float32(c.image_offset_x.bits))
            &&& param_of(l, "offset_y"@) == Some(ScalarModel::Float32(c.image_offset_y.bits))
            &&& param_of(l, "width"@) == Some(ScalarModel::Float32(c.size.bits))
            &&& param_of(l, "height"@) == Some(ScalarModel::Float32(c.size.bits))
        }),
{
    match c.style {
        CrosshairStyle::Cross => lemma_params_cross(l, c),
        CrosshairStyle::LargeCross => lemma_params_largecross(l, c),
        CrosshairStyle::CornerDots4 => lemma_params_cornerdots4(l, c),
        CrosshairStyle::CornerDots6 => lemma_params_cornerdots6(l, c),
        CrosshairStyle::CornerDots8 => lemma_params_cornerdots8(l, c),
        CrosshairStyle::Ring => lemma_params_ring(l, c),
        CrosshairStyle::CustomOrb => lemma_params_customorb(l, c),
        CrosshairStyle::RandomOrb => lemma_params_randomorb(l, c),
        CrosshairStyle::BorderFrame => lemma_params_borderframe(l, c),
        CrosshairStyle::EdgeArrows => lemma_params_edgearrows(l, c),
        CrosshairStyle::Grid => lemma_params_grid(l, c),
        CrosshairStyle::EdgeRect => lemma_params_edgerect(l, c),
        CrosshairStyle::CustomImage => lemma_params_customimage(l, c),
    }
}

/// The builtin material id of a layer (empty for a user material).
pub open spec fn material_id_of(l: Layer) -> Seq<char> {
    match l.material {
        MaterialRef::Builtin { id } => id@,
        _ => Seq::empty(),
    }
}

/// Each style migrates to its own builtin material, keeps the anchor's
/// colour and opacity, and is shown unmoved and unscaled.
pub proof fn law_migrated_material(l: Layer, c: Crosshair)
    requires
        is_migrated_layer(l, c),
    ensures
        c.style == CrosshairStyle::Cross ==> material_id_of(l) == "builtin.cross"@,
        c.style == CrosshairStyle::LargeCross ==> material_id_of(l) == "builtin.large_cross"@,
        c.style == CrosshairStyle::CornerDots4 ==> material_id_of(l) == "builtin.corner_dots"@,
        c.style == CrosshairStyle::CornerDots6 ==> material_id_of(l) == "builtin.corner_dots"@,
        c.style == CrosshairStyle::CornerDots8 ==> material_id_of(l) == "builtin.corner_dots"@,
        c.style == CrosshairStyle::Ring ==> material_id_of(l) == "builtin.ring"@,
        c.style == CrosshairStyle::CustomOrb ==> material_id_of(l) == "builtin.custom_orb"@,
        c.style == CrosshairStyle::RandomOrb ==> material_id_of(l) == "builtin.random_orb"@,
        c.style == CrosshairStyle::BorderFrame ==> material_id_of(l) == "builtin.border_frame"@,
        c.style == CrosshairStyle::EdgeArrows ==> material_id_of(l) == "builtin.edge_arrows"@,
        c.style == CrosshairStyle::Grid ==> material_id_of(l) == "builtin.grid"@,
        c.style == CrosshairStyle::EdgeRect ==> material_id_of(l) == "builtin.edge_rect"@,
        c.style == CrosshairStyle::CustomImage ==> material_id_of(l) == "builtin.image"@,
        l.material is Builtin,
        forall|k: int| 0 <= k < 4 ==> #[trigger] l.style.color[k].bits == c.color[k].bits,
        l.style.opacity.bits == c.opacity.bits,
        l.visible && !l.locked,
{
    assert forall|k: int| 0 <= k < 4 implies #[trigger] l.style.color[k].bits == c.color[k].bits by {
        assert(k == 0 || k == 1 || k == 2 || k == 3);
    }
}

} // verus!
