//! The visual-anchor configuration: fields, per-style defaults and the
//! validation rules.

use vstd::prelude::*;
use crate::error::ConfigError;
use crate::float_bits::{f32_in_range, f32_le, f32_lt};
use crate::float_bits::{F32, f32_of, F32_0,F32_0_01,F32_0_03,F32_0_05,F32_0_06,F32_0_08,F32_0_1,F32_0_2,F32_0_3,F32_0_35,F32_0_5,F32_0_6,F32_0_7,F32_0_8,F32_0_9,F32_1,F32_2,F32_3,F32_4,F32_6,F32_10,F32_12,F32_16,F32_24,F32_30,F32_40,F32_48,F32_60,F32_64,F32_80,F32_100,F32_120,F32_180,F32_500};
use crate::schema::{Anchor, BorderFrameStyle, CrosshairStyle, GridAlignment, OrbPosition, RandomOrbMode, RingStyle};

verus! {

/// Visual anchor settings. Floating-point fields hold binary32 bit patterns.
#[derive(Debug)]
pub struct Crosshair {
    /// Style of the visual anchor.
    pub style: CrosshairStyle,
    /// Main size in pixels (edge rectangle width, cross arm length, orb limit).
    pub size: F32,
    /// Secondary size in pixels (edge rectangle height).
    pub secondary_size: F32,
    /// Line or dot thickness in pixels.
    pub thickness: F32,
    /// Orb radius in pixels; zero falls back to a multiple of the thickness.
    pub radius: F32,
    /// Distance of orbs and frames from the screen edge, in pixels.
    pub offset: F32,
    /// RGBA colour, each channel in `0.0..=1.0`.
    pub color: [F32; 4],
    /// Opacity, `0.0` transparent to `1.0` opaque.
    pub opacity: F32,
    /// Centre gap in pixels.
    pub gap: F32,
    /// Corner radius of the edge rectangle, in pixels.
    pub corner_radius: F32,
    /// Edge the edge rectangle is attached to.
    pub anchor: Anchor,
    /// Margin of the edge rectangle from its edge, in pixels.
    pub margin: F32,
    /// Ring radius as a fraction of the screen height.
    pub ring_radius_pct: F32,
    /// Ring line style.
    pub ring_style: RingStyle,
    /// Enabled preset orb positions.
    pub orb_positions: OrbPosition,
    /// Random orb mode.
    pub random_mode: RandomOrbMode,
    /// Random offset range around the screen centre.
    pub random_center_deviation: F32,
    /// Smallest random orb radius, in pixels.
    pub random_radius_min: F32,
    /// Largest random orb radius, in pixels.
    pub random_radius_max: F32,
    /// Locked random orb offset X (zero: not generated).
    pub random_orb_x: F32,
    /// Locked random orb offset Y (zero: not generated).
    pub random_orb_y: F32,
    /// Border frame variant.
    pub border_frame_style: BorderFrameStyle,
    /// Whether the frame bars sit inside the screen.
    pub border_inset: bool,
    /// Orbs on the top edge.
    pub custom_orb_top_count: u32,
    /// Orbs on the bottom edge.
    pub custom_orb_bottom_count: u32,
    /// Orbs on the left edge.
    pub custom_orb_left_count: u32,
    /// Orbs on the right edge.
    pub custom_orb_right_count: u32,
    /// Random orbs per edge.
    pub random_orb_count: u32,
    /// Fixed distance of random orbs from the edge, in pixels.
    pub random_orb_offset: F32,
    /// Random jitter of orb positions, in pixels.
    pub random_orb_jitter: F32,
    /// PNG path of the custom image (empty: none chosen).
    pub image_path: String,
    /// Custom image scale (1.0 = the image's own size).
    pub image_scale: F32,
    /// Custom image offset X from the centre.
    pub image_offset_x: F32,
    /// Custom image offset Y from the centre.
    pub image_offset_y: F32,
    /// Arrow distance from the screen edge, in pixels.
    pub arrow_distance: F32,
    /// Arrow tail width (zero: the arrow size).
    pub arrow_width: F32,
    /// Whether each edge has its own tail length.
    pub arrow_tail_per_edge: bool,
    /// Top tail length.
    pub arrow_tail_top: F32,
    /// Bottom tail length.
    pub arrow_tail_bottom: F32,
    /// Left tail length.
    pub arrow_tail_left: F32,
    /// Right tail length.
    pub arrow_tail_right: F32,
    /// Grid cell width in pixels.
    pub grid_size: F32,
    /// Grid alignment.
    pub grid_alignment: GridAlignment,
}

/// Whether `c` holds the defaults of `style` (an empty image path included).
pub open spec fn is_style_default(c: Crosshair, style: CrosshairStyle) -> bool {
    style_fields_default(c, style) && c.image_path@.len() == 0
}

/// Whether every field of `c` but the image path holds the defaults of
/// `style`: the common base values with the style's recommended overrides.
pub open spec fn style_fields_default(c: Crosshair, style: CrosshairStyle) -> bool {
    &&& c.style == style
    &&& c.color[0].bits == F32_1
    &&& c.color[1].bits == F32_1
    &&& c.color[2].bits == F32_1
    &&& c.color[3].bits == F32_1
    &&& match style {
        CrosshairStyle::EdgeRect => {
            &&& c.size.bits == F32_180
            &&& c.secondary_size.bits == F32_24
            &&& c.thickness.bits == F32_4
            &&& c.radius.bits == F32_0
            &&& c.offset.bits == F32_0
            &&& c.opacity.bits == F32_0_6
            &&& c.gap.bits == F32_4
            &&& c.corner_radius.bits == F32_12
            &&& c.anchor == Anchor::Top
            &&& c.margin.bits == F32_16
            &&& c.ring_radius_pct.bits == F32_0_05
            &&& c.ring_style == RingStyle::Solid
            &&& c.orb_positions.0 == 3
            &&& c.random_mode == RandomOrbMode::LockOnStart
            &&& c.random_center_deviation.bits == F32_0_2
            &&& c.random_radius_min.bits == F32_4
            &&& c.random_radius_max.bits == F32_12
            &&& c.random_orb_x.bits == F32_0
            &&& c.random_orb_y.bits == F32_0
            &&& c.border_frame_style == BorderFrameStyle::Solid
            &&& c.border_inset == true
            &&& c.custom_orb_top_count == 3
            &&& c.custom_orb_bottom_count == 3
            &&& c.custom_orb_left_count == 3
            &&& c.custom_orb_right_count == 3
            &&& c.random_orb_count == 3
            &&& c.random_orb_offset.bits == F32_100
            &&& c.random_orb_jitter.bits == F32_40
            &&& c.image_scale.bits == F32_1
            &&& c.image_offset_x.bits == F32_0
            &&& c.image_offset_y.bits == F32_0
            &&& c.arrow_distance.bits == F32_0
            &&& c.arrow_width.bits == F32_0
            &&& c.arrow_tail_per_edge == false
            &&& c.arrow_tail_top.bits == F32_0
            &&& c.arrow_tail_bottom.bits == F32_0
            &&& c.arrow_tail_left.bits == F32_0
            &&& c.arrow_tail_right.bits == F32_0
            &&& c.grid_size.bits == F32_80
            &&& c.grid_alignment == GridAlignment::Center
        },
        CrosshairStyle::Cross => {
            &&& c.size.bits == F32_24
            &&& c.secondary_size.bits == F32_80
            &&& c.thickness.bits == F32_2
            &&& c.radius.bits == F32_0
            &&& c.offset.bits == F32_0
            &&& c.opacity.bits == F32_0_8
            &&& c.gap.bits == F32_4
            &&& c.corner_radius.bits == F32_4
            &&& c.anchor == Anchor::Top
            &&& c.margin.bits == F32_0
            &&& c.ring_radius_pct.bits == F32_0_05
            &&& c.ring_style == RingStyle::Solid
            &&& c.orb_positions.0 == 3
            &&& c.random_mode == RandomOrbMode::LockOnStart
            &&& c.random_center_deviation.bits == F32_0_2
            &&& c.random_radius_min.bits == F32_4
            &&& c.random_radius_max.bits == F32_12
            &&& c.random_orb_x.bits == F32_0
            &&& c.random_orb_y.bits == F32_0
            &&& c.border_frame_style == BorderFrameStyle::Solid
            &&& c.border_inset == true
            &&& c.custom_orb_top_count == 3
            &&& c.custom_orb_bottom_count == 3
            &&& c.custom_orb_left_count == 3
            &&& c.custom_orb_right_count == 3
            &&& c.random_orb_count == 3
            &&& c.random_orb_offset.bits == F32_100
            &&& c.random_orb_jitter.bits == F32_40
            &&& c.image_scale.bits == F32_1
            &&& c.image_offset_x.bits == F32_0
            &&& c.image_offset_y.bits == F32_0
            &&& c.arrow_distance.bits == F32_0
            &&& c.arrow_width.bits == F32_0
            &&& c.arrow_tail_per_edge == false
            &&& c.arrow_tail_top.bits == F32_0
            &&& c.arrow_tail_bottom.bits == F32_0
            &&& c.arrow_tail_left.bits == F32_0
            &&& c.arrow_tail_right.bits == F32_0
            &&& c.grid_size.bits == F32_80
            &&& c.grid_alignment == GridAlignment::Center
        },
        CrosshairStyle::LargeCross => {
            &&& c.size.bits == F32_16
            &&& c.secondary_size.bits == F32_80
            &&& c.thickness.bits == F32_2
            &&& c.radius.bits == F32_0
            &&& c.offset.bits == F32_0
            &&& c.opacity.bits == F32_0_5
            &&& c.gap.bits == F32_4
            &&& c.corner_radius.bits == F32_4
            &&& c.anchor == Anchor::Top
            &&& c.margin.bits == F32_0
            &&& c.ring_radius_pct.bits == F32_0_05
            &&& c.ring_style == RingStyle::Solid
            &&& c.orb_positions.0 == 3
            &&& c.random_mode == RandomOrbMode::LockOnStart
            &&& c.random_center_deviation.bits == F32_0_2
            &&& c.random_radius_min.bits == F32_4
            &&& c.random_radius_max.bits == F32_12
            &&& c.random_orb_x.bits == F32_0
            &&& c.random_orb_y.bits == F32_0
            &&& c.border_frame_style == BorderFrameStyle::Solid
            &&& c.border_inset == true
            &&& c.custom_orb_top_count == 3
            &&& c.custom_orb_bottom_count == 3
            &&& c.custom_orb_left_count == 3
            &&& c.custom_orb_right_count == 3
            &&& c.random_orb_count == 3
            &&& c.random_orb_offset.bits == F32_100
            &&& c.random_orb_jitter.bits == F32_40
            &&& c.image_scale.bits == F32_1
            &&& c.image_offset_x.bits == F32_0
            &&& c.image_offset_y.bits == F32_0
            &&& c.arrow_distance.bits == F32_0
            &&& c.arrow_width.bits == F32_0
            &&& c.arrow_tail_per_edge == false
            &&& c.arrow_tail_top.bits == F32_0
            &&& c.arrow_tail_bottom.bits == F32_0
            &&& c.arrow_tail_left.bits == F32_0
            &&& c.arrow_tail_right.bits == F32_0
            &&& c.grid_size.bits == F32_80
            &&& c.grid_alignment == GridAlignment::Center
        },
        CrosshairStyle::CornerDots4 | CrosshairStyle::CornerDots6 | CrosshairStyle::CornerDots8 => {
            &&& c.size.bits == F32_16
            &&& c.secondary_size.bits == F32_80
            &&& c.thickness.bits == F32_3
            &&& c.radius.bits == F32_0
            &&& c.offset.bits == F32_40
            &&& c.opacity.bits == F32_0_7
            &&& c.gap.bits == F32_4
            &&& c.corner_radius.bits == F32_4
            &&& c.anchor == Anchor::Top
            &&& c.margin.bits == F32_0
            &&& c.ring_radius_pct.bits == F32_0_05
            &&& c.ring_style == RingStyle::Solid
            &&& c.orb_positions.0 == 3
            &&& c.random_mode == RandomOrbMode::LockOnStart
            &&& c.random_center_deviation.bits == F32_0_2
            &&& c.random_radius_min.bits == F32_4
            &&& c.random_radius_max.bits == F32_12
            &&& c.random_orb_x.bits == F32_0
            &&& c.random_orb_y.bits == F32_0
            &&& c.border_frame_style == BorderFrameStyle::Solid
            &&& c.border_inset == true
            &&& c.custom_orb_top_count == 3
            &&& c.custom_orb_bottom_count == 3
            &&& c.custom_orb_left_count == 3
            &&& c.custom_orb_right_count == 3
            &&& c.random_orb_count == 3
            &&& c.random_orb_offset.bits == F32_100
            &&& c.random_orb_jitter.bits == F32_40
            &&& c.image_scale.bits == F32_1
            &&& c.image_offset_x.bits == F32_0
            &&& c.image_offset_y.bits == F32_0
            &&& c.arrow_distance.bits == F32_0
            &&& c.arrow_width.bits == F32_0
            &&& c.arrow_tail_per_edge == false
            &&& c.arrow_tail_top.bits == F32_0
            &&& c.arrow_tail_bottom.bits == F32_0
            &&& c.arrow_tail_left.bits == F32_0
            &&& c.arrow_tail_right.bits == F32_0
            &&& c.grid_size.bits == F32_80
            &&& c.grid_alignment == GridAlignment::Center
        },
        CrosshairStyle::Ring => {
            &&& c.size.bits == F32_16
            &&& c.secondary_size.bits == F32_80
            &&& c.thickness.bits == F32_2
            &&& c.radius.bits == F32_0
            &&& c.offset.bits == F32_0
            &&& c.opacity.bits == F32_0_8
            &&& c.gap.bits == F32_4
            &&& c.corner_radius.bits == F32_4
            &&& c.anchor == Anchor::Top
            &&& c.margin.bits == F32_0
            &&& c.ring_radius_pct.bits == F32_0_06
            &&& c.ring_style == RingStyle::Solid
            &&& c.orb_positions.0 == 3
            &&& c.random_mode == RandomOrbMode::LockOnStart
            &&& c.random_center_deviation.bits == F32_0_2
            &&& c.random_radius_min.bits == F32_4
            &&& c.random_radius_max.bits == F32_12
            &&& c.random_orb_x.bits == F32_0
            &&& c.random_orb_y.bits == F32_0
            &&& c.border_frame_style == BorderFrameStyle::Solid
            &&& c.border_inset == true
            &&& c.custom_orb_top_count == 3
            &&& c.custom_orb_bottom_count == 3
            &&& c.custom_orb_left_count == 3
            &&& c.custom_orb_right_count == 3
            &&& c.random_orb_count == 3
            &&& c.random_orb_offset.bits == F32_100
            &&& c.random_orb_jitter.bits == F32_40
            &&& c.image_scale.bits == F32_1
            &&& c.image_offset_x.bits == F32_0
            &&& c.image_offset_y.bits == F32_0
            &&& c.arrow_distance.bits == F32_0
            &&& c.arrow_width.bits == F32_0
            &&& c.arrow_tail_per_edge == false
            &&& c.arrow_tail_top.bits == F32_0
            &&& c.arrow_tail_bottom.bits == F32_0
            &&& c.arrow_tail_left.bits == F32_0
            &&& c.arrow_tail_right.bits == F32_0
            &&& c.grid_size.bits == F32_80
            &&& c.grid_alignment == GridAlignment::Center
        },
        CrosshairStyle::CustomOrb => {
            &&& c.size.bits == F32_16
            &&& c.secondary_size.bits == F32_80
            &&& c.thickness.bits == F32_2
            &&& c.radius.bits == F32_6
            &&& c.offset.bits == F32_30
            &&& c.opacity.bits == F32_0_7
            &&& c.gap.bits == F32_4
            &&& c.corner_radius.bits == F32_4
            &&& c.anchor == Anchor::Top
            &&& c.margin.bits == F32_0
            &&& c.ring_radius_pct.bits == F32_0_05
            &&& c.ring_style == RingStyle::Solid
            &&& c.orb_positions.0 == 3
            &&& c.random_mode == RandomOrbMode::LockOnStart
            &&& c.random_center_deviation.bits == F32_0_2
            &&& c.random_radius_min.bits == F32_4
            &&& c.random_radius_max.bits == F32_12
            &&& c.random_orb_x.bits == F32_0
            &&& c.random_orb_y.bits == F32_0
            &&& c.border_frame_style == BorderFrameStyle::Solid
            &&& c.border_inset == true
            &&& c.custom_orb_top_count == 3
            &&& c.custom_orb_bottom_count == 3
            &&& c.custom_orb_left_count == 3
            &&& c.custom_orb_right_count == 3
            &&& c.random_orb_count == 3
            &&& c.random_orb_offset.bits == F32_100
            &&& c.random_orb_jitter.bits == F32_40
            &&& c.image_scale.bits == F32_1
            &&& c.image_offset_x.bits == F32_0
            &&& c.image_offset_y.bits == F32_0
            &&& c.arrow_distance.bits == F32_0
            &&& c.arrow_width.bits == F32_0
            &&& c.arrow_tail_per_edge == false
            &&& c.arrow_tail_top.bits == F32_0
            &&& c.arrow_tail_bottom.bits == F32_0
            &&& c.arrow_tail_left.bits == F32_0
            &&& c.arrow_tail_right.bits == F32_0
            &&& c.grid_size.bits == F32_80
            &&& c.grid_alignment == GridAlignment::Center
        },
        CrosshairStyle::RandomOrb => {
            &&& c.size.bits == F32_16
            &&& c.secondary_size.bits == F32_80
            &&& c.thickness.bits == F32_2
            &&& c.radius.bits == F32_0
            &&& c.offset.bits == F32_0
            &&& c.opacity.bits == F32_0_6
            &&& c.gap.bits == F32_4
            &&& c.corner_radius.bits == F32_4
            &&& c.anchor == Anchor::Top
            &&& c.margin.bits == F32_0
            &&& c.ring_radius_pct.bits == F32_0_05
            &&& c.ring_style == RingStyle::Solid
            &&& c.orb_positions.0 == 3
            &&& c.random_mode == RandomOrbMode::LockOnStart
            &&& c.random_center_deviation.bits == F32_0_2
            &&& c.random_radius_min.bits == F32_4
            &&& c.random_radius_max.bits == F32_10
            &&& c.random_orb_x.bits == F32_0
            &&& c.random_orb_y.bits == F32_0
            &&& c.border_frame_style == BorderFrameStyle::Solid
            &&& c.border_inset == true
            &&& c.custom_orb_top_count == 3
            &&& c.custom_orb_bottom_count == 3
            &&& c.custom_orb_left_count == 3
            &&& c.custom_orb_right_count == 3
            &&& c.random_orb_count == 3
            &&& c.random_orb_offset.bits == F32_80
            &&& c.random_orb_jitter.bits == F32_30
            &&& c.image_scale.bits == F32_1
            &&& c.image_offset_x.bits == F32_0
            &&& c.image_offset_y.bits == F32_0
            &&& c.arrow_distance.bits == F32_0
            &&& c.arrow_width.bits == F32_0
            &&& c.arrow_tail_per_edge == false
            &&& c.arrow_tail_top.bits == F32_0
            &&& c.arrow_tail_bottom.bits == F32_0
            &&& c.arrow_tail_left.bits == F32_0
            &&& c.arrow_tail_right.bits == F32_0
            &&& c.grid_size.bits == F32_80
            &&& c.grid_alignment == GridAlignment::Center
        },
        CrosshairStyle::BorderFrame => {
            &&& c.size.bits == F32_16
            &&& c.secondary_size.bits == F32_80
            &&& c.thickness.bits == F32_6
            &&& c.radius.bits == F32_0
            &&& c.offset.bits == F32_24
            &&& c.opacity.bits == F32_0_5
            &&& c.gap.bits == F32_4
            &&& c.corner_radius.bits == F32_4
            &&& c.anchor == Anchor::Top
            &&& c.margin.bits == F32_0
            &&& c.ring_radius_pct.bits == F32_0_05
            &&& c.ring_style == RingStyle::Solid
            &&& c.orb_positions.0 == 3
            &&& c.random_mode == RandomOrbMode::LockOnStart
            &&& c.random_center_deviation.bits == F32_0_2
            &&& c.random_radius_min.bits == F32_4
            &&& c.random_radius_max.bits == F32_12
            &&& c.random_orb_x.bits == F32_0
            &&& c.random_orb_y.bits == F32_0
            &&& c.border_frame_style == BorderFrameStyle::Solid
            &&& c.border_inset == false
            &&& c.custom_orb_top_count == 3
            &&& c.custom_orb_bottom_count == 3
            &&& c.custom_orb_left_count == 3
            &&& c.custom_orb_right_count == 3
            &&& c.random_orb_count == 3
            &&& c.random_orb_offset.bits == F32_100
            &&& c.random_orb_jitter.bits == F32_40
            &&& c.image_scale.bits == F32_1
            &&& c.image_offset_x.bits == F32_0
            &&& c.image_offset_y.bits == F32_0
            &&& c.arrow_distance.bits == F32_0
            &&& c.arrow_width.bits == F32_0
            &&& c.arrow_tail_per_edge == false
            &&& c.arrow_tail_top.bits == F32_0
            &&& c.arrow_tail_bottom.bits == F32_0
            &&& c.arrow_tail_left.bits == F32_0
            &&& c.arrow_tail_right.bits == F32_0
            &&& c.grid_size.bits == F32_80
            &&& c.grid_alignment == GridAlignment::Center
        },
        CrosshairStyle::EdgeArrows => {
            &&& c.size.bits == F32_16
            &&& c.secondary_size.bits == F32_80
            &&& c.thickness.bits == F32_2
            &&& c.radius.bits == F32_0
            &&& c.offset.bits == F32_0
            &&& c.opacity.bits == F32_0_7
            &&& c.gap.bits == F32_4
            &&& c.corner_radius.bits == F32_4
            &&& c.anchor == Anchor::Top
            &&& c.margin.bits == F32_0
            &&& c.ring_radius_pct.bits == F32_0_05
            &&& c.ring_style == RingStyle::Solid
            &&& c.orb_positions.0 == 0
            &&& c.random_mode == RandomOrbMode::LockOnStart
            &&& c.random_center_deviation.bits == F32_0_2
            &&& c.random_radius_min.bits == F32_4
            &&& c.random_radius_max.bits == F32_12
            &&& c.random_orb_x.bits == F32_0
            &&& c.random_orb_y.bits == F32_0
            &&& c.border_frame_style == BorderFrameStyle::Solid
            &&& c.border_inset == true
            &&& c.custom_orb_top_count == 3
            &&& c.custom_orb_bottom_count == 3
            &&& c.custom_orb_left_count == 3
            &&& c.custom_orb_right_count == 3
            &&& c.random_orb_count == 3
            &&& c.random_orb_offset.bits == F32_100
            &&& c.random_orb_jitter.bits == F32_40
            &&& c.image_scale.bits == F32_1
            &&& c.image_offset_x.bits == F32_0
            &&& c.image_offset_y.bits == F32_0
            &&& c.arrow_distance.bits == F32_60
            &&& c.arrow_width.bits == F32_0
            &&& c.arrow_tail_per_edge == false
            &&& c.arrow_tail_top.bits == F32_0
            &&& c.arrow_tail_bottom.bits == F32_0
            &&& c.arrow_tail_left.bits == F32_0
            &&& c.arrow_tail_right.bits == F32_0
            &&& c.grid_size.bits == F32_80
            &&& c.grid_alignment == GridAlignment::Center
        },
        CrosshairStyle::Grid => {
            &&& c.size.bits == F32_16
            &&& c.secondary_size.bits == F32_80
            &&& c.thickness.bits == F32_2
            &&& c.radius.bits == F32_0
            &&& c.offset.bits == F32_0
            &&& c.opacity.bits == F32_0_35
            &&& c.gap.bits == F32_4
            &&& c.corner_radius.bits == F32_4
            &&& c.anchor == Anchor::Top
            &&& c.margin.bits == F32_0
            &&& c.ring_radius_pct.bits == F32_0_05
            &&& c.ring_style == RingStyle::Solid
            &&& c.orb_positions.0 == 3
            &&& c.random_mode == RandomOrbMode::LockOnStart
            &&& c.random_center_deviation.bits == F32_0_2
            &&& c.random_radius_min.bits == F32_4
            &&& c.random_radius_max.bits == F32_12
            &&& c.random_orb_x.bits == F32_0
            &&& c.random_orb_y.bits == F32_0
            &&& c.border_frame_style == BorderFrameStyle::Solid
            &&& c.border_inset == true
            &&& c.custom_orb_top_count == 3
            &&& c.custom_orb_bottom_count == 3
            &&& c.custom_orb_left_count == 3
            &&& c.custom_orb_right_count == 3
            &&& c.random_orb_count == 3
            &&& c.random_orb_offset.bits == F32_100
            &&& c.random_orb_jitter.bits == F32_40
            &&& c.image_scale.bits == F32_1
            &&& c.image_offset_x.bits == F32_0
            &&& c.image_offset_y.bits == F32_0
            &&& c.arrow_distance.bits == F32_0
            &&& c.arrow_width.bits == F32_0
            &&& c.arrow_tail_per_edge == false
            &&& c.arrow_tail_top.bits == F32_0
            &&& c.arrow_tail_bottom.bits == F32_0
            &&& c.arrow_tail_left.bits == F32_0
            &&& c.arrow_tail_right.bits == F32_0
            &&& c.grid_size.bits == F32_120
            &&& c.grid_alignment == GridAlignment::Center
        },
        CrosshairStyle::CustomImage => {
            &&& c.size.bits == F32_64
            &&& c.secondary_size.bits == F32_80
            &&& c.thickness.bits == F32_2
            &&& c.radius.bits == F32_0
            &&& c.offset.bits == F32_0
            &&& c.opacity.bits == F32_0_9
            &&& c.gap.bits == F32_4
            &&& c.corner_radius.bits == F32_4
            &&& c.anchor == Anchor::Top
            &&& c.margin.bits == F32_0
            &&& c.ring_radius_pct.bits == F32_0_05
            &&& c.ring_style == RingStyle::Solid
            &&& c.orb_positions.0 == 3
            &&& c.random_mode == RandomOrbMode::LockOnStart
            &&& c.random_center_deviation.bits == F32_0_2
            &&& c.random_radius_min.bits == F32_4
            &&& c.random_radius_max.bits == F32_12
            &&& c.random_orb_x.bits == F32_0
            &&& c.random_orb_y.bits == F32_0
            &&& c.border_frame_style == BorderFrameStyle::Solid
            &&& c.border_inset == true
            &&& c.custom_orb_top_count == 3
            &&& c.custom_orb_bottom_count == 3
            &&& c.custom_orb_left_count == 3
            &&& c.custom_orb_right_count == 3
            &&& c.random_orb_count == 3
            &&& c.random_orb_offset.bits == F32_100
            &&& c.random_orb_jitter.bits == F32_40
            &&& c.image_scale.bits == F32_1
            &&& c.image_offset_x.bits == F32_0
            &&& c.image_offset_y.bits == F32_0
            &&& c.arrow_distance.bits == F32_0
            &&& c.arrow_width.bits == F32_0
            &&& c.arrow_tail_per_edge == false
            &&& c.arrow_tail_top.bits == F32_0
            &&& c.arrow_tail_bottom.bits == F32_0
            &&& c.arrow_tail_left.bits == F32_0
            &&& c.arrow_tail_right.bits == F32_0
            &&& c.grid_size.bits == F32_80
            &&& c.grid_alignment == GridAlignment::Center
        },
    }
}
impl Crosshair {
    /// Defaults for `style`: a common base with the style's recommended
    /// overrides, so that switching style never keeps unusable sizes.
    pub fn default_for_style(style: CrosshairStyle) -> (c: Self)
        ensures
            is_style_default(c, style),
    {
        let mut c = Crosshair {
            style,
            size: f32_of(F32_16),
            secondary_size: f32_of(F32_80),
            thickness: f32_of(F32_2),
            radius: f32_of(F32_0),
            offset: f32_of(F32_0),
            color: [f32_of(F32_1), f32_of(F32_1), f32_of(F32_1), f32_of(F32_1)],
            opacity: f32_of(F32_0_6),
            gap: f32_of(F32_4),
            corner_radius: f32_of(F32_4),
            anchor: Anchor::Top,
            margin: f32_of(F32_0),
            ring_radius_pct: f32_of(F32_0_05),
            ring_style: RingStyle::Solid,
            orb_positions: OrbPosition(3),
            random_mode: RandomOrbMode::LockOnStart,
            random_center_deviation: f32_of(F32_0_2),
            random_radius_min: f32_of(F32_4),
            random_radius_max: f32_of(F32_12),
            random_orb_x: f32_of(F32_0),
            random_orb_y: f32_of(F32_0),
            border_frame_style: BorderFrameStyle::Solid,
            border_inset: true,
            custom_orb_top_count: 3,
            custom_orb_bottom_count: 3,
            custom_orb_left_count: 3,
            custom_orb_right_count: 3,
            random_orb_count: 3,
            random_orb_offset: f32_of(F32_100),
            random_orb_jitter: f32_of(F32_40),
            image_path: String::new(),
            image_scale: f32_of(F32_1),
            image_offset_x: f32_of(F32_0),
            image_offset_y: f32_of(F32_0),
            arrow_distance: f32_of(F32_0),
            arrow_width: f32_of(F32_0),
            arrow_tail_per_edge: false,
            arrow_tail_top: f32_of(F32_0),
            arrow_tail_bottom: f32_of(F32_0),
            arrow_tail_left: f32_of(F32_0),
            arrow_tail_right: f32_of(F32_0),
            grid_size: f32_of(F32_80),
            grid_alignment: GridAlignment::Center,
        };
        match style {
            CrosshairStyle::EdgeRect => {
                c.size = f32_of(F32_180);
                c.secondary_size = f32_of(F32_24);
                c.thickness = f32_of(F32_4);
                c.anchor = Anchor::Top;
                c.margin = f32_of(F32_16);
                c.corner_radius = f32_of(F32_12);
            },
            CrosshairStyle::Cross => {
                c.size = f32_of(F32_24);
                c.thickness = f32_of(F32_2);
                c.gap = f32_of(F32_4);
                c.opacity = f32_of(F32_0_8);
            },
            CrosshairStyle::LargeCross => {
                c.thickness = f32_of(F32_2);
                c.opacity = f32_of(F32_0_5);
            },
            CrosshairStyle::CornerDots4 | CrosshairStyle::CornerDots6 | CrosshairStyle::CornerDots8 => {
                c.offset = f32_of(F32_40);
                c.thickness = f32_of(F32_3);
                c.radius = f32_of(F32_0);
                c.opacity = f32_of(F32_0_7);
            },
            CrosshairStyle::Ring => {
                c.thickness = f32_of(F32_2);
                c.ring_radius_pct = f32_of(F32_0_06);
                c.ring_style = RingStyle::Solid;
                c.opacity = f32_of(F32_0_8);
            },
            CrosshairStyle::CustomOrb => {
                c.radius = f32_of(F32_6);
                c.offset = f32_of(F32_30);
                c.orb_positions = OrbPosition(3);
                c.custom_orb_top_count = 3;
                c.custom_orb_bottom_count = 3;
                c.custom_orb_left_count = 3;
                c.custom_orb_right_count = 3;
                c.opacity = f32_of(F32_0_7);
            },
            CrosshairStyle::RandomOrb => {
                c.random_orb_count = 3;
                c.random_orb_offset = f32_of(F32_80);
                c.random_orb_jitter = f32_of(F32_30);
                c.random_radius_min = f32_of(F32_4);
                c.random_radius_max = f32_of(F32_10);
                c.opacity = f32_of(F32_0_6);
            },
            CrosshairStyle::BorderFrame => {
                c.thickness = f32_of(F32_6);
                c.offset = f32_of(F32_24);
                c.border_frame_style = BorderFrameStyle::Solid;
                c.border_inset = false;
                c.opacity = f32_of(F32_0_5);
            },
            CrosshairStyle::EdgeArrows => {
                c.size = f32_of(F32_16);
                c.arrow_distance = f32_of(F32_60);
                c.arrow_width = f32_of(F32_0);
                c.arrow_tail_per_edge = false;
                c.orb_positions = OrbPosition(0);
                c.opacity = f32_of(F32_0_7);
            },
            CrosshairStyle::Grid => {
                c.grid_size = f32_of(F32_120);
                c.thickness = f32_of(F32_2);
                c.grid_alignment = GridAlignment::Center;
                c.opacity = f32_of(F32_0_35);
            },
            CrosshairStyle::CustomImage => {
                c.size = f32_of(F32_64);
                c.image_scale = f32_of(F32_1);
                c.image_offset_x = f32_of(F32_0);
                c.image_offset_y = f32_of(F32_0);
                c.opacity = f32_of(F32_0_9);
            },
        }
        c
    }

    /// The default anchor: the edge rectangle style.
    pub fn default_crosshair() -> (c: Self)
        ensures
            is_style_default(c, CrosshairStyle::EdgeRect),
    {
        Self::default_for_style(CrosshairStyle::EdgeRect)
    }
}
} // verus!

verus! {

/// `color channel <i> must be in [0.0, 1.0]`.
pub open spec fn color_channel_message(i: int) -> Seq<char> {
    if i == 0 {
        "color channel 0 must be in [0.0, 1.0]"@
    } else if i == 1 {
        "color channel 1 must be in [0.0, 1.0]"@
    } else if i == 2 {
        "color channel 2 must be in [0.0, 1.0]"@
    } else {
        "color channel 3 must be in [0.0, 1.0]"@
    }
}

/// The first colour channel outside `0.0..=1.0`.
pub open spec fn bad_color_channel(c: Crosshair) -> Option<int> {
    if !f32_in_range(c.color[0].bits, F32_0, F32_1) {
        Some(0)
    } else if !f32_in_range(c.color[1].bits, F32_0, F32_1) {
        Some(1)
    } else if !f32_in_range(c.color[2].bits, F32_0, F32_1) {
        Some(2)
    } else if !f32_in_range(c.color[3].bits, F32_0, F32_1) {
        Some(3)
    } else {
        None
    }
}

/// The message of the first validation rule `c` breaks, in rule order, or
/// `None` when it breaks none.
pub open spec fn crosshair_violation(c: Crosshair) -> Option<Seq<char>> {
    if f32_le(c.size.bits, F32_0) {
        Some("crosshair size must be positive"@)
    } else if f32_le(c.secondary_size.bits, F32_0) {
        Some("crosshair secondary_size must be positive"@)
    } else if f32_le(c.thickness.bits, F32_0) {
        Some("crosshair thickness must be positive"@)
    } else if f32_lt(c.radius.bits, F32_0) {
        Some("crosshair radius must be non-negative"@)
    } else if f32_lt(c.offset.bits, F32_0) {
        Some("crosshair offset must be non-negative"@)
    } else if !f32_in_range(c.opacity.bits, F32_0, F32_1) {
        Some("opacity must be in [0.0, 1.0]"@)
    } else if bad_color_channel(c) is Some {
        Some(color_channel_message(bad_color_channel(c)->0))
    } else if f32_lt(c.gap.bits, F32_0) {
        Some("gap must be non-negative"@)
    } else if f32_lt(c.margin.bits, F32_0) {
        Some("margin must be non-negative"@)
    } else if !f32_in_range(c.ring_radius_pct.bits, F32_0_03, F32_0_08) {
        Some("ring_radius_pct must be in [0.03, 0.08]"@)
    } else if !f32_in_range(c.random_center_deviation.bits, F32_0_1, F32_0_3) {
        Some("random_center_deviation must be in [0.1, 0.3]"@)
    } else if f32_le(c.random_radius_min.bits, F32_0) || f32_le(c.random_radius_max.bits, F32_0) {
        Some("random orb radius range must be positive"@)
    } else if f32_lt(c.random_radius_max.bits, c.random_radius_min.bits) {
        Some("random_radius_min must not exceed random_radius_max"@)
    } else if c.custom_orb_top_count == 0 && c.custom_orb_bottom_count == 0
        && c.custom_orb_left_count == 0 && c.custom_orb_right_count == 0 {
        Some("custom orb must have at least one enabled edge"@)
    } else if c.random_orb_count == 0 {
        Some("random orb count must be positive"@)
    } else if f32_lt(c.random_orb_offset.bits, F32_0) || f32_lt(c.random_orb_jitter.bits, F32_0) {
        Some("random orb offset/jitter must be non-negative"@)
    } else if f32_le(c.image_scale.bits, F32_0) {
        Some("image_scale must be positive"@)
    } else if c.style == CrosshairStyle::CustomImage && crate::text::trim(c.image_path@).len() == 0 {
        Some("image_path must not be empty when style is CustomImage"@)
    } else if f32_lt(c.grid_size.bits, F32_10) || f32_lt(F32_500, c.grid_size.bits) {
        Some("grid_size must be in [10, 500]"@)
    } else {
        None
    }
}

fn invalid(msg: &str) -> (r: Result<(), ConfigError>)
    ensures
        r == Err::<(), ConfigError>(ConfigError::Validation(r->Err_0->Validation_0)),
        r->Err_0->Validation_0@ == msg@,
{
    Err(ConfigError::Validation(msg.to_owned()))
}

impl Crosshair {
    /// Checks the field ranges, reporting the first rule broken.
    pub fn validate(&self) -> (r: Result<(), ConfigError>)
        ensures
            r is Ok <==> crosshair_violation(*self) is None,
            r is Err ==> r->Err_0 is Validation && r->Err_0->Validation_0@ == crosshair_violation(*self)->0,
    {
        let zero = f32_of(F32_0);
        let one = f32_of(F32_1);
        if self.size.le(zero) {
            return invalid("crosshair size must be positive");
        }
        if self.secondary_size.le(zero) {
            return invalid("crosshair secondary_size must be positive");
        }
        if self.thickness.le(zero) {
            return invalid("crosshair thickness must be positive");
        }
        if self.radius.lt(zero) {
            return invalid("crosshair radius must be non-negative");
        }
        if self.offset.lt(zero) {
            return invalid("crosshair offset must be non-negative");
        }
        if !self.opacity.in_range(zero, one) {
            return invalid("opacity must be in [0.0, 1.0]");
        }
        if !self.color[0].in_range(zero, one) {
            return invalid("color channel 0 must be in [0.0, 1.0]");
        }
        if !self.color[1].in_range(zero, one) {
            return invalid("color channel 1 must be in [0.0, 1.0]");
        }
        if !self.color[2].in_range(zero, one) {
            return invalid("color channel 2 must be in [0.0, 1.0]");
        }
        if !self.color[3].in_range(zero, one) {
            return invalid("color channel 3 must be in [0.0, 1.0]");
        }
        if self.gap.lt(zero) {
            return invalid("gap must be non-negative");
        }
        if self.margin.lt(zero) {
            return invalid("margin must be non-negative");
        }
        if !self.ring_radius_pct.in_range(f32_of(F32_0_03), f32_of(F32_0_08)) {
            return invalid("ring_radius_pct must be in [0.03, 0.08]");
        }
        if !self.random_center_deviation.in_range(f32_of(F32_0_1), f32_of(F32_0_3)) {
            return invalid("random_center_deviation must be in [0.1, 0.3]");
        }
        if self.random_radius_min.le(zero) || self.random_radius_max.le(zero) {
            return invalid("random orb radius range must be positive");
        }
        if self.random_radius_max.lt(self.random_radius_min) {
            return invalid("random_radius_min must not exceed random_radius_max");
        }
        if self.custom_orb_top_count == 0 && self.custom_orb_bottom_count == 0
            && self.custom_orb_left_count == 0 && self.custom_orb_right_count == 0 {
            return invalid("custom orb must have at least one enabled edge");
        }
        if self.random_orb_count == 0 {
            return invalid("random orb count must be positive");
        }
        if self.random_orb_offset.lt(zero) || self.random_orb_jitter.lt(zero) {
            return invalid("random orb offset/jitter must be non-negative");
        }
        if self.image_scale.le(zero) {
            return invalid("image_scale must be positive");
        }
        if self.style == CrosshairStyle::CustomImage {
            let p = crate::text::chars_of(self.image_path.as_str());
            let t = crate::text::trim_range(&p, 0, p.len());
            proof {
                assert(p@.subrange(0, p@.len() as int) =~= p@);
            }
            if t.len() == 0 {
                return invalid("image_path must not be empty when style is CustomImage");
            }
        }
        if self.grid_size.lt(f32_of(F32_10)) || f32_of(F32_500).lt(self.grid_size) {
            return invalid("grid_size must be in [10, 500]");
        }
        Ok(())
    }
}

} // verus!

verus! {

/// Every style's defaults pass validation, except that the custom image
/// style needs an image path: its defaults fail exactly on that rule, and
/// pass once a path that is not blank is set.
pub proof fn law_style_defaults_validate(c: Crosshair, style: CrosshairStyle)
    requires
        is_style_default(c, style),
    ensures
        style != CrosshairStyle::CustomImage ==> crosshair_violation(c) is None,
        style == CrosshairStyle::CustomImage ==> crosshair_violation(c) == Some(
            "image_path must not be empty when style is CustomImage"@,
        ),
{
    assert(crate::text::trim(Seq::<char>::empty()) =~= Seq::<char>::empty());
}

/// The custom image defaults with a path that is not blank pass validation.
pub proof fn law_custom_image_with_path_validates(c: Crosshair)
    requires
        style_fields_default(c, CrosshairStyle::CustomImage),
        crate::text::trim(c.image_path@).len() > 0,
    ensures
        crosshair_violation(c) is None,
{
}

/// The anchor's field rules, each on its own: a zero or negative size,
/// secondary size, thickness or image scale, a negative radius, offset,
/// gap, margin, orb offset or jitter, an opacity or colour channel outside
/// `[0, 1]`, a ring radius outside `[0.03, 0.08]`, a centre deviation
/// outside `[0.1, 0.3]`, a random radius range that is not positive or is
/// reversed, a custom orb without an edge, no random orbs, a custom image
/// without a path, or a grid size outside `[10, 500]`: each is rejected.
/// An anchor that keeps every rule is accepted.
pub proof fn law_anchor_rules(c: Crosshair)
    ensures
        f32_le(c.size.bits, F32_0) ==> crosshair_violation(c) is Some,
        f32_le(c.secondary_size.bits, F32_0) ==> crosshair_violation(c) is Some,
        f32_le(c.thickness.bits, F32_0) ==> crosshair_violation(c) is Some,
        f32_lt(c.radius.bits, F32_0) ==> crosshair_violation(c) is Some,
        f32_lt(c.offset.bits, F32_0) ==> crosshair_violation(c) is Some,
        !f32_in_range(c.opacity.bits, F32_0, F32_1) ==> crosshair_violation(c) is Some,
        forall|k: int| 0 <= k < 4 && !f32_in_range(#[trigger] c.color[k].bits, F32_0, F32_1) ==> crosshair_violation(c) is Some,
        f32_lt(c.gap.bits, F32_0) ==> crosshair_violation(c) is Some,
        f32_lt(c.margin.bits, F32_0) ==> crosshair_violation(c) is Some,
        !f32_in_range(c.ring_radius_pct.bits, F32_0_03, F32_0_08) ==> crosshair_violation(c) is Some,
        !f32_in_range(c.random_center_deviation.bits, F32_0_1, F32_0_3) ==> crosshair_violation(c) is Some,
        f32_le(c.random_radius_min.bits, F32_0) ==> crosshair_violation(c) is Some,
        f32_le(c.random_radius_max.bits, F32_0) ==> crosshair_violation(c) is Some,
        f32_lt(c.random_radius_max.bits, c.random_radius_min.bits) ==> crosshair_violation(c) is Some,
        c.custom_orb_top_count == 0 && c.custom_orb_bottom_count == 0 && c.custom_orb_left_count == 0
            && c.custom_orb_right_count == 0 ==> crosshair_violation(c) is Some,
        c.random_orb_count == 0 ==> crosshair_violation(c) is Some,
        f32_lt(c.random_orb_offset.bits, F32_0) ==> crosshair_violation(c) is Some,
        f32_lt(c.random_orb_jitter.bits, F32_0) ==> crosshair_violation(c) is Some,
        f32_le(c.image_scale.bits, F32_0) ==> crosshair_violation(c) is Some,
        c.style == CrosshairStyle::CustomImage && crate::text::trim(c.image_path@).len() == 0
            ==> crosshair_violation(c) is Some,
        f32_lt(c.grid_size.bits, F32_10) || f32_lt(F32_500, c.grid_size.bits) ==> crosshair_violation(c) is Some,
        ({
            &&& !f32_le(c.size.bits, F32_0)
            &&& !f32_le(c.secondary_size.bits, F32_0)
            &&& !f32_le(c.thickness.bits, F32_0)
            &&& !f32_lt(c.radius.bits, F32_0)
            &&& !f32_lt(c.offset.bits, F32_0)
            &&& f32_in_range(c.opacity.bits, F32_0, F32_1)
            &&& forall|k: int| 0 <= k < 4 ==> f32_in_range(#[trigger] c.color[k].bits, F32_0, F32_1)
            &&& !f32_lt(c.gap.bits, F32_0)
            &&& !f32_lt(c.margin.bits, F32_0)
            &&& f32_in_range(c.ring_radius_pct.bits, F32_0_03, F32_0_08)
            &&& f32_in_range(c.random_center_deviation.bits, F32_0_1, F32_0_3)
            &&& !f32_le(c.random_radius_min.bits, F32_0)
            &&& !f32_le(c.random_radius_max.bits, F32_0)
            &&& !f32_lt(c.random_radius_max.bits, c.random_radius_min.bits)
            &&& !(c.custom_orb_top_count == 0 && c.custom_orb_bottom_count == 0 && c.custom_orb_left_count == 0
                && c.custom_orb_right_count == 0)
            &&& c.random_orb_count != 0
            &&& !f32_lt(c.random_orb_offset.bits, F32_0)
            &&& !f32_lt(c.random_orb_jitter.bits, F32_0)
            &&& !f32_le(c.image_scale.bits, F32_0)
            &&& !(c.style == CrosshairStyle::CustomImage && crate::text::trim(c.image_path@).len() == 0)
            &&& !f32_lt(c.grid_size.bits, F32_10)
            &&& !f32_lt(F32_500, c.grid_size.bits)
        }) ==> crosshair_violation(c) is None,
{
    assert forall|k: int| 0 <= k < 4 && !f32_in_range(#[trigger] c.color[k].bits, F32_0, F32_1) implies crosshair_violation(c) is Some by {
        if bad_color_channel(c) is None {
            assert(k == 0 || k == 1 || k == 2 || k == 3);
        }
    }
    if forall|k: int| 0 <= k < 4 ==> f32_in_range(#[trigger] c.color[k].bits, F32_0, F32_1) {
        assert(f32_in_range(c.color[0].bits, F32_0, F32_1));
        assert(f32_in_range(c.color[1].bits, F32_0, F32_1));
        assert(f32_in_range(c.color[2].bits, F32_0, F32_1));
        assert(f32_in_range(c.color[3].bits, F32_0, F32_1));
    }
}

} // verus!
