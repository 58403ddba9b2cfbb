//! Layers: a material instance with its parameters, transform and style.

use vstd::prelude::*;
use crate::float_bits::{F32, f32_of, F32_0, F32_0_6, F32_1};
use crate::schema::{BlendMode, MaterialRef};

verus! {

/// A JSON value as held in layer parameters. Numbers keep their source
/// representation: signed and unsigned integers, binary32 values (from
/// configuration fields) and binary64 values (from JSON files), both as bit
/// patterns.
#[derive(Debug)]
pub enum ParamValue {
    Null,
    Bool(bool),
    Int(i64),
    UInt(u64),
    Float32(F32),
    Float64(u64),
    Str(String),
    Array(Vec<ParamValue>),
    Object(Vec<(String, ParamValue)>),
}

/// The model of a scalar parameter value.
pub enum ScalarModel {
    Bool(bool),
    Int(i64),
    UInt(u64),
    Float32(u32),
    Str(Seq<char>),
}

/// The model of a value that is a scalar other than null; `None` otherwise.
pub open spec fn scalar_model(v: ParamValue) -> Option<ScalarModel> {
    match v {
        ParamValue::Bool(b) => Some(ScalarModel::Bool(b)),
        ParamValue::Int(i) => Some(ScalarModel::Int(i)),
        ParamValue::UInt(u) => Some(ScalarModel::UInt(u)),
        ParamValue::Float32(f) => Some(ScalarModel::Float32(f.bits)),
        ParamValue::Str(s) => Some(ScalarModel::Str(s@)),
        _ => None,
    }
}

/// The entries of an object whose values are all scalars, as models.
pub open spec fn entries_model(e: Seq<(String, ParamValue)>) -> Seq<(Seq<char>, Option<ScalarModel>)> {
    e.map_values(|p: (String, ParamValue)| (p.0@, scalar_model(p.1)))
}

/// Layer colour, opacity and blend mode.
#[derive(Debug, Clone, Copy)]
pub struct LayerStyle {
    /// RGBA colour, channels in `0.0..=1.0`.
    pub color: [F32; 4],
    /// Layer opacity in `0.0..=1.0`.
    pub opacity: F32,
    /// Blend mode.
    pub blend_mode: BlendMode,
}

impl LayerStyle {
    /// White, opacity 0.6, normal blending.
    pub fn default_style() -> (s: Self)
        ensures
            s.color[0].bits == F32_1 && s.color[1].bits == F32_1 && s.color[2].bits == F32_1
                && s.color[3].bits == F32_1,
            s.opacity.bits == F32_0_6,
            s.blend_mode == BlendMode::Normal,
    {
        LayerStyle {
            color: [f32_of(F32_1), f32_of(F32_1), f32_of(F32_1), f32_of(F32_1)],
            opacity: f32_of(F32_0_6),
            blend_mode: BlendMode::Normal,
        }
    }
}

impl Default for LayerStyle {
    fn default() -> (s: Self)
        ensures
            s.color[0].bits == F32_1 && s.color[1].bits == F32_1 && s.color[2].bits == F32_1
                && s.color[3].bits == F32_1,
            s.opacity.bits == F32_0_6,
            s.blend_mode == BlendMode::Normal,
    {
        LayerStyle::default_style()
    }
}

/// Translation, uniform scale and rotation applied to a layer's elements.
#[derive(Debug, Clone, Copy)]
pub struct Transform2D {
    /// X offset in logical pixels.
    pub offset_x: F32,
    /// Y offset in logical pixels.
    pub offset_y: F32,
    /// Uniform scale factor.
    pub scale: F32,
    /// Rotation about the screen centre, in degrees.
    pub rotation_deg: F32,
}

impl Transform2D {
    /// No offset, scale 1, no rotation.
    pub fn identity() -> (t: Self)
        ensures
            t.offset_x.bits == F32_0 && t.offset_y.bits == F32_0 && t.scale.bits == F32_1
                && t.rotation_deg.bits == F32_0,
    {
        Transform2D {
            offset_x: f32_of(F32_0),
            offset_y: f32_of(F32_0),
            scale: f32_of(F32_1),
            rotation_deg: f32_of(F32_0),
        }
    }
}

impl Default for Transform2D {
    fn default() -> (t: Self)
        ensures
            t.offset_x.bits == F32_0 && t.offset_y.bits == F32_0 && t.scale.bits == F32_1
                && t.rotation_deg.bits == F32_0,
    {
        Transform2D::identity()
    }
}

/// A layer: a material instance with parameters, style and transform.
#[derive(Debug)]
pub struct Layer {
    /// Identifier unique within the profile.
    pub id: String,
    /// Display name.
    pub name: String,
    /// The material used.
    pub material: MaterialRef,
    /// Parameters overriding the material defaults (a JSON object).
    pub params: ParamValue,
    /// Colour, opacity and blending.
    pub style: LayerStyle,
    /// Geometric transform.
    pub transform: Transform2D,
    /// Whether the layer is rendered.
    pub visible: bool,
    /// Whether the layer is locked against edits.
    pub locked: bool,
}

/// A layer is visible unless configured otherwise.
pub fn default_layer_visible() -> (b: bool)
    ensures
        b,
{
    true
}

impl Layer {
    /// A new visible, unlocked layer using `material`, with empty
    /// parameters, the default style and the identity transform.
    pub fn new(id: String, name: String, material: MaterialRef) -> (l: Self)
        ensures
            l.id@ == id@,
            l.name@ == name@,
            l.material == material,
            l.params matches ParamValue::Object(e) && e@.len() == 0,
            l.style.color[0].bits == F32_1 && l.style.color[1].bits == F32_1
                && l.style.color[2].bits == F32_1 && l.style.color[3].bits == F32_1,
            l.style.opacity.bits == F32_0_6,
            l.style.blend_mode == BlendMode::Normal,
            l.transform.offset_x.bits == F32_0 && l.transform.offset_y.bits == F32_0
                && l.transform.scale.bits == F32_1 && l.transform.rotation_deg.bits == F32_0,
            l.visible,
            !l.locked,
    {
        Layer {
            id,
            name,
            material,
            params: ParamValue::Object(Vec::new()),
            style: LayerStyle::default_style(),
            transform: Transform2D::identity(),
            visible: default_layer_visible(),
            locked: false,
        }
    }
}

} // verus!
