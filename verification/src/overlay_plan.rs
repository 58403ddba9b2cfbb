//! The decisions of one overlay frame: which drawing path it takes, how the
//! evaluated elements split among the rasterisers, and when the frame can
//! be skipped because nothing changed.

use vstd::prelude::*;
use crate::config::Profile;
use crate::element::Element;
use crate::float_bits::F32;
use crate::schema::{CrosshairStyle, RendererBackend};

verus! {

/// Whether the layer (material) renderer is switched on; when off, every
/// profile is drawn through its legacy crosshair.
pub const MATERIAL_RUNTIME_ENABLED: bool = true;

/// Whether dynamic inputs (time, mouse, keys) reach the materials.
pub const MATERIAL_DYNAMIC_INPUT_ENABLED: bool = true;

/// How a frame is drawn.
#[derive(Debug, Clone, Copy, PartialEq, Eq, Structural)]
pub enum FramePlan {
    /// The window has no area: nothing is drawn.
    Nothing,
    /// The profile's layers, evaluated through their materials.
    Layers,
    /// The legacy crosshair's image.
    LegacyImage,
    /// The legacy crosshair through the SVG rasteriser.
    LegacySvg,
    /// The legacy crosshair through the CPU rasteriser.
    LegacyCpu,
}

/// Whether a profile is drawn through its layers: the layer renderer is on
/// and the profile has layers or no legacy crosshair.
pub open spec fn spec_uses_layers(profile: Option<Profile>) -> bool {
    MATERIAL_RUNTIME_ENABLED && match profile {
        Some(p) => p.layers@.len() > 0 || p.crosshair is None,
        None => false,
    }
}

/// The plan of a frame of `width` by `height` pixels: nothing on an empty
/// window; the layers when the profile uses them; otherwise the legacy
/// crosshair, as an image for the image style, else through the
/// configured backend.
pub open spec fn spec_frame_plan(
    width: u32,
    height: u32,
    profile: Option<Profile>,
    backend: RendererBackend,
    legacy_style: CrosshairStyle,
) -> FramePlan {
    if width == 0 || height == 0 {
        FramePlan::Nothing
    } else if spec_uses_layers(profile) {
        FramePlan::Layers
    } else if legacy_style == CrosshairStyle::CustomImage {
        FramePlan::LegacyImage
    } else if backend == RendererBackend::Svg {
        FramePlan::LegacySvg
    } else {
        FramePlan::LegacyCpu
    }
}

/// Whether a profile is drawn through its layers.
pub fn uses_layers(profile: Option<&Profile>) -> (b: bool)
    ensures
        b == spec_uses_layers(
            match profile {
                Some(p) => Some(*p),
                None => None,
            },
        ),
{
    match profile {
        Some(p) => MATERIAL_RUNTIME_ENABLED && (p.layers.len() > 0 || p.crosshair.is_none()),
        None => false,
    }
}

/// The plan of a frame; `legacy_style` is the style of the crosshair the
/// legacy path would draw.
pub fn frame_plan(
    width: u32,
    height: u32,
    profile: Option<&Profile>,
    backend: RendererBackend,
    legacy_style: CrosshairStyle,
) -> (r: FramePlan)
    ensures
        r == spec_frame_plan(
            width,
            height,
            match profile {
                Some(p) => Some(*p),
                None => None,
            },
            backend,
            legacy_style,
        ),
{
    if width == 0 || height == 0 {
        FramePlan::Nothing
    } else if uses_layers(profile) {
        FramePlan::Layers
    } else if legacy_style == CrosshairStyle::CustomImage {
        FramePlan::LegacyImage
    } else if backend == RendererBackend::Svg {
        FramePlan::LegacySvg
    } else {
        FramePlan::LegacyCpu
    }
}

/// Which rasteriser draws an element.
#[derive(Debug, Clone, Copy, PartialEq, Eq, Structural)]
pub enum DrawClass {
    /// Images are copied pixel by pixel, over everything else.
    Image,
    /// Rectangles, circles, circle outlines, dashed circles and triangles
    /// are rasterised on the CPU.
    Cpu,
    /// Polygons, lines, texts and paths go through the SVG rasteriser.
    Svg,
}

/// The rasteriser of an element.
pub open spec fn draw_class(e: Element) -> DrawClass {
    match e {
        Element::Image { .. } => DrawClass::Image,
        Element::Rect { .. } | Element::Circle { .. } | Element::CircleStroke { .. } | Element::DashedCircle {
            ..
        } | Element::Triangle { .. } => DrawClass::Cpu,
        _ => DrawClass::Svg,
    }
}

/// The rasteriser of an element.
pub fn element_class(e: &Element) -> (c: DrawClass)
    ensures
        c == draw_class(*e),
{
    match e {
        Element::Image { .. } => DrawClass::Image,
        Element::Rect { .. } | Element::Circle { .. } | Element::CircleStroke { .. } | Element::DashedCircle {
            ..
        } | Element::Triangle { .. } => DrawClass::Cpu,
        _ => DrawClass::Svg,
    }
}

/// An element with its layer colour and opacity.
pub type Colored = (Element, [F32; 4], F32);

/// The entries of `s` drawn by rasteriser `c`, in order.
pub open spec fn of_class(s: Seq<Colored>, c: DrawClass) -> Seq<Colored>
    decreases s.len(),
{
    if s.len() == 0 {
        Seq::empty()
    } else if draw_class(s.last().0) == c {
        of_class(s.drop_last(), c).push(s.last())
    } else {
        of_class(s.drop_last(), c)
    }
}

/// Splits the elements among the rasterisers: images, CPU-drawn shapes and
/// SVG-drawn shapes, each list in the order given.
pub fn partition_elements(elements: Vec<Colored>) -> (r: (Vec<Colored>, Vec<Colored>, Vec<Colored>))
    ensures
        r.0@ == of_class(elements@, DrawClass::Image),
        r.1@ == of_class(elements@, DrawClass::Cpu),
        r.2@ == of_class(elements@, DrawClass::Svg),
{
    let ghost all = elements@;
    let mut rest = elements;
    let mut images: Vec<Colored> = Vec::new();
    let mut cpu: Vec<Colored> = Vec::new();
    let mut svg: Vec<Colored> = Vec::new();
    let n = rest.len();
    let mut k: usize = 0;
    while rest.len() > 0
        invariant
            all.len() == n,
            0 <= k <= all.len(),
            rest@ == all.subrange(k as int, all.len() as int),
            images@ == of_class(all.take(k as int), DrawClass::Image),
            cpu@ == of_class(all.take(k as int), DrawClass::Cpu),
            svg@ == of_class(all.take(k as int), DrawClass::Svg),
        decreases rest@.len(),
    {
        let item = rest.remove(0);
        proof {
            assert(item == all[k as int]);
            assert(all.take(k + 1).drop_last() =~= all.take(k as int));
            assert(all.take(k + 1).last() == item);
        }
        match element_class(&item.0) {
            DrawClass::Image => images.push(item),
            DrawClass::Cpu => cpu.push(item),
            DrawClass::Svg => svg.push(item),
        }
        k = k + 1;
        proof {
            assert(rest@ =~= all.subrange(k as int, all.len() as int));
        }
    }
    proof {
        assert(all.take(k as int) =~= all);
    }
    (images, cpu, svg)
}

/// A frame can be skipped when its fingerprint equals the previous frame's
/// and no image was (re)loaded while preparing it.
pub fn frame_unchanged(fingerprint: u64, last_fingerprint: u64, epoch_before: u64, epoch_after: u64) -> (b: bool)
    ensures
        b == (fingerprint == last_fingerprint && epoch_before == epoch_after),
{
    fingerprint == last_fingerprint && epoch_before == epoch_after
}


/// What to do with the cached overlay image before drawing.
#[derive(Debug, Clone, Copy, PartialEq, Eq, Structural)]
pub enum ImageLoad {
    /// The cache already holds this path.
    Keep,
    /// No image is wanted: drop the cache.
    Clear,
    /// Read and decode the file at the path.
    Load,
}

/// The image decision for `path` given the cached image's path: keep a
/// cache of the same path; otherwise clear for an empty path, else load.
pub fn image_load(cached_path: Option<&str>, path: &str) -> (r: ImageLoad)
    ensures
        r == if cached_path matches Some(c) && c@ == path@ {
            ImageLoad::Keep
        } else if path@.len() == 0 {
            ImageLoad::Clear
        } else {
            ImageLoad::Load
        },
{
    proof {
        reveal_strlit("");
    }
    match cached_path {
        Some(c) => {
            if crate::text::str_eq(c, path) {
                return ImageLoad::Keep;
            }
        },
        None => {},
    }
    if crate::text::str_eq(path, "") {
        ImageLoad::Clear
    } else {
        proof {
            if path@.len() == 0 {
                assert(path@ =~= ""@);
            }
        }
        ImageLoad::Load
    }
}

/// The image epoch after a load attempt: a successful load moves it on by
/// one, so that frames drawn with the new image never match the
/// fingerprint of frames drawn before it.
pub fn image_epoch_after(epoch: u64, loaded: bool) -> (r: u64)
    requires
        loaded ==> epoch < u64::MAX,
    ensures
        r == if loaded { epoch + 1 } else { epoch as int },
{
    if loaded { epoch + 1 } else { epoch }
}

} // verus!
