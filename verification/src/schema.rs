//! Configuration data model: enumerations, the orb-position bit mask, trigger
//! rules, material references and application settings.
//!
//! Floating-point fields are held as IEEE-754 binary32 bit patterns
//! ([`crate::float_bits::F32`]); the comparisons the validation rules need are
//! stated and proved on those bit patterns.

use vstd::prelude::*;

verus! {

/// Screen edge an edge rectangle is attached to.
#[derive(Debug, Clone, Copy, PartialEq, Eq, Structural)]
pub enum Anchor {
    Top,
    Bottom,
    Left,
    Right,
    Center,
}

impl Default for Anchor {
    fn default() -> (a: Self)
        ensures
            a == Anchor::Center,
    {
        Anchor::Center
    }
}

/// Overlay rasterisation backend.
#[derive(Debug, Clone, Copy, PartialEq, Eq, Structural)]
pub enum RendererBackend {
    Cpu,
    Svg,
}

impl Default for RendererBackend {
    fn default() -> (b: Self)
        ensures
            b == RendererBackend::Cpu,
    {
        RendererBackend::Cpu
    }
}

/// The visual anchor styles.
#[derive(Debug, Clone, Copy, PartialEq, Eq, Structural)]
pub enum CrosshairStyle {
    EdgeRect,
    Cross,
    LargeCross,
    CornerDots4,
    CornerDots6,
    CornerDots8,
    Ring,
    CustomOrb,
    RandomOrb,
    BorderFrame,
    CustomImage,
    EdgeArrows,
    Grid,
}

/// Line style of the centre ring.
#[derive(Debug, Clone, Copy, PartialEq, Eq, Structural)]
pub enum RingStyle {
    Solid,
    Dashed,
    Double,
}

impl Default for RingStyle {
    fn default() -> (r: Self)
        ensures
            r == RingStyle::Solid,
    {
        RingStyle::Solid
    }
}

/// Working mode of the random orb style.
#[derive(Debug, Clone, Copy, PartialEq, Eq, Structural)]
pub enum RandomOrbMode {
    LockOnStart,
    Reshuffle,
}

impl Default for RandomOrbMode {
    fn default() -> (r: Self)
        ensures
            r == RandomOrbMode::LockOnStart,
    {
        RandomOrbMode::LockOnStart
    }
}

/// Border frame variants.
#[derive(Debug, Clone, Copy, PartialEq, Eq, Structural)]
pub enum BorderFrameStyle {
    Solid,
    Gap,
}

impl Default for BorderFrameStyle {
    fn default() -> (r: Self)
        ensures
            r == BorderFrameStyle::Solid,
    {
        BorderFrameStyle::Solid
    }
}

/// Grid line placement.
#[derive(Debug, Clone, Copy, PartialEq, Eq, Structural)]
pub enum GridAlignment {
    Center,
    Edge,
}

impl Default for GridAlignment {
    fn default() -> (r: Self)
        ensures
            r == GridAlignment::Center,
    {
        GridAlignment::Center
    }
}

/// Actions a global hotkey can trigger.
#[derive(Debug, Clone, Copy, PartialEq, Eq, Hash, Structural)]
pub enum HotkeyAction {
    ToggleOverlay,
    StartOverlay,
    StopOverlay,
    CycleColorNext,
    CycleColorPrev,
    SetColor1,
    SetColor2,
    SetColor3,
    SetColor4,
    SetColor5,
}

/// Layer blend mode (only normal alpha blending so far).
#[derive(Debug, Clone, Copy, PartialEq, Eq, Structural)]
pub enum BlendMode {
    Normal,
}

impl Default for BlendMode {
    fn default() -> (r: Self)
        ensures
            r == BlendMode::Normal,
    {
        BlendMode::Normal
    }
}

/// Bit mask of the preset orb positions.
#[derive(Debug, Clone, Copy, PartialEq, Eq, Structural)]
pub struct OrbPosition(pub u8);

/// Orb centred horizontally near the top edge.
pub const ORB_TOP: u8 = 1u8;
/// Orb centred horizontally near the bottom edge.
pub const ORB_BOTTOM: u8 = 2u8;
/// Orb centred vertically near the left edge.
pub const ORB_LEFT: u8 = 4u8;
/// Orb centred vertically near the right edge.
pub const ORB_RIGHT: u8 = 8u8;

/// Whether every bit of `flag` is set in `mask`.
pub open spec fn mask_contains(mask: u8, flag: u8) -> bool {
    mask & flag == flag
}

impl OrbPosition {
    /// The empty mask.
    pub fn empty() -> (p: Self)
        ensures
            p.0 == 0,
    {
        OrbPosition(0)
    }

    /// Whether every bit of `flag` is set.
    pub fn contains(self, flag: u8) -> (b: bool)
        ensures
            b == mask_contains(self.0, flag),
    {
        (self.0 & flag) == flag
    }

    /// Sets the bits of `flag`.
    pub fn insert(&mut self, flag: u8)
        ensures
            final(self).0 == old(self).0 | flag,
    {
        self.0 = self.0 | flag;
    }

    /// Clears the bits of `flag`.
    pub fn remove(&mut self, flag: u8)
        ensures
            final(self).0 == old(self).0 & !flag,
    {
        self.0 = self.0 & !flag;
    }

    /// Flips the bits of `flag`.
    pub fn toggle(&mut self, flag: u8)
        ensures
            final(self).0 == old(self).0 ^ flag,
    {
        self.0 = self.0 ^ flag;
    }
}

impl Default for OrbPosition {
    fn default() -> (p: Self)
        ensures
            p.0 == ORB_TOP | ORB_BOTTOM,
            p.0 == 3,
    {
        proof {
            assert(ORB_TOP | ORB_BOTTOM == 3u8) by (bit_vector);
        }
        OrbPosition(ORB_TOP | ORB_BOTTOM)
    }
}

/// After `insert(flag)`, the mask contains `flag`.
pub proof fn law_orb_insert_contains(mask: u8, flag: u8)
    ensures
        mask_contains(mask | flag, flag),
{
    assert((mask | flag) & flag == flag) by (bit_vector);
}

/// After `remove(flag)`, no bit of `flag` remains: the mask contains `flag`
/// only when `flag` is empty.
pub proof fn law_orb_remove_not_contains(mask: u8, flag: u8)
    ensures
        mask_contains(mask & !flag, flag) <==> flag == 0,
        (mask & !flag) & flag == 0,
{
    assert((mask & !flag) & flag == 0) by (bit_vector);
    assert(((mask & !flag) & flag == flag) <==> flag == 0) by (bit_vector);
}

/// Toggling the same flag twice restores the mask.
pub proof fn law_orb_toggle_twice(mask: u8, flag: u8)
    ensures
        (mask ^ flag) ^ flag == mask,
{
    assert((mask ^ flag) ^ flag == mask) by (bit_vector);
}

/// Inserting a flag leaves every other flag's membership unchanged when the
/// two flags share no bit, and removing does likewise.
pub proof fn law_orb_independent_flags(mask: u8, flag: u8, other: u8)
    requires
        flag & other == 0,
    ensures
        mask_contains(mask | flag, other) == mask_contains(mask, other),
        mask_contains(mask & !flag, other) == mask_contains(mask, other),
        mask_contains(mask ^ flag, other) == mask_contains(mask, other),
{
    assert(flag & other == 0 ==> (((mask | flag) & other == other) == (mask & other == other)))
        by (bit_vector);
    assert(flag & other == 0 ==> (((mask & !flag) & other == other) == (mask & other == other)))
        by (bit_vector);
    assert(flag & other == 0 ==> (((mask ^ flag) & other == other) == (mask & other == other)))
        by (bit_vector);
}

/// When the overlay is shown.
#[derive(Debug, Clone, PartialEq, Eq)]
pub struct TriggerRule {
    /// Whether the trigger is enabled.
    pub enabled: bool,
    /// Process names that trigger the overlay; empty means no restriction.
    pub process_names: Vec<String>,
}

impl TriggerRule {
    /// Enabled, with no process restriction.
    pub fn default_rule() -> (r: Self)
        ensures
            r.enabled,
            r.process_names@.len() == 0,
    {
        TriggerRule { enabled: true, process_names: Vec::new() }
    }
}

/// Where a layer's material comes from.
#[derive(Debug, Clone, PartialEq, Eq)]
pub enum MaterialRef {
    /// A material embedded in the binary, id prefixed `builtin.`.
    Builtin { id: String },
    /// A user material file, name prefixed `user.`.
    User { name: String },
}

impl MaterialRef {
    /// The lookup id of the referenced material.
    pub open spec fn spec_material_id(&self) -> Seq<char> {
        match self {
            MaterialRef::Builtin { id } => id@,
            MaterialRef::User { name } => name@,
        }
    }

    /// The lookup id: the builtin id or the user name.
    pub fn material_id(&self) -> (s: &str)
        ensures
            s@ == self.spec_material_id(),
    {
        match self {
            MaterialRef::Builtin { id } => id.as_str(),
            MaterialRef::User { name } => name.as_str(),
        }
    }

    /// Whether this is a builtin material.
    pub fn is_builtin(&self) -> (b: bool)
        ensures
            b == (self is Builtin),
    {
        match self {
            MaterialRef::Builtin { .. } => true,
            MaterialRef::User { .. } => false,
        }
    }
}

} // verus!
