use vstd::prelude::*;
use vstd::std_specs::convert::FromSpecImpl;
use crate::types::{PlayerBodyPartType, PlayerPartTextureType, same_texture};

verus! {

/// How the Ears mod draws ears on the head.
#[derive(Debug, Clone, Copy, PartialEq, Eq, Structural)]
pub enum EarMode {
    Disabled,
    Above,
    Sides,
    Behind,
    Around,
    Floppy,
    Cross,
    Out,
    Tall,
    TallCross,
}

/// Where along the head the ears are attached.
#[derive(Debug, Clone, Copy, PartialEq, Eq, Structural)]
pub enum EarAnchor {
    Center,
    Front,
    Back,
}

#[derive(Debug, Clone, Copy, PartialEq, Eq, Structural)]
pub enum TailMode {
    Disabled,
    Down,
    Back,
    Up,
    Vertical,
}

#[derive(Debug, Clone, Copy, PartialEq, Eq, Structural)]
pub enum WingMode {
    Disabled,
    SymmetricDual,
    SymmetricSingle,
    AsymmetricL,
    AsymmetricR,
}

#[derive(Debug, Clone, Copy, PartialEq, Eq, Structural)]
pub enum LegMode {
    Plantigrade,
    Digitigrade,
    DigitigradeFull,
}

#[derive(Debug, Clone, Copy, PartialEq, Eq, Structural)]
pub struct TailData {
    pub mode: TailMode,
    pub segments: u8,
}

#[derive(Debug, Clone, Copy, PartialEq, Eq, Structural)]
pub struct SnoutData {
    pub offset: u8,
    pub width: u8,
    pub height: u8,
    pub depth: u8,
}

#[derive(Debug, Clone, Copy, PartialEq, Eq, Structural)]
pub struct WingData {
    pub mode: WingMode,
    pub animated: bool,
}

/// The Ears mod features encoded in a skin, as far as the choice of parts
/// depends on them. `has_chest` records whether the chest size is above zero.
#[derive(Debug, Clone, Copy, PartialEq, Eq, Structural)]
pub struct EarsFeatures {
    pub ear_mode: EarMode,
    pub ear_anchor: EarAnchor,
    pub claws: bool,
    pub horn: bool,
    pub tail: Option<TailData>,
    pub snout: Option<SnoutData>,
    pub wing: Option<WingData>,
    pub has_chest: bool,
    pub leg_mode: LegMode,
    pub emissive: bool,
}

/// Ears drawn "behind" the head are drawn as "out" ears anchored at the back.
pub open spec fn spec_normalize_ear_mode(f: EarsFeatures) -> EarsFeatures {
    if f.ear_mode == EarMode::Behind {
        EarsFeatures { ear_mode: EarMode::Out, ear_anchor: EarAnchor::Back, ..f }
    } else {
        f
    }
}

/// Replaces the "behind" ear mode with "out" ears anchored at the back.
pub fn normalize_ear_mode(features: EarsFeatures) -> (r: EarsFeatures)
    ensures
        r == spec_normalize_ear_mode(features),
{
    let mut features = features;
    if features.ear_mode == EarMode::Behind {
        features.ear_mode = EarMode::Out;
        features.ear_anchor = EarAnchor::Back;
    }
    features
}

/// The extra textures an Ears skin can bring.
#[derive(Debug, Clone, Copy, PartialEq, Eq, Structural, Hash)]
pub enum PlayerPartEarsTextureType {
    Cape,
    Wings,
    /// The non-emissive remaining part of the skin texture.
    EmissiveProcessedSkin,
    /// The non-emissive remaining part of the wings texture.
    EmissiveProcessedWings,
    /// The emissive skin texture type.
    EmissiveSkin,
    /// The emissive wings texture type.
    EmissiveWings,
}

pub open spec fn spec_ears_texture_size(t: PlayerPartEarsTextureType) -> (u32, u32) {
    match t {
        PlayerPartEarsTextureType::EmissiveSkin | PlayerPartEarsTextureType::EmissiveProcessedSkin => (
            64,
            64,
        ),
        _ => (20, 16),
    }
}

pub open spec fn spec_ears_texture_key(t: PlayerPartEarsTextureType) -> Seq<char> {
    match t {
        PlayerPartEarsTextureType::Cape => "ears_cape"@,
        PlayerPartEarsTextureType::Wings => "ears_wings"@,
        PlayerPartEarsTextureType::EmissiveProcessedSkin => "ears_emissive_processed_skin"@,
        PlayerPartEarsTextureType::EmissiveProcessedWings => "ears_emissive_processed_wings"@,
        PlayerPartEarsTextureType::EmissiveSkin => "ears_emissive_skin"@,
        PlayerPartEarsTextureType::EmissiveWings => "ears_emissive_wings"@,
    }
}

pub open spec fn spec_ears_texture_is_emissive(t: PlayerPartEarsTextureType) -> bool {
    t == PlayerPartEarsTextureType::EmissiveSkin || t == PlayerPartEarsTextureType::EmissiveWings
}

/// The custom texture an Ears texture stands for.
pub open spec fn is_custom_ears_texture(
    tex: PlayerPartTextureType,
    t: PlayerPartEarsTextureType,
) -> bool {
    match tex {
        PlayerPartTextureType::Custom { key, size, is_emissive } => key@ == spec_ears_texture_key(t)
            && size == spec_ears_texture_size(t) && is_emissive == spec_ears_texture_is_emissive(t),
        _ => false,
    }
}

/// The part texture an Ears texture is drawn with: the cape and the processed
/// skin reuse the plain cape and skin, processed wings reuse the wings, and the
/// rest are custom textures named by their key.
pub open spec fn is_texture_for(tex: PlayerPartTextureType, t: PlayerPartEarsTextureType) -> bool {
    match t {
        PlayerPartEarsTextureType::Cape => tex == PlayerPartTextureType::Cape,
        PlayerPartEarsTextureType::EmissiveProcessedSkin => tex == PlayerPartTextureType::Skin,
        PlayerPartEarsTextureType::EmissiveProcessedWings => is_custom_ears_texture(
            tex,
            PlayerPartEarsTextureType::Wings,
        ),
        _ => is_custom_ears_texture(tex, t),
    }
}

impl PlayerPartEarsTextureType {
    /// Width and height in pixels of the texture.
    pub fn size(&self) -> (r: (u32, u32))
        ensures
            r == spec_ears_texture_size(*self),
    {
        match self {
            PlayerPartEarsTextureType::Cape | PlayerPartEarsTextureType::Wings
            | PlayerPartEarsTextureType::EmissiveProcessedWings
            | PlayerPartEarsTextureType::EmissiveWings => (20, 16),
            PlayerPartEarsTextureType::EmissiveSkin
            | PlayerPartEarsTextureType::EmissiveProcessedSkin => (64, 64),
        }
    }

    /// The key under which the texture is stored.
    pub fn key(&self) -> (r: &'static str)
        ensures
            r@ == spec_ears_texture_key(*self),
    {
        match self {
            PlayerPartEarsTextureType::Cape => "ears_cape",
            PlayerPartEarsTextureType::Wings => "ears_wings",
            PlayerPartEarsTextureType::EmissiveProcessedSkin => "ears_emissive_processed_skin",
            PlayerPartEarsTextureType::EmissiveProcessedWings => "ears_emissive_processed_wings",
            PlayerPartEarsTextureType::EmissiveSkin => "ears_emissive_skin",
            PlayerPartEarsTextureType::EmissiveWings => "ears_emissive_wings",
        }
    }

    pub fn is_emissive(&self) -> (r: bool)
        ensures
            r == spec_ears_texture_is_emissive(*self),
    {
        match self {
            PlayerPartEarsTextureType::EmissiveSkin | PlayerPartEarsTextureType::EmissiveWings => true,
            _ => false,
        }
    }

    /// The part texture this Ears texture is drawn with.
    pub fn to_texture_type(&self) -> (r: PlayerPartTextureType)
        ensures
            is_texture_for(r, *self),
    {
        match self {
            PlayerPartEarsTextureType::Cape => PlayerPartTextureType::Cape,
            PlayerPartEarsTextureType::EmissiveProcessedSkin => PlayerPartTextureType::Skin,
            PlayerPartEarsTextureType::EmissiveProcessedWings => {
                let wings = PlayerPartEarsTextureType::Wings;
                PlayerPartTextureType::Custom {
                    key: wings.key(),
                    size: wings.size(),
                    is_emissive: wings.is_emissive(),
                }
            },
            ears => PlayerPartTextureType::Custom {
                key: ears.key(),
                size: ears.size(),
                is_emissive: ears.is_emissive(),
            },
        }
    }
}

} // verus!
