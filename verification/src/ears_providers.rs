use vstd::prelude::*;
use crate::types::{PlayerBodyPartType, PlayerPartTextureType, same_texture};
use crate::model::PlayerArmorSlots;
use crate::ears::{
    EarMode, EarsFeatures, PlayerPartEarsTextureType, TailMode, WingMode,
    is_texture_for, normalize_ear_mode, spec_normalize_ear_mode,
};

verus! {

/// Draws the ears on the head.
#[derive(Debug, Copy, Clone, Default)]
pub struct EarsModEarsPartProvider;

/// Draws claws on the arms and legs and a horn on the head.
#[derive(Debug, Copy, Clone, Default)]
pub struct EarsModProtrusionsPartProvider;

/// Draws a snout on the head.
#[derive(Debug, Copy, Clone, Default)]
pub struct EarsModSnoutsPartProvider;

/// Draws a tail on the body.
#[derive(Debug, Copy, Clone, Default)]
pub struct EarsModTailsPartProvider;

/// Draws wings on the body.
#[derive(Debug, Copy, Clone, Default)]
pub struct EarsModWingsPartProvider;

/// Draws a chest on the body and its layer.
#[derive(Debug, Copy, Clone, Default)]
pub struct EarsModChestPartProvider;

pub open spec fn tail_enabled(f: EarsFeatures) -> bool {
    match f.tail {
        Some(t) => t.mode != TailMode::Disabled,
        None => false,
    }
}

pub open spec fn wings_enabled(f: EarsFeatures) -> bool {
    match f.wing {
        Some(w) => w.mode != WingMode::Disabled,
        None => false,
    }
}

impl EarsModEarsPartProvider {
    pub fn provides_for_part(&self, body_part: PlayerBodyPartType) -> (r: bool)
        ensures
            r == (body_part == PlayerBodyPartType::Head),
    {
        body_part == PlayerBodyPartType::Head
    }

    pub fn provides_for_feature(&self, features: &EarsFeatures) -> (r: bool)
        ensures
            r == (features.ear_mode != EarMode::Disabled),
    {
        features.ear_mode != EarMode::Disabled
    }
}

impl EarsModProtrusionsPartProvider {
    pub fn provides_for_part(&self, body_part: PlayerBodyPartType) -> (r: bool)
        ensures
            r == (body_part == PlayerBodyPartType::Head || body_part == PlayerBodyPartType::LeftArm
                || body_part == PlayerBodyPartType::RightArm || body_part
                == PlayerBodyPartType::LeftLeg || body_part == PlayerBodyPartType::RightLeg),
    {
        match body_part {
            PlayerBodyPartType::Head | PlayerBodyPartType::LeftArm | PlayerBodyPartType::RightArm
            | PlayerBodyPartType::LeftLeg | PlayerBodyPartType::RightLeg => true,
            _ => false,
        }
    }

    pub fn provides_for_feature(&self, features: &EarsFeatures) -> (r: bool)
        ensures
            r == (features.claws || features.horn),
    {
        features.claws || features.horn
    }
}

impl EarsModSnoutsPartProvider {
    pub fn provides_for_part(&self, body_part: PlayerBodyPartType) -> (r: bool)
        ensures
            r == (body_part == PlayerBodyPartType::Head),
    {
        body_part == PlayerBodyPartType::Head
    }

    pub fn provides_for_feature(&self, features: &EarsFeatures) -> (r: bool)
        ensures
            r == features.snout is Some,
    {
        features.snout.is_some()
    }
}

impl EarsModTailsPartProvider {
    pub fn provides_for_part(&self, body_part: PlayerBodyPartType) -> (r: bool)
        ensures
            r == (body_part == PlayerBodyPartType::Body),
    {
        body_part == PlayerBodyPartType::Body
    }

    pub fn provides_for_feature(&self, features: &EarsFeatures) -> (r: bool)
        ensures
            r == tail_enabled(*features),
    {
        match features.tail {
            Some(t) => t.mode != TailMode::Disabled,
            None => false,
        }
    }
}

impl EarsModWingsPartProvider {
    pub fn provides_for_part(&self, body_part: PlayerBodyPartType) -> (r: bool)
        ensures
            r == (body_part == PlayerBodyPartType::Body),
    {
        body_part == PlayerBodyPartType::Body
    }

    pub fn provides_for_feature(&self, features: &EarsFeatures) -> (r: bool)
        ensures
            r == wings_enabled(*features),
    {
        match features.wing {
            Some(w) => w.mode != WingMode::Disabled,
            None => false,
        }
    }
}

impl EarsModChestPartProvider {
    pub fn provides_for_part(&self, body_part: PlayerBodyPartType) -> (r: bool)
        ensures
            r == (body_part == PlayerBodyPartType::Body || body_part
                == PlayerBodyPartType::BodyLayer),
    {
        body_part == PlayerBodyPartType::Body || body_part == PlayerBodyPartType::BodyLayer
    }

    pub fn provides_for_feature(&self, features: &EarsFeatures) -> (r: bool)
        ensures
            r == features.has_chest,
    {
        features.has_chest
    }
}

/// The Ears features drawn by the Ears part provider, in drawing order.
#[derive(Debug, Copy, Clone, PartialEq, Eq, Structural, Hash)]
pub enum EarsModPartStaticDispatch {
    Ears,
    Protrusions,
    Snout,
    Tail,
    Wings,
    Chest,
}

pub open spec fn all_dispatches() -> Seq<EarsModPartStaticDispatch> {
    seq![
        EarsModPartStaticDispatch::Ears,
        EarsModPartStaticDispatch::Protrusions,
        EarsModPartStaticDispatch::Snout,
        EarsModPartStaticDispatch::Tail,
        EarsModPartStaticDispatch::Wings,
        EarsModPartStaticDispatch::Chest,
    ]
}

pub open spec fn spec_provides_for_part(d: EarsModPartStaticDispatch, p: PlayerBodyPartType) -> bool {
    match d {
        EarsModPartStaticDispatch::Ears | EarsModPartStaticDispatch::Snout => p
            == PlayerBodyPartType::Head,
        EarsModPartStaticDispatch::Protrusions => p == PlayerBodyPartType::Head || p
            == PlayerBodyPartType::LeftArm || p == PlayerBodyPartType::RightArm || p
            == PlayerBodyPartType::LeftLeg || p == PlayerBodyPartType::RightLeg,
        EarsModPartStaticDispatch::Tail | EarsModPartStaticDispatch::Wings => p
            == PlayerBodyPartType::Body,
        EarsModPartStaticDispatch::Chest => p == PlayerBodyPartType::Body || p
            == PlayerBodyPartType::BodyLayer,
    }
}

pub open spec fn spec_provides_for_feature(d: EarsModPartStaticDispatch, f: EarsFeatures) -> bool {
    match d {
        EarsModPartStaticDispatch::Ears => f.ear_mode != EarMode::Disabled,
        EarsModPartStaticDispatch::Protrusions => f.claws || f.horn,
        EarsModPartStaticDispatch::Snout => f.snout is Some,
        EarsModPartStaticDispatch::Tail => tail_enabled(f),
        EarsModPartStaticDispatch::Wings => wings_enabled(f),
        EarsModPartStaticDispatch::Chest => f.has_chest,
    }
}

/// Whether feature `d` is drawn for body part `p`: it provides for the part
/// and is enabled in the skin.
pub open spec fn is_applicable(f: EarsFeatures, p: PlayerBodyPartType, d: EarsModPartStaticDispatch) -> bool {
    spec_provides_for_part(d, p) && spec_provides_for_feature(d, f)
}

/// The features of `s` drawn for body part `p`, in the order of `s`.
pub open spec fn applicable_in(
    f: EarsFeatures,
    p: PlayerBodyPartType,
    s: Seq<EarsModPartStaticDispatch>,
) -> Seq<EarsModPartStaticDispatch> {
    s.filter(|d| is_applicable(f, p, d))
}

/// The features drawn for a body part, in drawing order.
pub open spec fn spec_applicable(f: EarsFeatures, p: PlayerBodyPartType) -> Seq<EarsModPartStaticDispatch> {
    applicable_in(f, p, all_dispatches())
}

impl EarsModPartStaticDispatch {
    /// Every feature, in drawing order.
    pub fn all() -> (r: Vec<EarsModPartStaticDispatch>)
        ensures
            r@ == all_dispatches(),
    {
        let r = vec![
            EarsModPartStaticDispatch::Ears,
            EarsModPartStaticDispatch::Protrusions,
            EarsModPartStaticDispatch::Snout,
            EarsModPartStaticDispatch::Tail,
            EarsModPartStaticDispatch::Wings,
            EarsModPartStaticDispatch::Chest,
        ];
        assert(r@ =~= all_dispatches());
        r
    }

    /// The name of the group the feature's parts are put in.
    pub fn name(&self) -> (r: &'static str)
        ensures
            r@ == (match *self {
                EarsModPartStaticDispatch::Ears => "Ears"@,
                EarsModPartStaticDispatch::Protrusions => "Protrusions"@,
                EarsModPartStaticDispatch::Snout => "Snout"@,
                EarsModPartStaticDispatch::Tail => "Tail"@,
                EarsModPartStaticDispatch::Wings => "Wings"@,
                EarsModPartStaticDispatch::Chest => "Chest"@,
            }),
    {
        match self {
            EarsModPartStaticDispatch::Ears => "Ears",
            EarsModPartStaticDispatch::Protrusions => "Protrusions",
            EarsModPartStaticDispatch::Snout => "Snout",
            EarsModPartStaticDispatch::Tail => "Tail",
            EarsModPartStaticDispatch::Wings => "Wings",
            EarsModPartStaticDispatch::Chest => "Chest",
        }
    }

    pub fn provides_for_part(&self, body_part: PlayerBodyPartType) -> (r: bool)
        ensures
            r == spec_provides_for_part(*self, body_part),
    {
        match self {
            EarsModPartStaticDispatch::Ears => EarsModEarsPartProvider.provides_for_part(body_part),
            EarsModPartStaticDispatch::Protrusions => EarsModProtrusionsPartProvider.provides_for_part(body_part),
            EarsModPartStaticDispatch::Snout => EarsModSnoutsPartProvider.provides_for_part(body_part),
            EarsModPartStaticDispatch::Tail => EarsModTailsPartProvider.provides_for_part(body_part),
            EarsModPartStaticDispatch::Wings => EarsModWingsPartProvider.provides_for_part(body_part),
            EarsModPartStaticDispatch::Chest => EarsModChestPartProvider.provides_for_part(body_part),
        }
    }

    pub fn provides_for_feature(&self, features: &EarsFeatures) -> (r: bool)
        ensures
            r == spec_provides_for_feature(*self, *features),
    {
        match self {
            EarsModPartStaticDispatch::Ears => EarsModEarsPartProvider.provides_for_feature(features),
            EarsModPartStaticDispatch::Protrusions => EarsModProtrusionsPartProvider.provides_for_feature(features),
            EarsModPartStaticDispatch::Snout => EarsModSnoutsPartProvider.provides_for_feature(features),
            EarsModPartStaticDispatch::Tail => EarsModTailsPartProvider.provides_for_feature(features),
            EarsModPartStaticDispatch::Wings => EarsModWingsPartProvider.provides_for_feature(features),
            EarsModPartStaticDispatch::Chest => EarsModChestPartProvider.provides_for_feature(features),
        }
    }
}

/// The features drawn for `body_part`: those that provide for the part and are
/// enabled in the skin, in drawing order.
pub fn applicable_features(features: &EarsFeatures, body_part: PlayerBodyPartType) -> (r: Vec<
    EarsModPartStaticDispatch,
>)
    ensures
        r@ == spec_applicable(*features, body_part),
{
    let all = EarsModPartStaticDispatch::all();
    let mut r: Vec<EarsModPartStaticDispatch> = Vec::new();
    let mut i: usize = 0;
    while i < all.len()
        invariant
            all@ == all_dispatches(),
            i <= all@.len(),
            r@ == applicable_in(*features, body_part, all@.take(i as int)),
        decreases all@.len() - i,
    {
        let d = all[i];
        let keep = d.provides_for_part(body_part) && d.provides_for_feature(features);
        let ghost prev = r@;
        if keep {
            r.push(d);
        }
        assert(r@ == applicable_in(*features, body_part, all@.take(i + 1))) by {
            reveal_with_fuel(Seq::<_>::filter, 1);
            let t = all@.take(i + 1);
            assert(t.drop_last() =~= all@.take(i as int));
            assert(t.last() == d);
            assert(is_applicable(*features, body_part, d) == keep);
        }
        i = i + 1;
    }
    assert(all@.take(all@.len() as int) =~= all@);
    r
}

/// What the Ears part provider draws for one body part.
#[derive(Debug, Clone)]
pub struct EarsPartsPlan {
    /// The features with the "behind" ear mode replaced.
    pub features: EarsFeatures,
    /// The features drawn, in drawing order.
    pub providers: Vec<EarsModPartStaticDispatch>,
    /// Whether emissive copies of the drawn parts are added afterwards.
    pub emissive: bool,
}

/// The Ears mod features drawn on top of the vanilla body.
#[derive(Debug, Clone, Copy, Default)]
pub struct EarsPlayerPartsProvider;

impl EarsPlayerPartsProvider {
    /// What the Ears part provider draws for `body_part`: nothing without Ears
    /// features; otherwise the applicable features of the normalized features, and
    /// emissive copies when the skin has emissive pixels.
    pub fn get_parts(&self, features: &Option<EarsFeatures>, body_part: PlayerBodyPartType) -> (r: Option<
        EarsPartsPlan,
    >)
        ensures
            match *features {
                None => r is None,
                Some(f) => r matches Some(plan) && plan.features == spec_normalize_ear_mode(f)
                    && plan.providers@ == spec_applicable(spec_normalize_ear_mode(f), body_part)
                    && plan.emissive == f.emissive,
            },
    {
        match features {
            None => None,
            Some(f) => {
                let normalized = normalize_ear_mode(*f);
                let providers = applicable_features(&normalized, body_part);
                Some(EarsPartsPlan { features: normalized, providers, emissive: f.emissive })
            },
        }
    }
}

/// The emissive texture a part drawn with `texture` is copied onto: skin parts
/// go to the emissive skin, wing parts to the emissive wings, others to none.
pub fn emissive_texture_for(texture: &PlayerPartTextureType) -> (r: Option<PlayerPartEarsTextureType>)
    ensures
        *texture == PlayerPartTextureType::Skin ==> r == Some(PlayerPartEarsTextureType::EmissiveSkin),
        is_texture_for(*texture, PlayerPartEarsTextureType::Wings) ==> r == Some(
            PlayerPartEarsTextureType::EmissiveWings,
        ),
        *texture != PlayerPartTextureType::Skin && !is_texture_for(
            *texture,
            PlayerPartEarsTextureType::Wings,
        ) ==> r is None,
{
    let wing_texture = PlayerPartEarsTextureType::Wings.to_texture_type();
    if *texture == PlayerPartTextureType::Skin {
        Some(PlayerPartEarsTextureType::EmissiveSkin)
    } else if *texture == wing_texture {
        Some(PlayerPartEarsTextureType::EmissiveWings)
    } else {
        None
    }
}

/// Whether boots are worn.
pub fn is_wearing_boots<M>(armor_slots: &Option<PlayerArmorSlots<M>>) -> (r: bool)
    ensures
        r == (armor_slots matches Some(s) && s.boots is Some),
{
    match armor_slots {
        Some(s) => s.boots.is_some(),
        None => false,
    }
}


/// The tilt and swing of a tail by its mode: a tail pointing back tilts
/// further when its first bend is not zero.
pub open spec fn spec_tail_angles(mode: TailMode, first_bend_nonzero: bool) -> (i32, i32) {
    match mode {
        TailMode::Down => (30i32, 40i32),
        TailMode::Back => (if first_bend_nonzero { 90i32 } else { 80i32 }, 20i32),
        TailMode::Up => (130i32, -20i32),
        _ => (0i32, 0i32),
    }
}

/// The tilt and swing, in degrees, the tail starts with.
pub fn tail_angles(mode: TailMode, first_bend_nonzero: bool) -> (r: (i32, i32))
    ensures
        r == spec_tail_angles(mode, first_bend_nonzero),
{
    if mode == TailMode::Down {
        (30, 40)
    } else if mode == TailMode::Back {
        (if first_bend_nonzero { 90 } else { 80 }, 20)
    } else if mode == TailMode::Up {
        (130, -20)
    } else {
        (0, 0)
    }
}

/// The tail is drawn in at least one segment.
pub open spec fn segment_count(segments: u8) -> int {
    if segments == 0 { 1 } else { segments as int }
}

/// The texture rows of the tail's segments: the twelve rows from row 16 of
/// the tail texture column are split evenly (rounding down) between the segments.
pub open spec fn spec_tail_segments(segments: u8) -> Seq<(u16, u16)> {
    let n = segment_count(segments);
    let h = 12int / n;
    Seq::new(n as nat, |i: int| ((16 + i * h) as u16, h as u16))
}

/// The texture row and height of each tail segment; a tail has at most four segments.
pub fn tail_segments(segments: u8) -> (r: Vec<(u16, u16)>)
    requires
        segments <= 4,
    ensures
        r@ == spec_tail_segments(segments),
{
    let n: usize = if segments == 0 { 1 } else { segments as usize };
    let seg_height: usize = 12 / n;
    let mut r: Vec<(u16, u16)> = Vec::new();
    let mut i: usize = 0;
    while i < n
        invariant
            n == segment_count(segments),
            1 <= n <= 4,
            seg_height == 12int / (n as int),
            seg_height <= 12,
            i <= n,
            r@ =~= spec_tail_segments(segments).take(i as int),
        decreases n - i,
    {
        assert(i * seg_height <= 48) by (nonlinear_arith)
            requires
                i < 4,
                seg_height <= 12,
        ;
        r.push(((16 + i * seg_height) as u16, seg_height as u16));
        i = i + 1;
    }
    r
}


/// Normalizing the ear mode is idempotent, never leaves the "behind" mode, and
/// changes nothing but the ear mode and anchor.
pub proof fn lemma_normalize_ear_mode(f: EarsFeatures)
    ensures
        spec_normalize_ear_mode(spec_normalize_ear_mode(f)) == spec_normalize_ear_mode(f),
        spec_normalize_ear_mode(f).ear_mode != EarMode::Behind,
        (spec_normalize_ear_mode(f).ear_mode == EarMode::Disabled) == (f.ear_mode == EarMode::Disabled),
        ({
            let g = spec_normalize_ear_mode(f);
            g.claws == f.claws && g.horn == f.horn && g.tail == f.tail && g.snout == f.snout
                && g.wing == f.wing && g.has_chest == f.has_chest && g.leg_mode == f.leg_mode
                && g.emissive == f.emissive
        }),
{
}

/// A feature is drawn for a body part exactly when it provides for that part
/// and is enabled in the skin.
pub proof fn lemma_applicable_features_exact(f: EarsFeatures, p: PlayerBodyPartType, d: EarsModPartStaticDispatch)
    ensures
        spec_applicable(f, p).contains(d) <==> is_applicable(f, p, d),
{
    let a = all_dispatches();
    let pred = |x: EarsModPartStaticDispatch| is_applicable(f, p, x);
    let out = a.filter(pred);
    assert(out == spec_applicable(f, p));
    let i: int = match d {
        EarsModPartStaticDispatch::Ears => 0,
        EarsModPartStaticDispatch::Protrusions => 1,
        EarsModPartStaticDispatch::Snout => 2,
        EarsModPartStaticDispatch::Tail => 3,
        EarsModPartStaticDispatch::Wings => 4,
        EarsModPartStaticDispatch::Chest => 5,
    };
    assert(a[i] == d);
    if is_applicable(f, p, d) {
        a.lemma_filter_contains(pred, i);
    }
    if out.contains(d) {
        let j = choose|j: int| 0 <= j < out.len() && out[j] == d;
        a.lemma_filter_pred(pred, j);
    }
}

/// Outer layers get no Ears features, except the chest over the body layer.
pub proof fn lemma_layers_get_only_the_chest(f: EarsFeatures, p: PlayerBodyPartType, d: EarsModPartStaticDispatch)
    requires
        p != PlayerBodyPartType::Head && p != PlayerBodyPartType::Body && p
            != PlayerBodyPartType::LeftArm && p != PlayerBodyPartType::RightArm && p
            != PlayerBodyPartType::LeftLeg && p != PlayerBodyPartType::RightLeg,
        spec_applicable(f, p).contains(d),
    ensures
        d == EarsModPartStaticDispatch::Chest,
        p == PlayerBodyPartType::BodyLayer,
{
    lemma_applicable_features_exact(f, p, d);
}

/// The emissive copies of skin and wing parts are drawn with emissive textures,
/// while the processed (remaining) skin and wings are not emissive.
pub proof fn lemma_emissive_copies_are_emissive(tex: PlayerPartTextureType)
    ensures
        is_texture_for(tex, PlayerPartEarsTextureType::EmissiveSkin) ==> (tex matches PlayerPartTextureType::Custom { is_emissive, .. } && is_emissive),
        is_texture_for(tex, PlayerPartEarsTextureType::EmissiveWings) ==> (tex matches PlayerPartTextureType::Custom { is_emissive, .. } && is_emissive),
        is_texture_for(tex, PlayerPartEarsTextureType::EmissiveProcessedSkin) ==> tex == PlayerPartTextureType::Skin,
        is_texture_for(tex, PlayerPartEarsTextureType::EmissiveProcessedWings) ==> is_texture_for(tex, PlayerPartEarsTextureType::Wings),
{
}

} // verus!
