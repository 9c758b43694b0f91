use vstd::prelude::*;
use vstd::std_specs::cmp::PartialEqSpecImpl;
use vstd::string::StringSliceAdditionalSpecFns;

verus! {

/// The twelve pieces of a player model: six base parts and the six
/// outer layers drawn slightly larger on top of them.
#[derive(Debug, Clone, Copy, PartialEq, Eq, Structural, Hash, PartialOrd, Ord)]
pub enum PlayerBodyPartType {
    Head,
    Body,
    LeftArm,
    RightArm,
    LeftLeg,
    RightLeg,
    HeadLayer,
    BodyLayer,
    LeftArmLayer,
    RightArmLayer,
    LeftLegLayer,
    RightLegLayer,
}

/// The six base (non-layer) body parts.
pub open spec fn is_base_part(p: PlayerBodyPartType) -> bool {
    match p {
        PlayerBodyPartType::Head | PlayerBodyPartType::Body | PlayerBodyPartType::LeftArm
        | PlayerBodyPartType::RightArm | PlayerBodyPartType::LeftLeg
        | PlayerBodyPartType::RightLeg => true,
        _ => false,
    }
}

/// Outer layers other than the hat (head) layer.
pub open spec fn spec_is_layer(p: PlayerBodyPartType) -> bool {
    match p {
        PlayerBodyPartType::BodyLayer | PlayerBodyPartType::LeftArmLayer
        | PlayerBodyPartType::RightArmLayer | PlayerBodyPartType::LeftLegLayer
        | PlayerBodyPartType::RightLegLayer => true,
        _ => false,
    }
}

pub open spec fn spec_non_layer_part(p: PlayerBodyPartType) -> PlayerBodyPartType {
    match p {
        PlayerBodyPartType::HeadLayer => PlayerBodyPartType::Head,
        PlayerBodyPartType::BodyLayer => PlayerBodyPartType::Body,
        PlayerBodyPartType::LeftArmLayer => PlayerBodyPartType::LeftArm,
        PlayerBodyPartType::RightArmLayer => PlayerBodyPartType::RightArm,
        PlayerBodyPartType::LeftLegLayer => PlayerBodyPartType::LeftLeg,
        PlayerBodyPartType::RightLegLayer => PlayerBodyPartType::RightLeg,
        _ => p,
    }
}

pub open spec fn spec_layer_part(p: PlayerBodyPartType) -> PlayerBodyPartType {
    match p {
        PlayerBodyPartType::Head => PlayerBodyPartType::HeadLayer,
        PlayerBodyPartType::Body => PlayerBodyPartType::BodyLayer,
        PlayerBodyPartType::LeftArm => PlayerBodyPartType::LeftArmLayer,
        PlayerBodyPartType::RightArm => PlayerBodyPartType::RightArmLayer,
        PlayerBodyPartType::LeftLeg => PlayerBodyPartType::LeftLegLayer,
        PlayerBodyPartType::RightLeg => PlayerBodyPartType::RightLegLayer,
        _ => p,
    }
}

pub open spec fn spec_is_arm(p: PlayerBodyPartType) -> bool {
    spec_non_layer_part(p) == PlayerBodyPartType::LeftArm
        || spec_non_layer_part(p) == PlayerBodyPartType::RightArm
}

pub open spec fn spec_is_leg(p: PlayerBodyPartType) -> bool {
    spec_non_layer_part(p) == PlayerBodyPartType::LeftLeg
        || spec_non_layer_part(p) == PlayerBodyPartType::RightLeg
}

/// Every body part in declaration order.
pub open spec fn all_body_parts() -> Seq<PlayerBodyPartType> {
    seq![
        PlayerBodyPartType::Head,
        PlayerBodyPartType::Body,
        PlayerBodyPartType::LeftArm,
        PlayerBodyPartType::RightArm,
        PlayerBodyPartType::LeftLeg,
        PlayerBodyPartType::RightLeg,
        PlayerBodyPartType::HeadLayer,
        PlayerBodyPartType::BodyLayer,
        PlayerBodyPartType::LeftArmLayer,
        PlayerBodyPartType::RightArmLayer,
        PlayerBodyPartType::LeftLegLayer,
        PlayerBodyPartType::RightLegLayer,
    ]
}

impl PlayerBodyPartType {
    /// True for the outer layers of the body, arms and legs (not the hat layer).
    pub fn is_layer(&self) -> (r: bool)
        ensures
            r == spec_is_layer(*self),
    {
        match self {
            PlayerBodyPartType::BodyLayer | PlayerBodyPartType::LeftArmLayer
            | PlayerBodyPartType::RightArmLayer | PlayerBodyPartType::LeftLegLayer
            | PlayerBodyPartType::RightLegLayer => true,
            _ => false,
        }
    }

    /// True only for the hat (head) layer.
    pub fn is_hat_layer(&self) -> (r: bool)
        ensures
            r == (*self == PlayerBodyPartType::HeadLayer),
    {
        match self {
            PlayerBodyPartType::HeadLayer => true,
            _ => false,
        }
    }

    /// The base part that a layer is drawn over; base parts map to themselves.
    pub fn get_non_layer_part(&self) -> (r: Self)
        ensures
            r == spec_non_layer_part(*self),
            is_base_part(r),
    {
        match self {
            PlayerBodyPartType::HeadLayer => PlayerBodyPartType::Head,
            PlayerBodyPartType::BodyLayer => PlayerBodyPartType::Body,
            PlayerBodyPartType::LeftArmLayer => PlayerBodyPartType::LeftArm,
            PlayerBodyPartType::RightArmLayer => PlayerBodyPartType::RightArm,
            PlayerBodyPartType::LeftLegLayer => PlayerBodyPartType::LeftLeg,
            PlayerBodyPartType::RightLegLayer => PlayerBodyPartType::RightLeg,
            _ => *self,
        }
    }

    /// The layer drawn over a base part; layers map to themselves.
    pub fn get_layer_part(&self) -> (r: Self)
        ensures
            r == spec_layer_part(*self),
            !is_base_part(r),
    {
        match self {
            PlayerBodyPartType::Head => PlayerBodyPartType::HeadLayer,
            PlayerBodyPartType::Body => PlayerBodyPartType::BodyLayer,
            PlayerBodyPartType::LeftArm => PlayerBodyPartType::LeftArmLayer,
            PlayerBodyPartType::RightArm => PlayerBodyPartType::RightArmLayer,
            PlayerBodyPartType::LeftLeg => PlayerBodyPartType::LeftLegLayer,
            PlayerBodyPartType::RightLeg => PlayerBodyPartType::RightLegLayer,
            _ => *self,
        }
    }

    /// True for either arm or either arm layer.
    pub fn is_arm(&self) -> (r: bool)
        ensures
            r == spec_is_arm(*self),
    {
        let p = self.get_non_layer_part();
        match p {
            PlayerBodyPartType::LeftArm | PlayerBodyPartType::RightArm => true,
            _ => false,
        }
    }

    /// True for either leg or either leg layer.
    pub fn is_leg(&self) -> (r: bool)
        ensures
            r == spec_is_leg(*self),
    {
        let p = self.get_non_layer_part();
        match p {
            PlayerBodyPartType::LeftLeg | PlayerBodyPartType::RightLeg => true,
            _ => false,
        }
    }

    /// Every body part, in declaration order.
    pub fn all() -> (r: Vec<PlayerBodyPartType>)
        ensures
            r@ == all_body_parts(),
    {
        let r = vec![
            PlayerBodyPartType::Head,
            PlayerBodyPartType::Body,
            PlayerBodyPartType::LeftArm,
            PlayerBodyPartType::RightArm,
            PlayerBodyPartType::LeftLeg,
            PlayerBodyPartType::RightLeg,
            PlayerBodyPartType::HeadLayer,
            PlayerBodyPartType::BodyLayer,
            PlayerBodyPartType::LeftArmLayer,
            PlayerBodyPartType::RightArmLayer,
            PlayerBodyPartType::LeftLegLayer,
            PlayerBodyPartType::RightLegLayer,
        ];
        assert(r@ =~= all_body_parts());
        r
    }
}


/// Byte-wise equality of two string slices, stated over their character views.
pub fn str_eq(a: &str, b: &str) -> (r: bool)
    ensures
        r == (a@ == b@),
{
    let ab = a.as_bytes();
    let bb = b.as_bytes();
    proof {
        vstd::utf8::encode_utf8_decode_utf8(a@);
        vstd::utf8::encode_utf8_decode_utf8(b@);
    }
    if ab.len() != bb.len() {
        return false;
    }
    let mut i: usize = 0;
    while i < ab.len()
        invariant
            ab@ == a.spec_bytes(),
            bb@ == b.spec_bytes(),
            ab@.len() == bb@.len(),
            i <= ab@.len(),
            forall|j: int| 0 <= j < i ==> ab@[j] == bb@[j],
            vstd::utf8::decode_utf8(a.spec_bytes()) == a@,
            vstd::utf8::decode_utf8(b.spec_bytes()) == b@,
        decreases ab@.len() - i,
    {
        if ab[i] != bb[i] {
            return false;
        }
        i = i + 1;
    }
    assert(ab@ =~= bb@);
    true
}

/// The texture a part samples from.
#[derive(Debug, Clone, Copy, Hash, PartialOrd, Ord)]
pub enum PlayerPartTextureType {
    Shadow,
    Cape,
    Skin,
    Custom { key: &'static str, size: (u32, u32), is_emissive: bool },
}

/// Texture identity: same variant, and for custom textures the same key, size
/// and emissive flag.
pub open spec fn same_texture(a: PlayerPartTextureType, b: PlayerPartTextureType) -> bool {
    match (a, b) {
        (PlayerPartTextureType::Shadow, PlayerPartTextureType::Shadow) => true,
        (PlayerPartTextureType::Cape, PlayerPartTextureType::Cape) => true,
        (PlayerPartTextureType::Skin, PlayerPartTextureType::Skin) => true,
        (
            PlayerPartTextureType::Custom { key: k1, size: s1, is_emissive: e1 },
            PlayerPartTextureType::Custom { key: k2, size: s2, is_emissive: e2 },
        ) => k1@ == k2@ && s1 == s2 && e1 == e2,
        _ => false,
    }
}

impl PartialEq for PlayerPartTextureType {
    fn eq(&self, other: &Self) -> (r: bool) {
        match (self, other) {
            (PlayerPartTextureType::Shadow, PlayerPartTextureType::Shadow) => true,
            (PlayerPartTextureType::Cape, PlayerPartTextureType::Cape) => true,
            (PlayerPartTextureType::Skin, PlayerPartTextureType::Skin) => true,
            (
                PlayerPartTextureType::Custom { key: k1, size: s1, is_emissive: e1 },
                PlayerPartTextureType::Custom { key: k2, size: s2, is_emissive: e2 },
            ) => str_eq(k1, k2) && s1.0 == s2.0 && s1.1 == s2.1 && *e1 == *e2,
            _ => false,
        }
    }
}

impl PartialEqSpecImpl for PlayerPartTextureType {
    open spec fn obeys_eq_spec() -> bool {
        true
    }

    open spec fn eq_spec(&self, other: &Self) -> bool {
        same_texture(*self, *other)
    }
}

impl Eq for PlayerPartTextureType {}

/// Width and height in pixels of the image a texture type stands for.
pub open spec fn spec_texture_size(t: PlayerPartTextureType) -> (u32, u32) {
    match t {
        PlayerPartTextureType::Skin => (64, 64),
        PlayerPartTextureType::Cape => (64, 32),
        PlayerPartTextureType::Custom { size, .. } => size,
        PlayerPartTextureType::Shadow => (128, 128),
    }
}

impl PlayerPartTextureType {
    /// Width and height in pixels of the texture image.
    pub fn get_texture_size(&self) -> (r: (u32, u32))
        ensures
            r == spec_texture_size(*self),
    {
        match self {
            PlayerPartTextureType::Skin => (64, 64),
            PlayerPartTextureType::Cape => (64, 32),
            PlayerPartTextureType::Custom { size, .. } => *size,
            PlayerPartTextureType::Shadow => (128, 128),
        }
    }

    pub fn is_shadow(&self) -> (r: bool)
        ensures
            r == (*self is Shadow),
    {
        match self {
            PlayerPartTextureType::Shadow => true,
            _ => false,
        }
    }

    /// The variant's name, used as a label for render passes and samplers.
    pub fn variant_name(&self) -> (r: &'static str)
        ensures
            r@ == (match *self {
                PlayerPartTextureType::Shadow => "Shadow"@,
                PlayerPartTextureType::Cape => "Cape"@,
                PlayerPartTextureType::Skin => "Skin"@,
                PlayerPartTextureType::Custom { .. } => "Custom"@,
            }),
    {
        match self {
            PlayerPartTextureType::Shadow => "Shadow",
            PlayerPartTextureType::Cape => "Cape",
            PlayerPartTextureType::Skin => "Skin",
            PlayerPartTextureType::Custom { .. } => "Custom",
        }
    }

    /// The human readable name: the variant's name, or the key of a custom texture.
    pub fn display_name(&self) -> (r: &'static str)
        ensures
            r@ == (match *self {
                PlayerPartTextureType::Shadow => "Shadow"@,
                PlayerPartTextureType::Cape => "Cape"@,
                PlayerPartTextureType::Skin => "Skin"@,
                PlayerPartTextureType::Custom { key, .. } => key@,
            }),
    {
        match self {
            PlayerPartTextureType::Shadow => "Shadow",
            PlayerPartTextureType::Cape => "Cape",
            PlayerPartTextureType::Skin => "Skin",
            PlayerPartTextureType::Custom { key, .. } => key,
        }
    }
}


/// Going from a base part to its layer and back gives the base part; going
/// from a layer to its base part and back gives the layer.
pub proof fn lemma_layer_round_trip(p: PlayerBodyPartType)
    ensures
        is_base_part(p) ==> spec_non_layer_part(spec_layer_part(p)) == p,
        !is_base_part(p) ==> spec_layer_part(spec_non_layer_part(p)) == p,
        spec_non_layer_part(spec_non_layer_part(p)) == spec_non_layer_part(p),
        spec_layer_part(spec_layer_part(p)) == spec_layer_part(p),
{
}

/// A part is an outer layer (the hat included) exactly when it is not a base
/// part, exactly when it differs from the part under it.
pub proof fn lemma_layers_are_the_non_base_parts(p: PlayerBodyPartType)
    ensures
        (spec_is_layer(p) || p == PlayerBodyPartType::HeadLayer) <==> !is_base_part(p),
        !is_base_part(p) <==> spec_non_layer_part(p) != p,
{
}

/// Whether a part is an arm or a leg does not change with its layer.
pub proof fn lemma_limb_kind_ignores_layers(p: PlayerBodyPartType)
    ensures
        spec_is_arm(spec_layer_part(p)) == spec_is_arm(p),
        spec_is_leg(spec_layer_part(p)) == spec_is_leg(p),
        !(spec_is_arm(p) && spec_is_leg(p)),
{
}

/// The list of all body parts holds every part exactly once.
pub proof fn lemma_all_body_parts_lists_each_once(p: PlayerBodyPartType)
    ensures
        all_body_parts().contains(p),
        all_body_parts().no_duplicates(),
        all_body_parts().len() == 12,
{
    let a = all_body_parts();
    match p {
        PlayerBodyPartType::Head => assert(a[0] == p),
        PlayerBodyPartType::Body => assert(a[1] == p),
        PlayerBodyPartType::LeftArm => assert(a[2] == p),
        PlayerBodyPartType::RightArm => assert(a[3] == p),
        PlayerBodyPartType::LeftLeg => assert(a[4] == p),
        PlayerBodyPartType::RightLeg => assert(a[5] == p),
        PlayerBodyPartType::HeadLayer => assert(a[6] == p),
        PlayerBodyPartType::BodyLayer => assert(a[7] == p),
        PlayerBodyPartType::LeftArmLayer => assert(a[8] == p),
        PlayerBodyPartType::RightArmLayer => assert(a[9] == p),
        PlayerBodyPartType::LeftLegLayer => assert(a[10] == p),
        PlayerBodyPartType::RightLegLayer => assert(a[11] == p),
    }
}

/// Texture identity is an equivalence: `==` on textures is reflexive,
/// symmetric and transitive.
pub proof fn lemma_same_texture_is_equivalence(
    a: PlayerPartTextureType,
    b: PlayerPartTextureType,
    c: PlayerPartTextureType,
)
    ensures
        same_texture(a, a),
        same_texture(a, b) ==> same_texture(b, a),
        same_texture(a, b) && same_texture(b, c) ==> same_texture(a, c),
{
}

/// Equal textures have the same size.
pub proof fn lemma_same_texture_same_size(a: PlayerPartTextureType, b: PlayerPartTextureType)
    requires
        same_texture(a, b),
    ensures
        spec_texture_size(a) == spec_texture_size(b),
{
}

} // verus!
