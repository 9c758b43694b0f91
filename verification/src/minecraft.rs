use vstd::prelude::*;
use crate::types::{
    PlayerBodyPartType, PlayerPartTextureType, is_base_part, spec_is_layer, spec_non_layer_part,
};
use crate::uv::{CubeFaceUvs, FaceUvPoint, box_uv, point, spec_box_uv};
use crate::model::{
    ArmorMaterial, PlayerArmorSlot, PlayerArmorSlots, PlayerModel, material_names, spec_armor_slots_for_part,
};
use crate::ears::EarsFeatures;

verus! {

/// A textured cube of the player model in pixel units, before it is placed in space.
#[derive(Debug, Clone, Copy)]
pub struct CubePart {
    pub texture: PlayerPartTextureType,
    /// Position of the cube's minimum corner.
    pub pos: [i32; 3],
    /// Width, height and depth.
    pub size: [u16; 3],
    pub face_uvs: CubeFaceUvs,
}

/// A skin cube of `size` at `pos` whose box texture layout starts at `uv`.
pub open spec fn skin_cube(pos: [i32; 3], size: [u16; 3], uv: (u16, u16)) -> CubePart {
    CubePart {
        texture: PlayerPartTextureType::Skin,
        pos,
        size,
        face_uvs: spec_box_uv(uv.0, uv.1, size),
    }
}

/// Position, size and texture origin of each base body part. Slim arms are one
/// pixel narrower, and the left slim arm sits one pixel further in.
pub open spec fn base_cube_layout(part: PlayerBodyPartType, slim: bool) -> ([i32; 3], [u16; 3], (u16, u16)) {
    match part {
        PlayerBodyPartType::Head => ([-4i32, 24i32, -4i32], [8u16, 8u16, 8u16], (8u16, 8u16)),
        PlayerBodyPartType::Body => ([-4i32, 12i32, -2i32], [8u16, 12u16, 4u16], (20u16, 20u16)),
        PlayerBodyPartType::LeftArm => if slim {
            ([-7i32, 12i32, -2i32], [3u16, 12u16, 4u16], (36u16, 52u16))
        } else {
            ([-8i32, 12i32, -2i32], [4u16, 12u16, 4u16], (36u16, 52u16))
        },
        PlayerBodyPartType::RightArm => if slim {
            ([4i32, 12i32, -2i32], [3u16, 12u16, 4u16], (44u16, 20u16))
        } else {
            ([4i32, 12i32, -2i32], [4u16, 12u16, 4u16], (44u16, 20u16))
        },
        PlayerBodyPartType::LeftLeg => ([-4i32, 0i32, -2i32], [4u16, 12u16, 4u16], (20u16, 52u16)),
        _ => ([0i32, 0i32, -2i32], [4u16, 12u16, 4u16], (4u16, 20u16)),
    }
}

pub open spec fn spec_base_part(part: PlayerBodyPartType, slim: bool) -> CubePart {
    let (pos, size, uv) = base_cube_layout(part, slim);
    skin_cube(pos, size, uv)
}

/// How far the outer layer's texture lies from the base part's texture.
pub open spec fn spec_layer_uv_offset(part: PlayerBodyPartType) -> (i32, i32) {
    match part {
        PlayerBodyPartType::Head => (32i32, 0i32),
        PlayerBodyPartType::Body => (0i32, 16i32),
        PlayerBodyPartType::LeftArm => (16i32, 0i32),
        PlayerBodyPartType::RightArm => (0i32, 16i32),
        PlayerBodyPartType::LeftLeg => (-16i32, 0i32),
        _ => (0i32, 16i32),
    }
}

/// The outer layer of a base part: the same cube, textured from the layer region.
pub open spec fn spec_layer_cube(part: PlayerBodyPartType, slim: bool) -> CubePart {
    let base = spec_base_part(part, slim);
    let off = spec_layer_uv_offset(part);
    let (_, _, uv) = base_cube_layout(part, slim);
    CubePart {
        face_uvs: spec_box_uv((uv.0 + off.0) as u16, (uv.1 + off.1) as u16, base.size),
        ..base
    }
}

pub open spec fn spec_group_name(part: PlayerBodyPartType) -> Seq<char> {
    match part {
        PlayerBodyPartType::Head => "Head"@,
        PlayerBodyPartType::Body => "Body"@,
        PlayerBodyPartType::LeftArm => "Left Arm"@,
        PlayerBodyPartType::RightArm => "Right Arm"@,
        PlayerBodyPartType::LeftLeg => "Left Leg"@,
        _ => "Right Leg"@,
    }
}

/// The cube of a base body part.
pub fn compute_base_part(non_layer_body_part_type: PlayerBodyPartType, is_slim_arms: bool) -> (r: CubePart)
    requires
        is_base_part(non_layer_body_part_type),
    ensures
        r == spec_base_part(non_layer_body_part_type, is_slim_arms),
{
    let (pos, size, uv): ([i32; 3], [u16; 3], (u16, u16)) = match non_layer_body_part_type {
        PlayerBodyPartType::Head => ([-4, 24, -4], [8, 8, 8], (8, 8)),
        PlayerBodyPartType::Body => ([-4, 12, -2], [8, 12, 4], (20, 20)),
        PlayerBodyPartType::LeftArm => if is_slim_arms {
            ([-7, 12, -2], [3, 12, 4], (36, 52))
        } else {
            ([-8, 12, -2], [4, 12, 4], (36, 52))
        },
        PlayerBodyPartType::RightArm => if is_slim_arms {
            ([4, 12, -2], [3, 12, 4], (44, 20))
        } else {
            ([4, 12, -2], [4, 12, 4], (44, 20))
        },
        PlayerBodyPartType::LeftLeg => ([-4, 0, -2], [4, 12, 4], (20, 52)),
        _ => ([0, 0, -2], [4, 12, 4], (4, 20)),
    };
    CubePart {
        texture: PlayerPartTextureType::Skin,
        pos,
        size,
        face_uvs: box_uv(uv.0, uv.1, size),
    }
}

/// The name of the group a base body part's pieces are put in.
pub fn get_part_group_name(non_layer_body_part_type: PlayerBodyPartType) -> (r: &'static str)
    requires
        is_base_part(non_layer_body_part_type),
    ensures
        r@ == spec_group_name(non_layer_body_part_type),
{
    match non_layer_body_part_type {
        PlayerBodyPartType::Head => "Head",
        PlayerBodyPartType::Body => "Body",
        PlayerBodyPartType::LeftArm => "Left Arm",
        PlayerBodyPartType::RightArm => "Right Arm",
        PlayerBodyPartType::LeftLeg => "Left Leg",
        _ => "Right Leg",
    }
}

/// How far the outer layer's texture lies from the base part's texture.
pub fn get_body_part_layer_uv_offset(non_layer_body_part_type: PlayerBodyPartType) -> (r: (i32, i32))
    requires
        is_base_part(non_layer_body_part_type),
    ensures
        r == spec_layer_uv_offset(non_layer_body_part_type),
{
    match non_layer_body_part_type {
        PlayerBodyPartType::Head => (32, 0),
        PlayerBodyPartType::Body => (0, 16),
        PlayerBodyPartType::LeftArm => (16, 0),
        PlayerBodyPartType::RightArm => (0, 16),
        PlayerBodyPartType::LeftLeg => (-16, 0),
        _ => (0, 16),
    }
}

/// The outer layer of a base part: the base cube, textured from the layer
/// region found by moving the base texture origin by the layer offset.
pub fn compute_layer_part(non_layer_body_part_type: PlayerBodyPartType, is_slim_arms: bool) -> (r: CubePart)
    requires
        is_base_part(non_layer_body_part_type),
    ensures
        r == spec_layer_cube(non_layer_body_part_type, is_slim_arms),
{
    let part = compute_base_part(non_layer_body_part_type, is_slim_arms);
    let offset = get_body_part_layer_uv_offset(non_layer_body_part_type);
    let current: FaceUvPoint = part.face_uvs.north.top_left;
    let x = (current.x as i32 + offset.0) as u16;
    let y = (current.y as i32 + offset.1) as u16;
    CubePart { face_uvs: box_uv(x, y, part.size), ..part }
}


/// The cape: a thin cube textured from the cape image.
pub open spec fn spec_cape_cube() -> CubePart {
    CubePart {
        texture: PlayerPartTextureType::Cape,
        pos: [-5i32, 8i32, 1i32],
        size: [10u16, 16u16, 1u16],
        face_uvs: spec_box_uv(1, 1, [10u16, 16u16, 1u16]),
    }
}

/// A deadmau5 ear: a thin square cube textured from the skin.
pub open spec fn spec_deadmau5_ear_cube() -> CubePart {
    skin_cube([-8i32, 30i32, -1i32], [6u16, 6u16, 1u16], (25u16, 1u16))
}

pub fn cape_cube() -> (r: CubePart)
    ensures
        r == spec_cape_cube(),
{
    let size: [u16; 3] = [10, 16, 1];
    CubePart { texture: PlayerPartTextureType::Cape, pos: [-5, 8, 1], size, face_uvs: box_uv(1, 1, size) }
}

pub fn deadmau5_ear_cube() -> (r: CubePart)
    ensures
        r == spec_deadmau5_ear_cube(),
{
    let size: [u16; 3] = [6, 6, 1];
    CubePart { texture: PlayerPartTextureType::Skin, pos: [-8, 30, -1], size, face_uvs: box_uv(25, 1, size) }
}

/// Everything a part provider needs to know about the player, apart from the
/// arm swing and the shadow height, which only place parts in space.
#[derive(Debug, Clone, Copy)]
pub struct PlayerPartProviderContext<M> {
    pub model: PlayerModel,
    pub has_hat_layer: bool,
    pub has_layers: bool,
    pub has_cape: bool,
    pub has_deadmau5_ears: bool,
    pub is_flipped_upside_down: bool,
    pub shadow_is_square: bool,
    pub armor_slots: Option<PlayerArmorSlots<M>>,
    pub ears_features: Option<EarsFeatures>,
}

/// The texture each worn slot's armor is drawn with, as its material names it.
#[derive(Debug, Clone, Copy)]
pub struct SlotTextures {
    pub helmet: Option<PlayerPartTextureType>,
    pub chestplate: Option<PlayerPartTextureType>,
    pub leggings: Option<PlayerPartTextureType>,
    pub boots: Option<PlayerPartTextureType>,
}

impl SlotTextures {
    pub open spec fn spec_get(self, slot: PlayerArmorSlot) -> Option<PlayerPartTextureType> {
        match slot {
            PlayerArmorSlot::Helmet => self.helmet,
            PlayerArmorSlot::Chestplate => self.chestplate,
            PlayerArmorSlot::Leggings => self.leggings,
            PlayerArmorSlot::Boots => self.boots,
        }
    }

    pub fn get(&self, slot: PlayerArmorSlot) -> (r: Option<PlayerPartTextureType>)
        ensures
            r == self.spec_get(slot),
    {
        match slot {
            PlayerArmorSlot::Helmet => self.helmet,
            PlayerArmorSlot::Chestplate => self.chestplate,
            PlayerArmorSlot::Leggings => self.leggings,
            PlayerArmorSlot::Boots => self.boots,
        }
    }
}

/// Asks the armor material for the texture of each worn slot. Slots that are
/// empty get no texture; what a worn slot gets is the material's answer.
pub fn armor_textures<M: ArmorMaterial>(armor_slots: &Option<PlayerArmorSlots<M>>) -> (r: SlotTextures)
    ensures
        forall|slot: PlayerArmorSlot|
            !(armor_slots matches Some(s) && s.spec_slot(slot) is Some) ==> #[trigger] r.spec_get(slot) is None,
        forall|slot: PlayerArmorSlot|
            (armor_slots matches Some(s) && s.spec_slot(slot) is Some) ==> material_names::<M>(
                slot,
                #[trigger] r.spec_get(slot),
            ),
        forall|slot: PlayerArmorSlot|
            #[trigger] r.spec_get(slot) is Some ==> (armor_slots matches Some(s) && s.spec_slot(slot) is Some),
{
    match armor_slots {
        None => SlotTextures { helmet: None, chestplate: None, leggings: None, boots: None },
        Some(s) => SlotTextures {
            helmet: if s.helmet.is_some() { M::get_texture_type(PlayerArmorSlot::Helmet) } else { None },
            chestplate: if s.chestplate.is_some() { M::get_texture_type(PlayerArmorSlot::Chestplate) } else { None },
            leggings: if s.leggings.is_some() { M::get_texture_type(PlayerArmorSlot::Leggings) } else { None },
            boots: if s.boots.is_some() { M::get_texture_type(PlayerArmorSlot::Boots) } else { None },
        },
    }
}

/// One piece the vanilla provider draws for a body part.
#[derive(Debug, Clone, Copy)]
pub enum MinecraftPartPiece {
    /// The base body part `part`, drawn as is.
    Base { part: PlayerBodyPartType, cube: CubePart },
    /// The outer layer over the base part `part`, grown by the layer offset.
    Layer { part: PlayerBodyPartType, cube: CubePart },
    /// One of the two deadmau5 ears; the right one is moved across the head.
    Deadmau5Ear { right: bool, cube: CubePart },
    /// The cape, turned and hung from the shoulders.
    Cape(CubePart),
    /// Armor over the base part `part`, grown by the slot's offset; `sleeve`
    /// marks a chestplate over an arm, which grows a little more in depth.
    Armor { part: PlayerBodyPartType, slot: PlayerArmorSlot, cube: CubePart, sleeve: bool },
}

/// Whether a provider draws nothing for a body part because the context turns
/// its layer off.
pub open spec fn spec_skips_part<M>(ctx: PlayerPartProviderContext<M>, p: PlayerBodyPartType) -> bool {
    (spec_is_layer(p) && !ctx.has_layers) || (p == PlayerBodyPartType::HeadLayer && !ctx.has_hat_layer)
}

pub open spec fn armor_piece_applies<M>(
    ctx: PlayerPartProviderContext<M>,
    textures: SlotTextures,
    slot: PlayerArmorSlot,
) -> bool {
    (ctx.armor_slots matches Some(s) && s.spec_slot(slot) is Some) && textures.spec_get(slot) is Some
}

pub open spec fn spec_armor_piece(
    part: PlayerBodyPartType,
    slot: PlayerArmorSlot,
    texture: PlayerPartTextureType,
) -> MinecraftPartPiece {
    MinecraftPartPiece::Armor {
        part,
        slot,
        cube: CubePart { texture, ..spec_base_part(part, false) },
        sleeve: slot == PlayerArmorSlot::Chestplate && part != PlayerBodyPartType::Body,
    }
}

/// The armor pieces drawn over a base part for the given slots, in slot order.
pub open spec fn armor_pieces_for<M>(
    ctx: PlayerPartProviderContext<M>,
    part: PlayerBodyPartType,
    textures: SlotTextures,
    slots: Seq<PlayerArmorSlot>,
) -> Seq<MinecraftPartPiece>
    decreases slots.len(),
{
    if slots.len() == 0 {
        Seq::empty()
    } else {
        let rest = armor_pieces_for(ctx, part, textures, slots.drop_last());
        let slot = slots.last();
        if armor_piece_applies(ctx, textures, slot) {
            rest.push(spec_armor_piece(part, slot, textures.spec_get(slot).unwrap()))
        } else {
            rest
        }
    }
}

/// The pieces the vanilla provider draws for a body part: nothing for a layer
/// the context turns off; the layer cube (and the deadmau5 ears with the hat)
/// for a layer; otherwise the base cube, the cape with the body, and the armor
/// of every worn slot whose material has a texture.
pub open spec fn spec_minecraft_plan<M>(
    ctx: PlayerPartProviderContext<M>,
    p: PlayerBodyPartType,
    textures: SlotTextures,
) -> Seq<MinecraftPartPiece> {
    let slim = ctx.model == PlayerModel::Alex;
    let base = spec_non_layer_part(p);
    if spec_skips_part(ctx, p) {
        Seq::empty()
    } else if spec_is_layer(p) || p == PlayerBodyPartType::HeadLayer {
        let layer = seq![MinecraftPartPiece::Layer { part: base, cube: spec_layer_cube(base, slim) }];
        if ctx.has_deadmau5_ears && p == PlayerBodyPartType::HeadLayer {
            layer + seq![
                MinecraftPartPiece::Deadmau5Ear { right: false, cube: spec_deadmau5_ear_cube() },
                MinecraftPartPiece::Deadmau5Ear { right: true, cube: spec_deadmau5_ear_cube() },
            ]
        } else {
            layer
        }
    } else {
        let with_cape = if p == PlayerBodyPartType::Body && ctx.has_cape {
            seq![MinecraftPartPiece::Base { part: p, cube: spec_base_part(p, slim) }, MinecraftPartPiece::Cape(spec_cape_cube())]
        } else {
            seq![MinecraftPartPiece::Base { part: p, cube: spec_base_part(p, slim) }]
        };
        with_cape + armor_pieces_for(ctx, p, textures, spec_armor_slots_for_part(p))
    }
}

/// Whether a provider draws nothing for `body_part` because the context turns
/// its layer off.
pub fn skips_part<M>(context: &PlayerPartProviderContext<M>, body_part: PlayerBodyPartType) -> (r: bool)
    ensures
        r == spec_skips_part(*context, body_part),
{
    (body_part.is_layer() && !context.has_layers) || (body_part.is_hat_layer() && !context.has_hat_layer)
}

/// The vanilla Minecraft body: base parts, their outer layers, the cape,
/// deadmau5 ears and armor.
#[derive(Debug, Clone, Copy, Default)]
pub struct MinecraftPlayerPartsProvider;

impl MinecraftPlayerPartsProvider {
    /// The pieces the vanilla Minecraft provider draws for `body_part`, given the
    /// texture each worn slot's material asks for.
    #[verifier::rlimit(40)]
    pub fn get_parts<M>(
        &self,
        context: &PlayerPartProviderContext<M>,
        body_part: PlayerBodyPartType,
        textures: &SlotTextures,
    ) -> (r: Vec<MinecraftPartPiece>)
        ensures
            r@ == spec_minecraft_plan(*context, body_part, *textures),
    {
        if skips_part(context, body_part) {
            return Vec::new();
        }
        let non_layer = body_part.get_non_layer_part();
        let slim = context.model.is_slim_arms();

        if body_part.is_layer() || body_part.is_hat_layer() {
            let mut parts = vec![MinecraftPartPiece::Layer {
                part: non_layer,
                cube: compute_layer_part(non_layer, slim),
            }];
            if context.has_deadmau5_ears && body_part.is_hat_layer() {
                parts.push(MinecraftPartPiece::Deadmau5Ear { right: false, cube: deadmau5_ear_cube() });
                parts.push(MinecraftPartPiece::Deadmau5Ear { right: true, cube: deadmau5_ear_cube() });
            }
            proof {
                let layer = seq![MinecraftPartPiece::Layer { part: non_layer, cube: spec_layer_cube(non_layer, slim) }];
                if context.has_deadmau5_ears && body_part == PlayerBodyPartType::HeadLayer {
                    assert(parts@ =~= layer + seq![
                        MinecraftPartPiece::Deadmau5Ear { right: false, cube: spec_deadmau5_ear_cube() },
                        MinecraftPartPiece::Deadmau5Ear { right: true, cube: spec_deadmau5_ear_cube() },
                    ]);
                } else {
                    assert(parts@ =~= layer);
                }
            }
            return parts;
        }

        let mut result = vec![MinecraftPartPiece::Base { part: non_layer, cube: compute_base_part(non_layer, slim) }];
        if body_part == PlayerBodyPartType::Body && context.has_cape {
            result.push(MinecraftPartPiece::Cape(cape_cube()));
        }
        let ghost head = result@;
        proof {
            if body_part == PlayerBodyPartType::Body && context.has_cape {
                assert(head =~= seq![MinecraftPartPiece::Base { part: body_part, cube: spec_base_part(body_part, slim) }, MinecraftPartPiece::Cape(spec_cape_cube())]);
            } else {
                assert(head =~= seq![MinecraftPartPiece::Base { part: body_part, cube: spec_base_part(body_part, slim) }]);
            }
        }

        let slots = PlayerArmorSlots::<()>::get_armor_slots_for_part(&non_layer);
        let mut i: usize = 0;
        while i < slots.len()
            invariant
                non_layer == body_part,
                is_base_part(body_part),
                slots@ == spec_armor_slots_for_part(body_part),
                i <= slots@.len(),
                result@ == head + armor_pieces_for(*context, body_part, *textures, slots@.take(i as int)),
            decreases slots@.len() - i,
        {
            let slot = slots[i];
            let ghost before = result@;
            let worn = match &context.armor_slots {
                Some(armor_slots) => armor_slots.get_armor_slot(slot).is_some(),
                None => false,
            };
            if worn {
                if let Some(texture) = textures.get(slot) {
                    let base = compute_base_part(non_layer, false);
                    let sleeve = slot == PlayerArmorSlot::Chestplate && non_layer != PlayerBodyPartType::Body;
                    result.push(MinecraftPartPiece::Armor { part: non_layer, slot, cube: CubePart { texture, ..base }, sleeve });
                }
            }
            proof {
                let t = slots@.take(i + 1);
                assert(t.drop_last() =~= slots@.take(i as int));
                assert(t.last() == slot);
                assert(worn == (context.armor_slots matches Some(s) && s.spec_slot(slot) is Some));
                if armor_piece_applies(*context, *textures, slot) {
                    assert(result@ =~= before.push(spec_armor_piece(body_part, slot, textures.spec_get(slot).unwrap())));
                } else {
                    assert(result@ =~= before);
                }
            }
            i = i + 1;
        }
        assert(slots@.take(slots@.len() as int) =~= slots@);
        result
    }
}


/// The providers of player parts: the vanilla body, and the Ears mod features.
#[derive(Debug, Clone, Copy, PartialEq, Eq, Structural)]
pub enum PlayerPartsProvider {
    Minecraft,
    Ears,
}

/// The face the ground shadow is drawn with: the whole 128 by 128 shadow texture.
pub fn shadow_face_uv() -> (r: crate::uv::FaceUv)
    ensures
        r == crate::uv::spec_uv_from_pos_and_size(0, 0, 128, 128),
{
    crate::uv::uv_from_pos_and_size(0, 0, 128, 128)
}


/// A body part whose layer the context turns off gets no pieces; every other
/// part starts with its own cube: the base cube for a base part, or for a
/// layer the cube of the part under it, at the same place and size, drawn
/// from the layer region of the skin.
pub proof fn lemma_plan_starts_with_the_part<M>(
    ctx: PlayerPartProviderContext<M>,
    p: PlayerBodyPartType,
    textures: SlotTextures,
)
    ensures
        spec_skips_part(ctx, p) ==> spec_minecraft_plan(ctx, p, textures).len() == 0,
        !spec_skips_part(ctx, p) ==> spec_minecraft_plan(ctx, p, textures).len() > 0,
        !spec_skips_part(ctx, p) && is_base_part(p) ==> spec_minecraft_plan(ctx, p, textures)[0]
            == (MinecraftPartPiece::Base { part: p, cube: spec_base_part(p, ctx.model == PlayerModel::Alex) }),
        !spec_skips_part(ctx, p) && !is_base_part(p) ==> (spec_minecraft_plan(ctx, p, textures)[0] matches MinecraftPartPiece::Layer { part, cube }
            && part == spec_non_layer_part(p)
            && cube.pos == spec_base_part(part, ctx.model == PlayerModel::Alex).pos
            && cube.size == spec_base_part(part, ctx.model == PlayerModel::Alex).size
            && cube.texture == PlayerPartTextureType::Skin),
{
    let slim = ctx.model == PlayerModel::Alex;
    if !spec_skips_part(ctx, p) && is_base_part(p) {
        let with_cape = if p == PlayerBodyPartType::Body && ctx.has_cape {
            seq![MinecraftPartPiece::Base { part: p, cube: spec_base_part(p, slim) }, MinecraftPartPiece::Cape(spec_cape_cube())]
        } else {
            seq![MinecraftPartPiece::Base { part: p, cube: spec_base_part(p, slim) }]
        };
        let armor = armor_pieces_for(ctx, p, textures, spec_armor_slots_for_part(p));
        assert((with_cape + armor)[0] == with_cape[0]);
    }
}

/// Every armor piece drawn is for a worn slot over the part, whose material
/// names a texture, and the piece is drawn with that texture.
pub proof fn lemma_armor_pieces_are_worn<M>(
    ctx: PlayerPartProviderContext<M>,
    p: PlayerBodyPartType,
    textures: SlotTextures,
    slots: Seq<PlayerArmorSlot>,
)
    ensures
        forall|i: int| 0 <= i < armor_pieces_for(ctx, p, textures, slots).len()
            ==> (#[trigger] armor_pieces_for(ctx, p, textures, slots)[i] matches MinecraftPartPiece::Armor { slot, cube, .. }
            && slots.contains(slot) && armor_piece_applies(ctx, textures, slot)
            && textures.spec_get(slot) == Some(cube.texture)),
    decreases slots.len(),
{
    if slots.len() > 0 {
        let init = slots.drop_last();
        lemma_armor_pieces_are_worn(ctx, p, textures, init);
        let rest = armor_pieces_for(ctx, p, textures, init);
        let all = armor_pieces_for(ctx, p, textures, slots);
        assert forall|i: int| 0 <= i < all.len() implies (#[trigger] all[i] matches MinecraftPartPiece::Armor { slot, cube, .. }
            && slots.contains(slot) && armor_piece_applies(ctx, textures, slot)
            && textures.spec_get(slot) == Some(cube.texture)) by {
            if i < rest.len() {
                assert(all[i] == rest[i]);
                if let MinecraftPartPiece::Armor { slot, .. } = rest[i] {
                    let j = choose|j: int| 0 <= j < init.len() && init[j] == slot;
                    assert(slots[j] == slot);
                }
            } else {
                assert(slots[slots.len() - 1] == slots.last());
            }
        }
    }
}


/// The texture region a box layout covers: from the left edge of its east face
/// to the right edge of its south face, and from the top of its up face to the
/// bottom of its north face.
pub open spec fn box_region(f: CubeFaceUvs) -> (int, int, int, int) {
    (f.east.top_left.x as int, f.up.top_left.y as int, f.south.top_right.x as int, f.north.bottom_left.y as int)
}

/// Two regions share no pixel.
pub open spec fn regions_disjoint(a: (int, int, int, int), b: (int, int, int, int)) -> bool {
    a.2 <= b.0 || b.2 <= a.0 || a.3 <= b.1 || b.3 <= a.1
}

/// Each base body part is painted from its own region of the 64 by 64 skin: the
/// regions lie inside the skin and no two parts share a pixel, for either arm width.
pub proof fn lemma_base_parts_use_their_own_skin_regions(p: PlayerBodyPartType, q: PlayerBodyPartType, slim: bool)
    requires
        is_base_part(p),
        is_base_part(q),
        p != q,
    ensures
        ({
            let a = box_region(spec_base_part(p, slim).face_uvs);
            let b = box_region(spec_base_part(q, slim).face_uvs);
            &&& 0 <= a.0 < a.2 <= 64 && 0 <= a.1 < a.3 <= 64
            &&& regions_disjoint(a, b)
        }),
{
}

/// Where each base part's front (north) face starts on the skin: the head at
/// (8, 8), the body at (20, 20), the right arm at (44, 20), the left arm at
/// (36, 52), the right leg at (4, 20) and the left leg at (20, 52), whatever the
/// arm width.
pub proof fn lemma_base_part_skin_origins(slim: bool)
    ensures
        spec_base_part(PlayerBodyPartType::Head, slim).face_uvs.north.top_left == point(8, 8),
        spec_base_part(PlayerBodyPartType::Body, slim).face_uvs.north.top_left == point(20, 20),
        spec_base_part(PlayerBodyPartType::RightArm, slim).face_uvs.north.top_left == point(44, 20),
        spec_base_part(PlayerBodyPartType::LeftArm, slim).face_uvs.north.top_left == point(36, 52),
        spec_base_part(PlayerBodyPartType::RightLeg, slim).face_uvs.north.top_left == point(4, 20),
        spec_base_part(PlayerBodyPartType::LeftLeg, slim).face_uvs.north.top_left == point(20, 52),
{
}

} // verus!
