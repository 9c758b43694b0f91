use nmsr_player_parts::minecraft::{
    armor_textures, cape_cube, compute_base_part, compute_layer_part, deadmau5_ear_cube,
    get_body_part_layer_uv_offset, get_part_group_name, MinecraftPlayerPartsProvider, shadow_face_uv, skips_part,
    MinecraftPartPiece, PlayerPartProviderContext, SlotTextures,
};
use nmsr_player_parts::model::{ArmorMaterial, PlayerArmorSlot, PlayerArmorSlots, PlayerModel};
use nmsr_player_parts::types::{PlayerBodyPartType, PlayerPartTextureType};
use nmsr_player_parts::uv::{box_uv, uv_from_pos_and_size, FaceUvPoint};

#[derive(Debug, Clone, Copy)]
struct Iron;

impl ArmorMaterial for Iron {
    fn get_texture_type(slot: PlayerArmorSlot) -> Option<PlayerPartTextureType> {
        if slot == PlayerArmorSlot::Boots {
            None
        } else {
            Some(PlayerPartTextureType::Custom { key: "iron", size: (64, 32), is_emissive: false })
        }
    }
}

fn context<M>(armor_slots: Option<PlayerArmorSlots<M>>) -> PlayerPartProviderContext<M> {
    PlayerPartProviderContext {
        model: PlayerModel::Steve,
        has_hat_layer: true,
        has_layers: true,
        has_cape: false,
        has_deadmau5_ears: false,
        is_flipped_upside_down: false,
        shadow_is_square: false,
        armor_slots,
        ears_features: None,
    }
}

#[test]
fn base_parts() {
    let head = compute_base_part(PlayerBodyPartType::Head, false);
    assert_eq!(head.pos, [-4, 24, -4]);
    assert_eq!(head.size, [8, 8, 8]);
    assert_eq!(head.face_uvs, box_uv(8, 8, [8, 8, 8]));
    assert_eq!(head.texture, PlayerPartTextureType::Skin);
    let slim = compute_base_part(PlayerBodyPartType::LeftArm, true);
    assert_eq!(slim.pos, [-7, 12, -2]);
    assert_eq!(slim.size, [3, 12, 4]);
    let wide = compute_base_part(PlayerBodyPartType::LeftArm, false);
    assert_eq!(wide.pos, [-8, 12, -2]);
    assert_eq!(compute_base_part(PlayerBodyPartType::RightLeg, true).face_uvs, box_uv(4, 20, [4, 12, 4]));
}

#[test]
fn group_names_and_layer_offsets() {
    assert_eq!(get_part_group_name(PlayerBodyPartType::LeftArm), "Left Arm");
    assert_eq!(get_part_group_name(PlayerBodyPartType::RightLeg), "Right Leg");
    assert_eq!(get_body_part_layer_uv_offset(PlayerBodyPartType::Head), (32, 0));
    assert_eq!(get_body_part_layer_uv_offset(PlayerBodyPartType::LeftLeg), (-16, 0));
    assert_eq!(get_body_part_layer_uv_offset(PlayerBodyPartType::Body), (0, 16));
}

#[test]
fn layer_parts_use_the_layer_region() {
    let hat = compute_layer_part(PlayerBodyPartType::Head, false);
    assert_eq!(hat.face_uvs, box_uv(40, 8, [8, 8, 8]));
    assert_eq!(hat.pos, [-4, 24, -4]);
    let left_pants = compute_layer_part(PlayerBodyPartType::LeftLeg, false);
    assert_eq!(left_pants.face_uvs.north.top_left, FaceUvPoint { x: 4, y: 52 });
    let jacket = compute_layer_part(PlayerBodyPartType::Body, true);
    assert_eq!(jacket.face_uvs.north.top_left, FaceUvPoint { x: 20, y: 36 });
}

#[test]
fn cape_ears_and_shadow() {
    let cape = cape_cube();
    assert_eq!(cape.texture, PlayerPartTextureType::Cape);
    assert_eq!(cape.face_uvs, box_uv(1, 1, [10, 16, 1]));
    let ear = deadmau5_ear_cube();
    assert_eq!(ear.pos, [-8, 30, -1]);
    assert_eq!(ear.face_uvs.north.top_left, FaceUvPoint { x: 25, y: 1 });
    assert_eq!(shadow_face_uv(), uv_from_pos_and_size(0, 0, 128, 128));
}

#[test]
fn layers_turned_off() {
    let mut ctx = context::<()>(None);
    ctx.has_layers = false;
    assert!(skips_part(&ctx, PlayerBodyPartType::BodyLayer));
    assert!(!skips_part(&ctx, PlayerBodyPartType::HeadLayer));
    let none = SlotTextures { helmet: None, chestplate: None, leggings: None, boots: None };
    assert!(MinecraftPlayerPartsProvider.get_parts(&ctx, PlayerBodyPartType::LeftArmLayer, &none).is_empty());
    ctx.has_hat_layer = false;
    assert!(MinecraftPlayerPartsProvider.get_parts(&ctx, PlayerBodyPartType::HeadLayer, &none).is_empty());
}

#[test]
fn hat_layer_with_deadmau5_ears() {
    let mut ctx = context::<()>(None);
    ctx.has_deadmau5_ears = true;
    let none = SlotTextures { helmet: None, chestplate: None, leggings: None, boots: None };
    let plan = MinecraftPlayerPartsProvider.get_parts(&ctx, PlayerBodyPartType::HeadLayer, &none);
    assert_eq!(plan.len(), 3);
    assert!(matches!(plan[0], MinecraftPartPiece::Layer { part: PlayerBodyPartType::Head, .. }));
    assert!(matches!(plan[1], MinecraftPartPiece::Deadmau5Ear { right: false, .. }));
    assert!(matches!(plan[2], MinecraftPartPiece::Deadmau5Ear { right: true, .. }));
    let jacket = MinecraftPlayerPartsProvider.get_parts(&ctx, PlayerBodyPartType::BodyLayer, &none);
    assert_eq!(jacket.len(), 1);
}

#[test]
fn body_with_cape_and_armor() {
    let slots = PlayerArmorSlots { helmet: None, chestplate: Some(Iron), leggings: Some(Iron), boots: Some(Iron) };
    let mut ctx = context(Some(slots));
    ctx.has_cape = true;
    let textures = armor_textures(&ctx.armor_slots);
    assert!(textures.helmet.is_none());
    assert!(textures.chestplate.is_some());
    assert!(textures.boots.is_none());
    let plan = MinecraftPlayerPartsProvider.get_parts(&ctx, PlayerBodyPartType::Body, &textures);
    assert_eq!(plan.len(), 4);
    assert!(matches!(plan[0], MinecraftPartPiece::Base { .. }));
    assert!(matches!(plan[1], MinecraftPartPiece::Cape(_)));
    assert!(matches!(plan[2], MinecraftPartPiece::Armor { slot: PlayerArmorSlot::Leggings, sleeve: false, .. }));
    assert!(matches!(plan[3], MinecraftPartPiece::Armor { slot: PlayerArmorSlot::Chestplate, sleeve: false, .. }));
    let arm = MinecraftPlayerPartsProvider.get_parts(&ctx, PlayerBodyPartType::RightArm, &textures);
    assert_eq!(arm.len(), 2);
    assert!(matches!(arm[1], MinecraftPartPiece::Armor { slot: PlayerArmorSlot::Chestplate, sleeve: true, .. }));
    // Boots are worn but the material has no boots texture.
    let leg = MinecraftPlayerPartsProvider.get_parts(&ctx, PlayerBodyPartType::LeftLeg, &textures);
    assert_eq!(leg.len(), 2);
    if let MinecraftPartPiece::Armor { cube, .. } = leg[1] {
        assert_eq!(cube.texture, PlayerPartTextureType::Custom { key: "iron", size: (64, 32), is_emissive: false });
        assert_eq!(cube.size, [4, 12, 4]);
    } else {
        panic!("expected leggings");
    }
}

#[test]
fn slim_armor_uses_wide_arms() {
    let slots = PlayerArmorSlots { helmet: None, chestplate: Some(Iron), leggings: None, boots: None };
    let mut ctx = context(Some(slots));
    ctx.model = PlayerModel::Alex;
    let textures = armor_textures(&ctx.armor_slots);
    let plan = MinecraftPlayerPartsProvider.get_parts(&ctx, PlayerBodyPartType::LeftArm, &textures);
    if let (MinecraftPartPiece::Base { cube: base, .. }, MinecraftPartPiece::Armor { cube, .. }) = (plan[0], plan[1]) {
        assert_eq!(base.size, [3, 12, 4]);
        assert_eq!(cube.size, [4, 12, 4]);
    } else {
        panic!("expected the arm and its sleeve");
    }
}
