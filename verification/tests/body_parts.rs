use nmsr_player_parts::model::{ArmorMaterial, PlayerArmorSlot, PlayerArmorSlots, PlayerModel};
use nmsr_player_parts::types::{PlayerBodyPartType, PlayerPartTextureType};

#[test]
fn layer_and_base_parts_map_to_each_other() {
    for part in PlayerBodyPartType::all() {
        let base = part.get_non_layer_part();
        let layer = part.get_layer_part();
        assert_eq!(base.get_layer_part(), layer);
        assert_eq!(layer.get_non_layer_part(), base);
    }
    assert_eq!(PlayerBodyPartType::LeftArmLayer.get_non_layer_part(), PlayerBodyPartType::LeftArm);
    assert_eq!(PlayerBodyPartType::Head.get_layer_part(), PlayerBodyPartType::HeadLayer);
    assert_eq!(PlayerBodyPartType::HeadLayer.get_layer_part(), PlayerBodyPartType::HeadLayer);
}

#[test]
fn hat_layer_is_not_a_layer() {
    assert!(!PlayerBodyPartType::HeadLayer.is_layer());
    assert!(PlayerBodyPartType::HeadLayer.is_hat_layer());
    assert!(PlayerBodyPartType::BodyLayer.is_layer());
    assert!(!PlayerBodyPartType::Body.is_layer());
    assert!(!PlayerBodyPartType::BodyLayer.is_hat_layer());
}

#[test]
fn arms_and_legs_include_their_layers() {
    assert!(PlayerBodyPartType::LeftArm.is_arm());
    assert!(PlayerBodyPartType::RightArmLayer.is_arm());
    assert!(!PlayerBodyPartType::Body.is_arm());
    assert!(PlayerBodyPartType::LeftLegLayer.is_leg());
    assert!(PlayerBodyPartType::RightLeg.is_leg());
    assert!(!PlayerBodyPartType::RightArm.is_leg());
}

#[test]
fn all_body_parts_in_order() {
    let all = PlayerBodyPartType::all();
    assert_eq!(all.len(), 12);
    assert_eq!(all[0], PlayerBodyPartType::Head);
    assert_eq!(all[5], PlayerBodyPartType::RightLeg);
    assert_eq!(all[6], PlayerBodyPartType::HeadLayer);
    assert_eq!(all[11], PlayerBodyPartType::RightLegLayer);
}

#[test]
fn texture_sizes_and_names() {
    assert_eq!(PlayerPartTextureType::Skin.get_texture_size(), (64, 64));
    assert_eq!(PlayerPartTextureType::Cape.get_texture_size(), (64, 32));
    assert_eq!(PlayerPartTextureType::Shadow.get_texture_size(), (128, 128));
    let custom = PlayerPartTextureType::Custom { key: "k", size: (3, 5), is_emissive: false };
    assert_eq!(custom.get_texture_size(), (3, 5));
    assert!(PlayerPartTextureType::Shadow.is_shadow());
    assert!(!custom.is_shadow());
    assert_eq!(custom.display_name(), "k");
    assert_eq!(custom.variant_name(), "Custom");
    assert_eq!(PlayerPartTextureType::Skin.display_name(), "Skin");
}

#[test]
fn texture_equality_compares_keys() {
    let a = PlayerPartTextureType::Custom { key: "ears_wings", size: (20, 16), is_emissive: false };
    let b = PlayerPartTextureType::Custom { key: "ears_wings", size: (20, 16), is_emissive: false };
    let c = PlayerPartTextureType::Custom { key: "ears_cape", size: (20, 16), is_emissive: false };
    let d = PlayerPartTextureType::Custom { key: "ears_wings", size: (20, 16), is_emissive: true };
    assert!(a == b);
    assert!(a != c);
    assert!(a != d);
    assert!(PlayerPartTextureType::Skin != PlayerPartTextureType::Cape);
    assert_eq!(nmsr_player_parts::types::str_eq("abc", "abc"), true);
    assert_eq!(nmsr_player_parts::types::str_eq("abc", "abd"), false);
    assert_eq!(nmsr_player_parts::types::str_eq("abc", "ab"), false);
}

#[test]
fn player_model_arms() {
    assert!(PlayerModel::Alex.is_slim_arms());
    assert!(!PlayerModel::Steve.is_slim_arms());
    assert_eq!(PlayerModel::default(), PlayerModel::Steve);
}

#[test]
fn armor_slot_for_part() {
    assert_eq!(PlayerArmorSlot::get_slot_for_part(PlayerBodyPartType::Head), PlayerArmorSlot::Helmet);
    assert_eq!(PlayerArmorSlot::get_slot_for_part(PlayerBodyPartType::HeadLayer), PlayerArmorSlot::Helmet);
    assert_eq!(PlayerArmorSlot::get_slot_for_part(PlayerBodyPartType::LeftArm), PlayerArmorSlot::Chestplate);
    assert_eq!(PlayerArmorSlot::get_slot_for_part(PlayerBodyPartType::Body), PlayerArmorSlot::Chestplate);
    assert_eq!(PlayerArmorSlot::get_slot_for_part(PlayerBodyPartType::RightLegLayer), PlayerArmorSlot::Leggings);
    assert_eq!(PlayerArmorSlot::Leggings.layer_id(), 2);
    assert_eq!(PlayerArmorSlot::Boots.layer_id(), 1);
    assert!(PlayerArmorSlot::Leggings.is_leggings());
    assert!(!PlayerArmorSlot::Helmet.is_leggings());
}

#[test]
fn armor_tables_agree() {
    for slot in PlayerArmorSlot::all() {
        for part in PlayerArmorSlots::<()>::get_parts_for_armor_slot(slot) {
            assert!(PlayerArmorSlots::<()>::get_armor_slots_for_part(&part).contains(&slot));
        }
    }
    assert_eq!(
        PlayerArmorSlots::<()>::get_armor_slots_for_part(&PlayerBodyPartType::Body),
        vec![PlayerArmorSlot::Leggings, PlayerArmorSlot::Chestplate]
    );
    assert_eq!(
        PlayerArmorSlots::<()>::get_parts_for_armor_slot(PlayerArmorSlot::Boots),
        vec![PlayerBodyPartType::LeftLeg, PlayerBodyPartType::RightLeg]
    );
}

#[test]
fn materials_in_slots_in_order() {
    let slots = PlayerArmorSlots { helmet: Some(1u8), chestplate: None, leggings: Some(3u8), boots: Some(4u8) };
    let all = slots.get_all_materials_in_slots();
    assert_eq!(all, vec![(&1u8, PlayerArmorSlot::Helmet), (&3u8, PlayerArmorSlot::Leggings), (&4u8, PlayerArmorSlot::Boots)]);
    assert_eq!(slots.get_armor_slot(PlayerArmorSlot::Chestplate), None);
    assert_eq!(slots.get_armor_slot(PlayerArmorSlot::Boots), Some(&4u8));
    let empty: PlayerArmorSlots<u8> = PlayerArmorSlots::default();
    assert!(empty.get_all_materials_in_slots().is_empty());
}

#[test]
fn unit_material_has_no_texture() {
    assert_eq!(<() as ArmorMaterial>::get_texture_type(PlayerArmorSlot::Helmet), None);
}
