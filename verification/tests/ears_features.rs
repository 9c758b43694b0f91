use nmsr_player_parts::ears::{
    normalize_ear_mode, EarAnchor, EarMode, EarsFeatures, LegMode, PlayerPartEarsTextureType, SnoutData,
    TailData, TailMode, WingData, WingMode,
};
use nmsr_player_parts::ears_providers::{
    applicable_features, emissive_texture_for, is_wearing_boots, EarsPlayerPartsProvider, tail_angles, tail_segments,
    EarsModChestPartProvider, EarsModEarsPartProvider, EarsModPartStaticDispatch,
    EarsModProtrusionsPartProvider, EarsModSnoutsPartProvider, EarsModTailsPartProvider, EarsModWingsPartProvider,
};
use nmsr_player_parts::model::PlayerArmorSlots;
use nmsr_player_parts::types::{PlayerBodyPartType, PlayerPartTextureType};

fn plain() -> EarsFeatures {
    EarsFeatures {
        ear_mode: EarMode::Disabled,
        ear_anchor: EarAnchor::Center,
        claws: false,
        horn: false,
        tail: None,
        snout: None,
        wing: None,
        has_chest: false,
        leg_mode: LegMode::Plantigrade,
        emissive: false,
    }
}

#[test]
fn ears_texture_keys_and_sizes() {
    assert_eq!(PlayerPartEarsTextureType::Cape.key(), "ears_cape");
    assert_eq!(PlayerPartEarsTextureType::EmissiveWings.key(), "ears_emissive_wings");
    assert_eq!(PlayerPartEarsTextureType::Wings.size(), (20, 16));
    assert_eq!(PlayerPartEarsTextureType::EmissiveSkin.size(), (64, 64));
    assert!(PlayerPartEarsTextureType::EmissiveSkin.is_emissive());
    assert!(!PlayerPartEarsTextureType::EmissiveProcessedSkin.is_emissive());
}

#[test]
fn ears_textures_as_part_textures() {
    assert_eq!(PlayerPartEarsTextureType::Cape.to_texture_type(), PlayerPartTextureType::Cape);
    assert_eq!(PlayerPartEarsTextureType::EmissiveProcessedSkin.to_texture_type(), PlayerPartTextureType::Skin);
    let wings = PlayerPartTextureType::Custom { key: "ears_wings", size: (20, 16), is_emissive: false };
    assert_eq!(PlayerPartEarsTextureType::Wings.to_texture_type(), wings);
    assert_eq!(PlayerPartEarsTextureType::EmissiveProcessedWings.to_texture_type(), wings);
    assert_eq!(
        PlayerPartEarsTextureType::EmissiveSkin.to_texture_type(),
        PlayerPartTextureType::Custom { key: "ears_emissive_skin", size: (64, 64), is_emissive: true }
    );
}

#[test]
fn behind_ears_become_out_ears_at_the_back() {
    let mut f = plain();
    f.ear_mode = EarMode::Behind;
    f.ear_anchor = EarAnchor::Front;
    let g = normalize_ear_mode(f);
    assert_eq!(g.ear_mode, EarMode::Out);
    assert_eq!(g.ear_anchor, EarAnchor::Back);
    let mut h = plain();
    h.ear_mode = EarMode::Tall;
    assert_eq!(normalize_ear_mode(h), h);
}

#[test]
fn single_providers() {
    let mut f = plain();
    assert!(!EarsModEarsPartProvider.provides_for_feature(&f));
    f.ear_mode = EarMode::Above;
    assert!(EarsModEarsPartProvider.provides_for_feature(&f));
    assert!(EarsModEarsPartProvider.provides_for_part(PlayerBodyPartType::Head));
    assert!(!EarsModEarsPartProvider.provides_for_part(PlayerBodyPartType::HeadLayer));
    f.horn = true;
    assert!(EarsModProtrusionsPartProvider.provides_for_feature(&f));
    assert!(EarsModProtrusionsPartProvider.provides_for_part(PlayerBodyPartType::LeftLeg));
    assert!(!EarsModProtrusionsPartProvider.provides_for_part(PlayerBodyPartType::Body));
    assert!(!EarsModSnoutsPartProvider.provides_for_feature(&f));
    f.snout = Some(SnoutData { offset: 2, width: 4, height: 3, depth: 4 });
    assert!(EarsModSnoutsPartProvider.provides_for_feature(&f));
    f.tail = Some(TailData { mode: TailMode::Disabled, segments: 1 });
    assert!(!EarsModTailsPartProvider.provides_for_feature(&f));
    f.tail = Some(TailData { mode: TailMode::Back, segments: 3 });
    assert!(EarsModTailsPartProvider.provides_for_feature(&f));
    f.wing = Some(WingData { mode: WingMode::Disabled, animated: false });
    assert!(!EarsModWingsPartProvider.provides_for_feature(&f));
    f.wing = Some(WingData { mode: WingMode::SymmetricDual, animated: true });
    assert!(EarsModWingsPartProvider.provides_for_feature(&f));
    assert!(EarsModChestPartProvider.provides_for_part(PlayerBodyPartType::BodyLayer));
    assert!(!EarsModChestPartProvider.provides_for_feature(&f));
}

#[test]
fn features_drawn_per_body_part() {
    let mut f = plain();
    f.ear_mode = EarMode::Out;
    f.claws = true;
    f.snout = Some(SnoutData { offset: 0, width: 4, height: 2, depth: 1 });
    f.tail = Some(TailData { mode: TailMode::Down, segments: 2 });
    f.has_chest = true;
    assert_eq!(
        applicable_features(&f, PlayerBodyPartType::Head),
        vec![EarsModPartStaticDispatch::Ears, EarsModPartStaticDispatch::Protrusions, EarsModPartStaticDispatch::Snout]
    );
    assert_eq!(
        applicable_features(&f, PlayerBodyPartType::Body),
        vec![EarsModPartStaticDispatch::Tail, EarsModPartStaticDispatch::Chest]
    );
    assert_eq!(applicable_features(&f, PlayerBodyPartType::BodyLayer), vec![EarsModPartStaticDispatch::Chest]);
    assert!(applicable_features(&f, PlayerBodyPartType::LeftArmLayer).is_empty());
    assert_eq!(EarsModPartStaticDispatch::all().len(), 6);
    assert_eq!(EarsModPartStaticDispatch::Snout.name(), "Snout");
}

#[test]
fn ears_plan() {
    assert!(EarsPlayerPartsProvider.get_parts(&None, PlayerBodyPartType::Head).is_none());
    let mut f = plain();
    f.ear_mode = EarMode::Behind;
    f.emissive = true;
    let plan = EarsPlayerPartsProvider.get_parts(&Some(f), PlayerBodyPartType::Head).unwrap();
    assert_eq!(plan.features.ear_mode, EarMode::Out);
    assert_eq!(plan.providers, vec![EarsModPartStaticDispatch::Ears]);
    assert!(plan.emissive);
}

#[test]
fn emissive_copies() {
    assert_eq!(emissive_texture_for(&PlayerPartTextureType::Skin), Some(PlayerPartEarsTextureType::EmissiveSkin));
    assert_eq!(
        emissive_texture_for(&PlayerPartEarsTextureType::Wings.to_texture_type()),
        Some(PlayerPartEarsTextureType::EmissiveWings)
    );
    assert_eq!(emissive_texture_for(&PlayerPartTextureType::Cape), None);
    assert_eq!(emissive_texture_for(&PlayerPartEarsTextureType::EmissiveSkin.to_texture_type()), None);
}

#[test]
fn boots_worn() {
    assert!(!is_wearing_boots::<()>(&None));
    let slots: PlayerArmorSlots<()> = PlayerArmorSlots { helmet: None, chestplate: None, leggings: None, boots: Some(()) };
    assert!(is_wearing_boots(&Some(slots)));
    assert!(!is_wearing_boots(&Some(PlayerArmorSlots::<()>::default())));
}

#[test]
fn tail_layout() {
    assert_eq!(tail_angles(TailMode::Down, false), (30, 40));
    assert_eq!(tail_angles(TailMode::Back, true), (90, 20));
    assert_eq!(tail_angles(TailMode::Back, false), (80, 20));
    assert_eq!(tail_angles(TailMode::Up, false), (130, -20));
    assert_eq!(tail_angles(TailMode::Vertical, true), (0, 0));
    assert_eq!(tail_segments(0), vec![(16, 12)]);
    assert_eq!(tail_segments(3), vec![(16, 4), (20, 4), (24, 4)]);
    assert_eq!(tail_segments(4), vec![(16, 3), (19, 3), (22, 3), (25, 3)]);
}
