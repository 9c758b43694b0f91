use nmsr_player_parts::ears::{
    EarAnchor, EarMode, EarsFeatures, LegMode, PlayerPartEarsTextureType, SnoutData, TailData, TailMode, WingData,
    WingMode,
};
use nmsr_player_parts::ears_layout::{
    ears_mod_layout, AngleInput, Axis, BendSign, GroupName, LayoutOp, QuadSpec,
};
use nmsr_player_parts::ears_providers::{EarsModPartStaticDispatch, EarsPartsPlan, EarsPlayerPartsProvider};
use nmsr_player_parts::texture_transform::{TextureFlip, TextureRotation};
use nmsr_player_parts::types::PlayerBodyPartType;

fn plain() -> EarsFeatures {
    EarsFeatures {
        ear_mode: EarMode::Disabled,
        ear_anchor: EarAnchor::Center,
        claws: false,
        horn: false,
        tail: None,
        snout: None,
        wing: None,
        has_chest: false,
        leg_mode: LegMode::Plantigrade,
        emissive: false,
    }
}

fn plan(features: EarsFeatures, part: PlayerBodyPartType) -> EarsPartsPlan {
    EarsPlayerPartsProvider.get_parts(&Some(features), part).expect("features were given")
}

fn layout(features: EarsFeatures, part: PlayerBodyPartType) -> Vec<LayoutOp> {
    ears_mod_layout(&plan(features, part), part, false, false, BendSign::Zero)
}

fn quads(ops: &[LayoutOp]) -> Vec<QuadSpec> {
    ops.iter()
        .filter_map(|op| match op {
            LayoutOp::Quad(q) => Some(*q),
            _ => None,
        })
        .collect()
}

/// The height of each builder stack after every instruction, checking that none goes below zero.
fn final_depths(ops: &[LayoutOp]) -> [i32; 4] {
    let mut d = [0i32; 4];
    for op in ops {
        match op {
            LayoutOp::Push => d[0] += 1,
            LayoutOp::Pop => d[0] -= 1,
            LayoutOp::PushGroup(_) => d[1] += 1,
            LayoutOp::PopGroup => d[1] -= 1,
            LayoutOp::PushTexture(_) => d[2] += 1,
            LayoutOp::PopTexture => d[2] -= 1,
            LayoutOp::BeginMesh => d[3] += 1,
            LayoutOp::EndMesh(_) => d[3] -= 1,
            _ => {}
        }
        assert!(d.iter().all(|&x| x >= 0));
    }
    d
}

#[test]
fn horn_layout_is_exact() {
    let ops = layout(EarsFeatures { horn: true, ..plain() }, PlayerBodyPartType::Head);
    assert_eq!(ops.len(), 14);
    assert!(matches!(ops[0], LayoutOp::PushGroup(GroupName::Part(PlayerBodyPartType::Head))));
    assert!(matches!(ops[1], LayoutOp::PushGroup(GroupName::Feature(EarsModPartStaticDispatch::Protrusions))));
    assert!(matches!(ops[2], LayoutOp::Push));
    assert!(matches!(ops[3], LayoutOp::Translate(-400, 2400, -400)));
    assert!(matches!(ops[4], LayoutOp::Rotate(0, 180, 0)));
    assert!(matches!(ops[5], LayoutOp::Translate(-800, 800, 0)));
    assert!(matches!(ops[6], LayoutOp::Rotate(25, 0, 0)));
    assert!(matches!(ops[7], LayoutOp::PushGroup(GroupName::Named("Horn"))));
    match (ops[8], ops[9]) {
        (LayoutOp::Quad(front), LayoutOp::Quad(back)) => {
            assert_eq!((front.u, front.v, front.width, front.height), (56, 0, 8, 8));
            assert!(front.front && !back.front);
            assert_eq!(front.flip, TextureFlip::Horizontal);
            assert_eq!(back.flip, TextureFlip::NoFlip);
            assert_eq!(front.rot, TextureRotation::NoRotation);
        }
        _ => panic!("expected the two sides of the horn"),
    }
    assert!(matches!(ops[10], LayoutOp::PopGroup));
    assert!(matches!(ops[11], LayoutOp::Pop));
    assert!(matches!(ops[12], LayoutOp::PopGroup));
    assert!(matches!(ops[13], LayoutOp::PopGroup));
}

#[test]
fn horn_is_not_drawn_on_arms() {
    let ops = layout(EarsFeatures { horn: true, ..plain() }, PlayerBodyPartType::LeftArm);
    assert!(quads(&ops).is_empty());
}

#[test]
fn no_features_give_an_empty_group() {
    let ops = layout(plain(), PlayerBodyPartType::Head);
    assert_eq!(ops.len(), 2);
    assert!(matches!(ops[0], LayoutOp::PushGroup(GroupName::Part(PlayerBodyPartType::Head))));
    assert!(matches!(ops[1], LayoutOp::PopGroup));
}

#[test]
fn layer_parts_are_grouped_under_their_base_part() {
    let ops = layout(EarsFeatures { has_chest: true, ..plain() }, PlayerBodyPartType::BodyLayer);
    assert!(matches!(ops[0], LayoutOp::PushGroup(GroupName::Part(PlayerBodyPartType::Body))));
    let names: Vec<&str> = quads(&ops).iter().map(|q| q.name).collect();
    assert_eq!(
        names,
        vec![
            "Chest (Top Left) (Layer)",
            "Chest (Top Right) (Layer)",
            "Chest (Bottom) (Layer)",
            "Chest (Right) (Layer)",
            "Chest (Left) (Layer)",
        ]
    );
    assert!(ops.iter().any(|op| matches!(op, LayoutOp::Scale((17, 16), (9, 8), (1, 1)))));
}

#[test]
fn chest_on_the_body_is_not_grown() {
    let ops = layout(EarsFeatures { has_chest: true, ..plain() }, PlayerBodyPartType::Body);
    let q = quads(&ops);
    assert_eq!(q.len(), 4);
    assert_eq!((q[0].u, q[0].v, q[0].width, q[0].height), (20, 22, 8, 4));
    assert_eq!((q[1].u, q[1].v), (56, 44));
    assert_eq!(q[3].flip, TextureFlip::Vertical);
    assert!(!ops.iter().any(|op| matches!(op, LayoutOp::Scale(..))));
    assert!(ops.iter().any(|op| matches!(
        op,
        LayoutOp::RotateBy { axis: Axis::X, degrees: 0, angle: AngleInput::ChestTilt, negate: false }
    )));
}

#[test]
fn tail_segments_split_the_tail_rows() {
    let features = EarsFeatures { tail: Some(TailData { mode: TailMode::Down, segments: 3 }), ..plain() };
    let ops = layout(features, PlayerBodyPartType::Body);
    let q = quads(&ops);
    assert_eq!(q.len(), 3);
    for (i, quad) in q.iter().enumerate() {
        assert_eq!((quad.u, quad.v, quad.width, quad.height), (56, 16 + 4 * i as u16, 8, 4));
        assert_eq!(quad.index, Some(i as u8));
        assert_eq!(quad.name, "Tail Segment");
        assert_eq!(quad.flip, TextureFlip::Vertical);
    }
    // A downward tail tilts by 30 degrees; each segment bends by its own angle.
    assert!(ops.iter().any(|op| matches!(op, LayoutOp::Rotate(30, 0, 0))));
    let bends = ops
        .iter()
        .filter(|op| matches!(op, LayoutOp::RotateBy { angle: AngleInput::TailBend(_), .. }))
        .count();
    assert_eq!(bends, 3);
}

#[test]
fn vertical_tail_turns_by_its_first_bend_once() {
    let features = EarsFeatures { tail: Some(TailData { mode: TailMode::Vertical, segments: 2 }), ..plain() };
    let p = plan(features, PlayerBodyPartType::Body);
    for sign in [BendSign::Negative, BendSign::Positive] {
        let ops = ears_mod_layout(&p, PlayerBodyPartType::Body, false, false, sign);
        let yaws = ops
            .iter()
            .filter(|op| matches!(op, LayoutOp::RotateBy { axis: Axis::Y, angle: AngleInput::TailBend(0), .. }))
            .count();
        assert_eq!(yaws, 1);
    }
    let ops = ears_mod_layout(&p, PlayerBodyPartType::Body, false, false, BendSign::Zero);
    let yaws = ops.iter().filter(|op| matches!(op, LayoutOp::RotateBy { axis: Axis::Y, .. })).count();
    assert_eq!(yaws, 0);
}

#[test]
fn snout_depth_stretches_the_second_rows() {
    let shallow = SnoutData { offset: 0, width: 4, height: 2, depth: 1 };
    let ops = layout(EarsFeatures { snout: Some(shallow), ..plain() }, PlayerBodyPartType::Head);
    assert_eq!(quads(&ops).len(), 5);
    assert!(ops.iter().any(|op| matches!(op, LayoutOp::Translate(200, 0, -100))));

    let deep = SnoutData { offset: 1, width: 3, height: 2, depth: 3 };
    let ops = layout(EarsFeatures { snout: Some(deep), ..plain() }, PlayerBodyPartType::Head);
    let q = quads(&ops);
    assert_eq!(q.len(), 9);
    assert_eq!((q[0].u, q[0].v, q[0].width, q[0].height), (0, 2, 3, 2));
    // An odd width centres the snout on half pixels.
    assert!(ops.iter().any(|op| matches!(op, LayoutOp::Translate(250, 100, -300))));
    assert!(ops.iter().any(|op| matches!(op, LayoutOp::Scale((1, 1), (2, 1), (1, 1)))));
    assert!(ops.iter().any(|op| matches!(op, LayoutOp::Scale((2, 1), (1, 1), (1, 1)))));
    assert!(matches!(ops[2], LayoutOp::BeginMesh));
    assert!(ops.iter().any(|op| matches!(op, LayoutOp::EndMesh("Snout"))));
}

#[test]
fn dual_wings_are_drawn_with_the_wings_texture() {
    let features = EarsFeatures { wing: Some(WingData { mode: WingMode::SymmetricDual, animated: true }), ..plain() };
    let ops = layout(features, PlayerBodyPartType::Body);
    assert!(matches!(ops[2], LayoutOp::PushTexture(PlayerPartEarsTextureType::Wings)));
    let names: Vec<&str> = quads(&ops).iter().map(|q| q.name).collect();
    assert_eq!(names, vec!["Wing Left", "Wing Right"]);
    assert!(ops.iter().any(|op| matches!(
        op,
        LayoutOp::RotateBy { axis: Axis::Y, degrees: -60, angle: AngleInput::WingWiggle, negate: true }
    )));

    let single = EarsFeatures { wing: Some(WingData { mode: WingMode::SymmetricSingle, animated: false }), ..plain() };
    let names: Vec<&str> = quads(&layout(single, PlayerBodyPartType::Body)).iter().map(|q| q.name).collect();
    assert_eq!(names, vec!["Wing (Single)"]);
}

#[test]
fn claws_skip_feet_in_boots() {
    let features = EarsFeatures { claws: true, ..plain() };
    let p = plan(features, PlayerBodyPartType::LeftLeg);
    let bare = ears_mod_layout(&p, PlayerBodyPartType::LeftLeg, false, false, BendSign::Zero);
    assert_eq!(quads(&bare).len(), 2);
    let booted = ears_mod_layout(&p, PlayerBodyPartType::LeftLeg, false, true, BendSign::Zero);
    assert!(quads(&booted).is_empty());

    // The right hand's claw sits one pixel further in on slim arms.
    let p = plan(features, PlayerBodyPartType::RightArm);
    let slim = ears_mod_layout(&p, PlayerBodyPartType::RightArm, true, false, BendSign::Zero);
    assert!(slim.iter().any(|op| matches!(op, LayoutOp::Translate(300, -400, 400))));
    let wide = ears_mod_layout(&p, PlayerBodyPartType::RightArm, false, false, BendSign::Zero);
    assert!(wide.iter().any(|op| matches!(op, LayoutOp::Translate(400, -400, 400))));
}

#[test]
fn every_ear_mode_is_closed_and_inside_the_skin() {
    let modes = [
        EarMode::Above,
        EarMode::Sides,
        EarMode::Behind,
        EarMode::Around,
        EarMode::Floppy,
        EarMode::Cross,
        EarMode::Out,
        EarMode::Tall,
        EarMode::TallCross,
    ];
    let anchors = [EarAnchor::Center, EarAnchor::Front, EarAnchor::Back];
    for mode in modes {
        for anchor in anchors {
            let features = EarsFeatures { ear_mode: mode, ear_anchor: anchor, ..plain() };
            let ops = layout(features, PlayerBodyPartType::Head);
            assert_eq!(final_depths(&ops), [0, 0, 0, 0]);
            let q = quads(&ops);
            assert!(!q.is_empty());
            for quad in q {
                let (w, h) = if quad.rot.is_transposed() { (quad.height, quad.width) } else { (quad.width, quad.height) };
                assert!(quad.u + w <= 64 && quad.v + h <= 64, "{} lies outside the skin", quad.name);
            }
        }
    }
}

#[test]
fn behind_ears_are_drawn_as_out_ears_at_the_back() {
    let behind = layout(EarsFeatures { ear_mode: EarMode::Behind, ..plain() }, PlayerBodyPartType::Head);
    let names: Vec<&str> = quads(&behind).iter().map(|q| q.name).collect();
    assert_eq!(names, vec!["Ears Out Left", "Ears Out Left", "Ears Out Right", "Ears Out Right"]);
    assert!(behind.iter().any(|op| matches!(op, LayoutOp::Translate(-1600, 0, 0))));
}

#[test]
fn all_features_together_stay_closed() {
    let features = EarsFeatures {
        ear_mode: EarMode::Around,
        ear_anchor: EarAnchor::Back,
        claws: true,
        horn: true,
        tail: Some(TailData { mode: TailMode::Back, segments: 4 }),
        snout: Some(SnoutData { offset: 2, width: 7, height: 4, depth: 6 }),
        wing: Some(WingData { mode: WingMode::AsymmetricR, animated: false }),
        has_chest: true,
        leg_mode: LegMode::Digitigrade,
        emissive: true,
    };
    for part in [PlayerBodyPartType::Head, PlayerBodyPartType::Body, PlayerBodyPartType::RightLeg] {
        let ops = layout(features, part);
        assert_eq!(final_depths(&ops), [0, 0, 0, 0]);
    }
}
