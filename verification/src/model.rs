use vstd::prelude::*;
use crate::types::{PlayerBodyPartType, PlayerPartTextureType, is_base_part, spec_non_layer_part};

verus! {

/// The two player model shapes: Steve has four pixel wide arms, Alex three.
#[derive(Debug, Clone, Copy, PartialEq, Eq, Structural)]
pub enum PlayerModel {
    Steve,
    Alex,
}

impl PlayerModel {
    pub fn is_slim_arms(&self) -> (r: bool)
        ensures
            r == (*self == PlayerModel::Alex),
    {
        match self {
            PlayerModel::Steve => false,
            PlayerModel::Alex => true,
        }
    }
}

impl Default for PlayerModel {
    fn default() -> (r: Self)
        ensures
            r == PlayerModel::Steve,
    {
        PlayerModel::Steve
    }
}

/// Where a piece of armor is worn.
#[derive(Debug, Clone, Copy, PartialEq, Eq, Structural)]
pub enum PlayerArmorSlot {
    Helmet,
    Chestplate,
    Leggings,
    Boots,
}

/// The slot whose armor covers a body part (or the part under a layer).
pub open spec fn spec_slot_for_part(part: PlayerBodyPartType) -> PlayerArmorSlot {
    match spec_non_layer_part(part) {
        PlayerBodyPartType::Head => PlayerArmorSlot::Helmet,
        PlayerBodyPartType::LeftLeg | PlayerBodyPartType::RightLeg => PlayerArmorSlot::Leggings,
        _ => PlayerArmorSlot::Chestplate,
    }
}

/// The body parts a slot's armor is drawn over.
pub open spec fn spec_parts_for_armor_slot(slot: PlayerArmorSlot) -> Seq<PlayerBodyPartType> {
    match slot {
        PlayerArmorSlot::Helmet => seq![PlayerBodyPartType::Head],
        PlayerArmorSlot::Chestplate => seq![
            PlayerBodyPartType::Body,
            PlayerBodyPartType::LeftArm,
            PlayerBodyPartType::RightArm,
        ],
        PlayerArmorSlot::Leggings => seq![
            PlayerBodyPartType::Body,
            PlayerBodyPartType::LeftLeg,
            PlayerBodyPartType::RightLeg,
        ],
        PlayerArmorSlot::Boots => seq![PlayerBodyPartType::LeftLeg, PlayerBodyPartType::RightLeg],
    }
}

/// The slots whose armor is drawn over a base body part, in drawing order.
pub open spec fn spec_armor_slots_for_part(part: PlayerBodyPartType) -> Seq<PlayerArmorSlot> {
    match part {
        PlayerBodyPartType::Head => seq![PlayerArmorSlot::Helmet],
        PlayerBodyPartType::Body => seq![PlayerArmorSlot::Leggings, PlayerArmorSlot::Chestplate],
        PlayerBodyPartType::LeftArm | PlayerBodyPartType::RightArm => seq![
            PlayerArmorSlot::Chestplate,
        ],
        PlayerBodyPartType::LeftLeg | PlayerBodyPartType::RightLeg => seq![
            PlayerArmorSlot::Leggings,
            PlayerArmorSlot::Boots,
        ],
        _ => Seq::empty(),
    }
}

impl PlayerArmorSlot {
    /// The slot covering a body part; a layer counts as the part under it.
    pub fn get_slot_for_part(part: PlayerBodyPartType) -> (r: Self)
        ensures
            r == spec_slot_for_part(part),
    {
        let part = part.get_non_layer_part();
        match part {
            PlayerBodyPartType::Head => PlayerArmorSlot::Helmet,
            PlayerBodyPartType::Body
            | PlayerBodyPartType::LeftArm
            | PlayerBodyPartType::RightArm => PlayerArmorSlot::Chestplate,
            PlayerBodyPartType::LeftLeg | PlayerBodyPartType::RightLeg => PlayerArmorSlot::Leggings,
            _ => PlayerArmorSlot::Chestplate,
        }
    }

    /// The armor texture layer a slot is drawn from: leggings use the second layer.
    pub fn layer_id(&self) -> (r: u32)
        ensures
            r == (if *self == PlayerArmorSlot::Leggings { 2u32 } else { 1u32 }),
    {
        if self.is_leggings() {
            2
        } else {
            1
        }
    }

    pub fn is_leggings(&self) -> (r: bool)
        ensures
            r == (*self == PlayerArmorSlot::Leggings),
    {
        match self {
            PlayerArmorSlot::Leggings => true,
            _ => false,
        }
    }

    /// Every slot, in the order helmet, chestplate, leggings, boots.
    pub fn all() -> (r: Vec<PlayerArmorSlot>)
        ensures
            r@ == seq![
                PlayerArmorSlot::Helmet,
                PlayerArmorSlot::Chestplate,
                PlayerArmorSlot::Leggings,
                PlayerArmorSlot::Boots,
            ],
    {
        let r = vec![
            PlayerArmorSlot::Helmet,
            PlayerArmorSlot::Chestplate,
            PlayerArmorSlot::Leggings,
            PlayerArmorSlot::Boots,
        ];
        assert(r@ =~= seq![
            PlayerArmorSlot::Helmet,
            PlayerArmorSlot::Chestplate,
            PlayerArmorSlot::Leggings,
            PlayerArmorSlot::Boots,
        ]);
        r
    }
}

/// A kind of armor. Implementors name the texture each slot of it is drawn
/// with; the default draws nothing.
pub trait ArmorMaterial {
    /// The texture the slot's armor is drawn with, if any; unless a material
    /// says otherwise, none.
    fn get_texture_type(slot: PlayerArmorSlot) -> (r: Option<PlayerPartTextureType>)
        default_ensures
            r is None,
    {
        None
    }
}

/// `t` is a texture that material `M` names for `slot`: a result its
/// `get_texture_type` can return for that slot.
pub open spec fn material_names<M: ArmorMaterial>(slot: PlayerArmorSlot, t: Option<PlayerPartTextureType>) -> bool {
    call_ensures(M::get_texture_type, (slot,), t)
}

impl ArmorMaterial for () {}

/// The armor worn in each slot, if any.
#[derive(Debug, Clone, Copy, PartialEq, Eq)]
pub struct PlayerArmorSlots<M> {
    pub helmet: Option<M>,
    pub chestplate: Option<M>,
    pub leggings: Option<M>,
    pub boots: Option<M>,
}

impl<M> PlayerArmorSlots<M> {
    pub open spec fn spec_slot(self, slot: PlayerArmorSlot) -> Option<M> {
        match slot {
            PlayerArmorSlot::Helmet => self.helmet,
            PlayerArmorSlot::Chestplate => self.chestplate,
            PlayerArmorSlot::Leggings => self.leggings,
            PlayerArmorSlot::Boots => self.boots,
        }
    }

    pub open spec fn spec_entry(self, slot: PlayerArmorSlot) -> Seq<(M, PlayerArmorSlot)> {
        match self.spec_slot(slot) {
            Some(m) => seq![(m, slot)],
            None => Seq::empty(),
        }
    }

    /// The worn pieces with their slots, in the order helmet, chestplate, leggings, boots.
    pub open spec fn spec_materials_in_slots(self) -> Seq<(M, PlayerArmorSlot)> {
        self.spec_entry(PlayerArmorSlot::Helmet) + self.spec_entry(PlayerArmorSlot::Chestplate)
            + self.spec_entry(PlayerArmorSlot::Leggings) + self.spec_entry(PlayerArmorSlot::Boots)
    }

    /// The worn pieces with their slots, in the order helmet, chestplate, leggings, boots.
    pub fn get_all_materials_in_slots(&self) -> (r: Vec<(&M, PlayerArmorSlot)>)
        ensures
            r@.len() == self.spec_materials_in_slots().len(),
            forall|i: int|
                0 <= i < r@.len() ==> (*r@[i].0, r@[i].1) == #[trigger] self.spec_materials_in_slots()[i],
    {
        let mut r: Vec<(&M, PlayerArmorSlot)> = Vec::new();
        if let Some(m) = self.helmet.as_ref() {
            r.push((m, PlayerArmorSlot::Helmet));
        }
        let ghost r1 = r@;
        if let Some(m) = self.chestplate.as_ref() {
            r.push((m, PlayerArmorSlot::Chestplate));
        }
        let ghost r2 = r@;
        if let Some(m) = self.leggings.as_ref() {
            r.push((m, PlayerArmorSlot::Leggings));
        }
        let ghost r3 = r@;
        if let Some(m) = self.boots.as_ref() {
            r.push((m, PlayerArmorSlot::Boots));
        }
        proof {
            let s1 = self.spec_entry(PlayerArmorSlot::Helmet);
            let s2 = s1 + self.spec_entry(PlayerArmorSlot::Chestplate);
            let s3 = s2 + self.spec_entry(PlayerArmorSlot::Leggings);
            let s4 = s3 + self.spec_entry(PlayerArmorSlot::Boots);
            assert(r1.len() == s1.len());
            assert(forall|i: int| 0 <= i < r1.len() ==> (*r1[i].0, r1[i].1) == s1[i]);
            assert(r2.len() == s2.len());
            assert(forall|i: int| 0 <= i < r2.len() ==> (*r2[i].0, r2[i].1) == s2[i]);
            assert(r3.len() == s3.len());
            assert(forall|i: int| 0 <= i < r3.len() ==> (*r3[i].0, r3[i].1) == s3[i]);
            assert(r@.len() == s4.len());
            assert(forall|i: int| 0 <= i < r@.len() ==> (*r@[i].0, r@[i].1) == s4[i]);
        }
        r
    }

    /// The piece worn in a slot, if any.
    pub fn get_armor_slot(&self, slot: PlayerArmorSlot) -> (r: Option<&M>)
        ensures
            match r {
                Some(m) => self.spec_slot(slot) == Some(*m),
                None => self.spec_slot(slot) is None,
            },
    {
        match slot {
            PlayerArmorSlot::Helmet => self.helmet.as_ref(),
            PlayerArmorSlot::Chestplate => self.chestplate.as_ref(),
            PlayerArmorSlot::Leggings => self.leggings.as_ref(),
            PlayerArmorSlot::Boots => self.boots.as_ref(),
        }
    }

    /// The body parts a slot's armor is drawn over.
    pub fn get_parts_for_armor_slot(slot: PlayerArmorSlot) -> (r: Vec<PlayerBodyPartType>)
        ensures
            r@ == spec_parts_for_armor_slot(slot),
    {
        let r = match slot {
            PlayerArmorSlot::Helmet => vec![PlayerBodyPartType::Head],
            PlayerArmorSlot::Chestplate => vec![
                PlayerBodyPartType::Body,
                PlayerBodyPartType::LeftArm,
                PlayerBodyPartType::RightArm,
            ],
            PlayerArmorSlot::Leggings => vec![
                PlayerBodyPartType::Body,
                PlayerBodyPartType::LeftLeg,
                PlayerBodyPartType::RightLeg,
            ],
            PlayerArmorSlot::Boots => vec![PlayerBodyPartType::LeftLeg, PlayerBodyPartType::RightLeg],
        };
        assert(r@ =~= spec_parts_for_armor_slot(slot));
        r
    }

    /// The slots whose armor is drawn over a base body part, in drawing order.
    /// Layers have no armor of their own: callers pass the part under the layer.
    pub fn get_armor_slots_for_part(part: &PlayerBodyPartType) -> (r: Vec<PlayerArmorSlot>)
        requires
            is_base_part(*part),
        ensures
            r@ == spec_armor_slots_for_part(*part),
    {
        let r = match part {
            PlayerBodyPartType::Head => vec![PlayerArmorSlot::Helmet],
            PlayerBodyPartType::Body => vec![PlayerArmorSlot::Leggings, PlayerArmorSlot::Chestplate],
            PlayerBodyPartType::LeftArm | PlayerBodyPartType::RightArm => vec![
                PlayerArmorSlot::Chestplate,
            ],
            _ => vec![PlayerArmorSlot::Leggings, PlayerArmorSlot::Boots],
        };
        assert(r@ =~= spec_armor_slots_for_part(*part));
        r
    }
}

impl<M> Default for PlayerArmorSlots<M> {
    fn default() -> (r: Self)
        ensures
            r.helmet is None,
            r.chestplate is None,
            r.leggings is None,
            r.boots is None,
    {
        PlayerArmorSlots { helmet: None, chestplate: None, leggings: None, boots: None }
    }
}

/// The two armor tables agree: a slot lists a body part exactly when that
/// part lists the slot.
pub proof fn lemma_armor_tables_are_inverse(slot: PlayerArmorSlot, part: PlayerBodyPartType)
    requires
        is_base_part(part),
    ensures
        spec_parts_for_armor_slot(slot).contains(part) <==> spec_armor_slots_for_part(part).contains(
            slot,
        ),
{
    let ps = spec_parts_for_armor_slot(slot);
    let ss = spec_armor_slots_for_part(part);
    if ps.contains(part) {
        let i = choose|i: int| 0 <= i < ps.len() && ps[i] == part;
        assert(ss.contains(slot)) by {
            match slot {
                PlayerArmorSlot::Helmet => assert(ss[0] == slot),
                PlayerArmorSlot::Chestplate => {
                    if part == PlayerBodyPartType::Body {
                        assert(ss[1] == slot);
                    } else {
                        assert(ss[0] == slot);
                    }
                },
                PlayerArmorSlot::Leggings => assert(ss[0] == slot),
                PlayerArmorSlot::Boots => assert(ss[1] == slot),
            }
        }
    }
    if ss.contains(slot) {
        let j = choose|j: int| 0 <= j < ss.len() && ss[j] == slot;
        assert(ps.contains(part)) by {
            match part {
                PlayerBodyPartType::Head => assert(ps[0] == part),
                PlayerBodyPartType::Body => assert(ps[0] == part),
                PlayerBodyPartType::LeftArm => assert(ps[1] == part),
                PlayerBodyPartType::RightArm => assert(ps[2] == part),
                PlayerBodyPartType::LeftLeg => {
                    if slot == PlayerArmorSlot::Leggings {
                        assert(ps[1] == part);
                    } else {
                        assert(ps[0] == part);
                    }
                },
                PlayerBodyPartType::RightLeg => {
                    if slot == PlayerArmorSlot::Leggings {
                        assert(ps[2] == part);
                    } else {
                        assert(ps[1] == part);
                    }
                },
                _ => {},
            }
        }
    }
}

/// The single slot chosen for a part is one of the slots drawn over it.
pub proof fn lemma_slot_for_part_is_drawn_over_it(part: PlayerBodyPartType)
    ensures
        spec_armor_slots_for_part(spec_non_layer_part(part)).contains(spec_slot_for_part(part)),
{
    let ss = spec_armor_slots_for_part(spec_non_layer_part(part));
    match spec_non_layer_part(part) {
        PlayerBodyPartType::Body => assert(ss[1] == spec_slot_for_part(part)),
        _ => assert(ss[0] == spec_slot_for_part(part)),
    }
}

} // verus!
