use vstd::prelude::*;
use crate::types::{PlayerBodyPartType, is_base_part, spec_non_layer_part};
use crate::ears::{EarAnchor, EarMode, EarsFeatures, PlayerPartEarsTextureType, SnoutData, TailData, TailMode, WingMode};
use crate::ears_providers::{EarsModPartStaticDispatch, EarsPartsPlan, segment_count, spec_tail_angles, spec_tail_segments, tail_angles, tail_segments};
use crate::texture_transform::{TextureFlip, TextureRotation, back_side_flip, region_size, spec_flip_h};
use crate::minecraft::{base_cube_layout, compute_base_part};

verus! {

/// An axis of the model space.
#[derive(Debug, Clone, Copy, PartialEq, Eq, Structural)]
pub enum Axis {
    X,
    Y,
    Z,
}

/// An angle measured from floating-point data that the library does not hold;
/// the renderer supplies it in degrees.
#[derive(Debug, Clone, Copy, PartialEq, Eq, Structural)]
pub enum AngleInput {
    /// The bend of tail segment `k` (0 to 3), as the skin encodes it.
    TailBend(u8),
    /// How far animated wings flap out (zero for still wings).
    WingWiggle,
    /// How far the chest tips forward: minus 45 degrees times the chest size.
    ChestTilt,
}

/// The name of a group of parts.
#[derive(Debug, Clone, Copy)]
pub enum GroupName {
    /// Named after a base body part.
    Part(PlayerBodyPartType),
    /// Named after an Ears feature.
    Feature(EarsModPartStaticDispatch),
    Named(&'static str),
}

/// A textured quad of `width` by `height` pixels whose texture region starts
/// at `(u, v)`, drawn with the builder's current texture.
#[derive(Debug, Clone, Copy)]
pub struct QuadSpec {
    pub u: u16,
    pub v: u16,
    pub width: u16,
    pub height: u16,
    pub rot: TextureRotation,
    pub flip: TextureFlip,
    /// Faces the front (towards negative z) or the back.
    pub front: bool,
    pub name: &'static str,
    /// A number that follows the name, for repeated pieces.
    pub index: Option<u8>,
}

/// One instruction of the Ears part builder. Lengths are in hundredths of a
/// pixel; rotations are applied as yaw (y), then pitch (x), then roll (z).
#[derive(Debug, Clone, Copy)]
pub enum LayoutOp {
    /// Starts a nested transformation, undone by the matching `Pop`.
    Push,
    Pop,
    /// Starts a named group of parts, closed by the matching `PopGroup`.
    PushGroup(GroupName),
    PopGroup,
    /// Draws the quads up to the matching `PopTexture` with this texture.
    PushTexture(PlayerPartEarsTextureType),
    PopTexture,
    /// Collects the quads up to the matching `EndMesh` into one named part.
    BeginMesh,
    EndMesh(&'static str),
    Translate(i32, i32, i32),
    /// Turns by whole degrees about x, y and z.
    Rotate(i32, i32, i32),
    /// Turns about one axis by `degrees` plus (or, when `negate`, minus) an angle input.
    RotateBy { axis: Axis, degrees: i32, angle: AngleInput, negate: bool },
    /// Scales each axis by a numerator over a denominator.
    Scale((u32, u32), (u32, u32), (u32, u32)),
    Quad(QuadSpec),
}

/// The four stacks the builder keeps while it runs a layout.
#[derive(Debug, Clone, Copy, PartialEq, Eq, Structural)]
pub enum BuilderStack {
    Transform,
    Group,
    Texture,
    Mesh,
}

/// How an instruction changes the height of a builder stack.
pub open spec fn delta(op: LayoutOp, k: BuilderStack) -> int {
    match op {
        LayoutOp::Push => if k == BuilderStack::Transform { 1 } else { 0 },
        LayoutOp::Pop => if k == BuilderStack::Transform { -1 } else { 0 },
        LayoutOp::PushGroup(_) => if k == BuilderStack::Group { 1 } else { 0 },
        LayoutOp::PopGroup => if k == BuilderStack::Group { -1 } else { 0 },
        LayoutOp::PushTexture(_) => if k == BuilderStack::Texture { 1 } else { 0 },
        LayoutOp::PopTexture => if k == BuilderStack::Texture { -1 } else { 0 },
        LayoutOp::BeginMesh => if k == BuilderStack::Mesh { 1 } else { 0 },
        LayoutOp::EndMesh(_) => if k == BuilderStack::Mesh { -1 } else { 0 },
        _ => 0,
    }
}

/// How much higher a builder stack is after running `s`.
pub open spec fn depth(s: Seq<LayoutOp>, k: BuilderStack) -> int
    decreases s.len(),
{
    if s.len() == 0 {
        0
    } else {
        depth(s.drop_last(), k) + delta(s.last(), k)
    }
}

/// No builder stack is below the height it started at.
pub open spec fn depths_ok(s: Seq<LayoutOp>) -> bool {
    &&& depth(s, BuilderStack::Transform) >= 0
    &&& depth(s, BuilderStack::Group) >= 0
    &&& depth(s, BuilderStack::Texture) >= 0
    &&& depth(s, BuilderStack::Mesh) >= 0
}

/// No prefix of `s` pops a stack below the height it started at: a builder
/// running `s` never pops an empty stack.
pub open spec fn nested(s: Seq<LayoutOp>) -> bool
    decreases s.len(),
{
    s.len() == 0 || (nested(s.drop_last()) && depths_ok(s))
}

/// `s` is nested and leaves every stack as high as it found it.
pub open spec fn closed(s: Seq<LayoutOp>) -> bool {
    &&& nested(s)
    &&& depth(s, BuilderStack::Transform) == 0
    &&& depth(s, BuilderStack::Group) == 0
    &&& depth(s, BuilderStack::Texture) == 0
    &&& depth(s, BuilderStack::Mesh) == 0
}

/// The texture region a quad is cut from lies inside the 64 by 64 skin.
pub open spec fn op_fits(op: LayoutOp) -> bool {
    match op {
        LayoutOp::Quad(q) => {
            let (w, h) = region_size(q.width, q.height, q.rot);
            q.u + w <= 64 && q.v + h <= 64
        },
        _ => true,
    }
}

/// Every quad of `s` is cut from inside the skin.
pub open spec fn all_fit(s: Seq<LayoutOp>) -> bool {
    forall|i: int| 0 <= i < s.len() ==> #[trigger] op_fits(s[i])
}

/// Every builder stack is as high after `a` as after `b`.
pub open spec fn same_depths(a: Seq<LayoutOp>, b: Seq<LayoutOp>) -> bool {
    &&& depth(a, BuilderStack::Transform) == depth(b, BuilderStack::Transform)
    &&& depth(a, BuilderStack::Group) == depth(b, BuilderStack::Group)
    &&& depth(a, BuilderStack::Texture) == depth(b, BuilderStack::Texture)
    &&& depth(a, BuilderStack::Mesh) == depth(b, BuilderStack::Mesh)
}

/// Appending `op` to `s` pops no stack below where it started.
pub open spec fn can_emit(s: Seq<LayoutOp>, op: LayoutOp) -> bool {
    &&& depth(s, BuilderStack::Transform) + delta(op, BuilderStack::Transform) >= 0
    &&& depth(s, BuilderStack::Group) + delta(op, BuilderStack::Group) >= 0
    &&& depth(s, BuilderStack::Texture) + delta(op, BuilderStack::Texture) >= 0
    &&& depth(s, BuilderStack::Mesh) + delta(op, BuilderStack::Mesh) >= 0
}

/// Appends one instruction.
fn emit(ops: &mut Vec<LayoutOp>, op: LayoutOp)
    requires
        nested(old(ops)@),
        can_emit(old(ops)@, op),
    ensures
        final(ops)@ == old(ops)@.push(op),
        nested(final(ops)@),
        all_fit(final(ops)@) == (all_fit(old(ops)@) && op_fits(op)),
        depth(final(ops)@, BuilderStack::Transform) == depth(old(ops)@, BuilderStack::Transform) + delta(
            op,
            BuilderStack::Transform,
        ),
        depth(final(ops)@, BuilderStack::Group) == depth(old(ops)@, BuilderStack::Group) + delta(
            op,
            BuilderStack::Group,
        ),
        depth(final(ops)@, BuilderStack::Texture) == depth(old(ops)@, BuilderStack::Texture) + delta(
            op,
            BuilderStack::Texture,
        ),
        depth(final(ops)@, BuilderStack::Mesh) == depth(old(ops)@, BuilderStack::Mesh) + delta(
            op,
            BuilderStack::Mesh,
        ),
{
    ops.push(op);
    assert(ops@.drop_last() =~= old(ops)@);
    proof {
        if all_fit(ops@) {
            assert(op_fits(ops@[old(ops)@.len() as int]));
        }
        if all_fit(old(ops)@) && op_fits(op) {
            assert forall|i: int| 0 <= i < ops@.len() implies #[trigger] op_fits(ops@[i]) by {
                if i < old(ops)@.len() {
                    assert(ops@[i] == old(ops)@[i]);
                }
            }
        }
    }
}

/// A quad without a number after its name.
pub open spec fn quad(
    u: u16,
    v: u16,
    width: u16,
    height: u16,
    rot: TextureRotation,
    flip: TextureFlip,
    front: bool,
    name: &'static str,
) -> LayoutOp {
    LayoutOp::Quad(QuadSpec { u, v, width, height, rot, flip, front, name, index: None })
}

fn mk_quad(
    u: u16,
    v: u16,
    width: u16,
    height: u16,
    rot: TextureRotation,
    flip: TextureFlip,
    front: bool,
    name: &'static str,
) -> (r: LayoutOp)
    ensures
        r == quad(u, v, width, height, rot, flip, front, name),
{
    LayoutOp::Quad(QuadSpec { u, v, width, height, rot, flip, front, name, index: None })
}

/// A translation by whole pixels.
pub open spec fn shift(x: int, y: int, z: int) -> LayoutOp {
    LayoutOp::Translate((x * 100) as i32, (y * 100) as i32, (z * 100) as i32)
}

/// A turn by whole degrees about x, y and z.
pub open spec fn turn(x: int, y: int, z: int) -> LayoutOp {
    LayoutOp::Rotate(x as i32, y as i32, z as i32)
}

fn mk_shift(x: i8, y: i8, z: i8) -> (r: LayoutOp)
    ensures
        r == shift(x as int, y as int, z as int),
{
    LayoutOp::Translate(x as i32 * 100, y as i32 * 100, z as i32 * 100)
}

/// A quad seen from both sides: a group holding the front quad and the back quad.
#[verifier::opaque]
pub open spec fn double_sided(
    u_front: u16,
    v_front: u16,
    u_back: u16,
    v_back: u16,
    width: u16,
    height: u16,
    rot_front: TextureRotation,
    flip_front: TextureFlip,
    rot_back: TextureRotation,
    flip_back: TextureFlip,
    name: &'static str,
) -> Seq<LayoutOp> {
    seq![
        LayoutOp::PushGroup(GroupName::Named(name)),
        quad(u_front, v_front, width, height, rot_front, flip_front, true, name),
        quad(u_back, v_back, width, height, rot_back, flip_back, false, name),
        LayoutOp::PopGroup,
    ]
}

/// Appends a quad seen from both sides.
fn emit_double_sided(
    ops: &mut Vec<LayoutOp>,
    u_front: u16,
    v_front: u16,
    u_back: u16,
    v_back: u16,
    width: u16,
    height: u16,
    rot_front: TextureRotation,
    flip_front: TextureFlip,
    rot_back: TextureRotation,
    flip_back: TextureFlip,
    name: &'static str,
)
    requires
        nested(old(ops)@),
    ensures
        final(ops)@ == old(ops)@ + double_sided(
            u_front,
            v_front,
            u_back,
            v_back,
            width,
            height,
            rot_front,
            flip_front,
            rot_back,
            flip_back,
            name,
        ),
        nested(final(ops)@),
        same_depths(final(ops)@, old(ops)@),
        all_fit(final(ops)@) == (all_fit(old(ops)@) && op_fits(
            quad(u_front, v_front, width, height, rot_front, flip_front, true, name),
        ) && op_fits(quad(u_back, v_back, width, height, rot_back, flip_back, false, name))),
{
    reveal(double_sided);
    emit(ops, LayoutOp::PushGroup(GroupName::Named(name)));
    emit(ops, mk_quad(u_front, v_front, width, height, rot_front, flip_front, true, name));
    emit(ops, mk_quad(u_back, v_back, width, height, rot_back, flip_back, false, name));
    emit(ops, LayoutOp::PopGroup);
    assert(ops@ =~= old(ops)@ + double_sided(
        u_front,
        v_front,
        u_back,
        v_back,
        width,
        height,
        rot_front,
        flip_front,
        rot_back,
        flip_back,
        name,
    ));
}

/// Moves to the corner of a base body part.
pub open spec fn anchor(part: PlayerBodyPartType, slim: bool) -> LayoutOp {
    let (pos, _, _) = base_cube_layout(part, slim);
    LayoutOp::Translate((pos[0] * 100) as i32, (pos[1] * 100) as i32, (pos[2] * 100) as i32)
}

fn mk_anchor(part: PlayerBodyPartType, slim: bool) -> (r: LayoutOp)
    requires
        is_base_part(part),
    ensures
        r == anchor(part, slim),
{
    let pos = compute_base_part(part, slim).pos;
    LayoutOp::Translate(pos[0] * 100, pos[1] * 100, pos[2] * 100)
}

/// The horn: a double-sided quad leaning out of the top of the head.
#[verifier::opaque]
pub open spec fn horn_layout(slim: bool) -> Seq<LayoutOp> {
    seq![
        LayoutOp::Push,
        anchor(PlayerBodyPartType::Head, slim),
        turn(0, 180, 0),
        shift(-8, 8, 0),
        turn(25, 0, 0),
    ] + double_sided(
        56,
        0,
        56,
        0,
        8,
        8,
        TextureRotation::NoRotation,
        TextureFlip::Horizontal,
        TextureRotation::NoRotation,
        spec_flip_h(TextureFlip::Horizontal),
        "Horn",
    ) + seq![LayoutOp::Pop]
}

/// Lays out the horn.
pub fn horn(ops: &mut Vec<LayoutOp>, slim: bool)
    requires
        nested(old(ops)@),
    ensures
        final(ops)@ == old(ops)@ + horn_layout(slim),
        nested(final(ops)@),
        same_depths(final(ops)@, old(ops)@),
        all_fit(final(ops)@) == all_fit(old(ops)@),
{
    reveal(horn_layout);
    emit(ops, LayoutOp::Push);
    emit(ops, mk_anchor(PlayerBodyPartType::Head, slim));
    emit(ops, LayoutOp::Rotate(0, 180, 0));
    emit(ops, mk_shift(-8, 8, 0));
    emit(ops, LayoutOp::Rotate(25, 0, 0));
    emit_double_sided(
        ops,
        56,
        0,
        56,
        0,
        8,
        8,
        TextureRotation::NoRotation,
        TextureFlip::Horizontal,
        TextureRotation::NoRotation,
        TextureFlip::NoFlip,
        "Horn",
    );
    emit(ops, LayoutOp::Pop);
    assert(ops@ =~= old(ops)@ + horn_layout(slim));
}

/// A nested transformation around `inner`.
pub open spec fn stacked(inner: Seq<LayoutOp>) -> Seq<LayoutOp> {
    seq![LayoutOp::Push] + inner + seq![LayoutOp::Pop]
}

/// A double-sided claw quad whose back shows the front's texture mirrored.
#[verifier::opaque]
pub open spec fn claw(u: u16, v: u16, rot: TextureRotation, flip: TextureFlip, name: &'static str) -> Seq<LayoutOp> {
    double_sided(u, v, u, v, 4, 4, rot, flip, rot, spec_flip_h(flip), name)
}

/// The claws drawn on one body part: on the feet unless boots cover them, and
/// on the hands.
#[verifier::opaque]
pub open spec fn claws_layout(part: PlayerBodyPartType, slim: bool, wearing_boots: bool) -> Seq<LayoutOp> {
    let h = TextureFlip::Horizontal;
    let legs = if wearing_boots {
        Seq::empty()
    } else if part == PlayerBodyPartType::LeftLeg {
        stacked(
            seq![anchor(PlayerBodyPartType::LeftLeg, slim), turn(-90, 0, 0)]
                + claw(16, 48, TextureRotation::NoRotation, h, "Claw Left Leg"),
        )
    } else if part == PlayerBodyPartType::RightLeg {
        stacked(
            seq![anchor(PlayerBodyPartType::RightLeg, slim), shift(0, 0, 0), turn(-90, 0, 0)]
                + claw(0, 16, TextureRotation::NoRotation, h, "Claw Right Leg"),
        )
    } else {
        Seq::empty()
    };
    let arms = if part == PlayerBodyPartType::LeftArm {
        stacked(
            seq![anchor(PlayerBodyPartType::LeftArm, slim), shift(0, -4, 0), turn(0, -90, 0)]
                + claw(44, 48, TextureRotation::UpsideDown, TextureFlip::NoFlip, "Claw Left Arm"),
        )
    } else if part == PlayerBodyPartType::RightArm {
        stacked(
            seq![
                anchor(PlayerBodyPartType::RightArm, slim),
                shift(if slim { 3 } else { 4 }, -4, 4),
                turn(0, 90, 0),
            ] + claw(52, 16, TextureRotation::UpsideDown, TextureFlip::NoFlip, "Claw Right Arm"),
        )
    } else {
        Seq::empty()
    };
    legs + arms
}

/// Whether an instruction only moves, turns or scales.
pub open spec fn is_move(op: LayoutOp) -> bool {
    op is Translate || op is Rotate || op is RotateBy || op is Scale
}

/// Appends instructions that only move, turn or scale.
fn emit_moves(ops: &mut Vec<LayoutOp>, moves: Vec<LayoutOp>)
    requires
        nested(old(ops)@),
        forall|i: int| 0 <= i < moves@.len() ==> is_move(#[trigger] moves@[i]),
    ensures
        final(ops)@ == old(ops)@ + moves@,
        nested(final(ops)@),
        same_depths(final(ops)@, old(ops)@),
        all_fit(final(ops)@) == all_fit(old(ops)@),
{
    let mut i: usize = 0;
    while i < moves.len()
        invariant
            nested(ops@),
            i <= moves@.len(),
            forall|j: int| 0 <= j < moves@.len() ==> is_move(#[trigger] moves@[j]),
            ops@ == old(ops)@ + moves@.take(i as int),
            same_depths(ops@, old(ops)@),
            all_fit(ops@) == all_fit(old(ops)@),
        decreases moves@.len() - i,
    {
        assert(is_move(moves@[i as int]));
        emit(ops, moves[i]);
        assert(moves@.take(i + 1) =~= moves@.take(i as int).push(moves@[i as int]));
        i = i + 1;
    }
    assert(moves@.take(moves@.len() as int) =~= moves@);
}

fn emit_claw(
    ops: &mut Vec<LayoutOp>,
    setup: Vec<LayoutOp>,
    u: u16,
    v: u16,
    rot: TextureRotation,
    flip: TextureFlip,
    name: &'static str,
)
    requires
        nested(old(ops)@),
        u + 4 <= 64,
        v + 4 <= 64,
        forall|i: int| 0 <= i < setup@.len() ==> is_move(#[trigger] setup@[i]),
    ensures
        final(ops)@ == old(ops)@ + stacked(setup@ + claw(u, v, rot, flip, name)),
        nested(final(ops)@),
        same_depths(final(ops)@, old(ops)@),
        all_fit(final(ops)@) == all_fit(old(ops)@),
{
    reveal(claw);
    let ghost moves = setup@;
    emit(ops, LayoutOp::Push);
    emit_moves(ops, setup);
    emit_double_sided(ops, u, v, u, v, 4, 4, rot, flip, rot, back_side_flip(flip), name);
    emit(ops, LayoutOp::Pop);
    assert(ops@ =~= old(ops)@ + stacked(moves + claw(u, v, rot, flip, name)));
}

/// Lays out the claws of one body part.
pub fn claws(ops: &mut Vec<LayoutOp>, part: PlayerBodyPartType, slim: bool, wearing_boots: bool)
    requires
        nested(old(ops)@),
    ensures
        final(ops)@ == old(ops)@ + claws_layout(part, slim, wearing_boots),
        nested(final(ops)@),
        same_depths(final(ops)@, old(ops)@),
        all_fit(final(ops)@) == all_fit(old(ops)@),
{
    reveal(claws_layout);
    let h = TextureFlip::Horizontal;
    if !wearing_boots {
        if part == PlayerBodyPartType::LeftLeg {
            let setup = vec![mk_anchor(PlayerBodyPartType::LeftLeg, slim), LayoutOp::Rotate(-90, 0, 0)];
            emit_claw(ops, setup, 16, 48, TextureRotation::NoRotation, h, "Claw Left Leg");
        } else if part == PlayerBodyPartType::RightLeg {
            let setup = vec![
                mk_anchor(PlayerBodyPartType::RightLeg, slim),
                mk_shift(0, 0, 0),
                LayoutOp::Rotate(-90, 0, 0),
            ];
            emit_claw(ops, setup, 0, 16, TextureRotation::NoRotation, h, "Claw Right Leg");
        }
    }
    if part == PlayerBodyPartType::LeftArm {
        let setup = vec![
            mk_anchor(PlayerBodyPartType::LeftArm, slim),
            mk_shift(0, -4, 0),
            LayoutOp::Rotate(0, -90, 0),
        ];
        emit_claw(ops, setup, 44, 48, TextureRotation::UpsideDown, TextureFlip::NoFlip, "Claw Left Arm");
    } else if part == PlayerBodyPartType::RightArm {
        let x: i8 = if slim { 3 } else { 4 };
        let setup = vec![mk_anchor(PlayerBodyPartType::RightArm, slim), mk_shift(x, -4, 4), LayoutOp::Rotate(0, 90, 0)];
        emit_claw(ops, setup, 52, 16, TextureRotation::UpsideDown, TextureFlip::NoFlip, "Claw Right Arm");
    }
    assert(ops@ =~= old(ops)@ + claws_layout(part, slim, wearing_boots));
}

/// A double-sided quad placed by `moves` inside its own transformation.
#[verifier::opaque]
pub open spec fn framed(
    moves: Seq<LayoutOp>,
    u_front: u16,
    v_front: u16,
    u_back: u16,
    v_back: u16,
    width: u16,
    height: u16,
    rot_front: TextureRotation,
    flip_front: TextureFlip,
    rot_back: TextureRotation,
    flip_back: TextureFlip,
    name: &'static str,
) -> Seq<LayoutOp> {
    stacked(
        moves + double_sided(
            u_front,
            v_front,
            u_back,
            v_back,
            width,
            height,
            rot_front,
            flip_front,
            rot_back,
            flip_back,
            name,
        ),
    )
}

fn emit_framed(
    ops: &mut Vec<LayoutOp>,
    moves: Vec<LayoutOp>,
    u_front: u16,
    v_front: u16,
    u_back: u16,
    v_back: u16,
    width: u16,
    height: u16,
    rot_front: TextureRotation,
    flip_front: TextureFlip,
    rot_back: TextureRotation,
    flip_back: TextureFlip,
    name: &'static str,
)
    requires
        nested(old(ops)@),
        forall|i: int| 0 <= i < moves@.len() ==> is_move(#[trigger] moves@[i]),
    ensures
        final(ops)@ == old(ops)@ + framed(
            moves@,
            u_front,
            v_front,
            u_back,
            v_back,
            width,
            height,
            rot_front,
            flip_front,
            rot_back,
            flip_back,
            name,
        ),
        nested(final(ops)@),
        same_depths(final(ops)@, old(ops)@),
        all_fit(final(ops)@) == (all_fit(old(ops)@) && op_fits(
            quad(u_front, v_front, width, height, rot_front, flip_front, true, name),
        ) && op_fits(quad(u_back, v_back, width, height, rot_back, flip_back, false, name))),
{
    reveal(framed);
    let ghost m = moves@;
    emit(ops, LayoutOp::Push);
    emit_moves(ops, moves);
    emit_double_sided(
        ops,
        u_front,
        v_front,
        u_back,
        v_back,
        width,
        height,
        rot_front,
        flip_front,
        rot_back,
        flip_back,
        name,
    );
    emit(ops, LayoutOp::Pop);
    assert(ops@ =~= old(ops)@ + framed(
        m,
        u_front,
        v_front,
        u_back,
        v_back,
        width,
        height,
        rot_front,
        flip_front,
        rot_back,
        flip_back,
        name,
    ));
}

/// How far along the head the ears sit: to the middle, to the back, or at the front.
#[verifier::opaque]
pub open spec fn anchor_offset(a: EarAnchor) -> Seq<LayoutOp> {
    match a {
        EarAnchor::Center => seq![shift(0, 0, 4)],
        EarAnchor::Back => seq![shift(0, 0, 8)],
        EarAnchor::Front => Seq::empty(),
    }
}

fn mk_anchor_offset(a: EarAnchor) -> (r: Vec<LayoutOp>)
    ensures
        r@ == anchor_offset(a),
        forall|i: int| 0 <= i < r@.len() ==> is_move(#[trigger] r@[i]),
{
    reveal(anchor_offset);
    let r = match a {
        EarAnchor::Center => vec![mk_shift(0, 0, 4)],
        EarAnchor::Back => vec![mk_shift(0, 0, 8)],
        EarAnchor::Front => Vec::new(),
    };
    assert(r@ =~= anchor_offset(a));
    r
}

/// Where "out" ears start: further back or higher up by the anchor.
#[verifier::opaque]
pub open spec fn out_offset(a: EarAnchor) -> Seq<LayoutOp> {
    match a {
        EarAnchor::Back => seq![shift(-16, 0, 0)],
        EarAnchor::Center => seq![shift(-8, 8, 0)],
        EarAnchor::Front => Seq::empty(),
    }
}

fn mk_out_offset(a: EarAnchor) -> (r: Vec<LayoutOp>)
    ensures
        r@ == out_offset(a),
        forall|i: int| 0 <= i < r@.len() ==> is_move(#[trigger] r@[i]),
{
    reveal(out_offset);
    let r = match a {
        EarAnchor::Back => vec![mk_shift(-16, 0, 0)],
        EarAnchor::Center => vec![mk_shift(-8, 8, 0)],
        EarAnchor::Front => Vec::new(),
    };
    assert(r@ =~= out_offset(a));
    r
}

/// Ears above the head, and for "around" ears also down its sides.
#[verifier::opaque]
pub open spec fn ears_above_layout(around: bool, a: EarAnchor, slim: bool) -> Seq<LayoutOp> {
    let no = TextureRotation::NoRotation;
    let cw = TextureRotation::Clockwise;
    let nf = TextureFlip::NoFlip;
    stacked(
        seq![anchor(PlayerBodyPartType::Head, slim)] + anchor_offset(a) + framed(
            seq![shift(-4, 8, 0)],
            24,
            0,
            56,
            28,
            16,
            8,
            no,
            nf,
            cw,
            nf,
            "Ears Top",
        ) + if around {
            framed(seq![shift(-4, 0, 0)], 36, 32, 12, 32, 4, 8, cw, nf, cw, nf, "Ears Left") + framed(
                seq![shift(8, 0, 0)],
                36,
                16,
                12,
                16,
                4,
                8,
                cw,
                nf,
                cw,
                nf,
                "Ears Right",
            )
        } else {
            Seq::empty()
        },
    )
}

fn ears_above(ops: &mut Vec<LayoutOp>, around: bool, a: EarAnchor, slim: bool)
    requires
        nested(old(ops)@),
    ensures
        final(ops)@ == old(ops)@ + ears_above_layout(around, a, slim),
        nested(final(ops)@),
        same_depths(final(ops)@, old(ops)@),
        all_fit(final(ops)@) == all_fit(old(ops)@),
{
    reveal(ears_above_layout);
    let no = TextureRotation::NoRotation;
    let cw = TextureRotation::Clockwise;
    let nf = TextureFlip::NoFlip;
    emit(ops, LayoutOp::Push);
    emit(ops, mk_anchor(PlayerBodyPartType::Head, slim));
    emit_moves(ops, mk_anchor_offset(a));
    let top = vec![mk_shift(-4, 8, 0)];
    assert(top@ =~= seq![shift(-4, 8, 0)]);
    emit_framed(ops, top, 24, 0, 56, 28, 16, 8, no, nf, cw, nf, "Ears Top");
    if around {
        let left = vec![mk_shift(-4, 0, 0)];
        let right = vec![mk_shift(8, 0, 0)];
        assert(left@ =~= seq![shift(-4, 0, 0)]);
        assert(right@ =~= seq![shift(8, 0, 0)]);
        emit_framed(ops, left, 36, 32, 12, 32, 4, 8, cw, nf, cw, nf, "Ears Left");
        emit_framed(ops, right, 36, 16, 12, 16, 4, 8, cw, nf, cw, nf, "Ears Right");
    }
    emit(ops, LayoutOp::Pop);
    assert(ops@ =~= old(ops)@ + ears_above_layout(around, a, slim));
}

/// Ears on both sides of the head.
#[verifier::opaque]
pub open spec fn ears_sides_layout(a: EarAnchor, slim: bool) -> Seq<LayoutOp> {
    let no = TextureRotation::NoRotation;
    let cw = TextureRotation::Clockwise;
    let nf = TextureFlip::NoFlip;
    stacked(
        seq![anchor(PlayerBodyPartType::Head, slim)] + anchor_offset(a) + seq![shift(-8, 0, 0)] + double_sided(
            32,
            0,
            56,
            36,
            8,
            8,
            no,
            nf,
            cw,
            nf,
            "Ears Side Left",
        ) + seq![shift(16, 0, 0)] + double_sided(24, 0, 56, 28, 8, 8, no, nf, cw, nf, "Ears Side Right"),
    )
}

fn ears_sides(ops: &mut Vec<LayoutOp>, a: EarAnchor, slim: bool)
    requires
        nested(old(ops)@),
    ensures
        final(ops)@ == old(ops)@ + ears_sides_layout(a, slim),
        nested(final(ops)@),
        same_depths(final(ops)@, old(ops)@),
        all_fit(final(ops)@) == all_fit(old(ops)@),
{
    reveal(ears_sides_layout);
    let no = TextureRotation::NoRotation;
    let cw = TextureRotation::Clockwise;
    let nf = TextureFlip::NoFlip;
    emit(ops, LayoutOp::Push);
    emit(ops, mk_anchor(PlayerBodyPartType::Head, slim));
    emit_moves(ops, mk_anchor_offset(a));
    emit(ops, mk_shift(-8, 0, 0));
    emit_double_sided(ops, 32, 0, 56, 36, 8, 8, no, nf, cw, nf, "Ears Side Left");
    emit(ops, mk_shift(16, 0, 0));
    emit_double_sided(ops, 24, 0, 56, 28, 8, 8, no, nf, cw, nf, "Ears Side Right");
    emit(ops, LayoutOp::Pop);
    assert(ops@ =~= old(ops)@ + ears_sides_layout(a, slim));
}

/// Two ears hanging down over the sides of the head.
#[verifier::opaque]
pub open spec fn ears_floppy_layout(slim: bool) -> Seq<LayoutOp> {
    let head = anchor(PlayerBodyPartType::Head, slim);
    let no = TextureRotation::NoRotation;
    let cw = TextureRotation::Clockwise;
    let nf = TextureFlip::NoFlip;
    framed(
        seq![head, shift(0, -1, 8), turn(0, 90, 0), shift(0, 8, 0), turn(30, 0, 0), shift(0, -8, 0)],
        32,
        0,
        56,
        36,
        8,
        8,
        no,
        nf,
        cw,
        nf,
        "Ears Floppy Left",
    ) + framed(
        seq![head, shift(8, -1, 0), turn(0, -90, 0), shift(0, 8, 0), turn(30, 0, 0), shift(0, -8, 0)],
        24,
        0,
        56,
        28,
        8,
        8,
        no,
        nf,
        cw,
        nf,
        "Ears Floppy Right",
    )
}

fn ears_floppy(ops: &mut Vec<LayoutOp>, slim: bool)
    requires
        nested(old(ops)@),
    ensures
        final(ops)@ == old(ops)@ + ears_floppy_layout(slim),
        nested(final(ops)@),
        same_depths(final(ops)@, old(ops)@),
        all_fit(final(ops)@) == all_fit(old(ops)@),
{
    reveal(ears_floppy_layout);
    let no = TextureRotation::NoRotation;
    let cw = TextureRotation::Clockwise;
    let nf = TextureFlip::NoFlip;
    let head = PlayerBodyPartType::Head;
    let left = vec![
        mk_anchor(head, slim),
        mk_shift(0, -1, 8),
        LayoutOp::Rotate(0, 90, 0),
        mk_shift(0, 8, 0),
        LayoutOp::Rotate(30, 0, 0),
        mk_shift(0, -8, 0),
    ];
    let ghost l = left@;
    emit_framed(ops, left, 32, 0, 56, 36, 8, 8, no, nf, cw, nf, "Ears Floppy Left");
    let right = vec![
        mk_anchor(head, slim),
        mk_shift(8, -1, 0),
        LayoutOp::Rotate(0, -90, 0),
        mk_shift(0, 8, 0),
        LayoutOp::Rotate(30, 0, 0),
        mk_shift(0, -8, 0),
    ];
    let ghost r = right@;
    emit_framed(ops, right, 24, 0, 56, 28, 8, 8, no, nf, cw, nf, "Ears Floppy Right");
    assert(l =~= seq![
        anchor(PlayerBodyPartType::Head, slim),
        shift(0, -1, 8),
        turn(0, 90, 0),
        shift(0, 8, 0),
        turn(30, 0, 0),
        shift(0, -8, 0),
    ]);
    assert(r =~= seq![
        anchor(PlayerBodyPartType::Head, slim),
        shift(8, -1, 0),
        turn(0, -90, 0),
        shift(0, 8, 0),
        turn(30, 0, 0),
        shift(0, -8, 0),
    ]);
    assert(ops@ =~= old(ops)@ + ears_floppy_layout(slim));
}

/// Ears sticking straight out of both sides of the head.
#[verifier::opaque]
pub open spec fn ears_out_layout(a: EarAnchor, slim: bool) -> Seq<LayoutOp> {
    let no = TextureRotation::NoRotation;
    let cw = TextureRotation::Clockwise;
    let nf = TextureFlip::NoFlip;
    stacked(
        seq![anchor(PlayerBodyPartType::Head, slim), turn(0, 90, 0)] + out_offset(a) + double_sided(
            32,
            0,
            56,
            36,
            8,
            8,
            no,
            nf,
            cw,
            nf,
            "Ears Out Left",
        ) + seq![turn(0, 180, 0), shift(-8, 0, -8)] + double_sided(24, 0, 56, 28, 8, 8, no, nf, cw, nf, "Ears Out Right"),
    )
}

fn ears_out(ops: &mut Vec<LayoutOp>, a: EarAnchor, slim: bool)
    requires
        nested(old(ops)@),
    ensures
        final(ops)@ == old(ops)@ + ears_out_layout(a, slim),
        nested(final(ops)@),
        same_depths(final(ops)@, old(ops)@),
        all_fit(final(ops)@) == all_fit(old(ops)@),
{
    reveal(ears_out_layout);
    let no = TextureRotation::NoRotation;
    let cw = TextureRotation::Clockwise;
    let nf = TextureFlip::NoFlip;
    emit(ops, LayoutOp::Push);
    emit(ops, mk_anchor(PlayerBodyPartType::Head, slim));
    emit(ops, LayoutOp::Rotate(0, 90, 0));
    emit_moves(ops, mk_out_offset(a));
    emit_double_sided(ops, 32, 0, 56, 36, 8, 8, no, nf, cw, nf, "Ears Out Left");
    emit(ops, LayoutOp::Rotate(0, 180, 0));
    emit(ops, mk_shift(-8, 0, -8));
    emit_double_sided(ops, 24, 0, 56, 28, 8, 8, no, nf, cw, nf, "Ears Out Right");
    emit(ops, LayoutOp::Pop);
    assert(ops@ =~= old(ops)@ + ears_out_layout(a, slim));
}

/// Two ears crossing on top of the head; tall crossed ears are twice as high.
#[verifier::opaque]
pub open spec fn ears_cross_layout(tall: bool, a: EarAnchor, slim: bool) -> Seq<LayoutOp> {
    stacked(
        seq![anchor(PlayerBodyPartType::Head, slim)] + anchor_offset(a) + seq![shift(4, 8, 0)] + cross_pair(tall),
    )
}

/// The two crossed ears, after the move to the top of the head.
#[verifier::opaque]
pub open spec fn cross_pair(tall: bool) -> Seq<LayoutOp> {
    let no = TextureRotation::NoRotation;
    let cw = TextureRotation::Clockwise;
    let nf = TextureFlip::NoFlip;
    let left = seq![turn(0, -45, 0), shift(-4, 0, 0)];
    let right = seq![turn(0, 45, 0), shift(-4, 0, 0)];
    if tall {
        framed(left, 24, 0, 56, 28, 8, 16, cw, nf, no, nf, "Ears Tall Cross Left") + framed(
            right,
            24,
            0,
            56,
            28,
            8,
            16,
            cw,
            nf,
            no,
            nf,
            "Ears Tall Cross Right",
        )
    } else {
        framed(left, 24, 0, 56, 28, 8, 8, no, nf, cw, nf, "Ears Cross Left") + framed(
            right,
            32,
            0,
            56,
            36,
            8,
            8,
            no,
            nf,
            cw,
            nf,
            "Ears Cross Right",
        )
    }
}

fn emit_cross_pair(ops: &mut Vec<LayoutOp>, tall: bool)
    requires
        nested(old(ops)@),
    ensures
        final(ops)@ == old(ops)@ + cross_pair(tall),
        nested(final(ops)@),
        same_depths(final(ops)@, old(ops)@),
        all_fit(final(ops)@) == all_fit(old(ops)@),
{
    reveal(cross_pair);
    let no = TextureRotation::NoRotation;
    let cw = TextureRotation::Clockwise;
    let nf = TextureFlip::NoFlip;
    let left = vec![LayoutOp::Rotate(0, -45, 0), mk_shift(-4, 0, 0)];
    let right = vec![LayoutOp::Rotate(0, 45, 0), mk_shift(-4, 0, 0)];
    let ghost l = left@;
    let ghost r = right@;
    assert(l =~= seq![turn(0, -45, 0), shift(-4, 0, 0)]);
    assert(r =~= seq![turn(0, 45, 0), shift(-4, 0, 0)]);
    if tall {
        emit_framed(ops, left, 24, 0, 56, 28, 8, 16, cw, nf, no, nf, "Ears Tall Cross Left");
        emit_framed(ops, right, 24, 0, 56, 28, 8, 16, cw, nf, no, nf, "Ears Tall Cross Right");
    } else {
        emit_framed(ops, left, 24, 0, 56, 28, 8, 8, no, nf, cw, nf, "Ears Cross Left");
        emit_framed(ops, right, 32, 0, 56, 36, 8, 8, no, nf, cw, nf, "Ears Cross Right");
    }
    assert(ops@ =~= old(ops)@ + cross_pair(tall));
}

fn ears_cross(ops: &mut Vec<LayoutOp>, tall: bool, a: EarAnchor, slim: bool)
    requires
        nested(old(ops)@),
    ensures
        final(ops)@ == old(ops)@ + ears_cross_layout(tall, a, slim),
        nested(final(ops)@),
        same_depths(final(ops)@, old(ops)@),
        all_fit(final(ops)@) == all_fit(old(ops)@),
{
    reveal(ears_cross_layout);
    emit(ops, LayoutOp::Push);
    emit(ops, mk_anchor(PlayerBodyPartType::Head, slim));
    emit_moves(ops, mk_anchor_offset(a));
    emit(ops, mk_shift(4, 8, 0));
    emit_cross_pair(ops, tall);
    emit(ops, LayoutOp::Pop);
    assert(ops@ =~= old(ops)@ + ears_cross_layout(tall, a, slim));
}

/// A higher section of tall ears: up four pixels, leaning back by `degrees` more.
#[verifier::opaque]
pub open spec fn tall_section(degrees: int, u: u16, v_back: u16, name: &'static str) -> Seq<LayoutOp> {
    seq![shift(0, 4, 0), turn(degrees, 0, 0)] + double_sided(
        u,
        0,
        56,
        v_back,
        8,
        4,
        TextureRotation::Clockwise,
        TextureFlip::NoFlip,
        TextureRotation::NoRotation,
        TextureFlip::NoFlip,
        name,
    )
}

fn emit_tall_section(ops: &mut Vec<LayoutOp>, degrees: i32, u: u16, v_back: u16, name: &'static str)
    requires
        nested(old(ops)@),
        u + 4 <= 64,
        v_back <= 56,
    ensures
        final(ops)@ == old(ops)@ + tall_section(degrees as int, u, v_back, name),
        nested(final(ops)@),
        same_depths(final(ops)@, old(ops)@),
        all_fit(final(ops)@) == all_fit(old(ops)@),
{
    reveal(tall_section);
    emit(ops, mk_shift(0, 4, 0));
    emit(ops, LayoutOp::Rotate(degrees, 0, 0));
    emit_double_sided(
        ops,
        u,
        0,
        56,
        v_back,
        8,
        4,
        TextureRotation::Clockwise,
        TextureFlip::NoFlip,
        TextureRotation::NoRotation,
        TextureFlip::NoFlip,
        name,
    );
    assert(ops@ =~= old(ops)@ + tall_section(degrees as int, u, v_back, name));
}

/// Tall ears: four sections, each leaning a little further back.
#[verifier::opaque]
pub open spec fn ears_tall_layout(a: EarAnchor, slim: bool) -> Seq<LayoutOp> {
    let no = TextureRotation::NoRotation;
    let cw = TextureRotation::Clockwise;
    let nf = TextureFlip::NoFlip;
    stacked(
        seq![anchor(PlayerBodyPartType::Head, slim), shift(0, 8, 0)] + anchor_offset(a) + seq![turn(2, 0, 0)]
            + double_sided(24, 0, 56, 40, 8, 4, cw, nf, no, nf, "Ears Tall 1") + tall_section(6, 28, 36, "Ears Tall 2")
            + tall_section(3, 32, 32, "Ears Tall 3") + tall_section(6, 36, 28, "Ears Tall 4"),
    )
}

fn ears_tall(ops: &mut Vec<LayoutOp>, a: EarAnchor, slim: bool)
    requires
        nested(old(ops)@),
    ensures
        final(ops)@ == old(ops)@ + ears_tall_layout(a, slim),
        nested(final(ops)@),
        same_depths(final(ops)@, old(ops)@),
        all_fit(final(ops)@) == all_fit(old(ops)@),
{
    reveal(ears_tall_layout);
    let no = TextureRotation::NoRotation;
    let cw = TextureRotation::Clockwise;
    let nf = TextureFlip::NoFlip;
    emit(ops, LayoutOp::Push);
    emit(ops, mk_anchor(PlayerBodyPartType::Head, slim));
    emit(ops, mk_shift(0, 8, 0));
    emit_moves(ops, mk_anchor_offset(a));
    emit(ops, LayoutOp::Rotate(2, 0, 0));
    emit_double_sided(ops, 24, 0, 56, 40, 8, 4, cw, nf, no, nf, "Ears Tall 1");
    emit_tall_section(ops, 6, 28, 36, "Ears Tall 2");
    emit_tall_section(ops, 3, 32, 32, "Ears Tall 3");
    emit_tall_section(ops, 6, 36, 28, "Ears Tall 4");
    emit(ops, LayoutOp::Pop);
    assert(ops@ =~= old(ops)@ + ears_tall_layout(a, slim));
}

/// The ears of each ear mode. The "behind" mode is drawn as "out" ears at the
/// back, so it has no layout of its own.
pub open spec fn ears_layout(mode: EarMode, a: EarAnchor, slim: bool) -> Seq<LayoutOp> {
    match mode {
        EarMode::Above => ears_above_layout(false, a, slim),
        EarMode::Around => ears_above_layout(true, a, slim),
        EarMode::Sides => ears_sides_layout(a, slim),
        EarMode::Floppy => ears_floppy_layout(slim),
        EarMode::Out => ears_out_layout(a, slim),
        EarMode::Cross => ears_cross_layout(false, a, slim),
        EarMode::TallCross => ears_cross_layout(true, a, slim),
        EarMode::Tall => ears_tall_layout(a, slim),
        _ => Seq::empty(),
    }
}

/// Lays out the ears for an ear mode and anchor.
pub fn ears(ops: &mut Vec<LayoutOp>, mode: EarMode, a: EarAnchor, slim: bool)
    requires
        nested(old(ops)@),
        mode != EarMode::Behind,
    ensures
        final(ops)@ == old(ops)@ + ears_layout(mode, a, slim),
        nested(final(ops)@),
        same_depths(final(ops)@, old(ops)@),
        all_fit(final(ops)@) == all_fit(old(ops)@),
{
    match mode {
        EarMode::Above => ears_above(ops, false, a, slim),
        EarMode::Around => ears_above(ops, true, a, slim),
        EarMode::Sides => ears_sides(ops, a, slim),
        EarMode::Floppy => ears_floppy(ops, slim),
        EarMode::Out => ears_out(ops, a, slim),
        EarMode::Cross => ears_cross(ops, false, a, slim),
        EarMode::TallCross => ears_cross(ops, true, a, slim),
        EarMode::Tall => ears_tall(ops, a, slim),
        _ => assert(ops@ =~= old(ops)@ + ears_layout(mode, a, slim)),
    }
}

/// Scales x by `x` and y by `y`, keeping z.
pub open spec fn stretch(x: int, y: int) -> LayoutOp {
    LayoutOp::Scale((x as u32, 1u32), (y as u32, 1u32), (1u32, 1u32))
}

/// The snout's quads are cut from inside the skin when it is at most 64 pixels
/// wide and short enough that its bottom rows stay on the skin.
pub open spec fn snout_fits(s: SnoutData) -> bool {
    s.width <= 64 && s.height <= 61 && (s.depth > 1 ==> s.height <= 60)
}

/// The top of the snout; a snout deeper than one pixel gets a stretched second row.
#[verifier::opaque]
pub open spec fn snout_top(s: SnoutData) -> Seq<LayoutOp> {
    let no = TextureRotation::NoRotation;
    let nf = TextureFlip::NoFlip;
    let w = s.width as u16;
    let d1 = s.depth - 1;
    stacked(
        seq![shift(0, s.height as int, 0), turn(90, 0, 0), quad(0, 1, w, 1, no, nf, true, "Snout Top (A)")] + if d1
            > 0 {
            seq![shift(0, 1, 0), stretch(1, d1), quad(0, 0, w, 1, no, nf, true, "Snout Top (B)")]
        } else {
            Seq::empty()
        },
    )
}

/// The bottom of the snout, cut from below its front.
#[verifier::opaque]
pub open spec fn snout_bottom(s: SnoutData) -> Seq<LayoutOp> {
    let no = TextureRotation::NoRotation;
    let nf = TextureFlip::NoFlip;
    let w = s.width as u16;
    let h = s.height as int;
    let d1 = s.depth - 1;
    stacked(
        seq![turn(90, 0, 0), quad(0, (2 + h) as u16, w, 1, no, nf, false, "Snout Bottom (A)")] + if d1 > 0 {
            seq![shift(0, 1, 0), stretch(1, d1), quad(0, (3 + h) as u16, w, 1, no, nf, false, "Snout Bottom (B)")]
        } else {
            Seq::empty()
        },
    )
}

/// One side of the snout: the left faces front, the right faces back and sits
/// the snout's width further on.
#[verifier::opaque]
pub open spec fn snout_side(s: SnoutData, left: bool) -> Seq<LayoutOp> {
    let no = TextureRotation::NoRotation;
    let nf = TextureFlip::NoFlip;
    let h = s.height as u16;
    let d1 = s.depth - 1;
    stacked(
        seq![
            shift(-1, 0, if left { 0 } else { s.width as int }),
            quad(7, 0, 1, h, no, nf, left, if left { "Snout Left (A)" } else { "Snout Right (A)" }),
        ] + if d1 > 0 {
            seq![
                shift(-d1, 0, 0),
                stretch(d1, 1),
                quad(7, 4, 1, h, no, nf, left, if left { "Snout Left (B)" } else { "Snout Right (B)" }),
            ]
        } else {
            Seq::empty()
        },
    )
}

/// The front of the snout, placed in front of the face.
#[verifier::opaque]
pub open spec fn snout_front(s: SnoutData, slim: bool) -> Seq<LayoutOp> {
    let w = s.width as int;
    seq![
        anchor(PlayerBodyPartType::Head, slim),
        LayoutOp::Translate(((8 - w) * 50) as i32, (s.offset * 100) as i32, (-(s.depth * 100)) as i32),
        quad(
            0,
            2,
            s.width as u16,
            s.height as u16,
            TextureRotation::NoRotation,
            TextureFlip::NoFlip,
            true,
            "Snout Front",
        ),
    ]
}

/// Both sides of the snout.
#[verifier::opaque]
pub open spec fn snout_sides(s: SnoutData) -> Seq<LayoutOp> {
    stacked(seq![turn(0, 90, 0)] + snout_side(s, true) + snout_side(s, false))
}

/// The snout: one mesh in front of the face, its depth stretched from single
/// pixel rows.
#[verifier::opaque]
pub open spec fn snout_layout(s: SnoutData, slim: bool) -> Seq<LayoutOp> {
    seq![LayoutOp::BeginMesh, LayoutOp::Push] + snout_front(s, slim) + snout_top(s) + snout_bottom(s) + snout_sides(s)
        + seq![LayoutOp::Pop, LayoutOp::EndMesh("Snout")]
}

fn emit_snout_front(ops: &mut Vec<LayoutOp>, s: SnoutData, slim: bool)
    requires
        nested(old(ops)@),
    ensures
        final(ops)@ == old(ops)@ + snout_front(s, slim),
        nested(final(ops)@),
        same_depths(final(ops)@, old(ops)@),
        all_fit(final(ops)@) == (all_fit(old(ops)@) && s.width <= 64 && s.height <= 62),
{
    reveal(snout_front);
    let w = s.width as i32;
    emit(ops, mk_anchor(PlayerBodyPartType::Head, slim));
    emit(ops, LayoutOp::Translate((8 - w) * 50, s.offset as i32 * 100, -(s.depth as i32 * 100)));
    emit(
        ops,
        mk_quad(
            0,
            2,
            s.width as u16,
            s.height as u16,
            TextureRotation::NoRotation,
            TextureFlip::NoFlip,
            true,
            "Snout Front",
        ),
    );
    assert(ops@ =~= old(ops)@ + snout_front(s, slim));
}

fn emit_snout_sides(ops: &mut Vec<LayoutOp>, s: SnoutData)
    requires
        nested(old(ops)@),
    ensures
        final(ops)@ == old(ops)@ + snout_sides(s),
        nested(final(ops)@),
        same_depths(final(ops)@, old(ops)@),
        all_fit(final(ops)@) == (all_fit(old(ops)@) && s.height <= 64 && (s.depth > 1 ==> s.height <= 60)),
{
    reveal(snout_sides);
    emit(ops, LayoutOp::Push);
    emit(ops, LayoutOp::Rotate(0, 90, 0));
    emit_snout_side(ops, s, true);
    emit_snout_side(ops, s, false);
    emit(ops, LayoutOp::Pop);
    assert(ops@ =~= old(ops)@ + snout_sides(s));
}

fn emit_snout_top(ops: &mut Vec<LayoutOp>, s: SnoutData)
    requires
        nested(old(ops)@),
    ensures
        final(ops)@ == old(ops)@ + snout_top(s),
        nested(final(ops)@),
        same_depths(final(ops)@, old(ops)@),
        all_fit(final(ops)@) == (all_fit(old(ops)@) && s.width <= 64),
{
    reveal(snout_top);
    let no = TextureRotation::NoRotation;
    let nf = TextureFlip::NoFlip;
    let w = s.width as u16;
    emit(ops, LayoutOp::Push);
    emit(ops, LayoutOp::Translate(0, s.height as i32 * 100, 0));
    emit(ops, LayoutOp::Rotate(90, 0, 0));
    emit(ops, mk_quad(0, 1, w, 1, no, nf, true, "Snout Top (A)"));
    if s.depth > 1 {
        let d1 = s.depth as u32 - 1;
        emit(ops, mk_shift(0, 1, 0));
        emit(ops, LayoutOp::Scale((1, 1), (d1, 1), (1, 1)));
        emit(ops, mk_quad(0, 0, w, 1, no, nf, true, "Snout Top (B)"));
    }
    emit(ops, LayoutOp::Pop);
    assert(ops@ =~= old(ops)@ + snout_top(s));
}

fn emit_snout_bottom(ops: &mut Vec<LayoutOp>, s: SnoutData)
    requires
        nested(old(ops)@),
    ensures
        final(ops)@ == old(ops)@ + snout_bottom(s),
        nested(final(ops)@),
        same_depths(final(ops)@, old(ops)@),
        all_fit(final(ops)@) == (all_fit(old(ops)@) && s.width <= 64 && s.height <= 61 && (s.depth > 1
            ==> s.height <= 60)),
{
    reveal(snout_bottom);
    let no = TextureRotation::NoRotation;
    let nf = TextureFlip::NoFlip;
    let w = s.width as u16;
    let h = s.height as u16;
    emit(ops, LayoutOp::Push);
    emit(ops, LayoutOp::Rotate(90, 0, 0));
    emit(ops, mk_quad(0, 2 + h, w, 1, no, nf, false, "Snout Bottom (A)"));
    if s.depth > 1 {
        let d1 = s.depth as u32 - 1;
        emit(ops, mk_shift(0, 1, 0));
        emit(ops, LayoutOp::Scale((1, 1), (d1, 1), (1, 1)));
        emit(ops, mk_quad(0, 3 + h, w, 1, no, nf, false, "Snout Bottom (B)"));
    }
    emit(ops, LayoutOp::Pop);
    assert(ops@ =~= old(ops)@ + snout_bottom(s));
}

fn emit_snout_side(ops: &mut Vec<LayoutOp>, s: SnoutData, left: bool)
    requires
        nested(old(ops)@),
    ensures
        final(ops)@ == old(ops)@ + snout_side(s, left),
        nested(final(ops)@),
        same_depths(final(ops)@, old(ops)@),
        all_fit(final(ops)@) == (all_fit(old(ops)@) && s.height <= 64 && (s.depth > 1 ==> s.height <= 60)),
{
    reveal(snout_side);
    let no = TextureRotation::NoRotation;
    let nf = TextureFlip::NoFlip;
    let h = s.height as u16;
    emit(ops, LayoutOp::Push);
    emit(ops, LayoutOp::Translate(-100, 0, if left { 0 } else { s.width as i32 * 100 }));
    emit(ops, mk_quad(7, 0, 1, h, no, nf, left, if left { "Snout Left (A)" } else { "Snout Right (A)" }));
    if s.depth > 1 {
        let d1 = s.depth - 1;
        emit(ops, LayoutOp::Translate(-(d1 as i32) * 100, 0, 0));
        emit(ops, LayoutOp::Scale((d1 as u32, 1), (1, 1), (1, 1)));
        emit(ops, mk_quad(7, 4, 1, h, no, nf, left, if left { "Snout Left (B)" } else { "Snout Right (B)" }));
    }
    emit(ops, LayoutOp::Pop);
    assert(ops@ =~= old(ops)@ + snout_side(s, left));
}

/// Lays out the snout.
pub fn snout(ops: &mut Vec<LayoutOp>, s: SnoutData, slim: bool)
    requires
        nested(old(ops)@),
    ensures
        final(ops)@ == old(ops)@ + snout_layout(s, slim),
        nested(final(ops)@),
        same_depths(final(ops)@, old(ops)@),
        all_fit(final(ops)@) == (all_fit(old(ops)@) && snout_fits(s)),
{
    reveal(snout_layout);
    emit(ops, LayoutOp::BeginMesh);
    emit(ops, LayoutOp::Push);
    emit_snout_front(ops, s, slim);
    emit_snout_top(ops, s);
    emit_snout_bottom(ops, s);
    emit_snout_sides(ops, s);
    emit(ops, LayoutOp::Pop);
    emit(ops, LayoutOp::EndMesh("Snout"));
    assert(ops@ =~= old(ops)@ + snout_layout(s, slim));
}

/// Which way the first tail bend points.
#[derive(Debug, Clone, Copy, PartialEq, Eq, Structural)]
pub enum BendSign {
    Negative,
    Zero,
    Positive,
}

/// Turns the tail sideways by its first bend.
pub open spec fn tail_yaw() -> LayoutOp {
    LayoutOp::RotateBy { axis: Axis::Y, degrees: 0, angle: AngleInput::TailBend(0), negate: false }
}

/// A vertical tail stands on its edge; its first bend swings it about the
/// edge that the bend points away from.
#[verifier::opaque]
pub open spec fn tail_vertical(first: BendSign) -> Seq<LayoutOp> {
    seq![shift(4, 0, 0), turn(0, 0, 90)] + (if first == BendSign::Negative {
        seq![shift(4, 0, 0), tail_yaw(), shift(-4, 0, 0)]
    } else {
        Seq::empty()
    }) + seq![shift(-4, 0, 0)] + (if first == BendSign::Positive {
        seq![tail_yaw()]
    } else {
        Seq::empty()
    }) + seq![turn(90, 0, 0)]
}

/// Tail segment `k`, cut from texture rows `seg.0` on, `seg.1` rows high: bent
/// by its bend (the first segment of a vertical tail was already bent), drawn,
/// and followed by a move to the next segment's start.
pub open spec fn tail_segment(k: int, seg: (u16, u16), vert: bool) -> Seq<LayoutOp> {
    seq![
        if k == 0 && vert {
            turn(0, 0, 0)
        } else {
            LayoutOp::RotateBy { axis: Axis::X, degrees: 0, angle: AngleInput::TailBend(k as u8), negate: false }
        },
        LayoutOp::Quad(
            QuadSpec {
                u: 56,
                v: seg.0,
                width: 8,
                height: seg.1,
                rot: TextureRotation::NoRotation,
                flip: TextureFlip::Vertical,
                front: true,
                name: "Tail Segment",
                index: Some(k as u8),
            },
        ),
        shift(0, seg.1 as int, 0),
    ]
}

pub open spec fn tail_segments_layout(segs: Seq<(u16, u16)>, vert: bool) -> Seq<LayoutOp>
    decreases segs.len(),
{
    if segs.len() == 0 {
        Seq::empty()
    } else {
        tail_segments_layout(segs.drop_last(), vert) + tail_segment(segs.len() - 1, segs.last(), vert)
    }
}

/// The tail: hung from the back of the body, tilted by its mode, and drawn in
/// segments that each bend further.
#[verifier::opaque]
pub open spec fn tail_layout(tail: TailData, first: BendSign, slim: bool) -> Seq<LayoutOp> {
    let (ang, _) = spec_tail_angles(tail.mode, first != BendSign::Zero);
    let vert = tail.mode == TailMode::Vertical;
    stacked(
        seq![
            anchor(PlayerBodyPartType::Body, slim),
            shift(0, 2, 4),
            turn(0, 0, 180),
            shift(-8, 0, 0),
            turn(ang as int, 0, 0),
        ] + (if vert {
            tail_vertical(first)
        } else {
            Seq::empty()
        }) + tail_segments_layout(spec_tail_segments(tail.segments), vert),
    )
}

proof fn lemma_tail_rows_fit(segments: u8, k: int)
    requires
        segments <= 4,
        0 <= k < spec_tail_segments(segments).len(),
    ensures
        spec_tail_segments(segments)[k].0 + spec_tail_segments(segments)[k].1 <= 28,
        spec_tail_segments(segments)[k].1 <= 12,
{
    let n = segment_count(segments);
    let h = 12int / n;
    assert(spec_tail_segments(segments)[k] == ((16 + k * h) as u16, h as u16));
    assert(h * n <= 12) by (nonlinear_arith)
        requires
            h == 12int / n,
            1 <= n <= 4,
    ;
    assert(k * h + h <= 12) by (nonlinear_arith)
        requires
            0 <= k < n,
            1 <= n <= 4,
            h * n <= 12,
            h >= 0,
    ;
    assert(h <= 12) by (nonlinear_arith)
        requires
            h == 12int / n,
            1 <= n <= 4,
    ;
}

fn emit_tail_vertical(ops: &mut Vec<LayoutOp>, first: BendSign)
    requires
        nested(old(ops)@),
    ensures
        final(ops)@ == old(ops)@ + tail_vertical(first),
        nested(final(ops)@),
        same_depths(final(ops)@, old(ops)@),
        all_fit(final(ops)@) == all_fit(old(ops)@),
{
    reveal(tail_vertical);
    let yaw = LayoutOp::RotateBy { axis: Axis::Y, degrees: 0, angle: AngleInput::TailBend(0), negate: false };
    emit(ops, mk_shift(4, 0, 0));
    emit(ops, LayoutOp::Rotate(0, 0, 90));
    if first == BendSign::Negative {
        emit(ops, mk_shift(4, 0, 0));
        emit(ops, yaw);
        emit(ops, mk_shift(-4, 0, 0));
    }
    emit(ops, mk_shift(-4, 0, 0));
    if first == BendSign::Positive {
        emit(ops, yaw);
    }
    emit(ops, LayoutOp::Rotate(90, 0, 0));
    assert(ops@ =~= old(ops)@ + tail_vertical(first));
}

fn emit_tail_segments(ops: &mut Vec<LayoutOp>, segments: u8, vert: bool)
    requires
        nested(old(ops)@),
        segments <= 4,
    ensures
        final(ops)@ == old(ops)@ + tail_segments_layout(spec_tail_segments(segments), vert),
        nested(final(ops)@),
        same_depths(final(ops)@, old(ops)@),
        all_fit(final(ops)@) == all_fit(old(ops)@),
{
    let segs = tail_segments(segments);
    let mut k: usize = 0;
    while k < segs.len()
        invariant
            nested(ops@),
            same_depths(ops@, old(ops)@),
            all_fit(ops@) == all_fit(old(ops)@),
            segments <= 4,
            segs@ == spec_tail_segments(segments),
            k <= segs@.len(),
            segs@.len() <= 4,
            ops@ == old(ops)@ + tail_segments_layout(segs@.take(k as int), vert),
        decreases segs@.len() - k,
    {
        let (v, h) = segs[k];
        proof {
            lemma_tail_rows_fit(segments, k as int);
        }
        let ghost before = ops@;
        if k == 0 && vert {
            emit(ops, LayoutOp::Rotate(0, 0, 0));
        } else {
            emit(
                ops,
                LayoutOp::RotateBy { axis: Axis::X, degrees: 0, angle: AngleInput::TailBend(k as u8), negate: false },
            );
        }
        emit(
            ops,
            LayoutOp::Quad(
                QuadSpec {
                    u: 56,
                    v,
                    width: 8,
                    height: h,
                    rot: TextureRotation::NoRotation,
                    flip: TextureFlip::Vertical,
                    front: true,
                    name: "Tail Segment",
                    index: Some(k as u8),
                },
            ),
        );
        emit(ops, LayoutOp::Translate(0, h as i32 * 100, 0));
        proof {
            let t = segs@.take(k + 1);
            assert(t.drop_last() =~= segs@.take(k as int));
            assert(t.last() == segs@[k as int]);
            assert(ops@ =~= before + tail_segment(k as int, segs@[k as int], vert));
        }
        k = k + 1;
    }
    assert(segs@.take(segs@.len() as int) =~= segs@);
}

/// Lays out the tail; a tail has at most four segments.
pub fn tail(ops: &mut Vec<LayoutOp>, tail: TailData, first: BendSign, slim: bool)
    requires
        nested(old(ops)@),
        tail.segments <= 4,
    ensures
        final(ops)@ == old(ops)@ + tail_layout(tail, first, slim),
        nested(final(ops)@),
        same_depths(final(ops)@, old(ops)@),
        all_fit(final(ops)@) == all_fit(old(ops)@),
{
    reveal(tail_layout);
    let (ang, _swing) = tail_angles(tail.mode, first != BendSign::Zero);
    let vert = tail.mode == TailMode::Vertical;
    emit(ops, LayoutOp::Push);
    emit(ops, mk_anchor(PlayerBodyPartType::Body, slim));
    emit(ops, mk_shift(0, 2, 4));
    emit(ops, LayoutOp::Rotate(0, 0, 180));
    emit(ops, mk_shift(-8, 0, 0));
    emit(ops, LayoutOp::Rotate(ang, 0, 0));
    if vert {
        emit_tail_vertical(ops, first);
    }
    emit_tail_segments(ops, tail.segments, vert);
    emit(ops, LayoutOp::Pop);
    assert(ops@ =~= old(ops)@ + tail_layout(tail, first, slim));
}

/// One wing: turned out from the back by `degrees`, flapping by the wiggle
/// (the opposite way when `negate`).
#[verifier::opaque]
pub open spec fn wing(degrees: int, negate: bool, name: &'static str) -> Seq<LayoutOp> {
    stacked(
        seq![
            LayoutOp::RotateBy {
                axis: Axis::Y,
                degrees: degrees as i32,
                angle: AngleInput::WingWiggle,
                negate,
            },
            quad(0, 0, 20, 16, TextureRotation::NoRotation, TextureFlip::Horizontal, true, name),
        ],
    )
}

/// The wings, drawn with the wings texture from the upper back: a left and a
/// right wing for dual or asymmetric modes, one middle wing for a single wing.
#[verifier::opaque]
pub open spec fn wings_layout(mode: WingMode, slim: bool) -> Seq<LayoutOp> {
    seq![
        LayoutOp::PushTexture(PlayerPartEarsTextureType::Wings),
        LayoutOp::Push,
        LayoutOp::Push,
        anchor(PlayerBodyPartType::Body, slim),
        shift(2, -2, 4),
    ] + wing_set(mode) + seq![LayoutOp::Pop, LayoutOp::Pop, LayoutOp::PopTexture]
}

fn emit_wing(ops: &mut Vec<LayoutOp>, degrees: i32, negate: bool, name: &'static str)
    requires
        nested(old(ops)@),
    ensures
        final(ops)@ == old(ops)@ + wing(degrees as int, negate, name),
        nested(final(ops)@),
        same_depths(final(ops)@, old(ops)@),
        all_fit(final(ops)@) == all_fit(old(ops)@),
{
    reveal(wing);
    emit(ops, LayoutOp::Push);
    emit(ops, LayoutOp::RotateBy { axis: Axis::Y, degrees, angle: AngleInput::WingWiggle, negate });
    emit(ops, mk_quad(0, 0, 20, 16, TextureRotation::NoRotation, TextureFlip::Horizontal, true, name));
    emit(ops, LayoutOp::Pop);
    assert(ops@ =~= old(ops)@ + wing(degrees as int, negate, name));
}

/// The wings proper, after the move to the upper back.
#[verifier::opaque]
pub open spec fn wing_set(mode: WingMode) -> Seq<LayoutOp> {
    (if mode == WingMode::SymmetricDual || mode == WingMode::AsymmetricL {
        wing(-120, false, "Wing Left")
    } else {
        Seq::empty()
    }) + (if mode == WingMode::SymmetricDual || mode == WingMode::AsymmetricR {
        seq![shift(4, 0, 0)] + wing(-60, true, "Wing Right")
    } else {
        Seq::empty()
    }) + (if mode == WingMode::SymmetricSingle {
        seq![shift(2, 0, 0)] + wing(-90, false, "Wing (Single)")
    } else {
        Seq::empty()
    })
}

fn emit_wing_set(ops: &mut Vec<LayoutOp>, mode: WingMode)
    requires
        nested(old(ops)@),
    ensures
        final(ops)@ == old(ops)@ + wing_set(mode),
        nested(final(ops)@),
        same_depths(final(ops)@, old(ops)@),
        all_fit(final(ops)@) == all_fit(old(ops)@),
{
    reveal(wing_set);
    if mode == WingMode::SymmetricDual || mode == WingMode::AsymmetricL {
        emit_wing(ops, -120, false, "Wing Left");
    }
    if mode == WingMode::SymmetricDual || mode == WingMode::AsymmetricR {
        emit(ops, mk_shift(4, 0, 0));
        emit_wing(ops, -60, true, "Wing Right");
    }
    if mode == WingMode::SymmetricSingle {
        emit(ops, mk_shift(2, 0, 0));
        emit_wing(ops, -90, false, "Wing (Single)");
    }
    assert(ops@ =~= old(ops)@ + wing_set(mode));
}

/// Lays out the wings.
pub fn wings(ops: &mut Vec<LayoutOp>, mode: WingMode, slim: bool)
    requires
        nested(old(ops)@),
    ensures
        final(ops)@ == old(ops)@ + wings_layout(mode, slim),
        nested(final(ops)@),
        same_depths(final(ops)@, old(ops)@),
        all_fit(final(ops)@) == all_fit(old(ops)@),
{
    reveal(wings_layout);
    emit(ops, LayoutOp::PushTexture(PlayerPartEarsTextureType::Wings));
    emit(ops, LayoutOp::Push);
    emit(ops, LayoutOp::Push);
    emit(ops, mk_anchor(PlayerBodyPartType::Body, slim));
    emit(ops, mk_shift(2, -2, 4));
    emit_wing_set(ops, mode);
    emit(ops, LayoutOp::Pop);
    emit(ops, LayoutOp::Pop);
    emit(ops, LayoutOp::PopTexture);
    assert(ops@ =~= old(ops)@ + wings_layout(mode, slim));
}

/// The outer layer of the chest grows half a pixel wider and higher and sits
/// a quarter pixel further out.
#[verifier::opaque]
pub open spec fn chest_grow(layer: bool) -> Seq<LayoutOp> {
    if layer {
        seq![
            shift(4, 2, 0),
            LayoutOp::Scale((17u32, 16u32), (9u32, 8u32), (1u32, 1u32)),
            shift(-4, -2, 0),
            LayoutOp::Translate(0, 0, -25i32),
        ]
    } else {
        Seq::empty()
    }
}

fn emit_chest_grow(ops: &mut Vec<LayoutOp>, layer: bool)
    requires
        nested(old(ops)@),
    ensures
        final(ops)@ == old(ops)@ + chest_grow(layer),
        nested(final(ops)@),
        same_depths(final(ops)@, old(ops)@),
        all_fit(final(ops)@) == all_fit(old(ops)@),
{
    reveal(chest_grow);
    if layer {
        emit(ops, mk_shift(4, 2, 0));
        emit(ops, LayoutOp::Scale((17, 16), (9, 8), (1, 1)));
        emit(ops, mk_shift(-4, -2, 0));
        emit(ops, LayoutOp::Translate(0, 0, -25));
    }
    assert(ops@ =~= old(ops)@ + chest_grow(layer));
}

/// The top of the chest; the layer's top is cut from two squares.
#[verifier::opaque]
pub open spec fn chest_top(layer: bool) -> Seq<LayoutOp> {
    let no = TextureRotation::NoRotation;
    let both = TextureFlip::Both;
    stacked(
        chest_grow(layer) + if !layer {
            seq![quad(20, 22, 8, 4, no, both, true, "Chest (Top)")]
        } else {
            stacked(
                seq![
                    quad(0, 48, 4, 4, no, both, true, "Chest (Top Left) (Layer)"),
                    shift(4, 0, 0),
                    quad(12, 48, 4, 4, no, both, true, "Chest (Top Right) (Layer)"),
                ],
            )
        },
    )
}

fn emit_chest_top(ops: &mut Vec<LayoutOp>, layer: bool)
    requires
        nested(old(ops)@),
    ensures
        final(ops)@ == old(ops)@ + chest_top(layer),
        nested(final(ops)@),
        same_depths(final(ops)@, old(ops)@),
        all_fit(final(ops)@) == all_fit(old(ops)@),
{
    reveal(chest_top);
    let no = TextureRotation::NoRotation;
    let both = TextureFlip::Both;
    emit(ops, LayoutOp::Push);
    emit_chest_grow(ops, layer);
    if !layer {
        emit(ops, mk_quad(20, 22, 8, 4, no, both, true, "Chest (Top)"));
    } else {
        emit(ops, LayoutOp::Push);
        emit(ops, mk_quad(0, 48, 4, 4, no, both, true, "Chest (Top Left) (Layer)"));
        emit(ops, mk_shift(4, 0, 0));
        emit(ops, mk_quad(12, 48, 4, 4, no, both, true, "Chest (Top Right) (Layer)"));
        emit(ops, LayoutOp::Pop);
    }
    emit(ops, LayoutOp::Pop);
    assert(ops@ =~= old(ops)@ + chest_top(layer));
}

/// The underside of the chest.
#[verifier::opaque]
pub open spec fn chest_bottom(layer: bool) -> Seq<LayoutOp> {
    stacked(
        seq![shift(0, 4, 0), turn(90, 0, 0)] + chest_grow(layer) + seq![
            quad(
                if layer { 28 } else { 56 },
                if layer { 48 } else { 44 },
                8,
                4,
                TextureRotation::NoRotation,
                TextureFlip::Both,
                true,
                if layer { "Chest (Bottom) (Layer)" } else { "Chest (Bottom)" },
            ),
        ],
    )
}

fn emit_chest_bottom(ops: &mut Vec<LayoutOp>, layer: bool)
    requires
        nested(old(ops)@),
    ensures
        final(ops)@ == old(ops)@ + chest_bottom(layer),
        nested(final(ops)@),
        same_depths(final(ops)@, old(ops)@),
        all_fit(final(ops)@) == all_fit(old(ops)@),
{
    reveal(chest_bottom);
    emit(ops, LayoutOp::Push);
    emit(ops, mk_shift(0, 4, 0));
    emit(ops, LayoutOp::Rotate(90, 0, 0));
    emit_chest_grow(ops, layer);
    emit(
        ops,
        mk_quad(
            if layer { 28 } else { 56 },
            if layer { 48 } else { 44 },
            8,
            4,
            TextureRotation::NoRotation,
            TextureFlip::Both,
            true,
            if layer { "Chest (Bottom) (Layer)" } else { "Chest (Bottom)" },
        ),
    );
    emit(ops, LayoutOp::Pop);
    assert(ops@ =~= old(ops)@ + chest_bottom(layer));
}

/// The right side of the chest, sitting a quarter pixel further out on the layer.
#[verifier::opaque]
pub open spec fn chest_right(layer: bool) -> Seq<LayoutOp> {
    stacked(
        chest_grow(layer) + (if layer {
            seq![LayoutOp::Translate(25, 0, 0)]
        } else {
            Seq::empty()
        }) + seq![
            quad(
                if layer { 48 } else { 60 },
                48,
                4,
                4,
                TextureRotation::NoRotation,
                TextureFlip::Both,
                true,
                if layer { "Chest (Right) (Layer)" } else { "Chest (Right)" },
            ),
        ],
    )
}

/// Both sides of the chest: the left side is the right side's texture mirrored,
/// across the body's width.
#[verifier::opaque]
pub open spec fn chest_sides(layer: bool) -> Seq<LayoutOp> {
    stacked(
        seq![turn(0, 90, 0), LayoutOp::Translate(-400i32, 0, 1)] + chest_right(layer) + seq![
            LayoutOp::Translate(0, 0, 798),
            turn(0, 180, 0),
            shift(-4, 0, 0),
        ] + chest_grow(layer) + seq![
            quad(
                if layer { 48 } else { 60 },
                48,
                4,
                4,
                TextureRotation::NoRotation,
                TextureFlip::Vertical,
                true,
                if layer { "Chest (Left) (Layer)" } else { "Chest (Left)" },
            ),
        ],
    )
}

fn emit_chest_right(ops: &mut Vec<LayoutOp>, layer: bool)
    requires
        nested(old(ops)@),
    ensures
        final(ops)@ == old(ops)@ + chest_right(layer),
        nested(final(ops)@),
        same_depths(final(ops)@, old(ops)@),
        all_fit(final(ops)@) == all_fit(old(ops)@),
{
    reveal(chest_right);
    emit(ops, LayoutOp::Push);
    emit_chest_grow(ops, layer);
    if layer {
        emit(ops, LayoutOp::Translate(25, 0, 0));
    }
    emit(
        ops,
        mk_quad(
            if layer { 48 } else { 60 },
            48,
            4,
            4,
            TextureRotation::NoRotation,
            TextureFlip::Both,
            true,
            if layer { "Chest (Right) (Layer)" } else { "Chest (Right)" },
        ),
    );
    emit(ops, LayoutOp::Pop);
    assert(ops@ =~= old(ops)@ + chest_right(layer));
}

fn emit_chest_sides(ops: &mut Vec<LayoutOp>, layer: bool)
    requires
        nested(old(ops)@),
    ensures
        final(ops)@ == old(ops)@ + chest_sides(layer),
        nested(final(ops)@),
        same_depths(final(ops)@, old(ops)@),
        all_fit(final(ops)@) == all_fit(old(ops)@),
{
    reveal(chest_sides);
    emit(ops, LayoutOp::Push);
    emit(ops, LayoutOp::Rotate(0, 90, 0));
    emit(ops, LayoutOp::Translate(-400, 0, 1));
    emit_chest_right(ops, layer);
    emit(ops, LayoutOp::Translate(0, 0, 798));
    emit(ops, LayoutOp::Rotate(0, 180, 0));
    emit(ops, mk_shift(-4, 0, 0));
    emit_chest_grow(ops, layer);
    emit(
        ops,
        mk_quad(
            if layer { 48 } else { 60 },
            48,
            4,
            4,
            TextureRotation::NoRotation,
            TextureFlip::Vertical,
            true,
            if layer { "Chest (Left) (Layer)" } else { "Chest (Left)" },
        ),
    );
    emit(ops, LayoutOp::Pop);
    assert(ops@ =~= old(ops)@ + chest_sides(layer));
}

/// The chest: a box on the front of the body, tipped forward by the chest
/// size, drawn on the body or grown over it on its outer layer.
#[verifier::opaque]
pub open spec fn chest_layout(layer: bool, slim: bool) -> Seq<LayoutOp> {
    stacked(
        seq![
            anchor(PlayerBodyPartType::Body, slim),
            shift(0, 10, 0),
            turn(0, 0, 180),
            shift(-8, 0, 0),
            LayoutOp::RotateBy { axis: Axis::X, degrees: 0, angle: AngleInput::ChestTilt, negate: false },
        ] + chest_top(layer) + chest_bottom(layer) + chest_sides(layer),
    )
}

/// Lays out the chest on the body, or on its outer layer when `layer`.
pub fn chest(ops: &mut Vec<LayoutOp>, layer: bool, slim: bool)
    requires
        nested(old(ops)@),
    ensures
        final(ops)@ == old(ops)@ + chest_layout(layer, slim),
        nested(final(ops)@),
        same_depths(final(ops)@, old(ops)@),
        all_fit(final(ops)@) == all_fit(old(ops)@),
{
    reveal(chest_layout);
    emit(ops, LayoutOp::Push);
    emit(ops, mk_anchor(PlayerBodyPartType::Body, slim));
    emit(ops, mk_shift(0, 10, 0));
    emit(ops, LayoutOp::Rotate(0, 0, 180));
    emit(ops, mk_shift(-8, 0, 0));
    emit(ops, LayoutOp::RotateBy { axis: Axis::X, degrees: 0, angle: AngleInput::ChestTilt, negate: false });
    emit_chest_top(ops, layer);
    emit_chest_bottom(ops, layer);
    emit_chest_sides(ops, layer);
    emit(ops, LayoutOp::Pop);
    assert(ops@ =~= old(ops)@ + chest_layout(layer, slim));
}

/// What one Ears feature draws on a body part. Claws and the horn share a
/// feature; the chest is drawn on the body or over it on the body's layer.
#[verifier::opaque]
pub open spec fn feature_layout(
    d: EarsModPartStaticDispatch,
    f: EarsFeatures,
    part: PlayerBodyPartType,
    slim: bool,
    wearing_boots: bool,
    first: BendSign,
) -> Seq<LayoutOp> {
    match d {
        EarsModPartStaticDispatch::Ears => ears_layout(f.ear_mode, f.ear_anchor, slim),
        EarsModPartStaticDispatch::Protrusions => (if f.claws {
            claws_layout(part, slim, wearing_boots)
        } else {
            Seq::empty()
        }) + (if part == PlayerBodyPartType::Head && f.horn {
            horn_layout(slim)
        } else {
            Seq::empty()
        }),
        EarsModPartStaticDispatch::Snout => match f.snout {
            Some(s) => snout_layout(s, slim),
            None => Seq::empty(),
        },
        EarsModPartStaticDispatch::Tail => match f.tail {
            Some(t) => tail_layout(t, first, slim),
            None => Seq::empty(),
        },
        EarsModPartStaticDispatch::Wings => match f.wing {
            Some(w) => wings_layout(w.mode, slim),
            None => Seq::empty(),
        },
        EarsModPartStaticDispatch::Chest => chest_layout(part == PlayerBodyPartType::BodyLayer, slim),
    }
}

/// The features `ds` drawn in turn, each in a group named after it.
#[verifier::opaque]
pub open spec fn features_layout(
    ds: Seq<EarsModPartStaticDispatch>,
    f: EarsFeatures,
    part: PlayerBodyPartType,
    slim: bool,
    wearing_boots: bool,
    first: BendSign,
) -> Seq<LayoutOp>
    decreases ds.len(),
{
    if ds.len() == 0 {
        Seq::empty()
    } else {
        features_layout(ds.drop_last(), f, part, slim, wearing_boots, first) + feature_group(
            ds.last(),
            f,
            part,
            slim,
            wearing_boots,
            first,
        )
    }
}

/// One feature drawn in a group named after it.
pub open spec fn feature_group(
    d: EarsModPartStaticDispatch,
    f: EarsFeatures,
    part: PlayerBodyPartType,
    slim: bool,
    wearing_boots: bool,
    first: BendSign,
) -> Seq<LayoutOp> {
    seq![LayoutOp::PushGroup(GroupName::Feature(d))] + feature_layout(d, f, part, slim, wearing_boots, first)
        + seq![LayoutOp::PopGroup]
}

proof fn lemma_features_layout_step(
    ds: Seq<EarsModPartStaticDispatch>,
    i: int,
    f: EarsFeatures,
    part: PlayerBodyPartType,
    slim: bool,
    wearing_boots: bool,
    first: BendSign,
)
    requires
        0 <= i < ds.len(),
    ensures
        features_layout(ds.take(i + 1), f, part, slim, wearing_boots, first) == features_layout(
            ds.take(i),
            f,
            part,
            slim,
            wearing_boots,
            first,
        ) + feature_group(ds[i], f, part, slim, wearing_boots, first),
{
    reveal(features_layout);
    let t = ds.take(i + 1);
    assert(t.drop_last() =~= ds.take(i));
    assert(t.last() == ds[i]);
}

proof fn lemma_features_layout_empty(
    ds: Seq<EarsModPartStaticDispatch>,
    f: EarsFeatures,
    part: PlayerBodyPartType,
    slim: bool,
    wearing_boots: bool,
    first: BendSign,
)
    ensures
        features_layout(ds.take(0), f, part, slim, wearing_boots, first) == Seq::<LayoutOp>::empty(),
{
    reveal(features_layout);
    assert(ds.take(0).len() == 0);
}

fn emit_feature_group(
    ops: &mut Vec<LayoutOp>,
    d: EarsModPartStaticDispatch,
    f: &EarsFeatures,
    part: PlayerBodyPartType,
    slim: bool,
    wearing_boots: bool,
    first: BendSign,
)
    requires
        nested(old(ops)@),
        f.ear_mode != EarMode::Behind,
        f.tail matches Some(t) ==> t.segments <= 4,
    ensures
        final(ops)@ == old(ops)@ + feature_group(d, *f, part, slim, wearing_boots, first),
        nested(final(ops)@),
        same_depths(final(ops)@, old(ops)@),
        all_fit(old(ops)@) && snout_in_skin(*f) ==> all_fit(final(ops)@),
{
    emit(ops, LayoutOp::PushGroup(GroupName::Feature(d)));
    emit_feature(ops, d, f, part, slim, wearing_boots, first);
    emit(ops, LayoutOp::PopGroup);
    assert(ops@ =~= old(ops)@ + feature_group(d, *f, part, slim, wearing_boots, first));
}

/// The Ears parts of one body part: the features of the plan in a group named
/// after the base part.
pub open spec fn spec_ears_mod_layout(
    plan: EarsPartsPlan,
    part: PlayerBodyPartType,
    slim: bool,
    wearing_boots: bool,
    first: BendSign,
) -> Seq<LayoutOp> {
    seq![LayoutOp::PushGroup(GroupName::Part(spec_non_layer_part(part)))] + features_layout(
        plan.providers@,
        plan.features,
        part,
        slim,
        wearing_boots,
        first,
    ) + seq![LayoutOp::PopGroup]
}

/// The snout, if drawn, has Ears-sized dimensions.
pub open spec fn snout_in_skin(f: EarsFeatures) -> bool {
    f.snout matches Some(s) ==> snout_fits(s)
}

fn emit_feature(
    ops: &mut Vec<LayoutOp>,
    d: EarsModPartStaticDispatch,
    f: &EarsFeatures,
    part: PlayerBodyPartType,
    slim: bool,
    wearing_boots: bool,
    first: BendSign,
)
    requires
        nested(old(ops)@),
        f.ear_mode != EarMode::Behind,
        f.tail matches Some(t) ==> t.segments <= 4,
    ensures
        final(ops)@ == old(ops)@ + feature_layout(d, *f, part, slim, wearing_boots, first),
        nested(final(ops)@),
        same_depths(final(ops)@, old(ops)@),
        all_fit(old(ops)@) && snout_in_skin(*f) ==> all_fit(final(ops)@),
{
    reveal(feature_layout);
    match d {
        EarsModPartStaticDispatch::Ears => ears(ops, f.ear_mode, f.ear_anchor, slim),
        EarsModPartStaticDispatch::Protrusions => {
            if f.claws {
                claws(ops, part, slim, wearing_boots);
            }
            if part == PlayerBodyPartType::Head && f.horn {
                horn(ops, slim);
            }
            assert(ops@ =~= old(ops)@ + feature_layout(d, *f, part, slim, wearing_boots, first));
        },
        EarsModPartStaticDispatch::Snout => {
            match f.snout {
                Some(s) => snout(ops, s, slim),
                None => assert(ops@ =~= old(ops)@ + feature_layout(d, *f, part, slim, wearing_boots, first)),
            }
        },
        EarsModPartStaticDispatch::Tail => {
            match f.tail {
                Some(t) => tail(ops, t, first, slim),
                None => assert(ops@ =~= old(ops)@ + feature_layout(d, *f, part, slim, wearing_boots, first)),
            }
        },
        EarsModPartStaticDispatch::Wings => {
            match f.wing {
                Some(w) => wings(ops, w.mode, slim),
                None => assert(ops@ =~= old(ops)@ + feature_layout(d, *f, part, slim, wearing_boots, first)),
            }
        },
        EarsModPartStaticDispatch::Chest => chest(ops, part == PlayerBodyPartType::BodyLayer, slim),
    }
}

/// The builder instructions for the Ears parts of one body part, following
/// the plan of `EarsPlayerPartsProvider::get_parts`. The instructions are
/// closed: every stack is popped exactly as often as it is pushed, never below
/// where it started; and when the snout has Ears-sized dimensions, every quad
/// is cut from inside the skin.
pub fn ears_mod_layout(
    plan: &EarsPartsPlan,
    body_part: PlayerBodyPartType,
    slim: bool,
    wearing_boots: bool,
    first_bend: BendSign,
) -> (r: Vec<LayoutOp>)
    requires
        plan.features.ear_mode != EarMode::Behind,
        plan.features.tail matches Some(t) ==> t.segments <= 4,
    ensures
        r@ == spec_ears_mod_layout(*plan, body_part, slim, wearing_boots, first_bend),
        closed(r@),
        snout_in_skin(plan.features) ==> all_fit(r@),
{
    let mut ops: Vec<LayoutOp> = Vec::new();
    proof {
        assert(nested(ops@));
    }
    emit(&mut ops, LayoutOp::PushGroup(GroupName::Part(body_part.get_non_layer_part())));
    let ghost start = ops@;
    proof {
        lemma_features_layout_empty(plan.providers@, plan.features, body_part, slim, wearing_boots, first_bend);
        assert(ops@ =~= start + features_layout(
            plan.providers@.take(0),
            plan.features,
            body_part,
            slim,
            wearing_boots,
            first_bend,
        ));
    }
    let mut i: usize = 0;
    while i < plan.providers.len()
        invariant
            plan.features.ear_mode != EarMode::Behind,
            plan.features.tail matches Some(t) ==> t.segments <= 4,
            i <= plan.providers@.len(),
            nested(ops@),
            same_depths(ops@, start),
            all_fit(start) && snout_in_skin(plan.features) ==> all_fit(ops@),
            ops@ == start + features_layout(
                plan.providers@.take(i as int),
                plan.features,
                body_part,
                slim,
                wearing_boots,
                first_bend,
            ),
        decreases plan.providers@.len() - i,
    {
        let d = plan.providers[i];
        emit_feature_group(&mut ops, d, &plan.features, body_part, slim, wearing_boots, first_bend);
        proof {
            lemma_features_layout_step(plan.providers@, i as int, plan.features, body_part, slim, wearing_boots, first_bend);
            assert(ops@ =~= start + features_layout(
                plan.providers@.take(i + 1),
                plan.features,
                body_part,
                slim,
                wearing_boots,
                first_bend,
            ));
        }
        i = i + 1;
    }
    assert(plan.providers@.take(plan.providers@.len() as int) =~= plan.providers@);
    emit(&mut ops, LayoutOp::PopGroup);
    assert(ops@ =~= spec_ears_mod_layout(*plan, body_part, slim, wearing_boots, first_bend));
    ops
}


/// The side pieces "around" ears add to "above" ears: an 'Ears Left' piece four
/// pixels left and an 'Ears Right' piece eight pixels right, each a double-sided
/// four by eight quad turned a quarter clockwise, cut from (36, 32) / (12, 32)
/// and from (36, 16) / (12, 16).
pub open spec fn around_side_pieces() -> Seq<LayoutOp> {
    let cw = TextureRotation::Clockwise;
    let nf = TextureFlip::NoFlip;
    seq![
        LayoutOp::Push,
        shift(-4, 0, 0),
        LayoutOp::PushGroup(GroupName::Named("Ears Left")),
        quad(36, 32, 4, 8, cw, nf, true, "Ears Left"),
        quad(12, 32, 4, 8, cw, nf, false, "Ears Left"),
        LayoutOp::PopGroup,
        LayoutOp::Pop,
        LayoutOp::Push,
        shift(8, 0, 0),
        LayoutOp::PushGroup(GroupName::Named("Ears Right")),
        quad(36, 16, 4, 8, cw, nf, true, "Ears Right"),
        quad(12, 16, 4, 8, cw, nf, false, "Ears Right"),
        LayoutOp::PopGroup,
        LayoutOp::Pop,
    ]
}

/// "Around" ears are "above" ears with the two side pieces added down the sides
/// of the head, inside the same transformation: the layouts agree up to the
/// last instruction of the "above" ears, which closes both.
pub proof fn lemma_around_is_above_with_sides(a: EarAnchor, slim: bool)
    ensures
        ({
            let above = ears_layout(EarMode::Above, a, slim);
            let around = ears_layout(EarMode::Around, a, slim);
            &&& above.len() > 0
            &&& above.last() is Pop
            &&& around == above.drop_last() + around_side_pieces() + seq![LayoutOp::Pop]
        }),
{
    reveal(ears_above_layout);
    reveal(framed);
    reveal(double_sided);
    let above = ears_layout(EarMode::Above, a, slim);
    let around = ears_layout(EarMode::Around, a, slim);
    assert(above.last() is Pop);
    let cw = TextureRotation::Clockwise;
    let nf = TextureFlip::NoFlip;
    assert(framed(seq![shift(-4, 0, 0)], 36, 32, 12, 32, 4, 8, cw, nf, cw, nf, "Ears Left") + framed(
        seq![shift(8, 0, 0)],
        36,
        16,
        12,
        16,
        4,
        8,
        cw,
        nf,
        cw,
        nf,
        "Ears Right",
    ) =~= around_side_pieces());
    assert(around =~= above.drop_last() + around_side_pieces() + seq![LayoutOp::Pop]);
}

/// The number of quads in a layout.
pub open spec fn quad_count(s: Seq<LayoutOp>) -> nat
    decreases s.len(),
{
    if s.len() == 0 {
        0
    } else {
        quad_count(s.drop_last()) + if s.last() is Quad { 1nat } else { 0nat }
    }
}

proof fn lemma_quad_count_concat(a: Seq<LayoutOp>, b: Seq<LayoutOp>)
    ensures
        quad_count(a + b) == quad_count(a) + quad_count(b),
    decreases b.len(),
{
    if b.len() > 0 {
        lemma_quad_count_concat(a, b.drop_last());
        assert((a + b).drop_last() =~= a + b.drop_last());
        assert((a + b).last() == b.last());
    }
}

/// The instructions around the wings: the wings texture, two nested
/// transformations and the move to the upper back, closed after the wings.
pub open spec fn wings_frame(slim: bool) -> (Seq<LayoutOp>, Seq<LayoutOp>) {
    (
        seq![
            LayoutOp::PushTexture(PlayerPartEarsTextureType::Wings),
            LayoutOp::Push,
            LayoutOp::Push,
            anchor(PlayerBodyPartType::Body, slim),
            shift(2, -2, 4),
        ],
        seq![LayoutOp::Pop, LayoutOp::Pop, LayoutOp::PopTexture],
    )
}

proof fn lemma_wings_parts(slim: bool)
    ensures
        quad_count(wings_frame(slim).0) == 0,
        quad_count(wings_frame(slim).1) == 0,
        quad_count(wing(-120, false, "Wing Left")) == 1,
        quad_count(seq![shift(4, 0, 0)] + wing(-60, true, "Wing Right")) == 1,
        quad_count(seq![shift(2, 0, 0)] + wing(-90, false, "Wing (Single)")) == 1,
{
    reveal(wing);
    reveal_with_fuel(quad_count, 6);
}

/// The left wing alone is one quad, 'Wing Left', turned 120 degrees back plus
/// the flap.
pub proof fn lemma_left_wing_alone(slim: bool)
    ensures
        ({
            let l = wings_layout(WingMode::AsymmetricL, slim);
            &&& quad_count(l) == 1
            &&& l[7] == quad(0, 0, 20, 16, TextureRotation::NoRotation, TextureFlip::Horizontal, true, "Wing Left")
            &&& l[6] == (LayoutOp::RotateBy {
                axis: Axis::Y,
                degrees: -120i32,
                angle: AngleInput::WingWiggle,
                negate: false,
            })
        }),
{
    reveal(wings_layout);
    reveal(wing_set);
    reveal(wing);
    let (head, tail) = wings_frame(slim);
    let left = wing(-120, false, "Wing Left");
    let l = wings_layout(WingMode::AsymmetricL, slim);
    assert(l =~= head + left + tail);
    lemma_wings_parts(slim);
    lemma_quad_count_concat(head, left);
    lemma_quad_count_concat(head + left, tail);
}

/// The right wing alone is one quad, 'Wing Right', moved four pixels right and
/// turned 60 degrees back minus the flap.
pub proof fn lemma_right_wing_alone(slim: bool)
    ensures
        ({
            let r = wings_layout(WingMode::AsymmetricR, slim);
            &&& quad_count(r) == 1
            &&& r[8] == quad(0, 0, 20, 16, TextureRotation::NoRotation, TextureFlip::Horizontal, true, "Wing Right")
            &&& r[7] == (LayoutOp::RotateBy {
                axis: Axis::Y,
                degrees: -60i32,
                angle: AngleInput::WingWiggle,
                negate: true,
            })
            &&& r[5] == shift(4, 0, 0)
        }),
{
    reveal(wings_layout);
    reveal(wing_set);
    reveal(wing);
    let (head, tail) = wings_frame(slim);
    let right = seq![shift(4, 0, 0)] + wing(-60, true, "Wing Right");
    let r = wings_layout(WingMode::AsymmetricR, slim);
    assert(r =~= head + right + tail);
    lemma_wings_parts(slim);
    lemma_quad_count_concat(head, right);
    lemma_quad_count_concat(head + right, tail);
}

/// Dual wings draw two quads, a single wing one.
pub proof fn lemma_wing_counts(slim: bool)
    ensures
        quad_count(wings_layout(WingMode::SymmetricDual, slim)) == 2,
        quad_count(wings_layout(WingMode::SymmetricSingle, slim)) == 1,
{
    reveal(wings_layout);
    reveal(wing_set);
    let (head, tail) = wings_frame(slim);
    let left = wing(-120, false, "Wing Left");
    let right = seq![shift(4, 0, 0)] + wing(-60, true, "Wing Right");
    let single = seq![shift(2, 0, 0)] + wing(-90, false, "Wing (Single)");
    assert(wings_layout(WingMode::SymmetricDual, slim) =~= head + left + right + tail);
    assert(wings_layout(WingMode::SymmetricSingle, slim) =~= head + single + tail);
    lemma_wings_parts(slim);
    lemma_quad_count_concat(head, left);
    lemma_quad_count_concat(head + left, right);
    lemma_quad_count_concat(head + left + right, tail);
    lemma_quad_count_concat(head, single);
    lemma_quad_count_concat(head + single, tail);
}

} // verus!
