use vstd::prelude::*;
use crate::uv::{
    FaceUv, fits, point, spec_flip_horizontally, spec_flip_vertically, spec_rotate_cw,
    spec_uv_from_pos_and_size, uv_from_pos_and_size,
};

verus! {

/// How a quad's texture is turned before it is mapped.
#[derive(Debug, Clone, Copy, PartialEq, Eq, Structural)]
pub enum TextureRotation {
    NoRotation,
    Clockwise,
    CounterClockwise,
    UpsideDown,
}

/// How a quad's texture is mirrored before it is mapped.
#[derive(Debug, Clone, Copy, PartialEq, Eq, Structural)]
pub enum TextureFlip {
    NoFlip,
    Horizontal,
    Vertical,
    Both,
}

pub open spec fn spec_is_transposed(r: TextureRotation) -> bool {
    r == TextureRotation::Clockwise || r == TextureRotation::CounterClockwise
}

pub open spec fn spec_cw(r: TextureRotation) -> TextureRotation {
    match r {
        TextureRotation::NoRotation => TextureRotation::Clockwise,
        TextureRotation::Clockwise => TextureRotation::UpsideDown,
        TextureRotation::UpsideDown => TextureRotation::CounterClockwise,
        TextureRotation::CounterClockwise => TextureRotation::NoRotation,
    }
}

pub open spec fn spec_ccw(r: TextureRotation) -> TextureRotation {
    match r {
        TextureRotation::NoRotation => TextureRotation::CounterClockwise,
        TextureRotation::CounterClockwise => TextureRotation::UpsideDown,
        TextureRotation::UpsideDown => TextureRotation::Clockwise,
        TextureRotation::Clockwise => TextureRotation::NoRotation,
    }
}

pub open spec fn spec_flip_h(f: TextureFlip) -> TextureFlip {
    match f {
        TextureFlip::Both => TextureFlip::Vertical,
        TextureFlip::Horizontal => TextureFlip::NoFlip,
        TextureFlip::NoFlip => TextureFlip::Horizontal,
        TextureFlip::Vertical => TextureFlip::Both,
    }
}

pub open spec fn spec_flip_v(f: TextureFlip) -> TextureFlip {
    match f {
        TextureFlip::Both => TextureFlip::Horizontal,
        TextureFlip::Horizontal => TextureFlip::Both,
        TextureFlip::NoFlip => TextureFlip::Vertical,
        TextureFlip::Vertical => TextureFlip::NoFlip,
    }
}

impl TextureRotation {
    /// A quarter turn swaps the width and the height of the texture region.
    pub fn is_transposed(&self) -> (r: bool)
        ensures
            r == spec_is_transposed(*self),
    {
        match self {
            TextureRotation::Clockwise | TextureRotation::CounterClockwise => true,
            _ => false,
        }
    }

    /// The rotation followed by one more clockwise quarter turn.
    pub fn cw(&self) -> (r: TextureRotation)
        ensures
            r == spec_cw(*self),
    {
        match self {
            TextureRotation::NoRotation => TextureRotation::Clockwise,
            TextureRotation::Clockwise => TextureRotation::UpsideDown,
            TextureRotation::UpsideDown => TextureRotation::CounterClockwise,
            TextureRotation::CounterClockwise => TextureRotation::NoRotation,
        }
    }

    /// The rotation followed by one more counter-clockwise quarter turn.
    pub fn ccw(&self) -> (r: TextureRotation)
        ensures
            r == spec_ccw(*self),
    {
        match self {
            TextureRotation::NoRotation => TextureRotation::CounterClockwise,
            TextureRotation::CounterClockwise => TextureRotation::UpsideDown,
            TextureRotation::UpsideDown => TextureRotation::Clockwise,
            TextureRotation::Clockwise => TextureRotation::NoRotation,
        }
    }
}

impl TextureFlip {
    /// The flip followed by one more left-to-right mirroring.
    pub fn flip_horizontally(&self) -> (r: TextureFlip)
        ensures
            r == spec_flip_h(*self),
    {
        match self {
            TextureFlip::Both => TextureFlip::Vertical,
            TextureFlip::Horizontal => TextureFlip::NoFlip,
            TextureFlip::NoFlip => TextureFlip::Horizontal,
            TextureFlip::Vertical => TextureFlip::Both,
        }
    }

    /// The flip followed by one more top-to-bottom mirroring.
    pub fn flip_vertically(&self) -> (r: TextureFlip)
        ensures
            r == spec_flip_v(*self),
    {
        match self {
            TextureFlip::Both => TextureFlip::Horizontal,
            TextureFlip::Horizontal => TextureFlip::Both,
            TextureFlip::NoFlip => TextureFlip::Vertical,
            TextureFlip::Vertical => TextureFlip::NoFlip,
        }
    }
}

/// What a rotation does to a face: a quarter turn, three quarter turns, or
/// (for upside down) a top-to-bottom mirroring.
pub open spec fn apply_rotation(f: FaceUv, r: TextureRotation) -> FaceUv {
    match r {
        TextureRotation::Clockwise => spec_rotate_cw(f),
        TextureRotation::CounterClockwise => spec_rotate_cw(spec_rotate_cw(spec_rotate_cw(f))),
        TextureRotation::UpsideDown => spec_flip_vertically(f),
        TextureRotation::NoRotation => f,
    }
}

/// What a flip does to a face.
pub open spec fn apply_flip(f: FaceUv, t: TextureFlip) -> FaceUv {
    match t {
        TextureFlip::Horizontal => spec_flip_horizontally(f),
        TextureFlip::Vertical => spec_flip_vertically(f),
        TextureFlip::Both => spec_flip_vertically(spec_flip_horizontally(f)),
        TextureFlip::NoFlip => f,
    }
}

/// The flip a quad ends up with: a quarter turn exchanges the two mirror axes,
/// and a front-facing quad is seen from behind, so it is mirrored once more.
pub open spec fn effective_flip(rot: TextureRotation, flip: TextureFlip, front_facing: bool) -> TextureFlip {
    let f1 = if spec_is_transposed(rot) {
        match flip {
            TextureFlip::Horizontal => TextureFlip::Vertical,
            TextureFlip::Vertical => TextureFlip::Horizontal,
            _ => flip,
        }
    } else {
        flip
    };
    if front_facing { spec_flip_h(f1) } else { f1 }
}

/// The width and height of the texture region a quad samples: swapped by a quarter turn.
pub open spec fn region_size(width: u16, height: u16, rot: TextureRotation) -> (u16, u16) {
    if spec_is_transposed(rot) { (height, width) } else { (width, height) }
}

/// The texture corners of a quad of `width` by `height` pixels whose texture
/// region starts at `(u, v)`.
pub open spec fn spec_quad_face_uv(
    u: u16,
    v: u16,
    width: u16,
    height: u16,
    rot: TextureRotation,
    flip: TextureFlip,
    front_facing: bool,
) -> FaceUv {
    let (w, h) = region_size(width, height, rot);
    apply_flip(
        apply_rotation(spec_uv_from_pos_and_size(u, v, w, h), rot),
        effective_flip(rot, flip, front_facing),
    )
}

/// The texture corners and the geometric size `[width, height, 0]` of a quad of
/// `width` by `height` pixels whose texture region starts at `(u, v)`, turned by
/// `rot` and mirrored by `flip`.
pub fn quad_face_uv(
    u: u16,
    v: u16,
    width: u16,
    height: u16,
    rot: TextureRotation,
    flip: TextureFlip,
    front_facing: bool,
) -> (r: (FaceUv, [u32; 3]))
    requires
        fits(u, v, region_size(width, height, rot).0, region_size(width, height, rot).1),
    ensures
        r.0 == spec_quad_face_uv(u, v, width, height, rot, flip, front_facing),
        r.1@ == seq![width as u32, height as u32, 0u32],
{
    let mut width = width;
    let mut height = height;
    let mut flip = flip;
    let size: [u32; 3] = [width as u32, height as u32, 0];

    if rot.is_transposed() {
        let t = width;
        width = height;
        height = t;

        flip = match flip {
            TextureFlip::Horizontal => TextureFlip::Vertical,
            TextureFlip::Vertical => TextureFlip::Horizontal,
            _ => flip,
        };
    }

    if front_facing {
        flip = flip.flip_horizontally();
    }

    let mut uvs = uv_from_pos_and_size(u, v, width, height);

    match rot {
        TextureRotation::Clockwise => uvs = uvs.rotate_cw(),
        TextureRotation::CounterClockwise => uvs = uvs.rotate_cw().rotate_cw().rotate_cw(),
        TextureRotation::UpsideDown => uvs = uvs.flip_vertically(),
        TextureRotation::NoRotation => {},
    }

    match flip {
        TextureFlip::Horizontal => uvs = uvs.flip_horizontally(),
        TextureFlip::Vertical => uvs = uvs.flip_vertically(),
        TextureFlip::Both => uvs = uvs.flip_horizontally().flip_vertically(),
        TextureFlip::NoFlip => {},
    }

    assert(size@ =~= seq![size[0], size[1], size[2]]);
    (uvs, size)
}

/// The flip of the back side of a double-sided quad: the front's flip mirrored once more.
pub fn back_side_flip(flip: TextureFlip) -> (r: TextureFlip)
    ensures
        r == spec_flip_h(flip),
{
    flip.flip_horizontally()
}

/// The texture corners of a part given as `[u, v, width, height]`; a clockwise
/// part swaps width and height, is turned a quarter, and every part is finally
/// mirrored left to right.
pub open spec fn spec_process_uvs(uv: [u16; 4], horizontal_flip: bool, upside_down: bool, cw: bool) -> FaceUv {
    let (w, h) = if cw { (uv@[3], uv@[2]) } else { (uv@[2], uv@[3]) };
    let f0 = spec_uv_from_pos_and_size(uv@[0], uv@[1], w, h);
    let f1 = if upside_down { spec_flip_vertically(f0) } else { f0 };
    let f2 = if horizontal_flip { spec_flip_horizontally(f1) } else { f1 };
    let f3 = if cw { spec_rotate_cw(f2) } else { f2 };
    spec_flip_horizontally(f3)
}

/// Texture corners of a part definition `[u, v, width, height]` with its flips and turn.
pub fn process_uvs(
    uv: [u16; 4],
    horizontal_flip: bool,
    upside_down: bool,
    cw: bool,
    vertical: bool,
) -> (r: FaceUv)
    requires
        if cw { fits(uv@[0], uv@[1], uv@[3], uv@[2]) } else { fits(uv@[0], uv@[1], uv@[2], uv@[3]) },
    ensures
        r == spec_process_uvs(uv, horizontal_flip, upside_down, cw),
{
    let mut uv = uv;
    if cw {
        let t = uv[2];
        uv[2] = uv[3];
        uv[3] = t;
    }

    let mut uvs = uv_from_pos_and_size(uv[0], uv[1], uv[2], uv[3]);

    if upside_down {
        uvs = uvs.flip_vertically();
    }

    if horizontal_flip {
        uvs = uvs.flip_horizontally();
    }

    if cw {
        uvs = uvs.rotate_cw();
    }

    uvs = uvs.flip_horizontally();

    uvs
}

/// A clockwise quarter turn undoes a counter-clockwise one, and the other way round.
pub proof fn lemma_cw_ccw_inverse(r: TextureRotation)
    ensures
        spec_cw(spec_ccw(r)) == r,
        spec_ccw(spec_cw(r)) == r,
{
}

/// Four quarter turns give back the same rotation.
pub proof fn lemma_four_cw_identity(r: TextureRotation)
    ensures
        spec_cw(spec_cw(spec_cw(spec_cw(r)))) == r,
{
}

/// Each quarter turn changes whether width and height are swapped.
pub proof fn lemma_cw_toggles_transposition(r: TextureRotation)
    ensures
        spec_is_transposed(spec_cw(r)) == !spec_is_transposed(r),
        spec_is_transposed(spec_ccw(r)) == !spec_is_transposed(r),
{
}

/// Each mirroring undoes itself, and the two mirrorings commute.
pub proof fn lemma_texture_flips_involutive_and_commute(f: TextureFlip)
    ensures
        spec_flip_h(spec_flip_h(f)) == f,
        spec_flip_v(spec_flip_v(f)) == f,
        spec_flip_h(spec_flip_v(f)) == spec_flip_v(spec_flip_h(f)),
        spec_flip_h(spec_flip_v(TextureFlip::NoFlip)) == TextureFlip::Both,
{
}

/// Mirroring the recorded flip mirrors the face it is applied to: the flip
/// state is a faithful record of the mirrorings done to a face.
pub proof fn lemma_flip_record_matches_face(f: FaceUv, t: TextureFlip)
    ensures
        apply_flip(f, spec_flip_h(t)) == spec_flip_horizontally(apply_flip(f, t)),
        apply_flip(f, spec_flip_v(t)) == spec_flip_vertically(apply_flip(f, t)),
{
}


/// The two sides of a quad show the same texture region mirrored left to right:
/// whatever the rotation and flip, the front face is the back face mirrored
/// horizontally (for a quarter turn too, after the turn has exchanged the
/// mirror axes), and the geometric size is the same on both sides.
pub proof fn lemma_front_is_back_mirrored(
    u: u16,
    v: u16,
    width: u16,
    height: u16,
    rot: TextureRotation,
    flip: TextureFlip,
)
    ensures
        spec_quad_face_uv(u, v, width, height, rot, flip, true) == spec_flip_horizontally(
            spec_quad_face_uv(u, v, width, height, rot, flip, false),
        ),
{
    let (w, h) = region_size(width, height, rot);
    let x = apply_rotation(spec_uv_from_pos_and_size(u, v, w, h), rot);
    let f1 = effective_flip(rot, flip, false);
    assert(effective_flip(rot, flip, true) == spec_flip_h(f1));
    match f1 {
        TextureFlip::NoFlip => {},
        TextureFlip::Horizontal => {
            assert(spec_flip_horizontally(spec_flip_horizontally(x)) == x);
        },
        TextureFlip::Vertical => {
            assert(spec_flip_vertically(spec_flip_horizontally(x)) == spec_flip_horizontally(
                spec_flip_vertically(x),
            ));
        },
        TextureFlip::Both => {
            assert(spec_flip_vertically(x) == spec_flip_horizontally(
                spec_flip_vertically(spec_flip_horizontally(x)),
            ));
        },
    }
}

/// A quarter-turned quad samples its region transposed: the clockwise turn of a
/// back-facing, unflipped quad of `width` by `height` starting at `(u, v)` has
/// its top left corner at `(u + height, v)` and its bottom right at `(u, v + width)`;
/// the front face swaps left and right of that.
pub proof fn lemma_clockwise_quad_corners(u: u16, v: u16, width: u16, height: u16)
    requires
        u + height <= u16::MAX,
        v + width <= u16::MAX,
    ensures
        ({
            let back = spec_quad_face_uv(u, v, width, height, TextureRotation::Clockwise, TextureFlip::NoFlip, false);
            let front = spec_quad_face_uv(u, v, width, height, TextureRotation::Clockwise, TextureFlip::NoFlip, true);
            &&& back.top_left == point((u + height) as u16, v)
            &&& back.bottom_right == point(u, (v + width) as u16)
            &&& back.cw_rotation_count == 1
            &&& !back.flipped_horizontally && !back.flipped_vertically
            &&& front.top_left == point((u + height) as u16, (v + width) as u16)
            &&& front.top_right == point((u + height) as u16, v)
            &&& front.bottom_left == point(u, (v + width) as u16)
            &&& front.bottom_right == point(u, v)
            &&& front.flipped_horizontally && !front.flipped_vertically
            &&& front.cw_rotation_count == 1
        }),
{
}

} // verus!
