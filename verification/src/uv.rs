use vstd::prelude::*;
use vstd::std_specs::convert::FromSpecImpl;

verus! {

/// A corner of a face, in texture pixels.
#[derive(Debug, Copy, Clone, PartialEq, Eq, Structural)]
pub struct FaceUvPoint {
    pub x: u16,
    pub y: u16,
}

/// The four texture corners of one face, with a record of the flips and
/// clockwise quarter turns that have been applied to it.
#[derive(Debug, Copy, Clone, PartialEq, Eq, Structural)]
pub struct FaceUv {
    pub top_left: FaceUvPoint,
    pub top_right: FaceUvPoint,
    pub bottom_left: FaceUvPoint,
    pub bottom_right: FaceUvPoint,
    pub flipped_horizontally: bool,
    pub flipped_vertically: bool,
    pub cw_rotation_count: u8,
}

/// The texture faces of a cube.
#[derive(Debug, Copy, Clone, PartialEq, Eq, Structural)]
pub struct CubeFaceUvs {
    pub north: FaceUv,
    pub south: FaceUv,
    pub east: FaceUv,
    pub west: FaceUv,
    pub up: FaceUv,
    pub down: FaceUv,
}

pub open spec fn point(x: u16, y: u16) -> FaceUvPoint {
    FaceUvPoint { x, y }
}

/// The axis-aligned face spanning `(x1, y1)` to `(x2, y2)`.
pub open spec fn spec_face(
    x1: u16,
    y1: u16,
    x2: u16,
    y2: u16,
    flipped_horizontally: bool,
    flipped_vertically: bool,
    cw_rotation_count: u8,
) -> FaceUv {
    FaceUv {
        top_left: point(x1, y1),
        top_right: point(x2, y1),
        bottom_left: point(x1, y2),
        bottom_right: point(x2, y2),
        flipped_horizontally,
        flipped_vertically,
        cw_rotation_count,
    }
}

/// The four corners, leaving out the record of applied transformations.
pub open spec fn corners(f: FaceUv) -> (FaceUvPoint, FaceUvPoint, FaceUvPoint, FaceUvPoint) {
    (f.top_left, f.top_right, f.bottom_left, f.bottom_right)
}

pub open spec fn spec_flip_vertically(f: FaceUv) -> FaceUv {
    FaceUv {
        top_left: f.bottom_left,
        top_right: f.bottom_right,
        bottom_left: f.top_left,
        bottom_right: f.top_right,
        flipped_vertically: !f.flipped_vertically,
        ..f
    }
}

pub open spec fn spec_flip_horizontally(f: FaceUv) -> FaceUv {
    FaceUv {
        top_left: f.top_right,
        top_right: f.top_left,
        bottom_left: f.bottom_right,
        bottom_right: f.bottom_left,
        flipped_horizontally: !f.flipped_horizontally,
        ..f
    }
}

pub open spec fn spec_rotate_cw(f: FaceUv) -> FaceUv {
    FaceUv {
        top_left: f.top_right,
        top_right: f.bottom_right,
        bottom_right: f.bottom_left,
        bottom_left: f.top_left,
        cw_rotation_count: ((f.cw_rotation_count + 1) % 4) as u8,
        ..f
    }
}

/// The face of `size_x` by `size_y` pixels whose top left corner is `(x, y)`.
pub open spec fn spec_uv_from_pos_and_size(x: u16, y: u16, size_x: u16, size_y: u16) -> FaceUv {
    spec_face(x, y, (x + size_x) as u16, (y + size_y) as u16, false, false, 0)
}

/// A rectangle of `size_x` by `size_y` pixels at `(x, y)` fits the 16-bit texture space.
pub open spec fn fits(x: u16, y: u16, size_x: u16, size_y: u16) -> bool {
    x + size_x <= u16::MAX && y + size_y <= u16::MAX
}

/// The classic Minecraft box layout: for a box of `size = [w, h, d]` whose north
/// face starts at `(x, y)`, the east face lies left of it, the west and south
/// faces right of it, and the up and down faces above it.
pub open spec fn spec_box_uv(x: u16, y: u16, size: [u16; 3]) -> CubeFaceUvs {
    let w = size[0];
    let h = size[1];
    let d = size[2];
    CubeFaceUvs {
        north: spec_uv_from_pos_and_size(x, y, w, h),
        south: spec_uv_from_pos_and_size((x + w + d) as u16, y, w, h),
        east: spec_uv_from_pos_and_size((x - d) as u16, y, d, h),
        west: spec_uv_from_pos_and_size((x + w) as u16, y, d, h),
        up: spec_uv_from_pos_and_size(x, (y - d) as u16, w, d),
        down: spec_uv_from_pos_and_size((x + w) as u16, (y - d) as u16, w, d),
    }
}

/// The box layout of `spec_box_uv` stays inside the 16-bit texture space.
pub open spec fn box_uv_fits(x: u16, y: u16, size: [u16; 3]) -> bool {
    &&& size[2] <= x
    &&& size[2] <= y
    &&& x + 2 * size[0] + size[2] <= u16::MAX
    &&& y + size[1] <= u16::MAX
}

impl FaceUv {
    /// The axis-aligned face from the top left to the bottom right corner.
    pub fn new(
        top_left_x: u16,
        top_left_y: u16,
        bottom_right_x: u16,
        bottom_right_y: u16,
        flipped_horizontally: bool,
        flipped_vertically: bool,
        cw_rotation_count: u8,
    ) -> (r: Self)
        ensures
            r == spec_face(
                top_left_x,
                top_left_y,
                bottom_right_x,
                bottom_right_y,
                flipped_horizontally,
                flipped_vertically,
                cw_rotation_count,
            ),
    {
        FaceUv {
            top_left: FaceUvPoint { x: top_left_x, y: top_left_y },
            top_right: FaceUvPoint { x: bottom_right_x, y: top_left_y },
            bottom_left: FaceUvPoint { x: top_left_x, y: bottom_right_y },
            bottom_right: FaceUvPoint { x: bottom_right_x, y: bottom_right_y },
            flipped_horizontally,
            flipped_vertically,
            cw_rotation_count,
        }
    }

    /// Mirrors the face top to bottom.
    pub fn flip_vertically(self) -> (r: Self)
        ensures
            r == spec_flip_vertically(self),
    {
        FaceUv {
            top_left: self.bottom_left,
            top_right: self.bottom_right,
            bottom_left: self.top_left,
            bottom_right: self.top_right,
            flipped_horizontally: self.flipped_horizontally,
            flipped_vertically: self.flipped_vertically,
            cw_rotation_count: self.cw_rotation_count,
        }.flipped_vertically()
    }

    /// Mirrors the face left to right.
    pub fn flip_horizontally(self) -> (r: Self)
        ensures
            r == spec_flip_horizontally(self),
    {
        FaceUv {
            top_left: self.top_right,
            top_right: self.top_left,
            bottom_left: self.bottom_right,
            bottom_right: self.bottom_left,
            flipped_horizontally: self.flipped_horizontally,
            flipped_vertically: self.flipped_vertically,
            cw_rotation_count: self.cw_rotation_count,
        }.flipped_horizontally()
    }

    /// Turns the face a quarter turn clockwise.
    pub fn rotate_cw(self) -> (r: Self)
        requires
            self.cw_rotation_count < u8::MAX,
        ensures
            r == spec_rotate_cw(self),
    {
        FaceUv {
            top_left: self.top_right,
            top_right: self.bottom_right,
            bottom_right: self.bottom_left,
            bottom_left: self.top_left,
            flipped_horizontally: self.flipped_horizontally,
            flipped_vertically: self.flipped_vertically,
            cw_rotation_count: self.cw_rotation_count,
        }.rotated_cw()
    }

    /// Toggles the record of a horizontal flip.
    pub fn flipped_horizontally(self) -> (r: Self)
        ensures
            r == (FaceUv { flipped_horizontally: !self.flipped_horizontally, ..self }),
    {
        let mut s = self;
        s.flipped_horizontally = !s.flipped_horizontally;
        s
    }

    /// Toggles the record of a vertical flip.
    pub fn flipped_vertically(self) -> (r: Self)
        ensures
            r == (FaceUv { flipped_vertically: !self.flipped_vertically, ..self }),
    {
        let mut s = self;
        s.flipped_vertically = !s.flipped_vertically;
        s
    }

    /// Counts one more clockwise quarter turn, modulo a full turn.
    pub fn rotated_cw(self) -> (r: Self)
        requires
            self.cw_rotation_count < u8::MAX,
        ensures
            r == (FaceUv { cw_rotation_count: ((self.cw_rotation_count + 1) % 4) as u8, ..self }),
    {
        let mut s = self;
        s.cw_rotation_count = (s.cw_rotation_count + 1) % 4;
        s
    }
}

/// The face of `size_x` by `size_y` pixels whose top left corner is `(x, y)`.
pub fn uv_from_pos_and_size(x: u16, y: u16, size_x: u16, size_y: u16) -> (r: FaceUv)
    requires
        fits(x, y, size_x, size_y),
    ensures
        r == spec_uv_from_pos_and_size(x, y, size_x, size_y),
{
    FaceUv::new(x, y, x + size_x, y + size_y, false, false, 0)
}

/// The texture faces of a box of `size = [w, h, d]` whose north face starts at `(x, y)`.
pub fn box_uv(x: u16, y: u16, size: [u16; 3]) -> (r: CubeFaceUvs)
    requires
        box_uv_fits(x, y, size),
    ensures
        r == spec_box_uv(x, y, size),
{
    let size_x = size[0];
    let size_y = size[1];
    let size_z = size[2];

    let north = uv_from_pos_and_size(x, y, size_x, size_y);
    let south = uv_from_pos_and_size(x + size_x + size_z, y, size_x, size_y);
    let east = uv_from_pos_and_size(x - size_z, y, size_z, size_y);
    let west = uv_from_pos_and_size(x + size_x, y, size_z, size_y);
    let up = uv_from_pos_and_size(x, y - size_z, size_x, size_z);
    let down = uv_from_pos_and_size(x + size_x, y - size_z, size_x, size_z);

    CubeFaceUvs { north, south, east, west, up, down }
}

impl From<[u16; 4]> for FaceUv {
    /// `[top left x, top left y, bottom right x, bottom right y]`.
    fn from(uvs: [u16; 4]) -> (r: Self) {
        FaceUv::new(uvs[0], uvs[1], uvs[2], uvs[3], false, false, 0)
    }
}

impl FromSpecImpl<[u16; 4]> for FaceUv {
    open spec fn obeys_from_spec() -> bool {
        true
    }

    open spec fn from_spec(uvs: [u16; 4]) -> Self {
        spec_face(uvs@[0], uvs@[1], uvs@[2], uvs@[3], false, false, 0)
    }
}

impl From<[u16; 8]> for FaceUv {
    /// The four corners as `x, y` pairs: top left, top right, bottom left, bottom right.
    fn from(uvs: [u16; 8]) -> (r: Self) {
        FaceUv {
            top_left: FaceUvPoint { x: uvs[0], y: uvs[1] },
            top_right: FaceUvPoint { x: uvs[2], y: uvs[3] },
            bottom_left: FaceUvPoint { x: uvs[4], y: uvs[5] },
            bottom_right: FaceUvPoint { x: uvs[6], y: uvs[7] },
            flipped_horizontally: false,
            flipped_vertically: false,
            cw_rotation_count: 0,
        }
    }
}

impl FromSpecImpl<[u16; 8]> for FaceUv {
    open spec fn obeys_from_spec() -> bool {
        true
    }

    open spec fn from_spec(uvs: [u16; 8]) -> Self {
        FaceUv {
            top_left: point(uvs@[0], uvs@[1]),
            top_right: point(uvs@[2], uvs@[3]),
            bottom_left: point(uvs@[4], uvs@[5]),
            bottom_right: point(uvs@[6], uvs@[7]),
            flipped_horizontally: false,
            flipped_vertically: false,
            cw_rotation_count: 0,
        }
    }
}

pub open spec fn face_from_rect(r: [u16; 4]) -> FaceUv {
    spec_face(r@[0], r@[1], r@[2], r@[3], false, false, 0)
}

impl From<[[u16; 4]; 6]> for CubeFaceUvs {
    /// Faces in the order north, south, east, west, up, down.
    fn from(uvs: [[u16; 4]; 6]) -> (r: Self) {
        CubeFaceUvs {
            north: FaceUv::new(uvs[0][0], uvs[0][1], uvs[0][2], uvs[0][3], false, false, 0),
            south: FaceUv::new(uvs[1][0], uvs[1][1], uvs[1][2], uvs[1][3], false, false, 0),
            east: FaceUv::new(uvs[2][0], uvs[2][1], uvs[2][2], uvs[2][3], false, false, 0),
            west: FaceUv::new(uvs[3][0], uvs[3][1], uvs[3][2], uvs[3][3], false, false, 0),
            up: FaceUv::new(uvs[4][0], uvs[4][1], uvs[4][2], uvs[4][3], false, false, 0),
            down: FaceUv::new(uvs[5][0], uvs[5][1], uvs[5][2], uvs[5][3], false, false, 0),
        }
    }
}

impl FromSpecImpl<[[u16; 4]; 6]> for CubeFaceUvs {
    open spec fn obeys_from_spec() -> bool {
        true
    }

    open spec fn from_spec(uvs: [[u16; 4]; 6]) -> Self {
        CubeFaceUvs {
            north: face_from_rect(uvs@[0]),
            south: face_from_rect(uvs@[1]),
            east: face_from_rect(uvs@[2]),
            west: face_from_rect(uvs@[3]),
            up: face_from_rect(uvs@[4]),
            down: face_from_rect(uvs@[5]),
        }
    }
}


/// Mirroring a face left to right twice gives back the same face.
pub proof fn lemma_flip_horizontally_involutive(f: FaceUv)
    ensures
        spec_flip_horizontally(spec_flip_horizontally(f)) == f,
{
}

/// Mirroring a face top to bottom twice gives back the same face.
pub proof fn lemma_flip_vertically_involutive(f: FaceUv)
    ensures
        spec_flip_vertically(spec_flip_vertically(f)) == f,
{
}

/// The two mirrorings commute.
pub proof fn lemma_flips_commute(f: FaceUv)
    ensures
        spec_flip_horizontally(spec_flip_vertically(f)) == spec_flip_vertically(
            spec_flip_horizontally(f),
        ),
{
}

/// Mirroring a face both ways moves its corners as a half turn does.
pub proof fn lemma_double_flip_is_half_turn(f: FaceUv)
    requires
        f.cw_rotation_count < u8::MAX,
    ensures
        corners(spec_flip_horizontally(spec_flip_vertically(f))) == corners(
            spec_rotate_cw(spec_rotate_cw(f)),
        ),
{
}

/// Four clockwise quarter turns give back the same face, as long as the recorded
/// turn count is already below a full turn.
pub proof fn lemma_four_quarter_turns(f: FaceUv)
    requires
        f.cw_rotation_count < 4,
    ensures
        spec_rotate_cw(spec_rotate_cw(spec_rotate_cw(spec_rotate_cw(f)))) == f,
{
}

/// A quarter turn keeps the record of flips, and a flip keeps the turn count.
pub proof fn lemma_turns_and_flips_keep_each_others_record(f: FaceUv)
    ensures
        spec_rotate_cw(f).flipped_horizontally == f.flipped_horizontally,
        spec_rotate_cw(f).flipped_vertically == f.flipped_vertically,
        spec_flip_horizontally(f).cw_rotation_count == f.cw_rotation_count,
        spec_flip_vertically(f).cw_rotation_count == f.cw_rotation_count,
{
}

/// A face made from a position and a size spans exactly that size.
pub proof fn lemma_uv_from_pos_and_size_spans_size(x: u16, y: u16, size_x: u16, size_y: u16)
    requires
        fits(x, y, size_x, size_y),
    ensures
        ({
            let f = spec_uv_from_pos_and_size(x, y, size_x, size_y);
            &&& f.top_left == point(x, y)
            &&& f.top_right.x - f.top_left.x == size_x
            &&& f.bottom_left.y - f.top_left.y == size_y
            &&& f.bottom_right == point((x + size_x) as u16, (y + size_y) as u16)
        }),
{
}

/// The box layout unfolds the cube: neighbouring faces share their edges.
pub proof fn lemma_box_uv_faces_share_edges(x: u16, y: u16, size: [u16; 3])
    requires
        box_uv_fits(x, y, size),
    ensures
        ({
            let b = spec_box_uv(x, y, size);
            &&& b.east.top_right == b.north.top_left
            &&& b.north.top_right == b.west.top_left
            &&& b.west.top_right == b.south.top_left
            &&& b.up.bottom_left == b.north.top_left
            &&& b.up.bottom_right == b.north.top_right
            &&& b.down.bottom_left == b.north.top_right
            &&& b.east.bottom_right == b.north.bottom_left
            &&& b.south.bottom_right.x == x + 2 * size[0] + size[2]
        }),
{
}

} // verus!
