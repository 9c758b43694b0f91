use nmsr_player_parts::texture_transform::{
    back_side_flip, process_uvs, quad_face_uv, TextureFlip, TextureRotation,
};
use nmsr_player_parts::uv::{box_uv, uv_from_pos_and_size, CubeFaceUvs, FaceUv, FaceUvPoint};

fn p(x: u16, y: u16) -> FaceUvPoint {
    FaceUvPoint { x, y }
}

#[test]
fn face_from_pos_and_size() {
    let f = uv_from_pos_and_size(4, 8, 10, 2);
    assert_eq!(f.top_left, p(4, 8));
    assert_eq!(f.top_right, p(14, 8));
    assert_eq!(f.bottom_left, p(4, 10));
    assert_eq!(f.bottom_right, p(14, 10));
    assert!(!f.flipped_horizontally && !f.flipped_vertically);
    assert_eq!(f.cw_rotation_count, 0);
}

#[test]
fn new_face_spans_corners() {
    let f = FaceUv::new(1, 2, 3, 4, true, false, 2);
    assert_eq!(f.top_right, p(3, 2));
    assert_eq!(f.bottom_left, p(1, 4));
    assert!(f.flipped_horizontally);
    assert_eq!(f.cw_rotation_count, 2);
}

#[test]
fn flips_swap_corners_and_toggle_records() {
    let f = uv_from_pos_and_size(0, 0, 8, 4);
    let h = f.flip_horizontally();
    assert_eq!(h.top_left, p(8, 0));
    assert_eq!(h.bottom_right, p(0, 4));
    assert!(h.flipped_horizontally);
    let v = f.flip_vertically();
    assert_eq!(v.top_left, p(0, 4));
    assert!(v.flipped_vertically);
    assert_eq!(h.flip_horizontally(), f);
    assert_eq!(v.flip_vertically(), f);
    assert_eq!(f.flip_horizontally().flip_vertically(), f.flip_vertically().flip_horizontally());
}

#[test]
fn quarter_turns() {
    let f = uv_from_pos_and_size(0, 0, 8, 4);
    let r = f.rotate_cw();
    assert_eq!(r.top_left, p(8, 0));
    assert_eq!(r.top_right, p(8, 4));
    assert_eq!(r.bottom_right, p(0, 4));
    assert_eq!(r.bottom_left, p(0, 0));
    assert_eq!(r.cw_rotation_count, 1);
    let full = r.rotate_cw().rotate_cw().rotate_cw();
    assert_eq!(full, f);
    let half = f.rotate_cw().rotate_cw();
    let both = f.flip_horizontally().flip_vertically();
    assert_eq!(
        (half.top_left, half.top_right, half.bottom_left, half.bottom_right),
        (both.top_left, both.top_right, both.bottom_left, both.bottom_right)
    );
}

#[test]
fn four_turns_reduce_a_large_count() {
    let mut f = uv_from_pos_and_size(0, 0, 1, 1);
    f.cw_rotation_count = 5;
    let g = f.rotate_cw().rotate_cw().rotate_cw().rotate_cw();
    assert_eq!(g.cw_rotation_count, 1);
    assert_ne!(g, f);
}

#[test]
fn head_box_layout() {
    let b = box_uv(8, 8, [8, 8, 8]);
    assert_eq!(b.north, uv_from_pos_and_size(8, 8, 8, 8));
    assert_eq!(b.south, uv_from_pos_and_size(24, 8, 8, 8));
    assert_eq!(b.east, uv_from_pos_and_size(0, 8, 8, 8));
    assert_eq!(b.west, uv_from_pos_and_size(16, 8, 8, 8));
    assert_eq!(b.up, uv_from_pos_and_size(8, 0, 8, 8));
    assert_eq!(b.down, uv_from_pos_and_size(16, 0, 8, 8));
}

#[test]
fn body_box_layout() {
    let b = box_uv(20, 20, [8, 12, 4]);
    assert_eq!(b.north.top_left, p(20, 20));
    assert_eq!(b.north.bottom_right, p(28, 32));
    assert_eq!(b.south.top_left, p(32, 20));
    assert_eq!(b.east.top_left, p(16, 20));
    assert_eq!(b.west.top_left, p(28, 20));
    assert_eq!(b.up.top_left, p(20, 16));
    assert_eq!(b.down.top_left, p(28, 16));
    assert_eq!(b.down.bottom_right, p(36, 20));
}

#[test]
fn faces_from_arrays() {
    let f: FaceUv = [1u16, 2, 3, 4].into();
    assert_eq!(f, FaceUv::new(1, 2, 3, 4, false, false, 0));
    let g: FaceUv = [1u16, 2, 3, 4, 5, 6, 7, 8].into();
    assert_eq!(g.top_left, p(1, 2));
    assert_eq!(g.top_right, p(3, 4));
    assert_eq!(g.bottom_left, p(5, 6));
    assert_eq!(g.bottom_right, p(7, 8));
    let c: CubeFaceUvs = [[0u16, 0, 1, 1], [1, 1, 2, 2], [2, 2, 3, 3], [3, 3, 4, 4], [4, 4, 5, 5], [5, 5, 6, 6]].into();
    assert_eq!(c.north, FaceUv::new(0, 0, 1, 1, false, false, 0));
    assert_eq!(c.down, FaceUv::new(5, 5, 6, 6, false, false, 0));
}

#[test]
fn rotation_and_flip_states() {
    assert_eq!(TextureRotation::NoRotation.cw(), TextureRotation::Clockwise);
    assert_eq!(TextureRotation::Clockwise.cw(), TextureRotation::UpsideDown);
    assert_eq!(TextureRotation::UpsideDown.ccw(), TextureRotation::Clockwise);
    assert_eq!(TextureRotation::NoRotation.ccw(), TextureRotation::CounterClockwise);
    assert!(TextureRotation::Clockwise.is_transposed());
    assert!(!TextureRotation::UpsideDown.is_transposed());
    assert_eq!(TextureFlip::NoFlip.flip_horizontally(), TextureFlip::Horizontal);
    assert_eq!(TextureFlip::Vertical.flip_horizontally(), TextureFlip::Both);
    assert_eq!(TextureFlip::Both.flip_vertically(), TextureFlip::Horizontal);
    assert_eq!(TextureFlip::Vertical.flip_vertically(), TextureFlip::NoFlip);
    assert_eq!(back_side_flip(TextureFlip::Horizontal), TextureFlip::NoFlip);
}

#[test]
fn back_facing_quad_keeps_its_region() {
    let (uv, size) = quad_face_uv(56, 16, 8, 4, TextureRotation::NoRotation, TextureFlip::NoFlip, false);
    assert_eq!(uv, uv_from_pos_and_size(56, 16, 8, 4));
    assert_eq!(size, [8, 4, 0]);
}

#[test]
fn front_facing_quad_is_mirrored() {
    let (uv, _) = quad_face_uv(56, 16, 8, 4, TextureRotation::NoRotation, TextureFlip::NoFlip, true);
    assert_eq!(uv, uv_from_pos_and_size(56, 16, 8, 4).flip_horizontally());
    let (uv2, _) = quad_face_uv(56, 16, 8, 4, TextureRotation::NoRotation, TextureFlip::Horizontal, true);
    assert_eq!(uv2, uv_from_pos_and_size(56, 16, 8, 4));
}

#[test]
fn turned_quad_samples_a_transposed_region() {
    let (uv, size) = quad_face_uv(36, 32, 4, 8, TextureRotation::Clockwise, TextureFlip::Horizontal, false);
    // The region is 8 wide and 4 high, turned, and the flip axis is exchanged.
    let expected = uv_from_pos_and_size(36, 32, 8, 4).rotate_cw().flip_vertically();
    assert_eq!(uv, expected);
    assert_eq!(size, [4, 8, 0]);
    let (ccw, _) = quad_face_uv(0, 0, 2, 4, TextureRotation::CounterClockwise, TextureFlip::NoFlip, false);
    assert_eq!(ccw, uv_from_pos_and_size(0, 0, 4, 2).rotate_cw().rotate_cw().rotate_cw());
    let (upside, _) = quad_face_uv(0, 0, 2, 4, TextureRotation::UpsideDown, TextureFlip::Both, false);
    assert_eq!(upside, uv_from_pos_and_size(0, 0, 2, 4).flip_vertically().flip_horizontally().flip_vertically());
}

#[test]
fn processed_part_uvs() {
    let plain = process_uvs([56, 0, 8, 8], false, false, false, true);
    assert_eq!(plain, uv_from_pos_and_size(56, 0, 8, 8).flip_horizontally());
    let turned = process_uvs([44, 48, 4, 2], false, true, true, true);
    assert_eq!(turned, uv_from_pos_and_size(44, 48, 2, 4).flip_vertically().rotate_cw().flip_horizontally());
    let flipped = process_uvs([0, 0, 20, 16], true, false, false, true);
    assert_eq!(flipped, uv_from_pos_and_size(0, 0, 20, 16));
}
