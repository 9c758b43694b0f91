use nmsr_player_parts::graphics::{get_multisampling_strategy, MultiSamplingStrategy, SmaaMode};
use nmsr_player_parts::mesh::{merge_indices, quad_indices};
use nmsr_player_parts::scene::{group_by_texture, plan_render_passes, plan_scene_resize};
use nmsr_player_parts::textures::{unpad_rows, BufferDimensions, Size};
use nmsr_player_parts::tracking::{PartBuilderStacks, PartTrackingData};
use nmsr_player_parts::types::PlayerPartTextureType;

#[test]
fn rows_are_padded_to_256_bytes() {
    let d = BufferDimensions::new(100, 3, 4);
    assert_eq!(d.unpadded_bytes_per_row, 400);
    assert_eq!(d.padded_bytes_per_row, 512);
    assert_eq!(d.height, 3);
    assert_eq!(d.size(), 1536);
    let exact = BufferDimensions::new(64, 1, 4);
    assert_eq!(exact.padded_bytes_per_row, 256);
    let empty = BufferDimensions::new(0, 1, 4);
    assert_eq!(empty.padded_bytes_per_row, 0);
    let one = BufferDimensions::new(1, 1, 1);
    assert_eq!(one.padded_bytes_per_row, 256);
}

#[test]
fn unpadding_drops_row_padding() {
    let data: Vec<u8> = (0..12u8).collect();
    assert_eq!(unpad_rows(&data, 4, 3), vec![0, 1, 2, 4, 5, 6, 8, 9, 10]);
    let short: Vec<u8> = (0..10u8).collect();
    assert_eq!(unpad_rows(&short, 4, 2), vec![0, 1, 4, 5, 8, 9]);
    let d = BufferDimensions { height: 2, unpadded_bytes_per_row: 1, padded_bytes_per_row: 3 };
    assert_eq!(d.unpad(&[7, 0, 0, 8, 0, 0]), vec![7, 8]);
    assert!(unpad_rows(&[], 4, 2).is_empty());
}

#[test]
fn smaa_and_msaa() {
    assert_eq!(MultiSamplingStrategy::MSAA(4).get_msaa_sample_count(), 4);
    assert_eq!(MultiSamplingStrategy::MSAA(4).get_smaa_mode(), SmaaMode::Disabled);
    assert_eq!(MultiSamplingStrategy::SMAA(SmaaMode::Smaa1X).get_msaa_sample_count(), 1);
    assert_eq!(MultiSamplingStrategy::SMAAWithMSAA((SmaaMode::Smaa1X, 8)).get_smaa_mode(), SmaaMode::Smaa1X);
}

#[test]
fn best_supported_sample_count() {
    // Flags with 2x and 4x multisampling only.
    let bits = 0b0_0110;
    assert_eq!(get_multisampling_strategy(Some(false), true, None, None, bits), MultiSamplingStrategy::MSAA(4));
    assert_eq!(get_multisampling_strategy(None, false, None, None, 0b1_1110), MultiSamplingStrategy::MSAA(16));
    assert_eq!(get_multisampling_strategy(None, false, None, None, 0), MultiSamplingStrategy::MSAA(1));
    assert_eq!(get_multisampling_strategy(None, false, None, None, 0b0_0010), MultiSamplingStrategy::MSAA(2));
    assert_eq!(get_multisampling_strategy(None, false, None, None, 0b0_1000), MultiSamplingStrategy::MSAA(8));
}

#[test]
fn requested_counts_and_smaa() {
    assert_eq!(get_multisampling_strategy(None, false, Some(2), Some(8), 0b1_1110), MultiSamplingStrategy::MSAA(2));
    assert_eq!(get_multisampling_strategy(None, false, None, Some(8), 0), MultiSamplingStrategy::MSAA(8));
    assert_eq!(
        get_multisampling_strategy(None, true, Some(1), None, 0),
        MultiSamplingStrategy::SMAAWithMSAA((SmaaMode::Smaa1X, 1))
    );
    assert_eq!(
        get_multisampling_strategy(Some(true), false, None, None, 0b0_0100),
        MultiSamplingStrategy::SMAAWithMSAA((SmaaMode::Smaa1X, 4))
    );
}

#[test]
fn mesh_indices_are_shifted() {
    assert_eq!(quad_indices(), vec![2, 0, 3, 0, 1, 3]);
    let prims = vec![(quad_indices(), 4u16), (quad_indices(), 4u16), (vec![0, 1, 2], 3u16)];
    assert_eq!(
        merge_indices(&prims),
        vec![2, 0, 3, 0, 1, 3, 6, 4, 7, 4, 5, 7, 8, 9, 10]
    );
    assert!(merge_indices(&vec![]).is_empty());
}

#[test]
fn cube_of_quads_indexes_its_own_vertices() {
    // A cube is six quads: 24 vertices and 36 indices, two triangles per face.
    let prims: Vec<(Vec<u16>, u16)> = (0..6).map(|_| (quad_indices(), 4u16)).collect();
    let merged = merge_indices(&prims);
    assert_eq!(merged.len(), 36);
    assert_eq!(merged.len() % 3, 0);
    assert!(merged.iter().all(|&i| i < 24));
    assert_eq!(*merged.iter().max().unwrap(), 23);
}

#[test]
fn scene_resizing() {
    let a = Size { width: 10, height: 20 };
    let b = Size { width: 30, height: 20 };
    let first = plan_scene_resize(None, a, b, 4);
    assert!(first.recreate_textures && first.new_output_buffer && first.multisampled_texture);
    let same = plan_scene_resize(Some((a, b)), a, b, 1);
    assert!(!same.recreate_textures && !same.new_output_buffer && !same.multisampled_texture);
    let viewport = plan_scene_resize(Some((a, b)), a, a, 1);
    assert!(!viewport.recreate_textures && viewport.new_output_buffer);
    let camera = plan_scene_resize(Some((a, b)), b, b, 1);
    assert!(camera.recreate_textures && !camera.new_output_buffer);
}

#[test]
fn parts_grouped_by_texture() {
    let wings = PlayerPartTextureType::Custom { key: "ears_wings", size: (20, 16), is_emissive: false };
    let textures = vec![
        PlayerPartTextureType::Shadow,
        PlayerPartTextureType::Skin,
        PlayerPartTextureType::Skin,
        wings,
        wings,
        PlayerPartTextureType::Skin,
    ];
    let runs = group_by_texture(&textures);
    let spans: Vec<(usize, usize)> = runs.iter().map(|r| (r.start, r.end)).collect();
    assert_eq!(spans, vec![(0, 1), (1, 3), (3, 5), (5, 6)]);
    assert_eq!(runs[2].texture, wings);
    assert!(group_by_texture(&vec![]).is_empty());
}

#[test]
fn render_pass_operations() {
    let textures = vec![PlayerPartTextureType::Shadow, PlayerPartTextureType::Skin, PlayerPartTextureType::Cape];
    let ops = plan_render_passes(&textures);
    assert_eq!(ops.len(), 3);
    assert!(ops[0].clear_color && ops[0].clear_depth && !ops[0].store_depth && ops[0].linear_filter);
    assert!(!ops[1].clear_color && ops[1].clear_depth && ops[1].store_depth && !ops[1].linear_filter);
    assert!(!ops[2].clear_color && !ops[2].clear_depth && ops[2].store_depth);
}

#[test]
fn part_names_and_groups() {
    let mut t = PartTrackingData::new(Some("Head".to_string()));
    assert_eq!(t.name(), Some(&"Head".to_string()));
    assert!(t.group().is_empty());
    t.push_group("Ears".to_string());
    t.push_groups(vec!["A".to_string(), "B".to_string()]);
    assert_eq!(t.group(), &["Ears".to_string(), "A".to_string(), "B".to_string()]);
    *t.name_mut() = Some("Head Layer".to_string());
    assert_eq!(t.name(), Some(&"Head Layer".to_string()));
    assert_eq!(PartTrackingData::new(None).name(), None);
}

#[test]
fn builder_stacks() {
    let mut s = PartBuilderStacks::new();
    assert_eq!(s.current_texture(), PlayerPartTextureType::Skin);
    s.push_texture(PlayerPartTextureType::Cape);
    assert_eq!(s.current_texture(), PlayerPartTextureType::Cape);
    s.pop_texture();
    assert_eq!(s.current_texture(), PlayerPartTextureType::Skin);
    s.push_group("Tail".to_string());
    assert_eq!(s.groups(), &vec!["Tail".to_string()]);
    s.pop_group();
    assert!(s.groups().is_empty());
}
