use vstd::prelude::*;
use crate::types::{PlayerPartTextureType, same_texture};
use crate::textures::Size;

verus! {

/// What a scene has to rebuild when the camera or viewport changes.
#[derive(Debug, Clone, Copy, PartialEq, Eq, Structural)]
pub struct SceneResizePlan {
    /// The depth and output textures are (re)created at the camera's size.
    pub recreate_textures: bool,
    /// A new output buffer is made for the viewport's size.
    pub new_output_buffer: bool,
    /// A multisampled output texture is made along with the textures.
    pub multisampled_texture: bool,
}

/// Decides what to rebuild, given the camera and viewport sizes the current
/// textures were made for (none before the first frame).
pub open spec fn spec_scene_resize(
    current: Option<(Size, Size)>,
    camera_size: Size,
    viewport_size: Size,
    msaa_sample_count: u32,
) -> SceneResizePlan {
    SceneResizePlan {
        recreate_textures: match current {
            None => true,
            Some((c, _)) => c != camera_size,
        },
        new_output_buffer: match current {
            None => true,
            Some((_, v)) => v != viewport_size,
        },
        multisampled_texture: msaa_sample_count > 1,
    }
}

/// Decides what a scene rebuilds: the textures when there are none or the
/// camera size changed, the output buffer when there is none or the viewport
/// size changed, and a multisampled texture when more than one sample is taken.
pub fn plan_scene_resize(
    current: Option<(Size, Size)>,
    camera_size: Size,
    viewport_size: Size,
    msaa_sample_count: u32,
) -> (r: SceneResizePlan)
    ensures
        r == spec_scene_resize(current, camera_size, viewport_size, msaa_sample_count),
{
    let recreate_textures = match current {
        None => true,
        Some((c, _)) => c != camera_size,
    };
    let new_output_buffer = match current {
        None => true,
        Some((_, v)) => v != viewport_size,
    };
    SceneResizePlan { recreate_textures, new_output_buffer, multisampled_texture: msaa_sample_count > 1 }
}

/// A run of consecutive parts drawn with one texture: parts `start..end`.
#[derive(Debug, Clone, Copy)]
pub struct TextureRun {
    pub texture: PlayerPartTextureType,
    pub start: usize,
    pub end: usize,
}

/// `runs` cuts `textures` into maximal runs of consecutive equal textures, in order.
pub open spec fn is_run_partition(textures: Seq<PlayerPartTextureType>, runs: Seq<TextureRun>) -> bool {
    &&& textures.len() == 0 ==> runs.len() == 0
    &&& textures.len() > 0 ==> runs.len() > 0 && runs[0].start == 0 && runs.last().end == textures.len()
    &&& forall|k: int| 0 <= k < runs.len() ==> #[trigger] runs[k].start < runs[k].end
    &&& forall|k: int| 0 <= k < runs.len() - 1 ==> #[trigger] runs[k].end == runs[k + 1].start
    &&& forall|k: int, i: int| 0 <= k < runs.len() && runs[k].start <= i < runs[k].end ==> same_texture(
        #[trigger] runs[k].texture,
        #[trigger] textures[i],
    )
    &&& forall|k: int| 0 <= k < runs.len() - 1 ==> !same_texture(
        #[trigger] runs[k].texture,
        textures[runs[k + 1].start as int],
    )
}

/// Cuts the textures of the parts to draw into runs of consecutive equal
/// textures; each run is drawn in one render pass.
pub fn group_by_texture(textures: &Vec<PlayerPartTextureType>) -> (r: Vec<TextureRun>)
    ensures
        is_run_partition(textures@, r@),
{
    let mut runs: Vec<TextureRun> = Vec::new();
    let n = textures.len();
    let mut i: usize = 0;
    while i < n
        invariant
            n == textures@.len(),
            i <= n,
            i == 0 ==> runs@.len() == 0,
            i > 0 ==> runs@.len() > 0 && runs@[0].start == 0 && runs@.last().end == i,
            forall|k: int| 0 <= k < runs@.len() ==> #[trigger] runs@[k].start < runs@[k].end,
            forall|k: int| 0 <= k < runs@.len() - 1 ==> #[trigger] runs@[k].end == runs@[k + 1].start,
            forall|k: int, j: int| 0 <= k < runs@.len() && runs@[k].start <= j < runs@[k].end ==> same_texture(
                #[trigger] runs@[k].texture,
                #[trigger] textures@[j],
            ),
            forall|k: int| 0 <= k < runs@.len() - 1 ==> !same_texture(
                #[trigger] runs@[k].texture,
                textures@[runs@[k + 1].start as int],
            ),
        decreases n - i,
    {
        let t = textures[i];
        let len = runs.len();
        if len > 0 && runs[len - 1].texture == t {
            let last = runs[len - 1];
            let ghost before = runs@;
            runs.set(len - 1, TextureRun { texture: last.texture, start: last.start, end: i + 1 });
            assert forall|k: int, j: int| 0 <= k < runs@.len() && runs@[k].start <= j < runs@[k].end implies same_texture(
                #[trigger] runs@[k].texture,
                #[trigger] textures@[j],
            ) by {
                if k < len - 1 {
                    assert(runs@[k] == before[k]);
                } else if j < i {
                    assert(before[k].start <= j < before[k].end);
                } else {
                    assert(j == i);
                }
            }
            assert forall|k: int| 0 <= k < runs@.len() - 1 implies !same_texture(
                #[trigger] runs@[k].texture,
                textures@[runs@[k + 1].start as int],
            ) by {
                assert(runs@[k] == before[k]);
                assert(runs@[k + 1].start == before[k + 1].start);
            }
        } else {
            let ghost before = runs@;
            proof {
                if len > 0 {
                    assert(before[len - 1].start <= i - 1 < before[len - 1].end);
                    assert(same_texture(before[len - 1].texture, textures@[i - 1]));
                }
            }
            runs.push(TextureRun { texture: t, start: i, end: i + 1 });
            assert forall|k: int, j: int| 0 <= k < runs@.len() && runs@[k].start <= j < runs@[k].end implies same_texture(
                #[trigger] runs@[k].texture,
                #[trigger] textures@[j],
            ) by {
                if k < len {
                    assert(runs@[k] == before[k]);
                } else {
                    assert(j == i);
                }
            }
            assert forall|k: int| 0 <= k < runs@.len() - 1 implies !same_texture(
                #[trigger] runs@[k].texture,
                textures@[runs@[k + 1].start as int],
            ) by {
                assert(runs@[k] == before[k]);
                if k + 1 < len {
                    assert(runs@[k + 1] == before[k + 1]);
                }
            }
        }
        i = i + 1;
    }
    runs
}

/// How a render pass treats the color and depth attachments, and how its
/// texture is sampled.
#[derive(Debug, Clone, Copy, PartialEq, Eq, Structural)]
pub struct RenderPassOps {
    /// The color attachment is cleared before the pass (otherwise loaded).
    pub clear_color: bool,
    /// The depth attachment is cleared before the pass (otherwise loaded).
    pub clear_depth: bool,
    /// The pass keeps the depth it writes (shadows do not).
    pub store_depth: bool,
    /// The texture is sampled with linear filtering (shadows), else nearest.
    pub linear_filter: bool,
}

/// Whether some pass before pass `k` stored its depth.
pub open spec fn depth_stored_before(textures: Seq<PlayerPartTextureType>, k: int) -> bool {
    exists|j: int| 0 <= j < k && !(#[trigger] textures[j] is Shadow)
}

pub open spec fn spec_pass_ops(textures: Seq<PlayerPartTextureType>, k: int) -> RenderPassOps {
    RenderPassOps {
        clear_color: k == 0,
        clear_depth: !depth_stored_before(textures, k),
        store_depth: !(textures[k] is Shadow),
        linear_filter: textures[k] is Shadow,
    }
}

/// The attachment operations of the render passes, one per texture run: only
/// the first pass clears the color, the depth is cleared until a pass keeps
/// its depth, and shadow passes neither keep their depth nor sample nearest.
pub fn plan_render_passes(textures: &Vec<PlayerPartTextureType>) -> (r: Vec<RenderPassOps>)
    ensures
        r@.len() == textures@.len(),
        forall|k: int| 0 <= k < r@.len() ==> #[trigger] r@[k] == spec_pass_ops(textures@, k),
{
    let mut r: Vec<RenderPassOps> = Vec::new();
    let mut clear_color = true;
    let mut clear_depth = true;
    let mut k: usize = 0;
    while k < textures.len()
        invariant
            k <= textures@.len(),
            r@.len() == k,
            clear_color == (k == 0),
            clear_depth == !depth_stored_before(textures@, k as int),
            forall|j: int| 0 <= j < k ==> #[trigger] r@[j] == spec_pass_ops(textures@, j),
        decreases textures@.len() - k,
    {
        let shadow = textures[k].is_shadow();
        let store_depth = !shadow;
        r.push(RenderPassOps { clear_color, clear_depth, store_depth, linear_filter: shadow });
        clear_color = false;
        if store_depth {
            clear_depth = false;
            assert(depth_stored_before(textures@, k + 1)) by {
                assert(!(textures@[k as int] is Shadow));
            }
        } else {
            assert(depth_stored_before(textures@, k + 1) == depth_stored_before(textures@, k as int)) by {
                if depth_stored_before(textures@, k + 1) {
                    let j = choose|j: int| 0 <= j < k + 1 && !(#[trigger] textures@[j] is Shadow);
                    assert(j != k);
                }
            }
        }
        k = k + 1;
    }
    r
}


/// A resize rebuilds exactly what changed: the textures when there are none or
/// the camera size differs in width or height, the output buffer when there is
/// none or the viewport size differs in width or height, and a multisampled
/// texture exactly when more than one sample is taken.
pub proof fn lemma_resize_rebuilds_what_changed(
    current: Option<(Size, Size)>,
    camera_size: Size,
    viewport_size: Size,
    msaa_sample_count: u32,
)
    ensures
        ({
            let r = spec_scene_resize(current, camera_size, viewport_size, msaa_sample_count);
            &&& current is None ==> r.recreate_textures && r.new_output_buffer
            &&& forall|c: Size, v: Size| current == Some((c, v)) ==> {
                &&& r.recreate_textures == (c.width != camera_size.width || c.height != camera_size.height)
                &&& r.new_output_buffer == (v.width != viewport_size.width || v.height
                    != viewport_size.height)
            }
            &&& r.multisampled_texture == (msaa_sample_count > 1)
        }),
{
}

} // verus!
