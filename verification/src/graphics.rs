use vstd::prelude::*;

verus! {

/// Whether the SMAA post-processing pass runs, and at which quality.
#[derive(Debug, Clone, Copy, PartialEq, Eq, Structural)]
pub enum SmaaMode {
    Disabled,
    Smaa1X,
}

/// How edges are smoothed: multisampling with a sample count, SMAA, or both.
#[derive(Debug, Clone, Copy, PartialEq, Eq)]
pub enum MultiSamplingStrategy {
    MSAA(u32),
    SMAA(SmaaMode),
    SMAAWithMSAA((SmaaMode, u32)),
}

pub open spec fn spec_smaa_mode(s: MultiSamplingStrategy) -> SmaaMode {
    match s {
        MultiSamplingStrategy::SMAA(mode) => mode,
        MultiSamplingStrategy::SMAAWithMSAA((mode, _)) => mode,
        _ => SmaaMode::Disabled,
    }
}

pub open spec fn spec_msaa_sample_count(s: MultiSamplingStrategy) -> u32 {
    match s {
        MultiSamplingStrategy::MSAA(count) => count,
        MultiSamplingStrategy::SMAAWithMSAA((_, count)) => count,
        _ => 1,
    }
}

impl MultiSamplingStrategy {
    pub fn get_smaa_mode(&self) -> (r: SmaaMode)
        ensures
            r == spec_smaa_mode(*self),
    {
        match self {
            MultiSamplingStrategy::SMAA(mode) => *mode,
            MultiSamplingStrategy::SMAAWithMSAA((mode, _)) => *mode,
            _ => SmaaMode::Disabled,
        }
    }

    pub fn get_msaa_sample_count(&self) -> (r: u32)
        ensures
            r == spec_msaa_sample_count(*self),
    {
        match self {
            MultiSamplingStrategy::MSAA(count) => *count,
            MultiSamplingStrategy::SMAAWithMSAA((_, count)) => *count,
            _ => 1,
        }
    }
}

/// Whether a texture format with the feature flag bits `bits` supports
/// `count` samples per pixel: one sample always, 2, 4, 8 and 16 samples when
/// the flag of that count (bits 1 to 4) is set, and nothing else.
pub open spec fn spec_sample_count_supported(bits: u32, count: u32) -> bool {
    ||| count == 1
    ||| count == 2 && bits & 2u32 == 2u32
    ||| count == 4 && bits & 4u32 == 4u32
    ||| count == 8 && bits & 8u32 == 8u32
    ||| count == 16 && bits & 16u32 == 16u32
}

/// `wgpu::TextureFormatFeatureFlags::sample_count_supported` on the flags with
/// the given bits. Its source answers true for one sample, for 2, 4, 8 and 16
/// samples exactly when the matching `MULTISAMPLE_X*` flag (bit 1, 2, 3 or 4)
/// is contained in the flags, and false for every other count.
#[verifier::external_body]
fn sample_count_supported(feature_flag_bits: u32, count: u32) -> (r: bool)
    ensures
        r == spec_sample_count_supported(feature_flag_bits, count),
{
    wgpu::TextureFormatFeatureFlags::from_bits_retain(feature_flag_bits).sample_count_supported(count)
}

/// The largest of 16, 8, 4, 2 and 1 samples that the format supports.
pub open spec fn spec_best_sample_count(bits: u32) -> u32 {
    if spec_sample_count_supported(bits, 16) {
        16
    } else if spec_sample_count_supported(bits, 8) {
        8
    } else if spec_sample_count_supported(bits, 4) {
        4
    } else if spec_sample_count_supported(bits, 2) {
        2
    } else {
        1
    }
}

/// The sample count asked for, from the caller or else from the environment,
/// or else the best count the format supports.
pub open spec fn spec_chosen_sample_count(
    sample_count: Option<u32>,
    env_sample_count: Option<u32>,
    bits: u32,
) -> u32 {
    match sample_count {
        Some(c) => c,
        None => match env_sample_count {
            Some(c) => c,
            None => spec_best_sample_count(bits),
        },
    }
}

pub open spec fn spec_multisampling_strategy(
    use_smaa: Option<bool>,
    env_wants_smaa: bool,
    sample_count: Option<u32>,
    env_sample_count: Option<u32>,
    bits: u32,
) -> MultiSamplingStrategy {
    let count = spec_chosen_sample_count(sample_count, env_sample_count, bits);
    let wants_smaa = match use_smaa {
        Some(b) => b,
        None => env_wants_smaa,
    };
    if wants_smaa {
        MultiSamplingStrategy::SMAAWithMSAA((SmaaMode::Smaa1X, count))
    } else {
        MultiSamplingStrategy::MSAA(count)
    }
}

/// Chooses how to smooth edges. SMAA runs when the caller asks for it, or,
/// when the caller does not say, when the environment asks for it. The
/// multisampling count is the caller's, else the environment's, else the largest
/// of 16, 8, 4, 2, 1 that the texture format (given by its feature flag bits) supports.
pub fn get_multisampling_strategy(
    use_smaa: Option<bool>,
    env_wants_smaa: bool,
    sample_count: Option<u32>,
    env_sample_count: Option<u32>,
    format_feature_flag_bits: u32,
) -> (r: MultiSamplingStrategy)
    ensures
        r == spec_multisampling_strategy(
            use_smaa,
            env_wants_smaa,
            sample_count,
            env_sample_count,
            format_feature_flag_bits,
        ),
{
    let wants_smaa = match use_smaa {
        Some(b) => b,
        None => env_wants_smaa,
    };
    let count = match sample_count {
        Some(c) => c,
        None => match env_sample_count {
            Some(c) => c,
            None => {
                let candidates: [u32; 5] = [16, 8, 4, 2, 1];
                let mut found: Option<u32> = None;
                let mut i: usize = 0;
                while i < 5
                    invariant
                        i <= 5,
                        candidates@ == seq![16u32, 8u32, 4u32, 2u32, 1u32],
                        found is None ==> forall|j: int|
                            0 <= j < i ==> !spec_sample_count_supported(
                                format_feature_flag_bits,
                                #[trigger] candidates@[j],
                            ),
                        found matches Some(c) ==> c == spec_best_sample_count(format_feature_flag_bits),
                    decreases 5 - i,
                {
                    if found.is_none() && sample_count_supported(format_feature_flag_bits, candidates[i]) {
                        found = Some(candidates[i]);
                        assert(candidates@[i as int] == spec_best_sample_count(format_feature_flag_bits)) by {
                            if i > 0 { assert(!spec_sample_count_supported(format_feature_flag_bits, candidates@[0])); }
                            if i > 1 { assert(!spec_sample_count_supported(format_feature_flag_bits, candidates@[1])); }
                            if i > 2 { assert(!spec_sample_count_supported(format_feature_flag_bits, candidates@[2])); }
                            if i > 3 { assert(!spec_sample_count_supported(format_feature_flag_bits, candidates@[3])); }
                        }
                    }
                    i = i + 1;
                }
                match found {
                    Some(c) => c,
                    None => {
                        assert(!spec_sample_count_supported(format_feature_flag_bits, candidates@[4]));
                        1
                    },
                }
            },
        },
    };

    let mut strat = MultiSamplingStrategy::MSAA(count);
    if wants_smaa {
        strat = MultiSamplingStrategy::SMAAWithMSAA((SmaaMode::Smaa1X, strat.get_msaa_sample_count()));
    }
    strat
}

/// The chosen strategy always runs SMAA exactly when it was asked for, and
/// multisamples with a count the format supports unless a count was given.
pub proof fn lemma_strategy_respects_request(
    use_smaa: Option<bool>,
    env_wants_smaa: bool,
    env_sample_count: Option<u32>,
    bits: u32,
)
    ensures
        ({
            let s = spec_multisampling_strategy(use_smaa, env_wants_smaa, None, env_sample_count, bits);
            &&& (spec_smaa_mode(s) == SmaaMode::Smaa1X) == (match use_smaa {
                Some(b) => b,
                None => env_wants_smaa,
            })
            &&& env_sample_count is None ==> spec_sample_count_supported(bits, spec_msaa_sample_count(s))
        }),
{
}

} // verus!
