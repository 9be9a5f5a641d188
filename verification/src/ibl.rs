//! Decisions of the image-based-lighting bake.
//!
//! An environment is baked in three stages: the panorama is projected onto a
//! cubemap, the cubemap is convolved into a small irradiance map, and it is
//! prefiltered into a roughness-indexed mip chain. A lookup table for the
//! environment-independent part of the specular term is integrated once.
//! This module decides sizes, sampling budgets and the tiled dispatches of
//! each stage; the program around the library issues the commands.

use vstd::prelude::*;
use crate::error::Error;
use crate::shader_constants::{CUBEMAP_ROUGHNESS_LEVELS, CUBEMAP_SIZE};
use crate::shader_permutations::counted;
use crate::tiler::{dispatch_tiled, tile_plan, TileDispatch};

verus! {

/// Faces of a cubemap, which is the depth of every cubemap dispatch.
pub const CUBEMAP_FACES: u32 = 6;

/// Edge of a face of the irradiance map.
pub const IRRADIANCE_MAP_SIZE: i32 = 64;

/// Edge of a face of the first level of the prefilter map.
pub const PREFILTER_MAP_SIZE: i32 = 256;

/// Extent of the dispatch that projects a measured dataset.
pub const MEASURED_BRDF_MAP_SIZE: u32 = 128;

/// Edge of the lookup table of the specular term.
pub const BRDF_LUT_SIZE: i32 = 512;

/// Edge of a tile of the two slow stages.
pub const TILE_SIZE: u32 = 8;

/// The small fixed sample count, below which no level is sampled.
pub const MIN_SAMPLES: i32 = 1024;

/// Bits of the single-precision number one thousand.
pub const RADIANCE_MEDIUM_BITS: u32 = 0x447A_0000;

/// Bits of the single-precision number fifty thousand.
pub const RADIANCE_FINE_BITS: u32 = 0x4743_5000;

/// Bit of the sign of a single-precision number.
pub const SIGN_BIT: u32 = 0x8000_0000;

/// Bits of positive infinity; a larger magnitude is not a number.
pub const INFINITY_BITS: u32 = 0x7F80_0000;

/// Peak radiance of a panorama: the largest channel value over all its
/// pixels, held as the bits of a single-precision number.
#[derive(Clone, Copy, Debug, PartialEq, Eq, Structural)]
pub struct Radiance {
    pub bits: u32,
}

/// How densely a bake stage samples, chosen from the peak radiance.
#[derive(Clone, Copy, Debug, PartialEq, Eq, Structural)]
pub enum RadianceTier {
    /// Peak radiance below one thousand.
    Sparse,
    /// Peak radiance from one thousand up to, not including, fifty thousand.
    Medium,
    /// Brighter still, or not a number.
    Fine,
}

/// A fraction that the caller evaluates in single precision.
#[derive(Clone, Copy, Debug, PartialEq, Eq, Structural)]
pub struct Ratio {
    pub num: u32,
    pub den: u32,
}

impl Radiance {
    /// The bits without the sign.
    pub open spec fn magnitude(self) -> int {
        if self.bits >= SIGN_BIT {
            self.bits - SIGN_BIT
        } else {
            self.bits as int
        }
    }

    /// Whether the bits encode no number.
    pub open spec fn is_nan(self) -> bool {
        self.magnitude() > INFINITY_BITS
    }

    /// A number that orders the numbers as their values do: among numbers
    /// without a sign the order of the bits is the order of the values, and a
    /// number with a sign is the negative of the one without it. Both zeros
    /// have the key 0.
    pub open spec fn order_key(self) -> int {
        if self.bits >= SIGN_BIT {
            -(self.bits - SIGN_BIT)
        } else {
            self.bits as int
        }
    }

    /// Whether the number is less than the positive finite number whose bits
    /// are `bound`.
    pub open spec fn below(self, bound: u32) -> bool {
        !self.is_nan() && self.order_key() < bound
    }

    /// The tier of this peak radiance.
    pub open spec fn spec_tier(self) -> RadianceTier {
        if self.below(RADIANCE_MEDIUM_BITS) {
            RadianceTier::Sparse
        } else if self.below(RADIANCE_FINE_BITS) {
            RadianceTier::Medium
        } else {
            RadianceTier::Fine
        }
    }

    /// Wraps the bits of a single-precision number.
    pub fn from_bits(bits: u32) -> (r: Radiance)
        ensures
            r.bits == bits,
    {
        Radiance { bits }
    }

    /// Whether the bits encode no number.
    pub fn is_not_a_number(&self) -> (nan: bool)
        ensures
            nan == self.is_nan(),
    {
        let magnitude: u32 = if self.bits >= SIGN_BIT {
            self.bits - SIGN_BIT
        } else {
            self.bits
        };
        magnitude > INFINITY_BITS
    }

    /// Whether this number is less than `other`, for two numbers.
    pub fn less_than(&self, other: Radiance) -> (less: bool)
        ensures
            less == (self.order_key() < other.order_key()),
    {
        let a: i64 = if self.bits >= SIGN_BIT {
            -((self.bits - SIGN_BIT) as i64)
        } else {
            self.bits as i64
        };
        let b: i64 = if other.bits >= SIGN_BIT {
            -((other.bits - SIGN_BIT) as i64)
        } else {
            other.bits as i64
        };
        a < b
    }

    /// Selects the tier: sparse below one thousand, medium below fifty
    /// thousand, fine otherwise.
    pub fn tier(&self) -> (t: RadianceTier)
        ensures
            t == self.spec_tier(),
    {
        let signed: bool = self.bits >= SIGN_BIT;
        let magnitude: u32 = if signed {
            self.bits - SIGN_BIT
        } else {
            self.bits
        };
        if magnitude > INFINITY_BITS {
            RadianceTier::Fine
        } else if signed || self.bits < RADIANCE_MEDIUM_BITS {
            RadianceTier::Sparse
        } else if self.bits < RADIANCE_FINE_BITS {
            RadianceTier::Medium
        } else {
            RadianceTier::Fine
        }
    }
}

impl RadianceTier {
    /// Step of the hemisphere integration, in ten-thousandths.
    pub open spec fn spec_sample_delta(self) -> Ratio {
        match self {
            RadianceTier::Sparse => Ratio { num: 100, den: 10000 },
            RadianceTier::Medium => Ratio { num: 50, den: 10000 },
            RadianceTier::Fine => Ratio { num: 15, den: 10000 },
        }
    }

    /// Sample budget of a fully rough prefilter level.
    pub open spec fn spec_baseline_samples(self) -> int {
        match self {
            RadianceTier::Sparse => 1024,
            RadianceTier::Medium => 524288,
            RadianceTier::Fine => 1048576,
        }
    }

    /// The step of the hemisphere integration of the irradiance stage: a
    /// brighter panorama is integrated with a smaller step.
    pub fn sample_delta(self) -> (d: Ratio)
        ensures
            d == self.spec_sample_delta(),
    {
        match self {
            RadianceTier::Sparse => Ratio { num: 100, den: 10000 },
            RadianceTier::Medium => Ratio { num: 50, den: 10000 },
            RadianceTier::Fine => Ratio { num: 15, den: 10000 },
        }
    }

    /// The sample budget from which the prefilter levels take their counts.
    pub fn baseline_samples(self) -> (n: i32)
        ensures
            n == self.spec_baseline_samples(),
    {
        match self {
            RadianceTier::Sparse => 1024,
            RadianceTier::Medium => 524288,
            RadianceTier::Fine => 1048576,
        }
    }

    /// A hint for the user on how long a bake of this tier may take.
    pub fn max_time(self) -> (s: &'static str)
        ensures
            s@ == (match self {
                RadianceTier::Sparse => "a few seconds"@,
                RadianceTier::Medium => "up to 30 seconds"@,
                RadianceTier::Fine => "more than a minute"@,
            }),
    {
        match self {
            RadianceTier::Sparse => "a few seconds",
            RadianceTier::Medium => "up to 30 seconds",
            RadianceTier::Fine => "more than a minute",
        }
    }
}

/// Whether `peak` is the peak of the channel values `channels`, each held as
/// the bits of a single-precision number: it is one of them, it is a number,
/// and no channel value that is a number is greater.
pub open spec fn is_peak(channels: Seq<u32>, peak: Radiance) -> bool {
    &&& !peak.is_nan()
    &&& exists|i: int| 0 <= i < channels.len() && channels[i] == peak.bits
    &&& forall|i: int|
        0 <= i < channels.len() && !(Radiance { bits: channels[i] }).is_nan() ==> (Radiance {
            bits: #[trigger] channels[i],
        }).order_key() <= peak.order_key()
}

/// The peak radiance of a panorama: the largest channel value over all its
/// pixels. Channel values that are no numbers are passed over; a panorama
/// without a channel value that is a number has no peak.
pub fn max_radiance(channels: &[u32]) -> (peak: Option<Radiance>)
    ensures
        match peak {
            Some(peak) => is_peak(channels@, peak),
            None => forall|i: int|
                0 <= i < channels@.len() ==> (Radiance { bits: #[trigger] channels@[i] }).is_nan(),
        },
{
    let mut peak: Option<Radiance> = None;
    let mut i: usize = 0;
    while i < channels.len()
        invariant
            i <= channels@.len(),
            match peak {
                Some(peak) => is_peak(channels@.take(i as int), peak),
                None => forall|j: int|
                    0 <= j < i ==> (Radiance { bits: #[trigger] channels@[j] }).is_nan(),
            },
        decreases channels@.len() - i,
    {
        let candidate = Radiance { bits: channels[i] };
        let ghost seen = channels@.take(i as int);
        let ghost next = channels@.take(i + 1);
        proof {
            assert(forall|j: int| 0 <= j < i ==> next[j] == seen[j]);
            assert(next[i as int] == candidate.bits);
        }
        if !candidate.is_not_a_number() {
            let greater: bool = match peak {
                Some(current) => current.less_than(candidate),
                None => true,
            };
            if greater {
                proof {
                    assert(next[i as int] == candidate.bits);
                }
                peak = Some(candidate);
            } else {
                proof {
                    let current = peak.unwrap();
                    let k = choose|k: int| 0 <= k < seen.len() && seen[k] == current.bits;
                    assert(next[k] == current.bits);
                }
            }
        } else {
            proof {
                if peak is Some {
                    let current = peak.unwrap();
                    let k = choose|k: int| 0 <= k < seen.len() && seen[k] == current.bits;
                    assert(next[k] == current.bits);
                }
            }
        }
        i = i + 1;
    }
    proof {
        assert(channels@.take(i as int) =~= channels@);
    }
    peak
}

/// The rows of an image in reverse order. The image is row-major with rows
/// of `width` pixels; pixels that do not fill a row count as a last, shorter
/// row.
pub open spec fn flipped_rows<T>(pixels: Seq<T>, width: int) -> Seq<T>
    decreases pixels.len(),
{
    if width <= 0 || pixels.len() <= width {
        pixels
    } else {
        flipped_rows(pixels.skip(width), width) + pixels.take(width)
    }
}

/// Reverses the rows of a panorama, so that its first row is the one that
/// texture coordinates count from.
pub fn flip_rows<T: Copy>(pixels: &[T], width: usize) -> (flipped: Vec<T>)
    requires
        width > 0,
    ensures
        flipped@ == flipped_rows(pixels@, width as int),
        flipped@.len() == pixels@.len(),
{
    let len: usize = pixels.len();
    let mut flipped: Vec<T> = Vec::new();
    if len == 0 {
        proof {
            assert(flipped@ =~= flipped_rows(pixels@, width as int));
        }
        return flipped;
    }
    let rows: usize = (len - 1) / width;
    proof {
        vstd::arithmetic::div_mod::lemma_fundamental_div_mod(len - 1, width as int);
        assert(width * rows == rows * width) by (nonlinear_arith);
        vstd::arithmetic::div_mod::lemma_fundamental_div_mod_converse(
            rows * width,
            width as int,
            rows as int,
            0,
        );
    }
    let mut start: usize = rows * width;
    let mut k: usize = start;
    while k < len
        invariant
            start <= k <= len,
            start < len,
            len == pixels@.len(),
            len - start <= width,
            flipped@ == pixels@.subrange(start as int, k as int),
        decreases len - k,
    {
        flipped.push(pixels[k]);
        proof {
            assert(flipped@ =~= pixels@.subrange(start as int, k + 1));
        }
        k = k + 1;
    }
    proof {
        assert(pixels@.subrange(start as int, len as int) =~= pixels@.skip(start as int));
    }
    while start > 0
        invariant
            start < len,
            len == pixels@.len(),
            width > 0,
            start % width == 0,
            flipped@ == flipped_rows(pixels@.skip(start as int), width as int),
            flipped@.len() == len - start,
        decreases start,
    {
        let ghost rest = pixels@.skip(start as int);
        let ghost done = flipped@;
        assert(start >= width) by (nonlinear_arith)
            requires
                start > 0,
                width > 0,
                (start as int) % (width as int) == 0,
        ;
        assert((start - width) % (width as int) == 0) by (nonlinear_arith)
            requires
                start >= width,
                width > 0,
                (start as int) % (width as int) == 0,
        ;
        start = start - width;
        let mut c: usize = 0;
        while c < width
            invariant
                c <= width,
                start + width <= len,
                len == pixels@.len(),
                flipped@ == done + pixels@.subrange(start as int, start + c),
            decreases width - c,
        {
            flipped.push(pixels[start + c]);
            proof {
                assert(flipped@ =~= done + pixels@.subrange(start as int, start + c + 1));
            }
            c = c + 1;
        }
        proof {
            let row = pixels@.skip(start as int);
            assert(row.len() > width);
            assert(row.skip(width as int) =~= rest);
            assert(row.take(width as int) =~= pixels@.subrange(start as int, start + width));
        }
    }
    proof {
        assert(pixels@.skip(0) =~= pixels@);
    }
    flipped
}

/// Sample count of prefilter level `lod` for a baseline budget: the small
/// fixed count at level 0, a quarter of the baseline at level 1, half of it
/// at level 2, all of it below, and never less than the small fixed count.
pub open spec fn spec_prefilter_samples(baseline: int, lod: int) -> int {
    let share = if lod == 0 {
        MIN_SAMPLES as int
    } else if lod == 1 {
        baseline / 4
    } else if lod == 2 {
        baseline / 2
    } else {
        baseline
    };
    if share < MIN_SAMPLES {
        MIN_SAMPLES as int
    } else {
        share
    }
}

/// Edge of level `lod` of a mip chain whose first level has edge `base`.
pub open spec fn mip_extent(base: int, lod: nat) -> int
    decreases lod,
{
    if lod == 0 {
        base
    } else {
        mip_extent(base, (lod - 1) as nat) / 2
    }
}

/// The importance-sample count of prefilter level `lod`.
pub fn prefilter_samples(tier: RadianceTier, lod: u32) -> (n: i32)
    ensures
        n == spec_prefilter_samples(tier.spec_baseline_samples(), lod as int),
{
    let baseline: i32 = tier.baseline_samples();
    let share: i32 = if lod == 0 {
        MIN_SAMPLES
    } else if lod == 1 {
        baseline / 4
    } else if lod == 2 {
        baseline / 2
    } else {
        baseline
    };
    if share < MIN_SAMPLES {
        MIN_SAMPLES
    } else {
        share
    }
}

/// The sample-count policy of the prefilter stage: level 0 takes the small
/// fixed count whatever the peak radiance, every level from the third on
/// takes the whole baseline of the tier, and no level goes below the small
/// fixed count.
pub proof fn lemma_prefilter_policy(max_radiance: Radiance, lod: int)
    requires
        lod >= 0,
    ensures
        spec_prefilter_samples(max_radiance.spec_tier().spec_baseline_samples(), 0) == MIN_SAMPLES,
        lod >= 3 ==> spec_prefilter_samples(max_radiance.spec_tier().spec_baseline_samples(), lod)
            == max_radiance.spec_tier().spec_baseline_samples(),
        spec_prefilter_samples(max_radiance.spec_tier().spec_baseline_samples(), lod)
            >= MIN_SAMPLES,
        spec_prefilter_samples(max_radiance.spec_tier().spec_baseline_samples(), lod)
            <= max_radiance.spec_tier().spec_baseline_samples(),
{
}

/// The tier edges lie at one thousand and at fifty thousand: a peak radiance
/// without a sign that is a number is sparse exactly below the first edge,
/// fine exactly from the second edge on, and medium between them.
pub proof fn lemma_tier_edges(max_radiance: Radiance)
    requires
        max_radiance.bits <= INFINITY_BITS,
    ensures
        max_radiance.spec_tier() == RadianceTier::Sparse <==> max_radiance.bits
            < RADIANCE_MEDIUM_BITS,
        max_radiance.spec_tier() == RadianceTier::Medium <==> RADIANCE_MEDIUM_BITS
            <= max_radiance.bits < RADIANCE_FINE_BITS,
        max_radiance.spec_tier() == RadianceTier::Fine <==> RADIANCE_FINE_BITS
            <= max_radiance.bits,
{
}

/// The projection of the panorama onto the environment cubemap.
pub struct CubemapPlan {
    /// Edge of a face of the cubemap.
    pub size: i32,
    /// Mip levels to allocate, one per roughness level.
    pub levels: i32,
    /// The dispatch over every texel of every face.
    pub tiles: Vec<TileDispatch>,
    /// Whether the mip chain is generated once the dispatch is done.
    pub generate_mips: bool,
}

/// The convolution of the cubemap into the irradiance map.
pub struct IrradiancePlan {
    /// Edge of a face of the irradiance map, which has no mip chain.
    pub size: i32,
    /// Tier selected from the peak radiance.
    pub tier: RadianceTier,
    /// Step of the hemisphere integration.
    pub sample_delta: Ratio,
    /// The tiles, each followed by a blocking wait.
    pub tiles: Vec<TileDispatch>,
}

/// One level of the prefilter map.
pub struct PrefilterPass {
    /// The mip level that is written.
    pub lod: i32,
    /// Roughness of the level: the level over the last level.
    pub roughness: Ratio,
    /// Importance samples per texel.
    pub sample_count: i32,
    /// Edge of a face at this level.
    pub mip_size: i32,
    /// The tiles, each followed by a blocking wait.
    pub tiles: Vec<TileDispatch>,
}

/// The prefiltering of the cubemap, level by level.
pub struct PrefilterPlan {
    /// Edge of a face of the first level.
    pub size: i32,
    /// Number of levels.
    pub levels: i32,
    /// Tier selected from the peak radiance.
    pub tier: RadianceTier,
    /// One pass per level, the mirror-like level first.
    pub passes: Vec<PrefilterPass>,
}

/// The integration of the lookup table of the specular term.
pub struct DfgPlan {
    /// Edge of the two-channel table.
    pub size: i32,
    /// The single dispatch over the table.
    pub tiles: Vec<TileDispatch>,
}

/// The projection of a measured dataset against the environment.
pub struct MeasuredBrdfPlan {
    /// Edge of a face of the cubemap that is allocated, without a mip chain.
    pub size: i32,
    /// The single dispatch over the projection domain.
    pub tiles: Vec<TileDispatch>,
}

/// What pass `lod` of the prefilter plan holds for a tier.
pub open spec fn prefilter_pass_matches(pass: PrefilterPass, tier: RadianceTier, lod: int) -> bool {
    let mip = mip_extent(PREFILTER_MAP_SIZE as int, lod as nat);
    &&& pass.lod == lod
    &&& pass.roughness == Ratio { num: lod as u32, den: (CUBEMAP_ROUGHNESS_LEVELS - 1) as u32 }
    &&& pass.sample_count == spec_prefilter_samples(tier.spec_baseline_samples(), lod)
    &&& pass.mip_size == mip
    &&& pass.tiles@ == tile_plan(
        mip as u32,
        mip as u32,
        CUBEMAP_FACES,
        TILE_SIZE,
        TILE_SIZE,
        true,
    )
}

/// Whether a plan is the plan of the projection of the panorama.
pub open spec fn is_cubemap_plan(plan: CubemapPlan) -> bool {
    &&& plan.size == CUBEMAP_SIZE
    &&& plan.levels == CUBEMAP_ROUGHNESS_LEVELS
    &&& plan.generate_mips
    &&& plan.tiles@ == tile_plan(1024, 1024, CUBEMAP_FACES, 1024, 1024, false)
}

/// Whether a plan is the plan of the irradiance stage for a peak radiance.
pub open spec fn is_irradiance_plan(plan: IrradiancePlan, max_radiance: Radiance) -> bool {
    &&& plan.size == IRRADIANCE_MAP_SIZE
    &&& plan.tier == max_radiance.spec_tier()
    &&& plan.sample_delta == max_radiance.spec_tier().spec_sample_delta()
    &&& plan.tiles@ == tile_plan(64, 64, CUBEMAP_FACES, TILE_SIZE, TILE_SIZE, true)
}

/// Whether a plan is the plan of the prefilter stage for a peak radiance.
pub open spec fn is_prefilter_plan(plan: PrefilterPlan, max_radiance: Radiance) -> bool {
    &&& plan.size == PREFILTER_MAP_SIZE
    &&& plan.levels == CUBEMAP_ROUGHNESS_LEVELS
    &&& plan.tier == max_radiance.spec_tier()
    &&& plan.passes@.len() == CUBEMAP_ROUGHNESS_LEVELS
    &&& forall|lod: int|
        0 <= lod < CUBEMAP_ROUGHNESS_LEVELS ==> prefilter_pass_matches(
            #[trigger] plan.passes@[lod],
            max_radiance.spec_tier(),
            lod,
        )
}

/// Whether a plan is the plan of the integration of the lookup table.
pub open spec fn is_dfg_plan(plan: DfgPlan) -> bool {
    &&& plan.size == BRDF_LUT_SIZE
    &&& plan.tiles@ == tile_plan(512, 512, 1, 512, 512, false)
}

/// Whether a plan is the plan of the projection of a measured dataset.
pub open spec fn is_measured_brdf_plan(plan: MeasuredBrdfPlan) -> bool {
    &&& plan.size == IRRADIANCE_MAP_SIZE
    &&& plan.tiles@ == tile_plan(
        MEASURED_BRDF_MAP_SIZE,
        MEASURED_BRDF_MAP_SIZE,
        CUBEMAP_FACES,
        MEASURED_BRDF_MAP_SIZE,
        MEASURED_BRDF_MAP_SIZE,
        false,
    )
}

/// Plans the projection of the panorama: one dispatch over the whole of the
/// six faces, without a blocking wait, and the mip chain afterwards.
pub fn cubemap_plan() -> (plan: CubemapPlan)
    ensures
        is_cubemap_plan(plan),
        plan.tiles@.len() == 1,
{
    let tiles = dispatch_tiled(1024, 1024, CUBEMAP_FACES, 1024, 1024, false);
    CubemapPlan { size: CUBEMAP_SIZE, levels: CUBEMAP_ROUGHNESS_LEVELS, tiles, generate_mips: true }
}

/// Plans the irradiance stage for a peak radiance: the step of the tier, and
/// tiles of eight by eight texels with a blocking wait after each.
pub fn irradiance_plan(max_radiance: Radiance) -> (plan: IrradiancePlan)
    ensures
        is_irradiance_plan(plan, max_radiance),
        plan.tiles@.len() == 64,
{
    let tier = max_radiance.tier();
    let tiles = dispatch_tiled(64, 64, CUBEMAP_FACES, TILE_SIZE, TILE_SIZE, true);
    IrradiancePlan { size: IRRADIANCE_MAP_SIZE, tier, sample_delta: tier.sample_delta(), tiles }
}

/// Plans the prefilter stage for a peak radiance: one pass per roughness
/// level, each over a face edge half that of the level before, with the
/// sample count of the policy and a blocking wait after each tile.
pub fn prefilter_plan(max_radiance: Radiance) -> (plan: PrefilterPlan)
    ensures
        is_prefilter_plan(plan, max_radiance),
{
    let tier = max_radiance.tier();
    let mut passes: Vec<PrefilterPass> = Vec::new();
    let mut lod: i32 = 0;
    let mut mip_size: i32 = PREFILTER_MAP_SIZE;
    while lod < CUBEMAP_ROUGHNESS_LEVELS
        invariant
            0 <= lod <= CUBEMAP_ROUGHNESS_LEVELS,
            tier == max_radiance.spec_tier(),
            mip_size == mip_extent(PREFILTER_MAP_SIZE as int, lod as nat),
            0 <= mip_size <= PREFILTER_MAP_SIZE,
            passes@.len() == lod,
            forall|l: int|
                0 <= l < lod ==> prefilter_pass_matches(#[trigger] passes@[l], tier, l),
        decreases CUBEMAP_ROUGHNESS_LEVELS - lod,
    {
        let extent: u32 = mip_size as u32;
        proof {
            lemma_tile_count_small(extent as int);
        }
        let tiles = dispatch_tiled(extent, extent, CUBEMAP_FACES, TILE_SIZE, TILE_SIZE, true);
        let pass = PrefilterPass {
            lod,
            roughness: Ratio { num: lod as u32, den: (CUBEMAP_ROUGHNESS_LEVELS - 1) as u32 },
            sample_count: prefilter_samples(tier, lod as u32),
            mip_size,
            tiles,
        };
        passes.push(pass);
        proof {
            assert(mip_extent(PREFILTER_MAP_SIZE as int, (lod + 1) as nat) == mip_size / 2);
        }
        lod = lod + 1;
        mip_size = mip_size / 2;
    }
    PrefilterPlan { size: PREFILTER_MAP_SIZE, levels: CUBEMAP_ROUGHNESS_LEVELS, tier, passes }
}

proof fn lemma_tile_count_small(extent: int)
    requires
        0 <= extent <= 256,
    ensures
        crate::tiler::tile_count(extent, extent, TILE_SIZE as int, TILE_SIZE as int) <= 1024,
{
    let c = crate::tiler::ceil_div(extent, TILE_SIZE as int);
    assert(0 <= c <= 32);
    assert(c * c <= 1024) by (nonlinear_arith)
        requires
            0 <= c <= 32,
    ;
}

/// Plans the integration of the lookup table: one dispatch over the table,
/// which has a single layer, without a blocking wait.
pub fn dfg_plan() -> (plan: DfgPlan)
    ensures
        is_dfg_plan(plan),
        plan.tiles@.len() == 1,
{
    let tiles = dispatch_tiled(512, 512, 1, 512, 512, false);
    DfgPlan { size: BRDF_LUT_SIZE, tiles }
}

/// Plans the projection of a measured dataset: a cubemap of the size of the
/// irradiance map, and one dispatch over the projection domain.
pub fn measured_brdf_plan() -> (plan: MeasuredBrdfPlan)
    ensures
        is_measured_brdf_plan(plan),
        plan.tiles@.len() == 1,
{
    let tiles = dispatch_tiled(
        MEASURED_BRDF_MAP_SIZE,
        MEASURED_BRDF_MAP_SIZE,
        CUBEMAP_FACES,
        MEASURED_BRDF_MAP_SIZE,
        MEASURED_BRDF_MAP_SIZE,
        false,
    );
    MeasuredBrdfPlan { size: IRRADIANCE_MAP_SIZE, tiles }
}

/// Whether `converted` is what the converter returned for the plan of the
/// projection.
pub open spec fn converted_by<C: FnOnce(CubemapPlan) -> Result<(u32, Radiance), Error>>(
    convert: C,
    converted: Result<(u32, Radiance), Error>,
) -> bool {
    exists|plan: CubemapPlan| is_cubemap_plan(plan) && call_ensures(convert, (plan,), converted)
}

/// Whether `baked` is what the irradiance baker returned for the cubemap
/// and the plan of its peak radiance.
pub open spec fn convolved_by<I: FnOnce(u32, IrradiancePlan) -> Result<u32, Error>>(
    convolve: I,
    cubemap: u32,
    max_radiance: Radiance,
    baked: Result<u32, Error>,
) -> bool {
    exists|plan: IrradiancePlan|
        is_irradiance_plan(plan, max_radiance) && call_ensures(convolve, (cubemap, plan), baked)
}

/// Whether `baked` is what the prefilter baker returned for the cubemap and
/// the plan of its peak radiance.
pub open spec fn prefiltered_by<P: FnOnce(u32, PrefilterPlan) -> Result<u32, Error>>(
    prefilter: P,
    cubemap: u32,
    max_radiance: Radiance,
    baked: Result<u32, Error>,
) -> bool {
    exists|plan: PrefilterPlan|
        is_prefilter_plan(plan, max_radiance) && call_ensures(prefilter, (cubemap, plan), baked)
}

/// Whether `lut` is what the integrator returned for the plan of the lookup
/// table.
pub open spec fn integrated_by<D: FnOnce(DfgPlan) -> Result<u32, Error>>(
    integrate: D,
    lut: Result<u32, Error>,
) -> bool {
    exists|plan: DfgPlan| is_dfg_plan(plan) && call_ensures(integrate, (plan,), lut)
}

/// The maps of one environment.
#[derive(Clone, Copy, Debug, PartialEq, Eq, Structural)]
pub struct IblEnv {
    /// The environment cubemap with its mip chain.
    pub cubemap_tex: u32,
    /// The irradiance map.
    pub irradiance_tex: u32,
    /// The prefilter map.
    pub prefilter_tex: u32,
}

/// What the two bakers make of a cubemap: the maps of the environment if
/// both succeed, else the error of the first that fails. The prefilter
/// baker runs only if the irradiance baker succeeded.
pub open spec fn baked_from<
    I: FnOnce(u32, IrradiancePlan) -> Result<u32, Error>,
    P: FnOnce(u32, PrefilterPlan) -> Result<u32, Error>,
>(cubemap: u32, max_radiance: Radiance, convolve: I, prefilter: P, r: Result<IblEnv, Error>) -> bool {
    exists|irradiance: Result<u32, Error>|
        convolved_by(convolve, cubemap, max_radiance, irradiance) && match irradiance {
            Err(e) => r == Err::<IblEnv, Error>(e),
            Ok(irradiance_tex) => exists|prefiltered: Result<u32, Error>|
                prefiltered_by(prefilter, cubemap, max_radiance, prefiltered)
                    && match prefiltered {
                    Err(e) => r == Err::<IblEnv, Error>(e),
                    Ok(prefilter_tex) => r == Ok::<IblEnv, Error>(
                        IblEnv { cubemap_tex: cubemap, irradiance_tex, prefilter_tex },
                    ),
                },
        }
}

/// What baking an environment returns: the error of the converter, or
/// what the two bakers make of the cubemap and the peak radiance that the
/// converter returned.
pub open spec fn environment_outcome<
    C: FnOnce(CubemapPlan) -> Result<(u32, Radiance), Error>,
    I: FnOnce(u32, IrradiancePlan) -> Result<u32, Error>,
    P: FnOnce(u32, PrefilterPlan) -> Result<u32, Error>,
>(convert: C, convolve: I, prefilter: P, r: Result<IblEnv, Error>) -> bool {
    exists|converted: Result<(u32, Radiance), Error>|
        converted_by(convert, converted) && match converted {
            Err(e) => r == Err::<IblEnv, Error>(e),
            Ok((cubemap, max_radiance)) => baked_from(cubemap, max_radiance, convolve, prefilter, r),
        }
}

impl IblEnv {
    /// Bakes the irradiance map and the prefilter map of a cubemap, in this
    /// order, each with the plan for the peak radiance of the panorama.
    pub fn from_cubemap<
        I: FnOnce(u32, IrradiancePlan) -> Result<u32, Error>,
        P: FnOnce(u32, PrefilterPlan) -> Result<u32, Error>,
    >(cubemap_tex: u32, max_radiance: Radiance, convolve: I, prefilter: P) -> (r: Result<
        IblEnv,
        Error,
    >)
        requires
            forall|cubemap: u32, plan: IrradiancePlan| call_requires(convolve, (cubemap, plan)),
            forall|cubemap: u32, plan: PrefilterPlan| call_requires(prefilter, (cubemap, plan)),
        ensures
            baked_from(cubemap_tex, max_radiance, convolve, prefilter, r),
    {
        let irradiance_plan = irradiance_plan(max_radiance);
        let ghost ip = irradiance_plan;
        let irradiance = convolve(cubemap_tex, irradiance_plan);
        proof {
            assert(is_irradiance_plan(ip, max_radiance) && call_ensures(
                convolve,
                (cubemap_tex, ip),
                irradiance,
            ));
            assert(convolved_by(convolve, cubemap_tex, max_radiance, irradiance));
        }
        let irradiance_tex = match irradiance {
            Ok(tex) => tex,
            Err(e) => {
                return Err(e);
            },
        };
        let prefilter_plan = prefilter_plan(max_radiance);
        let ghost pp = prefilter_plan;
        let prefiltered = prefilter(cubemap_tex, prefilter_plan);
        proof {
            assert(is_prefilter_plan(pp, max_radiance) && call_ensures(
                prefilter,
                (cubemap_tex, pp),
                prefiltered,
            ));
            assert(prefiltered_by(prefilter, cubemap_tex, max_radiance, prefiltered));
        }
        match prefiltered {
            Ok(prefilter_tex) => Ok(IblEnv { cubemap_tex, irradiance_tex, prefilter_tex }),
            Err(e) => Err(e),
        }
    }

    /// Bakes an environment from a panorama: the converter projects the
    /// panorama onto the cubemap and reports its peak radiance, then the
    /// irradiance map and the prefilter map are baked from the cubemap. A
    /// stage that fails ends the bake, and no later stage runs.
    pub fn from_equimap<
        C: FnOnce(CubemapPlan) -> Result<(u32, Radiance), Error>,
        I: FnOnce(u32, IrradiancePlan) -> Result<u32, Error>,
        P: FnOnce(u32, PrefilterPlan) -> Result<u32, Error>,
    >(convert: C, convolve: I, prefilter: P) -> (r: Result<IblEnv, Error>)
        requires
            forall|plan: CubemapPlan| call_requires(convert, (plan,)),
            forall|cubemap: u32, plan: IrradiancePlan| call_requires(convolve, (cubemap, plan)),
            forall|cubemap: u32, plan: PrefilterPlan| call_requires(prefilter, (cubemap, plan)),
        ensures
            environment_outcome(convert, convolve, prefilter, r),
    {
        let plan = cubemap_plan();
        let ghost cp = plan;
        let converted = convert(plan);
        proof {
            assert(is_cubemap_plan(cp) && call_ensures(convert, (cp,), converted));
            assert(converted_by(convert, converted));
        }
        match converted {
            Err(e) => Err(e),
            Ok((cubemap_tex, max_radiance)) => Self::from_cubemap(
                cubemap_tex,
                max_radiance,
                convolve,
                prefilter,
            ),
        }
    }
}

/// The lookup table of the specular term, which depends on no environment.
/// It is integrated on first use and handed out from then on.
pub struct DfgLut {
    lut: Option<u32>,
    dispatches: u64,
}

impl DfgLut {
    /// The table, once it has been integrated.
    pub closed spec fn spec_lut(&self) -> Option<u32> {
        self.lut
    }

    /// How often the integration was dispatched.
    pub closed spec fn spec_dispatches(&self) -> nat {
        self.dispatches as nat
    }

    /// A request on a state that holds the table returns that table,
    /// dispatches nothing and changes nothing.
    pub open spec fn reused(&self, before: &Self, r: Result<u32, Error>) -> bool {
        before.spec_lut() matches Some(lut) ==> {
            &&& r == Ok::<u32, Error>(lut)
            &&& self.spec_lut() == before.spec_lut()
            &&& self.spec_dispatches() == before.spec_dispatches()
        }
    }

    /// A request on a state without the table dispatches the integration
    /// once and keeps the table if the integration succeeds.
    pub open spec fn integrated<D: FnOnce(DfgPlan) -> Result<u32, Error>>(
        &self,
        before: &Self,
        integrate: D,
        r: Result<u32, Error>,
    ) -> bool {
        before.spec_lut() is None ==> {
            &&& integrated_by(integrate, r)
            &&& self.spec_dispatches() == counted(before.spec_dispatches())
            &&& self.spec_lut() == (match r {
                Ok(lut) => Some(lut),
                Err(_) => None,
            })
        }
    }

    /// A state in which nothing has been integrated.
    pub fn new() -> (state: Self)
        ensures
            state.spec_lut() is None,
            state.spec_dispatches() == 0,
    {
        DfgLut { lut: None, dispatches: 0 }
    }

    /// The table, if it has been integrated.
    pub fn lut(&self) -> (lut: Option<u32>)
        ensures
            lut == self.spec_lut(),
    {
        self.lut
    }

    /// How often the integration was dispatched.
    pub fn dispatches(&self) -> (n: u64)
        ensures
            n == self.spec_dispatches(),
    {
        self.dispatches
    }

    /// Returns the lookup table. The first call has `integrate` compute it;
    /// every call after a success returns the same table and does not call
    /// `integrate`.
    pub fn dfg_integration<D: FnOnce(DfgPlan) -> Result<u32, Error>>(
        &mut self,
        integrate: D,
    ) -> (r: Result<u32, Error>)
        requires
            forall|plan: DfgPlan| call_requires(integrate, (plan,)),
        ensures
            final(self).reused(old(self), r),
            final(self).integrated(old(self), integrate, r),
            r matches Ok(lut) ==> final(self).spec_lut() == Some(lut),
    {
        match self.lut {
            Some(lut) => Ok(lut),
            None => {
                let plan = dfg_plan();
                let ghost dp = plan;
                if self.dispatches < u64::MAX {
                    self.dispatches = self.dispatches + 1;
                }
                let r = integrate(plan);
                proof {
                    assert(is_dfg_plan(dp) && call_ensures(integrate, (dp,), r));
                }
                match r {
                    Ok(lut) => {
                        self.lut = Some(lut);
                        Ok(lut)
                    },
                    Err(e) => Err(e),
                }
            },
        }
    }
}

/// Integrating twice is integrating once: after a call that returned the
/// table `first`, a second call returns `first` again and dispatches
/// nothing.
pub proof fn lemma_dfg_integration_idempotent(
    mid: &DfgLut,
    after: &DfgLut,
    first: u32,
    second: Result<u32, Error>,
)
    requires
        mid.spec_lut() == Some(first),
        after.reused(mid, second),
    ensures
        second == Ok::<u32, Error>(first),
        after.spec_dispatches() == mid.spec_dispatches(),
        after.spec_lut() == Some(first),
{
}

} // verus!
