//! What the upload of a primitive and of its textures has to decide: the
//! length of a mip chain, and whether tangents are needed.

use vstd::prelude::*;

verus! {

/// Whether the shading of a primitive reads tangents: it does for a normal
/// map, for a normal map of the clearcoat layer and for anisotropy.
pub fn needs_tangents(normal_map: bool, clearcoat_normal_map: bool, anisotropy: bool) -> (needed:
    bool)
    ensures
        needed == (normal_map || clearcoat_normal_map || anisotropy),
{
    normal_map || clearcoat_normal_map || anisotropy
}

/// Number of levels of the full mip chain of a texture whose longer edge is
/// `extent`: the edge is halved until it is 1.
pub open spec fn spec_mip_levels(extent: nat) -> nat
    decreases extent,
{
    if extent <= 1 {
        1
    } else {
        1 + spec_mip_levels(extent / 2)
    }
}

/// Two to the power `n`, for `n` from 0 on.
pub open spec fn pow2(n: int) -> int
    decreases n,
{
    if n <= 0 {
        1
    } else {
        2 * pow2(n - 1)
    }
}

proof fn lemma_pow2_grows(a: int, b: int)
    requires
        0 <= a <= b,
    ensures
        1 <= pow2(a) <= pow2(b),
    decreases b,
{
    if a < b {
        lemma_pow2_grows(a, b - 1);
    } else if a > 0 {
        lemma_pow2_grows(a - 1, a - 1);
    }
}

proof fn lemma_pow2_31()
    ensures
        pow2(31) == 0x8000_0000,
{
    reveal_with_fuel(pow2, 33);
}

/// Number of levels of the full mip chain of a `width` by `height` texture,
/// which is one more than the binary logarithm of the longer edge, rounded
/// down.
pub fn mip_levels(width: u32, height: u32) -> (levels: i32)
    ensures
        levels == spec_mip_levels(
            if width >= height {
                width as nat
            } else {
                height as nat
            },
        ),
        1 <= levels <= 32,
{
    let longer: u32 = if width >= height {
        width
    } else {
        height
    };
    let mut extent: u32 = longer;
    let mut levels: i32 = 1;
    while extent > 1
        invariant
            1 <= levels <= 32,
            spec_mip_levels(longer as nat) == levels - 1 + spec_mip_levels(extent as nat),
            extent * pow2(levels - 1) <= longer,
        decreases extent,
    {
        proof {
            let p = pow2(levels - 1);
            lemma_pow2_31();
            if levels >= 32 {
                lemma_pow2_grows(31, levels - 1);
            }
            assert(levels < 32) by (nonlinear_arith)
                requires
                    extent >= 2,
                    extent * p <= longer,
                    longer < 0x1_0000_0000,
                    levels >= 32 ==> p >= 0x8000_0000,
            ;
            assert(pow2(levels as int) == 2 * p);
            lemma_pow2_grows(0, levels - 1);
            assert((extent / 2) * (2 * p) <= extent * p) by (nonlinear_arith)
                requires
                    p >= 0,
                    extent >= 0,
            ;
        }
        extent = extent / 2;
        levels = levels + 1;
    }
    levels
}

} // verus!
