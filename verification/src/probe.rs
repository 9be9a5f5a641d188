//! A light probe: the three maps that the shading of a point reads.

use vstd::prelude::*;
use crate::error::Error;
use crate::ibl::{
    convolved_by, dfg_plan, integrated_by, irradiance_plan, is_dfg_plan, is_irradiance_plan,
    is_prefilter_plan, prefilter_plan, prefiltered_by, DfgPlan, IrradiancePlan, PrefilterPlan,
    Radiance,
};

verus! {

/// A light probe.
#[derive(Clone, Copy, Debug, PartialEq, Eq, Structural)]
pub struct Probe {
    pub textures: ProbeTextures,
}

/// The maps of a light probe.
#[derive(Clone, Copy, Debug, PartialEq, Eq, Structural)]
pub struct ProbeTextures {
    /// The irradiance map.
    pub irradiance_tex_id: u32,
    /// The prefilter map.
    pub prefilter_tex_id: u32,
    /// The lookup table of the specular term.
    pub brdf_lut_id: u32,
}

/// What computing the maps of a probe returns: the three maps if every
/// stage succeeds, else the error of the first stage that fails. The stages
/// run in the order irradiance, prefilter, lookup table, and none runs after
/// a failure.
pub open spec fn probe_outcome<
    I: FnOnce(u32, IrradiancePlan) -> Result<u32, Error>,
    P: FnOnce(u32, PrefilterPlan) -> Result<u32, Error>,
    D: FnOnce(DfgPlan) -> Result<u32, Error>,
>(
    cubemap: u32,
    max_radiance: Radiance,
    convolve: I,
    prefilter: P,
    integrate: D,
    r: Result<ProbeTextures, Error>,
) -> bool {
    exists|irradiance: Result<u32, Error>|
        convolved_by(convolve, cubemap, max_radiance, irradiance) && match irradiance {
            Err(e) => r == Err::<ProbeTextures, Error>(e),
            Ok(irradiance_tex_id) => exists|prefiltered: Result<u32, Error>|
                prefiltered_by(prefilter, cubemap, max_radiance, prefiltered)
                    && match prefiltered {
                    Err(e) => r == Err::<ProbeTextures, Error>(e),
                    Ok(prefilter_tex_id) => exists|lut: Result<u32, Error>|
                        integrated_by(integrate, lut) && match lut {
                            Err(e) => r == Err::<ProbeTextures, Error>(e),
                            Ok(brdf_lut_id) => r == Ok::<ProbeTextures, Error>(
                                ProbeTextures { irradiance_tex_id, prefilter_tex_id, brdf_lut_id },
                            ),
                        },
                },
        }
}

impl Probe {
    /// Makes a probe from an environment cubemap by computing its maps.
    pub fn from_cubemap<
        I: FnOnce(u32, IrradiancePlan) -> Result<u32, Error>,
        P: FnOnce(u32, PrefilterPlan) -> Result<u32, Error>,
        D: FnOnce(DfgPlan) -> Result<u32, Error>,
    >(cubemap_tex_id: u32, max_radiance: Radiance, convolve: I, prefilter: P, integrate: D) -> (r:
        Result<Probe, Error>)
        requires
            forall|cubemap: u32, plan: IrradiancePlan| call_requires(convolve, (cubemap, plan)),
            forall|cubemap: u32, plan: PrefilterPlan| call_requires(prefilter, (cubemap, plan)),
            forall|plan: DfgPlan| call_requires(integrate, (plan,)),
        ensures
            match r {
                Ok(probe) => probe_outcome(
                    cubemap_tex_id,
                    max_radiance,
                    convolve,
                    prefilter,
                    integrate,
                    Ok(probe.textures),
                ),
                Err(e) => probe_outcome(
                    cubemap_tex_id,
                    max_radiance,
                    convolve,
                    prefilter,
                    integrate,
                    Err(e),
                ),
            },
    {
        match Self::compute_ibl(cubemap_tex_id, max_radiance, convolve, prefilter, integrate) {
            Ok(textures) => Ok(Probe { textures }),
            Err(e) => Err(e),
        }
    }

    /// Computes the maps of a probe from an environment cubemap: the
    /// irradiance map, the prefilter map and the lookup table, each by its
    /// baker with the plan of the stage.
    pub fn compute_ibl<
        I: FnOnce(u32, IrradiancePlan) -> Result<u32, Error>,
        P: FnOnce(u32, PrefilterPlan) -> Result<u32, Error>,
        D: FnOnce(DfgPlan) -> Result<u32, Error>,
    >(cubemap_tex_id: u32, max_radiance: Radiance, convolve: I, prefilter: P, integrate: D) -> (r:
        Result<ProbeTextures, Error>)
        requires
            forall|cubemap: u32, plan: IrradiancePlan| call_requires(convolve, (cubemap, plan)),
            forall|cubemap: u32, plan: PrefilterPlan| call_requires(prefilter, (cubemap, plan)),
            forall|plan: DfgPlan| call_requires(integrate, (plan,)),
        ensures
            probe_outcome(cubemap_tex_id, max_radiance, convolve, prefilter, integrate, r),
    {
        let irradiance_plan = irradiance_plan(max_radiance);
        let ghost ip = irradiance_plan;
        let irradiance = convolve(cubemap_tex_id, irradiance_plan);
        proof {
            assert(is_irradiance_plan(ip, max_radiance) && call_ensures(
                convolve,
                (cubemap_tex_id, ip),
                irradiance,
            ));
            assert(convolved_by(convolve, cubemap_tex_id, max_radiance, irradiance));
        }
        let irradiance_tex_id = match irradiance {
            Ok(tex) => tex,
            Err(e) => {
                return Err(e);
            },
        };
        let prefilter_plan = prefilter_plan(max_radiance);
        let ghost pp = prefilter_plan;
        let prefiltered = prefilter(cubemap_tex_id, prefilter_plan);
        proof {
            assert(is_prefilter_plan(pp, max_radiance) && call_ensures(
                prefilter,
                (cubemap_tex_id, pp),
                prefiltered,
            ));
            assert(prefiltered_by(prefilter, cubemap_tex_id, max_radiance, prefiltered));
        }
        let prefilter_tex_id = match prefiltered {
            Ok(tex) => tex,
            Err(e) => {
                return Err(e);
            },
        };
        let plan = dfg_plan();
        let ghost dp = plan;
        let lut = integrate(plan);
        proof {
            assert(is_dfg_plan(dp) && call_ensures(integrate, (dp,), lut));
            assert(integrated_by(integrate, lut));
        }
        match lut {
            Ok(brdf_lut_id) => Ok(
                ProbeTextures { irradiance_tex_id, prefilter_tex_id, brdf_lut_id },
            ),
            Err(e) => Err(e),
        }
    }
}

} // verus!
