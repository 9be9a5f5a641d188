//! Lighting precomputation and shader-variant bookkeeping for a physically
//! based renderer.
//!
//! The crate holds the decisions of the image-based-lighting bake (sampling
//! tiers, mip chains, tiled compute dispatches), the layout checks of the
//! measured-reflectance datasets, the shader template splicing and the
//! variant cache. Every GPU command itself is issued by the program around
//! this library, which receives plain plans and hands back plain handles.

pub mod app_settings;
pub mod brdf_raw;
pub mod error;
pub mod ibl;
pub mod pbr_settings;
pub mod probe;
pub mod resources;
pub mod settings;
pub mod shader;
pub mod shader_constants;
pub mod shader_permutations;
pub mod shaders;
pub mod texture;
pub mod tiler;
