//! Binding points and sizes that the shaders and the CPU side agree on.

use vstd::prelude::*;

verus! {

/// Every constant shared with the shader sources.
#[derive(Clone, Copy, Debug, PartialEq, Eq, Structural)]
pub struct Consts {
    pub vertex_attrib_indices: VertexAttribIndices,
    pub ibl: IblConsts,
    pub texture_ports: TexturePorts,
    pub buffer_bindings: BufferBindings,
}

/// Attribute locations of the vertex layout.
#[derive(Clone, Copy, Debug, PartialEq, Eq, Structural)]
pub struct VertexAttribIndices {
    pub position: u32,
    pub normals: u32,
    pub texcoords: u32,
    pub tangent: u32,
}

/// Sizes of the lighting bake.
#[derive(Clone, Copy, Debug, PartialEq, Eq, Structural)]
pub struct IblConsts {
    pub cubemap_size: i32,
    pub cubemap_roughnes_levels: i32,
    pub local_size_xy: u32,
    pub local_size_z: u32,
}

/// Texture units.
#[derive(Clone, Copy, Debug, PartialEq, Eq, Structural)]
pub struct TexturePorts {
    pub albedo: u32,
    pub mr: u32,
    pub normal: u32,
    pub occlusion: u32,
    pub emissive: u32,
    pub clearcoat_intensity: u32,
    pub clearcoat_roughness: u32,
    pub clearcoat_normal: u32,
    pub irradiance: u32,
    pub prefilter: u32,
    pub brdf: u32,
    pub raw_brdf: u32,
}

/// Uniform and storage buffer bindings.
#[derive(Clone, Copy, Debug, PartialEq, Eq, Structural)]
pub struct BufferBindings {
    pub transforms: u32,
    pub pbr_material: u32,
    pub lighting: u32,
    pub settings: u32,
    pub brdf_merl: u32,
    pub brdf_mit: u32,
    pub brdf_utia: u32,
}

/// Edge of a face of the environment cubemap, in texels.
pub const CUBEMAP_SIZE: i32 = 1024;

/// Number of roughness levels, which is the length of every mip chain that
/// the specular term reads. The shading code's highest level of detail is
/// this number minus one.
pub const CUBEMAP_ROUGHNESS_LEVELS: i32 = 7;

/// Local workgroup size of the bake shaders along x and along y.
pub const LOCAL_SIZE_XY: u32 = 4;

/// Local workgroup size of the bake shaders along z.
pub const LOCAL_SIZE_Z: u32 = 1;

/// The binding layout as a value.
pub open spec fn spec_consts() -> Consts {
    Consts {
        vertex_attrib_indices: VertexAttribIndices {
            position: 0,
            normals: 1,
            texcoords: 2,
            tangent: 3,
        },
        ibl: IblConsts {
            cubemap_size: CUBEMAP_SIZE,
            cubemap_roughnes_levels: CUBEMAP_ROUGHNESS_LEVELS,
            local_size_xy: LOCAL_SIZE_XY,
            local_size_z: LOCAL_SIZE_Z,
        },
        texture_ports: TexturePorts {
            albedo: 0,
            mr: 1,
            normal: 2,
            occlusion: 3,
            emissive: 4,
            clearcoat_intensity: 5,
            clearcoat_roughness: 6,
            clearcoat_normal: 7,
            irradiance: 8,
            prefilter: 9,
            brdf: 10,
            raw_brdf: 11,
        },
        buffer_bindings: BufferBindings {
            transforms: 0,
            pbr_material: 1,
            lighting: 2,
            settings: 3,
            brdf_merl: 10,
            brdf_mit: 11,
            brdf_utia: 12,
        },
    }
}

/// The binding layout that every component of the renderer is handed.
pub fn consts() -> (c: Consts)
    ensures
        c == spec_consts(),
{
    Consts {
        vertex_attrib_indices: VertexAttribIndices {
            position: 0,
            normals: 1,
            texcoords: 2,
            tangent: 3,
        },
        ibl: IblConsts {
            cubemap_size: CUBEMAP_SIZE,
            cubemap_roughnes_levels: CUBEMAP_ROUGHNESS_LEVELS,
            local_size_xy: LOCAL_SIZE_XY,
            local_size_z: LOCAL_SIZE_Z,
        },
        texture_ports: TexturePorts {
            albedo: 0,
            mr: 1,
            normal: 2,
            occlusion: 3,
            emissive: 4,
            clearcoat_intensity: 5,
            clearcoat_roughness: 6,
            clearcoat_normal: 7,
            irradiance: 8,
            prefilter: 9,
            brdf: 10,
            raw_brdf: 11,
        },
        buffer_bindings: BufferBindings {
            transforms: 0,
            pbr_material: 1,
            lighting: 2,
            settings: 3,
            brdf_merl: 10,
            brdf_mit: 11,
            brdf_utia: 12,
        },
    }
}

} // verus!
