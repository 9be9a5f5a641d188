use pbr::app_settings::{CameraTyp, DiffuseType, MaterialSrc};
use pbr::brdf_raw::BrdfType;
use pbr::error::FormatError;
use pbr::pbr_settings::PbrSettings;
use pbr::settings::Settings;
use pbr::shader_constants::consts;
use pbr::texture::{mip_levels, needs_tangents};

#[test]
fn settings_start_with_everything_on() {
    let s = Settings::new();
    assert!(s.clearcoat_enabled() && s.direct_light_enabled() && s.ibl_enabled());
    assert_eq!(s.to_words(), [1, 1, 1]);
}

#[test]
fn settings_switches_are_independent() {
    let mut s = Settings::new();
    s.set_clearcoat_enabled(false);
    assert_eq!((s.clearcoat_enabled(), s.direct_light_enabled(), s.ibl_enabled()), (false, true, true));
    assert_eq!(s.to_words(), [0, 1, 1]);
    s.set_direct_light_enabled(false);
    assert_eq!(s.to_words(), [0, 0, 1]);
    s.set_ibl_enabled(false);
    assert_eq!(s.to_words(), [0, 0, 0]);
    s.set_clearcoat_enabled(true);
    s.set_ibl_enabled(true);
    assert_eq!(s.to_words(), [1, 0, 1]);
    assert_ne!(s, Settings::new());
    s.set_direct_light_enabled(true);
    assert_eq!(s, Settings::new());
}

#[test]
fn pbr_settings_start_with_everything_on() {
    let s = PbrSettings::new();
    assert!(s.clearcoat_enabled() && s.direct_light_enabled() && s.ibl_enabled() && s.energycomp_enabled());
    assert_eq!(s.diffuse_type(), DiffuseType::Lambert);
    assert_eq!(s.to_words(), [1, 1, 1, 0, 1]);
    assert_eq!(PbrSettings::binding(), 3);
}

#[test]
fn pbr_settings_switches_are_independent() {
    let mut s = PbrSettings::new();
    s.set_energycomp_enabled(false);
    assert_eq!(s.to_words(), [1, 1, 1, 0, 0]);
    assert!(!s.energycomp_enabled());
    s.set_clearcoat_enabled(false);
    assert_eq!(s.to_words(), [0, 1, 1, 0, 0]);
    s.set_direct_light_enabled(false);
    assert_eq!(s.to_words(), [0, 0, 1, 0, 0]);
    s.set_ibl_enabled(false);
    assert_eq!(s.to_words(), [0, 0, 0, 0, 0]);
    s.set_diffuse_type(DiffuseType::CodWWII);
    assert_eq!(s.to_words(), [0, 0, 0, 2, 0]);
    assert_eq!(s.diffuse_type(), DiffuseType::CodWWII);
    s.set_diffuse_type(DiffuseType::Frostbite);
    s.set_ibl_enabled(true);
    assert_eq!(s.to_words(), [0, 0, 1, 1, 0]);
    assert!(s.ibl_enabled() && !s.clearcoat_enabled() && !s.direct_light_enabled());
}

#[test]
fn names_shown_to_the_user() {
    assert_eq!(DiffuseType::Lambert.to_str(), "Lambert");
    assert_eq!(DiffuseType::Frostbite.to_str(), "Frostbite");
    assert_eq!(DiffuseType::CodWWII.to_str(), "CoD: WWII");
    assert_eq!((DiffuseType::Lambert.index(), DiffuseType::Frostbite.index(), DiffuseType::CodWWII.index()), (0, 1, 2));
    assert_eq!(MaterialSrc::Gltf.to_str(), "GLTF");
    assert_eq!(MaterialSrc::PbrOverride.to_str(), "Override material");
    assert_eq!(MaterialSrc::MerlBrdf.to_str(), "MERL BRDF database");
    assert_eq!(MaterialSrc::MitBrdf.to_str(), "MIT CSAIL database");
    assert_eq!(MaterialSrc::UtiaBrdf.to_str(), "UTIA BRDF database");
    assert_ne!(CameraTyp::Flycam, CameraTyp::Orbital);
}

#[test]
fn material_sources_that_read_a_dataset() {
    assert_eq!(MaterialSrc::Gltf.brdf_type(), None);
    assert_eq!(MaterialSrc::PbrOverride.brdf_type(), None);
    assert_eq!(MaterialSrc::MerlBrdf.brdf_type(), Some(BrdfType::Merl));
    assert_eq!(MaterialSrc::MitBrdf.brdf_type(), Some(BrdfType::Mit));
    assert_eq!(MaterialSrc::UtiaBrdf.brdf_type(), Some(BrdfType::Utia));
}

#[test]
fn the_binding_layout() {
    let c = consts();
    assert_eq!(
        (c.ibl.cubemap_size, c.ibl.cubemap_roughnes_levels, c.ibl.local_size_xy, c.ibl.local_size_z),
        (1024, 7, 4, 1)
    );
    let v = c.vertex_attrib_indices;
    assert_eq!((v.position, v.normals, v.texcoords, v.tangent), (0, 1, 2, 3));
    let p = c.texture_ports;
    assert_eq!(
        [
            p.albedo,
            p.mr,
            p.normal,
            p.occlusion,
            p.emissive,
            p.clearcoat_intensity,
            p.clearcoat_roughness,
            p.clearcoat_normal,
            p.irradiance,
            p.prefilter,
            p.brdf,
            p.raw_brdf
        ],
        [0, 1, 2, 3, 4, 5, 6, 7, 8, 9, 10, 11]
    );
    let b = c.buffer_bindings;
    assert_eq!(
        [b.transforms, b.pbr_material, b.lighting, b.settings, b.brdf_merl, b.brdf_mit, b.brdf_utia],
        [0, 1, 2, 3, 10, 11, 12]
    );
}

#[test]
fn format_errors_have_messages() {
    assert_eq!(FormatError::DimensionsMismatch.message(), "Dimensions don't match");
    assert_eq!(FormatError::ParametrizationNotStandard.message(), "Parametrization is not standard");
    assert_eq!(FormatError::BinningNotUniform.message(), "Binning is not uniform");
    assert_eq!(FormatError::WrongChannelCount.message(), "Wrong number of channels");
    assert_eq!(FormatError::SampleCountOutOfRange.message(), "Sample count is out of range");
    assert_eq!(
        FormatError::UnknownDatasetKind.message(),
        "BRDF file has no extension name, cannot infer type"
    );
    assert_eq!(
        FormatError::MissingDefinesSentinel.message(),
        "Couldn't find //#defines in shader source"
    );
    assert_eq!(FormatError::InvalidImportPath.message(), "invalid #import path");
    assert_eq!(FormatError::MissingImportTarget.message(), "Couldn't load the import file");
    assert_eq!(FormatError::TooManyImports.message(), "too many #import files");
}

#[test]
fn mip_chains_reach_down_to_one_texel() {
    assert_eq!(mip_levels(1, 1), 1);
    assert_eq!(mip_levels(2, 1), 2);
    assert_eq!(mip_levels(3, 3), 2);
    assert_eq!(mip_levels(4, 2), 3);
    assert_eq!(mip_levels(1024, 1024), 11);
    assert_eq!(mip_levels(512, 2048), 12);
    assert_eq!(mip_levels(2048, 512), 12);
    assert_eq!(mip_levels(1000, 10), 10);
    assert_eq!(mip_levels(u32::MAX, 7), 32);
    assert_eq!(mip_levels(0, 0), 1);
    for k in 0..32 {
        let edge = 1u32 << k;
        assert_eq!(mip_levels(edge, 1), 1 + (edge as f32).log2().floor() as i32);
    }
}

#[test]
fn tangents_are_needed_for_normal_maps_and_anisotropy() {
    assert!(!needs_tangents(false, false, false));
    assert!(needs_tangents(true, false, false));
    assert!(needs_tangents(false, true, false));
    assert!(needs_tangents(false, false, true));
    assert!(needs_tangents(true, true, true));
}
