use std::cell::{Cell, RefCell};

use pbr::error::{Error, IoError};
use pbr::ibl::{
    cubemap_plan, dfg_plan, flip_rows, irradiance_plan, max_radiance, measured_brdf_plan,
    prefilter_plan,
    prefilter_samples, DfgLut, IblEnv, Radiance, RadianceTier, Ratio,
};
use pbr::probe::{Probe, ProbeTextures};

fn tier_of(x: f32) -> RadianceTier {
    Radiance::from_bits(x.to_bits()).tier()
}

fn value(r: Ratio) -> f32 {
    r.num as f32 / r.den as f32
}

#[test]
fn radiance_tiers_of_typical_panoramas() {
    assert_eq!(tier_of(500.0), RadianceTier::Sparse);
    assert_eq!(tier_of(10000.0), RadianceTier::Medium);
    assert_eq!(tier_of(100000.0), RadianceTier::Fine);
}

#[test]
fn radiance_tier_edges_lie_at_one_thousand_and_fifty_thousand() {
    assert_eq!(tier_of(999.99994), RadianceTier::Sparse);
    assert_eq!(tier_of(1000.0), RadianceTier::Medium);
    assert_eq!(tier_of(1000.0001), RadianceTier::Medium);
    assert_eq!(tier_of(49999.996), RadianceTier::Medium);
    assert_eq!(tier_of(50000.0), RadianceTier::Fine);
    assert_eq!(tier_of(50000.004), RadianceTier::Fine);
}

#[test]
fn radiance_tiers_of_unusual_numbers() {
    assert_eq!(tier_of(0.0), RadianceTier::Sparse);
    assert_eq!(tier_of(-0.0), RadianceTier::Sparse);
    assert_eq!(tier_of(-3.5), RadianceTier::Sparse);
    assert_eq!(tier_of(f32::NEG_INFINITY), RadianceTier::Sparse);
    assert_eq!(tier_of(f32::MIN_POSITIVE), RadianceTier::Sparse);
    assert_eq!(tier_of(f32::MAX), RadianceTier::Fine);
    assert_eq!(tier_of(f32::INFINITY), RadianceTier::Fine);
    assert_eq!(tier_of(f32::NAN), RadianceTier::Fine);
    assert_eq!(tier_of(-f32::NAN), RadianceTier::Fine);
}

#[test]
fn radiance_tiers_agree_with_the_comparison_of_numbers() {
    let samples = [
        0.5f32, 1.0, 12.25, 999.0, 999.9999, 1000.0, 1000.5, 2048.0, 49999.0, 49999.99, 50000.0,
        50000.5, 65504.0, 1.0e9, -1.0, -1000.0, -50000.0, 1.0e-30,
    ];
    for x in samples {
        let expected = if x < 1000.0 {
            RadianceTier::Sparse
        } else if x < 50000.0 {
            RadianceTier::Medium
        } else {
            RadianceTier::Fine
        };
        assert_eq!(tier_of(x), expected);
    }
}

fn peak_of(values: &[f32]) -> Option<f32> {
    let bits: Vec<u32> = values.iter().map(|v| v.to_bits()).collect();
    max_radiance(&bits).map(|r| f32::from_bits(r.bits))
}

#[test]
fn peak_radiance_is_the_largest_channel_value() {
    assert_eq!(peak_of(&[0.25, 3.0, 1.5]), Some(3.0));
    assert_eq!(peak_of(&[1200.5]), Some(1200.5));
    assert_eq!(peak_of(&[-1.0, -7.0, -0.5]), Some(-0.5));
    assert_eq!(peak_of(&[-1.0, 0.0, -2.0]), Some(0.0));
    assert_eq!(peak_of(&[2.0, f32::INFINITY, 5.0]), Some(f32::INFINITY));
    assert_eq!(peak_of(&[f32::NEG_INFINITY, -3.0e38]), Some(-3.0e38));
    assert_eq!(peak_of(&[1.0e-40, 0.0]), Some(1.0e-40));
    assert_eq!(peak_of(&[]), None);
}

#[test]
fn peak_radiance_passes_over_what_is_no_number() {
    assert_eq!(peak_of(&[f32::NAN, 2.0, f32::NAN, 1.0]), Some(2.0));
    assert_eq!(peak_of(&[4.0, -f32::NAN]), Some(4.0));
    assert_eq!(peak_of(&[f32::NAN]), None);
    assert_eq!(peak_of(&[f32::NAN, -f32::NAN]), None);
}

#[test]
fn the_order_of_the_bits_is_the_order_of_the_numbers() {
    let values = [
        f32::NEG_INFINITY, -3.0e38, -50000.0, -1.0, -1.0e-40, 0.0, 1.0e-40, 0.5, 1.0, 999.99994,
        1000.0, 49999.996, 50000.0, 3.0e38, f32::INFINITY,
    ];
    for a in values {
        for b in values {
            let less = Radiance::from_bits(a.to_bits()).less_than(Radiance::from_bits(b.to_bits()));
            assert_eq!(less, a < b);
        }
        assert!(!Radiance::from_bits(a.to_bits()).is_not_a_number());
    }
    assert!(!Radiance::from_bits((-0.0f32).to_bits()).less_than(Radiance::from_bits(0.0f32.to_bits())));
    assert!(Radiance::from_bits(f32::NAN.to_bits()).is_not_a_number());
    assert!(Radiance::from_bits(0x7F80_0001).is_not_a_number());
    assert!(Radiance::from_bits(0xFFFF_FFFF).is_not_a_number());
}

#[test]
fn sample_delta_of_each_tier() {
    assert_eq!(RadianceTier::Sparse.sample_delta(), Ratio { num: 100, den: 10000 });
    assert_eq!(value(RadianceTier::Sparse.sample_delta()), 0.01);
    assert_eq!(value(RadianceTier::Medium.sample_delta()), 0.005);
    assert_eq!(value(RadianceTier::Fine.sample_delta()), 0.0015);
}

#[test]
fn baseline_samples_of_each_tier() {
    assert_eq!(RadianceTier::Sparse.baseline_samples(), 1024);
    assert_eq!(RadianceTier::Medium.baseline_samples(), 512 * 1024);
    assert_eq!(RadianceTier::Fine.baseline_samples(), 1024 * 1024);
    assert_eq!(RadianceTier::Sparse.max_time(), "a few seconds");
    assert_eq!(RadianceTier::Medium.max_time(), "up to 30 seconds");
    assert_eq!(RadianceTier::Fine.max_time(), "more than a minute");
}

#[test]
fn prefilter_sample_counts_for_seven_levels() {
    for tier in [RadianceTier::Sparse, RadianceTier::Medium, RadianceTier::Fine] {
        assert_eq!(prefilter_samples(tier, 0), 1024);
        for lod in 3..7 {
            assert_eq!(prefilter_samples(tier, lod), tier.baseline_samples());
        }
        for lod in 0..7 {
            assert!(prefilter_samples(tier, lod) >= 1024);
        }
    }
    assert_eq!(prefilter_samples(RadianceTier::Sparse, 1), 1024);
    assert_eq!(prefilter_samples(RadianceTier::Sparse, 2), 1024);
    assert_eq!(prefilter_samples(RadianceTier::Medium, 1), 131072);
    assert_eq!(prefilter_samples(RadianceTier::Medium, 2), 262144);
    assert_eq!(prefilter_samples(RadianceTier::Fine, 1), 262144);
    assert_eq!(prefilter_samples(RadianceTier::Fine, 2), 524288);
    assert_eq!(prefilter_samples(RadianceTier::Fine, 6), 1048576);
}

#[test]
fn irradiance_plan_for_a_bright_panorama() {
    let plan = irradiance_plan(Radiance::from_bits(10000.0f32.to_bits()));
    assert_eq!(plan.size, 64);
    assert_eq!(plan.tier, RadianceTier::Medium);
    assert_eq!(value(plan.sample_delta), 0.005);
    assert_eq!(plan.tiles.len(), 64);
    assert!(plan.tiles.iter().all(|t| t.blocking && t.groups_x == 2 && t.groups_y == 2 && t.groups_z == 6));
    assert_eq!((plan.tiles[1].offset_x, plan.tiles[1].offset_y), (0, 8));
    assert_eq!((plan.tiles[8].offset_x, plan.tiles[8].offset_y), (8, 0));
}

#[test]
fn prefilter_plan_halves_the_face_edge_per_level() {
    let plan = prefilter_plan(Radiance::from_bits(100000.0f32.to_bits()));
    assert_eq!(plan.size, 256);
    assert_eq!(plan.levels, 7);
    assert_eq!(plan.tier, RadianceTier::Fine);
    assert_eq!(plan.passes.len(), 7);
    let sizes: Vec<i32> = plan.passes.iter().map(|p| p.mip_size).collect();
    assert_eq!(sizes, vec![256, 128, 64, 32, 16, 8, 4]);
    let counts: Vec<i32> = plan.passes.iter().map(|p| p.sample_count).collect();
    assert_eq!(counts, vec![1024, 262144, 524288, 1048576, 1048576, 1048576, 1048576]);
    let tiles: Vec<usize> = plan.passes.iter().map(|p| p.tiles.len()).collect();
    assert_eq!(tiles, vec![1024, 256, 64, 16, 4, 1, 1]);
    for (lod, pass) in plan.passes.iter().enumerate() {
        assert_eq!(pass.lod, lod as i32);
        assert_eq!(pass.roughness, Ratio { num: lod as u32, den: 6 });
        assert!(pass.tiles.iter().all(|t| t.blocking && t.groups_z == 6));
    }
    assert_eq!(value(plan.passes[0].roughness), 0.0);
    assert_eq!(value(plan.passes[3].roughness), 0.5);
    assert_eq!(value(plan.passes[6].roughness), 1.0);
}

#[test]
fn single_dispatch_plans() {
    let cubemap = cubemap_plan();
    assert_eq!((cubemap.size, cubemap.levels, cubemap.generate_mips), (1024, 7, true));
    assert_eq!(cubemap.tiles.len(), 1);
    assert_eq!((cubemap.tiles[0].groups_x, cubemap.tiles[0].groups_y, cubemap.tiles[0].groups_z), (256, 256, 6));
    assert!(!cubemap.tiles[0].blocking);
    let dfg = dfg_plan();
    assert_eq!(dfg.size, 512);
    assert_eq!(dfg.tiles.len(), 1);
    assert_eq!((dfg.tiles[0].groups_x, dfg.tiles[0].groups_y, dfg.tiles[0].groups_z), (128, 128, 1));
    let measured = measured_brdf_plan();
    assert_eq!(measured.size, 64);
    assert_eq!(measured.tiles.len(), 1);
    assert_eq!((measured.tiles[0].groups_x, measured.tiles[0].groups_y, measured.tiles[0].groups_z), (32, 32, 6));
}

#[test]
fn rows_are_reversed() {
    let pixels = [1u8, 2, 3, 4, 5, 6, 7, 8, 9, 10, 11, 12];
    assert_eq!(flip_rows(&pixels, 4), vec![9, 10, 11, 12, 5, 6, 7, 8, 1, 2, 3, 4]);
    assert_eq!(flip_rows(&pixels, 12), pixels.to_vec());
    assert_eq!(flip_rows(&pixels, 1), vec![12, 11, 10, 9, 8, 7, 6, 5, 4, 3, 2, 1]);
    assert_eq!(flip_rows(&pixels, 20), pixels.to_vec());
    let empty: [u8; 0] = [];
    assert_eq!(flip_rows(&empty, 3), Vec::<u8>::new());
}

#[test]
fn a_last_short_row_comes_first() {
    let pixels = [1u16, 2, 3, 4, 5, 6, 7];
    assert_eq!(flip_rows(&pixels, 3), vec![7, 4, 5, 6, 1, 2, 3]);
}

#[test]
fn rows_of_float_pixels_are_reversed() {
    let pixels = [[0.5f32, 1.0, 2.0], [3.0, 4.0, 5.0], [6.0, 7.0, 8.0], [9.0, 10.0, 11.0]];
    let flipped = flip_rows(&pixels, 2);
    assert_eq!(flipped, vec![[6.0, 7.0, 8.0], [9.0, 10.0, 11.0], [0.5, 1.0, 2.0], [3.0, 4.0, 5.0]]);
    assert_eq!(flip_rows(&flipped, 2), pixels.to_vec());
}

#[test]
fn the_lookup_table_is_integrated_once() {
    let dispatched = Cell::new(0u32);
    let mut state = DfgLut::new();
    assert_eq!(state.lut(), None);
    let first = state.dfg_integration(|plan| {
        dispatched.set(dispatched.get() + plan.tiles.len() as u32);
        Ok(41)
    });
    assert_eq!(first, Ok(41));
    assert_eq!(dispatched.get(), 1);
    assert_eq!(state.dispatches(), 1);
    let second = state.dfg_integration(|plan| {
        dispatched.set(dispatched.get() + plan.tiles.len() as u32);
        Ok(42)
    });
    assert_eq!(second, Ok(41));
    assert_eq!(dispatched.get(), 1);
    assert_eq!(state.dispatches(), 1);
    assert_eq!(state.lut(), Some(41));
}

#[test]
fn a_failed_integration_is_tried_again() {
    let mut state = DfgLut::new();
    let first = state.dfg_integration(|_| Err(Error::Io(IoError::NotFound)));
    assert_eq!(first, Err(Error::Io(IoError::NotFound)));
    assert_eq!(state.lut(), None);
    assert_eq!(state.dispatches(), 1);
    assert_eq!(state.dfg_integration(|_| Ok(5)), Ok(5));
    assert_eq!(state.dispatches(), 2);
}

#[test]
fn an_environment_is_baked_stage_by_stage() {
    let log = RefCell::new(Vec::new());
    let env = IblEnv::from_equimap(
        |plan| {
            log.borrow_mut().push(format!("convert {} {}", plan.size, plan.levels));
            Ok((7, Radiance::from_bits(20000.0f32.to_bits())))
        },
        |cubemap, plan| {
            log.borrow_mut().push(format!("irradiance {} {:?} {}", cubemap, plan.tier, plan.tiles.len()));
            Ok(8)
        },
        |cubemap, plan| {
            log.borrow_mut().push(format!("prefilter {} {:?} {}", cubemap, plan.tier, plan.passes.len()));
            Ok(9)
        },
    );
    assert_eq!(env, Ok(IblEnv { cubemap_tex: 7, irradiance_tex: 8, prefilter_tex: 9 }));
    assert_eq!(
        log.into_inner(),
        vec!["convert 1024 7", "irradiance 7 Medium 64", "prefilter 7 Medium 7"]
    );
}

#[test]
fn a_failed_stage_ends_the_bake() {
    let ran = Cell::new(0u32);
    let env = IblEnv::from_equimap(
        |_| {
            ran.set(ran.get() + 1);
            Ok((7, Radiance::from_bits(1.0f32.to_bits())))
        },
        |_, _| {
            ran.set(ran.get() + 10);
            Err(Error::Link { log: String::from("no") })
        },
        |_, _| {
            ran.set(ran.get() + 100);
            Ok(9)
        },
    );
    assert_eq!(env, Err(Error::Link { log: String::from("no") }));
    assert_eq!(ran.get(), 11);
    let env = IblEnv::from_equimap(
        |_| Err(Error::Io(IoError::NotFound)),
        |_, _| Ok(1),
        |_, _| Ok(2),
    );
    assert_eq!(env, Err(Error::Io(IoError::NotFound)));
}

#[test]
fn a_probe_holds_the_three_maps() {
    let order = RefCell::new(Vec::new());
    let probe = Probe::from_cubemap(
        3,
        Radiance::from_bits(500.0f32.to_bits()),
        |cubemap, plan| {
            order.borrow_mut().push(("irradiance", cubemap, plan.size));
            Ok(10)
        },
        |cubemap, plan| {
            order.borrow_mut().push(("prefilter", cubemap, plan.size));
            Ok(11)
        },
        |plan| {
            order.borrow_mut().push(("lut", 0, plan.size));
            Ok(12)
        },
    );
    assert_eq!(
        probe,
        Ok(Probe {
            textures: ProbeTextures { irradiance_tex_id: 10, prefilter_tex_id: 11, brdf_lut_id: 12 }
        })
    );
    assert_eq!(order.into_inner(), vec![("irradiance", 3, 64), ("prefilter", 3, 256), ("lut", 0, 512)]);
    let failed = Probe::compute_ibl(
        3,
        Radiance::from_bits(500.0f32.to_bits()),
        |_, _| Ok(10),
        |_, _| Err(Error::Io(IoError::Other)),
        |_| Ok(12),
    );
    assert_eq!(failed, Err(Error::Io(IoError::Other)));
}
