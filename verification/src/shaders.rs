//! The shading paths of the renderer and the feature flags of each.

use vstd::prelude::*;
use crate::brdf_raw::BrdfType;
use crate::error::Error;
use crate::shader::{variant_outcome, BuildFailure, Shader, Stage, StageSource};
use crate::shader_permutations::{ShaderDefines, ShaderPermutations};

verus! {

/// The flags of the physically based shading path.
#[derive(Clone, Copy, Debug, Hash, PartialEq, Eq, Structural)]
pub struct PbrDefines {
    pub albedo_map: bool,
    pub mr_map: bool,
    pub normal_map: bool,
    pub occlusion_map: bool,
    pub emissive_map: bool,
    pub clearcoat_enabled: bool,
    pub clearcoat_intensity_map: bool,
    pub clearcoat_roughness_map: bool,
    pub clearcoat_normal_map: bool,
    pub anisotropy_enabled: bool,
}

/// The flags of the shading path that reads a measured dataset.
#[derive(Clone, Copy, Debug, Hash, PartialEq, Eq, Structural)]
pub struct DataDrivenDefines {
    pub normal_map: bool,
    pub occlusion_map: bool,
    pub brdf_typ: BrdfType,
}

/// The key of a shading path without flags.
#[derive(Clone, Copy, Debug, Hash, PartialEq, Eq, Structural)]
pub struct NoDefines {}

/// The names among `names` whose flag is set, in the order of `names`.
pub open spec fn selected(flags: Seq<bool>, names: Seq<&'static str>) -> Seq<&'static str>
    decreases flags.len(),
{
    if flags.len() == 0 || names.len() != flags.len() {
        Seq::empty()
    } else if flags.last() {
        selected(flags.drop_last(), names.drop_last()).push(names.last())
    } else {
        selected(flags.drop_last(), names.drop_last())
    }
}

/// Whether no name occurs twice.
pub open spec fn distinct(names: Seq<&'static str>) -> bool {
    forall|i: int, j: int| 0 <= i < j < names.len() ==> names[i] != names[j]
}

/// A name is selected exactly if it stands in the table with its flag set.
pub proof fn lemma_selected_contains(flags: Seq<bool>, names: Seq<&'static str>, x: &'static str)
    requires
        flags.len() == names.len(),
    ensures
        selected(flags, names).contains(x) <==> exists|j: int|
            0 <= j < names.len() && flags[j] && names[j] == x,
    decreases flags.len(),
{
    let n = flags.len() as int;
    if n > 0 {
        let head_flags = flags.drop_last();
        let head_names = names.drop_last();
        let head = selected(head_flags, head_names);
        lemma_selected_contains(head_flags, head_names, x);
        if selected(flags, names).contains(x) {
            let i = choose|i: int|
                0 <= i < selected(flags, names).len() && selected(flags, names)[i] == x;
            if i < head.len() {
                assert(head[i] == x);
                assert(head.contains(x));
                let j = choose|j: int| 0 <= j < head_names.len() && head_flags[j] && head_names[j] == x;
                assert(flags[j] && names[j] == x);
            } else {
                assert(flags[n - 1] && names[n - 1] == x);
            }
        }
        if exists|j: int| 0 <= j < names.len() && flags[j] && names[j] == x {
            let j = choose|j: int| 0 <= j < names.len() && flags[j] && names[j] == x;
            if j < n - 1 {
                assert(head_flags[j] && head_names[j] == x);
                assert(head.contains(x));
                let i = choose|i: int| 0 <= i < head.len() && head[i] == x;
                assert(selected(flags, names)[i] == x);
            } else {
                assert(selected(flags, names)[head.len() as int] == x);
            }
        }
    }
}

/// Over a table without a repeated name, the selected names tell the flags:
/// two settings of the flags that select the same names are the same.
pub proof fn lemma_selected_injective(a: Seq<bool>, b: Seq<bool>, names: Seq<&'static str>)
    requires
        a.len() == names.len(),
        b.len() == names.len(),
        distinct(names),
        selected(a, names) == selected(b, names),
    ensures
        a == b,
{
    assert forall|i: int| 0 <= i < names.len() implies a[i] == b[i] by {
        lemma_selected_contains(a, names, names[i]);
        lemma_selected_contains(b, names, names[i]);
        if a[i] {
            assert(selected(b, names).contains(names[i]));
            let j = choose|j: int| 0 <= j < names.len() && b[j] && names[j] == names[i];
            assert(j == i);
        }
        if b[i] {
            assert(selected(a, names).contains(names[i]));
            let j = choose|j: int| 0 <= j < names.len() && a[j] && names[j] == names[i];
            assert(j == i);
        }
    }
    assert(a =~= b);
}

/// The weight of a flag in the number of a key: `w` if the flag is set.
#[verifier::opaque]
pub open spec fn weight(flag: bool, w: u64) -> u64 {
    if flag {
        w
    } else {
        0
    }
}

fn weigh(flag: bool, w: u64) -> (r: u64)
    ensures
        r == weight(flag, w),
        r <= w,
{
    reveal(weight);
    if flag {
        w
    } else {
        0
    }
}

fn select_defines(flags: &[bool], names: &[&'static str]) -> (d: Vec<&'static str>)
    requires
        flags@.len() == names@.len(),
    ensures
        d@ == selected(flags@, names@),
{
    let mut d: Vec<&'static str> = Vec::new();
    let mut i: usize = 0;
    while i < flags.len()
        invariant
            flags@.len() == names@.len(),
            i <= flags@.len(),
            d@ == selected(flags@.take(i as int), names@.take(i as int)),
        decreases flags@.len() - i,
    {
        proof {
            assert(flags@.take(i + 1).drop_last() =~= flags@.take(i as int));
            assert(names@.take(i + 1).drop_last() =~= names@.take(i as int));
        }
        if flags[i] {
            d.push(names[i]);
        }
        i = i + 1;
    }
    proof {
        assert(flags@.take(i as int) =~= flags@);
        assert(names@.take(i as int) =~= names@);
    }
    d
}

impl PbrDefines {
    /// The flags, in the order of their defines.
    pub open spec fn flags(self) -> Seq<bool> {
        seq![
            self.albedo_map,
            self.mr_map,
            self.normal_map,
            self.occlusion_map,
            self.emissive_map,
            self.clearcoat_enabled,
            self.clearcoat_intensity_map,
            self.clearcoat_roughness_map,
            self.clearcoat_normal_map,
            self.anisotropy_enabled,
        ]
    }

    /// The define of each flag.
    pub open spec fn names() -> Seq<&'static str> {
        seq![
            "ALBEDO_MAP",
            "MR_MAP",
            "NORMAL_MAP",
            "OCCLUSION_MAP",
            "EMISSIVE_MAP",
            "CLEARCOAT",
            "CLEARCOAT_INTENSITY_MAP",
            "CLEARCOAT_ROUGHNESS_MAP",
            "CLEARCOAT_NORMAL_MAP",
            "ANISOTROPY",
        ]
    }

    /// No two flags share a define.
    pub proof fn lemma_names_distinct()
        ensures
            distinct(Self::names()),
    {
        reveal_strlit("ALBEDO_MAP");
        reveal_strlit("MR_MAP");
        reveal_strlit("NORMAL_MAP");
        reveal_strlit("OCCLUSION_MAP");
        reveal_strlit("EMISSIVE_MAP");
        reveal_strlit("CLEARCOAT");
        reveal_strlit("CLEARCOAT_INTENSITY_MAP");
        reveal_strlit("CLEARCOAT_ROUGHNESS_MAP");
        reveal_strlit("CLEARCOAT_NORMAL_MAP");
        reveal_strlit("ANISOTROPY");
        let names = Self::names();
        assert(names[0]@.len() == 10 && names[0]@[0] == 'A' && names[0]@[1] == 'L');
        assert(names[1]@.len() == 6);
        assert(names[2]@.len() == 10 && names[2]@[0] == 'N');
        assert(names[9]@.len() == 10 && names[9]@[0] == 'A' && names[9]@[1] == 'N');
        assert(names[3]@.len() == 13);
        assert(names[4]@.len() == 12);
        assert(names[5]@.len() == 9);
        assert(names[6]@.len() == 23 && names[6]@[10] == 'I');
        assert(names[7]@.len() == 23 && names[7]@[10] == 'R');
        assert(names[8]@.len() == 20);
    }
}

impl ShaderDefines for PbrDefines {
    open spec fn spec_defines(&self, stage: Stage) -> Seq<&'static str> {
        if stage == Stage::Fragment {
            selected(self.flags(), Self::names())
        } else {
            Seq::empty()
        }
    }

    open spec fn spec_key(&self) -> u64 {
        (weight(self.albedo_map, 1) + weight(self.mr_map, 2) + weight(self.normal_map, 4) + weight(
            self.occlusion_map,
            8,
        ) + weight(self.emissive_map, 16) + weight(self.clearcoat_enabled, 32) + weight(
            self.clearcoat_intensity_map,
            64,
        ) + weight(self.clearcoat_roughness_map, 128) + weight(self.clearcoat_normal_map, 256)
            + weight(self.anisotropy_enabled, 512)) as u64
    }

    /// One define per texture map that the material has, for the clearcoat
    /// layer and for anisotropy, in the fragment stage; none in any other
    /// stage.
    fn defines(&self, stage: Stage) -> (d: Vec<&'static str>) {
        match stage {
            Stage::Fragment => {
                let flags: [bool; 10] = [
                    self.albedo_map,
                    self.mr_map,
                    self.normal_map,
                    self.occlusion_map,
                    self.emissive_map,
                    self.clearcoat_enabled,
                    self.clearcoat_intensity_map,
                    self.clearcoat_roughness_map,
                    self.clearcoat_normal_map,
                    self.anisotropy_enabled,
                ];
                let names: [&'static str; 10] = [
                    "ALBEDO_MAP",
                    "MR_MAP",
                    "NORMAL_MAP",
                    "OCCLUSION_MAP",
                    "EMISSIVE_MAP",
                    "CLEARCOAT",
                    "CLEARCOAT_INTENSITY_MAP",
                    "CLEARCOAT_ROUGHNESS_MAP",
                    "CLEARCOAT_NORMAL_MAP",
                    "ANISOTROPY",
                ];
                proof {
                    assert(flags@ =~= self.flags());
                    assert(names@ =~= Self::names());
                }
                select_defines(flags.as_slice(), names.as_slice())
            },
            _ => Vec::new(),
        }
    }

    fn key(&self) -> (k: u64) {
        let albedo: u64 = weigh(self.albedo_map, 1);
        let mr: u64 = weigh(self.mr_map, 2);
        let normal: u64 = weigh(self.normal_map, 4);
        let occlusion: u64 = weigh(self.occlusion_map, 8);
        let emissive: u64 = weigh(self.emissive_map, 16);
        let clearcoat: u64 = weigh(self.clearcoat_enabled, 32);
        let intensity: u64 = weigh(self.clearcoat_intensity_map, 64);
        let roughness: u64 = weigh(self.clearcoat_roughness_map, 128);
        let cc_normal: u64 = weigh(self.clearcoat_normal_map, 256);
        let anisotropy: u64 = weigh(self.anisotropy_enabled, 512);
        albedo + mr + normal + occlusion + emissive + clearcoat + intensity + roughness + cc_normal
            + anisotropy
    }

    proof fn lemma_key_injective(&self, other: &Self) {
        reveal(weight);
    }

    proof fn lemma_defines_differ(&self, other: &Self) {
        if *self != *other {
            lemma_pbr_defines_differ(*self, *other);
            assert(self.spec_defines(Stage::Fragment) != other.spec_defines(Stage::Fragment));
        }
    }
}

impl DataDrivenDefines {
    /// The flags of the texture maps.
    pub open spec fn flags(self) -> Seq<bool> {
        seq![self.normal_map, self.occlusion_map]
    }

    /// The define of each texture map.
    pub open spec fn names() -> Seq<&'static str> {
        seq!["NORMAL_MAP", "OCCLUSION_MAP"]
    }
}

impl ShaderDefines for DataDrivenDefines {
    open spec fn spec_defines(&self, stage: Stage) -> Seq<&'static str> {
        if stage == Stage::Fragment {
            selected(self.flags(), Self::names()).push(self.brdf_typ.spec_define())
        } else {
            Seq::empty()
        }
    }

    open spec fn spec_key(&self) -> u64 {
        ((if self.normal_map { 1int } else { 0 }) + (if self.occlusion_map { 2int } else { 0 }) + (match self.brdf_typ {
            BrdfType::Merl => 0int,
            BrdfType::Mit => 4,
            BrdfType::Utia => 8,
        })) as u64
    }

    /// One define per texture map that the material has, then the define of
    /// the dataset kind, in the fragment stage; none in any other stage.
    fn defines(&self, stage: Stage) -> (d: Vec<&'static str>) {
        match stage {
            Stage::Fragment => {
                let flags: [bool; 2] = [self.normal_map, self.occlusion_map];
                let names: [&'static str; 2] = ["NORMAL_MAP", "OCCLUSION_MAP"];
                proof {
                    assert(flags@ =~= self.flags());
                    assert(names@ =~= Self::names());
                }
                let mut d = select_defines(flags.as_slice(), names.as_slice());
                d.push(self.brdf_typ.to_str());
                d
            },
            _ => Vec::new(),
        }
    }

    fn key(&self) -> (k: u64) {
        let mut k: u64 = match self.brdf_typ {
            BrdfType::Merl => 0,
            BrdfType::Mit => 4,
            BrdfType::Utia => 8,
        };
        if self.normal_map {
            k = k + 1;
        }
        if self.occlusion_map {
            k = k + 2;
        }
        k
    }

    proof fn lemma_key_injective(&self, other: &Self) {
    }

    proof fn lemma_defines_differ(&self, other: &Self) {
        if *self != *other {
            lemma_data_driven_defines_differ(*self, *other);
            assert(self.spec_defines(Stage::Fragment) != other.spec_defines(Stage::Fragment));
        }
    }
}

impl ShaderDefines for BrdfType {
    open spec fn spec_defines(&self, stage: Stage) -> Seq<&'static str> {
        seq![self.spec_define()]
    }

    open spec fn spec_key(&self) -> u64 {
        match self {
            BrdfType::Merl => 0,
            BrdfType::Mit => 1,
            BrdfType::Utia => 2,
        }
    }

    /// The define of the kind, in every stage.
    fn defines(&self, stage: Stage) -> (d: Vec<&'static str>) {
        let mut d: Vec<&'static str> = Vec::new();
        d.push(self.to_str());
        d
    }

    fn key(&self) -> (k: u64) {
        match self {
            BrdfType::Merl => 0,
            BrdfType::Mit => 1,
            BrdfType::Utia => 2,
        }
    }

    proof fn lemma_key_injective(&self, other: &Self) {
    }

    proof fn lemma_defines_differ(&self, other: &Self) {
        if *self != *other {
            BrdfType::lemma_defines_distinct();
            let a = self.spec_defines(Stage::Compute);
            let b = other.spec_defines(Stage::Compute);
            assert(a[0] != b[0]);
        }
    }
}

impl ShaderDefines for NoDefines {
    open spec fn spec_defines(&self, stage: Stage) -> Seq<&'static str> {
        Seq::empty()
    }

    open spec fn spec_key(&self) -> u64 {
        0
    }

    fn defines(&self, stage: Stage) -> (d: Vec<&'static str>) {
        Vec::new()
    }

    fn key(&self) -> (k: u64) {
        0
    }

    proof fn lemma_key_injective(&self, other: &Self) {
    }

    proof fn lemma_defines_differ(&self, other: &Self) {
    }
}

/// Two distinct variants of the physically based path are compiled from
/// different defines.
pub proof fn lemma_pbr_defines_differ(a: PbrDefines, b: PbrDefines)
    requires
        a != b,
    ensures
        a.spec_defines(Stage::Fragment) != b.spec_defines(Stage::Fragment),
{
    PbrDefines::lemma_names_distinct();
    if a.spec_defines(Stage::Fragment) == b.spec_defines(Stage::Fragment) {
        lemma_selected_injective(a.flags(), b.flags(), PbrDefines::names());
        assert(a.flags()[0] == b.flags()[0]);
        assert(a.flags()[1] == b.flags()[1]);
        assert(a.flags()[2] == b.flags()[2]);
        assert(a.flags()[3] == b.flags()[3]);
        assert(a.flags()[4] == b.flags()[4]);
        assert(a.flags()[5] == b.flags()[5]);
        assert(a.flags()[6] == b.flags()[6]);
        assert(a.flags()[7] == b.flags()[7]);
        assert(a.flags()[8] == b.flags()[8]);
        assert(a.flags()[9] == b.flags()[9]);
    }
}

/// Two distinct variants of the data-driven path are compiled from
/// different defines.
pub proof fn lemma_data_driven_defines_differ(a: DataDrivenDefines, b: DataDrivenDefines)
    requires
        a != b,
    ensures
        a.spec_defines(Stage::Fragment) != b.spec_defines(Stage::Fragment),
{
    reveal_strlit("NORMAL_MAP");
    reveal_strlit("OCCLUSION_MAP");
    BrdfType::lemma_defines_distinct();
    let names = DataDrivenDefines::names();
    assert(names[0]@.len() == 10);
    assert(names[1]@.len() == 13);
    let da = a.spec_defines(Stage::Fragment);
    let db = b.spec_defines(Stage::Fragment);
    if da == db {
        let sa = selected(a.flags(), names);
        let sb = selected(b.flags(), names);
        assert(da.drop_last() =~= sa);
        assert(db.drop_last() =~= sb);
        assert(da.last() == a.brdf_typ.spec_define());
        assert(db.last() == b.brdf_typ.spec_define());
        lemma_selected_injective(a.flags(), b.flags(), names);
        assert(a.flags()[0] == b.flags()[0]);
        assert(a.flags()[1] == b.flags()[1]);
    }
}

/// The programs of the renderer: the two variant caches, and the two
/// programs without flags.
pub struct Shaders {
    pub pbr_shaders: ShaderPermutations<PbrDefines>,
    pub data_based_shaders: ShaderPermutations<DataDrivenDefines>,
    pub light_shader: Shader,
    pub cubemap_shader: Shader,
}

/// The templates of a program with a vertex and a fragment stage.
pub open spec fn render_templates(vs_src: Seq<u8>, fs_src: Seq<u8>, t: Seq<StageSource>) -> bool {
    &&& t.len() == 2
    &&& t[0].stage == Stage::Vertex
    &&& t[0].src@ == vs_src
    &&& t[1].stage == Stage::Fragment
    &&& t[1].src@ == fs_src
}

fn copy_bytes(src: &Vec<u8>) -> (copy: Vec<u8>)
    ensures
        copy@ == src@,
{
    let mut copy: Vec<u8> = Vec::new();
    let mut i: usize = 0;
    while i < src.len()
        invariant
            i <= src@.len(),
            copy@ == src@.take(i as int),
        decreases src@.len() - i,
    {
        copy.push(src[i]);
        proof {
            assert(copy@ =~= src@.take(i + 1));
        }
        i = i + 1;
    }
    proof {
        assert(src@.take(i as int) =~= src@);
    }
    copy
}

fn render_stages(vs_src: Vec<u8>, fs_src: Vec<u8>) -> (t: Vec<StageSource>)
    ensures
        render_templates(vs_src@, fs_src@, t@),
{
    let mut t: Vec<StageSource> = Vec::new();
    t.push(StageSource { stage: Stage::Vertex, src: vs_src });
    t.push(StageSource { stage: Stage::Fragment, src: fs_src });
    t
}

impl Shaders {
    /// Sets up the programs of the renderer from the sources of their
    /// stages: empty caches for the two shading paths with flags, which
    /// share the vertex stage `basic_vs`, and the light and the environment
    /// program, which are built at once, the light program first.
    pub fn new<
        F: FnOnce(Vec<StageSource>) -> Result<Shader, BuildFailure>,
        G: FnOnce(Vec<StageSource>) -> Result<Shader, BuildFailure>,
    >(
        basic_vs: Vec<u8>,
        pbr_fs: Vec<u8>,
        data_driven_fs: Vec<u8>,
        light_fs: Vec<u8>,
        cubemap_vs: Vec<u8>,
        cubemap_fs: Vec<u8>,
        build_light: F,
        build_cubemap: G,
    ) -> (r: Result<Shaders, Error>)
        requires
            forall|stages: Vec<StageSource>| call_requires(build_light, (stages,)),
            forall|stages: Vec<StageSource>| call_requires(build_cubemap, (stages,)),
        ensures
            match r {
                Ok(shaders) => {
                    &&& shaders.pbr_shaders.wf()
                    &&& shaders.pbr_shaders.spec_len() == 0
                    &&& render_templates(basic_vs@, pbr_fs@, shaders.pbr_shaders.spec_templates())
                    &&& shaders.data_based_shaders.wf()
                    &&& shaders.data_based_shaders.spec_len() == 0
                    &&& render_templates(
                        basic_vs@,
                        data_driven_fs@,
                        shaders.data_based_shaders.spec_templates(),
                    )
                    &&& exists|light: Seq<StageSource>, cubemap: Seq<StageSource>|
                        {
                            &&& render_templates(basic_vs@, light_fs@, light)
                            &&& render_templates(cubemap_vs@, cubemap_fs@, cubemap)
                            &&& variant_outcome(
                                light,
                                NoDefines {  },
                                build_light,
                                Ok(shaders.light_shader),
                            )
                            &&& variant_outcome(
                                cubemap,
                                NoDefines {  },
                                build_cubemap,
                                Ok(shaders.cubemap_shader),
                            )
                        }
                },
                Err(e) => exists|light: Seq<StageSource>, cubemap: Seq<StageSource>|
                    {
                        &&& render_templates(basic_vs@, light_fs@, light)
                        &&& render_templates(cubemap_vs@, cubemap_fs@, cubemap)
                        &&& (variant_outcome(light, NoDefines {  }, build_light, Err(e))
                            || variant_outcome(cubemap, NoDefines {  }, build_cubemap, Err(e)))
                    },
            },
    {
        let key = NoDefines {  };
        let light = render_stages(copy_bytes(&basic_vs), light_fs);
        let cubemap = render_stages(cubemap_vs, cubemap_fs);
        let light_shader = match Shader::with_src_defines(light.as_slice(), &key, build_light) {
            Ok(shader) => shader,
            Err(e) => {
                return Err(e);
            },
        };
        let cubemap_shader = match Shader::with_src_defines(
            cubemap.as_slice(),
            &key,
            build_cubemap,
        ) {
            Ok(shader) => shader,
            Err(e) => {
                return Err(e);
            },
        };
        let pbr_shaders = ShaderPermutations::new(copy_bytes(&basic_vs), pbr_fs);
        let data_based_shaders = ShaderPermutations::new(basic_vs, data_driven_fs);
        Ok(Shaders { pbr_shaders, data_based_shaders, light_shader, cubemap_shader })
    }
}

} // verus!
