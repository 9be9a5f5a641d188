//! The cache of compiled shader variants.
//!
//! A shading path has one template per stage and a small set of feature
//! flags. Each set of flags that is asked for is rendered, compiled and
//! linked once; every later request for the same flags is served from the
//! cache. Nothing is ever evicted or replaced.

use vstd::prelude::*;
use std::collections::HashMap;
use crate::error::Error;
use crate::shader::{variant_outcome, BuildFailure, Shader, Stage, StageSource};

verus! {

broadcast use vstd::std_specs::hash::group_hash_axioms;

/// The feature flags of one shading path: a key of the variant cache.
pub trait ShaderDefines: Sized {
    /// The names that the variant defines in a stage.
    spec fn spec_defines(&self, stage: Stage) -> Seq<&'static str>;

    /// A number that stands for the flags.
    spec fn spec_key(&self) -> u64;

    /// The names that the variant defines in a stage, one per active flag.
    fn defines(&self, stage: Stage) -> (d: Vec<&'static str>)
        ensures
            d@ == self.spec_defines(stage),
    ;

    /// The number under which the variant is cached.
    fn key(&self) -> (k: u64)
        ensures
            k == self.spec_key(),
    ;

    /// Flags that differ have different numbers.
    proof fn lemma_key_injective(&self, other: &Self)
        requires
            self.spec_key() == other.spec_key(),
        ensures
            *self == *other,
    ;

    /// Flags that differ define different names in some stage, so that two
    /// distinct variants are never compiled from the same defines.
    proof fn lemma_defines_differ(&self, other: &Self)
        ensures
            *self != *other ==> exists|stage: Stage|
                self.spec_defines(stage) != other.spec_defines(stage),
    ;
}

/// One compiled variant.
pub struct Permutation<T> {
    /// The flags that the program was compiled for.
    pub defines: T,
    /// The program.
    pub shader: Shader,
}

/// The variants of one shading path that have been compiled so far.
pub struct ShaderPermutations<T: ShaderDefines> {
    permutations: HashMap<u64, Permutation<T>>,
    templates: Vec<StageSource>,
    builds: u64,
}

/// The counter after one more build; it stops at its largest value.
pub open spec fn counted(builds: nat) -> nat {
    if builds < u64::MAX {
        builds + 1
    } else {
        builds
    }
}

impl<T: ShaderDefines> ShaderPermutations<T> {
    /// Every entry is filed under the number of its own flags.
    pub closed spec fn wf(&self) -> bool {
        forall|k: u64| #[trigger]
            self.permutations@.contains_key(k) ==> self.permutations@[k].defines.spec_key() == k
    }

    /// Whether the variant `defines` has been compiled.
    pub closed spec fn contains(&self, defines: T) -> bool {
        self.permutations@.contains_key(defines.spec_key())
    }

    /// The program of a variant that has been compiled.
    pub closed spec fn program(&self, defines: T) -> Shader {
        self.permutations@[defines.spec_key()].shader
    }

    /// Number of variants in the cache.
    pub closed spec fn spec_len(&self) -> nat {
        self.permutations@.len()
    }

    /// The templates of the shading path.
    pub closed spec fn spec_templates(&self) -> Seq<StageSource> {
        self.templates@
    }

    /// How often the build of a variant was started.
    pub closed spec fn spec_builds(&self) -> nat {
        self.builds as nat
    }

    /// Whether two caches hold the same variants with the same programs.
    pub open spec fn same_programs(&self, other: &Self) -> bool {
        forall|defines: T|
            (#[trigger] self.contains(defines) <==> other.contains(defines)) && (self.contains(
                defines,
            ) ==> self.program(defines) == other.program(defines))
    }

    /// Whether this cache holds what `before` held and the variant `defines`
    /// with the program `shader`.
    pub open spec fn extends(&self, before: &Self, defines: T, shader: Shader) -> bool {
        &&& self.contains(defines)
        &&& self.program(defines) == shader
        &&& forall|other: T|
            other != defines ==> (#[trigger] self.contains(other) <==> before.contains(other))
        &&& forall|other: T|
            other != defines && before.contains(other) ==> #[trigger] self.program(other)
                == before.program(other)
    }

    /// A request that succeeded leaves its variant in the cache, with the
    /// program that was returned.
    pub open spec fn served(&self, defines: T, r: Result<Shader, Error>) -> bool {
        r matches Ok(shader) ==> self.contains(defines) && self.program(defines) == shader
    }

    /// A request for a variant that `before` holds returns the cached
    /// program, builds nothing and changes nothing.
    pub open spec fn hit(&self, before: &Self, defines: T, r: Result<Shader, Error>) -> bool {
        before.contains(defines) ==> {
            &&& r == Ok::<Shader, Error>(before.program(defines))
            &&& self.spec_builds() == before.spec_builds()
            &&& self.spec_len() == before.spec_len()
            &&& self.same_programs(before)
        }
    }

    /// A request for a variant that `before` lacks builds it once; the
    /// program enters the cache if the build succeeds, and nothing changes
    /// if it fails.
    pub open spec fn miss<F: FnOnce(Vec<StageSource>) -> Result<Shader, BuildFailure>>(
        &self,
        before: &Self,
        defines: T,
        compile: F,
        r: Result<Shader, Error>,
    ) -> bool {
        !before.contains(defines) ==> {
            &&& variant_outcome(before.spec_templates(), defines, compile, r)
            &&& self.spec_builds() == counted(before.spec_builds())
            &&& match r {
                Ok(shader) => self.extends(before, defines, shader) && self.spec_len()
                    == before.spec_len() + 1,
                Err(_) => self.same_programs(before) && self.spec_len() == before.spec_len(),
            }
        }
    }

    /// An empty cache for a shading path with a vertex and a fragment stage.
    pub fn new(vs_src: Vec<u8>, fs_src: Vec<u8>) -> (cache: Self)
        ensures
            cache.wf(),
            cache.spec_len() == 0,
            cache.spec_builds() == 0,
            forall|defines: T| !cache.contains(defines),
            cache.spec_templates().len() == 2,
            cache.spec_templates()[0] == (StageSource { stage: Stage::Vertex, src: vs_src }),
            cache.spec_templates()[1] == (StageSource { stage: Stage::Fragment, src: fs_src }),
    {
        let mut templates: Vec<StageSource> = Vec::new();
        templates.push(StageSource { stage: Stage::Vertex, src: vs_src });
        templates.push(StageSource { stage: Stage::Fragment, src: fs_src });
        ShaderPermutations { permutations: HashMap::new(), templates, builds: 0 }
    }

    /// An empty cache for a shading path with a single compute stage.
    pub fn compute(comp_src: Vec<u8>) -> (cache: Self)
        ensures
            cache.wf(),
            cache.spec_len() == 0,
            cache.spec_builds() == 0,
            forall|defines: T| !cache.contains(defines),
            cache.spec_templates().len() == 1,
            cache.spec_templates()[0] == (StageSource { stage: Stage::Compute, src: comp_src }),
    {
        let mut templates: Vec<StageSource> = Vec::new();
        templates.push(StageSource { stage: Stage::Compute, src: comp_src });
        ShaderPermutations { permutations: HashMap::new(), templates, builds: 0 }
    }

    /// Number of variants in the cache.
    pub fn len(&self) -> (n: usize)
        ensures
            n == self.spec_len(),
    {
        self.permutations.len()
    }

    /// How often the build of a variant was started since the cache was made.
    pub fn builds(&self) -> (n: u64)
        ensures
            n == self.spec_builds(),
    {
        self.builds
    }

    /// The cached program of a variant, if it has been compiled.
    pub fn lookup(&self, defines: &T) -> (r: Option<Shader>)
        ensures
            r == (if self.contains(*defines) {
                Some(self.program(*defines))
            } else {
                None
            }),
    {
        let k = defines.key();
        match self.permutations.get(&k) {
            Some(entry) => Some(entry.shader),
            None => None,
        }
    }

    /// Builds the variant `defines` from the templates of the shading path,
    /// with `compile` as the compiler.
    pub fn compile_shader<F: FnOnce(Vec<StageSource>) -> Result<Shader, BuildFailure>>(
        &self,
        defines: &T,
        compile: F,
    ) -> (r: Result<Shader, Error>)
        requires
            forall|stages: Vec<StageSource>| call_requires(compile, (stages,)),
        ensures
            variant_outcome(self.spec_templates(), *defines, compile, r),
    {
        Shader::with_src_defines(self.templates.as_slice(), defines, compile)
    }

    /// Returns the program of the variant `defines`. If the cache holds it,
    /// that program is returned and `compile` is not called. Otherwise the
    /// variant is rendered from the templates, `compile` builds it, and the
    /// program is entered under `defines` before it is returned; a failed
    /// build is reported and leaves the cache as it was.
    pub fn get_shader<F: FnOnce(Vec<StageSource>) -> Result<Shader, BuildFailure>>(
        &mut self,
        defines: T,
        compile: F,
    ) -> (r: Result<Shader, Error>)
        requires
            old(self).wf(),
            forall|stages: Vec<StageSource>| call_requires(compile, (stages,)),
        ensures
            final(self).wf(),
            final(self).spec_templates() == old(self).spec_templates(),
            final(self).served(defines, r),
            final(self).hit(old(self), defines, r),
            final(self).miss(old(self), defines, compile, r),
    {
        let k = defines.key();
        match self.permutations.get(&k) {
            Some(entry) => {
                return Ok(entry.shader);
            },
            None => {},
        }
        if self.builds < u64::MAX {
            self.builds = self.builds + 1;
        }
        let built = self.compile_shader(&defines, compile);
        match built {
            Err(e) => Err(e),
            Ok(shader) => {
                self.permutations.insert(k, Permutation { defines, shader });
                proof {
                    assert forall|other: T| other != defines implies (#[trigger] self.contains(
                        other,
                    ) <==> old(self).contains(other)) by {
                        if other.spec_key() == defines.spec_key() {
                            other.lemma_key_injective(&defines);
                        }
                    }
                    assert forall|other: T|
                        other != defines && old(self).contains(
                            other,
                        ) implies #[trigger] self.program(other) == old(self).program(other) by {
                        if other.spec_key() == defines.spec_key() {
                            other.lemma_key_injective(&defines);
                        }
                    }
                }
                Ok(shader)
            },
        }
    }
}

/// The cache only grows: whatever a request does, every variant that the
/// cache held before is still held after it, with the same program.
pub proof fn lemma_cache_is_monotonic<
    T: ShaderDefines,
    F: FnOnce(Vec<StageSource>) -> Result<Shader, BuildFailure>,
>(
    before: &ShaderPermutations<T>,
    after: &ShaderPermutations<T>,
    defines: T,
    compile: F,
    r: Result<Shader, Error>,
    held: T,
)
    requires
        after.hit(before, defines, r),
        after.miss(before, defines, compile, r),
        before.contains(held),
    ensures
        after.contains(held),
        after.program(held) == before.program(held),
{
    if before.contains(defines) {
        assert(after.same_programs(before));
    } else {
        match r {
            Ok(shader) => {
                assert(after.extends(before, defines, shader));
                assert(held != defines);
                assert(after.contains(held) <==> before.contains(held));
            },
            Err(_) => {
                assert(after.same_programs(before));
            },
        }
    }
    assert(after.contains(held));
}

/// Of two requests for equal flags, the second returns the program that the
/// first returned, and builds nothing: whatever `first` was served from the
/// cache `mid`, a request `second` on `mid` returns it and leaves the build
/// counter and the variants as they were.
pub proof fn lemma_second_request_is_served_from_cache<T: ShaderDefines>(
    mid: &ShaderPermutations<T>,
    after: &ShaderPermutations<T>,
    defines: T,
    first: Shader,
    second: Result<Shader, Error>,
)
    requires
        mid.served(defines, Ok(first)),
        after.hit(mid, defines, second),
    ensures
        second == Ok::<Shader, Error>(first),
        after.spec_builds() == mid.spec_builds(),
        after.spec_len() == mid.spec_len(),
        after.same_programs(mid),
{
}

} // verus!
