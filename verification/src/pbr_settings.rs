//! Runtime switches of the physically based path, in the layout of their
//! uniform block.

use vstd::prelude::*;
use crate::app_settings::DiffuseType;
use crate::settings::word_of_flag;
use crate::shader_constants::consts;

verus! {

/// Runtime shader settings. A boolean of the uniform block takes four
/// bytes, so every switch is a 32-bit word that is 0 or 1. The fields are
/// read and written through the methods, whose contracts speak of them.
#[derive(Clone, Copy, Debug, PartialEq, Eq, Structural)]
pub struct PbrSettings {
    clearcoat_enabled: u32,
    direct_light_enabled: u32,
    ibl_enabled: u32,
    diffuse_type: DiffuseType,
    energycomp_enabled: u32,
}

impl PbrSettings {
    /// Every switch is 0 or 1.
    pub closed spec fn wf(self) -> bool {
        &&& self.clearcoat_enabled <= 1
        &&& self.direct_light_enabled <= 1
        &&& self.ibl_enabled <= 1
        &&& self.energycomp_enabled <= 1
    }

    /// Whether the clearcoat layer is shaded.
    pub closed spec fn spec_clearcoat_enabled(self) -> bool {
        self.clearcoat_enabled != 0
    }

    /// Whether the analytic lights are shaded.
    pub closed spec fn spec_direct_light_enabled(self) -> bool {
        self.direct_light_enabled != 0
    }

    /// Whether the environment lighting is shaded.
    pub closed spec fn spec_ibl_enabled(self) -> bool {
        self.ibl_enabled != 0
    }

    /// Whether the energy lost to multiple scattering is compensated.
    pub closed spec fn spec_energycomp_enabled(self) -> bool {
        self.energycomp_enabled != 0
    }

    /// The words of the uniform block, in order.
    pub closed spec fn spec_words(self) -> Seq<u32> {
        seq![
            self.clearcoat_enabled,
            self.direct_light_enabled,
            self.ibl_enabled,
            self.diffuse_type.spec_index(),
            self.energycomp_enabled,
        ]
    }

    /// The diffuse term.
    pub closed spec fn spec_diffuse_type(self) -> DiffuseType {
        self.diffuse_type
    }

    /// A well-formed block is the words of its switches, with the number of
    /// the diffuse term in the fourth place.
    pub proof fn lemma_words(self)
        requires
            self.wf(),
        ensures
            self.spec_words() == seq![
                word_of_flag(self.spec_clearcoat_enabled()),
                word_of_flag(self.spec_direct_light_enabled()),
                word_of_flag(self.spec_ibl_enabled()),
                self.spec_diffuse_type().spec_index(),
                word_of_flag(self.spec_energycomp_enabled()),
            ],
    {
    }

    /// Everything switched on, with the simplest diffuse term.
    pub fn new() -> (s: Self)
        ensures
            s.wf(),
            s.spec_clearcoat_enabled(),
            s.spec_direct_light_enabled(),
            s.spec_ibl_enabled(),
            s.spec_energycomp_enabled(),
            s.spec_diffuse_type() == DiffuseType::Lambert,
    {
        Self {
            clearcoat_enabled: 1,
            direct_light_enabled: 1,
            ibl_enabled: 1,
            diffuse_type: DiffuseType::Lambert,
            energycomp_enabled: 1,
        }
    }

    pub fn set_clearcoat_enabled(&mut self, clearcoat_enabled: bool)
        ensures
            final(self).spec_clearcoat_enabled() == clearcoat_enabled,
            final(self).spec_direct_light_enabled() == old(self).spec_direct_light_enabled(),
            final(self).spec_ibl_enabled() == old(self).spec_ibl_enabled(),
            final(self).spec_energycomp_enabled() == old(self).spec_energycomp_enabled(),
            final(self).spec_diffuse_type() == old(self).spec_diffuse_type(),
            old(self).wf() ==> final(self).wf(),
    {
        self.clearcoat_enabled = if clearcoat_enabled {
            1
        } else {
            0
        };
    }

    pub fn set_direct_light_enabled(&mut self, direct_light_enabled: bool)
        ensures
            final(self).spec_direct_light_enabled() == direct_light_enabled,
            final(self).spec_clearcoat_enabled() == old(self).spec_clearcoat_enabled(),
            final(self).spec_ibl_enabled() == old(self).spec_ibl_enabled(),
            final(self).spec_energycomp_enabled() == old(self).spec_energycomp_enabled(),
            final(self).spec_diffuse_type() == old(self).spec_diffuse_type(),
            old(self).wf() ==> final(self).wf(),
    {
        self.direct_light_enabled = if direct_light_enabled {
            1
        } else {
            0
        };
    }

    pub fn set_ibl_enabled(&mut self, ibl_enabled: bool)
        ensures
            final(self).spec_ibl_enabled() == ibl_enabled,
            final(self).spec_clearcoat_enabled() == old(self).spec_clearcoat_enabled(),
            final(self).spec_direct_light_enabled() == old(self).spec_direct_light_enabled(),
            final(self).spec_energycomp_enabled() == old(self).spec_energycomp_enabled(),
            final(self).spec_diffuse_type() == old(self).spec_diffuse_type(),
            old(self).wf() ==> final(self).wf(),
    {
        self.ibl_enabled = if ibl_enabled {
            1
        } else {
            0
        };
    }

    pub fn set_energycomp_enabled(&mut self, energycomp_enabled: bool)
        ensures
            final(self).spec_energycomp_enabled() == energycomp_enabled,
            final(self).spec_clearcoat_enabled() == old(self).spec_clearcoat_enabled(),
            final(self).spec_direct_light_enabled() == old(self).spec_direct_light_enabled(),
            final(self).spec_ibl_enabled() == old(self).spec_ibl_enabled(),
            final(self).spec_diffuse_type() == old(self).spec_diffuse_type(),
            old(self).wf() ==> final(self).wf(),
    {
        self.energycomp_enabled = if energycomp_enabled {
            1
        } else {
            0
        };
    }

    pub fn clearcoat_enabled(&self) -> (on: bool)
        ensures
            on == self.spec_clearcoat_enabled(),
    {
        self.clearcoat_enabled != 0
    }

    pub fn direct_light_enabled(&self) -> (on: bool)
        ensures
            on == self.spec_direct_light_enabled(),
    {
        self.direct_light_enabled != 0
    }

    pub fn ibl_enabled(&self) -> (on: bool)
        ensures
            on == self.spec_ibl_enabled(),
    {
        self.ibl_enabled != 0
    }

    pub fn energycomp_enabled(&self) -> (on: bool)
        ensures
            on == self.spec_energycomp_enabled(),
    {
        self.energycomp_enabled != 0
    }

    /// The diffuse term.
    pub fn diffuse_type(&self) -> (t: DiffuseType)
        ensures
            t == self.spec_diffuse_type(),
    {
        self.diffuse_type
    }

    /// Selects the diffuse term.
    pub fn set_diffuse_type(&mut self, diffuse_type: DiffuseType)
        ensures
            final(self).spec_diffuse_type() == diffuse_type,
            final(self).spec_clearcoat_enabled() == old(self).spec_clearcoat_enabled(),
            final(self).spec_direct_light_enabled() == old(self).spec_direct_light_enabled(),
            final(self).spec_ibl_enabled() == old(self).spec_ibl_enabled(),
            final(self).spec_energycomp_enabled() == old(self).spec_energycomp_enabled(),
            old(self).wf() ==> final(self).wf(),
    {
        self.diffuse_type = diffuse_type;
    }

    /// The words of the uniform block, as they are uploaded.
    pub fn to_words(&self) -> (words: [u32; 5])
        ensures
            words@ == self.spec_words(),
    {
        let words: [u32; 5] = [
            self.clearcoat_enabled,
            self.direct_light_enabled,
            self.ibl_enabled,
            self.diffuse_type.index(),
            self.energycomp_enabled,
        ];
        proof {
            assert(words@ =~= self.spec_words());
        }
        words
    }

    /// The uniform buffer binding of the block.
    pub fn binding() -> (b: u32)
        ensures
            b == crate::shader_constants::spec_consts().buffer_bindings.settings,
    {
        consts().buffer_bindings.settings
    }
}

} // verus!
