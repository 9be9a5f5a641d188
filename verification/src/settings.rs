//! Runtime switches of the shaders, in the layout of their uniform block.

use vstd::prelude::*;

verus! {

/// Runtime shader settings. A boolean of the uniform block takes four
/// bytes, so every switch is a 32-bit word that is 0 or 1.
#[derive(Clone, Copy, Debug, PartialEq, Eq, Structural)]
pub struct Settings {
    clearcoat_enabled: u32,
    direct_light_enabled: u32,
    ibl_enabled: u32,
}

/// The word that stands for a switch.
pub open spec fn word_of_flag(flag: bool) -> u32 {
    if flag {
        1
    } else {
        0
    }
}

impl Settings {
    /// Every switch is 0 or 1.
    pub closed spec fn wf(self) -> bool {
        self.clearcoat_enabled <= 1 && self.direct_light_enabled <= 1 && self.ibl_enabled <= 1
    }

    /// Whether the clearcoat layer is shaded.
    pub closed spec fn spec_clearcoat_enabled(self) -> bool {
        self.clearcoat_enabled != 0
    }

    /// Whether the analytic lights are shaded.
    pub closed spec fn spec_direct_light_enabled(self) -> bool {
        self.direct_light_enabled != 0
    }

    /// Whether the environment lighting is shaded.
    pub closed spec fn spec_ibl_enabled(self) -> bool {
        self.ibl_enabled != 0
    }

    /// The words of the uniform block, in order.
    pub closed spec fn spec_words(self) -> Seq<u32> {
        seq![self.clearcoat_enabled, self.direct_light_enabled, self.ibl_enabled]
    }

    /// A well-formed block is the words of its switches.
    pub proof fn lemma_words(self)
        requires
            self.wf(),
        ensures
            self.spec_words() == seq![
                word_of_flag(self.spec_clearcoat_enabled()),
                word_of_flag(self.spec_direct_light_enabled()),
                word_of_flag(self.spec_ibl_enabled()),
            ],
    {
    }

    /// Everything switched on.
    pub fn new() -> (s: Self)
        ensures
            s.wf(),
            s.spec_clearcoat_enabled(),
            s.spec_direct_light_enabled(),
            s.spec_ibl_enabled(),
    {
        Self { clearcoat_enabled: 1, direct_light_enabled: 1, ibl_enabled: 1 }
    }

    pub fn set_clearcoat_enabled(&mut self, clearcoat_enabled: bool)
        ensures
            final(self).spec_clearcoat_enabled() == clearcoat_enabled,
            final(self).spec_direct_light_enabled() == old(self).spec_direct_light_enabled(),
            final(self).spec_ibl_enabled() == old(self).spec_ibl_enabled(),
            old(self).wf() ==> final(self).wf(),
    {
        self.clearcoat_enabled = if clearcoat_enabled {
            1
        } else {
            0
        };
    }

    pub fn set_direct_light_enabled(&mut self, direct_light_enabled: bool)
        ensures
            final(self).spec_direct_light_enabled() == direct_light_enabled,
            final(self).spec_clearcoat_enabled() == old(self).spec_clearcoat_enabled(),
            final(self).spec_ibl_enabled() == old(self).spec_ibl_enabled(),
            old(self).wf() ==> final(self).wf(),
    {
        self.direct_light_enabled = if direct_light_enabled {
            1
        } else {
            0
        };
    }

    pub fn set_ibl_enabled(&mut self, ibl_enabled: bool)
        ensures
            final(self).spec_ibl_enabled() == ibl_enabled,
            final(self).spec_clearcoat_enabled() == old(self).spec_clearcoat_enabled(),
            final(self).spec_direct_light_enabled() == old(self).spec_direct_light_enabled(),
            old(self).wf() ==> final(self).wf(),
    {
        self.ibl_enabled = if ibl_enabled {
            1
        } else {
            0
        };
    }

    pub fn clearcoat_enabled(&self) -> (on: bool)
        ensures
            on == self.spec_clearcoat_enabled(),
    {
        self.clearcoat_enabled != 0
    }

    pub fn direct_light_enabled(&self) -> (on: bool)
        ensures
            on == self.spec_direct_light_enabled(),
    {
        self.direct_light_enabled != 0
    }

    pub fn ibl_enabled(&self) -> (on: bool)
        ensures
            on == self.spec_ibl_enabled(),
    {
        self.ibl_enabled != 0
    }

    /// The words of the uniform block, as they are uploaded.
    pub fn to_words(&self) -> (words: [u32; 3])
        ensures
            words@ == self.spec_words(),
    {
        let words: [u32; 3] = [self.clearcoat_enabled, self.direct_light_enabled, self.ibl_enabled];
        proof {
            assert(words@ =~= self.spec_words());
        }
        words
    }
}

} // verus!
