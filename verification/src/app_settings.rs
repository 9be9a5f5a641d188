//! What the user selects at run time.

use vstd::prelude::*;
use crate::brdf_raw::BrdfType;

verus! {

/// The diffuse term of the physically based path.
#[derive(Clone, Copy, Debug, PartialEq, Eq, Structural)]
pub enum DiffuseType {
    Lambert,
    Frostbite,
    CodWWII,
}

/// Where the material of a primitive comes from.
#[derive(Clone, Copy, Debug, PartialEq, Eq, Structural)]
pub enum MaterialSrc {
    Gltf,
    PbrOverride,
    MerlBrdf,
    MitBrdf,
    UtiaBrdf,
}

/// The camera that the user steers.
#[derive(Clone, Copy, Debug, PartialEq, Eq, Structural)]
pub enum CameraTyp {
    Flycam,
    Orbital,
}

impl DiffuseType {
    /// The number of the term in the uniform block of the shaders.
    pub open spec fn spec_index(self) -> u32 {
        match self {
            DiffuseType::Lambert => 0,
            DiffuseType::Frostbite => 1,
            DiffuseType::CodWWII => 2,
        }
    }

    /// The name shown to the user.
    pub fn to_str(self) -> (s: &'static str)
        ensures
            s@ == (match self {
                DiffuseType::Lambert => "Lambert"@,
                DiffuseType::Frostbite => "Frostbite"@,
                DiffuseType::CodWWII => "CoD: WWII"@,
            }),
    {
        match self {
            DiffuseType::Lambert => "Lambert",
            DiffuseType::Frostbite => "Frostbite",
            DiffuseType::CodWWII => "CoD: WWII",
        }
    }

    /// The number of the term in the uniform block of the shaders.
    pub fn index(self) -> (i: u32)
        ensures
            i == self.spec_index(),
    {
        match self {
            DiffuseType::Lambert => 0,
            DiffuseType::Frostbite => 1,
            DiffuseType::CodWWII => 2,
        }
    }
}

impl MaterialSrc {
    /// The dataset kind that the source reads, if it reads one.
    pub open spec fn spec_brdf_type(self) -> Option<BrdfType> {
        match self {
            MaterialSrc::MerlBrdf => Some(BrdfType::Merl),
            MaterialSrc::MitBrdf => Some(BrdfType::Mit),
            MaterialSrc::UtiaBrdf => Some(BrdfType::Utia),
            _ => None,
        }
    }

    /// The name shown to the user.
    pub fn to_str(self) -> (s: &'static str)
        ensures
            s@ == (match self {
                MaterialSrc::Gltf => "GLTF"@,
                MaterialSrc::PbrOverride => "Override material"@,
                MaterialSrc::MerlBrdf => "MERL BRDF database"@,
                MaterialSrc::MitBrdf => "MIT CSAIL database"@,
                MaterialSrc::UtiaBrdf => "UTIA BRDF database"@,
            }),
    {
        match self {
            MaterialSrc::Gltf => "GLTF",
            MaterialSrc::PbrOverride => "Override material",
            MaterialSrc::MerlBrdf => "MERL BRDF database",
            MaterialSrc::MitBrdf => "MIT CSAIL database",
            MaterialSrc::UtiaBrdf => "UTIA BRDF database",
        }
    }

    /// The dataset kind that the source reads: the data-driven shading path
    /// is taken exactly for the sources that have one.
    pub fn brdf_type(self) -> (t: Option<BrdfType>)
        ensures
            t == self.spec_brdf_type(),
    {
        match self {
            MaterialSrc::MerlBrdf => Some(BrdfType::Merl),
            MaterialSrc::MitBrdf => Some(BrdfType::Mit),
            MaterialSrc::UtiaBrdf => Some(BrdfType::Utia),
            _ => None,
        }
    }
}

} // verus!
