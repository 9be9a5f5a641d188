//! Tabulated reflectance datasets: their kinds, the layout checks of their
//! files, and the bookkeeping of their projection against an environment.

use vstd::prelude::*;
use vstd::slice::slice_subrange;
use crate::error::{Error, FormatError, IoError};
use crate::ibl::{is_measured_brdf_plan, measured_brdf_plan, MeasuredBrdfPlan};
use crate::shader_constants::consts;

verus! {

/// The three tabulation conventions.
#[derive(Clone, Copy, Debug, Hash, PartialEq, Eq, Structural)]
pub enum BrdfType {
    /// Isotropic measurements over half and difference angles.
    Merl,
    /// Anisotropic measurements in the standard parametrization.
    Mit,
    /// Anisotropic measurements on a fixed grid of directions.
    Utia,
}

/// Bytes of the header of a MERL file: three integers.
pub const MERL_HEADER_BYTES: usize = 12;

/// Samples per colour channel of a MERL file: ninety by ninety
/// by three hundred and sixty, halved.
pub const MERL_SAMPLES: usize = 1458000;

/// Bytes of the header of an MIT file: sixteen integers.
pub const MIT_HEADER_BYTES: usize = 64;

/// Numbers in a UTIA file: three planes of six by forty-eight
/// incoming and six by forty-eight outgoing directions.
pub const UTIA_SAMPLES: usize = 248832;

/// Colour channels of every format.
pub const CHANNELS: usize = 3;

impl BrdfType {
    /// The define that selects the kind in the shaders.
    pub open spec fn spec_define(self) -> &'static str {
        match self {
            BrdfType::Merl => "MERL_BRDF",
            BrdfType::Mit => "MIT_BRDF",
            BrdfType::Utia => "UTIA_BRDF",
        }
    }

    /// The define that selects the kind in the shaders, as text.
    pub open spec fn spec_to_str(self) -> Seq<char> {
        self.spec_define()@
    }

    /// No two kinds share a define.
    pub proof fn lemma_defines_distinct()
        ensures
            forall|a: BrdfType, b: BrdfType| a != b ==> a.spec_define() != b.spec_define(),
    {
        reveal_strlit("MERL_BRDF");
        reveal_strlit("MIT_BRDF");
        reveal_strlit("UTIA_BRDF");
        assert(BrdfType::Merl.spec_define()@.len() == 9 && BrdfType::Merl.spec_define()@[0] == 'M');
        assert(BrdfType::Mit.spec_define()@.len() == 8);
        assert(BrdfType::Utia.spec_define()@.len() == 9 && BrdfType::Utia.spec_define()@[0] == 'U');
    }

    /// The storage buffer binding of the kind.
    pub open spec fn spec_binding(self) -> u32 {
        match self {
            BrdfType::Merl => 10,
            BrdfType::Mit => 11,
            BrdfType::Utia => 12,
        }
    }

    /// The define that selects the kind in the shaders.
    pub fn to_str(self) -> (s: &'static str)
        ensures
            s == self.spec_define(),
            s@ == self.spec_to_str(),
    {
        match self {
            BrdfType::Merl => "MERL_BRDF",
            BrdfType::Mit => "MIT_BRDF",
            BrdfType::Utia => "UTIA_BRDF",
        }
    }

    /// The storage buffer binding at which the shaders of this kind read
    /// the samples.
    pub fn binding(self) -> (b: u32)
        ensures
            b == self.spec_binding(),
            b == (match self {
                BrdfType::Merl => crate::shader_constants::spec_consts().buffer_bindings.brdf_merl,
                BrdfType::Mit => crate::shader_constants::spec_consts().buffer_bindings.brdf_mit,
                BrdfType::Utia => crate::shader_constants::spec_consts().buffer_bindings.brdf_utia,
            }),
    {
        let bindings = consts().buffer_bindings;
        match self {
            BrdfType::Merl => bindings.brdf_merl,
            BrdfType::Mit => bindings.brdf_mit,
            BrdfType::Utia => bindings.brdf_utia,
        }
    }
}

/// Where the samples of a dataset lie in its file.
#[derive(Clone, Copy, Debug, PartialEq, Eq, Structural)]
pub struct DatasetLayout {
    /// The tabulation convention.
    pub typ: BrdfType,
    /// Offset of the first sample, which is the length of the header.
    pub offset: usize,
    /// Number of floating-point samples, all channels together.
    pub samples: usize,
    /// Bytes of one sample: eight for double, four for single precision.
    pub sample_bytes: usize,
}

impl DatasetLayout {
    /// Bytes that the samples take.
    pub open spec fn payload_bytes(self) -> int {
        self.samples * self.sample_bytes
    }

    /// Offset of the first byte after the samples.
    pub open spec fn end(self) -> int {
        self.offset + self.payload_bytes()
    }
}

/// The 32-bit signed integer that four bytes encode, the first of them being
/// the least significant.
pub open spec fn word_of(b0: u8, b1: u8, b2: u8, b3: u8) -> int {
    let unsigned = b0 + 256 * b1 + 65536 * b2 + 16777216 * b3;
    if unsigned >= 0x8000_0000 {
        unsigned - 0x1_0000_0000
    } else {
        unsigned
    }
}

/// The integers that a run of bytes holds, four bytes each, in one of the
/// two byte orders.
pub open spec fn words_in_order(bytes: Seq<u8>, big_endian: bool) -> Seq<i32> {
    Seq::new(
        (bytes.len() / 4) as nat,
        |i: int|
            if big_endian {
                word_of(bytes[4 * i + 3], bytes[4 * i + 2], bytes[4 * i + 1], bytes[4 * i]) as i32
            } else {
                word_of(bytes[4 * i], bytes[4 * i + 1], bytes[4 * i + 2], bytes[4 * i + 3]) as i32
            },
    )
}

/// Reads a run of bytes as 32-bit integers the way the dataset files are
/// written, which is the byte order of the machine.
///
/// Trusted: `bytemuck::pod_collect_to_vec` copies the bytes into a fresh
/// vector of integers. The contract claims that there is one integer per four
/// bytes and that all of them are read in the same one of the two byte orders.
#[verifier::external_body]
fn words_of_bytes(bytes: &[u8]) -> (words: Vec<i32>)
    requires
        bytes@.len() % 4 == 0,
    ensures
        words@ == words_in_order(bytes@, false) || words@ == words_in_order(bytes@, true),
{
    bytemuck::pod_collect_to_vec(bytes)
}

/// What the check of the three dimensions of a MERL header returns.
pub open spec fn spec_check_merl(d0: int, d1: int, d2: int) -> Result<(), FormatError> {
    if d0 * d1 * d2 == MERL_SAMPLES {
        Ok(())
    } else {
        Err(FormatError::DimensionsMismatch)
    }
}

/// Checks the header of a MERL file: the three dimensions must
/// multiply to the sample count of the format.
pub fn check_merl_header(d0: i32, d1: i32, d2: i32) -> (r: Result<(), FormatError>)
    ensures
        r == spec_check_merl(d0 as int, d1 as int, d2 as int),
{
    let a: i128 = d0 as i128;
    let b: i128 = d1 as i128;
    let c: i128 = d2 as i128;
    assert(-0x4000_0000_0000_0000 <= a * b <= 0x4000_0000_0000_0000) by (nonlinear_arith)
        requires
            -0x8000_0000 <= a <= 0x8000_0000,
            -0x8000_0000 <= b <= 0x8000_0000,
    ;
    let ab: i128 = a * b;
    assert(-0x2000_0000_0000_0000_0000_0000 <= ab * c <= 0x2000_0000_0000_0000_0000_0000)
        by (nonlinear_arith)
        requires
            -0x4000_0000_0000_0000 <= ab <= 0x4000_0000_0000_0000,
            -0x8000_0000 <= c <= 0x8000_0000,
    ;
    let samples: i128 = ab * c;
    if samples == 1458000 {
        Ok(())
    } else {
        Err(FormatError::DimensionsMismatch)
    }
}

/// Whether the four dimensions of an MIT header give a sample
/// count that can be held: none is negative, and three channels of their
/// product fit in 32 bits.
pub open spec fn mit_count_in_range(header: Seq<i32>) -> bool {
    &&& header[0] >= 0
    &&& header[1] >= 0
    &&& header[2] >= 0
    &&& header[3] >= 0
    &&& CHANNELS * (header[0] * header[1] * header[2] * header[3]) <= u32::MAX
}

/// What the check of an MIT header returns: the number of
/// samples, all channels together, or the first rule that the header breaks.
pub open spec fn spec_check_mit(header: Seq<i32>) -> Result<usize, FormatError> {
    if header[6] != 1 {
        Err(FormatError::ParametrizationNotStandard)
    } else if header[7] != 0 {
        Err(FormatError::BinningNotUniform)
    } else if header[10] != 3 {
        Err(FormatError::WrongChannelCount)
    } else if !mit_count_in_range(header) {
        Err(FormatError::SampleCountOutOfRange)
    } else {
        Ok((CHANNELS * (header[0] * header[1] * header[2] * header[3])) as usize)
    }
}

/// Checks the sixteen integers of an MIT header: field 6 must
/// be 1 (standard parametrization), field 7 must be 0 (uniform binning) and
/// field 10 must be 3 (channels). Returns the number of samples, which is the
/// channel count times the product of the first four fields.
pub fn check_mit_header(header: &[i32]) -> (r: Result<usize, FormatError>)
    requires
        header@.len() == 16,
    ensures
        r == spec_check_mit(header@),
{
    if header[6] != 1 {
        return Err(FormatError::ParametrizationNotStandard);
    }
    if header[7] != 0 {
        return Err(FormatError::BinningNotUniform);
    }
    if header[10] != 3 {
        return Err(FormatError::WrongChannelCount);
    }
    if header[0] < 0 || header[1] < 0 || header[2] < 0 || header[3] < 0 {
        return Err(FormatError::SampleCountOutOfRange);
    }
    let d0: i128 = header[0] as i128;
    let d1: i128 = header[1] as i128;
    let d2: i128 = header[2] as i128;
    let d3: i128 = header[3] as i128;
    assert(0 <= d0 * d1 <= 0x4000_0000_0000_0000) by (nonlinear_arith)
        requires
            0 <= d0 <= 0x8000_0000,
            0 <= d1 <= 0x8000_0000,
    ;
    let d01: i128 = d0 * d1;
    assert(0 <= d01 * d2 <= 0x2000_0000_0000_0000_0000_0000) by (nonlinear_arith)
        requires
            0 <= d01 <= 0x4000_0000_0000_0000,
            0 <= d2 <= 0x8000_0000,
    ;
    let d012: i128 = d01 * d2;
    assert(0 <= d012 * d3 <= 0x1000_0000_0000_0000_0000_0000_0000_0000) by (nonlinear_arith)
        requires
            0 <= d012 <= 0x2000_0000_0000_0000_0000_0000,
            0 <= d3 <= 0x8000_0000,
    ;
    let product: i128 = d012 * d3;
    let samples: i128 = 3 * product;
    if samples > 0xFFFF_FFFF {
        return Err(FormatError::SampleCountOutOfRange);
    }
    Ok(samples as usize)
}

/// What the layout check of a MERL file returns for a header
/// read as `dims` and a file of `len` bytes.
pub open spec fn spec_merl_layout(dims: Seq<i32>, len: int) -> Result<DatasetLayout, Error> {
    if len < MERL_HEADER_BYTES {
        Err(Error::Io(IoError::UnexpectedEof))
    } else if spec_check_merl(dims[0] as int, dims[1] as int, dims[2] as int) is Err {
        Err(Error::Format(FormatError::DimensionsMismatch))
    } else if len < MERL_HEADER_BYTES + CHANNELS * MERL_SAMPLES * 8 {
        Err(Error::Io(IoError::UnexpectedEof))
    } else {
        Ok(
            DatasetLayout {
                typ: BrdfType::Merl,
                offset: MERL_HEADER_BYTES,
                samples: (CHANNELS * MERL_SAMPLES) as usize,
                sample_bytes: 8,
            },
        )
    }
}

/// What the layout check of an MIT file returns for a header
/// read as `header` and a file of `len` bytes.
pub open spec fn spec_mit_layout(header: Seq<i32>, len: int) -> Result<DatasetLayout, Error> {
    if len < MIT_HEADER_BYTES {
        Err(Error::Io(IoError::UnexpectedEof))
    } else {
        match spec_check_mit(header) {
            Err(e) => Err(Error::Format(e)),
            Ok(samples) => if len < MIT_HEADER_BYTES + samples * 4 {
                Err(Error::Io(IoError::UnexpectedEof))
            } else {
                Ok(
                    DatasetLayout {
                        typ: BrdfType::Mit,
                        offset: MIT_HEADER_BYTES,
                        samples,
                        sample_bytes: 4,
                    },
                )
            },
        }
    }
}

/// What the layout check of a UTIA file returns for a file of
/// `len` bytes.
pub open spec fn spec_utia_layout(len: int) -> Result<DatasetLayout, Error> {
    if len < UTIA_SAMPLES * 8 {
        Err(Error::Io(IoError::UnexpectedEof))
    } else {
        Ok(DatasetLayout { typ: BrdfType::Utia, offset: 0, samples: UTIA_SAMPLES, sample_bytes: 8 })
    }
}

/// Lays out a MERL file from the header as it was read and the
/// length of the file. The header is checked before the length of the
/// samples, so that a wrong header is reported as such.
pub fn merl_layout(dims: &[i32], len: usize) -> (r: Result<DatasetLayout, Error>)
    requires
        dims@.len() == 3,
    ensures
        r == spec_merl_layout(dims@, len as int),
        r matches Ok(layout) ==> layout.end() <= len,
{
    if len < MERL_HEADER_BYTES {
        return Err(Error::Io(IoError::UnexpectedEof));
    }
    match check_merl_header(dims[0], dims[1], dims[2]) {
        Err(e) => Err(Error::Format(e)),
        Ok(()) => {
            if len < 34992012 {
                Err(Error::Io(IoError::UnexpectedEof))
            } else {
                Ok(
                    DatasetLayout {
                        typ: BrdfType::Merl,
                        offset: MERL_HEADER_BYTES,
                        samples: 4374000,
                        sample_bytes: 8,
                    },
                )
            }
        },
    }
}

/// Lays out an MIT file from the header as it was read and
/// the length of the file.
pub fn mit_layout(header: &[i32], len: usize) -> (r: Result<DatasetLayout, Error>)
    requires
        header@.len() == 16,
    ensures
        r == spec_mit_layout(header@, len as int),
        r matches Ok(layout) ==> layout.end() <= len,
{
    if len < MIT_HEADER_BYTES {
        return Err(Error::Io(IoError::UnexpectedEof));
    }
    match check_mit_header(header) {
        Err(e) => Err(Error::Format(e)),
        Ok(samples) => {
            let need: u64 = 64 + (samples as u64) * 4;
            if (len as u64) < need {
                Err(Error::Io(IoError::UnexpectedEof))
            } else {
                Ok(
                    DatasetLayout {
                        typ: BrdfType::Mit,
                        offset: MIT_HEADER_BYTES,
                        samples,
                        sample_bytes: 4,
                    },
                )
            }
        },
    }
}

impl DatasetLayout {
    /// Checks a MERL file: three 32-bit integers, then three
    /// arrays of double-precision samples, one per colour channel. A header
    /// whose dimensions do not multiply to the sample count of the format is
    /// a format error; a file that ends early is an I/O error.
    pub fn merl_from_bytes(bytes: &[u8]) -> (r: Result<DatasetLayout, Error>)
        ensures
            bytes@.len() < MERL_HEADER_BYTES ==> r == Err::<DatasetLayout, Error>(
                Error::Io(IoError::UnexpectedEof),
            ),
            bytes@.len() >= MERL_HEADER_BYTES ==> exists|big_endian: bool|
                r == spec_merl_layout(
                    #[trigger] words_in_order(
                        bytes@.subrange(0, MERL_HEADER_BYTES as int),
                        big_endian,
                    ),
                    bytes@.len() as int,
                ),
            r matches Ok(layout) ==> layout.end() <= bytes@.len(),
    {
        if bytes.len() < MERL_HEADER_BYTES {
            return Err(Error::Io(IoError::UnexpectedEof));
        }
        let dims = words_of_bytes(slice_subrange(bytes, 0, MERL_HEADER_BYTES));
        merl_layout(dims.as_slice(), bytes.len())
    }

    /// Checks an MIT file: sixteen 32-bit integers, then the
    /// single-precision samples. Fields 6, 7 and 10 of the header must be 1,
    /// 0 and 3, or the file is rejected with a format error.
    pub fn mit_from_bytes(bytes: &[u8]) -> (r: Result<DatasetLayout, Error>)
        ensures
            bytes@.len() < MIT_HEADER_BYTES ==> r == Err::<DatasetLayout, Error>(
                Error::Io(IoError::UnexpectedEof),
            ),
            bytes@.len() >= MIT_HEADER_BYTES ==> exists|big_endian: bool|
                r == spec_mit_layout(
                    #[trigger] words_in_order(
                        bytes@.subrange(0, MIT_HEADER_BYTES as int),
                        big_endian,
                    ),
                    bytes@.len() as int,
                ),
            r matches Ok(layout) ==> layout.end() <= bytes@.len(),
    {
        if bytes.len() < MIT_HEADER_BYTES {
            return Err(Error::Io(IoError::UnexpectedEof));
        }
        let header = words_of_bytes(slice_subrange(bytes, 0, MIT_HEADER_BYTES));
        mit_layout(header.as_slice(), bytes.len())
    }

    /// Checks a UTIA file, which has no header: a fixed number
    /// of double-precision samples.
    pub fn utia_from_bytes(bytes: &[u8]) -> (r: Result<DatasetLayout, Error>)
        ensures
            r == spec_utia_layout(bytes@.len() as int),
            r matches Ok(layout) ==> layout.end() <= bytes@.len(),
    {
        if bytes.len() < 1990656 {
            Err(Error::Io(IoError::UnexpectedEof))
        } else {
            Ok(
                DatasetLayout {
                    typ: BrdfType::Utia,
                    offset: 0,
                    samples: UTIA_SAMPLES,
                    sample_bytes: 8,
                },
            )
        }
    }
}

/// A MERL file is rejected with a format error whenever its
/// three dimensions multiply to anything but the sample count of the format,
/// however long the file is.
pub proof fn lemma_merl_rejects_wrong_dimensions(dims: Seq<i32>, len: int)
    requires
        dims.len() == 3,
        len >= MERL_HEADER_BYTES,
        dims[0] * dims[1] * dims[2] != 90 * 90 * 360 / 2,
    ensures
        spec_merl_layout(dims, len) == Err::<DatasetLayout, Error>(
            Error::Format(FormatError::DimensionsMismatch),
        ),
{
}

/// An MIT file is rejected with a format error whenever field
/// 6 of its header is not 1, field 7 is not 0 or field 10 is not 3, and is
/// accepted only if all three hold.
pub proof fn lemma_mit_rejects_wrong_header(header: Seq<i32>, len: int)
    requires
        header.len() == 16,
        len >= MIT_HEADER_BYTES,
    ensures
        (header[6] != 1 || header[7] != 0 || header[10] != 3) ==> (spec_mit_layout(header, len)
            matches Err(Error::Format(_))),
        spec_mit_layout(header, len) is Ok ==> header[6] == 1 && header[7] == 0 && header[10] == 3,
        header[6] != 1 ==> spec_mit_layout(header, len) == Err::<DatasetLayout, Error>(
            Error::Format(FormatError::ParametrizationNotStandard),
        ),
        header[6] == 1 && header[7] != 0 ==> spec_mit_layout(header, len) == Err::<
            DatasetLayout,
            Error,
        >(Error::Format(FormatError::BinningNotUniform)),
        header[6] == 1 && header[7] == 0 && header[10] != 3 ==> spec_mit_layout(header, len)
            == Err::<DatasetLayout, Error>(Error::Format(FormatError::WrongChannelCount)),
{
}

/// A dataset on the GPU, with the map of its projection against an
/// environment once that has been computed.
#[derive(Clone, Copy, Debug, PartialEq, Eq, Structural)]
pub struct BrdfRaw {
    /// The tabulation convention.
    pub typ: BrdfType,
    /// The storage buffer that holds the samples.
    pub ssbo: u32,
    /// The reflectance cubemap of the projection, if it was computed.
    pub ibl_texture: Option<u32>,
    /// The environment cubemap that the projection was computed against.
    pub ibl_source: Option<u32>,
}

impl BrdfRaw {
    /// A dataset that was uploaded to `ssbo` and has no projection yet.
    pub fn new(typ: BrdfType, ssbo: u32) -> (brdf: BrdfRaw)
        ensures
            brdf == (BrdfRaw { typ, ssbo, ibl_texture: None, ibl_source: None }),
    {
        BrdfRaw { typ, ssbo, ibl_texture: None, ibl_source: None }
    }

    /// Whether a projection against `cubemap` is at hand.
    pub open spec fn projected_against(self, cubemap: u32) -> bool {
        self.ibl_texture is Some && self.ibl_source == Some(cubemap)
    }

    /// Whether the dataset has to be projected before it is drawn with the
    /// environment `cubemap`: it has no projection, or one against another
    /// environment.
    pub fn needs_projection(&self, cubemap: u32) -> (needed: bool)
        ensures
            needed == !self.projected_against(cubemap),
    {
        match (self.ibl_texture, self.ibl_source) {
            (Some(_), Some(source)) => source != cubemap,
            _ => true,
        }
    }

    /// Sees to it that the dataset is projected against the environment
    /// `cubemap`. If a projection against `cubemap` is at hand, its map is
    /// returned and `project` is not called. Otherwise `project` computes
    /// the map from the kind, the storage buffer, the cubemap and the plan of
    /// the projection; the map is recorded and returned, together with the
    /// map that it replaces, for the caller to release. A failed projection
    /// is reported and changes nothing.
    pub fn ensure_projection<
        F: FnOnce(BrdfType, u32, u32, MeasuredBrdfPlan) -> Result<u32, Error>,
    >(&mut self, cubemap: u32, project: F) -> (r: Result<(u32, Option<u32>), Error>)
        requires
            forall|typ: BrdfType, ssbo: u32, source: u32, plan: MeasuredBrdfPlan|
                call_requires(project, (typ, ssbo, source, plan)),
        ensures
            old(self).projected_against(cubemap) ==> *final(self) == *old(self) && r == Ok::<
                (u32, Option<u32>),
                Error,
            >((old(self).ibl_texture.unwrap(), None)),
            !old(self).projected_against(cubemap) ==> exists|
                plan: MeasuredBrdfPlan,
                projected: Result<u32, Error>,
            |
                is_measured_brdf_plan(plan) && call_ensures(
                    project,
                    (old(self).typ, old(self).ssbo, cubemap, plan),
                    projected,
                ) && match projected {
                    Err(e) => *final(self) == *old(self) && r == Err::<(u32, Option<u32>), Error>(
                        e,
                    ),
                    Ok(texture) => *final(self) == (BrdfRaw {
                        typ: old(self).typ,
                        ssbo: old(self).ssbo,
                        ibl_texture: Some(texture),
                        ibl_source: Some(cubemap),
                    }) && r == Ok::<(u32, Option<u32>), Error>((texture, old(self).ibl_texture)),
                },
            r is Ok ==> final(self).projected_against(cubemap),
    {
        if !self.needs_projection(cubemap) {
            match self.ibl_texture {
                Some(texture) => {
                    return Ok((texture, None));
                },
                None => {},
            }
        }
        let plan = measured_brdf_plan();
        let ghost mp = plan;
        let projected = project(self.typ, self.ssbo, cubemap, plan);
        proof {
            assert(is_measured_brdf_plan(mp) && call_ensures(
                project,
                (self.typ, self.ssbo, cubemap, mp),
                projected,
            ));
        }
        match projected {
            Err(e) => Err(e),
            Ok(texture) => {
                let stale = self.set_projection(cubemap, texture);
                Ok((texture, stale))
            },
        }
    }

    /// Records the projection `texture` that was computed against `cubemap`
    /// and hands back the map that it replaces, for the caller to release.
    pub fn set_projection(&mut self, cubemap: u32, texture: u32) -> (stale: Option<u32>)
        ensures
            stale == old(self).ibl_texture,
            *final(self) == (BrdfRaw {
                typ: old(self).typ,
                ssbo: old(self).ssbo,
                ibl_texture: Some(texture),
                ibl_source: Some(cubemap),
            }),
            final(self).projected_against(cubemap),
            forall|other: u32| other != cubemap ==> !final(self).projected_against(other),
    {
        let stale = self.ibl_texture;
        self.ibl_texture = Some(texture);
        self.ibl_source = Some(cubemap);
        stale
    }
}

} // verus!
