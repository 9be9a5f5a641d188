//! The errors that the library reports. All of them are handed to the
//! caller; no operation of the library aborts on bad input.

use vstd::prelude::*;

verus! {

/// A file that could not be read as asked.
#[derive(Clone, Copy, Debug, PartialEq, Eq, Structural)]
pub enum IoError {
    /// The file does not exist.
    NotFound,
    /// The file ends before the data that its format announces.
    UnexpectedEof,
    /// The file is not decodable text.
    InvalidText,
    /// Any other failure of the file system.
    Other,
}

/// Data that does not have the form that its format prescribes.
#[derive(Clone, Copy, Debug, PartialEq, Eq, Structural)]
pub enum FormatError {
    /// The three dimensions of a dataset header do not multiply to the
    /// sample count of the format.
    DimensionsMismatch,
    /// A dataset header announces a parametrization other than the standard.
    ParametrizationNotStandard,
    /// A dataset header announces a binning other than the uniform.
    BinningNotUniform,
    /// A dataset header announces a channel count other than three.
    WrongChannelCount,
    /// A dimension of a dataset header is negative, or the sample count does
    /// not fit in 32 bits.
    SampleCountOutOfRange,
    /// A dataset file has no extension from which its kind can be told.
    UnknownDatasetKind,
    /// A shader source lacks the line at which the defines are inserted.
    MissingDefinesSentinel,
    /// An import directive names no path.
    InvalidImportPath,
    /// An import directive names a file that does not exist.
    MissingImportTarget,
    /// The imports of a source include more files than are allowed, as
    /// files that import one another do.
    TooManyImports,
}

/// Everything that can go wrong in the library or is reported through it.
#[derive(Clone, Debug, PartialEq, Eq)]
pub enum Error {
    /// A file is missing or unreadable.
    Io(IoError),
    /// A header or a template failed validation.
    Format(FormatError),
    /// A shader stage failed to compile: the driver's log and the defines
    /// of the variant, which suffice to reproduce the failure.
    Compile { log: String, defines: Vec<&'static str> },
    /// A program failed to link: the driver's log.
    Link { log: String },
}

impl FormatError {
    /// A one-line description of the error.
    pub fn message(self) -> (m: &'static str)
        ensures
            m@ == (match self {
                FormatError::DimensionsMismatch => "Dimensions don't match"@,
                FormatError::ParametrizationNotStandard => "Parametrization is not standard"@,
                FormatError::BinningNotUniform => "Binning is not uniform"@,
                FormatError::WrongChannelCount => "Wrong number of channels"@,
                FormatError::SampleCountOutOfRange => "Sample count is out of range"@,
                FormatError::UnknownDatasetKind
                    => "BRDF file has no extension name, cannot infer type"@,
                FormatError::MissingDefinesSentinel
                    => "Couldn't find //#defines in shader source"@,
                FormatError::InvalidImportPath => "invalid #import path"@,
                FormatError::MissingImportTarget => "Couldn't load the import file"@,
                FormatError::TooManyImports => "too many #import files"@,
            }),
    {
        match self {
            FormatError::DimensionsMismatch => "Dimensions don't match",
            FormatError::ParametrizationNotStandard => "Parametrization is not standard",
            FormatError::BinningNotUniform => "Binning is not uniform",
            FormatError::WrongChannelCount => "Wrong number of channels",
            FormatError::SampleCountOutOfRange => "Sample count is out of range",
            FormatError::UnknownDatasetKind => "BRDF file has no extension name, cannot infer type",
            FormatError::MissingDefinesSentinel => "Couldn't find //#defines in shader source",
            FormatError::InvalidImportPath => "invalid #import path",
            FormatError::MissingImportTarget => "Couldn't load the import file",
            FormatError::TooManyImports => "too many #import files",
        }
    }
}

} // verus!
