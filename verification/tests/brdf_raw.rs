use std::cell::Cell;

use pbr::brdf_raw::{
    check_merl_header, check_mit_header, merl_layout, mit_layout, BrdfRaw, BrdfType, DatasetLayout,
};
use pbr::error::{Error, FormatError, IoError};

fn bytes_of_words(words: &[i32]) -> Vec<u8> {
    words.iter().flat_map(|w| w.to_ne_bytes()).collect()
}

fn mit_header(d: [i32; 4], parametrization: i32, binning: i32, channels: i32) -> [i32; 16] {
    let mut header = [0i32; 16];
    header[0] = d[0];
    header[1] = d[1];
    header[2] = d[2];
    header[3] = d[3];
    header[6] = parametrization;
    header[7] = binning;
    header[10] = channels;
    header
}

#[test]
fn dataset_kinds_have_their_defines_and_bindings() {
    assert_eq!(BrdfType::Merl.to_str(), "MERL_BRDF");
    assert_eq!(BrdfType::Mit.to_str(), "MIT_BRDF");
    assert_eq!(BrdfType::Utia.to_str(), "UTIA_BRDF");
    assert_eq!(BrdfType::Merl.binding(), 10);
    assert_eq!(BrdfType::Mit.binding(), 11);
    assert_eq!(BrdfType::Utia.binding(), 12);
}

#[test]
fn merl_dimensions_must_multiply_to_the_sample_count() {
    assert_eq!(check_merl_header(90, 90, 180), Ok(()));
    assert_eq!(check_merl_header(180, 90, 90), Ok(()));
    assert_eq!(check_merl_header(1, 1, 1458000), Ok(()));
    assert_eq!(check_merl_header(-90, -90, 180), Ok(()));
    assert_eq!(check_merl_header(90, 90, 360), Err(FormatError::DimensionsMismatch));
    assert_eq!(check_merl_header(90, 90, 179), Err(FormatError::DimensionsMismatch));
    assert_eq!(check_merl_header(0, 0, 0), Err(FormatError::DimensionsMismatch));
    assert_eq!(check_merl_header(-90, 90, 180), Err(FormatError::DimensionsMismatch));
}

#[test]
fn merl_dimensions_are_multiplied_without_wrapping() {
    // 65536 * 65536 * 1 is a multiple of 2^32; in 32 bits it would be 0.
    assert_eq!(check_merl_header(65536, 65536, 1), Err(FormatError::DimensionsMismatch));
    assert_eq!(check_merl_header(i32::MAX, i32::MAX, i32::MAX), Err(FormatError::DimensionsMismatch));
    assert_eq!(check_merl_header(i32::MIN, i32::MIN, i32::MIN), Err(FormatError::DimensionsMismatch));
}

#[test]
fn merl_file_with_wrong_dimensions_is_a_format_error() {
    let bytes = bytes_of_words(&[90, 90, 360]);
    assert_eq!(
        DatasetLayout::merl_from_bytes(&bytes),
        Err(Error::Format(FormatError::DimensionsMismatch))
    );
    let mut long = bytes_of_words(&[2, 3, 4]);
    long.resize(34992012, 0);
    assert_eq!(
        DatasetLayout::merl_from_bytes(&long),
        Err(Error::Format(FormatError::DimensionsMismatch))
    );
}

#[test]
fn merl_file_that_ends_early_is_an_io_error() {
    assert_eq!(DatasetLayout::merl_from_bytes(&[]), Err(Error::Io(IoError::UnexpectedEof)));
    assert_eq!(DatasetLayout::merl_from_bytes(&[0; 11]), Err(Error::Io(IoError::UnexpectedEof)));
    let mut bytes = bytes_of_words(&[90, 90, 180]);
    assert_eq!(DatasetLayout::merl_from_bytes(&bytes), Err(Error::Io(IoError::UnexpectedEof)));
    bytes.resize(34992011, 0);
    assert_eq!(DatasetLayout::merl_from_bytes(&bytes), Err(Error::Io(IoError::UnexpectedEof)));
}

#[test]
fn merl_file_of_full_length_is_laid_out() {
    let mut bytes = bytes_of_words(&[90, 90, 180]);
    bytes.resize(34992012, 0);
    let expected = DatasetLayout { typ: BrdfType::Merl, offset: 12, samples: 4374000, sample_bytes: 8 };
    assert_eq!(DatasetLayout::merl_from_bytes(&bytes), Ok(expected));
    bytes.push(1);
    assert_eq!(DatasetLayout::merl_from_bytes(&bytes), Ok(expected));
    assert_eq!(merl_layout(&[90, 90, 180], 34992012), Ok(expected));
    assert_eq!(merl_layout(&[90, 90, 180], 34992011), Err(Error::Io(IoError::UnexpectedEof)));
    assert_eq!(merl_layout(&[90, 90, 181], 5), Err(Error::Io(IoError::UnexpectedEof)));
}

#[test]
fn mit_header_fields_are_checked_in_order() {
    assert_eq!(check_mit_header(&mit_header([2, 3, 4, 5], 1, 0, 3)), Ok(360));
    assert_eq!(
        check_mit_header(&mit_header([2, 3, 4, 5], 0, 0, 3)),
        Err(FormatError::ParametrizationNotStandard)
    );
    assert_eq!(
        check_mit_header(&mit_header([2, 3, 4, 5], 1, 1, 3)),
        Err(FormatError::BinningNotUniform)
    );
    assert_eq!(
        check_mit_header(&mit_header([2, 3, 4, 5], 1, 0, 4)),
        Err(FormatError::WrongChannelCount)
    );
    assert_eq!(
        check_mit_header(&mit_header([2, 3, 4, 5], 2, 7, 1)),
        Err(FormatError::ParametrizationNotStandard)
    );
    assert_eq!(
        check_mit_header(&mit_header([2, 3, 4, 5], 1, -1, 1)),
        Err(FormatError::BinningNotUniform)
    );
}

#[test]
fn mit_sample_count_must_fit() {
    assert_eq!(check_mit_header(&mit_header([0, 3, 4, 5], 1, 0, 3)), Ok(0));
    assert_eq!(check_mit_header(&mit_header([i32::MAX, i32::MAX, 0, 5], 1, 0, 3)), Ok(0));
    assert_eq!(check_mit_header(&mit_header([1, 1, 1, 1431655765], 1, 0, 3)), Ok(4294967295));
    assert_eq!(
        check_mit_header(&mit_header([1, 1, 1, 1431655766], 1, 0, 3)),
        Err(FormatError::SampleCountOutOfRange)
    );
    assert_eq!(
        check_mit_header(&mit_header([65536, 65536, 1, 1], 1, 0, 3)),
        Err(FormatError::SampleCountOutOfRange)
    );
    assert_eq!(
        check_mit_header(&mit_header([-2, 3, 4, 5], 1, 0, 3)),
        Err(FormatError::SampleCountOutOfRange)
    );
    assert_eq!(
        check_mit_header(&mit_header([2, 3, 4, -5], 1, 0, 3)),
        Err(FormatError::SampleCountOutOfRange)
    );
}

#[test]
fn mit_file_is_laid_out_behind_its_header() {
    let header = mit_header([2, 3, 4, 5], 1, 0, 3);
    let mut bytes = bytes_of_words(&header);
    assert_eq!(DatasetLayout::mit_from_bytes(&bytes), Err(Error::Io(IoError::UnexpectedEof)));
    bytes.resize(64 + 360 * 4 - 1, 0);
    assert_eq!(DatasetLayout::mit_from_bytes(&bytes), Err(Error::Io(IoError::UnexpectedEof)));
    bytes.push(0);
    let expected = DatasetLayout { typ: BrdfType::Mit, offset: 64, samples: 360, sample_bytes: 4 };
    assert_eq!(DatasetLayout::mit_from_bytes(&bytes), Ok(expected));
    assert_eq!(mit_layout(&header, 64 + 1440), Ok(expected));
    assert_eq!(DatasetLayout::mit_from_bytes(&[0; 63]), Err(Error::Io(IoError::UnexpectedEof)));
}

#[test]
fn mit_file_with_a_wrong_header_is_a_format_error() {
    let mut bytes = bytes_of_words(&mit_header([2, 3, 4, 5], 0, 0, 3));
    bytes.resize(64 + 1440, 0);
    assert_eq!(
        DatasetLayout::mit_from_bytes(&bytes),
        Err(Error::Format(FormatError::ParametrizationNotStandard))
    );
    let bytes = bytes_of_words(&mit_header([2, 3, 4, 5], 1, 5, 3));
    assert_eq!(
        DatasetLayout::mit_from_bytes(&bytes),
        Err(Error::Format(FormatError::BinningNotUniform))
    );
    let bytes = bytes_of_words(&mit_header([2, 3, 4, 5], 1, 0, 1));
    assert_eq!(
        DatasetLayout::mit_from_bytes(&bytes),
        Err(Error::Format(FormatError::WrongChannelCount))
    );
    let bytes = bytes_of_words(&mit_header([-1, 3, 4, 5], 1, 0, 3));
    assert_eq!(
        DatasetLayout::mit_from_bytes(&bytes),
        Err(Error::Format(FormatError::SampleCountOutOfRange))
    );
}

#[test]
fn utia_file_has_a_fixed_length() {
    let expected = DatasetLayout { typ: BrdfType::Utia, offset: 0, samples: 248832, sample_bytes: 8 };
    assert_eq!(3 * 6 * 48 * 6 * 48, 248832);
    assert_eq!(DatasetLayout::utia_from_bytes(&vec![0u8; 1990656]), Ok(expected));
    assert_eq!(DatasetLayout::utia_from_bytes(&vec![0u8; 1990657]), Ok(expected));
    assert_eq!(
        DatasetLayout::utia_from_bytes(&vec![0u8; 1990655]),
        Err(Error::Io(IoError::UnexpectedEof))
    );
    assert_eq!(DatasetLayout::utia_from_bytes(&[]), Err(Error::Io(IoError::UnexpectedEof)));
}

#[test]
fn a_dataset_is_projected_once_per_environment() {
    let runs = Cell::new(0u32);
    let mut brdf = BrdfRaw::new(BrdfType::Utia, 5);
    assert!(brdf.needs_projection(70));
    let first = brdf.ensure_projection(70, |typ, ssbo, cubemap, plan| {
        runs.set(runs.get() + 1);
        assert_eq!((typ, ssbo, cubemap, plan.size), (BrdfType::Utia, 5, 70, 64));
        Ok(100)
    });
    assert_eq!(first, Ok((100, None)));
    assert!(!brdf.needs_projection(70));
    let again = brdf.ensure_projection(70, |_, _, _, _| {
        runs.set(runs.get() + 1);
        Ok(101)
    });
    assert_eq!(again, Ok((100, None)));
    assert_eq!(runs.get(), 1);
    assert!(brdf.needs_projection(71));
    let other = brdf.ensure_projection(71, |_, _, _, _| {
        runs.set(runs.get() + 1);
        Ok(102)
    });
    assert_eq!(other, Ok((102, Some(100))));
    assert_eq!(runs.get(), 2);
    assert_eq!(brdf.ibl_texture, Some(102));
    assert!(brdf.needs_projection(70));
}

#[test]
fn a_failed_projection_changes_nothing() {
    let mut brdf = BrdfRaw::new(BrdfType::Merl, 1);
    let failed = brdf.ensure_projection(9, |_, _, _, _| Err(Error::Io(IoError::NotFound)));
    assert_eq!(failed, Err(Error::Io(IoError::NotFound)));
    assert_eq!(brdf, BrdfRaw::new(BrdfType::Merl, 1));
    assert_eq!(brdf.set_projection(9, 4), None);
    assert_eq!(brdf.set_projection(9, 5), Some(4));
    let failed = brdf.ensure_projection(10, |_, _, _, _| Err(Error::Io(IoError::Other)));
    assert_eq!(failed, Err(Error::Io(IoError::Other)));
    assert_eq!(brdf.ibl_texture, Some(5));
    assert!(!brdf.needs_projection(9));
}
