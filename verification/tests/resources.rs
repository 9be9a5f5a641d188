use pbr::brdf_raw::BrdfType;
use pbr::error::{Error, FormatError, IoError};
use pbr::resources::{file_stem, LazyResource, LoadResource};

#[derive(Debug, PartialEq)]
struct Counted {
    path_len: usize,
    uses: u32,
}

impl LoadResource for Counted {
    fn load(path: &str) -> Result<Self, Error> {
        if path.contains("missing") {
            Err(Error::Io(IoError::NotFound))
        } else {
            Ok(Counted { path_len: path.len(), uses: 0 })
        }
    }
}

#[test]
fn names_are_file_names_without_extension() {
    assert_eq!(file_stem("resources/gltf/helmet/DamagedHelmet.gltf"), "DamagedHelmet");
    assert_eq!(file_stem("resources\\IBL\\sky.hdr"), "sky");
    assert_eq!(file_stem("mixed\\dir/file.tar.gz"), "file.tar");
    assert_eq!(file_stem("a/b\\c.bin"), "b\\c");
    assert_eq!(file_stem("brdf.binary"), "brdf");
    assert_eq!(file_stem("noext"), "noext");
    assert_eq!(file_stem("dir/noext"), "noext");
    assert_eq!(file_stem("dir/"), "");
    assert_eq!(file_stem(""), "");
    assert_eq!(file_stem(".hidden"), "");
    assert_eq!(file_stem("dir/.hidden"), "");
    assert_eq!(file_stem("r\u{e9}sum\u{e9}/\u{fc}ber.hdr"), "\u{fc}ber");
}

#[test]
fn a_dot_in_a_directory_is_no_extension() {
    assert_eq!(file_stem("dir.v2/file"), "file");
    assert_eq!(file_stem("dir.v2\\file"), "file");
}

#[test]
fn dataset_kind_is_told_from_the_extension() {
    assert_eq!(BrdfType::from_path("resources/UTIA/data/m003_carpet01.bin"), Ok(BrdfType::Utia));
    assert_eq!(BrdfType::from_path("resources/BRDFDatabase/brdfs/gold.binary"), Ok(BrdfType::Merl));
    assert_eq!(BrdfType::from_path("x.y.dat"), Ok(BrdfType::Mit));
    assert_eq!(BrdfType::from_path(".bin"), Ok(BrdfType::Utia));
    assert_eq!(BrdfType::from_path("gold"), Err(FormatError::UnknownDatasetKind));
    assert_eq!(BrdfType::from_path("gold.BIN"), Err(FormatError::UnknownDatasetKind));
    assert_eq!(BrdfType::from_path("gold.bina"), Err(FormatError::UnknownDatasetKind));
    assert_eq!(BrdfType::from_path("gold.binary2"), Err(FormatError::UnknownDatasetKind));
    assert_eq!(BrdfType::from_path("gold."), Err(FormatError::UnknownDatasetKind));
    assert_eq!(BrdfType::from_path("dir.dat/gold"), Err(FormatError::UnknownDatasetKind));
    assert_eq!(BrdfType::from_path(""), Err(FormatError::UnknownDatasetKind));
}

#[test]
fn a_resource_is_loaded_on_first_use_only() {
    let mut lazy: LazyResource<Counted> = LazyResource::new(String::from("scenes/cube.glb"));
    assert!(!lazy.is_loaded());
    assert_eq!(lazy.name(), "cube");
    assert_eq!(lazy.path(), "scenes/cube.glb");
    {
        let res = lazy.load().unwrap();
        assert_eq!(*res, Counted { path_len: 15, uses: 0 });
        res.uses = 3;
    }
    assert!(lazy.is_loaded());
    assert_eq!(lazy.load().unwrap().uses, 3);
    lazy.unload();
    assert!(!lazy.is_loaded());
    assert_eq!(lazy.load().unwrap().uses, 0);
    assert_eq!(lazy.name(), "cube");
}

#[test]
fn a_failed_load_leaves_the_resource_unloaded() {
    let mut lazy: LazyResource<Counted> = LazyResource::new(String::from("missing.glb"));
    assert_eq!(lazy.load(), Err(Error::Io(IoError::NotFound)));
    assert!(!lazy.is_loaded());
    assert_eq!(lazy.load(), Err(Error::Io(IoError::NotFound)));
    lazy.unload();
    assert!(!lazy.is_loaded());
}

#[test]
fn what_the_loader_returned_is_stored_or_handed_on() {
    let mut lazy: LazyResource<Counted> = LazyResource::new(String::from("a.glb"));
    assert_eq!(lazy.store(Err(Error::Io(IoError::InvalidText))), Err(Error::Io(IoError::InvalidText)));
    assert!(!lazy.is_loaded());
    {
        let out = lazy.store(Ok(Counted { path_len: 77, uses: 1 })).unwrap();
        assert_eq!(*out, Counted { path_len: 77, uses: 1 });
        out.uses = 2;
    }
    assert!(lazy.is_loaded());
    assert_eq!(*lazy.load().unwrap(), Counted { path_len: 77, uses: 2 });
    assert_eq!(lazy.store(Err(Error::Io(IoError::Other))), Err(Error::Io(IoError::Other)));
    assert_eq!(lazy.load().unwrap().uses, 2);
    assert_eq!(lazy.path(), "a.glb");
}

#[test]
fn an_unloaded_resource_is_loaded_from_its_path() {
    let mut lazy: LazyResource<Counted> = LazyResource::new(String::from("dir/abcdef"));
    assert_eq!(*lazy.load().unwrap(), Counted { path_len: 10, uses: 0 });
    let mut other: LazyResource<Counted> = LazyResource::new(String::from("dir/missing"));
    assert_eq!(other.load(), Err(Error::Io(IoError::NotFound)));
}
