//! Resources that are loaded when they are first asked for.

use vstd::prelude::*;
use vstd::string::StrSliceExecFns;
use crate::brdf_raw::BrdfType;
use crate::error::{Error, FormatError};

verus! {

/// Something that can be loaded from a path.
pub trait LoadResource: Sized {
    /// Loads the resource. Nothing is promised of the outcome: it depends on
    /// what is on disk and on the GPU.
    fn load(path: &str) -> Result<Self, Error>;
}

/// A resource that is loaded on first use and can be unloaded again.
/// Loading a scene or baking an environment takes long, so nothing is
/// loaded before it is selected.
pub struct LazyResource<T: LoadResource> {
    path: String,
    resource: Option<T>,
}

/// Offset of the last `c` in `s`, if `c` occurs.
pub open spec fn spec_rfind(s: Seq<char>, c: char) -> Option<int>
    decreases s.len(),
{
    if s.len() == 0 {
        None
    } else if s.last() == c {
        Some(s.len() - 1)
    } else {
        spec_rfind(s.drop_last(), c)
    }
}

/// Offset at which the file name of a path starts: after the last slash,
/// else after the last backslash, else at the start.
pub open spec fn name_start(path: Seq<char>) -> int {
    match spec_rfind(path, '/') {
        Some(i) => i + 1,
        None => match spec_rfind(path, '\\') {
            Some(i) => i + 1,
            None => 0,
        },
    }
}

/// Offset at which the file name of a path ends: at the last dot if that
/// lies in the file name, else at the end of the path.
pub open spec fn name_end(path: Seq<char>) -> int {
    match spec_rfind(path, '.') {
        Some(i) => if i >= name_start(path) {
            i
        } else {
            path.len() as int
        },
        None => path.len() as int,
    }
}

/// The file name of a path without its extension.
pub open spec fn spec_name(path: Seq<char>) -> Seq<char> {
    path.subrange(name_start(path), name_end(path))
}

/// What follows the last dot of a path, if it has one.
pub open spec fn spec_extension(path: Seq<char>) -> Option<Seq<char>> {
    match spec_rfind(path, '.') {
        Some(i) => Some(path.subrange(i + 1, path.len() as int)),
        None => None,
    }
}

/// The dataset kind that the extension of a path stands for.
pub open spec fn spec_brdf_type(path: Seq<char>) -> Result<BrdfType, FormatError> {
    match spec_extension(path) {
        None => Err(FormatError::UnknownDatasetKind),
        Some(ext) => if ext == "bin"@ {
            Ok(BrdfType::Utia)
        } else if ext == "binary"@ {
            Ok(BrdfType::Merl)
        } else if ext == "dat"@ {
            Ok(BrdfType::Mit)
        } else {
            Err(FormatError::UnknownDatasetKind)
        },
    }
}

fn rfind(s: &str, c: char) -> (r: Option<usize>)
    ensures
        r matches Some(i) ==> spec_rfind(s@, c) == Some(i as int) && i < s@.len(),
        r is None ==> spec_rfind(s@, c) is None,
{
    let mut i: usize = s.unicode_len();
    proof {
        assert(s@.take(i as int) =~= s@);
    }
    while i > 0
        invariant
            i <= s@.len(),
            spec_rfind(s@, c) == spec_rfind(s@.take(i as int), c),
        decreases i,
    {
        i = i - 1;
        proof {
            assert(s@.take(i + 1).drop_last() =~= s@.take(i as int));
        }
        if s.get_char(i) == c {
            return Some(i);
        }
    }
    None
}

fn same_text(a: &str, b: &str) -> (same: bool)
    ensures
        same == (a@ == b@),
{
    let n: usize = a.unicode_len();
    if n != b.unicode_len() {
        return false;
    }
    let mut i: usize = 0;
    while i < n
        invariant
            n == a@.len(),
            n == b@.len(),
            i <= n,
            forall|j: int| 0 <= j < i ==> a@[j] == b@[j],
        decreases n - i,
    {
        if a.get_char(i) != b.get_char(i) {
            return false;
        }
        i = i + 1;
    }
    proof {
        assert(a@ =~= b@);
    }
    true
}

/// The file name of a path without its extension.
pub fn file_stem(path: &str) -> (name: &str)
    ensures
        name@ == spec_name(path@),
{
    let len: usize = path.unicode_len();
    let start: usize = match rfind(path, '/') {
        Some(i) => i + 1,
        None => match rfind(path, '\\') {
            Some(i) => i + 1,
            None => 0,
        },
    };
    let end: usize = match rfind(path, '.') {
        Some(i) => if i >= start {
            i
        } else {
            len
        },
        None => len,
    };
    path.substring_char(start, end)
}

impl BrdfType {
    /// Tells the kind of a dataset from the extension of its file: `bin`,
    /// `binary` or `dat`. A path without an extension, or with another, is
    /// rejected.
    pub fn from_path(path: &str) -> (r: Result<BrdfType, FormatError>)
        ensures
            r == spec_brdf_type(path@),
    {
        let len: usize = path.unicode_len();
        match rfind(path, '.') {
            None => Err(FormatError::UnknownDatasetKind),
            Some(i) => {
                let ext = path.substring_char(i + 1, len);
                if same_text(ext, "bin") {
                    Ok(BrdfType::Utia)
                } else if same_text(ext, "binary") {
                    Ok(BrdfType::Merl)
                } else if same_text(ext, "dat") {
                    Ok(BrdfType::Mit)
                } else {
                    Err(FormatError::UnknownDatasetKind)
                }
            },
        }
    }
}

/// Whether `r` is what loading a resource from `path` hands out: the loader
/// was called with the path, and its value or its error is what came back.
pub open spec fn loaded_from<T: LoadResource>(path: Seq<char>, r: Result<&mut T, Error>) -> bool {
    exists|p: &str, loaded: Result<T, Error>|
        p@ == path && call_ensures(T::load, (p,), loaded) && match loaded {
            Ok(value) => r matches Ok(out) && *out == value,
            Err(e) => r == Err::<&mut T, Error>(e),
        }
}

impl<T: LoadResource> LazyResource<T> {
    /// The path that the resource is loaded from.
    pub closed spec fn spec_path(&self) -> Seq<char> {
        self.path@
    }

    /// The resource, if it is loaded.
    pub closed spec fn spec_resource(&self) -> Option<T> {
        self.resource
    }

    /// A resource at `path` that is not loaded yet.
    pub fn new(path: String) -> (lazy: Self)
        ensures
            lazy.spec_path() == path@,
            lazy.spec_resource() is None,
    {
        Self { path, resource: None }
    }

    /// Whether the resource is loaded.
    pub fn is_loaded(&self) -> (loaded: bool)
        ensures
            loaded == self.spec_resource() is Some,
    {
        self.resource.is_some()
    }

    /// The path that the resource is loaded from.
    pub fn path(&self) -> (path: &str)
        ensures
            path@ == self.spec_path(),
    {
        self.path.as_str()
    }

    /// Hands out the resource, loading it first if it is not loaded. A
    /// resource that is loaded is handed out as it is and not loaded again.
    /// One that is not loaded is loaded from the stored path: what the
    /// loader returns is stored and handed out, or its error is returned and
    /// the resource stays unloaded.
    pub fn load(&mut self) -> (r: Result<&mut T, Error>)
        ensures
            final(self).spec_path() == old(self).spec_path(),
            old(self).spec_resource() matches Some(loaded) ==> (r matches Ok(res) && *res
                == loaded),
            old(self).spec_resource() is None ==> loaded_from(old(self).spec_path(), r),
            r matches Ok(res) ==> final(self).spec_resource() == Some(*final(res)),
            r is Err ==> final(self).spec_resource() is None,
    {
        if self.resource.is_none() {
            let path = self.path.as_str();
            let loaded = T::load(path);
            proof {
                assert(call_ensures(T::load, (path,), loaded));
            }
            return self.store(loaded);
        }
        match &mut self.resource {
            Some(resource) => Ok(resource),
            None => Err(Error::Io(crate::error::IoError::Other)),
        }
    }

    /// Takes what the loader returned: a value is stored and handed out, an
    /// error is handed on and changes nothing.
    pub fn store(&mut self, loaded: Result<T, Error>) -> (r: Result<&mut T, Error>)
        ensures
            final(self).spec_path() == old(self).spec_path(),
            match loaded {
                Ok(value) => r matches Ok(out) && *out == value && final(self).spec_resource()
                    == Some(*final(out)),
                Err(e) => r == Err::<&mut T, Error>(e) && final(self).spec_resource() == old(
                    self,
                ).spec_resource(),
            },
    {
        match loaded {
            Ok(value) => {
                self.resource = Some(value);
            },
            Err(e) => {
                return Err(e);
            },
        }
        match &mut self.resource {
            Some(resource) => Ok(resource),
            None => Err(Error::Io(crate::error::IoError::Other)),
        }
    }

    /// The file name of the resource without its extension.
    pub fn name(&self) -> (name: &str)
        ensures
            name@ == spec_name(self.spec_path()),
    {
        file_stem(self.path.as_str())
    }

    /// Drops the resource; the next `load` loads it again.
    pub fn unload(&mut self)
        ensures
            final(self).spec_path() == old(self).spec_path(),
            final(self).spec_resource() is None,
    {
        self.resource = None;
    }
}

} // verus!
