//! Shader sources as text: import directives, the line at which defines are
//! inserted, and the handle of a linked program.
//!
//! A source is held as its bytes. Both markers are ASCII, so splicing at a
//! marker keeps decodable text decodable.

use vstd::prelude::*;
use vstd::slice::slice_subrange;
use vstd::string::{StrSliceExecFns, StringSliceAdditionalSpecFns};
use crate::error::{Error, FormatError, IoError};
use crate::shader_permutations::ShaderDefines;

verus! {

/// Name of a linked GPU program.
pub type ProgramId = u32;

/// Handle of a linked GPU program. The one who created the program owns it;
/// the handle is what draw calls and dispatches refer to.
#[derive(Clone, Copy, Debug, PartialEq, Eq, Structural)]
pub struct Shader {
    pub program_id: ProgramId,
}

/// The stages of a program.
#[derive(Clone, Copy, Debug, PartialEq, Eq, Structural)]
pub enum Stage {
    Vertex,
    Fragment,
    Compute,
}

/// Why the driver refused to build a program.
#[derive(Clone, Debug, PartialEq, Eq)]
pub enum BuildFailure {
    /// A stage did not compile; the driver's log.
    Compile { stage: Stage, log: String },
    /// The stages did not link; the driver's log.
    Link { log: String },
}

/// The import directive: the marker is followed, on the same line, by the
/// path of the file whose text takes the directive's place.
pub const IMPORT_STR: &'static str = "//#import ";

/// The sentinel line before which the defines of a variant are inserted.
pub const DEFINES_STR: &'static str = "//#defines";

/// The number of files that the imports of one shader source may include.
pub const IMPORT_LIMIT: usize = 256;

/// What is left of an import marker once the file has been included.
pub const COMMENT_STR: &'static str = "//";

/// The start of a define line.
pub const DEFINE_PREFIX: &'static str = "#define ";

/// Whether `needle` occurs in `hay` at offset `i`.
pub open spec fn matches_at(hay: Seq<u8>, needle: Seq<u8>, i: int) -> bool {
    0 <= i && i + needle.len() <= hay.len() && hay.subrange(i, i + needle.len()) == needle
}

/// Whether the first occurrence of `needle` in `hay` is at offset `i`.
pub open spec fn is_first_match(hay: Seq<u8>, needle: Seq<u8>, i: int) -> bool {
    matches_at(hay, needle, i) && forall|j: int| 0 <= j < i ==> !matches_at(hay, needle, j)
}

/// Whether `needle` occurs nowhere in `hay`.
pub open spec fn never_matches(hay: Seq<u8>, needle: Seq<u8>) -> bool {
    forall|j: int| !matches_at(hay, needle, j)
}

/// Whether a byte separates words: space, tab, line feed, vertical tab, form
/// feed or carriage return.
pub open spec fn is_space(b: u8) -> bool {
    b == 32 || (9 <= b <= 13)
}

/// Whether a byte separates words within a line: space or tab.
pub open spec fn is_blank(b: u8) -> bool {
    b == 32 || b == 9
}

/// First offset from `from` on that holds neither a space nor a tab, or the
/// length.
pub open spec fn skip_blanks(src: Seq<u8>, from: int) -> int
    decreases src.len() - from,
{
    if from < 0 || from >= src.len() {
        src.len() as int
    } else if is_blank(src[from]) {
        skip_blanks(src, from + 1)
    } else {
        from
    }
}

/// First offset from `from` on that holds a separator, or the length.
pub open spec fn skip_word(src: Seq<u8>, from: int) -> int
    decreases src.len() - from,
{
    if from < 0 || from >= src.len() {
        src.len() as int
    } else if !is_space(src[from]) {
        skip_word(src, from + 1)
    } else {
        from
    }
}

/// The first word of `src` from offset `from` on that stands on the line of
/// `from`: empty if only spaces and tabs are left on that line.
pub open spec fn first_word(src: Seq<u8>, from: int) -> Seq<u8> {
    let start = skip_blanks(src, from);
    src.subrange(start, skip_word(src, start))
}

/// The line that defines `name`.
pub open spec fn define_line(name: &'static str) -> Seq<u8> {
    DEFINE_PREFIX.spec_bytes() + name.spec_bytes() + seq![10u8]
}

/// The lines that define `defines[from]` and all that follow it. Every
/// define is inserted at the sentinel, so the last one comes to stand first.
pub open spec fn define_block(defines: Seq<&'static str>, from: int) -> Seq<u8>
    decreases defines.len() - from,
{
    if from < 0 || from >= defines.len() {
        Seq::<u8>::empty()
    } else {
        define_block(defines, from + 1) + define_line(defines[from])
    }
}

/// A source with the defines inserted before the sentinel at offset `at`.
pub open spec fn with_defines(src: Seq<u8>, defines: Seq<&'static str>, at: int) -> Seq<u8> {
    src.subrange(0, at) + define_block(defines, 0) + src.subrange(at, src.len() as int)
}

/// A source in which the import directive at offset `at` has given way to
/// the imported text. The marker is replaced by a comment opener, so that the
/// rest of the directive's line stays harmless.
pub open spec fn with_import(src: Seq<u8>, at: int, import_src: Seq<u8>) -> Seq<u8> {
    src.subrange(0, at) + import_src + COMMENT_STR.spec_bytes() + src.subrange(
        at + IMPORT_STR.spec_bytes().len(),
        src.len() as int,
    )
}

/// An import directive that waits for its file.
#[derive(Clone, Debug, PartialEq, Eq)]
pub struct ImportRequest {
    /// Offset of the directive's marker in the source.
    pub at: usize,
    /// The path that the directive names, as it stands in the source.
    pub path: Vec<u8>,
}

/// What `next_import` returns for a source.
pub open spec fn spec_next_import(src: Seq<u8>, r: Result<Option<ImportRequest>, FormatError>) -> bool {
    match r {
        Ok(None) => never_matches(src, IMPORT_STR.spec_bytes()),
        Ok(Some(request)) => {
            &&& is_first_match(src, IMPORT_STR.spec_bytes(), request.at as int)
            &&& request.path@ == first_word(src, request.at + IMPORT_STR.spec_bytes().len())
            &&& request.path@.len() > 0
        },
        Err(e) => {
            &&& e == FormatError::InvalidImportPath
            &&& exists|at: int|
                is_first_match(src, IMPORT_STR.spec_bytes(), at) && first_word(
                    src,
                    at + IMPORT_STR.spec_bytes().len(),
                ).len() == 0
        },
    }
}

fn matches_here(hay: &[u8], needle: &[u8], i: usize) -> (m: bool)
    requires
        i + needle@.len() <= hay@.len(),
    ensures
        m == matches_at(hay@, needle@, i as int),
{
    let limit: usize = hay.len();
    let mut k: usize = 0;
    while k < needle.len()
        invariant
            i + needle@.len() <= hay@.len(),
            hay@.len() == limit,
            k <= needle@.len(),
            forall|j: int| 0 <= j < k ==> hay@[i + j] == needle@[j],
        decreases needle@.len() - k,
    {
        if hay[i + k] != needle[k] {
            proof {
                assert(hay@.subrange(i as int, i + needle@.len())[k as int] == hay@[i + k]);
            }
            return false;
        }
        k = k + 1;
    }
    proof {
        assert(hay@.subrange(i as int, i + needle@.len()) =~= needle@);
    }
    true
}

/// Finds the first occurrence of `needle` in `hay`.
pub fn find(hay: &[u8], needle: &[u8]) -> (r: Option<usize>)
    ensures
        match r {
            Some(i) => is_first_match(hay@, needle@, i as int),
            None => never_matches(hay@, needle@),
        },
{
    if needle.len() == 0 {
        proof {
            assert(hay@.subrange(0, 0) =~= needle@);
        }
        return Some(0);
    }
    let mut i: usize = 0;
    while i < hay.len() && hay.len() - i >= needle.len()
        invariant
            needle@.len() > 0,
            i <= hay@.len(),
            forall|j: int| 0 <= j < i ==> !matches_at(hay@, needle@, j),
        decreases hay@.len() - i,
    {
        if matches_here(hay, needle, i) {
            return Some(i);
        }
        i = i + 1;
    }
    None
}

fn append_bytes(out: &mut Vec<u8>, bytes: &[u8])
    ensures
        final(out)@ == old(out)@ + bytes@,
{
    let mut k: usize = 0;
    while k < bytes.len()
        invariant
            k <= bytes@.len(),
            out@ == old(out)@ + bytes@.subrange(0, k as int),
        decreases bytes@.len() - k,
    {
        out.push(bytes[k]);
        proof {
            assert(out@ =~= old(out)@ + bytes@.subrange(0, k + 1));
        }
        k = k + 1;
    }
    proof {
        assert(bytes@.subrange(0, k as int) =~= bytes@);
    }
}

fn scan_blanks(src: &[u8], from: usize) -> (to: usize)
    requires
        from <= src@.len(),
    ensures
        to == skip_blanks(src@, from as int),
        from <= to <= src@.len(),
{
    let mut i: usize = from;
    while i < src.len() && (src[i] == 32 || src[i] == 9)
        invariant
            from <= i <= src@.len(),
            skip_blanks(src@, i as int) == skip_blanks(src@, from as int),
        decreases src@.len() - i,
    {
        i = i + 1;
    }
    i
}

fn scan_word(src: &[u8], from: usize) -> (to: usize)
    requires
        from <= src@.len(),
    ensures
        to == skip_word(src@, from as int),
        from <= to <= src@.len(),
{
    let mut i: usize = from;
    while i < src.len() && !(src[i] == 32 || (9 <= src[i] && src[i] <= 13))
        invariant
            from <= i <= src@.len(),
            skip_word(src@, i as int) == skip_word(src@, from as int),
        decreases src@.len() - i,
    {
        i = i + 1;
    }
    i
}

/// Looks for the first import directive of a source and reads the path that
/// it names: the first word after the marker, on the marker's line. A
/// directive whose line holds nothing but spaces and tabs after the marker
/// names no path, which is a format error.
pub fn next_import(src: &[u8]) -> (r: Result<Option<ImportRequest>, FormatError>)
    ensures
        spec_next_import(src@, r),
{
    let marker = IMPORT_STR.as_bytes();
    match find(src, marker) {
        None => Ok(None),
        Some(at) => {
            let limit: usize = src.len();
            assert(at + marker@.len() <= limit);
            let start = scan_blanks(src, at + marker.len());
            let end = scan_word(src, start);
            if start == end {
                return Err(FormatError::InvalidImportPath);
            }
            let mut path: Vec<u8> = Vec::new();
            append_bytes(&mut path, slice_subrange(src, start, end));
            Ok(Some(ImportRequest { at, path }))
        },
    }
}

/// Includes the text of an imported file at the directive at offset `at`:
/// the text is put in front of the directive, and the directive's marker is
/// cut down to a comment opener.
pub fn splice_import(src: &mut Vec<u8>, at: usize, import_src: &[u8])
    requires
        matches_at(old(src)@, IMPORT_STR.spec_bytes(), at as int),
    ensures
        final(src)@ == with_import(old(src)@, at as int, import_src@),
{
    let marker = IMPORT_STR.as_bytes();
    let limit: usize = src.len();
    assert(at + marker@.len() <= limit);
    let mut out: Vec<u8> = Vec::new();
    append_bytes(&mut out, slice_subrange(src.as_slice(), 0, at));
    append_bytes(&mut out, import_src);
    append_bytes(&mut out, COMMENT_STR.as_bytes());
    append_bytes(&mut out, slice_subrange(src.as_slice(), at + marker.len(), src.len()));
    *src = out;
}

/// What including the file of an import directive returns and leaves in the
/// source: the source with the text included; for a file that does not
/// exist, a format error; for a file that cannot be read otherwise, an I/O
/// error. A failure leaves the source as it was.
pub open spec fn spec_include_import(
    before: Seq<u8>,
    at: int,
    file: Result<Vec<u8>, IoError>,
    after: Seq<u8>,
    r: Result<(), Error>,
) -> bool {
    match file {
        Ok(text) => r == Ok::<(), Error>(()) && after == with_import(before, at, text@),
        Err(IoError::NotFound) => r == Err::<(), Error>(
            Error::Format(FormatError::MissingImportTarget),
        ) && after == before,
        Err(e) => r == Err::<(), Error>(Error::Io(e)) && after == before,
    }
}

/// Includes the file that the directive at offset `at` names, given what
/// reading the file returned. A missing import target is a format error of
/// the source that names it.
pub fn include_import(src: &mut Vec<u8>, at: usize, file: Result<Vec<u8>, IoError>) -> (r: Result<
    (),
    Error,
>)
    requires
        matches_at(old(src)@, IMPORT_STR.spec_bytes(), at as int),
    ensures
        spec_include_import(old(src)@, at as int, file, final(src)@, r),
{
    match file {
        Ok(text) => {
            splice_import(src, at, text.as_slice());
            Ok(())
        },
        Err(IoError::NotFound) => Err(Error::Format(FormatError::MissingImportTarget)),
        Err(e) => Err(Error::Io(e)),
    }
}

/// What resolving the imports of a source returns and leaves behind, for a
/// reader `read` and at most `limit` files.
///
/// A source without a directive is done and left as it is. A first
/// directive without a path is a format error, and so is one that is met
/// when no file may be included any more. Otherwise `read` is called with
/// the path of the first directive. A file that was read is included, and
/// the rest is resolved with one file less allowed. A file that does not
/// exist is a format error, any other failure of the read is an I/O error.
/// Every failure leaves the source as it was when the failing directive was
/// met.
pub open spec fn imports_resolved<F: Fn(Vec<u8>) -> Result<Vec<u8>, IoError>>(
    before: Seq<u8>,
    read: F,
    limit: nat,
    after: Seq<u8>,
    r: Result<(), Error>,
) -> bool
    decreases limit,
{
    if never_matches(before, IMPORT_STR.spec_bytes()) {
        r == Ok::<(), Error>(()) && after == before
    } else {
        exists|at: int|
            is_first_match(before, IMPORT_STR.spec_bytes(), at) && {
                let word = first_word(before, at + IMPORT_STR.spec_bytes().len());
                if word.len() == 0 {
                    r == Err::<(), Error>(Error::Format(FormatError::InvalidImportPath))
                        && after == before
                } else if limit == 0 {
                    r == Err::<(), Error>(Error::Format(FormatError::TooManyImports)) && after
                        == before
                } else {
                    exists|path: Vec<u8>, file: Result<Vec<u8>, IoError>|
                        path@ == word && call_ensures(read, (path,), file) && match file {
                            Ok(text) => imports_resolved(
                                with_import(before, at, text@),
                                read,
                                (limit - 1) as nat,
                                after,
                                r,
                            ),
                            Err(IoError::NotFound) => r == Err::<(), Error>(
                                Error::Format(FormatError::MissingImportTarget),
                            ) && after == before,
                            Err(e) => r == Err::<(), Error>(Error::Io(e)) && after == before,
                        }
                }
            }
    }
}

/// The source of one stage of a program.
#[derive(Clone, Debug, PartialEq, Eq)]
pub struct StageSource {
    pub stage: Stage,
    pub src: Vec<u8>,
}

/// Whether `out` is the template of a stage with the defines of a variant
/// inserted at its sentinel.
pub open spec fn stage_rendered(
    template: StageSource,
    defines: Seq<&'static str>,
    out: StageSource,
) -> bool {
    &&& out.stage == template.stage
    &&& exists|at: int|
        is_first_match(template.src@, DEFINES_STR.spec_bytes(), at) && out.src@ == with_defines(
            template.src@,
            defines,
            at,
        )
}

/// Whether `stages` are the templates of a shading path rendered for the
/// variant `key`, stage by stage.
pub open spec fn variant_rendered<T: ShaderDefines>(
    templates: Seq<StageSource>,
    key: T,
    stages: Seq<StageSource>,
) -> bool {
    &&& stages.len() == templates.len()
    &&& forall|i: int|
        0 <= i < templates.len() ==> stage_rendered(
            templates[i],
            key.spec_defines(templates[i].stage),
            #[trigger] stages[i],
        )
}

/// Whether a template of the shading path lacks the sentinel.
pub open spec fn lacks_sentinel(templates: Seq<StageSource>) -> bool {
    exists|i: int|
        0 <= i < templates.len() && never_matches(
            (#[trigger] templates[i]).src@,
            DEFINES_STR.spec_bytes(),
        )
}

/// What a variant's build returns for a verdict of the compiler: the
/// program, or the driver's log, with the defines of the stage that failed
/// where a stage did not compile.
pub open spec fn build_result<T: ShaderDefines>(
    verdict: Result<Shader, BuildFailure>,
    key: T,
    r: Result<Shader, Error>,
) -> bool {
    match verdict {
        Ok(shader) => r == Ok::<Shader, Error>(shader),
        Err(BuildFailure::Link { log }) => r == Err::<Shader, Error>(Error::Link { log }),
        Err(BuildFailure::Compile { stage, log }) => r matches Err(Error::Compile {
            log: l,
            defines: d,
        }) && l == log && d@ == key.spec_defines(stage),
    }
}

/// What building the variant `key` of a shading path returns, given the
/// contract of the compiler `build`: a format error if a template lacks the
/// sentinel, else what follows from a verdict of the compiler on the
/// rendered stages.
pub open spec fn variant_outcome<
    T: ShaderDefines,
    F: FnOnce(Vec<StageSource>) -> Result<Shader, BuildFailure>,
>(templates: Seq<StageSource>, key: T, build: F, r: Result<Shader, Error>) -> bool {
    if lacks_sentinel(templates) {
        r == Err::<Shader, Error>(Error::Format(FormatError::MissingDefinesSentinel))
    } else {
        exists|stages: Vec<StageSource>, verdict: Result<Shader, BuildFailure>|
            variant_rendered(templates, key, stages@) && call_ensures(build, (stages,), verdict)
                && build_result(verdict, key, r)
    }
}

/// Turns the verdict of the compiler on a variant into the library's result:
/// a compile error names the defines of the stage that failed, so that the
/// one broken variant can be reproduced without building the others.
pub fn report_build<T: ShaderDefines>(verdict: Result<Shader, BuildFailure>, key: &T) -> (r: Result<
    Shader,
    Error,
>)
    ensures
        build_result(verdict, *key, r),
{
    match verdict {
        Ok(shader) => Ok(shader),
        Err(BuildFailure::Link { log }) => Err(Error::Link { log }),
        Err(BuildFailure::Compile { stage, log }) => {
            let defines = key.defines(stage);
            Err(Error::Compile { log, defines })
        },
    }
}

/// A program with a single compute stage.
#[derive(Clone, Copy, Debug, PartialEq, Eq, Structural)]
pub struct ComputeShader {
    pub shader_id: ProgramId,
}

/// Whether a text can name a uniform: it is ASCII and ends with a NUL.
pub open spec fn is_uniform_name(name: Seq<char>) -> bool {
    vstd::utf8::is_ascii_chars(name) && name.len() > 0 && name.last() == '\0'
}

impl ComputeShader {
    /// Checks that a text can be handed to the driver as the name of a
    /// uniform: names have to be ASCII and have to end with a NUL.
    pub fn check_uniform_name(name: &str) -> (ok: bool)
        ensures
            ok == is_uniform_name(name@),
    {
        if !name.is_ascii() {
            return false;
        }
        let len: usize = name.unicode_len();
        len > 0 && name.get_char(len - 1) == '\0'
    }
}

impl Shader {
    /// Inserts one define line per name before the sentinel line of a source.
    /// A source without the sentinel is left as it is and reported as a format
    /// error.
    pub fn handle_defines(src: &mut Vec<u8>, defines: &[&'static str]) -> (r: Result<(), FormatError>)
        ensures
            match r {
                Ok(()) => exists|at: int|
                    is_first_match(old(src)@, DEFINES_STR.spec_bytes(), at) && final(src)@
                        == with_defines(old(src)@, defines@, at),
                Err(e) => e == FormatError::MissingDefinesSentinel && never_matches(
                    old(src)@,
                    DEFINES_STR.spec_bytes(),
                ) && final(src)@ == old(src)@,
            },
    {
        match find(src.as_slice(), DEFINES_STR.as_bytes()) {
            None => Err(FormatError::MissingDefinesSentinel),
            Some(at) => {
                let mut out: Vec<u8> = Vec::new();
                append_bytes(&mut out, slice_subrange(src.as_slice(), 0, at));
                let ghost head = out@;
                let mut k: usize = defines.len();
                while k > 0
                    invariant
                        k <= defines@.len(),
                        out@ == head + define_block(defines@, k as int),
                    decreases k,
                {
                    k = k - 1;
                    append_bytes(&mut out, DEFINE_PREFIX.as_bytes());
                    append_bytes(&mut out, defines[k].as_bytes());
                    out.push(10u8);
                    proof {
                        assert(out@ =~= head + define_block(defines@, k as int));
                    }
                }
                append_bytes(&mut out, slice_subrange(src.as_slice(), at, src.len()));
                proof {
                    assert(out@ =~= with_defines(src@, defines@, at as int));
                }
                *src = out;
                Ok(())
            },
        }
    }

    /// Resolves the import directives of a source: as long as the source
    /// holds a directive, `read` is asked for the file that it names and the
    /// text is included in place of the directive. Included text is scanned
    /// again, so imports may nest. At most `limit` files are included,
    /// which ends imports that include one another.
    ///
    /// A source without directives is left as it is and `read` is not
    /// called. Success means that no directive is left.
    pub fn handle_imports<F: Fn(Vec<u8>) -> Result<Vec<u8>, IoError>>(
        src: &mut Vec<u8>,
        read: F,
        limit: usize,
    ) -> (r: Result<(), Error>)
        requires
            forall|path: Vec<u8>| call_requires(read, (path,)),
        ensures
            imports_resolved(old(src)@, read, limit as nat, final(src)@, r),
            r is Ok ==> never_matches(final(src)@, IMPORT_STR.spec_bytes()),
    {
        let ghost first = src@;
        let mut left: usize = limit;
        loop
            invariant
                forall|path: Vec<u8>| call_requires(read, (path,)),
                first == old(src)@,
                forall|after: Seq<u8>, r: Result<(), Error>| #[trigger]
                    imports_resolved(src@, read, left as nat, after, r) ==> imports_resolved(
                        first,
                        read,
                        limit as nat,
                        after,
                        r,
                    ),
            decreases left,
        {
            let ghost current = src@;
            let ghost allowed = left as nat;
            match next_import(src.as_slice()) {
                Err(e) => {
                    proof {
                        assert(imports_resolved(
                            current,
                            read,
                            allowed,
                            current,
                            Err::<(), Error>(Error::Format(e)),
                        ));
                    }
                    return Err(Error::Format(e));
                },
                Ok(None) => {
                    proof {
                        assert(imports_resolved(
                            current,
                            read,
                            allowed,
                            current,
                            Ok::<(), Error>(()),
                        ));
                    }
                    return Ok(());
                },
                Ok(Some(request)) => {
                    let ghost at = request.at as int;
                    let ghost path = request.path;
                    proof {
                        assert(matches_at(current, IMPORT_STR.spec_bytes(), at));
                        assert(!never_matches(current, IMPORT_STR.spec_bytes()));
                    }
                    if left == 0 {
                        proof {
                            assert(imports_resolved(
                                current,
                                read,
                                allowed,
                                current,
                                Err::<(), Error>(Error::Format(FormatError::TooManyImports)),
                            ));
                        }
                        return Err(Error::Format(FormatError::TooManyImports));
                    }
                    left = left - 1;
                    let file = read(request.path);
                    let ghost outcome = file;
                    proof {
                        assert(call_ensures(read, (path,), outcome));
                    }
                    match include_import(src, request.at, file) {
                        Err(e) => {
                            proof {
                                assert(src@ == current);
                                assert(imports_resolved(
                                    current,
                                    read,
                                    allowed,
                                    current,
                                    Err::<(), Error>(e),
                                ));
                            }
                            return Err(e);
                        },
                        Ok(()) => {
                            proof {
                                let next = src@;
                                assert forall|after: Seq<u8>, r: Result<(), Error>| #[trigger]
                                    imports_resolved(
                                        next,
                                        read,
                                        left as nat,
                                        after,
                                        r,
                                    ) implies imports_resolved(
                                    first,
                                    read,
                                    limit as nat,
                                    after,
                                    r,
                                ) by {
                                    assert(imports_resolved(current, read, allowed, after, r));
                                }
                            }
                        },
                    }
                },
            }
        }
    }

    /// Builds the variant `key` of a shading path from the templates of its
    /// stages. The defines of the variant are inserted at the sentinel of
    /// each template, and `build` compiles and links the rendered stages. A
    /// template without the sentinel is a format error, and `build` is then
    /// not called.
    pub fn with_src_defines<
        T: ShaderDefines,
        F: FnOnce(Vec<StageSource>) -> Result<Shader, BuildFailure>,
    >(templates: &[StageSource], key: &T, build: F) -> (r: Result<Shader, Error>)
        requires
            forall|stages: Vec<StageSource>| call_requires(build, (stages,)),
        ensures
            variant_outcome(templates@, *key, build, r),
    {
        let mut stages: Vec<StageSource> = Vec::new();
        let mut i: usize = 0;
        while i < templates.len()
            invariant
                i <= templates@.len(),
                stages@.len() == i,
                forall|j: int|
                    0 <= j < i ==> stage_rendered(
                        templates@[j],
                        key.spec_defines(templates@[j].stage),
                        #[trigger] stages@[j],
                    ),
                forall|j: int|
                    0 <= j < i ==> !never_matches(
                        (#[trigger] templates@[j]).src@,
                        DEFINES_STR.spec_bytes(),
                    ),
            decreases templates@.len() - i,
        {
            let template = &templates[i];
            let mut src: Vec<u8> = Vec::new();
            append_bytes(&mut src, template.src.as_slice());
            let defines = key.defines(template.stage);
            match Self::handle_defines(&mut src, defines.as_slice()) {
                Err(e) => {
                    return Err(Error::Format(e));
                },
                Ok(()) => {},
            }
            stages.push(StageSource { stage: template.stage, src });
            i = i + 1;
        }
        let ghost rendered = stages;
        let verdict = build(stages);
        let r = report_build(verdict, key);
        proof {
            assert(variant_rendered(templates@, *key, rendered@));
            assert(call_ensures(build, (rendered,), verdict));
            assert(!lacks_sentinel(templates@));
        }
        r
    }
}

} // verus!
