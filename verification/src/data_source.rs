//! Serving the files of an ostree commit to a tar-diff patch.
//!
//! A patch selects a file by its path in the source image and then reads from
//! it. [`OstreeDataSource`] keeps the selected file. Selecting one begins with a
//! [`Lookup`]: it asks the caller for the type of one candidate after the other
//! until it has a regular file or runs out of candidates. The checksum of the
//! [`FoundFile`] names the [`FileObject`] to open, and the opened object is the
//! selected file.
use vstd::prelude::*;

use crate::failure::Failure;
use crate::layout::{
    candidate_paths, imported_location, law_candidates_cover_import, law_etc_candidates,
    law_leading_dot_slash_is_ignored, law_leading_slash_is_ignored, law_leading_slashes_are_cut_off,
    law_only_first_component_is_moved, law_only_import_moves_are_tried, law_var_candidates,
    object_location, object_path, relative, relative_path, source_path_candidates,
    splits_after_two,
};
use crate::least::lemma_least;
use crate::text::{begins_with, decimal, decimal_text, joined, law_prefix, texts};

verus! {

/// What a path in a commit leads to.
#[derive(Clone, Copy, Debug, PartialEq, Eq, Structural)]
pub enum FileType {
    /// Nothing, or something that could not be examined.
    Unknown,
    Regular,
    Directory,
    SymbolicLink,
    Special,
    Shortcut,
    Mountable,
}

/// How a repository stores its objects.
#[derive(Clone, Copy, Debug, PartialEq, Eq, Structural)]
pub enum RepoMode {
    Bare,
    Archive,
    BareUser,
    BareUserOnly,
    BareSplitXattrs,
    /// A mode that this library has no name for.
    Unknown,
}

/// Why the source of a delta cannot be read.
#[derive(Debug)]
pub enum SourceError {
    /// The objects of the repository are compressed.
    ArchiveMode,
    /// No file is selected.
    NoCurrentFile,
    /// No candidate for `path` is a regular file.
    NotFound { path: String },
    /// The selected file has `size` bytes, more than `max_size`.
    TooLarge { size: u64, max_size: u64 },
    /// The selected file ended after `copied` of `expected` bytes.
    ShortRead { expected: u64, copied: u64 },
}

/// Why a commit cannot be opened.
#[derive(Debug)]
pub enum OpenCause<E> {
    /// The repository could not be read.
    Unreadable(E),
    /// The repository was read, but is of no use.
    Refused(SourceError),
}

impl SourceError {
    /// The text of the error.
    pub open spec fn text(self) -> Seq<char> {
        match self {
            SourceError::ArchiveMode => "OSTree archive repo mode is not supported"@,
            SourceError::NoCurrentFile => "No current file set in data source"@,
            SourceError::NotFound { path } => "Delta source file not found in source commit: "@
                + path@,
            SourceError::TooLarge { size, max_size } => "Source file too large: "@ + decimal_text(
                size as nat,
            ) + " > "@ + decimal_text(max_size as nat),
            SourceError::ShortRead { expected, copied } =>
                "Short read from delta source: expected "@ + decimal_text(expected as nat)
                + ", got "@ + decimal_text(copied as nat),
        }
    }

    /// The text of the error.
    pub fn message(&self) -> (r: String)
        ensures
            r@ == self.text(),
            match *self {
                SourceError::ArchiveMode => r@ == "OSTree archive repo mode is not supported"@,
                SourceError::NoCurrentFile => r@ == "No current file set in data source"@,
                SourceError::NotFound { path } => r@
                    == "Delta source file not found in source commit: "@ + path@,
                SourceError::TooLarge { size, max_size } => r@ == "Source file too large: "@
                    + decimal_text(size as nat) + " > "@ + decimal_text(max_size as nat),
                SourceError::ShortRead { expected, copied } => r@
                    == "Short read from delta source: expected "@ + decimal_text(expected as nat)
                    + ", got "@ + decimal_text(copied as nat),
            },
    {
        match self {
            SourceError::ArchiveMode => "OSTree archive repo mode is not supported".to_owned(),
            SourceError::NoCurrentFile => "No current file set in data source".to_owned(),
            SourceError::NotFound { path } => "Delta source file not found in source commit: "
                .to_owned().concat(path.as_str()),
            SourceError::TooLarge { size, max_size } => "Source file too large: ".to_owned().concat(
                decimal(*size).as_str(),
            ).concat(" > ").concat(decimal(*max_size).as_str()),
            SourceError::ShortRead { expected, copied } =>
                "Short read from delta source: expected ".to_owned().concat(
                decimal(*expected).as_str(),
            ).concat(", got ").concat(decimal(*copied).as_str()),
        }
    }
}

/// The state of a lookup.
pub enum LookupView {
    /// The type of the first of the candidates `rest` for `path` is wanted.
    Query { path: Seq<char>, rest: Seq<Seq<char>> },
    /// The candidate that is a regular file.
    Found { candidate: Seq<char> },
    /// No candidate for `path` is a regular file.
    Missing { path: Seq<char> },
}

/// The lookup of `path` among the candidates `rest`.
pub open spec fn lookup_among(path: Seq<char>, rest: Seq<Seq<char>>) -> LookupView {
    if rest.len() == 0 {
        LookupView::Missing { path }
    } else {
        LookupView::Query { path, rest }
    }
}

/// The lookup of a file that a patch names `path`.
pub open spec fn lookup_start(path: Seq<char>) -> LookupView {
    lookup_among(relative(path), candidate_paths(relative(path)))
}

/// The lookup after the first of `rest` was seen to be of type `kind`.
pub open spec fn lookup_next(
    path: Seq<char>,
    rest: Seq<Seq<char>>,
    kind: FileType,
) -> LookupView {
    if kind == FileType::Regular {
        LookupView::Found { candidate: rest[0] }
    } else {
        lookup_among(path, rest.drop_first())
    }
}

/// How a lookup ends in a commit where `kinds` gives the type of every path.
pub open spec fn lookup_result(l: LookupView, kinds: spec_fn(Seq<char>) -> FileType) -> LookupView
    decreases
            (match l {
                LookupView::Query { path, rest } => rest.len(),
                _ => 0,
            }),
{
    match l {
        LookupView::Query { path, rest } => if rest.len() == 0 {
            l
        } else {
            lookup_result(lookup_next(path, rest, kinds(rest[0])), kinds)
        },
        _ => l,
    }
}

/// A question of a lookup: the type of one candidate.
#[derive(Debug)]
pub struct TypeQuery {
    path: String,
    candidates: Vec<String>,
    next: usize,
}

impl View for TypeQuery {
    type V = LookupView;

    closed spec fn view(&self) -> LookupView {
        LookupView::Query {
            path: self.path@,
            rest: texts(self.candidates@).skip(self.next as int),
        }
    }
}

/// A candidate that is a regular file.
#[derive(Debug)]
pub struct FoundFile {
    candidate: String,
}

impl View for FoundFile {
    type V = Seq<char>;

    closed spec fn view(&self) -> Seq<char> {
        self.candidate@
    }
}

/// The object that holds the content of a found file.
#[derive(Debug)]
pub struct FileObject {
    candidate: String,
    object: String,
}

/// The lookup of a source file.
#[derive(Debug)]
pub enum Lookup {
    /// The type of a candidate is wanted.
    Query(TypeQuery),
    /// A candidate is a regular file.
    Found(FoundFile),
    /// There is no such file.
    Missing(SourceError),
}

impl Lookup {
    /// The state of the lookup, and that a failed one carries the error for it.
    pub open spec fn is(self, l: LookupView) -> bool {
        match (self, l) {
            (Lookup::Query(query), LookupView::Query { .. }) => query@ == l,
            (Lookup::Found(found), LookupView::Found { candidate }) => found@ == candidate,
            (
                Lookup::Missing(SourceError::NotFound { path: missing }),
                LookupView::Missing { path },
            ) => missing@ == path,
            _ => false,
        }
    }
}

impl TypeQuery {
    #[verifier::type_invariant]
    spec fn has_candidate(self) -> bool {
        self.next < self.candidates.len()
    }

    fn among(path: String, candidates: Vec<String>, next: usize) -> (r: Lookup)
        requires
            next <= candidates@.len(),
        ensures
            r.is(lookup_among(path@, texts(candidates@).skip(next as int))),
    {
        if next < candidates.len() {
            Lookup::Query(TypeQuery { path, candidates, next })
        } else {
            Lookup::Missing(SourceError::NotFound { path })
        }
    }

    /// The path whose type is wanted. Links are not to be followed.
    pub fn candidate(&self) -> (r: &str)
        ensures
            self@ matches LookupView::Query { path, rest } && rest.len() > 0 && r@ == rest[0],
    {
        proof {
            use_type_invariant(self);
        }
        self.candidates[self.next].as_str()
    }

    /// Goes on with the type of the candidate.
    pub fn answer(self, kind: FileType) -> (r: Lookup)
        ensures
            self@ matches LookupView::Query { path, rest } && r.is(lookup_next(path, rest, kind)),
            self@ matches LookupView::Query { path, rest } && match r {
                Lookup::Found(found) => kind == FileType::Regular && found@ == rest[0],
                Lookup::Query(query) => {
                    &&& kind != FileType::Regular && rest.len() > 1
                    &&& query@ == (LookupView::Query { path, rest: rest.drop_first() })
                },
                Lookup::Missing(e) => {
                    &&& kind != FileType::Regular && rest.len() == 1
                    &&& e matches SourceError::NotFound { path: missing } && missing@ == path
                },
            },
    {
        proof {
            use_type_invariant(&self);
        }
        let ghost all = texts(self.candidates@);
        assert(all.skip(self.next as int).drop_first() =~= all.skip(self.next + 1));
        if kind == FileType::Regular {
            Lookup::Found(FoundFile { candidate: self.candidates[self.next].clone() })
        } else {
            TypeQuery::among(self.path, self.candidates, self.next + 1)
        }
    }
}

impl FoundFile {
    /// The path of the file in the commit. Its checksum is wanted.
    pub fn candidate(&self) -> (r: &str)
        ensures
            r@ == self@,
    {
        self.candidate.as_str()
    }

    /// Goes on with the checksum of the file.
    pub fn resolved(self, checksum: &str) -> (r: FileObject)
        requires
            splits_after_two(checksum@),
        ensures
            r.candidate_path() == self@,
            r.object_path() == object_location(checksum@),
    {
        FileObject { candidate: self.candidate, object: object_path(checksum) }
    }
}

impl FileObject {
    /// The path of the file in the commit.
    pub closed spec fn candidate_path(self) -> Seq<char> {
        self.candidate@
    }

    /// The path of the object below the `objects` directory.
    pub closed spec fn object_path(self) -> Seq<char> {
        self.object@
    }

    /// The path, below the `objects` directory of the repository, of what is to
    /// be opened.
    pub fn object(&self) -> (r: &str)
        ensures
            r@ == self.object_path(),
    {
        self.object.as_str()
    }

    /// What was being done, for an error in opening the object.
    pub fn context(&self) -> (r: String)
        ensures
            r@ == "Opening delta source file "@ + self.candidate_path(),
    {
        joined("Opening delta source file ", self.candidate.as_str())
    }

    /// Selects the file in `source`, with its object opened as `file`.
    pub fn opened<F>(self, source: &mut OstreeDataSource<F>, file: F)
        ensures
            final(source).current_file() == Some(file),
    {
        source.current = Some(file);
    }
}

/// How to read a whole file.
#[derive(Clone, Copy, Debug, PartialEq, Eq, Structural)]
pub struct WholeRead {
    /// Where to start.
    pub offset: u64,
    /// How much room to make.
    pub capacity: usize,
}

/// Serves file content from a commit. `F` is an open file.
#[derive(Debug)]
pub struct OstreeDataSource<F> {
    current: Option<F>,
}

impl<F> OstreeDataSource<F> {
    /// The selected file.
    pub closed spec fn current_file(self) -> Option<F> {
        self.current
    }

    /// A data source for the commit `commit`, with no file selected. `opened` is
    /// the mode of the repository, or why the commit or the objects of the
    /// repository could not be opened. File objects can be read only where they
    /// are stored uncompressed.
    pub fn new<E>(commit: &str, opened: Result<RepoMode, E>) -> (r: Result<
        Self,
        Failure<OpenCause<E>>,
    >)
        ensures
            match r {
                Ok(source) => {
                    &&& opened matches Ok(mode) && mode != RepoMode::Archive
                    &&& source.current_file() is None
                },
                Err(e) => {
                    &&& texts(e.contexts@) == seq!["Opening delta source commit "@ + commit@]
                    &&& match opened {
                        Ok(mode) => mode == RepoMode::Archive && e.cause == OpenCause::<
                            E,
                        >::Refused(SourceError::ArchiveMode),
                        Err(cause) => e.cause == OpenCause::Unreadable(cause),
                    }
                    &&& e.contexts@.len() == 1
                    &&& e.contexts@[0]@ == "Opening delta source commit "@ + commit@
                },
            },
    {
        let cause = match opened {
            Ok(mode) => {
                if mode != RepoMode::Archive {
                    return Ok(OstreeDataSource { current: None });
                }
                OpenCause::Refused(SourceError::ArchiveMode)
            },
            Err(cause) => OpenCause::Unreadable(cause),
        };
        let mut contexts: Vec<String> = Vec::new();
        contexts.push(joined("Opening delta source commit ", commit));
        assert(texts(contexts@) =~= seq!["Opening delta source commit "@ + commit@]);
        assert(contexts@[0]@ == texts(contexts@)[0]);
        Err(Failure { contexts, cause })
    }

    /// Starts to select the file that the source image has at `path`. No file
    /// is selected until the object of one is opened.
    pub fn set_current_file(&mut self, path: &str) -> (r: Lookup)
        ensures
            final(self).current_file() is None,
            r.is(lookup_start(path@)),
            r matches Lookup::Query(query) && query@ == (LookupView::Query {
                path: relative(path@),
                rest: candidate_paths(relative(path@)),
            }),
    {
        self.current = None;
        let path = relative_path(path);
        let candidates = source_path_candidates(path);
        assert(texts(candidates@).skip(0) =~= texts(candidates@));
        proof {
            law_only_import_moves_are_tried(path@);
        }
        TypeQuery::among(path.to_owned(), candidates, 0)
    }

    /// The selected file.
    pub fn current(&mut self) -> (r: Result<&mut F, SourceError>)
        ensures
            match r {
                Ok(file) => old(self).current_file() == Some(*file) && final(self).current_file()
                    == Some(*final(file)),
                Err(e) => old(self).current_file() is None && final(self).current_file() is None
                    && e == SourceError::NoCurrentFile,
            },
    {
        match &mut self.current {
            Some(file) => Ok(file),
            None => Err(SourceError::NoCurrentFile),
        }
    }
}

/// How to read the whole of a file of `size` bytes, if it is not larger than
/// `max_size`: from its start, wherever the file was read before.
pub fn whole_read(size: u64, max_size: u64) -> (r: Result<WholeRead, SourceError>)
    ensures
        match r {
            Ok(plan) => size <= max_size && plan.offset == 0 && plan.capacity == size as usize,
            Err(e) => size > max_size && e == (SourceError::TooLarge { size, max_size }),
        },
{
    if size <= max_size {
        Ok(WholeRead { offset: 0, capacity: size as usize })
    } else {
        Err(SourceError::TooLarge { size, max_size })
    }
}

/// Accepts a copy of `n` bytes if all of them were copied.
pub fn whole_copy(n: u64, copied: u64) -> (r: Result<(), SourceError>)
    ensures
        match r {
            Ok(()) => copied == n,
            Err(e) => copied != n && e == (SourceError::ShortRead { expected: n, copied }),
        },
{
    if copied == n {
        Ok(())
    } else {
        Err(SourceError::ShortRead { expected: n, copied })
    }
}

/// The first candidate that is a regular file wins.
pub proof fn law_first_regular_candidate_wins(
    path: Seq<char>,
    kinds: spec_fn(Seq<char>) -> FileType,
    i: int,
)
    requires
        0 <= i < candidate_paths(relative(path)).len(),
        kinds(candidate_paths(relative(path))[i]) == FileType::Regular,
        forall|j: int|
            0 <= j < i ==> kinds(#[trigger] candidate_paths(relative(path))[j])
                != FileType::Regular,
    ensures
        lookup_result(lookup_start(path), kinds) == (LookupView::Found {
            candidate: candidate_paths(relative(path))[i],
        }),
{
    lemma_lookup_finds(relative(path), candidate_paths(relative(path)), kinds, i);
}

proof fn lemma_lookup_finds(
    path: Seq<char>,
    rest: Seq<Seq<char>>,
    kinds: spec_fn(Seq<char>) -> FileType,
    i: int,
)
    requires
        0 <= i < rest.len(),
        kinds(rest[i]) == FileType::Regular,
        forall|j: int| 0 <= j < i ==> kinds(#[trigger] rest[j]) != FileType::Regular,
    ensures
        lookup_result(lookup_among(path, rest), kinds) == (LookupView::Found {
            candidate: rest[i],
        }),
    decreases rest.len(),
{
    reveal_with_fuel(lookup_result, 2);
    if i > 0 {
        assert(kinds(rest[0]) != FileType::Regular);
        let tail = rest.drop_first();
        assert forall|j: int| 0 <= j < i - 1 implies kinds(#[trigger] tail[j])
            != FileType::Regular by {
            assert(tail[j] == rest[j + 1]);
        }
        lemma_lookup_finds(path, tail, kinds, i - 1);
    }
}

proof fn lemma_lookup_misses(
    path: Seq<char>,
    rest: Seq<Seq<char>>,
    kinds: spec_fn(Seq<char>) -> FileType,
)
    requires
        forall|j: int| 0 <= j < rest.len() ==> kinds(#[trigger] rest[j]) != FileType::Regular,
    ensures
        lookup_result(lookup_among(path, rest), kinds) == (LookupView::Missing { path }),
    decreases rest.len(),
{
    if rest.len() > 0 {
        assert(kinds(rest[0]) != FileType::Regular);
        let tail = rest.drop_first();
        assert forall|j: int| 0 <= j < tail.len() implies kinds(#[trigger] tail[j])
            != FileType::Regular by {
            assert(tail[j] == rest[j + 1]);
        }
        lemma_lookup_misses(path, tail, kinds);
    }
}

/// A lookup always ends, and it fails exactly if no candidate is a regular
/// file: a directory, a link or an absent path is not content.
pub proof fn law_lookup_fails_iff_no_regular_candidate(
    path: Seq<char>,
    kinds: spec_fn(Seq<char>) -> FileType,
)
    ensures
        lookup_result(lookup_start(path), kinds) !is Query,
        lookup_result(lookup_start(path), kinds) is Missing <==> forall|j: int|
            0 <= j < candidate_paths(relative(path)).len() ==> kinds(
                #[trigger] candidate_paths(relative(path))[j],
            ) != FileType::Regular,
        lookup_result(lookup_start(path), kinds) matches LookupView::Missing { path: missing }
            ==> missing == relative(path),
{
    let all = candidate_paths(relative(path));
    if exists|j: int| 0 <= j < all.len() && kinds(#[trigger] all[j]) == FileType::Regular {
        let k = choose|j: int|
            0 <= j < all.len() && kinds(#[trigger] all[j]) == FileType::Regular;
        let regular = |j: int| j < all.len() && kinds(all[j]) == FileType::Regular;
        let i = lemma_least(regular, k);
        assert forall|j: int| 0 <= j < i implies kinds(#[trigger] all[j]) != FileType::Regular by {
            assert(!regular(j));
        }
        lemma_lookup_finds(relative(path), all, kinds, i);
    } else {
        lemma_lookup_misses(relative(path), all, kinds);
    }
}

/// A file that the importer moved is found under its path in the image.
///
/// Whatever the importer does with `/var`: if it brought a regular file to its
/// place for `path`, then the lookup of `path` succeeds. It finds the file at
/// that place, unless another regular file lies at `path` itself.
pub proof fn law_imported_file_is_found(
    path: Seq<char>,
    factory_var: bool,
    kinds: spec_fn(Seq<char>) -> FileType,
)
    requires
        kinds(imported_location(relative(path), factory_var)) == FileType::Regular,
    ensures
        lookup_result(lookup_start(path), kinds) == (LookupView::Found {
            candidate: if kinds(relative(path)) == FileType::Regular {
                relative(path)
            } else {
                imported_location(relative(path), factory_var)
            },
        }),
{
    let image_path = relative(path);
    let all = candidate_paths(image_path);
    law_candidates_cover_import(image_path, factory_var);
    law_only_import_moves_are_tried(image_path);
    let k = all.index_of(imported_location(image_path, factory_var));
    if kinds(image_path) == FileType::Regular {
        lemma_lookup_finds(image_path, all, kinds, 0);
    } else {
        lemma_lookup_finds(image_path, all, kinds, k);
    }
}

/// The object to open after the lookup `l` has ended, where `checksums` gives the
/// checksum of every file of the commit.
pub open spec fn object_to_open(
    l: LookupView,
    checksums: spec_fn(Seq<char>) -> Seq<char>,
) -> Option<Seq<char>> {
    match l {
        LookupView::Found { candidate } => Some(object_location(checksums(candidate))),
        _ => None,
    }
}

/// The content of a file that the importer moved is served under the file's path
/// in the image: what is opened for `path` is the object of the file at the
/// importer's place for it, if no regular file lies at `path` itself.
pub proof fn law_imported_content_is_served(
    path: Seq<char>,
    factory_var: bool,
    kinds: spec_fn(Seq<char>) -> FileType,
    checksums: spec_fn(Seq<char>) -> Seq<char>,
)
    requires
        kinds(imported_location(relative(path), factory_var)) == FileType::Regular,
        imported_location(relative(path), factory_var) == relative(path) || kinds(relative(path))
            != FileType::Regular,
    ensures
        object_to_open(lookup_result(lookup_start(path), kinds), checksums) == Some(
            object_location(checksums(imported_location(relative(path), factory_var))),
        ),
{
    law_imported_file_is_found(path, factory_var, kinds);
}

/// A path with a leading `./`, as a tar archive names it, is looked up like the
/// path without it.
pub proof fn law_lookup_ignores_leading_dot_slash(path: Seq<char>)
    ensures
        lookup_start("./"@ + path) == lookup_start(path),
{
    law_leading_dot_slash_is_ignored(path);
}

/// An absolute path is looked up like the path without its leading `/`, unless
/// that goes on with `./`.
pub proof fn law_lookup_ignores_leading_slash(path: Seq<char>)
    requires
        !begins_with(path, "./"@),
    ensures
        lookup_start("/"@ + path) == lookup_start(path),
{
    law_leading_slash_is_ignored(path);
}

/// A lookup begins by asking for the first of the places where the file may be.
pub proof fn law_lookup_starts_with_all_candidates(path: Seq<char>)
    ensures
        lookup_start(path) == (LookupView::Query {
            path: relative(path),
            rest: candidate_paths(relative(path)),
        }),
{
    law_only_import_moves_are_tried(relative(path));
}

/// A regular file ends a lookup. Anything else is passed over, and after the last
/// candidate the file is missing.
pub proof fn law_one_step_of_a_lookup(
    path: Seq<char>,
    candidate: Seq<char>,
    rest: Seq<Seq<char>>,
    kind: FileType,
)
    ensures
        lookup_next(path, seq![candidate] + rest, kind) == if kind == FileType::Regular {
            LookupView::Found { candidate }
        } else if rest.len() == 0 {
            LookupView::Missing { path }
        } else {
            LookupView::Query { path, rest }
        },
{
    assert((seq![candidate] + rest).drop_first() =~= rest);
}

/// The state of a lookup is told in full by the value that stands for it.
pub proof fn law_state_of_a_lookup(
    query: TypeQuery,
    found: FoundFile,
    missing: String,
    e: SourceError,
    l: LookupView,
)
    ensures
        Lookup::Query(query).is(l) <==> l is Query && query@ == l,
        Lookup::Found(found).is(l) <==> l == (LookupView::Found { candidate: found@ }),
        Lookup::Missing(SourceError::NotFound { path: missing }).is(l) <==> l == (
        LookupView::Missing { path: missing@ }),
        Lookup::Missing(e).is(l) ==> e is NotFound,
{
}

proof fn lemma_plain_path(path: Seq<char>)
    requires
        path.len() > 0,
        path[0] != '/',
        path[0] != '.',
    ensures
        relative(path) == path,
{
    reveal_strlit("./");
    assert(path.len() >= 2 ==> path.subrange(0, 2)[0] != '.');
    law_leading_slashes_are_cut_off(seq![], path);
    assert(seq![] + path =~= path);
}

/// A file below `/etc` is found in `/usr/etc` under the same name, if it is a regular file
/// there and there is none where the image has it.
pub proof fn law_file_of_etc_is_found(rest: Seq<char>, kinds: spec_fn(Seq<char>) -> FileType)
    requires
        kinds("etc/"@ + rest) != FileType::Regular,
    ensures
        lookup_result(lookup_start("etc/"@ + rest), kinds) == if kinds("usr/etc/"@ + rest)
            == FileType::Regular {
            LookupView::Found { candidate: "usr/etc/"@ + rest }
        } else {
            LookupView::Missing { path: "etc/"@ + rest }
        },
{
    reveal_strlit("etc/");
    lemma_plain_path("etc/"@ + rest);
    law_etc_candidates(rest);
    let all = seq!["etc/"@ + rest, "usr/etc/"@ + rest];
    if kinds("usr/etc/"@ + rest) == FileType::Regular {
        lemma_lookup_finds("etc/"@ + rest, all, kinds, 1);
    } else {
        lemma_lookup_misses("etc/"@ + rest, all, kinds);
    }
}

/// A file below `/var` is found in `/usr/share/factory/var` under the same name, if it is
/// a regular file there and there is none where the image has it.
pub proof fn law_file_of_var_is_found(rest: Seq<char>, kinds: spec_fn(Seq<char>) -> FileType)
    requires
        kinds("var/"@ + rest) != FileType::Regular,
    ensures
        lookup_result(lookup_start("var/"@ + rest), kinds) == if kinds(
            "usr/share/factory/var/"@ + rest,
        ) == FileType::Regular {
            LookupView::Found { candidate: "usr/share/factory/var/"@ + rest }
        } else {
            LookupView::Missing { path: "var/"@ + rest }
        },
{
    reveal_strlit("var/");
    lemma_plain_path("var/"@ + rest);
    law_var_candidates(rest);
    let all = seq!["var/"@ + rest, "usr/share/factory/var/"@ + rest];
    if kinds("usr/share/factory/var/"@ + rest) == FileType::Regular {
        lemma_lookup_finds("var/"@ + rest, all, kinds, 1);
    } else {
        lemma_lookup_misses("var/"@ + rest, all, kinds);
    }
}

/// A regular file that the commit has at a path is what a lookup of the path finds,
/// whatever lies elsewhere.
pub proof fn law_file_in_place_is_found(path: Seq<char>, kinds: spec_fn(Seq<char>) -> FileType)
    requires
        kinds(relative(path)) == FileType::Regular,
    ensures
        lookup_result(lookup_start(path), kinds) == (LookupView::Found {
            candidate: relative(path),
        }),
{
    law_only_import_moves_are_tried(relative(path));
    lemma_lookup_finds(relative(path), candidate_paths(relative(path)), kinds, 0);
}

/// A file outside `/etc` and `/var` is found at its path or not at all.
pub proof fn law_other_file_is_found_in_place_only(
    path: Seq<char>,
    kinds: spec_fn(Seq<char>) -> FileType,
)
    requires
        !"etc/"@.is_prefix_of(relative(path)),
        !"var/"@.is_prefix_of(relative(path)),
        kinds(relative(path)) != FileType::Regular,
    ensures
        lookup_result(lookup_start(path), kinds) == (LookupView::Missing { path: relative(path) }),
{
    let image_path = relative(path);
    law_prefix(image_path, "etc/"@, image_path);
    law_prefix(image_path, "var/"@, image_path);
    law_only_first_component_is_moved(image_path);
    lemma_lookup_misses(image_path, seq![image_path], kinds);
}

/// An error names what it is about: the path that was looked for, or the numbers that do
/// not fit.
pub proof fn law_text_of_a_source_error(path: String, a: u64, b: u64)
    ensures
        SourceError::ArchiveMode.text() == "OSTree archive repo mode is not supported"@,
        SourceError::NoCurrentFile.text() == "No current file set in data source"@,
        (SourceError::NotFound { path }).text()
            == "Delta source file not found in source commit: "@ + path@,
        (SourceError::TooLarge { size: a, max_size: b }).text() == "Source file too large: "@
            + decimal_text(a as nat) + " > "@ + decimal_text(b as nat),
        (SourceError::ShortRead { expected: a, copied: b }).text()
            == "Short read from delta source: expected "@ + decimal_text(a as nat) + ", got "@
            + decimal_text(b as nat),
{
}

} // verus!
