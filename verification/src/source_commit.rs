//! Finding the commit that a delta was built against.
//!
//! The source image of a delta is known by the digest of its config. It is
//! looked for first among the images that the repository stores and then among
//! the commits that are deployed. Deltas are applied offline, so an absent
//! source is fatal rather than a reason to go to the registry: a search asks for
//! nothing but what the repository holds. The first item that matches or that
//! cannot be read decides.
use vstd::prelude::*;

use crate::failure::Failure;
use crate::image::Digest;
use crate::layer_source::Delta;
use crate::least::lemma_least;
use crate::text::{joined, option_text, texts};

verus! {

/// A stored image.
#[derive(Debug)]
pub struct ImageState {
    /// The digest of its config.
    pub config: Digest,
    /// The commit that holds its files.
    pub merge_commit: String,
}

/// The repository does not hold the source of a delta.
#[derive(Debug)]
pub struct AbsentSource {
    /// The file that holds the delta.
    pub delta: String,
    /// The digest of the config of its source image.
    pub wanted: Digest,
}

impl AbsentSource {
    /// The text of the error.
    pub open spec fn text(self) -> Seq<char> {
        "Delta "@ + self.delta@ + " was built against the image with config "@ + self.wanted@
            + ", which is not present in this system's ostree repository. A delta can only be applied on top of its source image."@
    }

    /// The text of the error.
    pub fn message(&self) -> (r: String)
        ensures
            r@ == self.text(),
            r@ == "Delta "@ + self.delta@ + " was built against the image with config "@
                + self.wanted@
                + ", which is not present in this system's ostree repository. A delta can only be applied on top of its source image."@,
    {
        "Delta ".to_owned().concat(self.delta.as_str()).concat(
            " was built against the image with config ",
        ).concat(self.wanted.as_text().as_str()).concat(
            ", which is not present in this system's ostree repository. A delta can only be applied on top of its source image.",
        )
    }
}

/// Why the state of a stored image is not known.
#[derive(Debug)]
pub enum ImageFailure<E> {
    /// Its name is not an image reference.
    Reference(E),
    /// It could not be read.
    Query(E),
}

/// Why a search failed.
#[derive(Debug)]
pub enum SearchCause<E> {
    /// The repository does not hold the source.
    Absent(AbsentSource),
    /// The repository could not be read.
    Repository(E),
}

/// The state of a search. `E` is an error of the repository.
pub enum SearchView<E> {
    /// The names of the stored images are wanted.
    ListImages,
    /// The state of the first of the images `rest` is wanted.
    Images { rest: Seq<Seq<char>> },
    /// The deployed commits are wanted.
    ListDeployments,
    /// The config of the first of the commits `rest` is wanted.
    Deployments { rest: Seq<Seq<char>> },
    /// The commit that holds the source.
    Found { commit: Seq<char> },
    /// The repository does not hold the source.
    Absent,
    /// The repository could not be read. `reference` is the name of a stored
    /// image, if the cause is that it is not an image reference.
    Failed { reference: Option<Seq<char>>, cause: E },
}

/// What is being done when a search fails. Every failure is one in finding the
/// source; one in reading the name of an image gives the name too.
pub open spec fn failure_contexts(reference: Option<Seq<char>>) -> Seq<Seq<char>> {
    match reference {
        Some(image) => seq![
            "Finding delta source image"@,
            "Parsing stored image reference "@ + image,
        ],
        None => seq!["Finding delta source image"@],
    }
}

/// The search among the stored images `rest`.
pub open spec fn among_images<E>(rest: Seq<Seq<char>>) -> SearchView<E> {
    if rest.len() == 0 {
        SearchView::ListDeployments
    } else {
        SearchView::Images { rest }
    }
}

/// The search among the deployed commits `rest`.
pub open spec fn among_deployments<E>(rest: Seq<Seq<char>>) -> SearchView<E> {
    if rest.len() == 0 {
        SearchView::Absent
    } else {
        SearchView::Deployments { rest }
    }
}

/// The search after the stored images were listed.
pub open spec fn after_images<E>(images: Result<Seq<Seq<char>>, E>) -> SearchView<E> {
    match images {
        Ok(images) => among_images(images),
        Err(cause) => SearchView::Failed { reference: None, cause },
    }
}

/// The search for `wanted` after the state of the first of the images `rest` was
/// asked for: the digest of its config and its commit, or that there is no such
/// image.
pub open spec fn after_image<E>(
    wanted: Seq<char>,
    rest: Seq<Seq<char>>,
    state: Result<Option<(Seq<char>, Seq<char>)>, ImageFailure<E>>,
) -> SearchView<E> {
    match state {
        Err(ImageFailure::Reference(cause)) => SearchView::Failed {
            reference: Some(rest[0]),
            cause,
        },
        Err(ImageFailure::Query(cause)) => SearchView::Failed { reference: None, cause },
        Ok(Some((config, commit))) if config == wanted => SearchView::Found { commit },
        Ok(_) => among_images(rest.drop_first()),
    }
}

/// The search after the deployed commits were listed.
pub open spec fn after_deployments<E>(commits: Result<Seq<Seq<char>>, E>) -> SearchView<E> {
    match commits {
        Ok(commits) => among_deployments(commits),
        Err(cause) => SearchView::Failed { reference: None, cause },
    }
}

/// The search for `wanted` after the digest of the config of the first of the
/// commits `rest` was asked for.
pub open spec fn after_commit<E>(
    wanted: Seq<char>,
    rest: Seq<Seq<char>>,
    config: Result<Seq<char>, E>,
) -> SearchView<E> {
    match config {
        Err(cause) => SearchView::Failed { reference: None, cause },
        Ok(config) => if config == wanted {
            SearchView::Found { commit: rest[0] }
        } else {
            among_deployments(rest.drop_first())
        },
    }
}

/// The contents of a list of strings, if there is one.
pub open spec fn listed_texts<E>(list: Result<Vec<String>, E>) -> Result<Seq<Seq<char>>, E> {
    match list {
        Ok(list) => Ok(texts(list@)),
        Err(cause) => Err(cause),
    }
}

/// What the state of a stored image says.
pub open spec fn image_answer<E>(state: Result<Option<ImageState>, ImageFailure<E>>) -> Result<
    Option<(Seq<char>, Seq<char>)>,
    ImageFailure<E>,
> {
    match state {
        Ok(Some(state)) => Ok(Some((state.config@, state.merge_commit@))),
        Ok(None) => Ok(None),
        Err(failure) => Err(failure),
    }
}

/// The digest of the config of a commit, if it could be read.
pub open spec fn commit_answer<E>(config: Result<Digest, E>) -> Result<Seq<char>, E> {
    match config {
        Ok(config) => Ok(config@),
        Err(cause) => Err(cause),
    }
}

/// What is searched for.
#[derive(Debug)]
struct Goal {
    delta: String,
    wanted: Digest,
}

/// Asks for the names of the stored images.
#[derive(Debug)]
pub struct ImageList {
    goal: Goal,
}

/// Asks for the state of a stored image.
#[derive(Debug)]
pub struct ImageQuery {
    goal: Goal,
    images: Vec<String>,
    next: usize,
}

/// Asks for the deployed commits.
#[derive(Debug)]
pub struct DeploymentList {
    goal: Goal,
}

/// Asks for the config of a deployed commit.
#[derive(Debug)]
pub struct CommitQuery {
    goal: Goal,
    commits: Vec<String>,
    next: usize,
}

/// A search for the source of a delta.
#[derive(Debug)]
pub enum SourceSearch<E> {
    ListImages(ImageList),
    QueryImage(ImageQuery),
    ListDeployments(DeploymentList),
    QueryCommit(CommitQuery),
    /// This commit holds the source.
    Found(String),
    /// The source is absent, or the repository could not be read.
    Failed(Failure<SearchCause<E>>),
}

impl<E> SourceSearch<E> {
    /// Whether this is the search in state `v` for the image with the config
    /// `wanted`, on behalf of the delta in the file `delta`.
    pub open spec fn is(self, delta: Seq<char>, wanted: Seq<char>, v: SearchView<E>) -> bool {
        match self {
            SourceSearch::ListImages(list) => {
                v == SearchView::<E>::ListImages && list.delta() == delta && list.wanted()
                    == wanted
            },
            SourceSearch::QueryImage(query) => {
                &&& v == SearchView::<E>::Images { rest: query.rest() }
                &&& query.delta() == delta && query.wanted() == wanted
            },
            SourceSearch::ListDeployments(list) => {
                v == SearchView::<E>::ListDeployments && list.delta() == delta && list.wanted()
                    == wanted
            },
            SourceSearch::QueryCommit(query) => {
                &&& v == SearchView::<E>::Deployments { rest: query.rest() }
                &&& query.delta() == delta && query.wanted() == wanted
            },
            SourceSearch::Found(commit) => v == SearchView::<E>::Found { commit: commit@ },
            SourceSearch::Failed(failure) => match (failure.cause, v) {
                (SearchCause::Absent(e), SearchView::Absent) => {
                    &&& texts(failure.contexts@) == failure_contexts(None)
                    &&& e.delta@ == delta && e.wanted@ == wanted
                },
                (SearchCause::Repository(e), SearchView::Failed { reference, cause }) => {
                    &&& texts(failure.contexts@) == failure_contexts(reference)
                    &&& e == cause
                },
                _ => false,
            },
        }
    }
}

/// The failure of a search.
fn failed<E>(reference: Option<String>, cause: SearchCause<E>) -> (r: SourceSearch<E>)
    ensures
        r matches SourceSearch::Failed(failure) && failure.cause == cause && texts(
            failure.contexts@,
        ) == failure_contexts(option_text(reference)),
        r matches SourceSearch::Failed(failure) && failure.contexts@.len() > 0
            && failure.contexts@[0]@ == "Finding delta source image"@ && match reference {
            Some(image) => failure.contexts@.len() == 2 && failure.contexts@[1]@
                == "Parsing stored image reference "@ + image@,
            None => failure.contexts@.len() == 1,
        },
{
    let mut contexts: Vec<String> = Vec::new();
    contexts.push("Finding delta source image".to_owned());
    if let Some(image) = &reference {
        contexts.push(joined("Parsing stored image reference ", image.as_str()));
    }
    assert(texts(contexts@) =~= failure_contexts(option_text(reference)));
    assert(forall|i: int|
        0 <= i < contexts@.len() ==> contexts@[i]@ == #[trigger] texts(contexts@)[i]);
    SourceSearch::Failed(Failure { contexts, cause })
}

/// Starts to search for the commit that holds the image that `delta` was built
/// against.
pub fn find_source_commit<E>(delta: &Delta) -> (r: SourceSearch<E>)
    ensures
        r.is(delta.path@, delta.source_config_digest@, SearchView::ListImages),
        r matches SourceSearch::ListImages(list) && list.delta() == delta.path@ && list.wanted()
            == delta.source_config_digest@,
{
    SourceSearch::ListImages(
        ImageList {
            goal: Goal { delta: delta.path.clone(), wanted: delta.source_config_digest.clone() },
        },
    )
}

impl ImageList {
    pub closed spec fn delta(self) -> Seq<char> {
        self.goal.delta@
    }

    pub closed spec fn wanted(self) -> Seq<char> {
        self.goal.wanted@
    }

    /// Goes on with the names of the stored images.
    pub fn listed<E>(self, images: Result<Vec<String>, E>) -> (r: SourceSearch<E>)
        ensures
            r.is(self.delta(), self.wanted(), after_images(listed_texts(images))),
            match (images, r) {
                (Ok(list), SourceSearch::QueryImage(query)) => {
                    &&& list@.len() > 0
                    &&& query.rest().len() == list@.len()
                    &&& forall|i: int|
                        0 <= i < list@.len() ==> #[trigger] query.rest()[i] == list@[i]@
                    &&& query.delta() == self.delta() && query.wanted() == self.wanted()
                },
                (Ok(list), SourceSearch::ListDeployments(next)) => {
                    &&& list@.len() == 0
                    &&& next.delta() == self.delta() && next.wanted() == self.wanted()
                },
                (Err(cause), SourceSearch::Failed(failure)) => {
                    &&& failure.cause == SearchCause::Repository(cause)
                    &&& failure.contexts@.len() == 1
                    &&& failure.contexts@[0]@ == "Finding delta source image"@
                },
                _ => false,
            },
    {
        match images {
            Ok(images) => {
                assert(texts(images@).skip(0) =~= texts(images@));
                ImageQuery::among(self.goal, images, 0)
            },
            Err(cause) => failed(None, SearchCause::Repository(cause)),
        }
    }
}

impl ImageQuery {
    pub closed spec fn delta(self) -> Seq<char> {
        self.goal.delta@
    }

    pub closed spec fn wanted(self) -> Seq<char> {
        self.goal.wanted@
    }

    /// The images that are not yet examined.
    pub closed spec fn rest(self) -> Seq<Seq<char>> {
        texts(self.images@).skip(self.next as int)
    }

    #[verifier::type_invariant]
    spec fn has_image(self) -> bool {
        self.next < self.images.len()
    }

    fn among<E>(goal: Goal, images: Vec<String>, next: usize) -> (r: SourceSearch<E>)
        requires
            next <= images@.len(),
        ensures
            r.is(goal.delta@, goal.wanted@, among_images(texts(images@).skip(next as int))),
    {
        if next < images.len() {
            SourceSearch::QueryImage(ImageQuery { goal, images, next })
        } else {
            SourceSearch::ListDeployments(DeploymentList { goal })
        }
    }

    /// The image whose state is wanted.
    pub fn image(&self) -> (r: &str)
        ensures
            self.rest().len() > 0,
            r@ == self.rest()[0],
    {
        proof {
            use_type_invariant(self);
        }
        self.images[self.next].as_str()
    }

    /// Goes on with the state of the image, or with its absence.
    pub fn answer<E>(self, state: Result<Option<ImageState>, ImageFailure<E>>) -> (r: SourceSearch<
        E,
    >)
        ensures
            r.is(
                self.delta(),
                self.wanted(),
                after_image(self.wanted(), self.rest(), image_answer(state)),
            ),
            match (state, r) {
                (Ok(Some(state)), SourceSearch::Found(commit)) => {
                    &&& state.config@ == self.wanted()
                    &&& commit@ == state.merge_commit@
                },
                (Ok(state), SourceSearch::QueryImage(query)) => {
                    &&& state matches Some(state) ==> state.config@ != self.wanted()
                    &&& self.rest().len() > 1
                    &&& query.rest() == self.rest().drop_first()
                    &&& query.delta() == self.delta() && query.wanted() == self.wanted()
                },
                (Ok(state), SourceSearch::ListDeployments(list)) => {
                    &&& state matches Some(state) ==> state.config@ != self.wanted()
                    &&& self.rest().len() == 1
                    &&& list.delta() == self.delta() && list.wanted() == self.wanted()
                },
                (Err(ImageFailure::Reference(cause)), SourceSearch::Failed(failure)) => {
                    &&& failure.cause == SearchCause::Repository(cause)
                    &&& failure.contexts@.len() == 2
                    &&& failure.contexts@[0]@ == "Finding delta source image"@
                    &&& failure.contexts@[1]@ == "Parsing stored image reference "@
                        + self.rest()[0]
                },
                (Err(ImageFailure::Query(cause)), SourceSearch::Failed(failure)) => {
                    &&& failure.cause == SearchCause::Repository(cause)
                    &&& failure.contexts@.len() == 1
                    &&& failure.contexts@[0]@ == "Finding delta source image"@
                },
                _ => false,
            },
    {
        proof {
            use_type_invariant(&self);
        }
        let ghost all = texts(self.images@);
        assert(all.skip(self.next as int).drop_first() =~= all.skip(self.next + 1));
        match state {
            Ok(Some(state)) => {
                if state.config == self.goal.wanted {
                    SourceSearch::Found(state.merge_commit)
                } else {
                    ImageQuery::among(self.goal, self.images, self.next + 1)
                }
            },
            Ok(None) => ImageQuery::among(self.goal, self.images, self.next + 1),
            Err(ImageFailure::Reference(cause)) => failed(
                Some(self.images[self.next].clone()),
                SearchCause::Repository(cause),
            ),
            Err(ImageFailure::Query(cause)) => failed(None, SearchCause::Repository(cause)),
        }
    }
}

impl DeploymentList {
    pub closed spec fn delta(self) -> Seq<char> {
        self.goal.delta@
    }

    pub closed spec fn wanted(self) -> Seq<char> {
        self.goal.wanted@
    }

    /// Goes on with the deployed commits.
    pub fn listed<E>(self, commits: Result<Vec<String>, E>) -> (r: SourceSearch<E>)
        ensures
            r.is(self.delta(), self.wanted(), after_deployments(listed_texts(commits))),
            match (commits, r) {
                (Ok(list), SourceSearch::QueryCommit(query)) => {
                    &&& list@.len() > 0
                    &&& query.rest().len() == list@.len()
                    &&& forall|i: int|
                        0 <= i < list@.len() ==> #[trigger] query.rest()[i] == list@[i]@
                    &&& query.delta() == self.delta() && query.wanted() == self.wanted()
                },
                (Ok(list), SourceSearch::Failed(failure)) => {
                    &&& list@.len() == 0
                    &&& failure.cause matches SearchCause::Absent(e) && e.delta@ == self.delta()
                        && e.wanted@ == self.wanted()
                    &&& failure.contexts@.len() == 1
                    &&& failure.contexts@[0]@ == "Finding delta source image"@
                },
                (Err(cause), SourceSearch::Failed(failure)) => {
                    &&& failure.cause == SearchCause::Repository(cause)
                    &&& failure.contexts@.len() == 1
                    &&& failure.contexts@[0]@ == "Finding delta source image"@
                },
                _ => false,
            },
    {
        match commits {
            Ok(commits) => {
                assert(texts(commits@).skip(0) =~= texts(commits@));
                CommitQuery::among(self.goal, commits, 0)
            },
            Err(cause) => failed(None, SearchCause::Repository(cause)),
        }
    }
}

impl CommitQuery {
    pub closed spec fn delta(self) -> Seq<char> {
        self.goal.delta@
    }

    pub closed spec fn wanted(self) -> Seq<char> {
        self.goal.wanted@
    }

    /// The commits that are not yet examined.
    pub closed spec fn rest(self) -> Seq<Seq<char>> {
        texts(self.commits@).skip(self.next as int)
    }

    #[verifier::type_invariant]
    spec fn has_commit(self) -> bool {
        self.next < self.commits.len()
    }

    fn among<E>(goal: Goal, commits: Vec<String>, next: usize) -> (r: SourceSearch<E>)
        requires
            next <= commits@.len(),
        ensures
            r.is(goal.delta@, goal.wanted@, among_deployments(texts(commits@).skip(next as int))),
            r matches SourceSearch::Failed(failure) ==> failure.contexts@.len() == 1
                && failure.contexts@[0]@ == "Finding delta source image"@,
    {
        if next < commits.len() {
            SourceSearch::QueryCommit(CommitQuery { goal, commits, next })
        } else {
            failed(
                None,
                SearchCause::Absent(AbsentSource { delta: goal.delta, wanted: goal.wanted }),
            )
        }
    }

    /// The commit whose config is wanted.
    pub fn commit(&self) -> (r: &str)
        ensures
            self.rest().len() > 0,
            r@ == self.rest()[0],
    {
        proof {
            use_type_invariant(self);
        }
        self.commits[self.next].as_str()
    }

    /// Goes on with the digest of the config of the commit.
    pub fn answer<E>(self, config: Result<Digest, E>) -> (r: SourceSearch<E>)
        ensures
            r.is(
                self.delta(),
                self.wanted(),
                after_commit(self.wanted(), self.rest(), commit_answer(config)),
            ),
            match (config, r) {
                (Ok(config), SourceSearch::Found(commit)) => {
                    &&& config@ == self.wanted()
                    &&& commit@ == self.rest()[0]
                },
                (Ok(config), SourceSearch::QueryCommit(query)) => {
                    &&& config@ != self.wanted()
                    &&& self.rest().len() > 1
                    &&& query.rest() == self.rest().drop_first()
                    &&& query.delta() == self.delta() && query.wanted() == self.wanted()
                },
                (Ok(config), SourceSearch::Failed(failure)) => {
                    &&& config@ != self.wanted()
                    &&& self.rest().len() == 1
                    &&& failure.cause matches SearchCause::Absent(e) && e.delta@ == self.delta()
                        && e.wanted@ == self.wanted()
                    &&& failure.contexts@.len() == 1
                    &&& failure.contexts@[0]@ == "Finding delta source image"@
                },
                (Err(cause), SourceSearch::Failed(failure)) => {
                    &&& failure.cause == SearchCause::Repository(cause)
                    &&& failure.contexts@.len() == 1
                    &&& failure.contexts@[0]@ == "Finding delta source image"@
                },
                _ => false,
            },
    {
        proof {
            use_type_invariant(&self);
        }
        let ghost all = texts(self.commits@);
        assert(all.skip(self.next as int).drop_first() =~= all.skip(self.next + 1));
        match config {
            Ok(config) => {
                if config == self.goal.wanted {
                    SourceSearch::Found(self.commits[self.next].clone())
                } else {
                    CommitQuery::among(self.goal, self.commits, self.next + 1)
                }
            },
            Err(cause) => failed(None, SearchCause::Repository(cause)),
        }
    }
}

/// What a repository answers to a search. `E` is an error of the repository.
pub struct RepoView<E> {
    /// The names of the stored images.
    pub images: Result<Seq<Seq<char>>, E>,
    /// For the name of an image, the digest of its config and its commit.
    pub image: spec_fn(Seq<char>) -> Result<Option<(Seq<char>, Seq<char>)>, ImageFailure<E>>,
    /// The deployed commits.
    pub deployments: Result<Seq<Seq<char>>, E>,
    /// For a commit, the digest of the config of the image that it holds.
    pub config: spec_fn(Seq<char>) -> Result<Seq<char>, E>,
}

impl<E> RepoView<E> {
    /// Whether the stored image at `i` has the config `wanted` and the commit `commit`.
    pub open spec fn image_matches(self, wanted: Seq<char>, i: int, commit: Seq<char>) -> bool {
        &&& self.images matches Ok(images) && 0 <= i < images.len() && (self.image)(images[i])
            == Ok::<_, ImageFailure<E>>(Some((wanted, commit)))
    }

    /// Whether the stored image at `i` cannot be read, because of `failure`.
    pub open spec fn image_fails(self, i: int, failure: ImageFailure<E>) -> bool {
        &&& self.images matches Ok(images) && 0 <= i < images.len() && (self.image)(images[i])
            == Err::<Option<(Seq<char>, Seq<char>)>, _>(failure)
    }

    /// Whether a search for `wanted` ends with the stored image at `i`, if it gets there.
    pub open spec fn image_decides(self, wanted: Seq<char>, i: int) -> bool {
        &&& self.images matches Ok(images) && 0 <= i < images.len() && match (self.image)(
            images[i],
        ) {
            Err(_) => true,
            Ok(Some((config, _))) => config == wanted,
            Ok(None) => false,
        }
    }

    /// Whether the deployed commit at `i` is `commit` and has the config `wanted`.
    pub open spec fn deployment_matches(
        self,
        wanted: Seq<char>,
        i: int,
        commit: Seq<char>,
    ) -> bool {
        &&& self.deployments matches Ok(commits) && 0 <= i < commits.len() && commits[i] == commit
            && (self.config)(commit) == Ok::<_, E>(wanted)
    }

    /// Whether the deployed commit at `i` cannot be read, because of `cause`.
    pub open spec fn deployment_fails(self, i: int, cause: E) -> bool {
        &&& self.deployments matches Ok(commits) && 0 <= i < commits.len() && (self.config)(
            commits[i],
        ) == Err::<Seq<char>, _>(cause)
    }

    /// Whether a search for `wanted` ends with the deployed commit at `i`, if it gets there.
    pub open spec fn deployment_decides(self, wanted: Seq<char>, i: int) -> bool {
        &&& self.deployments matches Ok(commits) && 0 <= i < commits.len() && match (self.config)(
            commits[i],
        ) {
            Err(_) => true,
            Ok(config) => config == wanted,
        }
    }

    /// Whether the stored image at `i` is the first with which a search ends.
    pub open spec fn is_first_image(self, wanted: Seq<char>, i: int) -> bool {
        &&& self.image_decides(wanted, i)
        &&& forall|j: int| 0 <= j < i ==> !#[trigger] self.image_decides(wanted, j)
    }

    /// Whether the deployed commit at `i` is the first with which a search ends.
    pub open spec fn is_first_deployment(self, wanted: Seq<char>, i: int) -> bool {
        &&& self.deployment_decides(wanted, i)
        &&& forall|j: int| 0 <= j < i ==> !#[trigger] self.deployment_decides(wanted, j)
    }
}

/// The state after `v`, with what `repo` answers.
pub open spec fn search_next<E>(
    v: SearchView<E>,
    repo: RepoView<E>,
    wanted: Seq<char>,
) -> SearchView<E> {
    match v {
        SearchView::ListImages => after_images(repo.images),
        SearchView::Images { rest } => after_image(wanted, rest, (repo.image)(rest[0])),
        SearchView::ListDeployments => after_deployments(repo.deployments),
        SearchView::Deployments { rest } => after_commit(wanted, rest, (repo.config)(rest[0])),
        _ => v,
    }
}

/// How many kinds of questions may still follow.
pub open spec fn phase<E>(v: SearchView<E>) -> nat {
    match v {
        SearchView::ListImages => 4,
        SearchView::Images { rest } => 3,
        SearchView::ListDeployments => 2,
        SearchView::Deployments { rest } => 1,
        _ => 0,
    }
}

/// How many questions of the present kind may still follow.
pub open spec fn unexamined<E>(v: SearchView<E>) -> nat {
    match v {
        SearchView::Images { rest } => rest.len(),
        SearchView::Deployments { rest } => rest.len(),
        _ => 0,
    }
}

/// How a search for `wanted` in `repo` ends, from the state `v`.
pub open spec fn search_result<E>(
    v: SearchView<E>,
    repo: RepoView<E>,
    wanted: Seq<char>,
) -> SearchView<E>
    decreases phase(v), unexamined(v),
{
    match v {
        SearchView::Found { .. } => v,
        SearchView::Absent => v,
        SearchView::Failed { .. } => v,
        SearchView::Images { rest } if rest.len() == 0 => v,
        SearchView::Deployments { rest } if rest.len() == 0 => v,
        _ => search_result(search_next(v, repo, wanted), repo, wanted),
    }
}

/// How a whole search for `wanted` in `repo` ends.
pub open spec fn search_end<E>(repo: RepoView<E>, wanted: Seq<char>) -> SearchView<E> {
    search_result(SearchView::ListImages, repo, wanted)
}

/// How a search for `wanted` ends, told without its steps: the first listing or
/// item that matches or that cannot be read decides.
pub open spec fn search_decision<E>(repo: RepoView<E>, wanted: Seq<char>) -> SearchView<E> {
    match repo.images {
        Err(cause) => SearchView::Failed { reference: None, cause },
        Ok(images) => if exists|i: int| repo.is_first_image(wanted, i) {
            let image = images[choose|i: int| repo.is_first_image(wanted, i)];
            match (repo.image)(image) {
                Err(ImageFailure::Reference(cause)) => SearchView::Failed {
                    reference: Some(image),
                    cause,
                },
                Err(ImageFailure::Query(cause)) => SearchView::Failed { reference: None, cause },
                Ok(state) => SearchView::Found { commit: (state->0).1 },
            }
        } else {
            match repo.deployments {
                Err(cause) => SearchView::Failed { reference: None, cause },
                Ok(commits) => if exists|i: int| repo.is_first_deployment(wanted, i) {
                    let commit = commits[choose|i: int| repo.is_first_deployment(wanted, i)];
                    match (repo.config)(commit) {
                        Err(cause) => SearchView::Failed { reference: None, cause },
                        Ok(_) => SearchView::Found { commit },
                    }
                } else {
                    SearchView::Absent
                },
            }
        },
    }
}

/// From the image `k` on, the search ends with the first image that decides.
proof fn lemma_image_decides<E>(repo: RepoView<E>, wanted: Seq<char>, k: int, i: int)
    requires
        0 <= k <= i,
        repo.image_decides(wanted, i),
        forall|j: int| k <= j < i ==> !#[trigger] repo.image_decides(wanted, j),
    ensures
        search_result(among_images(repo.images->Ok_0.skip(k)), repo, wanted) == after_image(
            wanted,
            repo.images->Ok_0.skip(i),
            (repo.image)(repo.images->Ok_0[i]),
        ),
    decreases i - k,
{
    reveal_with_fuel(search_result, 2);
    let images = repo.images->Ok_0;
    let rest = images.skip(k);
    assert(rest[0] == images[k]);
    if k < i {
        assert(!repo.image_decides(wanted, k));
        assert(rest.drop_first() =~= images.skip(k + 1));
        lemma_image_decides(repo, wanted, k + 1, i);
    }
}

/// If none of the images from `k` on decides, the search goes on to the deployed
/// commits.
proof fn lemma_no_image_decides<E>(repo: RepoView<E>, wanted: Seq<char>, k: int)
    requires
        repo.images is Ok,
        0 <= k <= repo.images->Ok_0.len(),
        forall|j: int| k <= j ==> !#[trigger] repo.image_decides(wanted, j),
    ensures
        search_result(among_images(repo.images->Ok_0.skip(k)), repo, wanted) == search_result(
            SearchView::ListDeployments,
            repo,
            wanted,
        ),
    decreases repo.images->Ok_0.len() - k,
{
    let images = repo.images->Ok_0;
    let rest = images.skip(k);
    if k < images.len() {
        assert(rest[0] == images[k]);
        assert(!repo.image_decides(wanted, k));
        assert(rest.drop_first() =~= images.skip(k + 1));
        lemma_no_image_decides(repo, wanted, k + 1);
    }
}

/// From the commit `k` on, the search ends with the first commit that decides.
proof fn lemma_deployment_decides<E>(repo: RepoView<E>, wanted: Seq<char>, k: int, i: int)
    requires
        0 <= k <= i,
        repo.deployment_decides(wanted, i),
        forall|j: int| k <= j < i ==> !#[trigger] repo.deployment_decides(wanted, j),
    ensures
        search_result(among_deployments(repo.deployments->Ok_0.skip(k)), repo, wanted)
            == after_commit(
            wanted,
            repo.deployments->Ok_0.skip(i),
            (repo.config)(repo.deployments->Ok_0[i]),
        ),
    decreases i - k,
{
    reveal_with_fuel(search_result, 2);
    let commits = repo.deployments->Ok_0;
    let rest = commits.skip(k);
    assert(rest[0] == commits[k]);
    if k < i {
        assert(!repo.deployment_decides(wanted, k));
        assert(rest.drop_first() =~= commits.skip(k + 1));
        lemma_deployment_decides(repo, wanted, k + 1, i);
    }
}

/// If none of the commits from `k` on decides, the source is absent.
proof fn lemma_no_deployment_decides<E>(repo: RepoView<E>, wanted: Seq<char>, k: int)
    requires
        repo.deployments is Ok,
        0 <= k <= repo.deployments->Ok_0.len(),
        forall|j: int| k <= j ==> !#[trigger] repo.deployment_decides(wanted, j),
    ensures
        search_result(among_deployments(repo.deployments->Ok_0.skip(k)), repo, wanted)
            == SearchView::<E>::Absent,
    decreases repo.deployments->Ok_0.len() - k,
{
    let commits = repo.deployments->Ok_0;
    let rest = commits.skip(k);
    if k < commits.len() {
        assert(rest[0] == commits[k]);
        assert(!repo.deployment_decides(wanted, k));
        assert(rest.drop_first() =~= commits.skip(k + 1));
        lemma_no_deployment_decides(repo, wanted, k + 1);
    }
}

/// If some stored image decides, there is a first one.
proof fn lemma_first_image<E>(repo: RepoView<E>, wanted: Seq<char>)
    ensures
        (exists|i: int| repo.image_decides(wanted, i)) ==> exists|i: int|
            repo.is_first_image(wanted, i),
{
    if exists|i: int| repo.image_decides(wanted, i) {
        let k = choose|i: int| repo.image_decides(wanted, i);
        let decides = |i: int| repo.image_decides(wanted, i);
        let i = lemma_least(decides, k);
        assert forall|j: int| 0 <= j < i implies !#[trigger] repo.image_decides(wanted, j) by {
            assert(!decides(j));
        }
        assert(repo.is_first_image(wanted, i));
    }
}

/// If some deployed commit decides, there is a first one.
proof fn lemma_first_deployment<E>(repo: RepoView<E>, wanted: Seq<char>)
    ensures
        (exists|i: int| repo.deployment_decides(wanted, i)) ==> exists|i: int|
            repo.is_first_deployment(wanted, i),
{
    if exists|i: int| repo.deployment_decides(wanted, i) {
        let k = choose|i: int| repo.deployment_decides(wanted, i);
        let decides = |i: int| repo.deployment_decides(wanted, i);
        let i = lemma_least(decides, k);
        assert forall|j: int| 0 <= j < i implies !#[trigger] repo.deployment_decides(
            wanted,
            j,
        ) by {
            assert(!decides(j));
        }
        assert(repo.is_first_deployment(wanted, i));
    }
}

/// The first listing or item that matches or that cannot be read decides a
/// search, whatever comes after it. If there is none, the source is absent.
pub proof fn law_first_deciding_item_decides<E>(repo: RepoView<E>, wanted: Seq<char>)
    ensures
        search_end(repo, wanted) == search_decision(repo, wanted),
{
    reveal_with_fuel(search_result, 2);
    lemma_first_image(repo, wanted);
    lemma_first_deployment(repo, wanted);
    if let Ok(images) = repo.images {
        assert(images.skip(0) =~= images);
        if exists|i: int| repo.is_first_image(wanted, i) {
            let i = choose|i: int| repo.is_first_image(wanted, i);
            assert(images.skip(i)[0] == images[i]);
            lemma_image_decides(repo, wanted, 0, i);
        } else {
            lemma_no_image_decides(repo, wanted, 0);
            if let Ok(commits) = repo.deployments {
                assert(commits.skip(0) =~= commits);
                if exists|i: int| repo.is_first_deployment(wanted, i) {
                    let i = choose|i: int| repo.is_first_deployment(wanted, i);
                    assert(commits.skip(i)[0] == commits[i]);
                    lemma_deployment_decides(repo, wanted, 0, i);
                } else {
                    lemma_no_deployment_decides(repo, wanted, 0);
                }
            }
        }
    }
}

/// A listing that fails ends the search with its cause: that of the stored images
/// in any case, that of the deployed commits if no stored image decides.
pub proof fn law_failed_listing_is_fatal<E>(repo: RepoView<E>, wanted: Seq<char>, cause: E)
    requires
        repo.images == Err::<Seq<Seq<char>>, E>(cause) || {
            &&& repo.images is Ok
            &&& forall|i: int| !#[trigger] repo.image_decides(wanted, i)
            &&& repo.deployments == Err::<Seq<Seq<char>>, E>(cause)
        },
    ensures
        search_end(repo, wanted) == (SearchView::Failed { reference: None, cause }),
{
    law_first_deciding_item_decides(repo, wanted);
}

/// The search ends with the commit of the first stored image that has the wanted
/// config, if every image before it could be read. What comes after it, and what
/// is deployed, is not asked for.
pub proof fn law_first_stored_image_is_the_source<E>(
    repo: RepoView<E>,
    wanted: Seq<char>,
    i: int,
    commit: Seq<char>,
)
    requires
        repo.image_matches(wanted, i, commit),
        forall|j: int| 0 <= j < i ==> !#[trigger] repo.image_decides(wanted, j),
    ensures
        search_end(repo, wanted) == (SearchView::<E>::Found { commit }),
{
    assert(repo.is_first_image(wanted, i));
    law_first_deciding_item_decides(repo, wanted);
}

/// A stored image that cannot be read ends the search with its cause, even if a
/// later one has the wanted config. If its name is not an image reference, the
/// failure gives the name.
pub proof fn law_unreadable_image_is_fatal<E>(
    repo: RepoView<E>,
    wanted: Seq<char>,
    i: int,
    failure: ImageFailure<E>,
)
    requires
        repo.image_fails(i, failure),
        forall|j: int| 0 <= j < i ==> !#[trigger] repo.image_decides(wanted, j),
    ensures
        search_end(repo, wanted) == (match failure {
            ImageFailure::Reference(cause) => SearchView::Failed {
                reference: Some(repo.images->Ok_0[i]),
                cause,
            },
            ImageFailure::Query(cause) => SearchView::Failed { reference: None, cause },
        }),
{
    assert(repo.is_first_image(wanted, i));
    law_first_deciding_item_decides(repo, wanted);
}

/// If no stored image decides, the search ends with the first deployed commit
/// that has the wanted config, if every commit before it could be read.
pub proof fn law_first_deployment_is_the_fallback<E>(
    repo: RepoView<E>,
    wanted: Seq<char>,
    i: int,
    commit: Seq<char>,
)
    requires
        repo.images is Ok,
        forall|j: int| !#[trigger] repo.image_decides(wanted, j),
        repo.deployment_matches(wanted, i, commit),
        forall|j: int| 0 <= j < i ==> !#[trigger] repo.deployment_decides(wanted, j),
    ensures
        search_end(repo, wanted) == (SearchView::<E>::Found { commit }),
{
    assert(repo.is_first_deployment(wanted, i));
    law_first_deciding_item_decides(repo, wanted);
}

/// If no stored image decides, a deployed commit that cannot be read ends the
/// search with its cause, even if a later one has the wanted config.
pub proof fn law_unreadable_deployment_is_fatal<E>(
    repo: RepoView<E>,
    wanted: Seq<char>,
    i: int,
    cause: E,
)
    requires
        repo.images is Ok,
        forall|j: int| !#[trigger] repo.image_decides(wanted, j),
        repo.deployment_fails(i, cause),
        forall|j: int| 0 <= j < i ==> !#[trigger] repo.deployment_decides(wanted, j),
    ensures
        search_end(repo, wanted) == (SearchView::Failed { reference: None, cause }),
{
    assert(repo.is_first_deployment(wanted, i));
    law_first_deciding_item_decides(repo, wanted);
}

/// A search always ends, and it finds the source to be absent exactly if
/// everything could be read and no stored image and no deployed commit has the
/// wanted config.
pub proof fn law_absent_source_is_fatal<E>(repo: RepoView<E>, wanted: Seq<char>)
    ensures
        search_end(repo, wanted) is Found || search_end(repo, wanted) is Absent || search_end(
            repo,
            wanted,
        ) is Failed,
        search_end(repo, wanted) is Absent <==> {
            &&& repo.images is Ok
            &&& forall|i: int| !#[trigger] repo.image_decides(wanted, i)
            &&& repo.deployments is Ok
            &&& forall|i: int| !#[trigger] repo.deployment_decides(wanted, i)
        },
{
    law_first_deciding_item_decides(repo, wanted);
    lemma_first_image(repo, wanted);
    lemma_first_deployment(repo, wanted);
}

/// The commit that a search finds holds the image with the wanted config.
pub proof fn law_found_commit_has_the_wanted_config<E>(
    repo: RepoView<E>,
    wanted: Seq<char>,
    commit: Seq<char>,
)
    requires
        search_end(repo, wanted) == (SearchView::<E>::Found { commit }),
    ensures
        (exists|i: int| repo.image_matches(wanted, i, commit)) || (exists|i: int|
            repo.deployment_matches(wanted, i, commit)),
{
    law_first_deciding_item_decides(repo, wanted);
    if exists|i: int| repo.is_first_image(wanted, i) {
        let i = choose|i: int| repo.is_first_image(wanted, i);
        assert(repo.image_matches(wanted, i, commit));
    } else {
        let i = choose|i: int| repo.is_first_deployment(wanted, i);
        assert(repo.deployment_matches(wanted, i, commit));
    }
}

/// Every failure of a search is one in finding the source of the delta.
pub proof fn law_every_failure_names_the_task<E>(
    search: SourceSearch<E>,
    delta: Seq<char>,
    wanted: Seq<char>,
    v: SearchView<E>,
    failure: Failure<SearchCause<E>>,
)
    requires
        search.is(delta, wanted, v),
        search == SourceSearch::Failed(failure),
    ensures
        failure.contexts@.len() > 0,
        failure.contexts@[0]@ == "Finding delta source image"@,
{
    let contexts = texts(failure.contexts@);
    assert(contexts.len() == failure.contexts@.len());
    assert(contexts.len() > 0 && contexts[0] == "Finding delta source image"@);
}

/// The answer about a stored image is what its state says, character by character.
pub proof fn law_answer_about_an_image<E>(state: ImageState, failure: ImageFailure<E>)
    ensures
        image_answer::<E>(Ok(Some(state))) == Ok::<_, ImageFailure<E>>(
            Some((state.config@, state.merge_commit@)),
        ),
        image_answer::<E>(Ok(None)) == Ok::<Option<(Seq<char>, Seq<char>)>, ImageFailure<E>>(None),
        image_answer::<E>(Err(failure)) == Err::<Option<(Seq<char>, Seq<char>)>, _>(failure),
{
}

/// The answer about a deployed commit is the digest of its config, character by character.
pub proof fn law_answer_about_a_commit<E>(config: Digest, cause: E)
    ensures
        commit_answer::<E>(Ok(config)) == Ok::<_, E>(config@),
        commit_answer::<E>(Err(cause)) == Err::<Seq<char>, _>(cause),
{
}

/// A listing is answered with the listed texts, each at its place.
pub proof fn law_answer_of_a_listing<E>(list: Vec<String>, cause: E)
    ensures
        listed_texts::<E>(Ok(list)) matches Ok(all) && all.len() == list@.len() && forall|i: int|
            0 <= i < list@.len() ==> #[trigger] all[i] == list@[i]@,
        listed_texts::<E>(Err(cause)) == Err::<Seq<Seq<char>>, _>(cause),
{
}

/// A stored image with the wanted config ends the search with its whole merge commit. One
/// with another config, or that is gone, is passed over.
pub proof fn law_stored_image_decides_by_its_config<E>(
    wanted: Seq<char>,
    image: Seq<char>,
    rest: Seq<Seq<char>>,
    state: ImageState,
)
    ensures
        after_image::<E>(wanted, seq![image] + rest, image_answer(Ok(Some(state)))) == if
            state.config@ == wanted {
            SearchView::<E>::Found { commit: state.merge_commit@ }
        } else if rest.len() == 0 {
            SearchView::<E>::ListDeployments
        } else {
            SearchView::<E>::Images { rest }
        },
        after_image::<E>(wanted, seq![image] + rest, image_answer(Ok(None))) == if rest.len()
            == 0 {
            SearchView::<E>::ListDeployments
        } else {
            SearchView::<E>::Images { rest }
        },
{
    assert((seq![image] + rest).drop_first() =~= rest);
}

/// A deployed commit whose config has the wanted digest ends the search with that commit.
/// One with another digest is passed over, and after the last the source is absent.
pub proof fn law_deployed_commit_decides_by_its_config<E>(
    wanted: Seq<char>,
    commit: Seq<char>,
    rest: Seq<Seq<char>>,
    config: Digest,
)
    ensures
        after_commit::<E>(wanted, seq![commit] + rest, commit_answer(Ok(config))) == if config@
            == wanted {
            SearchView::<E>::Found { commit }
        } else if rest.len() == 0 {
            SearchView::<E>::Absent
        } else {
            SearchView::<E>::Deployments { rest }
        },
{
    assert((seq![commit] + rest).drop_first() =~= rest);
}

/// What cannot be read ends the search with its cause. A name that is not an image
/// reference is told too.
pub proof fn law_unreadable_item_ends_the_search<E>(
    wanted: Seq<char>,
    item: Seq<char>,
    rest: Seq<Seq<char>>,
    cause: E,
)
    ensures
        after_image(
            wanted,
            seq![item] + rest,
            image_answer(Err(ImageFailure::Reference(cause))),
        ) == (SearchView::Failed { reference: Some(item), cause }),
        after_image(wanted, seq![item] + rest, image_answer(Err(ImageFailure::Query(cause)))) == (
        SearchView::Failed { reference: None, cause }),
        after_commit(wanted, seq![item] + rest, commit_answer(Err(cause))) == (
        SearchView::Failed { reference: None, cause }),
        after_images(listed_texts(Err(cause))) == (SearchView::Failed { reference: None, cause }),
        after_deployments(listed_texts(Err(cause))) == (SearchView::Failed {
            reference: None,
            cause,
        }),
{
}

/// After a listing the search goes through all that was listed, in order. Without stored
/// images it goes on to the deployed commits, and without those the source is absent.
pub proof fn law_listing_is_searched_in_order<E>(list: Vec<String>)
    ensures
        after_images::<E>(listed_texts(Ok(list))) == if list@.len() == 0 {
            SearchView::<E>::ListDeployments
        } else {
            SearchView::<E>::Images { rest: list@.map_values(|s: String| s@) }
        },
        after_deployments::<E>(listed_texts(Ok(list))) == if list@.len() == 0 {
            SearchView::<E>::Absent
        } else {
            SearchView::<E>::Deployments { rest: list@.map_values(|s: String| s@) }
        },
{
    assert(texts(list@) =~= list@.map_values(|s: String| s@));
}

/// A search that found a commit is in the state of having found that very commit, and a
/// search that failed in that of having failed from that very cause.
pub proof fn law_state_of_an_ended_search<E>(
    commit: String,
    failure: Failure<SearchCause<E>>,
    delta: Seq<char>,
    wanted: Seq<char>,
    v: SearchView<E>,
)
    ensures
        SourceSearch::<E>::Found(commit).is(delta, wanted, v) <==> v == (SearchView::<E>::Found {
            commit: commit@,
        }),
        SourceSearch::Failed(failure).is(delta, wanted, v) ==> match failure.cause {
            SearchCause::Absent(e) => v is Absent && e.delta@ == delta && e.wanted@ == wanted,
            SearchCause::Repository(e) => v matches SearchView::Failed { cause, .. } && cause == e,
        },
{
}

/// A search that asks a question is in the state in which the question is due, and for the
/// delta and the config that it was started for.
pub proof fn law_state_of_a_search<E>(
    search: SourceSearch<E>,
    delta: Seq<char>,
    wanted: Seq<char>,
    v: SearchView<E>,
)
    requires
        search.is(delta, wanted, v),
    ensures
        match search {
            SourceSearch::ListImages(list) => v is ListImages && list.delta() == delta
                && list.wanted() == wanted,
            SourceSearch::QueryImage(query) => v == (SearchView::<E>::Images {
                rest: query.rest(),
            }) && query.delta() == delta && query.wanted() == wanted,
            SourceSearch::ListDeployments(list) => v is ListDeployments && list.delta() == delta
                && list.wanted() == wanted,
            SourceSearch::QueryCommit(query) => v == (SearchView::<E>::Deployments {
                rest: query.rest(),
            }) && query.delta() == delta && query.wanted() == wanted,
            _ => true,
        },
{
}

/// The failure of a search for an absent source names the delta and the config.
pub proof fn law_text_of_an_absent_source(e: AbsentSource)
    ensures
        e.text() == "Delta "@ + e.delta@ + " was built against the image with config "@ + e.wanted@
            + ", which is not present in this system's ostree repository. A delta can only be applied on top of its source image."@,
{
}

/// A failure tells the task, and after it the name of the stored image if that is not an
/// image reference.
pub proof fn law_contexts_of_a_failure(image: Seq<char>)
    ensures
        failure_contexts(Some(image)) == failure_contexts(None).push(
            "Parsing stored image reference "@ + image,
        ),
        failure_contexts(None) == seq!["Finding delta source image"@],
{
    assert(failure_contexts(Some(image)) =~= failure_contexts(None).push(
        "Parsing stored image reference "@ + image,
    ));
}

} // verus!
