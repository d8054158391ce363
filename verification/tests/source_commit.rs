use delta_ostree::image::Digest;
use delta_ostree::layer_source::Delta;
use delta_ostree::source_commit::{
    find_source_commit, ImageFailure, ImageState, SearchCause, SourceSearch,
};
use delta_ostree::text_map::TextMap;

const WANTED: &str = "sha256:6c3c624b58dbbcd3c0dd82b4c53f04194d1247c6eebdaab7c610cf7d66709b3b";
const OTHER: &str = "sha256:c2b8beca588702777e5f35dafdbeae9ec16c2bab802331f81cacd2a92f1d5356";

fn digest(text: &str) -> Digest {
    Digest::from_str(text).unwrap()
}

fn delta() -> Delta {
    Delta {
        path: "/tmp/update.oci-delta".to_string(),
        source_config_digest: digest(WANTED),
        patches: TextMap::new(),
        diff_ids: Vec::new(),
    }
}

/// What a query for an image gives: config and commit, nothing, an unparsable
/// name or an unreadable image.
#[derive(Clone, Copy)]
enum Image {
    Present(&'static str, &'static str),
    Gone,
    Unparsable,
    Unreadable,
}

/// Stored images, and commit and config of each deployment. A deployment without
/// a config is unreadable.
struct Repo {
    images: Result<Vec<(&'static str, Image)>, String>,
    deployments: Result<Vec<(&'static str, Option<&'static str>)>, String>,
}

/// Runs a search to its end, and tells what was asked.
fn run(repo: &Repo) -> (Vec<String>, Result<String, String>) {
    let mut asked = Vec::new();
    let mut search: SourceSearch<String> = find_source_commit(&delta());
    loop {
        search = match search {
            SourceSearch::ListImages(list) => {
                asked.push("images".to_string());
                list.listed(match &repo.images {
                    Ok(images) => Ok(images.iter().map(|(name, _)| name.to_string()).collect()),
                    Err(e) => Err(e.clone()),
                })
            }
            SourceSearch::QueryImage(query) => {
                asked.push(query.image().to_string());
                let images = repo.images.as_ref().unwrap();
                let (_, image) = *images
                    .iter()
                    .find(|(name, _)| *name == query.image())
                    .unwrap();
                query.answer(match image {
                    Image::Present(config, commit) => Ok(Some(ImageState {
                        config: digest(config),
                        merge_commit: commit.to_string(),
                    })),
                    Image::Gone => Ok(None),
                    Image::Unparsable => Err(ImageFailure::Reference("Missing ':'".to_string())),
                    Image::Unreadable => Err(ImageFailure::Query("No such commit".to_string())),
                })
            }
            SourceSearch::ListDeployments(list) => {
                asked.push("deployments".to_string());
                list.listed(match &repo.deployments {
                    Ok(commits) => Ok(commits.iter().map(|(c, _)| c.to_string()).collect()),
                    Err(e) => Err(e.clone()),
                })
            }
            SourceSearch::QueryCommit(query) => {
                asked.push(query.commit().to_string());
                let commits = repo.deployments.as_ref().unwrap();
                let (_, config) = *commits
                    .iter()
                    .find(|(commit, _)| *commit == query.commit())
                    .unwrap();
                query.answer(match config {
                    Some(config) => Ok(digest(config)),
                    None => Err("No such commit".to_string()),
                })
            }
            SourceSearch::Found(commit) => return (asked, Ok(commit)),
            SourceSearch::Failed(failure) => {
                let cause = match failure.cause {
                    SearchCause::Absent(e) => e.message(),
                    SearchCause::Repository(e) => e,
                };
                return (asked, Err(format!("{}: {cause}", failure.contexts.join(": "))));
            }
        };
    }
}

/// A delta whose source image is not in the repository must fail, not fall
/// back to fetching it: there may well be no network at this point.
#[test]
fn test_find_source_commit_absent() {
    let repo = Repo {
        images: Ok(vec![]),
        deployments: Ok(vec![]),
    };
    let (asked, result) = run(&repo);
    assert_eq!(asked, ["images", "deployments"]);
    let err = result.unwrap_err();
    assert!(
        err.contains("not present in this system's ostree repository"),
        "{err}"
    );
    assert_eq!(
        err,
        "Finding delta source image: Delta /tmp/update.oci-delta was built against the image with config \
         sha256:6c3c624b58dbbcd3c0dd82b4c53f04194d1247c6eebdaab7c610cf7d66709b3b, \
         which is not present in this system's ostree repository. \
         A delta can only be applied on top of its source image."
    );
}

#[test]
fn the_first_stored_image_with_the_config_is_the_source() {
    let repo = Repo {
        images: Ok(vec![
            ("docker://a", Image::Present(OTHER, "c0")),
            ("docker://b", Image::Gone),
            ("docker://c", Image::Present(WANTED, "c2")),
            ("docker://d", Image::Present(WANTED, "c3")),
            ("docker://e", Image::Unreadable),
        ]),
        deployments: Ok(vec![("c4", Some(WANTED))]),
    };
    let (asked, result) = run(&repo);
    assert_eq!(asked, ["images", "docker://a", "docker://b", "docker://c"]);
    assert_eq!(result.unwrap(), "c2");
}

#[test]
fn a_deployed_commit_is_the_fallback() {
    let repo = Repo {
        images: Ok(vec![("docker://a", Image::Present(OTHER, "c0"))]),
        deployments: Ok(vec![("c1", Some(OTHER)), ("c2", Some(WANTED)), ("c3", Some(WANTED))]),
    };
    let (asked, result) = run(&repo);
    assert_eq!(asked, ["images", "docker://a", "deployments", "c1", "c2"]);
    assert_eq!(result.unwrap(), "c2");
}

#[test]
fn other_images_and_deployments_are_no_source() {
    let repo = Repo {
        images: Ok(vec![("docker://a", Image::Present(OTHER, "c0")), ("docker://b", Image::Gone)]),
        deployments: Ok(vec![("c1", Some(OTHER))]),
    };
    let (asked, result) = run(&repo);
    assert_eq!(
        asked,
        ["images", "docker://a", "docker://b", "deployments", "c1"]
    );
    assert!(result.is_err());
}

#[test]
fn an_unreadable_image_ends_the_search() {
    let repo = Repo {
        images: Ok(vec![
            ("docker://a", Image::Present(OTHER, "c0")),
            ("bogus", Image::Unparsable),
            ("docker://c", Image::Present(WANTED, "c2")),
        ]),
        deployments: Ok(vec![("c4", Some(WANTED))]),
    };
    let (asked, result) = run(&repo);
    assert_eq!(asked, ["images", "docker://a", "bogus"]);
    assert_eq!(
        result.unwrap_err(),
        "Finding delta source image: Parsing stored image reference bogus: Missing ':'"
    );

    let repo = Repo {
        images: Ok(vec![
            ("docker://a", Image::Unreadable),
            ("docker://c", Image::Present(WANTED, "c2")),
        ]),
        deployments: Ok(vec![]),
    };
    let (asked, result) = run(&repo);
    assert_eq!(asked, ["images", "docker://a"]);
    assert_eq!(
        result.unwrap_err(),
        "Finding delta source image: No such commit"
    );
}

#[test]
fn an_unreadable_deployment_ends_the_search() {
    let repo = Repo {
        images: Ok(vec![]),
        deployments: Ok(vec![("c1", Some(OTHER)), ("c2", None), ("c3", Some(WANTED))]),
    };
    let (asked, result) = run(&repo);
    assert_eq!(asked, ["images", "deployments", "c1", "c2"]);
    assert_eq!(
        result.unwrap_err(),
        "Finding delta source image: No such commit"
    );
}

#[test]
fn a_failed_listing_ends_the_search() {
    let repo = Repo {
        images: Err("No images".to_string()),
        deployments: Ok(vec![("c1", Some(WANTED))]),
    };
    let (asked, result) = run(&repo);
    assert_eq!(asked, ["images"]);
    assert_eq!(result.unwrap_err(), "Finding delta source image: No images");

    let repo = Repo {
        images: Ok(vec![("docker://a", Image::Gone)]),
        deployments: Err("No deployments".to_string()),
    };
    let (asked, result) = run(&repo);
    assert_eq!(asked, ["images", "docker://a", "deployments"]);
    assert_eq!(
        result.unwrap_err(),
        "Finding delta source image: No deployments"
    );
}
