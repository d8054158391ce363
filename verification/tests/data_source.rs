use std::io::{Cursor, Read, Seek, SeekFrom};

use delta_ostree::data_source::{
    whole_copy, whole_read, FileType, Lookup, OpenCause, OstreeDataSource, RepoMode, SourceError,
};

type Source = OstreeDataSource<Cursor<Vec<u8>>>;

/// A commit, and the objects of the repository that it lies in.
struct Commit {
    /// Path and checksum of each regular file.
    files: Vec<(&'static str, &'static str)>,
    directories: Vec<&'static str>,
    links: Vec<&'static str>,
    /// Path below the objects directory, and content.
    objects: Vec<(&'static str, &'static [u8])>,
}

impl Commit {
    fn file_type(&self, path: &str) -> FileType {
        if self.files.iter().any(|(p, _)| *p == path) {
            FileType::Regular
        } else if self.directories.contains(&path) {
            FileType::Directory
        } else if self.links.contains(&path) {
            FileType::SymbolicLink
        } else {
            FileType::Unknown
        }
    }

    fn checksum(&self, path: &str) -> &'static str {
        self.files.iter().find(|(p, _)| *p == path).unwrap().1
    }

    fn open(&self, object: &str) -> Result<Cursor<Vec<u8>>, String> {
        match self.objects.iter().find(|(p, _)| *p == object) {
            Some((_, content)) => Ok(Cursor::new(content.to_vec())),
            None => Err(format!("No such object: {object}")),
        }
    }
}

/// A commit of an image that was imported by an old ostree.
fn commit() -> Commit {
    Commit {
        files: vec![
            ("usr/bin/ls", "a1b2c3"),
            ("usr/etc/passwd", "d4e5f6"),
            ("usr/share/factory/var/lib/state", "0a0b0c"),
            ("usr/bin/broken", "ffffff"),
        ],
        directories: vec!["usr", "usr/bin", "usr/etc"],
        links: vec!["usr/bin/sh"],
        objects: vec![
            ("a1/b2c3.file", b"binary"),
            ("d4/e5f6.file", b"root:x:0:0"),
            ("0a/0b0c.file", b"stateful"),
        ],
    }
}

fn open(mode: RepoMode) -> Source {
    Source::new::<String>("0123abcd", Ok(mode)).unwrap()
}

/// Selects `path`, and tells which candidates were examined.
fn select(source: &mut Source, commit: &Commit, path: &str) -> (Vec<String>, Result<(), String>) {
    let mut examined = Vec::new();
    let mut lookup = source.set_current_file(path);
    loop {
        match lookup {
            Lookup::Query(query) => {
                let kind = commit.file_type(query.candidate());
                examined.push(query.candidate().to_string());
                lookup = query.answer(kind);
            }
            Lookup::Found(found) => {
                let checksum = commit.checksum(found.candidate());
                let object = found.resolved(checksum);
                let result = match commit.open(object.object()) {
                    Ok(file) => {
                        object.opened(source, file);
                        Ok(())
                    }
                    Err(e) => Err(format!("{}: {e}", object.context())),
                };
                return (examined, result);
            }
            Lookup::Missing(e) => return (examined, Err(e.message())),
        }
    }
}

fn read_all(source: &mut Source, commit: &Commit, path: &str) -> Result<Vec<u8>, String> {
    select(source, commit, path).1?;
    let mut out = Vec::new();
    source
        .current()
        .map_err(|e| e.message())?
        .read_to_end(&mut out)
        .unwrap();
    Ok(out)
}

#[test]
fn test_ostree_data_source() {
    let commit = commit();
    let mut source = open(RepoMode::BareUser);

    assert_eq!(read_all(&mut source, &commit, "usr/bin/ls").unwrap(), b"binary");
    // The remapped locations are found under their pre-import paths.
    assert_eq!(
        read_all(&mut source, &commit, "etc/passwd").unwrap(),
        b"root:x:0:0"
    );
    assert_eq!(
        read_all(&mut source, &commit, "var/lib/state").unwrap(),
        b"stateful"
    );
    // As are leading-`./` forms, which is how tar names entries.
    assert_eq!(
        read_all(&mut source, &commit, "./etc/passwd").unwrap(),
        b"root:x:0:0"
    );

    // Partial reads from an offset, which is what a tar-diff mostly does.
    select(&mut source, &commit, "usr/etc/passwd").1.unwrap();
    source.current().unwrap().seek(SeekFrom::Start(5)).unwrap();
    let mut buf = [0u8; 3];
    source.current().unwrap().read_exact(&mut buf).unwrap();
    assert_eq!(&buf, b"x:0");

    // A directory is not content, and neither is an absent path.
    for missing in ["usr/bin", "usr/bin/nope", "etc/nope"] {
        let err = select(&mut source, &commit, missing).1.unwrap_err();
        assert!(
            err.contains("not found in source commit"),
            "{missing}: unexpected error: {err}"
        );
    }

    // A short read is an error rather than a silent truncation.
    select(&mut source, &commit, "usr/bin/ls").1.unwrap();
    let mut copy = Vec::new();
    let copied = source
        .current()
        .unwrap()
        .by_ref()
        .take(100)
        .read_to_end(&mut copy)
        .unwrap() as u64;
    let err = whole_copy(100, copied).unwrap_err().message();
    assert!(err.contains("Short read"), "{err}");
}

#[test]
fn the_first_regular_candidate_wins() {
    let mut commit = commit();
    let mut source = open(RepoMode::Bare);

    let (examined, result) = select(&mut source, &commit, "./etc/passwd");
    assert_eq!(examined, ["etc/passwd", "usr/etc/passwd"]);
    assert!(result.is_ok());

    commit.files.push(("etc/passwd", "a1b2c3"));
    let (examined, result) = select(&mut source, &commit, "./etc/passwd");
    assert_eq!(examined, ["etc/passwd"]);
    assert!(result.is_ok());
    assert_eq!(read_all(&mut source, &commit, "etc/passwd").unwrap(), b"binary");
}

#[test]
fn an_absolute_path_is_looked_up_like_a_relative_one() {
    let commit = commit();
    let mut source = open(RepoMode::Bare);
    let (examined, result) = select(&mut source, &commit, "/etc/passwd");
    assert_eq!(examined, ["etc/passwd", "usr/etc/passwd"]);
    assert!(result.is_ok());
    // A `./` behind a `/` stays.
    let (examined, result) = select(&mut source, &commit, "/./etc/passwd");
    assert_eq!(examined, ["./etc/passwd"]);
    assert!(result.is_err());
}

#[test]
fn a_link_is_not_content() {
    let commit = commit();
    let mut source = open(RepoMode::Bare);
    let (examined, result) = select(&mut source, &commit, "/usr/bin/sh");
    assert_eq!(examined, ["usr/bin/sh"]);
    assert_eq!(
        result.unwrap_err(),
        "Delta source file not found in source commit: usr/bin/sh"
    );
}

#[test]
fn a_failed_selection_leaves_no_file_selected() {
    let commit = commit();
    for path in ["usr/bin/nope", "usr/bin/broken"] {
        let mut source = open(RepoMode::Bare);
        select(&mut source, &commit, "usr/bin/ls").1.unwrap();
        assert!(source.current().is_ok());
        assert!(select(&mut source, &commit, path).1.is_err());
        assert!(matches!(source.current(), Err(SourceError::NoCurrentFile)));
    }
}

#[test]
fn an_error_in_opening_names_the_candidate() {
    let mut commit = commit();
    commit.files.push(("usr/etc/broken", "eeeeee"));
    let mut source = open(RepoMode::Bare);
    assert_eq!(
        select(&mut source, &commit, "./etc/broken").1.unwrap_err(),
        "Opening delta source file usr/etc/broken: No such object: ee/eeee.file"
    );
}

#[test]
fn no_file_is_selected_at_first() {
    let mut source = open(RepoMode::BareUserOnly);
    let err = source.current().unwrap_err();
    assert_eq!(err.message(), "No current file set in data source");
}

#[test]
fn an_archive_repository_is_refused() {
    let e = Source::new::<String>("0123abcd", Ok(RepoMode::Archive)).unwrap_err();
    assert_eq!(e.contexts, ["Opening delta source commit 0123abcd"]);
    match e.cause {
        OpenCause::Refused(e) => {
            assert_eq!(e.message(), "OSTree archive repo mode is not supported")
        }
        OpenCause::Unreadable(e) => panic!("unexpected error: {e}"),
    }
    for mode in [
        RepoMode::Bare,
        RepoMode::BareUser,
        RepoMode::BareUserOnly,
        RepoMode::BareSplitXattrs,
        RepoMode::Unknown,
    ] {
        assert!(Source::new::<String>("0123abcd", Ok(mode)).is_ok());
    }
}

#[test]
fn an_unreadable_repository_is_reported_with_the_commit() {
    let e = Source::new("0123abcd", Err("No such commit")).unwrap_err();
    assert_eq!(e.contexts, ["Opening delta source commit 0123abcd"]);
    assert!(matches!(e.cause, OpenCause::Unreadable("No such commit")));
}

#[test]
fn a_whole_file_is_read_from_its_start() {
    let commit = commit();
    let mut source = open(RepoMode::Bare);
    select(&mut source, &commit, "usr/bin/ls").1.unwrap();
    let file = source.current().unwrap();
    file.seek(SeekFrom::Start(4)).unwrap();
    let size = file.seek(SeekFrom::End(0)).unwrap();
    let plan = whole_read(size, 6).unwrap();
    assert_eq!((plan.offset, plan.capacity), (0, 6));
    file.seek(SeekFrom::Start(plan.offset)).unwrap();
    let mut data = Vec::with_capacity(plan.capacity);
    file.read_to_end(&mut data).unwrap();
    assert_eq!(data, b"binary");
}

#[test]
fn a_file_over_the_limit_is_refused() {
    assert!(whole_read(0, 0).is_ok());
    let err = whole_read(1025, 1024).unwrap_err();
    assert_eq!(err.message(), "Source file too large: 1025 > 1024");
    let err = whole_read(u64::MAX, 0).unwrap_err();
    assert_eq!(
        err.message(),
        "Source file too large: 18446744073709551615 > 0"
    );
}

#[test]
fn only_a_whole_copy_is_accepted() {
    assert!(whole_copy(0, 0).is_ok());
    assert!(whole_copy(100, 100).is_ok());
    assert_eq!(
        whole_copy(100, 6).unwrap_err().message(),
        "Short read from delta source: expected 100, got 6"
    );
}
