use delta_ostree::layout::{object_path, relative_path, source_path_candidates};

#[test]
fn test_source_path_candidates() {
    assert_eq!(source_path_candidates("usr/bin/ls"), ["usr/bin/ls"]);
    assert_eq!(
        source_path_candidates("etc/passwd"),
        ["etc/passwd", "usr/etc/passwd"]
    );
    assert_eq!(
        source_path_candidates("var/lib/foo"),
        ["var/lib/foo", "usr/share/factory/var/lib/foo"]
    );
    // Only the first component is remapped.
    assert_eq!(
        source_path_candidates("usr/share/etc/x"),
        ["usr/share/etc/x"]
    );
}

#[test]
fn only_a_whole_first_component_is_moved() {
    assert_eq!(source_path_candidates("etc"), ["etc"]);
    assert_eq!(source_path_candidates("etcetera/x"), ["etcetera/x"]);
    assert_eq!(source_path_candidates("variant"), ["variant"]);
    assert_eq!(source_path_candidates(""), [""]);
    assert_eq!(source_path_candidates("etc/"), ["etc/", "usr/etc/"]);
    assert_eq!(
        source_path_candidates("var/é"),
        ["var/é", "usr/share/factory/var/é"]
    );
}

#[test]
fn a_moved_path_is_looked_for_where_it_is() {
    assert_eq!(source_path_candidates("usr/etc/passwd"), ["usr/etc/passwd"]);
    assert_eq!(
        source_path_candidates("usr/share/factory/var/lib/x"),
        ["usr/share/factory/var/lib/x"]
    );
}

#[test]
fn leading_dots_and_slashes_are_cut_off() {
    assert_eq!(relative_path("etc/passwd"), "etc/passwd");
    assert_eq!(relative_path("./etc/passwd"), "etc/passwd");
    assert_eq!(relative_path("././etc/passwd"), "etc/passwd");
    assert_eq!(relative_path("/etc/passwd"), "etc/passwd");
    assert_eq!(relative_path(".///etc/passwd"), "etc/passwd");
    assert_eq!(relative_path("../etc"), "../etc");
    assert_eq!(relative_path(".hidden"), ".hidden");
    assert_eq!(relative_path("./"), "");
    assert_eq!(relative_path(""), "");
    // Slashes are cut off after dots, and dots are not looked for again.
    assert_eq!(relative_path("/./etc"), "./etc");
}

#[test]
fn an_object_lies_in_the_directory_of_its_first_two_bytes() {
    assert_eq!(object_path("abcdef"), "ab/cdef.file");
    assert_eq!(object_path("00"), "00/.file");
    assert_eq!(
        object_path("6c3c624b58dbbcd3c0dd82b4c53f04194d1247c6eebdaab7c610cf7d66709b3b"),
        "6c/3c624b58dbbcd3c0dd82b4c53f04194d1247c6eebdaab7c610cf7d66709b3b.file"
    );
    assert_eq!(object_path("éa"), "é/a.file");
}

#[test]
fn distinct_checksums_have_distinct_objects() {
    assert_ne!(object_path("abcd"), object_path("abce"));
    assert_ne!(object_path("abcd"), object_path("aacd"));
}
