//! Where ostree keeps the files of an imported image.
//!
//! ostree does not store the root filesystem of an image verbatim. The tar
//! importer moves `/etc` to `/usr/etc`, and before ostree v2024.3 it moves
//! `/var` to `/usr/share/factory/var`. A patch names files by their path in the
//! image, so a lookup has to try the place that the importer may have chosen.
use vstd::prelude::*;
use vstd::utf8::*;

use crate::text::{
    begins_with, joined, law_prefix, law_trimming, strip_prefix, trim_start, trimmed_start, texts,
};

verus! {

/// The place in a commit to which the tar importer brings the file that an
/// image has at `path`. `factory_var` tells whether the importer moves `/var`.
pub open spec fn imported_location(path: Seq<char>, factory_var: bool) -> Seq<char> {
    if begins_with(path, "etc/"@) {
        "usr/etc/"@ + path.skip("etc/"@.len() as int)
    } else if begins_with(path, "var/"@) && factory_var {
        "usr/share/factory/var/"@ + path.skip("var/"@.len() as int)
    } else {
        path
    }
}

/// The places to look for the image path `path`, in the order in which they are tried.
pub open spec fn candidate_paths(path: Seq<char>) -> Seq<Seq<char>> {
    if begins_with(path, "etc/"@) {
        seq![path, "usr/etc/"@ + path.skip("etc/"@.len() as int)]
    } else if begins_with(path, "var/"@) {
        seq![path, "usr/share/factory/var/"@ + path.skip("var/"@.len() as int)]
    } else {
        seq![path]
    }
}

/// `path` relative to the root of the image: every leading `./` is cut off, and
/// then every leading `/`.
pub open spec fn relative(path: Seq<char>) -> Seq<char> {
    trimmed_start(trimmed_start(path, "./"@), "/"@)
}

/// The first two bytes of a checksum: the directory of its object.
pub open spec fn object_dir(checksum: Seq<char>) -> Seq<char> {
    decode_utf8(encode_utf8(checksum).subrange(0, 2))
}

/// What follows the first two bytes of a checksum.
pub open spec fn object_stem(checksum: Seq<char>) -> Seq<char> {
    decode_utf8(encode_utf8(checksum).subrange(2, encode_utf8(checksum).len() as int))
}

/// Where, below the `objects` directory of a repository, the content of the
/// file object with this checksum lies.
pub open spec fn object_location(checksum: Seq<char>) -> Seq<char> {
    object_dir(checksum) + "/"@ + object_stem(checksum) + ".file"@
}

/// Whether the first two bytes of `checksum` can be split from the rest.
pub open spec fn splits_after_two(checksum: Seq<char>) -> bool {
    is_char_boundary(encode_utf8(checksum), 2)
}

/// Where in a commit the content for the image path `path` may be found.
///
/// The first hit wins, and only the moves that the tar importer makes are tried.
pub fn source_path_candidates(path: &str) -> (r: Vec<String>)
    ensures
        texts(r@) == candidate_paths(path@),
{
    let mut candidates: Vec<String> = Vec::new();
    candidates.push(path.to_owned());
    if let Some(rest) = strip_prefix(path, "etc/") {
        candidates.push(joined("usr/etc/", rest));
    } else if let Some(rest) = strip_prefix(path, "var/") {
        candidates.push(joined("usr/share/factory/var/", rest));
    }
    assert(texts(candidates@) =~= candidate_paths(path@));
    candidates
}

/// `path` without the leading `./` and `/` with which a tar archive may name it.
pub fn relative_path<'a>(path: &'a str) -> (r: &'a str)
    ensures
        r@ == relative(path@),
{
    trim_start(trim_start(path, "./"), "/")
}

/// The path of a file object below the `objects` directory.
pub fn object_path(checksum: &str) -> (r: String)
    requires
        splits_after_two(checksum@),
    ensures
        r@ == object_location(checksum@),
{
    let (dir, stem) = checksum.split_at(2);
    proof {
        encode_utf8_decode_utf8(dir@);
        encode_utf8_decode_utf8(stem@);
    }
    dir.to_owned().concat("/").concat(stem).concat(".file")
}

proof fn reveal_prefixes()
    ensures
        "etc/"@ == seq!['e', 't', 'c', '/'],
        "var/"@ == seq!['v', 'a', 'r', '/'],
        "usr/etc/"@ == seq!['u', 's', 'r', '/', 'e', 't', 'c', '/'],
        "usr/share/factory/var/"@.len() == 22,
        "usr/share/factory/var/"@[0] == 'u',
{
    reveal_strlit("etc/");
    reveal_strlit("var/");
    reveal_strlit("usr/etc/");
    reveal_strlit("usr/share/factory/var/");
    assert("etc/"@ =~= seq!['e', 't', 'c', '/']);
    assert("var/"@ =~= seq!['v', 'a', 'r', '/']);
    assert("usr/etc/"@ =~= seq!['u', 's', 'r', '/', 'e', 't', 'c', '/']);
}

/// A path that begins with `u` is in neither of the trees that are moved.
proof fn lemma_usr_is_not_moved(path: Seq<char>)
    requires
        path.len() > 0,
        path[0] == 'u',
    ensures
        !begins_with(path, "etc/"@),
        !begins_with(path, "var/"@),
{
    reveal_prefixes();
    assert(path.len() >= 4 ==> path.take(4)[0] == 'u');
}

/// Whatever the importer does with `/var`, the place to which it brings a file
/// is among the places where the file is looked for.
pub proof fn law_candidates_cover_import(path: Seq<char>, factory_var: bool)
    ensures
        candidate_paths(path).contains(imported_location(path, factory_var)),
{
    let c = candidate_paths(path);
    assert(c[0] == path);
    if begins_with(path, "etc/"@) || begins_with(path, "var/"@) {
        assert(c[1] == imported_location(path, true));
    }
}

/// Only the path itself, first, and the places to which the importer moves
/// files are ever tried, and no place is tried twice.
pub proof fn law_only_import_moves_are_tried(path: Seq<char>)
    ensures
        candidate_paths(path).len() >= 1,
        candidate_paths(path)[0] == path,
        forall|i: int|
            1 <= i < candidate_paths(path).len() ==> #[trigger] candidate_paths(path)[i]
                == imported_location(path, true),
        candidate_paths(path).no_duplicates(),
{
    reveal_prefixes();
    if begins_with(path, "etc/"@) {
        assert(path.take(4)[0] == 'e');
        assert(candidate_paths(path)[1][0] == 'u');
    } else if begins_with(path, "var/"@) {
        assert(path.take(4)[0] == 'v');
        assert(candidate_paths(path)[1][0] == 'u');
    }
}

/// Only the first component of a path is moved: a path that does not begin
/// with `etc/` or `var/` is looked for at that path alone.
pub proof fn law_only_first_component_is_moved(path: Seq<char>)
    requires
        !begins_with(path, "etc/"@),
        !begins_with(path, "var/"@),
    ensures
        candidate_paths(path) == seq![path],
        forall|factory_var: bool| #[trigger] imported_location(path, factory_var) == path,
{
}

/// The lookup below `/etc` is unambiguous: an image cannot have both `/etc/x`
/// and a distinct `/usr/etc/x` once imported, because the first becomes the
/// second.
pub proof fn law_etc_is_unambiguous(rest: Seq<char>, factory_var: bool)
    ensures
        imported_location("etc/"@ + rest, factory_var) == "usr/etc/"@ + rest,
        imported_location("usr/etc/"@ + rest, factory_var) == "usr/etc/"@ + rest,
{
    reveal_prefixes();
    let moved = "etc/"@ + rest;
    assert(moved.take(4) =~= "etc/"@);
    assert(moved.skip(4) =~= rest);
    lemma_usr_is_not_moved("usr/etc/"@ + rest);
}

/// A path that was moved by the importer is looked for where it is now, and
/// nowhere else.
pub proof fn law_moved_path_is_final(path: Seq<char>)
    requires
        imported_location(path, true) != path,
    ensures
        candidate_paths(imported_location(path, true)) == seq![imported_location(path, true)],
        imported_location(imported_location(path, true), true) == imported_location(path, true),
{
    reveal_prefixes();
    lemma_usr_is_not_moved(imported_location(path, true));
}

proof fn lemma_trimmed_start_does_not_begin(s: Seq<char>, prefix: Seq<char>)
    requires
        prefix.len() > 0,
    ensures
        !begins_with(trimmed_start(s, prefix), prefix),
    decreases s.len(),
{
    if begins_with(s, prefix) {
        lemma_trimmed_start_does_not_begin(s.skip(prefix.len() as int), prefix);
    }
}

/// The form with a leading `./`, in which tar names its entries, means the same
/// file as the form without it.
pub proof fn law_leading_dot_slash_is_ignored(path: Seq<char>)
    ensures
        relative("./"@ + path) == relative(path),
{
    reveal_strlit("./");
    let dotted = "./"@ + path;
    assert(dotted.take(2) =~= "./"@);
    assert(dotted.skip(2) =~= path);
}

/// An absolute path means the same file as the path without its leading `/`. The
/// exception are paths that go on with `./`: that `./` is not cut off once a `/`
/// stands before it.
pub proof fn law_leading_slash_is_ignored(path: Seq<char>)
    requires
        !begins_with(path, "./"@),
    ensures
        relative("/"@ + path) == relative(path),
{
    reveal_strlit("./");
    reveal_strlit("/");
    let absolute = "/"@ + path;
    assert(absolute.len() >= 2 ==> absolute.take(2)[0] == '/');
    assert(absolute.take(1) =~= "/"@);
    assert(absolute.skip(1) =~= path);
}

/// A looked-up path is always relative, and one that was relative already, and
/// has no leading `./`, is taken as it is.
pub proof fn law_relative_path(path: Seq<char>)
    ensures
        !begins_with(relative(path), "/"@),
        !begins_with(path, "./"@) && !begins_with(path, "/"@) ==> relative(path) == path,
{
    reveal_strlit("/");
    lemma_trimmed_start_does_not_begin(trimmed_start(path, "./"@), "/"@);
}

/// The object of an ASCII checksum lies in the directory of its first two
/// characters.
pub proof fn law_ascii_object_location(checksum: Seq<char>)
    requires
        is_ascii_chars(checksum),
        checksum.len() >= 2,
    ensures
        splits_after_two(checksum),
        object_location(checksum) == checksum.take(2) + "/"@ + checksum.skip(2) + ".file"@,
{
    let bytes = encode_utf8(checksum);
    let dir = checksum.take(2);
    let stem = checksum.skip(2);
    is_ascii_chars_encode_utf8(checksum);
    is_ascii_chars_encode_utf8(dir);
    is_ascii_chars_encode_utf8(stem);
    encode_utf8_valid_utf8(checksum);
    if checksum.len() == 2 {
        is_char_boundary_start_end_of_seq(bytes);
    } else {
        assert(checksum[2] as u8 == bytes[2]);
        assert(bytes[2] < 0x80);
        is_char_boundary_iff_not_is_continuation_byte(bytes, 2);
    }
    assert(bytes.subrange(0, 2) =~= encode_utf8(dir)) by {
        assert forall|i: int| 0 <= i < 2 implies bytes[i] == encode_utf8(dir)[i] by {
            assert(checksum[i] as u8 == bytes[i]);
            assert(dir[i] as u8 == encode_utf8(dir)[i]);
        }
    }
    assert(bytes.subrange(2, bytes.len() as int) =~= encode_utf8(stem)) by {
        assert forall|i: int| 0 <= i < stem.len() implies bytes[i + 2] == encode_utf8(stem)[i] by {
            assert(checksum[i + 2] as u8 == bytes[i + 2]);
            assert(stem[i] as u8 == encode_utf8(stem)[i]);
        }
    }
    encode_utf8_decode_utf8(dir);
    encode_utf8_decode_utf8(stem);
}

/// A text of two bytes is one character of two bytes or two of one byte each.
proof fn lemma_two_byte_text(s: Seq<char>)
    requires
        encode_utf8(s).len() == 2,
    ensures
        1 <= s.len() <= 2,
        encode_scalar(s[0] as u32).len() == 3 - s.len(),
{
    reveal_with_fuel(encode_utf8, 4);
    if s.len() > 2 {
        let t = s.drop_first().drop_first();
        assert(encode_utf8(t).len() >= 1);
    }
}

/// No two checksums share an object file.
pub proof fn law_object_location_is_injective(a: Seq<char>, b: Seq<char>)
    requires
        splits_after_two(a),
        splits_after_two(b),
        object_location(a) == object_location(b),
    ensures
        a == b,
{
    lemma_checksum_parts(a);
    lemma_checksum_parts(b);
    let (da, db) = (object_dir(a), object_dir(b));
    let (sa, sb) = (object_stem(a), object_stem(b));
    lemma_two_byte_text(da);
    lemma_two_byte_text(db);
    let whole = object_location(a);
    reveal_strlit("/");
    reveal_strlit(".file");
    assert(whole[0] == da[0]);
    assert(whole[0] == db[0]);
    assert(da.len() == db.len());
    assert(whole.len() == da.len() + sa.len() + 6);
    assert(whole.len() == db.len() + sb.len() + 6);
    assert(da =~= whole.take(da.len() as int));
    assert(db =~= whole.take(da.len() as int));
    let from = da.len() as int + 1;
    assert(sa =~= whole.subrange(from, from + sa.len()));
    assert(sb =~= whole.subrange(from, from + sa.len()));
}

/// A checksum is its object directory followed by the stem of its object.
proof fn lemma_checksum_parts(checksum: Seq<char>)
    requires
        splits_after_two(checksum),
    ensures
        checksum == object_dir(checksum) + object_stem(checksum),
        encode_utf8(object_dir(checksum)).len() == 2,
{
    let bytes = encode_utf8(checksum);
    encode_utf8_valid_utf8(checksum);
    encode_utf8_decode_utf8(checksum);
    valid_utf8_split(bytes, 2);
    decode_utf8_split(bytes, 2);
    decode_utf8_encode_utf8(bytes.subrange(0, 2));
    reveal_with_fuel(is_char_boundary, 3);
}

/// A file below `/etc` is looked for where it is in the image, and then in `/usr/etc`
/// under the same name.
pub proof fn law_etc_candidates(rest: Seq<char>)
    ensures
        candidate_paths("etc/"@ + rest) == seq!["etc/"@ + rest, "usr/etc/"@ + rest],
{
    reveal_prefixes();
    law_prefix("etc/"@ + rest, "etc/"@, rest);
    assert(("etc/"@ + rest).skip(4) =~= rest);
}

/// A file below `/var` is looked for where it is in the image, and then in
/// `/usr/share/factory/var` under the same name.
pub proof fn law_var_candidates(rest: Seq<char>)
    ensures
        candidate_paths("var/"@ + rest) == seq![
            "var/"@ + rest,
            "usr/share/factory/var/"@ + rest,
        ],
{
    reveal_prefixes();
    law_prefix("var/"@ + rest, "var/"@, rest);
    assert(("var/"@ + rest).skip(4) =~= rest);
    assert(("var/"@ + rest).take(4)[0] == 'v');
}

/// The importer keeps the name of a file below `/var`: it leaves the file where it is, or
/// moves it to `/usr/share/factory/var`.
pub proof fn law_var_is_kept_or_moved(rest: Seq<char>)
    ensures
        imported_location("var/"@ + rest, false) == "var/"@ + rest,
        imported_location("var/"@ + rest, true) == "usr/share/factory/var/"@ + rest,
{
    reveal_prefixes();
    law_prefix("var/"@ + rest, "var/"@, rest);
    assert(("var/"@ + rest).skip(4) =~= rest);
    assert(("var/"@ + rest).take(4)[0] == 'v');
}

/// What precedes the first name of an absolute path is slashes, and all of them are cut
/// off. Nothing behind them is, not even `./`.
pub proof fn law_leading_slashes_are_cut_off(slashes: Seq<char>, rest: Seq<char>)
    requires
        forall|i: int| 0 <= i < slashes.len() ==> slashes[i] == '/',
        rest.len() > 0 ==> rest[0] != '/',
        slashes.len() > 0 || !"./"@.is_prefix_of(rest),
    ensures
        relative(slashes + rest) == rest,
{
    reveal_strlit("./");
    reveal_strlit("/");
    let path = slashes + rest;
    if slashes.len() == 0 {
        assert(path =~= rest);
    } else {
        assert(path.len() >= 2 ==> path.subrange(0, 2)[0] == '/');
    }
    law_trimming(path, "./"@);
    lemma_slashes_are_trimmed(slashes, rest);
}

proof fn lemma_slashes_are_trimmed(slashes: Seq<char>, rest: Seq<char>)
    requires
        forall|i: int| 0 <= i < slashes.len() ==> slashes[i] == '/',
        rest.len() > 0 ==> rest[0] != '/',
    ensures
        trimmed_start(slashes + rest, "/"@) == rest,
    decreases slashes.len(),
{
    reveal_strlit("/");
    if slashes.len() == 0 {
        assert(slashes + rest =~= rest);
        assert(rest.len() > 0 ==> rest.subrange(0, 1)[0] != '/');
        law_trimming(rest, "/"@);
    } else {
        let fewer = slashes.drop_first();
        assert(slashes + rest =~= "/"@ + (fewer + rest));
        law_trimming(fewer + rest, "/"@);
        lemma_slashes_are_trimmed(fewer, rest);
    }
}

/// The encoding of `a + b` is that of `a` followed by that of `b`, and can be split there.
proof fn lemma_encoding_splits(a: Seq<char>, b: Seq<char>)
    ensures
        encode_utf8(a + b) == encode_utf8(a) + encode_utf8(b),
        is_char_boundary(encode_utf8(a + b), encode_utf8(a).len() as int),
    decreases a.len(),
{
    encode_utf8_valid_utf8(a + b);
    if a.len() == 0 {
        assert(a + b =~= b);
        is_char_boundary_start_end_of_seq(encode_utf8(b));
    } else {
        let first = encode_scalar(a[0] as u32);
        let tail = a.drop_first();
        lemma_encoding_splits(tail, b);
        assert((a + b).drop_first() =~= tail + b);
        assert(encode_utf8(a + b) =~= encode_utf8(a) + encode_utf8(b));
        encode_utf8_first_scalar(a + b);
        assert(pop_first_scalar(encode_utf8(a + b)) =~= encode_utf8(tail + b));
    }
}

/// The object of a checksum lies in the directory of the first two bytes, under the name
/// of what follows them.
pub proof fn law_object_location(dir: Seq<char>, stem: Seq<char>)
    requires
        encode_utf8(dir).len() == 2,
    ensures
        splits_after_two(dir + stem),
        object_location(dir + stem) == dir + "/"@ + stem + ".file"@,
{
    let bytes = encode_utf8(dir + stem);
    lemma_encoding_splits(dir, stem);
    assert(bytes.subrange(0, 2) =~= encode_utf8(dir));
    assert(bytes.subrange(2, bytes.len() as int) =~= encode_utf8(stem));
    encode_utf8_decode_utf8(dir);
    encode_utf8_decode_utf8(stem);
}

/// A checksum whose first two bytes can be split off begins with a text of two bytes.
pub proof fn law_splitting_checksum(checksum: Seq<char>)
    requires
        splits_after_two(checksum),
    ensures
        exists|dir: Seq<char>, stem: Seq<char>|
            checksum == #[trigger] (dir + stem) && encode_utf8(dir).len() == 2,
{
    lemma_checksum_parts(checksum);
}

} // verus!
