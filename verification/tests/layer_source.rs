use delta_ostree::image::{Descriptor, Digest, Platform};
use delta_ostree::layer_source::{Delta, DeltaLayerSource, PatchError, PIPE_BUFFER};
use delta_ostree::names::{KnownArch, KnownMediaType, KnownOs, MediaType, Named, Os};
use delta_ostree::text_map::TextMap;

const CONFIG: &str = "sha256:6c3c624b58dbbcd3c0dd82b4c53f04194d1247c6eebdaab7c610cf7d66709b3b";

fn digest(text: &str) -> Digest {
    Digest::from_str(text).unwrap()
}

fn tar_diff() -> MediaType {
    Named::Other("application/vnd.tar-diff".to_string())
}

fn layer(name: &str) -> Descriptor {
    Descriptor::new(Named::Known(KnownMediaType::ImageLayerGzip), 7, digest(name))
}

/// A delta with patches for the layers `test:b` and `test:c`.
fn source(diff_ids: &[&str]) -> DeltaLayerSource {
    let mut patches = TextMap::new();
    for (to, blob) in [("test:b", "test:patchb"), ("test:c", "test:patchc")] {
        patches.insert(
            to.to_string(),
            Descriptor::new(tar_diff(), 3, digest(blob)),
        );
    }
    DeltaLayerSource::new(Delta {
        path: "update.oci-delta".to_string(),
        source_config_digest: digest(CONFIG),
        patches,
        diff_ids: diff_ids.iter().map(|s| s.to_string()).collect(),
    })
}

#[test]
fn a_patch_is_opened_with_the_diff_id_at_the_place_of_its_layer() {
    let source = source(&["diff:a", "diff:b", "diff:c"]);
    let layers = [layer("test:a"), layer("test:b"), layer("test:c")];
    let open = source.open_patch(&layers, &layer("test:c")).unwrap();
    assert_eq!(open.patch.digest.as_text(), "test:patchc");
    assert_eq!(open.media_type, tar_diff());
    assert_eq!(open.diff_id.as_text(), "diff:c");
    let open = source.open_patch(&layers, &layer("test:b")).unwrap();
    assert_eq!(open.patch.digest.as_text(), "test:patchb");
    assert_eq!(open.diff_id.as_text(), "diff:b");
}

#[test]
fn the_first_place_of_a_repeated_layer_counts() {
    let source = source(&["diff:a", "diff:b", "diff:c"]);
    let layers = [layer("test:a"), layer("test:b"), layer("test:b")];
    let open = source.open_patch(&layers, &layer("test:b")).unwrap();
    assert_eq!(open.diff_id.as_text(), "diff:b");
}

#[test]
fn a_layer_without_a_patch_cannot_be_rebuilt() {
    let source = source(&["diff:a"]);
    let err = source.open_patch(&[layer("test:a")], &layer("test:a")).unwrap_err();
    assert!(matches!(err, PatchError::NoPatch { .. }));
    assert_eq!(
        err.message(),
        "Delta update.oci-delta carries no patch for layer test:a, and it is not present locally; \
         there is nothing to reconstruct it from"
    );
}

#[test]
fn a_layer_of_another_image_is_refused() {
    let source = source(&["diff:a"]);
    let err = source.open_patch(&[layer("test:a")], &layer("test:b")).unwrap_err();
    assert!(matches!(err, PatchError::NotInTarget { .. }));
    assert_eq!(err.message(), "Layer test:b is not part of the target image");
}

#[test]
fn a_layer_is_known_by_its_whole_descriptor() {
    let source = source(&["diff:b"]);
    let layers = [layer("test:b")];
    let mut other = layer("test:b");
    other.size = 8;
    assert!(matches!(
        source.open_patch(&layers, &other),
        Err(PatchError::NotInTarget { .. })
    ));
}

#[test]
fn a_target_config_must_list_every_layer() {
    let source = source(&["diff:a"]);
    let layers = [layer("test:a"), layer("test:b")];
    let err = source.open_patch(&layers, &layer("test:b")).unwrap_err();
    assert!(matches!(err, PatchError::NoDiffId { index: 1 }));
    assert_eq!(err.message(), "Target image has no diff_id for layer 1");
}

#[test]
fn what_a_target_config_lists_must_be_a_digest() {
    let mut listed = vec!["diff:a"; 12];
    listed[10] = "nodigest";
    let source = source(&listed);
    let mut layers: Vec<Descriptor> = (0..10).map(|_| layer("test:a")).collect();
    layers.push(layer("test:b"));
    let err = source.open_patch(&layers, &layer("test:b")).unwrap_err();
    assert_eq!(err.message(), "Parsing diff_id for layer 10");
    match err {
        PatchError::InvalidDiffId { index, cause } => {
            assert_eq!(index, 10);
            assert_eq!(cause.text, "missing ':' in digest");
        }
        other => panic!("unexpected error: {other:?}"),
    }
}

#[test]
fn a_job_produces_an_uncompressed_layer() {
    let source = source(&["diff:b"]);
    let layers = [layer("test:b")];
    let open = source.open_patch(&layers, &layers[0]).unwrap();
    let job = open.apply_to("0123abcd".to_string());
    assert_eq!(job.source_commit, "0123abcd");
    assert_eq!(job.media_type, tar_diff());
    assert_eq!(job.diff_id.as_text(), "diff:b");
    assert_eq!(job.pipe_buffer, 131072);
    assert_eq!(job.pipe_buffer, PIPE_BUFFER);
    assert_eq!(
        job.output_media_type,
        Named::Known(KnownMediaType::ImageLayer)
    );
}

#[test]
fn digests_are_read() {
    for text in [
        CONFIG,
        "foo:bar",
        "xxhash:42",
        "multihash+base58:QmRZxt2b1FVZPNqd8hsiykDL3TdBDeTSPX9Kv46HmX4Gx8",
        "a.b_c-d+e:=_-A",
        "sha384:6c3c624b58dbbcd4d1247c6eebdaab7c610cf7d66709b3b3c0dd82b4c53f04194d1247c6eebdaab7c610cf7d66709b3b",
    ] {
        assert_eq!(digest(text).as_text(), text);
        assert_eq!(digest(text), digest(text).clone());
    }
    assert_ne!(digest("foo:bar"), digest("foo:baz"));
}

#[test]
fn what_is_no_digest_is_refused() {
    for text in [
        "",
        "foo",
        ":",
        "blah+",
        "_digest:somevalue",
        ":blah",
        "blah:",
        "a++b:c",
        "a+:c",
        "a:b:c",
        "FooBar:123abc",
        "^:foo",
        "bar^baz:blah",
        "é:x",
        "x:é",
        "sha256:123456*78",
        "sha256:6c3c624b58dbbcd3c0dd82b4z53f04194d1247c6eebdaab7c610cf7d66709b3b",
        "sha256:6C3c624b58dbbcd3c0dd82b4c53f04194d1247c6eebdaab7c610cf7d66709b3b",
        "sha384:x",
        "sha384:6c3c624b58dbbcd3c0dd82b4c53f04194d1247c6eebdaab7c610cf7d66709b3b",
        "sha512:6c3c624b58dbbcd3c0dd82b4c53f04194d1247c6eebdaab7c610cf7d66709b3b",
    ] {
        assert!(Digest::from_str(text).is_err(), "{text}");
    }
}

#[test]
fn a_refused_text_is_explained() {
    for (text, explained) in [
        ("foo", "missing ':' in digest"),
        ("blah:", "Empty algorithm value"),
        ("sha384:x", "Invalid digest length 1 expected 96"),
        ("a++b:c", "Empty algorithm component"),
    ] {
        assert_eq!(Digest::from_str(text).unwrap_err().text, explained);
    }
}

fn annotated(entries: &[(&str, &str)]) -> Descriptor {
    let mut annotations = TextMap::new();
    for (key, value) in entries {
        annotations.insert(key.to_string(), value.to_string());
    }
    let mut d = layer("test:a");
    d.annotations = Some(annotations);
    d
}

fn platform(os: Os) -> Platform {
    Platform {
        architecture: Named::Known(KnownArch::Amd64),
        os,
        os_version: None,
        os_features: Some(vec!["win32k".to_string()]),
        variant: None,
        features: None,
    }
}

#[test]
fn descriptors_are_equal_if_all_properties_are() {
    assert_eq!(layer("test:a"), layer("test:a"));
    assert_ne!(layer("test:a"), layer("test:b"));

    let mut d = layer("test:a");
    d.media_type = tar_diff();
    assert_ne!(d, layer("test:a"));

    let mut d = layer("test:a");
    d.urls = Some(vec![]);
    assert_ne!(d, layer("test:a"));
    d.urls = Some(vec!["a".to_string(), "b".to_string()]);
    let mut e = layer("test:a");
    e.urls = Some(vec!["b".to_string(), "a".to_string()]);
    assert_ne!(d, e);
    e.urls = Some(vec!["a".to_string(), "b".to_string()]);
    assert_eq!(d, e);

    let mut d = layer("test:a");
    d.artifact_type = Some(tar_diff());
    assert_ne!(d, layer("test:a"));

    let mut d = layer("test:a");
    d.data = Some("e30=".to_string());
    assert_ne!(d, layer("test:a"));

    let mut d = layer("test:a");
    d.platform = Some(platform(Named::Known(KnownOs::Linux)));
    assert_ne!(d, layer("test:a"));
    let mut e = layer("test:a");
    e.platform = Some(platform(Named::Known(KnownOs::Windows)));
    assert_ne!(d, e);
    e.platform = Some(platform(Named::Known(KnownOs::Linux)));
    assert_eq!(d, e);
}

#[test]
fn a_defined_name_differs_from_the_same_text() {
    let text = "application/vnd.oci.image.layer.v1.tar";
    let known: MediaType = Named::Known(KnownMediaType::ImageLayer);
    let other: MediaType = Named::Other(text.to_string());
    assert_ne!(known, other);
    assert_eq!(other, other.clone());
    assert_eq!(known, known.clone());
    // So it is in the image format's own types.
    assert_eq!(oci_spec::image::MediaType::ImageLayer.to_string(), text);
    assert_ne!(
        oci_spec::image::MediaType::ImageLayer,
        oci_spec::image::MediaType::Other(text.to_string())
    );

    let mut d = layer("test:a");
    d.platform = Some(platform(Named::Known(KnownOs::Linux)));
    let mut e = layer("test:a");
    e.platform = Some(platform(Named::Other("linux".to_string())));
    assert_ne!(d, e);
    if let Some(p) = &mut e.platform {
        p.os = Named::Known(KnownOs::Linux);
        p.architecture = Named::Other("amd64".to_string());
    }
    assert_ne!(d, e);
    if let Some(p) = &mut e.platform {
        p.architecture = Named::Known(KnownArch::Amd64);
    }
    assert_eq!(d, e);

    let source = source(&["diff:b"]);
    let mut listed = layer("test:b");
    listed.media_type = Named::Known(KnownMediaType::ImageLayer);
    let mut wanted = layer("test:b");
    wanted.media_type = Named::Other(text.to_string());
    assert!(matches!(
        source.open_patch(&[listed], &wanted),
        Err(PatchError::NotInTarget { .. })
    ));
}

#[test]
fn annotations_are_compared_as_maps() {
    let a = annotated(&[("x", "1"), ("y", "2")]);
    assert_eq!(a, annotated(&[("y", "2"), ("x", "1")]));
    assert_eq!(a, annotated(&[("x", "9"), ("y", "2"), ("x", "1")]));
    assert_ne!(a, annotated(&[("x", "1")]));
    assert_ne!(annotated(&[("x", "1")]), a);
    assert_ne!(a, annotated(&[("x", "1"), ("y", "3")]));
    assert_ne!(a, annotated(&[("x", "1"), ("z", "2")]));
    assert_ne!(annotated(&[]), layer("test:a"));
}

#[test]
fn a_map_keeps_the_last_value_of_a_key() {
    let mut map = TextMap::new();
    let key = "k".to_string();
    assert_eq!(map.get(&key), None);
    map.insert("k".to_string(), 1);
    map.insert("l".to_string(), 2);
    map.insert("k".to_string(), 3);
    assert_eq!(map.get(&key), Some(&3));
    assert_eq!(map.get(&"l".to_string()), Some(&2));
}
