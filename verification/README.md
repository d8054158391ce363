# delta_ostree

Applying an oci-delta to a system whose source image lies in an ostree
repository.

A delta holds tar-diff patches. A patch rebuilds a layer of the target image and
reads the files of the source image by path. This library decides where in an
ostree commit such a file is looked for, which commit holds the source image, and
which patch rebuilds which layer. The decisions are written in Verus, with proved
contracts; lookups and searches are state machines that ask their caller for what
only the repository can tell.

- `src/`: the verified library.
- `tests/`: tests of the library on concrete values.
- `app/`: the ordinary Rust around it. It reads the repository through
  `ostree_ext`, implements the traits of `oci_delta` and of the container
  importer, and runs the state machines.

One call into `oci_spec` is trusted, the one that reads a digest: see
`parse_oci_digest` in `src/image.rs`.
