//! Applying an oci-delta to an ostree repository.
//!
//! A tar-diff patch reads the files of its source image by path, one file at a
//! time. This library decides where in an ostree commit such a file is to be
//! looked for, which commit holds the source image of a delta, and which patch
//! rebuilds a layer of the target image. Every decision is a function on plain
//! values with a proved contract; the callers do the reading and the writing.
//!
//! - [`layout`]: how an image path maps to places in a commit, and an object
//!   checksum to a file of the repository.
//! - [`data_source`]: serving the files of a commit to a patch.
//! - [`image`]: digests and descriptors of container images.
//! - [`names`]: the media types, operating systems and architectures that a
//!   descriptor names.
//! - [`layer_source`]: choosing the patch for a layer.
//! - [`source_commit`]: finding the commit that a delta was built against.
//! - [`failure`]: an error with the texts that say what was being done.
//! - [`least`]: the first place at which a property holds.
//! - [`text`], [`text_map`]: operations on text that the other modules share.
pub mod data_source;
pub mod failure;
pub mod image;
pub mod layer_source;
pub mod layout;
pub mod least;
pub mod names;
pub mod source_commit;
pub mod text;
pub mod text_map;
