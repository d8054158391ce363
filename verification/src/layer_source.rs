//! Rebuilding the layers of a target image from a delta.
use vstd::prelude::*;

use crate::image::{
    digest_error_text, is_digest, law_equal_descriptors, Descriptor, DescriptorView, Digest,
    DigestError,
};
use crate::least::lemma_least;
use crate::names::{KnownMediaType, MediaType, Named, NamedView};
use crate::text::{decimal, decimal_text};
use crate::text_map::TextMap;

verus! {

/// How many bytes of a rebuilt layer may wait between the worker that produces
/// them and the importer before the worker blocks.
pub const PIPE_BUFFER: usize = 128 * 1024;

/// What a delta says of its source and its target.
#[derive(Debug)]
pub struct Delta {
    /// The file that holds the delta.
    pub path: String,
    /// The digest of the config of the source image.
    pub source_config_digest: Digest,
    /// The changed layers: for the digest of a target layer, the blob of the
    /// delta that produces it.
    pub patches: TextMap<Descriptor>,
    /// The digests of the uncompressed layers of the target image, as its config
    /// lists them.
    pub diff_ids: Vec<String>,
}

/// Why a layer cannot be rebuilt.
#[derive(Debug)]
pub enum PatchError {
    /// The delta at `delta` has no patch for the layer `layer`.
    NoPatch { delta: String, layer: String },
    /// The layer `layer` is not one of the target image.
    NotInTarget { layer: String },
    /// The config of the target image lists no digest for the layer at `index`.
    NoDiffId { index: usize },
    /// What the config of the target image lists for the layer at `index` is not
    /// a digest.
    InvalidDiffId { index: usize, cause: DigestError },
}

impl PatchError {
    /// The text of the error. The cause of an invalid digest is not part of it.
    pub open spec fn text(self) -> Seq<char> {
        match self {
            PatchError::NoPatch { delta, layer } => "Delta "@ + delta@
                + " carries no patch for layer "@ + layer@
                + ", and it is not present locally; there is nothing to reconstruct it from"@,
            PatchError::NotInTarget { layer } => "Layer "@ + layer@
                + " is not part of the target image"@,
            PatchError::NoDiffId { index } => "Target image has no diff_id for layer "@
                + decimal_text(index as nat),
            PatchError::InvalidDiffId { index, cause } => "Parsing diff_id for layer "@
                + decimal_text(index as nat),
        }
    }

    /// The text of the error. The cause of an invalid digest is not part of it.
    pub fn message(&self) -> (r: String)
        ensures
            r@ == self.text(),
            match *self {
                PatchError::NoPatch { delta, layer } => r@ == "Delta "@ + delta@
                    + " carries no patch for layer "@ + layer@
                    + ", and it is not present locally; there is nothing to reconstruct it from"@,
                PatchError::NotInTarget { layer } => r@ == "Layer "@ + layer@
                    + " is not part of the target image"@,
                PatchError::NoDiffId { index } => r@ == "Target image has no diff_id for layer "@
                    + decimal_text(index as nat),
                PatchError::InvalidDiffId { index, .. } => r@ == "Parsing diff_id for layer "@
                    + decimal_text(index as nat),
            },
    {
        match self {
            PatchError::NoPatch { delta, layer } => "Delta ".to_owned().concat(
                delta.as_str(),
            ).concat(" carries no patch for layer ").concat(layer.as_str()).concat(
                ", and it is not present locally; there is nothing to reconstruct it from",
            ),
            PatchError::NotInTarget { layer } => "Layer ".to_owned().concat(layer.as_str()).concat(
                " is not part of the target image",
            ),
            PatchError::NoDiffId { index } => "Target image has no diff_id for layer ".to_owned()
                .concat(decimal(*index as u64).as_str()),
            PatchError::InvalidDiffId { index, cause } => "Parsing diff_id for layer ".to_owned()
                .concat(decimal(*index as u64).as_str()),
        }
    }
}

/// Whether the first of `layers` that equals `layer` is at `i`.
pub open spec fn is_first_place(layers: Seq<Descriptor>, layer: DescriptorView, i: int) -> bool {
    &&& 0 <= i < layers.len()
    &&& layers[i]@ == layer
    &&& forall|j: int| 0 <= j < i ==> (#[trigger] layers[j])@ != layer
}

/// The place of the first of `layers` that equals `layer`, if there is one.
pub open spec fn first_place(layers: Seq<Descriptor>, layer: DescriptorView) -> Option<int> {
    if exists|i: int| is_first_place(layers, layer, i) {
        Some(choose|i: int| is_first_place(layers, layer, i))
    } else {
        None
    }
}

/// What is to be done for a layer.
pub enum PatchChoice {
    NoPatch,
    NotInTarget,
    NoDiffId { index: int },
    InvalidDiffId { index: int },
    Open { patch: Descriptor, diff_id: Seq<char> },
}

/// What is to be done for the layer `layer` of the image with the layers
/// `layers`: the delta's patch for the digest of the layer produces it, and the
/// result must have the digest that the config lists at the layer's place.
pub open spec fn patch_choice(
    delta: Delta,
    layers: Seq<Descriptor>,
    layer: Descriptor,
) -> PatchChoice {
    if !delta.patches@.contains_key(layer.digest@) {
        PatchChoice::NoPatch
    } else {
        match first_place(layers, layer@) {
            None => PatchChoice::NotInTarget,
            Some(index) => if index >= delta.diff_ids@.len() {
                PatchChoice::NoDiffId { index }
            } else if !is_digest(delta.diff_ids@[index]@) {
                PatchChoice::InvalidDiffId { index }
            } else {
                PatchChoice::Open {
                    patch: delta.patches@[layer.digest@],
                    diff_id: delta.diff_ids@[index]@,
                }
            },
        }
    }
}

/// The patch that produces a layer.
#[derive(Debug)]
pub struct OpenPatch<'a> {
    /// The blob of the delta.
    pub patch: &'a Descriptor,
    /// Its media type.
    pub media_type: MediaType,
    /// The digest that the produced layer must have.
    pub diff_id: Digest,
}

/// All that is needed to produce a layer.
#[derive(Debug)]
pub struct LayerJob {
    /// The commit that holds the source image.
    pub source_commit: String,
    /// The media type of the patch.
    pub media_type: MediaType,
    /// The digest that the produced layer must have.
    pub diff_id: Digest,
    /// The size of the buffers between the worker and the importer.
    pub pipe_buffer: usize,
    /// The media type of the produced layer.
    pub output_media_type: MediaType,
}

impl<'a> OpenPatch<'a> {
    /// The job of applying this patch to the files of `source_commit`. What it
    /// produces is an uncompressed layer, whatever the patch is.
    pub fn apply_to(self, source_commit: String) -> (r: LayerJob)
        ensures
            r.source_commit@ == source_commit@,
            r.media_type@ == self.media_type@,
            r.diff_id@ == self.diff_id@,
            r.pipe_buffer == PIPE_BUFFER,
            r.output_media_type@ == NamedView::Known(KnownMediaType::ImageLayer),
            r.source_commit == source_commit,
            r.media_type == self.media_type,
            r.diff_id == self.diff_id,
            r.pipe_buffer == 131072,
            r.output_media_type == Named::Known(KnownMediaType::ImageLayer),
    {
        LayerJob {
            source_commit,
            media_type: self.media_type,
            diff_id: self.diff_id,
            pipe_buffer: PIPE_BUFFER,
            output_media_type: Named::Known(KnownMediaType::ImageLayer),
        }
    }
}

/// The place of the first of `layers` that equals `layer`.
fn position(layers: &[Descriptor], layer: &Descriptor) -> (r: Option<usize>)
    ensures
        match r {
            Some(i) => first_place(layers@, layer@) == Some(i as int),
            None => first_place(layers@, layer@) is None,
        },
        match r {
            Some(i) => {
                &&& i < layers@.len() && layers@[i as int]@ == layer@
                &&& forall|j: int| 0 <= j < i ==> (#[trigger] layers@[j])@ != layer@
            },
            None => forall|i: int| 0 <= i < layers@.len() ==> (#[trigger] layers@[i])@ != layer@,
        },
{
    let mut i: usize = 0;
    while i < layers.len()
        invariant
            i <= layers@.len(),
            forall|j: int| 0 <= j < i ==> (#[trigger] layers@[j])@ != layer@,
        decreases layers@.len() - i,
    {
        if layers[i] == *layer {
            assert(is_first_place(layers@, layer@, i as int));
            return Some(i);
        }
        i += 1;
    }
    None
}

/// Produces the layers of a target image from a delta, without any network
/// access.
#[derive(Debug)]
pub struct DeltaLayerSource {
    pub delta: Delta,
}

impl DeltaLayerSource {
    pub fn new(delta: Delta) -> (r: Self)
        ensures
            r.delta == delta,
    {
        DeltaLayerSource { delta }
    }

    /// The patch for `layer` of the image with the layers `layers`, its media
    /// type, and the digest that the produced layer must have.
    pub fn open_patch<'a>(&'a self, layers: &[Descriptor], layer: &Descriptor) -> (r: Result<
        OpenPatch<'a>,
        PatchError,
    >)
        ensures
            match r {
                Ok(open) => {
                    &&& patch_choice(self.delta, layers@, *layer) == (PatchChoice::Open {
                        patch: *open.patch,
                        diff_id: open.diff_id@,
                    })
                    &&& open.media_type@ == open.patch.media_type@
                },
                Err(PatchError::NoPatch { delta, layer: digest }) => {
                    &&& patch_choice(self.delta, layers@, *layer) == PatchChoice::NoPatch
                    &&& delta@ == self.delta.path@
                    &&& digest@ == layer.digest@
                },
                Err(PatchError::NotInTarget { layer: digest }) => {
                    &&& patch_choice(self.delta, layers@, *layer) == PatchChoice::NotInTarget
                    &&& digest@ == layer.digest@
                },
                Err(PatchError::NoDiffId { index }) => patch_choice(self.delta, layers@, *layer)
                    == (PatchChoice::NoDiffId { index: index as int }),
                Err(PatchError::InvalidDiffId { index, cause }) => {
                    &&& patch_choice(self.delta, layers@, *layer) == (PatchChoice::InvalidDiffId {
                        index: index as int,
                    })
                    &&& cause.text@ == digest_error_text(self.delta.diff_ids@[index as int]@)
                },
            },
            match r {
                Ok(open) => {
                    &&& self.delta.patches@.contains_key(layer.digest@)
                    &&& *open.patch == self.delta.patches@[layer.digest@]
                    &&& match (open.patch.media_type, open.media_type) {
                        (Named::Known(k), Named::Known(l)) => l == k,
                        (Named::Other(t), Named::Other(u)) => u@ == t@,
                        _ => false,
                    }
                    &&& exists|i: int|
                        {
                            &&& 0 <= i < layers@.len()
                            &&& (#[trigger] layers@[i])@ == layer@
                            &&& layers@[i].digest@ == layer.digest@
                            &&& forall|j: int| 0 <= j < i ==> (#[trigger] layers@[j])@ != layer@
                            &&& i < self.delta.diff_ids@.len()
                            &&& open.diff_id@ == self.delta.diff_ids@[i]@
                        }
                },
                Err(PatchError::NoPatch { .. }) => !self.delta.patches@.contains_key(layer.digest@),
                Err(PatchError::NotInTarget { .. }) => {
                    &&& self.delta.patches@.contains_key(layer.digest@)
                    &&& forall|i: int| 0 <= i < layers@.len() ==> (#[trigger] layers@[i])@ != layer@
                },
                Err(PatchError::NoDiffId { index }) => {
                    &&& self.delta.patches@.contains_key(layer.digest@)
                    &&& index < layers@.len() && layers@[index as int]@ == layer@
                    &&& forall|j: int| 0 <= j < index ==> (#[trigger] layers@[j])@ != layer@
                    &&& index >= self.delta.diff_ids@.len()
                },
                Err(PatchError::InvalidDiffId { index, .. }) => {
                    &&& self.delta.patches@.contains_key(layer.digest@)
                    &&& index < layers@.len() && layers@[index as int]@ == layer@
                    &&& forall|j: int| 0 <= j < index ==> (#[trigger] layers@[j])@ != layer@
                    &&& index < self.delta.diff_ids@.len()
                    &&& !is_digest(self.delta.diff_ids@[index as int]@)
                },
            },
    {
        let patch = match self.delta.patches.get(layer.digest.as_text()) {
            Some(patch) => patch,
            None => {
                return Err(
                    PatchError::NoPatch {
                        delta: self.delta.path.clone(),
                        layer: layer.digest.as_text().clone(),
                    },
                );
            },
        };
        let index = match position(layers, layer) {
            Some(index) => index,
            None => {
                return Err(PatchError::NotInTarget { layer: layer.digest.as_text().clone() });
            },
        };
        if index >= self.delta.diff_ids.len() {
            return Err(PatchError::NoDiffId { index });
        }
        match Digest::from_str(self.delta.diff_ids[index].as_str()) {
            Ok(diff_id) => {
                proof {
                    law_equal_descriptors(layers@[index as int], *layer);
                }
                Ok(OpenPatch { patch, media_type: patch.media_type.clone(), diff_id })
            },
            Err(cause) => Err(PatchError::InvalidDiffId { index, cause }),
        }
    }
}

/// A delta whose target config lists a digest for every layer has one for each
/// layer of its target image: rebuilding such a layer fails only for want of a
/// patch, or if what is listed for it is not a digest.
pub proof fn law_target_layer_has_diff_id(
    delta: Delta,
    layers: Seq<Descriptor>,
    layer: Descriptor,
)
    requires
        delta.diff_ids@.len() == layers.len(),
        exists|i: int| 0 <= i < layers.len() && (#[trigger] layers[i])@ == layer@,
    ensures
        patch_choice(delta, layers, layer) !is NotInTarget,
        patch_choice(delta, layers, layer) !is NoDiffId,
        patch_choice(delta, layers, layer) is NoPatch <==> !delta.patches@.contains_key(
            layer.digest@,
        ),
{
    let k = choose|i: int| 0 <= i < layers.len() && (#[trigger] layers[i])@ == layer@;
    let occurs = |i: int| i < layers.len() && layers[i]@ == layer@;
    let i = lemma_least(occurs, k);
    assert forall|j: int| 0 <= j < i implies (#[trigger] layers[j])@ != layer@ by {
        assert(!occurs(j));
    }
    assert(is_first_place(layers, layer@, i));
}

/// The digest that a rebuilt layer must have is the one that the config lists at
/// the place of the layer, and the patch is the one for the layer's digest.
pub proof fn law_opened_patch_is_for_the_layer(
    delta: Delta,
    layers: Seq<Descriptor>,
    layer: Descriptor,
    patch: Descriptor,
    diff_id: Seq<char>,
)
    requires
        patch_choice(delta, layers, layer) == (PatchChoice::Open { patch, diff_id }),
    ensures
        delta.patches@.contains_key(layer.digest@),
        delta.patches@[layer.digest@] == patch,
        is_digest(diff_id),
        exists|i: int|
            {
                &&& 0 <= i < layers.len()
                &&& (#[trigger] layers[i])@ == layer@
                &&& i < delta.diff_ids@.len()
                &&& delta.diff_ids@[i]@ == diff_id
            },
{
    let i = first_place(layers, layer@)->0;
    assert(is_first_place(layers, layer@, i));
}

/// The place of a layer is the first at which a layer equal to it stands.
pub proof fn law_place_of_a_layer(layers: Seq<Descriptor>, layer: Descriptor, i: int)
    requires
        0 <= i < layers.len(),
        layers[i]@ == layer@,
        forall|j: int| 0 <= j < i ==> (#[trigger] layers[j])@ != layer@,
    ensures
        first_place(layers, layer@) == Some(i),
{
    assert(is_first_place(layers, layer@, i));
}

/// A layer that equals none of the layers of an image has no place in it.
pub proof fn law_foreign_layer_has_no_place(layers: Seq<Descriptor>, layer: Descriptor)
    requires
        forall|i: int| 0 <= i < layers.len() ==> (#[trigger] layers[i])@ != layer@,
    ensures
        first_place(layers, layer@) is None,
{
}

/// At the place of a layer stands a layer with the same digest.
pub proof fn law_place_has_the_digest_of_the_layer(layers: Seq<Descriptor>, layer: Descriptor)
    ensures
        first_place(layers, layer@) matches Some(i) ==> 0 <= i < layers.len() && layers[i].digest@
            == layer.digest@,
{
    if let Some(i) = first_place(layers, layer@) {
        assert(is_first_place(layers, layer@, i));
        law_equal_descriptors(layers[i], layer);
    }
}

/// In an image whose layers have different digests, a layer is at its own place, whatever
/// else is said of it and of the others.
pub proof fn law_distinct_layers_have_their_own_places(layers: Seq<Descriptor>, i: int)
    requires
        0 <= i < layers.len(),
        forall|j: int| 0 <= j < i ==> (#[trigger] layers[j]).digest@ != layers[i].digest@,
    ensures
        first_place(layers, layers[i]@) == Some(i),
{
    assert forall|j: int| 0 <= j < i implies (#[trigger] layers[j])@ != layers[i]@ by {
        law_equal_descriptors(layers[j], layers[i]);
    }
    law_place_of_a_layer(layers, layers[i], i);
}

/// What is done for a layer that stands at `i`, and at no earlier place, follows from
/// whether there is a patch for its digest and from what the config lists at `i`.
pub proof fn law_place_decides_the_diff_id(
    delta: Delta,
    layers: Seq<Descriptor>,
    layer: Descriptor,
    i: int,
)
    requires
        delta.patches@.contains_key(layer.digest@),
        0 <= i < layers.len(),
        layers[i]@ == layer@,
        forall|j: int| 0 <= j < i ==> (#[trigger] layers[j])@ != layer@,
    ensures
        i >= delta.diff_ids@.len() ==> patch_choice(delta, layers, layer) == (
        PatchChoice::NoDiffId { index: i }),
        i < delta.diff_ids@.len() && !is_digest(delta.diff_ids@[i]@) ==> patch_choice(
            delta,
            layers,
            layer,
        ) == (PatchChoice::InvalidDiffId { index: i }),
        i < delta.diff_ids@.len() && is_digest(delta.diff_ids@[i]@) ==> patch_choice(
            delta,
            layers,
            layer,
        ) == (PatchChoice::Open {
            patch: delta.patches@[layer.digest@],
            diff_id: delta.diff_ids@[i]@,
        }),
{
    law_place_of_a_layer(layers, layer, i);
}

/// Without a patch for its digest, or without a place in the target image, a layer cannot
/// be rebuilt. The want of a patch is told first.
pub proof fn law_patch_and_place_are_needed(
    delta: Delta,
    layers: Seq<Descriptor>,
    layer: Descriptor,
)
    ensures
        patch_choice(delta, layers, layer) is NoPatch <==> !delta.patches@.contains_key(
            layer.digest@,
        ),
        patch_choice(delta, layers, layer) is NotInTarget <==> {
            &&& delta.patches@.contains_key(layer.digest@)
            &&& forall|i: int| 0 <= i < layers.len() ==> (#[trigger] layers[i])@ != layer@
        },
{
    if exists|i: int| 0 <= i < layers.len() && (#[trigger] layers[i])@ == layer@ {
        let k = choose|i: int| 0 <= i < layers.len() && (#[trigger] layers[i])@ == layer@;
        let occurs = |i: int| i < layers.len() && layers[i]@ == layer@;
        let i = lemma_least(occurs, k);
        assert forall|j: int| 0 <= j < i implies (#[trigger] layers[j])@ != layer@ by {
            assert(!occurs(j));
        }
        law_place_of_a_layer(layers, layer, i);
    }
}

/// An error names what it is about: the delta and the digest of the layer, or the place of
/// the layer.
pub proof fn law_text_of_a_patch_error(
    delta: String,
    layer: String,
    index: usize,
    cause: DigestError,
)
    ensures
        (PatchError::NoPatch { delta, layer }).text() == "Delta "@ + delta@
            + " carries no patch for layer "@ + layer@
            + ", and it is not present locally; there is nothing to reconstruct it from"@,
        (PatchError::NotInTarget { layer }).text() == "Layer "@ + layer@
            + " is not part of the target image"@,
        (PatchError::NoDiffId { index }).text() == "Target image has no diff_id for layer "@
            + decimal_text(index as nat),
        (PatchError::InvalidDiffId { index, cause }).text() == "Parsing diff_id for layer "@
            + decimal_text(index as nat),
{
}

} // verus!
