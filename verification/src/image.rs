//! What is read of container images: digests and descriptors.
use vstd::prelude::*;

use crate::names::{
    option_media_type, same_option_media_type, Arch, KnownArch, KnownMediaType, KnownOs, MediaType,
    NamedView, Os,
};
use crate::text::{option_text, option_texts, same_option_text, same_option_texts};
use crate::text_map::{law_same_text_values, option_text_values, same_option_map, TextMap};

verus! {

/// `[a-z0-9]`
pub open spec fn is_algorithm_char(c: char) -> bool {
    'a' <= c <= 'z' || '0' <= c <= '9'
}

/// `[+._-]`
pub open spec fn is_separator(c: char) -> bool {
    c == '+' || c == '.' || c == '_' || c == '-'
}

/// `[a-zA-Z0-9=_-]`
pub open spec fn is_encoded_char(c: char) -> bool {
    is_algorithm_char(c) || 'A' <= c <= 'Z' || c == '=' || c == '_' || c == '-'
}

/// `[0-9a-f]`
pub open spec fn is_hex_char(c: char) -> bool {
    'a' <= c <= 'f' || '0' <= c <= '9'
}

/// Components of letters and digits, with one separator between any two.
pub open spec fn is_algorithm(s: Seq<char>) -> bool {
    &&& s.len() > 0
    &&& forall|i: int|
        0 <= i < s.len() ==> is_algorithm_char(#[trigger] s[i]) || {
            &&& is_separator(s[i])
            &&& 0 < i < s.len() - 1
            &&& is_algorithm_char(s[i - 1])
        }
}

/// What may stand behind the algorithm. The algorithms of the SHA family fix the
/// number of hexadecimal digits.
pub open spec fn is_encoded(algorithm: Seq<char>, s: Seq<char>) -> bool {
    &&& s.len() > 0
    &&& forall|i: int| 0 <= i < s.len() ==> is_encoded_char(#[trigger] s[i])
    &&& algorithm == "sha256"@ ==> s.len() == 64 && is_hex(s)
    &&& algorithm == "sha384"@ ==> s.len() == 96 && is_hex(s)
    &&& algorithm == "sha512"@ ==> s.len() == 128 && is_hex(s)
}

pub open spec fn is_hex(s: Seq<char>) -> bool {
    forall|i: int| 0 <= i < s.len() ==> is_hex_char(#[trigger] s[i])
}

/// Whether `s` is a digest: an algorithm, a colon, and an encoded value.
pub open spec fn is_digest(s: Seq<char>) -> bool {
    exists|colon: int|
        {
            &&& 0 <= colon < s.len()
            &&& #[trigger] s[colon] == ':'
            &&& is_algorithm(s.take(colon))
            &&& is_encoded(s.take(colon), s.skip(colon + 1))
        }
}

/// What `oci_spec::image::Digest::from_str` says is wrong with `text`, which is
/// not a digest.
pub uninterp spec fn digest_error_text(text: Seq<char>) -> Seq<char>;

/// Calls `oci_spec::image::Digest::from_str`. The contract claims that it
/// accepts exactly the texts of the form `algorithm:encoded` that
/// [`is_digest`] describes, that the digest is written as it was read, and that
/// the text of the error depends on the rejected text alone.
#[verifier::external_body]
fn parse_oci_digest(text: &str) -> (r: Result<String, String>)
    ensures
        r is Ok <==> is_digest(text@),
        r matches Ok(digest) ==> digest@ == text@,
        r matches Err(e) ==> e@ == digest_error_text(text@),
{
    match <oci_spec::image::Digest as std::str::FromStr>::from_str(text) {
        Ok(digest) => Ok(digest.to_string()),
        Err(e) => Err(e.to_string()),
    }
}

/// Why a text is not a digest.
#[derive(Debug)]
pub struct DigestError {
    pub text: String,
}

/// The digest of some content, such as `sha256:` and 64 hexadecimal digits.
#[derive(Debug)]
pub struct Digest {
    text: String,
}

impl View for Digest {
    type V = Seq<char>;

    closed spec fn view(&self) -> Seq<char> {
        self.text@
    }
}

impl Digest {
    #[verifier::type_invariant]
    spec fn is_valid(self) -> bool {
        is_digest(self.text@)
    }

    /// Reads a digest.
    pub fn from_str(text: &str) -> (r: Result<Digest, DigestError>)
        ensures
            match r {
                Ok(digest) => is_digest(text@) && digest@ == text@,
                Err(e) => !is_digest(text@) && e.text@ == digest_error_text(text@),
            },
    {
        match parse_oci_digest(text) {
            Ok(text) => Ok(Digest { text }),
            Err(text) => Err(DigestError { text }),
        }
    }

    /// The digest as text.
    pub fn as_text(&self) -> (r: &String)
        ensures
            r@ == self@,
            is_digest(r@),
    {
        proof {
            use_type_invariant(self);
        }
        &self.text
    }
}

impl Clone for Digest {
    fn clone(&self) -> (r: Self)
        ensures
            r == *self,
            r@ == self@,
    {
        proof {
            use_type_invariant(self);
        }
        Digest { text: self.text.clone() }
    }
}

impl PartialEq for Digest {
    fn eq(&self, other: &Self) -> (r: bool)
        ensures
            r == (self@ == other@),
    {
        self.text == other.text
    }
}

impl vstd::std_specs::cmp::PartialEqSpecImpl for Digest {
    open spec fn obeys_eq_spec() -> bool {
        true
    }

    open spec fn eq_spec(&self, other: &Self) -> bool {
        self@ == other@
    }
}

impl Eq for Digest {

}

/// The least that a machine must offer to run an image.
#[derive(Debug)]
pub struct Platform {
    pub architecture: Arch,
    pub os: Os,
    pub os_version: Option<String>,
    pub os_features: Option<Vec<String>>,
    pub variant: Option<String>,
    pub features: Option<Vec<String>>,
}

/// The contents of a [`Platform`].
pub struct PlatformView {
    pub architecture: NamedView<KnownArch>,
    pub os: NamedView<KnownOs>,
    pub os_version: Option<Seq<char>>,
    pub os_features: Option<Seq<Seq<char>>>,
    pub variant: Option<Seq<char>>,
    pub features: Option<Seq<Seq<char>>>,
}

impl View for Platform {
    type V = PlatformView;

    open spec fn view(&self) -> PlatformView {
        PlatformView {
            architecture: self.architecture@,
            os: self.os@,
            os_version: option_text(self.os_version),
            os_features: option_texts(self.os_features),
            variant: option_text(self.variant),
            features: option_texts(self.features),
        }
    }
}

impl PartialEq for Platform {
    fn eq(&self, other: &Self) -> (r: bool)
        ensures
            r == {
                &&& self.architecture@ == other.architecture@
                &&& self.os@ == other.os@
                &&& option_text(self.os_version) == option_text(other.os_version)
                &&& option_texts(self.os_features) == option_texts(other.os_features)
                &&& option_text(self.variant) == option_text(other.variant)
                &&& option_texts(self.features) == option_texts(other.features)
            },
    {
        self.architecture == other.architecture && self.os == other.os && same_option_text(
            &self.os_version,
            &other.os_version,
        ) && same_option_texts(&self.os_features, &other.os_features) && same_option_text(
            &self.variant,
            &other.variant,
        ) && same_option_texts(&self.features, &other.features)
    }
}

impl vstd::std_specs::cmp::PartialEqSpecImpl for Platform {
    open spec fn obeys_eq_spec() -> bool {
        true
    }

    open spec fn eq_spec(&self, other: &Self) -> bool {
        self@ == other@
    }
}

impl Eq for Platform {

}

/// The contents of an optional platform.
pub open spec fn option_platform(p: Option<Platform>) -> Option<PlatformView> {
    match p {
        Some(p) => Some(p@),
        None => None,
    }
}

fn same_option_platform(a: &Option<Platform>, b: &Option<Platform>) -> (r: bool)
    ensures
        r == (option_platform(*a) == option_platform(*b)),
{
    match (a, b) {
        (Some(a), Some(b)) => *a == *b,
        (None, None) => true,
        _ => false,
    }
}

/// Describes a blob: its media type, digest and size, and what else is said of it.
#[derive(Debug)]
pub struct Descriptor {
    pub media_type: MediaType,
    pub digest: Digest,
    pub size: u64,
    pub urls: Option<Vec<String>>,
    pub annotations: Option<TextMap<String>>,
    pub platform: Option<Platform>,
    pub artifact_type: Option<MediaType>,
    pub data: Option<String>,
}

/// The contents of a [`Descriptor`].
pub struct DescriptorView {
    pub media_type: NamedView<KnownMediaType>,
    pub digest: Seq<char>,
    pub size: u64,
    pub urls: Option<Seq<Seq<char>>>,
    pub annotations: Option<Map<Seq<char>, Seq<char>>>,
    pub platform: Option<PlatformView>,
    pub artifact_type: Option<NamedView<KnownMediaType>>,
    pub data: Option<Seq<char>>,
}

impl View for Descriptor {
    type V = DescriptorView;

    open spec fn view(&self) -> DescriptorView {
        DescriptorView {
            media_type: self.media_type@,
            digest: self.digest@,
            size: self.size,
            urls: option_texts(self.urls),
            annotations: option_text_values(self.annotations),
            platform: option_platform(self.platform),
            artifact_type: option_media_type(self.artifact_type),
            data: option_text(self.data),
        }
    }
}

impl Descriptor {
    /// A descriptor with the required properties only.
    pub fn new(media_type: MediaType, size: u64, digest: Digest) -> (r: Self)
        ensures
            r@ == (DescriptorView {
                media_type: media_type@,
                digest: digest@,
                size,
                urls: None,
                annotations: None,
                platform: None,
                artifact_type: None,
                data: None,
            }),
            r.media_type == media_type,
            r.digest == digest,
            r.size == size,
            r.urls is None,
            r.annotations is None,
            r.platform is None,
            r.artifact_type is None,
            r.data is None,
    {
        Descriptor {
            media_type,
            digest,
            size,
            urls: None,
            annotations: None,
            platform: None,
            artifact_type: None,
            data: None,
        }
    }
}

impl PartialEq for Descriptor {
    fn eq(&self, other: &Self) -> (r: bool)
        ensures
            r == {
                &&& self.media_type@ == other.media_type@
                &&& self.digest@ == other.digest@
                &&& self.size == other.size
                &&& option_texts(self.urls) == option_texts(other.urls)
                &&& option_text_values(self.annotations) == option_text_values(other.annotations)
                &&& option_platform(self.platform) == option_platform(other.platform)
                &&& option_media_type(self.artifact_type) == option_media_type(
                    other.artifact_type,
                )
                &&& option_text(self.data) == option_text(other.data)
            },
    {
        self.media_type == other.media_type && self.digest == other.digest && self.size
            == other.size && same_option_texts(&self.urls, &other.urls) && same_option_map(
            &self.annotations,
            &other.annotations,
        ) && same_option_platform(&self.platform, &other.platform) && same_option_media_type(
            &self.artifact_type,
            &other.artifact_type,
        ) && same_option_text(&self.data, &other.data)
    }
}

impl vstd::std_specs::cmp::PartialEqSpecImpl for Descriptor {
    open spec fn obeys_eq_spec() -> bool {
        true
    }

    open spec fn eq_spec(&self, other: &Self) -> bool {
        self@ == other@
    }
}

impl Eq for Descriptor {

}

/// The digests whose algorithm is `algorithm` and whose encoded value is `encoded`. An
/// algorithm is made of components of `[a-z0-9]` with one of `+._-` between any two. An
/// encoded value is made of `[a-zA-Z0-9=_-]`; for the SHA algorithms it is the number of
/// lower-case hexadecimal digits that they produce.
pub proof fn law_digest_form(algorithm: Seq<char>, encoded: Seq<char>)
    requires
        !algorithm.contains(':'),
    ensures
        is_digest(algorithm + seq![':'] + encoded) <==> {
            &&& algorithm.len() > 0
            &&& encoded.len() > 0
            &&& forall|i: int|
                0 <= i < algorithm.len() ==> {
                    ||| 'a' <= #[trigger] algorithm[i] <= 'z'
                    ||| '0' <= algorithm[i] <= '9'
                    ||| {
                        &&& (algorithm[i] == '+' || algorithm[i] == '.' || algorithm[i] == '_'
                            || algorithm[i] == '-')
                        &&& 0 < i < algorithm.len() - 1
                        &&& ('a' <= algorithm[i - 1] <= 'z' || '0' <= algorithm[i - 1] <= '9')
                    }
                }
            &&& forall|i: int|
                0 <= i < encoded.len() ==> {
                    ||| 'a' <= #[trigger] encoded[i] <= 'z'
                    ||| 'A' <= encoded[i] <= 'Z'
                    ||| '0' <= encoded[i] <= '9'
                    ||| encoded[i] == '='
                    ||| encoded[i] == '_'
                    ||| encoded[i] == '-'
                }
            &&& (algorithm == "sha256"@ || algorithm == "sha384"@ || algorithm == "sha512"@)
                ==> forall|i: int|
                0 <= i < encoded.len() ==> 'a' <= #[trigger] encoded[i] <= 'f' || '0' <= encoded[i]
                    <= '9'
            &&& algorithm == "sha256"@ ==> encoded.len() == 64
            &&& algorithm == "sha384"@ ==> encoded.len() == 96
            &&& algorithm == "sha512"@ ==> encoded.len() == 128
        },
{
    let s = algorithm + seq![':'] + encoded;
    let n = algorithm.len() as int;
    assert(s[n] == ':');
    assert(s.take(n) =~= algorithm);
    assert(s.skip(n + 1) =~= encoded);
    if is_digest(s) {
        let colon = choose|colon: int|
            {
                &&& 0 <= colon < s.len()
                &&& #[trigger] s[colon] == ':'
                &&& is_algorithm(s.take(colon))
                &&& is_encoded(s.take(colon), s.skip(colon + 1))
            };
        if colon < n {
            assert(algorithm[colon] == ':');
        } else if colon > n {
            assert(s.take(colon)[n] == ':');
        }
        assert(is_algorithm(algorithm) && is_encoded(algorithm, encoded));
    }
}

/// A text without a colon is not a digest.
pub proof fn law_digest_has_a_colon(s: Seq<char>)
    ensures
        is_digest(s) ==> s.contains(':'),
{
}

/// Digests compare equal exactly if they are the same text.
pub proof fn law_equal_digests(a: Digest, b: Digest)
    ensures
        vstd::std_specs::cmp::PartialEqSpec::eq_spec(&a, &b) <==> a@ == b@,
{
}

/// Two platforms have the same view, and compare equal, exactly if they agree in every
/// field.
pub proof fn law_equal_platforms(a: Platform, b: Platform)
    ensures
        a@ == b@ <==> {
            &&& a.architecture@ == b.architecture@
            &&& a.os@ == b.os@
            &&& option_text(a.os_version) == option_text(b.os_version)
            &&& option_texts(a.os_features) == option_texts(b.os_features)
            &&& option_text(a.variant) == option_text(b.variant)
            &&& option_texts(a.features) == option_texts(b.features)
        },
        vstd::std_specs::cmp::PartialEqSpec::eq_spec(&a, &b) <==> a@ == b@,
{
}

/// Nothing is lost of an optional platform.
pub proof fn law_option_platform(p: Platform)
    ensures
        option_platform(Some(p)) == Some(p@),
        option_platform(None) is None,
{
}

/// Two descriptors have the same view, and compare equal, exactly if they agree in every
/// field.
pub proof fn law_equal_descriptors(a: Descriptor, b: Descriptor)
    ensures
        a@ == b@ <==> {
            &&& a.media_type@ == b.media_type@
            &&& a.digest@ == b.digest@
            &&& a.size == b.size
            &&& option_texts(a.urls) == option_texts(b.urls)
            &&& option_text_values(a.annotations) == option_text_values(b.annotations)
            &&& option_platform(a.platform) == option_platform(b.platform)
            &&& option_media_type(a.artifact_type) == option_media_type(b.artifact_type)
            &&& option_text(a.data) == option_text(b.data)
        },
        vstd::std_specs::cmp::PartialEqSpec::eq_spec(&a, &b) <==> a@ == b@,
{
}

/// Descriptors that compare equal describe the same blob: one with the same digest and
/// size, whose annotations have the same text under the same keys.
pub proof fn law_equal_descriptors_describe_one_blob(a: Descriptor, b: Descriptor)
    requires
        a@ == b@,
    ensures
        a.digest@ == b.digest@,
        a.size == b.size,
        match (a.annotations, b.annotations) {
            (Some(m), Some(n)) => forall|key: Seq<char>| #[trigger]
                m@.contains_key(key) ==> n@.contains_key(key) && m@[key]@ == n@[key]@,
            (None, None) => true,
            _ => false,
        },
{
    law_same_text_values(a.annotations, b.annotations);
}

} // verus!
