//! The media types, operating systems and architectures of container images.
use vstd::prelude::*;

verus! {

/// The media types that the image format defines.
#[derive(Clone, Copy, Debug, PartialEq, Eq, Structural)]
pub enum KnownMediaType {
    Descriptor,
    LayoutHeader,
    ImageManifest,
    ImageIndex,
    ImageLayer,
    ImageLayerGzip,
    ImageLayerZstd,
    ImageLayerNonDistributable,
    ImageLayerNonDistributableGzip,
    ImageLayerNonDistributableZstd,
    ImageConfig,
    ArtifactManifest,
    EmptyJson,
}

/// The operating systems that the image format defines.
#[derive(Clone, Copy, Debug, PartialEq, Eq, Structural)]
pub enum KnownOs {
    Aix,
    Android,
    Darwin,
    DragonFlyBsd,
    FreeBsd,
    Hurd,
    Illumos,
    Ios,
    Js,
    Linux,
    Nacl,
    NetBsd,
    OpenBsd,
    Plan9,
    Solaris,
    Windows,
    Zos,
}

/// The architectures that the image format defines.
#[derive(Clone, Copy, Debug, PartialEq, Eq, Structural)]
pub enum KnownArch {
    I386,
    Amd64,
    Amd64p32,
    Arm,
    Armbe,
    Arm64,
    Arm64be,
    LoongArch64,
    Mips,
    Mipsle,
    Mips64,
    Mips64le,
    Mips64p32,
    Mips64p32le,
    PowerPc,
    PowerPc64,
    PowerPc64le,
    RiscV,
    RiscV64,
    S390,
    S390x,
    Sparc,
    Sparc64,
    Wasm,
}

/// One of the values `K` that the image format defines, or any other, by its
/// text. The two are kept apart even where the text is that of a defined value.
#[derive(Debug)]
pub enum Named<K> {
    Known(K),
    Other(String),
}

/// The contents of a [`Named`].
pub enum NamedView<K> {
    Known(K),
    Other(Seq<char>),
}

impl<K> View for Named<K> {
    type V = NamedView<K>;

    open spec fn view(&self) -> NamedView<K> {
        match *self {
            Named::Known(k) => NamedView::Known(k),
            Named::Other(text) => NamedView::Other(text@),
        }
    }
}

/// A media type.
pub type MediaType = Named<KnownMediaType>;

/// An operating system.
pub type Os = Named<KnownOs>;

/// An architecture.
pub type Arch = Named<KnownArch>;

impl<K: Copy> Clone for Named<K> {
    fn clone(&self) -> (r: Self)
        ensures
            r@ == self@,
            match (*self, r) {
                (Named::Known(k), Named::Known(l)) => l == k,
                (Named::Other(t), Named::Other(u)) => u@ == t@,
                _ => false,
            },
    {
        match self {
            Named::Known(k) => Named::Known(*k),
            Named::Other(text) => Named::Other(text.clone()),
        }
    }
}

impl PartialEq for Named<KnownMediaType> {
    fn eq(&self, other: &Self) -> (r: bool)
        ensures
            r == match (*self, *other) {
                (Named::Known(k), Named::Known(l)) => k == l,
                (Named::Other(t), Named::Other(u)) => t@ == u@,
                _ => false,
            },
    {
        match (self, other) {
            (Named::Known(a), Named::Known(b)) => *a == *b,
            (Named::Other(a), Named::Other(b)) => *a == *b,
            _ => false,
        }
    }
}

impl vstd::std_specs::cmp::PartialEqSpecImpl for Named<KnownMediaType> {
    open spec fn obeys_eq_spec() -> bool {
        true
    }

    open spec fn eq_spec(&self, other: &Self) -> bool {
        self@ == other@
    }
}

impl Eq for Named<KnownMediaType> {

}

impl PartialEq for Named<KnownOs> {
    fn eq(&self, other: &Self) -> (r: bool)
        ensures
            r == match (*self, *other) {
                (Named::Known(k), Named::Known(l)) => k == l,
                (Named::Other(t), Named::Other(u)) => t@ == u@,
                _ => false,
            },
    {
        match (self, other) {
            (Named::Known(a), Named::Known(b)) => *a == *b,
            (Named::Other(a), Named::Other(b)) => *a == *b,
            _ => false,
        }
    }
}

impl vstd::std_specs::cmp::PartialEqSpecImpl for Named<KnownOs> {
    open spec fn obeys_eq_spec() -> bool {
        true
    }

    open spec fn eq_spec(&self, other: &Self) -> bool {
        self@ == other@
    }
}

impl Eq for Named<KnownOs> {

}

impl PartialEq for Named<KnownArch> {
    fn eq(&self, other: &Self) -> (r: bool)
        ensures
            r == match (*self, *other) {
                (Named::Known(k), Named::Known(l)) => k == l,
                (Named::Other(t), Named::Other(u)) => t@ == u@,
                _ => false,
            },
    {
        match (self, other) {
            (Named::Known(a), Named::Known(b)) => *a == *b,
            (Named::Other(a), Named::Other(b)) => *a == *b,
            _ => false,
        }
    }
}

impl vstd::std_specs::cmp::PartialEqSpecImpl for Named<KnownArch> {
    open spec fn obeys_eq_spec() -> bool {
        true
    }

    open spec fn eq_spec(&self, other: &Self) -> bool {
        self@ == other@
    }
}

impl Eq for Named<KnownArch> {

}

/// The contents of an optional media type.
pub open spec fn option_media_type(m: Option<MediaType>) -> Option<NamedView<KnownMediaType>> {
    match m {
        Some(m) => Some(m@),
        None => None,
    }
}

/// Whether two optional media types are the same.
pub fn same_option_media_type(a: &Option<MediaType>, b: &Option<MediaType>) -> (r: bool)
    ensures
        r == (option_media_type(*a) == option_media_type(*b)),
{
    match (a, b) {
        (Some(a), Some(b)) => *a == *b,
        (None, None) => true,
        _ => false,
    }
}

/// The view of a name tells all of it: which kind of name it is, and its value or its
/// text.
pub proof fn law_view_of_a_name<K>(k: K, text: String)
    ensures
        Named::<K>::Known(k)@ == NamedView::<K>::Known(k),
        Named::<K>::Other(text)@ == NamedView::<K>::Other(text@),
{
}

/// Two names have the same view exactly if both are the same defined value, or both are
/// other names with the same text.
pub proof fn law_same_names<K>(a: Named<K>, b: Named<K>)
    ensures
        a@ == b@ <==> match (a, b) {
            (Named::Known(k), Named::Known(l)) => k == l,
            (Named::Other(t), Named::Other(u)) => t@ == u@,
            _ => false,
        },
{
}

/// Media types compare equal exactly if they are the same defined value, or other
/// names with the same text.
pub proof fn law_equal_media_types(a: Named<KnownMediaType>, b: Named<KnownMediaType>)
    ensures
        vstd::std_specs::cmp::PartialEqSpec::eq_spec(&a, &b) <==> match (a, b) {
            (Named::Known(k), Named::Known(l)) => k == l,
            (Named::Other(t), Named::Other(u)) => t@ == u@,
            _ => false,
        },
{
}

/// Operating systems compare equal exactly if they are the same defined value, or other
/// names with the same text.
pub proof fn law_equal_operating_systems(a: Named<KnownOs>, b: Named<KnownOs>)
    ensures
        vstd::std_specs::cmp::PartialEqSpec::eq_spec(&a, &b) <==> match (a, b) {
            (Named::Known(k), Named::Known(l)) => k == l,
            (Named::Other(t), Named::Other(u)) => t@ == u@,
            _ => false,
        },
{
}

/// Architectures compare equal exactly if they are the same defined value, or other
/// names with the same text.
pub proof fn law_equal_architectures(a: Named<KnownArch>, b: Named<KnownArch>)
    ensures
        vstd::std_specs::cmp::PartialEqSpec::eq_spec(&a, &b) <==> match (a, b) {
            (Named::Known(k), Named::Known(l)) => k == l,
            (Named::Other(t), Named::Other(u)) => t@ == u@,
            _ => false,
        },
{
}

/// Nothing is lost of an optional media type.
pub proof fn law_option_media_type(m: MediaType)
    ensures
        option_media_type(Some(m)) == Some(m@),
        option_media_type(None) is None,
{
}

} // verus!
