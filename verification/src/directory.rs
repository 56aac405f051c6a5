//! The engine directory's catalogue entries and the decisions of an
//! installation: which published binary fits this machine, what kind of
//! archive it ships in, and the CPU tier an engine build is picked for.
//! Downloading and unpacking are the embedding program's work.

use vstd::prelude::*;

use crate::strutil::{str_ends_with, str_eq};

verus! {

/// One published engine build for one platform.
pub struct Binary {
    pub os: String,
    pub architecture: String,
    /// URL of the archive holding the build.
    pub zip: String,
    /// Name of the engine executable inside the archive.
    pub binary_filename: String,
}

/// Mathematical image of a [`Binary`] value.
pub struct BinaryView {
    pub os: Seq<char>,
    pub architecture: Seq<char>,
    pub zip: Seq<char>,
    pub binary_filename: Seq<char>,
}

impl View for Binary {
    type V = BinaryView;

    open spec fn view(&self) -> BinaryView {
        BinaryView {
            os: self.os@,
            architecture: self.architecture@,
            zip: self.zip@,
            binary_filename: self.binary_filename@,
        }
    }
}

impl DeepView for Binary {
    type V = BinaryView;

    open spec fn deep_view(&self) -> BinaryView {
        self.view()
    }
}

/// One engine of the directory, with the binaries published for it.
pub struct Engine {
    pub name: String,
    pub description: String,
    pub website: String,
    pub license: String,
    pub version: String,
    pub updated_at: String,
    pub binaries: Vec<Binary>,
}

/// Mathematical image of an [`Engine`] value.
pub struct EngineView {
    pub name: Seq<char>,
    pub description: Seq<char>,
    pub website: Seq<char>,
    pub license: Seq<char>,
    pub version: Seq<char>,
    pub updated_at: Seq<char>,
    pub binaries: Seq<BinaryView>,
}

impl View for Engine {
    type V = EngineView;

    open spec fn view(&self) -> EngineView {
        EngineView {
            name: self.name@,
            description: self.description@,
            website: self.website@,
            license: self.license@,
            version: self.version@,
            updated_at: self.updated_at@,
            binaries: self.binaries.deep_view(),
        }
    }
}

/// The CPU tier of the build to install: the widest instruction set the
/// machine supports, probed by the embedding program.
pub open spec fn cpu_architecture_spec(has_avx2: bool, has_popcnt: bool) -> Seq<char> {
    if has_avx2 {
        "avx2"@
    } else if has_popcnt {
        "modern"@
    } else {
        "default"@
    }
}

/// Names the CPU tier of the build to install, as
/// [`cpu_architecture_spec`] states. On a platform whose builds carry no
/// tiers, pass `false` twice to get the default tier.
pub fn cpu_architecture(has_avx2: bool, has_popcnt: bool) -> (r: &'static str)
    ensures
        r@ == cpu_architecture_spec(has_avx2, has_popcnt),
{
    if has_avx2 {
        "avx2"
    } else if has_popcnt {
        "modern"
    } else {
        "default"
    }
}

/// Does this binary fit the given platform?
pub open spec fn binary_matches(b: BinaryView, os: Seq<char>, architecture: Seq<char>) -> bool {
    b.os == os && b.architecture == architecture
}

/// The position of the first binary fitting the given platform.
pub open spec fn first_matching_binary(
    binaries: Seq<BinaryView>,
    os: Seq<char>,
    architecture: Seq<char>,
) -> Option<int>
    decreases binaries.len(),
{
    if binaries.len() == 0 {
        None
    } else if binary_matches(binaries[0], os, architecture) {
        Some(0)
    } else {
        match first_matching_binary(binaries.drop_first(), os, architecture) {
            Some(i) => Some(i + 1),
            None => None,
        }
    }
}

/// Finds the first of the engine's binaries published for this `os` and
/// `architecture`, as [`first_matching_binary`] states; `None` when the
/// engine publishes no fitting build.
pub fn select_binary(engine: &Engine, os: &str, architecture: &str) -> (r: Option<usize>)
    ensures
        match r {
            Some(i) => first_matching_binary(engine@.binaries, os@, architecture@) == Some(i as int)
                && i < engine.binaries.len(),
            None => first_matching_binary(engine@.binaries, os@, architecture@) is None,
        },
{
    let ghost bins = engine@.binaries;
    let mut i: usize = 0;
    while i < engine.binaries.len()
        invariant
            bins == engine@.binaries,
            bins.len() == engine.binaries.len(),
            forall|j: int| 0 <= j < bins.len() ==> bins[j] == engine.binaries@[j]@,
            i <= bins.len(),
            forall|j: int| 0 <= j < i ==> !binary_matches(bins[j], os@, architecture@),
        decreases engine.binaries.len() - i,
    {
        let b = &engine.binaries[i];
        if str_eq(b.os.as_str(), os) && str_eq(b.architecture.as_str(), architecture) {
            proof {
                lemma_first_matching_at(bins, os@, architecture@, i as int);
            }
            return Some(i);
        }
        i = i + 1;
    }
    proof {
        lemma_first_matching_none(bins, os@, architecture@);
    }
    None
}

proof fn lemma_first_matching_at(binaries: Seq<BinaryView>, os: Seq<char>, arch: Seq<char>, i: int)
    requires
        0 <= i < binaries.len(),
        binary_matches(binaries[i], os, arch),
        forall|j: int| 0 <= j < i ==> !binary_matches(binaries[j], os, arch),
    ensures
        first_matching_binary(binaries, os, arch) == Some(i),
    decreases i,
{
    if i > 0 {
        lemma_first_matching_at(binaries.drop_first(), os, arch, i - 1);
    }
}

proof fn lemma_first_matching_none(binaries: Seq<BinaryView>, os: Seq<char>, arch: Seq<char>)
    requires
        forall|j: int| 0 <= j < binaries.len() ==> !binary_matches(binaries[j], os, arch),
    ensures
        first_matching_binary(binaries, os, arch) is None,
    decreases binaries.len(),
{
    if binaries.len() > 0 {
        lemma_first_matching_none(binaries.drop_first(), os, arch);
    }
}

/// How a published archive is unpacked, told by its URL's ending.
#[derive(Clone, Copy, PartialEq, Eq, Structural, Debug)]
pub enum ArchiveKind {
    /// A `.zip` archive.
    Zip,
    /// A `.tar` archive.
    Tar,
    /// Not an archive; the download is used as it is.
    Raw,
}

/// The archive kind a URL's ending announces.
pub open spec fn archive_kind_spec(url: Seq<char>) -> ArchiveKind {
    if ".zip"@.is_suffix_of(url) {
        ArchiveKind::Zip
    } else if ".tar"@.is_suffix_of(url) {
        ArchiveKind::Tar
    } else {
        ArchiveKind::Raw
    }
}

/// Tells how the archive behind `url` is unpacked, as
/// [`archive_kind_spec`] states.
pub fn archive_kind(url: &str) -> (k: ArchiveKind)
    ensures
        k == archive_kind_spec(url@),
{
    if str_ends_with(url, ".zip") {
        ArchiveKind::Zip
    } else if str_ends_with(url, ".tar") {
        ArchiveKind::Tar
    } else {
        ArchiveKind::Raw
    }
}

} // verus!
