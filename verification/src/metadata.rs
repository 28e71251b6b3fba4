//! Extension metadata as the marketplace describes it.

use vstd::prelude::*;
use crate::text::{string_views};

verus! {

/// The view of an optional string.
pub open spec fn opt_view(o: Option<String>) -> Option<Seq<char>> {
    match o {
        Some(s) => Some(s@),
        None => None,
    }
}

/// Copies an optional string.
pub fn clone_opt_string(o: &Option<String>) -> (r: Option<String>)
    ensures
        opt_view(r) == opt_view(*o),
{
    match o {
        Some(s) => Some(s.clone()),
        None => None,
    }
}

/// Copies a vector of strings.
pub fn clone_strings(v: &Vec<String>) -> (r: Vec<String>)
    ensures
        string_views(r@) == string_views(v@),
{
    let mut r: Vec<String> = Vec::new();
    let mut i: usize = 0;
    while i < v.len()
        invariant
            i <= v.len(),
            r@.len() == i,
            forall|j: int| 0 <= j < i ==> (#[trigger] r@[j])@ == v@[j]@,
        decreases v.len() - i,
    {
        r.push(v[i].clone());
        i = i + 1;
    }
    assert(string_views(r@) =~= string_views(v@));
    r
}

/// One published version of an extension.
#[derive(Debug, Clone, PartialEq, Eq)]
pub struct ExtensionVersion {
    pub version: String,
    pub engine_version: String,
    pub download_url: String,
    pub file_size: u64,
    pub sha256: Option<String>,
    /// ISO 8601 timestamp.
    pub published_at: String,
}

/// The value of an [`ExtensionVersion`].
pub struct ExtensionVersionView {
    pub version: Seq<char>,
    pub engine_version: Seq<char>,
    pub download_url: Seq<char>,
    pub file_size: u64,
    pub sha256: Option<Seq<char>>,
    pub published_at: Seq<char>,
}

impl View for ExtensionVersion {
    type V = ExtensionVersionView;

    open spec fn view(&self) -> ExtensionVersionView {
        ExtensionVersionView {
            version: self.version@,
            engine_version: self.engine_version@,
            download_url: self.download_url@,
            file_size: self.file_size,
            sha256: opt_view(self.sha256),
            published_at: self.published_at@,
        }
    }
}

impl ExtensionVersion {
    /// A copy with the same value.
    pub fn duplicate(&self) -> (r: Self)
        ensures
            r@ == self@,
    {
        ExtensionVersion {
            version: self.version.clone(),
            engine_version: self.engine_version.clone(),
            download_url: self.download_url.clone(),
            file_size: self.file_size,
            sha256: clone_opt_string(&self.sha256),
            published_at: self.published_at.clone(),
        }
    }
}

/// A dependency of an extension on another one.
#[derive(Debug, Clone, PartialEq, Eq)]
pub struct Dependency {
    pub publisher: String,
    pub name: String,
    pub version_requirement: Option<String>,
}

/// The value of a [`Dependency`].
pub struct DependencyView {
    pub publisher: Seq<char>,
    pub name: Seq<char>,
    pub version_requirement: Option<Seq<char>>,
}

impl View for Dependency {
    type V = DependencyView;

    open spec fn view(&self) -> DependencyView {
        DependencyView {
            publisher: self.publisher@,
            name: self.name@,
            version_requirement: opt_view(self.version_requirement),
        }
    }
}

impl Dependency {
    /// A copy with the same value.
    pub fn duplicate(&self) -> (r: Self)
        ensures
            r@ == self@,
    {
        Dependency {
            publisher: self.publisher.clone(),
            name: self.name.clone(),
            version_requirement: clone_opt_string(&self.version_requirement),
        }
    }
}

/// The views of a vector of versions.
pub open spec fn version_views(v: Seq<ExtensionVersion>) -> Seq<ExtensionVersionView> {
    v.map_values(|x: ExtensionVersion| x@)
}

/// The views of a vector of dependencies.
pub open spec fn dependency_views(v: Seq<Dependency>) -> Seq<DependencyView> {
    v.map_values(|x: Dependency| x@)
}

fn clone_versions(v: &Vec<ExtensionVersion>) -> (r: Vec<ExtensionVersion>)
    ensures
        version_views(r@) == version_views(v@),
{
    let mut r: Vec<ExtensionVersion> = Vec::new();
    let mut i: usize = 0;
    while i < v.len()
        invariant
            i <= v.len(),
            r@.len() == i,
            forall|j: int| 0 <= j < i ==> (#[trigger] r@[j])@ == v@[j]@,
        decreases v.len() - i,
    {
        r.push(v[i].duplicate());
        i = i + 1;
    }
    assert(version_views(r@) =~= version_views(v@));
    r
}

fn clone_dependencies(v: &Vec<Dependency>) -> (r: Vec<Dependency>)
    ensures
        dependency_views(r@) == dependency_views(v@),
{
    let mut r: Vec<Dependency> = Vec::new();
    let mut i: usize = 0;
    while i < v.len()
        invariant
            i <= v.len(),
            r@.len() == i,
            forall|j: int| 0 <= j < i ==> (#[trigger] r@[j])@ == v@[j]@,
        decreases v.len() - i,
    {
        r.push(v[i].duplicate());
        i = i + 1;
    }
    assert(dependency_views(r@) =~= dependency_views(v@));
    r
}

/// What the marketplace reports about an extension.
///
/// The average rating is held as the bit pattern of the `f32` that the
/// marketplace sends (`f32::to_bits`), and the time at which the record was
/// cached as nanoseconds since the Unix epoch.
#[derive(Debug, Clone, PartialEq, Eq)]
pub struct ExtensionMetadata {
    pub publisher: String,
    pub name: String,
    pub display_name: String,
    pub description: String,
    pub versions: Vec<ExtensionVersion>,
    pub latest_version: Option<String>,
    pub downloads: u64,
    pub rating_bits: u32,
    pub rating_count: u64,
    pub tags: Vec<String>,
    pub categories: Vec<String>,
    pub repository: Option<String>,
    pub license: Option<String>,
    pub dependencies: Vec<Dependency>,
    pub cached_at: u128,
}

/// The value of an [`ExtensionMetadata`].
pub struct ExtensionMetadataView {
    pub publisher: Seq<char>,
    pub name: Seq<char>,
    pub display_name: Seq<char>,
    pub description: Seq<char>,
    pub versions: Seq<ExtensionVersionView>,
    pub latest_version: Option<Seq<char>>,
    pub downloads: u64,
    pub rating_bits: u32,
    pub rating_count: u64,
    pub tags: Seq<Seq<char>>,
    pub categories: Seq<Seq<char>>,
    pub repository: Option<Seq<char>>,
    pub license: Option<Seq<char>>,
    pub dependencies: Seq<DependencyView>,
    pub cached_at: u128,
}

impl ExtensionMetadataView {
    /// The same record with its cache time set to `at`.
    pub open spec fn stamped(self, at: u128) -> ExtensionMetadataView {
        ExtensionMetadataView { cached_at: at, ..self }
    }
}

impl View for ExtensionMetadata {
    type V = ExtensionMetadataView;

    open spec fn view(&self) -> ExtensionMetadataView {
        ExtensionMetadataView {
            publisher: self.publisher@,
            name: self.name@,
            display_name: self.display_name@,
            description: self.description@,
            versions: version_views(self.versions@),
            latest_version: opt_view(self.latest_version),
            downloads: self.downloads,
            rating_bits: self.rating_bits,
            rating_count: self.rating_count,
            tags: string_views(self.tags@),
            categories: string_views(self.categories@),
            repository: opt_view(self.repository),
            license: opt_view(self.license),
            dependencies: dependency_views(self.dependencies@),
            cached_at: self.cached_at,
        }
    }
}

/// The download URL of the first version in `versions` whose version string is `version`.
pub open spec fn download_url_for(versions: Seq<ExtensionVersionView>, version: Seq<char>) -> Option<
    Seq<char>,
>
    decreases versions.len(),
{
    if versions.len() == 0 {
        None
    } else if versions[0].version == version {
        Some(versions[0].download_url)
    } else {
        download_url_for(versions.drop_first(), version)
    }
}

impl ExtensionMetadata {
    /// A copy with the same value.
    pub fn duplicate(&self) -> (r: Self)
        ensures
            r@ == self@,
    {
        ExtensionMetadata {
            publisher: self.publisher.clone(),
            name: self.name.clone(),
            display_name: self.display_name.clone(),
            description: self.description.clone(),
            versions: clone_versions(&self.versions),
            latest_version: clone_opt_string(&self.latest_version),
            downloads: self.downloads,
            rating_bits: self.rating_bits,
            rating_count: self.rating_count,
            tags: clone_strings(&self.tags),
            categories: clone_strings(&self.categories),
            repository: clone_opt_string(&self.repository),
            license: clone_opt_string(&self.license),
            dependencies: clone_dependencies(&self.dependencies),
            cached_at: self.cached_at,
        }
    }

    /// Get download URL for a specific version: that of the first listed
    /// version whose version string is `version`, or `None` where none is.
    pub fn download_url_for_version(&self, version: &str) -> (r: Option<String>)
        ensures
            opt_view(r) == download_url_for(self@.versions, version@),
    {
        let target = String::from_str(version);
        let ghost vs = self@.versions;
        let n = self.versions.len();
        let mut i: usize = 0;
        assert(vs.subrange(0, n as int) =~= vs);
        while i < n
            invariant
                n == self.versions@.len(),
                vs == self@.versions,
                i <= n,
                target@ == version@,
                download_url_for(vs, version@) == download_url_for(vs.subrange(i as int, n as int), version@),
            decreases n - i,
        {
            let v = &self.versions[i];
            assert(vs[i as int] == v@);
            if v.version == target {
                return Some(v.download_url.clone());
            }
            assert(vs.subrange(i as int, n as int).drop_first() =~= vs.subrange(i + 1, n as int));
            i = i + 1;
        }
        None
    }
}

/// A listed version is always found, with the download URL of its first
/// listing: if `versions[i]` is the first entry whose version string is
/// `version`, the answer is that entry's URL.
pub proof fn law_first_listed_version_is_found(
    versions: Seq<ExtensionVersionView>,
    version: Seq<char>,
    i: int,
)
    requires
        0 <= i < versions.len(),
        versions[i].version == version,
        forall|j: int| 0 <= j < i ==> versions[j].version != version,
    ensures
        download_url_for(versions, version) == Some(versions[i].download_url),
    decreases i,
{
    if i > 0 {
        let rest = versions.drop_first();
        assert(versions[0].version != version);
        assert forall|j: int| 0 <= j < i - 1 implies rest[j].version != version by {
            assert(rest[j] == versions[j + 1]);
        }
        law_first_listed_version_is_found(rest, version, i - 1);
    }
}

/// A version that no entry lists has no download URL.
pub proof fn law_unlisted_version_has_no_url(versions: Seq<ExtensionVersionView>, version: Seq<char>)
    requires
        forall|j: int| 0 <= j < versions.len() ==> versions[j].version != version,
    ensures
        download_url_for(versions, version) is None,
    decreases versions.len(),
{
    if versions.len() > 0 {
        let rest = versions.drop_first();
        assert forall|j: int| 0 <= j < rest.len() implies rest[j].version != version by {
            assert(rest[j] == versions[j + 1]);
        }
        law_unlisted_version_has_no_url(rest, version);
    }
}

/// The download URL found for a version is always the URL of an entry
/// listing that version.
pub proof fn law_found_url_is_listed(versions: Seq<ExtensionVersionView>, version: Seq<char>)
    ensures
        download_url_for(versions, version) matches Some(u) ==> exists|i: int|
            0 <= i < versions.len() && versions[i].version == version && versions[i].download_url
                == u,
    decreases versions.len(),
{
    if versions.len() > 0 && versions[0].version != version {
        let rest = versions.drop_first();
        law_found_url_is_listed(rest, version);
        if download_url_for(rest, version) is Some {
            let i = choose|i: int|
                0 <= i < rest.len() && rest[i].version == version && rest[i].download_url
                    == download_url_for(rest, version)->0;
            assert(versions[i + 1] == rest[i]);
        }
    }
}

/// Stamping a record with a cache time changes its cache time and nothing else.
pub proof fn law_stamp_changes_only_cache_time(m: ExtensionMetadataView, t: u128)
    ensures
        m.stamped(t).cached_at == t,
        m.stamped(t).publisher == m.publisher,
        m.stamped(t).name == m.name,
        m.stamped(t).display_name == m.display_name,
        m.stamped(t).description == m.description,
        m.stamped(t).versions == m.versions,
        m.stamped(t).latest_version == m.latest_version,
        m.stamped(t).downloads == m.downloads,
        m.stamped(t).rating_bits == m.rating_bits,
        m.stamped(t).rating_count == m.rating_count,
        m.stamped(t).tags == m.tags,
        m.stamped(t).categories == m.categories,
        m.stamped(t).repository == m.repository,
        m.stamped(t).license == m.license,
        m.stamped(t).dependencies == m.dependencies,
        m.stamped(m.cached_at) == m,
{
}

} // verus!
