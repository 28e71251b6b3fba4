//! The marketplace client: where requests go, what the metadata cache
//! answers, and which package an install fetches.

use vstd::prelude::*;
use vstd::string::*;
use crate::cache::MetadataCache;
use crate::metadata::{ExtensionMetadata, ExtensionMetadataView, download_url_for, opt_view};
use crate::text::{decimal, decimal_string, trim_trailing_slashes, trim_trailing_slashes_spec};

verus! {

/// How long cached metadata stays fresh: five minutes, in nanoseconds.
pub open spec fn default_cache_ttl() -> u128 {
    300_000_000_000
}

/// The time elapsed from `at` to `now`, zero where `now` is earlier.
pub open spec fn elapsed(at: u128, now: u128) -> u128 {
    if now >= at {
        (now - at) as u128
    } else {
        0
    }
}

/// What the cache answers for `key` at time `now`: the stored record while
/// it is younger than five minutes, nothing otherwise.
pub open spec fn fresh_entry(
    cache: Map<Seq<char>, ExtensionMetadataView>,
    key: Seq<char>,
    now: u128,
) -> Option<ExtensionMetadataView> {
    if cache.contains_key(key) && elapsed(cache[key].cached_at, now) < default_cache_ttl() {
        Some(cache[key])
    } else {
        None
    }
}

/// The cache key of an extension: `publisher.name`.
pub open spec fn metadata_key(publisher: Seq<char>, name: Seq<char>) -> Seq<char> {
    publisher + seq!['.'] + name
}

/// The key under which a downloaded package is cached: `publisher-name-version`.
pub open spec fn package_key(publisher: Seq<char>, name: Seq<char>, version: Seq<char>) -> Seq<
    char,
> {
    publisher + seq!['-'] + name + seq!['-'] + version
}

/// The views of query parameters.
pub open spec fn params_view(p: Seq<(String, String)>) -> Seq<(Seq<char>, Seq<char>)> {
    p.map_values(|x: (String, String)| (x.0@, x.1@))
}

/// An HTTP GET request to the marketplace API.
#[derive(Debug, Clone, PartialEq, Eq)]
pub struct ApiRequest {
    pub url: String,
    pub query: Vec<(String, String)>,
    /// The bearer token sent with the request (empty without an API key).
    pub bearer: String,
}

/// The value of an [`ApiRequest`].
pub struct ApiRequestView {
    pub url: Seq<char>,
    pub query: Seq<(Seq<char>, Seq<char>)>,
    pub bearer: Seq<char>,
}

impl View for ApiRequest {
    type V = ApiRequestView;

    open spec fn view(&self) -> ApiRequestView {
        ApiRequestView { url: self.url@, query: params_view(self.query@), bearer: self.bearer@ }
    }
}

/// Client state for the SideX marketplace: where the API lives, the API
/// key, and the in-memory metadata cache (fresh for five minutes).
#[derive(Debug)]
pub struct MarketplaceClient {
    /// Base URL for the marketplace API, without a trailing `/`.
    pub base_url: String,
    /// Optional API key for authenticated endpoints.
    pub api_key: Option<String>,
    /// In-memory cache for extension metadata, keyed by `publisher.name`.
    pub cache: MetadataCache,
}

impl MarketplaceClient {
    /// The token sent as bearer authentication: the API key, or nothing.
    pub open spec fn bearer_spec(&self) -> Seq<char> {
        match opt_view(self.api_key) {
            Some(k) => k,
            None => Seq::empty(),
        }
    }

    /// A client of the Open VSX registry, without an API key and with an empty cache.
    pub fn new() -> (r: Self)
        ensures
            r.base_url@ == "https://open-vsx.org/api"@,
            opt_view(r.api_key) is None,
            r.cache@ == Map::<Seq<char>, ExtensionMetadataView>::empty(),
    {
        MarketplaceClient {
            base_url: String::from_str("https://open-vsx.org/api"),
            api_key: None,
            cache: MetadataCache::new(),
        }
    }

    /// A client of the marketplace at `base_url` (trailing slashes removed).
    pub fn with_base_url(base_url: &str, api_key: Option<String>) -> (r: Self)
        ensures
            r.base_url@ == trim_trailing_slashes_spec(base_url@),
            opt_view(r.api_key) == opt_view(api_key),
            r.cache@ == Map::<Seq<char>, ExtensionMetadataView>::empty(),
    {
        MarketplaceClient {
            base_url: trim_trailing_slashes(base_url),
            api_key,
            cache: MetadataCache::new(),
        }
    }

    fn bearer(&self) -> (r: String)
        ensures
            r@ == self.bearer_spec(),
    {
        match &self.api_key {
            Some(k) => k.clone(),
            None => String::new(),
        }
    }

    fn endpoint(&self, path: &str) -> (r: String)
        ensures
            r@ == self.base_url@ + path@,
    {
        let mut r = self.base_url.clone();
        r.append(path);
        r
    }

    /// The request that searches extensions by keyword.
    pub fn search_request(&self, query: &str, limit: usize) -> (r: ApiRequest)
        ensures
            r@.url == self.base_url@ + "/v1/extensions/search"@,
            r@.query == seq![("q"@, query@), ("limit"@, decimal(limit as nat))],
            r@.bearer == self.bearer_spec(),
    {
        let mut params: Vec<(String, String)> = Vec::new();
        params.push((String::from_str("q"), String::from_str(query)));
        params.push((String::from_str("limit"), decimal_string(limit as u64)));
        let r = ApiRequest {
            url: self.endpoint("/v1/extensions/search"),
            query: params,
            bearer: self.bearer(),
        };
        assert(r@.query =~= seq![("q"@, query@), ("limit"@, decimal(limit as nat))]);
        r
    }

    /// The request for the featured extensions.
    pub fn featured_request(&self, limit: usize) -> (r: ApiRequest)
        ensures
            r@.url == self.base_url@ + "/v1/extensions/featured"@,
            r@.query == seq![("limit"@, decimal(limit as nat))],
            r@.bearer == self.bearer_spec(),
    {
        let mut params: Vec<(String, String)> = Vec::new();
        params.push((String::from_str("limit"), decimal_string(limit as u64)));
        let r = ApiRequest {
            url: self.endpoint("/v1/extensions/featured"),
            query: params,
            bearer: self.bearer(),
        };
        assert(r@.query =~= seq![("limit"@, decimal(limit as nat))]);
        r
    }

    /// The request for the trending extensions.
    pub fn trending_request(&self, limit: usize) -> (r: ApiRequest)
        ensures
            r@.url == self.base_url@ + "/v1/extensions/trending"@,
            r@.query == seq![("limit"@, decimal(limit as nat))],
            r@.bearer == self.bearer_spec(),
    {
        let mut params: Vec<(String, String)> = Vec::new();
        params.push((String::from_str("limit"), decimal_string(limit as u64)));
        let r = ApiRequest {
            url: self.endpoint("/v1/extensions/trending"),
            query: params,
            bearer: self.bearer(),
        };
        assert(r@.query =~= seq![("limit"@, decimal(limit as nat))]);
        r
    }

    /// The request for the metadata of `publisher.name`.
    pub fn metadata_request(&self, publisher: &str, name: &str) -> (r: ApiRequest)
        ensures
            r@.url == self.base_url@ + "/v1/extensions/"@ + publisher@ + "/"@ + name@,
            r@.query == Seq::<(Seq<char>, Seq<char>)>::empty(),
            r@.bearer == self.bearer_spec(),
    {
        let mut url = self.endpoint("/v1/extensions/");
        url.append(publisher);
        url.append("/");
        url.append(name);
        let r = ApiRequest { url, query: Vec::new(), bearer: self.bearer() };
        assert(r@.query =~= Seq::<(Seq<char>, Seq<char>)>::empty());
        r
    }
}

/// The cache key of an extension: `publisher.name`.
pub fn metadata_cache_key(publisher: &str, name: &str) -> (r: String)
    ensures
        r@ == metadata_key(publisher@, name@),
{
    let mut r = String::from_str(publisher);
    r.append(".");
    r.append(name);
    proof { reveal_strlit("."); }
    r
}

impl MarketplaceClient {
    /// The cached metadata of `publisher.name`, if it was stored less than
    /// five minutes before `now` (nanoseconds since the Unix
    /// epoch; a store time later than `now` counts as no time elapsed).
    pub fn cached_metadata(&self, publisher: &str, name: &str, now: u128) -> (r: Option<
        ExtensionMetadata,
    >)
        ensures
            r matches Some(m) ==> fresh_entry(self.cache@, metadata_key(publisher@, name@), now) == Some(m@),
            r is None ==> fresh_entry(self.cache@, metadata_key(publisher@, name@), now) is None,
    {
        let key = metadata_cache_key(publisher, name);
        match self.cache.get(key.as_str()) {
            Some(entry) => {
                let age: u128 = if now >= entry.cached_at {
                    now - entry.cached_at
                } else {
                    0
                };
                if age < 300_000_000_000 {
                    Some(entry.duplicate())
                } else {
                    None
                }
            },
            None => None,
        }
    }

    /// Stores freshly fetched metadata of `publisher.name`, stamped with the
    /// time `now` at which it was fetched.
    pub fn store_metadata(&mut self, publisher: &str, name: &str, metadata: ExtensionMetadata, now: u128)
        ensures
            final(self).cache@ == old(self).cache@.insert(metadata_key(publisher@, name@), metadata@.stamped(now)),
            final(self).base_url == old(self).base_url,
            final(self).api_key == old(self).api_key,
    {
        let key = metadata_cache_key(publisher, name);
        let mut stamped = metadata;
        stamped.cached_at = now;
        assert(stamped@ == metadata@.stamped(now));
        self.cache.insert(key, stamped);
    }

    /// Drops the cached metadata of `publisher.name`, so that the next
    /// lookup fetches it again.
    pub fn invalidate_metadata(&mut self, publisher: &str, name: &str)
        ensures
            final(self).cache@ == old(self).cache@.remove(metadata_key(publisher@, name@)),
            final(self).base_url == old(self).base_url,
            final(self).api_key == old(self).api_key,
    {
        let key = metadata_cache_key(publisher, name);
        self.cache.remove(key.as_str());
    }

    /// Clear the in-memory metadata cache.
    pub fn clear_cache(&mut self)
        ensures
            final(self).cache@ == Map::<Seq<char>, ExtensionMetadataView>::empty(),
            final(self).base_url == old(self).base_url,
            final(self).api_key == old(self).api_key,
    {
        self.cache.clear();
    }
}

/// Why an install cannot go ahead.
#[derive(Debug, Clone, PartialEq, Eq)]
pub enum InstallError {
    /// No version was asked for and the marketplace names no latest one.
    NoVersionAvailable { publisher: String, name: String },
    /// The marketplace lists no download for the chosen version.
    NoDownloadUrl { publisher: String, name: String, version: String },
}

/// The message of an [`InstallError`].
pub open spec fn install_error_message(e: InstallError) -> Seq<char> {
    match e {
        InstallError::NoVersionAvailable { publisher, name } => "no version available for "@
            + publisher@ + "."@ + name@,
        InstallError::NoDownloadUrl { publisher, name, version } => "no download URL for "@
            + publisher@ + "."@ + name@ + "@"@ + version@,
    }
}

impl InstallError {
    /// The message this error reports.
    pub fn message(&self) -> (r: String)
        ensures
            r@ == install_error_message(*self),
    {
        match self {
            InstallError::NoVersionAvailable { publisher, name } => {
                let mut r = String::from_str("no version available for ");
                r.append(publisher.as_str());
                r.append(".");
                r.append(name.as_str());
                r
            },
            InstallError::NoDownloadUrl { publisher, name, version } => {
                let mut r = String::from_str("no download URL for ");
                r.append(publisher.as_str());
                r.append(".");
                r.append(name.as_str());
                r.append("@");
                r.append(version.as_str());
                r
            },
        }
    }
}

/// What an install of a marketplace extension fetches.
#[derive(Debug, Clone, PartialEq, Eq)]
pub struct InstallPlan {
    /// The version that is installed.
    pub version: String,
    /// Where its package is downloaded from.
    pub download_url: String,
    /// The key of the package in the extension cache: `publisher-name-version`.
    pub cache_key: String,
}

/// The view of an optional string slice.
pub open spec fn opt_str_view(o: Option<&str>) -> Option<Seq<char>> {
    match o {
        Some(s) => Some(s@),
        None => None,
    }
}

/// The version an install picks: the one asked for, else the latest one.
pub open spec fn chosen_version(metadata: ExtensionMetadataView, version: Option<Seq<char>>) -> Option<
    Seq<char>,
> {
    match version {
        Some(v) => Some(v),
        None => metadata.latest_version,
    }
}

/// Resolves which version of `publisher.name` an install fetches and from
/// where: the version asked for, else the latest one, and the download URL
/// that the metadata lists for it.
pub fn plan_install(metadata: &ExtensionMetadata, publisher: &str, name: &str, version: Option<&str>) -> (r:
    Result<InstallPlan, InstallError>)
    ensures
        chosen_version(metadata@, opt_str_view(version)) is None ==> (r matches Err(
            InstallError::NoVersionAvailable { publisher: p, name: n },
        ) && p@ == publisher@ && n@ == name@),
        chosen_version(metadata@, opt_str_view(version)) matches Some(v) ==> {
            match download_url_for(metadata@.versions, v) {
                None => (r matches Err(InstallError::NoDownloadUrl { publisher: p, name: n, version: w })
                    && p@ == publisher@ && n@ == name@ && w@ == v),
                Some(u) => (r matches Ok(plan) && plan.version@ == v && plan.download_url@ == u
                    && plan.cache_key@ == package_key(publisher@, name@, v)),
            }
        },
{
    let version_str = match version {
        Some(v) => String::from_str(v),
        None => match &metadata.latest_version {
            Some(v) => v.clone(),
            None => {
                return Err(
                    InstallError::NoVersionAvailable {
                        publisher: String::from_str(publisher),
                        name: String::from_str(name),
                    },
                );
            },
        },
    };
    match metadata.download_url_for_version(version_str.as_str()) {
        Some(url) => {
            let mut key = String::from_str(publisher);
            key.append("-");
            key.append(name);
            key.append("-");
            key.append(version_str.as_str());
            proof { reveal_strlit("-"); }
            Ok(InstallPlan { version: version_str, download_url: url, cache_key: key })
        },
        None => Err(
            InstallError::NoDownloadUrl {
                publisher: String::from_str(publisher),
                name: String::from_str(name),
                version: version_str,
            },
        ),
    }
}

/// Metadata stored at time `t` is what a lookup of the same extension
/// answers, without a new fetch, at any time `now` less than five minutes
/// later: the stored record, stamped with `t`.
pub proof fn law_lookup_after_store(
    cache: Map<Seq<char>, ExtensionMetadataView>,
    publisher: Seq<char>,
    name: Seq<char>,
    metadata: ExtensionMetadataView,
    t: u128,
    now: u128,
)
    requires
        elapsed(t, now) < default_cache_ttl(),
    ensures
        fresh_entry(
            cache.insert(metadata_key(publisher, name), metadata.stamped(t)),
            metadata_key(publisher, name),
            now,
        ) == Some(metadata.stamped(t)),
{
}

/// Once five minutes have passed, stored metadata is no longer answered.
pub proof fn law_stale_entry_is_refetched(
    cache: Map<Seq<char>, ExtensionMetadataView>,
    key: Seq<char>,
    metadata: ExtensionMetadataView,
    t: u128,
    now: u128,
)
    requires
        elapsed(t, now) >= default_cache_ttl(),
    ensures
        fresh_entry(cache.insert(key, metadata.stamped(t)), key, now) is None,
{
}

/// Storing the metadata of one extension leaves what the cache answers for
/// every other key unchanged.
pub proof fn law_store_keeps_other_keys(
    cache: Map<Seq<char>, ExtensionMetadataView>,
    key: Seq<char>,
    value: ExtensionMetadataView,
    other: Seq<char>,
    now: u128,
)
    requires
        other != key,
    ensures
        fresh_entry(cache.insert(key, value), other, now) == fresh_entry(cache, other, now),
{
}

/// After its metadata is invalidated, a lookup of an extension answers nothing
/// (so refreshing fetches it again), and other keys answer as before.
pub proof fn law_lookup_after_invalidate(
    cache: Map<Seq<char>, ExtensionMetadataView>,
    key: Seq<char>,
    other: Seq<char>,
    now: u128,
)
    ensures
        fresh_entry(cache.remove(key), key, now) is None,
        other != key ==> fresh_entry(cache.remove(key), other, now) == fresh_entry(cache, other, now),
{
}

/// A cleared cache answers nothing.
pub proof fn law_lookup_after_clear(key: Seq<char>, now: u128)
    ensures
        fresh_entry(Map::<Seq<char>, ExtensionMetadataView>::empty(), key, now) is None,
{
}

/// The age of a cache entry is the real time elapsed since it was stored
/// (zero for a clock behind the store time), and an entry is answered
/// exactly while it is younger than five minutes, unchanged.
pub proof fn law_fresh_for_exactly_five_minutes(
    cache: Map<Seq<char>, ExtensionMetadataView>,
    key: Seq<char>,
    now: u128,
)
    ensures
        default_cache_ttl() == 300_000_000_000,
        !cache.contains_key(key) ==> fresh_entry(cache, key, now) is None,
        cache.contains_key(key) && now >= cache[key].cached_at ==> elapsed(cache[key].cached_at, now)
            == now - cache[key].cached_at,
        cache.contains_key(key) && now >= cache[key].cached_at ==> (fresh_entry(cache, key, now) is Some
            <==> now - cache[key].cached_at < 300_000_000_000),
        cache.contains_key(key) && now < cache[key].cached_at ==> fresh_entry(cache, key, now) is Some,
        fresh_entry(cache, key, now) matches Some(m) ==> m == cache[key],
{
}

/// An install asked for version `v` plans exactly `v`: it never falls back
/// to another version, and where `v` has no listed download the error names
/// `v`. Without a requested version it plans the latest one.
pub proof fn law_requested_version_is_planned(metadata: ExtensionMetadataView, v: Seq<char>)
    ensures
        chosen_version(metadata, Some(v)) == Some(v),
        chosen_version(metadata, None) == metadata.latest_version,
{
}

/// The cache key of an extension is its publisher, a `.`, and its name.
pub proof fn law_metadata_key_layout(publisher: Seq<char>, name: Seq<char>)
    ensures
        metadata_key(publisher, name).len() == publisher.len() + 1 + name.len(),
        metadata_key(publisher, name).subrange(0, publisher.len() as int) == publisher,
        metadata_key(publisher, name)[publisher.len() as int] == '.',
        metadata_key(publisher, name).subrange(
            publisher.len() + 1int,
            metadata_key(publisher, name).len() as int,
        ) == name,
{
    let k = metadata_key(publisher, name);
    assert(k.subrange(0, publisher.len() as int) =~= publisher);
    assert(k.subrange(publisher.len() + 1int, k.len() as int) =~= name);
}

/// The package key is the publisher, `-`, the name, `-`, and the version.
pub proof fn law_package_key_layout(publisher: Seq<char>, name: Seq<char>, version: Seq<char>)
    ensures
        ({
            let k = package_key(publisher, name, version);
            let a = publisher.len() as int;
            let b = a + 1 + name.len();
            &&& k.len() == b + 1 + version.len()
            &&& k.subrange(0, a) == publisher
            &&& k[a] == '-'
            &&& k.subrange(a + 1, b) == name
            &&& k[b] == '-'
            &&& k.subrange(b + 1, k.len() as int) == version
        }),
{
    let k = package_key(publisher, name, version);
    let a = publisher.len() as int;
    let b = a + 1 + name.len();
    assert(k.subrange(0, a) =~= publisher);
    assert(k.subrange(a + 1, b) =~= name);
    assert(k.subrange(b + 1, k.len() as int) =~= version);
}

/// An install error names the extension as `publisher.name`, and a missing
/// download also names the version after `@`.
pub proof fn law_install_error_messages(publisher: String, name: String, version: String)
    ensures
        install_error_message(InstallError::NoVersionAvailable { publisher, name })
            == "no version available for "@ + publisher@ + "."@ + name@,
        install_error_message(InstallError::NoDownloadUrl { publisher, name, version })
            == "no download URL for "@ + publisher@ + "."@ + name@ + "@"@ + version@,
{
}

} // verus!
