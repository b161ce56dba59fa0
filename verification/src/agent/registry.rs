//! Image references, registry digest lookups and the digest cache.

use vstd::prelude::*;
use crate::ids::{nanos_between, now_instant, Instant};
use crate::table::KeyedTable;
use crate::json::{
    element_in, get, get_in, parse_json, spec_element_in, spec_get, spec_get_in, spec_parse_json,
    JsonValue,
};
use crate::text::{
    contains_char, decimal, find_char, find_str, find_sub, opt_string_view, opt_view, owned, rfind_char,
    spec_decimal, substring,
};

verus! {

broadcast use vstd::string::group_string_axioms;

// ---------------------------------------------------------------- image references

/// `image` without the `@digest` suffix that it may carry.
pub open spec fn strip_digest(image: Seq<char>) -> Seq<char> {
    match image.index_of_first('@') {
        Some(i) => image.take(i),
        None => image,
    }
}

/// `image` (without digest) split into the reference without its tag and the
/// tag. The last `:` separates the tag unless it belongs to a registry host:
/// that is, unless the text after it holds a `/` (as in `localhost:5000/img`),
/// or the text before it holds another `:` and no `/`. With no tag, the tag
/// is `latest`.
pub open spec fn split_tag(img: Seq<char>) -> (Seq<char>, Seq<char>) {
    match img.index_of_last(':') {
        Some(i) => if !img.skip(i + 1).contains('/') && (img.take(i).contains('/') || !img.take(
            i,
        ).contains(':')) {
            (img.take(i), img.skip(i + 1))
        } else {
            (img, "latest"@)
        },
        None => (img, "latest"@),
    }
}

/// Whether the first path segment of a reference names a registry host: it
/// holds a `.` or a `:` or is `localhost`.
pub open spec fn is_registry_host(segment: Seq<char>) -> bool {
    segment.contains('.') || segment.contains(':') || segment == "localhost"@
}

/// The registry and repository of a reference without tag. A first segment
/// that names a host is the registry; otherwise the registry is Docker Hub,
/// and a reference of one segment is an official image under `library/`.
pub open spec fn split_registry(no_tag: Seq<char>) -> (Seq<char>, Seq<char>) {
    match no_tag.index_of_first('/') {
        Some(i) => if is_registry_host(no_tag.take(i)) {
            (no_tag.take(i), no_tag.skip(i + 1))
        } else {
            ("docker.io"@, no_tag)
        },
        None => ("docker.io"@, "library/"@ + no_tag),
    }
}

/// The `(registry, repository, tag)` that an image reference names.
pub open spec fn spec_parse_image(image: Seq<char>) -> (Seq<char>, Seq<char>, Seq<char>) {
    let (no_tag, tag) = split_tag(strip_digest(image));
    let (registry, repo) = split_registry(no_tag);
    (registry, repo, tag)
}

/// Splits an image reference such as `ghcr.io/owner/app:1.2@sha256:...` into
/// registry, repository and tag.
pub fn parse_image(image: &str) -> (r: (String, String, String))
    ensures
        (r.0@, r.1@, r.2@) == spec_parse_image(image@),
{
    // Remove digest if present
    let img = match find_char(image, '@') {
        Some(i) => {
            assert(image@.subrange(0, i as int) =~= image@.take(i as int));
            substring(image, 0, i)
        },
        None => owned(image),
    };
    assert(img@ == strip_digest(image@));
    let n = img.as_str().unicode_len();

    // Extract tag
    let (no_tag, tag) = match rfind_char(img.as_str(), ':') {
        Some(i) => {
            assert(img@.subrange(0, i as int) =~= img@.take(i as int));
            assert(img@.subrange(i + 1, n as int) =~= img@.skip(i + 1));
            let before = substring(img.as_str(), 0, i);
            let after = substring(img.as_str(), i + 1, n);
            // A colon followed by a path is a registry port, as in
            // `localhost:5000/img`, not a tag separator.
            if !contains_char(after.as_str(), '/') && (contains_char(before.as_str(), '/')
                || !contains_char(before.as_str(), ':')) {
                (before, after)
            } else {
                (img.clone(), owned("latest"))
            }
        },
        None => (img.clone(), owned("latest")),
    };
    assert((no_tag@, tag@) == split_tag(strip_digest(image@)));
    let m = no_tag.as_str().unicode_len();

    // Registry host: a first segment with a dot or colon, or `localhost`
    let (registry, repo) = match find_char(no_tag.as_str(), '/') {
        Some(i) => {
            assert(no_tag@.subrange(0, i as int) =~= no_tag@.take(i as int));
            assert(no_tag@.subrange(i + 1, m as int) =~= no_tag@.skip(i + 1));
            let host = substring(no_tag.as_str(), 0, i);
            let localhost = owned("localhost");
            if contains_char(host.as_str(), '.') || contains_char(host.as_str(), ':') || host
                == localhost {
                (host, substring(no_tag.as_str(), i + 1, m))
            } else {
                (owned("docker.io"), no_tag)
            }
        },
        None => {
            let mut repo = owned("library/");
            repo.append(no_tag.as_str());
            (owned("docker.io"), repo)
        },
    };
    (registry, repo, tag)
}

// ---------------------------------------------------------------- laws of image references

/// In `a + [c] + b`, where `a` holds no `c`, the first `c` is the one after `a`.
proof fn lemma_first_after(a: Seq<char>, c: char, b: Seq<char>)
    requires
        !a.contains(c),
    ensures
        (a + seq![c] + b).index_of_first(c) == Some(a.len() as int),
        (a + seq![c] + b).take(a.len() as int) == a,
        (a + seq![c] + b).skip(a.len() as int + 1) == b,
{
    let s = a + seq![c] + b;
    assert(s[a.len() as int] == c);
    assert forall|j: int| 0 <= j < a.len() implies s[j] != c by {
        assert(s[j] == a[j]);
    }
    crate::text::lemma_first_index(s, c, a.len() as int);
    assert(s.take(a.len() as int) =~= a);
    assert(s.skip(a.len() as int + 1) =~= b);
}

/// In `a + [c] + b`, where `b` holds no `c`, the last `c` is the one before `b`.
proof fn lemma_last_before(a: Seq<char>, c: char, b: Seq<char>)
    requires
        !b.contains(c),
    ensures
        (a + seq![c] + b).index_of_last(c) == Some(a.len() as int),
        (a + seq![c] + b).take(a.len() as int) == a,
        (a + seq![c] + b).skip(a.len() as int + 1) == b,
{
    let s = a + seq![c] + b;
    assert(s[a.len() as int] == c);
    assert forall|j: int| a.len() < j < s.len() implies s[j] != c by {
        assert(s[j] == b[j - a.len() - 1]);
    }
    crate::text::lemma_last_index(s, c, a.len() as int);
    assert(s.take(a.len() as int) =~= a);
    assert(s.skip(a.len() as int + 1) =~= b);
}

/// A character absent from both parts is absent from their concatenation.
proof fn lemma_absent_concat(a: Seq<char>, b: Seq<char>, c: char)
    requires
        !a.contains(c),
        !b.contains(c),
    ensures
        !(a + b).contains(c),
{
    assert forall|j: int| 0 <= j < (a + b).len() implies (a + b)[j] != c by {
        if j < a.len() {
            assert((a + b)[j] == a[j]);
        } else {
            assert((a + b)[j] == b[j - a.len()]);
        }
    }
}

/// A digest pinned after `@` does not change what a reference names.
pub proof fn law_digest_is_ignored(reference: Seq<char>, digest: Seq<char>)
    requires
        !reference.contains('@'),
    ensures
        spec_parse_image(reference + seq!['@'] + digest) == spec_parse_image(reference),
{
    lemma_first_after(reference, '@', digest);
    reference.index_of_first_ensures('@');
}

/// A bare name such as `nginx` is the official Docker Hub image
/// `docker.io/library/nginx` at tag `latest`.
pub proof fn law_official_image(name: Seq<char>)
    requires
        !name.contains('/'),
        !name.contains(':'),
        !name.contains('@'),
    ensures
        spec_parse_image(name) == ("docker.io"@, "library/"@ + name, "latest"@),
{
    crate::text::lemma_no_index(name, '@');
    crate::text::lemma_no_index(name, ':');
    crate::text::lemma_no_index(name, '/');
}

/// `name:tag` with a bare name is the official Docker Hub image at that tag.
pub proof fn law_official_image_with_tag(name: Seq<char>, tag: Seq<char>)
    requires
        !name.contains('/'),
        !name.contains(':'),
        !name.contains('@'),
        !tag.contains(':'),
        !tag.contains('/'),
        !tag.contains('@'),
    ensures
        spec_parse_image(name + seq![':'] + tag) == ("docker.io"@, "library/"@ + name, tag),
{
    let s = name + seq![':'] + tag;
    lemma_absent_concat(name, seq![':'], '@');
    lemma_absent_concat(name + seq![':'], tag, '@');
    crate::text::lemma_no_index(s, '@');
    lemma_last_before(name, ':', tag);
    crate::text::lemma_no_index(name, '/');
}

/// `user/repo:tag`, whose first segment names no host, is a Docker Hub
/// repository at that tag.
pub proof fn law_hub_user_repository(user: Seq<char>, repo: Seq<char>, tag: Seq<char>)
    requires
        !is_registry_host(user),
        !user.contains('/'),
        !user.contains('@'),
        !repo.contains(':'),
        !repo.contains('@'),
        !tag.contains(':'),
        !tag.contains('/'),
        !tag.contains('@'),
    ensures
        spec_parse_image(user + seq!['/'] + repo + seq![':'] + tag) == (
            "docker.io"@,
            user + seq!['/'] + repo,
            tag,
        ),
{
    let path = user + seq!['/'] + repo;
    let s = path + seq![':'] + tag;
    assert(!user.contains(':'));
    lemma_absent_concat(user, seq!['/'], '@');
    lemma_absent_concat(user + seq!['/'], repo, '@');
    lemma_absent_concat(path, seq![':'], '@');
    lemma_absent_concat(path + seq![':'], tag, '@');
    crate::text::lemma_no_index(s, '@');
    lemma_last_before(path, ':', tag);
    assert(path[user.len() as int] == '/');
    lemma_first_after(user, '/', repo);
}

/// `host/path:tag`, whose first segment names a registry host (it holds a
/// `.` or a `:`, or is `localhost`), names the registry `host`, the
/// repository `path` and the tag.
pub proof fn law_registry_reference(host: Seq<char>, path: Seq<char>, tag: Seq<char>)
    requires
        is_registry_host(host),
        !host.contains('/'),
        !host.contains('@'),
        !path.contains(':'),
        !path.contains('@'),
        !tag.contains(':'),
        !tag.contains('/'),
        !tag.contains('@'),
    ensures
        spec_parse_image(host + seq!['/'] + path + seq![':'] + tag) == (host, path, tag),
{
    let full = host + seq!['/'] + path;
    let s = full + seq![':'] + tag;
    lemma_absent_concat(host, seq!['/'], '@');
    lemma_absent_concat(host + seq!['/'], path, '@');
    lemma_absent_concat(full, seq![':'], '@');
    lemma_absent_concat(full + seq![':'], tag, '@');
    crate::text::lemma_no_index(s, '@');
    lemma_last_before(full, ':', tag);
    assert(full[host.len() as int] == '/');
    lemma_first_after(host, '/', path);
}

/// `host:port/path` with no tag: the colon of the registry port belongs to
/// the host, and the tag is `latest`.
pub proof fn law_registry_port_without_tag(host: Seq<char>, port: Seq<char>, path: Seq<char>)
    requires
        !host.contains('/'),
        !host.contains(':'),
        !host.contains('@'),
        !port.contains('/'),
        !port.contains(':'),
        !port.contains('@'),
        !path.contains(':'),
        !path.contains('@'),
    ensures
        spec_parse_image(host + seq![':'] + port + seq!['/'] + path) == (
            host + seq![':'] + port,
            path,
            "latest"@,
        ),
{
    let hp = host + seq![':'] + port;
    let s = hp + seq!['/'] + path;
    let after = port + seq!['/'] + path;
    assert(s =~= host + seq![':'] + after);
    lemma_absent_concat(host, seq![':'], '@');
    lemma_absent_concat(host + seq![':'], port, '@');
    lemma_absent_concat(hp, seq!['/'], '@');
    lemma_absent_concat(hp + seq!['/'], path, '@');
    crate::text::lemma_no_index(s, '@');
    lemma_absent_concat(port, seq!['/'], ':');
    lemma_absent_concat(port + seq!['/'], path, ':');
    lemma_last_before(host, ':', after);
    assert(after[port.len() as int] == '/');
    assert(after.contains('/'));
    lemma_absent_concat(host, seq![':'], '/');
    lemma_absent_concat(host + seq![':'], port, '/');
    lemma_first_after(hp, '/', path);
    assert(hp[host.len() as int] == ':');
}

/// `host:port/path:tag`: the colon of a registry port is not read as the tag
/// separator when the reference carries a tag.
pub proof fn law_registry_port_with_tag(host: Seq<char>, port: Seq<char>, path: Seq<char>, tag: Seq<char>)
    requires
        !host.contains('/'),
        !host.contains(':'),
        !host.contains('@'),
        !port.contains('/'),
        !port.contains(':'),
        !port.contains('@'),
        !path.contains(':'),
        !path.contains('@'),
        !tag.contains(':'),
        !tag.contains('/'),
        !tag.contains('@'),
    ensures
        spec_parse_image(host + seq![':'] + port + seq!['/'] + path + seq![':'] + tag) == (
            host + seq![':'] + port,
            path,
            tag,
        ),
{
    let hp = host + seq![':'] + port;
    let full = hp + seq!['/'] + path;
    let s = full + seq![':'] + tag;
    lemma_absent_concat(host, seq![':'], '@');
    lemma_absent_concat(host + seq![':'], port, '@');
    lemma_absent_concat(hp, seq!['/'], '@');
    lemma_absent_concat(hp + seq!['/'], path, '@');
    lemma_absent_concat(full, seq![':'], '@');
    lemma_absent_concat(full + seq![':'], tag, '@');
    crate::text::lemma_no_index(s, '@');
    lemma_last_before(full, ':', tag);
    assert(full[hp.len() as int] == '/');
    lemma_absent_concat(host, seq![':'], '/');
    lemma_absent_concat(host + seq![':'], port, '/');
    lemma_first_after(hp, '/', path);
    assert(hp[host.len() as int] == ':');
}

/// A character absent from a text is absent from both parts of any split.
proof fn lemma_absent_parts(s: Seq<char>, c: char, i: int)
    requires
        !s.contains(c),
        0 <= i <= s.len(),
    ensures
        !s.take(i).contains(c),
        !s.skip(i).contains(c),
{
    assert forall|j: int| 0 <= j < s.take(i).len() implies s.take(i)[j] != c by {
        assert(s.take(i)[j] == s[j]);
    }
    assert forall|j: int| 0 <= j < s.skip(i).len() implies s.skip(i)[j] != c by {
        assert(s.skip(i)[j] == s[i + j]);
    }
}

/// The text before the first `c` holds no `c`.
proof fn lemma_before_first(s: Seq<char>, c: char, i: int)
    requires
        s.index_of_first(c) == Some(i),
    ensures
        !s.take(i).contains(c),
{
    s.index_of_first_ensures(c);
    assert forall|j: int| 0 <= j < s.take(i).len() implies s.take(i)[j] != c by {
        assert(s.take(i)[j] == s[j]);
    }
}

/// What every parsed reference looks like, whatever the text: no part holds
/// `@`; the tag holds no `:` and no `/`; the registry holds no `/` and is Docker Hub or
/// a registry host; and a reference with no `:` before its digest is at tag
/// `latest`.
pub proof fn law_parse_image_shape(image: Seq<char>)
    ensures
        !spec_parse_image(image).0.contains('@'),
        !spec_parse_image(image).1.contains('@'),
        !spec_parse_image(image).2.contains('@'),
        !spec_parse_image(image).2.contains(':'),
        !spec_parse_image(image).2.contains('/'),
        !spec_parse_image(image).0.contains('/'),
        spec_parse_image(image).0 == "docker.io"@ || is_registry_host(spec_parse_image(image).0),
        !strip_digest(image).contains(':') ==> spec_parse_image(image).2 == "latest"@,
{
    reveal_strlit("docker.io");
    reveal_strlit("latest");
    reveal_strlit("library/");
    let s = strip_digest(image);
    image.index_of_first_ensures('@');
    match image.index_of_first('@') {
        Some(i) => lemma_before_first(image, '@', i),
        None => {},
    }
    assert(!s.contains('@'));
    let (no_tag, tag) = split_tag(s);
    s.index_of_last_ensures(':');
    match s.index_of_last(':') {
        Some(i) => {
            lemma_absent_parts(s, '@', i);
            lemma_absent_parts(s, '@', i + 1);
            let rest = s.skip(i + 1);
            assert forall|j: int| 0 <= j < rest.len() implies #[trigger] rest[j] != ':' by {
                assert(rest[j] == s[i + 1 + j]);
            }
            assert(!rest.contains('/') ==> !split_tag(s).1.contains('/'));
        },
        None => {},
    }
    assert(!no_tag.contains('@'));
    assert(!tag.contains('@'));
    assert(!tag.contains(':'));
    no_tag.index_of_first_ensures('/');
    match no_tag.index_of_first('/') {
        Some(i) => {
            lemma_before_first(no_tag, '/', i);
            lemma_absent_parts(no_tag, '@', i);
            lemma_absent_parts(no_tag, '@', i + 1);
        },
        None => {
            lemma_absent_concat("library/"@, no_tag, '@');
        },
    }
}

// ---------------------------------------------------------------- www-authenticate parameters

/// The value of `key="..."` in a `WWW-Authenticate` header: the text after the
/// first occurrence of `key="` up to the next `"`.
pub open spec fn spec_extract_param(header: Seq<char>, key: Seq<char>) -> Option<Seq<char>> {
    let prefix = key + "=\""@;
    match find_sub(header, prefix) {
        Some(start) => {
            let rest = header.skip(start + prefix.len());
            match rest.index_of_first('"') {
                Some(end) => Some(rest.take(end)),
                None => None,
            }
        },
        None => None,
    }
}

/// Reads the quoted parameter `key` from a `WWW-Authenticate` header such as
/// `Bearer realm="https://auth.example",service="registry"`.
pub fn extract_param(header: &str, key: &str) -> (r: Option<String>)
    ensures
        match r {
            Some(v) => spec_extract_param(header@, key@) == Some(v@),
            None => spec_extract_param(header@, key@) is None,
        },
{
    let mut prefix = owned(key);
    prefix.append("=\"");
    let start = match find_str(header, prefix.as_str()) {
        Some(s) => s,
        None => return None,
    };
    let n = header.unicode_len();
    let rest = substring(header, start + prefix.as_str().unicode_len(), n);
    assert(rest@ =~= header@.skip(start + prefix@.len()));
    match find_char(rest.as_str(), '"') {
        Some(end) => {
            assert(rest@.subrange(0, end as int) =~= rest@.take(end as int));
            Some(substring(rest.as_str(), 0, end))
        },
        None => None,
    }
}

/// The parameter `key` of a `WWW-Authenticate` header, or the empty text.
pub open spec fn param_or_empty(header: Seq<char>, key: Seq<char>) -> Seq<char> {
    match spec_extract_param(header, key) {
        Some(v) => v,
        None => Seq::empty(),
    }
}

/// The token endpoint that a `WWW-Authenticate` challenge names:
/// `realm?service=service&scope=scope`, each missing part left empty.
pub open spec fn spec_token_url(www_authenticate: Seq<char>) -> Seq<char> {
    param_or_empty(www_authenticate, "realm"@) + "?service="@ + param_or_empty(www_authenticate, "service"@)
        + "&scope="@ + param_or_empty(www_authenticate, "scope"@)
}

fn param_or_default(header: &str, key: &str) -> (r: String)
    ensures
        r@ == param_or_empty(header@, key@),
{
    match extract_param(header, key) {
        Some(v) => v,
        None => String::new(),
    }
}

/// Builds the token URL from a `WWW-Authenticate` challenge.
pub fn token_url(www_authenticate: &str) -> (r: String)
    ensures
        r@ == spec_token_url(www_authenticate@),
{
    let mut url = param_or_default(www_authenticate, "realm");
    url.append("?service=");
    url.append(param_or_default(www_authenticate, "service").as_str());
    url.append("&scope=");
    url.append(param_or_default(www_authenticate, "scope").as_str());
    url
}

// ---------------------------------------------------------------- version check results

/// The outcome of checking one image against its registry.
#[derive(Debug)]
pub struct VersionCheckResult {
    pub latest_digest: String,
    pub update_available: bool,
}

/// An update is available when the current digest is known and differs from
/// the latest one.
pub open spec fn spec_update_available(current: Option<Seq<char>>, latest: Seq<char>) -> bool {
    match current {
        Some(d) => d != latest,
        None => false,
    }
}

/// Decides whether an update is available for a container whose image is at
/// `current` when the registry reports `latest`.
pub fn update_available(current: Option<&str>, latest: &str) -> (r: bool)
    ensures
        r == spec_update_available(opt_view(current), latest@),
{
    match current {
        Some(d) => {
            let a = owned(d);
            let b = owned(latest);
            !(a == b)
        },
        None => false,
    }
}

/// Whether `registry` is Docker Hub, which is queried through its own token
/// service.
pub open spec fn spec_is_docker_hub(registry: Seq<char>) -> bool {
    registry == "docker.io"@ || registry == "registry-1.docker.io"@
}

/// Decides whether `registry` is Docker Hub.
pub fn is_docker_hub(registry: &str) -> (r: bool)
    ensures
        r == spec_is_docker_hub(registry@),
{
    let r = owned(registry);
    r == owned("docker.io") || r == owned("registry-1.docker.io")
}

// ---------------------------------------------------------------- digest cache

/// What the cache answers for `image` at `now`: the cached digest while it is
/// fresh, nothing otherwise.
pub open spec fn spec_lookup(cache: Map<Seq<char>, (Seq<char>, Instant)>, image: Seq<char>, now: Instant) -> Option<Seq<char>> {
    if cache.contains_key(image) && is_fresh(cache[image].1, now) {
        Some(cache[image].0)
    } else {
        None
    }
}

/// How long a fetched digest is trusted: one hour, in nanoseconds.
pub open spec fn cache_ttl_nanos() -> int {
    3_600_000_000_000
}

/// A digest fetched at `fetched_at` is still fresh at `now`: less than an hour
/// has passed (a clock that went back counts as no time passed).
pub open spec fn is_fresh(fetched_at: Instant, now: Instant) -> bool {
    now.total_nanos() - fetched_at.total_nanos() < cache_ttl_nanos()
}

/// One cached registry answer.
#[derive(Debug)]
pub struct CachedDigest {
    pub digest: String,
    pub fetched_at: Instant,
}

/// The digests that the agent fetched, by image reference.
pub struct DigestCache {
    entries: KeyedTable<CachedDigest>,
}

/// A cached answer as plain values: the digest and when it was fetched.
pub open spec fn cached_view(c: CachedDigest) -> (Seq<char>, Instant) {
    (c.digest@, c.fetched_at)
}

impl View for DigestCache {
    type V = Map<Seq<char>, (Seq<char>, Instant)>;

    closed spec fn view(&self) -> Self::V {
        self.entries@.map_values(|c: CachedDigest| cached_view(c))
    }
}

impl DigestCache {
    /// An empty cache.
    pub fn new() -> (c: Self)
        ensures
            c@ == Map::<Seq<char>, (Seq<char>, Instant)>::empty(),
    {
        let c = DigestCache { entries: KeyedTable::new() };
        assert(c@ =~= Map::<Seq<char>, (Seq<char>, Instant)>::empty());
        c
    }

    /// The cached digest of `image` if it was fetched less than an hour
    /// before `now`.
    pub fn lookup(&self, image: &str, now: Instant) -> (r: Option<String>)
        ensures
            opt_string_view(r) == spec_lookup(self@, image@, now),
    {
        match self.entries.get(image) {
            Some(entry) => {
                let age = nanos_between(entry.fetched_at, now);
                if age < 3_600_000_000_000 {
                    Some(entry.digest.clone())
                } else {
                    None
                }
            },
            None => None,
        }
    }

    /// Records `digest` as the latest digest of `image`, fetched at `now`.
    pub fn insert(&mut self, image: &str, digest: String, now: Instant)
        ensures
            final(self)@ == old(self)@.insert(image@, (digest@, now)),
    {
        let ghost before = self@;
        let entry = CachedDigest { digest, fetched_at: now };
        self.entries.insert(owned(image), entry);
        assert(self@ =~= before.insert(image@, (digest@, now)));
    }
}

// ---------------------------------------------------------------- registry protocol

/// The HTTP method of a registry request.
#[derive(Clone, Copy, Debug, PartialEq, Eq, Structural)]
pub enum HttpMethod {
    Get,
    Head,
}

/// A request that the registry protocol asks its caller to send.
#[derive(Debug)]
pub struct RegistryRequest {
    pub method: HttpMethod,
    pub url: String,
    /// A bearer token for the `Authorization` header.
    pub bearer: Option<String>,
    /// Whether the `Accept` header lists the OCI index and Docker manifest
    /// media types.
    pub accept_manifests: bool,
    /// Whether the response body is read as JSON.
    pub read_json: bool,
}

/// A response header as the protocol sees it.
#[derive(Debug)]
pub enum HeaderField {
    Absent,
    Text(String),
    /// Present, but not visible ASCII (`HeaderValue::to_str` fails).
    Unreadable,
}

/// A field of a JSON response body as the protocol sees it.
#[derive(Debug)]
pub enum JsonField {
    Absent,
    Text(String),
    /// Present, but not a JSON string.
    Other,
}

/// The fields of a JSON response body that the protocol reads.
#[derive(Debug)]
pub struct JsonFields {
    /// `token`
    pub token: JsonField,
    /// `access_token`
    pub access_token: JsonField,
    /// `/images/0/digest`
    pub first_image_digest: JsonField,
    /// `digest`
    pub digest: JsonField,
}

/// How a field of a JSON body reads: absent, a string, or something else.
pub open spec fn spec_json_field(v: Option<JsonValue>) -> JsonField {
    match v {
        Some(JsonValue::Str(t)) => JsonField::Text(t),
        Some(_) => JsonField::Other,
        None => JsonField::Absent,
    }
}

/// `fields` holds what the body `doc` says: its members `token`,
/// `access_token` and `digest`, and the `digest` of the first element of its
/// `images` (the pointer `/images/0/digest`).
pub open spec fn reads_json_fields(fields: JsonFields, doc: JsonValue) -> bool {
    &&& fields.token == spec_json_field(spec_get(doc, "token"@))
    &&& fields.access_token == spec_json_field(spec_get(doc, "access_token"@))
    &&& fields.first_image_digest == spec_json_field(
        spec_get_in(spec_element_in(spec_get(doc, "images"@), 0), "digest"@),
    )
    &&& fields.digest == spec_json_field(spec_get(doc, "digest"@))
}

fn json_field(v: Option<&JsonValue>) -> (r: JsonField)
    ensures
        r == spec_json_field(
            match v {
                Some(w) => Some(*w),
                None => None,
            },
        ),
{
    match v {
        Some(JsonValue::Str(t)) => JsonField::Text(t.clone()),
        Some(_) => JsonField::Other,
        None => JsonField::Absent,
    }
}

/// Reads the fields that the protocol needs out of a response body: `None`
/// when the body is not JSON.
pub fn json_fields(body: &str) -> (r: Option<JsonFields>)
    ensures
        match spec_parse_json(body@) {
            Some(doc) => r matches Some(f) && reads_json_fields(f, doc),
            None => r is None,
        },
{
    match parse_json(body) {
        Some(doc) => {
            let images = get(&doc, "images");
            Some(
                JsonFields {
                    token: json_field(get(&doc, "token")),
                    access_token: json_field(get(&doc, "access_token")),
                    first_image_digest: json_field(get_in(element_in(images, 0), "digest")),
                    digest: json_field(get(&doc, "digest")),
                },
            )
        },
        None => None,
    }
}

/// What came back for a request.
#[derive(Debug)]
pub enum RegistryReply {
    /// The request could not be sent, or its body could not be read as JSON.
    Failed(String),
    /// The JSON body of a request with `read_json`.
    Json(JsonFields),
    /// The status and headers of a request without `read_json`.
    Headers { status: u16, digest: HeaderField, www_authenticate: HeaderField },
}

/// Why a registry lookup failed.
#[derive(Debug)]
pub enum RegistryError {
    Transport(String),
    /// Docker Hub's token service answered without a `token`.
    NoHubToken,
    /// A `Docker-Content-Digest` header was not visible ASCII, so it could not
    /// be read as text.
    UnreadableDigest,
    /// Docker Hub's tag information held no digest.
    NoHubDigest,
    /// The manifest response carried no `Docker-Content-Digest` header.
    NoDigest { registry: String },
    /// The authorized manifest response carried no `Docker-Content-Digest` header.
    NoDigestAfterAuth { registry: String },
    /// The registry's token service answered without a token.
    NoRegistryToken,
    /// The registry answered the manifest probe with a status other than
    /// success or 401.
    UnexpectedStatus { registry: String, status: u16, url: String },
}

/// The reason phrase that the `http` crate gives status code `status`, if
/// it has one.
pub uninterp spec fn spec_canonical_reason(status: u16) -> Option<Seq<char>>;

/// `reqwest::StatusCode::from_u16(status)` (the `http` crate's status code),
/// then `canonical_reason()`: the standard reason phrase of a status code from
/// 100 to 999, when the crate knows one. Which codes have which phrase is
/// named (`spec_canonical_reason`), not stated here.
#[verifier::external_body]
fn canonical_reason(status: u16) -> (r: Option<String>)
    requires
        100 <= status <= 999,
    ensures
        opt_string_view(r) == spec_canonical_reason(status),
{
    match reqwest::StatusCode::from_u16(status) {
        Ok(code) => code.canonical_reason().map(|p| p.to_string()),
        Err(_) => None,
    }
}

/// How a status code prints: the number, a space and its reason phrase (or
/// `<unknown status code>`), as the `http` crate's `StatusCode` displays;
/// a number outside 100 to 999, which is no status code, prints alone.
pub open spec fn spec_status_text(status: u16) -> Seq<char> {
    if 100 <= status <= 999 {
        spec_decimal(status as nat) + " "@ + match spec_canonical_reason(status) {
            Some(p) => p,
            None => "<unknown status code>"@,
        }
    } else {
        spec_decimal(status as nat)
    }
}

/// The printed form of a status code.
pub fn status_text(status: u16) -> (r: String)
    ensures
        r@ == spec_status_text(status),
{
    let mut t = decimal(status as u64);
    if 100 <= status && status <= 999 {
        t.append(" ");
        match canonical_reason(status) {
            Some(p) => t.append(p.as_str()),
            None => t.append("<unknown status code>"),
        }
    }
    t
}

/// The text of a failed lookup.
pub open spec fn spec_registry_error_text(e: RegistryError) -> Seq<char> {
    match e {
        RegistryError::Transport(m) => m@,
        RegistryError::NoHubToken => "No token in Docker Hub response"@,
        RegistryError::UnreadableDigest => "failed to convert header to a str"@,
        RegistryError::NoHubDigest => "Could not determine digest from Docker Hub"@,
        RegistryError::NoDigest { registry } => "No Docker-Content-Digest header from "@ + registry@,
        RegistryError::NoDigestAfterAuth { registry } => "No Docker-Content-Digest header after auth from "@
            + registry@,
        RegistryError::NoRegistryToken => "No token in registry auth response"@,
        RegistryError::UnexpectedStatus { registry, status, url } => "Registry "@ + registry@
            + " returned status "@ + spec_status_text(status) + " for "@ + url@,
    }
}

impl RegistryError {
    /// The text of the failure.
    pub fn message(&self) -> (r: String)
        ensures
            r@ == spec_registry_error_text(*self),
    {
        match self {
            RegistryError::Transport(m) => m.clone(),
            RegistryError::NoHubToken => owned("No token in Docker Hub response"),
            RegistryError::UnreadableDigest => owned("failed to convert header to a str"),
            RegistryError::NoHubDigest => owned("Could not determine digest from Docker Hub"),
            RegistryError::NoDigest { registry } => {
                let mut t = owned("No Docker-Content-Digest header from ");
                t.append(registry.as_str());
                t
            },
            RegistryError::NoDigestAfterAuth { registry } => {
                let mut t = owned("No Docker-Content-Digest header after auth from ");
                t.append(registry.as_str());
                t
            },
            RegistryError::NoRegistryToken => owned("No token in registry auth response"),
            RegistryError::UnexpectedStatus { registry, status, url } => {
                let mut t = owned("Registry ");
                t.append(registry.as_str());
                t.append(" returned status ");
                t.append(status_text(*status).as_str());
                t.append(" for ");
                t.append(url.as_str());
                t
            },
        }
    }
}

/// Where a registry lookup stands.
#[derive(Debug)]
pub enum RegistryFetch {
    /// Waiting for a Docker Hub pull token.
    HubToken { repo: String, tag: String },
    /// Waiting for the Docker Hub manifest headers.
    HubManifest { repo: String, tag: String },
    /// Waiting for Docker Hub's tag information.
    HubTagInfo,
    /// Waiting for the unauthenticated manifest probe.
    OciProbe { registry: String, manifest_url: String },
    /// Waiting for the manifest headers of a plain GET.
    OciManifest { registry: String },
    /// Waiting for a token from the registry's token service.
    OciToken { registry: String, manifest_url: String },
    /// Waiting for the authorized manifest probe.
    OciAuthorized { registry: String },
}

/// What the protocol does next.
#[derive(Debug)]
pub enum RegistryStep {
    Send(RegistryFetch, RegistryRequest),
    Done(Result<String, RegistryError>),
}

/// The request has the given method, URL, bearer token and flags.
pub open spec fn is_request(
    r: RegistryRequest,
    method: HttpMethod,
    url: Seq<char>,
    bearer: Option<Seq<char>>,
    accept_manifests: bool,
    read_json: bool,
) -> bool {
    &&& r.method == method
    &&& r.url@ == url
    &&& opt_string_view(r.bearer) == bearer
    &&& r.accept_manifests == accept_manifests
    &&& r.read_json == read_json
}

pub open spec fn hub_token_url(repo: Seq<char>) -> Seq<char> {
    "https://auth.docker.io/token?service=registry.docker.io&scope=repository:"@ + repo + ":pull"@
}

pub open spec fn hub_manifest_url(repo: Seq<char>, tag: Seq<char>) -> Seq<char> {
    "https://registry-1.docker.io/v2/"@ + repo + "/manifests/"@ + tag
}

pub open spec fn hub_tag_info_url(repo: Seq<char>, tag: Seq<char>) -> Seq<char> {
    "https://hub.docker.com/v2/repositories/"@ + repo + "/tags/"@ + tag
}

pub open spec fn registry_manifest_url(registry: Seq<char>, repo: Seq<char>, tag: Seq<char>) -> Seq<char> {
    "https://"@ + registry + "/v2/"@ + repo + "/manifests/"@ + tag
}

/// The step that a `Docker-Content-Digest` header leads to when it is the
/// last chance: the digest, or `missing` when absent.
pub open spec fn digest_or(out: RegistryStep, header: HeaderField, missing: RegistryError) -> bool {
    match header {
        HeaderField::Text(d) => out == RegistryStep::Done(Ok(d)),
        HeaderField::Unreadable => out == RegistryStep::Done(Err(RegistryError::UnreadableDigest)),
        HeaderField::Absent => out == RegistryStep::Done(Err(missing)),
    }
}

/// The first field unless it is absent, then the second (`a.or_else(|| b)`).
pub open spec fn first_present(a: JsonField, b: JsonField) -> JsonField {
    match a {
        JsonField::Absent => b,
        _ => a,
    }
}

/// Whether the phase waits for a JSON body.
pub open spec fn expects_json(phase: RegistryFetch) -> bool {
    phase is HubToken || phase is HubTagInfo || phase is OciToken
}

/// A reply fits a phase: a failure, or the kind of answer the phase asked for.
pub open spec fn reply_fits(phase: RegistryFetch, reply: RegistryReply) -> bool {
    ||| reply is Failed
    ||| (expects_json(phase) && reply is Json)
    ||| (!expects_json(phase) && reply is Headers)
}

/// How many more requests a phase may lead to, itself included.
pub open spec fn requests_left(phase: RegistryFetch) -> nat {
    match phase {
        RegistryFetch::HubToken { .. } => 3,
        RegistryFetch::HubManifest { .. } => 2,
        RegistryFetch::HubTagInfo => 1,
        RegistryFetch::OciProbe { .. } => 3,
        RegistryFetch::OciToken { .. } => 2,
        RegistryFetch::OciManifest { .. } => 1,
        RegistryFetch::OciAuthorized { .. } => 1,
    }
}

/// One step of the registry protocol: what follows `phase` when `reply` came
/// back.
pub open spec fn spec_fetch_step(phase: RegistryFetch, reply: RegistryReply, out: RegistryStep) -> bool {
    match reply {
        RegistryReply::Failed(e) => out == RegistryStep::Done(Err(RegistryError::Transport(e))),
        RegistryReply::Json(f) => match phase {
            RegistryFetch::HubToken { repo, tag } => match f.token {
                JsonField::Text(t) => out matches RegistryStep::Send(next, req) && next
                    == RegistryFetch::HubManifest { repo, tag } && is_request(
                    req,
                    HttpMethod::Get,
                    hub_manifest_url(repo@, tag@),
                    Some(t@),
                    true,
                    false,
                ),
                _ => out == RegistryStep::Done(Err(RegistryError::NoHubToken)),
            },
            RegistryFetch::HubTagInfo => match first_present(f.first_image_digest, f.digest) {
                JsonField::Text(d) => out == RegistryStep::Done(Ok(d)),
                _ => out == RegistryStep::Done(Err(RegistryError::NoHubDigest)),
            },
            RegistryFetch::OciToken { registry, manifest_url } => match first_present(
                f.token,
                f.access_token,
            ) {
                JsonField::Text(t) => out matches RegistryStep::Send(next, req) && next
                    == RegistryFetch::OciAuthorized { registry } && is_request(
                    req,
                    HttpMethod::Head,
                    manifest_url@,
                    Some(t@),
                    true,
                    false,
                ),
                _ => out == RegistryStep::Done(Err(RegistryError::NoRegistryToken)),
            },
            _ => false,
        },
        RegistryReply::Headers { status, digest, www_authenticate } => match phase {
            RegistryFetch::HubManifest { repo, tag } => match digest {
                HeaderField::Absent => out matches RegistryStep::Send(next, req) && next
                    == RegistryFetch::HubTagInfo && is_request(
                    req,
                    HttpMethod::Get,
                    hub_tag_info_url(repo@, tag@),
                    None,
                    false,
                    true,
                ),
                _ => digest_or(out, digest, RegistryError::NoHubDigest),
            },
            RegistryFetch::OciProbe { registry, manifest_url } => if 200 <= status <= 299 {
                match digest {
                    HeaderField::Absent => out matches RegistryStep::Send(next, req) && next
                        == RegistryFetch::OciManifest { registry } && is_request(
                        req,
                        HttpMethod::Get,
                        manifest_url@,
                        None,
                        true,
                        false,
                    ),
                    _ => digest_or(out, digest, RegistryError::NoDigest { registry }),
                }
            } else if status == 401 {
                let challenge = match www_authenticate {
                    HeaderField::Text(w) => w@,
                    _ => Seq::empty(),
                };
                out matches RegistryStep::Send(next, req) && next == RegistryFetch::OciToken {
                    registry,
                    manifest_url,
                } && is_request(req, HttpMethod::Get, spec_token_url(challenge), None, false, true)
            } else {
                out == RegistryStep::Done(
                    Err(RegistryError::UnexpectedStatus { registry, status, url: manifest_url }),
                )
            },
            RegistryFetch::OciManifest { registry } => digest_or(
                out,
                digest,
                RegistryError::NoDigest { registry },
            ),
            RegistryFetch::OciAuthorized { registry } => digest_or(
                out,
                digest,
                RegistryError::NoDigestAfterAuth { registry },
            ),
            _ => false,
        },
    }
}

/// The first phase and request of a lookup of `registry/repo:tag`: Docker Hub
/// starts with its token service, any other registry with a HEAD of the
/// manifest.
pub open spec fn spec_fetch_start(
    registry: Seq<char>,
    repo: Seq<char>,
    tag: Seq<char>,
    phase: RegistryFetch,
    req: RegistryRequest,
) -> bool {
    if spec_is_docker_hub(registry) {
        &&& phase matches RegistryFetch::HubToken { repo: r, tag: t } && r@ == repo && t@ == tag
        &&& is_request(req, HttpMethod::Get, hub_token_url(repo), None, false, true)
    } else {
        &&& phase matches RegistryFetch::OciProbe { registry: g, manifest_url: u } && g@ == registry
            && u@ == registry_manifest_url(registry, repo, tag)
        &&& is_request(
            req,
            HttpMethod::Head,
            registry_manifest_url(registry, repo, tag),
            None,
            true,
            false,
        )
    }
}

fn request(
    method: HttpMethod,
    url: String,
    bearer: Option<String>,
    accept_manifests: bool,
    read_json: bool,
) -> (r: RegistryRequest)
    ensures
        r == (RegistryRequest { method, url, bearer, accept_manifests, read_json }),
{
    RegistryRequest { method, url, bearer, accept_manifests, read_json }
}

/// Starts the lookup of the digest that `registry` holds for `repo:tag`.
pub fn begin_fetch(registry: String, repo: String, tag: String) -> (r: (RegistryFetch, RegistryRequest))
    ensures
        spec_fetch_start(registry@, repo@, tag@, r.0, r.1),
        r.1.read_json == expects_json(r.0),
{
    if is_docker_hub(registry.as_str()) {
        let mut url = owned("https://auth.docker.io/token?service=registry.docker.io&scope=repository:");
        url.append(repo.as_str());
        url.append(":pull");
        (RegistryFetch::HubToken { repo, tag }, request(HttpMethod::Get, url, None, false, true))
    } else {
        let mut url = owned("https://");
        url.append(registry.as_str());
        url.append("/v2/");
        url.append(repo.as_str());
        url.append("/manifests/");
        url.append(tag.as_str());
        let probe = request(HttpMethod::Head, url.clone(), None, true, false);
        (RegistryFetch::OciProbe { registry, manifest_url: url }, probe)
    }
}

fn digest_step(header: HeaderField, missing: RegistryError) -> (out: RegistryStep)
    ensures
        digest_or(out, header, missing),
{
    match header {
        HeaderField::Text(d) => RegistryStep::Done(Ok(d)),
        HeaderField::Unreadable => RegistryStep::Done(Err(RegistryError::UnreadableDigest)),
        HeaderField::Absent => RegistryStep::Done(Err(missing)),
    }
}

fn pick_present(a: JsonField, b: JsonField) -> (r: JsonField)
    ensures
        r == first_present(a, b),
{
    match a {
        JsonField::Absent => b,
        _ => a,
    }
}

impl RegistryFetch {
    /// Whether this phase waits for a JSON body.
    pub fn expects_json(&self) -> (r: bool)
        ensures
            r == expects_json(*self),
    {
        match self {
            RegistryFetch::HubToken { .. } => true,
            RegistryFetch::HubTagInfo => true,
            RegistryFetch::OciToken { .. } => true,
            _ => false,
        }
    }

    /// Advances the lookup with the reply to the last request.
    pub fn step(self, reply: RegistryReply) -> (out: RegistryStep)
        requires
            reply_fits(self, reply),
        ensures
            spec_fetch_step(self, reply, out),
            out matches RegistryStep::Send(next, _) ==> requests_left(next) < requests_left(self),
            out matches RegistryStep::Send(next, req) ==> req.read_json == expects_json(next),
    {
        match reply {
            RegistryReply::Failed(e) => RegistryStep::Done(Err(RegistryError::Transport(e))),
            RegistryReply::Json(f) => match self {
                RegistryFetch::HubToken { repo, tag } => match f.token {
                    JsonField::Text(t) => {
                        let mut url = owned("https://registry-1.docker.io/v2/");
                        url.append(repo.as_str());
                        url.append("/manifests/");
                        url.append(tag.as_str());
                        let req = request(HttpMethod::Get, url, Some(t), true, false);
                        RegistryStep::Send(RegistryFetch::HubManifest { repo, tag }, req)
                    },
                    _ => RegistryStep::Done(Err(RegistryError::NoHubToken)),
                },
                RegistryFetch::HubTagInfo => match pick_present(f.first_image_digest, f.digest) {
                    JsonField::Text(d) => RegistryStep::Done(Ok(d)),
                    _ => RegistryStep::Done(Err(RegistryError::NoHubDigest)),
                },
                RegistryFetch::OciToken { registry, manifest_url } => match pick_present(
                    f.token,
                    f.access_token,
                ) {
                    JsonField::Text(t) => {
                        let req = request(HttpMethod::Head, manifest_url, Some(t), true, false);
                        RegistryStep::Send(RegistryFetch::OciAuthorized { registry }, req)
                    },
                    _ => RegistryStep::Done(Err(RegistryError::NoRegistryToken)),
                },
                _ => RegistryStep::Done(Err(RegistryError::NoRegistryToken)),
            },
            RegistryReply::Headers { status, digest, www_authenticate } => match self {
                RegistryFetch::HubManifest { repo, tag } => match digest {
                    HeaderField::Absent => {
                        let mut url = owned("https://hub.docker.com/v2/repositories/");
                        url.append(repo.as_str());
                        url.append("/tags/");
                        url.append(tag.as_str());
                        let req = request(HttpMethod::Get, url, None, false, true);
                        RegistryStep::Send(RegistryFetch::HubTagInfo, req)
                    },
                    _ => digest_step(digest, RegistryError::NoHubDigest),
                },
                RegistryFetch::OciProbe { registry, manifest_url } => if 200 <= status && status
                    <= 299 {
                    match digest {
                        HeaderField::Absent => {
                            let req = request(HttpMethod::Get, manifest_url, None, true, false);
                            RegistryStep::Send(RegistryFetch::OciManifest { registry }, req)
                        },
                        _ => digest_step(digest, RegistryError::NoDigest { registry }),
                    }
                } else if status == 401 {
                    let challenge = match www_authenticate {
                        HeaderField::Text(w) => w,
                        _ => String::new(),
                    };
                    let req = request(
                        HttpMethod::Get,
                        token_url(challenge.as_str()),
                        None,
                        false,
                        true,
                    );
                    RegistryStep::Send(RegistryFetch::OciToken { registry, manifest_url }, req)
                } else {
                    RegistryStep::Done(
                        Err(RegistryError::UnexpectedStatus { registry, status, url: manifest_url }),
                    )
                },
                RegistryFetch::OciManifest { registry } => digest_step(
                    digest,
                    RegistryError::NoDigest { registry },
                ),
                RegistryFetch::OciAuthorized { registry } => digest_step(
                    digest,
                    RegistryError::NoDigestAfterAuth { registry },
                ),
                _ => RegistryStep::Done(Err(RegistryError::NoHubToken)),
            },
        }
    }
}

// ---------------------------------------------------------------- the checker

/// How a version check begins: from a fresh cached digest, or with a registry
/// lookup.
#[derive(Debug)]
pub enum CheckStart {
    Cached(VersionCheckResult),
    Fetch(RegistryFetch, RegistryRequest),
}

/// Checks images against their registries, remembering each digest for an
/// hour.
pub struct RegistryChecker {
    cache: DigestCache,
}

impl RegistryChecker {
    /// The cached digests by image reference, with the time of each fetch.
    pub closed spec fn cached(&self) -> Map<Seq<char>, (Seq<char>, Instant)> {
        self.cache@
    }

    /// A checker with an empty cache.
    pub fn new() -> (c: Self)
        ensures
            c.cached() == Map::<Seq<char>, (Seq<char>, Instant)>::empty(),
    {
        RegistryChecker { cache: DigestCache::new() }
    }

    /// Begins checking `image`, whose container runs `current_digest` if known:
    /// a digest cached less than an hour before `now` answers at once;
    /// otherwise the registry that the reference names is asked.
    pub fn begin_check(&self, image: &str, current_digest: Option<&str>, now: Instant) -> (r:
        CheckStart)
        ensures
            match spec_lookup(self.cached(), image@, now) {
                Some(d) => r matches CheckStart::Cached(res) && res.latest_digest@ == d
                    && res.update_available == spec_update_available(opt_view(current_digest), d),
                None => r matches CheckStart::Fetch(phase, req) && spec_fetch_start(
                    spec_parse_image(image@).0,
                    spec_parse_image(image@).1,
                    spec_parse_image(image@).2,
                    phase,
                    req,
                ),
            },
    {
        match self.cache.lookup(image, now) {
            Some(latest) => {
                let update_available = update_available(current_digest, latest.as_str());
                CheckStart::Cached(VersionCheckResult { latest_digest: latest, update_available })
            },
            None => {
                let (registry, repo, tag) = parse_image(image);
                let (phase, req) = begin_fetch(registry, repo, tag);
                CheckStart::Fetch(phase, req)
            },
        }
    }

    /// Completes the check of `image` with the digest that its registry
    /// reported, caching it as fetched at `now`.
    pub fn complete_check(
        &mut self,
        image: &str,
        current_digest: Option<&str>,
        latest_digest: String,
        now: Instant,
    ) -> (r: VersionCheckResult)
        ensures
            final(self).cached() == old(self).cached().insert(image@, (latest_digest@, now)),
            r.latest_digest@ == latest_digest@,
            r.update_available == spec_update_available(opt_view(current_digest), latest_digest@),
    {
        let update_available = update_available(current_digest, latest_digest.as_str());
        self.cache.insert(image, latest_digest.clone(), now);
        VersionCheckResult { latest_digest, update_available }
    }
}

impl RegistryChecker {
    /// Begins checking `image` at the current time; the instant read from the
    /// clock is returned with the start.
    pub fn begin_check_now(&self, image: &str, current_digest: Option<&str>) -> (r: (CheckStart, Instant))
        ensures
            match spec_lookup(self.cached(), image@, r.1) {
                Some(d) => r.0 matches CheckStart::Cached(res) && res.latest_digest@ == d
                    && res.update_available == spec_update_available(opt_view(current_digest), d),
                None => r.0 matches CheckStart::Fetch(phase, req) && spec_fetch_start(
                    spec_parse_image(image@).0,
                    spec_parse_image(image@).1,
                    spec_parse_image(image@).2,
                    phase,
                    req,
                ),
            },
    {
        let now = now_instant();
        (self.begin_check(image, current_digest, now), now)
    }

    /// Completes the check of `image`, caching the digest as fetched now; the
    /// instant read from the clock is returned with the result.
    pub fn complete_check_now(&mut self, image: &str, current_digest: Option<&str>, latest_digest: String) -> (r: (
        VersionCheckResult,
        Instant,
    ))
        ensures
            final(self).cached() == old(self).cached().insert(image@, (latest_digest@, r.1)),
            r.0.latest_digest@ == latest_digest@,
            r.0.update_available == spec_update_available(opt_view(current_digest), latest_digest@),
    {
        let now = now_instant();
        (self.complete_check(image, current_digest, latest_digest, now), now)
    }
}

/// The step sends `method` to `url` with bearer `t`, asking for the manifest
/// media types and not reading a body, and moves to phase `next`.
pub open spec fn sends_with_bearer(
    out: RegistryStep,
    next: RegistryFetch,
    method: HttpMethod,
    url: Seq<char>,
    t: Seq<char>,
) -> bool {
    match out {
        RegistryStep::Send(n, req) => n == next && req.method == method && req.url@ == url
            && opt_string_view(req.bearer) == Some(t) && req.accept_manifests && !req.read_json,
        RegistryStep::Done(_) => false,
    }
}

/// A bearer token service reply, read as `obtain_registry_token` reads it:
/// the `token` member when present, `access_token` only when `token` is
/// absent. When that member is the string `t`, the manifest is asked again
/// with `HEAD`, the manifest media types and bearer `t`; otherwise the
/// lookup fails with `NoRegistryToken`.
pub proof fn law_registry_token_reply(
    registry: String,
    manifest_url: String,
    f: JsonFields,
    out: RegistryStep,
)
    requires
        spec_fetch_step(
            RegistryFetch::OciToken { registry, manifest_url },
            RegistryReply::Json(f),
            out,
        ),
    ensures
        f.token matches JsonField::Text(t) ==> sends_with_bearer(
            out,
            RegistryFetch::OciAuthorized { registry },
            HttpMethod::Head,
            manifest_url@,
            t@,
        ),
        f.token is Absent ==> (f.access_token matches JsonField::Text(t) ==> sends_with_bearer(
            out,
            RegistryFetch::OciAuthorized { registry },
            HttpMethod::Head,
            manifest_url@,
            t@,
        )),
        (f.token is Other || (f.token is Absent && !(f.access_token is Text))) ==> out
            == RegistryStep::Done(Err(RegistryError::NoRegistryToken)),
{
}

/// Docker Hub's token reply is read for its `token` member alone: a string
/// `t` leads to `GET` of the tag's manifest with bearer `t`; anything else
/// fails with `NoHubToken`.
pub proof fn law_hub_token_reply(repo: String, tag: String, f: JsonFields, out: RegistryStep)
    requires
        spec_fetch_step(RegistryFetch::HubToken { repo, tag }, RegistryReply::Json(f), out),
    ensures
        f.token matches JsonField::Text(t) ==> sends_with_bearer(
            out,
            RegistryFetch::HubManifest { repo, tag },
            HttpMethod::Get,
            hub_manifest_url(repo@, tag@),
            t@,
        ),
        !(f.token is Text) ==> out == RegistryStep::Done(Err(RegistryError::NoHubToken)),
{
}

// ---------------------------------------------------------------- laws of checking

/// What the cache was last told about an image is what it serves while fresh,
/// and nothing after an hour; other images keep their answers.
pub proof fn law_cache_read_after_write(
    cache: Map<Seq<char>, (Seq<char>, Instant)>,
    image: Seq<char>,
    digest: Seq<char>,
    fetched_at: Instant,
    other: Seq<char>,
    now: Instant,
)
    requires
        other != image,
    ensures
        spec_lookup(cache.insert(image, (digest, fetched_at)), image, now) == (if now.total_nanos()
            - fetched_at.total_nanos() < 3_600_000_000_000 {
            Some(digest)
        } else {
            None
        }),
        spec_lookup(cache.insert(image, (digest, fetched_at)), other, now) == spec_lookup(
            cache,
            other,
            now,
        ),
{
}

/// An update is never reported without a known current digest, and is
/// reported exactly when the known digest differs from the latest.
pub proof fn law_update_available_iff_digest_differs(current: Option<Seq<char>>, latest: Seq<char>)
    ensures
        spec_update_available(current, latest) <==> (current is Some && current->0 != latest),
{
}

/// Each reply moves a lookup strictly closer to its end, so a lookup sends at
/// most three requests; a failed request always ends it with that failure.
pub proof fn law_lookup_ends(phase: RegistryFetch, reply: RegistryReply, out: RegistryStep)
    requires
        reply_fits(phase, reply),
        spec_fetch_step(phase, reply, out),
    ensures
        requests_left(phase) <= 3,
        out matches RegistryStep::Send(next, _) ==> requests_left(next) < requests_left(phase),
        reply matches RegistryReply::Failed(e) ==> out == RegistryStep::Done(
            Err(RegistryError::Transport(e)),
        ),
{
}

} // verus!
