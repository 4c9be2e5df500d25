use vstd::prelude::*;

verus! {

/// Whether a string ends with the path separator `/`.
pub open spec fn ends_with_slash(s: Seq<char>) -> bool {
    s.len() > 0 && s.last() == '/'
}

/// A base URL with a trailing `/`, added only where it is absent.
pub open spec fn normalized_base_url(url: Seq<char>) -> Seq<char> {
    if ends_with_slash(url) {
        url
    } else {
        url.push('/')
    }
}

/// A manifest source names a local document when it holds a `.`
/// (a file-extension marker); otherwise it is a bare content identifier.
pub open spec fn names_local_document(source: Seq<char>) -> bool {
    source.contains('.')
}

/// The URL of the manifest of a content identifier: `base + source + "/fingerprint.json"`.
pub open spec fn remote_manifest_url(base_url: Seq<char>, source: Seq<char>) -> Seq<char> {
    base_url + source + "/fingerprint.json"@
}

/// Where the manifest of a run is read from.
#[derive(Clone, Debug)]
pub enum ManifestLocation {
    /// A document on the local filesystem, at this path.
    LocalFile(String),
    /// A document fetched from this URL.
    Remote(String),
}

/// Appends a `/` to a base URL that lacks one.
pub fn normalize_base_url(url: &str) -> (r: String)
    ensures
        r@ == normalized_base_url(url@),
{
    let n = url.unicode_len();
    let mut r = String::from_str(url);
    if n == 0 || url.get_char(n - 1) != '/' {
        r.append("/");
        proof {
            reveal_strlit("/");
            assert(r@ =~= url@.push('/'));
        }
    }
    r
}

/// Whether a manifest source names a local document (it holds a `.`).
pub fn is_local_source(source: &str) -> (r: bool)
    ensures
        r == names_local_document(source@),
{
    let n = source.unicode_len();
    let mut i: usize = 0;
    while i < n
        invariant
            n == source@.len(),
            i <= n,
            forall|j: int| 0 <= j < i ==> source@[j] != '.',
        decreases n - i,
    {
        if source.get_char(i) == '.' {
            assert(source@[i as int] == '.');
            return true;
        }
        i = i + 1;
    }
    false
}

/// Selects where the manifest is read from: the local document that the
/// source names, or `base_url + source + "/fingerprint.json"`.
pub fn manifest_location(source: &str, base_url: &str) -> (r: ManifestLocation)
    ensures
        names_local_document(source@) ==> (r matches ManifestLocation::LocalFile(p) && p@
            == source@),
        !names_local_document(source@) ==> (r matches ManifestLocation::Remote(u) && u@
            == remote_manifest_url(base_url@, source@)),
{
    if is_local_source(source) {
        ManifestLocation::LocalFile(String::from_str(source))
    } else {
        let mut u = String::from_str(base_url);
        u.append(source);
        u.append("/fingerprint.json");
        ManifestLocation::Remote(u)
    }
}

} // verus!
