use vstd::prelude::*;

use crate::json::{
    document_list_strings, document_string, entries_view, json_accepts, json_list_string_members,
    json_string_member, list_view, opt_view,
};

verus! {

/// A string with its leading `"` characters removed.
pub open spec fn trim_leading_quotes(s: Seq<char>) -> Seq<char>
    decreases s.len(),
{
    if s.len() > 0 && s[0] == '"' {
        trim_leading_quotes(s.subrange(1, s.len() as int))
    } else {
        s
    }
}

/// A string with its trailing `"` characters removed.
pub open spec fn trim_trailing_quotes(s: Seq<char>) -> Seq<char>
    decreases s.len(),
{
    if s.len() > 0 && s.last() == '"' {
        trim_trailing_quotes(s.drop_last())
    } else {
        s
    }
}

/// A string with the `"` characters around it removed.
pub open spec fn strip_quotes(s: Seq<char>) -> Seq<char> {
    trim_trailing_quotes(trim_leading_quotes(s))
}

proof fn lemma_leading_quotes_skipped(s: Seq<char>, i: int)
    requires
        0 <= i <= s.len(),
        forall|j: int| 0 <= j < i ==> s[j] == '"',
    ensures
        trim_leading_quotes(s) == trim_leading_quotes(s.subrange(i, s.len() as int)),
    decreases i,
{
    if i > 0 {
        let t = s.subrange(1, s.len() as int);
        assert forall|j: int| 0 <= j < i - 1 implies t[j] == '"' by {
            assert(t[j] == s[j + 1]);
        }
        lemma_leading_quotes_skipped(t, i - 1);
        assert(t.subrange(i - 1, t.len() as int) =~= s.subrange(i, s.len() as int));
    } else {
        assert(s.subrange(0, s.len() as int) =~= s);
    }
}

proof fn lemma_trailing_quotes_skipped(s: Seq<char>, k: int)
    requires
        0 <= k <= s.len(),
        forall|j: int| k <= j < s.len() ==> s[j] == '"',
    ensures
        trim_trailing_quotes(s) == trim_trailing_quotes(s.subrange(0, k)),
    decreases s.len() - k,
{
    if k < s.len() {
        let t = s.drop_last();
        lemma_trailing_quotes_skipped(t, k);
        assert(t.subrange(0, k) =~= s.subrange(0, k));
    } else {
        assert(s.subrange(0, k) =~= s);
    }
}

/// Removes the `"` characters that surround a string.
pub fn strip_quotes_of(s: &str) -> (r: String)
    ensures
        r@ == strip_quotes(s@),
{
    let n = s.unicode_len();
    let mut lo: usize = 0;
    while lo < n && s.get_char(lo) == '"'
        invariant
            n == s@.len(),
            lo <= n,
            forall|j: int| 0 <= j < lo ==> s@[j] == '"',
        decreases n - lo,
    {
        lo = lo + 1;
    }
    let mut hi: usize = n;
    while hi > lo && s.get_char(hi - 1) == '"'
        invariant
            n == s@.len(),
            lo <= hi <= n,
            forall|j: int| hi <= j < n ==> s@[j] == '"',
        decreases hi,
    {
        hi = hi - 1;
    }
    let inner = s.substring_char(lo, hi);
    proof {
        let t = s@.subrange(lo as int, n as int);
        lemma_leading_quotes_skipped(s@, lo as int);
        assert(trim_leading_quotes(t) == t);
        assert forall|j: int| hi - lo <= j < t.len() implies t[j] == '"' by {
            assert(t[j] == s@[j + lo]);
        }
        lemma_trailing_quotes_skipped(t, hi - lo);
        let u = t.subrange(0, hi - lo);
        assert(u =~= s@.subrange(lo as int, hi as int));
        assert(trim_trailing_quotes(u) == u);
    }
    String::from_str(inner)
}


/// The document describing one content revision: its identifier and the
/// names of its files, relative to the content root.
#[derive(Clone, Debug)]
pub struct Manifest {
    pub content_id: String,
    pub files: Vec<String>,
}

/// Why a manifest could not be had.
#[derive(Clone, Debug)]
pub enum ManifestError {
    /// The document could not be read or fetched; the reason is attached.
    Unavailable(String),
    /// The text is not a document, or lacks a required field, or its
    /// values break the manifest's rules.
    Malformed,
}

/// The character sequences of a sequence of strings.
pub open spec fn names_view(v: Seq<String>) -> Seq<Seq<char>> {
    v.map_values(|s: String| s@)
}

/// No name occurs twice.
pub open spec fn all_distinct(names: Seq<Seq<char>>) -> bool {
    forall|i: int, j: int| 0 <= i < j < names.len() ==> names[i] != names[j]
}

/// A content identifier and file names that a manifest may hold: the
/// identifier is not empty, and the names are not empty and are distinct
/// (a duplicate name would have two fetches race on one destination).
pub open spec fn valid_listing(content_id: Seq<char>, files: Seq<Seq<char>>) -> bool {
    content_id.len() > 0 && acceptable_names(files)
}

/// File names that are all non-empty and distinct.
pub open spec fn acceptable_names(files: Seq<Seq<char>>) -> bool {
    &&& forall|i: int| 0 <= i < files.len() ==> #[trigger] files[i].len() > 0
    &&& all_distinct(files)
}

/// Every file entry carried a name.
pub open spec fn entries_present(entries: Seq<Option<Seq<char>>>) -> bool {
    forall|i: int| 0 <= i < entries.len() ==> #[trigger] entries[i] is Some
}

/// The names of the file entries, in order, with surrounding quotes removed.
pub open spec fn entry_names(entries: Seq<Option<Seq<char>>>) -> Seq<Seq<char>> {
    entries.map_values(|e: Option<Seq<char>>| strip_quotes(e.unwrap()))
}

/// Whether the fields read from a document make a manifest: the string
/// under `sha`, and the list of the strings under `file` of the entries of
/// `files`.
pub open spec fn fields_make_manifest(
    sha: Option<Seq<char>>,
    entries: Option<Seq<Option<Seq<char>>>>,
) -> bool {
    &&& sha is Some
    &&& entries is Some
    &&& entries_present(entries.unwrap())
    &&& valid_listing(strip_quotes(sha.unwrap()), entry_names(entries.unwrap()))
}

/// The `sha` field of a document, as serde_json reads it.
pub open spec fn document_sha(text: Seq<char>) -> Option<Seq<char>> {
    json_string_member(text, "sha"@)
}

/// The `file` fields of the entries of the `files` list of a document, as
/// serde_json reads them.
pub open spec fn document_entries(text: Seq<char>) -> Option<Seq<Option<Seq<char>>>> {
    json_list_string_members(text, "files"@, "file"@)
}

/// Whether a document's text makes a manifest.
pub open spec fn document_makes_manifest(text: Seq<char>) -> bool {
    fields_make_manifest(document_sha(text), document_entries(text))
}

/// The manifest that a document's text makes, when it makes one: its
/// content identifier and file names.
pub open spec fn document_manifest(m: Manifest, text: Seq<char>) -> bool {
    &&& m.content_id@ == strip_quotes(document_sha(text).unwrap())
    &&& names_view(m.files@) == entry_names(document_entries(text).unwrap())
}

impl Manifest {
    /// The manifest's invariant.
    pub open spec fn wf(&self) -> bool {
        valid_listing(self.content_id@, names_view(self.files@))
    }
}

/// The names of the entries with their quotes removed, or `None` where an
/// entry carries no name.
fn entry_names_of(entries: &Vec<Option<String>>) -> (r: Option<Vec<String>>)
    ensures
        r is Some <==> entries_present(entries_view(entries@)),
        r is Some ==> names_view(r.unwrap()@) == entry_names(entries_view(entries@)),
{
    let mut names: Vec<String> = Vec::new();
    let mut i: usize = 0;
    while i < entries.len()
        invariant
            i <= entries@.len(),
            names@.len() == i,
            forall|k: int| 0 <= k < i ==> #[trigger] entries@[k] is Some,
            forall|k: int| 0 <= k < i ==> #[trigger] names@[k]@ == strip_quotes(entries@[k].unwrap()@),
        decreases entries@.len() - i,
    {
        proof {
            assert(entries_view(entries@)[i as int] == opt_view(entries@[i as int]));
        }
        match &entries[i] {
            Some(n) => names.push(strip_quotes_of(n.as_str())),
            None => return None,
        }
        i = i + 1;
    }
    proof {
        assert(names_view(names@) =~= entry_names(entries_view(entries@)));
        assert forall|k: int| 0 <= k < entries@.len() implies #[trigger] entries_view(
            entries@,
        )[k] is Some by {
            assert(entries_view(entries@)[k] == opt_view(entries@[k]));
        }
    }
    Some(names)
}

/// Whether every name is non-empty and no name occurs twice.
fn names_acceptable(names: &Vec<String>) -> (r: bool)
    ensures
        r == acceptable_names(names_view(names@)),
{
    let ghost v = names_view(names@);
    let mut i: usize = 0;
    while i < names.len()
        invariant
            v == names_view(names@),
            i <= names@.len(),
            forall|k: int| 0 <= k < i ==> #[trigger] v[k].len() > 0,
            forall|a: int, b: int| 0 <= a < b < i ==> v[a] != v[b],
        decreases names@.len() - i,
    {
        if names[i].unicode_len() == 0 {
            assert(v[i as int].len() == 0);
            return false;
        }
        let mut j: usize = 0;
        while j < i
            invariant
                v == names_view(names@),
                j <= i < names@.len(),
                forall|k: int| 0 <= k < j ==> v[k] != v[i as int],
            decreases i - j,
        {
            if names[j] == names[i] {
                assert(v[j as int] == v[i as int]);
                return false;
            }
            j = j + 1;
        }
        i = i + 1;
    }
    true
}

/// Builds a manifest from the fields read from a document: the string under
/// `sha`, and the string under `file` of each entry of `files` (`None` where
/// a field is absent or not a string, or `files` is not a list).
pub fn manifest_from_fields(sha: Option<String>, entries: Option<Vec<Option<String>>>) -> (r: Result<
    Manifest,
    ManifestError,
>)
    ensures
        r is Ok <==> fields_make_manifest(opt_view(sha), list_view(entries)),
        r is Ok ==> r.unwrap().content_id@ == strip_quotes(sha.unwrap()@) && names_view(
            r.unwrap().files@,
        ) == entry_names(list_view(entries).unwrap()) && r.unwrap().wf(),
        r is Err ==> r matches Err(ManifestError::Malformed),
{
    match (sha, entries) {
        (Some(sha), Some(entries)) => {
            let content_id = strip_quotes_of(sha.as_str());
            match entry_names_of(&entries) {
                Some(files) => {
                    if content_id.unicode_len() > 0 && names_acceptable(&files) {
                        Ok(Manifest { content_id, files })
                    } else {
                        Err(ManifestError::Malformed)
                    }
                },
                None => Err(ManifestError::Malformed),
            }
        },
        _ => Err(ManifestError::Malformed),
    }
}


/// Reads a manifest from the text of its document: the string under `sha`
/// and the string under `file` of each entry of the list under `files`,
/// in order, with surrounding quotes removed. Other fields are ignored.
pub fn parse_manifest(text: &str) -> (r: Result<Manifest, ManifestError>)
    ensures
        r is Ok <==> document_makes_manifest(text@),
        r is Ok ==> document_manifest(r.unwrap(), text@) && r.unwrap().wf(),
        r is Err ==> r matches Err(ManifestError::Malformed),
        !json_accepts(text@) ==> r matches Err(ManifestError::Malformed),
{
    let sha = document_string(text, "sha");
    let entries = document_list_strings(text, "files", "file");
    manifest_from_fields(sha, entries)
}

/// Turns the outcome of obtaining a manifest's text into the manifest: a
/// failure to read or fetch it is `Unavailable` with its reason, and text
/// is read by `parse_manifest`.
pub fn resolve_manifest(document: Result<String, String>) -> (r: Result<Manifest, ManifestError>)
    ensures
        document is Err ==> (r matches Err(ManifestError::Unavailable(e)) && e@
            == document->Err_0@),
        document is Ok ==> (r is Ok <==> document_makes_manifest(document->Ok_0@)),
        document is Ok ==> (r is Ok ==> document_manifest(r.unwrap(), document->Ok_0@)
            && r.unwrap().wf()),
        document is Ok ==> (r is Err ==> r matches Err(ManifestError::Malformed)),
        document is Ok && !json_accepts(document->Ok_0@) ==> r matches Err(
            ManifestError::Malformed,
        ),
{
    match document {
        Ok(text) => parse_manifest(text.as_str()),
        Err(e) => Err(ManifestError::Unavailable(e)),
    }
}

} // verus!
