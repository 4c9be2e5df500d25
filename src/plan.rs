use vstd::prelude::*;

verus! {

/// Where one file is fetched from and where it is written.
#[derive(Clone, Debug)]
pub struct FetchPlan {
    pub url: String,
    pub path: String,
}

/// The source URL of a file: `base + content_id + "/" + name`.
pub open spec fn plan_url(base_url: Seq<char>, content_id: Seq<char>, name: Seq<char>) -> Seq<char> {
    base_url + plan_path(content_id, name)
}

/// The destination of a file, relative to the destination root: `content_id + "/" + name`.
pub open spec fn plan_path(content_id: Seq<char>, name: Seq<char>) -> Seq<char> {
    content_id + seq!['/'] + name
}

/// Derives the fetch URL and the destination path of one file.
pub fn plan(base_url: &str, content_id: &str, name: &str) -> (r: FetchPlan)
    ensures
        r.url@ == plan_url(base_url@, content_id@, name@),
        r.path@ == plan_path(content_id@, name@),
{
    let mut path = String::from_str(content_id);
    path.append("/");
    path.append(name);
    let mut url = String::from_str(base_url);
    url.append(path.as_str());
    proof {
        reveal_strlit("/");
    }
    FetchPlan { url, path }
}

/// Planning is a function of its inputs alone: equal inputs give an equal
/// URL and an equal destination path.
pub proof fn lemma_plan_deterministic(
    base_a: Seq<char>,
    content_a: Seq<char>,
    name_a: Seq<char>,
    base_b: Seq<char>,
    content_b: Seq<char>,
    name_b: Seq<char>,
)
    requires
        base_a == base_b,
        content_a == content_b,
        name_a == name_b,
    ensures
        plan_url(base_a, content_a, name_a) == plan_url(base_b, content_b, name_b),
        plan_path(content_a, name_a) == plan_path(content_b, name_b),
{
}

/// Within one content revision, distinct file names get distinct
/// destination paths, so no two fetches of a run write the same file.
pub proof fn lemma_distinct_names_distinct_paths(content_id: Seq<char>, a: Seq<char>, b: Seq<char>)
    requires
        a != b,
    ensures
        plan_path(content_id, a) != plan_path(content_id, b),
{
    let k: int = content_id.len() + 1int;
    let pa = plan_path(content_id, a);
    let pb = plan_path(content_id, b);
    assert(pa.subrange(k, pa.len() as int) =~= a);
    assert(pb.subrange(k, pb.len() as int) =~= b);
}

} // verus!
