use vstd::prelude::*;

verus! {

/// Whether serde_json accepts a text as one JSON document.
pub uninterp spec fn json_accepts(text: Seq<char>) -> bool;

/// What serde_json reads in a document under a key of its top-level object,
/// where that member is a string; `None` otherwise.
pub uninterp spec fn json_string_member(text: Seq<char>, key: Seq<char>) -> Option<Seq<char>>;

/// What serde_json reads in a document under `list_key` of its top-level
/// object, where that member is a list: for each element in order, its
/// string member under `item_key` (`None` where it has none). `None` where
/// there is no such list.
pub uninterp spec fn json_list_string_members(
    text: Seq<char>,
    list_key: Seq<char>,
    item_key: Seq<char>,
) -> Option<Seq<Option<Seq<char>>>>;

/// The characters of an optional string.
pub open spec fn opt_view(o: Option<String>) -> Option<Seq<char>> {
    match o {
        Some(s) => Some(s@),
        None => None,
    }
}

/// The characters of each optional string of a sequence.
pub open spec fn entries_view(v: Seq<Option<String>>) -> Seq<Option<Seq<char>>> {
    v.map_values(|o: Option<String>| opt_view(o))
}

/// The characters of each optional string of an optional list.
pub open spec fn list_view(o: Option<Vec<Option<String>>>) -> Option<Seq<Option<Seq<char>>>> {
    match o {
        Some(v) => Some(entries_view(v@)),
        None => None,
    }
}

/// Relies on `serde_json::from_str::<Value>`, then `Value::get` with a
/// string key and `Value::as_str`: the string member under a key of the
/// document's top-level object. Text that is not JSON has none.
#[verifier::external_body]
pub(crate) fn document_string(text: &str, key: &str) -> (r: Option<String>)
    ensures
        opt_view(r) == json_string_member(text@, key@),
        !json_accepts(text@) ==> r is None,
{
    let doc: serde_json::Value = serde_json::from_str(text).ok()?;
    doc.get(key).and_then(serde_json::Value::as_str).map(String::from)
}

/// Relies on `serde_json::from_str::<Value>`, then `Value::get`,
/// `Value::as_array` and `Value::as_str`: for each element of the list under
/// `list_key` of the document's top-level object, its string member under
/// `item_key`. Text that is not JSON has no such list.
#[verifier::external_body]
pub(crate) fn document_list_strings(text: &str, list_key: &str, item_key: &str) -> (r: Option<
    Vec<Option<String>>,
>)
    ensures
        list_view(r) == json_list_string_members(text@, list_key@, item_key@),
        !json_accepts(text@) ==> r is None,
{
    let doc: serde_json::Value = serde_json::from_str(text).ok()?;
    let items = doc.get(list_key)?.as_array()?;
    let mut out = Vec::new();
    for item in items {
        out.push(item.get(item_key).and_then(serde_json::Value::as_str).map(String::from));
    }
    Some(out)
}

} // verus!
