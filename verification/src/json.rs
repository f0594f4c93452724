use vstd::prelude::*;

verus! {

/// A JSON document, holding what the registry protocol reads of one: strings,
/// arrays and objects are inspected; numbers are carried as their rendered
/// text, since no command reads a numeric value.
#[derive(Debug, PartialEq, Eq)]
pub enum JsonValue {
    Null,
    Bool(bool),
    Number(String),
    Str(String),
    Array(Vec<JsonValue>),
    Object(Vec<(String, JsonValue)>),
}

/// The document a piece of text parses to, if it is valid JSON; a fixed
/// function of the text alone.
pub uninterp spec fn json_of(s: Seq<char>) -> Option<JsonValue>;

#[verifier::external_type_specification]
#[verifier::external_body]
pub struct ExValue(serde_json::Value);

/// Mirror of a parsed serde_json value, variant by variant; numbers keep
/// their rendered text.
#[verifier::external_body]
fn value_to_json(v: &serde_json::Value) -> JsonValue {
    match v {
        serde_json::Value::Null => JsonValue::Null,
        serde_json::Value::Bool(b) => JsonValue::Bool(*b),
        serde_json::Value::Number(n) => JsonValue::Number(n.to_string()),
        serde_json::Value::String(s) => JsonValue::Str(s.clone()),
        serde_json::Value::Array(a) => JsonValue::Array(a.iter().map(value_to_json).collect()),
        serde_json::Value::Object(o) => JsonValue::Object(
            o.iter().map(|(k, w)| (k.clone(), value_to_json(w))).collect(),
        ),
    }
}

/// Relies on serde_json::from_str: whether a body parses, and to which
/// document, depends on the text alone.
#[verifier::external_body]
pub(crate) fn parse_document(body: &str) -> (r: Option<JsonValue>)
    ensures
        r == json_of(body@),
{
    match serde_json::from_str::<serde_json::Value>(body) {
        Ok(v) => Some(value_to_json(&v)),
        Err(_) => None,
    }
}

/// The first value stored under `key` among an object's entries.
pub open spec fn spec_lookup(entries: Seq<(String, JsonValue)>, key: Seq<char>) -> Option<
    JsonValue,
>
    decreases entries.len(),
{
    if entries.len() == 0 {
        None
    } else if entries[0].0@ == key {
        Some(entries[0].1)
    } else {
        spec_lookup(entries.skip(1), key)
    }
}

/// Skipping entries whose keys all differ from `key` does not change what the
/// lookup finds.
proof fn lemma_lookup_skip(entries: Seq<(String, JsonValue)>, key: Seq<char>, i: int)
    requires
        0 <= i <= entries.len(),
        forall|j: int| 0 <= j < i ==> entries[j].0@ != key,
    ensures
        spec_lookup(entries, key) == spec_lookup(entries.skip(i), key),
    decreases i,
{
    if i == 0 {
        assert(entries.skip(0) =~= entries);
    } else {
        lemma_lookup_skip(entries, key, i - 1);
        let tail = entries.skip(i - 1);
        assert(tail.len() > 0);
        assert(tail[0] == entries[i - 1]);
        assert(tail[0].0@ != key);
        assert(spec_lookup(tail, key) == spec_lookup(tail.skip(1), key));
        assert(tail.skip(1) =~= entries.skip(i));
    }
}

/// Finds the first value stored under `key` in an object's entries.
pub fn lookup_field<'a>(entries: &'a Vec<(String, JsonValue)>, key: &str) -> (r: Option<
    &'a JsonValue,
>)
    ensures
        (match r {
            Some(v) => spec_lookup(entries@, key@) == Some(*v),
            None => spec_lookup(entries@, key@) is None,
        }),
{
    let key_owned: String = key.to_owned();
    let n = entries.len();
    let mut i: usize = 0;
    while i < n
        invariant
            i <= n,
            n == entries@.len(),
            key_owned@ == key@,
            forall|j: int| 0 <= j < i ==> entries@[j].0@ != key@,
        decreases n - i,
    {
        if entries[i].0 == key_owned {
            proof {
                lemma_lookup_skip(entries@, key@, i as int);
                assert(entries@.skip(i as int)[0] == entries@[i as int]);
            }
            return Some(&entries[i].1);
        }
        i += 1;
    }
    proof {
        lemma_lookup_skip(entries@, key@, n as int);
        assert(entries@.skip(n as int).len() == 0);
    }
    None
}

/// Whether every element of a JSON array is a string.
pub open spec fn spec_all_strings(items: Seq<JsonValue>) -> bool {
    forall|j: int| 0 <= j < items.len() ==> items[j] is Str
}

/// The characters of one JSON string element; other shapes read as empty.
pub open spec fn spec_str_view(v: JsonValue) -> Seq<char> {
    match v {
        JsonValue::Str(s) => s@,
        _ => Seq::empty(),
    }
}

/// The character sequences of a JSON array of strings, in order.
pub open spec fn spec_string_views(items: Seq<JsonValue>) -> Seq<Seq<char>> {
    items.map_values(|v: JsonValue| spec_str_view(v))
}

/// Collects the strings of a JSON array; nothing comes back unless every
/// element is a string.
pub fn string_items(items: &Vec<JsonValue>) -> (r: Option<Vec<String>>)
    ensures
        (match r {
            Some(v) => spec_all_strings(items@) && v.deep_view() == spec_string_views(items@),
            None => !spec_all_strings(items@),
        }),
{
    let mut out: Vec<String> = Vec::new();
    let n = items.len();
    let mut i: usize = 0;
    while i < n
        invariant
            i <= n,
            n == items@.len(),
            out@.len() == i,
            forall|j: int| 0 <= j < i ==> items@[j] is Str,
            forall|j: int| 0 <= j < i ==> out@[j]@ == spec_str_view(items@[j]),
        decreases n - i,
    {
        match &items[i] {
            JsonValue::Str(s) => {
                out.push(s.clone());
            },
            _ => {
                return None;
            },
        }
        i += 1;
    }
    proof {
        assert forall|j: int| 0 <= j < n implies out.deep_view()[j] == spec_string_views(
            items@,
        )[j] by {
            assert(out.deep_view()[j] == out@[j]@);
            assert(spec_string_views(items@)[j] == spec_str_view(items@[j]));
        }
        assert(out.deep_view() =~= spec_string_views(items@));
    }
    Some(out)
}

/// The strings under an object field that holds an array of strings, if the
/// document has that shape.
pub open spec fn spec_string_array(doc: JsonValue, key: Seq<char>) -> Option<Seq<Seq<char>>> {
    match doc {
        JsonValue::Object(entries) => match spec_lookup(entries@, key) {
            Some(JsonValue::Array(items)) => if spec_all_strings(items@) {
                Some(spec_string_views(items@))
            } else {
                None
            },
            _ => None,
        },
        _ => None,
    }
}

/// Extracts the array of strings stored under `key` of a JSON object.
pub fn extract_string_array(doc: &JsonValue, key: &str) -> (r: Option<Vec<String>>)
    ensures
        (match r {
            Some(v) => spec_string_array(*doc, key@) matches Some(xs) && v.deep_view() == xs,
            None => spec_string_array(*doc, key@) is None,
        }),
{
    match doc {
        JsonValue::Object(entries) => match lookup_field(entries, key) {
            Some(JsonValue::Array(items)) => string_items(items),
            _ => None,
        },
        _ => None,
    }
}

/// The `config.digest` string of a manifest document, if the document has
/// that shape.
pub open spec fn spec_digest_of_manifest(doc: JsonValue) -> Option<Seq<char>> {
    match doc {
        JsonValue::Object(entries) => match spec_lookup(entries@, "config"@) {
            Some(JsonValue::Object(config_entries)) => match spec_lookup(
                config_entries@,
                "digest"@,
            ) {
                Some(JsonValue::Str(s)) => Some(s@),
                _ => None,
            },
            _ => None,
        },
        _ => None,
    }
}

/// Extracts the `config.digest` string of a manifest document.
pub fn extract_manifest_digest(doc: &JsonValue) -> (r: Option<String>)
    ensures
        (match r {
            Some(s) => spec_digest_of_manifest(*doc) == Some(s@),
            None => spec_digest_of_manifest(*doc) is None,
        }),
{
    match doc {
        JsonValue::Object(entries) => match lookup_field(entries, "config") {
            Some(JsonValue::Object(config_entries)) => match lookup_field(
                config_entries,
                "digest",
            ) {
                Some(JsonValue::Str(s)) => Some(s.clone()),
                _ => None,
            },
            _ => None,
        },
        _ => None,
    }
}

} // verus!
