use vstd::prelude::*;
use crate::text::{append_quoted, push_char, spec_quoted};

verus! {

broadcast use vstd::std_specs::vec::axiom_vec_index_decreases;

/// A JSON document, as the library holds it: a number is carried as its
/// canonical text, an object as its entries in order, keys unique.
pub enum JsonValue {
    Null,
    Bool(bool),
    Num(String),
    Str(String),
    Arr(Vec<JsonValue>),
    Obj(Vec<(String, JsonValue)>),
}

/// The canonical text of a JSON document: no spaces, entries in held order.
pub open spec fn render(v: JsonValue) -> Seq<char>
    decreases v, 0int, 0int,
{
    match v {
        JsonValue::Null => "null"@,
        JsonValue::Bool(b) => if b {
            "true"@
        } else {
            "false"@
        },
        JsonValue::Num(t) => t@,
        JsonValue::Str(s) => spec_quoted(s@),
        JsonValue::Arr(items) => seq!['['] + render_items(items, 0) + seq![']'],
        JsonValue::Obj(entries) => seq!['{'] + render_entries(entries, 0) + seq!['}'],
    }
}

/// The items of an array from index `i` on, comma separated.
pub open spec fn render_items(items: Vec<JsonValue>, i: int) -> Seq<char>
    decreases items, 1int, items.len() - i,
{
    if i < 0 || i >= items.len() {
        Seq::empty()
    } else if i + 1 < items.len() {
        render(items[i]) + seq![','] + render_items(items, i + 1)
    } else {
        render(items[i])
    }
}

/// The entries of an object from index `i` on, `"key":value`, comma separated.
pub open spec fn render_entries(entries: Vec<(String, JsonValue)>, i: int) -> Seq<char>
    decreases entries, 1int, entries.len() - i,
{
    if i < 0 || i >= entries.len() {
        Seq::empty()
    } else if i + 1 < entries.len() {
        spec_quoted(entries[i].0@) + seq![':'] + render(entries[i].1) + seq![','] + render_entries(
            entries,
            i + 1,
        )
    } else {
        spec_quoted(entries[i].0@) + seq![':'] + render(entries[i].1)
    }
}

/// Append the canonical text of `v` to `out`.
pub fn append_json(out: &mut String, v: &JsonValue)
    ensures
        final(out)@ == old(out)@ + render(*v),
    decreases *v, 0int, 0int,
{
    let ghost pre = out@;
    match v {
        JsonValue::Null => {
            out.append("null");
        },
        JsonValue::Bool(b) => {
            if *b {
                out.append("true");
            } else {
                out.append("false");
            }
        },
        JsonValue::Num(t) => {
            out.append(t.as_str());
        },
        JsonValue::Str(s) => {
            append_quoted(out, s.as_str());
        },
        JsonValue::Arr(items) => {
            push_char(out, '[');
            append_items(out, items, 0);
            push_char(out, ']');
            proof {
                assert(out@ =~= pre + render(*v));
            }
        },
        JsonValue::Obj(entries) => {
            push_char(out, '{');
            append_entries(out, entries, 0);
            push_char(out, '}');
            proof {
                assert(out@ =~= pre + render(*v));
            }
        },
    }
}

fn append_items(out: &mut String, items: &Vec<JsonValue>, i: usize)
    ensures
        final(out)@ == old(out)@ + render_items(*items, i as int),
    decreases *items, 1int, items@.len() - i,
{
    let ghost pre = out@;
    if i < items.len() {
        append_json(out, &items[i]);
        if i + 1 < items.len() {
            push_char(out, ',');
            append_items(out, items, i + 1);
            proof {
                assert(out@ =~= pre + render_items(*items, i as int));
            }
        }
    }
}

fn append_entries(out: &mut String, entries: &Vec<(String, JsonValue)>, i: usize)
    ensures
        final(out)@ == old(out)@ + render_entries(*entries, i as int),
    decreases *entries, 1int, entries@.len() - i,
{
    let ghost pre = out@;
    if i < entries.len() {
        append_quoted(out, entries[i].0.as_str());
        push_char(out, ':');
        append_json(out, &entries[i].1);
        if i + 1 < entries.len() {
            push_char(out, ',');
            append_entries(out, entries, i + 1);
        }
        proof {
            assert(out@ =~= pre + render_entries(*entries, i as int));
        }
    }
}

/// The canonical text of `v` as a fresh string.
pub fn render_json(v: &JsonValue) -> (r: String)
    ensures
        r@ == render(*v),
{
    let mut out = String::new();
    append_json(&mut out, v);
    out
}

#[verifier::external_type_specification]
#[verifier::external_body]
pub struct ExValue(serde_json::Value);

/// What serde_json's parser yields for a text, carried over into the
/// library's own JSON type: `Some` exactly for valid JSON, `None` otherwise.
pub uninterp spec fn json_doc(s: Seq<char>) -> Option<JsonValue>;

/// Relies on serde_json::from_str::<serde_json::Value>: `Ok` exactly when the
/// text is valid JSON, and then the parsed document; the result depends on
/// the text alone.
#[verifier::external_body]
pub fn parse_json(s: &str) -> (r: Option<JsonValue>)
    ensures
        r == json_doc(s@),
{
    serde_json::from_str::<serde_json::Value>(s).ok().map(|v| from_value(&v))
}

/// Relies on serde_json::Value: one arm per variant of the parsed tree,
/// moving each field into the library's own JSON type; a number is carried
/// as its canonical text, an object's entries in the held (sorted) order.
#[verifier::external_body]
fn from_value(v: &serde_json::Value) -> JsonValue {
    match v {
        serde_json::Value::Null => JsonValue::Null,
        serde_json::Value::Bool(b) => JsonValue::Bool(*b),
        serde_json::Value::Number(n) => JsonValue::Num(n.to_string()),
        serde_json::Value::String(s) => JsonValue::Str(s.clone()),
        serde_json::Value::Array(a) => JsonValue::Arr(a.iter().map(from_value).collect()),
        serde_json::Value::Object(m) => JsonValue::Obj(
            m.iter().map(|(k, x)| (k.clone(), from_value(x))).collect(),
        ),
    }
}

/// The first entry of `entries` under `key`, if any.
pub open spec fn lookup_entries(entries: Seq<(String, JsonValue)>, key: Seq<char>) -> Option<
    JsonValue,
>
    decreases entries.len(),
{
    if entries.len() == 0 {
        None
    } else if entries[0].0@ == key {
        Some(entries[0].1)
    } else {
        lookup_entries(entries.drop_first(), key)
    }
}

/// What looking a key up in a JSON document yields: an object is searched,
/// anything else has no members.
pub open spec fn json_get(v: JsonValue, key: Seq<char>) -> Option<JsonValue> {
    match v {
        JsonValue::Obj(entries) => lookup_entries(entries@, key),
        _ => None,
    }
}

/// Look `key` up in `v`, as member access on a JSON document does.
pub fn json_get_exec<'a>(v: &'a JsonValue, key: &str) -> (r: Option<&'a JsonValue>)
    ensures
        r matches Some(x) ==> json_get(*v, key@) == Some(*x),
        r is None ==> json_get(*v, key@) is None,
{
    match v {
        JsonValue::Obj(entries) => {
            let n = entries.len();
            let mut i: usize = 0;
            proof {
                assert(entries@.skip(0) =~= entries@);
                assert(json_get(*v, key@) == lookup_entries(entries@, key@));
            }
            while i < n
                invariant
                    i <= n,
                    n == entries@.len(),
                    json_get(*v, key@) == lookup_entries(entries@, key@),
                    lookup_entries(entries@.skip(i as int), key@) == lookup_entries(
                        entries@,
                        key@,
                    ),
                decreases n - i,
            {
                proof {
                    assert(entries@.skip(i as int)[0] == entries@[i as int]);
                }
                if crate::text::str_eq(entries[i].0.as_str(), key) {
                    proof {
                        assert(lookup_entries(entries@.skip(i as int), key@) == Some(
                            entries@[i as int].1,
                        ));
                    }
                    return Some(&entries[i].1);
                }
                proof {
                    assert(entries@.skip(i as int).drop_first() =~= entries@.skip(i + 1));
                }
                i += 1;
            }
            proof {
                assert(entries@.skip(n as int) =~= Seq::<(String, JsonValue)>::empty());
            }
            None
        },
        _ => None,
    }
}

} // verus!
