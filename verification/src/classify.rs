use vstd::prelude::*;
use crate::json::{JsonValue, json_doc, json_get, json_get_exec, parse_json};
use crate::text::{append_quoted, push_char, spec_quoted};
use crate::{Effect, is_console, is_log, is_update_environment};

verus! {

/// The structured metadata of one variable, as the server pushes it. The
/// record is opaque to this client: every field is carried verbatim.
pub struct VariableInfo {
    pub name: String,
    pub original_input: String,
    pub exp: String,
    pub keyword: String,
    pub import: String,
    pub operation: String,
    pub hoisted: String,
    pub var_type: String,
    pub val: String,
    pub namespace: String,
}

/// A pushed variable map: variable name to its metadata, in received order.
pub struct Server2ClientMsg(pub Vec<(String, VariableInfo)>);

/// Whether the member under `key` exists and is a JSON string.
pub open spec fn is_string_member(v: JsonValue, key: Seq<char>) -> bool {
    json_get(v, key) matches Some(JsonValue::Str(_))
}

/// The text of the string member under `key`; empty where there is none.
pub open spec fn member_string(v: JsonValue, key: Seq<char>) -> Seq<char> {
    match json_get(v, key) {
        Some(JsonValue::Str(s)) => s@,
        _ => Seq::empty(),
    }
}

/// Whether a JSON value matches the `VariableInfo` shape: each of its ten
/// fields present as a string member. Other members are tolerated.
pub open spec fn is_variable_info_json(v: JsonValue) -> bool {
    &&& is_string_member(v, "name"@)
    &&& is_string_member(v, "originalInput"@)
    &&& is_string_member(v, "exp"@)
    &&& is_string_member(v, "keyword"@)
    &&& is_string_member(v, "import"@)
    &&& is_string_member(v, "operation"@)
    &&& is_string_member(v, "hoisted"@)
    &&& is_string_member(v, "type"@)
    &&& is_string_member(v, "val"@)
    &&& is_string_member(v, "namespace"@)
}

/// Whether a JSON value is an object whose every member matches the
/// `VariableInfo` shape.
pub open spec fn is_variable_map_json(v: JsonValue) -> bool {
    &&& v matches JsonValue::Obj(entries)
    &&& forall|i: int|
        0 <= i < entries@.len() ==> is_variable_info_json(#[trigger] (entries@[i]).1)
}

fn member_is_string(v: &JsonValue, key: &str) -> (r: bool)
    ensures
        r == is_string_member(*v, key@),
{
    match json_get_exec(v, key) {
        Some(x) => match x {
            JsonValue::Str(_) => true,
            _ => false,
        },
        None => false,
    }
}

fn check_variable_info(v: &JsonValue) -> (r: bool)
    ensures
        r == is_variable_info_json(*v),
{
    member_is_string(v, "name") && member_is_string(v, "originalInput") && member_is_string(
        v,
        "exp",
    ) && member_is_string(v, "keyword") && member_is_string(v, "import") && member_is_string(
        v,
        "operation",
    ) && member_is_string(v, "hoisted") && member_is_string(v, "type") && member_is_string(v, "val")
        && member_is_string(v, "namespace")
}

/// Whether the frame's JSON matches the variable-map shape: the first decode
/// tier of classification.
pub fn check_variable_map(v: &JsonValue) -> (r: bool)
    ensures
        r == is_variable_map_json(*v),
{
    match v {
        JsonValue::Obj(entries) => {
            let n = entries.len();
            let mut i: usize = 0;
            while i < n
                invariant
                    i <= n,
                    n == entries@.len(),
                    *v matches JsonValue::Obj(e) && e@ == entries@,
                    forall|j: int| 0 <= j < i ==> is_variable_info_json(#[trigger] (entries@[j]).1),
                decreases n - i,
            {
                if !check_variable_info(&entries[i].1) {
                    return false;
                }
                i += 1;
            }
            true
        },
        _ => false,
    }
}

fn get_string_member(v: &JsonValue, key: &str) -> (r: String)
    requires
        is_string_member(*v, key@),
    ensures
        r@ == member_string(*v, key@),
{
    match json_get_exec(v, key) {
        Some(x) => match x {
            JsonValue::Str(s) => s.clone(),
            _ => {
                proof {
                    assert(false);
                }
                String::new()
            },
        },
        None => {
            proof {
                assert(false);
            }
            String::new()
        },
    }
}

/// Whether `info` holds exactly the ten string members of the JSON value `v`.
pub open spec fn variable_info_matches(info: VariableInfo, v: JsonValue) -> bool {
    &&& info.name@ == member_string(v, "name"@)
    &&& info.original_input@ == member_string(v, "originalInput"@)
    &&& info.exp@ == member_string(v, "exp"@)
    &&& info.keyword@ == member_string(v, "keyword"@)
    &&& info.import@ == member_string(v, "import"@)
    &&& info.operation@ == member_string(v, "operation"@)
    &&& info.hoisted@ == member_string(v, "hoisted"@)
    &&& info.var_type@ == member_string(v, "type"@)
    &&& info.val@ == member_string(v, "val"@)
    &&& info.namespace@ == member_string(v, "namespace"@)
}

/// Whether the decoded map `m` carries, entry for entry in order, the members
/// of the JSON object entries `entries`.
pub open spec fn variable_map_matches(
    m: Seq<(String, VariableInfo)>,
    entries: Seq<(String, JsonValue)>,
) -> bool {
    &&& m.len() == entries.len()
    &&& forall|i: int|
        0 <= i < m.len() ==> (#[trigger] (m[i])).0@ == (entries[i]).0@ && variable_info_matches(
            (m[i]).1,
            (entries[i]).1,
        )
}

fn extract_variable_info(v: &JsonValue) -> (r: VariableInfo)
    requires
        is_variable_info_json(*v),
    ensures
        variable_info_matches(r, *v),
{
    VariableInfo {
        name: get_string_member(v, "name"),
        original_input: get_string_member(v, "originalInput"),
        exp: get_string_member(v, "exp"),
        keyword: get_string_member(v, "keyword"),
        import: get_string_member(v, "import"),
        operation: get_string_member(v, "operation"),
        hoisted: get_string_member(v, "hoisted"),
        var_type: get_string_member(v, "type"),
        val: get_string_member(v, "val"),
        namespace: get_string_member(v, "namespace"),
    }
}

/// Decode a JSON object of the variable-map shape into the structured map.
pub fn extract_variable_map(v: &JsonValue) -> (r: Server2ClientMsg)
    requires
        is_variable_map_json(*v),
    ensures
        v matches JsonValue::Obj(entries) ==> variable_map_matches(r.0@, entries@),
{
    match v {
        JsonValue::Obj(entries) => {
            let n = entries.len();
            let mut out: Vec<(String, VariableInfo)> = Vec::new();
            let mut i: usize = 0;
            while i < n
                invariant
                    i <= n,
                    n == entries@.len(),
                    *v matches JsonValue::Obj(e) && e@ == entries@,
                    is_variable_map_json(*v),
                    out@.len() == i,
                    forall|j: int|
                        0 <= j < i ==> (#[trigger] (out@[j])).0@ == (entries@[j]).0@
                            && variable_info_matches((out@[j]).1, (entries@[j]).1),
                decreases n - i,
            {
                let key = entries[i].0.clone();
                let info = extract_variable_info(&entries[i].1);
                out.push((key, info));
                i += 1;
            }
            Server2ClientMsg(out)
        },
        _ => Server2ClientMsg(Vec::new()),
    }
}

/// The canonical JSON text of one decoded record: all ten fields, in the
/// declared order, each a JSON string literal.
pub open spec fn variable_info_text(info: VariableInfo) -> Seq<char> {
    "{\"name\":"@ + spec_quoted(info.name@) + ",\"originalInput\":"@ + spec_quoted(
        info.original_input@,
    ) + ",\"exp\":"@ + spec_quoted(info.exp@) + ",\"keyword\":"@ + spec_quoted(info.keyword@)
        + ",\"import\":"@ + spec_quoted(info.import@) + ",\"operation\":"@ + spec_quoted(
        info.operation@,
    ) + ",\"hoisted\":"@ + spec_quoted(info.hoisted@) + ",\"type\":"@ + spec_quoted(info.var_type@)
        + ",\"val\":"@ + spec_quoted(info.val@) + ",\"namespace\":"@ + spec_quoted(info.namespace@)
        + "}"@
}

pub open spec fn map_entry_text(e: (String, VariableInfo)) -> Seq<char> {
    spec_quoted(e.0@) + seq![':'] + variable_info_text(e.1)
}

pub open spec fn variable_map_body(m: Seq<(String, VariableInfo)>) -> Seq<char>
    decreases m.len(),
{
    if m.len() == 0 {
        Seq::empty()
    } else if m.len() == 1 {
        map_entry_text(m[0])
    } else {
        variable_map_body(m.drop_last()) + seq![','] + map_entry_text(m.last())
    }
}

/// The canonical JSON text of a whole decoded map.
pub open spec fn variable_map_text(m: Seq<(String, VariableInfo)>) -> Seq<char> {
    seq!['{'] + variable_map_body(m) + seq!['}']
}

fn append_variable_info(out: &mut String, info: &VariableInfo)
    ensures
        final(out)@ == old(out)@ + variable_info_text(*info),
{
    let ghost pre = out@;
    out.append("{\"name\":");
    append_quoted(out, info.name.as_str());
    out.append(",\"originalInput\":");
    append_quoted(out, info.original_input.as_str());
    out.append(",\"exp\":");
    append_quoted(out, info.exp.as_str());
    out.append(",\"keyword\":");
    append_quoted(out, info.keyword.as_str());
    out.append(",\"import\":");
    append_quoted(out, info.import.as_str());
    out.append(",\"operation\":");
    append_quoted(out, info.operation.as_str());
    out.append(",\"hoisted\":");
    append_quoted(out, info.hoisted.as_str());
    out.append(",\"type\":");
    append_quoted(out, info.var_type.as_str());
    out.append(",\"val\":");
    append_quoted(out, info.val.as_str());
    out.append(",\"namespace\":");
    append_quoted(out, info.namespace.as_str());
    out.append("}");
    proof {
        assert(out@ =~= pre + variable_info_text(*info));
    }
}

/// The canonical re-serialization of a decoded map, forwarded to the
/// environment-update hook.
pub fn serialize_variable_map(msg: &Server2ClientMsg) -> (r: String)
    ensures
        r@ == variable_map_text(msg.0@),
{
    let mut out = String::new();
    push_char(&mut out, '{');
    let n = msg.0.len();
    let mut i: usize = 0;
    while i < n
        invariant
            i <= n,
            n == msg.0@.len(),
            out@ == seq!['{'] + variable_map_body(msg.0@.subrange(0, i as int)),
        decreases n - i,
    {
        if i > 0 {
            push_char(&mut out, ',');
        }
        append_quoted(&mut out, msg.0[i].0.as_str());
        push_char(&mut out, ':');
        append_variable_info(&mut out, &msg.0[i].1);
        proof {
            let t = msg.0@.subrange(0, i + 1);
            assert(t.drop_last() =~= msg.0@.subrange(0, i as int));
            assert(t.last() == msg.0@[i as int]);
            assert(t[0] == msg.0@[0]);
            assert(out@ =~= seq!['{'] + variable_map_body(t));
        }
        i += 1;
    }
    push_char(&mut out, '}');
    proof {
        assert(msg.0@.subrange(0, n as int) =~= msg.0@);
        assert(out@ =~= variable_map_text(msg.0@));
    }
    out
}

/// The canonical JSON text of a record, read off the JSON value itself.
pub open spec fn info_text_of(v: JsonValue) -> Seq<char> {
    "{\"name\":"@ + spec_quoted(member_string(v, "name"@)) + ",\"originalInput\":"@ + spec_quoted(
        member_string(v, "originalInput"@),
    ) + ",\"exp\":"@ + spec_quoted(member_string(v, "exp"@)) + ",\"keyword\":"@ + spec_quoted(
        member_string(v, "keyword"@),
    ) + ",\"import\":"@ + spec_quoted(member_string(v, "import"@)) + ",\"operation\":"@
        + spec_quoted(member_string(v, "operation"@)) + ",\"hoisted\":"@ + spec_quoted(
        member_string(v, "hoisted"@),
    ) + ",\"type\":"@ + spec_quoted(member_string(v, "type"@)) + ",\"val\":"@ + spec_quoted(
        member_string(v, "val"@),
    ) + ",\"namespace\":"@ + spec_quoted(member_string(v, "namespace"@)) + "}"@
}

pub open spec fn map_body_of(entries: Seq<(String, JsonValue)>) -> Seq<char>
    decreases entries.len(),
{
    if entries.len() == 0 {
        Seq::empty()
    } else if entries.len() == 1 {
        spec_quoted((entries[0]).0@) + seq![':'] + info_text_of((entries[0]).1)
    } else {
        map_body_of(entries.drop_last()) + seq![','] + spec_quoted(entries.last().0@) + seq![':']
            + info_text_of(entries.last().1)
    }
}

/// The canonical re-serialization of a variable-map JSON value, read off the
/// value itself.
pub open spec fn map_text_of(v: JsonValue) -> Seq<char> {
    match v {
        JsonValue::Obj(entries) => seq!['{'] + map_body_of(entries@) + seq!['}'],
        _ => Seq::empty(),
    }
}

proof fn lemma_map_body_agrees(m: Seq<(String, VariableInfo)>, entries: Seq<(String, JsonValue)>)
    requires
        variable_map_matches(m, entries),
    ensures
        variable_map_body(m) == map_body_of(entries),
    decreases m.len(),
{
    if m.len() > 1 {
        assert(variable_map_matches(m.drop_last(), entries.drop_last()));
        lemma_map_body_agrees(m.drop_last(), entries.drop_last());
    }
}

/// One inbound text frame, decoded: the three payload shapes, tried in order.
pub enum InboundEnvelope {
    VariableMap(Server2ClientMsg),
    RawJson(String),
    PlainText(String),
}

/// The first decode tier: the frame is valid JSON of the variable-map shape.
pub open spec fn classifies_as_variable_map(f: Seq<char>) -> bool {
    json_doc(f) matches Some(v) && is_variable_map_json(v)
}

/// The second decode tier: valid JSON of any other shape.
pub open spec fn classifies_as_raw_json(f: Seq<char>) -> bool {
    json_doc(f) matches Some(v) && !is_variable_map_json(v)
}

/// The last decode tier: not valid JSON at all.
pub open spec fn classifies_as_plain_text(f: Seq<char>) -> bool {
    json_doc(f) is None
}

/// Classify one inbound text frame. Decoding is tried in strict order:
/// the variable-map shape first, then any valid JSON, then plain text.
/// A shape mismatch is no error: it falls through to the next tier.
pub fn classify(frame: &str) -> (r: InboundEnvelope)
    ensures
        r is VariableMap <==> classifies_as_variable_map(frame@),
        r is RawJson <==> classifies_as_raw_json(frame@),
        r is PlainText <==> classifies_as_plain_text(frame@),
        r matches InboundEnvelope::VariableMap(m) ==> (json_doc(frame@) matches Some(v)
            && v matches JsonValue::Obj(entries) && variable_map_matches(m.0@, entries@)),
        r matches InboundEnvelope::RawJson(s) ==> s@ == frame@,
        r matches InboundEnvelope::PlainText(s) ==> s@ == frame@,
{
    match parse_json(frame) {
        Some(v) => {
            if check_variable_map(&v) {
                InboundEnvelope::VariableMap(extract_variable_map(&v))
            } else {
                InboundEnvelope::RawJson(String::from_str(frame))
            }
        },
        None => InboundEnvelope::PlainText(String::from_str(frame)),
    }
}

/// Classification is total and deterministic: every frame falls in exactly
/// one of the three decode tiers, a function of the frame's text alone.
pub proof fn lemma_classification_total(f: Seq<char>)
    ensures
        classifies_as_variable_map(f) || classifies_as_raw_json(f) || classifies_as_plain_text(f),
        !(classifies_as_variable_map(f) && classifies_as_raw_json(f)),
        !(classifies_as_variable_map(f) && classifies_as_plain_text(f)),
        !(classifies_as_raw_json(f) && classifies_as_plain_text(f)),
{
}

/// Handle one inbound text frame, as the socket's message handler does: log
/// the raw text, then forward the decoded (or re-serialized canonical JSON)
/// representation once to the environment-update hook, or the raw text to the
/// console when it is not JSON.
pub fn handle_frame(frame: &str) -> (efx: Vec<Effect>)
    ensures
        efx@.len() == 2,
        is_log(efx@[0], "Raw message received: "@ + frame@),
        json_doc(frame@) matches Some(v) ==> (is_variable_map_json(v) ==> is_update_environment(
            efx@[1],
            map_text_of(v),
        )),
        classifies_as_raw_json(frame@) ==> is_update_environment(efx@[1], frame@),
        classifies_as_plain_text(frame@) ==> is_console(efx@[1], frame@),
{
    let mut efx: Vec<Effect> = Vec::new();
    let mut log = String::from_str("Raw message received: ");
    log.append(frame);
    efx.push(Effect::Log(log));
    match classify(frame) {
        InboundEnvelope::VariableMap(m) => {
            let s = serialize_variable_map(&m);
            proof {
                match json_doc(frame@) {
                    Some(v) => match v {
                        JsonValue::Obj(entries) => {
                            lemma_map_body_agrees(m.0@, entries@);
                            assert(s@ =~= map_text_of(v));
                        },
                        _ => {},
                    },
                    None => {},
                }
            }
            efx.push(Effect::UpdateEnvironment(s));
        },
        InboundEnvelope::RawJson(s) => {
            efx.push(Effect::UpdateEnvironment(s));
        },
        InboundEnvelope::PlainText(s) => {
            efx.push(Effect::Console(s));
        },
    }
    efx
}

} // verus!
