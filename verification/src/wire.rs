//! The JSON text boundary: rendering the codec's flat objects to JSON text
//! and reading them back, through serde_json. The verified code works over a
//! ghost model of serde_json values (`ValueRep`); each call into serde_json
//! stands behind a small trusted wrapper whose contract states what that
//! crate's source shows, and everything around the calls — classifying
//! entries, staging the flat object, batching — is verified.

use vstd::prelude::*;

use crate::assoc::lemma_assoc_get_no_match;
use crate::ai_message::AiMessage;
use crate::base_message::FieldsView;
use crate::chat_message::ChatMessage;
use crate::chat_message::ChatView;
use crate::codec::decode_chat;
use crate::codec::decode_message;
use crate::codec::decode_tool_standalone;
use crate::codec::decode_variant;
use crate::codec::encode_chat;
use crate::codec::encode_envelope;
use crate::codec::encode_message;
use crate::codec::encode_tool_standalone;
use crate::human_message::HumanMessage;
use crate::message_type::MessageType;
use crate::system_message::SystemMessage;
use crate::tool_message::ToolMessage;
use crate::tool_message::ToolView;
use crate::json::tables_distinct;
use crate::json::JsonObject;
use crate::json::JsonValue;
use crate::json::JsonValueView;
use crate::message_enum::msgs_view;
use crate::message_enum::MessageEnum;
use crate::message_enum::MessageView;
use crate::message_type::str_eq;
use crate::message_type::InvalidMessageTypeError;
use crate::string_map::StringMap;

verus! {

/// The ghost model of a serde_json value: the shapes the wire format reads
/// and writes, lists for message batches, and `Other` for everything the
/// format has no use for (numbers, nested structures).
#[verifier::ext_equal]
pub enum ValueRep {
    Text(Seq<char>),
    Flag(bool),
    Object(Seq<(Seq<char>, ValueRep)>),
    List(Seq<ValueRep>),
    Null,
    Other,
}

/// What a `serde_json::Value` holds, as a `ValueRep`.
pub uninterp spec fn value_rep(v: serde_json::Value) -> ValueRep;

/// What a `serde_json::Map` holds: its entries in iteration order, which
/// with this build of serde_json is insertion order.
pub uninterp spec fn map_rep(m: serde_json::Map<String, serde_json::Value>) -> Seq<
    (Seq<char>, ValueRep),
>;

/// What `serde_json::to_string` makes of a value of the wire format's
/// renderable shapes, which determine the value completely.
pub uninterp spec fn rendered(rep: ValueRep) -> Seq<char>;

/// What `serde_json::from_str::<Value>` makes of a text: nothing where the
/// text is not JSON, else the parsed value's model.
pub uninterp spec fn parsed_json(s: Seq<char>) -> Option<ValueRep>;

#[verifier::external_type_specification]
#[verifier::external_body]
pub struct ExValue(serde_json::Value);

#[verifier::external_type_specification]
#[verifier::external_body]
#[verifier::reject_recursive_types(K)]
#[verifier::reject_recursive_types(V)]
pub struct ExJsonMap<K, V>(serde_json::Map<K, V>);

/// Relies on serde_json::Map::new: a fresh map holds nothing.
#[verifier::external_body]
fn new_json_map() -> (r: serde_json::Map<String, serde_json::Value>)
    ensures
        map_rep(r) == Seq::<(Seq<char>, ValueRep)>::empty(),
{
    serde_json::Map::new()
}

/// Relies on serde_json::Map::insert, which with the preserve_order build
/// appends an absent key at the end of the iteration order.
#[verifier::external_body]
fn json_map_insert(
    m: &mut serde_json::Map<String, serde_json::Value>,
    k: String,
    v: serde_json::Value,
)
    requires
        forall|i: int| 0 <= i < map_rep(*old(m)).len() ==> map_rep(*old(m))[i].0 != k@,
    ensures
        map_rep(*final (m)) == map_rep(*old(m)).push((k@, value_rep(v))),
{
    m.insert(k, v);
}

/// Relies on serde_json::Value::String holding exactly the given text.
#[verifier::external_body]
fn text_value(s: String) -> (r: serde_json::Value)
    ensures
        value_rep(r) == ValueRep::Text(s@),
{
    serde_json::Value::String(s)
}

/// Relies on serde_json::Value::Bool holding exactly the given flag.
#[verifier::external_body]
fn bool_value(b: bool) -> (r: serde_json::Value)
    ensures
        value_rep(r) == ValueRep::Flag(b),
{
    serde_json::Value::Bool(b)
}

/// Relies on serde_json::Value::Null.
#[verifier::external_body]
fn null_value() -> (r: serde_json::Value)
    ensures
        value_rep(r) == ValueRep::Null,
{
    serde_json::Value::Null
}

/// Relies on serde_json::Value::Object holding exactly the given map.
#[verifier::external_body]
fn object_value(m: serde_json::Map<String, serde_json::Value>) -> (r: serde_json::Value)
    ensures
        value_rep(r) == ValueRep::Object(map_rep(m)),
{
    serde_json::Value::Object(m)
}

/// Relies on serde_json::Value::Array holding exactly the given items.
#[verifier::external_body]
fn array_value(items: Vec<serde_json::Value>) -> (r: serde_json::Value)
    ensures
        value_rep(r) is List,
        value_rep(r) matches ValueRep::List(reps) ==> reps.len() == items@.len() && (forall|i: int|
            0 <= i < items@.len() ==> reps[i] == value_rep(items@[i])),
{
    serde_json::Value::Array(items)
}

/// Relies on serde_json::Value::as_str: the text of a string value, and of
/// nothing else.
#[verifier::external_body]
fn value_as_str(v: &serde_json::Value) -> (r: Option<&str>)
    ensures
        r matches Some(s) ==> value_rep(*v) == ValueRep::Text(s@),
        r is None ==> !(value_rep(*v) is Text),
{
    v.as_str()
}

/// Relies on serde_json::Value::as_bool: the flag of a boolean value, and of
/// nothing else.
#[verifier::external_body]
fn value_as_bool(v: &serde_json::Value) -> (r: Option<bool>)
    ensures
        r matches Some(b) ==> value_rep(*v) == ValueRep::Flag(b),
        r is None ==> !(value_rep(*v) is Flag),
{
    v.as_bool()
}

/// Relies on serde_json::Value::is_null.
#[verifier::external_body]
fn value_is_null(v: &serde_json::Value) -> (r: bool)
    ensures
        r == (value_rep(*v) is Null),
{
    v.is_null()
}

/// Relies on serde_json::Value::as_object: the map of an object value, and
/// of nothing else.
#[verifier::external_body]
fn value_as_object(v: &serde_json::Value) -> (r: Option<
    &serde_json::Map<String, serde_json::Value>,
>)
    ensures
        r matches Some(m) ==> value_rep(*v) == ValueRep::Object(map_rep(*m)),
        r is None ==> !(value_rep(*v) is Object),
{
    v.as_object()
}

/// Relies on serde_json::Value::as_array: the items of an array value, and
/// of nothing else.
#[verifier::external_body]
fn value_as_array(v: &serde_json::Value) -> (r: Option<&Vec<serde_json::Value>>)
    ensures
        r matches Some(a) ==> (value_rep(*v) matches ValueRep::List(reps) && reps.len()
            == a@.len() && (forall|i: int| 0 <= i < a@.len() ==> reps[i] == value_rep(a@[i]))),
        r is None ==> !(value_rep(*v) is List),
{
    v.as_array()
}

/// Relies on serde_json::Map::iter visiting each entry once, in order; keys
/// of a map are unique.
#[verifier::external_body]
fn map_entries(m: &serde_json::Map<String, serde_json::Value>) -> (r: Vec<
    (String, serde_json::Value),
>)
    ensures
        r@.len() == map_rep(*m).len(),
        forall|i: int|
            0 <= i < r@.len() ==> r@[i].0@ == map_rep(*m)[i].0 && value_rep(#[trigger] r@[i].1)
                == map_rep(*m)[i].1,
        forall|i: int, j: int| 0 <= i < j < r@.len() ==> r@[i].0@ != r@[j].0@,
{
    m.iter().map(|(k, v)| (k.clone(), v.clone())).collect()
}

/// A value of a renderable shape: every entry of the flat object fits the
/// wire format, so the model pins the value down completely.
pub open spec fn message_object_rep(r: ValueRep) -> bool {
    match r {
        ValueRep::Object(es) => forall|i: int|
            0 <= i < es.len() ==> rep_to_jv(#[trigger] es[i].1) is Some,
        _ => false,
    }
}

/// A renderable value: one flat message object, or a list of them.
pub open spec fn renderable(r: ValueRep) -> bool {
    message_object_rep(r) || (match r {
        ValueRep::List(items) => forall|i: int|
            0 <= i < items.len() ==> message_object_rep(#[trigger] items[i]),
        _ => false,
    })
}

/// Relies on serde_json's Display for Value writing compact JSON text, a
/// function of the value alone; and on serde_json::from_str reading that
/// text back to an equal value. Renderable shapes hold no `Other`, so the
/// model determines the value, which makes both claims statements about the
/// model.
#[verifier::external_body]
fn render_value(v: &serde_json::Value) -> (r: String)
    requires
        renderable(value_rep(*v)),
    ensures
        r@ == rendered(value_rep(*v)),
        parsed_json(r@) == Some(value_rep(*v)),
{
    v.to_string()
}

/// Relies on serde_json::from_str for Value: some value for JSON text, an
/// error otherwise.
#[verifier::external_body]
fn parse_json(s: &str) -> (r: Option<serde_json::Value>)
    ensures
        r matches Some(v) ==> parsed_json(s@) == Some(value_rep(v)),
        r is None ==> parsed_json(s@) is None,
{
    serde_json::from_str::<serde_json::Value>(s).ok()
}

/// The model of a wire-format value as a serde_json value.
pub open spec fn jv_rep(v: JsonValueView) -> ValueRep {
    match v {
        JsonValueView::Text(s) => ValueRep::Text(s),
        JsonValueView::Flag(b) => ValueRep::Flag(b),
        JsonValueView::Table(t) => ValueRep::Object(table_entries_rep(t)),
        JsonValueView::Null => ValueRep::Null,
    }
}

/// The model of a string table's entries.
pub open spec fn table_entries_rep(t: Seq<(Seq<char>, Seq<char>)>) -> Seq<(Seq<char>, ValueRep)> {
    t.map_values(|e: (Seq<char>, Seq<char>)| (e.0, ValueRep::Text(e.1)))
}

/// The model of a flat object's entries.
pub open spec fn obj_entries_rep(entries: Seq<(Seq<char>, JsonValueView)>) -> Seq<
    (Seq<char>, ValueRep),
> {
    entries.map_values(|e: (Seq<char>, JsonValueView)| (e.0, jv_rep(e.1)))
}

/// The model of a flat object.
pub open spec fn obj_rep(entries: Seq<(Seq<char>, JsonValueView)>) -> ValueRep {
    ValueRep::Object(obj_entries_rep(entries))
}

/// The text of a text model; empty elsewhere.
pub open spec fn text_content(r: ValueRep) -> Seq<char> {
    match r {
        ValueRep::Text(s) => s,
        _ => Seq::empty(),
    }
}

/// Whether every entry holds a text value.
pub open spec fn all_text(es: Seq<(Seq<char>, ValueRep)>) -> bool {
    forall|i: int| 0 <= i < es.len() ==> (#[trigger] es[i].1) is Text
}

/// The string table of an all-text entry sequence.
pub open spec fn table_of(es: Seq<(Seq<char>, ValueRep)>) -> Seq<(Seq<char>, Seq<char>)> {
    es.map_values(|e: (Seq<char>, ValueRep)| (e.0, text_content(e.1)))
}

/// The wire-format value a serde_json value stands for, if it fits: text,
/// flag and null directly, an object only when all its values are text.
pub open spec fn rep_to_jv(r: ValueRep) -> Option<JsonValueView> {
    match r {
        ValueRep::Text(s) => Some(JsonValueView::Text(s)),
        ValueRep::Flag(b) => Some(JsonValueView::Flag(b)),
        ValueRep::Null => Some(JsonValueView::Null),
        ValueRep::Object(es) => if all_text(es) {
            Some(JsonValueView::Table(table_of(es)))
        } else {
            None
        },
        _ => None,
    }
}

/// The keys the wire format reads.
pub open spec fn known_key(k: Seq<char>) -> bool {
    k == "role"@ || k == "content"@ || k == "example"@ || k == "message_type"@ || k
        == "additional_kwargs"@ || k == "response_metadata"@ || k == "id"@ || k == "name"@ || k
        == "tool_call_id"@ || k == "artifact"@ || k == "status"@
}

/// The staging of a parsed object's entries into a flat wire-format object:
/// each entry that fits the wire format is kept; one that does not fails the
/// staging when its key is one the format reads, and is ignored otherwise.
pub open spec fn staged_entries(es: Seq<(Seq<char>, ValueRep)>) -> Result<
    Seq<(Seq<char>, JsonValueView)>,
    Seq<char>,
>
    decreases es.len(),
{
    if es.len() == 0 {
        Ok(Seq::empty())
    } else {
        match rep_to_jv(es[0].1) {
            Some(jv) => match staged_entries(es.drop_first()) {
                Ok(rest) => Ok(seq![(es[0].0, jv)] + rest),
                Err(e) => Err(e),
            },
            None => if known_key(es[0].0) {
                Err("Invalid "@ + es[0].0)
            } else {
                staged_entries(es.drop_first())
            },
        }
    }
}

/// The staging of one parsed value: a flat object is staged entry by entry;
/// anything else is rejected.
pub open spec fn staged_value(rep: ValueRep) -> Result<Seq<(Seq<char>, JsonValueView)>, Seq<char>> {
    match rep {
        ValueRep::Object(es) => staged_entries(es),
        _ => Err("Expected a JSON object"@),
    }
}

/// The staging of a JSON text.
pub open spec fn staged_text(s: Seq<char>) -> Result<Seq<(Seq<char>, JsonValueView)>, Seq<char>> {
    match parsed_json(s) {
        Some(rep) => staged_value(rep),
        None => Err("Invalid JSON"@),
    }
}

/// What one parsed value decodes to as a union message.
pub open spec fn decode_value(rep: ValueRep) -> Result<MessageView, Seq<char>> {
    match staged_value(rep) {
        Ok(obj) => decode_message(obj),
        Err(e) => Err(e),
    }
}

/// What a JSON text decodes to as a union message.
pub open spec fn decode_text(s: Seq<char>) -> Result<MessageView, Seq<char>> {
    match staged_text(s) {
        Ok(obj) => decode_message(obj),
        Err(e) => Err(e),
    }
}

/// What a sequence of parsed values decodes to, failing on the first bad
/// one.
pub open spec fn decode_values(items: Seq<ValueRep>) -> Result<Seq<MessageView>, Seq<char>>
    decreases items.len(),
{
    if items.len() == 0 {
        Ok(Seq::empty())
    } else {
        match decode_value(items[0]) {
            Err(e) => Err(e),
            Ok(v) => match decode_values(items.drop_first()) {
                Err(e) => Err(e),
                Ok(rest) => Ok(seq![v] + rest),
            },
        }
    }
}

/// What a JSON text decodes to as a message batch.
pub open spec fn decode_text_vec(s: Seq<char>) -> Result<Seq<MessageView>, Seq<char>> {
    match parsed_json(s) {
        Some(ValueRep::List(items)) => decode_values(items),
        Some(_) => Err("Expected a JSON array"@),
        None => Err("Invalid JSON"@),
    }
}

/// The model of a serialized message batch.
pub open spec fn messages_rep(vs: Seq<MessageView>) -> ValueRep {
    ValueRep::List(vs.map_values(|v: MessageView| obj_rep(encode_message(v))))
}

/// Every entry of a flat wire-format object's model fits the wire format.
pub proof fn lemma_message_object_rep(entries: Seq<(Seq<char>, JsonValueView)>)
    ensures
        message_object_rep(obj_rep(entries)),
{
    assert forall|i: int| 0 <= i < obj_entries_rep(entries).len() implies rep_to_jv(
        #[trigger] obj_entries_rep(entries)[i].1,
    ) is Some by {
        lemma_jv_rep_round(entries[i].1);
    }
}

/// Builds the serde_json map of a string table.
fn table_to_map(t: &StringMap) -> (r: serde_json::Map<String, serde_json::Value>)
    requires
        t.wf(),
    ensures
        map_rep(r) == table_entries_rep(t@),
{
    let mut m = new_json_map();
    let n = t.len();
    let mut i: usize = 0;
    while i < n
        invariant
            t.wf(),
            n == t@.len(),
            0 <= i <= n,
            map_rep(m) =~= table_entries_rep(t@.subrange(0, i as int)),
        decreases n - i,
    {
        let (k, v) = t.pair(i);
        proof {
            assert(forall|a: int, b: int| 0 <= a < b < t@.len() ==> t@[a].0 != t@[b].0);
            assert(forall|l: int|
                0 <= l < i ==> map_rep(m)[l].0 == t@.subrange(0, i as int)[l].0);
        }
        json_map_insert(&mut m, k.clone(), text_value(v.clone()));
        proof {
            assert(map_rep(m) =~= table_entries_rep(t@.subrange(0, i + 1 as int)));
        }
        i += 1;
    }
    proof {
        assert(t@.subrange(0, n as int) =~= t@);
    }
    m
}

/// Builds the serde_json value of a flat wire-format object.
fn obj_to_value(obj: &JsonObject) -> (r: serde_json::Value)
    requires
        obj.wf(),
        tables_distinct(obj@),
    ensures
        value_rep(r) == obj_rep(obj@),
{
    let mut m = new_json_map();
    let n = obj.len();
    let mut i: usize = 0;
    while i < n
        invariant
            obj.wf(),
            tables_distinct(obj@),
            n == obj@.len(),
            0 <= i <= n,
            map_rep(m) =~= obj_entries_rep(obj@.subrange(0, i as int)),
        decreases n - i,
    {
        let (k, v) = obj.entry(i);
        let jv = match v {
            JsonValue::Text(s) => text_value(s.clone()),
            JsonValue::Flag(b) => bool_value(*b),
            JsonValue::Null => null_value(),
            JsonValue::Table(t) => {
                proof {
                    assert(obj@[i as int].1 matches JsonValueView::Table(tt)
                        ==> crate::assoc::assoc_keys_distinct(tt));
                }
                object_value(table_to_map(t))
            },
        };
        proof {
            assert(value_rep(jv) == jv_rep(obj@[i as int].1));
            assert(forall|a: int, b: int| 0 <= a < b < obj@.len() ==> obj@[a].0 != obj@[b].0);
            assert(forall|l: int|
                0 <= l < i ==> map_rep(m)[l].0 == obj@.subrange(0, i as int)[l].0);
        }
        json_map_insert(&mut m, k.clone(), jv);
        proof {
            assert(map_rep(m) =~= obj_entries_rep(obj@.subrange(0, i + 1 as int)));
        }
        i += 1;
    }
    proof {
        assert(obj@.subrange(0, n as int) =~= obj@);
    }
    object_value(m)
}

/// Renders a flat wire-format object as compact JSON text.
pub fn object_to_text(obj: &JsonObject) -> (r: String)
    requires
        obj.wf(),
        tables_distinct(obj@),
    ensures
        r@ == rendered(obj_rep(obj@)),
        parsed_json(r@) == Some(obj_rep(obj@)),
{
    let v = obj_to_value(obj);
    proof {
        lemma_message_object_rep(obj@);
    }
    render_value(&v)
}

/// Reads a serde_json map as a string table: some table exactly when every
/// value is text.
fn table_from_map(m: &serde_json::Map<String, serde_json::Value>) -> (r: Option<StringMap>)
    ensures
        r matches Some(t) ==> rep_to_jv(ValueRep::Object(map_rep(*m))) == Some(
            JsonValueView::Table(t@),
        ) && t.wf(),
        r is None ==> rep_to_jv(ValueRep::Object(map_rep(*m))) is None,
{
    let entries = map_entries(m);
    let ghost es = map_rep(*m);
    proof {
        assert forall|a: int, b: int| 0 <= a < b < es.len() implies es[a].0 != es[b].0 by {
            assert(value_rep(entries@[a].1) == es[a].1);
            assert(value_rep(entries@[b].1) == es[b].1);
            assert(entries@[a].0@ == es[a].0);
            assert(entries@[b].0@ == es[b].0);
        }
    }
    let mut t = StringMap::new();
    let n = entries.len();
    let mut i: usize = 0;
    while i < n
        invariant
            n == entries@.len(),
            es == map_rep(*m),
            es.len() == n,
            forall|l: int|
                0 <= l < n ==> entries@[l].0@ == es[l].0 && value_rep(
                    #[trigger] entries@[l].1,
                ) == es[l].1,
            forall|a: int, b: int| 0 <= a < b < n ==> es[a].0 != es[b].0,
            0 <= i <= n,
            t.wf(),
            forall|l: int| 0 <= l < i ==> (#[trigger] es[l].1) is Text,
            t@ =~= table_of(es.subrange(0, i as int)),
        decreases n - i,
    {
        let e = &entries[i];
        match value_as_str(&e.1) {
            Some(text) => {
                proof {
                    assert(forall|j: int| 0 <= j < t@.len() ==> t@[j].0 == es[j].0);
                    lemma_assoc_get_no_match(t@, es[i as int].0);
                }
                t.push_pair(e.0.clone(), String::from_str(text));
                proof {
                    assert(t@ =~= table_of(es.subrange(0, i + 1 as int)));
                }
            },
            None => {
                proof {
                    assert(!((es[i as int].1) is Text));
                    assert(!all_text(es));
                }
                return None;
            },
        }
        i += 1;
    }
    proof {
        assert(es.subrange(0, n as int) =~= es);
        assert(all_text(es));
    }
    Some(t)
}

/// Whether the wire format reads this key.
fn is_known_key(k: &str) -> (r: bool)
    ensures
        r == known_key(k@),
{
    str_eq(k, "role") || str_eq(k, "content") || str_eq(k, "example") || str_eq(k, "message_type")
        || str_eq(k, "additional_kwargs") || str_eq(k, "response_metadata") || str_eq(k, "id")
        || str_eq(k, "name") || str_eq(k, "tool_call_id") || str_eq(k, "artifact") || str_eq(
        k,
        "status",
    )
}

/// Stages one parsed serde_json value as a flat wire-format object, as
/// `staged_value` says.
#[verifier::loop_isolation(false)]
fn stage_value(value: &serde_json::Value) -> (r: Result<JsonObject, InvalidMessageTypeError>)
    ensures
        r matches Ok(obj) ==> staged_value(value_rep(*value)) == Ok::<_, Seq<char>>(obj@)
            && obj.wf() && tables_distinct(obj@),
        r matches Err(e) ==> staged_value(value_rep(*value)) matches Err(msg) && e@ == msg,
{
    let map = match value_as_object(value) {
        Some(m) => m,
        None => {
            return Err(InvalidMessageTypeError::new(String::from_str("Expected a JSON object")));
        },
    };
    let entries = map_entries(map);
    let ghost es = map_rep(*map);
    proof {
        assert forall|a: int, b: int| 0 <= a < b < es.len() implies es[a].0 != es[b].0 by {
            assert(value_rep(entries@[a].1) == es[a].1);
            assert(value_rep(entries@[b].1) == es[b].1);
            assert(entries@[a].0@ == es[a].0);
            assert(entries@[b].0@ == es[b].0);
        }
    }
    let mut obj = JsonObject::new();
    let n = entries.len();
    let mut i: usize = 0;
    proof {
        assert(es.skip(0) =~= es);
        match staged_entries(es) {
            Ok(rest) => {
                assert(obj@ + rest =~= rest);
            },
            Err(_) => {},
        }
    }
    while i < n
        invariant
            n == entries@.len(),
            es == map_rep(*map),
            es.len() == n,
            forall|l: int|
                0 <= l < n ==> entries@[l].0@ == es[l].0 && value_rep(
                    #[trigger] entries@[l].1,
                ) == es[l].1,
            forall|a: int, b: int| 0 <= a < b < n ==> es[a].0 != es[b].0,
            0 <= i <= n,
            obj.wf(),
            tables_distinct(obj@),
            staged_entries(es) == (match staged_entries(es.skip(i as int)) {
                Ok(rest) => Ok(obj@ + rest),
                Err(e) => Err::<Seq<(Seq<char>, JsonValueView)>, Seq<char>>(e),
            }),
            forall|j: int|
                0 <= j < obj@.len() ==> exists|l: int|
                    0 <= l < i && (#[trigger] obj@[j].0) == es[l].0,
        decreases n - i,
    {
        let ghost suffix = es.skip(i as int);
        proof {
            assert(suffix.len() > 0);
            assert(suffix[0] == es[i as int]);
            assert(suffix.drop_first() =~= es.skip(i as int + 1));
        }
        let e = &entries[i];
        let staged: Option<JsonValue> = match value_as_str(&e.1) {
            Some(text) => Some(JsonValue::Text(String::from_str(text))),
            None => match value_as_bool(&e.1) {
                Some(b) => Some(JsonValue::Flag(b)),
                None => if value_is_null(&e.1) {
                    Some(JsonValue::Null)
                } else {
                    match value_as_object(&e.1) {
                        Some(inner) => match table_from_map(inner) {
                            Some(t) => Some(JsonValue::Table(t)),
                            None => None,
                        },
                        None => None,
                    }
                },
            },
        };
        match staged {
            Some(jv) => {
                proof {
                    assert(rep_to_jv(es[i as int].1) == Some(jv@));
                    assert forall|j: int| 0 <= j < obj@.len() implies obj@[j].0 != es[i as int].0 by {
                        let l = choose|l: int| 0 <= l < i && obj@[j].0 == es[l].0;
                        assert(es[l].0 != es[i as int].0);
                    }
                    lemma_assoc_get_no_match(obj@, es[i as int].0);
                }
                let ghost obj0 = obj@;
                obj.push_entry(e.0.clone(), jv);
                proof {
                    match staged_entries(es.skip(i as int + 1)) {
                        Ok(rest) => {
                            assert(obj@ + rest =~= obj0 + (seq![
                                (es[i as int].0, rep_to_jv(es[i as int].1)->Some_0),
                            ] + rest));
                        },
                        Err(_) => {},
                    }
                }
            },
            None => {
                proof {
                    assert(rep_to_jv(es[i as int].1) is None);
                }
                if is_known_key(e.0.as_str()) {
                    let mut msg = String::from_str("Invalid ");
                    msg.append(e.0.as_str());
                    return Err(InvalidMessageTypeError::new(msg));
                }
            },
        }
        i += 1;
    }
    proof {
        assert(es.skip(n as int) =~= Seq::<(Seq<char>, ValueRep)>::empty());
        assert(staged_entries(es.skip(n as int)) == Ok::<_, Seq<char>>(
            Seq::<(Seq<char>, JsonValueView)>::empty(),
        ));
        match staged_entries(es) {
            Ok(o) => {
                assert(obj@ + Seq::<(Seq<char>, JsonValueView)>::empty() =~= obj@);
                assert(o == obj@);
            },
            Err(_) => {
                assert(false);
            },
        }
    }
    Ok(obj)
}

/// Stages a JSON text, as `staged_text` says.
fn stage_text(s: &str) -> (r: Result<JsonObject, InvalidMessageTypeError>)
    ensures
        r matches Ok(obj) ==> staged_text(s@) == Ok::<_, Seq<char>>(obj@) && obj.wf()
            && tables_distinct(obj@),
        r matches Err(e) ==> staged_text(s@) matches Err(msg) && e@ == msg,
{
    let value = match parse_json(s) {
        Some(v) => v,
        None => {
            return Err(InvalidMessageTypeError::new(String::from_str("Invalid JSON")));
        },
    };
    stage_value(&value)
}

/// Decodes one parsed serde_json value as a message, as `decode_value` says.
fn message_from_value(value: &serde_json::Value) -> (r: Result<
    MessageEnum,
    InvalidMessageTypeError,
>)
    ensures
        r matches Ok(m) ==> decode_value(value_rep(*value)) == Ok::<_, Seq<char>>(m@) && m.wf(),
        r matches Err(e) ==> decode_value(value_rep(*value)) matches Err(msg) && e@ == msg,
{
    match stage_value(value) {
        Ok(obj) => MessageEnum::from_json(&obj),
        Err(e) => Err(e),
    }
}

impl MessageEnum {
    /// Serialization to compact JSON text, rendered by serde_json from the
    /// flat object `encode_message` lays out.
    pub fn to_json_text(&self) -> (r: String)
        requires
            self.wf(),
        ensures
            r@ == rendered(obj_rep(encode_message(self@))),
            parsed_json(r@) == Some(obj_rep(encode_message(self@))),
    {
        let obj = self.to_json();
        object_to_text(&obj)
    }

    /// Deserialization from JSON text, as `decode_text` says: parse through
    /// serde_json, stage the flat object, and decode it.
    pub fn from_json_text(s: &str) -> (r: Result<MessageEnum, InvalidMessageTypeError>)
        ensures
            r matches Ok(m) ==> decode_text(s@) == Ok::<_, Seq<char>>(m@) && m.wf(),
            r matches Err(e) ==> decode_text(s@) matches Err(msg) && e@ == msg,
    {
        let value = match parse_json(s) {
            Some(v) => v,
            None => {
                return Err(InvalidMessageTypeError::new(String::from_str("Invalid JSON")));
            },
        };
        message_from_value(&value)
    }

    /// Serialization of an ordered batch as one JSON array.
    pub fn to_json_text_vec(msgs: &Vec<MessageEnum>) -> (r: String)
        requires
            forall|i: int| 0 <= i < msgs@.len() ==> (#[trigger] msgs@[i]).wf(),
        ensures
            r@ == rendered(messages_rep(msgs_view(msgs@))),
            parsed_json(r@) == Some(messages_rep(msgs_view(msgs@))),
    {
        let mut vals: Vec<serde_json::Value> = Vec::new();
        let n = msgs.len();
        let mut i: usize = 0;
        while i < n
            invariant
                n == msgs@.len(),
                forall|l: int| 0 <= l < n ==> (#[trigger] msgs@[l]).wf(),
                0 <= i <= n,
                vals@.len() == i,
                forall|l: int|
                    0 <= l < i ==> value_rep(#[trigger] vals@[l]) == obj_rep(
                        encode_message(msgs@[l]@),
                    ),
            decreases n - i,
        {
            let obj = msgs[i].to_json();
            vals.push(obj_to_value(&obj));
            i += 1;
        }
        let arr = array_value(vals);
        proof {
            match value_rep(arr) {
                ValueRep::List(reps) => {
                    assert(reps =~= msgs_view(msgs@).map_values(
                        |v: MessageView| obj_rep(encode_message(v)),
                    ));
                    assert(value_rep(arr) == messages_rep(msgs_view(msgs@)));
                    assert forall|l: int| 0 <= l < reps.len() implies message_object_rep(
                        #[trigger] reps[l],
                    ) by {
                        lemma_message_object_rep(encode_message(msgs@[l]@));
                    }
                },
                _ => {
                    assert(false);
                },
            }
        }
        render_value(&arr)
    }

    /// Deserialization of an ordered batch from one JSON array, as
    /// `decode_text_vec` says.
    #[verifier::loop_isolation(false)]
    pub fn from_json_text_vec(s: &str) -> (r: Result<Vec<MessageEnum>, InvalidMessageTypeError>)
        ensures
            r matches Ok(v) ==> decode_text_vec(s@) == Ok::<_, Seq<char>>(msgs_view(v@)) && (forall|
                i: int,
            |
                0 <= i < v@.len() ==> (#[trigger] v@[i]).wf()),
            r matches Err(e) ==> decode_text_vec(s@) matches Err(msg) && e@ == msg,
    {
        let value = match parse_json(s) {
            Some(v) => v,
            None => {
                return Err(InvalidMessageTypeError::new(String::from_str("Invalid JSON")));
            },
        };
        let items = match value_as_array(&value) {
            Some(a) => a,
            None => {
                return Err(InvalidMessageTypeError::new(String::from_str("Expected a JSON array")));
            },
        };
        let ghost reps = value_rep(value)->List_0;
        let mut out: Vec<MessageEnum> = Vec::new();
        let n = items.len();
        let mut i: usize = 0;
        proof {
            assert(reps.skip(0) =~= reps);
            match decode_values(reps) {
                Ok(rest) => {
                    assert(msgs_view(out@) + rest =~= rest);
                },
                Err(_) => {},
            }
        }
        while i < n
            invariant
                n == items@.len(),
                value_rep(value) matches ValueRep::List(rs) && rs == reps,
                reps.len() == n,
                forall|l: int| 0 <= l < n ==> reps[l] == value_rep(#[trigger] items@[l]),
                0 <= i <= n,
                decode_values(reps) == (match decode_values(reps.skip(i as int)) {
                    Ok(rest) => Ok(msgs_view(out@) + rest),
                    Err(e) => Err::<Seq<MessageView>, Seq<char>>(e),
                }),
                forall|j: int| 0 <= j < out@.len() ==> (#[trigger] out@[j]).wf(),
            decreases n - i,
        {
            let ghost suffix = reps.skip(i as int);
            proof {
                assert(suffix.len() > 0);
                assert(suffix[0] == reps[i as int]);
                assert(suffix.drop_first() =~= reps.skip(i as int + 1));
            }
            match message_from_value(&items[i]) {
                Ok(m) => {
                    let ghost out0 = out@;
                    out.push(m);
                    proof {
                        assert(msgs_view(out@) =~= msgs_view(out0).push(m@));
                        match decode_values(reps.skip(i as int + 1)) {
                            Ok(rest) => {
                                assert(msgs_view(out@) + rest =~= msgs_view(out0) + (seq![m@]
                                    + rest));
                            },
                            Err(_) => {},
                        }
                    }
                },
                Err(e) => {
                    return Err(e);
                },
            }
            i += 1;
        }
        proof {
            assert(reps.skip(n as int) =~= Seq::<ValueRep>::empty());
            assert(decode_values(reps.skip(n as int)) == Ok::<_, Seq<char>>(
                Seq::<MessageView>::empty(),
            ));
            assert(msgs_view(out@) + Seq::<MessageView>::empty() =~= msgs_view(out@));
        }
        Ok(out)
    }
}

/// What a JSON text decodes to as a standalone variant of the given kind.
pub open spec fn decode_variant_text(s: Seq<char>, kind: MessageType) -> Result<
    FieldsView,
    Seq<char>,
> {
    match staged_text(s) {
        Ok(obj) => decode_variant(obj, kind),
        Err(e) => Err(e),
    }
}

/// What a JSON text decodes to as a standalone chat message.
pub open spec fn decode_chat_text(s: Seq<char>) -> Result<ChatView, Seq<char>> {
    match staged_text(s) {
        Ok(obj) => decode_chat(obj),
        Err(e) => Err(e),
    }
}

/// What a JSON text decodes to as a standalone tool message.
pub open spec fn decode_tool_text(s: Seq<char>) -> Result<ToolView, Seq<char>> {
    match staged_text(s) {
        Ok(obj) => decode_tool_standalone(obj),
        Err(e) => Err(e),
    }
}

impl HumanMessage {
    /// Standalone serialization to compact JSON text, rendered by serde_json.
    pub fn to_json_text(&self) -> (r: String)
        requires
            self.wf(),
        ensures
            r@ == rendered(obj_rep(encode_envelope(self@))),
            parsed_json(r@) == Some(obj_rep(encode_envelope(self@))),
    {
        let obj = self.to_json();
        object_to_text(&obj)
    }

    /// Standalone deserialization from JSON text, as `decode_variant_text` says.
    pub fn from_json_text(s: &str) -> (r: Result<HumanMessage, InvalidMessageTypeError>)
        ensures
            r matches Ok(m) ==> decode_variant_text(s@, MessageType::Human) == Ok::<_, Seq<char>>(m@) && m.wf(),
            r matches Err(e) ==> decode_variant_text(s@, MessageType::Human) matches Err(msg) && e@ == msg,
    {
        match stage_text(s) {
            Ok(obj) => HumanMessage::from_json(&obj),
            Err(e) => Err(e),
        }
    }
}

impl AiMessage {
    /// Standalone serialization to compact JSON text, rendered by serde_json.
    pub fn to_json_text(&self) -> (r: String)
        requires
            self.wf(),
        ensures
            r@ == rendered(obj_rep(encode_envelope(self@))),
            parsed_json(r@) == Some(obj_rep(encode_envelope(self@))),
    {
        let obj = self.to_json();
        object_to_text(&obj)
    }

    /// Standalone deserialization from JSON text, as `decode_variant_text` says.
    pub fn from_json_text(s: &str) -> (r: Result<AiMessage, InvalidMessageTypeError>)
        ensures
            r matches Ok(m) ==> decode_variant_text(s@, MessageType::Ai) == Ok::<_, Seq<char>>(m@) && m.wf(),
            r matches Err(e) ==> decode_variant_text(s@, MessageType::Ai) matches Err(msg) && e@ == msg,
    {
        match stage_text(s) {
            Ok(obj) => AiMessage::from_json(&obj),
            Err(e) => Err(e),
        }
    }
}

impl SystemMessage {
    /// Standalone serialization to compact JSON text, rendered by serde_json.
    pub fn to_json_text(&self) -> (r: String)
        requires
            self.wf(),
        ensures
            r@ == rendered(obj_rep(encode_envelope(self@))),
            parsed_json(r@) == Some(obj_rep(encode_envelope(self@))),
    {
        let obj = self.to_json();
        object_to_text(&obj)
    }

    /// Standalone deserialization from JSON text, as `decode_variant_text` says.
    pub fn from_json_text(s: &str) -> (r: Result<SystemMessage, InvalidMessageTypeError>)
        ensures
            r matches Ok(m) ==> decode_variant_text(s@, MessageType::System) == Ok::<_, Seq<char>>(m@) && m.wf(),
            r matches Err(e) ==> decode_variant_text(s@, MessageType::System) matches Err(msg) && e@ == msg,
    {
        match stage_text(s) {
            Ok(obj) => SystemMessage::from_json(&obj),
            Err(e) => Err(e),
        }
    }
}

impl ChatMessage {
    /// Standalone serialization to compact JSON text, rendered by serde_json.
    pub fn to_json_text(&self) -> (r: String)
        requires
            self.wf(),
        ensures
            r@ == rendered(obj_rep(encode_chat(self@))),
            parsed_json(r@) == Some(obj_rep(encode_chat(self@))),
    {
        let obj = self.to_json();
        object_to_text(&obj)
    }

    /// Standalone deserialization from JSON text, as `decode_chat_text` says.
    pub fn from_json_text(s: &str) -> (r: Result<ChatMessage, InvalidMessageTypeError>)
        ensures
            r matches Ok(m) ==> decode_chat_text(s@) == Ok::<_, Seq<char>>(m@) && m.wf(),
            r matches Err(e) ==> decode_chat_text(s@) matches Err(msg) && e@ == msg,
    {
        match stage_text(s) {
            Ok(obj) => ChatMessage::from_json(&obj),
            Err(e) => Err(e),
        }
    }
}

impl ToolMessage {
    /// Standalone serialization to compact JSON text, rendered by serde_json.
    pub fn to_json_text(&self) -> (r: String)
        requires
            self.wf(),
        ensures
            r@ == rendered(obj_rep(encode_tool_standalone(self@))),
            parsed_json(r@) == Some(obj_rep(encode_tool_standalone(self@))),
    {
        let obj = self.to_json();
        object_to_text(&obj)
    }

    /// Standalone deserialization from JSON text, as `decode_tool_text` says.
    pub fn from_json_text(s: &str) -> (r: Result<ToolMessage, InvalidMessageTypeError>)
        ensures
            r matches Ok(m) ==> decode_tool_text(s@) == Ok::<_, Seq<char>>(m@) && m.wf(),
            r matches Err(e) ==> decode_tool_text(s@) matches Err(msg) && e@ == msg,
    {
        match stage_text(s) {
            Ok(obj) => ToolMessage::from_json(&obj),
            Err(e) => Err(e),
        }
    }
}

/// Round-trip through the serde_json model: the model of a well-formed
/// message's serialization decodes back to the message. Together with the
/// rendering wrapper's contract — that the rendered text parses back to the
/// value's model — this carries the object-level round trip to JSON text.
pub proof fn lemma_value_round_trip(v: MessageView)
    requires
        crate::message_enum::msg_wf(v),
    ensures
        decode_value(obj_rep(encode_message(v))) == Ok::<_, Seq<char>>(v),
{
    lemma_staged_of_encoded(encode_message(v));
    crate::codec::lemma_round_trip(v);
}

/// A wire-format value survives the trip through its serde_json model.
pub proof fn lemma_jv_rep_round(v: JsonValueView)
    ensures
        rep_to_jv(jv_rep(v)) == Some(v),
{
    match v {
        JsonValueView::Table(t) => {
            assert(all_text(table_entries_rep(t)));
            assert(table_of(table_entries_rep(t)) =~= t);
        },
        _ => {},
    }
}

/// Staging the model of a flat wire-format object yields the object back:
/// with the object-level round trip, a serialized message's rendered text
/// parses and stages back to the object `encode_message` lays out.
pub proof fn lemma_staged_of_encoded(entries: Seq<(Seq<char>, JsonValueView)>)
    ensures
        staged_entries(obj_entries_rep(entries)) == Ok::<_, Seq<char>>(entries),
    decreases entries.len(),
{
    if entries.len() == 0 {
        assert(obj_entries_rep(entries) =~= Seq::<(Seq<char>, ValueRep)>::empty());
        assert(entries =~= Seq::<(Seq<char>, JsonValueView)>::empty());
    } else {
        let es = obj_entries_rep(entries);
        assert(es[0] == (entries[0].0, jv_rep(entries[0].1)));
        lemma_jv_rep_round(entries[0].1);
        assert(rep_to_jv(es[0].1) == Some(entries[0].1));
        assert(es.drop_first() =~= obj_entries_rep(entries.drop_first()));
        lemma_staged_of_encoded(entries.drop_first());
        assert(seq![(es[0].0, rep_to_jv(es[0].1)->Some_0)] + entries.drop_first() =~= entries);
    }
}

} // verus!
