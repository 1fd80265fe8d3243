//! The wire-format codec: each message becomes one flat JSON object keyed by
//! the `role` discriminator, with the envelope flattened beside it; empty
//! metadata mappings and absent id/name are omitted rather than emitted.
//! Deserialization stages every possible field with its default, resolves
//! `role` through the discriminator parser, and builds the named variant,
//! requiring `tool_call_id` and `status` for tool messages.

use vstd::prelude::*;

use crate::ai_message::AiMessage;
use crate::assoc::assoc_get;
use crate::assoc::assoc_has;
use crate::assoc::lemma_assoc_get_concat;
use crate::assoc::lemma_assoc_get_push;
use crate::json::lemma_table_value_distinct;
use crate::base_message::BaseMessage;
use crate::base_message::BaseMessageFields;
use crate::base_message::FieldsView;
use crate::chat_message::ChatMessage;
use crate::chat_message::ChatView;
use crate::human_message::HumanMessage;
use crate::json::tables_distinct;
use crate::json::JsonObject;
use crate::json::JsonValue;
use crate::json::JsonValueView;
use crate::message_enum::arm_fields;
use crate::message_enum::arm_kind;
use crate::message_enum::MessageEnum;
use crate::message_enum::msg_wf;
use crate::message_enum::MessageView;
use crate::message_type::kind_label;
use crate::message_type::kind_name;
use crate::message_type::parse_kind;
use crate::message_type::str_eq;
use crate::message_type::InvalidMessageTypeError;
use crate::message_type::MessageType;
use crate::string_map::StringMap;
use crate::system_message::SystemMessage;
use crate::tool_message::ToolMessage;
use crate::tool_message::ToolStatus;
use crate::tool_message::ToolView;

verus! {

/// The wire spelling of a tool status.
pub open spec fn status_label(s: ToolStatus) -> Seq<char> {
    match s {
        ToolStatus::Success => "Success"@,
        ToolStatus::Error => "Error"@,
    }
}

/// The status a wire spelling denotes, if any.
pub open spec fn parse_status(s: Seq<char>) -> Option<ToolStatus> {
    if s == "Success"@ {
        Some(ToolStatus::Success)
    } else if s == "Error"@ {
        Some(ToolStatus::Error)
    } else {
        None
    }
}

/// The envelope entries of a serialized message: content, example flag and
/// discriminator name always; each metadata mapping only when non-empty; id
/// and name only when present.
pub open spec fn encode_envelope(f: FieldsView) -> Seq<(Seq<char>, JsonValueView)> {
    let s = Seq::<(Seq<char>, JsonValueView)>::empty().push(
        ("content"@, JsonValueView::Text(f.content)),
    ).push(("example"@, JsonValueView::Flag(f.example))).push(
        ("message_type"@, JsonValueView::Text(kind_name(f.message_type))),
    );
    let s = if f.additional_kwargs.len() > 0 {
        s.push(("additional_kwargs"@, JsonValueView::Table(f.additional_kwargs)))
    } else {
        s
    };
    let s = if f.response_metadata.len() > 0 {
        s.push(("response_metadata"@, JsonValueView::Table(f.response_metadata)))
    } else {
        s
    };
    let s = match f.id {
        Some(i) => s.push(("id"@, JsonValueView::Text(i))),
        None => s,
    };
    match f.name {
        Some(nm) => s.push(("name"@, JsonValueView::Text(nm))),
        None => s,
    }
}

/// The extra entries a tool message carries: the call identifier, the
/// artifact when present, and the status spelling.
pub open spec fn tool_extras(t: ToolView) -> Seq<(Seq<char>, JsonValueView)> {
    let s = Seq::<(Seq<char>, JsonValueView)>::empty().push(
        ("tool_call_id"@, JsonValueView::Text(t.tool_call_id)),
    );
    let s = match t.artifact {
        Some(a) => s.push(("artifact"@, JsonValueView::Text(a))),
        None => s,
    };
    s.push(("status"@, JsonValueView::Text(status_label(t.status))))
}

/// The serialization of a union value: one flat object led by the `role`
/// discriminator entry.
pub open spec fn encode_message(v: MessageView) -> Seq<(Seq<char>, JsonValueView)> {
    match v {
        MessageView::Tool(t) => seq![("role"@, JsonValueView::Text("tool"@))] + tool_extras(t)
            + encode_envelope(t.base),
        _ => seq![("role"@, JsonValueView::Text(kind_label(arm_kind(v))))] + encode_envelope(
            arm_fields(v),
        ),
    }
}

/// The standalone serialization of a chat message: its stored free-form role
/// — not the discriminator's label — leads the envelope.
pub open spec fn encode_chat(c: ChatView) -> Seq<(Seq<char>, JsonValueView)> {
    seq![("role"@, JsonValueView::Text(c.role))] + encode_envelope(c.base)
}

/// The standalone serialization of a tool message: the tool fields lead the
/// envelope.
pub open spec fn encode_tool_standalone(t: ToolView) -> Seq<(Seq<char>, JsonValueView)> {
    tool_extras(t) + encode_envelope(t.base)
}

/// A required text entry.
pub open spec fn text_field(
    obj: Seq<(Seq<char>, JsonValueView)>,
    key: Seq<char>,
    missing: Seq<char>,
    invalid: Seq<char>,
) -> Result<Seq<char>, Seq<char>> {
    match assoc_get(obj, key) {
        Some(JsonValueView::Text(s)) => Ok(s),
        Some(_) => Err(invalid),
        None => Err(missing),
    }
}

/// A boolean entry, false when absent.
pub open spec fn flag_field(
    obj: Seq<(Seq<char>, JsonValueView)>,
    key: Seq<char>,
    invalid: Seq<char>,
) -> Result<bool, Seq<char>> {
    match assoc_get(obj, key) {
        Some(JsonValueView::Flag(b)) => Ok(b),
        Some(_) => Err(invalid),
        None => Ok(false),
    }
}

/// A string-table entry, empty when absent.
pub open spec fn table_field(
    obj: Seq<(Seq<char>, JsonValueView)>,
    key: Seq<char>,
    invalid: Seq<char>,
) -> Result<Seq<(Seq<char>, Seq<char>)>, Seq<char>> {
    match assoc_get(obj, key) {
        Some(JsonValueView::Table(t)) => Ok(t),
        Some(_) => Err(invalid),
        None => Ok(Seq::empty()),
    }
}

/// An optional text entry; absent and null both mean none.
pub open spec fn opt_text_field(
    obj: Seq<(Seq<char>, JsonValueView)>,
    key: Seq<char>,
    invalid: Seq<char>,
) -> Result<Option<Seq<char>>, Seq<char>> {
    match assoc_get(obj, key) {
        Some(JsonValueView::Text(s)) => Ok(Some(s)),
        Some(JsonValueView::Null) => Ok(None),
        Some(_) => Err(invalid),
        None => Ok(None),
    }
}

/// The staged envelope of a decoded object: content required; example
/// defaulting to false; metadata mappings defaulting to empty; id and name
/// defaulting to absent; the discriminator taken from the resolved kind.
pub open spec fn decode_envelope(obj: Seq<(Seq<char>, JsonValueView)>, kind: MessageType) -> Result<
    FieldsView,
    Seq<char>,
> {
    match text_field(obj, "content"@, "Missing content"@, "Invalid content"@) {
        Err(e) => Err(e),
        Ok(content) => match flag_field(obj, "example"@, "Invalid example"@) {
            Err(e) => Err(e),
            Ok(example) => match table_field(
                obj,
                "additional_kwargs"@,
                "Invalid additional_kwargs"@,
            ) {
                Err(e) => Err(e),
                Ok(kwargs) => match table_field(
                    obj,
                    "response_metadata"@,
                    "Invalid response_metadata"@,
                ) {
                    Err(e) => Err(e),
                    Ok(metadata) => match opt_text_field(obj, "id"@, "Invalid id"@) {
                        Err(e) => Err(e),
                        Ok(id) => match opt_text_field(obj, "name"@, "Invalid name"@) {
                            Err(e) => Err(e),
                            Ok(name) => Ok(
                                FieldsView {
                                    content,
                                    example,
                                    message_type: kind,
                                    additional_kwargs: kwargs,
                                    response_metadata: metadata,
                                    id,
                                    name,
                                },
                            ),
                        },
                    },
                },
            },
        },
    }
}

/// The tool fields of a decoded object: the call identifier and status are
/// required — null counts as missing — and the artifact is optional.
pub open spec fn decode_tool_fields(obj: Seq<(Seq<char>, JsonValueView)>, base: FieldsView) -> Result<
    ToolView,
    Seq<char>,
> {
    match assoc_get(obj, "tool_call_id"@) {
        Some(JsonValueView::Text(tid)) => match assoc_get(obj, "status"@) {
            Some(JsonValueView::Text(st)) => match parse_status(st) {
                Some(status) => match opt_text_field(obj, "artifact"@, "Invalid artifact"@) {
                    Ok(artifact) => Ok(ToolView { tool_call_id: tid, artifact, status, base }),
                    Err(e) => Err(e),
                },
                None => Err("Invalid status"@),
            },
            Some(JsonValueView::Null) => Err("Missing status for ToolMessage"@),
            None => Err("Missing status for ToolMessage"@),
            Some(_) => Err("Invalid status"@),
        },
        Some(JsonValueView::Null) => Err("Missing tool_call_id for ToolMessage"@),
        None => Err("Missing tool_call_id for ToolMessage"@),
        Some(_) => Err("Invalid tool_call_id"@),
    }
}

/// Deserialization of a union value: resolve the `role` entry through the
/// discriminator parser and build the named variant. A role that parses to
/// Chat has no union arm and is rejected rather than defaulted, like any
/// unrecognized role.
pub open spec fn decode_message(obj: Seq<(Seq<char>, JsonValueView)>) -> Result<
    MessageView,
    Seq<char>,
> {
    match assoc_get(obj, "role"@) {
        Some(JsonValueView::Text(role)) => match parse_kind(role) {
            Some(MessageType::Ai) => match decode_envelope(obj, MessageType::Ai) {
                Ok(f) => Ok(MessageView::Ai(f)),
                Err(e) => Err(e),
            },
            Some(MessageType::Human) => match decode_envelope(obj, MessageType::Human) {
                Ok(f) => Ok(MessageView::Human(f)),
                Err(e) => Err(e),
            },
            Some(MessageType::System) => match decode_envelope(obj, MessageType::System) {
                Ok(f) => Ok(MessageView::System(f)),
                Err(e) => Err(e),
            },
            Some(MessageType::Tool) => match decode_envelope(obj, MessageType::Tool) {
                Ok(f) => match decode_tool_fields(obj, f) {
                    Ok(t) => Ok(MessageView::Tool(t)),
                    Err(e) => Err(e),
                },
                Err(e) => Err(e),
            },
            Some(MessageType::Chat) => Err("Unsupported message type"@),
            None => Err("Invalid message type: "@ + role),
        },
        Some(_) => Err("Invalid role"@),
        None => Err("Missing role"@),
    }
}

/// Deserialization of a standalone variant: the `message_type` entry must
/// name the variant exactly.
pub open spec fn decode_variant(obj: Seq<(Seq<char>, JsonValueView)>, kind: MessageType) -> Result<
    FieldsView,
    Seq<char>,
> {
    match assoc_get(obj, "message_type"@) {
        Some(JsonValueView::Text(s)) => if s == kind_name(kind) {
            decode_envelope(obj, kind)
        } else {
            Err("Unexpected message type: "@ + s)
        },
        Some(_) => Err("Invalid message_type"@),
        None => Err("Missing message_type"@),
    }
}

/// Standalone chat deserialization: the free-form `role` entry is required
/// and kept as the message's role.
pub open spec fn decode_chat(obj: Seq<(Seq<char>, JsonValueView)>) -> Result<ChatView, Seq<char>> {
    match assoc_get(obj, "role"@) {
        Some(JsonValueView::Text(role)) => match decode_variant(obj, MessageType::Chat) {
            Ok(f) => Ok(ChatView { role, base: f }),
            Err(e) => Err(e),
        },
        Some(_) => Err("Invalid role"@),
        None => Err("Missing role"@),
    }
}

/// Standalone tool deserialization.
pub open spec fn decode_tool_standalone(obj: Seq<(Seq<char>, JsonValueView)>) -> Result<
    ToolView,
    Seq<char>,
> {
    match decode_variant(obj, MessageType::Tool) {
        Ok(f) => decode_tool_fields(obj, f),
        Err(e) => Err(e),
    }
}

/// The wire keys are pairwise distinct.
proof fn lemma_wire_keys_distinct()
    ensures
        "role"@ != "content"@,
        "role"@ != "example"@,
        "role"@ != "message_type"@,
        "role"@ != "additional_kwargs"@,
        "role"@ != "response_metadata"@,
        "role"@ != "id"@,
        "role"@ != "name"@,
        "role"@ != "tool_call_id"@,
        "role"@ != "artifact"@,
        "role"@ != "status"@,
        "content"@ != "example"@,
        "content"@ != "message_type"@,
        "content"@ != "additional_kwargs"@,
        "content"@ != "response_metadata"@,
        "content"@ != "id"@,
        "content"@ != "name"@,
        "content"@ != "tool_call_id"@,
        "content"@ != "artifact"@,
        "content"@ != "status"@,
        "example"@ != "message_type"@,
        "example"@ != "additional_kwargs"@,
        "example"@ != "response_metadata"@,
        "example"@ != "id"@,
        "example"@ != "name"@,
        "example"@ != "tool_call_id"@,
        "example"@ != "artifact"@,
        "example"@ != "status"@,
        "message_type"@ != "additional_kwargs"@,
        "message_type"@ != "response_metadata"@,
        "message_type"@ != "id"@,
        "message_type"@ != "name"@,
        "message_type"@ != "tool_call_id"@,
        "message_type"@ != "artifact"@,
        "message_type"@ != "status"@,
        "additional_kwargs"@ != "response_metadata"@,
        "additional_kwargs"@ != "id"@,
        "additional_kwargs"@ != "name"@,
        "additional_kwargs"@ != "tool_call_id"@,
        "additional_kwargs"@ != "artifact"@,
        "additional_kwargs"@ != "status"@,
        "response_metadata"@ != "id"@,
        "response_metadata"@ != "name"@,
        "response_metadata"@ != "tool_call_id"@,
        "response_metadata"@ != "artifact"@,
        "response_metadata"@ != "status"@,
        "id"@ != "name"@,
        "id"@ != "tool_call_id"@,
        "id"@ != "artifact"@,
        "id"@ != "status"@,
        "name"@ != "tool_call_id"@,
        "name"@ != "artifact"@,
        "name"@ != "status"@,
        "tool_call_id"@ != "artifact"@,
        "tool_call_id"@ != "status"@,
        "artifact"@ != "status"@,
{
    reveal_strlit("role");
    reveal_strlit("content");
    reveal_strlit("example");
    reveal_strlit("message_type");
    reveal_strlit("additional_kwargs");
    reveal_strlit("response_metadata");
    reveal_strlit("id");
    reveal_strlit("name");
    reveal_strlit("tool_call_id");
    reveal_strlit("artifact");
    reveal_strlit("status");
    assert("role"@ != "content"@) by { assert("role"@.len() != "content"@.len()); }
    assert("role"@ != "example"@) by { assert("role"@.len() != "example"@.len()); }
    assert("role"@ != "message_type"@) by { assert("role"@.len() != "message_type"@.len()); }
    assert("role"@ != "additional_kwargs"@) by { assert("role"@.len() != "additional_kwargs"@.len()); }
    assert("role"@ != "response_metadata"@) by { assert("role"@.len() != "response_metadata"@.len()); }
    assert("role"@ != "id"@) by { assert("role"@.len() != "id"@.len()); }
    assert("role"@ != "name"@) by { assert("role"@[0] != "name"@[0]); }
    assert("role"@ != "tool_call_id"@) by { assert("role"@.len() != "tool_call_id"@.len()); }
    assert("role"@ != "artifact"@) by { assert("role"@.len() != "artifact"@.len()); }
    assert("role"@ != "status"@) by { assert("role"@.len() != "status"@.len()); }
    assert("content"@ != "example"@) by { assert("content"@[0] != "example"@[0]); }
    assert("content"@ != "message_type"@) by { assert("content"@.len() != "message_type"@.len()); }
    assert("content"@ != "additional_kwargs"@) by { assert("content"@.len() != "additional_kwargs"@.len()); }
    assert("content"@ != "response_metadata"@) by { assert("content"@.len() != "response_metadata"@.len()); }
    assert("content"@ != "id"@) by { assert("content"@.len() != "id"@.len()); }
    assert("content"@ != "name"@) by { assert("content"@.len() != "name"@.len()); }
    assert("content"@ != "tool_call_id"@) by { assert("content"@.len() != "tool_call_id"@.len()); }
    assert("content"@ != "artifact"@) by { assert("content"@.len() != "artifact"@.len()); }
    assert("content"@ != "status"@) by { assert("content"@.len() != "status"@.len()); }
    assert("example"@ != "message_type"@) by { assert("example"@.len() != "message_type"@.len()); }
    assert("example"@ != "additional_kwargs"@) by { assert("example"@.len() != "additional_kwargs"@.len()); }
    assert("example"@ != "response_metadata"@) by { assert("example"@.len() != "response_metadata"@.len()); }
    assert("example"@ != "id"@) by { assert("example"@.len() != "id"@.len()); }
    assert("example"@ != "name"@) by { assert("example"@.len() != "name"@.len()); }
    assert("example"@ != "tool_call_id"@) by { assert("example"@.len() != "tool_call_id"@.len()); }
    assert("example"@ != "artifact"@) by { assert("example"@.len() != "artifact"@.len()); }
    assert("example"@ != "status"@) by { assert("example"@.len() != "status"@.len()); }
    assert("message_type"@ != "additional_kwargs"@) by { assert("message_type"@.len() != "additional_kwargs"@.len()); }
    assert("message_type"@ != "response_metadata"@) by { assert("message_type"@.len() != "response_metadata"@.len()); }
    assert("message_type"@ != "id"@) by { assert("message_type"@.len() != "id"@.len()); }
    assert("message_type"@ != "name"@) by { assert("message_type"@.len() != "name"@.len()); }
    assert("message_type"@ != "tool_call_id"@) by { assert("message_type"@[0] != "tool_call_id"@[0]); }
    assert("message_type"@ != "artifact"@) by { assert("message_type"@.len() != "artifact"@.len()); }
    assert("message_type"@ != "status"@) by { assert("message_type"@.len() != "status"@.len()); }
    assert("additional_kwargs"@ != "response_metadata"@) by { assert("additional_kwargs"@[0] != "response_metadata"@[0]); }
    assert("additional_kwargs"@ != "id"@) by { assert("additional_kwargs"@.len() != "id"@.len()); }
    assert("additional_kwargs"@ != "name"@) by { assert("additional_kwargs"@.len() != "name"@.len()); }
    assert("additional_kwargs"@ != "tool_call_id"@) by { assert("additional_kwargs"@.len() != "tool_call_id"@.len()); }
    assert("additional_kwargs"@ != "artifact"@) by { assert("additional_kwargs"@.len() != "artifact"@.len()); }
    assert("additional_kwargs"@ != "status"@) by { assert("additional_kwargs"@.len() != "status"@.len()); }
    assert("response_metadata"@ != "id"@) by { assert("response_metadata"@.len() != "id"@.len()); }
    assert("response_metadata"@ != "name"@) by { assert("response_metadata"@.len() != "name"@.len()); }
    assert("response_metadata"@ != "tool_call_id"@) by { assert("response_metadata"@.len() != "tool_call_id"@.len()); }
    assert("response_metadata"@ != "artifact"@) by { assert("response_metadata"@.len() != "artifact"@.len()); }
    assert("response_metadata"@ != "status"@) by { assert("response_metadata"@.len() != "status"@.len()); }
    assert("id"@ != "name"@) by { assert("id"@.len() != "name"@.len()); }
    assert("id"@ != "tool_call_id"@) by { assert("id"@.len() != "tool_call_id"@.len()); }
    assert("id"@ != "artifact"@) by { assert("id"@.len() != "artifact"@.len()); }
    assert("id"@ != "status"@) by { assert("id"@.len() != "status"@.len()); }
    assert("name"@ != "tool_call_id"@) by { assert("name"@.len() != "tool_call_id"@.len()); }
    assert("name"@ != "artifact"@) by { assert("name"@.len() != "artifact"@.len()); }
    assert("name"@ != "status"@) by { assert("name"@.len() != "status"@.len()); }
    assert("tool_call_id"@ != "artifact"@) by { assert("tool_call_id"@.len() != "artifact"@.len()); }
    assert("tool_call_id"@ != "status"@) by { assert("tool_call_id"@.len() != "status"@.len()); }
    assert("artifact"@ != "status"@) by { assert("artifact"@.len() != "status"@.len()); }
}

/// An error around a fixed description.
fn fail(msg: &str) -> (r: InvalidMessageTypeError)
    ensures
        r@ == msg@,
{
    InvalidMessageTypeError::new(String::from_str(msg))
}

/// The wire spelling of a status.
fn status_str(s: &ToolStatus) -> (r: &str)
    ensures
        r@ == status_label(*s),
{
    match s {
        ToolStatus::Success => "Success",
        ToolStatus::Error => "Error",
    }
}

/// Appends the envelope entries, as `encode_envelope` lays them out.
fn push_envelope(obj: &mut JsonObject, f: &BaseMessageFields)
    requires
        old(obj).wf(),
        !assoc_has(old(obj)@, "content"@),
        !assoc_has(old(obj)@, "example"@),
        !assoc_has(old(obj)@, "message_type"@),
        !assoc_has(old(obj)@, "additional_kwargs"@),
        !assoc_has(old(obj)@, "response_metadata"@),
        !assoc_has(old(obj)@, "id"@),
        !assoc_has(old(obj)@, "name"@),
    ensures
        final(obj).wf(),
        final(obj)@ == old(obj)@ + encode_envelope(f@),
        (tables_distinct(old(obj)@) && f@.wf()) ==> tables_distinct(final(obj)@),
{
    proof {
        lemma_wire_keys_distinct();
    }
    let ghost s0 = obj@;
    obj.push_entry(String::from_str("content"), JsonValue::Text(f.content.clone()));
    obj.push_entry(String::from_str("example"), JsonValue::Flag(f.example));
    obj.push_entry(
        String::from_str("message_type"),
        JsonValue::Text(String::from_str(f.message_type.variant_name())),
    );
    if !f.additional_kwargs.is_empty() {
        obj.push_entry(
            String::from_str("additional_kwargs"),
            JsonValue::Table(f.additional_kwargs.duplicate()),
        );
    }
    if !f.response_metadata.is_empty() {
        obj.push_entry(
            String::from_str("response_metadata"),
            JsonValue::Table(f.response_metadata.duplicate()),
        );
    }
    match &f.id {
        Some(i) => obj.push_entry(String::from_str("id"), JsonValue::Text(i.clone())),
        None => (),
    }
    match &f.name {
        Some(nm) => obj.push_entry(String::from_str("name"), JsonValue::Text(nm.clone())),
        None => (),
    }
    proof {
        assert(obj@ =~= s0 + encode_envelope(f@));
    }
}

/// The staged envelope of a decoded object, as `decode_envelope` says.
fn envelope_from_json(obj: &JsonObject, message_type: MessageType) -> (r: Result<
    BaseMessageFields,
    InvalidMessageTypeError,
>)
    ensures
        r matches Ok(f) ==> decode_envelope(obj@, message_type) == Ok::<_, Seq<char>>(f@)
            && f.message_type == message_type && (tables_distinct(obj@) ==> f@.wf()),
        r matches Err(e) ==> decode_envelope(obj@, message_type) matches Err(msg) && e@ == msg,
{
    let content = match obj.get("content") {
        Some(JsonValue::Text(s)) => s.clone(),
        Some(_) => {
            return Err(fail("Invalid content"));
        },
        None => {
            return Err(fail("Missing content"));
        },
    };
    let example = match obj.get("example") {
        Some(JsonValue::Flag(b)) => *b,
        Some(_) => {
            return Err(fail("Invalid example"));
        },
        None => false,
    };
    let additional_kwargs = match obj.get("additional_kwargs") {
        Some(JsonValue::Table(m)) => {
            proof {
                if tables_distinct(obj@) {
                    lemma_table_value_distinct(obj@, "additional_kwargs"@, m@);
                }
            }
            m.duplicate()
        },
        Some(_) => {
            return Err(fail("Invalid additional_kwargs"));
        },
        None => StringMap::new(),
    };
    let response_metadata = match obj.get("response_metadata") {
        Some(JsonValue::Table(m)) => {
            proof {
                if tables_distinct(obj@) {
                    lemma_table_value_distinct(obj@, "response_metadata"@, m@);
                }
            }
            m.duplicate()
        },
        Some(_) => {
            return Err(fail("Invalid response_metadata"));
        },
        None => StringMap::new(),
    };
    let id = match obj.get("id") {
        Some(JsonValue::Text(s)) => Some(s.clone()),
        Some(JsonValue::Null) => None,
        Some(_) => {
            return Err(fail("Invalid id"));
        },
        None => None,
    };
    let name = match obj.get("name") {
        Some(JsonValue::Text(s)) => Some(s.clone()),
        Some(JsonValue::Null) => None,
        Some(_) => {
            return Err(fail("Invalid name"));
        },
        None => None,
    };
    let r = BaseMessageFields {
        content,
        example,
        message_type,
        additional_kwargs,
        response_metadata,
        id,
        name,
    };
    proof {
        match decode_envelope(obj@, message_type) {
            Ok(f) => {
                assert(r@ =~= f);
            },
            Err(_) => {},
        }
    }
    Ok(r)
}

/// The tool fields of a decoded object, as `decode_tool_fields` says.
fn tool_fields_from_json(obj: &JsonObject, base: BaseMessageFields) -> (r: Result<
    ToolMessage,
    InvalidMessageTypeError,
>)
    ensures
        r matches Ok(t) ==> decode_tool_fields(obj@, base@) == Ok::<_, Seq<char>>(t@),
        r matches Err(e) ==> decode_tool_fields(obj@, base@) matches Err(msg) && e@ == msg,
{
    let tool_call_id = match obj.get("tool_call_id") {
        Some(JsonValue::Text(s)) => s.clone(),
        Some(JsonValue::Null) => {
            return Err(fail("Missing tool_call_id for ToolMessage"));
        },
        Some(_) => {
            return Err(fail("Invalid tool_call_id"));
        },
        None => {
            return Err(fail("Missing tool_call_id for ToolMessage"));
        },
    };
    let status = match obj.get("status") {
        Some(JsonValue::Text(s)) => if str_eq(s.as_str(), "Success") {
            ToolStatus::Success
        } else if str_eq(s.as_str(), "Error") {
            ToolStatus::Error
        } else {
            return Err(fail("Invalid status"));
        },
        Some(JsonValue::Null) => {
            return Err(fail("Missing status for ToolMessage"));
        },
        Some(_) => {
            return Err(fail("Invalid status"));
        },
        None => {
            return Err(fail("Missing status for ToolMessage"));
        },
    };
    let artifact = match obj.get("artifact") {
        Some(JsonValue::Text(s)) => Some(s.clone()),
        Some(JsonValue::Null) => None,
        Some(_) => {
            return Err(fail("Invalid artifact"));
        },
        None => None,
    };
    let r = ToolMessage { tool_call_id, artifact, status, base };
    proof {
        match decode_tool_fields(obj@, r.base@) {
            Ok(t) => {
                assert(r@ =~= t);
            },
            Err(_) => {},
        }
    }
    Ok(r)
}

/// The message_type check shared by the standalone variant decoders, as
/// `decode_variant` says.
fn variant_envelope_from_json(obj: &JsonObject, kind: MessageType) -> (r: Result<
    BaseMessageFields,
    InvalidMessageTypeError,
>)
    ensures
        r matches Ok(f) ==> decode_variant(obj@, kind) == Ok::<_, Seq<char>>(f@) && f.message_type
            == kind && (tables_distinct(obj@) ==> f@.wf()),
        r matches Err(e) ==> decode_variant(obj@, kind) matches Err(msg) && e@ == msg,
{
    match obj.get("message_type") {
        Some(JsonValue::Text(s)) => {
            if str_eq(s.as_str(), kind.variant_name()) {
                envelope_from_json(obj, kind)
            } else {
                let mut msg = String::from_str("Unexpected message type: ");
                msg.append(s.as_str());
                Err(InvalidMessageTypeError::new(msg))
            }
        },
        Some(_) => Err(fail("Invalid message_type")),
        None => Err(fail("Missing message_type")),
    }
}

impl MessageEnum {
    /// Serialization: one flat JSON object, as `encode_message` lays it out.
    pub fn to_json(&self) -> (r: JsonObject)
        ensures
            r@ == encode_message(self@),
            r.wf(),
            self.wf() ==> tables_distinct(r@),
    {
        proof {
            lemma_wire_keys_distinct();
        }
        let mut obj = JsonObject::new();
        obj.push_entry(String::from_str("role"), JsonValue::Text(String::from_str(self.role())));
        match self {
            MessageEnum::Tool(t) => {
                obj.push_entry(String::from_str("tool_call_id"), JsonValue::Text(t.tool_call_id.clone()));
                match &t.artifact {
                    Some(a) => obj.push_entry(
                        String::from_str("artifact"),
                        JsonValue::Text(a.clone()),
                    ),
                    None => (),
                }
                obj.push_entry(
                    String::from_str("status"),
                    JsonValue::Text(String::from_str(status_str(&t.status))),
                );
                push_envelope(&mut obj, &t.base);
                proof {
                    assert(obj@ =~= encode_message(self@));
                }
            },
            MessageEnum::Ai(m) => {
                push_envelope(&mut obj, &m.base);
                proof {
                    assert(obj@ =~= encode_message(self@));
                }
            },
            MessageEnum::Human(m) => {
                push_envelope(&mut obj, &m.base);
                proof {
                    assert(obj@ =~= encode_message(self@));
                }
            },
            MessageEnum::System(m) => {
                push_envelope(&mut obj, &m.base);
                proof {
                    assert(obj@ =~= encode_message(self@));
                }
            },
        }
        obj
    }

    /// Deserialization, as `decode_message` says: the object's `role` entry
    /// picks the variant, every optional field defaults, and a tool message
    /// requires its call identifier and status.
    pub fn from_json(obj: &JsonObject) -> (r: Result<MessageEnum, InvalidMessageTypeError>)
        ensures
            r matches Ok(m) ==> decode_message(obj@) == Ok::<_, Seq<char>>(m@) && (tables_distinct(
                obj@,
            ) ==> m.wf()),
            r matches Err(e) ==> decode_message(obj@) matches Err(msg) && e@ == msg,
    {
        let role = match obj.get("role") {
            Some(JsonValue::Text(s)) => s,
            Some(_) => {
                return Err(fail("Invalid role"));
            },
            None => {
                return Err(fail("Missing role"));
            },
        };
        let kind = match MessageType::try_from(role.as_str()) {
            Ok(k) => k,
            Err(e) => {
                return Err(e);
            },
        };
        match kind {
            MessageType::Ai => match envelope_from_json(obj, MessageType::Ai) {
                Ok(base) => Ok(MessageEnum::Ai(AiMessage { base })),
                Err(e) => Err(e),
            },
            MessageType::Human => match envelope_from_json(obj, MessageType::Human) {
                Ok(base) => Ok(MessageEnum::Human(HumanMessage { base })),
                Err(e) => Err(e),
            },
            MessageType::System => match envelope_from_json(obj, MessageType::System) {
                Ok(base) => Ok(MessageEnum::System(SystemMessage { base })),
                Err(e) => Err(e),
            },
            MessageType::Tool => match envelope_from_json(obj, MessageType::Tool) {
                Ok(base) => match tool_fields_from_json(obj, base) {
                    Ok(t) => Ok(MessageEnum::Tool(t)),
                    Err(e) => Err(e),
                },
                Err(e) => Err(e),
            },
            MessageType::Chat => Err(fail("Unsupported message type")),
        }
    }
}

impl HumanMessage {
    /// Standalone serialization: the envelope entries alone.
    pub fn to_json(&self) -> (r: JsonObject)
        ensures
            r@ == encode_envelope(self@),
            r.wf(),
            self.wf() ==> tables_distinct(r@),
    {
        let mut obj = JsonObject::new();
        push_envelope(&mut obj, &self.base);
        proof {
            assert(obj@ =~= encode_envelope(self@));
        }
        obj
    }

    /// Standalone deserialization, as `decode_variant` says.
    pub fn from_json(obj: &JsonObject) -> (r: Result<HumanMessage, InvalidMessageTypeError>)
        ensures
            r matches Ok(m) ==> decode_variant(obj@, MessageType::Human) == Ok::<_, Seq<char>>(m@)
                && (tables_distinct(obj@) ==> m.wf()),
            r matches Err(e) ==> decode_variant(obj@, MessageType::Human) matches Err(msg) && e@
                == msg,
    {
        match variant_envelope_from_json(obj, MessageType::Human) {
            Ok(base) => Ok(HumanMessage { base }),
            Err(e) => Err(e),
        }
    }
}

impl AiMessage {
    /// Standalone serialization: the envelope entries alone.
    pub fn to_json(&self) -> (r: JsonObject)
        ensures
            r@ == encode_envelope(self@),
            r.wf(),
            self.wf() ==> tables_distinct(r@),
    {
        let mut obj = JsonObject::new();
        push_envelope(&mut obj, &self.base);
        proof {
            assert(obj@ =~= encode_envelope(self@));
        }
        obj
    }

    /// Standalone deserialization, as `decode_variant` says.
    pub fn from_json(obj: &JsonObject) -> (r: Result<AiMessage, InvalidMessageTypeError>)
        ensures
            r matches Ok(m) ==> decode_variant(obj@, MessageType::Ai) == Ok::<_, Seq<char>>(m@) && (
            tables_distinct(obj@) ==> m.wf()),
            r matches Err(e) ==> decode_variant(obj@, MessageType::Ai) matches Err(msg) && e@
                == msg,
    {
        match variant_envelope_from_json(obj, MessageType::Ai) {
            Ok(base) => Ok(AiMessage { base }),
            Err(e) => Err(e),
        }
    }
}

impl SystemMessage {
    /// Standalone serialization: the envelope entries alone.
    pub fn to_json(&self) -> (r: JsonObject)
        ensures
            r@ == encode_envelope(self@),
            r.wf(),
            self.wf() ==> tables_distinct(r@),
    {
        let mut obj = JsonObject::new();
        push_envelope(&mut obj, &self.base);
        proof {
            assert(obj@ =~= encode_envelope(self@));
        }
        obj
    }

    /// Standalone deserialization, as `decode_variant` says.
    pub fn from_json(obj: &JsonObject) -> (r: Result<SystemMessage, InvalidMessageTypeError>)
        ensures
            r matches Ok(m) ==> decode_variant(obj@, MessageType::System) == Ok::<_, Seq<char>>(m@)
                && (tables_distinct(obj@) ==> m.wf()),
            r matches Err(e) ==> decode_variant(obj@, MessageType::System) matches Err(msg) && e@
                == msg,
    {
        match variant_envelope_from_json(obj, MessageType::System) {
            Ok(base) => Ok(SystemMessage { base }),
            Err(e) => Err(e),
        }
    }
}

impl ChatMessage {
    /// Standalone serialization: the stored free-form role leads the
    /// envelope — the documented quirk of the wire format, where `role` is
    /// at once the union discriminator key and Chat's user-meaningful field.
    pub fn to_json(&self) -> (r: JsonObject)
        ensures
            r@ == encode_chat(self@),
            r.wf(),
            self.wf() ==> tables_distinct(r@),
    {
        proof {
            lemma_wire_keys_distinct();
        }
        let mut obj = JsonObject::new();
        obj.push_entry(String::from_str("role"), JsonValue::Text(self.role.clone()));
        push_envelope(&mut obj, &self.base);
        proof {
            assert(obj@ =~= encode_chat(self@));
        }
        obj
    }

    /// Standalone deserialization, as `decode_chat` says: the `role` entry
    /// is required and kept as the stored role.
    pub fn from_json(obj: &JsonObject) -> (r: Result<ChatMessage, InvalidMessageTypeError>)
        ensures
            r matches Ok(m) ==> decode_chat(obj@) == Ok::<_, Seq<char>>(m@) && (tables_distinct(
                obj@,
            ) ==> m.wf()),
            r matches Err(e) ==> decode_chat(obj@) matches Err(msg) && e@ == msg,
    {
        let role = match obj.get("role") {
            Some(JsonValue::Text(s)) => s.clone(),
            Some(_) => {
                return Err(fail("Invalid role"));
            },
            None => {
                return Err(fail("Missing role"));
            },
        };
        match variant_envelope_from_json(obj, MessageType::Chat) {
            Ok(base) => Ok(ChatMessage { role, base }),
            Err(e) => Err(e),
        }
    }
}

impl ToolMessage {
    /// Standalone serialization: the tool fields lead the envelope.
    pub fn to_json(&self) -> (r: JsonObject)
        ensures
            r@ == encode_tool_standalone(self@),
            r.wf(),
            self.wf() ==> tables_distinct(r@),
    {
        proof {
            lemma_wire_keys_distinct();
        }
        let mut obj = JsonObject::new();
        obj.push_entry(String::from_str("tool_call_id"), JsonValue::Text(self.tool_call_id.clone()));
        match &self.artifact {
            Some(a) => obj.push_entry(String::from_str("artifact"), JsonValue::Text(a.clone())),
            None => (),
        }
        obj.push_entry(
            String::from_str("status"),
            JsonValue::Text(String::from_str(status_str(&self.status))),
        );
        push_envelope(&mut obj, &self.base);
        proof {
            assert(obj@ =~= encode_tool_standalone(self@));
        }
        obj
    }

    /// Standalone deserialization, as `decode_tool_standalone` says.
    pub fn from_json(obj: &JsonObject) -> (r: Result<ToolMessage, InvalidMessageTypeError>)
        ensures
            r matches Ok(m) ==> decode_tool_standalone(obj@) == Ok::<_, Seq<char>>(m@) && (
            tables_distinct(obj@) ==> m.wf()),
            r matches Err(e) ==> decode_tool_standalone(obj@) matches Err(msg) && e@ == msg,
    {
        match variant_envelope_from_json(obj, MessageType::Tool) {
            Ok(base) => tool_fields_from_json(obj, base),
            Err(e) => Err(e),
        }
    }
}

/// The canonical label of each kind parses back to that kind.
pub proof fn lemma_parse_kind_label(k: MessageType)
    ensures
        parse_kind(kind_label(k)) == Some(k),
{
    reveal_strlit("Ai");
    reveal_strlit("AiMessage");
    reveal_strlit("Chat");
    reveal_strlit("ChatMessage");
    reveal_strlit("Human");
    reveal_strlit("HumanMessage");
    reveal_strlit("System");
    reveal_strlit("SystemMessage");
    reveal_strlit("Tool");
    reveal_strlit("ToolMessage");
    reveal_strlit("ai");
    reveal_strlit("chat");
    reveal_strlit("human");
    reveal_strlit("system");
    reveal_strlit("tool");
    if k == MessageType::Ai {
        assert("ai"@ != "human"@) by { assert("ai"@.len() != "human"@.len()); }
        assert("ai"@ != "Human"@) by { assert("ai"@.len() != "Human"@.len()); }
        assert("ai"@ != "HumanMessage"@) by { assert("ai"@.len() != "HumanMessage"@.len()); }
    }
    if k == MessageType::System {
        assert("system"@ != "human"@) by { assert("system"@.len() != "human"@.len()); }
        assert("system"@ != "Human"@) by { assert("system"@.len() != "Human"@.len()); }
        assert("system"@ != "HumanMessage"@) by { assert("system"@.len() != "HumanMessage"@.len()); }
        assert("system"@ != "ai"@) by { assert("system"@.len() != "ai"@.len()); }
        assert("system"@ != "Ai"@) by { assert("system"@.len() != "Ai"@.len()); }
        assert("system"@ != "AiMessage"@) by { assert("system"@.len() != "AiMessage"@.len()); }
    }
    if k == MessageType::Chat {
        assert("chat"@ != "human"@) by { assert("chat"@.len() != "human"@.len()); }
        assert("chat"@ != "Human"@) by { assert("chat"@.len() != "Human"@.len()); }
        assert("chat"@ != "HumanMessage"@) by { assert("chat"@.len() != "HumanMessage"@.len()); }
        assert("chat"@ != "ai"@) by { assert("chat"@.len() != "ai"@.len()); }
        assert("chat"@ != "Ai"@) by { assert("chat"@.len() != "Ai"@.len()); }
        assert("chat"@ != "AiMessage"@) by { assert("chat"@.len() != "AiMessage"@.len()); }
        assert("chat"@ != "system"@) by { assert("chat"@.len() != "system"@.len()); }
        assert("chat"@ != "System"@) by { assert("chat"@.len() != "System"@.len()); }
        assert("chat"@ != "SystemMessage"@) by { assert("chat"@.len() != "SystemMessage"@.len()); }
    }
    if k == MessageType::Tool {
        assert("tool"@ != "human"@) by { assert("tool"@.len() != "human"@.len()); }
        assert("tool"@ != "Human"@) by { assert("tool"@.len() != "Human"@.len()); }
        assert("tool"@ != "HumanMessage"@) by { assert("tool"@.len() != "HumanMessage"@.len()); }
        assert("tool"@ != "ai"@) by { assert("tool"@.len() != "ai"@.len()); }
        assert("tool"@ != "Ai"@) by { assert("tool"@.len() != "Ai"@.len()); }
        assert("tool"@ != "AiMessage"@) by { assert("tool"@.len() != "AiMessage"@.len()); }
        assert("tool"@ != "system"@) by { assert("tool"@.len() != "system"@.len()); }
        assert("tool"@ != "System"@) by { assert("tool"@.len() != "System"@.len()); }
        assert("tool"@ != "SystemMessage"@) by { assert("tool"@.len() != "SystemMessage"@.len()); }
        assert("tool"@ != "chat"@) by { assert("tool"@[0] != "chat"@[0]); }
        assert("tool"@ != "Chat"@) by { assert("tool"@[0] != "Chat"@[0]); }
        assert("tool"@ != "ChatMessage"@) by { assert("tool"@.len() != "ChatMessage"@.len()); }
    }
}

/// Where each wire key lands in a serialized envelope: the three required
/// entries always, the optional four only when their field has something to
/// say, and nothing under any other key.
pub open spec fn envelope_entry(f: FieldsView, k: Seq<char>) -> Option<JsonValueView> {
    if k == "content"@ {
        Some(JsonValueView::Text(f.content))
    } else if k == "example"@ {
        Some(JsonValueView::Flag(f.example))
    } else if k == "message_type"@ {
        Some(JsonValueView::Text(kind_name(f.message_type)))
    } else if k == "additional_kwargs"@ {
        if f.additional_kwargs.len() > 0 {
            Some(JsonValueView::Table(f.additional_kwargs))
        } else {
            None
        }
    } else if k == "response_metadata"@ {
        if f.response_metadata.len() > 0 {
            Some(JsonValueView::Table(f.response_metadata))
        } else {
            None
        }
    } else if k == "id"@ {
        match f.id {
            Some(i) => Some(JsonValueView::Text(i)),
            None => None,
        }
    } else if k == "name"@ {
        match f.name {
            Some(nm) => Some(JsonValueView::Text(nm)),
            None => None,
        }
    } else {
        None
    }
}

/// Where each wire key lands in a serialized union value: the `role` entry,
/// the tool extras on the Tool arm, and the envelope entries.
pub open spec fn message_entry(v: MessageView, k: Seq<char>) -> Option<JsonValueView> {
    if k == "role"@ {
        Some(JsonValueView::Text(kind_label(arm_kind(v))))
    } else {
        match v {
            MessageView::Tool(t) => if k == "tool_call_id"@ {
                Some(JsonValueView::Text(t.tool_call_id))
            } else if k == "artifact"@ {
                match t.artifact {
                    Some(a) => Some(JsonValueView::Text(a)),
                    None => None,
                }
            } else if k == "status"@ {
                Some(JsonValueView::Text(status_label(t.status)))
            } else {
                envelope_entry(t.base, k)
            },
            _ => envelope_entry(arm_fields(v), k),
        }
    }
}

/// A serialized envelope serves exactly the entries `envelope_entry` names.
pub proof fn lemma_encode_envelope_get(f: FieldsView)
    ensures
        forall|k: Seq<char>| #[trigger] assoc_get(encode_envelope(f), k) == envelope_entry(f, k),
{
    lemma_wire_keys_distinct();
    assert forall|k: Seq<char>| #[trigger] assoc_get(encode_envelope(f), k) == envelope_entry(
        f,
        k,
    ) by {
        let e0 = Seq::<(Seq<char>, JsonValueView)>::empty();
        let e1 = e0.push(("content"@, JsonValueView::Text(f.content)));
        let e2 = e1.push(("example"@, JsonValueView::Flag(f.example)));
        let e3 = e2.push(("message_type"@, JsonValueView::Text(kind_name(f.message_type))));
        lemma_assoc_get_push(e0, ("content"@, JsonValueView::Text(f.content)), k);
        lemma_assoc_get_push(e1, ("example"@, JsonValueView::Flag(f.example)), k);
        lemma_assoc_get_push(
            e2,
            ("message_type"@, JsonValueView::Text(kind_name(f.message_type))),
            k,
        );
        let e4 = if f.additional_kwargs.len() > 0 {
            e3.push(("additional_kwargs"@, JsonValueView::Table(f.additional_kwargs)))
        } else {
            e3
        };
        if f.additional_kwargs.len() > 0 {
            lemma_assoc_get_push(
                e3,
                ("additional_kwargs"@, JsonValueView::Table(f.additional_kwargs)),
                k,
            );
        }
        let e5 = if f.response_metadata.len() > 0 {
            e4.push(("response_metadata"@, JsonValueView::Table(f.response_metadata)))
        } else {
            e4
        };
        if f.response_metadata.len() > 0 {
            lemma_assoc_get_push(
                e4,
                ("response_metadata"@, JsonValueView::Table(f.response_metadata)),
                k,
            );
        }
        let e6 = match f.id {
            Some(i) => e5.push(("id"@, JsonValueView::Text(i))),
            None => e5,
        };
        match f.id {
            Some(i) => {
                lemma_assoc_get_push(e5, ("id"@, JsonValueView::Text(i)), k);
            },
            None => {},
        }
        let e7 = match f.name {
            Some(nm) => e6.push(("name"@, JsonValueView::Text(nm))),
            None => e6,
        };
        match f.name {
            Some(nm) => {
                lemma_assoc_get_push(e6, ("name"@, JsonValueView::Text(nm)), k);
            },
            None => {},
        }
        assert(encode_envelope(f) == e7);
    }
}

/// A serialized union value serves exactly the entries `message_entry` names.
pub proof fn lemma_encode_message_get(v: MessageView)
    ensures
        forall|k: Seq<char>| #[trigger] assoc_get(encode_message(v), k) == message_entry(v, k),
{
    lemma_wire_keys_distinct();
    match v {
        MessageView::Tool(t) => {
            lemma_encode_envelope_get(t.base);
            assert forall|k: Seq<char>| #[trigger] assoc_get(encode_message(v), k)
                == message_entry(v, k) by {
                let role_part = seq![("role"@, JsonValueView::Text("tool"@))];
                lemma_assoc_get_concat(
                    role_part + tool_extras(t),
                    encode_envelope(t.base),
                    k,
                );
                lemma_assoc_get_concat(role_part, tool_extras(t), k);
                assert(role_part.drop_first() =~= Seq::<(Seq<char>, JsonValueView)>::empty());
                let x0 = Seq::<(Seq<char>, JsonValueView)>::empty();
                let x1 = x0.push(("tool_call_id"@, JsonValueView::Text(t.tool_call_id)));
                lemma_assoc_get_push(x0, ("tool_call_id"@, JsonValueView::Text(t.tool_call_id)), k);
                let x2 = match t.artifact {
                    Some(a) => x1.push(("artifact"@, JsonValueView::Text(a))),
                    None => x1,
                };
                match t.artifact {
                    Some(a) => {
                        lemma_assoc_get_push(x1, ("artifact"@, JsonValueView::Text(a)), k);
                    },
                    None => {},
                }
                lemma_assoc_get_push(
                    x2,
                    ("status"@, JsonValueView::Text(status_label(t.status))),
                    k,
                );
                assert(tool_extras(t) == x2.push(
                    ("status"@, JsonValueView::Text(status_label(t.status))),
                ));
                assert(kind_label(arm_kind(v)) == "tool"@);
            }
        },
        _ => {
            lemma_encode_envelope_get(arm_fields(v));
            assert forall|k: Seq<char>| #[trigger] assoc_get(encode_message(v), k)
                == message_entry(v, k) by {
                let role_part = seq![
                    ("role"@, JsonValueView::Text(kind_label(arm_kind(v)))),
                ];
                lemma_assoc_get_concat(role_part, encode_envelope(arm_fields(v)), k);
                assert(role_part.drop_first() =~= Seq::<(Seq<char>, JsonValueView)>::empty());
                assert(assoc_get(Seq::<(Seq<char>, JsonValueView)>::empty(), k) is None);
            }
        },
    }
}

/// An object that serves the envelope keys as a field set `f` would have
/// them serialized decodes, under any kind, to `f` with that kind.
pub proof fn lemma_decode_staged(
    obj: Seq<(Seq<char>, JsonValueView)>,
    f: FieldsView,
    kind: MessageType,
)
    requires
        assoc_get(obj, "content"@) == envelope_entry(f, "content"@),
        assoc_get(obj, "example"@) == envelope_entry(f, "example"@),
        assoc_get(obj, "additional_kwargs"@) == envelope_entry(f, "additional_kwargs"@),
        assoc_get(obj, "response_metadata"@) == envelope_entry(f, "response_metadata"@),
        assoc_get(obj, "id"@) == envelope_entry(f, "id"@),
        assoc_get(obj, "name"@) == envelope_entry(f, "name"@),
    ensures
        decode_envelope(obj, kind) == Ok::<_, Seq<char>>((FieldsView { message_type: kind, ..f })),
{
    lemma_wire_keys_distinct();
    if f.additional_kwargs.len() == 0 {
        assert(f.additional_kwargs =~= Seq::<(Seq<char>, Seq<char>)>::empty());
    }
    if f.response_metadata.len() == 0 {
        assert(f.response_metadata =~= Seq::<(Seq<char>, Seq<char>)>::empty());
    }
    match decode_envelope(obj, kind) {
        Ok(g) => {
            assert(g =~= (FieldsView { message_type: kind, ..f }));
        },
        Err(_) => {
            assert(false);
        },
    }
}

/// Round-trip: for every well-formed message of any variant, deserializing
/// its serialization yields the message back, structurally equal.
pub proof fn lemma_round_trip(v: MessageView)
    requires
        msg_wf(v),
    ensures
        decode_message(encode_message(v)) == Ok::<_, Seq<char>>(v),
{
    lemma_wire_keys_distinct();
    lemma_encode_message_get(v);
    lemma_parse_kind_label(arm_kind(v));
    let enc = encode_message(v);
    let f = arm_fields(v);
    assert(assoc_get(enc, "role"@) == Some(JsonValueView::Text(kind_label(arm_kind(v)))));
    assert(parse_kind(kind_label(arm_kind(v))) == Some(arm_kind(v)));
    lemma_decode_staged(enc, f, arm_kind(v));
    assert((FieldsView { message_type: arm_kind(v), ..f }) =~= f);
    match v {
        MessageView::Tool(t) => {
            reveal_strlit("Success");
            reveal_strlit("Error");
            assert("Success"@ != "Error"@) by {
                assert("Success"@.len() != "Error"@.len());
            }
            assert(parse_status(status_label(t.status)) == Some(t.status));
            match decode_tool_fields(enc, f) {
                Ok(t2) => {
                    assert(t2 =~= t);
                },
                Err(_) => {
                    assert(false);
                },
            }
        },
        _ => {},
    }
}

/// Omission law: serializing a message whose metadata mappings are empty and
/// whose id and name are absent yields an object without any of those four
/// keys.
pub proof fn lemma_omission(v: MessageView)
    requires
        arm_fields(v).additional_kwargs.len() == 0,
        arm_fields(v).response_metadata.len() == 0,
        arm_fields(v).id is None,
        arm_fields(v).name is None,
    ensures
        assoc_get(encode_message(v), "additional_kwargs"@) is None,
        assoc_get(encode_message(v), "response_metadata"@) is None,
        assoc_get(encode_message(v), "id"@) is None,
        assoc_get(encode_message(v), "name"@) is None,
        forall|i: int|
            0 <= i < encode_message(v).len() ==> ((#[trigger] encode_message(v)[i].0)
                != "additional_kwargs"@ && encode_message(v)[i].0 != "response_metadata"@
                && encode_message(v)[i].0 != "id"@ && encode_message(v)[i].0 != "name"@),
{
    lemma_wire_keys_distinct();
    lemma_encode_message_get(v);
    let enc = encode_message(v);
    assert forall|i: int| 0 <= i < enc.len() implies ((#[trigger] enc[i].0)
        != "additional_kwargs"@ && enc[i].0 != "response_metadata"@ && enc[i].0 != "id"@
        && enc[i].0 != "name"@) by {
        if enc[i].0 == "additional_kwargs"@ || enc[i].0 == "response_metadata"@ || enc[i].0
            == "id"@ || enc[i].0 == "name"@ {
            crate::assoc::lemma_assoc_none_no_match(enc, enc[i].0);
        }
    }
}

/// Discriminator fidelity for the union: a decoded value's kind is exactly
/// what the discriminator parser makes of the object's `role` entry — never
/// a silent default — and its stored discriminator matches its arm. Since a
/// union value reports the canonical label of its arm as its role, the
/// decoded role string reproduces a canonical `role` entry literally; an
/// alias entry such as `HumanMessage` decodes to the same kind but reads
/// back as its canonical label.
pub proof fn lemma_discriminator_fidelity(obj: Seq<(Seq<char>, JsonValueView)>, v: MessageView)
    requires
        decode_message(obj) == Ok::<_, Seq<char>>(v),
    ensures
        exists|r: Seq<char>|
            assoc_get(obj, "role"@) == Some(JsonValueView::Text(r)) && parse_kind(r) == Some(
                arm_kind(v),
            ),
        arm_fields(v).message_type == arm_kind(v),
{
    match assoc_get(obj, "role"@) {
        Some(JsonValueView::Text(role)) => {
            assert(assoc_get(obj, "role"@) == Some(JsonValueView::Text(role)) && parse_kind(role)
                == Some(arm_kind(v)));
        },
        _ => {
            assert(false);
        },
    }
}

/// Discriminator fidelity for a standalone variant: a decoded envelope's
/// discriminator is named exactly by the object's `message_type` entry.
pub proof fn lemma_variant_type_fidelity(
    obj: Seq<(Seq<char>, JsonValueView)>,
    kind: MessageType,
    f: FieldsView,
)
    requires
        decode_variant(obj, kind) == Ok::<_, Seq<char>>(f),
    ensures
        assoc_get(obj, "message_type"@) == Some(JsonValueView::Text(kind_name(kind))),
        f.message_type == kind,
{
}

/// Chat role passthrough: a decoded chat message keeps the literal `role`
/// entry as its stored role, while its discriminator stays Chat.
pub proof fn lemma_chat_role_passthrough(obj: Seq<(Seq<char>, JsonValueView)>, c: ChatView)
    requires
        decode_chat(obj) == Ok::<_, Seq<char>>(c),
    ensures
        assoc_get(obj, "role"@) == Some(JsonValueView::Text(c.role)),
        assoc_get(obj, "message_type"@) == Some(JsonValueView::Text("Chat"@)),
        c.base.message_type == MessageType::Chat,
{
}

/// Round-trip for a standalone envelope variant: decoding its encoding under
/// its own kind yields the envelope back.
pub proof fn lemma_variant_round_trip(f: FieldsView)
    requires
        f.wf(),
    ensures
        decode_variant(encode_envelope(f), f.message_type) == Ok::<_, Seq<char>>(f),
{
    lemma_wire_keys_distinct();
    lemma_encode_envelope_get(f);
    lemma_decode_staged(encode_envelope(f), f, f.message_type);
    assert((FieldsView { message_type: f.message_type, ..f }) =~= f);
}

/// Round-trip for a standalone chat message.
pub proof fn lemma_chat_round_trip(c: ChatView)
    requires
        c.base.wf(),
        c.base.message_type == MessageType::Chat,
    ensures
        decode_chat(encode_chat(c)) == Ok::<_, Seq<char>>(c),
{
    lemma_wire_keys_distinct();
    lemma_encode_envelope_get(c.base);
    let role_part = seq![("role"@, JsonValueView::Text(c.role))];
    assert forall|k: Seq<char>| #[trigger] assoc_get(encode_chat(c), k) == (if k == "role"@ {
        Some(JsonValueView::Text(c.role))
    } else {
        envelope_entry(c.base, k)
    }) by {
        lemma_assoc_get_concat(role_part, encode_envelope(c.base), k);
        assert(role_part.drop_first() =~= Seq::<(Seq<char>, JsonValueView)>::empty());
        assert(assoc_get(Seq::<(Seq<char>, JsonValueView)>::empty(), k) is None);
    }
    lemma_decode_staged(encode_chat(c), c.base, MessageType::Chat);
    assert((FieldsView { message_type: MessageType::Chat, ..c.base }) =~= c.base);
    match decode_chat(encode_chat(c)) {
        Ok(c2) => {
            assert(c2 =~= c);
        },
        Err(_) => {
            assert(false);
        },
    }
}

/// Round-trip for a standalone tool message.
pub proof fn lemma_tool_round_trip(t: ToolView)
    requires
        t.base.wf(),
        t.base.message_type == MessageType::Tool,
    ensures
        decode_tool_standalone(encode_tool_standalone(t)) == Ok::<_, Seq<char>>(t),
{
    lemma_wire_keys_distinct();
    lemma_encode_envelope_get(t.base);
    assert forall|k: Seq<char>| #[trigger] assoc_get(encode_tool_standalone(t), k) == (if k
        == "tool_call_id"@ {
        Some(JsonValueView::Text(t.tool_call_id))
    } else if k == "artifact"@ {
        match t.artifact {
            Some(a) => Some(JsonValueView::Text(a)),
            None => None,
        }
    } else if k == "status"@ {
        Some(JsonValueView::Text(status_label(t.status)))
    } else {
        envelope_entry(t.base, k)
    }) by {
        lemma_assoc_get_concat(tool_extras(t), encode_envelope(t.base), k);
        let x0 = Seq::<(Seq<char>, JsonValueView)>::empty();
        let x1 = x0.push(("tool_call_id"@, JsonValueView::Text(t.tool_call_id)));
        lemma_assoc_get_push(x0, ("tool_call_id"@, JsonValueView::Text(t.tool_call_id)), k);
        let x2 = match t.artifact {
            Some(a) => x1.push(("artifact"@, JsonValueView::Text(a))),
            None => x1,
        };
        match t.artifact {
            Some(a) => {
                lemma_assoc_get_push(x1, ("artifact"@, JsonValueView::Text(a)), k);
            },
            None => {},
        }
        lemma_assoc_get_push(x2, ("status"@, JsonValueView::Text(status_label(t.status))), k);
        assert(tool_extras(t) == x2.push(
            ("status"@, JsonValueView::Text(status_label(t.status))),
        ));
    }
    lemma_decode_staged(encode_tool_standalone(t), t.base, MessageType::Tool);
    assert((FieldsView { message_type: MessageType::Tool, ..t.base }) =~= t.base);
    reveal_strlit("Success");
    reveal_strlit("Error");
    assert("Success"@ != "Error"@) by {
        assert("Success"@.len() != "Error"@.len());
    }
    assert(parse_status(status_label(t.status)) == Some(t.status));
    match decode_tool_standalone(encode_tool_standalone(t)) {
        Ok(t2) => {
            assert(t2 =~= t);
        },
        Err(_) => {
            assert(false);
        },
    }
}

/// Idempotence: re-serializing a round-tripped message reproduces its
/// serialization.
pub proof fn lemma_reencode(v: MessageView)
    requires
        msg_wf(v),
    ensures
        decode_message(encode_message(v)) matches Ok(m) && encode_message(m) == encode_message(v),
{
    lemma_round_trip(v);
}


} // verus!
