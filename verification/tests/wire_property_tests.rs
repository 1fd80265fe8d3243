use messageforge::AiMessage;
use messageforge::BaseMessage;
use messageforge::ChatMessage;
use messageforge::HumanMessage;
use messageforge::JsonObject;
use messageforge::JsonValue;
use messageforge::MessageEnum;
use messageforge::MessageType;
use messageforge::StringMap;
use messageforge::SystemMessage;
use messageforge::ToolMessage;
use messageforge::ToolStatus;

#[test]
fn test_round_trip_minimal_every_variant() {
    let messages: Vec<MessageEnum> = vec![
        MessageEnum::Human(HumanMessage::new("a")),
        MessageEnum::Ai(AiMessage::new("b")),
        MessageEnum::System(SystemMessage::new("c")),
        MessageEnum::Tool(ToolMessage::new(
            "d",
            "call_0".to_string(),
            None,
            ToolStatus::Error,
        )),
    ];
    for m in messages {
        let text = m.to_json_text();
        let back = MessageEnum::from_json_text(&text).unwrap();
        assert_eq!(back, m);
    }
}

#[test]
fn test_round_trip_fully_populated_tool() {
    let mut tool = ToolMessage::new(
        "all fields set",
        "call_42".to_string(),
        Some("blob".to_string()),
        ToolStatus::Error,
    );
    tool.set_example(true);
    tool.set_id(Some("T1".to_string()));
    tool.set_name(Some("Tool Name".to_string()));
    tool.base
        .additional_kwargs
        .insert("k".to_string(), "v".to_string());
    tool.base
        .response_metadata
        .insert("m".to_string(), "w".to_string());

    let m = MessageEnum::Tool(tool);
    let text = m.to_json_text();
    let back = MessageEnum::from_json_text(&text).unwrap();
    assert_eq!(back, m);
}

#[test]
fn test_round_trip_chat_standalone() {
    let mut chat = ChatMessage::new("chatting", "Narrator".to_string());
    chat.set_id(Some("C1".to_string()));
    chat.base
        .additional_kwargs
        .insert("tone".to_string(), "dry".to_string());

    let text = chat.to_json_text();
    let back = ChatMessage::from_json_text(&text).unwrap();
    assert_eq!(back, chat);
}

#[test]
fn test_omission_of_empty_optional_fields() {
    let m = MessageEnum::System(SystemMessage::new("quiet"));
    let text = m.to_json_text();
    assert!(!text.contains("additional_kwargs"));
    assert!(!text.contains("response_metadata"));
    assert!(!text.contains("\"id\""));
    assert!(!text.contains("\"name\""));
}

#[test]
fn test_minimal_human_scenario() {
    let m = MessageEnum::from_json_text(r#"{"role":"human","content":"hi"}"#).unwrap();
    let human = m.as_human().expect("Expected HumanMessage");
    assert_eq!(human.content(), "hi");
    assert!(!human.is_example());
    assert!(human.additional_kwargs().is_empty());
    assert!(human.response_metadata().is_empty());
    assert_eq!(human.id(), None);
    assert_eq!(human.name(), None);

    let text = m.to_json_text();
    assert_eq!(
        text,
        r#"{"role":"human","content":"hi","example":false,"message_type":"Human"}"#
    );
}

#[test]
fn test_discriminator_fidelity_of_deserialized_values() {
    let m =
        MessageEnum::from_json_text(r#"{"role":"system","content":"x","message_type":"System"}"#)
            .unwrap();
    assert_eq!(m.message_type(), &MessageType::System);
    assert_eq!(m.role(), "system");

    let chat = ChatMessage::from_json_text(
        r#"{"role":"Grand Vizier","content":"y","message_type":"Chat"}"#,
    )
    .unwrap();
    assert_eq!(chat.message_type(), &MessageType::Chat);
    assert_eq!(chat.role(), "Grand Vizier");
}

#[test]
fn test_unknown_role_is_rejected() {
    let err = MessageEnum::from_json_text(r#"{"role":"carrierpigeon","content":"x"}"#)
        .unwrap_err();
    assert_eq!(
        err.to_string(),
        "Invalid message type: Invalid message type: carrierpigeon"
    );
}

#[test]
fn test_chat_role_is_unsupported_in_the_union() {
    let err = MessageEnum::from_json_text(r#"{"role":"chat","content":"x"}"#).unwrap_err();
    assert_eq!(err.to_string(), "Invalid message type: Unsupported message type");
}

#[test]
fn test_tool_requires_tool_call_id() {
    let err = MessageEnum::from_json_text(
        r#"{"role":"tool","content":"x","status":"Success"}"#,
    )
    .unwrap_err();
    assert_eq!(
        err.to_string(),
        "Invalid message type: Missing tool_call_id for ToolMessage"
    );
}

#[test]
fn test_tool_requires_status() {
    let err = MessageEnum::from_json_text(
        r#"{"role":"tool","content":"x","tool_call_id":"call_9"}"#,
    )
    .unwrap_err();
    assert_eq!(
        err.to_string(),
        "Invalid message type: Missing status for ToolMessage"
    );
}

#[test]
fn test_tool_rejects_unknown_status() {
    let err = MessageEnum::from_json_text(
        r#"{"role":"tool","content":"x","tool_call_id":"call_9","status":"Partial"}"#,
    )
    .unwrap_err();
    assert_eq!(err.to_string(), "Invalid message type: Invalid status");
}

#[test]
fn test_missing_role_and_content_are_rejected() {
    let err = MessageEnum::from_json_text(r#"{"content":"x"}"#).unwrap_err();
    assert_eq!(err.to_string(), "Invalid message type: Missing role");

    let err = MessageEnum::from_json_text(r#"{"role":"ai"}"#).unwrap_err();
    assert_eq!(err.to_string(), "Invalid message type: Missing content");
}

#[test]
fn test_wrongly_typed_fields_are_rejected() {
    let err = MessageEnum::from_json_text(r#"{"role":true,"content":"x"}"#).unwrap_err();
    assert_eq!(err.to_string(), "Invalid message type: Invalid role");

    let err =
        MessageEnum::from_json_text(r#"{"role":"ai","content":"x","example":"yes"}"#).unwrap_err();
    assert_eq!(err.to_string(), "Invalid message type: Invalid example");

    let err = MessageEnum::from_json_text(r#"{"role":"ai","content":7}"#).unwrap_err();
    assert_eq!(err.to_string(), "Invalid message type: Invalid content");

    let err = MessageEnum::from_json_text(
        r#"{"role":"ai","content":"x","additional_kwargs":{"n":1}}"#,
    )
    .unwrap_err();
    assert_eq!(
        err.to_string(),
        "Invalid message type: Invalid additional_kwargs"
    );
}

#[test]
fn test_unknown_keys_are_ignored() {
    let m = MessageEnum::from_json_text(
        r#"{"role":"ai","content":"x","footnotes":[1,2,3],"weight":9.5}"#,
    )
    .unwrap();
    assert!(m.as_ai().is_some());
    assert_eq!(m.content(), "x");
}

#[test]
fn test_null_id_and_name_mean_absent() {
    let m = MessageEnum::from_json_text(
        r#"{"role":"ai","content":"x","id":null,"name":null,"artifact":null}"#,
    )
    .unwrap();
    assert_eq!(m.id(), None);
    assert_eq!(m.name(), None);
}

#[test]
fn test_invalid_json_text_is_rejected() {
    let err = MessageEnum::from_json_text("{not json").unwrap_err();
    assert_eq!(err.to_string(), "Invalid message type: Invalid JSON");

    let err = MessageEnum::from_json_text(r#"["not","an","object"]"#).unwrap_err();
    assert_eq!(
        err.to_string(),
        "Invalid message type: Expected a JSON object"
    );

    let err = MessageEnum::from_json_text_vec(r#"{"role":"ai"}"#).unwrap_err();
    assert_eq!(
        err.to_string(),
        "Invalid message type: Expected a JSON array"
    );
}

#[test]
fn test_standalone_variant_checks_message_type() {
    let err =
        HumanMessage::from_json_text(r#"{"content":"x","message_type":"Ai"}"#).unwrap_err();
    assert_eq!(
        err.to_string(),
        "Invalid message type: Unexpected message type: Ai"
    );

    let err = HumanMessage::from_json_text(r#"{"content":"x"}"#).unwrap_err();
    assert_eq!(
        err.to_string(),
        "Invalid message type: Missing message_type"
    );
}

#[test]
fn test_tool_text_scenario() {
    let m = MessageEnum::try_from("tool: call_1: did the thing").unwrap();
    let tool = m.as_tool().expect("Expected ToolMessage");
    assert_eq!(tool.tool_call_id(), "call_1");
    assert_eq!(tool.content(), "did the thing");
    assert_eq!(tool.status(), &ToolStatus::Success);
    assert_eq!(tool.artifact(), &None);
}

#[test]
fn test_batch_text_scenario() {
    let messages = MessageEnum::parse_messages("human: a\n\nai: b").unwrap();
    assert_eq!(messages.len(), 2);
    let human = messages[0].as_human().expect("Expected HumanMessage");
    assert_eq!(human.content(), "a");
    let ai = messages[1].as_ai().expect("Expected AiMessage");
    assert_eq!(ai.content(), "b");
}

#[test]
fn test_mixed_case_role_prefixes() {
    let m = MessageEnum::try_from("HuMaN: hello").unwrap();
    assert!(m.as_human().is_some());
    let m = MessageEnum::try_from("SYSTEM: hello").unwrap();
    assert!(m.as_system().is_some());
}

#[test]
fn test_content_may_contain_colons() {
    let m = MessageEnum::try_from("human: a: b: c").unwrap();
    assert_eq!(m.content(), "a: b: c");
}

#[test]
fn test_string_map_operations() {
    let mut map = StringMap::new();
    assert!(map.is_empty());
    assert_eq!(map.len(), 0);
    assert_eq!(map.get("k"), None);

    map.insert("k".to_string(), "v1".to_string());
    assert_eq!(map.len(), 1);
    assert_eq!(map.get("k"), Some(&"v1".to_string()));

    map.insert("k".to_string(), "v2".to_string());
    assert_eq!(map.len(), 1);
    assert_eq!(map.get("k"), Some(&"v2".to_string()));

    map.insert("j".to_string(), "w".to_string());
    assert_eq!(map.len(), 2);
    assert_eq!(map.pair(0).0, "k");
    assert_eq!(map.pair(1).0, "j");

    let copy = map.duplicate();
    assert_eq!(copy, map);
}

#[test]
fn test_json_object_operations() {
    let mut obj = JsonObject::new();
    assert_eq!(obj.len(), 0);
    obj.insert("a".to_string(), JsonValue::Text("x".to_string()));
    obj.insert("b".to_string(), JsonValue::Flag(true));
    obj.insert("a".to_string(), JsonValue::Null);
    assert_eq!(obj.len(), 2);
    assert!(matches!(obj.get("a"), Some(JsonValue::Null)));
    assert!(matches!(obj.get("b"), Some(JsonValue::Flag(true))));
    assert!(obj.get("c").is_none());
}

#[test]
fn test_object_level_codec() {
    let mut map = StringMap::new();
    map.insert("k".to_string(), "v".to_string());
    let mut ai = AiMessage::new("obj");
    ai.base.additional_kwargs = map;
    let m = MessageEnum::Ai(ai);

    let obj = m.to_json();
    assert!(matches!(obj.get("role"), Some(JsonValue::Text(s)) if s == "ai"));
    assert!(matches!(obj.get("message_type"), Some(JsonValue::Text(s)) if s == "Ai"));
    assert!(obj.get("id").is_none());

    let back = MessageEnum::from_json(&obj).unwrap();
    assert_eq!(back, m);
}

#[test]
fn test_vec_codec_round_trip() {
    let messages: Vec<MessageEnum> = vec![
        MessageEnum::Human(HumanMessage::new("one")),
        MessageEnum::Ai(AiMessage::new("two")),
    ];
    let text = MessageEnum::to_json_text_vec(&messages);
    let back = MessageEnum::from_json_text_vec(&text).unwrap();
    assert_eq!(back, messages);
}

#[test]
fn test_alias_roles_resolve_to_the_same_kind() {
    let m = MessageEnum::from_json_text(r#"{"role":"HumanMessage","content":"x"}"#).unwrap();
    assert!(m.as_human().is_some());
    assert_eq!(m.role(), "human");

    let m = MessageEnum::from_json_text(r#"{"role":"Ai","content":"x"}"#).unwrap();
    assert!(m.as_ai().is_some());
    assert_eq!(m.role(), "ai");
}
