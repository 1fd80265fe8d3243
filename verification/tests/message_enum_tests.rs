use messageforge::AiMessage;
use messageforge::BaseMessage;
use messageforge::HumanMessage;
use messageforge::MessageEnum;
use messageforge::MessageType;
use messageforge::SystemMessage;
use messageforge::ToolMessage;
use messageforge::ToolStatus;

fn value_of(text: &str) -> serde_json::Value {
    serde_json::from_str(text).unwrap()
}

#[test]
fn test_message_enum_serialization_ai_message() {
    let ai_message = AiMessage::new("Hello from AI.");

    let message_enum = MessageEnum::Ai(ai_message);

    let expected_json = value_of(
        r#"{
            "role": "ai",
            "content": "Hello from AI.",
            "example": false,
            "message_type": "Ai"
        }"#,
    );

    let serialized = message_enum.to_json_text();
    let actual_json = value_of(&serialized);
    assert_eq!(actual_json, expected_json);
}

#[test]
fn test_message_enum_serialization_human_message() {
    let human_message = HumanMessage::new("Hello from Human.");

    let message_enum = MessageEnum::Human(human_message);

    let expected_json = value_of(
        r#"{
            "role": "human",
            "content": "Hello from Human.",
            "example": false,
            "message_type": "Human"
        }"#,
    );

    let serialized = message_enum.to_json_text();
    let actual_json = value_of(&serialized);
    assert_eq!(actual_json, expected_json);
}

#[test]
fn test_message_enum_serialization_system_message() {
    let system_message = SystemMessage::new("This is a system message.");

    let message_enum = MessageEnum::System(system_message);

    let expected_json = value_of(
        r#"{
            "role": "system",
            "content": "This is a system message.",
            "example": false,
            "message_type": "System"
        }"#,
    );

    let serialized = message_enum.to_json_text();
    let actual_json = value_of(&serialized);
    assert_eq!(actual_json, expected_json);
}

#[test]
fn test_message_enum_serialization_tool_message() {
    let tool_message = ToolMessage::new(
        "Tool message content",
        "tool_call_001".to_string(),
        Some("artifact_001".to_string()),
        ToolStatus::Success,
    );

    let message_enum = MessageEnum::Tool(tool_message);

    let expected_json = value_of(
        r#"{
            "tool_call_id": "tool_call_001",
            "artifact": "artifact_001",
            "status": "Success",
            "content": "Tool message content",
            "example": false,
            "role": "tool",
            "message_type": "Tool"
        }"#,
    );

    let serialized = message_enum.to_json_text();
    let actual_json = value_of(&serialized);
    assert_eq!(actual_json, expected_json);
}

#[test]
fn test_message_enum_deserialization_ai_message() {
    let json_data = r#"{
        "role": "ai",
        "content": "Hello from AI.",
        "example": false,
        "message_type": "Ai"
    }"#;

    let message_enum = MessageEnum::from_json_text(json_data).unwrap();
    match message_enum {
        MessageEnum::Ai(ai_message) => {
            assert_eq!(ai_message.content(), "Hello from AI.");
            assert_eq!(ai_message.message_type(), &MessageType::Ai);
        }
        _ => panic!("Expected AiMessage"),
    }
}

#[test]
fn test_message_enum_deserialization_human_message() {
    let json_data = r#"{
        "role": "human",
        "content": "Hello from Human.",
        "example": false,
        "message_type": "Human"
    }"#;

    let message_enum = MessageEnum::from_json_text(json_data).unwrap();
    match message_enum {
        MessageEnum::Human(human_message) => {
            assert_eq!(human_message.content(), "Hello from Human.");
            assert_eq!(human_message.message_type(), &MessageType::Human);
        }
        _ => panic!("Expected HumanMessage"),
    }
}

#[test]
fn test_message_enum_deserialization_system_message() {
    let json_data = r#"{
        "role": "system",
        "content": "This is a system message.",
        "example": false,
        "message_type": "System"
    }"#;

    let message_enum = MessageEnum::from_json_text(json_data).unwrap();
    match message_enum {
        MessageEnum::System(system_message) => {
            assert_eq!(system_message.content(), "This is a system message.");
            assert_eq!(system_message.message_type(), &MessageType::System);
        }
        _ => panic!("Expected SystemMessage"),
    }
}

#[test]
fn test_message_enum_tool_deserialization() {
    let json_data = r#"
    {
        "role": "tool",
        "content": "Tool message content",
        "tool_call_id": "tool_call_001",
        "status": "Success",
        "artifact": "some_artifact",
        "example": true,
        "id": "tool_123",
        "name": "Tool Example",
        "additional_kwargs": {
            "key": "value"
        },
        "response_metadata": {
            "meta_key": "meta_value"
        }
    }
    "#;

    let message_enum = MessageEnum::from_json_text(json_data).expect("Deserialization failed");

    if let MessageEnum::Tool(tool_message) = message_enum {
        assert_eq!(tool_message.tool_call_id(), "tool_call_001");
        assert_eq!(tool_message.artifact().as_deref(), Some("some_artifact"));
        assert_eq!(tool_message.status(), &ToolStatus::Success);
        assert_eq!(tool_message.content(), "Tool message content");
        assert!(tool_message.is_example());
        assert_eq!(tool_message.id(), Some("tool_123"));
        assert_eq!(tool_message.name(), Some("Tool Example"));
        assert_eq!(
            tool_message.additional_kwargs().get("key").unwrap(),
            "value"
        );
        assert_eq!(
            tool_message.response_metadata().get("meta_key").unwrap(),
            "meta_value"
        );
    } else {
        panic!("Expected ToolMessage, got something else");
    }
}

#[test]
fn test_message_enum_equality() {
    let ai_message1 = AiMessage::new("Hello from AI.");
    let ai_message2 = AiMessage::new("Hello from AI.");
    let human_message = HumanMessage::new("Hello from Human.");

    let message_enum_ai1 = MessageEnum::Ai(ai_message1.clone());
    let message_enum_ai2 = MessageEnum::Ai(ai_message2.clone());
    let message_enum_human = MessageEnum::Human(human_message.clone());

    // Check equality between identical AiMessages
    assert_eq!(message_enum_ai1, message_enum_ai2);

    // Check inequality between AiMessage and HumanMessage
    assert_ne!(message_enum_ai1, message_enum_human);
}

#[test]
fn test_message_enum_serialize_with_optional_fields() {
    let mut human_message = HumanMessage::new("Hello.");
    human_message.base.id = Some("1234".to_string());
    human_message.base.name = Some("Human User".to_string());

    let message_enum = MessageEnum::Human(human_message);
    let expected_json = value_of(
        r#"{
            "role": "human",
            "content": "Hello.",
            "example": false,
            "message_type": "Human",
            "id": "1234",
            "name": "Human User"
        }"#,
    );

    let serialized = message_enum.to_json_text();
    let actual_json = value_of(&serialized);
    assert_eq!(actual_json, expected_json);
}

#[test]
fn test_message_enum_deserialize_with_optional_fields() {
    let json_data = r#"{
        "role": "human",
        "content": "Hello.",
        "example": false,
        "message_type": "Human",
        "id": "1234",
        "name": "Human User"
    }"#;

    let message_enum = MessageEnum::from_json_text(json_data).unwrap();
    match message_enum {
        MessageEnum::Human(human_message) => {
            assert_eq!(human_message.id(), Some("1234"));
            assert_eq!(human_message.name(), Some("Human User"));
        }
        _ => panic!("Expected HumanMessage"),
    }
}

#[test]
fn test_serialize_vec_of_messages() {
    let ai_message = AiMessage::new("Hello from AI.");
    let system_message = SystemMessage::new("System message.");
    let human_message = HumanMessage::new("Hello from Human.");
    let tool_message = ToolMessage::new(
        "Tool message content",
        "tool_call_001".to_string(),
        Some("artifact_001".to_string()),
        ToolStatus::Success,
    );

    let messages: Vec<MessageEnum> = vec![
        ai_message.into(),
        system_message.into(),
        human_message.into(),
        tool_message.into(),
    ];

    let serialized = value_of(&MessageEnum::to_json_text_vec(&messages));

    let expected_json = value_of(
        r#"[
            {
                "role": "ai",
                "content": "Hello from AI.",
                "example": false,
                "message_type": "Ai"
            },
            {
                "role": "system",
                "content": "System message.",
                "example": false,
                "message_type": "System"
            },
            {
                "role": "human",
                "content": "Hello from Human.",
                "example": false,
                "message_type": "Human"
            },
            {
                "tool_call_id": "tool_call_001",
                "artifact": "artifact_001",
                "status": "Success",
                "content": "Tool message content",
                "example": false,
                "message_type": "Tool",
                "role": "tool"
            }
        ]"#,
    );

    assert_eq!(serialized, expected_json);
}

#[test]
fn test_deserialize_vec_of_messages() {
    let json_data = r#"[
        {
            "role": "ai",
            "content": "Hello from AI.",
            "example": false,
            "message_type": "Ai"
        },
        {
            "role": "system",
            "content": "System message.",
            "example": false,
            "message_type": "System"
        },
        {
            "role": "human",
            "content": "Hello from Human.",
            "example": false,
            "message_type": "Human"
        },
        {
            "tool_call_id": "tool_call_001",
            "artifact": "artifact_001",
            "status": "Success",
            "content": "Tool message content",
            "example": false,
            "message_type": "Tool",
            "role": "tool"
        }
    ]"#;

    let messages = MessageEnum::from_json_text_vec(json_data).unwrap();

    assert_eq!(messages.len(), 4);

    if let MessageEnum::Ai(ai_message) = &messages[0] {
        assert_eq!(ai_message.content(), "Hello from AI.");
        assert_eq!(ai_message.message_type(), &MessageType::Ai);
    } else {
        panic!("Expected AiMessage");
    }

    if let MessageEnum::System(system_message) = &messages[1] {
        assert_eq!(system_message.content(), "System message.");
        assert_eq!(system_message.message_type(), &MessageType::System);
    } else {
        panic!("Expected SystemMessage");
    }

    if let MessageEnum::Human(human_message) = &messages[2] {
        assert_eq!(human_message.content(), "Hello from Human.");
        assert_eq!(human_message.message_type(), &MessageType::Human);
    } else {
        panic!("Expected HumanMessage");
    }

    if let MessageEnum::Tool(tool_message) = &messages[3] {
        assert_eq!(tool_message.tool_call_id(), "tool_call_001");
        assert_eq!(tool_message.artifact().as_deref(), Some("artifact_001"));
        assert_eq!(tool_message.status(), &ToolStatus::Success);
        assert_eq!(tool_message.content(), "Tool message content");
    } else {
        panic!("Expected ToolMessage");
    }
}

#[test]
fn test_message_enum_deserialization_with_defaults() {
    let json_data = r#"{
        "role": "ai",
        "content": "Hello, AI."
    }"#;

    let message_enum = MessageEnum::from_json_text(json_data).unwrap();

    match message_enum {
        MessageEnum::Ai(ai_message) => {
            assert_eq!(ai_message.base.content, "Hello, AI.");
            assert_eq!(ai_message.base.message_type, MessageType::Ai);
            assert!(!ai_message.base.example);
        }
        _ => panic!("Expected AiMessage"),
    }
}

#[test]
fn test_message_enum_serialization_with_message_type() {
    let ai_message = AiMessage::new("Hello from AI.");

    let message_enum = MessageEnum::Ai(ai_message);

    let expected_json = value_of(
        r#"{
            "role": "ai",
            "content": "Hello from AI.",
            "example": false,
            "message_type": "Ai"
        }"#,
    );

    let serialized = message_enum.to_json_text();
    let actual_json = value_of(&serialized);
    assert_eq!(actual_json, expected_json);
}
