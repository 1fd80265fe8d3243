use messageforge::AiMessage;
use messageforge::BaseMessage;
use messageforge::HumanMessage;
use messageforge::MessageEnum;
use messageforge::SystemMessage;
use messageforge::ToolMessage;
use messageforge::ToolStatus;

#[test]
fn test_as_human() {
    let human_message = HumanMessage::new("Hello from Human.");

    let message_enum = MessageEnum::Human(human_message.clone());

    assert!(message_enum.as_human().is_some());
    let extracted_message = message_enum.as_human().unwrap();
    assert_eq!(extracted_message.content(), "Hello from Human.");

    assert!(message_enum.as_ai().is_none());
    assert!(message_enum.as_system().is_none());
}

#[test]
fn test_as_ai() {
    let ai_message = AiMessage::new("Hello from AI.");

    let message_enum = MessageEnum::Ai(ai_message.clone());

    assert!(message_enum.as_ai().is_some());
    let extracted_message = message_enum.as_ai().unwrap();
    assert_eq!(extracted_message.content(), "Hello from AI.");

    assert!(message_enum.as_human().is_none());
    assert!(message_enum.as_system().is_none());
}

#[test]
fn test_as_system() {
    let system_message = SystemMessage::new("This is a system message.");

    let message_enum = MessageEnum::System(system_message.clone());

    // Test valid SystemMessage
    assert!(message_enum.as_system().is_some());
    let extracted_message = message_enum.as_system().unwrap();
    assert_eq!(extracted_message.content(), "This is a system message.");

    // Ensure invalid cast returns None
    assert!(message_enum.as_human().is_none());
    assert!(message_enum.as_ai().is_none());
}

#[test]
fn test_as_tool() {
    let tool_message = ToolMessage::new(
        "Tool message content",
        "tool_call_001".to_string(),
        Some("artifact_001".to_string()),
        ToolStatus::Success,
    );

    let message_enum = MessageEnum::Tool(tool_message.clone());

    // Test valid ToolMessage
    assert!(message_enum.as_tool().is_some());
    let extracted_message = message_enum.as_tool().unwrap();
    assert_eq!(extracted_message.content(), "Tool message content");
    assert_eq!(extracted_message.tool_call_id(), "tool_call_001");
    assert_eq!(
        extracted_message.artifact().as_deref(),
        Some("artifact_001")
    );
    assert_eq!(extracted_message.status(), &ToolStatus::Success);

    // Ensure invalid cast returns None
    assert!(message_enum.as_human().is_none());
    assert!(message_enum.as_ai().is_none());
    assert!(message_enum.as_system().is_none());
}

#[test]
fn test_mixed_message_enum() {
    let human_message = HumanMessage::new("Hello from Human.");
    let system_message = SystemMessage::new("System message.");
    let ai_message = AiMessage::new("Hello from AI.");
    let tool_message = ToolMessage::new(
        "Tool message content",
        "tool_call_001".to_string(),
        Some("artifact_001".to_string()),
        ToolStatus::Success,
    );

    let message_enum_human = MessageEnum::Human(human_message.clone());
    let message_enum_system = MessageEnum::System(system_message.clone());
    let message_enum_ai = MessageEnum::Ai(ai_message.clone());
    let message_enum_tool = MessageEnum::Tool(tool_message.clone());

    // Ensure each function returns the correct type and None for others
    assert_eq!(message_enum_human.as_human().unwrap().role(), "human");
    assert!(message_enum_human.as_ai().is_none());
    assert!(message_enum_human.as_system().is_none());

    assert_eq!(message_enum_system.as_system().unwrap().role(), "system");
    assert!(message_enum_system.as_human().is_none());
    assert!(message_enum_system.as_ai().is_none());

    assert_eq!(message_enum_ai.as_ai().unwrap().role(), "ai");
    assert!(message_enum_ai.as_human().is_none());
    assert!(message_enum_ai.as_system().is_none());

    assert_eq!(message_enum_tool.as_tool().unwrap().role(), "tool");
}

#[test]
fn test_try_from_human_message_success() {
    let input = "Human: Hello from Human.";
    let message_enum = MessageEnum::try_from(input).unwrap();

    match message_enum {
        MessageEnum::Human(human_message) => {
            assert_eq!(human_message.content(), "Hello from Human.");
        }
        _ => panic!("Expected HumanMessage"),
    }

    let input = "human: Hello from Human.";
    let message_enum = MessageEnum::try_from(input).unwrap();

    match message_enum {
        MessageEnum::Human(human_message) => {
            assert_eq!(human_message.content(), "Hello from Human.");
        }
        _ => panic!("Expected HumanMessage"),
    }
}

#[test]
fn test_try_from_ai_message_success() {
    let input = "Ai: Hello from AI.";
    let message_enum = MessageEnum::try_from(input).unwrap();

    match message_enum {
        MessageEnum::Ai(ai_message) => {
            assert_eq!(ai_message.content(), "Hello from AI.");
        }
        _ => panic!("Expected AiMessage"),
    }
}

#[test]
fn test_try_from_system_message_success() {
    let input = "System: System message content.";
    let message_enum = MessageEnum::try_from(input).unwrap();

    match message_enum {
        MessageEnum::System(system_message) => {
            assert_eq!(system_message.content(), "System message content.");
        }
        _ => panic!("Expected SystemMessage"),
    }
}

#[test]
fn test_try_from_tool_message_success() {
    let input = "Tool: tool_123: Tool message content.";
    let message_enum = MessageEnum::try_from(input).unwrap();

    match message_enum {
        MessageEnum::Tool(tool_message) => {
            assert_eq!(tool_message.tool_call_id(), "tool_123");
            assert_eq!(tool_message.content(), "Tool message content.");
        }
        _ => panic!("Expected ToolMessage"),
    }
}

#[test]
fn test_try_from_tool_message_invalid_format() {
    let input = "Tool: Invalid tool format";
    let err = MessageEnum::try_from(input).unwrap_err();

    assert_eq!(
        err.to_string(),
        "Invalid message type: Invalid tool message format: Invalid tool format"
    );
}

#[test]
fn test_try_from_invalid_message_format() {
    let input = "Invalid format";
    let err = MessageEnum::try_from(input).unwrap_err();

    assert_eq!(
        err.to_string(),
        "Invalid message type: Invalid message format: Invalid format"
    );
}

#[test]
fn test_human_from_success() {
    let input = "Human: Hello from Human.";
    let human_message = MessageEnum::human_from(input).unwrap();

    assert_eq!(human_message.content(), "Hello from Human.");
}

#[test]
fn test_human_from_invalid_type() {
    let input = "Ai: Hello from AI.";
    let err = MessageEnum::human_from(input).unwrap_err();

    assert_eq!(
        err.to_string(),
        "Invalid message type: Expected a HumanMessage, got a different type: Ai: Hello from AI."
    );
}

#[test]
fn test_ai_from_success() {
    let input = "Ai: Hello from AI.";
    let ai_message = MessageEnum::ai_from(input).unwrap();

    assert_eq!(ai_message.content(), "Hello from AI.");
}

#[test]
fn test_ai_from_invalid_type() {
    let input = "Human: Hello from Human.";
    let err = MessageEnum::ai_from(input).unwrap_err();

    assert_eq!(
        err.to_string(),
        "Invalid message type: Expected an AiMessage, got a different type: Human: Hello from Human."
    );
}

#[test]
fn test_system_from_success() {
    let input = "System: System message content.";
    let system_message = MessageEnum::system_from(input).unwrap();

    assert_eq!(system_message.content(), "System message content.");
}

#[test]
fn test_system_from_invalid_type() {
    let input = "Ai: System message content.";
    let err = MessageEnum::system_from(input).unwrap_err();

    assert_eq!(
        err.to_string(),
        "Invalid message type: Expected a SystemMessage, got a different type: Ai: System message content."
    );
}

#[test]
fn test_tool_from_success() {
    let input = "Tool: tool_123: Tool message content.";
    let tool_message = MessageEnum::tool_from(input).unwrap();

    assert_eq!(tool_message.tool_call_id(), "tool_123");
    assert_eq!(tool_message.content(), "Tool message content.");
}

#[test]
fn test_tool_from_invalid_type() {
    let input = "Human: Tool message content.";
    let err = MessageEnum::tool_from(input).unwrap_err();

    assert_eq!(
        err.to_string(),
        "Invalid message type: Expected a ToolMessage, got a different type: Human: Tool message content."
    );
}

#[test]
fn test_tool_from_invalid_format() {
    let input = "Tool: Invalid format";
    let err = MessageEnum::tool_from(input).unwrap_err();

    assert_eq!(
        err.to_string(),
        "Invalid message type: Invalid tool message format: Invalid format"
    );
}

#[test]
fn test_parse_valid_multi_line() {
    let input = "human: What is 2+2?\nai: 4\n\n\nhuman: What is 2+3?\nai: 5\n\nhuman: What is 4+4?";

    let result = MessageEnum::parse_messages(input);
    assert!(result.is_ok());
    let messages = result.unwrap();

    assert_eq!(messages.len(), 5);

    if let MessageEnum::Human(human_message) = &messages[0] {
        assert_eq!(human_message.content(), "What is 2+2?");
    } else {
        panic!("Expected HumanMessage for the first message");
    }

    if let MessageEnum::Ai(ai_message) = &messages[1] {
        assert_eq!(ai_message.content(), "4");
    } else {
        panic!("Expected AiMessage for the second message");
    }

    if let MessageEnum::Human(human_message) = &messages[2] {
        assert_eq!(human_message.content(), "What is 2+3?");
    } else {
        panic!("Expected HumanMessage for the third message");
    }

    if let MessageEnum::Ai(ai_message) = &messages[3] {
        assert_eq!(ai_message.content(), "5");
    } else {
        panic!("Expected AiMessage for the fourth message");
    }

    if let MessageEnum::Human(human_message) = &messages[4] {
        assert_eq!(human_message.content(), "What is 4+4?");
    } else {
        panic!("Expected HumanMessage for the fifth message");
    }
}

#[test]
fn test_parse_with_empty_lines() {
    let input = "\nhuman: What is 2+2?\n\n\nai: 4\n\nhuman: What is 4+4?\n\n";

    let result = MessageEnum::parse_messages(input);
    assert!(result.is_ok());
    let messages = result.unwrap();

    assert_eq!(messages.len(), 3);

    if let MessageEnum::Human(human_message) = &messages[0] {
        assert_eq!(human_message.content(), "What is 2+2?");
    } else {
        panic!("Expected HumanMessage for the first message");
    }

    if let MessageEnum::Ai(ai_message) = &messages[1] {
        assert_eq!(ai_message.content(), "4");
    } else {
        panic!("Expected AiMessage for the second message");
    }

    if let MessageEnum::Human(human_message) = &messages[2] {
        assert_eq!(human_message.content(), "What is 4+4?");
    } else {
        panic!("Expected HumanMessage for the third message");
    }
}

#[test]
fn test_parse_invalid_message_format() {
    let input = "unknown: What is 2+2?\nai: 4";

    let result = MessageEnum::parse_messages(input);
    assert!(result.is_err());
}

#[test]
fn test_parse_mixed_valid_and_invalid_messages() {
    let input = "human: What is 2+2?\ninvalid: format\nai: 4";

    let result = MessageEnum::parse_messages(input);
    assert!(result.is_err());
}

#[test]
fn test_parse_only_valid_messages() {
    let input = "human: What is 2+2?\nai: 4";

    let result = MessageEnum::parse_messages(input);
    assert!(result.is_ok());
    let messages = result.unwrap();

    assert_eq!(messages.len(), 2);

    if let MessageEnum::Human(human_message) = &messages[0] {
        assert_eq!(human_message.content(), "What is 2+2?");
    } else {
        panic!("Expected HumanMessage for the first message");
    }

    if let MessageEnum::Ai(ai_message) = &messages[1] {
        assert_eq!(ai_message.content(), "4");
    } else {
        panic!("Expected AiMessage for the second message");
    }
}

#[test]
fn test_parse_empty_input() {
    let input = "";

    let result = MessageEnum::parse_messages(input);
    assert!(result.is_ok());
    let messages = result.unwrap();

    assert_eq!(messages.len(), 0);
}
