//! A small library of chat message records: a closed taxonomy of message
//! variants (human, ai, system, chat, tool) sharing a common field envelope,
//! a tagged union over them, and a wire-format codec that maps each variant
//! to and from a single flat JSON object keyed by a `role` discriminator.

pub mod ai_message;
pub mod assoc;
pub mod base_message;
pub mod chat_message;
pub mod codec;
pub mod human_message;
pub mod json;
pub mod message_enum;
pub mod message_type;
pub mod string_map;
pub mod system_message;
pub mod text_format;
pub mod tool_message;
pub mod wire;

pub use ai_message::AiMessage;
pub use base_message::BaseMessage;
pub use base_message::BaseMessageFields;
pub use chat_message::ChatMessage;
pub use human_message::HumanMessage;
pub use json::JsonObject;
pub use json::JsonValue;
pub use message_enum::MessageEnum;
pub use message_type::InvalidMessageTypeError;
pub use message_type::MessageType;
pub use string_map::StringMap;
pub use system_message::SystemMessage;
pub use tool_message::ToolMessage;
pub use tool_message::ToolStatus;
