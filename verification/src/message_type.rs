//! The message-kind discriminator: a closed enumeration with a canonical
//! lowercase label and a parser that also accepts capitalized and legacy
//! `...Message` alias spellings.

use vstd::prelude::*;

verus! {

/// The closed set of message kinds.
#[derive(Debug, Clone, Copy, PartialEq, Eq, Structural)]
pub enum MessageType {
    Ai,
    Chat,
    Human,
    System,
    Tool,
}

/// The canonical lowercase label of a kind, as it appears in the `role`
/// key of the wire format.
pub open spec fn kind_label(k: MessageType) -> Seq<char> {
    match k {
        MessageType::Ai => "ai"@,
        MessageType::Chat => "chat"@,
        MessageType::Human => "human"@,
        MessageType::System => "system"@,
        MessageType::Tool => "tool"@,
    }
}

/// The capitalized variant name of a kind, as it appears in the
/// `message_type` key of the wire format.
pub open spec fn kind_name(k: MessageType) -> Seq<char> {
    match k {
        MessageType::Ai => "Ai"@,
        MessageType::Chat => "Chat"@,
        MessageType::Human => "Human"@,
        MessageType::System => "System"@,
        MessageType::Tool => "Tool"@,
    }
}

/// What `MessageType::try_from` accepts: the canonical label, the
/// capitalized name, and the legacy name with a `Message` suffix, each as an
/// exact, case-sensitive match.
pub open spec fn parse_kind(s: Seq<char>) -> Option<MessageType> {
    if s == "human"@ || s == "Human"@ || s == "HumanMessage"@ {
        Some(MessageType::Human)
    } else if s == "ai"@ || s == "Ai"@ || s == "AiMessage"@ {
        Some(MessageType::Ai)
    } else if s == "system"@ || s == "System"@ || s == "SystemMessage"@ {
        Some(MessageType::System)
    } else if s == "chat"@ || s == "Chat"@ || s == "ChatMessage"@ {
        Some(MessageType::Chat)
    } else if s == "tool"@ || s == "Tool"@ || s == "ToolMessage"@ {
        Some(MessageType::Tool)
    } else {
        None
    }
}

/// Compares two string slices by their characters.
pub fn str_eq(a: &str, b: &str) -> (r: bool)
    ensures
        r == (a@ == b@),
{
    let sa = String::from_str(a);
    let sb = String::from_str(b);
    sa == sb
}

impl MessageType {
    /// The canonical lowercase label: `ai`, `chat`, `human`, `system`, `tool`.
    pub fn as_str(&self) -> (r: &str)
        ensures
            r@ == kind_label(*self),
    {
        match self {
            MessageType::Ai => "ai",
            MessageType::Chat => "chat",
            MessageType::Human => "human",
            MessageType::System => "system",
            MessageType::Tool => "tool",
        }
    }

    /// The capitalized variant name: `Ai`, `Chat`, `Human`, `System`, `Tool`.
    pub fn variant_name(&self) -> (r: &str)
        ensures
            r@ == kind_name(*self),
    {
        match self {
            MessageType::Ai => "Ai",
            MessageType::Chat => "Chat",
            MessageType::Human => "Human",
            MessageType::System => "System",
            MessageType::Tool => "Tool",
        }
    }

    /// Parses a kind from its canonical label, its capitalized name, or the
    /// legacy `...Message` spelling; any other input is rejected with an
    /// error carrying the offending text.
    pub fn try_from(s: &str) -> (r: Result<MessageType, InvalidMessageTypeError>)
        ensures
            r is Ok <==> parse_kind(s@) is Some,
            r matches Ok(k) ==> parse_kind(s@) == Some(k),
            r matches Err(e) ==> e@ == "Invalid message type: "@ + s@,
    {
        if str_eq(s, "human") || str_eq(s, "Human") || str_eq(s, "HumanMessage") {
            Ok(MessageType::Human)
        } else if str_eq(s, "ai") || str_eq(s, "Ai") || str_eq(s, "AiMessage") {
            Ok(MessageType::Ai)
        } else if str_eq(s, "system") || str_eq(s, "System") || str_eq(s, "SystemMessage") {
            Ok(MessageType::System)
        } else if str_eq(s, "chat") || str_eq(s, "Chat") || str_eq(s, "ChatMessage") {
            Ok(MessageType::Chat)
        } else if str_eq(s, "tool") || str_eq(s, "Tool") || str_eq(s, "ToolMessage") {
            Ok(MessageType::Tool)
        } else {
            let mut msg = String::from_str("Invalid message type: ");
            msg.append(s);
            Err(InvalidMessageTypeError::new(msg))
        }
    }
}

/// The error produced by the discriminator parser, the text-format parser,
/// and the wire-format decoder; it carries the offending text.
#[derive(Debug, Clone)]
pub struct InvalidMessageTypeError(String);

impl View for InvalidMessageTypeError {
    type V = Seq<char>;

    closed spec fn view(&self) -> Seq<char> {
        self.0@
    }
}

impl InvalidMessageTypeError {
    /// Wraps a description of the failure.
    pub fn new(msg: String) -> (r: Self)
        ensures
            r@ == msg@,
    {
        InvalidMessageTypeError(msg)
    }

    /// The full human-readable message, as the error displays itself.
    pub fn to_string(&self) -> (r: String)
        ensures
            r@ == "Invalid message type: "@ + self@,
    {
        let mut msg = String::from_str("Invalid message type: ");
        msg.append(self.0.as_str());
        msg
    }
}

} // verus!
