//! The tagged union over the message variants: safe downcasts, conversions
//! from each variant, capability dispatch, and the `"role: content"`
//! text-format parser with its batch form.

use vstd::prelude::*;

use crate::ai_message::AiMessage;
use crate::base_message::BaseMessage;
use crate::base_message::FieldsView;
use crate::human_message::HumanMessage;
use crate::message_type::kind_label;
use crate::message_type::InvalidMessageTypeError;
use crate::message_type::MessageType;
use crate::string_map::StringMap;
use crate::system_message::SystemMessage;
use crate::text_format::blank_line;
use crate::text_format::is_blank;
use crate::text_format::lines_view;
use crate::text_format::lower;
use crate::text_format::lower_eq;
use crate::text_format::split_into_lines;
use crate::text_format::split_lines;
use crate::text_format::split_once_sep;
use crate::text_format::split_sep;
use crate::tool_message::ToolMessage;
use crate::tool_message::ToolStatus;
use crate::tool_message::ToolView;

verus! {

/// The ghost model of a union value.
#[verifier::ext_equal]
pub enum MessageView {
    Ai(FieldsView),
    Human(FieldsView),
    System(FieldsView),
    Tool(ToolView),
}

/// The kind that names a union arm.
pub open spec fn arm_kind(v: MessageView) -> MessageType {
    match v {
        MessageView::Ai(_) => MessageType::Ai,
        MessageView::Human(_) => MessageType::Human,
        MessageView::System(_) => MessageType::System,
        MessageView::Tool(_) => MessageType::Tool,
    }
}

/// The envelope of a union value.
pub open spec fn arm_fields(v: MessageView) -> FieldsView {
    match v {
        MessageView::Ai(f) => f,
        MessageView::Human(f) => f,
        MessageView::System(f) => f,
        MessageView::Tool(t) => t.base,
    }
}

/// The invariant of a union value: the envelope's discriminator names the
/// arm, and the metadata mappings are well formed.
pub open spec fn msg_wf(v: MessageView) -> bool {
    arm_fields(v).wf() && arm_fields(v).message_type == arm_kind(v)
}

/// A message of any of the four variants the wire format carries, each arm
/// holding its variant by value.
#[derive(Debug, Clone)]
pub enum MessageEnum {
    Ai(AiMessage),
    Human(HumanMessage),
    System(SystemMessage),
    Tool(ToolMessage),
}

impl View for MessageEnum {
    type V = MessageView;

    open spec fn view(&self) -> MessageView {
        match self {
            MessageEnum::Ai(m) => MessageView::Ai(m@),
            MessageEnum::Human(m) => MessageView::Human(m@),
            MessageEnum::System(m) => MessageView::System(m@),
            MessageEnum::Tool(m) => MessageView::Tool(m@),
        }
    }
}

/// The views of a vector of union values.
pub open spec fn msgs_view(v: Seq<MessageEnum>) -> Seq<MessageView> {
    v.map_values(|m: MessageEnum| m@)
}

/// What `MessageEnum::parse_tool_message` makes of the text after a `tool:`
/// prefix: the part before the first `": "` is the call identifier, the rest
/// the content; without the separator the text is rejected.
pub open spec fn parse_tool_spec(content: Seq<char>) -> Result<MessageView, Seq<char>> {
    match split_sep(content) {
        Some(p) => Ok(
            MessageView::Tool(
                ToolView {
                    tool_call_id: p.0,
                    artifact: None,
                    status: ToolStatus::Success,
                    base: FieldsView::fresh(p.1, false, MessageType::Tool),
                },
            ),
        ),
        None => Err("Invalid tool message format: "@ + content),
    }
}

/// What `MessageEnum::try_from` makes of one text line: the part before the
/// first `": "` names the role, matched after ASCII lowercasing; the rest is
/// the content (for `tool`, further split into call identifier and content).
pub open spec fn parse_line(s: Seq<char>) -> Result<MessageView, Seq<char>> {
    match split_sep(s) {
        None => Err("Invalid message format: "@ + s),
        Some(p) => if lower(p.0) == "human"@ {
            Ok(MessageView::Human(FieldsView::fresh(p.1, false, MessageType::Human)))
        } else if lower(p.0) == "ai"@ {
            Ok(MessageView::Ai(FieldsView::fresh(p.1, false, MessageType::Ai)))
        } else if lower(p.0) == "system"@ {
            Ok(MessageView::System(FieldsView::fresh(p.1, false, MessageType::System)))
        } else if lower(p.0) == "tool"@ {
            parse_tool_spec(p.1)
        } else {
            Err("Invalid message type: "@ + s)
        },
    }
}

/// What `MessageEnum::parse_messages` makes of a batch: blank lines are
/// skipped, every other line is parsed in order, and the first invalid line
/// fails the whole batch.
pub open spec fn parse_lines(lines: Seq<Seq<char>>) -> Result<Seq<MessageView>, Seq<char>>
    decreases lines.len(),
{
    if lines.len() == 0 {
        Ok(Seq::empty())
    } else if is_blank(lines[0]) {
        parse_lines(lines.drop_first())
    } else {
        match parse_line(lines[0]) {
            Err(e) => Err(e),
            Ok(v) => match parse_lines(lines.drop_first()) {
                Err(e) => Err(e),
                Ok(rest) => Ok(seq![v] + rest),
            },
        }
    }
}

impl MessageEnum {
    /// The invariant of every message this library builds.
    pub open spec fn wf(&self) -> bool {
        msg_wf(self@)
    }

    /// The held human message, present exactly when this is the Human arm.
    pub fn as_human(&self) -> (r: Option<&HumanMessage>)
        ensures
            r matches Some(m) ==> self@ == MessageView::Human(m@),
            r is None ==> !(self@ matches MessageView::Human(_)),
    {
        if let MessageEnum::Human(ref message) = self {
            Some(message)
        } else {
            None
        }
    }

    /// The held assistant message, present exactly when this is the Ai arm.
    pub fn as_ai(&self) -> (r: Option<&AiMessage>)
        ensures
            r matches Some(m) ==> self@ == MessageView::Ai(m@),
            r is None ==> !(self@ matches MessageView::Ai(_)),
    {
        if let MessageEnum::Ai(ref message) = self {
            Some(message)
        } else {
            None
        }
    }

    /// The held system message, present exactly when this is the System arm.
    pub fn as_system(&self) -> (r: Option<&SystemMessage>)
        ensures
            r matches Some(m) ==> self@ == MessageView::System(m@),
            r is None ==> !(self@ matches MessageView::System(_)),
    {
        if let MessageEnum::System(ref message) = self {
            Some(message)
        } else {
            None
        }
    }

    /// The held tool message, present exactly when this is the Tool arm.
    pub fn as_tool(&self) -> (r: Option<&ToolMessage>)
        ensures
            r matches Some(m) ==> self@ == MessageView::Tool(m@),
            r is None ==> !(self@ matches MessageView::Tool(_)),
    {
        if let MessageEnum::Tool(ref message) = self {
            Some(message)
        } else {
            None
        }
    }

    /// Parses the text after a `tool:` prefix, as `parse_tool_spec` says.
    pub fn parse_tool_message(content: &str) -> (r: Result<MessageEnum, InvalidMessageTypeError>)
        ensures
            r matches Ok(m) ==> parse_tool_spec(content@) == Ok::<_, Seq<char>>(m@) && m.wf(),
            r matches Err(e) ==> parse_tool_spec(content@) matches Err(msg) && e@ == msg,
    {
        match split_once_sep(content) {
            Some((tool_id, tool_content)) => {
                let m = MessageEnum::Tool(
                    ToolMessage::new(
                        tool_content,
                        String::from_str(tool_id),
                        None,
                        ToolStatus::Success,
                    ),
                );
                proof {
                    assert(parse_tool_spec(content@) == Ok::<_, Seq<char>>(m@));
                }
                Ok(m)
            },
            None => {
                let mut msg = String::from_str("Invalid tool message format: ");
                msg.append(content);
                Err(InvalidMessageTypeError::new(msg))
            },
        }
    }

    /// Parses one `"role: content"` line, as `parse_line` says.
    pub fn try_from(value: &str) -> (r: Result<MessageEnum, InvalidMessageTypeError>)
        ensures
            r matches Ok(m) ==> parse_line(value@) == Ok::<_, Seq<char>>(m@) && m.wf(),
            r matches Err(e) ==> parse_line(value@) matches Err(msg) && e@ == msg,
    {
        match split_once_sep(value) {
            None => {
                let mut msg = String::from_str("Invalid message format: ");
                msg.append(value);
                Err(InvalidMessageTypeError::new(msg))
            },
            Some((role_part, content)) => {
                if lower_eq(role_part, "human") {
                    Ok(MessageEnum::Human(HumanMessage::new(content)))
                } else if lower_eq(role_part, "ai") {
                    Ok(MessageEnum::Ai(AiMessage::new(content)))
                } else if lower_eq(role_part, "system") {
                    Ok(MessageEnum::System(SystemMessage::new(content)))
                } else if lower_eq(role_part, "tool") {
                    Self::parse_tool_message(content)
                } else {
                    let mut msg = String::from_str("Invalid message type: ");
                    msg.append(value);
                    Err(InvalidMessageTypeError::new(msg))
                }
            },
        }
    }

    /// Parses a line that must yield a human message; any other outcome is
    /// an error.
    pub fn human_from(input: &str) -> (r: Result<HumanMessage, InvalidMessageTypeError>)
        ensures
            r matches Ok(m) ==> parse_line(input@) == Ok::<_, Seq<char>>(MessageView::Human(m@)),
            r matches Err(e) ==> match parse_line(input@) {
                Ok(v) => !(v matches MessageView::Human(_)) && e@
                    == "Expected a HumanMessage, got a different type: "@ + input@,
                Err(msg) => e@ == msg,
            },
    {
        match MessageEnum::try_from(input) {
            Ok(MessageEnum::Human(human_message)) => Ok(human_message),
            Ok(_) => {
                let mut msg = String::from_str("Expected a HumanMessage, got a different type: ");
                msg.append(input);
                Err(InvalidMessageTypeError::new(msg))
            },
            Err(e) => Err(e),
        }
    }

    /// Parses a line that must yield an assistant message; any other outcome
    /// is an error.
    pub fn ai_from(input: &str) -> (r: Result<AiMessage, InvalidMessageTypeError>)
        ensures
            r matches Ok(m) ==> parse_line(input@) == Ok::<_, Seq<char>>(MessageView::Ai(m@)),
            r matches Err(e) ==> match parse_line(input@) {
                Ok(v) => !(v matches MessageView::Ai(_)) && e@
                    == "Expected an AiMessage, got a different type: "@ + input@,
                Err(msg) => e@ == msg,
            },
    {
        match MessageEnum::try_from(input) {
            Ok(MessageEnum::Ai(ai_message)) => Ok(ai_message),
            Ok(_) => {
                let mut msg = String::from_str("Expected an AiMessage, got a different type: ");
                msg.append(input);
                Err(InvalidMessageTypeError::new(msg))
            },
            Err(e) => Err(e),
        }
    }

    /// Parses a line that must yield a system message; any other outcome is
    /// an error.
    pub fn system_from(input: &str) -> (r: Result<SystemMessage, InvalidMessageTypeError>)
        ensures
            r matches Ok(m) ==> parse_line(input@) == Ok::<_, Seq<char>>(MessageView::System(m@)),
            r matches Err(e) ==> match parse_line(input@) {
                Ok(v) => !(v matches MessageView::System(_)) && e@
                    == "Expected a SystemMessage, got a different type: "@ + input@,
                Err(msg) => e@ == msg,
            },
    {
        match MessageEnum::try_from(input) {
            Ok(MessageEnum::System(system_message)) => Ok(system_message),
            Ok(_) => {
                let mut msg = String::from_str("Expected a SystemMessage, got a different type: ");
                msg.append(input);
                Err(InvalidMessageTypeError::new(msg))
            },
            Err(e) => Err(e),
        }
    }

    /// Parses a line that must yield a tool message; any other outcome is an
    /// error.
    pub fn tool_from(input: &str) -> (r: Result<ToolMessage, InvalidMessageTypeError>)
        ensures
            r matches Ok(m) ==> parse_line(input@) == Ok::<_, Seq<char>>(MessageView::Tool(m@)),
            r matches Err(e) ==> match parse_line(input@) {
                Ok(v) => !(v matches MessageView::Tool(_)) && e@
                    == "Expected a ToolMessage, got a different type: "@ + input@,
                Err(msg) => e@ == msg,
            },
    {
        match MessageEnum::try_from(input) {
            Ok(MessageEnum::Tool(tool_message)) => Ok(tool_message),
            Ok(_) => {
                let mut msg = String::from_str("Expected a ToolMessage, got a different type: ");
                msg.append(input);
                Err(InvalidMessageTypeError::new(msg))
            },
            Err(e) => Err(e),
        }
    }

    /// Parses a whole batch of text lines, as `parse_lines` says: blank
    /// lines are skipped, and the first invalid line fails the batch.
    pub fn parse_messages(input: &str) -> (r: Result<Vec<MessageEnum>, InvalidMessageTypeError>)
        ensures
            r matches Ok(v) ==> parse_lines(split_lines(input@)) == Ok::<_, Seq<char>>(msgs_view(v@)) && (forall|
                i: int,
            |
                0 <= i < v@.len() ==> (#[trigger] v@[i]).wf()),
            r matches Err(e) ==> parse_lines(split_lines(input@)) matches Err(msg) && e@ == msg,
    {
        let lines = split_into_lines(input);
        let ghost all = lines_view(lines@);
        let n = lines.len();
        let mut out: Vec<MessageEnum> = Vec::new();
        let mut i: usize = 0;
        proof {
            assert(all.skip(0) =~= all);
            assert(msgs_view(out@) =~= Seq::<MessageView>::empty());
            match parse_lines(all) {
                Ok(rest) => {
                    assert(msgs_view(out@) + rest =~= rest);
                },
                Err(_) => {},
            }
        }
        while i < n
            invariant
                n == lines@.len(),
                all == lines_view(lines@),
                all == split_lines(input@),
                0 <= i <= n,
                parse_lines(all) == (match parse_lines(all.skip(i as int)) {
                    Ok(rest) => Ok(msgs_view(out@) + rest),
                    Err(e) => Err::<Seq<MessageView>, Seq<char>>(e),
                }),
                forall|j: int| 0 <= j < out@.len() ==> (#[trigger] out@[j]).wf(),
            decreases n - i,
        {
            let ghost suffix = all.skip(i as int);
            proof {
                assert(suffix.len() > 0);
                assert(suffix[0] == all[i as int]);
                assert(all[i as int] == lines@[i as int]@);
                assert(suffix.drop_first() =~= all.skip(i as int + 1));
            }
            let line = &lines[i];
            if !blank_line(line.as_str()) {
                match MessageEnum::try_from(line.as_str()) {
                    Ok(m) => {
                        let ghost out0 = out@;
                        out.push(m);
                        proof {
                            assert(msgs_view(out@) =~= msgs_view(out0).push(m@));
                            match parse_lines(all.skip(i as int + 1)) {
                                Ok(rest) => {
                                    assert(msgs_view(out@) + rest =~= msgs_view(out0) + (seq![m@]
                                        + rest));
                                },
                                Err(_) => {},
                            }
                        }
                    },
                    Err(e) => {
                        return Err(e);
                    },
                }
            }
            i += 1;
        }
        proof {
            assert(all.skip(n as int) =~= Seq::<Seq<char>>::empty());
            assert(parse_lines(all.skip(n as int)) == Ok::<_, Seq<char>>(
                Seq::<MessageView>::empty(),
            ));
            assert(msgs_view(out@) + Seq::<MessageView>::empty() =~= msgs_view(out@));
        }
        Ok(out)
    }
}

impl From<AiMessage> for MessageEnum {
    /// Lifts the variant into the union.
    fn from(message: AiMessage) -> (r: Self) {
        MessageEnum::Ai(message)
    }
}

impl vstd::std_specs::convert::FromSpecImpl<AiMessage> for MessageEnum {
    open spec fn obeys_from_spec() -> bool {
        true
    }

    open spec fn from_spec(t: AiMessage) -> Self {
        MessageEnum::Ai(t)
    }
}

impl From<HumanMessage> for MessageEnum {
    /// Lifts the variant into the union.
    fn from(message: HumanMessage) -> (r: Self) {
        MessageEnum::Human(message)
    }
}

impl vstd::std_specs::convert::FromSpecImpl<HumanMessage> for MessageEnum {
    open spec fn obeys_from_spec() -> bool {
        true
    }

    open spec fn from_spec(t: HumanMessage) -> Self {
        MessageEnum::Human(t)
    }
}

impl From<SystemMessage> for MessageEnum {
    /// Lifts the variant into the union.
    fn from(message: SystemMessage) -> (r: Self) {
        MessageEnum::System(message)
    }
}

impl vstd::std_specs::convert::FromSpecImpl<SystemMessage> for MessageEnum {
    open spec fn obeys_from_spec() -> bool {
        true
    }

    open spec fn from_spec(t: SystemMessage) -> Self {
        MessageEnum::System(t)
    }
}

impl From<ToolMessage> for MessageEnum {
    /// Lifts the variant into the union.
    fn from(message: ToolMessage) -> (r: Self) {
        MessageEnum::Tool(message)
    }
}

impl vstd::std_specs::convert::FromSpecImpl<ToolMessage> for MessageEnum {
    open spec fn obeys_from_spec() -> bool {
        true
    }

    open spec fn from_spec(t: ToolMessage) -> Self {
        MessageEnum::Tool(t)
    }
}

impl BaseMessage for MessageEnum {
    open spec fn fields(&self) -> FieldsView {
        arm_fields(self@)
    }

    open spec fn role_spec(&self) -> Seq<char> {
        kind_label(arm_kind(self@))
    }

    fn content(&self) -> (r: &str) {
        match self {
            MessageEnum::Ai(message) => message.content(),
            MessageEnum::Human(message) => message.content(),
            MessageEnum::System(message) => message.content(),
            MessageEnum::Tool(message) => message.content(),
        }
    }

    fn message_type(&self) -> (r: &MessageType) {
        match self {
            MessageEnum::Ai(message) => message.message_type(),
            MessageEnum::Human(message) => message.message_type(),
            MessageEnum::System(message) => message.message_type(),
            MessageEnum::Tool(message) => message.message_type(),
        }
    }

    fn role(&self) -> (r: &str) {
        match self {
            MessageEnum::Ai(_) => "ai",
            MessageEnum::Human(_) => "human",
            MessageEnum::System(_) => "system",
            MessageEnum::Tool(_) => "tool",
        }
    }

    fn name(&self) -> (r: Option<&str>) {
        match self {
            MessageEnum::Ai(message) => message.name(),
            MessageEnum::Human(message) => message.name(),
            MessageEnum::System(message) => message.name(),
            MessageEnum::Tool(message) => message.name(),
        }
    }

    fn is_example(&self) -> (r: bool) {
        match self {
            MessageEnum::Ai(message) => message.is_example(),
            MessageEnum::Human(message) => message.is_example(),
            MessageEnum::System(message) => message.is_example(),
            MessageEnum::Tool(message) => message.is_example(),
        }
    }

    fn additional_kwargs(&self) -> (r: &StringMap) {
        match self {
            MessageEnum::Ai(message) => message.additional_kwargs(),
            MessageEnum::Human(message) => message.additional_kwargs(),
            MessageEnum::System(message) => message.additional_kwargs(),
            MessageEnum::Tool(message) => message.additional_kwargs(),
        }
    }

    fn response_metadata(&self) -> (r: &StringMap) {
        match self {
            MessageEnum::Ai(message) => message.response_metadata(),
            MessageEnum::Human(message) => message.response_metadata(),
            MessageEnum::System(message) => message.response_metadata(),
            MessageEnum::Tool(message) => message.response_metadata(),
        }
    }

    fn id(&self) -> (r: Option<&str>) {
        match self {
            MessageEnum::Ai(message) => message.id(),
            MessageEnum::Human(message) => message.id(),
            MessageEnum::System(message) => message.id(),
            MessageEnum::Tool(message) => message.id(),
        }
    }
}

impl PartialEq for MessageEnum {
    /// Structural equality: the same arm with equal variant contents.
    fn eq(&self, other: &MessageEnum) -> (r: bool) {
        match self {
            MessageEnum::Ai(a) => match other {
                MessageEnum::Ai(b) => *a == *b,
                _ => false,
            },
            MessageEnum::Human(a) => match other {
                MessageEnum::Human(b) => *a == *b,
                _ => false,
            },
            MessageEnum::System(a) => match other {
                MessageEnum::System(b) => *a == *b,
                _ => false,
            },
            MessageEnum::Tool(a) => match other {
                MessageEnum::Tool(b) => *a == *b,
                _ => false,
            },
        }
    }
}

impl vstd::std_specs::cmp::PartialEqSpecImpl for MessageEnum {
    open spec fn obeys_eq_spec() -> bool {
        true
    }

    open spec fn eq_spec(&self, other: &MessageEnum) -> bool {
        self@ == other@
    }
}

} // verus!
