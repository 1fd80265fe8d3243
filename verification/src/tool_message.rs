//! The tool message variant: the shared envelope plus a required call
//! identifier, an optional artifact, and a success-or-error status.

use vstd::prelude::*;

use crate::base_message::opt_view;
use crate::base_message::BaseMessage;
use crate::base_message::BaseMessageFields;
use crate::base_message::FieldsView;
use crate::base_message::opt_str_eq;
use crate::message_type::kind_label;
use crate::message_type::MessageType;
use crate::string_map::StringMap;

verus! {

/// The outcome a tool invocation reports.
#[derive(Debug, Clone, Copy, PartialEq, Eq, Structural)]
pub enum ToolStatus {
    Success,
    Error,
}

/// The ghost model of a tool message.
#[verifier::ext_equal]
pub struct ToolView {
    pub tool_call_id: Seq<char>,
    pub artifact: Option<Seq<char>>,
    pub status: ToolStatus,
    pub base: FieldsView,
}

/// A message reporting the result of a tool invocation. The three extra
/// attributes are immutable after construction.
#[derive(Debug, Clone)]
pub struct ToolMessage {
    pub tool_call_id: String,
    pub artifact: Option<String>,
    pub status: ToolStatus,
    pub base: BaseMessageFields,
}

impl View for ToolMessage {
    type V = ToolView;

    open spec fn view(&self) -> ToolView {
        ToolView {
            tool_call_id: self.tool_call_id@,
            artifact: opt_view(self.artifact),
            status: self.status,
            base: self.base@,
        }
    }
}

impl ToolMessage {
    /// What every constructor establishes: the discriminator names this
    /// variant and the metadata mappings are well formed.
    pub open spec fn wf(&self) -> bool {
        self.base@.message_type == MessageType::Tool && self.base@.wf()
    }

    /// A fresh message: the given content, call identifier, artifact and
    /// status; no example flag, empty metadata, no id and no name.
    pub fn new(content: &str, tool_call_id: String, artifact: Option<String>, status: ToolStatus) -> (r:
        Self)
        ensures
            r@ == (ToolView {
                tool_call_id: tool_call_id@,
                artifact: opt_view(artifact),
                status,
                base: FieldsView::fresh(content@, false, MessageType::Tool),
            }),
            r.wf(),
    {
        ToolMessage {
            tool_call_id,
            artifact,
            status,
            base: BaseMessageFields::fresh(content, false, MessageType::Tool),
        }
    }

    /// Builds a tool message around an already-populated envelope, setting
    /// the envelope's discriminator to this variant.
    pub fn new_with_base(
        tool_call_id: String,
        artifact: Option<String>,
        status: ToolStatus,
        base: BaseMessageFields,
    ) -> (r: Self)
        ensures
            r@ == (ToolView {
                tool_call_id: tool_call_id@,
                artifact: opt_view(artifact),
                status,
                base: (FieldsView { message_type: MessageType::Tool, ..base@ }),
            }),
            base@.wf() ==> r.wf(),
    {
        let ghost b0 = base@;
        let mut base = base;
        base.message_type = MessageType::Tool;
        let r = ToolMessage { tool_call_id, artifact, status, base };
        proof {
            assert(r.base@ =~= (FieldsView { message_type: MessageType::Tool, ..b0 }));
        }
        r
    }

    /// The identifier of the call this message answers.
    pub fn tool_call_id(&self) -> (r: &str)
        ensures
            r@ == self@.tool_call_id,
    {
        self.tool_call_id.as_str()
    }

    /// The optional artifact the tool produced.
    pub fn artifact(&self) -> (r: &Option<String>)
        ensures
            opt_view(*r) == self@.artifact,
    {
        &self.artifact
    }

    /// The reported status.
    pub fn status(&self) -> (r: &ToolStatus)
        ensures
            *r == self@.status,
    {
        &self.status
    }

    /// Replaces the content; every other field keeps its value.
    pub fn set_content(&mut self, new_content: &str)
        ensures
            final(self)@ == (ToolView {
                base: (FieldsView { content: new_content@, ..old(self)@.base }),
                ..old(self)@
            }),
    {
        self.base.set_content(new_content);
    }

    /// Replaces the example flag; every other field keeps its value.
    pub fn set_example(&mut self, example: bool)
        ensures
            final(self)@ == (ToolView {
                base: (FieldsView { example, ..old(self)@.base }),
                ..old(self)@
            }),
    {
        self.base.set_example(example);
    }

    /// Replaces the id; every other field keeps its value.
    pub fn set_id(&mut self, id: Option<String>)
        ensures
            final(self)@ == (ToolView {
                base: (FieldsView { id: opt_view(id), ..old(self)@.base }),
                ..old(self)@
            }),
    {
        self.base.set_id(id);
    }

    /// Replaces the name; every other field keeps its value.
    pub fn set_name(&mut self, name: Option<String>)
        ensures
            final(self)@ == (ToolView {
                base: (FieldsView { name: opt_view(name), ..old(self)@.base }),
                ..old(self)@
            }),
    {
        self.base.set_name(name);
    }
}

impl BaseMessage for ToolMessage {
    open spec fn fields(&self) -> FieldsView {
        self.base@
    }

    open spec fn role_spec(&self) -> Seq<char> {
        kind_label(self.base@.message_type)
    }

    fn content(&self) -> (r: &str) {
        self.base.content.as_str()
    }

    fn message_type(&self) -> (r: &MessageType) {
        &self.base.message_type
    }

    fn role(&self) -> (r: &str) {
        self.base.message_type.as_str()
    }

    fn name(&self) -> (r: Option<&str>) {
        match &self.base.name {
            Some(s) => Some(s.as_str()),
            None => None,
        }
    }

    fn is_example(&self) -> (r: bool) {
        self.base.example
    }

    fn additional_kwargs(&self) -> (r: &StringMap) {
        &self.base.additional_kwargs
    }

    fn response_metadata(&self) -> (r: &StringMap) {
        &self.base.response_metadata
    }

    fn id(&self) -> (r: Option<&str>) {
        match &self.base.id {
            Some(s) => Some(s.as_str()),
            None => None,
        }
    }
}

impl PartialEq for ToolMessage {
    /// Structural equality over the call identifier, artifact, status and
    /// envelope.
    fn eq(&self, other: &ToolMessage) -> (r: bool) {
        let r = self.tool_call_id == other.tool_call_id && opt_str_eq(
            &self.artifact,
            &other.artifact,
        ) && self.status == other.status && self.base == other.base;
        proof {
            if r {
                assert(self@ =~= other@);
            }
        }
        r
    }
}

impl vstd::std_specs::cmp::PartialEqSpecImpl for ToolMessage {
    open spec fn obeys_eq_spec() -> bool {
        true
    }

    open spec fn eq_spec(&self, other: &ToolMessage) -> bool {
        self@ == other@
    }
}

} // verus!
