//! The message variant carrying system instructions.

use vstd::prelude::*;

use crate::base_message::BaseMessage;
use crate::base_message::BaseMessageFields;
use crate::base_message::FieldsView;
use crate::base_message::opt_view;
use crate::message_type::kind_label;
use crate::message_type::MessageType;
use crate::string_map::StringMap;

verus! {

/// A system instruction message; it carries only the shared envelope.
#[derive(Debug, Clone)]
pub struct SystemMessage {
    pub base: BaseMessageFields,
}

impl View for SystemMessage {
    type V = FieldsView;

    open spec fn view(&self) -> FieldsView {
        self.base@
    }
}

impl SystemMessage {
    /// What every constructor establishes: the discriminator names this
    /// variant and the metadata mappings are well formed.
    pub open spec fn wf(&self) -> bool {
        self.base@.message_type == MessageType::System && self.base@.wf()
    }

    /// A fresh message: the given content, no example flag, empty metadata,
    /// no id and no name.
    pub fn new(content: &str) -> (r: Self)
        ensures
            r@ == FieldsView::fresh(content@, false, MessageType::System),
            r.wf(),
    {
        Self::new_with_example(content, false)
    }

    /// A fresh message with an explicit example flag.
    pub fn new_with_example(content: &str, example: bool) -> (r: Self)
        ensures
            r@ == FieldsView::fresh(content@, example, MessageType::System),
            r.wf(),
    {
        SystemMessage { base: BaseMessageFields::fresh(content, example, MessageType::System) }
    }

    /// Replaces the content; every other field keeps its value.
    pub fn set_content(&mut self, new_content: &str)
        ensures
            final(self)@ == (FieldsView { content: new_content@, ..old(self)@ }),
    {
        self.base.set_content(new_content);
    }

    /// Replaces the example flag; every other field keeps its value.
    pub fn set_example(&mut self, example: bool)
        ensures
            final(self)@ == (FieldsView { example, ..old(self)@ }),
    {
        self.base.set_example(example);
    }

    /// Replaces the id; every other field keeps its value.
    pub fn set_id(&mut self, id: Option<String>)
        ensures
            final(self)@ == (FieldsView { id: opt_view(id), ..old(self)@ }),
    {
        self.base.set_id(id);
    }

    /// Replaces the name; every other field keeps its value.
    pub fn set_name(&mut self, name: Option<String>)
        ensures
            final(self)@ == (FieldsView { name: opt_view(name), ..old(self)@ }),
    {
        self.base.set_name(name);
    }
}

impl BaseMessage for SystemMessage {
    open spec fn fields(&self) -> FieldsView {
        self.base@
    }

    open spec fn role_spec(&self) -> Seq<char> {
        kind_label(self.base@.message_type)
    }

    fn content(&self) -> (r: &str) {
        self.base.content.as_str()
    }

    fn message_type(&self) -> (r: &MessageType) {
        &self.base.message_type
    }

    fn role(&self) -> (r: &str) {
        self.base.message_type.as_str()
    }

    fn name(&self) -> (r: Option<&str>) {
        match &self.base.name {
            Some(s) => Some(s.as_str()),
            None => None,
        }
    }

    fn is_example(&self) -> (r: bool) {
        self.base.example
    }

    fn additional_kwargs(&self) -> (r: &StringMap) {
        &self.base.additional_kwargs
    }

    fn response_metadata(&self) -> (r: &StringMap) {
        &self.base.response_metadata
    }

    fn id(&self) -> (r: Option<&str>) {
        match &self.base.id {
            Some(s) => Some(s.as_str()),
            None => None,
        }
    }
}

impl PartialEq for SystemMessage {
    /// Structural equality over the envelope.
    fn eq(&self, other: &SystemMessage) -> (r: bool) {
        self.base == other.base
    }
}

impl vstd::std_specs::cmp::PartialEqSpecImpl for SystemMessage {
    open spec fn obeys_eq_spec() -> bool {
        true
    }

    open spec fn eq_spec(&self, other: &SystemMessage) -> bool {
        self@ == other@
    }
}

} // verus!
