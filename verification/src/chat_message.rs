//! The chat message variant: the shared envelope plus a free-form,
//! user-supplied role label. The stored role is what the message reports as
//! its role string — intentionally distinct from the discriminator, whose
//! canonical label is `chat`.

use vstd::prelude::*;

use crate::base_message::opt_view;
use crate::base_message::BaseMessage;
use crate::base_message::BaseMessageFields;
use crate::base_message::FieldsView;
use crate::message_type::MessageType;
use crate::string_map::StringMap;

verus! {

/// The ghost model of a chat message: the free-form role and the envelope.
#[verifier::ext_equal]
pub struct ChatView {
    pub role: Seq<char>,
    pub base: FieldsView,
}

/// A message carrying a free-form role label beside the shared envelope.
#[derive(Debug, Clone)]
pub struct ChatMessage {
    pub role: String,
    pub base: BaseMessageFields,
}

impl View for ChatMessage {
    type V = ChatView;

    open spec fn view(&self) -> ChatView {
        ChatView { role: self.role@, base: self.base@ }
    }
}

impl ChatMessage {
    /// What every constructor establishes: the discriminator names this
    /// variant and the metadata mappings are well formed.
    pub open spec fn wf(&self) -> bool {
        self.base@.message_type == MessageType::Chat && self.base@.wf()
    }

    /// A fresh message: the given content and role, no example flag, empty
    /// metadata, no id and no name.
    pub fn new(content: &str, role: String) -> (r: Self)
        ensures
            r@ == (ChatView {
                role: role@,
                base: FieldsView::fresh(content@, false, MessageType::Chat),
            }),
            r.wf(),
    {
        Self::new_with_example(content, false, role)
    }

    /// A fresh message with an explicit example flag.
    pub fn new_with_example(content: &str, example: bool, role: String) -> (r: Self)
        ensures
            r@ == (ChatView {
                role: role@,
                base: FieldsView::fresh(content@, example, MessageType::Chat),
            }),
            r.wf(),
    {
        ChatMessage { role, base: BaseMessageFields::fresh(content, example, MessageType::Chat) }
    }

    /// Replaces the content; every other field keeps its value.
    pub fn set_content(&mut self, new_content: &str)
        ensures
            final(self)@ == (ChatView {
                base: (FieldsView { content: new_content@, ..old(self)@.base }),
                ..old(self)@
            }),
    {
        self.base.set_content(new_content);
    }

    /// Replaces the example flag; every other field keeps its value.
    pub fn set_example(&mut self, example: bool)
        ensures
            final(self)@ == (ChatView {
                base: (FieldsView { example, ..old(self)@.base }),
                ..old(self)@
            }),
    {
        self.base.set_example(example);
    }

    /// Replaces the id; every other field keeps its value.
    pub fn set_id(&mut self, id: Option<String>)
        ensures
            final(self)@ == (ChatView {
                base: (FieldsView { id: opt_view(id), ..old(self)@.base }),
                ..old(self)@
            }),
    {
        self.base.set_id(id);
    }

    /// Replaces the name; every other field keeps its value.
    pub fn set_name(&mut self, name: Option<String>)
        ensures
            final(self)@ == (ChatView {
                base: (FieldsView { name: opt_view(name), ..old(self)@.base }),
                ..old(self)@
            }),
    {
        self.base.set_name(name);
    }
}

impl BaseMessage for ChatMessage {
    open spec fn fields(&self) -> FieldsView {
        self.base@
    }

    open spec fn role_spec(&self) -> Seq<char> {
        self.role@
    }

    fn content(&self) -> (r: &str) {
        self.base.content.as_str()
    }

    fn message_type(&self) -> (r: &MessageType) {
        &self.base.message_type
    }

    fn role(&self) -> (r: &str) {
        self.role.as_str()
    }

    fn name(&self) -> (r: Option<&str>) {
        match &self.base.name {
            Some(s) => Some(s.as_str()),
            None => None,
        }
    }

    fn is_example(&self) -> (r: bool) {
        self.base.example
    }

    fn additional_kwargs(&self) -> (r: &StringMap) {
        &self.base.additional_kwargs
    }

    fn response_metadata(&self) -> (r: &StringMap) {
        &self.base.response_metadata
    }

    fn id(&self) -> (r: Option<&str>) {
        match &self.base.id {
            Some(s) => Some(s.as_str()),
            None => None,
        }
    }
}

impl PartialEq for ChatMessage {
    /// Structural equality over the role and the envelope.
    fn eq(&self, other: &ChatMessage) -> (r: bool) {
        let r = self.role == other.role && self.base == other.base;
        proof {
            if r {
                assert(self@ =~= other@);
            }
        }
        r
    }
}

impl vstd::std_specs::cmp::PartialEqSpecImpl for ChatMessage {
    open spec fn obeys_eq_spec() -> bool {
        true
    }

    open spec fn eq_spec(&self, other: &ChatMessage) -> bool {
        self@ == other@
    }
}

} // verus!
