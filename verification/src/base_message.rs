//! The field envelope shared by every message variant, its ghost model, and
//! the uniform read-only capability interface that every variant (and the
//! tagged union) exposes.

use vstd::prelude::*;

use crate::assoc::assoc_keys_distinct;
use crate::message_type::MessageType;
use crate::string_map::StringMap;

verus! {

/// The view of an optional string.
pub open spec fn opt_view(o: Option<String>) -> Option<Seq<char>> {
    match o {
        Some(s) => Some(s@),
        None => None,
    }
}

/// The ghost model of a field envelope.
#[verifier::ext_equal]
pub struct FieldsView {
    pub content: Seq<char>,
    pub example: bool,
    pub message_type: MessageType,
    pub additional_kwargs: Seq<(Seq<char>, Seq<char>)>,
    pub response_metadata: Seq<(Seq<char>, Seq<char>)>,
    pub id: Option<Seq<char>>,
    pub name: Option<Seq<char>>,
}

impl FieldsView {
    /// Both metadata mappings hold each key at most once.
    pub open spec fn wf(&self) -> bool {
        assoc_keys_distinct(self.additional_kwargs) && assoc_keys_distinct(self.response_metadata)
    }

    /// The envelope a fresh message carries: the given content and kind, the
    /// given example flag, and everything else at its default.
    pub open spec fn fresh(content: Seq<char>, example: bool, message_type: MessageType) -> FieldsView {
        FieldsView {
            content,
            example,
            message_type,
            additional_kwargs: Seq::empty(),
            response_metadata: Seq::empty(),
            id: None,
            name: None,
        }
    }
}

/// The attribute set shared by every message variant. The `message_type`
/// discriminator always matches the concrete variant that owns the envelope:
/// constructors and the codec are its only writers.
#[derive(Debug, Clone)]
pub struct BaseMessageFields {
    pub content: String,
    pub example: bool,
    pub message_type: MessageType,
    pub additional_kwargs: StringMap,
    pub response_metadata: StringMap,
    pub id: Option<String>,
    pub name: Option<String>,
}

impl View for BaseMessageFields {
    type V = FieldsView;

    open spec fn view(&self) -> FieldsView {
        FieldsView {
            content: self.content@,
            example: self.example,
            message_type: self.message_type,
            additional_kwargs: self.additional_kwargs@,
            response_metadata: self.response_metadata@,
            id: opt_view(self.id),
            name: opt_view(self.name),
        }
    }
}

impl BaseMessageFields {
    /// A fresh envelope: the given content, example flag and kind; empty
    /// metadata; no id and no name.
    pub fn fresh(content: &str, example: bool, message_type: MessageType) -> (r: Self)
        ensures
            r@ == FieldsView::fresh(content@, example, message_type),
    {
        let r = BaseMessageFields {
            content: String::from_str(content),
            example,
            message_type,
            additional_kwargs: StringMap::new(),
            response_metadata: StringMap::new(),
            id: None,
            name: None,
        };
        proof {
            assert(r@ =~= FieldsView::fresh(content@, example, message_type));
        }
        r
    }

    /// Replaces the content.
    pub fn set_content(&mut self, new_content: &str)
        ensures
            final(self)@ == (FieldsView { content: new_content@, ..old(self)@ }),
    {
        self.content = String::from_str(new_content);
        proof {
            assert(self@ =~= (FieldsView { content: new_content@, ..old(self)@ }));
        }
    }

    /// Replaces the example flag.
    pub fn set_example(&mut self, example: bool)
        ensures
            final(self)@ == (FieldsView { example, ..old(self)@ }),
    {
        self.example = example;
        proof {
            assert(self@ =~= (FieldsView { example, ..old(self)@ }));
        }
    }

    /// Replaces the id.
    pub fn set_id(&mut self, id: Option<String>)
        ensures
            final(self)@ == (FieldsView { id: opt_view(id), ..old(self)@ }),
    {
        self.id = id;
        proof {
            assert(self@ =~= (FieldsView { id: opt_view(self.id), ..old(self)@ }));
        }
    }

    /// Replaces the name.
    pub fn set_name(&mut self, name: Option<String>)
        ensures
            final(self)@ == (FieldsView { name: opt_view(name), ..old(self)@ }),
    {
        self.name = name;
        proof {
            assert(self@ =~= (FieldsView { name: opt_view(self.name), ..old(self)@ }));
        }
    }
}

/// Compares two optional strings by their characters.
pub fn opt_str_eq(a: &Option<String>, b: &Option<String>) -> (r: bool)
    ensures
        r == (opt_view(*a) == opt_view(*b)),
{
    match a {
        Some(x) => match b {
            Some(y) => *x == *y,
            None => false,
        },
        None => b.is_none(),
    }
}

impl PartialEq for BaseMessageFields {
    /// Structural equality over the envelope's view.
    fn eq(&self, other: &BaseMessageFields) -> (r: bool) {
        let r = self.content == other.content && self.example == other.example
            && self.message_type == other.message_type && self.additional_kwargs
            == other.additional_kwargs && self.response_metadata == other.response_metadata
            && opt_str_eq(&self.id, &other.id) && opt_str_eq(&self.name, &other.name);
        proof {
            if r {
                assert(self@ =~= other@);
            }
        }
        r
    }
}

impl vstd::std_specs::cmp::PartialEqSpecImpl for BaseMessageFields {
    open spec fn obeys_eq_spec() -> bool {
        true
    }

    open spec fn eq_spec(&self, other: &BaseMessageFields) -> bool {
        self@ == other@
    }
}

/// The uniform read-only accessor contract implemented by every variant and
/// by the tagged union.
pub trait BaseMessage {
    /// The ghost envelope of the message.
    spec fn fields(&self) -> FieldsView;

    /// The role string: for Chat the stored free-form role, for every other
    /// variant the canonical label of the discriminator.
    spec fn role_spec(&self) -> Seq<char>;

    /// The message content.
    fn content(&self) -> (r: &str)
        ensures
            r@ == self.fields().content,
    ;

    /// The discriminator.
    fn message_type(&self) -> (r: &MessageType)
        ensures
            *r == self.fields().message_type,
    ;

    /// The role string.
    fn role(&self) -> (r: &str)
        ensures
            r@ == self.role_spec(),
    ;

    /// The optional display name.
    fn name(&self) -> (r: Option<&str>)
        ensures
            r matches Some(s) ==> self.fields().name == Some(s@),
            r is None ==> self.fields().name is None,
    ;

    /// The example flag.
    fn is_example(&self) -> (r: bool)
        ensures
            r == self.fields().example,
    ;

    /// A view of the extra keyword mapping.
    fn additional_kwargs(&self) -> (r: &StringMap)
        ensures
            r@ == self.fields().additional_kwargs,
    ;

    /// A view of the response metadata mapping.
    fn response_metadata(&self) -> (r: &StringMap)
        ensures
            r@ == self.fields().response_metadata,
    ;

    /// The optional message id.
    fn id(&self) -> (r: Option<&str>)
        ensures
            r matches Some(s) ==> self.fields().id == Some(s@),
            r is None ==> self.fields().id is None,
    ;
}

} // verus!
