//! Directives: reply controls that instruct the client instead of showing buttons.

use crate::document::{flag_field, push_field, push_flag, Value, ValueView};
use vstd::prelude::*;

verus! {

/// The marker that is always `true`.
///
/// The type has a single value, so a field of this type cannot hold `false`.
#[derive(Debug, Clone, Copy, PartialEq, Eq, PartialOrd, Ord, Hash)]
pub struct True;

impl True {
    /// Encodes the marker: always the boolean `true`.
    pub fn serialize(&self) -> (doc: Value)
        ensures
            doc@ == ValueView::Bool(true),
    {
        Value::Bool(true)
    }
}

/// Asks the client to hide the custom keyboard.
#[derive(Debug, Clone, PartialEq, PartialOrd)]
pub struct ReplyKeyboardRemove {
    pub remove_keyboard: True,
    pub selective: bool,
}

impl View for ReplyKeyboardRemove {
    type V = ReplyKeyboardRemove;

    /// The directive holds no more than a flag: it is its own model.
    open spec fn view(&self) -> ReplyKeyboardRemove {
        *self
    }
}

impl ReplyKeyboardRemove {
    /// The wire document: `{"remove_keyboard": true}`, followed by
    /// `"selective": true` when the directive is selective.
    pub open spec fn document(self) -> ValueView {
        ValueView::Object(
            seq![("remove_keyboard"@, ValueView::Bool(true))]
                + flag_field("selective"@, self.selective),
        )
    }

    /// Encodes the directive.
    pub fn serialize(&self) -> (doc: Value)
        ensures
            doc@ == self@.document(),
    {
        let mut fields: Vec<(String, Value)> = Vec::new();
        push_field(&mut fields, "remove_keyboard", self.remove_keyboard.serialize());
        push_flag(&mut fields, "selective", self.selective);
        Value::Object(fields)
    }
}

/// Asks the client to show a reply interface to the user.
#[derive(Debug, Clone, PartialEq, PartialOrd)]
pub struct ForceReply {
    pub force_reply: True,
    pub selective: bool,
}

impl View for ForceReply {
    type V = ForceReply;

    /// The directive holds no more than a flag: it is its own model.
    open spec fn view(&self) -> ForceReply {
        *self
    }
}

impl ForceReply {
    /// The wire document: `{"force_reply": true}`, followed by
    /// `"selective": true` when the directive is selective.
    pub open spec fn document(self) -> ValueView {
        ValueView::Object(
            seq![("force_reply"@, ValueView::Bool(true))]
                + flag_field("selective"@, self.selective),
        )
    }

    /// Encodes the directive.
    pub fn serialize(&self) -> (doc: Value)
        ensures
            doc@ == self@.document(),
    {
        let mut fields: Vec<(String, Value)> = Vec::new();
        push_field(&mut fields, "force_reply", self.force_reply.serialize());
        push_flag(&mut fields, "selective", self.selective);
        Value::Object(fields)
    }
}

/// The lengths of the field names of the directives.
proof fn lemma_field_names()
    ensures
        "remove_keyboard"@.len() == 15,
        "force_reply"@.len() == 11,
        "selective"@.len() == 9,
{
    reveal_strlit("remove_keyboard");
    reveal_strlit("force_reply");
    reveal_strlit("selective");
}

/// A directive to hide the keyboard always holds `"remove_keyboard": true`,
/// whatever its flag, and holds `"selective"` exactly when the flag is set,
/// with the value `true`.
pub proof fn lemma_remove_document(directive: ReplyKeyboardRemove)
    ensures
        directive.document().has_only("remove_keyboard"@, ValueView::Bool(true)),
        directive.document().writes_flag("selective"@, directive.selective),
{
    lemma_field_names();
    assert(directive.document().has_key_only_at("remove_keyboard"@, 0));
    if directive.selective {
        assert(directive.document().has_key_only_at("selective"@, 1));
    }
}

/// A directive to force a reply always holds `"force_reply": true`, whatever
/// its flag, and holds `"selective"` exactly when the flag is set, with the
/// value `true`.
pub proof fn lemma_force_document(directive: ForceReply)
    ensures
        directive.document().has_only("force_reply"@, ValueView::Bool(true)),
        directive.document().writes_flag("selective"@, directive.selective),
{
    lemma_field_names();
    assert(directive.document().has_key_only_at("force_reply"@, 0));
    if directive.selective {
        assert(directive.document().has_key_only_at("selective"@, 1));
    }
}

} // verus!
