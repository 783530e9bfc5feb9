//! The reply control: one of the four families, encoded as the family's own document.

use crate::directive::{ForceReply, ReplyKeyboardRemove};
use crate::document::{Value, ValueView};
use crate::inline::{InlineKeyboardMarkup, InlineKeyboardMarkupView};
use crate::keyboard::{ReplyKeyboardMarkup, ReplyKeyboardMarkupView};
use vstd::prelude::*;
use vstd::std_specs::convert::FromSpec;

verus! {

/// A reply control attached to an outgoing message.
#[derive(Debug, Clone, PartialEq, PartialOrd)]
pub enum ReplyMarkup {
    InlineKeyboardMarkup(InlineKeyboardMarkup),
    ReplyKeyboardMarkup(ReplyKeyboardMarkup),
    ReplyKeyboardRemove(ReplyKeyboardRemove),
    ForceReply(ForceReply),
}

/// The mathematical model of a [`ReplyMarkup`].
pub ghost enum ReplyMarkupView {
    InlineKeyboardMarkup(InlineKeyboardMarkupView),
    ReplyKeyboardMarkup(ReplyKeyboardMarkupView),
    ReplyKeyboardRemove(ReplyKeyboardRemove),
    ForceReply(ForceReply),
}

impl View for ReplyMarkup {
    type V = ReplyMarkupView;

    open spec fn view(&self) -> ReplyMarkupView {
        match self {
            ReplyMarkup::InlineKeyboardMarkup(value) => {
                ReplyMarkupView::InlineKeyboardMarkup(value@)
            },
            ReplyMarkup::ReplyKeyboardMarkup(value) => ReplyMarkupView::ReplyKeyboardMarkup(value@),
            ReplyMarkup::ReplyKeyboardRemove(value) => ReplyMarkupView::ReplyKeyboardRemove(value@),
            ReplyMarkup::ForceReply(value) => ReplyMarkupView::ForceReply(value@),
        }
    }
}

impl ReplyMarkupView {
    /// The wire document: that of the family that the control holds, with
    /// nothing added and nothing merged.
    pub open spec fn document(self) -> ValueView {
        match self {
            ReplyMarkupView::InlineKeyboardMarkup(value) => value.document(),
            ReplyMarkupView::ReplyKeyboardMarkup(value) => value.document(),
            ReplyMarkupView::ReplyKeyboardRemove(value) => value.document(),
            ReplyMarkupView::ForceReply(value) => value.document(),
        }
    }
}

impl ReplyMarkup {
    /// Encodes the control with the encoder of the family that it holds.
    pub fn serialize(&self) -> (doc: Value)
        ensures
            doc@ == self@.document(),
    {
        match self {
            ReplyMarkup::InlineKeyboardMarkup(value) => value.serialize(),
            ReplyMarkup::ReplyKeyboardMarkup(value) => value.serialize(),
            ReplyMarkup::ReplyKeyboardRemove(value) => value.serialize(),
            ReplyMarkup::ForceReply(value) => value.serialize(),
        }
    }
}

impl From<InlineKeyboardMarkup> for ReplyMarkup {
    fn from(value: InlineKeyboardMarkup) -> (markup: ReplyMarkup) {
        ReplyMarkup::InlineKeyboardMarkup(value)
    }
}

impl vstd::std_specs::convert::FromSpecImpl<InlineKeyboardMarkup> for ReplyMarkup {
    open spec fn obeys_from_spec() -> bool {
        true
    }

    open spec fn from_spec(value: InlineKeyboardMarkup) -> ReplyMarkup {
        ReplyMarkup::InlineKeyboardMarkup(value)
    }
}

impl From<ReplyKeyboardMarkup> for ReplyMarkup {
    fn from(value: ReplyKeyboardMarkup) -> (markup: ReplyMarkup) {
        ReplyMarkup::ReplyKeyboardMarkup(value)
    }
}

impl vstd::std_specs::convert::FromSpecImpl<ReplyKeyboardMarkup> for ReplyMarkup {
    open spec fn obeys_from_spec() -> bool {
        true
    }

    open spec fn from_spec(value: ReplyKeyboardMarkup) -> ReplyMarkup {
        ReplyMarkup::ReplyKeyboardMarkup(value)
    }
}

impl From<ReplyKeyboardRemove> for ReplyMarkup {
    fn from(value: ReplyKeyboardRemove) -> (markup: ReplyMarkup) {
        ReplyMarkup::ReplyKeyboardRemove(value)
    }
}

impl vstd::std_specs::convert::FromSpecImpl<ReplyKeyboardRemove> for ReplyMarkup {
    open spec fn obeys_from_spec() -> bool {
        true
    }

    open spec fn from_spec(value: ReplyKeyboardRemove) -> ReplyMarkup {
        ReplyMarkup::ReplyKeyboardRemove(value)
    }
}

impl From<ForceReply> for ReplyMarkup {
    fn from(value: ForceReply) -> (markup: ReplyMarkup) {
        ReplyMarkup::ForceReply(value)
    }
}

impl vstd::std_specs::convert::FromSpecImpl<ForceReply> for ReplyMarkup {
    open spec fn obeys_from_spec() -> bool {
        true
    }

    open spec fn from_spec(value: ForceReply) -> ReplyMarkup {
        ReplyMarkup::ForceReply(value)
    }
}

/// Wrapping a family value into a reply control adds no shape: the control
/// has the document of the value, and so the same JSON text.
pub proof fn lemma_from_keeps_document(
    inline: InlineKeyboardMarkup,
    keyboard: ReplyKeyboardMarkup,
    remove: ReplyKeyboardRemove,
    force: ForceReply,
)
    ensures
        ReplyMarkup::from_spec(inline)@.document() == inline@.document(),
        ReplyMarkup::from_spec(keyboard)@.document() == keyboard@.document(),
        ReplyMarkup::from_spec(remove)@.document() == remove@.document(),
        ReplyMarkup::from_spec(force)@.document() == force@.document(),
        ReplyMarkup::from_spec(inline)@.document().json_text() == inline@.document().json_text(),
        ReplyMarkup::from_spec(keyboard)@.document().json_text()
            == keyboard@.document().json_text(),
        ReplyMarkup::from_spec(remove)@.document().json_text() == remove@.document().json_text(),
        ReplyMarkup::from_spec(force)@.document().json_text() == force@.document().json_text(),
{
}

} // verus!
