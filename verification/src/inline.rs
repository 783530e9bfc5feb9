//! The inline keyboard: a grid of buttons shown under a message.

use crate::document::{
    item_views, lemma_item_views_push, optional_field, optional_text, push_field, push_optional,
    Value, ValueView,
};
use vstd::prelude::*;

verus! {

/// What an inline button does when it is pressed. Each behaviour carries one
/// string, which is passed on as it is.
#[derive(Debug, Clone, PartialEq, PartialOrd)]
pub enum InlineKeyboardButtonKind {
    /// Opens the address.
    Url(String),
    /// Sends the data back to the bot in a callback query.
    CallbackData(String),
    /// Asks the user to pick a chat and inserts the inline query there.
    SwitchInlineQuery(String),
    /// Inserts the inline query in the current chat.
    SwitchInlineQueryCurrentChat(String),
}

/// The mathematical model of an [`InlineKeyboardButtonKind`].
pub ghost enum InlineKeyboardButtonKindView {
    Url(Seq<char>),
    CallbackData(Seq<char>),
    SwitchInlineQuery(Seq<char>),
    SwitchInlineQueryCurrentChat(Seq<char>),
}

impl View for InlineKeyboardButtonKind {
    type V = InlineKeyboardButtonKindView;

    open spec fn view(&self) -> InlineKeyboardButtonKindView {
        match self {
            InlineKeyboardButtonKind::Url(data) => InlineKeyboardButtonKindView::Url(data@),
            InlineKeyboardButtonKind::CallbackData(data) => {
                InlineKeyboardButtonKindView::CallbackData(data@)
            },
            InlineKeyboardButtonKind::SwitchInlineQuery(data) => {
                InlineKeyboardButtonKindView::SwitchInlineQuery(data@)
            },
            InlineKeyboardButtonKind::SwitchInlineQueryCurrentChat(data) => {
                InlineKeyboardButtonKindView::SwitchInlineQueryCurrentChat(data@)
            },
        }
    }
}

impl InlineKeyboardButtonKindView {
    /// The name of the wire field that stands for this behaviour.
    pub open spec fn key(self) -> Seq<char> {
        match self {
            InlineKeyboardButtonKindView::Url(_) => "url"@,
            InlineKeyboardButtonKindView::CallbackData(_) => "callback_data"@,
            InlineKeyboardButtonKindView::SwitchInlineQuery(_) => "switch_inline_query"@,
            InlineKeyboardButtonKindView::SwitchInlineQueryCurrentChat(_) => {
                "switch_inline_query_current_chat"@
            },
        }
    }

    /// The string that the behaviour carries.
    pub open spec fn payload(self) -> Seq<char> {
        match self {
            InlineKeyboardButtonKindView::Url(data) => data,
            InlineKeyboardButtonKindView::CallbackData(data) => data,
            InlineKeyboardButtonKindView::SwitchInlineQuery(data) => data,
            InlineKeyboardButtonKindView::SwitchInlineQueryCurrentChat(data) => data,
        }
    }
}

/// One button of an inline keyboard.
#[derive(Debug, Clone, PartialEq, PartialOrd)]
pub struct InlineKeyboardButton {
    pub text: String,
    pub kind: InlineKeyboardButtonKind,
}

/// The mathematical model of an [`InlineKeyboardButton`].
pub ghost struct InlineKeyboardButtonView {
    pub text: Seq<char>,
    pub kind: InlineKeyboardButtonKindView,
}

impl View for InlineKeyboardButton {
    type V = InlineKeyboardButtonView;

    open spec fn view(&self) -> InlineKeyboardButtonView {
        InlineKeyboardButtonView { text: self.text@, kind: self.kind@ }
    }
}

impl DeepView for InlineKeyboardButton {
    type V = InlineKeyboardButtonView;

    open spec fn deep_view(&self) -> InlineKeyboardButtonView {
        self@
    }
}

impl InlineKeyboardButtonView {
    /// The wire document: `{"text": .., KEY: ..}`, where `KEY` is the one
    /// field that stands for the button's behaviour and holds its string.
    /// The fields of the other behaviours are not in the object.
    pub open spec fn document(self) -> ValueView {
        ValueView::Object(
            seq![
                ("text"@, ValueView::Str(self.text)),
                (self.kind.key(), ValueView::Str(self.kind.payload())),
            ],
        )
    }
}

/// The flat record behind an inline button: the text and one optional slot
/// for each behaviour.
struct InlineKeyboardButtonRaw<'a> {
    text: &'a str,
    url: Option<&'a str>,
    callback_data: Option<&'a str>,
    switch_inline_query: Option<&'a str>,
    switch_inline_query_current_chat: Option<&'a str>,
}

impl<'a> InlineKeyboardButtonRaw<'a> {
    /// The wire document: `{"text": ..}`, followed by each slot that is set,
    /// in the order of the record. A slot that is not set leaves no field.
    spec fn document(&self) -> ValueView {
        ValueView::Object(
            seq![("text"@, ValueView::Str(self.text@))]
                + optional_field("url"@, optional_text(self.url))
                + optional_field("callback_data"@, optional_text(self.callback_data))
                + optional_field("switch_inline_query"@, optional_text(self.switch_inline_query))
                + optional_field(
                    "switch_inline_query_current_chat"@,
                    optional_text(self.switch_inline_query_current_chat),
                ),
        )
    }

    /// Encodes the record.
    fn serialize(&self) -> (doc: Value)
        ensures
            doc@ == self.document(),
    {
        let mut fields: Vec<(String, Value)> = Vec::new();
        push_field(&mut fields, "text", Value::Str(self.text.to_owned()));
        push_optional(&mut fields, "url", self.url);
        push_optional(&mut fields, "callback_data", self.callback_data);
        push_optional(&mut fields, "switch_inline_query", self.switch_inline_query);
        push_optional(
            &mut fields,
            "switch_inline_query_current_chat",
            self.switch_inline_query_current_chat,
        );
        Value::Object(fields)
    }
}

impl InlineKeyboardButton {
    /// Encodes the button: fills the one slot of the flat record that stands
    /// for the button's behaviour and encodes the record.
    pub fn serialize(&self) -> (doc: Value)
        ensures
            doc@ == self@.document(),
    {
        let mut raw = InlineKeyboardButtonRaw {
            text: self.text.as_str(),
            url: None,
            callback_data: None,
            switch_inline_query: None,
            switch_inline_query_current_chat: None,
        };
        match &self.kind {
            InlineKeyboardButtonKind::Url(data) => {
                raw.url = Some(data.as_str());
            },
            InlineKeyboardButtonKind::CallbackData(data) => {
                raw.callback_data = Some(data.as_str());
            },
            InlineKeyboardButtonKind::SwitchInlineQuery(data) => {
                raw.switch_inline_query = Some(data.as_str());
            },
            InlineKeyboardButtonKind::SwitchInlineQueryCurrentChat(data) => {
                raw.switch_inline_query_current_chat = Some(data.as_str());
            },
        }
        assert(raw.document().fields() =~= self@.document().fields());
        raw.serialize()
    }
}

/// The wire document of one row of buttons: the array of their documents.
pub open spec fn row_document(row: Seq<InlineKeyboardButtonView>) -> ValueView {
    ValueView::Array(row.map_values(|button: InlineKeyboardButtonView| button.document()))
}

/// A keyboard shown right under the message it belongs to.
///
/// Rows are shown top to bottom, the buttons of a row left to right.
#[derive(Debug, Clone, PartialEq, PartialOrd)]
pub struct InlineKeyboardMarkup {
    pub inline_keyboard: Vec<Vec<InlineKeyboardButton>>,
}

/// The mathematical model of an [`InlineKeyboardMarkup`].
pub ghost struct InlineKeyboardMarkupView {
    pub inline_keyboard: Seq<Seq<InlineKeyboardButtonView>>,
}

impl View for InlineKeyboardMarkup {
    type V = InlineKeyboardMarkupView;

    open spec fn view(&self) -> InlineKeyboardMarkupView {
        InlineKeyboardMarkupView { inline_keyboard: self.inline_keyboard.deep_view() }
    }
}

impl InlineKeyboardMarkupView {
    /// The wire document: `{"inline_keyboard": [[..], ..]}`, one array for
    /// each row, in the order of the rows.
    pub open spec fn document(self) -> ValueView {
        let rows = self.inline_keyboard.map_values(
            |row: Seq<InlineKeyboardButtonView>| row_document(row),
        );
        ValueView::Object(seq![("inline_keyboard"@, ValueView::Array(rows))])
    }
}

/// Encodes one row of buttons.
fn serialize_row(row: &Vec<InlineKeyboardButton>) -> (doc: Value)
    ensures
        doc@ == row_document(row.deep_view()),
{
    let mut items: Vec<Value> = Vec::new();
    let mut j: usize = 0;
    while j < row.len()
        invariant
            j <= row.len(),
            item_views(items@) == row.deep_view().take(j as int).map_values(
                |button: InlineKeyboardButtonView| button.document(),
            ),
        decreases row.len() - j,
    {
        let item = row[j].serialize();
        proof {
            lemma_item_views_push(items@, item);
            assert(row.deep_view().take(j + 1).map_values(
                |button: InlineKeyboardButtonView| button.document(),
            ) =~= row.deep_view().take(j as int).map_values(
                |button: InlineKeyboardButtonView| button.document(),
            ).push(item@));
        }
        items.push(item);
        j += 1;
    }
    assert(row.deep_view().take(j as int) =~= row.deep_view());
    Value::Array(items)
}

impl InlineKeyboardMarkup {
    /// Encodes the keyboard.
    pub fn serialize(&self) -> (doc: Value)
        ensures
            doc@ == self@.document(),
    {
        let mut rows: Vec<Value> = Vec::new();
        let mut i: usize = 0;
        while i < self.inline_keyboard.len()
            invariant
                i <= self.inline_keyboard.len(),
                item_views(rows@) == self@.inline_keyboard.take(i as int).map_values(
                    |row: Seq<InlineKeyboardButtonView>| row_document(row),
                ),
            decreases self.inline_keyboard.len() - i,
        {
            let row = serialize_row(&self.inline_keyboard[i]);
            proof {
                lemma_item_views_push(rows@, row);
                assert(self@.inline_keyboard.take(i + 1).map_values(
                    |row: Seq<InlineKeyboardButtonView>| row_document(row),
                ) =~= self@.inline_keyboard.take(i as int).map_values(
                    |row: Seq<InlineKeyboardButtonView>| row_document(row),
                ).push(row@));
            }
            rows.push(row);
            i += 1;
        }
        assert(self@.inline_keyboard.take(i as int) =~= self@.inline_keyboard);
        let mut fields: Vec<(String, Value)> = Vec::new();
        push_field(&mut fields, "inline_keyboard", Value::Array(rows));
        Value::Object(fields)
    }
}

/// Whether `key` names the field of one of the four behaviours.
pub open spec fn is_behaviour_key(key: Seq<char>) -> bool {
    ||| key == "url"@
    ||| key == "callback_data"@
    ||| key == "switch_inline_query"@
    ||| key == "switch_inline_query_current_chat"@
}

/// The lengths of the field names of an inline button.
proof fn lemma_field_names()
    ensures
        "text"@.len() == 4,
        "url"@.len() == 3,
        "callback_data"@.len() == 13,
        "switch_inline_query"@.len() == 19,
        "switch_inline_query_current_chat"@.len() == 32,
{
    reveal_strlit("text");
    reveal_strlit("url");
    reveal_strlit("callback_data");
    reveal_strlit("switch_inline_query");
    reveal_strlit("switch_inline_query_current_chat");
}

/// An encoded button holds two fields: its text, and the field of its own
/// behaviour with the string that the behaviour carries. Of the four
/// behaviour fields it holds that one and no other.
pub proof fn lemma_inline_button_document(button: InlineKeyboardButtonView)
    ensures
        button.document().fields().len() == 2,
        button.document().has_only("text"@, ValueView::Str(button.text)),
        is_behaviour_key(button.kind.key()),
        button.document().has_only(button.kind.key(), ValueView::Str(button.kind.payload())),
        forall|key: Seq<char>|
            is_behaviour_key(key) ==> (#[trigger] button.document().has_key(key) <==> key
                == button.kind.key()),
{
    lemma_field_names();
    assert(button.document().has_key_only_at("text"@, 0));
    assert(button.document().has_key_only_at(button.kind.key(), 1));
}

/// An encoded keyboard keeps the order of its rows and of the buttons in
/// each row: its one field, `"inline_keyboard"`, holds one array for each
/// row, and the array of a row holds the document of each of its buttons, in
/// place.
pub proof fn lemma_inline_keyboard_order(keyboard: InlineKeyboardMarkupView)
    ensures
        ({
            let grid = keyboard.document().fields()[0].1;
            &&& keyboard.document().fields().len() == 1
            &&& keyboard.document().fields()[0].0 == "inline_keyboard"@
            &&& grid.items().len() == keyboard.inline_keyboard.len()
            &&& forall|i: int|
                0 <= i < keyboard.inline_keyboard.len() ==> (
                #[trigger] grid.items()[i]).items().len() == keyboard.inline_keyboard[i].len()
            &&& forall|i: int, j: int|
                0 <= i < keyboard.inline_keyboard.len() && 0 <= j
                    < keyboard.inline_keyboard[i].len() ==> #[trigger] grid.items()[i].items()[j]
                    == keyboard.inline_keyboard[i][j].document()
        }),
{
}

} // verus!
