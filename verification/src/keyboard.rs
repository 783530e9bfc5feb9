//! The custom text keyboard: a grid of plain buttons with layout flags.

use crate::document::{
    flag_field, item_views, lemma_item_views_push, push_field, push_flag, Value, ValueView,
};
use vstd::prelude::*;

verus! {

/// One button of a text keyboard.
///
/// Both request flags may be set at once: nothing here forbids it.
#[derive(Debug, Clone, PartialEq, PartialOrd)]
pub struct KeyboardButton {
    pub text: String,
    pub request_contact: bool,
    pub request_location: bool,
}

/// The mathematical model of a [`KeyboardButton`].
pub ghost struct KeyboardButtonView {
    pub text: Seq<char>,
    pub request_contact: bool,
    pub request_location: bool,
}

impl View for KeyboardButton {
    type V = KeyboardButtonView;

    open spec fn view(&self) -> KeyboardButtonView {
        KeyboardButtonView {
            text: self.text@,
            request_contact: self.request_contact,
            request_location: self.request_location,
        }
    }
}

impl DeepView for KeyboardButton {
    type V = KeyboardButtonView;

    open spec fn deep_view(&self) -> KeyboardButtonView {
        self@
    }
}

impl KeyboardButtonView {
    /// The wire document: `{"text": ..}`, followed by `"request_contact": true`
    /// and `"request_location": true`, each only when its flag is set.
    pub open spec fn document(self) -> ValueView {
        ValueView::Object(
            seq![("text"@, ValueView::Str(self.text))]
                + flag_field("request_contact"@, self.request_contact)
                + flag_field("request_location"@, self.request_location),
        )
    }
}

/// The wire document of one row of buttons: the array of their documents.
pub open spec fn row_document(row: Seq<KeyboardButtonView>) -> ValueView {
    ValueView::Array(row.map_values(|button: KeyboardButtonView| button.document()))
}

impl KeyboardButton {
    /// Encodes the button.
    pub fn serialize(&self) -> (doc: Value)
        ensures
            doc@ == self@.document(),
    {
        let mut fields: Vec<(String, Value)> = Vec::new();
        push_field(&mut fields, "text", Value::Str(self.text.clone()));
        push_flag(&mut fields, "request_contact", self.request_contact);
        push_flag(&mut fields, "request_location", self.request_location);
        Value::Object(fields)
    }
}

impl<'a> From<&'a str> for KeyboardButton {
    /// A plain button with the given text: both request flags are off.
    fn from(value: &'a str) -> (button: KeyboardButton)
        ensures
            button@ == (KeyboardButtonView {
                text: value@,
                request_contact: false,
                request_location: false,
            }),
    {
        KeyboardButton { text: value.to_string(), request_contact: false, request_location: false }
    }
}

impl<'a> vstd::std_specs::convert::FromSpecImpl<&'a str> for KeyboardButton {
    /// Two strings with the same characters need not be the same value, so
    /// the result of `from` is stated by its model, in the `ensures` of
    /// `from`, and not by `from_spec`.
    open spec fn obeys_from_spec() -> bool {
        false
    }

    open spec fn from_spec(value: &'a str) -> KeyboardButton {
        choose|button: KeyboardButton|
            button@ == (KeyboardButtonView {
                text: value@,
                request_contact: false,
                request_location: false,
            })
    }
}

/// A custom keyboard shown in place of the letter keyboard.
///
/// Rows are shown top to bottom, the buttons of a row left to right.
#[derive(Debug, Clone, PartialEq, PartialOrd)]
pub struct ReplyKeyboardMarkup {
    pub keyboard: Vec<Vec<KeyboardButton>>,
    pub resize_keyboard: bool,
    pub one_time_keyboard: bool,
    pub selective: bool,
}

/// The mathematical model of a [`ReplyKeyboardMarkup`].
pub ghost struct ReplyKeyboardMarkupView {
    pub keyboard: Seq<Seq<KeyboardButtonView>>,
    pub resize_keyboard: bool,
    pub one_time_keyboard: bool,
    pub selective: bool,
}

impl View for ReplyKeyboardMarkup {
    type V = ReplyKeyboardMarkupView;

    open spec fn view(&self) -> ReplyKeyboardMarkupView {
        ReplyKeyboardMarkupView {
            keyboard: self.keyboard.deep_view(),
            resize_keyboard: self.resize_keyboard,
            one_time_keyboard: self.one_time_keyboard,
            selective: self.selective,
        }
    }
}

impl ReplyKeyboardMarkupView {
    /// The wire document: `{"keyboard": [[..], ..]}`, followed by
    /// `"resize_keyboard": true`, `"one_time_keyboard": true` and
    /// `"selective": true`, each only when its flag is set.
    pub open spec fn document(self) -> ValueView {
        let rows = self.keyboard.map_values(|row: Seq<KeyboardButtonView>| row_document(row));
        ValueView::Object(
            seq![("keyboard"@, ValueView::Array(rows))]
                + flag_field("resize_keyboard"@, self.resize_keyboard)
                + flag_field("one_time_keyboard"@, self.one_time_keyboard)
                + flag_field("selective"@, self.selective),
        )
    }
}

/// Encodes one row of buttons.
fn serialize_row(row: &Vec<KeyboardButton>) -> (doc: Value)
    ensures
        doc@ == row_document(row.deep_view()),
{
    let mut items: Vec<Value> = Vec::new();
    let mut j: usize = 0;
    while j < row.len()
        invariant
            j <= row.len(),
            item_views(items@) == row.deep_view().take(j as int).map_values(
                |button: KeyboardButtonView| button.document(),
            ),
        decreases row.len() - j,
    {
        let item = row[j].serialize();
        proof {
            lemma_item_views_push(items@, item);
            assert(row.deep_view().take(j + 1).map_values(
                |button: KeyboardButtonView| button.document(),
            ) =~= row.deep_view().take(j as int).map_values(
                |button: KeyboardButtonView| button.document(),
            ).push(item@));
        }
        items.push(item);
        j += 1;
    }
    assert(row.deep_view().take(j as int) =~= row.deep_view());
    Value::Array(items)
}

impl ReplyKeyboardMarkup {
    /// The empty keyboard: no rows, every flag off.
    pub fn new() -> (keyboard: ReplyKeyboardMarkup)
        ensures
            keyboard@ == (ReplyKeyboardMarkupView {
                keyboard: Seq::empty(),
                resize_keyboard: false,
                one_time_keyboard: false,
                selective: false,
            }),
    {
        let keyboard = ReplyKeyboardMarkup {
            keyboard: Vec::new(),
            resize_keyboard: false,
            one_time_keyboard: false,
            selective: false,
        };
        assert(keyboard.keyboard.deep_view() =~= Seq::empty());
        keyboard
    }

    /// Encodes the keyboard.
    pub fn serialize(&self) -> (doc: Value)
        ensures
            doc@ == self@.document(),
    {
        let mut rows: Vec<Value> = Vec::new();
        let mut i: usize = 0;
        while i < self.keyboard.len()
            invariant
                i <= self.keyboard.len(),
                item_views(rows@) == self@.keyboard.take(i as int).map_values(
                    |row: Seq<KeyboardButtonView>| row_document(row),
                ),
            decreases self.keyboard.len() - i,
        {
            let row = serialize_row(&self.keyboard[i]);
            proof {
                lemma_item_views_push(rows@, row);
                assert(self@.keyboard.take(i + 1).map_values(
                    |row: Seq<KeyboardButtonView>| row_document(row),
                ) =~= self@.keyboard.take(i as int).map_values(
                    |row: Seq<KeyboardButtonView>| row_document(row),
                ).push(row@));
            }
            rows.push(row);
            i += 1;
        }
        assert(self@.keyboard.take(i as int) =~= self@.keyboard);
        let mut fields: Vec<(String, Value)> = Vec::new();
        push_field(&mut fields, "keyboard", Value::Array(rows));
        push_flag(&mut fields, "resize_keyboard", self.resize_keyboard);
        push_flag(&mut fields, "one_time_keyboard", self.one_time_keyboard);
        push_flag(&mut fields, "selective", self.selective);
        Value::Object(fields)
    }
}

/// Builds a keyboard from its rows of buttons, with every flag off.
///
/// A button given by its text alone is written `KeyboardButton::from(text)`.
pub fn reply_keyboard(rows: Vec<Vec<KeyboardButton>>) -> (keyboard: ReplyKeyboardMarkup)
    ensures
        keyboard.keyboard == rows,
        keyboard@ == (ReplyKeyboardMarkupView {
            keyboard: rows.deep_view(),
            resize_keyboard: false,
            one_time_keyboard: false,
            selective: false,
        }),
{
    let mut keyboard = ReplyKeyboardMarkup::new();
    keyboard.keyboard = rows;
    keyboard
}

/// The lengths of the field names of a keyboard and of its buttons.
proof fn lemma_field_names()
    ensures
        "text"@.len() == 4,
        "request_contact"@.len() == 15,
        "request_location"@.len() == 16,
        "keyboard"@.len() == 8,
        "resize_keyboard"@.len() == 15,
        "one_time_keyboard"@.len() == 17,
        "selective"@.len() == 9,
{
    reveal_strlit("text");
    reveal_strlit("request_contact");
    reveal_strlit("request_location");
    reveal_strlit("keyboard");
    reveal_strlit("resize_keyboard");
    reveal_strlit("one_time_keyboard");
    reveal_strlit("selective");
}

/// An encoded button holds its text, and holds each of `"request_contact"`
/// and `"request_location"` exactly when that flag is set, with the value
/// `true`.
pub proof fn lemma_keyboard_button_document(button: KeyboardButtonView)
    ensures
        button.document().has_only("text"@, ValueView::Str(button.text)),
        button.document().writes_flag("request_contact"@, button.request_contact),
        button.document().writes_flag("request_location"@, button.request_location),
{
    lemma_field_names();
    let document = button.document();
    let after_contact: int = if button.request_contact {
        2
    } else {
        1
    };
    assert(document.has_key_only_at("text"@, 0));
    if button.request_contact {
        assert(document.has_key_only_at("request_contact"@, 1));
    }
    if button.request_location {
        assert(document.has_key_only_at("request_location"@, after_contact));
    }
}

/// An encoded keyboard holds its grid under `"keyboard"`, and holds each of
/// `"resize_keyboard"`, `"one_time_keyboard"` and `"selective"` exactly when
/// that flag is set, with the value `true`.
pub proof fn lemma_reply_keyboard_flags(keyboard: ReplyKeyboardMarkupView)
    ensures
        keyboard.document().has_key_only_at("keyboard"@, 0),
        keyboard.document().writes_flag("resize_keyboard"@, keyboard.resize_keyboard),
        keyboard.document().writes_flag("one_time_keyboard"@, keyboard.one_time_keyboard),
        keyboard.document().writes_flag("selective"@, keyboard.selective),
{
    lemma_field_names();
    let document = keyboard.document();
    let after_resize: int = if keyboard.resize_keyboard {
        2
    } else {
        1
    };
    let after_one_time: int = if keyboard.one_time_keyboard {
        after_resize + 1
    } else {
        after_resize
    };
    assert(document.has_key_only_at("keyboard"@, 0));
    if keyboard.resize_keyboard {
        assert(document.has_key_only_at("resize_keyboard"@, 1));
    }
    if keyboard.one_time_keyboard {
        assert(document.has_key_only_at("one_time_keyboard"@, after_resize));
    }
    if keyboard.selective {
        assert(document.has_key_only_at("selective"@, after_one_time));
    }
}

/// An encoded keyboard keeps the order of its rows and of the buttons in
/// each row: the array under `"keyboard"` holds one array for each row, and
/// the array of a row holds the document of each of its buttons, in place.
pub proof fn lemma_reply_keyboard_order(keyboard: ReplyKeyboardMarkupView)
    ensures
        ({
            let grid = keyboard.document().fields()[0].1;
            &&& keyboard.document().fields()[0].0 == "keyboard"@
            &&& grid.items().len() == keyboard.keyboard.len()
            &&& forall|i: int|
                0 <= i < keyboard.keyboard.len() ==> (#[trigger] grid.items()[i]).items().len()
                    == keyboard.keyboard[i].len()
            &&& forall|i: int, j: int|
                0 <= i < keyboard.keyboard.len() && 0 <= j < keyboard.keyboard[i].len()
                    ==> #[trigger] grid.items()[i].items()[j]
                    == keyboard.keyboard[i][j].document()
        }),
{
}

} // verus!
