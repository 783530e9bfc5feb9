//! The JSON text of a wire document.
//!
//! The text is compact: no white space, the items of an array and the
//! fields of an object in the order in which the document holds them.
//! Strings and field names are quoted and escaped by `serde_json`; the
//! framing around them is written here.

use crate::document::{
    field_views, item_views, lemma_field_views, lemma_item_views, Value, ValueView,
};
use vstd::prelude::*;

verus! {

/// The JSON string literal that `serde_json` writes for the characters `s`:
/// the opening quote, the characters with their escapes, and the closing
/// quote.
pub uninterp spec fn json_string(s: Seq<char>) -> Seq<char>;

/// Quotes and escapes `s` as a JSON string literal.
///
/// Trusted: the body calls `serde_json`. `serde_json::Value::from(&str)`
/// makes the JSON string value `Value::String`, and the `Display` form of a
/// `serde_json::Value`, taken here by `to_string`, is its compact JSON text:
/// for a string value, the quoted and escaped string. That text depends on
/// the characters of `s` alone. The contract gives it a name and claims
/// nothing else of it.
#[verifier::external_body]
fn quote(s: &str) -> (text: String)
    ensures
        text@ == json_string(s@),
{
    serde_json::Value::from(s).to_string()
}

/// The parts, with a comma between neighbours.
pub open spec fn comma_separated(parts: Seq<Seq<char>>) -> Seq<char>
    decreases parts.len(),
{
    if parts.len() == 0 {
        Seq::empty()
    } else if parts.len() == 1 {
        parts[0]
    } else {
        comma_separated(parts.drop_last()) + ","@ + parts.last()
    }
}

impl ValueView {
    /// The compact JSON text of the document.
    pub open spec fn json_text(self) -> Seq<char>
        decreases self,
    {
        match self {
            ValueView::Bool(b) => if b {
                "true"@
            } else {
                "false"@
            },
            ValueView::Str(s) => json_string(s),
            ValueView::Array(items) => "["@ + comma_separated(item_texts(items)) + "]"@,
            ValueView::Object(fields) => "{"@ + comma_separated(field_texts(fields)) + "}"@,
        }
    }
}

/// The text of each item of an array, in order.
pub open spec fn item_texts(items: Seq<ValueView>) -> Seq<Seq<char>>
    decreases items,
{
    if items.len() == 0 {
        Seq::empty()
    } else {
        item_texts(items.drop_last()).push(items.last().json_text())
    }
}

/// The text of each field of an object, in order: the quoted name, a colon,
/// the text of the value.
pub open spec fn field_texts(fields: Seq<(Seq<char>, ValueView)>) -> Seq<Seq<char>>
    decreases fields,
{
    if fields.len() == 0 {
        Seq::empty()
    } else {
        field_texts(fields.drop_last()).push(
            json_string(fields.last().0) + ":"@ + fields.last().1.json_text(),
        )
    }
}

/// One more part after a comma-separated run of parts.
proof fn lemma_comma_separated_step(parts: Seq<Seq<char>>, i: int)
    requires
        0 <= i < parts.len(),
    ensures
        comma_separated(parts.take(i + 1)) == if i == 0 {
            parts[i]
        } else {
            comma_separated(parts.take(i)) + ","@ + parts[i]
        },
{
    assert(parts.take(i + 1).drop_last() =~= parts.take(i));
}

/// Writes `opening`, the parts with a comma between neighbours, and `closing`.
fn enclose(opening: &str, parts: &Vec<String>, closing: &str) -> (text: String)
    ensures
        text@ == opening@ + comma_separated(parts.deep_view()) + closing@,
{
    let ghost texts = parts.deep_view();
    let mut text = opening.to_owned();
    let mut i: usize = 0;
    while i < parts.len()
        invariant
            i <= parts.len(),
            texts == parts.deep_view(),
            text@ == opening@ + comma_separated(texts.take(i as int)),
        decreases parts.len() - i,
    {
        if i > 0 {
            text.append(",");
        }
        text.append(parts[i].as_str());
        proof {
            lemma_comma_separated_step(texts, i as int);
        }
        i += 1;
    }
    assert(texts.take(i as int) =~= texts);
    text.append(closing);
    text
}

/// Writes an array from the texts of its items.
pub fn array_text(items: &Vec<String>) -> (text: String)
    ensures
        text@ == "["@ + comma_separated(items.deep_view()) + "]"@,
{
    enclose("[", items, "]")
}

/// Writes an object from the texts of its fields.
pub fn object_text(fields: &Vec<String>) -> (text: String)
    ensures
        text@ == "{"@ + comma_separated(fields.deep_view()) + "}"@,
{
    enclose("{", fields, "}")
}

/// Writes one field of an object from its quoted name and the text of its
/// value.
pub fn field_text(name: &str, value: &str) -> (text: String)
    ensures
        text@ == name@ + ":"@ + value@,
{
    let mut text = name.to_owned();
    text.append(":");
    text.append(value);
    text
}

impl Value {
    /// Writes the document as compact JSON text.
    pub fn to_json(&self) -> (text: String)
        ensures
            text@ == self@.json_text(),
        decreases self,
    {
        match self {
            Value::Bool(b) => {
                if *b {
                    "true".to_owned()
                } else {
                    "false".to_owned()
                }
            },
            Value::Str(s) => quote(s.as_str()),
            Value::Array(items) => {
                let ghost views = item_views(items@);
                proof {
                    lemma_item_views(items@);
                }
                let mut texts: Vec<String> = Vec::new();
                let mut i: usize = 0;
                while i < items.len()
                    invariant
                        i <= items.len(),
                        *self == Value::Array(*items),
                        views.len() == items@.len(),
                        forall|k: int| 0 <= k < items@.len() ==> views[k] == items@[k]@,
                        texts.deep_view() == item_texts(views.take(i as int)),
                    decreases items.len() - i,
                {
                    assert(decreases_to!(self->Array_0 => items@[i as int]));
                    let item = items[i].to_json();
                    let ghost before = texts.deep_view();
                    texts.push(item);
                    proof {
                        assert(views.take(i + 1).drop_last() =~= views.take(i as int));
                        assert(texts.deep_view() =~= before.push(item@));
                    }
                    i += 1;
                }
                assert(views.take(i as int) =~= views);
                array_text(&texts)
            },
            Value::Object(fields) => {
                let ghost views = field_views(fields@);
                proof {
                    lemma_field_views(fields@);
                }
                let mut texts: Vec<String> = Vec::new();
                let mut i: usize = 0;
                while i < fields.len()
                    invariant
                        i <= fields.len(),
                        *self == Value::Object(*fields),
                        views.len() == fields@.len(),
                        forall|k: int|
                            0 <= k < fields@.len() ==> views[k] == (fields@[k].0@, fields@[k].1@),
                        texts.deep_view() == field_texts(views.take(i as int)),
                    decreases fields.len() - i,
                {
                    let name = quote(fields[i].0.as_str());
                    assert(decreases_to!(self->Object_0 => fields@[i as int].1));
                    let value = fields[i].1.to_json();
                    let field = field_text(name.as_str(), value.as_str());
                    let ghost before = texts.deep_view();
                    texts.push(field);
                    proof {
                        assert(views.take(i + 1).drop_last() =~= views.take(i as int));
                        assert(texts.deep_view() =~= before.push(field@));
                    }
                    i += 1;
                }
                assert(views.take(i as int) =~= views);
                object_text(&texts)
            },
        }
    }
}

} // verus!
