//! The wire document: a tree of booleans, strings, arrays and objects.

use vstd::prelude::*;

verus! {

/// A wire document.
///
/// An object keeps its fields in the order in which they were written.
#[derive(Debug, PartialEq)]
pub enum Value {
    Bool(bool),
    Str(String),
    Array(Vec<Value>),
    Object(Vec<(String, Value)>),
}

/// The mathematical model of a [`Value`].
pub ghost enum ValueView {
    Bool(bool),
    Str(Seq<char>),
    Array(Seq<ValueView>),
    Object(Seq<(Seq<char>, ValueView)>),
}

impl View for Value {
    type V = ValueView;

    open spec fn view(&self) -> ValueView
        decreases self,
    {
        match self {
            Value::Bool(b) => ValueView::Bool(*b),
            Value::Str(s) => ValueView::Str(s@),
            Value::Array(items) => ValueView::Array(item_views(items@)),
            Value::Object(fields) => ValueView::Object(field_views(fields@)),
        }
    }
}

/// The models of the items of an array, in order.
pub open spec fn item_views(items: Seq<Value>) -> Seq<ValueView>
    decreases items,
{
    if items.len() == 0 {
        Seq::empty()
    } else {
        item_views(items.drop_last()).push(items.last()@)
    }
}

/// The models of the fields of an object, in order.
pub open spec fn field_views(fields: Seq<(String, Value)>) -> Seq<(Seq<char>, ValueView)>
    decreases fields,
{
    if fields.len() == 0 {
        Seq::empty()
    } else {
        field_views(fields.drop_last()).push((fields.last().0@, fields.last().1@))
    }
}

/// `item_views` keeps the length and models each item in its place.
pub proof fn lemma_item_views(items: Seq<Value>)
    ensures
        item_views(items).len() == items.len(),
        forall|k: int| 0 <= k < items.len() ==> item_views(items)[k] == #[trigger] items[k]@,
    decreases items.len(),
{
    if items.len() == 0 {
        assert(item_views(items) =~= Seq::empty());
    } else {
        lemma_item_views(items.drop_last());
        assert(item_views(items) == item_views(items.drop_last()).push(items.last()@));
        assert forall|k: int| 0 <= k < items.len() implies item_views(items)[k]
            == #[trigger] items[k]@ by {
            if k < items.len() - 1 {
                assert(items.drop_last()[k] == items[k]);
            }
        }
    }
}

/// `field_views` keeps the length and models each field in its place.
pub proof fn lemma_field_views(fields: Seq<(String, Value)>)
    ensures
        field_views(fields).len() == fields.len(),
        forall|k: int|
            0 <= k < fields.len() ==> field_views(fields)[k] == (
                (#[trigger] fields[k]).0@,
                fields[k].1@,
            ),
    decreases fields.len(),
{
    if fields.len() == 0 {
        assert(field_views(fields) =~= Seq::empty());
    } else {
        lemma_field_views(fields.drop_last());
        assert(field_views(fields) == field_views(fields.drop_last()).push(
            (fields.last().0@, fields.last().1@),
        ));
        assert forall|k: int| 0 <= k < fields.len() implies field_views(fields)[k] == (
            (#[trigger] fields[k]).0@,
            fields[k].1@,
        ) by {
            if k < fields.len() - 1 {
                assert(fields.drop_last()[k] == fields[k]);
            }
        }
    }
}

impl ValueView {
    /// The fields of an object, in order; none for any other document.
    pub open spec fn fields(self) -> Seq<(Seq<char>, ValueView)> {
        match self {
            ValueView::Object(fields) => fields,
            _ => Seq::empty(),
        }
    }

    /// Whether the document is an object with a field named `key`.
    pub open spec fn has_key(self, key: Seq<char>) -> bool {
        exists|i: int| 0 <= i < self.fields().len() && (#[trigger] self.fields()[i]).0 == key
    }

    /// Whether the document is an object whose field at `i`, and no other,
    /// is named `key`.
    pub open spec fn has_key_only_at(self, key: Seq<char>, i: int) -> bool {
        &&& 0 <= i < self.fields().len()
        &&& self.fields()[i].0 == key
        &&& forall|j: int|
            0 <= j < self.fields().len() && (#[trigger] self.fields()[j]).0 == key ==> j == i
    }

    /// Whether the document is an object that holds the field `key` exactly
    /// once, and there with `value`.
    pub open spec fn has_only(self, key: Seq<char>, value: ValueView) -> bool {
        exists|i: int| #[trigger] self.has_key_only_at(key, i) && self.fields()[i].1 == value
    }

    /// Whether the document is an object that follows the omit-if-false rule
    /// for the flag `name`: with the flag set, the object holds `name` with
    /// the value `true`; with the flag not set, it holds no field `name`.
    pub open spec fn writes_flag(self, name: Seq<char>, on: bool) -> bool {
        if on {
            self.has_only(name, ValueView::Bool(true))
        } else {
            !self.has_key(name)
        }
    }

    /// The items of an array, in order; none for any other document.
    pub open spec fn items(self) -> Seq<ValueView> {
        match self {
            ValueView::Array(items) => items,
            _ => Seq::empty(),
        }
    }
}

/// A boolean field under the omit-if-false rule: written as `true` when the
/// flag is set, left out when it is not.
pub open spec fn flag_field(name: Seq<char>, on: bool) -> Seq<(Seq<char>, ValueView)> {
    if on {
        seq![(name, ValueView::Bool(true))]
    } else {
        Seq::empty()
    }
}

/// A string field under the omit-if-unset rule: written when a value is
/// there, left out when none is.
pub open spec fn optional_field(name: Seq<char>, value: Option<Seq<char>>) -> Seq<
    (Seq<char>, ValueView),
> {
    match value {
        Some(s) => seq![(name, ValueView::Str(s))],
        None => Seq::empty(),
    }
}

/// Pushing a field onto an object pushes its model onto the object's model.
pub proof fn lemma_field_views_push(fields: Seq<(String, Value)>, field: (String, Value))
    ensures
        field_views(fields.push(field)) == field_views(fields).push((field.0@, field.1@)),
{
    assert(fields.push(field).drop_last() =~= fields);
}

/// Pushing an item onto an array pushes its model onto the array's model.
pub proof fn lemma_item_views_push(items: Seq<Value>, item: Value)
    ensures
        item_views(items.push(item)) == item_views(items).push(item@),
{
    assert(items.push(item).drop_last() =~= items);
}

/// Appends the field `name` with the value `value`.
pub(crate) fn push_field(fields: &mut Vec<(String, Value)>, name: &str, value: Value)
    ensures
        field_views(final(fields)@) == field_views(old(fields)@).push((name@, value@)),
{
    let field = (name.to_owned(), value);
    proof {
        lemma_field_views_push(fields@, field);
    }
    fields.push(field);
}

/// Appends the boolean field `name` when `on` is set, and nothing otherwise.
pub(crate) fn push_flag(fields: &mut Vec<(String, Value)>, name: &str, on: bool)
    ensures
        field_views(final(fields)@) == field_views(old(fields)@) + flag_field(name@, on),
{
    if on {
        push_field(fields, name, Value::Bool(true));
    }
}

/// The characters of an optional string.
pub open spec fn optional_text(value: Option<&str>) -> Option<Seq<char>> {
    match value {
        Some(s) => Some(s@),
        None => None,
    }
}

/// Appends the string field `name` when a value is there, and nothing otherwise.
pub(crate) fn push_optional(fields: &mut Vec<(String, Value)>, name: &str, value: Option<&str>)
    ensures
        field_views(final(fields)@) == field_views(old(fields)@) + optional_field(
            name@,
            optional_text(value),
        ),
{
    if let Some(s) = value {
        push_field(fields, name, Value::Str(s.to_owned()));
    }
}

} // verus!
