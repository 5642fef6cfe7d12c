//! The JSON documents that request bodies are made of.

use vstd::prelude::*;

verus! {

/// A JSON document of the kinds that occur in a request body.
#[derive(Debug, PartialEq, Eq)]
pub enum JsonValue {
    /// `true` or `false`.
    Bool(bool),
    /// A whole number.
    Integer(u64),
    /// A single-precision number, held by its IEEE 754 encoding.
    Single(u32),
    /// A string.
    Text(String),
    /// An array, with its items in order.
    Array(Vec<JsonValue>),
    /// An object, with its members in the order in which they are written.
    Object(Vec<(String, JsonValue)>),
}

/// A JSON document as a mathematical value.
pub enum JsonDoc {
    Bool(bool),
    Integer(u64),
    Single(u32),
    Text(Seq<char>),
    Array(Seq<JsonDoc>),
    Object(Seq<(Seq<char>, JsonDoc)>),
}

impl JsonValue {
    /// The document that the value holds.
    pub open spec fn doc(self) -> JsonDoc
        decreases self,
    {
        match self {
            JsonValue::Bool(b) => JsonDoc::Bool(b),
            JsonValue::Integer(n) => JsonDoc::Integer(n),
            JsonValue::Single(bits) => JsonDoc::Single(bits),
            JsonValue::Text(s) => JsonDoc::Text(s@),
            JsonValue::Array(items) => JsonDoc::Array(
                Seq::new(
                    items@.len(),
                    |i: int|
                        if 0 <= i < items@.len() {
                            items@[i].doc()
                        } else {
                            JsonDoc::Bool(false)
                        },
                ),
            ),
            JsonValue::Object(members) => JsonDoc::Object(
                Seq::new(
                    members@.len(),
                    |i: int|
                        if 0 <= i < members@.len() {
                            (members@[i].0@, members@[i].1.doc())
                        } else {
                            (Seq::empty(), JsonDoc::Bool(false))
                        },
                ),
            ),
        }
    }
}

impl View for JsonValue {
    type V = JsonDoc;

    open spec fn view(&self) -> JsonDoc {
        self.doc()
    }
}

/// The items of an array, seen as mathematical values.
pub open spec fn items_view(items: Seq<JsonValue>) -> Seq<JsonDoc> {
    Seq::new(items.len(), |i: int| items[i]@)
}

/// The members of an object, seen as mathematical values.
pub open spec fn members_view(members: Seq<(String, JsonValue)>) -> Seq<(Seq<char>, JsonDoc)> {
    Seq::new(members.len(), |i: int| (members[i].0@, members[i].1@))
}

/// An array holds the documents of its items, in order.
pub proof fn lemma_array_view(items: Vec<JsonValue>)
    ensures
        JsonValue::Array(items)@ == JsonDoc::Array(items_view(items@)),
{
    assert(JsonValue::Array(items)@->Array_0 =~= items_view(items@));
}

/// An object holds its members' names and documents, in order.
pub proof fn lemma_object_view(members: Vec<(String, JsonValue)>)
    ensures
        JsonValue::Object(members)@ == JsonDoc::Object(members_view(members@)),
{
    assert(JsonValue::Object(members)@->Object_0 =~= members_view(members@));
}

impl JsonDoc {
    /// Whether the document is an object with a member of this name.
    pub open spec fn has_member(self, name: Seq<char>) -> bool {
        self matches JsonDoc::Object(members) && exists|i: int|
            0 <= i < members.len() && (#[trigger] members[i]).0 == name
    }
}

} // verus!
