//! The tree as which a document is handed over to be written out as JSON:
//! the library lays the document out, the writing is done outside it.

use crate::scalar::Scalar;
use vstd::prelude::*;
use vstd::string::*;

verus! {

/// A node of a JSON document.
#[derive(Debug, PartialEq, Eq)]
pub enum JsonValue {
    Bool(bool),
    Number(Scalar),
    Text(String),
    /// An object: its members in the order in which they are written.
    Object(Vec<JsonMember>),
}

/// A member of a JSON object.
#[derive(Debug, PartialEq, Eq)]
pub struct JsonMember {
    pub name: String,
    pub value: JsonValue,
}

/// The members of an object, in their order; none for a node of another
/// kind.
pub open spec fn members_of(value: JsonValue) -> Seq<JsonMember> {
    match value {
        JsonValue::Object(members) => members@,
        _ => Seq::empty(),
    }
}

/// The member is the truth value `flag` under `name`.
pub open spec fn is_bool_member(member: JsonMember, name: Seq<char>, flag: bool) -> bool {
    member.name@ == name && member.value == JsonValue::Bool(flag)
}

/// The member is the number `x` under `name`.
pub open spec fn is_number_member(member: JsonMember, name: Seq<char>, x: Scalar) -> bool {
    member.name@ == name && member.value == JsonValue::Number(x)
}

/// The member is the text `text` under `name`.
pub open spec fn is_text_member(member: JsonMember, name: Seq<char>, text: Seq<char>) -> bool {
    &&& member.name@ == name
    &&& member.value matches JsonValue::Text(held)
    &&& held@ == text
}

/// The node is an object of numbers: one member for each entry, in the
/// order of the entries, each the entry's number under the entry's name.
pub open spec fn is_numbers_object(value: JsonValue, entries: Seq<(Seq<char>, Scalar)>) -> bool {
    &&& value is Object
    &&& members_of(value).len() == entries.len()
    &&& forall|i: int|
        0 <= i < entries.len() ==> is_number_member(
            #[trigger] members_of(value)[i],
            entries[i].0,
            entries[i].1,
        )
}

/// The truth value `flag` under `name`.
pub fn bool_member(name: &str, flag: bool) -> (member: JsonMember)
    ensures
        is_bool_member(member, name@, flag),
{
    JsonMember { name: String::from_str(name), value: JsonValue::Bool(flag) }
}

/// The number `x` under `name`.
pub fn number_member(name: &str, x: Scalar) -> (member: JsonMember)
    ensures
        is_number_member(member, name@, x),
{
    JsonMember { name: String::from_str(name), value: JsonValue::Number(x) }
}

/// The text `text` under `name`.
pub fn text_member(name: &str, text: &str) -> (member: JsonMember)
    ensures
        is_text_member(member, name@, text@),
{
    JsonMember { name: String::from_str(name), value: JsonValue::Text(String::from_str(text)) }
}

/// The object of the given members under `name`.
pub fn object_member(name: &str, members: Vec<JsonMember>) -> (member: JsonMember)
    ensures
        member.name@ == name@,
        member.value == JsonValue::Object(members),
{
    JsonMember { name: String::from_str(name), value: JsonValue::Object(members) }
}

} // verus!
