//! JSON values, as far as schemas need them.

use crate::text::same_text;
use vstd::prelude::*;

verus! {

/// A JSON value.
#[derive(Debug, PartialEq, Eq)]
pub enum JsonValue {
    Null,
    Bool(bool),
    /// A number that is an integer of at most 64 bits.
    Number(i64),
    /// Any other number.
    OtherNumber,
    String(String),
    Array(Vec<JsonValue>),
    /// An object: its members, in the order in which they were written.
    Object(Vec<Member>),
}

/// A member of a JSON object.
#[derive(Debug, PartialEq, Eq)]
pub struct Member {
    pub key: String,
    pub value: JsonValue,
}

/// The mathematical value of a [`JsonValue`].
pub enum JsonModel {
    Null,
    Bool(bool),
    Number(i64),
    OtherNumber,
    String(Seq<char>),
    Array(Seq<JsonModel>),
    Object(Seq<MemberModel>),
}

/// The mathematical value of a [`Member`].
pub struct MemberModel {
    pub key: Seq<char>,
    pub value: JsonModel,
}

/// The value of `value`.
pub open spec fn value_model(value: JsonValue) -> JsonModel
    decreases value,
{
    match value {
        JsonValue::Null => JsonModel::Null,
        JsonValue::Bool(b) => JsonModel::Bool(b),
        JsonValue::Number(n) => JsonModel::Number(n),
        JsonValue::OtherNumber => JsonModel::OtherNumber,
        JsonValue::String(s) => JsonModel::String(s@),
        JsonValue::Array(items) => JsonModel::Array(
            Seq::new(
                items@.len(),
                |i: int|
                    if 0 <= i < items@.len() {
                        value_model(items@[i])
                    } else {
                        arbitrary()
                    },
            ),
        ),
        JsonValue::Object(members) => JsonModel::Object(
            Seq::new(
                members@.len(),
                |i: int|
                    if 0 <= i < members@.len() {
                        member_model(members@[i])
                    } else {
                        arbitrary()
                    },
            ),
        ),
    }
}

/// The value of `member`.
pub open spec fn member_model(member: Member) -> MemberModel
    decreases member,
{
    MemberModel { key: member.key@, value: value_model(member.value) }
}

impl View for JsonValue {
    type V = JsonModel;

    open spec fn view(&self) -> JsonModel {
        value_model(*self)
    }
}

impl View for Member {
    type V = MemberModel;

    open spec fn view(&self) -> MemberModel {
        member_model(*self)
    }
}

/// The value of the first of `members` at or after `from` whose key is
/// `key`, if there is one.
pub open spec fn member_from(members: Seq<MemberModel>, key: Seq<char>, from: int) -> Option<
    JsonModel,
>
    decreases members.len() - from,
{
    if 0 <= from < members.len() {
        if members[from].key == key {
            Some(members[from].value)
        } else {
            member_from(members, key, from + 1)
        }
    } else {
        None
    }
}

/// The value that an object with the members `members` has for `key`: that
/// of the first member with that key, if there is one.
pub open spec fn member(members: Seq<MemberModel>, key: Seq<char>) -> Option<JsonModel> {
    member_from(members, key, 0)
}

/// The values of the members `members`, in order.
pub open spec fn members_model(members: Seq<Member>) -> Seq<MemberModel> {
    Seq::new(members.len(), |i: int| members[i]@)
}

/// The values of the items `items`, in order.
pub open spec fn items_model(items: Seq<JsonValue>) -> Seq<JsonModel> {
    Seq::new(items.len(), |i: int| items[i]@)
}

/// The value of an object is made of the values of its members, and that
/// of an array of the values of its items.
pub proof fn lemma_value_of_parts(value: JsonValue)
    ensures
        value is Object ==> value@ == JsonModel::Object(members_model(value->Object_0@)),
        value is Array ==> value@ == JsonModel::Array(items_model(value->Array_0@)),
{
    if value is Object {
        assert(value@->Object_0 =~= members_model(value->Object_0@));
    }
    if value is Array {
        assert(value@->Array_0 =~= items_model(value->Array_0@));
    }
}

/// A key that is found is the key of a member.
pub proof fn lemma_member_found(members: Seq<MemberModel>, key: Seq<char>, from: int) -> (at: int)
    requires
        0 <= from,
        member_from(members, key, from) is Some,
    ensures
        from <= at < members.len(),
        members[at].key == key,
        member_from(members, key, from) == Some(members[at].value),
    decreases members.len() - from,
{
    if members[from].key == key {
        from
    } else {
        lemma_member_found(members, key, from + 1)
    }
}

/// The value that an object with the members `members` has for `key`.
pub fn find_member<'a>(members: &'a [Member], key: &str) -> (found: Option<&'a JsonValue>)
    ensures
        (match found {
            Some(value) => member(members_model(members@), key@) == Some(value@) && exists|i: int|
                0 <= i < members@.len() && (#[trigger] members@[i]).value == *value,
            None => member(members_model(members@), key@) is None,
        }),
{
    let ghost model = members_model(members@);
    let mut i: usize = 0;
    while i < members.len()
        invariant
            i <= members.len(),
            model == members_model(members@),
            member(model, key@) == member_from(model, key@, i as int),
        decreases members.len() - i,
    {
        if same_text(members[i].key.as_str(), key) {
            return Some(&members[i].value);
        }
        i += 1;
    }
    None
}

} // verus!
