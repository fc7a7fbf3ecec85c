//! JSON values: what the bodies of requests and replies are made of.
//!
//! The client neither parses nor prints JSON text. It works on values: a
//! request body is built as a [`JsonValue`], and a reply is decoded from one.
//! An object is an ordered list of members; a key is looked up from the front.

use vstd::prelude::*;
use vstd::string::*;

verus! {

/// A JSON number, kept in the form in which it was written.
#[derive(Clone, Copy, Debug, PartialEq, Eq)]
pub enum JsonNumber {
    /// A non-negative integer.
    Unsigned(u64),
    /// A negative integer.
    Signed(i64),
    /// A number with a fraction or an exponent, as the bits of a 64-bit IEEE 754 value.
    Real(u64),
}

/// A JSON value.
#[derive(Debug, PartialEq)]
pub enum JsonValue {
    /// `null`.
    Null,
    /// `true` or `false`.
    Bool(bool),
    /// A number.
    Number(JsonNumber),
    /// A string.
    String(String),
    /// An array: its items, in order.
    Array(Vec<JsonValue>),
    /// An object: its members, in the order in which they are written.
    Object(Vec<(String, JsonValue)>),
}

/// The mathematical value of a [`JsonValue`]: strings as sequences of
/// characters, arrays and objects as sequences.
pub enum JsonModel {
    Null,
    Bool(bool),
    Number(JsonNumber),
    String(Seq<char>),
    Array(Seq<JsonModel>),
    Object(Seq<(Seq<char>, JsonModel)>),
}

impl JsonValue {
    /// The mathematical value of `self`, item by item and member by member.
    pub open spec fn model(&self) -> JsonModel
        decreases self,
    {
        match self {
            JsonValue::Null => JsonModel::Null,
            JsonValue::Bool(b) => JsonModel::Bool(*b),
            JsonValue::Number(n) => JsonModel::Number(*n),
            JsonValue::String(s) => JsonModel::String(s@),
            JsonValue::Array(items) => JsonModel::Array(
                Seq::new(
                    items.len() as nat,
                    |i: int|
                        if 0 <= i < items.len() {
                            items[i].model()
                        } else {
                            JsonModel::Null
                        },
                ),
            ),
            JsonValue::Object(members) => JsonModel::Object(
                Seq::new(
                    members.len() as nat,
                    |i: int|
                        if 0 <= i < members.len() {
                            (members[i].0@, members[i].1.model())
                        } else {
                            (Seq::empty(), JsonModel::Null)
                        },
                ),
            ),
        }
    }
}

impl View for JsonValue {
    type V = JsonModel;

    open spec fn view(&self) -> JsonModel {
        self.model()
    }
}

/// The value of the first member of `members` with the key `key`.
pub open spec fn lookup(members: Seq<(Seq<char>, JsonModel)>, key: Seq<char>) -> Option<JsonModel>
    decreases members.len(),
{
    if members.len() == 0 {
        None
    } else if members[0].0 == key {
        Some(members[0].1)
    } else {
        lookup(members.drop_first(), key)
    }
}

impl JsonModel {
    /// The member `key` of an object: the first with that key. Everything but
    /// an object has no member.
    pub open spec fn get(self, key: Seq<char>) -> Option<JsonModel> {
        match self {
            JsonModel::Object(members) => lookup(members, key),
            _ => None,
        }
    }
}

impl Clone for JsonValue {
    /// A copy with the same value.
    fn clone(&self) -> (r: JsonValue)
        ensures
            r@ == self@,
        decreases self,
    {
        match self {
            JsonValue::Null => JsonValue::Null,
            JsonValue::Bool(b) => JsonValue::Bool(*b),
            JsonValue::Number(n) => JsonValue::Number(*n),
            JsonValue::String(s) => JsonValue::String(s.clone()),
            JsonValue::Array(items) => {
                let mut out: Vec<JsonValue> = Vec::new();
                let mut i: usize = 0;
                while i < items.len()
                    invariant
                        forall|j: int|
                            0 <= j < items.len() ==> decreases_to!(self => #[trigger] items[j]),
                        i <= items.len(),
                        out.len() == i,
                        forall|j: int| 0 <= j < i ==> out[j]@ == items[j]@,
                    decreases items.len() - i,
                {
                    let item = items[i].clone();
                    out.push(item);
                    i += 1;
                }
                let r = JsonValue::Array(out);
                assert(r@->Array_0 =~= self@->Array_0);
                r
            },
            JsonValue::Object(members) => {
                let mut out: Vec<(String, JsonValue)> = Vec::new();
                let mut i: usize = 0;
                while i < members.len()
                    invariant
                        forall|j: int|
                            0 <= j < members.len() ==> decreases_to!(
                                self => (#[trigger] members[j]).1,
                            ),
                        i <= members.len(),
                        out.len() == i,
                        forall|j: int|
                            0 <= j < i ==> out[j].0@ == members[j].0@ && out[j].1@
                                == members[j].1@,
                    decreases members.len() - i,
                {
                    let key = members[i].0.clone();
                    let value = members[i].1.clone();
                    out.push((key, value));
                    i += 1;
                }
                let r = JsonValue::Object(out);
                assert(r@->Object_0 =~= self@->Object_0);
                r
            },
        }
    }
}

impl JsonValue {
    /// The member `key` of an object: the first with that key. Everything but
    /// an object has no member.
    pub fn get(&self, key: &str) -> (r: Option<&JsonValue>)
        ensures
            match r {
                Some(v) => self@.get(key@) == Some(v@),
                None => self@.get(key@) is None,
            },
    {
        match self {
            JsonValue::Object(members) => {
                let wanted = String::from_str(key);
                let ghost model = self@->Object_0;
                let mut i: usize = 0;
                assert(model.subrange(0, model.len() as int) =~= model);
                while i < members.len()
                    invariant
                        i <= members.len(),
                        wanted@ == key@,
                        self@ == JsonModel::Object(model),
                        model.len() == members.len(),
                        forall|j: int|
                            0 <= j < members.len() ==> model[j] == (members[j].0@, members[j].1@),
                        lookup(model, key@) == lookup(
                            model.subrange(i as int, model.len() as int),
                            key@,
                        ),
                    decreases members.len() - i,
                {
                    let ghost rest = model.subrange(i as int, model.len() as int);
                    assert(rest[0] == model[i as int]);
                    assert(rest.drop_first() =~= model.subrange(i + 1, model.len() as int));
                    if members[i].0 == wanted {
                        return Some(&members[i].1);
                    }
                    i += 1;
                }
                None
            },
            _ => None,
        }
    }
}

/// Looking a key up after one more member was appended: an earlier member
/// with that key wins, else the new member is found if it has the key.
pub proof fn lemma_lookup_push(
    members: Seq<(Seq<char>, JsonModel)>,
    member: (Seq<char>, JsonModel),
    key: Seq<char>,
)
    ensures
        lookup(members.push(member), key) == match lookup(members, key) {
            Some(v) => Some(v),
            None => if member.0 == key {
                Some(member.1)
            } else {
                None
            },
        },
    decreases members.len(),
{
    let all = members.push(member);
    if members.len() == 0 {
        assert(all.drop_first() =~= members);
    } else {
        assert(all[0] == members[0]);
        assert(all.drop_first() =~= members.drop_first().push(member));
        if members[0].0 != key {
            lemma_lookup_push(members.drop_first(), member, key);
        }
    }
}

/// The values of `items` as models, in order.
pub open spec fn values_view(items: Seq<JsonValue>) -> Seq<JsonModel> {
    Seq::new(items.len(), |i: int| items[i]@)
}

/// An array is viewed item by item.
pub proof fn lemma_array_view(items: Vec<JsonValue>)
    ensures
        JsonValue::Array(items)@ == JsonModel::Array(values_view(items@)),
{
    assert(JsonValue::Array(items)@->Array_0 =~= values_view(items@));
}

} // verus!
