//! Reading typed values out of JSON values and writing them back.
//!
//! [`ToJson`] and [`FromJson`] tie a type to its wire form. They are given here
//! for strings, integers, booleans, numbers, JSON values themselves, lists and
//! optional values; the types of the service build on these. [`read`] and
//! [`read_opt`] take one member out of an object; [`ObjectWriter`] builds an
//! object member by member and leaves out the optional members that are absent.

use crate::error::{ErrorModel, TwcError};
use crate::json::{
    lemma_array_view, lemma_lookup_push, values_view, JsonModel, JsonNumber, JsonValue,
};
use crate::text::same_text;
use vstd::prelude::*;
use vstd::string::*;

verus! {

/// A type with a wire form.
pub trait ToJson {
    /// The JSON value that stands for `self` on the wire.
    spec fn wire(&self) -> JsonModel;

    /// Encodes `self`.
    fn to_json(&self) -> (r: JsonValue)
        ensures
            r@ == self.wire(),
    ;
}

/// A type that can be read from its wire form.
pub trait FromJson: Sized {
    /// Whether `v` stands for a value of this type.
    spec fn decodable(v: JsonModel) -> bool;

    /// Whether `self` is the value that `v` stands for.
    spec fn decoded_from(&self, v: JsonModel) -> bool;

    /// Decodes `v`: the value it stands for where it stands for one, else a
    /// decoding failure.
    fn from_json(v: &JsonValue) -> (r: Result<Self, TwcError>)
        ensures
            match r {
                Ok(x) => Self::decodable(v@) && x.decoded_from(v@),
                Err(e) => !Self::decodable(v@) && e@ is Json,
            },
    ;
}

/// The failure reported where a value has another shape than the expected `what`.
pub open spec fn shape_failure(what: Seq<char>) -> ErrorModel {
    ErrorModel::Json("expected "@ + what)
}

/// The failure reported for an object without the member `key`.
pub open spec fn missing_failure(key: Seq<char>) -> ErrorModel {
    ErrorModel::Json("missing member: "@ + key)
}

/// Builds the failure for a value that is not `what`.
pub fn shape_error(what: &str) -> (e: TwcError)
    ensures
        e@ == shape_failure(what@),
{
    let mut text = String::from_str("expected ");
    text.append(what);
    TwcError::Json(text)
}

/// Builds the failure for an object without the member `key`.
pub fn missing_error(key: &str) -> (e: TwcError)
    ensures
        e@ == missing_failure(key@),
{
    let mut text = String::from_str("missing member: ");
    text.append(key);
    TwcError::Json(text)
}

impl ToJson for String {
    open spec fn wire(&self) -> JsonModel {
        JsonModel::String(self@)
    }

    fn to_json(&self) -> (r: JsonValue) {
        JsonValue::String(self.clone())
    }
}

impl FromJson for String {
    open spec fn decodable(v: JsonModel) -> bool {
        v is String
    }

    open spec fn decoded_from(&self, v: JsonModel) -> bool {
        v == JsonModel::String(self@)
    }

    fn from_json(v: &JsonValue) -> (r: Result<String, TwcError>) {
        match v {
            JsonValue::String(s) => Ok(s.clone()),
            _ => Err(shape_error("a string")),
        }
    }
}

impl ToJson for bool {
    open spec fn wire(&self) -> JsonModel {
        JsonModel::Bool(*self)
    }

    fn to_json(&self) -> (r: JsonValue) {
        JsonValue::Bool(*self)
    }
}

impl FromJson for bool {
    open spec fn decodable(v: JsonModel) -> bool {
        v is Bool
    }

    open spec fn decoded_from(&self, v: JsonModel) -> bool {
        v == JsonModel::Bool(*self)
    }

    fn from_json(v: &JsonValue) -> (r: Result<bool, TwcError>) {
        match v {
            JsonValue::Bool(b) => Ok(*b),
            _ => Err(shape_error("a boolean")),
        }
    }
}

/// The integer that `v` holds, where it is a number written without fraction
/// or exponent.
pub open spec fn integer_of(v: JsonModel) -> Option<int> {
    match v {
        JsonModel::Number(JsonNumber::Unsigned(u)) => Some(u as int),
        JsonModel::Number(JsonNumber::Signed(i)) => Some(i as int),
        _ => None,
    }
}

impl ToJson for u32 {
    open spec fn wire(&self) -> JsonModel {
        JsonModel::Number(JsonNumber::Unsigned(*self as u64))
    }

    fn to_json(&self) -> (r: JsonValue) {
        JsonValue::Number(JsonNumber::Unsigned(*self as u64))
    }
}

impl FromJson for u32 {
    open spec fn decodable(v: JsonModel) -> bool {
        integer_of(v) matches Some(i) && 0 <= i <= u32::MAX
    }

    open spec fn decoded_from(&self, v: JsonModel) -> bool {
        integer_of(v) == Some(*self as int)
    }

    fn from_json(v: &JsonValue) -> (r: Result<u32, TwcError>) {
        match v {
            JsonValue::Number(JsonNumber::Unsigned(u)) => {
                if *u <= 0xffff_ffff {
                    Ok(*u as u32)
                } else {
                    Err(shape_error("an unsigned 32-bit integer"))
                }
            },
            JsonValue::Number(JsonNumber::Signed(i)) => {
                if 0 <= *i && *i <= 0xffff_ffff {
                    Ok(*i as u32)
                } else {
                    Err(shape_error("an unsigned 32-bit integer"))
                }
            },
            _ => Err(shape_error("an unsigned 32-bit integer")),
        }
    }
}

impl ToJson for i64 {
    open spec fn wire(&self) -> JsonModel {
        if *self >= 0 {
            JsonModel::Number(JsonNumber::Unsigned(*self as u64))
        } else {
            JsonModel::Number(JsonNumber::Signed(*self))
        }
    }

    fn to_json(&self) -> (r: JsonValue) {
        if *self >= 0 {
            JsonValue::Number(JsonNumber::Unsigned(*self as u64))
        } else {
            JsonValue::Number(JsonNumber::Signed(*self))
        }
    }
}

impl FromJson for i64 {
    open spec fn decodable(v: JsonModel) -> bool {
        integer_of(v) matches Some(i) && i64::MIN <= i <= i64::MAX
    }

    open spec fn decoded_from(&self, v: JsonModel) -> bool {
        integer_of(v) == Some(*self as int)
    }

    fn from_json(v: &JsonValue) -> (r: Result<i64, TwcError>) {
        match v {
            JsonValue::Number(JsonNumber::Unsigned(u)) => {
                if *u <= 0x7fff_ffff_ffff_ffff {
                    Ok(*u as i64)
                } else {
                    Err(shape_error("a signed 64-bit integer"))
                }
            },
            JsonValue::Number(JsonNumber::Signed(i)) => Ok(*i),
            _ => Err(shape_error("a signed 64-bit integer")),
        }
    }
}

impl ToJson for JsonNumber {
    open spec fn wire(&self) -> JsonModel {
        JsonModel::Number(*self)
    }

    fn to_json(&self) -> (r: JsonValue) {
        JsonValue::Number(*self)
    }
}

impl FromJson for JsonNumber {
    open spec fn decodable(v: JsonModel) -> bool {
        v is Number
    }

    open spec fn decoded_from(&self, v: JsonModel) -> bool {
        v == JsonModel::Number(*self)
    }

    fn from_json(v: &JsonValue) -> (r: Result<JsonNumber, TwcError>) {
        match v {
            JsonValue::Number(n) => Ok(*n),
            _ => Err(shape_error("a number")),
        }
    }
}

impl ToJson for JsonValue {
    open spec fn wire(&self) -> JsonModel {
        self@
    }

    fn to_json(&self) -> (r: JsonValue) {
        self.clone()
    }
}

impl FromJson for JsonValue {
    open spec fn decodable(v: JsonModel) -> bool {
        true
    }

    open spec fn decoded_from(&self, v: JsonModel) -> bool {
        self@ == v
    }

    fn from_json(v: &JsonValue) -> (r: Result<JsonValue, TwcError>) {
        Ok(v.clone())
    }
}

/// The wire forms of `items`, in order.
pub open spec fn wire_all<T: ToJson>(items: Seq<T>) -> Seq<JsonModel> {
    Seq::new(items.len(), |i: int| items[i].wire())
}

impl<T: ToJson> ToJson for Vec<T> {
    open spec fn wire(&self) -> JsonModel {
        JsonModel::Array(wire_all(self@))
    }

    fn to_json(&self) -> (r: JsonValue) {
        let mut out: Vec<JsonValue> = Vec::new();
        let mut i: usize = 0;
        while i < self.len()
            invariant
                i <= self.len(),
                out.len() == i,
                forall|j: int| 0 <= j < i ==> out[j]@ == self[j].wire(),
            decreases self.len() - i,
        {
            out.push(self[i].to_json());
            i += 1;
        }
        let r = JsonValue::Array(out);
        assert(r@->Array_0 =~= wire_all(self@));
        r
    }
}

/// Whether every item of `a` stands for a value of type `T`.
pub open spec fn all_decodable<T: FromJson>(a: Seq<JsonModel>) -> bool {
    forall|i: int| 0 <= i < a.len() ==> T::decodable(#[trigger] a[i])
}

/// Whether each of `items` is the value that the item of `a` at its place stands for.
pub open spec fn all_decoded_from<T: FromJson>(items: Seq<T>, a: Seq<JsonModel>) -> bool {
    &&& items.len() == a.len()
    &&& forall|i: int| 0 <= i < a.len() ==> (#[trigger] items[i]).decoded_from(a[i])
}

impl<T: FromJson> FromJson for Vec<T> {
    open spec fn decodable(v: JsonModel) -> bool {
        v matches JsonModel::Array(a) && all_decodable::<T>(a)
    }

    open spec fn decoded_from(&self, v: JsonModel) -> bool {
        v matches JsonModel::Array(a) && all_decoded_from(self@, a)
    }

    /// Decodes the items in order; the first that does not decode fails the whole.
    fn from_json(v: &JsonValue) -> (r: Result<Vec<T>, TwcError>) {
        match v {
            JsonValue::Array(items) => {
                proof {
                    lemma_array_view(*items);
                }
                let ghost a = values_view(items@);
                let mut out: Vec<T> = Vec::new();
                let mut i: usize = 0;
                while i < items.len()
                    invariant
                        i <= items.len(),
                        out.len() == i,
                        a == values_view(items@),
                        v@ == JsonModel::Array(a),
                        forall|j: int| 0 <= j < i ==> T::decodable(#[trigger] a[j]),
                        forall|j: int| 0 <= j < i ==> (#[trigger] out[j]).decoded_from(a[j]),
                    decreases items.len() - i,
                {
                    match T::from_json(&items[i]) {
                        Ok(x) => {
                            out.push(x);
                        },
                        Err(e) => {
                            assert(!T::decodable(a[i as int]));
                            return Err(e);
                        },
                    }
                    i += 1;
                }
                Ok(out)
            },
            _ => Err(shape_error("an array")),
        }
    }
}

impl<T: ToJson> ToJson for Option<T> {
    /// An absent value is written as null.
    open spec fn wire(&self) -> JsonModel {
        match self {
            Some(x) => x.wire(),
            None => JsonModel::Null,
        }
    }

    fn to_json(&self) -> (r: JsonValue) {
        match self {
            Some(x) => x.to_json(),
            None => JsonValue::Null,
        }
    }
}

impl<T: FromJson> FromJson for Option<T> {
    open spec fn decodable(v: JsonModel) -> bool {
        v is Null || T::decodable(v)
    }

    /// Null stands for the absent value, everything else for a present one.
    open spec fn decoded_from(&self, v: JsonModel) -> bool {
        match self {
            Some(x) => !(v is Null) && x.decoded_from(v),
            None => v is Null,
        }
    }

    fn from_json(v: &JsonValue) -> (r: Result<Option<T>, TwcError>) {
        match v {
            JsonValue::Null => Ok(None),
            _ => match T::from_json(v) {
                Ok(x) => Ok(Some(x)),
                Err(e) => Err(e),
            },
        }
    }
}

/// Whether `v` has a member `key` that stands for a value of type `T`.
pub open spec fn member_ok<T: FromJson>(v: JsonModel, key: &str) -> bool {
    v.get(key@) matches Some(m) && T::decodable(m)
}

/// Whether `x` is the value that the member `key` of `v` stands for.
pub open spec fn member_is<T: FromJson>(x: T, v: JsonModel, key: &str) -> bool {
    v.get(key@) matches Some(m) && x.decoded_from(m)
}

/// Whether the member `key` of `v` is absent, null or stands for a value of type `T`.
pub open spec fn optional_ok<T: FromJson>(v: JsonModel, key: &str) -> bool {
    match v.get(key@) {
        Some(m) => Option::<T>::decodable(m),
        None => true,
    }
}

/// Whether `x` is what the optional member `key` of `v` stands for: nothing
/// where the member is absent or null, else the value it holds.
pub open spec fn optional_is<T: FromJson>(x: Option<T>, v: JsonModel, key: &str) -> bool {
    match v.get(key@) {
        Some(m) => x.decoded_from(m),
        None => x is None,
    }
}

/// Reads the member `key`, which must be present.
pub fn read<T: FromJson>(v: &JsonValue, key: &str) -> (r: Result<T, TwcError>)
    ensures
        match r {
            Ok(x) => member_ok::<T>(v@, key) && member_is(x, v@, key),
            Err(e) => !member_ok::<T>(v@, key) && e@ is Json,
        },
{
    match v.get(key) {
        Some(m) => T::from_json(m),
        None => Err(missing_error(key)),
    }
}

/// Reads the member `key`, which may be absent or null.
pub fn read_opt<T: FromJson>(v: &JsonValue, key: &str) -> (r: Result<Option<T>, TwcError>)
    ensures
        match r {
            Ok(x) => optional_ok::<T>(v@, key) && optional_is(x, v@, key),
            Err(e) => !optional_ok::<T>(v@, key) && e@ is Json,
        },
{
    match v.get(key) {
        Some(m) => Option::<T>::from_json(m),
        None => Ok(None),
    }
}

/// The entry of a member that is always written.
pub open spec fn field<T: ToJson>(key: &str, value: T) -> (Seq<char>, Option<JsonModel>) {
    (key@, Some(value.wire()))
}

/// The entry of a member that is written only where it holds a value.
pub open spec fn optional<T: ToJson>(key: &str, value: Option<T>) -> (
    Seq<char>,
    Option<JsonModel>,
) {
    (
        key@,
        match value {
            Some(x) => Some(x.wire()),
            None => None,
        },
    )
}

/// The entry of the discriminant: the member `type` with the string `value`.
pub open spec fn tag(value: &str) -> (Seq<char>, Option<JsonModel>) {
    ("type"@, Some(JsonModel::String(value@)))
}

/// Whether the member `type` of `v` is the string `value`.
pub open spec fn tagged(v: JsonModel, value: &str) -> bool {
    v.get("type"@) == Some(JsonModel::String(value@))
}

/// Checks the discriminant of `v` against `value`.
pub fn check_tag(v: &JsonValue, value: &str) -> (r: Result<(), TwcError>)
    ensures
        match r {
            Ok(_) => tagged(v@, value),
            Err(e) => !tagged(v@, value) && e@ is Json,
        },
{
    match v.get("type") {
        Some(JsonValue::String(found)) => {
            if same_text(found, value) {
                Ok(())
            } else {
                Err(shape_error(value))
            }
        },
        _ => Err(missing_error("type")),
    }
}

/// The members of an object whose entries are `entries`: those that hold a
/// value, in the order of the entries.
pub open spec fn present(entries: Seq<(Seq<char>, Option<JsonModel>)>) -> Seq<
    (Seq<char>, JsonModel),
>
    decreases entries.len(),
{
    if entries.len() == 0 {
        Seq::empty()
    } else {
        let rest = present(entries.drop_last());
        match entries.last().1 {
            Some(v) => rest.push((entries.last().0, v)),
            None => rest,
        }
    }
}

/// The object with the entries that hold a value.
pub open spec fn object(entries: Seq<(Seq<char>, Option<JsonModel>)>) -> JsonModel {
    JsonModel::Object(present(entries))
}

/// The members after one more entry: the entry is appended where it holds a
/// value and left out where it holds none.
pub proof fn lemma_present_push(
    entries: Seq<(Seq<char>, Option<JsonModel>)>,
    entry: (Seq<char>, Option<JsonModel>),
)
    ensures
        present(entries.push(entry)) == match entry.1 {
            Some(v) => present(entries).push((entry.0, v)),
            None => present(entries),
        },
{
    assert(entries.push(entry).drop_last() =~= entries);
}

/// An object without entries has no member.
pub proof fn lemma_object_get_empty(key: Seq<char>)
    ensures
        object(Seq::empty()).get(key) is None,
{
}

/// Looking a key up in an object after one more entry: an earlier member with
/// that key wins, else the new entry answers if it has the key.
pub proof fn lemma_object_get_push(
    entries: Seq<(Seq<char>, Option<JsonModel>)>,
    entry: (Seq<char>, Option<JsonModel>),
    key: Seq<char>,
)
    ensures
        object(entries.push(entry)).get(key) == match object(entries).get(key) {
            Some(v) => Some(v),
            None => if entry.0 == key {
                entry.1
            } else {
                None
            },
        },
{
    lemma_present_push(entries, entry);
    match entry.1 {
        Some(v) => {
            lemma_lookup_push(present(entries), (entry.0, v), key);
        },
        None => {},
    }
}

/// The members of an object with two entries under different keys.
pub proof fn lemma_object_get_two(
    first: (Seq<char>, Option<JsonModel>),
    second: (Seq<char>, Option<JsonModel>),
    key: Seq<char>,
)
    requires
        first.0 != second.0,
    ensures
        object(Seq::empty().push(first).push(second)).get(key) == if key == first.0 {
            first.1
        } else if key == second.0 {
            second.1
        } else {
            None
        },
{
    let none = Seq::<(Seq<char>, Option<JsonModel>)>::empty();
    lemma_object_get_empty(key);
    lemma_object_get_push(none, first, key);
    lemma_object_get_push(none.push(first), second, key);
}

/// The view of an optional JSON value.
pub open spec fn opt_view(value: Option<JsonValue>) -> Option<JsonModel> {
    match value {
        Some(v) => Some(v@),
        None => None,
    }
}

/// Builds a JSON object member by member.
pub struct ObjectWriter {
    members: Vec<(String, JsonValue)>,
    entries: Ghost<Seq<(Seq<char>, Option<JsonModel>)>>,
}

impl ObjectWriter {
    /// The entries handed to the writer so far, absent ones included.
    pub closed spec fn entries(&self) -> Seq<(Seq<char>, Option<JsonModel>)> {
        self.entries@
    }

    /// The members written so far are the entries that hold a value.
    #[verifier::type_invariant]
    closed spec fn consistent(&self) -> bool {
        JsonValue::Object(self.members)@ == object(self.entries@)
    }

    /// A writer without entries.
    pub fn new() -> (w: ObjectWriter)
        ensures
            w.entries() == Seq::<(Seq<char>, Option<JsonModel>)>::empty(),
    {
        let members: Vec<(String, JsonValue)> = Vec::new();
        assert(JsonValue::Object(members)@->Object_0 =~= present(Seq::empty()));
        ObjectWriter { members, entries: Ghost(Seq::empty()) }
    }

    fn push(self, key: &str, value: Option<JsonValue>) -> (w: ObjectWriter)
        ensures
            w.entries() == self.entries().push((key@, opt_view(value))),
    {
        proof {
            use_type_invariant(&self);
        }
        let ghost entry = (key@, opt_view(value));
        let ghost after = self.entries@.push(entry);
        assert(after.drop_last() =~= self.entries@);
        let mut members = self.members;
        let ghost old_members = members;
        match value {
            Some(v) => {
                members.push((String::from_str(key), v));
                assert(JsonValue::Object(members)@->Object_0 =~= JsonValue::Object(
                    old_members,
                )@->Object_0.push((key@, v@)));
            },
            None => {},
        }
        ObjectWriter { members, entries: Ghost(after) }
    }

    /// Adds the member `key` with the wire form of `value`.
    pub fn put<T: ToJson>(self, key: &str, value: &T) -> (w: ObjectWriter)
        ensures
            w.entries() == self.entries().push(field(key, *value)),
    {
        self.push(key, Some(value.to_json()))
    }

    /// Adds the member `key` where `value` holds one; an absent value leaves
    /// the object as it was.
    pub fn put_opt<T: ToJson>(self, key: &str, value: &Option<T>) -> (w: ObjectWriter)
        ensures
            w.entries() == self.entries().push(optional(key, *value)),
    {
        match value {
            Some(x) => self.push(key, Some(x.to_json())),
            None => self.push(key, None),
        }
    }

    /// Adds the discriminant: the member `type` with the string `value`.
    pub fn put_tag(self, value: &str) -> (w: ObjectWriter)
        ensures
            w.entries() == self.entries().push(tag(value)),
    {
        self.push("type", Some(JsonValue::String(String::from_str(value))))
    }

    /// The object with the entries that hold a value.
    pub fn finish(self) -> (r: JsonValue)
        ensures
            r@ == object(self.entries()),
    {
        proof {
            use_type_invariant(&self);
        }
        JsonValue::Object(self.members)
    }
}

} // verus!
