//! A plain JSON document tree, the lookups the decoders perform on it, and
//! the parser that produces it.

use crate::text::chars_of;
use vstd::prelude::*;

verus! {

/// A JSON document as a tree of plain values.
#[derive(Debug)]
pub enum Json {
    /// `null`.
    Null,
    /// `true` or `false`.
    Bool(bool),
    /// A number, kept as its decimal text.
    Number(String),
    /// A string.
    Text(String),
    /// An array, in document order.
    Array(Vec<Json>),
    /// An object: its members as pairs of key and value.
    Object(Vec<(String, Json)>),
}

/// The mathematical value of a [`Json`] tree.
pub enum JsonValue {
    /// `null`.
    Null,
    /// `true` or `false`.
    Bool(bool),
    /// A number, as its decimal text.
    Number(Seq<char>),
    /// A string.
    Text(Seq<char>),
    /// An array.
    Array(Seq<JsonValue>),
    /// An object: its members as pairs of key and value.
    Object(Seq<(Seq<char>, JsonValue)>),
}

impl View for Json {
    type V = JsonValue;

    open spec fn view(&self) -> JsonValue
        decreases self,
    {
        match self {
            Json::Null => JsonValue::Null,
            Json::Bool(b) => JsonValue::Bool(*b),
            Json::Number(n) => JsonValue::Number(n@),
            Json::Text(s) => JsonValue::Text(s@),
            Json::Array(items) => JsonValue::Array(items_view(items@)),
            Json::Object(members) => JsonValue::Object(members_view(members@)),
        }
    }
}

/// The values of the elements of an array, in order.
pub open spec fn items_view(items: Seq<Json>) -> Seq<JsonValue>
    decreases items,
{
    if items.len() == 0 {
        Seq::empty()
    } else {
        items_view(items.drop_last()).push(items.last()@)
    }
}

/// The keys and values of the members of an object, in order.
pub open spec fn members_view(members: Seq<(String, Json)>) -> Seq<(Seq<char>, JsonValue)>
    decreases members,
{
    if members.len() == 0 {
        Seq::empty()
    } else {
        members_view(members.drop_last()).push((members.last().0@, members.last().1@))
    }
}

/// [`items_view`] keeps the length and views each element in place.
pub proof fn lemma_items_view(items: Seq<Json>)
    ensures
        items_view(items).len() == items.len(),
        forall|k: int| 0 <= k < items.len() ==> #[trigger] items_view(items)[k] == items[k]@,
    decreases items.len(),
{
    reveal_with_fuel(items_view, 2);
    if items.len() > 0 {
        lemma_items_view(items.drop_last());
        assert(items_view(items) == items_view(items.drop_last()).push(items.last()@));
    } else {
        assert(items_view(items) == Seq::<JsonValue>::empty());
    }
}

/// [`members_view`] keeps the length and views each member in place.
pub proof fn lemma_members_view(members: Seq<(String, Json)>)
    ensures
        members_view(members).len() == members.len(),
        forall|k: int|
            0 <= k < members.len() ==> #[trigger] members_view(members)[k] == (
                members[k].0@,
                members[k].1@,
            ),
    decreases members.len(),
{
    reveal_with_fuel(members_view, 2);
    if members.len() > 0 {
        lemma_members_view(members.drop_last());
        assert(members_view(members) == members_view(members.drop_last()).push(
            (members.last().0@, members.last().1@),
        ));
    } else {
        assert(members_view(members) == Seq::<(Seq<char>, JsonValue)>::empty());
    }
}

/// The value of the first member named `key` among `members[from..]`.
pub open spec fn lookup(members: Seq<(Seq<char>, JsonValue)>, key: Seq<char>, from: int) -> Option<
    JsonValue,
>
    decreases members.len() - from,
{
    if from < 0 || from >= members.len() {
        None
    } else if members[from].0 == key {
        Some(members[from].1)
    } else {
        lookup(members, key, from + 1)
    }
}

impl JsonValue {
    /// The member named `key`, where the value is an object that has one.
    pub open spec fn member(self, key: Seq<char>) -> Option<JsonValue> {
        match self {
            JsonValue::Object(members) => lookup(members, key, 0),
            _ => None,
        }
    }

    /// The first element, where the value is an array that is not empty.
    pub open spec fn first(self) -> Option<JsonValue> {
        match self {
            JsonValue::Array(items) => if items.len() > 0 {
                Some(items[0])
            } else {
                None
            },
            _ => None,
        }
    }

    /// The text, where the value is a string.
    pub open spec fn text(self) -> Option<Seq<char>> {
        match self {
            JsonValue::Text(s) => Some(s),
            _ => None,
        }
    }

    /// The elements, where the value is an array.
    pub open spec fn items(self) -> Option<Seq<JsonValue>> {
        match self {
            JsonValue::Array(items) => Some(items),
            _ => None,
        }
    }

    /// The number, where the value is a whole number that is not negative
    /// and fits in 64 bits.
    pub open spec fn unsigned(self) -> Option<u64> {
        match self {
            JsonValue::Number(text) => unsigned_of(text),
            _ => None,
        }
    }
}

/// Whether `c` is a decimal digit.
pub open spec fn is_digit(c: char) -> bool {
    48 <= c as u32 <= 57
}

/// Whether `s` holds nothing but decimal digits.
pub open spec fn all_digits(s: Seq<char>) -> bool {
    forall|i: int| 0 <= i < s.len() ==> is_digit(#[trigger] s[i])
}

/// The number that the decimal numeral `s` denotes.
pub open spec fn decimal_value(s: Seq<char>) -> nat
    decreases s.len(),
{
    if s.len() == 0 {
        0
    } else {
        decimal_value(s.drop_last()) * 10 + (s.last() as u32 - 48) as nat
    }
}

/// The number that the text of a JSON number denotes, where it is a whole
/// number that is not negative and fits in 64 bits: such a text holds
/// nothing but digits.
pub open spec fn unsigned_of(text: Seq<char>) -> Option<u64> {
    if text.len() > 0 && all_digits(text) && decimal_value(text) <= u64::MAX {
        Some(decimal_value(text) as u64)
    } else {
        None
    }
}

/// A numeral denotes no less than any of its beginnings.
pub proof fn lemma_decimal_value_grows(s: Seq<char>, n: int)
    requires
        all_digits(s),
        0 <= n <= s.len(),
    ensures
        decimal_value(s.take(n)) <= decimal_value(s),
    decreases s.len() - n,
{
    if n == s.len() {
        assert(s.take(n) =~= s);
    } else {
        lemma_decimal_value_grows(s, n + 1);
        assert(s.take(n + 1).drop_last() =~= s.take(n));
        assert(is_digit(s[n]));
        assert(s.take(n + 1).last() == s[n]);
    }
}

/// [`JsonValue::member`] of a value that may be absent.
pub open spec fn member_of(v: Option<JsonValue>, key: Seq<char>) -> Option<JsonValue> {
    match v {
        Some(j) => j.member(key),
        None => None,
    }
}

/// [`JsonValue::first`] of a value that may be absent.
pub open spec fn first_of(v: Option<JsonValue>) -> Option<JsonValue> {
    match v {
        Some(j) => j.first(),
        None => None,
    }
}

/// [`JsonValue::text`] of a value that may be absent.
pub open spec fn text_of(v: Option<JsonValue>) -> Option<Seq<char>> {
    match v {
        Some(j) => j.text(),
        None => None,
    }
}

/// The mathematical value behind an optional reference into a tree.
pub open spec fn value_of(r: Option<&Json>) -> Option<JsonValue> {
    match r {
        Some(j) => Some(j@),
        None => None,
    }
}

/// The character sequence behind an optional string slice.
pub open spec fn chars_of_opt(r: Option<&str>) -> Option<Seq<char>> {
    match r {
        Some(s) => Some(s@),
        None => None,
    }
}

impl Json {
    /// The member named `key`, where the value is an object that has one.
    pub fn get(&self, key: &str) -> (r: Option<&Json>)
        ensures
            value_of(r) == self@.member(key@),
    {
        match self {
            Json::Object(members) => {
                let ghost ms = self@->Object_0;
                proof {
                    lemma_members_view(members@);
                }
                let mut i: usize = 0;
                while i < members.len()
                    invariant
                        i <= members.len(),
                        self@ == JsonValue::Object(ms),
                        ms.len() == members@.len(),
                        forall|k: int|
                            0 <= k < ms.len() ==> #[trigger] ms[k] == (
                                members@[k].0@,
                                members@[k].1@,
                            ),
                        lookup(ms, key@, 0) == lookup(ms, key@, i as int),
                    decreases members.len() - i,
                {
                    if members[i].0.as_str().eq(key) {
                        return Some(&members[i].1);
                    }
                    i += 1;
                }
                None
            },
            _ => None,
        }
    }

    /// The first element, where the value is an array that is not empty.
    pub fn first(&self) -> (r: Option<&Json>)
        ensures
            value_of(r) == self@.first(),
    {
        match self {
            Json::Array(items) => {
                proof {
                    lemma_items_view(items@);
                }
                if items.len() > 0 {
                    Some(&items[0])
                } else {
                    None
                }
            },
            _ => None,
        }
    }

    /// The text, where the value is a string.
    pub fn as_str(&self) -> (r: Option<&str>)
        ensures
            chars_of_opt(r) == self@.text(),
    {
        match self {
            Json::Text(s) => Some(s.as_str()),
            _ => None,
        }
    }

    /// The elements, where the value is an array.
    pub fn as_array(&self) -> (r: Option<&Vec<Json>>)
        ensures
            match r {
                Some(items) => self@.items() == Some(items_view(items@)),
                None => self@.items() is None,
            },
    {
        match self {
            Json::Array(items) => Some(items),
            _ => None,
        }
    }

    /// Whether the value is an object.
    pub fn is_object(&self) -> (r: bool)
        ensures
            r == (self@ is Object),
    {
        match self {
            Json::Object(_) => true,
            _ => false,
        }
    }

    /// The number, where the value is a whole number that is not negative
    /// and fits in 64 bits.
    pub fn as_u64(&self) -> (r: Option<u64>)
        ensures
            r == self@.unsigned(),
    {
        match self {
            Json::Number(text) => {
                let v = chars_of(text.as_str());
                if v.len() == 0 {
                    return None;
                }
                let mut value: u64 = 0;
                let mut i: usize = 0;
                while i < v.len()
                    invariant
                        i <= v.len(),
                        v@.len() > 0,
                        self@ == JsonValue::Number(v@),
                        all_digits(v@.take(i as int)),
                        value == decimal_value(v@.take(i as int)),
                    decreases v.len() - i,
                {
                    let code = v[i] as u32;
                    if code < 48 || code > 57 {
                        assert(!is_digit(v@[i as int]));
                        return None;
                    }
                    let digit = (code - 48) as u64;
                    proof {
                        assert(v@.take(i + 1).drop_last() =~= v@.take(i as int));
                        assert(v@.take(i + 1).last() == v@[i as int]);
                        assert forall|k: int| 0 <= k < i + 1 implies is_digit(
                            #[trigger] v@.take(i + 1)[k],
                        ) by {
                            if k < i {
                                assert(v@.take(i + 1)[k] == v@.take(i as int)[k]);
                            }
                        }
                    }
                    if value > (u64::MAX - digit) / 10 {
                        proof {
                            if all_digits(v@) {
                                lemma_decimal_value_grows(v@, i + 1);
                            }
                        }
                        return None;
                    }
                    value = value * 10 + digit;
                    i += 1;
                }
                proof {
                    assert(v@.take(i as int) =~= v@);
                }
                Some(value)
            },
            _ => None,
        }
    }
}

/// [`Json::get`] of a value that may be absent.
pub fn get_in<'a>(v: Option<&'a Json>, key: &str) -> (r: Option<&'a Json>)
    ensures
        value_of(r) == member_of(value_of(v), key@),
{
    match v {
        Some(j) => j.get(key),
        None => None,
    }
}

/// [`Json::first`] of a value that may be absent.
pub fn first_in<'a>(v: Option<&'a Json>) -> (r: Option<&'a Json>)
    ensures
        value_of(r) == first_of(value_of(v)),
{
    match v {
        Some(j) => j.first(),
        None => None,
    }
}

/// [`Json::as_str`] of a value that may be absent.
pub fn str_in<'a>(v: Option<&'a Json>) -> (r: Option<&'a str>)
    ensures
        chars_of_opt(r) == text_of(value_of(v)),
{
    match v {
        Some(j) => j.as_str(),
        None => None,
    }
}

/// `serde_json::Value`: what the parser hands back, taken as it is and
/// copied into a [`Json`] tree at once.
#[verifier::external_type_specification]
#[verifier::external_body]
pub struct ExValue(serde_json::Value);

/// What parsing a text as JSON gives: the document that the text denotes,
/// or what the parser says of a text that denotes none.
pub uninterp spec fn json_parse(text: Seq<char>) -> Result<JsonValue, Seq<char>>;

/// The tree that a parsed value holds.
pub uninterp spec fn json_tree(value: serde_json::Value) -> JsonValue;

/// The document that a text denotes, where it is well-formed JSON.
pub open spec fn json_document(text: Seq<char>) -> Option<JsonValue> {
    match json_parse(text) {
        Ok(doc) => Some(doc),
        Err(_) => None,
    }
}

/// What the parser says of a text that denotes no document.
pub open spec fn json_complaint(text: Seq<char>) -> Seq<char> {
    match json_parse(text) {
        Ok(_) => Seq::empty(),
        Err(complaint) => complaint,
    }
}

/// `serde_json::from_str::<serde_json::Value>`: succeeds exactly on the texts
/// that denote a document, and then holds that document. A failure carries
/// the message that the parser's error displays.
#[verifier::external_body]
fn value_from_str(text: &str) -> (r: Result<serde_json::Value, String>)
    ensures
        match r {
            Ok(value) => json_parse(text@) == Ok::<JsonValue, Seq<char>>(json_tree(value)),
            Err(complaint) => json_parse(text@) == Err::<JsonValue, Seq<char>>(complaint@),
        },
{
    serde_json::from_str::<serde_json::Value>(text).map_err(|e| e.to_string())
}

/// Copies a parsed `serde_json::Value` into a [`Json`] tree, variant by
/// variant: a number as the text that `serde_json::Number` displays, the
/// members of an object in the order in which its map hands them out.
#[verifier::external_body]
fn json_from_value(value: &serde_json::Value) -> (r: Json)
    ensures
        r@ == json_tree(*value),
{
    match value {
        serde_json::Value::Null => Json::Null,
        serde_json::Value::Bool(b) => Json::Bool(*b),
        serde_json::Value::Number(n) => Json::Number(n.to_string()),
        serde_json::Value::String(s) => Json::Text(s.clone()),
        serde_json::Value::Array(a) => Json::Array(a.iter().map(json_from_value).collect()),
        serde_json::Value::Object(o) => Json::Object(
            o.iter().map(|(k, v)| (k.clone(), json_from_value(v))).collect(),
        ),
    }
}

/// Parses a text as one JSON document; a text that is none gives the
/// parser's complaint.
pub fn parse_json(text: &str) -> (r: Result<Json, String>)
    ensures
        r is Ok <==> json_document(text@) is Some,
        r matches Ok(j) ==> json_document(text@) == Some(j@),
        r matches Err(m) ==> m@ == json_complaint(text@),
{
    match value_from_str(text) {
        Ok(v) => Ok(json_from_value(&v)),
        Err(complaint) => Err(complaint),
    }
}

} // verus!
