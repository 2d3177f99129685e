//! JSON documents as plain values.
//!
//! Reading JSON text is left to `serde_json`. What it reads is moved into
//! [`Json`], a tree of ordinary Rust values whose mathematical model is
//! [`JsonValue`]; everything else in this crate works on that tree and is
//! stated over that model.

use crate::text::same_text;
use serde_json::Value;
use vstd::prelude::*;

verus! {

/// The model of a JSON number.
pub enum NumberValue {
    Unsigned(u64),
    Negative(i64),
    Fraction(Seq<char>),
}

/// The model of one entry of a JSON object.
pub struct MemberValue {
    pub key: Seq<char>,
    pub value: JsonValue,
}

/// The model of a JSON document.
pub enum JsonValue {
    Null,
    Bool(bool),
    Number(NumberValue),
    Text(Seq<char>),
    Array(Seq<JsonValue>),
    Object(Seq<MemberValue>),
}

/// A JSON number.
#[derive(Debug)]
pub enum Number {
    /// A whole number that is not negative.
    Unsigned(u64),
    /// A whole number that was written with a minus sign.
    Negative(i64),
    /// Any other number, as decimal text.
    Fraction(String),
}

/// One `"key": value` entry of a JSON object.
#[derive(Debug)]
pub struct Member {
    pub key: String,
    pub value: Json,
}

/// A JSON document.
#[derive(Debug)]
pub enum Json {
    Null,
    Bool(bool),
    Number(Number),
    Text(String),
    Array(Vec<Json>),
    Object(Vec<Member>),
}

impl View for Number {
    type V = NumberValue;

    open spec fn view(&self) -> NumberValue {
        match self {
            Number::Unsigned(u) => NumberValue::Unsigned(*u),
            Number::Negative(i) => NumberValue::Negative(*i),
            Number::Fraction(s) => NumberValue::Fraction(s@),
        }
    }
}

impl View for Member {
    type V = MemberValue;

    open spec fn view(&self) -> MemberValue {
        MemberValue { key: self.key@, value: self.value@ }
    }
}

/// The model of a document: each part stands for itself, text by its
/// characters and arrays and objects by the models of what they hold.
pub open spec fn json_model(doc: Json) -> JsonValue
    decreases doc,
{
    match doc {
        Json::Null => JsonValue::Null,
        Json::Bool(b) => JsonValue::Bool(b),
        Json::Number(n) => JsonValue::Number(n@),
        Json::Text(s) => JsonValue::Text(s@),
        Json::Array(items) => JsonValue::Array(
            Seq::new(
                items@.len(),
                |i: int|
                    if 0 <= i < items@.len() {
                        json_model(items@[i])
                    } else {
                        JsonValue::Null
                    },
            ),
        ),
        Json::Object(members) => JsonValue::Object(
            Seq::new(
                members@.len(),
                |i: int|
                    if 0 <= i < members@.len() {
                        MemberValue {
                            key: members@[i].key@,
                            value: json_model(members@[i].value),
                        }
                    } else {
                        MemberValue { key: Seq::empty(), value: JsonValue::Null }
                    },
            ),
        ),
    }
}

impl View for Json {
    type V = JsonValue;

    open spec fn view(&self) -> JsonValue {
        json_model(*self)
    }
}

/// The models of a run of documents, in order.
pub open spec fn items_view(items: Seq<Json>) -> Seq<JsonValue> {
    Seq::new(items.len(), |i: int| items[i]@)
}

/// The models of a run of object entries, in order.
pub open spec fn members_view(members: Seq<Member>) -> Seq<MemberValue> {
    Seq::new(members.len(), |i: int| members[i]@)
}

/// An array's model holds the models of its items.
pub proof fn lemma_array_view(doc: Json)
    requires
        doc is Array,
    ensures
        doc@ == JsonValue::Array(items_view(doc->Array_0@)),
{
    assert(doc@->Array_0 =~= items_view(doc->Array_0@));
}

/// An object's model holds the models of its entries.
pub proof fn lemma_object_view(doc: Json)
    requires
        doc is Object,
    ensures
        doc@ == JsonValue::Object(members_view(doc->Object_0@)),
{
    assert(doc@->Object_0 =~= members_view(doc->Object_0@));
}

/// The value of the first entry of `members` whose key is `name`.
pub open spec fn lookup(members: Seq<MemberValue>, name: Seq<char>) -> Option<JsonValue>
    decreases members.len(),
{
    if members.len() == 0 {
        None
    } else if members[0].key == name {
        Some(members[0].value)
    } else {
        lookup(members.drop_first(), name)
    }
}

/// Whether some entry of `members` has the key `name`.
pub open spec fn has_key(members: Seq<MemberValue>, name: Seq<char>) -> bool {
    exists|i: int| 0 <= i < members.len() && #[trigger] members[i].key == name
}

/// A key is looked up with success exactly when some entry carries it.
pub proof fn lemma_lookup_has_key(members: Seq<MemberValue>, name: Seq<char>)
    ensures
        lookup(members, name) is Some <==> has_key(members, name),
    decreases members.len(),
{
    if members.len() == 0 {
    } else if members[0].key == name {
    } else {
        let rest = members.drop_first();
        lemma_lookup_has_key(rest, name);
        if has_key(rest, name) {
            let i = choose|i: int| 0 <= i < rest.len() && #[trigger] rest[i].key == name;
            assert(members[i + 1].key == name);
        }
        if has_key(members, name) {
            let i = choose|i: int| 0 <= i < members.len() && #[trigger] members[i].key == name;
            assert(rest[i - 1].key == name);
        }
    }
}

impl Number {
    /// A second number with the same value.
    pub fn copy(&self) -> (r: Number)
        ensures
            r@ == self@,
    {
        match self {
            Number::Unsigned(u) => Number::Unsigned(*u),
            Number::Negative(i) => Number::Negative(*i),
            Number::Fraction(s) => Number::Fraction(s.clone()),
        }
    }
}

impl Clone for Number {
    fn clone(&self) -> (r: Number)
        ensures
            r@ == self@,
    {
        self.copy()
    }
}

impl Member {
    /// A second entry with the same key and an equal value.
    pub fn copy(&self) -> (r: Member)
        ensures
            r@ == self@,
    {
        Member { key: self.key.clone(), value: self.value.copy() }
    }
}

impl Clone for Member {
    fn clone(&self) -> (r: Member)
        ensures
            r@ == self@,
    {
        self.copy()
    }
}

/// A second run of entries, equal to `members` one by one.
pub fn copy_members(members: &Vec<Member>) -> (r: Vec<Member>)
    ensures
        members_view(r@) == members_view(members@),
{
    let mut out: Vec<Member> = Vec::new();
    let mut i: usize = 0;
    while i < members.len()
        invariant
            i <= members.len(),
            out@.len() == i,
            forall|k: int| 0 <= k < i ==> out@[k]@ == members@[k]@,
        decreases members.len() - i,
    {
        out.push(members[i].copy());
        i += 1;
    }
    assert(members_view(out@) =~= members_view(members@));
    out
}

impl Json {
    /// A second document with the same model.
    #[verifier::loop_isolation(false)]
    pub fn copy(&self) -> (r: Json)
        ensures
            r@ == self@,
        decreases self,
    {
        match self {
            Json::Null => Json::Null,
            Json::Bool(b) => Json::Bool(*b),
            Json::Number(n) => Json::Number(n.copy()),
            Json::Text(s) => Json::Text(s.clone()),
            Json::Array(items) => {
                let mut out: Vec<Json> = Vec::new();
                let mut i: usize = 0;
                while i < items.len()
                    invariant
                        i <= items.len(),
                        out@.len() == i,
                        forall|k: int| 0 <= k < i ==> out@[k]@ == items@[k]@,
                    decreases items.len() - i,
                {
                    out.push(items[i].copy());
                    i += 1;
                }
                let r = Json::Array(out);
                assert(r@->Array_0 =~= self@->Array_0);
                r
            },
            Json::Object(members) => {
                let mut out: Vec<Member> = Vec::new();
                let mut i: usize = 0;
                while i < members.len()
                    invariant
                        i <= members.len(),
                        out@.len() == i,
                        forall|k: int|
                            0 <= k < i ==> out@[k].key@ == members@[k].key@ && out@[k].value@
                                == members@[k].value@,
                    decreases members.len() - i,
                {
                    let member = &members[i];
                    out.push(Member { key: member.key.clone(), value: member.value.copy() });
                    i += 1;
                }
                let r = Json::Object(out);
                assert(r@->Object_0 =~= self@->Object_0);
                r
            },
        }
    }
}

impl Clone for Json {
    fn clone(&self) -> (r: Json)
        ensures
            r@ == self@,
    {
        self.copy()
    }
}

/// Whether no two entries of `members` have the same key.
pub open spec fn distinct_keys(members: Seq<MemberValue>) -> bool {
    forall|i: int, j: int|
        0 <= i < j < members.len() ==> (#[trigger] members[i]).key != (#[trigger] members[j]).key
}

/// Whether two objects hold the same entries, in whatever order.
pub open spec fn same_entries(a: Seq<MemberValue>, b: Seq<MemberValue>) -> bool {
    forall|entry: MemberValue| a.contains(entry) <==> b.contains(entry)
}

/// Where no key stands twice, a key leads to a value exactly if the object
/// holds the entry of that key and value.
pub proof fn lemma_lookup_entry(members: Seq<MemberValue>, name: Seq<char>, value: JsonValue)
    requires
        distinct_keys(members),
    ensures
        lookup(members, name) == Some(value) <==> members.contains(
            MemberValue { key: name, value },
        ),
    decreases members.len(),
{
    let entry = MemberValue { key: name, value };
    if members.len() == 0 {
    } else {
        let rest = members.drop_first();
        assert(distinct_keys(rest)) by {
            assert forall|i: int, j: int| 0 <= i < j < rest.len() implies (#[trigger] rest[i]).key
                != (#[trigger] rest[j]).key by {
                assert(rest[i] == members[i + 1] && rest[j] == members[j + 1]);
            }
        }
        lemma_lookup_entry(rest, name, value);
        if rest.contains(entry) {
            let i = choose|i: int| 0 <= i < rest.len() && rest[i] == entry;
            assert(members[i + 1] == entry);
            assert(members[0].key != members[i + 1].key);
        }
        if members.contains(entry) {
            let i = choose|i: int| 0 <= i < members.len() && members[i] == entry;
            if i > 0 {
                assert(rest[i - 1] == entry);
                assert(members[0].key != members[i].key);
            }
        }
        if members[0].key == name && members[0].value == value {
            assert(members[0] == entry);
        }
    }
}

/// Two objects that hold the same entries, each key once, give the same
/// value for every key: the order of the entries does not count.
pub proof fn lemma_lookup_ignores_order(
    a: Seq<MemberValue>,
    b: Seq<MemberValue>,
    name: Seq<char>,
)
    requires
        distinct_keys(a),
        distinct_keys(b),
        same_entries(a, b),
    ensures
        lookup(a, name) == lookup(b, name),
{
    match lookup(a, name) {
        Some(value) => {
            lemma_lookup_entry(a, name, value);
            lemma_lookup_entry(b, name, value);
        },
        None => {
            match lookup(b, name) {
                Some(value) => {
                    lemma_lookup_entry(a, name, value);
                    lemma_lookup_entry(b, name, value);
                },
                None => {},
            }
        },
    }
}

/// The value stored under `name` in `members`: that of the first entry with
/// this key.
pub fn find<'a>(members: &'a Vec<Member>, name: &str) -> (r: Option<&'a Json>)
    ensures
        match r {
            Some(value) => lookup(members_view(members@), name@) == Some(value@),
            None => lookup(members_view(members@), name@) is None,
        },
{
    let ghost all = members_view(members@);
    assert(all.skip(0) =~= all);
    let mut i: usize = 0;
    while i < members.len()
        invariant
            i <= members.len(),
            all == members_view(members@),
            lookup(all, name@) == lookup(all.skip(i as int), name@),
        decreases members.len() - i,
    {
        proof {
            assert(all.skip(i as int).drop_first() =~= all.skip(i + 1));
        }
        if same_text(members[i].key.as_str(), name) {
            return Some(&members[i].value);
        }
        i += 1;
    }
    None
}

// ---------------------------------------------------------------------------
// Reading JSON text
// ---------------------------------------------------------------------------
/// Trusted: `serde_json::Value`, the tree that `serde_json` reads JSON into.
/// Verus does not look into it; [`value_model`] names what it holds.
#[verifier::external_type_specification]
#[verifier::external_body]
pub struct ExJsonValue(Value);

/// Trusted: `serde_json::Error`, which says why a text is not JSON. Verus
/// does not look into it.
#[verifier::external_type_specification]
#[verifier::external_body]
pub struct ExJsonError(serde_json::Error);

/// The document that a text denotes, or `None` where the text is not one
/// JSON value.
pub uninterp spec fn json_document(text: Seq<char>) -> Option<JsonValue>;

/// What a `serde_json::Value` holds: a number by its kind and value, an
/// array by its items in order, an object by its entries in the order in
/// which its map hands them out.
pub uninterp spec fn value_model(value: Value) -> JsonValue;

/// Trusted: `serde_json::from_str` reads `text` as one JSON value or refuses
/// it, and which of the two, and the value read, depend on the text alone.
#[verifier::external_body]
fn read_document(text: &str) -> (r: Result<Value, serde_json::Error>)
    ensures
        match r {
            Ok(value) => json_document(text@) == Some(value_model(value)),
            Err(_) => json_document(text@) is None,
        },
{
    serde_json::from_str::<Value>(text)
}

/// Trusted: `Value::is_null` holds of `null` alone.
#[verifier::external_body]
fn value_is_null(value: &Value) -> (r: bool)
    ensures
        r == (value_model(*value) is Null),
{
    value.is_null()
}

/// Trusted: `Value::as_bool` gives the boolean that a value is, and `None`
/// for every other value.
#[verifier::external_body]
fn value_as_flag(value: &Value) -> (r: Option<bool>)
    ensures
        match r {
            Some(b) => value_model(*value) == JsonValue::Bool(b),
            None => !(value_model(*value) is Bool),
        },
{
    value.as_bool()
}

/// Trusted: `Value::as_str` gives the text that a value is, and `None` for
/// every other value.
#[verifier::external_body]
fn value_as_text(value: &Value) -> (r: Option<&str>)
    ensures
        match r {
            Some(s) => value_model(*value) == JsonValue::Text(s@),
            None => !(value_model(*value) is Text),
        },
{
    value.as_str()
}

/// Trusted: `Value::as_number` gives the number that a value is, and `None`
/// for every other value. Of a number, `as_u64` gives every whole number
/// from zero up that fits 64 bits, `as_i64` every whole number that fits 64
/// bits with a sign, and `to_string` the decimal text of any.
#[verifier::external_body]
fn value_as_number(value: &Value) -> (r: Option<Number>)
    ensures
        match r {
            Some(n) => value_model(*value) == JsonValue::Number(n@),
            None => !(value_model(*value) is Number),
        },
{
    match value.as_number() {
        Some(n) => Some(
            match (n.as_u64(), n.as_i64()) {
                (Some(u), _) => Number::Unsigned(u),
                (None, Some(i)) => Number::Negative(i),
                (None, None) => Number::Fraction(n.to_string()),
            },
        ),
        None => None,
    }
}

/// Trusted: `Value::as_array` gives the items of an array in order, and
/// `None` for every other value.
#[verifier::external_body]
fn value_as_items(value: &Value) -> (r: Option<&Vec<Value>>)
    ensures
        match r {
            Some(items) => {
                &&& value_model(*value) is Array
                &&& value_model(*value)->Array_0.len() == items@.len()
                &&& forall|i: int|
                    0 <= i < items@.len() ==> value_model(#[trigger] items@[i]) == value_model(
                        *value,
                    )->Array_0[i]
            },
            None => !(value_model(*value) is Array),
        },
{
    value.as_array()
}

/// Trusted: `Value::as_object` gives the map of an object, and `None` for
/// every other value; `Map::iter` hands out the map's entries, each key
/// with its value.
#[verifier::external_body]
fn value_as_entries(value: &Value) -> (r: Option<Vec<(&String, &Value)>>)
    ensures
        match r {
            Some(entries) => {
                &&& value_model(*value) is Object
                &&& value_model(*value)->Object_0.len() == entries@.len()
                &&& forall|i: int|
                    0 <= i < entries@.len() ==> (#[trigger] entries@[i]).0@ == value_model(
                        *value,
                    )->Object_0[i].key && value_model(*entries@[i].1) == value_model(
                        *value,
                    )->Object_0[i].value
            },
            None => !(value_model(*value) is Object),
        },
{
    match value.as_object() {
        Some(map) => Some(map.iter().collect()),
        None => None,
    }
}

/// Moves what `serde_json` read into a [`Json`].
#[verifier::loop_isolation(false)]
fn json_of_value(value: &Value) -> (r: Json)
    ensures
        r@ == value_model(*value),
    decreases value_model(*value),
{
    if value_is_null(value) {
        return Json::Null;
    }
    if let Some(b) = value_as_flag(value) {
        return Json::Bool(b);
    }
    if let Some(n) = value_as_number(value) {
        return Json::Number(n);
    }
    if let Some(s) = value_as_text(value) {
        return Json::Text(String::from_str(s));
    }
    if let Some(items) = value_as_items(value) {
        let mut out: Vec<Json> = Vec::new();
        let mut i: usize = 0;
        while i < items.len()
            invariant
                i <= items.len(),
                out@.len() == i,
                forall|k: int| 0 <= k < i ==> out@[k]@ == value_model(items@[k]),
            decreases items.len() - i,
        {
            out.push(json_of_value(&items[i]));
            i += 1;
        }
        let r = Json::Array(out);
        assert(r@->Array_0 =~= value_model(*value)->Array_0);
        return r;
    }
    match value_as_entries(value) {
        Some(entries) => {
            let mut out: Vec<Member> = Vec::new();
            let mut i: usize = 0;
            while i < entries.len()
                invariant
                    i <= entries.len(),
                    out@.len() == i,
                    forall|k: int|
                        0 <= k < i ==> out@[k].key@ == entries@[k].0@ && out@[k].value@
                            == value_model(*entries@[k].1),
                decreases entries.len() - i,
            {
                let key = entries[i].0.clone();
                let member = Member { key, value: json_of_value(entries[i].1) };
                out.push(member);
                i += 1;
            }
            let r = Json::Object(out);
            assert(r@->Object_0 =~= value_model(*value)->Object_0);
            r
        },
        None => Json::Null,
    }
}

/// Reads `text` as one JSON document.
pub fn parse_json(text: &str) -> (r: Option<Json>)
    ensures
        match r {
            Some(doc) => json_document(text@) == Some(doc@),
            None => json_document(text@) is None,
        },
{
    match read_document(text) {
        Ok(value) => Some(json_of_value(&value)),
        Err(_) => None,
    }
}

} // verus!
