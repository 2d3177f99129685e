//! Reading single values and single fields out of a JSON document.
//!
//! For each kind of value that the backend sends there is a spec function
//! that says what a JSON value means when it is read as that kind (`as_…`),
//! and an executable reader that computes it (`read_…`). A field of an
//! object is then read in one of three ways: it must be there (`required_…`),
//! it may be absent or `null` (`optional_…`), or its absence means an empty
//! list (`listed_…`).

use crate::json::{
    copy_members, find, lemma_array_view, lemma_object_view, lookup, members_view, Json,
    JsonValue, Member, MemberValue, Number, NumberValue,
};
use crate::response::PriorityType;
use crate::small::{engine_items, position_items, EngineList, PositionList};
use crate::text::{optional_text_view, optional_texts_view, same_text, texts_view};
use crate::time::{date_time_of_text, duration_of_text, DateTime, Duration};
use vstd::prelude::*;

verus! {

/// The model of a number that may be absent.
pub open spec fn optional_number_view(number: Option<Number>) -> Option<NumberValue> {
    match number {
        Some(n) => Some(n@),
        None => None,
    }
}

/// The entries of each object in a run of objects.
pub open spec fn maps_view(maps: Seq<Vec<Member>>) -> Seq<Seq<MemberValue>> {
    Seq::new(maps.len(), |i: int| members_view(maps[i]@))
}

/// The entries of each object in a run of objects that may be absent.
pub open spec fn optional_maps_view(maps: Option<Vec<Vec<Member>>>) -> Option<
    Seq<Seq<MemberValue>>,
> {
    match maps {
        Some(v) => Some(maps_view(v@)),
        None => None,
    }
}

// ---------------------------------------------------------------------------
// What a value means
// ---------------------------------------------------------------------------
/// A JSON string, as text.
pub open spec fn as_text(value: JsonValue) -> Option<Seq<char>> {
    match value {
        JsonValue::Text(s) => Some(s),
        _ => None,
    }
}

/// A JSON boolean.
pub open spec fn as_flag(value: JsonValue) -> Option<bool> {
    match value {
        JsonValue::Bool(b) => Some(b),
        _ => None,
    }
}

/// Any JSON number.
pub open spec fn as_number(value: JsonValue) -> Option<NumberValue> {
    match value {
        JsonValue::Number(n) => Some(n),
        _ => None,
    }
}

/// A whole JSON number that a signed 64-bit integer can hold.
pub open spec fn as_count(value: JsonValue) -> Option<i64> {
    match value {
        JsonValue::Number(NumberValue::Unsigned(u)) => if u <= i64::MAX {
            Some(u as i64)
        } else {
            None
        },
        JsonValue::Number(NumberValue::Negative(i)) => Some(i),
        _ => None,
    }
}

/// A whole JSON number that a signed 32-bit integer can hold.
pub open spec fn as_position(value: JsonValue) -> Option<i32> {
    match value {
        JsonValue::Number(NumberValue::Unsigned(u)) => if u <= i32::MAX {
            Some(u as i32)
        } else {
            None
        },
        JsonValue::Number(NumberValue::Negative(i)) => if i32::MIN <= i <= i32::MAX {
            Some(i as i32)
        } else {
            None
        },
        _ => None,
    }
}

/// A priority: the empty string, `high` or `low`.
pub open spec fn as_priority(value: JsonValue) -> Option<PriorityType> {
    match value {
        JsonValue::Text(s) => if s.len() == 0 {
            Some(PriorityType::Normal)
        } else if s == "high"@ {
            Some(PriorityType::High)
        } else if s == "low"@ {
            Some(PriorityType::Low)
        } else {
            None
        },
        _ => None,
    }
}

/// A JSON string that spells a date and time.
pub open spec fn as_date(value: JsonValue) -> Option<DateTime> {
    match value {
        JsonValue::Text(s) => date_time_of_text(s),
        _ => None,
    }
}

/// A JSON string that spells a duration.
pub open spec fn as_length(value: JsonValue) -> Option<Duration> {
    match value {
        JsonValue::Text(s) => duration_of_text(s),
        _ => None,
    }
}

/// Whether every item is a JSON string.
pub open spec fn all_text(items: Seq<JsonValue>) -> bool {
    forall|i: int| #![trigger items[i]] 0 <= i < items.len() ==> items[i] is Text
}

/// A JSON array of strings, as the texts in order.
pub open spec fn as_texts(value: JsonValue) -> Option<Seq<Seq<char>>> {
    match value {
        JsonValue::Array(items) => if all_text(items) {
            Some(Seq::new(items.len(), |i: int| items[i]->Text_0))
        } else {
            None
        },
        _ => None,
    }
}

/// Whether every item is a position.
pub open spec fn all_positions(items: Seq<JsonValue>) -> bool {
    forall|i: int| #![trigger items[i]] 0 <= i < items.len() ==> as_position(items[i]) is Some
}

/// A JSON array of positions, as the integers in order.
pub open spec fn as_positions(value: JsonValue) -> Option<Seq<i32>> {
    match value {
        JsonValue::Array(items) => if all_positions(items) {
            Some(Seq::new(items.len(), |i: int| as_position(items[i])->0))
        } else {
            None
        },
        _ => None,
    }
}

/// Whether every item is a JSON object.
pub open spec fn all_objects(items: Seq<JsonValue>) -> bool {
    forall|i: int| #![trigger items[i]] 0 <= i < items.len() ==> items[i] is Object
}

/// A JSON array of objects, as the entries of each in order.
pub open spec fn as_maps(value: JsonValue) -> Option<Seq<Seq<MemberValue>>> {
    match value {
        JsonValue::Array(items) => if all_objects(items) {
            Some(Seq::new(items.len(), |i: int| items[i]->Object_0))
        } else {
            None
        },
        _ => None,
    }
}

// ---------------------------------------------------------------------------
// What a field means
// ---------------------------------------------------------------------------
/// Whether a field counts as left out: it is absent, or it is `null`.
pub open spec fn left_out(field: Option<JsonValue>) -> bool {
    field is None || field == Some(JsonValue::Null)
}

/// The text under `name`, which must be there.
pub open spec fn required_text(obj: Seq<MemberValue>, name: Seq<char>) -> Option<Seq<char>> {
    match lookup(obj, name) {
        Some(value) => as_text(value),
        None => None,
    }
}

/// The boolean under `name`, which must be there.
pub open spec fn required_flag(obj: Seq<MemberValue>, name: Seq<char>) -> Option<bool> {
    match lookup(obj, name) {
        Some(value) => as_flag(value),
        None => None,
    }
}

/// The number under `name`, which must be there.
pub open spec fn required_number(obj: Seq<MemberValue>, name: Seq<char>) -> Option<NumberValue> {
    match lookup(obj, name) {
        Some(value) => as_number(value),
        None => None,
    }
}

/// The count under `name`, which must be there.
pub open spec fn required_count(obj: Seq<MemberValue>, name: Seq<char>) -> Option<i64> {
    match lookup(obj, name) {
        Some(value) => as_count(value),
        None => None,
    }
}

/// The priority under `name`, which must be there.
pub open spec fn required_priority(obj: Seq<MemberValue>, name: Seq<char>) -> Option<
    PriorityType,
> {
    match lookup(obj, name) {
        Some(value) => as_priority(value),
        None => None,
    }
}

/// The list of texts under `name`, which must be there.
pub open spec fn required_texts(obj: Seq<MemberValue>, name: Seq<char>) -> Option<
    Seq<Seq<char>>,
> {
    match lookup(obj, name) {
        Some(value) => as_texts(value),
        None => None,
    }
}

/// The text under `name`, which may be left out. The outer `None` stands
/// for a value of another kind.
pub open spec fn optional_text(obj: Seq<MemberValue>, name: Seq<char>) -> Option<
    Option<Seq<char>>,
> {
    let field = lookup(obj, name);
    if left_out(field) {
        Some(None)
    } else {
        match as_text(field->0) {
            Some(s) => Some(Some(s)),
            None => None,
        }
    }
}

/// The list of texts under `name`, which may be left out.
pub open spec fn optional_texts(obj: Seq<MemberValue>, name: Seq<char>) -> Option<
    Option<Seq<Seq<char>>>,
> {
    let field = lookup(obj, name);
    if left_out(field) {
        Some(None)
    } else {
        match as_texts(field->0) {
            Some(s) => Some(Some(s)),
            None => None,
        }
    }
}

/// The date under `name`, which may be left out.
pub open spec fn optional_date(obj: Seq<MemberValue>, name: Seq<char>) -> Option<
    Option<DateTime>,
> {
    let field = lookup(obj, name);
    if left_out(field) {
        Some(None)
    } else {
        match as_date(field->0) {
            Some(d) => Some(Some(d)),
            None => None,
        }
    }
}

/// The duration under `name`, which may be left out.
pub open spec fn optional_length(obj: Seq<MemberValue>, name: Seq<char>) -> Option<
    Option<Duration>,
> {
    let field = lookup(obj, name);
    if left_out(field) {
        Some(None)
    } else {
        match as_length(field->0) {
            Some(d) => Some(Some(d)),
            None => None,
        }
    }
}

/// The list of objects under `name`, which may be left out.
pub open spec fn optional_maps(obj: Seq<MemberValue>, name: Seq<char>) -> Option<
    Option<Seq<Seq<MemberValue>>>,
> {
    let field = lookup(obj, name);
    if left_out(field) {
        Some(None)
    } else {
        match as_maps(field->0) {
            Some(m) => Some(Some(m)),
            None => None,
        }
    }
}

/// The list of texts under `name`; an absent field is the empty list.
pub open spec fn listed_texts(obj: Seq<MemberValue>, name: Seq<char>) -> Option<
    Seq<Seq<char>>,
> {
    match lookup(obj, name) {
        Some(value) => as_texts(value),
        None => Some(Seq::empty()),
    }
}

/// The list of positions under `name`; an absent field is the empty list.
pub open spec fn listed_positions(obj: Seq<MemberValue>, name: Seq<char>) -> Option<Seq<i32>> {
    match lookup(obj, name) {
        Some(value) => as_positions(value),
        None => Some(Seq::empty()),
    }
}

// ---------------------------------------------------------------------------
// Reading a value
// ---------------------------------------------------------------------------
/// Reads a JSON string.
pub fn read_text(value: &Json) -> (r: Option<String>)
    ensures
        optional_text_view(r) == as_text(value@),
{
    match value {
        Json::Text(s) => Some(s.clone()),
        _ => None,
    }
}

/// Reads a JSON boolean.
pub fn read_flag(value: &Json) -> (r: Option<bool>)
    ensures
        r == as_flag(value@),
{
    match value {
        Json::Bool(b) => Some(*b),
        _ => None,
    }
}

/// Reads any JSON number.
pub fn read_number(value: &Json) -> (r: Option<Number>)
    ensures
        optional_number_view(r) == as_number(value@),
{
    match value {
        Json::Number(n) => Some(n.copy()),
        _ => None,
    }
}

/// Reads a whole number into 64 bits.
pub fn read_count(value: &Json) -> (r: Option<i64>)
    ensures
        r == as_count(value@),
{
    match value {
        Json::Number(Number::Unsigned(u)) => {
            if *u <= 0x7fff_ffff_ffff_ffff {
                Some(*u as i64)
            } else {
                None
            }
        },
        Json::Number(Number::Negative(i)) => Some(*i),
        _ => None,
    }
}

/// Reads a whole number into 32 bits.
pub fn read_position(value: &Json) -> (r: Option<i32>)
    ensures
        r == as_position(value@),
{
    match value {
        Json::Number(Number::Unsigned(u)) => {
            if *u <= 0x7fff_ffff {
                Some(*u as i32)
            } else {
                None
            }
        },
        Json::Number(Number::Negative(i)) => {
            if -0x8000_0000 <= *i && *i <= 0x7fff_ffff {
                Some(*i as i32)
            } else {
                None
            }
        },
        _ => None,
    }
}

/// Reads a priority.
pub fn read_priority(value: &Json) -> (r: Option<PriorityType>)
    ensures
        r == as_priority(value@),
{
    match value {
        Json::Text(s) => {
            if s.as_str().is_empty() {
                Some(PriorityType::Normal)
            } else if same_text(s.as_str(), "high") {
                Some(PriorityType::High)
            } else if same_text(s.as_str(), "low") {
                Some(PriorityType::Low)
            } else {
                None
            }
        },
        _ => None,
    }
}

/// Reads a date and time.
pub fn read_date(value: &Json) -> (r: Option<DateTime>)
    ensures
        r == as_date(value@),
{
    match value {
        Json::Text(s) => DateTime::parse(s.as_str()),
        _ => None,
    }
}

/// Reads a duration.
pub fn read_length(value: &Json) -> (r: Option<Duration>)
    ensures
        r == as_length(value@),
{
    match value {
        Json::Text(s) => Duration::parse(s.as_str()),
        _ => None,
    }
}

/// Reads an array of strings.
pub fn read_texts(value: &Json) -> (r: Option<Vec<String>>)
    ensures
        optional_texts_view(r) == as_texts(value@),
{
    match value {
        Json::Array(items) => {
            proof {
                lemma_array_view(*value);
            }
            let mut out: Vec<String> = Vec::new();
            let mut i: usize = 0;
            while i < items.len()
                invariant
                    i <= items.len(),
                    out@.len() == i,
                    value@ == JsonValue::Array(crate::json::items_view(items@)),
                    forall|k: int| 0 <= k < i ==> items@[k]@ == JsonValue::Text(#[trigger] out@[k]@),
                decreases items.len() - i,
            {
                match &items[i] {
                    Json::Text(s) => {
                        out.push(s.clone());
                    },
                    _ => {
                        assert(!(value@->Array_0[i as int] is Text));
                        return None;
                    },
                }
                i += 1;
            }
            assert(all_text(value@->Array_0)) by {
                assert forall|k: int| 0 <= k < value@->Array_0.len() implies value@->Array_0[k] is Text by {
                    assert(items@[k]@ == JsonValue::Text(out@[k]@));
                }
            }
            assert(texts_view(out@) =~= as_texts(value@)->0) by {
                assert forall|k: int| 0 <= k < out@.len() implies texts_view(out@)[k] == as_texts(
                    value@,
                )->0[k] by {
                    assert(items@[k]@ == JsonValue::Text(out@[k]@));
                }
            }
            Some(out)
        },
        _ => None,
    }
}

/// Reads an array of strings into an engine list.
pub fn read_engines(value: &Json) -> (r: Option<EngineList>)
    ensures
        match r {
            Some(list) => as_texts(value@) == Some(engine_items(list)),
            None => as_texts(value@) is None,
        },
{
    match read_texts(value) {
        Some(names) => {
            let list = EngineList::from_vec(&names);
            assert(names.deep_view() =~= texts_view(names@));
            Some(list)
        },
        None => None,
    }
}

/// Reads an array of positions.
pub fn read_positions(value: &Json) -> (r: Option<PositionList>)
    ensures
        match r {
            Some(list) => as_positions(value@) == Some(position_items(list)),
            None => as_positions(value@) is None,
        },
{
    match value {
        Json::Array(items) => {
            proof {
                lemma_array_view(*value);
            }
            let mut out = PositionList::new();
            let mut i: usize = 0;
            while i < items.len()
                invariant
                    i <= items.len(),
                    position_items(out).len() == i,
                    value@ == JsonValue::Array(crate::json::items_view(items@)),
                    forall|k: int|
                        0 <= k < i ==> as_position(items@[k]@) == Some(
                            #[trigger] position_items(out)[k],
                        ),
                decreases items.len() - i,
            {
                match read_position(&items[i]) {
                    Some(p) => {
                        out.push(p);
                    },
                    None => {
                        assert(!(as_position(value@->Array_0[i as int]) is Some));
                        return None;
                    },
                }
                i += 1;
            }
            assert(all_positions(value@->Array_0)) by {
                assert forall|k: int| 0 <= k < value@->Array_0.len() implies as_position(
                    value@->Array_0[k],
                ) is Some by {
                    assert(as_position(items@[k]@) == Some(position_items(out)[k]));
                }
            }
            assert(position_items(out) =~= as_positions(value@)->0) by {
                assert forall|k: int| 0 <= k < position_items(out).len() implies position_items(
                    out,
                )[k] == as_positions(value@)->0[k] by {
                    assert(as_position(items@[k]@) == Some(position_items(out)[k]));
                }
            }
            Some(out)
        },
        _ => None,
    }
}

/// Reads an array of objects, keeping each object's entries as they are.
pub fn read_maps(value: &Json) -> (r: Option<Vec<Vec<Member>>>)
    ensures
        match r {
            Some(maps) => as_maps(value@) == Some(maps_view(maps@)),
            None => as_maps(value@) is None,
        },
{
    match value {
        Json::Array(items) => {
            proof {
                lemma_array_view(*value);
            }
            let mut out: Vec<Vec<Member>> = Vec::new();
            let mut i: usize = 0;
            while i < items.len()
                invariant
                    i <= items.len(),
                    out@.len() == i,
                    value@ == JsonValue::Array(crate::json::items_view(items@)),
                    forall|k: int|
                        0 <= k < i ==> items@[k]@ == JsonValue::Object(
                            members_view(#[trigger] out@[k]@),
                        ),
                decreases items.len() - i,
            {
                match &items[i] {
                    Json::Object(members) => {
                        proof {
                            lemma_object_view(items@[i as int]);
                        }
                        out.push(copy_members(members));
                    },
                    _ => {
                        assert(!(value@->Array_0[i as int] is Object));
                        return None;
                    },
                }
                i += 1;
            }
            assert(all_objects(value@->Array_0)) by {
                assert forall|k: int| 0 <= k < value@->Array_0.len() implies value@->Array_0[k] is Object by {
                    assert(items@[k]@ == JsonValue::Object(members_view(out@[k]@)));
                }
            }
            assert(maps_view(out@) =~= as_maps(value@)->0) by {
                assert forall|k: int| 0 <= k < out@.len() implies maps_view(out@)[k] == as_maps(
                    value@,
                )->0[k] by {
                    assert(items@[k]@ == JsonValue::Object(members_view(out@[k]@)));
                }
            }
            Some(out)
        },
        _ => None,
    }
}

// ---------------------------------------------------------------------------
// Reading a field
// ---------------------------------------------------------------------------
/// Reads the text under `name`, which must be there.
pub fn get_text(members: &Vec<Member>, name: &str) -> (r: Option<String>)
    ensures
        optional_text_view(r) == required_text(members_view(members@), name@),
{
    match find(members, name) {
        Some(value) => read_text(value),
        None => None,
    }
}

/// Reads the boolean under `name`, which must be there.
pub fn get_flag(members: &Vec<Member>, name: &str) -> (r: Option<bool>)
    ensures
        r == required_flag(members_view(members@), name@),
{
    match find(members, name) {
        Some(value) => read_flag(value),
        None => None,
    }
}

/// Reads the number under `name`, which must be there.
pub fn get_number(members: &Vec<Member>, name: &str) -> (r: Option<Number>)
    ensures
        optional_number_view(r) == required_number(members_view(members@), name@),
{
    match find(members, name) {
        Some(value) => read_number(value),
        None => None,
    }
}

/// Reads the count under `name`, which must be there.
pub fn get_count(members: &Vec<Member>, name: &str) -> (r: Option<i64>)
    ensures
        r == required_count(members_view(members@), name@),
{
    match find(members, name) {
        Some(value) => read_count(value),
        None => None,
    }
}

/// Reads the priority under `name`, which must be there.
pub fn get_priority(members: &Vec<Member>, name: &str) -> (r: Option<PriorityType>)
    ensures
        r == required_priority(members_view(members@), name@),
{
    match find(members, name) {
        Some(value) => read_priority(value),
        None => None,
    }
}

/// Reads the list of texts under `name`, which must be there.
pub fn get_texts(members: &Vec<Member>, name: &str) -> (r: Option<Vec<String>>)
    ensures
        optional_texts_view(r) == required_texts(members_view(members@), name@),
{
    match find(members, name) {
        Some(value) => read_texts(value),
        None => None,
    }
}

/// Reads the engine list under `name`, which must be there.
pub fn get_engines(members: &Vec<Member>, name: &str) -> (r: Option<EngineList>)
    ensures
        match r {
            Some(list) => required_texts(members_view(members@), name@) == Some(
                engine_items(list),
            ),
            None => required_texts(members_view(members@), name@) is None,
        },
{
    match find(members, name) {
        Some(value) => read_engines(value),
        None => None,
    }
}

/// Reads the text under `name`, which may be left out.
pub fn get_optional_text(members: &Vec<Member>, name: &str) -> (r: Option<Option<String>>)
    ensures
        match r {
            Some(text) => optional_text(members_view(members@), name@) == Some(
                optional_text_view(text),
            ),
            None => optional_text(members_view(members@), name@) is None,
        },
{
    match find(members, name) {
        None => Some(None),
        Some(Json::Null) => Some(None),
        Some(value) => match read_text(value) {
            Some(s) => Some(Some(s)),
            None => None,
        },
    }
}

/// Reads the list of texts under `name`, which may be left out.
pub fn get_optional_texts(members: &Vec<Member>, name: &str) -> (r: Option<Option<Vec<String>>>)
    ensures
        match r {
            Some(texts) => optional_texts(members_view(members@), name@) == Some(
                optional_texts_view(texts),
            ),
            None => optional_texts(members_view(members@), name@) is None,
        },
{
    match find(members, name) {
        None => Some(None),
        Some(Json::Null) => Some(None),
        Some(value) => match read_texts(value) {
            Some(s) => Some(Some(s)),
            None => None,
        },
    }
}

/// Reads the date under `name`, which may be left out.
pub fn get_optional_date(members: &Vec<Member>, name: &str) -> (r: Option<Option<DateTime>>)
    ensures
        r == optional_date(members_view(members@), name@),
{
    match find(members, name) {
        None => Some(None),
        Some(Json::Null) => Some(None),
        Some(value) => match read_date(value) {
            Some(d) => Some(Some(d)),
            None => None,
        },
    }
}

/// Reads the duration under `name`, which may be left out.
pub fn get_optional_length(members: &Vec<Member>, name: &str) -> (r: Option<Option<Duration>>)
    ensures
        r == optional_length(members_view(members@), name@),
{
    match find(members, name) {
        None => Some(None),
        Some(Json::Null) => Some(None),
        Some(value) => match read_length(value) {
            Some(d) => Some(Some(d)),
            None => None,
        },
    }
}

/// Reads the list of objects under `name`, which may be left out.
pub fn get_optional_maps(members: &Vec<Member>, name: &str) -> (r: Option<
    Option<Vec<Vec<Member>>>,
>)
    ensures
        match r {
            Some(maps) => optional_maps(members_view(members@), name@) == Some(
                optional_maps_view(maps),
            ),
            None => optional_maps(members_view(members@), name@) is None,
        },
{
    match find(members, name) {
        None => Some(None),
        Some(Json::Null) => Some(None),
        Some(value) => match read_maps(value) {
            Some(m) => Some(Some(m)),
            None => None,
        },
    }
}

/// Reads the engine list under `name`; an absent field is the empty list.
pub fn get_listed_engines(members: &Vec<Member>, name: &str) -> (r: Option<EngineList>)
    ensures
        match r {
            Some(list) => listed_texts(members_view(members@), name@) == Some(
                engine_items(list),
            ),
            None => listed_texts(members_view(members@), name@) is None,
        },
{
    match find(members, name) {
        Some(value) => read_engines(value),
        None => Some(EngineList::new()),
    }
}

/// Reads the position list under `name`; an absent field is the empty list.
pub fn get_listed_positions(members: &Vec<Member>, name: &str) -> (r: Option<PositionList>)
    ensures
        match r {
            Some(list) => listed_positions(members_view(members@), name@) == Some(
                position_items(list),
            ),
            None => listed_positions(members_view(members@), name@) is None,
        },
{
    match find(members, name) {
        Some(value) => read_positions(value),
        None => Some(PositionList::new()),
    }
}

} // verus!
