//! Decoding a whole response.
//!
//! A response is a JSON object with eight fields, all of which must be
//! there; fields that this crate does not know are passed over. The order in
//! which the fields are checked is the order in which they are listed in
//! [`ResponseField`], and the first field that fails decides the error.

use crate::fields::{
    get_count, get_engines, get_number, get_optional_date, get_optional_maps,
    get_optional_text, get_optional_texts, get_priority, get_text, get_texts, optional_date,
    optional_maps, optional_text, optional_texts, read_text, required_count, required_number,
    required_priority, required_text, required_texts,
};
use crate::json::{
    find, items_view, json_document, lemma_array_view, lemma_object_view, lookup, parse_json,
    Json, JsonValue, MemberValue,
};
use crate::response::{
    answer_set_view, answers_view, engine_errors_view, infoboxes_view, results_view,
    EngineError, EngineErrorModel, Infobox, InfoboxModel, ResponseModel, ResultModel,
    SearchResponse, SearchResult, SearchResultModel,
};
use crate::shape::{
    decode_result, lemma_unknown_field_is_mismatch, main_field, mismatch_model, result_model,
    Mismatch, MismatchModel, ShapeDifference,
};
use vstd::prelude::*;

verus! {

// ---------------------------------------------------------------------------
// Errors
// ---------------------------------------------------------------------------
/// The fields of a response, in the order in which they are checked.
#[derive(Debug, Clone, Copy, PartialEq, Eq, Structural)]
pub enum ResponseField {
    Query,
    NumberOfResults,
    Results,
    Answers,
    Corrections,
    Infoboxes,
    Suggestions,
    UnresponsiveEngines,
}

/// Why a payload could not be decoded.
#[derive(Debug, Clone)]
pub enum DecodeError {
    /// The payload is not JSON.
    Syntax,
    /// The payload is JSON, but not an object.
    NotAnObject,
    /// A field of the response is missing or is not of the kind that its
    /// name calls for.
    Field(ResponseField),
    /// The element of `results` at `index` fits neither result shape.
    SchemaMismatch { index: usize, mismatch: Mismatch },
}

/// The model of a [`DecodeError`].
pub enum DecodeFault {
    Syntax,
    NotAnObject,
    Field(ResponseField),
    SchemaMismatch { index: int, mismatch: MismatchModel },
}

impl View for DecodeError {
    type V = DecodeFault;

    open spec fn view(&self) -> DecodeFault {
        match self {
            DecodeError::Syntax => DecodeFault::Syntax,
            DecodeError::NotAnObject => DecodeFault::NotAnObject,
            DecodeError::Field(field) => DecodeFault::Field(*field),
            DecodeError::SchemaMismatch { index, mismatch } => DecodeFault::SchemaMismatch {
                index: *index as int,
                mismatch: mismatch@,
            },
        }
    }
}

impl DecodeError {
    /// Whether the error reports a payload of a shape that this crate does
    /// not know, as opposed to a payload that is no JSON at all.
    pub fn is_schema_mismatch(&self) -> (r: bool)
        ensures
            r == !(self@ is Syntax),
    {
        match self {
            DecodeError::Syntax => false,
            _ => true,
        }
    }
}

// ---------------------------------------------------------------------------
// Instant answers
// ---------------------------------------------------------------------------
/// The answer that `element` is: an object whose `url`, `engine` and
/// `parsed_url`, where present, are of their kinds.
pub open spec fn answer_model(element: JsonValue) -> Option<ResultModel> {
    match element {
        JsonValue::Object(obj) => if optional_text(obj, "url"@) is Some && optional_text(
            obj,
            "engine"@,
        ) is Some && optional_texts(obj, "parsed_url"@) is Some {
            Some(
                ResultModel {
                    url: optional_text(obj, "url"@)->0,
                    engine: optional_text(obj, "engine"@)->0,
                    parsed_url: optional_texts(obj, "parsed_url"@)->0,
                },
            )
        } else {
            None
        },
        _ => None,
    }
}

/// Whether every item is an answer.
pub open spec fn all_answers(items: Seq<JsonValue>) -> bool {
    forall|i: int| #![trigger items[i]] 0 <= i < items.len() ==> answer_model(items[i]) is Some
}

/// The group of answers that `element` is: an array of answers.
pub open spec fn answer_set_model(element: JsonValue) -> Option<Seq<ResultModel>> {
    match element {
        JsonValue::Array(items) => if all_answers(items) {
            Some(Seq::new(items.len(), |i: int| answer_model(items[i])->0))
        } else {
            None
        },
        _ => None,
    }
}

/// Whether every item is a group of answers.
pub open spec fn all_answer_sets(items: Seq<JsonValue>) -> bool {
    forall|i: int|
        #![trigger items[i]]
        0 <= i < items.len() ==> answer_set_model(items[i]) is Some
}

/// The groups of answers that `value` is: an array of groups.
pub open spec fn as_answers(value: JsonValue) -> Option<Seq<Seq<ResultModel>>> {
    match value {
        JsonValue::Array(items) => if all_answer_sets(items) {
            Some(Seq::new(items.len(), |i: int| answer_set_model(items[i])->0))
        } else {
            None
        },
        _ => None,
    }
}

/// Decodes one answer.
pub fn decode_answer(element: &Json) -> (r: Option<crate::response::Result>)
    ensures
        match r {
            Some(answer) => answer_model(element@) == Some(answer@),
            None => answer_model(element@) is None,
        },
{
    match element {
        Json::Object(members) => {
            proof {
                lemma_object_view(*element);
            }
            let url = match get_optional_text(members, "url") {
                Some(x) => x,
                None => { return None; },
            };
            let engine = match get_optional_text(members, "engine") {
                Some(x) => x,
                None => { return None; },
            };
            let parsed_url = match get_optional_texts(members, "parsed_url") {
                Some(x) => x,
                None => { return None; },
            };
            Some(crate::response::Result { url, engine, parsed_url })
        },
        _ => None,
    }
}

/// Decodes one group of answers.
pub fn decode_answer_set(element: &Json) -> (r: Option<Vec<crate::response::Result>>)
    ensures
        match r {
            Some(set) => answer_set_model(element@) == Some(answer_set_view(set@)),
            None => answer_set_model(element@) is None,
        },
{
    match element {
        Json::Array(items) => {
            proof {
                lemma_array_view(*element);
            }
            let mut out: Vec<crate::response::Result> = Vec::new();
            let mut i: usize = 0;
            while i < items.len()
                invariant
                    i <= items.len(),
                    out@.len() == i,
                    element@ == JsonValue::Array(items_view(items@)),
                    forall|k: int|
                        0 <= k < i ==> answer_model(items@[k]@) == Some(#[trigger] out@[k]@),
                decreases items.len() - i,
            {
                match decode_answer(&items[i]) {
                    Some(answer) => {
                        out.push(answer);
                    },
                    None => {
                        assert(!(answer_model(element@->Array_0[i as int]) is Some));
                        return None;
                    },
                }
                i += 1;
            }
            assert(all_answers(element@->Array_0)) by {
                assert forall|k: int| 0 <= k < element@->Array_0.len() implies answer_model(
                    element@->Array_0[k],
                ) is Some by {
                    assert(answer_model(items@[k]@) == Some(out@[k]@));
                }
            }
            assert(answer_set_view(out@) =~= answer_set_model(element@)->0) by {
                assert forall|k: int| 0 <= k < out@.len() implies answer_set_view(out@)[k]
                    == answer_set_model(element@)->0[k] by {
                    assert(answer_model(items@[k]@) == Some(out@[k]@));
                }
            }
            Some(out)
        },
        _ => None,
    }
}

/// Decodes the groups of answers.
pub fn decode_answers(value: &Json) -> (r: Option<Vec<Vec<crate::response::Result>>>)
    ensures
        match r {
            Some(sets) => as_answers(value@) == Some(answers_view(sets@)),
            None => as_answers(value@) is None,
        },
{
    match value {
        Json::Array(items) => {
            proof {
                lemma_array_view(*value);
            }
            let mut out: Vec<Vec<crate::response::Result>> = Vec::new();
            let mut i: usize = 0;
            while i < items.len()
                invariant
                    i <= items.len(),
                    out@.len() == i,
                    value@ == JsonValue::Array(items_view(items@)),
                    forall|k: int|
                        0 <= k < i ==> answer_set_model(items@[k]@) == Some(
                            answer_set_view(#[trigger] out@[k]@),
                        ),
                decreases items.len() - i,
            {
                match decode_answer_set(&items[i]) {
                    Some(set) => {
                        out.push(set);
                    },
                    None => {
                        assert(!(answer_set_model(value@->Array_0[i as int]) is Some));
                        return None;
                    },
                }
                i += 1;
            }
            assert(all_answer_sets(value@->Array_0)) by {
                assert forall|k: int| 0 <= k < value@->Array_0.len() implies answer_set_model(
                    value@->Array_0[k],
                ) is Some by {
                    assert(answer_set_model(items@[k]@) == Some(answer_set_view(out@[k]@)));
                }
            }
            assert(answers_view(out@) =~= as_answers(value@)->0) by {
                assert forall|k: int| 0 <= k < out@.len() implies answers_view(out@)[k]
                    == as_answers(value@)->0[k] by {
                    assert(answer_set_model(items@[k]@) == Some(answer_set_view(out@[k]@)));
                }
            }
            Some(out)
        },
        _ => None,
    }
}

// ---------------------------------------------------------------------------
// Engines that did not answer
// ---------------------------------------------------------------------------
/// The engine error that `element` is: an array of exactly two strings, the
/// engine's name and then its message.
pub open spec fn engine_error_model(element: JsonValue) -> Option<EngineErrorModel> {
    match element {
        JsonValue::Array(items) => if items.len() == 2 && items[0] is Text && items[1] is Text {
            Some(EngineErrorModel { engine: items[0]->Text_0, error_msg: items[1]->Text_0 })
        } else {
            None
        },
        _ => None,
    }
}

/// Whether every item is an engine error.
pub open spec fn all_engine_errors(items: Seq<JsonValue>) -> bool {
    forall|i: int|
        #![trigger items[i]]
        0 <= i < items.len() ==> engine_error_model(items[i]) is Some
}

/// The engine errors that `value` is: an array of them.
pub open spec fn as_engine_errors(value: JsonValue) -> Option<Seq<EngineErrorModel>> {
    match value {
        JsonValue::Array(items) => if all_engine_errors(items) {
            Some(Seq::new(items.len(), |i: int| engine_error_model(items[i])->0))
        } else {
            None
        },
        _ => None,
    }
}

/// Decodes one engine error from its pair.
pub fn decode_engine_error(element: &Json) -> (r: Option<EngineError>)
    ensures
        match r {
            Some(error) => engine_error_model(element@) == Some(error@),
            None => engine_error_model(element@) is None,
        },
{
    match element {
        Json::Array(items) => {
            proof {
                lemma_array_view(*element);
            }
            if items.len() != 2 {
                return None;
            }
            let engine = match read_text(&items[0]) {
                Some(x) => x,
                None => { return None; },
            };
            let error_msg = match read_text(&items[1]) {
                Some(x) => x,
                None => { return None; },
            };
            Some(EngineError::from((engine, error_msg)))
        },
        _ => None,
    }
}

/// Decodes the engine errors.
pub fn decode_engine_errors(value: &Json) -> (r: Option<Vec<EngineError>>)
    ensures
        match r {
            Some(errors) => as_engine_errors(value@) == Some(engine_errors_view(errors@)),
            None => as_engine_errors(value@) is None,
        },
{
    match value {
        Json::Array(items) => {
            proof {
                lemma_array_view(*value);
            }
            let mut out: Vec<EngineError> = Vec::new();
            let mut i: usize = 0;
            while i < items.len()
                invariant
                    i <= items.len(),
                    out@.len() == i,
                    value@ == JsonValue::Array(items_view(items@)),
                    forall|k: int|
                        0 <= k < i ==> engine_error_model(items@[k]@) == Some(
                            #[trigger] out@[k]@,
                        ),
                decreases items.len() - i,
            {
                match decode_engine_error(&items[i]) {
                    Some(error) => {
                        out.push(error);
                    },
                    None => {
                        assert(!(engine_error_model(value@->Array_0[i as int]) is Some));
                        return None;
                    },
                }
                i += 1;
            }
            assert(all_engine_errors(value@->Array_0)) by {
                assert forall|k: int| 0 <= k < value@->Array_0.len() implies engine_error_model(
                    value@->Array_0[k],
                ) is Some by {
                    assert(engine_error_model(items@[k]@) == Some(out@[k]@));
                }
            }
            assert(engine_errors_view(out@) =~= as_engine_errors(value@)->0) by {
                assert forall|k: int| 0 <= k < out@.len() implies engine_errors_view(out@)[k]
                    == as_engine_errors(value@)->0[k] by {
                    assert(engine_error_model(items@[k]@) == Some(out@[k]@));
                }
            }
            Some(out)
        },
        _ => None,
    }
}

// ---------------------------------------------------------------------------
// Infoboxes
// ---------------------------------------------------------------------------
/// Whether `obj` has every field of an infobox, each of its kind. Fields
/// that an infobox does not have are passed over.
pub open spec fn infobox_shape(obj: Seq<MemberValue>) -> bool {
    &&& required_text(obj, "infobox"@) is Some
    &&& required_text(obj, "id"@) is Some
    &&& required_text(obj, "content"@) is Some
    &&& optional_maps(obj, "urls"@) is Some
    &&& optional_maps(obj, "attributes"@) is Some
    &&& required_text(obj, "engine"@) is Some
    &&& optional_text(obj, "url"@) is Some
    &&& required_text(obj, "img_src"@) is Some
    &&& required_text(obj, "template"@) is Some
    &&& optional_texts(obj, "parsed_url"@) is Some
    &&& required_text(obj, "title"@) is Some
    &&& required_text(obj, "thumbnail"@) is Some
    &&& required_priority(obj, "priority"@) is Some
    &&& required_texts(obj, "engines"@) is Some
    &&& required_text(obj, "positions"@) is Some
    &&& required_number(obj, "score"@) is Some
    &&& required_text(obj, "category"@) is Some
    &&& optional_date(obj, "publishedDate"@) is Some
    &&& optional_text(obj, "pubdate"@) is Some
}

/// What `obj` says when it is read field by field as an infobox.
pub open spec fn infobox_value(obj: Seq<MemberValue>) -> InfoboxModel {
    InfoboxModel {
        infobox: required_text(obj, "infobox"@)->0,
        id: required_text(obj, "id"@)->0,
        content: required_text(obj, "content"@)->0,
        urls: optional_maps(obj, "urls"@)->0,
        attributes: optional_maps(obj, "attributes"@)->0,
        engine: required_text(obj, "engine"@)->0,
        url: optional_text(obj, "url"@)->0,
        img_src: required_text(obj, "img_src"@)->0,
        template: required_text(obj, "template"@)->0,
        parsed_url: optional_texts(obj, "parsed_url"@)->0,
        title: required_text(obj, "title"@)->0,
        thumbnail: required_text(obj, "thumbnail"@)->0,
        priority: required_priority(obj, "priority"@)->0,
        engines: required_texts(obj, "engines"@)->0,
        positions: required_text(obj, "positions"@)->0,
        score: required_number(obj, "score"@)->0,
        category: required_text(obj, "category"@)->0,
        published_date: optional_date(obj, "publishedDate"@)->0,
        pubdate: optional_text(obj, "pubdate"@)->0,
    }
}

/// The infobox that `element` is: an object of the infobox shape.
pub open spec fn infobox_model(element: JsonValue) -> Option<InfoboxModel> {
    match element {
        JsonValue::Object(obj) => if infobox_shape(obj) {
            Some(infobox_value(obj))
        } else {
            None
        },
        _ => None,
    }
}

/// Whether every item is an infobox.
pub open spec fn all_infoboxes(items: Seq<JsonValue>) -> bool {
    forall|i: int| #![trigger items[i]] 0 <= i < items.len() ==> infobox_model(items[i]) is Some
}

/// The infoboxes that `value` is: an array of them.
pub open spec fn as_infoboxes(value: JsonValue) -> Option<Seq<InfoboxModel>> {
    match value {
        JsonValue::Array(items) => if all_infoboxes(items) {
            Some(Seq::new(items.len(), |i: int| infobox_model(items[i])->0))
        } else {
            None
        },
        _ => None,
    }
}

/// Decodes one infobox.
pub fn decode_infobox(element: &Json) -> (r: Option<Infobox>)
    ensures
        match r {
            Some(infobox) => infobox_model(element@) == Some(infobox@),
            None => infobox_model(element@) is None,
        },
{
    let members = match element {
        Json::Object(members) => members,
        _ => { return None; },
    };
    proof {
        lemma_object_view(*element);
    }
    let infobox = match get_text(members, "infobox") {
        Some(x) => x,
        None => { return None; },
    };
    let id = match get_text(members, "id") {
        Some(x) => x,
        None => { return None; },
    };
    let content = match get_text(members, "content") {
        Some(x) => x,
        None => { return None; },
    };
    let urls = match get_optional_maps(members, "urls") {
        Some(x) => x,
        None => { return None; },
    };
    let attributes = match get_optional_maps(members, "attributes") {
        Some(x) => x,
        None => { return None; },
    };
    let engine = match get_text(members, "engine") {
        Some(x) => x,
        None => { return None; },
    };
    let url = match get_optional_text(members, "url") {
        Some(x) => x,
        None => { return None; },
    };
    let img_src = match get_text(members, "img_src") {
        Some(x) => x,
        None => { return None; },
    };
    let template = match get_text(members, "template") {
        Some(x) => x,
        None => { return None; },
    };
    let parsed_url = match get_optional_texts(members, "parsed_url") {
        Some(x) => x,
        None => { return None; },
    };
    let title = match get_text(members, "title") {
        Some(x) => x,
        None => { return None; },
    };
    let thumbnail = match get_text(members, "thumbnail") {
        Some(x) => x,
        None => { return None; },
    };
    let priority = match get_priority(members, "priority") {
        Some(x) => x,
        None => { return None; },
    };
    let engines = match get_engines(members, "engines") {
        Some(x) => x,
        None => { return None; },
    };
    let positions = match get_text(members, "positions") {
        Some(x) => x,
        None => { return None; },
    };
    let score = match get_number(members, "score") {
        Some(x) => x,
        None => { return None; },
    };
    let category = match get_text(members, "category") {
        Some(x) => x,
        None => { return None; },
    };
    let published_date = match get_optional_date(members, "publishedDate") {
        Some(x) => x,
        None => { return None; },
    };
    let pubdate = match get_optional_text(members, "pubdate") {
        Some(x) => x,
        None => { return None; },
    };
    Some(
        Infobox {
            infobox,
            id,
            content,
            urls,
            attributes,
            engine,
            url,
            img_src,
            template,
            parsed_url,
            title,
            thumbnail,
            priority,
            engines,
            positions,
            score,
            category,
            published_date,
            pubdate,
        },
    )
}

/// Decodes the infoboxes.
pub fn decode_infoboxes(value: &Json) -> (r: Option<Vec<Infobox>>)
    ensures
        match r {
            Some(boxes) => as_infoboxes(value@) == Some(infoboxes_view(boxes@)),
            None => as_infoboxes(value@) is None,
        },
{
    match value {
        Json::Array(items) => {
            proof {
                lemma_array_view(*value);
            }
            let mut out: Vec<Infobox> = Vec::new();
            let mut i: usize = 0;
            while i < items.len()
                invariant
                    i <= items.len(),
                    out@.len() == i,
                    value@ == JsonValue::Array(items_view(items@)),
                    forall|k: int|
                        0 <= k < i ==> infobox_model(items@[k]@) == Some(#[trigger] out@[k]@),
                decreases items.len() - i,
            {
                match decode_infobox(&items[i]) {
                    Some(infobox) => {
                        out.push(infobox);
                    },
                    None => {
                        assert(!(infobox_model(value@->Array_0[i as int]) is Some));
                        return None;
                    },
                }
                i += 1;
            }
            assert(all_infoboxes(value@->Array_0)) by {
                assert forall|k: int| 0 <= k < value@->Array_0.len() implies infobox_model(
                    value@->Array_0[k],
                ) is Some by {
                    assert(infobox_model(items@[k]@) == Some(out@[k]@));
                }
            }
            assert(infoboxes_view(out@) =~= as_infoboxes(value@)->0) by {
                assert forall|k: int| 0 <= k < out@.len() implies infoboxes_view(out@)[k]
                    == as_infoboxes(value@)->0[k] by {
                    assert(infobox_model(items@[k]@) == Some(out@[k]@));
                }
            }
            Some(out)
        },
        _ => None,
    }
}

// ---------------------------------------------------------------------------
// Results
// ---------------------------------------------------------------------------
/// How many items at the start of `items` are results: the place of the
/// first item that is none, or the length where every item is one.
pub open spec fn leading_results(items: Seq<JsonValue>) -> nat
    decreases items.len(),
{
    if items.len() == 0 || result_model(items[0]) is None {
        0
    } else {
        1 + leading_results(items.drop_first())
    }
}

/// What a list of result elements means: the results, where every element
/// is one, and else the first element that is none.
pub open spec fn results_model(items: Seq<JsonValue>) -> Result<
    Seq<SearchResultModel>,
    DecodeFault,
> {
    let n = leading_results(items);
    if n < items.len() {
        Err(DecodeFault::SchemaMismatch { index: n as int, mismatch: mismatch_model(items[n as int]) })
    } else {
        Ok(Seq::new(items.len(), |i: int| result_model(items[i])->0))
    }
}

/// The leading results end at the first element that is no result.
pub proof fn lemma_leading_results(items: Seq<JsonValue>)
    ensures
        leading_results(items) <= items.len(),
        forall|i: int|
            #![trigger items[i]]
            0 <= i < leading_results(items) ==> result_model(items[i]) is Some,
        leading_results(items) < items.len() ==> result_model(
            items[leading_results(items) as int],
        ) is None,
    decreases items.len(),
{
    if items.len() == 0 || result_model(items[0]) is None {
    } else {
        let rest = items.drop_first();
        lemma_leading_results(rest);
        assert forall|i: int| #![trigger items[i]] 0 <= i < leading_results(items) implies result_model(
            items[i],
        ) is Some by {
            if i > 0 {
                assert(items[i] == rest[i - 1]);
            }
        }
        if leading_results(items) < items.len() {
            assert(items[leading_results(items) as int] == rest[leading_results(rest) as int]);
        }
    }
}

/// Decodes the elements of `results` in order and stops at the first that
/// fits neither shape.
pub fn decode_results(items: &Vec<Json>) -> (r: Result<Vec<SearchResult>, DecodeError>)
    ensures
        match r {
            Ok(results) => results_model(items_view(items@)) == Ok::<
                Seq<SearchResultModel>,
                DecodeFault,
            >(results_view(results@)),
            Err(error) => results_model(items_view(items@)) == Err::<
                Seq<SearchResultModel>,
                DecodeFault,
            >(error@),
        },
{
    let ghost all = items_view(items@);
    let mut out: Vec<SearchResult> = Vec::new();
    let mut i: usize = 0;
    assert(all.skip(0) =~= all);
    while i < items.len()
        invariant
            i <= items.len(),
            out@.len() == i,
            all == items_view(items@),
            leading_results(all) == i + leading_results(all.skip(i as int)),
            forall|k: int| 0 <= k < i ==> result_model(all[k]) == Some(#[trigger] out@[k]@),
        decreases items.len() - i,
    {
        proof {
            assert(all.skip(i as int).drop_first() =~= all.skip(i + 1));
            assert(all.skip(i as int)[0] == all[i as int]);
        }
        match decode_result(&items[i]) {
            Ok(result) => {
                out.push(result);
            },
            Err(mismatch) => {
                return Err(DecodeError::SchemaMismatch { index: i, mismatch });
            },
        }
        i += 1;
    }
    proof {
        assert(all.skip(items.len() as int) =~= Seq::empty());
        assert(results_view(out@) =~= results_model(all)->Ok_0) by {
            assert forall|k: int| 0 <= k < out@.len() implies results_view(out@)[k]
                == results_model(all)->Ok_0[k] by {
                assert(result_model(all[k]) == Some(out@[k]@));
            }
        }
    }
    Ok(out)
}

// ---------------------------------------------------------------------------
// The response
// ---------------------------------------------------------------------------
/// The elements under `results`, which must be there and be an array.
pub open spec fn results_field(obj: Seq<MemberValue>) -> Option<Seq<JsonValue>> {
    match lookup(obj, "results"@) {
        Some(JsonValue::Array(items)) => Some(items),
        _ => None,
    }
}

/// The groups of answers under `answers`, which must be there.
pub open spec fn answers_field(obj: Seq<MemberValue>) -> Option<Seq<Seq<ResultModel>>> {
    match lookup(obj, "answers"@) {
        Some(value) => as_answers(value),
        None => None,
    }
}

/// The infoboxes under `infoboxes`, which must be there.
pub open spec fn infoboxes_field(obj: Seq<MemberValue>) -> Option<Seq<InfoboxModel>> {
    match lookup(obj, "infoboxes"@) {
        Some(value) => as_infoboxes(value),
        None => None,
    }
}

/// The engine errors under `unresponsive_engines`, which must be there.
pub open spec fn engine_errors_field(obj: Seq<MemberValue>) -> Option<Seq<EngineErrorModel>> {
    match lookup(obj, "unresponsive_engines"@) {
        Some(value) => as_engine_errors(value),
        None => None,
    }
}

/// What a document means as a response: the response, or the first thing
/// that keeps it from being one.
pub open spec fn response_model(doc: JsonValue) -> Result<ResponseModel, DecodeFault> {
    match doc {
        JsonValue::Object(obj) => {
            if required_text(obj, "query"@) is None {
                Err(DecodeFault::Field(ResponseField::Query))
            } else if required_count(obj, "number_of_results"@) is None {
                Err(DecodeFault::Field(ResponseField::NumberOfResults))
            } else if results_field(obj) is None {
                Err(DecodeFault::Field(ResponseField::Results))
            } else if results_model(results_field(obj)->0) is Err {
                Err(results_model(results_field(obj)->0)->Err_0)
            } else if answers_field(obj) is None {
                Err(DecodeFault::Field(ResponseField::Answers))
            } else if required_texts(obj, "corrections"@) is None {
                Err(DecodeFault::Field(ResponseField::Corrections))
            } else if infoboxes_field(obj) is None {
                Err(DecodeFault::Field(ResponseField::Infoboxes))
            } else if required_texts(obj, "suggestions"@) is None {
                Err(DecodeFault::Field(ResponseField::Suggestions))
            } else if engine_errors_field(obj) is None {
                Err(DecodeFault::Field(ResponseField::UnresponsiveEngines))
            } else {
                Ok(
                    ResponseModel {
                        query: required_text(obj, "query"@)->0,
                        number_of_results: required_count(obj, "number_of_results"@)->0,
                        results: results_model(results_field(obj)->0)->Ok_0,
                        answers: answers_field(obj)->0,
                        corrections: required_texts(obj, "corrections"@)->0,
                        infoboxes: infoboxes_field(obj)->0,
                        suggestions: required_texts(obj, "suggestions"@)->0,
                        unresponsive_engines: engine_errors_field(obj)->0,
                    },
                )
            }
        },
        _ => Err(DecodeFault::NotAnObject),
    }
}

/// What a payload means as a response: what its document means, or a
/// syntax error where it is no document.
pub open spec fn payload_model(text: Seq<char>) -> Result<ResponseModel, DecodeFault> {
    match json_document(text) {
        Some(doc) => response_model(doc),
        None => Err(DecodeFault::Syntax),
    }
}

/// The model of the outcome of decoding.
pub open spec fn decoded_view(r: Result<SearchResponse, DecodeError>) -> Result<
    ResponseModel,
    DecodeFault,
> {
    match r {
        Ok(response) => Ok(response@),
        Err(error) => Err(error@),
    }
}

/// Decodes a JSON document as a response.
pub fn response_of_json(doc: &Json) -> (r: Result<SearchResponse, DecodeError>)
    ensures
        decoded_view(r) == response_model(doc@),
{
    let members = match doc {
        Json::Object(members) => members,
        _ => { return Err(DecodeError::NotAnObject); },
    };
    proof {
        lemma_object_view(*doc);
    }
    let query = match get_text(members, "query") {
        Some(x) => x,
        None => { return Err(DecodeError::Field(ResponseField::Query)); },
    };
    let number_of_results = match get_count(members, "number_of_results") {
        Some(x) => x,
        None => { return Err(DecodeError::Field(ResponseField::NumberOfResults)); },
    };
    let results = match find(members, "results") {
        Some(Json::Array(items)) => {
            proof {
                lemma_array_view(Json::Array(*items));
            }
            match decode_results(items) {
                Ok(x) => x,
                Err(error) => { return Err(error); },
            }
        },
        _ => { return Err(DecodeError::Field(ResponseField::Results)); },
    };
    let answers = match find(members, "answers") {
        Some(value) => match decode_answers(value) {
            Some(x) => x,
            None => { return Err(DecodeError::Field(ResponseField::Answers)); },
        },
        None => { return Err(DecodeError::Field(ResponseField::Answers)); },
    };
    let corrections = match get_texts(members, "corrections") {
        Some(x) => x,
        None => { return Err(DecodeError::Field(ResponseField::Corrections)); },
    };
    let infoboxes = match find(members, "infoboxes") {
        Some(value) => match decode_infoboxes(value) {
            Some(x) => x,
            None => { return Err(DecodeError::Field(ResponseField::Infoboxes)); },
        },
        None => { return Err(DecodeError::Field(ResponseField::Infoboxes)); },
    };
    let suggestions = match get_texts(members, "suggestions") {
        Some(x) => x,
        None => { return Err(DecodeError::Field(ResponseField::Suggestions)); },
    };
    let unresponsive_engines = match find(members, "unresponsive_engines") {
        Some(value) => match decode_engine_errors(value) {
            Some(x) => x,
            None => { return Err(DecodeError::Field(ResponseField::UnresponsiveEngines)); },
        },
        None => { return Err(DecodeError::Field(ResponseField::UnresponsiveEngines)); },
    };
    Ok(
        SearchResponse {
            query,
            number_of_results,
            results,
            answers,
            corrections,
            infoboxes,
            suggestions,
            unresponsive_engines,
        },
    )
}

/// Decodes the payload of one page: reads it as JSON and the document as a
/// response.
pub fn decode_response(text: &str) -> (r: Result<SearchResponse, DecodeError>)
    ensures
        decoded_view(r) == payload_model(text@),
{
    match parse_json(text) {
        Some(doc) => response_of_json(&doc),
        None => Err(DecodeError::Syntax),
    }
}

/// A response whose `results` hold an element with a field that neither
/// shape knows is not decoded. Where the query and the count are in order,
/// the error is a schema mismatch at that element or before it; at that
/// element, it names the field.
pub proof fn lemma_unknown_field_fails_response(doc: JsonValue, j: int, k: int)
    requires
        doc is Object,
        results_field(doc->Object_0) is Some,
        0 <= j < results_field(doc->Object_0)->0.len(),
        results_field(doc->Object_0)->0[j] is Object,
        0 <= k < results_field(doc->Object_0)->0[j]->Object_0.len(),
        !main_field(results_field(doc->Object_0)->0[j]->Object_0[k].key),
    ensures
        response_model(doc) is Err,
        response_model(doc)->Err_0 is Field ==> response_model(doc)->Err_0->Field_0
            == ResponseField::Query || response_model(doc)->Err_0->Field_0
            == ResponseField::NumberOfResults,
        response_model(doc)->Err_0 is SchemaMismatch ==> {
            let index = response_model(doc)->Err_0->SchemaMismatch_index;
            let mismatch = response_model(doc)->Err_0->SchemaMismatch_mismatch;
            let key = results_field(doc->Object_0)->0[j]->Object_0[k].key;
            &&& 0 <= index <= j
            &&& index == j ==> mismatch.difference == ShapeDifference::UnknownFields
                && mismatch.unmatched.contains(key)
        },
{
    let items = results_field(doc->Object_0)->0;
    lemma_unknown_field_is_mismatch(items[j]->Object_0, k);
    lemma_leading_results(items);
    if leading_results(items) > j {
        assert(result_model(items[j]) is Some);
    }
}

} // verus!
