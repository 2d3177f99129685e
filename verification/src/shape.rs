//! The two shapes of a search result, and how an element of `results` is
//! told to be one or the other.
//!
//! The backend does not say which shape it sends. An element is first held
//! against the legacy shape, which allows no field outside its own set; only
//! if that fails it is held against the main shape, which is as strict about
//! its larger set. An element that fits neither is a mismatch and is never
//! decoded in part.

use crate::fields::{
    get_flag, get_listed_engines, get_listed_positions, get_number, get_optional_date,
    get_optional_length, get_optional_text, get_optional_texts, get_priority, get_text,
    listed_positions, listed_texts, optional_date, optional_length, optional_text, optional_texts, required_flag, required_number, required_priority,
    required_text,
};
use crate::json::{
    distinct_keys, has_key, lemma_lookup_has_key, lemma_lookup_ignores_order,
    lemma_object_view, lookup, members_view, same_entries, Json, JsonValue, Member,
    MemberValue,
};
use crate::response::{
    LegacyModel, LegacySearchResult, MainModel, MainSearchResult, SearchResult,
    SearchResultModel,
};
use crate::text::{same_text, texts_view};
use vstd::prelude::*;

verus! {

// ---------------------------------------------------------------------------
// Field names
// ---------------------------------------------------------------------------
/// Whether `name` is a field of the legacy shape.
pub open spec fn legacy_field(name: Seq<char>) -> bool {
    ||| name == "url"@
    ||| name == "template"@
    ||| name == "engine"@
    ||| name == "parsed_url"@
    ||| name == "title"@
    ||| name == "content"@
    ||| name == "img_src"@
    ||| name == "thumbnail"@
    ||| name == "priority"@
    ||| name == "engines"@
    ||| name == "positions"@
    ||| name == "score"@
    ||| name == "category"@
    ||| name == "publishedDate"@
    ||| name == "pubdate"@
}

/// Whether `name` is a field that only the main shape has.
pub open spec fn main_only_field(name: Seq<char>) -> bool {
    ||| name == "iframe_src"@
    ||| name == "audio_src"@
    ||| name == "length"@
    ||| name == "views"@
    ||| name == "author"@
    ||| name == "metadata"@
    ||| name == "open_group"@
    ||| name == "close_group"@
}

/// Whether `name` is a field of the main shape: every legacy field is one.
pub open spec fn main_field(name: Seq<char>) -> bool {
    legacy_field(name) || main_only_field(name)
}

/// Whether every key of `obj` is a field of the legacy shape.
pub open spec fn legacy_keys_only(obj: Seq<MemberValue>) -> bool {
    forall|i: int| #![trigger obj[i]] 0 <= i < obj.len() ==> legacy_field(obj[i].key)
}

/// Whether every key of `obj` is a field of the main shape.
pub open spec fn main_keys_only(obj: Seq<MemberValue>) -> bool {
    forall|i: int| #![trigger obj[i]] 0 <= i < obj.len() ==> main_field(obj[i].key)
}

/// Whether some key of `obj` is a field that only the main shape has.
pub open spec fn has_main_only_key(obj: Seq<MemberValue>) -> bool {
    exists|i: int| #![trigger obj[i]] 0 <= i < obj.len() && main_only_field(obj[i].key)
}

/// The keys of `obj` that belong to neither shape, in the order of `obj`.
pub open spec fn unmatched_keys(obj: Seq<MemberValue>) -> Seq<Seq<char>>
    decreases obj.len(),
{
    if obj.len() == 0 {
        Seq::empty()
    } else if main_field(obj.last().key) {
        unmatched_keys(obj.drop_last())
    } else {
        unmatched_keys(obj.drop_last()).push(obj.last().key)
    }
}

/// Decides whether `name` is a field of the legacy shape.
pub fn is_legacy_field(name: &str) -> (r: bool)
    ensures
        r == legacy_field(name@),
{
    same_text(name, "url")
        || same_text(name, "template")
        || same_text(name, "engine")
        || same_text(name, "parsed_url")
        || same_text(name, "title")
        || same_text(name, "content")
        || same_text(name, "img_src")
        || same_text(name, "thumbnail")
        || same_text(name, "priority")
        || same_text(name, "engines")
        || same_text(name, "positions")
        || same_text(name, "score")
        || same_text(name, "category")
        || same_text(name, "publishedDate")
        || same_text(name, "pubdate")
}

/// Decides whether `name` is a field that only the main shape has.
pub fn is_main_only_field(name: &str) -> (r: bool)
    ensures
        r == main_only_field(name@),
{
    same_text(name, "iframe_src")
        || same_text(name, "audio_src")
        || same_text(name, "length")
        || same_text(name, "views")
        || same_text(name, "author")
        || same_text(name, "metadata")
        || same_text(name, "open_group")
        || same_text(name, "close_group")
}

/// Decides whether `name` is a field of the main shape.
pub fn is_main_field(name: &str) -> (r: bool)
    ensures
        r == main_field(name@),
{
    is_legacy_field(name) || is_main_only_field(name)
}

/// Decides whether every key is a field of the legacy shape.
pub fn only_legacy_keys(members: &Vec<Member>) -> (r: bool)
    ensures
        r == legacy_keys_only(members_view(members@)),
{
    let mut i: usize = 0;
    while i < members.len()
        invariant
            i <= members.len(),
            forall|k: int| 0 <= k < i ==> legacy_field(#[trigger] members_view(members@)[k].key),
        decreases members.len() - i,
    {
        if !is_legacy_field(members[i].key.as_str()) {
            assert(!legacy_field(members_view(members@)[i as int].key));
            return false;
        }
        i += 1;
    }
    true
}

/// Decides whether every key is a field of the main shape.
pub fn only_main_keys(members: &Vec<Member>) -> (r: bool)
    ensures
        r == main_keys_only(members_view(members@)),
{
    let mut i: usize = 0;
    while i < members.len()
        invariant
            i <= members.len(),
            forall|k: int| 0 <= k < i ==> main_field(#[trigger] members_view(members@)[k].key),
        decreases members.len() - i,
    {
        if !is_main_field(members[i].key.as_str()) {
            assert(!main_field(members_view(members@)[i as int].key));
            return false;
        }
        i += 1;
    }
    true
}

/// Decides whether some key is a field that only the main shape has.
pub fn any_main_only_key(members: &Vec<Member>) -> (r: bool)
    ensures
        r == has_main_only_key(members_view(members@)),
{
    let mut i: usize = 0;
    while i < members.len()
        invariant
            i <= members.len(),
            forall|k: int|
                0 <= k < i ==> !main_only_field(#[trigger] members_view(members@)[k].key),
        decreases members.len() - i,
    {
        if is_main_only_field(members[i].key.as_str()) {
            assert(main_only_field(members_view(members@)[i as int].key));
            return true;
        }
        i += 1;
    }
    false
}

/// Collects the keys that belong to neither shape.
pub fn collect_unmatched(members: &Vec<Member>) -> (r: Vec<String>)
    ensures
        texts_view(r@) == unmatched_keys(members_view(members@)),
{
    let ghost obj = members_view(members@);
    let mut out: Vec<String> = Vec::new();
    let mut i: usize = 0;
    assert(obj.take(0) =~= Seq::empty());
    while i < members.len()
        invariant
            i <= members.len(),
            obj == members_view(members@),
            texts_view(out@) == unmatched_keys(obj.take(i as int)),
        decreases members.len() - i,
    {
        proof {
            assert(obj.take(i + 1).drop_last() =~= obj.take(i as int));
            assert(obj.take(i + 1).last() == obj[i as int]);
        }
        if !is_main_field(members[i].key.as_str()) {
            let ghost before = out@;
            out.push(members[i].key.clone());
            assert(texts_view(out@) =~= texts_view(before).push(obj[i as int].key));
        }
        i += 1;
    }
    assert(obj.take(members.len() as int) =~= obj);
    out
}

// ---------------------------------------------------------------------------
// The legacy shape
// ---------------------------------------------------------------------------
/// Whether `obj` has the legacy shape: no key outside the shape, and every
/// field of the kind the shape calls for.
pub open spec fn legacy_shape(obj: Seq<MemberValue>) -> bool {
    &&& legacy_keys_only(obj)
    &&& optional_text(obj, "url"@) is Some
    &&& required_text(obj, "template"@) is Some
    &&& required_text(obj, "engine"@) is Some
    &&& optional_texts(obj, "parsed_url"@) is Some
    &&& required_text(obj, "title"@) is Some
    &&& required_text(obj, "content"@) is Some
    &&& required_text(obj, "img_src"@) is Some
    &&& required_text(obj, "thumbnail"@) is Some
    &&& required_priority(obj, "priority"@) is Some
    &&& listed_texts(obj, "engines"@) is Some
    &&& listed_positions(obj, "positions"@) is Some
    &&& required_number(obj, "score"@) is Some
    &&& required_text(obj, "category"@) is Some
    &&& optional_date(obj, "publishedDate"@) is Some
    &&& optional_text(obj, "pubdate"@) is Some
}

/// What `obj` says when it is read field by field as a legacy result.
pub open spec fn legacy_value(obj: Seq<MemberValue>) -> LegacyModel {
    LegacyModel {
        url: optional_text(obj, "url"@)->0,
        template: required_text(obj, "template"@)->0,
        engine: required_text(obj, "engine"@)->0,
        parsed_url: optional_texts(obj, "parsed_url"@)->0,
        title: required_text(obj, "title"@)->0,
        content: required_text(obj, "content"@)->0,
        img_src: required_text(obj, "img_src"@)->0,
        thumbnail: required_text(obj, "thumbnail"@)->0,
        priority: required_priority(obj, "priority"@)->0,
        engines: listed_texts(obj, "engines"@)->0,
        positions: listed_positions(obj, "positions"@)->0,
        score: required_number(obj, "score"@)->0,
        category: required_text(obj, "category"@)->0,
        published_date: optional_date(obj, "publishedDate"@)->0,
        pubdate: optional_text(obj, "pubdate"@)->0,
    }
}

/// The legacy result that `obj` is, if it has the legacy shape.
pub open spec fn legacy_model(obj: Seq<MemberValue>) -> Option<LegacyModel> {
    if legacy_shape(obj) {
        Some(legacy_value(obj))
    } else {
        None
    }
}

/// Decodes an object strictly against the legacy shape.
pub fn decode_legacy(members: &Vec<Member>) -> (r: Option<LegacySearchResult>)
    ensures
        match r {
            Some(result) => legacy_model(members_view(members@)) == Some(result@),
            None => legacy_model(members_view(members@)) is None,
        },
{
    if !only_legacy_keys(members) {
        return None;
    }
    let url = match get_optional_text(members, "url") {
        Some(x) => x,
        None => { return None; },
    };
    let template = match get_text(members, "template") {
        Some(x) => x,
        None => { return None; },
    };
    let engine = match get_text(members, "engine") {
        Some(x) => x,
        None => { return None; },
    };
    let parsed_url = match get_optional_texts(members, "parsed_url") {
        Some(x) => x,
        None => { return None; },
    };
    let title = match get_text(members, "title") {
        Some(x) => x,
        None => { return None; },
    };
    let content = match get_text(members, "content") {
        Some(x) => x,
        None => { return None; },
    };
    let img_src = match get_text(members, "img_src") {
        Some(x) => x,
        None => { return None; },
    };
    let thumbnail = match get_text(members, "thumbnail") {
        Some(x) => x,
        None => { return None; },
    };
    let priority = match get_priority(members, "priority") {
        Some(x) => x,
        None => { return None; },
    };
    let engines = match get_listed_engines(members, "engines") {
        Some(x) => x,
        None => { return None; },
    };
    let positions = match get_listed_positions(members, "positions") {
        Some(x) => x,
        None => { return None; },
    };
    let score = match get_number(members, "score") {
        Some(x) => x,
        None => { return None; },
    };
    let category = match get_text(members, "category") {
        Some(x) => x,
        None => { return None; },
    };
    let published_date = match get_optional_date(members, "publishedDate") {
        Some(x) => x,
        None => { return None; },
    };
    let pubdate = match get_optional_text(members, "pubdate") {
        Some(x) => x,
        None => { return None; },
    };
    Some(
        LegacySearchResult {
            url,
            template,
            engine,
            parsed_url,
            title,
            content,
            img_src,
            thumbnail,
            priority,
            engines,
            positions,
            score,
            category,
            published_date,
            pubdate,
        },
    )
}

// ---------------------------------------------------------------------------
// The main shape
// ---------------------------------------------------------------------------
/// Whether `obj` has the main shape: no key outside the shape, and every
/// field of the kind the shape calls for.
pub open spec fn main_shape(obj: Seq<MemberValue>) -> bool {
    &&& main_keys_only(obj)
    &&& optional_text(obj, "url"@) is Some
    &&& optional_text(obj, "engine"@) is Some
    &&& optional_texts(obj, "parsed_url"@) is Some
    &&& required_text(obj, "template"@) is Some
    &&& required_text(obj, "title"@) is Some
    &&& required_text(obj, "content"@) is Some
    &&& required_text(obj, "img_src"@) is Some
    &&& required_text(obj, "iframe_src"@) is Some
    &&& required_text(obj, "audio_src"@) is Some
    &&& required_text(obj, "thumbnail"@) is Some
    &&& optional_date(obj, "publishedDate"@) is Some
    &&& optional_text(obj, "pubdate"@) is Some
    &&& optional_length(obj, "length"@) is Some
    &&& required_text(obj, "views"@) is Some
    &&& required_text(obj, "author"@) is Some
    &&& required_text(obj, "metadata"@) is Some
    &&& required_priority(obj, "priority"@) is Some
    &&& listed_texts(obj, "engines"@) is Some
    &&& required_flag(obj, "open_group"@) is Some
    &&& required_flag(obj, "close_group"@) is Some
    &&& listed_positions(obj, "positions"@) is Some
    &&& required_number(obj, "score"@) is Some
    &&& required_text(obj, "category"@) is Some
}

/// What `obj` says when it is read field by field as a main result.
pub open spec fn main_value(obj: Seq<MemberValue>) -> MainModel {
    MainModel {
        url: optional_text(obj, "url"@)->0,
        engine: optional_text(obj, "engine"@)->0,
        parsed_url: optional_texts(obj, "parsed_url"@)->0,
        template: required_text(obj, "template"@)->0,
        title: required_text(obj, "title"@)->0,
        content: required_text(obj, "content"@)->0,
        img_src: required_text(obj, "img_src"@)->0,
        iframe_src: required_text(obj, "iframe_src"@)->0,
        audio_src: required_text(obj, "audio_src"@)->0,
        thumbnail: required_text(obj, "thumbnail"@)->0,
        published_date: optional_date(obj, "publishedDate"@)->0,
        pubdate: optional_text(obj, "pubdate"@)->0,
        length: optional_length(obj, "length"@)->0,
        views: required_text(obj, "views"@)->0,
        author: required_text(obj, "author"@)->0,
        metadata: required_text(obj, "metadata"@)->0,
        priority: required_priority(obj, "priority"@)->0,
        engines: listed_texts(obj, "engines"@)->0,
        open_group: required_flag(obj, "open_group"@)->0,
        close_group: required_flag(obj, "close_group"@)->0,
        positions: listed_positions(obj, "positions"@)->0,
        score: required_number(obj, "score"@)->0,
        category: required_text(obj, "category"@)->0,
    }
}

/// The main result that `obj` is, if it has the main shape.
pub open spec fn main_model(obj: Seq<MemberValue>) -> Option<MainModel> {
    if main_shape(obj) {
        Some(main_value(obj))
    } else {
        None
    }
}

/// Decodes an object strictly against the main shape.
pub fn decode_main(members: &Vec<Member>) -> (r: Option<MainSearchResult>)
    ensures
        match r {
            Some(result) => main_model(members_view(members@)) == Some(result@),
            None => main_model(members_view(members@)) is None,
        },
{
    if !only_main_keys(members) {
        return None;
    }
    let url = match get_optional_text(members, "url") {
        Some(x) => x,
        None => { return None; },
    };
    let engine = match get_optional_text(members, "engine") {
        Some(x) => x,
        None => { return None; },
    };
    let parsed_url = match get_optional_texts(members, "parsed_url") {
        Some(x) => x,
        None => { return None; },
    };
    let template = match get_text(members, "template") {
        Some(x) => x,
        None => { return None; },
    };
    let title = match get_text(members, "title") {
        Some(x) => x,
        None => { return None; },
    };
    let content = match get_text(members, "content") {
        Some(x) => x,
        None => { return None; },
    };
    let img_src = match get_text(members, "img_src") {
        Some(x) => x,
        None => { return None; },
    };
    let iframe_src = match get_text(members, "iframe_src") {
        Some(x) => x,
        None => { return None; },
    };
    let audio_src = match get_text(members, "audio_src") {
        Some(x) => x,
        None => { return None; },
    };
    let thumbnail = match get_text(members, "thumbnail") {
        Some(x) => x,
        None => { return None; },
    };
    let published_date = match get_optional_date(members, "publishedDate") {
        Some(x) => x,
        None => { return None; },
    };
    let pubdate = match get_optional_text(members, "pubdate") {
        Some(x) => x,
        None => { return None; },
    };
    let length = match get_optional_length(members, "length") {
        Some(x) => x,
        None => { return None; },
    };
    let views = match get_text(members, "views") {
        Some(x) => x,
        None => { return None; },
    };
    let author = match get_text(members, "author") {
        Some(x) => x,
        None => { return None; },
    };
    let metadata = match get_text(members, "metadata") {
        Some(x) => x,
        None => { return None; },
    };
    let priority = match get_priority(members, "priority") {
        Some(x) => x,
        None => { return None; },
    };
    let engines = match get_listed_engines(members, "engines") {
        Some(x) => x,
        None => { return None; },
    };
    let open_group = match get_flag(members, "open_group") {
        Some(x) => x,
        None => { return None; },
    };
    let close_group = match get_flag(members, "close_group") {
        Some(x) => x,
        None => { return None; },
    };
    let positions = match get_listed_positions(members, "positions") {
        Some(x) => x,
        None => { return None; },
    };
    let score = match get_number(members, "score") {
        Some(x) => x,
        None => { return None; },
    };
    let category = match get_text(members, "category") {
        Some(x) => x,
        None => { return None; },
    };
    Some(
        MainSearchResult {
            url,
            engine,
            parsed_url,
            template,
            title,
            content,
            img_src,
            iframe_src,
            audio_src,
            thumbnail,
            published_date,
            pubdate,
            length,
            views,
            author,
            metadata,
            priority,
            engines,
            open_group,
            close_group,
            positions,
            score,
            category,
        },
    )
}

// ---------------------------------------------------------------------------
// Telling the shapes apart
// ---------------------------------------------------------------------------
/// The result that `element` is: a legacy result if it has the legacy
/// shape, else a main result if it has the main shape, else none.
pub open spec fn result_model(element: JsonValue) -> Option<SearchResultModel> {
    match element {
        JsonValue::Object(obj) => match legacy_model(obj) {
            Some(legacy) => Some(SearchResultModel::LegacyResult(legacy)),
            None => match main_model(obj) {
                Some(main) => Some(SearchResultModel::MainResult(main)),
                None => None,
            },
        },
        _ => None,
    }
}

/// In what way an element fails to be a result.
#[derive(Debug, Clone, Copy, PartialEq, Eq, Structural)]
pub enum ShapeDifference {
    /// The element is not a JSON object.
    NotAnObject,
    /// The element has fields that neither shape knows.
    UnknownFields,
    /// Every field is known and one of them belongs to the main shape only,
    /// but a field of the main shape is missing or of the wrong kind.
    IncompleteMain,
    /// Every field belongs to the legacy shape, but one of its fields is
    /// missing or of the wrong kind.
    IncompleteLegacy,
}

/// Why an element is no result: how it differs from the shapes, and the
/// fields that neither shape accounts for.
#[derive(Debug, Clone)]
pub struct Mismatch {
    pub difference: ShapeDifference,
    pub unmatched: Vec<String>,
}

/// The model of a [`Mismatch`].
pub struct MismatchModel {
    pub difference: ShapeDifference,
    pub unmatched: Seq<Seq<char>>,
}

impl View for Mismatch {
    type V = MismatchModel;

    open spec fn view(&self) -> MismatchModel {
        MismatchModel { difference: self.difference, unmatched: texts_view(self.unmatched@) }
    }
}

/// How an object that is no result differs from the shapes.
pub open spec fn object_difference(obj: Seq<MemberValue>) -> ShapeDifference {
    if !main_keys_only(obj) {
        ShapeDifference::UnknownFields
    } else if has_main_only_key(obj) {
        ShapeDifference::IncompleteMain
    } else {
        ShapeDifference::IncompleteLegacy
    }
}

/// What is reported of an element that is no result.
pub open spec fn mismatch_model(element: JsonValue) -> MismatchModel {
    match element {
        JsonValue::Object(obj) => MismatchModel {
            difference: object_difference(obj),
            unmatched: unmatched_keys(obj),
        },
        _ => MismatchModel { difference: ShapeDifference::NotAnObject, unmatched: Seq::empty() },
    }
}

/// Describes an element that fits neither shape.
pub fn describe_mismatch(element: &Json) -> (r: Mismatch)
    ensures
        r@ == mismatch_model(element@),
{
    match element {
        Json::Object(members) => {
            proof {
                lemma_object_view(*element);
            }
            let unmatched = collect_unmatched(members);
            let difference = if !only_main_keys(members) {
                ShapeDifference::UnknownFields
            } else if any_main_only_key(members) {
                ShapeDifference::IncompleteMain
            } else {
                ShapeDifference::IncompleteLegacy
            };
            Mismatch { difference, unmatched }
        },
        _ => {
            let unmatched: Vec<String> = Vec::new();
            assert(texts_view(unmatched@) =~= Seq::empty());
            Mismatch { difference: ShapeDifference::NotAnObject, unmatched }
        },
    }
}

/// Decodes one element of `results`: as a legacy result if it fits that
/// shape, else as a main result if it fits that one; an element that fits
/// neither is reported with what sets it apart.
pub fn decode_result(element: &Json) -> (r: Result<SearchResult, Mismatch>)
    ensures
        match r {
            Ok(result) => result_model(element@) == Some(result@),
            Err(mismatch) => result_model(element@) is None && mismatch@ == mismatch_model(
                element@,
            ),
        },
{
    match element {
        Json::Object(members) => {
            proof {
                lemma_object_view(*element);
            }
            match decode_legacy(members) {
                Some(legacy) => Ok(SearchResult::LegacyResult(legacy)),
                None => match decode_main(members) {
                    Some(main) => Ok(SearchResult::MainResult(main)),
                    None => Err(describe_mismatch(element)),
                },
            }
        },
        _ => Err(describe_mismatch(element)),
    }
}

// ---------------------------------------------------------------------------
// Laws of the two shapes
// ---------------------------------------------------------------------------
/// No field name belongs both to the legacy shape and to the fields that
/// only the main shape has.
pub proof fn lemma_field_sets_disjoint(name: Seq<char>)
    ensures
        !(legacy_field(name) && main_only_field(name)),
{
    reveal_strlit("url");
    reveal_strlit("template");
    reveal_strlit("engine");
    reveal_strlit("parsed_url");
    reveal_strlit("title");
    reveal_strlit("content");
    reveal_strlit("img_src");
    reveal_strlit("thumbnail");
    reveal_strlit("priority");
    reveal_strlit("engines");
    reveal_strlit("positions");
    reveal_strlit("score");
    reveal_strlit("category");
    reveal_strlit("publishedDate");
    reveal_strlit("pubdate");
    reveal_strlit("iframe_src");
    reveal_strlit("audio_src");
    reveal_strlit("length");
    reveal_strlit("views");
    reveal_strlit("author");
    reveal_strlit("metadata");
    reveal_strlit("open_group");
    reveal_strlit("close_group");
    if legacy_field(name) && main_only_field(name) {
        if name.len() == 5 {
            // title, score / views
            assert(name[0] == 'v');
        } else if name.len() == 6 {
            // engine / length, author
            assert(name[0] == 'e');
        } else if name.len() == 8 {
            // template, priority, category / metadata
            assert(name[0] == 'm');
        } else if name.len() == 9 {
            // thumbnail, positions / audio_src
            assert(name[0] == 'a');
        } else if name.len() == 10 {
            // parsed_url / iframe_src, open_group
            assert(name[0] == 'p');
        }
    }
}

/// An object that carries a field of the main shape alone never has the
/// legacy shape, wherever in the object that field stands. It is a main
/// result exactly if it has the main shape, and no result otherwise.
pub proof fn lemma_main_only_field_excludes_legacy(obj: Seq<MemberValue>)
    requires
        has_main_only_key(obj),
    ensures
        legacy_model(obj) is None,
        !(result_model(JsonValue::Object(obj)) matches Some(SearchResultModel::LegacyResult(_))),
        main_shape(obj) ==> result_model(JsonValue::Object(obj)) == Some(
            SearchResultModel::MainResult(main_value(obj)),
        ),
        !main_shape(obj) ==> result_model(JsonValue::Object(obj)) is None,
{
    let i = choose|i: int| #![trigger obj[i]] 0 <= i < obj.len() && main_only_field(obj[i].key);
    lemma_field_sets_disjoint(obj[i].key);
    assert(!legacy_field(obj[i].key));
}

/// An object whose fields all belong to the legacy shape never has the main
/// shape. It is a legacy result exactly if it has the legacy shape, and no
/// result otherwise.
pub proof fn lemma_legacy_fields_exclude_main(obj: Seq<MemberValue>)
    requires
        legacy_keys_only(obj),
    ensures
        main_model(obj) is None,
        !(result_model(JsonValue::Object(obj)) matches Some(SearchResultModel::MainResult(_))),
        legacy_shape(obj) ==> result_model(JsonValue::Object(obj)) == Some(
            SearchResultModel::LegacyResult(legacy_value(obj)),
        ),
        !legacy_shape(obj) ==> result_model(JsonValue::Object(obj)) is None,
{
    if required_text(obj, "iframe_src"@) is Some {
        lemma_lookup_has_key(obj, "iframe_src"@);
        let i = choose|i: int| 0 <= i < obj.len() && #[trigger] obj[i].key == "iframe_src"@;
        assert(legacy_field(obj[i].key));
        lemma_field_sets_disjoint(obj[i].key);
    }
}

/// No object has both shapes: a result is of exactly one.
pub proof fn lemma_shapes_exclusive(obj: Seq<MemberValue>)
    ensures
        !(legacy_shape(obj) && main_shape(obj)),
{
    if legacy_shape(obj) {
        lemma_legacy_fields_exclude_main(obj);
    }
}

/// The order of an object's fields does not count: two objects that hold
/// the same entries, each key once, are the same result or both none.
pub proof fn lemma_result_ignores_field_order(a: Seq<MemberValue>, b: Seq<MemberValue>)
    requires
        distinct_keys(a),
        distinct_keys(b),
        same_entries(a, b),
    ensures
        legacy_model(a) == legacy_model(b),
        main_model(a) == main_model(b),
        result_model(JsonValue::Object(a)) == result_model(JsonValue::Object(b)),
{
    assert forall|name: Seq<char>| lookup(a, name) == lookup(b, name) by {
        lemma_lookup_ignores_order(a, b, name);
    }
    lemma_same_keys(a, b);
    lemma_same_keys(b, a);
}

/// Every key of an object is a key of each object that holds the same
/// entries.
proof fn lemma_same_keys(a: Seq<MemberValue>, b: Seq<MemberValue>)
    requires
        same_entries(a, b),
    ensures
        legacy_keys_only(b) ==> legacy_keys_only(a),
        main_keys_only(b) ==> main_keys_only(a),
{
    assert forall|i: int| #![trigger a[i]] 0 <= i < a.len() implies exists|j: int|
        0 <= j < b.len() && b[j] == a[i] by {
        assert(a.contains(a[i]));
        assert(b.contains(a[i]));
    }
    if legacy_keys_only(b) {
        assert forall|i: int| #![trigger a[i]] 0 <= i < a.len() implies legacy_field(a[i].key) by {
            let j = choose|j: int| 0 <= j < b.len() && b[j] == a[i];
            assert(legacy_field(b[j].key));
        }
    }
    if main_keys_only(b) {
        assert forall|i: int| #![trigger a[i]] 0 <= i < a.len() implies main_field(a[i].key) by {
            let j = choose|j: int| 0 <= j < b.len() && b[j] == a[i];
            assert(main_field(b[j].key));
        }
    }
}

/// The keys reported as unmatched are the keys that neither shape knows.
pub proof fn lemma_unmatched_keys(obj: Seq<MemberValue>, name: Seq<char>)
    ensures
        unmatched_keys(obj).contains(name) <==> !main_field(name) && has_key(obj, name),
    decreases obj.len(),
{
    if obj.len() == 0 {
    } else {
        let rest = obj.drop_last();
        lemma_unmatched_keys(rest, name);
        if has_key(rest, name) {
            let i = choose|i: int| 0 <= i < rest.len() && #[trigger] rest[i].key == name;
            assert(obj[i].key == name);
        }
        if has_key(obj, name) {
            let i = choose|i: int| 0 <= i < obj.len() && #[trigger] obj[i].key == name;
            if i < obj.len() - 1 {
                assert(rest[i].key == name);
            }
        }
        if !main_field(obj.last().key) {
            let before = unmatched_keys(rest);
            let after = before.push(obj.last().key);
            assert(after[before.len() as int] == obj.last().key);
            if before.contains(name) {
                let j = choose|j: int| 0 <= j < before.len() && before[j] == name;
                assert(after[j] == name);
            }
        }
    }
}

/// An object with a field that neither shape knows is no result: it is
/// reported as a mismatch that names the field.
pub proof fn lemma_unknown_field_is_mismatch(obj: Seq<MemberValue>, i: int)
    requires
        0 <= i < obj.len(),
        !main_field(obj[i].key),
    ensures
        result_model(JsonValue::Object(obj)) is None,
        mismatch_model(JsonValue::Object(obj)).difference == ShapeDifference::UnknownFields,
        mismatch_model(JsonValue::Object(obj)).unmatched.contains(obj[i].key),
{
    lemma_unmatched_keys(obj, obj[i].key);
    assert(has_key(obj, obj[i].key));
}

} // verus!
