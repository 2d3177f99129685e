//! What the backend answers: the response, its results in their two shapes,
//! and the smaller records around them.
//!
//! Each type comes with a model, a value made of sequences and numbers only,
//! and a view onto it. The decoders in this crate are stated over the models.

use crate::fields::optional_maps_view;
use crate::json::{Member, MemberValue, Number, NumberValue};
use crate::small::{engine_items, position_items, EngineList, PositionList};
use crate::text::{optional_text_view, optional_texts_view, texts_view};
use crate::time::{DateTime, Duration};
use vstd::prelude::*;

verus! {

/// How a result is to be ranked against its neighbours.
#[derive(Debug, Clone, Copy, PartialEq, Eq, Structural)]
pub enum PriorityType {
    /// No preference; written as the empty text.
    Normal,
    /// Written as `high`.
    High,
    /// Written as `low`.
    Low,
}

/// What every answer of the backend has in common: where it points, which
/// engine gave it, and the parts of its address.
#[derive(Debug, Clone)]
pub struct Result {
    pub url: Option<String>,
    pub engine: Option<String>,
    pub parsed_url: Option<Vec<String>>,
}

/// The model of a [`Result`].
pub struct ResultModel {
    pub url: Option<Seq<char>>,
    pub engine: Option<Seq<char>>,
    pub parsed_url: Option<Seq<Seq<char>>>,
}

impl View for Result {
    type V = ResultModel;

    open spec fn view(&self) -> ResultModel {
        ResultModel {
            url: optional_text_view(self.url),
            engine: optional_text_view(self.engine),
            parsed_url: optional_texts_view(self.parsed_url),
        }
    }
}

/// The models of a group of answers, in order.
pub open spec fn answer_set_view(set: Seq<Result>) -> Seq<ResultModel> {
    Seq::new(set.len(), |i: int| set[i]@)
}

/// The models of the groups of answers, in order.
pub open spec fn answers_view(sets: Seq<Vec<Result>>) -> Seq<Seq<ResultModel>> {
    Seq::new(sets.len(), |i: int| answer_set_view(sets[i]@))
}

/// An engine that did not answer, with what it said instead.
#[derive(Debug, Clone)]
pub struct EngineError {
    pub engine: String,
    pub error_msg: String,
}

/// The model of an [`EngineError`].
pub struct EngineErrorModel {
    pub engine: Seq<char>,
    pub error_msg: Seq<char>,
}

impl View for EngineError {
    type V = EngineErrorModel;

    open spec fn view(&self) -> EngineErrorModel {
        EngineErrorModel { engine: self.engine@, error_msg: self.error_msg@ }
    }
}

impl From<(String, String)> for EngineError {
    /// The error made of an engine's name and its message.
    fn from(pair: (String, String)) -> (error: EngineError) {
        EngineError { engine: pair.0, error_msg: pair.1 }
    }
}

impl vstd::std_specs::convert::FromSpecImpl<(String, String)> for EngineError {
    open spec fn obeys_from_spec() -> bool {
        true
    }

    open spec fn from_spec(pair: (String, String)) -> EngineError {
        EngineError { engine: pair.0, error_msg: pair.1 }
    }
}

/// The models of a run of engine errors, in order.
pub open spec fn engine_errors_view(errors: Seq<EngineError>) -> Seq<EngineErrorModel> {
    Seq::new(errors.len(), |i: int| errors[i]@)
}

/// A result in the narrower shape of older backends.
#[derive(Debug, Clone)]
pub struct LegacySearchResult {
    pub url: Option<String>,
    pub template: String,
    pub engine: String,
    pub parsed_url: Option<Vec<String>>,
    pub title: String,
    pub content: String,
    pub img_src: String,
    pub thumbnail: String,
    pub priority: PriorityType,
    pub engines: EngineList,
    pub positions: PositionList,
    pub score: Number,
    pub category: String,
    pub published_date: Option<DateTime>,
    pub pubdate: Option<String>,
}

/// The model of a [`LegacySearchResult`].
pub struct LegacyModel {
    pub url: Option<Seq<char>>,
    pub template: Seq<char>,
    pub engine: Seq<char>,
    pub parsed_url: Option<Seq<Seq<char>>>,
    pub title: Seq<char>,
    pub content: Seq<char>,
    pub img_src: Seq<char>,
    pub thumbnail: Seq<char>,
    pub priority: PriorityType,
    pub engines: Seq<Seq<char>>,
    pub positions: Seq<i32>,
    pub score: NumberValue,
    pub category: Seq<char>,
    pub published_date: Option<DateTime>,
    pub pubdate: Option<Seq<char>>,
}

impl View for LegacySearchResult {
    type V = LegacyModel;

    open spec fn view(&self) -> LegacyModel {
        LegacyModel {
            url: optional_text_view(self.url),
            template: self.template@,
            engine: self.engine@,
            parsed_url: optional_texts_view(self.parsed_url),
            title: self.title@,
            content: self.content@,
            img_src: self.img_src@,
            thumbnail: self.thumbnail@,
            priority: self.priority,
            engines: engine_items(self.engines),
            positions: position_items(self.positions),
            score: self.score@,
            category: self.category@,
            published_date: self.published_date,
            pubdate: optional_text_view(self.pubdate),
        }
    }
}

/// A result in the wider shape of current backends: everything a legacy
/// result has (but for an engine that may be absent), and the media fields,
/// the grouping flags and the further descriptions.
#[derive(Debug, Clone)]
pub struct MainSearchResult {
    pub url: Option<String>,
    pub engine: Option<String>,
    pub parsed_url: Option<Vec<String>>,
    pub template: String,
    pub title: String,
    pub content: String,
    pub img_src: String,
    pub iframe_src: String,
    pub audio_src: String,
    pub thumbnail: String,
    pub published_date: Option<DateTime>,
    /// The backend keeps this field for its templates only; prefer
    /// `published_date`.
    pub pubdate: Option<String>,
    pub length: Option<Duration>,
    pub views: String,
    pub author: String,
    pub metadata: String,
    pub priority: PriorityType,
    pub engines: EngineList,
    pub open_group: bool,
    pub close_group: bool,
    pub positions: PositionList,
    pub score: Number,
    pub category: String,
}

/// The model of a [`MainSearchResult`].
pub struct MainModel {
    pub url: Option<Seq<char>>,
    pub engine: Option<Seq<char>>,
    pub parsed_url: Option<Seq<Seq<char>>>,
    pub template: Seq<char>,
    pub title: Seq<char>,
    pub content: Seq<char>,
    pub img_src: Seq<char>,
    pub iframe_src: Seq<char>,
    pub audio_src: Seq<char>,
    pub thumbnail: Seq<char>,
    pub published_date: Option<DateTime>,
    pub pubdate: Option<Seq<char>>,
    pub length: Option<Duration>,
    pub views: Seq<char>,
    pub author: Seq<char>,
    pub metadata: Seq<char>,
    pub priority: PriorityType,
    pub engines: Seq<Seq<char>>,
    pub open_group: bool,
    pub close_group: bool,
    pub positions: Seq<i32>,
    pub score: NumberValue,
    pub category: Seq<char>,
}

impl View for MainSearchResult {
    type V = MainModel;

    open spec fn view(&self) -> MainModel {
        MainModel {
            url: optional_text_view(self.url),
            engine: optional_text_view(self.engine),
            parsed_url: optional_texts_view(self.parsed_url),
            template: self.template@,
            title: self.title@,
            content: self.content@,
            img_src: self.img_src@,
            iframe_src: self.iframe_src@,
            audio_src: self.audio_src@,
            thumbnail: self.thumbnail@,
            published_date: self.published_date,
            pubdate: optional_text_view(self.pubdate),
            length: self.length,
            views: self.views@,
            author: self.author@,
            metadata: self.metadata@,
            priority: self.priority,
            engines: engine_items(self.engines),
            open_group: self.open_group,
            close_group: self.close_group,
            positions: position_items(self.positions),
            score: self.score@,
            category: self.category@,
        }
    }
}

/// One search result, in exactly one of the two shapes.
#[derive(Debug, Clone)]
pub enum SearchResult {
    /// A result in the legacy shape.
    LegacyResult(LegacySearchResult),
    /// A result in the main shape.
    MainResult(MainSearchResult),
}

/// The model of a [`SearchResult`].
pub enum SearchResultModel {
    LegacyResult(LegacyModel),
    MainResult(MainModel),
}

impl View for SearchResult {
    type V = SearchResultModel;

    open spec fn view(&self) -> SearchResultModel {
        match self {
            SearchResult::LegacyResult(r) => SearchResultModel::LegacyResult(r@),
            SearchResult::MainResult(r) => SearchResultModel::MainResult(r@),
        }
    }
}

/// The models of a run of results, in order.
pub open spec fn results_view(results: Seq<SearchResult>) -> Seq<SearchResultModel> {
    Seq::new(results.len(), |i: int| results[i]@)
}

/// A box of facts about one entity, shown beside the results. Its `urls` and
/// `attributes` are lists of objects whose keys the engines choose freely.
#[derive(Debug, Clone)]
pub struct Infobox {
    pub infobox: String,
    pub id: String,
    pub content: String,
    pub urls: Option<Vec<Vec<Member>>>,
    pub attributes: Option<Vec<Vec<Member>>>,
    pub engine: String,
    pub url: Option<String>,
    pub img_src: String,
    pub template: String,
    pub parsed_url: Option<Vec<String>>,
    pub title: String,
    pub thumbnail: String,
    pub priority: PriorityType,
    pub engines: EngineList,
    pub positions: String,
    pub score: Number,
    pub category: String,
    pub published_date: Option<DateTime>,
    pub pubdate: Option<String>,
}

/// The model of an [`Infobox`].
pub struct InfoboxModel {
    pub infobox: Seq<char>,
    pub id: Seq<char>,
    pub content: Seq<char>,
    pub urls: Option<Seq<Seq<MemberValue>>>,
    pub attributes: Option<Seq<Seq<MemberValue>>>,
    pub engine: Seq<char>,
    pub url: Option<Seq<char>>,
    pub img_src: Seq<char>,
    pub template: Seq<char>,
    pub parsed_url: Option<Seq<Seq<char>>>,
    pub title: Seq<char>,
    pub thumbnail: Seq<char>,
    pub priority: PriorityType,
    pub engines: Seq<Seq<char>>,
    pub positions: Seq<char>,
    pub score: NumberValue,
    pub category: Seq<char>,
    pub published_date: Option<DateTime>,
    pub pubdate: Option<Seq<char>>,
}

impl View for Infobox {
    type V = InfoboxModel;

    open spec fn view(&self) -> InfoboxModel {
        InfoboxModel {
            infobox: self.infobox@,
            id: self.id@,
            content: self.content@,
            urls: optional_maps_view(self.urls),
            attributes: optional_maps_view(self.attributes),
            engine: self.engine@,
            url: optional_text_view(self.url),
            img_src: self.img_src@,
            template: self.template@,
            parsed_url: optional_texts_view(self.parsed_url),
            title: self.title@,
            thumbnail: self.thumbnail@,
            priority: self.priority,
            engines: engine_items(self.engines),
            positions: self.positions@,
            score: self.score@,
            category: self.category@,
            published_date: self.published_date,
            pubdate: optional_text_view(self.pubdate),
        }
    }
}

/// The models of a run of infoboxes, in order.
pub open spec fn infoboxes_view(boxes: Seq<Infobox>) -> Seq<InfoboxModel> {
    Seq::new(boxes.len(), |i: int| boxes[i]@)
}

/// The whole answer to one search request.
#[derive(Debug, Clone)]
pub struct SearchResponse {
    /// The query as the backend understood it.
    pub query: String,
    /// The backend's estimate of how many results exist; it need not be the
    /// length of `results`.
    pub number_of_results: i64,
    pub results: Vec<SearchResult>,
    /// Instant answers, in groups.
    pub answers: Vec<Vec<Result>>,
    pub corrections: Vec<String>,
    pub infoboxes: Vec<Infobox>,
    pub suggestions: Vec<String>,
    pub unresponsive_engines: Vec<EngineError>,
}

/// The model of a [`SearchResponse`].
pub struct ResponseModel {
    pub query: Seq<char>,
    pub number_of_results: i64,
    pub results: Seq<SearchResultModel>,
    pub answers: Seq<Seq<ResultModel>>,
    pub corrections: Seq<Seq<char>>,
    pub infoboxes: Seq<InfoboxModel>,
    pub suggestions: Seq<Seq<char>>,
    pub unresponsive_engines: Seq<EngineErrorModel>,
}

impl View for SearchResponse {
    type V = ResponseModel;

    open spec fn view(&self) -> ResponseModel {
        ResponseModel {
            query: self.query@,
            number_of_results: self.number_of_results,
            results: results_view(self.results@),
            answers: answers_view(self.answers@),
            corrections: texts_view(self.corrections@),
            infoboxes: infoboxes_view(self.infoboxes@),
            suggestions: texts_view(self.suggestions@),
            unresponsive_engines: engine_errors_view(self.unresponsive_engines@),
        }
    }
}

} // verus!
