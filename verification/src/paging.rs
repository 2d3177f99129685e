//! Gathering a wanted number of results over several pages.
//!
//! A run asks for one page at a time, starting at page 1, and decides from
//! what came back what to do next:
//!
//! * a page with results is added to what was gathered; the run is complete
//!   once that holds as many results as were wanted, and else goes on to the
//!   next page;
//! * an empty page is asked for again; the third empty answer in a row to
//!   the same page ends the run with what was gathered;
//! * an attempt that failed (the transport gave up, or what came back was
//!   not JSON) is as if it had not been made: the same page is asked for
//!   again, the count of empty answers stands, and there is no limit to how
//!   often this happens;
//! * a payload of a shape that this crate does not know ends the run with
//!   that error.
//!
//! The run itself sends nothing. [`Pagination::request`] gives the request
//! to send, [`Pagination::accept`] takes the outcome, and
//! [`Pagination::finish`] hands out the results. What the run does is the
//! spec function [`step`].

use crate::client::{
    request_model, with_page, ParamsModel, Request, SearchBuilder,
};
use crate::decode::{
    decode_response, decoded_view, payload_model, DecodeError, DecodeFault,
};
use crate::response::{
    results_view, ResponseModel, SearchResponse, SearchResult, SearchResultModel,
};
use vstd::prelude::*;

verus! {

/// Where a run stands.
#[derive(Debug, Clone, Copy, PartialEq, Eq, Structural)]
pub enum Phase {
    /// A page is wanted.
    Fetching,
    /// As many results as were wanted have been gathered.
    Complete,
    /// The backend has no more results: it answered one page three times
    /// in a row with nothing.
    Exhausted,
    /// A payload was of a shape that this crate does not know.
    Failed,
}

/// What came back from one attempt to fetch the page that a run asked for.
#[derive(Debug, Clone)]
pub enum PageEvent {
    /// The page was decoded; these are its results, possibly none.
    Results(Vec<SearchResult>),
    /// The attempt failed: no payload came back, or it was not JSON.
    Failed,
    /// The payload was JSON of a shape that this crate does not know.
    Mismatch(DecodeError),
}

/// The model of a [`PageEvent`].
pub enum EventModel {
    Results(Seq<SearchResultModel>),
    Failed,
    Mismatch(DecodeFault),
}

impl View for PageEvent {
    type V = EventModel;

    open spec fn view(&self) -> EventModel {
        match self {
            PageEvent::Results(results) => EventModel::Results(results_view(results@)),
            PageEvent::Failed => EventModel::Failed,
            PageEvent::Mismatch(error) => EventModel::Mismatch(error@),
        }
    }
}

/// The event that the outcome of decoding a page is.
pub open spec fn event_model(decoded: Result<ResponseModel, DecodeFault>) -> EventModel {
    match decoded {
        Ok(response) => EventModel::Results(response.results),
        Err(DecodeFault::Syntax) => EventModel::Failed,
        Err(fault) => EventModel::Mismatch(fault),
    }
}

/// Turns the outcome of decoding a page into the event for the run.
pub fn page_event(decoded: Result<SearchResponse, DecodeError>) -> (event: PageEvent)
    ensures
        event@ == event_model(decoded_view(decoded)),
{
    match decoded {
        Ok(response) => PageEvent::Results(response.results),
        Err(error) => if error.is_schema_mismatch() {
            PageEvent::Mismatch(error)
        } else {
            PageEvent::Failed
        },
    }
}

/// The model of a run.
pub struct PagingModel {
    /// Where requests go.
    pub endpoint: Seq<char>,
    /// The parameters of the request for the current page.
    pub params: ParamsModel,
    /// How many results are wanted.
    pub num: nat,
    /// How many empty answers in a row the current page has had.
    pub empties: nat,
    /// The results gathered so far, page after page.
    pub results: Seq<SearchResultModel>,
    pub phase: Phase,
    /// The error that ended the run, where one did.
    pub error: Option<DecodeFault>,
}

impl PagingModel {
    /// The number of the current page.
    pub open spec fn page(self) -> u64 {
        self.params.pageno->0
    }

    /// What holds of every run: pages are counted from 1 and every page
    /// before the current one gave at least one result; a run that still
    /// fetches, or that ended for want of results or on an error, has fewer
    /// results than were wanted, and a complete one has enough.
    pub open spec fn sound(self) -> bool {
        &&& self.params.pageno is Some
        &&& 1 <= self.page() <= self.results.len() + 1
        &&& self.num <= usize::MAX
        &&& self.phase == Phase::Fetching ==> self.results.len() < self.num && self.empties <= 2
        &&& self.phase == Phase::Complete ==> self.results.len() >= self.num
        &&& self.phase == Phase::Exhausted ==> self.results.len() < self.num
        &&& self.phase == Phase::Failed ==> self.results.len() < self.num
        &&& self.phase == Phase::Failed <==> self.error is Some
    }

    /// The results that the run hands out: what was gathered, cut off after
    /// the wanted number.
    pub open spec fn outcome(self) -> Seq<SearchResultModel> {
        if self.results.len() > self.num {
            self.results.take(self.num as int)
        } else {
            self.results
        }
    }
}

/// The run at its start: page 1 is wanted, unless no result is.
pub open spec fn start_model(endpoint: Seq<char>, params: ParamsModel, num: nat) -> PagingModel {
    PagingModel {
        endpoint,
        params: with_page(params, 1),
        num,
        empties: 0,
        results: Seq::empty(),
        phase: if num == 0 {
            Phase::Complete
        } else {
            Phase::Fetching
        },
        error: None,
    }
}

/// The run after it has taken `event` as the answer to the request for its
/// current page. A run that no longer fetches takes no notice.
pub open spec fn step(s: PagingModel, event: EventModel) -> PagingModel {
    if s.phase != Phase::Fetching {
        s
    } else {
        match event {
            EventModel::Failed => s,
            EventModel::Mismatch(fault) => PagingModel {
                phase: Phase::Failed,
                error: Some(fault),
                ..s
            },
            EventModel::Results(page) => if page.len() == 0 {
                if s.empties >= 2 {
                    PagingModel { phase: Phase::Exhausted, empties: s.empties + 1, ..s }
                } else {
                    PagingModel { empties: s.empties + 1, ..s }
                }
            } else if s.results.len() + page.len() >= s.num {
                PagingModel { results: s.results + page, phase: Phase::Complete, empties: 0, ..s }
            } else {
                PagingModel {
                    results: s.results + page,
                    params: with_page(s.params, (s.page() + 1) as u64),
                    empties: 0,
                    ..s
                }
            },
        }
    }
}

/// A run over the pages of one search.
#[derive(Debug)]
pub struct Pagination<'a> {
    builder: SearchBuilder<'a>,
    num: usize,
    empties: u8,
    results: Vec<SearchResult>,
    exhausted: bool,
    error: Option<DecodeError>,
}

/// The model of an error that may be absent.
pub open spec fn optional_fault(error: Option<DecodeError>) -> Option<DecodeFault> {
    match error {
        Some(e) => Some(e@),
        None => None,
    }
}

impl<'a> Pagination<'a> {
    /// The model of the run.
    pub closed spec fn view(&self) -> PagingModel {
        PagingModel {
            endpoint: self.builder.endpoint(),
            params: self.builder.params(),
            num: self.num as nat,
            empties: self.empties as nat,
            results: results_view(self.results@),
            phase: if self.error is Some {
                Phase::Failed
            } else if self.exhausted {
                Phase::Exhausted
            } else if self.results@.len() >= self.num {
                Phase::Complete
            } else {
                Phase::Fetching
            },
            error: optional_fault(self.error),
        }
    }

    #[verifier::type_invariant]
    closed spec fn well_formed(&self) -> bool {
        &&& self.builder.params().pageno is Some
        &&& 1 <= self.builder.params().pageno->0 <= self.results@.len() + 1
        &&& self.empties <= 3
        &&& !self.exhausted && self.error is None && self.results@.len() < self.num
            ==> self.empties <= 2
        &&& self.exhausted ==> self.results@.len() < self.num
        &&& self.error is Some ==> self.results@.len() < self.num
    }

    /// Starts a run of `builder`'s search that gathers `num` results.
    pub fn start(builder: SearchBuilder<'a>, num: usize) -> (run: Pagination<'a>)
        ensures
            run@ == start_model(builder.endpoint(), builder.params(), num as nat),
            run@.sound(),
    {
        let builder = builder.set_pageno(1);
        let results: Vec<SearchResult> = Vec::new();
        assert(results_view(results@) =~= Seq::empty());
        Pagination { builder, num, empties: 0, results, exhausted: false, error: None }
    }

    /// Where the run stands.
    pub fn phase(&self) -> (phase: Phase)
        ensures
            phase == self@.phase,
            self@.sound(),
    {
        proof {
            use_type_invariant(self);
        }
        if self.error.is_some() {
            Phase::Failed
        } else if self.exhausted {
            Phase::Exhausted
        } else if self.results.len() >= self.num {
            Phase::Complete
        } else {
            Phase::Fetching
        }
    }

    /// The number of the page that the run is at.
    pub fn page(&self) -> (page: u64)
        ensures
            page == self@.page(),
            self@.sound(),
    {
        proof {
            use_type_invariant(self);
        }
        match self.builder.parameters().pageno {
            Some(page) => page,
            None => 1,
        }
    }

    /// The request to send next: the search's request for the current page
    /// while the run fetches, and none once it has ended.
    pub fn request(&self) -> (request: Option<Request>)
        ensures
            match request {
                Some(r) => self@.phase == Phase::Fetching && r@ == request_model(
                    self@.endpoint,
                    self@.params,
                ),
                None => self@.phase != Phase::Fetching,
            },
            self@.sound(),
    {
        match self.phase() {
            Phase::Fetching => Some(self.builder.send()),
            _ => None,
        }
    }

    /// Takes the outcome of the attempt to fetch the current page, and
    /// gives the run as it stands after it.
    pub fn accept(self, event: PageEvent) -> (next: Pagination<'a>)
        ensures
            next@ == step(self@, event@),
            next@.sound(),
    {
        proof {
            use_type_invariant(&self);
        }
        match self.phase() {
            Phase::Fetching => {},
            _ => { return self; },
        }
        let Pagination { builder, num, empties, results, exhausted, error } = self;
        match event {
            PageEvent::Failed => Pagination { builder, num, empties, results, exhausted, error },
            PageEvent::Mismatch(mismatch) => Pagination {
                builder,
                num,
                empties,
                results,
                exhausted,
                error: Some(mismatch),
            },
            PageEvent::Results(page) => {
                if page.len() == 0 {
                    Pagination {
                        builder,
                        num,
                        empties: empties + 1,
                        results,
                        exhausted: empties >= 2,
                        error,
                    }
                } else {
                    let ghost before = results@;
                    let ghost added = page@;
                    let enough = page.len() >= num - results.len();
                    let mut results = results;
                    let mut page = page;
                    results.append(&mut page);
                    assert(results_view(results@) =~= results_view(before) + results_view(added));
                    let builder = if enough {
                        builder
                    } else {
                        let next = match builder.parameters().pageno {
                            Some(p) => p + 1,
                            None => 1,
                        };
                        builder.set_pageno(next)
                    };
                    Pagination { builder, num, empties: 0, results, exhausted, error }
                }
            },
        }
    }

    /// Takes a failed attempt, which changes nothing: the same page is
    /// wanted again.
    pub fn accept_failure(self) -> (next: Pagination<'a>)
        ensures
            next@ == step(self@, EventModel::Failed),
            next@.sound(),
    {
        self.accept(PageEvent::Failed)
    }

    /// Takes the body that came back for the current page: decodes it and
    /// takes the outcome.
    pub fn accept_body(self, body: &str) -> (next: Pagination<'a>)
        ensures
            next@ == step(self@, event_model(payload_model(body@))),
            next@.sound(),
    {
        self.accept(page_event(decode_response(body)))
    }

    /// Ends the run and hands out its results: what was gathered, cut off
    /// after the wanted number; or the error, where one ended the run.
    pub fn finish(self) -> (r: Result<Vec<SearchResult>, DecodeError>)
        ensures
            self@.sound(),
            match r {
                Ok(list) => self@.phase != Phase::Failed && results_view(list@)
                    == self@.outcome(),
                Err(error) => self@.phase == Phase::Failed && self@.error == Some(error@),
            },
    {
        proof {
            use_type_invariant(&self);
        }
        let ghost all = self.results@;
        let num = self.num;
        let mut results = self.results;
        match self.error {
            Some(error) => Err(error),
            None => {
                if results.len() > num {
                    results.truncate(num);
                    assert(results_view(results@) =~= results_view(all).take(num as int));
                }
                Ok(results)
            },
        }
    }
}

// ---------------------------------------------------------------------------
// Laws of a run
// ---------------------------------------------------------------------------
/// A run is sound at its start.
pub proof fn lemma_start_sound(endpoint: Seq<char>, params: ParamsModel, num: nat)
    requires
        num <= usize::MAX,
    ensures
        start_model(endpoint, params, num).sound(),
{
}

/// Whatever a sound run takes, it stays sound: it keeps its address and
/// the number of wanted results, never loses a result, and never goes back
/// a page.
pub proof fn lemma_step_sound(s: PagingModel, event: EventModel)
    requires
        s.sound(),
    ensures
        step(s, event).sound(),
        step(s, event).endpoint == s.endpoint,
        step(s, event).num == s.num,
        s.results.is_prefix_of(step(s, event).results),
        s.page() <= step(s, event).page() <= s.page() + 1,
{
}

/// Three empty answers in a row to one page end the run, and no fourth
/// attempt is made: after the first and the second the same page is still
/// wanted, after the third nothing is wanted any more and nothing that
/// comes in changes the run. The results are those gathered before.
pub proof fn lemma_three_empty_answers_end_the_run(s: PagingModel, later: EventModel)
    requires
        s.sound(),
        s.phase == Phase::Fetching,
        s.empties == 0,
    ensures
        ({
            let empty = EventModel::Results(Seq::empty());
            let first = step(s, empty);
            let second = step(first, empty);
            let third = step(second, empty);
            &&& first.phase == Phase::Fetching && first.params == s.params
            &&& second.phase == Phase::Fetching && second.params == s.params
            &&& third.phase == Phase::Exhausted
            &&& third.results == s.results
            &&& third.outcome() == s.results
            &&& step(third, later) == third
        }),
{
}

/// A failed attempt leaves the run as it was: the same page is wanted
/// again, and the empty answers that it has had still count.
pub proof fn lemma_failure_repeats_the_page(s: PagingModel)
    ensures
        step(s, EventModel::Failed) == s,
{
}

/// Empty answers to one page add up across failed attempts: the third of
/// them ends the run, however many attempts failed in between.
pub proof fn lemma_failures_do_not_clear_the_count(s: PagingModel)
    requires
        s.sound(),
        s.phase == Phase::Fetching,
        s.empties == 0,
    ensures
        ({
            let empty = EventModel::Results(Seq::empty());
            let failed = EventModel::Failed;
            let end = step(step(step(step(step(s, empty), failed), empty), failed), empty);
            end.phase == Phase::Exhausted && end.results == s.results
        }),
{
}

/// What a run hands out is never longer than what was wanted, and is what
/// was gathered as far as that goes: as many results as were wanted and
/// the first of those gathered where enough were gathered, and all that
/// were gathered where they were too few. It is shorter than what was
/// wanted only if the run did not complete: a run that has ended without
/// an error and hands out less has ended for want of results.
pub proof fn lemma_outcome_length(s: PagingModel)
    requires
        s.sound(),
    ensures
        s.outcome().len() == if s.num <= s.results.len() {
            s.num
        } else {
            s.results.len()
        },
        s.outcome().is_prefix_of(s.results),
        s.phase == Phase::Complete ==> s.outcome().len() == s.num,
        s.outcome().len() < s.num ==> s.phase != Phase::Complete,
        s.outcome().len() < s.num && s.phase != Phase::Fetching && s.phase != Phase::Failed
            ==> s.phase == Phase::Exhausted,
{
}

// ---------------------------------------------------------------------------
// A run against a backend that always answers
// ---------------------------------------------------------------------------
/// The results of the pages 1 to `upto` of a backend, page after page.
pub open spec fn gathered(
    backend: spec_fn(nat) -> Seq<SearchResultModel>,
    upto: nat,
) -> Seq<SearchResultModel>
    decreases upto,
{
    if upto == 0 {
        Seq::empty()
    } else {
        gathered(backend, (upto - 1) as nat) + backend(upto)
    }
}

/// The run after `attempts` requests, each of which the backend answered
/// with its page of the number that was asked for.
pub open spec fn served(
    s: PagingModel,
    backend: spec_fn(nat) -> Seq<SearchResultModel>,
    attempts: nat,
) -> PagingModel
    decreases attempts,
{
    if attempts == 0 {
        s
    } else {
        served(
            step(s, EventModel::Results(backend(s.page() as nat))),
            backend,
            (attempts - 1) as nat,
        )
    }
}

/// What a run hands out when it is served by a backend whose pages 1 to
/// `last` hold results and whose next page is empty: the results that the
/// backend has, page after page, as far as they were wanted. The run
/// completes if the backend has as many as were wanted, and ends for want
/// of results after three attempts at the empty page if not. No more than
/// `last + 3` requests are needed.
pub proof fn lemma_run_gathers_what_is_available(
    endpoint: Seq<char>,
    params: ParamsModel,
    num: nat,
    backend: spec_fn(nat) -> Seq<SearchResultModel>,
    last: nat,
    attempts: nat,
)
    requires
        num <= usize::MAX,
        forall|p: nat| 1 <= p <= last ==> (#[trigger] backend(p)).len() > 0,
        backend(last + 1).len() == 0,
        attempts >= last + 3,
    ensures
        ({
            let end = served(start_model(endpoint, params, num), backend, attempts);
            let available = gathered(backend, last);
            &&& end.outcome() == if available.len() > num {
                available.take(num as int)
            } else {
                available
            }
            &&& available.len() >= num ==> end.phase == Phase::Complete
            &&& available.len() < num ==> end.phase == Phase::Exhausted
        }),
{
    let start = start_model(endpoint, params, num);
    if num == 0 {
        lemma_served_after_the_end(start, backend, attempts);
        let available = gathered(backend, last);
        assert(start.outcome() =~= available.take(0));
    } else {
        assert(start.results =~= gathered(backend, 0));
        lemma_served_from(start, backend, last, attempts);
    }
}

/// A run that has ended is not changed by what is served.
proof fn lemma_served_after_the_end(
    s: PagingModel,
    backend: spec_fn(nat) -> Seq<SearchResultModel>,
    attempts: nat,
)
    requires
        s.phase != Phase::Fetching,
    ensures
        served(s, backend, attempts) == s,
    decreases attempts,
{
    if attempts > 0 {
        lemma_served_after_the_end(s, backend, (attempts - 1) as nat);
    }
}

/// What was gathered up to one page is the start of what is gathered up to
/// a later one.
proof fn lemma_gathered_grows(
    backend: spec_fn(nat) -> Seq<SearchResultModel>,
    upto: nat,
    later: nat,
)
    requires
        upto <= later,
    ensures
        gathered(backend, upto).is_prefix_of(gathered(backend, later)),
    decreases later,
{
    if upto < later {
        lemma_gathered_grows(backend, upto, (later - 1) as nat);
    }
}

/// The law above, from any page of the run on.
proof fn lemma_served_from(
    s: PagingModel,
    backend: spec_fn(nat) -> Seq<SearchResultModel>,
    last: nat,
    attempts: nat,
)
    requires
        s.sound(),
        s.phase == Phase::Fetching,
        s.empties == 0,
        s.page() <= last + 1,
        s.results == gathered(backend, (s.page() - 1) as nat),
        forall|p: nat| 1 <= p <= last ==> (#[trigger] backend(p)).len() > 0,
        backend(last + 1).len() == 0,
        attempts >= last + 1 - s.page() + 3,
    ensures
        ({
            let end = served(s, backend, attempts);
            let available = gathered(backend, last);
            &&& end.outcome() == if available.len() > s.num {
                available.take(s.num as int)
            } else {
                available
            }
            &&& available.len() >= s.num ==> end.phase == Phase::Complete
            &&& available.len() < s.num ==> end.phase == Phase::Exhausted
        }),
    decreases last + 1 - s.page(),
{
    let page = s.page() as nat;
    let answer = EventModel::Results(backend(page));
    let available = gathered(backend, last);
    if page == last + 1 {
        let first = step(s, answer);
        let second = step(first, answer);
        let third = step(second, answer);
        assert(served(s, backend, attempts) == served(third, backend, (attempts - 3) as nat)) by {
            reveal_with_fuel(served, 4);
        }
        lemma_served_after_the_end(third, backend, (attempts - 3) as nat);
    } else {
        let next = step(s, answer);
        lemma_step_sound(s, answer);
        assert(next.results =~= gathered(backend, page));
        lemma_gathered_grows(backend, page, last);
        assert(served(s, backend, attempts) == served(next, backend, (attempts - 1) as nat));
        if next.phase == Phase::Complete {
            lemma_served_after_the_end(next, backend, (attempts - 1) as nat);
            if available.len() > s.num {
                assert(next.outcome() =~= available.take(s.num as int));
            } else {
                assert(next.results =~= available);
            }
        } else {
            lemma_served_from(next, backend, last, (attempts - 1) as nat);
        }
    }
}

} // verus!
