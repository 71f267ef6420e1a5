//! The lister: walks the listing page by page and hands out every title.
//!
//! The lister is a fold over the answers of the listing endpoint. Each answer
//! yields the titles of its pages, in their order, and the continuation that
//! the next request must carry. An answer without a continuation, or a failed
//! call, ends the listing.

use crate::api::list_request;
use crate::api::request_params_of;
use crate::api::ApiError;
use crate::api::ParamView;
use crate::structs::Continuation;
use crate::structs::ContinuationView;
use crate::structs::ListResponse;
use crate::structs::ListResponseView;
use crate::structs::Page;
use crate::structs::PageView;
use vstd::prelude::*;

verus! {

broadcast use Seq::lemma_flatten_push;

/// The state of a listing in the model.
pub enum ListerView {
    /// The listing goes on; the next request carries this continuation.
    Listing(Option<ContinuationView>),
    /// The listing has ended, exhausted or failed.
    Finished,
}

/// The titles of the pages of one answer, in the order of the answer.
pub open spec fn titles_of(response: ListResponseView) -> Seq<Seq<char>> {
    response.query.allpages.map_values(|page: PageView| page.title)
}

/// The titles that one call yields: those of its answer, or none when the
/// call failed.
pub open spec fn titles_of_outcome(outcome: Option<ListResponseView>) -> Seq<Seq<char>> {
    match outcome {
        Some(answer) => titles_of(answer),
        None => Seq::empty(),
    }
}

/// The titles that `outcomes` yield, call after call.
pub open spec fn emitted_by(outcomes: Seq<Option<ListResponseView>>) -> Seq<Seq<char>> {
    outcomes.map_values(|outcome: Option<ListResponseView>| titles_of_outcome(outcome)).flatten()
}

/// The titles of all pages of `responses`, answer after answer.
pub open spec fn all_titles(responses: Seq<ListResponseView>) -> Seq<Seq<char>> {
    responses.map_values(|response: ListResponseView| titles_of(response)).flatten()
}

/// A run of calls that all succeeded.
pub open spec fn answered(responses: Seq<ListResponseView>) -> Seq<Option<ListResponseView>> {
    responses.map_values(|response: ListResponseView| Some(response))
}

/// The call succeeded and its answer carries a continuation.
pub open spec fn goes_on(outcome: Option<ListResponseView>) -> bool {
    outcome matches Some(answer) && answer.continuation is Some
}

/// Every answer but the last carries a continuation, and the last carries
/// none.
pub open spec fn ends_listing(responses: Seq<ListResponseView>) -> bool {
    &&& responses.len() > 0
    &&& forall|i: int| 0 <= i < responses.len() - 1 ==> (#[trigger] responses[i]).continuation is Some
    &&& responses.last().continuation is None
}

impl ListerView {
    /// The state from which a crawl starts.
    pub open spec fn start() -> ListerView {
        ListerView::Listing(None)
    }

    /// What the next request must carry, while the listing goes on.
    pub open spec fn next_request(self) -> Option<Seq<ParamView>> {
        match self {
            ListerView::Listing(cursor) => Some(request_params_of("list"@, cursor, None)),
            ListerView::Finished => None,
        }
    }

    /// One call of the listing endpoint has ended, with an answer or without
    /// (`None`). Gives the state after it and the titles to hand out.
    pub open spec fn on_response(self, response: Option<ListResponseView>) -> (
        ListerView,
        Seq<Seq<char>>,
    ) {
        match (self, response) {
            (ListerView::Listing(_), Some(answer)) => (
                match answer.continuation {
                    Some(next) => ListerView::Listing(Some(next)),
                    None => ListerView::Finished,
                },
                titles_of(answer),
            ),
            _ => (ListerView::Finished, Seq::empty()),
        }
    }

    /// The state after `responses`, and all titles handed out on the way.
    pub open spec fn run(self, responses: Seq<Option<ListResponseView>>) -> (
        ListerView,
        Seq<Seq<char>>,
    )
        decreases responses.len(),
    {
        if responses.len() == 0 {
            (self, Seq::empty())
        } else {
            let (before, emitted) = self.run(responses.drop_last());
            let (after, titles) = before.on_response(responses.last());
            (after, emitted + titles)
        }
    }
}

/// The lister of one crawl.
#[derive(Debug, PartialEq, Eq)]
pub enum Lister {
    /// The listing goes on; the next request carries this continuation.
    Listing(Option<Continuation>),
    /// The listing has ended, exhausted or failed.
    Finished,
}

impl View for Lister {
    type V = ListerView;

    open spec fn view(&self) -> ListerView {
        match self {
            Lister::Listing(cursor) => ListerView::Listing(cursor.deep_view()),
            Lister::Finished => ListerView::Finished,
        }
    }
}

/// Takes the titles out of the pages of one answer.
fn into_titles(pages: Vec<Page>) -> (titles: Vec<String>)
    ensures
        titles.deep_view() == pages.deep_view().map_values(|page: PageView| page.title),
{
    let ghost listed = pages@;
    let mut titles: Vec<String> = Vec::new();
    for page in it: pages.into_iter()
        invariant
            it.seq() == listed,
            titles.len() == it.index(),
            forall|i: int| 0 <= i < it.index() ==> (#[trigger] titles[i])@ == listed[i].title@,
    {
        titles.push(page.title);
    }
    titles
}

impl Lister {
    /// A lister at the start of a crawl: no continuation yet.
    pub fn new() -> (lister: Lister)
        ensures
            lister@ == ListerView::start(),
    {
        Lister::Listing(None)
    }

    /// Whether the listing has ended.
    pub fn is_finished(&self) -> (finished: bool)
        ensures
            finished == (self@ is Finished),
    {
        match self {
            Lister::Listing(_) => false,
            Lister::Finished => true,
        }
    }

    /// The parameters of the next listing request, or `None` when the
    /// listing has ended. The continuation of the answer before is carried
    /// as it was received.
    pub fn next_request(&self) -> (params: Option<Vec<(String, String)>>)
        ensures
            params.deep_view() == self@.next_request(),
    {
        match self {
            Lister::Listing(cursor) => {
                let carried = match cursor {
                    Some(c) => Some(c.clone()),
                    None => None,
                };
                Some(list_request(carried))
            },
            Lister::Finished => None,
        }
    }

    /// One call of the listing endpoint has ended. After an answer the
    /// titles of its pages are handed back, in the order of the answer, and
    /// the listing goes on with the answer's continuation or, if it has none,
    /// ends. A failed call ends the listing and hands back nothing. Once the
    /// listing has ended nothing is handed back any more.
    pub fn on_response(&mut self, response: Result<ListResponse, ApiError>) -> (titles: Vec<
        String,
    >)
        ensures
            (final(self)@, titles.deep_view()) == old(self)@.on_response(
                match response {
                    Ok(answer) => Some(answer@),
                    Err(_) => None,
                },
            ),
    {
        if self.is_finished() {
            return Vec::new();
        }
        match response {
            Ok(answer) => {
                let ListResponse { batchcomplete: _, continuation, query } = answer;
                *self = match continuation {
                    Some(next) => Lister::Listing(Some(next)),
                    None => Lister::Finished,
                };
                into_titles(query.allpages)
            },
            Err(_) => {
                *self = Lister::Finished;
                Vec::new()
            },
        }
    }
}

/// Running a lister over two runs of calls, one after the other, is running
/// it over the first and then, from where that ended, over the second.
pub proof fn lemma_run_split(
    state: ListerView,
    first: Seq<Option<ListResponseView>>,
    second: Seq<Option<ListResponseView>>,
)
    ensures
        state.run(first + second).0 == state.run(first).0.run(second).0,
        state.run(first + second).1 == state.run(first).1 + state.run(first).0.run(second).1,
    decreases second.len(),
{
    if second.len() > 0 {
        lemma_run_split(state, first, second.drop_last());
        assert((first + second).drop_last() =~= first + second.drop_last());
    }
}

/// Once the listing has ended, no call makes it hand out a title or go on.
pub proof fn lemma_finished_stays(outcomes: Seq<Option<ListResponseView>>)
    ensures
        ListerView::Finished.run(outcomes) == (ListerView::Finished, Seq::<Seq<char>>::empty()),
    decreases outcomes.len(),
{
    if outcomes.len() > 0 {
        lemma_finished_stays(outcomes.drop_last());
    }
}

/// While every answer carries a continuation the listing goes on: all titles
/// of the answers are handed out, in their order, and the next request
/// carries the continuation of the latest answer as it was received.
pub proof fn lemma_listing_goes_on(outcomes: Seq<Option<ListResponseView>>)
    requires
        forall|i: int| 0 <= i < outcomes.len() ==> goes_on(#[trigger] outcomes[i]),
    ensures
        ListerView::start().run(outcomes).1 == emitted_by(outcomes),
        ListerView::start().run(outcomes).0 == (if outcomes.len() == 0 {
            ListerView::start()
        } else {
            ListerView::Listing(outcomes.last()->0.continuation)
        }),
    decreases outcomes.len(),
{
    if outcomes.len() > 0 {
        let per_call = |outcome: Option<ListResponseView>| titles_of_outcome(outcome);
        let earlier = outcomes.drop_last();
        lemma_listing_goes_on(earlier);
        assert(outcomes.map_values(per_call) =~= earlier.map_values(per_call).push(
            titles_of_outcome(outcomes.last()),
        ));
    }
}

/// The listing ends with the first call that fails or whose answer carries
/// no continuation. Up to and with that call every title of every answer is
/// handed out, in order; whatever comes after it is ignored.
pub proof fn lemma_listing_stops(outcomes: Seq<Option<ListResponseView>>, k: int)
    requires
        0 <= k < outcomes.len(),
        forall|i: int| 0 <= i < k ==> goes_on(#[trigger] outcomes[i]),
        !goes_on(outcomes[k]),
    ensures
        ListerView::start().run(outcomes) == (
            ListerView::Finished,
            emitted_by(outcomes.take(k + 1)),
        ),
{
    let per_call = |outcome: Option<ListResponseView>| titles_of_outcome(outcome);
    let before = outcomes.take(k);
    let upto = outcomes.take(k + 1);
    let after = outcomes.skip(k + 1);
    // Up to the call at `k` the listing goes on; that call ends it.
    lemma_listing_goes_on(before);
    assert(upto.drop_last() =~= before);
    assert(upto.map_values(per_call) =~= before.map_values(per_call).push(
        titles_of_outcome(outcomes[k]),
    ));
    // What follows finds the listing ended.
    lemma_run_split(ListerView::start(), upto, after);
    lemma_finished_stays(after);
    assert(upto + after =~= outcomes);
}

/// A listing that runs to its end hands out exactly the titles of all pages
/// of all answers, in their order, and is finished after the last answer.
pub proof fn lemma_listing_emits_all_titles(responses: Seq<ListResponseView>)
    requires
        ends_listing(responses),
    ensures
        ListerView::start().run(answered(responses)) == (
            ListerView::Finished,
            all_titles(responses),
        ),
{
    let outcomes = answered(responses);
    let last = responses.len() - 1;
    lemma_listing_stops(outcomes, last);
    assert(outcomes.take(last + 1) =~= outcomes);
    assert(outcomes.map_values(|outcome: Option<ListResponseView>| titles_of_outcome(outcome))
        =~= responses.map_values(|response: ListResponseView| titles_of(response)));
}

} // verus!
