//! The flatten transform: from the nested answer of the content endpoint to
//! one record per page.
//!
//! The content of a record is the primary content of the page's first
//! revision, or empty text when the page has no revision. Its redirect
//! sources are the sources of the answer's redirect edges that point at the
//! page's title, in the order of the answer.

use crate::api::ApiError;
use crate::structs::ProcessedPage;
use crate::structs::ProcessedPageView;
use crate::structs::Redirect;
use crate::structs::RedirectView;
use crate::structs::Revision;
use crate::structs::RevisionView;
use crate::structs::ScrapePage;
use crate::structs::ScrapePageView;
use crate::structs::ScrapeQuery;
use crate::structs::ScrapeResponse;
use crate::structs::ScrapeResponseView;
use vstd::prelude::*;

verus! {

broadcast use Seq::lemma_filter_push;

/// The test "this edge points at `title`".
pub open spec fn points_at(title: Seq<char>) -> spec_fn(RedirectView) -> bool {
    |edge: RedirectView| edge.to == title
}

/// The test "this edge leads from `source` to `target`".
pub open spec fn is_edge(source: Seq<char>, target: Seq<char>) -> spec_fn(RedirectView) -> bool {
    |edge: RedirectView| edge.from == source && edge.to == target
}

/// The test "this text is `wanted`".
pub open spec fn is_text(wanted: Seq<char>) -> spec_fn(Seq<char>) -> bool {
    |text: Seq<char>| text == wanted
}

/// The source of an edge.
pub open spec fn source_of() -> spec_fn(RedirectView) -> Seq<char> {
    |edge: RedirectView| edge.from
}

/// The sources of the edges of `redirects` that point at `title`, in the
/// order of `redirects`.
pub open spec fn redirect_sources(redirects: Seq<RedirectView>, title: Seq<char>) -> Seq<
    Seq<char>,
> {
    redirects.filter(points_at(title)).map_values(source_of())
}

/// The primary content of the first revision, or empty text.
pub open spec fn first_content(revisions: Seq<RevisionView>) -> Seq<char> {
    if revisions.len() > 0 {
        revisions[0].slots.main.content
    } else {
        Seq::empty()
    }
}

/// The redirect edges of an answer; none when the answer lists none.
pub open spec fn shared_redirects(response: ScrapeResponseView) -> Seq<RedirectView> {
    match response.query.redirects {
        Some(edges) => edges,
        None => Seq::empty(),
    }
}

/// The record of one page of an answer with the edges `redirects`.
pub open spec fn record_of(page: ScrapePageView, redirects: Seq<RedirectView>) -> ProcessedPageView {
    ProcessedPageView {
        page_id: page.pageid,
        title: page.title,
        main_content: first_content(page.revisions),
        redirected_from: redirect_sources(redirects, page.title),
    }
}

/// The records of an answer: one per page, in the order of the pages.
pub open spec fn flattened(response: ScrapeResponseView) -> Seq<ProcessedPageView> {
    Seq::new(
        response.query.pages.len(),
        |i: int| record_of(response.query.pages[i], shared_redirects(response)),
    )
}

/// The records that one fetch yields: those of its answer, or none when the
/// fetch failed.
pub open spec fn records_of_fetch(outcome: Option<ScrapeResponseView>) -> Seq<ProcessedPageView> {
    match outcome {
        Some(response) => flattened(response),
        None => Seq::empty(),
    }
}

/// How often `text` occurs in `texts`.
pub open spec fn occurrences(texts: Seq<Seq<char>>, text: Seq<char>) -> nat {
    texts.filter(is_text(text)).len()
}

/// How often the edge from `source` to `target` occurs in `redirects`.
pub open spec fn edge_occurrences(
    redirects: Seq<RedirectView>,
    source: Seq<char>,
    target: Seq<char>,
) -> nat {
    redirects.filter(is_edge(source, target)).len()
}

/// Takes the primary content out of the first of `revisions`.
fn take_first_content(revisions: Vec<Revision>) -> (content: String)
    ensures
        content@ == first_content(revisions.deep_view()),
{
    let mut revisions = revisions;
    if revisions.len() > 0 {
        let first = revisions.swap_remove(0);
        first.slots.main.content
    } else {
        String::new()
    }
}

/// Collects the sources of the edges that point at `title`.
fn collect_sources(redirects: &Vec<Redirect>, title: &String) -> (sources: Vec<String>)
    ensures
        sources.deep_view() == redirect_sources(redirects.deep_view(), title@),
{
    let ghost edges = redirects.deep_view();
    let mut sources: Vec<String> = Vec::new();
    let mut i: usize = 0;
    proof {
        reveal(Seq::filter);
    }
    while i < redirects.len()
        invariant
            i <= redirects.len(),
            edges == redirects.deep_view(),
            sources.deep_view() == redirect_sources(edges.take(i as int), title@),
        decreases redirects.len() - i,
    {
        let ghost kept = edges.take(i as int).filter(points_at(title@));
        assert(edges.take(i as int + 1) =~= edges.take(i as int).push(edges[i as int]));
        if redirects[i].to == *title {
            sources.push(redirects[i].from.clone());
            assert(kept.push(edges[i as int]).map_values(source_of()) =~= kept.map_values(
                source_of(),
            ).push(edges[i as int].from));
        }
        i += 1;
    }
    assert(edges.take(redirects.len() as int) =~= edges);
    sources
}

impl ScrapeResponse {
    /// Turns the answer into one record per page, in the order of the pages.
    pub fn flatten(self) -> (records: Vec<ProcessedPage>)
        ensures
            records.deep_view() == flattened(self@),
            records.len() == self.query.pages.len(),
    {
        let ghost response = self@;
        let ScrapeResponse { query } = self;
        let ScrapeQuery { pages, redirects } = query;
        let all_redirects: Vec<Redirect> = match redirects {
            Some(edges) => edges,
            None => Vec::new(),
        };
        assert(all_redirects.deep_view() =~= shared_redirects(response));
        let ghost fetched = pages@;
        let mut records: Vec<ProcessedPage> = Vec::new();
        for page in it: pages.into_iter()
            invariant
                it.seq() == fetched,
                records.len() == it.index(),
                forall|k: int|
                    0 <= k < it.index() ==> (#[trigger] records[k])@ == record_of(
                        fetched[k]@,
                        all_redirects.deep_view(),
                    ),
        {
            let ScrapePage { pageid, title, revisions } = page;
            let content = take_first_content(revisions);
            let from_list = collect_sources(&all_redirects, &title);
            records.push(
                ProcessedPage {
                    page_id: pageid,
                    title,
                    main_content: content,
                    redirected_from: from_list,
                },
            );
        }
        records
    }
}

/// The records that the outcome of one fetch yields. An answer is flattened;
/// a failed fetch yields nothing, so the titles of its batch are dropped.
pub fn fetched_records(outcome: Result<ScrapeResponse, ApiError>) -> (records: Vec<ProcessedPage>)
    ensures
        records.deep_view() == records_of_fetch(
            match outcome {
                Ok(response) => Some(response@),
                Err(_) => None,
            },
        ),
{
    match outcome {
        Ok(response) => response.flatten(),
        Err(_) => Vec::new(),
    }
}

/// A source is listed for a title as often as the answer holds the edge from
/// that source to that title.
pub proof fn lemma_sources_count_edges(
    redirects: Seq<RedirectView>,
    source: Seq<char>,
    target: Seq<char>,
)
    ensures
        occurrences(redirect_sources(redirects, target), source) == edge_occurrences(
            redirects,
            source,
            target,
        ),
    decreases redirects.len(),
{
    reveal(Seq::filter);
    if redirects.len() > 0 {
        let earlier = redirects.drop_last();
        let edge = redirects.last();
        lemma_sources_count_edges(earlier, source, target);
        let kept = earlier.filter(points_at(target));
        if edge.to == target {
            assert(kept.push(edge).map_values(source_of()) =~= kept.map_values(source_of()).push(
                edge.from,
            ));
        }
    }
}

/// An edge that the answer holds is attached: its source is among the
/// redirect sources of the title it points at.
pub proof fn lemma_edge_is_listed(redirects: Seq<RedirectView>, i: int)
    requires
        0 <= i < redirects.len(),
    ensures
        redirect_sources(redirects, redirects[i].to).contains(redirects[i].from),
{
    let edge = redirects[i];
    let kept = redirects.filter(points_at(edge.to));
    redirects.lemma_filter_contains(points_at(edge.to), i);
    let at = choose|at: int| 0 <= at < kept.len() && kept[at] == edge;
    assert(kept.map_values(source_of())[at] == edge.from);
}

/// Every page of an answer gets its record, at the place of the page, with
/// the page's identifier and title.
pub proof fn lemma_one_record_per_page(response: ScrapeResponseView, k: int)
    requires
        0 <= k < response.query.pages.len(),
    ensures
        flattened(response).len() == response.query.pages.len(),
        flattened(response)[k].page_id == response.query.pages[k].pageid,
        flattened(response)[k].title == response.query.pages[k].title,
        flattened(response)[k].main_content == first_content(response.query.pages[k].revisions),
{
}

/// When an answer holds an edge that points at the title of one of its
/// pages, the record of that page lists the source of the edge.
pub proof fn lemma_redirect_attached(response: ScrapeResponseView, k: int, i: int)
    requires
        0 <= k < response.query.pages.len(),
        0 <= i < shared_redirects(response).len(),
        shared_redirects(response)[i].to == response.query.pages[k].title,
    ensures
        flattened(response)[k].redirected_from.contains(shared_redirects(response)[i].from),
{
    lemma_edge_is_listed(shared_redirects(response), i);
}

/// When an answer holds the edge from `source` to the title of one of its
/// pages, and holds it once, the record of that page lists `source` exactly
/// once among its redirect sources.
pub proof fn lemma_redirect_attached_once(
    response: ScrapeResponseView,
    k: int,
    source: Seq<char>,
)
    requires
        0 <= k < response.query.pages.len(),
        edge_occurrences(shared_redirects(response), source, response.query.pages[k].title) == 1,
    ensures
        occurrences(flattened(response)[k].redirected_from, source) == 1,
{
    lemma_sources_count_edges(shared_redirects(response), source, response.query.pages[k].title);
}

/// A page at which no edge of the answer points has no redirect sources.
pub proof fn lemma_no_edge_no_source(redirects: Seq<RedirectView>, title: Seq<char>)
    requires
        forall|i: int| 0 <= i < redirects.len() ==> (#[trigger] redirects[i]).to != title,
    ensures
        redirect_sources(redirects, title) == Seq::<Seq<char>>::empty(),
    decreases redirects.len(),
{
    reveal(Seq::filter);
    if redirects.len() > 0 {
        lemma_no_edge_no_source(redirects.drop_last(), title);
    }
}

} // verus!
