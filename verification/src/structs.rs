//! The values that travel through the crawler, and their mathematical views.
//!
//! Every type carries its text as `String`. Contracts never compare two
//! `String` values directly: they speak of the view, in which text is a
//! `Seq<char>` and a `Vec` is a `Seq` of views.

use vstd::prelude::*;

verus! {

/// One answer of the listing endpoint: a page of the listing and, unless the
/// listing is exhausted, the token that continues it.
#[derive(Debug, PartialEq, Eq)]
pub struct ListResponse {
    pub batchcomplete: String,
    pub continuation: Option<Continuation>,
    pub query: Query,
}

/// The opaque pair of tokens that resumes a listing where it stopped.
#[derive(Debug, PartialEq, Eq)]
pub struct Continuation {
    pub apcontinue: String,
    pub continuation: String,
}

/// The pages that one listing answer holds, in the order of the answer.
#[derive(Debug, PartialEq, Eq)]
pub struct Query {
    pub allpages: Vec<Page>,
}

/// One entry of a listing: namespace, identifier and title.
#[derive(Debug, PartialEq, Eq)]
pub struct Page {
    pub ns: i8,
    pub pageid: i32,
    pub title: String,
}

/// One answer of the content endpoint.
#[derive(Debug, PartialEq, Eq)]
pub struct ScrapeResponse {
    pub query: ScrapeQuery,
}

/// The pages of a content answer, in the order in which they were taken out
/// of the answer, and the redirect edges that hold for the whole answer.
#[derive(Debug, PartialEq, Eq)]
pub struct ScrapeQuery {
    pub pages: Vec<ScrapePage>,
    pub redirects: Option<Vec<Redirect>>,
}

/// The detail of one fetched page.
#[derive(Debug, PartialEq, Eq)]
pub struct ScrapePage {
    pub pageid: u32,
    pub title: String,
    pub revisions: Vec<Revision>,
}

/// One revision of a page.
#[derive(Debug, PartialEq, Eq)]
pub struct Revision {
    pub slots: Slots,
}

/// The content slots of a revision.
#[derive(Debug, PartialEq, Eq)]
pub struct Slots {
    pub main: MainSlot,
}

/// The primary slot of a revision.
#[derive(Debug, PartialEq, Eq)]
pub struct MainSlot {
    pub content: String,
    pub contentformat: String,
    pub contentmodel: String,
}

/// A redirect edge: asking for `from` returns the page titled `to`.
#[derive(Debug, PartialEq, Eq)]
pub struct Redirect {
    pub from: String,
    pub to: String,
    pub tofragment: Option<String>,
}

/// A page together with redirect edges, each as a pair of source and target.
#[derive(Debug, PartialEq, Eq)]
pub struct FlattenedPage {
    pub id: u32,
    pub title: String,
    pub content: String,
    pub redirects: Vec<(String, String)>,
}

/// The record that is persisted: one per page identifier.
#[derive(Debug, PartialEq, Eq)]
pub struct ProcessedPage {
    pub page_id: u32,
    pub title: String,
    pub main_content: String,
    pub redirected_from: Vec<String>,
}

/// View of [`Continuation`].
pub struct ContinuationView {
    pub apcontinue: Seq<char>,
    pub continuation: Seq<char>,
}

/// View of [`Page`].
pub struct PageView {
    pub ns: i8,
    pub pageid: i32,
    pub title: Seq<char>,
}

/// View of [`Query`].
pub struct QueryView {
    pub allpages: Seq<PageView>,
}

/// View of [`ListResponse`].
pub struct ListResponseView {
    pub batchcomplete: Seq<char>,
    pub continuation: Option<ContinuationView>,
    pub query: QueryView,
}

/// View of [`MainSlot`].
pub struct MainSlotView {
    pub content: Seq<char>,
    pub contentformat: Seq<char>,
    pub contentmodel: Seq<char>,
}

/// View of [`Slots`].
pub struct SlotsView {
    pub main: MainSlotView,
}

/// View of [`Revision`].
pub struct RevisionView {
    pub slots: SlotsView,
}

/// View of [`ScrapePage`].
pub struct ScrapePageView {
    pub pageid: u32,
    pub title: Seq<char>,
    pub revisions: Seq<RevisionView>,
}

/// View of [`Redirect`].
pub struct RedirectView {
    pub from: Seq<char>,
    pub to: Seq<char>,
    pub tofragment: Option<Seq<char>>,
}

/// View of [`ScrapeQuery`].
pub struct ScrapeQueryView {
    pub pages: Seq<ScrapePageView>,
    pub redirects: Option<Seq<RedirectView>>,
}

/// View of [`ScrapeResponse`].
pub struct ScrapeResponseView {
    pub query: ScrapeQueryView,
}

/// View of [`FlattenedPage`].
pub struct FlattenedPageView {
    pub id: u32,
    pub title: Seq<char>,
    pub content: Seq<char>,
    pub redirects: Seq<(Seq<char>, Seq<char>)>,
}

/// View of [`ProcessedPage`].
pub struct ProcessedPageView {
    pub page_id: u32,
    pub title: Seq<char>,
    pub main_content: Seq<char>,
    pub redirected_from: Seq<Seq<char>>,
}

impl DeepView for Continuation {
    type V = ContinuationView;

    open spec fn deep_view(&self) -> ContinuationView {
        ContinuationView { apcontinue: self.apcontinue@, continuation: self.continuation@ }
    }
}

impl View for Continuation {
    type V = ContinuationView;

    open spec fn view(&self) -> ContinuationView {
        self.deep_view()
    }
}

impl Clone for Continuation {
    fn clone(&self) -> (copy: Self)
        ensures
            copy@ == self@,
    {
        Continuation {
            apcontinue: self.apcontinue.clone(),
            continuation: self.continuation.clone(),
        }
    }
}

impl DeepView for Page {
    type V = PageView;

    open spec fn deep_view(&self) -> PageView {
        PageView { ns: self.ns, pageid: self.pageid, title: self.title@ }
    }
}

impl View for Page {
    type V = PageView;

    open spec fn view(&self) -> PageView {
        self.deep_view()
    }
}

impl DeepView for Query {
    type V = QueryView;

    open spec fn deep_view(&self) -> QueryView {
        QueryView { allpages: self.allpages.deep_view() }
    }
}

impl View for Query {
    type V = QueryView;

    open spec fn view(&self) -> QueryView {
        self.deep_view()
    }
}

impl DeepView for ListResponse {
    type V = ListResponseView;

    open spec fn deep_view(&self) -> ListResponseView {
        ListResponseView {
            batchcomplete: self.batchcomplete@,
            continuation: self.continuation.deep_view(),
            query: self.query.deep_view(),
        }
    }
}

impl View for ListResponse {
    type V = ListResponseView;

    open spec fn view(&self) -> ListResponseView {
        self.deep_view()
    }
}

impl DeepView for MainSlot {
    type V = MainSlotView;

    open spec fn deep_view(&self) -> MainSlotView {
        MainSlotView {
            content: self.content@,
            contentformat: self.contentformat@,
            contentmodel: self.contentmodel@,
        }
    }
}

impl View for MainSlot {
    type V = MainSlotView;

    open spec fn view(&self) -> MainSlotView {
        self.deep_view()
    }
}

impl DeepView for Slots {
    type V = SlotsView;

    open spec fn deep_view(&self) -> SlotsView {
        SlotsView { main: self.main.deep_view() }
    }
}

impl View for Slots {
    type V = SlotsView;

    open spec fn view(&self) -> SlotsView {
        self.deep_view()
    }
}

impl DeepView for Revision {
    type V = RevisionView;

    open spec fn deep_view(&self) -> RevisionView {
        RevisionView { slots: self.slots.deep_view() }
    }
}

impl View for Revision {
    type V = RevisionView;

    open spec fn view(&self) -> RevisionView {
        self.deep_view()
    }
}

impl DeepView for ScrapePage {
    type V = ScrapePageView;

    open spec fn deep_view(&self) -> ScrapePageView {
        ScrapePageView {
            pageid: self.pageid,
            title: self.title@,
            revisions: self.revisions.deep_view(),
        }
    }
}

impl View for ScrapePage {
    type V = ScrapePageView;

    open spec fn view(&self) -> ScrapePageView {
        self.deep_view()
    }
}

impl DeepView for Redirect {
    type V = RedirectView;

    open spec fn deep_view(&self) -> RedirectView {
        RedirectView {
            from: self.from@,
            to: self.to@,
            tofragment: self.tofragment.deep_view(),
        }
    }
}

impl View for Redirect {
    type V = RedirectView;

    open spec fn view(&self) -> RedirectView {
        self.deep_view()
    }
}

impl DeepView for ScrapeQuery {
    type V = ScrapeQueryView;

    open spec fn deep_view(&self) -> ScrapeQueryView {
        ScrapeQueryView {
            pages: self.pages.deep_view(),
            redirects: self.redirects.deep_view(),
        }
    }
}

impl View for ScrapeQuery {
    type V = ScrapeQueryView;

    open spec fn view(&self) -> ScrapeQueryView {
        self.deep_view()
    }
}

impl DeepView for ScrapeResponse {
    type V = ScrapeResponseView;

    open spec fn deep_view(&self) -> ScrapeResponseView {
        ScrapeResponseView { query: self.query.deep_view() }
    }
}

impl View for ScrapeResponse {
    type V = ScrapeResponseView;

    open spec fn view(&self) -> ScrapeResponseView {
        self.deep_view()
    }
}

impl DeepView for FlattenedPage {
    type V = FlattenedPageView;

    open spec fn deep_view(&self) -> FlattenedPageView {
        FlattenedPageView {
            id: self.id,
            title: self.title@,
            content: self.content@,
            redirects: self.redirects.deep_view(),
        }
    }
}

impl View for FlattenedPage {
    type V = FlattenedPageView;

    open spec fn view(&self) -> FlattenedPageView {
        self.deep_view()
    }
}

impl DeepView for ProcessedPage {
    type V = ProcessedPageView;

    open spec fn deep_view(&self) -> ProcessedPageView {
        ProcessedPageView {
            page_id: self.page_id,
            title: self.title@,
            main_content: self.main_content@,
            redirected_from: self.redirected_from.deep_view(),
        }
    }
}

impl View for ProcessedPage {
    type V = ProcessedPageView;

    open spec fn view(&self) -> ProcessedPageView {
        self.deep_view()
    }
}

} // verus!
