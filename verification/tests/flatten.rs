use runescape_wiki_crawler::api::ApiError;
use runescape_wiki_crawler::flatten::fetched_records;
use runescape_wiki_crawler::structs::FlattenedPage;
use runescape_wiki_crawler::structs::MainSlot;
use runescape_wiki_crawler::structs::ProcessedPage;
use runescape_wiki_crawler::structs::Redirect;
use runescape_wiki_crawler::structs::Revision;
use runescape_wiki_crawler::structs::ScrapePage;
use runescape_wiki_crawler::structs::ScrapeQuery;
use runescape_wiki_crawler::structs::ScrapeResponse;
use runescape_wiki_crawler::structs::Slots;

fn revision(content: &str) -> Revision {
    Revision {
        slots: Slots {
            main: MainSlot {
                content: content.to_string(),
                contentformat: "text/x-wiki".to_string(),
                contentmodel: "wikitext".to_string(),
            },
        },
    }
}

fn page(id: u32, title: &str, revisions: Vec<Revision>) -> ScrapePage {
    ScrapePage { pageid: id, title: title.to_string(), revisions }
}

fn edge(from: &str, to: &str) -> Redirect {
    Redirect { from: from.to_string(), to: to.to_string(), tofragment: None }
}

fn response(pages: Vec<ScrapePage>, redirects: Option<Vec<Redirect>>) -> ScrapeResponse {
    ScrapeResponse { query: ScrapeQuery { pages, redirects } }
}

fn record(id: u32, title: &str, content: &str, from: &[&str]) -> ProcessedPage {
    ProcessedPage {
        page_id: id,
        title: title.to_string(),
        main_content: content.to_string(),
        redirected_from: from.iter().map(|s| s.to_string()).collect(),
    }
}

#[test]
fn flatten_gives_one_record_per_page_in_order() {
    let answer = response(
        vec![
            page(1, "Cow", vec![revision("moo")]),
            page(2, "Sheep", vec![revision("baa")]),
            page(3, "Goblin", vec![revision("grr")]),
        ],
        None,
    );
    assert_eq!(
        answer.flatten(),
        vec![
            record(1, "Cow", "moo", &[]),
            record(2, "Sheep", "baa", &[]),
            record(3, "Goblin", "grr", &[]),
        ]
    );
}

#[test]
fn flatten_of_no_page_is_empty() {
    assert!(response(vec![], None).flatten().is_empty());
    assert!(response(vec![], Some(vec![edge("Cows", "Cow")])).flatten().is_empty());
}

#[test]
fn redirect_edge_is_attached_to_its_target() {
    let answer = response(
        vec![page(1, "Cow", vec![revision("moo")])],
        Some(vec![edge("Cows", "Cow")]),
    );
    let records = answer.flatten();
    assert_eq!(records.len(), 1);
    assert_eq!(records[0].redirected_from, vec!["Cows".to_string()]);
    assert_eq!(records[0], record(1, "Cow", "moo", &["Cows"]));
}

#[test]
fn redirect_source_is_listed_exactly_once() {
    let answer = response(
        vec![page(1, "Cow", vec![revision("moo")]), page(2, "Sheep", vec![revision("baa")])],
        Some(vec![edge("Ewe", "Sheep"), edge("Cows", "Cow"), edge("Ram", "Sheep")]),
    );
    let records = answer.flatten();
    let cow = &records[0];
    assert_eq!(cow.redirected_from.iter().filter(|s| s.as_str() == "Cows").count(), 1);
    assert_eq!(cow.redirected_from, vec!["Cows".to_string()]);
    let sheep = &records[1];
    assert_eq!(sheep.redirected_from, vec!["Ewe".to_string(), "Ram".to_string()]);
}

#[test]
fn redirect_sources_keep_the_order_of_the_answer() {
    let answer = response(
        vec![page(9, "Dragon", vec![revision("roar")])],
        Some(vec![
            edge("Wyrm", "Dragon"),
            edge("Drake", "Elsewhere"),
            edge("Dragons", "Dragon"),
            edge("Drake", "Dragon"),
        ]),
    );
    assert_eq!(
        answer.flatten(),
        vec![record(9, "Dragon", "roar", &["Wyrm", "Dragons", "Drake"])]
    );
}

#[test]
fn edge_listed_twice_is_attached_twice() {
    let answer = response(
        vec![page(1, "Cow", vec![revision("moo")])],
        Some(vec![edge("Cows", "Cow"), edge("Cows", "Cow")]),
    );
    assert_eq!(answer.flatten(), vec![record(1, "Cow", "moo", &["Cows", "Cows"])]);
}

#[test]
fn edge_to_a_page_outside_the_answer_is_attached_nowhere() {
    let answer = response(
        vec![page(1, "Cow", vec![revision("moo")])],
        Some(vec![edge("Ewe", "Sheep"), edge("Cow", "Cows")]),
    );
    assert_eq!(answer.flatten(), vec![record(1, "Cow", "moo", &[])]);
}

#[test]
fn edge_matches_the_whole_title_only() {
    let answer = response(
        vec![page(1, "Cow", vec![]), page(2, "cow", vec![]), page(3, "Cow ", vec![])],
        Some(vec![edge("a", "Cow"), edge("b", "cow"), edge("c", "Cow "), edge("d", "Co")]),
    );
    assert_eq!(
        answer.flatten(),
        vec![
            record(1, "Cow", "", &["a"]),
            record(2, "cow", "", &["b"]),
            record(3, "Cow ", "", &["c"]),
        ]
    );
}

#[test]
fn pages_with_the_same_title_share_the_sources() {
    let answer = response(
        vec![page(1, "Cow", vec![revision("a")]), page(2, "Cow", vec![revision("b")])],
        Some(vec![edge("Cows", "Cow")]),
    );
    assert_eq!(
        answer.flatten(),
        vec![record(1, "Cow", "a", &["Cows"]), record(2, "Cow", "b", &["Cows"])]
    );
}

#[test]
fn page_without_revision_has_empty_content() {
    let answer = response(vec![page(4, "Stub", vec![])], None);
    assert_eq!(answer.flatten(), vec![record(4, "Stub", "", &[])]);
}

#[test]
fn only_the_first_revision_is_used() {
    let answer = response(
        vec![page(5, "Cow", vec![revision("newest"), revision("older"), revision("oldest")])],
        None,
    );
    assert_eq!(answer.flatten(), vec![record(5, "Cow", "newest", &[])]);
}

#[test]
fn fragment_of_an_edge_is_ignored() {
    let answer = response(
        vec![page(1, "Cow", vec![revision("moo")])],
        Some(vec![Redirect {
            from: "Cow drops".to_string(),
            to: "Cow".to_string(),
            tofragment: Some("Drops".to_string()),
        }]),
    );
    assert_eq!(answer.flatten(), vec![record(1, "Cow", "moo", &["Cow drops"])]);
}

#[test]
fn identifier_is_kept_over_its_whole_range() {
    let answer = response(vec![page(0, "Zero", vec![]), page(u32::MAX, "Max", vec![])], None);
    let records = answer.flatten();
    assert_eq!(records[0].page_id, 0);
    assert_eq!(records[1].page_id, u32::MAX);
}

#[test]
fn fetched_records_of_an_answer_are_its_records() {
    let answer = response(
        vec![page(1, "Cow", vec![revision("moo")])],
        Some(vec![edge("Cows", "Cow")]),
    );
    assert_eq!(fetched_records(Ok(answer)), vec![record(1, "Cow", "moo", &["Cows"])]);
}

#[test]
fn failed_fetch_yields_no_record() {
    assert!(fetched_records(Err(ApiError::Transport)).is_empty());
    assert!(fetched_records(Err(ApiError::Status { code: 500, body: "oops".to_string() })).is_empty());
    assert!(fetched_records(Err(ApiError::Decode { body: "not json".to_string() })).is_empty());
}

#[test]
fn flattened_page_holds_edges_as_pairs() {
    let page = FlattenedPage {
        id: 1,
        title: "Cow".to_string(),
        content: "moo".to_string(),
        redirects: vec![("Cows".to_string(), "Cow".to_string())],
    };
    assert_eq!(page.id, 1);
    assert_eq!(page.redirects[0].0, "Cows");
    assert_eq!(page.redirects[0].1, page.title);
    assert_eq!(page.content, "moo");
}
