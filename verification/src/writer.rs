//! The writer: the single sink of the pipeline, which keeps the first record
//! of every page identifier and drops the rest.
//!
//! The writer owns the set of identifiers it has seen. A record whose
//! identifier is new is handed back to be appended to the output store; one
//! whose identifier was seen before is dropped. Whatever the workers upstream
//! do, the store therefore holds at most one line per identifier, and that
//! line is the first record with the identifier that reached the writer.

use crate::structs::ProcessedPage;
use crate::structs::ProcessedPageView;
use std::collections::HashSet;
use vstd::prelude::*;

verus! {

broadcast use vstd::std_specs::hash::group_hash_axioms;

/// One record reaches a writer that has seen `seen`: the identifiers seen
/// afterwards, and the record if it is to be written.
pub open spec fn on_record(seen: Set<u32>, record: ProcessedPageView) -> (
    Set<u32>,
    Option<ProcessedPageView>,
) {
    if seen.contains(record.page_id) {
        (seen, None)
    } else {
        (seen.insert(record.page_id), Some(record))
    }
}

/// `records` reach a writer that has seen `seen`, one after the other: the
/// identifiers seen afterwards, and the records written, in their order.
pub open spec fn run(seen: Set<u32>, records: Seq<ProcessedPageView>) -> (
    Set<u32>,
    Seq<ProcessedPageView>,
)
    decreases records.len(),
{
    if records.len() == 0 {
        (seen, Seq::empty())
    } else {
        let (before, kept) = run(seen, records.drop_last());
        let (after, line) = on_record(before, records.last());
        match line {
            Some(record) => (after, kept.push(record)),
            None => (after, kept),
        }
    }
}

/// What a writer that starts with nothing seen writes for `records`.
pub open spec fn written(records: Seq<ProcessedPageView>) -> Seq<ProcessedPageView> {
    run(Set::empty(), records).1
}

/// The record at `i` is the first of `records` with its identifier.
pub open spec fn is_first_with_id(records: Seq<ProcessedPageView>, i: int) -> bool {
    &&& 0 <= i < records.len()
    &&& forall|j: int| 0 <= j < i ==> (#[trigger] records[j]).page_id != records[i].page_id
}

/// Some record of `records` has the identifier `id`.
pub open spec fn has_id(records: Seq<ProcessedPageView>, id: u32) -> bool {
    exists|i: int| 0 <= i < records.len() && (#[trigger] records[i]).page_id == id
}

/// `line` is the first record of `records` with its identifier.
pub open spec fn is_first_seen(records: Seq<ProcessedPageView>, line: ProcessedPageView) -> bool {
    exists|i: int| #[trigger] is_first_with_id(records, i) && records[i] == line
}

/// No two records of `lines` share an identifier.
pub open spec fn ids_distinct(lines: Seq<ProcessedPageView>) -> bool {
    forall|a: int, b: int|
        0 <= a < b < lines.len() ==> (#[trigger] lines[a]).page_id != (#[trigger] lines[b]).page_id
}

/// The sink of the pipeline.
pub struct Writer {
    seen: HashSet<u32>,
}

impl View for Writer {
    type V = Set<u32>;

    /// The identifiers seen so far.
    closed spec fn view(&self) -> Set<u32> {
        self.seen@
    }
}

impl Writer {
    /// A writer that has seen nothing.
    pub fn new() -> (writer: Writer)
        ensures
            writer@ == Set::<u32>::empty(),
    {
        Writer { seen: HashSet::new() }
    }

    /// Whether a record with the identifier `page_id` was seen.
    pub fn has_seen(&self, page_id: u32) -> (seen: bool)
        ensures
            seen == self@.contains(page_id),
    {
        self.seen.contains(&page_id)
    }

    /// A record reached the writer. When its identifier is new the record is
    /// handed back, to be appended to the output store; when the identifier
    /// was seen before the record is dropped. Either way the identifier
    /// counts as seen from now on.
    pub fn on_record(&mut self, record: ProcessedPage) -> (line: Option<ProcessedPage>)
        ensures
            (final(self)@, line.deep_view()) == on_record(old(self)@, record@),
            line matches Some(kept) ==> kept == record,
            old(self)@.subset_of(final(self)@),
    {
        if self.seen.insert(record.page_id) {
            Some(record)
        } else {
            None
        }
    }
}

/// What holds of a writer that has seen `seen` after `records`: it has seen
/// the identifiers of `records` besides; what it wrote has identifiers that
/// are new and differ from each other; each line is the first record with
/// its identifier; and every identifier of `records` was seen before or is
/// written.
proof fn lemma_run(seen: Set<u32>, records: Seq<ProcessedPageView>)
    ensures
        forall|id: u32|
            #![trigger run(seen, records).0.contains(id)]
            #![trigger has_id(records, id)]
            run(seen, records).0.contains(id) <==> seen.contains(id) || has_id(records, id),
        forall|k: int|
            0 <= k < run(seen, records).1.len() ==> !seen.contains(
                (#[trigger] run(seen, records).1[k]).page_id,
            ),
        forall|k: int|
            0 <= k < run(seen, records).1.len() ==> has_id(
                records,
                (#[trigger] run(seen, records).1[k]).page_id,
            ),
        ids_distinct(run(seen, records).1),
        forall|k: int|
            0 <= k < run(seen, records).1.len() ==> is_first_seen(
                records,
                #[trigger] run(seen, records).1[k],
            ),
        forall|i: int|
            0 <= i < records.len() && !seen.contains((#[trigger] records[i]).page_id) ==> has_id(
                run(seen, records).1,
                records[i].page_id,
            ),
    decreases records.len(),
{
    if records.len() > 0 {
        let lines = run(seen, records).1;
        let earlier = records.drop_last();
        let last = records.last();
        let n = earlier.len() as int;
        lemma_run(seen, earlier);
        let (before, kept) = run(seen, earlier);

        // The identifiers of `records` are those of `earlier` and that of `last`.
        assert forall|id: u32| has_id(earlier, id) implies has_id(records, id) by {
            let i = choose|i: int| 0 <= i < earlier.len() && (#[trigger] earlier[i]).page_id == id;
            assert(records[i].page_id == id);
        }
        assert forall|id: u32| has_id(records, id) implies has_id(earlier, id) || id
            == last.page_id by {
            let i = choose|i: int| 0 <= i < records.len() && (#[trigger] records[i]).page_id == id;
            if i < n {
                assert(earlier[i].page_id == id);
            }
        }
        assert(records[n] == last);

        // What was first in `earlier` is first in `records`.
        assert forall|k: int| 0 <= k < kept.len() implies is_first_seen(
            records,
            #[trigger] kept[k],
        ) by {
            let i = choose|i: int| #[trigger] is_first_with_id(earlier, i) && earlier[i] == kept[k];
            assert forall|j: int| 0 <= j < i implies (#[trigger] records[j]).page_id
                != records[i].page_id by {
                assert(earlier[j].page_id != earlier[i].page_id);
            }
            assert(is_first_with_id(records, i));
        }
        assert forall|i: int|
            0 <= i < n && !seen.contains((#[trigger] records[i]).page_id) implies has_id(
            kept,
            records[i].page_id,
        ) by {
            assert(earlier[i] == records[i]);
        }

        if before.contains(last.page_id) {
            // `last` is dropped: its identifier was seen at the start or has its line.
            assert(lines == kept);
            if !seen.contains(last.page_id) {
                let j = choose|j: int|
                    0 <= j < earlier.len() && (#[trigger] earlier[j]).page_id == last.page_id;
                assert(has_id(kept, records[j].page_id));
            }
        } else {
            // `last` is written: no record before it has its identifier.
            assert(lines == kept.push(last));
            assert forall|j: int| 0 <= j < n implies (#[trigger] records[j]).page_id
                != last.page_id by {
                assert(has_id(earlier, earlier[j].page_id));
            }
            assert(is_first_with_id(records, n));
            assert(is_first_seen(records, last));
            assert forall|id: u32| has_id(kept, id) implies has_id(lines, id) by {
                let k = choose|k: int| 0 <= k < kept.len() && (#[trigger] kept[k]).page_id == id;
                assert(lines[k].page_id == id);
            }
            assert(lines[kept.len() as int] == last);
            assert forall|a: int, b: int| 0 <= a < b < lines.len() implies (#[trigger] lines[a]).page_id
                != (#[trigger] lines[b]).page_id by {
                if b == kept.len() {
                    assert(has_id(earlier, kept[a].page_id));
                } else {
                    assert(kept[a].page_id != kept[b].page_id);
                }
            }
            assert forall|k: int| 0 <= k < lines.len() implies is_first_seen(
                records,
                #[trigger] lines[k],
            ) by {
                if k < kept.len() {
                    assert(lines[k] == kept[k]);
                }
            }
        }
    }
}

/// The output store holds at most one line per identifier: no two records
/// written share one.
pub proof fn lemma_written_ids_distinct(records: Seq<ProcessedPageView>)
    ensures
        ids_distinct(written(records)),
{
    lemma_run(Set::empty(), records);
}

/// The first record wins: every line written is the first of the records
/// that reached the writer with its identifier.
pub proof fn lemma_written_is_first_seen(records: Seq<ProcessedPageView>, k: int)
    requires
        0 <= k < written(records).len(),
    ensures
        is_first_seen(records, written(records)[k]),
{
    lemma_run(Set::empty(), records);
}

/// Nothing is lost to the dedup: every identifier that reached the writer
/// has its line, and no line has an identifier that never reached it.
pub proof fn lemma_written_covers_ids(records: Seq<ProcessedPageView>, id: u32)
    ensures
        has_id(written(records), id) <==> has_id(records, id),
        run(Set::empty(), records).0.contains(id) <==> has_id(records, id),
{
    lemma_run(Set::empty(), records);
    if has_id(records, id) {
        let i = choose|i: int| 0 <= i < records.len() && (#[trigger] records[i]).page_id == id;
        assert(has_id(written(records), records[i].page_id));
    }
    if has_id(written(records), id) {
        let k = choose|k: int|
            0 <= k < written(records).len() && (#[trigger] written(records)[k]).page_id == id;
        assert(has_id(records, written(records)[k].page_id));
    }
}

/// A record that reaches the writer a second time changes nothing: running
/// the writer on what it wrote writes the same again.
pub proof fn lemma_written_is_fixed_point(records: Seq<ProcessedPageView>)
    ensures
        written(written(records)) == written(records),
{
    lemma_written_ids_distinct(records);
    lemma_distinct_all_written(written(records));
}

/// Records whose identifiers differ from each other are all written, in
/// their order.
pub proof fn lemma_distinct_all_written(records: Seq<ProcessedPageView>)
    requires
        ids_distinct(records),
    ensures
        written(records) == records,
    decreases records.len(),
{
    if records.len() > 0 {
        let earlier = records.drop_last();
        let last = records.last();
        assert forall|a: int, b: int| 0 <= a < b < earlier.len() implies (#[trigger] earlier[a]).page_id
            != (#[trigger] earlier[b]).page_id by {
            assert(records[a].page_id != records[b].page_id);
        }
        lemma_distinct_all_written(earlier);
        lemma_run(Set::empty(), earlier);
        if run(Set::empty(), earlier).0.contains(last.page_id) {
            // Impossible: an earlier record would share the identifier of `last`.
            assert(has_id(earlier, last.page_id));
            let j = choose|j: int|
                0 <= j < earlier.len() && (#[trigger] earlier[j]).page_id == last.page_id;
            assert(records[j].page_id != records[records.len() - 1].page_id);
        }
    }
    assert(written(records) =~= records);
}

} // verus!
