//! A batcher worker: gathers titles into a batch and decides when the batch
//! is to be fetched.
//!
//! The worker is driven by three events. A title arrives, the flush timer
//! ticks, or the title queue is closed. Each handler answers with the batch
//! to fetch, if the event triggers one. The batch held between events is
//! always shorter than the size cap, so no fetch ever carries more titles
//! than the cap.

use vstd::prelude::*;

verus! {

broadcast use Seq::lemma_flatten_push;

/// The most titles that the content endpoint takes in one request.
pub const TITLE_LIMIT: usize = 50;

/// What one worker holds between two events: the titles that wait for the
/// next fetch, oldest first, and the size cap.
pub struct BatcherView {
    pub batch: Seq<Seq<char>>,
    pub batch_size: nat,
}

/// What can happen to a worker while the title queue is open.
pub enum BatchEvent {
    /// A title arrived.
    Title(Seq<char>),
    /// The flush timer fired.
    Tick,
}

impl BatcherView {
    /// The cap is at least one and within the endpoint's limit, and the batch
    /// that waits is shorter than the cap.
    pub open spec fn wf(self) -> bool {
        &&& 1 <= self.batch_size <= TITLE_LIMIT
        &&& self.batch.len() < self.batch_size
    }

    /// The worker with nothing waiting.
    pub open spec fn drained(self) -> BatcherView {
        BatcherView { batch: Seq::empty(), batch_size: self.batch_size }
    }

    /// A title arrives: it joins the batch, and the batch is flushed when it
    /// has reached the cap.
    pub open spec fn on_title(self, title: Seq<char>) -> (BatcherView, Option<Seq<Seq<char>>>) {
        let grown = self.batch.push(title);
        if grown.len() >= self.batch_size {
            (self.drained(), Some(grown))
        } else {
            (BatcherView { batch: grown, batch_size: self.batch_size }, None)
        }
    }

    /// The timer fires: whatever waits is flushed.
    pub open spec fn on_tick(self) -> (BatcherView, Option<Seq<Seq<char>>>) {
        if self.batch.len() > 0 {
            (self.drained(), Some(self.batch))
        } else {
            (self, None)
        }
    }

    /// The title queue is closed: whatever waits is flushed a last time.
    pub open spec fn on_close(self) -> Option<Seq<Seq<char>>> {
        if self.batch.len() > 0 {
            Some(self.batch)
        } else {
            None
        }
    }

    /// One event while the queue is open.
    pub open spec fn step(self, event: BatchEvent) -> (BatcherView, Option<Seq<Seq<char>>>) {
        match event {
            BatchEvent::Title(title) => self.on_title(title),
            BatchEvent::Tick => self.on_tick(),
        }
    }

    /// The worker after `events`, and the batches it flushed on the way, in
    /// the order of the flushes.
    pub open spec fn run(self, events: Seq<BatchEvent>) -> (BatcherView, Seq<Seq<Seq<char>>>)
        decreases events.len(),
    {
        if events.len() == 0 {
            (self, Seq::empty())
        } else {
            let (before, flushed) = self.run(events.drop_last());
            let (after, batch) = before.step(events.last());
            match batch {
                Some(b) => (after, flushed.push(b)),
                None => (after, flushed),
            }
        }
    }
}

/// The titles that arrive in `events`, in the order of their arrival.
pub open spec fn arrived(events: Seq<BatchEvent>) -> Seq<Seq<char>>
    decreases events.len(),
{
    if events.len() == 0 {
        Seq::empty()
    } else {
        match events.last() {
            BatchEvent::Title(title) => arrived(events.drop_last()).push(title),
            BatchEvent::Tick => arrived(events.drop_last()),
        }
    }
}

/// The batch that a closing worker flushes, as a sequence that may be empty.
pub open spec fn last_flush(state: BatcherView) -> Seq<Seq<char>> {
    match state.on_close() {
        Some(batch) => batch,
        None => Seq::empty(),
    }
}

/// An event together with the time at which it happens, in milliseconds.
pub struct TimedEvent {
    pub at: nat,
    pub event: BatchEvent,
}

/// The events of `timed` without their times.
pub open spec fn untimed(timed: Seq<TimedEvent>) -> Seq<BatchEvent> {
    timed.map_values(|e: TimedEvent| e.event)
}

/// Time does not run backwards in `timed`.
pub open spec fn in_time_order(timed: Seq<TimedEvent>) -> bool {
    forall|a: int, b: int| 0 <= a <= b < timed.len() ==> (#[trigger] timed[a]).at <= (#[trigger] timed[b]).at
}

/// The batch that the event at place `f` of `events` makes a worker flush
/// that started in `state`.
pub open spec fn flushed_at(state: BatcherView, events: Seq<BatchEvent>, f: int) -> Option<
    Seq<Seq<char>>,
> {
    state.run(events.take(f)).0.step(events[f]).1
}

/// One worker of the batcher pool.
pub struct Batcher {
    batch: Vec<String>,
    batch_size: usize,
}

impl View for Batcher {
    type V = BatcherView;

    closed spec fn view(&self) -> BatcherView {
        BatcherView { batch: self.batch.deep_view(), batch_size: self.batch_size as nat }
    }
}

impl Batcher {
    #[verifier::type_invariant]
    spec fn inv(&self) -> bool {
        self@.wf()
    }

    /// A worker with an empty batch that flushes at `batch_size` titles.
    /// A cap of zero, or one above what the endpoint takes, is refused.
    pub fn new(batch_size: usize) -> (worker: Option<Batcher>)
        ensures
            worker is Some <==> 1 <= batch_size <= TITLE_LIMIT,
            worker matches Some(w) ==> w@ == (BatcherView {
                batch: Seq::empty(),
                batch_size: batch_size as nat,
            }) && w@.wf(),
    {
        if batch_size == 0 || batch_size > TITLE_LIMIT {
            return None;
        }
        let worker = Batcher { batch: Vec::new(), batch_size };
        assert(worker.batch.deep_view() =~= Seq::<Seq<char>>::empty());
        Some(worker)
    }

    /// The size cap of this worker.
    pub fn batch_size(&self) -> (cap: usize)
        ensures
            cap == self@.batch_size,
            self@.wf(),
    {
        proof {
            use_type_invariant(self);
        }
        self.batch_size
    }

    /// The number of titles that wait for the next flush.
    pub fn pending(&self) -> (count: usize)
        ensures
            count == self@.batch.len(),
            self@.wf(),
    {
        proof {
            use_type_invariant(self);
        }
        self.batch.len()
    }

    /// Takes the waiting titles out and leaves the batch empty.
    fn take_batch(&mut self) -> (taken: Vec<String>)
        ensures
            taken.deep_view() == old(self)@.batch,
            final(self)@ == old(self)@.drained(),
    {
        proof {
            use_type_invariant(&*self);
        }
        let mut emptied = Batcher { batch: Vec::new(), batch_size: self.batch_size };
        assert(emptied.batch.deep_view() =~= Seq::<Seq<char>>::empty());
        std::mem::swap(self, &mut emptied);
        emptied.batch
    }

    /// A title arrived. It joins the batch behind the titles that wait. When
    /// the batch thereby reaches the size cap, the whole batch is handed back
    /// to be fetched and the worker starts over with an empty one.
    pub fn on_title(&mut self, title: String) -> (flush: Option<Vec<String>>)
        ensures
            old(self)@.wf(),
            final(self)@.wf(),
            (final(self)@, flush.deep_view()) == old(self)@.on_title(title@),
            flush matches Some(batch) ==> batch.len() == old(self)@.batch_size,
    {
        proof {
            use_type_invariant(&*self);
        }
        let ghost before = self@;
        let mut batch = self.take_batch();
        batch.push(title);
        assert(batch.deep_view() =~= before.batch.push(title@));
        if batch.len() >= self.batch_size {
            Some(batch)
        } else {
            self.batch = batch;
            None
        }
    }

    /// The flush timer fired. A batch that is not empty is handed back to be
    /// fetched, whole; with nothing waiting nothing happens.
    pub fn on_tick(&mut self) -> (flush: Option<Vec<String>>)
        ensures
            old(self)@.wf(),
            final(self)@.wf(),
            (final(self)@, flush.deep_view()) == old(self)@.on_tick(),
            flush matches Some(batch) ==> 1 <= batch.len() < old(self)@.batch_size,
    {
        proof {
            use_type_invariant(&*self);
        }
        if self.batch.len() > 0 {
            Some(self.take_batch())
        } else {
            None
        }
    }

    /// The title queue was closed and is empty. The worker ends; a batch that
    /// is not empty is handed back for one last fetch.
    pub fn on_close(self) -> (flush: Option<Vec<String>>)
        ensures
            self@.wf(),
            flush.deep_view() == self@.on_close(),
            flush matches Some(batch) ==> 1 <= batch.len() < self@.batch_size,
    {
        proof {
            use_type_invariant(&self);
        }
        if self.batch.len() > 0 {
            Some(self.batch)
        } else {
            None
        }
    }
}

/// Running a worker keeps it well formed, and every batch it flushes holds at
/// least one title and at most as many as the size cap.
pub proof fn lemma_batches_bounded(state: BatcherView, events: Seq<BatchEvent>)
    requires
        state.wf(),
    ensures
        state.run(events).0.wf(),
        state.run(events).0.batch_size == state.batch_size,
        forall|k: int|
            0 <= k < state.run(events).1.len() ==> 1 <= (#[trigger] state.run(events).1[k]).len()
                <= state.batch_size,
    decreases events.len(),
{
    if events.len() > 0 {
        lemma_batches_bounded(state, events.drop_last());
    }
}

/// The last batch of a closing worker is within the size cap too.
pub proof fn lemma_last_flush_bounded(state: BatcherView)
    requires
        state.wf(),
    ensures
        last_flush(state).len() < state.batch_size,
        state.on_close() matches Some(batch) ==> 1 <= batch.len(),
{
}

/// A title that arrived is flushed by the next tick at the latest: either
/// its arrival fills the batch, which is flushed at once with the title as
/// its last entry, or the title waits and a tick that follows flushes the
/// batch that ends in it and leaves nothing waiting.
pub proof fn lemma_tick_flushes_arrival(state: BatcherView, title: Seq<char>)
    requires
        state.wf(),
    ensures
        ({
            let (waiting, flushed) = state.on_title(title);
            match flushed {
                Some(batch) => batch == state.batch.push(title) && waiting.batch.len() == 0,
                None => waiting.on_tick() == (
                    state.drained(),
                    Some(state.batch.push(title)),
                ),
            }
        }),
{
}

/// A title does not wait longer than one period of the flush timer. Let a
/// title arrive, let no other title arrive after it until a tick that comes
/// at most `period` later, as a timer of that period sees to. Then an event
/// no later than that tick flushes a batch that ends in the title.
pub proof fn lemma_flush_within_period(
    state: BatcherView,
    timed: Seq<TimedEvent>,
    arrival: int,
    tick: int,
    period: nat,
    title: Seq<char>,
)
    requires
        state.wf(),
        in_time_order(timed),
        0 <= arrival < tick < timed.len(),
        timed[arrival].event == BatchEvent::Title(title),
        timed[tick].event is Tick,
        timed[tick].at <= timed[arrival].at + period,
        forall|k: int| arrival < k < tick ==> (#[trigger] timed[k]).event is Tick,
    ensures
        exists|f: int|
            arrival <= f <= tick && timed[f].at <= timed[arrival].at + period && (#[trigger] flushed_at(
                state,
                untimed(timed),
                f,
            ) matches Some(batch) && batch.len() > 0 && batch.last() == title),
{
    let events = untimed(timed);
    let before = state.run(events.take(arrival)).0;
    lemma_batches_bounded(state, events.take(arrival));
    match before.on_title(title).1 {
        Some(batch) => {
            // The arrival fills the batch: it is flushed at once.
            assert(flushed_at(state, events, arrival) == Some(batch));
        },
        None => {
            // The title waits, and the event that follows is a tick.
            let next = arrival + 1;
            assert(events.take(next).drop_last() =~= events.take(arrival));
            assert(flushed_at(state, events, next) == Some(before.batch.push(title)));
        },
    }
}

/// No title is lost or made up, and none changes its place: the batches
/// flushed so far, one after the other, followed by what still waits, are
/// exactly what waited at the start followed by the titles that arrived.
pub proof fn lemma_titles_conserved(state: BatcherView, events: Seq<BatchEvent>)
    ensures
        state.run(events).1.flatten() + state.run(events).0.batch == state.batch + arrived(events),
    decreases events.len(),
{
    if events.len() > 0 {
        let earlier = events.drop_last();
        lemma_titles_conserved(state, earlier);
        if let BatchEvent::Title(title) = events.last() {
            assert(state.batch + arrived(events) =~= (state.batch + arrived(earlier)).push(title));
        }
    }
}

/// When the title queue closes, every title that ever arrived has been
/// flushed: the batches flushed while the queue was open followed by the last
/// flush are exactly the titles that arrived, in their order.
pub proof fn lemma_close_flushes_all(batch_size: nat, events: Seq<BatchEvent>)
    ensures
        ({
            let start = BatcherView { batch: Seq::empty(), batch_size };
            let (end, flushed) = start.run(events);
            flushed.flatten() + last_flush(end) == arrived(events)
        }),
{
    lemma_titles_conserved(BatcherView { batch: Seq::empty(), batch_size }, events);
}

} // verus!
