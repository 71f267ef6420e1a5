//! The fixed configuration of a crawl.

use crate::batcher::TITLE_LIMIT;
use vstd::prelude::*;

verus! {

/// The options of the pipeline.
#[derive(Debug, Clone, Copy, PartialEq, Eq)]
pub struct Config {
    /// The most titles that one fetch carries.
    pub batch_size: usize,
    /// The longest time, in milliseconds, that a title waits in a batch
    /// before the batch is flushed.
    pub flush_interval_ms: u64,
    /// The number of batcher workers.
    pub worker_count: usize,
    /// The capacity of each of the two queues.
    pub queue_capacity: usize,
}

impl Config {
    /// The configuration of a standard crawl: batches of 5 titles, flushed
    /// after half a second at the latest, 5 workers, queues of 5000 items.
    pub open spec fn standard() -> Config {
        Config { batch_size: 5, flush_interval_ms: 500, worker_count: 5, queue_capacity: 5000 }
    }

    /// A configuration can be run when its batches hold at least one title
    /// and no more than the content endpoint takes, its flush timer has a
    /// period, and it has a worker.
    pub open spec fn valid(&self) -> bool {
        &&& 1 <= self.batch_size <= TITLE_LIMIT
        &&& 1 <= self.flush_interval_ms
        &&& 1 <= self.worker_count
    }

    /// Whether this configuration can be run.
    pub fn is_valid(&self) -> (ok: bool)
        ensures
            ok == self.valid(),
    {
        1 <= self.batch_size && self.batch_size <= TITLE_LIMIT && 1 <= self.flush_interval_ms && 1
            <= self.worker_count
    }
}

impl Default for Config {
    /// The standard configuration, which is valid.
    fn default() -> (config: Config)
        ensures
            config == Config::standard(),
            config.valid(),
    {
        Config { batch_size: 5, flush_interval_ms: 500, worker_count: 5, queue_capacity: 5000 }
    }
}

} // verus!
