//! Decisions of the transcription worker pool: which loaded model serves a
//! request, how many workers run, the at-most-once result store, and the
//! polling wait with its deadline.

use vstd::prelude::*;

use std::collections::HashMap;

use crate::quality::TranscriptionQuality;

verus! {

broadcast use vstd::std_specs::hash::group_hash_axioms;

/// Upper bound on worker threads.
pub const MAX_WORKERS: usize = 8;

/// Capacity of the task queue.
pub const TASK_QUEUE_CAPACITY: usize = 1000;

/// Pause between two looks at the result store while waiting.
pub const POLL_INTERVAL_MS: u64 = 10;

/// Deadline of a blocking transcription.
pub const TRANSCRIBE_TIMEOUT_MS: u64 = 90000;

/// The model tier that serves a request for `requested`, given the tiers
/// that are loaded (in load order): the requested one, else `Medium`, else
/// `Balanced`, else the first loaded one.
pub open spec fn serving_tier(loaded: Seq<TranscriptionQuality>, requested: TranscriptionQuality) -> Option<
    TranscriptionQuality,
> {
    if loaded.contains(requested) {
        Some(requested)
    } else if loaded.contains(TranscriptionQuality::Medium) {
        Some(TranscriptionQuality::Medium)
    } else if loaded.contains(TranscriptionQuality::Balanced) {
        Some(TranscriptionQuality::Balanced)
    } else if loaded.len() > 0 {
        Some(loaded[0])
    } else {
        None
    }
}

fn is_loaded(loaded: &[TranscriptionQuality], q: TranscriptionQuality) -> (r: bool)
    ensures
        r == loaded@.contains(q),
{
    let mut i: usize = 0;
    while i < loaded.len()
        invariant
            i <= loaded@.len(),
            forall|k: int| 0 <= k < i ==> loaded@[k] != q,
        decreases loaded@.len() - i,
    {
        if loaded[i] == q {
            assert(loaded@[i as int] == q);
            return true;
        }
        i += 1;
    }
    false
}

/// Picks the loaded model tier for a request (see `serving_tier`); `None`
/// when no model is loaded.
pub fn select_model_tier(loaded: &[TranscriptionQuality], requested: TranscriptionQuality) -> (r:
    Option<TranscriptionQuality>)
    ensures
        r == serving_tier(loaded@, requested),
{
    if is_loaded(loaded, requested) {
        Some(requested)
    } else if is_loaded(loaded, TranscriptionQuality::Medium) {
        Some(TranscriptionQuality::Medium)
    } else if is_loaded(loaded, TranscriptionQuality::Balanced) {
        Some(TranscriptionQuality::Balanced)
    } else if loaded.len() > 0 {
        Some(loaded[0])
    } else {
        None
    }
}

/// Relies on `num_cpus::get`: the number of logical CPUs available to the
/// process, documented to be at least one.
#[verifier::external_body]
fn available_cpus() -> (r: usize)
    ensures
        r >= 1,
{
    num_cpus::get()
}

/// Worker threads for `cpus` available CPUs: all of them, up to eight.
pub fn workers_for(cpus: usize) -> (r: usize)
    ensures
        r == if cpus < MAX_WORKERS { cpus } else { MAX_WORKERS },
{
    if cpus < MAX_WORKERS {
        cpus
    } else {
        MAX_WORKERS
    }
}

/// Worker threads for this machine: between one and eight.
pub fn worker_count() -> (r: usize)
    ensures
        1 <= r <= MAX_WORKERS,
{
    workers_for(available_cpus())
}

/// What a blocking wait does next.
#[derive(Debug, Clone, Copy, PartialEq, Eq, Structural)]
pub enum WaitStep {
    /// The result is in the store: take it.
    Ready,
    /// The deadline has passed: give up with a timeout.
    TimedOut,
    /// Sleep for `POLL_INTERVAL_MS` and look again.
    Poll,
}

/// One decision of the blocking wait: a present result wins, then the
/// deadline (passed once more than `timeout_ms` have elapsed).
pub fn wait_step(result_ready: bool, elapsed_ms: u64, timeout_ms: u64) -> (r: WaitStep)
    ensures
        result_ready ==> r == WaitStep::Ready,
        !result_ready && elapsed_ms > timeout_ms ==> r == WaitStep::TimedOut,
        !result_ready && elapsed_ms <= timeout_ms ==> r == WaitStep::Poll,
{
    if result_ready {
        WaitStep::Ready
    } else if elapsed_ms > timeout_ms {
        WaitStep::TimedOut
    } else {
        WaitStep::Poll
    }
}

/// Counters of one model instance.
#[derive(Debug, Clone, Copy, PartialEq, Eq)]
pub struct ModelStats {
    pub quality: TranscriptionQuality,
    pub total_processed: u64,
    pub total_processing_time_ms: u64,
    pub average_processing_time_ms: u64,
    pub uptime: std::time::Duration,
}

impl ModelStats {
    /// Statistics from a model's counters; the average is rounded down and
    /// is zero before the first transcription.
    pub fn from_counters(
        quality: TranscriptionQuality,
        total_processed: u64,
        total_processing_time_ms: u64,
        uptime: std::time::Duration,
    ) -> (r: ModelStats)
        ensures
            r.quality == quality,
            r.total_processed == total_processed,
            r.total_processing_time_ms == total_processing_time_ms,
            r.average_processing_time_ms == if total_processed > 0 {
                total_processing_time_ms / total_processed
            } else {
                0
            },
            r.uptime == uptime,
    {
        let average = if total_processed > 0 {
            total_processing_time_ms / total_processed
        } else {
            0
        };
        ModelStats {
            quality,
            total_processed,
            total_processing_time_ms,
            average_processing_time_ms: average,
            uptime,
        }
    }
}

/// Completed results keyed by task id, each handed out at most once.
pub struct ResultStore<T> {
    entries: HashMap<u128, T>,
}

impl<T> ResultStore<T> {
    /// The stored results by task id.
    pub closed spec fn view_map(&self) -> Map<u128, T> {
        self.entries@
    }

    /// An empty store.
    pub fn new() -> (r: Self)
        ensures
            r.view_map() == Map::<u128, T>::empty(),
    {
        ResultStore { entries: HashMap::new() }
    }

    /// Is a result for `id` waiting?
    pub fn contains(&self, id: u128) -> (r: bool)
        ensures
            r == self.view_map().contains_key(id),
    {
        self.entries.contains_key(&id)
    }

    /// Stores the result of task `id`, replacing an earlier one.
    pub fn insert(&mut self, id: u128, result: T)
        ensures
            final(self).view_map() == old(self).view_map().insert(id, result),
    {
        self.entries.insert(id, result);
    }

    /// Removes and returns the result of task `id`, if present: a second
    /// call for the same id returns `None`.
    pub fn take(&mut self, id: u128) -> (r: Option<T>)
        ensures
            final(self).view_map() == old(self).view_map().remove(id),
            old(self).view_map().contains_key(id) ==> r == Some(old(self).view_map()[id]),
            !old(self).view_map().contains_key(id) ==> r is None,
    {
        self.entries.remove(&id)
    }
}

} // verus!
