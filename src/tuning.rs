use vstd::prelude::*;

verus! {

/// Hardware parallelism assumed when the probe fails.
pub const DEFAULT_PARALLELISM: usize = 4;

/// Fewest worker threads the runtime is given.
pub const MIN_WORKER_THREADS: usize = 2;

/// Most worker threads the runtime is given.
pub const MAX_WORKER_THREADS: usize = 32;

/// Concurrent handlers allowed per worker thread.
pub const INFLIGHT_PER_WORKER: usize = 16;

/// Floor on the number of concurrent handlers.
pub const MIN_INFLIGHT: usize = 64;

/// `p` clamped into `[lo, hi]`.
pub open spec fn clamp_spec(p: int, lo: int, hi: int) -> int {
    if p < lo {
        lo
    } else if p > hi {
        hi
    } else {
        p
    }
}

/// Worker threads for a detected parallelism of `p`.
pub open spec fn worker_threads_for(p: int) -> int {
    clamp_spec(p, MIN_WORKER_THREADS as int, MAX_WORKER_THREADS as int)
}

/// Concurrent-handler bound for `w` worker threads.
pub open spec fn max_inflight_for(w: int) -> int {
    if w * INFLIGHT_PER_WORKER >= MIN_INFLIGHT {
        w * INFLIGHT_PER_WORKER
    } else {
        MIN_INFLIGHT as int
    }
}

/// Queue capacity for a concurrent-handler bound of `m`.
pub open spec fn queue_capacity_for(m: int) -> int {
    m * 2
}

/// The runtime's concurrency parameters, derived once from the hardware.
#[derive(Clone, Copy, Debug, PartialEq, Eq, Structural)]
pub struct AppTuning {
    pub queue_capacity: usize,
    pub max_inflight: usize,
    pub worker_threads: usize,
}

impl AppTuning {
    /// The three values derived from a parallelism of `p`, as the tuning rules give them.
    pub open spec fn derived_from(self, p: int) -> bool {
        &&& self.worker_threads == worker_threads_for(p)
        &&& self.max_inflight == max_inflight_for(self.worker_threads as int)
        &&& self.queue_capacity == queue_capacity_for(self.max_inflight as int)
    }

    /// Every tuning the rules can produce: workers in `[2, 32]`, at least 64
    /// handlers, and a queue twice that.
    pub open spec fn wf(self) -> bool {
        &&& MIN_WORKER_THREADS <= self.worker_threads <= MAX_WORKER_THREADS
        &&& self.max_inflight == max_inflight_for(self.worker_threads as int)
        &&& self.queue_capacity == queue_capacity_for(self.max_inflight as int)
    }

    /// Tuning for a detected hardware parallelism of `parallelism`.
    pub fn from_parallelism(parallelism: usize) -> (t: AppTuning)
        ensures
            t.derived_from(parallelism as int),
            t.wf(),
            t.queue_capacity >= 128,
    {
        let worker_threads: usize = if parallelism < MIN_WORKER_THREADS {
            MIN_WORKER_THREADS
        } else if parallelism > MAX_WORKER_THREADS {
            MAX_WORKER_THREADS
        } else {
            parallelism
        };
        let scaled: usize = worker_threads * INFLIGHT_PER_WORKER;
        let max_inflight: usize = if scaled >= MIN_INFLIGHT {
            scaled
        } else {
            MIN_INFLIGHT
        };
        AppTuning { queue_capacity: max_inflight * 2, max_inflight, worker_threads }
    }
}

/// Tuning from the result of the hardware probe: `None` when parallelism could
/// not be detected, in which case a parallelism of 4 is assumed.
pub fn compute_tuning(detected: Option<usize>) -> (t: AppTuning)
    ensures
        t.derived_from(
            match detected {
                Some(p) => p as int,
                None => DEFAULT_PARALLELISM as int,
            },
        ),
        t.wf(),
{
    match detected {
        Some(p) => AppTuning::from_parallelism(p),
        None => AppTuning::from_parallelism(DEFAULT_PARALLELISM),
    }
}

/// A tuning that the rules produce always leaves room for at least 64
/// concurrent handlers and a queue of at least 128, and the queue is exactly
/// twice the handler bound.
pub proof fn lemma_tuning_floors(t: AppTuning)
    requires
        t.wf(),
    ensures
        t.max_inflight >= MIN_INFLIGHT,
        t.queue_capacity >= 128,
        t.queue_capacity == 2 * t.max_inflight,
        t.worker_threads <= t.max_inflight,
{
}

/// For every parallelism `p`, the derived tuning is
/// `clamp(p, 2, 32)` workers, `max(16 * workers, 64)` handlers and a queue of
/// twice that; the tuning is determined by `p` alone.
pub proof fn lemma_tuning_determined(p: int, a: AppTuning, b: AppTuning)
    requires
        a.derived_from(p),
        b.derived_from(p),
    ensures
        a == b,
        a.worker_threads == (if p < 2 { 2 } else if p > 32 { 32 } else { p }),
        a.max_inflight == (if a.worker_threads * 16 >= 64 { a.worker_threads * 16 } else { 64 }),
        a.queue_capacity == a.max_inflight * 2,
{
}

} // verus!
