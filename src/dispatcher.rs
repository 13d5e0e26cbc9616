use crate::tuning::AppTuning;
use std::collections::VecDeque;
use vstd::prelude::*;

verus! {

/// Seconds a handler may run, from its start, before it is ended and its
/// permit released.
pub const CLIENT_TIMEOUT_SECS: u64 = 70;

/// Where the dispatch loop stands.
#[derive(Clone, Copy, Debug, PartialEq, Eq, Structural)]
pub enum Phase {
    /// Taking requests from the queue and admitting handlers.
    Running,
    /// The cancellation signal was observed: every task has been aborted.
    Cancelled,
    /// The producer ended and the queue ran dry: the loop has exited.
    Drained,
}

/// What became of the producer's attempt to enqueue one request.
#[derive(Clone, Copy, Debug, PartialEq, Eq, Structural)]
pub enum Offer {
    /// The request is in the queue under this number.
    Queued(u64),
    /// The queue is at capacity: the producer keeps the request and waits
    /// for a slot to free before it tries again.
    Full,
    /// The queue was closed by the consumer side: the request is dropped and
    /// the producer ends.
    Closed,
}

/// What the dispatch loop does next.
#[derive(Clone, Copy, Debug, PartialEq, Eq, Structural)]
pub enum Step {
    /// Spawn a handler for this request; it holds a permit until it ends.
    Admit(u64),
    /// A request is dequeued but every permit is held: wait for a handler to end.
    WaitPermit,
    /// The queue is empty and the producer still runs: wait for a request.
    WaitItem,
    /// Leave the loop.
    Exit,
}

/// The abstract state of a dispatcher.
pub struct DispatchState {
    /// Requests waiting in the bounded queue, oldest first.
    pub queue: Seq<u64>,
    /// A request taken from the queue that still waits for a permit.
    pub pending: Option<u64>,
    /// The handler group: requests admitted whose handler has not ended.
    /// Each one holds one permit.
    pub inflight: Seq<u64>,
    /// Capacity of the bounded queue.
    pub capacity: nat,
    /// Size of the permit pool.
    pub max_inflight: nat,
    /// Whether the producer task is still live.
    pub producer_live: bool,
    pub phase: Phase,
    /// The number the next enqueued request receives.
    pub next_id: nat,
    /// Every request ever enqueued, in order of enqueuing.
    pub enqueued: Seq<u64>,
    /// Every request ever admitted, in order of admission.
    pub admitted: Seq<u64>,
}

/// The handlers and the producer that a mass-abort ends.
pub struct AbortPlan {
    pub handlers: Vec<u64>,
    pub producer: bool,
}

/// The pending request, if any, as a sequence of length at most one.
pub open spec fn pending_seq(p: Option<u64>) -> Seq<u64> {
    match p {
        Some(x) => seq![x],
        None => Seq::empty(),
    }
}

impl DispatchState {
    /// The state's invariant: both bounds hold, requests are numbered from 0
    /// in order of enqueuing, and admission follows that order.
    pub open spec fn wf(self) -> bool {
        &&& self.capacity > 0
        &&& self.max_inflight > 0
        &&& self.queue.len() <= self.capacity
        &&& self.inflight.len() <= self.max_inflight
        &&& self.inflight.no_duplicates()
        &&& forall|i: int|
            0 <= i < self.inflight.len() ==> (#[trigger] self.inflight[i]) < self.admitted.len()
        &&& self.next_id <= u64::MAX
        &&& self.enqueued.len() == self.next_id
        &&& forall|i: int| 0 <= i < self.enqueued.len() ==> #[trigger] self.enqueued[i] == i
        &&& self.admitted.len() <= self.enqueued.len()
        &&& self.admitted == self.enqueued.take(self.admitted.len() as int)
        &&& self.phase == Phase::Running ==> self.enqueued == self.admitted + pending_seq(
            self.pending,
        ) + self.queue
        &&& self.phase != Phase::Running ==> {
            &&& self.queue.len() == 0
            &&& self.pending is None
            &&& !self.producer_live
        }
        &&& self.phase == Phase::Cancelled ==> self.inflight.len() == 0
    }

    /// A fresh dispatcher: empty queue, no handler, producer live.
    pub open spec fn initial(capacity: nat, max_inflight: nat) -> DispatchState {
        DispatchState {
            queue: Seq::empty(),
            pending: None,
            inflight: Seq::empty(),
            capacity,
            max_inflight,
            producer_live: true,
            phase: Phase::Running,
            next_id: 0,
            enqueued: Seq::empty(),
            admitted: Seq::empty(),
        }
    }

    /// The producer tries to enqueue the next request.
    pub open spec fn offer(self) -> (DispatchState, Offer) {
        if self.phase != Phase::Running {
            (DispatchState { producer_live: false, ..self }, Offer::Closed)
        } else if self.queue.len() >= self.capacity {
            (self, Offer::Full)
        } else {
            let id = self.next_id as u64;
            (
                DispatchState {
                    queue: self.queue.push(id),
                    next_id: self.next_id + 1,
                    enqueued: self.enqueued.push(id),
                    ..self
                },
                Offer::Queued(id),
            )
        }
    }

    /// The external request stream ended: the producer exits.
    pub open spec fn producer_ended(self) -> DispatchState {
        DispatchState { producer_live: false, ..self }
    }

    /// Takes the oldest queued request when none is pending.
    pub open spec fn take_next(self) -> DispatchState {
        if self.pending is None && self.queue.len() > 0 {
            DispatchState { pending: Some(self.queue[0]), queue: self.queue.drop_first(), ..self }
        } else {
            self
        }
    }

    /// One turn of the dispatch loop.
    pub open spec fn poll(self) -> (DispatchState, Step) {
        if self.phase != Phase::Running {
            (self, Step::Exit)
        } else {
            let t = self.take_next();
            match t.pending {
                Some(id) => if t.inflight.len() < t.max_inflight {
                    (
                        DispatchState {
                            pending: None,
                            inflight: t.inflight.push(id),
                            admitted: t.admitted.push(id),
                            ..t
                        },
                        Step::Admit(id),
                    )
                } else {
                    (t, Step::WaitPermit)
                },
                None => if t.producer_live {
                    (t, Step::WaitItem)
                } else {
                    (DispatchState { phase: Phase::Drained, ..t }, Step::Exit)
                },
            }
        }
    }

    /// The handler of `id` ended (success, failure or deadline): its permit
    /// returns to the pool and it leaves the handler group.
    pub open spec fn finish(self, id: u64) -> (DispatchState, bool) {
        if self.inflight.contains(id) {
            (DispatchState { inflight: self.inflight.remove_value(id), ..self }, true)
        } else {
            (self, false)
        }
    }

    /// The cancellation signal: abort both task groups and leave the loop.
    pub open spec fn cancel(self) -> DispatchState {
        DispatchState {
            queue: Seq::empty(),
            pending: None,
            inflight: Seq::empty(),
            producer_live: false,
            phase: Phase::Cancelled,
            ..self
        }
    }
}


/// The dispatch state machine: a bounded FIFO queue fed by one producer, a
/// pool of permits that bounds the running handlers, and the handler group
/// that a cancellation aborts at once.
pub struct Dispatcher {
    queue: VecDeque<u64>,
    pending: Option<u64>,
    inflight: Vec<u64>,
    capacity: usize,
    max_inflight: usize,
    producer_live: bool,
    phase: Phase,
    next_id: u64,
    enqueued: Ghost<Seq<u64>>,
    admitted: Ghost<Seq<u64>>,
}

impl View for Dispatcher {
    type V = DispatchState;

    closed spec fn view(&self) -> DispatchState {
        DispatchState {
            queue: self.queue@,
            pending: self.pending,
            inflight: self.inflight@,
            capacity: self.capacity as nat,
            max_inflight: self.max_inflight as nat,
            producer_live: self.producer_live,
            phase: self.phase,
            next_id: self.next_id as nat,
            enqueued: self.enqueued@,
            admitted: self.admitted@,
        }
    }
}

impl Dispatcher {
    /// A dispatcher with a queue of `queue_capacity` and `max_inflight` permits.
    pub fn new(queue_capacity: usize, max_inflight: usize) -> (d: Dispatcher)
        requires
            queue_capacity > 0,
            max_inflight > 0,
        ensures
            d@ == DispatchState::initial(queue_capacity as nat, max_inflight as nat),
            d@.wf(),
    {
        let d = Dispatcher {
            queue: VecDeque::new(),
            pending: None,
            inflight: Vec::new(),
            capacity: queue_capacity,
            max_inflight,
            producer_live: true,
            phase: Phase::Running,
            next_id: 0,
            enqueued: Ghost(Seq::empty()),
            admitted: Ghost(Seq::empty()),
        };
        proof {
            let s = d@;
            assert(s.admitted =~= s.enqueued.take(0));
            assert(s.enqueued =~= s.admitted + pending_seq(s.pending) + s.queue);
        }
        d
    }

    /// A dispatcher sized by a tuning.
    pub fn from_tuning(t: &AppTuning) -> (d: Dispatcher)
        requires
            t.wf(),
        ensures
            d@ == DispatchState::initial(t.queue_capacity as nat, t.max_inflight as nat),
            d@.wf(),
    {
        Dispatcher::new(t.queue_capacity, t.max_inflight)
    }

    /// Whether a further request can still be numbered.
    pub fn has_fresh_id(&self) -> (r: bool)
        ensures
            r == (self@.next_id < u64::MAX),
    {
        self.next_id < u64::MAX
    }

    pub fn phase(&self) -> (r: Phase)
        ensures
            r == self@.phase,
    {
        self.phase
    }

    /// Number of handlers running, that is permits held.
    pub fn inflight_len(&self) -> (r: usize)
        ensures
            r == self@.inflight.len(),
    {
        self.inflight.len()
    }

    /// Number of requests waiting in the queue.
    pub fn queue_len(&self) -> (r: usize)
        ensures
            r == self@.queue.len(),
    {
        self.queue.len()
    }

    /// The producer tries to enqueue one request.
    pub fn offer(&mut self) -> (r: Offer)
        requires
            old(self)@.wf(),
            old(self)@.next_id < u64::MAX,
        ensures
            final(self)@.wf(),
            (final(self)@, r) == old(self)@.offer(),
    {
        if self.phase != Phase::Running {
            self.producer_live = false;
            Offer::Closed
        } else if self.queue.len() >= self.capacity {
            Offer::Full
        } else {
            let id = self.next_id;
            self.queue.push_back(id);
            self.next_id = self.next_id + 1;
            self.enqueued = Ghost(self.enqueued@.push(id));
            proof {
                let s = self@;
                assert(s.admitted == s.enqueued.take(s.admitted.len() as int));
                assert(s.enqueued == s.admitted + pending_seq(s.pending) + s.queue);
            }
            Offer::Queued(id)
        }
    }

    /// The external request stream ended.
    pub fn producer_ended(&mut self)
        requires
            old(self)@.wf(),
        ensures
            final(self)@.wf(),
            final(self)@ == old(self)@.producer_ended(),
    {
        self.producer_live = false;
    }

    /// One turn of the dispatch loop.
    pub fn poll(&mut self) -> (r: Step)
        requires
            old(self)@.wf(),
        ensures
            final(self)@.wf(),
            (final(self)@, r) == old(self)@.poll(),
    {
        if self.phase != Phase::Running {
            return Step::Exit;
        }
        if self.pending.is_none() {
            if let Some(id) = self.queue.pop_front() {
                self.pending = Some(id);
                proof {
                    let s = self@;
                    assert(s.queue == old(self)@.queue.drop_first());
                    assert(s.enqueued == s.admitted + pending_seq(s.pending) + s.queue);
                }
            }
        }
        assert(self@ == old(self)@.take_next());
        match self.pending {
            Some(id) => {
                if self.inflight.len() < self.max_inflight {
                    proof {
                        let s = self@;
                        assert(s.enqueued[s.admitted.len() as int] == id);
                        assert forall|i: int| 0 <= i < s.inflight.len() implies s.inflight[i] != id by {
                            assert(s.inflight[i] < s.admitted.len());
                        }
                    }
                    self.inflight.push(id);
                    self.pending = None;
                    self.admitted = Ghost(self.admitted@.push(id));
                    proof {
                        let s = self@;
                        assert(s.admitted == s.enqueued.take(s.admitted.len() as int));
                        assert(s.enqueued == s.admitted + pending_seq(s.pending) + s.queue);
                    }
                    Step::Admit(id)
                } else {
                    Step::WaitPermit
                }
            },
            None => {
                if self.producer_live {
                    Step::WaitItem
                } else {
                    self.phase = Phase::Drained;
                    Step::Exit
                }
            },
        }
    }

    /// The handler of `id` ended: its permit returns to the pool. Returns
    /// whether `id` was in the handler group.
    pub fn finish(&mut self, id: u64) -> (r: bool)
        requires
            old(self)@.wf(),
        ensures
            final(self)@.wf(),
            (final(self)@, r) == old(self)@.finish(id),
    {
        let mut i: usize = 0;
        while i < self.inflight.len()
            invariant
                self@ == old(self)@,
                old(self)@.wf(),
                i <= self.inflight@.len(),
                forall|j: int| 0 <= j < i ==> self.inflight@[j] != id,
            decreases self.inflight@.len() - i,
        {
            if self.inflight[i] == id {
                proof {
                    let s = self.inflight@;
                    s.index_of_first_ensures(id);
                    assert(s.contains(id));
                    let k = s.index_of_first(id)->Some_0;
                    assert(k == i as int);
                }
                let ghost o = self.inflight@;
                self.inflight.remove(i);
                proof {
                    let s = self@;
                    assert(s.inflight == o.remove(i as int));
                    assert forall|a: int, b: int|
                        0 <= a < s.inflight.len() && 0 <= b < s.inflight.len() && a != b
                        implies s.inflight[a] != s.inflight[b] by {
                        let a2 = if a < i { a } else { a + 1 };
                        let b2 = if b < i { b } else { b + 1 };
                        assert(s.inflight[a] == o[a2]);
                        assert(s.inflight[b] == o[b2]);
                    }
                    assert forall|a: int| 0 <= a < s.inflight.len() implies (
                    #[trigger] s.inflight[a]) < s.admitted.len() by {
                        let a2 = if a < i { a } else { a + 1 };
                        assert(s.inflight[a] == o[a2]);
                    }
                }
                return true;
            }
            i = i + 1;
        }
        assert(!self.inflight@.contains(id));
        false
    }

    /// The cancellation signal: every handler and the producer are to be
    /// aborted at once, without draining. Returns what to abort.
    pub fn cancel(&mut self) -> (plan: AbortPlan)
        requires
            old(self)@.wf(),
        ensures
            final(self)@.wf(),
            final(self)@ == old(self)@.cancel(),
            plan.handlers@ == old(self)@.inflight,
            plan.producer == old(self)@.producer_live,
    {
        let mut handlers: Vec<u64> = Vec::new();
        std::mem::swap(&mut handlers, &mut self.inflight);
        let producer = self.producer_live;
        self.queue.clear();
        self.pending = None;
        self.producer_live = false;
        self.phase = Phase::Cancelled;
        AbortPlan { handlers, producer }
    }
}

} // verus!
