use crate::dispatcher::{pending_seq, DispatchState, Offer, Phase, Step};
use vstd::prelude::*;

verus! {

proof fn lemma_offer_wf(s: DispatchState)
    requires
        s.wf(),
        s.next_id < u64::MAX,
    ensures
        s.offer().0.wf(),
{
    let t = s.offer().0;
    if s.phase == Phase::Running && s.queue.len() < s.capacity {
        assert(t.admitted =~= t.enqueued.take(t.admitted.len() as int));
        assert(t.enqueued =~= t.admitted + pending_seq(t.pending) + t.queue);
    }
}

proof fn lemma_poll_wf(s: DispatchState)
    requires
        s.wf(),
    ensures
        s.take_next().wf(),
        s.poll().0.wf(),
{
    if s.phase == Phase::Running {
        let t = s.take_next();
        if s.pending is None && s.queue.len() > 0 {
            assert(t.enqueued =~= t.admitted + pending_seq(t.pending) + t.queue);
        }
        if let Some(id) = t.pending {
            if t.inflight.len() < t.max_inflight {
                let u = s.poll().0;
                assert(t.enqueued[t.admitted.len() as int] == id);
                assert forall|i: int| 0 <= i < t.inflight.len() implies t.inflight[i] != id by {
                    assert(t.inflight[i] < t.admitted.len());
                }
                assert(u.admitted =~= u.enqueued.take(u.admitted.len() as int));
                assert(u.enqueued =~= u.admitted + pending_seq(u.pending) + u.queue);
            }
        }
    }
}

proof fn lemma_finish_wf(s: DispatchState, id: u64)
    requires
        s.wf(),
    ensures
        s.finish(id).0.wf(),
        s.inflight.contains(id) ==> s.finish(id).0.inflight.len() + 1 == s.inflight.len(),
{
    if s.inflight.contains(id) {
        let o = s.inflight;
        o.index_of_first_ensures(id);
        let k = o.index_of_first(id)->Some_0;
        let n = s.finish(id).0.inflight;
        assert(n == o.remove(k));
        assert forall|a: int, b: int| 0 <= a < n.len() && 0 <= b < n.len() && a != b implies n[a]
            != n[b] by {
            let a2 = if a < k { a } else { a + 1 };
            let b2 = if b < k { b } else { b + 1 };
            assert(n[a] == o[a2]);
            assert(n[b] == o[b2]);
        }
        assert forall|a: int| 0 <= a < n.len() implies (#[trigger] n[a]) < s.admitted.len() by {
            let a2 = if a < k { a } else { a + 1 };
            assert(n[a] == o[a2]);
        }
    }
}

/// The number of running handlers never exceeds the size of the permit
/// pool: a well-formed state holds at most `max_inflight` handlers, and every
/// transition of the dispatcher leads from a well-formed state to a
/// well-formed one.
pub proof fn lemma_inflight_never_exceeds(s: DispatchState, id: u64)
    requires
        s.wf(),
    ensures
        s.inflight.len() <= s.max_inflight,
        s.next_id < u64::MAX ==> s.offer().0.wf(),
        s.producer_ended().wf(),
        s.poll().0.wf(),
        s.finish(id).0.wf(),
        s.cancel().wf(),
        s.poll().0.inflight.len() <= s.max_inflight,
{
    if s.next_id < u64::MAX {
        lemma_offer_wf(s);
    }
    lemma_poll_wf(s);
    lemma_finish_wf(s, id);
    assert(s.cancel().admitted == s.cancel().enqueued.take(s.admitted.len() as int));
}

/// Backpressure: while the queue is full, the producer's attempt to enqueue
/// does not complete and changes nothing (the request stays with the
/// producer); once the dispatch loop takes a request out, a slot is free and
/// the next attempt enqueues.
pub proof fn lemma_backpressure(s: DispatchState)
    requires
        s.wf(),
        s.phase == Phase::Running,
        s.queue.len() == s.capacity,
    ensures
        s.offer() == (s, Offer::Full),
        s.pending is None ==> {
            let t = s.poll().0;
            &&& t.queue.len() < t.capacity
            &&& t.offer().1 == Offer::Queued(s.next_id as u64)
        },
{
}

/// No request is dropped while the dispatcher runs: an attempt to enqueue
/// either puts the request at the back of the queue or reports the queue as
/// full; only a closed queue drops it.
pub proof fn lemma_no_silent_drop(s: DispatchState)
    requires
        s.wf(),
        s.next_id < u64::MAX,
    ensures
        s.offer().1 == Offer::Closed <==> s.phase != Phase::Running,
        s.offer().1 == Offer::Full ==> s.offer().0 == s,
        s.offer().1 is Queued ==> {
            &&& s.offer().0.queue == s.queue.push(s.offer().1->Queued_0)
            &&& s.offer().0.queue.len() <= s.capacity
        },
{
}

/// When a handler ends, by its deadline or otherwise, its permit is back in
/// the pool at once: the handler group shrinks by one, and a request that
/// waits is admitted on the next turn of the loop.
pub proof fn lemma_finish_releases_permit(s: DispatchState, id: u64)
    requires
        s.wf(),
        s.phase == Phase::Running,
        s.inflight.contains(id),
    ensures
        s.finish(id).1,
        s.finish(id).0.inflight.len() + 1 == s.inflight.len(),
        s.finish(id).0.inflight.len() < s.max_inflight,
        !s.finish(id).0.inflight.contains(id),
        (s.pending is Some || s.queue.len() > 0) ==> s.finish(id).0.poll().1 is Admit,
{
    lemma_finish_wf(s, id);
    let o = s.inflight;
    o.index_of_first_ensures(id);
    let k = o.index_of_first(id)->Some_0;
    let n = s.finish(id).0.inflight;
    if n.contains(id) {
        let j = choose|j: int| 0 <= j < n.len() && n[j] == id;
        let j2 = if j < k { j } else { j + 1 };
        assert(n[j] == o[j2]);
    }
}

/// Cancellation aborts everything at once: no handler is left in the group,
/// the producer is ended, the loop exits on its next turn whatever was
/// running, a handler that ends later changes nothing, and cancelling again
/// changes nothing.
pub proof fn lemma_cancel_ends_all(s: DispatchState, id: u64)
    requires
        s.wf(),
    ensures
        s.cancel().wf(),
        s.cancel().inflight.len() == 0,
        !s.cancel().producer_live,
        s.cancel().phase == Phase::Cancelled,
        s.cancel().poll() == (s.cancel(), Step::Exit),
        s.cancel().finish(id) == (s.cancel(), false),
        s.cancel().cancel() == s.cancel(),
{
    lemma_inflight_never_exceeds(s, id);
    assert(s.cancel().cancel() =~= s.cancel());
}

/// Requests are admitted in the order in which they were enqueued: the
/// admitted requests are always the oldest ones enqueued, in order, and each
/// admission takes the oldest request still waiting.
pub proof fn lemma_fifo(s: DispatchState)
    requires
        s.wf(),
    ensures
        s.admitted.len() <= s.enqueued.len(),
        forall|i: int| 0 <= i < s.admitted.len() ==> #[trigger] s.admitted[i] == s.enqueued[i],
        forall|i: int, j: int| 0 <= i < j < s.admitted.len() ==> s.admitted[i] < s.admitted[j],
        s.poll().1 is Admit ==> {
            &&& s.poll().1->Admit_0 == (pending_seq(s.pending) + s.queue)[0]
            &&& s.poll().0.admitted == s.admitted.push(s.poll().1->Admit_0)
        },
{
    assert forall|i: int| 0 <= i < s.admitted.len() implies #[trigger] s.admitted[i]
        == s.enqueued[i] by {
        assert(s.admitted[i] == s.enqueued.take(s.admitted.len() as int)[i]);
    }
    assert forall|i: int, j: int| 0 <= i < j < s.admitted.len() implies s.admitted[i]
        < s.admitted[j] by {
        assert(s.admitted[i] == s.enqueued[i]);
        assert(s.admitted[j] == s.enqueued[j]);
    }
}

} // verus!
