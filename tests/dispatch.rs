use onion_dispatch::{compute_tuning, Dispatcher, Offer, Phase, Step};

fn fill(d: &mut Dispatcher, n: usize) -> Vec<u64> {
    let mut ids = Vec::new();
    for _ in 0..n {
        match d.offer() {
            Offer::Queued(id) => ids.push(id),
            other => panic!("unexpected {:?}", other),
        }
    }
    ids
}

#[test]
fn concurrency_peak_equals_max_inflight() {
    let mut d = Dispatcher::new(16, 3);
    fill(&mut d, 10);
    let mut admitted = 0;
    loop {
        match d.poll() {
            Step::Admit(_) => admitted += 1,
            Step::WaitPermit => break,
            other => panic!("unexpected {:?}", other),
        }
        assert!(d.inflight_len() <= 3);
    }
    assert_eq!(admitted, 3);
    assert_eq!(d.inflight_len(), 3);
    assert_eq!(d.poll(), Step::WaitPermit);
}

#[test]
fn full_queue_pushes_back_without_dropping() {
    let mut d = Dispatcher::new(2, 1);
    assert_eq!(fill(&mut d, 2), vec![0, 1]);
    assert_eq!(d.offer(), Offer::Full);
    assert_eq!(d.offer(), Offer::Full);
    assert_eq!(d.queue_len(), 2);
    // One request leaves the queue: the producer's retry goes through.
    assert_eq!(d.poll(), Step::Admit(0));
    assert_eq!(d.offer(), Offer::Queued(2));
    assert_eq!(d.queue_len(), 2);
}

#[test]
fn dequeued_request_waiting_for_permit_frees_a_slot() {
    let mut d = Dispatcher::new(1, 1);
    assert_eq!(d.offer(), Offer::Queued(0));
    assert_eq!(d.poll(), Step::Admit(0));
    assert_eq!(d.offer(), Offer::Queued(1));
    assert_eq!(d.poll(), Step::WaitPermit);
    assert_eq!(d.queue_len(), 0);
    assert_eq!(d.offer(), Offer::Queued(2));
    assert_eq!(d.offer(), Offer::Full);
}

#[test]
fn timed_out_handler_releases_its_permit() {
    let mut d = Dispatcher::new(4, 1);
    fill(&mut d, 2);
    assert_eq!(d.poll(), Step::Admit(0));
    assert_eq!(d.poll(), Step::WaitPermit);
    // The handler of request 0 hits its deadline.
    assert!(d.finish(0));
    assert_eq!(d.inflight_len(), 0);
    assert_eq!(d.poll(), Step::Admit(1));
    assert!(!d.finish(0));
}

#[test]
fn cancel_aborts_everything_at_once() {
    let mut d = Dispatcher::new(8, 4);
    fill(&mut d, 6);
    for _ in 0..4 {
        assert!(matches!(d.poll(), Step::Admit(_)));
    }
    let plan = d.cancel();
    assert_eq!(plan.handlers, vec![0, 1, 2, 3]);
    assert!(plan.producer);
    assert_eq!(d.phase(), Phase::Cancelled);
    assert_eq!(d.inflight_len(), 0);
    assert_eq!(d.queue_len(), 0);
    assert_eq!(d.poll(), Step::Exit);
    assert_eq!(d.offer(), Offer::Closed);
    assert!(!d.finish(2));
    let again = d.cancel();
    assert!(again.handlers.is_empty());
    assert!(!again.producer);
}

#[test]
fn fifo_admission_order() {
    let mut d = Dispatcher::new(8, 1);
    let ids = fill(&mut d, 3);
    let mut order = Vec::new();
    for _ in 0..3 {
        match d.poll() {
            Step::Admit(id) => {
                order.push(id);
                assert!(d.finish(id));
            }
            other => panic!("unexpected {:?}", other),
        }
    }
    assert_eq!(order, ids);
}

#[test]
fn drained_loop_exits_after_producer_ends() {
    let mut d = Dispatcher::new(4, 2);
    assert_eq!(d.poll(), Step::WaitItem);
    fill(&mut d, 1);
    d.producer_ended();
    assert_eq!(d.poll(), Step::Admit(0));
    assert_eq!(d.poll(), Step::Exit);
    assert_eq!(d.phase(), Phase::Drained);
    assert_eq!(d.offer(), Offer::Closed);
}

#[test]
fn dispatcher_sized_by_tuning() {
    let t = compute_tuning(Some(1));
    let mut d = Dispatcher::from_tuning(&t);
    fill(&mut d, 128);
    assert_eq!(d.offer(), Offer::Full);
    let mut admitted = 0;
    while let Step::Admit(_) = d.poll() {
        admitted += 1;
    }
    assert_eq!(admitted, 64);
    assert!(d.has_fresh_id());
}
