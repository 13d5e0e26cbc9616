use onion_dispatch::{compute_tuning, AppTuning};

#[test]
fn tuning_single_core_hits_floors() {
    let t = compute_tuning(Some(1));
    assert_eq!(t.worker_threads, 2);
    assert_eq!(t.max_inflight, 64);
    assert_eq!(t.queue_capacity, 128);
}

#[test]
fn tuning_many_cores_capped() {
    let t = compute_tuning(Some(64));
    assert_eq!(t.worker_threads, 32);
    assert_eq!(t.max_inflight, 512);
    assert_eq!(t.queue_capacity, 1024);
}

#[test]
fn tuning_undetected_defaults_to_four() {
    let t = compute_tuning(None);
    assert_eq!(t.worker_threads, 4);
    assert_eq!(t.max_inflight, 64);
    assert_eq!(t.queue_capacity, 128);
}

#[test]
fn tuning_mid_range_scales() {
    let t = AppTuning::from_parallelism(8);
    assert_eq!(t.worker_threads, 8);
    assert_eq!(t.max_inflight, 128);
    assert_eq!(t.queue_capacity, 256);
}

#[test]
fn tuning_zero_and_huge() {
    assert_eq!(compute_tuning(Some(0)).worker_threads, 2);
    let t = compute_tuning(Some(usize::MAX));
    assert_eq!(t.worker_threads, 32);
    assert_eq!(t.max_inflight, 512);
}

#[test]
fn tuning_floors_hold_for_all_small_values() {
    for p in 0..100usize {
        let t = compute_tuning(Some(p));
        assert!(t.worker_threads >= 2 && t.worker_threads <= 32);
        assert_eq!(t.max_inflight, std::cmp::max(t.worker_threads * 16, 64));
        assert_eq!(t.queue_capacity, t.max_inflight * 2);
        assert!(t.queue_capacity >= 128);
    }
}
