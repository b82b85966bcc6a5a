use std::sync::atomic::{AtomicBool, Ordering};
use std::sync::Arc;

use tokio_based::lifecycle::Lifecycle;
use tokio_based::signal::StopSignal;

fn fresh(worker: u32) -> (Lifecycle<u32>, Arc<AtomicBool>, tokio::sync::oneshot::Receiver<()>) {
    let run = Arc::new(AtomicBool::new(true));
    let (stop, receiver) = StopSignal::new();
    (Lifecycle::new(run.clone(), stop, worker), run, receiver)
}

#[test]
fn fresh_lifecycle_is_armed_and_running() {
    let (lc, run, _receiver) = fresh(1);
    assert!(lc.is_armed());
    assert!(run.load(Ordering::SeqCst));
    assert!(Arc::ptr_eq(lc.run_flag(), &run));
}

#[test]
fn teardown_clears_flag_and_hands_out_worker() {
    let (mut lc, run, _receiver) = fresh(7);
    assert_eq!(lc.release(), Some(7));
    assert!(!run.load(Ordering::SeqCst));
    assert!(!lc.is_armed());
}

#[test]
fn second_teardown_is_a_no_op() {
    let (mut lc, run, _receiver) = fresh(3);
    assert_eq!(lc.release(), Some(3));
    assert_eq!(lc.release(), None);
    assert!(!run.load(Ordering::SeqCst));
    assert!(!lc.is_armed());
}

#[test]
fn immediate_teardown_delivers_stop_signal() {
    let (mut lc, _run, mut receiver) = fresh(0);
    assert!(receiver.try_recv().is_err());
    assert_eq!(lc.release(), Some(0));
    assert_eq!(receiver.try_recv(), Ok(()));
}

#[test]
fn teardown_after_worker_exit_is_not_an_error() {
    let (mut lc, run, receiver) = fresh(5);
    drop(receiver);
    assert_eq!(lc.release(), Some(5));
    assert!(!run.load(Ordering::SeqCst));
}

#[test]
fn every_descendant_sees_cleared_flag() {
    let (mut lc, run, _receiver) = fresh(9);
    let descendants: Vec<Arc<AtomicBool>> = (0..16).map(|_| run.clone()).collect();
    assert!(descendants.iter().all(|d| d.load(Ordering::SeqCst)));
    assert_eq!(lc.release(), Some(9));
    assert!(descendants.iter().all(|d| !d.load(Ordering::SeqCst)));
}

#[test]
fn independent_contexts_do_not_interfere() {
    let (mut first, first_run, _r1) = fresh(1);
    let (second, second_run, mut r2) = fresh(2);
    assert_eq!(first.release(), Some(1));
    assert!(!first_run.load(Ordering::SeqCst));
    assert!(second.is_armed());
    assert!(second_run.load(Ordering::SeqCst));
    assert!(r2.try_recv().is_err());
}

#[test]
fn shared_flag_is_cleared_for_every_context() {
    let run = Arc::new(AtomicBool::new(true));
    let (s1, _r1) = StopSignal::new();
    let (s2, _r2) = StopSignal::new();
    let mut first = Lifecycle::new(run.clone(), s1, 1u8);
    let second = Lifecycle::new(run.clone(), s2, 2u8);
    assert_eq!(first.release(), Some(1));
    assert!(!second.run_flag().load(Ordering::SeqCst));
    assert!(second.is_armed());
}

#[test]
fn stop_signal_fires_once() {
    let (mut stop, mut receiver) = StopSignal::new();
    assert!(stop.is_armed());
    assert!(stop.fire());
    assert!(!stop.is_armed());
    assert!(!stop.fire());
    assert_eq!(receiver.try_recv(), Ok(()));
}
