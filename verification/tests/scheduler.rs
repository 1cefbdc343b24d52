//! Tests of the scheduler harness: start validation, cadence, failure
//! resilience, and stop semantics.

use orchestra_core::logfmt::format_record;
use orchestra_core::logfmt::RemapTable;
use orchestra_core::scheduler::{on_job_result, JobDescriptor, Scheduler, SchedulerError};
use orchestra_core::timefmt::Timestamp;
use orchestra_core::Severity;

fn ts() -> Timestamp {
    Timestamp { year: 2024, month: 3, day: 9, hour: 7, minute: 0, second: 0, micros: 0 }
}

#[test]
fn zero_interval_is_an_invalid_cadence() {
    let descriptors = vec![JobDescriptor { id: 1, interval: 60 }, JobDescriptor { id: 2, interval: 0 }];
    match Scheduler::start(&descriptors, 100) {
        Err(SchedulerError::InvalidCadence) => {},
        _ => panic!("a zero interval must be refused"),
    }
}

#[test]
fn jobs_fire_at_their_own_cadence() {
    let descriptors = vec![JobDescriptor { id: 1, interval: 10 }, JobDescriptor { id: 2, interval: 25 }];
    let mut s = Scheduler::start(&descriptors, 100).unwrap();
    assert!(s.running);
    assert_eq!(s.poll(105), Vec::<u64>::new()); // no slot has elapsed yet
    assert_eq!(s.poll(110), vec![1]); // only the fast job is due
    assert_eq!(s.poll(125), vec![1, 2]); // both due; neither blocks the other
    assert_eq!(s.poll(125), Vec::<u64>::new());
}

#[test]
fn first_failure_is_logged_and_the_next_slot_still_fires() {
    let descriptors = vec![JobDescriptor { id: 7, interval: 10 }];
    let mut s = Scheduler::start(&descriptors, 0).unwrap();
    assert_eq!(s.poll(10), vec![7]);
    // The first invocation fails: the harness logs it at Error severity,
    // tagged with the scheduler's component.
    let record = on_job_result(ts(), 7, false).unwrap();
    assert!(matches!(record.severity, Severity::Error));
    assert_eq!(record.component, "scheduler");
    assert_eq!(record.message, "job 7 invocation failed");
    let line = format_record(&RemapTable::new(), &record);
    let v: serde_json::Value = serde_json::from_str(&line).unwrap();
    assert_eq!(v.get("level").unwrap().as_str().unwrap(), "ERROR");
    assert_eq!(v.get("component").unwrap().as_str().unwrap(), "scheduler");
    // The schedule is untouched: the second invocation happens at its slot.
    assert_eq!(s.poll(20), vec![7]);
    // The second invocation succeeds: nothing is logged.
    assert!(on_job_result(ts(), 7, true).is_none());
}

#[test]
fn stop_prevents_future_invocations() {
    let descriptors = vec![JobDescriptor { id: 1, interval: 5 }];
    let mut s = Scheduler::start(&descriptors, 0).unwrap();
    assert_eq!(s.poll(5), vec![1]);
    s.stop();
    assert_eq!(s.poll(1000), Vec::<u64>::new());
    assert!(!s.running);
}

#[test]
fn overdue_jobs_catch_up_one_slot_per_poll() {
    let descriptors = vec![JobDescriptor { id: 1, interval: 10 }];
    let mut s = Scheduler::start(&descriptors, 0).unwrap();
    // Far past several slots: each poll issues one invocation and moves one
    // slot forward.
    assert_eq!(s.poll(35), vec![1]);
    assert_eq!(s.poll(35), vec![1]);
    assert_eq!(s.poll(35), vec![1]);
    assert_eq!(s.poll(35), Vec::<u64>::new());
}
