//! Tests of the delay-path policy and the schedules' lock discipline.

use sensilo::delay::{GeneralPurposeDelay, WaitPath, BUSY_WAIT_THRESHOLD_MS, BUSY_WAIT_THRESHOLD_US};
use sensilo::schedule::{fast_cycle_steps, slow_cycle_steps, Step};

#[test]
fn wait_path_thresholds() {
    assert_eq!(BUSY_WAIT_THRESHOLD_MS, 10);
    assert_eq!(BUSY_WAIT_THRESHOLD_US, 10_000);

    assert_eq!(GeneralPurposeDelay::path_us(0), WaitPath::Busy);
    assert_eq!(GeneralPurposeDelay::path_us(9_999), WaitPath::Busy);
    assert_eq!(GeneralPurposeDelay::path_us(10_000), WaitPath::Yield);
    assert_eq!(GeneralPurposeDelay::path_us(u32::MAX), WaitPath::Yield);

    assert_eq!(GeneralPurposeDelay::path_ms(0), WaitPath::Busy);
    assert_eq!(GeneralPurposeDelay::path_ms(9), WaitPath::Busy);
    assert_eq!(GeneralPurposeDelay::path_ms(10), WaitPath::Yield);
    assert_eq!(GeneralPurposeDelay::path_ms(30_000), WaitPath::Yield);
}

#[test]
fn wait_paths_agree_across_units() {
    for ms in 0..100u16 {
        let by_ms = GeneralPurposeDelay::path_ms(ms);
        let by_us = GeneralPurposeDelay::path_us(u32::from(ms) * 1_000);
        assert_eq!(by_ms, by_us, "{ms} ms");
    }
}

/// Replays a step sequence, tracking how deep the lock is held before each
/// step, and checks the lock discipline at every step.
fn check_lock_discipline(steps: &[Step]) {
    let mut depth: i64 = 0;
    for step in steps {
        match step {
            Step::Acquire => {
                assert_eq!(depth, 0, "nested acquire");
                depth += 1;
            }
            Step::Release => {
                assert_eq!(depth, 1, "release without acquire");
                depth -= 1;
            }
            Step::MergeReads | Step::TakeSnapshot | Step::FeedGas | Step::RecordGas => {
                assert_eq!(depth, 1, "shared state touched outside the lock");
            }
            Step::Submit | Step::Sleep => {
                assert_eq!(depth, 0, "blocking step under the lock");
            }
        }
    }
    assert_eq!(depth, 0, "lock still held at cycle end");
}

#[test]
fn slow_cycle_order() {
    let steps = slow_cycle_steps();
    assert_eq!(
        steps,
        vec![
            Step::Acquire,
            Step::MergeReads,
            Step::TakeSnapshot,
            Step::Release,
            Step::Submit,
            Step::Sleep,
        ]
    );
}

#[test]
fn fast_cycle_order() {
    let steps = fast_cycle_steps();
    assert_eq!(
        steps,
        vec![Step::Acquire, Step::FeedGas, Step::RecordGas, Step::Release]
    );
}

#[test]
fn lock_never_held_during_submit_or_sleep() {
    check_lock_discipline(&slow_cycle_steps());
    check_lock_discipline(&fast_cycle_steps());

    // any sequence of cycles of either schedule keeps the discipline
    let mut run: Vec<Step> = Vec::new();
    for _ in 0..5 {
        run.extend(slow_cycle_steps());
    }
    check_lock_discipline(&run);
    let mut run: Vec<Step> = Vec::new();
    for _ in 0..150 {
        run.extend(fast_cycle_steps());
    }
    check_lock_discipline(&run);
}
