use smooth_convolver::config::{check_config, is_power_of_two, segment_count, ConfigError};
use smooth_convolver::stepwise_schedule::{SegmentStep, StepwiseSchedule};

fn step(segment: usize, phase_num: usize, phase_den: usize) -> Option<SegmentStep> {
    Some(SegmentStep { segment, phase_num, phase_den })
}

#[test]
fn idle_schedule_makes_no_rewrite() {
    let mut s = StepwiseSchedule::new(&[1, 2, 3], 4, 2, 1, 0);
    assert_eq!(s.current_response(), &[1, 2, 3, 0]);
    assert_eq!(s.begin_block(), None);
    assert!(!s.end_block());
}

#[test]
fn scale_one_rewrites_one_segment_per_block() {
    let mut s = StepwiseSchedule::new(&[1, 1, 1, 1], 4, 2, 1, 0);
    s.update(&[9, 9]);
    assert!(s.is_switching());
    assert_eq!(s.begin_block(), step(0, 1, 1));
    assert!(!s.end_block());
    assert_eq!(s.begin_block(), step(1, 1, 1));
    assert!(s.end_block());
    assert!(!s.is_switching());
    assert_eq!(s.current_response(), &[9, 9, 0, 0]);
    assert_eq!(s.begin_block(), None);
}

#[test]
fn scale_two_spends_two_blocks_per_segment() {
    let mut s = StepwiseSchedule::new(&[1], 4, 2, 2, 0);
    s.update(&[5, 6, 7, 8]);
    assert_eq!(s.begin_block(), step(0, 1, 2));
    assert!(!s.end_block());
    assert_eq!(s.begin_block(), step(0, 2, 2));
    assert!(!s.end_block());
    assert_eq!(s.begin_block(), step(1, 1, 2));
    assert!(!s.end_block());
    assert_eq!(s.begin_block(), step(1, 2, 2));
    assert_eq!(s.next_response(), &[5, 6, 7, 8]);
    assert!(s.end_block());
    assert_eq!(s.current_response(), &[5, 6, 7, 8]);
}

#[test]
fn update_during_transition_is_queued_and_follows() {
    let mut s = StepwiseSchedule::new(&[1, 1], 2, 1, 1, 0);
    s.update(&[2, 2]);
    s.update(&[3, 3]);
    s.update(&[4]);
    assert!(s.is_response_pending());
    assert_eq!(s.next_response(), &[2, 2]);
    assert_eq!(s.begin_block(), step(0, 1, 1));
    assert!(s.end_block());
    assert_eq!(s.current_response(), &[2, 2]);
    assert!(s.is_switching());
    assert!(!s.is_response_pending());
    assert_eq!(s.next_response(), &[4, 0]);
    assert_eq!(s.begin_block(), step(0, 1, 1));
    assert!(s.end_block());
    assert_eq!(s.current_response(), &[4, 0]);
    assert!(!s.is_switching());
}

#[test]
fn update_right_after_commit_queues_behind_waiting_response() {
    let mut s = StepwiseSchedule::new(&[1, 1], 2, 1, 1, 0);
    s.update(&[2, 2]);
    s.update(&[3, 3]);
    assert_eq!(s.begin_block(), step(0, 1, 1));
    assert!(s.end_block());
    s.update(&[6, 6]);
    assert_eq!(s.next_response(), &[3, 3]);
    assert!(s.is_response_pending());
    assert_eq!(s.begin_block(), step(0, 1, 1));
    assert!(s.end_block());
    assert_eq!(s.current_response(), &[3, 3]);
    assert_eq!(s.next_response(), &[6, 6]);
    assert!(s.end_block());
    assert_eq!(s.current_response(), &[6, 6]);
    assert!(!s.is_switching());
}

#[test]
fn config_errors() {
    assert_eq!(check_config(1000, 10, 10, 1), Err(ConfigError::BlockSizeNotPowerOfTwo));
    assert_eq!(check_config(0, 10, 10, 1), Err(ConfigError::BlockSizeNotPowerOfTwo));
    assert_eq!(check_config(256, 0, 0, 1), Err(ConfigError::NoResponseRoom));
    assert_eq!(check_config(256, 11, 10, 1), Err(ConfigError::ResponseTooLong));
    assert_eq!(check_config(256, 10, 10, 0), Err(ConfigError::ZeroSteps));
    assert_eq!(check_config(1024, 1024, 1024, 1024), Ok(1));
    assert_eq!(check_config(256, 10, 32 * 256, 1), Ok(32));
    assert_eq!(check_config(512, 10, 513, 1), Ok(2));
}

#[test]
fn segment_counts_and_powers() {
    assert_eq!(segment_count(0, 256), 0);
    assert_eq!(segment_count(1, 256), 1);
    assert_eq!(segment_count(256, 256), 1);
    assert_eq!(segment_count(257, 256), 2);
    assert!(is_power_of_two(1));
    assert!(is_power_of_two(1024));
    assert!(!is_power_of_two(0));
    assert!(!is_power_of_two(768));
}
