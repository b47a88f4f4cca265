use smooth_convolver::crossfade_control::CrossfadeControl;
use smooth_convolver::crossfader::{Blend, Crossfader, FadingState, Target};

#[test]
fn crossfader_endpoint_snap() {
    let mut fader = Crossfader::new(4);
    fader.fade_into(Target::B);
    assert_eq!(fader.advance(), Blend::Weighted { b_weight: 1, total: 4 });
    assert_eq!(fader.advance(), Blend::Weighted { b_weight: 2, total: 4 });
    assert_eq!(fader.advance(), Blend::Weighted { b_weight: 3, total: 4 });
    assert_eq!(fader.advance(), Blend::Only(Target::B));
    assert_eq!(fader.fading_state(), FadingState::Reached(Target::B));
    assert_eq!(fader.advance(), Blend::Only(Target::B));
}

#[test]
fn crossfader_starts_at_rest_on_a() {
    let mut fader = Crossfader::new(8);
    assert_eq!(fader.fading_state(), FadingState::Reached(Target::A));
    assert!(!fader.is_crossfading());
    assert_eq!(fader.advance(), Blend::Only(Target::A));
}

#[test]
fn fade_into_current_target_changes_nothing() {
    let mut fader = Crossfader::new(4);
    fader.fade_into(Target::A);
    assert_eq!(fader.fading_state(), FadingState::Reached(Target::A));

    fader.fade_into(Target::B);
    fader.advance();
    fader.fade_into(Target::B);
    assert_eq!(fader.fading_state(), FadingState::Approaching(Target::B));
    assert_eq!(fader.advance(), Blend::Weighted { b_weight: 2, total: 4 });
}

#[test]
fn reversal_continues_from_current_weight() {
    let mut fader = Crossfader::new(8);
    fader.fade_into(Target::B);
    for _ in 0..3 {
        fader.advance();
    }
    fader.fade_into(Target::A);
    assert_eq!(fader.fading_state(), FadingState::Approaching(Target::A));
    assert_eq!(fader.advance(), Blend::Weighted { b_weight: 2, total: 8 });
    assert_eq!(fader.advance(), Blend::Weighted { b_weight: 1, total: 8 });
    assert_eq!(fader.advance(), Blend::Only(Target::A));
}

#[test]
fn reversal_before_first_sample_returns_to_rest() {
    let mut fader = Crossfader::new(8);
    fader.fade_into(Target::B);
    fader.fade_into(Target::A);
    assert_eq!(fader.fading_state(), FadingState::Reached(Target::A));
}

#[test]
fn fade_over_one_block_crosses_midpoint_at_half() {
    let mut fader = Crossfader::new(512);
    fader.fade_into(Target::B);
    let mut blend = Blend::Only(Target::A);
    for _ in 0..256 {
        blend = fader.advance();
    }
    assert_eq!(blend, Blend::Weighted { b_weight: 256, total: 512 });
    for _ in 256..512 {
        blend = fader.advance();
    }
    assert_eq!(blend, Blend::Only(Target::B));
}

#[test]
fn fading_state_target() {
    assert_eq!(FadingState::Reached(Target::B).target(), Target::B);
    assert_eq!(FadingState::Approaching(Target::A).target(), Target::A);
    assert_eq!(Target::A.opposite(), Target::B);
}

#[test]
fn idle_update_goes_to_inactive_path() {
    let mut control: CrossfadeControl<i32> = CrossfadeControl::new(4, 3, 0);
    assert_eq!(control.update(&[7, 8]), Some(Target::B));
    assert!(control.is_crossfading());
    assert!(!control.is_response_pending());
    assert_eq!(control.stored_response(), &[0, 0, 0]);
}

#[test]
fn updates_during_fade_keep_latest() {
    let mut control: CrossfadeControl<i32> = CrossfadeControl::new(4, 3, 0);
    control.update(&[1, 1, 1]);
    assert_eq!(control.update(&[2, 3, 4]), None);
    assert_eq!(control.update(&[5]), None);
    assert!(control.is_response_pending());
    assert_eq!(control.stored_response(), &[5, 0, 0]);
    assert_eq!(control.begin_block(), None);
}

#[test]
fn pending_response_installs_after_fade() {
    let mut control: CrossfadeControl<i32> = CrossfadeControl::new(2, 2, 0);
    assert_eq!(control.update(&[1, 2]), Some(Target::B));
    control.update(&[3, 4]);
    assert_eq!(control.advance(), Blend::Weighted { b_weight: 1, total: 2 });
    assert_eq!(control.advance(), Blend::Only(Target::B));
    assert_eq!(control.begin_block(), Some(Target::A));
    assert_eq!(control.stored_response(), &[3, 4]);
    assert!(!control.is_response_pending());
    assert_eq!(control.advance(), Blend::Weighted { b_weight: 1, total: 2 });
    assert_eq!(control.advance(), Blend::Only(Target::A));
    assert_eq!(control.begin_block(), None);
}
