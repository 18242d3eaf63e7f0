use screen_recorder::config::{CaptureConfig, CaptureToggle, TerminationPolicy};
use screen_recorder::controller::SessionController;
use screen_recorder::errors::CaptureError;

fn manual_controller() -> SessionController {
    SessionController::new(TerminationPolicy::Manual, CaptureConfig::default())
}

#[test]
fn start_without_capture_target_fails_and_stays_inactive() {
    let mut c = manual_controller();
    assert_eq!(c.start(0, false, true), Err(CaptureError::NoCaptureTargetError));
    assert!(!c.is_active());
    // The controller is still usable afterwards.
    assert_eq!(c.start(1, true, true), Ok(()));
    assert!(c.is_active());
}

#[test]
fn start_with_failed_encoder_init_stays_inactive() {
    let mut c = manual_controller();
    assert_eq!(c.start(0, true, false), Err(CaptureError::EncoderInitError));
    assert!(!c.is_active());
}

#[test]
fn start_while_active_is_rejected() {
    let mut c = manual_controller();
    assert_eq!(c.start(0, true, true), Ok(()));
    assert_eq!(c.start(1, true, true), Err(CaptureError::SessionAlreadyActive));
    assert!(c.is_active());
    // The first session is untouched: it still encodes frames.
    assert_eq!(c.deliver_frame(1, 2, true, true), Ok(()));
    assert_eq!(c.stop(true), Ok(()));
    assert_eq!(c.take_last_output().unwrap().frame_count(), 1);
}

#[test]
fn stop_without_session_fails() {
    let mut c = manual_controller();
    assert_eq!(c.stop(true), Err(CaptureError::NoActiveSession));
}

#[test]
fn frame_without_session_fails() {
    let mut c = manual_controller();
    assert_eq!(c.deliver_frame(1, 0, true, true), Err(CaptureError::NoActiveSession));
}

#[test]
fn three_frames_then_stop_seals_three_frames() {
    let mut c = manual_controller();
    assert_eq!(c.start(0, true, true), Ok(()));
    assert_eq!(c.deliver_frame(11, 1, true, true), Ok(()));
    assert_eq!(c.deliver_frame(12, 2, true, true), Ok(()));
    assert_eq!(c.deliver_frame(13, 3, true, true), Ok(()));
    assert_eq!(c.stop(true), Ok(()));
    assert!(!c.is_active());
    let out = c.take_last_output().unwrap();
    assert_eq!(out.frame_count(), 3);
    assert_eq!(out.frame_at(0), 11);
    assert_eq!(out.frame_at(1), 12);
    assert_eq!(out.frame_at(2), 13);
    assert!(out.complete());
}

#[test]
fn auto_terminated_session_stops_without_error() {
    let mut c = SessionController::new(
        TerminationPolicy::AutoAfterDuration(6),
        CaptureConfig::default(),
    );
    assert_eq!(c.start(100, true, true), Ok(()));
    assert_eq!(c.deliver_frame(1, 101, true, true), Ok(()));
    assert_eq!(c.deliver_frame(2, 103, true, true), Ok(()));
    assert_eq!(c.deliver_frame(3, 105, true, true), Ok(()));
    assert!(!c.stop_requested());
    assert!(!c.finalize_due(105));
    assert!(c.finalize_due(106));
    assert_eq!(c.deliver_frame(4, 107, true, true), Ok(()));
    assert!(c.active_finalized());
    assert!(c.stop_requested());
    // A stop racing the auto-termination still resolves to a success.
    assert_eq!(c.stop(true), Ok(()));
    assert!(!c.is_active());
    let out = c.take_last_output().unwrap();
    assert_eq!(out.frame_count(), 4);
    assert!(out.complete());
}

#[test]
fn stop_after_capture_closed_succeeds() {
    let mut c = SessionController::new(
        TerminationPolicy::AutoAfterDuration(1),
        CaptureConfig::default(),
    );
    assert_eq!(c.start(0, true, true), Ok(()));
    assert_eq!(c.deliver_frame(1, 2, true, true), Ok(()));
    assert!(c.stop_requested());
    // The frame source acknowledges the stop request and closes the session.
    assert_eq!(c.capture_closed(true), Ok(()));
    // The user-driven stop afterwards still succeeds and collects the output.
    assert_eq!(c.stop(true), Ok(()));
    assert_eq!(c.take_last_output().unwrap().frame_count(), 1);
}

#[test]
fn stop_with_failed_seal_reports_and_clears() {
    let mut c = manual_controller();
    assert_eq!(c.start(0, true, true), Ok(()));
    assert_eq!(c.deliver_frame(1, 1, true, true), Ok(()));
    assert_eq!(c.stop(false), Err(CaptureError::FinalizeError));
    // Best-effort cleanup: the controller is back to no-active-session.
    assert!(!c.is_active());
    let out = c.take_last_output().unwrap();
    assert!(!out.complete());
}

#[test]
fn stop_surfaces_incomplete_output_of_self_terminated_session() {
    let mut c = SessionController::new(
        TerminationPolicy::AutoAfterDuration(1),
        CaptureConfig::default(),
    );
    assert_eq!(c.start(0, true, true), Ok(()));
    // The seal fails at the auto-termination point.
    assert_eq!(c.deliver_frame(1, 2, true, false), Err(CaptureError::FinalizeError));
    assert!(c.active_finalized());
    assert_eq!(c.stop(true), Err(CaptureError::IncompleteOutputError));
    assert!(!c.is_active());
}

#[test]
fn capture_closed_without_session_fails() {
    let mut c = manual_controller();
    assert_eq!(c.capture_closed(true), Err(CaptureError::NoActiveSession));
}

#[test]
fn controller_keeps_policy_and_config() {
    let config = CaptureConfig {
        cursor_capture: CaptureToggle::Enabled,
        draw_border: CaptureToggle::Disabled,
        secondary_windows: CaptureToggle::PlatformDefault,
        minimum_update_interval: CaptureToggle::PlatformDefault,
        dirty_region: CaptureToggle::PlatformDefault,
    };
    let c = SessionController::new(TerminationPolicy::AutoAfterDuration(9), config);
    assert_eq!(c.policy(), TerminationPolicy::AutoAfterDuration(9));
    assert_eq!(c.config(), config);
    assert_eq!(CaptureConfig::default().cursor_capture, CaptureToggle::PlatformDefault);
}
