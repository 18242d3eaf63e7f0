use screen_recorder::config::TerminationPolicy;
use screen_recorder::errors::CaptureError;
use screen_recorder::session::CaptureSession;

fn open_session(policy: TerminationPolicy, start: u64) -> CaptureSession {
    CaptureSession::on_create(policy, start, true).unwrap()
}

#[test]
fn create_fails_when_encoder_cannot_open() {
    let r = CaptureSession::on_create(TerminationPolicy::Manual, 0, false);
    match r {
        Err(e) => assert_eq!(e, CaptureError::EncoderInitError),
        Ok(_) => panic!("session created without an encoder"),
    }
}

#[test]
fn fresh_session_is_open_and_empty() {
    let s = open_session(TerminationPolicy::Manual, 10);
    assert!(s.is_open());
    assert!(!s.is_finalized());
    assert!(!s.is_closed());
    assert!(!s.has_requested_stop());
    assert_eq!(s.encoded_count(), 0);
}

#[test]
fn frames_are_encoded_in_delivery_order() {
    let mut s = open_session(TerminationPolicy::Manual, 0);
    assert_eq!(s.on_frame_arrived(10, 1, true, true), Ok(()));
    assert_eq!(s.on_frame_arrived(20, 2, true, true), Ok(()));
    assert_eq!(s.on_frame_arrived(30, 3, true, true), Ok(()));
    assert_eq!(s.encoded_count(), 3);
    assert_eq!(s.on_closed(true), Ok(()));
    let out = s.into_output().unwrap();
    assert_eq!(out.frame_count(), 3);
    assert_eq!(out.frame_at(0), 10);
    assert_eq!(out.frame_at(1), 20);
    assert_eq!(out.frame_at(2), 30);
    assert!(out.complete());
}

#[test]
fn encoder_rejection_is_fatal_but_frame_was_forwarded() {
    let mut s = open_session(TerminationPolicy::Manual, 0);
    assert_eq!(s.on_frame_arrived(1, 1, true, true), Ok(()));
    assert_eq!(s.on_frame_arrived(2, 2, false, true), Err(CaptureError::EncodeError));
    // The session stays open so that close can still seal the output.
    assert!(s.is_open());
    assert_eq!(s.encoded_count(), 2);
}

#[test]
fn manual_close_finalizes_unconditionally() {
    let mut s = open_session(TerminationPolicy::Manual, 0);
    assert_eq!(s.on_frame_arrived(1, 1, true, true), Ok(()));
    assert_eq!(s.on_closed(true), Ok(()));
    assert!(s.is_closed());
    let out = s.into_output().unwrap();
    assert!(out.complete());
    assert_eq!(out.frame_count(), 1);
    assert_eq!(out.check(), Ok(()));
}

#[test]
fn close_is_idempotent() {
    let mut s = open_session(TerminationPolicy::Manual, 0);
    assert_eq!(s.on_closed(true), Ok(()));
    assert!(s.is_closed());
    // A second close changes nothing and still succeeds.
    assert_eq!(s.on_closed(false), Ok(()));
    assert!(s.is_closed());
}

#[test]
fn failed_seal_on_close_reports_finalize_error() {
    let mut s = open_session(TerminationPolicy::Manual, 0);
    assert_eq!(s.on_frame_arrived(1, 1, true, true), Ok(()));
    assert_eq!(s.on_closed(false), Err(CaptureError::FinalizeError));
    assert!(s.is_closed());
    let out = s.into_output().unwrap();
    assert!(!out.complete());
    assert_eq!(out.check(), Err(CaptureError::IncompleteOutputError));
}

#[test]
fn auto_termination_triggers_exactly_at_duration() {
    // AutoAfterDuration(6): frames at elapsed 1, 3, 5 are encoded normally;
    // the frame at elapsed 7 finalizes the session and requests stop.
    let mut s = open_session(TerminationPolicy::AutoAfterDuration(6), 100);
    for (id, now) in [(1u64, 101u64), (2, 103), (3, 105)] {
        assert_eq!(s.on_frame_arrived(id, now, true, true), Ok(()));
        assert!(s.is_open());
        assert!(!s.has_requested_stop());
    }
    assert_eq!(s.on_frame_arrived(4, 107, true, true), Ok(()));
    assert!(s.is_finalized());
    assert!(s.has_requested_stop());
    assert_eq!(s.encoded_count(), 4);
    assert_eq!(s.on_closed(true), Ok(()));
    let out = s.into_output().unwrap();
    assert_eq!(out.frame_count(), 4);
    assert!(out.complete());
}

#[test]
fn auto_termination_boundary_is_inclusive() {
    // elapsed == duration already triggers: >= not >.
    let mut s = open_session(TerminationPolicy::AutoAfterDuration(6), 0);
    assert!(!s.finalize_due(5));
    assert!(s.finalize_due(6));
    assert_eq!(s.on_frame_arrived(1, 6, true, true), Ok(()));
    assert!(s.is_finalized());
}

#[test]
fn manual_policy_never_auto_terminates() {
    let mut s = open_session(TerminationPolicy::Manual, 0);
    assert!(!s.finalize_due(u64::MAX));
    assert_eq!(s.on_frame_arrived(1, 1_000_000, true, true), Ok(()));
    assert!(s.is_open());
    assert!(!s.has_requested_stop());
}

#[test]
fn frame_after_finalize_is_rejected_and_not_encoded() {
    let mut s = open_session(TerminationPolicy::AutoAfterDuration(1), 0);
    assert_eq!(s.on_frame_arrived(1, 2, true, true), Ok(()));
    assert!(s.is_finalized());
    assert_eq!(s.on_frame_arrived(2, 3, true, true), Err(CaptureError::EncodeError));
    assert_eq!(s.encoded_count(), 1);
}

#[test]
fn failed_seal_on_auto_termination() {
    let mut s = open_session(TerminationPolicy::AutoAfterDuration(2), 0);
    assert_eq!(s.on_frame_arrived(1, 5, true, false), Err(CaptureError::FinalizeError));
    assert!(s.is_finalized());
    assert!(s.has_requested_stop());
    assert_eq!(s.on_closed(true), Ok(()));
    let out = s.into_output().unwrap();
    assert!(!out.complete());
}

#[test]
fn elapsed_seconds_formula() {
    let s = open_session(TerminationPolicy::Manual, 40);
    assert_eq!(s.elapsed_secs(40), 0);
    assert_eq!(s.elapsed_secs(47), 7);
}

#[test]
fn policy_due_formula() {
    let auto = TerminationPolicy::AutoAfterDuration(6);
    assert!(!auto.is_due_at(0));
    assert!(!auto.is_due_at(5));
    assert!(auto.is_due_at(6));
    assert!(auto.is_due_at(7));
    assert!(!TerminationPolicy::Manual.is_due_at(u64::MAX));
}
