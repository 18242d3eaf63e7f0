use vstd::prelude::*;

use crate::config::{CaptureConfig, TerminationPolicy};
use crate::encoder::SealedOutput;
use crate::errors::CaptureError;
use crate::session::CaptureSession;

verus! {

/// A live session as the controller owns it: created by `start`, collected
/// by `stop`. The handle stays in the controller's slot after the session
/// self-terminates, so that a racing `stop` still finds it and succeeds.
pub struct SessionHandle {
    session: CaptureSession,
}

impl SessionHandle {
    /// The session this handle stands for.
    pub closed spec fn session_spec(&self) -> CaptureSession {
        self.session
    }

    /// Give up the handle and take the session it stands for.
    pub fn into_session(self) -> (s: CaptureSession)
        ensures
            s == self.session_spec(),
    {
        self.session
    }
}

/// The start/stop control surface: owns zero or one active session handle
/// and serializes user actions against it. It is the only mutator of the
/// active-session slot, so at most one session — and so at most one open
/// encoder — exists at any time.
pub struct SessionController {
    active: Option<SessionHandle>,
    policy: TerminationPolicy,
    config: CaptureConfig,
    last_output: Option<SealedOutput>,
}

impl SessionController {
    /// The active session, if a handle is held.
    pub closed spec fn active_session(&self) -> Option<CaptureSession> {
        match self.active {
            Option::Some(h) => Option::Some(h.session),
            Option::None => Option::None,
        }
    }

    /// The termination policy every session is started with.
    pub closed spec fn policy_spec(&self) -> TerminationPolicy {
        self.policy
    }

    /// The capture configuration handed to the frame source at start.
    pub closed spec fn config_spec(&self) -> CaptureConfig {
        self.config
    }

    /// The output collected from the most recently stopped session.
    pub closed spec fn last_output_spec(&self) -> Option<SealedOutput> {
        self.last_output
    }

    /// How many open encoders the controller's sessions hold.
    pub closed spec fn open_encoder_count(&self) -> nat {
        match self.active {
            Option::Some(h) => if h.session.phase() is Open {
                1nat
            } else {
                0nat
            },
            Option::None => 0nat,
        }
    }

    /// Well-formedness: any held session is itself well-formed and carries
    /// the controller's policy.
    pub closed spec fn wf(&self) -> bool {
        self.active matches Option::Some(h) ==> h.session.wf() && h.session.policy_spec()
            == self.policy
    }

    /// A controller with no active session and no collected output.
    pub fn new(policy: TerminationPolicy, config: CaptureConfig) -> (c: SessionController)
        ensures
            c.wf(),
            c.active_session() is None,
            c.policy_spec() == policy,
            c.config_spec() == config,
            c.last_output_spec() is None,
    {
        SessionController { active: None, policy, config, last_output: None }
    }

    /// Start a capture session.
    ///
    /// Fails with `SessionAlreadyActive` while a handle is held (a session
    /// must be collected by `stop` before the next starts), with
    /// `NoCaptureTargetError` when no capture target is available, and with
    /// `EncoderInitError` when the encoder could not be opened. Any failed
    /// start leaves the controller in the no-active-session state. On
    /// success the new session is open, has encoded nothing, and carries
    /// the controller's policy with `now` as its start instant.
    ///
    /// `target_available` is the outcome of enumerating the primary
    /// display; `encoder_opened` the outcome of opening the encoder; `now`
    /// the monotonic clock reading at start.
    pub fn start(&mut self, now: u64, target_available: bool, encoder_opened: bool) -> (r: Result<
        (),
        CaptureError,
    >)
        requires
            old(self).wf(),
        ensures
            final(self).wf(),
            final(self).policy_spec() == old(self).policy_spec(),
            final(self).config_spec() == old(self).config_spec(),
            final(self).last_output_spec() == old(self).last_output_spec(),
            old(self).active_session() is Some ==> (r == Err::<(), CaptureError>(
                CaptureError::SessionAlreadyActive,
            ) && final(self).active_session() == old(self).active_session()),
            old(self).active_session() is None && !target_available ==> (r == Err::<(),
                CaptureError,
            >(CaptureError::NoCaptureTargetError) && final(self).active_session() is None),
            old(self).active_session() is None && target_available && !encoder_opened ==> (r
                == Err::<(), CaptureError>(CaptureError::EncoderInitError)
                && final(self).active_session() is None),
            old(self).active_session() is None && target_available && encoder_opened ==> (r is Ok
                && (final(self).active_session() matches Some(s) && {
                &&& s.wf()
                &&& s.phase() is Open
                &&& s.record() == Seq::<u64>::empty()
                &&& s.delivered_frames() == Seq::<u64>::empty()
                &&& s.policy_spec() == old(self).policy_spec()
                &&& s.start_spec() == now
                &&& !s.stop_requested_spec()
            })),
    {
        if self.active.is_some() {
            return Err(CaptureError::SessionAlreadyActive);
        }
        if !target_available {
            return Err(CaptureError::NoCaptureTargetError);
        }
        match CaptureSession::on_create(self.policy, now, encoder_opened) {
            Ok(s) => {
                self.active = Some(SessionHandle { session: s });
                Ok(())
            }
            Err(e) => Err(e),
        }
    }

    /// Route one captured frame to the active session.
    ///
    /// With no active session the frame is rejected with `NoActiveSession`;
    /// otherwise the session's per-frame contract (`frame_step`) states the
    /// outcome exactly.
    pub fn deliver_frame(&mut self, frame_id: u64, now: u64, encode_ok: bool, seal_ok: bool) -> (r:
        Result<(), CaptureError>)
        requires
            old(self).wf(),
            old(self).active_session() matches Some(s) ==> now >= s.start_spec(),
        ensures
            final(self).wf(),
            final(self).policy_spec() == old(self).policy_spec(),
            final(self).config_spec() == old(self).config_spec(),
            final(self).last_output_spec() == old(self).last_output_spec(),
            old(self).active_session() is None ==> (r == Err::<(), CaptureError>(
                CaptureError::NoActiveSession,
            ) && final(self).active_session() is None),
            old(self).active_session() matches Some(s) ==> (final(self).active_session()
                matches Some(s2) && CaptureSession::frame_step(
                s,
                s2,
                frame_id,
                now,
                encode_ok,
                seal_ok,
                r,
            )),
    {
        let a = self.active.take();
        match a {
            None => Err(CaptureError::NoActiveSession),
            Some(h) => {
                let mut s = h.into_session();
                let r = s.on_frame_arrived(frame_id, now, encode_ok, seal_ok);
                self.active = Some(SessionHandle { session: s });
                r
            }
        }
    }

    /// Route the frame source's close callback to the active session. The
    /// handle stays in the slot for `stop` to collect.
    ///
    /// With no active session the event is reported as `NoActiveSession`;
    /// otherwise the session's close contract (`close_step`) states the
    /// outcome exactly.
    pub fn capture_closed(&mut self, seal_ok: bool) -> (r: Result<(), CaptureError>)
        requires
            old(self).wf(),
        ensures
            final(self).wf(),
            final(self).policy_spec() == old(self).policy_spec(),
            final(self).config_spec() == old(self).config_spec(),
            final(self).last_output_spec() == old(self).last_output_spec(),
            old(self).active_session() is None ==> (r == Err::<(), CaptureError>(
                CaptureError::NoActiveSession,
            ) && final(self).active_session() is None),
            old(self).active_session() matches Some(s) ==> (final(self).active_session()
                matches Some(s2) && CaptureSession::close_step(s, s2, seal_ok, r)),
    {
        let a = self.active.take();
        match a {
            None => Err(CaptureError::NoActiveSession),
            Some(h) => {
                let mut s = h.into_session();
                let r = s.on_closed(seal_ok);
                self.active = Some(SessionHandle { session: s });
                r
            }
        }
    }

    /// Stop the active session: close it (finalizing the encoder if it is
    /// still open), collect its output, and clear the slot.
    ///
    /// Fails with `NoActiveSession` when no handle is held. A session that
    /// already self-terminated with a complete output is collected as a
    /// success, so a stop racing auto-termination resolves cleanly. A seal
    /// failing now is surfaced as `FinalizeError`; a session that had
    /// already closed on an unsealed output is surfaced as
    /// `IncompleteOutputError`. Either way the controller ends in the
    /// no-active-session state with the output collected.
    ///
    /// `seal_ok` is the muxer's verdict if the close performed now has to
    /// seal the container.
    pub fn stop(&mut self, seal_ok: bool) -> (r: Result<(), CaptureError>)
        requires
            old(self).wf(),
        ensures
            final(self).wf(),
            final(self).policy_spec() == old(self).policy_spec(),
            final(self).config_spec() == old(self).config_spec(),
            old(self).active_session() is None ==> (r == Err::<(), CaptureError>(
                CaptureError::NoActiveSession,
            ) && final(self).active_session() is None && final(self).last_output_spec() == old(
                self,
            ).last_output_spec()),
            old(self).active_session() matches Some(s) ==> {
                &&& final(self).active_session() is None
                &&& (final(self).last_output_spec() matches Some(o) && o.frames_spec()
                    == s.record() && o.is_complete() == (if s.phase() is Open {
                    seal_ok
                } else {
                    s.output_complete()
                }))
                &&& (s.phase() is Open ==> ((seal_ok ==> r is Ok) && (!seal_ok ==> r
                    == Err::<(), CaptureError>(CaptureError::FinalizeError))))
                &&& (!(s.phase() is Open) ==> ((s.output_complete() ==> r is Ok) && (
                !s.output_complete() ==> r == Err::<(), CaptureError>(
                    CaptureError::IncompleteOutputError,
                ))))
            },
    {
        let a = self.active.take();
        match a {
            None => Err(CaptureError::NoActiveSession),
            Some(h) => {
                let mut s = h.into_session();
                let was_open = s.is_open();
                let closed = s.on_closed(seal_ok);
                let out = s.into_output().unwrap();
                let complete = out.complete();
                self.last_output = Some(out);
                if was_open {
                    closed
                } else {
                    if complete {
                        Ok(())
                    } else {
                        Err(CaptureError::IncompleteOutputError)
                    }
                }
            }
        }
    }

    /// Whether a session handle is currently held.
    pub fn is_active(&self) -> (b: bool)
        ensures
            b == (self.active_session() is Some),
    {
        self.active.is_some()
    }

    /// Whether the active session has requested its own stop
    /// (auto-termination reached).
    pub fn stop_requested(&self) -> (b: bool)
        ensures
            b == (self.active_session() matches Some(s) && s.stop_requested_spec()),
    {
        match &self.active {
            Some(h) => h.session.has_requested_stop(),
            None => false,
        }
    }

    /// Whether a frame observed at `now` would trigger the active session's
    /// auto-termination, so the caller knows to seal the container now.
    pub fn finalize_due(&self, now: u64) -> (b: bool)
        requires
            self.active_session() matches Some(s) ==> now >= s.start_spec(),
        ensures
            b == (self.active_session() matches Some(s) && s.phase() is Open
                && s.policy_spec().due_at(
                crate::session::elapsed_secs_spec(s.start_spec(), now),
            )),
    {
        match &self.active {
            Some(h) => h.session.finalize_due(now),
            None => false,
        }
    }

    /// Whether the active session has finalized its encoder.
    pub fn active_finalized(&self) -> (b: bool)
        ensures
            b == (self.active_session() matches Some(s) && s.phase() is Finalized),
    {
        match &self.active {
            Some(h) => h.session.is_finalized(),
            None => false,
        }
    }

    /// Collect the output of the most recently stopped session.
    pub fn take_last_output(&mut self) -> (o: Option<SealedOutput>)
        ensures
            o == old(self).last_output_spec(),
            final(self).last_output_spec() is None,
            final(self).active_session() == old(self).active_session(),
            final(self).policy_spec() == old(self).policy_spec(),
            final(self).config_spec() == old(self).config_spec(),
            final(self).wf() == old(self).wf(),
    {
        self.last_output.take()
    }

    /// The termination policy sessions are started with.
    pub fn policy(&self) -> (p: TerminationPolicy)
        ensures
            p == self.policy_spec(),
    {
        self.policy
    }

    /// The capture configuration handed to the frame source.
    pub fn config(&self) -> (c: CaptureConfig)
        ensures
            c == self.config_spec(),
    {
        self.config
    }
}

/// Law: the controller never holds two concurrently open encoders — its
/// single optional slot bounds the open sessions, and so the open encoders,
/// by one.
pub proof fn lemma_at_most_one_open_encoder(c: SessionController)
    requires
        c.wf(),
    ensures
        c.open_encoder_count() <= 1,
{
}

} // verus!
