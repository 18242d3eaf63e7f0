use vstd::prelude::*;

use crate::config::TerminationPolicy;
use crate::encoder::{Encoder, SealedOutput};
use crate::errors::CaptureError;

verus! {

/// The lifecycle of one capture session.
///
/// A session moves only forward: `Created -> Open -> Finalized -> Closed`.
/// Every path to `Closed` traverses `Finalized`; an abrupt stop finalizes
/// the encoder on close rather than skipping the seal.
#[derive(Clone, Copy, PartialEq, Eq, Structural, Debug)]
pub enum SessionState {
    Created,
    Open,
    Finalized,
    Closed,
}

/// The states a session in state `s` has entered, in order. The lifecycle
/// is a single forward chain, so the traversal is determined by where the
/// session now stands.
pub open spec fn states_path(s: SessionState) -> Seq<SessionState> {
    match s {
        SessionState::Created => seq![SessionState::Created],
        SessionState::Open => seq![SessionState::Created, SessionState::Open],
        SessionState::Finalized => seq![
            SessionState::Created,
            SessionState::Open,
            SessionState::Finalized,
        ],
        SessionState::Closed => seq![
            SessionState::Created,
            SessionState::Open,
            SessionState::Finalized,
            SessionState::Closed,
        ],
    }
}

/// How many times state `s` occurs in the traversal `h`.
pub open spec fn times_entered(h: Seq<SessionState>, s: SessionState) -> nat
    decreases h.len(),
{
    if h.len() == 0 {
        0
    } else {
        times_entered(h.drop_last(), s) + (if h.last() == s {
            1nat
        } else {
            0nat
        })
    }
}

/// Elapsed whole seconds between the session start and a later clock
/// reading of the same monotonic clock.
pub open spec fn elapsed_secs_spec(start: u64, now: u64) -> u64
    recommends
        now >= start,
{
    (now - start) as u64
}

/// One bounded capture-to-file recording lifecycle: owns the encoder while
/// open, forwards each delivered frame to it, and decides per frame whether
/// to keep recording or to finalize and request stop.
pub struct CaptureSession {
    encoder: Option<Encoder>,
    output: Option<SealedOutput>,
    policy: TerminationPolicy,
    start_time: u64,
    state: SessionState,
    stop_requested: bool,
    delivered: Ghost<Seq<u64>>,
    entered: Ghost<Seq<SessionState>>,
}

impl CaptureSession {
    /// Where the session stands in its lifecycle.
    pub closed spec fn phase(&self) -> SessionState {
        self.state
    }

    /// The frames the encoder has received, in delivery order; after
    /// finalize, the frames sealed into the output.
    pub closed spec fn record(&self) -> Seq<u64> {
        match self.encoder {
            Option::Some(e) => e.frames_spec(),
            Option::None => match self.output {
                Option::Some(o) => o.frames_spec(),
                Option::None => Seq::<u64>::empty(),
            },
        }
    }

    /// The frames delivered to this session while it was open, in order.
    pub closed spec fn delivered_frames(&self) -> Seq<u64> {
        self.delivered@
    }

    /// The states this session has entered, in order.
    pub closed spec fn states_entered(&self) -> Seq<SessionState> {
        self.entered@
    }

    /// The termination policy the session was created with.
    pub closed spec fn policy_spec(&self) -> TerminationPolicy {
        self.policy
    }

    /// The monotonic clock reading at session start.
    pub closed spec fn start_spec(&self) -> u64 {
        self.start_time
    }

    /// Whether the session itself has issued a stop request on its handle.
    pub closed spec fn stop_requested_spec(&self) -> bool {
        self.stop_requested
    }

    /// The sealed output, present from the finalize transition on.
    pub closed spec fn sealed_output(&self) -> Option<SealedOutput> {
        self.output
    }

    /// Whether the session's output exists and was sealed successfully.
    pub closed spec fn output_complete(&self) -> bool {
        match self.output {
            Option::Some(o) => o.is_complete(),
            Option::None => false,
        }
    }

    /// Well-formedness: the encoder is present exactly while the session is
    /// open; the sealed output exists exactly from the finalize transition
    /// on; every frame delivered while open reached the encoder, in order;
    /// and the states entered form the forward chain ending at the current
    /// state, so `Finalized` is never skipped and never repeated.
    pub closed spec fn wf(&self) -> bool {
        &&& (self.state is Open <==> self.encoder is Some)
        &&& ((self.state is Finalized || self.state is Closed) <==> self.output is Some)
        &&& !(self.state is Created)
        &&& self.record() == self.delivered@
        &&& self.entered@ == states_path(self.state)
        &&& (self.stop_requested ==> self.state is Finalized || self.state is Closed)
    }

    /// Create a session bound to a freshly opened encoder.
    ///
    /// `encoder_opened` is the outcome of opening the container encoder
    /// (codec and output path); when it failed, session creation
    /// short-circuits with `EncoderInitError` and no frame is ever
    /// delivered to the session.
    pub fn on_create(policy: TerminationPolicy, start_time: u64, encoder_opened: bool) -> (r:
        Result<CaptureSession, CaptureError>)
        ensures
            r is Ok <==> encoder_opened,
            !encoder_opened ==> r == Err::<CaptureSession, CaptureError>(
                CaptureError::EncoderInitError,
            ),
            encoder_opened ==> (r matches Ok(s) && {
                &&& s.wf()
                &&& s.phase() is Open
                &&& s.record() == Seq::<u64>::empty()
                &&& s.delivered_frames() == Seq::<u64>::empty()
                &&& s.policy_spec() == policy
                &&& s.start_spec() == start_time
                &&& !s.stop_requested_spec()
            }),
    {
        if !encoder_opened {
            return Err(CaptureError::EncoderInitError);
        }
        let session = CaptureSession {
            encoder: Some(Encoder::open()),
            output: None,
            policy,
            start_time,
            state: SessionState::Open,
            stop_requested: false,
            delivered: Ghost(Seq::<u64>::empty()),
            entered: Ghost(states_path(SessionState::Open)),
        };
        Ok(session)
    }

    /// Deliver one frame. Exactly what `on_frame_arrived` does, stated over
    /// the session's views.
    pub open spec fn frame_step(
        pre: CaptureSession,
        post: CaptureSession,
        frame_id: u64,
        now: u64,
        encode_ok: bool,
        seal_ok: bool,
        r: Result<(), CaptureError>,
    ) -> bool {
        &&& post.policy_spec() == pre.policy_spec()
        &&& post.start_spec() == pre.start_spec()
        // A frame arriving once the session is no longer open is rejected
        // and never encoded.
        &&& (!(pre.phase() is Open) ==> {
            &&& r == Err::<(), CaptureError>(CaptureError::EncodeError)
            &&& post.phase() == pre.phase()
            &&& post.record() == pre.record()
            &&& post.delivered_frames() == pre.delivered_frames()
            &&& post.stop_requested_spec() == pre.stop_requested_spec()
            &&& post.output_complete() == pre.output_complete()
        })
        // A frame delivered to the open session is forwarded to the
        // encoder exactly once, appended after every earlier frame.
        &&& (pre.phase() is Open ==> {
            &&& post.delivered_frames() == pre.delivered_frames().push(frame_id)
            &&& post.record() == pre.record().push(frame_id)
        })
        // The encoder rejecting the frame is fatal to the session; the
        // session stays open so that close can still finalize it.
        &&& (pre.phase() is Open && !encode_ok ==> {
            &&& r == Err::<(), CaptureError>(CaptureError::EncodeError)
            &&& post.phase() is Open
            &&& post.stop_requested_spec() == pre.stop_requested_spec()
        })
        // Auto-termination: finalize and request stop exactly on a frame
        // whose elapsed time makes the policy due, and on no other.
        &&& (pre.phase() is Open && encode_ok ==> {
            let due = pre.policy_spec().due_at(elapsed_secs_spec(pre.start_spec(), now));
            &&& (due ==> {
                &&& post.phase() is Finalized
                &&& post.stop_requested_spec()
                &&& post.output_complete() == seal_ok
                &&& (seal_ok ==> r is Ok)
                &&& (!seal_ok ==> r == Err::<(), CaptureError>(CaptureError::FinalizeError))
            })
            &&& (!due ==> {
                &&& r is Ok
                &&& post.phase() is Open
                &&& post.stop_requested_spec() == pre.stop_requested_spec()
            })
        })
    }

    /// The per-frame callback: invoked once per captured frame, strictly
    /// sequentially. Forwards the frame to the encoder, then evaluates the
    /// termination policy; under `AutoAfterDuration(n)` it finalizes the
    /// encoder and requests stop on the first frame at elapsed time `>= n`.
    ///
    /// `encode_ok` is the encoder's verdict on this frame and `seal_ok` the
    /// muxer's verdict if a seal is performed now; both come from the
    /// platform encoder, and the contract states the outcome for every
    /// combination.
    pub fn on_frame_arrived(&mut self, frame_id: u64, now: u64, encode_ok: bool, seal_ok: bool) -> (r:
        Result<(), CaptureError>)
        requires
            old(self).wf(),
            now >= old(self).start_spec(),
        ensures
            final(self).wf(),
            CaptureSession::frame_step(*old(self), *final(self), frame_id, now, encode_ok, seal_ok, r),
    {
        match self.state {
            SessionState::Open => {}
            _ => {
                return Err(CaptureError::EncodeError);
            }
        }
        let mut e = self.encoder.take().unwrap();
        e.send_frame(frame_id);
        proof {
            self.delivered@ = self.delivered@.push(frame_id);
        }
        if !encode_ok {
            self.encoder = Some(e);
            return Err(CaptureError::EncodeError);
        }
        let elapsed: u64 = now - self.start_time;
        if self.policy.is_due_at(elapsed) {
            let out = e.finalize(seal_ok);
            self.output = Some(out);
            self.state = SessionState::Finalized;
            self.stop_requested = true;
            proof {
                self.entered@ = self.entered@.push(SessionState::Finalized);
                assert(self.entered@ =~= states_path(SessionState::Finalized));
            }
            if seal_ok {
                Ok(())
            } else {
                Err(CaptureError::FinalizeError)
            }
        } else {
            self.encoder = Some(e);
            Ok(())
        }
    }

    /// Close the session. Exactly what `on_closed` does, stated over the
    /// session's views.
    pub open spec fn close_step(
        pre: CaptureSession,
        post: CaptureSession,
        seal_ok: bool,
        r: Result<(), CaptureError>,
    ) -> bool {
        &&& post.policy_spec() == pre.policy_spec()
        &&& post.start_spec() == pre.start_spec()
        &&& post.phase() is Closed
        &&& post.delivered_frames() == pre.delivered_frames()
        &&& post.record() == pre.record()
        &&& post.stop_requested_spec() == pre.stop_requested_spec()
        // The closed session always leaves an output behind, sealed over
        // exactly the frames the encoder received.
        &&& (post.sealed_output() matches Some(o) && o.frames_spec() == pre.record()
            && o.is_complete() == post.output_complete())
        // Closing a session that already finalized (or already closed)
        // succeeds and leaves its output as it is.
        &&& (!(pre.phase() is Open) ==> r is Ok && post.output_complete() == pre.output_complete())
        // Closing an open session finalizes it unconditionally: the seal is
        // attempted on every close path, never skipped.
        &&& (pre.phase() is Open ==> {
            &&& post.output_complete() == seal_ok
            &&& (seal_ok ==> r is Ok)
            &&& (!seal_ok ==> r == Err::<(), CaptureError>(CaptureError::FinalizeError))
        })
    }

    /// The close callback: invoked when the session ends, whether by
    /// auto-termination, external stop, or a capture error. If the encoder
    /// was never finalized this is the session's only chance to seal the
    /// output, so finalize-on-close is unconditional; when the encoder was
    /// already finalized the call is an idempotent success.
    ///
    /// `seal_ok` is the muxer's verdict if a seal is performed now.
    pub fn on_closed(&mut self, seal_ok: bool) -> (r: Result<(), CaptureError>)
        requires
            old(self).wf(),
        ensures
            final(self).wf(),
            CaptureSession::close_step(*old(self), *final(self), seal_ok, r),
    {
        match self.state {
            SessionState::Closed => Ok(()),
            SessionState::Finalized => {
                self.state = SessionState::Closed;
                proof {
                    self.entered@ = self.entered@.push(SessionState::Closed);
                    assert(self.entered@ =~= states_path(SessionState::Closed));
                }
                Ok(())
            }
            SessionState::Open => {
                let e = self.encoder.take().unwrap();
                let out = e.finalize(seal_ok);
                self.output = Some(out);
                self.state = SessionState::Closed;
                proof {
                    self.entered@ = self.entered@.push(SessionState::Finalized).push(
                        SessionState::Closed,
                    );
                    assert(self.entered@ =~= states_path(SessionState::Closed));
                }
                if seal_ok {
                    Ok(())
                } else {
                    Err(CaptureError::FinalizeError)
                }
            }
            SessionState::Created => {
                proof {
                    assert(false);
                }
                Ok(())
            }
        }
    }

    /// Whether the session is open (its encoder is live).
    pub fn is_open(&self) -> (b: bool)
        ensures
            b == (self.phase() is Open),
    {
        match self.state {
            SessionState::Open => true,
            _ => false,
        }
    }

    /// Whether the session has finalized but not yet closed.
    pub fn is_finalized(&self) -> (b: bool)
        ensures
            b == (self.phase() is Finalized),
    {
        match self.state {
            SessionState::Finalized => true,
            _ => false,
        }
    }

    /// Whether the session has closed.
    pub fn is_closed(&self) -> (b: bool)
        ensures
            b == (self.phase() is Closed),
    {
        match self.state {
            SessionState::Closed => true,
            _ => false,
        }
    }

    /// Whether the session has issued a stop request on its handle.
    pub fn has_requested_stop(&self) -> (b: bool)
        ensures
            b == self.stop_requested_spec(),
    {
        self.stop_requested
    }

    /// Elapsed whole seconds since session start, for the progress surface.
    pub fn elapsed_secs(&self, now: u64) -> (e: u64)
        requires
            now >= self.start_spec(),
        ensures
            e == elapsed_secs_spec(self.start_spec(), now),
    {
        now - self.start_time
    }

    /// Whether a frame observed now would trigger auto-termination.
    pub fn finalize_due(&self, now: u64) -> (b: bool)
        requires
            now >= self.start_spec(),
        ensures
            b == (self.phase() is Open && self.policy_spec().due_at(
                elapsed_secs_spec(self.start_spec(), now),
            )),
    {
        match self.state {
            SessionState::Open => self.policy.is_due_at(now - self.start_time),
            _ => false,
        }
    }

    /// How many frames the encoder has received so far.
    pub fn encoded_count(&self) -> (n: usize)
        ensures
            n == self.record().len(),
    {
        match &self.encoder {
            Some(e) => e.frame_count(),
            None => match &self.output {
                Some(o) => o.frame_count(),
                None => 0,
            },
        }
    }

    /// Give up the session and keep only what it produced: its sealed
    /// output, if the finalize transition was reached.
    pub fn into_output(self) -> (o: Option<SealedOutput>)
        ensures
            o == self.sealed_output(),
    {
        self.output
    }
}

/// Law: every frame delivered to the open session is encoded exactly once,
/// in delivery order — the encoder's record and the delivery record are the
/// same sequence, so no frame is skipped or duplicated.
pub proof fn lemma_encoded_matches_delivered(s: CaptureSession)
    requires
        s.wf(),
    ensures
        s.record() == s.delivered_frames(),
{
}

/// Law: under `AutoAfterDuration(n)` a successfully encoded frame finalizes
/// the session and requests stop exactly when its elapsed time has reached
/// the configured duration — on no earlier frame, and on every such frame.
pub proof fn lemma_auto_termination_boundary(
    pre: CaptureSession,
    post: CaptureSession,
    frame_id: u64,
    now: u64,
    seal_ok: bool,
    r: Result<(), CaptureError>,
)
    requires
        pre.wf(),
        now >= pre.start_spec(),
        pre.phase() is Open,
        CaptureSession::frame_step(pre, post, frame_id, now, true, seal_ok, r),
    ensures
        pre.policy_spec().due_at(elapsed_secs_spec(pre.start_spec(), now)) <==> (post.phase()
            is Finalized && post.stop_requested_spec()),
        !pre.policy_spec().due_at(elapsed_secs_spec(pre.start_spec(), now)) ==> post.phase()
            is Open,
{
}

/// Law: closing a session that has already terminated (finalized or closed)
/// succeeds and leaves its record and output untouched — close is
/// idempotent-safe once the encoder is gone.
pub proof fn lemma_close_idempotent(
    pre: CaptureSession,
    post: CaptureSession,
    seal_ok: bool,
    r: Result<(), CaptureError>,
)
    requires
        pre.wf(),
        !(pre.phase() is Open),
        CaptureSession::close_step(pre, post, seal_ok, r),
    ensures
        r is Ok,
        post.phase() is Closed,
        post.record() == pre.record(),
        post.output_complete() == pre.output_complete(),
{
}

/// Law: every session that reaches `Closed` has entered `Finalized` exactly
/// once on the way, and left a sealed output behind — no close path skips
/// the finalize transition, and none repeats it.
pub proof fn lemma_closed_finalized_exactly_once(s: CaptureSession)
    requires
        s.wf(),
        s.phase() is Closed,
    ensures
        times_entered(s.states_entered(), SessionState::Finalized) == 1,
        s.sealed_output() is Some,
{
    let h4 = states_path(SessionState::Closed);
    let h3 = seq![SessionState::Created, SessionState::Open, SessionState::Finalized];
    let h2 = seq![SessionState::Created, SessionState::Open];
    let h1 = seq![SessionState::Created];
    let h0 = Seq::<SessionState>::empty();
    assert(h4.drop_last() =~= h3);
    assert(h3.drop_last() =~= h2);
    assert(h2.drop_last() =~= h1);
    assert(h1.drop_last() =~= h0);
    assert(times_entered(h0, SessionState::Finalized) == 0);
    assert(times_entered(h1, SessionState::Finalized) == 0);
    assert(times_entered(h2, SessionState::Finalized) == 0);
    assert(times_entered(h3, SessionState::Finalized) == 1);
    assert(times_entered(h4, SessionState::Finalized) == 1);
}

} // verus!
