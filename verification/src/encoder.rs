use vstd::prelude::*;

verus! {

/// Model of the container encoder: it receives raw frames strictly in
/// sequence and is sealed by `finalize`, exactly once, into a [`SealedOutput`].
///
/// A frame is identified here by a plain id; the raster contents belong to
/// the platform capture layer and are never retained beyond one callback.
pub struct Encoder {
    frames: Vec<u64>,
}

/// What a finalized encoder leaves behind: the output file. `complete`
/// records whether sealing the container succeeded; an incomplete output is
/// not a valid, playable file.
pub struct SealedOutput {
    frames: Vec<u64>,
    complete: bool,
}

impl Encoder {
    /// The ids of the frames this encoder has received, in delivery order.
    pub closed spec fn frames_spec(&self) -> Seq<u64> {
        self.frames@
    }

    /// Open a fresh encoder that has received no frames.
    pub fn open() -> (e: Encoder)
        ensures
            e.frames_spec() == Seq::<u64>::empty(),
    {
        Encoder { frames: Vec::new() }
    }

    /// Accept one frame: it is appended after every frame received so far.
    pub fn send_frame(&mut self, frame_id: u64)
        ensures
            final(self).frames_spec() == old(self).frames_spec().push(frame_id),
    {
        self.frames.push(frame_id);
    }

    /// Seal the encoder into its output. Consumes the encoder: no frame can
    /// be sent after finalize. `sealed_ok` is the verdict of the muxer that
    /// wrote the container; it decides whether the output is complete.
    pub fn finalize(self, sealed_ok: bool) -> (o: SealedOutput)
        ensures
            o.frames_spec() == self.frames_spec(),
            o.is_complete() == sealed_ok,
    {
        SealedOutput { frames: self.frames, complete: sealed_ok }
    }

    /// How many frames the encoder has received.
    pub fn frame_count(&self) -> (n: usize)
        ensures
            n == self.frames_spec().len(),
    {
        self.frames.len()
    }
}

impl SealedOutput {
    /// The ids of the frames that were encoded into this output, in order.
    pub closed spec fn frames_spec(&self) -> Seq<u64> {
        self.frames@
    }

    /// Whether the container was sealed successfully.
    pub closed spec fn is_complete(&self) -> bool {
        self.complete
    }

    /// How many frames the output holds.
    pub fn frame_count(&self) -> (n: usize)
        ensures
            n == self.frames_spec().len(),
    {
        self.frames.len()
    }

    /// The id of the `i`-th encoded frame.
    pub fn frame_at(&self, i: usize) -> (id: u64)
        requires
            i < self.frames_spec().len(),
        ensures
            id == self.frames_spec()[i as int],
    {
        self.frames[i]
    }

    /// Executable form of `is_complete`.
    pub fn complete(&self) -> (c: bool)
        ensures
            c == self.is_complete(),
    {
        self.complete
    }

    /// Classify this output: a complete output is valid; an output whose
    /// seal failed is reported as an incomplete output.
    pub fn check(&self) -> (r: Result<(), crate::errors::CaptureError>)
        ensures
            r is Ok <==> self.is_complete(),
            !self.is_complete() ==> r == Err::<(), crate::errors::CaptureError>(
                crate::errors::CaptureError::IncompleteOutputError,
            ),
    {
        if self.complete {
            Ok(())
        } else {
            Err(crate::errors::CaptureError::IncompleteOutputError)
        }
    }
}

} // verus!
