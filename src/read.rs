//! Reading a network from memory: the weights go to the engine in a transient native buffer,
//! which is released once the read has returned, whatever it reported.
use vstd::prelude::*;
use crate::error::{check_status, status_result, InferenceError};
use crate::tensor::{Layout, Precision, TensorDesc, TensorShape};

verus! {

/// The shape under which weights of `len` bytes are handed over: one dimension of `len`
/// unsigned bytes, in no particular layout.
pub open spec fn weights_shape(len: usize) -> TensorShape {
    TensorShape { layout: Layout::ANY, dims: seq![len], precision: Precision::U8 }
}

/// Describe weights of `len` bytes as a flat buffer of unsigned bytes.
pub fn weights_desc(len: usize) -> (r: TensorDesc)
    ensures
        r@ == weights_shape(len),
{
    let dims: [usize; 1] = [len];
    let r = TensorDesc::new(Layout::ANY, dims.as_slice(), Precision::U8);
    assert(r@.dims =~= seq![len]);
    r
}

/// What a read from memory asks its caller to do next.
#[derive(Debug)]
pub enum ReadAction {
    /// Wrap the weights bytes in a new native buffer of this shape.
    MakeWeightsBlob(TensorDesc),
    /// Read the network from the model bytes and the weights buffer.
    ReadNetwork,
    /// Release the weights buffer.
    ReleaseWeightsBlob,
    /// The read is over; on `Ok` the network it produced is the result.
    Finish(Result<(), InferenceError>),
}

/// Which outcome a read is waiting for.
#[derive(Clone, Copy, Debug, PartialEq, Eq, Structural)]
pub enum ReadPhase {
    MakingBlob,
    Reading,
    ReleasingBlob,
    Done,
}

/// The steps of one read of a network from memory.
pub struct BufferRead {
    phase: ReadPhase,
    outcome: Result<(), InferenceError>,
}

impl BufferRead {
    /// The outcome this read is waiting for.
    pub closed spec fn phase(&self) -> ReadPhase {
        self.phase
    }

    /// What the read will report once the weights buffer is released.
    pub closed spec fn outcome(&self) -> Result<(), InferenceError> {
        self.outcome
    }

    /// Whether a native weights buffer exists that this read has yet to release.
    pub open spec fn holds_blob(&self) -> bool {
        self.phase() == ReadPhase::Reading || self.phase() == ReadPhase::ReleasingBlob
    }

    /// Begin reading a network whose weights are `weights_len` bytes long.
    pub fn new(weights_len: usize) -> (r: (BufferRead, ReadAction))
        ensures
            r.0.phase() == ReadPhase::MakingBlob,
            !r.0.holds_blob(),
            r.1 matches ReadAction::MakeWeightsBlob(d) && d@ == weights_shape(weights_len),
    {
        let desc = weights_desc(weights_len);
        (BufferRead { phase: ReadPhase::MakingBlob, outcome: Ok(()) }, ReadAction::MakeWeightsBlob(desc))
    }

    /// The native buffer call reported `status`. On failure no buffer exists and the read ends.
    pub fn on_blob_made(&mut self, status: i32) -> (a: ReadAction)
        requires
            old(self).phase() == ReadPhase::MakingBlob,
        ensures
            match status_result(status) {
                Ok(_) => {
                    &&& a is ReadNetwork
                    &&& final(self).phase() == ReadPhase::Reading
                    &&& final(self).holds_blob()
                },
                Err(e) => {
                    &&& a == ReadAction::Finish(Err(e))
                    &&& final(self).phase() == ReadPhase::Done
                    &&& !final(self).holds_blob()
                },
            },
    {
        match check_status(status) {
            Ok(()) => {
                self.phase = ReadPhase::Reading;
                ReadAction::ReadNetwork
            },
            Err(e) => {
                self.phase = ReadPhase::Done;
                self.outcome = Err(e);
                ReadAction::Finish(Err(e))
            },
        }
    }

    /// The native read call reported `status`. Whether it succeeded or not, the weights buffer
    /// is released next, and the status is kept for the end.
    pub fn on_network_read(&mut self, status: i32) -> (a: ReadAction)
        requires
            old(self).phase() == ReadPhase::Reading,
        ensures
            a is ReleaseWeightsBlob,
            final(self).phase() == ReadPhase::ReleasingBlob,
            final(self).holds_blob(),
            final(self).outcome() == status_result(status),
    {
        self.outcome = check_status(status);
        self.phase = ReadPhase::ReleasingBlob;
        ReadAction::ReleaseWeightsBlob
    }

    /// The weights buffer was released; the read ends with the status of the native read.
    pub fn on_blob_released(&mut self) -> (a: ReadAction)
        requires
            old(self).phase() == ReadPhase::ReleasingBlob,
        ensures
            a == ReadAction::Finish(old(self).outcome()),
            final(self).phase() == ReadPhase::Done,
            !final(self).holds_blob(),
    {
        self.phase = ReadPhase::Done;
        ReadAction::Finish(self.outcome)
    }
}

} // verus!
