use vstd::prelude::*;

verus! {

/// The possible reasons a recognition result might be canceled.
#[derive(Debug, Clone, Copy, PartialEq, Eq, Structural)]
pub enum CancellationReason {
    /// An error occurred during speech recognition.
    Error,
    /// The end of the audio stream was reached.
    EndOfStream,
    /// The request was cancelled by the user.
    CancelledByUser,
}

impl CancellationReason {
    /// The reason that the engine's numeric code stands for. The engine numbers
    /// its reasons from one; every code it does not define decodes to
    /// `CancelledByUser`.
    pub open spec fn decode(code: u32) -> CancellationReason {
        if code == 1 {
            CancellationReason::Error
        } else if code == 2 {
            CancellationReason::EndOfStream
        } else {
            CancellationReason::CancelledByUser
        }
    }

    /// The number that the engine gives this reason.
    pub open spec fn code(self) -> u32 {
        match self {
            CancellationReason::Error => 1,
            CancellationReason::EndOfStream => 2,
            CancellationReason::CancelledByUser => 3,
        }
    }

    /// The numeric code under which the engine reports this reason.
    pub fn to_u32(self) -> (code: u32)
        ensures
            code == self.code(),
    {
        match self {
            CancellationReason::Error => 1,
            CancellationReason::EndOfStream => 2,
            CancellationReason::CancelledByUser => 3,
        }
    }

    /// The reason that the engine reports under `code`.
    pub fn from_u32(code: u32) -> (reason: CancellationReason)
        ensures
            reason == Self::decode(code),
    {
        match code {
            1 => CancellationReason::Error,
            2 => CancellationReason::EndOfStream,
            _ => CancellationReason::CancelledByUser,
        }
    }
}

/// The code of every reason decodes to that reason, and every code that is
/// not the code of a reason decodes to `CancelledByUser`.
pub proof fn lemma_decode_inverts_code(reason: CancellationReason, code: u32)
    ensures
        CancellationReason::decode(reason.code()) == reason,
        (forall|r: CancellationReason| r.code() != code) ==> CancellationReason::decode(code)
            == CancellationReason::CancelledByUser,
{
    if forall|r: CancellationReason| r.code() != code {
        assert(CancellationReason::Error.code() != code);
        assert(CancellationReason::EndOfStream.code() != code);
    }
}

} // verus!
