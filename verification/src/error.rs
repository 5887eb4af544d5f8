use vstd::prelude::*;

verus! {

/// The status with which the engine reports success.
pub const SPX_NOERROR: usize = 0;

/// What can go wrong at the boundary with the engine.
#[derive(Debug, Clone, Copy, PartialEq, Eq)]
pub enum Error {
    /// The engine answered a call with a status other than [`SPX_NOERROR`].
    /// `context` names the operation that made the call.
    NativeError { code: usize, context: &'static str },
    /// A string argument holds a zero byte and cannot be handed to the engine.
    InvalidArgument,
    /// Text written by the engine is not UTF-8.
    EncodingError,
    /// What the engine reports to have written does not fit the buffer it was
    /// given: a count beyond the buffer, or text without its terminator.
    SizeConversionError,
    /// The operation was asked of the empty handle: of an owner that has been
    /// released, or of one for which the engine gave no handle.
    AlreadyReleased,
}

/// What a status means for the operation named by `context`: success for
/// [`SPX_NOERROR`], and a [`Error::NativeError`] carrying the status otherwise.
pub open spec fn status_result(hr: usize, context: &'static str) -> Result<(), Error> {
    if hr == SPX_NOERROR {
        Ok(())
    } else {
        Err(Error::NativeError { code: hr, context })
    }
}

/// Checks the status of a call that has just returned.
pub fn convert_err(hr: usize, err_msg: &'static str) -> (checked: Result<(), Error>)
    ensures
        checked == status_result(hr, err_msg),
{
    if hr != SPX_NOERROR {
        return Err(Error::NativeError { code: hr, context: err_msg });
    }
    Ok(())
}

} // verus!
