use crate::error::convert_err;
use crate::error::Error;
use crate::error::SPX_NOERROR;
use crate::handle::HandleView;
use crate::handle::SmartHandle;
use crate::native::Handle;
use crate::native::NativeCall;
use crate::native::NativeCallView;
use crate::native::Resource;
use crate::native::ResourceKind;
use vstd::prelude::*;

verus! {

/// An audio output stream of the engine.
pub trait AudioOutputStream {
    /// The handle that [`AudioOutputStream::get_handle`] gives.
    spec fn stream_handle(&self) -> Handle;

    /// The stream's handle, for passing into a call.
    fn get_handle(&self) -> (handle: Handle)
        ensures
            handle == self.stream_handle(),
    ;
}

/// An audio output stream that the caller reads from: each read asks the
/// engine for the next bytes and blocks until some are there or the stream has
/// ended.
#[derive(Debug)]
pub struct PullAudioOutputStream {
    pub handle: SmartHandle,
}

impl View for PullAudioOutputStream {
    type V = HandleView;

    open spec fn view(&self) -> HandleView {
        self.handle@
    }
}

impl AudioOutputStream for PullAudioOutputStream {
    open spec fn stream_handle(&self) -> Handle {
        self@.handle
    }

    fn get_handle(&self) -> (handle: Handle) {
        self.handle.inner()
    }
}

impl PullAudioOutputStream {
    /// The owner of the audio stream `handle`.
    pub open spec fn of_handle(handle: Handle) -> HandleView {
        HandleView { label: "PullAudioOutputStream"@, handle, kind: ResourceKind::AudioStream }
    }

    /// The stream that the engine's answer to a creation stands for: none
    /// unless the status is success.
    pub open spec fn created(status: usize, handle: Handle) -> Result<HandleView, Error> {
        if status == SPX_NOERROR {
            Ok(Self::of_handle(handle))
        } else {
            Err(
                Error::NativeError {
                    code: status,
                    context: "PullAudioOutputStream::create_pull_stream error",
                },
            )
        }
    }

    /// The call that reads up to `size` bytes from `stream`. A stream that
    /// has been released takes no call.
    pub open spec fn read_request(stream: HandleView, size: u32) -> Result<NativeCallView, Error> {
        if stream.is_live() {
            Ok(NativeCallView::PullAudioOutputStreamRead { stream: stream.handle, max_len: size })
        } else {
            Err(Error::AlreadyReleased)
        }
    }

    /// The bytes that a read of up to `size` bytes returns when the engine
    /// answered `status`, reporting the first `filled` bytes of `buf` as
    /// written: exactly those bytes, none for an ended stream. A count beyond
    /// `size` or beyond the buffer is refused.
    pub open spec fn read_bytes(size: u32, status: usize, buf: Seq<u8>, filled: u32) -> Result<
        Seq<u8>,
        Error,
    > {
        if status != SPX_NOERROR {
            Err(Error::NativeError { code: status, context: "PullAudioOutputStream.read error" })
        } else if filled > size || filled > buf.len() {
            Err(Error::SizeConversionError)
        } else {
            Ok(buf.subrange(0, filled as int))
        }
    }

    /// What a read of up to `size` bytes from `stream` returns once the engine
    /// has answered. Nothing is read from a stream that has been released or
    /// holds no handle, whatever the answer says; from a live stream the
    /// answer decides, as [`PullAudioOutputStream::read_bytes`] says.
    pub open spec fn read_result(
        stream: HandleView,
        size: u32,
        status: usize,
        buf: Seq<u8>,
        filled: u32,
    ) -> Result<Seq<u8>, Error> {
        if !stream.is_live() {
            Err(Error::AlreadyReleased)
        } else {
            Self::read_bytes(size, status, buf, filled)
        }
    }

    /// Takes ownership of an audio stream.
    pub fn from_handle(handle: Handle) -> (stream: Result<PullAudioOutputStream, Error>)
        ensures
            stream matches Ok(s) && s@ == Self::of_handle(handle),
    {
        Ok(
            PullAudioOutputStream {
                handle: SmartHandle::create(
                    "PullAudioOutputStream",
                    handle,
                    ResourceKind::AudioStream,
                ),
            },
        )
    }

    /// The call that creates a pull stream.
    pub fn create_pull_stream_call() -> (call: NativeCall)
        ensures
            call@ == NativeCallView::CreatePullAudioOutputStream,
    {
        NativeCall::CreatePullAudioOutputStream
    }

    /// Ends a creation from what the engine answered.
    pub fn create_pull_stream(status: usize, handle: Handle) -> (stream: Result<
        PullAudioOutputStream,
        Error,
    >)
        ensures
            stream matches Ok(s) ==> Self::created(status, handle) == Ok::<HandleView, Error>(s@),
            stream matches Err(e) ==> Self::created(status, handle) == Err::<HandleView, Error>(e),
    {
        match convert_err(status, "PullAudioOutputStream::create_pull_stream error") {
            Ok(()) => PullAudioOutputStream::from_handle(handle),
            Err(e) => Err(e),
        }
    }

    /// Prepares a read of up to `size` bytes.
    pub fn read_call(&self, size: u32) -> (prepared: Result<NativeCall, Error>)
        ensures
            prepared matches Ok(call) ==> Self::read_request(self@, size) == Ok::<
                NativeCallView,
                Error,
            >(call@),
            prepared matches Err(e) ==> Self::read_request(self@, size) == Err::<
                NativeCallView,
                Error,
            >(e),
    {
        if !self.handle.is_live() {
            return Err(Error::AlreadyReleased);
        }
        Ok(NativeCall::PullAudioOutputStreamRead { stream: self.handle.inner(), max_len: size })
    }

    /// The buffer for the engine to fill in a read of up to `size` bytes:
    /// `size` zero bytes.
    pub fn read_buffer(size: u32) -> (buf: Vec<u8>)
        ensures
            buf@ == Seq::new(size as nat, |i: int| 0u8),
    {
        let mut buf: Vec<u8> = Vec::new();
        let mut i: u32 = 0;
        while i < size
            invariant
                i <= size,
                buf@ == Seq::new(i as nat, |j: int| 0u8),
            decreases size - i,
        {
            buf.push(0u8);
            i += 1;
        }
        buf
    }

    /// Ends a read of up to `size` bytes: the part of the buffer that the
    /// engine reports as filled. An empty result means the stream has ended.
    /// A stream that has been released gives an error and no bytes.
    pub fn read(&self, size: u32, status: usize, buf: Vec<u8>, filled: u32) -> (bytes: Result<
        Vec<u8>,
        Error,
    >)
        ensures
            bytes matches Ok(b) ==> Self::read_result(self@, size, status, buf@, filled) == Ok::<
                Seq<u8>,
                Error,
            >(b@),
            bytes matches Err(e) ==> Self::read_result(self@, size, status, buf@, filled) == Err::<
                Seq<u8>,
                Error,
            >(e),
    {
        if !self.handle.is_live() {
            return Err(Error::AlreadyReleased);
        }
        match convert_err(status, "PullAudioOutputStream.read error") {
            Ok(()) => {},
            Err(e) => { return Err(e); },
        }
        if filled > size || filled as usize > buf.len() {
            return Err(Error::SizeConversionError);
        }
        let mut bytes = buf;
        bytes.truncate(filled as usize);
        Ok(bytes)
    }

    /// Gives up the stream; see [`SmartHandle::release`].
    pub fn release(&mut self) -> (call: Option<Resource>)
        ensures
            call == old(self)@.release_call(),
            final(self)@ == old(self)@.released(),
    {
        self.handle.release()
    }
}

/// A read returns what the engine reports as filled and nothing else: for
/// every stream and every answer, the bytes that come back are the first
/// `filled` bytes of the buffer, however many were asked for, and never more
/// than were asked for. A live stream owes them whenever the engine answers
/// with success and a count that fits.
pub proof fn lemma_read_returns_filled_bytes(
    stream: HandleView,
    size: u32,
    status: usize,
    buf: Seq<u8>,
    filled: u32,
)
    ensures
        PullAudioOutputStream::read_result(stream, size, status, buf, filled) matches Ok(bytes)
            ==> {
            &&& stream.is_live()
            &&& status == SPX_NOERROR
            &&& bytes.len() == filled
            &&& filled <= size
            &&& forall|i: int| 0 <= i < filled ==> bytes[i] == buf[i]
        },
        stream.is_live() && status == SPX_NOERROR && filled <= size && filled <= buf.len()
            ==> PullAudioOutputStream::read_result(stream, size, status, buf, filled) is Ok,
{
}

/// A read for which the engine reports no bytes is the end of the stream, not
/// an error: from a live stream it returns the empty sequence.
pub proof fn lemma_read_of_nothing_is_empty(stream: HandleView, size: u32, buf: Seq<u8>)
    requires
        stream.is_live(),
    ensures
        PullAudioOutputStream::read_result(stream, size, SPX_NOERROR, buf, 0) == Ok::<
            Seq<u8>,
            Error,
        >(Seq::empty()),
{
    assert(buf.subrange(0, 0) =~= Seq::<u8>::empty());
}

/// A stream owns exactly what the engine made for it: released, it gives
/// back the one resource of a successful creation, and a failed creation has
/// made nothing to give back.
pub proof fn lemma_created_stream_leaks_nothing(status: usize, handle: Handle)
    ensures
        match PullAudioOutputStream::created(status, handle) {
            Ok(stream) => stream.pending() == NativeCallView::CreatePullAudioOutputStream.created(
                status,
                handle,
            ),
            Err(_) => NativeCallView::CreatePullAudioOutputStream.created(status, handle)
                == Seq::<Resource>::empty(),
        },
{
}

/// A stream that has been released reads nothing: no read is prepared for
/// it, and no answer of the engine makes a read of it return bytes. A live
/// stream returns what the answer holds.
pub proof fn lemma_released_stream_reads_nothing(
    stream: HandleView,
    size: u32,
    status: usize,
    buf: Seq<u8>,
    filled: u32,
)
    ensures
        PullAudioOutputStream::read_request(stream.released(), size) == Err::<
            NativeCallView,
            Error,
        >(Error::AlreadyReleased),
        PullAudioOutputStream::read_result(stream.released(), size, status, buf, filled) == Err::<
            Seq<u8>,
            Error,
        >(Error::AlreadyReleased),
        PullAudioOutputStream::read_result(stream, size, status, buf, filled) is Ok
            ==> PullAudioOutputStream::read_request(stream, size) is Ok,
        stream.is_live() ==> PullAudioOutputStream::read_result(stream, size, status, buf, filled)
            == PullAudioOutputStream::read_bytes(size, status, buf, filled),
{
}

/// No read is asked of the empty handle.
pub proof fn lemma_read_names_live_handle(stream: HandleView, size: u32)
    ensures
        PullAudioOutputStream::read_request(stream, size) matches Ok(call)
            ==> call.names_live_handles(),
{
}

} // verus!
