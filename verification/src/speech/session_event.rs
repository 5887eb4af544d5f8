use crate::c_string::c_text;
use crate::c_string::from_c_buffer;
use crate::error::convert_err;
use crate::error::Error;
use crate::error::SPX_NOERROR;
use crate::flow::push_release;
use crate::flow::Failure;
use crate::flow::FailureView;
use crate::handle::HandleView;
use crate::handle::SmartHandle;
use crate::native::Handle;
use crate::native::NativeCall;
use crate::native::NativeCallView;
use crate::native::Resource;
use crate::native::ResourceKind;
use crate::native::EMPTY_HANDLE;
use vstd::prelude::*;
use vstd::slice::slice_subrange;

verus! {

/// Size of the buffer into which the engine copies a session identifier: 36
/// characters and the terminator.
pub const SESSION_ID_CAPACITY: u32 = 37;

/// An event of a recognition session: the session's identifier, copied out of
/// the engine's event, and the event itself, which this value owns.
#[derive(Debug)]
pub struct SessionEvent {
    session_id: String,
    handle: SmartHandle,
}

/// What a [`SessionEvent`] holds.
pub struct SessionEventView {
    pub session_id: Seq<char>,
    pub handle: HandleView,
}

impl View for SessionEvent {
    type V = SessionEventView;

    closed spec fn view(&self) -> SessionEventView {
        SessionEventView { session_id: self.session_id@, handle: self.handle@ }
    }
}

impl SessionEvent {
    /// The owner of the event `handle`.
    pub open spec fn of_handle(handle: Handle) -> HandleView {
        HandleView { label: "SessionEvent"@, handle, kind: ResourceKind::RecognizerEvent }
    }

    /// The part of an answered buffer that the engine was given to write to.
    pub open spec fn written(buf: Seq<u8>) -> Seq<u8> {
        if buf.len() > SESSION_ID_CAPACITY {
            buf.subrange(0, SESSION_ID_CAPACITY as int)
        } else {
            buf
        }
    }

    /// The call that copies the session identifier out of the event `handle`.
    /// Nothing is asked of the empty handle.
    pub open spec fn session_id_request(handle: Handle) -> Result<NativeCallView, Error> {
        if Self::of_handle(handle).is_live() {
            Ok(
                NativeCallView::SessionEventGetSessionId {
                    event: handle,
                    capacity: SESSION_ID_CAPACITY,
                },
            )
        } else {
            Err(Error::AlreadyReleased)
        }
    }

    /// The event that stands for `handle` once the engine has answered the
    /// copy of its session identifier with `status` and `buf`. The event is
    /// owned from the start: where the copy failed, or the buffer holds no
    /// terminated UTF-8 text within its capacity, the failure carries the
    /// release of the event.
    pub open spec fn event(handle: Handle, status: usize, buf: Seq<u8>) -> Result<
        SessionEventView,
        FailureView,
    > {
        let owner = Self::of_handle(handle);
        if status != SPX_NOERROR {
            Err(
                FailureView {
                    error: Error::NativeError {
                        code: status,
                        context: "SessionEvent::from_handle error",
                    },
                    releases: owner.pending(),
                },
            )
        } else {
            match c_text(Self::written(buf)) {
                Ok(session_id) => Ok(SessionEventView { session_id, handle: owner }),
                Err(error) => Err(FailureView { error, releases: owner.pending() }),
            }
        }
    }

    /// Prepares the copy of the session identifier of an event.
    pub fn from_handle_call(handle: Handle) -> (prepared: Result<NativeCall, Error>)
        ensures
            prepared matches Ok(call) ==> Self::session_id_request(handle) == Ok::<
                NativeCallView,
                Error,
            >(call@),
            prepared matches Err(e) ==> Self::session_id_request(handle) == Err::<
                NativeCallView,
                Error,
            >(e),
    {
        if handle == EMPTY_HANDLE {
            return Err(Error::AlreadyReleased);
        }
        Ok(NativeCall::SessionEventGetSessionId { event: handle, capacity: SESSION_ID_CAPACITY })
    }

    /// Takes ownership of an event and reads its session identifier out of
    /// the buffer that the engine answered.
    pub fn from_handle(handle: Handle, status: usize, buf: &[u8]) -> (event: Result<
        SessionEvent,
        Failure,
    >)
        ensures
            event matches Ok(e) ==> Self::event(handle, status, buf@) == Ok::<
                SessionEventView,
                FailureView,
            >(e@),
            event matches Err(f) ==> Self::event(handle, status, buf@) == Err::<
                SessionEventView,
                FailureView,
            >(f@),
    {
        let mut owner = SmartHandle::create("SessionEvent", handle, ResourceKind::RecognizerEvent);
        let read = match convert_err(status, "SessionEvent::from_handle error") {
            Ok(()) => {
                let written = if buf.len() > SESSION_ID_CAPACITY as usize {
                    slice_subrange(buf, 0, SESSION_ID_CAPACITY as usize)
                } else {
                    buf
                };
                from_c_buffer(written)
            },
            Err(error) => Err(error),
        };
        match read {
            Ok(session_id) => Ok(SessionEvent { session_id, handle: owner }),
            Err(error) => {
                let mut releases: Vec<Resource> = Vec::new();
                push_release(&mut releases, owner.release());
                Err(Failure { error, releases })
            },
        }
    }

    /// The identifier of the session that raised the event.
    pub fn session_id(&self) -> (session_id: &str)
        ensures
            session_id@ == self@.session_id,
    {
        self.session_id.as_str()
    }

    /// Name of the owning type, for diagnostics.
    pub fn label(&self) -> (label: &'static str)
        ensures
            label@ == self@.handle.label,
    {
        self.handle.label()
    }

    /// The event's handle, for passing into a call.
    pub fn get_handle(&self) -> (handle: Handle)
        ensures
            handle == self@.handle.handle,
    {
        self.handle.inner()
    }

    /// Gives up the event; see [`SmartHandle::release`]. The identifier stays.
    pub fn release(&mut self) -> (call: Option<Resource>)
        ensures
            call == old(self)@.handle.release_call(),
            final(self)@ == (SessionEventView {
                session_id: old(self)@.session_id,
                handle: old(self)@.handle.released(),
            }),
    {
        self.handle.release()
    }
}

/// No session identifier is asked of the empty handle.
pub proof fn lemma_session_id_names_live_handle(handle: Handle)
    ensures
        SessionEvent::session_id_request(handle) matches Ok(call) ==> call.names_live_handles(),
{
}

/// An event is owned whether its identifier could be read or not: the handle
/// is in the event that comes back, or in the releases of the failure.
pub proof fn lemma_event_is_owned(handle: Handle, status: usize, buf: Seq<u8>)
    ensures
        match SessionEvent::event(handle, status, buf) {
            Ok(event) => event.handle == SessionEvent::of_handle(handle),
            Err(failure) => failure.releases == SessionEvent::of_handle(handle).pending(),
        },
{
}

} // verus!
