//! The engine's entry points as values. Nothing here calls the engine: an
//! operation hands out the call it needs as a [`NativeCall`], the caller
//! performs it, and the operation goes on from what the engine answered.

use crate::error::SPX_NOERROR;
use vstd::prelude::*;

verus! {

/// An opaque token by which the engine names one of its resources.
pub type Handle = usize;

/// The handle that names no resource.
pub const EMPTY_HANDLE: Handle = 0;

/// The kinds of resource that the engine hands out. Each kind has its own
/// release entry point.
#[derive(Debug, Clone, Copy, PartialEq, Eq, Structural)]
pub enum ResourceKind {
    SpeechConfig,
    SpeechRecognizer,
    AudioConfig,
    AudioStream,
    RecognizerEvent,
    PropertyBag,
}

/// One resource of the engine. Handed out by a release, it is the order to
/// call the release entry point of `kind` on `handle`; what that call answers
/// is of no consequence to the library.
#[derive(Debug, Clone, Copy, PartialEq, Eq, Structural)]
pub struct Resource {
    pub kind: ResourceKind,
    pub handle: Handle,
}

/// A call into the engine whose answer an operation waits for. Strings are
/// given as the engine takes them, closed by a zero byte.
#[derive(Debug, PartialEq, Eq)]
pub enum NativeCall {
    /// Create a speech configuration. Answer: status and the new handle.
    SpeechConfigFromSubscription { subscription: Vec<u8>, region: Vec<u8> },
    /// Fetch the property bag of a speech configuration. Answer: status and
    /// the bag's handle.
    SpeechConfigPropertyBag { config: Handle },
    /// Create a recognizer. Answer: status and the new handle.
    RecognizerFromConfig { config: Handle, audio: Handle },
    /// Fetch the property bag of a recognizer. Answer: status and the bag's
    /// handle.
    RecognizerPropertyBag { recognizer: Handle },
    /// Store a string property. Answer: status.
    PropertySetString { bag: Handle, name: Vec<u8>, value: Vec<u8> },
    /// Look a string property up. Answer: a buffer holding the value.
    PropertyGetString { bag: Handle, name: Vec<u8> },
    /// Create a pull audio output stream. Answer: status and the new handle.
    CreatePullAudioOutputStream,
    /// Read from a pull audio output stream into a buffer of `max_len` bytes.
    /// Answer: status, the buffer and the number of bytes filled.
    PullAudioOutputStreamRead { stream: Handle, max_len: u32 },
    /// Copy the session identifier of an event into a buffer of `capacity`
    /// bytes. Answer: status and the buffer.
    SessionEventGetSessionId { event: Handle, capacity: u32 },
}

/// A [`NativeCall`] with its strings as byte sequences.
pub enum NativeCallView {
    SpeechConfigFromSubscription { subscription: Seq<u8>, region: Seq<u8> },
    SpeechConfigPropertyBag { config: Handle },
    RecognizerFromConfig { config: Handle, audio: Handle },
    RecognizerPropertyBag { recognizer: Handle },
    PropertySetString { bag: Handle, name: Seq<u8>, value: Seq<u8> },
    PropertyGetString { bag: Handle, name: Seq<u8> },
    CreatePullAudioOutputStream,
    PullAudioOutputStreamRead { stream: Handle, max_len: u32 },
    SessionEventGetSessionId { event: Handle, capacity: u32 },
}

impl NativeCallView {
    /// The kind of resource that the engine makes when it answers the call
    /// with success, for the calls that make one.
    pub open spec fn creates(self) -> Option<ResourceKind> {
        match self {
            NativeCallView::SpeechConfigFromSubscription { .. } => Some(ResourceKind::SpeechConfig),
            NativeCallView::SpeechConfigPropertyBag { .. } => Some(ResourceKind::PropertyBag),
            NativeCallView::RecognizerFromConfig { .. } => Some(ResourceKind::SpeechRecognizer),
            NativeCallView::RecognizerPropertyBag { .. } => Some(ResourceKind::PropertyBag),
            NativeCallView::CreatePullAudioOutputStream => Some(ResourceKind::AudioStream),
            _ => None,
        }
    }

    /// The resources that exist because the engine answered the call with
    /// `status` and `handle`: one, where the call makes a resource, the status
    /// is success and the handle is not empty.
    pub open spec fn created(self, status: usize, handle: Handle) -> Seq<Resource> {
        match self.creates() {
            Some(kind) if status == SPX_NOERROR && handle != EMPTY_HANDLE => seq![
                Resource { kind, handle },
            ],
            _ => Seq::empty(),
        }
    }

    /// The handles that the call names.
    pub open spec fn handles(self) -> Seq<Handle> {
        match self {
            NativeCallView::SpeechConfigFromSubscription { .. } => Seq::empty(),
            NativeCallView::SpeechConfigPropertyBag { config } => seq![config],
            NativeCallView::RecognizerFromConfig { config, audio } => seq![config, audio],
            NativeCallView::RecognizerPropertyBag { recognizer } => seq![recognizer],
            NativeCallView::PropertySetString { bag, .. } => seq![bag],
            NativeCallView::PropertyGetString { bag, .. } => seq![bag],
            NativeCallView::CreatePullAudioOutputStream => Seq::empty(),
            NativeCallView::PullAudioOutputStreamRead { stream, .. } => seq![stream],
            NativeCallView::SessionEventGetSessionId { event, .. } => seq![event],
        }
    }

    /// The call names no empty handle.
    pub open spec fn names_live_handles(self) -> bool {
        forall|i: int| 0 <= i < self.handles().len() ==> self.handles()[i] != EMPTY_HANDLE
    }
}

impl View for NativeCall {
    type V = NativeCallView;

    open spec fn view(&self) -> NativeCallView {
        match *self {
            NativeCall::SpeechConfigFromSubscription { subscription, region } => {
                NativeCallView::SpeechConfigFromSubscription {
                    subscription: subscription@,
                    region: region@,
                }
            },
            NativeCall::SpeechConfigPropertyBag { config } => {
                NativeCallView::SpeechConfigPropertyBag { config }
            },
            NativeCall::RecognizerFromConfig { config, audio } => {
                NativeCallView::RecognizerFromConfig { config, audio }
            },
            NativeCall::RecognizerPropertyBag { recognizer } => {
                NativeCallView::RecognizerPropertyBag { recognizer }
            },
            NativeCall::PropertySetString { bag, name, value } => {
                NativeCallView::PropertySetString { bag, name: name@, value: value@ }
            },
            NativeCall::PropertyGetString { bag, name } => {
                NativeCallView::PropertyGetString { bag, name: name@ }
            },
            NativeCall::CreatePullAudioOutputStream => NativeCallView::CreatePullAudioOutputStream,
            NativeCall::PullAudioOutputStreamRead { stream, max_len } => {
                NativeCallView::PullAudioOutputStreamRead { stream, max_len }
            },
            NativeCall::SessionEventGetSessionId { event, capacity } => {
                NativeCallView::SessionEventGetSessionId { event, capacity }
            },
        }
    }
}

} // verus!
