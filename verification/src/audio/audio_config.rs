use crate::handle::HandleView;
use crate::handle::SmartHandle;
use crate::native::Handle;
use crate::native::Resource;
use crate::native::ResourceKind;
use vstd::prelude::*;

verus! {

/// An audio configuration of the engine: where a recognizer takes its audio
/// from. The engine makes it; this value owns its handle.
#[derive(Debug)]
pub struct AudioConfig {
    handle: SmartHandle,
}

impl View for AudioConfig {
    type V = HandleView;

    closed spec fn view(&self) -> HandleView {
        self.handle@
    }
}

impl AudioConfig {
    /// The owner of the audio configuration `handle`.
    pub open spec fn of_handle(handle: Handle) -> HandleView {
        HandleView { label: "AudioConfig"@, handle, kind: ResourceKind::AudioConfig }
    }

    /// Takes ownership of an audio configuration.
    pub fn from_handle(handle: Handle) -> (config: AudioConfig)
        ensures
            config@ == Self::of_handle(handle),
    {
        AudioConfig { handle: SmartHandle::create("AudioConfig", handle, ResourceKind::AudioConfig) }
    }

    /// Name of the owning type, for diagnostics.
    pub fn label(&self) -> (label: &'static str)
        ensures
            label@ == self@.label,
    {
        self.handle.label()
    }

    /// The handle, for passing into a call.
    pub fn get_handle(&self) -> (handle: Handle)
        ensures
            handle == self@.handle,
    {
        self.handle.inner()
    }

    /// Gives up the configuration; see [`SmartHandle::release`].
    pub fn release(&mut self) -> (call: Option<Resource>)
        ensures
            call == old(self)@.release_call(),
            final(self)@ == old(self)@.released(),
    {
        self.handle.release()
    }
}

} // verus!
