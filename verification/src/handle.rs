//! Ownership of one handle of the engine.

use crate::native::Handle;
use crate::native::Resource;
use crate::native::ResourceKind;
use crate::native::EMPTY_HANDLE;
use vstd::prelude::*;

verus! {

/// Owner of one handle. The owner gives the order to release its handle at
/// most once, and never for the empty handle; after that it holds the empty
/// handle.
#[derive(Debug)]
pub struct SmartHandle {
    label: &'static str,
    internal: Handle,
    kind: ResourceKind,
}

/// What a [`SmartHandle`] holds.
pub struct HandleView {
    /// Name of the owning type, for diagnostics.
    pub label: Seq<char>,
    pub handle: Handle,
    pub kind: ResourceKind,
}

impl HandleView {
    /// The owner still has a resource to release.
    pub open spec fn is_live(self) -> bool {
        self.handle != EMPTY_HANDLE
    }

    /// The order that a release gives now, if any.
    pub open spec fn release_call(self) -> Option<Resource> {
        if self.is_live() {
            Some(Resource { kind: self.kind, handle: self.handle })
        } else {
            None
        }
    }

    /// The orders that a release gives now, as a sequence of at most one.
    pub open spec fn pending(self) -> Seq<Resource> {
        match self.release_call() {
            Some(resource) => seq![resource],
            None => Seq::empty(),
        }
    }

    /// The owner after a release.
    pub open spec fn released(self) -> HandleView {
        HandleView { handle: EMPTY_HANDLE, ..self }
    }

    /// All the orders given by `times` releases in a row.
    pub open spec fn release_repeatedly(self, times: nat) -> Seq<Resource>
        decreases times,
    {
        if times == 0 {
            Seq::empty()
        } else {
            self.pending() + self.released().release_repeatedly((times - 1) as nat)
        }
    }
}

impl View for SmartHandle {
    type V = HandleView;

    closed spec fn view(&self) -> HandleView {
        HandleView { label: self.label@, handle: self.internal, kind: self.kind }
    }
}

impl SmartHandle {
    /// Takes ownership of `handle`, a resource of the given kind.
    pub fn create(label: &'static str, handle: Handle, kind: ResourceKind) -> (owner: SmartHandle)
        ensures
            owner@ == (HandleView { label: label@, handle, kind }),
    {
        SmartHandle { label, internal: handle, kind }
    }

    /// The handle, for passing into a call. Ownership stays here.
    pub fn inner(&self) -> (handle: Handle)
        ensures
            handle == self@.handle,
    {
        self.internal
    }

    /// The same as [`SmartHandle::inner`].
    pub fn get(&self) -> (handle: Handle)
        ensures
            handle == self@.handle,
    {
        self.internal
    }

    pub fn label(&self) -> (label: &'static str)
        ensures
            label@ == self@.label,
    {
        self.label
    }

    pub fn kind(&self) -> (kind: ResourceKind)
        ensures
            kind == self@.kind,
    {
        self.kind
    }

    /// Whether there is still a resource to release.
    pub fn is_live(&self) -> (live: bool)
        ensures
            live == self@.is_live(),
    {
        self.internal != EMPTY_HANDLE
    }

    /// Gives up the handle. The order to release it comes back the first time,
    /// unless the handle is empty; every later call gives no order.
    pub fn release(&mut self) -> (call: Option<Resource>)
        ensures
            call == old(self)@.release_call(),
            final(self)@ == old(self)@.released(),
    {
        if self.internal == EMPTY_HANDLE {
            return None;
        }
        let resource = Resource { kind: self.kind, handle: self.internal };
        self.internal = EMPTY_HANDLE;
        Some(resource)
    }
}

/// However often an owner is released, the engine is asked to release its
/// handle once if the handle is not empty, and never if it is.
pub proof fn lemma_release_at_most_once(owner: HandleView, times: nat)
    ensures
        times >= 1 ==> owner.release_repeatedly(times) == owner.pending(),
        owner.is_live() ==> owner.pending() == seq![
            Resource { kind: owner.kind, handle: owner.handle },
        ],
        !owner.is_live() ==> owner.pending() == Seq::<Resource>::empty(),
        owner.released().pending() == Seq::<Resource>::empty(),
    decreases times,
{
    if times >= 1 {
        lemma_release_at_most_once(owner.released(), (times - 1) as nat);
        assert(owner.released().release_repeatedly((times - 1) as nat) == Seq::<Resource>::empty());
    }
}

} // verus!
