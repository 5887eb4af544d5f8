//! Operations that need more than one answer from the engine. Such an
//! operation is a small machine: each step hands out the next call together
//! with the state that waits for its answer, or ends the operation.

use crate::error::Error;
use crate::native::Handle;
use crate::native::NativeCall;
use crate::native::NativeCallView;
use crate::native::Resource;
use vstd::prelude::*;

verus! {

/// The end of an operation that owned handles when it failed: the error, and
/// the releases that give back everything the operation owned, in order.
#[derive(Debug, PartialEq, Eq)]
pub struct Failure {
    pub error: Error,
    pub releases: Vec<Resource>,
}

/// A [`Failure`] with its releases as a sequence.
pub struct FailureView {
    pub error: Error,
    pub releases: Seq<Resource>,
}

impl View for Failure {
    type V = FailureView;

    open spec fn view(&self) -> FailureView {
        FailureView { error: self.error, releases: self.releases@ }
    }
}

/// Where an operation stands after a step.
#[derive(Debug)]
pub enum Step<S, T> {
    /// Perform the call and hand its answer to the waiting state.
    Call(S, NativeCall),
    /// The operation is done.
    Ready(T),
    /// The operation failed; nothing of it is left but the releases to perform.
    Failed(Failure),
}

/// A [`Step`] over the views of its parts.
pub enum StepView<S, T> {
    Call(S, NativeCallView),
    Ready(T),
    Failed(FailureView),
}

impl<S: View, T: View> View for Step<S, T> {
    type V = StepView<S::V, T::V>;

    open spec fn view(&self) -> StepView<S::V, T::V> {
        match *self {
            Step::Call(state, call) => StepView::Call(state@, call@),
            Step::Ready(value) => StepView::Ready(value@),
            Step::Failed(failure) => StepView::Failed(failure@),
        }
    }
}

/// What the engine answered to a call that makes a resource.
pub struct Answer {
    pub status: usize,
    pub handle: Handle,
}

/// The account of an operation from its first call to its end: the resources
/// that the engine made for it, and the releases that it ordered.
pub struct Ledger {
    pub created: Seq<Resource>,
    pub released: Seq<Resource>,
}

/// Appends the order that a release gave, if it gave one.
pub fn push_release(releases: &mut Vec<Resource>, call: Option<Resource>)
    ensures
        final(releases)@ == old(releases)@ + match call {
            Some(resource) => seq![resource],
            None => Seq::<Resource>::empty(),
        },
{
    match call {
        Some(resource) => {
            releases.push(resource);
        },
        None => {},
    }
}

} // verus!
