//! The bridge to the native backend: every primitive of a session crosses
//! here.

use vstd::prelude::*;
use crate::backend::{BackendCall, CallHistory, CaptureBackend, CaptureParameters};

verus! {

/// The one owner of a backend. Each method of the bridge makes one call on
/// the backend, with the arguments as they were given, so the backend's
/// record of calls is the history of what crossed the bridge.
pub struct CaptureBridge<B: CaptureBackend> {
    native: B,
}

impl<B: CaptureBackend> CaptureBridge<B> {
    /// The backend behind the bridge.
    pub closed spec fn spec_native(&self) -> &B {
        &self.native
    }

    /// Every primitive invoked on the backend so far, oldest first.
    pub open spec fn history(&self) -> CallHistory {
        self.native().calls()
    }

    /// A bridge to `native`.
    pub fn new(native: B) -> (bridge: Self)
        ensures
            *bridge.native() == native,
    {
        CaptureBridge { native }
    }

    /// The backend behind the bridge, to read what it holds.
    #[verifier::when_used_as_spec(spec_native)]
    pub fn native(&self) -> (native: &B)
        ensures
            native == self.spec_native(),
    {
        &self.native
    }

    /// Allocates a native capture resource and hands out its handle.
    pub fn create(&mut self) -> (handle: B::Handle)
        ensures
            final(self).history() == old(self).history().push(BackendCall::Create),
            final(self).native().fixed_answer() == old(self).native().fixed_answer(),
    {
        self.native.create()
    }

    /// Asks the backend to start capturing on `handle` as `params` describes,
    /// and reports its answer.
    pub fn begin(&mut self, handle: &mut B::Handle, params: &CaptureParameters) -> (began: bool)
        ensures
            final(self).history() == old(self).history().push(
                BackendCall::Begin { request: params@, began },
            ),
            old(self).native().fixed_answer() matches Some(answer) ==> began == answer,
            final(self).native().fixed_answer() == old(self).native().fixed_answer(),
    {
        self.native.begin(handle, params)
    }

    /// Stops capture on `handle`; the backend finalizes the output before
    /// this returns.
    pub fn end(&mut self, handle: &mut B::Handle)
        ensures
            final(self).history() == old(self).history().push(BackendCall::End),
            final(self).native().fixed_answer() == old(self).native().fixed_answer(),
    {
        self.native.end(handle);
    }

    /// Destroys the native resource behind `handle`, which is given up.
    pub fn release(&mut self, handle: B::Handle)
        ensures
            final(self).history() == old(self).history().push(BackendCall::Release),
            final(self).native().fixed_answer() == old(self).native().fixed_answer(),
    {
        self.native.release(handle);
    }
}

} // verus!
