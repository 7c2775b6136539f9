//! The native capture backend: what is asked of it, and the four primitives
//! through which it is asked.

use vstd::prelude::*;

verus! {

/// What a recording is asked to capture, as a mathematical value.
pub ghost struct CaptureRequest {
    pub window: Seq<char>,
    pub width: u32,
    pub height: u32,
    pub bitrate: u32,
    pub output_path: Seq<char>,
}

/// A requested recording: the target window, the frame size, the bitrate in
/// bits per second and the destination file. The session hands it to the
/// backend as it is; only the backend judges it.
#[derive(Debug)]
pub struct CaptureParameters<'a> {
    pub window: &'a str,
    pub width: u32,
    pub height: u32,
    pub bitrate: u32,
    pub output_path: &'a str,
}

impl<'a> View for CaptureParameters<'a> {
    type V = CaptureRequest;

    open spec fn view(&self) -> CaptureRequest {
        CaptureRequest {
            window: self.window@,
            width: self.width,
            height: self.height,
            bitrate: self.bitrate,
            output_path: self.output_path@,
        }
    }
}

/// One invocation of a backend primitive.
pub ghost enum BackendCall {
    /// A handle was allocated.
    Create,
    /// Capture was requested on a handle, and the backend answered `began`.
    Begin { request: CaptureRequest, began: bool },
    /// Capture was stopped on a handle and the output finalized.
    End,
    /// A handle was destroyed.
    Release,
}

/// The record of the primitives invoked on a backend, oldest first.
pub type CallHistory = Seq<BackendCall>;

/// A native capture backend: the four primitives that cross into it.
///
/// A handle is a capability: it comes from `create`, is lent to `begin` and
/// `end`, and is given up to `release`. Code that is generic over the backend
/// cannot copy it, so it is released at most once.
///
/// Every primitive adds itself to the backend's record of calls, and nothing
/// else changes that record. The record exists for contracts alone: `calls`
/// is never run, so a backend written outside this library gives it a body
/// that does not return.
pub trait CaptureBackend: Sized {
    /// The opaque reference to one native capture resource.
    type Handle;

    /// Every primitive invoked on this backend so far, oldest first.
    spec fn calls(&self) -> CallHistory;

    /// The answer that `begin` is bound to give, where the backend fixes one;
    /// `None` where the answer depends on the outside world.
    open spec fn fixed_answer(&self) -> Option<bool> {
        None
    }

    /// Allocates a native capture resource. A backend that cannot allocate
    /// one is broken beyond what a session can mend: it aborts instead of
    /// returning.
    fn create(&mut self) -> (handle: Self::Handle)
        ensures
            final(self).calls() == old(self).calls().push(BackendCall::Create),
            final(self).fixed_answer() == old(self).fixed_answer(),
    ;

    /// Asks the backend to start capturing as `params` describes. Expected
    /// failures (no permission, no such window) are answered with `false`.
    fn begin(&mut self, handle: &mut Self::Handle, params: &CaptureParameters) -> (began: bool)
        ensures
            final(self).calls() == old(self).calls().push(BackendCall::Begin { request: params@, began }),
            old(self).fixed_answer() matches Some(answer) ==> began == answer,
            final(self).fixed_answer() == old(self).fixed_answer(),
    ;

    /// Stops capture and finalizes the output file before returning.
    fn end(&mut self, handle: &mut Self::Handle)
        ensures
            final(self).calls() == old(self).calls().push(BackendCall::End),
            final(self).fixed_answer() == old(self).fixed_answer(),
    ;

    /// Destroys the native resource behind `handle`.
    fn release(&mut self, handle: Self::Handle)
        ensures
            final(self).calls() == old(self).calls().push(BackendCall::Release),
            final(self).fixed_answer() == old(self).fixed_answer(),
    ;
}

/// The handle of a platform without capture: it refers to nothing.
pub struct AbsentHandle {
    nothing: (),
}

/// The backend of a platform without native capture. Every primitive is a
/// no-op and `begin` always reports failure, so capture is never available:
/// a call leaves the handle as it was and changes nothing of the backend but
/// its record of calls.
pub struct AbsentBackend {
    asked: Ghost<Seq<BackendCall>>,
}

impl AbsentBackend {
    /// The backend that is not there, with nothing on its record.
    pub fn new() -> (backend: Self)
        ensures
            backend.calls() == Seq::<BackendCall>::empty(),
            backend.fixed_answer() == Some(false),
    {
        AbsentBackend { asked: Ghost(Seq::empty()) }
    }
}

impl CaptureBackend for AbsentBackend {
    type Handle = AbsentHandle;

    closed spec fn calls(&self) -> CallHistory {
        self.asked@
    }

    open spec fn fixed_answer(&self) -> Option<bool> {
        Some(false)
    }

    fn create(&mut self) -> (handle: AbsentHandle) {
        proof {
            self.asked@ = self.asked@.push(BackendCall::Create);
        }
        AbsentHandle { nothing: () }
    }

    fn begin(&mut self, handle: &mut AbsentHandle, params: &CaptureParameters) -> (began: bool)
        ensures
            !began,
            *final(handle) == *old(handle),
    {
        proof {
            self.asked@ = self.asked@.push(BackendCall::Begin { request: params@, began: false });
        }
        false
    }

    fn end(&mut self, handle: &mut AbsentHandle)
        ensures
            *final(handle) == *old(handle),
    {
        proof {
            self.asked@ = self.asked@.push(BackendCall::End);
        }
    }

    fn release(&mut self, handle: AbsentHandle) {
        proof {
            self.asked@ = self.asked@.push(BackendCall::Release);
        }
    }
}

} // verus!
