//! The recorder: one session over one backend.

use vstd::prelude::*;
use crate::backend::{AbsentBackend, BackendCall, CaptureBackend, CaptureParameters, CaptureRequest};
use crate::bridge::CaptureBridge;
use crate::model::{start_calls, stop_calls, SessionState, SessionView, StartError};

verus! {

/// A capture session. It is idle or recording, and while it records it owns
/// the one native handle of that recording.
///
/// Starting and stopping take the session by exclusive reference, so a caller
/// that shares it between threads holds it behind one lock, and the check for
/// a running recording and the start of a new one cannot be separated.
pub struct Recorder<B: CaptureBackend = AbsentBackend> {
    bridge: CaptureBridge<B>,
    capture: Option<B::Handle>,
}

impl<B: CaptureBackend> View for Recorder<B> {
    type V = SessionView;

    open spec fn view(&self) -> SessionView {
        SessionView {
            state: if self.spec_is_recording() {
                SessionState::Recording
            } else {
                SessionState::Idle
            },
            history: self.bridge().history(),
        }
    }
}

impl Recorder<AbsentBackend> {
    /// An idle session on which nothing happened yet. No native capture is
    /// behind it, so every start on it fails.
    pub fn new() -> (session: Self)
        ensures
            session@ == SessionView::fresh(),
    {
        Recorder { bridge: CaptureBridge::new(AbsentBackend::new()), capture: None }
    }
}

impl Default for Recorder<AbsentBackend> {
    fn default() -> (session: Self)
        ensures
            session@ == SessionView::fresh(),
    {
        Recorder::new()
    }
}

impl<B: CaptureBackend> Recorder<B> {
    /// The bridge through which the session reaches its backend.
    pub closed spec fn bridge(&self) -> &CaptureBridge<B> {
        &self.bridge
    }

    /// The backend as it stands.
    pub open spec fn spec_backend(&self) -> &B {
        self.bridge().native()
    }

    /// Whether a handle is owned.
    pub closed spec fn spec_is_recording(&self) -> bool {
        self.capture is Some
    }

    /// An idle session that records through `backend`. Its history is what
    /// was asked of `backend` before.
    pub fn with_backend(backend: B) -> (session: Self)
        ensures
            session@ == (SessionView { state: SessionState::Idle, history: backend.calls() }),
            *session.backend() == backend,
    {
        Recorder { bridge: CaptureBridge::new(backend), capture: None }
    }

    /// The backend, to read what it holds.
    #[verifier::when_used_as_spec(spec_backend)]
    pub fn backend(&self) -> (backend: &B)
        ensures
            backend == self.spec_backend(),
    {
        self.bridge.native()
    }

    /// Whether the session is recording. Nothing changes by asking.
    #[verifier::when_used_as_spec(spec_is_recording)]
    pub fn is_recording(&self) -> (recording: bool)
        ensures
            recording == (self@.state == SessionState::Recording),
    {
        self.capture.is_some()
    }

    /// Starts a recording of `window_title` into `output_path`.
    ///
    /// While recording, the request is rejected and the backend is not
    /// touched. While idle, a handle is created and capture requested with the
    /// arguments as they were given; the session records exactly when the
    /// backend says that capture began, and a handle on which it did not begin
    /// is released before the error is returned.
    pub fn start(
        &mut self,
        window_title: &str,
        width: u32,
        height: u32,
        bitrate: u32,
        output_path: &str,
    ) -> (result: Result<(), StartError>)
        ensures
            ({
                let request = CaptureRequest {
                    window: window_title@,
                    width,
                    height,
                    bitrate,
                    output_path: output_path@,
                };
                &&& final(self)@ == old(self)@.after_start(request, result is Ok)
                &&& old(self)@.state == SessionState::Recording ==> {
                    &&& result == Err::<(), StartError>(StartError::AlreadyRecording)
                    &&& final(self)@ == old(self)@
                }
                &&& old(self)@.state == SessionState::Idle && result is Ok ==> {
                    &&& final(self)@.state == SessionState::Recording
                    &&& final(self)@.history == old(self)@.history + seq![
                        BackendCall::Create,
                        BackendCall::Begin { request, began: true },
                    ]
                }
                &&& old(self)@.state == SessionState::Idle && result is Err ==> {
                    &&& result == Err::<(), StartError>(StartError::CaptureFailed)
                    &&& final(self)@.state == SessionState::Idle
                    &&& final(self)@.history == old(self)@.history + seq![
                        BackendCall::Create,
                        BackendCall::Begin { request, began: false },
                        BackendCall::Release,
                    ]
                }
            }),
            old(self)@.state == SessionState::Idle ==> (old(self).backend().fixed_answer() matches Some(
                answer,
            ) ==> (result is Ok) == answer),
            final(self).backend().fixed_answer() == old(self).backend().fixed_answer(),
    {
        if self.capture.is_some() {
            return Err(StartError::AlreadyRecording);
        }
        let params = CaptureParameters { window: window_title, width, height, bitrate, output_path };
        let mut handle = self.bridge.create();
        let began = self.bridge.begin(&mut handle, &params);
        if began {
            self.capture = Some(handle);
            assert(self.bridge.history() =~= old(self).bridge.history() + start_calls(params@, true));
            Ok(())
        } else {
            self.bridge.release(handle);
            assert(self.bridge.history() =~= old(self).bridge.history() + start_calls(params@, false));
            Err(StartError::CaptureFailed)
        }
    }

    /// Stops the recording, if there is one: capture is ended, which
    /// finalizes the output, and the handle is released. On an idle session
    /// nothing happens, and the backend is not touched. Stopping never fails.
    pub fn stop(&mut self)
        ensures
            final(self)@ == old(self)@.after_stop(),
            final(self)@.state == SessionState::Idle,
            old(self)@.state == SessionState::Idle ==> final(self)@ == old(self)@,
            old(self)@.state == SessionState::Recording ==> final(self)@.history == old(self)@.history
                + seq![BackendCall::End, BackendCall::Release],
            final(self).backend().fixed_answer() == old(self).backend().fixed_answer(),
    {
        if let Some(mut handle) = self.capture.take() {
            self.bridge.end(&mut handle);
            self.bridge.release(handle);
            assert(self.bridge.history() =~= old(self).bridge.history() + stop_calls());
        }
    }
}

} // verus!
