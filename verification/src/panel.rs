//! The state behind the recorder's window: what its buttons do.

use vstd::prelude::*;
use vstd::string::*;
use crate::backend::{CaptureBackend, CaptureRequest};
use crate::model::{start_result, SessionState, SessionView, StartError};
use crate::session::Recorder;

verus! {

/// The window that the record button captures.
pub const PANEL_WINDOW: &'static str = "Desktop";

/// The frame width of a recording started from the window.
pub const PANEL_WIDTH: u32 = 1920;

/// The frame height of a recording started from the window.
pub const PANEL_HEIGHT: u32 = 1080;

/// The bitrate of a recording started from the window, in bits per second.
pub const PANEL_BITRATE: u32 = 6_000_000;

/// What the record button asks for when the file is to be `output_path`.
pub open spec fn panel_request(output_path: Seq<char>) -> CaptureRequest {
    CaptureRequest {
        window: PANEL_WINDOW@,
        width: PANEL_WIDTH,
        height: PANEL_HEIGHT,
        bitrate: PANEL_BITRATE,
        output_path,
    }
}

/// The text shown for a start that failed with `error`.
pub open spec fn failure_text(error: StartError) -> Seq<char> {
    "Failed to start recording: "@ + error.text()
}

/// The window's state as contracts see it. `T` is a moment of whatever clock
/// the window reads.
pub ghost struct PanelView<T> {
    /// The session behind the window.
    pub session: SessionView,
    /// When the running recording began; `None` while idle.
    pub started_at: Option<T>,
    /// The error on display, if any.
    pub error_message: Option<Seq<char>>,
}

impl<T> PanelView<T> {
    /// Whether a moment is kept exactly while the session records. It holds
    /// of a new window, and every button keeps it.
    pub open spec fn timed_while_recording(self) -> bool {
        self.started_at is Some <==> self.session.state == SessionState::Recording
    }

    /// The window after the record button was pressed for a file
    /// `output_path` and the recording began, where the clock, read once it
    /// had begun, gave `moment`: the recording is timed from `moment`, and
    /// the error on display is cleared.
    pub open spec fn after_started(self, output_path: Seq<char>, moment: T) -> PanelView<T> {
        PanelView {
            session: self.session.after_start(panel_request(output_path), true),
            started_at: Some(moment),
            error_message: None,
        }
    }

    /// The window after the record button was pressed for a file
    /// `output_path` and the start failed with `error`: the timer is left
    /// alone, and the window shows why.
    pub open spec fn after_start_failed(self, output_path: Seq<char>, error: StartError) -> PanelView<T> {
        PanelView {
            session: self.session.after_start(panel_request(output_path), false),
            started_at: self.started_at,
            error_message: Some(failure_text(error)),
        }
    }

    /// The window after the stop button was pressed: the session is stopped
    /// and the timer cleared; the error on display stays.
    pub open spec fn after_stop(self) -> PanelView<T> {
        PanelView { session: self.session.after_stop(), started_at: None, error_message: self.error_message }
    }

    /// The window after the dismiss button was pressed: the error is off the
    /// display.
    pub open spec fn after_dismiss(self) -> PanelView<T> {
        PanelView { session: self.session, started_at: self.started_at, error_message: None }
    }
}

/// The state behind the recorder's window: the session, the moment at which
/// the running recording began, and the error on display.
pub struct RecorderApp<B: CaptureBackend, T> {
    recorder: Recorder<B>,
    started_at: Option<T>,
    error_message: Option<String>,
}

impl<B: CaptureBackend, T> View for RecorderApp<B, T> {
    type V = PanelView<T>;

    closed spec fn view(&self) -> PanelView<T> {
        PanelView {
            session: self.recorder@,
            started_at: self.started_at,
            error_message: match self.error_message {
                Some(text) => Some(text@),
                None => None,
            },
        }
    }
}

impl<B: CaptureBackend, T> RecorderApp<B, T> {
    /// The backend behind the window's session.
    pub closed spec fn backend(&self) -> &B {
        self.recorder.backend()
    }

    /// A window over an idle session that records through `backend`, with
    /// nothing on display.
    pub fn new(backend: B) -> (app: Self)
        ensures
            app@.session == (SessionView { state: SessionState::Idle, history: backend.calls() }),
            app@.started_at is None,
            app@.error_message is None,
            app@.timed_while_recording(),
            *app.backend() == backend,
    {
        RecorderApp { recorder: Recorder::with_backend(backend), started_at: None, error_message: None }
    }

    /// Whether a recording is running: the window then shows the stop button
    /// and the timer, and is redrawn while nothing is pressed.
    pub fn is_recording(&self) -> (recording: bool)
        ensures
            recording == (self@.session.state == SessionState::Recording),
    {
        self.recorder.is_recording()
    }

    /// When the running recording began.
    pub fn started_at(&self) -> (moment: &Option<T>)
        ensures
            *moment == self@.started_at,
    {
        &self.started_at
    }

    /// The error on display.
    pub fn error_message(&self) -> (message: &Option<String>)
        ensures
            match *message {
                Some(text) => self@.error_message == Some(text@),
                None => self@.error_message is None,
            },
    {
        &self.error_message
    }

    /// The record button: starts a recording of the desktop into
    /// `output_path`. The clock `now` is read once the recording has begun,
    /// and the recording is timed from what it gives; the error on display is
    /// cleared. A start that failed leaves the clock unread and the timer
    /// alone, and shows why.
    pub fn start_recording<F: FnOnce() -> T>(&mut self, now: F, output_path: &str)
        requires
            now.requires(()),
        ensures
            match start_result(
                old(self)@.session.state,
                final(self)@.session.state == SessionState::Recording,
            ) {
                Ok(()) => {
                    &&& final(self)@.started_at matches Some(moment)
                    &&& now.ensures((), moment)
                    &&& final(self)@ == old(self)@.after_started(output_path@, moment)
                },
                Err(error) => final(self)@ == old(self)@.after_start_failed(output_path@, error),
            },
            old(self)@.session.state == SessionState::Idle ==> (old(self).backend().fixed_answer() matches Some(
                answer,
            ) ==> (final(self)@.session.state == SessionState::Recording) == answer),
            old(self)@.timed_while_recording() ==> final(self)@.timed_while_recording(),
            final(self).backend().fixed_answer() == old(self).backend().fixed_answer(),
    {
        match self.recorder.start(PANEL_WINDOW, PANEL_WIDTH, PANEL_HEIGHT, PANEL_BITRATE, output_path) {
            Ok(()) => {
                self.started_at = Some(now());
                self.error_message = None;
            },
            Err(error) => {
                let mut text = "Failed to start recording: ".to_owned();
                let words = error.message();
                text.append(words.as_str());
                self.error_message = Some(text);
            },
        }
    }

    /// The stop button: stops the recording, if one is running, and clears
    /// the timer. The error on display stays.
    pub fn stop_recording(&mut self)
        ensures
            final(self)@ == old(self)@.after_stop(),
            final(self)@.timed_while_recording(),
            final(self).backend().fixed_answer() == old(self).backend().fixed_answer(),
    {
        self.recorder.stop();
        self.started_at = None;
    }

    /// The dismiss button: takes the error off the display.
    pub fn dismiss_error(&mut self)
        ensures
            final(self)@ == old(self)@.after_dismiss(),
            old(self)@.timed_while_recording() ==> final(self)@.timed_while_recording(),
            final(self).backend() == old(self).backend(),
    {
        self.error_message = None;
    }
}

} // verus!
