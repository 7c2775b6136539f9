//! Lifecycle management for a single screen-capture session.
//!
//! A [`Recorder`] owns at most one handle of a native capture backend, decides
//! whether a request to start or stop is honoured, and drives the backend
//! through create / begin / end / release so that no handle is leaked, created
//! twice or used after its release.
//!
//! - `backend`: what is asked of a backend, and the trait of its primitives
//!   with the record of their calls
//! - `bridge`: the one place where a session invokes the primitives
//! - `model`: the session as a state machine over mathematical values
//! - `session`: the recorder itself
//! - `laws`: what holds of every session
//! - `naming`, `recordings`, `timer`, `panel`: what the front ends decide and
//!   compute around a session

pub mod backend;
pub mod bridge;
pub mod laws;
pub mod model;
pub mod naming;
pub mod panel;
pub mod recordings;
pub mod session;
pub mod timer;

pub use backend::{
    AbsentBackend, AbsentHandle, BackendCall, CallHistory, CaptureBackend, CaptureParameters, CaptureRequest,
};
pub use bridge::CaptureBridge;
pub use model::{Command, HandleStage, SessionState, SessionView, StartError};
pub use naming::next_file_name as get_default_output_path;
pub use naming::{expand_home, next_file_name, recording_file_name, RECORDINGS_DIR, STAMP_FORMAT};
pub use panel::{PanelView, RecorderApp};
pub use recordings::{recordings_newest_first, FileFacts};
pub use session::Recorder;
pub use timer::{elapsed_label, keep_recording, POLL_INTERVAL_MS};
