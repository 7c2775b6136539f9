//! The session as a state machine over mathematical values.

use vstd::prelude::*;
use crate::backend::{BackendCall, CaptureRequest};

verus! {

/// Whether a session owns a native handle.
#[derive(Debug, Clone, Copy, PartialEq, Eq, Structural)]
pub enum SessionState {
    /// No handle is owned.
    Idle,
    /// Exactly one handle is owned and capture is believed active.
    Recording,
}

/// Why a request to start was not honoured.
#[derive(Debug, Clone, Copy, PartialEq, Eq, Structural)]
pub enum StartError {
    /// The session was recording already; the backend was not asked.
    AlreadyRecording,
    /// The backend was asked and reported that capture did not start.
    CaptureFailed,
}

impl StartError {
    /// The text that `message` gives.
    pub open spec fn text(self) -> Seq<char> {
        match self {
            StartError::AlreadyRecording => "already recording"@,
            StartError::CaptureFailed => "capture failed to start"@,
        }
    }

    /// The error in words, for a user to read.
    pub fn message(&self) -> (words: String)
        ensures
            words@ == self.text(),
    {
        match self {
            StartError::AlreadyRecording => "already recording".to_owned(),
            StartError::CaptureFailed => "capture failed to start".to_owned(),
        }
    }
}

/// A session as contracts see it: its state, and every primitive invoked on
/// its backend so far.
pub ghost struct SessionView {
    pub state: SessionState,
    pub history: Seq<BackendCall>,
}

/// The primitives that an honoured start invokes, given the backend's answer:
/// a handle is created and capture requested on it; where the backend
/// declines, the handle is released at once.
pub open spec fn start_calls(request: CaptureRequest, began: bool) -> Seq<BackendCall> {
    if began {
        seq![BackendCall::Create, BackendCall::Begin { request, began }]
    } else {
        seq![BackendCall::Create, BackendCall::Begin { request, began }, BackendCall::Release]
    }
}

/// The primitives that stopping a recording invokes.
pub open spec fn stop_calls() -> Seq<BackendCall> {
    seq![BackendCall::End, BackendCall::Release]
}

/// What a start returns from `state` when the backend, if asked, answers
/// `began`.
pub open spec fn start_result(state: SessionState, began: bool) -> Result<(), StartError> {
    match state {
        SessionState::Recording => Err(StartError::AlreadyRecording),
        SessionState::Idle => if began {
            Ok(())
        } else {
            Err(StartError::CaptureFailed)
        },
    }
}

/// A call on a session.
pub ghost enum Command {
    /// A start of `request`; `began` is what the backend answers if the
    /// session asks it.
    Start { request: CaptureRequest, began: bool },
    /// A stop.
    Stop,
}

impl SessionView {
    /// A session on which nothing happened yet.
    pub open spec fn fresh() -> SessionView {
        SessionView { state: SessionState::Idle, history: Seq::empty() }
    }

    /// The session after a start of `request` to which the backend, if asked,
    /// answers `began`. While recording the request is rejected and nothing
    /// changes.
    pub open spec fn after_start(self, request: CaptureRequest, began: bool) -> SessionView {
        match self.state {
            SessionState::Recording => self,
            SessionState::Idle => SessionView {
                state: if began {
                    SessionState::Recording
                } else {
                    SessionState::Idle
                },
                history: self.history + start_calls(request, began),
            },
        }
    }

    /// The session after a stop. While idle nothing changes.
    pub open spec fn after_stop(self) -> SessionView {
        match self.state {
            SessionState::Idle => self,
            SessionState::Recording => SessionView {
                state: SessionState::Idle,
                history: self.history + stop_calls(),
            },
        }
    }

    /// The session after `command`.
    pub open spec fn after(self, command: Command) -> SessionView {
        match command {
            Command::Start { request, began } => self.after_start(request, began),
            Command::Stop => self.after_stop(),
        }
    }

    /// The session after `commands`, in their order.
    pub open spec fn after_all(self, commands: Seq<Command>) -> SessionView
        decreases commands.len(),
    {
        if commands.len() == 0 {
            self
        } else {
            self.after_all(commands.drop_last()).after(commands.last())
        }
    }

    /// Whether `command` is a start that this session honours: one that
    /// returns `Ok`.
    pub open spec fn honours(self, command: Command) -> bool {
        match command {
            Command::Start { request, began } => start_result(self.state, began) is Ok,
            Command::Stop => false,
        }
    }
}

/// Whether the call at `index` of `commands`, made on a session that was `pre`
/// before the first of them, is a start that returns `Ok`.
pub open spec fn honoured_at(pre: SessionView, commands: Seq<Command>, index: int) -> bool {
    pre.after_all(commands.take(index)).honours(commands[index])
}

/// Whether no stop follows the call at `index` of `commands`.
pub open spec fn no_stop_after(commands: Seq<Command>, index: int) -> bool {
    forall|later: int| index < later < commands.len() ==> !(#[trigger] commands[later] is Stop)
}

/// Where a native handle stands in its life.
pub ghost enum HandleStage {
    /// There is no handle.
    Absent,
    /// The handle was created and nothing was asked of it.
    Created,
    /// Capture began on the handle.
    Capturing,
    /// The backend declined to begin capture on the handle.
    Declined,
    /// Capture was ended on the handle.
    Ended,
}

/// The stage after `call` at `stage`, or `None` where the call is out of
/// order. A handle is created only when there is none; capture is requested
/// once, on a handle just created; it is ended once, and only where it began;
/// and a handle is released only after capture was declined or ended.
pub open spec fn stage_after_call(stage: HandleStage, call: BackendCall) -> Option<HandleStage> {
    match (stage, call) {
        (HandleStage::Absent, BackendCall::Create) => Some(HandleStage::Created),
        (HandleStage::Created, BackendCall::Begin { request, began }) => Some(
            if began {
                HandleStage::Capturing
            } else {
                HandleStage::Declined
            },
        ),
        (HandleStage::Capturing, BackendCall::End) => Some(HandleStage::Ended),
        (HandleStage::Declined, BackendCall::Release) => Some(HandleStage::Absent),
        (HandleStage::Ended, BackendCall::Release) => Some(HandleStage::Absent),
        _ => None,
    }
}

/// The stage that `history` leads to from no handle at all, or `None` where
/// some call in it is out of order.
pub open spec fn stage_after(history: Seq<BackendCall>) -> Option<HandleStage>
    decreases history.len(),
{
    if history.len() == 0 {
        Some(HandleStage::Absent)
    } else {
        match stage_after(history.drop_last()) {
            Some(stage) => stage_after_call(stage, history.last()),
            None => None,
        }
    }
}

/// The stage of the handle that a session in `state` owns.
pub open spec fn owned_stage(state: SessionState) -> HandleStage {
    match state {
        SessionState::Idle => HandleStage::Absent,
        SessionState::Recording => HandleStage::Capturing,
    }
}

impl SessionView {
    /// Whether the history is in order and ends where the state says: with no
    /// handle while idle, with one capturing handle while recording.
    pub open spec fn orderly(self) -> bool {
        stage_after(self.history) == Some(owned_stage(self.state))
    }
}

} // verus!
