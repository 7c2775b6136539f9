use recorder_core::{AbsentBackend, CallHistory, CaptureBackend, CaptureParameters, RecorderApp};

/// A backend that answers `begin` as told and keeps what it was asked.
struct Stub {
    answer: bool,
    seen: Vec<String>,
}

impl CaptureBackend for Stub {
    type Handle = ();

    // Contracts alone read the record; nothing runs this.
    fn calls(&self) -> CallHistory {
        unreachable!()
    }

    fn create(&mut self) {
        self.seen.push("create".to_string());
    }

    fn begin(&mut self, _handle: &mut (), params: &CaptureParameters) -> bool {
        self.seen.push(format!(
            "begin {} {}x{} {} {}",
            params.window, params.width, params.height, params.bitrate, params.output_path
        ));
        self.answer
    }

    fn end(&mut self, _handle: &mut ()) {
        self.seen.push("end".to_string());
    }

    fn release(&mut self, _handle: ()) {
        self.seen.push("release".to_string());
    }
}

#[test]
fn new_window_shows_nothing() {
    let app: RecorderApp<Stub, u64> = RecorderApp::new(Stub { answer: true, seen: Vec::new() });
    assert!(!app.is_recording());
    assert_eq!(*app.started_at(), None);
    assert_eq!(*app.error_message(), None);
}

#[test]
fn record_button_starts_the_desktop_recording() {
    let mut app: RecorderApp<Stub, u64> = RecorderApp::new(Stub { answer: true, seen: Vec::new() });
    app.start_recording(|| 1000, "/tmp/a.mp4");
    assert!(app.is_recording());
    assert_eq!(*app.started_at(), Some(1000));
    assert_eq!(*app.error_message(), None);
}

#[test]
fn clock_is_read_only_once_the_recording_began() {
    let reads = std::cell::Cell::new(0);
    let mut app: RecorderApp<Stub, u64> = RecorderApp::new(Stub { answer: true, seen: Vec::new() });
    app.start_recording(
        || {
            reads.set(reads.get() + 1);
            41
        },
        "/tmp/a.mp4",
    );
    assert_eq!(reads.get(), 1);
    assert_eq!(*app.started_at(), Some(41));
    // rejected: already recording
    app.start_recording(
        || {
            reads.set(reads.get() + 1);
            42
        },
        "/tmp/b.mp4",
    );
    assert_eq!(reads.get(), 1);
    assert_eq!(*app.started_at(), Some(41));

    let mut absent: RecorderApp<AbsentBackend, u64> = RecorderApp::new(AbsentBackend::new());
    absent.start_recording(
        || {
            reads.set(reads.get() + 1);
            43
        },
        "/tmp/c.mp4",
    );
    assert_eq!(reads.get(), 1);
    assert_eq!(*absent.started_at(), None);
}

#[test]
fn failed_start_shows_why_and_keeps_the_timer_off() {
    let mut app: RecorderApp<AbsentBackend, u64> = RecorderApp::new(AbsentBackend::new());
    app.start_recording(|| 1000, "/tmp/a.mp4");
    assert!(!app.is_recording());
    assert_eq!(*app.started_at(), None);
    assert_eq!(
        *app.error_message(),
        Some("Failed to start recording: capture failed to start".to_string())
    );
}

#[test]
fn record_button_while_recording_shows_the_rejection() {
    let mut app: RecorderApp<Stub, u64> = RecorderApp::new(Stub { answer: true, seen: Vec::new() });
    app.start_recording(|| 1000, "/tmp/a.mp4");
    app.start_recording(|| 2000, "/tmp/b.mp4");
    assert!(app.is_recording());
    assert_eq!(*app.started_at(), Some(1000));
    assert_eq!(
        *app.error_message(),
        Some("Failed to start recording: already recording".to_string())
    );
}

#[test]
fn stop_button_clears_the_timer_and_keeps_the_error() {
    let mut app: RecorderApp<Stub, u64> = RecorderApp::new(Stub { answer: true, seen: Vec::new() });
    app.start_recording(|| 1000, "/tmp/a.mp4");
    app.start_recording(|| 2000, "/tmp/b.mp4");
    app.stop_recording();
    assert!(!app.is_recording());
    assert_eq!(*app.started_at(), None);
    assert!(app.error_message().is_some());
    app.stop_recording();
    assert!(!app.is_recording());
}

#[test]
fn successful_start_clears_the_error() {
    let mut app: RecorderApp<Stub, u64> = RecorderApp::new(Stub { answer: true, seen: Vec::new() });
    app.start_recording(|| 1, "/tmp/a.mp4");
    app.start_recording(|| 2, "/tmp/b.mp4");
    assert!(app.error_message().is_some());
    app.stop_recording();
    app.start_recording(|| 3, "/tmp/c.mp4");
    assert_eq!(*app.error_message(), None);
    assert_eq!(*app.started_at(), Some(3));
}

#[test]
fn dismiss_button_takes_the_error_away() {
    let mut app: RecorderApp<AbsentBackend, u64> = RecorderApp::new(AbsentBackend::new());
    app.start_recording(|| 5, "/tmp/a.mp4");
    assert!(app.error_message().is_some());
    app.dismiss_error();
    assert_eq!(*app.error_message(), None);
    assert!(!app.is_recording());
    assert_eq!(*app.started_at(), None);
}
