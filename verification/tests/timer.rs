use recorder_core::{elapsed_label, keep_recording, POLL_INTERVAL_MS};

fn reference(secs: i64) -> String {
    format!("{:02}:{:02}", secs / 60, secs % 60)
}

#[test]
fn elapsed_label_exact_values() {
    assert_eq!(elapsed_label(0), "00:00");
    assert_eq!(elapsed_label(5), "00:05");
    assert_eq!(elapsed_label(59), "00:59");
    assert_eq!(elapsed_label(60), "01:00");
    assert_eq!(elapsed_label(75), "01:15");
    assert_eq!(elapsed_label(599), "09:59");
    assert_eq!(elapsed_label(600), "10:00");
    assert_eq!(elapsed_label(3600), "60:00");
    assert_eq!(elapsed_label(5999), "99:59");
    assert_eq!(elapsed_label(6000), "100:00");
    assert_eq!(elapsed_label(360_000), "6000:00");
}

#[test]
fn elapsed_label_of_a_clock_set_back() {
    assert_eq!(elapsed_label(-1), "00:-1");
    assert_eq!(elapsed_label(-59), "00:-59");
    assert_eq!(elapsed_label(-60), "-1:00");
    assert_eq!(elapsed_label(-61), "-1:-1");
    assert_eq!(elapsed_label(-725), "-12:-5");
}

#[test]
fn elapsed_label_agrees_with_std_formatting() {
    let mut samples: Vec<i64> = vec![i64::MIN, i64::MIN + 1, i64::MAX, i64::MAX - 1];
    for secs in -7300..7300 {
        samples.push(secs);
    }
    let mut power: i64 = 1;
    for _ in 0..18 {
        power *= 10;
        samples.extend_from_slice(&[power - 1, power, power + 1, -power + 1, -power, -power - 1]);
    }
    for secs in samples {
        assert_eq!(elapsed_label(secs), reference(secs), "secs = {}", secs);
    }
}

#[test]
fn keep_recording_until_interrupted_or_out_of_time() {
    // no limit: only an interrupt ends it
    assert!(keep_recording(true, 0, 0));
    assert!(keep_recording(true, 0, u64::MAX));
    assert!(!keep_recording(false, 0, 0));
    // a limit of five seconds
    assert!(keep_recording(true, 5, 0));
    assert!(keep_recording(true, 5, 4));
    assert!(!keep_recording(true, 5, 5));
    assert!(!keep_recording(true, 5, 6));
    assert!(!keep_recording(false, 5, 0));
    // the widest limit
    assert!(keep_recording(true, u32::MAX, u32::MAX as u64 - 1));
    assert!(!keep_recording(true, u32::MAX, u32::MAX as u64));
    assert!(!keep_recording(true, u32::MAX, u64::MAX));
}

#[test]
fn poll_interval() {
    assert_eq!(POLL_INTERVAL_MS, 100);
}
