use recorder_core::{recordings_newest_first, FileFacts};
use recorder_core::recordings::{has_recording_extension, is_newer};

fn file(extension: Option<&str>, modified: Option<i128>) -> FileFacts {
    FileFacts { extension: extension.map(|text| text.to_string()), modified }
}

/// What a stable sort by time, newest first, makes of the recordings.
fn reference(found: &[FileFacts]) -> Vec<usize> {
    let mut order: Vec<usize> =
        (0..found.len()).filter(|&i| found[i].extension.as_deref() == Some("mp4")).collect();
    order.sort_by(|&a, &b| found[b].modified.cmp(&found[a].modified));
    order
}

#[test]
fn empty_directory_lists_nothing() {
    assert_eq!(recordings_newest_first(&Vec::new()), Vec::<usize>::new());
}

#[test]
fn only_mp4_files_are_listed() {
    let found = vec![
        file(Some("txt"), Some(50)),
        file(Some("mp4"), Some(10)),
        file(None, Some(40)),
        file(Some("MP4"), Some(30)),
        file(Some("mp4 "), Some(30)),
        file(Some(""), Some(30)),
        file(Some("mp4"), Some(20)),
    ];
    assert_eq!(recordings_newest_first(&found), vec![6, 1]);
}

#[test]
fn newest_comes_first() {
    let found = vec![
        file(Some("mp4"), Some(100)),
        file(Some("mp4"), Some(300)),
        file(Some("mp4"), Some(-5)),
        file(Some("mp4"), Some(200)),
    ];
    assert_eq!(recordings_newest_first(&found), vec![1, 3, 0, 2]);
}

#[test]
fn files_of_one_time_keep_the_order_in_which_they_were_found() {
    let found = vec![
        file(Some("mp4"), Some(7)),
        file(Some("mp4"), Some(9)),
        file(Some("mp4"), Some(7)),
        file(Some("mp4"), Some(9)),
        file(Some("mp4"), Some(7)),
    ];
    assert_eq!(recordings_newest_first(&found), vec![1, 3, 0, 2, 4]);
}

#[test]
fn unknown_times_come_last() {
    let found = vec![
        file(Some("mp4"), None),
        file(Some("mp4"), Some(i128::MIN)),
        file(Some("mp4"), None),
        file(Some("mp4"), Some(i128::MAX)),
    ];
    assert_eq!(recordings_newest_first(&found), vec![3, 1, 0, 2]);
}

#[test]
fn listing_agrees_with_a_stable_sort() {
    // a small generator of directories, without any outside crate
    let mut state: u64 = 0x2545_f491_4f6c_dd1d;
    let mut draw = |bound: u64| -> u64 {
        state ^= state << 13;
        state ^= state >> 7;
        state ^= state << 17;
        state % bound
    };
    for _ in 0..300 {
        let len = draw(12) as usize;
        let mut found = Vec::new();
        for _ in 0..len {
            let extension = match draw(4) {
                0 => None,
                1 => Some("mov"),
                _ => Some("mp4"),
            };
            let modified = match draw(5) {
                0 => None,
                _ => Some(draw(6) as i128 - 2),
            };
            found.push(file(extension, modified));
        }
        assert_eq!(recordings_newest_first(&found), reference(&found));
    }
}

#[test]
fn extension_and_age() {
    assert!(has_recording_extension(&file(Some("mp4"), None)));
    assert!(!has_recording_extension(&file(Some("mp"), None)));
    assert!(!has_recording_extension(&file(None, Some(1))));
    assert!(is_newer(Some(2), Some(1)));
    assert!(!is_newer(Some(1), Some(1)));
    assert!(!is_newer(Some(1), Some(2)));
    assert!(is_newer(Some(i128::MIN), None));
    assert!(!is_newer(None, Some(i128::MIN)));
    assert!(!is_newer(None, None));
}
