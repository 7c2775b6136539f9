//! The list of earlier recordings: which files of a directory are recordings,
//! and the order in which they are shown.

use vstd::prelude::*;

verus! {

/// What is known of one file of the recordings directory.
#[derive(Debug)]
pub struct FileFacts {
    /// The extension of the file's name, without the dot, where it has one.
    pub extension: Option<String>,
    /// When the file was last modified, in nanoseconds since the Unix epoch,
    /// where that could be read.
    pub modified: Option<i128>,
}

/// Whether a file is a recording: its extension is `mp4`.
pub open spec fn is_recording_file(file: FileFacts) -> bool {
    file.extension matches Some(extension) && extension@ == "mp4"@
}

/// Whether a file modified at `a` is newer than one modified at `b`. A file
/// whose time is unknown is older than every file whose time is known.
pub open spec fn newer(a: Option<i128>, b: Option<i128>) -> bool {
    match (a, b) {
        (Some(a), Some(b)) => a > b,
        (Some(_), None) => true,
        _ => false,
    }
}

/// Whether file `i` of `found` is shown before file `j`: the newer file comes
/// first, and of two files of one time the one that was found first.
pub open spec fn shown_before(found: Seq<FileFacts>, i: int, j: int) -> bool {
    ||| newer(found[i].modified, found[j].modified)
    ||| (found[i].modified == found[j].modified && i < j)
}

/// How many of the first `upto` files of `found` are recordings.
pub open spec fn recordings_among(found: Seq<FileFacts>, upto: int) -> nat
    decreases upto,
{
    if upto <= 0 {
        0
    } else if is_recording_file(found[upto - 1]) {
        recordings_among(found, upto - 1) + 1
    } else {
        recordings_among(found, upto - 1)
    }
}

/// Whether `order` lists the recordings among the first `upto` files of
/// `found`: there is one entry for each of them, every entry is the index of
/// a recording, every recording is there, and the entries stand in the order
/// in which they are shown.
pub open spec fn lists_recordings(found: Seq<FileFacts>, upto: int, order: Seq<usize>) -> bool {
    &&& order.len() == recordings_among(found, upto)
    &&& forall|k: int|
        0 <= k < order.len() ==> (#[trigger] order[k]) < upto && is_recording_file(
            found[order[k] as int],
        )
    &&& forall|i: int|
        0 <= i < upto && is_recording_file(#[trigger] found[i]) ==> order.contains(i as usize)
    &&& forall|k: int, l: int|
        0 <= k < l < order.len() ==> shown_before(
            found,
            #[trigger] order[k] as int,
            #[trigger] order[l] as int,
        )
}

/// Whether `file` is a recording.
pub fn has_recording_extension(file: &FileFacts) -> (yes: bool)
    ensures
        yes == is_recording_file(*file),
{
    match &file.extension {
        Some(extension) => {
            let wanted = "mp4".to_owned();
            *extension == wanted
        },
        None => false,
    }
}

/// Whether a file modified at `a` is newer than one modified at `b`.
pub fn is_newer(a: Option<i128>, b: Option<i128>) -> (yes: bool)
    ensures
        yes == newer(a, b),
{
    match a {
        Some(a) => match b {
            Some(b) => a > b,
            None => true,
        },
        None => false,
    }
}

/// Being shown before is transitive.
proof fn lemma_shown_before_is_transitive(found: Seq<FileFacts>, i: int, j: int, k: int)
    requires
        shown_before(found, i, j),
        shown_before(found, j, k),
    ensures
        shown_before(found, i, k),
{
}

/// The recordings among `found`, as indices into `found`, in the order in
/// which they are shown: newest first, and files of one time in the order in
/// which they were found.
pub fn recordings_newest_first(found: &Vec<FileFacts>) -> (order: Vec<usize>)
    ensures
        lists_recordings(found@, found@.len() as int, order@),
{
    let mut order: Vec<usize> = Vec::new();
    let mut next: usize = 0;
    while next < found.len()
        invariant
            next <= found.len(),
            lists_recordings(found@, next as int, order@),
        decreases found.len() - next,
    {
        if has_recording_extension(&found[next]) {
            let mut place: usize = 0;
            while place < order.len() && !is_newer(found[next].modified, found[order[place]].modified)
                invariant
                    next < found.len(),
                    place <= order.len(),
                    lists_recordings(found@, next as int, order@),
                    forall|k: int|
                        0 <= k < place ==> shown_before(found@, #[trigger] order[k] as int, next as int),
                decreases order.len() - place,
            {
                place += 1;
            }
            let ghost before = order@;
            order.insert(place, next);
            proof {
                let after = order@;
                assert(after.len() == before.len() + 1);
                assert(after[place as int] == next);
                assert forall|k: int| 0 <= k < after.len() && k != place implies #[trigger] after[k]
                    == before[if k < place { k } else { k - 1 }] by {}
                assert forall|k: int| place <= k < before.len() implies shown_before(
                    found@,
                    next as int,
                    #[trigger] before[k] as int,
                ) by {
                    if k > place {
                        lemma_shown_before_is_transitive(
                            found@,
                            next as int,
                            before[place as int] as int,
                            before[k] as int,
                        );
                    }
                }
                assert forall|i: int|
                    0 <= i < next + 1 && is_recording_file(#[trigger] found@[i]) implies after.contains(
                    i as usize,
                ) by {
                    if i == next {
                        assert(after[place as int] == i as usize);
                    } else {
                        assert(before.contains(i as usize));
                        let k = choose|k: int| 0 <= k < before.len() && before[k] == i as usize;
                        assert(after[if k < place { k } else { k + 1 }] == i as usize);
                    }
                }
                assert forall|k: int, l: int| 0 <= k < l < after.len() implies shown_before(
                    found@,
                    #[trigger] after[k] as int,
                    #[trigger] after[l] as int,
                ) by {
                    if k != place && l != place {
                        assert(shown_before(
                            found@,
                            before[if k < place { k } else { k - 1 }] as int,
                            before[if l < place { l } else { l - 1 }] as int,
                        ));
                    }
                }
            }
        } else {
            assert forall|i: int|
                0 <= i < next + 1 && is_recording_file(#[trigger] found@[i]) implies order@.contains(
                i as usize,
            ) by {}
        }
        next += 1;
    }
    order
}

} // verus!
