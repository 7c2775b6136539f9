//! Where recordings go: the recordings directory and the names of new files.

use vstd::prelude::*;
use vstd::string::*;

verus! {

/// The directory that recordings are written to, with the home directory
/// still written as a tilde.
pub const RECORDINGS_DIR: &'static str = "~/Movies/TFT Recorder";

/// The pattern of the time stamp in a recording's name: year, month and day,
/// then hours, minutes and seconds of the local time.
pub const STAMP_FORMAT: &'static str = "%Y-%m-%d-%H%M%S";

/// Whether `path` begins with a tilde that may stand for the home directory:
/// a tilde alone, or one followed by a path separator.
pub open spec fn may_name_home(path: Seq<char>) -> bool {
    &&& path.len() > 0
    &&& path[0] == '~'
    &&& (path.len() == 1 || path[1] == '/' || path[1] == '\\')
}

/// Whether `expanded` can be what tilde expansion makes of `path`. A path
/// that does not name the home directory is left as it is; in one that does,
/// the tilde gives way to some text, or stays where no home directory is
/// known.
pub open spec fn is_tilde_expansion(path: Seq<char>, expanded: Seq<char>) -> bool {
    if may_name_home(path) {
        path.skip(1).is_suffix_of(expanded)
    } else {
        expanded == path
    }
}

/// The name of the recording made at `stamp` in `dir`.
pub open spec fn recording_path(dir: Seq<char>, stamp: Seq<char>) -> Seq<char> {
    dir + "/TFT-"@ + stamp + ".mp4"@
}

/// Calls `shellexpand::tilde`. The claim: a path that does not begin with a
/// tilde, or whose tilde is followed by anything but a path separator, comes
/// back unchanged; otherwise what followed the tilde comes back behind a
/// prefix, which is the home directory where the machine knows one and the
/// tilde itself where it does not.
#[verifier::external_body]
fn tilde_expanded(path: &str) -> (expanded: String)
    ensures
        is_tilde_expansion(path@, expanded@),
{
    shellexpand::tilde(path).into_owned()
}

/// Calls `chrono::Local::now` and renders the moment with
/// `chrono::DateTime::format`. The pattern is held to the one this library
/// uses, so that every item of it is known to chrono and the rendering cannot
/// fail. The text depends on the clock and the time zone of the machine:
/// nothing is claimed of it.
#[verifier::external_body]
fn local_time_stamp(format: &str) -> (stamp: String)
    requires
        format@ == STAMP_FORMAT@,
{
    chrono::Local::now().format(format).to_string()
}

/// `path` with a leading tilde replaced by the home directory.
pub fn expand_home(path: &str) -> (expanded: String)
    ensures
        is_tilde_expansion(path@, expanded@),
{
    tilde_expanded(path)
}

/// The name of the recording made at `stamp` in `dir`: the directory, a
/// slash, `TFT-`, the stamp and the extension `.mp4`.
pub fn recording_file_name(dir: &str, stamp: &str) -> (name: String)
    ensures
        name@ == recording_path(dir@, stamp@),
{
    let mut name = dir.to_owned();
    name.append("/TFT-");
    name.append(stamp);
    name.append(".mp4");
    name
}

/// The name for a recording that starts now: in the recordings directory,
/// stamped with the local time.
pub fn next_file_name() -> (name: String)
    ensures
        exists|dir: Seq<char>, stamp: Seq<char>|
            is_tilde_expansion(RECORDINGS_DIR@, dir) && name@ == #[trigger] recording_path(dir, stamp),
{
    let stamp = local_time_stamp(STAMP_FORMAT);
    let dir = expand_home(RECORDINGS_DIR);
    recording_file_name(dir.as_str(), stamp.as_str())
}

} // verus!
