use vstd::prelude::*;
use crate::models::opt_text;
use crate::time::{UtcTime, utc_timestamp_valid};

pub mod codex;
pub mod cursor;

verus! {

#[verifier::external_type_specification]
#[verifier::external_body]
pub struct ExPathBuf(std::path::PathBuf);

/// A session file found while scanning an agent's data directory.
#[derive(Debug)]
pub struct SessionLocation {
    pub path: std::path::PathBuf,
    pub last_modified: UtcTime,
}

/// What a scan does with one entry of a directory.
#[derive(Clone, Copy, Debug, PartialEq, Eq, Structural)]
pub enum ScanStep {
    /// Pass over it.
    Skip,
    /// It is a directory to scan in turn.
    Descend,
    /// It is a session file.
    Collect,
}

/// The modification time recorded for a file: its seconds since the Unix
/// epoch read as an `i64` (wrapping as `as` does), or the epoch when the time
/// is unknown or chrono cannot represent it.
pub open spec fn modified_time(secs: Option<u64>) -> (i64, u32) {
    match secs {
        Some(s) => if utc_timestamp_valid(s as i64, 0) {
            (s as i64, 0u32)
        } else {
            (0i64, 0u32)
        },
        None => (0i64, 0u32),
    }
}

/// The modification time of a file whose age in whole seconds since the Unix
/// epoch is `secs` (`None` when the file system could not say).
pub fn last_modified_from_secs(secs: Option<u64>) -> (res: UtcTime)
    ensures
        res@ == modified_time(secs),
{
    match secs {
        Some(s) => match UtcTime::from_timestamp(s as i64, 0) {
            Some(t) => t,
            None => UtcTime::epoch(),
        },
        None => UtcTime::epoch(),
    }
}

/// The location of a session file at `path`.
pub fn session_location(path: std::path::PathBuf, modified_secs: Option<u64>) -> (res:
    SessionLocation)
    ensures
        res.path == path,
        res.last_modified@ == modified_time(modified_secs),
{
    SessionLocation { path, last_modified: last_modified_from_secs(modified_secs) }
}

/// The text that `Path::to_string_lossy` gives for a path: its characters,
/// with each run of bytes that is not UTF-8 replaced by U+FFFD.
pub uninterp spec fn path_lossy_text(path: std::path::PathBuf) -> Seq<char>;

/// `Path::to_string_lossy` on a path, as an owned `String`; its result is
/// named, not stated.
#[verifier::external_body]
fn path_text(path: &std::path::PathBuf) -> (res: String)
    ensures
        res@ == path_lossy_text(*path),
{
    path.to_string_lossy().to_string()
}

/// What `Path::file_stem` gives for the path written as `path` (under the
/// path rules of the platform the library is built for), as text.
pub uninterp spec fn file_stem_of_text(path: Seq<char>) -> Option<Seq<char>>;

/// `Path::file_stem` of the path written as `path`, as text; its result is
/// named, not stated.
#[verifier::external_body]
fn path_file_stem(path: &str) -> (res: Option<String>)
    ensures
        opt_text(res) == file_stem_of_text(path@),
{
    match std::path::Path::new(path).file_stem() {
        Some(s) => Some(s.to_string_lossy().to_string()),
        None => None,
    }
}

/// The id a session file gives its session: the stem of its name, or the
/// empty text when it has none.
pub open spec fn session_stem(path: Seq<char>) -> Seq<char> {
    match file_stem_of_text(path) {
        Some(s) => s,
        None => Seq::empty(),
    }
}

/// The stem of the file at the path written as `path`, or the empty text.
pub fn file_stem_text(path: &str) -> (res: String)
    ensures
        res@ == session_stem(path@),
{
    match path_file_stem(path) {
        Some(s) => s,
        None => String::new(),
    }
}

/// The names a session file at `path` is read under: the stem of its file
/// name (its session id) and the path's text (where it is stored), the stem
/// taken from that text.
pub fn session_file_names(path: &std::path::PathBuf) -> (res: (String, String))
    ensures
        res.1@ == path_lossy_text(*path),
        res.0@ == session_stem(res.1@),
{
    let text = path_text(path);
    let stem = file_stem_text(text.as_str());
    (stem, text)
}

/// Whether a file or directory name is hidden (starts with a dot).
pub open spec fn is_hidden(name: Seq<char>) -> bool {
    name.len() > 0 && name[0] == '.'
}

pub fn is_hidden_name(name: &str) -> (res: bool)
    ensures
        res == is_hidden(name@),
{
    let n = name.unicode_len();
    n > 0 && name.get_char(0) == '.'
}

} // verus!
