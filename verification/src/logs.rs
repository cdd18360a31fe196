//! Locating the log file and classifying its lines.
//!
//! The driver lists the log directory and hands the entries here as plain
//! name/timestamp pairs; this module decides which file to tail and what
//! each appended line becomes: a tagged message, or nothing.

use vstd::prelude::*;

use crate::text::{
    ends_with, first_match_at, has_sub, match_at, trimmed, lemma_first_match_unique, str_ends_with,
    str_find, str_has, trim_str,
};

verus! {

/// How long the tail loop sleeps when no new data is available, in
/// milliseconds.
pub const POLL_INTERVAL_MS: u64 = 500;

/// A directory entry as the driver reports it: the file's name and its
/// modification time, as a monotone timestamp in driver-chosen units.
pub struct LogCandidate {
    pub name: String,
    pub modified: u64,
}

/// A file the tailer considers: its name contains the player marker and
/// carries the log extension.
pub open spec fn is_player_log(name: Seq<char>) -> bool {
    has_sub(name, "Player"@) && ends_with(name, ".log"@)
}

/// Tests whether a file name is a candidate log.
pub fn is_player_log_name(name: &str) -> (b: bool)
    ensures
        b == is_player_log(name@),
{
    let has_player = str_has(name, "Player");
    let is_log = str_ends_with(name, ".log");
    has_player && is_log
}

/// `i` points at the entry the tailer attaches to: a candidate whose
/// timestamp no candidate exceeds, and that no later candidate ties with —
/// among equally fresh candidates the last one listed wins.
pub open spec fn newest_candidate(entries: Seq<LogCandidate>, i: int) -> bool {
    &&& 0 <= i < entries.len()
    &&& is_player_log(entries[i].name@)
    &&& forall|j: int|
        0 <= j < entries.len() && is_player_log(entries[j].name@) ==> entries[j].modified
            <= entries[i].modified
    &&& forall|j: int|
        i < j < entries.len() && is_player_log(entries[j].name@) ==> entries[j].modified
            < entries[i].modified
}

/// Selects the entry to tail: the most recently modified candidate, ties
/// going to the entry listed later; `None` when no entry is a candidate.
pub fn select_newest_log(entries: &Vec<LogCandidate>) -> (r: Option<usize>)
    ensures
        r is None <==> (forall|i: int|
            0 <= i < entries@.len() ==> !is_player_log(entries@[i].name@)),
        r matches Some(i) ==> newest_candidate(entries@, i as int),
{
    let mut best: Option<usize> = None;
    let n = entries.len();
    let mut k: usize = 0;
    while k < n
        invariant
            n == entries@.len(),
            k <= n,
            best is None <==> (forall|i: int| 0 <= i < k ==> !is_player_log(entries@[i].name@)),
            best matches Some(b) ==> (b < k && is_player_log(entries@[b as int].name@) && (forall|
                j: int,
            |
                0 <= j < k && is_player_log(entries@[j].name@) ==> entries@[j].modified
                    <= entries@[b as int].modified) && (forall|j: int|
                b < j < k && is_player_log(entries@[j].name@) ==> entries@[j].modified
                    < entries@[b as int].modified)),
        decreases n - k,
    {
        if is_player_log_name(entries[k].name.as_str()) {
            match best {
                None => {
                    best = Some(k);
                },
                Some(b) => {
                    if entries[b].modified <= entries[k].modified {
                        best = Some(k);
                    }
                },
            }
        }
        k += 1;
    }
    best
}

/// The fixed log directory under the home directory.
pub fn log_dir_path(home: &str) -> (p: String)
    ensures
        p@ == home@ + "/Library/Logs/Roblox"@,
{
    let mut p = String::from_str(home);
    p.append("/Library/Logs/Roblox");
    p
}

/// What the driver observed while resolving the log directory.
pub enum LogDirListing {
    /// No home directory could be resolved.
    NoHome,
    /// The log directory at `path` does not exist.
    MissingDir { path: String },
    /// The log directory could not be listed.
    Unreadable { error: String },
    /// The directory's entries, in listing order.
    Listed { entries: Vec<LogCandidate> },
}

/// Decides the locate phase from the driver's observation: each failure
/// becomes its error message; a listing yields the name of the newest
/// candidate log, or the no-logs error when nothing matches.
pub fn locate_log(listing: LogDirListing) -> (r: Result<String, String>)
    ensures
        listing is NoHome ==> (r matches Err(e) && e@ == "Could not get home directory"@),
        listing matches LogDirListing::MissingDir { path } ==> (r matches Err(e) && e@
            == "Roblox log directory not found at "@ + path@),
        listing matches LogDirListing::Unreadable { error } ==> (r matches Err(e) && e@
            == "Could not read Roblox log directory: "@ + error@),
        listing matches LogDirListing::Listed { entries } ==> ((forall|i: int|
            0 <= i < entries@.len() ==> !is_player_log(entries@[i].name@)) ==> (r matches Err(e)
            && e@ == "No Roblox Player logs found."@)),
        listing matches LogDirListing::Listed { entries } ==> ((exists|i: int|
            0 <= i < entries@.len() && is_player_log(entries@[i].name@)) ==> (r matches Ok(name)
            && exists|i: int| newest_candidate(entries@, i) && name@ == entries@[i].name@)),
{
    match listing {
        LogDirListing::NoHome => Err(String::from_str("Could not get home directory")),
        LogDirListing::MissingDir { path } => {
            let mut e = String::from_str("Roblox log directory not found at ");
            e.append(path.as_str());
            Err(e)
        },
        LogDirListing::Unreadable { error } => {
            let mut e = String::from_str("Could not read Roblox log directory: ");
            e.append(error.as_str());
            Err(e)
        },
        LogDirListing::Listed { entries } => {
            match select_newest_log(&entries) {
                Some(i) => Ok(entries[i].name.clone()),
                None => Err(String::from_str("No Roblox Player logs found.")),
            }
        },
    }
}

/// The confirmation the start operation returns once the tail loop is
/// spawned.
pub fn monitor_started_message() -> (m: String)
    ensures
        m@ == "Started monitoring Roblox logs at"@,
{
    String::from_str("Started monitoring Roblox logs at")
}

/// The event reporting that the selected log file could not be opened.
pub fn open_error_message(cause: &str) -> (m: String)
    ensures
        m@ == "Could not open log file: "@ + cause@,
{
    let mut m = String::from_str("Could not open log file: ");
    m.append(cause);
    m
}

/// The event reporting that seeking to the end of the file failed.
pub fn seek_error_message(cause: &str) -> (m: String)
    ensures
        m@ == "Error seeking log file: "@ + cause@,
{
    let mut m = String::from_str("Error seeking log file: ");
    m.append(cause);
    m
}

/// The event reporting that the tailer attached to `path`.
pub fn attach_success_message(path: &str) -> (m: String)
    ensures
        m@ == "Successfully connected to log file: "@ + path@,
{
    let mut m = String::from_str("Successfully connected to log file: ");
    m.append(path);
    m
}

/// The diagnostic emitted when reading the log file fails.
pub open spec fn read_error_model(cause: Seq<char>) -> Seq<char> {
    "Error reading log file: "@ + cause
}

/// Builds the read-failure diagnostic.
pub fn read_error_message(cause: &str) -> (m: String)
    ensures
        m@ == read_error_model(cause@),
{
    let mut m = String::from_str("Error reading log file: ");
    m.append(cause);
    m
}

/// The marker of an error line.
pub open spec fn error_marker() -> Seq<char> {
    "FLog::Error"@
}

/// The marker of a warning line.
pub open spec fn warning_marker() -> Seq<char> {
    "FLog::Warning"@
}

/// The marker of an informational line.
pub open spec fn output_marker() -> Seq<char> {
    "FLog::Output"@
}

/// The separator after which a line's message payload begins.
pub open spec fn message_separator() -> Seq<char> {
    "] "@
}

/// The line carries at least one recognized severity marker.
pub open spec fn has_marker(line: Seq<char>) -> bool {
    has_sub(line, error_marker()) || has_sub(line, warning_marker()) || has_sub(
        line,
        output_marker(),
    )
}

/// The tag a marked line is re-tagged with, checked in the fixed priority
/// order: error before warning before output.
pub open spec fn severity_prefix(line: Seq<char>) -> Seq<char>
    recommends
        has_marker(line),
{
    if has_sub(line, error_marker()) {
        "error "@
    } else if has_sub(line, warning_marker()) {
        "warning "@
    } else {
        "info "@
    }
}

/// The position of the first message separator in the line.
pub open spec fn sep_index(line: Seq<char>) -> int
    recommends
        has_sub(line, message_separator()),
{
    choose|i: int| first_match_at(line, message_separator(), i)
}

/// What a marked line is emitted as: the payload after the first separator,
/// tagged with the severity; a line without the separator passes through
/// verbatim.
pub open spec fn tagged_line(line: Seq<char>) -> Seq<char>
    recommends
        has_marker(line),
{
    if has_sub(line, message_separator()) {
        severity_prefix(line) + line.skip(sep_index(line) + 2)
    } else {
        line
    }
}

/// How one raw line read from the log is classified: trimmed of whitespace,
/// dropped when empty or unmarked, otherwise re-tagged.
pub open spec fn classify_model(raw: Seq<char>) -> Option<Seq<char>> {
    let line = trimmed(raw);
    if line.len() > 0 && has_marker(line) {
        Some(tagged_line(line))
    } else {
        None
    }
}

/// Classifies one line: `None` for a line that is blank after trimming or
/// carries no recognized marker, otherwise the re-tagged message.
pub fn classify_line(raw: &str) -> (r: Option<String>)
    ensures
        r is Some <==> classify_model(raw@) is Some,
        r matches Some(out) ==> out@ == classify_model(raw@)->Some_0,
{
    let line = trim_str(raw);
    let n = line.unicode_len();
    if n == 0 {
        return None;
    }
    let is_err = str_has(line, "FLog::Error");
    let is_warn = str_has(line, "FLog::Warning");
    let is_out = str_has(line, "FLog::Output");
    if !is_err && !is_warn && !is_out {
        return None;
    }
    match str_find(line, "] ") {
        Some(i) => {
            let prefix: &'static str = if is_err {
                "error "
            } else if is_warn {
                "warning "
            } else {
                "info "
            };
            let mut out = String::from_str(prefix);
            proof {
                reveal_strlit("] ");
                assert(i + 2 <= n);
            }
            let msg = line.substring_char(i + 2, n);
            out.append(msg);
            proof {
                assert(first_match_at(line@, message_separator(), i as int));
                lemma_first_match_unique(
                    line@,
                    message_separator(),
                    i as int,
                    sep_index(line@),
                );
                assert(out@ == tagged_line(line@));
            }
            Some(out)
        },
        None => Some(String::from_str(line)),
    }
}

/// Error outranks warning: a line carrying the error marker is classified,
/// and when its payload is re-tagged the tag is `error`, whatever other
/// markers the line carries.
pub proof fn lemma_error_priority(raw: Seq<char>)
    requires
        has_sub(trimmed(raw), error_marker()),
    ensures
        classify_model(raw) is Some,
        has_sub(trimmed(raw), message_separator()) ==> match_at(
            classify_model(raw)->Some_0,
            "error "@,
            0,
        ),
{
    let line = trimmed(raw);
    let at = choose|i: int| match_at(line, error_marker(), i);
    reveal_strlit("FLog::Error");
    assert(line.len() >= at + error_marker().len());
    if has_sub(line, message_separator()) {
        let res = tagged_line(line);
        reveal_strlit("error ");
        assert(res.subrange(0, 6) =~= "error "@);
        assert(match_at(res, "error "@, 0));
    }
}

/// Warning outranks output: a line carrying the warning marker but not the
/// error marker is classified, and a re-tagged payload gets the tag
/// `warning`.
pub proof fn lemma_warning_priority(raw: Seq<char>)
    requires
        has_sub(trimmed(raw), warning_marker()),
        !has_sub(trimmed(raw), error_marker()),
    ensures
        classify_model(raw) is Some,
        has_sub(trimmed(raw), message_separator()) ==> match_at(
            classify_model(raw)->Some_0,
            "warning "@,
            0,
        ),
{
    let line = trimmed(raw);
    let at = choose|i: int| match_at(line, warning_marker(), i);
    reveal_strlit("FLog::Warning");
    assert(line.len() >= at + warning_marker().len());
    if has_sub(line, message_separator()) {
        let res = tagged_line(line);
        reveal_strlit("warning ");
        assert(res.subrange(0, 8) =~= "warning "@);
        assert(match_at(res, "warning "@, 0));
    }
}

} // verus!
