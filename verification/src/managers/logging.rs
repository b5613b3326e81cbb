//! The settings of the log: where it is written, how much of it, and which
//! old files make room.

use crate::text::{ends_with, has_prefix, has_suffix, lower, lower_chars, starts_with, to_chars};
use crate::utils::host::home_dir;
use crate::utils::paths::{join, join_spec};
use vstd::prelude::*;

verus! {

/// How much is logged.
#[derive(Debug, Clone, Copy, PartialEq, Eq, Structural)]
pub enum LogLevel {
    Trace,
    Debug,
    Info,
    Warn,
    Error,
}

/// The settings of the log.
#[derive(Debug)]
pub struct LoggingConfig {
    /// The directory of the log files.
    pub log_directory: String,
    /// How much is written to the files.
    pub log_level: LogLevel,
    /// The number of log files that are kept.
    pub max_files: u32,
    /// The size of a log file in MB.
    pub max_size_mb: u64,
}

/// The level that a word names, whatever the case of its letters: `trace`,
/// `debug`, `info`, `warn` or `warning`, `error`. Any other word names the
/// level `Info`.
pub open spec fn level_spec(word: Seq<char>) -> LogLevel {
    let w = lower(word);
    if w == "trace"@ {
        LogLevel::Trace
    } else if w == "debug"@ {
        LogLevel::Debug
    } else if w == "info"@ {
        LogLevel::Info
    } else if w == "warn"@ || w == "warning"@ {
        LogLevel::Warn
    } else if w == "error"@ {
        LogLevel::Error
    } else {
        LogLevel::Info
    }
}

/// Whether `v` holds the characters of `word`.
fn is_word(v: &Vec<char>, word: &str) -> (r: bool)
    ensures
        r == (v@ == word@),
{
    let w = to_chars(word);
    if v.len() != w.len() {
        return false;
    }
    let r = crate::text::matches_at(v, &w, 0);
    proof {
        assert(v@.subrange(0, v@.len() as int) =~= v@);
    }
    r
}

/// The level that a word names.
pub fn parse_level(word: &str) -> (r: LogLevel)
    ensures
        r == level_spec(word@),
{
    let w = lower_chars(word);
    if is_word(&w, "trace") {
        LogLevel::Trace
    } else if is_word(&w, "debug") {
        LogLevel::Debug
    } else if is_word(&w, "info") {
        LogLevel::Info
    } else if is_word(&w, "warn") || is_word(&w, "warning") {
        LogLevel::Warn
    } else if is_word(&w, "error") {
        LogLevel::Error
    } else {
        LogLevel::Info
    }
}

/// The directory of the log files where none is configured: `logs` under
/// the home directory, or under the current directory where no home
/// directory is known.
pub open spec fn default_directory(home: Option<Seq<char>>) -> Seq<char> {
    match home {
        Some(h) => join_spec(h, "logs"@),
        None => "./logs"@,
    }
}

impl LoggingConfig {
    /// The settings that the global configuration names.
    pub fn from_config(log_directory: &str, log_level: &str, max_files: u32, max_size_mb: u64) -> (r:
        Self)
        ensures
            r.log_directory@ == log_directory@,
            r.log_level == level_spec(log_level@),
            r.max_files == max_files,
            r.max_size_mb == max_size_mb,
    {
        LoggingConfig {
            log_directory: log_directory.to_owned(),
            log_level: parse_level(log_level),
            max_files,
            max_size_mb,
        }
    }
}

impl Default for LoggingConfig {
    fn default() -> (r: Self)
        ensures
            exists|home: Option<Seq<char>>| r.log_directory@ == default_directory(home),
            r.log_level == LogLevel::Debug,
            r.max_files == 10,
            r.max_size_mb == 10,
    {
        let home = home_dir();
        let log_directory = match &home {
            Some(h) => join(h.as_str(), "logs"),
            None => "./logs".to_owned(),
        };
        assert(log_directory@ == default_directory(home.deep_view()));
        LoggingConfig { log_directory, log_level: LogLevel::Debug, max_files: 10, max_size_mb: 10 }
    }
}

/// A file in the log directory: its name, and when it was last written, in
/// seconds since the epoch, where that is known.
#[derive(Debug)]
pub struct LogFile {
    pub name: String,
    pub modified: Option<u64>,
}

/// What a [`LogFile`] holds, as a value of specifications.
pub struct LogFileView {
    pub name: Seq<char>,
    pub modified: Option<u64>,
}

impl View for LogFile {
    type V = LogFileView;

    open spec fn view(&self) -> LogFileView {
        LogFileView { name: self.name@, modified: self.modified }
    }
}

impl DeepView for LogFile {
    type V = LogFileView;

    open spec fn deep_view(&self) -> LogFileView {
        self@
    }
}

/// A file of this log, by its name.
pub open spec fn is_log_file(name: Seq<char>) -> bool {
    has_prefix(name, "restic-manager"@) && has_suffix(name, ".log"@)
}

/// Whether a file last written at `a` is newer than one last written at
/// `b`. A file whose time is not known is older than any whose time is.
pub open spec fn newer(a: Option<u64>, b: Option<u64>) -> bool {
    match (a, b) {
        (Some(x), Some(y)) => x > y,
        (Some(_), None) => true,
        _ => false,
    }
}

/// Whether the file at position `j` comes before the file at position `i`
/// when the log files are listed from the newest on: it is a log file, and
/// it is newer, or as new and listed earlier.
pub open spec fn comes_before(files: Seq<LogFileView>, j: int, i: int) -> bool {
    &&& is_log_file(files[j].name)
    &&& newer(files[j].modified, files[i].modified) || (files[j].modified == files[i].modified
        && j < i)
}

/// The number of files among the first `n` that come before the file at
/// position `i`.
pub open spec fn rank_before(files: Seq<LogFileView>, i: int, n: int) -> nat
    decreases n,
{
    if n <= 0 || n > files.len() {
        0
    } else {
        rank_before(files, i, n - 1) + if comes_before(files, n - 1, i) {
            1nat
        } else {
            0nat
        }
    }
}

/// Whether the file at position `i` is to go: it is a log file, and at
/// least `max_files` log files come before it.
pub open spec fn is_old(files: Seq<LogFileView>, i: int, max_files: u32) -> bool {
    is_log_file(files[i].name) && rank_before(files, i, files.len() as int) >= max_files
}

/// The names of the files among the first `n` that are to go.
pub open spec fn old_before(files: Seq<LogFileView>, max_files: u32, n: int) -> Seq<Seq<char>>
    decreases n,
{
    if n <= 0 || n > files.len() {
        Seq::empty()
    } else if is_old(files, n - 1, max_files) {
        old_before(files, max_files, n - 1).push(files[n - 1].name)
    } else {
        old_before(files, max_files, n - 1)
    }
}

/// Whether a name is that of a file of this log.
pub fn is_log_name(name: &str) -> (r: bool)
    ensures
        r == is_log_file(name@),
{
    starts_with(name, "restic-manager") && ends_with(name, ".log")
}

/// The number of files that come before the file at position `i`.
fn rank(files: &Vec<LogFile>, i: usize) -> (r: usize)
    requires
        i < files@.len(),
    ensures
        r == rank_before(files.deep_view(), i as int, files@.len() as int),
{
    let mut r: usize = 0;
    let mut j: usize = 0;
    while j < files.len()
        invariant
            j <= files@.len(),
            i < files@.len(),
            r <= j,
            r == rank_before(files.deep_view(), i as int, j as int),
        decreases files@.len() - j,
    {
        assert(files.deep_view()[j as int] == files@[j as int]@);
        assert(files.deep_view()[i as int] == files@[i as int]@);
        let is_newer = match (files[j].modified, files[i].modified) {
            (Some(x), Some(y)) => x > y,
            (Some(_), None) => true,
            _ => false,
        };
        let same = match (files[j].modified, files[i].modified) {
            (Some(x), Some(y)) => x == y,
            (None, None) => true,
            _ => false,
        };
        if is_log_name(files[j].name.as_str()) && (is_newer || (same && j < i)) {
            r = r + 1;
        }
        j = j + 1;
    }
    r
}

/// The names of the log files that make room: all but the `max_files`
/// newest files of this log, in the order of the listing.
pub fn cleanup_old_logs(files: &Vec<LogFile>, max_files: u32) -> (r: Vec<String>)
    ensures
        r.deep_view() == old_before(files.deep_view(), max_files, files@.len() as int),
{
    let mut r: Vec<String> = Vec::new();
    let mut i: usize = 0;
    assert(r.deep_view() =~= Seq::<Seq<char>>::empty());
    while i < files.len()
        invariant
            i <= files@.len(),
            r.deep_view() == old_before(files.deep_view(), max_files, i as int),
        decreases files@.len() - i,
    {
        assert(files.deep_view()[i as int] == files@[i as int]@);
        if is_log_name(files[i].name.as_str()) && rank(files, i) >= max_files as usize {
            let ghost before = r.deep_view();
            r.push(files[i].name.clone());
            assert(r.deep_view() =~= before.push(files@[i as int]@.name));
        }
        i = i + 1;
    }
    r
}

} // verus!
