//! Logging settings: levels by name, the command-line options that choose
//! them, and which old log files are due for removal.

use vstd::prelude::*;
use vstd::string::*;

use crate::paths::{join_path, joined_path};
use crate::text::{lowercase_of, str_eq, to_lowercase};

verus! {

/// The log directory under the application-data directory `app_data`:
/// `<app_data>/audio-recorder-manager/logs`.
pub fn log_dir_path(app_data: &str) -> (r: String)
    ensures
        r@ == joined_path(joined_path(app_data@, "audio-recorder-manager"@), "logs"@),
{
    let app_dir = join_path(app_data, "audio-recorder-manager");
    join_path(app_dir.as_str(), "logs")
}

/// Default number of days log files are kept.
pub const DEFAULT_LOG_RETENTION_DAYS: u64 = 7;

/// Days the desktop application keeps its log files.
pub const APP_LOG_RETENTION_DAYS: u64 = 30;

/// Severity of a log message.
#[derive(Debug, Clone, Copy, PartialEq, Eq, Structural)]
pub enum LogLevel {
    Trace,
    Debug,
    Info,
    Warn,
    Error,
}

/// The level an already lowercased name selects.
pub open spec fn level_named(lower: Seq<char>) -> Option<LogLevel> {
    if lower == "trace"@ {
        Some(LogLevel::Trace)
    } else if lower == "debug"@ {
        Some(LogLevel::Debug)
    } else if lower == "info"@ {
        Some(LogLevel::Info)
    } else if lower == "warn"@ || lower == "warning"@ {
        Some(LogLevel::Warn)
    } else if lower == "error"@ {
        Some(LogLevel::Error)
    } else {
        None
    }
}

/// Each level has its own name (`warn` also answers to `warning`), and only
/// those six names select a level: two names select the same level only
/// when both are spellings of `warn`.
pub proof fn level_names_select_their_levels(lower: Seq<char>, other: Seq<char>)
    ensures
        level_named("trace"@) == Some(LogLevel::Trace),
        level_named("debug"@) == Some(LogLevel::Debug),
        level_named("info"@) == Some(LogLevel::Info),
        level_named("warn"@) == Some(LogLevel::Warn),
        level_named("warning"@) == Some(LogLevel::Warn),
        level_named("error"@) == Some(LogLevel::Error),
        level_named(lower) is Some <==> (lower == "trace"@ || lower == "debug"@ || lower == "info"@
            || lower == "warn"@ || lower == "warning"@ || lower == "error"@),
        lower != other && level_named(lower) is Some && level_named(lower) == level_named(other)
            ==> (lower == "warn"@ || lower == "warning"@) && (other == "warn"@ || other
            == "warning"@),
{
    reveal_strlit("trace");
    reveal_strlit("debug");
    reveal_strlit("info");
    reveal_strlit("warn");
    reveal_strlit("warning");
    reveal_strlit("error");
    assert("trace"@[0] == 't' && "debug"@[0] == 'd' && "info"@[0] == 'i' && "warn"@[0] == 'w'
        && "warning"@[0] == 'w' && "error"@[0] == 'e' && "warn"@.len() == 4 && "warning"@.len()
        == 7);
}

/// The level an already lowercased name selects: `trace`, `debug`, `info`,
/// `warn` or `warning`, `error`.
pub fn log_level_from_lowercase(lower: &str) -> (r: Option<LogLevel>)
    ensures
        r == level_named(lower@),
{
    if str_eq(lower, "trace") {
        Some(LogLevel::Trace)
    } else if str_eq(lower, "debug") {
        Some(LogLevel::Debug)
    } else if str_eq(lower, "info") {
        Some(LogLevel::Info)
    } else if str_eq(lower, "warn") || str_eq(lower, "warning") {
        Some(LogLevel::Warn)
    } else if str_eq(lower, "error") {
        Some(LogLevel::Error)
    } else {
        None
    }
}

/// The level a name selects, whatever its case.
pub fn parse_log_level(level: &str) -> (r: Option<LogLevel>)
    ensures
        r == level_named(lowercase_of(level@)),
{
    let lower = to_lowercase(level);
    log_level_from_lowercase(lower.as_str())
}

/// The argument introduces a log level.
pub open spec fn is_level_flag(a: Seq<char>) -> bool {
    a == "--log-level"@ || a == "-l"@
}

/// The level chosen on a command line, looking from position `i` on: the
/// first `--log-level`/`-l` followed by a known level name.
pub open spec fn level_from_args(args: Seq<Seq<char>>, i: int) -> Option<LogLevel>
    decreases args.len() - i,
{
    if i < 0 || i >= args.len() {
        None
    } else if is_level_flag(args[i]) && i + 1 < args.len() && level_named(lowercase_of(args[i + 1]))
        is Some {
        level_named(lowercase_of(args[i + 1]))
    } else {
        level_from_args(args, i + 1)
    }
}

/// The log level given on the command line, if any.
pub fn parse_log_level_from_args(args: &Vec<String>) -> (r: Option<LogLevel>)
    ensures
        r == level_from_args(crate::args::texts(args@), 0),
{
    let ghost a = crate::args::texts(args@);
    let n = args.len();
    let mut i: usize = 0;
    while i < n
        invariant
            n == args@.len(),
            a == crate::args::texts(args@),
            i <= n,
            level_from_args(a, 0) == level_from_args(a, i as int),
        decreases n - i,
    {
        let flag = str_eq(args[i].as_str(), "--log-level") || str_eq(args[i].as_str(), "-l");
        assert(a[i as int] == args@[i as int]@);
        if flag && i + 1 < n {
            assert(a[i + 1] == args@[i + 1]@);
            match parse_log_level(args[i + 1].as_str()) {
                Some(level) => {
                    return Some(level);
                },
                None => {},
            }
        }
        i = i + 1;
    }
    None
}

/// Whether logs go to the file and to the terminal: both, unless the
/// command line holds `--no-log-file` or `--no-log-terminal`.
pub fn parse_log_output_from_args(args: &Vec<String>) -> (r: (bool, bool))
    ensures
        r.0 == !crate::args::texts(args@).contains("--no-log-file"@),
        r.1 == !crate::args::texts(args@).contains("--no-log-terminal"@),
{
    let ghost a = crate::args::texts(args@);
    let mut log_to_file = true;
    let mut log_to_terminal = true;
    let mut i: usize = 0;
    while i < args.len()
        invariant
            i <= args@.len(),
            a == crate::args::texts(args@),
            log_to_file == !a.take(i as int).contains("--no-log-file"@),
            log_to_terminal == !a.take(i as int).contains("--no-log-terminal"@),
        decreases args.len() - i,
    {
        assert(a.take(i + 1) =~= a.take(i as int).push(a[i as int]));
        assert(a[i as int] == args@[i as int]@);
        proof {
            reveal_strlit("--no-log-file");
            reveal_strlit("--no-log-terminal");
            vstd::seq_lib::lemma_seq_contains_after_push(a.take(i as int), a[i as int], "--no-log-file"@);
            vstd::seq_lib::lemma_seq_contains_after_push(a.take(i as int), a[i as int], "--no-log-terminal"@);
        }
        if str_eq(args[i].as_str(), "--no-log-file") {
            log_to_file = false;
        } else if str_eq(args[i].as_str(), "--no-log-terminal") {
            log_to_terminal = false;
        }
        i = i + 1;
    }
    assert(a.take(i as int) =~= a);
    (log_to_file, log_to_terminal)
}

/// The time before which a log file is old enough to be removed:
/// `retention_days` (7 when not given) before `now_secs`, in seconds since
/// the Unix epoch.
pub fn log_cutoff_secs(now_secs: u64, retention_days: Option<u64>) -> (r: u64)
    requires
        (match retention_days {
            Some(d) => d,
            None => DEFAULT_LOG_RETENTION_DAYS,
        }) * 86400 <= now_secs,
    ensures
        r == now_secs - (match retention_days {
            Some(d) => d,
            None => DEFAULT_LOG_RETENTION_DAYS,
        }) * 86400,
{
    let days = match retention_days {
        Some(d) => d,
        None => DEFAULT_LOG_RETENTION_DAYS,
    };
    now_secs - days * 24 * 60 * 60
}

/// A log file last modified at `modified_secs` is removed when that is
/// before the cutoff.
pub fn is_expired_log(modified_secs: u64, cutoff_secs: u64) -> (r: bool)
    ensures
        r == (modified_secs < cutoff_secs),
{
    modified_secs < cutoff_secs
}

} // verus!
