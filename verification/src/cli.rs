//! The command line of the recorder: which command it names and the
//! values of its arguments, or the message it is refused with.

use vstd::prelude::*;
use vstd::string::*;

use crate::args::texts;
use crate::domain::{format_named, signed_decimal, unsupported_format_text, AudioFormat, RecordingDuration};
use crate::quality::{invalid_quality_text, preset_named, professional_view, RecordingQuality};
use crate::text::{concat2, concat3, lowercase_of, parse_i64, parse_i64_spec, str_eq, str_starts_with};

verus! {

/// What the command line asks for.
#[allow(inconsistent_fields)]
pub enum CliCommand {
    /// No command: show how to use the program.
    Usage,
    Record { duration: RecordingDuration, format: AudioFormat, quality: RecordingQuality },
    Status,
    Stop { session_id: Option<String> },
    Recover { session_id: Option<String>, format: Option<AudioFormat> },
}

/// Why the command line is refused; the program prints the message (and,
/// for an unknown command, how to use it) and exits with status 1.
#[derive(Debug, Clone, PartialEq, Eq)]
pub enum CliError {
    /// A bad argument, with the message printed for it.
    Invalid(String),
    /// A command that does not exist.
    UnknownCommand(String),
}

/// The message for a record duration that is a number but not a valid one.
pub open spec fn bad_duration_text(d: i64) -> Seq<char> {
    "Error: Duration must be -1 (manual mode) or a positive number, got: "@ + signed_decimal(d as int)
}

/// The message for a record duration that is no number.
pub open spec fn not_a_number_text(arg: Seq<char>) -> Seq<char> {
    "Error: Invalid duration '"@ + arg + "'. Must be a number."@
}

/// The message for a format name that selects nothing.
pub open spec fn bad_format_text(arg: Seq<char>) -> Seq<char> {
    "Error: "@ + ("Invalid parameter: "@ + unsupported_format_text(arg))
}

/// The duration a record command asks for: its third argument, or 30
/// seconds without one.
pub open spec fn record_duration_secs(args: Seq<Seq<char>>) -> Option<i64> {
    if args.len() > 2 {
        match parse_i64_spec(args[2]) {
            Some(d) => if d == -1 || d > 0 {
                Some(d)
            } else {
                None
            },
            None => None,
        }
    } else {
        Some(30)
    }
}

fn format_arg(arg: &str) -> (r: Result<AudioFormat, CliError>)
    ensures
        match format_named(lowercase_of(arg@)) {
            Some(f) => r == Ok::<AudioFormat, CliError>(f),
            None => r matches Err(CliError::Invalid(m)) && m@ == bad_format_text(arg@),
        },
{
    match AudioFormat::from_str(arg) {
        Ok(f) => Ok(f),
        Err(e) => {
            let m = e.to_string();
            let r = concat2("Error: ", m.as_str());
            assert(r@ =~= bad_format_text(arg@));
            Err(CliError::Invalid(r))
        },
    }
}

/// What a `recover` command line `a` gives.
pub open spec fn recover_ok(a: Seq<Seq<char>>, r: Result<CliCommand, CliError>) -> bool {
    match r {
        Ok(CliCommand::Recover { session_id, format }) => {
            &&& match session_id {
                Some(s) => a.len() > 2 && !"--"@.is_prefix_of(a[2]) && s@ == a[2],
                None => a.len() <= 2 || "--"@.is_prefix_of(a[2]),
            }
            &&& match format {
                Some(f) => a.len() > 3 && format_named(lowercase_of(a[3])) == Some(f),
                None => a.len() <= 3,
            }
        },
        Err(CliError::Invalid(m)) => a.len() > 3 && format_named(lowercase_of(a[3])) is None && m@
            == bad_format_text(a[3]),
        _ => false,
    }
}

/// What a `record` command line `a` gives.
pub open spec fn record_ok(a: Seq<Seq<char>>, max_manual_duration: u64, r: Result<CliCommand, CliError>) -> bool {
    match r {
        Ok(CliCommand::Record { duration, format, quality }) => {
            &&& record_duration_secs(a) matches Some(d) && duration == (if d == -1 {
                RecordingDuration::Manual { max: max_manual_duration }
            } else {
                RecordingDuration::Fixed(d as u64)
            })
            &&& if a.len() > 3 {
                format_named(lowercase_of(a[3])) == Some(format)
            } else {
                format == AudioFormat::Wav
            }
            &&& if a.len() > 4 {
                preset_named(lowercase_of(a[4])) == Some(quality@)
            } else {
                quality@ == professional_view()
            }
        },
        Err(CliError::Invalid(m)) => if record_duration_secs(a) is None {
            match parse_i64_spec(a[2]) {
                Some(d) => m@ == bad_duration_text(d),
                None => m@ == not_a_number_text(a[2]),
            }
        } else if a.len() > 3 && format_named(lowercase_of(a[3])) is None {
            m@ == bad_format_text(a[3])
        } else {
            a.len() > 4 && preset_named(lowercase_of(a[4])) is None && m@ == "Error: "@
                + invalid_quality_text(a[4])
        },
        _ => false,
    }
}

/// Reads the command line (`args[0]` is the program). `record` takes a
/// duration (default 30 s; `-1` for manual mode bounded by
/// `max_manual_duration`), a format (default WAV) and a quality (default
/// professional); `stop` an optional session; `recover` an optional
/// session (an argument starting with `--` is none) and an optional
/// format; `status` nothing.
pub fn parse_cli(args: &Vec<String>, max_manual_duration: u64) -> (r: Result<CliCommand, CliError>)
    ensures
        texts(args@).len() <= 1 ==> (r matches Ok(CliCommand::Usage)),
        texts(args@).len() > 1 && texts(args@)[1] == "status"@ ==> (r matches Ok(CliCommand::Status)),
        texts(args@).len() > 1 && texts(args@)[1] == "stop"@ ==> (r matches Ok(
            CliCommand::Stop { session_id },
        ) && match session_id {
            Some(s) => texts(args@).len() > 2 && s@ == texts(args@)[2],
            None => texts(args@).len() <= 2,
        }),
        texts(args@).len() > 1 && texts(args@)[1] == "recover"@ ==> recover_ok(
            texts(args@),
            r,
        ),
        texts(args@).len() > 1 && texts(args@)[1] == "record"@ ==> record_ok(
            texts(args@),
            max_manual_duration,
            r,
        ),
        texts(args@).len() > 1 && texts(args@)[1] != "record"@ && texts(args@)[1] != "status"@
            && texts(args@)[1] != "stop"@ && texts(args@)[1] != "recover"@ ==> (r matches Err(
            CliError::UnknownCommand(c),
        ) && c@ == texts(args@)[1]),
{
    let ghost a = texts(args@);
    proof {
        reveal_strlit("record");
        reveal_strlit("status");
        reveal_strlit("stop");
        reveal_strlit("recover");
        assert("record"@[0] != "status"@[0]);
    }
    let n = args.len();
    if n <= 1 {
        return Ok(CliCommand::Usage);
    }
    assert(a[1] == args@[1]@);
    let command = args[1].as_str();
    if str_eq(command, "record") {
        let duration_secs: i64 = if n > 2 {
            assert(a[2] == args@[2]@);
            match parse_i64(args[2].as_str()) {
                Some(d) => {
                    if d == -1 || d > 0 {
                        d
                    } else {
                        let text = crate::domain::i64_to_decimal(d);
                        let m = concat2(
                            "Error: Duration must be -1 (manual mode) or a positive number, got: ",
                            text.as_str(),
                        );
                        return Err(CliError::Invalid(m));
                    }
                },
                None => {
                    return Err(
                        CliError::Invalid(
                            concat3("Error: Invalid duration '", args[2].as_str(), "'. Must be a number."),
                        ),
                    );
                },
            }
        } else {
            30
        };
        let duration = if duration_secs == -1 {
            RecordingDuration::Manual { max: max_manual_duration }
        } else {
            RecordingDuration::Fixed(duration_secs as u64)
        };
        let format = if n > 3 {
            assert(a[3] == args@[3]@);
            match format_arg(args[3].as_str()) {
                Ok(f) => f,
                Err(e) => {
                    return Err(e);
                },
            }
        } else {
            AudioFormat::Wav
        };
        let quality = if n > 4 {
            assert(a[4] == args@[4]@);
            match RecordingQuality::from_name(args[4].as_str()) {
                Some(q) => q,
                None => {
                    let m = crate::quality::invalid_quality_message(args[4].as_str());
                    return Err(CliError::Invalid(concat2("Error: ", m.as_str())));
                },
            }
        } else {
            RecordingQuality::professional()
        };
        Ok(CliCommand::Record { duration, format, quality })
    } else if str_eq(command, "status") {
        Ok(CliCommand::Status)
    } else if str_eq(command, "stop") {
        let session_id = if n > 2 {
            assert(a[2] == args@[2]@);
            Some(args[2].clone())
        } else {
            None
        };
        Ok(CliCommand::Stop { session_id })
    } else if str_eq(command, "recover") {
        let session_id = if n > 2 {
            assert(a[2] == args@[2]@);
            if str_starts_with(args[2].as_str(), "--") {
                None
            } else {
                Some(args[2].clone())
            }
        } else {
            None
        };
        let format = if n > 3 {
            assert(a[3] == args@[3]@);
            match format_arg(args[3].as_str()) {
                Ok(f) => Some(f),
                Err(e) => {
                    return Err(e);
                },
            }
        } else {
            None
        };
        Ok(CliCommand::Recover { session_id, format })
    } else {
        Err(CliError::UnknownCommand(args[1].clone()))
    }
}

} // verus!
