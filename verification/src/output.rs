//! User-facing terminal output: what each kind of message looks like, with
//! or without colour, and which messages quiet mode suppresses.

use vstd::prelude::*;
use vstd::string::*;

use crate::text::{append_decimal, concat2, concat3, decimal, owned};

verus! {

/// How user-facing messages are shown.
#[derive(Debug, Clone, Copy, PartialEq, Eq, Structural)]
pub struct UserOutput {
    /// Suppresses every message but errors.
    pub quiet: bool,
    /// Uses ANSI colours.
    pub use_color: bool,
}

/// Whether the terminal shows colours, from which of the variables
/// `NO_COLOR`, `TERM`, `WT_SESSION` and `ConEmuANSI` are set.
pub open spec fn color_supported(no_color: bool, term: bool, wt_session: bool, conemu_ansi: bool) -> bool {
    !no_color && (term || wt_session || conemu_ansi)
}

pub open spec fn shown(quiet: bool, line: Seq<char>) -> Option<Seq<char>> {
    if quiet {
        None
    } else {
        Some(line)
    }
}

pub open spec fn line_of(r: Option<String>) -> Option<Seq<char>> {
    match r {
        Some(s) => Some(s@),
        None => None,
    }
}

impl UserOutput {
    /// Colours when `NO_COLOR` is unset and one of `TERM`, `WT_SESSION`,
    /// `ConEmuANSI` is set.
    pub fn supports_color(no_color: bool, term: bool, wt_session: bool, conemu_ansi: bool) -> (r:
        bool)
        ensures
            r == color_supported(no_color, term, wt_session, conemu_ansi),
    {
        if no_color {
            return false;
        }
        term || wt_session || conemu_ansi
    }

    /// Normal output, coloured when the terminal supports it.
    pub fn new(color_supported: bool) -> (r: Self)
        ensures
            !r.quiet,
            r.use_color == color_supported,
    {
        UserOutput { quiet: false, use_color: color_supported }
    }

    /// Output that shows errors only, without colour.
    pub fn quiet() -> (r: Self)
        ensures
            r.quiet,
            !r.use_color,
    {
        UserOutput { quiet: true, use_color: false }
    }

    /// Normal output with colour chosen explicitly.
    pub fn with_color(use_color: bool) -> (r: Self)
        ensures
            !r.quiet,
            r.use_color == use_color,
    {
        UserOutput { quiet: false, use_color }
    }

    /// The line shown on standard output for an informational message.
    pub fn info(&self, msg: &str) -> (r: Option<String>)
        ensures
            line_of(r) == shown(self.quiet, msg@),
    {
        if self.quiet {
            None
        } else {
            Some(owned(msg))
        }
    }

    /// The line shown on standard output for a success (green).
    pub fn success(&self, msg: &str) -> (r: Option<String>)
        ensures
            line_of(r) == shown(
                self.quiet,
                if self.use_color {
                    "\x1b[32m"@ + msg@ + "\x1b[0m"@
                } else {
                    msg@
                },
            ),
    {
        if self.quiet {
            None
        } else if self.use_color {
            Some(concat3("\x1b[32m", msg, "\x1b[0m"))
        } else {
            Some(owned(msg))
        }
    }

    /// The line shown on standard error for a warning (yellow tag).
    pub fn warning(&self, msg: &str) -> (r: Option<String>)
        ensures
            line_of(r) == shown(
                self.quiet,
                if self.use_color {
                    "\x1b[33m[Warning]\x1b[0m "@ + msg@
                } else {
                    "[Warning] "@ + msg@
                },
            ),
    {
        if self.quiet {
            None
        } else if self.use_color {
            Some(concat2("\x1b[33m[Warning]\x1b[0m ", msg))
        } else {
            Some(concat2("[Warning] ", msg))
        }
    }

    /// The line shown on standard error for an error (red tag); errors are
    /// shown in quiet mode too.
    pub fn error(&self, msg: &str) -> (r: String)
        ensures
            r@ == if self.use_color {
                "\x1b[31m[Error]\x1b[0m "@ + msg@
            } else {
                "[Error] "@ + msg@
            },
    {
        if self.use_color {
            concat2("\x1b[31m[Error]\x1b[0m ", msg)
        } else {
            concat2("[Error] ", msg)
        }
    }

    /// The line shown on standard output for step `step` of `total`
    /// (cyan tag).
    pub fn progress(&self, step: u64, total: u64, msg: &str) -> (r: Option<String>)
        ensures
            line_of(r) == shown(
                self.quiet,
                if self.use_color {
                    "\x1b[36m["@ + decimal(step as nat) + "/"@ + decimal(total as nat) + "]\x1b[0m "@
                        + msg@
                } else {
                    "["@ + decimal(step as nat) + "/"@ + decimal(total as nat) + "] "@ + msg@
                },
            ),
    {
        if self.quiet {
            return None;
        }
        let mut s = if self.use_color {
            owned("\x1b[36m[")
        } else {
            owned("[")
        };
        append_decimal(&mut s, step);
        s.append("/");
        append_decimal(&mut s, total);
        if self.use_color {
            s.append("]\x1b[0m ");
        } else {
            s.append("] ");
        }
        s.append(msg);
        Some(s)
    }

    /// The line shown on standard output for a message with a prefix tag
    /// (cyan tag).
    pub fn prefixed(&self, prefix: &str, msg: &str) -> (r: Option<String>)
        ensures
            line_of(r) == shown(
                self.quiet,
                if self.use_color {
                    "\x1b[36m["@ + prefix@ + "]\x1b[0m "@ + msg@
                } else {
                    "["@ + prefix@ + "] "@ + msg@
                },
            ),
    {
        if self.quiet {
            return None;
        }
        let mut s = if self.use_color {
            concat2("\x1b[36m[", prefix)
        } else {
            concat2("[", prefix)
        };
        if self.use_color {
            s.append("]\x1b[0m ");
        } else {
            s.append("] ");
        }
        s.append(msg);
        Some(s)
    }

    /// The text written (without a newline) for a status line that
    /// overwrites the previous one.
    pub fn status(&self, msg: &str) -> (r: Option<String>)
        ensures
            line_of(r) == shown(self.quiet, "\r"@ + msg@),
    {
        if self.quiet {
            None
        } else {
            Some(concat2("\r", msg))
        }
    }

    /// The text written to clear the status line.
    pub fn clear_status(&self) -> (r: Option<String>)
        ensures
            line_of(r) == shown(self.quiet, "\r\x1b[K"@),
    {
        if self.quiet {
            None
        } else {
            Some(owned("\r\x1b[K"))
        }
    }
}

} // verus!
