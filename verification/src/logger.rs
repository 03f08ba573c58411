use vstd::prelude::*;

use crate::error::BuildError;

verus! {

/// The severities a record can carry, from most to least severe.
#[derive(Clone, Copy, PartialEq, Eq, Structural, Debug)]
pub enum LogLevel {
    Error,
    Warn,
    Info,
    Debug,
    Trace,
}

/// The rank of a level: lower means more severe.
pub open spec fn level_rank(l: LogLevel) -> int {
    match l {
        LogLevel::Error => 1,
        LogLevel::Warn => 2,
        LogLevel::Info => 3,
        LogLevel::Debug => 4,
        LogLevel::Trace => 5,
    }
}

/// The ANSI rendering of `s` in the bold red style: the bold-red
/// prefix, the text, and the style reset.
pub open spec fn spec_red_bold(s: Seq<char>) -> Seq<char> {
    seq!['\u{1b}', '[', '1', ';', '3', '1', 'm'] + s + seq!['\u{1b}', '[', '0', 'm']
}

/// The console line for an error record: a bold red `error` label, a
/// colon, and the message.
pub open spec fn spec_error_line(msg: Seq<char>) -> Seq<char> {
    spec_red_bold(seq!['e', 'r', 'r', 'o', 'r']) + seq![':', ' '] + msg
}

/// Relies on ansi_term: painting text with `Colour::Red.bold()` yields
/// the bold-red ANSI prefix, the text unchanged, and the reset suffix.
#[verifier::external_body]
fn paint_red_bold(s: &str) -> (r: String)
    ensures
        r@ == spec_red_bold(s@),
{
    ansi_term::Colour::Red.bold().paint(s).to_string()
}

/// The console logger: renders records at or above its maximum level,
/// error records with a colored label, informational records bare.
pub struct Logger {
    pub max_level: LogLevel,
}

impl Logger {
    /// Sets up the logger that the build tool installs: it passes
    /// records up to the informational level.
    pub fn init() -> (r: Result<Logger, BuildError>)
        ensures
            (r matches Ok(l) && l.max_level is Info),
    {
        Ok(Logger { max_level: LogLevel::Info })
    }

    /// Whether a record at `level` is rendered at all.
    pub fn enabled(&self, level: LogLevel) -> (r: bool)
        ensures
            r == (level_rank(level) <= level_rank(self.max_level)),
    {
        rank_of(level) <= rank_of(self.max_level)
    }

    /// The console line for a record, or `None` when the record is
    /// filtered: error records get the bold red label, informational
    /// records pass through bare, and every other level prints nothing.
    pub fn render(&self, level: LogLevel, msg: &str) -> (r: Option<String>)
        ensures
            level_rank(level) > level_rank(self.max_level) ==> r is None,
            (level_rank(level) <= level_rank(self.max_level) && level is Error) ==> (r matches Some(
                line,
            ) && line@ == spec_error_line(msg@)),
            (level_rank(level) <= level_rank(self.max_level) && level is Info) ==> (r matches Some(
                line,
            ) && line@ == msg@),
            (level_rank(level) <= level_rank(self.max_level) && !(level is Error) && !(level
                is Info)) ==> r is None,
    {
        if !self.enabled(level) {
            return None;
        }
        match level {
            LogLevel::Error => {
                let mut line = paint_red_bold("error");
                line.append(": ");
                line.append(msg);
                proof {
                    reveal_strlit("error");
                    reveal_strlit(": ");
                    assert("error"@ =~= seq!['e', 'r', 'r', 'o', 'r']);
                    assert(": "@ =~= seq![':', ' ']);
                }
                Some(line)
            },
            LogLevel::Info => Some(String::from_str(msg)),
            _ => None,
        }
    }
}

/// The rank of a level as a machine integer.
fn rank_of(l: LogLevel) -> (r: u8)
    ensures
        r as int == level_rank(l),
{
    match l {
        LogLevel::Error => 1,
        LogLevel::Warn => 2,
        LogLevel::Info => 3,
        LogLevel::Debug => 4,
        LogLevel::Trace => 5,
    }
}

} // verus!
