//! The host's console logger: which records pass, how a record is labelled,
//! and the line that is printed for it.

use vstd::prelude::*;
use vstd::string::StringExecFns;
use colored::Colorize;

verus! {

/// `log::SetLoggerError`, the error of installing a logger where one is
/// installed already. Nothing is known of its inside.
#[verifier::external_type_specification]
#[verifier::external_body]
pub struct ExSetLoggerError(log::SetLoggerError);

/// Severity of a log record, most severe first.
#[derive(Clone, Copy, Debug, PartialEq, Eq, Structural)]
pub enum Level {
    Error,
    Warn,
    Info,
    Debug,
    Trace,
}

/// Foreground colour of a label on the terminal.
#[derive(Clone, Copy, Debug, PartialEq, Eq, Structural)]
pub enum Tone {
    Red,
    Yellow,
    Blue,
}

impl Level {
    /// Position of the level in the order of severities: 1 for `Error`, 5 for `Trace`.
    pub open spec fn rank(self) -> int {
        match self {
            Level::Error => 1,
            Level::Warn => 2,
            Level::Info => 3,
            Level::Debug => 4,
            Level::Trace => 5,
        }
    }

    /// The rank as a machine integer.
    pub fn severity(self) -> (r: u8)
        ensures
            r == self.rank(),
    {
        match self {
            Level::Error => 1,
            Level::Warn => 2,
            Level::Info => 3,
            Level::Debug => 4,
            Level::Trace => 5,
        }
    }
}

/// A record passes when it is at least as severe as `Info`.
pub open spec fn passes(level: Level) -> bool {
    level.rank() <= Level::Info.rank()
}

/// The label printed in front of a record.
pub open spec fn label_text(level: Level) -> Seq<char> {
    match level {
        Level::Error => "ERROR"@,
        Level::Warn => "WARN"@,
        _ => "INFO"@,
    }
}

/// The colour of that label.
pub open spec fn label_tone(level: Level) -> Tone {
    match level {
        Level::Error => Tone::Red,
        Level::Warn => Tone::Yellow,
        _ => Tone::Blue,
    }
}

/// The escape character that opens a terminal control sequence.
pub open spec fn escape() -> char {
    '\x1b'
}

/// The control sequence that selects the foreground colour `tone`.
pub open spec fn tone_on(tone: Tone) -> Seq<char> {
    match tone {
        Tone::Red => seq![escape(), '[', '3', '1', 'm'],
        Tone::Yellow => seq![escape(), '[', '3', '3', 'm'],
        Tone::Blue => seq![escape(), '[', '3', '4', 'm'],
    }
}

/// The control sequence that resets the terminal's colours.
pub open spec fn tone_off() -> Seq<char> {
    seq![escape(), '[', '0', 'm']
}

/// What painting `text` may give: the text itself where the terminal takes no
/// colour, the text between the colour's sequence and the reset where it does,
/// and the text followed by the reset where colouring was switched off while
/// the text was being written.
pub open spec fn is_painting(out: Seq<char>, text: Seq<char>, tone: Tone) -> bool {
    ||| out == text
    ||| out == tone_on(tone) + text + tone_off()
    ||| out == text + tone_off()
}

/// The line for a record, given its painted label: label, one space, message.
pub open spec fn line(label: Seq<char>, message: Seq<char>) -> Seq<char> {
    label + seq![' '] + message
}

/// Whether a record of this level is printed.
pub fn enabled(level: Level) -> (r: bool)
    ensures
        r == passes(level),
{
    level.severity() <= Level::Info.severity()
}

/// The label of a level and its colour.
pub fn label(level: Level) -> (r: (&'static str, Tone))
    ensures
        r.0@ == label_text(level),
        r.1 == label_tone(level),
{
    match level {
        Level::Error => ("ERROR", Tone::Red),
        Level::Warn => ("WARN", Tone::Yellow),
        _ => ("INFO", Tone::Blue),
    }
}

/// `colored::Colorize::color` on a `&str`, then `to_string` on the coloured
/// string. With a foreground colour and no style, the crate writes the text
/// unchanged where colouring is off, and otherwise the sequence `ESC [ code m`,
/// the text, and the reset `ESC [ 0 m`; the codes are 31 for red, 33 for yellow
/// and 34 for blue. Whether colouring is on is read from the environment more
/// than once per call, so the reset alone may follow the text. A text with a
/// reset sequence inside is rewritten by the crate and is left out here.
#[verifier::external_body]
fn paint(text: &str, tone: Tone) -> (out: String)
    requires
        !text@.contains(escape()),
    ensures
        is_painting(out@, text@, tone),
{
    let color = match tone {
        Tone::Red => colored::Color::Red,
        Tone::Yellow => colored::Color::Yellow,
        Tone::Blue => colored::Color::Blue,
    };
    text.color(color).to_string()
}

/// The line printed for a record, or `None` where its level does not pass.
pub fn render(level: Level, message: &str) -> (r: Option<String>)
    ensures
        r is Some <==> passes(level),
        r matches Some(text) ==> exists|painted: Seq<char>|
            is_painting(painted, label_text(level), label_tone(level)) && text@ == line(
                painted,
                message@,
            ),
{
    if !enabled(level) {
        return None;
    }
    let (name, tone) = label(level);
    proof {
        reveal_strlit("ERROR");
        reveal_strlit("WARN");
        reveal_strlit("INFO");
        reveal_strlit(" ");
    }
    let mut text = paint(name, tone);
    let ghost painted = text@;
    text.append(" ");
    text.append(message);
    assert(text@ =~= line(painted, message@));
    Some(text)
}

/// The filter that the host installs together with its logger.
pub fn max_level() -> (r: Level)
    ensures
        r == Level::Info,
{
    Level::Info
}

/// `log::set_max_level` with the filter that admits `level` and what is more
/// severe. The crate stores the filter in the process-wide maximum level;
/// it returns nothing, and nothing is claimed of it.
#[verifier::external_body]
fn set_max_level(level: Level) {
    log::set_max_level(
        match level {
            Level::Error => log::LevelFilter::Error,
            Level::Warn => log::LevelFilter::Warn,
            Level::Info => log::LevelFilter::Info,
            Level::Debug => log::LevelFilter::Debug,
            Level::Trace => log::LevelFilter::Trace,
        },
    )
}

/// Completes the installation of the host's logger. `installed` is what
/// installing the logger returned: where that succeeded the process-wide
/// maximum level is set to `max_level()`, and the outcome is handed on as
/// it came.
pub fn init_logger(installed: Result<(), log::SetLoggerError>) -> (r: Result<
    (),
    log::SetLoggerError,
>)
    ensures
        r == installed,
{
    if installed.is_ok() {
        set_max_level(max_level());
    }
    installed
}

} // verus!
