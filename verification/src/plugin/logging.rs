//! What the log writer sends to Stream Deck.
use vstd::prelude::*;

use crate::text::{chars_of, push_str, trim_text, trimmed};

verus! {

/// A trimmed piece of log text, when anything is left of it.
pub open spec fn kept(piece: Seq<char>) -> Seq<Seq<char>> {
    if trimmed(piece).len() == 0 {
        Seq::empty()
    } else {
        seq![trimmed(piece)]
    }
}

/// The lines of `s` from position `i` on, `current` being the part of the line
/// that stands before `i`: each line trimmed, blank ones left out.
pub open spec fn lines_from(s: Seq<char>, i: int, current: Seq<char>) -> Seq<Seq<char>>
    decreases s.len() - i,
{
    if i < 0 || i >= s.len() {
        kept(current)
    } else if s[i] == '\n' {
        kept(current) + lines_from(s, i + 1, Seq::empty())
    } else {
        lines_from(s, i + 1, current.push(s[i]))
    }
}

/// The log messages a piece of log text gives: its lines (split at each line
/// feed), each trimmed, the blank ones left out.
pub open spec fn log_lines_of(s: Seq<char>) -> Seq<Seq<char>> {
    lines_from(s, 0, Seq::empty())
}

/// The log messages that `text` is sent to Stream Deck as.
pub fn log_lines(text: &str) -> (r: Vec<String>)
    ensures
        r@.map_values(|l: String| l@) == log_lines_of(text@),
{
    let cs = chars_of(text);
    let mut out: Vec<String> = Vec::new();
    let mut current = String::new();
    let mut i: usize = 0;
    while i < cs.len()
        invariant
            cs@ == text@,
            0 <= i <= cs@.len(),
            log_lines_of(text@) == out@.map_values(|l: String| l@) + lines_from(text@, i as int, current@),
        decreases cs@.len() - i,
    {
        let ghost before = out@.map_values(|l: String| l@);
        if cs[i] == '\n' {
            let line = trim_text(current.as_str());
            if !line.as_str().is_empty() {
                out.push(line);
            }
            assert(out@.map_values(|l: String| l@) =~= before + kept(current@));
            current = String::new();
        } else {
            current.push(cs[i]);
        }
        i = i + 1;
    }
    let line = trim_text(current.as_str());
    let ghost before = out@.map_values(|l: String| l@);
    if !line.as_str().is_empty() {
        out.push(line);
    }
    assert(out@.map_values(|l: String| l@) =~= before + kept(current@));
    out
}

/// The operating system a plugin runs on, as far as the log location depends on it.
#[derive(Debug, Clone, Copy, PartialEq, Eq, Structural)]
pub enum LogPlatform {
    Windows,
    MacOs,
    Other,
}

/// The directory a log location starts from.
#[derive(Debug, Clone, Copy, PartialEq, Eq, Structural)]
pub enum LogBase {
    /// The `APPDATA` directory.
    AppData,
    /// The `HOME` directory.
    Home,
    /// The system's temporary directory.
    TempDir,
}

/// Where a plugin's log file goes: a base directory, the directories below it,
/// and the file's name.
pub struct LogLocation {
    pub base: LogBase,
    pub dirs: Vec<String>,
    pub file: String,
}

/// The base directory of the log on each platform.
pub open spec fn log_base(p: LogPlatform) -> LogBase {
    match p {
        LogPlatform::Windows => LogBase::AppData,
        LogPlatform::MacOs => LogBase::Home,
        LogPlatform::Other => LogBase::TempDir,
    }
}

/// The directories below the base on each platform.
pub open spec fn log_dirs(p: LogPlatform) -> Seq<Seq<char>> {
    match p {
        LogPlatform::Windows => seq!["Elgato"@, "StreamDeck"@, "logs"@],
        LogPlatform::MacOs => seq!["Library"@, "Logs"@, "ElgatoStreamDeck"@],
        LogPlatform::Other => Seq::empty(),
    }
}

fn texts3(a: &str, b: &str, c: &str) -> (r: Vec<String>)
    ensures
        r@.map_values(|s: String| s@) == seq![a@, b@, c@],
{
    let r = vec![a.to_owned(), b.to_owned(), c.to_owned()];
    assert(r@.map_values(|s: String| s@) =~= seq![a@, b@, c@]);
    r
}

/// Where the log file of the plugin `plugin_uuid` goes on `platform`: the
/// Stream Deck log directory under `APPDATA` on Windows, under `HOME` on macOS,
/// the temporary directory elsewhere; the file is `<plugin UUID>.log`.
pub fn log_location(platform: LogPlatform, plugin_uuid: &str) -> (r: LogLocation)
    ensures
        r.base == log_base(platform),
        r.dirs@.map_values(|s: String| s@) == log_dirs(platform),
        r.file@ == plugin_uuid@ + ".log"@,
{
    let mut file = plugin_uuid.to_owned();
    push_str(&mut file, ".log");
    match platform {
        LogPlatform::Windows => LogLocation {
            base: LogBase::AppData,
            dirs: texts3("Elgato", "StreamDeck", "logs"),
            file,
        },
        LogPlatform::MacOs => LogLocation {
            base: LogBase::Home,
            dirs: texts3("Library", "Logs", "ElgatoStreamDeck"),
            file,
        },
        LogPlatform::Other => {
            let dirs: Vec<String> = Vec::new();
            assert(dirs@.map_values(|s: String| s@) =~= Seq::<Seq<char>>::empty());
            LogLocation { base: LogBase::TempDir, dirs, file }
        },
    }
}

} // verus!
