//! Log files: when they rotate, how their lines look, and where a message goes.
use crate::text::concat2;
use vstd::prelude::*;
use vstd::string::*;

verus! {

/// Size above which the application log rotates, in bytes.
pub const APP_LOG_MAX_BYTES: u64 = 2_000_000;

/// Size above which the yt-dlp log rotates, in bytes.
pub const YTDLP_LOG_MAX_BYTES: u64 = 5_000_000;

/// The names a log file's older generations take when it rotates: the file
/// becomes `<name>.1`, and a former `<name>.1` becomes `<name>.2`.
/// Nothing rotates for a file that does not exist (`len` is `None`) or is not
/// larger than `max`.
pub fn rotation_names(file_name: &str, len: Option<u64>, max: u64) -> (r: Option<(String, String)>)
    ensures
        match len {
            Some(n) if n > max => r matches Some((first, second)) && first@ == file_name@ + ".1"@
                && second@ == file_name@ + ".2"@,
            _ => r is None,
        },
{
    match len {
        Some(n) => {
            if n > max {
                Some((concat2(file_name, ".1"), concat2(file_name, ".2")))
            } else {
                None
            }
        },
        None => None,
    }
}

/// What a change of the debug setting does to the log files.
#[derive(Debug, Clone, Copy, PartialEq, Eq, Structural)]
pub enum LogAction {
    /// Open the log files (logging was off and is switched on).
    Open,
    /// Close the log files (logging is switched off).
    Close,
    /// Leave them as they are.
    Keep,
}

/// The action for a switch of debug logging from `was_enabled` to `enabled`.
pub fn debug_transition(was_enabled: bool, enabled: bool) -> (r: LogAction)
    ensures
        enabled && !was_enabled ==> r == LogAction::Open,
        !enabled ==> r == LogAction::Close,
        enabled && was_enabled ==> r == LogAction::Keep,
{
    if enabled && !was_enabled {
        LogAction::Open
    } else if !enabled {
        LogAction::Close
    } else {
        LogAction::Keep
    }
}

/// `s` padded with spaces on the right to at least `width` characters.
pub open spec fn pad_right(s: Seq<char>, width: nat) -> Seq<char> {
    if s.len() >= width {
        s
    } else {
        s + Seq::new((width - s.len()) as nat, |i: int| ' ')
    }
}

/// Pads `s` with spaces on the right to at least `width` characters.
pub fn pad_right_exec(s: &str, width: usize) -> (r: String)
    ensures
        r@ == pad_right(s@, width as nat),
{
    let mut r = String::from_str(s);
    let n = s.unicode_len();
    let mut k: usize = n;
    while k < width
        invariant
            n == s@.len(),
            k >= n,
            k == n || k <= width,
            r@ == s@ + Seq::new((k - n) as nat, |i: int| ' '),
        decreases width - k,
    {
        r.append(" ");
        proof {
            reveal_strlit(" ");
            assert(r@ =~= s@ + Seq::new((k + 1 - n) as nat, |i: int| ' '));
        }
        k = k + 1;
    }
    proof {
        if n >= width {
            assert(k == n);
            assert(r@ =~= s@);
        } else {
            assert(k == width);
        }
    }
    r
}

/// A line of the application log: time stamp, level padded to five characters, message.
pub fn app_log_line(timestamp: &str, level: &str, msg: &str) -> (r: String)
    ensures
        r@ == "["@ + timestamp@ + "] "@ + pad_right(level@, 5) + " | "@ + msg@ + "\n"@,
{
    let mut r = String::from_str("[");
    r.append(timestamp);
    r.append("] ");
    let padded = pad_right_exec(level, 5);
    r.append(padded.as_str());
    r.append(" | ");
    r.append(msg);
    r.append("\n");
    r
}

/// A line of the yt-dlp log: time stamp and message.
pub fn ytdlp_log_line(timestamp: &str, msg: &str) -> (r: String)
    ensures
        r@ == "["@ + timestamp@ + "] "@ + msg@ + "\n"@,
{
    let mut r = String::from_str("[");
    r.append(timestamp);
    r.append("] ");
    r.append(msg);
    r.append("\n");
    r
}

/// Messages from these sources are yt-dlp's own output and go to the yt-dlp log.
pub open spec fn spec_is_engine_source(source: Seq<char>) -> bool {
    source == "ytdlp"@ || source == "stderr"@
}

/// Whether a log message comes from yt-dlp rather than from the application.
pub fn is_engine_source(source: &str) -> (r: bool)
    ensures
        r == spec_is_engine_source(source@),
{
    let s = String::from_str(source);
    s == String::from_str("ytdlp") || s == String::from_str("stderr")
}

/// The marker shown before an application message of the given level.
pub open spec fn spec_level_icon(level: Seq<char>) -> Seq<char> {
    if level == "ERROR"@ {
        "❌ "@
    } else if level == "WARN"@ {
        "⚠ "@
    } else if level == "INFO"@ {
        "→ "@
    } else {
        ""@
    }
}

/// The marker shown before an application message of the given level.
pub fn level_icon(level: &str) -> (r: &'static str)
    ensures
        r@ == spec_level_icon(level@),
{
    let l = String::from_str(level);
    if l == String::from_str("ERROR") {
        "❌ "
    } else if l == String::from_str("WARN") {
        "⚠ "
    } else if l == String::from_str("INFO") {
        "→ "
    } else {
        ""
    }
}

/// The statement that adds a missing column to the task table, or nothing when
/// `columns` already holds it.
pub fn column_migration(columns: &Vec<String>, name: &str, definition: &str) -> (r: Option<String>)
    ensures
        crate::state::string_views(columns@).contains(name@) ==> r is None,
        !crate::state::string_views(columns@).contains(name@) ==> (r matches Some(q) && q@
            == "ALTER TABLE tasks ADD COLUMN "@ + name@ + " "@ + definition@),
{
    let n = String::from_str(name);
    let mut i: usize = 0;
    while i < columns.len()
        invariant
            i <= columns@.len(),
            n@ == name@,
            forall|j: int| 0 <= j < i ==> columns@[j]@ != name@,
        decreases columns@.len() - i,
    {
        if columns[i] == n {
            assert(crate::state::string_views(columns@)[i as int] == name@);
            return None;
        }
        i = i + 1;
    }
    proof {
        let v = crate::state::string_views(columns@);
        if v.contains(name@) {
            let j = choose|j: int| 0 <= j < v.len() && v[j] == name@;
            assert(columns@[j]@ == name@);
        }
    }
    let mut q = String::from_str("ALTER TABLE tasks ADD COLUMN ");
    q.append(name);
    q.append(" ");
    q.append(definition);
    Some(q)
}

} // verus!
