//! A leveled file logger.
//!
//! A [`Logger`] names six log files, one per [`Channel`], all stamped with the
//! local time at which the logger was made. Each logging call formats one line
//! and hands back a [`LogEntry`]: the file to append to and the text to append.
use vstd::prelude::*;

verus! {

/// The six destinations a message can be logged to.
#[derive(Clone, Copy, Debug, PartialEq, Eq, Structural)]
pub enum Channel {
    Warning,
    Information,
    Error,
    Panic,
    Fatal,
    Connection,
}

/// The directory that holds every log file.
pub open spec fn log_dir_name() -> Seq<char> {
    "logs"@
}

/// The part of a channel's file name before the timestamp.
pub open spec fn channel_file_name(c: Channel) -> Seq<char> {
    match c {
        Channel::Warning => "warnings"@,
        Channel::Information => "informations"@,
        Channel::Error => "errors"@,
        Channel::Panic => "panics"@,
        Channel::Fatal => "fatals"@,
        Channel::Connection => "conection"@,
    }
}

/// The tag that opens every line written to a channel.
pub open spec fn channel_tag(c: Channel) -> Seq<char> {
    match c {
        Channel::Warning => "WARN!"@,
        Channel::Information => "INFO!"@,
        Channel::Error => "ERROR!"@,
        Channel::Panic => "FATAL!"@,
        Channel::Fatal => "FATAL!"@,
        Channel::Connection => "CONNECTION!"@,
    }
}

/// `logs/<name>_<stamp>.log`
pub open spec fn log_file_path(c: Channel, stamp: Seq<char>) -> Seq<char> {
    log_dir_name() + "/"@ + channel_file_name(c) + "_"@ + stamp + ".log"@
}

/// `[ <tag> ] Path: <path> | Message: <message> | Body: <body>, <stamp> `
pub open spec fn log_line(
    tag: Seq<char>,
    path: Seq<char>,
    message: Seq<char>,
    body: Seq<char>,
    stamp: Seq<char>,
) -> Seq<char> {
    "[ "@ + tag + " ] Path: "@ + path + " | Message: "@ + message + " | Body: "@ + body + ", "@
        + stamp + " "@
}

impl Channel {
    /// The part of this channel's file name before the timestamp.
    pub fn file_name(&self) -> (r: &'static str)
        ensures
            r@ == channel_file_name(*self),
    {
        match self {
            Channel::Warning => "warnings",
            Channel::Information => "informations",
            Channel::Error => "errors",
            Channel::Panic => "panics",
            Channel::Fatal => "fatals",
            Channel::Connection => "conection",
        }
    }

    /// The tag that opens every line written to this channel.
    pub fn tag(&self) -> (r: &'static str)
        ensures
            r@ == channel_tag(*self),
    {
        match self {
            Channel::Warning => "WARN!",
            Channel::Information => "INFO!",
            Channel::Error => "ERROR!",
            Channel::Panic => "FATAL!",
            Channel::Fatal => "FATAL!",
            Channel::Connection => "CONNECTION!",
        }
    }
}

/// The directory that holds every log file, relative to the working directory.
pub fn log_dir() -> (r: &'static str)
    ensures
        r@ == log_dir_name(),
{
    "logs"
}

/// The path of `channel`'s log file for the construction stamp `stamp`.
pub fn file_path_for(channel: Channel, stamp: &str) -> (r: String)
    ensures
        r@ == log_file_path(channel, stamp@),
{
    let mut r = String::from_str(log_dir());
    r.append("/");
    r.append(channel.file_name());
    r.append("_");
    r.append(stamp);
    r.append(".log");
    r
}

/// One log line, stamped with `stamp`.
pub fn format_line(tag: &str, message: &str, path: &str, body: &str, stamp: &str) -> (r: String)
    ensures
        r@ == log_line(tag@, path@, message@, body@, stamp@),
{
    let mut r = String::from_str("[ ");
    r.append(tag);
    r.append(" ] Path: ");
    r.append(path);
    r.append(" | Message: ");
    r.append(message);
    r.append(" | Body: ");
    r.append(body);
    r.append(", ");
    r.append(stamp);
    r.append(" ");
    r
}

/// The strftime pattern of the stamp in a log file's name.
pub open spec fn file_stamp_pattern() -> Seq<char> {
    "%Y-%m-%d_%H-%M-%S"@
}

/// The strftime pattern of the stamp at the end of a log line.
pub open spec fn line_stamp_pattern() -> Seq<char> {
    "%Y-%m-%d %H:%M:%S"@
}

/// An ASCII decimal digit.
pub open spec fn is_digit(c: char) -> bool {
    '0' <= c && c <= '9'
}

/// A date and time written `Y<d>MM<d>DD<m>HH<t>MM<t>SS`: a year of at least
/// four digits (a `+` before years past 9999), then two-digit month, day, hour,
/// minute and second, separated by `d`, `m` and `t`.
pub open spec fn is_stamp(s: Seq<char>, d: char, m: char, t: char) -> bool {
    let e = s.len() - 15;
    &&& s.len() >= 19
    &&& (is_digit(s[0]) || s[0] == '+')
    &&& forall|i: int| 1 <= i < e ==> is_digit(#[trigger] s[i])
    &&& s[e] == d && is_digit(s[e + 1]) && is_digit(s[e + 2])
    &&& s[e + 3] == d && is_digit(s[e + 4]) && is_digit(s[e + 5])
    &&& s[e + 6] == m && is_digit(s[e + 7]) && is_digit(s[e + 8])
    &&& s[e + 9] == t && is_digit(s[e + 10]) && is_digit(s[e + 11])
    &&& s[e + 12] == t && is_digit(s[e + 13]) && is_digit(s[e + 14])
}

/// Relies on chrono's `Local::now` and `DateTime::format`: the local wall-clock
/// time now, written out by `pattern`. Both admitted patterns hold only year,
/// month, day, hour, minute and second, which chrono writes for every date and
/// time, so the final `to_string` cannot fail. Years in 0..=9999 come out as
/// four digits, later ones with a leading `+`; the other fields come out as two
/// zero-padded digits. (`Local::now` itself panics only on the machine's state:
/// a system clock before 1970, or unreadable time zone data.)
#[verifier::external_body]
fn local_time_now(pattern: &str) -> (r: String)
    requires
        pattern@ == file_stamp_pattern() || pattern@ == line_stamp_pattern(),
    ensures
        pattern@ == file_stamp_pattern() ==> is_stamp(r@, '-', '_', '-'),
        pattern@ == line_stamp_pattern() ==> is_stamp(r@, '-', ' ', ':'),
{
    chrono::Local::now().format(pattern).to_string()
}

/// One formatted line, and the file it is to be appended to.
pub struct LogEntry {
    pub file: String,
    pub line: String,
}

/// The six log files of one logging session.
pub struct Logger {
    warn_log_file: String,
    info_log_file: String,
    err_log_file: String,
    panic_log_file: String,
    fatal_log_file: String,
    conection_log_file: String,
}

impl Logger {
    /// The file that `c`'s lines go to.
    pub closed spec fn path_of(&self, c: Channel) -> Seq<char> {
        match c {
            Channel::Warning => self.warn_log_file@,
            Channel::Information => self.info_log_file@,
            Channel::Error => self.err_log_file@,
            Channel::Panic => self.panic_log_file@,
            Channel::Fatal => self.fatal_log_file@,
            Channel::Connection => self.conection_log_file@,
        }
    }

    /// The construction stamp, as it stands in the warning file's name.
    pub open spec fn stamp(&self) -> Seq<char> {
        let w = self.path_of(Channel::Warning);
        w.subrange(14, w.len() - 4)
    }

    /// Every channel's file is named after one and the same stamp.
    pub open spec fn wf(&self) -> bool {
        forall|c: Channel| #[trigger] self.path_of(c) == log_file_path(c, self.stamp())
    }

    /// A logger whose six files are all named after `stamp`.
    pub fn with_stamp(stamp: &str) -> (r: Logger)
        ensures
            r.wf(),
            r.stamp() == stamp@,
            forall|c: Channel| #[trigger] r.path_of(c) == log_file_path(c, stamp@),
    {
        let r = Logger {
            warn_log_file: file_path_for(Channel::Warning, stamp),
            info_log_file: file_path_for(Channel::Information, stamp),
            err_log_file: file_path_for(Channel::Error, stamp),
            panic_log_file: file_path_for(Channel::Panic, stamp),
            fatal_log_file: file_path_for(Channel::Fatal, stamp),
            conection_log_file: file_path_for(Channel::Connection, stamp),
        };
        proof {
            reveal_strlit("logs");
            reveal_strlit("/");
            reveal_strlit("warnings");
            reveal_strlit("_");
            reveal_strlit(".log");
            let w = r.warn_log_file@;
            assert(w.subrange(14, w.len() - 4) =~= stamp@);
        }
        r
    }

    /// A logger whose six files are named after the local time now, written
    /// `YYYY-MM-DD_HH-MM-SS`.
    pub fn new() -> (r: Logger)
        ensures
            r.wf(),
            is_stamp(r.stamp(), '-', '_', '-'),
    {
        let stamp = local_time_now("%Y-%m-%d_%H-%M-%S");
        Logger::with_stamp(stamp.as_str())
    }

    /// The file that `channel`'s lines go to.
    pub fn log_file(&self, channel: Channel) -> (r: &String)
        ensures
            r@ == self.path_of(channel),
    {
        match channel {
            Channel::Warning => &self.warn_log_file,
            Channel::Information => &self.info_log_file,
            Channel::Error => &self.err_log_file,
            Channel::Panic => &self.panic_log_file,
            Channel::Fatal => &self.fatal_log_file,
            Channel::Connection => &self.conection_log_file,
        }
    }

    /// The entry for a message on `channel` whose line is stamped `stamp`.
    pub fn entry_at(&self, channel: Channel, message: &str, path: &str, body: &str, stamp: &str) -> (r: LogEntry)
        ensures
            r.file@ == self.path_of(channel),
            r.line@ == log_line(channel_tag(channel), path@, message@, body@, stamp@),
    {
        LogEntry {
            file: self.log_file(channel).clone(),
            line: format_line(channel.tag(), message, path, body, stamp),
        }
    }

    /// The entry for a message on `channel`, stamped with the local time now,
    /// written `YYYY-MM-DD HH:MM:SS`.
    pub fn entry(&self, channel: Channel, message: &str, path: &str, body: &str) -> (r: LogEntry)
        ensures
            r.file@ == self.path_of(channel),
            exists|stamp: Seq<char>|
                is_stamp(stamp, '-', ' ', ':') && r.line@ == #[trigger] log_line(channel_tag(channel), path@, message@, body@, stamp),
    {
        let stamp = local_time_now("%Y-%m-%d %H:%M:%S");
        let r = self.entry_at(channel, message, path, body, stamp.as_str());
        assert(r.line@ == log_line(channel_tag(channel), path@, message@, body@, stamp@));
        r
    }

    /// The entry that logs a warning: a `WARN!` line for the warning file.
    pub fn warn_logger(&self, message: &str, path: &str, body: &str) -> (r: LogEntry)
        ensures
            r.file@ == self.path_of(Channel::Warning),
            exists|stamp: Seq<char>|
                is_stamp(stamp, '-', ' ', ':') && r.line@ == #[trigger] log_line("WARN!"@, path@, message@, body@, stamp),
    {
        self.entry(Channel::Warning, message, path, body)
    }

    /// The entry that logs an information message: an `INFO!` line for the information file.
    pub fn info_logger(&self, message: &str, path: &str, body: &str) -> (r: LogEntry)
        ensures
            r.file@ == self.path_of(Channel::Information),
            exists|stamp: Seq<char>|
                is_stamp(stamp, '-', ' ', ':') && r.line@ == #[trigger] log_line("INFO!"@, path@, message@, body@, stamp),
    {
        self.entry(Channel::Information, message, path, body)
    }

    /// The entry that logs an error: an `ERROR!` line for the error file.
    pub fn error_logger(&self, message: &str, path: &str, body: &str) -> (r: LogEntry)
        ensures
            r.file@ == self.path_of(Channel::Error),
            exists|stamp: Seq<char>|
                is_stamp(stamp, '-', ' ', ':') && r.line@ == #[trigger] log_line("ERROR!"@, path@, message@, body@, stamp),
    {
        self.entry(Channel::Error, message, path, body)
    }

    /// The entry that logs a panic: a `FATAL!` line for the panic file.
    pub fn panic_logger(&self, message: &str, path: &str, body: &str) -> (r: LogEntry)
        ensures
            r.file@ == self.path_of(Channel::Panic),
            exists|stamp: Seq<char>|
                is_stamp(stamp, '-', ' ', ':') && r.line@ == #[trigger] log_line("FATAL!"@, path@, message@, body@, stamp),
    {
        self.entry(Channel::Panic, message, path, body)
    }

    /// The entry that logs a fatal error: a `FATAL!` line for the fatal file.
    pub fn fatal_logger(&self, message: &str, path: &str, body: &str) -> (r: LogEntry)
        ensures
            r.file@ == self.path_of(Channel::Fatal),
            exists|stamp: Seq<char>|
                is_stamp(stamp, '-', ' ', ':') && r.line@ == #[trigger] log_line("FATAL!"@, path@, message@, body@, stamp),
    {
        self.entry(Channel::Fatal, message, path, body)
    }

    /// The entry that logs a connection event: a `CONNECTION!` line for the connection file.
    pub fn connection_logger(&self, message: &str, path: &str, body: &str) -> (r: LogEntry)
        ensures
            r.file@ == self.path_of(Channel::Connection),
            exists|stamp: Seq<char>|
                is_stamp(stamp, '-', ' ', ':') && r.line@ == #[trigger] log_line("CONNECTION!"@, path@, message@, body@, stamp),
    {
        self.entry(Channel::Connection, message, path, body)
    }
}

/// A log file's path determines both its channel and its stamp: no two
/// channels share a file, and files of one channel differ whenever their stamps
/// do.
pub proof fn lemma_file_path_injective(c: Channel, s: Seq<char>, d: Channel, t: Seq<char>)
    requires
        log_file_path(c, s) == log_file_path(d, t),
    ensures
        c == d,
        s == t,
{
    reveal_strlit("logs");
    reveal_strlit("/");
    reveal_strlit("_");
    reveal_strlit(".log");
    reveal_strlit("warnings");
    reveal_strlit("informations");
    reveal_strlit("errors");
    reveal_strlit("panics");
    reveal_strlit("fatals");
    reveal_strlit("conection");
    let p = log_file_path(c, s);
    let q = log_file_path(d, t);
    assert(p[5] == channel_file_name(c)[0]);
    assert(q[5] == channel_file_name(d)[0]);
    let k = 6 + channel_file_name(c).len() as int;
    assert(p.subrange(k, p.len() - 4) =~= s);
    assert(q.subrange(k, q.len() - 4) =~= t);
}

/// Two loggers whose construction stamps differ share no log file, whatever
/// the channels.
pub proof fn lemma_distinct_stamps_disjoint_files(a: Logger, b: Logger)
    requires
        a.wf(),
        b.wf(),
        a.stamp() != b.stamp(),
    ensures
        forall|c: Channel, d: Channel| #[trigger] a.path_of(c) != #[trigger] b.path_of(d),
{
    assert forall|c: Channel, d: Channel| #[trigger] a.path_of(c) != #[trigger] b.path_of(d) by {
        if a.path_of(c) == b.path_of(d) {
            lemma_file_path_injective(c, a.stamp(), d, b.stamp());
        }
    }
}

/// The panic and fatal channels write the same `FATAL!` line for the same
/// message, each to a file of its own.
pub proof fn lemma_panic_and_fatal_share_tag(
    message: Seq<char>,
    path: Seq<char>,
    body: Seq<char>,
    stamp: Seq<char>,
)
    ensures
        channel_tag(Channel::Panic) == "FATAL!"@,
        channel_tag(Channel::Fatal) == "FATAL!"@,
        log_line(channel_tag(Channel::Panic), path, message, body, stamp) == log_line(
            channel_tag(Channel::Fatal),
            path,
            message,
            body,
            stamp,
        ),
        log_file_path(Channel::Panic, stamp) != log_file_path(Channel::Fatal, stamp),
{
    if log_file_path(Channel::Panic, stamp) == log_file_path(Channel::Fatal, stamp) {
        lemma_file_path_injective(Channel::Panic, stamp, Channel::Fatal, stamp);
    }
}

} // verus!
