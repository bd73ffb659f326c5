//! What the logger decides: which records pass, how a line reads, when
//! the log file rotates and how.
use crate::config::{LogSettings, LogSettingsView};
use crate::decimal::{decimal, push_decimal};
use crate::text::{chars_are, chars_of, chars_to_lower, extend_chars, string_of, to_lower};
use vstd::prelude::*;

verus! {

/// How severe a record is, most severe first.
#[derive(Clone, Copy, PartialEq, Eq, Debug, Structural)]
pub enum Level {
    Error,
    Warn,
    Info,
    Debug,
    Trace,
}

/// Up to which severity records pass.
#[derive(Clone, Copy, PartialEq, Eq, Debug, Structural)]
pub enum LevelFilter {
    Off,
    Error,
    Warn,
    Info,
    Debug,
    Trace,
}

/// The rank of a level: one for errors, up to five for traces.
pub open spec fn level_rank(l: Level) -> int {
    match l {
        Level::Error => 1,
        Level::Warn => 2,
        Level::Info => 3,
        Level::Debug => 4,
        Level::Trace => 5,
    }
}

/// The rank of the least severe level that a filter lets pass; zero where
/// it lets nothing pass.
pub open spec fn filter_rank(f: LevelFilter) -> int {
    match f {
        LevelFilter::Off => 0,
        LevelFilter::Error => 1,
        LevelFilter::Warn => 2,
        LevelFilter::Info => 3,
        LevelFilter::Debug => 4,
        LevelFilter::Trace => 5,
    }
}

/// The filter that a word names, in any case of letters; a word that
/// names none stands for `Info`.
pub open spec fn level_of(value: Seq<char>) -> LevelFilter {
    let v = to_lower(value);
    if v == "off"@ {
        LevelFilter::Off
    } else if v == "error"@ {
        LevelFilter::Error
    } else if v == "warn"@ || v == "warning"@ {
        LevelFilter::Warn
    } else if v == "info"@ {
        LevelFilter::Info
    } else if v == "debug"@ {
        LevelFilter::Debug
    } else if v == "trace"@ {
        LevelFilter::Trace
    } else {
        LevelFilter::Info
    }
}

/// Reads the name of a log level.
pub fn parse_level(value: &str) -> (r: LevelFilter)
    ensures
        r == level_of(value@),
{
    let raw = chars_of(value);
    let v = chars_to_lower(&raw);
    if chars_are(&v, "off") {
        LevelFilter::Off
    } else if chars_are(&v, "error") {
        LevelFilter::Error
    } else if chars_are(&v, "warn") || chars_are(&v, "warning") {
        LevelFilter::Warn
    } else if chars_are(&v, "info") {
        LevelFilter::Info
    } else if chars_are(&v, "debug") {
        LevelFilter::Debug
    } else if chars_are(&v, "trace") {
        LevelFilter::Trace
    } else {
        LevelFilter::Info
    }
}

fn rank_of_level(l: Level) -> (r: u8)
    ensures
        r == level_rank(l),
{
    match l {
        Level::Error => 1,
        Level::Warn => 2,
        Level::Info => 3,
        Level::Debug => 4,
        Level::Trace => 5,
    }
}

fn rank_of_filter(f: LevelFilter) -> (r: u8)
    ensures
        r == filter_rank(f),
{
    match f {
        LevelFilter::Off => 0,
        LevelFilter::Error => 1,
        LevelFilter::Warn => 2,
        LevelFilter::Info => 3,
        LevelFilter::Debug => 4,
        LevelFilter::Trace => 5,
    }
}

/// Whether a record of the level `level` passes the filter.
pub fn enabled(level: Level, filter: LevelFilter) -> (r: bool)
    ensures
        r == (level_rank(level) <= filter_rank(filter)),
{
    rank_of_level(level) <= rank_of_filter(filter)
}

/// How a level is written in a line of the log.
pub open spec fn level_text(l: Level) -> Seq<char> {
    match l {
        Level::Error => "ERROR"@,
        Level::Warn => "WARN"@,
        Level::Info => "INFO"@,
        Level::Debug => "DEBUG"@,
        Level::Trace => "TRACE"@,
    }
}

/// A line of the log: the time in seconds since the epoch between
/// brackets, the level and the message.
pub open spec fn line_text(ts: u64, level: Level, message: Seq<char>) -> Seq<char> {
    "["@ + decimal(ts as nat) + "] "@ + level_text(level) + " "@ + message
}

/// Writes a line of the log.
pub fn format_line(ts: u64, level: Level, message: &str) -> (r: String)
    ensures
        r@ == line_text(ts, level, message@),
{
    let mut out = chars_of("[");
    push_decimal(&mut out, ts);
    let close = chars_of("] ");
    extend_chars(&mut out, &close);
    let name = match level {
        Level::Error => chars_of("ERROR"),
        Level::Warn => chars_of("WARN"),
        Level::Info => chars_of("INFO"),
        Level::Debug => chars_of("DEBUG"),
        Level::Trace => chars_of("TRACE"),
    };
    extend_chars(&mut out, &name);
    let sp = chars_of(" ");
    extend_chars(&mut out, &sp);
    let m = chars_of(message);
    extend_chars(&mut out, &m);
    string_of(&out)
}

/// The least size at which a log file rotates, in bytes.
pub const MIN_ROTATE_SIZE: u64 = 1024;

/// The file that the logger writes to, and when and how it rotates.
#[derive(Debug)]
pub struct FileSink {
    pub path: String,
    pub rotate_size: u64,
    pub rotate_keep: usize,
}

/// What the logger is set up with.
#[derive(Debug)]
pub struct LoggerPlan {
    pub level: LevelFilter,
    pub file: Option<FileSink>,
}

pub struct FileSinkView {
    pub path: Seq<char>,
    pub rotate_size: u64,
    pub rotate_keep: usize,
}

pub struct LoggerPlanView {
    pub level: LevelFilter,
    pub file: Option<FileSinkView>,
}

impl View for FileSink {
    type V = FileSinkView;

    open spec fn view(&self) -> FileSinkView {
        FileSinkView {
            path: self.path@,
            rotate_size: self.rotate_size,
            rotate_keep: self.rotate_keep,
        }
    }
}

impl View for LoggerPlan {
    type V = LoggerPlanView;

    open spec fn view(&self) -> LoggerPlanView {
        LoggerPlanView {
            level: self.level,
            file: match self.file {
                Some(f) => Some(f@),
                None => None,
            },
        }
    }
}

/// What the settings make of the logger: the filter that the level names,
/// and, where logging to a file is enabled, the file, which rotates at the
/// size set but not below the least size.
pub open spec fn logger_plan(s: LogSettingsView) -> LoggerPlanView {
    LoggerPlanView {
        level: level_of(s.level),
        file: if s.file_enabled {
            Some(
                FileSinkView {
                    path: s.file_path,
                    rotate_size: if s.rotate_size < MIN_ROTATE_SIZE {
                        MIN_ROTATE_SIZE
                    } else {
                        s.rotate_size
                    },
                    rotate_keep: s.rotate_keep,
                },
            )
        } else {
            None
        },
    }
}

/// Works out what the logger is to be set up with.
pub fn init(settings: &LogSettings) -> (r: LoggerPlan)
    ensures
        r@ == logger_plan(settings@),
{
    let level = parse_level(settings.level.as_str());
    let file = if settings.file_enabled {
        Some(
            FileSink {
                path: settings.file_path.clone(),
                rotate_size: if settings.rotate_size < MIN_ROTATE_SIZE {
                    MIN_ROTATE_SIZE
                } else {
                    settings.rotate_size
                },
                rotate_keep: settings.rotate_keep,
            },
        )
    } else {
        None
    };
    LoggerPlan { level, file }
}

/// The size that the log file has once a line of `line_len` bytes and its
/// line feed are written to it, or the largest size that can be told.
pub open spec fn size_with_line(current_size: u64, line_len: usize) -> u64 {
    if current_size + line_len + 1 > u64::MAX {
        u64::MAX
    } else {
        (current_size + line_len + 1) as u64
    }
}

/// Whether the log file is to rotate before a line of `line_len` bytes is
/// written to it: archives are kept, and the file with the line would grow
/// beyond the size at which it rotates.
pub open spec fn rotation_due(
    rotate_keep: usize,
    rotate_size: u64,
    current_size: u64,
    line_len: usize,
) -> bool {
    rotate_keep > 0 && size_with_line(current_size, line_len) > rotate_size
}

pub fn needs_rotation(rotate_keep: usize, rotate_size: u64, current_size: u64, line_len: usize)
    -> (r: bool)
    ensures
        r == rotation_due(rotate_keep, rotate_size, current_size, line_len),
{
    let total: u128 = current_size as u128 + line_len as u128 + 1;
    let size: u64 = if total > u64::MAX as u128 {
        u64::MAX
    } else {
        total as u64
    };
    rotate_keep > 0 && size > rotate_size
}

/// One step of a rotation.
#[derive(Debug)]
pub enum FileOp {
    /// Delete the file, if it exists.
    Remove(String),
    /// Rename the file, if it exists.
    Rename { from: String, to: String },
    /// Open the file anew and empty.
    Truncate(String),
}

pub enum FileOpView {
    Remove(Seq<char>),
    Rename { from: Seq<char>, to: Seq<char> },
    Truncate(Seq<char>),
}

impl View for FileOp {
    type V = FileOpView;

    open spec fn view(&self) -> FileOpView {
        match *self {
            FileOp::Remove(p) => FileOpView::Remove(p@),
            FileOp::Rename { from, to } => FileOpView::Rename { from: from@, to: to@ },
            FileOp::Truncate(p) => FileOpView::Truncate(p@),
        }
    }
}

pub open spec fn file_ops(v: Seq<FileOp>) -> Seq<FileOpView> {
    v.map_values(|op: FileOp| op@)
}

/// The name of the archive with the number `idx`.
pub open spec fn archive(path: Seq<char>, idx: nat) -> Seq<char> {
    path + "."@ + decimal(idx)
}

/// The steps of a rotation that keeps `keep` archives. Without archives
/// the file is only emptied. Else the oldest archive is deleted, each
/// other archive moves up by one, from the oldest on, the file becomes the
/// first archive, and the file is opened anew.
pub open spec fn rotation(path: Seq<char>, keep: usize) -> Seq<FileOpView> {
    if keep == 0 {
        seq![FileOpView::Truncate(path)]
    } else {
        Seq::new(
            (keep + 2) as nat,
            |i: int|
                if i == 0 {
                    FileOpView::Remove(archive(path, keep as nat))
                } else if i < keep {
                    FileOpView::Rename {
                        from: archive(path, (keep - i) as nat),
                        to: archive(path, (keep - i + 1) as nat),
                    }
                } else if i == keep {
                    FileOpView::Rename { from: path, to: archive(path, 1) }
                } else {
                    FileOpView::Truncate(path)
                },
        )
    }
}

fn archive_name(path: &str, idx: usize) -> (r: String)
    ensures
        r@ == archive(path@, idx as nat),
{
    let mut out = chars_of(path);
    let dot = chars_of(".");
    extend_chars(&mut out, &dot);
    push_decimal(&mut out, idx as u64);
    string_of(&out)
}

/// Plans the rotation of the log file at `path`.
pub fn rotation_plan(path: &str, keep: usize) -> (r: Vec<FileOp>)
    requires
        keep <= usize::MAX - 2,
    ensures
        file_ops(r@) == rotation(path@, keep),
{
    let mut r: Vec<FileOp> = Vec::new();
    if keep == 0 {
        r.push(FileOp::Truncate(path.to_owned()));
        assert(file_ops(r@) =~= rotation(path@, keep));
        return r;
    }
    r.push(FileOp::Remove(archive_name(path, keep)));
    let mut i: usize = 1;
    while i < keep
        invariant
            1 <= i <= keep <= usize::MAX - 2,
            r.len() == i,
            forall|j: int| 0 <= j < i ==> (#[trigger] r@[j])@ == rotation(path@, keep)[j],
        decreases keep - i,
    {
        let from = archive_name(path, keep - i);
        let to = archive_name(path, keep - i + 1);
        r.push(FileOp::Rename { from, to });
        i += 1;
    }
    r.push(FileOp::Rename { from: path.to_owned(), to: archive_name(path, 1) });
    r.push(FileOp::Truncate(path.to_owned()));
    assert(file_ops(r@) =~= rotation(path@, keep));
    r
}

} // verus!
