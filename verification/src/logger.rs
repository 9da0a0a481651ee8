//! Operation and error logging: the levels, the text of each log line, and
//! which old log files to remove. The application writes the lines to the
//! tracing subscriber and to `combined.log`, and removes the files.

use vstd::prelude::*;
use crate::text;

verus! {

broadcast use vstd::string::group_string_axioms;

/// Log levels, most verbose first.
#[derive(Debug, Clone, Copy, PartialEq, Eq, Structural)]
pub enum LogLevel {
    Trace,
    Debug,
    Info,
    Warn,
    Error,
}

/// The level a configured name selects; unknown names select `Info`.
pub open spec fn spec_level_from_name(name: Seq<char>) -> LogLevel {
    if name == "trace"@ {
        LogLevel::Trace
    } else if name == "debug"@ {
        LogLevel::Debug
    } else if name == "info"@ {
        LogLevel::Info
    } else if name == "warn"@ {
        LogLevel::Warn
    } else if name == "error"@ {
        LogLevel::Error
    } else {
        LogLevel::Info
    }
}

/// The level a configured name selects.
pub fn level_from_name(name: &str) -> (r: LogLevel)
    ensures
        r == spec_level_from_name(name@),
{
    if text::str_eq(name, "trace") {
        LogLevel::Trace
    } else if text::str_eq(name, "debug") {
        LogLevel::Debug
    } else if text::str_eq(name, "info") {
        LogLevel::Info
    } else if text::str_eq(name, "warn") {
        LogLevel::Warn
    } else if text::str_eq(name, "error") {
        LogLevel::Error
    } else {
        LogLevel::Info
    }
}

/// The tag of a level in the log file.
pub open spec fn spec_level_tag(level: LogLevel) -> Seq<char> {
    match level {
        LogLevel::Trace => "TRACE"@,
        LogLevel::Debug => "DEBUG"@,
        LogLevel::Info => "INFO"@,
        LogLevel::Warn => "WARN"@,
        LogLevel::Error => "ERROR"@,
    }
}

/// The tag of a level in the log file.
pub fn level_tag(level: LogLevel) -> (r: &'static str)
    ensures
        r@ == spec_level_tag(level),
{
    match level {
        LogLevel::Trace => "TRACE",
        LogLevel::Debug => "DEBUG",
        LogLevel::Info => "INFO",
        LogLevel::Warn => "WARN",
        LogLevel::Error => "ERROR",
    }
}

/// A message to log, with its level.
#[derive(Debug)]
pub struct LogLine {
    pub level: LogLevel,
    pub message: String,
}

/// `[kind] subject: text`.
pub open spec fn spec_tagged(kind: Seq<char>, subject: Seq<char>, body: Seq<char>) -> Seq<char> {
    "["@ + kind + "] "@ + subject + ": "@ + body
}

fn tagged(kind: &str, subject: &str, body: &str) -> (r: String)
    ensures
        r@ == spec_tagged(kind@, subject@, body@),
{
    let mut s = text::concat3("[", kind, "] ");
    s.append(subject);
    s.append(": ");
    s.append(body);
    s
}

/// The line for a user operation.
pub fn log_operation(action: &str, details: &str) -> (r: LogLine)
    ensures
        r.level == LogLevel::Info,
        r.message@ == spec_tagged("操作"@, action@, details@),
{
    LogLine { level: LogLevel::Info, message: tagged("操作", action, details) }
}

/// The line for an error.
pub fn log_error(source: &str, error: &str) -> (r: LogLine)
    ensures
        r.level == LogLevel::Error,
        r.message@ == spec_tagged("错误"@, source@, error@),
{
    LogLine { level: LogLevel::Error, message: tagged("错误", source, error) }
}

/// The line for a debugging message.
pub fn log_debug(category: &str, message: &str) -> (r: LogLine)
    ensures
        r.level == LogLevel::Debug,
        r.message@ == spec_tagged("调试"@, category@, message@),
{
    LogLine { level: LogLevel::Debug, message: tagged("调试", category, message) }
}

/// The line for a warning.
pub fn log_warn(category: &str, message: &str) -> (r: LogLine)
    ensures
        r.level == LogLevel::Warn,
        r.message@ == spec_tagged("警告"@, category@, message@),
{
    LogLine { level: LogLevel::Warn, message: tagged("警告", category, message) }
}

/// A line of the log file: `[timestamp] [LEVEL] message`.
pub open spec fn spec_file_line(timestamp: Seq<char>, level: Seq<char>, message: Seq<char>) -> Seq<char> {
    "["@ + timestamp + "] ["@ + level + "] "@ + message
}

/// A line of the log file, without its line break.
pub fn file_line(timestamp: &str, level: &str, message: &str) -> (r: String)
    ensures
        r@ == spec_file_line(timestamp@, level@, message@),
{
    let mut s = text::concat3("[", timestamp, "] [");
    s.append(level);
    s.append("] ");
    s.append(message);
    s
}

/// A log file grows to at most this size (10 MiB); a line that would take
/// it beyond starts a new file.
pub const LOG_MAX_FILE_BYTES: u64 = 10485760;

/// Whether appending `line_bytes` bytes to a log file of `current_size`
/// bytes must first move the file aside: it is not empty and the line would
/// take it beyond the limit.
pub open spec fn spec_needs_rotation(current_size: u64, line_bytes: u64) -> bool {
    current_size > 0 && current_size + line_bytes > LOG_MAX_FILE_BYTES
}

/// The size of the log file after appending `line_bytes` bytes to one of
/// `current_size` bytes, moving it aside first when needed.
pub open spec fn spec_size_after_append(current_size: u64, line_bytes: u64) -> int {
    if spec_needs_rotation(current_size, line_bytes) { line_bytes as int } else { current_size + line_bytes }
}

/// Whether the log file must be moved aside before the line is appended.
pub fn needs_rotation(current_size: u64, line_bytes: u64) -> (r: bool)
    ensures
        r == spec_needs_rotation(current_size, line_bytes),
{
    current_size > 0 && (line_bytes > LOG_MAX_FILE_BYTES || current_size > LOG_MAX_FILE_BYTES - line_bytes)
}

/// The name a full log file is moved to: `combined-<stamp>.log`, so that the
/// clean-up still counts it.
pub fn rotated_file_name(stamp: &str) -> (r: String)
    ensures
        r@ == "combined-"@ + stamp@ + ".log"@,
{
    text::concat3("combined-", stamp, ".log")
}

/// A log file that was within the limit stays within it after a line that
/// fits in the limit is appended.
pub proof fn law_file_within_cap(current_size: u64, line_bytes: u64)
    requires
        current_size <= LOG_MAX_FILE_BYTES,
        line_bytes <= LOG_MAX_FILE_BYTES,
    ensures
        spec_size_after_append(current_size, line_bytes) <= LOG_MAX_FILE_BYTES,
{
}

/// Log files older than this are removed (seven days, in milliseconds).
pub const LOG_MAX_AGE_MILLIS: u64 = 604800000;

/// Above this total size the oldest log files are removed (100 MiB).
pub const LOG_MAX_TOTAL_BYTES: u64 = 104857600;

/// A `.log` file of the log directory.
#[derive(Clone, Copy)]
pub struct LogFileInfo {
    /// Time since its last modification (0 when that lies in the future).
    pub age_millis: u64,
    /// Its size in bytes.
    pub size: u64,
}

/// Whether a log file is old enough to be removed.
pub open spec fn spec_expired(f: LogFileInfo) -> bool {
    f.age_millis > LOG_MAX_AGE_MILLIS
}

/// The total size of log files.
pub open spec fn spec_total_size(files: Seq<LogFileInfo>) -> int
    decreases files.len(),
{
    if files.len() == 0 {
        0
    } else {
        files[0].size + spec_total_size(files.drop_first())
    }
}

/// The total size of the log files younger than seven days: those that
/// remain once the expired ones are removed.
pub open spec fn spec_live_size(files: Seq<LogFileInfo>) -> int
    decreases files.len(),
{
    if files.len() == 0 {
        0
    } else {
        (if spec_expired(files[0]) { 0 } else { files[0].size as int }) + spec_live_size(files.drop_first())
    }
}

/// Which of the files (oldest first) are removed while the unexpired files
/// still present come to `total` bytes: once that is within the limit only
/// expired files go; before that each file goes, and an unexpired one takes
/// its size off the total (an expired one goes anyway and was never counted).
pub open spec fn spec_trim_plan(files: Seq<LogFileInfo>, total: int) -> Seq<bool>
    decreases files.len(),
{
    if files.len() == 0 {
        seq![]
    } else if total <= LOG_MAX_TOTAL_BYTES {
        files.map_values(|f: LogFileInfo| spec_expired(f))
    } else {
        let rest = if spec_expired(files[0]) { total } else { total - files[0].size };
        seq![true] + spec_trim_plan(files.drop_first(), rest)
    }
}

/// Which log files (oldest first) the clean-up removes.
pub open spec fn spec_log_cleanup(files: Seq<LogFileInfo>) -> Seq<bool> {
    spec_trim_plan(files, spec_live_size(files))
}

proof fn lemma_live_within_total(s: Seq<LogFileInfo>)
    ensures
        0 <= spec_live_size(s) <= spec_total_size(s),
    decreases s.len(),
{
    if s.len() > 0 {
        lemma_live_within_total(s.drop_first());
    }
}

proof fn lemma_live_skip(s: Seq<LogFileInfo>, i: int)
    requires
        0 <= i <= s.len(),
    ensures
        0 <= spec_live_size(s.skip(i)) <= spec_live_size(s),
    decreases i,
{
    if i == 0 {
        assert(s.skip(0) =~= s);
        lemma_live_within_total(s);
    } else {
        lemma_live_skip(s, i - 1);
        assert(s.skip(i - 1).drop_first() =~= s.skip(i));
        lemma_live_within_total(s.skip(i));
    }
}

/// Which log files to remove, given the `.log` files of the directory
/// oldest first: every file older than seven days, and, while the younger
/// files still present together exceed 100 MiB, the oldest of them until
/// they no longer do.
pub fn plan_log_cleanup(files: &Vec<LogFileInfo>) -> (r: Vec<bool>)
    requires
        spec_total_size(files@) <= u64::MAX,
    ensures
        r@ == spec_log_cleanup(files@),
{
    let n = files.len();
    let mut total: u64 = 0;
    let mut j: usize = n;
    while j > 0
        invariant
            j <= n,
            n == files@.len(),
            total == spec_live_size(files@.skip(j as int)),
            spec_total_size(files@) <= u64::MAX,
        decreases j,
    {
        proof {
            lemma_live_skip(files@, j - 1);
            lemma_live_within_total(files@);
            assert(files@.skip(j - 1).drop_first() =~= files@.skip(j as int));
            assert(files@.skip(j - 1)[0] == files@[j - 1]);
        }
        if files[j - 1].age_millis <= LOG_MAX_AGE_MILLIS {
            total = total + files[j - 1].size;
        }
        j = j - 1;
    }
    assert(files@.skip(0) =~= files@);
    let ghost total0: int = total as int;
    let mut out: Vec<bool> = Vec::new();
    let mut i: usize = 0;
    while i < n
        invariant
            i <= n,
            n == files@.len(),
            total >= spec_live_size(files@.skip(i as int)),
            out@ + spec_trim_plan(files@.skip(i as int), total as int) == spec_trim_plan(files@, total0),
        decreases n - i,
    {
        let f = files[i];
        let ghost s = files@.skip(i as int);
        proof {
            assert(s.drop_first() =~= files@.skip(i + 1));
            assert(s[0] == f);
            lemma_live_within_total(s.drop_first());
        }
        let expired = f.age_millis > LOG_MAX_AGE_MILLIS;
        if total <= LOG_MAX_TOTAL_BYTES {
            proof {
                let m = s.map_values(|g: LogFileInfo| spec_expired(g));
                let m2 = s.drop_first().map_values(|g: LogFileInfo| spec_expired(g));
                assert(m =~= seq![expired] + m2);
                assert(out@.push(expired) + spec_trim_plan(s.drop_first(), total as int) =~= out@ + m);
            }
            out.push(expired);
        } else {
            proof {
                let rest = if spec_expired(f) { total as int } else { total - f.size };
                assert(out@.push(true) + spec_trim_plan(s.drop_first(), rest)
                    =~= out@ + (seq![true] + spec_trim_plan(s.drop_first(), rest)));
            }
            out.push(true);
            if !expired {
                total = total - f.size;
            }
        }
        i = i + 1;
    }
    proof {
        assert(files@.skip(n as int) =~= Seq::<LogFileInfo>::empty());
        assert(out@ + Seq::<bool>::empty() =~= out@);
    }
    out
}

/// The size of the files a plan keeps.
pub open spec fn spec_kept_size(files: Seq<LogFileInfo>, removed: Seq<bool>) -> int
    decreases files.len(),
{
    if files.len() == 0 || removed.len() == 0 {
        0
    } else {
        (if removed[0] { 0 } else { files[0].size as int }) + spec_kept_size(files.drop_first(), removed.drop_first())
    }
}

proof fn lemma_expired_plan_keeps_live(files: Seq<LogFileInfo>)
    ensures
        spec_kept_size(files, files.map_values(|f: LogFileInfo| spec_expired(f))) == spec_live_size(files),
        forall|i: int| 0 <= i < files.len() && !files.map_values(|f: LogFileInfo| spec_expired(f))[i]
            ==> !spec_expired(files[i]),
    decreases files.len(),
{
    if files.len() > 0 {
        let m = files.map_values(|f: LogFileInfo| spec_expired(f));
        assert(m.drop_first() =~= files.drop_first().map_values(|f: LogFileInfo| spec_expired(f)));
        lemma_expired_plan_keeps_live(files.drop_first());
    }
}

proof fn lemma_trim_plan(files: Seq<LogFileInfo>, total: int)
    requires
        total == spec_live_size(files),
    ensures
        spec_trim_plan(files, total).len() == files.len(),
        spec_kept_size(files, spec_trim_plan(files, total)) <= LOG_MAX_TOTAL_BYTES,
        forall|i: int| 0 <= i < files.len() && !spec_trim_plan(files, total)[i] ==> !spec_expired(files[i]),
        forall|i: int| 0 <= i < files.len() && #[trigger] spec_trim_plan(files, total)[i] && !spec_expired(files[i])
            ==> spec_live_size(files.skip(i)) > LOG_MAX_TOTAL_BYTES,
    decreases files.len(),
{
    if files.len() == 0 {
    } else if total <= LOG_MAX_TOTAL_BYTES {
        lemma_expired_plan_keeps_live(files);
    } else {
        let rest = if spec_expired(files[0]) { total } else { total - files[0].size };
        lemma_trim_plan(files.drop_first(), rest);
        let p = spec_trim_plan(files, total);
        assert(p.drop_first() =~= spec_trim_plan(files.drop_first(), rest));
        assert forall|i: int| 0 <= i < files.len() && !p[i] implies !spec_expired(files[i]) by {
            if i > 0 {
                assert(p[i] == spec_trim_plan(files.drop_first(), rest)[i - 1]);
                assert(files[i] == files.drop_first()[i - 1]);
            }
        }
        assert forall|i: int| 0 <= i < files.len() && #[trigger] p[i] && !spec_expired(files[i])
            implies spec_live_size(files.skip(i)) > LOG_MAX_TOTAL_BYTES by {
            if i == 0 {
                assert(files.skip(0) =~= files);
            } else {
                assert(p[i] == spec_trim_plan(files.drop_first(), rest)[i - 1]);
                assert(files[i] == files.drop_first()[i - 1]);
                assert(files.drop_first().skip(i - 1) =~= files.skip(i));
            }
        }
    }
}

/// The clean-up keeps no file older than seven days, what it keeps stays
/// within 100 MiB, and it removes a file younger than seven days only while
/// the younger files still present (that one and the newer ones) exceed
/// 100 MiB; when the younger files are within the limit, only the expired
/// ones go.
pub proof fn law_cleanup_within_limits(files: Seq<LogFileInfo>)
    ensures
        spec_log_cleanup(files).len() == files.len(),
        spec_kept_size(files, spec_log_cleanup(files)) <= LOG_MAX_TOTAL_BYTES,
        forall|i: int| 0 <= i < files.len() && !spec_log_cleanup(files)[i] ==> !spec_expired(files[i]),
        forall|i: int| 0 <= i < files.len() && #[trigger] spec_log_cleanup(files)[i] && !spec_expired(files[i])
            ==> spec_live_size(files.skip(i)) > LOG_MAX_TOTAL_BYTES,
        spec_live_size(files) <= LOG_MAX_TOTAL_BYTES
            ==> spec_log_cleanup(files) == files.map_values(|f: LogFileInfo| spec_expired(f)),
{
    lemma_trim_plan(files, spec_live_size(files));
}

} // verus!
