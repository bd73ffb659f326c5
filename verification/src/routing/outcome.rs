//! How the outcome of a run program is read: the result of a command of the
//! operating system and of the control tool, which failures of the control
//! tool pass, and when a failed call is made again.
use crate::decimal::{decimal, push_decimal, push_signed_decimal, signed_decimal};
use crate::text::{
    chars_mention, chars_of, chars_to_lower, contains, extend_chars, slice_of, string_of, strings,
    to_lower, trim, trim_chars,
};
use vstd::prelude::*;

verus! {

/// What running a program gave: either the text of the error that kept it
/// from starting, or how it ended and what it wrote, as text.
#[derive(Debug)]
pub struct ProcessOutput {
    pub launch_error: Option<String>,
    pub success: bool,
    pub code: Option<i32>,
    pub stdout: String,
    pub stderr: String,
}

pub struct ProcessOutputView {
    pub launch_error: Option<Seq<char>>,
    pub success: bool,
    pub code: Option<i32>,
    pub stdout: Seq<char>,
    pub stderr: Seq<char>,
}

impl View for ProcessOutput {
    type V = ProcessOutputView;

    open spec fn view(&self) -> ProcessOutputView {
        ProcessOutputView {
            launch_error: match self.launch_error {
                Some(e) => Some(e@),
                None => None,
            },
            success: self.success,
            code: self.code,
            stdout: self.stdout@,
            stderr: self.stderr@,
        }
    }
}

/// The texts that a result of two strings holds.
pub open spec fn text_result(r: Result<String, String>) -> Result<Seq<char>, Seq<char>> {
    match r {
        Ok(s) => Ok(s@),
        Err(e) => Err(e@),
    }
}

/// How the formatter `{:?}` writes a list of strings: the items between
/// brackets, each between double quotes and with its special characters
/// escaped.
pub uninterp spec fn debug_list(args: Seq<Seq<char>>) -> Seq<char>;

/// Formats the arguments with `format!("{:?}", ..)`. The result depends on
/// the arguments alone; it is named, not spelled out.
#[verifier::external_body]
fn format_debug_list(args: &Vec<String>) -> (r: String)
    ensures
        r@ == debug_list(strings(args@)),
{
    format!("{:?}", args)
}

/// The message for a command that failed: the program, the listing of its
/// arguments, a colon and what went wrong.
pub open spec fn command_error(program: Seq<char>, listing: Seq<char>, detail: Seq<char>) -> Seq<
    char,
> {
    program + " "@ + listing + ": "@ + detail
}

pub fn command_error_text(program: &str, listing: &str, detail: &Vec<char>) -> (r: String)
    ensures
        r@ == command_error(program@, listing@, detail@),
{
    let mut out = chars_of(program);
    let a = chars_of(" ");
    extend_chars(&mut out, &a);
    let b = chars_of(listing);
    extend_chars(&mut out, &b);
    let c = chars_of(": ");
    extend_chars(&mut out, &c);
    extend_chars(&mut out, detail);
    string_of(&out)
}

/// The result of a command of the operating system: what it wrote to its
/// standard output where it ended well, else a message that holds what it
/// wrote to its standard error, trimmed, or why it did not start.
pub open spec fn command_result(
    program: Seq<char>,
    args: Seq<Seq<char>>,
    out: ProcessOutputView,
) -> Result<Seq<char>, Seq<char>> {
    match out.launch_error {
        Some(e) => Err(command_error(program, debug_list(args), e)),
        None => if out.success {
            Ok(out.stdout)
        } else {
            Err(command_error(program, debug_list(args), trim(out.stderr)))
        },
    }
}

/// Reads the outcome of the program `program` run with `args`.
pub fn run_cmd(program: &str, args: &Vec<String>, out: &ProcessOutput) -> (r: Result<
    String,
    String,
>)
    ensures
        text_result(r) == command_result(program@, strings(args@), out@),
{
    match &out.launch_error {
        Some(e) => {
            let listing = format_debug_list(args);
            let detail = chars_of(e.as_str());
            Err(command_error_text(program, listing.as_str(), &detail))
        },
        None => {
            if out.success {
                Ok(out.stdout.clone())
            } else {
                let listing = format_debug_list(args);
                let raw = chars_of(out.stderr.as_str());
                let detail = trim_chars(&raw);
                Err(command_error_text(program, listing.as_str(), &detail))
            }
        },
    }
}

/// What the control tool wrote, on one line: its standard output and its
/// standard error, each trimmed, with a bar between them where both hold
/// text.
pub open spec fn combined_output(out: ProcessOutputView) -> Seq<char> {
    let o = trim(out.stdout);
    let e = trim(out.stderr);
    if o.len() > 0 && e.len() > 0 {
        o + " | "@ + e
    } else if o.len() > 0 {
        o
    } else {
        e
    }
}

/// The exit code to report: that of the tool, or -1 where a signal ended it.
pub open spec fn reported_code(code: Option<i32>) -> int {
    match code {
        Some(c) => c as int,
        None => -1,
    }
}

/// The result of one run of the control tool with the line `cmd`.
pub open spec fn control_result(cmd: Seq<char>, out: ProcessOutputView) -> Result<
    Seq<char>,
    Seq<char>,
> {
    match out.launch_error {
        Some(e) => Err("exec '"@ + cmd + "' error: "@ + e),
        None => if out.success {
            Ok(combined_output(out))
        } else {
            Err(
                "'"@ + cmd + "' exit="@ + signed_decimal(reported_code(out.code)) + " "@
                    + combined_output(out),
            )
        },
    }
}

fn combine_output(out: &ProcessOutput) -> (r: Vec<char>)
    ensures
        r@ == combined_output(out@),
{
    let raw_o = chars_of(out.stdout.as_str());
    let raw_e = chars_of(out.stderr.as_str());
    let o = trim_chars(&raw_o);
    let e = trim_chars(&raw_e);
    if o.len() > 0 && e.len() > 0 {
        let mut r = o;
        let bar = chars_of(" | ");
        extend_chars(&mut r, &bar);
        extend_chars(&mut r, &e);
        r
    } else if o.len() > 0 {
        o
    } else {
        e
    }
}

/// Reads the outcome of one run of the control tool with the line `cmd`.
pub fn ndmc_exec_once(cmd: &str, out: &ProcessOutput) -> (r: Result<String, String>)
    ensures
        text_result(r) == control_result(cmd@, out@),
{
    match &out.launch_error {
        Some(e) => {
            let mut m = chars_of("exec '");
            let c = chars_of(cmd);
            extend_chars(&mut m, &c);
            let mid = chars_of("' error: ");
            extend_chars(&mut m, &mid);
            let tail = chars_of(e.as_str());
            extend_chars(&mut m, &tail);
            Err(string_of(&m))
        },
        None => {
            let combined = combine_output(out);
            if out.success {
                Ok(string_of(&combined))
            } else {
                let code: i32 = match out.code {
                    Some(c) => c,
                    None => -1,
                };
                let mut m = chars_of("'");
                let c = chars_of(cmd);
                extend_chars(&mut m, &c);
                let mid = chars_of("' exit=");
                extend_chars(&mut m, &mid);
                push_signed_decimal(&mut m, code);
                let sp = chars_of(" ");
                extend_chars(&mut m, &sp);
                extend_chars(&mut m, &combined);
                Err(string_of(&m))
            }
        },
    }
}

/// Whether a failure of the control tool is one that passes: its message,
/// in any case of letters, holds one of the known signatures.
pub open spec fn is_transient(message: Seq<char>) -> bool {
    let m = to_lower(message);
    ||| contains(m, "0xcffd0060"@)
    ||| contains(m, "0xcffd009f"@)
    ||| contains(m, "failed to initialize"@)
    ||| contains(m, "unable to find opkgtun0"@)
    ||| contains(m, "temporarily unavailable"@)
}

pub fn is_ndm_transient_error(message: &str) -> (r: bool)
    ensures
        r == is_transient(message@),
{
    let raw = chars_of(message);
    let m = chars_to_lower(&raw);
    chars_mention(&m, "0xcffd0060") || chars_mention(&m, "0xcffd009f") || chars_mention(
        &m,
        "failed to initialize",
    ) || chars_mention(&m, "unable to find opkgtun0") || chars_mention(
        &m,
        "temporarily unavailable",
    )
}

/// How often the control tool is run for one command, at most.
pub const NDM_MAX_ATTEMPTS: u32 = 10;

/// The pause after the first failed attempt, in milliseconds.
pub const NDM_RETRY_BASE_DELAY_MS: u64 = 200;

/// The longest pause between two attempts, in milliseconds.
pub const NDM_RETRY_MAX_DELAY_MS: u64 = 1000;

/// The pause after the failed attempt with the given number: it grows by
/// the base delay with each attempt, up to the cap.
pub open spec fn backoff_ms(attempt: u32) -> u64 {
    if NDM_RETRY_BASE_DELAY_MS * attempt <= NDM_RETRY_MAX_DELAY_MS {
        (NDM_RETRY_BASE_DELAY_MS * attempt) as u64
    } else {
        NDM_RETRY_MAX_DELAY_MS
    }
}

/// What follows one run of the control tool.
#[derive(Clone, Copy, PartialEq, Eq, Debug, Structural)]
pub enum Retry {
    /// The command went through.
    Done,
    /// The command failed in passing: wait, then run it again.
    Again { delay_ms: u64 },
    /// The command failed for good; `transient` tells whether it failed in
    /// passing on the last attempt allowed.
    GiveUp { transient: bool },
}

/// What follows the attempt with the number `attempt`, counted from one,
/// that ended with `result`. A failure is tried again only where it passes
/// and attempts are left.
pub open spec fn retry_decision(attempt: u32, result: Result<Seq<char>, Seq<char>>) -> Retry {
    match result {
        Ok(_) => Retry::Done,
        Err(e) => if is_transient(e) && attempt < NDM_MAX_ATTEMPTS {
            Retry::Again { delay_ms: backoff_ms(attempt) }
        } else {
            Retry::GiveUp { transient: is_transient(e) }
        },
    }
}

/// Decides what follows one run of the control tool.
pub fn ndmc(attempt: u32, result: &Result<String, String>) -> (r: Retry)
    ensures
        r == retry_decision(attempt, text_result(*result)),
{
    match result {
        Ok(_) => Retry::Done,
        Err(e) => {
            let transient = is_ndm_transient_error(e.as_str());
            if transient && attempt < NDM_MAX_ATTEMPTS {
                let scaled: u64 = NDM_RETRY_BASE_DELAY_MS * (attempt as u64);
                let delay: u64 = if scaled <= NDM_RETRY_MAX_DELAY_MS {
                    scaled
                } else {
                    NDM_RETRY_MAX_DELAY_MS
                };
                Retry::Again { delay_ms: delay }
            } else {
                Retry::GiveUp { transient }
            }
        },
    }
}

/// The pause between attempts never exceeds the cap and never shrinks from
/// one attempt to the next; the last attempt allowed is never followed by
/// another.
pub proof fn lemma_retry_bounded(attempt: u32, later: u32, result: Result<Seq<char>, Seq<char>>)
    requires
        attempt <= later,
    ensures
        backoff_ms(attempt) <= backoff_ms(later) <= NDM_RETRY_MAX_DELAY_MS,
        attempt >= NDM_MAX_ATTEMPTS ==> !(retry_decision(attempt, result) is Again),
        result is Err && !is_transient(result->Err_0) ==> retry_decision(attempt, result)
            == (Retry::GiveUp { transient: false }),
{
}

/// Whether a failed probe says that the probing tool itself is missing, so
/// that the probe has to be made in another way.
pub open spec fn tool_missing(error: Seq<char>, os_not_found: bool) -> bool {
    os_not_found || contains(error, "not found"@) || contains(error, "No such file or directory"@)
}

pub fn probe_tool_missing(error: &str, os_not_found: bool) -> (r: bool)
    ensures
        r == tool_missing(error@, os_not_found),
{
    let e = chars_of(error);
    os_not_found || chars_mention(&e, "not found") || chars_mention(
        &e,
        "No such file or directory",
    )
}

/// Whether an HTTP status shows that the far side was reached: any status
/// from 200 up to, not including, 500.
pub open spec fn status_reached(code: u16) -> bool {
    200 <= code < 500
}

pub fn status_reachable(code: u16) -> (r: bool)
    ensures
        r == status_reached(code),
{
    200 <= code && code < 500
}

/// What a probe through the tunnel shows.
#[derive(Clone, Copy, PartialEq, Eq, Debug, Structural)]
pub enum Reach {
    /// Traffic flows.
    Reached,
    /// No traffic flows.
    Unreachable,
    /// The probing tool is missing: the address is to be requested
    /// directly.
    AskDirectly,
}

/// What the outcome of the probing tool shows: traffic flows where the
/// tool ended well; where the tool itself is missing, the address is to be
/// requested directly; any other failure shows that no traffic flows.
pub open spec fn probe_verdict(result: Result<Seq<char>, Seq<char>>, os_not_found: bool) -> Reach {
    match result {
        Ok(_) => Reach::Reached,
        Err(e) => if tool_missing(e, os_not_found) {
            Reach::AskDirectly
        } else {
            Reach::Unreachable
        },
    }
}

/// Tells from the outcome of the probing tool whether traffic flows
/// through the tunnel.
pub fn check_connectivity(result: &Result<String, String>, os_not_found: bool) -> (r: Reach)
    ensures
        r == probe_verdict(text_result(*result), os_not_found),
{
    match result {
        Ok(_) => Reach::Reached,
        Err(e) => {
            if probe_tool_missing(e.as_str(), os_not_found) {
                Reach::AskDirectly
            } else {
                Reach::Unreachable
            }
        },
    }
}

/// What a direct request shows: traffic flows where a reply came whose
/// status shows that the far side was reached.
pub open spec fn direct_verdict(status: Option<u16>) -> bool {
    status is Some && status_reached(status->0)
}

/// Tells from the reply to a direct request whether traffic flows.
pub fn check_connectivity_directly(status: Option<u16>) -> (r: bool)
    ensures
        r == direct_verdict(status),
{
    match status {
        Some(code) => status_reachable(code),
        None => false,
    }
}

/// How many bytes a character takes in UTF-8.
pub open spec fn utf8_width(c: char) -> nat {
    if (c as u32) < 0x80 {
        1
    } else if (c as u32) < 0x800 {
        2
    } else if (c as u32) < 0x10000 {
        3
    } else {
        4
    }
}

/// How many bytes a text takes in UTF-8.
pub open spec fn byte_len(s: Seq<char>) -> nat
    decreases s.len(),
{
    if s.len() == 0 {
        0
    } else {
        byte_len(s.drop_last()) + utf8_width(s.last())
    }
}

/// The index up to which the characters of `s`, from index `i` on, fit
/// into `budget` bytes.
pub open spec fn fit_from(s: Seq<char>, i: int, budget: nat) -> int
    decreases s.len() - i,
{
    if i >= s.len() || utf8_width(s[i]) > budget {
        i
    } else {
        fit_from(s, i + 1, (budget - utf8_width(s[i])) as nat)
    }
}

/// The most bytes of the control tool's output that a log line shows.
pub const SUMMARY_MAX_BYTES: usize = 240;

/// The control tool's output as a log line shows it: trimmed, and where
/// that is longer than 240 bytes, cut to the characters that fit into them,
/// with three dots behind.
pub open spec fn summary(output: Seq<char>) -> Seq<char> {
    let t = trim(output);
    if byte_len(t) > SUMMARY_MAX_BYTES {
        t.take(fit_from(t, 0, SUMMARY_MAX_BYTES as nat)) + "..."@
    } else {
        t
    }
}

fn width_of(c: char) -> (r: usize)
    ensures
        r == utf8_width(c),
{
    let u = c as u32;
    if u < 0x80 {
        1
    } else if u < 0x800 {
        2
    } else if u < 0x10000 {
        3
    } else {
        4
    }
}

fn exceeds(v: &Vec<char>, limit: usize) -> (r: bool)
    ensures
        r == (byte_len(v@) > limit),
{
    let mut total: u128 = 0;
    let mut i: usize = 0;
    assert(v@.take(0) =~= Seq::<char>::empty());
    while i < v.len()
        invariant
            i <= v.len(),
            total == byte_len(v@.take(i as int)),
            total <= 4 * i,
        decreases v.len() - i,
    {
        assert(v@.take(i + 1).drop_last() == v@.take(i as int));
        total = total + width_of(v[i]) as u128;
        i += 1;
    }
    assert(v@.take(v.len() as int) == v@);
    total > limit as u128
}

fn fit(v: &Vec<char>, limit: usize) -> (r: usize)
    ensures
        r == fit_from(v@, 0, limit as nat),
        r <= v.len(),
{
    let mut budget: usize = limit;
    let mut i: usize = 0;
    while i < v.len() && width_of(v[i]) <= budget
        invariant
            i <= v.len(),
            fit_from(v@, 0, limit as nat) == fit_from(v@, i as int, budget as nat),
        decreases v.len() - i,
    {
        budget = budget - width_of(v[i]);
        i += 1;
    }
    i
}

/// Shortens the control tool's output for a log line.
pub fn summarize_ndmc_output(cmd: &str, output: &str) -> (r: String)
    ensures
        r@ == summary(output@),
{
    let raw = chars_of(output);
    let t = trim_chars(&raw);
    if exceeds(&t, SUMMARY_MAX_BYTES) {
        let k = fit(&t, SUMMARY_MAX_BYTES);
        let mut out = slice_of(&t, 0, k);
        let dots = chars_of("...");
        extend_chars(&mut out, &dots);
        string_of(&out)
    } else {
        string_of(&t)
    }
}

/// The log line for one run of the control tool: that the command went
/// through, with what the tool wrote in short, or which attempt failed
/// and how.
pub open spec fn control_log_line(cmd: Seq<char>, attempt: u32, result: Result<Seq<char>, Seq<char>>) -> Seq<char> {
    match result {
        Ok(output) => if summary(output).len() == 0 {
            "[ndmc] ok: "@ + cmd
        } else {
            "[ndmc] ok: "@ + cmd + " ("@ + summary(output) + ")"@
        },
        Err(e) => "[ndmc] attempt "@ + decimal(attempt as nat) + "/"@ + decimal(NDM_MAX_ATTEMPTS as nat)
            + " failed: "@ + e,
    }
}

/// Writes the log line for one run of the control tool.
pub fn ndmc_log_line(cmd: &str, attempt: u32, result: &Result<String, String>) -> (r: String)
    ensures
        r@ == control_log_line(cmd@, attempt, text_result(*result)),
{
    match result {
        Ok(output) => {
            let short = summarize_ndmc_output(cmd, output.as_str());
            let mut out = chars_of("[ndmc] ok: ");
            let c = chars_of(cmd);
            extend_chars(&mut out, &c);
            if !short.as_str().is_empty() {
                let open = chars_of(" (");
                extend_chars(&mut out, &open);
                let body = chars_of(short.as_str());
                extend_chars(&mut out, &body);
                let close = chars_of(")");
                extend_chars(&mut out, &close);
            }
            string_of(&out)
        },
        Err(e) => {
            let mut out = chars_of("[ndmc] attempt ");
            push_decimal(&mut out, attempt as u64);
            let slash = chars_of("/");
            extend_chars(&mut out, &slash);
            push_decimal(&mut out, NDM_MAX_ATTEMPTS as u64);
            let mid = chars_of(" failed: ");
            extend_chars(&mut out, &mid);
            let tail = chars_of(e.as_str());
            extend_chars(&mut out, &tail);
            string_of(&out)
        },
    }
}

} // verus!
