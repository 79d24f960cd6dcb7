//! Managed processes: where they keep their files, the scripts that start, probe and cancel
//! them, and what a probe says about one.

use crate::error::HyperboxError;
use crate::ids::hyphenated;
use crate::numbers::{
    decimal, decimal_reads_back_signed, parse_i32, parse_i64, parse_u32, parsed_int, parsed_nat,
};
use crate::process::{ProcessId, ProcessInfo, ProcessModel, ProcessStatus};
use crate::shell::{shell_escape, shell_join, shell_word, shell_words};
use crate::text::{cat2, cat3, cat5, same, starts, starts_with, strip_prefix, without_prefix};
use crate::time::{TimeModel, Timestamp, MAX_SECS};
use vstd::prelude::*;

verus! {

/// How long a finished process is kept where nothing else is asked: a week.
pub const DEFAULT_TTL_DAYS: i64 = 7;

/// How long a process may look lost before it counts as lost.
pub const LOST_GRACE_SECS: u32 = 5;

pub open spec fn dir_of(id: ProcessId) -> Seq<char> {
    ".hyperbox/processes/"@ + hyphenated(id.0)
}

pub fn process_dir(process_id: &ProcessId) -> (r: String)
    ensures
        r@ == dir_of(*process_id),
{
    let id = process_id.text();
    cat2(".hyperbox/processes/", id.as_str())
}

pub fn process_stdout_path(process_id: &ProcessId) -> (r: String)
    ensures
        r@ == dir_of(*process_id) + "/stdout.log"@,
{
    let dir = process_dir(process_id);
    cat2(dir.as_str(), "/stdout.log")
}

pub fn process_stderr_path(process_id: &ProcessId) -> (r: String)
    ensures
        r@ == dir_of(*process_id) + "/stderr.log"@,
{
    let dir = process_dir(process_id);
    cat2(dir.as_str(), "/stderr.log")
}

pub fn process_pid_path(process_id: &ProcessId) -> (r: String)
    ensures
        r@ == dir_of(*process_id) + "/pid"@,
{
    let dir = process_dir(process_id);
    cat2(dir.as_str(), "/pid")
}

pub fn process_exit_code_path(process_id: &ProcessId) -> (r: String)
    ensures
        r@ == dir_of(*process_id) + "/exit_code"@,
{
    let dir = process_dir(process_id);
    cat2(dir.as_str(), "/exit_code")
}

pub fn process_cancel_path(process_id: &ProcessId) -> (r: String)
    ensures
        r@ == dir_of(*process_id) + "/cancelled"@,
{
    let dir = process_dir(process_id);
    cat2(dir.as_str(), "/cancelled")
}

/// The days that a text from the environment asks finished processes to be kept for.
pub open spec fn ttl_days(raw: Option<Seq<char>>) -> int {
    match raw {
        Some(text) => match parsed_int(text, 0x8000_0000_0000_0000, i64::MAX as nat) {
            Ok(days) => if days > 0 {
                days
            } else {
                DEFAULT_TTL_DAYS as int
            },
            Err(_) => DEFAULT_TTL_DAYS as int,
        },
        None => DEFAULT_TTL_DAYS as int,
    }
}

pub fn process_ttl_days(raw: Option<&str>) -> (r: i64)
    ensures
        r == ttl_days(crate::affinity::opt_str(raw)),
        r > 0,
{
    match raw {
        Some(text) => match parse_i64(text) {
            Ok(days) => if days > 0 {
                days
            } else {
                DEFAULT_TTL_DAYS
            },
            Err(_) => DEFAULT_TTL_DAYS,
        },
        None => DEFAULT_TTL_DAYS,
    }
}

/// The end of the time that a process is kept for is a time of the calendar.
pub open spec fn expiry_fits(now: TimeModel, days: i64) -> bool {
    0 <= days && now.secs + days * 86_400 <= MAX_SECS
}

pub fn process_expiry_at(now: Timestamp, days: i64) -> (r: Timestamp)
    requires
        expiry_fits(now@, days),
    ensures
        r@ == now@.days_later(days as int),
{
    now.plus_days(days)
}

/// Milliseconds to wait before a process that is waited for is looked at again.
pub fn process_wait_poll_interval(elapsed_ms: u64) -> (r: u64)
    ensures
        r == (if elapsed_ms < 1000 {
            25u64
        } else {
            100u64
        }),
{
    if elapsed_ms < 1000 {
        25
    } else {
        100
    }
}

/// The command that runs inside the background shell of a process.
pub open spec fn wrapped_command(id: ProcessId, command: Seq<Seq<char>>) -> Seq<char> {
    "export PYTHONUNBUFFERED=1; "@ + shell_words(command)
        + "; code=$?; printf '%s' \"$code\" > "@ + shell_word(dir_of(id) + "/exit_code"@)
        + "; exit \"$code\""@
}

/// The script that starts a process in the background.
pub open spec fn launch_script(id: ProcessId, command: Seq<Seq<char>>) -> Seq<char> {
    "set -eu; base="@ + shell_word(dir_of(id))
        + "; mkdir -p \"$base\"; : > \"$base/stdout.log\"; : > \"$base/stderr.log\"; rm -f \"$base/exit_code\" \"$base/pid\" \"$base/cancelled\"; nohup /bin/sh -lc "@
        + shell_word(wrapped_command(id, command))
        + " >> \"$base/stdout.log\" 2>> \"$base/stderr.log\" </dev/null & pid=$!; printf \"%s\" \"$pid\" > \"$base/pid\""@
}

pub fn process_launch_command(process: &ProcessInfo) -> (r: Result<String, HyperboxError>)
    ensures
        r matches Ok(script) && script@ == launch_script(process.id, process@.command),
{
    let base = process_dir(&process.id);
    let base_word = shell_escape(base.as_str());
    let exit_path = process_exit_code_path(&process.id);
    let exit_word = shell_escape(exit_path.as_str());
    let command = shell_join(&process.command);
    let wrapped = cat5(
        "export PYTHONUNBUFFERED=1; ",
        command.as_str(),
        "; code=$?; printf '%s' \"$code\" > ",
        exit_word.as_str(),
        "; exit \"$code\"",
    );
    let wrapped_word = shell_escape(wrapped.as_str());
    Ok(cat5(
        "set -eu; base=",
        base_word.as_str(),
        "; mkdir -p \"$base\"; : > \"$base/stdout.log\"; : > \"$base/stderr.log\"; rm -f \"$base/exit_code\" \"$base/pid\" \"$base/cancelled\"; nohup /bin/sh -lc ",
        wrapped_word.as_str(),
        " >> \"$base/stdout.log\" 2>> \"$base/stderr.log\" </dev/null & pid=$!; printf \"%s\" \"$pid\" > \"$base/pid\"",
    ))
}

/// The script that says how a process is doing.
pub open spec fn probe_script(id: ProcessId) -> Seq<char> {
    "base="@ + shell_word(dir_of(id))
        + "; if [ -f \"$base/exit_code\" ]; then code=''; IFS= read -r code < \"$base/exit_code\" || [ -n \"$code\" ]; if [ -f \"$base/cancelled\" ]; then printf 'cancelled:%s' \"$code\"; elif [ \"$code\" = '0' ]; then printf 'succeeded:%s' \"$code\"; else printf 'failed:%s' \"$code\"; fi; elif [ -f \"$base/pid\" ]; then pid=''; IFS= read -r pid < \"$base/pid\" || [ -n \"$pid\" ]; if [ -n \"$pid\" ] && kill -0 \"$pid\" 2>/dev/null; then printf 'running:%s' \"$pid\"; elif [ -f \"$base/cancelled\" ]; then printf 'cancelled:'; else printf 'lost'; fi; else printf 'starting'; fi"@
}

pub fn inspect_script(process: &ProcessInfo) -> (r: String)
    ensures
        r@ == probe_script(process.id),
{
    let dir = process_dir(&process.id);
    let base = shell_escape(dir.as_str());
    cat3(
        "base=",
        base.as_str(),
        "; if [ -f \"$base/exit_code\" ]; then code=''; IFS= read -r code < \"$base/exit_code\" || [ -n \"$code\" ]; if [ -f \"$base/cancelled\" ]; then printf 'cancelled:%s' \"$code\"; elif [ \"$code\" = '0' ]; then printf 'succeeded:%s' \"$code\"; else printf 'failed:%s' \"$code\"; fi; elif [ -f \"$base/pid\" ]; then pid=''; IFS= read -r pid < \"$base/pid\" || [ -n \"$pid\" ]; if [ -n \"$pid\" ] && kill -0 \"$pid\" 2>/dev/null; then printf 'running:%s' \"$pid\"; elif [ -f \"$base/cancelled\" ]; then printf 'cancelled:'; else printf 'lost'; fi; else printf 'starting'; fi",
    )
}

/// The script that ends a process and everything that it started.
pub open spec fn kill_script(id: ProcessId) -> Seq<char> {
    "pid_file="@ + shell_word(dir_of(id) + "/pid"@)
        + "; if [ ! -f \"$pid_file\" ]; then exit 0; fi; pid=''; IFS= read -r pid < \"$pid_file\" || [ -n \"$pid\" ] || exit 0; kill_descendants() { target=\"$1\"; if command -v pgrep >/dev/null 2>&1; then for child in $(pgrep -P \"$target\" 2>/dev/null || true); do kill_descendants \"$child\"; done; fi; kill -TERM \"$target\" 2>/dev/null || true; }; kill_descendants_kill() { target=\"$1\"; if command -v pgrep >/dev/null 2>&1; then for child in $(pgrep -P \"$target\" 2>/dev/null || true); do kill_descendants_kill \"$child\"; done; fi; kill -KILL \"$target\" 2>/dev/null || true; }; kill_descendants \"$pid\"; sleep 1; if kill -0 \"$pid\" 2>/dev/null; then kill_descendants_kill \"$pid\"; fi"@
}

pub fn cancel_script(process: &ProcessInfo) -> (r: String)
    ensures
        r@ == kill_script(process.id),
{
    let path = process_pid_path(&process.id);
    let pid_path = shell_escape(path.as_str());
    cat3(
        "pid_file=",
        pid_path.as_str(),
        "; if [ ! -f \"$pid_file\" ]; then exit 0; fi; pid=''; IFS= read -r pid < \"$pid_file\" || [ -n \"$pid\" ] || exit 0; kill_descendants() { target=\"$1\"; if command -v pgrep >/dev/null 2>&1; then for child in $(pgrep -P \"$target\" 2>/dev/null || true); do kill_descendants \"$child\"; done; fi; kill -TERM \"$target\" 2>/dev/null || true; }; kill_descendants_kill() { target=\"$1\"; if command -v pgrep >/dev/null 2>&1; then for child in $(pgrep -P \"$target\" 2>/dev/null || true); do kill_descendants_kill \"$child\"; done; fi; kill -KILL \"$target\" 2>/dev/null || true; }; kill_descendants \"$pid\"; sleep 1; if kill -0 \"$pid\" 2>/dev/null; then kill_descendants_kill \"$pid\"; fi",
    )
}

/// The number that follows a prefix, where it is one.
pub open spec fn code_after(probe: Seq<char>, prefix: Seq<char>) -> Option<i32> {
    match parsed_int(without_prefix(probe, prefix), 0x8000_0000, i32::MAX as nat) {
        Ok(v) => Some(v as i32),
        Err(_) => None,
    }
}

/// The process id that follows `running:`, where it is one.
pub open spec fn pid_after(probe: Seq<char>) -> Option<u32> {
    match parsed_nat(without_prefix(probe, "running:"@), u32::MAX as nat) {
        Ok(v) => Some(v as u32),
        Err(_) => None,
    }
}

/// A process that has ended: the times of its end stay once they are set.
pub open spec fn ended(
    p: ProcessModel,
    status: ProcessStatus,
    exit_code: Option<i32>,
    now: TimeModel,
    expiry: TimeModel,
) -> ProcessModel {
    ProcessModel {
        status,
        exit_code,
        finished_at: Some(p.finished_at.unwrap_or(now)),
        expires_at: Some(p.expires_at.unwrap_or(expiry)),
        ..p
    }
}

/// What a probe's answer makes of a process.
pub open spec fn probed(
    p: ProcessModel,
    probe: Seq<char>,
    now: TimeModel,
    expiry: TimeModel,
) -> ProcessModel {
    if starts(probe, "running:"@) {
        ProcessModel {
            status: ProcessStatus::Running,
            backend_pid: pid_after(probe),
            exit_code: None,
            finished_at: None,
            expires_at: None,
            ..p
        }
    } else if starts(probe, "succeeded:"@) {
        ended(p, ProcessStatus::Succeeded, code_after(probe, "succeeded:"@), now, expiry)
    } else if starts(probe, "failed:"@) {
        ended(p, ProcessStatus::Failed, code_after(probe, "failed:"@), now, expiry)
    } else if starts(probe, "cancelled:"@) {
        ended(p, ProcessStatus::Cancelled, code_after(probe, "cancelled:"@), now, expiry)
    } else if probe == "lost"@ {
        if now.since(p.started_at) < LOST_GRACE_SECS * 1_000_000_000 {
            ProcessModel {
                status: ProcessStatus::Starting,
                exit_code: None,
                finished_at: None,
                expires_at: None,
                ..p
            }
        } else {
            ended(p, ProcessStatus::Lost, p.exit_code, now, expiry)
        }
    } else {
        p
    }
}

/// An answer that a process has ended by: a verdict on its exit, or that it is lost after its
/// time to start.
pub open spec fn tells_end(p: ProcessModel, probe: Seq<char>, now: TimeModel) -> bool {
    !starts(probe, "running:"@) && (starts(probe, "succeeded:"@) || starts(probe, "failed:"@)
        || starts(probe, "cancelled:"@) || (probe == "lost"@ && now.since(
        p.started_at,
    ) >= LOST_GRACE_SECS * 1_000_000_000))
}

pub fn is_end(process: &ProcessInfo, probe: &str, now: &Timestamp) -> (r: bool)
    ensures
        r == tells_end(process@, probe@, now@),
{
    !starts_with(probe, "running:") && (starts_with(probe, "succeeded:") || starts_with(
        probe,
        "failed:",
    ) || starts_with(probe, "cancelled:") || (same(probe, "lost") && !now.less_than_after(
        &process.started_at,
        LOST_GRACE_SECS,
    )))
}

fn end_process(
    process: ProcessInfo,
    status: ProcessStatus,
    exit_code: Option<i32>,
    now: Timestamp,
    days: i64,
) -> (r: ProcessInfo)
    requires
        expiry_fits(now@, days),
    ensures
        r@ == ended(process@, status, exit_code, now@, now@.days_later(days as int)),
{
    let expiry = process_expiry_at(now, days);
    let mut p = process;
    p.status = status;
    p.exit_code = exit_code;
    if p.finished_at.is_none() {
        p.finished_at = Some(now);
    }
    if p.expires_at.is_none() {
        p.expires_at = Some(expiry);
    }
    p
}

fn code_of(text: &str) -> (r: Option<i32>)
    ensures
        r == (match parsed_int(text@, 0x8000_0000, i32::MAX as nat) {
            Ok(v) => Some(v as i32),
            Err(_) => None,
        }),
{
    match parse_i32(text) {
        Ok(v) => Some(v),
        Err(_) => None,
    }
}

pub fn parse_process_probe(process: &ProcessInfo, probe: &str, now: Timestamp, days: i64) -> (r:
    Result<ProcessInfo, HyperboxError>)
    requires
        tells_end(process@, probe@, now@) ==> expiry_fits(now@, days),
    ensures
        r matches Ok(p) && p@ == probed(process@, probe@, now@, now@.days_later(days as int)),
{
    let mut updated = process.clone();
    if let Some(pid) = strip_prefix(probe, "running:") {
        updated.status = ProcessStatus::Running;
        updated.backend_pid = match parse_u32(pid.as_str()) {
            Ok(v) => Some(v),
            Err(_) => None,
        };
        updated.exit_code = None;
        updated.finished_at = None;
        updated.expires_at = None;
        return Ok(updated);
    }
    if let Some(code) = strip_prefix(probe, "succeeded:") {
        let code = code_of(code.as_str());
        return Ok(end_process(updated, ProcessStatus::Succeeded, code, now, days));
    }
    if let Some(code) = strip_prefix(probe, "failed:") {
        let code = code_of(code.as_str());
        return Ok(end_process(updated, ProcessStatus::Failed, code, now, days));
    }
    if let Some(code) = strip_prefix(probe, "cancelled:") {
        let code = code_of(code.as_str());
        return Ok(end_process(updated, ProcessStatus::Cancelled, code, now, days));
    }
    if same(probe, "lost") {
        if now.less_than_after(&updated.started_at, LOST_GRACE_SECS) {
            updated.status = ProcessStatus::Starting;
            updated.exit_code = None;
            updated.finished_at = None;
            updated.expires_at = None;
            return Ok(updated);
        }
        let code = updated.exit_code;
        return Ok(end_process(updated, ProcessStatus::Lost, code, now, days));
    }
    Ok(updated)
}

/// A probe never changes which process it is about: where it runs, what it runs, where its
/// logs are and when it started.
pub proof fn probe_keeps_identity(
    p: ProcessModel,
    probe: Seq<char>,
    now: TimeModel,
    expiry: TimeModel,
)
    ensures
        ({
            let q = probed(p, probe, now, expiry);
            &&& q.id == p.id
            &&& q.sandbox_id == p.sandbox_id
            &&& q.requested_sandbox_id == p.requested_sandbox_id
            &&& q.disposition == p.disposition
            &&& q.destroy_sandbox_on_expiry == p.destroy_sandbox_on_expiry
            &&& q.command == p.command
            &&& q.stdout_path == p.stdout_path
            &&& q.stderr_path == p.stderr_path
            &&& q.started_at == p.started_at
        }),
{
}

/// A process is over after a probe exactly where it has an end and an expiry, provided that
/// this held before.
pub proof fn probe_keeps_ends_consistent(
    p: ProcessModel,
    probe: Seq<char>,
    now: TimeModel,
    expiry: TimeModel,
)
    requires
        p.status.terminal() == (p.finished_at is Some),
        p.status.terminal() == (p.expires_at is Some),
    ensures
        ({
            let q = probed(p, probe, now, expiry);
            &&& q.status.terminal() == (q.finished_at is Some)
            &&& q.status.terminal() == (q.expires_at is Some)
        }),
{
}

/// A second probe with the same answer changes nothing more: the first end that was seen is
/// the one that stays.
pub proof fn probe_answers_settle(
    p: ProcessModel,
    probe: Seq<char>,
    now: TimeModel,
    expiry: TimeModel,
    later: TimeModel,
    later_expiry: TimeModel,
)
    requires
        probe != "lost"@,
    ensures
        probed(probed(p, probe, now, expiry), probe, later, later_expiry) == probed(
            p,
            probe,
            now,
            expiry,
        ),
{
}

/// Finished processes are kept for as many days as the setting says, and for a week where it says
/// none, no days, or less.
pub proof fn settings_say_how_long(n: u32, text: Seq<char>)
    ensures
        n > 0 ==> ttl_days(Some(decimal(n as nat))) == n,
        ttl_days(Some(decimal(0))) == 7,
        ttl_days(None) == 7,
        parsed_int(text, 0x8000_0000_0000_0000, i64::MAX as nat) is Err ==> ttl_days(Some(text))
            == 7,
        ttl_days(Some(text)) > 0,
{
    decimal_reads_back_signed(n as nat, 0x8000_0000_0000_0000, i64::MAX as nat);
    decimal_reads_back_signed(0, 0x8000_0000_0000_0000, i64::MAX as nat);
}

} // verus!
