//! Starting a managed process, and reading its logs.

use crate::error::{invalid_config, HyperboxError};
use crate::ids::{hyphenated, is_random_id};
use crate::model::{shell_model, ExecRequest, SandboxId};
use crate::numbers::{decimal, u64_text};
use crate::process::{
    ProcessId, ProcessInfo, ProcessLogRead, ProcessModel, ProcessStatus, StreamName,
};
use crate::server::effects::{
    asks, asks_exec, asks_record, fails, fails_with, Effect, ProcessStart, Reply, Step,
};
use crate::server::managed::{
    dir_of, launch_script, process_expiry_at, process_launch_command, process_stderr_path,
    process_stdout_path,
};
use crate::server::processes::{process_not_found, Clock};
use crate::shell::{shell_escape, shell_word};
use crate::text::{cat2, cat5, trim, trimmed, views};
use crate::time::{TimeModel, Timestamp};
use vstd::prelude::*;
use vstd::utf8::encode_utf8;

verus! {

/// The record of a process that is about to start.
pub open spec fn new_process(id: ProcessId, start: ProcessStart, now: TimeModel) -> ProcessModel {
    ProcessModel {
        id,
        sandbox_id: start.sandbox_id,
        requested_sandbox_id: start.requested_sandbox_id,
        disposition: start.disposition,
        destroy_sandbox_on_expiry: start.destroy_sandbox_on_expiry,
        command: views(start.command@),
        status: ProcessStatus::Starting,
        stdout_path: dir_of(id) + "/stdout.log"@,
        stderr_path: dir_of(id) + "/stderr.log"@,
        backend_pid: None,
        exit_code: None,
        started_at: now,
        finished_at: None,
        expires_at: None,
    }
}

/// The record of a process whose start failed.
pub open spec fn failed_start(p: ProcessModel, exit_code: i32, clock: Clock) -> ProcessModel {
    ProcessModel {
        status: ProcessStatus::Failed,
        exit_code: Some(exit_code),
        finished_at: Some(clock.now@),
        expires_at: Some(clock.expiry()),
        ..p
    }
}

/// The complaint that a sandbox runs a process already.
pub open spec fn sandbox_is_busy(sandbox_id: SandboxId, process_id: ProcessId) -> Seq<char> {
    "sandbox "@ + hyphenated(sandbox_id.0) + " already has a running managed process ("@
        + hyphenated(process_id.0) + ")"@
}

pub fn busy_error(sandbox_id: &SandboxId, process_id: &ProcessId) -> (r: HyperboxError)
    ensures
        r matches HyperboxError::ExecutionFailed(m) && m@ == sandbox_is_busy(
            *sandbox_id,
            *process_id,
        ),
{
    let sandbox = sandbox_id.text();
    let process = process_id.text();
    HyperboxError::ExecutionFailed(
        cat5(
            "sandbox ",
            sandbox.as_str(),
            " already has a running managed process (",
            process.as_str(),
            ")",
        ),
    )
}

/// Starting a managed process.
#[derive(Debug)]
pub enum StartProcess {
    Hydrating(ProcessStart),
    Cleaning(ProcessStart),
    Checking(ProcessStart),
    Recording(ProcessInfo),
    Launching(ProcessInfo),
    SavingFailure(String),
    SavingRunning(ProcessInfo),
    Over,
}

impl StartProcess {
    pub fn begin(start: ProcessStart) -> (r: (Self, Step<ProcessInfo>))
        ensures
            r.0 == StartProcess::Hydrating(start),
            asks(r.1, Effect::EnsureHydrated),
    {
        (StartProcess::Hydrating(start), Step::Ask(Effect::EnsureHydrated))
    }

    /// What a reply leads to. A process is recorded before it is launched, in a sandbox that
    /// runs none; a launch that fails is recorded too, before the failure is reported.
    pub open spec fn follows(
        self,
        reply: Reply,
        clock: Clock,
        next: Self,
        step: Step<ProcessInfo>,
    ) -> bool {
        match (self, reply) {
            (StartProcess::Hydrating(start), Reply::Unit) => next == StartProcess::Cleaning(start)
                && asks(step, Effect::CleanupExpired),
            (StartProcess::Cleaning(start), Reply::Unit) => if start.command@.len() == 0 {
                &&& next is Over
                &&& step matches Step::Done(r)
                &&& invalid_config(r, "managed process command cannot be empty"@)
            } else {
                next == StartProcess::Checking(start) && asks(
                    step,
                    Effect::FindActiveProcess(start.sandbox_id),
                )
            },
            (StartProcess::Checking(start), Reply::Process(existing)) => next is Over
                && fails_with(step, sandbox_is_busy(start.sandbox_id, existing.id)),
            (StartProcess::Checking(start), Reply::NoProcess) => {
                &&& next matches StartProcess::Recording(p)
                &&& is_random_id(p.id.0)
                &&& p@ == new_process(p.id, start, clock.now@)
                &&& asks_record(step, p@)
            },
            (StartProcess::Recording(p), Reply::Unit) => next == StartProcess::Launching(p)
                && asks_exec(step, p.sandbox_id, shell_model(launch_script(p.id, p@.command), 5)),
            (StartProcess::Launching(p), Reply::Outcome(o)) => if o.exit_code != 0 {
                &&& next matches StartProcess::SavingFailure(m)
                &&& m@ == "failed to launch managed process: "@ + trimmed(o.stderr@)
                &&& asks_record(step, failed_start(p@, o.exit_code, clock))
            } else {
                let running = ProcessModel { status: ProcessStatus::Running, ..p@ };
                &&& next matches StartProcess::SavingRunning(q)
                &&& q@ == running
                &&& asks_record(step, running)
            },
            (StartProcess::SavingFailure(m), Reply::Unit) => next is Over && fails_with(step, m@),
            (StartProcess::SavingRunning(p), Reply::Unit) => next is Over && step == Step::<
                ProcessInfo,
            >::Done(Ok(p)),
            (StartProcess::Over, _) => next is Over && step is Stray,
            (_, Reply::Failed(e)) => next is Over && fails(step, e),
            _ => next == self && step is Stray,
        }
    }

    fn record(start: ProcessStart, now: Timestamp) -> (r: ProcessInfo)
        ensures
            is_random_id(r.id.0),
            r@ == new_process(r.id, start, now@),
    {
        let id = ProcessId::new();
        let stdout_path = process_stdout_path(&id);
        let stderr_path = process_stderr_path(&id);
        ProcessInfo {
            id,
            sandbox_id: start.sandbox_id,
            requested_sandbox_id: start.requested_sandbox_id,
            disposition: start.disposition,
            destroy_sandbox_on_expiry: start.destroy_sandbox_on_expiry,
            command: start.command,
            status: ProcessStatus::Starting,
            stdout_path,
            stderr_path,
            backend_pid: None,
            exit_code: None,
            started_at: now,
            finished_at: None,
            expires_at: None,
        }
    }

    /// A reply by which the process has ended: its launch failed.
    pub open spec fn ends(self, reply: Reply) -> bool {
        self is Launching && (reply matches Reply::Outcome(o) && o.exit_code != 0)
    }

    /// Whether a reply says that the launch failed, so that an end is recorded.
    pub fn is_ended_by(&self, reply: &Reply) -> (r: bool)
        ensures
            r == self.ends(*reply),
    {
        match (self, reply) {
            (StartProcess::Launching(_), Reply::Outcome(o)) => o.exit_code != 0,
            _ => false,
        }
    }

    pub fn resume(self, reply: Reply, clock: Clock) -> (r: (Self, Step<ProcessInfo>))
        requires
            self.ends(reply) ==> clock.fits(),
        ensures
            self.follows(reply, clock, r.0, r.1),
    {
        match (self, reply) {
            (StartProcess::Hydrating(start), Reply::Unit) => (
                StartProcess::Cleaning(start),
                Step::Ask(Effect::CleanupExpired),
            ),
            (StartProcess::Cleaning(start), Reply::Unit) => {
                if start.command.len() == 0 {
                    let m = "managed process command cannot be empty".to_owned();
                    return (StartProcess::Over, Step::Done(Err(HyperboxError::InvalidConfig(m))));
                }
                let id = start.sandbox_id;
                (StartProcess::Checking(start), Step::Ask(Effect::FindActiveProcess(id)))
            },
            (StartProcess::Checking(start), Reply::Process(existing)) => (
                StartProcess::Over,
                Step::Done(Err(busy_error(&start.sandbox_id, &existing.id))),
            ),
            (StartProcess::Checking(start), Reply::NoProcess) => {
                let process = Self::record(start, clock.now);
                let copy = process.clone();
                (StartProcess::Recording(process), Step::Ask(Effect::StoreUpsertProcess(copy)))
            },
            (StartProcess::Recording(p), Reply::Unit) => {
                match process_launch_command(&p) {
                    Ok(script) => {
                        let id = p.sandbox_id;
                        (
                            StartProcess::Launching(p),
                            Step::Ask(Effect::Exec(id, ExecRequest::shell(script, 5))),
                        )
                    },
                    Err(e) => (StartProcess::Over, Step::Done(Err(e))),
                }
            },
            (StartProcess::Launching(p), Reply::Outcome(o)) => {
                let mut q = p;
                if o.exit_code != 0 {
                    q.status = ProcessStatus::Failed;
                    q.exit_code = Some(o.exit_code);
                    q.finished_at = Some(clock.now);
                    q.expires_at = Some(process_expiry_at(clock.now, clock.ttl_days));
                    let why = trim(o.stderr.as_str());
                    let m = cat2("failed to launch managed process: ", why.as_str());
                    (StartProcess::SavingFailure(m), Step::Ask(Effect::StoreUpsertProcess(q)))
                } else {
                    q.status = ProcessStatus::Running;
                    let copy = q.clone();
                    (StartProcess::SavingRunning(q), Step::Ask(Effect::StoreUpsertProcess(copy)))
                }
            },
            (StartProcess::SavingFailure(m), Reply::Unit) => (
                StartProcess::Over,
                Step::Done(Err(HyperboxError::ExecutionFailed(m))),
            ),
            (StartProcess::SavingRunning(p), Reply::Unit) => (
                StartProcess::Over,
                Step::Done(Ok(p)),
            ),
            (StartProcess::Over, _) => (StartProcess::Over, Step::Stray),
            (_, Reply::Failed(e)) => (StartProcess::Over, Step::Done(Err(e))),
            (op, _) => (op, Step::Stray),
        }
    }
}

/// A sandbox never runs two managed processes: a busy one is refused, and no command runs in
/// it. A process that is handed out is running.
pub proof fn start_refuses_a_busy_sandbox(
    start: ProcessStart,
    existing: ProcessInfo,
    op: StartProcess,
    reply: Reply,
    clock: Clock,
    next: StartProcess,
    step: Step<ProcessInfo>,
)
    requires
        op.follows(reply, clock, next, step),
    ensures
        op == StartProcess::Checking(start) && reply == Reply::Process(existing) ==> next is Over
            && step matches Step::Done(Err(_)),
        step matches Step::Ask(Effect::Exec(_, _)) ==> op is Recording,
        step matches Step::Done(Ok(p)) ==> op == StartProcess::SavingRunning(p),
{
}

/// The script that prints a part of a log: at most `limit` bytes from an offset on.
pub open spec fn log_script(path: Seq<char>, offset: u64, limit: u64) -> Seq<char> {
    "path="@ + shell_word(path) + "; if [ ! -f \"$path\" ]; then exit 0; fi; tail -c +"@ + decimal(
        (offset + 1) as nat,
    ) + " \"$path\" | head -c "@ + decimal(
        (if limit == 0 {
            1
        } else {
            limit
        }) as nat,
    )
}

/// What is asked of a log.
#[derive(Debug, Clone, Copy, PartialEq, Eq, Structural)]
pub struct LogRange {
    pub process_id: ProcessId,
    pub stream: StreamName,
    pub offset: u64,
    pub limit: u64,
}

/// Reading a part of a log.
#[derive(Debug)]
pub enum ReadProcessLog {
    Hydrating(LogRange),
    Finding(LogRange),
    Measuring(LogRange, ProcessInfo),
    Refreshing(LogRange, ProcessInfo),
    Pausing(LogRange, ProcessInfo),
    MeasuringAgain(LogRange, ProcessInfo),
    Reading(LogRange, u64),
    Over,
}

/// The log of a process that a range speaks of.
pub open spec fn log_path(range: LogRange, p: ProcessModel) -> Seq<char> {
    match range.stream {
        StreamName::Stdout => p.stdout_path,
        StreamName::Stderr => p.stderr_path,
    }
}

/// A read that found nothing.
pub open spec fn empty_read(range: LogRange, step: Step<ProcessLogRead>, eof: bool) -> bool {
    &&& step matches Step::Done(Ok(log))
    &&& log.stream == range.stream
    &&& log.offset == range.offset
    &&& log.next_offset == range.offset
    &&& log.eof == eof
    &&& log.contents@ == Seq::<char>::empty()
}

impl ReadProcessLog {
    pub fn begin(range: LogRange) -> (r: (Self, Step<ProcessLogRead>))
        ensures
            r.0 == ReadProcessLog::Hydrating(range),
            asks(r.1, Effect::EnsureHydrated),
    {
        (ReadProcessLog::Hydrating(range), Step::Ask(Effect::EnsureHydrated))
    }

    /// What a reply leads to. Where the log has nothing new, a process that still runs gets a
    /// moment before the log is measured once more.
    pub open spec fn follows(
        self,
        reply: Reply,
        next: Self,
        step: Step<ProcessLogRead>,
    ) -> bool {
        match (self, reply) {
            (ReadProcessLog::Hydrating(range), Reply::Unit) => next == ReadProcessLog::Finding(
                range,
            ) && asks(step, Effect::StoreGetProcess(range.process_id)),
            (ReadProcessLog::Finding(range), Reply::NoProcess) => next is Over && fails_with(
                step,
                process_not_found(range.process_id),
            ),
            (ReadProcessLog::Finding(range), Reply::Process(p)) => {
                &&& next == ReadProcessLog::Measuring(range, p)
                &&& step matches Step::Ask(Effect::ReadLogSize(id, path))
                &&& id == p.sandbox_id
                &&& path@ == log_path(range, p@)
            },
            (ReadProcessLog::Measuring(range, p), Reply::Size(total)) => if range.offset >= total {
                &&& next == ReadProcessLog::Refreshing(range, p)
                &&& step matches Step::Ask(Effect::Refresh(q))
                &&& q@ == p@
            } else {
                next == ReadProcessLog::Reading(range, total) && asks_exec(
                    step,
                    p.sandbox_id,
                    shell_model(log_script(log_path(range, p@), range.offset, range.limit), 5),
                )
            },
            (ReadProcessLog::Refreshing(range, p), Reply::Process(q)) => if q.status.terminal() {
                next is Over && empty_read(range, step, true)
            } else {
                next == ReadProcessLog::Pausing(range, p) && asks(step, Effect::Pause(50))
            },
            (ReadProcessLog::Pausing(range, p), Reply::Unit) => {
                &&& next == ReadProcessLog::MeasuringAgain(range, p)
                &&& step matches Step::Ask(Effect::ReadLogSize(id, path))
                &&& id == p.sandbox_id
                &&& path@ == log_path(range, p@)
            },
            (ReadProcessLog::MeasuringAgain(range, p), Reply::Size(total)) => if total
                > range.offset {
                next == ReadProcessLog::Reading(range, total) && asks_exec(
                    step,
                    p.sandbox_id,
                    shell_model(log_script(log_path(range, p@), range.offset, range.limit), 5),
                )
            } else {
                next is Over && empty_read(range, step, false)
            },
            (ReadProcessLog::Reading(range, total), Reply::Outcome(o)) => {
                let end = range.offset + encode_utf8(o.stdout@).len();
                &&& next is Over
                &&& step matches Step::Done(Ok(log))
                &&& log.stream == range.stream
                &&& log.offset == range.offset
                &&& log.next_offset == end
                &&& log.eof == (end >= total)
                &&& log.contents == o.stdout
            },
            (ReadProcessLog::Over, _) => next is Over && step is Stray,
            (_, Reply::Failed(e)) => next is Over && fails(step, e),
            _ => next == self && step is Stray,
        }
    }

    /// What was read ends at an offset that can be counted.
    pub open spec fn read_fits(self, reply: Reply) -> bool {
        match (self, reply) {
            (ReadProcessLog::Reading(range, _), Reply::Outcome(o)) => range.offset + encode_utf8(
                o.stdout@,
            ).len() <= u64::MAX,
            _ => true,
        }
    }

    fn path_of(range: &LogRange, p: &ProcessInfo) -> (r: String)
        ensures
            r@ == log_path(*range, p@),
    {
        match range.stream {
            StreamName::Stdout => p.stdout_path.clone(),
            StreamName::Stderr => p.stderr_path.clone(),
        }
    }

    fn read(range: LogRange, p: ProcessInfo, total: u64) -> (r: (Self, Step<ProcessLogRead>))
        requires
            range.offset < total,
        ensures
            r.0 == ReadProcessLog::Reading(range, total),
            asks_exec(
                r.1,
                p.sandbox_id,
                shell_model(log_script(log_path(range, p@), range.offset, range.limit), 5),
            ),
    {
        let path = Self::path_of(&range, &p);
        let word = shell_escape(path.as_str());
        let from = u64_text(range.offset + 1);
        let limit: u64 = if range.limit == 0 {
            1
        } else {
            range.limit
        };
        let count = u64_text(limit);
        let mut script = cat5(
            "path=",
            word.as_str(),
            "; if [ ! -f \"$path\" ]; then exit 0; fi; tail -c +",
            from.as_str(),
            " \"$path\" | head -c ",
        );
        script.push_str(count.as_str());
        (
            ReadProcessLog::Reading(range, total),
            Step::Ask(Effect::Exec(p.sandbox_id, ExecRequest::shell(script, 5))),
        )
    }

    fn nothing(range: LogRange, eof: bool) -> (r: (Self, Step<ProcessLogRead>))
        ensures
            r.0 is Over,
            empty_read(range, r.1, eof),
    {
        (
            ReadProcessLog::Over,
            Step::Done(
                Ok(
                    ProcessLogRead {
                        stream: range.stream,
                        offset: range.offset,
                        next_offset: range.offset,
                        eof,
                        contents: String::new(),
                    },
                ),
            ),
        )
    }

    pub fn resume(self, reply: Reply) -> (r: (Self, Step<ProcessLogRead>))
        requires
            self.read_fits(reply),
        ensures
            self.follows(reply, r.0, r.1),
    {
        match (self, reply) {
            (ReadProcessLog::Hydrating(range), Reply::Unit) => (
                ReadProcessLog::Finding(range),
                Step::Ask(Effect::StoreGetProcess(range.process_id)),
            ),
            (ReadProcessLog::Finding(range), Reply::NoProcess) => {
                let text = range.process_id.text();
                let m = cat2("process not found: ", text.as_str());
                (ReadProcessLog::Over, Step::Done(Err(HyperboxError::ExecutionFailed(m))))
            },
            (ReadProcessLog::Finding(range), Reply::Process(p)) => {
                let path = Self::path_of(&range, &p);
                let id = p.sandbox_id;
                (
                    ReadProcessLog::Measuring(range, p),
                    Step::Ask(Effect::ReadLogSize(id, path)),
                )
            },
            (ReadProcessLog::Measuring(range, p), Reply::Size(total)) => {
                if range.offset >= total {
                    let copy = p.clone();
                    (ReadProcessLog::Refreshing(range, p), Step::Ask(Effect::Refresh(copy)))
                } else {
                    Self::read(range, p, total)
                }
            },
            (ReadProcessLog::Refreshing(range, p), Reply::Process(q)) => {
                if q.status.is_terminal() {
                    Self::nothing(range, true)
                } else {
                    (ReadProcessLog::Pausing(range, p), Step::Ask(Effect::Pause(50)))
                }
            },
            (ReadProcessLog::Pausing(range, p), Reply::Unit) => {
                let path = Self::path_of(&range, &p);
                let id = p.sandbox_id;
                (
                    ReadProcessLog::MeasuringAgain(range, p),
                    Step::Ask(Effect::ReadLogSize(id, path)),
                )
            },
            (ReadProcessLog::MeasuringAgain(range, p), Reply::Size(total)) => {
                if total > range.offset {
                    Self::read(range, p, total)
                } else {
                    Self::nothing(range, false)
                }
            },
            (ReadProcessLog::Reading(range, total), Reply::Outcome(o)) => {
                let contents = o.stdout;
                let next_offset: u64 = range.offset + contents.as_str().as_bytes().len() as u64;
                (
                    ReadProcessLog::Over,
                    Step::Done(
                        Ok(
                            ProcessLogRead {
                                stream: range.stream,
                                offset: range.offset,
                                next_offset,
                                eof: next_offset >= total,
                                contents,
                            },
                        ),
                    ),
                )
            },
            (ReadProcessLog::Over, _) => (ReadProcessLog::Over, Step::Stray),
            (_, Reply::Failed(e)) => (ReadProcessLog::Over, Step::Done(Err(e))),
            (op, _) => (op, Step::Stray),
        }
    }
}

/// A read never goes back: it starts where it was asked to and ends at the bytes that it
/// hands out.
pub proof fn log_reads_move_forward(
    op: ReadProcessLog,
    reply: Reply,
    next: ReadProcessLog,
    step: Step<ProcessLogRead>,
)
    requires
        op.follows(reply, next, step),
    ensures
        step matches Step::Done(Ok(log)) ==> log.next_offset == log.offset + encode_utf8(
            log.contents@,
        ).len(),
{
    assert(encode_utf8(Seq::<char>::empty()).len() == 0);
}

/// How many bytes a range asks for: one at least.
pub open spec fn asked_bytes(limit: u64) -> int {
    if limit == 0 {
        1
    } else {
        limit as int
    }
}

/// The part of a log that its script prints: as much as is asked for and there is, from an
/// offset on. Of a log in ASCII each character is a byte.
pub open spec fn log_part(log: Seq<char>, offset: int, limit: u64) -> Seq<char> {
    if offset >= log.len() {
        Seq::<char>::empty()
    } else if offset + asked_bytes(limit) >= log.len() {
        log.subrange(offset, log.len() as int)
    } else {
        log.subrange(offset, offset + asked_bytes(limit))
    }
}

/// What is read of a whole log from an offset on.
pub open spec fn is_read_of(log: Seq<char>, range: LogRange, r: ProcessLogRead) -> bool {
    &&& r.stream == range.stream
    &&& r.offset == range.offset
    &&& r.contents@ == log_part(log, range.offset as int, range.limit)
    &&& r.next_offset == range.offset + r.contents@.len()
    &&& r.eof == (r.next_offset >= log.len())
}

/// What reading on from where a read ended, until the end of the log, comes to.
pub open spec fn read_on(log: Seq<char>, offset: int, limit: u64) -> Seq<char>
    decreases log.len() - offset,
{
    let part = log_part(log, offset, limit);
    if offset + part.len() >= log.len() || part.len() == 0 {
        part
    } else {
        part + read_on(log, offset + part.len(), limit)
    }
}

/// Reading on until the end gives the whole log, nothing lost and nothing twice, whatever the
/// limit of a read is.
pub proof fn reads_make_the_whole_log(log: Seq<char>, offset: int, limit: u64)
    requires
        0 <= offset <= log.len(),
    ensures
        read_on(log, offset, limit) == log.skip(offset),
        offset == 0 ==> read_on(log, offset, limit) == log,
    decreases log.len() - offset,
{
    let part = log_part(log, offset, limit);
    if offset + part.len() >= log.len() {
        assert(part =~= log.skip(offset));
    } else {
        reads_make_the_whole_log(log, offset + part.len(), limit);
        assert(part + log.skip(offset + part.len()) =~= log.skip(offset));
    }
    assert(log.skip(0) =~= log);
}

/// What some reads hold, one after the other.
pub open spec fn contents_of(reads: Seq<ProcessLogRead>) -> Seq<char>
    decreases reads.len(),
{
    if reads.len() == 0 {
        Seq::<char>::empty()
    } else {
        contents_of(reads.drop_last()) + reads.last().contents@
    }
}

/// A read of a log among others: the first is from its beginning, each other from where the one
/// before ended.
pub open spec fn reads_on_at(
    log: Seq<char>,
    process_id: ProcessId,
    stream: StreamName,
    limit: u64,
    reads: Seq<ProcessLogRead>,
    i: int,
) -> bool {
    let offset = if i == 0 {
        0
    } else {
        reads[i - 1].next_offset
    };
    is_read_of(log, LogRange { process_id, stream, offset, limit }, reads[i])
}

pub open spec fn reads_on(
    log: Seq<char>,
    process_id: ProcessId,
    stream: StreamName,
    limit: u64,
    reads: Seq<ProcessLogRead>,
) -> bool {
    forall|i: int|
        0 <= i < reads.len() ==> #[trigger] reads_on_at(log, process_id, stream, limit, reads, i)
}

proof fn reads_come_along(
    log: Seq<char>,
    process_id: ProcessId,
    stream: StreamName,
    limit: u64,
    reads: Seq<ProcessLogRead>,
)
    requires
        reads_on(log, process_id, stream, limit, reads),
        reads.len() > 0,
    ensures
        reads.last().next_offset <= log.len(),
        contents_of(reads) == log.take(reads.last().next_offset as int),
    decreases reads.len(),
{
    let n = reads.len() as int;
    let last = reads.last();
    let before = reads.drop_last();
    assert(reads_on_at(log, process_id, stream, limit, reads, n - 1));
    if before.len() == 0 {
        assert(contents_of(before) =~= log.take(0));
    } else {
        assert forall|i: int| 0 <= i < before.len() implies #[trigger] reads_on_at(
            log,
            process_id,
            stream,
            limit,
            before,
            i,
        ) by {
            assert(reads_on_at(log, process_id, stream, limit, reads, i));
        }
        reads_come_along(log, process_id, stream, limit, before);
    }
    let offset = last.offset as int;
    assert(log.take(offset) + last.contents@ =~= log.take(last.next_offset as int));
}

/// Reading on from where each read ended, until one says that it has come to the end, gives the
/// whole log: nothing is lost, and nothing comes twice.
pub proof fn reading_on_gives_the_whole_log(
    log: Seq<char>,
    process_id: ProcessId,
    stream: StreamName,
    limit: u64,
    reads: Seq<ProcessLogRead>,
)
    requires
        reads_on(log, process_id, stream, limit, reads),
        reads.len() > 0,
        reads.last().eof,
    ensures
        contents_of(reads) == log,
{
    reads_come_along(log, process_id, stream, limit, reads);
    assert(reads_on_at(log, process_id, stream, limit, reads, reads.len() - 1));
    assert(log.take(log.len() as int) =~= log);
}

} // verus!
