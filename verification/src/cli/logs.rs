//! The output of a managed process, read piece by piece.

use crate::cli::fault::Fault;
use crate::process::{ProcessId, ProcessInfo, ProcessLogRead, StreamName};
use crate::server::launch::{is_read_of, log_part, LogRange};
use crate::text::cat2;
use vstd::prelude::*;

verus! {

/// How much is read at a time, in bytes.
pub const CHUNK_BYTES: u64 = 8192;

/// How long to wait between two looks at a process that runs, in milliseconds.
pub const FOLLOW_PAUSE_MS: u64 = 100;

/// What is asked for while output is read.
#[derive(Debug, PartialEq, Eq)]
pub enum LogEffect {
    /// Read from a stream, from this place on, at most so many bytes.
    Read(ProcessId, StreamName, u64, u64),
    Status(ProcessId),
    Pause(u64),
}

/// What came of it.
#[derive(Debug)]
pub enum LogReply {
    Chunk(ProcessLogRead),
    Process(ProcessInfo),
    Unit,
    Failed(Fault),
}

/// How far a stream was read, and what it held so far.
#[derive(Debug, PartialEq, Eq)]
pub struct Gathered {
    pub offset: u64,
    pub contents: String,
}

impl Gathered {
    pub fn new() -> (r: Self)
        ensures
            r.offset == 0,
            r.contents@ == Seq::<char>::empty(),
    {
        Gathered { offset: 0, contents: String::new() }
    }

    /// The stream with one more piece.
    pub open spec fn with(self, piece: ProcessLogRead, next: Gathered) -> bool {
        &&& next.contents@ == self.contents@ + piece.contents@
        &&& next.offset == (if piece.contents@.len() == 0 {
            self.offset
        } else {
            piece.next_offset
        })
    }

    fn add(self, piece: &ProcessLogRead) -> (r: Self)
        ensures
            self.with(*piece, r),
    {
        let empty = is_empty(&piece.contents);
        Gathered {
            offset: if empty {
                self.offset
            } else {
                piece.next_offset
            },
            contents: cat2(self.contents.as_str(), piece.contents.as_str()),
        }
    }
}

fn is_empty(s: &String) -> (r: bool)
    ensures
        r == (s@.len() == 0),
{
    crate::text::chars_of(s.as_str()).len() == 0
}

#[derive(Debug)]
pub enum LogStep<T> {
    Ask(LogEffect),
    Done(Result<T, Fault>),
    Stray,
}

pub open spec fn asks_read<T>(
    step: LogStep<T>,
    process: ProcessId,
    stream: StreamName,
    offset: u64,
) -> bool {
    step == LogStep::<T>::Ask(LogEffect::Read(process, stream, offset, CHUNK_BYTES))
}

/// The reading of a whole stream.
#[derive(Debug)]
pub enum ReadLogAll {
    Reading(ProcessId, StreamName, Gathered),
    Over,
}

impl ReadLogAll {
    /// Nothing was read, and the stream is read from its first byte.
    pub open spec fn begins(
        process: ProcessId,
        stream: StreamName,
        state: Self,
        step: LogStep<String>,
    ) -> bool {
        &&& state matches ReadLogAll::Reading(p, s, g)
        &&& p == process
        &&& s == stream
        &&& g.offset == 0
        &&& g.contents@ == Seq::<char>::empty()
        &&& asks_read(step, process, stream, 0)
    }

    pub fn begin(process: ProcessId, stream: StreamName) -> (r: (Self, LogStep<String>))
        ensures
            Self::begins(process, stream, r.0, r.1),
    {
        (
            ReadLogAll::Reading(process, stream, Gathered::new()),
            LogStep::Ask(LogEffect::Read(process, stream, 0, CHUNK_BYTES)),
        )
    }

    /// What a reply leads to: pieces are put together up to the one that is the last.
    pub open spec fn follows(self, reply: LogReply, next: Self, step: LogStep<String>) -> bool {
        match (self, reply) {
            (ReadLogAll::Over, _) => next is Over && step is Stray,
            (ReadLogAll::Reading(process, stream, gathered), LogReply::Chunk(piece)) => if piece.eof {
                next is Over && (step matches LogStep::Done(Ok(all)) && all@ == gathered.contents@
                    + piece.contents@)
            } else {
                (next matches ReadLogAll::Reading(p, s, g) && p == process && s == stream
                    && gathered.with(piece, g)) && asks_read(
                    step,
                    process,
                    stream,
                    if piece.contents@.len() == 0 {
                        gathered.offset
                    } else {
                        piece.next_offset
                    },
                )
            },
            (_, LogReply::Failed(f)) => next is Over && step == LogStep::<String>::Done(Err(f)),
            _ => next == self && step is Stray,
        }
    }

    pub fn resume(self, reply: LogReply) -> (r: (Self, LogStep<String>))
        ensures
            self.follows(reply, r.0, r.1),
    {
        match (self, reply) {
            (ReadLogAll::Over, _) => (ReadLogAll::Over, LogStep::Stray),
            (ReadLogAll::Reading(process, stream, gathered), LogReply::Chunk(piece)) => {
                let more = gathered.add(&piece);
                if piece.eof {
                    (ReadLogAll::Over, LogStep::Done(Ok(more.contents)))
                } else {
                    let offset: u64 = more.offset;
                    (
                        ReadLogAll::Reading(process, stream, more),
                        LogStep::Ask(LogEffect::Read(process, stream, offset, CHUNK_BYTES)),
                    )
                }
            },
            (_, LogReply::Failed(f)) => (ReadLogAll::Over, LogStep::Done(Err(f))),
            (state, _) => (state, LogStep::Stray),
        }
    }
}

/// The output of a process.
#[derive(Debug, PartialEq, Eq)]
pub struct ProcessLogs {
    pub stdout: String,
    pub stderr: String,
}

/// A process whose output is followed.
#[derive(Debug, PartialEq, Eq)]
pub struct Followed {
    pub process: ProcessId,
    pub stop_on_exit: bool,
    pub stdout: Gathered,
    pub stderr: Gathered,
}

impl Followed {
    /// Both streams were gathered from their first character on.
    pub open spec fn from(self, whole: Written, stop_on_exit: bool) -> bool {
        &&& self.stop_on_exit == stop_on_exit
        &&& gathered_from(self.stdout, whole.stdout)
        &&& gathered_from(self.stderr, whole.stderr)
    }

    pub open spec fn with_out(self, piece: ProcessLogRead, next: Followed) -> bool {
        &&& next.process == self.process
        &&& next.stop_on_exit == self.stop_on_exit
        &&& self.stdout.with(piece, next.stdout)
        &&& next.stderr == self.stderr
    }

    pub open spec fn with_err(self, piece: ProcessLogRead, next: Followed) -> bool {
        &&& next.process == self.process
        &&& next.stop_on_exit == self.stop_on_exit
        &&& next.stdout == self.stdout
        &&& self.stderr.with(piece, next.stderr)
    }
}

/// The following of the output of a process.
#[derive(Debug)]
pub enum StreamLogs {
    ReadingOut(Followed),
    ReadingErr(Followed),
    Checking(Followed),
    Pausing(Followed),
    DrainingOut(Followed),
    DrainingErr(Followed),
    Over,
}

/// What happens next: first this is shown, then that is asked for.
#[derive(Debug)]
pub struct FollowStep {
    pub shown: Option<(StreamName, String)>,
    pub ask: LogStep<ProcessLogs>,
}

impl FollowStep {
    /// What is shown of a piece: the piece, unless it is empty.
    pub open spec fn shows(self, stream: StreamName, piece: ProcessLogRead) -> bool {
        if piece.contents@.len() == 0 {
            self.shown is None
        } else {
            self.shown == Some((stream, piece.contents))
        }
    }
}

fn show(stream: StreamName, piece: ProcessLogRead) -> (r: Option<(StreamName, String)>)
    ensures
        if piece.contents@.len() == 0 {
            r is None
        } else {
            r == Some((stream, piece.contents))
        },
{
    if is_empty(&piece.contents) {
        None
    } else {
        Some((stream, piece.contents))
    }
}

fn ask_read(f: &Followed, stream: StreamName) -> (r: LogStep<ProcessLogs>)
    ensures
        asks_read(
            r,
            f.process,
            stream,
            match stream {
                StreamName::Stdout => f.stdout.offset,
                StreamName::Stderr => f.stderr.offset,
            },
        ),
{
    let offset: u64 = match stream {
        StreamName::Stdout => f.stdout.offset,
        StreamName::Stderr => f.stderr.offset,
    };
    LogStep::Ask(LogEffect::Read(f.process, stream, offset, CHUNK_BYTES))
}

impl StreamLogs {
    /// Nothing of either stream was read, and the first of them is read from its first byte.
    pub open spec fn begins(
        process: ProcessId,
        stop_on_exit: bool,
        state: Self,
        step: FollowStep,
    ) -> bool {
        &&& state matches StreamLogs::ReadingOut(f)
        &&& f.process == process
        &&& f.stop_on_exit == stop_on_exit
        &&& f.stdout.offset == 0
        &&& f.stdout.contents@ == Seq::<char>::empty()
        &&& f.stderr.offset == 0
        &&& f.stderr.contents@ == Seq::<char>::empty()
        &&& step.shown is None
        &&& asks_read(step.ask, process, StreamName::Stdout, 0)
    }

    pub fn begin(process: ProcessId, stop_on_exit: bool) -> (r: (Self, FollowStep))
        ensures
            Self::begins(process, stop_on_exit, r.0, r.1),
    {
        let f = Followed {
            process,
            stop_on_exit,
            stdout: Gathered::new(),
            stderr: Gathered::new(),
        };
        let ask = ask_read(&f, StreamName::Stdout);
        (StreamLogs::ReadingOut(f), FollowStep { shown: None, ask })
    }

    /// What a reply leads to. Both streams are read in turn while the process runs; once it is
    /// over, what is left of them is read first, if that is asked for.
    pub open spec fn follows(self, reply: LogReply, next: Self, step: FollowStep) -> bool {
        match (self, reply) {
            (StreamLogs::Over, _) => next is Over && step.shown is None && step.ask is Stray,
            (StreamLogs::ReadingOut(f), LogReply::Chunk(piece)) => {
                &&& next matches StreamLogs::ReadingErr(g)
                &&& f.with_out(piece, g)
                &&& step.shows(StreamName::Stdout, piece)
                &&& asks_read(step.ask, f.process, StreamName::Stderr, f.stderr.offset)
            },
            (StreamLogs::ReadingErr(f), LogReply::Chunk(piece)) => {
                &&& next matches StreamLogs::Checking(g)
                &&& f.with_err(piece, g)
                &&& step.shows(StreamName::Stderr, piece)
                &&& step.ask == LogStep::<ProcessLogs>::Ask(LogEffect::Status(f.process))
            },
            (StreamLogs::Checking(f), LogReply::Process(p)) => step.shown is None
                && if !p.status.terminal() {
                next == StreamLogs::Pausing(f) && step.ask == LogStep::<ProcessLogs>::Ask(
                    LogEffect::Pause(FOLLOW_PAUSE_MS),
                )
            } else if f.stop_on_exit {
                next == StreamLogs::DrainingOut(f) && asks_read(
                    step.ask,
                    f.process,
                    StreamName::Stdout,
                    f.stdout.offset,
                )
            } else {
                next is Over && Self::hands_out(f, step)
            },
            (StreamLogs::Pausing(f), LogReply::Unit) => next == StreamLogs::ReadingOut(f)
                && step.shown is None && asks_read(
                step.ask,
                f.process,
                StreamName::Stdout,
                f.stdout.offset,
            ),
            (StreamLogs::DrainingOut(f), LogReply::Chunk(piece)) => step.shows(
                StreamName::Stdout,
                piece,
            ) && if piece.contents@.len() == 0 || piece.eof {
                (next matches StreamLogs::DrainingErr(g) && f.with_out(piece, g)) && asks_read(
                    step.ask,
                    f.process,
                    StreamName::Stderr,
                    f.stderr.offset,
                )
            } else {
                (next matches StreamLogs::DrainingOut(g) && f.with_out(piece, g)) && asks_read(
                    step.ask,
                    f.process,
                    StreamName::Stdout,
                    piece.next_offset,
                )
            },
            (StreamLogs::DrainingErr(f), LogReply::Chunk(piece)) => step.shows(
                StreamName::Stderr,
                piece,
            ) && if piece.contents@.len() == 0 || piece.eof {
                next is Over && (step.ask matches LogStep::Done(Ok(logs)) && logs.stdout
                    == f.stdout.contents && logs.stderr@ == f.stderr.contents@ + piece.contents@)
            } else {
                (next matches StreamLogs::DrainingErr(g) && f.with_err(piece, g)) && asks_read(
                    step.ask,
                    f.process,
                    StreamName::Stderr,
                    piece.next_offset,
                )
            },
            (_, LogReply::Failed(f)) => next is Over && step.shown is None && step.ask == LogStep::<
                ProcessLogs,
            >::Done(Err(f)),
            _ => next == self && step.shown is None && step.ask is Stray,
        }
    }

    /// All that was read is handed out.
    pub open spec fn hands_out(f: Followed, step: FollowStep) -> bool {
        step.ask matches LogStep::Done(Ok(logs)) && logs.stdout == f.stdout.contents && logs.stderr
            == f.stderr.contents
    }

    pub fn resume(self, reply: LogReply) -> (r: (Self, FollowStep))
        ensures
            self.follows(reply, r.0, r.1),
    {
        match (self, reply) {
            (StreamLogs::Over, _) => (
                StreamLogs::Over,
                FollowStep { shown: None, ask: LogStep::Stray },
            ),
            (StreamLogs::ReadingOut(f), LogReply::Chunk(piece)) => {
                let g = Followed {
                    process: f.process,
                    stop_on_exit: f.stop_on_exit,
                    stdout: f.stdout.add(&piece),
                    stderr: f.stderr,
                };
                let ask = ask_read(&g, StreamName::Stderr);
                let shown = show(StreamName::Stdout, piece);
                (StreamLogs::ReadingErr(g), FollowStep { shown, ask })
            },
            (StreamLogs::ReadingErr(f), LogReply::Chunk(piece)) => {
                let g = Followed {
                    process: f.process,
                    stop_on_exit: f.stop_on_exit,
                    stdout: f.stdout,
                    stderr: f.stderr.add(&piece),
                };
                let ask = LogStep::Ask(LogEffect::Status(g.process));
                let shown = show(StreamName::Stderr, piece);
                (StreamLogs::Checking(g), FollowStep { shown, ask })
            },
            (StreamLogs::Checking(f), LogReply::Process(p)) => {
                if !p.status.is_terminal() {
                    (
                        StreamLogs::Pausing(f),
                        FollowStep {
                            shown: None,
                            ask: LogStep::Ask(LogEffect::Pause(FOLLOW_PAUSE_MS)),
                        },
                    )
                } else if f.stop_on_exit {
                    let ask = ask_read(&f, StreamName::Stdout);
                    (StreamLogs::DrainingOut(f), FollowStep { shown: None, ask })
                } else {
                    let logs = ProcessLogs {
                        stdout: f.stdout.contents,
                        stderr: f.stderr.contents,
                    };
                    (
                        StreamLogs::Over,
                        FollowStep { shown: None, ask: LogStep::Done(Ok(logs)) },
                    )
                }
            },
            (StreamLogs::Pausing(f), LogReply::Unit) => {
                let ask = ask_read(&f, StreamName::Stdout);
                (StreamLogs::ReadingOut(f), FollowStep { shown: None, ask })
            },
            (StreamLogs::DrainingOut(f), LogReply::Chunk(piece)) => {
                let last = is_empty(&piece.contents) || piece.eof;
                let g = Followed {
                    process: f.process,
                    stop_on_exit: f.stop_on_exit,
                    stdout: f.stdout.add(&piece),
                    stderr: f.stderr,
                };
                let shown = show(StreamName::Stdout, piece);
                if last {
                    let ask = ask_read(&g, StreamName::Stderr);
                    (StreamLogs::DrainingErr(g), FollowStep { shown, ask })
                } else {
                    let ask = ask_read(&g, StreamName::Stdout);
                    (StreamLogs::DrainingOut(g), FollowStep { shown, ask })
                }
            },
            (StreamLogs::DrainingErr(f), LogReply::Chunk(piece)) => {
                let last = is_empty(&piece.contents) || piece.eof;
                let g = Followed {
                    process: f.process,
                    stop_on_exit: f.stop_on_exit,
                    stdout: f.stdout,
                    stderr: f.stderr.add(&piece),
                };
                let shown = show(StreamName::Stderr, piece);
                if last {
                    let logs = ProcessLogs {
                        stdout: g.stdout.contents,
                        stderr: g.stderr.contents,
                    };
                    (StreamLogs::Over, FollowStep { shown, ask: LogStep::Done(Ok(logs)) })
                } else {
                    let ask = ask_read(&g, StreamName::Stderr);
                    (StreamLogs::DrainingErr(g), FollowStep { shown, ask })
                }
            },
            (_, LogReply::Failed(f)) => (
                StreamLogs::Over,
                FollowStep { shown: None, ask: LogStep::Done(Err(f)) },
            ),
            (state, _) => (state, FollowStep { shown: None, ask: LogStep::Stray }),
        }
    }

    /// What was gathered so far, of both streams.
    pub open spec fn gathered(self) -> Option<(Seq<char>, Seq<char>)> {
        match self {
            StreamLogs::ReadingOut(f)
            | StreamLogs::ReadingErr(f)
            | StreamLogs::Checking(f)
            | StreamLogs::Pausing(f)
            | StreamLogs::DrainingOut(f)
            | StreamLogs::DrainingErr(f) => Some((f.stdout.contents@, f.stderr.contents@)),
            StreamLogs::Over => None,
        }
    }
}

/// What is shown in a step, of one stream.
pub open spec fn shown_of(step: FollowStep, stream: StreamName) -> Seq<char> {
    match step.shown {
        Some((s, text)) if s == stream => text@,
        _ => Seq::<char>::empty(),
    }
}

/// What is handed out in the end is what was shown on the way, piece after piece, nothing less
/// and nothing more.
pub proof fn output_is_shown_once(state: StreamLogs, reply: LogReply, next: StreamLogs, step: FollowStep)
    requires
        state.follows(reply, next, step),
        state.gathered() is Some,
    ensures
        next.gathered() matches Some(g) ==> {
            &&& g.0 == state.gathered().unwrap().0 + shown_of(step, StreamName::Stdout)
            &&& g.1 == state.gathered().unwrap().1 + shown_of(step, StreamName::Stderr)
        },
        step.ask matches LogStep::Done(Ok(logs)) ==> {
            &&& logs.stdout@ == state.gathered().unwrap().0 + shown_of(step, StreamName::Stdout)
            &&& logs.stderr@ == state.gathered().unwrap().1 + shown_of(step, StreamName::Stderr)
        },
{
    let g = state.gathered().unwrap();
    assert(g.0 + Seq::<char>::empty() =~= g.0);
    assert(g.1 + Seq::<char>::empty() =~= g.1);
    if let LogReply::Chunk(piece) = reply {
        if piece.contents@.len() == 0 {
            assert(piece.contents@ =~= Seq::<char>::empty());
        }
    }
}

/// What is shown in some steps, of one stream.
pub open spec fn shown_in(steps: Seq<FollowStep>, stream: StreamName) -> Seq<char>
    decreases steps.len(),
{
    if steps.len() == 0 {
        Seq::<char>::empty()
    } else {
        shown_in(steps.drop_last(), stream) + shown_of(steps.last(), stream)
    }
}

/// What a process has written.
pub struct Written {
    pub stdout: Seq<char>,
    pub stderr: Seq<char>,
}

impl Written {
    pub open spec fn of(self, stream: StreamName) -> Seq<char> {
        match stream {
            StreamName::Stdout => self.stdout,
            StreamName::Stderr => self.stderr,
        }
    }

    /// More may have been written later.
    pub open spec fn grows_to(self, later: Written) -> bool {
        self.stdout.is_prefix_of(later.stdout) && self.stderr.is_prefix_of(later.stderr)
    }
}

/// A step asks for something, and the reply is true to what was written by then.
pub open spec fn is_answered<T>(step: LogStep<T>, reply: LogReply, written: Written) -> bool {
    match step {
        LogStep::Ask(LogEffect::Read(process_id, stream, offset, limit)) => {
            &&& reply matches LogReply::Chunk(piece)
            &&& is_read_of(
                written.of(stream),
                LogRange { process_id, stream, offset, limit },
                piece,
            )
        },
        LogStep::Ask(LogEffect::Status(_)) => reply is Process,
        LogStep::Ask(LogEffect::Pause(_)) => reply is Unit,
        _ => false,
    }
}

/// This much of a stream was gathered, from its first character on.
pub open spec fn gathered_from(g: Gathered, whole: Seq<char>) -> bool {
    g.offset <= whole.len() && g.contents@ == whole.take(g.offset as int)
}

proof fn piece_is_added(
    g: Gathered,
    written: Seq<char>,
    whole: Seq<char>,
    range: LogRange,
    piece: ProcessLogRead,
)
    requires
        gathered_from(g, whole),
        range.offset == g.offset,
        written.is_prefix_of(whole),
        is_read_of(written, range, piece),
    ensures
        ({
            let more = g.contents@ + piece.contents@;
            &&& more.len() <= whole.len()
            &&& more == whole.take(more.len() as int)
            &&& more.len() == g.offset + piece.contents@.len()
            &&& piece.next_offset == more.len()
            &&& written == whole && (piece.eof || piece.contents@.len() == 0) ==> more == whole
        }),
{
    let offset = g.offset as int;
    let part = log_part(written, offset, range.limit);
    assert(written =~= whole.take(written.len() as int));
    if part.len() > 0 {
        assert(part =~= whole.subrange(offset, offset + part.len()));
    }
    assert(whole.take(offset) + part =~= whole.take(offset + part.len()));
    assert(whole.take(whole.len() as int) =~= whole);
}

/// The following of a process from its beginning to its end: the states and steps that follow
/// from each other by the replies, and what was written when each reply was given.
pub struct FollowCourse {
    pub states: Seq<StreamLogs>,
    pub steps: Seq<FollowStep>,
    pub replies: Seq<LogReply>,
    pub written: Seq<Written>,
}

impl FollowCourse {
    pub open spec fn wf(self) -> bool {
        &&& self.states.len() == self.replies.len() + 1
        &&& self.steps.len() == self.replies.len() + 1
        &&& self.written.len() == self.replies.len()
        &&& forall|i: int|
            0 <= i < self.replies.len() ==> self.states[i].follows(
                #[trigger] self.replies[i],
                self.states[i + 1],
                self.steps[i + 1],
            )
    }

    /// The replies are true: each to what was written by then, which is a beginning of the
    /// whole, and is the whole once the process is known to be over.
    pub open spec fn is_true(self, whole: Written) -> bool {
        &&& forall|i: int|
            0 <= i < self.replies.len() ==> is_answered(
                self.steps[i].ask,
                #[trigger] self.replies[i],
                self.written[i],
            ) && self.written[i].grows_to(whole)
        &&& forall|i: int, j: int|
            0 <= i < j < self.replies.len() && (#[trigger] self.replies[i] matches LogReply::Process(
                p,
            ) && p.status.terminal()) ==> #[trigger] self.written[j] == whole
    }

    /// How far the course has come after some replies.
    spec fn comes_along(self, whole: Written, stop_on_exit: bool, k: int) -> bool {
        let ask = self.steps[k].ask;
        let over = forall|j: int|
            k <= j < self.replies.len() ==> #[trigger] self.written[j] == whole;
        match self.states[k] {
            StreamLogs::ReadingOut(f) => f.from(whole, stop_on_exit) && asks_read(
                ask,
                f.process,
                StreamName::Stdout,
                f.stdout.offset,
            ),
            StreamLogs::ReadingErr(f) => f.from(whole, stop_on_exit) && asks_read(
                ask,
                f.process,
                StreamName::Stderr,
                f.stderr.offset,
            ),
            StreamLogs::Checking(f) => f.from(whole, stop_on_exit) && ask == LogStep::<
                ProcessLogs,
            >::Ask(LogEffect::Status(f.process)),
            StreamLogs::Pausing(f) => f.from(whole, stop_on_exit) && ask == LogStep::<
                ProcessLogs,
            >::Ask(LogEffect::Pause(FOLLOW_PAUSE_MS)),
            StreamLogs::DrainingOut(f) => over && f.from(whole, stop_on_exit) && asks_read(
                ask,
                f.process,
                StreamName::Stdout,
                f.stdout.offset,
            ),
            StreamLogs::DrainingErr(f) => over && f.from(whole, stop_on_exit)
                && f.stdout.contents@ == whole.stdout && asks_read(
                ask,
                f.process,
                StreamName::Stderr,
                f.stderr.offset,
            ),
            StreamLogs::Over => ask matches LogStep::Done(Ok(logs)) && {
                &&& logs.stdout@.is_prefix_of(whole.stdout)
                &&& logs.stderr@.is_prefix_of(whole.stderr)
                &&& stop_on_exit ==> logs.stdout@ == whole.stdout && logs.stderr@ == whole.stderr
            },
        }
    }

    proof fn comes_to_its_end(self, whole: Written, process: ProcessId, stop_on_exit: bool, k: int)
        requires
            self.wf(),
            self.is_true(whole),
            StreamLogs::begins(process, stop_on_exit, self.states[0], self.steps[0]),
            0 <= k <= self.replies.len(),
        ensures
            self.comes_along(whole, stop_on_exit, k),
            self.states[k].gathered() matches Some(g) ==> {
                &&& g.0 == shown_in(self.steps.take(k + 1), StreamName::Stdout)
                &&& g.1 == shown_in(self.steps.take(k + 1), StreamName::Stderr)
            },
            self.steps[k].ask matches LogStep::Done(Ok(logs)) ==> {
                &&& logs.stdout@ == shown_in(self.steps.take(k + 1), StreamName::Stdout)
                &&& logs.stderr@ == shown_in(self.steps.take(k + 1), StreamName::Stderr)
            },
        decreases k,
    {
        let steps = self.steps.take(k + 1);
        assert(steps.drop_last() =~= self.steps.take(k));
        assert(steps.last() == self.steps[k]);
        if k == 0 {
            assert(self.steps.take(0) =~= Seq::<FollowStep>::empty());
            reveal_with_fuel(shown_in, 2);
            assert(shown_in(steps, StreamName::Stdout) =~= Seq::<char>::empty());
            assert(shown_in(steps, StreamName::Stderr) =~= Seq::<char>::empty());
            let f = self.states[0]->ReadingOut_0;
            assert(f.stdout.contents@ =~= whole.stdout.take(0));
            assert(f.stderr.contents@ =~= whole.stderr.take(0));
        } else {
            self.comes_to_its_end(whole, process, stop_on_exit, k - 1);
            let state = self.states[k - 1];
            let reply = self.replies[k - 1];
            let next = self.states[k];
            let step = self.steps[k];
            assert(state.follows(reply, next, step));
            output_is_shown_once(state, reply, next, step);
            self.comes_along_by_one(whole, stop_on_exit, k - 1);
        }
    }

    proof fn comes_along_by_one(self, whole: Written, stop_on_exit: bool, k: int)
        requires
            self.wf(),
            self.is_true(whole),
            0 <= k < self.replies.len(),
            self.comes_along(whole, stop_on_exit, k),
        ensures
            self.comes_along(whole, stop_on_exit, k + 1),
    {
        let reply = self.replies[k];
        let written = self.written[k];
        assert(self.states[k].follows(reply, self.states[k + 1], self.steps[k + 1]));
        assert(is_answered(self.steps[k].ask, reply, written));
        match self.states[k] {
            StreamLogs::ReadingOut(f) | StreamLogs::DrainingOut(f) => {
                let range = LogRange {
                    process_id: f.process,
                    stream: StreamName::Stdout,
                    offset: f.stdout.offset,
                    limit: CHUNK_BYTES,
                };
                let piece = reply->Chunk_0;
                piece_is_added(f.stdout, written.stdout, whole.stdout, range, piece);
            },
            StreamLogs::ReadingErr(f) | StreamLogs::DrainingErr(f) => {
                let range = LogRange {
                    process_id: f.process,
                    stream: StreamName::Stderr,
                    offset: f.stderr.offset,
                    limit: CHUNK_BYTES,
                };
                let piece = reply->Chunk_0;
                piece_is_added(f.stderr, written.stderr, whole.stderr, range, piece);
            },
            StreamLogs::Checking(f) => {
                assert(f.stdout.contents@.is_prefix_of(whole.stdout));
                assert(f.stderr.contents@.is_prefix_of(whole.stderr));
            },
            _ => {},
        }
    }
}

/// Of a process that is followed until it is over, all that it has written is shown and handed
/// out, from the first character of each stream to the last, where the replies are true. What is
/// shown and handed out is a beginning of that in any case. Offsets count characters here, as
/// they do where the output is ASCII.
pub proof fn followed_output_is_whole(
    course: FollowCourse,
    whole: Written,
    process: ProcessId,
    stop_on_exit: bool,
)
    requires
        course.wf(),
        course.is_true(whole),
        StreamLogs::begins(process, stop_on_exit, course.states[0], course.steps[0]),
        course.steps.last().ask is Done,
    ensures
        course.steps.last().ask matches LogStep::Done(Ok(logs)) && {
            &&& logs.stdout@ == shown_in(course.steps, StreamName::Stdout)
            &&& logs.stderr@ == shown_in(course.steps, StreamName::Stderr)
            &&& logs.stdout@.is_prefix_of(whole.stdout)
            &&& logs.stderr@.is_prefix_of(whole.stderr)
            &&& stop_on_exit ==> logs.stdout@ == whole.stdout && logs.stderr@ == whole.stderr
        },
{
    let n = course.replies.len() as int;
    course.comes_to_its_end(whole, process, stop_on_exit, n);
    assert(course.steps.take(n + 1) =~= course.steps);
}

proof fn reading_comes_along(
    process: ProcessId,
    stream: StreamName,
    whole: Written,
    states: Seq<ReadLogAll>,
    steps: Seq<LogStep<String>>,
    replies: Seq<LogReply>,
    k: int,
)
    requires
        reads_through(whole, states, steps, replies),
        ReadLogAll::begins(process, stream, states[0], steps[0]),
        0 <= k <= replies.len(),
    ensures
        match states[k] {
            ReadLogAll::Reading(p, s, g) => p == process && s == stream && gathered_from(
                g,
                whole.of(stream),
            ) && asks_read(steps[k], process, stream, g.offset),
            ReadLogAll::Over => steps[k] matches LogStep::Done(Ok(all)) && all@ == whole.of(stream),
        },
    decreases k,
{
    if k == 0 {
        let g = states[0]->Reading_2;
        assert(g.contents@ =~= whole.of(stream).take(0));
    } else {
        reading_comes_along(process, stream, whole, states, steps, replies, k - 1);
        let reply = replies[k - 1];
        assert(states[k - 1].follows(reply, states[k], steps[k]));
        assert(is_answered(steps[k - 1], reply, whole));
        if let ReadLogAll::Reading(_, _, g) = states[k - 1] {
            let range = LogRange {
                process_id: process,
                stream,
                offset: g.offset,
                limit: CHUNK_BYTES,
            };
            piece_is_added(g, whole.of(stream), whole.of(stream), range, reply->Chunk_0);
        }
    }
}

/// The states and steps follow from each other by the replies, which are true to what was written.
pub open spec fn reads_through(
    whole: Written,
    states: Seq<ReadLogAll>,
    steps: Seq<LogStep<String>>,
    replies: Seq<LogReply>,
) -> bool {
    &&& states.len() == replies.len() + 1
    &&& steps.len() == replies.len() + 1
    &&& forall|i: int|
        0 <= i < replies.len() ==> states[i].follows(
            #[trigger] replies[i],
            states[i + 1],
            steps[i + 1],
        ) && is_answered(steps[i], replies[i], whole)
}

/// The reading of a stream ends with all that was written to it, where the replies are true.
/// Offsets count characters here, as they do where the output is ASCII.
pub proof fn streams_are_read_whole(
    process: ProcessId,
    stream: StreamName,
    whole: Written,
    states: Seq<ReadLogAll>,
    steps: Seq<LogStep<String>>,
    replies: Seq<LogReply>,
)
    requires
        reads_through(whole, states, steps, replies),
        ReadLogAll::begins(process, stream, states[0], steps[0]),
        steps.last() is Done,
    ensures
        steps.last() matches LogStep::Done(Ok(all)) && all@ == whole.of(stream),
{
    reading_comes_along(process, stream, whole, states, steps, replies, replies.len() as int);
}

} // verus!
