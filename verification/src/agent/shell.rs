//! A shell in a sandbox: what comes in goes to its input, what it puts out goes back, and last
//! its exit code.

use crate::agent::protocol::{AgentFault, FaultCode};
use crate::agent::service::{sandbox_name, sandbox_or_default};
use crate::text::{cat2, views};
use vstd::prelude::*;

verus! {

/// A message from the caller.
#[derive(Debug, Clone, PartialEq, Eq)]
pub enum ShellMessage {
    Open { sandbox_id: String, command: Vec<String> },
    Stdin(Vec<u8>),
    Close,
    Empty,
}

/// A message to the caller.
#[derive(Debug, Clone, PartialEq, Eq)]
pub enum ShellEvent {
    Stdout(Vec<u8>),
    Stderr(Vec<u8>),
    Error(String),
    ExitCode(i32),
}

/// What is sent to the caller.
#[derive(Debug, Clone, PartialEq, Eq)]
pub enum ShellSend {
    Event(ShellEvent),
    /// The stream ends with a refusal.
    Fault(AgentFault),
}

/// What happens to a shell.
#[derive(Debug)]
pub enum ShellNews {
    /// A message came.
    Message(ShellMessage),
    /// The caller has nothing more to say.
    End,
    /// What was asked for, or the stream of messages, failed.
    Failed(String),
    /// The directory of the sandbox is there.
    Root(String),
    /// The directory of the sandbox is refused.
    Refused(AgentFault),
    /// The program runs.
    Spawned,
    /// The program runs without this pipe.
    Missing(String),
    /// What was asked for is done.
    Unit,
    /// The program has ended, with this code where it has one.
    Exited(Option<i32>),
}

/// What is to be done next for a shell.
#[derive(Debug)]
pub enum ShellAsk {
    /// Wait for the next message.
    Next,
    /// Get the directory of this sandbox.
    Root(String),
    /// Start the program in this directory.
    Spawn(String, Vec<String>),
    Write(Vec<u8>),
    Flush,
    /// Close the input of the program, and wait for its end and for the end of its output.
    Finish,
    /// Stop the program.
    Kill,
    Nothing,
}

/// What happens next: first this is sent, in this order, then that is done.
#[derive(Debug)]
pub struct ShellStep {
    pub sends: Vec<ShellSend>,
    pub ask: ShellAsk,
    /// The news was not for this state.
    pub stray: bool,
}

/// A shell on its way.
#[derive(Debug)]
pub enum Shell {
    Opening,
    Rooting(Vec<String>),
    Spawning,
    Relaying,
    Writing,
    Flushing,
    Finishing,
    Over,
}

impl ShellStep {
    /// Nothing is sent.
    pub open spec fn quiet(self, ask: ShellAsk) -> bool {
        self.sends@.len() == 0 && self.ask == ask && !self.stray
    }

    /// The stream ends with this refusal.
    pub open spec fn refuses(self, code: FaultCode, text: Seq<char>, ask: ShellAsk) -> bool {
        &&& self.sends@.len() == 1
        &&& self.sends@[0] matches ShellSend::Fault(f)
        &&& f.is(code, text)
        &&& self.ask == ask
        &&& !self.stray
    }

    /// The caller hears of an error, and the shell goes to its end.
    pub open spec fn complains(self, text: String) -> bool {
        &&& self.sends@ == seq![ShellSend::Event(ShellEvent::Error(text))]
        &&& self.ask is Finish
        &&& !self.stray
    }

    pub open spec fn is_stray(self) -> bool {
        self.sends@.len() == 0 && self.ask is Nothing && self.stray
    }
}

/// The program that a first message asks for.
pub open spec fn shell_command(first: ShellMessage) -> Seq<Seq<char>> {
    match first {
        ShellMessage::Open { sandbox_id: _, command } if command@.len() > 0 => views(command@),
        _ => seq!["/bin/sh"@],
    }
}

/// The sandbox that a first message asks for.
pub open spec fn shell_sandbox(first: ShellMessage) -> Seq<char> {
    match first {
        ShellMessage::Open { sandbox_id, command: _ } => sandbox_name(sandbox_id@),
        _ => "default"@,
    }
}

impl Shell {
    pub fn begin() -> (r: (Self, ShellStep))
        ensures
            r.0 is Opening,
            r.1.quiet(ShellAsk::Next),
    {
        (Shell::Opening, Self::plain(ShellAsk::Next))
    }

    /// What news leads to.
    pub open spec fn follows(self, news: ShellNews, next: Self, step: ShellStep) -> bool {
        match (self, news) {
            (Shell::Over, _) => next is Over && step.is_stray(),
            (Shell::Opening, ShellNews::Message(first)) => {
                &&& next matches Shell::Rooting(command)
                &&& views(command@) == shell_command(first)
                &&& step.sends@.len() == 0
                &&& step.ask matches ShellAsk::Root(id)
                &&& id@ == shell_sandbox(first)
                &&& !step.stray
            },
            (Shell::Opening, ShellNews::End) => next is Over && step.refuses(
                FaultCode::InvalidArgument,
                "shell stream requires an initial open message"@,
                ShellAsk::Nothing,
            ),
            (Shell::Opening, ShellNews::Failed(e)) => next is Over && step.refuses(
                FaultCode::Internal,
                e@,
                ShellAsk::Nothing,
            ),
            (Shell::Rooting(command), ShellNews::Root(path)) => next is Spawning && step.quiet(
                ShellAsk::Spawn(path, command),
            ),
            (Shell::Rooting(_), ShellNews::Refused(fault)) => {
                &&& next is Over
                &&& step.sends@ == seq![ShellSend::Fault(fault)]
                &&& step.ask is Nothing
                &&& !step.stray
            },
            (Shell::Spawning, ShellNews::Spawned) => next is Relaying && step.quiet(ShellAsk::Next),
            (Shell::Spawning, ShellNews::Failed(e)) => {
                &&& next is Over
                &&& step.sends@ == seq![
                    ShellSend::Event(ShellEvent::Error(e)),
                    ShellSend::Event(ShellEvent::ExitCode(1)),
                ]
                &&& step.ask is Nothing
                &&& !step.stray
            },
            (Shell::Spawning, ShellNews::Missing(pipe)) => next is Over && step.refuses(
                FaultCode::Internal,
                "shell child missing "@ + pipe@,
                ShellAsk::Kill,
            ),
            (Shell::Relaying, ShellNews::Message(ShellMessage::Stdin(chunk))) => next is Writing
                && step.quiet(ShellAsk::Write(chunk)),
            (Shell::Relaying, ShellNews::Message(ShellMessage::Close)) | (
                Shell::Relaying,
                ShellNews::End,
            ) => next is Finishing && step.quiet(ShellAsk::Finish),
            (Shell::Relaying, ShellNews::Message(_)) => next is Relaying && step.quiet(
                ShellAsk::Next,
            ),
            (Shell::Relaying, ShellNews::Failed(e))
            | (Shell::Writing, ShellNews::Failed(e))
            | (Shell::Flushing, ShellNews::Failed(e)) => next is Finishing && step.complains(e),
            (Shell::Writing, ShellNews::Unit) => next is Flushing && step.quiet(ShellAsk::Flush),
            (Shell::Flushing, ShellNews::Unit) => next is Relaying && step.quiet(ShellAsk::Next),
            (Shell::Finishing, ShellNews::Exited(code)) => {
                &&& next is Over
                &&& step.sends@ == seq![
                    ShellSend::Event(
                        ShellEvent::ExitCode(
                            match code {
                                Some(c) => c,
                                None => 1,
                            },
                        ),
                    ),
                ]
                &&& step.ask is Nothing
                &&& !step.stray
            },
            (Shell::Finishing, ShellNews::Failed(_)) => {
                &&& next is Over
                &&& step.sends@ == seq![ShellSend::Event(ShellEvent::ExitCode(1))]
                &&& step.ask is Nothing
                &&& !step.stray
            },
            _ => next == self && step.is_stray(),
        }
    }

    fn plain(ask: ShellAsk) -> (r: ShellStep)
        ensures
            r.quiet(ask),
    {
        ShellStep { sends: Vec::new(), ask, stray: false }
    }

    fn refuse(code: FaultCode, text: &str, ask: ShellAsk) -> (r: (Self, ShellStep))
        ensures
            r.0 is Over,
            r.1.refuses(code, text@, ask),
    {
        (
            Shell::Over,
            ShellStep {
                sends: vec![ShellSend::Fault(AgentFault::new(code, text))],
                ask,
                stray: false,
            },
        )
    }

    fn complain(text: String) -> (r: (Self, ShellStep))
        ensures
            r.0 is Finishing,
            r.1.complains(text),
    {
        let sends = vec![ShellSend::Event(ShellEvent::Error(text))];
        assert(sends@ =~= seq![ShellSend::Event(ShellEvent::Error(text))]);
        (Shell::Finishing, ShellStep { sends, ask: ShellAsk::Finish, stray: false })
    }

    fn exit(code: i32) -> (r: (Self, ShellStep))
        ensures
            r.0 is Over,
            r.1.sends@ == seq![ShellSend::Event(ShellEvent::ExitCode(code))],
            r.1.ask is Nothing,
            !r.1.stray,
    {
        let sends = vec![ShellSend::Event(ShellEvent::ExitCode(code))];
        assert(sends@ =~= seq![ShellSend::Event(ShellEvent::ExitCode(code))]);
        (Shell::Over, ShellStep { sends, ask: ShellAsk::Nothing, stray: false })
    }

    fn open(first: ShellMessage) -> (r: (Self, ShellStep))
        ensures
            Shell::Opening.follows(ShellNews::Message(first), r.0, r.1),
    {
        let (sandbox_id, command) = match first {
            ShellMessage::Open { sandbox_id, command } => (sandbox_id, command),
            _ => (String::new(), Vec::new()),
        };
        let id = sandbox_or_default(sandbox_id.as_str());
        let command = if command.len() == 0 {
            let default = vec!["/bin/sh".to_owned()];
            assert(views(default@) =~= seq!["/bin/sh"@]);
            default
        } else {
            command
        };
        (Shell::Rooting(command), Self::plain(ShellAsk::Root(id)))
    }

    pub fn resume(self, news: ShellNews) -> (r: (Self, ShellStep))
        ensures
            self.follows(news, r.0, r.1),
    {
        match (self, news) {
            (Shell::Over, _) => (
                Shell::Over,
                ShellStep { sends: Vec::new(), ask: ShellAsk::Nothing, stray: true },
            ),
            (Shell::Opening, ShellNews::Message(first)) => Self::open(first),
            (Shell::Opening, ShellNews::End) => Self::refuse(
                FaultCode::InvalidArgument,
                "shell stream requires an initial open message",
                ShellAsk::Nothing,
            ),
            (Shell::Opening, ShellNews::Failed(e)) => Self::refuse(
                FaultCode::Internal,
                e.as_str(),
                ShellAsk::Nothing,
            ),
            (Shell::Rooting(command), ShellNews::Root(path)) => (
                Shell::Spawning,
                Self::plain(ShellAsk::Spawn(path, command)),
            ),
            (Shell::Rooting(_), ShellNews::Refused(fault)) => {
                let sends = vec![ShellSend::Fault(fault)];
                assert(sends@ =~= seq![ShellSend::Fault(fault)]);
                (Shell::Over, ShellStep { sends, ask: ShellAsk::Nothing, stray: false })
            },
            (Shell::Spawning, ShellNews::Spawned) => (
                Shell::Relaying,
                Self::plain(ShellAsk::Next),
            ),
            (Shell::Spawning, ShellNews::Failed(e)) => {
                let ghost text = e;
                let sends = vec![
                    ShellSend::Event(ShellEvent::Error(e)),
                    ShellSend::Event(ShellEvent::ExitCode(1)),
                ];
                assert(sends@ =~= seq![
                    ShellSend::Event(ShellEvent::Error(text)),
                    ShellSend::Event(ShellEvent::ExitCode(1)),
                ]);
                (Shell::Over, ShellStep { sends, ask: ShellAsk::Nothing, stray: false })
            },
            (Shell::Spawning, ShellNews::Missing(pipe)) => Self::refuse(
                FaultCode::Internal,
                cat2("shell child missing ", pipe.as_str()).as_str(),
                ShellAsk::Kill,
            ),
            (Shell::Relaying, ShellNews::Message(message)) => match message {
                ShellMessage::Stdin(chunk) => (
                    Shell::Writing,
                    Self::plain(ShellAsk::Write(chunk)),
                ),
                ShellMessage::Close => (Shell::Finishing, Self::plain(ShellAsk::Finish)),
                _ => (Shell::Relaying, Self::plain(ShellAsk::Next)),
            },
            (Shell::Relaying, ShellNews::End) => (
                Shell::Finishing,
                Self::plain(ShellAsk::Finish),
            ),
            (Shell::Relaying, ShellNews::Failed(e)) => Self::complain(e),
            (Shell::Writing, ShellNews::Failed(e)) => Self::complain(e),
            (Shell::Flushing, ShellNews::Failed(e)) => Self::complain(e),
            (Shell::Writing, ShellNews::Unit) => (Shell::Flushing, Self::plain(ShellAsk::Flush)),
            (Shell::Flushing, ShellNews::Unit) => (Shell::Relaying, Self::plain(ShellAsk::Next)),
            (Shell::Finishing, ShellNews::Exited(code)) => match code {
                Some(c) => Self::exit(c),
                None => Self::exit(1),
            },
            (Shell::Finishing, ShellNews::Failed(_)) => Self::exit(1),
            (state, _) => (
                state,
                ShellStep { sends: Vec::new(), ask: ShellAsk::Nothing, stray: true },
            ),
        }
    }
}

/// A stream ends in one way only: the last thing that is sent is a refusal or an exit code, and
/// neither is sent before the end.
pub proof fn streams_end_with_a_verdict(shell: Shell, news: ShellNews, next: Shell, step: ShellStep)
    requires
        shell.follows(news, next, step),
    ensures
        next is Over && !(shell is Over) ==> step.sends@.len() > 0 && is_verdict(
            step.sends@.last(),
        ),
        forall|i: int|
            0 <= i < step.sends@.len() && is_verdict(#[trigger] step.sends@[i]) ==> next is Over
                && i == step.sends@.len() - 1,
{
}

/// A message after which nothing comes.
pub open spec fn is_verdict(send: ShellSend) -> bool {
    send is Fault || (send matches ShellSend::Event(e) && e is ExitCode)
}

/// Nothing is sent once a stream has ended.
pub proof fn ended_streams_are_silent(news: ShellNews, next: Shell, step: ShellStep)
    requires
        Shell::Over.follows(news, next, step),
    ensures
        next is Over,
        step.sends@.len() == 0,
{
}

/// The input of the caller reaches the program as it came, chunk by chunk.
pub proof fn input_is_relayed_as_it_came(chunk: Vec<u8>, next: Shell, step: ShellStep)
    requires
        Shell::Relaying.follows(ShellNews::Message(ShellMessage::Stdin(chunk)), next, step),
    ensures
        next is Writing,
        step.quiet(ShellAsk::Write(chunk)),
{
}

/// What is sent in some steps, in order.
pub open spec fn sent_in(steps: Seq<ShellStep>) -> Seq<ShellSend>
    decreases steps.len(),
{
    if steps.len() == 0 {
        Seq::<ShellSend>::empty()
    } else {
        sent_in(steps.drop_last()) + steps.last().sends@
    }
}

/// The states and steps of a stream follow from each other by the news.
pub open spec fn is_stream(states: Seq<Shell>, steps: Seq<ShellStep>, news: Seq<ShellNews>) -> bool {
    &&& states.len() == news.len() + 1
    &&& steps.len() == news.len() + 1
    &&& states[0] is Opening
    &&& steps[0].quiet(ShellAsk::Next)
    &&& forall|i: int|
        0 <= i < news.len() ==> states[i].follows(#[trigger] news[i], states[i + 1], steps[i + 1])
}

proof fn stream_goes_on(
    states: Seq<Shell>,
    steps: Seq<ShellStep>,
    news: Seq<ShellNews>,
    k: int,
)
    requires
        is_stream(states, steps, news),
        0 <= k <= news.len(),
    ensures
        ({
            let sent = sent_in(steps.take(k + 1));
            &&& states[k] is Over ==> sent.len() > 0 && is_verdict(sent.last())
            &&& forall|i: int|
                0 <= i < sent.len() && is_verdict(#[trigger] sent[i]) ==> states[k] is Over && i
                    == sent.len() - 1
        }),
    decreases k,
{
    let now = steps.take(k + 1);
    assert(now.drop_last() =~= steps.take(k));
    assert(now.last() == steps[k]);
    let sent = sent_in(now);
    if k == 0 {
        reveal_with_fuel(sent_in, 2);
        assert(sent.len() == 0);
    } else {
        stream_goes_on(states, steps, news, k - 1);
        let before = sent_in(steps.take(k));
        let more = steps[k].sends@;
        let what = news[k - 1];
        assert(states[k - 1].follows(what, states[k], steps[k]));
        streams_end_with_a_verdict(states[k - 1], what, states[k], steps[k]);
        assert(sent == before + more);
        assert forall|i: int| 0 <= i < sent.len() && is_verdict(#[trigger] sent[i]) implies states[k]
            is Over && i == sent.len() - 1 by {
            if i < before.len() {
                assert(sent[i] == before[i]);
                assert(states[k - 1] is Over);
                assert(more.len() == 0);
            } else {
                assert(sent[i] == more[i - before.len()]);
            }
        }
        if states[k] is Over {
            if states[k - 1] is Over {
                assert(sent =~= before);
            } else {
                assert(sent.last() == more.last());
            }
        }
    }
}

/// A stream that has ended has sent exactly one verdict, and nothing after it; one that goes on
/// has sent none.
pub proof fn a_stream_has_one_verdict(
    states: Seq<Shell>,
    steps: Seq<ShellStep>,
    news: Seq<ShellNews>,
)
    requires
        is_stream(states, steps, news),
    ensures
        states.last() is Over ==> sent_in(steps).len() > 0 && is_verdict(sent_in(steps).last()),
        forall|i: int|
            0 <= i < sent_in(steps).len() && is_verdict(#[trigger] sent_in(steps)[i])
                ==> states.last() is Over && i == sent_in(steps).len() - 1,
{
    let n = news.len() as int;
    stream_goes_on(states, steps, news, n);
    assert(steps.take(n + 1) =~= steps);
}

/// A shell runs the program that its first message names, in the sandbox that it names; a message
/// without a program asks for the usual shell.
pub proof fn first_messages_name_the_shell(sandbox_id: String, command: Vec<String>)
    ensures
        ({
            let first = ShellMessage::Open { sandbox_id, command };
            &&& command@.len() > 0 ==> shell_command(first) == views(command@)
            &&& command@.len() == 0 ==> shell_command(first) == seq!["/bin/sh"@]
            &&& sandbox_id@.len() > 0 ==> shell_sandbox(first) == sandbox_id@
        }),
{
}

} // verus!
