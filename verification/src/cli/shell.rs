//! An interactive shell in a sandbox: where it is opened, and what becomes of the sandbox after.

use crate::agent::shell::ShellEvent;
use crate::cli::fault::{
    fails_because, fails_saying, fails_wrapping, id_complaint, parse_sandbox_id, Fault,
};
use crate::cli::policy::{
    backend_name, build_effective_isolation_summary, builtin_helper, container_bin_in, enforcement,
    ensure_network_mode_supported, extract_container_bin_from_helper_argv,
    helper_argv_is_builtin_apple_helper, isolation_class_of, network_word, opt_server, profile_word,
    EffectiveIsolationSummary, ServerInfo,
};
use crate::config::{default_config, NetworkMode, NetworkModel, SandboxConfig};
use crate::ids::{hyphenated, uuid_parsed};
use crate::model::{SandboxId, SandboxInfo};
use crate::text::{
    cat2, cat3, cat4, chars_of, contains, first_line, has_text, join, joined, opt_view, same,
    take_first_line, texts, trim, trimmed, views,
};
use vstd::prelude::*;

verus! {

/// A program that takes over the terminal.
#[derive(Debug, PartialEq, Eq)]
pub struct Launch {
    pub program: String,
    pub args: Vec<String>,
    pub working_dir: Option<String>,
}

/// What is asked for while a shell is opened.
#[derive(Debug)]
pub enum OpenEffect {
    Inspect(SandboxId),
    ServerInfo,
    /// Go along with a shell by way of the agent.
    AgentStream(SandboxId, String),
    /// Run `pwd` in the sandbox, within this many seconds.
    Probe(SandboxId, u64),
    Launch(Launch),
}

/// What came of it.
#[derive(Debug)]
pub enum OpenReply {
    Unit,
    Info(ServerInfo),
    /// An exit code, where there is one.
    Exited(Option<i32>),
    /// An exit code, and what was put out.
    Probed(i32, String, String),
    Failed(Fault),
}

#[derive(Debug)]
pub enum OpenStep {
    Ask(OpenEffect),
    Done(Result<i32, Fault>),
    Stray,
}

pub open spec fn open_fails(step: OpenStep, text: Seq<char>) -> bool {
    step matches OpenStep::Done(r) && fails_saying(r, text)
}

pub open spec fn asks_stream(step: OpenStep, id: SandboxId, shell: Seq<char>) -> bool {
    step matches OpenStep::Ask(OpenEffect::AgentStream(i, s)) && i == id && s@ == shell
}

/// A shell that is being opened.
#[derive(Debug)]
pub enum OpenShell {
    Inspecting(SandboxId, String, bool),
    Asking(SandboxId, String, bool),
    /// By way of the agent; the text is said in front of a failure.
    Streaming(Option<String>),
    Probing(String),
    Launching(String),
    Over,
}

/// The arguments that open a shell in the container of a sandbox.
pub open spec fn container_shell_args(id: SandboxId, shell: Seq<char>, terminal: bool) -> Seq<
    Seq<char>,
> {
    seq!["exec"@, "--interactive"@, "--workdir"@, "/workspace"@] + (if terminal {
        seq!["--tty"@]
    } else {
        Seq::<Seq<char>>::empty()
    }) + seq!["hyperbox-"@ + hyphenated(id.0), shell]
}

fn container_shell(id: SandboxId, shell: &str, terminal: bool) -> (r: Vec<String>)
    ensures
        views(r@) == container_shell_args(id, shell@, terminal),
{
    let mut args = texts(&["exec", "--interactive", "--workdir", "/workspace"]);
    assert(views(args@) =~= seq!["exec"@, "--interactive"@, "--workdir"@, "/workspace"@]);
    let ghost head = args@;
    if terminal {
        args.push("--tty".to_owned());
    }
    args.push(cat2("hyperbox-", id.text().as_str()));
    args.push(shell.to_owned());
    assert(views(args@).take(4) =~= views(head));
    assert(views(args@) =~= container_shell_args(id, shell@, terminal));
    args
}

impl OpenShell {
    pub fn begin(id: SandboxId, shell: &str, terminal: bool) -> (r: (Self, OpenStep))
        ensures
            r.0 matches OpenShell::Inspecting(i, s, t) && i == id && s@ == shell@ && t == terminal,
            r.1 == OpenStep::Ask(OpenEffect::Inspect(id)),
    {
        (
            OpenShell::Inspecting(id, shell.to_owned(), terminal),
            OpenStep::Ask(OpenEffect::Inspect(id)),
        )
    }

    /// The way that the backend of the server leaves open.
    pub open spec fn routes(
        id: SandboxId,
        shell: Seq<char>,
        terminal: bool,
        server: ServerInfo,
        next: Self,
        step: OpenStep,
    ) -> bool {
        let backend = server.backend_selected@;
        let argv = views(server.apple_helper_argv@);
        if backend == "firecracker"@ {
            next == OpenShell::Streaming(None) && asks_stream(step, id, shell)
        } else if backend == "local"@ {
            (next matches OpenShell::Probing(s) && s@ == shell) && step == OpenStep::Ask(
                OpenEffect::Probe(id, 10),
            )
        } else if backend != "apple"@ {
            next is Over && open_fails(
                step,
                "interactive shell is not supported for backend `"@ + backend + "`"@,
            )
        } else if !builtin_helper(argv) {
            (next matches OpenShell::Streaming(Some(context)) && context@
                == "interactive shell for apple backend with external helper `"@ + joined(argv, " "@)
                + "` requires agent stream connectivity (set HYPERBOX_AGENT_ENDPOINT if non-default)"@)
                && asks_stream(step, id, shell)
        } else {
            let bin = match container_bin_in(argv) {
                Some(b) => b,
                None => "container"@,
            };
            (next matches OpenShell::Launching(context) && context@
                == "launch interactive shell with `"@ + bin + "` into sandbox "@ + hyphenated(id.0))
                && (step matches OpenStep::Ask(OpenEffect::Launch(l)) && l.program@ == bin && views(
                l.args@,
            ) == container_shell_args(id, shell, terminal) && l.working_dir is None)
        }
    }

    /// What a reply leads to.
    pub open spec fn follows(self, reply: OpenReply, next: Self, step: OpenStep) -> bool {
        match (self, reply) {
            (OpenShell::Over, _) => next is Over && step is Stray,
            (OpenShell::Inspecting(id, shell, terminal), OpenReply::Unit) => next
                == OpenShell::Asking(id, shell, terminal) && step == OpenStep::Ask(
                OpenEffect::ServerInfo,
            ),
            (OpenShell::Asking(id, shell, terminal), OpenReply::Info(server)) => Self::routes(
                id,
                shell@,
                terminal,
                server,
                next,
                step,
            ),
            (OpenShell::Asking(_, _, _), OpenReply::Failed(f)) => next is Over && if has_text(
                f.message@,
                "Unimplemented"@,
            ) {
                open_fails(
                    step,
                    "server does not support GetServerInfo (likely stale daemon). Restart hyperbox server and retry `hyperbox shell`."@,
                )
            } else {
                step == OpenStep::Done(Err(f))
            },
            (OpenShell::Streaming(_), OpenReply::Exited(code)) => next is Over && step
                == OpenStep::Done(Ok(code_or_one(code))),
            (OpenShell::Streaming(context), OpenReply::Failed(f)) => next is Over && match context {
                None => step == OpenStep::Done(Err(f)),
                Some(text) => step matches OpenStep::Done(r) && fails_wrapping(r, text@, f),
            },
            (OpenShell::Probing(shell), OpenReply::Probed(code, stdout, stderr)) => {
                let dir = trimmed(first_line(stdout@));
                if code != 0 {
                    next is Over && open_fails(
                        step,
                        "failed to resolve local sandbox working directory: "@ + stderr@,
                    )
                } else if dir.len() == 0 {
                    next is Over && open_fails(
                        step,
                        "failed to resolve local sandbox working directory: empty output"@,
                    )
                } else {
                    (next matches OpenShell::Launching(context) && context@
                        == "launch local interactive shell in `"@ + dir + "`"@) && (step
                        matches OpenStep::Ask(OpenEffect::Launch(l)) && l.program == shell
                        && l.args@.len() == 0 && opt_view(l.working_dir) == Some(dir))
                }
            },
            (OpenShell::Probing(_), OpenReply::Failed(f)) => next is Over && (step
                matches OpenStep::Done(r) && fails_wrapping(
                r,
                "probe sandbox working directory"@,
                f,
            )),
            (OpenShell::Launching(_), OpenReply::Exited(code)) => next is Over && step
                == OpenStep::Done(Ok(code_or_one(code))),
            (OpenShell::Launching(context), OpenReply::Failed(f)) => next is Over && (step
                matches OpenStep::Done(r) && fails_wrapping(r, context@, f)),
            (_, OpenReply::Failed(f)) => next is Over && step == OpenStep::Done(Err(f)),
            _ => next == self && step is Stray,
        }
    }

    fn fail(text: String) -> (r: (Self, OpenStep))
        ensures
            r.0 is Over,
            open_fails(r.1, text@),
    {
        (OpenShell::Over, OpenStep::Done(Err(Fault::new(text))))
    }

    fn route(id: SandboxId, shell: String, terminal: bool, server: ServerInfo) -> (r: (
        Self,
        OpenStep,
    ))
        ensures
            Self::routes(id, shell@, terminal, server, r.0, r.1),
    {
        let backend = server.backend_selected.as_str();
        if same(backend, "firecracker") {
            return (
                OpenShell::Streaming(None),
                OpenStep::Ask(OpenEffect::AgentStream(id, shell)),
            );
        }
        if same(backend, "local") {
            return (OpenShell::Probing(shell), OpenStep::Ask(OpenEffect::Probe(id, 10)));
        }
        if !same(backend, "apple") {
            return Self::fail(
                cat3("interactive shell is not supported for backend `", backend, "`"),
            );
        }
        if !helper_argv_is_builtin_apple_helper(server.apple_helper_argv.as_slice()) {
            let argv = join(&server.apple_helper_argv, " ");
            let context = cat3(
                "interactive shell for apple backend with external helper `",
                argv.as_str(),
                "` requires agent stream connectivity (set HYPERBOX_AGENT_ENDPOINT if non-default)",
            );
            return (
                OpenShell::Streaming(Some(context)),
                OpenStep::Ask(OpenEffect::AgentStream(id, shell)),
            );
        }
        let program = match extract_container_bin_from_helper_argv(
            server.apple_helper_argv.as_slice(),
        ) {
            Some(bin) => bin,
            None => "container".to_owned(),
        };
        let context = cat4(
            "launch interactive shell with `",
            program.as_str(),
            "` into sandbox ",
            id.text().as_str(),
        );
        let args = container_shell(id, shell.as_str(), terminal);
        (
            OpenShell::Launching(context),
            OpenStep::Ask(OpenEffect::Launch(Launch { program, args, working_dir: None })),
        )
    }

    pub fn resume(self, reply: OpenReply) -> (r: (Self, OpenStep))
        ensures
            self.follows(reply, r.0, r.1),
    {
        match (self, reply) {
            (OpenShell::Over, _) => (OpenShell::Over, OpenStep::Stray),
            (OpenShell::Inspecting(id, shell, terminal), OpenReply::Unit) => (
                OpenShell::Asking(id, shell, terminal),
                OpenStep::Ask(OpenEffect::ServerInfo),
            ),
            (OpenShell::Asking(id, shell, terminal), OpenReply::Info(server)) => Self::route(
                id,
                shell,
                terminal,
                server,
            ),
            (OpenShell::Asking(_, _, _), OpenReply::Failed(f)) => {
                if contains(f.message.as_str(), "Unimplemented") {
                    Self::fail(
                        "server does not support GetServerInfo (likely stale daemon). Restart hyperbox server and retry `hyperbox shell`.".to_owned(),
                    )
                } else {
                    (OpenShell::Over, OpenStep::Done(Err(f)))
                }
            },
            (OpenShell::Streaming(_), OpenReply::Exited(code)) => (
                OpenShell::Over,
                OpenStep::Done(Ok(or_one(code))),
            ),
            (OpenShell::Streaming(context), OpenReply::Failed(f)) => match context {
                None => (OpenShell::Over, OpenStep::Done(Err(f))),
                Some(text) => (OpenShell::Over, OpenStep::Done(Err(f.within(text)))),
            },
            (OpenShell::Probing(shell), OpenReply::Probed(code, stdout, stderr)) => {
                if code != 0 {
                    return Self::fail(
                        cat2(
                            "failed to resolve local sandbox working directory: ",
                            stderr.as_str(),
                        ),
                    );
                }
                let dir = trim(take_first_line(stdout.as_str()).as_str());
                if chars_of(dir.as_str()).len() == 0 {
                    return Self::fail(
                        "failed to resolve local sandbox working directory: empty output".to_owned(),
                    );
                }
                let context = cat3("launch local interactive shell in `", dir.as_str(), "`");
                let launch = Launch { program: shell, args: Vec::new(), working_dir: Some(dir) };
                (OpenShell::Launching(context), OpenStep::Ask(OpenEffect::Launch(launch)))
            },
            (OpenShell::Probing(_), OpenReply::Failed(f)) => (
                OpenShell::Over,
                OpenStep::Done(Err(f.within("probe sandbox working directory".to_owned()))),
            ),
            (OpenShell::Launching(_), OpenReply::Exited(code)) => (
                OpenShell::Over,
                OpenStep::Done(Ok(or_one(code))),
            ),
            (OpenShell::Launching(context), OpenReply::Failed(f)) => (
                OpenShell::Over,
                OpenStep::Done(Err(f.within(context))),
            ),
            (_, OpenReply::Failed(f)) => (OpenShell::Over, OpenStep::Done(Err(f))),
            (state, _) => (state, OpenStep::Stray),
        }
    }
}

pub open spec fn code_or_one(code: Option<i32>) -> i32 {
    match code {
        Some(c) => c,
        None => 1,
    }
}

fn or_one(code: Option<i32>) -> (r: i32)
    ensures
        r == code_or_one(code),
{
    match code {
        Some(c) => c,
        None => 1,
    }
}

/// What is done with a message of a shell by way of the agent.
#[derive(Debug, PartialEq, Eq)]
pub enum ShellShow {
    Stdout(Vec<u8>),
    Stderr(Vec<u8>),
    /// The shell is over.
    Exit(i32),
}

pub open spec fn shown(event: ShellEvent, show: ShellShow) -> bool {
    match event {
        ShellEvent::Stdout(bytes) => show == ShellShow::Stdout(bytes),
        ShellEvent::Stderr(bytes) => show == ShellShow::Stderr(bytes),
        ShellEvent::Error(text) => show matches ShellShow::Stderr(bytes) && bytes@
            == vstd::utf8::encode_utf8(text@).push(10u8),
        ShellEvent::ExitCode(code) => show == ShellShow::Exit(code),
    }
}

/// An error is a line on the error output.
pub fn show_event(event: ShellEvent) -> (r: ShellShow)
    ensures
        shown(event, r),
{
    match event {
        ShellEvent::Stdout(bytes) => ShellShow::Stdout(bytes),
        ShellEvent::Stderr(bytes) => ShellShow::Stderr(bytes),
        ShellEvent::Error(text) => {
            let mut bytes = vstd::slice::slice_to_vec(text.as_str().as_bytes());
            bytes.push(10);
            ShellShow::Stderr(bytes)
        },
        ShellEvent::ExitCode(code) => ShellShow::Exit(code),
    }
}

/// A shell as the command line asks for it.
#[derive(Debug)]
pub struct ShellOrder {
    pub sandbox_id: Option<String>,
    pub affinity_name: Option<String>,
    pub template: String,
    pub workspace: Option<String>,
    pub network: NetworkMode,
    pub profile: Option<String>,
}

/// What is asked for during the command.
#[derive(Debug)]
pub enum ShellEffect {
    /// Show how the isolation comes out.
    Summarize(EffectiveIsolationSummary),
    /// The sandbox of a name, brought back where it can be.
    ResolveAffinity(String),
    CurrentDir,
    /// The template that is meant, given the files of the workspace.
    ResolveTemplate(String, String),
    CreateSandbox(SandboxConfig),
    Open(SandboxId),
    DestroySandbox(SandboxId),
}

/// What came of it.
#[derive(Debug)]
pub enum ShellReply {
    Unit,
    Sandbox(SandboxInfo),
    Dir(String),
    Template(String),
    Exited(i32),
    Failed(Fault),
}

#[derive(Debug)]
pub enum ShellCmdStep {
    Ask(ShellEffect),
    Done(Result<i32, Fault>),
    Stray,
}

/// The plan for a sandbox that lives as long as its shell.
#[derive(Debug)]
pub struct BriefSandbox {
    pub network: NetworkMode,
    pub profile: Option<String>,
    pub workspace: String,
}

/// The shell command on its way.
#[derive(Debug)]
pub enum ShellCommand {
    Resolving,
    /// The isolation of a sandbox that is there is shown; then its shell is opened.
    Summarizing(SandboxId),
    Attached,
    Locating(ShellOrder),
    PickingTemplate(BriefSandbox),
    SummarizingNew(BriefSandbox, String),
    Creating,
    Opened(SandboxId),
    Destroying(SandboxId, Result<i32, Fault>),
    Over,
}

/// What is shown of the isolation.
pub open spec fn is_summary(
    s: EffectiveIsolationSummary,
    server: Option<ServerInfo>,
    network: Option<NetworkModel>,
    profile: Option<Seq<char>>,
) -> bool {
    &&& s.backend@ == backend_name(server)
    &&& s.isolation_class@ == isolation_class_of(s.backend@)
    &&& s.profile@ == profile_word(profile, network)
    &&& s.network_mode@ == network_word(network)
    &&& (s.network_enforcement@, opt_view(s.network_reason)) == enforcement(server, network)
    &&& s.timeout_secs == 0
}

impl ShellCommand {
    /// The isolation of a sandbox that is there is shown.
    pub open spec fn attaches(
        id: SandboxId,
        server: Option<ServerInfo>,
        scope: Seq<char>,
        next: Self,
        step: ShellCmdStep,
    ) -> bool {
        &&& next == ShellCommand::Summarizing(id)
        &&& step matches ShellCmdStep::Ask(ShellEffect::Summarize(s))
        &&& is_summary(s, server, None, None)
        &&& views(s.writable_paths@) == seq![scope]
    }

    /// The template for a new sandbox is looked for.
    pub open spec fn plans(
        order: ShellOrder,
        workspace: Seq<char>,
        next: Self,
        step: ShellCmdStep,
    ) -> bool {
        &&& next matches ShellCommand::PickingTemplate(brief)
        &&& brief.network == order.network
        &&& brief.profile == order.profile
        &&& brief.workspace@ == workspace
        &&& step matches ShellCmdStep::Ask(ShellEffect::ResolveTemplate(t, w))
        &&& t == order.template
        &&& w@ == workspace
    }

    /// What an order leads to.
    pub open spec fn begins(
        order: ShellOrder,
        server: Option<ServerInfo>,
        next: Self,
        step: ShellCmdStep,
    ) -> bool {
        match order.sandbox_id {
            Some(raw) => match uuid_parsed(raw@) {
                Ok(id) => Self::attaches(
                    SandboxId(id),
                    server,
                    "<existing sandbox workspace>"@,
                    next,
                    step,
                ),
                Err(e) => next is Over && (step matches ShellCmdStep::Done(done) && fails_because(
                    done,
                    id_complaint("sandbox"@, raw@),
                    e,
                )),
            },
            None => match order.affinity_name {
                Some(name) => next is Resolving && (step matches ShellCmdStep::Ask(
                    ShellEffect::ResolveAffinity(n),
                ) && n == name),
                None => match order.workspace {
                    Some(dir) => Self::plans(order, dir@, next, step),
                    None => next == ShellCommand::Locating(order) && step == ShellCmdStep::Ask(
                        ShellEffect::CurrentDir,
                    ),
                },
            },
        }
    }

    pub fn begin(order: ShellOrder, server: Option<&ServerInfo>) -> (r: (Self, ShellCmdStep))
        ensures
            Self::begins(order, opt_server(server), r.0, r.1),
    {
        if let Some(raw) = &order.sandbox_id {
            return match parse_sandbox_id(raw.as_str()) {
                Ok(id) => Self::attach(id, server, "<existing sandbox workspace>"),
                Err(f) => (ShellCommand::Over, ShellCmdStep::Done(Err(f))),
            };
        }
        if let Some(name) = order.affinity_name {
            return (
                ShellCommand::Resolving,
                ShellCmdStep::Ask(ShellEffect::ResolveAffinity(name)),
            );
        }
        match crate::text::clone_opt(&order.workspace) {
            Some(dir) => Self::plan(order, dir),
            None => (
                ShellCommand::Locating(order),
                ShellCmdStep::Ask(ShellEffect::CurrentDir),
            ),
        }
    }

    /// What a reply leads to. A sandbox that was made for the shell goes after it, whether or
    /// not the shell could be opened.
    pub open spec fn follows(
        self,
        reply: ShellReply,
        server: Option<ServerInfo>,
        next: Self,
        step: ShellCmdStep,
    ) -> bool {
        match (self, reply) {
            (ShellCommand::Over, _) => next is Over && step is Stray,
            (ShellCommand::Resolving, ShellReply::Sandbox(info)) => Self::attaches(
                info.id,
                server,
                "<affinity sandbox workspace>"@,
                next,
                step,
            ),
            (ShellCommand::Summarizing(id), ShellReply::Unit) => next is Attached && step
                == ShellCmdStep::Ask(ShellEffect::Open(id)),
            (ShellCommand::Attached, ShellReply::Exited(code)) => next is Over && step
                == ShellCmdStep::Done(Ok(code)),
            (ShellCommand::Locating(order), ShellReply::Dir(dir)) => Self::plans(
                order,
                dir@,
                next,
                step,
            ),
            (ShellCommand::Locating(_), ShellReply::Failed(f)) => next is Over && (step
                matches ShellCmdStep::Done(r) && fails_wrapping(
                r,
                "resolve current directory for shell workspace"@,
                f,
            )),
            (ShellCommand::PickingTemplate(brief), ShellReply::Template(template)) => {
                &&& next == ShellCommand::SummarizingNew(brief, template)
                &&& step matches ShellCmdStep::Ask(ShellEffect::Summarize(s))
                &&& is_summary(s, server, Some(brief.network@), opt_view(brief.profile))
                &&& views(s.writable_paths@) == seq![brief.workspace@]
            },
            (ShellCommand::SummarizingNew(brief, template), ShellReply::Unit) => {
                let e = enforcement(server, Some(brief.network@));
                if e.0 == "unsupported"@ {
                    next is Over && (step matches ShellCmdStep::Done(r) && fails_saying(
                        r,
                        match e.1 {
                            Some(reason) => reason,
                            None => "requested network mode is unsupported by active backend"@,
                        },
                    ))
                } else {
                    &&& next is Creating
                    &&& step matches ShellCmdStep::Ask(ShellEffect::CreateSandbox(c))
                    &&& c@ == (crate::config::ConfigModel {
                        template: template@,
                        network: brief.network@,
                        workspace_dir: Some(brief.workspace@),
                        ..default_config()
                    })
                }
            },
            (ShellCommand::Creating, ShellReply::Sandbox(info)) => next == ShellCommand::Opened(
                info.id,
            ) && step == ShellCmdStep::Ask(ShellEffect::Open(info.id)),
            (ShellCommand::Opened(id), ShellReply::Exited(code)) => next
                == ShellCommand::Destroying(id, Ok(code)) && step == ShellCmdStep::Ask(
                ShellEffect::DestroySandbox(id),
            ),
            (ShellCommand::Opened(id), ShellReply::Failed(f)) => next == ShellCommand::Destroying(
                id,
                Err(f),
            ) && step == ShellCmdStep::Ask(ShellEffect::DestroySandbox(id)),
            (ShellCommand::Destroying(_, result), ShellReply::Unit) => next is Over && step
                == ShellCmdStep::Done(result),
            (ShellCommand::Destroying(id, result), ShellReply::Failed(f)) => next is Over
                && match result {
                Ok(_) => step matches ShellCmdStep::Done(r) && fails_wrapping(
                    r,
                    "failed to destroy ephemeral sandbox "@ + hyphenated(id.0)
                        + " after shell exit"@,
                    f,
                ),
                Err(first) => step matches ShellCmdStep::Done(r) && fails_saying(
                    r,
                    "shell failed: "@ + first.message@
                        + "; additionally failed to destroy ephemeral sandbox "@ + hyphenated(id.0)
                        + ": "@ + f.message@,
                ),
            },
            (_, ShellReply::Failed(f)) => next is Over && step == ShellCmdStep::Done(Err(f)),
            _ => next == self && step is Stray,
        }
    }

    fn attach(id: SandboxId, server: Option<&ServerInfo>, scope: &str) -> (r: (Self, ShellCmdStep))
        ensures
            Self::attaches(id, opt_server(server), scope@, r.0, r.1),
    {
        let paths = texts(&[scope]);
        assert(views(paths@) =~= seq![scope@]);
        let summary = build_effective_isolation_summary(server, None, None, paths, 0);
        (
            ShellCommand::Summarizing(id),
            ShellCmdStep::Ask(ShellEffect::Summarize(summary)),
        )
    }

    fn plan(order: ShellOrder, workspace: String) -> (r: (Self, ShellCmdStep))
        ensures
            Self::plans(order, workspace@, r.0, r.1),
    {
        let asked = workspace.clone();
        let brief = BriefSandbox { network: order.network, profile: order.profile, workspace };
        (
            ShellCommand::PickingTemplate(brief),
            ShellCmdStep::Ask(ShellEffect::ResolveTemplate(order.template, asked)),
        )
    }

    pub fn resume(self, reply: ShellReply, server: Option<&ServerInfo>) -> (r: (
        Self,
        ShellCmdStep,
    ))
        ensures
            self.follows(reply, opt_server(server), r.0, r.1),
    {
        match (self, reply) {
            (ShellCommand::Over, _) => (ShellCommand::Over, ShellCmdStep::Stray),
            (ShellCommand::Resolving, ShellReply::Sandbox(info)) => Self::attach(
                info.id,
                server,
                "<affinity sandbox workspace>",
            ),
            (ShellCommand::Summarizing(id), ShellReply::Unit) => (
                ShellCommand::Attached,
                ShellCmdStep::Ask(ShellEffect::Open(id)),
            ),
            (ShellCommand::Attached, ShellReply::Exited(code)) => (
                ShellCommand::Over,
                ShellCmdStep::Done(Ok(code)),
            ),
            (ShellCommand::Locating(order), ShellReply::Dir(dir)) => Self::plan(order, dir),
            (ShellCommand::Locating(_), ShellReply::Failed(f)) => (
                ShellCommand::Over,
                ShellCmdStep::Done(
                    Err(f.within("resolve current directory for shell workspace".to_owned())),
                ),
            ),
            (ShellCommand::PickingTemplate(brief), ShellReply::Template(template)) => {
                let paths = texts(&[brief.workspace.as_str()]);
                assert(views(paths@) =~= seq![brief.workspace@]);
                let profile = match &brief.profile {
                    Some(p) => Some(p.as_str()),
                    None => None,
                };
                let summary = build_effective_isolation_summary(
                    server,
                    Some(&brief.network),
                    profile,
                    paths,
                    0,
                );
                (
                    ShellCommand::SummarizingNew(brief, template),
                    ShellCmdStep::Ask(ShellEffect::Summarize(summary)),
                )
            },
            (ShellCommand::SummarizingNew(brief, template), ShellReply::Unit) => {
                if let Err(text) = ensure_network_mode_supported(server, &brief.network) {
                    return (ShellCommand::Over, ShellCmdStep::Done(Err(Fault::new(text))));
                }
                let mut config = SandboxConfig::default();
                config.template = template;
                config.network = brief.network;
                config.workspace_dir = Some(brief.workspace);
                (
                    ShellCommand::Creating,
                    ShellCmdStep::Ask(ShellEffect::CreateSandbox(config)),
                )
            },
            (ShellCommand::Creating, ShellReply::Sandbox(info)) => (
                ShellCommand::Opened(info.id),
                ShellCmdStep::Ask(ShellEffect::Open(info.id)),
            ),
            (ShellCommand::Opened(id), ShellReply::Exited(code)) => (
                ShellCommand::Destroying(id, Ok(code)),
                ShellCmdStep::Ask(ShellEffect::DestroySandbox(id)),
            ),
            (ShellCommand::Opened(id), ShellReply::Failed(f)) => (
                ShellCommand::Destroying(id, Err(f)),
                ShellCmdStep::Ask(ShellEffect::DestroySandbox(id)),
            ),
            (ShellCommand::Destroying(_, result), ShellReply::Unit) => (
                ShellCommand::Over,
                ShellCmdStep::Done(result),
            ),
            (ShellCommand::Destroying(id, result), ShellReply::Failed(f)) => match result {
                Ok(_) => {
                    let text = cat3(
                        "failed to destroy ephemeral sandbox ",
                        id.text().as_str(),
                        " after shell exit",
                    );
                    (ShellCommand::Over, ShellCmdStep::Done(Err(f.within(text))))
                },
                Err(first) => {
                    let head = cat4(
                        "shell failed: ",
                        first.message.as_str(),
                        "; additionally failed to destroy ephemeral sandbox ",
                        id.text().as_str(),
                    );
                    let text = cat3(head.as_str(), ": ", f.message.as_str());
                    (ShellCommand::Over, ShellCmdStep::Done(Err(Fault::new(text))))
                },
            },
            (_, ShellReply::Failed(f)) => (ShellCommand::Over, ShellCmdStep::Done(Err(f))),
            (state, _) => (state, ShellCmdStep::Stray),
        }
    }
}

/// A sandbox that was made for a shell is taken away again, however the shell went.
pub proof fn brief_sandboxes_go(
    id: SandboxId,
    reply: ShellReply,
    server: Option<ServerInfo>,
    next: ShellCommand,
    step: ShellCmdStep,
)
    requires
        ShellCommand::Opened(id).follows(reply, server, next, step),
        reply is Exited || reply is Failed,
    ensures
        next is Destroying,
        step == ShellCmdStep::Ask(ShellEffect::DestroySandbox(id)),
{
}

/// A sandbox that was there before is never taken away.
pub proof fn existing_sandboxes_stay(
    state: ShellCommand,
    reply: ShellReply,
    server: Option<ServerInfo>,
    next: ShellCommand,
    step: ShellCmdStep,
)
    requires
        state.follows(reply, server, next, step),
        step matches ShellCmdStep::Ask(e) && e is DestroySandbox,
    ensures
        state is Opened,
{
}

/// A shell is opened in the sandbox that was asked for and with the shell that was named: by the
/// container tool in the container of the sandbox, by the agent, or on the host in the directory
/// that the sandbox says it stands in. A terminal is asked for if and only if there is one. The
/// command ends as the shell ended.
pub proof fn shells_open_in_their_sandbox(
    id: SandboxId,
    shell: String,
    terminal: bool,
    server: ServerInfo,
    second: OpenShell,
    step: OpenStep,
    reply: OpenReply,
    last: OpenShell,
    told: OpenStep,
)
    requires
        OpenShell::Asking(id, shell, terminal).follows(OpenReply::Info(server), second, step),
        second.follows(reply, last, told),
    ensures
        ({
            let backend = server.backend_selected@;
            let argv = views(server.apple_helper_argv@);
            let streamed = backend == "firecracker"@ || (backend == "apple"@ && !(argv.len() >= 2
                && argv[1] == "apple-helper"@));
            &&& streamed ==> {
                &&& step matches OpenStep::Ask(OpenEffect::AgentStream(i, s))
                &&& i == id && s@ == shell@
            }
            &&& backend == "local"@ ==> {
                &&& step matches OpenStep::Ask(OpenEffect::Probe(i, _))
                &&& i == id
                &&& reply matches OpenReply::Probed(code, stdout, _) ==> {
                    let dir = trimmed(first_line(stdout@));
                    &&& code == 0 && dir.len() > 0 ==> (told matches OpenStep::Ask(
                        OpenEffect::Launch(l),
                    ) && l.program@ == shell@ && l.args@.len() == 0 && opt_view(l.working_dir)
                        == Some(dir))
                    &&& code != 0 || dir.len() == 0 ==> (told matches OpenStep::Done(Err(_)))
                }
            }
            &&& backend == "apple"@ && !streamed ==> {
                &&& step matches OpenStep::Ask(OpenEffect::Launch(l))
                &&& l.args@.len() >= 2
                &&& l.args@[0]@ == "exec"@
                &&& views(l.args@).contains("--interactive"@)
                &&& l.args@[l.args@.len() - 2]@ == "hyperbox-"@ + hyphenated(id.0)
                &&& l.args@.last()@ == shell@
                &&& l.args@.len() == (if terminal {
                    7int
                } else {
                    6int
                })
                &&& terminal ==> l.args@[4]@ == "--tty"@
            }
            &&& backend != "apple"@ && backend != "local"@ && backend != "firecracker"@ ==> (step
                matches OpenStep::Done(Err(_)))
            &&& (second is Streaming || second is Launching) ==> (reply matches OpenReply::Exited(
                Some(code),
            ) ==> told == OpenStep::Done(Ok(code)))
            &&& (second is Streaming || second is Launching) && reply == OpenReply::Exited(None)
                ==> (told matches OpenStep::Done(Ok(code)) && code != 0)
        }),
{
    reveal_strlit("firecracker");
    reveal_strlit("local");
    reveal_strlit("apple");
    assert("firecracker"@.len() == 11 && "local"@[0] == 'l' && "apple"@[0] == 'a');
    if let OpenStep::Ask(OpenEffect::Launch(l)) = step {
        let args = views(l.args@);
        let all = container_shell_args(id, shell@, terminal);
        assert(args == all);
        assert(all[1] == "--interactive"@);
        assert(forall|i: int| 0 <= i < l.args@.len() ==> args[i] == #[trigger] l.args@[i]@);
        assert(args.len() == l.args@.len());
        assert(l.args@[0]@ == args[0]);
        assert(l.args@[l.args@.len() - 2]@ == args[args.len() - 2]);
        assert(l.args@.last()@ == args[args.len() - 1]);
        if terminal {
            assert(l.args@[4]@ == args[4]);
        }
    }
}

/// A sandbox that is given is attached to as it is: its own shell is opened, and the command ends
/// with what the shell ended with. Without one, a sandbox is made of what the flags say, with the
/// given workspace or the directory that one stands in; its shell is opened and it goes with it.
/// No sandbox is made for a network that the backend would not keep to.
pub proof fn shell_orders_are_kept(
    order: ShellOrder,
    server: Option<ServerInfo>,
    state: ShellCommand,
    first: ShellCmdStep,
    opening: ShellCommand,
    second: ShellCmdStep,
    brief: BriefSandbox,
    template: String,
    creating: ShellCommand,
    made: ShellCmdStep,
    info: SandboxInfo,
    opened: ShellCommand,
    open: ShellCmdStep,
)
    requires
        ShellCommand::begins(order, server, state, first),
        state.follows(ShellReply::Unit, server, opening, second),
        ShellCommand::SummarizingNew(brief, template).follows(
            ShellReply::Unit,
            server,
            creating,
            made,
        ),
        ShellCommand::Creating.follows(ShellReply::Sandbox(info), server, opened, open),
    ensures
        order.sandbox_id matches Some(raw) ==> {
            &&& uuid_parsed(raw@) matches Ok(n) ==> (first matches ShellCmdStep::Ask(
                ShellEffect::Summarize(_),
            )) && second == ShellCmdStep::Ask(ShellEffect::Open(SandboxId(n)))
            &&& uuid_parsed(raw@) is Err ==> (first matches ShellCmdStep::Done(Err(_)))
        },
        order.sandbox_id is None ==> (order.affinity_name matches Some(name) ==> first
            == ShellCmdStep::Ask(ShellEffect::ResolveAffinity(name))),
        order.sandbox_id is None && order.affinity_name is None ==> match order.workspace {
            Some(dir) => {
                &&& first matches ShellCmdStep::Ask(ShellEffect::ResolveTemplate(t, w))
                &&& t@ == order.template@ && w@ == dir@
                &&& state matches ShellCommand::PickingTemplate(b)
                &&& b.network == order.network && b.workspace@ == dir@ && b.profile == order.profile
            },
            None => first == ShellCmdStep::Ask(ShellEffect::CurrentDir),
        },
        enforcement(server, Some(brief.network@)).0 == "unsupported"@ ==> (made
            matches ShellCmdStep::Done(Err(_))),
        enforcement(server, Some(brief.network@)).0 != "unsupported"@ ==> {
            &&& made matches ShellCmdStep::Ask(ShellEffect::CreateSandbox(c))
            &&& c@.template == template@
            &&& c@.network == brief.network@
            &&& c@.workspace_dir == Some(brief.workspace@)
        },
        open == ShellCmdStep::Ask(ShellEffect::Open(info.id)),
        opened == ShellCommand::Opened(info.id),
{
}

/// What a shell puts out goes to the output that it was put out on, byte for byte.
pub proof fn outputs_of_shells_are_kept_apart(event: ShellEvent, show: ShellShow)
    requires
        shown(event, show),
    ensures
        event matches ShellEvent::Stdout(b) ==> (show matches ShellShow::Stdout(s) && s@ == b@),
        event matches ShellEvent::Stderr(b) ==> (show matches ShellShow::Stderr(s) && s@ == b@),
        event matches ShellEvent::ExitCode(c) ==> show == ShellShow::Exit(c),
        event is Error ==> show is Stderr,
{
}

} // verus!
