//! The agent inside a machine.

use hyperbox::agent::paths::{normalize_relative_path, PathEffect, PathReply, PathStep, ResolvePath};
use hyperbox::agent::protocol::{AgentFault, FaultCode};
use hyperbox::agent::service::{
    judge_exec, plan_exec, read_fault, sandbox_or_default, AgentService, ExecEnd, RootPlan,
};
use hyperbox::agent::shell::{Shell, ShellAsk, ShellEvent, ShellMessage, ShellNews, ShellSend};

#[test]
fn normalize_relative_path_rejects_unsafe_inputs() {
    assert!(normalize_relative_path("/etc/passwd").is_err());
    assert!(normalize_relative_path("../secret").is_err());
    assert!(normalize_relative_path("").is_err());
}

fn resolve(path: &str, create: bool, replies: Vec<PathReply>) -> (Vec<String>, Result<String, AgentFault>) {
    let mut replies = replies.into_iter();
    let (mut machine, mut step) = ResolvePath::begin("/root", path, create);
    let mut asked = vec![];
    loop {
        match step {
            PathStep::Done(result) => return (asked, result),
            PathStep::Ask(effect) => {
                asked.push(match effect {
                    PathEffect::Inspect(p) => format!("inspect {p}"),
                    PathEffect::MakeDir(p) => format!("make {p}"),
                });
                (machine, step) = machine.resume(replies.next().expect("a reply"));
            }
            PathStep::Stray => panic!("the way got the wrong reply"),
        }
    }
}

#[test]
fn links_end_the_way() {
    let (_, result) = resolve("link/file.txt", true, vec![PathReply::Found(true, false)]);
    let fault = result.unwrap_err();
    assert_eq!(fault.code, FaultCode::PermissionDenied);
    assert_eq!(fault.message, "symlink paths are not allowed in sandbox file operations");
}

#[test]
fn directories_are_made_only_on_request() {
    let (asked, result) = resolve("a/b.txt", true, vec![PathReply::Absent, PathReply::Unit, PathReply::Absent]);
    assert_eq!(asked, vec!["inspect /root/a", "make /root/a", "inspect /root/a/b.txt"]);
    assert_eq!(result.ok().as_deref(), Some("/root/a/b.txt"));
    let (asked, result) = resolve("a/b.txt", false, vec![PathReply::Absent]);
    assert_eq!(asked, vec!["inspect /root/a"]);
    let fault = result.unwrap_err();
    assert_eq!((fault.code, fault.message.as_str()), (FaultCode::NotFound, "path not found"));
}

#[test]
fn files_are_no_directories_on_the_way() {
    let (_, result) = resolve("a/b.txt", true, vec![PathReply::Found(false, false)]);
    let fault = result.unwrap_err();
    assert_eq!(fault.code, FaultCode::FailedPrecondition);
    assert_eq!(fault.message, "path component is not a directory");
    let (_, result) = resolve("a/b", true, vec![PathReply::Failed("io".to_string())]);
    let fault = result.unwrap_err();
    assert_eq!((fault.code, fault.message.as_str()), (FaultCode::Internal, "inspect path failed: io"));
}

#[test]
fn sandboxes_keep_their_directory() {
    let mut service = AgentService::new("/agent".to_string());
    let id = sandbox_or_default("");
    assert_eq!(id, "default");
    let path = match service.sandbox_root(&id) {
        RootPlan::Make(path) => path,
        RootPlan::Known(path) => panic!("{path} is not known yet"),
    };
    assert_eq!(path, "/agent/default");
    service.root_made(id.clone(), path.clone());
    assert!(matches!(service.sandbox_root(&id), RootPlan::Known(p) if p == path));
}

#[test]
fn commands_of_the_agent_are_planned_and_judged() {
    let fault = plan_exec("s", &vec![], 1).unwrap_err();
    assert_eq!((fault.code, fault.message.as_str()), (FaultCode::InvalidArgument, "command cannot be empty"));
    let command = plan_exec("", &vec!["echo".to_string(), "a".to_string()], 0).expect("a command");
    assert_eq!((command.sandbox_id.as_str(), command.program.as_str()), ("default", "echo"));
    assert_eq!(command.args, vec!["a"]);
    assert_eq!(command.timeout_secs, 1);
    let fault = judge_exec(ExecEnd::TimedOut).unwrap_err();
    assert_eq!((fault.code, fault.message.as_str()), (FaultCode::DeadlineExceeded, "command timed out"));
    let answer = judge_exec(ExecEnd::Exited {
        code: None,
        stdout: b"o".to_vec(),
        stderr: vec![0xff],
        elapsed_ms: 4,
    })
    .expect("an answer");
    assert_eq!((answer.exit_code, answer.stdout.as_str(), answer.stderr.as_str()), (1, "o", "\u{fffd}"));
    assert_eq!(read_fault(true, "x").code, FaultCode::NotFound);
    assert_eq!(read_fault(false, "x").code, FaultCode::Internal);
}

#[test]
fn a_shell_relays_until_the_caller_goes() {
    let (shell, step) = Shell::begin();
    assert!(matches!(step.ask, ShellAsk::Next));
    let (shell, step) = shell.resume(ShellNews::Message(ShellMessage::Open {
        sandbox_id: String::new(),
        command: vec![],
    }));
    assert!(matches!(step.ask, ShellAsk::Root(id) if id == "default"));
    let (shell, step) = shell.resume(ShellNews::Root("/agent/default".to_string()));
    assert!(matches!(step.ask, ShellAsk::Spawn(dir, words) if dir == "/agent/default" && words == ["/bin/sh"]));
    let (shell, _) = shell.resume(ShellNews::Spawned);
    let (shell, step) = shell.resume(ShellNews::Message(ShellMessage::Stdin(b"ls\n".to_vec())));
    assert!(matches!(step.ask, ShellAsk::Write(bytes) if bytes == b"ls\n"));
    let (shell, step) = shell.resume(ShellNews::Unit);
    assert!(matches!(step.ask, ShellAsk::Flush));
    let (shell, step) = shell.resume(ShellNews::Unit);
    assert!(matches!(step.ask, ShellAsk::Next));
    let (shell, step) = shell.resume(ShellNews::End);
    assert!(matches!(step.ask, ShellAsk::Finish));
    let (shell, step) = shell.resume(ShellNews::Exited(Some(3)));
    assert!(matches!(step.sends.as_slice(), [ShellSend::Event(ShellEvent::ExitCode(3))]));
    let (_, step) = shell.resume(ShellNews::Exited(Some(4)));
    assert!(step.sends.is_empty());
}

#[test]
fn a_shell_that_is_not_opened_is_refused() {
    let (shell, _) = Shell::begin();
    let (_, step) = shell.resume(ShellNews::End);
    match step.sends.as_slice() {
        [ShellSend::Fault(fault)] => {
            assert_eq!(fault.code, FaultCode::InvalidArgument);
            assert_eq!(fault.message, "shell stream requires an initial open message");
        }
        other => panic!("{other:?}"),
    }
}
