//! Commands and files in the sandboxes of the Apple backend, and the end of a sandbox.

use crate::apple::backend::{
    ends_in, ends_in_config, ends_unfound, ends_with_answer, asks_container, asks_helper, keeping,
    normalize_relative_path, path_complaint, refuse_answer, AppleEffect, AppleReply, AppleStep,
    AppleVzBackend, DirectContainerSandbox, HelperRequest, HelperResponse, RequestModel,
};
use crate::apple::container::{
    container_path, delete_call, delete_model, exec_args, exec_call, exit_report, parent_call,
    parent_model, path_in_container, plain_call, read_call, read_model, report_exit, stderr_summary,
    summary, write_call, write_model, DEFAULT_IO_TIMEOUT_SECS,
};
use crate::codec::{
    base64_bytes, base64_decode, base64_encode, base64_text, lossy_text, stands_for, utf8_lossy,
};
use crate::error::HyperboxError;
use crate::ids::hyphenated;
use crate::model::{ExecOutcome, ExecRequest, FilePayload, SandboxId};
use crate::numbers::{at_least_one, one_or_more};
use crate::paths::{names_below, path_of, plain_path};
use crate::text::{cat2, cat4, contains, has_text, lowercase, to_lowercase, views};
use vstd::prelude::*;

verus! {

/// The outcome of a command with these outputs.
pub open spec fn is_outcome(
    o: ExecOutcome,
    exit_code: i32,
    stdout: Seq<char>,
    stderr: Seq<char>,
    duration_ms: u64,
) -> bool {
    &&& o.exit_code == exit_code
    &&& o.stdout@ == stdout
    &&& o.stderr@ == stderr
    &&& o.duration_ms == duration_ms
}

fn not_enabled() -> (r: HyperboxError)
    ensures
        r matches HyperboxError::InvalidConfig(s) && s@ == "direct container mode not enabled"@,
{
    HyperboxError::InvalidConfig("direct container mode not enabled".to_owned())
}

/// A command in a sandbox.
#[derive(Debug)]
pub enum AppleExec {
    Running,
    Requesting,
    Calling,
    Over,
}

impl AppleExec {
    /// A command goes to the container of the sandbox, where it has one of its own; else to the
    /// helper program, where there is one; else to the agent.
    pub open spec fn begins(
        backend: AppleVzBackend,
        id: SandboxId,
        request: ExecRequest,
        next: Self,
        step: AppleStep<ExecOutcome>,
    ) -> bool {
        if !backend.sandboxes@.contains_key(id.0) {
            next is Over && ends_unfound(step, id)
        } else if let Some(direct) = backend.sandboxes@[id.0].direct_container {
            if backend.direct_container_bin is None {
                next is Over && ends_in_config(step, "direct container mode not enabled"@)
            } else {
                next is Running && asks_container(
                    step,
                    plain_call(
                        exec_args(direct.container_name@, views(request.command@)),
                        at_least_one(request.timeout_secs),
                    ),
                )
            }
        } else if backend.config.launch_command is Some {
            next is Requesting && asks_helper(
                step,
                RequestModel::Exec {
                    sandbox_id: hyphenated(id.0),
                    command: views(request.command@),
                    timeout_secs: request.timeout_secs,
                },
            )
        } else {
            next is Calling && (step matches AppleStep::Ask(AppleEffect::AgentExec(text, asked))
                && text@ == hyphenated(id.0) && asked == request)
        }
    }

    pub fn begin(backend: &AppleVzBackend, id: SandboxId, request: ExecRequest) -> (r: (
        Self,
        AppleStep<ExecOutcome>,
    ))
        ensures
            Self::begins(*backend, id, request, r.0, r.1),
    {
        match backend.direct_of(id) {
            Err(e) => (AppleExec::Over, AppleStep::Done(Err(e))),
            Ok(Some(direct)) => {
                if backend.direct_container_bin.is_none() {
                    return (AppleExec::Over, AppleStep::Done(Err(not_enabled())));
                }
                let call = exec_call(
                    direct.container_name.as_str(),
                    &request.command,
                    one_or_more(request.timeout_secs),
                );
                (AppleExec::Running, AppleStep::Ask(AppleEffect::Container(call)))
            },
            Ok(None) => {
                if backend.config.launch_command.is_some() {
                    let asked = HelperRequest::Exec {
                        sandbox_id: id.text(),
                        command: request.command,
                        timeout_secs: request.timeout_secs,
                    };
                    (AppleExec::Requesting, AppleStep::Ask(AppleEffect::Helper(asked)))
                } else {
                    (
                        AppleExec::Calling,
                        AppleStep::Ask(AppleEffect::AgentExec(id.text(), request)),
                    )
                }
            },
        }
    }

    /// What a reply leads to.
    pub open spec fn follows(self, reply: AppleReply, next: Self, step: AppleStep<ExecOutcome>)
     -> bool {
        match (self, reply) {
            (AppleExec::Over, _) => next is Over && step is Stray,
            (AppleExec::Running, AppleReply::Ran(result)) => next is Over && (step
                matches AppleStep::Done(Ok(o)) && is_outcome(
                o,
                result.exit_code,
                utf8_lossy(result.stdout@),
                utf8_lossy(result.stderr@),
                result.duration_ms,
            )),
            (AppleExec::Requesting, AppleReply::Helped(response)) => next is Over
                && match response {
                HelperResponse::Exec { exit_code, stdout, stderr, duration_ms } => step
                    matches AppleStep::Done(Ok(o)) && is_outcome(
                    o,
                    exit_code,
                    stdout@,
                    stderr@,
                    duration_ms,
                ),
                _ => ends_with_answer(step, "exec"@, response),
            },
            (AppleExec::Calling, AppleReply::Outcome(outcome)) => next is Over && step
                == AppleStep::<ExecOutcome>::Done(Ok(outcome)),
            (AppleExec::Calling, AppleReply::Unreachable(e)) => next is Over && ends_in(
                step,
                "connect agent: "@ + e@,
            ),
            (AppleExec::Calling, AppleReply::Refused(e)) => next is Over && ends_in(
                step,
                "exec via agent: "@ + e@,
            ),
            (_, AppleReply::Failed(e)) => next is Over && step == AppleStep::<ExecOutcome>::Done(
                Err(e),
            ),
            _ => next == self && step is Stray,
        }
    }

    fn fail(text: String) -> (r: (Self, AppleStep<ExecOutcome>))
        ensures
            r.0 is Over,
            ends_in(r.1, text@),
    {
        (AppleExec::Over, AppleStep::Done(Err(HyperboxError::ExecutionFailed(text))))
    }

    pub fn resume(self, reply: AppleReply) -> (r: (Self, AppleStep<ExecOutcome>))
        ensures
            self.follows(reply, r.0, r.1),
    {
        match (self, reply) {
            (AppleExec::Over, _) => (AppleExec::Over, AppleStep::Stray),
            (AppleExec::Running, AppleReply::Ran(result)) => {
                let outcome = ExecOutcome {
                    exit_code: result.exit_code,
                    stdout: lossy_text(result.stdout.as_slice()),
                    stderr: lossy_text(result.stderr.as_slice()),
                    duration_ms: result.duration_ms as u128,
                };
                (AppleExec::Over, AppleStep::Done(Ok(outcome)))
            },
            (AppleExec::Requesting, AppleReply::Helped(response)) => match response {
                HelperResponse::Exec { exit_code, stdout, stderr, duration_ms } => {
                    let outcome = ExecOutcome {
                        exit_code,
                        stdout,
                        stderr,
                        duration_ms: duration_ms as u128,
                    };
                    (AppleExec::Over, AppleStep::Done(Ok(outcome)))
                },
                other => (AppleExec::Over, AppleStep::Done(Err(refuse_answer("exec", other)))),
            },
            (AppleExec::Calling, AppleReply::Outcome(outcome)) => (
                AppleExec::Over,
                AppleStep::Done(Ok(outcome)),
            ),
            (AppleExec::Calling, AppleReply::Unreachable(e)) => Self::fail(
                cat2("connect agent: ", e.as_str()),
            ),
            (AppleExec::Calling, AppleReply::Refused(e)) => Self::fail(
                cat2("exec via agent: ", e.as_str()),
            ),
            (_, AppleReply::Failed(e)) => (AppleExec::Over, AppleStep::Done(Err(e))),
            (state, _) => (state, AppleStep::Stray),
        }
    }
}

/// The reading of a file.
#[derive(Debug)]
pub enum AppleRead {
    Running(String),
    Requesting(String),
    Calling(String),
    Over,
}

/// The file at a path with these bytes is handed out.
pub open spec fn hands_out(step: AppleStep<FilePayload>, path: Seq<char>, bytes: Seq<u8>) -> bool {
    step matches AppleStep::Done(Ok(p)) && p.path@ == path && p.bytes@ == bytes
}

impl AppleRead {
    /// A file is read where a command of the sandbox would be run.
    pub open spec fn begins(
        backend: AppleVzBackend,
        id: SandboxId,
        path: Seq<char>,
        next: Self,
        step: AppleStep<FilePayload>,
    ) -> bool {
        if !backend.sandboxes@.contains_key(id.0) {
            next is Over && ends_unfound(step, id)
        } else if let Some(direct) = backend.sandboxes@[id.0].direct_container {
            if backend.direct_container_bin is None {
                next is Over && ends_in_config(step, "direct container mode not enabled"@)
            } else {
                match names_below(path) {
                    Err(fault) => next is Over && ends_in(step, path_complaint(fault)),
                    Ok(names) => (next matches AppleRead::Running(p) && p@ == path)
                        && asks_container(
                        step,
                        read_model(direct.container_name@, names, DEFAULT_IO_TIMEOUT_SECS),
                    ),
                }
            }
        } else if backend.config.launch_command is Some {
            (next matches AppleRead::Requesting(p) && p@ == path) && asks_helper(
                step,
                RequestModel::Read { sandbox_id: hyphenated(id.0), path },
            )
        } else {
            (next matches AppleRead::Calling(p) && p@ == path) && (step
                matches AppleStep::Ask(AppleEffect::AgentRead(text, asked)) && text@
                == hyphenated(id.0) && asked@ == path)
        }
    }

    pub fn begin(backend: &AppleVzBackend, id: SandboxId, path: &str) -> (r: (
        Self,
        AppleStep<FilePayload>,
    ))
        ensures
            Self::begins(*backend, id, path@, r.0, r.1),
    {
        match backend.direct_of(id) {
            Err(e) => (AppleRead::Over, AppleStep::Done(Err(e))),
            Ok(Some(direct)) => {
                if backend.direct_container_bin.is_none() {
                    return (AppleRead::Over, AppleStep::Done(Err(not_enabled())));
                }
                match normalize_relative_path(path) {
                    Err(e) => (AppleRead::Over, AppleStep::Done(Err(e))),
                    Ok(names) => {
                        let call = read_call(
                            direct.container_name.as_str(),
                            &names,
                            DEFAULT_IO_TIMEOUT_SECS,
                        );
                        (
                            AppleRead::Running(path.to_owned()),
                            AppleStep::Ask(AppleEffect::Container(call)),
                        )
                    },
                }
            },
            Ok(None) => {
                if backend.config.launch_command.is_some() {
                    let asked = HelperRequest::Read { sandbox_id: id.text(), path: path.to_owned() };
                    (
                        AppleRead::Requesting(path.to_owned()),
                        AppleStep::Ask(AppleEffect::Helper(asked)),
                    )
                } else {
                    (
                        AppleRead::Calling(path.to_owned()),
                        AppleStep::Ask(AppleEffect::AgentRead(id.text(), path.to_owned())),
                    )
                }
            },
        }
    }

    /// What a reply leads to.
    pub open spec fn follows(self, reply: AppleReply, next: Self, step: AppleStep<FilePayload>)
     -> bool {
        match (self, reply) {
            (AppleRead::Over, _) => next is Over && step is Stray,
            (AppleRead::Running(path), AppleReply::Ran(result)) => next is Over
                && if result.exit_code == 0 {
                hands_out(step, path@, result.stdout@)
            } else {
                ends_in(step, exit_report("read"@, result.exit_code, summary(result.stderr@)))
            },
            (AppleRead::Requesting(path), AppleReply::Helped(response)) => next is Over
                && match response {
                HelperResponse::Read { bytes_b64 } => match base64_bytes(bytes_b64@) {
                    Ok(bytes) => hands_out(step, path@, bytes),
                    Err(e) => ends_in(step, "decode helper read payload: "@ + e),
                },
                _ => ends_with_answer(step, "read"@, response),
            },
            (AppleRead::Calling(path), AppleReply::Bytes(bytes)) => next is Over && hands_out(
                step,
                path@,
                bytes@,
            ),
            (AppleRead::Calling(_), AppleReply::Unreachable(e)) => next is Over && ends_in(
                step,
                "connect agent: "@ + e@,
            ),
            (AppleRead::Calling(_), AppleReply::Refused(e)) => next is Over && ends_in(
                step,
                "read file via agent: "@ + e@,
            ),
            (_, AppleReply::Failed(e)) => next is Over && step == AppleStep::<FilePayload>::Done(
                Err(e),
            ),
            _ => next == self && step is Stray,
        }
    }

    fn fail(text: String) -> (r: (Self, AppleStep<FilePayload>))
        ensures
            r.0 is Over,
            ends_in(r.1, text@),
    {
        (AppleRead::Over, AppleStep::Done(Err(HyperboxError::ExecutionFailed(text))))
    }

    pub fn resume(self, reply: AppleReply) -> (r: (Self, AppleStep<FilePayload>))
        ensures
            self.follows(reply, r.0, r.1),
    {
        match (self, reply) {
            (AppleRead::Over, _) => (AppleRead::Over, AppleStep::Stray),
            (AppleRead::Running(path), AppleReply::Ran(result)) => {
                if result.exit_code == 0 {
                    (
                        AppleRead::Over,
                        AppleStep::Done(Ok(FilePayload { path, bytes: result.stdout })),
                    )
                } else {
                    let detail = stderr_summary(&result.stderr);
                    Self::fail(report_exit("read", result.exit_code, detail.as_str()))
                }
            },
            (AppleRead::Requesting(path), AppleReply::Helped(response)) => match response {
                HelperResponse::Read { bytes_b64 } => match base64_decode(bytes_b64.as_str()) {
                    Ok(bytes) => (
                        AppleRead::Over,
                        AppleStep::Done(Ok(FilePayload { path, bytes })),
                    ),
                    Err(e) => Self::fail(cat2("decode helper read payload: ", e.as_str())),
                },
                other => (AppleRead::Over, AppleStep::Done(Err(refuse_answer("read", other)))),
            },
            (AppleRead::Calling(path), AppleReply::Bytes(bytes)) => (
                AppleRead::Over,
                AppleStep::Done(Ok(FilePayload { path, bytes })),
            ),
            (AppleRead::Calling(_), AppleReply::Unreachable(e)) => Self::fail(
                cat2("connect agent: ", e.as_str()),
            ),
            (AppleRead::Calling(_), AppleReply::Refused(e)) => Self::fail(
                cat2("read file via agent: ", e.as_str()),
            ),
            (_, AppleReply::Failed(e)) => (AppleRead::Over, AppleStep::Done(Err(e))),
            (state, _) => (state, AppleStep::Stray),
        }
    }
}

/// The writing of a file.
#[derive(Debug)]
pub enum AppleWrite {
    /// The directory of the file is made; then the file at this path of the container is
    /// filled with these bytes.
    MakingParent(String, String, Vec<u8>),
    Running,
    Requesting,
    Calling,
    Over,
}

impl AppleWrite {
    /// The directory of the file is made where it stands in one; else the file is filled at
    /// once.
    pub open spec fn opens(
        container: Seq<char>,
        names: Seq<Seq<char>>,
        bytes: Seq<u8>,
        next: Self,
        step: AppleStep<()>,
    ) -> bool {
        let path = container_path(plain_path(names));
        match parent_model(container, names, DEFAULT_IO_TIMEOUT_SECS) {
            Some(call) => (next matches AppleWrite::MakingParent(c, p, b) && c@ == container && p@
                == path && b@ == bytes) && asks_container(step, call),
            None => next is Running && asks_container(
                step,
                write_model(container, path, bytes, DEFAULT_IO_TIMEOUT_SECS),
            ),
        }
    }

    /// A file is written where a command of the sandbox would be run.
    pub open spec fn begins(
        backend: AppleVzBackend,
        id: SandboxId,
        payload: FilePayload,
        next: Self,
        step: AppleStep<()>,
    ) -> bool {
        if !backend.sandboxes@.contains_key(id.0) {
            next is Over && ends_unfound(step, id)
        } else if let Some(direct) = backend.sandboxes@[id.0].direct_container {
            if backend.direct_container_bin is None {
                next is Over && ends_in_config(step, "direct container mode not enabled"@)
            } else {
                match names_below(payload.path@) {
                    Err(fault) => next is Over && ends_in(step, path_complaint(fault)),
                    Ok(names) => Self::opens(
                        direct.container_name@,
                        names,
                        payload.bytes@,
                        next,
                        step,
                    ),
                }
            }
        } else if backend.config.launch_command is Some {
            next is Requesting && asks_helper(
                step,
                RequestModel::Write {
                    sandbox_id: hyphenated(id.0),
                    path: payload.path@,
                    bytes_b64: base64_text(payload.bytes@),
                },
            )
        } else {
            next is Calling && (step matches AppleStep::Ask(AppleEffect::AgentWrite(text, asked))
                && text@ == hyphenated(id.0) && asked == payload)
        }
    }

    pub fn begin(backend: &AppleVzBackend, id: SandboxId, payload: FilePayload) -> (r: (
        Self,
        AppleStep<()>,
    ))
        ensures
            Self::begins(*backend, id, payload, r.0, r.1),
            // What goes to the helper program reads back as the bytes of the file.
            r.1 matches AppleStep::Ask(AppleEffect::Helper(h)) ==> (h@ matches RequestModel::Write {
                sandbox_id: _,
                path: _,
                bytes_b64,
            } && stands_for(bytes_b64, payload.bytes@)),
    {
        match backend.direct_of(id) {
            Err(e) => (AppleWrite::Over, AppleStep::Done(Err(e))),
            Ok(Some(direct)) => {
                if backend.direct_container_bin.is_none() {
                    return (AppleWrite::Over, AppleStep::Done(Err(not_enabled())));
                }
                let names = match normalize_relative_path(payload.path.as_str()) {
                    Err(e) => {
                        return (AppleWrite::Over, AppleStep::Done(Err(e)));
                    },
                    Ok(names) => names,
                };
                let path = path_in_container(path_of(&names).as_str());
                match parent_call(direct.container_name.as_str(), &names, DEFAULT_IO_TIMEOUT_SECS) {
                    Some(call) => (
                        AppleWrite::MakingParent(direct.container_name, path, payload.bytes),
                        AppleStep::Ask(AppleEffect::Container(call)),
                    ),
                    None => {
                        let call = write_call(
                            direct.container_name.as_str(),
                            path.as_str(),
                            payload.bytes,
                            DEFAULT_IO_TIMEOUT_SECS,
                        );
                        (AppleWrite::Running, AppleStep::Ask(AppleEffect::Container(call)))
                    },
                }
            },
            Ok(None) => {
                if backend.config.launch_command.is_some() {
                    let bytes_b64 = base64_encode(payload.bytes.as_slice());
                    let asked = HelperRequest::Write {
                        sandbox_id: id.text(),
                        path: payload.path,
                        bytes_b64,
                    };
                    (AppleWrite::Requesting, AppleStep::Ask(AppleEffect::Helper(asked)))
                } else {
                    (
                        AppleWrite::Calling,
                        AppleStep::Ask(AppleEffect::AgentWrite(id.text(), payload)),
                    )
                }
            },
        }
    }

    /// What a reply leads to.
    pub open spec fn follows(self, reply: AppleReply, next: Self, step: AppleStep<()>) -> bool {
        match (self, reply) {
            (AppleWrite::Over, _) => next is Over && step is Stray,
            (AppleWrite::MakingParent(container, path, bytes), AppleReply::Ran(result)) => if result.exit_code
                == 0 {
                next is Running && asks_container(
                    step,
                    write_model(container@, path@, bytes@, DEFAULT_IO_TIMEOUT_SECS),
                )
            } else {
                next is Over && ends_in(
                    step,
                    exit_report(
                        "create parent directory"@,
                        result.exit_code,
                        summary(result.stderr@),
                    ),
                )
            },
            (AppleWrite::Running, AppleReply::Ran(result)) => next is Over
                && if result.exit_code == 0 {
                step == AppleStep::<()>::Done(Ok(()))
            } else {
                ends_in(step, exit_report("write"@, result.exit_code, summary(result.stderr@)))
            },
            (AppleWrite::Requesting, AppleReply::Helped(response)) => next is Over
                && if response is Ack {
                step == AppleStep::<()>::Done(Ok(()))
            } else {
                ends_with_answer(step, "write"@, response)
            },
            (AppleWrite::Calling, AppleReply::Unit) => next is Over && step == AppleStep::<
                (),
            >::Done(Ok(())),
            (AppleWrite::Calling, AppleReply::Unreachable(e)) => next is Over && ends_in(
                step,
                "connect agent: "@ + e@,
            ),
            (AppleWrite::Calling, AppleReply::Refused(e)) => next is Over && ends_in(
                step,
                "write file via agent: "@ + e@,
            ),
            (_, AppleReply::Failed(e)) => next is Over && step == AppleStep::<()>::Done(Err(e)),
            _ => next == self && step is Stray,
        }
    }

    fn fail(text: String) -> (r: (Self, AppleStep<()>))
        ensures
            r.0 is Over,
            ends_in(r.1, text@),
    {
        (AppleWrite::Over, AppleStep::Done(Err(HyperboxError::ExecutionFailed(text))))
    }

    pub fn resume(self, reply: AppleReply) -> (r: (Self, AppleStep<()>))
        ensures
            self.follows(reply, r.0, r.1),
    {
        match (self, reply) {
            (AppleWrite::Over, _) => (AppleWrite::Over, AppleStep::Stray),
            (AppleWrite::MakingParent(container, path, bytes), AppleReply::Ran(result)) => {
                if result.exit_code == 0 {
                    let call = write_call(
                        container.as_str(),
                        path.as_str(),
                        bytes,
                        DEFAULT_IO_TIMEOUT_SECS,
                    );
                    (AppleWrite::Running, AppleStep::Ask(AppleEffect::Container(call)))
                } else {
                    let detail = stderr_summary(&result.stderr);
                    Self::fail(
                        report_exit("create parent directory", result.exit_code, detail.as_str()),
                    )
                }
            },
            (AppleWrite::Running, AppleReply::Ran(result)) => {
                if result.exit_code == 0 {
                    (AppleWrite::Over, AppleStep::Done(Ok(())))
                } else {
                    let detail = stderr_summary(&result.stderr);
                    Self::fail(report_exit("write", result.exit_code, detail.as_str()))
                }
            },
            (AppleWrite::Requesting, AppleReply::Helped(response)) => match response {
                HelperResponse::Ack => (AppleWrite::Over, AppleStep::Done(Ok(()))),
                other => (AppleWrite::Over, AppleStep::Done(Err(refuse_answer("write", other)))),
            },
            (AppleWrite::Calling, AppleReply::Unit) => (AppleWrite::Over, AppleStep::Done(Ok(()))),
            (AppleWrite::Calling, AppleReply::Unreachable(e)) => Self::fail(
                cat2("connect agent: ", e.as_str()),
            ),
            (AppleWrite::Calling, AppleReply::Refused(e)) => Self::fail(
                cat2("write file via agent: ", e.as_str()),
            ),
            (_, AppleReply::Failed(e)) => (AppleWrite::Over, AppleStep::Done(Err(e))),
            (state, _) => (state, AppleStep::Stray),
        }
    }
}

/// The end of a sandbox.
#[derive(Debug)]
pub enum AppleDestroy {
    Deleting(DirectContainerSandbox),
    RemovingWorkspace(String),
    RemovingRoot,
    Requesting,
    Over,
}

/// The output says that the container was not there.
pub open spec fn says_not_found(stderr: Seq<u8>) -> bool {
    has_text(lowercase(utf8_lossy(stderr)), "not found"@)
}

impl AppleDestroy {
    /// The container of the sandbox is removed, or the helper program is asked to remove it.
    pub open spec fn begins(
        backend: AppleVzBackend,
        id: SandboxId,
        next: Self,
        step: AppleStep<()>,
    ) -> bool {
        if !backend.sandboxes@.contains_key(id.0) {
            next is Over && ends_unfound(step, id)
        } else if let Some(direct) = backend.sandboxes@[id.0].direct_container {
            if backend.direct_container_bin is None {
                next is Over && ends_in_config(step, "direct container mode not enabled"@)
            } else {
                next == AppleDestroy::Deleting(direct) && asks_container(
                    step,
                    delete_model(direct.container_name@),
                )
            }
        } else if backend.config.launch_command is Some {
            next is Requesting && asks_helper(
                step,
                RequestModel::Destroy { sandbox_id: hyphenated(id.0) },
            )
        } else {
            next is Over && step == AppleStep::<()>::Done(Ok(()))
        }
    }

    /// The sandbox is forgotten at once, whatever comes of its container.
    pub fn begin(backend: &mut AppleVzBackend, id: SandboxId) -> (r: (Self, AppleStep<()>))
        ensures
            keeping(*old(backend), *final(backend), old(backend).sandboxes@.remove(id.0)),
            Self::begins(*old(backend), id, r.0, r.1),
    {
        let found = backend.direct_of(id);
        backend.sandboxes.remove(&id.0);
        match found {
            Err(e) => (AppleDestroy::Over, AppleStep::Done(Err(e))),
            Ok(Some(direct)) => {
                if backend.direct_container_bin.is_none() {
                    return (AppleDestroy::Over, AppleStep::Done(Err(not_enabled())));
                }
                let call = delete_call(direct.container_name.as_str());
                (AppleDestroy::Deleting(direct), AppleStep::Ask(AppleEffect::Container(call)))
            },
            Ok(None) => {
                if backend.config.launch_command.is_some() {
                    let asked = HelperRequest::Destroy { sandbox_id: id.text() };
                    (AppleDestroy::Requesting, AppleStep::Ask(AppleEffect::Helper(asked)))
                } else {
                    (AppleDestroy::Over, AppleStep::Done(Ok(())))
                }
            },
        }
    }

    /// What a reply leads to. A container that is gone already counts as removed. A workspace
    /// that was made for the sandbox goes with it; one that was given stays.
    pub open spec fn follows(self, reply: AppleReply, next: Self, step: AppleStep<()>) -> bool {
        match (self, reply) {
            (AppleDestroy::Over, _) => next is Over && step is Stray,
            (AppleDestroy::Deleting(direct), AppleReply::Ran(result)) => if result.exit_code != 0
                && !says_not_found(result.stderr@) {
                next is Over && ends_in(
                    step,
                    exit_report("container delete"@, result.exit_code, summary(result.stderr@)),
                )
            } else if direct.ephemeral_workspace {
                (next matches AppleDestroy::RemovingWorkspace(p) && p == direct.workspace_host) && (
                step matches AppleStep::Ask(AppleEffect::RemoveDirAll(p)) && p@
                    == direct.workspace_host@)
            } else {
                next is Over && step == AppleStep::<()>::Done(Ok(()))
            },
            (AppleDestroy::RemovingWorkspace(path), AppleReply::Unit) => next is RemovingRoot
                && step == AppleStep::<()>::Ask(AppleEffect::RemoveParent(path)),
            (AppleDestroy::RemovingWorkspace(path), AppleReply::IoFailed(e)) => next is Over
                && ends_in(step, "remove ephemeral workspace `"@ + path@ + "`: "@ + e@),
            (AppleDestroy::RemovingRoot, AppleReply::Unit) | (
                AppleDestroy::RemovingRoot,
                AppleReply::IoFailed(_),
            ) => next is Over && step == AppleStep::<()>::Done(Ok(())),
            (AppleDestroy::Requesting, AppleReply::Helped(_)) => next is Over && step
                == AppleStep::<()>::Done(Ok(())),
            (_, AppleReply::Failed(e)) => next is Over && step == AppleStep::<()>::Done(Err(e)),
            _ => next == self && step is Stray,
        }
    }

    pub fn resume(self, reply: AppleReply) -> (r: (Self, AppleStep<()>))
        ensures
            self.follows(reply, r.0, r.1),
    {
        match (self, reply) {
            (AppleDestroy::Over, _) => (AppleDestroy::Over, AppleStep::Stray),
            (AppleDestroy::Deleting(direct), AppleReply::Ran(result)) => {
                if result.exit_code != 0 {
                    let text = to_lowercase(lossy_text(result.stderr.as_slice()).as_str());
                    if !contains(text.as_str(), "not found") {
                        let detail = stderr_summary(&result.stderr);
                        let report = report_exit(
                            "container delete",
                            result.exit_code,
                            detail.as_str(),
                        );
                        return (
                            AppleDestroy::Over,
                            AppleStep::Done(Err(HyperboxError::ExecutionFailed(report))),
                        );
                    }
                }
                if direct.ephemeral_workspace {
                    let asked = direct.workspace_host.clone();
                    (
                        AppleDestroy::RemovingWorkspace(direct.workspace_host),
                        AppleStep::Ask(AppleEffect::RemoveDirAll(asked)),
                    )
                } else {
                    (AppleDestroy::Over, AppleStep::Done(Ok(())))
                }
            },
            (AppleDestroy::RemovingWorkspace(path), AppleReply::Unit) => (
                AppleDestroy::RemovingRoot,
                AppleStep::Ask(AppleEffect::RemoveParent(path)),
            ),
            (AppleDestroy::RemovingWorkspace(path), AppleReply::IoFailed(e)) => {
                let text = cat4("remove ephemeral workspace `", path.as_str(), "`: ", e.as_str());
                (AppleDestroy::Over, AppleStep::Done(Err(HyperboxError::ExecutionFailed(text))))
            },
            (AppleDestroy::RemovingRoot, AppleReply::Unit) => (
                AppleDestroy::Over,
                AppleStep::Done(Ok(())),
            ),
            (AppleDestroy::RemovingRoot, AppleReply::IoFailed(_)) => (
                AppleDestroy::Over,
                AppleStep::Done(Ok(())),
            ),
            (AppleDestroy::Requesting, AppleReply::Helped(_)) => (
                AppleDestroy::Over,
                AppleStep::Done(Ok(())),
            ),
            (_, AppleReply::Failed(e)) => (AppleDestroy::Over, AppleStep::Done(Err(e))),
            (state, _) => (state, AppleStep::Stray),
        }
    }
}

/// A workspace that was given to a sandbox is never removed: only one that was made for it.
pub proof fn given_workspaces_stay(
    state: AppleDestroy,
    reply: AppleReply,
    next: AppleDestroy,
    step: AppleStep<()>,
)
    requires
        state.follows(reply, next, step),
        step matches AppleStep::Ask(e) && e is RemoveDirAll,
    ensures
        state matches AppleDestroy::Deleting(direct) && direct.ephemeral_workspace,
{
}

} // verus!
