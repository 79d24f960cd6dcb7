//! The backend that runs commands on the host itself, each sandbox in a directory.

use crate::codec::{json_list, json_list_text, lossy_text, utf8_lossy};
use crate::config::{patterns, NetworkMode, NetworkModel, SandboxConfig};
use crate::env::{env_pairs, pair_views};
use crate::error::{execution_failed, invalid_config, sandbox_not_found, HyperboxError};
use crate::ids::hyphenated;
use crate::model::{ExecOutcome, ExecRequest, SandboxId, SandboxInfo, SandboxLease, SandboxState};
use crate::paths::{absolute, below, is_absolute, join_path};
use crate::table::Table;
use crate::text::{cat3, clone_texts, lowercase, opt_view, same, same_ignoring_case, views};
use crate::time::Timestamp;
use vstd::prelude::*;

verus! {

#[derive(Debug)]
pub struct LocalRecord {
    pub config: SandboxConfig,
    pub info: SandboxInfo,
    pub working_dir: String,
    pub managed_working_dir: bool,
}

#[derive(Debug)]
pub struct LocalBackend {
    pub root_dir: String,
    pub sandboxes: Table<u128, LocalRecord>,
}

/// What an operation of the backend asks for.
#[derive(Debug)]
pub enum LocalEffect {
    CreateDirAll(String),
    CurrentDir,
    RemoveDirAll(String),
}

/// What came of it.
#[derive(Debug)]
pub enum LocalReply {
    Unit,
    Failed(String),
    Dir(String),
}

#[derive(Debug)]
pub enum LocalStep<T> {
    Ask(LocalEffect),
    Done(Result<T, HyperboxError>),
    Stray,
}

pub open spec fn local_makes<T>(step: LocalStep<T>, path: Seq<char>) -> bool {
    step matches LocalStep::Ask(LocalEffect::CreateDirAll(p)) && p@ == path
}

pub open spec fn local_io<T>(step: LocalStep<T>, text: Seq<char>) -> bool {
    step matches LocalStep::Done(Err(HyperboxError::Io(s))) && s@ == text
}

/// Whether a setting lets sandboxes have a network that is not held to.
pub open spec fn allows_unenforced(setting: Option<Seq<char>>) -> bool {
    setting matches Some(v) && (v == "1"@ || lowercase(v) == "true"@)
}

fn unenforced_allowed(setting: &Option<String>) -> (r: bool)
    ensures
        r == allows_unenforced(opt_view(*setting)),
{
    match setting {
        None => false,
        Some(v) => {
            proof {
                reveal_strlit("true");
                assert(lowercase("true"@) =~= "true"@);
            }
            same(v.as_str(), "1") || same_ignoring_case(v.as_str(), "true")
        },
    }
}

impl LocalBackend {
    /// A backend below this directory, or below the one for temporary files.
    pub fn new(root_dir: Option<String>, temp_dir: &str) -> (r: Self)
        ensures
            r.sandboxes@ == Map::<u128, LocalRecord>::empty(),
            match root_dir {
                Some(dir) => r.root_dir == dir,
                None => r.root_dir@ == below(temp_dir@, "hyperbox-local"@),
            },
    {
        let root_dir = match root_dir {
            Some(dir) => dir,
            None => join_path(temp_dir, "hyperbox-local"),
        };
        LocalBackend { root_dir, sandboxes: Table::new() }
    }

    /// The directory of a sandbox that was given none.
    pub fn sandbox_workdir(&self, sandbox_id: SandboxId) -> (r: String)
        ensures
            r@ == below(self.root_dir@, hyphenated(sandbox_id.0)),
    {
        join_path(self.root_dir.as_str(), sandbox_id.text().as_str())
    }

    pub fn inspect(&self, id: SandboxId) -> (r: Result<SandboxInfo, HyperboxError>)
        ensures
            self.sandboxes@.contains_key(id.0) ==> r == Ok::<SandboxInfo, HyperboxError>(
                self.sandboxes@[id.0].info,
            ),
            !self.sandboxes@.contains_key(id.0) ==> sandbox_not_found(r, hyphenated(id.0)),
    {
        match self.sandboxes.get(&id.0) {
            None => Err(HyperboxError::SandboxNotFound(id.text())),
            Some(record) => Ok(record.info.copy()),
        }
    }

    /// Where a file of a sandbox stands on the host.
    pub fn file_path(&self, id: SandboxId, path: &str) -> (r: Result<String, HyperboxError>)
        ensures
            self.sandboxes@.contains_key(id.0) ==> (r matches Ok(p) && p@ == below(
                self.sandboxes@[id.0].working_dir@,
                path@,
            )),
            !self.sandboxes@.contains_key(id.0) ==> sandbox_not_found(r, hyphenated(id.0)),
    {
        match self.sandboxes.get(&id.0) {
            None => Err(HyperboxError::SandboxNotFound(id.text())),
            Some(record) => Ok(join_path(record.working_dir.as_str(), path)),
        }
    }
}

/// A sandbox on its way.
#[derive(Debug)]
pub struct NewLocal {
    pub id: SandboxId,
    pub created_at: Timestamp,
    pub config: SandboxConfig,
}

impl NewLocal {
    pub open spec fn info(self) -> SandboxInfo {
        SandboxInfo {
            id: self.id,
            template: self.config.template,
            state: SandboxState::Ready,
            created_at: self.created_at,
        }
    }
}

/// The making of a sandbox.
#[derive(Debug)]
pub enum LocalCreate {
    MakingRoot(NewLocal),
    Locating(NewLocal, String),
    /// The directory, and whether it was made for the sandbox.
    MakingDir(NewLocal, String, bool),
    Over,
}

impl LocalCreate {
    pub fn begin(
        backend: &LocalBackend,
        id: SandboxId,
        created_at: Timestamp,
        config: SandboxConfig,
        unenforced_setting: &Option<String>,
    ) -> (r: (Self, LocalStep<SandboxLease>))
        ensures
            if !(config@.network is NoNetwork) && !allows_unenforced(
                opt_view(*unenforced_setting),
            ) {
                r.0 is Over && (r.1 matches LocalStep::Done(done) && invalid_config(
                    done,
                    "local backend does not enforce network policy; set HYPERBOX_BACKEND=firecracker for allowlist/full network"@,
                ))
            } else {
                r.0 == LocalCreate::MakingRoot(NewLocal { id, created_at, config }) && local_makes(
                    r.1,
                    backend.root_dir@,
                )
            },
    {
        let networked = match &config.network {
            NetworkMode::NoNetwork => false,
            _ => true,
        };
        if networked && !unenforced_allowed(unenforced_setting) {
            return (
                LocalCreate::Over,
                LocalStep::Done(
                    Err(
                        HyperboxError::InvalidConfig(
                            "local backend does not enforce network policy; set HYPERBOX_BACKEND=firecracker for allowlist/full network".to_owned(),
                        ),
                    ),
                ),
            );
        }
        (
            LocalCreate::MakingRoot(NewLocal { id, created_at, config }),
            LocalStep::Ask(LocalEffect::CreateDirAll(backend.root_dir.clone())),
        )
    }

    /// What a reply leads to. A directory that was given is used where it stands; else the
    /// sandbox gets one of its own.
    pub open spec fn follows(
        self,
        reply: LocalReply,
        before: LocalBackend,
        after: LocalBackend,
        next: Self,
        step: LocalStep<SandboxLease>,
    ) -> bool {
        match (self, reply) {
            (LocalCreate::Over, _) => next is Over && step is Stray && after == before,
            (LocalCreate::MakingRoot(new), LocalReply::Unit) => after == before
                && match new.config.workspace_dir {
                Some(dir) => if absolute(dir@) {
                    (next matches LocalCreate::MakingDir(n, p, managed) && n == new && p@ == dir@
                        && !managed) && local_makes(step, dir@)
                } else {
                    (next matches LocalCreate::Locating(n, d) && n == new && d@ == dir@) && step
                        == LocalStep::<SandboxLease>::Ask(LocalEffect::CurrentDir)
                },
                None => {
                    let path = below(before.root_dir@, hyphenated(new.id.0));
                    (next matches LocalCreate::MakingDir(n, p, managed) && n == new && p@ == path
                        && managed) && local_makes(step, path)
                },
            },
            (LocalCreate::Locating(new, dir), LocalReply::Dir(current)) => after == before && (next
                matches LocalCreate::MakingDir(n, p, managed) && n == new && p@ == below(
                current@,
                dir@,
            ) && !managed) && local_makes(step, below(current@, dir@)),
            (LocalCreate::MakingDir(new, path, managed), LocalReply::Unit) => {
                &&& next is Over
                &&& step == LocalStep::Done(Ok(SandboxLease { id: new.id, info: new.info() }))
                &&& after.root_dir == before.root_dir
                &&& after.sandboxes@ == before.sandboxes@.insert(
                    new.id.0,
                    LocalRecord {
                        config: new.config,
                        info: new.info(),
                        working_dir: path,
                        managed_working_dir: managed,
                    },
                )
            },
            (_, LocalReply::Failed(e)) => after == before && next is Over && local_io(step, e@),
            _ => after == before && next == self && step is Stray,
        }
    }

    fn make(new: NewLocal, path: String, managed: bool) -> (r: (Self, LocalStep<SandboxLease>))
        ensures
            r.0 == LocalCreate::MakingDir(new, path, managed),
            local_makes(r.1, path@),
    {
        let asked = path.clone();
        (
            LocalCreate::MakingDir(new, path, managed),
            LocalStep::Ask(LocalEffect::CreateDirAll(asked)),
        )
    }

    pub fn resume(self, reply: LocalReply, backend: &mut LocalBackend) -> (r: (
        Self,
        LocalStep<SandboxLease>,
    ))
        ensures
            self.follows(reply, *old(backend), *final(backend), r.0, r.1),
    {
        match (self, reply) {
            (LocalCreate::Over, _) => (LocalCreate::Over, LocalStep::Stray),
            (LocalCreate::MakingRoot(new), LocalReply::Unit) => {
                let given = crate::text::clone_opt(&new.config.workspace_dir);
                match given {
                    Some(dir) => {
                        if is_absolute(dir.as_str()) {
                            Self::make(new, dir, false)
                        } else {
                            (
                                LocalCreate::Locating(new, dir),
                                LocalStep::Ask(LocalEffect::CurrentDir),
                            )
                        }
                    },
                    None => {
                        let path = backend.sandbox_workdir(new.id);
                        Self::make(new, path, true)
                    },
                }
            },
            (LocalCreate::Locating(new, dir), LocalReply::Dir(current)) => {
                let path = join_path(current.as_str(), dir.as_str());
                Self::make(new, path, false)
            },
            (LocalCreate::MakingDir(new, path, managed), LocalReply::Unit) => {
                let info = SandboxInfo {
                    id: new.id,
                    template: new.config.template.clone(),
                    state: SandboxState::Ready,
                    created_at: new.created_at,
                };
                let kept = info.copy();
                backend.sandboxes.insert(
                    new.id.0,
                    LocalRecord {
                        config: new.config,
                        info: kept,
                        working_dir: path,
                        managed_working_dir: managed,
                    },
                );
                (LocalCreate::Over, LocalStep::Done(Ok(SandboxLease { id: new.id, info })))
            },
            (_, LocalReply::Failed(e)) => (
                LocalCreate::Over,
                LocalStep::Done(Err(HyperboxError::Io(e))),
            ),
            (state, _) => (state, LocalStep::Stray),
        }
    }
}

/// A command as it is to be run on the host.
#[derive(Debug, PartialEq, Eq)]
pub struct LocalCommand {
    pub program: String,
    pub args: Vec<String>,
    pub working_dir: String,
    /// Variables of its environment. A later one stands in place of an earlier one.
    pub env: Vec<(String, String)>,
    pub timeout_secs: u64,
}

/// A network as commands hear of it, in JSON.
pub open spec fn network_json(network: NetworkModel) -> Seq<char> {
    match network {
        NetworkModel::NoNetwork => "\"none\""@,
        NetworkModel::Full => "\"full\""@,
        NetworkModel::Allowlist(list) => match json_list_text(patterns(list)) {
            Ok(text) => "{\"allowlist\":"@ + text + "}"@,
            Err(_) => "\"none\""@,
        },
    }
}

pub fn network_setting(network: &NetworkMode) -> (r: String)
    ensures
        r@ == network_json(network@),
{
    match network {
        NetworkMode::NoNetwork => "\"none\"".to_owned(),
        NetworkMode::Full => "\"full\"".to_owned(),
        NetworkMode::Allowlist(list) => match json_list(&list.to_strings()) {
            Ok(text) => cat3("{\"allowlist\":", text.as_str(), "}"),
            Err(_) => "\"none\"".to_owned(),
        },
    }
}

/// The environment of the commands of a sandbox: its template and network, then what its
/// configuration says.
pub open spec fn command_env(config: SandboxConfig) -> Seq<(Seq<char>, Seq<char>)> {
    seq![
        ("HYPERBOX_TEMPLATE"@, config.template@),
        ("HYPERBOX_NETWORK_MODE"@, network_json(config.network@)),
    ] + config@.env
}

fn environment(config: &SandboxConfig) -> (r: Vec<(String, String)>)
    ensures
        pair_views(r@) == command_env(*config),
{
    let mut out: Vec<(String, String)> = Vec::new();
    out.push(("HYPERBOX_TEMPLATE".to_owned(), config.template.clone()));
    out.push(("HYPERBOX_NETWORK_MODE".to_owned(), network_setting(&config.network)));
    let ghost head = pair_views(out@);
    let mut more = env_pairs(&config.env);
    let ghost last = more@;
    out.append(&mut more);
    assert(pair_views(out@) =~= head + pair_views(last));
    assert(pair_views(out@) =~= command_env(*config));
    out
}

impl LocalBackend {
    /// What a request in a sandbox comes to.
    pub open spec fn plans(
        self,
        id: SandboxId,
        request: ExecRequest,
        r: Result<LocalCommand, HyperboxError>,
    ) -> bool {
        if !self.sandboxes@.contains_key(id.0) {
            sandbox_not_found(r, hyphenated(id.0))
        } else if request.command@.len() == 0 {
            invalid_config(r, "command cannot be empty"@)
        } else {
            let record = self.sandboxes@[id.0];
            &&& r matches Ok(c)
            &&& c.program@ == request.command@[0]@
            &&& views(c.args@) == views(request.command@).subrange(
                1,
                request.command@.len() as int,
            )
            &&& c.working_dir == record.working_dir
            &&& pair_views(c.env@) == command_env(record.config)
            &&& c.timeout_secs == request.timeout_secs
        }
    }

    /// The command that a request in a sandbox asks for.
    pub fn plan_exec(&self, id: SandboxId, request: &ExecRequest) -> (r: Result<
        LocalCommand,
        HyperboxError,
    >)
        ensures
            self.plans(id, *request, r),
    {
        match self.sandboxes.get(&id.0) {
            None => Err(HyperboxError::SandboxNotFound(id.text())),
            Some(record) => {
                if request.command.len() == 0 {
                    return Err(HyperboxError::InvalidConfig("command cannot be empty".to_owned()));
                }
                let mut args = clone_texts(&request.command);
                let ghost all = views(args@);
                assert(all == views(request.command@) && all.len() == args@.len());
                let program = args.remove(0);
                assert(all[0] == request.command@[0]@);
                assert(views(args@) =~= all.subrange(1, all.len() as int));
                Ok(
                    LocalCommand {
                        program,
                        args,
                        working_dir: record.working_dir.clone(),
                        env: environment(&record.config),
                        timeout_secs: request.timeout_secs,
                    },
                )
            },
        }
    }
}

/// What came of a command.
#[derive(Debug)]
pub enum LocalEnd {
    TimedOut,
    Failed(String),
    Exited { code: Option<i32>, stdout: Vec<u8>, stderr: Vec<u8>, elapsed_ms: u128 },
}

/// What an end of a command is told as.
pub open spec fn judged(end: LocalEnd, r: Result<ExecOutcome, HyperboxError>) -> bool {
    match end {
        LocalEnd::TimedOut => execution_failed(r, "command timed out"@),
        LocalEnd::Failed(e) => r matches Err(HyperboxError::Io(s)) && s == e,
        LocalEnd::Exited { code, stdout, stderr, elapsed_ms } => r matches Ok(o) && {
            &&& o.exit_code == match code {
                Some(c) => c,
                None => 1,
            }
            &&& o.stdout@ == utf8_lossy(stdout@)
            &&& o.stderr@ == utf8_lossy(stderr@)
            &&& o.duration_ms == elapsed_ms
        },
    }
}

pub fn judge_exec(end: LocalEnd) -> (r: Result<ExecOutcome, HyperboxError>)
    ensures
        judged(end, r),
{
    match end {
        LocalEnd::TimedOut => Err(HyperboxError::ExecutionFailed("command timed out".to_owned())),
        LocalEnd::Failed(e) => Err(HyperboxError::Io(e)),
        LocalEnd::Exited { code, stdout, stderr, elapsed_ms } => Ok(
            ExecOutcome {
                exit_code: match code {
                    Some(c) => c,
                    None => 1,
                },
                stdout: lossy_text(stdout.as_slice()),
                stderr: lossy_text(stderr.as_slice()),
                duration_ms: elapsed_ms,
            },
        ),
    }
}

impl LocalBackend {
    /// Takes a sandbox away. The directory that is handed out goes with it, if it is there;
    /// one that was given stays.
    pub fn destroy(&mut self, id: SandboxId) -> (r: Result<Option<String>, HyperboxError>)
        ensures
            final(self).root_dir == old(self).root_dir,
            final(self).sandboxes@ == old(self).sandboxes@.remove(id.0),
            if !old(self).sandboxes@.contains_key(id.0) {
                sandbox_not_found(r, hyphenated(id.0))
            } else if old(self).sandboxes@[id.0].managed_working_dir {
                r == Ok::<Option<String>, HyperboxError>(
                    Some(old(self).sandboxes@[id.0].working_dir),
                )
            } else {
                r == Ok::<Option<String>, HyperboxError>(None)
            },
    {
        match self.sandboxes.take(&id.0) {
            None => Err(HyperboxError::SandboxNotFound(id.text())),
            Some(record) => {
                if record.managed_working_dir {
                    Ok(Some(record.working_dir))
                } else {
                    Ok(None)
                }
            },
        }
    }
}

/// A sandbox works in the directory that it was given, and only a directory that was made for
/// it is marked to go with it.
pub proof fn given_directories_are_kept(
    state: LocalCreate,
    reply: LocalReply,
    before: LocalBackend,
    after: LocalBackend,
    next: LocalCreate,
    step: LocalStep<SandboxLease>,
)
    requires
        state.follows(reply, before, after, next, step),
        !(state is MakingDir),
    ensures
        next matches LocalCreate::MakingDir(new, _, managed) ==> (if state is Locating {
            !managed
        } else {
            managed == (new.config.workspace_dir is None)
        }),
{
}

/// A command of a sandbox is run word for word in the directory of the sandbox, and hears of its
/// template, its network and what its configuration says of the environment.
pub proof fn commands_run_in_their_directory(
    backend: LocalBackend,
    id: SandboxId,
    request: ExecRequest,
    r: Result<LocalCommand, HyperboxError>,
)
    requires
        backend.plans(id, request, r),
    ensures
        r is Ok <==> backend.sandboxes@.contains_key(id.0) && request.command@.len() > 0,
        r matches Ok(c) ==> {
            let record = backend.sandboxes@[id.0];
            let env = pair_views(c.env@);
            &&& seq![c.program@] + views(c.args@) == views(request.command@)
            &&& c.working_dir@ == record.working_dir@
            &&& c.timeout_secs == request.timeout_secs
            &&& env.contains(("HYPERBOX_TEMPLATE"@, record.config.template@))
            &&& record.config.network@ is NoNetwork ==> env.contains(
                ("HYPERBOX_NETWORK_MODE"@, "\"none\""@),
            )
            &&& record.config.network@ is Full ==> env.contains(
                ("HYPERBOX_NETWORK_MODE"@, "\"full\""@),
            )
            &&& forall|i: int|
                0 <= i < record.config@.env.len() ==> env[i + 2] == #[trigger] record.config@.env[i]
            &&& env.len() == record.config@.env.len() + 2
        },
{
    if let Ok(c) = r {
        let all = views(request.command@);
        assert(all[0] == request.command@[0]@);
        assert(seq![c.program@] + views(c.args@) =~= all);
        let env = pair_views(c.env@);
        assert(env[0] == ("HYPERBOX_TEMPLATE"@, backend.sandboxes@[id.0].config.template@));
        assert(env[1].0 == "HYPERBOX_NETWORK_MODE"@);
        assert(env.contains(env[0]) && env.contains(env[1]));
    }
}

/// A command that ended is told with its code and each of its outputs; one that was ended by a
/// signal, and so has no code, does not count as a success.
pub proof fn ended_commands_are_told(end: LocalEnd, r: Result<ExecOutcome, HyperboxError>)
    requires
        judged(end, r),
    ensures
        r is Ok <==> end is Exited,
        end matches LocalEnd::Exited { code, stdout, stderr, elapsed_ms } ==> {
            &&& r matches Ok(o)
            &&& code matches Some(c) ==> o.exit_code == c
            &&& code is None ==> o.exit_code != 0
            &&& o.stdout@ == utf8_lossy(stdout@)
            &&& o.stderr@ == utf8_lossy(stderr@)
            &&& o.duration_ms == elapsed_ms
        },
{
}

} // verus!
