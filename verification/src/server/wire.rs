//! The messages that the server and its clients exchange, and what they mean.

use crate::cli::policy::ServerInfo;
use crate::config::{
    default_config, list_patterns_read_back, parsed_list, patterns, valid_list, Allowlist,
    ConfigModel, NetworkMode, NetworkModel, SandboxConfig,
};
use crate::env::{
    env_assigned, env_from_pairs, env_pairs, env_pairs_make_the_map, keys_distinct, pair_views,
};
use crate::ids::{hyphenated, uuid_parsed};
use crate::model::{SandboxId, SandboxInfo, SandboxState};
use crate::process::{
    opt_time, ProcessDisposition, ProcessId, ProcessInfo, ProcessLogRead, ProcessModel,
    ProcessStatus, StreamName,
};
use crate::server::effects::PreparedRunSandbox;
use crate::server::metrics::MetricsSnapshot;
use crate::server::run::{StartRunRequest, StartedRun};
use crate::snapshot::{SnapshotId, SnapshotMetadata, SnapshotModel};
use crate::text::{cat2, opt_view, same, trim, trimmed, views};
use crate::time::{in_calendar, rfc3339_parsed, TimeModel, Timestamp};
use vstd::prelude::*;

verus! {

/// The numbers of the network modes in a message.
pub const WIRE_NETWORK_NONE: i32 = 0;

pub const WIRE_NETWORK_ALLOWLIST: i32 = 1;

pub const WIRE_NETWORK_FULL: i32 = 2;

/// A message that cannot be carried out: what is wrong with it.
#[derive(Debug, Clone, PartialEq, Eq)]
pub struct InvalidArgument(pub String);

#[derive(Debug, Clone, PartialEq, Eq)]
pub struct WireSandboxInfo {
    pub id: String,
    pub template: String,
    pub state: String,
    pub created_at: String,
}

#[derive(Debug, Clone, PartialEq, Eq)]
pub struct WireProcessInfo {
    pub process_id: String,
    pub sandbox_id: String,
    pub requested_sandbox_id: String,
    pub disposition: String,
    pub destroy_sandbox_on_expiry: bool,
    pub command: Vec<String>,
    pub status: String,
    pub stdout_path: String,
    pub stderr_path: String,
    pub backend_pid: u32,
    pub has_backend_pid: bool,
    pub exit_code: i32,
    pub has_exit_code: bool,
    pub started_at: String,
    pub finished_at: String,
    pub expires_at: String,
}

#[derive(Debug, Clone, PartialEq, Eq)]
pub struct WireSandboxConfig {
    pub template: String,
    pub memory_mb: u32,
    pub vcpu_count: u32,
    pub timeout_secs: u64,
    pub env: Vec<(String, String)>,
    pub network_mode: i32,
    pub network_allowlist: Vec<String>,
    pub workspace_dir: String,
    pub affinity_name: String,
}

#[derive(Debug, Clone, PartialEq, Eq)]
pub struct WirePreparedRunSandbox {
    pub info: WireSandboxInfo,
    pub requested_sandbox_id: String,
    pub disposition: String,
}

#[derive(Debug, Clone, PartialEq, Eq)]
pub struct WireProcessLog {
    pub stream: String,
    pub offset: u64,
    pub next_offset: u64,
    pub eof: bool,
    pub contents: String,
}

#[derive(Debug, Clone, Copy, PartialEq, Eq, Structural)]
pub struct WireMetrics {
    pub creates: u64,
    pub destroys: u64,
    pub execs: u64,
    pub exec_failures: u64,
    pub p50_exec_ms: u64,
    pub p95_exec_ms: u64,
}

#[derive(Debug, Clone, PartialEq, Eq)]
pub struct WireSnapshotInfo {
    pub snapshot_id: String,
    pub sandbox_id: String,
    pub template: String,
    pub created_at: String,
    pub note: String,
    pub affinity_name: String,
}

#[derive(Debug, Clone, PartialEq, Eq)]
pub struct WireStartRun {
    pub sandbox_id: String,
    pub affinity_name: String,
    pub create_config: Option<WireSandboxConfig>,
    pub reuse_auto_session: bool,
    pub ensure_commands: Vec<String>,
    pub writes: Vec<(String, Vec<u8>)>,
    pub command: String,
    pub destroy_sandbox_on_expiry: bool,
}

/// A text that may be missing, in a message: a missing one is empty.
pub open spec fn blank(s: Option<Seq<char>>) -> Seq<char> {
    match s {
        Some(t) => t,
        None => Seq::<char>::empty(),
    }
}

/// What an empty text of a message stands for: none.
pub open spec fn unblank(s: Seq<char>) -> Option<Seq<char>> {
    if s.len() == 0 {
        None
    } else {
        Some(s)
    }
}

fn or_blank(s: Option<String>) -> (r: String)
    ensures
        r@ == blank(opt_view(s)),
{
    match s {
        Some(t) => t,
        None => String::new(),
    }
}

fn not_blank(s: String) -> (r: Option<String>)
    ensures
        opt_view(r) == unblank(s@),
{
    if s.as_str().is_empty() {
        None
    } else {
        Some(s)
    }
}

fn id_or_blank(id: Option<SandboxId>) -> (r: String)
    ensures
        r@ == (match id {
            Some(i) => hyphenated(i.0),
            None => Seq::<char>::empty(),
        }),
{
    match id {
        Some(i) => i.text(),
        None => String::new(),
    }
}

/// The complaint about a text that is no identifier.
pub open spec fn bad_id(what: Seq<char>, text: Seq<char>) -> Seq<char> {
    what + uuid_parsed(text)->Err_0
}

pub fn parse_sandbox_id(raw: &str) -> (r: Result<SandboxId, InvalidArgument>)
    ensures
        match uuid_parsed(raw@) {
            Ok(id) => r == Ok::<SandboxId, InvalidArgument>(SandboxId(id)),
            Err(_) => r matches Err(e) && e.0@ == bad_id("invalid sandbox_id: "@, raw@),
        },
        forall|id: u128|
            raw@ == #[trigger] hyphenated(id) ==> r == Ok::<SandboxId, InvalidArgument>(
                SandboxId(id),
            ),
{
    match SandboxId::parse(raw) {
        Ok(id) => Ok(id),
        Err(e) => Err(InvalidArgument(cat2("invalid sandbox_id: ", e.as_str()))),
    }
}

pub fn parse_process_id(raw: &str) -> (r: Result<ProcessId, InvalidArgument>)
    ensures
        match uuid_parsed(raw@) {
            Ok(id) => r == Ok::<ProcessId, InvalidArgument>(ProcessId(id)),
            Err(_) => r matches Err(e) && e.0@ == bad_id("invalid process_id: "@, raw@),
        },
        forall|id: u128|
            raw@ == #[trigger] hyphenated(id) ==> r == Ok::<ProcessId, InvalidArgument>(
                ProcessId(id),
            ),
{
    match ProcessId::parse(raw) {
        Ok(id) => Ok(id),
        Err(e) => Err(InvalidArgument(cat2("invalid process_id: ", e.as_str()))),
    }
}

pub fn parse_snapshot_id(raw: &str) -> (r: Result<SnapshotId, InvalidArgument>)
    ensures
        match uuid_parsed(raw@) {
            Ok(id) => r == Ok::<SnapshotId, InvalidArgument>(SnapshotId(id)),
            Err(_) => r matches Err(e) && e.0@ == bad_id("invalid snapshot_id: "@, raw@),
        },
        forall|id: u128|
            raw@ == #[trigger] hyphenated(id) ==> r == Ok::<SnapshotId, InvalidArgument>(
                SnapshotId(id),
            ),
{
    match SnapshotId::parse(raw) {
        Ok(id) => Ok(id),
        Err(e) => Err(InvalidArgument(cat2("invalid snapshot_id: ", e.as_str()))),
    }
}

/// The message that stands for a sandbox.
pub open spec fn is_info_message(m: WireSandboxInfo, info: SandboxInfo) -> bool {
    &&& m.id@ == hyphenated(info.id.0)
    &&& m.template@ == info.template@
    &&& m.state@ == info.state.word()
    &&& m.created_at@ == info.created_at@.text()
}

pub fn into_proto_info(info: SandboxInfo) -> (r: WireSandboxInfo)
    ensures
        is_info_message(r, info),
{
    WireSandboxInfo {
        id: info.id.text(),
        template: info.template,
        state: info.state.name().to_owned(),
        created_at: info.created_at.to_rfc3339(),
    }
}

pub open spec fn opt_time_text(t: Option<TimeModel>) -> Seq<char> {
    match t {
        Some(t) => t.text(),
        None => Seq::<char>::empty(),
    }
}

fn opt_time_or_blank(t: Option<Timestamp>) -> (r: String)
    ensures
        r@ == opt_time_text(opt_time(t)),
        t is Some ==> r@.len() > 0,
{
    match t {
        Some(t) => t.to_rfc3339(),
        None => String::new(),
    }
}

/// The message that stands for a process.
pub open spec fn is_process_message(m: WireProcessInfo, p: ProcessModel) -> bool {
    &&& m.process_id@ == hyphenated(p.id.0)
    &&& m.sandbox_id@ == hyphenated(p.sandbox_id.0)
    &&& m.requested_sandbox_id@ == (match p.requested_sandbox_id {
        Some(i) => hyphenated(i.0),
        None => Seq::<char>::empty(),
    })
    &&& m.disposition@ == p.disposition.word()
    &&& m.destroy_sandbox_on_expiry == p.destroy_sandbox_on_expiry
    &&& views(m.command@) == p.command
    &&& m.status@ == p.status.word()
    &&& m.stdout_path@ == p.stdout_path
    &&& m.stderr_path@ == p.stderr_path
    &&& m.has_backend_pid == (p.backend_pid is Some)
    &&& m.backend_pid == p.backend_pid.unwrap_or(0)
    &&& m.has_exit_code == (p.exit_code is Some)
    &&& m.exit_code == p.exit_code.unwrap_or(0)
    &&& m.started_at@ == p.started_at.text()
    &&& m.finished_at@ == opt_time_text(p.finished_at)
    &&& m.expires_at@ == opt_time_text(p.expires_at)
    &&& (p.finished_at is Some ==> m.finished_at@.len() > 0)
    &&& (p.expires_at is Some ==> m.expires_at@.len() > 0)
}

pub fn into_proto_process(process: ProcessInfo) -> (r: WireProcessInfo)
    ensures
        is_process_message(r, process@),
{
    WireProcessInfo {
        process_id: process.id.text(),
        sandbox_id: process.sandbox_id.text(),
        requested_sandbox_id: id_or_blank(process.requested_sandbox_id),
        disposition: process.disposition.name().to_owned(),
        destroy_sandbox_on_expiry: process.destroy_sandbox_on_expiry,
        command: process.command,
        status: process.status.name().to_owned(),
        stdout_path: process.stdout_path,
        stderr_path: process.stderr_path,
        backend_pid: process.backend_pid.unwrap_or(0),
        has_backend_pid: process.backend_pid.is_some(),
        exit_code: process.exit_code.unwrap_or(0),
        has_exit_code: process.exit_code.is_some(),
        started_at: process.started_at.to_rfc3339(),
        finished_at: opt_time_or_blank(process.finished_at),
        expires_at: opt_time_or_blank(process.expires_at),
    }
}

/// The disposition that a request names; none is named by an empty text.
pub open spec fn disposition_named(raw: Seq<char>) -> Option<ProcessDisposition> {
    if raw == ""@ || raw == "ReusedExisting"@ {
        Some(ProcessDisposition::ReusedExisting)
    } else if raw == "CreatedNew"@ {
        Some(ProcessDisposition::CreatedNew)
    } else if raw == "CreatedDueToBusy"@ {
        Some(ProcessDisposition::CreatedDueToBusy)
    } else {
        None
    }
}

pub fn parse_process_disposition(raw: &str) -> (r: Result<ProcessDisposition, InvalidArgument>)
    ensures
        match disposition_named(raw@) {
            Some(d) => r == Ok::<ProcessDisposition, InvalidArgument>(d),
            None => r matches Err(e) && e.0@ == "invalid process disposition: "@ + raw@,
        },
{
    if same(raw, "") || same(raw, "ReusedExisting") {
        Ok(ProcessDisposition::ReusedExisting)
    } else if same(raw, "CreatedNew") {
        Ok(ProcessDisposition::CreatedNew)
    } else if same(raw, "CreatedDueToBusy") {
        Ok(ProcessDisposition::CreatedDueToBusy)
    } else {
        Err(InvalidArgument(cat2("invalid process disposition: ", raw)))
    }
}

pub fn into_proto_prepared_run_sandbox(prepared: PreparedRunSandbox) -> (r:
    WirePreparedRunSandbox)
    ensures
        is_info_message(r.info, prepared.info),
        r.requested_sandbox_id@ == (match prepared.requested_sandbox_id {
            Some(i) => hyphenated(i.0),
            None => Seq::<char>::empty(),
        }),
        r.disposition@ == prepared.disposition.word(),
{
    WirePreparedRunSandbox {
        info: into_proto_info(prepared.info),
        requested_sandbox_id: id_or_blank(prepared.requested_sandbox_id),
        disposition: prepared.disposition.name().to_owned(),
    }
}

/// The stream that a request names.
pub open spec fn stream_named(raw: Seq<char>) -> Option<StreamName> {
    if raw == "stdout"@ || raw == "Stdout"@ {
        Some(StreamName::Stdout)
    } else if raw == "stderr"@ || raw == "Stderr"@ {
        Some(StreamName::Stderr)
    } else {
        None
    }
}

pub fn parse_stream_name(raw: &str) -> (r: Result<StreamName, InvalidArgument>)
    ensures
        match stream_named(raw@) {
            Some(s) => r == Ok::<StreamName, InvalidArgument>(s),
            None => r matches Err(e) && e.0@ == "invalid stream: "@ + raw@,
        },
{
    if same(raw, "stdout") || same(raw, "Stdout") {
        Ok(StreamName::Stdout)
    } else if same(raw, "stderr") || same(raw, "Stderr") {
        Ok(StreamName::Stderr)
    } else {
        Err(InvalidArgument(cat2("invalid stream: ", raw)))
    }
}

pub open spec fn stream_word(s: StreamName) -> Seq<char> {
    match s {
        StreamName::Stdout => "stdout"@,
        StreamName::Stderr => "stderr"@,
    }
}

/// The name of a stream in a message.
pub fn stream_name(s: StreamName) -> (r: &'static str)
    ensures
        r@ == stream_word(s),
{
    match s {
        StreamName::Stdout => "stdout",
        StreamName::Stderr => "stderr",
    }
}

/// The message that stands for a part of a log.
pub open spec fn is_log_message(m: WireProcessLog, log: ProcessLogRead) -> bool {
    &&& m.stream@ == stream_word(log.stream)
    &&& m.offset == log.offset
    &&& m.next_offset == log.next_offset
    &&& m.eof == log.eof
    &&& m.contents@ == log.contents@
}

pub fn into_proto_process_log(log: ProcessLogRead) -> (r: WireProcessLog)
    ensures
        is_log_message(r, log),
{
    WireProcessLog {
        stream: stream_name(log.stream).to_owned(),
        offset: log.offset,
        next_offset: log.next_offset,
        eof: log.eof,
        contents: log.contents,
    }
}

/// What a client reads from that message.
pub fn parse_process_log(m: WireProcessLog) -> (r: ProcessLogRead)
    ensures
        r.stream == (if m.stream@ == "stderr"@ {
            StreamName::Stderr
        } else {
            StreamName::Stdout
        }),
        r.offset == m.offset,
        r.next_offset == m.next_offset,
        r.eof == m.eof,
        r.contents@ == m.contents@,
{
    let stream = if same(m.stream.as_str(), "stderr") {
        StreamName::Stderr
    } else {
        StreamName::Stdout
    };
    ProcessLogRead {
        stream,
        offset: m.offset,
        next_offset: m.next_offset,
        eof: m.eof,
        contents: m.contents,
    }
}

/// The message that stands for the counters; long times are cut to 64 bits.
pub fn into_proto_metrics(value: MetricsSnapshot) -> (r: WireMetrics)
    ensures
        r.creates == value.creates,
        r.destroys == value.destroys,
        r.execs == value.execs,
        r.exec_failures == value.exec_failures,
        r.p50_exec_ms == value.p50_exec_ms % 0x1_0000_0000_0000_0000,
        r.p95_exec_ms == value.p95_exec_ms % 0x1_0000_0000_0000_0000,
{
    WireMetrics {
        creates: value.creates,
        destroys: value.destroys,
        execs: value.execs,
        exec_failures: value.exec_failures,
        p50_exec_ms: (value.p50_exec_ms % 0x1_0000_0000_0000_0000) as u64,
        p95_exec_ms: (value.p95_exec_ms % 0x1_0000_0000_0000_0000) as u64,
    }
}

/// The network of a message.
pub open spec fn network_of(mode: i32, allowlist: Seq<Seq<char>>) -> Result<
    NetworkModel,
    Seq<char>,
> {
    if mode == WIRE_NETWORK_ALLOWLIST {
        match parsed_list(allowlist) {
            Ok(list) => Ok(NetworkModel::Allowlist(list)),
            Err(m) => Err(m),
        }
    } else if mode == WIRE_NETWORK_FULL {
        Ok(NetworkModel::Full)
    } else {
        Ok(NetworkModel::NoNetwork)
    }
}

fn parse_network(mode: i32, allowlist: &Vec<String>) -> (r: Result<NetworkMode, InvalidArgument>)
    ensures
        match network_of(mode, views(allowlist@)) {
            Ok(n) => r matches Ok(m) && m@ == n,
            Err(m) => r matches Err(e) && e.0@ == m,
        },
{
    if mode == WIRE_NETWORK_ALLOWLIST {
        match Allowlist::parse(allowlist.as_slice()) {
            Ok(list) => Ok(NetworkMode::Allowlist(list)),
            Err(m) => Err(InvalidArgument(m)),
        }
    } else if mode == WIRE_NETWORK_FULL {
        Ok(NetworkMode::Full)
    } else {
        Ok(NetworkMode::NoNetwork)
    }
}

/// The configuration that a request asks for: what it leaves out is as in the default one.
pub open spec fn config_asked(m: WireSandboxConfig) -> Result<ConfigModel, Seq<char>> {
    match network_of(m.network_mode, views(m.network_allowlist@)) {
        Err(e) => Err(e),
        Ok(network) => Ok(
            ConfigModel {
                affinity_name: unblank(m.affinity_name@),
                template: if m.template@.len() == 0 {
                    default_config().template
                } else {
                    m.template@
                },
                memory_mb: if m.memory_mb == 0 {
                    default_config().memory_mb
                } else {
                    m.memory_mb
                },
                vcpu_count: if m.vcpu_count == 0 {
                    default_config().vcpu_count
                } else {
                    (m.vcpu_count % 256) as u8
                },
                workspace_dir: unblank(m.workspace_dir@),
                network,
                env: env_assigned(pair_views(m.env@)),
                timeout_secs: if m.timeout_secs == 0 {
                    default_config().timeout_secs
                } else {
                    m.timeout_secs
                },
            },
        ),
    }
}

pub fn from_proto_config(config: WireSandboxConfig) -> (r: Result<SandboxConfig, InvalidArgument>)
    ensures
        match config_asked(config) {
            Ok(c) => r matches Ok(v) && v@ == c,
            Err(m) => r matches Err(e) && e.0@ == m,
        },
{
    let network = match parse_network(config.network_mode, &config.network_allowlist) {
        Ok(n) => n,
        Err(e) => {
            return Err(e);
        },
    };
    let standard = SandboxConfig::default();
    Ok(
        SandboxConfig {
            affinity_name: not_blank(config.affinity_name),
            template: if config.template.as_str().is_empty() {
                standard.template
            } else {
                config.template
            },
            memory_mb: if config.memory_mb == 0 {
                standard.memory_mb
            } else {
                config.memory_mb
            },
            vcpu_count: if config.vcpu_count == 0 {
                standard.vcpu_count
            } else {
                (config.vcpu_count % 256) as u8
            },
            workspace_dir: not_blank(config.workspace_dir),
            network,
            env: env_from_pairs(&config.env),
            timeout_secs: if config.timeout_secs == 0 {
                standard.timeout_secs
            } else {
                config.timeout_secs
            },
        },
    )
}

/// The message that stands for a configuration.
pub open spec fn is_config_message(m: WireSandboxConfig, c: ConfigModel) -> bool {
    &&& m.template@ == c.template
    &&& m.memory_mb == c.memory_mb
    &&& m.vcpu_count == c.vcpu_count
    &&& m.timeout_secs == c.timeout_secs
    &&& pair_views(m.env@) == c.env
    &&& m.network_mode == (match c.network {
        NetworkModel::NoNetwork => WIRE_NETWORK_NONE,
        NetworkModel::Full => WIRE_NETWORK_FULL,
        NetworkModel::Allowlist(_) => WIRE_NETWORK_ALLOWLIST,
    })
    &&& views(m.network_allowlist@) == (match c.network {
        NetworkModel::Allowlist(list) => patterns(list),
        _ => Seq::<Seq<char>>::empty(),
    })
    &&& m.workspace_dir@ == blank(c.workspace_dir)
    &&& m.affinity_name@ == blank(c.affinity_name)
}

pub fn into_proto_config(config: SandboxConfig) -> (r: WireSandboxConfig)
    ensures
        is_config_message(r, config@),
        keys_distinct(config@.env),
{
    let (network_mode, network_allowlist) = match &config.network {
        NetworkMode::NoNetwork => (WIRE_NETWORK_NONE, Vec::new()),
        NetworkMode::Allowlist(domains) => (WIRE_NETWORK_ALLOWLIST, domains.to_strings()),
        NetworkMode::Full => (WIRE_NETWORK_FULL, Vec::new()),
    };
    assert(network_mode != WIRE_NETWORK_ALLOWLIST ==> views(network_allowlist@) =~= Seq::<
        Seq<char>,
    >::empty());
    WireSandboxConfig {
        template: config.template,
        memory_mb: config.memory_mb,
        vcpu_count: config.vcpu_count as u32,
        timeout_secs: config.timeout_secs,
        env: env_pairs(&config.env),
        network_mode,
        network_allowlist,
        workspace_dir: or_blank(config.workspace_dir),
        affinity_name: or_blank(config.affinity_name),
    }
}

/// A configuration that a message can carry: nothing in it looks left out.
pub open spec fn sendable(c: ConfigModel) -> bool {
    &&& c.template.len() > 0
    &&& c.memory_mb != 0
    &&& c.vcpu_count != 0
    &&& c.timeout_secs != 0
    &&& (c.affinity_name matches Some(n) ==> n.len() > 0)
    &&& (c.workspace_dir matches Some(d) ==> d.len() > 0)
    &&& (c.network matches NetworkModel::Allowlist(list) ==> valid_list(list))
    &&& keys_distinct(c.env)
}

/// The server reads from a message the configuration that the client sent.
pub proof fn config_messages_read_back(m: WireSandboxConfig, c: ConfigModel)
    requires
        is_config_message(m, c),
        sendable(c),
    ensures
        config_asked(m) == Ok::<ConfigModel, Seq<char>>(c),
{
    env_pairs_make_the_map(c.env);
    if let NetworkModel::Allowlist(list) = c.network {
        list_patterns_read_back(list);
    }
    assert(unblank(blank(c.affinity_name)) == c.affinity_name);
    assert(unblank(blank(c.workspace_dir)) == c.workspace_dir);
}

/// The state that a client reads from its name; an unknown one counts as ready.
pub open spec fn state_named(word: Seq<char>) -> SandboxState {
    if word == "Provisioning"@ {
        SandboxState::Provisioning
    } else if word == "Busy"@ {
        SandboxState::Busy
    } else if word == "Stopped"@ {
        SandboxState::Stopped
    } else if word == "Failed"@ {
        SandboxState::Failed
    } else {
        SandboxState::Ready
    }
}

fn parse_state(word: &str) -> (r: SandboxState)
    ensures
        r == state_named(word@),
{
    if same(word, "Provisioning") {
        SandboxState::Provisioning
    } else if same(word, "Busy") {
        SandboxState::Busy
    } else if same(word, "Stopped") {
        SandboxState::Stopped
    } else if same(word, "Failed") {
        SandboxState::Failed
    } else {
        SandboxState::Ready
    }
}

/// The status that a client reads from its name; an unknown one counts as failed.
pub open spec fn status_named(word: Seq<char>) -> ProcessStatus {
    if word == "Starting"@ {
        ProcessStatus::Starting
    } else if word == "Running"@ {
        ProcessStatus::Running
    } else if word == "Succeeded"@ {
        ProcessStatus::Succeeded
    } else if word == "Cancelled"@ {
        ProcessStatus::Cancelled
    } else if word == "Lost"@ {
        ProcessStatus::Lost
    } else {
        ProcessStatus::Failed
    }
}

fn parse_status(word: &str) -> (r: ProcessStatus)
    ensures
        r == status_named(word@),
{
    if same(word, "Starting") {
        ProcessStatus::Starting
    } else if same(word, "Running") {
        ProcessStatus::Running
    } else if same(word, "Succeeded") {
        ProcessStatus::Succeeded
    } else if same(word, "Cancelled") {
        ProcessStatus::Cancelled
    } else if same(word, "Lost") {
        ProcessStatus::Lost
    } else {
        ProcessStatus::Failed
    }
}

/// The disposition that a client reads from its name; an unknown one counts as reuse.
pub open spec fn disposition_read(word: Seq<char>) -> ProcessDisposition {
    if word == "CreatedNew"@ {
        ProcessDisposition::CreatedNew
    } else if word == "CreatedDueToBusy"@ {
        ProcessDisposition::CreatedDueToBusy
    } else {
        ProcessDisposition::ReusedExisting
    }
}

fn read_disposition(word: &str) -> (r: ProcessDisposition)
    ensures
        r == disposition_read(word@),
{
    if same(word, "CreatedNew") {
        ProcessDisposition::CreatedNew
    } else if same(word, "CreatedDueToBusy") {
        ProcessDisposition::CreatedDueToBusy
    } else {
        ProcessDisposition::ReusedExisting
    }
}

/// Names are read as what they name.
pub proof fn names_read_back(
    state: SandboxState,
    status: ProcessStatus,
    disposition: ProcessDisposition,
)
    ensures
        state_named(state.word()) == state,
        status_named(status.word()) == status,
        disposition_read(disposition.word()) == disposition,
        disposition_named(disposition.word()) == Some(disposition),
{
    reveal_strlit("Provisioning");
    reveal_strlit("Ready");
    reveal_strlit("Busy");
    reveal_strlit("Stopped");
    reveal_strlit("Failed");
    reveal_strlit("Starting");
    reveal_strlit("Running");
    reveal_strlit("Succeeded");
    reveal_strlit("Cancelled");
    reveal_strlit("Lost");
    reveal_strlit("");
    reveal_strlit("ReusedExisting");
    reveal_strlit("CreatedNew");
    reveal_strlit("CreatedDueToBusy");
    assert("Provisioning"@.len() == 12);
    assert("Ready"@.len() == 5);
    assert("Busy"@.len() == 4);
    assert("Stopped"@.len() == 7);
    assert("Failed"@.len() == 6);
    assert("Starting"@.len() == 8);
    assert("Running"@.len() == 7);
    assert("Lost"@.len() == 4);
    assert("Succeeded"@[0] == 'S');
    assert("Cancelled"@[0] == 'C');
    assert("Succeeded"@.len() == 9);
    assert("Cancelled"@.len() == 9);
    assert("ReusedExisting"@.len() == 14);
    assert("CreatedNew"@.len() == 10);
    assert("CreatedDueToBusy"@.len() == 16);
}

/// The time that a text of a message stands for.
pub open spec fn time_read(text: Seq<char>) -> Result<TimeModel, Seq<char>> {
    match rfc3339_parsed(text) {
        Ok(t) => Ok(TimeModel { secs: t.0 as int, nanos: t.1 as int }),
        Err(m) => Err(m),
    }
}

pub(crate) fn read_time(text: &str) -> (r: Result<Timestamp, String>)
    ensures
        match r {
            Ok(t) => time_read(text@) == Ok::<TimeModel, Seq<char>>(t@),
            Err(e) => time_read(text@) == Err::<TimeModel, Seq<char>>(e@),
        },
        forall|t: TimeModel|
            in_calendar(t.secs, t.nanos) && t.four_digit_year() && text@ == #[trigger] t.text()
                ==> (r matches Ok(v) && v@ == t),
{
    Timestamp::parse(text)
}

fn read_opt_time(text: &str) -> (r: Result<Option<Timestamp>, String>)
    ensures
        text@.len() == 0 ==> r == Ok::<Option<Timestamp>, String>(None),
        text@.len() > 0 ==> match time_read(text@) {
            Ok(t) => r matches Ok(Some(v)) && v@ == t,
            Err(m) => r matches Err(e) && e@ == m,
        },
        forall|t: TimeModel|
            text@.len() > 0 && in_calendar(t.secs, t.nanos) && t.four_digit_year() && text@
                == #[trigger] t.text() ==> (r matches Ok(Some(v)) && v@ == t),
{
    if text.is_empty() {
        return Ok(None);
    }
    match read_time(text) {
        Ok(t) => Ok(Some(t)),
        Err(e) => Err(e),
    }
}

fn read_opt_id(text: &str) -> (r: Result<Option<SandboxId>, String>)
    ensures
        text@.len() == 0 ==> r == Ok::<Option<SandboxId>, String>(None),
        text@.len() > 0 ==> match uuid_parsed(text@) {
            Ok(id) => r == Ok::<Option<SandboxId>, String>(Some(SandboxId(id))),
            Err(m) => r matches Err(e) && e@ == m,
        },
        forall|id: u128|
            text@.len() > 0 && text@ == #[trigger] hyphenated(id) ==> r == Ok::<
                Option<SandboxId>,
                String,
            >(Some(SandboxId(id))),
{
    if text.is_empty() {
        return Ok(None);
    }
    match SandboxId::parse(text) {
        Ok(id) => Ok(Some(id)),
        Err(e) => Err(e),
    }
}

/// What a client reads from the message of a sandbox. A message of the server gives back the
/// sandbox.
pub fn parse_sandbox_info(info: WireSandboxInfo) -> (r: Result<SandboxInfo, String>)
    ensures
        match r {
            Ok(v) => {
                &&& uuid_parsed(info.id@) == Ok::<u128, Seq<char>>(v.id.0)
                &&& v.template@ == info.template@
                &&& v.state == state_named(info.state@)
                &&& time_read(info.created_at@) == Ok::<TimeModel, Seq<char>>(v.created_at@)
            },
            Err(e) => match uuid_parsed(info.id@) {
                Err(m) => e@ == m,
                Ok(_) => time_read(info.created_at@) == Err::<TimeModel, Seq<char>>(e@),
            },
        },
        forall|id: u128, t: TimeModel|
            info.id@ == #[trigger] hyphenated(id) && info.created_at@ == #[trigger] t.text()
                && in_calendar(t.secs, t.nanos) && t.four_digit_year() ==> (r matches Ok(v)
                && v.id.0 == id && v.created_at@ == t),
{
    let id = match SandboxId::parse(info.id.as_str()) {
        Ok(id) => id,
        Err(e) => {
            return Err(e);
        },
    };
    let created_at = match read_time(info.created_at.as_str()) {
        Ok(t) => t,
        Err(e) => {
            return Err(e);
        },
    };
    let state = parse_state(info.state.as_str());
    Ok(SandboxInfo { id, template: info.template, state, created_at })
}

/// What a client reads from the message of a process, or the first thing in it that cannot
/// be read.
pub open spec fn process_read(m: WireProcessInfo) -> Result<ProcessModel, Seq<char>> {
    let requested = if m.requested_sandbox_id@.len() == 0 {
        Ok(None)
    } else {
        match uuid_parsed(m.requested_sandbox_id@) {
            Ok(id) => Ok(Some(SandboxId(id))),
            Err(e) => Err(e),
        }
    };
    match (uuid_parsed(m.process_id@), uuid_parsed(m.sandbox_id@), requested) {
        (Err(e), _, _) => Err(e),
        (_, Err(e), _) => Err(e),
        (_, _, Err(e)) => Err(e),
        (Ok(id), Ok(sandbox), Ok(requested_id)) => match (
            time_read(m.started_at@),
            opt_time_read(m.finished_at@),
            opt_time_read(m.expires_at@),
        ) {
            (Err(e), _, _) => Err(e),
            (_, Err(e), _) => Err(e),
            (_, _, Err(e)) => Err(e),
            (Ok(started_at), Ok(finished_at), Ok(expires_at)) => Ok(
                ProcessModel {
                    id: ProcessId(id),
                    sandbox_id: SandboxId(sandbox),
                    requested_sandbox_id: requested_id,
                    disposition: disposition_read(m.disposition@),
                    destroy_sandbox_on_expiry: m.destroy_sandbox_on_expiry,
                    command: views(m.command@),
                    status: status_named(m.status@),
                    stdout_path: m.stdout_path@,
                    stderr_path: m.stderr_path@,
                    backend_pid: if m.has_backend_pid {
                        Some(m.backend_pid)
                    } else {
                        None
                    },
                    exit_code: if m.has_exit_code {
                        Some(m.exit_code)
                    } else {
                        None
                    },
                    started_at,
                    finished_at,
                    expires_at,
                },
            ),
        },
    }
}

pub open spec fn opt_time_read(text: Seq<char>) -> Result<Option<TimeModel>, Seq<char>> {
    if text.len() == 0 {
        Ok(None)
    } else {
        match time_read(text) {
            Ok(t) => Ok(Some(t)),
            Err(e) => Err(e),
        }
    }
}

/// A process whose times a message can carry.
pub open spec fn process_sendable(p: ProcessModel) -> bool {
    &&& time_sendable(p.started_at)
    &&& (p.finished_at matches Some(t) ==> time_sendable(t))
    &&& (p.expires_at matches Some(t) ==> time_sendable(t))
}

pub open spec fn time_sendable(t: TimeModel) -> bool {
    in_calendar(t.secs, t.nanos) && t.four_digit_year()
}

proof fn hyphenated_is_not_empty(id: u128)
    ensures
        hyphenated(id).len() > 0,
{
    reveal_strlit("-");
}

/// What a client reads from the message of a process. A message of the server gives back the
/// process.
pub fn parse_process_info(info: WireProcessInfo) -> (r: Result<ProcessInfo, String>)
    ensures
        match r {
            Ok(p) => process_read(info) == Ok::<ProcessModel, Seq<char>>(p@),
            Err(e) => process_read(info) == Err::<ProcessModel, Seq<char>>(e@),
        },
        forall|p: ProcessModel| #[trigger]
            is_process_message(info, p) && process_sendable(p) ==> (r matches Ok(v) && v@ == p),
{
    let id = ProcessId::parse(info.process_id.as_str());
    let sandbox_id = SandboxId::parse(info.sandbox_id.as_str());
    let requested = read_opt_id(info.requested_sandbox_id.as_str());
    let started = read_time(info.started_at.as_str());
    let finished = read_opt_time(info.finished_at.as_str());
    let expires = read_opt_time(info.expires_at.as_str());
    let disposition = read_disposition(info.disposition.as_str());
    let status = parse_status(info.status.as_str());
    proof {
        assert forall|p: ProcessModel| #[trigger]
            is_process_message(info, p) && process_sendable(p) implies id == Ok::<
            ProcessId,
            String,
        >(p.id) && sandbox_id == Ok::<SandboxId, String>(p.sandbox_id) && requested == Ok::<
            Option<SandboxId>,
            String,
        >(p.requested_sandbox_id) && (started matches Ok(t) && t@ == p.started_at) && (
        finished matches Ok(t) && opt_time(t) == p.finished_at) && (expires matches Ok(t)
            && opt_time(t) == p.expires_at) && disposition == p.disposition && status
            == p.status by {
            names_read_back(SandboxState::Ready, p.status, p.disposition);
            assert(info.process_id@ == hyphenated(p.id.0));
            assert(info.sandbox_id@ == hyphenated(p.sandbox_id.0));
            if let Some(i) = p.requested_sandbox_id {
                hyphenated_is_not_empty(i.0);
                assert(info.requested_sandbox_id@ == hyphenated(i.0));
            }
            assert(info.started_at@ == p.started_at.text());
            if let Some(t) = p.finished_at {
                assert(info.finished_at@ == t.text());
            }
            if let Some(t) = p.expires_at {
                assert(info.expires_at@ == t.text());
            }
        }
    }
    let backend_pid = if info.has_backend_pid {
        Some(info.backend_pid)
    } else {
        None
    };
    let exit_code = if info.has_exit_code {
        Some(info.exit_code)
    } else {
        None
    };
    match (id, sandbox_id, requested) {
        (Err(e), _, _) => Err(e),
        (_, Err(e), _) => Err(e),
        (_, _, Err(e)) => Err(e),
        (Ok(id), Ok(sandbox_id), Ok(requested_sandbox_id)) => match (started, finished, expires) {
            (Err(e), _, _) => Err(e),
            (_, Err(e), _) => Err(e),
            (_, _, Err(e)) => Err(e),
            (Ok(started_at), Ok(finished_at), Ok(expires_at)) => Ok(
                ProcessInfo {
                    id,
                    sandbox_id,
                    requested_sandbox_id,
                    disposition,
                    destroy_sandbox_on_expiry: info.destroy_sandbox_on_expiry,
                    command: info.command,
                    status,
                    stdout_path: info.stdout_path,
                    stderr_path: info.stderr_path,
                    backend_pid,
                    exit_code,
                    started_at,
                    finished_at,
                    expires_at,
                },
            ),
        },
    }
}

/// The message that stands for a snapshot in a list.
pub fn into_proto_snapshot(s: SnapshotMetadata) -> (r: WireSnapshotInfo)
    ensures
        r.snapshot_id@ == hyphenated(s.id.0),
        r.sandbox_id@ == hyphenated(s.sandbox_id.0),
        r.template@ == s.template@,
        r.created_at@ == s.created_at@.text(),
        r.note@ == blank(opt_view(s.note)),
        r.affinity_name@ == blank(opt_view(s.affinity_name)),
{
    WireSnapshotInfo {
        snapshot_id: s.id.text(),
        sandbox_id: s.sandbox_id.text(),
        template: s.template,
        created_at: s.created_at.to_rfc3339(),
        note: or_blank(s.note),
        affinity_name: or_blank(s.affinity_name),
    }
}

/// What a client reads from that message: the configuration is the default one for the
/// template.
pub open spec fn snapshot_read(m: WireSnapshotInfo) -> Result<SnapshotModel, Seq<char>> {
    match (uuid_parsed(m.snapshot_id@), uuid_parsed(m.sandbox_id@), time_read(m.created_at@)) {
        (Err(e), _, _) => Err(e),
        (_, Err(e), _) => Err(e),
        (_, _, Err(e)) => Err(e),
        (Ok(id), Ok(sandbox), Ok(created_at)) => Ok(
            SnapshotModel {
                id: SnapshotId(id),
                sandbox_id: SandboxId(sandbox),
                affinity_name: unblank(m.affinity_name@),
                template: m.template@,
                config: ConfigModel { template: m.template@, ..default_config() },
                created_at,
                note: unblank(m.note@),
            },
        ),
    }
}

pub fn parse_snapshot_info(m: WireSnapshotInfo) -> (r: Result<SnapshotMetadata, String>)
    ensures
        match r {
            Ok(s) => snapshot_read(m) == Ok::<SnapshotModel, Seq<char>>(s@),
            Err(e) => snapshot_read(m) == Err::<SnapshotModel, Seq<char>>(e@),
        },
{
    match (
        SnapshotId::parse(m.snapshot_id.as_str()),
        SandboxId::parse(m.sandbox_id.as_str()),
        read_time(m.created_at.as_str()),
    ) {
        (Err(e), _, _) => Err(e),
        (_, Err(e), _) => Err(e),
        (_, _, Err(e)) => Err(e),
        (Ok(id), Ok(sandbox_id), Ok(created_at)) => {
            let mut config = SandboxConfig::default();
            config.template = m.template.clone();
            Ok(
                SnapshotMetadata {
                    id,
                    sandbox_id,
                    affinity_name: not_blank(m.affinity_name),
                    template: m.template,
                    config,
                    created_at,
                    note: not_blank(m.note),
                },
            )
        },
    }
}

/// What a client reads of a configuration that the server reports: as it stands, with no
/// defaults filled in.
pub open spec fn config_reported(m: WireSandboxConfig) -> Result<ConfigModel, Seq<char>> {
    match network_of(m.network_mode, views(m.network_allowlist@)) {
        Err(e) => Err(e),
        Ok(network) => Ok(
            ConfigModel {
                affinity_name: unblank(m.affinity_name@),
                template: m.template@,
                memory_mb: m.memory_mb,
                vcpu_count: (m.vcpu_count % 256) as u8,
                workspace_dir: unblank(m.workspace_dir@),
                network,
                env: env_assigned(pair_views(m.env@)),
                timeout_secs: m.timeout_secs,
            },
        ),
    }
}

pub fn parse_reported_config(config: WireSandboxConfig) -> (r: Result<SandboxConfig, String>)
    ensures
        match config_reported(config) {
            Ok(c) => r matches Ok(v) && v@ == c,
            Err(m) => r matches Err(e) && e@ == m,
        },
{
    match parse_network(config.network_mode, &config.network_allowlist) {
        Ok(network) => Ok(
            SandboxConfig {
                affinity_name: not_blank(config.affinity_name),
                template: config.template,
                memory_mb: config.memory_mb,
                vcpu_count: (config.vcpu_count % 256) as u8,
                workspace_dir: not_blank(config.workspace_dir),
                network,
                env: env_from_pairs(&config.env),
                timeout_secs: config.timeout_secs,
            },
        ),
        Err(e) => Err(e.0),
    }
}

/// The run that a message asks for.
pub open spec fn run_asked(m: WireStartRun, r: StartRunRequest) -> bool {
    &&& r.sandbox_id == (if m.sandbox_id@.len() == 0 {
        None
    } else {
        match uuid_parsed(m.sandbox_id@) {
            Ok(id) => Some(SandboxId(id)),
            Err(_) => None,
        }
    })
    &&& opt_view(r.affinity_name) == unblank(m.affinity_name@)
    &&& match m.create_config {
        Some(c) => r.create_config matches Some(v) && config_asked(c) == Ok::<
            ConfigModel,
            Seq<char>,
        >(v@),
        None => r.create_config is None,
    }
    &&& r.reuse_auto_session == m.reuse_auto_session
    &&& r.ensure_commands == m.ensure_commands
    &&& r.writes == m.writes
    &&& r.command == m.command
    &&& r.destroy_sandbox_on_expiry == m.destroy_sandbox_on_expiry
}

/// What is wrong with a message that asks for a run, where something is.
pub open spec fn run_complaint(m: WireStartRun) -> Option<Seq<char>> {
    if m.sandbox_id@.len() > 0 && uuid_parsed(m.sandbox_id@) is Err {
        Some(bad_id("invalid sandbox_id: "@, m.sandbox_id@))
    } else {
        match m.create_config {
            Some(c) => match config_asked(c) {
                Ok(_) => None,
                Err(e) => Some(e),
            },
            None => None,
        }
    }
}

pub fn from_proto_start_run(m: WireStartRun) -> (r: Result<StartRunRequest, InvalidArgument>)
    ensures
        match run_complaint(m) {
            Some(text) => r matches Err(e) && e.0@ == text,
            None => r matches Ok(v) && run_asked(m, v),
        },
{
    let sandbox_id = if m.sandbox_id.as_str().is_empty() {
        None
    } else {
        match parse_sandbox_id(m.sandbox_id.as_str()) {
            Ok(id) => Some(id),
            Err(e) => {
                return Err(e);
            },
        }
    };
    let create_config = match m.create_config {
        Some(c) => match from_proto_config(c) {
            Ok(v) => Some(v),
            Err(e) => {
                return Err(e);
            },
        },
        None => None,
    };
    Ok(
        StartRunRequest {
            sandbox_id,
            affinity_name: not_blank(m.affinity_name),
            create_config,
            reuse_auto_session: m.reuse_auto_session,
            ensure_commands: m.ensure_commands,
            writes: m.writes,
            command: m.command,
            destroy_sandbox_on_expiry: m.destroy_sandbox_on_expiry,
        },
    )
}

/// A time limit of a request: at least a second.
pub fn at_least_a_second(timeout_secs: u64) -> (r: u64)
    ensures
        r == (if timeout_secs == 0 {
            1
        } else {
            timeout_secs
        }),
{
    if timeout_secs == 0 {
        1
    } else {
        timeout_secs
    }
}

/// The template that a request to list snapshots is about.
pub fn template_or_default(template: String) -> (r: String)
    ensures
        r@ == (if template@.len() == 0 {
            default_config().template
        } else {
            template@
        }),
{
    if template.as_str().is_empty() {
        SandboxConfig::default().template
    } else {
        template
    }
}

/// Whether a request to resolve a name has one.
pub fn check_affinity_name(name: &str) -> (r: Result<(), InvalidArgument>)
    ensures
        r is Ok <==> trimmed(name@).len() > 0,
        r matches Err(e) ==> e.0@ == "name must not be empty"@,
{
    let bare = trim(name);
    if bare.as_str().is_empty() {
        Err(InvalidArgument("name must not be empty".to_owned()))
    } else {
        Ok(())
    }
}

/// The message that asks for a run.
pub open spec fn is_run_message(m: WireStartRun, r: StartRunRequest) -> bool {
    &&& m.sandbox_id@ == (match r.sandbox_id {
        Some(i) => hyphenated(i.0),
        None => Seq::<char>::empty(),
    })
    &&& m.affinity_name@ == blank(opt_view(r.affinity_name))
    &&& match r.create_config {
        Some(c) => m.create_config matches Some(v) && is_config_message(v, c@) && keys_distinct(
            c@.env,
        ),
        None => m.create_config is None,
    }
    &&& m.reuse_auto_session == r.reuse_auto_session
    &&& m.ensure_commands == r.ensure_commands
    &&& m.writes == r.writes
    &&& m.command == r.command
    &&& m.destroy_sandbox_on_expiry == r.destroy_sandbox_on_expiry
}

pub fn into_proto_start_run(request: StartRunRequest) -> (r: WireStartRun)
    ensures
        is_run_message(r, request),
{
    WireStartRun {
        sandbox_id: id_or_blank(request.sandbox_id),
        affinity_name: or_blank(request.affinity_name),
        create_config: match request.create_config {
            Some(c) => Some(into_proto_config(c)),
            None => None,
        },
        reuse_auto_session: request.reuse_auto_session,
        ensure_commands: request.ensure_commands,
        writes: request.writes,
        command: request.command,
        destroy_sandbox_on_expiry: request.destroy_sandbox_on_expiry,
    }
}

/// A run that was started, in a message.
#[derive(Debug, Clone, PartialEq, Eq)]
pub struct WireStartedRun {
    pub process: WireProcessInfo,
    pub sandbox: WireSandboxInfo,
    pub session_name: String,
    pub session_created: bool,
}

pub fn into_proto_started_run(run: StartedRun) -> (r: WireStartedRun)
    ensures
        is_process_message(r.process, run.process@),
        is_info_message(r.sandbox, run.sandbox),
        r.session_name@ == blank(opt_view(run.session_name)),
        r.session_created == run.session_created,
{
    WireStartedRun {
        process: into_proto_process(run.process),
        sandbox: into_proto_info(run.sandbox),
        session_name: or_blank(run.session_name),
        session_created: run.session_created,
    }
}

/// What a client reads of the info of a sandbox.
pub open spec fn info_read(m: WireSandboxInfo, r: Result<SandboxInfo, String>) -> bool {
    match r {
        Ok(v) => {
            &&& uuid_parsed(m.id@) == Ok::<u128, Seq<char>>(v.id.0)
            &&& v.template@ == m.template@
            &&& v.state == state_named(m.state@)
            &&& time_read(m.created_at@) == Ok::<TimeModel, Seq<char>>(v.created_at@)
        },
        Err(e) => match uuid_parsed(m.id@) {
            Err(text) => e@ == text,
            Ok(_) => time_read(m.created_at@) == Err::<TimeModel, Seq<char>>(e@),
        },
    }
}

/// The info of a sandbox cannot be read.
pub open spec fn info_broken(m: WireSandboxInfo) -> bool {
    uuid_parsed(m.id@) is Err || time_read(m.created_at@) is Err
}

/// What a client reads of a run that was started: the process first, then its sandbox.
pub fn parse_started_run(m: WireStartedRun) -> (r: Result<StartedRun, String>)
    ensures
        match process_read(m.process) {
            Err(text) => r matches Err(e) && e@ == text,
            Ok(p) => match r {
                Ok(run) => {
                    &&& run.process@ == p
                    &&& info_read(m.sandbox, Ok(run.sandbox))
                    &&& opt_view(run.session_name) == unblank(m.session_name@)
                    &&& run.session_created == m.session_created
                },
                Err(e) => info_read(m.sandbox, Err(e)),
            },
        },
{
    let process = match parse_process_info(m.process) {
        Ok(p) => p,
        Err(e) => {
            return Err(e);
        },
    };
    match parse_sandbox_info(m.sandbox) {
        Ok(sandbox) => Ok(
            StartedRun {
                process,
                sandbox,
                session_name: not_blank(m.session_name),
                session_created: m.session_created,
            },
        ),
        Err(e) => Err(e),
    }
}

/// What a client reads of a sandbox that was made ready for a run: the sandbox first.
pub fn parse_prepared_run_sandbox(m: WirePreparedRunSandbox) -> (r: Result<
    PreparedRunSandbox,
    String,
>)
    ensures
        match r {
            Ok(p) => {
                &&& info_read(m.info, Ok(p.info))
                &&& if m.requested_sandbox_id@.len() == 0 {
                    p.requested_sandbox_id is None
                } else {
                    p.requested_sandbox_id matches Some(id) && uuid_parsed(
                        m.requested_sandbox_id@,
                    ) == Ok::<u128, Seq<char>>(id.0)
                }
                &&& p.disposition == disposition_read(m.disposition@)
            },
            Err(e) => if info_broken(m.info) {
                info_read(m.info, Err(e))
            } else {
                m.requested_sandbox_id@.len() > 0 && uuid_parsed(m.requested_sandbox_id@) == Err::<
                    u128,
                    Seq<char>,
                >(e@)
            },
        },
{
    let info = match parse_sandbox_info(m.info) {
        Ok(info) => info,
        Err(e) => {
            return Err(e);
        },
    };
    match read_opt_id(m.requested_sandbox_id.as_str()) {
        Ok(requested_sandbox_id) => Ok(
            PreparedRunSandbox {
                info,
                requested_sandbox_id,
                disposition: read_disposition(m.disposition.as_str()),
            },
        ),
        Err(e) => Err(e),
    }
}

/// What a server says of itself, in a message.
#[derive(Debug, Clone, PartialEq, Eq)]
pub struct WireServerInfo {
    pub server_version: String,
    pub process_id: String,
    pub executable_path: String,
    pub started_at: String,
    pub backend_requested: String,
    pub backend_selected: String,
    pub backend_reason: String,
    pub apple_runtime: String,
    pub apple_helper_argv: Vec<String>,
}

/// The message says what the server says.
pub open spec fn is_server_message(m: WireServerInfo, s: ServerInfo) -> bool {
    &&& m.server_version == s.server_version
    &&& m.process_id == s.process_id
    &&& m.executable_path == s.executable_path
    &&& m.started_at == s.started_at
    &&& m.backend_requested == s.backend_requested
    &&& m.backend_selected == s.backend_selected
    &&& m.backend_reason == s.backend_reason
    &&& m.apple_helper_argv == s.apple_helper_argv
}

pub fn into_proto_server_info(info: ServerInfo) -> (r: WireServerInfo)
    ensures
        is_server_message(r, info),
        r.apple_runtime@ == blank(opt_view(info.apple_runtime)),
{
    WireServerInfo {
        server_version: info.server_version,
        process_id: info.process_id,
        executable_path: info.executable_path,
        started_at: info.started_at,
        backend_requested: info.backend_requested,
        backend_selected: info.backend_selected,
        backend_reason: info.backend_reason,
        apple_runtime: or_blank(info.apple_runtime),
        apple_helper_argv: info.apple_helper_argv,
    }
}

pub fn parse_server_info(m: WireServerInfo) -> (r: ServerInfo)
    ensures
        is_server_message(m, r),
        opt_view(r.apple_runtime) == unblank(m.apple_runtime@),
{
    ServerInfo {
        server_version: m.server_version,
        process_id: m.process_id,
        executable_path: m.executable_path,
        started_at: m.started_at,
        backend_requested: m.backend_requested,
        backend_selected: m.backend_selected,
        backend_reason: m.backend_reason,
        apple_runtime: not_blank(m.apple_runtime),
        apple_helper_argv: m.apple_helper_argv,
    }
}

/// The server reads from a message the run that the client asked for: the same command, the same
/// setup steps and files, the same flags, the same sandbox or name, and the same configuration.
pub proof fn run_messages_read_back(m: WireStartRun, r: StartRunRequest, q: StartRunRequest)
    requires
        is_run_message(m, r),
        opt_view(r.affinity_name) matches Some(name) ==> name.len() > 0,
        r.create_config matches Some(c) ==> sendable(c@),
        run_asked(m, q),
    ensures
        r.sandbox_id is None ==> run_complaint(m) is None && q.sandbox_id is None,
        r.sandbox_id matches Some(id) ==> (uuid_parsed(hyphenated(id.0)) == Ok::<u128, Seq<char>>(
            id.0,
        ) ==> run_complaint(m) is None && q.sandbox_id == Some(id)),
        opt_view(q.affinity_name) == opt_view(r.affinity_name),
        r.create_config is None <==> q.create_config is None,
        r.create_config matches Some(c) ==> q.create_config->Some_0@ == c@,
        q.reuse_auto_session == r.reuse_auto_session,
        views(q.ensure_commands@) == views(r.ensure_commands@),
        q.writes@ == r.writes@,
        q.command@ == r.command@,
        q.destroy_sandbox_on_expiry == r.destroy_sandbox_on_expiry,
{
    if let Some(id) = r.sandbox_id {
        hyphenated_is_not_empty(id.0);
    }
    if let Some(c) = r.create_config {
        config_messages_read_back(m.create_config->Some_0, c@);
    }
    assert(unblank(blank(opt_view(r.affinity_name))) == opt_view(r.affinity_name));
}

} // verus!
