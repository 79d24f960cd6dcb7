//! The rows of a database that stand for snapshots, names, sandboxes and processes.

use crate::codec::{json_list, json_list_parse, json_list_read, json_list_text, lists};
use crate::config::SandboxConfig;
use crate::ids::{hyphenated, uuid_parsed};
use crate::model::SandboxId;
use crate::process::{
    opt_time, ProcessDisposition, ProcessId, ProcessInfo, ProcessModel, ProcessStatus,
};
use crate::server::wire::{process_sendable, read_time, time_read, time_sendable};
use crate::snapshot::{
    ActiveModel, ActiveSandboxRecord, AffinityModel, AffinityRecord, SnapshotId, SnapshotMetadata,
    SnapshotModel,
};
use crate::text::{opt_view, views};
use crate::time::{TimeModel, Timestamp};
use vstd::prelude::*;

verus! {

/// The row of a process.
#[derive(Debug)]
pub struct ProcessRow {
    pub process_id: String,
    pub sandbox_id: String,
    pub requested_sandbox_id: Option<String>,
    pub disposition: ProcessDisposition,
    pub destroy_sandbox_on_expiry: bool,
    pub command_json: String,
    pub status: ProcessStatus,
    pub stdout_path: String,
    pub stderr_path: String,
    pub backend_pid: Option<u32>,
    pub exit_code: Option<i32>,
    pub started_at: String,
    pub finished_at: Option<String>,
    pub expires_at: Option<String>,
}

/// The identifier that a text stands for, where there is one.
pub open spec fn opt_id_read(text: Option<Seq<char>>) -> Result<Option<u128>, Seq<char>> {
    match text {
        None => Ok(None),
        Some(t) => match uuid_parsed(t) {
            Ok(id) => Ok(Some(id)),
            Err(e) => Err(e),
        },
    }
}

/// The time that a text stands for, where there is one.
pub open spec fn opt_moment_read(text: Option<Seq<char>>) -> Result<Option<TimeModel>, Seq<char>> {
    match text {
        None => Ok(None),
        Some(t) => match time_read(t) {
            Ok(time) => Ok(Some(time)),
            Err(e) => Err(e),
        },
    }
}

pub open spec fn opt_id_text(id: Option<u128>) -> Option<Seq<char>> {
    match id {
        None => None,
        Some(id) => Some(hyphenated(id)),
    }
}

pub open spec fn opt_moment_text(t: Option<TimeModel>) -> Option<Seq<char>> {
    match t {
        None => None,
        Some(t) => Some(t.text()),
    }
}

fn read_opt_id(text: &Option<String>) -> (r: Result<Option<u128>, String>)
    ensures
        match r {
            Ok(id) => opt_id_read(opt_view(*text)) == Ok::<Option<u128>, Seq<char>>(id),
            Err(e) => opt_id_read(opt_view(*text)) == Err::<Option<u128>, Seq<char>>(e@),
        },
        forall|id: Option<u128>|
            opt_view(*text) == #[trigger] opt_id_text(id) ==> r == Ok::<Option<u128>, String>(id),
{
    match text {
        None => Ok(None),
        Some(t) => match SandboxId::parse(t.as_str()) {
            Ok(id) => Ok(Some(id.0)),
            Err(e) => Err(e),
        },
    }
}

fn read_opt_moment(text: &Option<String>) -> (r: Result<Option<Timestamp>, String>)
    ensures
        match r {
            Ok(t) => opt_moment_read(opt_view(*text)) == Ok::<Option<TimeModel>, Seq<char>>(
                opt_time(t),
            ),
            Err(e) => opt_moment_read(opt_view(*text)) == Err::<Option<TimeModel>, Seq<char>>(e@),
        },
        forall|t: Option<TimeModel>|
            opt_view(*text) == #[trigger] opt_moment_text(t) && (t matches Some(v)
                ==> time_sendable(v)) ==> (r matches Ok(v) && opt_time(v) == t),
{
    match text {
        None => Ok(None),
        Some(s) => match read_time(s.as_str()) {
            Ok(t) => Ok(Some(t)),
            Err(e) => Err(e),
        },
    }
}

fn write_opt_id(id: &Option<SandboxId>) -> (r: Option<String>)
    ensures
        opt_view(r) == (match *id {
            Some(id) => Some(hyphenated(id.0)),
            None => None,
        }),
{
    match id {
        Some(id) => Some(id.text()),
        None => None,
    }
}

fn write_opt_moment(t: &Option<Timestamp>) -> (r: Option<String>)
    ensures
        opt_view(r) == opt_moment_text(opt_time(*t)),
{
    match t {
        Some(t) => Some(t.to_rfc3339()),
        None => None,
    }
}

pub open spec fn opt_raw(id: Option<SandboxId>) -> Option<u128> {
    match id {
        Some(id) => Some(id.0),
        None => None,
    }
}

/// The row stands for the process.
pub open spec fn is_process_row(row: ProcessRow, p: ProcessModel) -> bool {
    &&& row.process_id@ == hyphenated(p.id.0)
    &&& row.sandbox_id@ == hyphenated(p.sandbox_id.0)
    &&& opt_view(row.requested_sandbox_id) == opt_id_text(opt_raw(p.requested_sandbox_id))
    &&& row.disposition == p.disposition
    &&& row.destroy_sandbox_on_expiry == p.destroy_sandbox_on_expiry
    &&& lists(row.command_json@, p.command)
    &&& row.status == p.status
    &&& row.stdout_path@ == p.stdout_path
    &&& row.stderr_path@ == p.stderr_path
    &&& row.backend_pid == p.backend_pid
    &&& row.exit_code == p.exit_code
    &&& row.started_at@ == p.started_at.text()
    &&& opt_view(row.finished_at) == opt_moment_text(p.finished_at)
    &&& opt_view(row.expires_at) == opt_moment_text(p.expires_at)
}

pub fn process_to_row(process: &ProcessInfo) -> (r: Result<ProcessRow, String>)
    ensures
        match json_list_text(process@.command) {
            Ok(text) => r matches Ok(row) && is_process_row(row, process@) && row.command_json@
                == text,
            Err(m) => r matches Err(e) && e@ == m,
        },
        r is Ok,
{
    let command_json = match json_list(&process.command) {
        Ok(text) => text,
        Err(e) => {
            return Err(e);
        },
    };
    Ok(
        ProcessRow {
            process_id: process.id.text(),
            sandbox_id: process.sandbox_id.text(),
            requested_sandbox_id: write_opt_id(&process.requested_sandbox_id),
            disposition: process.disposition,
            destroy_sandbox_on_expiry: process.destroy_sandbox_on_expiry,
            command_json,
            status: process.status,
            stdout_path: process.stdout_path.clone(),
            stderr_path: process.stderr_path.clone(),
            backend_pid: process.backend_pid,
            exit_code: process.exit_code,
            started_at: process.started_at.to_rfc3339(),
            finished_at: write_opt_moment(&process.finished_at),
            expires_at: write_opt_moment(&process.expires_at),
        },
    )
}

/// The process that a row stands for, or the first thing in it that cannot be read.
pub open spec fn process_kept(row: ProcessRow) -> Result<ProcessModel, Seq<char>> {
    match (
        uuid_parsed(row.process_id@),
        uuid_parsed(row.sandbox_id@),
        opt_id_read(opt_view(row.requested_sandbox_id)),
        json_list_read(row.command_json@),
    ) {
        (Err(e), _, _, _) => Err(e),
        (_, Err(e), _, _) => Err(e),
        (_, _, Err(e), _) => Err(e),
        (_, _, _, Err(e)) => Err(e),
        (Ok(id), Ok(sandbox), Ok(requested), Ok(command)) => match (
            time_read(row.started_at@),
            opt_moment_read(opt_view(row.finished_at)),
            opt_moment_read(opt_view(row.expires_at)),
        ) {
            (Err(e), _, _) => Err(e),
            (_, Err(e), _) => Err(e),
            (_, _, Err(e)) => Err(e),
            (Ok(started_at), Ok(finished_at), Ok(expires_at)) => Ok(
                ProcessModel {
                    id: ProcessId(id),
                    sandbox_id: SandboxId(sandbox),
                    requested_sandbox_id: match requested {
                        Some(raw) => Some(SandboxId(raw)),
                        None => None,
                    },
                    disposition: row.disposition,
                    destroy_sandbox_on_expiry: row.destroy_sandbox_on_expiry,
                    command,
                    status: row.status,
                    stdout_path: row.stdout_path@,
                    stderr_path: row.stderr_path@,
                    backend_pid: row.backend_pid,
                    exit_code: row.exit_code,
                    started_at,
                    finished_at,
                    expires_at,
                },
            ),
        },
    }
}

/// The process that a row stands for. What was written of a process reads back.
pub fn process_from_row(row: ProcessRow) -> (r: Result<ProcessInfo, String>)
    ensures
        match r {
            Ok(p) => process_kept(row) == Ok::<ProcessModel, Seq<char>>(p@),
            Err(e) => process_kept(row) == Err::<ProcessModel, Seq<char>>(e@),
        },
        forall|p: ProcessModel| #[trigger]
            is_process_row(row, p) && process_sendable(p) ==> (r matches Ok(v) && v@ == p),
{
    let id = ProcessId::parse(row.process_id.as_str());
    let sandbox_id = SandboxId::parse(row.sandbox_id.as_str());
    let requested = read_opt_id(&row.requested_sandbox_id);
    let command = json_list_parse(row.command_json.as_str());
    let started = read_time(row.started_at.as_str());
    let finished = read_opt_moment(&row.finished_at);
    let expires = read_opt_moment(&row.expires_at);
    proof {
        assert forall|p: ProcessModel| #[trigger]
            is_process_row(row, p) && process_sendable(p) implies id == Ok::<ProcessId, String>(
            p.id,
        ) && sandbox_id == Ok::<SandboxId, String>(p.sandbox_id) && requested == Ok::<
            Option<u128>,
            String,
        >(opt_raw(p.requested_sandbox_id)) && (command matches Ok(c) && views(c@) == p.command)
            && (started matches Ok(t) && t@ == p.started_at) && (finished matches Ok(t)
            && opt_time(t) == p.finished_at) && (expires matches Ok(t) && opt_time(t)
            == p.expires_at) by {
            assert(row.process_id@ == hyphenated(p.id.0));
            assert(row.sandbox_id@ == hyphenated(p.sandbox_id.0));
            assert(opt_view(row.requested_sandbox_id) == opt_id_text(
                opt_raw(p.requested_sandbox_id),
            ));
            assert(row.started_at@ == p.started_at.text());
            assert(opt_view(row.finished_at) == opt_moment_text(p.finished_at));
            assert(opt_view(row.expires_at) == opt_moment_text(p.expires_at));
        }
    }
    match (id, sandbox_id, requested, command) {
        (Err(e), _, _, _) => Err(e),
        (_, Err(e), _, _) => Err(e),
        (_, _, Err(e), _) => Err(e),
        (_, _, _, Err(e)) => Err(e),
        (Ok(id), Ok(sandbox_id), Ok(requested), Ok(command)) => match (
            started,
            finished,
            expires,
        ) {
            (Err(e), _, _) => Err(e),
            (_, Err(e), _) => Err(e),
            (_, _, Err(e)) => Err(e),
            (Ok(started_at), Ok(finished_at), Ok(expires_at)) => Ok(
                ProcessInfo {
                    id,
                    sandbox_id,
                    requested_sandbox_id: match requested {
                        Some(raw) => Some(SandboxId(raw)),
                        None => None,
                    },
                    disposition: row.disposition,
                    destroy_sandbox_on_expiry: row.destroy_sandbox_on_expiry,
                    command,
                    status: row.status,
                    stdout_path: row.stdout_path,
                    stderr_path: row.stderr_path,
                    backend_pid: row.backend_pid,
                    exit_code: row.exit_code,
                    started_at,
                    finished_at,
                    expires_at,
                },
            ),
        },
    }
}

/// The row of a snapshot, but for its configuration.
#[derive(Debug)]
pub struct SnapshotRow {
    pub snapshot_id: String,
    pub sandbox_id: String,
    pub affinity_name: Option<String>,
    pub template: String,
    pub created_at: String,
    pub note: Option<String>,
}

/// The row stands for the snapshot.
pub open spec fn is_snapshot_row(row: SnapshotRow, s: SnapshotModel) -> bool {
    &&& row.snapshot_id@ == hyphenated(s.id.0)
    &&& row.sandbox_id@ == hyphenated(s.sandbox_id.0)
    &&& opt_view(row.affinity_name) == s.affinity_name
    &&& row.template@ == s.template
    &&& row.created_at@ == s.created_at.text()
    &&& opt_view(row.note) == s.note
}

pub fn snapshot_to_row(s: &SnapshotMetadata) -> (r: SnapshotRow)
    ensures
        is_snapshot_row(r, s@),
{
    SnapshotRow {
        snapshot_id: s.id.text(),
        sandbox_id: s.sandbox_id.text(),
        affinity_name: crate::text::clone_opt(&s.affinity_name),
        template: s.template.clone(),
        created_at: s.created_at.to_rfc3339(),
        note: crate::text::clone_opt(&s.note),
    }
}

/// The snapshot that a row and its configuration stand for. What was written of a snapshot
/// reads back.
pub fn snapshot_from_row(row: SnapshotRow, config: Result<SandboxConfig, String>) -> (r: Result<
    SnapshotMetadata,
    String,
>)
    ensures
        match (uuid_parsed(row.snapshot_id@), uuid_parsed(row.sandbox_id@), config) {
            (Err(m), _, _) => r matches Err(e) && e@ == m,
            (_, Err(m), _) => r matches Err(e) && e@ == m,
            (_, _, Err(m)) => r == Err::<SnapshotMetadata, String>(m),
            (Ok(id), Ok(sandbox), Ok(config)) => match time_read(row.created_at@) {
                Err(m) => r matches Err(e) && e@ == m,
                Ok(created_at) => r matches Ok(s) && s@ == (SnapshotModel {
                    id: SnapshotId(id),
                    sandbox_id: SandboxId(sandbox),
                    affinity_name: opt_view(row.affinity_name),
                    template: row.template@,
                    config: config@,
                    created_at,
                    note: opt_view(row.note),
                }),
            },
        },
        forall|s: SnapshotModel| #[trigger]
            is_snapshot_row(row, s) && time_sendable(s.created_at) && (config matches Ok(c) && c@
                == s.config) ==> (r matches Ok(v) && v@ == s),
{
    let id = SnapshotId::parse(row.snapshot_id.as_str());
    let sandbox_id = SandboxId::parse(row.sandbox_id.as_str());
    let created = read_time(row.created_at.as_str());
    proof {
        assert forall|s: SnapshotModel| #[trigger]
            is_snapshot_row(row, s) && time_sendable(s.created_at) implies id == Ok::<
            SnapshotId,
            String,
        >(s.id) && sandbox_id == Ok::<SandboxId, String>(s.sandbox_id) && (created matches Ok(t)
            && t@ == s.created_at) by {
            assert(row.snapshot_id@ == hyphenated(s.id.0));
            assert(row.sandbox_id@ == hyphenated(s.sandbox_id.0));
            assert(row.created_at@ == s.created_at.text());
        }
    }
    match (id, sandbox_id, config) {
        (Err(e), _, _) => Err(e),
        (_, Err(e), _) => Err(e),
        (_, _, Err(e)) => Err(e),
        (Ok(id), Ok(sandbox_id), Ok(config)) => match created {
            Err(e) => Err(e),
            Ok(created_at) => Ok(
                SnapshotMetadata {
                    id,
                    sandbox_id,
                    affinity_name: row.affinity_name,
                    template: row.template,
                    config,
                    created_at,
                    note: row.note,
                },
            ),
        },
    }
}

/// The record that the row of a name stands for. What was written of a record reads back.
pub fn affinity_from_row(
    name: String,
    sandbox_id: Option<String>,
    snapshot_id: Option<String>,
    updated_at: String,
) -> (r: Result<AffinityRecord, String>)
    ensures
        match (
            opt_id_read(opt_view(sandbox_id)),
            opt_id_read(opt_view(snapshot_id)),
            time_read(updated_at@),
        ) {
            (Err(m), _, _) => r matches Err(e) && e@ == m,
            (_, Err(m), _) => r matches Err(e) && e@ == m,
            (_, _, Err(m)) => r matches Err(e) && e@ == m,
            (Ok(sandbox), Ok(snapshot), Ok(time)) => r matches Ok(a) && a@ == (AffinityModel {
                name: name@,
                sandbox_id: match sandbox {
                    Some(raw) => Some(SandboxId(raw)),
                    None => None,
                },
                snapshot_id: match snapshot {
                    Some(raw) => Some(SnapshotId(raw)),
                    None => None,
                },
                updated_at: time,
            }),
        },
        forall|sandbox: Option<u128>, snapshot: Option<u128>, time: TimeModel|
            opt_view(sandbox_id) == #[trigger] opt_id_text(sandbox) && opt_view(snapshot_id)
                == #[trigger] opt_id_text(snapshot) && updated_at@ == #[trigger] time.text()
                && time_sendable(time) ==> (r matches Ok(a) && opt_raw(a.sandbox_id) == sandbox && (
            match a.snapshot_id {
                Some(id) => Some(id.0),
                None => None,
            }) == snapshot && a@.updated_at == time),
{
    let sandbox = read_opt_id(&sandbox_id);
    let snapshot = read_opt_id(&snapshot_id);
    let time = read_time(updated_at.as_str());
    match (sandbox, snapshot, time) {
        (Err(e), _, _) => Err(e),
        (_, Err(e), _) => Err(e),
        (_, _, Err(e)) => Err(e),
        (Ok(sandbox), Ok(snapshot), Ok(updated_at)) => Ok(
            AffinityRecord {
                name,
                sandbox_id: match sandbox {
                    Some(raw) => Some(SandboxId(raw)),
                    None => None,
                },
                snapshot_id: match snapshot {
                    Some(raw) => Some(SnapshotId(raw)),
                    None => None,
                },
                updated_at,
            },
        ),
    }
}

/// The sandbox that a row and its configuration stand for. What was written of a sandbox
/// reads back.
pub fn active_from_row(
    sandbox_id: String,
    config: Result<SandboxConfig, String>,
    created_at: String,
) -> (r: Result<ActiveSandboxRecord, String>)
    ensures
        match (uuid_parsed(sandbox_id@), config) {
            (Err(m), _) => r matches Err(e) && e@ == m,
            (_, Err(m)) => r == Err::<ActiveSandboxRecord, String>(m),
            (Ok(id), Ok(config)) => match time_read(created_at@) {
                Err(m) => r matches Err(e) && e@ == m,
                Ok(time) => r matches Ok(a) && a@ == (ActiveModel {
                    sandbox_id: SandboxId(id),
                    config: config@,
                    created_at: time,
                }),
            },
        },
        forall|a: ActiveModel|
            sandbox_id@ == #[trigger] hyphenated(a.sandbox_id.0) && created_at@
                == #[trigger] a.created_at.text() && time_sendable(a.created_at) && (
            config matches Ok(c) && c@ == a.config) ==> (r matches Ok(v) && v@ == a),
{
    let id = SandboxId::parse(sandbox_id.as_str());
    let created = read_time(created_at.as_str());
    match (id, config) {
        (Err(e), _) => Err(e),
        (_, Err(e)) => Err(e),
        (Ok(sandbox_id), Ok(config)) => match created {
            Err(e) => Err(e),
            Ok(created_at) => Ok(ActiveSandboxRecord { sandbox_id, config, created_at }),
        },
    }
}

} // verus!
