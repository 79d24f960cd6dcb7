//! What the commands show.

use crate::cli::fault::Fault;
use crate::cli::policy::{EffectiveIsolationSummary, ExplainDetails};
use crate::cli::session::artifact_views;
use crate::ids::hyphenated;
use crate::model::{ExecOutcome, SandboxId, SandboxInfo};
use crate::numbers::{decimal, u64_text};
use crate::process::ProcessInfo;
use crate::snapshot::{SnapshotId, SnapshotMetadata};
use crate::text::{
    cat2, cat3, cat4, cat5, clone_texts, contains, ends, ends_with, has_text, join, joined,
    lowercase, opt_view, starts, to_lowercase, views,
};
use crate::time::Timestamp;
use vstd::prelude::*;

verus! {

fn add_line(lines: &mut Vec<String>, line: String)
    ensures
        views(final(lines)@) == views(old(lines)@).push(line@),
{
    lines.push(line);
    assert(views(lines@) =~= views(old(lines)@).push(line@));
}

/// One line, if there is something to say.
pub open spec fn line_if(condition: bool, line: Seq<char>) -> Seq<Seq<char>> {
    if condition {
        seq![line]
    } else {
        Seq::empty()
    }
}

/// How the isolation is told.
pub open spec fn isolation_lines(s: EffectiveIsolationSummary) -> Seq<Seq<char>> {
    seq![
        "effective isolation:"@,
        "  backend: "@ + s.backend@ + " ("@ + s.isolation_class@ + ")"@,
        "  profile: "@ + s.profile@,
        "  network: "@ + s.network_mode@ + " ["@ + s.network_enforcement@ + "]"@,
    ] + line_if(
        s.network_reason is Some,
        "  network_reason: "@ + s.network_reason.unwrap()@,
    ) + seq!["  writable: "@ + joined(views(s.writable_paths@), ", "@)] + line_if(
        s.timeout_secs > 0,
        "  timeout_secs: "@ + decimal(s.timeout_secs as nat),
    )
}

/// How the choice of the backend is told.
pub open spec fn explain_lines(d: ExplainDetails) -> Seq<Seq<char>> {
    seq![
        "explain:"@,
        "  backend_requested: "@ + d.backend_requested@,
        "  backend_selected: "@ + d.backend_selected@,
        "  backend_reason: "@ + d.backend_reason@,
    ] + line_if(
        d.apple_runtime is Some,
        "  apple_runtime: "@ + d.apple_runtime.unwrap()@,
    ) + line_if(
        d.apple_helper_argv@.len() > 0,
        "  apple_helper: "@ + joined(views(d.apple_helper_argv@), " "@),
    )
}

/// The lines that tell how the isolation comes out, and why if that was asked for.
pub fn isolation_report(
    summary: &EffectiveIsolationSummary,
    explain: Option<&ExplainDetails>,
) -> (r: Vec<String>)
    ensures
        views(r@) == isolation_lines(*summary) + (match explain {
            Some(d) => explain_lines(*d),
            None => Seq::empty(),
        }),
{
    let mut lines: Vec<String> = Vec::new();
    assert(views(lines@) =~= Seq::<Seq<char>>::empty());
    add_line(&mut lines, "effective isolation:".to_owned());
    let class = cat3(" (", summary.isolation_class.as_str(), ")");
    add_line(&mut lines, cat3("  backend: ", summary.backend.as_str(), class.as_str()));
    assert(views(lines@)[1] =~= "  backend: "@ + summary.backend@ + " ("@
        + summary.isolation_class@ + ")"@);
    add_line(&mut lines, cat2("  profile: ", summary.profile.as_str()));
    add_line(
        &mut lines,
        cat5(
            "  network: ",
            summary.network_mode.as_str(),
            " [",
            summary.network_enforcement.as_str(),
            "]",
        ),
    );
    if let Some(reason) = &summary.network_reason {
        add_line(&mut lines, cat2("  network_reason: ", reason.as_str()));
    }
    add_line(&mut lines, cat2("  writable: ", join(&summary.writable_paths, ", ").as_str()));
    if summary.timeout_secs > 0 {
        add_line(&mut lines, cat2("  timeout_secs: ", u64_text(summary.timeout_secs).as_str()));
    }
    assert(views(lines@) =~= isolation_lines(*summary));
    if let Some(details) = explain {
        add_line(&mut lines, "explain:".to_owned());
        add_line(&mut lines, cat2("  backend_requested: ", details.backend_requested.as_str()));
        add_line(&mut lines, cat2("  backend_selected: ", details.backend_selected.as_str()));
        add_line(&mut lines, cat2("  backend_reason: ", details.backend_reason.as_str()));
        if let Some(runtime) = &details.apple_runtime {
            add_line(&mut lines, cat2("  apple_runtime: ", runtime.as_str()));
        }
        if details.apple_helper_argv.len() > 0 {
            add_line(
                &mut lines,
                cat2("  apple_helper: ", join(&details.apple_helper_argv, " ").as_str()),
            );
        }
        assert(views(lines@) =~= isolation_lines(*summary) + explain_lines(*details));
    }
    assert(views(lines@) =~= isolation_lines(*summary) + (match explain {
        Some(d) => explain_lines(*d),
        None => Seq::empty(),
    }));
    lines
}

/// The lines that tell of a process that goes on by itself.
pub fn process_start_lines(process: &ProcessInfo) -> (r: Vec<String>)
    ensures
        views(r@) == seq![
            "process_id: "@ + hyphenated(process.id.0),
            "sandbox_id: "@ + hyphenated(process.sandbox_id.0),
            "disposition: "@ + lowercase(process.disposition.word()),
        ],
{
    let mut lines: Vec<String> = Vec::new();
    assert(views(lines@) =~= Seq::<Seq<char>>::empty());
    add_line(&mut lines, cat2("process_id: ", process.id.text().as_str()));
    add_line(&mut lines, cat2("sandbox_id: ", process.sandbox_id.text().as_str()));
    add_line(
        &mut lines,
        cat2("disposition: ", to_lowercase(process.disposition.name()).as_str()),
    );
    lines
}

/// How a file that was read is shown: under its path, and with a line end after it.
pub open spec fn artifact_block(path: Seq<char>, data: Seq<char>) -> Seq<char> {
    "--- "@ + path + " ---\n"@ + data + if ends(data, "\n"@) {
        Seq::empty()
    } else {
        "\n"@
    }
}

pub open spec fn artifact_blocks(list: Seq<(Seq<char>, Seq<char>)>) -> Seq<char>
    decreases list.len(),
{
    if list.len() == 0 {
        Seq::empty()
    } else {
        artifact_blocks(list.drop_last()) + artifact_block(list.last().0, list.last().1)
    }
}

/// The command was not there.
pub open spec fn missing_command(outcome: ExecOutcome) -> bool {
    outcome.exit_code == 127 && has_text(lowercase(outcome.stderr@), "not found"@)
}

pub open spec fn missing_command_tip() -> Seq<char> {
    "tip: install missing tools in this sandbox session (for example: `hyperbox run --profile full --cmd \"python3 -m pip install pytest\"`), then rerun\n"@
}

/// What goes to the output and what to the error output.
#[derive(Debug, Clone, PartialEq, Eq)]
pub struct Shown {
    pub out: String,
    pub err: String,
}

/// What is shown of a run that ended: its output unless that was shown before, the files that
/// were asked for, and a tip where the command was not there.
pub fn result_report(
    outcome: &ExecOutcome,
    artifacts: &Vec<(String, String)>,
    logs_already_emitted: bool,
) -> (r: Shown)
    ensures
        r.out@ == (if logs_already_emitted {
            Seq::empty()
        } else {
            outcome.stdout@
        }) + artifact_blocks(artifact_views(artifacts@)),
        r.err@ == (if logs_already_emitted {
            Seq::empty()
        } else {
            outcome.stderr@
        }) + (if missing_command(*outcome) {
            missing_command_tip()
        } else {
            Seq::empty()
        }),
{
    let mut out = String::new();
    let mut err = String::new();
    if !logs_already_emitted {
        out.push_str(outcome.stdout.as_str());
        err.push_str(outcome.stderr.as_str());
    }
    let ghost head = out@;
    let ghost all = artifact_views(artifacts@);
    assert(all.take(0) =~= Seq::<(Seq<char>, Seq<char>)>::empty());
    assert(out@ =~= head + artifact_blocks(all.take(0)));
    let mut i: usize = 0;
    while i < artifacts.len()
        invariant
            i <= artifacts.len(),
            all == artifact_views(artifacts@),
            out@ == head + artifact_blocks(all.take(i as int)),
        decreases artifacts.len() - i,
    {
        let path = artifacts[i].0.as_str();
        let data = artifacts[i].1.as_str();
        let ghost before = out@;
        out.push_str(cat3("--- ", path, " ---\n").as_str());
        out.push_str(data);
        if !ends_with(data, "\n") {
            out.push_str("\n");
        }
        proof {
            let some = all.take(i + 1);
            assert(some.drop_last() =~= all.take(i as int));
            assert(some.last() == (path@, data@));
            assert(out@ =~= before + artifact_block(path@, data@));
            assert(out@ =~= head + artifact_blocks(some));
        }
        i = i + 1;
    }
    assert(all.take(all.len() as int) =~= all);
    if outcome.exit_code == 127 && contains(
        to_lowercase(outcome.stderr.as_str()).as_str(),
        "not found",
    ) {
        err.push_str(
            "tip: install missing tools in this sandbox session (for example: `hyperbox run --profile full --cmd \"python3 -m pip install pytest\"`), then rerun\n",
        );
    }
    assert(err@ =~= (if logs_already_emitted {
        Seq::empty()
    } else {
        outcome.stderr@
    }) + (if missing_command(*outcome) {
        missing_command_tip()
    } else {
        Seq::empty()
    }));
    Shown { out, err }
}

/// A process as texts.
#[derive(Debug, Clone, PartialEq, Eq)]
pub struct ProcessInfoResponse {
    pub process_id: String,
    pub sandbox_id: String,
    pub requested_sandbox_id: Option<String>,
    pub disposition: String,
    pub status: String,
    pub command: Vec<String>,
    pub exit_code: Option<i32>,
    pub started_at: String,
    pub finished_at: Option<String>,
    pub expires_at: Option<String>,
}

pub open spec fn opt_time_text(t: Option<Timestamp>) -> Option<Seq<char>> {
    match t {
        Some(t) => Some(t@.text()),
        None => None,
    }
}

fn write_opt_time(t: &Option<Timestamp>) -> (r: Option<String>)
    ensures
        opt_view(r) == opt_time_text(*t),
{
    match t {
        Some(t) => Some(t.to_rfc3339()),
        None => None,
    }
}

impl ProcessInfoResponse {
    pub fn of(value: &ProcessInfo) -> (r: Self)
        ensures
            r.process_id@ == hyphenated(value.id.0),
            r.sandbox_id@ == hyphenated(value.sandbox_id.0),
            opt_view(r.requested_sandbox_id) == (match value.requested_sandbox_id {
                Some(id) => Some(hyphenated(id.0)),
                None => None,
            }),
            r.disposition@ == lowercase(value.disposition.word()),
            r.status@ == lowercase(value.status.word()),
            views(r.command@) == views(value.command@),
            r.exit_code == value.exit_code,
            r.started_at@ == value.started_at@.text(),
            opt_view(r.finished_at) == opt_time_text(value.finished_at),
            opt_view(r.expires_at) == opt_time_text(value.expires_at),
    {
        ProcessInfoResponse {
            process_id: value.id.text(),
            sandbox_id: value.sandbox_id.text(),
            requested_sandbox_id: match &value.requested_sandbox_id {
                Some(id) => Some(id.text()),
                None => None,
            },
            disposition: to_lowercase(value.disposition.name()),
            status: to_lowercase(value.status.name()),
            command: clone_texts(&value.command),
            exit_code: value.exit_code,
            started_at: value.started_at.to_rfc3339(),
            finished_at: write_opt_time(&value.finished_at),
            expires_at: write_opt_time(&value.expires_at),
        }
    }
}

/// The row of a process in a list.
pub fn process_row(process: &ProcessInfo) -> (r: String)
    ensures
        r@ == hyphenated(process.id.0) + "  "@ + hyphenated(process.sandbox_id.0) + "  "@
            + lowercase(process.status.word()) + "  "@ + joined(views(process.command@), " "@),
{
    let status = to_lowercase(process.status.name());
    let head = cat4(process.id.text().as_str(), "  ", process.sandbox_id.text().as_str(), "  ");
    let r = cat4(head.as_str(), status.as_str(), "  ", join(&process.command, " ").as_str());
    assert(r@ =~= hyphenated(process.id.0) + "  "@ + hyphenated(process.sandbox_id.0) + "  "@
        + lowercase(process.status.word()) + "  "@ + joined(views(process.command@), " "@));
    r
}

/// The line that tells how a process stands.
pub fn process_line(process: &ProcessInfo) -> (r: String)
    ensures
        r@ == hyphenated(process.id.0) + " "@ + hyphenated(process.sandbox_id.0) + " "@ + lowercase(
            process.status.word(),
        ),
{
    cat5(
        process.id.text().as_str(),
        " ",
        process.sandbox_id.text().as_str(),
        " ",
        to_lowercase(process.status.name()).as_str(),
    )
}

/// A name, or a dash where there is none.
pub open spec fn name_or_dash(name: Option<String>) -> Seq<char> {
    match name {
        Some(n) => n@,
        None => "-"@,
    }
}

fn show_name(name: &Option<String>) -> (r: String)
    ensures
        r@ == name_or_dash(*name),
{
    match name {
        Some(n) => n.clone(),
        None => "-".to_owned(),
    }
}

/// The row of a sandbox in a list.
pub fn sandbox_row(info: &SandboxInfo, affinity_name: &Option<String>) -> (r: String)
    ensures
        r@ == joined(
            seq![
                hyphenated(info.id.0),
                name_or_dash(*affinity_name),
                info.template@,
                lowercase(info.state.word()),
                info.created_at@.text(),
            ],
            "\t"@,
        ),
{
    let mut cells: Vec<String> = Vec::new();
    assert(views(cells@) =~= Seq::<Seq<char>>::empty());
    add_line(&mut cells, info.id.text());
    add_line(&mut cells, show_name(affinity_name));
    add_line(&mut cells, info.template.clone());
    add_line(&mut cells, to_lowercase(info.state.name()));
    add_line(&mut cells, info.created_at.to_rfc3339());
    assert(views(cells@) =~= seq![
        hyphenated(info.id.0),
        name_or_dash(*affinity_name),
        info.template@,
        lowercase(info.state.word()),
        info.created_at@.text(),
    ]);
    join(&cells, "\t")
}

/// The row of a snapshot in a list.
pub fn snapshot_row(snapshot: &SnapshotMetadata) -> (r: String)
    ensures
        r@ == joined(
            seq![
                hyphenated(snapshot.id.0),
                snapshot.template@,
                name_or_dash(snapshot.affinity_name),
                snapshot.created_at@.text(),
            ],
            "\t"@,
        ),
{
    let mut cells: Vec<String> = Vec::new();
    assert(views(cells@) =~= Seq::<Seq<char>>::empty());
    add_line(&mut cells, snapshot.id.text());
    add_line(&mut cells, snapshot.template.clone());
    add_line(&mut cells, show_name(&snapshot.affinity_name));
    add_line(&mut cells, snapshot.created_at.to_rfc3339());
    assert(views(cells@) =~= seq![
        hyphenated(snapshot.id.0),
        snapshot.template@,
        name_or_dash(snapshot.affinity_name),
        snapshot.created_at@.text(),
    ]);
    join(&cells, "\t")
}

/// What is said of a list that the server could not give: an old server is told apart.
pub fn list_fault(fault: Fault) -> (r: Fault)
    ensures
        if has_text(fault.message@, "Unimplemented"@) {
            r.says(
                "server does not support `list` yet (likely stale daemon). Restart hyperbox server and retry `hyperbox list`."@,
            )
        } else {
            r == fault
        },
{
    if contains(fault.message.as_str(), "Unimplemented") {
        Fault::new(
            "server does not support `list` yet (likely stale daemon). Restart hyperbox server and retry `hyperbox list`.".to_owned(),
        )
    } else {
        fault
    }
}

/// The tip after a sandbox was made.
pub fn snapshot_tip(id: SandboxId) -> (r: String)
    ensures
        r@ == "tip: snapshot this environment with `hyperbox snapshot create --sandbox-id "@
            + hyphenated(id.0) + "`"@,
{
    cat3(
        "tip: snapshot this environment with `hyperbox snapshot create --sandbox-id ",
        id.text().as_str(),
        "`",
    )
}

/// The tip after a snapshot was made.
pub fn restore_tip(id: SnapshotId) -> (r: String)
    ensures
        r@ == "tip: restore with `hyperbox snapshot restore --snapshot-id "@ + hyphenated(id.0)
            + "`"@,
{
    cat3(
        "tip: restore with `hyperbox snapshot restore --snapshot-id ",
        id.text().as_str(),
        "`",
    )
}

/// The tip after a snapshot was restored.
pub fn shell_tip(id: SandboxId) -> (r: String)
    ensures
        r@ == "tip: open a shell in the restored sandbox with `hyperbox shell --sandbox-id "@
            + hyphenated(id.0) + "`"@,
{
    cat3(
        "tip: open a shell in the restored sandbox with `hyperbox shell --sandbox-id ",
        id.text().as_str(),
        "`",
    )
}

/// The line that tells which template was chosen.
pub fn template_line(template: &str, reason: &str) -> (r: String)
    ensures
        r@ == "template: auto-selected `"@ + template@ + "` ("@ + reason@ + ")"@,
{
    cat5("template: auto-selected `", template, "` (", reason, ")")
}

proof fn earlier_blocks_stand_first(list: Seq<(Seq<char>, Seq<char>)>, i: int)
    requires
        0 <= i <= list.len(),
    ensures
        starts(artifact_blocks(list), artifact_blocks(list.take(i))),
    decreases list.len(),
{
    let all = artifact_blocks(list);
    if i == list.len() {
        assert(list.take(i) =~= list);
        assert(all.subrange(0, all.len() as int) =~= all);
    } else {
        earlier_blocks_stand_first(list.drop_last(), i);
        assert(list.drop_last().take(i) =~= list.take(i));
        let head = artifact_blocks(list.drop_last());
        let n = artifact_blocks(list.take(i)).len() as int;
        assert(all.subrange(0, n) =~= head.subrange(0, n));
    }
}

/// Each file that was asked for is shown whole under its path, in the order that they were asked
/// for in, and what is behind it starts on a line of its own.
pub proof fn files_are_shown_under_their_paths(list: Seq<(Seq<char>, Seq<char>)>, i: int)
    requires
        0 <= i < list.len(),
    ensures
        ({
            let before = artifact_blocks(list.take(i));
            let shown = before + "--- "@ + list[i].0 + " ---\n"@ + list[i].1;
            &&& starts(artifact_blocks(list), shown)
            &&& i > 0 ==> before.last() == '\n'
            &&& artifact_blocks(list).last() == '\n'
        }),
{
    reveal_strlit("\n");
    reveal_strlit(" ---\n");
    let before = artifact_blocks(list.take(i));
    let shown = before + "--- "@ + list[i].0 + " ---\n"@ + list[i].1;
    let some = artifact_blocks(list.take(i + 1));
    assert(list.take(i + 1).drop_last() =~= list.take(i));
    assert(list.take(i + 1).last() == list[i]);
    earlier_blocks_stand_first(list, i + 1);
    let all = artifact_blocks(list);
    assert(some.subrange(0, shown.len() as int) =~= shown);
    assert(all.subrange(0, some.len() as int) == some);
    assert(all.subrange(0, shown.len() as int) =~= some.subrange(0, shown.len() as int));
    last_block_ends_its_line(list);
    if i > 0 {
        last_block_ends_its_line(list.take(i));
    }
}

proof fn last_block_ends_its_line(list: Seq<(Seq<char>, Seq<char>)>)
    requires
        list.len() > 0,
    ensures
        artifact_blocks(list).len() > 0,
        artifact_blocks(list).last() == '\n',
{
    reveal_strlit("\n");
    let path = list.last().0;
    let data = list.last().1;
    let block = artifact_block(path, data);
    if ends(data, "\n"@) {
        assert(data.subrange(data.len() - 1, data.len() as int)[0] == '\n');
        assert(block.last() == data.last());
    } else {
        assert(block.last() == "\n"@[0]);
    }
    assert(artifact_blocks(list).last() == block.last());
}

/// What is told of the isolation: the backend with its class, the profile, the network with how it
/// is held to, the paths that can be written to, and a reason and a time limit where there is one.
pub proof fn reports_tell_of_the_isolation(s: EffectiveIsolationSummary)
    ensures
        ({
            let lines = isolation_lines(s);
            &&& lines.contains("  backend: "@ + s.backend@ + " ("@ + s.isolation_class@ + ")"@)
            &&& lines.contains("  profile: "@ + s.profile@)
            &&& lines.contains("  network: "@ + s.network_mode@ + " ["@ + s.network_enforcement@ + "]"@)
            &&& lines.contains("  writable: "@ + joined(views(s.writable_paths@), ", "@))
            &&& s.network_reason matches Some(why) ==> lines.contains("  network_reason: "@ + why@)
            &&& s.timeout_secs > 0 ==> lines.contains(
                "  timeout_secs: "@ + decimal(s.timeout_secs as nat),
            )
            &&& lines.len() == 5 + (if s.network_reason is Some {
                1int
            } else {
                0int
            }) + (if s.timeout_secs > 0 {
                1int
            } else {
                0int
            })
        }),
{
    let lines = isolation_lines(s);
    let k: int = if s.network_reason is Some {
        5
    } else {
        4
    };
    assert(lines.contains(lines[1]) && lines.contains(lines[2]) && lines.contains(lines[3]));
    assert(lines.contains(lines[k]));
    if s.network_reason is Some {
        assert(lines.contains(lines[4]));
    }
    if s.timeout_secs > 0 {
        assert(lines[k + 1] == "  timeout_secs: "@ + decimal(s.timeout_secs as nat));
        assert(lines.contains(lines[k + 1]));
    }
}

} // verus!
