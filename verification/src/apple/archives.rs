//! What the archives of snapshots hold: packing the system of a sandbox, taking the archive out,
//! and unpacking it in another sandbox.

use crate::apple::backend::{
    archive_path, asks_shell, pack_script, unpack_script, AppleEffect, AppleReply, AppleStep,
    AppleVzBackend, DirectContainerSandbox,
};
use crate::apple::snapshots::{
    asks_copy, asks_parents, asks_removal, removal_script, AppleRestore, AppleSnapshot,
    ArchivePlace,
};
use crate::config::SandboxConfig;
use crate::error::HyperboxError;
use crate::ids::hyphenated;
use crate::model::SandboxLease;
use crate::paths::below;
use crate::script::is_within;
use crate::snapshot::SnapshotId;
use vstd::prelude::*;

verus! {

/// The files of a system by their paths, and what stands in its archives.
#[verifier::ext_equal]
pub struct Disk {
    pub files: Map<Seq<char>, Seq<char>>,
    pub archives: Map<Seq<char>, Map<Seq<char>, Seq<char>>>,
    pub failed: bool,
}

/// Something stands at a path.
pub open spec fn stands(files: Map<Seq<char>, Seq<char>>, path: Seq<char>) -> bool {
    exists|p: Seq<char>| files.contains_key(p) && #[trigger] is_within(p, path)
}

/// A path leads into one of the directories of these names at the root.
pub open spec fn leads_into(dirs: Seq<Seq<char>>, path: Seq<char>) -> bool {
    exists|i: int| 0 <= i < dirs.len() && is_within(path, "/"@ + #[trigger] dirs[i])
}

/// Words with a space between them.
pub open spec fn spaced(words: Seq<Seq<char>>) -> Seq<char>
    decreases words.len(),
{
    if words.len() == 0 {
        Seq::<char>::empty()
    } else if words.len() == 1 {
        words[0]
    } else {
        spaced(words.drop_last()) + " "@ + words.last()
    }
}

/// `set -eu; mkdir -p place; set --; for d in dirs; do [ -e "/$d" ] && set -- "$@" "$d"; done;
/// [ "$#" -gt 0 ]; tar --ignore-failed-read -czf archive -C / "$@"`
pub open spec fn packing_text(
    place: Seq<char>,
    dirs: Seq<Seq<char>>,
    archive: Seq<char>,
) -> Seq<char> {
    "set -eu; mkdir -p "@ + place + "; set --; for d in "@ + spaced(dirs)
        + "; do [ -e \"/$d\" ] && set -- \"$@\" \"$d\"; done; [ \"$#\" -gt 0 ]; tar --ignore-failed-read -czf "@
        + archive + " -C / \"$@\""@
}

/// The directory of this name at the root is there.
pub open spec fn is_there(files: Map<Seq<char>, Seq<char>>) -> spec_fn(Seq<char>) -> bool {
    |d: Seq<char>| stands(files, "/"@ + d)
}

/// What it does: of the directories those that are there go into the archive with all that is in
/// them, and it fails where none is there.
pub open spec fn packing(dirs: Seq<Seq<char>>, archive: Seq<char>, disk: Disk) -> Disk {
    let there = dirs.filter(is_there(disk.files));
    if there.len() == 0 {
        Disk { failed: true, ..disk }
    } else {
        Disk {
            archives: disk.archives.insert(
                archive,
                disk.files.restrict(Set::new(|p: Seq<char>| leads_into(there, p))),
            ),
            ..disk
        }
    }
}

/// `tar --no-same-owner --no-same-permissions --no-overwrite-dir --touch -xzf archive -C /`
pub open spec fn unpacking_text(archive: Seq<char>) -> Seq<char> {
    "tar --no-same-owner --no-same-permissions --no-overwrite-dir --touch -xzf "@ + archive
        + " -C /"@
}

/// What it does: the files of the archive stand where they stood, in place of what stood there.
pub open spec fn unpacking(archive: Seq<char>, disk: Disk) -> Disk {
    Disk { files: disk.files.union_prefer_right(disk.archives[archive]), ..disk }
}

/// The directories of the system.
pub open spec fn system_dirs() -> Seq<Seq<char>> {
    seq![
        "bin"@,
        "boot"@,
        "etc"@,
        "home"@,
        "lib"@,
        "lib64"@,
        "opt"@,
        "root"@,
        "sbin"@,
        "srv"@,
        "usr"@,
        "var"@,
    ]
}

proof fn spaced_longer(words: Seq<Seq<char>>, word: Seq<char>)
    requires
        words.len() > 0,
    ensures
        spaced(words.push(word)) == spaced(words) + " "@ + word,
{
    assert(words.push(word).drop_last() =~= words);
}

proof fn system_is_spaced()
    ensures
        spaced(system_dirs()) == "bin boot etc home lib lib64 opt root sbin srv usr var"@,
{
    let one = seq!["bin"@];
    assert(spaced(one) == "bin"@);
    spaced_longer(one, "boot"@);
    let two = one.push("boot"@);
    spaced_longer(two, "etc"@);
    let three = two.push("etc"@);
    spaced_longer(three, "home"@);
    let four = three.push("home"@);
    spaced_longer(four, "lib"@);
    let five = four.push("lib"@);
    spaced_longer(five, "lib64"@);
    let six = five.push("lib64"@);
    spaced_longer(six, "opt"@);
    let seven = six.push("opt"@);
    spaced_longer(seven, "root"@);
    let eight = seven.push("root"@);
    spaced_longer(eight, "sbin"@);
    let nine = eight.push("sbin"@);
    spaced_longer(nine, "srv"@);
    let ten = nine.push("srv"@);
    spaced_longer(ten, "usr"@);
    let eleven = ten.push("usr"@);
    spaced_longer(eleven, "var"@);
    assert(eleven.push("var"@) =~= system_dirs());
    reveal_strlit(" ");
    reveal_strlit("bin");
    reveal_strlit("boot");
    reveal_strlit("etc");
    reveal_strlit("home");
    reveal_strlit("lib");
    reveal_strlit("lib64");
    reveal_strlit("opt");
    reveal_strlit("root");
    reveal_strlit("sbin");
    reveal_strlit("srv");
    reveal_strlit("usr");
    reveal_strlit("var");
    reveal_strlit("bin boot etc home lib lib64 opt root sbin srv usr var");
    assert(spaced(system_dirs()) =~= "bin boot etc home lib lib64 opt root sbin srv usr var"@);
}

proof fn packing_reads(archive: Seq<char>)
    ensures
        packing_text("/workspace/.hyperbox/snapshots"@, system_dirs(), archive) == pack_script(
            archive,
        ),
{
    let head =
        "set -eu; mkdir -p /workspace/.hyperbox/snapshots; set --; for d in bin boot etc home lib lib64 opt root sbin srv usr var; do [ -e \"/$d\" ] && set -- \"$@\" \"$d\"; done; [ \"$#\" -gt 0 ]; tar --ignore-failed-read -czf "@;
    assert(head.len() == 211) by {
        reveal_strlit(
            "set -eu; mkdir -p /workspace/.hyperbox/snapshots; set --; for d in bin boot etc home lib lib64 opt root sbin srv usr var; do [ -e \"/$d\" ] && set -- \"$@\" \"$d\"; done; [ \"$#\" -gt 0 ]; tar --ignore-failed-read -czf ",
        );
    }
    assert(head.subrange(0, 18) =~= "set -eu; mkdir -p "@) by {
        reveal_strlit(
            "set -eu; mkdir -p /workspace/.hyperbox/snapshots; set --; for d in bin boot etc home lib lib64 opt root sbin srv usr var; do [ -e \"/$d\" ] && set -- \"$@\" \"$d\"; done; [ \"$#\" -gt 0 ]; tar --ignore-failed-read -czf ",
        );
        reveal_strlit("set -eu; mkdir -p ");
    }
    assert(head.subrange(18, 48) =~= "/workspace/.hyperbox/snapshots"@) by {
        reveal_strlit(
            "set -eu; mkdir -p /workspace/.hyperbox/snapshots; set --; for d in bin boot etc home lib lib64 opt root sbin srv usr var; do [ -e \"/$d\" ] && set -- \"$@\" \"$d\"; done; [ \"$#\" -gt 0 ]; tar --ignore-failed-read -czf ",
        );
        reveal_strlit("/workspace/.hyperbox/snapshots");
    }
    assert(head.subrange(48, 67) =~= "; set --; for d in "@) by {
        reveal_strlit(
            "set -eu; mkdir -p /workspace/.hyperbox/snapshots; set --; for d in bin boot etc home lib lib64 opt root sbin srv usr var; do [ -e \"/$d\" ] && set -- \"$@\" \"$d\"; done; [ \"$#\" -gt 0 ]; tar --ignore-failed-read -czf ",
        );
        reveal_strlit("; set --; for d in ");
    }
    assert(head.subrange(67, 120) =~= "bin boot etc home lib lib64 opt root sbin srv usr var"@) by {
        reveal_strlit(
            "set -eu; mkdir -p /workspace/.hyperbox/snapshots; set --; for d in bin boot etc home lib lib64 opt root sbin srv usr var; do [ -e \"/$d\" ] && set -- \"$@\" \"$d\"; done; [ \"$#\" -gt 0 ]; tar --ignore-failed-read -czf ",
        );
        reveal_strlit("bin boot etc home lib lib64 opt root sbin srv usr var");
    }
    assert(head.subrange(120, 211) =~= "; do [ -e \"/$d\" ] && set -- \"$@\" \"$d\"; done; [ \"$#\" -gt 0 ]; tar --ignore-failed-read -czf "@) by {
        reveal_strlit(
            "set -eu; mkdir -p /workspace/.hyperbox/snapshots; set --; for d in bin boot etc home lib lib64 opt root sbin srv usr var; do [ -e \"/$d\" ] && set -- \"$@\" \"$d\"; done; [ \"$#\" -gt 0 ]; tar --ignore-failed-read -czf ",
        );
        reveal_strlit("; do [ -e \"/$d\" ] && set -- \"$@\" \"$d\"; done; [ \"$#\" -gt 0 ]; tar --ignore-failed-read -czf ");
    }
    system_is_spaced();
    assert(head =~= head.subrange(0, 18) + head.subrange(18, 48) + head.subrange(
        48,
        67,
    ) + head.subrange(67, 120) + head.subrange(120, 211));
    assert(packing_text("/workspace/.hyperbox/snapshots"@, system_dirs(), archive) =~= pack_script(
        archive,
    ));
}

/// What is packed in one sandbox and unpacked in another. The archive holds each file of the
/// system as it is and nothing else; it is made unless no file of the system is there. Unpacked,
/// each of these files stands in the other sandbox as it stood in the one, and what stands outside
/// of the system there stays as it is, as do the files of the sandbox that was packed.
pub proof fn archives_hold_the_system(archive: Seq<char>, old_disk: Disk, new_disk: Disk)
    requires
        !old_disk.failed,
        !new_disk.failed,
    ensures
        packing_text("/workspace/.hyperbox/snapshots"@, system_dirs(), archive) == pack_script(
            archive,
        ),
        unpacking_text(archive) == unpack_script(archive),
        ({
            let packed = packing(system_dirs(), archive, old_disk);
            let held = packed.archives[archive];
            let moved = Disk { archives: new_disk.archives.insert(archive, held), ..new_disk };
            let after = unpacking(archive, moved);
            &&& packed.files == old_disk.files
            &&& packed.failed <==> !exists|p: Seq<char>|
                old_disk.files.contains_key(p) && #[trigger] leads_into(system_dirs(), p)
            &&& !packed.failed ==> {
                &&& forall|p: Seq<char>|
                    #![trigger held.contains_key(p)]
                    held.contains_key(p) <==> old_disk.files.contains_key(p) && leads_into(
                        system_dirs(),
                        p,
                    )
                &&& forall|p: Seq<char>|
                    #![trigger after.files[p]]
                    old_disk.files.contains_key(p) && leads_into(system_dirs(), p)
                        ==> after.files.contains_key(p) && after.files[p] == old_disk.files[p]
                &&& forall|p: Seq<char>|
                    #![trigger after.files.contains_key(p)]
                    !leads_into(system_dirs(), p) ==> after.files.contains_key(p)
                        == new_disk.files.contains_key(p)
                &&& forall|p: Seq<char>|
                    #![trigger after.files[p]]
                    !leads_into(system_dirs(), p) && new_disk.files.contains_key(p)
                        ==> after.files[p] == new_disk.files[p]
            }
        }),
{
    packing_reads(archive);
    let dirs = system_dirs();
    let test = is_there(old_disk.files);
    let there = dirs.filter(test);
    assert forall|p: Seq<char>| old_disk.files.contains_key(p) implies leads_into(there, p)
        == leads_into(dirs, p) by {
        if leads_into(dirs, p) {
            let i = choose|i: int|
                0 <= i < dirs.len() && is_within(p, "/"@ + #[trigger] dirs[i]);
            assert(test(dirs[i]));
            dirs.lemma_filter_contains(test, i);
            let j = choose|j: int| 0 <= j < there.len() && there[j] == dirs[i];
            assert(is_within(p, "/"@ + there[j]));
        }
        if leads_into(there, p) {
            let j = choose|j: int|
                0 <= j < there.len() && is_within(p, "/"@ + #[trigger] there[j]);
            dirs.lemma_filter_contains_rev(test, there[j]);
            let i = choose|i: int| 0 <= i < dirs.len() && dirs[i] == there[j];
            assert(is_within(p, "/"@ + dirs[i]));
        }
    }
    if there.len() > 0 {
        dirs.lemma_filter_pred(test, 0);
        assert(test(there[0]));
        let p = choose|p: Seq<char>|
            old_disk.files.contains_key(p) && #[trigger] is_within(p, "/"@ + there[0]);
        assert(leads_into(there, p));
        assert(leads_into(dirs, p));
    } else {
        assert forall|p: Seq<char>| old_disk.files.contains_key(p) implies !leads_into(dirs, p) by {
            assert(!leads_into(there, p));
        }
    }
    let packed = packing(dirs, archive, old_disk);
    let held = packed.archives[archive];
    if there.len() > 0 {
        assert(held == old_disk.files.restrict(Set::new(|p: Seq<char>| leads_into(there, p))));
        assert forall|p: Seq<char>| #[trigger] held.contains_key(p) implies leads_into(dirs, p) by {
            assert(leads_into(there, p));
        }
    }
}

/// The steps of a snapshot, the state after each and the replies in between.
pub struct PackCourse {
    pub states: Seq<AppleSnapshot>,
    pub steps: Seq<AppleStep<()>>,
    pub replies: Seq<AppleReply>,
}

impl PackCourse {
    pub open spec fn wf(self, backend: AppleVzBackend, place: ArchivePlace) -> bool {
        &&& self.states.len() == self.steps.len() == self.replies.len() + 1
        &&& AppleSnapshot::begins(backend, place, self.states[0], self.steps[0])
        &&& forall|i: int|
            0 <= i < self.replies.len() ==> (#[trigger] self.states[i]).follows(
                self.replies[i],
                self.states[i + 1],
                self.steps[i + 1],
            )
    }
}

/// A snapshot is the archive of the system, taken out of the sandbox. The system is packed below
/// the workspace; from there the archive goes to where snapshots are kept, over the workspace of
/// the host where there is one, else by reading it in the sandbox and writing what was read; and
/// where it was packed it is removed. Nothing is a snapshot before the archive was put there.
pub proof fn archives_are_taken_out(backend: AppleVzBackend, place: ArchivePlace, course: PackCourse)
    requires
        course.wf(backend, place),
        backend.sandboxes@.contains_key(place.sandbox_id.0),
        course.replies.len() >= 1,
        course.replies[0] is Outcome,
    ensures
        ({
            let direct = backend.sandboxes@[place.sandbox_id.0].direct_container;
            let steps = course.steps;
            let replies = course.replies;
            let id = place.sandbox_id;
            &&& asks_shell(steps[0], id, pack_script(place.inside()), 1800)
            &&& replies[0]->Outcome_0.exit_code != 0 ==> (steps[1] matches AppleStep::Done(
                Err(_),
            ))
            &&& replies[0]->Outcome_0.exit_code == 0 ==> {
                &&& asks_parents(steps[1], place.artifact_path@)
                &&& replies.len() >= 4 && replies[1] is Unit && replies[2] is Unit && (replies[3]
                    is Unit || replies[3] is IoFailed) ==> (direct matches Some(d) ==> {
                    &&& asks_copy(steps[2], place.on_host(d), place.artifact_path@)
                    &&& asks_removal(steps[3], place.on_host(d))
                    &&& steps[4] == AppleStep::<()>::Done(Ok(()))
                })
                &&& replies.len() >= 5 && direct is None && replies[1] is Unit && replies[3]
                    is Unit && replies[4] is Outcome ==> (replies[2] matches AppleReply::Payload(p)
                    ==> {
                    &&& steps[2] matches AppleStep::Ask(AppleEffect::ReadFile(i, path)) && i == id
                        && path@ == archive_path(place.snapshot_id)
                    &&& steps[3] matches AppleStep::Ask(AppleEffect::WriteHost(path, bytes))
                        && path@ == place.artifact_path@ && bytes@ == p.bytes@
                    &&& asks_shell(steps[4], id, removal_script(place.inside()), 30)
                    &&& steps[5] == AppleStep::<()>::Done(Ok(()))
                })
            }
            &&& forall|i: int|
                1 <= i < steps.len() && #[trigger] steps[i] == AppleStep::<()>::Done(Ok(())) ==> i
                    >= 4
        }),
{
    let states = course.states;
    let replies = course.replies;
    assert(states[0].follows(replies[0], states[1], course.steps[1]));
    if replies.len() >= 2 {
        assert(states[1].follows(replies[1], states[2], course.steps[2]));
    }
    if replies.len() >= 3 {
        assert(states[2].follows(replies[2], states[3], course.steps[3]));
    }
    if replies.len() >= 4 {
        assert(states[3].follows(replies[3], states[4], course.steps[4]));
    }
    if replies.len() >= 5 {
        assert(states[4].follows(replies[4], states[5], course.steps[5]));
    }
}

/// The steps of a restore, the state after each and the replies in between.
pub struct UnpackCourse {
    pub states: Seq<AppleRestore>,
    pub steps: Seq<AppleStep<SandboxLease>>,
    pub replies: Seq<AppleReply>,
}

impl UnpackCourse {
    /// The course begins with looking for the archive, and each reply finds the backend as it is
    /// once the sandbox was made.
    pub open spec fn wf(
        self,
        backend: AppleVzBackend,
        id: SnapshotId,
        path: String,
        config: SandboxConfig,
    ) -> bool {
        &&& self.states.len() == self.steps.len() == self.replies.len() + 1
        &&& self.states[0] == AppleRestore::Looking(id, path, config)
        &&& forall|i: int|
            0 <= i < self.replies.len() ==> (#[trigger] self.states[i]).follows(
                self.replies[i],
                backend,
                self.states[i + 1],
                self.steps[i + 1],
            )
    }
}

/// A restored sandbox is made as configured, and the archive of the snapshot is brought into it and
/// unpacked: over its workspace on the host where it has one, else by writing into the sandbox what
/// was read. It is brought to where it is unpacked, and removed from there. Without an archive no
/// sandbox is made, and the sandbox is handed out at the end.
pub proof fn archives_are_brought_in(
    backend: AppleVzBackend,
    id: SnapshotId,
    path: String,
    config: SandboxConfig,
    lease: SandboxLease,
    course: UnpackCourse,
)
    requires
        course.wf(backend, id, path, config),
        course.replies.len() >= 1,
        course.replies[0] is Exists,
        backend.sandboxes@.contains_key(lease.id.0),
    ensures
        ({
            let place = ArchivePlace {
                sandbox_id: lease.id,
                snapshot_id: id,
                artifact_path: path,
            };
            let direct = backend.sandboxes@[lease.id.0].direct_container;
            let steps = course.steps;
            let replies = course.replies;
            &&& replies[0] == AppleReply::Exists(false) ==> (steps[1] matches AppleStep::Done(
                Err(_),
            ))
            &&& replies[0] == AppleReply::Exists(true) ==> {
                &&& steps[1] == AppleStep::<SandboxLease>::Ask(AppleEffect::Create(config))
                &&& replies.len() >= 6 && replies[1] == AppleReply::Lease(lease) && replies[2]
                    is Unit && replies[3] is Unit && (replies[4] matches AppleReply::Outcome(o)
                    && o.exit_code == 0) && replies[5] is Unit ==> (direct matches Some(d) ==> {
                    &&& asks_parents(steps[2], place.on_host(d))
                    &&& asks_copy(steps[3], path@, place.on_host(d))
                    &&& asks_shell(steps[4], lease.id, unpack_script(place.inside()), 1800)
                    &&& asks_removal(steps[5], place.on_host(d))
                    &&& steps[6] == AppleStep::Done(Ok::<SandboxLease, HyperboxError>(lease))
                })
                &&& replies.len() >= 6 && direct is None && replies[1] == AppleReply::Lease(lease)
                    && replies[3] is Unit && (replies[4] matches AppleReply::Outcome(o)
                    && o.exit_code == 0) && replies[5] is Outcome ==> (replies[2]
                    matches AppleReply::Bytes(bytes) ==> {
                    &&& steps[2] matches AppleStep::Ask(AppleEffect::ReadHost(p)) && p@ == path@
                    &&& steps[3] matches AppleStep::Ask(AppleEffect::WriteFile(i, payload)) && i
                        == lease.id && payload.path@ == archive_path(id) && payload.bytes@ == bytes@
                    &&& asks_shell(steps[4], lease.id, unpack_script(place.inside()), 1800)
                    &&& asks_shell(steps[5], lease.id, removal_script(place.inside()), 30)
                    &&& steps[6] == AppleStep::Done(Ok::<SandboxLease, HyperboxError>(lease))
                })
            }
        }),
{
    let states = course.states;
    let replies = course.replies;
    assert(states[0].follows(replies[0], backend, states[1], course.steps[1]));
    if replies.len() >= 6 {
        assert(states[1].follows(replies[1], backend, states[2], course.steps[2]));
        assert(states[2].follows(replies[2], backend, states[3], course.steps[3]));
        assert(states[3].follows(replies[3], backend, states[4], course.steps[4]));
        assert(states[4].follows(replies[4], backend, states[5], course.steps[5]));
        assert(states[5].follows(replies[5], backend, states[6], course.steps[6]));
    }
}

/// An archive is one file, wherever it is spoken of: in the sandbox and on the host it stands at the
/// same place of the workspace, and archives of two snapshots do not stand at the same one.
pub proof fn archives_stand_in_the_workspace(
    place: ArchivePlace,
    other: ArchivePlace,
    direct: DirectContainerSandbox,
)
    requires
        hyphenated(place.snapshot_id.0) != hyphenated(other.snapshot_id.0),
    ensures
        place.inside() == below("/workspace"@, archive_path(place.snapshot_id)),
        place.on_host(direct) == below(direct.workspace_host@, archive_path(place.snapshot_id)),
        archive_path(place.snapshot_id) != archive_path(other.snapshot_id),
{
    let a = hyphenated(place.snapshot_id.0);
    let b = hyphenated(other.snapshot_id.0);
    let head = ".hyperbox/snapshots"@ + "/"@;
    let x = archive_path(place.snapshot_id);
    let y = archive_path(other.snapshot_id);
    if x == y {
        assert(x.len() == y.len());
        assert(x.subrange(head.len() as int, (head.len() + a.len()) as int) =~= a);
        assert(y.subrange(head.len() as int, (head.len() + b.len()) as int) =~= b);
    }
}

} // verus!
