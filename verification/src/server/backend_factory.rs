//! Which backend keeps the sandboxes, and how it is set up.

use crate::apple::backend::{AppleBackendConfig, AppleRuntimeKind};
use crate::firecracker::backend::FirecrackerBackendConfig;
use crate::firecracker::vm::FirecrackerBinary;
use crate::paths::{below, join_path};
use crate::table::Table;
use crate::text::{
    chars_of, is_whitespace, lowercase, opt_view, replace_char, replaced, same, to_lowercase, views,
    white,
};
use vstd::prelude::*;

verus! {

#[derive(Debug, Clone, Copy, PartialEq, Eq, Structural)]
pub enum BackendKind {
    Auto,
    Local,
    Firecracker,
    Apple,
}

/// The backend that a setting names; any other setting leaves the choice open.
pub open spec fn kind_named(setting: Option<Seq<char>>) -> BackendKind {
    match setting {
        Some(s) => if s == "local"@ {
            BackendKind::Local
        } else if s == "firecracker"@ {
            BackendKind::Firecracker
        } else if s == "apple"@ {
            BackendKind::Apple
        } else {
            BackendKind::Auto
        },
        None => BackendKind::Auto,
    }
}

impl BackendKind {
    /// The backend that `HYPERBOX_BACKEND` names, given its value.
    pub fn from_env(setting: &Option<String>) -> (r: Self)
        ensures
            r == kind_named(opt_view(*setting)),
    {
        match setting {
            None => BackendKind::Auto,
            Some(s) => {
                if same(s.as_str(), "local") {
                    BackendKind::Local
                } else if same(s.as_str(), "firecracker") {
                    BackendKind::Firecracker
                } else if same(s.as_str(), "apple") {
                    BackendKind::Apple
                } else {
                    BackendKind::Auto
                }
            },
        }
    }
}

/// What the host can do.
#[derive(Debug, Clone, PartialEq, Eq)]
pub struct HostAbilities {
    /// The name of the operating system.
    pub os: String,
    pub supports_firecracker: bool,
    pub supports_virtualization: bool,
}

/// The backend that is used: the one that was asked for, or else the best that the host can
/// run.
pub open spec fn kind_used(kind: BackendKind, host: HostAbilities) -> BackendKind {
    match kind {
        BackendKind::Auto => if host.os@ == "linux"@ && host.supports_firecracker {
            BackendKind::Firecracker
        } else if host.os@ == "macos"@ && host.supports_virtualization {
            BackendKind::Apple
        } else {
            BackendKind::Local
        },
        named => named,
    }
}

pub fn select_backend(kind: BackendKind, host: &HostAbilities) -> (r: BackendKind)
    ensures
        r == kind_used(kind, *host),
        r != BackendKind::Auto,
{
    match kind {
        BackendKind::Auto => {
            proof {
                reveal_strlit("linux");
                reveal_strlit("macos");
                assert("linux"@[0] != "macos"@[0]);
            }
            if same(host.os.as_str(), "linux") {
                if host.supports_firecracker {
                    BackendKind::Firecracker
                } else {
                    BackendKind::Local
                }
            } else if same(host.os.as_str(), "macos") {
                if host.supports_virtualization {
                    BackendKind::Apple
                } else {
                    BackendKind::Local
                }
            } else {
                BackendKind::Local
            }
        },
        named => named,
    }
}

/// The settings of the Firecracker backend, where they are set.
#[derive(Debug)]
pub struct FirecrackerSettings {
    pub work_dir: Option<String>,
    pub kernel: Option<String>,
    pub template_dir: Option<String>,
    pub agent_endpoint: Option<String>,
    pub agent_autostart: Option<String>,
    pub host_iface: Option<String>,
    pub network_dry_run: Option<String>,
}

/// A text, or another in its place.
pub open spec fn or_else(setting: Option<String>, other: Seq<char>) -> Seq<char> {
    match setting {
        Some(s) => s@,
        None => other,
    }
}

fn setting_or(setting: Option<String>, other: &str) -> (r: String)
    ensures
        r@ == or_else(setting, other@),
{
    match setting {
        Some(s) => s,
        None => other.to_owned(),
    }
}

/// The templates that have a disk.
pub open spec fn disk_templates() -> Seq<Seq<char>> {
    seq![
        "python:3.11"@,
        "python:3.12"@,
        "node:18"@,
        "node:20"@,
        "golang:1.22"@,
        "rust:1.75"@,
        "ubuntu:22.04"@,
    ]
}

/// Where the disk of a template stands.
pub open spec fn disk_path(dir: Seq<char>, template: Seq<char>) -> Seq<char> {
    below(below(dir, replaced(template, ':', "-"@)), "rootfs.ext4"@)
}

fn disks(dir: &str) -> (r: Table<String, String>)
    ensures
        forall|t: Seq<char>| #[trigger]
            r@.contains_key(t) <==> disk_templates().contains(t),
        forall|t: Seq<char>| #[trigger]
            r@.contains_key(t) ==> r@[t]@ == disk_path(dir@, t),
{
    let list = crate::text::texts(
        &[
            "python:3.11",
            "python:3.12",
            "node:18",
            "node:20",
            "golang:1.22",
            "rust:1.75",
            "ubuntu:22.04",
        ],
    );
    let ghost all = views(list@);
    assert(all =~= disk_templates());
    let mut out: Table<String, String> = Table::new();
    let mut i: usize = 0;
    while i < list.len()
        invariant
            i <= list.len(),
            all == views(list@),
            forall|t: Seq<char>| #[trigger]
                out@.contains_key(t) <==> all.take(i as int).contains(t),
            forall|t: Seq<char>| #[trigger]
                out@.contains_key(t) ==> out@[t]@ == disk_path(dir@, t),
        decreases list.len() - i,
    {
        let template = list[i].clone();
        let name = replace_char(template.as_str(), ':', "-");
        let path = join_path(join_path(dir, name.as_str()).as_str(), "rootfs.ext4");
        out.insert(template, path);
        proof {
            assert forall|t: Seq<char>| #[trigger]
                out@.contains_key(t) <==> all.take(i + 1).contains(t) by {
                let some = all.take(i as int);
                let more = all.take(i + 1);
                if some.contains(t) {
                    let k = choose|k: int| 0 <= k < some.len() && some[k] == t;
                    assert(more[k] == t);
                }
                if more.contains(t) {
                    let k = choose|k: int| 0 <= k < more.len() && more[k] == t;
                    if k < i {
                        assert(some[k] == t);
                    }
                }
                if t == template@ {
                    assert(more[i as int] == t);
                }
            }
        }
        i = i + 1;
    }
    assert(all.take(all.len() as int) =~= all);
    out
}

/// Whether a setting says no.
pub open spec fn says_no(setting: Option<String>) -> bool {
    setting matches Some(v) && (v@ == "0"@ || lowercase(v@) == "false"@)
}

fn is_no(setting: &Option<String>) -> (r: bool)
    ensures
        r == says_no(*setting),
{
    match setting {
        Some(v) => same(v.as_str(), "0") || same(to_lowercase(v.as_str()).as_str(), "false"),
        None => false,
    }
}

/// Whether a setting asks for a firewall that is only recorded.
pub open spec fn asks_dry_run(setting: Option<String>) -> bool {
    setting is Some && !says_no(setting)
}

pub fn build_firecracker_config(settings: FirecrackerSettings, temp_dir: &str) -> (r:
    FirecrackerBackendConfig)
    ensures
        r.work_dir@ == or_else(settings.work_dir, below(temp_dir@, "hyperbox-firecracker"@)),
        r.kernel_image@ == or_else(settings.kernel, "/var/lib/hyperbox/vmlinux"@),
        r.firecracker_binary.firecracker_path@ == "firecracker"@,
        r.agent_endpoint@ == or_else(settings.agent_endpoint, "http://127.0.0.1:60061"@),
        r.agent_root@ == below(temp_dir@, "hyperbox-agentd"@),
        r.auto_start_agent == !says_no(settings.agent_autostart),
        r.host_iface@ == or_else(settings.host_iface, "eth0"@),
        r.network_dry_run == asks_dry_run(settings.network_dry_run),
        forall|t: Seq<char>| #[trigger]
            r.rootfs_by_template@.contains_key(t) <==> disk_templates().contains(t),
        forall|t: Seq<char>| #[trigger]
            r.rootfs_by_template@.contains_key(t) ==> r.rootfs_by_template@[t]@ == disk_path(
                or_else(settings.template_dir, "templates"@),
                t,
            ),
{
    let network_dry_run = settings.network_dry_run.is_some() && !is_no(&settings.network_dry_run);
    let auto_start_agent = !is_no(&settings.agent_autostart);
    let template_dir = setting_or(settings.template_dir, "templates");
    FirecrackerBackendConfig {
        work_dir: setting_or(
            settings.work_dir,
            join_path(temp_dir, "hyperbox-firecracker").as_str(),
        ),
        firecracker_binary: FirecrackerBinary { firecracker_path: "firecracker".to_owned() },
        kernel_image: setting_or(settings.kernel, "/var/lib/hyperbox/vmlinux"),
        agent_endpoint: setting_or(settings.agent_endpoint, "http://127.0.0.1:60061"),
        agent_root: join_path(temp_dir, "hyperbox-agentd"),
        auto_start_agent,
        rootfs_by_template: disks(template_dir.as_str()),
        host_iface: setting_or(settings.host_iface, "eth0"),
        network_dry_run,
    }
}

/// The settings of the Apple backend, where they are set.
#[derive(Debug)]
pub struct AppleSettings {
    pub work_dir: Option<String>,
    pub agent_endpoint: Option<String>,
    pub helper: Option<String>,
    pub runtime: Option<String>,
}

/// The words of a text, and the word at its end that is not over yet.
pub open spec fn scanned_words(s: Seq<char>) -> (Seq<Seq<char>>, Seq<char>)
    decreases s.len(),
{
    if s.len() == 0 {
        (Seq::<Seq<char>>::empty(), Seq::<char>::empty())
    } else {
        let (done, word) = scanned_words(s.drop_last());
        if !white(s.last()) {
            (done, word.push(s.last()))
        } else if word.len() > 0 {
            (done.push(word), Seq::<char>::empty())
        } else {
            (done, word)
        }
    }
}

/// The words of a text between white space.
pub open spec fn words(s: Seq<char>) -> Seq<Seq<char>> {
    let (done, word) = scanned_words(s);
    if word.len() > 0 {
        done.push(word)
    } else {
        done
    }
}

pub fn split_words(s: &str) -> (r: Vec<String>)
    ensures
        views(r@) == words(s@),
{
    let chars = chars_of(s);
    let mut done: Vec<String> = Vec::new();
    let mut word = String::new();
    let mut open = false;
    let mut i: usize = 0;
    assert(views(done@) =~= Seq::<Seq<char>>::empty());
    while i < chars.len()
        invariant
            chars@ == s@,
            i <= chars.len(),
            (views(done@), word@) == scanned_words(s@.take(i as int)),
            open == (word@.len() > 0),
        decreases chars.len() - i,
    {
        assert(s@.take(i + 1).drop_last() =~= s@.take(i as int));
        if !is_whitespace(chars[i]) {
            word.push(chars[i]);
            open = true;
        } else if open {
            let ghost before = done@;
            let ghost text = word@;
            done.push(word);
            assert(views(done@) =~= views(before).push(text));
            word = String::new();
            open = false;
        }
        i = i + 1;
    }
    assert(s@.take(s@.len() as int) =~= s@);
    if open {
        let ghost before = done@;
        let ghost text = word@;
        done.push(word);
        assert(views(done@) =~= views(before).push(text));
    }
    done
}

/// The runtime that a setting names; any other setting leaves the choice to the host.
pub open spec fn runtime_used(setting: Option<String>, containers_supported: bool)
 -> AppleRuntimeKind {
    if setting is Some && lowercase(setting->0@) == "containerization"@ {
        AppleRuntimeKind::Containerization
    } else if setting is Some && lowercase(setting->0@) == "virtualization"@ {
        AppleRuntimeKind::Virtualization
    } else if containers_supported {
        AppleRuntimeKind::Containerization
    } else {
        AppleRuntimeKind::Virtualization
    }
}

pub fn build_apple_config(settings: AppleSettings, temp_dir: &str, containers_supported: bool)
 -> (r: AppleBackendConfig)
    ensures
        r.work_dir@ == or_else(settings.work_dir, below(temp_dir@, "hyperbox-apple"@)),
        r.agent_endpoint@ == or_else(settings.agent_endpoint, "http://127.0.0.1:60061"@),
        r.runtime_kind == runtime_used(settings.runtime, containers_supported),
        match settings.helper {
            Some(line) => if words(line@).len() == 0 {
                r.launch_command is None
            } else {
                r.launch_command matches Some(command) && views(command@) == words(line@)
            },
            None => r.launch_command is None,
        },
{
    let by_host = if containers_supported {
        AppleRuntimeKind::Containerization
    } else {
        AppleRuntimeKind::Virtualization
    };
    let runtime_kind = match &settings.runtime {
        Some(name) => {
            let name = to_lowercase(name.as_str());
            if same(name.as_str(), "containerization") {
                AppleRuntimeKind::Containerization
            } else if same(name.as_str(), "virtualization") {
                AppleRuntimeKind::Virtualization
            } else {
                by_host
            }
        },
        None => by_host,
    };
    let launch_command = match &settings.helper {
        Some(line) => {
            let parts = split_words(line.as_str());
            assert(parts@.len() == views(parts@).len());
            if parts.len() == 0 {
                None
            } else {
                Some(parts)
            }
        },
        None => None,
    };
    AppleBackendConfig {
        work_dir: setting_or(settings.work_dir, join_path(temp_dir, "hyperbox-apple").as_str()),
        agent_endpoint: setting_or(settings.agent_endpoint, "http://127.0.0.1:60061"),
        launch_command,
        runtime_kind,
    }
}

/// A backend that was asked for by name is used, whatever the host can do.
pub proof fn named_backends_are_used(kind: BackendKind, host: HostAbilities)
    requires
        kind != BackendKind::Auto,
    ensures
        kind_used(kind, host) == kind,
{
}

/// A setting names the backend that it names, and any other one leaves the choice open. Left open,
/// it falls on machines of their own where the host can run them, by its system, and on the host
/// itself only where it cannot.
pub proof fn backends_are_chosen_by_name_or_host(setting: Seq<char>, host: HostAbilities)
    ensures
        kind_named(Some(setting)) is Local <==> setting == "local"@,
        kind_named(Some(setting)) is Firecracker <==> setting == "firecracker"@,
        kind_named(Some(setting)) is Apple <==> setting == "apple"@,
        kind_named(None) is Auto,
        ({
            let used = kind_used(BackendKind::Auto, host);
            &&& used is Firecracker <==> host.os@ == "linux"@ && host.supports_firecracker
            &&& used is Apple <==> host.os@ == "macos"@ && host.supports_virtualization
            &&& used is Local <==> !(used is Firecracker) && !(used is Apple)
        }),
{
    reveal_strlit("local");
    reveal_strlit("firecracker");
    reveal_strlit("apple");
    reveal_strlit("linux");
    reveal_strlit("macos");
    assert("local"@[0] == 'l' && "firecracker"@[0] == 'f' && "apple"@[0] == 'a');
    assert("linux"@[0] == 'l' && "macos"@[0] == 'm');
}

/// A setting says no by `0` and by `false` in any case of its letters, and by nothing else; a
/// firewall that is only recorded has to be asked for.
pub proof fn settings_say_no_by_two_words(setting: String)
    ensures
        says_no(Some(setting)) <==> setting@ == "0"@ || lowercase(setting@) == "false"@,
        !says_no(None),
        asks_dry_run(Some(setting)) <==> setting@ != "0"@ && lowercase(setting@) != "false"@,
        !asks_dry_run(None),
{
}

/// A setting names the runtime in any case of its letters; otherwise the host decides.
pub proof fn runtimes_are_chosen_by_name_or_host(setting: String, containers_supported: bool)
    ensures
        lowercase(setting@) == "containerization"@ ==> runtime_used(
            Some(setting),
            containers_supported,
        ) is Containerization,
        lowercase(setting@) == "virtualization"@ ==> runtime_used(
            Some(setting),
            containers_supported,
        ) is Virtualization,
        lowercase(setting@) != "containerization"@ && lowercase(setting@) != "virtualization"@
            ==> runtime_used(Some(setting), containers_supported) == runtime_used(
            None,
            containers_supported,
        ),
        runtime_used(None, containers_supported) is Containerization <==> containers_supported,
{
    reveal_strlit("containerization");
    reveal_strlit("virtualization");
    assert("containerization"@[0] == 'c' && "virtualization"@[0] == 'v');
}

} // verus!
