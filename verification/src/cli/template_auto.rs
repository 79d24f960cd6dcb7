//! Choosing a template where none is named.

use crate::text::{
    contains, has_text, lowercase, same, same_ignoring_case, str_views, to_lowercase, views,
};
use vstd::prelude::*;

verus! {

#[derive(Debug, Clone, PartialEq, Eq)]
pub struct TemplateResolution {
    pub template: String,
    pub reason: String,
}

/// Some of the texts stands in `s`.
pub open spec fn has_any(s: Seq<char>, needles: Seq<Seq<char>>) -> bool {
    exists|i: int| 0 <= i < needles.len() && has_text(s, #[trigger] needles[i])
}

pub fn contains_any(haystack: &str, needles: &[&str]) -> (r: bool)
    ensures
        r == has_any(haystack@, str_views(needles@)),
{
    let mut i: usize = 0;
    while i < needles.len()
        invariant
            i <= needles.len(),
            forall|k: int| 0 <= k < i ==> !has_text(haystack@, #[trigger] str_views(needles@)[k]),
        decreases needles.len() - i,
    {
        if contains(haystack, needles[i]) {
            assert(has_text(haystack@, str_views(needles@)[i as int]));
            return true;
        }
        i = i + 1;
    }
    false
}

pub open spec fn rust_hints() -> Seq<Seq<char>> {
    seq!["cargo "@, "cargo\n"@, "cargo\t"@, "cargo-"@, "rustc"@]
}

pub open spec fn go_hints() -> Seq<Seq<char>> {
    seq!["go "@, "go\n"@, "go\t"@, "go test"@, "go build"@, "go run"@]
}

pub open spec fn node_hints() -> Seq<Seq<char>> {
    seq!["npm "@, "node "@, "pnpm "@, "yarn "@, "npx "@, "bun "@, "tsx "@]
}

pub open spec fn python_hints() -> Seq<Seq<char>> {
    seq!["python"@, "pip "@, "pytest"@, "uv "@, "poetry "@, "ipython"@]
}

/// The template that a command points to, and why; the first language that it shows decides.
pub open spec fn hinted(command: Seq<char>) -> Option<(Seq<char>, Seq<char>)> {
    let hint = lowercase(command);
    if command.len() == 0 {
        None
    } else if has_any(hint, rust_hints()) {
        Some(("rust:1.75"@, "command_hint_rust"@))
    } else if has_any(hint, go_hints()) {
        Some(("golang:1.22"@, "command_hint_go"@))
    } else if has_any(hint, node_hints()) {
        Some(("node:20"@, "command_hint_node"@))
    } else if has_any(hint, python_hints()) {
        Some(("python:3.12"@, "command_hint_python"@))
    } else {
        None
    }
}

pub open spec fn pair_view(p: Option<(&'static str, &'static str)>) -> Option<
    (Seq<char>, Seq<char>),
> {
    match p {
        Some((a, b)) => Some((a@, b@)),
        None => None,
    }
}

pub fn detect_from_command_hint(command_hint: &str) -> (r: Option<(&'static str, &'static str)>)
    ensures
        pair_view(r) == hinted(command_hint@),
{
    if command_hint.is_empty() {
        return None;
    }
    let hint = to_lowercase(command_hint);
    let h = hint.as_str();
    let rust = ["cargo ", "cargo\n", "cargo\t", "cargo-", "rustc"];
    assert(str_views(rust@) =~= rust_hints());
    if contains_any(h, &rust) {
        return Some(("rust:1.75", "command_hint_rust"));
    }
    let go = ["go ", "go\n", "go\t", "go test", "go build", "go run"];
    assert(str_views(go@) =~= go_hints());
    if contains_any(h, &go) {
        return Some(("golang:1.22", "command_hint_go"));
    }
    let node = ["npm ", "node ", "pnpm ", "yarn ", "npx ", "bun ", "tsx "];
    assert(str_views(node@) =~= node_hints());
    if contains_any(h, &node) {
        return Some(("node:20", "command_hint_node"));
    }
    let python = ["python", "pip ", "pytest", "uv ", "poetry ", "ipython"];
    assert(str_views(python@) =~= python_hints());
    if contains_any(h, &python) {
        return Some(("python:3.12", "command_hint_python"));
    }
    None
}

pub open spec fn node_manifests() -> Seq<Seq<char>> {
    seq!["package.json"@, "pnpm-lock.yaml"@, "yarn.lock"@, "package-lock.json"@, "bun.lockb"@]
}

pub open spec fn python_manifests() -> Seq<Seq<char>> {
    seq![
        "pyproject.toml"@,
        "requirements.txt"@,
        "requirements-dev.txt"@,
        "setup.py"@,
        "Pipfile"@,
        "poetry.lock"@,
    ]
}

/// Some of the names is among the files.
pub open spec fn any_present(files: Seq<Seq<char>>, names: Seq<Seq<char>>) -> bool {
    exists|i: int| 0 <= i < names.len() && files.contains(#[trigger] names[i])
}

/// The template that the files of a workspace point to, and why.
pub open spec fn found(files: Seq<Seq<char>>) -> Option<(Seq<char>, Seq<char>)> {
    if files.contains("Cargo.toml"@) {
        Some(("rust:1.75"@, "workspace_cargo_toml"@))
    } else if files.contains("go.mod"@) {
        Some(("golang:1.22"@, "workspace_go_mod"@))
    } else if any_present(files, node_manifests()) {
        Some(("node:20"@, "workspace_node_manifest"@))
    } else if any_present(files, python_manifests()) {
        Some(("python:3.12"@, "workspace_python_manifest"@))
    } else {
        None
    }
}

fn is_present(files: &[String], name: &str) -> (r: bool)
    ensures
        r == views(files@).contains(name@),
{
    let mut i: usize = 0;
    while i < files.len()
        invariant
            i <= files.len(),
            forall|k: int| 0 <= k < i ==> views(files@)[k] != name@,
        decreases files.len() - i,
    {
        if same(files[i].as_str(), name) {
            assert(views(files@)[i as int] == name@);
            return true;
        }
        i = i + 1;
    }
    false
}

fn is_any_present(files: &[String], names: &[&str]) -> (r: bool)
    ensures
        r == any_present(views(files@), str_views(names@)),
{
    let mut i: usize = 0;
    while i < names.len()
        invariant
            i <= names.len(),
            forall|k: int|
                0 <= k < i ==> !views(files@).contains(#[trigger] str_views(names@)[k]),
        decreases names.len() - i,
    {
        if is_present(files, names[i]) {
            assert(views(files@).contains(str_views(names@)[i as int]));
            return true;
        }
        i = i + 1;
    }
    false
}

/// The template that the files of a workspace point to. `files` are the names of the files
/// that stand in its root.
pub fn detect_from_workspace(files: &[String]) -> (r: Option<(&'static str, &'static str)>)
    ensures
        pair_view(r) == found(views(files@)),
{
    if is_present(files, "Cargo.toml") {
        return Some(("rust:1.75", "workspace_cargo_toml"));
    }
    if is_present(files, "go.mod") {
        return Some(("golang:1.22", "workspace_go_mod"));
    }
    let node = ["package.json", "pnpm-lock.yaml", "yarn.lock", "package-lock.json", "bun.lockb"];
    assert(str_views(node@) =~= node_manifests());
    if is_any_present(files, &node) {
        return Some(("node:20", "workspace_node_manifest"));
    }
    let python = [
        "pyproject.toml",
        "requirements.txt",
        "requirements-dev.txt",
        "setup.py",
        "Pipfile",
        "poetry.lock",
    ];
    assert(str_views(python@) =~= python_manifests());
    if is_any_present(files, &python) {
        return Some(("python:3.12", "workspace_python_manifest"));
    }
    None
}

/// The template for a command in a workspace, and why: the one that is named, unless that is
/// `auto`; then what the command shows, then what the workspace shows, then Python.
pub open spec fn resolution(arg: Seq<char>, files: Seq<Seq<char>>, command: Seq<char>) -> (
    Seq<char>,
    Seq<char>,
) {
    if lowercase(arg) != lowercase("auto"@) {
        (arg, "explicit"@)
    } else {
        match hinted(command) {
            Some(p) => p,
            None => match found(files) {
                Some(p) => p,
                None => ("python:3.12"@, "fallback"@),
            },
        }
    }
}

pub fn resolve_template(template_arg: &str, workspace_files: &[String], command_hint: &str) -> (r:
    TemplateResolution)
    ensures
        (r.template@, r.reason@) == resolution(template_arg@, views(workspace_files@), command_hint@),
{
    if !same_ignoring_case(template_arg, "auto") {
        return TemplateResolution {
            template: template_arg.to_owned(),
            reason: "explicit".to_owned(),
        };
    }
    if let Some((template, reason)) = detect_from_command_hint(command_hint) {
        return TemplateResolution { template: template.to_owned(), reason: reason.to_owned() };
    }
    if let Some((template, reason)) = detect_from_workspace(workspace_files) {
        return TemplateResolution { template: template.to_owned(), reason: reason.to_owned() };
    }
    TemplateResolution { template: "python:3.12".to_owned(), reason: "fallback".to_owned() }
}

/// A command shows a word of Rust.
pub open spec fn shows_rust(command: Seq<char>) -> bool {
    let c = lowercase(command);
    has_text(c, "cargo "@)
        || has_text(c, "cargo\n"@)
        || has_text(c, "cargo\t"@)
        || has_text(c, "cargo-"@)
        || has_text(c, "rustc"@)
}

/// A command shows a word of Go.
pub open spec fn shows_go(command: Seq<char>) -> bool {
    let c = lowercase(command);
    has_text(c, "go "@)
        || has_text(c, "go\n"@)
        || has_text(c, "go\t"@)
        || has_text(c, "go test"@)
        || has_text(c, "go build"@)
        || has_text(c, "go run"@)
}

/// A command shows a word of Node.
pub open spec fn shows_node(command: Seq<char>) -> bool {
    let c = lowercase(command);
    has_text(c, "npm "@)
        || has_text(c, "node "@)
        || has_text(c, "pnpm "@)
        || has_text(c, "yarn "@)
        || has_text(c, "npx "@)
        || has_text(c, "bun "@)
        || has_text(c, "tsx "@)
}

/// A command shows a word of Python.
pub open spec fn shows_python(command: Seq<char>) -> bool {
    let c = lowercase(command);
    has_text(c, "python"@)
        || has_text(c, "pip "@)
        || has_text(c, "pytest"@)
        || has_text(c, "uv "@)
        || has_text(c, "poetry "@)
        || has_text(c, "ipython"@)
}

proof fn hints_are_words(command: Seq<char>)
    ensures
        has_any(lowercase(command), rust_hints()) == shows_rust(command),
        has_any(lowercase(command), go_hints()) == shows_go(command),
        has_any(lowercase(command), node_hints()) == shows_node(command),
        has_any(lowercase(command), python_hints()) == shows_python(command),
{
    let c = lowercase(command);
    let r = rust_hints();
    let g = go_hints();
    let n = node_hints();
    let p = python_hints();
    assert(r[0] == "cargo "@ && r[1] == "cargo\n"@ && r[2] == "cargo\t"@ && r[3] == "cargo-"@ && r[4] == "rustc"@);
    assert(g[0] == "go "@ && g[1] == "go\n"@ && g[2] == "go\t"@ && g[3] == "go test"@ && g[4] == "go build"@ && g[5] == "go run"@);
    assert(n[0] == "npm "@ && n[1] == "node "@ && n[2] == "pnpm "@ && n[3] == "yarn "@ && n[4] == "npx "@ && n[5] == "bun "@ && n[6] == "tsx "@);
    assert(p[0] == "python"@ && p[1] == "pip "@ && p[2] == "pytest"@ && p[3] == "uv "@ && p[4] == "poetry "@ && p[5] == "ipython"@);
}

proof fn blank_commands_show_nothing(command: Seq<char>)
    requires
        command.len() == 0,
    ensures
        !shows_rust(command),
        !shows_go(command),
        !shows_node(command),
        !shows_python(command),
{
    reveal_strlit("cargo ");
    reveal_strlit("cargo\n");
    reveal_strlit("cargo\t");
    reveal_strlit("cargo-");
    reveal_strlit("rustc");
    reveal_strlit("go ");
    reveal_strlit("go\n");
    reveal_strlit("go\t");
    reveal_strlit("go test");
    reveal_strlit("go build");
    reveal_strlit("go run");
    reveal_strlit("npm ");
    reveal_strlit("node ");
    reveal_strlit("pnpm ");
    reveal_strlit("yarn ");
    reveal_strlit("npx ");
    reveal_strlit("bun ");
    reveal_strlit("tsx ");
    reveal_strlit("python");
    reveal_strlit("pip ");
    reveal_strlit("pytest");
    reveal_strlit("uv ");
    reveal_strlit("poetry ");
    reveal_strlit("ipython");
}

/// The automatic choice goes by the language that a command shows: Rust before Go, Go before Node,
/// and Node before Python. Only where it shows none of them the workspace is looked at.
pub proof fn commands_choose_their_language(
    arg: Seq<char>,
    files: Seq<Seq<char>>,
    command: Seq<char>,
)
    requires
        lowercase(arg) == "auto"@,
    ensures
        ({
            let chosen = resolution(arg, files, command);
            &&& shows_rust(command) ==> chosen == ("rust:1.75"@, "command_hint_rust"@)
            &&& !shows_rust(command) && shows_go(command) ==> chosen == (
                "golang:1.22"@,
                "command_hint_go"@,
            )
            &&& !shows_rust(command) && !shows_go(command) && shows_node(command) ==> chosen == (
                "node:20"@,
                "command_hint_node"@,
            )
            &&& !shows_rust(command) && !shows_go(command) && !shows_node(command) && shows_python(
                command,
            ) ==> chosen == ("python:3.12"@, "command_hint_python"@)
            &&& !shows_rust(command) && !shows_go(command) && !shows_node(command)
                && !shows_python(command) ==> chosen == resolution(arg, files, Seq::empty())
        }),
{
    auto_is_lower();
    hints_are_words(command);
    let none = Seq::<char>::empty();
    hints_are_words(none);
    if command.len() == 0 {
        blank_commands_show_nothing(command);
        assert(command =~= none);
    }
}

proof fn auto_is_lower()
    ensures
        lowercase("auto"@) == "auto"@,
{
    reveal_strlit("auto");
    assert(lowercase("auto"@) =~= "auto"@);
}

/// Without a command the automatic choice goes by the files in the root of the workspace: the
/// manifest of Rust before that of Go, then one of Node, then one of Python, and Python where
/// there is none.
pub proof fn workspaces_choose_their_language(arg: Seq<char>, files: Seq<Seq<char>>)
    requires
        lowercase(arg) == "auto"@,
    ensures
        ({
            let chosen = resolution(arg, files, Seq::empty());
            let rust = files.contains("Cargo.toml"@);
            let go = files.contains("go.mod"@);
            let node = files.contains("package.json"@) || files.contains("pnpm-lock.yaml"@)
                || files.contains("yarn.lock"@) || files.contains("package-lock.json"@)
                || files.contains("bun.lockb"@);
            let python = files.contains("pyproject.toml"@) || files.contains("requirements.txt"@)
                || files.contains("requirements-dev.txt"@) || files.contains("setup.py"@)
                || files.contains("Pipfile"@) || files.contains("poetry.lock"@);
            &&& rust ==> chosen == ("rust:1.75"@, "workspace_cargo_toml"@)
            &&& !rust && go ==> chosen == ("golang:1.22"@, "workspace_go_mod"@)
            &&& !rust && !go && node ==> chosen == ("node:20"@, "workspace_node_manifest"@)
            &&& !rust && !go && !node && python ==> chosen == (
                "python:3.12"@,
                "workspace_python_manifest"@,
            )
            &&& !rust && !go && !node && !python ==> chosen == ("python:3.12"@, "fallback"@)
        }),
{
    auto_is_lower();
    let n = node_manifests();
    let p = python_manifests();
    assert(n[0] == "package.json"@ && n[1] == "pnpm-lock.yaml"@ && n[2] == "yarn.lock"@ && n[3]
        == "package-lock.json"@ && n[4] == "bun.lockb"@);
    assert(p[0] == "pyproject.toml"@ && p[1] == "requirements.txt"@ && p[2]
        == "requirements-dev.txt"@ && p[3] == "setup.py"@ && p[4] == "Pipfile"@ && p[5]
        == "poetry.lock"@);
}

/// A template that is named is the one that is used, whatever the command and the workspace show.
pub proof fn named_templates_are_used(arg: Seq<char>, files: Seq<Seq<char>>, command: Seq<char>)
    requires
        lowercase(arg) != "auto"@,
    ensures
        resolution(arg, files, command) == (arg, "explicit"@),
{
    auto_is_lower();
}

/// Each reason stands with one template: two choices for the same reason are the same, unless the
/// templates were named.
pub proof fn reasons_stand_with_one_template(
    files: Seq<Seq<char>>,
    command: Seq<char>,
    other_files: Seq<Seq<char>>,
    other_command: Seq<char>,
)
    ensures
        ({
            let a = resolution("auto"@, files, command);
            let b = resolution("auto"@, other_files, other_command);
            &&& a.1 == b.1 ==> a.0 == b.0
            &&& a.1 != "explicit"@
            &&& a.1 == "command_hint_node"@ || a.1 == "workspace_node_manifest"@ ==> a.0
                == "node:20"@
            &&& a.1 == "command_hint_rust"@ || a.1 == "workspace_cargo_toml"@ ==> a.0
                == "rust:1.75"@
            &&& a.1 == "command_hint_go"@ || a.1 == "workspace_go_mod"@ ==> a.0 == "golang:1.22"@
            &&& a.1 == "command_hint_python"@ || a.1 == "workspace_python_manifest"@ || a.1
                == "fallback"@ ==> a.0 == "python:3.12"@
        }),
{
    auto_is_lower();
    reasons_differ();
}

/// The place of a reason among those that there are.
spec fn reason_number(reason: Seq<char>) -> int {
    if reason == "command_hint_rust"@ {
        0
    } else if reason == "command_hint_go"@ {
        1
    } else if reason == "command_hint_node"@ {
        2
    } else if reason == "command_hint_python"@ {
        3
    } else if reason == "workspace_cargo_toml"@ {
        4
    } else if reason == "workspace_go_mod"@ {
        5
    } else if reason == "workspace_node_manifest"@ {
        6
    } else if reason == "workspace_python_manifest"@ {
        7
    } else if reason == "fallback"@ {
        8
    } else {
        9
    }
}

proof fn reasons_differ()
    ensures
        reason_number("command_hint_rust"@) == 0,
        reason_number("command_hint_go"@) == 1,
        reason_number("command_hint_node"@) == 2,
        reason_number("command_hint_python"@) == 3,
        reason_number("workspace_cargo_toml"@) == 4,
        reason_number("workspace_go_mod"@) == 5,
        reason_number("workspace_node_manifest"@) == 6,
        reason_number("workspace_python_manifest"@) == 7,
        reason_number("fallback"@) == 8,
        reason_number("explicit"@) == 9,
{
    reveal_strlit("command_hint_rust");
    reveal_strlit("command_hint_go");
    reveal_strlit("command_hint_node");
    reveal_strlit("command_hint_python");
    reveal_strlit("workspace_cargo_toml");
    reveal_strlit("workspace_go_mod");
    reveal_strlit("workspace_node_manifest");
    reveal_strlit("workspace_python_manifest");
    reveal_strlit("fallback");
    reveal_strlit("explicit");
    assert("command_hint_rust"@.len() == 17);
    assert("command_hint_go"@.len() == 15);
    assert("command_hint_node"@.len() == 17);
    assert("command_hint_python"@.len() == 19);
    assert("workspace_cargo_toml"@.len() == 20);
    assert("workspace_go_mod"@.len() == 16);
    assert("workspace_node_manifest"@.len() == 23);
    assert("workspace_python_manifest"@.len() == 25);
    assert("fallback"@.len() == 8);
    assert("explicit"@.len() == 8);
    assert("command_hint_rust"@[13] == 'r');
    assert("command_hint_node"@[13] == 'n');
    assert("fallback"@[0] == 'f');
    assert("explicit"@[0] == 'e');
}

/// The automatic choice is always one of the default templates.
pub proof fn automatic_templates_exist(arg: Seq<char>, files: Seq<Seq<char>>, command: Seq<char>)
    requires
        lowercase(arg) == lowercase("auto"@),
    ensures
        crate::template::default_templates().contains_key(resolution(arg, files, command).0),
{
}

} // verus!
