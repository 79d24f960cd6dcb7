//! What a sandbox may reach on the network, and whether the backend sees to it.

use crate::config::{parsed_list, Allowlist, EntryModel, NetworkMode, NetworkModel};
use crate::text::{
    cat2, cat3, cat5, clone_opt, clone_texts, cut_once, less, lowercase, opt_view, precedes,
    precedes_is_total, precedes_is_transitive, same, split_once, to_lowercase, views,
};
use vstd::prelude::*;

verus! {

/// The network that a flag asks for.
#[derive(Debug, Clone, Copy, PartialEq, Eq, Structural)]
pub enum NetworkArg {
    NoNetwork,
    Full,
    Allowlist,
}

impl NetworkArg {
    pub fn to_mode(self, allow: Allowlist) -> (r: NetworkMode)
        ensures
            r == (match self {
                NetworkArg::NoNetwork => NetworkMode::NoNetwork,
                NetworkArg::Full => NetworkMode::Full,
                NetworkArg::Allowlist => NetworkMode::Allowlist(allow),
            }),
    {
        match self {
            NetworkArg::NoNetwork => NetworkMode::NoNetwork,
            NetworkArg::Full => NetworkMode::Full,
            NetworkArg::Allowlist => NetworkMode::Allowlist(allow),
        }
    }
}

/// A profile that is always there.
#[derive(Debug, Clone, Copy, PartialEq, Eq, Structural)]
pub enum ProfileArg {
    Locked,
    Web,
    Full,
}

/// The profile of a name that is always there.
pub open spec fn builtin_profile(raw: Seq<char>) -> Option<ProfileArg> {
    let name = lowercase(raw);
    if name == "locked"@ {
        Some(ProfileArg::Locked)
    } else if name == "web"@ {
        Some(ProfileArg::Web)
    } else if name == "full"@ {
        Some(ProfileArg::Full)
    } else {
        None
    }
}

impl ProfileArg {
    pub fn parse_builtin(raw: &str) -> (r: Option<Self>)
        ensures
            r == builtin_profile(raw@),
    {
        let name = to_lowercase(raw);
        if same(name.as_str(), "locked") {
            Some(ProfileArg::Locked)
        } else if same(name.as_str(), "web") {
            Some(ProfileArg::Web)
        } else if same(name.as_str(), "full") {
            Some(ProfileArg::Full)
        } else {
            None
        }
    }
}

/// A profile of the profile file.
#[derive(Debug, Clone, PartialEq, Eq)]
pub struct ProfileDefinition {
    pub network: String,
    pub allow: Vec<String>,
}

/// The profile file: where it was read from, and its profiles by name.
#[derive(Debug, Clone, PartialEq, Eq)]
pub struct ProfileConfigFile {
    pub path: String,
    pub profiles: Vec<(String, ProfileDefinition)>,
}

/// The network and profile that a command works with.
#[derive(Debug)]
pub struct ResolvedNetworkPolicy {
    pub network_mode: NetworkMode,
    pub profile_label: Option<String>,
}

/// The first profile of a name.
pub open spec fn profile_at(list: Seq<(String, ProfileDefinition)>, name: Seq<char>) -> int
    decreases list.len(),
{
    if list.len() == 0 || list[0].0@ == name {
        0
    } else {
        1 + profile_at(list.subrange(1, list.len() as int), name)
    }
}

/// What a profile of the file says about the network.
pub open spec fn file_profile(file: ProfileConfigFile, name: Seq<char>) -> Result<
    NetworkModel,
    Seq<char>,
> {
    let k = profile_at(file.profiles@, name);
    if k >= file.profiles@.len() {
        Err("profile `"@ + name + "` not found in `"@ + file.path@ + "`"@)
    } else {
        let p = file.profiles@[k].1;
        let word = lowercase(p.network@);
        if word == "allowlist"@ {
            match parsed_list(views(p.allow@)) {
                Ok(list) => Ok(NetworkModel::Allowlist(list)),
                Err(m) => Err("invalid allowlist: "@ + m),
            }
        } else if word != "none"@ && word != "full"@ {
            Err(
                "profile `"@ + name + "` has invalid network `"@ + word
                    + "`; expected one of: none, allowlist, full"@,
            )
        } else if p.allow@.len() > 0 {
            Err(
                "profile `"@ + name
                    + "` defines `allow` entries but network is not allowlist"@,
            )
        } else if word == "none"@ {
            Ok(NetworkModel::NoNetwork)
        } else {
            Ok(NetworkModel::Full)
        }
    }
}

/// What a profile says about the network: one that is always there, or one of the file.
pub open spec fn profile_network(name: Seq<char>, file: Option<ProfileConfigFile>) -> Result<
    NetworkModel,
    Seq<char>,
> {
    match builtin_profile(name) {
        Some(ProfileArg::Locked) => Ok(NetworkModel::NoNetwork),
        Some(ProfileArg::Web) => Ok(NetworkModel::Allowlist(Seq::<EntryModel>::empty())),
        Some(ProfileArg::Full) => Ok(NetworkModel::Full),
        None => match file {
            Some(f) => file_profile(f, name),
            None => Err(Seq::<char>::empty()),
        },
    }
}

/// The network after a flag has overridden the profile's: an allowlist of the profile stays.
pub open spec fn overridden(base: NetworkModel, arg: Option<NetworkArg>) -> NetworkModel {
    match arg {
        None => base,
        Some(NetworkArg::NoNetwork) => NetworkModel::NoNetwork,
        Some(NetworkArg::Full) => NetworkModel::Full,
        Some(NetworkArg::Allowlist) => match base {
            NetworkModel::Allowlist(list) => NetworkModel::Allowlist(list),
            _ => NetworkModel::Allowlist(Seq::<EntryModel>::empty()),
        },
    }
}

/// The network after the entries of `--allow`: they take the place of the profile's.
pub open spec fn with_allow(base: NetworkModel, allow: Seq<Seq<char>>) -> Result<
    NetworkModel,
    Seq<char>,
> {
    if allow.len() == 0 {
        Ok(base)
    } else {
        match base {
            NetworkModel::Allowlist(_) => match parsed_list(allow) {
                Ok(list) => Ok(NetworkModel::Allowlist(list)),
                Err(m) => Err("invalid allowlist: "@ + m),
            },
            _ => Err(
                "--allow requires allowlist network (set --network allowlist or use an allowlist profile)"@,
            ),
        }
    }
}

/// The network that the flags of a command come to.
pub open spec fn network_policy(
    profile: Option<Seq<char>>,
    arg: Option<NetworkArg>,
    allow: Seq<Seq<char>>,
    file: Option<ProfileConfigFile>,
) -> Result<NetworkModel, Seq<char>> {
    let base = match profile {
        Some(name) => profile_network(name, file),
        None => Ok(NetworkModel::NoNetwork),
    };
    match base {
        Err(m) => Err(m),
        Ok(b) => match with_allow(overridden(b, arg), allow) {
            Err(m) => Err(m),
            Ok(NetworkModel::Allowlist(list)) => if list.len() == 0 {
                Err(
                    "allowlist mode requires at least one domain (via --allow or profile default allowlist)"@,
                )
            } else {
                Ok(NetworkModel::Allowlist(list))
            },
            Ok(n) => Ok(n),
        },
    }
}

pub open spec fn opt_str_view(s: Option<&str>) -> Option<Seq<char>> {
    match s {
        Some(t) => Some(t@),
        None => None,
    }
}

pub open spec fn opt_file(f: Option<&ProfileConfigFile>) -> Option<ProfileConfigFile> {
    match f {
        Some(f) => Some(*f),
        None => None,
    }
}

/// Whether a profile has to be looked up in the profile file.
pub fn needs_profile_file(profile: Option<&str>) -> (r: bool)
    ensures
        r == (profile matches Some(name) && builtin_profile(name@) is None),
{
    match profile {
        Some(name) => ProfileArg::parse_builtin(name).is_none(),
        None => false,
    }
}

fn find_profile(list: &Vec<(String, ProfileDefinition)>, name: &str) -> (r: usize)
    ensures
        r == profile_at(list@, name@),
        r <= list.len(),
{
    let mut i: usize = 0;
    assert(list@.subrange(0, list@.len() as int) =~= list@);
    while i < list.len() && !same(list[i].0.as_str(), name)
        invariant
            i <= list.len(),
            profile_at(list@, name@) == i + profile_at(
                list@.subrange(i as int, list@.len() as int),
                name@,
            ),
        decreases list.len() - i,
    {
        assert(list@.subrange(i as int, list@.len() as int).subrange(
            1,
            list@.len() - i,
        ) =~= list@.subrange(i + 1, list@.len() as int));
        i = i + 1;
    }
    i
}

fn parse_allow(allow: &Vec<String>) -> (r: Result<NetworkMode, String>)
    ensures
        match parsed_list(views(allow@)) {
            Ok(list) => r matches Ok(n) && n@ == NetworkModel::Allowlist(list),
            Err(m) => r matches Err(e) && e@ == "invalid allowlist: "@ + m,
        },
{
    match Allowlist::parse(allow.as_slice()) {
        Ok(list) => Ok(NetworkMode::Allowlist(list)),
        Err(m) => Err(cat2("invalid allowlist: ", m.as_str())),
    }
}

fn profile_from_file(file: &ProfileConfigFile, name: &str) -> (r: Result<NetworkMode, String>)
    ensures
        match file_profile(*file, name@) {
            Ok(n) => r matches Ok(m) && m@ == n,
            Err(m) => r matches Err(e) && e@ == m,
        },
{
    let k: usize = find_profile(&file.profiles, name);
    if k >= file.profiles.len() {
        return Err(cat5("profile `", name, "` not found in `", file.path.as_str(), "`"));
    }
    let p = &file.profiles[k].1;
    let word = to_lowercase(p.network.as_str());
    let is_none = same(word.as_str(), "none");
    let is_full = same(word.as_str(), "full");
    if same(word.as_str(), "allowlist") {
        return parse_allow(&p.allow);
    }
    if !is_none && !is_full {
        return Err(
            cat5(
                "profile `",
                name,
                "` has invalid network `",
                word.as_str(),
                "`; expected one of: none, allowlist, full",
            ),
        );
    }
    if p.allow.len() > 0 {
        return Err(
            cat3("profile `", name, "` defines `allow` entries but network is not allowlist"),
        );
    }
    if is_none {
        Ok(NetworkMode::NoNetwork)
    } else {
        Ok(NetworkMode::Full)
    }
}

pub fn resolve_profile_network_defaults(
    profile_name: &str,
    profile_file: Option<&ProfileConfigFile>,
) -> (r: Result<NetworkMode, String>)
    requires
        builtin_profile(profile_name@) is None ==> profile_file is Some,
    ensures
        match profile_network(profile_name@, opt_file(profile_file)) {
            Ok(n) => r matches Ok(m) && m@ == n,
            Err(m) => r matches Err(e) && e@ == m,
        },
{
    match ProfileArg::parse_builtin(profile_name) {
        Some(ProfileArg::Locked) => Ok(NetworkMode::NoNetwork),
        Some(ProfileArg::Web) => Ok(NetworkMode::Allowlist(Allowlist::empty())),
        Some(ProfileArg::Full) => Ok(NetworkMode::Full),
        None => match profile_file {
            Some(file) => profile_from_file(file, profile_name),
            None => Err(String::new()),
        },
    }
}

/// The network and profile that the flags of a command come to. The profile file is needed
/// where the profile is none of those that are always there.
pub fn resolve_network_policy(
    profile: Option<&str>,
    network: Option<NetworkArg>,
    allow: Vec<String>,
    profile_file: Option<&ProfileConfigFile>,
) -> (r: Result<ResolvedNetworkPolicy, String>)
    requires
        profile matches Some(name) ==> builtin_profile(name@) is None ==> profile_file is Some,
    ensures
        match network_policy(opt_str_view(profile), network, views(allow@), opt_file(profile_file)) {
            Ok(n) => r matches Ok(p) && p.network_mode@ == n && opt_view(p.profile_label)
                == opt_str_view(profile),
            Err(m) => r matches Err(e) && e@ == m,
        },
{
    let base = match profile {
        Some(name) => match resolve_profile_network_defaults(name, profile_file) {
            Ok(n) => n,
            Err(m) => {
                return Err(m);
            },
        },
        None => NetworkMode::NoNetwork,
    };
    let chosen = match network {
        None => base,
        Some(NetworkArg::NoNetwork) => NetworkMode::NoNetwork,
        Some(NetworkArg::Full) => NetworkMode::Full,
        Some(NetworkArg::Allowlist) => match base {
            NetworkMode::Allowlist(list) => NetworkMode::Allowlist(list),
            _ => NetworkMode::Allowlist(Allowlist::empty()),
        },
    };
    let network_mode = if allow.len() == 0 {
        chosen
    } else {
        match chosen {
            NetworkMode::Allowlist(_) => match parse_allow(&allow) {
                Ok(n) => n,
                Err(m) => {
                    return Err(m);
                },
            },
            _ => {
                return Err(
                    "--allow requires allowlist network (set --network allowlist or use an allowlist profile)".to_owned(),
                );
            },
        }
    };
    if let NetworkMode::Allowlist(list) = &network_mode {
        if list.is_empty() {
            return Err(
                "allowlist mode requires at least one domain (via --allow or profile default allowlist)".to_owned(),
            );
        }
    }
    let profile_label = match profile {
        Some(name) => Some(name.to_owned()),
        None => None,
    };
    Ok(ResolvedNetworkPolicy { network_mode, profile_label })
}

/// Without flags nothing can be reached, and no allowlist is ever empty.
pub proof fn network_is_locked_by_default(
    profile: Option<Seq<char>>,
    arg: Option<NetworkArg>,
    allow: Seq<Seq<char>>,
    file: Option<ProfileConfigFile>,
)
    ensures
        profile is None && arg is None && allow.len() == 0 ==> network_policy(
            profile,
            arg,
            allow,
            file,
        ) == Ok::<NetworkModel, Seq<char>>(NetworkModel::NoNetwork),
        network_policy(profile, arg, allow, file) matches Ok(NetworkModel::Allowlist(list))
            ==> list.len() > 0,
        arg is None && profile is None && allow.len() > 0 ==> network_policy(
            profile,
            arg,
            allow,
            file,
        ) is Err,
{
}

/// The names that are always there stand for their networks, in any case of their letters and
/// whatever the profile file holds: `full` for the full network, `locked` for none, and `web` for
/// an allowlist that has to be given.
pub proof fn builtin_profiles_mean_their_networks(
    name: Seq<char>,
    allow: Seq<Seq<char>>,
    file: Option<ProfileConfigFile>,
)
    ensures
        lowercase(name) == "full"@ ==> network_policy(Some(name), None, Seq::empty(), file) == Ok::<
            NetworkModel,
            Seq<char>,
        >(NetworkModel::Full),
        lowercase(name) == "locked"@ ==> network_policy(Some(name), None, Seq::empty(), file)
            == Ok::<NetworkModel, Seq<char>>(NetworkModel::NoNetwork),
        lowercase(name) == "web"@ ==> network_policy(Some(name), None, Seq::empty(), file) is Err,
        lowercase(name) == "web"@ && allow.len() > 0 ==> match parsed_list(allow) {
            Ok(list) => list.len() > 0 ==> network_policy(Some(name), None, allow, file) == Ok::<
                NetworkModel,
                Seq<char>,
            >(NetworkModel::Allowlist(list)),
            Err(_) => network_policy(Some(name), None, allow, file) is Err,
        },
        (lowercase(name) == "full"@ || lowercase(name) == "locked"@) && allow.len() > 0
            ==> network_policy(Some(name), None, allow, file) is Err,
{
    reveal_strlit("full");
    reveal_strlit("locked");
    reveal_strlit("web");
    assert("full"@.len() == 4 && "locked"@.len() == 6 && "web"@.len() == 3);
}

/// A flag for the network decides over every profile: the full network is the full one, none is
/// none, and an allowlist holds the entries that are given, or else those of the profile. What is
/// wrong with a profile is still an error.
pub proof fn network_flags_decide(
    profile: Option<Seq<char>>,
    allow: Seq<Seq<char>>,
    file: Option<ProfileConfigFile>,
)
    ensures
        ({
            let alone = network_policy(profile, Some(NetworkArg::Full), Seq::empty(), file);
            let fine = match profile {
                None => true,
                Some(name) => profile_network(name, file) is Ok,
            };
            &&& alone is Ok <==> fine
            &&& alone matches Ok(n) ==> n is Full
            &&& network_policy(profile, Some(NetworkArg::NoNetwork), Seq::empty(), file) is Ok
                <==> fine
            &&& network_policy(profile, Some(NetworkArg::NoNetwork), Seq::empty(), file)
                matches Ok(n) ==> n is NoNetwork
            &&& allow.len() > 0 ==> network_policy(
                profile,
                Some(NetworkArg::Full),
                allow,
                file,
            ) is Err
            &&& allow.len() > 0 ==> network_policy(
                profile,
                Some(NetworkArg::NoNetwork),
                allow,
                file,
            ) is Err
            &&& fine && allow.len() > 0 ==> (parsed_list(allow) matches Ok(list) ==> list.len() > 0
                ==> network_policy(profile, Some(NetworkArg::Allowlist), allow, file) == Ok::<
                NetworkModel,
                Seq<char>,
            >(NetworkModel::Allowlist(list)))
            &&& network_policy(profile, Some(NetworkArg::Allowlist), allow, file) matches Ok(n)
                ==> n is Allowlist
        }),
{
}

/// A profile of the profile file stands for the network that its definition names, the first of
/// its name being the one that counts; entries are for an allowlist only.
pub proof fn file_profiles_mean_their_networks(file: ProfileConfigFile, name: Seq<char>, k: int)
    requires
        lowercase(name) != "full"@,
        lowercase(name) != "locked"@,
        lowercase(name) != "web"@,
        0 <= k < file.profiles@.len(),
        file.profiles@[k].0@ == name,
        forall|i: int| 0 <= i < k ==> (#[trigger] file.profiles@[i]).0@ != name,
    ensures
        ({
            let p = file.profiles@[k].1;
            let word = lowercase(p.network@);
            let found = network_policy(Some(name), None, Seq::empty(), Some(file));
            &&& word == "full"@ && p.allow@.len() == 0 ==> found == Ok::<NetworkModel, Seq<char>>(
                NetworkModel::Full,
            )
            &&& word == "none"@ && p.allow@.len() == 0 ==> found == Ok::<NetworkModel, Seq<char>>(
                NetworkModel::NoNetwork,
            )
            &&& word == "allowlist"@ ==> (parsed_list(views(p.allow@)) matches Ok(list)
                ==> list.len() > 0 ==> found == Ok::<NetworkModel, Seq<char>>(
                NetworkModel::Allowlist(list),
            ))
            &&& word != "allowlist"@ && p.allow@.len() > 0 ==> found is Err
            &&& word != "allowlist"@ && word != "full"@ && word != "none"@ ==> found is Err
        }),
{
    profile_is_at(file.profiles@, name, k);
    reveal_strlit("full");
    reveal_strlit("none");
    reveal_strlit("allowlist");
    assert("full"@[0] == 'f' && "none"@[0] == 'n' && "allowlist"@[0] == 'a');
}

proof fn profile_is_at(list: Seq<(String, ProfileDefinition)>, name: Seq<char>, k: int)
    requires
        0 <= k < list.len(),
        list[k].0@ == name,
        forall|i: int| 0 <= i < k ==> (#[trigger] list[i]).0@ != name,
    ensures
        profile_at(list, name) == k,
    decreases k,
{
    if k > 0 {
        let rest = list.subrange(1, list.len() as int);
        assert(list[0].0@ != name);
        assert forall|i: int| 0 <= i < k - 1 implies (#[trigger] rest[i]).0@ != name by {
            assert(rest[i] == list[i + 1]);
        }
        profile_is_at(rest, name, k - 1);
    }
}

/// A profile that the file does not hold is an error.
pub proof fn unknown_profiles_are_refused(file: ProfileConfigFile, name: Seq<char>)
    requires
        lowercase(name) != "full"@,
        lowercase(name) != "locked"@,
        lowercase(name) != "web"@,
        forall|i: int|
            0 <= i < file.profiles@.len() ==> (#[trigger] file.profiles@[i]).0@ != name,
    ensures
        network_policy(Some(name), None, Seq::empty(), Some(file)) is Err,
{
    profile_is_missing(file.profiles@, name);
}

proof fn profile_is_missing(list: Seq<(String, ProfileDefinition)>, name: Seq<char>)
    requires
        forall|i: int| 0 <= i < list.len() ==> (#[trigger] list[i]).0@ != name,
    ensures
        profile_at(list, name) >= list.len(),
    decreases list.len(),
{
    if list.len() > 0 {
        let rest = list.subrange(1, list.len() as int);
        assert(list[0].0@ != name);
        assert forall|i: int| 0 <= i < rest.len() implies (#[trigger] rest[i]).0@ != name by {
            assert(rest[i] == list[i + 1]);
        }
        profile_is_missing(rest, name);
    }
}

/// What a client knows of its server.
#[derive(Debug, Clone, PartialEq, Eq)]
pub struct ServerInfo {
    pub server_version: String,
    pub process_id: String,
    pub executable_path: String,
    pub started_at: String,
    pub backend_requested: String,
    pub backend_selected: String,
    pub backend_reason: String,
    pub apple_runtime: Option<String>,
    pub apple_helper_argv: Vec<String>,
}

/// How the isolation of a sandbox comes out.
#[derive(Debug, Clone, PartialEq, Eq)]
pub struct EffectiveIsolationSummary {
    pub backend: String,
    pub isolation_class: String,
    pub profile: String,
    pub network_mode: String,
    pub network_enforcement: String,
    pub network_reason: Option<String>,
    pub writable_paths: Vec<String>,
    pub timeout_secs: u64,
}

/// Why the backend is the one that it is.
#[derive(Debug, Clone, PartialEq, Eq)]
pub struct ExplainDetails {
    pub backend_requested: String,
    pub backend_selected: String,
    pub backend_reason: String,
    pub apple_runtime: Option<String>,
    pub apple_helper_argv: Vec<String>,
}

pub fn build_explain_details(server_info: &ServerInfo) -> (r: ExplainDetails)
    ensures
        r.backend_requested@ == server_info.backend_requested@,
        r.backend_selected@ == server_info.backend_selected@,
        r.backend_reason@ == server_info.backend_reason@,
        opt_view(r.apple_runtime) == opt_view(server_info.apple_runtime),
        views(r.apple_helper_argv@) == views(server_info.apple_helper_argv@),
{
    ExplainDetails {
        backend_requested: server_info.backend_requested.clone(),
        backend_selected: server_info.backend_selected.clone(),
        backend_reason: server_info.backend_reason.clone(),
        apple_runtime: clone_opt(&server_info.apple_runtime),
        apple_helper_argv: clone_texts(&server_info.apple_helper_argv),
    }
}

/// The arguments are those of the helper that comes with the program.
pub open spec fn builtin_helper(argv: Seq<Seq<char>>) -> bool {
    argv.len() >= 2 && argv[1] == "apple-helper"@
}

pub fn helper_argv_is_builtin_apple_helper(argv: &[String]) -> (r: bool)
    ensures
        r == builtin_helper(views(argv@)),
{
    argv.len() >= 2 && same(argv[1].as_str(), "apple-helper")
}

/// The argument that follows the first `--container-bin`, where there is one.
pub open spec fn container_bin_in(argv: Seq<Seq<char>>) -> Option<Seq<char>>
    decreases argv.len(),
{
    if argv.len() == 0 {
        None
    } else if argv[0] == "--container-bin"@ {
        if argv.len() > 1 {
            Some(argv[1])
        } else {
            None
        }
    } else {
        container_bin_in(argv.subrange(1, argv.len() as int))
    }
}

pub fn extract_container_bin_from_helper_argv(argv: &[String]) -> (r: Option<String>)
    ensures
        opt_view(r) == container_bin_in(views(argv@)),
{
    let ghost all = views(argv@);
    let mut idx: usize = 0;
    assert(all.subrange(0, all.len() as int) =~= all);
    while idx < argv.len()
        invariant
            idx <= argv.len(),
            all == views(argv@),
            container_bin_in(all) == container_bin_in(all.subrange(idx as int, all.len() as int)),
        decreases argv.len() - idx,
    {
        let ghost rest = all.subrange(idx as int, all.len() as int);
        assert(rest[0] == argv@[idx as int]@);
        if same(argv[idx].as_str(), "--container-bin") {
            if idx + 1 < argv.len() {
                assert(rest[1] == argv@[idx + 1]@);
                return Some(argv[idx + 1].clone());
            }
            return None;
        }
        assert(rest.subrange(1, rest.len() as int) =~= all.subrange(idx + 1, all.len() as int));
        idx = idx + 1;
    }
    None
}

/// What a backend makes of an allowlist on Apple hosts, and why.
pub open spec fn apple_allowlist_status(server: ServerInfo) -> (Seq<char>, Option<Seq<char>>) {
    let argv = views(server.apple_helper_argv@);
    let runtime = opt_view(server.apple_runtime);
    if builtin_helper(argv) && runtime == Some("containerization"@) {
        ("enforced"@, Some("enforced by built-in apple helper allowlist runtime"@))
    } else if runtime == Some("virtualization"@) && !builtin_helper(argv) {
        ("enforced"@, Some("enforced by external apple helper virtualization runtime"@))
    } else if argv.len() > 0 {
        ("enforced"@, Some("enforced by helper-managed apple runtime"@))
    } else {
        (
            "unsupported"@,
            Some(
                "allowlist requires helper-managed apple runtime; direct container mode supports none/full only"@,
            ),
        )
    }
}

/// Whether the network of a sandbox is seen to, and why.
pub open spec fn enforcement(server: Option<ServerInfo>, network: Option<NetworkModel>) -> (
    Seq<char>,
    Option<Seq<char>>,
) {
    match (network, server) {
        (None, _) => ("unknown"@, Some("network mode unavailable"@)),
        (_, None) => ("unknown"@, Some("server info unavailable"@)),
        (Some(n), Some(s)) => if s.backend_selected@ == "firecracker"@ {
            ("enforced"@, None)
        } else if s.backend_selected@ == "local"@ {
            (
                "not_enforced"@,
                Some(
                    "local backend is non-isolated dev mode; use auto/apple/firecracker for policy enforcement"@,
                ),
            )
        } else if s.backend_selected@ == "apple"@ {
            match n {
                NetworkModel::Allowlist(_) => apple_allowlist_status(s),
                _ => ("enforced"@, None),
            }
        } else {
            ("unknown"@, Some("unknown backend/network enforcement"@))
        },
    }
}

pub open spec fn opt_server(s: Option<&ServerInfo>) -> Option<ServerInfo> {
    match s {
        Some(s) => Some(*s),
        None => None,
    }
}

pub open spec fn opt_network(n: Option<&NetworkMode>) -> Option<NetworkModel> {
    match n {
        Some(n) => Some(n@),
        None => None,
    }
}

fn because(status: &str, reason: &str) -> (r: (String, Option<String>))
    ensures
        r.0@ == status@,
        opt_view(r.1) == Some(reason@),
{
    (status.to_owned(), Some(reason.to_owned()))
}

fn opt_is(s: &Option<String>, word: &str) -> (r: bool)
    ensures
        r == (opt_view(*s) == Some(word@)),
{
    match s {
        Some(t) => same(t.as_str(), word),
        None => false,
    }
}

pub fn network_enforcement_status(
    server_info: Option<&ServerInfo>,
    network: Option<&NetworkMode>,
) -> (r: (String, Option<String>))
    ensures
        (r.0@, opt_view(r.1)) == enforcement(opt_server(server_info), opt_network(network)),
{
    let network = match network {
        Some(n) => n,
        None => {
            return because("unknown", "network mode unavailable");
        },
    };
    let info = match server_info {
        Some(s) => s,
        None => {
            return because("unknown", "server info unavailable");
        },
    };
    let backend = info.backend_selected.as_str();
    if same(backend, "firecracker") {
        return ("enforced".to_owned(), None);
    }
    if same(backend, "local") {
        return because(
            "not_enforced",
            "local backend is non-isolated dev mode; use auto/apple/firecracker for policy enforcement",
        );
    }
    if !same(backend, "apple") {
        return because("unknown", "unknown backend/network enforcement");
    }
    match network {
        NetworkMode::Allowlist(_) => {
            let builtin = helper_argv_is_builtin_apple_helper(info.apple_helper_argv.as_slice());
            if builtin && opt_is(&info.apple_runtime, "containerization") {
                because("enforced", "enforced by built-in apple helper allowlist runtime")
            } else if opt_is(&info.apple_runtime, "virtualization") && !builtin {
                because("enforced", "enforced by external apple helper virtualization runtime")
            } else if info.apple_helper_argv.len() > 0 {
                because("enforced", "enforced by helper-managed apple runtime")
            } else {
                because(
                    "unsupported",
                    "allowlist requires helper-managed apple runtime; direct container mode supports none/full only",
                )
            }
        },
        NetworkMode::NoNetwork => ("enforced".to_owned(), None),
        NetworkMode::Full => ("enforced".to_owned(), None),
    }
}

pub fn ensure_network_mode_supported(
    server_info: Option<&ServerInfo>,
    network: &NetworkMode,
) -> (r: Result<(), String>)
    ensures
        ({
            let e = enforcement(opt_server(server_info), Some(network@));
            if e.0 == "unsupported"@ {
                match e.1 {
                    Some(reason) => r matches Err(m) && m@ == reason,
                    None => r matches Err(m) && m@
                        == "requested network mode is unsupported by active backend"@,
                }
            } else {
                r is Ok
            }
        }),
{
    let (status, reason) = network_enforcement_status(server_info, Some(network));
    if same(status.as_str(), "unsupported") {
        return match reason {
            Some(reason) => Err(reason),
            None => Err("requested network mode is unsupported by active backend".to_owned()),
        };
    }
    Ok(())
}

/// A combination that no backend sees to is refused: an allowlist where sandboxes run directly
/// in containers. Everything else is let through.
pub proof fn unsupported_networks_are_refused(server: ServerInfo, network: NetworkModel)
    ensures
        (enforcement(Some(server), Some(network)).0 == "unsupported"@) == (
        server.backend_selected@ == "apple"@ && network is Allowlist && views(
            server.apple_helper_argv@,
        ).len() == 0 && opt_view(server.apple_runtime) != Some("virtualization"@)),
{
    reveal_strlit("unsupported");
    reveal_strlit("enforced");
    reveal_strlit("not_enforced");
    reveal_strlit("unknown");
    reveal_strlit("apple");
    reveal_strlit("local");
    reveal_strlit("firecracker");
    reveal_strlit("containerization");
    reveal_strlit("virtualization");
    assert("unsupported"@.len() == 11);
    assert("enforced"@.len() == 8);
    assert("not_enforced"@.len() == 12);
    assert("unknown"@.len() == 7);
    assert("apple"@.len() == 5);
    assert("local"@[0] == 'l');
    assert("apple"@[0] == 'a');
    assert("firecracker"@.len() == 11);
}

pub open spec fn backend_name(server: Option<ServerInfo>) -> Seq<char> {
    match server {
        Some(s) => s.backend_selected@,
        None => "unknown"@,
    }
}

pub open spec fn isolation_class_of(backend: Seq<char>) -> Seq<char> {
    if backend == "firecracker"@ || backend == "apple"@ {
        "vm"@
    } else if backend == "local"@ {
        "host"@
    } else {
        "unknown"@
    }
}

pub open spec fn network_word(network: Option<NetworkModel>) -> Seq<char> {
    match network {
        Some(NetworkModel::NoNetwork) => "none"@,
        Some(NetworkModel::Full) => "full"@,
        Some(NetworkModel::Allowlist(_)) => "allowlist"@,
        None => "unknown"@,
    }
}

pub open spec fn profile_word(profile: Option<Seq<char>>, network: Option<NetworkModel>) -> Seq<
    char,
> {
    match profile {
        Some(p) => p,
        None => match network {
            Some(NetworkModel::NoNetwork) => "locked"@,
            Some(NetworkModel::Allowlist(_)) => "web"@,
            Some(NetworkModel::Full) => "full"@,
            None => "unknown"@,
        },
    }
}

pub fn build_effective_isolation_summary(
    server_info: Option<&ServerInfo>,
    network: Option<&NetworkMode>,
    profile: Option<&str>,
    writable_paths: Vec<String>,
    timeout_secs: u64,
) -> (r: EffectiveIsolationSummary)
    ensures
        r.backend@ == backend_name(opt_server(server_info)),
        r.isolation_class@ == isolation_class_of(r.backend@),
        r.profile@ == profile_word(opt_str_view(profile), opt_network(network)),
        r.network_mode@ == network_word(opt_network(network)),
        (r.network_enforcement@, opt_view(r.network_reason)) == enforcement(
            opt_server(server_info),
            opt_network(network),
        ),
        r.writable_paths == writable_paths,
        r.timeout_secs == timeout_secs,
{
    let backend = match server_info {
        Some(info) => info.backend_selected.clone(),
        None => "unknown".to_owned(),
    };
    let b = backend.as_str();
    let isolation_class = if same(b, "firecracker") || same(b, "apple") {
        "vm".to_owned()
    } else if same(b, "local") {
        "host".to_owned()
    } else {
        "unknown".to_owned()
    };
    let (network_mode, derived) = match network {
        Some(NetworkMode::NoNetwork) => ("none".to_owned(), "locked".to_owned()),
        Some(NetworkMode::Full) => ("full".to_owned(), "full".to_owned()),
        Some(NetworkMode::Allowlist(_)) => ("allowlist".to_owned(), "web".to_owned()),
        None => ("unknown".to_owned(), "unknown".to_owned()),
    };
    let profile = match profile {
        Some(p) => p.to_owned(),
        None => derived,
    };
    let (network_enforcement, network_reason) = network_enforcement_status(server_info, network);
    EffectiveIsolationSummary {
        backend,
        isolation_class,
        profile,
        network_mode,
        network_enforcement,
        network_reason,
        writable_paths,
        timeout_secs,
    }
}

/// A path that a `PATH=CONTENT` flag writes to.
pub open spec fn writes_to(writes: Seq<Seq<char>>, path: Seq<char>) -> bool {
    exists|i: int|
        0 <= i < writes.len() && (cut_once(#[trigger] writes[i], '=') matches Some(parts)
            && parts.0 == path)
}

/// Texts in rising order, none of them twice.
pub open spec fn strictly_rising(list: Seq<Seq<char>>) -> bool {
    forall|i: int, j: int|
        0 <= i < j < list.len() ==> precedes(#[trigger] list[i], #[trigger] list[j])
}

fn add_path(list: &mut Vec<String>, path: String)
    requires
        strictly_rising(views(old(list)@)),
    ensures
        strictly_rising(views(final(list)@)),
        forall|p: Seq<char>| #[trigger]
            views(final(list)@).contains(p) <==> views(old(list)@).contains(p) || p == path@,
{
    let ghost before = views(list@);
    let ghost new = path@;
    let mut at: usize = 0;
    while at < list.len() && less(list[at].as_str(), path.as_str())
        invariant
            before == views(list@),
            new == path@,
            at <= list.len(),
            forall|k: int| 0 <= k < at ==> precedes(#[trigger] before[k], new),
        decreases list.len() - at,
    {
        at = at + 1;
    }
    if at < list.len() && same(list[at].as_str(), path.as_str()) {
        assert(before[at as int] == new);
        return;
    }
    proof {
        if at < before.len() {
            precedes_is_total(before[at as int], new);
        }
        assert forall|k: int| at <= k < before.len() implies precedes(new, #[trigger] before[k]) by {
            if k > at {
                precedes_is_transitive(new, before[at as int], before[k]);
            }
        }
    }
    list.insert(at, path);
    proof {
        let after = views(list@);
        assert(after =~= before.insert(at as int, new));
        assert forall|i: int, j: int| 0 <= i < j < after.len() implies precedes(
            #[trigger] after[i],
            #[trigger] after[j],
        ) by {
            let x = if i < at {
                i
            } else {
                i - 1
            };
            let y = if j < at {
                j
            } else {
                j - 1
            };
            if i != at && j != at {
                assert(after[i] == before[x] && after[j] == before[y]);
            } else if i == at {
                assert(after[j] == before[y]);
            } else {
                assert(after[i] == before[x]);
            }
        }
        assert forall|p: Seq<char>| #[trigger] after.contains(p) <==> before.contains(p) || p
            == new by {
            if before.contains(p) {
                let k = choose|k: int| 0 <= k < before.len() && before[k] == p;
                let m = if k < at {
                    k
                } else {
                    k + 1
                };
                assert(after[m] == p);
            }
            if p == new {
                assert(after[at as int] == p);
            }
            if after.contains(p) {
                let m = choose|m: int| 0 <= m < after.len() && after[m] == p;
                if m != at {
                    let k = if m < at {
                        m
                    } else {
                        m - 1
                    };
                    assert(before[k] == p);
                }
            }
        }
    }
}

fn add_written(list: &mut Vec<String>, writes: &[String])
    requires
        strictly_rising(views(old(list)@)),
    ensures
        strictly_rising(views(final(list)@)),
        forall|p: Seq<char>| #[trigger]
            views(final(list)@).contains(p) <==> views(old(list)@).contains(p) || writes_to(
                views(writes@),
                p,
            ),
{
    let ghost first = views(list@);
    let ghost all = views(writes@);
    let mut i: usize = 0;
    while i < writes.len()
        invariant
            i <= writes.len(),
            all == views(writes@),
            strictly_rising(views(list@)),
            forall|p: Seq<char>| #[trigger]
                views(list@).contains(p) <==> first.contains(p) || writes_to(
                    all.take(i as int),
                    p,
                ),
        decreases writes.len() - i,
    {
        let ghost before = views(list@);
        if let Some((path, _)) = split_once(writes[i].as_str(), '=') {
            add_path(list, path);
        }
        proof {
            assert forall|p: Seq<char>| #[trigger]
                views(list@).contains(p) <==> first.contains(p) || writes_to(
                    all.take(i + 1),
                    p,
                ) by {
                if writes_to(all.take(i as int), p) {
                    let k = choose|k: int|
                        0 <= k < all.take(i as int).len() && (cut_once(
                            #[trigger] all.take(i as int)[k],
                            '=',
                        ) matches Some(parts) && parts.0 == p);
                    assert(all.take(i + 1)[k] == all.take(i as int)[k]);
                }
                if writes_to(all.take(i + 1), p) {
                    let k = choose|k: int|
                        0 <= k < all.take(i + 1).len() && (cut_once(
                            #[trigger] all.take(i + 1)[k],
                            '=',
                        ) matches Some(parts) && parts.0 == p);
                    if k < i {
                        assert(all.take(i as int)[k] == all.take(i + 1)[k]);
                    }
                }
                assert(before.contains(p) <==> first.contains(p) || writes_to(
                    all.take(i as int),
                    p,
                ));
                assert(all.take(i + 1)[i as int] == all[i as int]);
            }
        }
        i = i + 1;
    }
    assert(all.take(all.len() as int) =~= all);
}

/// The places that a new sandbox lets a command write to.
pub fn writable_scope_from_workspace_and_writes(workspace: Option<&str>, writes: &[String]) -> (r:
    Vec<String>)
    ensures
        strictly_rising(views(r@)),
        forall|p: Seq<char>| #[trigger]
            views(r@).contains(p) <==> p == (match workspace {
                Some(dir) => dir@,
                None => "<ephemeral sandbox workspace>"@,
            }) || writes_to(views(writes@), p),
{
    let mut writable: Vec<String> = Vec::new();
    let place = match workspace {
        Some(dir) => dir.to_owned(),
        None => "<ephemeral sandbox workspace>".to_owned(),
    };
    assert(views(writable@) =~= Seq::<Seq<char>>::empty());
    add_path(&mut writable, place);
    add_written(&mut writable, writes);
    writable
}

/// The places that an existing sandbox lets a command write to.
pub fn writable_scope_from_writes(writes: &[String], include_existing_workspace: bool) -> (r: Vec<
    String,
>)
    ensures
        strictly_rising(views(r@)),
        forall|p: Seq<char>| #[trigger]
            views(r@).contains(p) <==> (include_existing_workspace && p
                == "<existing sandbox workspace>"@) || writes_to(views(writes@), p),
{
    let mut writable: Vec<String> = Vec::new();
    assert(views(writable@) =~= Seq::<Seq<char>>::empty());
    if include_existing_workspace {
        add_path(&mut writable, "<existing sandbox workspace>".to_owned());
    }
    add_written(&mut writable, writes);
    writable
}

/// Whether a flag that makes sense only for a new sandbox stands beside one that names an
/// existing sandbox.
pub fn check_run_target(
    names_sandbox: bool,
    network: bool,
    profile: bool,
    workspace: bool,
    allow: bool,
    ephemeral: bool,
) -> (r: Result<(), String>)
    ensures
        r is Err <==> names_sandbox && (network || profile || workspace || allow || ephemeral),
        r matches Err(m) ==> m@
            == "--network/--allow/--profile/--workspace/--ephemeral apply only when creating a sandbox; remove --sandbox-id/--name"@,
{
    if names_sandbox && (network || profile || workspace || allow || ephemeral) {
        Err(
            "--network/--allow/--profile/--workspace/--ephemeral apply only when creating a sandbox; remove --sandbox-id/--name".to_owned(),
        )
    } else {
        Ok(())
    }
}

/// The same for the shell command.
pub fn check_shell_target(
    names_sandbox: bool,
    network: bool,
    profile: bool,
    workspace: bool,
    allow: bool,
) -> (r: Result<(), String>)
    ensures
        r is Err <==> names_sandbox && (network || profile || workspace || allow),
        r matches Err(m) ==> m@
            == "--network/--allow/--profile/--workspace apply only when creating an ephemeral shell; remove --sandbox-id/--name"@,
{
    if names_sandbox && (network || profile || workspace || allow) {
        Err(
            "--network/--allow/--profile/--workspace apply only when creating an ephemeral shell; remove --sandbox-id/--name".to_owned(),
        )
    } else {
        Ok(())
    }
}

/// Whether the network of a sandbox is seen to goes by the backend: a machine of its own sees to
/// every network, the host itself to none, and where nothing is known of the server or the network,
/// nothing is said.
pub proof fn backends_enforce_what_they_can(server: ServerInfo, network: NetworkModel)
    ensures
        ({
            let e = enforcement(Some(server), Some(network));
            &&& server.backend_selected@ == "firecracker"@ ==> e == ("enforced"@, None::<Seq<char>>)
            &&& server.backend_selected@ == "local"@ ==> e.0 == "not_enforced"@ && e.1 is Some
            &&& server.backend_selected@ == "apple"@ && !(network is Allowlist) ==> e == (
                "enforced"@,
                None::<Seq<char>>,
            )
            &&& server.backend_selected@ == "apple"@ && network is Allowlist && views(
                server.apple_helper_argv@,
            ).len() > 0 ==> e.0 == "enforced"@
            &&& server.backend_selected@ != "firecracker"@ && server.backend_selected@ != "local"@
                && server.backend_selected@ != "apple"@ ==> e.0 == "unknown"@
            &&& enforcement(None, Some(network)).0 == "unknown"@
            &&& enforcement(Some(server), None).0 == "unknown"@
        }),
{
    reveal_strlit("apple");
    reveal_strlit("local");
    reveal_strlit("firecracker");
    assert("apple"@[0] == 'a' && "local"@[0] == 'l' && "firecracker"@[0] == 'f');
}

/// The words of a summary tell networks apart, and say what they stand for; a profile that was not
/// named is called by the network. Only backends with machines of their own are of that class.
pub proof fn summaries_say_what_holds(
    network: Option<NetworkModel>,
    profile: Option<Seq<char>>,
    backend: Seq<char>,
)
    ensures
        network_word(network) == "none"@ <==> (network matches Some(n) && n is NoNetwork),
        network_word(network) == "full"@ <==> (network matches Some(n) && n is Full),
        network_word(network) == "allowlist"@ <==> (network matches Some(n) && n is Allowlist),
        network_word(network) == "unknown"@ <==> network is None,
        profile matches Some(p) ==> profile_word(profile, network) == p,
        profile is None ==> {
            &&& profile_word(profile, network) == "locked"@ <==> (network matches Some(n) && n
                is NoNetwork)
            &&& profile_word(profile, network) == "full"@ <==> (network matches Some(n) && n
                is Full)
            &&& profile_word(profile, network) == "web"@ <==> (network matches Some(n) && n
                is Allowlist)
        },
        isolation_class_of(backend) == "vm"@ <==> backend == "firecracker"@ || backend == "apple"@,
        isolation_class_of(backend) == "host"@ <==> backend == "local"@,
{
    reveal_strlit("none");
    reveal_strlit("full");
    reveal_strlit("allowlist");
    reveal_strlit("unknown");
    reveal_strlit("locked");
    reveal_strlit("web");
    reveal_strlit("vm");
    reveal_strlit("host");
    reveal_strlit("firecracker");
    reveal_strlit("apple");
    reveal_strlit("local");
    assert("none"@[0] == 'n' && "full"@[0] == 'f' && "allowlist"@[0] == 'a');
    assert("unknown"@[0] == 'u' && "locked"@[0] == 'l' && "web"@[0] == 'w');
    assert("vm"@[0] == 'v' && "host"@[0] == 'h');
    assert("firecracker"@[0] == 'f' && "apple"@[0] == 'a' && "local"@[0] == 'l');
}

} // verus!
