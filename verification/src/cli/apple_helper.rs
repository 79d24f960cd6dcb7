//! The helper program: it keeps sandboxes in containers and answers requests about them.

use crate::apple::container::{exit_report, report_exit, CommandResult};
use crate::codec::{
    json_text_at, json_text_found, lossy_text, step_views, utf8_lossy, JsonStep, JsonStepModel,
};
use crate::config::{normalize_allowlist_domains, parsed_list, patterns};
use crate::text::{
    alphanumeric, cat2, cat3, first_pieces_end_at_the_mark, is_alphanumeric, lowercase, opt_view,
    pieces, same, split, starts, starts_with, texts, to_lowercase, trim, trimmed, trimmed_keeps,
    views, white,
};
use vstd::prelude::*;

verus! {

#[derive(Debug, Clone, Copy, PartialEq, Eq, Structural)]
pub enum RuntimeKind {
    Containerization,
    Virtualization,
}

impl RuntimeKind {
    pub open spec fn word(self) -> Seq<char> {
        match self {
            RuntimeKind::Containerization => "containerization"@,
            RuntimeKind::Virtualization => "virtualization"@,
        }
    }

    pub fn parse(raw: &str) -> (r: Result<Self, String>)
        ensures
            lowercase(raw@) == "containerization"@ ==> r == Ok::<Self, String>(
                RuntimeKind::Containerization,
            ),
            lowercase(raw@) == "virtualization"@ ==> r == Ok::<Self, String>(
                RuntimeKind::Virtualization,
            ),
            lowercase(raw@) != "containerization"@ && lowercase(raw@) != "virtualization"@ ==> (r
                matches Err(e) && e@ == "unknown runtime `"@ + lowercase(raw@) + "`"@),
    {
        let word = to_lowercase(raw);
        proof {
            reveal_strlit("containerization");
            reveal_strlit("virtualization");
            assert("containerization"@.len() == 16);
            assert("virtualization"@.len() == 14);
        }
        if same(word.as_str(), "containerization") {
            Ok(RuntimeKind::Containerization)
        } else if same(word.as_str(), "virtualization") {
            Ok(RuntimeKind::Virtualization)
        } else {
            Err(cat3("unknown runtime `", word.as_str(), "`"))
        }
    }

    pub fn as_str(self) -> (r: &'static str)
        ensures
            r@ == self.word(),
    {
        match self {
            RuntimeKind::Containerization => "containerization",
            RuntimeKind::Virtualization => "virtualization",
        }
    }
}

#[derive(Debug, Clone, PartialEq, Eq)]
pub enum HelperNetworkMode {
    NoNetwork,
    Full,
    Allowlist(Vec<String>),
}

/// A network as a value.
pub enum HelperNetwork {
    NoNetwork,
    Full,
    Allowlist(Seq<Seq<char>>),
}

impl View for HelperNetworkMode {
    type V = HelperNetwork;

    open spec fn view(&self) -> HelperNetwork {
        match self {
            HelperNetworkMode::NoNetwork => HelperNetwork::NoNetwork,
            HelperNetworkMode::Full => HelperNetwork::Full,
            HelperNetworkMode::Allowlist(list) => HelperNetwork::Allowlist(views(list@)),
        }
    }
}

/// The first pattern of a list that stands for all names below another.
pub open spec fn first_wildcard(list: Seq<Seq<char>>) -> Option<Seq<char>>
    decreases list.len(),
{
    if list.len() == 0 {
        None
    } else if starts(list[0], "*."@) {
        Some(list[0])
    } else {
        first_wildcard(list.subrange(1, list.len() as int))
    }
}

/// The network that a request asks for. The name server beside a sandbox knows single names
/// only.
pub open spec fn asked_network(raw_mode: Seq<char>, allowlist: Seq<Seq<char>>) -> Result<
    HelperNetwork,
    Seq<char>,
> {
    let mode = lowercase(raw_mode);
    if mode == "none"@ {
        Ok(HelperNetwork::NoNetwork)
    } else if mode == "full"@ {
        Ok(HelperNetwork::Full)
    } else if mode == "allowlist"@ {
        match parsed_list(allowlist) {
            Err(e) => Err("invalid allowlist: "@ + e),
            Ok(list) => match first_wildcard(patterns(list)) {
                Some(p) => Err("invalid allowlist: wildcard `"@ + p + "` is not supported"@),
                None => Ok(HelperNetwork::Allowlist(patterns(list))),
            },
        }
    } else {
        Err("unknown network mode `"@ + mode + "`"@)
    }
}

fn find_wildcard(list: &Vec<String>) -> (r: Option<usize>)
    ensures
        match r {
            Some(i) => i < list.len() && first_wildcard(views(list@)) == Some(list@[i as int]@),
            None => first_wildcard(views(list@)) is None,
        },
{
    let ghost all = views(list@);
    let mut i: usize = 0;
    assert(all.subrange(0, all.len() as int) =~= all);
    while i < list.len()
        invariant
            i <= list.len(),
            all == views(list@),
            first_wildcard(all) == first_wildcard(all.subrange(i as int, all.len() as int)),
        decreases list.len() - i,
    {
        let ghost rest = all.subrange(i as int, all.len() as int);
        assert(rest[0] == list@[i as int]@);
        if starts_with(list[i].as_str(), "*.") {
            return Some(i);
        }
        assert(rest.subrange(1, rest.len() as int) =~= all.subrange(i + 1, all.len() as int));
        i = i + 1;
    }
    None
}

/// What a sandbox with an allowlist has beside it.
#[derive(Debug, Clone, PartialEq, Eq)]
pub struct AllowlistRuntime {
    pub network_name: String,
    pub dns_container_name: String,
}

#[derive(Debug, Clone, PartialEq, Eq)]
pub struct AllowlistRuntimeSetup {
    pub network_name: String,
    pub dns_container_name: String,
    pub dns_server_ip: String,
}

/// The arguments that give a container its network.
pub open spec fn network_args(network: HelperNetwork, setup: Option<AllowlistRuntimeSetup>) -> Result<
    Seq<Seq<char>>,
    Seq<char>,
> {
    match network {
        HelperNetwork::NoNetwork => Ok(seq!["--network"@, "none"@]),
        HelperNetwork::Full => Ok(Seq::<Seq<char>>::empty()),
        HelperNetwork::Allowlist(_) => match setup {
            None => Err("allowlist networking runtime is missing"@),
            Some(s) => Ok(seq!["--network"@, s.network_name@, "--dns"@, s.dns_server_ip@]),
        },
    }
}

impl HelperNetworkMode {
    pub fn parse(raw_mode: &str, allowlist: Vec<String>) -> (r: Result<Self, String>)
        ensures
            match asked_network(raw_mode@, views(allowlist@)) {
                Ok(network) => r matches Ok(mode) && mode@ == network,
                Err(text) => r matches Err(e) && e@ == text,
            },
    {
        let mode = to_lowercase(raw_mode);
        if same(mode.as_str(), "none") {
            return Ok(HelperNetworkMode::NoNetwork);
        }
        if same(mode.as_str(), "full") {
            return Ok(HelperNetworkMode::Full);
        }
        if !same(mode.as_str(), "allowlist") {
            return Err(cat3("unknown network mode `", mode.as_str(), "`"));
        }
        match normalize_allowlist_domains(&allowlist) {
            Err(e) => Err(cat2("invalid allowlist: ", e.as_str())),
            Ok(list) => match find_wildcard(&list) {
                Some(i) => Err(
                    cat3(
                        "invalid allowlist: wildcard `",
                        list[i].as_str(),
                        "` is not supported",
                    ),
                ),
                None => Ok(HelperNetworkMode::Allowlist(list)),
            },
        }
    }

    pub fn container_args(&self, allowlist_setup: Option<&AllowlistRuntimeSetup>) -> (r: Result<
        Vec<String>,
        String,
    >)
        ensures
            match network_args(
                self@,
                match allowlist_setup {
                    Some(s) => Some(*s),
                    None => None,
                },
            ) {
                Ok(args) => r matches Ok(list) && views(list@) == args,
                Err(text) => r matches Err(e) && e@ == text,
            },
    {
        match self {
            HelperNetworkMode::NoNetwork => {
                let args = texts(&["--network", "none"]);
                assert(views(args@) =~= seq!["--network"@, "none"@]);
                Ok(args)
            },
            HelperNetworkMode::Full => {
                let args: Vec<String> = Vec::new();
                assert(views(args@) =~= Seq::<Seq<char>>::empty());
                Ok(args)
            },
            HelperNetworkMode::Allowlist(_) => match allowlist_setup {
                None => Err("allowlist networking runtime is missing".to_owned()),
                Some(s) => {
                    let args = texts(
                        &["--network", s.network_name.as_str(), "--dns", s.dns_server_ip.as_str()],
                    );
                    assert(views(args@) =~= seq![
                        "--network"@,
                        s.network_name@,
                        "--dns"@,
                        s.dns_server_ip@,
                    ]);
                    Ok(args)
                },
            },
        }
    }
}

/// The characters of a sandbox's name.
pub open spec fn id_char(c: char) -> bool {
    alphanumeric(c) || c == '-' || c == '_'
}

/// The names that the helper gives to sandboxes.
pub open spec fn checked_id(raw: Seq<char>) -> Result<Seq<char>, Seq<char>> {
    if raw.len() == 0 {
        Err("sandbox_id is required"@)
    } else if vstd::utf8::encode_utf8(raw).len() > 128 {
        Err("sandbox_id too long"@)
    } else if forall|i: int| 0 <= i < raw.len() ==> id_char(#[trigger] raw[i]) {
        Ok(raw)
    } else {
        Err("sandbox_id contains unsupported characters"@)
    }
}

pub fn sanitize_sandbox_id(raw: &str) -> (r: Result<String, String>)
    ensures
        crate::codec::text_or_error(r) == checked_id(raw@),
{
    let chars = crate::text::chars_of(raw);
    if chars.len() == 0 {
        return Err("sandbox_id is required".to_owned());
    }
    if raw.as_bytes().len() > 128 {
        return Err("sandbox_id too long".to_owned());
    }
    let mut i: usize = 0;
    while i < chars.len()
        invariant
            chars@ == raw@,
            i <= chars.len(),
            raw@.len() > 0,
            vstd::utf8::encode_utf8(raw@).len() <= 128,
            forall|k: int| 0 <= k < i ==> id_char(#[trigger] raw@[k]),
        decreases chars.len() - i,
    {
        let c = chars[i];
        if !(is_alphanumeric(c) || c == '-' || c == '_') {
            assert(!id_char(raw@[i as int]));
            return Err("sandbox_id contains unsupported characters".to_owned());
        }
        i = i + 1;
    }
    Ok(raw.to_owned())
}

/// The field that an inspection of a network was asked for, where it says something.
pub open spec fn gateway_of(field: Option<Seq<char>>) -> Result<Seq<char>, Seq<char>> {
    match field {
        Some(text) if trimmed(text).len() > 0 => Ok(trimmed(text)),
        _ => Err("network inspect output missing status.ipv4Gateway"@),
    }
}

pub fn gateway_from(field: Option<String>) -> (r: Result<String, String>)
    ensures
        crate::codec::text_or_error(r) == gateway_of(opt_view(field)),
{
    if let Some(text) = field {
        let value = trim(text.as_str());
        if crate::text::chars_of(value.as_str()).len() > 0 {
            return Ok(value);
        }
    }
    Err("network inspect output missing status.ipv4Gateway".to_owned())
}

/// The address in front of the slash of an address with its prefix length.
pub open spec fn address_of(field: Option<Seq<char>>) -> Result<Seq<char>, Seq<char>> {
    match field {
        Some(text) if trimmed(text).len() > 0 => {
            let ip = trimmed(pieces(trimmed(text), '/')[0]);
            if ip.len() > 0 {
                Ok(ip)
            } else {
                Err("container inspect ipv4Address did not contain an IPv4 value"@)
            }
        },
        _ => Err("container inspect output missing networks[0].ipv4Address"@),
    }
}

pub fn address_from(field: Option<String>) -> (r: Result<String, String>)
    ensures
        crate::codec::text_or_error(r) == address_of(opt_view(field)),
{
    if let Some(text) = field {
        let cidr = trim(text.as_str());
        if crate::text::chars_of(cidr.as_str()).len() > 0 {
            let parts = split(cidr.as_str(), '/');
            assert(views(parts@)[0] == parts@[0]@);
            let ip = trim(parts[0].as_str());
            if crate::text::chars_of(ip.as_str()).len() > 0 {
                return Ok(ip);
            }
            return Err(
                "container inspect ipv4Address did not contain an IPv4 value".to_owned(),
            );
        }
    }
    Err("container inspect output missing networks[0].ipv4Address".to_owned())
}

/// A command that failed, with all that it said.
pub open spec fn full_report(what: Seq<char>, result: CommandResult) -> Seq<char> {
    exit_report(what, result.exit_code, utf8_lossy(result.stderr@))
}

pub(crate) fn report_in_full(what: &str, result: &CommandResult) -> (r: String)
    ensures
        r@ == full_report(what@, *result),
{
    report_exit(what, result.exit_code, lossy_text(result.stderr.as_slice()).as_str())
}

/// Where the inspection of a network says its gateway.
pub open spec fn gateway_steps() -> Seq<JsonStepModel> {
    seq![
        JsonStepModel::Item(0),
        JsonStepModel::Key("status"@),
        JsonStepModel::Key("ipv4Gateway"@),
    ]
}

/// The gateway that the inspection of a network gave.
pub open spec fn inspected_gateway(network: Seq<char>, result: CommandResult) -> Result<
    Seq<char>,
    Seq<char>,
> {
    if result.exit_code != 0 {
        Err(full_report("inspect network `"@ + network + "`"@, result))
    } else {
        match json_text_found(result.stdout@, gateway_steps()) {
            Err(e) => Err("parse network inspect output: "@ + e),
            Ok(field) => gateway_of(field),
        }
    }
}

pub fn read_gateway(network: &str, result: &CommandResult) -> (r: Result<String, String>)
    ensures
        crate::codec::text_or_error(r) == inspected_gateway(network@, *result),
{
    if result.exit_code != 0 {
        return Err(report_in_full(cat3("inspect network `", network, "`").as_str(), result));
    }
    let steps = [JsonStep::Item(0), JsonStep::Key("status"), JsonStep::Key("ipv4Gateway")];
    assert(step_views(steps@) =~= gateway_steps());
    match json_text_at(result.stdout.as_slice(), &steps) {
        Err(e) => Err(cat2("parse network inspect output: ", e.as_str())),
        Ok(field) => gateway_from(field),
    }
}

/// Where the inspection of a container says its address.
pub open spec fn address_steps() -> Seq<JsonStepModel> {
    seq![
        JsonStepModel::Item(0),
        JsonStepModel::Key("networks"@),
        JsonStepModel::Item(0),
        JsonStepModel::Key("ipv4Address"@),
    ]
}

/// The address that the inspection of a container gave.
pub open spec fn inspected_address(container: Seq<char>, result: CommandResult) -> Result<
    Seq<char>,
    Seq<char>,
> {
    if result.exit_code != 0 {
        Err(full_report("inspect container `"@ + container + "`"@, result))
    } else {
        match json_text_found(result.stdout@, address_steps()) {
            Err(e) => Err("parse container inspect output: "@ + e),
            Ok(field) => address_of(field),
        }
    }
}

pub fn read_address(container: &str, result: &CommandResult) -> (r: Result<String, String>)
    ensures
        crate::codec::text_or_error(r) == inspected_address(container@, *result),
{
    if result.exit_code != 0 {
        return Err(report_in_full(cat3("inspect container `", container, "`").as_str(), result));
    }
    let steps = [
        JsonStep::Item(0),
        JsonStep::Key("networks"),
        JsonStep::Item(0),
        JsonStep::Key("ipv4Address"),
    ];
    assert(step_views(steps@) =~= address_steps());
    match json_text_at(result.stdout.as_slice(), &steps) {
        Err(e) => Err(cat2("parse container inspect output: ", e.as_str())),
        Ok(field) => address_from(field),
    }
}

/// The address of a container is what stands before the slash of what an inspection says, or all of
/// it where there is none; without one, or with nothing before the slash, there is no address.
pub proof fn addresses_stand_before_the_slash(ip: Seq<char>, length: Seq<char>)
    requires
        ip.len() > 0,
        !ip.contains('/'),
        !white(ip[0]),
        !white(ip.last()),
        length.len() > 0,
        !white(length.last()),
    ensures
        address_of(Some(ip)) == Ok::<Seq<char>, Seq<char>>(ip),
        address_of(Some(ip + seq!['/'] + length)) == Ok::<Seq<char>, Seq<char>>(ip),
        address_of(Some(seq!['/'] + length)) is Err,
        address_of(None) is Err,
        gateway_of(Some(ip)) == Ok::<Seq<char>, Seq<char>>(ip),
        gateway_of(Some(Seq::<char>::empty())) is Err,
        gateway_of(None) is Err,
{
    let none = Seq::<char>::empty();
    trimmed_keeps(ip);
    trimmed_keeps(none);
    let whole = ip + seq!['/'] + length;
    assert(whole[0] == ip[0] && whole.last() == length.last());
    trimmed_keeps(whole);
    first_pieces_end_at_the_mark(ip, '/', length);
    let bare = seq!['/'] + length;
    assert(bare[0] == '/' && bare.last() == length.last());
    trimmed_keeps(bare);
    first_pieces_end_at_the_mark(none, '/', length);
    assert(none + seq!['/'] + length =~= bare);
}

/// A name that is let through is left as it is, and neither leads to another directory nor is empty.
pub proof fn checked_names_stay_in_place(raw: Seq<char>)
    ensures
        checked_id(raw) matches Ok(name) ==> name == raw && name.len() > 0 && !name.contains('/')
            && !name.contains('.') && !name.contains(' '),
        raw.len() == 0 ==> checked_id(raw) is Err,
        raw.contains('/') || raw.contains('.') ==> checked_id(raw) is Err,
{
    assert(!id_char('/') && !id_char('.') && !id_char(' '));
}

} // verus!
