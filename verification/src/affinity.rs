//! The names under which sandboxes are found again.

use crate::config::{patterns, NetworkMode, NetworkModel};
use crate::numbers::{hex_digits, hex_text};
use crate::text::{
    cat4, chars_of, first_chars, has_text, join, joined, shed, take_chars, stands_at, to_lower,
    lower, trim_matches,
};
use vstd::prelude::*;
use vstd::utf8::encode_utf8;

verus! {

pub const FNV_OFFSET: u64 = 0xcbf29ce484222325;

pub const FNV_PRIME: u64 = 0x100000001b3;

/// The 64-bit FNV-1a hash of a sequence of bytes.
pub open spec fn fnv(bytes: Seq<u8>) -> u64
    decreases bytes.len(),
{
    if bytes.len() == 0 {
        FNV_OFFSET
    } else {
        (fnv(bytes.drop_last()) ^ (bytes.last() as u64)).wrapping_mul(FNV_PRIME)
    }
}

pub fn fnv1a64(bytes: &[u8]) -> (r: u64)
    ensures
        r == fnv(bytes@),
{
    let mut hash: u64 = FNV_OFFSET;
    let mut i: usize = 0;
    while i < bytes.len()
        invariant
            i <= bytes.len(),
            hash == fnv(bytes@.take(i as int)),
        decreases bytes.len() - i,
    {
        assert(bytes@.take(i + 1).drop_last() =~= bytes@.take(i as int));
        hash = (hash ^ (bytes[i] as u64)).wrapping_mul(FNV_PRIME);
        i = i + 1;
    }
    assert(bytes@.take(bytes@.len() as int) =~= bytes@);
    hash
}

/// The hash of a text, over its UTF-8 bytes.
pub open spec fn text_hash(s: Seq<char>) -> u64 {
    fnv(encode_utf8(s))
}

/// A character of a name: lower-case letters and digits stay, upper case is lowered, anything
/// else becomes a hyphen.
pub open spec fn name_char(c: char) -> char {
    if 'a' <= c <= 'z' || '0' <= c <= '9' {
        c
    } else if 'A' <= c <= 'Z' {
        lower(c)
    } else {
        '-'
    }
}

/// A text as a part of a name.
pub open spec fn name_part(raw: Seq<char>, max_len: nat) -> Seq<char> {
    let dashed = Seq::new(raw.len(), |i: int| name_char(raw[i]));
    let short = shed(first_chars(shed(dashed, '-'), max_len), '-');
    if short.len() == 0 {
        "sandbox"@
    } else {
        short
    }
}

pub fn sanitize_affinity_component(raw: &str, max_len: usize) -> (r: String)
    ensures
        r@ == name_part(raw@, max_len as nat),
{
    let a = chars_of(raw);
    let mut dashed = String::new();
    let mut i: usize = 0;
    while i < a.len()
        invariant
            a@ == raw@,
            i <= a.len(),
            dashed@ == Seq::new(i as nat, |k: int| name_char(raw@[k])),
        decreases a.len() - i,
    {
        let c = a[i];
        let n = if ('a' <= c && c <= 'z') || ('0' <= c && c <= '9') {
            c
        } else if 'A' <= c && c <= 'Z' {
            to_lower(c)
        } else {
            '-'
        };
        dashed.push(n);
        i = i + 1;
    }
    let bare = trim_matches(dashed.as_str(), '-');
    let cut = take_chars(bare.as_str(), max_len);
    let short = trim_matches(cut.as_str(), '-');
    if short.as_str().is_empty() {
        "sandbox".to_owned()
    } else {
        short
    }
}

/// What the network of an automatic session is called in its scope.
pub open spec fn network_scope(network: NetworkModel) -> Seq<char> {
    match network {
        NetworkModel::NoNetwork => "none"@,
        NetworkModel::Full => "full"@,
        NetworkModel::Allowlist(list) => if list.len() == 0 {
            "allowlist"@
        } else {
            "allowlist:"@ + joined(patterns(list), ","@)
        },
    }
}

/// The text that tells automatic sessions apart: template, workspace and network.
pub open spec fn session_scope(
    template: Seq<char>,
    workspace: Seq<char>,
    network: NetworkModel,
) -> Seq<char> {
    template + "\n"@ + workspace + "\n"@ + network_scope(network)
}

/// The name of the automatic session for a template, a workspace and a network.
pub open spec fn session_name(
    template: Seq<char>,
    workspace: Seq<char>,
    network: NetworkModel,
) -> Seq<char> {
    "auto-"@ + name_part(template, 18) + "-"@ + hex_digits(
        text_hash(session_scope(template, workspace, network)) as nat,
        16,
    )
}

pub open spec fn workspace_scope(workspace_dir: Option<Seq<char>>) -> Seq<char> {
    match workspace_dir {
        Some(dir) => dir,
        None => ""@,
    }
}

pub open spec fn opt_str(s: Option<&str>) -> Option<Seq<char>> {
    match s {
        Some(t) => Some(t@),
        None => None,
    }
}

pub fn derive_auto_run_affinity_name(
    template: &str,
    workspace_dir: Option<&str>,
    network: &NetworkMode,
) -> (r: String)
    ensures
        r@ == session_name(template@, workspace_scope(opt_str(workspace_dir)), network@),
{
    let workspace = match workspace_dir {
        Some(dir) => dir,
        None => "",
    };
    let mut scope = cat4(template, "\n", workspace, "\n");
    match network {
        NetworkMode::NoNetwork => scope.push_str("none"),
        NetworkMode::Full => scope.push_str("full"),
        NetworkMode::Allowlist(domains) => {
            if domains.is_empty() {
                scope.push_str("allowlist");
            } else {
                let names = domains.to_strings();
                let list = join(&names, ",");
                let ghost front = scope@;
                scope.push_str("allowlist:");
                scope.push_str(list.as_str());
                assert(scope@ =~= front + ("allowlist:"@ + list@));
            }
        },
    }
    let hash: u64 = fnv1a64(scope.as_str().as_bytes());
    let slug = sanitize_affinity_component(template, 18);
    let digits = hex_text(hash as u128, 16);
    cat4("auto-", slug.as_str(), "-", digits.as_str())
}

/// The name of a session has room for a part of the template and sixteen digits, whatever the
/// template is. The part has one to eighteen clean characters and no hyphen at either end.
pub proof fn session_name_shape(template: Seq<char>, workspace: Seq<char>, network: NetworkModel)
    ensures
        session_name(template, workspace, network).len() == 22 + name_part(template, 18).len(),
        1 <= name_part(template, 18).len() <= 18,
        name_part(template, 18)[0] != '-',
        name_part(template, 18).last() != '-',
        forall|i: int|
            0 <= i < name_part(template, 18).len() ==> clean(#[trigger] name_part(template, 18)[i]),
{
    reveal_strlit("auto-");
    reveal_strlit("-");
    reveal_strlit("sandbox");
    let h = text_hash(session_scope(template, workspace, network)) as nat;
    hex_digits_len(h, 16);
    let dashed = Seq::new(template.len(), |i: int| name_char(template[i]));
    shed_keeps(dashed, '-');
    let cut = first_chars(shed(dashed, '-'), 18);
    shed_keeps(cut, '-');
    assert forall|i: int| 0 <= i < dashed.len() implies clean(#[trigger] dashed[i]) by {}
    assert forall|i: int| 0 <= i < cut.len() implies clean(#[trigger] cut[i]) by {
        let k = choose|k: int| stands_at(dashed, shed(dashed, '-'), k);
        assert(shed(dashed, '-')[i] == dashed[k + i]);
    }
    let short = shed(cut, '-');
    assert forall|i: int| 0 <= i < short.len() implies clean(#[trigger] short[i]) by {
        let k = choose|k: int| stands_at(cut, short, k);
        assert(short[i] == cut[k + i]);
    }
}

/// A character of a name.
pub open spec fn clean(c: char) -> bool {
    'a' <= c <= 'z' || '0' <= c <= '9' || c == '-'
}

proof fn hex_digits_len(n: nat, width: nat)
    ensures
        hex_digits(n, width).len() == width,
    decreases width,
{
    if width > 0 {
        hex_digits_len(n / 16, (width - 1) as nat);
    }
}

proof fn shed_start_keeps(s: Seq<char>, c: char) -> (k: int)
    ensures
        0 <= k <= s.len(),
        crate::text::shed_start(s, c) == s.subrange(k, s.len() as int),
        k < s.len() ==> s[k] != c,
    decreases s.len(),
{
    if s.len() > 0 && s[0] == c {
        let rest = s.subrange(1, s.len() as int);
        let k = shed_start_keeps(rest, c);
        assert(rest.subrange(k, rest.len() as int) =~= s.subrange(k + 1, s.len() as int));
        k + 1
    } else {
        assert(s.subrange(0, s.len() as int) =~= s);
        0
    }
}

proof fn shed_end_keeps(s: Seq<char>, c: char) -> (k: int)
    ensures
        0 <= k <= s.len(),
        crate::text::shed_end(s, c) == s.subrange(0, k),
        k > 0 ==> s[k - 1] != c,
    decreases s.len(),
{
    if s.len() > 0 && s.last() == c {
        let k = shed_end_keeps(s.drop_last(), c);
        assert(s.drop_last().subrange(0, k) =~= s.subrange(0, k));
        k
    } else {
        assert(s.subrange(0, s.len() as int) =~= s);
        s.len() as int
    }
}

/// Taking a character off both ends leaves a middle part that neither starts nor ends with it.
proof fn shed_keeps(s: Seq<char>, c: char)
    ensures
        has_text(s, shed(s, c)),
        shed(s, c).len() > 0 ==> shed(s, c)[0] != c && shed(s, c).last() != c,
{
    let k = shed_start_keeps(s, c);
    let head = crate::text::shed_start(s, c);
    let n = shed_end_keeps(head, c);
    assert(head.subrange(0, n) =~= s.subrange(k, k + n));
    assert(stands_at(s, shed(s, c), k));
}

proof fn texts_split_at(a: Seq<char>, x: Seq<char>, b: Seq<char>, y: Seq<char>)
    requires
        !a.contains('\n'),
        !b.contains('\n'),
        a + "\n"@ + x == b + "\n"@ + y,
    ensures
        a == b,
        x == y,
{
    reveal_strlit("\n");
    let s = a + "\n"@ + x;
    if a.len() < b.len() {
        assert(s[a.len() as int] == '\n');
        assert((b + "\n"@ + y)[a.len() as int] == b[a.len() as int]);
        assert(b.contains(b[a.len() as int]));
    } else if b.len() < a.len() {
        assert((b + "\n"@ + y)[b.len() as int] == '\n');
        assert(s[b.len() as int] == a[b.len() as int]);
        assert(a.contains(a[b.len() as int]));
    }
    assert(s.subrange(0, a.len() as int) =~= a);
    assert((b + "\n"@ + y).subrange(0, b.len() as int) =~= b);
    assert(s.subrange(a.len() as int + 1, s.len() as int) =~= x);
    assert((b + "\n"@ + y).subrange(b.len() as int + 1, s.len() as int) =~= y);
}

/// Sessions are told apart by everything that they are for: settings with one scope have the same
/// template, the same workspace, and the same kind of network with the same hosts.
pub proof fn scopes_tell_settings_apart(
    template: Seq<char>,
    workspace: Seq<char>,
    network: NetworkModel,
    other_template: Seq<char>,
    other_workspace: Seq<char>,
    other_network: NetworkModel,
)
    requires
        !template.contains('\n'),
        !other_template.contains('\n'),
        !workspace.contains('\n'),
        !other_workspace.contains('\n'),
        session_scope(template, workspace, network) == session_scope(
            other_template,
            other_workspace,
            other_network,
        ),
    ensures
        template == other_template,
        workspace == other_workspace,
        network is NoNetwork <==> other_network is NoNetwork,
        network is Full <==> other_network is Full,
        network matches NetworkModel::Allowlist(list) ==> (other_network
            matches NetworkModel::Allowlist(other) && joined(patterns(list), ","@) == joined(
            patterns(other),
            ","@,
        )),
{
    let n = network_scope(network);
    let m = network_scope(other_network);
    let nl = "\n"@;
    assert(session_scope(template, workspace, network) =~= template + nl + (workspace + nl + n));
    assert(session_scope(other_template, other_workspace, other_network) =~= other_template + nl + (
    other_workspace + nl + m));
    texts_split_at(
        template,
        workspace + nl + n,
        other_template,
        other_workspace + nl + m,
    );
    texts_split_at(workspace, n, other_workspace, m);
    reveal_strlit("none");
    reveal_strlit("full");
    reveal_strlit("allowlist");
    reveal_strlit("allowlist:");
    assert("none"@[0] == 'n' && "full"@[0] == 'f' && "allowlist"@[0] == 'a');
    assert("allowlist"@.len() == 9 && "allowlist:"@.len() == 10);
    if let NetworkModel::Allowlist(list) = network {
        assert(n[0] == 'a');
        if let NetworkModel::Allowlist(other) = other_network {
            let a = joined(patterns(list), ","@);
            let b = joined(patterns(other), ","@);
            if list.len() > 0 && other.len() > 0 {
                assert(n.subrange(10, n.len() as int) =~= a);
                assert(m.subrange(10, m.len() as int) =~= b);
            } else if list.len() == 0 && other.len() == 0 {
                assert(patterns(list) =~= patterns(other));
            }
        }
    }
    if other_network is Allowlist {
        assert(m[0] == 'a');
    }
}

/// The name of a session begins with `auto-` and the part of its template, and ends with the hash
/// of its scope.
pub proof fn session_names_end_with_their_scope(
    template: Seq<char>,
    workspace: Seq<char>,
    network: NetworkModel,
)
    ensures
        ({
            let name = session_name(template, workspace, network);
            let part = name_part(template, 18);
            &&& name.subrange(0, 5) == "auto-"@
            &&& name.subrange(5, 5 + part.len() as int) == part
            &&& name.subrange(name.len() - 16, name.len() as int) == hex_digits(
                text_hash(session_scope(template, workspace, network)) as nat,
                16,
            )
        }),
{
    reveal_strlit("auto-");
    reveal_strlit("-");
    let name = session_name(template, workspace, network);
    let part = name_part(template, 18);
    let h = text_hash(session_scope(template, workspace, network)) as nat;
    hex_digits_len(h, 16);
    assert(name.subrange(0, 5) =~= "auto-"@);
    assert(name.subrange(5, 5 + part.len() as int) =~= part);
    assert(name.subrange(name.len() - 16, name.len() as int) =~= hex_digits(h, 16));
}

} // verus!
