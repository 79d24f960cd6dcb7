//! Which names a sandbox may look up.

use crate::config::{
    allowed, covers, given_hosts_are_allowed, parsed_entry, parsed_list, Allowlist, EntryModel,
    NetworkMode, NetworkModel,
};
use crate::text::alphanumeric;
use vstd::prelude::*;

verus! {

/// The characters of a name that can be looked up: letters and digits of ASCII, dots and
/// hyphens, and the two characters that are an `s` and a `k` but for their case.
pub open spec fn name_char(c: char) -> bool {
    alphanumeric(c) || c == '.' || c == '-' || c == '\u{17f}' || c == '\u{212a}'
}

/// A text that can be looked up as a name.
pub open spec fn lookup_name(s: Seq<char>) -> bool {
    s.len() > 0 && forall|i: int| 0 <= i < s.len() ==> name_char(#[trigger] s[i])
}

/// `regex::Regex::new` and `Regex::is_match` on the pattern of names. The pattern matches a
/// text from its start to its end, one or more characters of its class, whatever their case;
/// by Unicode's simple case folding the class then also holds U+017F and U+212A.
#[verifier::external_body]
fn pattern_matches(pattern: &str, text: &str) -> (r: bool)
    requires
        pattern@ == "(?i)^[a-z0-9.-]+$"@,
    ensures
        r == lookup_name(text@),
{
    regex::Regex::new(pattern).map(|re| re.is_match(text)).unwrap_or(false)
}

/// Decides whether a name may be looked up.
#[derive(Debug)]
pub struct NetworkPolicyEvaluator {
    allowlist: Option<Allowlist>,
}

impl View for NetworkPolicyEvaluator {
    type V = Option<Seq<EntryModel>>;

    closed spec fn view(&self) -> Option<Seq<EntryModel>> {
        match self.allowlist {
            Some(list) => Some(list@),
            None => None,
        }
    }
}

/// A name that a network mode lets through.
pub open spec fn lets_through(mode: NetworkModel, domain: Seq<char>) -> bool {
    lookup_name(domain) && match mode {
        NetworkModel::NoNetwork => false,
        NetworkModel::Full => true,
        NetworkModel::Allowlist(list) => allowed(list, domain),
    }
}

/// The entries that an evaluator for a mode goes by.
pub open spec fn entries_of(mode: NetworkModel) -> Option<Seq<EntryModel>> {
    match mode {
        NetworkModel::Allowlist(list) => Some(list),
        _ => None,
    }
}

impl NetworkPolicyEvaluator {
    pub fn new(mode: &NetworkMode) -> (r: Self)
        ensures
            r@ == entries_of(mode@),
    {
        let allowlist = match mode {
            NetworkMode::Allowlist(entries) => Some(entries.clone()),
            _ => None,
        };
        NetworkPolicyEvaluator { allowlist }
    }

    /// Whether a name may be looked up. With the mode that the evaluator was made for, the
    /// entries of that mode decide.
    pub fn allows_domain(&self, mode: &NetworkMode, domain: &str) -> (r: bool)
        ensures
            r == (lookup_name(domain@) && match mode@ {
                NetworkModel::NoNetwork => false,
                NetworkModel::Full => true,
                NetworkModel::Allowlist(_) => self@ matches Some(list) && allowed(list, domain@),
            }),
            self@ == entries_of(mode@) ==> r == lets_through(mode@, domain@),
    {
        if !pattern_matches("(?i)^[a-z0-9.-]+$", domain) {
            return false;
        }
        match mode {
            NetworkMode::NoNetwork => false,
            NetworkMode::Full => true,
            NetworkMode::Allowlist(_) => match &self.allowlist {
                Some(list) => list.allows(domain),
                None => false,
            },
        }
    }
}

/// Without a network no name is let through; with an allowlist only names that an entry
/// covers; with the full network every name that can be one.
pub proof fn modes_bound_what_is_let_through(mode: NetworkModel, domain: Seq<char>)
    ensures
        mode is NoNetwork ==> !lets_through(mode, domain),
        mode is Full ==> (lets_through(mode, domain) == lookup_name(domain)),
        mode matches NetworkModel::Allowlist(list) ==> (lets_through(mode, domain) ==> exists|
            i: int,
        |
            0 <= i < list.len() && covers(#[trigger] list[i], domain)),
        mode matches NetworkModel::Allowlist(list) ==> (list.len() == 0 ==> !lets_through(
            mode,
            domain,
        )),
{
}

/// With an allowlist exactly those names are let through that were given for it, or stand below one
/// that was given with a wildcard, and that can be looked up at all.
pub proof fn allowlists_let_their_names_through(
    domains: Seq<Seq<char>>,
    list: Seq<EntryModel>,
    name: Seq<char>,
)
    requires
        parsed_list(domains) == Ok::<Seq<EntryModel>, Seq<char>>(list),
    ensures
        lets_through(NetworkModel::Allowlist(list), name) <==> lookup_name(name) && exists|i: int|
            0 <= i < domains.len() && (parsed_entry(#[trigger] domains[i]) matches Ok(e) && covers(
                e,
                name,
            )),
{
    given_hosts_are_allowed(domains, list, name);
}

} // verus!
