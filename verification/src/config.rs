//! What a sandbox is made with: its template, its size, and what it may reach on the network.

use crate::env::{env_clone, env_entries, env_new};
use crate::text::{
    alphanumeric, cat2, cat3, chars_of, clone_opt, contains, contains_char, ends, ends_with,
    has_text, is_alphanumeric, is_whitespace, lower, lowercase, lowercase_twice, opt_view, same,
    starts, strip_prefix, strip_suffix, to_lowercase, trim, trimmed, trimmed_keeps, views, white,
    without_prefix, without_suffix,
};
use indexmap::IndexMap;
use vstd::prelude::*;

verus! {

/// One entry of an allowlist: a host, or all hosts below one.
#[derive(Debug, PartialEq, Eq)]
pub enum AllowlistEntry {
    Exact(String),
    WildcardSubdomain(String),
}

/// An entry as a value: whether it is a wildcard, and the host name that it is about.
#[verifier::ext_equal]
pub struct EntryModel {
    pub wildcard: bool,
    pub host: Seq<char>,
}

impl View for AllowlistEntry {
    type V = EntryModel;

    open spec fn view(&self) -> EntryModel {
        match self {
            AllowlistEntry::Exact(h) => EntryModel { wildcard: false, host: h@ },
            AllowlistEntry::WildcardSubdomain(h) => EntryModel { wildcard: true, host: h@ },
        }
    }
}

pub open spec fn host_char(c: char) -> bool {
    alphanumeric(c) || c == '-' || c == '.'
}

pub open spec fn any_white(s: Seq<char>) -> bool {
    exists|i: int| 0 <= i < s.len() && white(#[trigger] s[i])
}

pub open spec fn all_host_chars(s: Seq<char>) -> bool {
    forall|i: int| 0 <= i < s.len() ==> host_char(#[trigger] s[i])
}

/// A host name that starts or ends with a dot, or holds two in a row.
pub open spec fn misplaced_dots(s: Seq<char>) -> bool {
    starts(s, "."@) || ends(s, "."@) || has_text(s, ".."@)
}

/// What an entry's text comes down to: no outer white space, no upper case.
pub open spec fn normalized(raw: Seq<char>) -> Seq<char> {
    lowercase(trimmed(raw))
}

pub open spec fn entry_complaint(domain: Seq<char>, complaint: Seq<char>) -> Seq<char> {
    "allowlist entry `"@ + domain + complaint
}

/// What a text says as an allowlist entry, or what is wrong with it.
pub open spec fn parsed_entry(raw: Seq<char>) -> Result<EntryModel, Seq<char>> {
    let d = normalized(raw);
    let wildcard = starts(d, "*."@);
    let host = if wildcard {
        without_prefix(d, "*."@)
    } else {
        d
    };
    if d.len() == 0 {
        Err("allowlist domains must be non-empty"@)
    } else if d.contains('/') || d.contains(':') || any_white(d) {
        Err(
            entry_complaint(
                d,
                "` must be a bare domain (no scheme, port, path, or spaces)"@,
            ),
        )
    } else if (wildcard && host.len() == 0) || host.contains('*') {
        Err(entry_complaint(d, "` has an invalid wildcard; use leading `*.` only"@))
    } else if misplaced_dots(host) {
        Err(entry_complaint(d, "` is not a valid domain"@))
    } else if !all_host_chars(host) {
        Err(entry_complaint(d, "` contains unsupported characters"@))
    } else {
        Ok(EntryModel { wildcard, host })
    }
}

/// The text that stands for an entry.
pub open spec fn pattern(e: EntryModel) -> Seq<char> {
    if e.wildcard {
        "*."@ + e.host
    } else {
        e.host
    }
}

/// An entry covers a host: the host itself, or for a wildcard any name below it.
pub open spec fn covers(e: EntryModel, host: Seq<char>) -> bool {
    let h = lowercase(host);
    if e.wildcard {
        ends(h, e.host) && ends(without_suffix(h, e.host), "."@)
    } else {
        h == e.host
    }
}

fn has_whitespace(s: &str) -> (r: bool)
    ensures
        r == any_white(s@),
{
    let a = chars_of(s);
    let mut i: usize = 0;
    while i < a.len()
        invariant
            a@ == s@,
            i <= a.len(),
            forall|k: int| 0 <= k < i ==> !white(#[trigger] s@[k]),
        decreases a.len() - i,
    {
        if is_whitespace(a[i]) {
            assert(white(s@[i as int]));
            return true;
        }
        i = i + 1;
    }
    false
}

fn only_host_chars(s: &str) -> (r: bool)
    ensures
        r == all_host_chars(s@),
{
    let a = chars_of(s);
    let mut i: usize = 0;
    while i < a.len()
        invariant
            a@ == s@,
            i <= a.len(),
            forall|k: int| 0 <= k < i ==> host_char(#[trigger] s@[k]),
        decreases a.len() - i,
    {
        if !(is_alphanumeric(a[i]) || a[i] == '-' || a[i] == '.') {
            assert(!host_char(s@[i as int]));
            return false;
        }
        i = i + 1;
    }
    true
}

fn has_misplaced_dots(s: &str) -> (r: bool)
    ensures
        r == misplaced_dots(s@),
{
    crate::text::starts_with(s, ".") || ends_with(s, ".") || contains(s, "..")
}

fn complain(domain: &str, complaint: &str) -> (r: String)
    ensures
        r@ == entry_complaint(domain@, complaint@),
{
    cat3("allowlist entry `", domain, complaint)
}

impl AllowlistEntry {
    pub fn parse(raw: &str) -> (r: Result<Self, String>)
        ensures
            match r {
                Ok(e) => parsed_entry(raw@) == Ok::<EntryModel, Seq<char>>(e@),
                Err(m) => parsed_entry(raw@) == Err::<EntryModel, Seq<char>>(m@),
            },
    {
        let bare = trim(raw);
        let domain = to_lowercase(bare.as_str());
        let d = domain.as_str();
        if d.is_empty() {
            return Err("allowlist domains must be non-empty".to_owned());
        }
        if contains_char(d, '/') || contains_char(d, ':') || has_whitespace(d) {
            return Err(complain(d, "` must be a bare domain (no scheme, port, path, or spaces)"));
        }
        let (wildcard, host) = match strip_prefix(d, "*.") {
            Some(suffix) => (true, suffix),
            None => (false, domain.clone()),
        };
        let h = host.as_str();
        if (wildcard && h.is_empty()) || contains_char(h, '*') {
            return Err(complain(d, "` has an invalid wildcard; use leading `*.` only"));
        }
        if has_misplaced_dots(h) {
            return Err(complain(d, "` is not a valid domain"));
        }
        if !only_host_chars(h) {
            return Err(complain(d, "` contains unsupported characters"));
        }
        if wildcard {
            Ok(AllowlistEntry::WildcardSubdomain(host))
        } else {
            Ok(AllowlistEntry::Exact(host))
        }
    }

    pub fn as_str(&self) -> (r: &str)
        ensures
            r@ == self@.host,
    {
        match self {
            AllowlistEntry::Exact(hostname) => hostname.as_str(),
            AllowlistEntry::WildcardSubdomain(suffix) => suffix.as_str(),
        }
    }

    pub fn is_wildcard(&self) -> (r: bool)
        ensures
            r == self@.wildcard,
    {
        matches!(self, AllowlistEntry::WildcardSubdomain(_))
    }

    pub fn to_pattern_string(&self) -> (r: String)
        ensures
            r@ == pattern(self@),
    {
        match self {
            AllowlistEntry::Exact(hostname) => hostname.clone(),
            AllowlistEntry::WildcardSubdomain(suffix) => cat2("*.", suffix.as_str()),
        }
    }

    pub fn matches(&self, host: &str) -> (r: bool)
        ensures
            r == covers(self@, host@),
    {
        let host = to_lowercase(host);
        match self {
            AllowlistEntry::Exact(exact) => same(host.as_str(), exact.as_str()),
            AllowlistEntry::WildcardSubdomain(suffix) => match strip_suffix(
                host.as_str(),
                suffix.as_str(),
            ) {
                Some(prefix) => ends_with(prefix.as_str(), "."),
                None => false,
            },
        }
    }
}

impl Clone for AllowlistEntry {
    fn clone(&self) -> (r: Self)
        ensures
            r@ == self@,
    {
        match self {
            AllowlistEntry::Exact(h) => AllowlistEntry::Exact(h.clone()),
            AllowlistEntry::WildcardSubdomain(h) => AllowlistEntry::WildcardSubdomain(h.clone()),
        }
    }
}

/// The hosts that a sandbox may reach: entries in the order in which they were given, none
/// of them twice.
#[derive(Debug, PartialEq, Eq)]
pub struct Allowlist(Vec<AllowlistEntry>);

pub open spec fn entry_views(list: Seq<AllowlistEntry>) -> Seq<EntryModel> {
    Seq::new(list.len(), |i: int| list[i]@)
}

impl View for Allowlist {
    type V = Seq<EntryModel>;

    closed spec fn view(&self) -> Seq<EntryModel> {
        entry_views(self.0@)
    }
}

/// An entry with this pattern is in the list.
pub open spec fn listed(list: Seq<EntryModel>, p: Seq<char>) -> bool {
    exists|i: int| 0 <= i < list.len() && pattern(#[trigger] list[i]) == p
}

/// What a list of texts says as an allowlist: the first text that is no entry decides the
/// error, and of entries with one pattern the first stays.
pub open spec fn parsed_list(domains: Seq<Seq<char>>) -> Result<Seq<EntryModel>, Seq<char>>
    decreases domains.len(),
{
    if domains.len() == 0 {
        Ok(Seq::<EntryModel>::empty())
    } else {
        match parsed_list(domains.drop_last()) {
            Err(m) => Err(m),
            Ok(list) => match parsed_entry(domains.last()) {
                Err(m) => Err(m),
                Ok(e) => if listed(list, pattern(e)) {
                    Ok(list)
                } else {
                    Ok(list.push(e))
                },
            },
        }
    }
}

/// Some entry covers the host.
pub open spec fn allowed(list: Seq<EntryModel>, host: Seq<char>) -> bool {
    exists|i: int| 0 <= i < list.len() && covers(#[trigger] list[i], host)
}

/// The patterns of a list of entries.
pub open spec fn patterns(list: Seq<EntryModel>) -> Seq<Seq<char>> {
    Seq::new(list.len(), |i: int| pattern(list[i]))
}

proof fn parsed_list_stays_err(domains: Seq<Seq<char>>, k: int)
    requires
        0 <= k <= domains.len(),
        parsed_list(domains.take(k)) is Err,
    ensures
        parsed_list(domains) == parsed_list(domains.take(k)),
    decreases domains.len() - k,
{
    if k < domains.len() {
        assert(domains.take(k + 1).drop_last() =~= domains.take(k));
        parsed_list_stays_err(domains, k + 1);
    } else {
        assert(domains.take(k) =~= domains);
    }
}

fn pattern_listed(entries: &Vec<AllowlistEntry>, p: &str) -> (r: bool)
    ensures
        r == listed(entry_views(entries@), p@),
{
    let mut i: usize = 0;
    while i < entries.len()
        invariant
            i <= entries.len(),
            forall|k: int| 0 <= k < i ==> pattern(#[trigger] entry_views(entries@)[k]) != p@,
        decreases entries.len() - i,
    {
        let q = entries[i].to_pattern_string();
        if same(q.as_str(), p) {
            assert(pattern(entry_views(entries@)[i as int]) == p@);
            return true;
        }
        i = i + 1;
    }
    false
}

impl Allowlist {
    pub fn parse(domains: &[String]) -> (r: Result<Self, String>)
        ensures
            match r {
                Ok(list) => parsed_list(views(domains@)) == Ok::<Seq<EntryModel>, Seq<char>>(list@),
                Err(m) => parsed_list(views(domains@)) == Err::<Seq<EntryModel>, Seq<char>>(m@),
            },
    {
        let mut entries: Vec<AllowlistEntry> = Vec::new();
        let ghost all = views(domains@);
        let mut i: usize = 0;
        assert(entry_views(entries@) =~= Seq::<EntryModel>::empty());
        while i < domains.len()
            invariant
                i <= domains.len(),
                all == views(domains@),
                parsed_list(all.take(i as int)) == Ok::<Seq<EntryModel>, Seq<char>>(
                    entry_views(entries@),
                ),
            decreases domains.len() - i,
        {
            assert(all.take(i + 1).drop_last() =~= all.take(i as int));
            assert(all.take(i + 1).last() == domains@[i as int]@);
            match AllowlistEntry::parse(domains[i].as_str()) {
                Ok(entry) => {
                    let p = entry.to_pattern_string();
                    if !pattern_listed(&entries, p.as_str()) {
                        let ghost before = entries@;
                        entries.push(entry);
                        assert(entry_views(entries@) =~= entry_views(before).push(entry@));
                    }
                },
                Err(m) => {
                    proof {
                        parsed_list_stays_err(all, i + 1);
                    }
                    return Err(m);
                },
            }
            i = i + 1;
        }
        assert(all.take(all.len() as int) =~= all);
        Ok(Allowlist(entries))
    }

    /// The allowlist without entries.
    pub fn empty() -> (r: Self)
        ensures
            r@ == Seq::<EntryModel>::empty(),
    {
        let r = Allowlist(Vec::new());
        assert(r@ =~= Seq::<EntryModel>::empty());
        r
    }

    pub fn entries(&self) -> (r: &[AllowlistEntry])
        ensures
            entry_views(r@) == self@,
    {
        self.0.as_slice()
    }

    pub fn is_empty(&self) -> (r: bool)
        ensures
            r == (self@.len() == 0),
    {
        self.0.len() == 0
    }

    pub fn allows(&self, host: &str) -> (r: bool)
        ensures
            r == allowed(self@, host@),
    {
        let mut i: usize = 0;
        while i < self.0.len()
            invariant
                i <= self.0.len(),
                forall|k: int| 0 <= k < i ==> !covers(#[trigger] self@[k], host@),
            decreases self.0.len() - i,
        {
            if self.0[i].matches(host) {
                assert(covers(self@[i as int], host@));
                return true;
            }
            i = i + 1;
        }
        false
    }

    pub fn to_strings(&self) -> (r: Vec<String>)
        ensures
            views(r@) == patterns(self@),
    {
        let mut out: Vec<String> = Vec::new();
        let mut i: usize = 0;
        while i < self.0.len()
            invariant
                i <= self.0.len(),
                views(out@) == patterns(self@).take(i as int),
            decreases self.0.len() - i,
        {
            let p = self.0[i].to_pattern_string();
            let ghost before = out@;
            out.push(p);
            assert(views(out@) =~= views(before).push(p@));
            assert(patterns(self@).take(i + 1) =~= patterns(self@).take(i as int).push(
                pattern(self@[i as int]),
            ));
            i = i + 1;
        }
        assert(patterns(self@).take(self@.len() as int) =~= patterns(self@));
        out
    }
}

impl Clone for Allowlist {
    fn clone(&self) -> (r: Self)
        ensures
            r@ == self@,
    {
        let mut out: Vec<AllowlistEntry> = Vec::new();
        let mut i: usize = 0;
        while i < self.0.len()
            invariant
                i <= self.0.len(),
                entry_views(out@) == self@.take(i as int),
            decreases self.0.len() - i,
        {
            let e = self.0[i].clone();
            let ghost before = out@;
            out.push(e);
            assert(entry_views(out@) =~= entry_views(before).push(e@));
            i = i + 1;
        }
        assert(self@.take(self@.len() as int) =~= self@);
        Allowlist(out)
    }
}

pub fn normalize_allowlist_domains(domains: &[String]) -> (r: Result<Vec<String>, String>)
    ensures
        match r {
            Ok(list) => parsed_list(views(domains@)) is Ok && views(list@) == patterns(
                parsed_list(views(domains@))->Ok_0,
            ),
            Err(m) => parsed_list(views(domains@)) == Err::<Seq<EntryModel>, Seq<char>>(m@),
        },
{
    match Allowlist::parse(domains) {
        Ok(list) => Ok(list.to_strings()),
        Err(m) => Err(m),
    }
}

/// The network that a sandbox sees.
#[derive(Debug, PartialEq, Eq)]
pub enum NetworkMode {
    NoNetwork,
    Full,
    Allowlist(Allowlist),
}

/// A network mode as a value.
pub enum NetworkModel {
    NoNetwork,
    Full,
    Allowlist(Seq<EntryModel>),
}

impl View for NetworkMode {
    type V = NetworkModel;

    open spec fn view(&self) -> NetworkModel {
        match self {
            NetworkMode::NoNetwork => NetworkModel::NoNetwork,
            NetworkMode::Full => NetworkModel::Full,
            NetworkMode::Allowlist(list) => NetworkModel::Allowlist(list@),
        }
    }
}

impl Clone for NetworkMode {
    fn clone(&self) -> (r: Self)
        ensures
            r@ == self@,
    {
        match self {
            NetworkMode::NoNetwork => NetworkMode::NoNetwork,
            NetworkMode::Full => NetworkMode::Full,
            NetworkMode::Allowlist(list) => NetworkMode::Allowlist(list.clone()),
        }
    }
}

#[derive(Debug, PartialEq, Eq)]
pub struct SandboxConfig {
    pub affinity_name: Option<String>,
    pub template: String,
    pub memory_mb: u32,
    pub vcpu_count: u8,
    pub workspace_dir: Option<String>,
    pub network: NetworkMode,
    pub env: IndexMap<String, String>,
    pub timeout_secs: u64,
}

/// A sandbox configuration as a value.
#[verifier::ext_equal]
pub struct ConfigModel {
    pub affinity_name: Option<Seq<char>>,
    pub template: Seq<char>,
    pub memory_mb: u32,
    pub vcpu_count: u8,
    pub workspace_dir: Option<Seq<char>>,
    pub network: NetworkModel,
    pub env: Seq<(Seq<char>, Seq<char>)>,
    pub timeout_secs: u64,
}

impl View for SandboxConfig {
    type V = ConfigModel;

    open spec fn view(&self) -> ConfigModel {
        ConfigModel {
            affinity_name: opt_view(self.affinity_name),
            template: self.template@,
            memory_mb: self.memory_mb,
            vcpu_count: self.vcpu_count,
            workspace_dir: opt_view(self.workspace_dir),
            network: self.network@,
            env: env_entries(self.env),
            timeout_secs: self.timeout_secs,
        }
    }
}

impl Clone for SandboxConfig {
    fn clone(&self) -> (r: Self)
        ensures
            r@ == self@,
    {
        SandboxConfig {
            affinity_name: clone_opt(&self.affinity_name),
            template: self.template.clone(),
            memory_mb: self.memory_mb,
            vcpu_count: self.vcpu_count,
            workspace_dir: clone_opt(&self.workspace_dir),
            network: self.network.clone(),
            env: env_clone(&self.env),
            timeout_secs: self.timeout_secs,
        }
    }
}

/// The configuration of a sandbox of which nothing was asked: no network, no workspace.
pub open spec fn default_config() -> ConfigModel {
    ConfigModel {
        affinity_name: None,
        template: "python:3.12"@,
        memory_mb: 512,
        vcpu_count: 1,
        workspace_dir: None,
        network: NetworkModel::NoNetwork,
        env: Seq::<(Seq<char>, Seq<char>)>::empty(),
        timeout_secs: 60,
    }
}

impl Default for SandboxConfig {
    fn default() -> (r: Self)
        ensures
            r@ == default_config(),
    {
        SandboxConfig {
            affinity_name: None,
            template: "python:3.12".to_owned(),
            memory_mb: 512,
            vcpu_count: 1,
            workspace_dir: None,
            network: NetworkMode::NoNetwork,
            env: env_new(),
            timeout_secs: 60,
        }
    }
}

/// An entry that was read from a text: a name of letters, digits, hyphens and single inner
/// dots, without upper case, and not empty.
pub open spec fn valid_entry(e: EntryModel) -> bool {
    &&& e.host.len() > 0
    &&& all_host_chars(e.host)
    &&& lowercase(e.host) == e.host
    &&& !misplaced_dots(e.host)
}

pub open spec fn valid_list(list: Seq<EntryModel>) -> bool {
    &&& forall|i: int| 0 <= i < list.len() ==> valid_entry(#[trigger] list[i])
    &&& forall|i: int, j: int|
        0 <= i < j < list.len() ==> pattern(#[trigger] list[i]) != pattern(#[trigger] list[j])
}

/// Whatever is read as an entry is a valid one.
pub proof fn parsed_entry_is_valid(raw: Seq<char>)
    ensures
        parsed_entry(raw) matches Ok(e) ==> valid_entry(e),
{
    let d = normalized(raw);
    lowercase_twice(trimmed(raw));
    if let Ok(e) = parsed_entry(raw) {
        reveal_strlit("*.");
        assert forall|i: int| 0 <= i < e.host.len() implies lower(#[trigger] e.host[i])
            == e.host[i] by {
            let k = if e.wildcard {
                i + 2
            } else {
                i
            };
            assert(e.host[i] == d[k]);
            assert(lowercase(d)[k] == lower(d[k]));
        }
        assert(lowercase(e.host) =~= e.host);
    }
}

/// A valid entry's pattern reads as that entry: what is written can be read back.
pub proof fn entry_pattern_reads_back(e: EntryModel)
    requires
        valid_entry(e),
    ensures
        parsed_entry(pattern(e)) == Ok::<EntryModel, Seq<char>>(e),
{
    let p = pattern(e);
    reveal_strlit("*.");
    let off: int = if e.wildcard {
        2
    } else {
        0
    };
    assert forall|i: int| 0 <= i < e.host.len() implies p[i + off] == e.host[i] by {}
    assert forall|i: int| off <= i < p.len() implies host_char(#[trigger] p[i]) by {
        assert(p[i] == e.host[i - off]);
    }
    assert forall|i: int| 0 <= i < p.len() implies !white(#[trigger] p[i]) && p[i] != '/' && p[i]
        != ':' && lower(p[i]) == p[i] by {
        if i >= off {
            assert(host_char(p[i]));
            assert(lowercase(e.host)[i - off] == lower(e.host[i - off]));
        }
    }
    trimmed_keeps(p);
    assert(lowercase(p) =~= p);
    if e.wildcard {
        assert(p.subrange(0, 2) =~= "*."@);
        assert(without_prefix(p, "*."@) =~= e.host);
    } else {
        if starts(p, "*."@) {
            assert(p.subrange(0, 2)[0] == '*');
            assert(!host_char(p[0]));
        }
    }
    assert forall|i: int| 0 <= i < e.host.len() implies e.host[i] != '*' by {
        assert(host_char(e.host[i]));
    }
}

/// Two valid entries with one pattern are one entry.
pub proof fn pattern_tells_entries_apart(a: EntryModel, b: EntryModel)
    requires
        valid_entry(a),
        valid_entry(b),
        pattern(a) == pattern(b),
    ensures
        a == b,
{
    entry_pattern_reads_back(a);
    entry_pattern_reads_back(b);
}

/// Whatever is read as an allowlist holds valid entries, none of them twice.
pub proof fn parsed_list_is_valid(domains: Seq<Seq<char>>)
    ensures
        parsed_list(domains) matches Ok(list) ==> valid_list(list) && list.len() <= domains.len(),
    decreases domains.len(),
{
    if domains.len() > 0 {
        parsed_list_is_valid(domains.drop_last());
        parsed_entry_is_valid(domains.last());
    }
}

/// Reading the patterns of an allowlist gives the same allowlist: normalising twice is
/// normalising once.
pub proof fn list_patterns_read_back(list: Seq<EntryModel>)
    requires
        valid_list(list),
    ensures
        parsed_list(patterns(list)) == Ok::<Seq<EntryModel>, Seq<char>>(list),
    decreases list.len(),
{
    if list.len() > 0 {
        let init = list.drop_last();
        assert forall|i: int, j: int| 0 <= i < j < init.len() implies pattern(#[trigger] init[i])
            != pattern(#[trigger] init[j]) by {
            assert(pattern(list[i]) != pattern(list[j]));
        }
        list_patterns_read_back(init);
        entry_pattern_reads_back(list.last());
        assert(patterns(list).drop_last() =~= patterns(init));
        assert(patterns(list).last() == pattern(list.last()));
        assert(!listed(init, pattern(list.last()))) by {
            assert forall|i: int| 0 <= i < init.len() implies pattern(#[trigger] init[i])
                != pattern(list.last()) by {
                assert(pattern(list[i]) != pattern(list[list.len() - 1]));
            }
        }
        assert(init.push(list.last()) =~= list);
    } else {
        assert(patterns(list) =~= Seq::<Seq<char>>::empty());
        assert(list =~= Seq::<EntryModel>::empty());
    }
}

/// A wildcard covers the names below its host, each with at least a dot before it, and never
/// the host itself.
pub proof fn wildcard_requires_subdomain(host: Seq<char>, label: Seq<char>)
    requires
        lowercase(host) == host,
    ensures
        !covers(EntryModel { wildcard: true, host }, host),
        covers(EntryModel { wildcard: true, host }, label + "."@ + host),
{
    reveal_strlit(".");
    let name = label + "."@ + host;
    let h = lowercase(name);
    assert(without_suffix(lowercase(host), host) =~= Seq::<char>::empty());
    assert forall|i: int| 0 <= i < host.len() implies h.subrange(h.len() - host.len(), h.len() as int)[i]
        == host[i] by {
        assert(name[label.len() + 1 + i] == host[i]);
        assert(lowercase(host)[i] == lower(host[i]));
    }
    assert(h.subrange(h.len() - host.len(), h.len() as int) =~= host);
    let front = without_suffix(h, host);
    assert(front[label.len() as int] == '.');
    assert(front.subrange(front.len() - 1, front.len() as int) =~= "."@);
}

/// Whether a host is covered does not depend on its case.
pub proof fn covers_ignores_case(e: EntryModel, host: Seq<char>)
    ensures
        covers(e, host) == covers(e, lowercase(host)),
{
    lowercase_twice(host);
}

/// A valid exact entry covers its own host.
pub proof fn exact_covers_its_host(e: EntryModel)
    requires
        valid_entry(e),
        !e.wildcard,
    ensures
        covers(e, e.host),
{
}

/// An exact entry covers its host in any case of its letters, and nothing else; a wildcard covers
/// what ends in a dot and its host, and nothing else.
pub proof fn entries_cover_no_more(host: Seq<char>, name: Seq<char>)
    ensures
        covers(EntryModel { wildcard: false, host }, name) <==> lowercase(name) == host,
        covers(EntryModel { wildcard: true, host }, name) <==> exists|label: Seq<char>|
            lowercase(name) == #[trigger] (label + "."@) + host,
{
    reveal_strlit(".");
    let h = lowercase(name);
    let wild = EntryModel { wildcard: true, host };
    if covers(wild, name) {
        let front = without_suffix(h, host);
        let label = front.drop_last();
        assert(front.subrange(front.len() - 1, front.len() as int)[0] == '.');
        assert(label + "."@ =~= front);
        assert((label + "."@) + host =~= h) by {
            assert(h.subrange(h.len() - host.len(), h.len() as int) == host);
            assert(h =~= front + h.subrange(h.len() - host.len(), h.len() as int));
        }
    }
    if exists|label: Seq<char>| h == #[trigger] (label + "."@) + host {
        let label = choose|label: Seq<char>| h == #[trigger] (label + "."@) + host;
        assert(h.subrange(h.len() - host.len(), h.len() as int) =~= host);
        assert(without_suffix(h, host) =~= label + "."@);
        let front = without_suffix(h, host);
        assert(front.subrange(front.len() - 1, front.len() as int) =~= "."@);
    }
}

/// An allowlist holds what its texts say and no more: each text is an entry of it, and each entry
/// comes from a text.
pub proof fn lists_hold_what_was_given(domains: Seq<Seq<char>>, list: Seq<EntryModel>)
    requires
        parsed_list(domains) == Ok::<Seq<EntryModel>, Seq<char>>(list),
    ensures
        forall|i: int|
            0 <= i < domains.len() ==> (parsed_entry(#[trigger] domains[i]) matches Ok(e)
                && listed(list, pattern(e))),
        forall|k: int|
            0 <= k < list.len() ==> exists|i: int|
                0 <= i < domains.len() && parsed_entry(#[trigger] domains[i]) == Ok::<
                    EntryModel,
                    Seq<char>,
                >(#[trigger] list[k]),
    decreases domains.len(),
{
    if domains.len() > 0 {
        let init = domains.drop_last();
        let before = parsed_list(init)->Ok_0;
        let e = parsed_entry(domains.last())->Ok_0;
        lists_hold_what_was_given(init, before);
        assert forall|p: Seq<char>| listed(before, p) implies listed(list, p) by {
            let i = choose|i: int| 0 <= i < before.len() && pattern(#[trigger] before[i]) == p;
            assert(list[i] == before[i]);
        }
        assert(listed(list, pattern(e))) by {
            if !listed(before, pattern(e)) {
                assert(list[list.len() - 1] == e);
            }
        }
        assert forall|i: int| 0 <= i < domains.len() implies (parsed_entry(#[trigger] domains[i])
            matches Ok(x) && listed(list, pattern(x))) by {
            if i < init.len() {
                assert(init[i] == domains[i]);
            }
        }
        assert forall|k: int| 0 <= k < list.len() implies exists|i: int|
            0 <= i < domains.len() && parsed_entry(#[trigger] domains[i]) == Ok::<
                EntryModel,
                Seq<char>,
            >(#[trigger] list[k]) by {
            if k < before.len() {
                assert(list[k] == before[k]);
                let i = choose|i: int|
                    0 <= i < init.len() && parsed_entry(#[trigger] init[i]) == Ok::<
                        EntryModel,
                        Seq<char>,
                    >(before[k]);
                assert(init[i] == domains[i]);
                assert(parsed_entry(domains[i]) == Ok::<EntryModel, Seq<char>>(list[k]));
            } else {
                assert(parsed_entry(domains[domains.len() - 1]) == Ok::<EntryModel, Seq<char>>(
                    list[k],
                ));
            }
        }
    }
}

/// A host that was given for an allowlist is allowed by it, and with a wildcard every name below
/// it; a name that is neither is not.
pub proof fn given_hosts_are_allowed(
    domains: Seq<Seq<char>>,
    list: Seq<EntryModel>,
    name: Seq<char>,
)
    requires
        parsed_list(domains) == Ok::<Seq<EntryModel>, Seq<char>>(list),
    ensures
        allowed(list, name) <==> exists|i: int|
            0 <= i < domains.len() && (parsed_entry(#[trigger] domains[i]) matches Ok(e)
                && covers(e, name)),
{
    lists_hold_what_was_given(domains, list);
    parsed_list_is_valid(domains);
    if allowed(list, name) {
        let k = choose|k: int| 0 <= k < list.len() && covers(#[trigger] list[k], name);
        let i = choose|i: int|
            0 <= i < domains.len() && parsed_entry(#[trigger] domains[i]) == Ok::<
                EntryModel,
                Seq<char>,
            >(list[k]);
        assert(parsed_entry(domains[i]) matches Ok(e) && covers(e, name));
    }
    if exists|i: int|
        0 <= i < domains.len() && (parsed_entry(#[trigger] domains[i]) matches Ok(e) && covers(
            e,
            name,
        )) {
        let i = choose|i: int|
            0 <= i < domains.len() && (parsed_entry(#[trigger] domains[i]) matches Ok(e) && covers(
                e,
                name,
            ));
        let e = parsed_entry(domains[i])->Ok_0;
        let k = choose|k: int| 0 <= k < list.len() && pattern(#[trigger] list[k]) == pattern(e);
        parsed_entry_is_valid(domains[i]);
        pattern_tells_entries_apart(list[k], e);
        assert(covers(list[k], name));
    }
}

} // verus!
