//! The addresses behind the names of an allowlist.

use crate::config::{normalize_allowlist_domains, parsed_list, patterns};
use crate::error::{execution_failed, invalid_config, HyperboxError};
use crate::network::dns_proxy::HostIp;
use crate::numbers::{decimal, decimal_reads_back, parse_u64, parsed_nat};
use crate::text::{cat4, views};
use vstd::prelude::*;

verus! {

/// An address and how it is written.
#[derive(Debug, Clone, PartialEq, Eq)]
pub struct FoundIp {
    pub ip: HostIp,
    pub text: String,
}

/// One address comes before another: those of four bytes first, then by their bytes.
pub open spec fn ip_before(a: HostIp, b: HostIp) -> bool {
    match (a, b) {
        (HostIp::V4(x), HostIp::V4(y)) => x < y,
        (HostIp::V4(_), HostIp::V6(_)) => true,
        (HostIp::V6(_), HostIp::V4(_)) => false,
        (HostIp::V6(x), HostIp::V6(y)) => x < y,
    }
}

fn comes_before(a: HostIp, b: HostIp) -> (r: bool)
    ensures
        r == ip_before(a, b),
{
    match (a, b) {
        (HostIp::V4(x), HostIp::V4(y)) => x < y,
        (HostIp::V4(_), HostIp::V6(_)) => true,
        (HostIp::V6(_), HostIp::V4(_)) => false,
        (HostIp::V6(x), HostIp::V6(y)) => x < y,
    }
}

/// Each address once, in their order.
pub open spec fn in_order(list: Seq<FoundIp>) -> bool {
    forall|i: int, j: int|
        0 <= i < j < list.len() ==> ip_before((#[trigger] list[i]).ip, (#[trigger] list[j]).ip)
}

pub open spec fn has_ip(list: Seq<FoundIp>, ip: HostIp) -> bool {
    exists|i: int| 0 <= i < list.len() && (#[trigger] list[i]).ip == ip
}

/// The place of an address in a list in order: behind those that come before it.
pub open spec fn place_of(list: Seq<FoundIp>, ip: HostIp) -> int
    decreases list.len(),
{
    if list.len() == 0 {
        0
    } else if ip_before(list.last().ip, ip) {
        list.len() as int
    } else {
        place_of(list.drop_last(), ip)
    }
}

/// A list with what was found of an address in its place, unless the address is there.
pub open spec fn with_found(list: Seq<FoundIp>, found: FoundIp) -> Seq<FoundIp> {
    if has_ip(list, found.ip) {
        list
    } else {
        list.insert(place_of(list, found.ip), found)
    }
}

/// The same for all that was found, one after the other.
pub open spec fn with_all_found(list: Seq<FoundIp>, found: Seq<FoundIp>) -> Seq<FoundIp>
    decreases found.len(),
{
    if found.len() == 0 {
        list
    } else {
        with_found(with_all_found(list, found.drop_last()), found.last())
    }
}

proof fn place_is_behind(list: Seq<FoundIp>, ip: HostIp, i: int)
    requires
        0 <= i <= list.len(),
        forall|k: int| 0 <= k < i ==> ip_before((#[trigger] list[k]).ip, ip),
        forall|k: int| i <= k < list.len() ==> !ip_before((#[trigger] list[k]).ip, ip),
    ensures
        place_of(list, ip) == i,
    decreases list.len(),
{
    if i < list.len() {
        place_is_behind(list.drop_last(), ip, i);
    } else if list.len() > 0 {
        assert(list.last() == list[list.len() - 1]);
    }
}

/// Whatever stands in a list after addresses were put in stood there before or was found, as
/// it is.
pub proof fn found_addresses_stay_as_they_are(list: Seq<FoundIp>, found: Seq<FoundIp>, i: int)
    requires
        0 <= i < with_all_found(list, found).len(),
    ensures
        list.contains(with_all_found(list, found)[i]) || found.contains(
            with_all_found(list, found)[i],
        ),
    decreases found.len(),
{
    if found.len() > 0 {
        let init = with_all_found(list, found.drop_last());
        let last = found.last();
        let p = place_of(init, last.ip);
        place_in_bounds(init, last.ip);
        let k = if has_ip(init, last.ip) || i < p {
            i
        } else {
            i - 1
        };
        if has_ip(init, last.ip) || i != p {
            found_addresses_stay_as_they_are(list, found.drop_last(), k);
            let x = init[k];
            assert(with_all_found(list, found)[i] == x);
            if found.drop_last().contains(x) {
                let j = choose|j: int| 0 <= j < found.drop_last().len() && found.drop_last()[j] == x;
                assert(found[j] == x);
            }
        } else {
            assert(found[found.len() - 1] == last);
        }
    } else {
        assert(list.contains(list[i]));
    }
}

proof fn place_in_bounds(list: Seq<FoundIp>, ip: HostIp)
    ensures
        0 <= place_of(list, ip) <= list.len(),
    decreases list.len(),
{
    if list.len() > 0 {
        place_in_bounds(list.drop_last(), ip);
    }
}

/// Puts an address in its place, unless it is there.
pub fn insert_ip(list: &mut Vec<FoundIp>, found: FoundIp)
    requires
        in_order(old(list)@),
    ensures
        final(list)@ == with_found(old(list)@, found),
        in_order(final(list)@),
        forall|ip: HostIp| #[trigger]
            has_ip(final(list)@, ip) <==> has_ip(old(list)@, ip) || ip == found.ip,
        has_ip(old(list)@, found.ip) ==> final(list)@ == old(list)@,
{
    let ghost before = list@;
    let mut i: usize = 0;
    while i < list.len() && comes_before(list[i].ip, found.ip)
        invariant
            i <= list.len(),
            list@ == before,
            in_order(before),
            forall|k: int| 0 <= k < i ==> ip_before((#[trigger] before[k]).ip, found.ip),
        decreases list.len() - i,
    {
        i = i + 1;
    }
    if i < list.len() && !comes_before(found.ip, list[i].ip) {
        assert(before[i as int].ip == found.ip);
        assert(has_ip(before, found.ip));
        return;
    }
    proof {
        if has_ip(before, found.ip) {
            let k = choose|k: int| 0 <= k < before.len() && (#[trigger] before[k]).ip == found.ip;
            if k < i {
                assert(ip_before(before[k].ip, found.ip));
            } else if i < k {
                assert(ip_before(before[i as int].ip, before[k].ip));
            }
            assert(false);
        }
    }
    proof {
        assert forall|k: int| i <= k < before.len() implies !ip_before(
            (#[trigger] before[k]).ip,
            found.ip,
        ) by {
            assert(ip_before(found.ip, before[i as int].ip));
            if k > i {
                assert(ip_before(before[i as int].ip, before[k].ip));
            }
        }
        place_is_behind(before, found.ip, i as int);
    }
    list.insert(i, found);
    proof {
        assert(list@ == before.insert(i as int, found));
        assert forall|a: int, b: int| 0 <= a < b < list@.len() implies ip_before(
            (#[trigger] list@[a]).ip,
            (#[trigger] list@[b]).ip,
        ) by {
            let x = if a < i {
                a
            } else {
                a - 1
            };
            let y = if b < i {
                b
            } else {
                b - 1
            };
            if a == i {
                assert(list@[b] == before[y]);
                if y > i {
                    assert(ip_before(before[i as int].ip, before[y].ip));
                }
            } else if b == i {
                assert(list@[a] == before[a]);
            } else {
                assert(list@[a] == before[x]);
                assert(list@[b] == before[y]);
                assert(ip_before(before[x].ip, before[y].ip));
            }
        }
        assert forall|ip: HostIp| #[trigger]
            has_ip(list@, ip) <==> has_ip(before, ip) || ip == found.ip by {
            if has_ip(list@, ip) {
                let k = choose|k: int| 0 <= k < list@.len() && (#[trigger] list@[k]).ip == ip;
                if k < i {
                    assert(before[k].ip == ip);
                } else if k > i {
                    assert(before[k - 1].ip == ip);
                }
            }
            if has_ip(before, ip) {
                let k = choose|k: int| 0 <= k < before.len() && (#[trigger] before[k]).ip == ip;
                if k < i {
                    assert(list@[k].ip == ip);
                } else {
                    assert(list@[k + 1].ip == ip);
                }
            }
            if ip == found.ip {
                assert(list@[i as int].ip == ip);
            }
        }
    }
}

/// Puts addresses in their places.
pub fn insert_all(list: &mut Vec<FoundIp>, found: Vec<FoundIp>)
    requires
        in_order(old(list)@),
    ensures
        final(list)@ == with_all_found(old(list)@, found@),
        in_order(final(list)@),
        forall|ip: HostIp| #[trigger]
            has_ip(final(list)@, ip) <==> has_ip(old(list)@, ip) || has_ip(found@, ip),
        forall|i: int|
            0 <= i < final(list)@.len() ==> old(list)@.contains(#[trigger] final(list)@[i])
                || found@.contains(final(list)@[i]),
{
    let ghost before = list@;
    let ghost all = found@;
    let mut found = found;
    let ghost mut done: int = 0;
    assert(all.subrange(0, all.len() as int) =~= all);
    while found.len() > 0
        invariant
            0 <= done <= all.len(),
            found@ == all.subrange(done, all.len() as int),
            in_order(list@),
            list@ == with_all_found(before, all.take(done)),
            forall|ip: HostIp| #[trigger]
                has_ip(list@, ip) <==> has_ip(before, ip) || has_ip(all.take(done), ip),
        decreases found@.len(),
    {
        let ghost step = list@;
        let next = found.remove(0);
        assert(next == all[done]);
        assert(found@ =~= all.subrange(done + 1, all.len() as int));
        insert_ip(list, next);
        proof {
            assert(all.take(done + 1).drop_last() =~= all.take(done));
            assert forall|ip: HostIp| #[trigger]
                has_ip(list@, ip) <==> has_ip(before, ip) || has_ip(all.take(done + 1), ip) by {
                if has_ip(all.take(done), ip) {
                    let k = choose|k: int|
                        0 <= k < all.take(done).len() && (#[trigger] all.take(done)[k]).ip == ip;
                    assert(all.take(done + 1)[k].ip == ip);
                }
                if has_ip(all.take(done + 1), ip) {
                    let k = choose|k: int|
                        0 <= k < all.take(done + 1).len() && (#[trigger] all.take(done + 1)[k]).ip
                            == ip;
                    if k < done {
                        assert(all.take(done)[k].ip == ip);
                    }
                }
                if ip == next.ip {
                    assert(all.take(done + 1)[done].ip == ip);
                }
                assert(has_ip(step, ip) <==> has_ip(before, ip) || has_ip(all.take(done), ip));
            }
            done = done + 1;
        }
    }
    assert(all.take(all.len() as int) =~= all);
    proof {
        assert(done == all.len());
        assert forall|i: int| 0 <= i < list@.len() implies before.contains(#[trigger] list@[i])
            || all.contains(list@[i]) by {
            found_addresses_stay_as_they_are(before, all, i);
        }
    }
}

/// What came of the lookup of a name.
#[derive(Debug)]
pub enum LookupReply {
    Found(Vec<FoundIp>),
    Failed(String),
}

#[derive(Debug)]
pub enum LookupStep {
    /// Look this name up.
    Lookup(String),
    Done(Result<Vec<FoundIp>, HyperboxError>),
}

/// The lookup of the names of an allowlist, one after the other. `rest` is what comes after
/// the name that is looked up.
#[derive(Debug)]
pub struct ResolveAllowlist {
    pub domain: String,
    pub rest: Vec<String>,
    pub found: Vec<FoundIp>,
}

impl ResolveAllowlist {
    /// The next name is looked up; at the end all addresses are handed out, if there are any.
    pub open spec fn goes_on(
        rest: Seq<Seq<char>>,
        found: Seq<FoundIp>,
        next: Option<Self>,
        step: LookupStep,
    ) -> bool {
        if rest.len() > 0 {
            &&& next matches Some(n)
            &&& n.domain@ == rest[0]
            &&& views(n.rest@) == rest.subrange(1, rest.len() as int)
            &&& n.found@ == found
            &&& step matches LookupStep::Lookup(d)
            &&& d@ == rest[0]
        } else if found.len() == 0 {
            next is None && (step matches LookupStep::Done(r) && execution_failed(
                r,
                "allowlist resolution returned zero IP addresses"@,
            ))
        } else {
            next is None && (step matches LookupStep::Done(Ok(list)) && list@ == found)
        }
    }

    pub fn begin(domains: &Vec<String>) -> (r: (Option<Self>, LookupStep))
        ensures
            match parsed_list(views(domains@)) {
                Err(e) => r.0 is None && (r.1 matches LookupStep::Done(done) && invalid_config(
                    done,
                    e,
                )),
                Ok(list) => Self::goes_on(patterns(list), Seq::<FoundIp>::empty(), r.0, r.1),
            },
            r.0 matches Some(n) ==> in_order(n.found@),
    {
        match normalize_allowlist_domains(domains) {
            Err(e) => (None, LookupStep::Done(Err(HyperboxError::InvalidConfig(e)))),
            Ok(list) => Self::go_on(list, Vec::new()),
        }
    }

    fn go_on(rest: Vec<String>, found: Vec<FoundIp>) -> (r: (Option<Self>, LookupStep))
        ensures
            Self::goes_on(views(rest@), found@, r.0, r.1),
    {
        let mut rest = rest;
        if rest.len() > 0 {
            let ghost all = views(rest@);
            let domain = rest.remove(0);
            assert(all[0] == domain@);
            assert(views(rest@) =~= all.subrange(1, all.len() as int));
            let asked = domain.clone();
            return (Some(ResolveAllowlist { domain, rest, found }), LookupStep::Lookup(asked));
        }
        if found.len() == 0 {
            return (
                None,
                LookupStep::Done(
                    Err(
                        HyperboxError::ExecutionFailed(
                            "allowlist resolution returned zero IP addresses".to_owned(),
                        ),
                    ),
                ),
            );
        }
        (None, LookupStep::Done(Ok(found)))
    }

    /// What a reply leads to. The addresses are kept in their order, each once; a name that
    /// cannot be looked up ends the whole.
    pub fn resume(self, reply: LookupReply) -> (r: (Option<Self>, LookupStep))
        requires
            in_order(self.found@),
        ensures
            match reply {
                LookupReply::Failed(e) => r.0 is None && (r.1 matches LookupStep::Done(done)
                    && execution_failed(
                    done,
                    "resolve allowlist domain `"@ + self.domain@ + "`: "@ + e@,
                )),
                LookupReply::Found(more) => {
                    let found = with_all_found(self.found@, more@);
                    &&& Self::goes_on(views(self.rest@), found, r.0, r.1)
                    &&& in_order(found)
                    &&& forall|ip: HostIp| #[trigger]
                        has_ip(found, ip) <==> has_ip(self.found@, ip) || has_ip(more@, ip)
                    &&& forall|i: int|
                        0 <= i < found.len() ==> self.found@.contains(#[trigger] found[i])
                            || more@.contains(found[i])
                },
            },
            r.0 matches Some(n) ==> in_order(n.found@),
    {
        match reply {
            LookupReply::Failed(e) => {
                let text = cat4(
                    "resolve allowlist domain `",
                    self.domain.as_str(),
                    "`: ",
                    e.as_str(),
                );
                (None, LookupStep::Done(Err(HyperboxError::ExecutionFailed(text))))
            },
            LookupReply::Found(more) => {
                let mut found = self.found;
                insert_all(&mut found, more);
                Self::go_on(self.rest, found)
            },
        }
    }
}

/// How often the addresses of an allowlist are looked up again, in seconds.
pub open spec fn refresh_secs(setting: Option<Seq<char>>) -> u64 {
    match setting {
        Some(text) => match parsed_nat(text, 0xffff_ffff_ffff_ffff) {
            Ok(n) if n > 0 => n as u64,
            _ => 60,
        },
        None => 60,
    }
}

pub fn allowlist_refresh_interval_secs(setting: &Option<String>) -> (r: u64)
    ensures
        r == refresh_secs(crate::text::opt_view(*setting)),
        r > 0,
{
    if let Some(text) = setting {
        if let Ok(n) = parse_u64(text.as_str()) {
            if n > 0 {
                return n;
            }
        }
    }
    60
}

/// The addresses are looked up again after as many seconds as the setting says, and after a minute
/// where it says none or nothing that can be counted.
pub proof fn settings_say_how_often(n: u64, text: Seq<char>)
    ensures
        n > 0 ==> refresh_secs(Some(decimal(n as nat))) == n,
        refresh_secs(Some(decimal(0))) == 60,
        refresh_secs(None) == 60,
        parsed_nat(text, 0xffff_ffff_ffff_ffff) is Err ==> refresh_secs(Some(text)) == 60,
{
    decimal_reads_back(n as nat, 0xffff_ffff_ffff_ffff);
    decimal_reads_back(0, 0xffff_ffff_ffff_ffff);
}

proof fn found_one_is_there(list: Seq<FoundIp>, found: FoundIp, ip: HostIp)
    ensures
        has_ip(with_found(list, found), ip) <==> has_ip(list, ip) || found.ip == ip,
{
    let p = place_of(list, found.ip);
    place_in_bounds(list, found.ip);
    let all = with_found(list, found);
    if !has_ip(list, found.ip) {
        if has_ip(list, ip) {
            let i = choose|i: int| 0 <= i < list.len() && (#[trigger] list[i]).ip == ip;
            let k = if i < p {
                i
            } else {
                i + 1
            };
            assert(all[k] == list[i]);
        }
        if found.ip == ip {
            assert(all[p] == found);
        }
        if has_ip(all, ip) {
            let i = choose|i: int| 0 <= i < all.len() && (#[trigger] all[i]).ip == ip;
            if i < p {
                assert(all[i] == list[i]);
            } else if i > p {
                assert(all[i] == list[i - 1]);
            }
        }
    }
}

/// Of what was found every address is let through, and none but these and the ones before.
pub proof fn all_found_addresses_are_there(list: Seq<FoundIp>, found: Seq<FoundIp>, ip: HostIp)
    ensures
        has_ip(with_all_found(list, found), ip) <==> has_ip(list, ip) || has_ip(found, ip),
    decreases found.len(),
{
    if found.len() > 0 {
        let init = found.drop_last();
        all_found_addresses_are_there(list, init, ip);
        found_one_is_there(with_all_found(list, init), found.last(), ip);
        if has_ip(init, ip) {
            let i = choose|i: int| 0 <= i < init.len() && (#[trigger] init[i]).ip == ip;
            assert(found[i] == init[i]);
        }
        if found.last().ip == ip {
            assert(found[found.len() - 1].ip == ip);
        }
        if has_ip(found, ip) && found.last().ip != ip {
            let i = choose|i: int| 0 <= i < found.len() && (#[trigger] found[i]).ip == ip;
            assert(init[i] == found[i]);
        }
    }
}

} // verus!
