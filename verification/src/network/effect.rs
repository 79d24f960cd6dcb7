//! What the commands of a firewall come to: the tables, the rules and the sets that `nft` and
//! `ipset` keep, and what becomes of a packet by them.

use crate::config::NetworkModel;
use crate::network::firewall::{
    accept_listed_rule, accept_rule, apply_plan, create_chain, create_set, create_table, drop_rule,
    masquerade, population_plan, set_name, table_name, teardown_plan, CommandModel, VmNetworkSpec,
};
use vstd::prelude::*;

verus! {

/// A rule for what comes from an interface: to any address, or to one of a set.
#[verifier::ext_equal]
pub struct Rule {
    pub from: Seq<char>,
    pub to: Option<Seq<char>>,
    pub verdict: Seq<char>,
}

/// What the firewall of a host holds.
#[verifier::ext_equal]
pub struct Firewall {
    /// The addresses of each set.
    pub sets: Map<Seq<char>, Set<Seq<char>>>,
    /// The tables that are there.
    pub tables: Set<Seq<char>>,
    /// The rules of the forward chain of each table that has one, in the order in which they are
    /// tried.
    pub chains: Map<Seq<char>, Seq<Rule>>,
    /// Whose packets get the address of the host on their way out, and by which interface.
    pub hidden: Set<(Seq<char>, Seq<char>)>,
}

/// The first words of a command are these.
pub open spec fn begins(c: CommandModel, program: Seq<char>, words: Seq<Seq<char>>) -> bool {
    &&& c.program == program
    &&& words.len() <= c.args.len()
    &&& forall|i: int| 0 <= i < words.len() ==> #[trigger] words[i] == c.args[i]
}

pub open spec fn with_rule(f: Firewall, table: Seq<char>, rule: Rule) -> Firewall {
    if f.chains.contains_key(table) {
        Firewall { chains: f.chains.insert(table, f.chains[table].push(rule)), ..f }
    } else {
        f
    }
}

/// What a command does. One that is not understood, or for something that is not there, does
/// nothing.
pub open spec fn after_command(f: Firewall, c: CommandModel) -> Firewall {
    let a = c.args;
    if begins(c, "ipset"@, seq!["create"@]) && a.len() == 6 && a[2] == "hash:ip"@ {
        if f.sets.contains_key(a[1]) {
            f
        } else {
            Firewall { sets: f.sets.insert(a[1], Set::empty()), ..f }
        }
    } else if begins(c, "ipset"@, seq!["add"@]) && a.len() == 6 {
        if f.sets.contains_key(a[1]) {
            Firewall { sets: f.sets.insert(a[1], f.sets[a[1]].insert(a[2])), ..f }
        } else {
            f
        }
    } else if begins(c, "ipset"@, seq!["destroy"@]) && a.len() == 2 {
        Firewall { sets: f.sets.remove(a[1]), ..f }
    } else if begins(c, "nft"@, seq!["add"@, "table"@, "inet"@]) && a.len() == 4 {
        Firewall { tables: f.tables.insert(a[3]), ..f }
    } else if begins(c, "nft"@, seq!["delete"@, "table"@, "inet"@]) && a.len() == 4 {
        Firewall { tables: f.tables.remove(a[3]), chains: f.chains.remove(a[3]), ..f }
    } else if begins(c, "nft"@, seq!["add"@, "chain"@, "inet"@]) && a.len() == 14 && a[4]
        == "forward"@ && a.subrange(5, 14) == seq![
        "{"@,
        "type"@,
        "filter"@,
        "hook"@,
        "forward"@,
        "priority"@,
        "0"@,
        ";"@,
        "}"@,
    ] {
        if f.tables.contains(a[3]) && !f.chains.contains_key(a[3]) {
            Firewall { chains: f.chains.insert(a[3], Seq::empty()), ..f }
        } else {
            f
        }
    } else if begins(c, "nft"@, seq!["add"@, "rule"@, "inet"@]) && a.len() == 8 && a[4]
        == "forward"@ && a[5] == "iifname"@ {
        with_rule(f, a[3], Rule { from: a[6], to: None, verdict: a[7] })
    } else if begins(c, "nft"@, seq!["add"@, "rule"@, "inet"@]) && a.len() == 11 && a[4]
        == "forward"@ && a[5] == "iifname"@ && a[7] == "ip"@ && a[8] == "daddr"@ && a[9].len() > 0
        && a[9][0] == '@' {
        with_rule(
            f,
            a[3],
            Rule {
                from: a[6],
                to: Some(a[9].subrange(1, a[9].len() as int)),
                verdict: a[10],
            },
        )
    } else if begins(c, "nft"@, seq!["add"@, "rule"@, "nat"@, "postrouting"@, "ip"@, "saddr"@])
        && a.len() == 10 && a[7] == "oifname"@ && a[9] == "masquerade"@ {
        Firewall { hidden: f.hidden.insert((a[6], a[8])), ..f }
    } else {
        f
    }
}

/// What commands do one after the other.
pub open spec fn after_commands(f: Firewall, plan: Seq<CommandModel>) -> Firewall
    decreases plan.len(),
{
    if plan.len() == 0 {
        f
    } else {
        after_command(after_commands(f, plan.drop_last()), plan.last())
    }
}

/// A rule speaks of a packet from an interface to an address.
pub open spec fn speaks_of(rule: Rule, f: Firewall, from: Seq<char>, to: Seq<char>) -> bool {
    &&& rule.from == from
    &&& rule.to matches Some(list) ==> f.sets.contains_key(list) && f.sets[list].contains(to)
}

/// The verdict of the first rule that speaks of a packet.
pub open spec fn verdict_of(rules: Seq<Rule>, f: Firewall, from: Seq<char>, to: Seq<char>) -> Option<
    Seq<char>,
>
    decreases rules.len(),
{
    if rules.len() == 0 {
        None
    } else if speaks_of(rules[0], f, from, to) {
        Some(rules[0].verdict)
    } else {
        verdict_of(rules.subrange(1, rules.len() as int), f, from, to)
    }
}

/// What becomes of a packet by the table of a machine.
pub open spec fn fate(f: Firewall, vm_id: Seq<char>, from: Seq<char>, to: Seq<char>) -> Option<
    Seq<char>,
> {
    if f.chains.contains_key(table_name(vm_id)) {
        verdict_of(f.chains[table_name(vm_id)], f, from, to)
    } else {
        None
    }
}

/// Nothing of the machine is there yet.
pub open spec fn knows_nothing_of(f: Firewall, vm_id: Seq<char>) -> bool {
    &&& !f.tables.contains(table_name(vm_id))
    &&& !f.chains.contains_key(table_name(vm_id))
    &&& !f.sets.contains_key(set_name(vm_id))
}

proof fn words_differ()
    ensures
        "ipset"@ != "nft"@,
        "create"@ != "add"@,
        "create"@ != "destroy"@,
        "add"@ != "destroy"@,
        "add"@ != "delete"@,
        "table"@ != "chain"@,
        "table"@ != "rule"@,
        "chain"@ != "rule"@,
        "inet"@ != "nat"@,
        "accept"@ != "drop"@,
{
    reveal_strlit("ipset");
    reveal_strlit("nft");
    reveal_strlit("create");
    reveal_strlit("add");
    reveal_strlit("destroy");
    reveal_strlit("delete");
    reveal_strlit("table");
    reveal_strlit("chain");
    reveal_strlit("rule");
    reveal_strlit("inet");
    reveal_strlit("nat");
    reveal_strlit("accept");
    reveal_strlit("drop");
    assert("ipset"@.len() == 5 && "nft"@.len() == 3);
    assert("create"@.len() == 6 && "add"@.len() == 3 && "destroy"@.len() == 7);
    assert("delete"@.len() == 6);
    assert("table"@[0] == 't' && "chain"@[0] == 'c' && "rule"@.len() == 4);
    assert("inet"@.len() == 4 && "nat"@.len() == 3);
    assert("accept"@.len() == 6 && "drop"@.len() == 4);
}

proof fn one_more(f: Firewall, plan: Seq<CommandModel>, c: CommandModel)
    ensures
        after_commands(f, plan.push(c)) == after_command(after_commands(f, plan), c),
{
    assert(plan.push(c).drop_last() =~= plan);
}

proof fn set_is_made(f: Firewall, spec: VmNetworkSpec)
    requires
        !f.sets.contains_key(set_name(spec.vm_id@)),
    ensures
        after_command(f, create_set(spec)) == (Firewall {
            sets: f.sets.insert(set_name(spec.vm_id@), Set::empty()),
            ..f
        }),
{
    words_differ();
}

proof fn table_is_made(f: Firewall, spec: VmNetworkSpec)
    ensures
        after_command(f, create_table(spec)) == (Firewall {
            tables: f.tables.insert(table_name(spec.vm_id@)),
            ..f
        }),
{
    words_differ();
    let c = create_table(spec);
    assert(c.program != "ipset"@);
}

proof fn chain_is_made(f: Firewall, spec: VmNetworkSpec)
    requires
        f.tables.contains(table_name(spec.vm_id@)),
        !f.chains.contains_key(table_name(spec.vm_id@)),
    ensures
        after_command(f, create_chain(spec)) == (Firewall {
            chains: f.chains.insert(table_name(spec.vm_id@), Seq::empty()),
            ..f
        }),
{
    words_differ();
    let c = create_chain(spec);
    assert(c.args.subrange(5, 14) =~= seq![
        "{"@,
        "type"@,
        "filter"@,
        "hook"@,
        "forward"@,
        "priority"@,
        "0"@,
        ";"@,
        "}"@,
    ]);
}

/// The rules that a plan adds for a network, as rules.
proof fn rules_are_added(f: Firewall, spec: VmNetworkSpec)
    ensures
        after_command(f, drop_rule(spec)) == with_rule(
            f,
            table_name(spec.vm_id@),
            Rule { from: spec.tap_name@, to: None, verdict: "drop"@ },
        ),
        after_command(f, accept_rule(spec)) == with_rule(
            f,
            table_name(spec.vm_id@),
            Rule { from: spec.tap_name@, to: None, verdict: "accept"@ },
        ),
        after_command(f, accept_listed_rule(spec)) == with_rule(
            f,
            table_name(spec.vm_id@),
            Rule {
                from: spec.tap_name@,
                to: Some(set_name(spec.vm_id@)),
                verdict: "accept"@,
            },
        ),
        after_command(f, masquerade(spec)) == (Firewall {
            hidden: f.hidden.insert((spec.guest_ip@, spec.host_iface@)),
            ..f
        }),
{
    words_differ();
    reveal_strlit("@");
    let reference = "@"@ + set_name(spec.vm_id@);
    assert(reference.subrange(1, reference.len() as int) =~= set_name(spec.vm_id@));
    assert(reference[0] == '@');
    let m = masquerade(spec);
    assert(begins(m, "nft"@, seq!["add"@, "rule"@, "nat"@, "postrouting"@, "ip"@, "saddr"@]));
}

proof fn addresses_are_added(f: Firewall, vm_id: Seq<char>, ips: Seq<Seq<char>>)
    requires
        f.sets.contains_key(set_name(vm_id)),
    ensures
        ({
            let g = after_commands(f, population_plan(vm_id, ips));
            &&& g == (Firewall { sets: g.sets, ..f })
            &&& g.sets.dom() == f.sets.dom()
            &&& forall|a: Seq<char>| #[trigger]
                g.sets[set_name(vm_id)].contains(a) <==> f.sets[set_name(vm_id)].contains(a)
                    || ips.contains(a)
            &&& forall|s: Seq<char>| s != set_name(vm_id) && f.sets.contains_key(s)
                ==> #[trigger] g.sets[s] == f.sets[s]
        }),
    decreases ips.len(),
{
    words_differ();
    let plan = population_plan(vm_id, ips);
    if ips.len() > 0 {
        let init = ips.drop_last();
        addresses_are_added(f, vm_id, init);
        assert(plan.drop_last() =~= population_plan(vm_id, init));
        let h = after_commands(f, population_plan(vm_id, init));
        let c = plan.last();
        assert(c.args[1] == set_name(vm_id) && c.args[2] == ips.last());
        assert(!begins(c, "ipset"@, seq!["create"@])) by {
            assert(seq!["create"@][0] != c.args[0]);
        }
        assert(begins(c, "ipset"@, seq!["add"@]));
        let g = after_command(h, c);
        assert(g == after_commands(f, plan));
        assert(g.sets.dom() =~= f.sets.dom());
        assert forall|a: Seq<char>| ips.contains(a) <==> init.contains(a) || a == ips.last() by {
            if ips.contains(a) {
                let i = choose|i: int| 0 <= i < ips.len() && ips[i] == a;
                if i < init.len() {
                    assert(init[i] == a);
                }
            }
            if init.contains(a) {
                let i = choose|i: int| 0 <= i < init.len() && init[i] == a;
                assert(ips[i] == a);
            }
            if a == ips.last() {
                assert(ips[ips.len() - 1] == a);
            }
        }
    }
}

/// The firewall of a host with that of a machine put up, its set being filled with addresses.
pub open spec fn fenced(
    f: Firewall,
    spec: VmNetworkSpec,
    mode: NetworkModel,
    ips: Seq<Seq<char>>,
) -> Firewall {
    after_commands(after_commands(f, apply_plan(spec, mode)), population_plan(spec.vm_id@, ips))
}

proof fn fence_is_up(f: Firewall, spec: VmNetworkSpec, mode: NetworkModel)
    requires
        knows_nothing_of(f, spec.vm_id@),
    ensures
        ({
            let g = after_commands(f, apply_plan(spec, mode));
            let table = table_name(spec.vm_id@);
            let from = spec.tap_name@;
            let shut = Rule { from, to: None, verdict: "drop"@ };
            let open = Rule { from, to: None, verdict: "accept"@ };
            let listed = Rule { from, to: Some(set_name(spec.vm_id@)), verdict: "accept"@ };
            &&& g.sets == f.sets.insert(set_name(spec.vm_id@), Set::empty())
            &&& g.tables == f.tables.insert(table)
            &&& g.chains == f.chains.insert(
                table,
                match mode {
                    NetworkModel::NoNetwork => seq![shut],
                    NetworkModel::Full => seq![open],
                    NetworkModel::Allowlist(_) => seq![listed, shut],
                },
            )
            &&& g.hidden == f.hidden.insert((spec.guest_ip@, spec.host_iface@))
        }),
{
    let table = table_name(spec.vm_id@);
    let none = Seq::<CommandModel>::empty();
    let p1 = none.push(create_set(spec));
    let p2 = p1.push(create_table(spec));
    let p3 = p2.push(create_chain(spec));
    one_more(f, none, create_set(spec));
    one_more(f, p1, create_table(spec));
    one_more(f, p2, create_chain(spec));
    set_is_made(f, spec);
    let f1 = after_commands(f, p1);
    table_is_made(f1, spec);
    let f2 = after_commands(f, p2);
    chain_is_made(f2, spec);
    let f3 = after_commands(f, p3);
    rules_are_added(f3, spec);
    let nothing = Seq::<Rule>::empty();
    let from = spec.tap_name@;
    let shut = Rule { from, to: None, verdict: "drop"@ };
    let open = Rule { from, to: None, verdict: "accept"@ };
    let listed = Rule { from, to: Some(set_name(spec.vm_id@)), verdict: "accept"@ };
    match mode {
        NetworkModel::NoNetwork => {
            one_more(f, p3, drop_rule(spec));
            let p4 = p3.push(drop_rule(spec));
            let f4 = after_commands(f, p4);
            rules_are_added(f4, spec);
            one_more(f, p4, masquerade(spec));
            assert(apply_plan(spec, mode) =~= p4.push(masquerade(spec)));
            assert(nothing.push(shut) =~= seq![shut]);
            assert(f4.chains =~= f.chains.insert(table, seq![shut]));
        },
        NetworkModel::Full => {
            one_more(f, p3, accept_rule(spec));
            let p4 = p3.push(accept_rule(spec));
            let f4 = after_commands(f, p4);
            rules_are_added(f4, spec);
            one_more(f, p4, masquerade(spec));
            assert(apply_plan(spec, mode) =~= p4.push(masquerade(spec)));
            assert(nothing.push(open) =~= seq![open]);
            assert(f4.chains =~= f.chains.insert(table, seq![open]));
        },
        NetworkModel::Allowlist(_) => {
            one_more(f, p3, accept_listed_rule(spec));
            let p4 = p3.push(accept_listed_rule(spec));
            let f4 = after_commands(f, p4);
            rules_are_added(f4, spec);
            one_more(f, p4, drop_rule(spec));
            let p5 = p4.push(drop_rule(spec));
            let f5 = after_commands(f, p5);
            rules_are_added(f5, spec);
            one_more(f, p5, masquerade(spec));
            assert(apply_plan(spec, mode) =~= p5.push(masquerade(spec)));
            assert(nothing.push(listed).push(shut) =~= seq![listed, shut]);
            assert(f5.chains =~= f.chains.insert(table, seq![listed, shut]));
        },
    }
}

/// The firewall of a machine does what its network mode says: with no network every packet of the
/// machine is dropped, with the full network every packet is let through, and with an allowlist
/// exactly those are let through that go to an address that was put into its set; the others are
/// dropped. It says nothing of packets from elsewhere. What leaves the host for the machine carries
/// the address of the host.
pub proof fn firewalls_do_what_the_mode_says(
    f: Firewall,
    spec: VmNetworkSpec,
    mode: NetworkModel,
    ips: Seq<Seq<char>>,
    to: Seq<char>,
    other: Seq<char>,
)
    requires
        knows_nothing_of(f, spec.vm_id@),
        other != spec.tap_name@,
    ensures
        ({
            let g = fenced(f, spec, mode, ips);
            &&& fate(g, spec.vm_id@, spec.tap_name@, to) == Some(
                match mode {
                    NetworkModel::NoNetwork => "drop"@,
                    NetworkModel::Full => "accept"@,
                    NetworkModel::Allowlist(_) => if ips.contains(to) {
                        "accept"@
                    } else {
                        "drop"@
                    },
                },
            )
            &&& fate(g, spec.vm_id@, other, to) is None
            &&& g.hidden.contains((spec.guest_ip@, spec.host_iface@))
        }),
{
    fence_is_up(f, spec, mode);
    let g = after_commands(f, apply_plan(spec, mode));
    addresses_are_added(g, spec.vm_id@, ips);
    let h = fenced(f, spec, mode, ips);
    let rules = h.chains[table_name(spec.vm_id@)];
    reveal_with_fuel(verdict_of, 3);
    let rest = rules.subrange(1, rules.len() as int);
    assert(g.sets[set_name(spec.vm_id@)] == Set::<Seq<char>>::empty());
    if mode is Allowlist {
        assert(rest =~= seq![rules[1]]);
        assert(rest.subrange(1, 1) =~= Seq::<Rule>::empty());
        assert(h.sets[set_name(spec.vm_id@)].contains(to) <==> ips.contains(to));
        assert(h.sets.dom().contains(set_name(spec.vm_id@)));
    } else {
        assert(rest =~= Seq::<Rule>::empty());
    }
}

/// Taking the firewall of a machine down leaves the sets, the tables and the rules that were there
/// before it was put up.
pub proof fn firewalls_go_without_a_trace(
    f: Firewall,
    spec: VmNetworkSpec,
    mode: NetworkModel,
    ips: Seq<Seq<char>>,
)
    requires
        knows_nothing_of(f, spec.vm_id@),
    ensures
        ({
            let g = after_commands(fenced(f, spec, mode, ips), teardown_plan(spec));
            &&& g.sets == f.sets
            &&& g.tables == f.tables
            &&& g.chains == f.chains
        }),
{
    words_differ();
    fence_is_up(f, spec, mode);
    let u = after_commands(f, apply_plan(spec, mode));
    addresses_are_added(u, spec.vm_id@, ips);
    let h = fenced(f, spec, mode, ips);
    let none = Seq::<CommandModel>::empty();
    let plan = teardown_plan(spec);
    let p1 = none.push(plan[0]);
    one_more(h, none, plan[0]);
    one_more(h, p1, plan[1]);
    assert(plan =~= p1.push(plan[1]));
    let delete = plan[0];
    let destroy = plan[1];
    assert(!begins(delete, "nft"@, seq!["add"@, "table"@, "inet"@])) by {
        assert(seq!["add"@, "table"@, "inet"@][0] != delete.args[0]);
    }
    assert(begins(delete, "nft"@, seq!["delete"@, "table"@, "inet"@]));
    assert(begins(destroy, "ipset"@, seq!["destroy"@]));
    let g = after_commands(h, plan);
    assert(g.tables =~= f.tables);
    assert(g.chains =~= f.chains);
    assert(g.sets =~= f.sets) by {
        assert forall|s: Seq<char>| f.sets.contains_key(s) implies g.sets.contains_key(s)
            && g.sets[s] == f.sets[s] by {
            assert(u.sets.contains_key(s));
            assert(h.sets.dom().contains(s));
            assert(h.sets[s] == u.sets[s]);
        }
        assert forall|s: Seq<char>| g.sets.contains_key(s) implies f.sets.contains_key(s) by {
            assert(h.sets.dom().contains(s));
            assert(u.sets.dom().contains(s));
        }
    }
}

/// Machines do not share anything: putting up the firewall of another one changes nothing for
/// this one.
pub proof fn machines_are_fenced_apart(
    f: Firewall,
    spec: VmNetworkSpec,
    mode: NetworkModel,
    vm_id: Seq<char>,
    from: Seq<char>,
    to: Seq<char>,
)
    requires
        knows_nothing_of(f, spec.vm_id@),
        spec.vm_id@ != vm_id,
        f.chains.contains_key(table_name(vm_id)) ==> forall|i: int|
            0 <= i < f.chains[table_name(vm_id)].len() ==> ((
            #[trigger] f.chains[table_name(vm_id)][i]).to matches Some(s) ==> s == set_name(vm_id)),
    ensures
        fate(after_commands(f, apply_plan(spec, mode)), vm_id, from, to) == fate(
            f,
            vm_id,
            from,
            to,
        ),
{
    fence_is_up(f, spec, mode);
    let g = after_commands(f, apply_plan(spec, mode));
    let a = spec.vm_id@;
    reveal_strlit("vm_");
    assert(table_name(a) != table_name(vm_id)) by {
        assert(table_name(a).subrange(3, table_name(a).len() as int) =~= a);
        assert(table_name(vm_id).subrange(3, table_name(vm_id).len() as int) =~= vm_id);
    }
    assert(set_name(a) != set_name(vm_id)) by {
        reveal_strlit("_allowed");
        assert(set_name(a).subrange(3, set_name(a).len() - 8) =~= a);
        assert(set_name(vm_id).subrange(3, set_name(vm_id).len() - 8) =~= vm_id);
    }
    if f.chains.contains_key(table_name(vm_id)) {
        same_verdict(f.chains[table_name(vm_id)], f, g, set_name(vm_id), from, to);
    }
}

proof fn same_verdict(
    rules: Seq<Rule>,
    f: Firewall,
    g: Firewall,
    list: Seq<char>,
    from: Seq<char>,
    to: Seq<char>,
)
    requires
        forall|i: int|
            0 <= i < rules.len() ==> ((#[trigger] rules[i]).to matches Some(s) ==> s == list),
        f.sets.contains_key(list) == g.sets.contains_key(list),
        f.sets.contains_key(list) ==> f.sets[list] == g.sets[list],
    ensures
        verdict_of(rules, f, from, to) == verdict_of(rules, g, from, to),
    decreases rules.len(),
{
    if rules.len() > 0 {
        let rest = rules.subrange(1, rules.len() as int);
        assert forall|i: int| 0 <= i < rest.len() implies ((#[trigger] rest[i]).to matches Some(s)
            ==> s == list) by {
            assert(rest[i] == rules[i + 1]);
        }
        same_verdict(rest, f, g, list, from, to);
        assert(speaks_of(rules[0], f, from, to) == speaks_of(rules[0], g, from, to));
    }
}

} // verus!
