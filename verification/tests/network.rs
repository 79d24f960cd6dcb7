//! Names that may be reached, and the firewall around a machine.

use hyperbox::config::{Allowlist, AllowlistEntry, NetworkMode};
use hyperbox::network::dns_proxy::{
    accepted_response, fixed_answer, DnsAllowlistProxy, DnsQuestion, DnsRequest, HostIp,
    QueryVerdict, RequestVerdict, NXDOMAIN,
};
use hyperbox::network::firewall::{
    build_allowlist_population_plan, build_apply_plan, build_teardown_plan, CommandSpec,
    CommandStep, FirewallManager, RecordingExecutor, RunCommands, VmNetworkSpec,
};
use hyperbox::network::policy::NetworkPolicyEvaluator;

fn spec() -> VmNetworkSpec {
    VmNetworkSpec {
        vm_id: "abc".to_string(),
        tap_name: "tap0".to_string(),
        host_iface: "eth0".to_string(),
        guest_cidr: "172.16.0.0/30".to_string(),
        guest_ip: "172.16.0.2".to_string(),
    }
}

fn allowlist(domains: &[&str]) -> NetworkMode {
    let domains: Vec<String> = domains.iter().map(|d| d.to_string()).collect();
    NetworkMode::Allowlist(Allowlist::parse(&domains).expect("allowlist"))
}

#[test]
fn lib_wildcard_requires_subdomain() {
    let pattern = AllowlistEntry::parse("*.github.com").expect("pattern");
    assert!(pattern.matches("api.github.com"));
    assert!(!pattern.matches("github.com"));
}

#[test]
fn network_modes_behave() {
    let mode = allowlist(&["api.openai.com", "*.github.com"]);
    let eval = NetworkPolicyEvaluator::new(&mode);
    assert!(eval.allows_domain(&mode, "api.openai.com"));
    assert!(eval.allows_domain(&mode, "gist.github.com"));
    assert!(!eval.allows_domain(&mode, "example.com"));
}

#[test]
fn allowlist_plan_contains_ipset_reference() {
    let plan = build_apply_plan(&spec(), &allowlist(&["api.openai.com"]));
    assert!(plan
        .iter()
        .any(|c| c.args.iter().any(|a| a.contains("@vm_abc_allowed"))));
}

#[test]
fn closed_networks_have_no_rule_that_lets_through() {
    let accepts = |mode: &NetworkMode| -> Vec<String> {
        build_apply_plan(&spec(), mode)
            .into_iter()
            .map(|c| c.args.join(" "))
            .filter(|line| line.contains("accept") && !line.contains("policy"))
            .collect()
    };
    assert!(accepts(&NetworkMode::NoNetwork).is_empty());
    assert!(accepts(&allowlist(&["a.org"])).iter().all(|line| line.contains("@vm_abc_allowed")));
    assert!(!accepts(&allowlist(&["a.org"])).is_empty());
}

#[test]
fn firewalls_are_taken_down_as_they_were_put_up() {
    let mut manager = FirewallManager::new(RecordingExecutor::default());
    manager.apply(&spec(), &allowlist(&["a.org"])).expect("apply");
    let made: Vec<String> = manager
        .executor
        .commands
        .iter()
        .map(|c| format!("{} {}", c.program, c.args.join(" ")))
        .collect();
    assert!(made.iter().any(|c| c.starts_with("nft") && c.contains("vm_abc")));
    let before = made.len();
    manager.teardown(&spec()).expect("teardown");
    let gone = &manager.executor.commands[before..];
    assert_eq!(gone, build_teardown_plan(&spec()).as_slice());
    let gone: Vec<String> = gone
        .iter()
        .map(|c| format!("{} {}", c.program, c.args.join(" ")))
        .collect();
    assert!(gone.iter().any(|c| c.contains("delete") && c.contains("vm_abc")));
}

#[test]
fn addresses_are_put_into_the_set() {
    let plan = build_allowlist_population_plan("abc", &vec!["1.2.3.4".to_string()]);
    assert!(plan
        .iter()
        .any(|c| c.args.contains(&"1.2.3.4".to_string()) && c.args.contains(&"vm_abc_allowed".to_string())));
}

#[test]
fn names_are_looked_up_in_lower_case() {
    let mode = allowlist(&["Example.com", "*.github.com"]);
    let eval = NetworkPolicyEvaluator::new(&mode);
    assert!(eval.allows_domain(&mode, "EXAMPLE.com"));
    assert!(!eval.allows_domain(&mode, "EXAMPLE.com."));
    assert!(!eval.allows_domain(&mode, "badexample.com"));
    assert!(!eval.allows_domain(&mode, "a.example.com"));
    let none = NetworkPolicyEvaluator::new(&NetworkMode::NoNetwork);
    assert!(!none.allows_domain(&NetworkMode::NoNetwork, "example.com"));
    let full = NetworkPolicyEvaluator::new(&NetworkMode::Full);
    assert!(full.allows_domain(&NetworkMode::Full, "anything.example"));
    assert!(full.allows_domain(&NetworkMode::Full, "\u{17f}\u{212a}"));
    assert!(!full.allows_domain(&NetworkMode::Full, "a_b"));
    assert!(!full.allows_domain(&NetworkMode::Full, ""));
    assert!(!full.allows_domain(&NetworkMode::Full, "a\n"));
}

fn query(name: &str) -> Vec<u8> {
    let mut message = hickory_proto::op::Message::new();
    message.set_id(1234);
    message.add_query(hickory_proto::op::Query::query(
        name.parse().expect("a name"),
        hickory_proto::rr::RecordType::A,
    ));
    message.to_vec().expect("a packet")
}

#[test]
fn names_that_are_not_allowed_do_not_exist() {
    let proxy = DnsAllowlistProxy::new(allowlist(&["api.openai.com"]), "1.1.1.1:53".to_string());
    match proxy.handle_query(&query("example.com.")).expect("a verdict") {
        QueryVerdict::Answer(bytes) => {
            let answer = hickory_proto::op::Message::from_vec(&bytes).expect("an answer");
            assert_eq!(answer.id(), 1234);
            assert_eq!(answer.response_code(), hickory_proto::op::ResponseCode::NXDomain);
            assert_eq!(answer.message_type(), hickory_proto::op::MessageType::Response);
            assert_eq!(answer.queries().len(), 1);
            assert_eq!(answer.queries()[0].name().to_string(), "example.com.");
        }
        QueryVerdict::Forward => panic!("the name is not allowed"),
    }
    assert!(matches!(
        proxy.handle_query(&query("api.openai.com.")).expect("a verdict"),
        QueryVerdict::Forward
    ));
    assert!(proxy.handle_query(b"nonsense").is_err());
}

#[test]
fn answers_are_handed_on_with_their_addresses() {
    let mut message = hickory_proto::op::Message::from_vec(&query("api.openai.com.")).expect("a packet");
    let record = |data: hickory_proto::rr::RData| {
        hickory_proto::rr::Record::from_rdata("api.openai.com.".parse().expect("a name"), 60, data)
    };
    message.add_answer(record(hickory_proto::rr::RData::A(hickory_proto::rr::rdata::A::new(1, 2, 3, 4))));
    message.add_answer(record(hickory_proto::rr::RData::AAAA(
        hickory_proto::rr::rdata::AAAA::new(0, 0, 0, 0, 0, 0, 0, 1),
    )));
    let packet = message.to_vec().expect("a packet");
    let proxy = DnsAllowlistProxy::new(NetworkMode::Full, "1.1.1.1:53".to_string());
    let (bytes, found) = proxy.handle_upstream(packet.clone()).expect("an answer");
    assert_eq!(bytes, packet);
    let found: Vec<(HostIp, u32)> = found.into_iter().map(|f| (f.ip, f.ttl_secs)).collect();
    assert_eq!(found, vec![(HostIp::V4(0x0102_0304), 60), (HostIp::V6(1), 60)]);
}

#[test]
fn names_of_any_bytes_are_answered() {
    let mut message = hickory_proto::op::Message::new();
    message.set_id(9);
    let labels: Vec<&[u8]> = vec![b"-a b", b"\xff\\", b"com"];
    let name = hickory_proto::rr::Name::from_labels(labels).expect("a name");
    let question = hickory_proto::op::Query::query(name, hickory_proto::rr::RecordType::TXT);
    message.add_query(question.clone());
    let packet = message.to_vec().expect("a packet");
    let proxy = DnsAllowlistProxy::new(NetworkMode::Full, "1.1.1.1:53".to_string());
    match proxy.handle_query(&packet).expect("a verdict") {
        QueryVerdict::Answer(bytes) => {
            let answer = hickory_proto::op::Message::from_vec(&bytes).expect("an answer");
            assert_eq!(answer.response_code(), hickory_proto::op::ResponseCode::NXDomain);
            assert_eq!(answer.queries(), &[question]);
        }
        QueryVerdict::Forward => panic!("no such name can be looked up"),
    }
}

#[test]
fn every_name_has_the_fixed_address() {
    let mut message = hickory_proto::op::Message::new();
    message.set_id(0x1234);
    for (name, kind) in [
        ("a.org.", hickory_proto::rr::RecordType::A),
        ("b.org.", hickory_proto::rr::RecordType::AAAA),
        ("C.example.", hickory_proto::rr::RecordType::A),
    ] {
        let name = hickory_proto::rr::Name::from_ascii(name).expect("a name");
        message.add_query(hickory_proto::op::Query::query(name, kind));
    }
    let bytes = fixed_answer(&message.to_vec().expect("a packet")).expect("an answer");
    let answer = hickory_proto::op::Message::from_vec(&bytes).expect("a message");
    assert_eq!(answer.id(), 0x1234);
    assert_eq!(answer.message_type(), hickory_proto::op::MessageType::Response);
    assert_eq!(answer.op_code(), hickory_proto::op::OpCode::Query);
    assert_eq!(answer.response_code(), hickory_proto::op::ResponseCode::NoError);
    assert_eq!(answer.queries(), message.queries());
    let records: Vec<_> = answer
        .answers()
        .iter()
        .map(|r| (r.name().to_ascii(), r.ttl(), r.data().map(|d| d.to_string())))
        .collect();
    let fixed = |name: &str| (name.to_string(), 60, Some("203.0.113.10".to_string()));
    assert_eq!(records, vec![fixed("a.org."), fixed("C.example.")]);
    assert!(fixed_answer(&[1, 2, 3]).is_err());

    let request = DnsRequest { id: 9, questions: vec![] };
    let reply = accepted_response(&request);
    assert_eq!((reply.id, reply.op_code, reply.response_code), (9, 0, 0));
    assert!(reply.questions.is_empty() && reply.records.is_empty());
}

#[test]
fn requests_are_judged_by_their_first_name() {
    let question = |name: &str| DnsQuestion {
        name: name.to_string(),
        labels: name.split('.').filter(|l| !l.is_empty()).map(|l| l.as_bytes().to_vec()).collect(),
        kind: 1,
        class: 1,
    };
    let proxy = DnsAllowlistProxy::new(allowlist(&["pypi.org"]), "1.1.1.1:53".to_string());
    let mut request = DnsRequest {
        id: 7,
        questions: vec![question("pypi.org."), question("example.com.")],
    };
    assert_eq!(proxy.judge(&request), RequestVerdict::Forward);
    request.questions.swap(0, 1);
    match proxy.judge(&request) {
        RequestVerdict::Deny(reply) => {
            assert_eq!((reply.id, reply.op_code), (7, 0));
            assert_eq!(reply.response_code, NXDOMAIN);
            assert_eq!(reply.questions, request.questions);
        }
        RequestVerdict::Forward => panic!("the name is not allowed"),
    }
    request.questions.clear();
    assert!(matches!(proxy.judge(&request), RequestVerdict::Deny(_)));
}

/// Runs a plan in which one command fails: what was run, and what it came to.
fn run_failing(plan: Vec<CommandSpec>, fails_at: usize) -> (Vec<CommandSpec>, Result<(), String>) {
    let mut given = vec![];
    let mut step = RunCommands::begin(plan);
    loop {
        match step {
            CommandStep::Done(result) => return (given, result),
            CommandStep::Run(command, op) => {
                let at = given.len();
                given.push(command);
                step = op.resume(if at == fails_at {
                    Err(format!("command {at} failed"))
                } else {
                    Ok(())
                });
            }
        }
    }
}

#[test]
fn commands_stop_at_the_first_that_fails() {
    let plan = || build_apply_plan(&spec(), &allowlist(&["a.org"]));
    let n = plan().len();
    for fails_at in 0..=n {
        let (given, result) = run_failing(plan(), fails_at);
        if fails_at < n {
            assert_eq!(result, Err(format!("command {fails_at} failed")));
            assert_eq!(given, plan()[..=fails_at]);
        } else {
            assert_eq!(result, Ok(()));
            assert_eq!(given, plan());
        }
    }
    assert_eq!(run_failing(vec![], 0), (vec![], Ok(())));
}
