//! The small things that everything else is built from.

use hyperbox::affinity::{derive_auto_run_affinity_name, fnv1a64, sanitize_affinity_component};
use hyperbox::codec::{json_text_at, quote_list, JsonStep};
use hyperbox::config::{Allowlist, AllowlistEntry, NetworkMode};
use hyperbox::env::{env_clone, env_from_pairs, env_pairs};
use hyperbox::error::HyperboxError;
use hyperbox::model::SandboxId;
use hyperbox::numbers::{
    hex_text, i64_text, parse_i32, parse_i64, parse_u16, parse_u32, parse_u64, u128_text, u64_text,
    IntError,
};
use hyperbox::paths::{is_absolute, join_path, path_of, relative_names, PathFault};
use hyperbox::process::ProcessId;
use hyperbox::shell::{shell_escape, shell_join};
use hyperbox::snapshot::{snapshot_artifact_path, snapshot_root, state_db_path, SnapshotId};
use hyperbox::stats::{percentile, sort_samples, summarize_samples};
use hyperbox::table::Table;
use hyperbox::text::{
    contains, join, less, replace_char, split, split_once, split_once_text, take_chars,
    take_first_line, take_first_word, take_second_word, to_lowercase, trim, trim_matches,
};
use hyperbox::time::Timestamp;

fn strings(list: &[&str]) -> Vec<String> {
    list.iter().map(|s| s.to_string()).collect()
}

#[test]
fn texts_are_cut_and_put_together() {
    assert_eq!(trim(" \t a b\u{a0}\n"), "a b");
    assert_eq!(to_lowercase("AbC-É"), "abc-É");
    assert_eq!(split("a,,b", ','), strings(&["a", "", "b"]));
    assert_eq!(join(&strings(&["a", "", "b"]), ", "), "a, , b");
    assert_eq!(replace_char("a.b.c", '.', "--"), "a--b--c");
    assert_eq!(trim_matches("--a-b--", '-'), "a-b");
    assert_eq!(take_chars("héllo", 2), "hé");
    assert_eq!(
        split_once("k=v=w", '='),
        Some(("k".to_string(), "v=w".to_string()))
    );
    assert_eq!(split_once("kv", '='), None);
    assert_eq!(
        split_once_text("a--b--c", "--"),
        Some(("a".to_string(), "b--c".to_string()))
    );
    assert_eq!(take_first_word("  one two"), "one");
    assert_eq!(take_second_word("HTTP/1.1 204 No Content"), "204");
    assert_eq!(take_first_line("one\r\ntwo"), "one");
    assert!(contains("abcdef", "cde"));
    assert!(!contains("abcdef", "ced"));
    assert!(less("ab", "abc"));
    assert!(less("abc", "b"));
    assert!(!less("b", "b"));
}

#[test]
fn numbers_read_back_what_was_written() {
    for n in [0u64, 7, 10, 4096, u64::MAX] {
        assert_eq!(parse_u64(u64_text(n).as_str()), Ok(n));
    }
    for n in [i64::MIN, -1, 0, 42, i64::MAX] {
        assert_eq!(parse_i64(i64_text(n).as_str()), Ok(n));
    }
    assert_eq!(u128_text(u128::MAX), u128::MAX.to_string());
    assert_eq!(hex_text(0xbeef, 8), "0000beef");
}

#[test]
fn numbers_that_are_none_are_refused() {
    assert_eq!(parse_u32(""), Err(IntError::Empty));
    assert_eq!(parse_u32("12a"), Err(IntError::InvalidDigit));
    assert_eq!(parse_u16("65536"), Err(IntError::PosOverflow));
    assert_eq!(parse_i32("-2147483649"), Err(IntError::NegOverflow));
    assert_eq!(parse_i32("+17"), Ok(17));
    assert_eq!(parse_u32("-1"), Err(IntError::InvalidDigit));
    for bad in ["", "12a", "65536", "-"] {
        assert_eq!(
            parse_u16(bad).unwrap_err().message(),
            bad.parse::<u16>().unwrap_err().to_string()
        );
    }
}

#[test]
fn identifiers_read_back_what_was_written() {
    let raw = 0x0123_4567_89ab_cdef_0123_4567_89ab_cdef_u128;
    assert_eq!(SandboxId(raw).text(), "01234567-89ab-cdef-0123-456789abcdef");
    assert_eq!(SandboxId::parse("01234567-89ab-cdef-0123-456789abcdef"), Ok(SandboxId(raw)));
    assert_eq!(SandboxId::parse("0123456789ABCDEF0123456789abcdef"), Ok(SandboxId(raw)));
    let process = ProcessId::new();
    assert_eq!(ProcessId::parse(process.text().as_str()), Ok(process));
    let snapshot = SnapshotId::new();
    assert_eq!(SnapshotId::parse(snapshot.text().as_str()), Ok(snapshot));
    assert_ne!(ProcessId::new(), ProcessId::new());
    assert_eq!(
        SandboxId::parse("nope").unwrap_err(),
        uuid::Uuid::parse_str("nope").unwrap_err().to_string()
    );
}

#[test]
fn times_read_back_what_was_written() {
    let time = Timestamp::new(1_767_225_600, 5_000_000).expect("a time of the calendar");
    assert_eq!(time.to_rfc3339(), "2026-01-01T00:00:00.005+00:00");
    assert_eq!(Timestamp::parse("2026-01-01T00:00:00.005+00:00"), Ok(time));
    assert_eq!(Timestamp::parse("2026-01-01T01:00:00.005+01:00"), Ok(time));
    assert!(Timestamp::parse("yesterday").is_err());
    assert!(Timestamp::new(0, 1_000_000_000).is_none());
    assert!(Timestamp::new(i64::MAX, 0).is_none());
    let later = time.plus_days(7);
    assert_eq!(later.to_rfc3339(), "2026-01-08T00:00:00.005+00:00");
    assert_eq!(later.millis_after(&time), 7 * 86_400_000);
    assert_eq!(time.millis_after(&later), 0);
    assert!(time.at_or_before(&later));
    assert!(!later.at_or_before(&time));
    assert!(time.less_than_after(&later, 1));
}

#[test]
fn times_at_the_edge_of_the_calendar_are_those_of_chrono() {
    assert!(Timestamp::new(hyperbox::time::MAX_SECS, 0).is_some());
    assert!(Timestamp::new(hyperbox::time::MAX_SECS + 1, 0).is_none());
    assert!(chrono::DateTime::from_timestamp(hyperbox::time::MAX_SECS, 0).is_some());
    assert!(chrono::DateTime::from_timestamp(hyperbox::time::MAX_SECS + 1, 0).is_none());
    assert!(chrono::DateTime::from_timestamp(hyperbox::time::MIN_SECS, 0).is_some());
    assert!(chrono::DateTime::from_timestamp(hyperbox::time::MIN_SECS - 1, 0).is_none());
}

#[test]
fn a_shell_word_keeps_quotes() {
    assert_eq!(shell_escape("a b"), "'a b'");
    assert_eq!(shell_escape("it's"), "'it'\"'\"'s'");
    assert_eq!(shell_join(&strings(&["echo", "a b"])), "'echo' 'a b'");
}

#[test]
fn hashes_are_those_of_fnv() {
    assert_eq!(fnv1a64(b""), 0xcbf29ce484222325);
    assert_eq!(fnv1a64(b"a"), 0xaf63dc4c8601ec8c);
    assert_eq!(fnv1a64(b"foobar"), 0x85944171f73967e8);
}

#[test]
fn parts_of_names_are_plain() {
    assert_eq!(sanitize_affinity_component("Python:3.12", 18), "python-3-12");
    assert_eq!(sanitize_affinity_component("--x--", 18), "x");
    assert_eq!(sanitize_affinity_component("abc-def", 4), "abc");
    assert_eq!(sanitize_affinity_component("!!!", 18), "sandbox");
}

#[test]
fn session_names_depend_on_template_workspace_and_network() {
    let name = derive_auto_run_affinity_name("python:3.12", Some("/w"), &NetworkMode::NoNetwork);
    let hash = fnv1a64(b"python:3.12\n/w\nnone");
    assert_eq!(name, format!("auto-python-3-12-{hash:016x}"));
    assert_eq!(name.len(), 22 + "python-3-12".len());
    assert_eq!(
        name,
        derive_auto_run_affinity_name("python:3.12", Some("/w"), &NetworkMode::NoNetwork)
    );
    assert_ne!(
        name,
        derive_auto_run_affinity_name("python:3.12", Some("/v"), &NetworkMode::NoNetwork)
    );
    assert_ne!(
        name,
        derive_auto_run_affinity_name("python:3.12", Some("/w"), &NetworkMode::Full)
    );
    let list = Allowlist::parse(&strings(&["pypi.org", "*.github.com"])).expect("allowlist");
    let hash = fnv1a64(b"python:3.12\n\nallowlist:pypi.org,*.github.com");
    assert_eq!(
        derive_auto_run_affinity_name("python:3.12", None, &NetworkMode::Allowlist(list)),
        format!("auto-python-3-12-{hash:016x}")
    );
}

#[test]
fn environments_keep_their_order() {
    let pairs = vec![
        ("B".to_string(), "1".to_string()),
        ("A".to_string(), "2".to_string()),
        ("B".to_string(), "3".to_string()),
    ];
    let map = env_from_pairs(&pairs);
    let expected = vec![
        ("B".to_string(), "3".to_string()),
        ("A".to_string(), "2".to_string()),
    ];
    assert_eq!(env_pairs(&map), expected);
    assert_eq!(env_pairs(&env_clone(&map)), expected);
    assert_eq!(env_pairs(&env_from_pairs(&env_pairs(&map))), expected);
}

#[test]
fn samples_are_sorted_and_summed() {
    assert_eq!(sort_samples(vec![3, 1, 2, 1]), vec![1, 1, 2, 3]);
    let figures = summarize_samples(vec![40, 10, 30, 20]);
    assert_eq!(figures.runs, 4);
    assert_eq!(figures.sum_ms, 100);
    assert_eq!(figures.p50_ms, 20);
    assert_eq!(figures.p95_ms, 40);
    assert_eq!(figures.min_ms, 10);
    assert_eq!(figures.max_ms, 40);
    let nothing = summarize_samples(vec![]);
    assert_eq!((nothing.runs, nothing.p50_ms, nothing.max_ms), (0, 0, 0));
}

#[test]
fn percentiles_cover_their_share() {
    let values: Vec<u128> = (1..=20).collect();
    assert_eq!(percentile(&values, 50), 10);
    assert_eq!(percentile(&values, 95), 19);
    assert_eq!(percentile(&values, 100), 20);
    assert_eq!(percentile(&values, 0), 1);
    assert_eq!(percentile(&[], 50), 0);
    let covered = values.iter().filter(|v| **v <= percentile(&values, 95)).count();
    assert!(covered * 100 >= values.len() * 95);
}

#[test]
fn tables_hold_one_row_for_a_key() {
    let mut table: Table<String, u32> = Table::new();
    table.insert("a".to_string(), 1);
    table.insert("b".to_string(), 2);
    table.insert("a".to_string(), 3);
    assert_eq!(table.len(), 2);
    assert_eq!(table.get(&"a".to_string()), Some(&3));
    assert!(table.contains(&"b".to_string()));
    assert_eq!(table.take(&"b".to_string()), Some(2));
    assert_eq!(table.get(&"b".to_string()), None);
    assert!(table.remove(&"a".to_string()));
    assert!(!table.remove(&"a".to_string()));
    assert_eq!(table.len(), 0);
}

#[test]
fn paths_stay_below() {
    assert_eq!(relative_names("a/./b//c"), Ok(strings(&["a", "b", "c"])));
    assert_eq!(relative_names("/a"), Err(PathFault::Absolute));
    assert_eq!(relative_names("a/../b"), Err(PathFault::Traversal));
    assert_eq!(relative_names("./."), Err(PathFault::Empty));
    assert_eq!(path_of(&strings(&["a", "b"])), "a/b");
    assert_eq!(join_path("/root", "a/b"), "/root/a/b");
    assert_eq!(join_path("/root/", "a"), "/root/a");
    assert_eq!(join_path("/root", "/etc"), "/etc");
    assert!(is_absolute("/"));
    assert!(!is_absolute("a"));
}

#[test]
fn places_of_snapshots_and_state() {
    let id = SnapshotId(1);
    let home = Some("/home/u".to_string());
    assert_eq!(snapshot_root(None, home.clone(), "/tmp"), "/home/u/.hyperbox/snapshots");
    assert_eq!(snapshot_root(None, None, "/tmp"), "/tmp/hyperbox/snapshots");
    assert_eq!(
        snapshot_root(Some("/snap".to_string()), home.clone(), "/tmp"),
        "/snap"
    );
    assert_eq!(
        snapshot_artifact_path("/snap", id),
        "/snap/00000000-0000-0000-0000-000000000001.tar.gz"
    );
    assert_eq!(state_db_path(None, home.clone(), "/tmp"), "/home/u/.hyperbox/state.db");
    assert_eq!(state_db_path(None, None, "/tmp"), "/tmp/hyperbox/state.db");
    assert_eq!(
        state_db_path(Some("/x.db".to_string()), home, "/tmp"),
        "/x.db"
    );
}

#[test]
fn lists_are_quoted_as_debug_shows_them() {
    let list = strings(&["a", "say \"hi\"", "tab\t"]);
    assert_eq!(quote_list(&list), format!("{list:?}"));
    assert_eq!(quote_list(&vec![]), "[]");
}

#[test]
fn errors_say_what_went_wrong() {
    let cases = [
        (HyperboxError::InvalidConfig("x".to_string()), "invalid config: x"),
        (HyperboxError::TemplateNotFound("x".to_string()), "template not found: x"),
        (HyperboxError::SandboxNotFound("x".to_string()), "sandbox not found: x"),
        (HyperboxError::ExecutionFailed("x".to_string()), "execution failed: x"),
        (HyperboxError::Io("x".to_string()), "io error: x"),
        (HyperboxError::Serde("x".to_string()), "serialization error: x"),
    ];
    for (error, text) in cases {
        assert_eq!(error.message(), text);
    }
}

#[test]
fn entries_are_read_and_written() {
    let entry = AllowlistEntry::parse("  *.GitHub.com ").expect("wildcard");
    assert!(entry.is_wildcard());
    assert_eq!(entry.as_str(), "github.com");
    assert_eq!(entry.to_pattern_string(), "*.github.com");
    assert_eq!(AllowlistEntry::parse(entry.to_pattern_string().as_str()), Ok(entry));
    let exact = AllowlistEntry::parse("PyPI.org").expect("exact");
    assert!(exact.matches("pypi.ORG"));
    assert!(!exact.matches("files.pypi.org"));
    for bad in ["", "a b", "*.", "a..b", ".a", "a.", "a/b", "a:1", "*"] {
        assert!(AllowlistEntry::parse(bad).is_err(), "{bad}");
    }
}

#[test]
fn allowlists_read_back_their_patterns() {
    let list = Allowlist::parse(&strings(&["B.org", "*.a.org", "b.org"])).expect("allowlist");
    assert_eq!(list.to_strings(), strings(&["b.org", "*.a.org"]));
    assert_eq!(list.entries().len(), 2);
    let again = Allowlist::parse(&list.to_strings()).expect("patterns");
    assert_eq!(again.to_strings(), list.to_strings());
    assert!(Allowlist::empty().is_empty());
    assert!(!Allowlist::empty().allows("b.org"));
}

#[test]
fn leap_seconds_are_kept() {
    let leap = Timestamp::parse("2016-12-31T23:59:60.500+00:00").expect("a leap second");
    assert_eq!((leap.secs(), leap.nanos()), (1_483_228_799, 1_500_000_000));
    assert_eq!(leap.to_rfc3339(), "2016-12-31T23:59:60.500+00:00");
    let last = Timestamp::parse("2016-12-31T23:59:59.900+00:00").expect("a time");
    let first = Timestamp::parse("2017-01-01T00:00:00.100+00:00").expect("a time");
    assert!(last.at_or_before(&leap) && leap.at_or_before(&first) && !first.at_or_before(&leap));
    assert_eq!(leap.millis_after(&last), 600);
    let day = leap.plus_days(1);
    assert_eq!((day.secs(), day.nanos()), (1_483_228_799 + 86_400, 500_000_000));
    assert!(leap.plus_days(0).same_time(&leap));
    assert!(Timestamp::new(1_483_228_799, 1_999_999_999).is_some());
    assert!(Timestamp::new(1_483_228_799, 2_000_000_000).is_none());
    assert!(Timestamp::new(1_483_228_798, 1_000_000_000).is_none());
    assert!(Timestamp::new(-1, 1_000_000_000).is_some());
    let chrono_leap = chrono::DateTime::parse_from_rfc3339("2016-12-31T12:30:60.5Z").expect("a time");
    let later = chrono::DateTime::parse_from_rfc3339("2017-01-03T13:00:00.25Z").expect("a time");
    let ours = Timestamp::parse("2016-12-31T12:30:60.5Z").expect("a time");
    let ours_later = Timestamp::parse("2017-01-03T13:00:00.25Z").expect("a time");
    assert_eq!(
        ours_later.millis_after(&ours) as i64,
        (later - chrono_leap).num_milliseconds()
    );
}

#[test]
fn new_identifiers_are_random_ones() {
    for id in [SandboxId::new().0, SandboxId::default().0, SnapshotId::new().0, ProcessId::new().0] {
        assert_eq!((id >> 76) & 0xf, 4);
        assert_eq!((id >> 62) & 3, 2);
    }
    assert_ne!(SandboxId::new(), SandboxId::new());
}

#[test]
fn steps_lead_to_texts_in_json() {
    let bytes = br#"[{"a":{"b":["x","y"]},"n":1}]"#;
    let y = [JsonStep::Item(0), JsonStep::Key("a"), JsonStep::Key("b"), JsonStep::Item(1)];
    assert_eq!(json_text_at(bytes, &y), Ok(Some("y".to_string())));
    assert_eq!(json_text_at(bytes, &y[..3]), Ok(None));
    assert_eq!(json_text_at(bytes, &[JsonStep::Item(0), JsonStep::Key("n")]), Ok(None));
    assert_eq!(json_text_at(bytes, &[JsonStep::Key("0")]), Ok(None));
    assert_eq!(json_text_at(bytes, &[JsonStep::Item(7), JsonStep::Key("a")]), Ok(None));
    assert_eq!(json_text_at(br#""z""#, &[]), Ok(Some("z".to_string())));
    assert!(json_text_at(b"{", &[]).is_err());
}
