use rust_iptables::failure::Failure;
use rust_iptables::iptables::{new, new_with_protocol, Probe};
use rust_iptables::outcome::Outcome;
use rust_iptables::version::{is_after, parse_number, parse_version, version_from_groups};

fn probe() -> Probe {
    new("linux").unwrap()
}

fn report(stdout: &str) -> Option<Outcome> {
    Some(Outcome { code: Some(0), stdout: stdout.as_bytes().to_vec(), stderr: Vec::new() })
}

#[test]
fn version_1_4_11_checks_but_does_not_wait() {
    let ipt = probe().handle(1, 4, 11);
    assert!(ipt.has_check);
    assert!(!ipt.has_wait);
}

#[test]
fn version_1_4_20_checks_and_waits() {
    let ipt = probe().handle(1, 4, 20);
    assert!(ipt.has_check);
    assert!(ipt.has_wait);
}

#[test]
fn version_1_4_10_does_neither() {
    let ipt = probe().handle(1, 4, 10);
    assert!(!ipt.has_check);
    assert!(!ipt.has_wait);
}

#[test]
fn version_1_4_19_checks_but_does_not_wait() {
    let ipt = probe().handle(1, 4, 19);
    assert!(ipt.has_check);
    assert!(!ipt.has_wait);
}

#[test]
fn comparison_is_by_major_then_minor_then_patch() {
    assert!(is_after(2, 0, 0, 10));
    assert!(is_after(1, 5, 0, 10));
    assert!(is_after(1, 4, 11, 10));
    assert!(!is_after(1, 4, 10, 10));
    assert!(!is_after(1, 3, 99, 10));
    assert!(!is_after(0, 9, 99, 10));
    assert!(is_after(1, 8, 7, 19));
    assert!(!is_after(1, 4, 19, 19));
}

#[test]
fn handle_records_version_and_programs() {
    let ipt = probe().handle(1, 8, 7);
    assert_eq!(ipt.get_iptables_version(), (1, 8, 7));
    assert_eq!(ipt.cmd, "iptables");
    assert_eq!(ipt.save_cmd, "iptables-save");
    assert_eq!(ipt.restore_cmd, "iptables-restore");
}

#[test]
fn ipv6_names_the_other_programs() {
    let probe = new_with_protocol("linux", true).unwrap();
    assert_eq!(probe.cmd, "ip6tables");
    assert_eq!(probe.save_cmd, "ip6tables-save");
    assert_eq!(probe.restore_cmd, "ip6tables-restore");
    let probe = new_with_protocol("linux", false).unwrap();
    assert_eq!(probe.cmd, "iptables");
}

#[test]
fn other_hosts_are_refused() {
    assert_eq!(new("macos"), Err(Failure::UnsupportedPlatform));
    assert_eq!(new("windows"), Err(Failure::UnsupportedPlatform));
    assert_eq!(new(""), Err(Failure::UnsupportedPlatform));
    assert_eq!(new("Linux"), Err(Failure::UnsupportedPlatform));
    assert_eq!(new_with_protocol("freebsd", true), Err(Failure::UnsupportedPlatform));
}

#[test]
fn probe_asks_for_the_version() {
    assert_eq!(probe().command(), vec!["--version".to_string()]);
}

#[test]
fn parses_a_version_report() {
    assert_eq!(parse_version("iptables v1.8.7 (nf_tables)"), Ok((1, 8, 7)));
    assert_eq!(parse_version("iptables v1.4.21\n"), Ok((1, 4, 21)));
    assert_eq!(parse_version("v01.004.0010"), Ok((1, 4, 10)));
}

#[test]
fn takes_the_first_version_of_a_report() {
    assert_eq!(parse_version("a v1.2.3 b v4.5.6"), Ok((1, 2, 3)));
}

#[test]
fn a_report_without_version_is_invalid() {
    assert_eq!(parse_version(""), Err(Failure::InvalidVersionFormat));
    assert_eq!(parse_version("iptables 1.8.7"), Err(Failure::InvalidVersionFormat));
    assert_eq!(parse_version("v1.8"), Err(Failure::InvalidVersionFormat));
    assert_eq!(parse_version("v1..8.7"), Err(Failure::InvalidVersionFormat));
}

#[test]
fn a_number_beyond_i32_is_invalid() {
    assert_eq!(parse_version("v1.4.2147483648"), Err(Failure::InvalidVersionFormat));
    assert_eq!(parse_version("v1.4.2147483647"), Ok((1, 4, 2147483647)));
}

#[test]
fn digits_of_other_scripts_are_invalid() {
    assert_eq!(parse_version("v1.4.\u{0663}"), Err(Failure::InvalidVersionFormat));
}

#[test]
fn parse_number_reads_digits_only() {
    assert_eq!(parse_number("0"), Some(0));
    assert_eq!(parse_number("007"), Some(7));
    assert_eq!(parse_number("1234567890"), Some(1234567890));
    assert_eq!(parse_number("2147483647"), Some(2147483647));
    assert_eq!(parse_number("2147483648"), None);
    assert_eq!(parse_number("99999999999999999999"), None);
    assert_eq!(parse_number(""), None);
    assert_eq!(parse_number("12a"), None);
    assert_eq!(parse_number("-1"), None);
    assert_eq!(parse_number("+1"), None);
    assert_eq!(parse_number(" 1"), None);
    assert_eq!(parse_number("\u{0661}"), None);
}

#[test]
fn groups_one_to_three_make_the_version() {
    let groups = Some(vec![
        Some("v1.4.21".to_string()),
        Some("1".to_string()),
        Some("4".to_string()),
        Some("21".to_string()),
    ]);
    assert_eq!(version_from_groups(&groups), Ok((1, 4, 21)));
}

#[test]
fn missing_or_bad_groups_are_invalid() {
    assert_eq!(version_from_groups(&None), Err(Failure::InvalidVersionFormat));
    assert_eq!(version_from_groups(&Some(Vec::new())), Err(Failure::InvalidVersionFormat));
    let short = Some(vec![Some("v1.4".to_string()), Some("1".to_string()), Some("4".to_string())]);
    assert_eq!(version_from_groups(&short), Err(Failure::InvalidVersionFormat));
    let absent = Some(vec![
        Some("x".to_string()),
        Some("1".to_string()),
        None,
        Some("3".to_string()),
    ]);
    assert_eq!(version_from_groups(&absent), Err(Failure::InvalidVersionFormat));
    let bad = Some(vec![
        Some("x".to_string()),
        Some("1".to_string()),
        Some("x".to_string()),
        Some("3".to_string()),
    ]);
    assert_eq!(version_from_groups(&bad), Err(Failure::InvalidVersionFormat));
}

#[test]
fn conclude_makes_the_handle_from_the_report() {
    let ipt = probe().conclude(report("iptables v1.4.11\n")).unwrap();
    assert_eq!(ipt.get_iptables_version(), (1, 4, 11));
    assert!(ipt.has_check);
    assert!(!ipt.has_wait);
    assert_eq!(ipt.cmd, "iptables");
}

#[test]
fn conclude_ignores_the_exit_code() {
    let failed = Some(Outcome {
        code: Some(3),
        stdout: b"ip6tables v1.8.9 (legacy)".to_vec(),
        stderr: b"warning".to_vec(),
    });
    let ipt = new_with_protocol("linux", true).unwrap().conclude(failed).unwrap();
    assert_eq!(ipt.get_iptables_version(), (1, 8, 9));
    assert!(ipt.has_wait);
    assert_eq!(ipt.cmd, "ip6tables");
}

#[test]
fn conclude_fails_without_a_version() {
    assert_eq!(probe().conclude(report("no version here")), Err(Failure::InvalidVersionFormat));
}

#[test]
fn conclude_fails_if_the_tool_did_not_start() {
    assert_eq!(probe().conclude(None), Err(Failure::SpawnFailure));
}

#[test]
fn conclude_reads_past_bytes_that_are_not_text() {
    let odd = Some(Outcome { code: Some(0), stdout: b"\xff\xfe v1.6.0".to_vec(), stderr: Vec::new() });
    assert_eq!(probe().conclude(odd).unwrap().get_iptables_version(), (1, 6, 0));
}
