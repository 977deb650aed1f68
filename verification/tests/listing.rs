use rust_iptables::failure::{Failure, IptablesError};
use rust_iptables::listing::{chain_names, get_list, line_of_rule, lines, shows};
use rust_iptables::outcome::Outcome;

fn words(items: &[&str]) -> Vec<String> {
    items.iter().map(|s| s.to_string()).collect()
}

const LISTING: &str = "-P PREROUTING ACCEPT\n-P INPUT ACCEPT\n-P OUTPUT ACCEPT\n-P POSTROUTING ACCEPT\n-N DOCKER\n-A PREROUTING -m addrtype --dst-type LOCAL -j DOCKER\n-A DOCKER -i docker0 -j RETURN\n";

#[test]
fn lines_drop_the_trailing_blank_line() {
    assert_eq!(lines("-P INPUT ACCEPT\n-A INPUT -j DROP\n"), words(&["-P INPUT ACCEPT", "-A INPUT -j DROP"]));
}

#[test]
fn lines_of_nothing_are_one_empty_line() {
    assert_eq!(lines(""), words(&[""]));
    assert_eq!(lines("\n\n"), words(&[""]));
}

#[test]
fn lines_keep_blank_lines_inside() {
    assert_eq!(lines("a\n\nb"), words(&["a", "", "b"]));
}

#[test]
fn lines_keep_carriage_returns_inside() {
    assert_eq!(lines("  a\r\nb \n"), words(&["a\r", "b"]));
}

#[test]
fn lines_agree_with_trim_and_split() {
    for text in ["", "x", "x\n", "\nx\ny\n\n", " a \n b ", LISTING] {
        let expected: Vec<String> = text.trim().split('\n').map(String::from).collect();
        assert_eq!(lines(text), expected);
    }
}

#[test]
fn get_list_reads_standard_output() {
    let outcome = Outcome { code: Some(0), stdout: b"-N A\n-N B\n".to_vec(), stderr: b"x".to_vec() };
    assert_eq!(get_list(&outcome), Ok(words(&["-N A", "-N B"])));
}

#[test]
fn get_list_of_a_failed_run_is_the_failure() {
    let outcome = Outcome { code: Some(1), stdout: b"-N A\n-N B\n".to_vec(), stderr: b"x".to_vec() };
    assert_eq!(
        get_list(&outcome),
        Err(Failure::NonZeroExit(IptablesError { code: 1, msg: "x".to_string() }))
    );
    let signalled = Outcome { code: None, stdout: Vec::new(), stderr: Vec::new() };
    assert_eq!(
        get_list(&signalled),
        Err(Failure::NonZeroExit(IptablesError { code: -1, msg: String::new() }))
    );
}

#[test]
fn get_list_is_lenient_with_bytes() {
    let outcome = Outcome { code: Some(0), stdout: b"a\xffb\n".to_vec(), stderr: Vec::new() };
    assert_eq!(get_list(&outcome), Ok(words(&["a\u{fffd}b"])));
}

#[test]
fn chain_names_come_from_policies_and_new_chains() {
    assert_eq!(chain_names(LISTING), words(&["PREROUTING", "INPUT", "OUTPUT", "POSTROUTING", "DOCKER"]));
}

#[test]
fn chain_names_skip_other_lines() {
    assert_eq!(chain_names("-A INPUT -j DROP\n"), Vec::<String>::new());
    assert_eq!(chain_names(""), Vec::<String>::new());
    assert_eq!(chain_names("-P\n-N\n"), Vec::<String>::new());
    assert_eq!(chain_names("-PX INPUT\n -N X\n"), Vec::<String>::new());
}

#[test]
fn chain_names_take_the_second_field_as_it_is() {
    assert_eq!(chain_names("-N  X"), words(&[""]));
    assert_eq!(chain_names("-N X\n-P Y DROP\n-N Z "), words(&["X", "Y", "Z"]));
}

#[test]
fn line_of_rule_joins_with_single_blanks() {
    assert_eq!(line_of_rule("INPUT", &words(&["-j", "ACCEPT"])), "-A INPUT -j ACCEPT");
    assert_eq!(
        line_of_rule("C", &words(&["-m", "comment", "--comment", "hello world"])),
        "-A C -m comment --comment hello world"
    );
    assert_eq!(line_of_rule("INPUT", &Vec::new()), "-A INPUT");
}

#[test]
fn shows_looks_for_the_literal_line() {
    assert!(shows(LISTING, "-A DOCKER -i docker0 -j RETURN"));
    assert!(!shows(LISTING, "-A DOCKER -i docker1 -j RETURN"));
    assert!(shows(LISTING, ""));
    assert!(!shows("", "-A INPUT"));
}
