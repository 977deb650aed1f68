use rust_iptables::failure::{Failure, IptablesError};
use rust_iptables::outcome::{output_to_result, Outcome};

fn outcome(code: Option<i32>, stdout: &[u8], stderr: &[u8]) -> Outcome {
    Outcome { code, stdout: stdout.to_vec(), stderr: stderr.to_vec() }
}

#[test]
fn exit_code_zero_is_success() {
    assert_eq!(output_to_result(&outcome(Some(0), b"", b"")), Ok(()));
    assert!(outcome(Some(0), b"x", b"y").success());
}

#[test]
fn success_ignores_what_was_written() {
    assert_eq!(output_to_result(&outcome(Some(0), b"out", b"a warning")), Ok(()));
}

#[test]
fn other_exit_codes_are_failures_with_code_and_message() {
    let r = output_to_result(&outcome(Some(1), b"", b"iptables: No chain/target/match by that name.\n"));
    assert_eq!(
        r,
        Err(Failure::NonZeroExit(IptablesError {
            code: 1,
            msg: "iptables: No chain/target/match by that name.\n".to_string(),
        }))
    );
    assert!(!outcome(Some(1), b"", b"").success());
    assert!(!outcome(Some(-3), b"", b"").success());
}

#[test]
fn a_missing_exit_code_is_reported_as_minus_one() {
    let r = output_to_result(&outcome(None, b"", b"killed"));
    assert_eq!(r, Err(Failure::NonZeroExit(IptablesError { code: -1, msg: "killed".to_string() })));
    assert!(!outcome(None, b"", b"").success());
}

#[test]
fn error_from_outcome_takes_code_and_standard_error() {
    let e = IptablesError::from(&outcome(Some(4), b"ignored", b"Permission denied"));
    assert_eq!(e, IptablesError { code: 4, msg: "Permission denied".to_string() });
    let e = IptablesError::from(&outcome(None, b"", b""));
    assert_eq!(e, IptablesError { code: -1, msg: String::new() });
}

#[test]
fn standard_error_is_decoded_leniently() {
    let e = IptablesError::from(&outcome(Some(2), b"", b"bad \xff byte"));
    assert_eq!(e.msg, "bad \u{fffd} byte");
    let e = IptablesError::from(&outcome(Some(2), b"", "gr\u{fc}n".as_bytes()));
    assert_eq!(e.msg, "gr\u{fc}n");
}

#[test]
fn error_new_defaults_the_code() {
    assert_eq!(IptablesError::new(Some(7), "m".to_string()), IptablesError { code: 7, msg: "m".to_string() });
    assert_eq!(IptablesError::new(None, "m".to_string()), IptablesError { code: -1, msg: "m".to_string() });
    assert_eq!(IptablesError::new(Some(0), String::new()).code, 0);
}

#[test]
fn describe_gives_code_and_message() {
    let e = IptablesError { code: 2, msg: "Bad rule".to_string() };
    assert_eq!(e.describe(), "code: 2, msg: Bad rule");
    let e = IptablesError { code: -1, msg: String::new() };
    assert_eq!(e.describe(), "code: -1, msg: ");
    let e = IptablesError { code: i32::MIN, msg: "x".to_string() };
    assert_eq!(e.describe(), "code: -2147483648, msg: x");
}
