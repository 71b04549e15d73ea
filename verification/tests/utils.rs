use std::io::{self, Cursor, Read};

use pylot::utils::{
    confirm, confirm_answer, confirm_decision, missing_message, missing_of, parse_requirements,
    parse_selection, which_check, SelectError,
};

struct ErrorReader;

impl Read for ErrorReader {
    fn read(&mut self, _buf: &mut [u8]) -> io::Result<usize> {
        Err(io::Error::other("simulated error".to_string()))
    }
}

#[test]
fn test_confirm_error_returns_false() {
    assert!(!confirm(ErrorReader));
}

#[test]
fn test_confirm_yes() {
    let cursor = Cursor::new("y\n");
    let result = confirm(cursor);
    assert!(result);
}

#[test]
fn test_confirm_no() {
    let cursor = Cursor::new("n\n");
    let result = confirm(cursor);
    assert!(!result);
}

#[test]
fn test_confirm_invalid() {
    let cursor = Cursor::new("x\n");
    let result = confirm(cursor);
    assert!(!result);
}

#[test]
fn test_confirm_empty() {
    let cursor = Cursor::new("\n");
    let result = confirm(cursor);
    assert!(!result);
}

#[test]
fn test_confirm_whitespace() {
    let cursor = Cursor::new("   y   \n");
    let result = confirm(cursor);
    assert!(result);
}

#[test]
fn test_confirm_uppercase() {
    let cursor = Cursor::new("Y\n");
    let result = confirm(cursor);
    assert!(result);
}

#[test]
fn test_confirm_uppercase_yes() {
    let cursor = Cursor::new("YES\n");
    let result = confirm(cursor);
    assert!(result);
}

#[test]
fn confirm_answer_accepts_exactly_four_tokens() {
    assert!(confirm_answer("y"));
    assert!(confirm_answer("Y"));
    assert!(confirm_answer("yes"));
    assert!(confirm_answer("YES"));
    assert!(confirm_answer("  yes \t"));
    assert!(!confirm_answer("Yes"));
    assert!(!confirm_answer("yEs"));
    assert!(!confirm_answer("no"));
    assert!(!confirm_answer(""));
    assert!(!confirm_answer("y e s"));
}

#[test]
fn selection_two_of_three_resolves() {
    assert_eq!(parse_selection("2", 3), Ok(2));
    assert_eq!(parse_selection(" 2 \n", 3), Ok(2));
}

#[test]
fn selection_out_of_range() {
    assert_eq!(parse_selection("9", 3), Err(SelectError::OutOfRange));
    assert_eq!(parse_selection("0", 3), Err(SelectError::OutOfRange));
}

#[test]
fn selection_cancel_tokens() {
    assert_eq!(parse_selection("c", 3), Err(SelectError::Cancelled));
    assert_eq!(parse_selection("q", 3), Err(SelectError::Cancelled));
    assert_eq!(parse_selection("C", 3), Err(SelectError::Cancelled));
    assert_eq!(parse_selection("Q\n", 3), Err(SelectError::Cancelled));
}

#[test]
fn selection_non_numeric() {
    assert_eq!(parse_selection("abc", 3), Err(SelectError::NotANumber));
    assert_eq!(parse_selection("", 3), Err(SelectError::NotANumber));
    assert_eq!(parse_selection("2x", 3), Err(SelectError::NotANumber));
}

#[test]
fn selection_messages_are_distinct() {
    assert_eq!(SelectError::Cancelled.message(), "Cancelled by user");
    assert_eq!(SelectError::NotANumber.message(), "Please provide a valid number!");
    assert_eq!(SelectError::OutOfRange.message(), "Index out of range!");
}

#[test]
fn test_read_requirements_file() {
    let content = "package1\npackage2\n# This is a comment\n\npackage3\n";
    let packages = parse_requirements(content);
    assert_eq!(packages, vec!["package1", "package2", "package3"]);
}

#[test]
fn requirements_trim_and_comments() {
    let content = "  numpy  \n\t\n# comment\npandas";
    assert_eq!(parse_requirements(content), vec!["numpy", "pandas"]);
    let empty: Vec<String> = Vec::new();
    assert_eq!(parse_requirements(""), empty);
}

#[test]
fn confirm_decision_fails_closed_on_no_line() {
    let yes = "y".to_string();
    let no = "nope".to_string();
    assert!(confirm_decision(Some(&yes)));
    assert!(!confirm_decision(Some(&no)));
    assert!(!confirm_decision(None));
}

#[test]
fn which_check_reports_missing() {
    let present = vec!["sh".to_string()];
    assert!(which_check(&present).is_ok());

    let none: Vec<String> = Vec::new();
    assert!(which_check(&none).is_ok());

    let missing = vec!["sh".to_string(), "no-such-command-pylot-test".to_string()];
    let err = which_check(&missing).unwrap_err();
    assert_eq!(
        err,
        "Missing required commands: [\"no-such-command-pylot-test\"]"
    );
}

#[test]
fn missing_of_selects_rejected_in_order() {
    let cmds = vec!["curl".to_string(), "sh".to_string(), "winget".to_string()];
    let present = vec![false, true, false];
    assert_eq!(missing_of(&cmds, &present), vec!["curl", "winget"]);

    let all_present = vec![true, true, true];
    let empty: Vec<String> = Vec::new();
    assert_eq!(missing_of(&cmds, &all_present), empty);
}

#[test]
fn missing_message_wording() {
    let names = vec!["curl".to_string(), "sh".to_string()];
    assert_eq!(
        missing_message(&names),
        "Missing required commands: [\"curl\", \"sh\"]"
    );
}
