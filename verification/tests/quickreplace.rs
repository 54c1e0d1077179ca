use quickreplace::args::parse_args;
use quickreplace::report::count_mismatch_message;
use quickreplace::report::read_error_message;
use quickreplace::report::replace_error_message;
use quickreplace::report::write_error_message;
use quickreplace::style::error_line;
use quickreplace::style::usage_lines;
use quickreplace::substitution::replace;

#[test]
fn replace_substitutes_every_match() {
    let r = replace("hello", "goodbye", "hello world, hello moon");
    assert_eq!(r.unwrap(), "goodbye world, goodbye moon");
}

#[test]
fn replace_expands_capture_groups() {
    let r = replace("(h)ello", "${1}i", "hello world");
    assert_eq!(r.unwrap(), "hi world");
}

#[test]
fn replace_expands_missing_group_to_empty() {
    let r = replace("(a)|(b)", "$2", "a");
    assert_eq!(r.unwrap(), "");
}

#[test]
fn replace_with_empty_pattern_matches_everywhere() {
    let r = replace("", "x", "ab");
    assert_eq!(r.unwrap(), "xaxbx");
}

#[test]
fn replace_rejects_invalid_pattern() {
    let r = replace("(", "x", "anything at all");
    assert!(r.is_err());
}

#[test]
fn replace_failure_message_names_the_step() {
    let detail = replace("(", "x", "text").unwrap_err();
    let message = replace_error_message(&detail);
    assert!(message.starts_with("failed to replace text: "));
}

#[test]
fn replace_without_match_is_identity_twice() {
    let once = replace("xyz", "q", "hello world").unwrap();
    assert_eq!(once, "hello world");
    let twice = replace("xyz", "q", &once).unwrap();
    assert_eq!(twice, "hello world");
}

#[test]
fn parse_args_accepts_exactly_four() {
    let argv = vec![
        "hello".to_string(),
        "goodbye".to_string(),
        "in.txt".to_string(),
        "out.txt".to_string(),
    ];
    let args = parse_args(&argv).unwrap();
    assert_eq!(args.target, "hello");
    assert_eq!(args.replacement, "goodbye");
    assert_eq!(args.filename, "in.txt");
    assert_eq!(args.output, "out.txt");
}

#[test]
fn parse_args_rejects_two() {
    let argv = vec!["hello".to_string(), "goodbye".to_string()];
    assert_eq!(parse_args(&argv).unwrap_err(), 2);
}

#[test]
fn parse_args_rejects_none() {
    let argv: Vec<String> = Vec::new();
    assert_eq!(parse_args(&argv).unwrap_err(), 0);
}

#[test]
fn parse_args_rejects_five() {
    let argv = vec![
        "a".to_string(),
        "b".to_string(),
        "c".to_string(),
        "d".to_string(),
        "e".to_string(),
    ];
    assert_eq!(parse_args(&argv).unwrap_err(), 5);
}

#[test]
fn count_mismatch_message_for_two() {
    let m = count_mismatch_message(2);
    assert_eq!(m, "wrong number of arguments: expected 4, got 2.");
}

#[test]
fn count_mismatch_message_for_zero() {
    let m = count_mismatch_message(0);
    assert_eq!(m, "wrong number of arguments: expected 4, got 0.");
}

#[test]
fn count_mismatch_message_for_many_digits() {
    let m = count_mismatch_message(12345);
    assert_eq!(m, "wrong number of arguments: expected 4, got 12345.");
}

#[test]
fn read_error_message_exact() {
    let m = read_error_message("in.txt", "boom");
    assert_eq!(m, "failed to read from file 'in.txt': boom");
}

#[test]
fn write_error_message_exact() {
    let m = write_error_message("out.txt", "disk full");
    assert_eq!(m, "failed to write to file 'out.txt': disk full");
}

#[test]
fn error_line_is_plain_or_highlighted() {
    let line = error_line("boom");
    assert!(line == "Error: boom" || line == "\x1B[1;31mError:\x1B[0m boom");
}

#[test]
fn usage_banner_has_two_lines() {
    let lines = usage_lines();
    assert_eq!(lines.len(), 2);
    assert!(
        lines[0] == "quickreplace - change occurrences of one string into another"
            || lines[0]
                == "\x1B[32mquickreplace\x1B[0m - change occurrences of one string into another"
    );
    assert_eq!(
        lines[1],
        "Usage: quickreplace <target> <replacement> <INPUT> <OUTPUT>"
    );
}
