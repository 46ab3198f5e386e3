use gbln_sync::validate::diag_human_report;
use gbln_sync::validate::diag_json_line;
use gbln_sync::validate::valid_json_line;
use gbln_sync::validate::validate_content;
use gbln_sync::validate::ParseDiag;
use gbln_sync::validate::ValidateOutcome;

fn sample_diag() -> ParseDiag {
    ParseDiag {
        kind: "UnexpectedToken".to_string(),
        line: 12,
        column: 34,
        message: "expected \"}\" here".to_string(),
        suggestion: Some("add a closing \"}\"".to_string()),
    }
}

#[test]
fn parse_failure_is_invalid() {
    let r = validate_content("{oops", Err(sample_diag()), false);
    match r {
        ValidateOutcome::Invalid(d) => {
            assert_eq!(d.kind, "UnexpectedToken");
            assert_eq!(d.line, 12);
            assert_eq!(d.column, 34);
        },
        _ => panic!("expected Invalid"),
    }
}

#[test]
fn equal_up_to_whitespace_is_clean() {
    let pretty = "name: \"x\"\ncount: 3\n";
    let content = "  name: \"x\"\ncount: 3\n\n";
    let r = validate_content(content, Ok(pretty.to_string()), false);
    assert!(matches!(r, ValidateOutcome::Clean));
}

#[test]
fn drift_without_fix_is_a_warning() {
    let pretty = "name: \"x\"\n";
    let r = validate_content("name:\"x\"", Ok(pretty.to_string()), false);
    assert!(matches!(r, ValidateOutcome::Drift));
}

#[test]
fn fix_rewrites_to_exact_pretty_form_and_converges() {
    let pretty = "name: \"x\"\ncount: 3\n";
    // The content differs from its pretty form in interior spacing.
    let content = "name:   \"x\"\ncount: 3\n";
    let r = validate_content(content, Ok(pretty.to_string()), true);
    let written = match r {
        ValidateOutcome::Fixed(w) => w,
        _ => panic!("expected Fixed"),
    };
    assert_eq!(written, pretty);
    // Second run on the fixed file: clean, with or without --fix.
    let r = validate_content(&written, Ok(pretty.to_string()), true);
    assert!(matches!(r, ValidateOutcome::Clean));
    let r = validate_content(&written, Ok(pretty.to_string()), false);
    assert!(matches!(r, ValidateOutcome::Clean));
}

#[test]
fn json_report_line() {
    let line = diag_json_line(&sample_diag());
    assert_eq!(
        line,
        "{\"valid\": false, \"errors\": [{\"kind\": \"UnexpectedToken\", \"line\": 12, \
         \"column\": 34, \"message\": \"expected \\\"}\\\" here\", \"suggestion\": \
         \"add a closing \\\"}\\\"\"}]}"
    );
}

#[test]
fn json_report_line_escapes_all_specials() {
    let d = ParseDiag {
        kind: "Unexpected\"Token".to_string(),
        line: 1,
        column: 2,
        message: "bad path c:\\tmp\nsecond line".to_string(),
        suggestion: Some("tab\there".to_string()),
    };
    let line = diag_json_line(&d);
    // Backslashes, newlines and tabs are escaped, so the line stays a
    // single line of valid JSON.
    assert_eq!(
        line,
        "{\"valid\": false, \"errors\": [{\"kind\": \"Unexpected\\\"Token\", \"line\": 1, \
         \"column\": 2, \"message\": \"bad path c:\\\\tmp\\nsecond line\", \"suggestion\": \
         \"tab\\there\"}]}"
    );
    assert!(!line.contains('\n'));
}

#[test]
fn json_report_line_without_suggestion() {
    let mut d = sample_diag();
    d.suggestion = None;
    let line = diag_json_line(&d);
    assert!(line.ends_with("\"suggestion\": \"\"}]}"));
}

#[test]
fn json_report_for_valid_file() {
    assert_eq!(valid_json_line(), "{\"valid\": true, \"errors\": []}");
}

#[test]
fn human_report_lines() {
    let lines = diag_human_report(&sample_diag());
    assert_eq!(lines.len(), 3);
    assert_eq!(lines[0], "\u{2717} Error: expected \"}\" here");
    assert_eq!(lines[1], "  at line 12, column 34");
    assert_eq!(lines[2], "  suggestion: add a closing \"}\"");

    let mut d = sample_diag();
    d.suggestion = None;
    let lines = diag_human_report(&d);
    assert_eq!(lines.len(), 2);
}

#[test]
fn both_report_forms_carry_the_same_fields() {
    let d = sample_diag();
    let json = diag_json_line(&d);
    let human = diag_human_report(&d);
    // Same positional information in both renderings.
    assert!(json.contains("\"line\": 12"));
    assert!(human[1].contains("line 12"));
    assert!(json.contains("\"column\": 34"));
    assert!(human[1].contains("column 34"));
    // The same message, escaped in one form and verbatim in the other.
    assert!(json.contains("expected \\\"}\\\" here"));
    assert!(human[0].contains("expected \"}\" here"));
}
