use hurlfmt_logger::layout::{decimal_string, expand_tabs, gutter_width, tab_shift};
use hurlfmt_logger::logger::{
    make_logger_error_message, make_logger_linter_error, make_logger_parser_error,
    make_logger_verbose, render_error,
};
use hurlfmt_logger::report::{
    caret_line, context_line, fixme_line, format_report, gutter_line, join_fixme,
    location_line, Diagnostic, Pos, SourceSpan,
};
use hurlfmt_logger::style::severity_token;

fn strings(v: &[&str]) -> Vec<String> {
    v.iter().map(|s| s.to_string()).collect()
}

fn diag(description: &str, start: (usize, usize), end: (usize, usize), fixme: &[&str]) -> Diagnostic {
    Diagnostic {
        description: description.to_string(),
        span: SourceSpan {
            start: Pos { line: start.0, column: start.1 },
            end: Pos { line: end.0, column: end.1 },
        },
        fixme: strings(fixme),
    }
}

#[test]
fn gutter_width_thresholds() {
    assert_eq!(gutter_width(1), 2);
    assert_eq!(gutter_width(99), 2);
    assert_eq!(gutter_width(100), 3);
    assert_eq!(gutter_width(999), 3);
    assert_eq!(gutter_width(1000), 4);
    assert_eq!(gutter_width(5000), 4);
    assert_eq!(gutter_width(0), 2);
}

#[test]
fn tab_before_caret_adds_three_columns() {
    assert_eq!(tab_shift("\tfoo", 1), 1);
    assert_eq!(tab_shift("\tfoo", 0), 0);
    assert_eq!(tab_shift("a\t\tb", 10), 2);
    let line = caret_line(2, "\tfoo", 2, 3, "fix");
    assert_eq!(line, "   |     ^ fix");
    // the caret stands under the 'f' of the expanded context line
    let context = context_line(2, 1, "\tfoo");
    assert_eq!(context, " 1 |     foo");
    assert_eq!(context.find('f'), line.find('^'));
}

#[test]
fn zero_width_span_draws_one_caret() {
    assert_eq!(caret_line(2, "abcdef", 3, 3, "x"), "   |   ^ x");
    assert_eq!(caret_line(2, "abcdef", 3, 4, "x"), "   |   ^ x");
    assert_eq!(caret_line(2, "abcdef", 3, 6, "x"), "   |   ^^^ x");
    // an end column before the start still draws one caret
    assert_eq!(caret_line(2, "abcdef", 3, 1, "x"), "   |   ^ x");
}

#[test]
fn column_zero_gives_fix_block() {
    let lines = strings(&["GET http://x", "HTTP 200", "[Asserts]", "status == 201"]);
    let d = diag("assert failure", (4, 0), (4, 0), &["actual:   integer <200>", "expected: integer <201>"]);
    let r = format_report(&lines, &None, "error", &d);
    assert_eq!(
        r,
        strings(&[
            "error: assert failure",
            "   |",
            " 4 | status == 201",
            "   |   actual:   integer <200>",
            "   |   expected: integer <201>",
            "   |",
            "",
        ])
    );
    assert!(r.iter().all(|l| !l.contains('^')));
}

#[test]
fn nonzero_column_gives_one_caret_line() {
    let lines = strings(&["GET http://x", "HTTP 200"]);
    let d = diag("bad status", (2, 6), (2, 9), &["actual value is <404>"]);
    let r = format_report(&lines, &None, "warning", &d);
    assert_eq!(
        r,
        strings(&[
            "warning: bad status",
            "   |",
            " 2 | HTTP 200",
            "   |      ^^^ actual value is <404>",
            "   |",
            "",
        ])
    );
    assert_eq!(r.iter().filter(|l| l.contains('^')).count(), 1);
}

#[test]
fn plain_output_has_no_escape() {
    let lines = strings(&["GET https://example.org"]);
    let d = diag("unexpected token", (1, 5), (1, 8), &["expecting http"]);
    let r = render_error(&lines, false, &Some("a.hurl".to_string()), &d, false);
    assert!(r.iter().all(|l| !l.contains('\x1b')));
    assert_eq!(r[0], "error: unexpected token");
    let r = render_error(&lines, false, &None, &d, true);
    assert_eq!(r[0], "warning: unexpected token");
}

#[test]
fn colored_severity_token() {
    colored::control::set_override(true);
    assert_eq!(severity_token(true, false), "\x1b[1;31merror\x1b[0m");
    assert_eq!(severity_token(true, true), "\x1b[1;33mwarning\x1b[0m");
    assert_eq!(severity_token(false, false), "error");
    assert_eq!(severity_token(false, true), "warning");
    let lines = strings(&["GET https://example.org"]);
    let d = diag("unexpected token", (1, 5), (1, 8), &["expecting http"]);
    let r = render_error(&lines, true, &None, &d, true);
    assert_eq!(r[0], "\x1b[1;33mwarning\x1b[0m: unexpected token");
    colored::control::set_override(false);
    assert_eq!(severity_token(true, false), "error");
    colored::control::unset_override();
}

#[test]
fn end_to_end_report() {
    let lines = strings(&["GET https://example.org", "HTTP 200"]);
    let d = diag("unexpected token", (1, 5), (1, 8), &["expecting http://, https:// or {{"]);
    let r = render_error(&lines, false, &None, &d, false);
    assert_eq!(
        r,
        strings(&[
            "error: unexpected token",
            "   |",
            " 1 | GET https://example.org",
            "   |     ^^^ expecting http://, https:// or {{",
            "   |",
            "",
        ])
    );
}

#[test]
fn report_with_file_name() {
    let lines = strings(&["GET https://example.org"]);
    let d = diag("unexpected token", (1, 5), (1, 8), &["fix"]);
    let logger = make_logger_parser_error(lines.clone(), false, Some("test.hurl".to_string()));
    let r = logger.report(&d, false);
    assert_eq!(r[1], "  --> test.hurl:1:5");
    assert_eq!(r.len(), 7);
    let logger = make_logger_linter_error(lines, false, None);
    assert_eq!(logger.report(&d, false).len(), 6);
}

#[test]
fn large_source_widens_gutter() {
    let mut lines: Vec<String> = Vec::new();
    for i in 0..1200 {
        lines.push(format!("line {i}"));
    }
    let d = diag("oops", (1042, 1), (1042, 5), &["here"]);
    let r = format_report(&lines, &Some("big.hurl".to_string()), "error", &d);
    assert_eq!(r[1], "    --> big.hurl:1042:1");
    assert_eq!(r[2], "     |");
    assert_eq!(r[3], "1042 | line 1041");
    assert_eq!(r[4], "     | ^^^^ here");
}

#[test]
fn context_line_layout() {
    assert_eq!(context_line(2, 2, ""), " 2 |");
    assert_eq!(context_line(2, 123, "x"), "123 | x");
    assert_eq!(context_line(3, 7, "a\tb"), "  7 | a    b");
    assert_eq!(expand_tabs("\t\tx\t"), "        x    ");
    assert_eq!(expand_tabs(""), "");
    assert_eq!(decimal_string(0), "0");
    assert_eq!(decimal_string(90210), "90210");
    assert_eq!(gutter_line(3), "    |");
    assert_eq!(location_line(2, "f.hurl", 12, 0), "  --> f.hurl:12:0");
    assert_eq!(fixme_line(2, "abc"), "   |   abc");
    assert_eq!(join_fixme(&strings(&["a", "b", "c"])), "a\nb\nc");
    assert_eq!(join_fixme(&strings(&[])), "");
}

#[test]
fn multi_line_fix_in_column_mode_is_joined() {
    let lines = strings(&["abc"]);
    let d = diag("x", (1, 2), (1, 3), &["one", "two"]);
    let r = format_report(&lines, &None, "error", &d);
    assert_eq!(r[3], "   |  ^ one\ntwo");
}

#[test]
fn verbose_and_message_loggers() {
    let on = make_logger_verbose(true);
    assert_eq!(on.line(""), Some("*".to_string()));
    assert_eq!(on.line("connect"), Some("* connect".to_string()));
    assert_eq!(make_logger_verbose(false).line("connect"), None);
    let plain = make_logger_error_message(false);
    assert_eq!(plain.line(true, "check it"), "warning: check it");
    assert_eq!(plain.line(false, "broken"), "error: broken");
}
