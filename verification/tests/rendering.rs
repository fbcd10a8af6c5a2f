use icinga2ctl::command::reply::{
    render_action_reply, render_action_result, render_ticket_reply, render_ticket_result,
};
use icinga2ctl::command::status::{render, render_row};
use icinga2ctl::json_data::{
    Icinga2ActionReply, Icinga2ActionReplyResult, Icinga2Status, Icinga2StatusResult,
    LastCheckResult, StatusResultAttrs,
};
use icinga2ctl::severity::Severity;
use icinga2ctl::text::{collapse_newlines, escape_quotes, str_eq, u64_to_decimal, bool_to_text};
use icinga2ctl::util::{paint_state, state_to_string};

fn attrs(host_name: Option<&str>, name: Option<&str>, state: i64, ack: i64, output: &str) -> StatusResultAttrs {
    StatusResultAttrs {
        acknowledgement: ack,
        display_name: "disk".to_string(),
        host_name: host_name.map(|h| h.to_string()),
        last_check_result: LastCheckResult { active: true, output: output.to_string() },
        name: name.map(|n| n.to_string()),
        state,
        state_type: 1,
    }
}

#[test]
fn state_codes_have_names() {
    assert_eq!(state_to_string(0), "OK");
    assert_eq!(state_to_string(1), "WARNING");
    assert_eq!(state_to_string(2), "CRITICAL");
    assert_eq!(state_to_string(3), "UNKNOWN");
}

#[test]
fn other_state_codes_are_question_marks() {
    assert_eq!(state_to_string(4), "???");
    assert_eq!(state_to_string(-1), "???");
    assert_eq!(state_to_string(i64::MAX), "???");
    assert_eq!(state_to_string(i64::MIN), "???");
}

#[test]
fn state_names_read_back() {
    for code in 0..4i64 {
        let name = state_to_string(code);
        let severity = Severity::from_name(name.as_str()).unwrap();
        assert_eq!(severity.code(), code);
        assert_eq!(Severity::from_code(code), Some(severity));
        assert_eq!(severity.name(), name);
    }
    assert_eq!(Severity::from_name("???"), None);
    assert_eq!(Severity::from_name("ok"), None);
    assert_eq!(Severity::from_code(4), None);
    assert_eq!(Severity::from_code(-1), None);
    assert_eq!(Severity::Critical.digit(), "2");
}

#[test]
fn unacknowledged_critical_stands_out() {
    assert_eq!(paint_state("line", "CRITICAL", 0, true), "\x1b[1;4;31mline\x1b[0m");
}

#[test]
fn acknowledged_critical_is_plain_red() {
    assert_eq!(paint_state("line", "CRITICAL", 1, true), "\x1b[31mline\x1b[0m");
    assert_eq!(paint_state("line", "CRITICAL", 2, true), "\x1b[31mline\x1b[0m");
    assert_eq!(paint_state("line", "CRITICAL", -1, true), "\x1b[31mline\x1b[0m");
}

#[test]
fn without_color_lines_are_plain() {
    for st in ["OK", "WARNING", "CRITICAL", "UNKNOWN", "???"] {
        for ack in [0i64, 1, 2] {
            assert_eq!(paint_state("line", st, ack, false), "line");
        }
    }
}

#[test]
fn each_state_has_its_colour() {
    assert_eq!(paint_state("x", "OK", 0, true), "\x1b[32mx\x1b[0m");
    assert_eq!(paint_state("x", "OK", 1, true), "\x1b[32mx\x1b[0m");
    assert_eq!(paint_state("x", "WARNING", 0, true), "\x1b[1;4;33mx\x1b[0m");
    assert_eq!(paint_state("x", "WARNING", 1, true), "\x1b[33mx\x1b[0m");
    assert_eq!(paint_state("x", "UNKNOWN", 0, true), "\x1b[1;4;35mx\x1b[0m");
    assert_eq!(paint_state("x", "UNKNOWN", 1, true), "\x1b[35mx\x1b[0m");
    assert_eq!(paint_state("x", "???", 0, true), "x");
    assert_eq!(paint_state("x", "critical", 0, true), "x");
    assert_eq!(paint_state("", "CRITICAL", 0, true), "\x1b[1;4;31m\x1b[0m");
}

#[test]
fn service_row_names_host_and_service() {
    let row = attrs(Some("web1"), None, 1, 1, "disk at 91%");
    assert_eq!(render_row(&row, false).unwrap(), "web1: disk: WARNING: disk at 91%");
    assert_eq!(
        render_row(&row, true).unwrap(),
        "\x1b[33mweb1: disk: WARNING: disk at 91%\x1b[0m"
    );
}

#[test]
fn host_row_names_the_host() {
    let row = attrs(None, Some("web1"), 0, 0, "PING OK");
    assert_eq!(render_row(&row, false).unwrap(), "web1: OK: PING OK");
    assert_eq!(render_row(&row, true).unwrap(), "\x1b[32mweb1: OK: PING OK\x1b[0m");
}

#[test]
fn host_name_decides_between_host_and_service() {
    let row = attrs(Some("web1"), Some("web1!disk"), 3, 0, "no data");
    assert_eq!(render_row(&row, false).unwrap(), "web1: disk: UNKNOWN: no data");
}

#[test]
fn row_without_any_name_gives_no_line() {
    let row = attrs(None, None, 2, 0, "lost");
    assert_eq!(render_row(&row, true), None);
    assert_eq!(render_row(&row, false), None);
}

#[test]
fn line_feeds_in_output_become_spaces() {
    let row = attrs(None, Some("db1"), 2, 0, "first\nsecond\n\nlast\n");
    assert_eq!(render_row(&row, false).unwrap(), "db1: CRITICAL: first second  last ");
}

#[test]
fn unexpected_state_is_shown_without_colour() {
    let row = attrs(None, Some("db1"), 7, 0, "odd");
    assert_eq!(render_row(&row, true).unwrap(), "db1: ???: odd");
}

#[test]
fn answer_is_rendered_row_by_row() {
    let reply = Icinga2Status {
        results: vec![
            Icinga2StatusResult { name: "a".to_string(), attrs: attrs(None, Some("a"), 0, 0, "fine") },
            Icinga2StatusResult { name: "b".to_string(), attrs: attrs(None, None, 0, 0, "nameless") },
            Icinga2StatusResult { name: "c!disk".to_string(), attrs: attrs(Some("c"), None, 2, 0, "full") },
        ],
    };
    assert_eq!(
        render(&reply, false),
        vec!["a: OK: fine".to_string(), "c: disk: CRITICAL: full".to_string()]
    );
    assert_eq!(
        render(&reply, true),
        vec![
            "\x1b[32ma: OK: fine\x1b[0m".to_string(),
            "\x1b[1;4;31mc: disk: CRITICAL: full\x1b[0m".to_string()
        ]
    );
    assert_eq!(render(&Icinga2Status { results: vec![] }, true), Vec::<String>::new());
}

fn action_row(name: Option<&str>, status: &str, ticket: Option<&str>) -> Icinga2ActionReplyResult {
    Icinga2ActionReplyResult {
        code: 200,
        name: name.map(|n| n.to_string()),
        status: status.to_string(),
        ticket: ticket.map(|t| t.to_string()),
    }
}

#[test]
fn action_row_with_name_shows_name_and_status() {
    let row = action_row(Some("web1!4711"), "Successfully added comment.", None);
    assert_eq!(render_action_result(&row), "web1!4711: Successfully added comment.");
}

#[test]
fn action_row_without_name_shows_status_alone() {
    let row = action_row(None, "Successfully acknowledged problem.", None);
    assert_eq!(render_action_result(&row), "Successfully acknowledged problem.");
}

#[test]
fn ticket_row_shows_ticket_or_dash() {
    let row = action_row(None, "Generated PKI ticket.", Some("4f75d2ec"));
    assert_eq!(render_ticket_result(&row), "4f75d2ec: Generated PKI ticket.");
    let row = action_row(Some("ignored"), "No ticket.", None);
    assert_eq!(render_ticket_result(&row), "-: No ticket.");
}

#[test]
fn action_answers_are_rendered_row_by_row() {
    let reply = Icinga2ActionReply {
        results: vec![
            action_row(Some("n1"), "one", Some("t1")),
            action_row(None, "two", None),
        ],
    };
    assert_eq!(render_action_reply(&reply), vec!["n1: one".to_string(), "two".to_string()]);
    assert_eq!(render_ticket_reply(&reply), vec!["t1: one".to_string(), "-: two".to_string()]);
    let empty = Icinga2ActionReply { results: vec![] };
    assert!(render_action_reply(&empty).is_empty());
    assert!(render_ticket_reply(&empty).is_empty());
}

#[test]
fn quotes_get_one_backslash() {
    assert_eq!(escape_quotes(""), "");
    assert_eq!(escape_quotes("plain"), "plain");
    assert_eq!(escape_quotes("match(\"h\", host.name)"), "match(\\\"h\\\", host.name)");
    assert_eq!(escape_quotes("\"\""), "\\\"\\\"");
    assert_eq!(escape_quotes("a\\b"), "a\\b");
    assert_eq!(escape_quotes("caf\u{e9} \"x\""), "caf\u{e9} \\\"x\\\"");
}

#[test]
fn line_feeds_only_are_collapsed() {
    assert_eq!(collapse_newlines(""), "");
    assert_eq!(collapse_newlines("a\nb"), "a b");
    assert_eq!(collapse_newlines("a\r\nb\tc"), "a\r b\tc");
    assert_eq!(collapse_newlines("\n\n"), "  ");
}

#[test]
fn numbers_in_decimal() {
    assert_eq!(u64_to_decimal(0), "0");
    assert_eq!(u64_to_decimal(7), "7");
    assert_eq!(u64_to_decimal(10), "10");
    assert_eq!(u64_to_decimal(443), "443");
    assert_eq!(u64_to_decimal(5665), "5665");
    assert_eq!(u64_to_decimal(2147483647), "2147483647");
    assert_eq!(u64_to_decimal(u64::MAX), "18446744073709551615");
}

#[test]
fn texts_compare_by_their_characters() {
    assert!(str_eq("", ""));
    assert!(str_eq("yes", "yes"));
    assert!(!str_eq("yes", "yes "));
    assert!(!str_eq("yes", "yEs"));
    assert!(!str_eq("", "x"));
    assert!(str_eq("gr\u{fc}n", "gr\u{fc}n"));
    assert!(!str_eq("gr\u{fc}n", "grun"));
    assert_eq!(bool_to_text(true), "true");
    assert_eq!(bool_to_text(false), "false");
}
