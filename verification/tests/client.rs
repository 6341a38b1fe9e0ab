use epoch::api::{EntryResponse, ErrorResponse, StatusResponse};
use epoch::cli::{
    arg_error_lines, config_path, missing_config_lines, done_message, endpoint_url, error_message, log_lines, parse_args,
    reply_check, request_for, started_message, status_message, stopped_message, usage_lines,
    ArgError, Command, Method, ReplyCheck, RequestBody,
};
use epoch::time::{clock, clock_minutes, format_duration, seconds_between, Timestamp};

fn at(seconds: i64) -> Timestamp {
    Timestamp::new(seconds, 0)
}

fn args(list: &[&str]) -> Vec<String> {
    list.iter().map(|s| s.to_string()).collect()
}

fn entry(description: Option<&str>, start: i64, stop: Option<i64>) -> EntryResponse {
    EntryResponse {
        id: 7,
        description: description.map(|d| d.to_string()),
        started_at: at(start),
        stopped_at: stop.map(at),
    }
}

#[test]
fn duration_with_hours() {
    assert_eq!(format_duration(&at(0), &at(3723)), "1h 2m 3s");
    assert_eq!(format_duration(&at(1000), &at(1000 + 3600)), "1h 0m 0s");
}

#[test]
fn duration_with_minutes() {
    assert_eq!(format_duration(&at(0), &at(125)), "2m 5s");
    assert_eq!(format_duration(&at(0), &at(60)), "1m 0s");
}

#[test]
fn duration_with_seconds_only() {
    assert_eq!(format_duration(&at(0), &at(59)), "59s");
    assert_eq!(format_duration(&at(5), &at(5)), "0s");
}

#[test]
fn duration_drops_fraction_toward_zero() {
    let start = Timestamp::new(10, 900_000_000);
    let end = Timestamp::new(12, 100_000_000);
    assert_eq!(seconds_between(&start, &end), 1);
    assert_eq!(format_duration(&start, &end), "1s");
    assert_eq!(seconds_between(&Timestamp::new(10, 500_000_000), &at(10)), 0);
    assert_eq!(format_duration(&Timestamp::new(10, 500_000_000), &at(10)), "0s");
}

#[test]
fn duration_backwards_shows_negative_seconds() {
    assert_eq!(seconds_between(&at(100), &at(0)), -100);
    assert_eq!(format_duration(&at(100), &at(0)), "-40s");
    assert_eq!(format_duration(&at(7200), &at(0)), "0s");
}

#[test]
fn duration_across_wide_range() {
    let start = at(i64::MIN);
    let end = at(i64::MAX);
    assert_eq!(seconds_between(&start, &end), u64::MAX as i128);
    assert_eq!(
        format_duration(&start, &end),
        format!("{}h {}m {}s", u64::MAX / 3600, (u64::MAX % 3600) / 60, u64::MAX % 60)
    );
}

#[test]
fn clock_faces() {
    assert_eq!(clock(&at(3723)), "01:02:03");
    assert_eq!(clock(&at(86_399)), "23:59:59");
    assert_eq!(clock(&at(-1)), "23:59:59");
    assert_eq!(clock(&at(1_700_000_000)), "22:13:20");
    assert_eq!(clock_minutes(&at(1_700_000_000)), "22:13");
    assert_eq!(clock_minutes(&at(0)), "00:00");
}

#[test]
fn parse_each_command() {
    assert!(matches!(parse_args(&args(&["epoch", "start"])), Ok(Command::Start)));
    assert!(matches!(parse_args(&args(&["epoch", "status"])), Ok(Command::Status)));
    assert!(matches!(parse_args(&args(&["epoch", "log"])), Ok(Command::Log)));
    match parse_args(&args(&["epoch", "stop", "writing docs"])) {
        Ok(Command::Stop { description }) => assert_eq!(description, "writing docs"),
        other => panic!("unexpected {:?}", other),
    }
    match parse_args(&args(&["epoch", "delete", "abc"])) {
        Ok(Command::Delete { id }) => assert_eq!(id, "abc"),
        other => panic!("unexpected {:?}", other),
    }
    match parse_args(&args(&["epoch", "edit", "abc", "--desc", "new"])) {
        Ok(Command::Edit { id, description }) => {
            assert_eq!(id, "abc");
            assert_eq!(description, "new");
        }
        other => panic!("unexpected {:?}", other),
    }
}

#[test]
fn parse_errors() {
    assert!(matches!(parse_args(&args(&["epoch"])), Err(ArgError::NoCommand)));
    assert!(matches!(parse_args(&args(&["epoch", "stop"])), Err(ArgError::StopUsage)));
    assert!(matches!(parse_args(&args(&["epoch", "delete"])), Err(ArgError::DeleteUsage)));
    assert!(matches!(parse_args(&args(&["epoch", "edit", "abc", "--desc"])), Err(ArgError::EditUsage)));
    assert!(matches!(parse_args(&args(&["epoch", "edit", "abc", "-d", "x"])), Err(ArgError::EditUsage)));
    match parse_args(&args(&["epoch", "frobnicate"])) {
        Err(ArgError::Unknown(c)) => assert_eq!(c, "frobnicate"),
        other => panic!("unexpected {:?}", other),
    }
}

#[test]
fn usage_and_error_lines() {
    let usage = usage_lines();
    assert_eq!(usage.len(), 7);
    assert_eq!(usage[0], "Usage:");
    assert_eq!(usage[2], "  epoch stop \"description\"            Stop timer with description");
    assert_eq!(arg_error_lines(&ArgError::NoCommand), usage);
    assert_eq!(arg_error_lines(&ArgError::StopUsage), vec!["Usage: epoch stop \"description\"".to_string()]);
    assert_eq!(arg_error_lines(&ArgError::DeleteUsage), vec!["Usage: epoch delete <id>".to_string()]);
    assert_eq!(
        arg_error_lines(&ArgError::EditUsage),
        vec!["Usage: epoch edit <id> --desc \"new description\"".to_string()]
    );
    let unknown = arg_error_lines(&ArgError::Unknown("x".to_string()));
    assert_eq!(unknown.len(), 8);
    assert_eq!(unknown[0], "Unknown command: x");
    assert_eq!(&unknown[1..], &usage[..]);
}

#[test]
fn requests_of_commands() {
    let r = request_for(&Command::Start);
    assert_eq!((r.method, r.path.as_str()), (Method::Post, "/api/timer/start"));
    assert!(matches!(r.body, RequestBody::Nothing));
    let r = request_for(&Command::Stop { description: "docs".to_string() });
    assert_eq!((r.method, r.path.as_str()), (Method::Post, "/api/timer/stop"));
    match r.body {
        RequestBody::Stop(b) => assert_eq!(b.description, "docs"),
        other => panic!("unexpected {:?}", other),
    }
    let r = request_for(&Command::Status);
    assert_eq!((r.method, r.path.as_str()), (Method::Get, "/api/timer/status"));
    let r = request_for(&Command::Log);
    assert_eq!((r.method, r.path.as_str()), (Method::Get, "/api/entries"));
    let r = request_for(&Command::Delete { id: "42".to_string() });
    assert_eq!((r.method, r.path.as_str()), (Method::Delete, "/api/entries/42"));
    let r = request_for(&Command::Edit { id: "42".to_string(), description: "x".to_string() });
    assert_eq!((r.method, r.path.as_str()), (Method::Put, "/api/entries/42"));
    match r.body {
        RequestBody::Update(b) => assert_eq!(b.description.as_deref(), Some("x")),
        other => panic!("unexpected {:?}", other),
    }
    assert_eq!(
        endpoint_url("http://localhost:3000", "/api/entries"),
        "http://localhost:3000/api/entries"
    );
}

#[test]
fn status_codes_per_command() {
    match reply_check(&Command::Start, 409) {
        ReplyCheck::Refused(m) => assert_eq!(
            m,
            "A timer is already running. Stop it first with: epoch stop \"description\""
        ),
        other => panic!("unexpected {:?}", other),
    }
    assert!(matches!(reply_check(&Command::Start, 201), ReplyCheck::Accepted));
    assert!(matches!(reply_check(&Command::Start, 500), ReplyCheck::Failed));
    let stop = Command::Stop { description: "d".to_string() };
    match reply_check(&stop, 404) {
        ReplyCheck::Refused(m) => assert_eq!(m, "No running timer to stop."),
        other => panic!("unexpected {:?}", other),
    }
    assert!(matches!(reply_check(&stop, 409), ReplyCheck::Failed));
    let delete = Command::Delete { id: "1".to_string() };
    match reply_check(&delete, 404) {
        ReplyCheck::Refused(m) => assert_eq!(m, "Entry not found."),
        other => panic!("unexpected {:?}", other),
    }
    assert!(matches!(reply_check(&delete, 204), ReplyCheck::Accepted));
    let edit = Command::Edit { id: "1".to_string(), description: "d".to_string() };
    match reply_check(&edit, 404) {
        ReplyCheck::Refused(m) => assert_eq!(m, "Entry not found."),
        other => panic!("unexpected {:?}", other),
    }
    assert!(matches!(reply_check(&edit, 400), ReplyCheck::Failed));
    assert!(matches!(reply_check(&Command::Status, 500), ReplyCheck::Accepted));
    assert!(matches!(reply_check(&Command::Log, 401), ReplyCheck::Accepted));
    assert!(matches!(reply_check(&Command::Start, 199), ReplyCheck::Failed));
    assert!(matches!(reply_check(&Command::Start, 299), ReplyCheck::Accepted));
    assert!(matches!(reply_check(&Command::Start, 300), ReplyCheck::Failed));
}

#[test]
fn messages_after_success() {
    assert_eq!(error_message(&ErrorResponse { error: "boom".to_string() }), "Error: boom");
    assert_eq!(started_message(&entry(None, 3723, None)), "Timer started at 01:02:03");
    assert_eq!(
        stopped_message("writing docs", &entry(Some("other"), 0, Some(125))),
        "Stopped: writing docs (2m 5s)"
    );
    assert_eq!(done_message(&Command::Delete { id: "1".to_string() }).as_deref(), Some("Entry deleted."));
    assert_eq!(
        done_message(&Command::Edit { id: "1".to_string(), description: "d".to_string() }).as_deref(),
        Some("Entry updated.")
    );
    assert_eq!(done_message(&Command::Start), None);
}

#[test]
fn status_lines() {
    let idle = StatusResponse { running: false, entry: None };
    assert_eq!(status_message(&idle, &at(0)), "No timer running.");
    let busy = StatusResponse { running: true, entry: Some(entry(None, 3600, None)) };
    assert_eq!(status_message(&busy, &at(3600 + 3723)), "Running for 1h 2m 3s (started at 01:00:00)");
}

#[test]
fn log_output() {
    assert_eq!(log_lines(&vec![], &at(0)), vec!["No entries today.".to_string()]);
    let entries = vec![
        entry(None, 7200, None),
        entry(Some("pairing"), 3600, Some(3600 + 125)),
    ];
    assert_eq!(
        log_lines(&entries, &at(7200 + 59)),
        vec![
            "  02:00 - ...    59s  (running)".to_string(),
            "  01:00 - 01:02  2m 5s  pairing".to_string(),
        ]
    );
}

#[test]
fn leap_seconds() {
    // 23:59:60.5 on the day that ends at second 86_400.
    let leap = Timestamp::new(86_399, 1_500_000_000);
    assert_eq!(clock(&leap), "23:59:60");
    assert_eq!(clock_minutes(&leap), "23:59");
    // From 23:59:58 to 23:59:60.5: two and a half seconds.
    assert_eq!(seconds_between(&at(86_398), &leap), 2);
    // From 23:59:60.5 back to 23:59:59.9: less than a second.
    assert_eq!(seconds_between(&leap, &Timestamp::new(86_399, 900_000_000)), 0);
    // From a leap second at 00:00:59 to 00:01:10: the leap second counts.
    let early_leap = Timestamp::new(59, 1_000_000_000);
    assert_eq!(seconds_between(&early_leap, &at(70)), 11);
    assert_eq!(format_duration(&early_leap, &at(70)), "11s");
    // From 00:01:10 back to that leap second.
    assert_eq!(seconds_between(&at(70), &early_leap), -11);
}

#[test]
fn configuration_help() {
    assert_eq!(config_path("/home/me"), "/home/me/.epoch/config.toml");
    let lines = missing_config_lines("/home/me/.epoch/config.toml");
    assert_eq!(lines.len(), 8);
    assert_eq!(lines[0], "Config not found at /home/me/.epoch/config.toml");
    assert_eq!(lines[1], "Create it with:");
    assert_eq!(lines[2], "");
    assert_eq!(lines[4], "  cat > ~/.epoch/config.toml << 'EOF'");
    assert_eq!(lines[7], "  EOF");
}

#[test]
fn ordered_valid_moments_never_print_negative() {
    // Leap second 23:59:60.5, then 00:00:00.0 the next day: half a second.
    let leap = Timestamp::new(86_399, 1_500_000_000);
    assert_eq!(seconds_between(&leap, &at(86_400)), 0);
    assert_eq!(format_duration(&leap, &at(86_400)), "0s");
    assert_eq!(format_duration(&Timestamp::new(0, 999_999_999), &at(1)), "0s");
    assert_eq!(format_duration(&at(0), &Timestamp::new(3723, 999_999_999)), "1h 2m 3s");
}

#[test]
fn shifting_both_moments_keeps_duration() {
    let start = Timestamp::new(100, 250_000_000);
    let end = Timestamp::new(3823, 100_000_000);
    let shifted_start = Timestamp::new(5100, 750_000_000);
    let shifted_end = Timestamp::new(8823, 600_000_000);
    assert_eq!(format_duration(&start, &end), "1h 2m 2s");
    assert_eq!(format_duration(&shifted_start, &shifted_end), format_duration(&start, &end));
    assert_eq!(format_duration(&at(-7200), &at(-3477)), format_duration(&at(0), &at(3723)));
}
