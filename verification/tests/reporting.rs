use realm_control::report::{
    accept_failed, bind_given_up, bind_retried, hangup_panic, log_line, log_line_at, logger_panic,
    notice, relay_ended, round_failed, show_delay, udp_bind_panic, Record, Severity, Topic,
    STAMP_PATTERN,
};

fn record(severity: Severity, message: &str) -> Record {
    Record { severity, message: String::from(message) }
}

#[test]
fn a_log_line_is_exact() {
    assert_eq!(
        log_line_at("[2024-02-29][23:05:09]", "realm::tcp", Severity::Warn, "[tcp]failed"),
        "[2024-02-29][23:05:09][realm::tcp][WARN][tcp]failed"
    );
}

#[test]
fn severities_are_named_in_capitals() {
    let names = [
        (Severity::Error, "ERROR"),
        (Severity::Warn, "WARN"),
        (Severity::Info, "INFO"),
        (Severity::Debug, "DEBUG"),
        (Severity::Trace, "TRACE"),
    ];
    for (severity, name) in names {
        assert_eq!(log_line_at("", "", severity, ""), format!("[][{}]", name));
    }
}

#[test]
fn a_log_line_carries_the_local_time() {
    let before = chrono::Local::now().format("[%Y-%m-%d][%H:%M:%S]").to_string();
    let line = log_line("main", Severity::Info, "up");
    let after = chrono::Local::now().format("[%Y-%m-%d][%H:%M:%S]").to_string();
    let (stamp, rest) = line.split_at(22);
    assert_eq!(rest, "[main][INFO]up");
    assert!(before.as_str() <= stamp && stamp <= after.as_str());
    assert_ne!(stamp, STAMP_PATTERN);
}

#[test]
fn a_time_stamp_is_made_of_padded_numbers() {
    let line = log_line("", Severity::Debug, "");
    let stamp: Vec<char> = line.chars().take(22).collect();
    let shape = "[dddd-dd-dd][dd:dd:dd]";
    assert_eq!(stamp.len(), 22);
    for (c, s) in stamp.iter().zip(shape.chars()) {
        if s == 'd' {
            assert!(c.is_ascii_digit());
        } else {
            assert_eq!(*c, s);
        }
    }
}

#[test]
fn notices_name_their_topic() {
    assert_eq!(notice(Topic::Log, "level=warn"), "log: level=warn");
    assert_eq!(notice(Topic::Dns, "mode=both"), "dns: mode=both");
    assert_eq!(notice(Topic::Inited, "a -> b"), "inited: a -> b");
    assert_eq!(notice(Topic::Reload, "realm.toml"), "reload: realm.toml");
}

#[test]
fn failures_to_bind_are_exact() {
    assert_eq!(
        bind_retried("127.0.0.1:9000", 3, 5, "in use", "300ms"),
        record(
            Severity::Warn,
            "[tcp]failed to bind 127.0.0.1:9000 (attempt 3/5): in use, retry in 300ms"
        )
    );
    assert_eq!(
        bind_given_up("127.0.0.1:9000", 1, "denied"),
        record(Severity::Error, "[tcp]failed to bind 127.0.0.1:9000 after 1 attempt(s): denied")
    );
}

#[test]
fn counts_are_written_in_decimal() {
    for n in [0, 7, 10, 105, 98_760, u32::MAX] {
        let message = format!("[tcp]failed to bind a after {} attempt(s): e", n);
        assert_eq!(bind_given_up("a", n, "e"), record(Severity::Error, &message));
    }
}

#[test]
fn a_failure_to_accept_is_graver_if_it_is_the_last() {
    assert_eq!(accept_failed(true, "gone"), record(Severity::Warn, "[tcp]failed to accept: gone"));
    assert_eq!(accept_failed(false, "gone"), record(Severity::Error, "[tcp]failed to accept: gone"));
}

#[test]
fn ends_of_relays_are_exact() {
    assert_eq!(
        relay_ended("10.0.0.1:5", "example.org:80", None),
        record(Severity::Debug, "[tcp]10.0.0.1:5 => example.org:80, finish")
    );
    assert_eq!(
        relay_ended("10.0.0.1:5", "example.org:80", Some("reset")),
        record(Severity::Error, "[tcp]10.0.0.1:5 => example.org:80, error: reset")
    );
    assert_eq!(round_failed("reset"), record(Severity::Error, "[udp]error: reset"));
}

#[test]
fn panics_are_exact() {
    assert_eq!(
        udp_bind_panic("127.0.0.1:9000", "in use"),
        "[udp]failed to bind 127.0.0.1:9000: in use"
    );
    assert_eq!(logger_panic("already set"), "failed to setup logger: already set");
    assert_eq!(hangup_panic("Denied"), "failed to install SIGHUP handler: Denied");
}

#[test]
fn delays_are_written_in_milliseconds() {
    assert_eq!(show_delay(100), "100ms");
    for ms in [1, 20, 400, 999] {
        assert_eq!(show_delay(ms), format!("{:?}", std::time::Duration::from_millis(ms)));
    }
}
