//! Tests for the wiring and the check driver: building actions, checks
//! and the report from configuration, and running ticks end to end.

use minmon::action::Payload;
use minmon::check::SourceOutcome;
use minmon::measurement::{Level, Measurement};
use minmon::placeholder::PlaceholderMap;

fn map_of(pairs: &[(&str, &str)]) -> PlaceholderMap {
    let mut m = PlaceholderMap::new();
    for (k, v) in pairs {
        m.insert(String::from(*k), String::from(*v));
    }
    m
}

fn log_action_config(name: &str, template: &str) -> minmon::config::Action {
    minmon::config::Action {
        disable: false,
        name: String::from(name),
        timeout: 10,
        placeholders: PlaceholderMap::new(),
        type_: minmon::config::ActionType::Log(minmon::config::ActionLog {
            level: minmon::config::LogLevel::Info,
            template: String::from(template),
        }),
    }
}

fn filesystem_check_config(alarms: Vec<minmon::config::Alarm>) -> minmon::config::Check {
    minmon::config::Check {
        disable: false,
        interval: 300,
        name: String::from("fs"),
        timeout: None,
        placeholders: map_of(&[("check_key", "check_value")]),
        filter: None,
        type_: minmon::config::CheckType::FilesystemUsage(minmon::config::CheckFilesystemUsage {
            mountpoints: vec![String::from("/srv")],
        }),
        alarms,
    }
}

fn level_alarm_config(name: &str, level: u8) -> minmon::config::Alarm {
    minmon::config::Alarm {
        disable: false,
        name: String::from(name),
        action: String::from("log"),
        placeholders: PlaceholderMap::new(),
        cycles: 1,
        repeat_cycles: 0,
        recover_action: None,
        recover_placeholders: PlaceholderMap::new(),
        recover_cycles: 1,
        error_action: Some(String::from("log")),
        error_placeholders: PlaceholderMap::new(),
        error_repeat_cycles: 0,
        error_recover_action: None,
        error_recover_placeholders: PlaceholderMap::new(),
        invert: false,
        type_: minmon::config::AlarmType::Level(minmon::config::AlarmLevel { level }),
    }
}

fn engine_config(alarms: Vec<minmon::config::Alarm>) -> minmon::config::Config {
    minmon::config::Config {
        general: minmon::config::General {
            boot_delay: None,
            start_delay: None,
        },
        log: minmon::config::Log {
            level: minmon::config::LogLevel::Info,
            target: minmon::config::LogTarget::Stdout,
        },
        report: minmon::config::Report {
            disable: true,
            when: minmon::config::ReportWhen {
                interval: None,
                cron: None,
            },
            placeholders: PlaceholderMap::new(),
            events: Vec::new(),
        },
        actions: vec![log_action_config(
            "log",
            "{{check_name}}/{{alarm_name}}: {{level}} ({{alarm_state}})",
        )],
        checks: vec![filesystem_check_config(alarms)],
    }
}

#[test]
fn test_from_config_and_tick() {
    let config = engine_config(vec![level_alarm_config("usage", 50)]);
    let (report, mut checks) = minmon::from_config(&config).unwrap();
    assert!(report.is_none());
    assert_eq!(checks.len(), 1);
    let check = &mut checks[0];
    let data = vec![Ok(Some(Measurement::Level(Level::new(75).unwrap())))];
    let invs = check.trigger(
        SourceOutcome::Data(data, PlaceholderMap::new()),
        1000,
        10,
    );
    assert_eq!(invs.len(), 1);
    match &invs[0].payload {
        Payload::LogLine { text, .. } => assert_eq!(text, "fs/usage: 75% (Bad)"),
        _ => panic!("expected a log line"),
    }
    assert_eq!(invs[0].placeholders.get("check_key").unwrap(), "check_value");
    assert_eq!(invs[0].placeholders.get("check_id").unwrap(), "/srv");
    assert_eq!(invs[0].placeholders.get("system_uptime").unwrap(), "1000");
    // a good reading within the threshold recovers silently: no
    // recover action is configured
    let data = vec![Ok(Some(Measurement::Level(Level::new(20).unwrap())))];
    let invs = check.trigger(
        SourceOutcome::Data(data, PlaceholderMap::new()),
        1001,
        11,
    );
    assert!(invs.is_empty());
}

#[test]
fn test_from_config_omits_disabled_alarms() {
    let mut disabled = level_alarm_config("paused", 10);
    disabled.disable = true;
    let config = engine_config(vec![
        level_alarm_config("first", 50),
        disabled,
        level_alarm_config("second", 80),
    ]);
    let (_, checks) = minmon::from_config(&config).unwrap();
    assert_eq!(checks[0].alarms.len(), 1);
    let row = &checks[0].alarms[0];
    assert_eq!(row.len(), 2);
    assert_eq!(row[0].name, "first");
    assert_eq!(row[1].name, "second");
    match &row[1].data_sink {
        minmon::alarm::DataSink::Level(l) => assert_eq!(l.level.data(), 80),
        _ => panic!("expected a level sink"),
    }
}

#[test]
fn test_timeout_substitutes_errors() {
    let config = engine_config(vec![level_alarm_config("usage", 50)]);
    let (_, mut checks) = minmon::from_config(&config).unwrap();
    let invs = checks[0].trigger(SourceOutcome::TimedOut, 1000, 10);
    assert_eq!(invs.len(), 1);
    assert_eq!(
        invs[0].placeholders.get("check_error").unwrap(),
        "Timed out after 5 seconds."
    );
    assert_eq!(invs[0].placeholders.get("alarm_state").unwrap(), "Error");
}

#[test]
fn test_source_failure_reaches_every_alarm() {
    let config = engine_config(vec![
        level_alarm_config("usage-a", 50),
        level_alarm_config("usage-b", 60),
    ]);
    let (_, mut checks) = minmon::from_config(&config).unwrap();
    let invs = checks[0].trigger(
        SourceOutcome::Failed(minmon::Error(String::from("probe failed"))),
        1000,
        10,
    );
    assert_eq!(invs.len(), 2);
    for inv in &invs {
        assert_eq!(inv.placeholders.get("check_error").unwrap(), "probe failed");
    }
}

#[test]
fn test_duplicate_action_name_rejected() {
    let mut config = engine_config(vec![level_alarm_config("usage", 50)]);
    config.actions.push(log_action_config("log", "again"));
    let err = minmon::from_config(&config).unwrap_err();
    assert_eq!(err.0, "Found duplicate action name: log");
}

#[test]
fn test_duplicate_alarm_name_rejected() {
    let config = engine_config(vec![
        level_alarm_config("usage", 50),
        level_alarm_config("usage", 60),
    ]);
    let err = minmon::from_config(&config).unwrap_err();
    assert_eq!(
        err.0,
        "Failed to create check 'fs' from config: Found duplicate alarm name 'usage' for check 'fs'."
    );
}

#[test]
fn test_unknown_action_rejected() {
    let mut alarm = level_alarm_config("usage", 50);
    alarm.action = String::from("nope");
    let config = engine_config(vec![alarm]);
    let err = minmon::from_config(&config).unwrap_err();
    assert_eq!(
        err.0,
        "Failed to create check 'fs' from config: Action 'nope' not found."
    );
}

#[test]
fn test_report_validation() {
    let invalid_interval = minmon::config::ReportWhen {
        interval: Some(0),
        cron: None,
    };
    assert!(minmon::report::Report::new(&invalid_interval, PlaceholderMap::new(), Vec::new())
        .is_err());
}

#[test]
fn test_report_trigger() {
    let action = std::sync::Arc::new(
        minmon::action::ActionBase::new(
            String::from("report-log"),
            PlaceholderMap::new(),
            10,
            minmon::action::ActionKind::Log(minmon::action::Log {
                level: minmon::config::LogLevel::Info,
                template: String::from("event {{event_name}} after {{minmon_uptime_iso}}"),
            }),
        )
        .unwrap(),
    );
    let event =
        minmon::report::ReportEvent::new(String::from("heartbeat"), PlaceholderMap::new(), action)
            .unwrap();
    let when = minmon::config::ReportWhen {
        interval: Some(60),
        cron: None,
    };
    let mut report =
        minmon::report::Report::new(&when, PlaceholderMap::new(), vec![event]).unwrap();
    let invs = report.trigger(600, 90);
    assert_eq!(invs.len(), 1);
    match &invs[0].payload {
        Payload::LogLine { text, .. } => {
            assert_eq!(text, "event heartbeat after PT1M30S");
        }
        _ => panic!("expected a log line"),
    }
}

#[test]
fn test_cron_expression_validation() {
    let when_good = minmon::config::ReportWhen {
        interval: None,
        cron: Some(String::from("0 0 * * * *")),
    };
    assert!(minmon::report::Report::new(&when_good, PlaceholderMap::new(), Vec::new()).is_ok());
    let when_bad = minmon::config::ReportWhen {
        interval: None,
        cron: Some(String::from("not a schedule")),
    };
    let err = minmon::report::Report::new(&when_bad, PlaceholderMap::new(), Vec::new())
        .unwrap_err();
    assert_eq!(err.0, "Could not parse cron expression.");
}

#[test]
fn test_action_validation_errors() {
    let mut empty_template = log_action_config("log", "");
    empty_template.type_ = minmon::config::ActionType::Log(minmon::config::ActionLog {
        level: minmon::config::LogLevel::Info,
        template: String::new(),
    });
    assert_eq!(
        minmon::action::from_action_config(&empty_template).unwrap_err().0,
        "'template' cannot be empty."
    );
    let bad_email = minmon::config::Action {
        disable: false,
        name: String::from("mail"),
        timeout: 10,
        placeholders: PlaceholderMap::new(),
        type_: minmon::config::ActionType::Email(minmon::config::ActionEmail {
            from: String::from("not-an-address"),
            to: String::from("ops@example.org"),
            reply_to: None,
            subject: String::from("s"),
            body: String::from("b"),
            smtp_server: String::from("smtp.example.org"),
            smtp_port: None,
            smtp_security: minmon::config::SmtpSecurity::Tls,
            username: String::from("u"),
            password: String::from("p"),
        }),
    };
    assert_eq!(
        minmon::action::from_action_config(&bad_email).unwrap_err().0,
        "Invalid sender email address."
    );
    let bad_header = minmon::config::Action {
        disable: false,
        name: String::from("hook"),
        timeout: 10,
        placeholders: PlaceholderMap::new(),
        type_: minmon::config::ActionType::Webhook(minmon::config::ActionWebhook {
            url: String::from("http://example.org"),
            method: minmon::config::HttpMethod::Post,
            headers: map_of(&[("bad header", "x")]),
            body: String::new(),
        }),
    };
    assert_eq!(
        minmon::action::from_action_config(&bad_header).unwrap_err().0,
        "Could not parse header name."
    );
}

#[test]
fn test_email_action_accepts_valid_addresses() {
    let good_email = minmon::config::Action {
        disable: false,
        name: String::from("mail"),
        timeout: 10,
        placeholders: PlaceholderMap::new(),
        type_: minmon::config::ActionType::Email(minmon::config::ActionEmail {
            from: String::from("MinMon <minmon@example.org>"),
            to: String::from("ops@example.org"),
            reply_to: None,
            subject: String::from("{{alarm_name}} is {{alarm_state}}"),
            body: String::from("level: {{level}}"),
            smtp_server: String::from("smtp.example.org"),
            smtp_port: Some(587),
            smtp_security: minmon::config::SmtpSecurity::StartTls,
            username: String::from("u"),
            password: String::from("p"),
        }),
    };
    let action = minmon::action::from_action_config(&good_email).unwrap();
    let inv = action.trigger(map_of(&[
        ("alarm_name", "disk"),
        ("alarm_state", "Bad"),
        ("level", "93%"),
    ]));
    match &inv.payload {
        Payload::EmailMessage { subject, body, .. } => {
            assert_eq!(subject, "disk is Bad");
            assert_eq!(body, "level: 93%");
        }
        _ => panic!("expected a mail"),
    }
}

#[test]
fn test_webhook_renders_and_keeps_user_agent() {
    let config = minmon::config::Action {
        disable: false,
        name: String::from("hook"),
        timeout: 10,
        placeholders: PlaceholderMap::new(),
        type_: minmon::config::ActionType::Webhook(minmon::config::ActionWebhook {
            url: String::from("http://example.org/{{id}}"),
            method: minmon::config::HttpMethod::Post,
            headers: PlaceholderMap::new(),
            body: String::from("value={{value}}"),
        }),
    };
    let action = minmon::action::from_action_config(&config).unwrap();
    let inv = action.trigger(map_of(&[("id", "seven"), ("value", "42")]));
    match &inv.payload {
        Payload::HttpRequest {
            url,
            headers,
            body,
            ..
        } => {
            assert_eq!(url, "http://example.org/seven");
            assert_eq!(body, "value=42");
            assert_eq!(headers.len(), 1);
            assert_eq!(headers[0].0, "User-Agent");
            assert_eq!(headers[0].1, "MinMon/v0.1.0");
        }
        _ => panic!("expected an HTTP request"),
    }
}

#[test]
fn test_process_action_renders_command() {
    let mut env = PlaceholderMap::new();
    env.insert(String::from("WHO"), String::from("{{alarm_name}}"));
    let config = minmon::config::Action {
        disable: false,
        name: String::from("run"),
        timeout: 10,
        placeholders: PlaceholderMap::new(),
        type_: minmon::config::ActionType::Process(minmon::config::ActionProcess {
            process_config: minmon::config::ProcessConfig {
                path: String::from("/usr/bin/true"),
                arguments: vec![String::from("--alarm={{alarm_name}}")],
                environment_variables: env,
                working_directory: None,
                uid: None,
                gid: None,
                stdout_max: 512,
                stderr_max: 512,
            },
        }),
    };
    let action = minmon::action::from_action_config(&config).unwrap();
    let inv = action.trigger(map_of(&[("alarm_name", "disk")]));
    match &inv.payload {
        Payload::ProcessRun {
            path,
            arguments,
            environment,
            ..
        } => {
            assert_eq!(path, "/usr/bin/true");
            assert_eq!(arguments, &vec![String::from("--alarm=disk")]);
            assert_eq!(environment.len(), 1);
            assert_eq!(environment[0].0, "WHO");
            assert_eq!(environment[0].1, "disk");
        }
        _ => panic!("expected a process run"),
    }
}

#[test]
fn test_filtered_check_tick() {
    let mut config = engine_config(vec![level_alarm_config("usage", 10)]);
    config.checks[0].filter = Some(minmon::config::Filter::Average(minmon::config::FilterAverage {
        window_config: minmon::config::FilterWindowConfig { window_size: 5 },
    }));
    let (_, mut checks) = minmon::from_config(&config).unwrap();
    // the averages over the growing window are 1, 6, 14, 11, 10: the
    // alarm sees the reduced values and turns bad exactly when the
    // average first exceeds its threshold
    let feed = [1u8, 10, 30, 4, 3];
    let mut fired = Vec::new();
    for v in feed {
        let data = vec![Ok(Some(Measurement::Level(Level::new(v).unwrap())))];
        let invs = checks[0].trigger(
            SourceOutcome::Data(data, PlaceholderMap::new()),
            1,
            1,
        );
        for inv in invs {
            fired.push(inv.placeholders.get("level").unwrap().clone());
        }
    }
    assert_eq!(fired, vec![String::from("14%")]);
}

#[test]
fn test_process_file_name() {
    let pc = minmon::process::ProcessConfig::new(
        String::from("/usr/bin/systemctl"),
        Vec::new(),
        PlaceholderMap::new(),
        None,
        None,
        None,
        512,
        512,
    )
    .unwrap();
    assert_eq!(pc.file_name().unwrap(), "systemctl");
    assert!(minmon::process::ProcessConfig::new(
        String::from("/usr/bin/"),
        Vec::new(),
        PlaceholderMap::new(),
        None,
        None,
        None,
        512,
        512,
    )
    .unwrap()
    .file_name()
    .unwrap()
    .eq("bin"));
    assert!(minmon::process::ProcessConfig::new(
        String::from(".."),
        Vec::new(),
        PlaceholderMap::new(),
        None,
        None,
        None,
        512,
        512,
    )
    .is_err());
}
