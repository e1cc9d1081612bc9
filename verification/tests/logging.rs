use frper::instance::{instance_lock_name, make_sure_single_case, single_instance_decision, InstanceDecision};
use frper::logger::{level_field, log_action, log_file_record, ui_log_line, LogAction, LogColor, LogLevel};
use frper::text::{concat2, concat3, decimal_text, join_lines, same_text};

#[test]
fn level_fields_are_right_aligned() {
    assert_eq!(level_field(LogLevel::Error), "ERROR");
    assert_eq!(level_field(LogLevel::Warn), " WARN");
    assert_eq!(level_field(LogLevel::Info), " INFO");
    assert_eq!(level_field(LogLevel::Debug), "DEBUG");
    assert_eq!(level_field(LogLevel::Trace), "TRACE");
    assert_eq!(format!("{:>5}", "WARN"), level_field(LogLevel::Warn));
}

#[test]
fn log_file_records() {
    assert_eq!(
        log_file_record(Some("src/app.rs"), Some(42), LogLevel::Error, "boom"),
        "src/app.rs:42 ERROR boom\n"
    );
    assert_eq!(log_file_record(None, None, LogLevel::Warn, "w"), "unnamed:0  WARN w\n");
    assert_eq!(
        log_file_record(Some("a"), Some(4294967295), LogLevel::Info, ""),
        "a:4294967295  INFO \n"
    );
}

#[test]
fn actions_by_build_and_level() {
    assert_eq!(log_action(LogLevel::Error, false), LogAction::SaveToFile);
    assert_eq!(log_action(LogLevel::Warn, false), LogAction::Discard);
    assert_eq!(log_action(LogLevel::Trace, false), LogAction::Discard);
    assert_eq!(log_action(LogLevel::Error, true), LogAction::Print(LogColor::Red));
    assert_eq!(log_action(LogLevel::Warn, true), LogAction::Print(LogColor::Rgb(255, 125, 0)));
    assert_eq!(log_action(LogLevel::Info, true), LogAction::Print(LogColor::Green));
    assert_eq!(log_action(LogLevel::Debug, true), LogAction::Print(LogColor::Rgb(88, 88, 88)));
    assert_eq!(log_action(LogLevel::Trace, true), LogAction::Print(LogColor::Rgb(88, 88, 88)));
}

#[test]
fn ui_lines() {
    assert_eq!(ui_log_line("2024/01/02 03:04:05", "hello"), "2024/01/02 03:04:05 [S] hello");
}

#[test]
fn decimal_numerals() {
    for n in [0u32, 7, 10, 99, 100, 1234567, u32::MAX] {
        assert_eq!(decimal_text(n), n.to_string());
    }
}

#[test]
fn text_helpers() {
    assert!(same_text("abc", "abc"));
    assert!(!same_text("abc", "abd"));
    assert!(!same_text("abc", "ab"));
    assert_eq!(concat2("a", "bc"), "abc");
    assert_eq!(concat3("a", "=", "b"), "a=b");
    let lines = vec!["x".to_string(), "".to_string(), "z".to_string()];
    assert_eq!(join_lines(&lines, "\n"), lines.join("\n"));
    assert_eq!(join_lines(&vec![], ","), "");
}

#[test]
fn single_instance_check_returns() {
    make_sure_single_case();
}

#[test]
fn single_instance_decisions() {
    assert_eq!(instance_lock_name(), "frper.xsa.link@fuyoo");
    assert!(matches!(single_instance_decision(2, 2052), InstanceDecision::TakeLock));
    assert!(matches!(single_instance_decision(2, 1033), InstanceDecision::TakeLock));
    match single_instance_decision(0, 2052) {
        InstanceDecision::AlreadyRunning { text, caption } => {
            assert_eq!((text, caption), ("Frper 正在运行中, 请不要重复运行！", "提示"));
        }
        InstanceDecision::TakeLock => panic!("a running client must be reported"),
    }
    match single_instance_decision(183, 1033) {
        InstanceDecision::AlreadyRunning { text, caption } => {
            assert_eq!((text, caption), ("Frper is Running, Please do not run it again!", "Tips"));
        }
        InstanceDecision::TakeLock => panic!("a running client must be reported"),
    }
}
