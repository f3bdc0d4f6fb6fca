use osservice::bridge::{deliver_notify_outcome, notify_outcome, settle, BridgeError, Completion};
use osservice::config::{
    config_parse_error, config_path, config_read_error, log_line, ServiceConfig,
};
use osservice::dispatch::{
    config_failure_exit, dispatch_report, dispatch_result, dispatch_start_message, EXIT_CONFIG_FAILURE,
    EXIT_DISPATCH_COMPLETE, EXIT_DISPATCH_FAILED,
};

#[test]
fn config_sits_beside_module() {
    assert_eq!(config_path("C:\\svc\\osservice.dll"), "C:\\svc\\osservice.dll.config.json");
}

#[test]
fn missing_config_exits_minus_one() {
    assert_eq!(EXIT_CONFIG_FAILURE, -1);
    let missing = Err(config_read_error("C:\\a.config.json", "not found", Some(2)));
    assert_eq!(config_failure_exit(&missing), Some(-1));
    let loaded = Ok(ServiceConfig::new("svc1".to_string(), String::new()));
    assert_eq!(config_failure_exit(&loaded), None);
    let e = config_read_error("C:\\a.config.json", "not found", Some(2));
    assert_eq!(e.code, 2);
    assert_eq!(e.msg, "Error reading config file, path: [C:\\a.config.json], message: [not found]");
    assert_eq!(config_read_error("p", "r", None).code, 1);
    assert_eq!(config_read_error("p", "r", Some(-1)).code, u32::MAX);
}

#[test]
fn unparsable_config_error() {
    let e = config_parse_error("p.json", "missing field");
    assert_eq!(e.code, 1);
    assert_eq!(e.msg, "Error deserializing config file, path: [p.json], message: [missing field]");
}

#[test]
fn empty_log_path_disables_logging() {
    let conf = ServiceConfig::new("svc1".to_string(), String::new());
    assert_eq!(conf.log_destination(), None);
    let conf = ServiceConfig::new("svc1".to_string(), "C:\\logs\\svc1.log".to_string());
    assert_eq!(conf.log_destination(), Some("C:\\logs\\svc1.log".to_string()));
}

#[test]
fn log_lines() {
    assert_eq!(log_line("2021-05-01T10:00:00+00:00", "hello"), "2021-05-01T10:00:00+00:00 hello\r\n");
    assert_eq!(log_line("", ""), " \r\n");
    assert_eq!(log_line("t", "a b"), "t a b\r\n");
}

#[test]
fn successful_dispatch_run() {
    let conf = ServiceConfig::new("svc1".to_string(), "C:\\logs\\svc1.log".to_string());
    let first = dispatch_start_message(&conf.service_name);
    assert_eq!(first, "Is due to call SCM dispatcher, service name: [svc1]");
    assert!(first.contains("due to call"));
    let outcome = dispatch_result(&conf.service_name, 1, 0);
    assert!(outcome.is_ok());
    let report = dispatch_report(&outcome);
    assert_eq!(report.exit_code, EXIT_DISPATCH_COMPLETE);
    assert_eq!(report.exit_code, 0);
    assert_eq!(report.log_message, "SCM dispatcher run complete, service is stopping now");
    assert!(report.log_message.contains("dispatcher run complete"));
}

#[test]
fn failed_dispatch_run() {
    let outcome = dispatch_result("bad", 0, 1063);
    let e = outcome.clone().unwrap_err();
    assert_eq!(e.code, 1063);
    assert_eq!(e.msg, "StartServiceCtrlDispatcherW error, name: [bad]");
    let report = dispatch_report(&outcome);
    assert_eq!(report.exit_code, EXIT_DISPATCH_FAILED);
    assert_eq!(report.exit_code, 1);
    assert_eq!(
        report.log_message,
        "SCM dispatcher error, code: [1063], message: [StartServiceCtrlDispatcherW error, name: [bad]]"
    );
    assert!(report.log_message.contains("dispatcher error"));
}

#[test]
fn notify_outcomes() {
    assert_eq!(notify_outcome(1), Ok(()));
    assert_eq!(notify_outcome(42), Ok(()));
    assert_eq!(notify_outcome(0), Err(BridgeError::Notify { code: 0 }));
    assert_eq!(notify_outcome(-22), Err(BridgeError::Notify { code: -22 }));
    assert_eq!(BridgeError::Notify { code: -22 }.message(), "Error notifying SystemD, code: [-22]");
    assert_eq!(BridgeError::Channel.message(), "Async op channel receive failure");
}

#[test]
fn unavailable_init_system_resolves_to_notify_error() {
    let (tx, rx) = futures::channel::oneshot::channel::<Completion>();
    assert_eq!(deliver_notify_outcome(tx, 0), Ok(()));
    let r = settle(futures::executor::block_on(rx));
    assert_eq!(r, Err(BridgeError::Notify { code: 0 }));
}

#[test]
fn ready_notification_resolves_ok() {
    let (tx, rx) = futures::channel::oneshot::channel::<Completion>();
    assert_eq!(deliver_notify_outcome(tx, 1), Ok(()));
    assert_eq!(settle(futures::executor::block_on(rx)), Ok(()));
}

#[test]
fn dropped_receiver_hands_outcome_back() {
    let (tx, rx) = futures::channel::oneshot::channel::<Completion>();
    drop(rx);
    assert_eq!(deliver_notify_outcome(tx, -3), Err(Err(BridgeError::Notify { code: -3 })));
}

#[test]
fn worker_gone_without_sending_is_channel_error() {
    let (tx, rx) = futures::channel::oneshot::channel::<Completion>();
    drop(tx);
    assert_eq!(settle(futures::executor::block_on(rx)), Err(BridgeError::Channel));
}
