use a_bean_sieve::cli::{filter_type_from_name, CliStep, CommandLineAdapter, Flag};
use a_bean_sieve::events::{ProxyEvent, ProxyView};
use a_bean_sieve::logger::{LogLevel, Moment};

const AT: Moment = Moment { seconds: 0, nanos: 0 };
use a_bean_sieve::traffic_filter::TrafficFilterType;

fn args(items: &[&str]) -> Vec<String> {
    items.iter().map(|s| s.to_string()).collect()
}

fn read(items: &[&str]) -> (CommandLineAdapter, Result<CliStep, String>) {
    let mut adapter = CommandLineAdapter::default();
    let outcome = adapter.map_arg_to_flag(&args(items));
    (adapter, outcome)
}

#[test]
fn flags_in_long_and_short_form() {
    let cases = [
        ("--no-ui", Flag::CommandLine),
        ("--port", Flag::Port),
        ("-p", Flag::Port),
        ("--log-level", Flag::LogLevel),
        ("-l", Flag::LogLevel),
        ("--filter", Flag::TrafficFilter),
        ("-f", Flag::TrafficFilter),
        ("--filter-type", Flag::TrafficFilterType),
        ("-ft", Flag::TrafficFilterType),
        ("--filter-list", Flag::TrafficFilterList),
        ("-fl", Flag::TrafficFilterList),
        ("--help", Flag::Help),
        ("-h", Flag::Help),
        ("8080", Flag::Value),
        ("--PORT", Flag::Value),
        ("", Flag::Value),
    ];
    for (text, flag) in cases {
        assert_eq!(Flag::from(&text.to_string()), flag);
    }
}

#[test]
fn flags_that_take_a_value() {
    assert!(Flag::Port.requires_value());
    assert!(Flag::LogLevel.requires_value());
    assert!(Flag::TrafficFilterType.requires_value());
    assert!(Flag::TrafficFilterList.requires_value());
    assert!(!Flag::CommandLine.requires_value());
    assert!(!Flag::TrafficFilter.requires_value());
    assert!(!Flag::Help.requires_value());
    assert!(!Flag::Value.requires_value());
    assert_eq!(Flag::TrafficFilterList.to_string(), "TrafficFilterList");
}

#[test]
fn defaults_without_arguments() {
    let (adapter, outcome) = read(&[]);
    assert!(matches!(outcome, Ok(CliStep::Finished)));
    assert!(!adapter.cmd_only());
    let (proxy, event) = adapter.run(AT);
    assert_eq!(event, ProxyEvent::Starting);
    assert_eq!(proxy.port, "8080");
    assert_eq!(proxy.view, ProxyView::Min);
    assert_eq!(proxy.get_logger().level(), LogLevel::Info);
    assert!(!proxy.get_traffic_filter().get_enabled());
    assert_eq!(proxy.get_traffic_filter().get_filter_type(), TrafficFilterType::Allow);
    assert!(proxy.get_traffic_filter().get_filter_list().is_empty());
    assert_eq!(proxy.get_status(), ProxyEvent::Stopped);
    assert_eq!(proxy.stop(), Some(ProxyEvent::Terminating));
}

#[test]
fn a_full_command_line() {
    let (adapter, outcome) =
        read(&["--no-ui", "-p", "9000", "--log-level", "DEBUG", "-ft", "DENY", "--filter"]);
    assert!(matches!(outcome, Ok(CliStep::Finished)));
    assert!(adapter.cmd_only());
    let (proxy, _) = adapter.run(AT);
    assert_eq!(proxy.port, "9000");
    assert_eq!(proxy.get_logger().level(), LogLevel::Debug);
    assert!(proxy.get_traffic_filter().get_enabled());
    assert_eq!(proxy.get_traffic_filter().get_filter_type(), TrafficFilterType::Deny);
}

#[test]
fn a_flag_value_may_look_like_a_flag() {
    let (adapter, outcome) = read(&["--port", "--no-ui"]);
    assert!(matches!(outcome, Ok(CliStep::Finished)));
    assert!(!adapter.cmd_only());
    assert_eq!(adapter.run(AT).0.port, "--no-ui");
}

#[test]
fn a_value_without_a_flag_is_refused() {
    let (_, outcome) = read(&["8080"]);
    assert_eq!(
        outcome.unwrap_err(),
        "Value: Value, has been provided without the appropriate flag..."
    );
    let (adapter, outcome) = read(&["--no-ui", "oops", "--port", "1"]);
    assert!(outcome.is_err());
    assert!(adapter.cmd_only());
    assert_eq!(adapter.run(AT).0.port, "8080");
}

#[test]
fn a_flag_without_its_value_is_refused() {
    assert_eq!(
        read(&["--port"]).1.unwrap_err(),
        "Flag: Port, has been provided without the appropriate value..."
    );
    assert_eq!(
        read(&["-l"]).1.unwrap_err(),
        "Flag: LogLevel, has been provided without the appropriate value..."
    );
    assert_eq!(
        read(&["--filter", "-ft"]).1.unwrap_err(),
        "Flag: TrafficFilterType, has been provided without the appropriate value..."
    );
    assert_eq!(
        read(&["-fl"]).1.unwrap_err(),
        "Flag: TrafficFilterList, has been provided without the appropriate value..."
    );
}

#[test]
fn an_unknown_mode_is_refused() {
    let (adapter, outcome) = read(&["--filter-type", "Maybe"]);
    assert_eq!(outcome.unwrap_err(), "Value: Maybe is not one of ['ALLOW', 'DENY'].");
    assert!(adapter.run(AT).0.get_traffic_filter().get_enabled());
}

#[test]
fn modes_by_name() {
    assert_eq!(filter_type_from_name("allow"), Some(TrafficFilterType::Allow));
    assert_eq!(filter_type_from_name("deny"), Some(TrafficFilterType::Deny));
    assert_eq!(filter_type_from_name("DENY"), None);
    assert_eq!(filter_type_from_name(""), None);
    let (adapter, _) = read(&["-ft", "Allow"]);
    assert_eq!(adapter.run(AT).0.get_traffic_filter().get_filter_type(), TrafficFilterType::Allow);
    let (adapter, _) = read(&["-ft", "dEnY"]);
    assert_eq!(adapter.run(AT).0.get_traffic_filter().get_filter_type(), TrafficFilterType::Deny);
}

#[test]
fn help_stops_the_reading() {
    let (adapter, outcome) = read(&["--port", "9000", "--help", "--no-ui"]);
    assert!(matches!(outcome, Ok(CliStep::Usage)));
    assert!(!adapter.cmd_only());
    assert_eq!(adapter.run(AT).0.port, "9000");
    assert!(matches!(read(&["-h"]).1, Ok(CliStep::Usage)));
}

#[test]
fn a_list_is_imported_between_two_readings() {
    let arguments = args(&["-fl", "./list.csv", "--no-ui", "-ft", "deny"]);
    let mut adapter = CommandLineAdapter::default();
    let resume = match adapter.map_arg_to_flag(&arguments) {
        Ok(CliStep::ImportList { path, resume }) => {
            assert_eq!(path, "./list.csv");
            assert_eq!(resume, 2);
            resume
        }
        _ => panic!("expected an import"),
    };
    assert!(adapter.import_filter_list(Ok(args(&["a.test", "b.test"]))).is_ok());
    assert!(matches!(adapter.map_arg_to_flag_from(&arguments, resume), Ok(CliStep::Finished)));
    assert!(adapter.cmd_only());
    let (proxy, _) = adapter.run(AT);
    let filter = proxy.get_traffic_filter();
    assert!(filter.get_enabled());
    assert_eq!(filter.get_filter_type(), TrafficFilterType::Deny);
    assert_eq!(filter.get_filter_list(), args(&["a.test", "b.test"]));
}

#[test]
fn a_failed_import_is_reported() {
    let mut adapter = CommandLineAdapter::default();
    let verdict = adapter.import_filter_list(Err("No such file or directory".to_string()));
    assert_eq!(verdict.unwrap_err(), "CSV could not be imported - No such file or directory");
    assert!(adapter.run(AT).0.get_traffic_filter().get_filter_list().is_empty());
}

#[test]
fn reading_from_beyond_the_end_finishes() {
    let mut adapter = CommandLineAdapter::default();
    let arguments = args(&["--no-ui"]);
    assert!(matches!(adapter.map_arg_to_flag_from(&arguments, 1), Ok(CliStep::Finished)));
    assert!(matches!(adapter.map_arg_to_flag_from(&arguments, 7), Ok(CliStep::Finished)));
    assert!(!adapter.cmd_only());
}
