use a_bean_sieve::events::{
    ProxyEvent, ProxyExclusionList, ProxyExclusionRow, ProxyExclusionUpdateKind,
    ProxyRequestLog, ProxyView,
};
use a_bean_sieve::logger::{LogLevel, Moment};
use a_bean_sieve::proxy::Received;
use a_bean_sieve::proxy::{Proxy, NANOS_PER_SECOND};
use a_bean_sieve::traffic_filter::{TrafficFilter, TrafficFilterType};

const AT: Moment = Moment { seconds: 1_704_164_645, nanos: 678_000_000 };

fn strings(items: &[&str]) -> Vec<String> {
    items.iter().map(|s| s.to_string()).collect()
}

fn proxy_on(port: &str) -> Proxy {
    Proxy::new(port.to_string(), ProxyView::Min, TrafficFilter::default(), LogLevel::Debug, AT)
}

fn entry(method: &str, request: &str, blocked: bool) -> ProxyRequestLog {
    ProxyRequestLog { method: method.to_string(), request: request.to_string(), blocked }
}

#[test]
fn a_new_proxy_is_stopped() {
    let proxy = proxy_on("8080");
    assert_eq!(proxy.get_status(), ProxyEvent::Stopped);
    assert_eq!(proxy.port, "8080");
    assert_eq!(proxy.port_error, "");
    assert!(proxy.start_enabled);
    assert_eq!(proxy.view, ProxyView::Min);
    assert_eq!(proxy.selected_value, "");
    assert_eq!(proxy.selected_exclusion_row, ProxyExclusionRow::default());
    assert!(proxy.get_requests().is_empty());
    assert_eq!(proxy.get_run_time(5 * NANOS_PER_SECOND), "0");
    assert!(proxy.stop().is_none());
    assert!(!proxy.termination_requested());
    assert_eq!(proxy.get_logger().level(), LogLevel::Debug);
}

#[test]
fn a_new_proxy_records_its_log_level() {
    let proxy = proxy_on("8080");
    let logs = proxy.get_logger().get_logs();
    assert_eq!(logs.len(), 1);
    assert_eq!(logs[0].level, LogLevel::Global);
    assert_eq!(logs[0].message, "Log level has been set to: DEBUG");
}

#[test]
fn the_default_proxy() {
    let proxy = Proxy::default();
    assert_eq!(proxy.get_status(), ProxyEvent::Stopped);
    assert_eq!(proxy.port, "");
    assert!(proxy.start_enabled);
    assert_eq!(proxy.get_logger().level(), LogLevel::Info);
    assert!(proxy.get_logger().get_logs().is_empty());
    assert!(!proxy.get_traffic_filter().get_enabled());
}

#[test]
fn a_full_cycle_returns_to_stopped() {
    let mut proxy = proxy_on("8080");
    let starting = proxy.run();
    assert_eq!(starting, ProxyEvent::Starting);
    assert!(proxy.handle_event(starting, 10, AT));
    assert_eq!(proxy.get_status(), ProxyEvent::Starting);

    assert!(proxy.handle_event(ProxyEvent::Running, 1_000, AT));
    assert_eq!(proxy.get_status(), ProxyEvent::Running);
    assert_eq!(proxy.get_run_time(1_000), "0");
    assert_eq!(proxy.get_run_time(1_000 + 3 * NANOS_PER_SECOND), "3");

    let stop = proxy.stop();
    assert_eq!(stop, Some(ProxyEvent::Terminating));
    assert!(proxy.handle_event(ProxyEvent::Terminating, 2_000, AT));
    assert_eq!(proxy.get_status(), ProxyEvent::Terminating);
    assert!(proxy.termination_requested());

    assert!(!proxy.handle_event(ProxyEvent::Terminated, 3_000, AT));
    assert_eq!(proxy.get_status(), ProxyEvent::Stopped);
    assert_eq!(proxy.get_run_time(9 * NANOS_PER_SECOND), "0");
    assert!(proxy.stop().is_none());
    assert!(proxy.send(ProxyEvent::Running).is_none());

    // The machine is cyclic: a later run opens a fresh cycle.
    assert_eq!(proxy.run(), ProxyEvent::Starting);
    assert_eq!(proxy.stop(), Some(ProxyEvent::Terminating));
}

#[test]
fn a_failed_bind_gives_error_and_allows_a_retry() {
    let mut proxy = proxy_on("8080");
    let starting = proxy.run();
    proxy.handle_event(starting, 0, AT);
    assert!(proxy.handle_event(ProxyEvent::Error("Address already in use".to_string()), 1, AT));
    assert_eq!(proxy.get_status(), ProxyEvent::Error("Address already in use".to_string()));
    assert_ne!(proxy.get_status(), ProxyEvent::Running);
    assert_eq!(proxy.get_run_time(NANOS_PER_SECOND), "0");
    let again = proxy.run();
    proxy.handle_event(again, 2, AT);
    assert_eq!(proxy.get_status(), ProxyEvent::Starting);
}

#[test]
fn run_time_counts_whole_seconds_and_never_decreases() {
    let mut proxy = proxy_on("8080");
    proxy.run();
    proxy.handle_event(ProxyEvent::Running, 500, AT);
    assert_eq!(proxy.get_run_time(499), "0");
    assert_eq!(proxy.get_run_time(500), "0");
    assert_eq!(proxy.get_run_time(500 + NANOS_PER_SECOND - 1), "0");
    assert_eq!(proxy.get_run_time(500 + NANOS_PER_SECOND), "1");
    assert_eq!(proxy.get_run_time(500 + 2_500_000_000), "2");
    assert_eq!(proxy.get_run_time(500 + 61 * NANOS_PER_SECOND), "61");
    assert_eq!(proxy.get_run_time(u64::MAX), "18446744073");
    let mut last = 0u64;
    let mut now = 0u64;
    while now < 5 * NANOS_PER_SECOND {
        let seconds: u64 = proxy.get_run_time(now).parse().unwrap();
        assert!(seconds >= last);
        last = seconds;
        now += 250_000_000;
    }
}

#[test]
fn request_events_are_appended_in_order() {
    let mut proxy = proxy_on("8080");
    proxy.run();
    proxy.handle_event(ProxyEvent::Running, 0, AT);
    assert!(proxy.handle_event(ProxyEvent::RequestEvent(entry("GET", "http://a.test/", false)), 1, AT));
    assert!(proxy.handle_event(ProxyEvent::RequestEvent(entry("CONNECT", "b.test:443", true)), 2, AT));
    assert_eq!(
        proxy.get_requests(),
        vec![entry("GET", "http://a.test/", false), entry("CONNECT", "b.test:443", true)]
    );
    assert_eq!(proxy.get_status(), ProxyEvent::Running);
    let logs = proxy.get_logger().get_logs();
    let lines: Vec<&str> = logs.iter().map(|log| log.message.as_str()).collect();
    assert_eq!(
        lines,
        vec![
            "Log level has been set to: DEBUG",
            "Service is now running...",
            "GET -> Request to: http://a.test/ -> ALLOWED",
            "CONNECT -> Request to: b.test:443 -> BLOCKED",
        ]
    );
    assert_eq!(logs[1].level, LogLevel::Info);
    assert_eq!(logs[2].level, LogLevel::Debug);
}

#[test]
fn the_request_log_survives_a_stop() {
    let mut proxy = proxy_on("8080");
    proxy.run();
    proxy.handle_event(ProxyEvent::Running, 0, AT);
    proxy.handle_event(ProxyEvent::RequestEvent(entry("GET", "http://a.test/", false)), 1, AT);
    proxy.handle_event(ProxyEvent::Terminated, 2, AT);
    assert_eq!(proxy.get_requests().len(), 1);
    let logs = proxy.get_logger().get_logs();
    assert_eq!(logs.last().unwrap().message, "Service is being terminated...");
}

#[test]
fn events_other_than_lifecycle_ones_leave_the_status() {
    let mut proxy = proxy_on("8080");
    proxy.handle_event(ProxyEvent::Stopped, 0, AT);
    assert_eq!(proxy.get_status(), ProxyEvent::Stopped);
    proxy.handle_event(ProxyEvent::RequestEvent(entry("GET", "x", false)), 0, AT);
    assert_eq!(proxy.get_status(), ProxyEvent::Stopped);
}

#[test]
fn send_hands_the_event_on_while_a_cycle_is_active() {
    let mut proxy = proxy_on("8080");
    assert!(proxy.send(ProxyEvent::Error("x".to_string())).is_none());
    proxy.run();
    assert_eq!(
        proxy.send(ProxyEvent::Error("x".to_string())),
        Some(ProxyEvent::Error("x".to_string()))
    );
}

#[test]
fn toggling_the_filter() {
    let mut proxy = proxy_on("8080");
    assert!(!proxy.get_traffic_filter().get_enabled());
    proxy.toggle_traffic_filtering(AT);
    assert!(proxy.get_traffic_filter().get_enabled());
    proxy.toggle_traffic_filtering(AT);
    assert!(!proxy.get_traffic_filter().get_enabled());
    let logs = proxy.get_logger().get_logs();
    assert_eq!(logs.last().unwrap().message, "Traffic filtering has been toggled.");
    assert_eq!(logs.last().unwrap().level, LogLevel::Debug);
    assert_eq!(logs.len(), 3);
}

#[test]
fn switching_the_exclusion_list_twice_restores_it() {
    let mut proxy = proxy_on("8080");
    proxy.set_exclusion_list(strings(&["a.test"]), AT);
    proxy.switch_exclusion_list(AT);
    assert_eq!(proxy.get_traffic_filter().get_filter_type(), TrafficFilterType::Deny);
    assert!(proxy.get_traffic_filter().get_filter_list().is_empty());
    proxy.set_exclusion_list(strings(&["d.test"]), AT);
    proxy.switch_exclusion_list(AT);
    assert_eq!(proxy.get_traffic_filter().get_filter_type(), TrafficFilterType::Allow);
    assert_eq!(proxy.get_traffic_filter().get_filter_list(), strings(&["a.test"]));
    proxy.switch_exclusion_list(AT);
    assert_eq!(proxy.get_traffic_filter().get_filter_list(), strings(&["d.test"]));
    let logs = proxy.get_logger().get_logs();
    assert_eq!(logs.last().unwrap().message, "Exclusion list has been switched.");
    assert_eq!(logs[1].message, "Exclusion list has been set.");
}

#[test]
fn adding_and_removing_the_selected_value() {
    let mut proxy = proxy_on("8080");
    proxy.selected_value = "http://a.test/".to_string();
    proxy.update_exclusion_list(ProxyExclusionUpdateKind::Add, AT);
    assert_eq!(proxy.get_traffic_filter().get_filter_list(), strings(&["http://a.test/"]));
    assert_eq!(proxy.selected_value, "http://a.test/");
    proxy.update_exclusion_list(ProxyExclusionUpdateKind::Remove, AT);
    assert!(proxy.get_traffic_filter().get_filter_list().is_empty());
    let logs = proxy.get_logger().get_logs();
    assert_eq!(logs.last().unwrap().message, "Exclusion list has been updated.");
}

#[test]
fn editing_the_selected_row() {
    let mut proxy = proxy_on("8080");
    proxy.set_exclusion_list(strings(&["a.test", "b.test"]), AT);
    proxy.selected_exclusion_row =
        ProxyExclusionRow { updating: true, index: 1, value: "c.test".to_string() };
    proxy.update_exclusion_list(ProxyExclusionUpdateKind::Edit, AT);
    assert_eq!(proxy.get_traffic_filter().get_filter_list(), strings(&["a.test", "c.test"]));
    assert_eq!(proxy.selected_exclusion_row, ProxyExclusionRow::default());
    let logs = proxy.get_logger().get_logs();
    assert_eq!(logs.last().unwrap().message, "Exclusion list value has been edited.");
}

#[test]
fn filter_commands_do_not_touch_status_or_requests() {
    let mut proxy = proxy_on("8080");
    proxy.run();
    proxy.handle_event(ProxyEvent::Running, 7, AT);
    proxy.handle_event(ProxyEvent::RequestEvent(entry("GET", "x", false)), 8, AT);
    proxy.toggle_traffic_filtering(AT);
    proxy.switch_exclusion_list(AT);
    proxy.set_exclusion_list(strings(&["q"]), AT);
    assert_eq!(proxy.get_status(), ProxyEvent::Running);
    assert_eq!(proxy.get_requests().len(), 1);
    assert_eq!(proxy.get_run_time(7 + NANOS_PER_SECOND), "1");
}

#[test]
fn the_start_switch_follows_port_and_status() {
    let mut proxy = proxy_on("8080");
    proxy.refresh_start_capability();
    assert!(proxy.start_enabled);
    assert_eq!(proxy.port_error, "");
    proxy.port = "0".to_string();
    proxy.refresh_start_capability();
    assert!(!proxy.start_enabled);
    assert_eq!(proxy.port_error, "Port cannot be 0.");
    proxy.port = "8081".to_string();
    proxy.run();
    proxy.handle_event(ProxyEvent::Running, 0, AT);
    proxy.refresh_start_capability();
    assert!(!proxy.start_enabled);
    assert_eq!(proxy.port_error, "Port cannot be 0.");
    proxy.handle_event(ProxyEvent::Terminating, 1, AT);
    proxy.refresh_start_capability();
    assert!(!proxy.start_enabled);
    proxy.handle_event(ProxyEvent::Terminated, 2, AT);
    proxy.refresh_start_capability();
    assert!(proxy.start_enabled);
    assert_eq!(proxy.port_error, "");
    proxy.handle_event(ProxyEvent::Error("bind".to_string()), 3, AT);
    proxy.port = "abc".to_string();
    proxy.refresh_start_capability();
    assert!(!proxy.start_enabled);
    assert_eq!(proxy.port_error, "Invalid Characters in Port.");
}

#[test]
fn excluded_address_on_a_given_list() {
    assert!(Proxy::is_excluded_address(strings(&["example.com"]), "http://example.com/".into()));
    assert!(Proxy::is_excluded_address(strings(&["http://example.com/"]), "example".into()));
    assert!(!Proxy::is_excluded_address(strings(&["example.com"]), "http://other.org/".into()));
    assert!(!Proxy::is_excluded_address(Vec::new(), "".into()));
}

#[test]
fn clone_is_a_snapshot_of_the_proxy() {
    let mut proxy = proxy_on("8080");
    proxy.run();
    proxy.handle_event(ProxyEvent::Running, 0, AT);
    let snapshot = proxy.clone();
    proxy.handle_event(ProxyEvent::Terminated, 1, AT);
    assert_eq!(snapshot.get_status(), ProxyEvent::Running);
    assert_eq!(snapshot.stop(), Some(ProxyEvent::Terminating));
    assert_eq!(snapshot.port, "8080");
}

#[test]
fn event_names() {
    assert_eq!(ProxyEvent::Starting.to_string(), "STARTING");
    assert_eq!(ProxyEvent::Running.to_string(), "RUNNING");
    assert_eq!(ProxyEvent::Stopped.to_string(), "STOPPED");
    assert_eq!(ProxyEvent::Error("x".to_string()).to_string(), "ERROR");
    assert_eq!(ProxyEvent::Terminating.to_string(), "TERMINATING");
    assert_eq!(ProxyEvent::Terminated.to_string(), "TERMINATED");
    assert_eq!(ProxyEvent::RequestEvent(entry("GET", "x", true)).to_string(), "UNKNOWN");
    assert_eq!(ProxyEvent::default(), ProxyEvent::Stopped);
}

#[test]
fn event_equality_and_copies() {
    let a = ProxyEvent::RequestEvent(entry("GET", "x", true));
    assert_eq!(a.clone(), a);
    assert_ne!(a, ProxyEvent::RequestEvent(entry("GET", "x", false)));
    assert_ne!(a, ProxyEvent::RequestEvent(entry("GET", "y", true)));
    assert_ne!(a, ProxyEvent::RequestEvent(entry("PUT", "x", true)));
    assert_ne!(ProxyEvent::Error("a".to_string()), ProxyEvent::Error("b".to_string()));
    assert_ne!(ProxyEvent::Starting, ProxyEvent::Running);
    assert_ne!(ProxyEvent::Terminating, ProxyEvent::Terminated);
    let row = ProxyExclusionRow { updating: true, index: 2, value: "v".to_string() };
    assert_eq!(row.clone(), row);
    assert_ne!(row, ProxyExclusionRow::default());
}

#[test]
fn small_records() {
    assert_eq!(entry("GET", "x", true).to_blocked_string(), "BLOCKED");
    assert_eq!(entry("GET", "x", false).to_blocked_string(), "ALLOWED");
    assert_eq!(ProxyView::Min.to_string(), "Default View");
    assert_eq!(ProxyView::Logs.to_string(), "Log View");
    assert_eq!(ProxyView::Filter.to_string(), "Filter View");
    assert_eq!(ProxyView::default(), ProxyView::Min);
    let row = ProxyExclusionList { request: "a.test".to_string() };
    assert_eq!(row.request, "a.test");
    assert_ne!(ProxyExclusionUpdateKind::Add, ProxyExclusionUpdateKind::Remove);
}

#[test]
fn blocked_requests_are_counted() {
    let mut proxy = proxy_on("8080");
    assert_eq!(proxy.events_blocked(), 0);
    proxy.handle_event(ProxyEvent::RequestEvent(entry("GET", "a", true)), 0, AT);
    proxy.handle_event(ProxyEvent::RequestEvent(entry("GET", "b", false)), 0, AT);
    proxy.handle_event(ProxyEvent::RequestEvent(entry("GET", "c", true)), 0, AT);
    assert_eq!(proxy.events_blocked(), 2);
    assert_eq!(proxy.get_requests().len(), 3);
}

#[test]
fn the_launch_button_follows_the_status() {
    let mut proxy = proxy_on("8080");
    assert_eq!(proxy.launch_label(), "Start Proxy");
    proxy.run();
    proxy.handle_event(ProxyEvent::Starting, 0, AT);
    assert_eq!(proxy.launch_label(), "Start Proxy");
    proxy.handle_event(ProxyEvent::Running, 0, AT);
    assert_eq!(proxy.launch_label(), "Stop Proxy");
    proxy.handle_event(ProxyEvent::Terminating, 0, AT);
    assert_eq!(proxy.launch_label(), "Please Wait");
    proxy.handle_event(ProxyEvent::Terminated, 0, AT);
    assert_eq!(proxy.launch_label(), "Start Proxy");
    proxy.handle_event(ProxyEvent::Error("x".to_string()), 0, AT);
    assert_eq!(proxy.launch_label(), "Retry Proxy");
}

#[test]
fn a_closed_channel_ends_the_consumer_and_leaves_the_status() {
    let mut proxy = proxy_on("8080");
    proxy.run();
    proxy.handle_event(ProxyEvent::Error("Address already in use".to_string()), 1, AT);
    let logs_before = proxy.get_logger().count();
    assert!(!proxy.consume(Received::Closed, 2, AT));
    assert_eq!(proxy.get_status(), ProxyEvent::Error("Address already in use".to_string()));
    assert_eq!(proxy.get_logger().count(), logs_before);
    assert_eq!(proxy.stop(), Some(ProxyEvent::Terminating));
}

#[test]
fn a_retry_after_a_failed_bind_stays_running() {
    let mut proxy = proxy_on("8080");
    let first = proxy.run();
    assert!(proxy.consume(Received::Event(first), 0, AT));
    assert!(proxy.consume(Received::Event(ProxyEvent::Error("in use".to_string())), 1, AT));
    let again = proxy.run();
    assert!(proxy.consume(Received::Event(again), 2, AT));
    assert!(proxy.consume(Received::Event(ProxyEvent::Running), 3, AT));
    // The consumer of the failed cycle finds its channel closed.
    assert!(!proxy.consume(Received::Closed, 4, AT));
    assert_eq!(proxy.get_status(), ProxyEvent::Running);
    assert_eq!(proxy.get_run_time(3 + 2 * NANOS_PER_SECOND), "2");
    assert!(!proxy.consume(Received::Event(ProxyEvent::Terminated), 5, AT));
    assert_eq!(proxy.get_status(), ProxyEvent::Stopped);
}

#[test]
fn log_entries_carry_the_time_of_the_command() {
    let mut proxy = proxy_on("8080");
    proxy.toggle_traffic_filtering(Moment { seconds: 0, nanos: 0 });
    proxy.handle_event(ProxyEvent::Running, 9, Moment { seconds: 60, nanos: 5_000_000 });
    let logs = proxy.get_logger().get_logs();
    assert_eq!(logs[0].timestamp, "2024-01-02T03:04:05.678Z");
    assert_eq!(logs[1].timestamp, "1970-01-01T00:00:00.000Z");
    assert_eq!(logs[2].timestamp, "1970-01-01T00:01:00.005Z");
}

#[test]
fn settings_are_read_and_written_through_the_proxy() {
    let mut proxy = proxy_on("8080");
    assert_eq!(proxy.get_port(), "8080");
    proxy.set_port("9090".to_string());
    assert_eq!(proxy.get_port(), "9090");
    assert_eq!(proxy.port, "9090");
    assert_eq!(proxy.get_port_error(), "");
    assert!(proxy.get_start_enabled());
    assert_eq!(proxy.get_view(), ProxyView::Min);
    proxy.set_view(ProxyView::Logs);
    assert_eq!(proxy.get_view(), ProxyView::Logs);
    proxy.set_selected_value("a.test".to_string());
    assert_eq!(proxy.get_selected_value(), "a.test");
    proxy.update_exclusion_list(ProxyExclusionUpdateKind::Add, AT);
    let row = ProxyExclusionRow { updating: true, index: 0, value: "b.test".to_string() };
    proxy.set_selected_exclusion_row(row.clone());
    assert_eq!(proxy.get_selected_exclusion_row(), row);
    proxy.update_exclusion_list(ProxyExclusionUpdateKind::Edit, AT);
    assert_eq!(proxy.get_traffic_filter().get_filter_list(), strings(&["b.test"]));
    assert_eq!(proxy.get_selected_exclusion_row(), ProxyExclusionRow::default());
    assert_eq!(proxy.get_status(), ProxyEvent::Stopped);
}
