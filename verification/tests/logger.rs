use a_bean_sieve::logger::{log_level_from_name, stamp_or_empty, Log, LogLevel, Logger, Moment};

const AT: Moment = Moment { seconds: 1_704_164_645, nanos: 678_000_000 };

#[test]
fn a_new_logger_is_at_info_and_empty() {
    let logger = Logger::default();
    assert_eq!(logger.level(), LogLevel::Info);
    assert!(logger.get_logs().is_empty());
    assert_eq!(logger.count(), 0);
    assert_eq!(LogLevel::default(), LogLevel::Info);
}

#[test]
fn level_ranks_and_names() {
    assert_eq!(LogLevel::Debug.severity(), 3);
    assert_eq!(LogLevel::Info.severity(), 2);
    assert_eq!(LogLevel::Warning.severity(), 1);
    assert_eq!(LogLevel::Error.severity(), 0);
    assert_eq!(LogLevel::Global.severity(), -1);
    assert_eq!(LogLevel::Debug.to_string(), "DEBUG");
    assert_eq!(LogLevel::Info.to_string(), "INFO");
    assert_eq!(LogLevel::Warning.to_string(), "WARNING");
    assert_eq!(LogLevel::Error.to_string(), "ERROR");
    assert_eq!(LogLevel::Global.to_string(), "GLOBAL");
}

#[test]
fn the_threshold_admits_its_own_rank_and_below() {
    let mut logger = Logger::default();
    logger.debug("d", AT);
    logger.info("i", AT);
    logger.warning("w", AT);
    logger.error("e", AT);
    logger.global("g", AT);
    let logs = logger.get_logs();
    let seen: Vec<(LogLevel, &str)> =
        logs.iter().map(|log| (log.level, log.message.as_str())).collect();
    assert_eq!(
        seen,
        vec![
            (LogLevel::Info, "i"),
            (LogLevel::Warning, "w"),
            (LogLevel::Error, "e"),
            (LogLevel::Global, "g"),
        ]
    );
    assert_eq!(logger.count(), 4);
}

#[test]
fn each_threshold_admits_exactly_the_lower_ranks() {
    let levels =
        [LogLevel::Debug, LogLevel::Info, LogLevel::Warning, LogLevel::Error, LogLevel::Global];
    for threshold in levels {
        for level in levels {
            let mut logger = Logger::default();
            logger.set_level(threshold, AT);
            let before = logger.count();
            logger.log_at(level, "m", "t".to_string());
            let admitted = level.severity() <= threshold.severity();
            assert_eq!(logger.count() == before + 1, admitted);
            assert_eq!(logger.count() == before, !admitted);
        }
    }
}

#[test]
fn setting_the_level_is_recorded_at_global() {
    let mut logger = Logger::default();
    logger.set_level(LogLevel::Error, AT);
    assert_eq!(logger.level(), LogLevel::Error);
    let logs = logger.get_logs();
    assert_eq!(logs.len(), 1);
    assert_eq!(logs[0].level, LogLevel::Global);
    assert_eq!(logs[0].message, "Log level has been set to: ERROR");
    logger.info("dropped", AT);
    logger.warning("dropped", AT);
    logger.error("kept", AT);
    assert_eq!(logger.count(), 2);
}

#[test]
fn a_given_time_stamp_is_kept() {
    let mut logger = Logger::default();
    logger.log_at(LogLevel::Warning, "careful", "2024-01-02T03:04:05.678Z".to_string());
    let logs = logger.get_logs();
    assert_eq!(logs[0].timestamp, "2024-01-02T03:04:05.678Z");
    assert_eq!(logs[0].message, "careful");
    assert_eq!(logs[0].level, LogLevel::Warning);
}

#[test]
fn time_stamps_are_the_text_of_the_reading() {
    let mut logger = Logger::default();
    logger.info("now", AT);
    logger.warning("epoch", Moment { seconds: 0, nanos: 0 });
    logger.error("before", Moment { seconds: -1, nanos: 999_000_000 });
    logger.global("rounding", Moment { seconds: 86_400, nanos: 1_999_999 });
    let logs = logger.get_logs();
    assert_eq!(logs[0].timestamp, "2024-01-02T03:04:05.678Z");
    assert_eq!(logs[1].timestamp, "1970-01-01T00:00:00.000Z");
    assert_eq!(logs[2].timestamp, "1969-12-31T23:59:59.999Z");
    assert_eq!(logs[3].timestamp, "1970-01-02T00:00:00.001Z");
    assert_eq!(AT.stamp(), "2024-01-02T03:04:05.678Z");
}

#[test]
fn a_reading_that_the_calendar_cannot_hold_gets_an_empty_stamp() {
    let mut logger = Logger::default();
    logger.info("far", Moment { seconds: i64::MAX, nanos: 0 });
    logger.info("long ago", Moment { seconds: i64::MIN, nanos: 0 });
    logger.info("odd", Moment { seconds: 0, nanos: u32::MAX });
    let logs = logger.get_logs();
    assert_eq!(logs.len(), 3);
    assert_eq!(logs[0].timestamp, "");
    assert_eq!(logs[1].timestamp, "");
    assert_eq!(logs[2].timestamp, "");
    assert_eq!(logs[0].message, "far");
    assert_eq!(stamp_or_empty(None), "");
    assert_eq!(stamp_or_empty(Some("x".to_string())), "x");
}

#[test]
fn copies_are_snapshots() {
    let mut logger = Logger::default();
    logger.info("one", AT);
    let snapshot = logger.clone();
    logger.info("two", AT);
    assert_eq!(snapshot.count(), 1);
    assert_eq!(logger.count(), 2);
    let entry = Log {
        level: LogLevel::Info,
        message: "m".to_string(),
        timestamp: "t".to_string(),
    };
    let copy = entry.clone();
    assert_eq!(copy.message, "m");
    assert_eq!(copy.timestamp, "t");
    assert_eq!(copy.level, LogLevel::Info);
}

#[test]
fn levels_by_name() {
    assert_eq!(log_level_from_name("debug"), LogLevel::Debug);
    assert_eq!(log_level_from_name("info"), LogLevel::Info);
    assert_eq!(log_level_from_name("warning"), LogLevel::Warning);
    assert_eq!(log_level_from_name("error"), LogLevel::Error);
    assert_eq!(log_level_from_name("global"), LogLevel::Info);
    assert_eq!(log_level_from_name("DEBUG"), LogLevel::Info);
    assert_eq!(log_level_from_name(""), LogLevel::Info);
}

#[test]
fn levels_by_name_in_any_case() {
    assert_eq!(LogLevel::from(&"DEBUG".to_string()), LogLevel::Debug);
    assert_eq!(LogLevel::from(&"Warning".to_string()), LogLevel::Warning);
    assert_eq!(LogLevel::from(&"eRRoR".to_string()), LogLevel::Error);
    assert_eq!(LogLevel::from(&"INFO".to_string()), LogLevel::Info);
    assert_eq!(LogLevel::from(&"verbose".to_string()), LogLevel::Info);
}

#[test]
fn levels_are_ordered_by_rank() {
    assert!(LogLevel::Global < LogLevel::Error);
    assert!(LogLevel::Error < LogLevel::Warning);
    assert!(LogLevel::Warning < LogLevel::Info);
    assert!(LogLevel::Info < LogLevel::Debug);
    assert!(LogLevel::Info <= LogLevel::Info);
    assert!(LogLevel::Debug > LogLevel::Global);
    assert!(!(LogLevel::Debug <= LogLevel::Info));
}
