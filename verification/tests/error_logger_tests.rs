use evorbrain::commands::logging::{get_recent_logs, set_log_level, GetLogsRequest};
use evorbrain::error::{AppError, DatabaseFailure, ErrorCode};
use evorbrain::logger::{filter_entries, LogLevel, Logger};

#[test]
fn error_constructors() {
    let e = AppError::new(ErrorCode::ConfigError, "bad config");
    assert_eq!(e.code, ErrorCode::ConfigError);
    assert_eq!(e.message, "bad config");
    assert_eq!(e.details, None);
    let e = e.with_details("first").with_details("second");
    assert_eq!(e.code, ErrorCode::ConfigError);
    assert_eq!(e.message, "bad config");
    assert_eq!(e.details, Some("second".to_string()));
    assert_eq!(e.to_string(), "bad config");
    let copy = e.clone();
    assert_eq!(format!("{:?}", copy), format!("{:?}", e));

    let e = AppError::not_found("Life area", "abc");
    assert_eq!(e.code, ErrorCode::NotFound);
    assert_eq!(e.message, "Life area with id 'abc' not found");
    assert_eq!(e.details, None);

    let e = AppError::invalid_id("xyz");
    assert_eq!(e.code, ErrorCode::InvalidId);
    assert_eq!(e.message, "Invalid ID format: 'xyz'");

    let e = AppError::database_error("get life area", "disk I/O error");
    assert_eq!(e.code, ErrorCode::DatabaseQuery);
    assert_eq!(e.message, "Database operation 'get life area' failed");
    assert_eq!(e.details, Some("disk I/O error".to_string()));

    let e = AppError::validation_error("name", "cannot be empty");
    assert_eq!(e.code, ErrorCode::ValidationError);
    assert_eq!(e.message, "Validation failed for field 'name': cannot be empty");
}

#[test]
fn errors_from_outside_failures() {
    let e = AppError::from_database_failure(DatabaseFailure::RowNotFound);
    assert_eq!((e.code, e.message.as_str(), e.details), (ErrorCode::NotFound, "Requested resource not found", None));
    let e = AppError::from_database_failure(DatabaseFailure::Database {
        message: "UNIQUE constraint failed: goals.id".to_string(),
    });
    assert_eq!(e.code, ErrorCode::AlreadyExists);
    assert_eq!(e.message, "Resource already exists");
    assert_eq!(e.details, Some("UNIQUE constraint failed: goals.id".to_string()));
    let e = AppError::from_database_failure(DatabaseFailure::Database {
        message: "FOREIGN KEY constraint failed; unique constraint".to_string(),
    });
    assert_eq!(e.code, ErrorCode::DatabaseQuery);
    assert_eq!(e.message, "Database operation failed");
    let e = AppError::from_database_failure(DatabaseFailure::Other { text: "pool timed out".to_string() });
    assert_eq!(e.code, ErrorCode::DatabaseQuery);
    assert_eq!(e.message, "Database error occurred");
    assert_eq!(e.details, Some("pool timed out".to_string()));
    let e = AppError::from_uuid_error("invalid length");
    assert_eq!((e.code, e.message.as_str()), (ErrorCode::InvalidId, "Invalid UUID format"));
    assert_eq!(e.details, Some("invalid length".to_string()));
    let e = AppError::from_io_error("permission denied");
    assert_eq!((e.code, e.message.as_str()), (ErrorCode::IoError, "I/O operation failed"));
    let e = AppError::from_json_error("EOF");
    assert_eq!((e.code, e.message.as_str()), (ErrorCode::InternalError, "JSON serialization/deserialization failed"));
    assert_eq!(e.details, Some("EOF".to_string()));
}

#[test]
fn log_levels() {
    let levels = [LogLevel::Error, LogLevel::Warn, LogLevel::Info, LogLevel::Debug, LogLevel::Trace];
    let names = ["ERROR", "WARN", "INFO", "DEBUG", "TRACE"];
    for (i, level) in levels.iter().enumerate() {
        assert_eq!(level.as_str(), names[i]);
        for (j, filter) in levels.iter().enumerate() {
            assert_eq!(level.should_log(filter), i <= j, "{:?} {:?}", level, filter);
        }
    }
}

#[test]
fn logger_drops_what_is_below_its_level() {
    let mut logger = Logger::new();
    assert_eq!(logger.get_level(), LogLevel::Info);
    logger.error("e1");
    logger.warn("w1");
    logger.info("i1");
    logger.debug("d1");
    logger.trace("t1");
    let messages: Vec<&str> = logger.entries().iter().map(|e| e.message.as_str()).collect();
    assert_eq!(messages, vec!["e1", "w1", "i1"]);
    assert_eq!(logger.entries()[1].level, LogLevel::Warn);
    assert_eq!(logger.entries()[1].context, None);
    logger.set_level(LogLevel::Error);
    logger.warn("w2");
    logger.info_with_context("i2", "ctx");
    logger.error_with_context("e2", "ctx", Some("boom".to_string()));
    assert_eq!(logger.entries().len(), 4);
    let last = &logger.entries()[3];
    assert_eq!(last.level, LogLevel::Error);
    assert_eq!(last.message, "e2");
    assert_eq!(last.context, Some("ctx".to_string()));
    assert_eq!(last.error_details, Some("boom".to_string()));
    logger.set_level(LogLevel::Trace);
    logger.log_at(LogLevel::Trace, "t2", Some("c".to_string()), None, 99);
    logger.debug("d2");
    logger.info_with_context("i3", "where");
    assert_eq!(logger.entries().len(), 7);
    assert_eq!(logger.entries()[4].timestamp, 99);
    assert_eq!(logger.entries()[4].context, Some("c".to_string()));
    assert_eq!(logger.entries()[6].context, Some("where".to_string()));
}

#[test]
fn recent_logs_are_the_last_ones() {
    let mut logger = Logger::new();
    for i in 0..5 {
        logger.log_at(if i % 2 == 0 { LogLevel::Info } else { LogLevel::Error }, &format!("m{}", i), None, None, i);
    }
    let texts = |v: Vec<evorbrain::logger::LogEntry>| v.iter().map(|e| e.message.clone()).collect::<Vec<String>>();
    assert_eq!(texts(logger.get_recent_logs(2)), vec!["m3", "m4"]);
    assert_eq!(texts(logger.get_recent_logs(0)), Vec::<String>::new());
    assert_eq!(texts(logger.get_recent_logs(5)).len(), 5);
    assert_eq!(texts(logger.get_recent_logs(usize::MAX)).len(), 5);
    let r = get_recent_logs(&logger, GetLogsRequest { count: Some(3), level_filter: Some(LogLevel::Error) }).unwrap();
    assert_eq!(texts(r), vec!["m3"]);
    let r = get_recent_logs(&logger, GetLogsRequest { count: None, level_filter: None }).unwrap();
    assert_eq!(texts(r), vec!["m0", "m1", "m2", "m3", "m4"]);
    let r = get_recent_logs(&logger, GetLogsRequest { count: None, level_filter: Some(LogLevel::Warn) }).unwrap();
    assert_eq!(texts(r), vec!["m1", "m3"]);
    assert_eq!(texts(filter_entries(logger.get_recent_logs(4), LogLevel::Trace)), vec!["m1", "m2", "m3", "m4"]);
    for i in 0..200 {
        logger.log_at(LogLevel::Info, &format!("n{}", i), None, None, i);
    }
    let r = get_recent_logs(&logger, GetLogsRequest { count: None, level_filter: None }).unwrap();
    assert_eq!(r.len(), 100);
    assert_eq!(r[0].message, "n100");
}

#[test]
fn setting_the_level_is_logged_at_info() {
    let mut logger = Logger::new();
    assert!(set_log_level(&mut logger, LogLevel::Debug).is_ok());
    assert_eq!(logger.get_level(), LogLevel::Debug);
    assert_eq!(logger.entries().len(), 1);
    assert_eq!(logger.entries()[0].message, "Log level changed");
    assert_eq!(logger.entries()[0].context, Some("New level: Debug".to_string()));
    assert!(set_log_level(&mut logger, LogLevel::Warn).is_ok());
    assert_eq!(logger.entries().len(), 1);
    assert_eq!(logger.get_level(), LogLevel::Warn);
}
