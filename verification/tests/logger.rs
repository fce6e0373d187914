use bucket_logger::{creation_content, LogError, Logger, TimestampMode};

#[test]
fn fresh_logger_defaults() {
    let logger = Logger::new("logs.txt".to_string());
    assert_eq!(logger.log_name(), "logs.txt");
    assert_eq!(logger.pending_len(), 0);
    assert_eq!(logger.timestamp_mode(), TimestampMode::Plain);
    assert!(!logger.local_copy());
}

#[test]
fn plain_flush_appends_to_empty_object() {
    let mut logger = Logger::new("logs.txt".to_string());
    logger.log("a");
    logger.log("b");
    let merged = logger.prepare_flush(b"".to_vec()).unwrap();
    assert_eq!(merged, "a\nb\n");
    logger.mark_flushed();
    assert_eq!(logger.pending_len(), 0);
}

#[test]
fn plain_flush_keeps_existing_content() {
    let mut logger = Logger::new("logs.txt".to_string());
    logger.log("y");
    let merged = logger.prepare_flush(b"x\n".to_vec()).unwrap();
    assert_eq!(merged, "x\ny\n");
}

#[test]
fn per_flush_stamp_replaces_content() {
    let mut logger = Logger::new("logs.txt".to_string());
    logger.set_timestamp_mode(TimestampMode::Flush);
    logger.log("c");
    let merged = logger.prepare_flush(b"a\nb\n".to_vec()).unwrap();
    assert!(merged.ends_with("\nc\n"));
    assert!(!merged.contains("a\nb"));
    let lines: Vec<&str> = merged.lines().collect();
    assert_eq!(lines.len(), 2);
    // The stamp is rendered as "YYYY-MM-DD HH:MM:SS".
    assert_eq!(lines[0].len(), 19);
    assert_eq!(lines[1], "c");
}

#[test]
fn per_entry_stamp_is_attached_when_logged() {
    let mut logger = Logger::new("logs.txt".to_string());
    logger.set_timestamp_mode(TimestampMode::Log);
    logger.log("hello");
    assert_eq!(logger.pending_len(), 1);
    let line = logger.pending_line(0).clone();
    assert!(line.ends_with(": hello\n"));
    assert!(line.len() > ": hello\n".len());
    // The flush appends the stamped line as it stands; it is not restamped.
    let merged = logger.prepare_flush(b"".to_vec()).unwrap();
    assert_eq!(merged, line);
}

#[test]
fn failed_write_keeps_pending_for_retry() {
    let mut logger = Logger::new("logs.txt".to_string());
    logger.log("a");
    logger.log("b");
    // The merge succeeded but the remote write did not: the buffer is not
    // cleared, so the next flush carries everything exactly once.
    let _lost = logger.prepare_flush(b"base\n".to_vec()).unwrap();
    assert_eq!(logger.pending_len(), 2);
    logger.log("c");
    let merged = logger.prepare_flush(b"base\n".to_vec()).unwrap();
    assert_eq!(merged, "base\na\nb\nc\n");
    logger.mark_flushed();
    assert_eq!(logger.pending_len(), 0);
}

#[test]
fn invalid_utf8_is_rejected() {
    let mut logger = Logger::new("logs.txt".to_string());
    logger.log("a");
    let err = logger.prepare_flush(vec![0xff, 0xfe, b'a']).unwrap_err();
    assert_eq!(err, LogError::Decoding);
    assert_eq!(logger.pending_len(), 1);
}

#[test]
fn multibyte_text_survives_the_merge() {
    let mut logger = Logger::new("logs.txt".to_string());
    logger.log("naïve");
    let merged = logger.prepare_flush("héllo\n".as_bytes().to_vec()).unwrap();
    assert_eq!(merged, "héllo\nnaïve\n");
}

#[test]
fn construction_creates_only_missing_objects() {
    assert!(creation_content(true).is_none());
    assert_eq!(creation_content(false), Some(Vec::new()));
}

#[test]
fn mode_changes_touch_only_future_entries() {
    let mut logger = Logger::new("logs.txt".to_string());
    logger.log("a");
    logger.set_timestamp_mode(TimestampMode::Log);
    assert_eq!(logger.timestamp_mode(), TimestampMode::Log);
    assert_eq!(logger.pending_line(0), "a\n");
    logger.log("b");
    assert!(logger.pending_line(1).ends_with(": b\n"));
    logger.save_local_copy(true);
    assert!(logger.local_copy());
    assert_eq!(logger.pending_len(), 2);
}
