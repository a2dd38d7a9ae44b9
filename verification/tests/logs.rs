use windrose_server_manager::clock::Timestamp;
use windrose_server_manager::logs::{
    detect_level, parse_line, parse_line_at, LogBuffer, LogLevel, RingBuffer,
};

#[test]
fn parse_error_level() {
    let line = parse_line("[ERROR] something bad happened");
    assert_eq!(line.level, LogLevel::Error);
}

#[test]
fn parse_warn_level() {
    let line = parse_line("[WARN] disk space low");
    assert_eq!(line.level, LogLevel::Warn);
}

#[test]
fn parse_unknown_level() {
    let line = parse_line("Server started on port 7777");
    assert_eq!(line.level, LogLevel::Unknown);
}

#[test]
fn level_markers_are_case_insensitive() {
    assert_eq!(detect_level("error: boom"), LogLevel::Error);
    assert_eq!(detect_level("Warning: low memory"), LogLevel::Warn);
    assert_eq!(detect_level("[debug] x=1"), LogLevel::Debug);
    assert_eq!(detect_level("info: ready"), LogLevel::Info);
}

#[test]
fn error_takes_precedence_over_warning() {
    assert_eq!(detect_level("[WARN] then ERROR: failed"), LogLevel::Error);
}

#[test]
fn parse_line_trims_message_and_keeps_raw() {
    let ts = Timestamp { secs: 1_700_000_000, nanos: 5 };
    let line = parse_line_at("  [INFO] hello  \n", ts);
    assert_eq!(line.message, "[INFO] hello");
    assert_eq!(line.raw, "  [INFO] hello  \n");
    assert_eq!(line.level, LogLevel::Info);
    assert_eq!(line.timestamp, ts);
}

#[test]
fn ring_buffer_drops_oldest_beyond_capacity() {
    let mut rb: RingBuffer<u32> = RingBuffer::new(3);
    for x in 1..=5u32 {
        rb.push(x);
    }
    assert_eq!(rb.len(), 3);
    assert_eq!(rb.capacity(), 3);
    assert_eq!(*rb.get(0), 3);
    assert_eq!(*rb.get(1), 4);
    assert_eq!(*rb.get(2), 5);
}

#[test]
fn ring_buffer_of_zero_capacity_is_unbounded() {
    let mut rb: RingBuffer<u32> = RingBuffer::new(0);
    rb.push(7);
    rb.push(8);
    assert_eq!(rb.len(), 2);
    assert_eq!(*rb.get(0), 7);
}

#[test]
fn log_buffer_snapshot_is_oldest_first() {
    let mut buf = LogBuffer::new(2);
    let ts = Timestamp { secs: 1, nanos: 0 };
    buf.push_log_line(parse_line_at("one", ts));
    buf.push_log_line(parse_line_at("two", ts));
    buf.push_log_line(parse_line_at("three", ts));
    let snap = buf.get_log_snapshot();
    assert_eq!(snap.len(), 2);
    assert_eq!(snap[0].raw, "two");
    assert_eq!(snap[1].raw, "three");
}
