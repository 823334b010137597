use buckshot::log_ring::{LogRing, LOG_CAPACITY};

#[test]
fn new_log_is_empty() {
    let log = LogRing::new();
    assert_eq!(log.len(), 0);
    assert_eq!(log.scroll_offset(), 0);
}

#[test]
fn pushing_1001_lines_keeps_the_last_1000() {
    let mut log = LogRing::new();
    for i in 0..1001 {
        log.push(format!("line {}", i));
    }
    assert_eq!(log.len(), 1000);
    assert_eq!(LOG_CAPACITY, 1000);
    let lines: Vec<&String> = log.lines().iter().collect();
    assert_eq!(lines[0], "line 1");
    assert_eq!(lines[999], "line 1000");
    for (j, line) in lines.iter().enumerate() {
        assert_eq!(**line, format!("line {}", j + 1));
    }
}

#[test]
fn below_capacity_nothing_is_evicted() {
    let mut log = LogRing::new();
    log.push("a".to_string());
    log.push("b".to_string());
    let lines: Vec<&String> = log.lines().iter().collect();
    assert_eq!(lines, vec!["a", "b"]);
}

#[test]
fn scroll_up_clamps_at_zero() {
    let mut log = LogRing::new();
    log.scroll_up();
    assert_eq!(log.scroll_offset(), 0);
    log.scroll_down();
    log.scroll_down();
    assert_eq!(log.scroll_offset(), 2);
    log.scroll_up();
    assert_eq!(log.scroll_offset(), 1);
}

#[test]
fn scroll_down_stops_at_u16_max() {
    let mut log = LogRing::new();
    for _ in 0..(u16::MAX as u32 + 3) {
        log.scroll_down();
    }
    assert_eq!(log.scroll_offset(), u16::MAX);
}
