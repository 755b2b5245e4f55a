use typing_speed::{
    decimal_string, format_reading, rate_of, record_event, zero_pad, KeyEvent, Sampler,
    TimestampLog, Unit, WINDOW_MS,
};

fn press(code: u16) -> KeyEvent {
    KeyEvent { event_type: 1, code, value: 1 }
}

fn stamps(log: &TimestampLog) -> Vec<u64> {
    let mut v = Vec::new();
    for i in 0..log.len() {
        v.push(log.get(i));
    }
    v
}

#[test]
fn prune_keeps_stamps_at_or_after_threshold() {
    let mut log = TimestampLog::new();
    for t in [30u64, 10, 50, 49, 70, 50] {
        log.append(t);
    }
    assert_eq!(log.prune_and_count(50), 3);
    assert_eq!(stamps(&log), vec![50, 70, 50]);
}

#[test]
fn prune_of_empty_log_counts_zero() {
    let mut log = TimestampLog::new();
    assert_eq!(log.prune_and_count(0), 0);
    assert_eq!(log.len(), 0);
}

#[test]
fn best_is_running_maximum() {
    let mut s = Sampler::new(Unit::CharsPerMinute, true, 2);
    assert_eq!(s.best(), 0);
    let mut seen = Vec::new();
    for c in [4usize, 9, 2, 9, 11, 0] {
        s.tick(c);
        seen.push(s.best());
    }
    assert_eq!(seen, vec![4, 9, 9, 9, 11, 11]);
}

#[test]
fn zero_count_gives_zero_rate() {
    let mut s = Sampler::new(Unit::WordsPerMinute, false, 2);
    assert_eq!(s.tick(0), 0);
    assert_eq!(s.best(), 0);
}

#[test]
fn unit_conversion_of_twenty_three() {
    assert_eq!(rate_of(23, Unit::WordsPerMinute), 4);
    assert_eq!(rate_of(23, Unit::CharsPerMinute), 23);
    assert_eq!(rate_of(4, Unit::WordsPerMinute), 0);
    assert_eq!(rate_of(25, Unit::WordsPerMinute), 5);
}

#[test]
fn backspace_never_counts() {
    let mut log = TimestampLog::new();
    for t in 0..20u64 {
        assert!(!record_event(&mut log, press(14), t));
    }
    assert_eq!(log.prune_and_count(0), 0);
    assert!(record_event(&mut log, press(30), 21));
    assert_eq!(log.prune_and_count(0), 1);
}

#[test]
fn release_and_repeat_never_count() {
    let mut log = TimestampLog::new();
    assert!(!record_event(&mut log, KeyEvent { event_type: 1, code: 30, value: 0 }, 1));
    assert!(!record_event(&mut log, KeyEvent { event_type: 1, code: 30, value: 2 }, 2));
    assert!(record_event(&mut log, KeyEvent { event_type: 1, code: 30, value: 1 }, 3));
    assert_eq!(stamps(&log), vec![3]);
}

#[test]
fn other_event_classes_never_count() {
    let mut log = TimestampLog::new();
    assert!(!record_event(&mut log, KeyEvent { event_type: 0, code: 0, value: 1 }, 1));
    assert!(!record_event(&mut log, KeyEvent { event_type: 4, code: 4, value: 1 }, 2));
    assert_eq!(log.len(), 0);
    assert!(press(28).is_qualifying());
    assert!(!press(14).is_qualifying());
}

#[test]
fn padding_to_width() {
    assert_eq!(zero_pad(7, 3), "007");
    assert_eq!(zero_pad(1234, 2), "1234");
    assert_eq!(zero_pad(0, 2), "00");
    assert_eq!(zero_pad(5, 0), "5");
}

#[test]
fn decimal_notation() {
    assert_eq!(decimal_string(0), "0");
    assert_eq!(decimal_string(907), "907");
    assert_eq!(decimal_string(usize::MAX), usize::MAX.to_string());
}

#[test]
fn reading_text_forms() {
    assert_eq!(format_reading(2, 3, true, 2), "02/03");
    assert_eq!(format_reading(2, 3, false, 2), "02");
    assert_eq!(format_reading(123, 4567, true, 3), "123/4567");
}

#[test]
fn end_to_end_scenario() {
    let t0: u64 = 1_700_000_000_000;
    let mut log = TimestampLog::new();
    let mut s = Sampler::new(Unit::WordsPerMinute, true, 2);
    // an earlier tick reported a rate of 3
    assert_eq!(s.tick(15), 3);
    for i in 0..12u64 {
        assert!(record_event(&mut log, press(30 + i as u16), t0 + i * 250));
    }
    assert_eq!(s.sample(&mut log, t0 + 5_000), "02/03");
    assert_eq!(log.len(), 12);
    assert_eq!(s.best(), 3);
}

#[test]
fn window_drops_old_presses() {
    let t0: u64 = 1_000_000;
    let mut log = TimestampLog::new();
    let mut s = Sampler::new(Unit::CharsPerMinute, false, 2);
    record_event(&mut log, press(30), t0);
    record_event(&mut log, press(31), t0 + 10_000);
    record_event(&mut log, press(32), t0 + 70_000);
    assert_eq!(s.sample(&mut log, t0 + WINDOW_MS + 10_000), "02");
    assert_eq!(stamps(&log), vec![t0 + 10_000, t0 + 70_000]);
    assert_eq!(s.sample(&mut log, t0 + 200_000), "00");
    assert_eq!(s.best(), 2);
}
