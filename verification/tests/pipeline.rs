use logbridge::envelope::Envelope;
use logbridge::logger::{DeliveryMode, Logger, Outcome};
use logbridge::severity::Severity;
use logbridge::timefmt::format_elapsed;
use logbridge::render::render_line;

#[test]
fn threshold_codes_map_to_severities() {
    assert_eq!(Severity::from_code(0), Some(Severity::Off));
    assert_eq!(Severity::from_code(1), Some(Severity::Error));
    assert_eq!(Severity::from_code(2), Some(Severity::Warn));
    assert_eq!(Severity::from_code(3), Some(Severity::Info));
    assert_eq!(Severity::from_code(4), Some(Severity::Debug));
    assert_eq!(Severity::from_code(5), Some(Severity::Trace));
}

#[test]
fn threshold_codes_out_of_range_are_rejected() {
    assert_eq!(Severity::from_code(6), None);
    assert_eq!(Severity::from_code(7), None);
    assert_eq!(Severity::from_code(255), None);
}

#[test]
fn elapsed_time_formatting() {
    assert_eq!(format_elapsed(0), "00:00:00");
    assert_eq!(format_elapsed(59), "00:00:59");
    assert_eq!(format_elapsed(60), "00:01:00");
    assert_eq!(format_elapsed(3661), "01:01:01");
    assert_eq!(format_elapsed(360000), "100:00:00");
}

#[test]
fn prefix_padded_to_minimum_width() {
    // A short prefix is padded with spaces so the message starts at column 27.
    let line = render_line(Severity::Info, "ready", 5);
    assert_eq!(line, "[INFO] [00:00:05]          ready");
    assert_eq!(line.find("ready"), Some(27));

    // The same width holds for every severity name length.
    for (sev, name) in [
        (Severity::Error, "ERROR"),
        (Severity::Warn, "WARN"),
        (Severity::Info, "INFO"),
        (Severity::Debug, "DEBUG"),
        (Severity::Trace, "TRACE"),
    ] {
        let line = render_line(sev, "m", 59);
        assert_eq!(line.find('m'), Some(27));
        assert!(line.starts_with(&format!("[{}] [00:00:59]", name)));
    }
}

#[test]
fn wide_prefix_is_never_truncated() {
    // 1_000_000_000_000 hours: the prefix runs past 27 characters and the
    // message follows immediately, with no padding and no truncation.
    let total: u64 = 1_000_000_000_000 * 3600;
    let line = render_line(Severity::Error, "m", total);
    assert_eq!(line, "[ERROR] [1000000000000:00:00]m");
    assert!(line.len() > 27);
}

#[test]
fn filtered_record_produces_no_envelope() {
    let mut logger = Logger::new(Severity::Info, DeliveryMode::Buffered);
    match logger.handle_record(Severity::Debug, "hidden", 0) {
        Outcome::Filtered => {}
        _ => panic!("record below threshold must be filtered"),
    }
    assert_eq!(logger.pending(), 0);
    assert!(logger.flush().is_empty());
}

#[test]
fn off_threshold_disables_all_emission() {
    let mut logger = Logger::new(Severity::Off, DeliveryMode::Immediate);
    for sev in [
        Severity::Error,
        Severity::Warn,
        Severity::Info,
        Severity::Debug,
        Severity::Trace,
    ] {
        match logger.handle_record(sev, "x", 1) {
            Outcome::Filtered => {}
            _ => panic!("an Off threshold must drop every record"),
        }
    }
    assert_eq!(logger.pending(), 0);
}

#[test]
fn immediate_mode_emits_one_envelope_per_record() {
    let mut logger = Logger::new(Severity::Trace, DeliveryMode::Immediate);
    let mut emitted: Vec<Envelope> = Vec::new();
    for (i, msg) in ["one", "two", "three"].iter().enumerate() {
        match logger.handle_record(Severity::Info, msg, i as u64) {
            Outcome::Emit(env) => emitted.push(env),
            _ => panic!("an accepted record in immediate mode must be emitted"),
        }
        assert_eq!(logger.pending(), 0);
    }
    assert_eq!(emitted.len(), 3);
    assert_eq!(emitted[0].message, "[INFO] [00:00:00]          one");
    assert_eq!(emitted[1].message, "[INFO] [00:00:01]          two");
    assert_eq!(emitted[2].message, "[INFO] [00:00:02]          three");
}

#[test]
fn buffered_mode_flushes_all_in_order() {
    let mut logger = Logger::new(Severity::Trace, DeliveryMode::Buffered);
    for (i, msg) in ["a", "b", "c"].iter().enumerate() {
        match logger.handle_record(Severity::Warn, msg, i as u64) {
            Outcome::Buffered => {}
            _ => panic!("an accepted record in buffered mode must be buffered"),
        }
    }
    assert_eq!(logger.pending(), 3);
    let batch = logger.flush();
    assert_eq!(logger.pending(), 0);
    assert_eq!(batch.len(), 3);
    assert_eq!(batch[0].message, "[WARN] [00:00:00]          a");
    assert_eq!(batch[1].message, "[WARN] [00:00:01]          b");
    assert_eq!(batch[2].message, "[WARN] [00:00:02]          c");
    for env in &batch {
        assert_eq!(env.kind, "log");
        assert_eq!(env.level, "WARN");
    }
}

#[test]
fn flush_with_no_pending_records_sends_empty_batch() {
    let mut logger = Logger::new(Severity::Trace, DeliveryMode::Buffered);
    let batch = logger.flush();
    assert!(batch.is_empty());
    assert_eq!(logger.pending(), 0);
}

#[test]
fn flush_twice_never_delivers_twice() {
    let mut logger = Logger::new(Severity::Trace, DeliveryMode::Buffered);
    logger.handle_record(Severity::Error, "once", 7);
    let first = logger.flush();
    assert_eq!(first.len(), 1);
    assert_eq!(first[0].message, "[ERROR] [00:00:07]         once");
    let second = logger.flush();
    assert!(second.is_empty());
}

#[test]
fn info_threshold_buffered_scenario() {
    // init(3, buffered): Info threshold.
    let threshold = Severity::from_code(3).expect("3 is a valid threshold code");
    assert_eq!(threshold, Severity::Info);
    let mut logger = Logger::new(threshold, DeliveryMode::Buffered);

    // A Debug record is below the threshold: nothing is buffered.
    match logger.handle_record(Severity::Debug, "noise", 5) {
        Outcome::Filtered => {}
        _ => panic!("Debug must be filtered at an Info threshold"),
    }
    assert_eq!(logger.pending(), 0);

    // An Info record at 5 s elapsed is buffered with the exact envelope.
    match logger.handle_record(Severity::Info, "ready", 5) {
        Outcome::Buffered => {}
        _ => panic!("Info must be buffered at an Info threshold"),
    }
    let batch = logger.flush();
    assert_eq!(batch.len(), 1);
    assert_eq!(batch[0].kind, "log");
    assert_eq!(batch[0].level, "INFO");
    assert_eq!(batch[0].message, "[INFO] [00:00:05]          ready");
    assert_eq!(logger.pending(), 0);
}

#[test]
fn clock_stamped_records_flow_through_the_pipeline() {
    // `log` stamps the record from the logger's own epoch clock; right after
    // construction the elapsed time is far below an hour.
    let mut logger = Logger::new(Severity::Trace, DeliveryMode::Immediate);
    match logger.log(Severity::Info, "live") {
        Outcome::Emit(env) => {
            assert_eq!(env.level, "INFO");
            assert!(env.message.starts_with("[INFO] [00:00:0"));
            assert!(env.message.ends_with("live"));
        }
        _ => panic!("an accepted record in immediate mode must be emitted"),
    }
}
