use search_libs::{
    import_event, log_event, LogLevel, LogLevelBitmask, LogLevelOrCustom, LogMessage, U128Wrapper,
};

const ALL: [LogLevel; 5] = [LogLevel::Trace, LogLevel::Debug, LogLevel::Info, LogLevel::Warn, LogLevel::Error];

#[test]
fn threshold_lets_through_equal_and_higher() {
    let f = LogLevelOrCustom::from_min_level(LogLevel::Warn);
    assert!(f.is_enabled(LogLevel::Warn));
    assert!(f.is_enabled(LogLevel::Error));
    assert!(!f.is_enabled(LogLevel::Info));
    assert!(!f.is_enabled(LogLevel::Debug));
    assert!(!f.is_enabled(LogLevel::Trace));
}

#[test]
fn threshold_matches_rank_for_every_pair() {
    for (ti, t) in ALL.iter().enumerate() {
        let f = LogLevelOrCustom::from_min_level(*t);
        for (si, s) in ALL.iter().enumerate() {
            assert_eq!(f.is_enabled(*s), si >= ti);
        }
    }
}

#[test]
fn trace_threshold_enables_everything() {
    let f = LogLevelOrCustom::from_min_level(LogLevel::Trace);
    for s in ALL {
        assert!(f.is_enabled(s));
    }
}

#[test]
fn custom_mask_enables_listed_levels_only() {
    let f = LogLevelOrCustom::from_levels(&[LogLevel::Error, LogLevel::Trace]);
    assert_eq!(f, LogLevelOrCustom::Custom(LogLevelBitmask::from_mask(17)));
    assert!(f.is_enabled(LogLevel::Error));
    assert!(f.is_enabled(LogLevel::Trace));
    assert!(!f.is_enabled(LogLevel::Debug));
    assert!(!f.is_enabled(LogLevel::Info));
    assert!(!f.is_enabled(LogLevel::Warn));
}

#[test]
fn empty_level_list_enables_nothing() {
    let f = LogLevelOrCustom::from_levels(&[]);
    for s in ALL {
        assert!(!f.is_enabled(s));
    }
}

#[test]
fn mask_filter_tests_the_bit() {
    for m in 0u8..=255 {
        let f = LogLevelOrCustom::Custom(LogLevelBitmask::from_mask(m));
        for s in ALL {
            assert_eq!(f.is_enabled(s), m & s.bit() != 0);
        }
    }
}

#[test]
fn level_bits_are_distinct_powers_of_two() {
    let bits: Vec<u8> = ALL.iter().map(|l| l.bit()).collect();
    assert_eq!(bits, vec![1, 2, 4, 8, 16]);
}

#[test]
fn bitmask_round_trip() {
    assert_eq!(LogLevelBitmask::from_mask(5).mask(), 5);
    assert_eq!(LogLevelBitmask::from_mask(0).mask(), 0);
    assert_eq!(LogLevelBitmask::from_mask(255).mask(), 255);
}

#[test]
fn u128_wrapper_round_trip() {
    for v in [0u128, 1, u64::MAX as u128, 1u128 << 64, u128::MAX, 1_700_000_000_123, 0x0123_4567_89ab_cdef_fedc_ba98_7654_3210] {
        assert_eq!(U128Wrapper::new(v).get(), v);
    }
}

#[test]
fn disabled_log_produces_no_event() {
    let f = LogLevelOrCustom::from_min_level(LogLevel::Error);
    assert!(log_event(f, "raw", "hello", LogLevel::Info, 5).is_none());
    let m = LogLevelOrCustom::from_levels(&[LogLevel::Trace]);
    assert!(log_event(m, "raw", "hello", LogLevel::Error, 5).is_none());
}

#[test]
fn enabled_log_produces_event() {
    let f = LogLevelOrCustom::from_min_level(LogLevel::Info);
    let e = log_event(f, "plugin.so", "hello", LogLevel::Warn, 1_700_000_000_000).unwrap();
    assert_eq!(e.message, "hello");
    assert_eq!(e.level, LogLevel::Warn);
    assert_eq!(e.source, "plugin.so");
    assert_eq!(e.time.get(), 1_700_000_000_000);
}

fn sample() -> LogMessage {
    LogMessage {
        message: "from elsewhere".to_string(),
        level: LogLevel::Debug,
        source: "other".to_string(),
        time: U128Wrapper::new(42),
    }
}

#[test]
fn import_of_empty_text_is_a_no_op() {
    let f = LogLevelOrCustom::from_min_level(LogLevel::Trace);
    assert!(import_event(f, "raw", "", None, 1).is_none());
    assert!(import_event(f, "raw", "", Some(sample()), 1).is_none());
}

#[test]
fn import_of_read_event_keeps_its_fields() {
    let f = LogLevelOrCustom::from_min_level(LogLevel::Error);
    let e = import_event(f, "raw", "{...}", Some(sample()), 99).unwrap();
    assert_eq!(e.message, "from elsewhere");
    assert_eq!(e.level, LogLevel::Debug);
    assert_eq!(e.source, "other");
    assert_eq!(e.time.get(), 42);
}

#[test]
fn import_of_malformed_text_logs_one_error() {
    let f = LogLevelOrCustom::from_min_level(LogLevel::Info);
    let e = import_event(f, "raw", "not json", None, 7).unwrap();
    assert_eq!(e.level, LogLevel::Error);
    assert_eq!(e.message, "Failed to deserialize log message: not json");
    assert!(e.message.contains("not json"));
    assert_eq!(e.source, "raw");
    assert_eq!(e.time.get(), 7);
}

#[test]
fn import_failure_is_filtered_like_any_error() {
    let f = LogLevelOrCustom::from_levels(&[LogLevel::Info]);
    assert!(import_event(f, "raw", "not json", None, 7).is_none());
}

#[test]
fn event_wire_form_is_one_json_object() {
    let e = LogMessage {
        message: "say \"hi\"\n".to_string(),
        level: LogLevel::Warn,
        source: "raw".to_string(),
        time: U128Wrapper::new(1_700_000_000_000),
    };
    assert_eq!(
        e.to_json(),
        "{\"message\":\"say \\\"hi\\\"\\n\",\"level\":\"Warn\",\"source\":\"raw\",\"time\":1700000000000}"
    );
}

#[test]
fn event_wire_form_reads_back_through_serde_json() {
    let e = LogMessage {
        message: "tab\there é".to_string(),
        level: LogLevel::Trace,
        source: "plugin.so".to_string(),
        time: U128Wrapper::new(u64::MAX as u128),
    };
    let v: serde_json::Value = serde_json::from_str(&e.to_json()).unwrap();
    assert_eq!(v["message"], "tab\there é");
    assert_eq!(v["level"], "Trace");
    assert_eq!(v["source"], "plugin.so");
    assert_eq!(v["time"].as_u64(), Some(u64::MAX));
}

#[test]
fn wide_timestamps_are_written_in_full() {
    let e = LogMessage {
        message: String::new(),
        level: LogLevel::Error,
        source: String::new(),
        time: U128Wrapper::new(u128::MAX),
    };
    assert_eq!(
        e.to_json(),
        "{\"message\":\"\",\"level\":\"Error\",\"source\":\"\",\"time\":340282366920938463463374607431768211455}"
    );
}

#[test]
fn level_names_match_variants() {
    let names: Vec<&str> = ALL.iter().map(|l| l.name()).collect();
    assert_eq!(names, vec!["Trace", "Debug", "Info", "Warn", "Error"]);
}

#[test]
fn u128_halves_split_high_then_low() {
    let w = U128Wrapper::new((7u128 << 64) | 9);
    assert_eq!(w.halves(), (7, 9));
    assert_eq!(U128Wrapper::from_halves(7, 9).get(), (7u128 << 64) | 9);
    assert_eq!(U128Wrapper::from_halves(u64::MAX, u64::MAX).get(), u128::MAX);
}

#[test]
fn timestamps_order_by_value() {
    let small = U128Wrapper::new(u64::MAX as u128);
    let big = U128Wrapper::new(1u128 << 64);
    assert!(small < big);
    assert!(big > small);
    assert_eq!(small.cmp(&big), std::cmp::Ordering::Less);
    assert_eq!(small.partial_cmp(&U128Wrapper::new(u64::MAX as u128)), Some(std::cmp::Ordering::Equal));
}
