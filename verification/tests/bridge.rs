use obs_log::{
    install, install_with_level, native_level, render, Dispatch, FacadeState, LogError, LogRecord,
    LogSink, Severity, SinkSlot, NATIVE_LOG_DEBUG, NATIVE_LOG_ERROR, NATIVE_LOG_INFO,
    NATIVE_LOG_WARNING,
};

const LEVELS: [Severity; 5] = [
    Severity::Error,
    Severity::Warning,
    Severity::Info,
    Severity::Debug,
    Severity::Trace,
];

fn record(level: Severity, target: &[u8], module: Option<&[u8]>, message: &[u8]) -> LogRecord {
    LogRecord {
        level,
        target: target.to_vec(),
        module: module.map(|m| m.to_vec()),
        message: message.to_vec(),
    }
}

#[test]
fn is_enabled_follows_severity_order() {
    // Rows: minimum level Error..Trace; columns: record level Error..Trace.
    let expected = [
        [true, false, false, false, false],
        [true, true, false, false, false],
        [true, true, true, false, false],
        [true, true, true, true, false],
        [true, true, true, true, true],
    ];
    for (i, &minimum) in LEVELS.iter().enumerate() {
        let sink = LogSink::new(minimum);
        for (j, &level) in LEVELS.iter().enumerate() {
            assert_eq!(sink.is_enabled(level), expected[i][j]);
        }
    }
}

#[test]
fn native_codes_are_exact_and_trace_folds_into_debug() {
    assert_eq!(native_level(Severity::Error), NATIVE_LOG_ERROR);
    assert_eq!(native_level(Severity::Warning), NATIVE_LOG_WARNING);
    assert_eq!(native_level(Severity::Info), NATIVE_LOG_INFO);
    assert_eq!(native_level(Severity::Debug), NATIVE_LOG_DEBUG);
    assert_eq!(native_level(Severity::Trace), NATIVE_LOG_DEBUG);
    assert_eq!(native_level(Severity::Error), 100);
    assert_eq!(native_level(Severity::Warning), 200);
    assert_eq!(native_level(Severity::Info), 300);
    assert_eq!(native_level(Severity::Debug), 400);
}

#[test]
fn forwarded_text_uses_target() {
    let sink = LogSink::new(Severity::Trace);
    let rec = record(Severity::Info, b"module::sub", None, b"hello");
    match sink.log(&rec) {
        Ok(Dispatch::Forward { code, text }) => {
            assert_eq!(code, 300);
            assert_eq!(text, b"[module::sub] hello".to_vec());
        }
        other => panic!("expected a forward, got {:?}", other),
    }
}

#[test]
fn forwarded_text_falls_back_to_module_path() {
    let sink = LogSink::new(Severity::Trace);
    let rec = record(Severity::Info, b"", Some(b"crate::mod"), b"hello");
    match sink.log(&rec) {
        Ok(Dispatch::Forward { text, .. }) => {
            assert_eq!(text, b"[crate::mod] hello".to_vec());
        }
        other => panic!("expected a forward, got {:?}", other),
    }
}

#[test]
fn forwarded_text_with_no_target_and_no_module_path() {
    let sink = LogSink::new(Severity::Trace);
    let rec = record(Severity::Warning, b"", None, b"message");
    match sink.log(&rec) {
        Ok(Dispatch::Forward { code, text }) => {
            assert_eq!(code, 200);
            assert_eq!(text, b"[] message".to_vec());
        }
        other => panic!("expected a forward, got {:?}", other),
    }
}

#[test]
fn target_wins_over_module_path() {
    let rec = record(Severity::Debug, b"tgt", Some(b"crate::mod"), b"m");
    assert_eq!(render(&rec), b"[tgt] m".to_vec());
}

#[test]
fn render_of_empty_message() {
    let rec = record(Severity::Trace, b"", None, b"");
    assert_eq!(render(&rec), b"[] ".to_vec());
}

#[test]
fn embedded_nul_in_message_is_an_error() {
    let sink = LogSink::new(Severity::Trace);
    let rec = record(Severity::Error, b"t", None, b"bad\0msg");
    match sink.log(&rec) {
        Err(LogError::EmbeddedNulInMessage) => {}
        other => panic!("expected the embedded-NUL error, got {:?}", other),
    }
}

#[test]
fn embedded_nul_in_target_is_an_error() {
    let sink = LogSink::new(Severity::Trace);
    let rec = record(Severity::Error, b"ta\0rget", None, b"fine");
    match sink.log(&rec) {
        Err(LogError::EmbeddedNulInMessage) => {}
        other => panic!("expected the embedded-NUL error, got {:?}", other),
    }
}

#[test]
fn records_below_the_minimum_are_suppressed() {
    let sink = LogSink::new(Severity::Info);
    let rec = record(Severity::Debug, b"t", None, b"quiet");
    match sink.log(&rec) {
        Ok(Dispatch::Suppressed) => {}
        other => panic!("expected suppression, got {:?}", other),
    }
    // A suppressed record is never inspected for NUL bytes.
    let rec = record(Severity::Trace, b"t", None, b"qu\0iet");
    match sink.log(&rec) {
        Ok(Dispatch::Suppressed) => {}
        other => panic!("expected suppression, got {:?}", other),
    }
}

#[test]
fn install_claims_a_vacant_slot_at_trace() {
    let mut facade = FacadeState::new();
    assert_eq!(install(&mut facade), Ok(()));
    assert_eq!(
        facade.slot,
        SinkSlot::Installed(LogSink { minimum_level: Severity::Trace })
    );
    assert_eq!(facade.max_filter, Some(Severity::Trace));
}

#[test]
fn first_install_wins_and_later_installs_are_noops() {
    let mut facade = FacadeState::new();
    assert_eq!(install_with_level(&mut facade, Severity::Info), Ok(()));
    assert_eq!(install_with_level(&mut facade, Severity::Trace), Ok(()));
    assert_eq!(install(&mut facade), Ok(()));
    let sink = match facade.slot {
        SinkSlot::Installed(sink) => sink,
        other => panic!("expected an installed sink, got {:?}", other),
    };
    assert_eq!(sink.minimum_level, Severity::Info);
    assert_eq!(facade.max_filter, Some(Severity::Info));
    // Debug and Trace records stay suppressed despite the later attempts.
    assert!(!sink.is_enabled(Severity::Debug));
    assert!(!sink.is_enabled(Severity::Trace));
    assert!(sink.is_enabled(Severity::Info));
}

#[test]
fn repeated_installs_construct_exactly_one_sink() {
    let mut facade = FacadeState::new();
    for _ in 0..8 {
        assert_eq!(install(&mut facade), Ok(()));
    }
    assert_eq!(
        facade.slot,
        SinkSlot::Installed(LogSink { minimum_level: Severity::Trace })
    );
}

#[test]
fn a_slot_claimed_elsewhere_is_a_fatal_conflict() {
    let mut facade = FacadeState {
        slot: SinkSlot::ClaimedElsewhere,
        max_filter: None,
    };
    assert_eq!(
        install_with_level(&mut facade, Severity::Error),
        Err(LogError::SinkAlreadyRegisteredByOther)
    );
    assert_eq!(facade.slot, SinkSlot::ClaimedElsewhere);
    assert_eq!(facade.max_filter, None);
}

#[test]
fn flush_has_no_observable_effect() {
    let sink = LogSink::new(Severity::Info);
    let rec = record(Severity::Error, b"t", None, b"before");
    let before = match sink.log(&rec) {
        Ok(Dispatch::Forward { code, text }) => (code, text),
        other => panic!("expected a forward, got {:?}", other),
    };
    sink.flush();
    sink.flush();
    let after = match sink.log(&rec) {
        Ok(Dispatch::Forward { code, text }) => (code, text),
        other => panic!("expected a forward, got {:?}", other),
    };
    assert_eq!(before, after);
    assert!(!sink.is_enabled(Severity::Debug));
}
