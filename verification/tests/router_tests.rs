use tracing_wasm::Level;
use tracing_wasm::config::ConsoleConfig;
use tracing_wasm::config::WASMLayerConfig;
use tracing_wasm::config::WASMLayerConfigBuilder;
use tracing_wasm::layer::WASMLayer;
use tracing_wasm::sink::SinkCall;

fn fields(pairs: &[(&str, &str)]) -> Vec<(String, String)> {
    pairs.iter().map(|(n, v)| (n.to_string(), v.to_string())).collect()
}

#[test]
fn enabled_compares_against_threshold() {
    let mut builder = WASMLayerConfigBuilder::new();
    builder.set_max_level(Level::Warn);
    let layer = WASMLayer::new(builder.build());
    assert!(!layer.enabled(Level::Trace));
    assert!(!layer.enabled(Level::Debug));
    assert!(!layer.enabled(Level::Info));
    assert!(layer.enabled(Level::Warn));
    assert!(layer.enabled(Level::Error));
}

#[test]
fn enabled_default_accepts_everything() {
    let layer = WASMLayer::default();
    assert!(layer.enabled(Level::Trace));
    assert!(layer.enabled(Level::Error));
}

#[test]
fn event_with_color_produces_styled_log_call() {
    let mut layer = WASMLayer::new(WASMLayerConfig {
        report_logs_in_timings: false,
        report_logs_in_console: true,
        use_console_color: true,
        max_level: Level::Trace,
    });
    let calls = layer.on_event(
        Level::Info,
        Some("app.rs"),
        Some(7),
        Some("my_mod"),
        &fields(&[("message", "\"hi\"")]),
    );
    assert_eq!(calls.len(), 1);
    match &calls[0] {
        SinkCall::Log4 { message, style1, style2, style3 } => {
            assert_eq!(message, "%cINFO%c app.rs:7%c \"hi\"");
            assert_eq!(style1, "color: whitesmoke; background: #444");
            assert_eq!(style2, "color: gray; font-style: italic");
            assert_eq!(style3, "color: inherit");
        }
        other => panic!("expected a styled log call, got {:?}", call_kind(other)),
    }
}

#[test]
fn event_without_color_routes_to_severity_channel() {
    let mut builder = WASMLayerConfigBuilder::new();
    builder.set_console_config(ConsoleConfig::ReportWithoutConsoleColor);
    builder.set_report_logs_in_timings(false);
    let mut layer = WASMLayer::new(builder.build());

    let calls = layer.on_event(
        Level::Error,
        Some("app.rs"),
        Some(3),
        None,
        &fields(&[("message", "\"boom\"")]),
    );
    assert_eq!(calls.len(), 1);
    match &calls[0] {
        SinkCall::Error1 { message } => {
            assert_eq!(message, "ERROR app.rs:3 \"boom\"");
        }
        other => panic!("expected an error-channel call, got {:?}", call_kind(other)),
    }
}

#[test]
fn event_channels_per_level() {
    let mut builder = WASMLayerConfigBuilder::new();
    builder.set_console_config(ConsoleConfig::ReportWithoutConsoleColor);
    builder.set_report_logs_in_timings(false);
    let mut layer = WASMLayer::new(builder.build());
    let no_fields = fields(&[]);

    let trace = layer.on_event(Level::Trace, None, None, None, &no_fields);
    assert!(matches!(&trace[0], SinkCall::Debug1 { .. }));
    let debug = layer.on_event(Level::Debug, None, None, None, &no_fields);
    assert!(matches!(&debug[0], SinkCall::Debug1 { .. }));
    let info = layer.on_event(Level::Info, None, None, None, &no_fields);
    assert!(matches!(&info[0], SinkCall::Info1 { .. }));
    let warn = layer.on_event(Level::Warn, None, None, None, &no_fields);
    assert!(matches!(&warn[0], SinkCall::Warn1 { .. }));
    let error = layer.on_event(Level::Error, None, None, None, &no_fields);
    assert!(matches!(&error[0], SinkCall::Error1 { .. }));
}

#[test]
fn event_origin_empty_when_file_or_line_missing() {
    let mut builder = WASMLayerConfigBuilder::new();
    builder.set_console_config(ConsoleConfig::ReportWithoutConsoleColor);
    builder.set_report_logs_in_timings(false);
    let mut layer = WASMLayer::new(builder.build());

    let calls = layer.on_event(Level::Info, Some("app.rs"), None, None, &fields(&[("a", "1")]));
    match &calls[0] {
        SinkCall::Info1 { message } => assert_eq!(message, "INFO   a = 1;"),
        other => panic!("expected an info-channel call, got {:?}", call_kind(other)),
    }
}

#[test]
fn event_timeline_mark_and_measure_share_name() {
    let mut layer = WASMLayer::new(WASMLayerConfig {
        report_logs_in_timings: true,
        report_logs_in_console: false,
        use_console_color: false,
        max_level: Level::Trace,
    });
    let calls = layer.on_event(
        Level::Debug,
        None,
        None,
        Some("core::engine"),
        &fields(&[("step", "4")]),
    );
    assert_eq!(calls.len(), 2);
    let mark_name = match &calls[0] {
        SinkCall::Mark { name } => name.clone(),
        other => panic!("expected a mark, got {:?}", call_kind(other)),
    };
    match &calls[1] {
        SinkCall::Measure { label, start_mark } => {
            assert_eq!(start_mark, &mark_name);
            assert_eq!(label, "DEBUG core::engine  step = 4;");
        }
        other => panic!("expected a measure, got {:?}", call_kind(other)),
    }
    assert_eq!(mark_name, "c0");
}

#[test]
fn event_measure_label_uses_placeholder_without_module() {
    let mut layer = WASMLayer::new(WASMLayerConfig {
        report_logs_in_timings: true,
        report_logs_in_console: false,
        use_console_color: false,
        max_level: Level::Trace,
    });
    let calls = layer.on_event(Level::Warn, None, None, None, &fields(&[]));
    match &calls[1] {
        SinkCall::Measure { label, .. } => assert_eq!(label, "WARN ..."),
        other => panic!("expected a measure, got {:?}", call_kind(other)),
    }
}

#[test]
fn correlation_ids_are_distinct_across_events() {
    let mut layer = WASMLayer::new(WASMLayerConfig {
        report_logs_in_timings: true,
        report_logs_in_console: false,
        use_console_color: false,
        max_level: Level::Trace,
    });
    let no_fields = fields(&[]);
    let first = layer.on_event(Level::Info, None, None, None, &no_fields);
    let second = layer.on_event(Level::Info, None, None, None, &no_fields);
    let first_name = match &first[0] {
        SinkCall::Mark { name } => name.clone(),
        other => panic!("expected a mark, got {:?}", call_kind(other)),
    };
    let second_name = match &second[0] {
        SinkCall::Mark { name } => name.clone(),
        other => panic!("expected a mark, got {:?}", call_kind(other)),
    };
    assert_eq!(first_name, "c0");
    assert_eq!(second_name, "c1");
    assert_ne!(first_name, second_name);
    assert_eq!(layer.last_event_id, 2);
}

#[test]
fn disabled_sinks_produce_no_calls() {
    let mut builder = WASMLayerConfigBuilder::new();
    builder.set_console_config(ConsoleConfig::NoReporting);
    builder.set_report_logs_in_timings(false);
    let mut layer = WASMLayer::new(builder.build());
    let calls = layer.on_event(
        Level::Error,
        Some("app.rs"),
        Some(1),
        Some("m"),
        &fields(&[("message", "\"x\"")]),
    );
    assert_eq!(calls.len(), 0);
    assert_eq!(layer.last_event_id, 0);
}

#[test]
fn span_enter_then_exit_share_mark_name() {
    let mut layer = WASMLayer::default();
    layer.new_span(5, &fields(&[]));
    let enter = layer.on_enter(5);
    let exit = layer.on_exit(5, "myspan", Some("my_mod"));
    let mark_name = match &enter {
        SinkCall::Mark { name } => name.clone(),
        other => panic!("expected a mark, got {:?}", call_kind(other)),
    };
    match &exit {
        SinkCall::Measure { start_mark, .. } => assert_eq!(start_mark, &mark_name),
        other => panic!("expected a measure, got {:?}", call_kind(other)),
    }
    assert_eq!(mark_name, "t5");
}

#[test]
fn span_mark_name_is_hex_of_id() {
    let layer = WASMLayer::default();
    match layer.on_enter(0xdeadbeef) {
        SinkCall::Mark { name } => assert_eq!(name, "tdeadbeef"),
        other => panic!("expected a mark, got {:?}", call_kind(&other)),
    }
}

#[test]
fn span_exit_label_with_recorded_fields() {
    let mut layer = WASMLayer::default();
    layer.new_span(9, &fields(&[("a", "1")]));
    layer.on_record(9, &fields(&[("b", "2")]));
    match layer.on_exit(9, "work", Some("my_mod")) {
        SinkCall::Measure { label, start_mark } => {
            assert_eq!(label, "\"work\" my_mod   a = 1;\nb = 2;");
            assert_eq!(start_mark, "t9");
        }
        other => panic!("expected a measure, got {:?}", call_kind(&other)),
    }
}

#[test]
fn span_exit_label_with_empty_recorder() {
    let mut layer = WASMLayer::default();
    layer.new_span(4, &fields(&[]));
    match layer.on_exit(4, "idle", Some("my_mod")) {
        SinkCall::Measure { label, .. } => assert_eq!(label, "\"idle\" my_mod "),
        other => panic!("expected a measure, got {:?}", call_kind(&other)),
    }
}

#[test]
fn span_exit_label_without_recorder_has_no_trailing_space() {
    let layer = WASMLayer::default();
    match layer.on_exit(77, "ghostly", Some("my_mod")) {
        SinkCall::Measure { label, start_mark } => {
            assert_eq!(label, "\"ghostly\" my_mod");
            assert_eq!(start_mark, "t4d");
        }
        other => panic!("expected a measure, got {:?}", call_kind(&other)),
    }
}

#[test]
fn span_exit_label_placeholder_module() {
    let mut layer = WASMLayer::default();
    layer.new_span(2, &fields(&[("x", "0")]));
    match layer.on_exit(2, "s", None) {
        SinkCall::Measure { label, .. } => assert_eq!(label, "\"s\" ...   x = 0;"),
        other => panic!("expected a measure, got {:?}", call_kind(&other)),
    }
}

#[test]
fn on_record_without_span_is_silently_ignored() {
    let mut layer = WASMLayer::default();
    layer.new_span(1, &fields(&[("a", "1")]));
    layer.on_record(8, &fields(&[("b", "2")]));
    match layer.on_exit(1, "s", None) {
        SinkCall::Measure { label, .. } => assert_eq!(label, "\"s\" ...   a = 1;"),
        other => panic!("expected a measure, got {:?}", call_kind(&other)),
    }
}

#[test]
fn spans_keep_independent_recorders() {
    let mut layer = WASMLayer::default();
    layer.new_span(1, &fields(&[("a", "1")]));
    layer.new_span(2, &fields(&[("b", "2")]));
    layer.on_record(1, &fields(&[("c", "3")]));
    match layer.on_exit(2, "right", None) {
        SinkCall::Measure { label, .. } => assert_eq!(label, "\"right\" ...   b = 2;"),
        other => panic!("expected a measure, got {:?}", call_kind(&other)),
    }
    match layer.on_exit(1, "left", None) {
        SinkCall::Measure { label, .. } => assert_eq!(label, "\"left\" ...   a = 1;\nc = 3;"),
        other => panic!("expected a measure, got {:?}", call_kind(&other)),
    }
}

fn call_kind(call: &SinkCall) -> &'static str {
    match call {
        SinkCall::Mark { .. } => "mark",
        SinkCall::Measure { .. } => "measure",
        SinkCall::Log4 { .. } => "styled log",
        SinkCall::Debug1 { .. } => "debug",
        SinkCall::Info1 { .. } => "info",
        SinkCall::Warn1 { .. } => "warn",
        SinkCall::Error1 { .. } => "error",
    }
}

#[test]
fn correlation_counter_wraps_at_max() {
    let mut layer = WASMLayer::new(WASMLayerConfig {
        report_logs_in_timings: true,
        report_logs_in_console: false,
        use_console_color: false,
        max_level: Level::Trace,
    });
    layer.last_event_id = u64::MAX;
    let calls = layer.on_event(Level::Info, None, None, None, &fields(&[]));
    match &calls[0] {
        SinkCall::Mark { name } => assert_eq!(name, "cffffffffffffffff"),
        other => panic!("expected a mark, got {:?}", call_kind(other)),
    }
    assert_eq!(layer.last_event_id, 0);
}
