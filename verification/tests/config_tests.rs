use tracing_wasm::Level;
use tracing_wasm::config::ConsoleConfig;
use tracing_wasm::config::WASMLayerConfig;
use tracing_wasm::config::WASMLayerConfigBuilder;

#[test]
fn test_default_built_config() {
    let builder = WASMLayerConfigBuilder::new();

    let config = builder.build();

    assert_eq!(
        config,
        WASMLayerConfig {
            report_logs_in_timings: true,
            report_logs_in_console: true,
            use_console_color: true,
            max_level: Level::Trace,
        }
    )
}

#[test]
fn test_set_report_logs_in_timings() {
    let mut builder = WASMLayerConfigBuilder::new();
    builder.set_report_logs_in_timings(false);

    let config = builder.build();

    assert_eq!(config.report_logs_in_timings, false);
}

#[test]
fn test_set_console_config_no_reporting() {
    let mut builder = WASMLayerConfigBuilder::new();
    builder.set_console_config(ConsoleConfig::NoReporting);

    let config = builder.build();

    assert_eq!(config.report_logs_in_console, false);
    assert_eq!(config.use_console_color, false);
}

#[test]
fn test_set_console_config_without_color() {
    let mut builder = WASMLayerConfigBuilder::new();
    builder.set_console_config(ConsoleConfig::ReportWithoutConsoleColor);

    let config = builder.build();

    assert_eq!(config.report_logs_in_console, true);
    assert_eq!(config.use_console_color, false);
}

#[test]
fn test_set_console_config_with_color() {
    let mut builder = WASMLayerConfigBuilder::new();
    builder.set_console_config(ConsoleConfig::ReportWithConsoleColor);

    let config = builder.build();

    assert_eq!(config.report_logs_in_console, true);
    assert_eq!(config.use_console_color, true);
}

#[test]
fn test_default_config_log_level() {
    let builder = WASMLayerConfigBuilder::new();

    let config = builder.build();

    assert_eq!(config.max_level, Level::Trace);
}

#[test]
fn test_set_config_log_level_warn() {
    let mut builder = WASMLayerConfigBuilder::new();
    builder.set_max_level(Level::Warn);

    let config = builder.build();

    assert_eq!(config.max_level, Level::Warn);
}

#[test]
fn test_default_config_value() {
    let config = WASMLayerConfig::default();
    assert_eq!(
        config,
        WASMLayerConfig {
            report_logs_in_timings: true,
            report_logs_in_console: true,
            use_console_color: true,
            max_level: Level::Trace,
        }
    );
}

#[test]
fn test_builder_reusable_after_build() {
    let mut builder = WASMLayerConfigBuilder::new();
    let first = builder.build();
    builder.set_max_level(Level::Error);
    let second = builder.build();
    assert_eq!(first.max_level, Level::Trace);
    assert_eq!(second.max_level, Level::Error);
    assert_eq!(second.report_logs_in_console, true);
}
