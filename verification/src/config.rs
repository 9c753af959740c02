//! The configuration governing which sinks are active and at what
//! verbosity, and its mutable builder.

use vstd::prelude::*;
use crate::Level;

verus! {

/// Three-way selector for console reporting: it sets the console flag
/// and the color flag together.
pub enum ConsoleConfig {
    NoReporting,
    ReportWithoutConsoleColor,
    ReportWithConsoleColor,
}

/// Immutable snapshot of the layer's configuration.
#[derive(Debug, Clone, Copy, PartialEq, Eq, Structural)]
pub struct WASMLayerConfig {
    /// Log events will be marked and measured so they appear in performance timings.
    pub report_logs_in_timings: bool,
    /// Log events will be logged to the console.
    pub report_logs_in_console: bool,
    /// Only relevant if `report_logs_in_console` is true: use color style strings.
    pub use_console_color: bool,
    /// Events are reported from this level on. Default is `Trace` (all).
    pub max_level: Level,
}

/// The default configuration: both sinks on, color on, every severity
/// reported.
pub open spec fn default_config() -> WASMLayerConfig {
    WASMLayerConfig {
        report_logs_in_timings: true,
        report_logs_in_console: true,
        use_console_color: true,
        max_level: Level::Trace,
    }
}

impl core::default::Default for WASMLayerConfig {
    fn default() -> (c: WASMLayerConfig)
        ensures
            c == default_config(),
    {
        WASMLayerConfig {
            report_logs_in_timings: true,
            report_logs_in_console: true,
            use_console_color: true,
            max_level: Level::Trace,
        }
    }
}

/// Mutable staging object from which a `WASMLayerConfig` is built.
/// The builder may be mutated further and reused after building.
pub struct WASMLayerConfigBuilder {
    /// Log events will be marked and measured so they appear in performance timings.
    pub report_logs_in_timings: bool,
    /// Log events will be logged to the console.
    pub report_logs_in_console: bool,
    /// Only relevant if `report_logs_in_console` is true: use color style strings.
    pub use_console_color: bool,
    /// Events are reported from this level on. Default is `Trace` (all).
    pub max_level: Level,
}

/// The builder's default-initialized state.
pub open spec fn default_builder() -> WASMLayerConfigBuilder {
    WASMLayerConfigBuilder {
        report_logs_in_timings: true,
        report_logs_in_console: true,
        use_console_color: true,
        max_level: Level::Trace,
    }
}

/// The configuration a builder state builds: a field-for-field copy.
pub open spec fn built_config(b: WASMLayerConfigBuilder) -> WASMLayerConfig {
    WASMLayerConfig {
        report_logs_in_timings: b.report_logs_in_timings,
        report_logs_in_console: b.report_logs_in_console,
        use_console_color: b.use_console_color,
        max_level: b.max_level,
    }
}

/// How the three-way console selector rewrites a builder state: console
/// and color flags are set together, the other fields are untouched.
pub open spec fn apply_console_config(
    b: WASMLayerConfigBuilder,
    console_config: ConsoleConfig,
) -> WASMLayerConfigBuilder {
    match console_config {
        ConsoleConfig::NoReporting => WASMLayerConfigBuilder {
            report_logs_in_console: false,
            use_console_color: false,
            ..b
        },
        ConsoleConfig::ReportWithoutConsoleColor => WASMLayerConfigBuilder {
            report_logs_in_console: true,
            use_console_color: false,
            ..b
        },
        ConsoleConfig::ReportWithConsoleColor => WASMLayerConfigBuilder {
            report_logs_in_console: true,
            use_console_color: true,
            ..b
        },
    }
}

impl WASMLayerConfigBuilder {
    /// A builder in its default state.
    pub fn new() -> (b: WASMLayerConfigBuilder)
        ensures
            b == default_builder(),
    {
        WASMLayerConfigBuilder {
            report_logs_in_timings: true,
            report_logs_in_console: true,
            use_console_color: true,
            max_level: Level::Trace,
        }
    }

    /// Set whether events should appear in performance timings.
    pub fn set_report_logs_in_timings(&mut self, report_logs_in_timings: bool)
        ensures
            final(self).report_logs_in_timings == report_logs_in_timings,
            final(self).report_logs_in_console == old(self).report_logs_in_console,
            final(self).use_console_color == old(self).use_console_color,
            final(self).max_level == old(self).max_level,
    {
        self.report_logs_in_timings = report_logs_in_timings;
    }

    /// Set the maximal level on which events should be displayed.
    pub fn set_max_level(&mut self, max_level: Level)
        ensures
            final(self).max_level == max_level,
            final(self).report_logs_in_timings == old(self).report_logs_in_timings,
            final(self).report_logs_in_console == old(self).report_logs_in_console,
            final(self).use_console_color == old(self).use_console_color,
    {
        self.max_level = max_level;
    }

    /// Set if and how events should be displayed in the console.
    pub fn set_console_config(&mut self, console_config: ConsoleConfig)
        ensures
            *final(self) == apply_console_config(*old(self), console_config),
    {
        match console_config {
            ConsoleConfig::NoReporting => {
                self.report_logs_in_console = false;
                self.use_console_color = false;
            },
            ConsoleConfig::ReportWithoutConsoleColor => {
                self.report_logs_in_console = true;
                self.use_console_color = false;
            },
            ConsoleConfig::ReportWithConsoleColor => {
                self.report_logs_in_console = true;
                self.use_console_color = true;
            },
        }
    }

    /// Build the immutable configuration; the builder stays usable.
    pub fn build(&self) -> (c: WASMLayerConfig)
        ensures
            c == built_config(*self),
    {
        WASMLayerConfig {
            report_logs_in_timings: self.report_logs_in_timings,
            report_logs_in_console: self.report_logs_in_console,
            use_console_color: self.use_console_color,
            max_level: self.max_level,
        }
    }
}

impl core::default::Default for WASMLayerConfigBuilder {
    fn default() -> (b: WASMLayerConfigBuilder)
        ensures
            b == default_builder(),
    {
        WASMLayerConfigBuilder::new()
    }
}

/// Law: building from a default builder yields the default
/// configuration: timings on, console on, color on, threshold `Trace`.
pub proof fn lemma_default_build()
    ensures
        built_config(default_builder()) == default_config(),
        default_config().report_logs_in_timings == true,
        default_config().report_logs_in_console == true,
        default_config().use_console_color == true,
        default_config().max_level == Level::Trace,
{
}

/// Law: whatever the prior builder state, `NoReporting` turns console
/// and color off; `ReportWithoutConsoleColor` turns console on and color
/// off; `ReportWithConsoleColor` turns both on. No selector touches the
/// timings flag or the severity threshold.
pub proof fn lemma_console_selector(b: WASMLayerConfigBuilder, console_config: ConsoleConfig)
    ensures
        apply_console_config(b, console_config).report_logs_in_console == !(console_config
            matches ConsoleConfig::NoReporting),
        apply_console_config(b, console_config).use_console_color == (console_config
            matches ConsoleConfig::ReportWithConsoleColor),
        apply_console_config(b, console_config).report_logs_in_timings
            == b.report_logs_in_timings,
        apply_console_config(b, console_config).max_level == b.max_level,
{
}

} // verus!
