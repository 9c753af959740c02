//! Routes structured trace/log events into a host's developer-facing
//! surfaces: a textual console sink and a performance-timeline sink.
//!
//! The crate holds the event-to-presentation pipeline: flattening typed
//! structured fields into one human-readable message string, translating
//! span/event lifecycle callbacks into sink calls, and the configuration
//! that governs which sinks are active and at what verbosity. The host's
//! actual console and timeline primitives are external collaborators: the
//! library only computes the exact calls to make.

pub mod config;
pub mod laws;
pub mod layer;
pub mod recorder;
pub mod sink;
pub mod text;

use vstd::prelude::*;

verus! {

/// Severity of an event or span, ordered from most severe (`Error`)
/// to most verbose (`Trace`).
#[derive(Clone, Copy, Debug, PartialEq, Eq, Structural)]
pub enum Level {
    Trace,
    Debug,
    Info,
    Warn,
    Error,
}

/// Verbosity rank of a level: `Error` is 0 (least verbose, most severe),
/// `Trace` is 4 (most verbose, least severe).
pub open spec fn verbosity(l: Level) -> nat {
    match l {
        Level::Error => 0,
        Level::Warn => 1,
        Level::Info => 2,
        Level::Debug => 3,
        Level::Trace => 4,
    }
}

/// The display name of a level.
pub open spec fn level_name(l: Level) -> Seq<char> {
    match l {
        Level::Trace => "TRACE"@,
        Level::Debug => "DEBUG"@,
        Level::Info => "INFO"@,
        Level::Warn => "WARN"@,
        Level::Error => "ERROR"@,
    }
}

/// The console style string used for a level's name when color is on:
/// a fixed per-severity color on a dark background.
pub open spec fn level_style(l: Level) -> Seq<char> {
    match l {
        Level::Trace => "color: dodgerblue; background: #444"@,
        Level::Debug => "color: lawngreen; background: #444"@,
        Level::Info => "color: whitesmoke; background: #444"@,
        Level::Warn => "color: orange; background: #444"@,
        Level::Error => "color: red; background: #444"@,
    }
}

impl Level {
    /// Executable verbosity rank, matching `verbosity`.
    pub fn verbosity_rank(&self) -> (r: u8)
        ensures
            r as nat == verbosity(*self),
    {
        match self {
            Level::Error => 0,
            Level::Warn => 1,
            Level::Info => 2,
            Level::Debug => 3,
            Level::Trace => 4,
        }
    }

    /// The display name of the level.
    pub fn name_str(&self) -> (r: &'static str)
        ensures
            r@ == level_name(*self),
    {
        match self {
            Level::Trace => "TRACE",
            Level::Debug => "DEBUG",
            Level::Info => "INFO",
            Level::Warn => "WARN",
            Level::Error => "ERROR",
        }
    }

    /// The console style string for the level's name.
    pub fn style_str(&self) -> (r: &'static str)
        ensures
            r@ == level_style(*self),
    {
        match self {
            Level::Trace => "color: dodgerblue; background: #444",
            Level::Debug => "color: lawngreen; background: #444",
            Level::Info => "color: whitesmoke; background: #444",
            Level::Warn => "color: orange; background: #444",
            Level::Error => "color: red; background: #444",
        }
    }
}

} // verus!
