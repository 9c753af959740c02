//! The calls the router makes into the host's sinks.
//!
//! The host's console-logging and performance-marking primitives are
//! external collaborators. The router computes, for each lifecycle
//! callback, the exact sequence of sink calls to perform; an embedding
//! dispatches each call to the host primitive of the same shape.

use vstd::prelude::*;

verus! {

/// One call into a host sink, carrying exactly the argument text.
pub enum SinkCall {
    /// `mark(name)`: an instantaneous marker in the performance timeline.
    Mark { name: String },
    /// `measure(label, start_mark)`: a duration from `start_mark` to now.
    Measure { label: String, start_mark: String },
    /// 4-slot styled console output on the log channel: the message holds
    /// three inline style placeholders consumed by the style arguments.
    Log4 { message: String, style1: String, style2: String, style3: String },
    /// Plain output on the console's debug channel.
    Debug1 { message: String },
    /// Plain output on the console's info channel.
    Info1 { message: String },
    /// Plain output on the console's warn channel.
    Warn1 { message: String },
    /// Plain output on the console's error channel.
    Error1 { message: String },
}

/// Mathematical image of one sink call: the same shape over character
/// sequences.
pub enum SinkCallV {
    Mark { name: Seq<char> },
    Measure { label: Seq<char>, start_mark: Seq<char> },
    Log4 { message: Seq<char>, style1: Seq<char>, style2: Seq<char>, style3: Seq<char> },
    Debug1 { message: Seq<char> },
    Info1 { message: Seq<char> },
    Warn1 { message: Seq<char> },
    Error1 { message: Seq<char> },
}

impl View for SinkCall {
    type V = SinkCallV;

    open spec fn view(&self) -> SinkCallV {
        match self {
            SinkCall::Mark { name } => SinkCallV::Mark { name: name@ },
            SinkCall::Measure { label, start_mark } => SinkCallV::Measure {
                label: label@,
                start_mark: start_mark@,
            },
            SinkCall::Log4 { message, style1, style2, style3 } => SinkCallV::Log4 {
                message: message@,
                style1: style1@,
                style2: style2@,
                style3: style3@,
            },
            SinkCall::Debug1 { message } => SinkCallV::Debug1 { message: message@ },
            SinkCall::Info1 { message } => SinkCallV::Info1 { message: message@ },
            SinkCall::Warn1 { message } => SinkCallV::Warn1 { message: message@ },
            SinkCall::Error1 { message } => SinkCallV::Error1 { message: message@ },
        }
    }
}

/// The views of a sequence of sink calls.
pub open spec fn calls_view(calls: Seq<SinkCall>) -> Seq<SinkCallV> {
    calls.map(|i: int, c: SinkCall| c@)
}

} // verus!
