//! Properties that relate several of the router's operations.

use vstd::prelude::*;
use crate::config::WASMLayerConfig;
use crate::layer::enter_call;
use crate::layer::event_calls;
use crate::layer::event_mark_name;
use crate::layer::exit_call;
use crate::layer::exit_label;
use crate::layer::module_or_placeholder;
use crate::layer::span_mark_name;
use crate::sink::SinkCallV;
use crate::text::hex_digits;
use crate::text::lemma_hex_digits_injective;
use crate::Level;

verus! {

/// Law: distinct correlation ids yield distinct event mark names, so no
/// two events' timeline entries ever share a mark. Together with
/// `on_event`'s contract — each timeline-reporting event takes the
/// counter's current value as its correlation id and advances the
/// counter — successive events never collide.
pub proof fn lemma_event_marks_distinct(a: nat, b: nat)
    requires
        a != b,
    ensures
        event_mark_name(a) != event_mark_name(b),
{
    if event_mark_name(a) == event_mark_name(b) {
        let p = "c"@;
        let x = hex_digits(a);
        let y = hex_digits(b);
        assert((p + x).len() == (p + y).len());
        assert(x =~= y) by {
            assert forall|i: int| 0 <= i < x.len() implies x[i] == y[i] by {
                assert((p + x)[p.len() + i] == x[i]);
                assert((p + y)[p.len() + i] == y[i]);
            }
        }
        lemma_hex_digits_injective(a, b);
    }
}

/// Law: a span that is entered then exited produces exactly one mark
/// (`on_enter` returns a single `Mark`) and one measurement (`on_exit`
/// returns a single `Measure`), and the two share the mark name derived
/// from the span's identifier.
pub proof fn lemma_enter_exit_share_mark(
    id: u64,
    span_name: Seq<char>,
    mod_path: Option<Seq<char>>,
    record: Option<(Seq<char>, bool)>,
)
    ensures
        enter_call(id) == (SinkCallV::Mark { name: span_mark_name(id as nat) }),
        exit_call(id, span_name, mod_path, record) matches SinkCallV::Measure {
            label,
            start_mark,
        } && start_mark == span_mark_name(id as nat) && label == exit_label(
            span_name,
            mod_path,
            record,
        ),
{
}

/// Law: the exit measurement label of a span with no attached recorder
/// holds the quoted span name and the module path, with no field text
/// after them: in particular it does not end in a space unless the
/// module path itself does.
pub proof fn lemma_exit_label_no_record(span_name: Seq<char>, mod_path: Option<Seq<char>>)
    ensures
        exit_label(span_name, mod_path, None) == "\""@ + span_name + "\" "@
            + module_or_placeholder(mod_path),
        module_or_placeholder(mod_path).len() > 0 && module_or_placeholder(mod_path).last() != ' '
            ==> exit_label(span_name, mod_path, None).last() != ' ',
{
    let label = exit_label(span_name, mod_path, None);
    let m = module_or_placeholder(mod_path);
    if m.len() > 0 {
        assert(label.last() == m.last());
    }
}

/// Law: when both console and timeline reporting are disabled, an event
/// produces no sink call at all, whatever the event carries.
pub proof fn lemma_disabled_event_silent(
    config: WASMLayerConfig,
    event_id: nat,
    level: Level,
    file: Option<Seq<char>>,
    line: Option<u32>,
    mod_path: Option<Seq<char>>,
    rec_text: Seq<char>,
)
    requires
        !config.report_logs_in_console,
        !config.report_logs_in_timings,
    ensures
        event_calls(config, event_id, level, file, line, mod_path, rec_text) == Seq::<
            SinkCallV,
        >::empty(),
{
    assert(event_calls(config, event_id, level, file, line, mod_path, rec_text) =~= Seq::<
        SinkCallV,
    >::empty());
}

} // verus!
