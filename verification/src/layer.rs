//! The event/span router: translates lifecycle callbacks into the exact
//! sink calls to perform.
//!
//! The router holds the configuration, a monotonic counter correlating
//! event-driven timeline entries, and a side table mapping each live
//! span's identifier to its accumulated field recorder. Every callback
//! returns the sink calls it asks the host to perform; it performs no
//! side effect itself.

use vstd::prelude::*;
use crate::Level;
use crate::level_name;
use crate::level_style;
use crate::verbosity;
use crate::config::WASMLayerConfig;
use crate::recorder::StringRecorder;
use crate::recorder::fields_view;
use crate::recorder::records_from_empty;
use crate::recorder::rendered;
use crate::recorder::run_records;
use crate::sink::SinkCall;
use crate::sink::SinkCallV;
use crate::sink::calls_view;
use crate::text::dec_digits;
use crate::text::hex_digits;
use crate::text::u64_to_dec;
use crate::text::u64_to_hex;

verus! {

/// The view of an optional string slice.
pub open spec fn opt_str_view(s: Option<&str>) -> Option<Seq<char>> {
    match s {
        Some(t) => Some(t@),
        None => None,
    }
}

/// A module path, or the placeholder shown when none is available.
pub open spec fn module_or_placeholder(mod_path: Option<Seq<char>>) -> Seq<char> {
    match mod_path {
        Some(m) => m,
        None => "..."@,
    }
}

/// The `<file>:<line>` origin of an event; empty when either part is
/// unavailable.
pub open spec fn origin_text(file: Option<Seq<char>>, line: Option<u32>) -> Seq<char> {
    match file {
        Some(f) => match line {
            Some(l) => f + ":"@ + dec_digits(l as nat),
            None => Seq::<char>::empty(),
        },
        None => Seq::<char>::empty(),
    }
}

/// The colorized console line: level, origin and recorder text, each
/// introduced by an inline style placeholder.
pub open spec fn colored_console_text(
    level: Level,
    origin: Seq<char>,
    rec_text: Seq<char>,
) -> Seq<char> {
    "%c"@ + level_name(level) + "%c "@ + origin + "%c"@ + rendered(rec_text)
}

/// The plain console line: level, origin and recorder text.
pub open spec fn plain_console_text(level: Level, origin: Seq<char>, rec_text: Seq<char>) -> Seq<
    char,
> {
    level_name(level) + " "@ + origin + rendered(rec_text)
}

/// The one console call an event produces: a 4-slot styled call on the
/// log channel when color is on, else a plain call routed to the
/// severity-specific channel.
pub open spec fn console_call(
    config: WASMLayerConfig,
    level: Level,
    origin: Seq<char>,
    rec_text: Seq<char>,
) -> SinkCallV {
    if config.use_console_color {
        SinkCallV::Log4 {
            message: colored_console_text(level, origin, rec_text),
            style1: level_style(level),
            style2: "color: gray; font-style: italic"@,
            style3: "color: inherit"@,
        }
    } else {
        let message = plain_console_text(level, origin, rec_text);
        match level {
            Level::Trace => SinkCallV::Debug1 { message },
            Level::Debug => SinkCallV::Debug1 { message },
            Level::Info => SinkCallV::Info1 { message },
            Level::Warn => SinkCallV::Warn1 { message },
            Level::Error => SinkCallV::Error1 { message },
        }
    }
}

/// The timeline mark name correlating an event's mark/measure pair.
pub open spec fn event_mark_name(event_id: nat) -> Seq<char> {
    "c"@ + hex_digits(event_id)
}

/// The timeline mark name shared by a span's enter mark and exit
/// measurement.
pub open spec fn span_mark_name(id: nat) -> Seq<char> {
    "t"@ + hex_digits(id)
}

/// The label of an event's timeline measurement.
pub open spec fn event_measure_label(
    level: Level,
    mod_path: Option<Seq<char>>,
    rec_text: Seq<char>,
) -> Seq<char> {
    level_name(level) + " "@ + module_or_placeholder(mod_path) + rendered(rec_text)
}

/// Every sink call an event produces, in order: the console call if
/// console reporting is on, then the timeline mark and measurement if
/// timeline reporting is on.
pub open spec fn event_calls(
    config: WASMLayerConfig,
    event_id: nat,
    level: Level,
    file: Option<Seq<char>>,
    line: Option<u32>,
    mod_path: Option<Seq<char>>,
    rec_text: Seq<char>,
) -> Seq<SinkCallV> {
    let console = if config.report_logs_in_console {
        seq![console_call(config, level, origin_text(file, line), rec_text)]
    } else {
        Seq::<SinkCallV>::empty()
    };
    let timing = if config.report_logs_in_timings {
        seq![
            SinkCallV::Mark { name: event_mark_name(event_id) },
            SinkCallV::Measure {
                label: event_measure_label(level, mod_path, rec_text),
                start_mark: event_mark_name(event_id),
            },
        ]
    } else {
        Seq::<SinkCallV>::empty()
    };
    console + timing
}

/// The label of a span's exit measurement: the quoted span name and the
/// module path, then the accumulated recorder text when the span has an
/// attached recorder.
pub open spec fn exit_label(
    span_name: Seq<char>,
    mod_path: Option<Seq<char>>,
    record: Option<(Seq<char>, bool)>,
) -> Seq<char> {
    match record {
        Some(st) => "\""@ + span_name + "\" "@ + module_or_placeholder(mod_path) + " "@
            + rendered(st.0),
        None => "\""@ + span_name + "\" "@ + module_or_placeholder(mod_path),
    }
}

/// The one sink call a span entry produces.
pub open spec fn enter_call(id: u64) -> SinkCallV {
    SinkCallV::Mark { name: span_mark_name(id as nat) }
}

/// The one sink call a span exit produces.
pub open spec fn exit_call(
    id: u64,
    span_name: Seq<char>,
    mod_path: Option<Seq<char>>,
    record: Option<(Seq<char>, bool)>,
) -> SinkCallV {
    SinkCallV::Measure {
        label: exit_label(span_name, mod_path, record),
        start_mark: span_mark_name(id as nat),
    }
}

/// First-match lookup in the span side table.
pub open spec fn table_lookup(t: Seq<(u64, (Seq<char>, bool))>, id: u64) -> Option<
    (Seq<char>, bool),
>
    decreases t.len(),
{
    if t.len() == 0 {
        None
    } else if t[0].0 == id {
        Some(t[0].1)
    } else {
        table_lookup(t.drop_first(), id)
    }
}

proof fn lemma_lookup_first_match(t: Seq<(u64, (Seq<char>, bool))>, i: int)
    requires
        0 <= i < t.len(),
        forall|j: int| 0 <= j < i ==> (#[trigger] t[j]).0 != t[i].0,
    ensures
        table_lookup(t, t[i].0) == Some(t[i].1),
    decreases i,
{
    if i > 0 {
        let rest = t.drop_first();
        assert(forall|j: int| 0 <= j < i - 1 ==> (#[trigger] rest[j]).0 != rest[i - 1].0) by {
            assert(forall|j: int| 0 <= j < i - 1 ==> rest[j] == t[j + 1]);
        }
        lemma_lookup_first_match(rest, i - 1);
        assert(rest[i - 1] == t[i]);
    }
}

proof fn lemma_lookup_absent(t: Seq<(u64, (Seq<char>, bool))>, id: u64)
    requires
        forall|j: int| 0 <= j < t.len() ==> (#[trigger] t[j]).0 != id,
    ensures
        table_lookup(t, id) is None,
    decreases t.len(),
{
    if t.len() > 0 {
        let rest = t.drop_first();
        assert(forall|j: int| 0 <= j < rest.len() ==> (#[trigger] rest[j]).0 != id) by {
            assert(forall|j: int| 0 <= j < rest.len() ==> rest[j] == t[j + 1]);
        }
        lemma_lookup_absent(rest, id);
    }
}

proof fn lemma_lookup_remove_other(t: Seq<(u64, (Seq<char>, bool))>, i: int, id: u64)
    requires
        0 <= i < t.len(),
        t[i].0 != id,
    ensures
        table_lookup(t.remove(i), id) == table_lookup(t, id),
    decreases t.len(),
{
    if i == 0 {
        assert(t.remove(0) =~= t.drop_first());
    } else {
        let r = t.remove(i);
        assert(r[0] == t[0]);
        assert(r.drop_first() =~= t.drop_first().remove(i - 1));
        if t[0].0 != id {
            lemma_lookup_remove_other(t.drop_first(), i - 1, id);
        }
    }
}

proof fn lemma_lookup_cons(e: (u64, (Seq<char>, bool)), t: Seq<(u64, (Seq<char>, bool))>, id: u64)
    ensures
        table_lookup(seq![e] + t, id) == (if e.0 == id {
            Some(e.1)
        } else {
            table_lookup(t, id)
        }),
{
    let s = seq![e] + t;
    assert(s[0] == e);
    assert(s.drop_first() =~= t);
}

proof fn lemma_table_index(l: WASMLayer, j: int)
    requires
        0 <= j < l.span_records@.len(),
    ensures
        l.records_table().len() == l.span_records@.len(),
        l.records_table()[j] == (
            l.span_records@[j].0,
            (l.span_records@[j].1.text@, l.span_records@[j].1.saw_field),
        ),
{
}

/// The router: receives lifecycle notifications and computes the sink
/// calls each one produces.
pub struct WASMLayer {
    /// Correlation counter for event-driven timeline entries.
    pub last_event_id: u64,
    /// The configuration governing sinks and verbosity.
    pub config: WASMLayerConfig,
    /// Side table: span identifier to that span's field recorder.
    pub span_records: Vec<(u64, StringRecorder)>,
}

impl WASMLayer {
    /// The side table's mathematical content, most recent entry first.
    pub open spec fn records_table(&self) -> Seq<(u64, (Seq<char>, bool))> {
        self.span_records@.map(|i: int, e: (u64, StringRecorder)| (e.0, (e.1.text@, e.1.saw_field)))
    }

    /// The recorder state attached to span `id`, if any.
    pub open spec fn span_record(&self, id: u64) -> Option<(Seq<char>, bool)> {
        table_lookup(self.records_table(), id)
    }

    /// A router wrapping the given configuration, with no spans tracked
    /// and the correlation counter at zero.
    pub fn new(config: WASMLayerConfig) -> (r: WASMLayer)
        ensures
            r.config == config,
            r.last_event_id == 0,
            r.records_table() == Seq::<(u64, (Seq<char>, bool))>::empty(),
    {
        let r = WASMLayer { last_event_id: 0, config, span_records: Vec::new() };
        proof {
            assert(r.records_table() =~= Seq::<(u64, (Seq<char>, bool))>::empty());
        }
        r
    }

    /// Whether an event of the given severity passes the configured
    /// threshold: exactly when it is at least as severe (no more
    /// verbose) than `max_level`.
    pub fn enabled(&self, level: Level) -> (r: bool)
        ensures
            r == (verbosity(level) <= verbosity(self.config.max_level)),
    {
        level.verbosity_rank() <= self.config.max_level.verbosity_rank()
    }

    /// A new span was created: attach a recorder holding its initial
    /// attributes, leaving every other span's recorder untouched.
    pub fn new_span(&mut self, id: u64, attrs_fields: &Vec<(String, String)>)
        ensures
            final(self).config == old(self).config,
            final(self).last_event_id == old(self).last_event_id,
            final(self).span_record(id) == Some(records_from_empty(fields_view(attrs_fields@))),
            forall|id2: u64|
                id2 != id ==> final(self).span_record(id2) == old(self).span_record(id2),
    {
        let mut rec = StringRecorder::new();
        rec.record_fields(attrs_fields);
        let ghost st = (rec.text@, rec.saw_field);
        let ghost t0 = self.records_table();
        let ghost pre = *self;
        self.span_records.insert(0, (id, rec));
        proof {
            assert(self.records_table() =~= seq![(id, st)] + t0) by {
                assert forall|m: int|
                    0 <= m < self.span_records@.len() implies self.records_table()[m] == (
                    seq![(id, st)] + t0
                )[m] by {
                    lemma_table_index(*self, m);
                    if m > 0 {
                        lemma_table_index(pre, m - 1);
                    }
                }
            }
            lemma_lookup_cons((id, st), t0, id);
            assert forall|id2: u64| id2 != id implies table_lookup(seq![(id, st)] + t0, id2)
                == table_lookup(t0, id2) by {
                lemma_lookup_cons((id, st), t0, id2);
            }
        }
    }

    /// A span recorded further values: append them into its attached
    /// recorder. A span without one (created before this router was
    /// active, or already gone) is left as it is.
    pub fn on_record(&mut self, id: u64, fields: &Vec<(String, String)>)
        ensures
            final(self).config == old(self).config,
            final(self).last_event_id == old(self).last_event_id,
            match old(self).span_record(id) {
                Some(st) => {
                    &&& final(self).span_record(id) == Some(
                        run_records(st, fields_view(fields@)),
                    )
                    &&& forall|id2: u64|
                        id2 != id ==> final(self).span_record(id2) == old(self).span_record(id2)
                },
                None => final(self).records_table() == old(self).records_table(),
            },
    {
        let ghost t0 = self.records_table();
        let n = self.span_records.len();
        let mut i: usize = 0;
        while i < n
            invariant
                *self == *old(self),
                t0 == self.records_table(),
                n == self.span_records.len(),
                i <= n,
                forall|j: int| 0 <= j < i ==> (#[trigger] self.span_records@[j]).0 != id,
            decreases n - i,
        {
            if self.span_records[i].0 == id {
                proof {
                    lemma_table_index(*self, i as int);
                    assert forall|j: int|
                        0 <= j < i implies (#[trigger] t0[j]).0 != t0[i as int].0 by {
                        lemma_table_index(*self, j);
                    }
                    lemma_lookup_first_match(t0, i as int);
                }
                let ghost pre = *self;
                let (k, mut rec) = self.span_records.remove(i);
                rec.record_fields(fields);
                let ghost st1 = (rec.text@, rec.saw_field);
                let ghost mid = *self;
                self.span_records.insert(0, (k, rec));
                proof {
                    let t1 = mid.records_table();
                    assert(t1 =~= t0.remove(i as int)) by {
                        assert forall|m: int| 0 <= m < mid.span_records@.len() implies t1[m]
                            == t0.remove(i as int)[m] by {
                            lemma_table_index(mid, m);
                            if m < i {
                                lemma_table_index(pre, m);
                            } else {
                                lemma_table_index(pre, m + 1);
                            }
                        }
                    }
                    assert(self.records_table() =~= seq![(id, st1)] + t1) by {
                        assert forall|m: int|
                            0 <= m < self.span_records@.len() implies self.records_table()[m] == (
                            seq![(id, st1)] + t1
                        )[m] by {
                            lemma_table_index(*self, m);
                            if m > 0 {
                                lemma_table_index(mid, m - 1);
                            }
                        }
                    }
                    lemma_lookup_cons((id, st1), t1, id);
                    assert forall|id2: u64| id2 != id implies self.span_record(id2) == old(
                        self,
                    ).span_record(id2) by {
                        lemma_lookup_cons((id, st1), t1, id2);
                        lemma_lookup_remove_other(t0, i as int, id2);
                    }
                }
                return ;
            }
            i = i + 1;
        }
        proof {
            assert forall|j: int| 0 <= j < t0.len() implies (#[trigger] t0[j]).0 != id by {
                lemma_table_index(*self, j);
            }
            lemma_lookup_absent(t0, id);
        }
    }

    /// Find span `id`'s recorder in the side table.
    fn find_record(&self, id: u64) -> (r: Option<&StringRecorder>)
        ensures
            match r {
                Some(rec) => self.span_record(id) == Some((rec.text@, rec.saw_field)),
                None => self.span_record(id) is None,
            },
    {
        let n = self.span_records.len();
        let mut i: usize = 0;
        while i < n
            invariant
                n == self.span_records.len(),
                i <= n,
                forall|j: int| 0 <= j < i ==> (#[trigger] self.span_records@[j]).0 != id,
            decreases n - i,
        {
            if self.span_records[i].0 == id {
                proof {
                    let t0 = self.records_table();
                    lemma_table_index(*self, i as int);
                    assert forall|j: int|
                        0 <= j < i implies (#[trigger] t0[j]).0 != t0[i as int].0 by {
                        lemma_table_index(*self, j);
                    }
                    lemma_lookup_first_match(t0, i as int);
                }
                return Some(&self.span_records[i].1);
            }
            i = i + 1;
        }
        proof {
            let t0 = self.records_table();
            assert forall|j: int| 0 <= j < t0.len() implies (#[trigger] t0[j]).0 != id by {
                lemma_table_index(*self, j);
            }
            lemma_lookup_absent(t0, id);
        }
        None
    }

    /// An event occurred: compute the sink calls it produces, advancing
    /// the correlation counter when a timeline entry is made. When both
    /// sinks are disabled nothing is produced.
    pub fn on_event(
        &mut self,
        level: Level,
        file: Option<&str>,
        line: Option<u32>,
        mod_path: Option<&str>,
        fields: &Vec<(String, String)>,
    ) -> (calls: Vec<SinkCall>)
        ensures
            final(self).config == old(self).config,
            final(self).records_table() == old(self).records_table(),
            final(self).last_event_id == (if old(self).config.report_logs_in_timings {
                if old(self).last_event_id == u64::MAX {
                    0u64
                } else {
                    (old(self).last_event_id + 1) as u64
                }
            } else {
                old(self).last_event_id
            }),
            calls_view(calls@) == event_calls(
                old(self).config,
                old(self).last_event_id as nat,
                level,
                opt_str_view(file),
                line,
                opt_str_view(mod_path),
                records_from_empty(fields_view(fields@)).0,
            ),
            !old(self).config.report_logs_in_console && !old(self).config.report_logs_in_timings
                ==> calls@.len() == 0,
    {
        let ghost rec_text = records_from_empty(fields_view(fields@)).0;
        let mut calls: Vec<SinkCall> = Vec::new();
        if self.config.report_logs_in_timings || self.config.report_logs_in_console {
            let mut recorder = StringRecorder::new();
            recorder.record_fields(fields);
            if self.config.report_logs_in_console {
                let origin: String = match file {
                    Some(f) => match line {
                        Some(l) => {
                            let mut o = String::from_str(f);
                            o.append(":");
                            let d = u64_to_dec(l as u64);
                            o.append(d.as_str());
                            o
                        },
                        None => String::new(),
                    },
                    None => String::new(),
                };
                let formatted = recorder.formatted_text();
                if self.config.use_console_color {
                    let mut message = String::from_str("%c");
                    message.append(level.name_str());
                    message.append("%c ");
                    message.append(origin.as_str());
                    message.append("%c");
                    message.append(formatted.as_str());
                    calls.push(
                        SinkCall::Log4 {
                            message,
                            style1: String::from_str(level.style_str()),
                            style2: String::from_str("color: gray; font-style: italic"),
                            style3: String::from_str("color: inherit"),
                        },
                    );
                } else {
                    let mut message = String::from_str(level.name_str());
                    message.append(" ");
                    message.append(origin.as_str());
                    message.append(formatted.as_str());
                    match level {
                        Level::Trace => calls.push(SinkCall::Debug1 { message }),
                        Level::Debug => calls.push(SinkCall::Debug1 { message }),
                        Level::Info => calls.push(SinkCall::Info1 { message }),
                        Level::Warn => calls.push(SinkCall::Warn1 { message }),
                        Level::Error => calls.push(SinkCall::Error1 { message }),
                    }
                }
            }
            if self.config.report_logs_in_timings {
                let event_id = self.last_event_id;
                self.last_event_id = if self.last_event_id == u64::MAX {
                    0
                } else {
                    self.last_event_id + 1
                };
                let mut name = String::from_str("c");
                let h = u64_to_hex(event_id);
                name.append(h.as_str());
                let start_mark = name.clone();
                let mut label = String::from_str(level.name_str());
                label.append(" ");
                match mod_path {
                    Some(m) => label.append(m),
                    None => label.append("..."),
                }
                let formatted = recorder.formatted_text();
                label.append(formatted.as_str());
                calls.push(SinkCall::Mark { name });
                calls.push(SinkCall::Measure { label, start_mark });
            }
        }
        proof {
            let ev = event_calls(
                old(self).config,
                old(self).last_event_id as nat,
                level,
                opt_str_view(file),
                line,
                opt_str_view(mod_path),
                rec_text,
            );
            assert(calls_view(calls@) =~= ev);
        }
        calls
    }

    /// A span was entered: place the timeline mark whose name is derived
    /// from the span's identifier. Entry is otherwise silent; only exit
    /// produces a visible measurement.
    pub fn on_enter(&self, id: u64) -> (c: SinkCall)
        ensures
            c@ == enter_call(id),
    {
        SinkCall::Mark { name: span_mark_string(id) }
    }

    /// A span was exited: close the timeline measurement from the mark
    /// placed at entry, labeled with the quoted span name, the module
    /// path and the span's accumulated field text.
    pub fn on_exit(&self, id: u64, span_name: &str, mod_path: Option<&str>) -> (c: SinkCall)
        ensures
            c@ == exit_call(id, span_name@, opt_str_view(mod_path), self.span_record(id)),
    {
        let mut label = String::from_str("\"");
        label.append(span_name);
        label.append("\" ");
        match mod_path {
            Some(m) => label.append(m),
            None => label.append("..."),
        }
        match self.find_record(id) {
            Some(rec) => {
                label.append(" ");
                let formatted = rec.formatted_text();
                label.append(formatted.as_str());
            },
            None => {},
        }
        SinkCall::Measure { label, start_mark: span_mark_string(id) }
    }
}

impl core::default::Default for WASMLayer {
    fn default() -> (r: WASMLayer)
        ensures
            r.config == crate::config::default_config(),
            r.last_event_id == 0,
            r.records_table() == Seq::<(u64, (Seq<char>, bool))>::empty(),
    {
        WASMLayer::new(WASMLayerConfig::default())
    }
}

/// The name of the timeline mark tied to span `id`: a `t` then the
/// span identifier in lowercase hexadecimal.
pub fn span_mark_string(id: u64) -> (s: String)
    ensures
        s@ == span_mark_name(id as nat),
{
    let mut s = String::from_str("t");
    let h = u64_to_hex(id);
    s.append(h.as_str());
    s
}

} // verus!
