//! Flattens a span's or event's structured fields into one
//! human-readable message string.
//!
//! Fields arrive as (name, debug-formatted value) pairs in the order the
//! instrumentation framework delivers them. The implicit field named
//! `message` is hoisted to the front of the accumulated text; every other
//! field is rendered as `name = value;`, the first preceded by a space,
//! later ones each on a new line.

use vstd::prelude::*;

verus! {

/// The reserved field name whose value is hoisted to the front.
pub open spec fn message_name() -> Seq<char> {
    "message"@
}

/// Rendering of one ordinary (non-message) field.
pub open spec fn entry_text(name: Seq<char>, value: Seq<char>) -> Seq<char> {
    name + seq![' ', '=', ' '] + value + seq![';']
}

/// How recording one field transforms the accumulator: the accumulated
/// text and the "has at least one non-message field been written" flag.
pub open spec fn record_step(
    text: Seq<char>,
    saw_field: bool,
    name: Seq<char>,
    value: Seq<char>,
) -> (Seq<char>, bool) {
    if name == message_name() {
        if text.len() > 0 {
            (value + seq!['\n'] + text, saw_field)
        } else {
            (value, saw_field)
        }
    } else {
        if saw_field {
            (text + seq!['\n'] + entry_text(name, value), true)
        } else {
            (text + seq![' '] + entry_text(name, value), true)
        }
    }
}

/// The accumulator state after recording a whole sequence of fields,
/// in order, starting from `state`.
pub open spec fn run_records(
    state: (Seq<char>, bool),
    fields: Seq<(Seq<char>, Seq<char>)>,
) -> (Seq<char>, bool)
    decreases fields.len(),
{
    if fields.len() == 0 {
        state
    } else {
        let prev = run_records(state, fields.drop_last());
        record_step(prev.0, prev.1, fields.last().0, fields.last().1)
    }
}

/// The accumulator state reached from a fresh recorder.
pub open spec fn records_from_empty(fields: Seq<(Seq<char>, Seq<char>)>) -> (Seq<char>, bool) {
    run_records((Seq::<char>::empty(), false), fields)
}

/// The accumulated text as it is spliced into a larger line: empty text
/// yields the empty string, non-empty text gets one leading space.
pub open spec fn rendered(text: Seq<char>) -> Seq<char> {
    if text.len() == 0 {
        text
    } else {
        seq![' '] + text
    }
}

/// Relies on `str`'s `PartialEq`: two string slices are equal exactly
/// when their character sequences are.
#[verifier::external_body]
fn str_eq(a: &str, b: &str) -> (r: bool)
    ensures
        r == (a@ == b@),
{
    a == b
}

/// Accumulates a span's or event's structured fields into one formatted
/// string.
pub struct StringRecorder {
    /// Accumulated text.
    pub text: String,
    /// Whether at least one non-message field has been written.
    pub saw_field: bool,
}

impl StringRecorder {
    /// A fresh, empty recorder.
    pub fn new() -> (r: StringRecorder)
        ensures
            r.text@ == Seq::<char>::empty(),
            r.saw_field == false,
    {
        StringRecorder { text: String::new(), saw_field: false }
    }

    /// Record one field given its name and the debug-formatted text of
    /// its value.
    pub fn record_debug(&mut self, name: &str, value: &str)
        ensures
            final(self).text@ == record_step(old(self).text@, old(self).saw_field, name@, value@).0,
            final(self).saw_field == record_step(
                old(self).text@,
                old(self).saw_field,
                name@,
                value@,
            ).1,
    {
        proof {
            reveal_strlit("\n");
            reveal_strlit(" ");
            reveal_strlit(" = ");
            reveal_strlit(";");
        }
        if str_eq(name, "message") {
            if !self.text.as_str().is_empty() {
                let mut s = String::from_str(value);
                s.append("\n");
                s.append(self.text.as_str());
                proof {
                    assert(s@ =~= value@ + seq!['\n'] + old(self).text@);
                }
                self.text = s;
            } else {
                self.text = String::from_str(value);
            }
        } else {
            if self.saw_field {
                self.text.append("\n");
            } else {
                self.text.append(" ");
                self.saw_field = true;
            }
            self.text.append(name);
            self.text.append(" = ");
            self.text.append(value);
            self.text.append(";");
            proof {
                if old(self).saw_field {
                    assert(self.text@ =~= old(self).text@ + seq!['\n'] + entry_text(name@, value@));
                } else {
                    assert(self.text@ =~= old(self).text@ + seq![' '] + entry_text(name@, value@));
                }
            }
        }
    }

    /// Record a whole slice of (name, value) fields, in order.
    pub fn record_fields(&mut self, fields: &Vec<(String, String)>)
        ensures
            final(self).text@ == run_records(
                (old(self).text@, old(self).saw_field),
                fields_view(fields@),
            ).0,
            final(self).saw_field == run_records(
                (old(self).text@, old(self).saw_field),
                fields_view(fields@),
            ).1,
    {
        let ghost all = fields_view(fields@);
        let mut i: usize = 0;
        while i < fields.len()
            invariant
                i <= fields.len(),
                all == fields_view(fields@),
                all.len() == fields@.len(),
                self.text@ == run_records((old(self).text@, old(self).saw_field), all.take(i as int)).0,
                self.saw_field == run_records(
                    (old(self).text@, old(self).saw_field),
                    all.take(i as int),
                ).1,
            decreases fields.len() - i,
        {
            self.record_debug(fields[i].0.as_str(), fields[i].1.as_str());
            proof {
                assert(all.take(i + 1 as int).drop_last() =~= all.take(i as int));
                assert(all.take(i + 1 as int).last() == all[i as int]);
            }
            i = i + 1;
        }
        proof {
            assert(all.take(fields@.len() as int) =~= all);
        }
    }

    /// The accumulated text, prefixed with one leading space when
    /// non-empty, for clean concatenation into a larger line.
    pub fn formatted_text(&self) -> (r: String)
        ensures
            r@ == rendered(self.text@),
    {
        if self.text.as_str().is_empty() {
            String::new()
        } else {
            let mut s = String::from_str(" ");
            s.append(self.text.as_str());
            proof {
                reveal_strlit(" ");
                assert(s@ =~= seq![' '] + self.text@);
            }
            s
        }
    }
}

/// The (name, value) view of a sequence of field pairs.
pub open spec fn fields_view(fields: Seq<(String, String)>) -> Seq<(Seq<char>, Seq<char>)> {
    fields.map(|i: int, f: (String, String)| (f.0@, f.1@))
}

/// Direct statement of the text built from fields none of which is named
/// `message`: one leading space, then the first entry, then each later
/// entry preceded by a newline, in arrival order.
pub open spec fn plain_text(fields: Seq<(Seq<char>, Seq<char>)>) -> Seq<char>
    decreases fields.len(),
{
    if fields.len() == 0 {
        Seq::<char>::empty()
    } else if fields.len() == 1 {
        seq![' '] + entry_text(fields[0].0, fields[0].1)
    } else {
        plain_text(fields.drop_last()) + seq!['\n'] + entry_text(fields.last().0, fields.last().1)
    }
}

/// No field in the sequence carries the reserved name `message`.
pub open spec fn no_message_field(fields: Seq<(Seq<char>, Seq<char>)>) -> bool {
    forall|i: int| 0 <= i < fields.len() ==> (#[trigger] fields[i]).0 != message_name()
}

/// Law: for every field sequence lacking a `message` field, a fresh
/// recorder accumulates exactly `plain_text`: a single leading space,
/// `name1 = val1;`, then for each subsequent field a newline and
/// `name = val;`, in arrival order.
pub proof fn lemma_text_without_message(fields: Seq<(Seq<char>, Seq<char>)>)
    requires
        no_message_field(fields),
    ensures
        records_from_empty(fields).0 == plain_text(fields),
        records_from_empty(fields).1 == (fields.len() > 0),
    decreases fields.len(),
{
    if fields.len() == 0 {
    } else {
        let prefix = fields.drop_last();
        assert(no_message_field(prefix)) by {
            assert(forall|i: int| 0 <= i < prefix.len() ==> prefix[i] == fields[i]);
        }
        lemma_text_without_message(prefix);
        if fields.len() == 1 {
            assert(records_from_empty(fields).0 =~= plain_text(fields));
        }
    }
}

} // verus!
