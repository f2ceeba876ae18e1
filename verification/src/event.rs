//! One discrete log record: severity, timestamp, originating source
//! location, the formatted message with its structured fields, and a
//! snapshot of the span stack active at emission time. An event is built
//! once and never mutated afterwards.

use vstd::prelude::*;
use crate::severity::Severity;
use crate::span::SpanStack;
use crate::time::{now_local, Timestamp};

verus! {

/// The key/value pairs of a record, as character sequences.
pub open spec fn pairs_view(v: Seq<(String, String)>) -> Seq<(Seq<char>, Seq<char>)> {
    v.map_values(|p: (String, String)| (p.0@, p.1@))
}

/// The mathematical content of an event.
pub ghost struct EventV {
    pub severity: Severity,
    pub timestamp: Timestamp,
    pub thread: u64,
    pub target: Seq<char>,
    pub line: u32,
    pub message: Seq<char>,
    pub fields: Seq<(Seq<char>, Seq<char>)>,
    pub spans: Seq<Seq<char>>,
}

/// One log record. Construction is the single mutation point; afterwards the
/// record is only read.
pub struct Event {
    severity: Severity,
    timestamp: Timestamp,
    thread: u64,
    target: String,
    line: u32,
    message: String,
    fields: Vec<(String, String)>,
    spans: SpanStack,
}

impl View for Event {
    type V = EventV;

    closed spec fn view(&self) -> EventV {
        EventV {
            severity: self.severity,
            timestamp: self.timestamp,
            thread: self.thread,
            target: self.target@,
            line: self.line,
            message: self.message@,
            fields: pairs_view(self.fields@),
            spans: self.spans@,
        }
    }
}

impl Event {
    /// Builds a record from its parts; the span stack is snapshotted at this
    /// moment.
    pub fn new(
        severity: Severity,
        timestamp: Timestamp,
        thread: u64,
        target: String,
        line: u32,
        message: String,
        fields: Vec<(String, String)>,
        spans: &SpanStack,
    ) -> (r: Event)
        ensures
            r@ == (EventV {
                severity,
                timestamp,
                thread,
                target: target@,
                line,
                message: message@,
                fields: pairs_view(fields@),
                spans: spans@,
            }),
    {
        Event { severity, timestamp, thread, target, line, message, fields, spans: spans.snapshot() }
    }

    /// Builds a record at the current instant on the calling thread: the
    /// timestamp comes from the wall clock and the thread identifier from
    /// the platform, so only their validity is known.
    pub fn capture(
        severity: Severity,
        target: String,
        line: u32,
        message: String,
        fields: Vec<(String, String)>,
        spans: &SpanStack,
    ) -> (r: Event)
        ensures
            r@.severity == severity,
            r@.timestamp.wf(),
            r@.target == target@,
            r@.line == line,
            r@.message == message@,
            r@.fields == pairs_view(fields@),
            r@.spans == spans@,
    {
        let ts = now_local();
        let tid = current_thread_id();
        Event::new(severity, ts, tid, target, line, message, fields, spans)
    }

    /// The record's severity.
    pub fn severity(&self) -> (r: Severity)
        ensures
            r == self@.severity,
    {
        self.severity
    }

    /// The record's timestamp.
    pub fn timestamp(&self) -> (r: Timestamp)
        ensures
            r == self@.timestamp,
    {
        self.timestamp
    }

    /// The identifier of the emitting thread.
    pub fn thread(&self) -> (r: u64)
        ensures
            r == self@.thread,
    {
        self.thread
    }

    /// The originating module or target name.
    pub fn target(&self) -> (r: &String)
        ensures
            r@ == self@.target,
    {
        &self.target
    }

    /// The originating source line.
    pub fn line(&self) -> (r: u32)
        ensures
            r == self@.line,
    {
        self.line
    }

    /// The formatted message.
    pub fn message(&self) -> (r: &String)
        ensures
            r@ == self@.message,
    {
        &self.message
    }

    /// The structured fields attached at the call site.
    pub fn fields(&self) -> (r: &Vec<(String, String)>)
        ensures
            pairs_view(r@) == self@.fields,
    {
        &self.fields
    }

    /// The span-stack snapshot taken at emission time.
    pub fn spans(&self) -> (r: &SpanStack)
        ensures
            r@ == self@.spans,
    {
        &self.spans
    }

    /// Renders the message followed by each field as ` key=value`.
    pub fn render_fields(&self) -> (r: String)
        ensures
            r@ == fields_spec(self@.message, self@.fields),
    {
        let ghost views = pairs_view(self.fields@);
        let mut s = self.message.clone();
        let mut i: usize = 0;
        while i < self.fields.len()
            invariant
                i <= self.fields.len(),
                views == pairs_view(self.fields@),
                s@ == self.message@ + fields_tail(views.take(i as int)),
            decreases self.fields.len() - i,
        {
            proof {
                reveal_strlit(" ");
                reveal_strlit("=");
                assert(" "@ =~= seq![' ']);
                assert("="@ =~= seq!['=']);
            }
            s.append(" ");
            s.append(self.fields[i].0.as_str());
            s.append("=");
            s.append(self.fields[i].1.as_str());
            proof {
                assert(views.take(i as int + 1) =~= views.take(i as int).push(views[i as int]));
                lemma_fields_tail_snoc(views.take(i as int), views[i as int]);
                assert(views[i as int] == (self.fields@[i as int].0@, self.fields@[i as int].1@));
                assert(s@ =~= self.message@ + fields_tail(views.take(i as int + 1)));
            }
            i = i + 1;
        }
        proof {
            assert(views.take(self.fields@.len() as int) =~= views);
            assert(s@ =~= fields_spec(self@.message, self@.fields));
        }
        s
    }
}

/// Relies on `thread_id::get`: an opaque identifier of the calling thread,
/// about which nothing further is promised.
#[verifier::external_body]
fn current_thread_id() -> (r: u64)
{
    thread_id::get() as u64
}

/// The rendering of the structured fields: each preceded by a space, its key
/// and value joined by an equals sign.
pub open spec fn fields_tail(fs: Seq<(Seq<char>, Seq<char>)>) -> Seq<char>
    decreases fs.len(),
{
    if fs.len() == 0 {
        Seq::empty()
    } else {
        seq![' '] + fs[0].0 + seq!['='] + fs[0].1 + fields_tail(fs.skip(1))
    }
}

/// The message-and-fields block of a record: the message, then every
/// structured field.
pub open spec fn fields_spec(message: Seq<char>, fs: Seq<(Seq<char>, Seq<char>)>) -> Seq<char> {
    message + fields_tail(fs)
}

proof fn lemma_fields_tail_snoc(fs: Seq<(Seq<char>, Seq<char>)>, x: (Seq<char>, Seq<char>))
    ensures
        fields_tail(fs.push(x)) == fields_tail(fs) + seq![' '] + x.0 + seq!['='] + x.1,
    decreases fs.len(),
{
    if fs.len() == 0 {
        assert(fs.push(x)[0] == x);
        assert(fs.push(x).skip(1) =~~= Seq::<(Seq<char>, Seq<char>)>::empty());
        assert(fields_tail(fs.push(x).skip(1)) == Seq::<char>::empty());
        assert(fields_tail(fs.push(x)) =~= fields_tail(fs) + seq![' '] + x.0 + seq!['='] + x.1);
    } else {
        assert(fs.push(x)[0] == fs[0]);
        assert(fs.push(x).skip(1) =~~= fs.skip(1).push(x));
        lemma_fields_tail_snoc(fs.skip(1), x);
        assert(fields_tail(fs.push(x)) =~= fields_tail(fs) + seq![' '] + x.0 + seq!['='] + x.1);
    }
}

} // verus!
