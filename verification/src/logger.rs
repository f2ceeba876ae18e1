//! The composed sink and its one-time installation: a logger is created
//! uninitialized, `initialize` installs it exactly once (a second call fails
//! rather than replacing the sink), and `emit` fans one event out to both
//! destinations — the console block is returned for a synchronous write, the
//! file record is enqueued for the background writer.

use vstd::prelude::*;
use crate::event::Event;
use crate::format::{console_format, console_format_spec, file_format, file_format_spec};
use crate::time::{file_stamp, file_stamp_spec, Timestamp};
use crate::writer::{RecordQueue, WriterState};

verus! {

/// The failures `initialize` can report.
#[derive(Clone, Copy, PartialEq, Eq, Structural, Debug)]
pub enum InitError {
    /// The sink was installed before; the second installation is refused so
    /// that no second writer competes for the same file.
    AlreadyInitialized,
}

/// The transition taken by one `initialize` call on the installation flag:
/// the new flag, and whether the call succeeds.
pub open spec fn initialize_transition(initialized: bool) -> (bool, bool) {
    (true, !initialized)
}

/// Installation happens at most once: from a fresh state the first
/// `initialize` succeeds, and a second one on the state it leaves fails.
pub proof fn lemma_initialize_once()
    ensures
        initialize_transition(false).1 == true,
        initialize_transition(initialize_transition(false).0).1 == false,
{
}

/// The process-wide sink: the installation flag, the bounded queue feeding
/// the background writer, and the writer's degradation state.
pub struct Logger {
    initialized: bool,
    queue: RecordQueue,
    writer: WriterState,
}

impl Logger {
    /// Whether the sink has been installed.
    pub closed spec fn is_initialized(&self) -> bool {
        self.initialized
    }

    /// The pending file records, oldest first.
    pub closed spec fn pending(&self) -> Seq<Seq<char>> {
        self.queue@
    }

    /// The queue's bound.
    pub closed spec fn cap(&self) -> nat {
        self.queue.cap()
    }

    /// Whether the background writer has degraded after a lost record.
    pub closed spec fn is_degraded(&self) -> bool {
        self.writer.degraded
    }

    /// A fresh, uninstalled logger whose queue holds at most `capacity`
    /// records.
    pub fn new(capacity: usize) -> (r: Logger)
        requires
            capacity >= 1,
        ensures
            !r.is_initialized(),
            r.pending() == Seq::<Seq<char>>::empty(),
            r.cap() == capacity,
            !r.is_degraded(),
    {
        Logger { initialized: false, queue: RecordQueue::new(capacity), writer: WriterState::new() }
    }

    /// Installs the sink. The first call succeeds; any later call fails with
    /// `AlreadyInitialized` and changes nothing — in particular no second
    /// queue or writer state is created.
    pub fn initialize(&mut self) -> (r: Result<(), InitError>)
        ensures
            final(self).is_initialized() == initialize_transition(old(self).is_initialized()).0,
            r is Ok <==> initialize_transition(old(self).is_initialized()).1,
            !old(self).is_initialized() ==> r is Ok,
            old(self).is_initialized() ==> r == Result::<(), InitError>::Err(
                InitError::AlreadyInitialized,
            ),
            final(self).pending() == old(self).pending(),
            final(self).cap() == old(self).cap(),
            final(self).is_degraded() == old(self).is_degraded(),
    {
        if self.initialized {
            Err(InitError::AlreadyInitialized)
        } else {
            self.initialized = true;
            Ok(())
        }
    }

    /// Fans one event out to both destinations: returns the console block to
    /// be written synchronously, and enqueues the file record — which is
    /// dropped, never blocking the caller, when the queue is full.
    pub fn emit(&mut self, e: &Event) -> (console: String)
        requires
            old(self).is_initialized(),
            e@.timestamp.wf(),
        ensures
            console@ == console_format_spec(e@),
            old(self).pending().len() < old(self).cap() ==> final(self).pending()
                == old(self).pending().push(file_format_spec(e@)),
            old(self).pending().len() >= old(self).cap() ==> final(self).pending()
                == old(self).pending(),
            final(self).is_initialized(),
            final(self).cap() == old(self).cap(),
            final(self).is_degraded() == old(self).is_degraded(),
    {
        let console = console_format(e);
        let record = file_format(e);
        let _accepted = self.queue.enqueue(record);
        console
    }

    /// Feeds the outcome of one record's write attempts to the writer's
    /// decision logic; see `WriterState::process_record`.
    pub fn record_write_outcome(&mut self, first_ok: bool, retry_ok: bool) -> (r: (
        crate::writer::RecordOutcome,
        bool,
    ))
        ensures
            first_ok ==> r.0 == crate::writer::RecordOutcome::Written && r.1 == false
                && final(self).is_degraded() == old(self).is_degraded(),
            !first_ok ==> r.1 == !old(self).is_degraded(),
            !first_ok && retry_ok ==> r.0 == crate::writer::RecordOutcome::WrittenAfterRetry
                && final(self).is_degraded() == old(self).is_degraded(),
            !first_ok && !retry_ok ==> r.0 == crate::writer::RecordOutcome::Dropped
                && final(self).is_degraded(),
            final(self).is_initialized() == old(self).is_initialized(),
            final(self).pending() == old(self).pending(),
            final(self).cap() == old(self).cap(),
    {
        self.writer.process_record(first_ok, retry_ok)
    }

    /// Drains the pending file records for the graceful shutdown flush.
    pub fn drain_pending(&mut self) -> (out: Vec<String>)
        ensures
            crate::writer::records_view(out@) == old(self).pending(),
            final(self).pending() == Seq::<Seq<char>>::empty(),
            final(self).is_initialized() == old(self).is_initialized(),
            final(self).cap() == old(self).cap(),
            final(self).is_degraded() == old(self).is_degraded(),
    {
        self.queue.drain()
    }
}

/// The path of the log file of one process run: a fixed relative directory,
/// the process name, and the process start timestamp to millisecond
/// precision.
pub fn log_file_path(process: &str, start: &Timestamp) -> (r: String)
    requires
        start.wf(),
    ensures
        r@ == ".logs/"@ + process@ + "-"@ + file_stamp_spec(*start) + ".log"@,
{
    let mut s = String::new();
    s.append(".logs/");
    s.append(process);
    s.append("-");
    let stamp = file_stamp(start);
    s.append(stamp.as_str());
    s.append(".log");
    proof {
        assert(s@ =~= ".logs/"@ + process@ + "-"@ + file_stamp_spec(*start) + ".log"@);
    }
    s
}

} // verus!
