//! A structured event-logging core: events carry a severity, a wall-clock
//! timestamp, a source location and a snapshot of the active span chain, and
//! are rendered both as an ANSI-colored console block and as an uncolored
//! single-header file record. Formatted file records flow through a bounded
//! queue toward a background writer; installation of the composed sink
//! happens at most once per process.

pub mod color;
pub mod event;
pub mod format;
pub mod logger;
pub mod num;
pub mod severity;
pub mod span;
pub mod time;
pub mod writer;

pub use event::Event;
pub use logger::Logger;
pub use severity::Severity;
pub use span::SpanStack;
pub use time::Timestamp;
