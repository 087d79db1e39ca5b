//! A streaming throughput meter library.
//!
//! The library holds the verified core of a pipeline diagnostic tool that
//! reads an unbounded byte stream, optionally re-emits every byte unchanged,
//! and reports instantaneous and final transfer speed: a human-readable byte
//! formatter, the shared byte counter, the stream-reader bookkeeping, and the
//! reporter state machine. Argument handling, threads, signals and the actual
//! stream I/O live outside the library and hand it plain values.

pub mod counter;
pub mod human;
pub mod liveness;
pub mod reader;
pub mod reporter;

pub use counter::SharedCounter;
pub use human::get_human_readable_bytes;
pub use liveness::is_read_thread_alive;
pub use reader::StreamReader;
pub use reporter::StatsReporter;
