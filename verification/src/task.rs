//! Tasks carried from the producer threads into the worker.

use vstd::prelude::*;

verus! {

/// One unit of work for the worker loop. Tasks are immutable once
/// constructed; ownership moves from producer to consumer on a successful
/// enqueue.
#[derive(Debug, Clone, PartialEq, Eq)]
pub enum M2WTask {
    /// A real-time originated note event: source id (note number) and on/off.
    MIDI(i64, bool),
    /// Replace only the event-handling function with the one defined by this
    /// source text.
    UpdateCode(String),
    /// Re-run the full bootstrap source, then install the event handler from
    /// the program source: `InitCode(init_source, program_source)`.
    InitCode(String, String),
}

} // verus!
