//! Fail-together shutdown for the two workers.
//!
//! The ingestion worker and the dispatch worker run concurrently; when
//! either dies, the other must not keep running alone. The shared signal is
//! modelled here: a fatal failure raises it, and each worker polls it once
//! per outer loop iteration and exits when it is up. The loops themselves,
//! and the sharing of one signal between two threads, live outside this
//! crate.

use vstd::prelude::*;

verus! {

/// The shared shutdown signal.
pub struct Supervisor {
    pub should_close: bool,
}

impl Supervisor {
    /// A fresh signal: nothing has failed, nobody stops.
    pub fn new() -> (r: Supervisor)
        ensures
            !r.should_close,
    {
        Supervisor { should_close: false }
    }

    /// A worker met a fatal condition: from now on every worker that polls
    /// the signal stops.
    pub fn signal_fatal(&mut self)
        ensures
            final(self).should_close,
    {
        self.should_close = true;
    }

    /// Polled once per outer loop iteration by each worker.
    pub fn should_stop(&self) -> (r: bool)
        ensures
            r == self.should_close,
    {
        self.should_close
    }
}

} // verus!
