//! Counters shared between threads.
//!
//! A shared counter changes under the reader's eyes, so no contract here
//! says what value a call returns: whatever is read may already be out of
//! date. What is proved is that the calls cannot fail.

use std::sync::atomic::AtomicUsize;
use std::sync::atomic::Ordering;
use vstd::prelude::*;

verus! {

/// The number of live connections of a server, shared by all its sessions.
/// It is kept for the log only and decides nothing.
#[derive(Debug)]
pub struct ConnectionCounter {
    live: AtomicUsize,
}

impl ConnectionCounter {
    /// A counter at zero.
    pub fn new() -> (counter: Self) {
        ConnectionCounter { live: AtomicUsize::new(0) }
    }

    /// Counts a connection just accepted and returns the count before it.
    pub fn connection_opened(&self) -> (before: usize) {
        self.live.fetch_add(1, Ordering::SeqCst)
    }

    /// Takes a terminated connection off the count and returns the count
    /// before that.
    pub fn connection_closed(&self) -> (before: usize) {
        self.live.fetch_sub(1, Ordering::SeqCst)
    }

    /// The count at the moment of the call.
    pub fn live(&self) -> (count: usize) {
        self.live.load(Ordering::SeqCst)
    }
}

/// A counter that threads may advance together, with a choice of memory
/// ordering for each step.
pub struct AtomicCounter {
    count: AtomicUsize,
}

impl AtomicCounter {
    /// A counter at zero.
    pub fn new() -> (counter: Self) {
        AtomicCounter { count: AtomicUsize::new(0) }
    }

    /// Adds one without ordering any other memory access, and returns the
    /// count before.
    pub fn increment_relaxed(&self) -> (before: usize) {
        self.count.fetch_add(1, Ordering::Relaxed)
    }

    /// Adds one and makes all earlier writes of this thread visible to a
    /// thread that then reads the count with `get`. Returns the count before.
    pub fn increment_release(&self) -> (before: usize) {
        self.count.fetch_add(1, Ordering::Release)
    }

    /// Adds one in the single order that all sequentially consistent
    /// accesses share, and returns the count before.
    pub fn increment_seqcst(&self) -> (before: usize) {
        self.count.fetch_add(1, Ordering::SeqCst)
    }

    /// The count at the moment of the call, read so that it sees what
    /// `increment_release` published.
    pub fn get(&self) -> (count: usize) {
        self.count.load(Ordering::Acquire)
    }
}

} // verus!
