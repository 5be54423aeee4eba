use vstd::prelude::*;
use crate::pipeline::Phase;

verus! {

/// A record goes to durable storage every this many iterations.
pub const FLUSH_EVERY: u32 = 10;

/// The pause between two iterations of the logging loop, in milliseconds.
pub const LOOP_PERIOD_MS: u64 = 1000;

/// The room that one record is formatted into, in bytes.
pub const RECORD_CAPACITY: usize = 64;

/// The durability trigger: it fires on positive multiples of `FLUSH_EVERY`.
pub open spec fn flush_due_spec(counter: u32) -> bool {
    counter > 0 && counter % FLUSH_EVERY == 0
}

/// Whether the file is forced to durable storage at this counter value.
/// It depends on the counter alone.
pub fn flush_due(counter: u32) -> (r: bool)
    ensures
        r == flush_due_spec(counter),
        r <==> counter > 0 && counter % 10 == 0,
{
    counter > 0 && counter % FLUSH_EVERY == 0
}

/// The counter after one more iteration. It wraps from `u32::MAX` to 0: at
/// one iteration a second that takes over a century, and the wrap is
/// harmless, since zero is never a flush point.
pub open spec fn next_count(counter: u32) -> u32 {
    if counter == u32::MAX {
        0
    } else {
        (counter + 1) as u32
    }
}

/// The state of the steady-state logging loop, which never ends: the
/// iteration counter, and whether a file is there to log into.
pub struct Session {
    pub counter: u32,
    pub logging: bool,
}

impl Session {
    /// A session before its first iteration.
    pub fn new(logging: bool) -> (r: Session)
        ensures
            r.counter == 0,
            r.logging == logging,
    {
        Session { counter: 0, logging }
    }

    /// The session that follows a finished bring-up: it logs only when every
    /// stage succeeded.
    pub fn after_bring_up(p: Phase) -> (r: Session)
        ensures
            r.counter == 0,
            r.logging == (p is Logging),
    {
        let logging = match p {
            Phase::Logging => true,
            _ => false,
        };
        Session::new(logging)
    }

    /// Starts one iteration: the counter moves on by one, and the result says
    /// whether a record is to be written in it. Counting goes on whether or
    /// not there is a file.
    pub fn begin_iteration(&mut self) -> (write: bool)
        ensures
            final(self).counter == next_count(old(self).counter),
            final(self).logging == old(self).logging,
            write == old(self).logging,
    {
        self.counter = self.counter.wrapping_add(1);
        self.logging
    }

    /// Whether to flush the file once this iteration's write was tried:
    /// only after a write that succeeded, and when the trigger fires. A failed
    /// write is skipped and keeps the file for the next iteration.
    pub fn flush_after_write(&self, written: bool) -> (r: bool)
        ensures
            r == (self.logging && written && flush_due_spec(self.counter)),
    {
        self.logging && written && flush_due(self.counter)
    }
}

/// A session without a file never gets one: after any number of iterations
/// `begin_iteration` still asks for no write and `flush_after_write` still
/// answers no, whatever a write would have given. Counting goes on alone.
pub proof fn law_no_file_no_storage(s: Session, k: nat, written: bool)
    requires
        !s.logging,
    ensures
        !iterate(s, k).logging,
        !(iterate(s, k).logging && written && flush_due_spec(iterate(s, k).counter)),
        iterate(s, k + 1).counter == next_count(iterate(s, k).counter),
{
    lemma_iterate_keeps_logging(s, k);
}

/// The session after `k` iterations from `s`.
pub open spec fn iterate(s: Session, k: nat) -> Session
    decreases k,
{
    if k == 0 {
        s
    } else {
        let t = iterate(s, (k - 1) as nat);
        Session { counter: next_count(t.counter), logging: t.logging }
    }
}

proof fn lemma_iterate_keeps_logging(s: Session, k: nat)
    ensures
        iterate(s, k).logging == s.logging,
    decreases k,
{
    if k > 0 {
        lemma_iterate_keeps_logging(s, (k - 1) as nat);
    }
}

/// From a fresh session, iteration `k` carries the counter `k` (while it has
/// not wrapped), so the trigger fires exactly at iterations 10, 20, 30, ...
pub proof fn law_flush_points(s: Session, k: nat)
    requires
        s.counter == 0,
        k <= u32::MAX,
    ensures
        iterate(s, k).counter == k,
        flush_due_spec(iterate(s, k).counter) <==> (k > 0 && k % 10 == 0),
    decreases k,
{
    if k > 0 {
        law_flush_points(s, (k - 1) as nat);
    }
}

} // verus!
