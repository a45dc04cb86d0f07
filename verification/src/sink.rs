//! The sink capability: a target that accepts one encoded record per call,
//! and an in-memory implementation of it.

use vstd::prelude::*;
use crate::codec::row_of;
use crate::record::LogPacket;

verus! {

/// A target for statistics to be written to.
///
/// `rows()` is the history of rows the sink has durably accepted. One call
/// of `log` attempts exactly one record: on success the record's row is
/// appended to the history, on failure the error is returned and the
/// history is unchanged — a failure is never silently swallowed.
pub trait LogWriter: Sized {
    type Error;

    /// The rows accepted so far, oldest first. An implementation overrides
    /// this with its own view of what it holds.
    open spec fn rows(&self) -> Seq<Seq<u8>> {
        Seq::<Seq<u8>>::empty()
    }

    fn log(&mut self, packet: &LogPacket) -> (r: Result<(), Self::Error>)
        ensures
            r is Ok ==> final(self).rows() == old(self).rows().push(row_of(*packet)),
            r is Err ==> final(self).rows() == old(self).rows(),
    ;
}

/// A sink that keeps every encoded row in memory. It never fails; it serves
/// as a test double for any durable sink.
pub struct MemSink {
    pub entries: Vec<Vec<u8>>,
}

impl MemSink {
    pub fn new() -> (s: MemSink)
        ensures
            s.rows() == Seq::<Seq<u8>>::empty(),
    {
        let s = MemSink { entries: Vec::new() };
        proof {
            assert(s.rows() =~= Seq::<Seq<u8>>::empty());
        }
        s
    }

    /// How many rows have been accepted.
    pub fn len(&self) -> (n: usize)
        ensures
            n == self.rows().len(),
    {
        self.entries.len()
    }

    /// The row at `i`, oldest first.
    pub fn row_at(&self, i: usize) -> (row: &Vec<u8>)
        requires
            i < self.rows().len(),
        ensures
            row@ == self.rows()[i as int],
    {
        &self.entries[i]
    }
}

impl LogWriter for MemSink {
    type Error = ();

    open spec fn rows(&self) -> Seq<Seq<u8>> {
        self.entries@.map_values(|row: Vec<u8>| row@)
    }

    fn log(&mut self, packet: &LogPacket) -> (r: Result<(), ()>) {
        let row = packet.encode();
        self.entries.push(row);
        proof {
            assert(self.rows() =~= old(self).rows().push(row_of(*packet)));
        }
        Ok(())
    }
}

} // verus!
