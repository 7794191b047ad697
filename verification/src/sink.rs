//! The byte sink interface: an ordered, appendable destination for bytes with
//! an explicit flush operation.
//!
//! The dispatch layer borrows a sink for the duration of a call and never
//! retains it. A sink is characterized by the sequence of bytes it has
//! accepted and by the number of flushes it has performed; a write or flush
//! that fails leaves both unchanged.

use vstd::prelude::*;

use crate::error::Error;

verus! {

/// An ordered, appendable destination for bytes that supports an explicit
/// flush operation.
pub trait Sink: Sized {
    /// The bytes this sink has accepted so far, in order.
    spec fn bytes(&self) -> Seq<u8>;

    /// How many flushes this sink has performed so far.
    spec fn flushes(&self) -> nat;

    /// Append `data` to the sink without forcing delivery.
    fn write_all(&mut self, data: &[u8]) -> (r: Result<(), Error>)
        ensures
            r is Ok ==> final(self).bytes() == old(self).bytes() + data@,
            r is Err ==> final(self).bytes() == old(self).bytes(),
            final(self).flushes() == old(self).flushes(),
    ;

    /// Force delivery of everything accepted so far.
    fn flush(&mut self) -> (r: Result<(), Error>)
        ensures
            final(self).bytes() == old(self).bytes(),
            r is Ok ==> final(self).flushes() == old(self).flushes() + 1,
            r is Err ==> final(self).flushes() == old(self).flushes(),
    ;
}

/// An in-memory sink that records the bytes written to it and counts its
/// flushes. It never fails, except that a flush beyond the capacity of the
/// flush counter is reported as an input/output failure.
pub struct BufferSink {
    /// The bytes accepted so far.
    pub data: Vec<u8>,
    /// The number of flushes performed so far.
    pub flush_count: u64,
}

impl Sink for BufferSink {
    open spec fn bytes(&self) -> Seq<u8> {
        self.data@
    }

    open spec fn flushes(&self) -> nat {
        self.flush_count as nat
    }

    fn write_all(&mut self, data: &[u8]) -> (r: Result<(), Error>)
        ensures
            r is Ok,
    {
        self.data.extend_from_slice(data);
        Ok(())
    }

    fn flush(&mut self) -> (r: Result<(), Error>)
        ensures
            old(self).flush_count < u64::MAX ==> r is Ok,
    {
        if self.flush_count == u64::MAX {
            Err(Error::Io)
        } else {
            self.flush_count = self.flush_count + 1;
            Ok(())
        }
    }
}

impl BufferSink {
    /// An empty sink with no flushes performed.
    pub fn new() -> (r: BufferSink)
        ensures
            r.bytes() == Seq::<u8>::empty(),
            r.flushes() == 0,
    {
        BufferSink { data: Vec::new(), flush_count: 0 }
    }
}

/// A sink that accepts a bounded number of writes and flushes, then fails
/// every further operation, while still recording every attempted write.
///
/// The attempt log makes visible that an operation was tried even when it was
/// refused, which is what distinguishes "never attempted" from "attempted and
/// failed".
pub struct FailingSink {
    /// The bytes actually accepted so far.
    pub data: Vec<u8>,
    /// Every byte whose write was attempted, accepted or not, in order.
    pub attempt_log: Vec<u8>,
    /// The number of flushes performed so far.
    pub flush_count: u64,
    /// The number of flushes attempted so far, successful or not.
    pub flush_attempts: u64,
    /// How many further operations will still succeed.
    pub budget: u64,
}

impl Sink for FailingSink {
    open spec fn bytes(&self) -> Seq<u8> {
        self.data@
    }

    open spec fn flushes(&self) -> nat {
        self.flush_count as nat
    }

    fn write_all(&mut self, data: &[u8]) -> (r: Result<(), Error>)
        ensures
            final(self).attempt_log@ == old(self).attempt_log@ + data@,
            r is Ok <==> old(self).budget > 0,
            r is Ok ==> final(self).budget == old(self).budget - 1,
            r is Err ==> final(self).budget == old(self).budget,
    {
        self.attempt_log.extend_from_slice(data);
        if self.budget == 0 {
            Err(Error::Io)
        } else {
            self.budget = self.budget - 1;
            self.data.extend_from_slice(data);
            Ok(())
        }
    }

    fn flush(&mut self) -> (r: Result<(), Error>) {
        if self.flush_attempts < u64::MAX {
            self.flush_attempts = self.flush_attempts + 1;
        }
        if self.budget == 0 || self.flush_count == u64::MAX {
            Err(Error::Io)
        } else {
            self.budget = self.budget - 1;
            self.flush_count = self.flush_count + 1;
            Ok(())
        }
    }
}

impl FailingSink {
    /// A sink whose next `budget` operations succeed and whose later
    /// operations all fail.
    pub fn new(budget: u64) -> (r: FailingSink)
        ensures
            r.bytes() == Seq::<u8>::empty(),
            r.flushes() == 0,
            r.attempt_log@ == Seq::<u8>::empty(),
            r.budget == budget,
    {
        FailingSink {
            data: Vec::new(),
            attempt_log: Vec::new(),
            flush_count: 0,
            flush_attempts: 0,
            budget,
        }
    }
}

} // verus!
