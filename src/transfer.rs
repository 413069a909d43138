use crate::checks::bytes_equal;
use vstd::prelude::*;

verus! {

/// Why a step of a transfer was refused.
#[derive(Clone, Copy, Debug, PartialEq, Eq, Structural)]
pub enum TransferError {
    /// A call moved no bytes although bytes were left to move.
    NoProgress,
    /// A call reported a negative count, or more bytes than it was given room for.
    OutOfRange,
    /// Bytes came out that differ from those sent at the same position.
    Mismatch,
}

/// The bookkeeping of one transfer through a pipe, in partial writes and
/// partial reads: the bytes to send, how many of them the writes have taken,
/// and the bytes that the reads have given back so far.
pub struct Transfer {
    sent: Vec<u8>,
    written: usize,
    received: Vec<u8>,
}

impl Transfer {
    /// The bytes to send.
    pub closed spec fn spec_sent(&self) -> Seq<u8> {
        self.sent@
    }

    /// How many bytes the writes have taken.
    pub closed spec fn spec_written(&self) -> nat {
        self.written as nat
    }

    /// The bytes that the reads have given back, in order.
    pub closed spec fn spec_received(&self) -> Seq<u8> {
        self.received@
    }

    /// Writes never take more than was sent, and what came back is the
    /// start of what was sent.
    pub open spec fn wf(&self) -> bool {
        &&& self.spec_written() <= self.spec_sent().len()
        &&& self.spec_received().len() <= self.spec_sent().len()
        &&& self.spec_received() == self.spec_sent().subrange(0, self.spec_received().len() as int)
    }

    /// Whether every byte has come back.
    pub open spec fn spec_done(&self) -> bool {
        self.spec_received().len() == self.spec_sent().len()
    }

    /// A transfer of `sent` in which nothing has moved yet.
    pub fn new(sent: Vec<u8>) -> (r: Transfer)
        ensures
            r.wf(),
            r.spec_sent() == sent@,
            r.spec_written() == 0,
            r.spec_received() == Seq::<u8>::empty(),
    {
        let r = Transfer { sent, written: 0, received: Vec::new() };
        assert(r.received@ =~= r.sent@.subrange(0, 0));
        r
    }

    /// The bytes to send.
    pub fn sent(&self) -> (r: &[u8])
        ensures
            r@ == self.spec_sent(),
    {
        self.sent.as_slice()
    }

    /// The bytes that have come back so far.
    pub fn received(&self) -> (r: &[u8])
        ensures
            r@ == self.spec_received(),
    {
        self.received.as_slice()
    }

    /// How many bytes the writes have taken.
    pub fn written(&self) -> (r: usize)
        ensures
            r == self.spec_written(),
    {
        self.written
    }

    /// How many bytes are left to write.
    pub fn to_write(&self) -> (r: usize)
        requires
            self.wf(),
        ensures
            r == self.spec_sent().len() - self.spec_written(),
    {
        self.sent.len() - self.written
    }

    /// How many bytes are left to read.
    pub fn to_read(&self) -> (r: usize)
        requires
            self.wf(),
        ensures
            r == self.spec_sent().len() - self.spec_received().len(),
    {
        self.sent.len() - self.received.len()
    }

    /// Whether every byte has come back.
    pub fn is_done(&self) -> (r: bool)
        ensures
            r == self.spec_done(),
    {
        self.received.len() == self.sent.len()
    }

    /// Takes note that a write of the bytes left to write returned `rv`.
    ///
    /// A count must lie between zero and what was left, and be zero only when
    /// nothing was left. A refused count changes nothing.
    pub fn record_write(&mut self, rv: i64) -> (r: Result<(), TransferError>)
        requires
            old(self).wf(),
        ensures
            final(self).wf(),
            final(self).spec_sent() == old(self).spec_sent(),
            final(self).spec_received() == old(self).spec_received(),
            ({
                let left = old(self).spec_sent().len() - old(self).spec_written();
                &&& (rv < 0 || rv > left) ==> r == Err::<(), TransferError>(TransferError::OutOfRange)
                &&& (rv == 0 && left > 0) ==> r == Err::<(), TransferError>(TransferError::NoProgress)
                &&& (0 <= rv <= left && !(rv == 0 && left > 0)) ==> r == Ok::<(), TransferError>(())
                &&& r is Ok ==> final(self).spec_written() == old(self).spec_written() + rv
                &&& r is Err ==> final(self).spec_written() == old(self).spec_written()
            }),
    {
        let left = self.sent.len() - self.written;
        if rv < 0 || rv as u64 > left as u64 {
            return Err(TransferError::OutOfRange);
        }
        if rv == 0 && left > 0 {
            return Err(TransferError::NoProgress);
        }
        self.written = self.written + rv as usize;
        Ok(())
    }

    /// Takes note that a read of the bytes left to read gave back `chunk`.
    ///
    /// The chunk must be no longer than what was left, be empty only when
    /// nothing was left, and equal the sent bytes at its position. An accepted
    /// chunk is appended to what came back; a refused one changes nothing.
    pub fn record_read(&mut self, chunk: &[u8]) -> (r: Result<(), TransferError>)
        requires
            old(self).wf(),
        ensures
            final(self).wf(),
            final(self).spec_sent() == old(self).spec_sent(),
            final(self).spec_written() == old(self).spec_written(),
            ({
                let got = old(self).spec_received().len() as int;
                let left = old(self).spec_sent().len() - got;
                let n = chunk@.len() as int;
                &&& n > left ==> r == Err::<(), TransferError>(TransferError::OutOfRange)
                &&& (n == 0 && left > 0) ==> r == Err::<(), TransferError>(TransferError::NoProgress)
                &&& (n <= left && chunk@ != old(self).spec_sent().subrange(got, got + n))
                    ==> r == Err::<(), TransferError>(TransferError::Mismatch)
                &&& (n <= left && !(n == 0 && left > 0) && chunk@ == old(self).spec_sent().subrange(
                    got,
                    got + n,
                )) ==> r == Ok::<(), TransferError>(())
                &&& r is Ok ==> final(self).spec_received() == old(self).spec_received() + chunk@
                &&& r is Err ==> final(self).spec_received() == old(self).spec_received()
            }),
    {
        let got = self.received.len();
        let left = self.sent.len() - got;
        let n = chunk.len();
        if n > left {
            return Err(TransferError::OutOfRange);
        }
        if n == 0 && left > 0 {
            assert(chunk@ =~= self.sent@.subrange(got as int, got as int));
            return Err(TransferError::NoProgress);
        }
        let expected = vstd::slice::slice_subrange(self.sent.as_slice(), got, got + n);
        if !bytes_equal(chunk, expected) {
            return Err(TransferError::Mismatch);
        }
        let ghost before = self.received@;
        let mut i: usize = 0;
        while i < n
            invariant
                i <= n,
                n == chunk@.len(),
                got == before.len(),
                got + n <= self.sent@.len(),
                before == self.sent@.subrange(0, got as int),
                chunk@ == self.sent@.subrange(got as int, got + n),
                self.sent@ == old(self).sent@,
                self.written == old(self).written,
                self.received@ == before + chunk@.subrange(0, i as int),
            decreases n - i,
        {
            self.received.push(chunk[i]);
            assert(chunk@.subrange(0, i + 1) =~= chunk@.subrange(0, i as int).push(chunk@[i as int]));
            i = i + 1;
        }
        assert(chunk@.subrange(0, n as int) =~= chunk@);
        assert(self.received@ =~= self.sent@.subrange(0, self.received@.len() as int));
        Ok(())
    }
}

/// Once every byte has come back, what came back is exactly what was sent,
/// byte for byte and in order.
pub proof fn lemma_complete_transfer_is_exact(t: &Transfer)
    requires
        t.wf(),
        t.spec_done(),
    ensures
        t.spec_received() == t.spec_sent(),
{
    assert(t.spec_sent().subrange(0, t.spec_sent().len() as int) =~= t.spec_sent());
}

} // verus!
