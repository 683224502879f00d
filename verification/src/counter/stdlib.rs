//! `std::io` for `Counter`: every call is handed to the wrapped object, and the
//! bytes that it reports as read or written are added to the tallies.

use vstd::prelude::*;

use crate::counter::{read_outcome, write_outcome};
use crate::inner::{lemma_log_push, received, sent, IoCall};
use crate::Counter;

verus! {

impl<R: std::io::Read> std::io::Read for Counter<R> {
    /// Reads into `buf` from the wrapped reader and adds the bytes read to the
    /// reader tally. The tally must have room for a full buffer.
    fn read(&mut self, buf: &mut [u8]) -> (res: Result<usize, std::io::Error>)
        requires
            old(self)@.reader + old(buf)@.len() <= usize::MAX,
        ensures
            final(self)@ == old(self)@.after(read_outcome(res)),
            final(buf)@.len() == old(buf)@.len(),
            final(self).calls() == old(self).calls().push(
                IoCall::Read { len: old(buf)@.len(), filled: final(buf)@, result: res },
            ),
            res matches Ok(n) ==> received(final(self).calls()) == received(old(self).calls()) + final(buf)@.take(n as int),
            match res {
                Ok(n) => n <= old(buf)@.len() && final(self)@ == old(self)@.after_read(n as nat),
                Err(_) => final(self)@ == old(self)@,
            },
            final(self).available() == 0,
    {
        let res = self.inner.read(buf);
        proof {
            lemma_log_push(old(self).calls(), self.calls().last());
        }
        self.record_read(res)
    }
}

impl<R: std::io::BufRead> std::io::BufRead for Counter<R> {
    /// Hands out the wrapped reader's buffered bytes; nothing is counted until
    /// they are consumed, and all of them may be consumed.
    fn fill_buf(&mut self) -> (res: Result<&[u8], std::io::Error>)
        ensures
            final(self)@ == old(self)@,
            final(self).available() == match res {
                Ok(bytes) => bytes@.len(),
                Err(_) => 0,
            },
            final(self).calls() == old(self).calls().push(
                IoCall::FillBuf {
                    result: match res {
                        Ok(bytes) => Ok(bytes@),
                        Err(e) => Err(e),
                    },
                },
            ),
    {
        self.inner.fill_buf()
    }

    /// Marks `amt` of the bytes that `fill_buf` last handed out as consumed and
    /// adds them to the reader tally.
    fn consume(&mut self, amt: usize)
        requires
            amt <= old(self).available(),
            old(self)@.reader + amt <= usize::MAX,
        ensures
            final(self)@ == old(self)@.after_read(amt as nat),
            final(self).available() == old(self).available() - amt,
            final(self).calls() == old(self).calls().push(IoCall::Consume { amt: amt as nat }),
    {
        self.count_read(amt);
        self.inner.consume(amt);
    }
}

impl<W: std::io::Write> std::io::Write for Counter<W> {
    /// Writes from `buf` to the wrapped writer and adds the bytes written to
    /// the writer tally. The tally must have room for the full buffer.
    fn write(&mut self, buf: &[u8]) -> (res: Result<usize, std::io::Error>)
        requires
            old(self)@.writer + buf@.len() <= usize::MAX,
        ensures
            final(self)@ == old(self)@.after(write_outcome(res)),
            final(self).calls() == old(self).calls().push(IoCall::Write { bytes: buf@, result: res }),
            res matches Ok(n) ==> sent(final(self).calls()) == sent(old(self).calls()) + buf@.take(n as int),
            match res {
                Ok(n) => n <= buf@.len() && final(self)@ == old(self)@.after_write(n as nat),
                Err(_) => final(self)@ == old(self)@,
            },
            final(self).available() == 0,
    {
        let res = self.inner.write(buf);
        proof {
            lemma_log_push(old(self).calls(), self.calls().last());
        }
        self.record_write(res)
    }

    /// Flushes the wrapped writer; the tallies stay as they are.
    fn flush(&mut self) -> (res: Result<(), std::io::Error>)
        ensures
            final(self)@ == old(self)@,
            final(self).available() == 0,
            final(self).calls() == old(self).calls().push(IoCall::Flush { result: res }),
    {
        self.inner.flush()
    }
}

impl<S: std::io::Seek> std::io::Seek for Counter<S> {
    /// Seeks the wrapped object; the tallies stay as they are.
    fn seek(&mut self, pos: std::io::SeekFrom) -> (res: Result<u64, std::io::Error>)
        ensures
            final(self)@ == old(self)@,
            final(self).available() == 0,
            final(self).calls() == old(self).calls().push(IoCall::Seek { pos, result: res }),
    {
        self.inner.seek(pos)
    }
}

} // verus!
