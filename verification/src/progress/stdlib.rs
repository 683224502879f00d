//! `std::io` for `Progress`: every call goes through the tracker's counter;
//! the expected sizes are never touched.

use vstd::prelude::*;

use crate::counter::{read_outcome, write_outcome};
use crate::inner::{received, sent, IoCall};
use crate::{Progress, ProgressState};

verus! {

impl<R: std::io::Read> std::io::Read for Progress<R> {
    /// Reads into `buf` through the counter, which adds the bytes read to the
    /// reader tally. The tally must have room for a full buffer.
    fn read(&mut self, buf: &mut [u8]) -> (res: Result<usize, std::io::Error>)
        requires
            old(self)@.counts.reader + old(buf)@.len() <= usize::MAX,
        ensures
            final(self)@ == (ProgressState { counts: old(self)@.counts.after(read_outcome(res)), ..old(self)@ }),
            final(buf)@.len() == old(buf)@.len(),
            final(self).calls() == old(self).calls().push(
                IoCall::Read { len: old(buf)@.len(), filled: final(buf)@, result: res },
            ),
            res matches Ok(n) ==> received(final(self).calls()) == received(old(self).calls()) + final(buf)@.take(n as int),
            match res {
                Ok(n) => n <= old(buf)@.len() && final(self)@ == (ProgressState {
                    counts: old(self)@.counts.after_read(n as nat),
                    ..old(self)@
                }),
                Err(_) => final(self)@ == old(self)@,
            },
            final(self).available() == 0,
    {
        self.counter.read(buf)
    }
}

impl<R: std::io::BufRead> std::io::BufRead for Progress<R> {
    /// Hands out the wrapped reader's buffered bytes; nothing is counted until
    /// they are consumed, and all of them may be consumed.
    fn fill_buf(&mut self) -> (res: Result<&[u8], std::io::Error>)
        ensures
            final(self)@ == old(self)@,
            final(self).available() == match res {
                Ok(bytes) => bytes@.len(),
                Err(_) => 0,
            },
            final(self).calls() == old(self).calls().push(
                IoCall::FillBuf {
                    result: match res {
                        Ok(bytes) => Ok(bytes@),
                        Err(e) => Err(e),
                    },
                },
            ),
    {
        self.counter.fill_buf()
    }

    /// Marks `amt` of the bytes that `fill_buf` last handed out as consumed and
    /// adds them to the reader tally.
    fn consume(&mut self, amt: usize)
        requires
            amt <= old(self).available(),
            old(self)@.counts.reader + amt <= usize::MAX,
        ensures
            final(self)@ == (ProgressState { counts: old(self)@.counts.after_read(amt as nat), ..old(self)@ }),
            final(self).available() == old(self).available() - amt,
            final(self).calls() == old(self).calls().push(IoCall::Consume { amt: amt as nat }),
    {
        self.counter.consume(amt);
    }
}

impl<W: std::io::Write> std::io::Write for Progress<W> {
    /// Writes from `buf` through the counter, which adds the bytes written to
    /// the writer tally. The tally must have room for the full buffer.
    fn write(&mut self, buf: &[u8]) -> (res: Result<usize, std::io::Error>)
        requires
            old(self)@.counts.writer + buf@.len() <= usize::MAX,
        ensures
            final(self)@ == (ProgressState { counts: old(self)@.counts.after(write_outcome(res)), ..old(self)@ }),
            final(self).calls() == old(self).calls().push(IoCall::Write { bytes: buf@, result: res }),
            res matches Ok(n) ==> sent(final(self).calls()) == sent(old(self).calls()) + buf@.take(n as int),
            match res {
                Ok(n) => n <= buf@.len() && final(self)@ == (ProgressState {
                    counts: old(self)@.counts.after_write(n as nat),
                    ..old(self)@
                }),
                Err(_) => final(self)@ == old(self)@,
            },
            final(self).available() == 0,
    {
        self.counter.write(buf)
    }

    /// Flushes the wrapped writer; the state stays as it is.
    fn flush(&mut self) -> (res: Result<(), std::io::Error>)
        ensures
            final(self)@ == old(self)@,
            final(self).available() == 0,
            final(self).calls() == old(self).calls().push(IoCall::Flush { result: res }),
    {
        self.counter.flush()
    }
}

impl<S: std::io::Seek> std::io::Seek for Progress<S> {
    /// Seeks the wrapped object; the state stays as it is.
    fn seek(&mut self, pos: std::io::SeekFrom) -> (res: Result<u64, std::io::Error>)
        ensures
            final(self)@ == old(self)@,
            final(self).available() == 0,
            final(self).calls() == old(self).calls().push(IoCall::Seek { pos, result: res }),
    {
        self.counter.seek(pos)
    }
}

} // verus!
