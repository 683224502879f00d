//! The wrapped I/O object, and the calls into `std::io` and `core::fmt` made on
//! it. What these calls do depends on the object, so each trusted contract
//! states only what the documentation of the trait obliges every
//! implementation to do, that the call was made with the given arguments and
//! reported the given result (an entry in the wrapper's log of calls), and how
//! many bytes of the object's read buffer may still be consumed.

use vstd::prelude::*;

verus! {

/// The error of a `std::io` operation, carried through unchanged.
#[verifier::external_type_specification]
#[verifier::external_body]
pub struct ExIoError(std::io::Error);

/// A position to seek to, handed through unchanged.
#[verifier::external_type_specification]
#[verifier::external_body]
pub struct ExSeekFrom(std::io::SeekFrom);

/// The formatter that debug output is written to, handed through unchanged.
#[verifier::external_type_specification]
#[verifier::external_body]
pub struct ExFormatter<'a>(core::fmt::Formatter<'a>);

/// The error of a formatting operation, carried through unchanged.
#[verifier::external_type_specification]
#[verifier::external_body]
pub struct ExFmtError(core::fmt::Error);

/// One call made on a wrapped I/O object: what was handed to it and what it
/// reported.
pub enum IoCall {
    /// `read` into a buffer of `len` bytes, which held `filled` afterwards.
    Read { len: nat, filled: Seq<u8>, result: Result<usize, std::io::Error> },
    /// `fill_buf`, which handed out the given bytes or failed.
    FillBuf { result: Result<Seq<u8>, std::io::Error> },
    /// `consume` of `amt` buffered bytes.
    Consume { amt: nat },
    /// `write` of `bytes`.
    Write { bytes: Seq<u8>, result: Result<usize, std::io::Error> },
    /// `flush`.
    Flush { result: Result<(), std::io::Error> },
    /// `seek` to `pos`.
    Seek { pos: std::io::SeekFrom, result: Result<u64, std::io::Error> },
}

/// The bytes that the successful reads among `calls` delivered, in order: the
/// first `n` bytes of the buffer of each read that reported `n`.
pub open spec fn received(calls: Seq<IoCall>) -> Seq<u8>
    decreases calls.len(),
{
    if calls.len() == 0 {
        Seq::empty()
    } else {
        received(calls.drop_last()) + match calls.last() {
            IoCall::Read { filled, result: Ok(n), .. } => filled.take(n as int),
            _ => Seq::empty(),
        }
    }
}

/// The bytes that the successful writes among `calls` accepted, in order: the
/// first `n` bytes handed to each write that reported `n`.
pub open spec fn sent(calls: Seq<IoCall>) -> Seq<u8>
    decreases calls.len(),
{
    if calls.len() == 0 {
        Seq::empty()
    } else {
        sent(calls.drop_last()) + match calls.last() {
            IoCall::Write { bytes, result: Ok(n) } => bytes.take(n as int),
            _ => Seq::empty(),
        }
    }
}

/// The bytes consumed from read buffers among `calls`.
pub open spec fn consumed(calls: Seq<IoCall>) -> nat
    decreases calls.len(),
{
    if calls.len() == 0 {
        0
    } else {
        consumed(calls.drop_last()) + match calls.last() {
            IoCall::Consume { amt } => amt,
            _ => 0,
        }
    }
}

/// A logged call is consistent with what `std::io` obliges of it: a read's
/// buffer keeps its length and a successful read or write reports at most the
/// buffer's length.
pub open spec fn call_consistent(call: IoCall) -> bool {
    match call {
        IoCall::Read { len, filled, result } => filled.len() == len && (result matches Ok(n) ==> n <= len),
        IoCall::Write { bytes, result } => result matches Ok(n) ==> n <= bytes.len(),
        _ => true,
    }
}

/// Logging one more call adds what that call delivered to the bytes received
/// and what it accepted to the bytes sent.
pub proof fn lemma_log_push(calls: Seq<IoCall>, call: IoCall)
    ensures
        received(calls.push(call)) == received(calls) + match call {
            IoCall::Read { filled, result: Ok(n), .. } => filled.take(n as int),
            _ => Seq::empty(),
        },
        sent(calls.push(call)) == sent(calls) + match call {
            IoCall::Write { bytes, result: Ok(n) } => bytes.take(n as int),
            _ => Seq::empty(),
        },
{
    assert(calls.push(call).drop_last() =~= calls);
}

/// A wrapped I/O object, with the log of the calls made on it through this
/// wrapper, and a record of how many bytes of the read buffer that `fill_buf`
/// last handed out are still unconsumed. The record is zero unless the last
/// calls on the object were a `fill_buf` and consumes of that buffer, so it
/// never claims more than the object holds. Only the calls below add to the
/// log or set the record to anything but zero.
pub struct Inner<D> {
    io: D,
    unconsumed: Ghost<nat>,
    calls: Ghost<Seq<IoCall>>,
}

impl<D> Inner<D> {
    /// The I/O object.
    pub closed spec fn io(&self) -> D {
        self.io
    }

    /// How many bytes of the buffer that `fill_buf` last handed out are still
    /// unconsumed, as far as is known; `BufRead::consume` may be asked for at
    /// most this many.
    pub closed spec fn unconsumed(&self) -> nat {
        self.unconsumed@
    }

    /// The calls made on the object through this wrapper, oldest first.
    pub closed spec fn calls(&self) -> Seq<IoCall> {
        self.calls@
    }

    /// `io` wrapped, with nothing known to be buffered and no call made.
    pub closed spec fn spec_new(io: D) -> Inner<D> {
        Inner { io, unconsumed: Ghost(0), calls: Ghost(Seq::empty()) }
    }

    /// Wraps `io`; nothing is known to be buffered.
    pub fn new(io: D) -> (inner: Self)
        ensures
            inner == Inner::spec_new(io),
            inner.io() == io,
            inner.unconsumed() == 0,
            inner.calls() == Seq::<IoCall>::empty(),
    {
        Inner { io, unconsumed: Ghost(0), calls: Ghost(Seq::empty()) }
    }

    /// A reference to the I/O object.
    pub fn get_ref(&self) -> (io: &D)
        ensures
            *io == self.io(),
    {
        &self.io
    }

    /// A mutable reference to the I/O object. What is done through it may
    /// change any buffer, so nothing buffered is known to be left.
    pub fn get_mut(&mut self) -> (io: &mut D)
        ensures
            *io == old(self).io(),
            final(self).io() == *final(io),
            final(self).unconsumed() == 0,
            final(self).calls() == old(self).calls(),
    {
        self.unconsumed = Ghost(0);
        &mut self.io
    }

    /// Hands back the I/O object.
    pub fn into_inner(self) -> (io: D)
        ensures
            io == self.io(),
    {
        self.io
    }
}

impl<D: Clone> Clone for Inner<D> {
    /// A clone of the I/O object, wrapped afresh: nothing is known to be
    /// buffered in it and no call has been made through the new wrapper.
    fn clone(&self) -> (copy: Self)
        ensures
            cloned(self.io(), copy.io()),
            copy.unconsumed() == 0,
            copy.calls() == Seq::<IoCall>::empty(),
    {
        Inner { io: self.io.clone(), unconsumed: Ghost(0), calls: Ghost(Seq::empty()) }
    }
}

impl<D: core::fmt::Debug> core::fmt::Debug for Inner<D> {
    /// Calls `core::fmt::Debug::fmt` on the I/O object, so that it shows as the
    /// object itself does; nothing is claimed of it.
    #[verifier::external_body]
    fn fmt(&self, f: &mut core::fmt::Formatter<'_>) -> Result<(), core::fmt::Error> {
        self.io.fmt(f)
    }
}

impl<R: std::io::Read> Inner<R> {
    /// Calls `std::io::Read::read` on the object. The trait's documentation
    /// obliges every implementation to report at most `buf.len()` bytes on
    /// success; which bytes, how many and whether it fails depend on the
    /// object. Its read buffer may change, so nothing buffered is known to be
    /// left.
    #[verifier::external_body]
    pub fn read(&mut self, buf: &mut [u8]) -> (res: Result<usize, std::io::Error>)
        ensures
            final(buf)@.len() == old(buf)@.len(),
            res matches Ok(n) ==> n <= old(buf)@.len(),
            final(self).unconsumed() == 0,
            final(self).calls() == old(self).calls().push(
                IoCall::Read { len: old(buf)@.len(), filled: final(buf)@, result: res },
            ),
    {
        self.io.read(buf)
    }
}

impl<R: std::io::BufRead> Inner<R> {
    /// Calls `std::io::BufRead::fill_buf` on the object; the bytes it hands out
    /// depend on the object, and all of them may then be consumed.
    #[verifier::external_body]
    pub fn fill_buf(&mut self) -> (res: Result<&[u8], std::io::Error>)
        ensures
            final(self).unconsumed() == match res {
                Ok(bytes) => bytes@.len(),
                Err(_) => 0,
            },
            final(self).calls() == old(self).calls().push(
                IoCall::FillBuf {
                    result: match res {
                        Ok(bytes) => Ok(bytes@),
                        Err(e) => Err(e),
                    },
                },
            ),
    {
        self.io.fill_buf()
    }

    /// Calls `std::io::BufRead::consume` on the object. The trait's
    /// documentation demands that `amt` be at most what the buffer that
    /// `fill_buf` last handed out holds (implementations such as the one for
    /// byte slices panic otherwise); the consumed bytes leave that buffer.
    #[verifier::external_body]
    pub fn consume(&mut self, amt: usize)
        requires
            amt <= old(self).unconsumed(),
        ensures
            final(self).unconsumed() == old(self).unconsumed() - amt,
            final(self).calls() == old(self).calls().push(IoCall::Consume { amt: amt as nat }),
    {
        self.io.consume(amt)
    }
}

impl<W: std::io::Write> Inner<W> {
    /// Calls `std::io::Write::write` on the object. The trait's documentation
    /// obliges every implementation to report at most `buf.len()` bytes on
    /// success; how many and whether it fails depend on the object. Its read
    /// buffer may change, so nothing buffered is known to be left.
    #[verifier::external_body]
    pub fn write(&mut self, buf: &[u8]) -> (res: Result<usize, std::io::Error>)
        ensures
            res matches Ok(n) ==> n <= buf@.len(),
            final(self).unconsumed() == 0,
            final(self).calls() == old(self).calls().push(IoCall::Write { bytes: buf@, result: res }),
    {
        self.io.write(buf)
    }

    /// Calls `std::io::Write::flush` on the object; whether it fails depends on
    /// the object, and nothing buffered is known to be left. What the flush
    /// does to the object (for a buffered writer, passing its buffer on) is not
    /// stated: the object's type is generic, and no name for its result can be.
    #[verifier::external_body]
    pub fn flush(&mut self) -> (res: Result<(), std::io::Error>)
        ensures
            final(self).unconsumed() == 0,
            final(self).calls() == old(self).calls().push(IoCall::Flush { result: res }),
    {
        self.io.flush()
    }
}

impl<S: std::io::Seek> Inner<S> {
    /// Calls `std::io::Seek::seek` on the object; the position it reports
    /// depends on the object, and nothing buffered is known to be left.
    #[verifier::external_body]
    pub fn seek(&mut self, pos: std::io::SeekFrom) -> (res: Result<u64, std::io::Error>)
        ensures
            final(self).unconsumed() == 0,
            final(self).calls() == old(self).calls().push(IoCall::Seek { pos, result: res }),
    {
        self.io.seek(pos)
    }
}

} // verus!
