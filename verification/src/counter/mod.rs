use vstd::prelude::*;

use crate::inner::{Inner, IoCall};

mod stdlib;

verus! {

/// The tallies of a byte counter: how many bytes have been read through it and
/// how many have been written through it.
pub struct ByteCounts {
    pub reader: nat,
    pub writer: nat,
}

impl ByteCounts {
    /// Nothing read, nothing written.
    pub open spec fn zero() -> ByteCounts {
        ByteCounts { reader: 0, writer: 0 }
    }

    /// Bytes read and bytes written together.
    pub open spec fn total(self) -> nat {
        self.reader + self.writer
    }

    /// The tallies after `n` more bytes were read.
    pub open spec fn after_read(self, n: nat) -> ByteCounts {
        ByteCounts { reader: self.reader + n, writer: self.writer }
    }

    /// The tallies after `n` more bytes were written.
    pub open spec fn after_write(self, n: nat) -> ByteCounts {
        ByteCounts { reader: self.reader, writer: self.writer + n }
    }

    /// The tallies after one transfer.
    pub open spec fn after(self, t: Transfer) -> ByteCounts {
        match t {
            Transfer::Read(n) => self.after_read(n),
            Transfer::Written(n) => self.after_write(n),
            Transfer::Nothing => self,
        }
    }

    /// The tallies after the given transfers, one after the other.
    pub open spec fn after_all(self, transfers: Seq<Transfer>) -> ByteCounts
        decreases transfers.len(),
    {
        if transfers.len() == 0 {
            self
        } else {
            self.after_all(transfers.drop_last()).after(transfers.last())
        }
    }

    /// Both tallies fit in a `usize`.
    pub open spec fn fits(self) -> bool {
        self.reader <= usize::MAX && self.writer <= usize::MAX
    }
}

/// What one operation on a counter does to its tallies: a successful read of,
/// or a consume of, `n` bytes is `Read(n)`; a successful write of `n` bytes is
/// `Written(n)`; everything else (a failed read or write, `fill_buf`, `flush`,
/// `seek`, work through `get_mut`) is `Nothing`.
pub enum Transfer {
    Read(nat),
    Written(nat),
    Nothing,
}

/// The bytes read in a sequence of transfers.
pub open spec fn read_total(transfers: Seq<Transfer>) -> nat
    decreases transfers.len(),
{
    if transfers.len() == 0 {
        0
    } else {
        read_total(transfers.drop_last()) + match transfers.last() {
            Transfer::Read(n) => n,
            _ => 0,
        }
    }
}

/// The bytes written in a sequence of transfers.
pub open spec fn written_total(transfers: Seq<Transfer>) -> nat
    decreases transfers.len(),
{
    if transfers.len() == 0 {
        0
    } else {
        written_total(transfers.drop_last()) + match transfers.last() {
            Transfer::Written(n) => n,
            _ => 0,
        }
    }
}

/// What a read or a consume that reported `res` does to the tallies: the
/// bytes read when it succeeded, nothing when it failed.
pub open spec fn read_outcome(res: Result<usize, std::io::Error>) -> Transfer {
    match res {
        Ok(n) => Transfer::Read(n as nat),
        Err(_) => Transfer::Nothing,
    }
}

/// What a write that reported `res` does to the tallies: the bytes written
/// when it succeeded, nothing when it failed.
pub open spec fn write_outcome(res: Result<usize, std::io::Error>) -> Transfer {
    match res {
        Ok(n) => Transfer::Written(n as nat),
        Err(_) => Transfer::Nothing,
    }
}

/// What a logged call on the wrapped object does to the tallies: a
/// successful read or a consume adds the bytes read or consumed to the reader
/// tally, a successful write the bytes written to the writer tally, and every
/// other call nothing.
pub open spec fn transfer_of(call: IoCall) -> Transfer {
    match call {
        IoCall::Read { result, .. } => read_outcome(result),
        IoCall::Consume { amt } => Transfer::Read(amt),
        IoCall::Write { result, .. } => write_outcome(result),
        _ => Transfer::Nothing,
    }
}

/// A wrapper that adds byte counting to any reader, writer or seeker.
///
/// `Counter<D>` tallies the bytes read from and written to the wrapped I/O
/// object `D`, each direction on its own; the tallies can be queried at any
/// time. Its view is a [`ByteCounts`]; the wrapped object is `wrapped()`.
#[derive(Debug)]
pub struct Counter<D> {
    inner: Inner<D>,
    read: usize,
    written: usize,
}

impl<D> View for Counter<D> {
    type V = ByteCounts;

    closed spec fn view(&self) -> ByteCounts {
        ByteCounts { reader: self.read as nat, writer: self.written as nat }
    }
}

impl<D> Counter<D> {
    /// The wrapped I/O object.
    pub closed spec fn wrapped(&self) -> D {
        self.inner.io()
    }

    /// How many bytes of the buffer that `fill_buf` last handed out are still
    /// unconsumed; zero once anything else may have changed the wrapped object.
    /// `BufRead::consume` may only be asked for at most this many.
    pub closed spec fn available(&self) -> nat {
        self.inner.unconsumed()
    }

    /// The calls made on the wrapped object through this counter, oldest first.
    pub closed spec fn calls(&self) -> Seq<IoCall> {
        self.inner.calls()
    }

    /// A counter around `inner` with the given tallies.
    pub closed spec fn spec_with(inner: D, reader_bytes: usize, writer_bytes: usize) -> Counter<D> {
        Counter { inner: Inner::spec_new(inner), read: reader_bytes, written: writer_bytes }
    }

    /// Every counter's tallies fit in a `usize`.
    pub proof fn lemma_fits(&self)
        ensures
            self@.fits(),
    {
    }

    /// Creates a new `Counter<D>` wrapping `inner`, with nothing read and
    /// nothing written.
    pub fn new(inner: D) -> (counter: Self)
        ensures
            counter@ == ByteCounts::zero(),
            counter.wrapped() == inner,
            counter.available() == 0,
            counter.calls() == Seq::<IoCall>::empty(),
            counter == Counter::spec_with(inner, 0, 0),
    {
        Self::with_bytes(inner, 0, 0)
    }

    /// Creates a new `Counter<D>` that starts from the given tallies, as when
    /// counting goes on from an earlier session.
    pub fn with_bytes(inner: D, reader_bytes: usize, writer_bytes: usize) -> (counter: Self)
        ensures
            counter@ == (ByteCounts { reader: reader_bytes as nat, writer: writer_bytes as nat }),
            counter.wrapped() == inner,
            counter.available() == 0,
            counter.calls() == Seq::<IoCall>::empty(),
            counter == Counter::spec_with(inner, reader_bytes, writer_bytes),
    {
        Counter { inner: Inner::new(inner), read: reader_bytes, written: writer_bytes }
    }

    /// The number of bytes read through this counter.
    pub fn reader_bytes(&self) -> (n: usize)
        ensures
            n == self@.reader,
    {
        self.read
    }

    /// The number of bytes written through this counter.
    pub fn writer_bytes(&self) -> (n: usize)
        ensures
            n == self@.writer,
    {
        self.written
    }

    /// The number of bytes read and written together, as a `u128`, which the
    /// sum of two `usize` tallies cannot overflow.
    pub fn total_bytes(&self) -> (n: u128)
        ensures
            n == self@.total(),
    {
        (self.read as u128) + (self.written as u128)
    }

    /// Consumes the counter and hands back the wrapped I/O object.
    pub fn into_inner(self) -> (inner: D)
        ensures
            inner == self.wrapped(),
    {
        self.inner.into_inner()
    }

    /// A reference to the wrapped I/O object.
    pub fn get_ref(&self) -> (inner: &D)
        ensures
            *inner == self.wrapped(),
    {
        self.inner.get_ref()
    }

    /// A mutable reference to the wrapped I/O object. Bytes read or written
    /// through it directly are not counted: the tallies stay as they are. What
    /// is done through it may change any buffer, so nothing buffered is known
    /// to be left afterwards.
    pub fn get_mut(&mut self) -> (inner: &mut D)
        ensures
            *inner == old(self).wrapped(),
            final(self).wrapped() == *final(inner),
            final(self)@ == old(self)@,
            final(self).available() == 0,
            final(self).calls() == old(self).calls(),
    {
        self.inner.get_mut()
    }

    /// Sets both tallies back to zero; the wrapped I/O object is untouched.
    pub fn reset(&mut self)
        ensures
            final(self)@ == ByteCounts::zero(),
            final(self).wrapped() == old(self).wrapped(),
            final(self).available() == old(self).available(),
            final(self).calls() == old(self).calls(),
    {
        self.read = 0;
        self.written = 0;
    }

    /// Records that `n` more bytes were read from the wrapped object.
    pub fn count_read(&mut self, n: usize)
        requires
            old(self)@.reader + n <= usize::MAX,
        ensures
            final(self)@ == old(self)@.after_read(n as nat),
            final(self).wrapped() == old(self).wrapped(),
            final(self).available() == old(self).available(),
            final(self).calls() == old(self).calls(),
    {
        self.read = self.read + n;
    }

    /// Records that `n` more bytes were written to the wrapped object.
    pub fn count_write(&mut self, n: usize)
        requires
            old(self)@.writer + n <= usize::MAX,
        ensures
            final(self)@ == old(self)@.after_write(n as nat),
            final(self).wrapped() == old(self).wrapped(),
            final(self).available() == old(self).available(),
            final(self).calls() == old(self).calls(),
    {
        self.written = self.written + n;
    }

    /// Takes what a read from the wrapped object reported and hands it on
    /// unchanged, adding the bytes read to the reader tally when it succeeded.
    pub fn record_read(&mut self, res: Result<usize, std::io::Error>) -> (out: Result<usize, std::io::Error>)
        requires
            res matches Ok(n) ==> old(self)@.reader + n <= usize::MAX,
        ensures
            out == res,
            final(self)@ == old(self)@.after(read_outcome(res)),
            match res {
                Ok(n) => final(self)@ == old(self)@.after_read(n as nat),
                Err(_) => final(self)@ == old(self)@,
            },
            final(self).wrapped() == old(self).wrapped(),
            final(self).available() == old(self).available(),
            final(self).calls() == old(self).calls(),
    {
        if let Ok(n) = &res {
            self.count_read(*n);
        }
        res
    }

    /// Takes what a write to the wrapped object reported and hands it on
    /// unchanged, adding the bytes written to the writer tally when it
    /// succeeded.
    pub fn record_write(&mut self, res: Result<usize, std::io::Error>) -> (out: Result<usize, std::io::Error>)
        requires
            res matches Ok(n) ==> old(self)@.writer + n <= usize::MAX,
        ensures
            out == res,
            final(self)@ == old(self)@.after(write_outcome(res)),
            match res {
                Ok(n) => final(self)@ == old(self)@.after_write(n as nat),
                Err(_) => final(self)@ == old(self)@,
            },
            final(self).wrapped() == old(self).wrapped(),
            final(self).available() == old(self).available(),
            final(self).calls() == old(self).calls(),
    {
        if let Ok(n) = &res {
            self.count_write(*n);
        }
        res
    }

    /// Takes what a read into a buffer that was filled up to `before` and is
    /// filled up to `after` reported, and hands it on unchanged, adding the
    /// `after - before` newly filled bytes to the reader tally when it
    /// succeeded.
    pub fn record_filled(&mut self, res: Result<(), std::io::Error>, before: usize, after: usize) -> (out: Result<(), std::io::Error>)
        requires
            res is Ok ==> before <= after && old(self)@.reader + (after - before) <= usize::MAX,
        ensures
            out == res,
            match res {
                Ok(_) => final(self)@ == old(self)@.after_read((after - before) as nat),
                Err(_) => final(self)@ == old(self)@,
            },
            final(self).wrapped() == old(self).wrapped(),
            final(self).available() == old(self).available(),
            final(self).calls() == old(self).calls(),
    {
        if res.is_ok() {
            self.count_read(after - before);
        }
        res
    }
}

impl<D> From<D> for Counter<D> {
    /// Wraps `inner` in a counter with nothing read and nothing written.
    fn from(inner: D) -> (counter: Self)
        ensures
            counter@ == ByteCounts::zero(),
            counter.wrapped() == inner,
            counter.available() == 0,
            counter.calls() == Seq::<IoCall>::empty(),
    {
        Self::new(inner)
    }
}

impl<D> vstd::std_specs::convert::FromSpecImpl<D> for Counter<D> {
    open spec fn obeys_from_spec() -> bool {
        true
    }

    open spec fn from_spec(inner: D) -> Self {
        Counter::spec_with(inner, 0, 0)
    }
}

impl<D: Clone> Clone for Counter<D> {
    /// A counter with the same tallies around a clone of the wrapped object.
    fn clone(&self) -> (copy: Self)
        ensures
            copy@ == self@,
            cloned(self.wrapped(), copy.wrapped()),
            copy.available() == 0,
            copy.calls() == Seq::<IoCall>::empty(),
    {
        Counter { inner: self.inner.clone(), read: self.read, written: self.written }
    }
}

impl<D: Default> Default for Counter<D> {
    /// A counter with nothing read and nothing written around a default object.
    fn default() -> (counter: Self)
        ensures
            counter@ == ByteCounts::zero(),
            call_ensures(D::default, (), counter.wrapped()),
            counter.available() == 0,
            counter.calls() == Seq::<IoCall>::empty(),
    {
        Self::new(D::default())
    }
}

} // verus!
