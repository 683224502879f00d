use vstd::prelude::*;

use crate::counter::{read_outcome, write_outcome};
use crate::inner::IoCall;
use crate::{ByteCounts, Counter};

mod stdlib;

verus! {

/// The state of a progress tracker: the tallies of its counter and the number
/// of bytes it expects to read and to write, where those are known.
pub struct ProgressState {
    pub counts: ByteCounts,
    pub expected_reader: Option<usize>,
    pub expected_writer: Option<usize>,
}

/// How far `done` bytes have come towards `expected` ones, as a fraction
/// `(numerator, denominator)` from zero to one, with a positive denominator:
/// unknown where nothing is expected, complete (one over one) where zero bytes
/// are expected, and `done` over `expected` otherwise, where more than expected
/// counts as complete (`expected` over `expected`).
pub open spec fn completion(done: nat, expected: Option<usize>) -> Option<(nat, nat)> {
    match expected {
        None => None,
        Some(e) => if e == 0 {
            Some((1nat, 1nat))
        } else if done <= e {
            Some((done, e as nat))
        } else {
            Some((e as nat, e as nat))
        },
    }
}

impl ProgressState {
    /// The share of the expected reading that is done.
    pub open spec fn reader_completion(self) -> Option<(nat, nat)> {
        completion(self.counts.reader, self.expected_reader)
    }

    /// The share of the expected writing that is done.
    pub open spec fn writer_completion(self) -> Option<(nat, nat)> {
        completion(self.counts.writer, self.expected_writer)
    }
}

/// A fraction as a pair of integers, seen as mathematical integers.
pub open spec fn fraction_view(f: Option<(usize, usize)>) -> Option<(nat, nat)> {
    match f {
        None => None,
        Some((n, d)) => Some((n as nat, d as nat)),
    }
}

/// The share `done` of `expected` bytes as a fraction from zero to one: one
/// over one when nothing is expected, `expected` over `expected` when more than
/// expected is done.
fn share(done: usize, expected: usize) -> (f: (usize, usize))
    ensures
        Some((f.0 as nat, f.1 as nat)) == completion(done as nat, Some(expected)),
{
    if expected == 0 {
        (1, 1)
    } else if done <= expected {
        (done, expected)
    } else {
        (expected, expected)
    }
}

/// A progress tracker: a [`Counter`] together with the number of bytes it is
/// expected to read and to write, where those are known, from which the share
/// of the work that is done follows.
#[derive(Debug)]
pub struct Progress<D> {
    counter: Counter<D>,
    expected_reader_bytes: Option<usize>,
    expected_writer_bytes: Option<usize>,
}

impl<D> View for Progress<D> {
    type V = ProgressState;

    closed spec fn view(&self) -> ProgressState {
        ProgressState {
            counts: self.counter@,
            expected_reader: self.expected_reader_bytes,
            expected_writer: self.expected_writer_bytes,
        }
    }
}

impl<D> Progress<D> {
    /// The wrapped I/O object.
    pub closed spec fn wrapped(&self) -> D {
        self.counter.wrapped()
    }

    /// How many bytes of the buffer that `fill_buf` last handed out are still
    /// unconsumed, as the counter records it.
    pub closed spec fn available(&self) -> nat {
        self.counter.available()
    }

    /// The calls made on the wrapped object through this tracker, oldest first.
    pub closed spec fn calls(&self) -> Seq<IoCall> {
        self.counter.calls()
    }

    /// A tracker around `counter` that expects nothing in particular.
    pub closed spec fn spec_from_counter(counter: Counter<D>) -> Progress<D> {
        Progress { counter, expected_reader_bytes: None, expected_writer_bytes: None }
    }

    /// Every tracker's tallies fit in a `usize`.
    pub proof fn lemma_fits(&self)
        ensures
            self@.counts.fits(),
    {
        self.counter.lemma_fits();
    }

    /// Creates a tracker around `inner` that expects nothing in particular.
    pub fn new(inner: D) -> (progress: Self)
        ensures
            progress@ == (ProgressState { counts: ByteCounts::zero(), expected_reader: None, expected_writer: None }),
            progress.wrapped() == inner,
            progress.available() == 0,
            progress.calls() == Seq::<IoCall>::empty(),
    {
        Progress { counter: Counter::new(inner), expected_reader_bytes: None, expected_writer_bytes: None }
    }

    /// Creates a tracker around `inner` that expects to read `expected` bytes.
    pub fn with_expected_reader_bytes(inner: D, expected: usize) -> (progress: Self)
        ensures
            progress@ == (ProgressState {
                counts: ByteCounts::zero(),
                expected_reader: Some(expected),
                expected_writer: None,
            }),
            progress.wrapped() == inner,
            progress.available() == 0,
            progress.calls() == Seq::<IoCall>::empty(),
    {
        Progress {
            counter: Counter::new(inner),
            expected_reader_bytes: Some(expected),
            expected_writer_bytes: None,
        }
    }

    /// Creates a tracker around `inner` that expects to write `expected` bytes.
    pub fn with_expected_writer_bytes(inner: D, expected: usize) -> (progress: Self)
        ensures
            progress@ == (ProgressState {
                counts: ByteCounts::zero(),
                expected_reader: None,
                expected_writer: Some(expected),
            }),
            progress.wrapped() == inner,
            progress.available() == 0,
            progress.calls() == Seq::<IoCall>::empty(),
    {
        Progress {
            counter: Counter::new(inner),
            expected_reader_bytes: None,
            expected_writer_bytes: Some(expected),
        }
    }

    /// Creates a tracker around `inner` that expects to read
    /// `expected_reader_bytes` bytes and to write `expected_writer_bytes` bytes.
    pub fn with_expected_bytes(inner: D, expected_reader_bytes: usize, expected_writer_bytes: usize) -> (progress: Self)
        ensures
            progress@ == (ProgressState {
                counts: ByteCounts::zero(),
                expected_reader: Some(expected_reader_bytes),
                expected_writer: Some(expected_writer_bytes),
            }),
            progress.wrapped() == inner,
            progress.available() == 0,
            progress.calls() == Seq::<IoCall>::empty(),
    {
        Progress {
            counter: Counter::new(inner),
            expected_reader_bytes: Some(expected_reader_bytes),
            expected_writer_bytes: Some(expected_writer_bytes),
        }
    }

    /// The number of bytes read and written together.
    pub fn total_bytes(&self) -> (n: u128)
        ensures
            n == self@.counts.total(),
    {
        self.counter.total_bytes()
    }

    /// The number of bytes read.
    pub fn reader_bytes(&self) -> (n: usize)
        ensures
            n == self@.counts.reader,
    {
        self.counter.reader_bytes()
    }

    /// The number of bytes written.
    pub fn writer_bytes(&self) -> (n: usize)
        ensures
            n == self@.counts.writer,
    {
        self.counter.writer_bytes()
    }

    /// The number of bytes expected to be read, if known.
    pub fn expected_reader_bytes(&self) -> (expected: Option<usize>)
        ensures
            expected == self@.expected_reader,
    {
        self.expected_reader_bytes
    }

    /// The number of bytes expected to be written, if known.
    pub fn expected_writer_bytes(&self) -> (expected: Option<usize>)
        ensures
            expected == self@.expected_writer,
    {
        self.expected_writer_bytes
    }

    /// Sets the number of bytes expected to be read; nothing else changes.
    pub fn set_expected_reader_bytes(&mut self, expected: Option<usize>)
        ensures
            final(self)@ == (ProgressState { expected_reader: expected, ..old(self)@ }),
            final(self).wrapped() == old(self).wrapped(),
            final(self).available() == old(self).available(),
            final(self).calls() == old(self).calls(),
    {
        self.expected_reader_bytes = expected;
    }

    /// Sets the number of bytes expected to be written; nothing else changes.
    pub fn set_expected_writer_bytes(&mut self, expected: Option<usize>)
        ensures
            final(self)@ == (ProgressState { expected_writer: expected, ..old(self)@ }),
            final(self).wrapped() == old(self).wrapped(),
            final(self).available() == old(self).available(),
            final(self).calls() == old(self).calls(),
    {
        self.expected_writer_bytes = expected;
    }

    /// The share of the expected reading that is done, from zero to one, as a
    /// fraction `(numerator, denominator)`: `None` when the expected size is
    /// unknown, `(1, 1)` when it is zero, bytes read over bytes expected
    /// otherwise, and complete once more than expected has been read.
    pub fn reader_fraction(&self) -> (f: Option<(usize, usize)>)
        ensures
            fraction_view(f) == self@.reader_completion(),
    {
        match self.expected_reader_bytes {
            None => None,
            Some(expected) => Some(share(self.counter.reader_bytes(), expected)),
        }
    }

    /// The share of the expected writing that is done, from zero to one, as a
    /// fraction `(numerator, denominator)`: `None` when the expected size is
    /// unknown, `(1, 1)` when it is zero, bytes written over bytes expected
    /// otherwise, and complete once more than expected has been written.
    pub fn writer_fraction(&self) -> (f: Option<(usize, usize)>)
        ensures
            fraction_view(f) == self@.writer_completion(),
    {
        match self.expected_writer_bytes {
            None => None,
            Some(expected) => Some(share(self.counter.writer_bytes(), expected)),
        }
    }

    /// Consumes the tracker and hands back the wrapped I/O object.
    pub fn into_inner(self) -> (inner: D)
        ensures
            inner == self.wrapped(),
    {
        self.counter.into_inner()
    }

    /// A reference to the wrapped I/O object.
    pub fn get_ref(&self) -> (inner: &D)
        ensures
            *inner == self.wrapped(),
    {
        self.counter.get_ref()
    }

    /// A mutable reference to the wrapped I/O object. Bytes read or written
    /// through it directly are not counted: the state stays as it is.
    pub fn get_mut(&mut self) -> (inner: &mut D)
        ensures
            *inner == old(self).wrapped(),
            final(self).wrapped() == *final(inner),
            final(self)@ == old(self)@,
            final(self).available() == 0,
            final(self).calls() == old(self).calls(),
    {
        self.counter.get_mut()
    }

    /// Sets both tallies back to zero; the expected sizes and the wrapped I/O
    /// object are untouched.
    pub fn reset(&mut self)
        ensures
            final(self)@ == (ProgressState { counts: ByteCounts::zero(), ..old(self)@ }),
            final(self).wrapped() == old(self).wrapped(),
            final(self).available() == old(self).available(),
            final(self).calls() == old(self).calls(),
    {
        self.counter.reset();
    }

    /// Records that `n` more bytes were read from the wrapped object.
    pub fn count_read(&mut self, n: usize)
        requires
            old(self)@.counts.reader + n <= usize::MAX,
        ensures
            final(self)@ == (ProgressState { counts: old(self)@.counts.after_read(n as nat), ..old(self)@ }),
            final(self).wrapped() == old(self).wrapped(),
            final(self).available() == old(self).available(),
            final(self).calls() == old(self).calls(),
    {
        self.counter.count_read(n);
    }

    /// Records that `n` more bytes were written to the wrapped object.
    pub fn count_write(&mut self, n: usize)
        requires
            old(self)@.counts.writer + n <= usize::MAX,
        ensures
            final(self)@ == (ProgressState { counts: old(self)@.counts.after_write(n as nat), ..old(self)@ }),
            final(self).wrapped() == old(self).wrapped(),
            final(self).available() == old(self).available(),
            final(self).calls() == old(self).calls(),
    {
        self.counter.count_write(n);
    }

    /// Takes what a read from the wrapped object reported and hands it on
    /// unchanged, adding the bytes read to the reader tally when it succeeded;
    /// the expected sizes are kept.
    pub fn record_read(&mut self, res: Result<usize, std::io::Error>) -> (out: Result<usize, std::io::Error>)
        requires
            res matches Ok(n) ==> old(self)@.counts.reader + n <= usize::MAX,
        ensures
            out == res,
            final(self)@ == (ProgressState { counts: old(self)@.counts.after(read_outcome(res)), ..old(self)@ }),
            match res {
                Ok(n) => final(self)@ == (ProgressState { counts: old(self)@.counts.after_read(n as nat), ..old(self)@ }),
                Err(_) => final(self)@ == old(self)@,
            },
            final(self).wrapped() == old(self).wrapped(),
            final(self).available() == old(self).available(),
            final(self).calls() == old(self).calls(),
    {
        self.counter.record_read(res)
    }

    /// Takes what a write to the wrapped object reported and hands it on
    /// unchanged, adding the bytes written to the writer tally when it
    /// succeeded; the expected sizes are kept.
    pub fn record_write(&mut self, res: Result<usize, std::io::Error>) -> (out: Result<usize, std::io::Error>)
        requires
            res matches Ok(n) ==> old(self)@.counts.writer + n <= usize::MAX,
        ensures
            out == res,
            final(self)@ == (ProgressState { counts: old(self)@.counts.after(write_outcome(res)), ..old(self)@ }),
            match res {
                Ok(n) => final(self)@ == (ProgressState { counts: old(self)@.counts.after_write(n as nat), ..old(self)@ }),
                Err(_) => final(self)@ == old(self)@,
            },
            final(self).wrapped() == old(self).wrapped(),
            final(self).available() == old(self).available(),
            final(self).calls() == old(self).calls(),
    {
        self.counter.record_write(res)
    }

    /// Takes what a read into a buffer that was filled up to `before` and is
    /// filled up to `after` reported, and hands it on unchanged, adding the
    /// `after - before` newly filled bytes to the reader tally when it
    /// succeeded; the expected sizes are kept.
    pub fn record_filled(&mut self, res: Result<(), std::io::Error>, before: usize, after: usize) -> (out: Result<(), std::io::Error>)
        requires
            res is Ok ==> before <= after && old(self)@.counts.reader + (after - before) <= usize::MAX,
        ensures
            out == res,
            match res {
                Ok(_) => final(self)@ == (ProgressState {
                    counts: old(self)@.counts.after_read((after - before) as nat),
                    ..old(self)@
                }),
                Err(_) => final(self)@ == old(self)@,
            },
            final(self).wrapped() == old(self).wrapped(),
            final(self).available() == old(self).available(),
            final(self).calls() == old(self).calls(),
    {
        self.counter.record_filled(res, before, after)
    }
}

impl<D> From<Counter<D>> for Progress<D> {
    /// A tracker around `counter` that keeps its tallies and expects nothing in
    /// particular.
    fn from(counter: Counter<D>) -> (progress: Self)
        ensures
            progress@ == (ProgressState { counts: counter@, expected_reader: None, expected_writer: None }),
            progress.wrapped() == counter.wrapped(),
            progress.available() == counter.available(),
            progress.calls() == counter.calls(),
    {
        Progress { counter, expected_reader_bytes: None, expected_writer_bytes: None }
    }
}

impl<D> vstd::std_specs::convert::FromSpecImpl<Counter<D>> for Progress<D> {
    open spec fn obeys_from_spec() -> bool {
        true
    }

    open spec fn from_spec(counter: Counter<D>) -> Self {
        Progress::spec_from_counter(counter)
    }
}

impl<D: Clone> Clone for Progress<D> {
    /// A tracker in the same state around a clone of the wrapped object.
    fn clone(&self) -> (copy: Self)
        ensures
            copy@ == self@,
            cloned(self.wrapped(), copy.wrapped()),
            copy.available() == 0,
            copy.calls() == Seq::<IoCall>::empty(),
    {
        Progress {
            counter: self.counter.clone(),
            expected_reader_bytes: self.expected_reader_bytes,
            expected_writer_bytes: self.expected_writer_bytes,
        }
    }
}

impl<D: Default> Default for Progress<D> {
    /// A tracker around a default object that has counted nothing and expects
    /// nothing in particular.
    fn default() -> (progress: Self)
        ensures
            progress@ == (ProgressState { counts: ByteCounts::zero(), expected_reader: None, expected_writer: None }),
            call_ensures(D::default, (), progress.wrapped()),
            progress.available() == 0,
            progress.calls() == Seq::<IoCall>::empty(),
    {
        Self::new(D::default())
    }
}

} // verus!
