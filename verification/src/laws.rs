//! Properties that hold across operations of the counters and trackers.

use vstd::prelude::*;

use crate::counter::{read_total, transfer_of, written_total};
use crate::inner::{call_consistent, consumed, received, sent, IoCall};
use crate::progress::completion;
use crate::{ByteCounts, ProgressState, Transfer};

verus! {

/// Reading and writing are tallied independently: a read leaves the writer
/// tally alone, a write leaves the reader tally alone, and a read and a write
/// give the same tallies in either order.
pub proof fn law_directions_independent(counts: ByteCounts, read: nat, written: nat)
    ensures
        counts.after_read(read).writer == counts.writer,
        counts.after_write(written).reader == counts.reader,
        counts.after_read(read).after_write(written) == counts.after_write(written).after_read(read),
{
}

/// Every byte is counted, and only once: after any sequence of operations,
/// each read or consume of `n` bytes having added `n` to the reader tally, each
/// write of `n` bytes `n` to the writer tally, and every other operation
/// nothing, the tallies have grown by exactly the bytes read and written.
pub proof fn law_transfers_accumulate(counts: ByteCounts, transfers: Seq<Transfer>)
    ensures
        counts.after_all(transfers) == (ByteCounts {
            reader: counts.reader + read_total(transfers),
            writer: counts.writer + written_total(transfers),
        }),
    decreases transfers.len(),
{
    if transfers.len() > 0 {
        law_transfers_accumulate(counts, transfers.drop_last());
    }
}

/// What a counter reports along any run of operations on it: when each
/// operation moved the tallies by its transfer (as the contract of each
/// operation states: a read or a consume by what it read, a write by what it
/// wrote, anything else and any failure by nothing), then at the end the reader
/// tally is the first one plus every byte read and the writer tally the first
/// one plus every byte written.
pub proof fn law_counter_run(states: Seq<ByteCounts>, transfers: Seq<Transfer>)
    requires
        states.len() == transfers.len() + 1,
        forall|i: int| 0 <= i < transfers.len() ==> states[i + 1] == #[trigger] states[i].after(transfers[i]),
    ensures
        states.last() == states[0].after_all(transfers),
        states.last() == (ByteCounts {
            reader: states[0].reader + read_total(transfers),
            writer: states[0].writer + written_total(transfers),
        }),
    decreases transfers.len(),
{
    law_transfers_accumulate(states[0], transfers);
    if transfers.len() > 0 {
        let k = transfers.len() - 1;
        law_counter_run(states.drop_last(), transfers.drop_last());
        assert(states.drop_last().last() == states[k]);
        assert(states[k + 1] == states[k].after(transfers[k]));
    }
}

/// Every byte that passes through the wrapped object is counted, and only
/// once: over any log of calls, each consistent with what `std::io` obliges of
/// it, the tallies moved by the calls' transfers have grown by exactly the
/// bytes the reads delivered plus the bytes consumed from read buffers (the
/// reader tally) and the bytes the writes accepted (the writer tally).
pub proof fn law_log_accounts_for_tallies(start: ByteCounts, calls: Seq<IoCall>)
    requires
        forall|i: int| 0 <= i < calls.len() ==> call_consistent(#[trigger] calls[i]),
    ensures
        start.after_all(calls.map_values(|c: IoCall| transfer_of(c))) == (ByteCounts {
            reader: start.reader + received(calls).len() + consumed(calls),
            writer: start.writer + sent(calls).len(),
        }),
    decreases calls.len(),
{
    if calls.len() > 0 {
        let rest = calls.drop_last();
        let last = calls.last();
        assert forall|i: int| 0 <= i < rest.len() implies call_consistent(#[trigger] rest[i]) by {
            assert(rest[i] == calls[i]);
        }
        law_log_accounts_for_tallies(start, rest);
        assert(calls.map_values(|c: IoCall| transfer_of(c)).drop_last() =~= rest.map_values(|c: IoCall| transfer_of(c)));
        assert(call_consistent(calls[calls.len() - 1]));
    }
}

/// A tracker's transfers move only its tallies, so its expected sizes are kept
/// and its completion is that of the grown tallies.
pub proof fn law_progress_transfers(state: ProgressState, transfers: Seq<Transfer>)
    ensures
        ({
            let after = ProgressState { counts: state.counts.after_all(transfers), ..state };
            &&& after.expected_reader == state.expected_reader
            &&& after.expected_writer == state.expected_writer
            &&& after.reader_completion() == completion(state.counts.reader + read_total(transfers), state.expected_reader)
            &&& after.writer_completion() == completion(state.counts.writer + written_total(transfers), state.expected_writer)
        }),
{
    law_transfers_accumulate(state.counts, transfers);
}

/// The total grows by exactly what is read or written.
pub proof fn law_total_grows_by_each_transfer(counts: ByteCounts, n: nat)
    ensures
        counts.after_read(n).total() == counts.total() + n,
        counts.after_write(n).total() == counts.total() + n,
{
}

/// A counter made with zero tallies is one made from nothing.
pub proof fn law_zero_bytes_is_fresh()
    ensures
        (ByteCounts { reader: 0, writer: 0 }) == ByteCounts::zero(),
        ByteCounts::zero().total() == 0,
{
}

/// Nothing expected means nothing known: the completion is unknown exactly
/// when no size is expected, complete when zero bytes are expected, and
/// otherwise a fraction from zero to one.
pub proof fn law_completion_known_iff_expected(done: nat, expected: Option<usize>)
    ensures
        completion(done, expected) is None <==> expected is None,
        expected == Some(0usize) ==> completion(done, expected) == Some((1nat, 1nat)),
        completion(done, expected) matches Some((n, d)) ==> 0 < d && n <= d,
        expected matches Some(e) ==> (0 < e && done <= e ==> completion(done, expected) == Some((done, e as nat))),
        expected matches Some(e) ==> (0 < e && e < done ==> completion(done, expected) == Some((e as nat, e as nat))),
{
}

/// After a reset, a tracker that expects a positive number `e` of bytes in a
/// direction reports that none of them are done; its expectations are kept.
pub proof fn law_reset_restarts_completion(state: ProgressState, e: usize)
    ensures
        ({
            let fresh = ProgressState { counts: ByteCounts::zero(), ..state };
            &&& (state.expected_reader == Some(e) && e > 0) ==> fresh.reader_completion() == Some((0nat, e as nat))
            &&& (state.expected_writer == Some(e) && e > 0) ==> fresh.writer_completion() == Some((0nat, e as nat))
            &&& fresh.expected_reader == state.expected_reader
            &&& fresh.expected_writer == state.expected_writer
        }),
{
}

} // verus!
