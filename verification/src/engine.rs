//! The windowed measurement engine: a bounded, strictly ordered buffer of
//! recent block observations, and the exact numerator/denominator pairs of
//! the three throughput metrics derived from it.

use vstd::prelude::*;

use crate::block::BlockRecord;
use crate::block::DecodeError;

verus! {

/// One sampled block plus the local arrival time at which it was observed.
/// Arrival times are ticks of a monotonic clock chosen by the caller (the
/// application uses nanoseconds since the session started); rate math uses
/// arrival time, not the chain's own block timestamp, because the engine
/// measures observed delivery performance.
#[derive(Clone, Copy, Debug, PartialEq, Eq, Structural)]
pub struct Datapoint {
    pub arrival_time: u64,
    pub sequence_number: u64,
    pub gas_used: u64,
    pub transaction_count: u64,
    pub sub_block_fragments: u8,
}

/// The observation that recording `block` at time `now` produces, with the
/// fragment count decoded from the leading metadata byte.
pub open spec fn datapoint_of(block: BlockRecord, now: u64) -> Datapoint {
    Datapoint {
        arrival_time: now,
        sequence_number: block.sequence_number,
        gas_used: block.gas_used,
        transaction_count: block.transaction_count,
        sub_block_fragments: block.extra_data@[0],
    }
}

impl Datapoint {
    /// Sample a block observed at time `now`, decoding the sub-block
    /// fragment count from the leading metadata byte. A block without a
    /// decodable count cannot be sampled at all.
    pub fn new(block: &BlockRecord, now: u64) -> (r: Result<Datapoint, DecodeError>)
        ensures
            r is Err <==> block.extra_data@.len() == 0,
            r is Err ==> r == Result::<Datapoint, DecodeError>::Err(
                DecodeError::EmptyFragmentBuffer,
            ),
            r is Ok ==> r == Result::<Datapoint, DecodeError>::Ok(datapoint_of(*block, now)),
    {
        let frags = match block.sub_block_fragment_count() {
            Ok(f) => f,
            Err(e) => {
                return Err(e);
            },
        };
        Ok(
            Datapoint {
                arrival_time: now,
                sequence_number: block.sequence_number,
                gas_used: block.gas_used,
                transaction_count: block.transaction_count,
                sub_block_fragments: frags,
            },
        )
    }
}

/// Sequence numbers strictly increase from oldest to newest.
pub open spec fn seq_numbers_increasing(s: Seq<Datapoint>) -> bool {
    forall|i: int, j: int|
        0 <= i < j < s.len() ==> s[i].sequence_number < s[j].sequence_number
}

/// Arrival times never decrease from oldest to newest.
pub open spec fn arrival_times_ordered(s: Seq<Datapoint>) -> bool {
    forall|i: int, j: int| 0 <= i < j < s.len() ==> s[i].arrival_time <= s[j].arrival_time
}

/// Sum of the transaction counts of the buffered observations.
pub open spec fn txs_sum(s: Seq<Datapoint>) -> int
    decreases s.len(),
{
    if s.len() == 0 {
        0
    } else {
        txs_sum(s.drop_last()) + s.last().transaction_count
    }
}

/// Sum of the gas figures of the buffered observations.
pub open spec fn gas_sum(s: Seq<Datapoint>) -> int
    decreases s.len(),
{
    if s.len() == 0 {
        0
    } else {
        gas_sum(s.drop_last()) + s.last().gas_used
    }
}

/// Sum of the sub-block fragment counts of the buffered observations.
pub open spec fn frags_sum(s: Seq<Datapoint>) -> int
    decreases s.len(),
{
    if s.len() == 0 {
        0
    } else {
        frags_sum(s.drop_last()) + s.last().sub_block_fragments
    }
}

/// What one accepted-or-rejected record step does to the buffer and the
/// window anchor: a stale or duplicate sequence number changes nothing; an
/// accepted observation is appended, and when the buffer already holds
/// `cap` observations the oldest is evicted and the anchor moves to the
/// evicted observation's arrival time.
pub open spec fn step(buf: Seq<Datapoint>, start: u64, cap: u64, d: Datapoint) -> (
    Seq<Datapoint>,
    u64,
) {
    if buf.len() > 0 && buf.last().sequence_number >= d.sequence_number {
        (buf, start)
    } else if buf.len() < cap {
        (buf.push(d), start)
    } else {
        (buf.drop_first().push(d), buf[0].arrival_time)
    }
}

/// The exact numerator and denominator of one rate metric: a total over the
/// window and the elapsed ticks it was collected in. The caller divides;
/// the engine itself stays in exact integer arithmetic.
#[derive(Clone, Copy, Debug, PartialEq, Eq, Structural)]
pub struct RateSample {
    pub total: u128,
    pub elapsed_ticks: u64,
}

/// The windowed measurement engine. Owns a bounded buffer of observations,
/// oldest first, and the arrival-time anchor of the window's left edge.
pub struct Measurement {
    /// Left edge of the elapsed-time window: the arrival time of the most
    /// recently evicted observation, or the engine's creation time before
    /// any eviction has occurred.
    pub window_start: u64,
    /// The buffered observations, oldest first.
    pub buffer: Vec<Datapoint>,
    /// Maximum number of buffered observations; always greater than one.
    pub window_size: u64,
}

impl Measurement {
    /// The engine's invariant: the buffer is bounded by the window size,
    /// sequence numbers strictly increase, arrival times never decrease,
    /// and no buffered observation arrived before the window anchor.
    pub open spec fn wf(self) -> bool {
        &&& self.window_size > 1
        &&& self.buffer@.len() <= self.window_size
        &&& seq_numbers_increasing(self.buffer@)
        &&& arrival_times_ordered(self.buffer@)
        &&& forall|i: int|
            0 <= i < self.buffer@.len() ==> self.window_start <= self.buffer@[i].arrival_time
    }

    /// The newest arrival time the engine has seen: the last observation's,
    /// or the creation time while the buffer is still empty. A recorded
    /// observation must not arrive before this (the clock is monotonic).
    pub open spec fn latest_time(self) -> u64 {
        if self.buffer@.len() == 0 {
            self.window_start
        } else {
            self.buffer@.last().arrival_time
        }
    }

    /// Whether a block with this sequence number would be kept: the buffer
    /// is empty, or the number is strictly beyond the newest kept one.
    pub open spec fn accepts(self, sequence_number: u64) -> bool {
        self.buffer@.len() == 0 || self.buffer@.last().sequence_number < sequence_number
    }

    /// The elapsed-time denominator shared by all three metrics: from the
    /// window anchor to the newest observation's arrival.
    pub open spec fn elapsed(self) -> int {
        self.buffer@.last().arrival_time - self.window_start
    }

    /// Create an engine for one monitoring session. A window of zero or one
    /// observations is an invalid configuration and is excluded up front.
    pub fn new(window_size: u64, start_time: u64) -> (m: Measurement)
        requires
            window_size > 1,
        ensures
            m.wf(),
            m.window_size == window_size,
            m.window_start == start_time,
            m.buffer@.len() == 0,
    {
        Measurement { window_start: start_time, buffer: Vec::new(), window_size }
    }

    /// Record one incoming block, observed at time `now` (ticks of the
    /// caller's monotonic clock; never earlier than anything already seen).
    ///
    /// A block whose metadata buffer is empty has no decodable sub-block
    /// fragment count: the call fails and the engine is left untouched. A
    /// block whose sequence number does not strictly exceed the newest kept
    /// one is stale or a duplicate: it is silently discarded, with no
    /// change to the buffer or the window anchor. Otherwise the observation
    /// is appended; if the buffer then exceeds the window size, the oldest
    /// observation is evicted and the window anchor moves to the evicted
    /// observation's arrival time. At most one eviction occurs per call.
    pub fn record(&mut self, block: &BlockRecord, now: u64) -> (r: Result<(), DecodeError>)
        requires
            old(self).wf(),
            now >= old(self).latest_time(),
        ensures
            final(self).wf(),
            final(self).window_size == old(self).window_size,
            r is Err <==> block.extra_data@.len() == 0,
            r == Result::<(), DecodeError>::Ok(()) || r == Result::<(), DecodeError>::Err(
                DecodeError::EmptyFragmentBuffer,
            ),
            r is Err ==> final(self).buffer@ == old(self).buffer@ && final(self).window_start
                == old(self).window_start,
            r is Ok ==> (final(self).buffer@, final(self).window_start) == step(
                old(self).buffer@,
                old(self).window_start,
                old(self).window_size,
                datapoint_of(*block, now),
            ),
            !old(self).accepts(block.sequence_number) ==> final(self).buffer@ == old(
                self,
            ).buffer@ && final(self).window_start == old(self).window_start,
            r is Ok && old(self).accepts(block.sequence_number) && old(self).buffer@.len() < old(
                self,
            ).window_size ==> final(self).buffer@ == old(self).buffer@.push(
                datapoint_of(*block, now),
            ) && final(self).window_start == old(self).window_start,
            r is Ok && old(self).accepts(block.sequence_number) && old(self).buffer@.len() == old(
                self,
            ).window_size ==> final(self).buffer@ == old(self).buffer@.drop_first().push(
                datapoint_of(*block, now),
            ) && final(self).window_start == old(self).buffer@[0].arrival_time,
    {
        let d = match Datapoint::new(block, now) {
            Ok(d) => d,
            Err(e) => {
                return Err(e);
            },
        };
        if self.buffer.len() > 0 {
            let newest = self.buffer[self.buffer.len() - 1].sequence_number;
            if newest >= block.sequence_number {
                return Ok(());
            }
        }
        self.buffer.push(d);
        if (self.buffer.len() as u64) > self.window_size {
            let evicted = self.buffer.remove(0);
            self.window_start = evicted.arrival_time;
            proof {
                assert(self.buffer@ =~= old(self).buffer@.drop_first().push(d));
            }
        }
        Ok(())
    }

    /// Number of observations currently buffered.
    pub fn buffer_len(&self) -> (n: usize)
        ensures
            n == self.buffer@.len(),
    {
        self.buffer.len()
    }

    /// The elapsed-time denominator of the current window: newest arrival
    /// time minus the window anchor. Metrics may only be queried once at
    /// least one observation has been kept.
    pub fn elapsed_window(&self) -> (e: u64)
        requires
            self.wf(),
            self.buffer@.len() > 0,
        ensures
            e == self.elapsed(),
    {
        let newest = self.buffer[self.buffer.len() - 1].arrival_time;
        newest - self.window_start
    }

    /// Transactions observed over the window, with the elapsed ticks they
    /// were observed in: the exact numerator and denominator of the
    /// transactions-per-second metric. The caller performs the division.
    pub fn transaction_rate(&self) -> (r: RateSample)
        requires
            self.wf(),
            self.buffer@.len() > 0,
        ensures
            r.total == txs_sum(self.buffer@),
            r.elapsed_ticks == self.elapsed(),
    {
        RateSample { total: self.total_transactions(), elapsed_ticks: self.elapsed_window() }
    }

    /// Gas consumed over the window, with the elapsed ticks: the exact
    /// numerator and denominator of the gas-per-second metric.
    pub fn gas_rate(&self) -> (r: RateSample)
        requires
            self.wf(),
            self.buffer@.len() > 0,
        ensures
            r.total == gas_sum(self.buffer@),
            r.elapsed_ticks == self.elapsed(),
    {
        RateSample { total: self.total_gas(), elapsed_ticks: self.elapsed_window() }
    }

    /// Sub-block fragments produced over the window, with the elapsed
    /// ticks: the exact numerator and denominator of the sub-block
    /// (mini-block) rate metric.
    pub fn mini_block_rate(&self) -> (r: RateSample)
        requires
            self.wf(),
            self.buffer@.len() > 0,
        ensures
            r.total == frags_sum(self.buffer@),
            r.elapsed_ticks == self.elapsed(),
    {
        RateSample { total: self.total_mini_blocks(), elapsed_ticks: self.elapsed_window() }
    }

    /// Sum the transaction counts of all buffered observations.
    fn total_transactions(&self) -> (t: u128)
        ensures
            t == txs_sum(self.buffer@),
    {
        let mut total: u128 = 0;
        let mut i: usize = 0;
        while i < self.buffer.len()
            invariant
                0 <= i <= self.buffer@.len(),
                total == txs_sum(self.buffer@.take(i as int)),
                total <= i * (u64::MAX as int),
            decreases self.buffer@.len() - i,
        {
            proof {
                lemma_mul_bound_u64(i as int, self.buffer@.len() as int);
                assert(self.buffer@.take(i + 1).drop_last() =~= self.buffer@.take(i as int));
            }
            total = total + (self.buffer[i].transaction_count as u128);
            i = i + 1;
        }
        proof {
            assert(self.buffer@.take(self.buffer@.len() as int) =~= self.buffer@);
        }
        total
    }

    /// Sum the gas figures of all buffered observations.
    fn total_gas(&self) -> (t: u128)
        ensures
            t == gas_sum(self.buffer@),
    {
        let mut total: u128 = 0;
        let mut i: usize = 0;
        while i < self.buffer.len()
            invariant
                0 <= i <= self.buffer@.len(),
                total == gas_sum(self.buffer@.take(i as int)),
                total <= i * (u64::MAX as int),
            decreases self.buffer@.len() - i,
        {
            proof {
                lemma_mul_bound_u64(i as int, self.buffer@.len() as int);
                assert(self.buffer@.take(i + 1).drop_last() =~= self.buffer@.take(i as int));
            }
            total = total + (self.buffer[i].gas_used as u128);
            i = i + 1;
        }
        proof {
            assert(self.buffer@.take(self.buffer@.len() as int) =~= self.buffer@);
        }
        total
    }

    /// Sum the sub-block fragment counts of all buffered observations.
    fn total_mini_blocks(&self) -> (t: u128)
        ensures
            t == frags_sum(self.buffer@),
    {
        let mut total: u128 = 0;
        let mut i: usize = 0;
        while i < self.buffer.len()
            invariant
                0 <= i <= self.buffer@.len(),
                total == frags_sum(self.buffer@.take(i as int)),
                total <= i * (u64::MAX as int),
            decreases self.buffer@.len() - i,
        {
            proof {
                lemma_mul_bound_u64(i as int, self.buffer@.len() as int);
                assert(self.buffer@.take(i + 1).drop_last() =~= self.buffer@.take(i as int));
            }
            total = total + (self.buffer[i].sub_block_fragments as u128);
            i = i + 1;
        }
        proof {
            assert(self.buffer@.take(self.buffer@.len() as int) =~= self.buffer@);
        }
        total
    }
}

/// A partial sum of at most `n` 64-bit terms, with `i < n <= u64::MAX`,
/// stays clear of the `u128` range: `(i + 1) * u64::MAX` fits.
proof fn lemma_mul_bound_u64(i: int, n: int)
    requires
        0 <= i < n,
        n <= u64::MAX,
    ensures
        (i + 1) * (u64::MAX as int) <= (u64::MAX as int) * (u64::MAX as int),
        (u64::MAX as int) * (u64::MAX as int) < u128::MAX,
{
    vstd::arithmetic::mul::lemma_mul_inequality(i + 1, u64::MAX as int, u64::MAX as int);
}

} // verus!
