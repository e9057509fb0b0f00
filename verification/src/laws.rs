//! Window-level properties of the engine, stated over the step relation of
//! `record` and proved once and for all.

use vstd::prelude::*;

use crate::engine::Datapoint;
use crate::engine::Measurement;
use crate::engine::RateSample;
use crate::engine::frags_sum;
use crate::engine::gas_sum;
use crate::engine::seq_numbers_increasing;
use crate::engine::step;
use crate::engine::txs_sum;

verus! {

/// The buffer and window anchor an engine reaches after recording the
/// observations of `ds` in order: `step` folded over the sequence.
pub open spec fn run(buf: Seq<Datapoint>, start: u64, cap: u64, ds: Seq<Datapoint>) -> (
    Seq<Datapoint>,
    u64,
)
    decreases ds.len(),
{
    if ds.len() == 0 {
        (buf, start)
    } else {
        let next = step(buf, start, cap, ds.first());
        run(next.0, next.1, cap, ds.drop_first())
    }
}

/// When the incoming observations carry strictly increasing sequence
/// numbers (all beyond what the buffer already holds), every one of them is
/// kept, so the buffer grows by one per record until it is full and then
/// stays at the window size: its final length is the smaller of
/// `buf.len() + ds.len()` and `cap`.
pub proof fn lemma_window_fill(buf: Seq<Datapoint>, start: u64, cap: u64, ds: Seq<Datapoint>)
    requires
        cap > 1,
        buf.len() <= cap,
        seq_numbers_increasing(ds),
        buf.len() > 0 && ds.len() > 0 ==> buf.last().sequence_number
            < ds.first().sequence_number,
    ensures
        run(buf, start, cap, ds).0.len() == if buf.len() + ds.len() <= cap {
            (buf.len() + ds.len()) as int
        } else {
            cap as int
        },
    decreases ds.len(),
{
    if ds.len() > 0 {
        let d = ds.first();
        let rest = ds.drop_first();
        let next = step(buf, start, cap, d);
        assert(next.0.last() == d);
        assert forall|i: int, j: int| 0 <= i < j < rest.len() implies rest[i].sequence_number
            < rest[j].sequence_number by {
            assert(rest[i] == ds[i + 1]);
            assert(rest[j] == ds[j + 1]);
        }
        if rest.len() > 0 {
            assert(rest.first() == ds[1]);
        }
        lemma_window_fill(next.0, next.1, cap, rest);
    }
}

/// The same law started from a fresh engine: after `N` records with
/// strictly increasing sequence numbers the buffer holds `min(N, cap)`
/// observations.
pub proof fn lemma_window_fill_from_empty(start: u64, cap: u64, ds: Seq<Datapoint>)
    requires
        cap > 1,
        seq_numbers_increasing(ds),
    ensures
        run(Seq::empty(), start, cap, ds).0.len() == if ds.len() <= cap {
            ds.len() as int
        } else {
            cap as int
        },
{
    lemma_window_fill(Seq::empty(), start, cap, ds);
}

/// Every metric numerator is a sum of unsigned quantities and therefore
/// never negative. Together with a positive elapsed window this is the
/// integer half of the guarantee that the derived rates are non-negative
/// and well-defined; the floating-point division itself happens outside
/// the engine.
pub proof fn lemma_totals_nonnegative(s: Seq<Datapoint>)
    ensures
        txs_sum(s) >= 0,
        gas_sum(s) >= 0,
        frags_sum(s) >= 0,
    decreases s.len(),
{
    if s.len() > 0 {
        lemma_totals_nonnegative(s.drop_last());
    }
}

/// Metric queries are idempotent: two samples of the same metric taken
/// from the same engine state, with no record in between, are equal in
/// every field, so repeated queries return identical results.
pub proof fn lemma_metric_query_idempotent(m: Measurement, a: RateSample, b: RateSample)
    requires
        (a.total == txs_sum(m.buffer@) && b.total == txs_sum(m.buffer@)) || (a.total == gas_sum(
            m.buffer@,
        ) && b.total == gas_sum(m.buffer@)) || (a.total == frags_sum(m.buffer@) && b.total
            == frags_sum(m.buffer@)),
        a.elapsed_ticks == m.elapsed(),
        b.elapsed_ticks == m.elapsed(),
    ensures
        a == b,
{
}

} // verus!
