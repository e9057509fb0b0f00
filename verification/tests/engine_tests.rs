use block_monitor::block::BlockRecord;
use block_monitor::block::DecodeError;
use block_monitor::engine::Measurement;

const SECOND: u64 = 1_000_000_000;

fn block(seq: u64, txs: u64, gas: u64, frag: u8) -> BlockRecord {
    BlockRecord {
        sequence_number: seq,
        gas_used: gas,
        transaction_count: txs,
        extra_data: vec![frag],
    }
}

fn per_second(total: u128, elapsed_ticks: u64) -> f64 {
    total as f64 / (elapsed_ticks as f64 / SECOND as f64)
}

#[test]
fn window_fill_matches_min() {
    let mut m = Measurement::new(3, 0);
    for n in 1u64..=5 {
        let r = m.record(&block(n, 1, 1, 1), n * SECOND);
        assert!(r.is_ok());
        let expected = if n < 3 { n as usize } else { 3 };
        assert_eq!(m.buffer_len(), expected);
    }
}

#[test]
fn stale_block_leaves_state_unchanged() {
    let mut m = Measurement::new(4, 0);
    assert!(m.record(&block(10, 3, 30, 1), 1 * SECOND).is_ok());
    assert!(m.record(&block(11, 4, 40, 2), 2 * SECOND).is_ok());
    let len_before = m.buffer_len();
    let start_before = m.window_start;
    let txs_before = m.transaction_rate();
    let gas_before = m.gas_rate();

    // An older sequence number and an equal one: both silently discarded.
    assert!(m.record(&block(9, 100, 100, 100), 3 * SECOND).is_ok());
    assert!(m.record(&block(11, 100, 100, 100), 4 * SECOND).is_ok());

    assert_eq!(m.buffer_len(), len_before);
    assert_eq!(m.window_start, start_before);
    assert_eq!(m.transaction_rate(), txs_before);
    assert_eq!(m.gas_rate(), gas_before);
}

#[test]
fn eviction_anchors_window_start() {
    let mut m = Measurement::new(3, 0);
    assert!(m.record(&block(1, 1, 1, 1), 5 * SECOND).is_ok());
    assert!(m.record(&block(2, 1, 1, 1), 6 * SECOND).is_ok());
    assert!(m.record(&block(3, 1, 1, 1), 7 * SECOND).is_ok());
    assert_eq!(m.window_start, 0);
    assert_eq!(m.buffer_len(), 3);

    // The fourth record evicts exactly the oldest observation and moves the
    // window anchor to that observation's arrival time.
    assert!(m.record(&block(4, 1, 1, 1), 8 * SECOND).is_ok());
    assert_eq!(m.buffer_len(), 3);
    assert_eq!(m.window_start, 5 * SECOND);
    assert_eq!(m.buffer[0].sequence_number, 2);
}

#[test]
fn rates_are_nonnegative_and_finite() {
    let mut m = Measurement::new(5, 0);
    assert!(m.record(&block(1, 0, 0, 0), 1 * SECOND).is_ok());
    assert!(m.record(&block(2, 7, 21_000, 3), 2 * SECOND).is_ok());
    assert!(m.elapsed_window() > 0);
    for sample in [m.transaction_rate(), m.gas_rate(), m.mini_block_rate()] {
        let rate = per_second(sample.total, sample.elapsed_ticks);
        assert!(rate.is_finite());
        assert!(rate >= 0.0);
    }
}

#[test]
fn steady_state_example() {
    // Capacity 3; blocks 1,2,3,4 arrive one second apart, each with ten
    // transactions, a thousand gas and two sub-block fragments.
    let mut m = Measurement::new(3, 0);
    for n in 0u64..4 {
        let r = m.record(&block(n + 1, 10, 1000, 2), n * SECOND);
        assert!(r.is_ok());
    }
    assert_eq!(m.buffer_len(), 3);
    assert_eq!(m.buffer[0].sequence_number, 2);
    assert_eq!(m.buffer[1].sequence_number, 3);
    assert_eq!(m.buffer[2].sequence_number, 4);
    assert_eq!(m.window_start, 0);
    assert_eq!(m.elapsed_window(), 3 * SECOND);

    let tps = m.transaction_rate();
    assert_eq!(tps.total, 30);
    assert_eq!(per_second(tps.total, tps.elapsed_ticks), 10.0);

    let gas = m.gas_rate();
    assert_eq!(gas.total, 3000);
    assert_eq!(per_second(gas.total, gas.elapsed_ticks), 1000.0);

    let mini = m.mini_block_rate();
    assert_eq!(mini.total, 6);
    assert_eq!(per_second(mini.total, mini.elapsed_ticks), 2.0);
}

#[test]
fn duplicate_sequence_number_ignored() {
    let mut m = Measurement::new(2, 0);
    assert!(m.record(&block(5, 1, 1, 1), 1 * SECOND).is_ok());
    assert_eq!(m.buffer_len(), 1);
    assert!(m.record(&block(5, 1, 1, 1), 2 * SECOND).is_ok());
    assert_eq!(m.buffer_len(), 1);
}

#[test]
fn empty_fragment_buffer_is_fatal_and_mutates_nothing() {
    let mut m = Measurement::new(3, 0);
    assert!(m.record(&block(1, 2, 20, 1), 1 * SECOND).is_ok());
    let len_before = m.buffer_len();
    let start_before = m.window_start;
    let txs_before = m.transaction_rate();

    let bad = BlockRecord {
        sequence_number: 2,
        gas_used: 50,
        transaction_count: 5,
        extra_data: vec![],
    };
    let r = m.record(&bad, 2 * SECOND);
    assert_eq!(r, Err(DecodeError::EmptyFragmentBuffer));
    assert_eq!(m.buffer_len(), len_before);
    assert_eq!(m.window_start, start_before);
    assert_eq!(m.transaction_rate(), txs_before);
}

#[test]
fn metric_queries_are_idempotent() {
    let mut m = Measurement::new(4, 0);
    assert!(m.record(&block(1, 3, 300, 2), 1 * SECOND).is_ok());
    assert!(m.record(&block(2, 4, 400, 3), 3 * SECOND).is_ok());

    let t1 = m.transaction_rate();
    let t2 = m.transaction_rate();
    assert_eq!(t1, t2);
    let g1 = m.gas_rate();
    let g2 = m.gas_rate();
    assert_eq!(g1, g2);
    let s1 = m.mini_block_rate();
    let s2 = m.mini_block_rate();
    assert_eq!(s1, s2);

    // Bit-identical even after the floating-point division.
    let a = per_second(t1.total, t1.elapsed_ticks);
    let b = per_second(t2.total, t2.elapsed_ticks);
    assert_eq!(a.to_bits(), b.to_bits());
}

#[test]
fn fragment_count_is_the_leading_byte() {
    let b = BlockRecord {
        sequence_number: 1,
        gas_used: 0,
        transaction_count: 0,
        extra_data: vec![7, 9, 200],
    };
    assert_eq!(b.sub_block_fragment_count(), Ok(7));
    let empty = BlockRecord {
        sequence_number: 1,
        gas_used: 0,
        transaction_count: 0,
        extra_data: vec![],
    };
    assert_eq!(
        empty.sub_block_fragment_count(),
        Err(DecodeError::EmptyFragmentBuffer)
    );
}

#[test]
fn warm_up_window_spans_from_creation_time() {
    // Before any eviction the window anchor stays at the engine's creation
    // time, so the denominator spans creation to newest arrival.
    let mut m = Measurement::new(4, 2 * SECOND);
    assert!(m.record(&block(1, 1, 1, 1), 3 * SECOND).is_ok());
    assert!(m.record(&block(2, 1, 1, 1), 5 * SECOND).is_ok());
    assert_eq!(m.window_start, 2 * SECOND);
    assert_eq!(m.elapsed_window(), 3 * SECOND);
}
