use serve_core::decimal::u64_to_decimal;
use serve_core::epoch::{sandbox_expired, EpochTicker, TickerState};
use serve_core::logstream::{LogWriter, StreamKind};
use serve_core::sandbox::{memory_growing, table_growing, SandboxUsage};
use serve_core::config::LimitPolicy;
use serve_core::{ticker_interval, EPOCH_PRECISION};

#[test]
fn decimal_rendering_is_exact() {
    assert_eq!(u64_to_decimal(0), b"0".to_vec());
    assert_eq!(u64_to_decimal(7), b"7".to_vec());
    assert_eq!(u64_to_decimal(42), b"42".to_vec());
    assert_eq!(u64_to_decimal(1_000), b"1000".to_vec());
    assert_eq!(
        u64_to_decimal(u64::MAX),
        b"18446744073709551615".to_vec()
    );
}

#[test]
fn complete_lines_are_prefixed() {
    let mut w = LogWriter::new(StreamKind::Stdout, 7);
    let out = w.write(b"hello\nworld\n");
    assert_eq!(out, b"stdout [7] :: hello\nstdout [7] :: world\n".to_vec());
}

#[test]
fn stderr_prefix_names_the_stream() {
    let mut w = LogWriter::new(StreamKind::Stderr, 31);
    let out = w.write(b"oops\n");
    assert_eq!(out, b"stderr [31] :: oops\n".to_vec());
}

#[test]
fn empty_fragments_are_suppressed() {
    let mut w = LogWriter::new(StreamKind::Stdout, 1);
    let out = w.write(b"\n\na\n\n");
    assert_eq!(out, b"stdout [1] :: a\n".to_vec());
}

#[test]
fn partial_line_is_not_flushed() {
    let mut w = LogWriter::new(StreamKind::Stdout, 2);
    let out = w.write(b"no terminator");
    assert_eq!(out, Vec::<u8>::new());
}

#[test]
fn partial_line_is_completed_by_the_next_write() {
    let mut w = LogWriter::new(StreamKind::Stdout, 3);
    let first = w.write(b"par");
    assert_eq!(first, Vec::<u8>::new());
    let second = w.write(b"tial\nrest");
    assert_eq!(second, b"stdout [3] :: partial\n".to_vec());
    let third = w.write(b"\n");
    assert_eq!(third, b"stdout [3] :: rest\n".to_vec());
}

#[test]
fn empty_write_emits_nothing() {
    let mut w = LogWriter::new(StreamKind::Stdout, 4);
    assert_eq!(w.write(b""), Vec::<u8>::new());
}

#[test]
fn writers_of_two_sandboxes_emit_whole_distinct_lines() {
    let mut a = LogWriter::new(StreamKind::Stdout, 10);
    let mut b = LogWriter::new(StreamKind::Stdout, 11);
    let out_a = a.write(b"from a\n");
    let out_b = b.write(b"from b\n");
    assert_eq!(out_a, b"stdout [10] :: from a\n".to_vec());
    assert_eq!(out_b, b"stdout [11] :: from b\n".to_vec());
    // Each chunk is a whole number of prefixed lines, so interleaving
    // whole chunks can never split a line.
    assert!(out_a.ends_with(b"\n"));
    assert!(out_b.ends_with(b"\n"));
    assert!(out_a.starts_with(b"stdout [10] :: "));
    assert!(out_b.starts_with(b"stdout [11] :: "));
}

#[test]
fn ticker_lifecycle_and_deadline_budget() {
    let mut t = EpochTicker::new();
    assert_eq!(t.current_state(), TickerState::Idle);
    t.start();
    assert_eq!(t.current_state(), TickerState::Running);
    t.tick();
    t.tick();
    assert_eq!(t.current_epoch(), 2);
    let deadline = t.sandbox_deadline();
    assert_eq!(deadline, 2 + EPOCH_PRECISION + 1);
    t.stop();
    assert_eq!(t.current_state(), TickerState::Stopped);
    assert_eq!(t.current_epoch(), 2);
}

#[test]
fn deadline_of_one_unit_expires_within_one_tenth_extra() {
    // A deadline of one time unit (1000 ms) with precision 10 means
    // 100 ms ticks and a budget of 11 ticks: the sandbox is interrupted
    // by 1100 ms = 1 + 1/10 time units, and never before 1000 ms.
    let interval = ticker_interval(1_000);
    assert_eq!(interval, 100);
    let budget = EPOCH_PRECISION + 1;
    assert!(budget * interval <= 1_000 + 1_000 / 10);
    assert!(EPOCH_PRECISION * interval >= 1_000);
    assert!(!sandbox_expired(10, 11));
    assert!(sandbox_expired(11, 11));
    assert!(sandbox_expired(12, 11));
}

#[test]
fn growth_beyond_ceiling_fails_only_that_operation() {
    let policy = LimitPolicy {
        max_memory_bytes: Some(4_096),
        max_table_elements: Some(10),
    };
    let mut a = SandboxUsage { policy, memory_size: 0, table_elements: 0 };
    let mut b = SandboxUsage { policy, memory_size: 64, table_elements: 2 };
    assert!(memory_growing(&mut a, 4_096));
    assert_eq!(a.memory_size, 4_096);
    // Sandbox a violates its ceiling: only its own operation fails.
    assert!(!memory_growing(&mut a, 4_097));
    assert_eq!(a.memory_size, 4_096);
    // Sandbox b is unaffected and keeps growing.
    assert!(memory_growing(&mut b, 128));
    assert_eq!(b.memory_size, 128);
    assert!(table_growing(&mut b, 10));
    assert!(!table_growing(&mut b, 11));
    assert_eq!(b.table_elements, 10);
}

#[test]
fn unlimited_policy_allows_any_growth() {
    let mut u = SandboxUsage {
        policy: LimitPolicy { max_memory_bytes: None, max_table_elements: None },
        memory_size: 0,
        table_elements: 0,
    };
    assert!(memory_growing(&mut u, u64::MAX));
    assert_eq!(u.memory_size, u64::MAX);
}
