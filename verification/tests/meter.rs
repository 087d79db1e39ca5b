//! Tests of the counter, the reader bookkeeping, the reporter, and the
//! liveness check.

use std::sync::mpsc;

use stream_meter::counter::SharedCounter;
use stream_meter::is_read_thread_alive;
use stream_meter::liveness::WaitOutcome;
use stream_meter::liveness::reader_alive_after;
use stream_meter::reader::ReadOutcome;
use stream_meter::reader::ReaderAction;
use stream_meter::reader::StreamReader;
use stream_meter::reader::chunk_prefix;
use stream_meter::reader::reader_step;
use stream_meter::reporter::ReporterAction;
use stream_meter::reporter::StatsReporter;
use stream_meter::reporter::final_summary;
use stream_meter::reporter::periodic_line;
use stream_meter::reporter::rate_bytes_per_second;
use stream_meter::reporter::reporter_step;
use stream_meter::reporter::waiting_nanos;

#[test]
fn counter_sums_reads() {
    let mut counter = SharedCounter::new();
    assert_eq!(counter.current(), 0);
    let reads: Vec<usize> = vec![4096, 4096, 1808, 0, 17];
    for &n in &reads {
        counter.record_read(n);
    }
    assert_eq!(counter.current(), 10017);
    // Reading the counter does not change it.
    assert_eq!(counter.current(), 10017);
}

#[test]
fn reader_step_decisions() {
    assert_eq!(reader_step(&ReadOutcome::Bytes(0)), ReaderAction::Stop);
    assert_eq!(reader_step(&ReadOutcome::Bytes(1)), ReaderAction::Process(1));
    assert_eq!(reader_step(&ReadOutcome::Bytes(4096)), ReaderAction::Process(4096));
    assert_eq!(reader_step(&ReadOutcome::Failed), ReaderAction::Stop);
}

#[test]
fn chunk_prefix_takes_filled_part() {
    let buf: Vec<u8> = vec![10, 20, 30, 40, 50];
    assert_eq!(chunk_prefix(&buf, 0), Vec::<u8>::new());
    assert_eq!(chunk_prefix(&buf, 3), vec![10, 20, 30]);
    assert_eq!(chunk_prefix(&buf, 5), vec![10, 20, 30, 40, 50]);
}

#[test]
fn forwarding_copies_every_chunk() {
    let mut reader = StreamReader::new(true);
    let mut counter = SharedCounter::new();
    let first: Vec<u8> = vec![1, 2, 3];
    let second: Vec<u8> = vec![4, 5];
    let out_first = reader.process_chunk(&first, &mut counter);
    let out_second = reader.process_chunk(&second, &mut counter);
    assert_eq!(out_first, Some(vec![1, 2, 3]));
    assert_eq!(out_second, Some(vec![4, 5]));
    assert_eq!(counter.current(), 5);
}

#[test]
fn no_forwarding_emits_nothing() {
    let mut reader = StreamReader::new(false);
    let mut counter = SharedCounter::new();
    let chunk: Vec<u8> = vec![9; 4096];
    let out = reader.process_chunk(&chunk, &mut counter);
    assert_eq!(out, None);
    assert_eq!(counter.current(), 4096);
}

#[test]
fn reporter_deltas_cover_total() {
    let mut reporter = StatsReporter::new(false);
    let mut counter = SharedCounter::new();
    counter.record_read(3000);
    let d1 = reporter.sample(counter.current());
    counter.record_read(4000);
    let d2 = reporter.sample(counter.current());
    counter.record_read(3000);
    let total = counter.current();
    let final_delta = reporter.sample(total);
    assert_eq!(d1, 3000);
    assert_eq!(d2, 4000);
    assert_eq!(final_delta, 3000);
    assert_eq!(d1 + d2 + final_delta, total);
}

#[test]
fn reporter_step_decisions() {
    assert_eq!(reporter_step(true, false), ReporterAction::Report);
    assert_eq!(reporter_step(true, true), ReporterAction::KeepWaiting);
    assert_eq!(reporter_step(false, false), ReporterAction::Finish);
    assert_eq!(reporter_step(false, true), ReporterAction::Finish);
}

#[test]
fn rate_is_bytes_per_second() {
    // 4096 bytes in exactly one second.
    assert_eq!(rate_bytes_per_second(4096, 1_000_000_000), 4096);
    // 1000 bytes in half a second: 2000 bytes per second.
    assert_eq!(rate_bytes_per_second(1000, 500_000_000), 2000);
    // Truncation, not rounding: 999 bytes over 2 seconds.
    assert_eq!(rate_bytes_per_second(999, 2_000_000_000), 499);
}

#[test]
fn rate_guards_zero_elapsed() {
    assert_eq!(rate_bytes_per_second(12345, 0), 0);
}

#[test]
fn rate_saturates() {
    assert_eq!(rate_bytes_per_second(usize::MAX, 1), usize::MAX);
}

#[test]
fn waiting_time_adds_sampling_delay() {
    // A one-second interval plus three milliseconds spent on the lock.
    assert_eq!(waiting_nanos(1000, 3_000_000), 1_003_000_000);
    // Saturation instead of overflow.
    assert_eq!(waiting_nanos(u64::MAX, u64::MAX), u64::MAX);
}

#[test]
fn periodic_line_format() {
    assert_eq!(periodic_line(4096), "4.00 KiB/s");
    assert_eq!(periodic_line(0), "0.00 bytes/s");
}

#[test]
fn final_summary_single_chunk_scenario() {
    // 10,000 bytes fed as a single chunk, block size 4096, forwarding
    // disabled, quiet: the final block reports 9.77 KiB.
    let mut reader = StreamReader::new(false);
    let mut counter = SharedCounter::new();
    let input: Vec<u8> = vec![0; 10000];
    let mut offset = 0;
    while offset < input.len() {
        let end = (offset + 4096).min(input.len());
        let chunk = input[offset..end].to_vec();
        let out = reader.process_chunk(&chunk, &mut counter);
        assert_eq!(out, None);
        offset = end;
    }
    assert_eq!(counter.current(), 10000);
    let summary = final_summary(counter.current(), 1_000_000_000);
    assert_eq!(
        summary,
        "\nFinished!\nTotal data: 9.77 KiB\nAverage speed: 9.77 KiB/s\n"
    );
}

#[test]
fn final_summary_empty_stream_scenario() {
    // An immediately ended stream: zero bytes, and a near-zero elapsed time
    // must not fault; the average falls back to zero.
    let summary = final_summary(0, 0);
    assert_eq!(
        summary,
        "\nFinished!\nTotal data: 0.00 bytes\nAverage speed: 0.00 bytes/s\n"
    );
}

#[test]
fn final_summary_interrupt_scenario() {
    // An interrupt after 5,000 bytes: the final block reports 4.88 KiB.
    let mut counter = SharedCounter::new();
    counter.record_read(5000);
    let summary = final_summary(counter.current(), 2_000_000_000);
    assert!(summary.contains("Total data: 4.88 KiB"), "summary was {:?}", summary);
    assert!(summary.contains("Average speed: 2.44 KiB/s"), "summary was {:?}", summary);
}

#[test]
fn wait_outcome_reading() {
    assert!(reader_alive_after(&WaitOutcome::TimedOut));
    assert!(!reader_alive_after(&WaitOutcome::Received));
    assert!(!reader_alive_after(&WaitOutcome::Disconnected));
}

#[test]
fn liveness_times_out_while_sender_lives() {
    let (tx, rx) = mpsc::channel::<()>();
    // The sender is alive and silent: the wait times out, the reader counts
    // as alive.
    assert!(is_read_thread_alive(&rx, 1));
    drop(tx);
}

#[test]
fn liveness_sees_closed_channel() {
    let (tx, rx) = mpsc::channel::<()>();
    drop(tx);
    // The channel is closed: the reader has finished.
    assert!(!is_read_thread_alive(&rx, 1));
}

#[test]
fn liveness_sees_message() {
    let (tx, rx) = mpsc::channel::<()>();
    tx.send(()).unwrap();
    assert!(!is_read_thread_alive(&rx, 1));
}
