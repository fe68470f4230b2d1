//! End-to-end exercises of the library on known bytes, plus the pure
//! helpers on concrete values.

use nsis_download::byte_io::ByteSink;
use nsis_download::byte_io::ByteSource;
use nsis_download::byte_io::MemSink;
use nsis_download::byte_io::MemSource;
use nsis_download::copy::copy_with_progress;
use nsis_download::download::download;
use nsis_download::outcome::outcome_code;
use nsis_download::outcome::Outcome;
use nsis_download::progress::percent_done;
use nsis_download::progress::ProgressObserver;
use nsis_download::progress::RecordingObserver;
use nsis_download::size_hint::parse_decimal;
use nsis_download::size_hint::parse_size_hint;

use nsis_download::copy::CopyError;

/// A source whose next read always fails, as a dropped connection does.
struct FailingSource;

impl ByteSource for FailingSource {
    fn read_chunk(&mut self, _max: usize) -> Result<Vec<u8>, ()> {
        Err(())
    }
}

/// A sink that refuses every chunk, as a full disk does.
struct FailingSink;

impl ByteSink for FailingSink {
    fn write_chunk(&mut self, _chunk: &Vec<u8>) -> bool {
        false
    }
}

fn body_of(len: usize) -> Vec<u8> {
    let mut v = Vec::new();
    for i in 0..len {
        v.push((i % 251) as u8);
    }
    v
}

#[test]
fn parse_decimal_plain_values() {
    assert_eq!(parse_decimal("0"), Some(0));
    assert_eq!(parse_decimal("1024"), Some(1024));
    assert_eq!(parse_decimal("18446744073709551615"), Some(u64::MAX));
}

#[test]
fn parse_decimal_rejects_malformed() {
    assert_eq!(parse_decimal(""), None);
    assert_eq!(parse_decimal("12a"), None);
    assert_eq!(parse_decimal("chunked"), None);
    assert_eq!(parse_decimal("-1"), None);
    assert_eq!(parse_decimal(" 1024"), None);
    assert_eq!(parse_decimal("18446744073709551616"), None);
}

#[test]
fn size_hint_absent_or_malformed_degrades() {
    assert_eq!(parse_size_hint(Some("1024")).total_size, Some(1024));
    assert_eq!(parse_size_hint(Some("garbled")).total_size, None);
    assert_eq!(parse_size_hint(None).total_size, None);
}

#[test]
fn percent_handles_every_hint() {
    assert_eq!(percent_done(512, Some(1024)), Some(50));
    assert_eq!(percent_done(1024, Some(1024)), Some(100));
    assert_eq!(percent_done(0, Some(10)), Some(0));
    assert_eq!(percent_done(2048, Some(1024)), Some(100));
    assert_eq!(percent_done(512, Some(0)), None);
    assert_eq!(percent_done(512, None), None);
}

#[test]
fn status_codes_per_outcome() {
    assert_eq!(outcome_code(&Outcome::Success), 0);
    assert_eq!(outcome_code(&Outcome::IoError), 1);
    assert_eq!(outcome_code(&Outcome::TransportError), 499);
    assert_eq!(outcome_code(&Outcome::HttpStatusError(404)), 404);
    assert_eq!(outcome_code(&Outcome::HttpStatusError(503)), 503);
}

#[test]
fn two_chunk_transfer_reports_each_chunk() {
    let data = body_of(1024);
    let mut source = MemSource::new(data.clone(), 512);
    let mut sink = MemSink::new();
    let mut observer = RecordingObserver::new();
    observer.note_total_size(Some(1024));
    let r = copy_with_progress(&mut source, &mut sink, &mut observer);
    assert_eq!(r, Ok(1024));
    assert_eq!(observer.chunks, vec![512, 512]);
    assert_eq!(sink.bytes(), &data);
    assert_eq!(observer.hints, vec![Some(1024)]);
    assert_eq!(percent_done(1024, observer.hints[0]), Some(100));
}

#[test]
fn final_count_matches_destination_size() {
    let data = body_of(1000);
    let mut source = MemSource::new(data.clone(), 300);
    let mut sink = MemSink::new();
    let mut observer = RecordingObserver::new();
    let r = copy_with_progress(&mut source, &mut sink, &mut observer);
    assert_eq!(r, Ok(1000));
    assert_eq!(sink.bytes().len(), 1000);
    assert_eq!(observer.chunks, vec![300, 300, 300, 100]);
    let reported: usize = observer.chunks.iter().sum();
    assert_eq!(reported, 1000);
}

#[test]
fn empty_source_transfers_nothing() {
    let mut source = MemSource::new(Vec::new(), 512);
    let mut sink = MemSink::new();
    let mut observer = RecordingObserver::new();
    let r = copy_with_progress(&mut source, &mut sink, &mut observer);
    assert_eq!(r, Ok(0));
    assert!(observer.chunks.is_empty());
    assert!(sink.bytes().is_empty());
}

#[test]
fn missing_size_hint_still_completes() {
    let data = body_of(700);
    let mut source = MemSource::new(data.clone(), 256);
    let mut sink = MemSink::new();
    let mut observer = RecordingObserver::new();
    observer.note_total_size(None);
    let r = copy_with_progress(&mut source, &mut sink, &mut observer);
    assert_eq!(r, Ok(700));
    assert_eq!(observer.hints, vec![None]);
    assert_eq!(percent_done(700, observer.hints[0]), None);
    assert_eq!(sink.bytes(), &data);
}

#[test]
fn rerun_replaces_prior_content() {
    let first = body_of(900);
    let mut sink = MemSink::new();
    let mut observer = RecordingObserver::new();
    let mut source = MemSource::new(first, 512);
    assert_eq!(copy_with_progress(&mut source, &mut sink, &mut observer), Ok(900));
    assert_eq!(sink.bytes().len(), 900);

    let second = body_of(100);
    sink.truncate();
    let mut source = MemSource::new(second.clone(), 512);
    assert_eq!(copy_with_progress(&mut source, &mut sink, &mut observer), Ok(100));
    assert_eq!(sink.bytes(), &second);
    assert_eq!(sink.bytes().len(), 100);
}

#[test]
fn transport_failure_leaves_destination_untouched() {
    let mut sink = MemSink::new();
    let mut observer = RecordingObserver::new();
    let r = download("this is not a url", &mut sink, &mut observer);
    assert_eq!(r, Outcome::TransportError);
    assert_eq!(outcome_code(&r), 499);
    assert!(sink.bytes().is_empty());
    assert!(observer.chunks.is_empty());
    assert!(observer.hints.is_empty());
}

#[test]
fn read_failure_aborts_before_any_report() {
    let mut source = FailingSource;
    let mut sink = MemSink::new();
    let mut observer = RecordingObserver::new();
    let r = copy_with_progress(&mut source, &mut sink, &mut observer);
    assert_eq!(r, Err(CopyError::Read));
    assert!(sink.bytes().is_empty());
    assert!(observer.chunks.is_empty());
}

#[test]
fn write_failure_aborts_before_any_report() {
    let mut source = MemSource::new(body_of(100), 50);
    let mut sink = FailingSink;
    let mut observer = RecordingObserver::new();
    let r = copy_with_progress(&mut source, &mut sink, &mut observer);
    assert_eq!(r, Err(CopyError::Write));
    assert!(observer.chunks.is_empty());
}

#[test]
fn sink_accepts_chunks_in_order() {
    let mut sink = MemSink::new();
    let a = vec![1u8, 2, 3];
    let b = vec![4u8, 5];
    assert!(sink.write_chunk(&a));
    assert!(sink.write_chunk(&b));
    assert_eq!(sink.bytes(), &vec![1u8, 2, 3, 4, 5]);
}

#[test]
fn source_respects_per_read_bound() {
    let data = body_of(10);
    let mut source = MemSource::new(data.clone(), 4);
    let c1 = source.read_chunk(100).unwrap();
    let c2 = source.read_chunk(3).unwrap();
    let c3 = source.read_chunk(100).unwrap();
    let c4 = source.read_chunk(100).unwrap();
    let c5 = source.read_chunk(100).unwrap();
    assert_eq!(c1.len(), 4);
    assert_eq!(c2.len(), 3);
    assert_eq!(c3.len(), 3);
    assert!(c4.is_empty());
    assert!(c5.is_empty());
    let mut joined = Vec::new();
    joined.extend_from_slice(&c1);
    joined.extend_from_slice(&c2);
    joined.extend_from_slice(&c3);
    assert_eq!(joined, data);
}
