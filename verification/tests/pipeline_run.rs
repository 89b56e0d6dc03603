use crossbeam_channel::bounded;
use slashsum::digest::{Accumulator, Algorithm};
use slashsum::pipeline::{
    build_report, Coordinator, DigestReport, DispatchAction, Dispatcher, SourceEvent,
};
use std::sync::Arc;

#[test]
fn test_coordinator_normal_run() {
    let mut coord = Coordinator::new();
    let ev = SourceEvent::Chunk(b"abc".to_vec());
    assert!(matches!(coord.on_event(&ev), DispatchAction::Broadcast));
    assert!(!coord.may_report());
    assert!(matches!(
        coord.on_event(&SourceEvent::Eof),
        DispatchAction::CloseAll
    ));
    assert!(coord.may_report());
}

#[test]
fn test_read_error_aborts_run() {
    // An I/O failure mid-read closes the queues, fails the run, and no
    // report may be assembled afterwards
    let mut coord = Coordinator::new();
    let ev = SourceEvent::Chunk(b"partial".to_vec());
    assert!(matches!(coord.on_event(&ev), DispatchAction::Broadcast));
    assert!(matches!(
        coord.on_event(&SourceEvent::ReadError),
        DispatchAction::Abort
    ));
    assert!(!coord.may_report());
}

#[test]
fn test_backpressure_capacity_one() {
    // With queue capacity 1 and more chunks than that, the run still
    // terminates and the digests are correct: the producer simply waits for
    // the consumer. A full queue refuses a further send rather than losing
    // the chunk.
    let chunks: [&[u8]; 3] = [b"Hel", b"lo wor", b"ld!"];
    let (tx, rx) = bounded::<Arc<[u8]>>(1);
    let mut acc = Accumulator::new(Algorithm::Crc32);
    for (i, chunk) in chunks.iter().enumerate() {
        tx.send(Arc::from(*chunk)).unwrap();
        if i == 0 {
            // the queue is at capacity: another send would block
            assert!(tx.try_send(Arc::from(*chunk)).is_err());
        }
        let received = rx.recv().unwrap();
        acc.ingest(&received);
    }
    drop(tx);
    assert!(rx.recv().is_err());
    assert_eq!(acc.finalize(), "1b851995");
}

#[test]
fn test_report_text() {
    let digests = DigestReport {
        crc32: "1b851995".to_string(),
        md5: "86fb269d190d2c85f6e0468ceca42a20".to_string(),
        sha1: "d3486ae9136e7856bc42212385ea797094475802".to_string(),
        sha256: "7509e5bda0c762d2bac7f90d758b5b2263fa01ccbc542ab5e3df163be08e6ca9".to_string(),
        sha512: "f6cde2a0f819314cdde55fc227d8d7dae3d28cc556222a0a8ad66d91ccad4aad\
                 6094f517a2182360c9aacf6a3dc323162cb6fd8cdffedb0fe038f55e85ffb5b6"
            .to_string(),
    };
    let report = build_report("file.txt", 1536, &digests, "1.23ms");
    let expected = "File: file.txt\n\
                    Size:    1.50 KB (1536 bytes)\n\
                    CRC32:   1b851995\n\
                    MD5:   86fb269d190d2c85f6e0468ceca42a20\n\
                    SHA1:  d3486ae9136e7856bc42212385ea797094475802\n\
                    SHA256: 7509e5bda0c762d2bac7f90d758b5b2263fa01ccbc542ab5e3df163be08e6ca9\n\
                    SHA512: f6cde2a0f819314cdde55fc227d8d7dae3d28cc556222a0a8ad66d91ccad4aad6094f517a2182360c9aacf6a3dc323162cb6fd8cdffedb0fe038f55e85ffb5b6\n\
                    Time:  1.23ms";
    assert_eq!(report, expected);
}

#[test]
fn test_full_run_over_chunks() {
    // Coordinator and fan-out together over a three-chunk stream
    let chunks: [&[u8]; 3] = [b"Hel", b"lo wor", b"ld!"];
    let mut coord = Coordinator::new();
    let mut fan = Dispatcher::new();
    for chunk in chunks.iter() {
        let ev = SourceEvent::Chunk(chunk.to_vec());
        match coord.on_event(&ev) {
            DispatchAction::Broadcast => {
                if let SourceEvent::Chunk(bytes) = &ev {
                    fan.dispatch(bytes);
                } else {
                    unreachable!();
                }
            }
            _ => unreachable!(),
        }
    }
    coord.on_event(&SourceEvent::Eof);
    assert!(coord.may_report());
    let report = fan.finalize_all();
    assert_eq!(report.crc32, "1b851995");
    assert_eq!(report.md5, "86fb269d190d2c85f6e0468ceca42a20");
}
