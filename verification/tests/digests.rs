use crossbeam_channel::bounded;
use slashsum::digest::{digest_bytes, Accumulator, Algorithm};
use slashsum::pipeline::Dispatcher;
use std::sync::Arc;

#[test]
fn test_compute_hash_md5() {
    // Test MD5 with known "abc" input
    let (tx, rx) = bounded::<Arc<[u8]>>(2);

    tx.send(Arc::from([0x61u8, 0x62, 0x63])).unwrap(); // "abc"
    drop(tx);

    let mut acc = Accumulator::new(Algorithm::Md5);
    while let Ok(chunk) = rx.recv() {
        acc.ingest(&chunk);
    }
    let result = acc.finalize();

    assert_eq!(result, "900150983cd24fb0d6963f7d28e17f72");
}

#[test]
fn test_compute_hash_crc32() {
    // Test CRC32 with "Hello world!" input
    let (tx, rx) = bounded::<Arc<[u8]>>(2);

    tx.send(Arc::from(b"Hello world!".as_ref())).unwrap();
    drop(tx);

    let mut acc = Accumulator::new(Algorithm::Crc32);
    while let Ok(chunk) = rx.recv() {
        acc.ingest(&chunk);
    }
    let result = acc.finalize();

    assert_eq!(result, "1b851995");
}

#[test]
fn test_empty_input_digests() {
    // A zero-length stream yields each algorithm's well-known empty digest
    let report = Dispatcher::new().finalize_all();
    assert_eq!(report.crc32, "00000000");
    assert_eq!(report.md5, "d41d8cd98f00b204e9800998ecf8427e");
    assert_eq!(report.sha1, "da39a3ee5e6b4b0d3255bfef95601890afd80709");
    assert_eq!(
        report.sha256,
        "e3b0c44298fc1c149afbf4c8996fb92427ae41e4649b934ca495991b7852b855"
    );
    assert_eq!(
        report.sha512,
        "cf83e1357eefb8bdf1542850d66d8007d620e4050b5715dc83f4a921d36ce9ce\
         47d0d13c5d85f2b0ff8318d2877eec2f63b931bd47417a81a538327af927da3e"
    );
}

#[test]
fn test_abc_reference_digests() {
    // The bytes "abc" must produce the published reference digest of every
    // configured algorithm
    let mut fan = Dispatcher::new();
    fan.dispatch(b"abc");
    let report = fan.finalize_all();
    assert_eq!(report.crc32, "352441c2");
    assert_eq!(report.md5, "900150983cd24fb0d6963f7d28e17f72");
    assert_eq!(report.sha1, "a9993e364706816aba3e25717850c26c9cd0d89d");
    assert_eq!(
        report.sha256,
        "ba7816bf8f01cfea414140de5dae2223b00361a396177a9cb410ff61f20015ad"
    );
    assert_eq!(
        report.sha512,
        "ddaf35a193617abacc417349ae20413112e6fa4e89a97ea20a9eeee64b55d39a\
         2192992a274fc1a836ba3c23a3feebbd454d4423643ce80e2a9ac94fa54ca49f"
    );
}

#[test]
fn test_chunk_size_invariance() {
    // The digest depends on the bytes alone, not on how they were chunked
    let whole: Vec<u8> = b"Hello world!".to_vec();
    let one_chunk = digest_bytes(Algorithm::Sha256, &whole);

    let mut acc = Accumulator::new(Algorithm::Sha256);
    acc.ingest(b"Hello ");
    acc.ingest(b"world!");
    assert_eq!(acc.finalize(), one_chunk);

    let mut byte_at_a_time = Accumulator::new(Algorithm::Sha256);
    for b in &whole {
        byte_at_a_time.ingest(&[*b]);
    }
    assert_eq!(byte_at_a_time.finalize(), one_chunk);

    let mut via_ingest_all = Accumulator::new(Algorithm::Sha256);
    via_ingest_all.ingest_all(&vec![b"Hel".to_vec(), b"lo world!".to_vec()]);
    assert_eq!(via_ingest_all.finalize(), one_chunk);
}

#[test]
fn test_concatenation_law() {
    // Ingesting [A][B] equals ingesting [AB] as one chunk, for every
    // accumulator
    let mut split = Dispatcher::new();
    split.dispatch(b"Hello ");
    split.dispatch(b"world!");
    let split_report = split.finalize_all();

    let mut joined = Dispatcher::new();
    joined.dispatch(b"Hello world!");
    let joined_report = joined.finalize_all();

    assert_eq!(split_report.crc32, joined_report.crc32);
    assert_eq!(split_report.md5, joined_report.md5);
    assert_eq!(split_report.sha1, joined_report.sha1);
    assert_eq!(split_report.sha256, joined_report.sha256);
    assert_eq!(split_report.sha512, joined_report.sha512);
    assert_eq!(split_report.crc32, "1b851995");
}
