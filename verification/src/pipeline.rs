//! Pipeline coordination.
//!
//! The coordinator drives one run: while streaming, every chunk read is
//! broadcast to every delivery queue, in the fixed algorithm order; end of
//! stream closes all queues so the workers drain and finalize; a read
//! failure also closes all queues — so no worker blocks forever — but marks
//! the run failed, and a failed run never yields a report. The byte stream
//! seen so far is carried as ghost state, so the caller can connect what it
//! broadcast with what the accumulators ingested.

use vstd::prelude::*;
use crate::digest::{Accumulator, Algorithm, spec_digest};
use crate::size::spec_format_size;
use crate::size::format_size;

verus! {

/// What the chunk source produced next.
pub enum SourceEvent {
    /// A chunk of bytes was read; never empty for a well-formed source.
    Chunk(Vec<u8>),
    /// The source is exhausted: a zero-length read.
    Eof,
    /// The underlying read failed; the run must abort.
    ReadError,
}

/// What the caller must now do with the delivery queues.
pub enum DispatchAction {
    /// Enqueue the chunk onto every delivery queue, in the fixed algorithm
    /// order, blocking on each full queue.
    Broadcast,
    /// Close every delivery queue: the workers drain what is queued, then
    /// finalize.
    CloseAll,
    /// Close every delivery queue and discard the workers' results: the run
    /// failed and reports nothing.
    Abort,
}

/// Where a run stands.
#[derive(Clone, Copy, PartialEq, Eq, Structural)]
pub enum Phase {
    /// Chunks are still being read and broadcast.
    Streaming,
    /// The source was drained completely; results may be reported.
    Done,
    /// A read failed; nothing may be reported.
    Failed,
}

/// The coordinator of one pipeline run.
pub struct Coordinator {
    /// Where the run stands.
    pub phase: Phase,
    /// Every byte handed out for broadcast so far, in order.
    pub stream: Ghost<Seq<u8>>,
}

impl Coordinator {
    /// A fresh run: streaming, nothing broadcast yet.
    pub fn new() -> (r: Coordinator)
        ensures
            r.phase is Streaming,
            r.stream@ == Seq::<u8>::empty(),
    {
        Coordinator { phase: Phase::Streaming, stream: Ghost(Seq::empty()) }
    }

    /// Decides what to do with the next source event. A chunk is broadcast
    /// and extends the stream; end of stream closes the queues and completes
    /// the run; a read failure closes the queues and fails the run.
    pub fn on_event(&mut self, event: &SourceEvent) -> (a: DispatchAction)
        requires
            old(self).phase is Streaming,
        ensures
            match event {
                SourceEvent::Chunk(c) => {
                    &&& a is Broadcast
                    &&& final(self).phase is Streaming
                    &&& final(self).stream@ == old(self).stream@ + c@
                },
                SourceEvent::Eof => {
                    &&& a is CloseAll
                    &&& final(self).phase is Done
                    &&& final(self).stream@ == old(self).stream@
                },
                SourceEvent::ReadError => {
                    &&& a is Abort
                    &&& final(self).phase is Failed
                    &&& final(self).stream@ == old(self).stream@
                },
            },
    {
        match event {
            SourceEvent::Chunk(c) => {
                proof {
                    self.stream@ = self.stream@ + c@;
                }
                DispatchAction::Broadcast
            },
            SourceEvent::Eof => {
                self.phase = Phase::Done;
                DispatchAction::CloseAll
            },
            SourceEvent::ReadError => {
                self.phase = Phase::Failed;
                DispatchAction::Abort
            },
        }
    }

    /// A report may be assembled only for a run that drained its source
    /// completely: a failed or still-streaming run reports nothing.
    pub fn may_report(&self) -> (b: bool)
        ensures
            b == (self.phase is Done),
    {
        matches!(self.phase, Phase::Done)
    }
}

/// The fan-out of one byte stream to every configured accumulator: each
/// chunk is delivered to all five, unmodified, exactly once, in the fixed
/// algorithm order, so all five always agree on the stream seen so far.
pub struct Dispatcher {
    /// The CRC-32 accumulator.
    pub crc32: Accumulator,
    /// The MD5 accumulator.
    pub md5: Accumulator,
    /// The SHA-1 accumulator.
    pub sha1: Accumulator,
    /// The SHA-256 accumulator.
    pub sha256: Accumulator,
    /// The SHA-512 accumulator.
    pub sha512: Accumulator,
}

impl Dispatcher {
    /// Every accumulator computes its own algorithm and has seen exactly the
    /// same bytes.
    pub open spec fn wf(&self) -> bool {
        &&& self.crc32.algorithm is Crc32
        &&& self.md5.algorithm is Md5
        &&& self.sha1.algorithm is Sha1
        &&& self.sha256.algorithm is Sha256
        &&& self.sha512.algorithm is Sha512
        &&& self.md5.data@ == self.crc32.data@
        &&& self.sha1.data@ == self.crc32.data@
        &&& self.sha256.data@ == self.crc32.data@
        &&& self.sha512.data@ == self.crc32.data@
    }

    /// The byte stream every accumulator has seen, in order.
    pub open spec fn stream(&self) -> Seq<u8> {
        self.crc32.data@
    }

    /// A fresh fan-out over the five configured algorithms.
    pub fn new() -> (r: Dispatcher)
        ensures
            r.wf(),
            r.stream() == Seq::<u8>::empty(),
    {
        Dispatcher {
            crc32: Accumulator::new(Algorithm::Crc32),
            md5: Accumulator::new(Algorithm::Md5),
            sha1: Accumulator::new(Algorithm::Sha1),
            sha256: Accumulator::new(Algorithm::Sha256),
            sha512: Accumulator::new(Algorithm::Sha512),
        }
    }

    /// Delivers one chunk to every accumulator, unmodified, in the fixed
    /// algorithm order.
    pub fn dispatch(&mut self, chunk: &[u8])
        requires
            old(self).wf(),
        ensures
            final(self).wf(),
            final(self).stream() == old(self).stream() + chunk@,
    {
        self.crc32.ingest(chunk);
        self.md5.ingest(chunk);
        self.sha1.ingest(chunk);
        self.sha256.ingest(chunk);
        self.sha512.ingest(chunk);
    }

    /// Finalizes every accumulator once, in the fixed display order: each
    /// digest is the one its algorithm assigns to the whole stream.
    pub fn finalize_all(self) -> (r: DigestReport)
        requires
            self.wf(),
        ensures
            r.crc32@ == spec_digest(Algorithm::Crc32, self.stream()),
            r.md5@ == spec_digest(Algorithm::Md5, self.stream()),
            r.sha1@ == spec_digest(Algorithm::Sha1, self.stream()),
            r.sha256@ == spec_digest(Algorithm::Sha256, self.stream()),
            r.sha512@ == spec_digest(Algorithm::Sha512, self.stream()),
    {
        DigestReport {
            crc32: self.crc32.finalize(),
            md5: self.md5.finalize(),
            sha1: self.sha1.finalize(),
            sha256: self.sha256.finalize(),
            sha512: self.sha512.finalize(),
        }
    }
}

/// The digest strings of one completed run, in the fixed display order.
pub struct DigestReport {
    /// CRC-32 (ISO-HDLC), eight hexadecimal digits.
    pub crc32: String,
    /// MD5, 32 hexadecimal digits.
    pub md5: String,
    /// SHA-1, 40 hexadecimal digits.
    pub sha1: String,
    /// SHA-256, 64 hexadecimal digits.
    pub sha256: String,
    /// SHA-512, 128 hexadecimal digits.
    pub sha512: String,
}

/// The exact text of the report for the given file path, size, digests and
/// elapsed-time rendering.
pub open spec fn spec_report(
    path: Seq<char>,
    size_bytes: nat,
    crc32: Seq<char>,
    md5: Seq<char>,
    sha1: Seq<char>,
    sha256: Seq<char>,
    sha512: Seq<char>,
    elapsed: Seq<char>,
) -> Seq<char> {
    "File: "@ + path + "\nSize:    "@ + spec_format_size(size_bytes) + "\nCRC32:   "@ + crc32
        + "\nMD5:   "@ + md5 + "\nSHA1:  "@ + sha1 + "\nSHA256: "@ + sha256 + "\nSHA512: "@
        + sha512 + "\nTime:  "@ + elapsed
}

/// Assembles the report text: file path, human-readable size with the exact
/// byte count, each digest in the fixed display order, and the elapsed time
/// as the caller rendered it.
pub fn build_report(path: &str, size_bytes: u64, digests: &DigestReport, elapsed: &str) -> (r:
    String)
    ensures
        r@ == spec_report(
            path@,
            size_bytes as nat,
            digests.crc32@,
            digests.md5@,
            digests.sha1@,
            digests.sha256@,
            digests.sha512@,
            elapsed@,
        ),
{
    let mut s = String::new();
    s.append("File: ");
    s.append(path);
    s.append("\nSize:    ");
    let size_str = format_size(size_bytes);
    s.append(size_str.as_str());
    s.append("\nCRC32:   ");
    s.append(digests.crc32.as_str());
    s.append("\nMD5:   ");
    s.append(digests.md5.as_str());
    s.append("\nSHA1:  ");
    s.append(digests.sha1.as_str());
    s.append("\nSHA256: ");
    s.append(digests.sha256.as_str());
    s.append("\nSHA512: ");
    s.append(digests.sha512.as_str());
    s.append("\nTime:  ");
    s.append(elapsed);
    proof {
        assert(s@ =~= spec_report(
            path@,
            size_bytes as nat,
            digests.crc32@,
            digests.md5@,
            digests.sha1@,
            digests.sha256@,
            digests.sha512@,
            elapsed@,
        ));
    }
    s
}

} // verus!
