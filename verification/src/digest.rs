//! Streaming digest accumulators.
//!
//! One accumulator per algorithm ingests the byte stream chunk by chunk, in
//! emission order, and finalizes once into the digest string the report
//! shows. The digest of a stream is a function of the concatenation of the
//! ingested chunks alone, so any chunking of the same bytes yields the same
//! digest.

use vstd::prelude::*;
use crate::numfmt::{hex_fixed, hex_bytes};

verus! {

/// The configured digest algorithms, in their fixed display order.
#[derive(Clone, Copy, PartialEq, Eq, Structural)]
pub enum Algorithm {
    Crc32,
    Md5,
    Sha1,
    Sha256,
    Sha512,
}

/// The CRC-32 (ISO-HDLC) checksum of a byte string.
pub uninterp spec fn crc32_of(data: Seq<u8>) -> u32;

/// The 16-byte MD5 digest of a byte string.
pub uninterp spec fn md5_of(data: Seq<u8>) -> Seq<u8>;

/// The 20-byte SHA-1 digest of a byte string.
pub uninterp spec fn sha1_of(data: Seq<u8>) -> Seq<u8>;

/// The 32-byte SHA-256 digest of a byte string.
pub uninterp spec fn sha256_of(data: Seq<u8>) -> Seq<u8>;

/// The 64-byte SHA-512 digest of a byte string.
pub uninterp spec fn sha512_of(data: Seq<u8>) -> Seq<u8>;

/// The digest string shown for `alg` over the byte stream `data`: lowercase
/// hexadecimal, zero-padded to eight digits for the checksum and to twice
/// the digest size for the hash families.
pub open spec fn spec_digest(alg: Algorithm, data: Seq<u8>) -> Seq<char> {
    match alg {
        Algorithm::Crc32 => hex_fixed(crc32_of(data) as nat, 8),
        Algorithm::Md5 => hex_bytes(md5_of(data)),
        Algorithm::Sha1 => hex_bytes(sha1_of(data)),
        Algorithm::Sha256 => hex_bytes(sha256_of(data)),
        Algorithm::Sha512 => hex_bytes(sha512_of(data)),
    }
}

/// How many characters each algorithm's digest string has: eight for the
/// 32-bit checksum, twice the digest's byte size for the hash families.
pub open spec fn digest_width(alg: Algorithm) -> nat {
    match alg {
        Algorithm::Crc32 => 8,
        Algorithm::Md5 => 32,
        Algorithm::Sha1 => 40,
        Algorithm::Sha256 => 64,
        Algorithm::Sha512 => 128,
    }
}

/// The concatenation of a sequence of chunks, in order.
pub open spec fn concat_chunks(chunks: Seq<Seq<u8>>) -> Seq<u8>
    decreases chunks.len(),
{
    if chunks.len() == 0 {
        Seq::empty()
    } else {
        concat_chunks(chunks.drop_last()) + chunks.last()
    }
}

/// Per-algorithm streaming state: the algorithm's identity and the bytes
/// ingested so far, in order. Finalizing consumes the state, so it can
/// happen only once.
pub struct Accumulator {
    /// Which digest this accumulator computes.
    pub algorithm: Algorithm,
    /// Every byte ingested so far, in emission order.
    pub data: Vec<u8>,
}

impl Accumulator {
    /// A fresh accumulator that has seen no bytes.
    pub fn new(algorithm: Algorithm) -> (r: Accumulator)
        ensures
            r.algorithm == algorithm,
            r.data@ == Seq::<u8>::empty(),
    {
        Accumulator { algorithm, data: Vec::new() }
    }

    /// Ingests the next chunk: the state afterwards holds the same bytes
    /// with the chunk appended, and the algorithm is unchanged.
    pub fn ingest(&mut self, chunk: &[u8])
        ensures
            final(self).algorithm == old(self).algorithm,
            final(self).data@ == old(self).data@ + chunk@,
    {
        self.data.extend_from_slice(chunk);
        proof {
            assert(self.data@ =~= old(self).data@ + chunk@);
        }
    }

    /// Ingests every chunk in order: the buffer afterwards holds the
    /// previous bytes followed by the concatenation of all the chunks, so
    /// the digest to come depends on the bytes alone, not on how they were
    /// cut into chunks.
    pub fn ingest_all(&mut self, chunks: &Vec<Vec<u8>>)
        ensures
            final(self).algorithm == old(self).algorithm,
            final(self).data@ == old(self).data@ + concat_chunks(chunks.deep_view()),
    {
        let ghost cs = chunks.deep_view();
        let mut i: usize = 0;
        while i < chunks.len()
            invariant
                cs == chunks.deep_view(),
                cs.len() == chunks@.len(),
                i <= cs.len(),
                self.algorithm == old(self).algorithm,
                self.data@ == old(self).data@ + concat_chunks(cs.subrange(0, i as int)),
            decreases cs.len() - i,
        {
            proof {
                assert(cs[i as int] == chunks@[i as int]@);
            }
            self.ingest(chunks[i].as_slice());
            proof {
                let pre = cs.subrange(0, i as int);
                let cur = cs.subrange(0, i + 1);
                assert(cur.drop_last() =~= pre);
                assert(cur.last() == cs[i as int]);
                assert(self.data@ =~= old(self).data@ + concat_chunks(cur));
            }
            i = i + 1;
        }
        proof {
            assert(cs.subrange(0, cs.len() as int) =~= cs);
        }
    }

    /// The digest string of everything ingested, in ingestion order.
    pub fn finalize(self) -> (r: String)
        ensures
            r@ == spec_digest(self.algorithm, self.data@),
            r@.len() == digest_width(self.algorithm),
    {
        digest_bytes(self.algorithm, &self.data)
    }
}

/// The digest string of `data` under `alg`, computed in one pass.
pub fn digest_bytes(alg: Algorithm, data: &Vec<u8>) -> (r: String)
    ensures
        r@ == spec_digest(alg, data@),
        r@.len() == digest_width(alg),
{
    proof {
        match alg {
            Algorithm::Crc32 => crate::numfmt::lemma_hex_fixed_len(crc32_of(data@) as nat, 8),
            Algorithm::Md5 => crate::numfmt::lemma_hex_bytes_len(md5_of(data@)),
            Algorithm::Sha1 => crate::numfmt::lemma_hex_bytes_len(sha1_of(data@)),
            Algorithm::Sha256 => crate::numfmt::lemma_hex_bytes_len(sha256_of(data@)),
            Algorithm::Sha512 => crate::numfmt::lemma_hex_bytes_len(sha512_of(data@)),
        }
    }
    match alg {
        Algorithm::Crc32 => crate::numfmt::u32_to_hex8(crate::extern_specs::crc32_checksum(
            data.as_slice(),
        )),
        Algorithm::Md5 => crate::numfmt::bytes_to_hex(crate::extern_specs::md5_digest(
            data.as_slice(),
        ).as_slice()),
        Algorithm::Sha1 => crate::numfmt::bytes_to_hex(crate::extern_specs::sha1_digest(
            data.as_slice(),
        ).as_slice()),
        Algorithm::Sha256 => crate::numfmt::bytes_to_hex(crate::extern_specs::sha256_digest(
            data.as_slice(),
        ).as_slice()),
        Algorithm::Sha512 => crate::numfmt::bytes_to_hex(crate::extern_specs::sha512_digest(
            data.as_slice(),
        ).as_slice()),
    }
}

/// The state an accumulator's buffer reaches after ingesting `chunks` in
/// order, starting from `pre`.
pub open spec fn buffer_after(pre: Seq<u8>, chunks: Seq<Seq<u8>>) -> Seq<u8>
    decreases chunks.len(),
{
    if chunks.len() == 0 {
        pre
    } else {
        buffer_after(pre, chunks.drop_last()) + chunks.last()
    }
}

/// Ingesting a sequence of chunks appends exactly their concatenation.
pub proof fn lemma_buffer_after_is_concat(pre: Seq<u8>, chunks: Seq<Seq<u8>>)
    ensures
        buffer_after(pre, chunks) == pre + concat_chunks(chunks),
    decreases chunks.len(),
{
    if chunks.len() == 0 {
        assert(buffer_after(pre, chunks) =~= pre + concat_chunks(chunks));
    } else {
        lemma_buffer_after_is_concat(pre, chunks.drop_last());
        assert(buffer_after(pre, chunks) =~= pre + concat_chunks(chunks));
    }
}

/// Chunk-size invariance: two chunkings of the same byte stream lead every
/// accumulator to the same final digest, no matter how the stream was cut.
pub proof fn lemma_chunking_invariance(alg: Algorithm, cs1: Seq<Seq<u8>>, cs2: Seq<Seq<u8>>)
    requires
        concat_chunks(cs1) == concat_chunks(cs2),
    ensures
        spec_digest(alg, buffer_after(Seq::empty(), cs1)) == spec_digest(
            alg,
            buffer_after(Seq::empty(), cs2),
        ),
{
    lemma_buffer_after_is_concat(Seq::empty(), cs1);
    lemma_buffer_after_is_concat(Seq::empty(), cs2);
    assert(buffer_after(Seq::empty(), cs1) =~= buffer_after(Seq::empty(), cs2));
}

/// Concatenation law: from any state, ingesting chunk `a` and then chunk `b`
/// leaves the same state as ingesting the single chunk `a + b`, so every
/// algorithm's final digest agrees as well.
pub proof fn lemma_concat_law(alg: Algorithm, pre: Seq<u8>, a: Seq<u8>, b: Seq<u8>)
    ensures
        (pre + a) + b == pre + (a + b),
        buffer_after(pre, seq![a, b]) == buffer_after(pre, seq![a + b]),
        spec_digest(alg, buffer_after(pre, seq![a, b])) == spec_digest(
            alg,
            buffer_after(pre, seq![a + b]),
        ),
{
    assert((pre + a) + b =~= pre + (a + b));
    assert(seq![a, b].drop_last() =~= seq![a]);
    assert(seq![a].drop_last() =~= Seq::<Seq<u8>>::empty());
    assert(seq![a + b].drop_last() =~= Seq::<Seq<u8>>::empty());
    assert(buffer_after(pre, Seq::<Seq<u8>>::empty()) == pre);
    assert(seq![a].last() == a);
    assert(buffer_after(pre, seq![a]) == pre + a);
    assert(seq![a, b].last() == b);
    assert(buffer_after(pre, seq![a, b]) == (pre + a) + b);
    assert(seq![a + b].last() == a + b);
    assert(buffer_after(pre, seq![a + b]) == pre + (a + b));
}

} // verus!
