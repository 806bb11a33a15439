//! Media delivery: whole-artifact transfer and the indexed chunk pull. The
//! artifact's bytes are handed in by the caller (who owns the file or the
//! memory-mapped view); every decision about them is made here.

use vstd::prelude::*;
use base64::Engine;
use crate::CHUNK_SIZE;

verus! {

/// Why a delivery call failed.
#[derive(Clone, Copy, Debug, PartialEq, Eq, Structural)]
pub enum DeliveryError {
    /// The requested chunk index lies at or past the end of the artifact.
    OutOfBounds,
    /// Every port in the probing range failed to bind.
    NoAvailablePort,
    /// The artifact file exists but holds no bytes.
    EmptyFile,
    /// The artifact could not be memory-mapped within the bounded retries.
    MappingFailed,
}

/// What base64 standard encoding (standard alphabet, with padding) makes of
/// a byte sequence.
pub uninterp spec fn base64_of(bytes: Seq<u8>) -> Seq<char>;

/// Relies on `base64::Engine::encode` with the `STANDARD` engine: standard
/// alphabet with padding, whose output length is four characters for every
/// three input bytes, rounded up (`encoded_len` in base64's source). The
/// encoding is a function of the input bytes alone.
#[verifier::external_body]
fn base64_encode(bytes: &[u8]) -> (r: String)
    requires
        4 * ((bytes@.len() + 2) / 3) <= usize::MAX,
    ensures
        r@ == base64_of(bytes@),
        r@.len() == 4 * ((bytes@.len() + 2) / 3),
{
    base64::engine::general_purpose::STANDARD.encode(bytes)
}

/// How many chunks the artifact spans: the number of chunk indices that
/// return data.
pub open spec fn spec_chunk_count(file_size: int) -> int {
    file_size / (CHUNK_SIZE as int) + if file_size % (CHUNK_SIZE as int) == 0 {
        0int
    } else {
        1int
    }
}

pub fn chunk_count(file_size: u64) -> (n: u64)
    ensures
        n == spec_chunk_count(file_size as int),
{
    file_size / (CHUNK_SIZE as u64) + if file_size % (CHUNK_SIZE as u64) == 0 {
        0
    } else {
        1
    }
}

/// Chunk retrieval is total over the in-range indices and rejects the rest:
/// index `i` returns data exactly when `i` lies under the chunk count, i.e.
/// when the chunk's window starts inside the artifact.
pub proof fn lemma_chunk_retrieval_total(file_size: int, i: int)
    requires
        file_size >= 0,
        i >= 0,
    ensures
        i * (CHUNK_SIZE as int) < file_size <==> i < spec_chunk_count(file_size),
{
    let c = CHUNK_SIZE as int;
    vstd::arithmetic::div_mod::lemma_fundamental_div_mod(file_size, c);
    let q = file_size / c;
    let r = file_size % c;
    if i * c < file_size {
        // A window starting inside the file: its index lies under the count.
        if i >= spec_chunk_count(file_size) {
            if r == 0 {
                assert(i >= q);
                assert(i * c >= q * c) by (nonlinear_arith)
                    requires
                        i >= q,
                        c > 0,
                ;
            } else {
                assert(i >= q + 1);
                assert(i * c >= (q + 1) * c) by (nonlinear_arith)
                    requires
                        i >= q + 1,
                        c > 0,
                ;
            }
        }
    } else {
        // A window starting at or past the end: its index reaches the count.
        if i < spec_chunk_count(file_size) {
            if r == 0 {
                assert(i <= q - 1);
                assert(i * c <= (q - 1) * c) by (nonlinear_arith)
                    requires
                        i <= q - 1,
                        c > 0,
                ;
            } else {
                assert(i <= q);
                assert(i * c <= q * c) by (nonlinear_arith)
                    requires
                        i <= q,
                        c > 0,
                ;
            }
        }
    }
}

/// The characters that chunk `i` of the artifact delivers: the base64
/// encoding of the window `i * CHUNK_SIZE .. + CHUNK_SIZE`, clipped to the
/// artifact's end.
pub open spec fn spec_chunk(data: Seq<u8>, i: int) -> Seq<char> {
    let start = i * (CHUNK_SIZE as int);
    let end = if start + (CHUNK_SIZE as int) <= data.len() {
        start + (CHUNK_SIZE as int)
    } else {
        data.len() as int
    };
    base64_of(data.subrange(start, end))
}

/// Chunk retrieval is idempotent: the characters a chunk delivers are a
/// function of the artifact bytes and the index alone, so two successful
/// retrievals of the same chunk always agree.
pub proof fn lemma_chunk_retrieval_idempotent(
    data: Seq<u8>,
    i: int,
    first: Seq<char>,
    second: Seq<char>,
)
    requires
        first == spec_chunk(data, i),
        second == spec_chunk(data, i),
    ensures
        first == second,
{
}

/// Indexed chunk pull: read the fixed-size window
/// `index * CHUNK_SIZE .. + CHUNK_SIZE` of the artifact and return it
/// base64-encoded; an index at or past the end of the artifact is out of
/// bounds.
pub fn get_video_chunk(data: &[u8], chunk_index: usize) -> (r: Result<String, DeliveryError>)
    ensures
        r is Ok <==> (chunk_index as int) * (CHUNK_SIZE as int) < data@.len(),
        r is Err ==> r->Err_0 == DeliveryError::OutOfBounds,
        r is Ok ==> r->Ok_0@ == spec_chunk(data@, chunk_index as int),
{
    if chunk_index > data.len() / CHUNK_SIZE {
        proof {
            let c = CHUNK_SIZE as int;
            let q = data@.len() as int / c;
            vstd::arithmetic::div_mod::lemma_fundamental_div_mod(data@.len() as int, c);
            assert((chunk_index as int) * c >= (q + 1) * c) by (nonlinear_arith)
                requires
                    chunk_index as int >= q + 1,
                    c > 0,
            ;
        }
        return Err(DeliveryError::OutOfBounds);
    }
    proof {
        let c = CHUNK_SIZE as int;
        let q = data@.len() as int / c;
        vstd::arithmetic::div_mod::lemma_fundamental_div_mod(data@.len() as int, c);
        assert((chunk_index as int) * c <= q * c) by (nonlinear_arith)
            requires
                chunk_index as int <= q,
                c > 0,
        ;
    }
    let start = chunk_index * CHUNK_SIZE;
    if start >= data.len() {
        return Err(DeliveryError::OutOfBounds);
    }
    let end = if data.len() - start > CHUNK_SIZE {
        start + CHUNK_SIZE
    } else {
        data.len()
    };
    let window = &data[start..end];
    Ok(base64_encode(window))
}

/// Whole-artifact transfer: the entire artifact in one buffer. The simplest
/// strategy, unsuitable for long recordings since it holds every byte in
/// memory at once.
pub fn whole_artifact(data: &[u8]) -> (r: Result<Vec<u8>, DeliveryError>)
    ensures
        r is Ok <==> data@.len() > 0,
        r is Err ==> r->Err_0 == DeliveryError::EmptyFile,
        r is Ok ==> r->Ok_0@ == data@,
{
    if data.len() == 0 {
        return Err(DeliveryError::EmptyFile);
    }
    let mut out: Vec<u8> = Vec::new();
    let mut i: usize = 0;
    while i < data.len()
        invariant
            0 <= i <= data@.len(),
            out@ =~= data@.subrange(0, i as int),
        decreases data@.len() - i,
    {
        out.push(data[i]);
        i = i + 1;
    }
    proof {
        assert(out@ =~= data@);
    }
    Ok(out)
}

/// How many times opening the artifact file is retried before mapping is
/// reported failed; absorbs the race with the finalizer's last write.
pub const MMAP_OPEN_ATTEMPTS: u64 = 3;

} // verus!
