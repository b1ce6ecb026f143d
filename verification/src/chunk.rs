//! Chunk Source: a stateless supplier of zero-valued byte chunks, backed by
//! one immutable buffer that every chunk shares, so streaming any number of
//! bytes allocates nothing per chunk.

use vstd::prelude::*;

verus! {

/// Size of each zero-valued chunk (1 MiB).
pub const CHUNK_SIZE: usize = 0x100000;

#[verifier::external_type_specification]
#[verifier::external_body]
pub struct ExBytes(bytes::Bytes);

/// The bytes a `bytes::Bytes` buffer holds, in order.
pub uninterp spec fn bytes_content(b: bytes::Bytes) -> Seq<u8>;

/// A sequence of `n` zero bytes.
pub open spec fn zeros(n: nat) -> Seq<u8> {
    Seq::new(n, |i: int| 0u8)
}

/// Relies on `<bytes::Bytes as From<Vec<u8>>>::from`: the buffer takes
/// ownership of the vector and holds exactly its bytes.
#[verifier::external_body]
pub(crate) fn bytes_from_vec(v: Vec<u8>) -> (r: bytes::Bytes)
    ensures
        bytes_content(r) == v@,
{
    bytes::Bytes::from(v)
}

/// Relies on `bytes::Bytes::len`: the number of bytes the buffer holds.
#[verifier::external_body]
pub(crate) fn bytes_len(b: &bytes::Bytes) -> (r: usize)
    ensures
        r == bytes_content(*b).len(),
{
    b.len()
}

/// Relies on `bytes::Bytes::slice`: a view of the first `end` bytes that
/// shares the same storage; panics only when the range exceeds the length,
/// which the precondition rules out.
#[verifier::external_body]
pub(crate) fn bytes_prefix(b: &bytes::Bytes, end: usize) -> (r: bytes::Bytes)
    requires
        end <= bytes_content(*b).len(),
    ensures
        bytes_content(r) == bytes_content(*b).subrange(0, end as int),
{
    b.slice(..end)
}

/// Length of the next chunk of a transfer with `remaining` bytes to go:
/// the whole remainder, capped at `CHUNK_SIZE`.
pub open spec fn chunk_len(remaining: int) -> int
    recommends
        remaining >= 0,
{
    if remaining < CHUNK_SIZE { remaining } else { CHUNK_SIZE as int }
}

/// A stateless, shareable source of zero-valued chunks.
pub struct ChunkSource {
    buf: bytes::Bytes,
}

impl ChunkSource {
    /// The source is backed by a buffer of exactly `CHUNK_SIZE` zero bytes.
    pub closed spec fn wf(&self) -> bool {
        bytes_content(self.buf) =~= zeros(CHUNK_SIZE as nat)
    }

    /// Allocates the process-wide zero buffer; done once at startup.
    pub fn new() -> (r: ChunkSource)
        ensures
            r.wf(),
    {
        let mut v: Vec<u8> = Vec::new();
        let mut i: usize = 0;
        while i < CHUNK_SIZE
            invariant
                i <= CHUNK_SIZE,
                v@.len() == i,
                forall|j: int| 0 <= j < i ==> v@[j] == 0u8,
            decreases CHUNK_SIZE - i,
        {
            v.push(0u8);
            i = i + 1;
        }
        assert(v@ =~= zeros(CHUNK_SIZE as nat));
        ChunkSource { buf: bytes_from_vec(v) }
    }

    /// The next chunk for a transfer with `remaining` bytes still to move:
    /// `min(remaining, CHUNK_SIZE)` zero bytes, sharing the source's storage.
    pub fn next(&self, remaining: u64) -> (r: bytes::Bytes)
        requires
            self.wf(),
            remaining > 0,
        ensures
            bytes_content(r) =~= zeros(chunk_len(remaining as int) as nat),
    {
        let len: usize = if remaining < CHUNK_SIZE as u64 {
            remaining as usize
        } else {
            CHUNK_SIZE
        };
        let r = bytes_prefix(&self.buf, len);
        assert(bytes_content(self.buf).subrange(0, len as int) =~= zeros(
            chunk_len(remaining as int) as nat,
        ));
        r
    }
}

} // verus!
