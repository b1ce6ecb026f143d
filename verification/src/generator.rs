//! Transfer Generator: a pull-driven, finite, non-restartable sequence of
//! zero-valued chunks whose lengths sum to exactly the requested size. The
//! caller pulls one chunk at a time, so production never outruns what the
//! transport can accept.

use vstd::prelude::*;
use crate::chunk::{bytes_content, chunk_len, zeros, bytes_len, ChunkSource, CHUNK_SIZE};

verus! {

/// Lengths of the chunks still to be emitted for `n` remaining bytes.
pub open spec fn gen_lens(n: int) -> Seq<int>
    decreases n,
{
    if n <= 0 {
        Seq::empty()
    } else {
        seq![chunk_len(n)] + gen_lens(n - chunk_len(n))
    }
}

/// Sum of a sequence of lengths.
pub open spec fn sum_lens(s: Seq<int>) -> int
    decreases s.len(),
{
    if s.len() == 0 {
        0
    } else {
        s[0] + sum_lens(s.drop_first())
    }
}

/// The bytes still to be emitted for `n` remaining bytes, in order.
pub open spec fn gen_body(n: int) -> Seq<u8>
    decreases n,
{
    if n <= 0 {
        Seq::empty()
    } else {
        zeros(chunk_len(n) as nat) + gen_body(n - chunk_len(n))
    }
}

proof fn lemma_sum_cons(a: int, s: Seq<int>)
    ensures
        sum_lens(seq![a] + s) == a + sum_lens(s),
{
    assert((seq![a] + s).len() == 1 + s.len());
    assert((seq![a] + s)[0] == a);
    assert((seq![a] + s).drop_first() =~= s);
}

/// Chunking law: for any requested size, the emitted chunk lengths sum to
/// exactly that size, every chunk is at most `CHUNK_SIZE` long, and the final
/// chunk carries the remainder modulo `CHUNK_SIZE` (a whole `CHUNK_SIZE` when
/// the size is a positive multiple of it).
pub proof fn lemma_chunking(n: int)
    requires
        n > 0,
    ensures
        gen_lens(n).len() > 0,
        sum_lens(gen_lens(n)) == n,
        forall|i: int| 0 <= i < gen_lens(n).len() ==> 0 < #[trigger] gen_lens(n)[i] <= CHUNK_SIZE,
        gen_lens(n).last() == if n % (CHUNK_SIZE as int) == 0 {
            CHUNK_SIZE as int
        } else {
            n % (CHUNK_SIZE as int)
        },
    decreases n,
{
    let c = CHUNK_SIZE as int;
    let rest = n - chunk_len(n);
    assert(gen_lens(n) == seq![chunk_len(n)] + gen_lens(rest));
    lemma_sum_cons(chunk_len(n), gen_lens(rest));
    if n <= c {
        assert(gen_lens(rest) =~= Seq::<int>::empty());
        assert(sum_lens(Seq::<int>::empty()) == 0);
        assert(gen_lens(n) =~= seq![n]);
        assert(sum_lens(gen_lens(n)) == n);
        if n < c {
            assert(n % c == n) by {
                vstd::arithmetic::div_mod::lemma_small_mod(n as nat, c as nat);
            }
        } else {
            assert(c % c == 0) by {
                vstd::arithmetic::div_mod::lemma_mod_self_0(c);
            }
        }
    } else {
        lemma_chunking(rest);
        assert(sum_lens(gen_lens(n)) == c + sum_lens(gen_lens(rest)));
        assert(gen_lens(n).last() == gen_lens(rest).last());
        assert(n % c == rest % c) by {
            vstd::arithmetic::div_mod::lemma_mod_sub_multiples_vanish(rest, c);
        }
    }
}

/// Download-content law: the bytes emitted for a requested size `n` are
/// exactly `n` zero-valued bytes.
pub proof fn lemma_download_body(n: int)
    requires
        n > 0,
    ensures
        gen_body(n) =~= zeros(n as nat),
    decreases n,
{
    let rest = n - chunk_len(n);
    if rest > 0 {
        lemma_download_body(rest);
    }
    assert(gen_body(rest) =~= zeros(rest as nat));
}

/// Per-transfer generator state: how much was requested and how much has
/// been emitted so far.
pub struct Generator {
    pub requested: u64,
    pub sent: u64,
}

impl Generator {
    /// A zero-size transfer is rejected before a generator exists, and the
    /// generator never emits past the requested size.
    pub open spec fn wf(self) -> bool {
        &&& self.requested > 0
        &&& self.sent <= self.requested
    }

    /// Bytes still to emit.
    pub open spec fn remaining(self) -> int {
        self.requested - self.sent
    }

    /// The sequence is exhausted exactly when every requested byte went out.
    pub open spec fn done(self) -> bool {
        self.sent == self.requested
    }

    pub fn new(requested: u64) -> (r: Generator)
        requires
            requested > 0,
        ensures
            r.wf(),
            r.requested == requested,
            r.sent == 0,
    {
        Generator { requested, sent: 0 }
    }

    /// Pulls the next chunk: `None` exactly when the transfer is complete;
    /// otherwise `min(remaining, CHUNK_SIZE)` zero bytes, advancing `sent`
    /// by that length. The emitted stream follows the `gen_lens`/`gen_body`
    /// model step by step.
    pub fn next(&mut self, src: &ChunkSource) -> (r: Option<bytes::Bytes>)
        requires
            old(self).wf(),
            src.wf(),
        ensures
            final(self).wf(),
            final(self).requested == old(self).requested,
            r is None <==> old(self).done(),
            r is None ==> final(self).sent == old(self).sent,
            r matches Some(c) ==> {
                &&& bytes_content(c) =~= zeros(chunk_len(old(self).remaining()) as nat)
                &&& final(self).sent == old(self).sent + chunk_len(old(self).remaining())
                &&& gen_lens(old(self).remaining()) =~= seq![bytes_content(c).len() as int]
                    + gen_lens(final(self).remaining())
                &&& gen_body(old(self).remaining()) =~= bytes_content(c) + gen_body(
                    final(self).remaining(),
                )
            },
    {
        if self.sent == self.requested {
            None
        } else {
            let remaining = self.requested - self.sent;
            let chunk = src.next(remaining);
            let len = bytes_len(&chunk);
            assert(len == chunk_len(remaining as int));
            self.sent = self.sent + len as u64;
            Some(chunk)
        }
    }
}

} // verus!
