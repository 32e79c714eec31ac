//! The streaming sample decoder: raw little-endian 32-bit PCM bytes in,
//! sample words out.
//!
//! The decoder accepts the byte stream in chunks of any size. Bytes are
//! grouped four at a time in stream order; a trailing group of fewer than
//! four bytes is held back and completed by the next chunk, so the samples
//! produced depend only on the bytes fed, never on where the chunk
//! boundaries fall. At end of stream a leftover group shorter than four
//! bytes is silently discarded. Each sample word carries the bits of one
//! little-endian IEEE-754 single; turning the word into a float is the
//! caller's one-line affair.
use vstd::prelude::*;

verus! {

/// The sample word encoded by four bytes, least significant first.
pub open spec fn spec_le_word(b0: u8, b1: u8, b2: u8, b3: u8) -> u32 {
    (b0 + b1 * 0x100 + b2 * 0x10000 + b3 * 0x1000000) as u32
}

/// The complete samples encoded by a byte stream: one word for every full
/// four-byte group, in order; leftover bytes encode nothing.
pub open spec fn spec_samples(b: Seq<u8>) -> Seq<u32> {
    Seq::new((b.len() / 4) as nat, |k: int| spec_le_word(b[4 * k], b[4 * k + 1], b[4 * k + 2], b[4 * k + 3]))
}

/// Feeding more bytes never changes the samples already encoded: the
/// samples of a stream are a prefix of the samples of any extension of it.
/// Together with the contract of `SampleDecoder::push`, this says that
/// splitting one byte stream into chunks in different ways always yields
/// the same sample sequence.
pub proof fn lemma_samples_prefix(b1: Seq<u8>, b2: Seq<u8>)
    ensures
        spec_samples(b1 + b2).take(spec_samples(b1).len() as int) == spec_samples(b1),
{
    let s1 = spec_samples(b1);
    let s12 = spec_samples(b1 + b2);
    assert((b1 + b2).len() == b1.len() + b2.len());
    assert(s12.len() >= s1.len());
    assert forall|k: int| 0 <= k < s1.len() implies s12[k] == s1[k] by {
        assert(4 * k + 3 < b1.len());
        assert((b1 + b2)[4 * k] == b1[4 * k]);
        assert((b1 + b2)[4 * k + 1] == b1[4 * k + 1]);
        assert((b1 + b2)[4 * k + 2] == b1[4 * k + 2]);
        assert((b1 + b2)[4 * k + 3] == b1[4 * k + 3]);
    }
    assert(s12.take(s1.len() as int) =~= s1);
}

/// Cutting a byte stream anywhere changes nothing: the samples of the
/// whole stream are the samples of the first part, followed by the
/// samples the rest completes. So a decoder fed `b.take(k)` and then
/// `b.skip(k)` emits, in total, exactly the samples of `b`, wherever
/// the cut `k` falls — including mid-sample.
pub proof fn lemma_chunk_split_equivalent(b: Seq<u8>, k: int)
    requires
        0 <= k <= b.len(),
    ensures
        spec_samples(b) == spec_samples(b.take(k)) + spec_samples(b).skip(
            spec_samples(b.take(k)).len() as int,
        ),
{
    assert(b.take(k) + b.skip(k) =~= b);
    lemma_samples_prefix(b.take(k), b.skip(k));
    let n1 = spec_samples(b.take(k)).len() as int;
    assert(spec_samples(b) =~= spec_samples(b).take(n1) + spec_samples(b).skip(n1));
}

/// A streaming decoder from raw bytes to sample words.
pub struct SampleDecoder {
    pending: Vec<u8>,
    fed: Ghost<Seq<u8>>,
}

impl SampleDecoder {
    /// All bytes fed to this decoder so far.
    pub closed spec fn fed(&self) -> Seq<u8> {
        self.fed@
    }

    /// The decoder holds back exactly the bytes after the last complete
    /// four-byte group.
    pub closed spec fn wf(&self) -> bool {
        &&& self.fed@.len() as int == 4 * (self.fed@.len() as int / 4) + self.pending@.len()
        &&& self.pending@.len() < 4
        &&& self.pending@ == self.fed@.skip(4 * (self.fed@.len() as int / 4))
    }

    /// A fresh decoder that has seen no bytes.
    pub fn new() -> (r: SampleDecoder)
        ensures
            r.wf(),
            r.fed() == Seq::<u8>::empty(),
    {
        let r = SampleDecoder { pending: Vec::new(), fed: Ghost(Seq::empty()) };
        proof {
            assert(r.pending@ =~= r.fed@.skip(0));
        }
        r
    }

    /// Feed one chunk of the byte stream; the samples completed by these
    /// bytes come out, in order.
    #[verifier::loop_isolation(false)]
    pub fn push(&mut self, chunk: &[u8]) -> (out: Vec<u32>)
        requires
            old(self).wf(),
        ensures
            final (self).wf(),
            final (self).fed() == old(self).fed() + chunk@,
            out@ == spec_samples(final (self).fed()).skip(
                spec_samples(old(self).fed()).len() as int,
            ),
    {
        let ghost n0 = spec_samples(old(self).fed()).len() as int;
        let mut out: Vec<u32> = Vec::new();
        let mut i: usize = 0;
        while i < chunk.len()
            invariant
                0 <= i <= chunk@.len(),
                self.fed@ == old(self).fed() + chunk@.take(i as int),
                self.wf(),
                n0 == spec_samples(old(self).fed()).len(),
                n0 <= spec_samples(self.fed@).len(),
                out@ == spec_samples(self.fed@).skip(n0),
            decreases chunk@.len() - i,
        {
            let ghost f = self.fed@;
            let ghost q: int = f.len() as int / 4;
            let c = chunk[i];
            proof {
                self.fed@ = f.push(c);
            }
            let ghost f2 = self.fed@;
            proof {
                assert(f2 =~= old(self).fed() + chunk@.take(i + 1));
                assert(forall|m: int| 0 <= m < f.len() ==> f2[m] == f[m]);
            }
            if self.pending.len() == 3 {
                let b0 = self.pending[0];
                let b1 = self.pending[1];
                let b2 = self.pending[2];
                let w = (b0 as u32) + (b1 as u32) * 0x100 + (b2 as u32) * 0x10000 + (c as u32)
                    * 0x1000000;
                out.push(w);
                self.pending.clear();
                proof {
                    assert(f2.len() as int == 4 * q + 4);
                    assert(f2.len() as int / 4 == q + 1);
                    assert(f[4 * q] == b0 && f[4 * q + 1] == b1 && f[4 * q + 2] == b2);
                    assert(f2[4 * q] == b0 && f2[4 * q + 1] == b1 && f2[4 * q + 2] == b2 && f2[4
                        * q + 3] == c);
                    assert(spec_samples(f2)[q] == spec_le_word(b0, b1, b2, c));
                    assert(w == spec_le_word(b0, b1, b2, c));
                    assert forall|k: int| 0 <= k < q implies spec_samples(f2)[k] == spec_samples(
                        f,
                    )[k] by {
                        assert(4 * k + 3 < 4 * q);
                    }
                    assert(self.pending@ =~= f2.skip(4 * (f2.len() as int / 4)));
                    assert(out@ =~= spec_samples(f2).skip(n0));
                }
            } else {
                self.pending.push(c);
                proof {
                    let r: int = f.len() as int - 4 * q;
                    assert(0 <= r < 3);
                    assert(f2.len() as int == 4 * q + r + 1);
                    assert(f2.len() as int / 4 == q);
                    assert forall|k: int| 0 <= k < q implies spec_samples(f2)[k] == spec_samples(
                        f,
                    )[k] by {
                        assert(4 * k + 3 < 4 * q);
                    }
                    assert(spec_samples(f2) =~= spec_samples(f));
                    assert(self.pending@ =~= f2.skip(4 * (f2.len() as int / 4)));
                }
            }
            i += 1;
        }
        proof {
            assert(chunk@.take(chunk@.len() as int) =~= chunk@);
        }
        out
    }
}

} // verus!
