//! The live hasher state and the sponge bookkeeping around the
//! permutation engine: absorbing input bytes into the lanes, padding,
//! and reading the digest out of the final state.

use vstd::prelude::*;
use crate::engine;
use crate::engine::keccak_f1600;
use crate::RATE;

verus! {

/// The mathematical value of an in-progress SHA3-256 computation: the
/// 25 sponge lanes and how many bytes of the current block have been
/// absorbed so far.
pub ghost struct Sponge {
    pub lanes: Seq<u64>,
    pub offset: int,
}

/// A sponge is well formed when it has the 25 Keccak lanes and its
/// offset lies inside the current block.
pub open spec fn sponge_wf(m: Sponge) -> bool {
    &&& m.lanes.len() == 25
    &&& 0 <= m.offset < RATE
}

/// A fresh sponge: all lanes zero, nothing absorbed.
pub open spec fn init_sponge() -> Sponge {
    Sponge { lanes: Seq::new(25, |i: int| 0u64), offset: 0 }
}

/// One input byte absorbed: XORed into the state at byte position
/// `m.offset` (lane `offset / 8`, little-endian byte `offset % 8`),
/// with the permutation run once the block is full.
pub open spec fn absorb_byte(m: Sponge, b: u8) -> Sponge {
    let li = m.offset / 8;
    let sh = (8 * (m.offset % 8)) as u64;
    let lanes = m.lanes.update(li, m.lanes[li] ^ ((b as u64) << sh));
    if m.offset == RATE - 1 {
        Sponge { lanes: keccak_f1600(lanes), offset: 0 }
    } else {
        Sponge { lanes: lanes, offset: m.offset + 1 }
    }
}

/// All of `input` absorbed in order, one byte at a time.
pub open spec fn absorb(m: Sponge, input: Seq<u8>) -> Sponge
    decreases input.len(),
{
    if input.len() == 0 {
        m
    } else {
        absorb_byte(absorb(m, input.drop_last()), input.last())
    }
}

/// Byte `j` of lane `l`, little-endian.
pub open spec fn lane_byte(l: u64, j: int) -> u8 {
    (((l >> ((8 * j) as u64)) & 0xff) as u8)
}

/// The lanes after the SHA3 padding — the domain-separation byte 0x06
/// XORed at the current offset and the closing bit 0x80 XORed into the
/// last byte of the block — and the final permutation.
pub open spec fn pad_permute(m: Sponge) -> Seq<u64> {
    let li = m.offset / 8;
    let sh = (8 * (m.offset % 8)) as u64;
    let padded = m.lanes.update(li, m.lanes[li] ^ (0x06u64 << sh));
    let closed = padded.update(16, padded[16] ^ (0x80u64 << 56u64));
    keccak_f1600(closed)
}

/// The 32-byte digest: the first 32 bytes of the padded, permuted state,
/// read from the first four lanes little-endian.
pub open spec fn digest_of(m: Sponge) -> Seq<u8> {
    let lanes = pad_permute(m);
    Seq::new(32, |i: int| lane_byte(lanes[i / 8], i % 8))
}

/// SHA3-256 of `input`: absorb everything into a fresh sponge, then pad,
/// permute, and read the digest.
pub open spec fn sha3_256_of(input: Seq<u8>) -> Seq<u8> {
    digest_of(absorb(init_sponge(), input))
}

/// An in-progress SHA3-256 computation, owned by whichever call holds
/// it: the sponge lanes and the offset into the current block.
pub struct HasherState {
    lanes: Vec<u64>,
    offset: u8,
}

impl View for HasherState {
    type V = Sponge;

    closed spec fn view(&self) -> Sponge {
        Sponge { lanes: self.lanes@, offset: self.offset as int }
    }
}

impl HasherState {
    /// A state is well formed when the sponge it stands for is.
    pub open spec fn wf(&self) -> bool {
        sponge_wf(self@)
    }

    /// A fresh, empty hasher.
    pub fn init() -> (r: HasherState)
        ensures
            r.wf(),
            r@ == init_sponge(),
    {
        let mut lanes: Vec<u64> = Vec::new();
        let mut i: usize = 0;
        while i < 25
            invariant
                i <= 25,
                lanes@ == Seq::new(i as nat, |j: int| 0u64),
            decreases 25 - i,
        {
            lanes.push(0u64);
            proof {
                assert(lanes@ =~= Seq::new(i as nat + 1, |j: int| 0u64));
            }
            i = i + 1;
        }
        let r = HasherState { lanes, offset: 0 };
        proof {
            assert(r@.lanes =~= init_sponge().lanes);
        }
        r
    }

    /// Lane `i` of the sponge, for the codec.
    pub(crate) fn lane(&self, i: usize) -> (r: u64)
        requires
            self.wf(),
            i < 25,
        ensures
            r == self@.lanes[i as int],
    {
        self.lanes[i]
    }

    /// The offset into the current block, for the codec.
    pub(crate) fn block_offset(&self) -> (r: u8)
        requires
            self.wf(),
        ensures
            r == self@.offset,
    {
        self.offset
    }

    /// A state assembled from validated parts, for the codec.
    pub(crate) fn from_parts(lanes: Vec<u64>, offset: u8) -> (r: HasherState)
        requires
            lanes@.len() == 25,
            offset < RATE,
        ensures
            r.wf(),
            r@ == (Sponge { lanes: lanes@, offset: offset as int }),
    {
        HasherState { lanes, offset }
    }

    /// Absorb a single input byte.
    fn absorb_one(&mut self, b: u8)
        requires
            old(self).wf(),
        ensures
            final(self).wf(),
            final(self)@ == absorb_byte(old(self)@, b),
    {
        let li: usize = (self.offset / 8) as usize;
        let sh: u64 = 8 * ((self.offset % 8) as u64);
        let lane = self.lanes[li];
        self.lanes[li] = lane ^ ((b as u64) << sh);
        if self.offset as usize == RATE - 1 {
            engine::permute(&mut self.lanes);
            self.offset = 0;
        } else {
            self.offset = self.offset + 1;
        }
    }

    /// Absorb all of `input`, in order.
    pub fn update(&mut self, input: &[u8])
        requires
            old(self).wf(),
        ensures
            final(self).wf(),
            final(self)@ == absorb(old(self)@, input@),
    {
        let ghost m0 = self@;
        let n = input.len();
        let mut i: usize = 0;
        while i < n
            invariant
                i <= n,
                n == input@.len(),
                self.wf(),
                self@ == absorb(m0, input@.take(i as int)),
            decreases n - i,
        {
            let b = input[i];
            self.absorb_one(b);
            proof {
                let t = input@.take(i as int);
                assert(t.push(b).drop_last() =~= t);
                assert(t.push(b) =~= input@.take(i as int + 1));
            }
            i = i + 1;
        }
        proof {
            assert(input@.take(n as int) =~= input@);
        }
    }

    /// Pad, permute once more, and read the 32-byte digest. The state is
    /// consumed: a finalized computation cannot be resumed.
    pub fn finalize(self) -> (r: Vec<u8>)
        requires
            self.wf(),
        ensures
            r@ == digest_of(self@),
            r@.len() == 32,
    {
        let ghost m0 = self@;
        let mut st = self;
        let li: usize = (st.offset / 8) as usize;
        let sh: u64 = 8 * ((st.offset % 8) as u64);
        let lane = st.lanes[li];
        st.lanes[li] = lane ^ (0x06u64 << sh);
        let lane16 = st.lanes[16];
        st.lanes[16] = lane16 ^ (0x80u64 << 56u64);
        engine::permute(&mut st.lanes);
        proof {
            assert(st.lanes@ == pad_permute(m0));
        }
        let mut out: Vec<u8> = Vec::new();
        let mut i: usize = 0;
        while i < 32
            invariant
                i <= 32,
                st.lanes@ == pad_permute(m0),
                out@ == Seq::new(i as nat, |k: int| lane_byte(pad_permute(m0)[k / 8], k % 8)),
            decreases 32 - i,
        {
            let lane = st.lanes[i / 8];
            let shd: u64 = (8 * (i % 8)) as u64;
            proof {
                assert((lane >> shd) & 0xff < 256) by (bit_vector);
            }
            let b = ((lane >> shd) & 0xff) as u8;
            out.push(b);
            proof {
                assert(out@ =~= Seq::new(
                    i as nat + 1,
                    |k: int| lane_byte(pad_permute(m0)[k / 8], k % 8),
                ));
            }
            i = i + 1;
        }
        proof {
            assert(out@ =~= digest_of(m0));
        }
        out
    }
}

} // verus!
