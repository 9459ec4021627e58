//! The state codec: the stable wire form of an in-progress hasher and
//! the encode / decode operations between that form and the live state.
//!
//! The wire form is a fixed-length, versioned byte buffer: byte 0 is the
//! format version, bytes 1..201 are the 25 sponge lanes little-endian,
//! and byte 201 is the offset into the current block. `decode` is the
//! sole gatekeeper: it validates length, version and offset before any
//! state is handed back to the sponge.

use vstd::prelude::*;
use crate::RATE;
use crate::sponge::{HasherState, Sponge, lane_byte, sponge_wf};

verus! {

/// The single wire-format version this library reads and writes.
pub const STATE_VERSION: u8 = 1;

/// The fixed length of a serialized state: one version byte, 200 bytes
/// of lanes, one offset byte.
pub const SERIALIZED_LEN: usize = 202;

/// Why a buffer was rejected by [`decode`].
#[derive(Debug, Clone, Copy, PartialEq, Eq, Structural)]
pub enum CodecError {
    /// The buffer does not have the fixed serialized length, or its
    /// offset byte does not lie inside a block.
    MalformedState,
    /// The buffer's version byte names a format this library does not
    /// know.
    UnsupportedVersion,
}

/// The 64-bit value that eight little-endian bytes stand for.
pub open spec fn le_u64(b: Seq<u8>) -> u64
    recommends
        b.len() == 8,
{
    (b[0] as u64) | ((b[1] as u64) << 8u64) | ((b[2] as u64) << 16u64)
        | ((b[3] as u64) << 24u64) | ((b[4] as u64) << 32u64) | ((b[5] as u64) << 40u64)
        | ((b[6] as u64) << 48u64) | ((b[7] as u64) << 56u64)
}

/// The wire form of a sponge: version byte, lanes, offset byte.
pub open spec fn encode_s(m: Sponge) -> Seq<u8>
    recommends
        sponge_wf(m),
{
    seq![STATE_VERSION] + Seq::new(200, |i: int| lane_byte(m.lanes[i / 8], i % 8))
        + seq![m.offset as u8]
}

/// What [`decode`] makes of a buffer: the sponge it encodes, or the
/// error that names the first check it fails.
pub open spec fn decode_s(buf: Seq<u8>) -> Result<Sponge, CodecError> {
    if buf.len() != SERIALIZED_LEN {
        Err(CodecError::MalformedState)
    } else if buf[0] != STATE_VERSION {
        Err(CodecError::UnsupportedVersion)
    } else if buf[201] >= RATE {
        Err(CodecError::MalformedState)
    } else {
        Ok(Sponge {
            lanes: Seq::new(25, |i: int| le_u64(buf.subrange(1 + 8 * i, 9 + 8 * i))),
            offset: buf[201] as int,
        })
    }
}

/// Serialize a live hasher state into its wire form. The state is
/// consumed: across a boundary the caller resumes from the bytes alone.
pub fn encode(state: HasherState) -> (r: Vec<u8>)
    requires
        state.wf(),
    ensures
        r@ == encode_s(state@),
        r@.len() == SERIALIZED_LEN,
{
    let mut out: Vec<u8> = Vec::new();
    out.push(STATE_VERSION);
    proof {
        assert(out@ =~= seq![STATE_VERSION]
            + Seq::new(0nat, |k: int| lane_byte(state@.lanes[k / 8], k % 8)));
    }
    let mut i: usize = 0;
    while i < 200
        invariant
            i <= 200,
            state.wf(),
            out@ == seq![STATE_VERSION]
                + Seq::new(i as nat, |k: int| lane_byte(state@.lanes[k / 8], k % 8)),
        decreases 200 - i,
    {
        let lane = state.lane(i / 8);
        let shd: u64 = (8 * (i % 8)) as u64;
        proof {
            assert((lane >> shd) & 0xff < 256) by (bit_vector);
        }
        let b = ((lane >> shd) & 0xff) as u8;
        out.push(b);
        proof {
            assert(out@ =~= seq![STATE_VERSION]
                + Seq::new(i as nat + 1, |k: int| lane_byte(state@.lanes[k / 8], k % 8)));
        }
        i = i + 1;
    }
    out.push(state.block_offset());
    proof {
        assert(out@ =~= encode_s(state@));
    }
    out
}

/// Deserialize and validate a wire buffer. Exactly the buffers that
/// [`decode_s`] accepts are accepted, and with the sponge it names.
pub fn decode(buf: &[u8]) -> (r: Result<HasherState, CodecError>)
    ensures
        (match r {
            Ok(st) => st.wf() && decode_s(buf@) == Ok::<Sponge, CodecError>(st@),
            Err(e) => decode_s(buf@) == Err::<Sponge, CodecError>(e),
        }),
{
    if buf.len() != SERIALIZED_LEN {
        return Err(CodecError::MalformedState);
    }
    if buf[0] != STATE_VERSION {
        return Err(CodecError::UnsupportedVersion);
    }
    let offset = buf[201];
    if offset as usize >= RATE {
        return Err(CodecError::MalformedState);
    }
    let mut lanes: Vec<u64> = Vec::new();
    let mut li: usize = 0;
    while li < 25
        invariant
            li <= 25,
            buf@.len() == 202,
            lanes@ == Seq::new(li as nat, |i: int| le_u64(buf@.subrange(1 + 8 * i, 9 + 8 * i))),
        decreases 25 - li,
    {
        let base: usize = 1 + 8 * li;
        let lane: u64 = (buf[base] as u64)
            | ((buf[base + 1] as u64) << 8u64)
            | ((buf[base + 2] as u64) << 16u64)
            | ((buf[base + 3] as u64) << 24u64)
            | ((buf[base + 4] as u64) << 32u64)
            | ((buf[base + 5] as u64) << 40u64)
            | ((buf[base + 6] as u64) << 48u64)
            | ((buf[base + 7] as u64) << 56u64);
        proof {
            let sub = buf@.subrange(1 + 8 * (li as int), 9 + 8 * (li as int));
            assert(sub[0] == buf@[base as int]);
            assert(sub[1] == buf@[base as int + 1]);
            assert(sub[2] == buf@[base as int + 2]);
            assert(sub[3] == buf@[base as int + 3]);
            assert(sub[4] == buf@[base as int + 4]);
            assert(sub[5] == buf@[base as int + 5]);
            assert(sub[6] == buf@[base as int + 6]);
            assert(sub[7] == buf@[base as int + 7]);
            assert(lane == le_u64(sub));
        }
        lanes.push(lane);
        proof {
            assert(lanes@ =~= Seq::new(
                li as nat + 1,
                |i: int| le_u64(buf@.subrange(1 + 8 * i, 9 + 8 * i)),
            ));
        }
        li = li + 1;
    }
    let st = HasherState::from_parts(lanes, offset);
    proof {
        assert(decode_s(buf@) == Ok::<Sponge, CodecError>(st@));
    }
    Ok(st)
}

/// Law: decoding an encoded state gives back exactly that state.
pub proof fn lemma_round_trip(m: Sponge)
    requires
        sponge_wf(m),
    ensures
        decode_s(encode_s(m)) == Ok::<Sponge, CodecError>(m),
{
    let buf = encode_s(m);
    let body = Seq::new(200, |k: int| lane_byte(m.lanes[k / 8], k % 8));
    assert(buf.len() == 202);
    assert(buf[0] == STATE_VERSION);
    assert(buf[201] == m.offset as u8);
    let dl = Seq::new(25, |i: int| le_u64(buf.subrange(1 + 8 * i, 9 + 8 * i)));
    assert forall|i: int| 0 <= i < 25 implies dl[i] == m.lanes[i] by {
        let sub = buf.subrange(1 + 8 * i, 9 + 8 * i);
        let l = m.lanes[i];
        assert forall|j: int| 0 <= j < 8 implies sub[j] == lane_byte(l, j) by {
            let k = 8 * i + j;
            assert((8 * i + j) / 8 == i);
            assert((8 * i + j) % 8 == j);
            assert(sub[j] == buf[1 + k]);
            assert(buf[1 + k] == body[k]);
            assert(body[k] == lane_byte(m.lanes[k / 8], k % 8));
        }
        let b0 = sub[0];
        let b1 = sub[1];
        let b2 = sub[2];
        let b3 = sub[3];
        let b4 = sub[4];
        let b5 = sub[5];
        let b6 = sub[6];
        let b7 = sub[7];
        assert((b0 as u64) | ((b1 as u64) << 8u64) | ((b2 as u64) << 16u64)
            | ((b3 as u64) << 24u64) | ((b4 as u64) << 32u64) | ((b5 as u64) << 40u64)
            | ((b6 as u64) << 48u64) | ((b7 as u64) << 56u64) == l) by (bit_vector)
            requires
                b0 == (((l >> 0u64) & 0xff) as u8),
                b1 == (((l >> 8u64) & 0xff) as u8),
                b2 == (((l >> 16u64) & 0xff) as u8),
                b3 == (((l >> 24u64) & 0xff) as u8),
                b4 == (((l >> 32u64) & 0xff) as u8),
                b5 == (((l >> 40u64) & 0xff) as u8),
                b6 == (((l >> 48u64) & 0xff) as u8),
                b7 == (((l >> 56u64) & 0xff) as u8),
        ;
        assert(le_u64(sub) == l);
    }
    assert(dl =~= m.lanes);
    assert(decode_s(buf) == Ok::<Sponge, CodecError>(m));
}

} // verus!
