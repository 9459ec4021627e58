//! The boundary-facing hash API: one-shot hashing and the incremental
//! init / update / final protocol whose state crosses calls as a
//! serialized buffer.

use vstd::prelude::*;
use crate::codec::{decode, decode_s, encode, encode_s, lemma_round_trip, CodecError,
    SERIALIZED_LEN};
use crate::sponge::{absorb, digest_of, init_sponge, sha3_256_of, sponge_wf, HasherState,
    Sponge};

verus! {

/// One-shot SHA3-256: the 32-byte digest of `input`.
pub fn sha3_256(input: &[u8]) -> (r: Vec<u8>)
    ensures
        r@ == sha3_256_of(input@),
        r@.len() == 32,
{
    let mut st = HasherState::init();
    st.update(input);
    st.finalize()
}

/// A fresh incremental computation, handed out in its serialized form.
pub fn sha3_256_init() -> (r: Vec<u8>)
    ensures
        r@ == encode_s(init_sponge()),
        r@.len() == SERIALIZED_LEN,
{
    encode(HasherState::init())
}

/// Resume the computation serialized in `raw_state`, absorb `input`,
/// and serialize again. Fails, before any input is processed, exactly
/// when `raw_state` does not decode.
pub fn sha3_256_update(raw_state: &[u8], input: &[u8]) -> (r: Result<Vec<u8>, CodecError>)
    ensures
        (match r {
            Ok(buf) => {
                &&& decode_s(raw_state@) matches Ok(m)
                &&& buf@ == encode_s(absorb(m, input@))
                &&& buf@.len() == SERIALIZED_LEN
            },
            Err(e) => decode_s(raw_state@) == Err::<Sponge, CodecError>(e),
        }),
{
    match decode(raw_state) {
        Ok(mut st) => {
            st.update(input);
            Ok(encode(st))
        },
        Err(e) => Err(e),
    }
}

/// Finish the computation serialized in `raw_state` and return its
/// 32-byte digest. The state is consumed; only the digest remains.
pub fn sha3_256_final(raw_state: &[u8]) -> (r: Result<Vec<u8>, CodecError>)
    ensures
        (match r {
            Ok(d) => {
                &&& decode_s(raw_state@) matches Ok(m)
                &&& d@ == digest_of(m)
                &&& d@.len() == 32
            },
            Err(e) => decode_s(raw_state@) == Err::<Sponge, CodecError>(e),
        }),
{
    match decode(raw_state) {
        Ok(st) => Ok(st.finalize()),
        Err(e) => Err(e),
    }
}

/// Law: hashing is deterministic — any two results that the contract of
/// [`sha3_256`] allows for one input are equal.
pub proof fn lemma_hash_deterministic(input: Seq<u8>, r1: Seq<u8>, r2: Seq<u8>)
    requires
        r1 == sha3_256_of(input),
        r2 == sha3_256_of(input),
    ensures
        r1 == r2,
{
}

/// Law: absorbing `a` and then `b` leaves the sponge exactly where
/// absorbing their concatenation does.
pub proof fn lemma_absorb_concat(m: Sponge, a: Seq<u8>, b: Seq<u8>)
    ensures
        absorb(absorb(m, a), b) == absorb(m, a + b),
    decreases b.len(),
{
    if b.len() == 0 {
        assert(a + b =~= a);
    } else {
        lemma_absorb_concat(m, a, b.drop_last());
        assert((a + b).drop_last() =~= a + b.drop_last());
        assert((a + b).last() == b.last());
    }
}

/// Absorbing input preserves well-formedness of the sponge.
pub proof fn lemma_absorb_wf(m: Sponge, input: Seq<u8>)
    requires
        sponge_wf(m),
    ensures
        sponge_wf(absorb(m, input)),
    decreases input.len(),
{
    if input.len() > 0 {
        lemma_absorb_wf(m, input.drop_last());
    }
}

/// Law (chunk invariance): feeding `a` and then `b` through the
/// serialized init / update / update / final protocol yields the
/// one-shot digest of `a ++ b`, wherever the chunk boundary falls. The
/// first two clauses are the decode steps of the two resumed calls; the
/// last is the digest the final call returns.
pub proof fn lemma_chunk_invariance(a: Seq<u8>, b: Seq<u8>)
    ensures
        decode_s(encode_s(init_sponge())) == Ok::<Sponge, CodecError>(init_sponge()),
        decode_s(encode_s(absorb(init_sponge(), a)))
            == Ok::<Sponge, CodecError>(absorb(init_sponge(), a)),
        digest_of(absorb(absorb(init_sponge(), a), b)) == sha3_256_of(a + b),
{
    lemma_round_trip(init_sponge());
    lemma_absorb_wf(init_sponge(), a);
    lemma_round_trip(absorb(init_sponge(), a));
    lemma_absorb_concat(init_sponge(), a, b);
}

/// Law: finalizing a fresh state yields the digest of the empty input.
pub proof fn lemma_final_of_init_is_empty_hash()
    ensures
        digest_of(init_sponge()) == sha3_256_of(Seq::<u8>::empty()),
{
}

} // verus!
