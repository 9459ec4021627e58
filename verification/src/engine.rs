//! The permutation engine: the Keccak-f[1600] permutation over the
//! 25-lane sponge state, supplied by an outside crate and trusted here.
//! Everything else about the hash — the sponge bookkeeping, padding,
//! digest extraction and the serialized-state codec — is verified code
//! built on this one primitive.

use vstd::prelude::*;

verus! {

/// Lane `i` of the Keccak-f[1600] permutation of `lanes`. The
/// permutation is the standard's fixed 24-round function of the lanes
/// alone; it is left without a body, and every fact about it comes from
/// the contract of [`permute`].
pub uninterp spec fn keccak_lane(lanes: Seq<u64>, i: int) -> u64;

/// The Keccak-f[1600] permutation of a 25-lane state, as a pure
/// mathematical function.
pub open spec fn keccak_f1600(lanes: Seq<u64>) -> Seq<u64> {
    Seq::new(25, |i: int| keccak_lane(lanes, i))
}

/// Relies on `keccak::Keccak::with_f1600`, which hands its closure the
/// crate's Keccak-f[1600] function (`fn(&mut [u64; 25])`) and through it
/// permutes the 25 lanes in place; the result depends on the lanes alone.
#[verifier::external_body]
pub(crate) fn permute(lanes: &mut Vec<u64>)
    requires
        old(lanes)@.len() == 25,
    ensures
        final(lanes)@ == keccak_f1600(old(lanes)@),
        forall|i: int| 0 <= i < 25 ==> final(lanes)@[i] == keccak_lane(old(lanes)@, i),
{
    let state: &mut [u64; 25] = lanes.as_mut_slice().try_into().unwrap();
    keccak::Keccak::new().with_f1600(|f| f(state));
}

} // verus!
