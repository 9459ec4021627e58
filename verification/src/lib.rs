//! SHA3-256 hashing with an incremental, serializable hasher state.
//!
//! The library offers a one-shot digest function and an incremental
//! `init` / `update` / `final` protocol whose in-progress state crosses
//! call boundaries as an explicit, versioned, fixed-length byte buffer.
//! The Keccak-f[1600] permutation is supplied by an outside crate; the
//! sponge bookkeeping, the wire format of the serialized state, and the
//! validation of incoming state buffers are verified here.

use vstd::prelude::*;

pub mod api;
pub mod codec;
pub mod engine;
pub mod sponge;

pub use api::{sha3_256, sha3_256_final, sha3_256_init, sha3_256_update};
pub use codec::{decode, encode, CodecError, SERIALIZED_LEN, STATE_VERSION};
pub use sponge::HasherState;

verus! {

/// Number of input bytes one SHA3-256 sponge block absorbs before the
/// state is permuted (the rate of the sponge: 200 - 2 * 32 bytes).
pub const RATE: usize = 136;

} // verus!
