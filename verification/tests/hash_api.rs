use sha3::Digest;
use sha3_256::{
    decode, encode, sha3_256, sha3_256_final, sha3_256_init, sha3_256_update, CodecError,
    SERIALIZED_LEN, STATE_VERSION,
};

fn reference_digest(input: &[u8]) -> Vec<u8> {
    sha3::Sha3_256::digest(input).to_vec()
}

#[test]
fn sha3_256_hash() {
    let hash_bitcoin_ts = vec![
        250, 31, 145, 203, 239, 153, 71, 45, 26, 36, 211, 251, 64, 222, 43, 129, 109, 156, 58, 8,
        225, 70, 234, 3, 226, 123, 212, 17, 133, 173, 173, 175,
    ];
    assert_eq!(sha3_256(b"bitcoin-ts"), hash_bitcoin_ts);
}

#[test]
fn sha3_256_incremental_hash() {
    let state = sha3_256_init();
    let state = sha3_256_update(state.as_slice(), b"bitcoin").unwrap();
    let state = sha3_256_update(state.as_slice(), b"-ts").unwrap();
    assert_eq!(
        sha3_256_final(state.as_slice()).unwrap(),
        sha3_256(b"bitcoin-ts")
    );
}

#[test]
fn empty_input_digest() {
    let empty_digest = vec![
        0xa7u8, 0xff, 0xc6, 0xf8, 0xbf, 0x1e, 0xd7, 0x66, 0x51, 0xc1, 0x47, 0x56, 0xa0, 0x61,
        0xd6, 0x62, 0xf5, 0x80, 0xff, 0x4d, 0xe4, 0x3b, 0x49, 0xfa, 0x82, 0xd8, 0x0a, 0x4b,
        0x80, 0xf8, 0x43, 0x4a,
    ];
    assert_eq!(sha3_256(b""), empty_digest);
    assert_eq!(sha3_256(b""), reference_digest(b""));
    let state = sha3_256_init();
    assert_eq!(sha3_256_final(state.as_slice()).unwrap(), empty_digest);
}

#[test]
fn determinism_two_calls() {
    for input in [&b""[..], b"a", b"bitcoin-ts", b"some longer input with spaces"] {
        assert_eq!(sha3_256(input), sha3_256(input));
    }
}

#[test]
fn matches_reference_one_shot() {
    let long: Vec<u8> = (0u32..300).map(|i| (i % 251) as u8).collect();
    let cases: Vec<&[u8]> = vec![
        b"",
        b"abc",
        b"bitcoin-ts",
        &long[..135],
        &long[..136],
        &long[..137],
        &long[..],
    ];
    for input in cases {
        assert_eq!(sha3_256(input), reference_digest(input), "input length {}", input.len());
    }
}

#[test]
fn chunk_invariance_across_block_boundaries() {
    let data: Vec<u8> = (0u32..400).map(|i| (i * 7 % 256) as u8).collect();
    for split in [0usize, 1, 10, 135, 136, 137, 272, 400] {
        let (a, b) = data.split_at(split);
        let state = sha3_256_init();
        let state = sha3_256_update(state.as_slice(), a).unwrap();
        let state = sha3_256_update(state.as_slice(), b).unwrap();
        let digest = sha3_256_final(state.as_slice()).unwrap();
        assert_eq!(digest, sha3_256(&data), "split at {}", split);
        assert_eq!(digest, reference_digest(&data), "split at {}", split);
    }
}

#[test]
fn update_with_empty_input_keeps_state() {
    let state = sha3_256_init();
    let state = sha3_256_update(state.as_slice(), b"bitcoin").unwrap();
    let same = sha3_256_update(state.as_slice(), b"").unwrap();
    assert_eq!(state, same);
}

#[test]
fn serialized_lengths() {
    let state = sha3_256_init();
    assert_eq!(state.len(), SERIALIZED_LEN);
    let state = sha3_256_update(state.as_slice(), b"bitcoin-ts").unwrap();
    assert_eq!(state.len(), SERIALIZED_LEN);
    assert_eq!(sha3_256_final(state.as_slice()).unwrap().len(), 32);
    assert_eq!(sha3_256(b"bitcoin-ts").len(), 32);
}

#[test]
fn serialized_state_starts_with_version() {
    let state = sha3_256_init();
    assert_eq!(state[0], STATE_VERSION);
    let state = sha3_256_update(state.as_slice(), b"abc").unwrap();
    assert_eq!(state[0], STATE_VERSION);
}

#[test]
fn wrong_length_is_malformed() {
    for len in [0usize, 1, 31, 201, 203, 400] {
        let buf = vec![1u8; len];
        assert_eq!(
            sha3_256_update(buf.as_slice(), b"x").unwrap_err(),
            CodecError::MalformedState,
            "update, length {}",
            len
        );
        assert_eq!(
            sha3_256_final(buf.as_slice()).unwrap_err(),
            CodecError::MalformedState,
            "final, length {}",
            len
        );
    }
}

#[test]
fn unknown_version_is_rejected() {
    for version in [0u8, 2, 7, 255] {
        let mut buf = sha3_256_init();
        buf[0] = version;
        assert_eq!(
            sha3_256_update(buf.as_slice(), b"x").unwrap_err(),
            CodecError::UnsupportedVersion,
            "update, version {}",
            version
        );
        assert_eq!(
            sha3_256_final(buf.as_slice()).unwrap_err(),
            CodecError::UnsupportedVersion,
            "final, version {}",
            version
        );
    }
}

#[test]
fn offset_out_of_block_is_malformed() {
    for offset in [136u8, 137, 200, 255] {
        let mut buf = sha3_256_init();
        buf[201] = offset;
        assert_eq!(
            sha3_256_update(buf.as_slice(), b"x").unwrap_err(),
            CodecError::MalformedState,
            "update, offset {}",
            offset
        );
        assert_eq!(
            sha3_256_final(buf.as_slice()).unwrap_err(),
            CodecError::MalformedState,
            "final, offset {}",
            offset
        );
    }
}

#[test]
fn decode_encode_round_trip() {
    let state = sha3_256_init();
    let state = sha3_256_update(state.as_slice(), b"bitcoin-ts").unwrap();
    let live = decode(state.as_slice()).unwrap();
    let reencoded = encode(live);
    assert_eq!(reencoded, state);
}

#[test]
fn resumed_state_continues_the_same_computation() {
    let state = sha3_256_init();
    let state = sha3_256_update(state.as_slice(), b"bitcoin").unwrap();
    let live = decode(state.as_slice()).unwrap();
    let state = encode(live);
    let state = sha3_256_update(state.as_slice(), b"-ts").unwrap();
    assert_eq!(
        sha3_256_final(state.as_slice()).unwrap(),
        sha3_256(b"bitcoin-ts")
    );
}
