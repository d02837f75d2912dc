use pow_header::digest::H256;
use pow_header::error::Error;
use pow_header::header::{HeaderBuilder, Seal};
use pow_header::u256::U256;

fn sample_digest(fill: u8) -> H256 {
    H256 { bytes: [fill; 32] }
}

fn sample_builder() -> HeaderBuilder {
    HeaderBuilder::default()
        .version(3)
        .parent_hash(&sample_digest(0xaa))
        .timestamp(123_456_789)
        .number(42)
        .txs_commit(&sample_digest(0xbb))
        .txs_proposal(&sample_digest(0xcc))
        .difficulty(&U256 {
            l0: 0xdead_beef,
            l1: 7,
            l2: 0,
            l3: 1,
        })
        .cellbase_id(&sample_digest(0xdd))
        .uncles_hash(&sample_digest(0xee))
        .uncles_count(5)
        .nonce(987_654_321)
        .proof_bytes(vec![1, 2, 3, 4, 5])
}

#[test]
fn round_trip_header() {
    let header = sample_builder().build();
    let bytes = header.canonical_bytes();
    let decoded = HeaderBuilder::new(bytes.as_slice())
        .expect("canonical bytes must decode")
        .build();
    assert_eq!(decoded, header);
}

#[test]
fn round_trip_empty_proof() {
    let header = HeaderBuilder::default().build();
    let bytes = header.canonical_bytes();
    assert_eq!(bytes.len(), 232);
    let decoded = HeaderBuilder::new(bytes.as_slice()).unwrap().build();
    assert_eq!(decoded, header);
}

#[test]
fn malformed_bytes_rejected() {
    assert_eq!(
        HeaderBuilder::new(&[1, 2, 3]).err(),
        Some(Error::DeserializationError)
    );
    // Right shape, but the declared proof length disagrees with the buffer.
    let mut bytes = sample_builder().build().canonical_bytes();
    bytes.push(0xff);
    assert_eq!(
        HeaderBuilder::new(bytes.as_slice()).err(),
        Some(Error::DeserializationError)
    );
    let empty: [u8; 0] = [];
    assert!(HeaderBuilder::new(&empty).is_err());
}

#[test]
fn pow_hash_ignores_seal() {
    let raw_a = sample_builder().build().into_raw();
    let raw_b = sample_builder().build().into_raw();
    let sealed_a = raw_a.with_seal(Seal::new(1, vec![9]));
    let sealed_b = raw_b.with_seal(Seal::new(2, vec![7, 7, 7]));
    assert_eq!(sealed_a.pow_hash(), sealed_b.pow_hash());
    assert_ne!(sealed_a.hash(), sealed_b.hash());
}

#[test]
fn identity_hash_differs_from_pow_hash() {
    let header = sample_builder().build();
    assert_ne!(header.hash(), header.pow_hash());
}

#[test]
fn build_deterministic() {
    let a = sample_builder().build();
    let b = sample_builder().build();
    assert_eq!(a, b);
    assert_eq!(a.hash(), b.hash());
}

#[test]
fn is_genesis_iff_number_zero() {
    let zero = HeaderBuilder::default().number(0).build();
    assert!(zero.is_genesis());
    assert_eq!(zero.number(), 0);
    let other = HeaderBuilder::default().number(7).build();
    assert!(!other.is_genesis());
    assert_eq!(other.number(), 7);
}

#[test]
fn identity_hash_matches_independent_sha3() {
    let header = sample_builder().build();
    let bytes = header.canonical_bytes();
    let mut expected = [0u8; 32];
    let mut hasher = tiny_keccak::Sha3::v256();
    tiny_keccak::Hasher::update(&mut hasher, bytes.as_slice());
    tiny_keccak::Hasher::finalize(hasher, &mut expected);
    assert_eq!(header.hash().as_bytes(), &expected);

    let raw_bytes = header.clone().into_raw().canonical_bytes();
    let mut expected_pow = [0u8; 32];
    let mut pow_hasher = tiny_keccak::Sha3::v256();
    tiny_keccak::Hasher::update(&mut pow_hasher, raw_bytes.as_slice());
    tiny_keccak::Hasher::finalize(pow_hasher, &mut expected_pow);
    assert_eq!(header.pow_hash().as_bytes(), &expected_pow);
}

#[test]
fn with_hash_bypasses_rehashing() {
    let custom = sample_digest(0x42);
    let header = sample_builder().with_hash(&custom);
    assert_eq!(header.hash(), custom);
}

#[test]
fn accessors_return_what_was_set() {
    let header = sample_builder().build();
    assert_eq!(header.version(), 3);
    assert_eq!(header.parent_hash(), sample_digest(0xaa));
    assert_eq!(header.timestamp(), 123_456_789);
    assert_eq!(header.number(), 42);
    assert_eq!(header.txs_commit(), sample_digest(0xbb));
    assert_eq!(header.txs_proposal(), sample_digest(0xcc));
    assert_eq!(
        header.difficulty(),
        U256 {
            l0: 0xdead_beef,
            l1: 7,
            l2: 0,
            l3: 1,
        }
    );
    assert_eq!(header.cellbase_id(), sample_digest(0xdd));
    assert_eq!(header.uncles_hash(), sample_digest(0xee));
    assert_eq!(header.uncles_count(), 5);
    assert_eq!(header.nonce(), 987_654_321);
    assert_eq!(header.proof_bytes(), &[1, 2, 3, 4, 5]);
}

#[test]
fn set_uncles_count_on_template() {
    let mut raw = sample_builder().build().into_raw();
    assert_eq!(raw.uncles_count(), 5);
    raw.set_uncles_count(9);
    assert_eq!(raw.uncles_count(), 9);
}

#[test]
fn header_replaces_draft() {
    let header = sample_builder().build();
    let rebuilt = HeaderBuilder::default().header(header.clone()).build();
    assert_eq!(rebuilt, header);
}
