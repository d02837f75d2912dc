use pow_header::config::Config;
use pow_header::u256::U256;

#[test]
fn default_config_is_all_zero() {
    let cfg = Config::default();
    assert_eq!(cfg.version, 0);
    assert_eq!(cfg.parent_hash.as_bytes(), &[0u8; 32]);
    assert_eq!(cfg.timestamp, 0);
    assert_eq!(cfg.txs_commit.as_bytes(), &[0u8; 32]);
    assert_eq!(cfg.difficulty, U256::zero());
    assert_eq!(cfg.number, 0);
    assert_eq!(cfg.nonce, 0);
    assert!(cfg.proof_bytes.is_empty());
    assert_eq!(cfg.initial_block_reward, 0);
}

#[test]
fn genesis_header_from_configuration() {
    let mut cfg = Config::default();
    cfg.difficulty = U256::from_u64(1000);
    let genesis = cfg.genesis_block();
    assert!(genesis.is_genesis());
    assert_eq!(genesis.number(), 0);
    assert_eq!(genesis.difficulty(), U256::from_u64(1000));
    assert_eq!(genesis.parent_hash().as_bytes(), &[0u8; 32]);
    assert_eq!(genesis.timestamp(), 0);
    assert_eq!(genesis.nonce(), 0);
    assert_eq!(genesis.proof_bytes().len(), 0);

    // The identity hash equals the digest of the canonical bytes, assembled
    // here by hand: 216 raw bytes, then nonce and proof length.
    let mut bytes = vec![0u8; 232];
    bytes[116] = 0xe8;
    bytes[117] = 0x03;
    assert_eq!(genesis.canonical_bytes(), bytes);
    let mut expected = [0u8; 32];
    let mut hasher = tiny_keccak::Sha3::v256();
    tiny_keccak::Hasher::update(&mut hasher, bytes.as_slice());
    tiny_keccak::Hasher::finalize(hasher, &mut expected);
    assert_eq!(genesis.hash().as_bytes(), &expected);
}

#[test]
fn genesis_is_deterministic_across_nodes() {
    let make = || {
        let mut cfg = Config::default();
        cfg.timestamp = 5;
        cfg.difficulty = U256::from_u64(4096);
        cfg.nonce = 77;
        cfg.proof_bytes = vec![1, 2, 3];
        cfg.genesis_block()
    };
    let a = make();
    let b = make();
    assert_eq!(a, b);
    assert_eq!(a.hash(), b.hash());
}
