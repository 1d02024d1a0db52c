use zenchain_signer::{
    AccountId20, ChainTypes, Error, MultiAddress, MultiSignature, PairSigner, ReadOutcome,
    SeedError, Signer, ZenchainConfig,
};

const KEY_ONE: &str = "0x0000000000000000000000000000000000000000000000000000000000000001";

/// The account derived from the secp256k1 secret key 1: the last 20
/// bytes of the Keccak-256 digest of the uncompressed generator point.
const KEY_ONE_ACCOUNT: [u8; 20] = [
    0x7e, 0x5f, 0x45, 0x52, 0x09, 0x1a, 0x69, 0x12, 0x5d, 0x5d, 0xfc, 0xb7, 0xb8, 0xc2, 0x65,
    0x90, 0x29, 0x39, 0x5b, 0xdf,
];

fn literal(seed: &str) -> Signer {
    Signer::new(seed, ReadOutcome::Missing).unwrap()
}

#[test]
fn exact_account_for_known_secret_key() {
    let signer = literal(KEY_ONE);
    assert_eq!(signer.account_id().0, KEY_ONE_ACCOUNT);
}

#[test]
fn create_is_deterministic() {
    let a = literal("//Alice");
    let b = literal("//Alice");
    assert_eq!(a.account_id(), b.account_id());
}

#[test]
fn accounts_differ_for_different_seeds() {
    let a = literal("//Alice");
    let b = literal("//Bob");
    assert_ne!(a.account_id(), b.account_id());
}

#[test]
fn address_round_trips_to_account_id() {
    let signer = literal("//Alice");
    let address = signer.address();
    assert_eq!(address.as_account_id().as_ref(), Some(signer.account_id()));
}

#[test]
fn non_direct_addresses_have_no_account_id() {
    assert_eq!(MultiAddress::Index(7).as_account_id(), None);
    assert_eq!(MultiAddress::Raw(vec![1, 2, 3]).as_account_id(), None);
    assert_eq!(MultiAddress::Address32([0; 32]).as_account_id(), None);
    assert_eq!(MultiAddress::Address20([0; 20]).as_account_id(), None);
}

#[test]
fn signatures_differ_between_payloads() {
    let signer = literal("//Alice");
    let s1 = signer.sign(b"payload one");
    let s2 = signer.sign(b"payload two");
    assert_ne!(s1, s2);
}

#[test]
fn signing_the_same_payload_twice_matches() {
    let signer = literal("//Alice");
    assert_eq!(signer.sign(b"payload"), signer.sign(b"payload"));
}

#[test]
fn signature_is_ecdsa_and_verifies() {
    let payload: &[u8] = b"an opaque signer payload";
    let signer = literal("//Alice");
    let raw = match signer.sign(payload) {
        MultiSignature::Ecdsa(raw) => raw,
        other => panic!("not an ECDSA signature: {:?}", other),
    };
    let pair =
        <sp_core::ecdsa::Pair as sp_core::Pair>::from_string("//Alice", None).unwrap();
    let signature = sp_core::ecdsa::Signature::from_raw(raw);
    let public = sp_core::Pair::public(&pair);
    assert!(<sp_core::ecdsa::Pair as sp_core::Pair>::verify(
        &signature, payload, &public
    ));
}

#[test]
fn pair_signer_matches_seed_construction() {
    let pair =
        <sp_core::ecdsa::Pair as sp_core::Pair>::from_string(KEY_ONE, None).unwrap();
    let from_pair = PairSigner::new(pair);
    assert_eq!(from_pair.account_id().0, KEY_ONE_ACCOUNT);
    assert_eq!(
        from_pair.address().as_account_id(),
        Some(AccountId20(KEY_ONE_ACCOUNT))
    );
}

#[test]
fn file_contents_take_precedence_over_literal() {
    let through_file = Signer::new("alice", ReadOutcome::Found(b"//Bob".to_vec())).unwrap();
    let direct = literal("//Bob");
    assert_eq!(through_file.account_id(), direct.account_id());
    let other = literal("//Alice");
    assert_ne!(through_file.account_id(), other.account_id());
}

#[test]
fn missing_file_falls_back_to_literal_seed() {
    let signer = Signer::new("//Alice", ReadOutcome::Missing).unwrap();
    assert_eq!(signer.account_id(), literal("//Alice").account_id());
}

#[test]
fn path_candidate_trims_the_input() {
    assert_eq!(zenchain_signer::path_candidate("  //Alice\t"), "//Alice");
    assert_eq!(zenchain_signer::path_candidate("seed"), "seed");
}

#[test]
fn surrounding_whitespace_is_trimmed() {
    let padded = literal("  //Alice\t");
    assert_eq!(padded.account_id(), literal("//Alice").account_id());
}

#[test]
fn file_contents_are_trimmed() {
    let signer = Signer::new("seedfile", ReadOutcome::Found(b"\n  //Alice  \n".to_vec()))
        .unwrap();
    assert_eq!(signer.account_id(), literal("//Alice").account_id());
}

#[test]
fn invalid_utf8_file_is_other_error() {
    let result = Signer::new("seedfile", ReadOutcome::Found(vec![0xff, 0xfe, 0xfd]));
    assert!(matches!(result, Err(Error::Other(_))));
}

#[test]
fn unreadable_file_is_io_error() {
    let result = Signer::new(
        "seedfile",
        ReadOutcome::Failed("permission denied".to_string()),
    );
    match result {
        Err(Error::Io(message)) => assert_eq!(message, "permission denied"),
        other => panic!("expected an Io error, got {:?}", other.map(|_| ())),
    }
}

const ZERO_SCALAR: &str = "0x0000000000000000000000000000000000000000000000000000000000000000";
const GROUP_ORDER: &str = "0xfffffffffffffffffffffffffffffffebaaedce6af48a03bbfd25e8cd0364141";
const ORDER_MINUS_ONE: &str =
    "0xfffffffffffffffffffffffffffffffebaaedce6af48a03bbfd25e8cd0364140";

#[test]
fn zero_scalar_hex_seed_is_crypto_error() {
    let result = Signer::new(ZERO_SCALAR, ReadOutcome::Missing);
    assert!(matches!(result, Err(Error::Crypto(SeedError::InvalidSeed))));
}

#[test]
fn group_order_hex_seed_is_crypto_error() {
    let result = Signer::new(GROUP_ORDER, ReadOutcome::Missing);
    assert!(matches!(result, Err(Error::Crypto(SeedError::InvalidSeed))));
}

#[test]
fn zero_scalar_seed_file_is_crypto_error() {
    let result = Signer::new("seedfile", ReadOutcome::Found(ZERO_SCALAR.as_bytes().to_vec()));
    assert!(matches!(result, Err(Error::Crypto(SeedError::InvalidSeed))));
}

#[test]
fn zero_scalar_with_junction_is_crypto_error() {
    let input = format!("{}//Alice", ZERO_SCALAR);
    let result = Signer::new(&input, ReadOutcome::Missing);
    assert!(matches!(result, Err(Error::Crypto(_))));
}

#[test]
fn largest_valid_scalar_is_accepted() {
    let signer = literal(ORDER_MINUS_ONE);
    assert_eq!(signer.account_id(), literal(ORDER_MINUS_ONE).account_id());
}

#[test]
fn hex_seed_with_junction_derives_a_different_account() {
    let input = format!("{}//Alice", KEY_ONE);
    let derived = Signer::new(&input, ReadOutcome::Missing).unwrap();
    assert_ne!(derived.account_id().0, KEY_ONE_ACCOUNT);
}

#[test]
fn wrong_length_hex_seed_is_crypto_error() {
    let result = Signer::new("0x1234", ReadOutcome::Missing);
    assert!(matches!(result, Err(Error::Crypto(SeedError::InvalidSeed))));
}

#[test]
fn wrong_word_count_mnemonic_is_crypto_error() {
    let result = Signer::new("sample split bamboo west visual", ReadOutcome::Missing);
    assert!(matches!(
        result,
        Err(Error::Crypto(SeedError::InvalidPhrase))
    ));
}

#[test]
fn crypto_error_file_contents_do_not_fall_back() {
    // A file whose contents are an invalid seed fails outright even
    // though the literal input would have been a valid seed.
    let result = Signer::new("//Alice", ReadOutcome::Found(b"not a seed".to_vec()));
    assert!(matches!(result, Err(Error::Crypto(_))));
}

#[test]
fn binding_declares_the_wire_types() {
    let account: <ZenchainConfig as ChainTypes>::AccountId = AccountId20(KEY_ONE_ACCOUNT);
    let address: <ZenchainConfig as ChainTypes>::Address = MultiAddress::Id(account);
    assert_eq!(address.as_account_id(), Some(account));
    let signature: <ZenchainConfig as ChainTypes>::Signature = MultiSignature::Ecdsa([0; 65]);
    assert!(matches!(signature, MultiSignature::Ecdsa(_)));
}

#[test]
fn sibling_error_variants_are_available() {
    let errors = vec![
        Error::RpcError("rpc".to_string()),
        Error::Subxt("subxt".to_string()),
        Error::IncorrectPhase,
        Error::AlreadySubmitted,
        Error::AccountDoesNotExists,
        Error::BetterScoreExist,
        Error::InvalidChain("unknown".to_string()),
    ];
    assert_eq!(errors.len(), 7);
}
