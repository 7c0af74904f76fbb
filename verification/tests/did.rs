use neuromorph_guard::did::{
    begins_with, compute_hash, compute_hash_json, key_array, signature_array, verify_signature,
    BostromDid, DidKeyPair,
};
use neuromorph_guard::errors::MorpheusError;
use neuromorph_guard::security::{
    generate_random_secret, hmac_sign, SecurityError, SecurityPrimitive, SecurityProfile,
};
use neuromorph_guard::VERSION;

const SEED_HEX: &str = "9d61b19deffd5a60ba844af492ec2cc44449c5697b326919703bac031cae7f60";
const PUBLIC_HEX: &str = "d75a980182b10ab7d54bfed3c964073a0ee172f3daa62325af021a68f707511a";
const EMPTY_SIGNATURE_HEX: &str = "e5564300c360ac729086e2cc806e828a84877f1eb8e5d974d873e06522490155\
5fb8821590a33bacc61e39701cf9b46bd25bf5f0595bbe24655141438e7a100b";

fn known_pair() -> DidKeyPair {
    let seed = key_array(&hex::decode(SEED_HEX).unwrap()).unwrap();
    DidKeyPair::from_seed("bostrom_known".to_string(), seed)
}

fn crypto_detail(r: Result<bool, MorpheusError>) -> String {
    match r {
        Err(MorpheusError::CryptoError(m)) => m,
        other => panic!("expected a cryptographic error, got {:?}", other),
    }
}

#[test]
fn test_version() {
    assert!(!VERSION.is_empty());
}

#[test]
fn test_bostrom_did_creation() {
    let did = BostromDid::from_address("bostrom18sd2ujv24ual9c9pshtxys6j8knh6xaead9ye7".to_string());
    assert!(did.did.starts_with("did:bostrom:"));
}

#[test]
fn test_keypair_generation() {
    let keypair = DidKeyPair::generate("bostrom_test".to_string()).unwrap();
    assert!(!keypair.public_key_hex().is_empty());
}

#[test]
fn test_signing_and_verification() {
    let keypair = DidKeyPair::generate("bostrom_test".to_string()).unwrap();
    let message = b"test message";
    let signature = keypair.sign(message).unwrap();
    let public_key_hex = keypair.public_key_hex();
    let signature_hex = hex::encode(signature);
    let verified = verify_signature(&public_key_hex, message, &signature_hex).unwrap();
    assert!(verified);
}

#[test]
fn test_hash_computation() {
    let data = b"test data";
    let hash = compute_hash(data);
    assert_eq!(hash.len(), 64); // SHA256 hex is 64 chars
}

#[test]
fn did_from_address_and_back() {
    let did = BostromDid::from_address("bostrom18sd2".to_string());
    assert_eq!(did.did, "did:bostrom:bostrom18sd2");
    assert_eq!(did.address, "bostrom18sd2");
    let parsed = BostromDid::new(did.did.clone()).unwrap();
    assert_eq!(parsed, did);
    let unicode = BostromDid::new("did:bostrom:\u{e9}t\u{e9}".to_string()).unwrap();
    assert_eq!(unicode.address, "\u{e9}t\u{e9}");
}

#[test]
fn did_parse_errors() {
    match BostromDid::new("did:cosmos:abc".to_string()) {
        Err(MorpheusError::DidError(m)) => {
            assert_eq!(m, "Invalid DID format: must start with 'did:bostrom:'")
        }
        other => panic!("unexpected {:?}", other),
    }
    match BostromDid::new("did:bostrom:".to_string()) {
        Err(MorpheusError::DidError(m)) => assert_eq!(m, "Address cannot be empty"),
        other => panic!("unexpected {:?}", other),
    }
    assert!(BostromDid::new(String::new()).is_err());
    assert!(BostromDid::new("did:bostrom".to_string()).is_err());
    assert!(BostromDid::new("xdid:bostrom:a".to_string()).is_err());
    assert!(BostromDid::new("did:bostrom:a".to_string()).is_ok());
}

#[test]
fn begins_with_compares_characters() {
    assert!(begins_with("did:bostrom:x", "did:bostrom:"));
    assert!(begins_with("abc", ""));
    assert!(begins_with("", ""));
    assert!(!begins_with("", "a"));
    assert!(!begins_with("ab", "abc"));
    assert!(!begins_with("abd", "abc"));
    assert!(begins_with("\u{e9}a", "\u{e9}"));
}

#[test]
fn known_key_pair_signs_as_the_standard_says() {
    let pair = known_pair();
    assert_eq!(pair.public_key_hex(), PUBLIC_HEX);
    assert_eq!(pair.did.did, "did:bostrom:bostrom_known");
    let signature = pair.sign(b"").unwrap();
    assert_eq!(hex::encode(signature), EMPTY_SIGNATURE_HEX);
    assert_eq!(pair.sign_json("").unwrap(), EMPTY_SIGNATURE_HEX);
    assert_eq!(
        verify_signature(PUBLIC_HEX, b"", EMPTY_SIGNATURE_HEX).unwrap(),
        true
    );
}

#[test]
fn sign_json_signs_the_bytes_of_the_text() {
    let pair = known_pair();
    let json = "{\"a\":1}";
    let expected = hex::encode(pair.sign(json.as_bytes()).unwrap());
    let signed = pair.sign_json(json).unwrap();
    assert_eq!(signed, expected);
    assert_eq!(signed.len(), 128);
    assert!(verify_signature(PUBLIC_HEX, json.as_bytes(), &signed).unwrap());
}

#[test]
fn verification_rejects_a_wrong_signature() {
    let pair = known_pair();
    let signature_hex = hex::encode(pair.sign(b"test message").unwrap());
    assert_eq!(
        verify_signature(PUBLIC_HEX, b"another message", &signature_hex).unwrap(),
        false
    );
    let mut forged = pair.sign(b"test message").unwrap();
    forged[0] ^= 1;
    assert_eq!(
        verify_signature(PUBLIC_HEX, b"test message", &hex::encode(forged)).unwrap(),
        false
    );
    let other = DidKeyPair::from_seed("other".to_string(), [7u8; 32]);
    assert_eq!(
        verify_signature(&other.public_key_hex(), b"test message", &signature_hex).unwrap(),
        false
    );
    // upper-case digits are read as well
    assert!(verify_signature(
        &PUBLIC_HEX.to_uppercase(),
        b"test message",
        &signature_hex.to_uppercase()
    )
    .unwrap());
}

#[test]
fn verification_errors_in_order() {
    let good_sig = EMPTY_SIGNATURE_HEX;
    assert_eq!(
        crypto_detail(verify_signature("zz", b"", "also bad")),
        "Invalid public key hex"
    );
    assert_eq!(
        crypto_detail(verify_signature("abc", b"", good_sig)),
        "Invalid public key hex"
    );
    assert_eq!(
        crypto_detail(verify_signature("abcd", b"", "zz")),
        "Invalid public key length"
    );
    assert_eq!(
        crypto_detail(verify_signature("", b"", good_sig)),
        "Invalid public key length"
    );
    // 32 bytes that are no point of the curve
    let mut not_a_key = [0u8; 32];
    not_a_key[0] = 2;
    assert_eq!(
        crypto_detail(verify_signature(&hex::encode(not_a_key), b"", "zz")),
        "Invalid public key"
    );
    assert_eq!(
        crypto_detail(verify_signature(PUBLIC_HEX, b"", "xyz!")),
        "Invalid signature hex"
    );
    assert_eq!(
        crypto_detail(verify_signature(PUBLIC_HEX, b"", "\u{e9}\u{e9}")),
        "Invalid signature hex"
    );
    assert_eq!(
        crypto_detail(verify_signature(PUBLIC_HEX, b"", "00ff")),
        "Invalid signature length"
    );
}

#[test]
fn arrays_copy_their_bytes() {
    let bytes: Vec<u8> = (0u8..32).collect();
    assert_eq!(key_array(&bytes).unwrap().to_vec(), bytes);
    assert!(signature_array(&bytes).is_none());
    let bytes: Vec<u8> = (100u8..164).collect();
    assert_eq!(signature_array(&bytes).unwrap().to_vec(), bytes);
    assert!(key_array(&bytes).is_none());
    assert!(key_array(&vec![]).is_none());
}

#[test]
fn known_digests() {
    assert_eq!(
        compute_hash(b"abc"),
        "ba7816bf8f01cfea414140de5dae2223b00361a396177a9cb410ff61f20015ad"
    );
    assert_eq!(
        compute_hash(b""),
        "e3b0c44298fc1c149afbf4c8996fb92427ae41e4649b934ca495991b7852b855"
    );
    assert_eq!(
        compute_hash_json("abc").unwrap(),
        "ba7816bf8f01cfea414140de5dae2223b00361a396177a9cb410ff61f20015ad"
    );
}

#[test]
fn known_message_authentication_code() {
    let tag = hmac_sign(b"Jefe", b"what do ya want for nothing?").unwrap();
    assert_eq!(
        hex::encode(&tag),
        "5bdcc146bf60754e6a042426089575c75a003f089d2739839dec58b964ec3843"
    );
    assert_eq!(hmac_sign(b"", b"").unwrap().len(), 32);
    let long_key = vec![0xaau8; 131];
    assert_eq!(hmac_sign(&long_key, b"x").unwrap().len(), 32);
    assert_ne!(hmac_sign(b"k1", b"m").unwrap(), hmac_sign(b"k2", b"m").unwrap());
}

#[test]
fn random_secrets_differ() {
    let a = generate_random_secret();
    let b = generate_random_secret();
    assert_eq!(a.len(), 32);
    assert_ne!(a, b);
    let p = DidKeyPair::generate("a".to_string()).unwrap();
    let q = DidKeyPair::generate("a".to_string()).unwrap();
    assert_ne!(p.public_key, q.public_key);
}

#[test]
fn security_profile_rules() {
    let profile = SecurityProfile::neuromorph_default();
    assert_eq!(profile.primitives.len(), 3);
    assert!(matches!(profile.primitives[0], SecurityPrimitive::Aes256Gcm));
    assert!(matches!(
        profile.primitives[1],
        SecurityPrimitive::QuantumLedgerCompatible
    ));
    assert!(matches!(
        profile.primitives[2],
        SecurityPrimitive::GoogolswarmOwnershipProof
    ));
    assert!(profile.neuromorph_identity_required);
    assert!(!profile.dna_based_mfa_placeholder);
    assert!(profile.validate().is_ok());
    let empty = SecurityProfile {
        primitives: vec![],
        neuromorph_identity_required: true,
        dna_based_mfa_placeholder: false,
    };
    assert_eq!(empty.validate(), Err(SecurityError::InvalidProfile));
    assert_eq!(SecurityError::InvalidProfile.message(), "invalid profile");
    assert_eq!(SecurityError::HmacError.message(), "hmac error");
}

#[test]
fn client_error_messages() {
    let cases = vec![
        (MorpheusError::EvidenceInvalid("x".to_string()), "Evidence validation failed: x"),
        (MorpheusError::CorridorViolation("x".to_string()), "Corridor constraint violated: x"),
        (MorpheusError::PolicyError("x".to_string()), "Policy profile error: x"),
        (
            MorpheusError::MonotonicityViolation("x".to_string()),
            "BCI*/RoH monotonicity violation: x",
        ),
        (MorpheusError::GuardRejection("x".to_string()), "Guard rejection: x"),
        (MorpheusError::AuditError("x".to_string()), "Audit record error: x"),
        (MorpheusError::DidError("x".to_string()), "Bostrom DID error: x"),
        (MorpheusError::SerializationError("x".to_string()), "Serialization error: x"),
        (MorpheusError::CryptoError("x".to_string()), "Cryptographic error: x"),
        (MorpheusError::Unknown("x".to_string()), "Unknown error: x"),
    ];
    for (error, text) in cases {
        assert_eq!(error.message(), text);
    }
}
