use bazuka::crypto::ed25519::{
    verify_signature, Ed25519, ParsePublicKeyError, PrivateKey, PublicKey, Signature,
};

struct Fold;

impl bazuka::types::hash::Hash for Fold {
    /// Spreads the input over 32 bytes. The last byte always has its top bit
    /// set, so that clearing it shows.
    fn hash(data: &[u8]) -> [u8; 32] {
        let mut out = [0x5au8; 32];
        for (i, byte) in data.iter().enumerate() {
            out[i % 32] = out[i % 32].wrapping_mul(31).wrapping_add(*byte);
        }
        out[31] |= 0x80;
        out
    }
}

#[test]
fn generated_secret_is_the_hash_with_its_top_bit_cleared() {
    let (_, sk) = Ed25519::<Fold>::generate_keys(b"seed");
    let mut expected = <Fold as bazuka::types::hash::Hash>::hash(b"seed");
    assert_eq!(expected[31] & 0x80, 0x80);
    expected[31] &= 0x7f;
    assert_eq!(sk.0, expected);
}

#[test]
fn generated_public_key_is_derived_from_the_secret() {
    let (pk, sk) = Ed25519::<Fold>::generate_keys(b"seed");
    assert_ne!(pk.0, sk.0);
    let (again, _) = Ed25519::<Fold>::generate_keys(b"seed");
    assert_eq!(pk, again);
    let (other, _) = Ed25519::<Fold>::generate_keys(b"another seed");
    assert_ne!(pk, other);
}

#[test]
fn known_public_key_of_the_zero_secret() {
    // The public key of the all-zero secret key, as Ed25519 defines it.
    struct Zero;
    impl bazuka::types::hash::Hash for Zero {
        fn hash(_: &[u8]) -> [u8; 32] {
            [0u8; 32]
        }
    }
    let (pk, _) = Ed25519::<Zero>::generate_keys(b"");
    assert_eq!(
        pk.to_string(),
        "0x29da598ba148c03aa643e21d77153265730d6f2ad0a8a3622da4b6cebc276a3b"
    );
}

#[test]
fn a_signature_verifies_under_its_key_and_message() {
    let (pk, sk) = Ed25519::<Fold>::generate_keys(b"seed");
    let sig = Ed25519::<Fold>::sign(&sk, b"message");
    assert!(Ed25519::<Fold>::verify(&pk, b"message", &sig));
    assert!(verify_signature(&pk, b"message", &sig));
}

#[test]
fn a_signature_does_not_verify_another_message_or_key() {
    let (pk, sk) = Ed25519::<Fold>::generate_keys(b"seed");
    let (other, _) = Ed25519::<Fold>::generate_keys(b"other");
    let sig = Ed25519::<Fold>::sign(&sk, b"message");
    assert!(!Ed25519::<Fold>::verify(&pk, b"massage", &sig));
    assert!(!Ed25519::<Fold>::verify(&other, b"message", &sig));
    let mut forged = sig;
    forged.0[3] ^= 1;
    assert!(!Ed25519::<Fold>::verify(&pk, b"message", &forged));
    assert!(!Ed25519::<Fold>::verify(&pk, b"message", &Signature([0xffu8; 64])));
}

#[test]
fn signing_is_deterministic() {
    let (_, sk) = Ed25519::<Fold>::generate_keys(b"seed");
    assert_eq!(Ed25519::<Fold>::sign(&sk, b"m"), Ed25519::<Fold>::sign(&sk, b"m"));
    assert_ne!(Ed25519::<Fold>::sign(&sk, b"m"), Ed25519::<Fold>::sign(&sk, b"n"));
}

#[test]
fn private_key_clone_is_the_same_key() {
    let (pk, sk) = Ed25519::<Fold>::generate_keys(b"seed");
    let copy: PrivateKey = sk.clone();
    assert_eq!(copy.0, sk.0);
    let sig = Ed25519::<Fold>::sign(&copy, b"message");
    assert!(Ed25519::<Fold>::verify(&pk, b"message", &sig));
}

#[test]
fn public_key_text_is_0x_and_the_bytes_reversed_in_hex() {
    let mut bytes = [0u8; 32];
    for (i, byte) in bytes.iter_mut().enumerate() {
        *byte = i as u8;
    }
    bytes[31] = 0xab;
    assert_eq!(
        PublicKey(bytes).to_string(),
        "0xab1e1d1c1b1a191817161514131211100f0e0d0c0b0a09080706050403020100"
    );
}

#[test]
fn public_key_text_parses_back() {
    let (pk, _) = Ed25519::<Fold>::generate_keys(b"seed");
    let text = pk.to_string();
    assert_eq!(text.len(), 66);
    assert_eq!(PublicKey::from_str(&text), Ok(pk));
    assert_eq!(PublicKey::from_str(&text.to_uppercase()), Ok(pk));
    assert_eq!(text.parse::<PublicKey>(), Ok(pk));
    assert_eq!("0x".parse::<PublicKey>(), Err(ParsePublicKeyError::Invalid));
}

#[test]
fn public_key_text_must_be_well_shaped() {
    let (pk, _) = Ed25519::<Fold>::generate_keys(b"seed");
    let text = pk.to_string();
    assert_eq!(PublicKey::from_str(""), Err(ParsePublicKeyError::Invalid));
    assert_eq!(PublicKey::from_str(&text[2..]), Err(ParsePublicKeyError::Invalid));
    assert_eq!(PublicKey::from_str(&text[..65]), Err(ParsePublicKeyError::Invalid));
    assert_eq!(PublicKey::from_str(&format!("{}0", text)), Err(ParsePublicKeyError::Invalid));
    assert_eq!(PublicKey::from_str(&format!("1x{}", &text[2..])), Err(ParsePublicKeyError::Invalid));
    assert_eq!(PublicKey::from_str(&format!("0y{}", &text[2..])), Err(ParsePublicKeyError::Invalid));
    assert_eq!(
        PublicKey::from_str(&format!("0x{}g", &text[2..65])),
        Err(ParsePublicKeyError::Invalid)
    );
}

#[test]
fn public_key_text_must_spell_a_curve_point() {
    // About half of all 32-byte strings are no curve points.
    let mut refused = 0;
    for first in 0..16u8 {
        let mut bytes = [0u8; 32];
        bytes[0] = first;
        let text = PublicKey(bytes).to_string();
        match PublicKey::from_str(&text) {
            Ok(pk) => assert_eq!(pk.0, bytes),
            Err(e) => {
                assert_eq!(e, ParsePublicKeyError::Invalid);
                refused += 1;
            }
        }
    }
    assert!(refused > 0);
    assert!(refused < 16);
}

#[test]
fn parse_error_message() {
    assert_eq!(ParsePublicKeyError::Invalid.to_string(), "public key invalid");
}
