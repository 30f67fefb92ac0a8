//! Ed25519 signatures for account addresses.
//!
//! Keys and signatures are held as plain byte arrays. The curve arithmetic is
//! done by `ed25519_dalek`; what it returns is named by the specification
//! functions below and is otherwise opaque to the proofs.
use crate::utils::bytes_eq;
use vstd::prelude::*;
use vstd::slice::slice_subrange;
use vstd::string::StringSliceAdditionalSpecFns;

verus! {

/// The public key that `ed25519_dalek` derives from a 32-byte secret key.
pub uninterp spec fn ed25519_public_key(secret: Seq<u8>) -> Seq<u8>;

/// The signature that `ed25519_dalek` produces for `message` under `secret`.
pub uninterp spec fn ed25519_signature(secret: Seq<u8>, message: Seq<u8>) -> Seq<u8>;

/// Whether `ed25519_dalek` accepts `signature` on `message` under `public`.
/// False when `public` is not a curve point or `signature` is malformed.
pub uninterp spec fn ed25519_verifies(
    public: Seq<u8>,
    message: Seq<u8>,
    signature: Seq<u8>,
) -> bool;

/// Whether `ed25519_dalek` accepts 32 bytes as a compressed curve point.
pub uninterp spec fn ed25519_point_valid(bytes: Seq<u8>) -> bool;

/// The Ed25519 scheme, with secret keys derived from a seed by the hash `H`.
#[derive(Debug, PartialEq)]
pub struct Ed25519<H: crate::types::hash::Hash>(pub std::marker::PhantomData<H>);

/// A secret key: the 32-byte seed from which the signing scalar is expanded.
pub struct PrivateKey(pub [u8; 32]);

impl Clone for PrivateKey {
    fn clone(&self) -> (copy: Self)
        ensures
            copy == *self,
    {
        PrivateKey(self.0)
    }
}

impl<H: crate::types::hash::Hash> Clone for Ed25519<H> {
    fn clone(&self) -> (copy: Self) {
        Ed25519(std::marker::PhantomData)
    }
}

/// A public key: a compressed curve point.
#[derive(Clone, Copy, Debug, PartialEq, Eq, Hash)]
pub struct PublicKey(pub [u8; 32]);

/// A signature: the compressed point `R` followed by the scalar `s`.
#[derive(Clone, Copy, Debug, PartialEq, Eq, Hash)]
pub struct Signature(pub [u8; 64]);

/// Why a string is not a public key.
#[derive(Clone, Copy, Debug, PartialEq, Eq)]
pub enum ParsePublicKeyError {
    Invalid,
}

impl ParsePublicKeyError {
    /// The message shown to users.
    pub fn to_string(&self) -> (s: String)
        ensures
            s@ == "public key invalid"@,
    {
        "public key invalid".to_owned()
    }
}

impl DeepView for PublicKey {
    type V = PublicKey;

    open spec fn deep_view(&self) -> PublicKey {
        *self
    }
}

impl DeepView for Signature {
    type V = Signature;

    open spec fn deep_view(&self) -> Signature {
        *self
    }
}

/// `digest` with the top bit of its last byte cleared.
pub open spec fn clamp_seed(digest: [u8; 32]) -> Seq<u8> {
    digest@.update(31, digest[31] & 0x7f)
}

/// The value of one hexadecimal digit, if `c` is one.
pub open spec fn hex_digit(c: u8) -> Option<u8> {
    if 0x30 <= c <= 0x39 {
        Some((c - 0x30) as u8)
    } else if 0x61 <= c <= 0x66 {
        Some((c - 0x61 + 10) as u8)
    } else if 0x41 <= c <= 0x46 {
        Some((c - 0x41 + 10) as u8)
    } else {
        None
    }
}

/// Whether `text` is an even number of hexadecimal digits.
pub open spec fn is_hex(text: Seq<u8>) -> bool {
    &&& text.len() % 2 == 0
    &&& forall|i: int| 0 <= i < text.len() ==> hex_digit(#[trigger] text[i]) is Some
}

/// The bytes that the hexadecimal digits `text` spell, two digits per byte,
/// high digit first.
pub open spec fn hex_bytes(text: Seq<u8>) -> Seq<u8> {
    Seq::new(
        text.len() / 2,
        |i: int| (hex_digit(text[2 * i]).unwrap() * 16 + hex_digit(text[2 * i + 1]).unwrap()) as u8,
    )
}

/// The lower-case hexadecimal digit for a value below 16.
pub open spec fn hex_char(nibble: u8) -> char {
    if nibble < 10 {
        (0x30 + nibble) as char
    } else {
        (0x61 + nibble - 10) as char
    }
}

/// The textual form of a public key: `0x`, then the 32 bytes from last to
/// first, two lower-case hexadecimal digits each.
pub open spec fn public_key_text(key: PublicKey) -> Seq<char> {
    seq!['0', 'x'] + Seq::new(
        64,
        |i: int|
            if i % 2 == 0 {
                hex_char(key.0[31 - i / 2] / 16)
            } else {
                hex_char(key.0[31 - i / 2] % 16)
            },
    )
}

/// Whether `text` has the shape of a public key: 66 bytes, `0x` or `0X`, then
/// 64 hexadecimal digits.
pub open spec fn is_public_key_text(text: Seq<u8>) -> bool {
    &&& text.len() == 66
    &&& text[0] == 0x30
    &&& (text[1] == 0x78 || text[1] == 0x58)
    &&& is_hex(text.subrange(2, 66))
}

/// The 32 key bytes that a well-shaped `text` spells: its digits decoded,
/// then reversed.
pub open spec fn public_key_bytes(text: Seq<u8>) -> Seq<u8> {
    hex_bytes(text.subrange(2, 66)).reverse()
}

/// Derives the public key of a secret key with
/// `ed25519_dalek::PublicKey::from(&SecretKey)`. The contract only names the
/// result: it depends on the 32 secret bytes alone.
#[verifier::external_body]
fn derive_public(secret: &[u8; 32]) -> (public: [u8; 32])
    ensures
        public@ == ed25519_public_key(secret@),
{
    let secret = ed25519_dalek::SecretKey::from_bytes(secret).unwrap();
    ed25519_dalek::PublicKey::from(&secret).to_bytes()
}

/// Signs with `ed25519_dalek::Signer::sign` on the key pair of `secret`.
/// Ed25519 signing is deterministic, so the contract names the result as a
/// function of the secret bytes and the message.
#[verifier::external_body]
fn sign_bytes(secret: &[u8; 32], message: &[u8]) -> (signature: [u8; 64])
    ensures
        signature@ == ed25519_signature(secret@, message@),
{
    let secret = ed25519_dalek::SecretKey::from_bytes(secret).unwrap();
    let public = ed25519_dalek::PublicKey::from(&secret);
    let pair = ed25519_dalek::Keypair { secret, public };
    ed25519_dalek::Signer::sign(&pair, message).to_bytes()
}

/// Verifies with `ed25519_dalek::Verifier::verify`. Bytes that the crate
/// rejects as a key or as a signature verify nothing. The contract only names
/// the result.
#[verifier::external_body]
fn verify_bytes(public: &[u8; 32], message: &[u8], signature: &[u8; 64]) -> (ok: bool)
    ensures
        ok == ed25519_verifies(public@, message@, signature@),
{
    let public = ed25519_dalek::PublicKey::from_bytes(public);
    let signature = ed25519_dalek::Signature::from_bytes(signature);
    match (public, signature) {
        (Ok(public), Ok(signature)) => {
            ed25519_dalek::Verifier::verify(&public, message, &signature).is_ok()
        },
        _ => false,
    }
}

/// Asks `ed25519_dalek::PublicKey::from_bytes` whether 32 bytes decompress to
/// a curve point. The contract only names the answer.
#[verifier::external_body]
fn point_valid(bytes: &[u8; 32]) -> (ok: bool)
    ensures
        ok == ed25519_point_valid(bytes@),
{
    ed25519_dalek::PublicKey::from_bytes(bytes).is_ok()
}

/// Decodes hexadecimal text with `hex::decode`: an even number of digits
/// `0-9`, `a-f`, `A-F` gives the bytes they spell, anything else is refused.
#[verifier::external_body]
fn decode_hex(text: &[u8]) -> (bytes: Option<Vec<u8>>)
    ensures
        bytes is Some <==> is_hex(text@),
        bytes is Some ==> bytes.unwrap()@ == hex_bytes(text@),
{
    match hex::decode(text) {
        Ok(bytes) => Some(bytes),
        Err(_) => None,
    }
}

/// Appends one character with `String::push`.
#[verifier::external_body]
fn push_char(text: &mut String, c: char)
    ensures
        final(text)@ == old(text)@.push(c),
{
    text.push(c)
}

fn hex_char_of(nibble: u8) -> (c: char)
    requires
        nibble < 16,
    ensures
        c == hex_char(nibble),
{
    if nibble < 10 {
        (0x30 + nibble) as char
    } else {
        (0x61 + nibble - 10) as char
    }
}

/// Whether `sig` is a signature of `message` under `pk`.
pub fn verify_signature(pk: &PublicKey, message: &[u8], sig: &Signature) -> (ok: bool)
    ensures
        ok == ed25519_verifies(pk.0@, message@, sig.0@),
{
    verify_bytes(&pk.0, message, &sig.0)
}

impl<H: crate::types::hash::Hash> Ed25519<H> {
    /// Derives a key pair from a seed: the secret key is the hash of the seed
    /// with its top bit cleared.
    pub fn generate_keys(seed: &[u8]) -> (keys: (PublicKey, PrivateKey))
        ensures
            keys.1.0@ == clamp_seed(H::spec_hash(seed@)),
            keys.0.0@ == ed25519_public_key(keys.1.0@),
    {
        let mut x = H::hash(seed);
        let top = x[31] & 0x7f;
        x[31] = top;
        let public = derive_public(&x);
        (PublicKey(public), PrivateKey(x))
    }

    /// Signs `message`.
    pub fn sign(sk: &PrivateKey, message: &[u8]) -> (signature: Signature)
        ensures
            signature.0@ == ed25519_signature(sk.0@, message@),
    {
        Signature(sign_bytes(&sk.0, message))
    }

    /// Whether `sig` is a signature of `message` under `pk`.
    pub fn verify(pk: &PublicKey, message: &[u8], sig: &Signature) -> (ok: bool)
        ensures
            ok == ed25519_verifies(pk.0@, message@, sig.0@),
    {
        verify_signature(pk, message, sig)
    }
}

impl PublicKey {
    /// Whether two keys are the same.
    pub fn same(&self, other: &PublicKey) -> (r: bool)
        ensures
            r == (*self == *other),
    {
        bytes_eq(&self.0, &other.0)
    }

    /// The textual form of the key.
    pub fn to_string(&self) -> (text: String)
        ensures
            text@ == public_key_text(*self),
    {
        let mut text = String::new();
        push_char(&mut text, '0');
        push_char(&mut text, 'x');
        let mut i: usize = 0;
        while i < 32
            invariant
                i <= 32,
                text@.len() == 2 + 2 * i,
                text@ == public_key_text(*self).subrange(0, 2 + 2 * i),
            decreases 32 - i,
        {
            let byte = self.0[31 - i];
            push_char(&mut text, hex_char_of(byte / 16));
            push_char(&mut text, hex_char_of(byte % 16));
            i += 1;
        }
        text
    }

    /// Parses the textual form of a key. Accepts exactly the well-shaped
    /// texts whose bytes are a curve point.
    pub fn from_str(s: &str) -> (r: Result<PublicKey, ParsePublicKeyError>)
        ensures
            r is Ok <==> is_public_key_text(s.spec_bytes()) && ed25519_point_valid(
                public_key_bytes(s.spec_bytes()),
            ),
            r is Ok ==> r.unwrap().0@ == public_key_bytes(s.spec_bytes()),
    {
        let text = s.as_bytes();
        if text.len() != 66 || text[0] != 0x30 || (text[1] != 0x78 && text[1] != 0x58) {
            return Err(ParsePublicKeyError::Invalid);
        }
        let decoded = match decode_hex(slice_subrange(text, 2, 66)) {
            Some(decoded) => decoded,
            None => {
                return Err(ParsePublicKeyError::Invalid);
            },
        };
        let mut bytes = [0u8; 32];
        let mut i: usize = 0;
        while i < 32
            invariant
                i <= 32,
                decoded@.len() == 32,
                forall|j: int| 0 <= j < i ==> bytes[j] == decoded@[31 - j],
            decreases 32 - i,
        {
            bytes[i] = decoded[31 - i];
            i += 1;
        }
        assert(bytes@ =~= decoded@.reverse());
        if point_valid(&bytes) {
            Ok(PublicKey(bytes))
        } else {
            Err(ParsePublicKeyError::Invalid)
        }
    }
}


impl std::str::FromStr for PublicKey {
    type Err = ParsePublicKeyError;

    /// Parses the textual form of a key, as [`PublicKey::from_str`] does:
    /// it accepts exactly the well-shaped texts whose bytes are a curve
    /// point, and gives the key that the text spells.
    fn from_str(s: &str) -> (r: Result<Self, Self::Err>)
        ensures
            r is Ok <==> is_public_key_text(s.spec_bytes()) && ed25519_point_valid(
                public_key_bytes(s.spec_bytes()),
            ),
            r is Ok ==> r.unwrap().0@ == public_key_bytes(s.spec_bytes()),
            r is Err ==> r.unwrap_err() == ParsePublicKeyError::Invalid,
    {
        PublicKey::from_str(s)
    }
}

} // verus!
