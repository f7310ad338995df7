//! Signing, key wrapping, authenticated encryption, hashing and randomness.
//!
//! The cryptography itself is libsodium's (through `sodiumoxide`) and the
//! `sha2` crate's. This module checks buffer lengths, so that malformed input
//! is answered with an ordinary value, and gives each outside computation a
//! name that the contracts of the rest of the library speak of.

use vstd::prelude::*;
use sha2::Digest;
use crate::bytes::option_bytes;

verus! {

/// Bytes in an Ed25519 public key.
pub const SIGN_PUBLIC_KEY_LEN: usize = 32;

/// Bytes in an Ed25519 secret key (seed and public key together).
pub const SIGN_SECRET_KEY_LEN: usize = 64;

/// Bytes in an Ed25519 signature.
pub const SIGNATURE_LEN: usize = 64;

/// Bytes in an X25519 public key.
pub const BOX_PUBLIC_KEY_LEN: usize = 32;

/// Bytes in an X25519 secret key.
pub const BOX_SECRET_KEY_LEN: usize = 32;

/// Bytes that a sealed box adds to its plaintext.
pub const SEAL_OVERHEAD: usize = 48;

/// Bytes in a data encryption key.
pub const DEK_LEN: usize = 32;

/// Bytes in an XChaCha20-Poly1305 nonce.
pub const AEAD_NONCE_LEN: usize = 24;

/// Bytes in the authentication tag that the AEAD appends.
pub const AEAD_TAG_LEN: usize = 16;

/// Bytes in a SHA-256 digest.
pub const DIGEST_LEN: usize = 32;

/// The detached Ed25519 signature of `message` under `secret_key`.
pub uninterp spec fn ed25519_signature(message: Seq<u8>, secret_key: Seq<u8>) -> Seq<u8>;

/// Whether `signature` is accepted as an Ed25519 signature of `message` under
/// `public_key`: it parses as a signature and libsodium finds it valid.
pub uninterp spec fn ed25519_valid(signature: Seq<u8>, message: Seq<u8>, public_key: Seq<u8>) -> bool;

/// The XChaCha20-Poly1305 ciphertext, tag included, of `plaintext`.
pub uninterp spec fn aead_sealed(plaintext: Seq<u8>, aad: Seq<u8>, nonce: Seq<u8>, key: Seq<u8>) -> Seq<u8>;

/// What XChaCha20-Poly1305 decryption gives for `ciphertext`: the plaintext, or
/// nothing when authentication fails.
pub uninterp spec fn aead_opened(ciphertext: Seq<u8>, aad: Seq<u8>, nonce: Seq<u8>, key: Seq<u8>) -> Option<Seq<u8>>;

/// The X25519 public key that belongs to `secret_key`: what
/// `sodiumoxide::crypto::box_::SecretKey::public_key` computes from it, and
/// what key generation puts beside it.
pub uninterp spec fn x25519_public_key(secret_key: Seq<u8>) -> Seq<u8>;

/// What opening the sealed box `sealed` with a recipient's keypair gives: the
/// plaintext, or nothing when the box was not sealed to that keypair.
pub uninterp spec fn sealed_box_opened(sealed: Seq<u8>, public_key: Seq<u8>, secret_key: Seq<u8>) -> Option<Seq<u8>>;

/// The SHA-256 digest of `data`.
pub uninterp spec fn sha256_digest(data: Seq<u8>) -> Seq<u8>;

/// Why a primitive refused its arguments.
#[derive(Clone, Copy, Debug, PartialEq, Eq, Structural)]
pub enum CryptoError {
    /// The signing secret key does not have `SIGN_SECRET_KEY_LEN` bytes.
    InvalidSecretKey,
    /// The recipient's public key does not have `BOX_PUBLIC_KEY_LEN` bytes.
    InvalidPublicKey,
    /// The data encryption key does not have `DEK_LEN` bytes.
    InvalidDekLength,
    /// The nonce does not have `AEAD_NONCE_LEN` bytes.
    InvalidNonceLength,
    /// The plaintext with its overhead would be longer than a buffer can be.
    PlaintextTooLong,
}

impl CryptoError {
    /// A description for the operator.
    pub fn message(&self) -> (text: String)
        ensures
            text@ == match *self {
                CryptoError::InvalidSecretKey => "Invalid secret key"@,
                CryptoError::InvalidPublicKey => "Invalid public key"@,
                CryptoError::InvalidDekLength => "Invalid DEK length"@,
                CryptoError::InvalidNonceLength => "Invalid nonce length"@,
                CryptoError::PlaintextTooLong => "Plaintext too long"@,
            },
    {
        match self {
            CryptoError::InvalidSecretKey => "Invalid secret key".to_string(),
            CryptoError::InvalidPublicKey => "Invalid public key".to_string(),
            CryptoError::InvalidDekLength => "Invalid DEK length".to_string(),
            CryptoError::InvalidNonceLength => "Invalid nonce length".to_string(),
            CryptoError::PlaintextTooLong => "Plaintext too long".to_string(),
        }
    }
}

/// Calls `sodiumoxide::init`, which prepares libsodium for use by several
/// threads. Nothing is claimed of the answer: it depends on the machine.
#[verifier::external_body]
fn sodium_init() -> (ready: bool) {
    sodiumoxide::init().is_ok()
}

/// Calls `sodiumoxide::crypto::sign::gen_keypair`. The keys are random. Their
/// lengths are those of the crate's key types, and libsodium writes the
/// public key once more as the second half of the secret key.
#[verifier::external_body]
fn ed25519_keypair() -> (pair: (Vec<u8>, Vec<u8>))
    ensures
        pair.0@.len() == SIGN_SECRET_KEY_LEN,
        pair.1@.len() == SIGN_PUBLIC_KEY_LEN,
        pair.0@.subrange(SIGN_SECRET_KEY_LEN - SIGN_PUBLIC_KEY_LEN, SIGN_SECRET_KEY_LEN as int)
            == pair.1@,
{
    let (pk, sk) = sodiumoxide::crypto::sign::gen_keypair();
    (sk.as_ref().to_vec(), pk.as_ref().to_vec())
}

/// Calls `sodiumoxide::crypto::box_::gen_keypair`. The secret key is random.
/// The lengths are those of the crate's key types, and libsodium computes the
/// public key from the secret key as `SecretKey::public_key` does.
#[verifier::external_body]
fn x25519_keypair() -> (pair: (Vec<u8>, Vec<u8>))
    ensures
        pair.0@.len() == BOX_SECRET_KEY_LEN,
        pair.1@.len() == BOX_PUBLIC_KEY_LEN,
        pair.1@ == x25519_public_key(pair.0@),
{
    let (pk, sk) = sodiumoxide::crypto::box_::gen_keypair();
    (sk.as_ref().to_vec(), pk.as_ref().to_vec())
}

/// Calls `sodiumoxide::randombytes::randombytes`, which fills a new buffer of
/// the length asked for. Only that length is claimed.
#[verifier::external_body]
fn random_bytes(size: usize) -> (bytes: Vec<u8>)
    ensures
        bytes@.len() == size,
{
    sodiumoxide::randombytes::randombytes(size)
}

/// Calls `sodiumoxide::crypto::sign::sign_detached`. Ed25519 signing is
/// deterministic, so the signature is a function of message and key; it has
/// the length of the crate's signature type.
#[verifier::external_body]
fn ed25519_sign_detached(message: &[u8], secret_key: &[u8]) -> (signature: Vec<u8>)
    requires
        secret_key@.len() == SIGN_SECRET_KEY_LEN,
    ensures
        signature@ == ed25519_signature(message@, secret_key@),
        signature@.len() == SIGNATURE_LEN,
{
    match sodiumoxide::crypto::sign::SecretKey::from_slice(secret_key) {
        Some(sk) => sodiumoxide::crypto::sign::sign_detached(message, &sk).as_ref().to_vec(),
        None => Vec::new(),
    }
}

/// Calls `sodiumoxide::crypto::sign::verify_detached`, after parsing the
/// signature with `Signature::from_bytes`; a signature that does not parse is
/// not valid. The answer is a function of the three buffers.
#[verifier::external_body]
fn ed25519_verify_detached(signature: &[u8], message: &[u8], public_key: &[u8]) -> (valid: bool)
    requires
        signature@.len() == SIGNATURE_LEN,
        public_key@.len() == SIGN_PUBLIC_KEY_LEN,
    ensures
        valid == ed25519_valid(signature@, message@, public_key@),
{
    let pk = match sodiumoxide::crypto::sign::PublicKey::from_slice(public_key) {
        Some(pk) => pk,
        None => return false,
    };
    match sodiumoxide::crypto::sign::Signature::from_bytes(signature) {
        Ok(sig) => sodiumoxide::crypto::sign::verify_detached(&sig, message, &pk),
        Err(_) => false,
    }
}

/// Calls `sodiumoxide::crypto::aead::xchacha20poly1305_ietf::seal`. The
/// ciphertext is a function of the four buffers, is longer than the plaintext
/// by the tag, and opens to the plaintext under the same nonce, key and
/// associated data.
#[verifier::external_body]
fn xchacha20poly1305_seal(plaintext: &[u8], aad: &[u8], nonce: &[u8], key: &[u8]) -> (ciphertext:
    Vec<u8>)
    requires
        nonce@.len() == AEAD_NONCE_LEN,
        key@.len() == DEK_LEN,
        plaintext@.len() + AEAD_TAG_LEN <= isize::MAX,
    ensures
        ciphertext@ == aead_sealed(plaintext@, aad@, nonce@, key@),
        ciphertext@.len() == plaintext@.len() + AEAD_TAG_LEN,
        aead_opened(ciphertext@, aad@, nonce@, key@) == Some(plaintext@),
{
    let k = sodiumoxide::crypto::aead::xchacha20poly1305_ietf::Key::from_slice(key);
    let n = sodiumoxide::crypto::aead::xchacha20poly1305_ietf::Nonce::from_slice(nonce);
    match (k, n) {
        (Some(k), Some(n)) => sodiumoxide::crypto::aead::xchacha20poly1305_ietf::seal(
            plaintext,
            Some(aad),
            &n,
            &k,
        ),
        _ => Vec::new(),
    }
}

/// Calls `sodiumoxide::crypto::aead::xchacha20poly1305_ietf::open`. The answer
/// is a function of the four buffers. A ciphertext shorter than the tag is
/// refused, and a plaintext is shorter than its ciphertext by the tag.
#[verifier::external_body]
fn xchacha20poly1305_open(ciphertext: &[u8], aad: &[u8], nonce: &[u8], key: &[u8]) -> (plaintext:
    Option<Vec<u8>>)
    requires
        nonce@.len() == AEAD_NONCE_LEN,
        key@.len() == DEK_LEN,
    ensures
        match plaintext {
            Some(p) => aead_opened(ciphertext@, aad@, nonce@, key@) == Some(p@) && p@.len()
                + AEAD_TAG_LEN == ciphertext@.len(),
            None => aead_opened(ciphertext@, aad@, nonce@, key@) is None,
        },
        ciphertext@.len() < AEAD_TAG_LEN ==> plaintext is None,
{
    let k = sodiumoxide::crypto::aead::xchacha20poly1305_ietf::Key::from_slice(key)?;
    let n = sodiumoxide::crypto::aead::xchacha20poly1305_ietf::Nonce::from_slice(nonce)?;
    sodiumoxide::crypto::aead::xchacha20poly1305_ietf::open(ciphertext, Some(aad), &n, &k).ok()
}

/// Calls `sodiumoxide::crypto::sealedbox::seal`. The box is made with a fresh
/// random key, so its bytes have no name. It is longer than the plaintext by
/// the overhead, and it opens to the plaintext under the public key it was
/// sealed to and every secret key that this public key belongs to.
#[verifier::external_body]
fn sealed_box_seal(plaintext: &[u8], public_key: &[u8]) -> (sealed: Vec<u8>)
    requires
        public_key@.len() == BOX_PUBLIC_KEY_LEN,
        plaintext@.len() + SEAL_OVERHEAD <= isize::MAX,
    ensures
        sealed@.len() == plaintext@.len() + SEAL_OVERHEAD,
        forall|secret_key: Seq<u8>|
            secret_key.len() == BOX_SECRET_KEY_LEN && #[trigger] x25519_public_key(secret_key)
                == public_key@ ==> sealed_box_opened(sealed@, public_key@, secret_key) == Some(
                plaintext@,
            ),
{
    match sodiumoxide::crypto::box_::PublicKey::from_slice(public_key) {
        Some(pk) => sodiumoxide::crypto::sealedbox::seal(plaintext, &pk),
        None => Vec::new(),
    }
}

/// Calls `sodiumoxide::crypto::sealedbox::open`. The answer is a function of
/// the three buffers. A box shorter than the overhead is refused, and a
/// plaintext is shorter than its box by the overhead.
#[verifier::external_body]
fn sealed_box_open(sealed: &[u8], public_key: &[u8], secret_key: &[u8]) -> (plaintext: Option<
    Vec<u8>,
>)
    requires
        public_key@.len() == BOX_PUBLIC_KEY_LEN,
        secret_key@.len() == BOX_SECRET_KEY_LEN,
    ensures
        match plaintext {
            Some(p) => sealed_box_opened(sealed@, public_key@, secret_key@) == Some(p@) && p@.len()
                + SEAL_OVERHEAD == sealed@.len(),
            None => sealed_box_opened(sealed@, public_key@, secret_key@) is None,
        },
        sealed@.len() < SEAL_OVERHEAD ==> plaintext is None,
{
    let pk = sodiumoxide::crypto::box_::PublicKey::from_slice(public_key)?;
    let sk = sodiumoxide::crypto::box_::SecretKey::from_slice(secret_key)?;
    sodiumoxide::crypto::sealedbox::open(sealed, &pk, &sk).ok()
}

/// Calls `sha2::Sha256` (`new`, `update`, `finalize`). The digest is a
/// function of the data and has 32 bytes.
#[verifier::external_body]
fn sha256_bytes(data: &[u8]) -> (digest: Vec<u8>)
    ensures
        digest@ == sha256_digest(data@),
        digest@.len() == DIGEST_LEN,
{
    let mut hasher = sha2::Sha256::new();
    hasher.update(data);
    hasher.finalize().to_vec()
}

/// Whether `verify` accepts: both buffers have their fixed lengths and
/// libsodium finds the signature valid.
pub open spec fn signature_accepted(message: Seq<u8>, signature: Seq<u8>, public_key: Seq<u8>) -> bool {
    public_key.len() == SIGN_PUBLIC_KEY_LEN && signature.len() == SIGNATURE_LEN && ed25519_valid(
        signature,
        message,
        public_key,
    )
}

/// What `decrypt_aead` gives: nothing for a key or nonce of the wrong length,
/// else what the AEAD gives.
pub open spec fn aead_plaintext(ciphertext: Seq<u8>, nonce: Seq<u8>, dek: Seq<u8>, aad: Seq<u8>) -> Option<Seq<u8>> {
    if dek.len() == DEK_LEN && nonce.len() == AEAD_NONCE_LEN {
        aead_opened(ciphertext, aad, nonce, dek)
    } else {
        None
    }
}

/// What `open_sealed_box` gives: nothing for a key of the wrong length, else
/// what the sealed box gives.
pub open spec fn unsealed(sealed: Seq<u8>, public_key: Seq<u8>, secret_key: Seq<u8>) -> Option<Seq<u8>> {
    if public_key.len() == BOX_PUBLIC_KEY_LEN && secret_key.len() == BOX_SECRET_KEY_LEN {
        sealed_box_opened(sealed, public_key, secret_key)
    } else {
        None
    }
}

pub struct CryptoPrimitives;

impl CryptoPrimitives {
    /// Prepares libsodium; call once before the other primitives are used from
    /// several threads. Tells whether libsodium reported success.
    pub fn init() -> (ready: bool) {
        sodium_init()
    }

    /// A fresh Ed25519 keypair, as (secret key, public key). The secret key
    /// holds the public key as its second half.
    pub fn gen_sign_keypair() -> (pair: (Vec<u8>, Vec<u8>))
        ensures
            pair.0@.len() == SIGN_SECRET_KEY_LEN,
            pair.1@.len() == SIGN_PUBLIC_KEY_LEN,
            pair.0@.subrange(SIGN_SECRET_KEY_LEN - SIGN_PUBLIC_KEY_LEN, SIGN_SECRET_KEY_LEN as int)
                == pair.1@,
    {
        ed25519_keypair()
    }

    /// A fresh X25519 keypair, as (secret key, public key). The public key is
    /// the one that belongs to the secret key.
    pub fn gen_box_keypair() -> (pair: (Vec<u8>, Vec<u8>))
        ensures
            pair.0@.len() == BOX_SECRET_KEY_LEN,
            pair.1@.len() == BOX_PUBLIC_KEY_LEN,
            pair.1@ == x25519_public_key(pair.0@),
    {
        x25519_keypair()
    }

    /// A fresh random data encryption key.
    pub fn gen_dek() -> (dek: Vec<u8>)
        ensures
            dek@.len() == DEK_LEN,
    {
        random_bytes(DEK_LEN)
    }

    /// A fresh random nonce.
    pub fn gen_nonce() -> (nonce: Vec<u8>)
        ensures
            nonce@.len() == AEAD_NONCE_LEN,
    {
        random_bytes(AEAD_NONCE_LEN)
    }

    /// Signs `message`. Fails exactly when the secret key has the wrong length.
    pub fn sign(message: &[u8], sk_bytes: &[u8]) -> (signed: Result<Vec<u8>, CryptoError>)
        ensures
            match signed {
                Ok(signature) => sk_bytes@.len() == SIGN_SECRET_KEY_LEN && signature@
                    == ed25519_signature(message@, sk_bytes@) && signature@.len() == SIGNATURE_LEN,
                Err(e) => sk_bytes@.len() != SIGN_SECRET_KEY_LEN && e
                    == CryptoError::InvalidSecretKey,
            },
    {
        if sk_bytes.len() != SIGN_SECRET_KEY_LEN {
            return Err(CryptoError::InvalidSecretKey);
        }
        Ok(ed25519_sign_detached(message, sk_bytes))
    }

    /// Verifies a signature. A key or signature of the wrong length is answered
    /// with `false`, as a signature that does not verify is.
    pub fn verify(message: &[u8], signature: &[u8], pk_bytes: &[u8]) -> (valid: bool)
        ensures
            valid == signature_accepted(message@, signature@, pk_bytes@),
    {
        if pk_bytes.len() != SIGN_PUBLIC_KEY_LEN {
            return false;
        }
        if signature.len() != SIGNATURE_LEN {
            return false;
        }
        ed25519_verify_detached(signature, message, pk_bytes)
    }

    /// Encrypts and authenticates `plaintext`, binding `aad` to it. Fails
    /// exactly when the key or the nonce has the wrong length, or when the
    /// ciphertext would be longer than a buffer can be. What comes out is
    /// longer than `plaintext` by the tag and decrypts to `plaintext` under
    /// the same nonce, key and `aad`.
    pub fn encrypt_aead(plaintext: &[u8], nonce: &[u8], dek: &[u8], aad: &[u8]) -> (sealed: Result<
        Vec<u8>,
        CryptoError,
    >)
        ensures
            match sealed {
                Ok(ciphertext) => dek@.len() == DEK_LEN && nonce@.len() == AEAD_NONCE_LEN
                    && plaintext@.len() + AEAD_TAG_LEN <= isize::MAX && ciphertext@ == aead_sealed(
                    plaintext@,
                    aad@,
                    nonce@,
                    dek@,
                ) && ciphertext@.len() == plaintext@.len() + AEAD_TAG_LEN && aead_plaintext(
                    ciphertext@,
                    nonce@,
                    dek@,
                    aad@,
                ) == Some(plaintext@),
                Err(CryptoError::InvalidDekLength) => dek@.len() != DEK_LEN,
                Err(CryptoError::InvalidNonceLength) => dek@.len() == DEK_LEN && nonce@.len()
                    != AEAD_NONCE_LEN,
                Err(CryptoError::PlaintextTooLong) => dek@.len() == DEK_LEN && nonce@.len()
                    == AEAD_NONCE_LEN && plaintext@.len() + AEAD_TAG_LEN > isize::MAX,
                Err(_) => false,
            },
    {
        if dek.len() != DEK_LEN {
            return Err(CryptoError::InvalidDekLength);
        }
        if nonce.len() != AEAD_NONCE_LEN {
            return Err(CryptoError::InvalidNonceLength);
        }
        if plaintext.len() > isize::MAX as usize - AEAD_TAG_LEN {
            return Err(CryptoError::PlaintextTooLong);
        }
        Ok(xchacha20poly1305_seal(plaintext, aad, nonce, dek))
    }

    /// Decrypts `ciphertext`. Gives nothing when the key or the nonce has the
    /// wrong length, when the ciphertext is shorter than the tag or when
    /// authentication fails, without telling which. A plaintext is shorter
    /// than its ciphertext by the tag.
    pub fn decrypt_aead(ciphertext: &[u8], nonce: &[u8], dek: &[u8], aad: &[u8]) -> (opened: Option<
        Vec<u8>,
    >)
        ensures
            option_bytes(opened) == aead_plaintext(ciphertext@, nonce@, dek@, aad@),
            ciphertext@.len() < AEAD_TAG_LEN ==> opened is None,
            opened matches Some(p) ==> p@.len() + AEAD_TAG_LEN == ciphertext@.len(),
    {
        if dek.len() != DEK_LEN {
            return None;
        }
        if nonce.len() != AEAD_NONCE_LEN {
            return None;
        }
        xchacha20poly1305_open(ciphertext, aad, nonce, dek)
    }

    /// Seals `plaintext` to a recipient. Fails exactly when the public key has
    /// the wrong length, or when the box would be longer than a buffer can be.
    /// The box is longer than the plaintext by `SEAL_OVERHEAD`; its bytes
    /// differ from call to call. It opens to `plaintext` under `pk_bytes` and
    /// every secret key that `pk_bytes` belongs to.
    pub fn seal_box(plaintext: &[u8], pk_bytes: &[u8]) -> (sealed: Result<Vec<u8>, CryptoError>)
        ensures
            match sealed {
                Ok(boxed) => pk_bytes@.len() == BOX_PUBLIC_KEY_LEN && plaintext@.len()
                    + SEAL_OVERHEAD <= isize::MAX && boxed@.len() == plaintext@.len()
                    + SEAL_OVERHEAD && forall|secret_key: Seq<u8>|
                    secret_key.len() == BOX_SECRET_KEY_LEN && #[trigger] x25519_public_key(
                        secret_key,
                    ) == pk_bytes@ ==> unsealed(boxed@, pk_bytes@, secret_key) == Some(
                        plaintext@,
                    ),
                Err(CryptoError::InvalidPublicKey) => pk_bytes@.len() != BOX_PUBLIC_KEY_LEN,
                Err(CryptoError::PlaintextTooLong) => pk_bytes@.len() == BOX_PUBLIC_KEY_LEN
                    && plaintext@.len() + SEAL_OVERHEAD > isize::MAX,
                Err(_) => false,
            },
    {
        if pk_bytes.len() != BOX_PUBLIC_KEY_LEN {
            return Err(CryptoError::InvalidPublicKey);
        }
        if plaintext.len() > isize::MAX as usize - SEAL_OVERHEAD {
            return Err(CryptoError::PlaintextTooLong);
        }
        Ok(sealed_box_seal(plaintext, pk_bytes))
    }

    /// Opens a sealed box with the recipient's keypair. Gives nothing when a
    /// key has the wrong length, when the box is shorter than `SEAL_OVERHEAD`
    /// or when it does not open. A plaintext is shorter than its box by
    /// `SEAL_OVERHEAD`.
    pub fn open_sealed_box(ciphertext: &[u8], pk_bytes: &[u8], sk_bytes: &[u8]) -> (opened: Option<
        Vec<u8>,
    >)
        ensures
            option_bytes(opened) == unsealed(ciphertext@, pk_bytes@, sk_bytes@),
            ciphertext@.len() < SEAL_OVERHEAD ==> opened is None,
            opened matches Some(p) ==> p@.len() + SEAL_OVERHEAD == ciphertext@.len(),
    {
        if pk_bytes.len() != BOX_PUBLIC_KEY_LEN {
            return None;
        }
        if sk_bytes.len() != BOX_SECRET_KEY_LEN {
            return None;
        }
        sealed_box_open(ciphertext, pk_bytes, sk_bytes)
    }

    /// The SHA-256 digest of `data`.
    pub fn sha256(data: &[u8]) -> (digest: Vec<u8>)
        ensures
            digest@ == sha256_digest(data@),
            digest@.len() == DIGEST_LEN,
    {
        sha256_bytes(data)
    }
}

} // verus!
