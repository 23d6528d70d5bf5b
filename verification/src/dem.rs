//! The symmetric layer: key derivation and the authenticated cipher.
//!
//! The shared secret of the key encapsulation is a target-group element;
//! its encoding is hashed into a 32-byte key, and the payload is sealed
//! under that key with an authenticated cipher binding the additional
//! authenticated data.  The key is fresh per message (the encapsulation
//! randomness is fresh), so a fixed nonce is used.

use vstd::prelude::*;

use chacha20poly1305::aead::Aead;
use chacha20poly1305::aead::Payload;
use chacha20poly1305::KeyInit;
use sha2::Digest;

verus! {

/// The 32-byte key derived from a shared-secret encoding.
pub uninterp spec fn kdf_of(s: Seq<u8>) -> Seq<u8>;

/// The sealed box of a message under a key, bound to the additional
/// authenticated data.
pub uninterp spec fn dem_seal_of(k: Seq<u8>, m: Seq<u8>, aad: Seq<u8>) -> Seq<u8>;

/// The opening of a sealed box: the message if the key and the
/// authenticated data match the seal, nothing otherwise.
pub uninterp spec fn dem_open_of(k: Seq<u8>, c: Seq<u8>, aad: Seq<u8>) -> Option<Seq<u8>>;

/// Relies on `sha2::Sha256`: the digest depends on the input alone and
/// is 32 bytes long.
#[verifier::external_body]
pub(crate) fn kdf(s: &Vec<u8>) -> (r: Vec<u8>)
    ensures
        r@ == kdf_of(s@),
        r@.len() == 32,
{
    let mut hasher = sha2::Sha256::new();
    hasher.update(&s[..]);
    hasher.finalize().to_vec()
}

/// The longest message the cipher is asked to seal; far below the
/// cipher's own plaintext bound, so sealing cannot fail.
pub const MAX_SEALED_LEN: u64 = 0x10_0000_0000;

/// Relies on `chacha20poly1305` authenticated encryption; opening the
/// seal under the same key and authenticated data returns the message.
#[verifier::external_body]
pub(crate) fn dem_seal(key: &Vec<u8>, msg: &[u8], aad: &[u8]) -> (r: Vec<u8>)
    requires
        key@.len() == 32,
        msg@.len() <= MAX_SEALED_LEN,
    ensures
        r@ == dem_seal_of(key@, msg@, aad@),
        dem_open_of(key@, r@, aad@) == Some(msg@),
{
    let cipher = chacha20poly1305::ChaCha20Poly1305::new(
        chacha20poly1305::Key::from_slice(&key[..]),
    );
    let nonce = chacha20poly1305::Nonce::default();
    cipher.encrypt(&nonce, Payload { msg, aad }).unwrap_or(Vec::new())
}

/// Relies on `chacha20poly1305` authenticated decryption: the opening is
/// a function of key, sealed box and authenticated data, and fails
/// exactly when the box does not authenticate under them.
#[verifier::external_body]
pub(crate) fn dem_open(key: &Vec<u8>, boxed: &[u8], aad: &[u8]) -> (r: Option<Vec<u8>>)
    requires
        key@.len() == 32,
    ensures
        (r is Some) == (dem_open_of(key@, boxed@, aad@) is Some),
        r matches Some(p) ==> Some(p@) == dem_open_of(key@, boxed@, aad@),
{
    let cipher = chacha20poly1305::ChaCha20Poly1305::new(
        chacha20poly1305::Key::from_slice(&key[..]),
    );
    let nonce = chacha20poly1305::Nonce::default();
    match cipher.decrypt(&nonce, Payload { msg: boxed, aad }) {
        Ok(p) => Some(p),
        Err(_) => None,
    }
}

} // verus!
