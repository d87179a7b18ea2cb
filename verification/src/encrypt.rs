//! Digests and authenticated encryption of memory blocks.

use chacha20poly1305::aead::{Aead, KeyInit};
use chacha20poly1305::ChaCha20Poly1305;
use vstd::prelude::*;

use crate::text::{bytes_hex_lower, push_bytes_hex_lower};

verus! {

/// The MD5 digest of `data`, as `md5::compute` returns it.
pub uninterp spec fn md5_digest(data: Seq<u8>) -> Seq<u8>;

/// `md5::compute(data)`, whose 16 bytes are the digest named `md5_digest`.
#[verifier::external_body]
fn md5_compute(data: &[u8]) -> (r: [u8; 16])
    ensures
        r@ == md5_digest(data@),
{
    md5::compute(data).0
}

/// The digest written as `md5::Digest` formats it with `{:x}`: two
/// lower-case hexadecimal digits per byte.
pub fn digest_hex(digest: &[u8; 16]) -> (r: String)
    ensures
        r@ == bytes_hex_lower(digest@),
{
    let mut s = String::new();
    push_bytes_hex_lower(&mut s, digest.as_slice());
    s
}

/// The lower-case hexadecimal MD5 digest of `data`.
pub fn md5_hex(data: &[u8]) -> (r: String)
    ensures
        r@ == bytes_hex_lower(md5_digest(data@)),
{
    let digest = md5_compute(data);
    digest_hex(&digest)
}

#[verifier::external_type_specification]
#[verifier::external_body]
pub struct ExAeadError(chacha20poly1305::Error);

/// The ChaCha20-Poly1305 ciphertext (with its 16-byte tag appended) of
/// `plaintext` under `key` and `nonce`, with no associated data.
pub uninterp spec fn chacha20poly1305_seal(key: Seq<u8>, nonce: Seq<u8>, plaintext: Seq<u8>) -> Seq<
    u8,
>;

/// Whether a message of `len` bytes is short enough to be encrypted: the
/// crate refuses messages of `u32::MAX` or more 64-byte blocks.
pub open spec fn sealable(len: nat) -> bool {
    len / 64 < 0xFFFF_FFFF
}

/// `ChaCha20Poly1305::new(key).encrypt(nonce, plaintext)`; `new` only takes
/// hold of the key. The crate's source refuses exactly the messages that are
/// not `sealable` (more than `u32::MAX` 64-byte blocks) and otherwise returns
/// the ciphertext, which this contract names: the message encrypted in place
/// with the 16-byte tag appended.
#[verifier::external_body]
fn seal(key: &[u8; 32], nonce: &[u8; 12], plaintext: &[u8]) -> (r: Result<
    Vec<u8>,
    chacha20poly1305::Error,
>)
    ensures
        r is Ok <==> sealable(plaintext@.len()),
        r matches Ok(c) ==> c@ == chacha20poly1305_seal(key@, nonce@, plaintext@),
        r matches Ok(c) ==> c@.len() == plaintext@.len() + 16,
{
    let cipher = ChaCha20Poly1305::new(chacha20poly1305::Key::from_slice(key));
    cipher.encrypt(chacha20poly1305::Nonce::from_slice(nonce), plaintext)
}

/// `ChaCha20Poly1305::new(key).decrypt(nonce, ciphertext)`. As an AEAD it
/// gives back exactly the plaintext whose encryption under the same key and
/// nonce is `ciphertext`, and succeeds only on such ciphertexts: the crate's
/// source checks the tag over the ciphertext and undoes the keystream that
/// encryption applied. When it fails, nothing more is stated.
#[verifier::external_body]
fn open(key: &[u8; 32], nonce: &[u8; 12], ciphertext: &[u8]) -> (r: Result<
    Vec<u8>,
    chacha20poly1305::Error,
>)
    ensures
        r matches Ok(p) ==> chacha20poly1305_seal(key@, nonce@, p@) == ciphertext@,
        forall|p: Seq<u8>| #![trigger chacha20poly1305_seal(key@, nonce@, p)]
            (r matches Ok(q) && q@ == p) <== sealable(p.len()) && chacha20poly1305_seal(key@, nonce@, p) == ciphertext@,
{
    let cipher = ChaCha20Poly1305::new(chacha20poly1305::Key::from_slice(key));
    cipher.decrypt(chacha20poly1305::Nonce::from_slice(nonce), ciphertext)
}

/// Why encryption or decryption failed.
#[derive(Debug, Clone, Copy, PartialEq, Eq, Structural)]
pub enum CryptoError {
    /// The cipher refused the message or could not authenticate it.
    Aead,
}

/// Encrypts `message` and decrypts the ciphertext again, giving back both.
pub fn seal_and_open(key: &[u8; 32], nonce: &[u8; 12], message: &[u8]) -> (r: Result<
    (Vec<u8>, Vec<u8>),
    CryptoError,
>)
    ensures
        r is Ok <==> sealable(message@.len()),
        r matches Ok((c, p)) ==> c@ == chacha20poly1305_seal(key@, nonce@, message@) && p@
            == message@ && c@.len() == message@.len() + 16,
{
    let ciphertext = match seal(key, nonce, message) {
        Ok(c) => c,
        Err(_) => {
            return Err(CryptoError::Aead);
        },
    };
    match open(key, nonce, ciphertext.as_slice()) {
        Ok(plaintext) => Ok((ciphertext, plaintext)),
        Err(_) => Err(CryptoError::Aead),
    }
}

} // verus!
