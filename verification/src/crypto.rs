//! The cryptographic primitives of the PIN protocol, from `ring`, `aes`,
//! `cbc` and `rand`.
use vstd::prelude::*;
use aes::cipher::generic_array::GenericArray;
use cbc::cipher::{BlockDecryptMut, BlockEncryptMut, KeyIvInit};
use cbc::cipher::block_padding::NoPadding;
use rand::RngExt;
use ring::agreement::EphemeralPrivateKey;

verus! {

/// The SHA-256 digest of the bytes.
pub uninterp spec fn sha256_digest(data: Seq<u8>) -> Seq<u8>;

/// The HMAC-SHA-256 tag of `msg` under `key`.
pub uninterp spec fn hmac_sha256_tag(key: Seq<u8>, msg: Seq<u8>) -> Seq<u8>;

/// AES-256 in CBC mode with an all-zero IV, without padding, applied to
/// whole 16-byte blocks.
pub uninterp spec fn aes256_cbc_encryption(key: Seq<u8>, data: Seq<u8>) -> Seq<u8>;

/// The inverse direction of `aes256_cbc_encryption`.
pub uninterp spec fn aes256_cbc_decryption(key: Seq<u8>, data: Seq<u8>) -> Seq<u8>;

/// `ring::digest::digest(&SHA256, data)`: the documented output length
/// of SHA-256 is 32 bytes.
#[verifier::external_body]
pub(crate) fn sha256(data: &[u8]) -> (r: Vec<u8>)
    ensures
        r@ == sha256_digest(data@),
        r@.len() == 32,
{
    ring::digest::digest(&ring::digest::SHA256, data).as_ref().to_vec()
}

/// `ring::hmac::sign` with an `HMAC_SHA256` key made from `key`: the tag
/// is the 32-byte HMAC-SHA-256 output.
#[verifier::external_body]
pub(crate) fn hmac_sha256(key: &[u8], msg: &[u8]) -> (r: Vec<u8>)
    ensures
        r@ == hmac_sha256_tag(key@, msg@),
        r@.len() == 32,
{
    let k = ring::hmac::Key::new(ring::hmac::HMAC_SHA256, key);
    ring::hmac::sign(&k, msg).as_ref().to_vec()
}

/// `cbc::Encryptor::<aes::Aes256>` with a zero IV, `encrypt_padded_mut`
/// with `NoPadding`: the key must be 32 bytes (`GenericArray::from_slice`
/// panics otherwise) and the data whole blocks (the padding step refuses
/// a partial block). The ciphertext is as long as the plaintext.
#[verifier::external_body]
pub(crate) fn aes256_cbc_encrypt(key: &[u8], data: &[u8]) -> (r: Vec<u8>)
    requires
        key.len() == 32,
        data.len() % 16 == 0,
    ensures
        r@ == aes256_cbc_encryption(key@, data@),
        r@.len() == data@.len(),
{
    let iv = [0u8; 16];
    let enc = cbc::Encryptor::<aes::Aes256>::new(GenericArray::from_slice(key), GenericArray::from_slice(&iv));
    let mut buf = data.to_vec();
    let n: usize = buf.len();
    enc.encrypt_padded_mut::<NoPadding>(&mut buf, n).unwrap().to_vec()
}

/// `cbc::Decryptor::<aes::Aes256>` with a zero IV, `decrypt_padded_mut`
/// with `NoPadding`: it fails exactly when the data is not whole 16-byte
/// blocks; the key must be 32 bytes.
#[verifier::external_body]
pub(crate) fn aes256_cbc_decrypt(key: &[u8], data: &[u8]) -> (r: Option<Vec<u8>>)
    requires
        key.len() == 32,
    ensures
        r is Some <==> data@.len() % 16 == 0,
        r matches Some(v) ==> v@ == aes256_cbc_decryption(key@, data@),
{
    let iv = [0u8; 16];
    let dec = cbc::Decryptor::<aes::Aes256>::new(GenericArray::from_slice(key), GenericArray::from_slice(&iv));
    let mut buf = data.to_vec();
    dec.decrypt_padded_mut::<NoPadding>(&mut buf).ok().map(|p| p.to_vec())
}

#[verifier::external_type_specification]
#[verifier::external_body]
pub struct ExEphemeralPrivateKey(EphemeralPrivateKey);

/// `EphemeralPrivateKey::generate(&ECDH_P256, &SystemRandom::new())`: a
/// fresh random P-256 key, or `None` where the generator fails.
#[verifier::external_body]
pub(crate) fn ecdh_p256_generate() -> (r: Option<EphemeralPrivateKey>) {
    let rng = ring::rand::SystemRandom::new();
    EphemeralPrivateKey::generate(&ring::agreement::ECDH_P256, &rng).ok()
}

/// `EphemeralPrivateKey::compute_public_key`: for P-256 the key is the
/// 65-byte uncompressed point (`0x04`, X, Y).
#[verifier::external_body]
pub(crate) fn ecdh_public_key(key: &EphemeralPrivateKey) -> (r: Option<Vec<u8>>)
    ensures
        r matches Some(v) ==> v@.len() == 65,
{
    key.compute_public_key().ok().map(|p| p.as_ref().to_vec())
}

/// `ring::agreement::agree_ephemeral` with an `ECDH_P256` peer key: the
/// raw shared secret (the X coordinate, 32 bytes), or `None` where ring
/// rejects the peer key.
#[verifier::external_body]
pub(crate) fn ecdh_agree(key: EphemeralPrivateKey, peer: &[u8]) -> (r: Option<Vec<u8>>)
    ensures
        r matches Some(v) ==> v@.len() == 32,
{
    let peer_key = ring::agreement::UnparsedPublicKey::new(&ring::agreement::ECDH_P256, peer);
    ring::agreement::agree_ephemeral(key, &peer_key, |material| material.to_vec()).ok()
}

/// Eight random bytes from `rand::rng()`.
#[verifier::external_body]
pub(crate) fn random_nonce() -> (r: Vec<u8>)
    ensures
        r@.len() == 8,
{
    let mut nonce = [0u8; 8];
    rand::rng().fill(&mut nonce[..]);
    nonce.to_vec()
}

} // verus!
