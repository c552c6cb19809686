//! Sealing bytes under a category's key, and opening them again.
//!
//! The cipher is AES-256-GCM-SIV from the `aes_gcm_siv` crate, used without
//! associated data. What it computes is named here, not defined: the
//! contracts of the three functions that call it are taken on trust.

use crate::error::EntryError;
use crate::hex::{decode_hex, encode_hex, hex_decode, hex_encode, lemma_hex_round_trip};
use crate::model::{EncryptedDataEntry, EntryCipher};
use aes_gcm_siv::aead::rand_core::RngCore;
use aes_gcm_siv::aead::{Aead, KeyInit};
use vstd::prelude::*;
use vstd::slice::slice_to_vec;

verus! {

/// `aes_gcm_siv::Error`, the one error of the cipher. It says nothing of the
/// cause.
#[verifier::external_type_specification]
#[verifier::external_body]
pub struct ExAeadError(aes_gcm_siv::Error);

/// `rand_core::Error`, the error of the operating system's random source.
#[verifier::external_type_specification]
#[verifier::external_body]
pub struct ExRngError(aes_gcm_siv::aead::rand_core::Error);

/// The length of a nonce in bytes.
pub const NONCE_LEN: usize = 12;

/// The length in bytes of the tag that follows the ciphertext.
pub const TAG_LEN: usize = 16;

/// The longest plaintext, in bytes, that the cipher accepts.
pub const MAX_PLAINTEXT_LEN: u64 = 0x10_0000_0000;

/// What `Aead::encrypt` of AES-256-GCM-SIV returns for a key, a nonce and a
/// plaintext: the ciphertext followed by its tag, `None` where it fails.
pub uninterp spec fn aead_seal(key: Seq<u8>, nonce: Seq<u8>, plaintext: Seq<u8>) -> Option<
    Seq<u8>,
>;

/// What `Aead::decrypt` of AES-256-GCM-SIV returns for a key, a nonce and a
/// ciphertext with its tag: the plaintext, `None` where it fails.
pub uninterp spec fn aead_open(key: Seq<u8>, nonce: Seq<u8>, ciphertext: Seq<u8>) -> Option<
    Seq<u8>,
>;

/// `OsRng::try_fill_bytes` on a nonce of the cipher: twelve bytes from the
/// operating system's random source, or its error. Nothing is claimed of the
/// bytes.
#[verifier::external_body]
pub(crate) fn fresh_nonce() -> (nonce: Result<
    [u8; NONCE_LEN],
    aes_gcm_siv::aead::rand_core::Error,
>) {
    let mut nonce = aes_gcm_siv::Nonce::default();
    match aes_gcm_siv::aead::OsRng.try_fill_bytes(&mut nonce) {
        Ok(()) => Ok(nonce.into()),
        Err(e) => Err(e),
    }
}

/// `Aes256GcmSiv::new` on the key, then `Aead::encrypt` on the nonce and the
/// plaintext. It fails exactly on a plaintext longer than 2^36 bytes; the
/// result is sixteen bytes longer than the plaintext, and `Aead::decrypt`
/// under the same key and nonce gives the plaintext back.
#[verifier::external_body]
pub(crate) fn seal(cipher: &EntryCipher, nonce: &[u8], plaintext: &[u8]) -> (sealed: Result<
    Vec<u8>,
    aes_gcm_siv::Error,
>)
    requires
        nonce@.len() == NONCE_LEN,
    ensures
        sealed is Ok <==> plaintext@.len() <= MAX_PLAINTEXT_LEN,
        sealed matches Ok(c) ==> aead_seal(cipher@, nonce@, plaintext@) == Some(c@),
        sealed matches Ok(c) ==> c@.len() == plaintext@.len() + TAG_LEN,
        sealed matches Ok(c) ==> aead_open(cipher@, nonce@, c@) == Some(plaintext@),
        sealed is Err ==> aead_seal(cipher@, nonce@, plaintext@) is None,
{
    let nonce = aes_gcm_siv::Nonce::from_slice(nonce);
    aes_gcm_siv::Aes256GcmSiv::new(&cipher.key.into()).encrypt(nonce, plaintext)
}

/// `Aes256GcmSiv::new` on the key, then `Aead::decrypt` on the nonce and the
/// ciphertext. The plaintext is sixteen bytes shorter than the ciphertext.
#[verifier::external_body]
pub(crate) fn open(cipher: &EntryCipher, nonce: &[u8], ciphertext: &[u8]) -> (opened: Result<
    Vec<u8>,
    aes_gcm_siv::Error,
>)
    requires
        nonce@.len() == NONCE_LEN,
    ensures
        opened matches Ok(p) ==> aead_open(cipher@, nonce@, ciphertext@) == Some(p@),
        opened matches Ok(p) ==> p@.len() + TAG_LEN == ciphertext@.len(),
        opened is Err ==> aead_open(cipher@, nonce@, ciphertext@) is None,
{
    let nonce = aes_gcm_siv::Nonce::from_slice(nonce);
    aes_gcm_siv::Aes256GcmSiv::new(&cipher.key.into()).decrypt(nonce, ciphertext)
}

/// `content` is what sealing `data` under `key` and `nonce` gives, and opens
/// again to `data`.
pub open spec fn is_sealing(
    key: Seq<u8>,
    nonce: Seq<u8>,
    data: Seq<u8>,
    content: Seq<char>,
) -> bool {
    &&& nonce.len() == NONCE_LEN
    &&& data.len() <= MAX_PLAINTEXT_LEN
    &&& aead_seal(key, nonce, data) matches Some(sealed)
    &&& content == hex_encode(sealed)
    &&& sealed.len() == data.len() + TAG_LEN
    &&& aead_open(key, nonce, sealed) == Some(data)
}

/// The bytes that a content opens to under a key and a nonce. `None` unless
/// the nonce has twelve bytes, the content is hexadecimal text for at least a
/// tag's worth of bytes, and those bytes authenticate.
pub open spec fn open_spec(key: Seq<u8>, nonce: Seq<u8>, content: Seq<char>) -> Option<Seq<u8>> {
    if nonce.len() != NONCE_LEN {
        None
    } else {
        match hex_decode(content) {
            None => None,
            Some(sealed) => if sealed.len() < TAG_LEN {
                None
            } else {
                aead_open(key, nonce, sealed)
            },
        }
    }
}

/// What was sealed opens, under the same key and nonce, to what went in.
pub proof fn lemma_sealing_opens(key: Seq<u8>, nonce: Seq<u8>, data: Seq<u8>, content: Seq<char>)
    requires
        is_sealing(key, nonce, data, content),
    ensures
        open_spec(key, nonce, content) == Some(data),
{
    lemma_hex_round_trip(aead_seal(key, nonce, data).unwrap());
}

/// A content that is no hexadecimal text, or stands for fewer bytes than a
/// tag has, or comes with a nonce of another length than twelve, opens under
/// no key.
pub proof fn lemma_malformed_never_opens(key: Seq<u8>, nonce: Seq<u8>, content: Seq<char>)
    requires
        nonce.len() != NONCE_LEN || hex_decode(content) is None || content.len() < 2 * TAG_LEN,
    ensures
        open_spec(key, nonce, content) is None,
{
}

/// Seals serialized bytes under the given nonce. The content is the
/// ciphertext and its tag as hexadecimal text; the nonce comes back beside it.
pub fn encrypt_data_entry_with_nonce(
    data: &[u8],
    cipher: &EntryCipher,
    nonce: [u8; NONCE_LEN],
) -> (r: Result<(String, Vec<u8>), EntryError>)
    ensures
        r is Ok <==> data@.len() <= MAX_PLAINTEXT_LEN,
        r matches Ok(pair) ==> pair.1@ == nonce@ && is_sealing(cipher@, nonce@, data@, pair.0@),
        r matches Err(e) ==> e == EntryError::Encryption,
{
    match seal(cipher, nonce.as_slice(), data) {
        Ok(sealed) => Ok((encode_hex(sealed.as_slice()), slice_to_vec(nonce.as_slice()))),
        Err(_) => Err(EntryError::Encryption),
    }
}

/// Seals serialized bytes under a nonce drawn from the operating system.
///
/// Fails with `Encryption` where no nonce can be drawn or the data are longer
/// than the cipher accepts.
pub fn encrypt_data_entry(data: &[u8], cipher: &EntryCipher) -> (r: Result<
    (String, Vec<u8>),
    EntryError,
>)
    ensures
        r matches Ok(pair) ==> is_sealing(cipher@, pair.1@, data@, pair.0@),
        r matches Err(e) ==> e == EntryError::Encryption,
        data@.len() > MAX_PLAINTEXT_LEN ==> r is Err,
{
    match fresh_nonce() {
        Ok(nonce) => encrypt_data_entry_with_nonce(data, cipher, nonce),
        Err(_) => Err(EntryError::Encryption),
    }
}

/// Opens the content of an entry with the key of its category.
///
/// Fails with `Decryption` where the nonce or the content is malformed or the
/// content does not authenticate under the key and the nonce. No part of a
/// plaintext is returned then.
pub fn decrypt_data_entry(entry: &EncryptedDataEntry, cipher: &EntryCipher) -> (r: Result<
    Vec<u8>,
    EntryError,
>)
    ensures
        r matches Ok(data) ==> open_spec(cipher@, entry.nonce@, entry.content@) == Some(data@),
        r matches Err(e) ==> e == EntryError::Decryption && open_spec(
            cipher@,
            entry.nonce@,
            entry.content@,
        ) is None,
{
    if entry.nonce.len() != NONCE_LEN {
        return Err(EntryError::Decryption);
    }
    let sealed = match decode_hex(entry.content.as_str()) {
        Some(bytes) => bytes,
        None => {
            return Err(EntryError::Decryption);
        },
    };
    if sealed.len() < TAG_LEN {
        return Err(EntryError::Decryption);
    }
    match open(cipher, entry.nonce.as_slice(), sealed.as_slice()) {
        Ok(data) => Ok(data),
        Err(_) => Err(EntryError::Decryption),
    }
}

} // verus!
