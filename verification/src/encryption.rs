//! The cipher behind the stored API key.
//!
//! A blob is the nonce followed by what XChaCha20-Poly1305 made of the
//! plaintext under a key derived from the password with PBKDF2-HMAC-SHA256,
//! salted with that same nonce. The blob carries everything but the
//! password, so opening it needs nothing from outside.
//!
//! The cipher and the key derivation are the work of outside crates. Their
//! results go by the names [`derived_key`], [`sealed`] and [`opened`]; what
//! this module proves, it proves about the framing around them and from the
//! one promise an authenticated cipher makes: what it sealed, it opens.

use vstd::prelude::*;
use vstd::slice::slice_subrange;
use vstd::utf8::encode_utf8;
use crate::error::Error;

verus! {

/// Length of the nonce in bytes; it is also the header of a blob.
pub const NONCE_LEN: usize = 24;

/// Length of the derived key in bytes.
pub const KEY_LEN: usize = 32;

/// Length of the authentication tag that ends a sealed message.
pub const TAG_LEN: usize = 16;

/// Number of PBKDF2 iterations.
pub const KDF_ROUNDS: u32 = 10_000;

/// Length of a block of the cipher's keystream in bytes.
pub const BLOCK_LEN: usize = 64;

/// The number of blocks in the cipher's keystream: its counter numbers
/// them from zero and stops short of this value. The block at zero makes
/// the authentication key, which leaves a message the `MAX_BLOCKS - 1`
/// blocks that follow.
pub const MAX_BLOCKS: usize = 0xFFFF_FFFF;

/// The 32-byte key that PBKDF2-HMAC-SHA256 derives from `password` and
/// `salt` in `rounds` iterations.
pub uninterp spec fn derived_key(password: Seq<u8>, salt: Seq<u8>, rounds: u32) -> Seq<u8>;

/// What XChaCha20-Poly1305 makes of `plaintext` under `key` and `nonce`:
/// the ciphertext followed by its tag.
pub uninterp spec fn sealed(key: Seq<u8>, nonce: Seq<u8>, plaintext: Seq<u8>) -> Seq<u8>;

/// What XChaCha20-Poly1305 recovers from `body` under `key` and `nonce`,
/// or `None` where the tag does not authenticate it.
pub uninterp spec fn opened(key: Seq<u8>, nonce: Seq<u8>, body: Seq<u8>) -> Option<Seq<u8>>;

/// Whether the cipher takes a message of `len` bytes: whether the
/// message needs no more than `MAX_BLOCKS - 1` blocks of keystream, a
/// block begun counting as a whole one. The longest such message has
/// 274,877,906,816 bytes, 64 short of 256 GiB.
pub open spec fn sealable(len: nat) -> bool {
    ||| len / (BLOCK_LEN as nat) < MAX_BLOCKS - 1
    ||| len / (BLOCK_LEN as nat) == MAX_BLOCKS - 1 && len % (BLOCK_LEN as nat) == 0
}

/// Whether the cipher takes a sealed message of `len` bytes: one that is
/// too short to hold a tag, which it refuses at once, or one whose
/// ciphertext, the part before the tag, it would take as a message.
pub open spec fn unsealable(len: nat) -> bool {
    len < TAG_LEN || sealable((len - TAG_LEN) as nat)
}

/// The key a password stands for in a blob with the given nonce.
pub open spec fn key_for(password: Seq<char>, nonce: Seq<u8>) -> Seq<u8> {
    derived_key(encode_utf8(password), nonce, KDF_ROUNDS)
}

/// The blob for `plaintext`: the nonce, then the sealed message.
pub open spec fn encrypted(plaintext: Seq<u8>, password: Seq<char>, nonce: Seq<u8>) -> Seq<u8> {
    nonce + sealed(key_for(password, nonce), nonce, plaintext)
}

/// The nonce that heads a blob.
pub open spec fn blob_nonce(blob: Seq<u8>) -> Seq<u8> {
    blob.subrange(0, NONCE_LEN as int)
}

/// The sealed message that follows the nonce in a blob.
pub open spec fn blob_body(blob: Seq<u8>) -> Seq<u8> {
    blob.subrange(NONCE_LEN as int, blob.len() as int)
}

/// What a blob decrypts to under a password. A blob without a whole
/// header is malformed, one with more ciphertext than the cipher takes is
/// too long, and every other blob is the cipher's to judge.
pub open spec fn decrypted(blob: Seq<u8>, password: Seq<char>) -> Result<Seq<u8>, Error> {
    if blob.len() < NONCE_LEN {
        Err(Error::MalformedInput)
    } else if !unsealable(blob_body(blob).len()) {
        Err(Error::MessageTooLong)
    } else {
        match opened(key_for(password, blob_nonce(blob)), blob_nonce(blob), blob_body(blob)) {
            Some(plaintext) => Ok(plaintext),
            None => Err(Error::AuthenticationFailure),
        }
    }
}

/// Calls `pbkdf2::pbkdf2_hmac_array` with SHA-256 and a 32-byte output.
/// Trusted: the result is the key of that name. The function reads nothing
/// but its arguments and cannot fail.
#[verifier::external_body]
fn derive_key(password: &[u8], salt: &[u8], rounds: u32) -> (key: [u8; 32])
    ensures
        key@ == derived_key(password@, salt@, rounds),
{
    pbkdf2::pbkdf2_hmac_array::<sha2::Sha256, 32>(password, salt, rounds)
}

/// Calls `encrypt` of `chacha20poly1305::XChaCha20Poly1305`, without
/// associated data. Trusted, as the sources of the crate and of the stream
/// cipher under it show: on a message that needs no more blocks of
/// keystream than are left after the first, the call succeeds; the result
/// is the sealed message of that name, 16 bytes longer than the
/// plaintext, and `decrypt` with the same key and nonce gives the
/// plaintext back. A longer message is kept out: the call refuses some
/// such messages and panics on others.
#[verifier::external_body]
fn seal(key: &[u8], nonce: &[u8], plaintext: &[u8]) -> (out: Option<Vec<u8>>)
    requires
        key@.len() == KEY_LEN,
        nonce@.len() == NONCE_LEN,
        sealable(plaintext@.len()),
    ensures
        out is Some,
        out matches Some(body) ==> body@ == sealed(key@, nonce@, plaintext@),
        out matches Some(body) ==> body@.len() == plaintext@.len() + TAG_LEN,
        out matches Some(body) ==> opened(key@, nonce@, body@) == Some(plaintext@),
{
    let cipher = <chacha20poly1305::XChaCha20Poly1305 as chacha20poly1305::KeyInit>::new(
        chacha20poly1305::Key::from_slice(key),
    );
    let nonce = chacha20poly1305::XNonce::from_slice(nonce);
    chacha20poly1305::aead::Aead::encrypt(&cipher, nonce, plaintext).ok()
}

/// Calls `decrypt` of `chacha20poly1305::XChaCha20Poly1305`, without
/// associated data. Trusted, as the crate's source shows it: the result is
/// the one of that name, and a body shorter than a tag is refused. A body
/// with more ciphertext than the cipher takes as a message is kept out:
/// the call refuses some such bodies and panics on others.
#[verifier::external_body]
fn unseal(key: &[u8], nonce: &[u8], body: &[u8]) -> (out: Option<Vec<u8>>)
    requires
        key@.len() == KEY_LEN,
        nonce@.len() == NONCE_LEN,
        unsealable(body@.len()),
    ensures
        match out {
            Some(plaintext) => opened(key@, nonce@, body@) == Some(plaintext@),
            None => opened(key@, nonce@, body@) is None,
        },
        body@.len() < TAG_LEN ==> out is None,
{
    let cipher = <chacha20poly1305::XChaCha20Poly1305 as chacha20poly1305::KeyInit>::new(
        chacha20poly1305::Key::from_slice(key),
    );
    let nonce = chacha20poly1305::XNonce::from_slice(nonce);
    chacha20poly1305::aead::Aead::decrypt(&cipher, nonce, body).ok()
}

/// Asks `rand::rngs::OsRng`, through `try_fill_bytes`, for 24 bytes from
/// the operating system's random source. Nothing is promised of the bytes;
/// `None` stands for the source's error.
#[verifier::external_body]
fn os_random_nonce() -> (drawn: Option<[u8; 24]>) {
    let mut bytes = [0u8; 24];
    match rand::RngCore::try_fill_bytes(&mut rand::rngs::OsRng, &mut bytes) {
        Ok(()) => Some(bytes),
        Err(_) => None,
    }
}

/// What [`nonce`] makes of the random source's answer.
pub fn nonce_from(drawn: Option<[u8; 24]>) -> (fresh: Result<[u8; 24], Error>)
    ensures
        fresh == match drawn {
            Some(bytes) => Ok::<[u8; 24], Error>(bytes),
            None => Err(Error::IOError),
        },
{
    match drawn {
        Some(bytes) => Ok(bytes),
        None => Err(Error::IOError),
    }
}

/// Draws a fresh nonce from the operating system's random source. Every
/// encryption takes one of its own. Fails with `IOError`, and only with
/// it, where the source does.
pub fn nonce() -> (fresh: Result<[u8; 24], Error>)
    ensures
        fresh matches Err(e) ==> e == Error::IOError,
{
    nonce_from(os_random_nonce())
}

/// Tells whether the cipher takes a message of `len` bytes.
pub fn fits_cipher(len: usize) -> (fits: bool)
    ensures
        fits == sealable(len as nat),
{
    let blocks = len / BLOCK_LEN;
    blocks < MAX_BLOCKS - 1 || (blocks == MAX_BLOCKS - 1 && len % BLOCK_LEN == 0)
}

/// Tells whether the cipher takes a sealed message of `len` bytes.
pub fn fits_cipher_sealed(len: usize) -> (fits: bool)
    ensures
        fits == unsealable(len as nat),
{
    len < TAG_LEN || fits_cipher(len - TAG_LEN)
}

/// Puts a blob together: the nonce, then the sealed message.
pub fn frame(nonce: &[u8; 24], body: &Vec<u8>) -> (blob: Vec<u8>)
    ensures
        blob@ == nonce@ + body@,
{
    let mut blob: Vec<u8> = Vec::new();
    let mut i: usize = 0;
    while i < NONCE_LEN
        invariant
            i <= NONCE_LEN,
            blob@ == nonce@.subrange(0, i as int),
        decreases NONCE_LEN - i,
    {
        blob.push(nonce[i]);
        i += 1;
        assert(blob@ =~= nonce@.subrange(0, i as int));
    }
    let mut j: usize = 0;
    while j < body.len()
        invariant
            j <= body.len(),
            blob@ == nonce@ + body@.subrange(0, j as int),
        decreases body.len() - j,
    {
        blob.push(body[j]);
        j += 1;
        assert(blob@ =~= nonce@ + body@.subrange(0, j as int));
    }
    assert(blob@ =~= nonce@ + body@);
    blob
}

/// Takes a blob apart into its nonce and its sealed message. A blob too
/// short to hold a nonce is malformed.
pub fn split_blob(blob: &[u8]) -> (parts: Result<(&[u8], &[u8]), Error>)
    ensures
        match parts {
            Ok((nonce, body)) => {
                &&& blob@.len() >= NONCE_LEN
                &&& nonce@ == blob_nonce(blob@)
                &&& body@ == blob_body(blob@)
            },
            Err(e) => blob@.len() < NONCE_LEN && e == Error::MalformedInput,
        },
{
    if blob.len() < NONCE_LEN {
        return Err(Error::MalformedInput);
    }
    Ok((slice_subrange(blob, 0, NONCE_LEN), slice_subrange(blob, NONCE_LEN, blob.len())))
}

/// What [`decrypt`] makes of the cipher's answer: the plaintext, or an
/// authentication failure where the cipher refused the blob.
pub fn plaintext_or_failure(answer: Option<Vec<u8>>) -> (plain: Result<Vec<u8>, Error>)
    ensures
        match answer {
            Some(bytes) => plain matches Ok(p) && p@ == bytes@,
            None => plain == Err::<Vec<u8>, Error>(Error::AuthenticationFailure),
        },
{
    match answer {
        Some(bytes) => Ok(bytes),
        None => Err(Error::AuthenticationFailure),
    }
}

/// Encrypts `plaintext` under `password` into a blob headed by `nonce`.
///
/// Succeeds on every message the cipher takes, which is every message of
/// up to 274,877,906,816 bytes; a longer one is refused with
/// `MessageTooLong` before the cipher sees it. The blob is the one
/// [`encrypted`] names, and [`decrypt`] with the same password gives the
/// plaintext back.
pub fn encrypt(plaintext: &[u8], password: &str, nonce: &[u8; 24]) -> (blob: Result<Vec<u8>, Error>)
    ensures
        match blob {
            Ok(bytes) => {
                &&& sealable(plaintext@.len())
                &&& bytes@ == encrypted(plaintext@, password@, nonce@)
                &&& bytes@.len() == NONCE_LEN + plaintext@.len() + TAG_LEN
                &&& decrypted(bytes@, password@) == Ok::<Seq<u8>, Error>(plaintext@)
            },
            Err(e) => !sealable(plaintext@.len()) && e == Error::MessageTooLong,
        },
{
    if !fits_cipher(plaintext.len()) {
        return Err(Error::MessageTooLong);
    }
    let key = derive_key(password.as_bytes(), nonce.as_slice(), KDF_ROUNDS);
    match seal(key.as_slice(), nonce.as_slice(), plaintext) {
        Some(body) => {
            let bytes = frame(nonce, &body);
            proof {
                assert(blob_nonce(bytes@) =~= nonce@);
                assert(blob_body(bytes@) =~= body@);
            }
            Ok(bytes)
        },
        None => Err(Error::MessageTooLong),
    }
}

/// Decrypts a blob under `password`.
///
/// A blob shorter than its header is refused with `MalformedInput`, and
/// one with more ciphertext than the cipher takes with `MessageTooLong`,
/// both before the cipher sees it. One that the cipher does not
/// authenticate, because it was altered or truncated or sealed under
/// another password, is refused with `AuthenticationFailure`; nothing is
/// ever returned that the cipher did not authenticate.
pub fn decrypt(blob: &[u8], password: &str) -> (plain: Result<Vec<u8>, Error>)
    ensures
        match plain {
            Ok(bytes) => decrypted(blob@, password@) == Ok::<Seq<u8>, Error>(bytes@),
            Err(e) => decrypted(blob@, password@) == Err::<Seq<u8>, Error>(e),
        },
        blob@.len() < NONCE_LEN ==> plain == Err::<Vec<u8>, Error>(Error::MalformedInput),
        NONCE_LEN <= blob@.len() < NONCE_LEN + TAG_LEN ==> plain == Err::<Vec<u8>, Error>(
            Error::AuthenticationFailure,
        ),
{
    match split_blob(blob) {
        Err(e) => Err(e),
        Ok((nonce, body)) => {
            if !fits_cipher_sealed(body.len()) {
                return Err(Error::MessageTooLong);
            }
            let key = derive_key(password.as_bytes(), nonce, KDF_ROUNDS);
            plaintext_or_failure(unseal(key.as_slice(), nonce, body))
        },
    }
}

} // verus!
