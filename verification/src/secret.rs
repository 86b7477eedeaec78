//! The stored API key: the password it is sealed under, what makes a key
//! acceptable, and the two ways a key is found.
//!
//! Nothing here touches a file. Saving hands back the bytes to write, and
//! loading takes what the caller read: the value of the environment
//! variable, if it is set, and the content of the key file, if there is
//! one.

use vstd::prelude::*;
use vstd::string::StringExecFns;
use vstd::utf8::{decode_utf8, encode_utf8, valid_utf8};
use crate::encryption::{decrypt, decrypted, encrypt, encrypted, nonce, sealable};
use crate::error::Error;
use crate::text::{trim, trimmed};

verus! {

/// The password that seals the key of the user called `username`: the name
/// and a fixed suffix.
pub open spec fn password_of(username: Seq<char>) -> Seq<char> {
    username + "_pgpt_a1b2c3d4e5f6g7h8"@
}

/// What an entered key is taken for: the key without the whitespace
/// around it, or a refusal where nothing is left.
pub open spec fn usable_key(raw: Seq<char>) -> Result<Seq<char>, Error> {
    if trimmed(raw).len() == 0 {
        Err(Error::InvalidSecret)
    } else {
        Ok(trimmed(raw))
    }
}

/// The text that decrypted bytes stand for, where they are UTF-8.
pub open spec fn key_text(bytes: Seq<u8>) -> Result<Seq<char>, Error> {
    if valid_utf8(bytes) {
        Ok(decode_utf8(bytes))
    } else {
        Err(Error::MalformedInput)
    }
}

/// The key that a blob holds for the owner of `password`.
pub open spec fn stored_key(blob: Seq<u8>, password: Seq<char>) -> Result<Seq<char>, Error> {
    match decrypted(blob, password) {
        Ok(bytes) => key_text(bytes),
        Err(e) => Err(e),
    }
}

/// Whether `blob` is `key` sealed under the password of some user, with
/// some nonce, so that the same user finds `key` in it again.
pub open spec fn sealed_for_a_user(key: Seq<char>, blob: Seq<u8>) -> bool {
    exists|name: Seq<char>, nonce: Seq<u8>|
        {
            &&& name.len() > 0
            &&& #[trigger] encrypted(encode_utf8(key), password_of(name), nonce) == blob
            &&& stored_key(blob, password_of(name)) == Ok::<Seq<char>, Error>(key)
        }
}

/// The view of a result that holds a string.
pub open spec fn text_of(r: Result<String, Error>) -> Result<Seq<char>, Error> {
    match r {
        Ok(s) => Ok(s@),
        Err(e) => Err(e),
    }
}

/// Calls `whoami::fallible::username`, which asks the operating system
/// for the name of the current user. Nothing is promised of the name;
/// `None` stands for the call's error.
#[verifier::external_body]
fn os_username() -> (name: Option<String>) {
    whoami::fallible::username().ok()
}

/// Calls `String::from_utf8`. Trusted, as std documents it: the bytes are
/// taken for text exactly when they are valid UTF-8, and the text is what
/// they encode.
#[verifier::external_body]
fn string_from_utf8(bytes: Vec<u8>) -> (text: Option<String>)
    ensures
        match text {
            Some(s) => valid_utf8(bytes@) && s@ == decode_utf8(bytes@),
            None => !valid_utf8(bytes@),
        },
{
    String::from_utf8(bytes).ok()
}

/// Verifies key string is not empty and trims it.
pub fn is_key_empty(key: String) -> (checked: Result<String, Error>)
    ensures
        text_of(checked) == usable_key(key@),
{
    let kept = trim(key.as_str());
    if kept.unicode_len() == 0 {
        Err(Error::InvalidSecret)
    } else {
        Ok(kept.to_owned())
    }
}

/// Reads the API key from the value of the environment variable, `None`
/// where the variable is not set.
pub fn read_api_key_from_env(value: Option<String>) -> (key: Result<String, Error>)
    ensures
        text_of(key) == match value {
            Some(raw) => usable_key(raw@),
            None => Err(Error::NotFound),
        },
{
    match value {
        Some(raw) => is_key_empty(raw),
        None => Err(Error::NotFound),
    }
}

/// Derives the password from what the operating system gave for the
/// user's name. No name, or an empty one, is an error: an empty name must
/// never silently become a password.
pub fn password_for(username: Option<String>) -> (password: Result<String, Error>)
    ensures
        text_of(password) == match username {
            Some(name) if name@.len() > 0 => Ok(password_of(name@)),
            _ => Err(Error::NoUsername),
        },
{
    match username {
        Some(name) => {
            if name.as_str().unicode_len() == 0 {
                Err(Error::NoUsername)
            } else {
                let mut password = name;
                password.append("_pgpt_a1b2c3d4e5f6g7h8");
                Ok(password)
            }
        },
        None => Err(Error::NoUsername),
    }
}

/// Gets the plaintext encryption password of the current user. It fails
/// with `NoUsername`, and only with it, where the operating system names
/// no user.
pub fn encryption_password() -> (password: Result<String, Error>)
    ensures
        match password {
            Ok(p) => exists|name: Seq<char>| name.len() > 0 && p@ == password_of(name),
            Err(e) => e == Error::NoUsername,
        },
{
    let reported = os_username();
    let password = password_for(reported);
    proof {
        if password is Ok {
            assert(reported.unwrap()@.len() > 0);
            assert(password.unwrap()@ == password_of(reported.unwrap()@));
        }
    }
    password
}

/// Seals an API key under a password into the blob that the key file
/// holds. A key that is empty or only whitespace is refused. What was
/// sealed is what [`open_api_key`] finds under the same password.
pub fn seal_api_key(api_key: &str, password: &str, nonce: &[u8; 24]) -> (blob: Result<Vec<u8>, Error>)
    ensures
        match blob {
            Ok(bytes) => {
                &&& trimmed(api_key@).len() > 0
                &&& sealable(encode_utf8(api_key@).len())
                &&& bytes@ == encrypted(encode_utf8(api_key@), password@, nonce@)
                &&& stored_key(bytes@, password@) == Ok::<Seq<char>, Error>(api_key@)
            },
            Err(e) => if trimmed(api_key@).len() == 0 {
                e == Error::InvalidSecret
            } else {
                !sealable(encode_utf8(api_key@).len()) && e == Error::MessageTooLong
            },
        },
{
    if trim(api_key).unicode_len() == 0 {
        return Err(Error::InvalidSecret);
    }
    proof {
        vstd::utf8::encode_utf8_valid_utf8(api_key@);
        vstd::utf8::encode_utf8_decode_utf8(api_key@);
    }
    encrypt(api_key.as_bytes(), password, nonce)
}

/// Recovers the API key from the blob that the key file holds. The errors
/// are those of decryption, and `MalformedInput` where what was sealed is
/// not text.
pub fn open_api_key(blob: &[u8], password: &str) -> (key: Result<String, Error>)
    ensures
        text_of(key) == stored_key(blob@, password@),
{
    match decrypt(blob, password) {
        Ok(bytes) => match string_from_utf8(bytes) {
            Some(key) => Ok(key),
            None => Err(Error::MalformedInput),
        },
        Err(e) => Err(e),
    }
}

/// Prepares an API key for the key file: checks it, derives the current
/// user's password, draws a nonce and seals the key. The caller writes the
/// bytes, replacing whatever the file held.
///
/// An empty or whitespace-only key is refused with `InvalidSecret` before
/// anything else is tried. The other errors are those of the password, the
/// random source and the cipher.
pub fn save_api_key(api_key: &str) -> (blob: Result<Vec<u8>, Error>)
    ensures
        if trimmed(api_key@).len() == 0 {
            blob == Err::<Vec<u8>, Error>(Error::InvalidSecret)
        } else {
            match blob {
                Ok(bytes) => sealed_for_a_user(api_key@, bytes@),
                Err(e) => {
                    ||| e == Error::NoUsername
                    ||| e == Error::IOError
                    ||| e == Error::MessageTooLong && !sealable(encode_utf8(api_key@).len())
                },
            }
        },
{
    if trim(api_key).unicode_len() == 0 {
        return Err(Error::InvalidSecret);
    }
    let password = match encryption_password() {
        Ok(p) => p,
        Err(e) => { return Err(e); },
    };
    let fresh = match nonce() {
        Ok(n) => n,
        Err(e) => { return Err(e); },
    };
    let blob = seal_api_key(api_key, password.as_str(), &fresh);
    proof {
        if blob is Ok {
            let name = choose|name: Seq<char>| name.len() > 0 && password@ == password_of(name);
            assert(encrypted(encode_utf8(api_key@), password_of(name), fresh@)
                == blob.unwrap()@);
        }
    }
    blob
}

/// Takes what the user entered for a key, and prepares it for the key
/// file. Returns the key, trimmed, and the bytes to write.
pub fn register_api_key(entered: &str) -> (saved: Result<(String, Vec<u8>), Error>)
    ensures
        if trimmed(entered@).len() == 0 {
            saved matches Err(e) && e == Error::InvalidSecret
        } else {
            match saved {
                Ok((key, bytes)) => key@ == trimmed(entered@) && sealed_for_a_user(key@, bytes@),
                Err(e) => {
                    ||| e == Error::NoUsername
                    ||| e == Error::IOError
                    ||| e == Error::MessageTooLong && !sealable(
                        encode_utf8(trimmed(entered@)).len(),
                    )
                },
            }
        },
{
    let key = trim(entered);
    if key.unicode_len() == 0 {
        return Err(Error::InvalidSecret);
    }
    match save_api_key(key) {
        Ok(bytes) => {
            let owned = key.to_owned();
            Ok((owned, bytes))
        },
        Err(e) => {
            proof {
                crate::text::lemma_trim_idempotent(entered@);
            }
            Err(e)
        },
    }
}

/// Finds the API key. The environment comes first: a value that is not
/// empty after trimming is the key, whatever the key file holds. Without
/// one the key file decides: no file is `NotFound`, and a file is opened
/// with the current user's password.
pub fn load_api_key(env_value: Option<String>, stored: Option<Vec<u8>>) -> (key: Result<
    String,
    Error,
>)
    ensures
        match env_value {
            Some(raw) if trimmed(raw@).len() > 0 => text_of(key) == Ok::<Seq<char>, Error>(
                trimmed(raw@),
            ),
            _ => match stored {
                None => key matches Err(e) && e == Error::NotFound,
                Some(blob) => {
                    ||| key matches Err(e) && e == Error::NoUsername
                    ||| exists|name: Seq<char>|
                        name.len() > 0 && text_of(key) == #[trigger] stored_key(
                            blob@,
                            password_of(name),
                        )
                },
            },
        },
{
    if let Ok(key) = read_api_key_from_env(env_value) {
        return Ok(key);
    }
    match stored {
        None => Err(Error::NotFound),
        Some(blob) => {
            match encryption_password() {
                Ok(password) => {
                    let key = open_api_key(blob.as_slice(), password.as_str());
                    proof {
                        let name = choose|name: Seq<char>|
                            name.len() > 0 && password@ == password_of(name);
                        assert(text_of(key) == stored_key(blob@, password_of(name)));
                    }
                    key
                },
                Err(e) => Err(e),
            }
        },
    }
}

} // verus!
