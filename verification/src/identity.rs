//! The key that this program signs with, kept in a file of its own.

use crate::bytes::array32;
use crate::miner::random_array;
use crate::principal::{reads_as, text_of_principal, Principal, MAX_PRINCIPAL_BYTES};
use vstd::prelude::*;
use vstd::string::*;

verus! {

/// The directory of the key file, below the user's data directory.
pub const KEY_DIRECTORY: &'static str = "PikoNativeMiner";

/// The name of the key file.
pub const KEY_FILE: &'static str = "identity.key";

/// The principal that the holder of a raw Ed25519 key is known by.
pub uninterp spec fn principal_of_key(key: Seq<u8>) -> Seq<u8>;

/// Calls `ic_agent::Identity::sender` on `ic_agent::identity::BasicIdentity::from_raw_key`,
/// named here by `principal_of_key`. It is as long as a principal can be.
#[verifier::external_body]
fn sender_of_key(key: &[u8; 32]) -> (bytes: Vec<u8>)
    ensures
        bytes@ == principal_of_key(key@),
        bytes@.len() == MAX_PRINCIPAL_BYTES,
{
    let identity = ic_agent::identity::BasicIdentity::from_raw_key(key);
    let sender = ic_agent::Identity::sender(&identity).expect("identity has no principal");
    sender.as_slice().to_vec()
}

/// A key to sign with, and whether it has yet to be saved.
#[derive(Clone, Copy, Debug)]
pub struct LoadedKey {
    pub key: [u8; 32],
    pub fresh: bool,
}

/// What a key file holds: the bytes of a key, or what is shown if it holds none.
pub open spec fn key_in_file(raw: Seq<u8>) -> Result<Seq<u8>, Seq<char>> {
    if raw.len() == 32 {
        Ok(raw)
    } else {
        Err("saved identity key file is corrupted (wrong length)"@)
    }
}

/// The key that a key file holds.
pub fn key_from_file(raw: &Vec<u8>) -> (key: Result<[u8; 32], String>)
    ensures
        match key {
            Ok(k) => key_in_file(raw@) matches Ok(held) && held == k@,
            Err(e) => key_in_file(raw@) matches Err(why) && why == e@,
        },
{
    match array32(raw) {
        Some(key) => Ok(key),
        None => Err(String::from_str("saved identity key file is corrupted (wrong length)")),
    }
}

/// A new key, made of the bytes that were drawn for it. It has to be saved.
pub fn fresh_key(drawn: [u8; 32]) -> (loaded: LoadedKey)
    ensures
        loaded.key == drawn,
        loaded.fresh,
{
    LoadedKey { key: drawn, fresh: true }
}

/// The key to sign with: the one in the key file, if there is such a file, else a new
/// one drawn at random, which has to be saved.
pub fn load_or_create_identity(saved: &Option<Vec<u8>>) -> (loaded: Result<LoadedKey, String>)
    ensures
        match saved {
            Some(raw) => match loaded {
                Ok(l) => !l.fresh && (key_in_file(raw@) matches Ok(held) && held == l.key@),
                Err(e) => key_in_file(raw@) matches Err(why) && why == e@,
            },
            None => loaded matches Ok(l) && l.fresh,
        },
{
    match saved {
        Some(raw) => match key_from_file(raw) {
            Ok(key) => Ok(LoadedKey { key, fresh: false }),
            Err(e) => Err(e),
        },
        None => Ok(fresh_key(random_array::<32>())),
    }
}

/// The access mode of the key file, on systems that have such modes.
pub open spec fn key_file_mode(unix: bool) -> Option<u32> {
    if unix {
        Some(0o600u32)
    } else {
        None
    }
}

/// The access mode that the key file gets, on systems that have such modes: its owner
/// may read and write it, and nobody else anything.
pub fn restrict_to_owner(unix: bool) -> (mode: Option<u32>)
    ensures
        mode == key_file_mode(unix),
{
    if unix {
        Some(0o600)
    } else {
        None
    }
}

/// The principal that the holder of a key is known by, as text. The text can be read
/// back as that principal.
pub fn key_principal_text(key: &[u8; 32]) -> (text: String)
    ensures
        text@ == text_of_principal(principal_of_key(key@)),
        reads_as(text@, principal_of_key(key@)),
{
    let sender = Principal { bytes: sender_of_key(key) };
    sender.to_text()
}

/// Any key, saved as the bytes that it is made of, is loaded again as it was.
pub proof fn saved_key_is_loaded_again(key: [u8; 32])
    ensures
        key_in_file(key@) matches Ok(held) && held == key@,
{
}

/// The mode of the key file lets its owner read and write it, and lets neither the
/// group nor anyone else in.
pub proof fn key_file_is_private(unix: bool)
    ensures
        key_file_mode(unix) matches Some(mode) ==> mode & 0o077 == 0 && mode & 0o600 == 0o600,
        key_file_mode(true) is Some,
{
    assert(0o600u32 & 0o077 == 0 && 0o600u32 & 0o600 == 0o600) by (bit_vector);
}

/// A key file holds a key exactly if it is 32 bytes long, and the key is those bytes. Any
/// other file is refused, and the key file is never taken for another one.
pub proof fn key_files_are_taken_as_they_are(raw: Seq<u8>)
    ensures
        key_in_file(raw) is Ok <==> raw.len() == 32,
        key_in_file(raw) matches Ok(key) ==> key == raw,
        key_in_file(raw) matches Err(why) ==> why
            == "saved identity key file is corrupted (wrong length)"@,
{
}

/// The mode of the key file lets its owner read and write it, and says nothing else.
pub proof fn key_file_is_for_reading_and_writing()
    ensures
        key_file_mode(true) == Some(0o600u32),
        key_file_mode(false) is None,
{
}

} // verus!
