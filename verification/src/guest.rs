//! The functions a guest component exports: each takes owned values and
//! reports a failure by its message.

use vstd::prelude::*;
use vstd::string::StringSliceAdditionalSpecFns;
use crate::archive::{unpacked, ArchiveError, ReadOutcome};
use crate::archive::{archive_of, entry_name};
use crate::hashing::{argon2id_hash, HashError, HASH_LEN, MIN_SALT_LEN};
use crate::markdown::html_of;

verus! {

/// The guest that exports the functions of this library.
#[derive(Clone, Copy, Debug, PartialEq, Eq, Structural)]
pub struct App;

impl App {
    /// Hashes a password with a salt under the default costs.
    pub fn hash(password: Vec<u8>, salt: String) -> (r: Result<Vec<u8>, String>)
        ensures
            r matches Ok(hash) ==> hash@ == argon2id_hash(
                password@,
                vstd::utf8::encode_utf8(salt@),
                19456,
                2,
                1,
                HASH_LEN as nat,
            ) && hash@.len() == HASH_LEN,
            r matches Err(message) ==> message@ == HashError::HashFailed.message(),
            vstd::utf8::encode_utf8(salt@).len() < MIN_SALT_LEN ==> r is Err,
    {
        match crate::hashing::hash(password.as_slice(), salt.as_str()) {
            Ok(hash) => Ok(hash),
            Err(e) => Err(e.to_string()),
        }
    }

    /// Renders markdown as HTML.
    pub fn parse(markdown: String) -> (r: Result<String, String>)
        ensures
            r matches Ok(html) && html@ == html_of(markdown@),
    {
        match crate::markdown::parse(markdown.as_str()) {
            Ok(html) => Ok(html),
            Err(e) => Err(e.to_string()),
        }
    }

    /// Unpacks the content of the first entry of a 7z archive, given how
    /// the reading of the archive ended.
    pub fn unzip(outcome: ReadOutcome) -> (r: Result<Vec<u8>, String>)
        ensures
            match r {
                Ok(content) => unpacked(outcome) == Ok::<Vec<u8>, ArchiveError>(content),
                Err(message) => unpacked(outcome) matches Err(e) && message@ == e.message(),
            },
    {
        match crate::archive::unzip(outcome) {
            Ok(content) => Ok(content),
            Err(e) => Err(e.to_string()),
        }
    }

    /// Compresses the bytes into a 7z archive at the default level.
    pub fn zip(req: Vec<u8>) -> (r: Result<Vec<u8>, String>)
        ensures
            r matches Ok(bytes) ==> bytes@ == archive_of(seq![(entry_name(), req@)]),
            r matches Err(message) ==> message@ == ArchiveError::Create.message() || message@
                == ArchiveError::Compress.message() || message@
                == ArchiveError::Finalize.message(),
    {
        match crate::archive::zip(req.as_slice()) {
            Ok(bytes) => Ok(bytes),
            Err(e) => Err(e.to_string()),
        }
    }
}

} // verus!
