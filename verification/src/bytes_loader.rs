//! Serves the PNG of the snapshot on screen to the image widget, under the
//! address `shotmd://capture...`.
use std::sync::{Arc, RwLock};
use vstd::prelude::*;
use crate::shared::read_slot;

verus! {

/// Addresses that the loader answers start with this.
pub const CAPTURE_URI_PREFIX: &'static str = "shotmd://capture";

/// The loader's identifier.
pub const LOADER_ID: &'static str = "shotmd::bytes_loader::ShotmdBytesLoader";

/// The media type of what the loader serves.
pub const CAPTURE_MIME: &'static str = "image/png";

/// `s` begins with `prefix`.
pub open spec fn has_prefix(s: Seq<char>, prefix: Seq<char>) -> bool {
    prefix.len() <= s.len() && s.subrange(0, prefix.len() as int) == prefix
}

/// Calls `str::starts_with` with a string pattern.
/// Trusted: true exactly when `prefix` is the beginning of `s`, as std
/// documents it.
#[verifier::external_body]
fn str_starts_with(s: &str, prefix: &str) -> (found: bool)
    ensures
        found == has_prefix(s@, prefix@),
{
    s.starts_with(prefix)
}

/// The loader answers the address `uri`.
pub fn serves(uri: &str) -> (answered: bool)
    ensures
        answered == has_prefix(uri@, CAPTURE_URI_PREFIX@),
{
    str_starts_with(uri, CAPTURE_URI_PREFIX)
}

/// The size of what the slot holds: its length, or 0 when it is empty.
pub fn stored_size(stored: &Option<Vec<u8>>) -> (size: usize)
    ensures
        size == match stored {
            Some(bytes) => bytes@.len(),
            None => 0,
        },
{
    match stored {
        Some(bytes) => bytes.len(),
        None => 0,
    }
}

/// What the loader hands out for `uri` when the slot holds `stored`: the
/// stored bytes for its own addresses, nothing for any other address.
pub fn answer(uri: &str, stored: Option<Vec<u8>>) -> (bytes: Option<Vec<u8>>)
    ensures
        bytes == (if has_prefix(uri@, CAPTURE_URI_PREFIX@) { stored } else { None }),
{
    if serves(uri) {
        stored
    } else {
        None
    }
}

/// Hands the image widget the PNG of the snapshot on screen.
pub struct ShotmdBytesLoader {
    bytes: Arc<RwLock<Option<Vec<u8>>>>,
}

impl ShotmdBytesLoader {
    /// The slot that the loader serves from.
    pub closed spec fn slot(&self) -> Arc<RwLock<Option<Vec<u8>>>> {
        self.bytes
    }

    /// A loader that serves what `bytes` holds.
    pub fn new(bytes: Arc<RwLock<Option<Vec<u8>>>>) -> (loader: Self)
        ensures
            loader.slot() == bytes,
    {
        Self { bytes }
    }

    /// The loader's identifier.
    pub fn id(&self) -> (id: &'static str)
        ensures
            id@ == LOADER_ID@,
    {
        LOADER_ID
    }

    /// What the loader hands out for `uri`: nothing for addresses that are
    /// not its own; for its own, what the slot holds at the time of reading
    /// (the slot is read only for those).
    pub fn load(&self, uri: &str) -> (bytes: Option<Vec<u8>>)
        ensures
            !has_prefix(uri@, CAPTURE_URI_PREFIX@) ==> bytes is None,
    {
        if serves(uri) {
            answer(uri, read_slot(&self.bytes))
        } else {
            None
        }
    }

    /// Size in bytes of what the slot holds at the time of reading, 0 when
    /// it is empty.
    pub fn byte_size(&self) -> usize {
        stored_size(&read_slot(&self.bytes))
    }
}

} // verus!
