//! The slot, shared between the screen state and the image loader, that
//! holds the PNG of the snapshot on screen.
use std::sync::{Arc, RwLock};
use vstd::prelude::*;

verus! {

/// std's reader-writer lock, held opaquely.
#[verifier::external_type_specification]
#[verifier::external_body]
#[verifier::reject_recursive_types(T)]
pub struct ExRwLock<T: ?Sized>(RwLock<T>);

/// Calls `RwLock::read` and copies out what the slot holds; a lock that
/// another holder poisoned by panicking is read all the same.
/// Nothing is stated of the result: another holder of the slot may have
/// stored anything in it.
#[verifier::external_body]
pub(crate) fn read_slot(slot: &Arc<RwLock<Option<Vec<u8>>>>) -> Option<Vec<u8>> {
    slot.read().unwrap_or_else(|poisoned| poisoned.into_inner()).clone()
}

} // verus!
