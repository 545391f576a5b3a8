//! The lock through which the threads share the settings.

use std::sync::Arc;

use parking_lot::RwLock;
use vstd::prelude::*;

use crate::state::{initial_state, AppState};

verus! {

/// The reader-writer lock of `lock_api`, of which `parking_lot::RwLock` is an
/// instance. What it guards at a given moment is out of sight here: other
/// threads change it.
#[verifier::external_type_specification]
#[verifier::external_body]
#[verifier::reject_recursive_types(R)]
#[verifier::reject_recursive_types(T)]
pub struct ExRwLock<R, T: ?Sized>(parking_lot::lock_api::RwLock<R, T>);

/// The raw lock under `parking_lot::RwLock`.
#[verifier::external_type_specification]
#[verifier::external_body]
pub struct ExRawRwLock(parking_lot::RawRwLock);

/// The settings, shared between threads.
pub type SharedState = Arc<RwLock<AppState>>;

/// The settings that a lock was made with.
pub uninterp spec fn made_with(lock: RwLock<AppState>) -> AppState;

/// `parking_lot::RwLock::new`: an unlocked lock made with the given settings.
#[verifier::external_body]
fn rw_lock(state: AppState) -> (r: RwLock<AppState>)
    ensures
        made_with(r) == state,
{
    RwLock::new(state)
}

/// A lock that guards the settings that the program starts with.
pub fn new_shared() -> (r: SharedState)
    ensures
        made_with(*r) == initial_state(),
{
    Arc::new(rw_lock(AppState::default()))
}

} // verus!
