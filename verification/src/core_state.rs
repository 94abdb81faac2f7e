use vstd::prelude::*;

use crate::contract::DaoContract;
use crate::errors::GovError;

verus! {

/// When a vote touches a proposal whose lease would expire within this many
/// clock units, the lease is renewed (see `crate::model::lease_bump`).
pub const PERSISTENT_BUMP_AMOUNT_LOW_WATERMARK: u64 = 604800;

/// A renewed (or freshly created) lease lasts this many clock units from the
/// moment of the renewal.
pub const PERSISTENT_BUMP_AMOUNT_HIGH_WATERMARK: u64 = 1209600;

/// The DAO's identity, created exactly once at initialization: the
/// governance-token reference, the shareholder set (fixed at creation), the
/// minimum voting power a voter must assert, and the quorum threshold.
pub struct CoreState {
    pub governance_token: u64,
    pub shareholders: Vec<u64>,
    pub min_vote_power: u32,
    pub min_quorum: i128,
}

/// Checks that the engine has not been initialized yet; initialization is
/// allowed exactly when this returns `Ok`.
pub fn can_init_contract(dao: &DaoContract) -> (r: Result<(), GovError>)
    ensures
        r == if dao@.initialized() {
            Err::<(), GovError>(GovError::AlreadyInitialized)
        } else {
            Ok::<(), GovError>(())
        },
{
    if dao.core.is_some() {
        Err(GovError::AlreadyInitialized)
    } else {
        Ok(())
    }
}

/// Overwrites the engine's core configuration. This is the raw storage
/// write; `DaoContract::init` is the gated entry point that refuses a second
/// initialization.
pub fn set_core_state(dao: &mut DaoContract, core_state: CoreState)
    ensures
        final(dao)@ == old(dao)@.with_core(core_state),
{
    dao.core = Some(core_state);
}

/// Reads the core configuration, failing while the engine is uninitialized.
pub fn get_core_state(dao: &DaoContract) -> (r: Result<&CoreState, GovError>)
    ensures
        dao@.initialized() ==> (r matches Ok(c) && Some(*c) == dao@.core),
        !dao@.initialized() ==> r == Err::<&CoreState, GovError>(GovError::NotInitialized),
{
    match &dao.core {
        Some(c) => Ok(c),
        None => Err(GovError::NotInitialized),
    }
}

} // verus!
