//! The table of live sessions: engine state by session identifier.

use crate::errors::SimulationError;
use crate::evm::Evm;
use dashmap::DashMap;
use vstd::prelude::*;

verus! {

/// `dashmap::DashMap`, declared as a type whose inside is not looked into.
#[verifier::external_type_specification]
#[verifier::external_body]
#[verifier::reject_recursive_types(K)]
#[verifier::reject_recursive_types(V)]
#[verifier::reject_recursive_types(S)]
pub struct ExDashMap<K, V, S>(DashMap<K, V, S>);

/// The entries that a session table holds.
pub uninterp spec fn registered(table: DashMap<u128, Evm>) -> Map<u128, Evm>;

/// Calls `DashMap::new`. Trusted: the new table holds no entry.
#[verifier::external_body]
pub(crate) fn table_new() -> (table: DashMap<u128, Evm>)
    ensures
        registered(table).dom() == Set::<u128>::empty(),
{
    DashMap::new()
}

/// Calls `DashMap::contains_key`. Trusted: it tells whether the table
/// holds an entry under `id`.
#[verifier::external_body]
pub(crate) fn table_contains(table: &DashMap<u128, Evm>, id: u128) -> (found: bool)
    ensures
        found == registered(*table).dom().contains(id),
{
    table.contains_key(&id)
}

/// Calls `DashMap::insert`. Trusted: afterwards `id` maps to `evm` and every
/// other entry is as before.
#[verifier::external_body]
pub(crate) fn table_insert(table: &mut DashMap<u128, Evm>, id: u128, evm: Evm)
    ensures
        registered(*final(table)) == registered(*old(table)).insert(id, evm),
{
    table.insert(id, evm);
}

/// Calls `DashMap::remove`. Trusted: afterwards the table holds no entry
/// under `id` and every other entry is as before; the value that `id`
/// mapped to, if any, comes back.
#[verifier::external_body]
pub(crate) fn table_remove(table: &mut DashMap<u128, Evm>, id: u128) -> (removed: Option<Evm>)
    ensures
        registered(*final(table)) == registered(*old(table)).remove(id),
        removed == (if registered(*old(table)).dom().contains(id) {
            Some(registered(*old(table))[id])
        } else {
            None::<Evm>
        }),
{
    table.remove(&id).map(|entry| entry.1)
}

/// Calls `uuid::Uuid::new_v4` and hands its 128 bits out as an integer
/// (`Uuid::as_u128`). The bits are random: nothing is promised of them.
#[verifier::external_body]
pub(crate) fn random_session_id() -> (id: u128) {
    uuid::Uuid::new_v4().as_u128()
}

/// The sessions of the process: each a tracked engine under its identifier.
pub struct SharedSimulationState {
    pub evms: DashMap<u128, Evm>,
}

impl SharedSimulationState {
    /// The sessions that are registered, by identifier.
    pub open spec fn sessions(&self) -> Map<u128, Evm> {
        registered(self.evms)
    }

    /// A table without sessions.
    pub fn new() -> (state: SharedSimulationState)
        ensures
            state.sessions() == Map::<u128, Evm>::empty(),
    {
        let evms = table_new();
        assert(registered(evms) =~= Map::<u128, Evm>::empty());
        SharedSimulationState { evms }
    }

    /// Whether a session is registered under `id`.
    pub fn contains(&self, id: u128) -> (found: bool)
        ensures
            found == self.sessions().dom().contains(id),
    {
        table_contains(&self.evms, id)
    }

    /// Registers `evm` under `id`, in place of what was there. No other
    /// session changes.
    pub fn register(&mut self, id: u128, evm: Evm)
        ensures
            final(self).sessions() == old(self).sessions().insert(id, evm),
    {
        table_insert(&mut self.evms, id, evm);
    }

    /// Registers `evm` under a newly drawn identifier and returns it. No
    /// other session changes.
    pub fn create(&mut self, evm: Evm) -> (id: u128)
        ensures
            final(self).sessions() == old(self).sessions().insert(id, evm),
    {
        let id = random_session_id();
        self.register(id, evm);
        id
    }

    /// Takes the session under `id` out of the table, for the exclusive use
    /// of the caller, who puts it back with `register`.
    ///
    /// Fails with `StateNotFound`, changing nothing, exactly when no session
    /// is registered under `id`.
    pub fn acquire(&mut self, id: u128) -> (r: Result<Evm, SimulationError>)
        ensures
            old(self).sessions().dom().contains(id) ==> r == Ok::<Evm, SimulationError>(
                old(self).sessions()[id],
            ) && final(self).sessions() == old(self).sessions().remove(id),
            !old(self).sessions().dom().contains(id) ==> r == Err::<Evm, SimulationError>(
                SimulationError::StateNotFound,
            ) && final(self).sessions() == old(self).sessions(),
    {
        match table_remove(&mut self.evms, id) {
            Some(evm) => Ok(evm),
            None => {
                assert(self.sessions() =~= old(self).sessions());
                Err(SimulationError::StateNotFound)
            },
        }
    }

    /// Ends the session under `id`.
    ///
    /// Fails with `StateNotFound`, changing nothing, exactly when no session
    /// is registered under `id`. Otherwise that session is gone and every
    /// other one is as before.
    pub fn destroy(&mut self, id: u128) -> (r: Result<(), SimulationError>)
        ensures
            old(self).sessions().dom().contains(id) ==> r is Ok && final(self).sessions() == old(
                self,
            ).sessions().remove(id),
            !old(self).sessions().dom().contains(id) ==> r == Err::<(), SimulationError>(
                SimulationError::StateNotFound,
            ) && final(self).sessions() == old(self).sessions(),
    {
        match self.acquire(id) {
            Ok(_) => Ok(()),
            Err(e) => Err(e),
        }
    }
}

/// Once a session has been ended, its identifier names no session: the
/// table that `destroy` leaves holds nothing under it, so `acquire` and
/// `destroy` on it fail with `StateNotFound`.
pub proof fn lemma_ended_session_is_unknown(before: Map<u128, Evm>, id: u128)
    ensures
        !before.remove(id).dom().contains(id),
        forall|other: u128|
            other != id ==> (before.remove(id).dom().contains(other) <==> before.dom().contains(
                other,
            )),
{
}

} // verus!
