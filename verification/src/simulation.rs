//! Requests and responses, and the run of a list of requests against one
//! engine: validation, block progression, overrides and result shaping,
//! one step at a time around the caller's engine invocations.

use crate::errors::SimulationError;
use crate::evm::{
    account_or_fresh, accounts_map, bytecode_accepted, copy_vec, formatted_trace_is, overridden,
    storage_map, AccessListItem, AccountView, CallRawRequest, CallTrace, EngineReply, Evm,
    EvmView, ExecutionOutcome, Log, StorageOverride, StorageOverrideView, StorageSlot,
};
use crate::primitives::{word_modulus, Address, Word};
use crate::registry::SharedSimulationState;
use vstd::prelude::*;

verus! {

/// The storage part of an override: the whole storage, or a patch.
#[derive(Clone, Debug, PartialEq)]
pub enum State {
    /// Replace the storage by these slots.
    Full { state: Vec<StorageSlot> },
    /// Keep the storage and write these slots.
    Diff { state_diff: Vec<StorageSlot> },
}

/// What a storage choice says: its slots as a map, and whether it patches.
pub open spec fn state_view(value: State) -> StorageOverrideView {
    match value {
        State::Full { state } => StorageOverrideView { slots: storage_map(state@), diff: false },
        State::Diff { state_diff } => StorageOverrideView {
            slots: storage_map(state_diff@),
            diff: true,
        },
    }
}

/// The storage override that a storage choice stands for: the same slots,
/// patching exactly for `Diff`.
pub open spec fn storage_override_of(value: State) -> StorageOverride {
    StorageOverride {
        slots: match value {
            State::Full { state } => state,
            State::Diff { state_diff } => state_diff,
        },
        diff: value is Diff,
    }
}

impl From<State> for StorageOverride {
    fn from(value: State) -> (storage: StorageOverride) {
        match value {
            State::Full { state } => StorageOverride { slots: state, diff: false },
            State::Diff { state_diff } => StorageOverride { slots: state_diff, diff: true },
        }
    }
}

impl vstd::std_specs::convert::FromSpecImpl<State> for StorageOverride {
    open spec fn obeys_from_spec() -> bool {
        true
    }

    open spec fn from_spec(value: State) -> StorageOverride {
        storage_override_of(value)
    }
}

/// A partial description of an account. What is absent stays as it is.
#[derive(Clone, Debug, PartialEq)]
pub struct StateOverride {
    pub balance: Option<Word>,
    pub nonce: Option<u64>,
    pub code: Option<Vec<u8>>,
    pub state: Option<State>,
}

/// An override together with the address it is for.
#[derive(Clone, Debug, PartialEq)]
pub struct AddressOverride {
    pub address: Address,
    pub state_override: StateOverride,
}

/// One transaction to simulate.
#[derive(Clone, Debug)]
pub struct SimulationRequest {
    pub chain_id: u64,
    pub from: Address,
    pub to: Address,
    pub data: Option<Vec<u8>>,
    pub gas_limit: u64,
    pub value: Option<Word>,
    pub access_list: Option<Vec<AccessListItem>>,
    pub block_number: Option<u64>,
    pub block_timestamp: Option<Word>,
    pub state_overrides: Option<Vec<AddressOverride>>,
    pub format_trace: Option<bool>,
}

/// The outcome of one simulated transaction.
#[derive(Clone, Debug, PartialEq)]
pub struct SimulationResponse {
    pub simulation_id: u64,
    pub gas_used: u64,
    pub block_number: u64,
    pub success: bool,
    pub trace: Vec<CallTrace>,
    pub formatted_trace: Option<String>,
    pub logs: Vec<Log>,
    pub exit_reason: u8,
    pub return_data: Vec<u8>,
}

/// The parameters of a new session.
#[derive(Clone, Copy, Debug)]
pub struct StatefulSimulationRequest {
    pub chain_id: u64,
    pub gas_limit: u64,
    pub block_number: Option<u64>,
    pub block_timestamp: Option<Word>,
}

/// The identifier of a session that was started.
#[derive(Clone, Copy, Debug, PartialEq, Eq, Structural)]
pub struct StatefulSimulationResponse {
    pub stateful_simulation_id: u128,
}

/// The answer to a request to end a session.
#[derive(Clone, Copy, Debug, PartialEq, Eq, Structural)]
pub struct StatefulSimulationEndResponse {
    pub success: bool,
}

/// Whether the override carries code that the engine does not accept.
pub open spec fn override_rejected(o: StateOverride) -> bool {
    o.code matches Some(c) && !bytecode_accepted(c@)
}

/// The account that the override makes of `base`.
pub open spec fn override_result(base: AccountView, o: StateOverride) -> AccountView {
    overridden(
        base,
        o.balance,
        o.nonce,
        match o.code {
            Some(c) => Some(c@),
            None => None,
        },
        match o.state {
            Some(s) => Some(state_view(s)),
            None => None,
        },
    )
}

/// The accounts after the overrides were applied in order, each to the
/// account that the ones before it left.
pub open spec fn accounts_after(accounts: Map<Address, AccountView>, ovs: Seq<AddressOverride>)
    -> Map<Address, AccountView>
    decreases ovs.len(),
{
    if ovs.len() == 0 {
        accounts
    } else {
        let prior = accounts_after(accounts, ovs.drop_last());
        prior.insert(
            ovs.last().address,
            override_result(account_or_fresh(prior, ovs.last().address), ovs.last().state_override),
        )
    }
}

/// Whether `k` is the place of the first override with rejected code.
pub open spec fn first_rejected(ovs: Seq<AddressOverride>, k: int) -> bool {
    &&& 0 <= k < ovs.len()
    &&& override_rejected(ovs[k].state_override)
    &&& forall|j: int| 0 <= j < k ==> !override_rejected(#[trigger] ovs[j].state_override)
}

/// Whether no override carries rejected code.
pub open spec fn none_rejected(ovs: Seq<AddressOverride>) -> bool {
    forall|j: int| 0 <= j < ovs.len() ==> !override_rejected(#[trigger] ovs[j].state_override)
}

/// Whether `after` and `r` are what applying `ovs` to `before` gives: all
/// of them applied and `Ok`, or those before the first rejected one applied
/// and `Override`. Nothing but the accounts changes.
pub open spec fn overrides_applied(
    before: EvmView,
    after: EvmView,
    ovs: Seq<AddressOverride>,
    r: Result<(), SimulationError>,
) -> bool {
    &&& after.chain_id == before.chain_id
    &&& after.block_number == before.block_number
    &&& after.block_timestamp == before.block_timestamp
    &&& after.gas_limit == before.gas_limit
    &&& match r {
        Ok(_) => none_rejected(ovs) && after.accounts == accounts_after(before.accounts, ovs),
        Err(e) => e == SimulationError::Override && exists|k: int| #[trigger]
            first_rejected(ovs, k) && after.accounts == accounts_after(
                before.accounts,
                ovs.take(k),
            ),
    }
}

/// The overrides that a request carries, in order.
pub open spec fn overrides_of(tx: SimulationRequest) -> Seq<AddressOverride> {
    match tx.state_overrides {
        Some(v) => v@,
        None => Seq::empty(),
    }
}

/// Whether the request asks for a formatted trace.
pub open spec fn wants_trace(tx: SimulationRequest) -> bool {
    tx.format_trace == Some(true)
}

fn copy_state(value: &State) -> (copy: State)
    ensures
        state_view(copy) == state_view(*value),
{
    match value {
        State::Full { state } => State::Full { state: copy_vec(state) },
        State::Diff { state_diff } => State::Diff { state_diff: copy_vec(state_diff) },
    }
}

/// Applies the overrides in order and keeps each result in `evm`. Stops at
/// the first override whose code the engine rejects and fails with
/// `Override`; the overrides before it stay applied.
pub fn apply_overrides(evm: &mut Evm, overrides: &Vec<AddressOverride>) -> (r: Result<
    (),
    SimulationError,
>)
    ensures
        overrides_applied(old(evm)@, final(evm)@, overrides@, r),
{
    let mut i: usize = 0;
    assert(overrides@.take(0) =~= Seq::<AddressOverride>::empty());
    while i < overrides.len()
        invariant
            i <= overrides.len(),
            overrides_applied(
                old(evm)@,
                evm@,
                overrides@.take(i as int),
                Ok::<(), SimulationError>(()),
            ),
        decreases overrides.len() - i,
    {
        let entry = &overrides[i];
        let code = match &entry.state_override.code {
            Some(c) => Some(copy_vec(c)),
            None => None,
        };
        let storage = match &entry.state_override.state {
            Some(s) => Some(StorageOverride::from(copy_state(s))),
            None => None,
        };
        let applied = evm.override_account(
            entry.address,
            entry.state_override.balance,
            entry.state_override.nonce,
            code,
            storage,
        );
        proof {
            assert(overrides@.take(i + 1).drop_last() =~= overrides@.take(i as int));
            assert(overrides@.take(i + 1).last() == overrides@[i as int]);
            assert forall|j: int| 0 <= j < i implies !override_rejected(
                #[trigger] overrides@[j].state_override,
            ) by {
                assert(overrides@.take(i as int)[j] == overrides@[j]);
            }
        }
        match applied {
            Err(_) => {
                proof {
                    assert(first_rejected(overrides@, i as int));
                }
                return Err(SimulationError::Override);
            },
            Ok(_) => {},
        }
        i += 1;
    }
    assert(overrides@.take(i as int) =~= overrides@);
    Ok(())
}

/// Whether every request names the chain id of the first.
pub open spec fn chain_ids_agree(txs: Seq<SimulationRequest>) -> bool {
    forall|i: int| 0 <= i < txs.len() ==> (#[trigger] txs[i]).chain_id == txs[0].chain_id
}

/// Why a list of requests cannot run on an engine of the given chain id:
/// `MultipleChainIds` where the requests disagree, else `IncorrectChainId`
/// where they name another chain than the engine's.
pub open spec fn validation_failure(chain_id: u64, txs: Seq<SimulationRequest>) -> Option<
    SimulationError,
> {
    if !chain_ids_agree(txs) {
        Some(SimulationError::MultipleChainIds)
    } else if txs[0].chain_id != chain_id {
        Some(SimulationError::IncorrectChainId)
    } else {
        None
    }
}

/// Checks a whole list of requests against the engine's chain id, before
/// anything runs.
pub fn validate_bundle(chain_id: u64, transactions: &Vec<SimulationRequest>) -> (failure: Option<
    SimulationError,
>)
    requires
        transactions.len() > 0,
    ensures
        failure == validation_failure(chain_id, transactions@),
{
    let first: u64 = transactions[0].chain_id;
    let mut i: usize = 1;
    while i < transactions.len()
        invariant
            1 <= i <= transactions.len(),
            first == transactions@[0].chain_id,
            forall|j: int| 0 <= j < i ==> (#[trigger] transactions@[j]).chain_id == first,
        decreases transactions.len() - i,
    {
        if transactions[i].chain_id != first {
            return Some(SimulationError::MultipleChainIds);
        }
        i += 1;
    }
    if first != chain_id {
        Some(SimulationError::IncorrectChainId)
    } else {
        None
    }
}

/// Whether a request for block `requested` may run on an engine at block
/// `current`, after a request for block `previous`: it names no block, or
/// the current one, or one that is not below the current block and is
/// above the block that the request before it named.
pub open spec fn progression_ok(current: u64, previous: Option<u64>, requested: Option<u64>)
    -> bool {
    match requested {
        None => true,
        Some(b) => b == current || (b >= current && match previous {
            Some(p) => b > p,
            None => true,
        }),
    }
}

/// The block at which the request runs.
pub open spec fn target_block(current: u64, requested: Option<u64>) -> u64 {
    match requested {
        Some(b) => b,
        None => current,
    }
}

/// Whether `after` is `before` moved to the requested block: in place
/// where the block stays, else at the new block with the timestamp
/// advanced by `block_time`. Nothing else changes.
pub open spec fn block_advanced(
    before: EvmView,
    after: EvmView,
    requested: Option<u64>,
    block_time: Word,
) -> bool {
    &&& after.chain_id == before.chain_id
    &&& after.gas_limit == before.gas_limit
    &&& after.accounts == before.accounts
    &&& after.block_number == target_block(before.block_number, requested)
    &&& if after.block_number == before.block_number {
        after.block_timestamp == before.block_timestamp
    } else {
        after.block_timestamp.value() == (before.block_timestamp.value() + block_time.value())
            % word_modulus()
    }
}

/// Moves the engine to the block that a request names.
///
/// Fails with `InvalidBlockNumbers`, changing nothing, exactly when the
/// progression rule forbids the block.
pub fn advance_block(
    evm: &mut Evm,
    previous: Option<u64>,
    requested: Option<u64>,
    block_time: Word,
) -> (r: Result<(), SimulationError>)
    ensures
        progression_ok(old(evm)@.block_number, previous, requested) ==> r is Ok && block_advanced(
            old(evm)@,
            final(evm)@,
            requested,
            block_time,
        ),
        !progression_ok(old(evm)@.block_number, previous, requested) ==> r == Err::<
            (),
            SimulationError,
        >(SimulationError::InvalidBlockNumbers) && *final(evm) == *old(evm),
{
    let current: u64 = evm.get_block();
    match requested {
        None => Ok(()),
        Some(candidate) => {
            if candidate == current {
                return Ok(());
            }
            let above_previous = match previous {
                Some(p) => candidate > p,
                None => true,
            };
            if candidate < current || !above_previous {
                return Err(SimulationError::InvalidBlockNumbers);
            }
            let timestamp = evm.get_block_timestamp().wrapping_add(block_time);
            let _ = evm.set_block(candidate);
            let _ = evm.set_block_timestamp(timestamp);
            Ok(())
        },
    }
}

/// Whether `after` and `r` are what readying one request on `before`
/// gives. The checks come in this order, and a failed check changes
/// nothing: the chain id of the run, the chain id of the engine, the block
/// progression. Then the block is advanced and the overrides are applied.
pub open spec fn element_prepared(
    before: EvmView,
    after: EvmView,
    first_chain_id: u64,
    previous: Option<u64>,
    tx: SimulationRequest,
    block_time: Word,
    r: Result<(), SimulationError>,
) -> bool {
    if tx.chain_id != first_chain_id {
        r == Err::<(), SimulationError>(SimulationError::MultipleChainIds) && after == before
    } else if tx.chain_id != before.chain_id {
        r == Err::<(), SimulationError>(SimulationError::IncorrectChainId) && after == before
    } else if !progression_ok(before.block_number, previous, tx.block_number) {
        r == Err::<(), SimulationError>(SimulationError::InvalidBlockNumbers) && after == before
    } else {
        exists|mid: EvmView| #[trigger]
            block_advanced(before, mid, tx.block_number, block_time) && overrides_applied(
                mid,
                after,
                overrides_of(tx),
                r,
            )
    }
}

/// Readies the engine for one request of a run: checks its chain id,
/// moves the block, applies its overrides.
pub fn prepare_element(
    evm: &mut Evm,
    first_chain_id: u64,
    previous: Option<u64>,
    tx: &SimulationRequest,
    block_time: Word,
) -> (r: Result<(), SimulationError>)
    ensures
        element_prepared(old(evm)@, final(evm)@, first_chain_id, previous, *tx, block_time, r),
{
    if tx.chain_id != first_chain_id {
        return Err(SimulationError::MultipleChainIds);
    }
    if tx.chain_id != evm.get_chain_id() {
        return Err(SimulationError::IncorrectChainId);
    }
    match advance_block(evm, previous, tx.block_number, block_time) {
        Err(e) => {
            return Err(e);
        },
        Ok(_) => {},
    }
    let ghost mid = evm@;
    let r = match &tx.state_overrides {
        Some(overrides) => apply_overrides(evm, overrides),
        None => Ok(()),
    };
    proof {
        assert(block_advanced(old(evm)@, mid, tx.block_number, block_time));
    }
    r
}

/// An access list as plain values.
pub open spec fn access_list_view(items: Seq<AccessListItem>) -> Seq<(Address, Seq<Word>)> {
    Seq::new(items.len(), |i: int| (items[i].address, items[i].storage_keys@))
}

fn copy_access_list(items: &Vec<AccessListItem>) -> (copy: Vec<AccessListItem>)
    ensures
        access_list_view(copy@) == access_list_view(items@),
{
    let mut copy: Vec<AccessListItem> = Vec::new();
    let mut i: usize = 0;
    while i < items.len()
        invariant
            i <= items.len(),
            copy@.len() == i,
            forall|j: int|
                0 <= j < i ==> (#[trigger] copy@[j]).address == items@[j].address
                    && copy@[j].storage_keys@ == items@[j].storage_keys@,
        decreases items.len() - i,
    {
        let item = &items[i];
        copy.push(
            AccessListItem { address: item.address, storage_keys: copy_vec(&item.storage_keys) },
        );
        i += 1;
    }
    assert(access_list_view(copy@) =~= access_list_view(items@));
    copy
}

/// Whether `call` is what the engine is handed for `tx`: sender, target,
/// value, data and access list as the request has them, and a formatted
/// trace asked for exactly where the request asks for it.
pub open spec fn call_matches(call: CallRawRequest, tx: SimulationRequest) -> bool {
    &&& call.from == tx.from
    &&& call.to == tx.to
    &&& call.value == tx.value
    &&& call.format_trace == wants_trace(tx)
    &&& match (call.data, tx.data) {
        (Some(c), Some(t)) => c@ == t@,
        (None, None) => true,
        _ => false,
    }
    &&& match (call.access_list, tx.access_list) {
        (Some(c), Some(t)) => access_list_view(c@) == access_list_view(t@),
        (None, None) => true,
        _ => false,
    }
}

/// The invocation that the engine is handed for a request.
pub fn call_request(tx: &SimulationRequest) -> (call: CallRawRequest)
    ensures
        call_matches(call, *tx),
{
    let data = match &tx.data {
        Some(d) => Some(copy_vec(d)),
        None => None,
    };
    let access_list = match &tx.access_list {
        Some(items) => Some(copy_access_list(items)),
        None => None,
    };
    let format_trace = match tx.format_trace {
        Some(flag) => flag,
        None => false,
    };
    CallRawRequest { from: tx.from, to: tx.to, value: tx.value, data, access_list, format_trace }
}

/// Why the engine's reply ends the request in a failure, if it does: the
/// engine failed, or a formatted trace was asked for and could not be
/// rendered. A revert is no failure.
pub open spec fn reply_failure(format_trace: bool, reply: EngineReply) -> Option<SimulationError> {
    match reply {
        EngineReply::Failed => Some(SimulationError::Evm),
        EngineReply::Completed(outcome) => if format_trace && outcome.rendering is Failed {
            Some(SimulationError::Serialization)
        } else {
            None
        },
    }
}

/// Whether `response` reports `outcome`, received at block `block_number`.
pub open spec fn response_reports(
    response: SimulationResponse,
    block_number: u64,
    format_trace: bool,
    outcome: ExecutionOutcome,
) -> bool {
    &&& response.simulation_id == 1
    &&& response.gas_used == outcome.gas_used
    &&& response.block_number == block_number
    &&& response.success == !outcome.reverted
    &&& response.trace@ == (match outcome.trace {
        Some(nodes) => nodes@,
        None => Seq::<CallTrace>::empty(),
    })
    &&& response.logs == outcome.logs
    &&& response.exit_reason == outcome.exit_reason
    &&& response.return_data == outcome.return_data
    &&& formatted_trace_is(response.formatted_trace, format_trace, outcome.rendering)
}

/// The engine state after a reply was taken in: a committing invocation
/// leaves the request's gas limit behind, a read-only one leaves nothing.
pub open spec fn after_reply(before: EvmView, commit: bool, gas_limit: u64) -> EvmView {
    if commit {
        EvmView { gas_limit, ..before }
    } else {
        before
    }
}

/// Turns the engine's reply to a request into the response. `commit` says
/// whether the invocation was a committing one.
pub fn run(evm: &mut Evm, transaction: &SimulationRequest, commit: bool, reply: EngineReply) -> (r:
    Result<SimulationResponse, SimulationError>)
    ensures
        final(evm)@ == after_reply(old(evm)@, commit, transaction.gas_limit),
        match reply_failure(wants_trace(*transaction), reply) {
            Some(e) => r == Err::<SimulationResponse, SimulationError>(e),
            None => r matches Ok(response) && response_reports(
                response,
                old(evm)@.block_number,
                wants_trace(*transaction),
                reply->Completed_0,
            ),
        },
{
    let call = call_request(transaction);
    let result = if commit {
        evm.transact_raw(call, transaction.gas_limit, reply)
    } else {
        evm.call_raw(call, reply)
    };
    match result {
        Err(e) => Err(e),
        Ok(res) => {
            let trace = match res.trace {
                Some(nodes) => nodes,
                None => Vec::new(),
            };
            Ok(
                SimulationResponse {
                    simulation_id: 1,
                    gas_used: res.gas_used,
                    block_number: res.block_number,
                    success: res.success,
                    trace,
                    formatted_trace: res.formatted_trace,
                    logs: res.logs,
                    exit_reason: res.exit_reason,
                    return_data: res.return_data,
                },
            )
        },
    }
}

/// What the caller of a run does next.
#[derive(Clone, Copy, Debug, PartialEq, Eq, Structural)]
pub enum BundleAction {
    /// Invoke the engine for the request at this place of the list.
    Execute(usize),
    /// Every request has run: the responses are complete.
    Finish,
    /// The run has failed: nothing more of it runs.
    Abort(SimulationError),
}

/// The failure that an action reports, if any.
pub open spec fn action_failure(action: BundleAction) -> Option<SimulationError> {
    match action {
        BundleAction::Abort(e) => Some(e),
        _ => None,
    }
}

/// An action as the result of readying a request.
pub open spec fn action_result(action: BundleAction) -> Result<(), SimulationError> {
    match action {
        BundleAction::Abort(e) => Err(e),
        _ => Ok(()),
    }
}

/// The run of a list of requests against one engine, in list order.
///
/// The caller alternates `prepare`, which readies the engine for the next
/// request and says what to do, with `complete`, which takes in the
/// engine's reply. After a failure nothing more runs.
#[derive(Clone, Debug)]
pub struct BundleRun {
    /// The requests, in the order in which they run.
    pub transactions: Vec<SimulationRequest>,
    /// Whether the engine is invoked in committing mode.
    pub commit: bool,
    /// By how much the timestamp moves when the block advances.
    pub block_time: Word,
    /// The place of the next request to run.
    pub next: usize,
    /// The block number that the request before the next one named.
    pub previous_block: Option<u64>,
    /// Whether the engine's reply for `next` is awaited.
    pub awaiting: bool,
    /// Why the run has failed, if it has.
    pub failure: Option<SimulationError>,
    /// The responses of the requests that have run, in order.
    pub responses: Vec<SimulationResponse>,
}

impl BundleRun {
    /// The run is in a state that its own steps lead to.
    pub open spec fn wf(&self) -> bool {
        &&& self.transactions.len() > 0
        &&& self.next <= self.transactions.len()
        &&& self.awaiting ==> self.failure is None && self.next < self.transactions.len()
        &&& self.failure is Some ==> self.responses.len() == 0
        &&& self.failure is None ==> self.responses.len() == self.next
    }

    /// The two runs are of the same requests under the same settings.
    pub open spec fn same_plan(&self, other: BundleRun) -> bool {
        &&& self.transactions == other.transactions
        &&& self.commit == other.commit
        &&& self.block_time == other.block_time
    }

    /// Whether `after`, `evm_after` and `action` are what `prepare` makes
    /// of `before` and `evm_before`.
    pub open spec fn prepare_step(
        before: BundleRun,
        evm_before: EvmView,
        after: BundleRun,
        evm_after: EvmView,
        action: BundleAction,
    ) -> bool {
        &&& after.same_plan(before)
        &&& after.next == before.next
        &&& after.previous_block == before.previous_block
        &&& match before.failure {
            Some(e) => action == BundleAction::Abort(e) && after == before && evm_after
                == evm_before,
            None => if before.awaiting {
                action == BundleAction::Execute(before.next) && after == before && evm_after
                    == evm_before
            } else if before.next == before.transactions.len() {
                action == BundleAction::Finish && after == before && evm_after == evm_before
            } else {
                &&& !(action is Finish)
                &&& element_prepared(
                    evm_before,
                    evm_after,
                    before.transactions[0].chain_id,
                    before.previous_block,
                    before.transactions[before.next as int],
                    before.block_time,
                    action_result(action),
                )
                &&& after.failure == action_failure(action)
                &&& after.awaiting == (action is Execute)
                &&& action is Execute ==> action == BundleAction::Execute(before.next)
                    && after.responses == before.responses
                &&& action is Abort ==> after.responses.len() == 0
            },
        }
    }

    /// Whether `after` and `evm_after` are what `complete` makes of
    /// `before`, `evm_before` and the engine's reply.
    pub open spec fn complete_step(
        before: BundleRun,
        evm_before: EvmView,
        after: BundleRun,
        evm_after: EvmView,
        reply: EngineReply,
    ) -> bool {
        &&& after.same_plan(before)
        &&& if !before.awaiting {
            after == before && evm_after == evm_before
        } else {
            let tx = before.transactions[before.next as int];
            &&& evm_after == after_reply(evm_before, before.commit, tx.gas_limit)
            &&& !after.awaiting
            &&& match reply_failure(wants_trace(tx), reply) {
                Some(e) => {
                    &&& after.failure == Some(e)
                    &&& after.responses.len() == 0
                    &&& after.next == before.next
                    &&& after.previous_block == before.previous_block
                },
                None => {
                    &&& after.failure is None
                    &&& after.next == before.next + 1
                    &&& after.previous_block == tx.block_number
                    &&& after.responses@.len() == before.responses@.len() + 1
                    &&& after.responses@.drop_last() == before.responses@
                    &&& response_reports(
                        after.responses@.last(),
                        evm_before.block_number,
                        wants_trace(tx),
                        reply->Completed_0,
                    )
                },
            }
        }
    }

    /// A run of `transactions` on an engine of the given chain id, with
    /// nothing run yet. A list that fails validation gives a run that has
    /// failed already, so that none of its requests ever runs.
    pub fn begin(
        chain_id: u64,
        transactions: Vec<SimulationRequest>,
        commit: bool,
        block_time: Word,
    ) -> (run: BundleRun)
        requires
            transactions.len() > 0,
        ensures
            run.wf(),
            run.transactions == transactions,
            run.commit == commit,
            run.block_time == block_time,
            run.next == 0,
            run.previous_block is None,
            !run.awaiting,
            run.responses.len() == 0,
            run.failure == validation_failure(chain_id, transactions@),
    {
        let failure = validate_bundle(chain_id, &transactions);
        BundleRun {
            transactions,
            commit,
            block_time,
            next: 0,
            previous_block: None,
            awaiting: false,
            failure,
            responses: Vec::new(),
        }
    }

    /// Marks the run as failed and drops the responses gathered so far.
    fn fail(&mut self, e: SimulationError)
        requires
            old(self).wf(),
        ensures
            final(self).wf(),
            final(self).same_plan(*old(self)),
            final(self).next == old(self).next,
            final(self).previous_block == old(self).previous_block,
            final(self).failure == Some(e),
            !final(self).awaiting,
            final(self).responses.len() == 0,
    {
        self.failure = Some(e);
        self.awaiting = false;
        self.responses = Vec::new();
    }

    /// Readies the engine for the next request and says what the caller
    /// does next: invoke the engine, stop with the responses, or stop
    /// with the failure. A failed run stays failed and touches nothing.
    pub fn prepare(&mut self, evm: &mut Evm) -> (action: BundleAction)
        requires
            old(self).wf(),
        ensures
            final(self).wf(),
            BundleRun::prepare_step(*old(self), old(evm)@, *final(self), final(evm)@, action),
    {
        if let Some(e) = self.failure {
            return BundleAction::Abort(e);
        }
        if self.awaiting {
            return BundleAction::Execute(self.next);
        }
        if self.next == self.transactions.len() {
            return BundleAction::Finish;
        }
        let first_chain_id: u64 = self.transactions[0].chain_id;
        let readied = prepare_element(
            evm,
            first_chain_id,
            self.previous_block,
            &self.transactions[self.next],
            self.block_time,
        );
        match readied {
            Ok(_) => {
                self.awaiting = true;
                BundleAction::Execute(self.next)
            },
            Err(e) => {
                self.fail(e);
                BundleAction::Abort(e)
            },
        }
    }

    /// Takes in the engine's reply to the request that `prepare` readied:
    /// its response joins the others, or the run fails. Without an
    /// awaited reply nothing happens.
    pub fn complete(&mut self, evm: &mut Evm, reply: EngineReply)
        requires
            old(self).wf(),
        ensures
            final(self).wf(),
            BundleRun::complete_step(*old(self), old(evm)@, *final(self), final(evm)@, reply),
    {
        if !self.awaiting {
            return ;
        }
        let result = run(evm, &self.transactions[self.next], self.commit, reply);
        match result {
            Err(e) => {
                self.fail(e);
            },
            Ok(response) => {
                self.previous_block = self.transactions[self.next].block_number;
                self.responses.push(response);
                self.next = self.next + 1;
                self.awaiting = false;
                proof {
                    assert(self.responses@.drop_last() =~= old(self).responses@);
                }
            },
        }
    }
}

/// The engine with the timestamp that the first request of a run asks
/// for, where the run has not failed and the request names one.
pub open spec fn with_first_timestamp(before: EvmView, run: BundleRun) -> EvmView {
    match (run.failure, run.transactions[0].block_timestamp) {
        (None, Some(t)) => EvmView { block_timestamp: t, ..before },
        _ => before,
    }
}

fn set_first_timestamp(evm: &mut Evm, run: &BundleRun)
    requires
        run.wf(),
    ensures
        final(evm)@ == with_first_timestamp(old(evm)@, *run),
{
    if run.failure.is_none() {
        if let Some(t) = run.transactions[0].block_timestamp {
            let _ = evm.set_block_timestamp(t);
        }
    }
}

/// Starts the read-only simulation of one request on an engine built for
/// it: the request is validated against the engine's chain id and, where
/// it names a timestamp, the engine takes it.
pub fn simulate(evm: &mut Evm, transaction: SimulationRequest, block_time: Word) -> (run:
    BundleRun)
    ensures
        run.wf(),
        run.transactions@ == seq![transaction],
        !run.commit,
        run.block_time == block_time,
        run.next == 0,
        run.previous_block is None,
        !run.awaiting,
        run.failure == (if transaction.chain_id != old(evm)@.chain_id {
            Some(SimulationError::IncorrectChainId)
        } else {
            None
        }),
        final(evm)@ == with_first_timestamp(old(evm)@, run),
{
    let mut transactions: Vec<SimulationRequest> = Vec::new();
    transactions.push(transaction);
    let run = BundleRun::begin(evm.get_chain_id(), transactions, false, block_time);
    set_first_timestamp(evm, &run);
    run
}

/// Starts the committing run of a list of requests on an engine built for
/// it: the list is validated as a whole and, where the first request
/// names a timestamp, the engine takes it.
pub fn simulate_bundle(evm: &mut Evm, transactions: Vec<SimulationRequest>, block_time: Word) -> (run:
    BundleRun)
    requires
        transactions.len() > 0,
    ensures
        run.wf(),
        run.transactions == transactions,
        run.commit,
        run.block_time == block_time,
        run.next == 0,
        run.previous_block is None,
        !run.awaiting,
        run.failure == validation_failure(old(evm)@.chain_id, transactions@),
        final(evm)@ == with_first_timestamp(old(evm)@, run),
{
    let run = BundleRun::begin(evm.get_chain_id(), transactions, true, block_time);
    set_first_timestamp(evm, &run);
    run
}

/// Whether every session but the one under `id` is as it was.
pub open spec fn others_untouched(before: Map<u128, Evm>, after: Map<u128, Evm>, id: u128)
    -> bool {
    forall|other: u128|
        other != id ==> (after.dom().contains(other) <==> before.dom().contains(other)) && (
        before.dom().contains(other) ==> after[other] == before[other])
}

/// Starts a session: registers the engine under a new identifier, with
/// the timestamp that the request names, if any.
///
/// `engine` is the engine that was built for the session, or `None` where
/// it could not be built: then the call fails with `EvmCreate` and the
/// table stays as it is.
pub fn simulate_stateful_new(
    stateful_simulation_request: StatefulSimulationRequest,
    engine: Option<Evm>,
    state: &mut SharedSimulationState,
) -> (r: Result<StatefulSimulationResponse, SimulationError>)
    ensures
        match engine {
            None => r == Err::<StatefulSimulationResponse, SimulationError>(
                SimulationError::EvmCreate,
            ) && final(state).sessions() == old(state).sessions(),
            Some(evm) => r matches Ok(response) && final(state).sessions().dom() == old(
                state,
            ).sessions().dom().insert(response.stateful_simulation_id) && others_untouched(
                old(state).sessions(),
                final(state).sessions(),
                response.stateful_simulation_id,
            ) && final(state).sessions()[response.stateful_simulation_id]@ == (
            match stateful_simulation_request.block_timestamp {
                Some(t) => EvmView { block_timestamp: t, ..evm@ },
                None => evm@,
            }),
        },
{
    match engine {
        None => Err(SimulationError::EvmCreate),
        Some(evm) => {
            let mut evm = evm;
            if let Some(t) = stateful_simulation_request.block_timestamp {
                let _ = evm.set_block_timestamp(t);
            }
            let id = state.create(evm);
            Ok(StatefulSimulationResponse { stateful_simulation_id: id })
        },
    }
}

/// Ends the session under `param`.
///
/// Fails with `StateNotFound`, changing nothing, exactly when no session
/// is registered under `param`. Otherwise the session is gone, every other
/// one is as before, and the answer reports success.
pub fn simulate_stateful_end(param: u128, state: &mut SharedSimulationState) -> (r: Result<
    StatefulSimulationEndResponse,
    SimulationError,
>)
    ensures
        old(state).sessions().dom().contains(param) ==> r == Ok::<
            StatefulSimulationEndResponse,
            SimulationError,
        >(StatefulSimulationEndResponse { success: true }) && final(state).sessions() == old(
            state,
        ).sessions().remove(param),
        !old(state).sessions().dom().contains(param) ==> r == Err::<
            StatefulSimulationEndResponse,
            SimulationError,
        >(SimulationError::StateNotFound) && final(state).sessions() == old(state).sessions(),
{
    match state.destroy(param) {
        Ok(_) => Ok(StatefulSimulationEndResponse { success: true }),
        Err(e) => Err(e),
    }
}

/// Starts the committing run of a list of requests against the session
/// under `param`. The table stays as it is.
///
/// Fails with `StateNotFound` exactly when no session is registered under
/// `param`. A list that fails validation against the session's chain id
/// gives a run that has failed already.
pub fn simulate_stateful(
    param: u128,
    transactions: Vec<SimulationRequest>,
    state: &mut SharedSimulationState,
    block_time: Word,
) -> (r: Result<BundleRun, SimulationError>)
    requires
        transactions.len() > 0,
    ensures
        final(state).sessions() == old(state).sessions(),
        !old(state).sessions().dom().contains(param) ==> r == Err::<BundleRun, SimulationError>(
            SimulationError::StateNotFound,
        ),
        old(state).sessions().dom().contains(param) ==> (r matches Ok(run) && {
            &&& run.wf()
            &&& run.transactions == transactions
            &&& run.commit
            &&& run.block_time == block_time
            &&& run.next == 0
            &&& run.previous_block is None
            &&& !run.awaiting
            &&& run.failure == validation_failure(
                old(state).sessions()[param]@.chain_id,
                transactions@,
            )
        }),
{
    match state.acquire(param) {
        Err(e) => Err(e),
        Ok(evm) => {
            let run = BundleRun::begin(evm.get_chain_id(), transactions, true, block_time);
            state.register(param, evm);
            assert(state.sessions() =~= old(state).sessions());
            Ok(run)
        },
    }
}

/// `prepare` on the session under `param`, held exclusively for the step.
///
/// Where no session is registered under `param` the run fails with
/// `StateNotFound`. No other session is read or changed.
pub fn simulate_stateful_prepare(
    param: u128,
    state: &mut SharedSimulationState,
    run: &mut BundleRun,
) -> (action: BundleAction)
    requires
        old(run).wf(),
    ensures
        final(run).wf(),
        others_untouched(old(state).sessions(), final(state).sessions(), param),
        final(state).sessions().dom() == old(state).sessions().dom(),
        old(state).sessions().dom().contains(param) ==> BundleRun::prepare_step(
            *old(run),
            old(state).sessions()[param]@,
            *final(run),
            final(state).sessions()[param]@,
            action,
        ),
        !old(state).sessions().dom().contains(param) ==> action == BundleAction::Abort(
            SimulationError::StateNotFound,
        ) && final(run).failure == Some(SimulationError::StateNotFound) && !final(run).awaiting
            && final(run).responses.len() == 0 && final(run).same_plan(*old(run)),
{
    match state.acquire(param) {
        Err(e) => {
            run.fail(e);
            BundleAction::Abort(e)
        },
        Ok(evm) => {
            let mut evm = evm;
            let action = run.prepare(&mut evm);
            state.register(param, evm);
            assert(final(state).sessions().dom() =~= old(state).sessions().dom());
            action
        },
    }
}

/// `complete` on the session under `param`, held exclusively for the step.
///
/// Where no session is registered under `param` the run fails with
/// `StateNotFound`. No other session is read or changed.
pub fn simulate_stateful_complete(
    param: u128,
    state: &mut SharedSimulationState,
    run: &mut BundleRun,
    reply: EngineReply,
)
    requires
        old(run).wf(),
    ensures
        final(run).wf(),
        others_untouched(old(state).sessions(), final(state).sessions(), param),
        final(state).sessions().dom() == old(state).sessions().dom(),
        old(state).sessions().dom().contains(param) ==> BundleRun::complete_step(
            *old(run),
            old(state).sessions()[param]@,
            *final(run),
            final(state).sessions()[param]@,
            reply,
        ),
        !old(state).sessions().dom().contains(param) ==> final(run).failure == Some(
            SimulationError::StateNotFound,
        ) && !final(run).awaiting && final(run).responses.len() == 0 && final(run).same_plan(
            *old(run),
        ),
{
    match state.acquire(param) {
        Err(e) => {
            run.fail(e);
        },
        Ok(evm) => {
            let mut evm = evm;
            run.complete(&mut evm, reply);
            state.register(param, evm);
            assert(final(state).sessions().dom() =~= old(state).sessions().dom());
        },
    }
}

/// A run on one session leaves every other session as it was: what holds
/// of the table after a step on `id` holds of each other identifier
/// unchanged.
pub proof fn lemma_sessions_are_isolated(
    before: Map<u128, Evm>,
    after: Map<u128, Evm>,
    id: u128,
    other: u128,
)
    requires
        others_untouched(before, after, id),
        other != id,
    ensures
        after.dom().contains(other) <==> before.dom().contains(other),
        before.dom().contains(other) ==> after[other] == before[other],
{
}

/// In a run that passed validation against the engine, a request that
/// names a block below the engine's current block ends the run with
/// `InvalidBlockNumbers`: the engine is not touched and the request is not
/// handed to it.
pub proof fn lemma_lower_block_aborts_run(
    before: BundleRun,
    evm_before: EvmView,
    after: BundleRun,
    evm_after: EvmView,
    action: BundleAction,
    block: u64,
)
    requires
        before.wf(),
        before.failure is None,
        !before.awaiting,
        before.next < before.transactions.len(),
        validation_failure(evm_before.chain_id, before.transactions@) is None,
        before.transactions[before.next as int].block_number == Some(block),
        block < evm_before.block_number,
        BundleRun::prepare_step(before, evm_before, after, evm_after, action),
    ensures
        action == BundleAction::Abort(SimulationError::InvalidBlockNumbers),
        after.failure == Some(SimulationError::InvalidBlockNumbers),
        after.next == before.next,
        !after.awaiting,
        evm_after == evm_before,
{
    assert(chain_ids_agree(before.transactions@));
    assert(before.transactions@[before.next as int].chain_id == before.transactions@[0].chain_id);
}

/// A run that has failed runs nothing more: `prepare` answers with the
/// failure, `complete` takes no reply in, and neither touches the engine
/// or the run.
pub proof fn lemma_failed_run_executes_nothing(
    before: BundleRun,
    evm_before: EvmView,
    after: BundleRun,
    evm_after: EvmView,
    action: BundleAction,
    reply: EngineReply,
)
    requires
        before.wf(),
        before.failure is Some,
    ensures
        BundleRun::prepare_step(before, evm_before, after, evm_after, action) ==> action
            == BundleAction::Abort(before.failure->Some_0) && after == before && evm_after
            == evm_before,
        BundleRun::complete_step(before, evm_before, after, evm_after, reply) ==> after == before
            && evm_after == evm_before,
{
}

/// A list of requests that names two chain ids fails validation with
/// `MultipleChainIds`, whatever the engine's chain id, and the run begun
/// on it answers its first `prepare` with that failure, the engine
/// untouched: none of its requests runs.
pub proof fn lemma_mixed_chain_ids_fail_first(
    chain_id: u64,
    before: BundleRun,
    evm_before: EvmView,
    after: BundleRun,
    evm_after: EvmView,
    action: BundleAction,
    i: int,
    j: int,
)
    requires
        0 <= i < before.transactions.len(),
        0 <= j < before.transactions.len(),
        before.transactions[i].chain_id != before.transactions[j].chain_id,
        before.failure == validation_failure(chain_id, before.transactions@),
        BundleRun::prepare_step(before, evm_before, after, evm_after, action),
    ensures
        validation_failure(chain_id, before.transactions@) == Some(
            SimulationError::MultipleChainIds,
        ),
        action == BundleAction::Abort(SimulationError::MultipleChainIds),
        evm_after == evm_before,
{
    assert(before.transactions@[i].chain_id != before.transactions@[0].chain_id
        || before.transactions@[j].chain_id != before.transactions@[0].chain_id);
}

/// The overrides of a request leave alone every account whose address
/// they do not name.
pub proof fn lemma_overrides_keep_other_accounts(
    accounts: Map<Address, AccountView>,
    ovs: Seq<AddressOverride>,
    address: Address,
)
    requires
        forall|k: int| 0 <= k < ovs.len() ==> (#[trigger] ovs[k]).address != address,
    ensures
        accounts_after(accounts, ovs).dom().contains(address) <==> accounts.dom().contains(
            address,
        ),
        accounts.dom().contains(address) ==> accounts_after(accounts, ovs)[address]
            == accounts[address],
    decreases ovs.len(),
{
    if ovs.len() > 0 {
        assert forall|k: int| 0 <= k < ovs.drop_last().len() implies (#[trigger] ovs.drop_last()[k]).address
            != address by {
            assert(ovs.drop_last()[k] == ovs[k]);
        }
        lemma_overrides_keep_other_accounts(accounts, ovs.drop_last(), address);
        assert(ovs.last() == ovs[ovs.len() - 1]);
    }
}

/// Within a run, what one request leaves at an address is what the next
/// request finds there: taking in the reply and readying the next request
/// keep the account at every address that the next request's overrides do
/// not name.
pub proof fn lemma_state_carries_to_next_request(
    run0: BundleRun,
    evm0: EvmView,
    reply: EngineReply,
    run1: BundleRun,
    evm1: EvmView,
    run2: BundleRun,
    evm2: EvmView,
    action: BundleAction,
    address: Address,
)
    requires
        run0.wf(),
        run1.wf(),
        run0.awaiting,
        BundleRun::complete_step(run0, evm0, run1, evm1, reply),
        BundleRun::prepare_step(run1, evm1, run2, evm2, action),
        action is Execute,
        forall|k: int|
            0 <= k < overrides_of(run1.transactions[run1.next as int]).len() ==> (
            #[trigger] overrides_of(run1.transactions[run1.next as int])[k]).address != address,
    ensures
        evm2.accounts.dom().contains(address) <==> evm0.accounts.dom().contains(address),
        evm0.accounts.dom().contains(address) ==> evm2.accounts[address] == evm0.accounts[address],
{
    assert(evm1.accounts == evm0.accounts);
    let tx = run1.transactions[run1.next as int];
    assert(run1.failure is None);
    assert(!run1.awaiting);
    assert(run1.next < run1.transactions.len());
    let mid = choose|mid: EvmView| #[trigger]
        block_advanced(evm1, mid, tx.block_number, run1.block_time) && overrides_applied(
            mid,
            evm2,
            overrides_of(tx),
            action_result(action),
        );
    lemma_overrides_keep_other_accounts(mid.accounts, overrides_of(tx), address);
}

/// No step of a run changes the engine's chain id or lowers its block
/// number.
pub proof fn lemma_steps_keep_chain_and_block_order(
    before: BundleRun,
    evm_before: EvmView,
    after: BundleRun,
    evm_after: EvmView,
    action: BundleAction,
    reply: EngineReply,
)
    requires
        before.wf(),
    ensures
        BundleRun::prepare_step(before, evm_before, after, evm_after, action) ==> evm_after.chain_id
            == evm_before.chain_id && evm_after.block_number >= evm_before.block_number,
        BundleRun::complete_step(before, evm_before, after, evm_after, reply) ==> evm_after.chain_id
            == evm_before.chain_id && evm_after.block_number == evm_before.block_number
            && evm_after.block_timestamp == evm_before.block_timestamp && evm_after.accounts
            == evm_before.accounts,
{
}

} // verus!
