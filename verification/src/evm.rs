//! The orchestrator's picture of one execution engine: its chain id, block,
//! timestamp and gas limit, and the accounts that overrides have written.

use crate::errors::SimulationError;
use crate::primitives::{Address, Word};
use vstd::prelude::*;

verus! {

/// One storage slot of an account.
#[derive(Clone, Copy, Debug, PartialEq, Eq, Structural)]
pub struct StorageSlot {
    pub key: Word,
    pub value: Word,
}

/// The storage that a list of slot writes leaves behind: a later write to a
/// key replaces an earlier one.
pub open spec fn storage_map(slots: Seq<StorageSlot>) -> Map<Word, Word>
    decreases slots.len(),
{
    if slots.len() == 0 {
        Map::empty()
    } else {
        storage_map(slots.drop_last()).insert(slots.last().key, slots.last().value)
    }
}

/// Writing `b` after `a` gives the storage of `a` with every key of `b` overwritten.
pub proof fn lemma_storage_map_concat(a: Seq<StorageSlot>, b: Seq<StorageSlot>)
    ensures
        storage_map(a + b) == storage_map(a).union_prefer_right(storage_map(b)),
    decreases b.len(),
{
    if b.len() == 0 {
        assert(a + b =~= a);
        assert(storage_map(a).union_prefer_right(storage_map(b)) =~= storage_map(a));
    } else {
        lemma_storage_map_concat(a, b.drop_last());
        assert((a + b).drop_last() =~= a + b.drop_last());
        assert((a + b).last() == b.last());
        assert(storage_map(a + b) =~= storage_map(a).union_prefer_right(storage_map(b)));
    }
}

/// A storage override: the slots to write, and whether they patch the
/// existing storage (`diff`) or replace it.
#[derive(Clone, Debug, PartialEq)]
pub struct StorageOverride {
    pub slots: Vec<StorageSlot>,
    pub diff: bool,
}

/// What a storage override says: the slots as a map, and the mode.
pub struct StorageOverrideView {
    pub slots: Map<Word, Word>,
    pub diff: bool,
}

impl View for StorageOverride {
    type V = StorageOverrideView;

    open spec fn view(&self) -> StorageOverrideView {
        StorageOverrideView { slots: storage_map(self.slots@), diff: self.diff }
    }
}

/// An account as the engine keeps it.
#[derive(Clone, Debug)]
pub struct Account {
    pub balance: Word,
    pub nonce: u64,
    pub code: Option<Vec<u8>>,
    pub storage: Vec<StorageSlot>,
}

/// An account's attributes, with its storage as a map.
pub struct AccountView {
    pub balance: Word,
    pub nonce: u64,
    pub code: Option<Seq<u8>>,
    pub storage: Map<Word, Word>,
}

impl View for Account {
    type V = AccountView;

    open spec fn view(&self) -> AccountView {
        AccountView {
            balance: self.balance,
            nonce: self.nonce,
            code: match self.code {
                Some(c) => Some(c@),
                None => None,
            },
            storage: storage_map(self.storage@),
        }
    }
}

/// The account that an address without an entry stands for.
pub open spec fn fresh_account() -> AccountView {
    AccountView {
        balance: Word { w0: 0, w1: 0, w2: 0, w3: 0 },
        nonce: 0,
        code: None,
        storage: Map::empty(),
    }
}

/// The result of an override on `base`: each attribute that the override
/// names replaces the one of `base`, the others stay. A replacing storage
/// override leaves exactly its slots; a patching one overwrites its keys.
pub open spec fn overridden(
    base: AccountView,
    balance: Option<Word>,
    nonce: Option<u64>,
    code: Option<Seq<u8>>,
    storage: Option<StorageOverrideView>,
) -> AccountView {
    AccountView {
        balance: match balance {
            Some(b) => b,
            None => base.balance,
        },
        nonce: match nonce {
            Some(n) => n,
            None => base.nonce,
        },
        code: match code {
            Some(c) => Some(c),
            None => base.code,
        },
        storage: match storage {
            Some(s) => if s.diff {
                base.storage.union_prefer_right(s.slots)
            } else {
                s.slots
            },
            None => base.storage,
        },
    }
}

impl Account {
    /// The account with an override applied: each attribute that the
    /// override names replaces the account's, the others stay.
    pub fn with_override(
        self,
        balance: Option<Word>,
        nonce: Option<u64>,
        code: Option<Vec<u8>>,
        storage: Option<StorageOverride>,
    ) -> (account: Account)
        ensures
            account@ == overridden(
                self@,
                balance,
                nonce,
                match code {
                    Some(c) => Some(c@),
                    None => None,
                },
                match storage {
                    Some(s) => Some(s@),
                    None => None,
                },
            ),
    {
        let mut account = self;
        if let Some(b) = balance {
            account.balance = b;
        }
        if let Some(n) = nonce {
            account.nonce = n;
        }
        if let Some(c) = code {
            account.code = Some(c);
        }
        if let Some(s) = storage {
            if s.diff {
                proof {
                    lemma_storage_map_concat(account.storage@, s.slots@);
                }
                append_slots(&mut account.storage, &s.slots);
            } else {
                account.storage = s.slots;
            }
        }
        account
    }

    /// The value that the account's storage holds under `key`, if any.
    pub fn storage_at(&self, key: Word) -> (value: Option<Word>)
        ensures
            value == (if self@.storage.dom().contains(key) {
                Some(self@.storage[key])
            } else {
                None
            }),
    {
        let mut i: usize = self.storage.len();
        assert(self.storage@.take(i as int) =~= self.storage@);
        while i > 0
            invariant
                i <= self.storage.len(),
                storage_map(self.storage@).dom().contains(key) <==> storage_map(
                    self.storage@.take(i as int),
                ).dom().contains(key),
                storage_map(self.storage@).dom().contains(key) ==> storage_map(self.storage@)[key]
                    == storage_map(self.storage@.take(i as int))[key],
            decreases i,
        {
            i -= 1;
            assert(self.storage@.take(i + 1).drop_last() =~= self.storage@.take(i as int));
            if self.storage[i].key == key {
                return Some(self.storage[i].value);
            }
        }
        None
    }
}

/// An account together with the address it lives at.
#[derive(Clone, Debug)]
pub struct AccountEntry {
    pub address: Address,
    pub account: Account,
}

/// The accounts that a list of account writes leaves behind: a later write
/// to an address replaces an earlier one.
pub open spec fn accounts_map(entries: Seq<AccountEntry>) -> Map<Address, AccountView>
    decreases entries.len(),
{
    if entries.len() == 0 {
        Map::empty()
    } else {
        accounts_map(entries.drop_last()).insert(entries.last().address, entries.last().account@)
    }
}

/// The account at `address`, or the fresh account where none was written.
pub open spec fn account_or_fresh(accounts: Map<Address, AccountView>, address: Address)
    -> AccountView {
    if accounts.dom().contains(address) {
        accounts[address]
    } else {
        fresh_account()
    }
}

/// After a replacing storage override at `address`, the storage read at
/// `address` is exactly the given slots: each given key holds its given
/// value and no slot from before is left.
pub proof fn lemma_full_override_replaces_storage(
    accounts: Map<Address, AccountView>,
    address: Address,
    balance: Option<Word>,
    nonce: Option<u64>,
    code: Option<Seq<u8>>,
    slots: Map<Word, Word>,
)
    ensures
        account_or_fresh(
            accounts.insert(
                address,
                overridden(
                    account_or_fresh(accounts, address),
                    balance,
                    nonce,
                    code,
                    Some(StorageOverrideView { slots, diff: false }),
                ),
            ),
            address,
        ).storage == slots,
{
}

/// After a patching storage override at `address`, the storage read at
/// `address` holds every given slot, keeps every slot from before whose
/// key is not given, and holds nothing else.
pub proof fn lemma_diff_override_patches_storage(
    accounts: Map<Address, AccountView>,
    address: Address,
    balance: Option<Word>,
    nonce: Option<u64>,
    code: Option<Seq<u8>>,
    slots: Map<Word, Word>,
    key: Word,
)
    ensures
        ({
            let before = account_or_fresh(accounts, address).storage;
            let after = account_or_fresh(
                accounts.insert(
                    address,
                    overridden(
                        account_or_fresh(accounts, address),
                        balance,
                        nonce,
                        code,
                        Some(StorageOverrideView { slots, diff: true }),
                    ),
                ),
                address,
            ).storage;
            &&& slots.dom().contains(key) ==> after.dom().contains(key) && after[key] == slots[key]
            &&& !slots.dom().contains(key) ==> (after.dom().contains(key) <==> before.dom().contains(
                key,
            ))
            &&& !slots.dom().contains(key) && before.dom().contains(key) ==> after[key]
                == before[key]
        }),
{
}

/// Whether the engine accepts `code` as account code. Stands for the
/// outcome of `revm_primitives::Bytecode::new_raw_checked` on these bytes.
pub uninterp spec fn bytecode_accepted(code: Seq<u8>) -> bool;

/// Calls `revm_primitives::Bytecode::new_raw_checked` on a copy of `code`
/// and reports whether it returned `Ok`.
///
/// Trusted: the outcome is a function of the bytes alone.
#[verifier::external_body]
pub(crate) fn bytecode_check(code: &Vec<u8>) -> (accepted: bool)
    ensures
        accepted == bytecode_accepted(code@),
{
    let bytes = revm_primitives::Bytes::copy_from_slice(code.as_slice());
    revm_primitives::Bytecode::new_raw_checked(bytes).is_ok()
}

/// An item of an access list: an address and the storage keys to warm.
#[derive(Clone, Debug)]
pub struct AccessListItem {
    pub address: Address,
    pub storage_keys: Vec<Word>,
}

/// What the engine is asked to execute.
#[derive(Clone, Debug)]
pub struct CallRawRequest {
    pub from: Address,
    pub to: Address,
    pub value: Option<Word>,
    pub data: Option<Vec<u8>>,
    pub access_list: Option<Vec<AccessListItem>>,
    pub format_trace: bool,
}

/// The kind of a call frame.
#[derive(Clone, Copy, Debug, PartialEq, Eq, Structural)]
pub enum CallKind {
    Call,
    StaticCall,
    CallCode,
    DelegateCall,
    AuthCall,
    Create,
    Create2,
    EOFCreate,
}

/// One decoded node of a call trace.
#[derive(Clone, Copy, Debug, PartialEq, Eq, Structural)]
pub struct CallTrace {
    pub call_type: CallKind,
    pub from: Address,
    pub to: Address,
    pub value: Word,
}

/// A log that a transaction emitted.
#[derive(Clone, Debug, PartialEq)]
pub struct Log {
    pub address: Address,
    pub topics: Vec<Word>,
    pub data: Vec<u8>,
}

/// What became of the call trace of an execution.
#[derive(Clone, Debug)]
pub enum TraceRendering {
    /// The engine produced no trace.
    NotProduced,
    /// The trace, rendered for a human reader.
    Rendered(String),
    /// The trace could not be rendered.
    Failed,
}

/// What the engine hands back for a transaction that ran to completion.
#[derive(Clone, Debug)]
pub struct ExecutionOutcome {
    pub gas_used: u64,
    pub reverted: bool,
    pub exit_reason: u8,
    pub return_data: Vec<u8>,
    pub logs: Vec<Log>,
    pub trace: Option<Vec<CallTrace>>,
    pub rendering: TraceRendering,
}

/// The engine's answer to one invocation.
#[derive(Clone, Debug)]
pub enum EngineReply {
    /// The engine could not execute the transaction.
    Failed,
    /// The transaction ran to completion, reverted or not.
    Completed(ExecutionOutcome),
}

/// The outcome of one invocation as the orchestrator reports it.
#[derive(Clone, Debug)]
pub struct CallRawResult {
    pub gas_used: u64,
    pub block_number: u64,
    pub success: bool,
    pub trace: Option<Vec<CallTrace>>,
    pub logs: Vec<Log>,
    pub exit_reason: u8,
    pub return_data: Vec<u8>,
    pub formatted_trace: Option<String>,
}

/// Whether `formatted` is the formatted trace owed for a rendering: none
/// unless formatting was asked for; then the rendered text, or the empty
/// text where the engine produced no trace.
pub open spec fn formatted_trace_is(
    formatted: Option<String>,
    format_trace: bool,
    rendering: TraceRendering,
) -> bool {
    if !format_trace {
        formatted is None
    } else {
        match rendering {
            TraceRendering::NotProduced => formatted matches Some(s) && s@.len() == 0,
            TraceRendering::Rendered(text) => formatted == Some(text),
            TraceRendering::Failed => false,
        }
    }
}

/// Whether `result` reports `reply`, received at block `block_number` for a
/// request with the given `format_trace` flag.
pub open spec fn reports_reply(
    result: Result<CallRawResult, SimulationError>,
    block_number: u64,
    format_trace: bool,
    reply: EngineReply,
) -> bool {
    match reply {
        EngineReply::Failed => result == Err::<CallRawResult, SimulationError>(
            SimulationError::Evm,
        ),
        EngineReply::Completed(outcome) => if format_trace && outcome.rendering
            is Failed {
            result == Err::<CallRawResult, SimulationError>(SimulationError::Serialization)
        } else {
            match result {
                Ok(res) => {
                    &&& res.gas_used == outcome.gas_used
                    &&& res.block_number == block_number
                    &&& res.success == !outcome.reverted
                    &&& res.trace == outcome.trace
                    &&& res.logs == outcome.logs
                    &&& res.exit_reason == outcome.exit_reason
                    &&& res.return_data == outcome.return_data
                    &&& formatted_trace_is(res.formatted_trace, format_trace, outcome.rendering)
                },
                Err(_) => false,
            }
        },
    }
}

/// The engine state that the orchestrator tracks.
#[derive(Clone, Debug)]
pub struct Evm {
    pub chain_id: u64,
    pub block_number: u64,
    pub block_timestamp: Word,
    pub gas_limit: u64,
    pub accounts: Vec<AccountEntry>,
}

/// An engine's state with its accounts as a map.
pub struct EvmView {
    pub chain_id: u64,
    pub block_number: u64,
    pub block_timestamp: Word,
    pub gas_limit: u64,
    pub accounts: Map<Address, AccountView>,
}

impl View for Evm {
    type V = EvmView;

    open spec fn view(&self) -> EvmView {
        EvmView {
            chain_id: self.chain_id,
            block_number: self.block_number,
            block_timestamp: self.block_timestamp,
            gas_limit: self.gas_limit,
            accounts: accounts_map(self.accounts@),
        }
    }
}

/// A copy of a list of plain values.
pub(crate) fn copy_vec<T: Copy>(items: &Vec<T>) -> (copy: Vec<T>)
    ensures
        copy@ == items@,
{
    let mut copy: Vec<T> = Vec::new();
    let mut i: usize = 0;
    while i < items.len()
        invariant
            i <= items.len(),
            copy@ == items@.take(i as int),
        decreases items.len() - i,
    {
        copy.push(items[i]);
        assert(items@.take(i + 1) =~= items@.take(i as int).push(items@[i as int]));
        i += 1;
    }
    assert(items@.take(i as int) =~= items@);
    copy
}

/// `extra` appended to `slots`.
fn append_slots(slots: &mut Vec<StorageSlot>, extra: &Vec<StorageSlot>)
    ensures
        final(slots)@ == old(slots)@ + extra@,
{
    let mut i: usize = 0;
    while i < extra.len()
        invariant
            i <= extra.len(),
            slots@ == old(slots)@ + extra@.take(i as int),
        decreases extra.len() - i,
    {
        slots.push(extra[i]);
        assert(old(slots)@ + extra@.take(i + 1) =~= (old(slots)@ + extra@.take(i as int)).push(
            extra@[i as int],
        ));
        i += 1;
    }
    assert(extra@.take(i as int) =~= extra@);
}

impl Evm {
    /// The state of an engine that was just built: the given chain id,
    /// block, timestamp and gas limit, and no account written yet.
    pub fn new(chain_id: u64, block_number: u64, block_timestamp: Word, gas_limit: u64) -> (evm:
        Evm)
        ensures
            evm@ == (EvmView {
                chain_id,
                block_number,
                block_timestamp,
                gas_limit,
                accounts: Map::empty(),
            }),
    {
        Evm { chain_id, block_number, block_timestamp, gas_limit, accounts: Vec::new() }
    }

    /// The chain id, fixed when the engine was built.
    pub fn get_chain_id(&self) -> (id: u64)
        ensures
            id == self@.chain_id,
    {
        self.chain_id
    }

    /// The current block number.
    pub fn get_block(&self) -> (number: u64)
        ensures
            number == self@.block_number,
    {
        self.block_number
    }

    /// The current block timestamp.
    pub fn get_block_timestamp(&self) -> (timestamp: Word)
        ensures
            timestamp == self@.block_timestamp,
    {
        self.block_timestamp
    }

    /// Sets the block number and nothing else. Always succeeds.
    pub fn set_block(&mut self, number: u64) -> (r: Result<(), SimulationError>)
        ensures
            r is Ok,
            final(self)@ == (EvmView { block_number: number, ..old(self)@ }),
    {
        self.block_number = number;
        Ok(())
    }

    /// Sets the block timestamp and nothing else. Always succeeds.
    pub fn set_block_timestamp(&mut self, timestamp: Word) -> (r: Result<(), SimulationError>)
        ensures
            r is Ok,
            final(self)@ == (EvmView { block_timestamp: timestamp, ..old(self)@ }),
    {
        self.block_timestamp = timestamp;
        Ok(())
    }

    /// The account at `address` as it stands, or the fresh account.
    pub fn read_account(&self, address: Address) -> (account: Account)
        ensures
            account@ == account_or_fresh(self@.accounts, address),
    {
        let mut i: usize = self.accounts.len();
        assert(self.accounts@.take(i as int) =~= self.accounts@);
        while i > 0
            invariant
                i <= self.accounts.len(),
                account_or_fresh(accounts_map(self.accounts@), address) == account_or_fresh(
                    accounts_map(self.accounts@.take(i as int)),
                    address,
                ),
            decreases i,
        {
            i -= 1;
            assert(self.accounts@.take(i + 1).drop_last() =~= self.accounts@.take(i as int));
            let entry = &self.accounts[i];
            if entry.address == address {
                let code = match &entry.account.code {
                    Some(c) => Some(copy_vec(c)),
                    None => None,
                };
                return Account {
                    balance: entry.account.balance,
                    nonce: entry.account.nonce,
                    code,
                    storage: copy_vec(&entry.account.storage),
                };
            }
        }
        Account { balance: Word::zero(), nonce: 0, code: None, storage: Vec::new() }
    }

    /// Keeps `account` as the account at `address`, in place of what was
    /// there. Nothing else changes.
    pub fn write_account(&mut self, address: Address, account: Account)
        ensures
            final(self)@ == (EvmView {
                accounts: old(self)@.accounts.insert(address, account@),
                ..old(self)@
            }),
    {
        self.accounts.push(AccountEntry { address, account });
        proof {
            assert(self.accounts@.drop_last() =~= old(self).accounts@);
        }
    }

    /// Applies an override whose code, if any, was already judged:
    /// `code_accepted` says whether the engine takes it.
    ///
    /// Rejected code fails with `Override` and changes nothing. Otherwise the
    /// account at `address` becomes the overridden one, every other account
    /// and the rest of the engine state stay.
    pub fn commit_override(
        &mut self,
        address: Address,
        balance: Option<Word>,
        nonce: Option<u64>,
        code: Option<Vec<u8>>,
        code_accepted: bool,
        storage: Option<StorageOverride>,
    ) -> (r: Result<(), SimulationError>)
        ensures
            code is Some && !code_accepted ==> r == Err::<(), SimulationError>(
                SimulationError::Override,
            ) && *final(self) == *old(self),
            !(code is Some && !code_accepted) ==> r is Ok && final(self)@ == (EvmView {
                accounts: old(self)@.accounts.insert(
                    address,
                    overridden(
                        account_or_fresh(old(self)@.accounts, address),
                        balance,
                        nonce,
                        match code {
                            Some(c) => Some(c@),
                            None => None,
                        },
                        match storage {
                            Some(s) => Some(s@),
                            None => None,
                        },
                    ),
                ),
                ..old(self)@
            }),
    {
        if code.is_some() && !code_accepted {
            return Err(SimulationError::Override);
        }
        let account = self.read_account(address).with_override(balance, nonce, code, storage);
        self.accounts.push(AccountEntry { address, account });
        proof {
            assert(self.accounts@.drop_last() =~= old(self).accounts@);
        }
        Ok(())
    }

    /// Applies an override to the account at `address` and keeps the result.
    ///
    /// Fails with `Override`, changing nothing, exactly when code is given
    /// that the engine does not accept. Otherwise the account at `address`
    /// becomes the overridden one: named attributes replaced, others kept.
    pub fn override_account(
        &mut self,
        address: Address,
        balance: Option<Word>,
        nonce: Option<u64>,
        code: Option<Vec<u8>>,
        storage: Option<StorageOverride>,
    ) -> (r: Result<(), SimulationError>)
        ensures
            code matches Some(c) && !bytecode_accepted(c@) ==> r == Err::<(), SimulationError>(
                SimulationError::Override,
            ) && *final(self) == *old(self),
            !(code matches Some(c) && !bytecode_accepted(c@)) ==> r is Ok && final(self)@ == (
            EvmView {
                accounts: old(self)@.accounts.insert(
                    address,
                    overridden(
                        account_or_fresh(old(self)@.accounts, address),
                        balance,
                        nonce,
                        match code {
                            Some(c) => Some(c@),
                            None => None,
                        },
                        match storage {
                            Some(s) => Some(s@),
                            None => None,
                        },
                    ),
                ),
                ..old(self)@
            }),
    {
        let accepted = match &code {
            Some(c) => bytecode_check(c),
            None => true,
        };
        self.commit_override(address, balance, nonce, code, accepted, storage)
    }

    /// Reports the engine's reply to a read-only invocation. The engine
    /// state is not touched.
    pub fn call_raw(&self, call: CallRawRequest, reply: EngineReply) -> (r: Result<
        CallRawResult,
        SimulationError,
    >)
        ensures
            reports_reply(r, self@.block_number, call.format_trace, reply),
    {
        report_reply(self.block_number, call.format_trace, reply)
    }

    /// Reports the engine's reply to a committing invocation made under
    /// `gas_limit`, which becomes the engine's gas limit. Nothing else of the
    /// tracked state changes.
    pub fn transact_raw(&mut self, call: CallRawRequest, gas_limit: u64, reply: EngineReply) -> (r:
        Result<CallRawResult, SimulationError>)
        ensures
            reports_reply(r, old(self)@.block_number, call.format_trace, reply),
            final(self)@ == (EvmView { gas_limit, ..old(self)@ }),
    {
        self.gas_limit = gas_limit;
        report_reply(self.block_number, call.format_trace, reply)
    }
}

/// Shapes the engine's reply into the reported result.
pub fn report_reply(block_number: u64, format_trace: bool, reply: EngineReply) -> (r: Result<
    CallRawResult,
    SimulationError,
>)
    ensures
        reports_reply(r, block_number, format_trace, reply),
{
    match reply {
        EngineReply::Failed => Err(SimulationError::Evm),
        EngineReply::Completed(outcome) => {
            let formatted_trace = if format_trace {
                match outcome.rendering {
                    TraceRendering::NotProduced => Some(String::new()),
                    TraceRendering::Rendered(text) => Some(text),
                    TraceRendering::Failed => {
                        return Err(SimulationError::Serialization);
                    },
                }
            } else {
                None
            };
            Ok(
                CallRawResult {
                    gas_used: outcome.gas_used,
                    block_number,
                    success: !outcome.reverted,
                    trace: outcome.trace,
                    logs: outcome.logs,
                    exit_reason: outcome.exit_reason,
                    return_data: outcome.return_data,
                    formatted_trace,
                },
            )
        },
    }
}

} // verus!
