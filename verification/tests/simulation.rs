use simulatoor::errors::SimulationError;
use simulatoor::evm::{
    AccessListItem, CallKind, CallTrace, EngineReply, Evm, ExecutionOutcome, Log, StorageOverride,
    StorageSlot, TraceRendering,
};
use simulatoor::primitives::{default_block_time, Address, Word, DEFAULT_BLOCK_TIME};
use simulatoor::registry::SharedSimulationState;
use simulatoor::simulation::{
    advance_block, apply_overrides, call_request, prepare_element, run, simulate, simulate_bundle,
    simulate_stateful, simulate_stateful_complete, simulate_stateful_end, simulate_stateful_new,
    simulate_stateful_prepare, validate_bundle, AddressOverride, BundleAction, BundleRun,
    SimulationRequest, State, StateOverride, StatefulSimulationEndResponse,
    StatefulSimulationRequest,
};

fn word(x: u64) -> Word {
    Word::from_u64(x)
}

fn addr(x: u128) -> Address {
    Address { hi: 0, lo: x }
}

fn slot(key: u64, value: u64) -> StorageSlot {
    StorageSlot { key: word(key), value: word(value) }
}

fn request(chain_id: u64, block_number: Option<u64>) -> SimulationRequest {
    SimulationRequest {
        chain_id,
        from: addr(1),
        to: addr(2),
        data: None,
        gas_limit: 30_000,
        value: None,
        access_list: None,
        block_number,
        block_timestamp: None,
        state_overrides: None,
        format_trace: None,
    }
}

fn outcome(gas_used: u64, reverted: bool) -> ExecutionOutcome {
    ExecutionOutcome {
        gas_used,
        reverted,
        exit_reason: 3,
        return_data: vec![0xaa, 0xbb],
        logs: vec![Log { address: addr(2), topics: vec![word(7)], data: vec![1, 2, 3] }],
        trace: None,
        rendering: TraceRendering::NotProduced,
    }
}

fn engine_at(chain_id: u64, block: u64, timestamp: u64) -> Evm {
    Evm::new(chain_id, block, word(timestamp), 1_000_000)
}

#[test]
fn new_engine_has_given_state_and_no_accounts() {
    let evm = engine_at(1, 100, 5000);
    assert_eq!(evm.get_chain_id(), 1);
    assert_eq!(evm.get_block(), 100);
    assert_eq!(evm.get_block_timestamp(), word(5000));
    assert_eq!(evm.gas_limit, 1_000_000);
    let account = evm.read_account(addr(0xabc));
    assert_eq!(account.balance, Word::zero());
    assert_eq!(account.nonce, 0);
    assert_eq!(account.code, None);
    assert!(account.storage.is_empty());
}

#[test]
fn setters_change_only_their_attribute() {
    let mut evm = engine_at(1, 100, 5000);
    assert_eq!(evm.set_block(120), Ok(()));
    assert_eq!(evm.get_block(), 120);
    assert_eq!(evm.get_block_timestamp(), word(5000));
    assert_eq!(evm.set_block_timestamp(word(6000)), Ok(()));
    assert_eq!(evm.get_block(), 120);
    assert_eq!(evm.get_block_timestamp(), word(6000));
    assert_eq!(evm.get_chain_id(), 1);
}

#[test]
fn wrapping_add_carries_between_limbs() {
    let a = Word { w0: u64::MAX, w1: 0, w2: 0, w3: 0 };
    assert_eq!(a.wrapping_add(word(1)), Word { w0: 0, w1: 1, w2: 0, w3: 0 });
    assert_eq!(word(40).wrapping_add(word(2)), word(42));
}

#[test]
fn wrapping_add_wraps_at_the_top() {
    let max = Word { w0: u64::MAX, w1: u64::MAX, w2: u64::MAX, w3: u64::MAX };
    assert_eq!(max.wrapping_add(word(1)), Word::zero());
    assert_eq!(max.wrapping_add(word(12)), word(11));
}

#[test]
fn full_override_replaces_storage() {
    let mut evm = engine_at(1, 100, 0);
    let x = addr(0x10);
    let first = StorageOverride { slots: vec![slot(1, 11), slot(2, 22)], diff: false };
    assert_eq!(evm.override_account(x, None, None, None, Some(first)), Ok(()));
    let full = StorageOverride { slots: vec![slot(3, 33)], diff: false };
    assert_eq!(evm.override_account(x, None, None, None, Some(full)), Ok(()));
    let account = evm.read_account(x);
    assert_eq!(account.storage_at(word(3)), Some(word(33)));
    assert_eq!(account.storage_at(word(1)), None);
    assert_eq!(account.storage_at(word(2)), None);
}

#[test]
fn diff_override_patches_storage() {
    let mut evm = engine_at(1, 100, 0);
    let x = addr(0x10);
    let first = StorageOverride { slots: vec![slot(1, 11), slot(2, 22)], diff: false };
    assert_eq!(evm.override_account(x, None, None, None, Some(first)), Ok(()));
    let patch = StorageOverride { slots: vec![slot(2, 99), slot(4, 44)], diff: true };
    assert_eq!(evm.override_account(x, None, None, None, Some(patch)), Ok(()));
    let account = evm.read_account(x);
    assert_eq!(account.storage_at(word(1)), Some(word(11)));
    assert_eq!(account.storage_at(word(2)), Some(word(99)));
    assert_eq!(account.storage_at(word(4)), Some(word(44)));
    assert_eq!(account.storage_at(word(5)), None);
}

#[test]
fn absent_override_fields_keep_the_account() {
    let mut evm = engine_at(1, 100, 0);
    let x = addr(0x10);
    assert_eq!(
        evm.override_account(x, Some(word(9)), Some(4), Some(vec![0x60, 0x00]), None),
        Ok(())
    );
    assert_eq!(evm.override_account(x, None, Some(5), None, None), Ok(()));
    let account = evm.read_account(x);
    assert_eq!(account.balance, word(9));
    assert_eq!(account.nonce, 5);
    assert_eq!(account.code, Some(vec![0x60, 0x00]));
    let other = evm.read_account(addr(0x11));
    assert_eq!(other.balance, Word::zero());
}

#[test]
fn malformed_code_is_rejected_and_changes_nothing() {
    let mut evm = engine_at(1, 100, 0);
    let x = addr(0x10);
    let r = evm.override_account(x, Some(word(9)), None, Some(vec![0xef, 0x00, 0x01]), None);
    assert_eq!(r, Err(SimulationError::Override));
    assert!(evm.accounts.is_empty());
    assert_eq!(evm.read_account(x).balance, Word::zero());
}

#[test]
fn legacy_code_is_accepted() {
    let mut evm = engine_at(1, 100, 0);
    let r = evm.override_account(addr(1), None, None, Some(vec![0x60, 0x01, 0x00]), None);
    assert_eq!(r, Ok(()));
    assert_eq!(evm.read_account(addr(1)).code, Some(vec![0x60, 0x01, 0x00]));
}

#[test]
fn commit_override_goes_by_the_given_verdict() {
    let mut evm = engine_at(1, 100, 0);
    let r = evm.commit_override(addr(1), Some(word(3)), None, Some(vec![1]), false, None);
    assert_eq!(r, Err(SimulationError::Override));
    assert!(evm.accounts.is_empty());
    let r = evm.commit_override(addr(1), Some(word(3)), None, Some(vec![1]), true, None);
    assert_eq!(r, Ok(()));
    assert_eq!(evm.read_account(addr(1)).balance, word(3));
    let r = evm.commit_override(addr(2), Some(word(4)), None, None, false, None);
    assert_eq!(r, Ok(()));
    assert_eq!(evm.read_account(addr(2)).balance, word(4));
}

#[test]
fn storage_override_from_state_keeps_slots_and_mode() {
    let full = StorageOverride::from(State::Full { state: vec![slot(1, 2)] });
    assert_eq!(full, StorageOverride { slots: vec![slot(1, 2)], diff: false });
    let diff = StorageOverride::from(State::Diff { state_diff: vec![slot(3, 4)] });
    assert_eq!(diff, StorageOverride { slots: vec![slot(3, 4)], diff: true });
}

#[test]
fn override_sets_balance_and_patches_slot() {
    let mut evm = engine_at(1, 100, 0);
    let x = addr(0xabc);
    let overrides = vec![AddressOverride {
        address: x,
        state_override: StateOverride {
            balance: Some(word(5)),
            nonce: None,
            code: None,
            state: Some(State::Diff { state_diff: vec![slot(0x1, 0x2)] }),
        },
    }];
    assert_eq!(apply_overrides(&mut evm, &overrides), Ok(()));
    let account = evm.read_account(x);
    assert_eq!(account.storage_at(word(0x1)), Some(word(0x2)));
    assert_eq!(account.balance, word(5));
}

#[test]
fn overrides_stop_at_the_first_rejected_one() {
    let mut evm = engine_at(1, 100, 0);
    let good = |a: u128, b: u64| AddressOverride {
        address: addr(a),
        state_override: StateOverride { balance: Some(word(b)), nonce: None, code: None, state: None },
    };
    let bad = AddressOverride {
        address: addr(2),
        state_override: StateOverride {
            balance: Some(word(8)),
            nonce: None,
            code: Some(vec![0xef, 0x00]),
            state: None,
        },
    };
    let overrides = vec![good(1, 7), bad, good(3, 9)];
    assert_eq!(apply_overrides(&mut evm, &overrides), Err(SimulationError::Override));
    assert_eq!(evm.read_account(addr(1)).balance, word(7));
    assert_eq!(evm.read_account(addr(2)).balance, Word::zero());
    assert_eq!(evm.read_account(addr(3)).balance, Word::zero());
}

#[test]
fn validation_reports_mixed_before_mismatched_chain() {
    let mixed = vec![request(1, None), request(2, None)];
    assert_eq!(validate_bundle(1, &mixed), Some(SimulationError::MultipleChainIds));
    assert_eq!(validate_bundle(7, &mixed), Some(SimulationError::MultipleChainIds));
    let same = vec![request(1, None), request(1, None)];
    assert_eq!(validate_bundle(1, &same), None);
    assert_eq!(validate_bundle(5, &same), Some(SimulationError::IncorrectChainId));
}

#[test]
fn advance_in_place_when_block_absent_or_current() {
    let mut evm = engine_at(1, 100, 5000);
    assert_eq!(advance_block(&mut evm, None, None, word(12)), Ok(()));
    assert_eq!(evm.get_block(), 100);
    assert_eq!(evm.get_block_timestamp(), word(5000));
    assert_eq!(advance_block(&mut evm, Some(100), Some(100), word(12)), Ok(()));
    assert_eq!(evm.get_block(), 100);
    assert_eq!(evm.get_block_timestamp(), word(5000));
}

#[test]
fn advance_moves_block_and_timestamp() {
    let mut evm = engine_at(1, 100, 5000);
    assert_eq!(advance_block(&mut evm, Some(100), Some(105), word(12)), Ok(()));
    assert_eq!(evm.get_block(), 105);
    assert_eq!(evm.get_block_timestamp(), word(5012));
}

#[test]
fn advance_refuses_lower_or_not_increasing_block() {
    let mut evm = engine_at(1, 100, 5000);
    assert_eq!(
        advance_block(&mut evm, None, Some(99), word(12)),
        Err(SimulationError::InvalidBlockNumbers)
    );
    assert_eq!(
        advance_block(&mut evm, Some(101), Some(101), word(12)),
        Err(SimulationError::InvalidBlockNumbers)
    );
    assert_eq!(evm.get_block(), 100);
    assert_eq!(evm.get_block_timestamp(), word(5000));
}

#[test]
fn prepare_element_checks_chain_ids_first() {
    let mut evm = engine_at(1, 100, 5000);
    let tx = request(2, Some(50));
    assert_eq!(
        prepare_element(&mut evm, 1, None, &tx, word(12)),
        Err(SimulationError::MultipleChainIds)
    );
    assert_eq!(
        prepare_element(&mut evm, 2, None, &tx, word(12)),
        Err(SimulationError::IncorrectChainId)
    );
    let tx = request(1, Some(50));
    assert_eq!(
        prepare_element(&mut evm, 1, None, &tx, word(12)),
        Err(SimulationError::InvalidBlockNumbers)
    );
    assert_eq!(evm.get_block(), 100);
}

#[test]
fn call_request_carries_the_request() {
    let mut tx = request(1, None);
    tx.data = Some(vec![1, 2, 3]);
    tx.value = Some(word(10));
    tx.format_trace = Some(true);
    tx.access_list = Some(vec![AccessListItem { address: addr(9), storage_keys: vec![word(1)] }]);
    let call = call_request(&tx);
    assert_eq!(call.from, addr(1));
    assert_eq!(call.to, addr(2));
    assert_eq!(call.value, Some(word(10)));
    assert_eq!(call.data, Some(vec![1, 2, 3]));
    assert!(call.format_trace);
    let list = call.access_list.unwrap();
    assert_eq!(list.len(), 1);
    assert_eq!(list[0].address, addr(9));
    assert_eq!(list[0].storage_keys, vec![word(1)]);
    assert!(!call_request(&request(1, None)).format_trace);
}

#[test]
fn run_reports_a_revert_as_a_response() {
    let mut evm = engine_at(1, 100, 5000);
    let tx = request(1, None);
    let response = run(&mut evm, &tx, false, EngineReply::Completed(outcome(21_000, true))).unwrap();
    assert_eq!(response.simulation_id, 1);
    assert_eq!(response.gas_used, 21_000);
    assert_eq!(response.block_number, 100);
    assert!(!response.success);
    assert_eq!(response.exit_reason, 3);
    assert_eq!(response.return_data, vec![0xaa, 0xbb]);
    assert_eq!(response.logs.len(), 1);
    assert_eq!(response.logs[0].topics, vec![word(7)]);
    assert!(response.trace.is_empty());
    assert_eq!(response.formatted_trace, None);
    assert_eq!(evm.gas_limit, 1_000_000);
}

#[test]
fn run_committing_takes_the_request_gas_limit() {
    let mut evm = engine_at(1, 100, 5000);
    let tx = request(1, None);
    let response = run(&mut evm, &tx, true, EngineReply::Completed(outcome(21_000, false))).unwrap();
    assert!(response.success);
    assert_eq!(evm.gas_limit, 30_000);
}

#[test]
fn run_engine_failure_is_an_error() {
    let mut evm = engine_at(1, 100, 5000);
    let tx = request(1, None);
    assert_eq!(run(&mut evm, &tx, true, EngineReply::Failed), Err(SimulationError::Evm));
}

#[test]
fn run_formats_trace_only_when_asked() {
    let mut evm = engine_at(1, 100, 5000);
    let mut tx = request(1, None);
    let mut rendered = outcome(1, false);
    rendered.rendering = TraceRendering::Rendered(String::from("CALL 0x2"));
    rendered.trace = Some(vec![CallTrace {
        call_type: CallKind::Call,
        from: addr(1),
        to: addr(2),
        value: word(0),
    }]);
    let quiet = run(&mut evm, &tx, false, EngineReply::Completed(rendered.clone())).unwrap();
    assert_eq!(quiet.formatted_trace, None);
    assert_eq!(quiet.trace.len(), 1);
    tx.format_trace = Some(true);
    let loud = run(&mut evm, &tx, false, EngineReply::Completed(rendered)).unwrap();
    assert_eq!(loud.formatted_trace, Some(String::from("CALL 0x2")));
    let empty = run(&mut evm, &tx, false, EngineReply::Completed(outcome(1, true))).unwrap();
    assert_eq!(empty.formatted_trace, Some(String::new()));
    assert!(!empty.success);
}

#[test]
fn run_rendering_failure_is_a_serialization_error() {
    let mut evm = engine_at(1, 100, 5000);
    let mut tx = request(1, None);
    let mut failed = outcome(1, false);
    failed.rendering = TraceRendering::Failed;
    assert!(run(&mut evm, &tx, false, EngineReply::Completed(failed.clone())).is_ok());
    tx.format_trace = Some(true);
    assert_eq!(
        run(&mut evm, &tx, false, EngineReply::Completed(failed)),
        Err(SimulationError::Serialization)
    );
}

#[test]
fn simulate_checks_chain_and_sets_timestamp() {
    let mut evm = engine_at(1, 100, 5000);
    let mut tx = request(1, Some(100));
    tx.block_timestamp = Some(word(7777));
    let mut single = simulate(&mut evm, tx, word(12));
    assert_eq!(single.failure, None);
    assert!(!single.commit);
    assert_eq!(evm.get_block_timestamp(), word(7777));
    assert_eq!(single.prepare(&mut evm), BundleAction::Execute(0));
    single.complete(&mut evm, EngineReply::Completed(outcome(5, false)));
    assert_eq!(single.prepare(&mut evm), BundleAction::Finish);
    assert_eq!(single.responses.len(), 1);
    assert_eq!(evm.gas_limit, 1_000_000);

    let mut other = engine_at(5, 100, 5000);
    let mut tx = request(1, Some(100));
    tx.block_timestamp = Some(word(7777));
    let mut wrong = simulate(&mut other, tx, word(12));
    assert_eq!(wrong.failure, Some(SimulationError::IncorrectChainId));
    assert_eq!(other.get_block_timestamp(), word(5000));
    assert_eq!(wrong.prepare(&mut other), BundleAction::Abort(SimulationError::IncorrectChainId));
}

#[test]
fn bundle_runs_in_order_and_gathers_responses() {
    let mut evm = engine_at(1, 100, 5000);
    let txs = vec![request(1, Some(100)), request(1, Some(101)), request(1, Some(103))];
    let mut bundle = simulate_bundle(&mut evm, txs, word(12));
    assert!(bundle.commit);
    let mut blocks = Vec::new();
    let mut gas: u64 = 10;
    loop {
        match bundle.prepare(&mut evm) {
            BundleAction::Execute(i) => {
                assert_eq!(i, blocks.len());
                blocks.push(evm.get_block());
                bundle.complete(&mut evm, EngineReply::Completed(outcome(gas, false)));
                gas += 1;
            }
            BundleAction::Finish => break,
            BundleAction::Abort(e) => panic!("{}", e.message()),
        }
    }
    assert_eq!(blocks, vec![100, 101, 103]);
    assert_eq!(evm.get_block_timestamp(), word(5024));
    let gas_used: Vec<u64> = bundle.responses.iter().map(|r| r.gas_used).collect();
    assert_eq!(gas_used, vec![10, 11, 12]);
    let at: Vec<u64> = bundle.responses.iter().map(|r| r.block_number).collect();
    assert_eq!(at, vec![100, 101, 103]);
}

#[test]
fn bundle_with_mixed_chain_ids_runs_nothing() {
    let mut evm = engine_at(1, 100, 5000);
    let mut first = request(1, None);
    first.block_timestamp = Some(word(1));
    let mut bundle = simulate_bundle(&mut evm, vec![first, request(2, None)], word(12));
    assert_eq!(bundle.failure, Some(SimulationError::MultipleChainIds));
    assert_eq!(bundle.prepare(&mut evm), BundleAction::Abort(SimulationError::MultipleChainIds));
    assert_eq!(bundle.next, 0);
    assert!(bundle.responses.is_empty());
    assert_eq!(evm.get_block_timestamp(), word(5000));
}

#[test]
fn bundle_with_lower_block_aborts_at_that_request() {
    let mut evm = engine_at(1, 100, 5000);
    let txs = vec![request(1, Some(100)), request(1, Some(99)), request(1, Some(100))];
    let mut bundle = simulate_bundle(&mut evm, txs, word(12));
    assert_eq!(bundle.prepare(&mut evm), BundleAction::Execute(0));
    bundle.complete(&mut evm, EngineReply::Completed(outcome(1, false)));
    assert_eq!(bundle.prepare(&mut evm), BundleAction::Abort(SimulationError::InvalidBlockNumbers));
    assert_eq!(bundle.prepare(&mut evm), BundleAction::Abort(SimulationError::InvalidBlockNumbers));
    bundle.complete(&mut evm, EngineReply::Completed(outcome(1, false)));
    assert_eq!(bundle.next, 1);
    assert!(bundle.responses.is_empty());
    assert_eq!(evm.get_block(), 100);
}

#[test]
fn bundle_engine_failure_discards_responses() {
    let mut evm = engine_at(1, 100, 5000);
    let txs = vec![request(1, None), request(1, None)];
    let mut bundle = simulate_bundle(&mut evm, txs, word(12));
    assert_eq!(bundle.prepare(&mut evm), BundleAction::Execute(0));
    assert_eq!(bundle.prepare(&mut evm), BundleAction::Execute(0));
    bundle.complete(&mut evm, EngineReply::Completed(outcome(1, false)));
    assert_eq!(bundle.responses.len(), 1);
    assert_eq!(bundle.prepare(&mut evm), BundleAction::Execute(1));
    bundle.complete(&mut evm, EngineReply::Failed);
    assert_eq!(bundle.failure, Some(SimulationError::Evm));
    assert!(bundle.responses.is_empty());
    assert_eq!(bundle.prepare(&mut evm), BundleAction::Abort(SimulationError::Evm));
}

#[test]
fn bundle_overrides_persist_to_later_requests() {
    let mut evm = engine_at(1, 100, 5000);
    let mut first = request(1, None);
    first.state_overrides = Some(vec![AddressOverride {
        address: addr(0x10),
        state_override: StateOverride {
            balance: None,
            nonce: None,
            code: None,
            state: Some(State::Full { state: vec![slot(1, 11)] }),
        },
    }]);
    let mut bundle = simulate_bundle(&mut evm, vec![first, request(1, None)], word(12));
    assert_eq!(bundle.prepare(&mut evm), BundleAction::Execute(0));
    bundle.complete(&mut evm, EngineReply::Completed(outcome(1, false)));
    assert_eq!(bundle.prepare(&mut evm), BundleAction::Execute(1));
    assert_eq!(evm.read_account(addr(0x10)).storage_at(word(1)), Some(word(11)));
}

#[test]
fn begin_on_valid_list_has_run_nothing() {
    let started = BundleRun::begin(1, vec![request(1, None)], true, word(12));
    assert_eq!(started.failure, None);
    assert_eq!(started.next, 0);
    assert_eq!(started.previous_block, None);
    assert!(!started.awaiting);
    assert!(started.responses.is_empty());
    assert_eq!(started.block_time, word(12));
}

#[test]
fn session_runs_two_requests_in_place() {
    let mut state = SharedSimulationState::new();
    let start = StatefulSimulationRequest {
        chain_id: 1,
        gas_limit: 1_000_000,
        block_number: Some(100),
        block_timestamp: None,
    };
    let id = simulate_stateful_new(start, Some(engine_at(1, 100, 5000)), &mut state)
        .unwrap()
        .stateful_simulation_id;
    let txs = vec![request(1, None), request(1, None)];
    let mut session_run = simulate_stateful(id, txs, &mut state, word(12)).unwrap();
    for i in 0..2usize {
        assert_eq!(
            simulate_stateful_prepare(id, &mut state, &mut session_run),
            BundleAction::Execute(i)
        );
        simulate_stateful_complete(
            id,
            &mut state,
            &mut session_run,
            EngineReply::Completed(outcome(1, false)),
        );
    }
    assert_eq!(simulate_stateful_prepare(id, &mut state, &mut session_run), BundleAction::Finish);
    assert_eq!(session_run.responses.len(), 2);
    assert_eq!(session_run.responses[0].block_number, 100);
    assert_eq!(session_run.responses[1].block_number, 100);
    let evm = state.acquire(id).unwrap();
    assert_eq!(evm.get_block(), 100);
    assert_eq!(evm.get_block_timestamp(), word(5000));
}

#[test]
fn session_advances_block_and_timestamp() {
    let mut state = SharedSimulationState::new();
    let start = StatefulSimulationRequest {
        chain_id: 1,
        gas_limit: 1_000_000,
        block_number: Some(100),
        block_timestamp: None,
    };
    let id = simulate_stateful_new(start, Some(engine_at(1, 100, 5000)), &mut state)
        .unwrap()
        .stateful_simulation_id;
    let mut session_run =
        simulate_stateful(id, vec![request(1, Some(101))], &mut state, word(12)).unwrap();
    assert_eq!(
        simulate_stateful_prepare(id, &mut state, &mut session_run),
        BundleAction::Execute(0)
    );
    simulate_stateful_complete(
        id,
        &mut state,
        &mut session_run,
        EngineReply::Completed(outcome(1, false)),
    );
    assert_eq!(session_run.responses[0].block_number, 101);
    let evm = state.acquire(id).unwrap();
    assert_eq!(evm.get_block(), 101);
    assert_eq!(evm.get_block_timestamp(), word(5012));
}

#[test]
fn session_start_takes_the_requested_timestamp() {
    let mut state = SharedSimulationState::new();
    let start = StatefulSimulationRequest {
        chain_id: 1,
        gas_limit: 1_000_000,
        block_number: None,
        block_timestamp: Some(word(42)),
    };
    let id = simulate_stateful_new(start, Some(engine_at(1, 100, 5000)), &mut state)
        .unwrap()
        .stateful_simulation_id;
    assert!(state.contains(id));
    assert_eq!(state.acquire(id).unwrap().get_block_timestamp(), word(42));
}

#[test]
fn session_start_without_engine_fails_and_registers_nothing() {
    let mut state = SharedSimulationState::new();
    state.register(7, engine_at(1, 100, 5000));
    let start = StatefulSimulationRequest {
        chain_id: 1,
        gas_limit: 1,
        block_number: None,
        block_timestamp: None,
    };
    assert_eq!(
        simulate_stateful_new(start, None, &mut state),
        Err(SimulationError::EvmCreate)
    );
    assert!(state.contains(7));
    assert_eq!(state.evms.len(), 1);
}

#[test]
fn ended_session_is_not_found_afterwards() {
    let mut state = SharedSimulationState::new();
    let id = state.create(engine_at(1, 100, 5000));
    assert_eq!(
        simulate_stateful_end(id, &mut state),
        Ok(StatefulSimulationEndResponse { success: true })
    );
    assert!(!state.contains(id));
    assert_eq!(simulate_stateful_end(id, &mut state), Err(SimulationError::StateNotFound));
    assert!(matches!(
        simulate_stateful(id, vec![request(1, None)], &mut state, word(12)),
        Err(SimulationError::StateNotFound)
    ));
    assert!(matches!(state.acquire(id), Err(SimulationError::StateNotFound)));
    assert_eq!(state.destroy(id), Err(SimulationError::StateNotFound));
}

#[test]
fn session_ended_during_a_run_aborts_the_run() {
    let mut state = SharedSimulationState::new();
    let id = state.create(engine_at(1, 100, 5000));
    let mut session_run =
        simulate_stateful(id, vec![request(1, None), request(1, None)], &mut state, word(12))
            .unwrap();
    assert_eq!(
        simulate_stateful_prepare(id, &mut state, &mut session_run),
        BundleAction::Execute(0)
    );
    assert_eq!(state.destroy(id), Ok(()));
    simulate_stateful_complete(
        id,
        &mut state,
        &mut session_run,
        EngineReply::Completed(outcome(1, false)),
    );
    assert_eq!(session_run.failure, Some(SimulationError::StateNotFound));
    assert_eq!(
        simulate_stateful_prepare(id, &mut state, &mut session_run),
        BundleAction::Abort(SimulationError::StateNotFound)
    );
    assert!(!state.contains(id));
}

#[test]
fn sessions_are_isolated() {
    let mut state = SharedSimulationState::new();
    state.register(1, engine_at(1, 100, 5000));
    state.register(2, engine_at(1, 200, 9000));
    let mut tx = request(1, Some(150));
    tx.state_overrides = Some(vec![AddressOverride {
        address: addr(0x10),
        state_override: StateOverride {
            balance: Some(word(5)),
            nonce: None,
            code: None,
            state: None,
        },
    }]);
    let mut session_run = simulate_stateful(1, vec![tx], &mut state, word(12)).unwrap();
    assert_eq!(
        simulate_stateful_prepare(1, &mut state, &mut session_run),
        BundleAction::Execute(0)
    );
    simulate_stateful_complete(
        1,
        &mut state,
        &mut session_run,
        EngineReply::Completed(outcome(1, false)),
    );
    let b = state.acquire(2).unwrap();
    assert_eq!(b.get_block(), 200);
    assert_eq!(b.get_block_timestamp(), word(9000));
    assert_eq!(b.gas_limit, 1_000_000);
    assert!(b.accounts.is_empty());
    let a = state.acquire(1).unwrap();
    assert_eq!(a.get_block(), 150);
    assert_eq!(a.read_account(addr(0x10)).balance, word(5));
    assert_eq!(a.gas_limit, 30_000);
}

#[test]
fn session_run_on_wrong_chain_fails_validation() {
    let mut state = SharedSimulationState::new();
    let id = state.create(engine_at(5, 100, 5000));
    let mut session_run =
        simulate_stateful(id, vec![request(1, None)], &mut state, word(12)).unwrap();
    assert_eq!(session_run.failure, Some(SimulationError::IncorrectChainId));
    assert_eq!(
        simulate_stateful_prepare(id, &mut state, &mut session_run),
        BundleAction::Abort(SimulationError::IncorrectChainId)
    );
}

#[test]
fn created_sessions_get_distinct_registered_ids() {
    let mut state = SharedSimulationState::new();
    let a = state.create(engine_at(1, 100, 0));
    let b = state.create(engine_at(1, 200, 0));
    assert_ne!(a, b);
    assert!(state.contains(a));
    assert!(state.contains(b));
    assert_eq!(state.acquire(b).unwrap().get_block(), 200);
    assert!(!state.contains(b));
    assert!(state.contains(a));
}

#[test]
fn write_account_replaces_the_account() {
    let mut evm = engine_at(1, 100, 0);
    let account = evm
        .read_account(addr(1))
        .with_override(Some(word(3)), Some(2), None, Some(StorageOverride {
            slots: vec![slot(1, 1), slot(1, 2)],
            diff: false,
        }));
    evm.write_account(addr(1), account);
    let read = evm.read_account(addr(1));
    assert_eq!(read.balance, word(3));
    assert_eq!(read.nonce, 2);
    assert_eq!(read.storage_at(word(1)), Some(word(2)));
    assert_eq!(evm.get_block(), 100);
}

#[test]
fn error_messages_are_distinct() {
    let all = [
        SimulationError::EvmCreate,
        SimulationError::IncorrectChainId,
        SimulationError::MultipleChainIds,
        SimulationError::NoBlockNumber,
        SimulationError::InvalidBlockNumbers,
        SimulationError::StateNotFound,
        SimulationError::Evm,
        SimulationError::Override,
        SimulationError::Serialization,
    ];
    for (i, a) in all.iter().enumerate() {
        assert!(!a.message().is_empty());
        for b in all.iter().skip(i + 1) {
            assert_ne!(a.message(), b.message());
        }
    }
}

#[test]
fn delegation_code_is_judged_by_its_length() {
    let mut evm = engine_at(1, 100, 0);
    let mut designator = vec![0xef, 0x01, 0x00];
    designator.extend_from_slice(&[0x11; 20]);
    assert_eq!(evm.override_account(addr(1), None, None, Some(designator.clone()), None), Ok(()));
    assert_eq!(evm.read_account(addr(1)).code, Some(designator));
    let short = vec![0xef, 0x01, 0x00, 0x01, 0x02];
    assert_eq!(
        evm.override_account(addr(2), None, None, Some(short), None),
        Err(SimulationError::Override)
    );
    assert_eq!(evm.read_account(addr(2)).code, None);
}

#[test]
fn truncated_container_code_is_rejected() {
    let mut evm = engine_at(1, 100, 0);
    let code = vec![
        0xef, 0x00, 0x01, 0x01, 0x00, 0x04, 0x02, 0x00, 0x01, 0x00, 0xff, 0x04, 0x00, 0x00, 0x00,
    ];
    assert_eq!(
        evm.override_account(addr(1), None, None, Some(code), None),
        Err(SimulationError::Override)
    );
    assert_eq!(evm.override_account(addr(1), None, None, Some(Vec::new()), None), Ok(()));
    assert_eq!(evm.read_account(addr(1)).code, Some(Vec::new()));
}

#[test]
fn default_block_time_is_twelve() {
    assert_eq!(DEFAULT_BLOCK_TIME, 12);
    assert_eq!(default_block_time(), word(12));
    let mut evm = engine_at(1, 100, 5000);
    assert_eq!(advance_block(&mut evm, None, Some(101), default_block_time()), Ok(()));
    assert_eq!(evm.get_block(), 101);
    assert_eq!(evm.get_block_timestamp(), word(5012));
}

#[test]
fn previous_request_block_bounds_the_next() {
    let mut evm = engine_at(1, 100, 5000);
    assert_eq!(
        advance_block(&mut evm, Some(150), Some(120), word(12)),
        Err(SimulationError::InvalidBlockNumbers)
    );
    assert_eq!(advance_block(&mut evm, Some(150), Some(151), word(12)), Ok(()));
    assert_eq!(evm.get_block(), 151);
    assert_eq!(advance_block(&mut evm, None, Some(151), word(12)), Ok(()));
    assert_eq!(evm.get_block_timestamp(), word(5012));
}
