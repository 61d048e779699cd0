use evm_adapters::backend::{BlockEnv, CheatcodeBackend, Cheatcodes, MemoryBackend};
use evm_adapters::cheatcode_handler::{cheatcode_address, CheatcodeHandler, Executor};
use evm_adapters::executor::{Context, StackExecutor, Transfer};
use evm_adapters::host::HostExt;
use evm_adapters::memory_stackstate_owned::{MemoryStackStateOwned, StackSubstateMetadata};
use evm_adapters::types::{Address, EvmError, FunctionAbi, Mutability, Status, W256};

fn addr(b0: u8) -> Address {
    let mut bytes = [0u8; 20];
    bytes[0] = b0;
    Address::new(bytes)
}

fn new_vicinity() -> BlockEnv {
    BlockEnv {
        gas_price: W256::zero(),
        origin: Address::zero(),
        chain_id: W256::from_u64(1),
        block_hashes: Vec::new(),
        block_number: W256::zero(),
        block_coinbase: Address::zero(),
        block_timestamp: W256::zero(),
        block_difficulty: W256::zero(),
        block_gas_limit: W256::zero(),
    }
}

fn new_executor(gas_limit: u64) -> Executor {
    let backend = MemoryBackend::new(new_vicinity());
    let backend = CheatcodeBackend { backend, cheats: Cheatcodes::default() };
    let metadata = StackSubstateMetadata::new(gas_limit);
    let state = MemoryStackStateOwned::new(metadata, backend);
    let executor = StackExecutor::new(state);
    let executor = CheatcodeHandler { handler: executor };
    Executor::new(executor, gas_limit)
}

fn plain_fn(name: &str) -> FunctionAbi {
    FunctionAbi::new(name.as_bytes().to_vec(), vec![], vec![], false, Mutability::NonPayable)
}

#[test]
fn cheatcodes() {
    let gas_limit = 10_000_000;
    let mut evm = new_executor(gas_limit);

    let addr = addr(0x10);  // 0x1000000000000000000000000000000000000000
    let greeter_test_code = vec![0x60, 0x80, 0x60, 0x40, 0x52, 0x34];
    evm.initialize_contracts(vec![(addr, greeter_test_code)]);
    evm.initialize_contracts(vec![(cheatcode_address(), vec![1u8; 1000])]);

    // setUp() on the test contract: stopped/succeeded, no
    // missing-destination-code error.
    let (_, reason, _) =
        evm.call(Address::zero(), addr, &plain_fn("setUp"), vec![], W256::zero()).unwrap();
    assert_eq!(reason, Status::Success);

    // A cheat call: destination is the reserved cheat address. It is
    // intercepted, sets the timestamp override to 100, and answers with
    // a synthesized success.
    evm.call(Address::zero(), cheatcode_address(), &plain_fn("warp"), vec![], W256::zero())
        .unwrap();
    assert_eq!(evm.executor.block_timestamp(), W256::from_u64(100));

    // checkTime() after the cheat: the dependent call still succeeds
    // and sees the overridden timestamp.
    let (_, reason, _) =
        evm.call(Address::zero(), addr, &plain_fn("checkTime"), vec![], W256::zero()).unwrap();
    assert_eq!(reason, Status::Success);
    assert_eq!(evm.executor.block_timestamp(), W256::from_u64(100));
}

#[test]
fn cheat_call_never_reaches_the_native_call_path() {
    let mut evm = new_executor(10_000_000);
    evm.initialize_contracts(vec![(cheatcode_address(), vec![1u8; 16])]);

    assert_eq!(evm.executor.handler.calls.len(), 0);
    evm.call(Address::zero(), cheatcode_address(), &plain_fn("warp"), vec![], W256::zero())
        .unwrap();
    // Intercepted: the wrapped executor saw no call.
    assert_eq!(evm.executor.handler.calls.len(), 0);
}

#[test]
fn other_destinations_reach_the_native_path_with_identical_arguments() {
    let mut evm = new_executor(7_000);
    let target = addr(0x42);
    evm.initialize_contracts(vec![(target, vec![0xfe])]);

    let f = plain_fn("ping");
    evm.call(addr(0x07), target, &f, vec![], W256::from_u64(3)).unwrap();

    assert_eq!(evm.executor.handler.calls.len(), 1);
    let rec = &evm.executor.handler.calls[0];
    assert_eq!(rec.code_address, target);
    assert_eq!(rec.target_gas, Some(7_000));
    assert!(!rec.is_static);
    let t = rec.transfer.as_ref().unwrap();
    assert_eq!(t.source, addr(0x07));
    assert_eq!(t.target, target);
    assert_eq!(t.value, W256::from_u64(3));
    assert_eq!(rec.context.address, target);
    assert_eq!(rec.context.caller, addr(0x07));
    assert_eq!(rec.context.apparent_value, W256::from_u64(3));
    // The recorded input is the calldata the codec produced.
    let expected = evm_adapters::abi::encode_calldata(&f, &vec![]);
    assert_eq!(rec.input, expected);
}

#[test]
fn unified_call_fails_without_destination_code() {
    let mut evm = new_executor(10_000_000);
    let r = evm.call(Address::zero(), addr(0x99), &plain_fn("setUp"), vec![], W256::zero());
    assert_eq!(r, Err(EvmError::MissingDestinationCode));
}

#[test]
fn timestamp_override_layers_over_the_native_backend() {
    let mut vicinity = new_vicinity();
    vicinity.block_timestamp = W256::from_u64(7);
    let backend = MemoryBackend::new(vicinity);
    let mut backend = CheatcodeBackend { backend, cheats: Cheatcodes::default() };

    // No override set: the native value falls through.
    assert_eq!(backend.block_timestamp(), W256::from_u64(7));

    // Override set: every read returns the override.
    backend.cheats.block_timestamp = Some(W256::from_u64(100));
    assert_eq!(backend.block_timestamp(), W256::from_u64(100));
}

#[test]
fn forwarded_operations_are_the_wrapped_handlers_answers() {
    let mut vicinity = new_vicinity();
    vicinity.block_number = W256::from_u64(11);
    vicinity.chain_id = W256::from_u64(5);
    let backend = MemoryBackend::new(vicinity);
    let backend = CheatcodeBackend { backend, cheats: Cheatcodes::default() };
    let state = MemoryStackStateOwned::new(StackSubstateMetadata::new(1_000), backend);
    let mut wrapped = CheatcodeHandler::new(StackExecutor::new(state));

    assert_eq!(wrapped.block_number(), W256::from_u64(11));
    assert_eq!(wrapped.chain_id(), W256::from_u64(5));
    assert_eq!(wrapped.gas_left(), W256::from_u64(1_000));
    assert_eq!(wrapped.balance(addr(1)), W256::zero());
    assert!(!wrapped.account_exists(addr(1)));
    assert!(!wrapped.deleted(addr(1)));
    assert!(!wrapped.is_cold(addr(1), None));

    // Storage writes go through unchanged and are visible to reads.
    let slot = W256::from_u64(2);
    wrapped.set_storage(addr(1), slot, W256::from_u64(9)).unwrap();
    assert_eq!(wrapped.storage(addr(1), slot), W256::from_u64(9));

    // Deletion marks and logs are forwarded.
    wrapped.mark_delete(addr(1), addr(2)).unwrap();
    assert!(wrapped.deleted(addr(1)));
    wrapped.log(addr(1), vec![W256::from_u64(1)], vec![5, 6]).unwrap();
    assert_eq!(wrapped.handler.state.logs.len(), 1);
}

#[test]
fn transact_call_forwards_to_the_wrapped_handler() {
    let mut evm = new_executor(9_000);
    let (status, output) = evm.executor.transact_call(
        addr(1),
        addr(2),
        W256::zero(),
        vec![0xAA],
        9_000,
        vec![],
    );
    assert_eq!(status, Status::Success);
    assert!(output.is_empty());
    assert_eq!(evm.executor.handler.calls.len(), 1);
    assert_eq!(evm.executor.handler.calls[0].input, vec![0xAA]);
}

#[test]
fn installed_code_is_returned_with_its_hash() {
    let mut evm = new_executor(10_000_000);
    let a = addr(0x10);
    let code = vec![1, 2, 3, 4];
    evm.initialize_contracts(vec![(a, code.clone())]);

    let stored = evm.init_state().get_code(&a).unwrap();
    assert_eq!(stored.as_slice(), code.as_slice());

    let account = evm.init_state().backend.backend.accounts.get(&a).unwrap();
    let expected = ethers::utils::keccak256(code.as_slice());
    assert_eq!(account.code_hash.as_slice(), &expected);
}

#[test]
fn intercepted_call_answers_with_the_fixed_payload() {
    let backend = MemoryBackend::new(new_vicinity());
    let backend = CheatcodeBackend { backend, cheats: Cheatcodes::default() };
    let state = MemoryStackStateOwned::new(StackSubstateMetadata::new(1_000), backend);
    let mut wrapped = CheatcodeHandler::new(StackExecutor::new(state));

    let ctx = Context { address: cheatcode_address(), caller: addr(1), apparent_value: W256::zero() };
    let transfer = Transfer { source: addr(1), target: cheatcode_address(), value: W256::zero() };
    let (status, output) =
        wrapped.call(cheatcode_address(), Some(transfer), vec![], None, false, ctx);
    assert_eq!(status, Status::Success);
    assert_eq!(output, vec![1u8; 32]);
    assert_eq!(
        wrapped.handler.state.backend.cheats.block_timestamp,
        Some(W256::from_u64(100))
    );
}

#[test]
fn block_hash_reads_only_the_recorded_range() {
    let mut vicinity = new_vicinity();
    vicinity.block_hashes = vec![W256::from_u64(111), W256::from_u64(222)];
    let backend = MemoryBackend::new(vicinity);
    let backend = CheatcodeBackend { backend, cheats: Cheatcodes::default() };
    let state = MemoryStackStateOwned::new(StackSubstateMetadata::new(1_000), backend);
    let wrapped = CheatcodeHandler::new(StackExecutor::new(state));

    assert_eq!(wrapped.block_hash(W256::from_u64(0)), W256::from_u64(111));
    assert_eq!(wrapped.block_hash(W256::from_u64(1)), W256::from_u64(222));
    assert_eq!(wrapped.block_hash(W256::from_u64(2)), W256::zero());
    let huge = W256 { limbs: [0, 1, 0, 0] };
    assert_eq!(wrapped.block_hash(huge), W256::zero());
}

#[test]
fn code_size_reports_the_installed_length() {
    let mut evm = new_executor(1_000);
    let a = addr(0x21);
    evm.initialize_contracts(vec![(a, vec![7, 7, 7])]);
    assert_eq!(evm.executor.code_size(a), W256::from_u64(3));
    assert_eq!(evm.executor.code_size(addr(0x22)), W256::zero());
    assert_eq!(evm.executor.code(a), vec![7, 7, 7]);
}

#[test]
fn create_is_refused_without_an_interpreter() {
    let mut evm = new_executor(1_000);
    let (status, created, output) = evm.executor.create(
        addr(1),
        evm_adapters::executor::CreateScheme::Legacy { caller: addr(1) },
        W256::zero(),
        vec![0x60],
        None,
    );
    assert_eq!(status, Status::Failure);
    assert!(created.is_none());
    assert!(output.is_empty());
}

#[test]
fn installing_code_keeps_an_existing_accounts_storage_and_nonce() {
    let mut evm = new_executor(1_000);
    let a = addr(0x33);
    let slot = W256::from_u64(5);

    // Writing a slot creates the account; installing code afterwards
    // must not reset what the account already holds.
    evm.executor.handler.set_storage(a, slot, W256::from_u64(9)).unwrap();
    evm.initialize_contracts(vec![(a, vec![0xAB, 0xCD])]);

    assert_eq!(evm.executor.storage(a, slot), W256::from_u64(9));
    let account = evm.init_state().backend.backend.accounts.get(&a).unwrap();
    assert_eq!(account.nonce, 0);
    assert_eq!(account.balance, W256::zero());
    assert_eq!(account.code, vec![0xAB, 0xCD]);
}
