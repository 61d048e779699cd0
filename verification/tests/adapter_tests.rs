use evm_adapters::adapter::EvmOdin;
use evm_adapters::assoc::AssocVec;
use evm_adapters::host::Account;
use evm_adapters::types::Revision;
use evm_adapters::host::{FixedEngine, HostExt, InMemoryHost};
use evm_adapters::types::{Address, EvmError, FunctionAbi, Mutability, ParamKind, Status, Token, W256};

fn addr(b0: u8) -> Address {
    let mut bytes = [0u8; 20];
    bytes[0] = b0;
    Address::new(bytes)
}

fn setup_fn() -> FunctionAbi {
    FunctionAbi::new(b"setUp".to_vec(), vec![], vec![], false, Mutability::NonPayable)
}

fn greeter_addr() -> Address {
    // 0x1000000000000000000000000000000000000000
    addr(0x10)
}

fn greeter_code() -> Vec<u8> {
    vec![0x60, 0x80, 0x60, 0x40, 0x52]
}

fn new_evm() -> EvmOdin<InMemoryHost, FixedEngine> {
    let host = InMemoryHost::new();
    let gas_limit = 12_000_000;
    let engine = FixedEngine::new(Status::Success, vec![]);
    EvmOdin::new(host, gas_limit, Revision::Istanbul, engine)
}

#[test]
fn evmodin_can_call_vm_directly() {
    let mut evm = new_evm();
    let addr = greeter_addr();
    evm.initialize_contracts(vec![(addr, greeter_code())]);

    let (tokens, status, gas) =
        evm.call(Address::zero(), addr, &setup_fn(), vec![], W256::zero()).unwrap();
    assert!(tokens.is_empty());
    assert_eq!(status, Status::Success);
    assert_eq!(gas, 0);
}

#[test]
fn call_without_code_fails_with_missing_destination() {
    let mut evm = new_evm();
    let r = evm.call(Address::zero(), greeter_addr(), &setup_fn(), vec![], W256::zero());
    assert_eq!(r, Err(EvmError::MissingDestinationCode));
}

#[test]
fn call_rejects_mismatched_arguments() {
    let mut evm = new_evm();
    evm.initialize_contracts(vec![(greeter_addr(), greeter_code())]);
    // setUp() takes no arguments; handing it one is a codec error.
    let r = evm.call(
        Address::zero(),
        greeter_addr(),
        &setup_fn(),
        vec![Token::Bool(true)],
        W256::zero(),
    );
    assert_eq!(r, Err(EvmError::AbiCodec));
}

#[test]
fn initialize_contracts_last_write_wins() {
    let mut evm = new_evm();
    let a = greeter_addr();
    evm.initialize_contracts(vec![(a, vec![1, 2, 3]), (a, vec![9, 9])]);
    let code = evm.init_state().get_code(&a).unwrap();
    assert_eq!(code.as_slice(), &[9, 9]);
}

#[test]
fn initialize_contracts_stores_code_and_its_hash() {
    let mut evm = new_evm();
    let a = greeter_addr();
    let code = greeter_code();
    evm.initialize_contracts(vec![(a, code.clone())]);

    // The installed code is returned exactly.
    assert_eq!(evm.init_state().get_code(&a).unwrap().as_slice(), code.as_slice());

    // The stored content hash is the Keccak-256 digest of the code.
    let account = evm.init_state().accounts.get(&a).unwrap();
    let expected = ethers::utils::keccak256(code.as_slice());
    assert_eq!(account.code_hash.as_slice(), &expected);
}

#[test]
fn reset_replaces_the_whole_state() {
    let mut evm = new_evm();
    evm.initialize_contracts(vec![(greeter_addr(), greeter_code())]);
    evm.reset(InMemoryHost::new());
    assert!(evm.init_state().get_code(&greeter_addr()).is_none());
}

#[test]
fn check_success_revert_always_passes_when_failure_expected() {
    let mut evm = new_evm();
    // For every address, installed or not.
    assert!(evm.check_success(greeter_addr(), Status::Revert, true));
    assert!(evm.check_success(Address::zero(), Status::Revert, true));
    evm.initialize_contracts(vec![(greeter_addr(), greeter_code())]);
    assert!(evm.check_success(greeter_addr(), Status::Revert, true));
}

#[test]
fn check_success_without_expected_failure() {
    let mut evm = new_evm();
    assert!(evm.check_success(greeter_addr(), Status::Success, false));
    assert!(!evm.check_success(greeter_addr(), Status::Revert, false));
    assert!(!evm.check_success(greeter_addr(), Status::Failure, false));
}

#[test]
fn check_success_failure_status_fails_even_when_failure_expected() {
    let mut evm = new_evm();
    assert!(!evm.check_success(greeter_addr(), Status::Failure, true));
}

fn bool_word(value: bool) -> Vec<u8> {
    let mut out = vec![0u8; 32];
    if value {
        out[31] = 1;
    }
    out
}

#[test]
fn check_success_success_consults_the_failed_probe() {
    // Engine whose every call answers with an encoded `true`: the
    // failed() probe reads a set failure flag, so the expected-failure
    // check fails.
    let host = InMemoryHost::new();
    let engine = FixedEngine::new(Status::Success, bool_word(true));
    let mut evm = EvmOdin::new(host, 10_000_000, Revision::Istanbul, engine);
    evm.initialize_contracts(vec![(greeter_addr(), greeter_code())]);
    assert!(evm.failed(greeter_addr()));
    assert!(!evm.check_success(greeter_addr(), Status::Success, true));

    // Engine answering with an encoded `false`: the probe reads no
    // failure and the check passes.
    let host = InMemoryHost::new();
    let engine = FixedEngine::new(Status::Success, bool_word(false));
    let mut evm = EvmOdin::new(host, 10_000_000, Revision::Istanbul, engine);
    evm.initialize_contracts(vec![(greeter_addr(), greeter_code())]);
    assert!(!evm.failed(greeter_addr()));
    assert!(evm.check_success(greeter_addr(), Status::Success, true));
}

#[test]
fn failed_probe_is_absent_on_missing_contract() {
    // No contract at the address: the probe reads "not failed" and an
    // expected-failure success passes.
    let mut evm = new_evm();
    assert!(!evm.failed(greeter_addr()));
    assert!(evm.check_success(greeter_addr(), Status::Success, true));
}

#[test]
fn static_flag_follows_declared_mutability() {
    let view_fn =
        FunctionAbi::new(b"peek".to_vec(), vec![], vec![ParamKind::Uint], false, Mutability::View);
    let pure_fn =
        FunctionAbi::new(b"calc".to_vec(), vec![], vec![ParamKind::Uint], false, Mutability::Pure);
    let constant_fn =
        FunctionAbi::new(b"old".to_vec(), vec![], vec![], true, Mutability::NonPayable);
    let plain_fn = setup_fn();
    assert!(view_fn.is_static());
    assert!(pure_fn.is_static());
    assert!(constant_fn.is_static());
    assert!(!plain_fn.is_static());
}

#[test]
fn installing_code_preserves_nonce_balance_and_storage() {
    let mut evm = new_evm();
    let a = greeter_addr();
    let old_code = vec![1u8, 2];
    let account = Account {
        nonce: 7,
        balance: W256::from_u64(55),
        code_hash: ethers::utils::keccak256(old_code.as_slice()).to_vec(),
        code: old_code,
        storage: AssocVec { entries: vec![(W256::from_u64(5), W256::from_u64(6))] },
    };
    evm.init_state();
    evm.host.accounts.upsert(a, account);

    let new_code = vec![9u8, 9, 9];
    evm.initialize_contracts(vec![(a, new_code.clone())]);

    let stored = evm.init_state().accounts.get(&a).unwrap();
    assert_eq!(stored.nonce, 7);
    assert_eq!(stored.balance, W256::from_u64(55));
    assert_eq!(stored.storage.entries.len(), 1);
    assert_eq!(stored.storage.entries[0], (W256::from_u64(5), W256::from_u64(6)));
    assert_eq!(stored.code, new_code);
    assert_eq!(stored.code_hash.as_slice(), &ethers::utils::keccak256(new_code.as_slice()));
}

#[test]
fn installing_code_at_a_fresh_address_starts_zeroed() {
    let mut evm = new_evm();
    let a = greeter_addr();
    evm.initialize_contracts(vec![(a, greeter_code())]);
    let stored = evm.init_state().accounts.get(&a).unwrap();
    assert_eq!(stored.nonce, 0);
    assert_eq!(stored.balance, W256::zero());
    assert!(stored.storage.entries.is_empty());
}
