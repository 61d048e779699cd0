use crate::abi::{
    args_match, decode_output, encode_calldata, eth_abi_decoded, spec_args_match, spec_calldata,
};
use crate::executor::{CallRecord, Context, CreateScheme, ExitError, Opcode, StackExecutor, Transfer};
use crate::host::{spec_meta_preserved, HostExt};
use crate::memory_stackstate_owned::MemoryStackStateOwned;
use crate::types::{
    spec_is_static, spec_w256, Address, EvmError, FunctionAbi, Status, Token, W256,
};
use vstd::prelude::*;

verus! {

/// The reserved cheat address: a call whose destination equals this
/// address is diverted to cheat processing instead of bytecode
/// execution. It owns no account code; its value is purely a dispatch
/// signal, and it must be the same across every backend wired into the
/// interception handler.
pub open spec fn spec_cheatcode_address() -> Seq<u8> {
    seq![
        0x71u8, 0x09u8, 0x70u8, 0x9Eu8, 0xCfu8, 0xa9u8, 0x1au8, 0x80u8, 0x62u8, 0x6fu8, 0xF3u8,
        0x98u8, 0x9Du8, 0x68u8, 0xf6u8, 0x7Fu8, 0x5bu8, 0x1Du8, 0xD1u8, 0x2Du8,
    ]
}

/// The reserved cheat address as a value.
pub fn cheatcode_address() -> (a: Address)
    ensures
        a@ == spec_cheatcode_address(),
{
    let a = Address::new(
        [
            0x71u8, 0x09u8, 0x70u8, 0x9Eu8, 0xCfu8, 0xa9u8, 0x1au8, 0x80u8, 0x62u8, 0x6fu8,
            0xF3u8, 0x98u8, 0x9Du8, 0x68u8, 0xf6u8, 0x7Fu8, 0x5bu8, 0x1Du8, 0xD1u8, 0x2Du8,
        ],
    );
    proof {
        assert(a@ =~= spec_cheatcode_address());
    }
    a
}

/// The synthesized output of a processed cheat call: 32 bytes of one.
pub open spec fn spec_cheat_output() -> Seq<u8> {
    Seq::new(32, |i: int| 1u8)
}

fn cheat_output() -> (r: Vec<u8>)
    ensures
        r@ == spec_cheat_output(),
{
    let mut r: Vec<u8> = Vec::new();
    let mut i: usize = 0;
    while i < 32
        invariant
            0 <= i <= 32,
            r@ =~= Seq::new(i as nat, |j: int| 1u8),
        decreases 32 - i,
    {
        r.push(1u8);
        proof {
            assert(r@ =~= Seq::new((i + 1) as nat, |j: int| 1u8));
        }
        i += 1;
    }
    proof {
        assert(r@ =~= spec_cheat_output());
    }
    r
}

/// Wraps a fully-configured call/state interface and intercepts exactly
/// one operation — the generic call — forwarding every other operation
/// unchanged to the wrapped handler.
pub struct CheatcodeHandler<H> {
    pub handler: H,
}

/// The interception handler over the native executor and the
/// cheat-layered owned state.
pub type CheatcodeStackExecutor = CheatcodeHandler<StackExecutor>;

impl<H> CheatcodeHandler<H> {
    pub fn new(handler: H) -> (c: CheatcodeHandler<H>)
        ensures
            c.handler == handler,
    {
        CheatcodeHandler { handler }
    }

    /// The wrapped handler.
    pub fn inner(&self) -> (r: &H)
        ensures
            *r == self.handler,
    {
        &self.handler
    }
}

impl CheatcodeStackExecutor {
    /// Processes a cheat call. Routing by decoded selector is an open
    /// requirement: today every cheat call applies the single supported
    /// effect — overriding the block timestamp to the fixed value 100 —
    /// and answers with a synthesized success and a fixed non-empty
    /// payload.
    fn apply_cheatcode(&mut self, _input: Vec<u8>) -> (r: (Status, Vec<u8>))
        ensures
            (final(self).handler.state.backend.cheats.block_timestamp matches Some(t) && t@
                == spec_w256(100)),
            final(self).handler.state.backend.backend == old(self).handler.state.backend.backend,
            final(self).handler.state.metadata == old(self).handler.state.metadata,
            final(self).handler.state.logs == old(self).handler.state.logs,
            final(self).handler.state.deletes == old(self).handler.state.deletes,
            final(self).handler.calls == old(self).handler.calls,
            r.0 == Status::Success,
            r.1@ == spec_cheat_output(),
    {
        let state = self.handler.state_mut();
        state.backend.cheats.block_timestamp = Some(W256::from_u64(100));
        (Status::Success, cheat_output())
    }

    /// The intercepted operation. A call whose destination is the
    /// reserved cheat address is processed as a cheat and never reaches
    /// the wrapped handler's native call path; every other call is
    /// forwarded to it with identical arguments and its answer returned
    /// unmodified.
    pub fn call(
        &mut self,
        code_address: Address,
        transfer: Option<Transfer>,
        input: Vec<u8>,
        target_gas: Option<u64>,
        is_static: bool,
        context: Context,
    ) -> (r: (Status, Vec<u8>))
        ensures
            code_address@ == spec_cheatcode_address() ==> ({
                &&& (final(self).handler.state.backend.cheats.block_timestamp matches Some(t)
                    && t@ == spec_w256(100))
                &&& final(self).handler.state.backend.backend == old(
                    self,
                ).handler.state.backend.backend
                &&& final(self).handler.state.metadata == old(self).handler.state.metadata
                &&& final(self).handler.state.logs == old(self).handler.state.logs
                &&& final(self).handler.state.deletes == old(self).handler.state.deletes
                &&& final(self).handler.calls == old(self).handler.calls
                &&& r.0 == Status::Success
                &&& r.1@ == spec_cheat_output()
            }),
            code_address@ != spec_cheatcode_address() ==> ({
                &&& final(self).handler.state == old(self).handler.state
                &&& final(self).handler.calls@ == old(self).handler.calls@.push(
                    CallRecord { code_address, transfer, input, target_gas, is_static, context },
                )
                &&& r.0 == Status::Success
                &&& r.1@ == Seq::<u8>::empty()
            }),
    {
        let cheat = cheatcode_address();
        if code_address.equals(&cheat) {
            self.apply_cheatcode(input)
        } else {
            self.handler.call(code_address, transfer, input, target_gas, is_static, context)
        }
    }

    /// Runs one top-level transaction through the wrapped handler,
    /// unchanged.
    pub fn transact_call(
        &mut self,
        caller: Address,
        address: Address,
        value: W256,
        data: Vec<u8>,
        gas_limit: u64,
        access_list: Vec<(Address, Vec<W256>)>,
    ) -> (r: (Status, Vec<u8>))
        ensures
            final(self).handler.state == old(self).handler.state,
            final(self).handler.calls@.len() == old(self).handler.calls@.len() + 1,
            final(self).handler.calls@.take(old(self).handler.calls@.len() as int) == old(
                self,
            ).handler.calls@,
            ({
                let rec = final(self).handler.calls@.last();
                rec.code_address == address && (rec.transfer matches Some(t) && t.source == caller
                    && t.target == address && t.value == value) && rec.input == data
                    && rec.target_gas == Some(gas_limit) && rec.is_static == false
                    && rec.context.address == address && rec.context.caller == caller
                    && rec.context.apparent_value == value
            }),
            r.0 == Status::Success,
            r.1@ == Seq::<u8>::empty(),
    {
        self.handler.transact_call(caller, address, value, data, gas_limit, access_list)
    }

    pub fn balance(&self, address: Address) -> (r: W256)
        ensures
            r@ == self.handler.state.backend.backend.spec_balance(address@),
    {
        self.handler.balance(address)
    }

    pub fn code_size(&self, address: Address) -> (r: W256)
        ensures
            r@ == spec_w256(
                self.handler.state.backend.backend.spec_code_bytes(address@).len() as u64,
            ),
    {
        self.handler.code_size(address)
    }

    pub fn code_hash(&self, address: Address) -> (r: Vec<u8>)
        ensures
            r@ == self.handler.state.backend.backend.spec_code_hash(address@),
    {
        self.handler.code_hash(address)
    }

    pub fn code(&self, address: Address) -> (r: Vec<u8>)
        ensures
            r@ == self.handler.state.backend.backend.spec_code_bytes(address@),
    {
        self.handler.code(address)
    }

    pub fn storage(&self, address: Address, index: W256) -> (r: W256)
        ensures
            r@ == self.handler.state.backend.backend.spec_storage(address@, index@),
    {
        self.handler.storage(address, index)
    }

    pub fn original_storage(&self, address: Address, index: W256) -> (r: W256)
        ensures
            r@ == self.handler.state.backend.backend.spec_storage(address@, index@),
    {
        self.handler.original_storage(address, index)
    }

    pub fn gas_left(&self) -> (r: W256)
        ensures
            r@ == spec_w256(self.handler.state.metadata.gas_limit),
    {
        self.handler.gas_left()
    }

    pub fn gas_price(&self) -> (r: W256)
        ensures
            r@ == self.handler.state.backend.backend.env.gas_price@,
    {
        self.handler.gas_price()
    }

    pub fn origin(&self) -> (r: Address)
        ensures
            r@ == self.handler.state.backend.backend.env.origin@,
    {
        self.handler.origin()
    }

    pub fn block_hash(&self, number: W256) -> (r: W256)
        ensures
            r@ == self.handler.state.backend.backend.spec_block_hash(number@),
    {
        self.handler.block_hash(number)
    }

    pub fn block_number(&self) -> (r: W256)
        ensures
            r@ == self.handler.state.backend.backend.env.block_number@,
    {
        self.handler.block_number()
    }

    pub fn block_coinbase(&self) -> (r: Address)
        ensures
            r@ == self.handler.state.backend.backend.env.block_coinbase@,
    {
        self.handler.block_coinbase()
    }

    pub fn block_timestamp(&self) -> (r: W256)
        ensures
            r@ == self.handler.state.backend.spec_timestamp(),
    {
        self.handler.block_timestamp()
    }

    pub fn block_difficulty(&self) -> (r: W256)
        ensures
            r@ == self.handler.state.backend.backend.env.block_difficulty@,
    {
        self.handler.block_difficulty()
    }

    pub fn block_gas_limit(&self) -> (r: W256)
        ensures
            r@ == self.handler.state.backend.backend.env.block_gas_limit@,
    {
        self.handler.block_gas_limit()
    }

    pub fn chain_id(&self) -> (r: W256)
        ensures
            r@ == self.handler.state.backend.backend.env.chain_id@,
    {
        self.handler.chain_id()
    }

    pub fn account_exists(&self, address: Address) -> (r: bool)
        ensures
            r == self.handler.state.backend.backend.spec_exists(address@),
    {
        self.handler.account_exists(address)
    }

    pub fn deleted(&self, address: Address) -> (r: bool)
        ensures
            r == self.handler.state.spec_deleted(address@),
    {
        self.handler.deleted(address)
    }

    pub fn is_cold(&self, address: Address, index: Option<W256>) -> (r: bool)
        ensures
            r == false,
    {
        self.handler.is_cold(address, index)
    }

    pub fn set_storage(&mut self, address: Address, index: W256, value: W256) -> (r: Result<
        (),
        ExitError,
    >)
        requires
            old(self).handler.state.backend.backend.spec_inv(),
        ensures
            r is Ok,
            final(self).handler.state.backend.backend.spec_inv(),
            final(self).handler.calls == old(self).handler.calls,
            final(self).handler.state.metadata == old(self).handler.state.metadata,
            final(self).handler.state.logs == old(self).handler.state.logs,
            final(self).handler.state.deletes == old(self).handler.state.deletes,
            final(self).handler.state.backend.cheats == old(self).handler.state.backend.cheats,
            final(self).handler.state.backend.backend.env == old(
                self,
            ).handler.state.backend.backend.env,
            forall|a: Seq<u8>, k: Seq<u64>|
                #[trigger] final(self).handler.state.backend.backend.spec_storage(a, k) == (if a
                    == address@ && k == index@ {
                    value@
                } else {
                    old(self).handler.state.backend.backend.spec_storage(a, k)
                }),
    {
        self.handler.set_storage(address, index, value)
    }

    pub fn log(&mut self, address: Address, topics: Vec<W256>, data: Vec<u8>) -> (r: Result<
        (),
        ExitError,
    >)
        ensures
            r is Ok,
            final(self).handler.state.logs@ == old(self).handler.state.logs@.push(
                crate::types::Log { address, topics, data },
            ),
            final(self).handler.calls == old(self).handler.calls,
            final(self).handler.state.backend == old(self).handler.state.backend,
            final(self).handler.state.metadata == old(self).handler.state.metadata,
            final(self).handler.state.deletes == old(self).handler.state.deletes,
    {
        self.handler.log(address, topics, data)
    }

    pub fn mark_delete(&mut self, address: Address, target: Address) -> (r: Result<(), ExitError>)
        ensures
            r is Ok,
            final(self).handler.state.deletes@ == old(self).handler.state.deletes@.push(address),
            final(self).handler.calls == old(self).handler.calls,
            final(self).handler.state.backend == old(self).handler.state.backend,
            final(self).handler.state.metadata == old(self).handler.state.metadata,
            final(self).handler.state.logs == old(self).handler.state.logs,
    {
        self.handler.mark_delete(address, target)
    }

    pub fn create(
        &mut self,
        caller: Address,
        scheme: CreateScheme,
        value: W256,
        init_code: Vec<u8>,
        target_gas: Option<u64>,
    ) -> (r: (Status, Option<Address>, Vec<u8>))
        ensures
            *final(self) == *old(self),
            r.0 == Status::Failure,
            r.1 is None,
            r.2@ == Seq::<u8>::empty(),
    {
        self.handler.create(caller, scheme, value, init_code, target_gas)
    }

    pub fn pre_validate(&mut self, context: &Context, opcode: Opcode, stack: &Vec<W256>) -> (r:
        Result<(), ExitError>)
        ensures
            r is Ok,
            *final(self) == *old(self),
    {
        self.handler.pre_validate(context, opcode, stack)
    }
}

/// The unified execution adapter over the interception stack: installs
/// contracts into the owned state and issues ABI-level calls that enter
/// through the intercepted call operation, so a call whose destination
/// is the reserved cheat address is processed as a cheat.
pub struct Executor {
    pub executor: CheatcodeStackExecutor,
    pub gas_limit: u64,
}

impl Executor {
    /// Well-formedness of the owned account store.
    pub open spec fn spec_inv(self) -> bool {
        self.executor.handler.state.backend.backend.spec_inv()
    }

    pub fn new(executor: CheatcodeStackExecutor, gas_limit: u64) -> (e: Executor)
        ensures
            e.executor == executor,
            e.gas_limit == gas_limit,
    {
        Executor { executor, gas_limit }
    }

    /// Read-only access to the owned execution state.
    pub fn init_state(&self) -> (r: &MemoryStackStateOwned)
        ensures
            *r == self.executor.handler.state,
    {
        &self.executor.handler.state
    }

    /// Installs each contract of the batch at its address, left to
    /// right, computing and storing each content hash. Idempotent per
    /// address: the last write wins. Accounts at other addresses are
    /// untouched, and a written account's nonce, balance and storage
    /// are not set: an existing account keeps them, a created one
    /// starts zeroed and empty.
    pub fn initialize_contracts(&mut self, contracts: Vec<(Address, Vec<u8>)>)
        requires
            old(self).spec_inv(),
        ensures
            final(self).spec_inv(),
            forall|x: Seq<u8>|
                #[trigger] final(self).executor.handler.state.backend.backend.spec_code(x) == (
                match crate::adapter::spec_installed(
                    crate::adapter::spec_contracts_view(contracts@),
                    x,
                ) {
                    Some(c) => Some(c),
                    None => old(self).executor.handler.state.backend.backend.spec_code(x),
                }),
            forall|x: Seq<u8>|
                crate::adapter::spec_installed(
                    crate::adapter::spec_contracts_view(contracts@),
                    x,
                ) is None
                    ==> #[trigger] final(self).executor.handler.state.backend.backend.accounts.spec_get(x)
                    == old(self).executor.handler.state.backend.backend.accounts.spec_get(x),
            forall|x: Seq<u8>| #[trigger] crate::adapter::spec_installed(
                crate::adapter::spec_contracts_view(contracts@),
                x,
            ) is Some ==> (final(self).executor.handler.state.backend.backend.accounts.spec_get(
                x,
            ) matches Some(acct) && Some(acct.code@) == crate::adapter::spec_installed(
                crate::adapter::spec_contracts_view(contracts@),
                x,
            ) && spec_meta_preserved(
                old(self).executor.handler.state.backend.backend.accounts.spec_get(x),
                acct,
            )),
            final(self).executor.handler.state.backend.cheats == old(
                self,
            ).executor.handler.state.backend.cheats,
            final(self).executor.handler.state.backend.backend.env == old(
                self,
            ).executor.handler.state.backend.backend.env,
            final(self).executor.handler.state.metadata == old(
                self,
            ).executor.handler.state.metadata,
            final(self).executor.handler.state.logs == old(self).executor.handler.state.logs,
            final(self).executor.handler.state.deletes == old(self).executor.handler.state.deletes,
            final(self).executor.handler.calls == old(self).executor.handler.calls,
            final(self).gas_limit == old(self).gas_limit,
    {
        let ghost cview = crate::adapter::spec_contracts_view(contracts@);
        let mut i: usize = 0;
        while i < contracts.len()
            invariant
                0 <= i <= contracts@.len(),
                cview == crate::adapter::spec_contracts_view(contracts@),
                self.spec_inv(),
                forall|x: Seq<u8>|
                    #[trigger] self.executor.handler.state.backend.backend.spec_code(x) == (
                    match crate::adapter::spec_installed(cview.take(i as int), x) {
                        Some(c) => Some(c),
                        None => old(self).executor.handler.state.backend.backend.spec_code(x),
                    }),
                forall|x: Seq<u8>|
                    crate::adapter::spec_installed(cview.take(i as int), x) is None
                        ==> #[trigger] self.executor.handler.state.backend.backend.accounts.spec_get(x)
                        == old(self).executor.handler.state.backend.backend.accounts.spec_get(x),
                forall|x: Seq<u8>| #[trigger] crate::adapter::spec_installed(
                    cview.take(i as int),
                    x,
                ) is Some ==> (self.executor.handler.state.backend.backend.accounts.spec_get(
                    x,
                ) matches Some(acct) && Some(acct.code@) == crate::adapter::spec_installed(
                    cview.take(i as int),
                    x,
                ) && spec_meta_preserved(
                    old(self).executor.handler.state.backend.backend.accounts.spec_get(x),
                    acct,
                )),
                self.executor.handler.state.backend.cheats == old(
                    self,
                ).executor.handler.state.backend.cheats,
                self.executor.handler.state.backend.backend.env == old(
                    self,
                ).executor.handler.state.backend.backend.env,
                self.executor.handler.state.metadata == old(self).executor.handler.state.metadata,
                self.executor.handler.state.logs == old(self).executor.handler.state.logs,
                self.executor.handler.state.deletes == old(self).executor.handler.state.deletes,
                self.executor.handler.calls == old(self).executor.handler.calls,
                self.gas_limit == old(self).gas_limit,
            decreases contracts@.len() - i,
        {
            let address = contracts[i].0;
            let code = crate::types::copy_bytes(&contracts[i].1);
            self.executor.handler.state.install_code(address, code);
            proof {
                assert(cview.take((i + 1) as int).drop_last() =~= cview.take(i as int));
                assert(cview.take((i + 1) as int).last() == (address@, contracts@[i as int].1@));
                assert forall|x: Seq<u8>| #[trigger] crate::adapter::spec_installed(
                    cview.take((i + 1) as int),
                    x,
                ) is Some implies (self.executor.handler.state.backend.backend.accounts.spec_get(
                    x,
                ) matches Some(acct) && Some(acct.code@) == crate::adapter::spec_installed(
                    cview.take((i + 1) as int),
                    x,
                ) && spec_meta_preserved(
                    old(self).executor.handler.state.backend.backend.accounts.spec_get(x),
                    acct,
                )) by {
                    if x != address@ {
                        assert(crate::adapter::spec_installed(cview.take((i + 1) as int), x)
                            == crate::adapter::spec_installed(cview.take(i as int), x));
                    }
                }
            }
            i += 1;
        }
        proof {
            assert(cview.take(contracts@.len() as int) =~= cview);
        }
    }

    /// Encodes the arguments, fetches the destination's code — failing
    /// when none is installed — and issues the call through the
    /// interception seam: a destination equal to the reserved cheat
    /// address is processed as a cheat and never reaches the native
    /// call path; any other destination reaches it with these exact
    /// arguments. The raw answer is decoded per the function's declared
    /// return kinds; gas is not metered and is returned as zero.
    pub fn call(
        &mut self,
        from: Address,
        to: Address,
        func: &FunctionAbi,
        args: Vec<Token>,
        value: W256,
    ) -> (r: Result<(Vec<Token>, Status, u64), EvmError>)
        requires
            old(self).spec_inv(),
        ensures
            final(self).spec_inv(),
            final(self).gas_limit == old(self).gas_limit,
            !spec_args_match(args@.map_values(|t: Token| t@), func@.inputs) ==> r == Err::<
                (Vec<Token>, Status, u64),
                EvmError,
            >(EvmError::AbiCodec) && *final(self) == *old(self),
            spec_args_match(args@.map_values(|t: Token| t@), func@.inputs) && old(
                self,
            ).executor.handler.state.backend.backend.spec_code(to@) is None ==> r == Err::<
                (Vec<Token>, Status, u64),
                EvmError,
            >(EvmError::MissingDestinationCode) && *final(self) == *old(self),
            spec_args_match(args@.map_values(|t: Token| t@), func@.inputs) && old(
                self,
            ).executor.handler.state.backend.backend.spec_code(to@) is Some && to@
                == spec_cheatcode_address() ==> ({
                &&& (final(self).executor.handler.state.backend.cheats.block_timestamp matches
                    Some(t) && t@ == spec_w256(100))
                &&& final(self).executor.handler.state.backend.backend == old(
                    self,
                ).executor.handler.state.backend.backend
                &&& final(self).executor.handler.calls == old(self).executor.handler.calls
                &&& final(self).executor.handler.state.logs == old(
                    self,
                ).executor.handler.state.logs
                &&& final(self).executor.handler.state.deletes == old(
                    self,
                ).executor.handler.state.deletes
                &&& final(self).executor.handler.state.metadata == old(
                    self,
                ).executor.handler.state.metadata
                &&& (match eth_abi_decoded(func@.outputs, spec_cheat_output()) {
                    Some(toks) => r matches Ok(ok) && ok.0@.map_values(|t: Token| t@) == toks
                        && ok.1 == Status::Success && ok.2 == 0,
                    None => r == Err::<(Vec<Token>, Status, u64), EvmError>(EvmError::AbiCodec),
                })
            }),
            spec_args_match(args@.map_values(|t: Token| t@), func@.inputs) && old(
                self,
            ).executor.handler.state.backend.backend.spec_code(to@) is Some && to@
                != spec_cheatcode_address() ==> ({
                &&& final(self).executor.handler.state == old(self).executor.handler.state
                &&& final(self).executor.handler.calls@.len() == old(
                    self,
                ).executor.handler.calls@.len() + 1
                &&& final(self).executor.handler.calls@.take(
                    old(self).executor.handler.calls@.len() as int,
                ) == old(self).executor.handler.calls@
                &&& ({
                    let rec = final(self).executor.handler.calls@.last();
                    &&& rec.code_address@ == to@
                    &&& (rec.transfer matches Some(t) && t.source@ == from@ && t.target@ == to@
                        && t.value@ == value@)
                    &&& rec.input@ == spec_calldata(func@, args@.map_values(|t: Token| t@))
                    &&& rec.target_gas == Some(old(self).gas_limit)
                    &&& rec.is_static == spec_is_static(func@)
                    &&& rec.context.address@ == to@
                    &&& rec.context.caller@ == from@
                    &&& rec.context.apparent_value@ == value@
                })
                &&& (match eth_abi_decoded(func@.outputs, Seq::<u8>::empty()) {
                    Some(toks) => r matches Ok(ok) && ok.0@.map_values(|t: Token| t@) == toks
                        && ok.1 == Status::Success && ok.2 == 0,
                    None => r == Err::<(Vec<Token>, Status, u64), EvmError>(EvmError::AbiCodec),
                })
            }),
    {
        if !args_match(&args, &func.inputs) {
            return Err(EvmError::AbiCodec);
        }
        let calldata = encode_calldata(func, &args);
        let is_static = func.is_static();
        let has_code = match self.executor.handler.state.get_code(&to) {
            Some(_) => true,
            None => false,
        };
        if !has_code {
            return Err(EvmError::MissingDestinationCode);
        }
        let transfer = Transfer { source: from, target: to, value };
        let context = Context { address: to, caller: from, apparent_value: value };
        let (status, output) = self.executor.call(
            to,
            Some(transfer),
            calldata,
            Some(self.gas_limit),
            is_static,
            context,
        );
        match decode_output(func, &output) {
            Some(tokens) => Ok((tokens, status, 0u64)),
            None => Err(EvmError::AbiCodec),
        }
    }
}

} // verus!
