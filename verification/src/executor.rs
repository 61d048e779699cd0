use crate::memory_stackstate_owned::MemoryStackStateOwned;
use crate::types::{spec_w256, Address, Log, Status, W256};
use vstd::prelude::*;

verus! {

/// A balance transfer attached to a call.
pub struct Transfer {
    pub source: Address,
    pub target: Address,
    pub value: W256,
}

/// The execution context of a call: the address whose storage is
/// touched, the caller, and the apparent value.
pub struct Context {
    pub address: Address,
    pub caller: Address,
    pub apparent_value: W256,
}

/// How a contract-creation address is derived.
pub enum CreateScheme {
    Legacy { caller: Address },
    Create2 { caller: Address, salt: W256 },
    Fixed(Address),
}

/// One opcode, for pre-validation.
pub struct Opcode(pub u8);

/// Errors the state-changing operations can report.
#[derive(Clone, Copy, Debug, PartialEq, Eq, Structural)]
pub enum ExitError {
    OutOfGas,
}

/// The arguments of one call the executor was asked to run, recorded
/// verbatim.
pub struct CallRecord {
    pub code_address: Address,
    pub transfer: Option<Transfer>,
    pub input: Vec<u8>,
    pub target_gas: Option<u64>,
    pub is_static: bool,
    pub context: Context,
}

/// The native call/state interface: serves every state and context read
/// from the owned (cheat-layered) state, applies writes to it, and
/// records each call it is asked to run. Bytecode interpretation is
/// outside this library, so a recorded call halts at once with success
/// and empty output.
pub struct StackExecutor {
    pub state: MemoryStackStateOwned,
    pub calls: Vec<CallRecord>,
}

impl StackExecutor {
    pub fn new(state: MemoryStackStateOwned) -> (e: StackExecutor)
        ensures
            e.state == state,
            e.calls@.len() == 0,
    {
        StackExecutor { state, calls: Vec::new() }
    }

    /// Exclusive access to the owned state, for callers that must
    /// mutate it mid-call.
    pub fn state_mut(&mut self) -> (r: &mut MemoryStackStateOwned)
        ensures
            *r == old(self).state,
            final(self).state == *final(r),
            final(self).calls == old(self).calls,
    {
        &mut self.state
    }

    pub fn balance(&self, address: Address) -> (r: W256)
        ensures
            r@ == self.state.backend.backend.spec_balance(address@),
    {
        self.state.backend.backend.balance(&address)
    }

    pub fn code_size(&self, address: Address) -> (r: W256)
        ensures
            r@ == spec_w256(self.state.backend.backend.spec_code_bytes(address@).len() as u64),
    {
        let code = self.state.backend.backend.code_bytes(&address);
        W256::from_u64(code.len() as u64)
    }

    pub fn code_hash(&self, address: Address) -> (r: Vec<u8>)
        ensures
            r@ == self.state.backend.backend.spec_code_hash(address@),
    {
        self.state.backend.backend.code_hash(&address)
    }

    pub fn code(&self, address: Address) -> (r: Vec<u8>)
        ensures
            r@ == self.state.backend.backend.spec_code_bytes(address@),
    {
        self.state.backend.backend.code_bytes(&address)
    }

    pub fn storage(&self, address: Address, index: W256) -> (r: W256)
        ensures
            r@ == self.state.backend.backend.spec_storage(address@, index@),
    {
        self.state.backend.backend.storage(&address, &index)
    }

    /// The value a slot held before the current transaction. Writes are
    /// applied to the backend directly here, so this is the same as
    /// `storage`.
    pub fn original_storage(&self, address: Address, index: W256) -> (r: W256)
        ensures
            r@ == self.state.backend.backend.spec_storage(address@, index@),
    {
        self.state.backend.backend.storage(&address, &index)
    }

    /// Gas is not metered: the whole budget is always reported left.
    pub fn gas_left(&self) -> (r: W256)
        ensures
            r@ == spec_w256(self.state.metadata.gas_limit),
    {
        W256::from_u64(self.state.metadata.gas_limit)
    }

    pub fn gas_price(&self) -> (r: W256)
        ensures
            r@ == self.state.backend.backend.env.gas_price@,
    {
        self.state.backend.backend.env.gas_price
    }

    pub fn origin(&self) -> (r: Address)
        ensures
            r@ == self.state.backend.backend.env.origin@,
    {
        self.state.backend.backend.env.origin
    }

    pub fn block_hash(&self, number: W256) -> (r: W256)
        ensures
            r@ == self.state.backend.backend.spec_block_hash(number@),
    {
        self.state.backend.backend.block_hash(&number)
    }

    pub fn block_number(&self) -> (r: W256)
        ensures
            r@ == self.state.backend.backend.env.block_number@,
    {
        self.state.backend.backend.env.block_number
    }

    pub fn block_coinbase(&self) -> (r: Address)
        ensures
            r@ == self.state.backend.backend.env.block_coinbase@,
    {
        self.state.backend.backend.env.block_coinbase
    }

    /// The timestamp the engine sees goes through the cheat layer: an
    /// override wins over the native block context.
    pub fn block_timestamp(&self) -> (r: W256)
        ensures
            r@ == self.state.backend.spec_timestamp(),
    {
        self.state.backend.block_timestamp()
    }

    pub fn block_difficulty(&self) -> (r: W256)
        ensures
            r@ == self.state.backend.backend.env.block_difficulty@,
    {
        self.state.backend.backend.env.block_difficulty
    }

    pub fn block_gas_limit(&self) -> (r: W256)
        ensures
            r@ == self.state.backend.backend.env.block_gas_limit@,
    {
        self.state.backend.backend.env.block_gas_limit
    }

    pub fn chain_id(&self) -> (r: W256)
        ensures
            r@ == self.state.backend.backend.env.chain_id@,
    {
        self.state.backend.backend.env.chain_id
    }

    pub fn account_exists(&self, address: Address) -> (r: bool)
        ensures
            r == self.state.backend.backend.spec_exists(address@),
    {
        self.state.backend.backend.account_exists(&address)
    }

    pub fn deleted(&self, address: Address) -> (r: bool)
        ensures
            r == self.state.spec_deleted(address@),
    {
        let mut i: usize = 0;
        while i < self.state.deletes.len()
            invariant
                0 <= i <= self.state.deletes@.len(),
                forall|j: int| 0 <= j < i ==> self.state.deletes@[j]@ != address@,
            decreases self.state.deletes@.len() - i,
        {
            if self.state.deletes[i].equals(&address) {
                return true;
            }
            i += 1;
        }
        false
    }

    /// Cold-access tracking is not modeled: every access reads as warm.
    pub fn is_cold(&self, address: Address, index: Option<W256>) -> (r: bool)
        ensures
            r == false,
    {
        false
    }

    pub fn set_storage(&mut self, address: Address, index: W256, value: W256) -> (r: Result<
        (),
        ExitError,
    >)
        requires
            old(self).state.backend.backend.spec_inv(),
        ensures
            r is Ok,
            final(self).state.backend.backend.spec_inv(),
            final(self).calls == old(self).calls,
            final(self).state.metadata == old(self).state.metadata,
            final(self).state.logs == old(self).state.logs,
            final(self).state.deletes == old(self).state.deletes,
            final(self).state.backend.cheats == old(self).state.backend.cheats,
            final(self).state.backend.backend.env == old(self).state.backend.backend.env,
            forall|a: Seq<u8>, k: Seq<u64>|
                #[trigger] final(self).state.backend.backend.spec_storage(a, k) == (if a
                    == address@ && k == index@ {
                    value@
                } else {
                    old(self).state.backend.backend.spec_storage(a, k)
                }),
            forall|a: Seq<u8>| #[trigger] final(self).state.backend.backend.spec_code_bytes(a)
                == old(self).state.backend.backend.spec_code_bytes(a),
            forall|a: Seq<u8>| #[trigger] final(self).state.backend.backend.spec_balance(a)
                == old(self).state.backend.backend.spec_balance(a),
    {
        self.state.backend.backend.set_storage(address, index, value);
        Ok(())
    }

    pub fn log(&mut self, address: Address, topics: Vec<W256>, data: Vec<u8>) -> (r: Result<
        (),
        ExitError,
    >)
        ensures
            r is Ok,
            final(self).state.logs@ == old(self).state.logs@.push(
                Log { address, topics, data },
            ),
            final(self).calls == old(self).calls,
            final(self).state.backend == old(self).state.backend,
            final(self).state.metadata == old(self).state.metadata,
            final(self).state.deletes == old(self).state.deletes,
    {
        self.state.logs.push(Log { address, topics, data });
        Ok(())
    }

    pub fn mark_delete(&mut self, address: Address, target: Address) -> (r: Result<(), ExitError>)
        ensures
            r is Ok,
            final(self).state.deletes@ == old(self).state.deletes@.push(address),
            final(self).calls == old(self).calls,
            final(self).state.backend == old(self).state.backend,
            final(self).state.metadata == old(self).state.metadata,
            final(self).state.logs == old(self).state.logs,
    {
        self.state.deletes.push(address);
        Ok(())
    }

    /// Contract creation needs bytecode execution, which is outside
    /// this library: the request is refused with a failure status and
    /// nothing changes.
    pub fn create(
        &mut self,
        caller: Address,
        scheme: CreateScheme,
        value: W256,
        init_code: Vec<u8>,
        target_gas: Option<u64>,
    ) -> (r: (Status, Option<Address>, Vec<u8>))
        ensures
            *final(self) == *old(self),
            r.0 == Status::Failure,
            r.1 is None,
            r.2@ == Seq::<u8>::empty(),
    {
        (Status::Failure, None, Vec::new())
    }

    /// Gas is not metered, so every opcode passes pre-validation.
    pub fn pre_validate(&mut self, context: &Context, opcode: Opcode, stack: &Vec<W256>) -> (r:
        Result<(), ExitError>)
        ensures
            r is Ok,
            *final(self) == *old(self),
    {
        Ok(())
    }

    /// The native call path: records the call's arguments verbatim and
    /// halts at once with success and empty output, touching no state.
    pub fn call(
        &mut self,
        code_address: Address,
        transfer: Option<Transfer>,
        input: Vec<u8>,
        target_gas: Option<u64>,
        is_static: bool,
        context: Context,
    ) -> (r: (Status, Vec<u8>))
        ensures
            final(self).state == old(self).state,
            final(self).calls@ == old(self).calls@.push(
                CallRecord { code_address, transfer, input, target_gas, is_static, context },
            ),
            r.0 == Status::Success,
            r.1@ == Seq::<u8>::empty(),
    {
        self.calls.push(CallRecord { code_address, transfer, input, target_gas, is_static, context });
        (Status::Success, Vec::new())
    }

    /// Runs one top-level transaction: a call from `caller` to
    /// `address`, carrying `value` and `data`, under `gas_limit`.
    pub fn transact_call(
        &mut self,
        caller: Address,
        address: Address,
        value: W256,
        data: Vec<u8>,
        gas_limit: u64,
        access_list: Vec<(Address, Vec<W256>)>,
    ) -> (r: (Status, Vec<u8>))
        ensures
            final(self).state == old(self).state,
            final(self).calls@.len() == old(self).calls@.len() + 1,
            final(self).calls@.take(old(self).calls@.len() as int) == old(self).calls@,
            ({
                let rec = final(self).calls@.last();
                rec.code_address == address && (rec.transfer matches Some(t) && t.source == caller
                    && t.target == address && t.value == value) && rec.input == data
                    && rec.target_gas == Some(gas_limit) && rec.is_static == false
                    && rec.context.address == address && rec.context.caller == caller
                    && rec.context.apparent_value == value
            }),
            r.0 == Status::Success,
            r.1@ == Seq::<u8>::empty(),
    {
        let transfer = Transfer { source: caller, target: address, value };
        let context = Context { address, caller, apparent_value: value };
        let r = self.call(address, Some(transfer), data, Some(gas_limit), false, context);
        proof {
            assert(self.calls@.take(old(self).calls@.len() as int) =~= old(self).calls@);
        }
        r
    }
}

} // verus!
