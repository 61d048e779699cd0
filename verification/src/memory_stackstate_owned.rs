use crate::abi::keccak_of;
use crate::backend::CheatcodeBackend;
use crate::host::{spec_meta_preserved, HostExt};
use crate::types::{Address, Log};
use vstd::prelude::*;

verus! {

/// Per-transaction execution metadata. Gas is not metered by this
/// library: the limit is carried through unchanged.
pub struct StackSubstateMetadata {
    pub gas_limit: u64,
}

impl StackSubstateMetadata {
    pub fn new(gas_limit: u64) -> (m: StackSubstateMetadata)
        ensures
            m.gas_limit == gas_limit,
    {
        StackSubstateMetadata { gas_limit }
    }
}

/// Execution state held by exclusive ownership rather than by borrow,
/// so that cheat processing — which runs in the middle of a call,
/// inside the interception handler — can mutate the backend and have
/// the mutation visible to the rest of the same call tree and to later
/// calls.
pub struct MemoryStackStateOwned {
    pub backend: CheatcodeBackend,
    pub metadata: StackSubstateMetadata,
    pub logs: Vec<Log>,
    pub deletes: Vec<Address>,
}

impl MemoryStackStateOwned {
    pub fn new(metadata: StackSubstateMetadata, backend: CheatcodeBackend) -> (s:
        MemoryStackStateOwned)
        ensures
            s.backend == backend,
            s.metadata == metadata,
            s.logs@.len() == 0,
            s.deletes@.len() == 0,
    {
        MemoryStackStateOwned { backend, metadata, logs: Vec::new(), deletes: Vec::new() }
    }

    /// Whether an address has been marked for deletion.
    pub open spec fn spec_deleted(self, a: Seq<u8>) -> bool {
        exists|i: int| 0 <= i < self.deletes@.len() && self.deletes@[i]@ == a
    }

    /// Installs code in the owned backend; metadata, logs and deletion
    /// marks are untouched.
    pub fn install_code(&mut self, address: Address, code: Vec<u8>)
        requires
            old(self).backend.backend.spec_inv(),
        ensures
            final(self).backend.backend.spec_inv(),
            final(self).metadata == old(self).metadata,
            final(self).logs == old(self).logs,
            final(self).deletes == old(self).deletes,
            final(self).backend.cheats == old(self).backend.cheats,
            final(self).backend.backend.env == old(self).backend.backend.env,
            forall|x: Seq<u8>| #[trigger] final(self).backend.backend.spec_code(x) == (if x
                == address@ {
                Some(code@)
            } else {
                old(self).backend.backend.spec_code(x)
            }),
            forall|x: Seq<u8>| x != address@
                ==> #[trigger] final(self).backend.backend.accounts.spec_get(x)
                == old(self).backend.backend.accounts.spec_get(x),
            final(self).backend.backend.accounts.spec_get(address@) matches Some(acct)
                && acct.code@ == code@ && acct.code_hash@ == keccak_of(code@)
                && spec_meta_preserved(old(self).backend.backend.accounts.spec_get(address@), acct),
    {
        self.backend.install_code(address, code)
    }
}

impl HostExt for MemoryStackStateOwned {
    open spec fn spec_code(self, address: Seq<u8>) -> Option<Seq<u8>> {
        self.backend.spec_code(address)
    }

    open spec fn spec_account(self, address: Seq<u8>) -> Option<crate::host::Account> {
        self.backend.spec_account(address)
    }

    open spec fn inv(self) -> bool {
        self.backend.inv()
    }

    fn get_code(&self, address: &Address) -> (r: Option<&Vec<u8>>) {
        self.backend.get_code(address)
    }

    fn set_code(&mut self, address: Address, code: Vec<u8>) {
        self.backend.set_code(address, code)
    }
}

} // verus!
