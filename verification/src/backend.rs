use crate::abi::{keccak256, keccak_of};
use crate::assoc::AssocVec;
use crate::host::{spec_meta_preserved, Account, HostExt};
use crate::types::{copy_bytes, spec_w256, Address, W256};
use vstd::prelude::*;

verus! {

/// The block-level context a backend serves to the engine.
pub struct BlockEnv {
    pub gas_price: W256,
    pub origin: Address,
    pub chain_id: W256,
    pub block_hashes: Vec<W256>,
    pub block_number: W256,
    pub block_coinbase: Address,
    pub block_timestamp: W256,
    pub block_difficulty: W256,
    pub block_gas_limit: W256,
}

/// A vector of 32 zero bytes: the hash reported for absent accounts.
pub open spec fn spec_zero_hash() -> Seq<u8> {
    Seq::new(32, |i: int| 0u8)
}

pub(crate) fn zero_hash() -> (r: Vec<u8>)
    ensures
        r@ == spec_zero_hash(),
{
    let mut r: Vec<u8> = Vec::new();
    let mut i: usize = 0;
    while i < 32
        invariant
            0 <= i <= 32,
            r@ =~= Seq::new(i as nat, |j: int| 0u8),
        decreases 32 - i,
    {
        r.push(0u8);
        proof {
            assert(r@ =~= Seq::new((i + 1) as nat, |j: int| 0u8));
        }
        i += 1;
    }
    proof {
        assert(r@ =~= spec_zero_hash());
    }
    r
}

/// The native in-memory backend: the full account set of one chain
/// snapshot together with its block context.
pub struct MemoryBackend {
    pub env: BlockEnv,
    pub accounts: AssocVec<Address, Account>,
}

impl MemoryBackend {
    /// Every stored account carries the digest of its own code, and the
    /// account list binds each address once.
    pub open spec fn spec_inv(self) -> bool {
        self.accounts.nodup() && (forall|x: Seq<u8>|
            #[trigger] self.accounts.spec_get(x) matches Some(a) ==> a.wf())
    }

    /// The balance stored at an address view; zero for absent accounts.
    pub open spec fn spec_balance(self, a: Seq<u8>) -> Seq<u64> {
        match self.accounts.spec_get(a) {
            Some(acct) => acct.balance@,
            None => spec_w256(0),
        }
    }

    /// The code stored at an address view; empty for absent accounts.
    pub open spec fn spec_code_bytes(self, a: Seq<u8>) -> Seq<u8> {
        match self.accounts.spec_get(a) {
            Some(acct) => acct.code@,
            None => Seq::empty(),
        }
    }

    /// The code hash stored at an address view; all-zero for absent
    /// accounts.
    pub open spec fn spec_code_hash(self, a: Seq<u8>) -> Seq<u8> {
        match self.accounts.spec_get(a) {
            Some(acct) => acct.code_hash@,
            None => spec_zero_hash(),
        }
    }

    /// The storage value of one slot; zero for absent accounts or
    /// unwritten slots.
    pub open spec fn spec_storage(self, a: Seq<u8>, k: Seq<u64>) -> Seq<u64> {
        match self.accounts.spec_get(a) {
            Some(acct) => match acct.storage.spec_get(k) {
                Some(v) => v@,
                None => spec_w256(0),
            },
            None => spec_w256(0),
        }
    }

    /// Whether an account is registered at an address view.
    pub open spec fn spec_exists(self, a: Seq<u8>) -> bool {
        self.accounts.spec_get(a) is Some
    }

    /// The recorded hash of a block number; zero outside the recorded
    /// range.
    pub open spec fn spec_block_hash(self, n: Seq<u64>) -> Seq<u64> {
        if n.len() == 4 && n[1] == 0 && n[2] == 0 && n[3] == 0 && n[0]
            < self.env.block_hashes@.len() {
            self.env.block_hashes@[n[0] as int]@
        } else {
            spec_w256(0)
        }
    }

    pub fn new(env: BlockEnv) -> (b: MemoryBackend)
        ensures
            b.spec_inv(),
            b.env == env,
            forall|x: Seq<u8>| b.accounts.spec_get(x) is None,
    {
        MemoryBackend { env, accounts: AssocVec::new() }
    }

    pub fn balance(&self, address: &Address) -> (r: W256)
        ensures
            r@ == self.spec_balance(address@),
    {
        match self.accounts.get(address) {
            Some(acct) => acct.balance,
            None => W256::zero(),
        }
    }

    pub fn code_bytes(&self, address: &Address) -> (r: Vec<u8>)
        ensures
            r@ == self.spec_code_bytes(address@),
    {
        match self.accounts.get(address) {
            Some(acct) => copy_bytes(&acct.code),
            None => Vec::new(),
        }
    }

    pub fn code_hash(&self, address: &Address) -> (r: Vec<u8>)
        ensures
            r@ == self.spec_code_hash(address@),
    {
        match self.accounts.get(address) {
            Some(acct) => copy_bytes(&acct.code_hash),
            None => zero_hash(),
        }
    }

    pub fn storage(&self, address: &Address, index: &W256) -> (r: W256)
        ensures
            r@ == self.spec_storage(address@, index@),
    {
        match self.accounts.get(address) {
            Some(acct) => match acct.storage.get(index) {
                Some(v) => *v,
                None => W256::zero(),
            },
            None => W256::zero(),
        }
    }

    pub fn account_exists(&self, address: &Address) -> (r: bool)
        ensures
            r == self.spec_exists(address@),
    {
        match self.accounts.get(address) {
            Some(_) => true,
            None => false,
        }
    }

    pub fn block_hash(&self, number: &W256) -> (r: W256)
        ensures
            r@ == self.spec_block_hash(number@),
    {
        match number.as_u64_checked() {
            Some(n) => {
                if n < (self.env.block_hashes.len() as u64) {
                    self.env.block_hashes[n as usize]
                } else {
                    W256::zero()
                }
            },
            None => W256::zero(),
        }
    }

    /// Installs `code` at `address`, creating the account if absent and
    /// computing the stored content hash. Nonce, balance and storage of
    /// an existing account are not set; a created account starts zeroed
    /// and empty; the block context is not touched.
    pub fn install_code(&mut self, address: Address, code: Vec<u8>)
        requires
            old(self).spec_inv(),
        ensures
            final(self).spec_inv(),
            final(self).env == old(self).env,
            forall|x: Seq<u8>| #[trigger] final(self).spec_code(x) == (if x == address@ {
                Some(code@)
            } else {
                old(self).spec_code(x)
            }),
            forall|x: Seq<u8>| x != address@ ==> #[trigger] final(self).accounts.spec_get(x)
                == old(self).accounts.spec_get(x),
            final(self).accounts.spec_get(address@) matches Some(acct) && acct.code@ == code@
                && acct.code_hash@ == keccak_of(code@) && spec_meta_preserved(
                old(self).accounts.spec_get(address@),
                acct,
            ),
    {
        let hash = keccak256(&code);
        let (nonce, balance, storage) = match self.accounts.remove(&address) {
            Some(a) => (a.nonce, a.balance, a.storage),
            None => (0u64, W256::zero(), AssocVec::new()),
        };
        let account = Account { nonce, balance, code, code_hash: hash, storage };
        self.accounts.upsert(address, account);
    }

    /// Writes one storage slot, creating an (empty-code) account when
    /// none is registered at the address.
    pub fn set_storage(&mut self, address: Address, index: W256, value: W256)
        requires
            old(self).spec_inv(),
        ensures
            final(self).spec_inv(),
            final(self).env == old(self).env,
            forall|a: Seq<u8>, k: Seq<u64>|
                #[trigger] final(self).spec_storage(a, k) == (if a == address@ && k == index@ {
                    value@
                } else {
                    old(self).spec_storage(a, k)
                }),
            forall|a: Seq<u8>| a != address@ ==> #[trigger] final(self).accounts.spec_get(a)
                == old(self).accounts.spec_get(a),
            forall|a: Seq<u8>| #[trigger] final(self).spec_balance(a) == old(self).spec_balance(a),
            forall|a: Seq<u8>| #[trigger] final(self).spec_code_bytes(a) == old(
                self,
            ).spec_code_bytes(a),
            final(self).spec_exists(address@),
    {
        let mut acct = match self.accounts.remove(&address) {
            Some(a) => a,
            None => {
                let code: Vec<u8> = Vec::new();
                let code_hash = keccak256(&code);
                Account {
                    nonce: 0,
                    balance: W256::zero(),
                    code,
                    code_hash,
                    storage: AssocVec::new(),
                }
            },
        };
        acct.storage.upsert(index, value);
        self.accounts.upsert(address, acct);
    }
}

impl HostExt for MemoryBackend {
    open spec fn spec_code(self, address: Seq<u8>) -> Option<Seq<u8>> {
        match self.accounts.spec_get(address) {
            Some(a) => Some(a.code@),
            None => None,
        }
    }

    open spec fn spec_account(self, address: Seq<u8>) -> Option<Account> {
        self.accounts.spec_get(address)
    }

    open spec fn inv(self) -> bool {
        self.spec_inv()
    }

    fn get_code(&self, address: &Address) -> (r: Option<&Vec<u8>>) {
        match self.accounts.get(address) {
            Some(a) => Some(&a.code),
            None => None,
        }
    }

    fn set_code(&mut self, address: Address, code: Vec<u8>) {
        self.install_code(address, code)
    }
}

/// Code visible at an address always sits beside its own digest, in the
/// native backend as in the plain host.
pub proof fn lemma_backend_code_hash_matches(b: MemoryBackend, a: Seq<u8>)
    requires
        b.spec_inv(),
        b.spec_code(a) is Some,
    ensures
        b.accounts.spec_get(a) matches Some(acct) && Some(acct.code@) == b.spec_code(a)
            && acct.code_hash@ == keccak_of(acct.code@) && b.spec_code_hash(a) == keccak_of(
            acct.code@,
        ),
{
}

/// The sparse cheat context: optional overrides layered over a native
/// backend. An unset field falls through to the native value.
pub struct Cheatcodes {
    pub block_timestamp: Option<W256>,
}

impl Default for Cheatcodes {
    /// No override set.
    fn default() -> (c: Cheatcodes)
        ensures
            c.block_timestamp is None,
    {
        Cheatcodes { block_timestamp: None }
    }
}

/// A backend that layers the cheat context over a native backend: reads
/// of an overridden context value return the override; everything else
/// is the native backend's answer, bit for bit.
pub struct CheatcodeBackend {
    pub backend: MemoryBackend,
    pub cheats: Cheatcodes,
}

impl CheatcodeBackend {
    /// The timestamp the engine sees: the override when one is set, the
    /// native value otherwise.
    pub open spec fn spec_timestamp(self) -> Seq<u64> {
        match self.cheats.block_timestamp {
            Some(t) => t@,
            None => self.backend.env.block_timestamp@,
        }
    }

    pub fn block_timestamp(&self) -> (r: W256)
        ensures
            r@ == self.spec_timestamp(),
    {
        match &self.cheats.block_timestamp {
            Some(t) => *t,
            None => self.backend.env.block_timestamp,
        }
    }

    /// Installs code through the cheat layer: the write goes to the
    /// native backend; the cheat context is untouched.
    pub fn install_code(&mut self, address: Address, code: Vec<u8>)
        requires
            old(self).backend.spec_inv(),
        ensures
            final(self).backend.spec_inv(),
            final(self).cheats == old(self).cheats,
            final(self).backend.env == old(self).backend.env,
            forall|x: Seq<u8>| #[trigger] final(self).backend.spec_code(x) == (if x == address@ {
                Some(code@)
            } else {
                old(self).backend.spec_code(x)
            }),
            forall|x: Seq<u8>| x != address@ ==> #[trigger] final(self).backend.accounts.spec_get(
                x,
            ) == old(self).backend.accounts.spec_get(x),
            final(self).backend.accounts.spec_get(address@) matches Some(acct) && acct.code@
                == code@ && acct.code_hash@ == keccak_of(code@) && spec_meta_preserved(
                old(self).backend.accounts.spec_get(address@),
                acct,
            ),
    {
        self.backend.install_code(address, code)
    }
}

impl HostExt for CheatcodeBackend {
    open spec fn spec_code(self, address: Seq<u8>) -> Option<Seq<u8>> {
        self.backend.spec_code(address)
    }

    open spec fn spec_account(self, address: Seq<u8>) -> Option<Account> {
        self.backend.spec_account(address)
    }

    open spec fn inv(self) -> bool {
        self.backend.inv()
    }

    fn get_code(&self, address: &Address) -> (r: Option<&Vec<u8>>) {
        self.backend.get_code(address)
    }

    fn set_code(&mut self, address: Address, code: Vec<u8>) {
        self.backend.set_code(address, code)
    }
}

} // verus!
