use crate::abi::{keccak256, keccak_of};
use crate::assoc::AssocVec;
use crate::types::{
    copy_bytes, Address, ExecutionResult, Message, MessageV, ResultV, Revision, Status, W256,
};
use vstd::prelude::*;

verus! {

/// One account: nonce, balance, installed code with its content hash,
/// and the 256-bit storage mapping.
pub struct Account {
    pub nonce: u64,
    pub balance: W256,
    pub code: Vec<u8>,
    pub code_hash: Vec<u8>,
    pub storage: AssocVec<W256, W256>,
}

impl Account {
    /// The stored content hash is the digest of the stored code, and
    /// the storage mapping binds each slot once.
    pub open spec fn wf(self) -> bool {
        self.code_hash@ == keccak_of(self.code@) && self.storage.nodup()
    }
}

/// How installing code treats the rest of an account: over an existing
/// account the new account keeps the old nonce, balance and storage
/// untouched; where none existed, the new account starts with nonce
/// zero, zero balance, and empty storage.
pub open spec fn spec_meta_preserved(prev: Option<Account>, acct: Account) -> bool {
    match prev {
        Some(p) => acct.nonce == p.nonce && acct.balance == p.balance && acct.storage
            == p.storage,
        None => acct.nonce == 0 && acct.balance@ == crate::types::spec_w256(0)
            && acct.storage.entries@.len() == 0 && (forall|k: Seq<u64>|
            acct.storage.spec_get(k) is None),
    }
}

/// The code-storage seam every pluggable engine backend must support:
/// reading and writing code at an address.
pub trait HostExt: Sized {
    /// The code installed at an address view, if any; `None` means no
    /// contract lives there.
    spec fn spec_code(self, address: Seq<u8>) -> Option<Seq<u8>>;

    /// The account registered at an address view, if any: the model of
    /// everything the host stores there.
    spec fn spec_account(self, address: Seq<u8>) -> Option<Account>;

    /// Internal well-formedness that every operation preserves.
    spec fn inv(self) -> bool;

    /// The bytecode at the given address, `None` if the address is not
    /// a contract account.
    fn get_code(&self, address: &Address) -> (r: Option<&Vec<u8>>)
        requires
            self.inv(),
        ensures
            match r {
                Some(c) => self.spec_code(address@) == Some(c@),
                None => self.spec_code(address@) is None,
            };

    /// Installs `code` at `address`, creating the account if absent and
    /// computing the stored content hash. Nonce, balance and storage of
    /// an existing account are not set; a created account starts zeroed
    /// and empty. No other account changes.
    fn set_code(&mut self, address: Address, code: Vec<u8>)
        requires
            old(self).inv(),
        ensures
            final(self).inv(),
            forall|x: Seq<u8>| #[trigger] final(self).spec_code(x) == (if x == address@ {
                Some(code@)
            } else {
                old(self).spec_code(x)
            }),
            forall|x: Seq<u8>| x != address@ ==> #[trigger] final(self).spec_account(x) == old(
                self,
            ).spec_account(x),
            final(self).spec_account(address@) matches Some(acct) && acct.code@ == code@
                && acct.code_hash@ == keccak_of(code@) && spec_meta_preserved(
                old(self).spec_account(address@),
                acct,
            ),
    ;
}

/// A plain in-memory host: the full account set of one chain snapshot.
pub struct InMemoryHost {
    pub accounts: AssocVec<Address, Account>,
}

impl InMemoryHost {
    /// Every stored account carries the digest of its own code, and the
    /// account list binds each address once.
    pub open spec fn spec_inv(self) -> bool {
        self.accounts.nodup() && (forall|x: Seq<u8>| #[trigger] self.accounts.spec_get(x) matches Some(a)
            ==> a.wf())
    }

    pub fn new() -> (h: InMemoryHost)
        ensures
            h.inv(),
            forall|x: Seq<u8>| h.spec_code(x) is None,
    {
        InMemoryHost { accounts: AssocVec::new() }
    }
}

impl HostExt for InMemoryHost {
    open spec fn spec_code(self, address: Seq<u8>) -> Option<Seq<u8>> {
        match self.accounts.spec_get(address) {
            Some(a) => Some(a.code@),
            None => None,
        }
    }

    open spec fn spec_account(self, address: Seq<u8>) -> Option<Account> {
        self.accounts.spec_get(address)
    }

    open spec fn inv(self) -> bool {
        self.spec_inv()
    }

    fn get_code(&self, address: &Address) -> (r: Option<&Vec<u8>>) {
        match self.accounts.get(address) {
            Some(a) => Some(&a.code),
            None => None,
        }
    }

    fn set_code(&mut self, address: Address, code: Vec<u8>) {
        let hash = keccak256(&code);
        let (nonce, balance, storage) = match self.accounts.remove(&address) {
            Some(a) => (a.nonce, a.balance, a.storage),
            None => (0u64, W256::zero(), AssocVec::new()),
        };
        let account = Account { nonce, balance, code, code_hash: hash, storage };
        self.accounts.upsert(address, account);
    }
}

/// Code visible at an address always sits beside its own digest: a
/// well-formed host that shows code at an address stores the Keccak-256
/// digest of exactly that code with it.
pub proof fn lemma_code_hash_matches(h: InMemoryHost, a: Seq<u8>)
    requires
        h.spec_inv(),
        h.spec_code(a) is Some,
    ensures
        h.spec_account(a) matches Some(acct) && Some(acct.code@) == h.spec_code(a)
            && acct.code_hash@ == keccak_of(acct.code@),
{
}

/// An execution engine: interprets the code reachable through the host
/// for one message, under one revision. Engines are deterministic: one
/// spec-level step function fixes what `execute` does, and every engine
/// preserves the host's well-formedness.
pub trait Engine<S: HostExt>: Sized {
    /// The engine's step: from its own state, the host, a message view
    /// and a revision to the successor engine, successor host, and the
    /// result's view.
    spec fn next(self, host: S, msg: MessageV, revision: Revision) -> (Self, S, ResultV);

    /// Runs one message to completion.
    fn execute(&mut self, host: &mut S, msg: Message, revision: Revision) -> (r: ExecutionResult)
        ensures
            (*final(self), *final(host), r@) == (*old(self)).next(*old(host), msg@, revision),
            old(host).inv() ==> final(host).inv(),
    ;
}

/// An engine that halts at once with a configured status and output,
/// consuming no gas and leaving the host untouched. Bytecode
/// interpretation is outside this library; this engine stands in for an
/// interpreter wherever only the adapter layers are under study.
pub struct FixedEngine {
    pub status: Status,
    pub output: Vec<u8>,
}

impl FixedEngine {
    pub fn new(status: Status, output: Vec<u8>) -> (e: FixedEngine)
        ensures
            e.status == status,
            e.output == output,
    {
        FixedEngine { status, output }
    }
}

impl<S: HostExt> Engine<S> for FixedEngine {
    open spec fn next(self, host: S, msg: MessageV, revision: Revision) -> (Self, S, ResultV) {
        (self, host, ResultV { status: self.status, output: self.output@, gas_used: 0 })
    }

    fn execute(&mut self, host: &mut S, msg: Message, revision: Revision) -> (r: ExecutionResult) {
        ExecutionResult { status: self.status, output: copy_bytes(&self.output), gas_used: 0 }
    }
}

} // verus!
