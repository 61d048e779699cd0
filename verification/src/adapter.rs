use crate::abi::{
    args_match, decode_output, encode_calldata, eth_abi_decoded, spec_args_match, spec_calldata,
};
use crate::host::{spec_meta_preserved, Engine, HostExt};
use crate::types::{
    copy_bytes, spec_is_static, spec_w256, spec_zero_address, Address, CallKind, EvmError,
    FunctionAbi, FunctionAbiV, Message, MessageV, Mutability, ParamKind, Revision, Status, Token,
    TokenV, W256,
};
use vstd::prelude::*;

verus! {

/// The execution message `call` hands to the engine: fresh for every
/// invocation, static exactly for view/pure (or constant) functions.
pub open spec fn spec_build_message(
    from: Seq<u8>,
    to: Seq<u8>,
    kind: Option<CallKind>,
    calldata: Seq<u8>,
    value: Seq<u64>,
    gas_limit: u64,
    f: FunctionAbiV,
) -> MessageV {
    MessageV {
        sender: from,
        destination: to,
        depth: 0,
        kind: match kind {
            Some(k) => k,
            None => CallKind::Call,
        },
        input_data: calldata,
        value: value,
        gas: gas_limit,
        is_static: spec_is_static(f),
    }
}

/// The execution message is static exactly when the function is
/// declared view or pure (or marked constant), whatever else the call
/// carries.
pub proof fn lemma_message_static_flag(
    from: Seq<u8>,
    to: Seq<u8>,
    kind: Option<CallKind>,
    calldata: Seq<u8>,
    value: Seq<u64>,
    gas_limit: u64,
    f: FunctionAbiV,
)
    ensures
        spec_build_message(from, to, kind, calldata, value, gas_limit, f).is_static
            == spec_is_static(f),
        !f.constant ==> spec_build_message(from, to, kind, calldata, value, gas_limit, f).is_static
            == (f.state_mutability == Mutability::View || f.state_mutability == Mutability::Pure),
{
}

/// Test-assertion classification of an engine status. With no failure
/// expected, exactly a normal success passes. With a failure expected,
/// a revert passes, a normal success passes exactly when the target's
/// failure flag is unset, and anything else fails.
pub open spec fn spec_classify(status: Status, should_fail: bool, failed_flag: bool) -> bool {
    if should_fail {
        status == Status::Revert || (status == Status::Success && !failed_flag)
    } else {
        status == Status::Success
    }
}

/// An expected failure that reverts passes, whatever the failure flag
/// of the target says.
pub proof fn lemma_expected_revert_passes(failed_flag: bool)
    ensures
        spec_classify(Status::Revert, true, failed_flag),
{
}

/// A normal success passes unconditionally when no failure is expected,
/// and exactly when the target's failure flag is unset when one is.
pub proof fn lemma_success_classification(failed_flag: bool)
    ensures
        spec_classify(Status::Success, false, failed_flag),
        spec_classify(Status::Success, true, failed_flag) == !failed_flag,
{
}

/// What a contract list installs at `x` when written left to right,
/// the last write winning; `None` where the list never writes `x`.
pub open spec fn spec_installed(entries: Seq<(Seq<u8>, Seq<u8>)>, x: Seq<u8>) -> Option<Seq<u8>>
    decreases entries.len(),
{
    if entries.len() == 0 {
        None
    } else if entries.last().0 == x {
        Some(entries.last().1)
    } else {
        spec_installed(entries.drop_last(), x)
    }
}

/// Installing a single contract makes exactly its code visible at its
/// address.
pub proof fn lemma_install_single(a: Seq<u8>, c: Seq<u8>, x: Seq<u8>)
    ensures
        spec_installed(seq![(a, c)], x) == (if x == a {
            Some(c)
        } else {
            None::<Seq<u8>>
        }),
{
    let s = seq![(a, c)];
    assert(s.last() == (a, c));
    if x != a {
        assert(s.drop_last().len() == 0);
        assert(spec_installed(s.drop_last(), x) is None);
    }
}

/// The view of the account-code list of a contract batch.
pub open spec fn spec_contracts_view(contracts: Seq<(Address, Vec<u8>)>) -> Seq<
    (Seq<u8>, Seq<u8>),
> {
    contracts.map_values(|p: (Address, Vec<u8>)| (p.0@, p.1@))
}

/// The unified execution adapter: one owned host state, a gas and
/// revision configuration, and the bound engine. Presents the same
/// operation set whatever engine executes the bytecode.
pub struct EvmOdin<S, E> {
    pub host: S,
    pub gas_limit: u64,
    pub call_kind: Option<CallKind>,
    pub revision: Revision,
    pub engine: E,
}

impl<S: HostExt, E: Engine<S>> EvmOdin<S, E> {
    /// Given an initialized host state, a gas limit, a rule-set
    /// revision, and the engine to run bytecode with.
    pub fn new(host: S, gas_limit: u64, revision: Revision, engine: E) -> (evm: Self)
        ensures
            evm.host == host,
            evm.gas_limit == gas_limit,
            evm.revision == revision,
            evm.engine == engine,
            evm.call_kind is None,
    {
        EvmOdin { host, gas_limit, revision, engine, call_kind: None }
    }

    /// Replaces the entire owned execution state; nothing else changes.
    pub fn reset(&mut self, state: S)
        ensures
            final(self).host == state,
            final(self).gas_limit == old(self).gas_limit,
            final(self).call_kind == old(self).call_kind,
            final(self).revision == old(self).revision,
            final(self).engine == old(self).engine,
    {
        self.host = state;
    }

    /// Read-only access to the owned execution state.
    pub fn init_state(&self) -> (r: &S)
        ensures
            *r == self.host,
    {
        &self.host
    }

    /// Installs each contract of the batch at its address, left to
    /// right, computing and storing each content hash. Idempotent per
    /// address: the last write wins. Accounts at other addresses are
    /// untouched, and a written account's nonce, balance and storage
    /// are not set: an existing account keeps them, a created one
    /// starts zeroed and empty.
    pub fn initialize_contracts(&mut self, contracts: Vec<(Address, Vec<u8>)>)
        requires
            old(self).host.inv(),
        ensures
            final(self).host.inv(),
            forall|x: Seq<u8>| #[trigger] final(self).host.spec_code(x) == (match spec_installed(
                spec_contracts_view(contracts@),
                x,
            ) {
                Some(c) => Some(c),
                None => old(self).host.spec_code(x),
            }),
            forall|x: Seq<u8>| spec_installed(spec_contracts_view(contracts@), x) is None
                ==> #[trigger] final(self).host.spec_account(x) == old(self).host.spec_account(x),
            forall|x: Seq<u8>| #[trigger] spec_installed(spec_contracts_view(contracts@), x) is
                Some ==> (final(self).host.spec_account(x) matches Some(acct) && Some(acct.code@)
                == spec_installed(spec_contracts_view(contracts@), x) && acct.code_hash@
                == crate::abi::keccak_of(acct.code@) && spec_meta_preserved(
                old(self).host.spec_account(x),
                acct,
            )),
            final(self).gas_limit == old(self).gas_limit,
            final(self).call_kind == old(self).call_kind,
            final(self).revision == old(self).revision,
            final(self).engine == old(self).engine,
    {
        let ghost cview = spec_contracts_view(contracts@);
        let mut i: usize = 0;
        while i < contracts.len()
            invariant
                0 <= i <= contracts@.len(),
                cview == spec_contracts_view(contracts@),
                self.host.inv(),
                forall|x: Seq<u8>| #[trigger] self.host.spec_code(x) == (match spec_installed(
                    cview.take(i as int),
                    x,
                ) {
                    Some(c) => Some(c),
                    None => old(self).host.spec_code(x),
                }),
                forall|x: Seq<u8>| spec_installed(cview.take(i as int), x) is None
                    ==> #[trigger] self.host.spec_account(x) == old(self).host.spec_account(x),
                forall|x: Seq<u8>| #[trigger] spec_installed(cview.take(i as int), x) is Some
                    ==> (self.host.spec_account(x) matches Some(acct) && Some(acct.code@)
                    == spec_installed(cview.take(i as int), x) && acct.code_hash@
                    == crate::abi::keccak_of(acct.code@) && spec_meta_preserved(
                    old(self).host.spec_account(x),
                    acct,
                )),
                self.gas_limit == old(self).gas_limit,
                self.call_kind == old(self).call_kind,
                self.revision == old(self).revision,
                self.engine == old(self).engine,
            decreases contracts@.len() - i,
        {
            let address = contracts[i].0;
            let code = copy_bytes(&contracts[i].1);
            self.host.set_code(address, code);
            proof {
                assert(cview.take(i + 1 as int).drop_last() =~= cview.take(i as int));
                assert(cview.take(i + 1 as int).last() == (address@, contracts@[i as int].1@));
                assert forall|x: Seq<u8>| #[trigger] spec_installed(
                    cview.take((i + 1) as int),
                    x,
                ) is Some implies (self.host.spec_account(x) matches Some(acct) && Some(acct.code@)
                    == spec_installed(cview.take((i + 1) as int), x) && acct.code_hash@
                    == crate::abi::keccak_of(acct.code@) && spec_meta_preserved(
                    old(self).host.spec_account(x),
                    acct,
                )) by {
                    if x != address@ {
                        assert(spec_installed(cview.take((i + 1) as int), x) == spec_installed(
                            cview.take(i as int),
                            x,
                        ));
                    }
                }
            }
            i += 1;
        }
        proof {
            assert(cview.take(contracts@.len() as int) =~= cview);
        }
    }

    /// Encodes the arguments, builds the execution message, fetches the
    /// destination's code — failing when none is installed — executes
    /// through the engine, and decodes the output per the function's
    /// declared return kinds. The reported gas figure is not metered
    /// and is returned as zero.
    pub fn call(
        &mut self,
        from: Address,
        to: Address,
        func: &FunctionAbi,
        args: Vec<Token>,
        value: W256,
    ) -> (r: Result<(Vec<Token>, Status, u64), EvmError>)
        requires
            old(self).host.inv(),
        ensures
            final(self).host.inv(),
            final(self).gas_limit == old(self).gas_limit,
            final(self).call_kind == old(self).call_kind,
            final(self).revision == old(self).revision,
            !spec_args_match(args@.map_values(|t: Token| t@), func@.inputs) ==> r == Err::<
                (Vec<Token>, Status, u64),
                EvmError,
            >(EvmError::AbiCodec) && final(self).host == old(self).host && final(self).engine
                == old(self).engine,
            spec_args_match(args@.map_values(|t: Token| t@), func@.inputs) && old(
                self,
            ).host.spec_code(to@) is None ==> r == Err::<(Vec<Token>, Status, u64), EvmError>(
                EvmError::MissingDestinationCode,
            ) && final(self).host == old(self).host && final(self).engine == old(self).engine,
            spec_args_match(args@.map_values(|t: Token| t@), func@.inputs) && old(
                self,
            ).host.spec_code(to@) is Some ==> ({
                let msg = spec_build_message(
                    from@,
                    to@,
                    old(self).call_kind,
                    spec_calldata(func@, args@.map_values(|t: Token| t@)),
                    value@,
                    old(self).gas_limit,
                    func@,
                );
                let (e2, h2, res) = old(self).engine.next(old(self).host, msg, old(self).revision);
                final(self).engine == e2 && final(self).host == h2 && (match eth_abi_decoded(
                    func@.outputs,
                    res.output,
                ) {
                    Some(toks) => r matches Ok(ok) && ok.0@.map_values(|t: Token| t@) == toks
                        && ok.1 == res.status && ok.2 == 0,
                    None => r == Err::<(Vec<Token>, Status, u64), EvmError>(EvmError::AbiCodec),
                })
            }),
    {
        if !args_match(&args, &func.inputs) {
            return Err(EvmError::AbiCodec);
        }
        let calldata = encode_calldata(func, &args);
        let kind = match self.call_kind {
            Some(k) => k,
            None => CallKind::Call,
        };
        let is_static = func.is_static();
        let has_code = match self.host.get_code(&to) {
            Some(_) => true,
            None => false,
        };
        if !has_code {
            return Err(EvmError::MissingDestinationCode);
        }
        let msg = Message {
            sender: from,
            destination: to,
            depth: 0,
            kind,
            input_data: calldata,
            value,
            gas: self.gas_limit,
            is_static,
        };
        proof {
            assert(msg@ == spec_build_message(
                from@,
                to@,
                old(self).call_kind,
                spec_calldata(func@, args@.map_values(|t: Token| t@)),
                value@,
                old(self).gas_limit,
                func@,
            ));
        }
        let outcome = self.engine.execute(&mut self.host, msg, self.revision);
        match decode_output(func, &outcome.output) {
            Some(tokens) => Ok((tokens, outcome.status, 0u64)),
            None => Err(EvmError::AbiCodec),
        }
    }

    /// The ABI description of the conventional `failed()` probe.
    pub open spec fn probe_fn_v() -> FunctionAbiV {
        FunctionAbiV {
            name: seq![102u8, 97u8, 105u8, 108u8, 101u8, 100u8],  // "failed"
            inputs: Seq::empty(),
            outputs: seq![ParamKind::Bool],
            constant: true,
            state_mutability: Mutability::View,
        }
    }

    /// The message the `failed()` probe sends to `address`.
    pub open spec fn spec_probe_message(self, address: Seq<u8>) -> MessageV {
        spec_build_message(
            spec_zero_address(),
            address,
            self.call_kind,
            spec_calldata(Self::probe_fn_v(), Seq::empty()),
            spec_w256(0),
            self.gas_limit,
            Self::probe_fn_v(),
        )
    }

    /// The adapter after the `failed()` probe ran: the engine stepped
    /// once when the target has code, nothing changed otherwise.
    pub open spec fn spec_failed_state(self, address: Seq<u8>) -> Self {
        if self.host.spec_code(address) is Some {
            let (e2, h2, res) = self.engine.next(
                self.host,
                self.spec_probe_message(address),
                self.revision,
            );
            EvmOdin {
                host: h2,
                engine: e2,
                gas_limit: self.gas_limit,
                call_kind: self.call_kind,
                revision: self.revision,
            }
        } else {
            self
        }
    }

    /// What the `failed()` probe reads from `address`: true exactly
    /// when the call succeeds and decodes to the single token `true`.
    /// A missing contract or an undecodable answer counts as not
    /// failed.
    pub open spec fn spec_failed_flag(self, address: Seq<u8>) -> bool {
        if self.host.spec_code(address) is Some {
            let (e2, h2, res) = self.engine.next(
                self.host,
                self.spec_probe_message(address),
                self.revision,
            );
            match eth_abi_decoded(Self::probe_fn_v().outputs, res.output) {
                Some(toks) => res.status == Status::Success && toks == seq![TokenV::Bool(true)],
                None => false,
            }
        } else {
            false
        }
    }

    /// Reads the conventional failure flag from `address` by calling
    /// its zero-argument `failed()` function; absence of the contract
    /// or of a decodable answer counts as "not failed".
    pub fn failed(&mut self, address: Address) -> (r: bool)
        requires
            old(self).host.inv(),
        ensures
            final(self).host.inv(),
            r == old(self).spec_failed_flag(address@),
            *final(self) == old(self).spec_failed_state(address@),
    {
        let func = FunctionAbi::new(
            vec![102u8, 97u8, 105u8, 108u8, 101u8, 100u8],
            Vec::new(),
            vec![ParamKind::Bool],
            true,
            Mutability::View,
        );
        proof {
            assert(func@.name =~= Self::probe_fn_v().name);
            assert(func@.inputs =~= Self::probe_fn_v().inputs);
            assert(func@.outputs =~= Self::probe_fn_v().outputs);
            assert(Seq::<Token>::empty().map_values(|t: Token| t@) =~= Seq::<TokenV>::empty());
            assert(spec_args_match(Seq::<TokenV>::empty(), Self::probe_fn_v().inputs));
        }
        let args: Vec<Token> = Vec::new();
        match self.call(Address::zero(), address, &func, args, W256::zero()) {
            Ok((tokens, status, _gas)) => {
                if matches!(status, Status::Success) && tokens.len() == 1 {
                    let flag = match &tokens[0] {
                        Token::Bool(b) => *b,
                        _ => false,
                    };
                    proof {
                        if flag {
                            assert(tokens@.map_values(|t: Token| t@) =~= seq![TokenV::Bool(true)]);
                        } else {
                            assert(tokens@.map_values(|t: Token| t@) != seq![TokenV::Bool(true)])
                                by {
                                assert(tokens@.map_values(|t: Token| t@)[0] == tokens@[0]@);
                            };
                        }
                    }
                    flag
                } else {
                    proof {
                        if tokens@.len() != 1 {
                            assert(tokens@.map_values(|t: Token| t@).len() != 1);
                        }
                    }
                    false
                }
            },
            Err(_) => false,
        }
    }

    /// Classifies an engine status for a test assertion. With no
    /// failure expected, exactly a normal success passes. With a
    /// failure expected, a revert passes; a normal success passes
    /// exactly when the `failed()` probe on `address` reads no failure;
    /// anything else fails the check, the status itself staying with
    /// the caller for diagnosis.
    pub fn check_success(&mut self, address: Address, result: Status, should_fail: bool) -> (r:
        bool)
        requires
            old(self).host.inv(),
        ensures
            final(self).host.inv(),
            r == spec_classify(result, should_fail, old(self).spec_failed_flag(address@)),
            *final(self) == (if should_fail && result == Status::Success {
                old(self).spec_failed_state(address@)
            } else {
                *old(self)
            }),
    {
        if should_fail {
            match result {
                Status::Revert => true,
                Status::Success => !self.failed(address),
                Status::Failure => false,
            }
        } else {
            matches!(result, Status::Success)
        }
    }
}

} // verus!
