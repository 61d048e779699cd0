use vstd::prelude::*;

verus! {

/// A 20-byte account address, the key under which accounts, code and
/// balances are stored.
#[derive(Clone, Copy, Debug, PartialEq, Eq, Hash)]
pub struct Address {
    pub bytes: [u8; 20],
}

impl View for Address {
    type V = Seq<u8>;

    open spec fn view(&self) -> Seq<u8> {
        self.bytes@
    }
}

/// The view of the all-zero address.
pub open spec fn spec_zero_address() -> Seq<u8> {
    Seq::new(20, |i: int| 0u8)
}

impl Address {
    pub fn new(bytes: [u8; 20]) -> (a: Address)
        ensures
            a@ == bytes@,
    {
        Address { bytes }
    }

    /// The all-zero address, conventionally used as a default sender.
    pub fn zero() -> (a: Address)
        ensures
            a@ == spec_zero_address(),
    {
        let a = Address { bytes: [0u8; 20] };
        proof {
            assert(a@ =~= spec_zero_address());
        }
        a
    }

    /// Byte-wise equality, usable from verified code.
    pub fn equals(&self, other: &Address) -> (r: bool)
        ensures
            r == (self@ == other@),
    {
        let mut i: usize = 0;
        while i < 20
            invariant
                0 <= i <= 20,
                forall|j: int| 0 <= j < i ==> self.bytes@[j] == other.bytes@[j],
            decreases 20 - i,
        {
            if self.bytes[i] != other.bytes[i] {
                return false;
            }
            i += 1;
        }
        proof {
            assert(self@ =~= other@);
        }
        true
    }
}

/// A 256-bit word: balances, storage slots and values, block context
/// values. Stored as four 64-bit limbs, least significant first.
#[derive(Clone, Copy, Debug, PartialEq, Eq, Hash)]
pub struct W256 {
    pub limbs: [u64; 4],
}

impl View for W256 {
    type V = Seq<u64>;

    open spec fn view(&self) -> Seq<u64> {
        self.limbs@
    }
}

/// The view of the word holding the small value `x`.
pub open spec fn spec_w256(x: u64) -> Seq<u64> {
    seq![x, 0u64, 0u64, 0u64]
}

impl W256 {
    pub fn from_u64(x: u64) -> (w: W256)
        ensures
            w@ == spec_w256(x),
    {
        let w = W256 { limbs: [x, 0u64, 0u64, 0u64] };
        proof {
            assert(w@ =~= spec_w256(x));
        }
        w
    }

    pub fn zero() -> (w: W256)
        ensures
            w@ == spec_w256(0),
    {
        W256::from_u64(0)
    }

    /// Limb-wise equality, usable from verified code.
    pub fn equals(&self, other: &W256) -> (r: bool)
        ensures
            r == (self@ == other@),
    {
        let mut i: usize = 0;
        while i < 4
            invariant
                0 <= i <= 4,
                forall|j: int| 0 <= j < i ==> self.limbs@[j] == other.limbs@[j],
            decreases 4 - i,
        {
            if self.limbs[i] != other.limbs[i] {
                return false;
            }
            i += 1;
        }
        proof {
            assert(self@ =~= other@);
        }
        true
    }

    /// The word as a `u64`, when it fits.
    pub fn as_u64_checked(&self) -> (r: Option<u64>)
        ensures
            r == (if self@[1] == 0 && self@[2] == 0 && self@[3] == 0 {
                Some(self@[0])
            } else {
                None::<u64>
            }),
    {
        if self.limbs[1] == 0 && self.limbs[2] == 0 && self.limbs[3] == 0 {
            Some(self.limbs[0])
        } else {
            None
        }
    }
}

/// Status reported by an engine for one execution: normal success,
/// an explicit revert, or any other failure.
#[derive(Clone, Copy, Debug, PartialEq, Eq, Structural)]
pub enum Status {
    Success,
    Revert,
    Failure,
}

/// The kind of call an execution message describes.
#[derive(Clone, Copy, Debug, PartialEq, Eq, Structural)]
pub enum CallKind {
    Call,
    DelegateCall,
    CallCode,
    Create,
    Create2,
}

/// The named rule-set version an engine executes under. Opaque
/// configuration: the adapter only passes it through.
#[derive(Clone, Copy, Debug, PartialEq, Eq, Structural)]
pub enum Revision {
    Frontier,
    Homestead,
    Byzantium,
    Constantinople,
    Petersburg,
    Istanbul,
    Berlin,
    London,
}

/// Declared mutability of a contract function.
#[derive(Clone, Copy, Debug, PartialEq, Eq, Structural)]
pub enum Mutability {
    Pure,
    View,
    NonPayable,
    Payable,
}

/// The argument and return kinds the codec handles.
#[derive(Clone, Copy, Debug, PartialEq, Eq, Structural)]
pub enum ParamKind {
    Address,
    Uint,
    Bool,
    Bytes,
}

/// Errors surfaced by the unified `call` operation.
#[derive(Clone, Copy, Debug, PartialEq, Eq, Structural)]
pub enum EvmError {
    /// The arguments or the returned bytes did not match the function's
    /// declared signature.
    AbiCodec,
    /// The destination address holds no contract code.
    MissingDestinationCode,
}

/// A typed argument or return value.
#[derive(Debug, PartialEq, Eq)]
pub enum Token {
    Address(Address),
    Uint(W256),
    Bool(bool),
    Bytes(Vec<u8>),
}

/// Mathematical view of a `Token`.
pub enum TokenV {
    Address(Seq<u8>),
    Uint(Seq<u64>),
    Bool(bool),
    Bytes(Seq<u8>),
}

impl View for Token {
    type V = TokenV;

    open spec fn view(&self) -> TokenV {
        match self {
            Token::Address(a) => TokenV::Address(a@),
            Token::Uint(w) => TokenV::Uint(w@),
            Token::Bool(b) => TokenV::Bool(*b),
            Token::Bytes(d) => TokenV::Bytes(d@),
        }
    }
}

/// The kind a token value belongs to.
pub open spec fn token_kind(t: TokenV) -> ParamKind {
    match t {
        TokenV::Address(_) => ParamKind::Address,
        TokenV::Uint(_) => ParamKind::Uint,
        TokenV::Bool(_) => ParamKind::Bool,
        TokenV::Bytes(_) => ParamKind::Bytes,
    }
}

impl Token {
    /// Whether this token value belongs to the given kind.
    pub fn matches_kind(&self, k: &ParamKind) -> (r: bool)
        ensures
            r == (token_kind(self@) == *k),
    {
        match (self, k) {
            (Token::Address(_), ParamKind::Address) => true,
            (Token::Uint(_), ParamKind::Uint) => true,
            (Token::Bool(_), ParamKind::Bool) => true,
            (Token::Bytes(_), ParamKind::Bytes) => true,
            _ => false,
        }
    }
}

/// ABI description of one contract function: name, argument and return
/// kinds, and declared mutability.
pub struct FunctionAbi {
    pub name: Vec<u8>,
    pub inputs: Vec<ParamKind>,
    pub outputs: Vec<ParamKind>,
    pub constant: bool,
    pub state_mutability: Mutability,
}

/// Mathematical view of a `FunctionAbi`.
pub struct FunctionAbiV {
    pub name: Seq<u8>,
    pub inputs: Seq<ParamKind>,
    pub outputs: Seq<ParamKind>,
    pub constant: bool,
    pub state_mutability: Mutability,
}

impl View for FunctionAbi {
    type V = FunctionAbiV;

    open spec fn view(&self) -> FunctionAbiV {
        FunctionAbiV {
            name: self.name@,
            inputs: self.inputs@,
            outputs: self.outputs@,
            constant: self.constant,
            state_mutability: self.state_mutability,
        }
    }
}

/// A call on a function declared view or pure (or marked constant in
/// older ABI descriptions) must run as a static, read-only call.
pub open spec fn spec_is_static(f: FunctionAbiV) -> bool {
    f.constant || f.state_mutability == Mutability::View || f.state_mutability == Mutability::Pure
}

impl FunctionAbi {
    pub fn new(
        name: Vec<u8>,
        inputs: Vec<ParamKind>,
        outputs: Vec<ParamKind>,
        constant: bool,
        state_mutability: Mutability,
    ) -> (f: FunctionAbi)
        ensures
            f@ == (FunctionAbiV {
                name: name@,
                inputs: inputs@,
                outputs: outputs@,
                constant,
                state_mutability,
            }),
    {
        FunctionAbi { name, inputs, outputs, constant, state_mutability }
    }

    /// Whether a call on this function must be static (read-only).
    pub fn is_static(&self) -> (r: bool)
        ensures
            r == spec_is_static(self@),
    {
        self.constant || matches!(self.state_mutability, Mutability::View | Mutability::Pure)
    }
}

/// A transient, per-call description of one execution: sender,
/// destination, kind, input bytes, value, gas budget, depth, and the
/// static flag derived from the function's declared mutability.
pub struct Message {
    pub sender: Address,
    pub destination: Address,
    pub depth: u32,
    pub kind: CallKind,
    pub input_data: Vec<u8>,
    pub value: W256,
    pub gas: u64,
    pub is_static: bool,
}

/// Mathematical view of a `Message`.
pub struct MessageV {
    pub sender: Seq<u8>,
    pub destination: Seq<u8>,
    pub depth: u32,
    pub kind: CallKind,
    pub input_data: Seq<u8>,
    pub value: Seq<u64>,
    pub gas: u64,
    pub is_static: bool,
}

impl View for Message {
    type V = MessageV;

    open spec fn view(&self) -> MessageV {
        MessageV {
            sender: self.sender@,
            destination: self.destination@,
            depth: self.depth,
            kind: self.kind,
            input_data: self.input_data@,
            value: self.value@,
            gas: self.gas,
            is_static: self.is_static,
        }
    }
}

/// What one execution produced: a status, the raw output bytes, and the
/// gas consumed.
pub struct ExecutionResult {
    pub status: Status,
    pub output: Vec<u8>,
    pub gas_used: u64,
}

/// Mathematical view of an `ExecutionResult`.
pub struct ResultV {
    pub status: Status,
    pub output: Seq<u8>,
    pub gas_used: u64,
}

impl View for ExecutionResult {
    type V = ResultV;

    open spec fn view(&self) -> ResultV {
        ResultV { status: self.status, output: self.output@, gas_used: self.gas_used }
    }
}

/// One log record emitted during execution.
pub struct Log {
    pub address: Address,
    pub topics: Vec<W256>,
    pub data: Vec<u8>,
}

/// Copies a byte vector, element by element.
pub fn copy_bytes(v: &Vec<u8>) -> (r: Vec<u8>)
    ensures
        r@ == v@,
{
    let mut r: Vec<u8> = Vec::new();
    let mut i: usize = 0;
    while i < v.len()
        invariant
            0 <= i <= v@.len(),
            r@ == v@.take(i as int),
        decreases v@.len() - i,
    {
        r.push(v[i]);
        proof {
            assert(r@ =~= v@.take(i + 1 as int));
        }
        i += 1;
    }
    proof {
        assert(r@ =~= v@);
    }
    r
}

} // verus!
