use crate::types::{Address, FunctionAbi, FunctionAbiV, ParamKind, Token, TokenV, W256};
use ethers::abi::ParamType;
use ethers::abi::Token as EthToken;
use ethers::types::{H160, U256};
use vstd::prelude::*;

verus! {

/// The 32-byte Keccak-256 digest of a byte sequence, as the hashing
/// crate computes it. Its value is a function of the bytes alone.
pub uninterp spec fn keccak_of(data: Seq<u8>) -> Seq<u8>;

/// Relies on ethers::utils::keccak256: returns the 32-byte Keccak-256
/// digest of the input, a function of the input bytes alone.
#[verifier::external_body]
pub(crate) fn keccak256(data: &Vec<u8>) -> (r: Vec<u8>)
    ensures
        r@ == keccak_of(data@),
        r@.len() == 32,
{
    ethers::utils::keccak256(data.as_slice()).to_vec()
}

/// The ABI encoding of a token list, as the codec crate computes it.
/// Its value is a function of the tokens alone.
pub uninterp spec fn eth_abi_encoded(tokens: Seq<TokenV>) -> Seq<u8>;

/// Relies on ethers::abi::encode: ABI-encodes the token list; the
/// result is a function of the tokens alone. The body only converts
/// each token to the codec's own token type, one for one.
#[verifier::external_body]
pub(crate) fn abi_encode(tokens: &Vec<Token>) -> (r: Vec<u8>)
    ensures
        r@ == eth_abi_encoded(tokens@.map_values(|t: Token| t@)),
{
    let converted: Vec<EthToken> = tokens.iter().map(|t| match t {
        Token::Address(a) => EthToken::Address(H160(a.bytes)),
        Token::Uint(w) => EthToken::Uint(U256(w.limbs)),
        Token::Bool(b) => EthToken::Bool(*b),
        Token::Bytes(d) => EthToken::Bytes(d.clone()),
    }).collect();
    ethers::abi::encode(&converted)
}

/// What the codec crate decodes from `data` under the given parameter
/// kinds, translated to this library's tokens: `None` where it reports
/// an error or yields a token outside this library's model. A function
/// of the kinds and bytes alone.
pub uninterp spec fn eth_abi_decoded(kinds: Seq<ParamKind>, data: Seq<u8>) -> Option<Seq<TokenV>>;

/// Relies on ethers::abi::decode: decodes `data` under the given
/// parameter kinds; deterministic in its arguments. The body only
/// converts kinds and tokens between this library's types and the
/// codec's, one for one.
#[verifier::external_body]
pub(crate) fn abi_decode(kinds: &Vec<ParamKind>, data: &Vec<u8>) -> (r: Option<Vec<Token>>)
    ensures
        match r {
            Some(tokens) => eth_abi_decoded(kinds@, data@) == Some(
                tokens@.map_values(|t: Token| t@),
            ),
            None => eth_abi_decoded(kinds@, data@) is None,
        },
{
    let params: Vec<ParamType> = kinds.iter().map(|k| match k {
        ParamKind::Address => ParamType::Address,
        ParamKind::Uint => ParamType::Uint(256),
        ParamKind::Bool => ParamType::Bool,
        ParamKind::Bytes => ParamType::Bytes,
    }).collect();
    let decoded = ethers::abi::decode(&params, data.as_slice()).ok()?;
    decoded.into_iter().map(|t| match t {
        EthToken::Address(a) => Some(Token::Address(Address { bytes: a.0 })),
        EthToken::Uint(u) => Some(Token::Uint(W256 { limbs: u.0 })),
        EthToken::Bool(b) => Some(Token::Bool(b)),
        EthToken::Bytes(d) => Some(Token::Bytes(d)),
        _ => None,
    }).collect()
}

/// The canonical name of a parameter kind inside a function signature.
pub open spec fn spec_kind_name(k: ParamKind) -> Seq<u8> {
    match k {
        ParamKind::Address => seq![97u8, 100u8, 100u8, 114u8, 101u8, 115u8, 115u8],  // "address"
        ParamKind::Uint => seq![117u8, 105u8, 110u8, 116u8, 50u8, 53u8, 54u8],  // "uint256"
        ParamKind::Bool => seq![98u8, 111u8, 111u8, 108u8],  // "bool"
        ParamKind::Bytes => seq![98u8, 121u8, 116u8, 101u8, 115u8],  // "bytes"
    }
}

fn kind_name(k: &ParamKind) -> (r: Vec<u8>)
    ensures
        r@ == spec_kind_name(*k),
{
    let r: Vec<u8> = match k {
        ParamKind::Address => vec![97u8, 100u8, 100u8, 114u8, 101u8, 115u8, 115u8],
        ParamKind::Uint => vec![117u8, 105u8, 110u8, 116u8, 50u8, 53u8, 54u8],
        ParamKind::Bool => vec![98u8, 111u8, 111u8, 108u8],
        ParamKind::Bytes => vec![98u8, 121u8, 116u8, 101u8, 115u8],
    };
    proof {
        assert(r@ =~= spec_kind_name(*k));
    }
    r
}

/// The comma-separated tail of a parameter list: one leading comma and
/// one kind name per remaining parameter.
pub open spec fn spec_kinds_rest(ks: Seq<ParamKind>) -> Seq<u8>
    decreases ks.len(),
{
    if ks.len() == 0 {
        Seq::empty()
    } else {
        seq![44u8] + spec_kind_name(ks[0]) + spec_kinds_rest(ks.drop_first())
    }
}

/// The comma-separated parameter list of a signature.
pub open spec fn spec_kinds_joined(ks: Seq<ParamKind>) -> Seq<u8> {
    if ks.len() == 0 {
        Seq::empty()
    } else {
        spec_kind_name(ks[0]) + spec_kinds_rest(ks.drop_first())
    }
}

/// The canonical signature of a function: its name, then the parameter
/// kinds between parentheses, comma-separated.
pub open spec fn spec_signature(f: FunctionAbiV) -> Seq<u8> {
    f.name + seq![40u8] + spec_kinds_joined(f.inputs) + seq![41u8]
}

/// The 4-byte selector of a function: the leading bytes of the
/// Keccak-256 digest of its canonical signature.
pub open spec fn spec_selector(f: FunctionAbiV) -> Seq<u8> {
    keccak_of(spec_signature(f)).take(4)
}

/// The calldata of one call: the function's selector followed by the
/// ABI encoding of the arguments.
pub open spec fn spec_calldata(f: FunctionAbiV, args: Seq<TokenV>) -> Seq<u8> {
    spec_selector(f) + eth_abi_encoded(args)
}

fn push_all(out: &mut Vec<u8>, data: &Vec<u8>)
    ensures
        final(out)@ == old(out)@ + data@,
{
    let mut i: usize = 0;
    while i < data.len()
        invariant
            0 <= i <= data@.len(),
            out@ == old(out)@ + data@.take(i as int),
        decreases data@.len() - i,
    {
        out.push(data[i]);
        proof {
            assert(out@ =~= old(out)@ + data@.take(i + 1 as int));
        }
        i += 1;
    }
    proof {
        assert(out@ =~= old(out)@ + data@);
    }
}

/// Builds the canonical signature of `f`.
pub fn signature(f: &FunctionAbi) -> (r: Vec<u8>)
    ensures
        r@ == spec_signature(f@),
{
    let mut r = crate::types::copy_bytes(&f.name);
    r.push(40u8);
    let mut i: usize = 0;
    while i < f.inputs.len()
        invariant
            0 <= i <= f.inputs@.len(),
            i == 0 ==> r@ == sig_prefix(f@),
            i > 0 ==> r@ + spec_kinds_rest(f.inputs@.skip(i as int)) == sig_prefix(f@)
                + spec_kinds_joined(f.inputs@),
        decreases f.inputs@.len() - i,
    {
        let name = kind_name(&f.inputs[i]);
        if i > 0 {
            r.push(44u8);
        }
        push_all(&mut r, &name);
        proof {
            if i == 0 {
                assert(f.inputs@.skip(0) =~= f.inputs@);
                assert(f.inputs@.skip(0).drop_first() =~= f.inputs@.skip(1));
                assert(r@ =~= sig_prefix(f@) + spec_kind_name(f.inputs@[0]));
                assert(r@ + spec_kinds_rest(f.inputs@.skip(1)) =~= sig_prefix(f@)
                    + spec_kinds_joined(f.inputs@));
            } else {
                assert(f.inputs@.skip(i as int).drop_first() =~= f.inputs@.skip(i + 1 as int));
                assert(r@ + spec_kinds_rest(f.inputs@.skip(i + 1 as int)) =~= sig_prefix(f@)
                    + spec_kinds_joined(f.inputs@));
            }
        }
        i += 1;
    }
    r.push(41u8);
    proof {
        if f.inputs@.len() == 0 {
            assert(r@ =~= spec_signature(f@));
        } else {
            assert(f.inputs@.skip(f.inputs@.len() as int) =~= Seq::<ParamKind>::empty());
            assert(r@ =~= spec_signature(f@));
        }
    }
    r
}

/// The signature up to and including the opening parenthesis.
pub open spec fn sig_prefix(f: FunctionAbiV) -> Seq<u8> {
    f.name + seq![40u8]
}

/// Whether the argument tokens match the declared parameter kinds,
/// position by position.
pub open spec fn spec_args_match(args: Seq<TokenV>, kinds: Seq<ParamKind>) -> bool {
    args.len() == kinds.len() && (forall|i: int|
        0 <= i < args.len() ==> token_kind_at(args, i) == kinds[i])
}

/// The kind of the token at position `i`.
pub open spec fn token_kind_at(args: Seq<TokenV>, i: int) -> ParamKind {
    crate::types::token_kind(args[i])
}

/// Checks the argument tokens against the declared parameter kinds.
pub fn args_match(args: &Vec<Token>, kinds: &Vec<ParamKind>) -> (r: bool)
    ensures
        r == spec_args_match(args@.map_values(|t: Token| t@), kinds@),
{
    let ghost argsv = args@.map_values(|t: Token| t@);
    if args.len() != kinds.len() {
        return false;
    }
    let mut i: usize = 0;
    while i < args.len()
        invariant
            0 <= i <= args@.len(),
            argsv == args@.map_values(|t: Token| t@),
            args@.len() == kinds@.len(),
            forall|j: int| 0 <= j < i ==> token_kind_at(argsv, j) == kinds@[j],
        decreases args@.len() - i,
    {
        if !args[i].matches_kind(&kinds[i]) {
            assert(token_kind_at(argsv, i as int) != kinds@[i as int]);
            return false;
        }
        i += 1;
    }
    true
}

/// Builds the calldata of a call on `f` with the given arguments:
/// selector, then encoded arguments.
pub fn encode_calldata(f: &FunctionAbi, args: &Vec<Token>) -> (r: Vec<u8>)
    ensures
        r@ == spec_calldata(f@, args@.map_values(|t: Token| t@)),
{
    let sig = signature(f);
    let digest = keccak256(&sig);
    let mut r: Vec<u8> = Vec::new();
    let mut i: usize = 0;
    while i < 4
        invariant
            0 <= i <= 4,
            digest@.len() == 32,
            digest@ == keccak_of(spec_signature(f@)),
            r@ == digest@.take(i as int),
        decreases 4 - i,
    {
        r.push(digest[i]);
        proof {
            assert(r@ =~= digest@.take(i + 1 as int));
        }
        i += 1;
    }
    let encoded = abi_encode(args);
    push_all(&mut r, &encoded);
    proof {
        assert(r@ =~= spec_calldata(f@, args@.map_values(|t: Token| t@)));
    }
    r
}

/// Decodes returned bytes under the function's declared return kinds.
pub fn decode_output(f: &FunctionAbi, data: &Vec<u8>) -> (r: Option<Vec<Token>>)
    ensures
        match r {
            Some(tokens) => eth_abi_decoded(f@.outputs, data@) == Some(
                tokens@.map_values(|t: Token| t@),
            ),
            None => eth_abi_decoded(f@.outputs, data@) is None,
        },
{
    abi_decode(&f.outputs, data)
}

} // verus!
