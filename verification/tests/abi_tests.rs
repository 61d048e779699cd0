use evm_adapters::abi::{decode_output, encode_calldata, signature};
use evm_adapters::types::{Address, FunctionAbi, Mutability, ParamKind, Token, W256};

fn echo_fn(kinds: Vec<ParamKind>) -> FunctionAbi {
    FunctionAbi::new(b"echo".to_vec(), kinds.clone(), kinds, false, Mutability::NonPayable)
}

#[test]
fn signature_is_canonical() {
    let f = FunctionAbi::new(
        b"balanceOf".to_vec(),
        vec![ParamKind::Address, ParamKind::Uint],
        vec![ParamKind::Uint],
        false,
        Mutability::View,
    );
    assert_eq!(signature(&f), b"balanceOf(address,uint256)".to_vec());

    let nullary = FunctionAbi::new(b"setUp".to_vec(), vec![], vec![], false, Mutability::NonPayable);
    assert_eq!(signature(&nullary), b"setUp()".to_vec());

    let all = FunctionAbi::new(
        b"mix".to_vec(),
        vec![ParamKind::Bool, ParamKind::Bytes, ParamKind::Uint],
        vec![],
        false,
        Mutability::Payable,
    );
    assert_eq!(signature(&all), b"mix(bool,bytes,uint256)".to_vec());
}

#[test]
fn calldata_starts_with_the_keccak_selector() {
    let f = FunctionAbi::new(b"setUp".to_vec(), vec![], vec![], false, Mutability::NonPayable);
    let calldata = encode_calldata(&f, &vec![]);
    // The selector is the first four bytes of the Keccak-256 digest of
    // the canonical signature.
    let digest = ethers::utils::keccak256(b"setUp()");
    assert_eq!(calldata, digest[..4].to_vec());

    // A different signature gives a different selector: the digest is
    // not the input handed back.
    let g = FunctionAbi::new(b"checkTime".to_vec(), vec![], vec![], false, Mutability::NonPayable);
    let other = encode_calldata(&g, &vec![]);
    assert_ne!(calldata, other);
}

#[test]
fn encode_then_decode_round_trips() {
    let mut address_bytes = [0u8; 20];
    address_bytes[19] = 0x2D;
    let values = vec![
        Token::Uint(W256::from_u64(42)),
        Token::Bool(true),
        Token::Address(Address::new(address_bytes)),
        Token::Bytes(vec![0xDE, 0xAD, 0xBE, 0xEF]),
    ];
    let kinds = vec![ParamKind::Uint, ParamKind::Bool, ParamKind::Address, ParamKind::Bytes];
    let f = echo_fn(kinds);

    let calldata = encode_calldata(&f, &values);
    assert!(calldata.len() > 4);
    // Strip the selector: what is left is the encoding of the values,
    // which must decode back to exactly the values.
    let encoded: Vec<u8> = calldata[4..].to_vec();
    let decoded = decode_output(&f, &encoded).unwrap();
    assert_eq!(decoded, values);
}

#[test]
fn decode_rejects_malformed_bytes() {
    let f = echo_fn(vec![ParamKind::Uint]);
    // A uint256 needs a full 32-byte word.
    let r = decode_output(&f, &vec![1, 2, 3]);
    assert!(r.is_none());
}

#[test]
fn empty_return_signature_decodes_empty_output() {
    let f = FunctionAbi::new(b"setUp".to_vec(), vec![], vec![], false, Mutability::NonPayable);
    let decoded = decode_output(&f, &Vec::new()).unwrap();
    assert!(decoded.is_empty());
}
