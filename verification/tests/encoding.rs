use rlp::RlpStream;
use web3_signer::api::accounts::{Transaction, TransactionType};
use web3_signer::rlp::{encode_bytes, encode_list, encode_u64, uint_bytes};
use web3_signer::signing::{keccak256, Signature, SigningError};
use web3_signer::types::{AccessListItem, Address, H256, U256};

fn hex(bytes: &[u8]) -> String {
    let mut text = String::new();
    for b in bytes {
        text.push_str(&format!("{:02x}", b));
    }
    text
}

fn unhex(text: &str) -> Vec<u8> {
    let digits: Vec<u8> = text.bytes().map(|c| (c as char).to_digit(16).unwrap() as u8).collect();
    digits.chunks(2).map(|pair| pair[0] * 16 + pair[1]).collect()
}

fn h256(text: &str) -> H256 {
    let bytes = unhex(text);
    H256::from_slice(&bytes)
}

fn transfer() -> Transaction {
    Transaction {
        to: Some(Address([0x35; 20])),
        nonce: U256::from_u64(9),
        gas: U256::from_u64(21000),
        gas_price: U256::from_u64(20_000_000_000),
        value: U256::from_u64(1_000_000_000_000_000_000),
        data: Vec::new(),
        transaction_type: None,
        access_list: Vec::new(),
        max_priority_fee_per_gas: U256::from_u64(20_000_000_000),
    }
}

fn published_signature() -> Signature {
    Signature {
        v: 37,
        r: h256("28ef61340bd939bc2195fe537567866003e1a15d3c71ff63e1590620aa636276"),
        s: h256("67cbe9d8997f761aecb703304b3800ccf555c9f3dc64214b297fb1966a3b6d83"),
    }
}

fn two_entries() -> Vec<AccessListItem> {
    vec![
        AccessListItem {
            address: Address([0x11; 20]),
            storage_keys: vec![H256([0x01; 32]), H256([0x02; 32])],
        },
        AccessListItem { address: Address([0x22; 20]), storage_keys: Vec::new() },
    ]
}

fn typed(kind: u64, data: Vec<u8>, access_list: Vec<AccessListItem>) -> Transaction {
    Transaction {
        to: Some(Address([0xab; 20])),
        nonce: U256::from_u64(300),
        gas: U256::from_u64(100_000),
        gas_price: U256::from_u64(50_000_000_000),
        value: U256::from_u64(0),
        data,
        transaction_type: Some(kind),
        access_list,
        max_priority_fee_per_gas: U256::from_u64(2_000_000_000),
    }
}

// The same envelopes, written with the stream of the `rlp` crate.

fn minimal(n: &U256) -> Vec<u8> {
    let start = n.0.iter().position(|b| *b != 0).unwrap_or(32);
    n.0[start..].to_vec()
}

fn stream_six(tx: &Transaction, stream: &mut RlpStream) {
    stream.append(&minimal(&tx.nonce));
    stream.append(&minimal(&tx.gas_price));
    stream.append(&minimal(&tx.gas));
    match &tx.to {
        Some(to) => stream.append(&to.0.to_vec()),
        None => stream.append(&""),
    };
    stream.append(&minimal(&tx.value));
    stream.append(&tx.data);
}

fn stream_signature(signature: &Signature, stream: &mut RlpStream) {
    stream.append(&signature.v);
    stream.append(&minimal(&U256(signature.r.0)));
    stream.append(&minimal(&U256(signature.s.0)));
}

fn stream_access_list(tx: &Transaction, stream: &mut RlpStream) {
    stream.begin_list(tx.access_list.len());
    for access in tx.access_list.iter() {
        stream.begin_list(2);
        stream.append(&access.address.0.to_vec());
        stream.begin_list(access.storage_keys.len());
        for key in access.storage_keys.iter() {
            stream.append(&key.0.to_vec());
        }
    }
}

fn streamed(tx: &Transaction, chain_id: u64, signature: Option<&Signature>) -> Vec<u8> {
    let mut stream = RlpStream::new();
    match tx.transaction_type {
        None | Some(0) => {
            stream.begin_list(9);
            stream_six(tx, &mut stream);
            match signature {
                Some(signature) => stream_signature(signature, &mut stream),
                None => {
                    stream.append(&chain_id);
                    stream.append(&0u8);
                    stream.append(&0u8);
                }
            }
            stream.out().to_vec()
        }
        Some(1) => {
            stream.begin_list(if signature.is_some() { 11 } else { 8 });
            stream.append(&chain_id);
            stream_six(tx, &mut stream);
            stream_access_list(tx, &mut stream);
            if let Some(signature) = signature {
                stream_signature(signature, &mut stream);
            }
            [&[1u8][..], stream.as_raw()].concat()
        }
        _ => {
            stream.begin_list(if signature.is_some() { 12 } else { 9 });
            stream.append(&chain_id);
            stream.append(&minimal(&tx.nonce));
            stream.append(&minimal(&tx.max_priority_fee_per_gas));
            stream.append(&minimal(&tx.gas_price));
            stream.append(&minimal(&tx.gas));
            match &tx.to {
                Some(to) => stream.append(&to.0.to_vec()),
                None => stream.append(&""),
            };
            stream.append(&minimal(&tx.value));
            stream.append(&tx.data);
            stream_access_list(tx, &mut stream);
            if let Some(signature) = signature {
                stream_signature(signature, &mut stream);
            }
            [&[2u8][..], stream.as_raw()].concat()
        }
    }
}

#[test]
fn legacy_unsigned_encoding_is_the_published_signing_data() {
    let encoded = transfer().encode(1, None).unwrap();
    assert_eq!(
        hex(&encoded),
        "ec098504a817c800825208943535353535353535353535353535353535353535880de0b6b3a764000080018080"
    );
}

#[test]
fn legacy_message_hash_is_the_published_hash() {
    let hash = transfer().message_hash(1).unwrap();
    assert_eq!(hex(&hash.0), "daf5a779ae972f972197303d7b574746c7ef83eadac0f2791ad23db92e4c8e53");
    let encoded = transfer().encode(1, None).unwrap();
    assert_eq!(keccak256(&encoded), hash.0);
}

#[test]
fn legacy_signed_encoding_is_the_published_transaction() {
    let signature = published_signature();
    let encoded = transfer().encode(1, Some(&signature)).unwrap();
    assert_eq!(
        hex(&encoded),
        "f86c098504a817c800825208943535353535353535353535353535353535353535880de0b6b3a7640000\
         8025a028ef61340bd939bc2195fe537567866003e1a15d3c71ff63e1590620aa636276\
         a067cbe9d8997f761aecb703304b3800ccf555c9f3dc64214b297fb1966a3b6d83"
    );
}

#[test]
fn type_zero_is_legacy() {
    let mut tx = transfer();
    tx.transaction_type = Some(0);
    assert_eq!(tx.encode(1, None).unwrap(), transfer().encode(1, None).unwrap());
    assert_eq!(TransactionType::from_id(Some(0)), Ok(TransactionType::Legacy));
    assert_eq!(TransactionType::from_id(None), Ok(TransactionType::Legacy));
    assert_eq!(TransactionType::from_id(Some(1)), Ok(TransactionType::AccessList));
    assert_eq!(TransactionType::from_id(Some(2)), Ok(TransactionType::FeeMarket));
}

#[test]
fn unknown_type_is_refused() {
    let mut tx = transfer();
    tx.transaction_type = Some(3);
    assert_eq!(tx.encode(1, None), Err(SigningError::UnsupportedTransactionType(3)));
    assert_eq!(tx.message_hash(1), Err(SigningError::UnsupportedTransactionType(3)));
    assert_eq!(
        TransactionType::from_id(Some(u64::MAX)),
        Err(SigningError::UnsupportedTransactionType(u64::MAX))
    );
}

#[test]
fn legacy_ignores_priority_fee() {
    let mut tx = transfer();
    tx.max_priority_fee_per_gas = U256::from_u64(1);
    assert_eq!(tx.encode(1, None).unwrap(), transfer().encode(1, None).unwrap());
}

#[test]
fn contract_creation_has_the_empty_string_for_recipient() {
    let mut tx = transfer();
    tx.to = None;
    let encoded = tx.encode(1, None).unwrap();
    assert_eq!(hex(&encoded), "d8098504a817c80082520880880de0b6b3a764000080018080");
    let mut zero = transfer();
    zero.to = Some(Address([0; 20]));
    assert_ne!(zero.encode(1, None).unwrap(), encoded);
    for kind in [1u64, 2u64] {
        let mut typed_tx = typed(kind, Vec::new(), Vec::new());
        typed_tx.to = None;
        assert_eq!(typed_tx.encode(5, None).unwrap(), streamed(&typed_tx, 5, None));
    }
}

#[test]
fn empty_access_list_is_the_empty_list() {
    let tx = typed(1, Vec::new(), Vec::new());
    let encoded = tx.encode(1, None).unwrap();
    assert_eq!(
        hex(&encoded),
        "01e60182012c850ba43b7400830186a094abababababababababababababababababababab8080c0"
    );
    let tx = typed(2, Vec::new(), Vec::new());
    let encoded = tx.encode(1, None).unwrap();
    assert_eq!(
        hex(&encoded),
        "02eb0182012c8477359400850ba43b7400830186a094abababababababababababababababababababab8080c0"
    );
    let mut stream: Vec<u8> = Vec::new();
    tx.rlp_append_access_list(&mut stream);
    assert_eq!(stream, vec![0xc0]);
}

#[test]
fn access_list_with_one_entry_of_two_keys() {
    let list = vec![AccessListItem {
        address: Address([0x11; 20]),
        storage_keys: vec![H256([0x01; 32]), H256([0x02; 32])],
    }];
    let tx = typed(2, Vec::new(), list);
    let mut stream: Vec<u8> = vec![0xee];
    tx.rlp_append_access_list(&mut stream);
    let mut expected = vec![0xee, 0xf8, 0x5b, 0xf8, 0x59, 0x94];
    expected.extend_from_slice(&[0x11; 20]);
    expected.extend_from_slice(&[0xf8, 0x42, 0xa0]);
    expected.extend_from_slice(&[0x01; 32]);
    expected.push(0xa0);
    expected.extend_from_slice(&[0x02; 32]);
    assert_eq!(stream, expected);
    let encoded = tx.encode(1, None).unwrap();
    assert_eq!(encoded[0], 2);
    assert_eq!(&encoded[encoded.len() - 93..], &expected[1..]);
}

#[test]
fn typed_envelopes_agree_with_the_stream_of_the_rlp_crate() {
    let signature = published_signature();
    let typed_signature = Signature { v: 1, r: signature.r, s: signature.s };
    for kind in [1u64, 2u64] {
        for data in [Vec::new(), vec![0x7f], vec![0x80], vec![0xaa; 55], vec![0xbb; 56], vec![0xcc; 70_000]] {
            for list in [Vec::new(), two_entries()] {
                let tx = typed(kind, data.clone(), list);
                assert_eq!(tx.encode(1, None).unwrap(), streamed(&tx, 1, None));
                assert_eq!(
                    tx.encode(137, Some(&typed_signature)).unwrap(),
                    streamed(&tx, 137, Some(&typed_signature))
                );
            }
        }
    }
}

#[test]
fn legacy_envelope_agrees_with_the_stream_of_the_rlp_crate() {
    let signature = published_signature();
    for data in [Vec::new(), vec![0x00], vec![0x7f], vec![0x80], vec![0xaa; 55], vec![0xbb; 56], vec![0xcc; 300]] {
        for chain_id in [0u64, 1, 127, 128, 56, 1_000_000, u64::MAX] {
            let mut tx = transfer();
            tx.data = data.clone();
            assert_eq!(tx.encode(chain_id, None).unwrap(), streamed(&tx, chain_id, None));
            assert_eq!(
                tx.encode(chain_id, Some(&signature)).unwrap(),
                streamed(&tx, chain_id, Some(&signature))
            );
        }
    }
}

#[test]
fn access_list_payload_has_no_type_byte() {
    let tx = typed(1, vec![1, 2, 3], two_entries());
    let payload = tx.encode_access_list_payload(1, None);
    let encoded = tx.encode(1, None).unwrap();
    assert_eq!(encoded[0], 1);
    assert_eq!(&encoded[1..], &payload[..]);
    let tx = typed(2, vec![1, 2, 3], two_entries());
    let payload = tx.encode_eip1559_payload(1, None);
    let encoded = tx.encode(1, None).unwrap();
    assert_eq!(encoded[0], 2);
    assert_eq!(&encoded[1..], &payload[..]);
    assert_eq!(transfer().encode_legacy(1, None), transfer().encode(1, None).unwrap());
}

#[test]
fn signature_with_leading_zeros_is_written_as_an_integer() {
    let mut r = [0u8; 32];
    r[31] = 0x05;
    let mut s = [0u8; 32];
    s[30] = 0x01;
    let signature = Signature { v: 0, r: H256(r), s: H256(s) };
    let mut stream: Vec<u8> = Vec::new();
    transfer().rlp_append_signature(&mut stream, &signature);
    assert_eq!(stream, vec![0x80, 0x05, 0x82, 0x01, 0x00]);
}

#[test]
fn strings_are_framed_by_their_length() {
    assert_eq!(encode_bytes(&[]), vec![0x80]);
    assert_eq!(encode_bytes(&[0x00]), vec![0x00]);
    assert_eq!(encode_bytes(&[0x7f]), vec![0x7f]);
    assert_eq!(encode_bytes(&[0x80]), vec![0x81, 0x80]);
    assert_eq!(encode_bytes(b"dog"), vec![0x83, b'd', b'o', b'g']);
    let long = vec![7u8; 56];
    let encoded = encode_bytes(&long);
    assert_eq!(&encoded[..2], &[0xb8, 56]);
    assert_eq!(&encoded[2..], &long[..]);
    let longer = vec![7u8; 1024];
    let encoded = encode_bytes(&longer);
    assert_eq!(&encoded[..3], &[0xb9, 0x04, 0x00]);
    assert_eq!(encoded.len(), 1027);
}

#[test]
fn lists_are_framed_by_the_length_of_their_payload() {
    assert_eq!(encode_list(&[]), vec![0xc0]);
    assert_eq!(encode_list(&[0x83, b'c', b'a', b't']), vec![0xc4, 0x83, b'c', b'a', b't']);
    let payload = vec![0x01u8; 55];
    assert_eq!(encode_list(&payload)[0], 0xf7);
    let payload = vec![0x01u8; 56];
    let encoded = encode_list(&payload);
    assert_eq!(&encoded[..2], &[0xf8, 56]);
    assert_eq!(&encoded[2..], &payload[..]);
    let payload = vec![0x01u8; 65_536];
    let encoded = encode_list(&payload);
    assert_eq!(&encoded[..4], &[0xfa, 0x01, 0x00, 0x00]);
}

#[test]
fn integers_are_written_without_leading_zeros() {
    assert_eq!(uint_bytes(0), Vec::<u8>::new());
    assert_eq!(uint_bytes(1), vec![1]);
    assert_eq!(uint_bytes(255), vec![255]);
    assert_eq!(uint_bytes(256), vec![1, 0]);
    assert_eq!(uint_bytes(u64::MAX), vec![0xff; 8]);
    assert_eq!(encode_u64(0), vec![0x80]);
    assert_eq!(encode_u64(15), vec![0x0f]);
    assert_eq!(encode_u64(1024), vec![0x82, 0x04, 0x00]);
    assert_eq!(encode_u64(37), vec![0x25]);
}

#[test]
fn big_integers_keep_their_value() {
    assert_eq!(U256::from_u64(0), U256::zero());
    assert_eq!(U256::zero().to_minimal_bytes(), Vec::<u8>::new());
    assert_eq!(U256::from_u64(21000).to_minimal_bytes(), vec![0x52, 0x08]);
    let mut bytes = [0u8; 32];
    bytes[24..].copy_from_slice(&1_000_000_000_000_000_000u64.to_be_bytes());
    assert_eq!(U256::from_u64(1_000_000_000_000_000_000).0, bytes);
    assert_eq!(U256::from_big_endian(&[0x01, 0x00]).to_minimal_bytes(), vec![0x01, 0x00]);
    assert_eq!(U256::from_big_endian(&[0x00, 0x00, 0x09]), U256::from_u64(9));
    assert_eq!(U256::from_big_endian(&[]), U256::zero());
    assert_eq!(U256::from_big_endian(&[0xff; 32]).to_minimal_bytes(), vec![0xff; 32]);
    assert_eq!(U256::from_u64(7).to_big_endian()[31], 7);
    assert!(U256::from_u64(7).same(&U256::from_big_endian(&[7])));
    assert!(!U256::from_u64(7).same(&U256::from_u64(8)));
}
