use rlp::Rlp;
use web3_signer::api::accounts::Transaction;
use web3_signer::signing::Signature;
use web3_signer::types::{AccessListItem, Address, H256, U256};

fn number(bytes: &[u8]) -> U256 {
    U256::from_big_endian(bytes)
}

fn sample(kind: Option<u64>, to: Option<Address>, data: Vec<u8>, list: Vec<AccessListItem>) -> Transaction {
    Transaction {
        to,
        nonce: U256::from_u64(0x0102_0304_0506),
        gas: U256::from_u64(90_000),
        gas_price: U256::from_u64(31_000_000_000),
        value: U256::from_big_endian(&[0x0d; 17]),
        data,
        transaction_type: kind,
        access_list: list,
        max_priority_fee_per_gas: U256::from_u64(1_500_000_000),
    }
}

fn entries() -> Vec<AccessListItem> {
    vec![
        AccessListItem { address: Address([0xa1; 20]), storage_keys: vec![H256([0; 32]), H256([9; 32])] },
        AccessListItem { address: Address([0xa2; 20]), storage_keys: Vec::new() },
        AccessListItem { address: Address([0x00; 20]), storage_keys: vec![H256([0xff; 32])] },
    ]
}

/// Reads the fields back with the parser of the `rlp` crate and holds them
/// against what went in.
fn read_back(tx: &Transaction, raw: &[u8], signed: bool) {
    let (body, places, count): (&[u8], [usize; 5], usize) = match tx.transaction_type {
        None | Some(0) => (raw, [0, 2, 3, 4, 5], 9),
        Some(1) => {
            assert_eq!(raw[0], 1);
            (&raw[1..], [1, 3, 4, 5, 6], if signed { 11 } else { 8 })
        }
        _ => {
            assert_eq!(raw[0], 2);
            (&raw[1..], [1, 4, 5, 6, 7], if signed { 12 } else { 9 })
        }
    };
    let list = Rlp::new(body);
    assert!(list.is_list());
    assert_eq!(list.item_count().unwrap(), count);
    assert_eq!(list.as_raw().len(), body.len());
    assert_eq!(number(list.at(places[0]).unwrap().data().unwrap()), tx.nonce);
    assert_eq!(number(list.at(places[1]).unwrap().data().unwrap()), tx.gas);
    let to = list.at(places[2]).unwrap().data().unwrap().to_vec();
    match &tx.to {
        Some(address) => assert_eq!(to, address.0.to_vec()),
        None => assert!(to.is_empty()),
    }
    assert_eq!(number(list.at(places[3]).unwrap().data().unwrap()), tx.value);
    assert_eq!(list.at(places[4]).unwrap().data().unwrap(), &tx.data[..]);
    if tx.transaction_type == Some(1) || tx.transaction_type == Some(2) {
        let access = list.at(places[4] + 1).unwrap();
        assert!(access.is_list());
        assert_eq!(access.item_count().unwrap(), tx.access_list.len());
        for (i, entry) in tx.access_list.iter().enumerate() {
            let read = access.at(i).unwrap();
            assert_eq!(read.item_count().unwrap(), 2);
            assert_eq!(read.at(0).unwrap().data().unwrap(), &entry.address.0[..]);
            let keys = read.at(1).unwrap();
            assert_eq!(keys.item_count().unwrap(), entry.storage_keys.len());
            for (j, key) in entry.storage_keys.iter().enumerate() {
                assert_eq!(keys.at(j).unwrap().data().unwrap(), &key.0[..]);
            }
        }
    }
}

#[test]
fn a_parser_reads_back_what_was_encoded() {
    let signature = Signature { v: 1, r: H256([0x21; 32]), s: H256([0x43; 32]) };
    for kind in [None, Some(0u64), Some(1), Some(2)] {
        for to in [None, Some(Address([0x5a; 20])), Some(Address([0; 20]))] {
            for data in [Vec::new(), vec![0], vec![0x80, 1], vec![0x33; 200], vec![0x44; 66_000]] {
                let list = if kind == Some(1) || kind == Some(2) { entries() } else { Vec::new() };
                let tx = sample(kind, to, data, list);
                let raw = tx.encode(10, None).unwrap();
                read_back(&tx, &raw, false);
                let raw = tx.encode(10, Some(&signature)).unwrap();
                read_back(&tx, &raw, true);
            }
        }
    }
}

#[test]
fn a_parser_reads_the_signature_back() {
    let signature = Signature { v: 38, r: H256([0x21; 32]), s: H256([0x43; 32]) };
    let tx = sample(None, Some(Address([0x5a; 20])), vec![1, 2, 3], Vec::new());
    let raw = tx.encode(1, Some(&signature)).unwrap();
    let list = Rlp::new(&raw);
    assert_eq!(list.at(6).unwrap().as_val::<u64>().unwrap(), 38);
    assert_eq!(list.at(7).unwrap().data().unwrap(), &[0x21; 32][..]);
    assert_eq!(list.at(8).unwrap().data().unwrap(), &[0x43; 32][..]);
    let raw = tx.encode(77, None).unwrap();
    let list = Rlp::new(&raw);
    assert_eq!(list.at(6).unwrap().as_val::<u64>().unwrap(), 77);
    assert!(list.at(7).unwrap().data().unwrap().is_empty());
    assert!(list.at(8).unwrap().data().unwrap().is_empty());
}

#[test]
fn an_address_is_read_in_either_case() {
    let lower = Address::from_hex("0x9d8a62f656a8d1615c1294fd71e9cfb3e4855a4f").unwrap();
    let mixed = Address::from_hex("0x9d8A62f656a8d1615C1294fd71e9CFb3E4855A4F").unwrap();
    let upper = Address::from_hex("0X9D8A62F656A8D1615C1294FD71E9CFB3E4855A4F").unwrap();
    let bare = Address::from_hex("9d8a62f656a8d1615c1294fd71e9cfb3e4855a4f").unwrap();
    assert_eq!(lower, mixed);
    assert_eq!(lower, upper);
    assert_eq!(lower, bare);
    assert!(lower.same(&mixed));
    assert_eq!(lower.0[0], 0x9d);
    assert_eq!(lower.0[19], 0x4f);
    assert_eq!(Address::from_hex(""), None);
    assert_eq!(Address::from_hex("0x"), None);
    assert_eq!(Address::from_hex("0x9d8a62f656a8d1615c1294fd71e9cfb3e4855a4"), None);
    assert_eq!(Address::from_hex("0x9d8a62f656a8d1615c1294fd71e9cfb3e4855a4f0"), None);
    assert_eq!(Address::from_hex("0x9d8a62f656a8d1615c1294fd71e9cfb3e4855a4g"), None);
    assert_eq!(Address::from_hex("0x9d8a62f656a8d1615c1294fd71e9cfb3e4855a4\u{e9}"), None);
    assert!(!lower.same(&Address([0; 20])));
    assert!(H256([1; 32]).same(&H256::from_slice(&[1; 32])));
    assert!(!H256([1; 32]).same(&H256::zero()));
}
