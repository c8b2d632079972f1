//! Reading the format back: a parser as a spec function, and the proof that
//! it finds in an encoding what was encoded.

use vstd::prelude::*;
use crate::api::accounts::{rlp_access_item, rlp_access_items, rlp_access_list, rlp_keys, rlp_signature, rlp_to, Transaction, TransactionType};
use crate::rlp::{be_bytes, be_value, is_minimal, lemma_digit_count, lemma_value_of_digits, rlp_list, rlp_string, rlp_uint};
use crate::signing::Signature;
use crate::types::{AccessListItem, Address, H256};

verus! {

/// One item as a parser sees it: a string or a list, its payload, and the
/// number of bytes that its encoding takes.
pub struct Item {
    pub list: bool,
    pub payload: Seq<u8>,
    pub size: nat,
}

/// The item that the encoding of the string `s` holds.
pub open spec fn string_item(s: Seq<u8>) -> Item {
    Item { list: false, payload: s, size: rlp_string(s).len() }
}

/// The item that the encoding of a list with the payload `p` holds.
pub open spec fn list_item(p: Seq<u8>) -> Item {
    Item { list: true, payload: p, size: rlp_list(p).len() }
}

/// An item whose length sits in its first byte. A single byte below `0x80`
/// behind a length of one is refused: it stands for itself.
pub open spec fn read_short(b: Seq<u8>, list: bool, len: int) -> Option<Item> {
    if b.len() < 1 + len {
        None
    } else if !list && len == 1 && b[1] < 0x80 {
        None
    } else {
        Some(Item { list, payload: b.subrange(1, 1 + len), size: (1 + len) as nat })
    }
}

/// An item whose length follows its first byte in `k` digits. Digits with a
/// leading zero and a length that fits the short form are refused.
pub open spec fn read_long(b: Seq<u8>, list: bool, k: int) -> Option<Item> {
    if b.len() < 1 + k {
        None
    } else {
        let digits = b.subrange(1, 1 + k);
        let len = be_value(digits);
        if digits[0] == 0 || len <= 55 || b.len() < 1 + k + len {
            None
        } else {
            Some(Item { list, payload: b.subrange(1 + k, 1 + k + len), size: (1 + k + len) as nat })
        }
    }
}

/// The item at the front of `b`, if `b` starts with a well-formed one.
pub open spec fn read_item(b: Seq<u8>) -> Option<Item> {
    if b.len() == 0 {
        None
    } else if b[0] < 0x80 {
        Some(Item { list: false, payload: b.subrange(0, 1), size: 1 })
    } else if b[0] <= 0xb7 {
        read_short(b, false, b[0] - 0x80)
    } else if b[0] <= 0xbf {
        read_long(b, false, b[0] - 0xb7)
    } else if b[0] <= 0xf7 {
        read_short(b, true, b[0] - 0xc0)
    } else {
        read_long(b, true, b[0] - 0xf7)
    }
}

/// The items that `b` is made of, if it is a run of well-formed items.
pub open spec fn read_items(b: Seq<u8>) -> Option<Seq<Item>>
    decreases b.len(),
{
    if b.len() == 0 {
        Some(Seq::empty())
    } else {
        match read_item(b) {
            None => None,
            Some(item) => if item.size == 0 || item.size > b.len() {
                None
            } else {
                match read_items(b.subrange(item.size as int, b.len() as int)) {
                    None => None,
                    Some(rest) => Some(seq![item] + rest),
                }
            },
        }
    }
}

/// The encoding of a string is at least as long as the string, and not
/// empty.
pub proof fn lemma_string_size(s: Seq<u8>)
    ensures
        rlp_string(s).len() >= s.len(),
        rlp_string(s).len() >= 1,
{
}

/// The encoding of a list is longer than its payload.
pub proof fn lemma_list_size(p: Seq<u8>)
    ensures
        rlp_list(p).len() > p.len(),
{
}

/// The digits of a length above 55 that fits in 64 bits: between one and
/// eight, the first not zero, and their value the length.
proof fn lemma_length_digits(len: nat)
    requires
        55 < len <= u64::MAX,
    ensures
        1 <= be_bytes(len).len() <= 8,
        be_bytes(len)[0] != 0,
        be_value(be_bytes(len)) == len,
{
    lemma_value_of_digits(len);
    lemma_digit_count(len, 8);
}

/// A parser finds the string `s` at the front of its encoding, whatever
/// follows.
pub proof fn lemma_read_string(s: Seq<u8>, rest: Seq<u8>)
    requires
        s.len() <= u64::MAX,
    ensures
        read_item(rlp_string(s) + rest) == Some(string_item(s)),
{
    let b = rlp_string(s) + rest;
    if s.len() == 1 && s[0] < 0x80 {
        assert(b.subrange(0, 1) =~= s);
    } else if s.len() <= 55 {
        assert(b[0] == (0x80 + s.len()) as u8);
        assert(b.subrange(1, 1 + s.len() as int) =~= s);
        if s.len() == 1 {
            assert(b[1] == s[0]);
        }
    } else {
        let digits = be_bytes(s.len());
        let k = digits.len() as int;
        lemma_length_digits(s.len());
        assert(b[0] == (0xb7 + k) as u8);
        assert(b.subrange(1, 1 + k) =~= digits);
        assert(b.subrange(1 + k, 1 + k + s.len()) =~= s);
    }
}

/// A parser finds a list with the payload `p` at the front of its encoding,
/// whatever follows.
pub proof fn lemma_read_list(p: Seq<u8>, rest: Seq<u8>)
    requires
        p.len() <= u64::MAX,
    ensures
        read_item(rlp_list(p) + rest) == Some(list_item(p)),
{
    let b = rlp_list(p) + rest;
    if p.len() <= 55 {
        assert(b[0] == (0xc0 + p.len()) as u8);
        assert(b.subrange(1, 1 + p.len() as int) =~= p);
    } else {
        let digits = be_bytes(p.len());
        let k = digits.len() as int;
        lemma_length_digits(p.len());
        assert(b[0] == (0xf7 + k) as u8);
        assert(b.subrange(1, 1 + k) =~= digits);
        assert(b.subrange(1 + k, 1 + k + p.len()) =~= p);
    }
}

/// Where a parser finds `item` at the front of `enc + rest` and `enc` is the
/// whole of its encoding, the items of `enc + rest` are `item` and the items
/// of `rest`.
pub proof fn lemma_items_cons(enc: Seq<u8>, item: Item, rest: Seq<u8>)
    requires
        read_item(enc + rest) == Some(item),
        item.size == enc.len(),
        enc.len() >= 1,
        read_items(rest) is Some,
    ensures
        read_items(enc + rest) == Some(seq![item] + read_items(rest)->Some_0),
{
    let b = enc + rest;
    assert(b.subrange(item.size as int, b.len() as int) =~= rest);
}

/// The items of an encoded string followed by `rest`.
pub proof fn lemma_items_string(s: Seq<u8>, rest: Seq<u8>)
    requires
        s.len() <= u64::MAX,
        read_items(rest) is Some,
    ensures
        read_items(rlp_string(s) + rest) == Some(seq![string_item(s)] + read_items(rest)->Some_0),
{
    lemma_read_string(s, rest);
    lemma_items_cons(rlp_string(s), string_item(s), rest);
}

/// The items of an encoded list followed by `rest`.
pub proof fn lemma_items_list(p: Seq<u8>, rest: Seq<u8>)
    requires
        p.len() <= u64::MAX,
        read_items(rest) is Some,
    ensures
        read_items(rlp_list(p) + rest) == Some(seq![list_item(p)] + read_items(rest)->Some_0),
{
    lemma_read_list(p, rest);
    lemma_items_cons(rlp_list(p), list_item(p), rest);
}

/// The encoding of an item.
pub open spec fn item_encoding(item: Item) -> Seq<u8> {
    if item.list {
        rlp_list(item.payload)
    } else {
        rlp_string(item.payload)
    }
}

/// An item as an encoder writes it: with a payload whose length fits in 64
/// bits, and the size of its encoding.
pub open spec fn well_sized(item: Item) -> bool {
    item.payload.len() <= u64::MAX && item.size == item_encoding(item).len()
}

/// The encodings of `items`, one after the other.
pub open spec fn frame(items: Seq<Item>) -> Seq<u8>
    decreases items.len(),
{
    if items.len() == 0 {
        Seq::empty()
    } else {
        item_encoding(items[0]) + frame(items.skip(1))
    }
}

/// A parser finds in a frame the items that it was made of.
pub proof fn lemma_read_frame(items: Seq<Item>)
    requires
        forall|i: int| 0 <= i < items.len() ==> well_sized(#[trigger] items[i]),
    ensures
        read_items(frame(items)) == Some(items),
    decreases items.len(),
{
    if items.len() > 0 {
        let rest = items.skip(1);
        assert forall|i: int| 0 <= i < rest.len() implies well_sized(#[trigger] rest[i]) by {
            assert(rest[i] == items[i + 1]);
        }
        lemma_read_frame(rest);
        let first = items[0];
        assert(well_sized(first));
        if first.list {
            lemma_items_list(first.payload, frame(rest));
            assert(list_item(first.payload) == first);
        } else {
            lemma_items_string(first.payload, frame(rest));
            assert(string_item(first.payload) == first);
        }
        assert(seq![first] + rest =~= items);
    }
}

/// A frame grows at its end by the encoding of the item that is added.
pub proof fn lemma_frame_push(items: Seq<Item>, last: Item)
    ensures
        frame(items.push(last)) == frame(items) + item_encoding(last),
    decreases items.len(),
{
    let all = items.push(last);
    if items.len() == 0 {
        assert(all.skip(1) =~= Seq::<Item>::empty());
        assert(frame(all.skip(1)) =~= Seq::<u8>::empty());
        assert(frame(all) =~= item_encoding(last));
        assert(frame(items) + item_encoding(last) =~= item_encoding(last));
    } else {
        lemma_frame_push(items.skip(1), last);
        assert(all.skip(1) =~= items.skip(1).push(last));
        assert(all[0] == items[0]);
        assert(frame(all) =~= frame(items) + item_encoding(last));
    }
}

/// Every item of a frame is encoded in no more bytes than the frame has.
pub proof fn lemma_frame_bounds(items: Seq<Item>, i: int)
    requires
        0 <= i < items.len(),
    ensures
        item_encoding(items[i]).len() <= frame(items).len(),
        items[i].payload.len() <= frame(items).len(),
    decreases items.len(),
{
    if i > 0 {
        lemma_frame_bounds(items.skip(1), i - 1);
        assert(items.skip(1)[i - 1] == items[i]);
    }
}

/// The storage keys of an entry as items.
pub open spec fn key_items(keys: Seq<H256>) -> Seq<Item> {
    Seq::new(keys.len(), |j: int| string_item(keys[j]@))
}

/// One entry as an item: a list of the address and the list of its keys.
pub open spec fn entry_item(entry: AccessListItem) -> Item {
    list_item(rlp_string(entry.address@) + rlp_list(rlp_keys(entry.storage_keys@)))
}

/// The entries of an access list as items.
pub open spec fn entry_items(entries: Seq<AccessListItem>) -> Seq<Item> {
    Seq::new(entries.len(), |i: int| entry_item(entries[i]))
}

/// The encoded storage keys are the frame of the keys as items.
pub proof fn lemma_keys_frame(keys: Seq<H256>)
    ensures
        rlp_keys(keys) == frame(key_items(keys)),
    decreases keys.len(),
{
    if keys.len() == 0 {
        assert(frame(key_items(keys)) =~= Seq::<u8>::empty());
    } else {
        let init = keys.drop_last();
        lemma_keys_frame(init);
        lemma_frame_push(key_items(init), string_item(keys.last()@));
        assert(key_items(init).push(string_item(keys.last()@)) =~= key_items(keys));
    }
}

/// The encoded entries are the frame of the entries as items.
pub proof fn lemma_entries_frame(entries: Seq<AccessListItem>)
    ensures
        rlp_access_items(entries) == frame(entry_items(entries)),
    decreases entries.len(),
{
    if entries.len() == 0 {
        assert(frame(entry_items(entries)) =~= Seq::<u8>::empty());
    } else {
        let init = entries.drop_last();
        lemma_entries_frame(init);
        lemma_frame_push(entry_items(init), entry_item(entries.last()));
        assert(entry_items(init).push(entry_item(entries.last())) =~= entry_items(entries));
    }
}

/// An entry of an access list as a parser reports it.
pub struct DecodedEntry {
    pub address: Seq<u8>,
    pub storage_keys: Seq<Seq<u8>>,
}

/// A transaction as a parser reports it.
pub struct DecodedTransaction {
    pub kind: TransactionType,
    pub nonce: nat,
    pub gas: nat,
    pub value: nat,
    /// The recipient's 20 bytes; absent where the field is the empty string.
    pub to: Option<Seq<u8>>,
    pub data: Seq<u8>,
    pub access_list: Seq<DecodedEntry>,
}

/// The payloads of a run of items.
pub open spec fn payloads(items: Seq<Item>) -> Seq<Seq<u8>> {
    Seq::new(items.len(), |j: int| items[j].payload)
}

/// Reads one entry: a list of two items, a string and a list of strings.
pub open spec fn decode_entry(entry: Item) -> Option<DecodedEntry> {
    if !entry.list {
        None
    } else {
        match read_items(entry.payload) {
            None => None,
            Some(parts) => if parts.len() != 2 || parts[0].list || !parts[1].list {
                None
            } else {
                match read_items(parts[1].payload) {
                    None => None,
                    Some(keys) => if forall|j: int| 0 <= j < keys.len() ==> !(#[trigger] keys[j]).list {
                        Some(
                            DecodedEntry {
                                address: parts[0].payload,
                                storage_keys: payloads(keys),
                            },
                        )
                    } else {
                        None
                    },
                }
            },
        }
    }
}

/// Reads an access list: a list of entries.
pub open spec fn decode_access_list(item: Item) -> Option<Seq<DecodedEntry>> {
    if !item.list {
        None
    } else {
        match read_items(item.payload) {
            None => None,
            Some(entries) => if forall|i: int|
                0 <= i < entries.len() ==> (#[trigger] decode_entry(entries[i])) is Some {
                Some(Seq::new(entries.len(), |i: int| decode_entry(entries[i])->Some_0))
            } else {
                None
            },
        }
    }
}

/// An entry as a parser is to report it.
pub open spec fn expected_entry(entry: AccessListItem) -> DecodedEntry {
    DecodedEntry {
        address: entry.address@,
        storage_keys: Seq::new(entry.storage_keys@.len(), |j: int| entry.storage_keys@[j]@),
    }
}

/// An access list as a parser is to report it.
pub open spec fn expected_entries(entries: Seq<AccessListItem>) -> Seq<DecodedEntry> {
    Seq::new(entries.len(), |i: int| expected_entry(entries[i]))
}

/// A parser reads an encoded entry back.
pub proof fn lemma_decode_entry(entry: AccessListItem)
    requires
        rlp_access_item(entry).len() <= u64::MAX,
    ensures
        decode_entry(entry_item(entry)) == Some(expected_entry(entry)),
{
    let keys = entry.storage_keys@;
    let key_frame = rlp_keys(keys);
    let parts = seq![string_item(entry.address@), list_item(key_frame)];
    let payload = rlp_string(entry.address@) + rlp_list(key_frame);
    lemma_list_size(payload);
    lemma_list_size(key_frame);
    lemma_string_size(entry.address@);
    assert(frame(parts) =~= payload) by {
        reveal_with_fuel(frame, 3);
        assert(parts.skip(1).skip(1) =~= Seq::<Item>::empty());
        assert(parts.skip(1)[0] == parts[1]);
    }
    lemma_read_frame(parts);
    lemma_keys_frame(keys);
    assert forall|j: int| 0 <= j < key_items(keys).len() implies well_sized(
        #[trigger] key_items(keys)[j],
    ) by {
        lemma_frame_bounds(key_items(keys), j);
    }
    lemma_read_frame(key_items(keys));
    assert(payloads(key_items(keys)) =~= expected_entry(entry).storage_keys);
}

/// A parser reads an encoded access list back.
pub proof fn lemma_decode_access_list(entries: Seq<AccessListItem>)
    requires
        rlp_access_list(entries).len() <= u64::MAX,
    ensures
        decode_access_list(list_item(rlp_access_items(entries))) == Some(
            expected_entries(entries),
        ),
{
    let items = entry_items(entries);
    lemma_entries_frame(entries);
    lemma_list_size(rlp_access_items(entries));
    assert forall|i: int| 0 <= i < items.len() implies well_sized(#[trigger] items[i])
        && decode_entry(items[i]) == Some(expected_entry(entries[i])) by {
        lemma_frame_bounds(items, i);
        lemma_list_size(items[i].payload);
        assert(item_encoding(items[i]) == rlp_access_item(entries[i]));
        lemma_decode_entry(entries[i]);
    }
    lemma_read_frame(items);
    assert(Seq::new(items.len(), |i: int| decode_entry(items[i])->Some_0) =~= expected_entries(
        entries,
    ));
}

/// An unsigned integer as an item: the string of its digits.
pub open spec fn uint_item(n: nat) -> Item {
    string_item(be_bytes(n))
}

/// The recipient as an item: the string of its 20 bytes, or the empty string.
pub open spec fn to_item(to: Option<Address>) -> Item {
    string_item(
        match to {
            Some(address) => address@,
            None => Seq::empty(),
        },
    )
}

/// The access list as an item.
pub open spec fn access_list_item(entries: Seq<AccessListItem>) -> Item {
    list_item(rlp_access_items(entries))
}

/// The six fields that every envelope holds, as items.
pub open spec fn six_items(tx: Transaction) -> Seq<Item> {
    seq![
        uint_item(tx.nonce@),
        uint_item(tx.gas_price@),
        uint_item(tx.gas@),
        to_item(tx.to),
        uint_item(tx.value@),
        string_item(tx.data@),
    ]
}

/// Three integers as items.
pub open spec fn uint_items(a: nat, b: nat, c: nat) -> Seq<Item> {
    seq![uint_item(a), uint_item(b), uint_item(c)]
}

/// What ends a legacy list, as items.
pub open spec fn legacy_tail_items(chain_id: u64, signature: Option<Signature>) -> Seq<Item> {
    match signature {
        Some(sig) => uint_items(sig.v as nat, be_value(sig.r@), be_value(sig.s@)),
        None => uint_items(chain_id as nat, 0, 0),
    }
}

/// What ends a typed list, as items.
pub open spec fn typed_tail_items(signature: Option<Signature>) -> Seq<Item> {
    match signature {
        Some(sig) => uint_items(sig.v as nat, be_value(sig.r@), be_value(sig.s@)),
        None => Seq::empty(),
    }
}

/// The items of the list of an envelope: nine in a legacy one, eight or
/// eleven in an access-list one, nine or twelve in a fee-market one.
pub open spec fn envelope_items(
    tx: Transaction,
    kind: TransactionType,
    chain_id: u64,
    signature: Option<Signature>,
) -> Seq<Item> {
    match kind {
        TransactionType::Legacy => six_items(tx) + legacy_tail_items(chain_id, signature),
        TransactionType::AccessList => seq![uint_item(chain_id as nat)] + six_items(tx)
            + seq![access_list_item(tx.access_list@)] + typed_tail_items(signature),
        TransactionType::FeeMarket => seq![
            uint_item(chain_id as nat),
            uint_item(tx.nonce@),
            uint_item(tx.max_priority_fee_per_gas@),
        ] + seq![
            uint_item(tx.gas_price@),
            uint_item(tx.gas@),
            to_item(tx.to),
            uint_item(tx.value@),
            string_item(tx.data@),
        ] + seq![access_list_item(tx.access_list@)] + typed_tail_items(signature),
    }
}

/// The payload of the list of an envelope.
pub open spec fn envelope_payload(
    tx: Transaction,
    kind: TransactionType,
    chain_id: u64,
    signature: Option<Signature>,
) -> Seq<u8> {
    match kind {
        TransactionType::Legacy => tx.legacy_fields() + crate::api::accounts::legacy_tail(
            chain_id,
            signature,
        ),
        TransactionType::AccessList => rlp_uint(chain_id as nat) + tx.legacy_fields()
            + rlp_access_list(tx.access_list@) + crate::api::accounts::typed_tail(signature),
        TransactionType::FeeMarket => rlp_uint(chain_id as nat) + rlp_uint(tx.nonce@) + rlp_uint(
            tx.max_priority_fee_per_gas@,
        ) + rlp_uint(tx.gas_price@) + rlp_uint(tx.gas@) + rlp_to(tx.to) + rlp_uint(tx.value@)
            + rlp_string(tx.data@) + rlp_access_list(tx.access_list@)
            + crate::api::accounts::typed_tail(signature),
    }
}

/// The frame of two runs of items is the frame of the first followed by the
/// frame of the second.
pub proof fn lemma_frame_concat(a: Seq<Item>, b: Seq<Item>)
    ensures
        frame(a + b) == frame(a) + frame(b),
    decreases a.len(),
{
    if a.len() == 0 {
        assert(a + b =~= b);
        assert(frame(a) + frame(b) =~= frame(b));
    } else {
        lemma_frame_concat(a.skip(1), b);
        assert((a + b).skip(1) =~= a.skip(1) + b);
        assert((a + b)[0] == a[0]);
        assert(frame(a + b) =~= frame(a) + frame(b));
    }
}

/// The frame of one item is its encoding.
pub proof fn lemma_frame_one(x: Item)
    ensures
        frame(seq![x]) == item_encoding(x),
{
    lemma_frame_push(Seq::empty(), x);
    assert(Seq::<Item>::empty().push(x) =~= seq![x]);
    assert(frame(Seq::<Item>::empty()) + item_encoding(x) =~= item_encoding(x));
}

/// The frame of three integers.
pub proof fn lemma_frame_uints(a: nat, b: nat, c: nat)
    ensures
        frame(uint_items(a, b, c)) == rlp_uint(a) + rlp_uint(b) + rlp_uint(c),
{
    lemma_frame_one(uint_item(a));
    lemma_frame_push(seq![uint_item(a)], uint_item(b));
    lemma_frame_push(seq![uint_item(a), uint_item(b)], uint_item(c));
    assert(seq![uint_item(a)].push(uint_item(b)) =~= seq![uint_item(a), uint_item(b)]);
    assert(seq![uint_item(a), uint_item(b)].push(uint_item(c)) =~= uint_items(a, b, c));
}

/// The frame of the six fields that every envelope holds.
pub proof fn lemma_frame_six(tx: Transaction)
    ensures
        frame(six_items(tx)) == tx.legacy_fields(),
{
    let head = uint_items(tx.nonce@, tx.gas_price@, tx.gas@);
    let tail = seq![to_item(tx.to), uint_item(tx.value@), string_item(tx.data@)];
    lemma_frame_uints(tx.nonce@, tx.gas_price@, tx.gas@);
    lemma_frame_one(to_item(tx.to));
    lemma_frame_push(seq![to_item(tx.to)], uint_item(tx.value@));
    lemma_frame_push(seq![to_item(tx.to), uint_item(tx.value@)], string_item(tx.data@));
    assert(seq![to_item(tx.to)].push(uint_item(tx.value@)) =~= seq![
        to_item(tx.to),
        uint_item(tx.value@),
    ]);
    assert(seq![to_item(tx.to), uint_item(tx.value@)].push(string_item(tx.data@)) =~= tail);
    lemma_frame_concat(head, tail);
    assert(head + tail =~= six_items(tx));
    assert(item_encoding(to_item(tx.to)) == rlp_to(tx.to));
    assert(frame(six_items(tx)) =~= tx.legacy_fields());
}

/// The frame of what ends a legacy list.
pub proof fn lemma_frame_legacy_tail(chain_id: u64, signature: Option<Signature>)
    ensures
        frame(legacy_tail_items(chain_id, signature)) == crate::api::accounts::legacy_tail(
            chain_id,
            signature,
        ),
{
    match signature {
        Some(sig) => {
            lemma_frame_uints(sig.v as nat, be_value(sig.r@), be_value(sig.s@));
        },
        None => {
            lemma_frame_uints(chain_id as nat, 0, 0);
        },
    }
}

/// The frame of what ends a typed list.
pub proof fn lemma_frame_typed_tail(signature: Option<Signature>)
    ensures
        frame(typed_tail_items(signature)) == crate::api::accounts::typed_tail(signature),
{
    match signature {
        Some(sig) => {
            lemma_frame_uints(sig.v as nat, be_value(sig.r@), be_value(sig.s@));
        },
        None => {
            assert(frame(Seq::<Item>::empty()) =~= Seq::<u8>::empty());
        },
    }
}

/// The frame of the five fields of a fee-market list from the maximum fee
/// to the call data.
proof fn lemma_frame_five(tx: Transaction)
    ensures
        frame(
            seq![
                uint_item(tx.gas_price@),
                uint_item(tx.gas@),
                to_item(tx.to),
                uint_item(tx.value@),
                string_item(tx.data@),
            ],
        ) == rlp_uint(tx.gas_price@) + rlp_uint(tx.gas@) + rlp_to(tx.to) + rlp_uint(tx.value@)
            + rlp_string(tx.data@),
{
    let b2 = seq![uint_item(tx.gas_price@), uint_item(tx.gas@)];
    let b3 = seq![to_item(tx.to), uint_item(tx.value@), string_item(tx.data@)];
    lemma_frame_one(uint_item(tx.gas_price@));
    lemma_frame_push(seq![uint_item(tx.gas_price@)], uint_item(tx.gas@));
    assert(seq![uint_item(tx.gas_price@)].push(uint_item(tx.gas@)) =~= b2);
    lemma_frame_one(to_item(tx.to));
    lemma_frame_push(seq![to_item(tx.to)], uint_item(tx.value@));
    lemma_frame_push(seq![to_item(tx.to), uint_item(tx.value@)], string_item(tx.data@));
    assert(seq![to_item(tx.to)].push(uint_item(tx.value@)) =~= seq![
        to_item(tx.to),
        uint_item(tx.value@),
    ]);
    assert(seq![to_item(tx.to), uint_item(tx.value@)].push(string_item(tx.data@)) =~= b3);
    lemma_frame_concat(b2, b3);
    assert(b2 + b3 =~= seq![
        uint_item(tx.gas_price@),
        uint_item(tx.gas@),
        to_item(tx.to),
        uint_item(tx.value@),
        string_item(tx.data@),
    ]);
    assert(item_encoding(to_item(tx.to)) == rlp_to(tx.to));
    assert(frame(b2) + frame(b3) =~= rlp_uint(tx.gas_price@) + rlp_uint(tx.gas@) + rlp_to(tx.to)
        + rlp_uint(tx.value@) + rlp_string(tx.data@));
}

/// The frame of four runs of items.
proof fn lemma_frame_four(a: Seq<Item>, b: Seq<Item>, c: Seq<Item>, d: Seq<Item>)
    ensures
        frame(a + b + c + d) == frame(a) + frame(b) + frame(c) + frame(d),
{
    lemma_frame_concat(a, b);
    lemma_frame_concat(a + b, c);
    lemma_frame_concat(a + b + c, d);
}

/// Ten byte strings in a row, the first three and the next five grouped or
/// not.
proof fn lemma_join(
    x1: Seq<u8>,
    x2: Seq<u8>,
    x3: Seq<u8>,
    y1: Seq<u8>,
    y2: Seq<u8>,
    y3: Seq<u8>,
    y4: Seq<u8>,
    y5: Seq<u8>,
    l: Seq<u8>,
    t: Seq<u8>,
)
    ensures
        (x1 + x2 + x3) + (y1 + y2 + y3 + y4 + y5) + l + t == x1 + x2 + x3 + y1 + y2 + y3 + y4 + y5
            + l + t,
{
    assert((x1 + x2 + x3) + (y1 + y2 + y3 + y4 + y5) + l + t =~= x1 + x2 + x3 + y1 + y2 + y3 + y4
        + y5 + l + t);
}

/// The payload of the list of a legacy envelope is the frame of its items.
pub proof fn lemma_legacy_frame(tx: Transaction, chain_id: u64, signature: Option<Signature>)
    ensures
        frame(envelope_items(tx, TransactionType::Legacy, chain_id, signature))
            == envelope_payload(tx, TransactionType::Legacy, chain_id, signature),
{
    lemma_frame_six(tx);
    lemma_frame_legacy_tail(chain_id, signature);
    lemma_frame_concat(six_items(tx), legacy_tail_items(chain_id, signature));
}

/// The payload of the list of an access-list envelope is the frame of its
/// items.
pub proof fn lemma_access_list_frame(tx: Transaction, chain_id: u64, signature: Option<Signature>)
    ensures
        frame(envelope_items(tx, TransactionType::AccessList, chain_id, signature))
            == envelope_payload(tx, TransactionType::AccessList, chain_id, signature),
{
    let a = seq![uint_item(chain_id as nat)];
    let list = seq![access_list_item(tx.access_list@)];
    let tail = typed_tail_items(signature);
    lemma_frame_six(tx);
    lemma_frame_typed_tail(signature);
    lemma_frame_one(uint_item(chain_id as nat));
    lemma_frame_one(access_list_item(tx.access_list@));
    lemma_frame_concat(a, six_items(tx));
    lemma_frame_concat(a + six_items(tx), list);
    lemma_frame_concat(a + six_items(tx) + list, tail);
}

/// The payload of the list of a fee-market envelope is the frame of its
/// items.
pub proof fn lemma_fee_market_frame(tx: Transaction, chain_id: u64, signature: Option<Signature>)
    ensures
        frame(envelope_items(tx, TransactionType::FeeMarket, chain_id, signature))
            == envelope_payload(tx, TransactionType::FeeMarket, chain_id, signature),
{
    let a = uint_items(chain_id as nat, tx.nonce@, tx.max_priority_fee_per_gas@);
    let b = seq![
        uint_item(tx.gas_price@),
        uint_item(tx.gas@),
        to_item(tx.to),
        uint_item(tx.value@),
        string_item(tx.data@),
    ];
    let list = seq![access_list_item(tx.access_list@)];
    let tail = typed_tail_items(signature);
    lemma_frame_uints(chain_id as nat, tx.nonce@, tx.max_priority_fee_per_gas@);
    lemma_frame_five(tx);
    lemma_frame_typed_tail(signature);
    lemma_frame_one(access_list_item(tx.access_list@));
    lemma_frame_four(a, b, list, tail);
    lemma_join(
        rlp_uint(chain_id as nat),
        rlp_uint(tx.nonce@),
        rlp_uint(tx.max_priority_fee_per_gas@),
        rlp_uint(tx.gas_price@),
        rlp_uint(tx.gas@),
        rlp_to(tx.to),
        rlp_uint(tx.value@),
        rlp_string(tx.data@),
        rlp_access_list(tx.access_list@),
        crate::api::accounts::typed_tail(signature),
    );
}

/// An integer as a parser accepts it: a string without a leading zero.
pub open spec fn is_uint(item: Item) -> bool {
    !item.list && is_minimal(item.payload)
}

/// The fields of a transaction from the items at the given places.
pub open spec fn fields_at(
    kind: TransactionType,
    items: Seq<Item>,
    nonce: int,
    gas: int,
    to: int,
    value: int,
    data: int,
    access_list: Option<int>,
) -> Option<DecodedTransaction> {
    if !is_uint(items[nonce]) || !is_uint(items[gas]) || !is_uint(items[value]) || items[to].list
        || items[data].list || !(items[to].payload.len() == 0 || items[to].payload.len() == 20) {
        None
    } else {
        let entries = match access_list {
            Some(i) => decode_access_list(items[i]),
            None => Some(Seq::empty()),
        };
        match entries {
            None => None,
            Some(list) => Some(
                DecodedTransaction {
                    kind,
                    nonce: be_value(items[nonce].payload),
                    gas: be_value(items[gas].payload),
                    value: be_value(items[value].payload),
                    to: if items[to].payload.len() == 0 {
                        None
                    } else {
                        Some(items[to].payload)
                    },
                    data: items[data].payload,
                    access_list: list,
                },
            ),
        }
    }
}

/// The items of `b`, if `b` is one list and nothing more.
pub open spec fn decode_list(b: Seq<u8>) -> Option<Seq<Item>> {
    match read_item(b) {
        None => None,
        Some(outer) => if outer.list && outer.size == b.len() {
            read_items(outer.payload)
        } else {
            None
        },
    }
}

/// Reads a transaction from its bytes: behind the type byte `0x01` an
/// access-list transaction of eight or eleven items, behind `0x02` a
/// fee-market one of nine or twelve, else a legacy one of nine.
pub open spec fn decode_transaction(raw: Seq<u8>) -> Option<DecodedTransaction> {
    if raw.len() == 0 {
        None
    } else if raw[0] == 1 {
        match decode_list(raw.skip(1)) {
            None => None,
            Some(items) => if items.len() == 8 || items.len() == 11 {
                fields_at(TransactionType::AccessList, items, 1, 3, 4, 5, 6, Some(7))
            } else {
                None
            },
        }
    } else if raw[0] == 2 {
        match decode_list(raw.skip(1)) {
            None => None,
            Some(items) => if items.len() == 9 || items.len() == 12 {
                fields_at(TransactionType::FeeMarket, items, 1, 4, 5, 6, 7, Some(8))
            } else {
                None
            },
        }
    } else {
        match decode_list(raw) {
            None => None,
            Some(items) => if items.len() == 9 {
                fields_at(TransactionType::Legacy, items, 0, 2, 3, 4, 5, None)
            } else {
                None
            },
        }
    }
}

/// A transaction as a parser is to report it.
pub open spec fn fields_of(tx: Transaction, kind: TransactionType) -> DecodedTransaction {
    DecodedTransaction {
        kind,
        nonce: tx.nonce@,
        gas: tx.gas@,
        value: tx.value@,
        to: match tx.to {
            Some(address) => Some(address@),
            None => None,
        },
        data: tx.data@,
        access_list: expected_entries(tx.access_list@),
    }
}

/// Every item has the size of its encoding.
pub open spec fn all_sized(items: Seq<Item>) -> bool {
    forall|i: int| 0 <= i < items.len() ==> (#[trigger] items[i]).size == item_encoding(items[i]).len()
}

/// The items of an envelope have the sizes of their encodings.
pub proof fn lemma_envelope_sized(
    tx: Transaction,
    kind: TransactionType,
    chain_id: u64,
    signature: Option<Signature>,
)
    ensures
        all_sized(envelope_items(tx, kind, chain_id, signature)),
{
    assert(all_sized(six_items(tx)));
    assert(all_sized(legacy_tail_items(chain_id, signature)));
    assert(all_sized(typed_tail_items(signature)));
}

/// A parser finds in the list of an envelope the items of the envelope.
pub proof fn lemma_decode_envelope(
    tx: Transaction,
    kind: TransactionType,
    chain_id: u64,
    signature: Option<Signature>,
)
    requires
        rlp_list(envelope_payload(tx, kind, chain_id, signature)).len() <= u64::MAX,
    ensures
        decode_list(rlp_list(envelope_payload(tx, kind, chain_id, signature))) == Some(
            envelope_items(tx, kind, chain_id, signature),
        ),
        !(kind is Legacy) ==> rlp_access_list(tx.access_list@).len() <= u64::MAX,
        rlp_list(envelope_payload(tx, kind, chain_id, signature))[0] >= 0xc0,
{
    let items = envelope_items(tx, kind, chain_id, signature);
    let payload = envelope_payload(tx, kind, chain_id, signature);
    match kind {
        TransactionType::Legacy => lemma_legacy_frame(tx, chain_id, signature),
        TransactionType::AccessList => lemma_access_list_frame(tx, chain_id, signature),
        TransactionType::FeeMarket => lemma_fee_market_frame(tx, chain_id, signature),
    }
    lemma_envelope_sized(tx, kind, chain_id, signature);
    lemma_list_size(payload);
    assert forall|i: int| 0 <= i < items.len() implies well_sized(#[trigger] items[i])
        && item_encoding(items[i]).len() <= u64::MAX by {
        lemma_frame_bounds(items, i);
    }
    lemma_read_frame(items);
    lemma_read_list(payload, Seq::empty());
    assert(rlp_list(payload) + Seq::<u8>::empty() =~= rlp_list(payload));
    if payload.len() > 55 {
        lemma_digit_count(payload.len(), 8);
    }
    match kind {
        TransactionType::Legacy => {},
        TransactionType::AccessList => {
            assert(six_items(tx).len() == 6);
            lemma_frame_bounds(items, 7);
            assert(items[7] == access_list_item(tx.access_list@));
        },
        TransactionType::FeeMarket => {
            lemma_frame_bounds(items, 8);
            assert(items[8] == access_list_item(tx.access_list@));
        },
    }
}

} // verus!
