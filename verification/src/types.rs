//! Fixed-size values of the chain: hashes, addresses, 256-bit integers,
//! access lists and block references.

use vstd::prelude::*;
use vstd::string::StringSliceAdditionalSpecFns;
use crate::rlp::{be_bytes, be_value, is_minimal, lemma_digits_of_value, lemma_leading_zeros, lemma_value_of_digits, uint_bytes};

verus! {

/// A 32-byte hash or storage key.
#[derive(Clone, Copy, Debug, PartialEq, Eq)]
pub struct H256(pub [u8; 32]);

/// A 20-byte account address.
#[derive(Clone, Copy, Debug, PartialEq, Eq)]
pub struct Address(pub [u8; 20]);

/// An 8-byte value, such as a proof-of-work nonce.
#[derive(Clone, Copy, Debug, PartialEq, Eq)]
pub struct H64(pub [u8; 8]);

/// An unsigned 256-bit integer, held as 32 bytes, most significant first.
#[derive(Clone, Copy, Debug, PartialEq, Eq)]
pub struct U256(pub [u8; 32]);

impl View for H256 {
    type V = Seq<u8>;

    open spec fn view(&self) -> Seq<u8> {
        self.0@
    }
}

impl View for Address {
    type V = Seq<u8>;

    open spec fn view(&self) -> Seq<u8> {
        self.0@
    }
}

impl View for U256 {
    type V = nat;

    open spec fn view(&self) -> nat {
        be_value(self.0@)
    }
}

/// Whether two byte slices hold the same bytes.
pub fn same_bytes(a: &[u8], b: &[u8]) -> (same: bool)
    ensures
        same <==> a@ == b@,
{
    if a.len() != b.len() {
        return false;
    }
    let mut i: usize = 0;
    while i < a.len()
        invariant
            a@.len() == b@.len(),
            i <= a@.len(),
            forall|j: int| 0 <= j < i ==> a@[j] == b@[j],
        decreases a@.len() - i,
    {
        if a[i] != b[i] {
            return false;
        }
        i += 1;
    }
    assert(a@ =~= b@);
    true
}

impl H256 {
    /// The hash of all zero bytes.
    pub fn zero() -> (h: H256)
        ensures
            h@ == Seq::new(32, |i: int| 0u8),
    {
        let h = H256([0u8; 32]);
        assert(h@ =~= Seq::new(32, |i: int| 0u8));
        h
    }

    /// The 32 bytes.
    pub fn as_bytes(&self) -> (out: &[u8])
        ensures
            out@ == self@,
            out@.len() == 32,
    {
        self.0.as_slice()
    }

    /// The hash that holds the 32 bytes of `bytes`.
    pub fn from_slice(bytes: &[u8]) -> (h: H256)
        requires
            bytes@.len() == 32,
        ensures
            h@ == bytes@,
    {
        let mut out = [0u8; 32];
        let mut i: usize = 0;
        while i < 32
            invariant
                i <= 32,
                bytes@.len() == 32,
                forall|j: int| 0 <= j < i ==> out@[j] == bytes@[j],
            decreases 32 - i,
        {
            out[i] = bytes[i];
            i += 1;
        }
        assert(out@ =~= bytes@);
        H256(out)
    }

    /// Whether both hold the same bytes.
    pub fn same(&self, other: &H256) -> (same: bool)
        ensures
            same <==> self@ == other@,
    {
        same_bytes(self.as_bytes(), other.as_bytes())
    }
}

impl Address {
    /// The 20 bytes.
    pub fn as_bytes(&self) -> (out: &[u8])
        ensures
            out@ == self@,
            out@.len() == 20,
    {
        self.0.as_slice()
    }

    /// Whether both hold the same bytes.
    pub fn same(&self, other: &Address) -> (same: bool)
        ensures
            same <==> self@ == other@,
    {
        same_bytes(self.as_bytes(), other.as_bytes())
    }
}

impl U256 {
    /// Zero.
    pub fn zero() -> (n: U256)
        ensures
            n@ == 0,
    {
        let n = U256([0u8; 32]);
        proof {
            lemma_leading_zeros(n.0@, 32);
            assert(n.0@.subrange(32, 32) =~= Seq::<u8>::empty());
        }
        n
    }

    /// The number that `bytes` denotes, most significant byte first.
    pub fn from_big_endian(bytes: &[u8]) -> (n: U256)
        requires
            bytes@.len() <= 32,
        ensures
            n@ == be_value(bytes@),
    {
        let mut out = [0u8; 32];
        let off: usize = 32 - bytes.len();
        let mut i: usize = 0;
        while i < bytes.len()
            invariant
                i <= bytes@.len() <= 32,
                off == 32 - bytes@.len(),
                forall|j: int| 0 <= j < off ==> out@[j] == 0,
                forall|j: int| 0 <= j < i ==> out@[off + j] == bytes@[j],
            decreases bytes@.len() - i,
        {
            out[off + i] = bytes[i];
            i += 1;
        }
        proof {
            lemma_leading_zeros(out@, off as int);
            assert(out@.subrange(off as int, 32) =~= bytes@);
        }
        U256(out)
    }

    /// The number `n`.
    pub fn from_u64(n: u64) -> (out: U256)
        ensures
            out@ == n as nat,
    {
        let digits = uint_bytes(n);
        proof {
            lemma_value_of_digits(n as nat);
        }
        U256::from_big_endian(digits.as_slice())
    }

    /// The digits in base 256, most significant first, without leading zeros.
    pub fn to_minimal_bytes(&self) -> (out: Vec<u8>)
        ensures
            out@ == be_bytes(self@),
            out@.len() <= 32,
    {
        let mut k: usize = 0;
        while k < 32 && self.0[k] == 0
            invariant
                k <= 32,
                forall|j: int| 0 <= j < k ==> self.0@[j] == 0,
            decreases 32 - k,
        {
            k += 1;
        }
        let tail = vstd::slice::slice_subrange(self.0.as_slice(), k, 32);
        proof {
            lemma_leading_zeros(self.0@, k as int);
            assert(is_minimal(tail@));
            lemma_digits_of_value(tail@);
        }
        vstd::slice::slice_to_vec(tail)
    }

    /// The 32 bytes, most significant first.
    pub fn to_big_endian(&self) -> (out: [u8; 32])
        ensures
            be_value(out@) == self@,
            out == self.0,
    {
        self.0
    }

    /// Whether both are the same number.
    pub fn same(&self, other: &U256) -> (same: bool)
        ensures
            same <==> self.0@ == other.0@,
    {
        same_bytes(self.0.as_slice(), other.0.as_slice())
    }
}

/// The value of a hexadecimal digit in ASCII, in either case.
pub open spec fn hex_digit_value(c: u8) -> Option<u8> {
    if 48 <= c <= 57 {
        Some((c - 48) as u8)
    } else if 97 <= c <= 102 {
        Some((c - 87) as u8)
    } else if 65 <= c <= 70 {
        Some((c - 55) as u8)
    } else {
        None
    }
}

/// The digits of a hexadecimal text: the text without a leading `0x` or
/// `0X`.
pub open spec fn hex_digits(text: Seq<u8>) -> Seq<u8> {
    if text.len() >= 2 && text[0] == 48 && (text[1] == 120 || text[1] == 88) {
        text.skip(2)
    } else {
        text
    }
}

/// Whether a text is an address: forty hexadecimal digits, with or without
/// the prefix.
pub open spec fn is_hex_address(text: Seq<u8>) -> bool {
    hex_digits(text).len() == 40 && forall|i: int|
        0 <= i < 40 ==> hex_digit_value(#[trigger] hex_digits(text)[i]) is Some
}

/// The twenty bytes that the forty digits of an address denote.
pub open spec fn hex_address_bytes(text: Seq<u8>) -> Seq<u8> {
    Seq::new(
        20,
        |i: int|
            (16 * hex_digit_value(hex_digits(text)[2 * i])->Some_0 + hex_digit_value(
                hex_digits(text)[2 * i + 1],
            )->Some_0) as u8,
    )
}

/// The value of a hexadecimal digit, if `c` is one.
pub fn hex_value(c: u8) -> (out: Option<u8>)
    ensures
        out == hex_digit_value(c),
        out is Some ==> out->Some_0 < 16,
{
    if 48 <= c && c <= 57 {
        Some(c - 48)
    } else if 97 <= c && c <= 102 {
        Some(c - 87)
    } else if 65 <= c && c <= 70 {
        Some(c - 55)
    } else {
        None
    }
}

impl Address {
    /// Reads an address from its hexadecimal text, with or without `0x` in
    /// front, in upper or lower case or both.
    pub fn from_hex(text: &str) -> (out: Option<Address>)
        ensures
            out is Some <==> is_hex_address(text.spec_bytes()),
            out is Some ==> out->Some_0@ == hex_address_bytes(text.spec_bytes()),
    {
        let bytes = text.as_bytes();
        let start: usize = if bytes.len() >= 2 && bytes[0] == 48 && (bytes[1] == 120 || bytes[1]
            == 88) {
            2
        } else {
            0
        };
        if bytes.len() - start != 40 {
            return None;
        }
        let ghost digits = hex_digits(bytes@);
        assert(digits =~= bytes@.skip(start as int));
        let mut out = [0u8; 20];
        let mut i: usize = 0;
        while i < 20
            invariant
                i <= 20,
                start <= 2,
                bytes@.len() == start + 40,
                digits == bytes@.skip(start as int),
                digits == hex_digits(text.spec_bytes()),
                forall|j: int| 0 <= j < 2 * i ==> hex_digit_value(#[trigger] digits[j]) is Some,
                forall|j: int|
                    0 <= j < i ==> out@[j] == (16 * hex_digit_value(digits[2 * j])->Some_0
                        + hex_digit_value(digits[2 * j + 1])->Some_0) as u8,
            decreases 20 - i,
        {
            let high = hex_value(bytes[start + 2 * i]);
            let low = hex_value(bytes[start + 2 * i + 1]);
            assert(digits[2 * i as int] == bytes@[start + 2 * i]);
            assert(digits[2 * i + 1] == bytes@[start + 2 * i + 1]);
            match (high, low) {
                (Some(h), Some(l)) => {
                    out[i] = 16 * h + l;
                },
                _ => {
                    assert(hex_digit_value(digits[2 * i as int]) is None || hex_digit_value(
                        digits[2 * i + 1],
                    ) is None);
                    return None;
                },
            }
            i += 1;
        }
        assert(out@ =~= hex_address_bytes(bytes@));
        Some(Address(out))
    }
}

/// One entry of an access list: an address and the storage keys under it
/// that the transaction will touch.
#[derive(Clone, Debug, PartialEq, Eq)]
pub struct AccessListItem {
    pub address: Address,
    pub storage_keys: Vec<H256>,
}

/// What a caller gives to have a transaction signed. Fields that may be left
/// out are resolved before signing.
#[derive(Clone, Debug, PartialEq, Eq)]
pub struct TransactionParameters {
    /// The transaction's nonce; required.
    pub nonce: Option<U256>,
    /// The recipient; absent where a contract is created.
    pub to: Option<Address>,
    /// The gas limit.
    pub gas: U256,
    /// The gas price; required unless a fee-market transaction names its
    /// maximum fee.
    pub gas_price: Option<U256>,
    pub value: U256,
    /// The call data.
    pub data: Vec<u8>,
    /// The type number; absent means legacy.
    pub transaction_type: Option<u64>,
    pub access_list: Option<Vec<AccessListItem>>,
    /// The maximum fee per gas of a fee-market transaction.
    pub max_fee_per_gas: Option<U256>,
    /// The priority fee per gas of a fee-market transaction.
    pub max_priority_fee_per_gas: Option<U256>,
}

/// A signed transaction, ready to be sent, with its two digests.
#[derive(Clone, Debug, PartialEq, Eq)]
pub struct SignedTransaction {
    /// The digest of the unsigned encoding: what was signed.
    pub message_hash: H256,
    pub v: u64,
    pub r: H256,
    pub s: H256,
    /// The signed encoding.
    pub raw_transaction: Vec<u8>,
    /// The digest of the signed encoding: the transaction's identifier.
    pub transaction_hash: H256,
}

/// A block by its height or by a tag.
#[derive(Clone, Copy, Debug, PartialEq, Eq)]
pub enum BlockNumber {
    /// The latest block.
    Latest,
    /// The first block.
    Earliest,
    /// The block that is being made.
    Pending,
    /// The block at this height.
    Number(u64),
}

/// A block by its hash or by its number.
#[derive(Clone, Copy, Debug, PartialEq, Eq)]
pub enum BlockId {
    Hash(H256),
    Number(BlockNumber),
}

/// A transaction by its hash, or by its block and its index in the block.
#[derive(Clone, Copy, Debug, PartialEq, Eq)]
pub enum TransactionId {
    Hash(H256),
    Block(BlockId, u64),
}

/// When a transaction may be included.
#[derive(Clone, Copy, Debug, PartialEq, Eq)]
pub enum TransactionCondition {
    /// Not before this block.
    Block(u64),
    /// Not before this time, in seconds.
    Timestamp(u64),
}

/// A call that changes nothing on the chain.
#[derive(Clone, Debug, PartialEq, Eq)]
pub struct CallRequest {
    pub from: Option<Address>,
    pub to: Option<Address>,
    pub gas: Option<U256>,
    pub gas_price: Option<U256>,
    pub value: Option<U256>,
    pub data: Option<Vec<u8>>,
    pub transaction_type: Option<u64>,
    pub access_list: Option<Vec<AccessListItem>>,
    pub max_fee_per_gas: Option<U256>,
    pub max_priority_fee_per_gas: Option<U256>,
}

/// A transaction that the node is to sign and send.
#[derive(Clone, Debug, PartialEq, Eq)]
pub struct TransactionRequest {
    pub from: Address,
    pub to: Option<Address>,
    pub gas: Option<U256>,
    pub gas_price: Option<U256>,
    pub value: Option<U256>,
    pub data: Option<Vec<u8>>,
    pub nonce: Option<U256>,
    pub condition: Option<TransactionCondition>,
    pub transaction_type: Option<u64>,
    pub access_list: Option<Vec<AccessListItem>>,
    pub max_fee_per_gas: Option<U256>,
    pub max_priority_fee_per_gas: Option<U256>,
}

/// Which logs to return.
#[derive(Clone, Debug, PartialEq, Eq)]
pub struct Filter {
    pub from_block: Option<BlockNumber>,
    pub to_block: Option<BlockNumber>,
    pub block_hash: Option<H256>,
    pub address: Option<Vec<Address>>,
    /// For each topic position the hashes that match; an absent entry
    /// matches any.
    pub topics: Option<Vec<Option<Vec<H256>>>>,
    pub limit: Option<usize>,
}

/// One parameter of a request.
#[derive(Clone, Debug, PartialEq, Eq)]
pub enum Param {
    Address(Address),
    Hash(H256),
    /// A proof-of-work nonce.
    Nonce(H64),
    Quantity(U256),
    /// An index in a block.
    Index(u64),
    Bool(bool),
    Text(String),
    Bytes(Vec<u8>),
    BlockNumber(BlockNumber),
    BlockId(BlockId),
    Call(CallRequest),
    Transaction(TransactionRequest),
    Filter(Filter),
    Quantities(Vec<U256>),
}

/// What a request is answered with.
#[derive(Clone, Copy, Debug, PartialEq, Eq)]
pub enum Reply {
    Address,
    Addresses,
    Bool,
    Bytes,
    Hash,
    /// A 64-bit number.
    Number,
    /// A 256-bit number.
    Quantity,
    /// A 65-byte signature.
    Signature,
    Text,
    Texts,
    Logs,
    Work,
    /// A block with the hashes of its transactions, if there is one.
    MaybeBlock,
    /// A block with its transactions, if there is one.
    MaybeBlockWithTransactions,
    MaybeBlockHeader,
    MaybeProof,
    MaybeQuantity,
    MaybeReceipt,
    MaybeTransaction,
}

/// A method call that is to be sent to a node.
#[derive(Clone, Debug, PartialEq, Eq)]
pub struct Request {
    pub method: String,
    pub params: Vec<Param>,
    pub reply: Reply,
}

impl Request {
    /// Whether this is the call of `method` with `params`, answered with
    /// `reply`.
    pub open spec fn is_call(&self, method: Seq<char>, params: Seq<Param>, reply: Reply) -> bool {
        self.method@ == method && self.params@ =~= params && self.reply == reply
    }

    /// The call of `method` with `params`, answered with `reply`.
    pub fn new(method: &str, params: Vec<Param>, reply: Reply) -> (out: Request)
        ensures
            out.is_call(method@, params@, reply),
    {
        Request { method: method.to_owned(), params, reply }
    }
}

} // verus!
