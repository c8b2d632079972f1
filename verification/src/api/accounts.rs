//! The `accounts` namespace: the three transaction envelopes and their
//! encodings.

use vstd::prelude::*;
use crate::rlp::{be_value, encode_bytes, encode_list, encode_u64, put, rlp_list, rlp_string, rlp_uint};
use crate::api::Namespace;
use crate::signer::{SignAction, SignEvent, SignRequest, SignState, MAX_LEGACY_CHAIN_ID};
use crate::signing::{hash_message, Signature, SigningError};
use crate::types::{AccessListItem, Address, TransactionParameters, H256, U256};

verus! {

/// Type number of a legacy transaction.
pub const LEGACY_TX_ID: u64 = 0;

/// Type number of an access-list transaction.
pub const ACCESSLISTS_TX_ID: u64 = 1;

/// Type number of a fee-market transaction.
pub const EIP1559_TX_ID: u64 = 2;

/// The three envelopes.
#[derive(Clone, Copy, Debug, PartialEq, Eq)]
pub enum TransactionType {
    /// A list of nine fields, replay-protected through `v`.
    Legacy,
    /// Type byte `0x01`, then a list that starts with the chain id and holds
    /// an access list.
    AccessList,
    /// Type byte `0x02`, as the access-list envelope with a priority fee and
    /// a maximum fee in place of the gas price.
    FeeMarket,
}

/// The envelope that a type number stands for: an absent number and zero are
/// legacy, one is access list, two is fee market, and no other is known.
pub open spec fn envelope_of(tag: Option<u64>) -> Option<TransactionType> {
    match tag {
        None => Some(TransactionType::Legacy),
        Some(id) => if id == LEGACY_TX_ID {
            Some(TransactionType::Legacy)
        } else if id == ACCESSLISTS_TX_ID {
            Some(TransactionType::AccessList)
        } else if id == EIP1559_TX_ID {
            Some(TransactionType::FeeMarket)
        } else {
            None
        },
    }
}

/// Whether a type number stands for the legacy envelope.
pub fn envelope_is_legacy(tag: Option<u64>) -> (legacy: bool)
    ensures
        legacy == (envelope_of(tag) == Some(TransactionType::Legacy)),
{
    match tag {
        None => true,
        Some(id) => id == LEGACY_TX_ID,
    }
}

impl TransactionType {
    /// The envelope of a type number, or the number that is not known.
    pub fn from_id(tag: Option<u64>) -> (kind: Result<TransactionType, SigningError>)
        ensures
            match envelope_of(tag) {
                Some(k) => kind == Ok::<TransactionType, SigningError>(k),
                None => kind == Err::<TransactionType, SigningError>(
                    SigningError::UnsupportedTransactionType(tag->Some_0),
                ),
            },
    {
        match tag {
            None => Ok(TransactionType::Legacy),
            Some(id) => if id == LEGACY_TX_ID {
                Ok(TransactionType::Legacy)
            } else if id == ACCESSLISTS_TX_ID {
                Ok(TransactionType::AccessList)
            } else if id == EIP1559_TX_ID {
                Ok(TransactionType::FeeMarket)
            } else {
                Err(SigningError::UnsupportedTransactionType(id))
            },
        }
    }
}

/// The `to` field: the 20 bytes of the address as a string, or the empty
/// string where a contract is created.
pub open spec fn rlp_to(to: Option<Address>) -> Seq<u8> {
    match to {
        Some(address) => rlp_string(address@),
        None => rlp_string(Seq::empty()),
    }
}

/// The storage keys of one entry, each as a string of 32 bytes, in order.
pub open spec fn rlp_keys(keys: Seq<H256>) -> Seq<u8>
    decreases keys.len(),
{
    if keys.len() == 0 {
        Seq::empty()
    } else {
        rlp_keys(keys.drop_last()) + rlp_string(keys.last()@)
    }
}

/// One entry: a list of the address and the list of its storage keys.
pub open spec fn rlp_access_item(item: AccessListItem) -> Seq<u8> {
    rlp_list(rlp_string(item.address@) + rlp_list(rlp_keys(item.storage_keys@)))
}

/// The entries of an access list, in order.
pub open spec fn rlp_access_items(items: Seq<AccessListItem>) -> Seq<u8>
    decreases items.len(),
{
    if items.len() == 0 {
        Seq::empty()
    } else {
        rlp_access_items(items.drop_last()) + rlp_access_item(items.last())
    }
}

/// An access list: the list of its entries. An empty one is the empty list.
pub open spec fn rlp_access_list(items: Seq<AccessListItem>) -> Seq<u8> {
    rlp_list(rlp_access_items(items))
}

/// The signature triple: `v`, then `r` and `s` as unsigned integers.
pub open spec fn rlp_signature(signature: Signature) -> Seq<u8> {
    rlp_uint(signature.v as nat) + rlp_uint(be_value(signature.r@)) + rlp_uint(
        be_value(signature.s@),
    )
}

/// What ends a legacy list: the signature triple, or the chain id and two
/// zeros where there is no signature yet.
pub open spec fn legacy_tail(chain_id: u64, signature: Option<Signature>) -> Seq<u8> {
    match signature {
        Some(sig) => rlp_signature(sig),
        None => rlp_uint(chain_id as nat) + rlp_uint(0) + rlp_uint(0),
    }
}

/// What ends a typed list: the signature triple, or nothing.
pub open spec fn typed_tail(signature: Option<Signature>) -> Seq<u8> {
    match signature {
        Some(sig) => rlp_signature(sig),
        None => Seq::empty(),
    }
}

/// The signature behind an optional reference.
pub open spec fn deref_signature(signature: Option<&Signature>) -> Option<Signature> {
    match signature {
        Some(sig) => Some(*sig),
        None => None,
    }
}

/// A transaction used for encoding, hashing and signing.
#[derive(Debug, Clone, PartialEq, Eq)]
pub struct Transaction {
    /// The recipient; absent where a contract is created.
    pub to: Option<Address>,
    pub nonce: U256,
    /// The gas limit.
    pub gas: U256,
    /// The gas price of a legacy or access-list transaction; the maximum fee
    /// per gas of a fee-market one.
    pub gas_price: U256,
    pub value: U256,
    /// The call data.
    pub data: Vec<u8>,
    /// The type number; absent means legacy.
    pub transaction_type: Option<u64>,
    /// Addresses and storage keys that the transaction will touch; not part
    /// of a legacy envelope.
    pub access_list: Vec<AccessListItem>,
    /// Written only into a fee-market envelope.
    pub max_priority_fee_per_gas: U256,
}

impl Transaction {
    /// The six fields that every envelope holds in this order: nonce, gas
    /// price, gas limit, recipient, value, call data.
    pub open spec fn legacy_fields(&self) -> Seq<u8> {
        rlp_uint(self.nonce@) + rlp_uint(self.gas_price@) + rlp_uint(self.gas@) + rlp_to(self.to)
            + rlp_uint(self.value@) + rlp_string(self.data@)
    }

    /// The legacy envelope: one list of nine items.
    pub open spec fn legacy_encoding(&self, chain_id: u64, signature: Option<Signature>) -> Seq<u8> {
        rlp_list(self.legacy_fields() + legacy_tail(chain_id, signature))
    }

    /// The list of an access-list envelope: chain id, the six fields, the
    /// access list, then the signature if there is one.
    pub open spec fn access_list_payload(&self, chain_id: u64, signature: Option<Signature>) -> Seq<u8> {
        rlp_list(
            rlp_uint(chain_id as nat) + self.legacy_fields() + rlp_access_list(self.access_list@)
                + typed_tail(signature),
        )
    }

    /// The list of a fee-market envelope: chain id, nonce, priority fee,
    /// maximum fee, gas limit, recipient, value, call data, the access list,
    /// then the signature if there is one.
    pub open spec fn eip1559_payload(&self, chain_id: u64, signature: Option<Signature>) -> Seq<u8> {
        rlp_list(
            rlp_uint(chain_id as nat) + rlp_uint(self.nonce@) + rlp_uint(
                self.max_priority_fee_per_gas@,
            ) + rlp_uint(self.gas_price@) + rlp_uint(self.gas@) + rlp_to(self.to) + rlp_uint(
                self.value@,
            ) + rlp_string(self.data@) + rlp_access_list(self.access_list@) + typed_tail(
                signature,
            ),
        )
    }

    /// The bytes of the transaction in the envelope `kind`: the legacy list
    /// as it is, a typed list behind its type byte.
    pub open spec fn encoding(
        &self,
        kind: TransactionType,
        chain_id: u64,
        signature: Option<Signature>,
    ) -> Seq<u8> {
        match kind {
            TransactionType::Legacy => self.legacy_encoding(chain_id, signature),
            TransactionType::AccessList => seq![1u8] + self.access_list_payload(
                chain_id,
                signature,
            ),
            TransactionType::FeeMarket => seq![2u8] + self.eip1559_payload(chain_id, signature),
        }
    }

    /// Appends the encoding of a 256-bit integer.
    fn rlp_append_uint(stream: &mut Vec<u8>, n: &U256)
        ensures
            final(stream)@ == old(stream)@ + rlp_uint(n@),
    {
        let digits = n.to_minimal_bytes();
        put(stream, encode_bytes(digits.as_slice()));
    }

    /// Appends the recipient.
    fn rlp_append_to(&self, stream: &mut Vec<u8>)
        ensures
            final(stream)@ == old(stream)@ + rlp_to(self.to),
    {
        match &self.to {
            Some(to) => put(stream, encode_bytes(to.as_bytes())),
            None => {
                let empty: Vec<u8> = Vec::new();
                put(stream, encode_bytes(empty.as_slice()));
            },
        }
    }

    /// Appends the six fields that every envelope holds.
    pub fn rlp_append_legacy(&self, stream: &mut Vec<u8>)
        ensures
            final(stream)@ == old(stream)@ + self.legacy_fields(),
    {
        Self::rlp_append_uint(stream, &self.nonce);
        Self::rlp_append_uint(stream, &self.gas_price);
        Self::rlp_append_uint(stream, &self.gas);
        self.rlp_append_to(stream);
        Self::rlp_append_uint(stream, &self.value);
        put(stream, encode_bytes(self.data.as_slice()));
        assert(final(stream)@ =~= old(stream)@ + self.legacy_fields());
    }

    /// Appends the signature triple.
    pub fn rlp_append_signature(&self, stream: &mut Vec<u8>, signature: &Signature)
        ensures
            final(stream)@ == old(stream)@ + rlp_signature(*signature),
    {
        put(stream, encode_u64(signature.v));
        Self::rlp_append_uint(stream, &U256::from_big_endian(signature.r.as_bytes()));
        Self::rlp_append_uint(stream, &U256::from_big_endian(signature.s.as_bytes()));
        assert(final(stream)@ =~= old(stream)@ + rlp_signature(*signature));
    }

    /// Appends the access list.
    pub fn rlp_append_access_list(&self, stream: &mut Vec<u8>)
        ensures
            final(stream)@ == old(stream)@ + rlp_access_list(self.access_list@),
    {
        let mut items: Vec<u8> = Vec::new();
        let mut i: usize = 0;
        while i < self.access_list.len()
            invariant
                i <= self.access_list@.len(),
                items@ == rlp_access_items(self.access_list@.take(i as int)),
            decreases self.access_list@.len() - i,
        {
            let access = &self.access_list[i];
            let mut keys: Vec<u8> = Vec::new();
            let mut j: usize = 0;
            while j < access.storage_keys.len()
                invariant
                    j <= access.storage_keys@.len(),
                    keys@ == rlp_keys(access.storage_keys@.take(j as int)),
                decreases access.storage_keys@.len() - j,
            {
                put(&mut keys, encode_bytes(access.storage_keys[j].as_bytes()));
                proof {
                    let next = access.storage_keys@.take(j + 1);
                    assert(next.drop_last() =~= access.storage_keys@.take(j as int));
                    assert(next.last() == access.storage_keys@[j as int]);
                }
                j += 1;
            }
            assert(access.storage_keys@.take(j as int) =~= access.storage_keys@);
            let mut entry = encode_bytes(access.address.as_bytes());
            put(&mut entry, encode_list(keys.as_slice()));
            put(&mut items, encode_list(entry.as_slice()));
            proof {
                let next = self.access_list@.take(i + 1);
                assert(next.drop_last() =~= self.access_list@.take(i as int));
                assert(next.last() == self.access_list@[i as int]);
            }
            i += 1;
        }
        assert(self.access_list@.take(i as int) =~= self.access_list@);
        put(stream, encode_list(items.as_slice()));
    }

    /// The legacy envelope.
    pub fn encode_legacy(&self, chain_id: u64, signature: Option<&Signature>) -> (out: Vec<u8>)
        ensures
            out@ == self.legacy_encoding(chain_id, deref_signature(signature)),
    {
        let mut stream: Vec<u8> = Vec::new();
        self.rlp_append_legacy(&mut stream);
        if let Some(signature) = signature {
            self.rlp_append_signature(&mut stream, signature);
        } else {
            put(&mut stream, encode_u64(chain_id));
            put(&mut stream, encode_u64(0));
            put(&mut stream, encode_u64(0));
        }
        assert(stream@ =~= self.legacy_fields() + legacy_tail(chain_id, deref_signature(signature)));
        encode_list(stream.as_slice())
    }

    /// The list of an access-list envelope, without its type byte.
    pub fn encode_access_list_payload(&self, chain_id: u64, signature: Option<&Signature>) -> (out:
        Vec<u8>)
        ensures
            out@ == self.access_list_payload(chain_id, deref_signature(signature)),
    {
        let mut stream: Vec<u8> = Vec::new();
        put(&mut stream, encode_u64(chain_id));
        self.rlp_append_legacy(&mut stream);
        self.rlp_append_access_list(&mut stream);
        if let Some(signature) = signature {
            self.rlp_append_signature(&mut stream, signature);
        }
        assert(stream@ =~= rlp_uint(chain_id as nat) + self.legacy_fields() + rlp_access_list(
            self.access_list@,
        ) + typed_tail(deref_signature(signature)));
        encode_list(stream.as_slice())
    }

    /// The list of a fee-market envelope, without its type byte.
    pub fn encode_eip1559_payload(&self, chain_id: u64, signature: Option<&Signature>) -> (out:
        Vec<u8>)
        ensures
            out@ == self.eip1559_payload(chain_id, deref_signature(signature)),
    {
        let mut stream: Vec<u8> = Vec::new();
        put(&mut stream, encode_u64(chain_id));
        Self::rlp_append_uint(&mut stream, &self.nonce);
        Self::rlp_append_uint(&mut stream, &self.max_priority_fee_per_gas);
        Self::rlp_append_uint(&mut stream, &self.gas_price);
        Self::rlp_append_uint(&mut stream, &self.gas);
        self.rlp_append_to(&mut stream);
        Self::rlp_append_uint(&mut stream, &self.value);
        put(&mut stream, encode_bytes(self.data.as_slice()));
        self.rlp_append_access_list(&mut stream);
        if let Some(signature) = signature {
            self.rlp_append_signature(&mut stream, signature);
        }
        assert(stream@ =~= rlp_uint(chain_id as nat) + rlp_uint(self.nonce@) + rlp_uint(
            self.max_priority_fee_per_gas@,
        ) + rlp_uint(self.gas_price@) + rlp_uint(self.gas@) + rlp_to(self.to) + rlp_uint(
            self.value@,
        ) + rlp_string(self.data@) + rlp_access_list(self.access_list@) + typed_tail(
            deref_signature(signature),
        ));
        encode_list(stream.as_slice())
    }

    /// The bytes of the transaction, with the signature if one is given. A
    /// type number other than zero, one and two is refused.
    pub fn encode(&self, chain_id: u64, signature: Option<&Signature>) -> (out: Result<
        Vec<u8>,
        SigningError,
    >)
        ensures
            match envelope_of(self.transaction_type) {
                Some(kind) => out is Ok && out->Ok_0@ == self.encoding(
                    kind,
                    chain_id,
                    deref_signature(signature),
                ),
                None => out == Err::<Vec<u8>, SigningError>(
                    SigningError::UnsupportedTransactionType(self.transaction_type->Some_0),
                ),
            },
    {
        match TransactionType::from_id(self.transaction_type) {
            Ok(TransactionType::Legacy) => Ok(self.encode_legacy(chain_id, signature)),
            Ok(TransactionType::AccessList) => {
                let mut out: Vec<u8> = vec![1u8];
                put(&mut out, self.encode_access_list_payload(chain_id, signature));
                assert(out@ =~= seq![1u8] + self.access_list_payload(
                    chain_id,
                    deref_signature(signature),
                ));
                Ok(out)
            },
            Ok(TransactionType::FeeMarket) => {
                let mut out: Vec<u8> = vec![2u8];
                put(&mut out, self.encode_eip1559_payload(chain_id, signature));
                assert(out@ =~= seq![2u8] + self.eip1559_payload(
                    chain_id,
                    deref_signature(signature),
                ));
                Ok(out)
            },
            Err(e) => Err(e),
        }
    }
}

/// The gas price that the envelope will carry: the maximum fee of a
/// fee-market transaction that names one, else the gas price.
pub open spec fn resolved_gas_price(p: TransactionParameters) -> Option<U256> {
    if p.transaction_type == Some(EIP1559_TX_ID) && p.max_fee_per_gas is Some {
        p.max_fee_per_gas
    } else {
        p.gas_price
    }
}

/// The priority fee that goes with `gas_price`: that of a fee-market
/// transaction that names one, else the gas price itself.
pub open spec fn resolved_priority_fee(p: TransactionParameters, gas_price: U256) -> U256 {
    if p.transaction_type == Some(EIP1559_TX_ID) && p.max_priority_fee_per_gas is Some {
        p.max_priority_fee_per_gas->Some_0
    } else {
        gas_price
    }
}

/// The access list that was given, or the empty one.
pub open spec fn resolved_access_list(p: TransactionParameters) -> Seq<AccessListItem> {
    match p.access_list {
        Some(list) => list@,
        None => Seq::empty(),
    }
}

/// The required field that is absent, if one is: the gas price is looked at
/// before the nonce.
pub open spec fn missing_field(p: TransactionParameters) -> Option<Seq<char>> {
    if resolved_gas_price(p) is None {
        Some("gas_price"@)
    } else if p.nonce is None {
        Some("nonce"@)
    } else {
        None
    }
}

/// Whether `tx` is the transaction that the parameters `p`, none of them
/// missing, stand for.
pub open spec fn built_from(tx: Transaction, p: TransactionParameters) -> bool {
    &&& tx.to == p.to
    &&& tx.nonce == p.nonce->Some_0
    &&& tx.gas == p.gas
    &&& tx.gas_price == resolved_gas_price(p)->Some_0
    &&& tx.value == p.value
    &&& tx.data == p.data
    &&& tx.transaction_type == p.transaction_type
    &&& tx.access_list@ == resolved_access_list(p)
    &&& tx.max_priority_fee_per_gas == resolved_priority_fee(p, resolved_gas_price(p)->Some_0)
}

impl Transaction {
    /// Builds the transaction from what a caller gave: resolves the gas price
    /// and the priority fee, and refuses parameters without a nonce or
    /// without the gas price that their type needs.
    pub fn from_parameters(p: TransactionParameters) -> (out: Result<Transaction, SigningError>)
        ensures
            match missing_field(p) {
                Some(name) => out is Err && out->Err_0 is MissingField
                    && out->Err_0->MissingField_0@ == name,
                None => out is Ok && built_from(out->Ok_0, p),
            },
    {
        let fee_market = match p.transaction_type {
            Some(id) => id == EIP1559_TX_ID,
            None => false,
        };
        let gas_price = match (fee_market, p.max_fee_per_gas, p.gas_price) {
            (true, Some(max_fee), _) => max_fee,
            (_, _, Some(price)) => price,
            _ => {
                return Err(SigningError::MissingField("gas_price".to_owned()));
            },
        };
        let max_priority_fee_per_gas = match (fee_market, p.max_priority_fee_per_gas) {
            (true, Some(fee)) => fee,
            _ => gas_price,
        };
        let nonce = match p.nonce {
            Some(nonce) => nonce,
            None => {
                return Err(SigningError::MissingField("nonce".to_owned()));
            },
        };
        let access_list = match p.access_list {
            Some(list) => list,
            None => Vec::new(),
        };
        Ok(
            Transaction {
                to: p.to,
                nonce,
                gas: p.gas,
                gas_price,
                value: p.value,
                data: p.data,
                transaction_type: p.transaction_type,
                access_list,
                max_priority_fee_per_gas,
            },
        )
    }

    /// Starts signing for the sender `from`: hashes the unsigned encoding and
    /// asks for the signature. The state and the action are then handed to
    /// and fro with [`SignState::advance`].
    pub fn sign(self, from: Address, chain_id: u64) -> (out: (SignState, SignAction))
        requires
            envelope_of(self.transaction_type) == Some(TransactionType::Legacy) ==> chain_id
                <= MAX_LEGACY_CHAIN_ID,
        ensures
            out.0.wf(),
            out.1 == out.0.pending(),
            match envelope_of(self.transaction_type) {
                Some(kind) => {
                    &&& out.0 is AwaitingSignature
                    &&& out.0->AwaitingSignature_request == (SignRequest { tx: self, from, chain_id })
                    &&& out.0->AwaitingSignature_message_hash@ == crate::signing::keccak256_digest(
                        self.encoding(kind, chain_id, None),
                    )
                },
                None => out.0 == (SignState::Failed {
                    error: SigningError::UnsupportedTransactionType(self.transaction_type->Some_0),
                    hashed: None,
                }),
            },
    {
        let built = SignState::new(self, from, chain_id);
        let (hashed, _) = built.advance(SignEvent::Proceed);
        hashed.advance(SignEvent::Proceed)
    }
}

/// The `accounts` namespace.
#[derive(Debug, Clone)]
pub struct Accounts<T> {
    transport: T,
}

impl<T: Clone> Namespace<T> for Accounts<T> {
    closed spec fn over(&self) -> T {
        self.transport
    }

    fn new(transport: T) -> (out: Self) {
        Accounts { transport }
    }

    fn transport(&self) -> (out: &T) {
        &self.transport
    }
}

impl<T> Accounts<T> {
    /// Hashes a message for signing: the digest of
    /// `"\x19Ethereum Signed Message:\n"`, the message's length in decimal
    /// and the message.
    pub fn hash_message(&self, message: &[u8]) -> (hash: H256)
        ensures
            hash@ == crate::signing::keccak256_digest(crate::signing::message_envelope(message@)),
    {
        hash_message(message)
    }

    /// Starts the signing of a transaction given by its parameters: builds
    /// the transaction, hashes it and asks for the signature, or fails on a
    /// missing field or an unknown type.
    pub fn sign_transaction(&self, tx: TransactionParameters, from: Address, chain_id: u64) -> (out:
        (SignState, SignAction))
        requires
            missing_field(tx) is None && envelope_of(tx.transaction_type) == Some(
                TransactionType::Legacy,
            ) ==> chain_id <= MAX_LEGACY_CHAIN_ID,
        ensures
            out.0.wf(),
            out.1 == out.0.pending(),
            match missing_field(tx) {
                Some(name) => {
                    &&& out.0 is Failed
                    &&& out.0->Failed_hashed is None
                    &&& out.0->Failed_error is MissingField
                    &&& out.0->Failed_error->MissingField_0@ == name
                },
                None => match envelope_of(tx.transaction_type) {
                    Some(kind) => {
                        &&& out.0 is AwaitingSignature
                        &&& out.0->AwaitingSignature_request.from == from
                        &&& out.0->AwaitingSignature_request.chain_id == chain_id
                        &&& built_from(out.0->AwaitingSignature_request.tx, tx)
                        &&& out.0->AwaitingSignature_request.hashed(
                            out.0->AwaitingSignature_message_hash,
                        )
                    },
                    None => out.0 == (SignState::Failed {
                        error: SigningError::UnsupportedTransactionType(
                            tx.transaction_type->Some_0,
                        ),
                        hashed: None,
                    }),
                },
            },
    {
        match Transaction::from_parameters(tx) {
            Ok(tx) => tx.sign(from, chain_id),
            Err(error) => (SignState::Failed { error, hashed: None }, SignAction::Done),
        }
    }
}

} // verus!
