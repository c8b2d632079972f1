//! What holds of every signed transaction and of every encoding.

use vstd::prelude::*;
use crate::api::accounts::{rlp_access_items, rlp_access_list, rlp_to, Transaction, TransactionType};
use crate::decode::{decode_transaction, envelope_items, envelope_payload, expected_entries, fields_at, fields_of, lemma_decode_access_list, lemma_decode_envelope, DecodedEntry};
use crate::rlp::{lemma_value_of_digits, rlp_list, rlp_string, rlp_uint};
use crate::signer::{replay_protected_v, signs, SignAction, SignEvent, SignState, MAX_LEGACY_CHAIN_ID};
use crate::signing::keccak256_digest;
use crate::types::{SignedTransaction, H256};

verus! {

/// The message hash of a signed transaction is the digest of its unsigned
/// encoding, and its transaction hash is the digest of its raw bytes.
pub proof fn law_hashes_are_digests(
    result: SignedTransaction,
    tx: Transaction,
    kind: TransactionType,
    chain_id: u64,
    r: H256,
    s: H256,
    recovery_id: u64,
)
    requires
        signs(result, tx, kind, chain_id, r, s, recovery_id),
    ensures
        result.message_hash@ == keccak256_digest(tx.encoding(kind, chain_id, None)),
        result.transaction_hash@ == keccak256_digest(result.raw_transaction@),
{
}

/// Signing the same transaction for the same chain again gives the same
/// message hash, whatever the signer answers; with the same signature and
/// recovery id it gives the same bytes and the same transaction hash.
pub proof fn law_signing_again_gives_the_same(
    first: SignedTransaction,
    second: SignedTransaction,
    tx: Transaction,
    kind: TransactionType,
    chain_id: u64,
    r: H256,
    s: H256,
    recovery_id: u64,
    other_r: H256,
    other_s: H256,
    other_recovery_id: u64,
)
    requires
        signs(first, tx, kind, chain_id, r, s, recovery_id),
        signs(second, tx, kind, chain_id, other_r, other_s, other_recovery_id),
    ensures
        first.message_hash@ == second.message_hash@,
        r == other_r && s == other_s && recovery_id == other_recovery_id ==> first.v == second.v
            && first.raw_transaction@ == second.raw_transaction@ && first.transaction_hash@
            == second.transaction_hash@,
{
}

/// Every step that ends in `Finalized` ends in a transaction whose hashes
/// are the digests of its two encodings, and whose message hash is the one
/// that was handed to the signer.
pub proof fn law_finalized_is_signed(
    state: SignState,
    event: SignEvent,
    next: SignState,
    action: SignAction,
)
    requires
        state.wf(),
        !(state is Finalized),
        state.follows(event, next, action),
        next is Finalized,
    ensures
        state is RecoveryResolved,
        next->Finalized_result.message_hash == state->RecoveryResolved_message_hash,
        next->Finalized_result.message_hash@ == keccak256_digest(
            state->RecoveryResolved_request.tx.encoding(
                state->RecoveryResolved_request.kind()->Some_0,
                state->RecoveryResolved_request.chain_id,
                None,
            ),
        ),
        next->Finalized_result.transaction_hash@ == keccak256_digest(
            next->Finalized_result.raw_transaction@,
        ),
{
}

/// Of a legacy transaction, `v - 35 - 2 * chain_id` is zero or one, and is
/// the recovery id that the signature was resolved to.
pub proof fn law_legacy_v_holds_recovery_id(
    result: SignedTransaction,
    tx: Transaction,
    chain_id: u64,
    r: H256,
    s: H256,
    recovery_id: u64,
)
    requires
        recovery_id <= 1,
        signs(result, tx, TransactionType::Legacy, chain_id, r, s, recovery_id),
    ensures
        result.v - 35 - 2 * chain_id == recovery_id,
        result.v - 35 - 2 * chain_id == 0 || result.v - 35 - 2 * chain_id == 1,
{
}

/// Of an access-list or fee-market transaction, `v` is the recovery id, zero
/// or one, whatever the chain.
pub proof fn law_typed_v_is_recovery_id(
    kind: TransactionType,
    chain_id: u64,
    other_chain_id: u64,
    recovery_id: u64,
)
    requires
        recovery_id <= 1,
        !(kind is Legacy),
    ensures
        replay_protected_v(kind, chain_id, recovery_id) == recovery_id,
        replay_protected_v(kind, chain_id, recovery_id) == 0 || replay_protected_v(
            kind,
            chain_id,
            recovery_id,
        ) == 1,
        replay_protected_v(kind, chain_id, recovery_id) == replay_protected_v(
            kind,
            other_chain_id,
            recovery_id,
        ),
{
}

/// The `v` of a legacy transaction fits in 64 bits for every chain id up to
/// the largest that is accepted.
pub proof fn law_legacy_v_fits(chain_id: u64, recovery_id: u64)
    requires
        recovery_id <= 1,
        chain_id <= MAX_LEGACY_CHAIN_ID,
    ensures
        replay_protected_v(TransactionType::Legacy, chain_id, recovery_id) <= u64::MAX,
{
}

/// Where a contract is created the recipient is the single byte `0x80`, the
/// empty string, in every envelope: never twenty zero bytes.
pub proof fn law_creation_has_empty_recipient(tx: Transaction)
    requires
        tx.to is None,
    ensures
        rlp_to(tx.to) == seq![0x80u8],
        rlp_to(tx.to) != rlp_string(Seq::new(20, |i: int| 0u8)),
        tx.legacy_fields() == rlp_uint(tx.nonce@) + rlp_uint(tx.gas_price@) + rlp_uint(tx.gas@)
            + seq![0x80u8] + rlp_uint(tx.value@) + rlp_string(tx.data@),
{
    assert(rlp_string(Seq::<u8>::empty()) =~= seq![0x80u8]);
    let zeros = Seq::new(20, |i: int| 0u8);
    assert(rlp_string(zeros).len() == 21);
}

/// An empty access list is the single byte `0xc0`, the empty list, and it
/// stands in both typed envelopes between the call data and the signature.
pub proof fn law_empty_access_list_is_empty_list(
    tx: Transaction,
    chain_id: u64,
    signature: Option<crate::signing::Signature>,
)
    requires
        tx.access_list@.len() == 0,
    ensures
        rlp_access_list(tx.access_list@) == seq![0xc0u8],
        tx.access_list_payload(chain_id, signature) == rlp_list(
            rlp_uint(chain_id as nat) + tx.legacy_fields() + seq![0xc0u8]
                + crate::api::accounts::typed_tail(signature),
        ),
        tx.eip1559_payload(chain_id, signature) == rlp_list(
            rlp_uint(chain_id as nat) + rlp_uint(tx.nonce@) + rlp_uint(
                tx.max_priority_fee_per_gas@,
            ) + rlp_uint(tx.gas_price@) + rlp_uint(tx.gas@) + rlp_to(tx.to) + rlp_uint(tx.value@)
                + rlp_string(tx.data@) + seq![0xc0u8] + crate::api::accounts::typed_tail(
                signature,
            ),
        ),
{
    assert(rlp_access_items(tx.access_list@) =~= Seq::<u8>::empty());
    assert(rlp_list(Seq::<u8>::empty()) =~= seq![0xc0u8]);
}

/// The fields of a legacy envelope are found in its items.
proof fn lemma_legacy_fields(
    tx: Transaction,
    chain_id: u64,
    signature: Option<crate::signing::Signature>,
)
    requires
        tx.access_list@.len() == 0,
    ensures
        envelope_items(tx, TransactionType::Legacy, chain_id, signature).len() == 9,
        fields_at(
            TransactionType::Legacy,
            envelope_items(tx, TransactionType::Legacy, chain_id, signature),
            0,
            2,
            3,
            4,
            5,
            None,
        ) == Some(fields_of(tx, TransactionType::Legacy)),
{
    lemma_value_of_digits(tx.nonce@);
    lemma_value_of_digits(tx.gas@);
    lemma_value_of_digits(tx.value@);
    if tx.to is Some {
        vstd::array::array_len_matches_n(&tx.to->Some_0.0);
    }
    assert(expected_entries(tx.access_list@) =~= Seq::<DecodedEntry>::empty());
}

/// The fields of an access-list envelope are found in its items.
proof fn lemma_access_list_fields(
    tx: Transaction,
    chain_id: u64,
    signature: Option<crate::signing::Signature>,
)
    requires
        rlp_access_list(tx.access_list@).len() <= u64::MAX,
    ensures
        envelope_items(tx, TransactionType::AccessList, chain_id, signature).len() == 8
            || envelope_items(tx, TransactionType::AccessList, chain_id, signature).len() == 11,
        fields_at(
            TransactionType::AccessList,
            envelope_items(tx, TransactionType::AccessList, chain_id, signature),
            1,
            3,
            4,
            5,
            6,
            Some(7),
        ) == Some(fields_of(tx, TransactionType::AccessList)),
{
    lemma_value_of_digits(tx.nonce@);
    lemma_value_of_digits(tx.gas@);
    lemma_value_of_digits(tx.value@);
    if tx.to is Some {
        vstd::array::array_len_matches_n(&tx.to->Some_0.0);
    }
    lemma_decode_access_list(tx.access_list@);
}

/// The fields of a fee-market envelope are found in its items.
proof fn lemma_fee_market_fields(
    tx: Transaction,
    chain_id: u64,
    signature: Option<crate::signing::Signature>,
)
    requires
        rlp_access_list(tx.access_list@).len() <= u64::MAX,
    ensures
        envelope_items(tx, TransactionType::FeeMarket, chain_id, signature).len() == 9
            || envelope_items(tx, TransactionType::FeeMarket, chain_id, signature).len() == 12,
        fields_at(
            TransactionType::FeeMarket,
            envelope_items(tx, TransactionType::FeeMarket, chain_id, signature),
            1,
            4,
            5,
            6,
            7,
            Some(8),
        ) == Some(fields_of(tx, TransactionType::FeeMarket)),
{
    lemma_value_of_digits(tx.nonce@);
    lemma_value_of_digits(tx.gas@);
    lemma_value_of_digits(tx.value@);
    if tx.to is Some {
        vstd::array::array_len_matches_n(&tx.to->Some_0.0);
    }
    lemma_decode_access_list(tx.access_list@);
}

/// A parser reads a legacy transaction back.
proof fn lemma_round_trip_legacy(
    tx: Transaction,
    chain_id: u64,
    signature: Option<crate::signing::Signature>,
)
    requires
        tx.encoding(TransactionType::Legacy, chain_id, signature).len() <= u64::MAX,
        tx.access_list@.len() == 0,
    ensures
        decode_transaction(tx.encoding(TransactionType::Legacy, chain_id, signature)) == Some(
            fields_of(tx, TransactionType::Legacy),
        ),
{
    let kind = TransactionType::Legacy;
    let raw = tx.encoding(kind, chain_id, signature);
    assert(raw == rlp_list(envelope_payload(tx, kind, chain_id, signature)));
    lemma_decode_envelope(tx, kind, chain_id, signature);
    lemma_legacy_fields(tx, chain_id, signature);
}

/// A parser reads an access-list transaction back.
proof fn lemma_round_trip_access_list(
    tx: Transaction,
    chain_id: u64,
    signature: Option<crate::signing::Signature>,
)
    requires
        tx.encoding(TransactionType::AccessList, chain_id, signature).len() <= u64::MAX,
    ensures
        decode_transaction(tx.encoding(TransactionType::AccessList, chain_id, signature)) == Some(
            fields_of(tx, TransactionType::AccessList),
        ),
{
    let kind = TransactionType::AccessList;
    let raw = tx.encoding(kind, chain_id, signature);
    let list = rlp_list(envelope_payload(tx, kind, chain_id, signature));
    assert(raw == seq![1u8] + list);
    assert(raw.skip(1) =~= list);
    lemma_decode_envelope(tx, kind, chain_id, signature);
    lemma_access_list_fields(tx, chain_id, signature);
}

/// A parser reads a fee-market transaction back.
proof fn lemma_round_trip_fee_market(
    tx: Transaction,
    chain_id: u64,
    signature: Option<crate::signing::Signature>,
)
    requires
        tx.encoding(TransactionType::FeeMarket, chain_id, signature).len() <= u64::MAX,
    ensures
        decode_transaction(tx.encoding(TransactionType::FeeMarket, chain_id, signature)) == Some(
            fields_of(tx, TransactionType::FeeMarket),
        ),
{
    let kind = TransactionType::FeeMarket;
    let raw = tx.encoding(kind, chain_id, signature);
    let list = rlp_list(envelope_payload(tx, kind, chain_id, signature));
    assert(raw == seq![2u8] + list);
    assert(raw.skip(1) =~= list);
    lemma_decode_envelope(tx, kind, chain_id, signature);
    lemma_fee_market_fields(tx, chain_id, signature);
}

/// A parser that follows the format reads from the bytes of a transaction,
/// signed or not, the nonce, the gas limit, the value, the recipient, the
/// call data and the access list that went in. The bytes have a length that
/// fits in 64 bits, as all that are ever made have; a legacy transaction has
/// no access list to lose.
pub proof fn law_round_trip(
    tx: Transaction,
    kind: TransactionType,
    chain_id: u64,
    signature: Option<crate::signing::Signature>,
)
    requires
        tx.encoding(kind, chain_id, signature).len() <= u64::MAX,
        kind is Legacy ==> tx.access_list@.len() == 0,
    ensures
        decode_transaction(tx.encoding(kind, chain_id, signature)) == Some(fields_of(tx, kind)),
{
    match kind {
        TransactionType::Legacy => lemma_round_trip_legacy(tx, chain_id, signature),
        TransactionType::AccessList => lemma_round_trip_access_list(tx, chain_id, signature),
        TransactionType::FeeMarket => lemma_round_trip_fee_market(tx, chain_id, signature),
    }
}

/// The items of the list in the bytes of a transaction.
pub open spec fn encoding_items(raw: Seq<u8>, kind: TransactionType) -> Option<
    Seq<crate::decode::Item>,
> {
    match kind {
        TransactionType::Legacy => crate::decode::decode_list(raw),
        _ => crate::decode::decode_list(raw.skip(1)),
    }
}

/// A parser finds in the bytes of a transaction the items of its envelope.
pub proof fn lemma_items_of_encoding(
    tx: Transaction,
    kind: TransactionType,
    chain_id: u64,
    signature: Option<crate::signing::Signature>,
)
    requires
        tx.encoding(kind, chain_id, signature).len() <= u64::MAX,
    ensures
        encoding_items(tx.encoding(kind, chain_id, signature), kind) == Some(
            envelope_items(tx, kind, chain_id, signature),
        ),
{
    let raw = tx.encoding(kind, chain_id, signature);
    let list = rlp_list(envelope_payload(tx, kind, chain_id, signature));
    match kind {
        TransactionType::Legacy => {
            assert(raw == list);
        },
        TransactionType::AccessList => {
            assert(raw == seq![1u8] + list);
            assert(raw.skip(1) =~= list);
        },
        TransactionType::FeeMarket => {
            assert(raw == seq![2u8] + list);
            assert(raw.skip(1) =~= list);
        },
    }
    lemma_decode_envelope(tx, kind, chain_id, signature);
}

/// The items of a signed legacy envelope are those of the unsigned one only
/// where the signature is the chain id and two zeros.
proof fn lemma_legacy_items_differ(
    tx: Transaction,
    chain_id: u64,
    signature: crate::signing::Signature,
)
    requires
        signature.v != chain_id || crate::rlp::be_value(signature.r@) != 0 || crate::rlp::be_value(
            signature.s@,
        ) != 0,
    ensures
        envelope_items(tx, TransactionType::Legacy, chain_id, Some(signature)) != envelope_items(
            tx,
            TransactionType::Legacy,
            chain_id,
            None,
        ),
{
    let signed = crate::decode::legacy_tail_items(chain_id, Some(signature));
    let unsigned = crate::decode::legacy_tail_items(chain_id, None);
    let six = crate::decode::six_items(tx);
    lemma_value_of_digits(signature.v as nat);
    lemma_value_of_digits(chain_id as nat);
    lemma_value_of_digits(crate::rlp::be_value(signature.r@));
    lemma_value_of_digits(crate::rlp::be_value(signature.s@));
    lemma_value_of_digits(0);
    assert(signed[0].payload != unsigned[0].payload || signed[1].payload != unsigned[1].payload
        || signed[2].payload != unsigned[2].payload);
    assert(six.len() == 6);
    assert((six + signed)[6] == signed[0] && (six + unsigned)[6] == unsigned[0]);
    assert((six + signed)[7] == signed[1] && (six + unsigned)[7] == unsigned[1]);
    assert((six + signed)[8] == signed[2] && (six + unsigned)[8] == unsigned[2]);
}

/// A signed typed envelope has three items more than the unsigned one.
proof fn lemma_typed_items_differ(
    tx: Transaction,
    kind: TransactionType,
    chain_id: u64,
    signature: crate::signing::Signature,
)
    requires
        !(kind is Legacy),
    ensures
        envelope_items(tx, kind, chain_id, Some(signature)).len() == envelope_items(
            tx,
            kind,
            chain_id,
            None,
        ).len() + 3,
{
    assert(crate::decode::six_items(tx).len() == 6);
    assert(crate::decode::typed_tail_items(Some(signature)).len() == 3);
    assert(crate::decode::typed_tail_items(None).len() == 0);
}

/// A signature that says anything changes the bytes: the signed encoding
/// of a transaction is not its unsigned encoding. Of a legacy transaction the
/// one signature that says nothing is the triple that the unsigned encoding
/// ends in, the chain id and two zeros. The two digests are therefore taken of
/// different bytes.
pub proof fn law_signature_changes_encoding(
    tx: Transaction,
    kind: TransactionType,
    chain_id: u64,
    signature: crate::signing::Signature,
)
    requires
        tx.encoding(kind, chain_id, Some(signature)).len() <= u64::MAX,
        tx.encoding(kind, chain_id, None).len() <= u64::MAX,
        kind is Legacy ==> signature.v != chain_id || crate::rlp::be_value(signature.r@) != 0
            || crate::rlp::be_value(signature.s@) != 0,
    ensures
        tx.encoding(kind, chain_id, Some(signature)) != tx.encoding(kind, chain_id, None),
{
    lemma_items_of_encoding(tx, kind, chain_id, Some(signature));
    lemma_items_of_encoding(tx, kind, chain_id, None);
    if kind is Legacy {
        lemma_legacy_items_differ(tx, chain_id, signature);
    } else {
        lemma_typed_items_differ(tx, kind, chain_id, signature);
    }
}

/// A letter in lower case; any other byte as it is.
pub open spec fn lower_case(c: u8) -> u8 {
    if 65 <= c <= 90 {
        (c + 32) as u8
    } else {
        c
    }
}

/// Two texts that differ in the case of their letters only.
pub open spec fn same_but_for_case(a: Seq<u8>, b: Seq<u8>) -> bool {
    a.len() == b.len() && forall|i: int|
        0 <= i < a.len() ==> lower_case(#[trigger] a[i]) == lower_case(b[i])
}

/// The sender is matched whatever the case of its text: two texts that
/// differ in the case of their letters only are the same address, or neither
/// is one.
pub proof fn law_address_ignores_case(a: Seq<u8>, b: Seq<u8>)
    requires
        same_but_for_case(a, b),
    ensures
        crate::types::is_hex_address(a) == crate::types::is_hex_address(b),
        crate::types::is_hex_address(a) ==> crate::types::hex_address_bytes(a)
            == crate::types::hex_address_bytes(b),
{
    let da = crate::types::hex_digits(a);
    let db = crate::types::hex_digits(b);
    if a.len() >= 2 {
        assert(lower_case(a[0]) == lower_case(b[0]));
        assert(lower_case(a[1]) == lower_case(b[1]));
    }
    assert(da.len() == db.len());
    assert forall|i: int| 0 <= i < da.len() implies crate::types::hex_digit_value(
        #[trigger] da[i],
    ) == crate::types::hex_digit_value(db[i]) by {
        if da.len() == a.len() {
            assert(lower_case(a[i]) == lower_case(b[i]));
        } else {
            assert(da[i] == a[i + 2] && db[i] == b[i + 2]);
            assert(lower_case(a[i + 2]) == lower_case(b[i + 2]));
        }
    }
    if crate::types::is_hex_address(a) {
        assert forall|i: int| 0 <= i < 40 implies crate::types::hex_digit_value(
            #[trigger] db[i],
        ) is Some by {
            assert(crate::types::hex_digit_value(da[i]) is Some);
        }
        assert(crate::types::hex_address_bytes(a) =~= crate::types::hex_address_bytes(b));
    }
    if crate::types::is_hex_address(b) {
        assert forall|i: int| 0 <= i < 40 implies crate::types::hex_digit_value(
            #[trigger] da[i],
        ) is Some by {
            assert(crate::types::hex_digit_value(db[i]) is Some);
        }
    }
}

} // verus!
