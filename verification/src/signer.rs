//! The signing pipeline as a state machine.
//!
//! Signing needs two things that are done elsewhere: the signature itself,
//! made by whoever holds the key, and the recovery of an address from a
//! signature. The machine decides; its caller performs each action and hands
//! back what came of it.

use vstd::prelude::*;
use crate::api::accounts::{envelope_of, Transaction, TransactionType};
use crate::signing::{check_recoverable, keccak256, keccak256_digest, recoverable, Signature, SigningError};
use crate::types::{Address, SignedTransaction, H256};

verus! {

/// Largest chain id whose legacy `v` fits in 64 bits.
pub const MAX_LEGACY_CHAIN_ID: u64 = 9223372036854775789;

/// `v` as the envelope wants it: a legacy transaction folds the chain id in,
/// a typed one has the recovery id itself.
pub open spec fn replay_protected_v(kind: TransactionType, chain_id: u64, recovery_id: u64) -> int {
    match kind {
        TransactionType::Legacy => 2 * chain_id + 35 + recovery_id,
        _ => recovery_id as int,
    }
}

/// Computes `v` from the recovery id.
pub fn compute_v(kind: TransactionType, chain_id: u64, recovery_id: u64) -> (v: u64)
    requires
        recovery_id <= 1,
        kind is Legacy ==> chain_id <= MAX_LEGACY_CHAIN_ID,
    ensures
        v == replay_protected_v(kind, chain_id, recovery_id),
{
    match kind {
        TransactionType::Legacy => 2 * chain_id + 35 + recovery_id,
        _ => recovery_id,
    }
}

/// Whether `result` is `tx` signed for `chain_id` with the raw signature
/// `r`, `s` and the recovery id: both digests, `v`, and the signed bytes.
pub open spec fn signs(
    result: SignedTransaction,
    tx: Transaction,
    kind: TransactionType,
    chain_id: u64,
    r: H256,
    s: H256,
    recovery_id: u64,
) -> bool {
    &&& result.message_hash@ == keccak256_digest(tx.encoding(kind, chain_id, None))
    &&& result.v == replay_protected_v(kind, chain_id, recovery_id)
    &&& result.r == r
    &&& result.s == s
    &&& result.raw_transaction@ == tx.encoding(
        kind,
        chain_id,
        Some(Signature { v: result.v, r, s }),
    )
    &&& result.transaction_hash@ == keccak256_digest(result.raw_transaction@)
}

impl Transaction {
    /// The digest that is to be signed: that of the unsigned encoding.
    pub fn message_hash(&self, chain_id: u64) -> (out: Result<H256, SigningError>)
        ensures
            match envelope_of(self.transaction_type) {
                Some(kind) => out is Ok && out->Ok_0@ == keccak256_digest(
                    self.encoding(kind, chain_id, None),
                ),
                None => out == Err::<H256, SigningError>(
                    SigningError::UnsupportedTransactionType(self.transaction_type->Some_0),
                ),
            },
    {
        match self.encode(chain_id, None) {
            Ok(encoded) => Ok(H256(keccak256(encoded.as_slice()))),
            Err(e) => Err(e),
        }
    }

    /// Attaches a raw signature whose recovery id is known: computes `v`,
    /// encodes again with the signature and takes the digest of that.
    pub fn finalize(
        &self,
        chain_id: u64,
        message_hash: H256,
        r: H256,
        s: H256,
        recovery_id: u64,
    ) -> (out: Result<SignedTransaction, SigningError>)
        requires
            recovery_id <= 1,
            envelope_of(self.transaction_type) == Some(TransactionType::Legacy) ==> chain_id
                <= MAX_LEGACY_CHAIN_ID,
        ensures
            match envelope_of(self.transaction_type) {
                Some(kind) => {
                    &&& out is Ok
                    &&& out->Ok_0.message_hash == message_hash
                    &&& out->Ok_0.v == replay_protected_v(kind, chain_id, recovery_id)
                    &&& out->Ok_0.r == r
                    &&& out->Ok_0.s == s
                    &&& out->Ok_0.raw_transaction@ == self.encoding(
                        kind,
                        chain_id,
                        Some(Signature { v: out->Ok_0.v, r, s }),
                    )
                    &&& out->Ok_0.transaction_hash@ == keccak256_digest(
                        out->Ok_0.raw_transaction@,
                    )
                },
                None => out == Err::<SignedTransaction, SigningError>(
                    SigningError::UnsupportedTransactionType(self.transaction_type->Some_0),
                ),
            },
    {
        let kind = match TransactionType::from_id(self.transaction_type) {
            Ok(kind) => kind,
            Err(e) => {
                return Err(e);
            },
        };
        let v = compute_v(kind, chain_id, recovery_id);
        let signature = Signature { v, r, s };
        match self.encode(chain_id, Some(&signature)) {
            Ok(signed) => {
                let transaction_hash = H256(keccak256(signed.as_slice()));
                Ok(
                    SignedTransaction {
                        message_hash,
                        v,
                        r,
                        s,
                        raw_transaction: signed,
                        transaction_hash,
                    },
                )
            },
            Err(e) => Err(e),
        }
    }
}

/// The recovery id whose candidate is the sender: zero if the candidate of
/// parity zero is, else one if the candidate of parity one is.
pub open spec fn matching_parity(from: Address, even: Address, odd: Address) -> Option<u64> {
    if even@ == from@ {
        Some(0u64)
    } else if odd@ == from@ {
        Some(1u64)
    } else {
        None
    }
}

/// Picks the recovery id from the two candidate addresses; fails where
/// neither is the sender.
pub fn resolve_recovery_id(from: &Address, even: &Address, odd: &Address) -> (out: Result<
    u64,
    SigningError,
>)
    ensures
        match matching_parity(*from, *even, *odd) {
            Some(id) => out == Ok::<u64, SigningError>(id),
            None => out == Err::<u64, SigningError>(SigningError::RecoveryMismatch),
        },
{
    if even.same(from) {
        Ok(0)
    } else if odd.same(from) {
        Ok(1)
    } else {
        Err(SigningError::RecoveryMismatch)
    }
}

/// What is to be signed, for whom, and for which chain.
#[derive(Clone, Debug, PartialEq, Eq)]
pub struct SignRequest {
    pub tx: Transaction,
    /// The address that the signature must recover to.
    pub from: Address,
    pub chain_id: u64,
}

impl SignRequest {
    /// The envelope of the transaction, if its type is known.
    pub open spec fn kind(&self) -> Option<TransactionType> {
        envelope_of(self.tx.transaction_type)
    }

    /// `v` of a legacy transaction on this chain fits in 64 bits.
    pub open spec fn wf(&self) -> bool {
        self.kind() == Some(TransactionType::Legacy) ==> self.chain_id <= MAX_LEGACY_CHAIN_ID
    }

    /// `hash` is the digest of the unsigned encoding.
    pub open spec fn hashed(&self, hash: H256) -> bool {
        self.kind() is Some && hash@ == keccak256_digest(
            self.tx.encoding(self.kind()->Some_0, self.chain_id, None),
        )
    }
}

/// Where a signing stands.
#[derive(Clone, Debug, PartialEq, Eq)]
pub enum SignState {
    /// The transaction is built; nothing is computed yet.
    Built { request: SignRequest },
    /// The digest to sign is known.
    Hashed { request: SignRequest, message_hash: H256 },
    /// The signer has been asked.
    AwaitingSignature { request: SignRequest, message_hash: H256 },
    /// The signature is here and in range; the address that it recovers to
    /// with `parity` has been asked for.
    Resolving { request: SignRequest, message_hash: H256, r: H256, s: H256, parity: u64 },
    /// The recovery id is known.
    RecoveryResolved { request: SignRequest, message_hash: H256, r: H256, s: H256, recovery_id: u64 },
    /// Signed.
    Finalized { result: SignedTransaction },
    /// Given up, with the digest if it was computed. Nothing of a signed
    /// transaction is kept.
    Failed { error: SigningError, hashed: Option<H256> },
}

/// What the caller reports.
#[derive(Clone, Debug, PartialEq, Eq)]
pub enum SignEvent {
    /// Nothing was asked; go on.
    Proceed,
    /// The signer's raw signature: `r` then `s`, 32 bytes each.
    Signed(Vec<u8>),
    /// The signer refused or failed, with its reason.
    SignerFailed(String),
    /// The address that the signature recovers to with the parity asked for.
    Recovered(Address),
    /// The recovery refused the signature.
    RecoveryFailed,
}

/// What the caller is to do next.
#[derive(Clone, Copy, Debug, PartialEq, Eq)]
pub enum SignAction {
    /// Nothing outside; report `Proceed`.
    Proceed,
    /// Have the digest signed; report `Signed` or `SignerFailed`.
    Sign { message_hash: H256 },
    /// Recover the address for this parity; report `Recovered` or
    /// `RecoveryFailed`.
    Recover { message_hash: H256, r: H256, s: H256, parity: u64 },
    /// The state is final.
    Done,
}

impl SignState {
    /// What holds of the data in each state.
    pub open spec fn wf(&self) -> bool {
        match *self {
            SignState::Built { request } => request.wf(),
            SignState::Hashed { request, message_hash } => request.wf() && request.hashed(
                message_hash,
            ),
            SignState::AwaitingSignature { request, message_hash } => request.wf()
                && request.hashed(message_hash),
            SignState::Resolving { request, message_hash, r, s, parity } => {
                &&& request.wf()
                &&& request.hashed(message_hash)
                &&& recoverable(message_hash@, r@, s@)
                &&& parity <= 1
            },
            SignState::RecoveryResolved { request, message_hash, r, s, recovery_id } => {
                &&& request.wf()
                &&& request.hashed(message_hash)
                &&& recoverable(message_hash@, r@, s@)
                &&& recovery_id <= 1
            },
            SignState::Finalized { result } => true,
            SignState::Failed { error, hashed } => true,
        }
    }

    /// The action that a state waits on.
    pub open spec fn pending(&self) -> SignAction {
        match *self {
            SignState::Built { request } => SignAction::Proceed,
            SignState::Hashed { request, message_hash } => SignAction::Proceed,
            SignState::AwaitingSignature { request, message_hash } => SignAction::Sign {
                message_hash,
            },
            SignState::Resolving { request, message_hash, r, s, parity } => SignAction::Recover {
                message_hash,
                r,
                s,
                parity,
            },
            SignState::RecoveryResolved { request, message_hash, r, s, recovery_id } =>
                SignAction::Proceed,
            SignState::Finalized { result } => SignAction::Done,
            SignState::Failed { error, hashed } => SignAction::Done,
        }
    }

    /// The failure with `error` after the digest `hash` was computed.
    pub open spec fn failed_after(error: SigningError, hash: H256) -> SignState {
        SignState::Failed { error, hashed: Some(hash) }
    }

    /// The transition relation: `next` and `action` are what follows from
    /// this state on `event`.
    ///
    /// - Built, on `Proceed`: the unsigned encoding is hashed, or the type is
    ///   refused.
    /// - Hashed, on `Proceed`: the signer is asked.
    /// - AwaitingSignature, on `Signed`: a signature of at least 64 bytes
    ///   whose halves are in range, over a digest that is not zero, has its
    ///   address asked for with parity zero; any other is invalid. On
    ///   `SignerFailed`: failure with the reason.
    /// - Resolving, on `Recovered`: the sender's address settles the recovery
    ///   id; another address asks for parity one after parity zero, and is a
    ///   mismatch after parity one. On `RecoveryFailed`: the signature is
    ///   invalid.
    /// - RecoveryResolved, on `Proceed`: the signed transaction.
    /// - Anything else leaves the state as it is and repeats its action.
    pub open spec fn follows(self, event: SignEvent, next: SignState, action: SignAction) -> bool {
        match (self, event) {
            (SignState::Built { request }, SignEvent::Proceed) => match request.kind() {
                Some(kind) => {
                    &&& next is Hashed
                    &&& next->Hashed_request == request
                    &&& request.hashed(next->Hashed_message_hash)
                    &&& action == SignAction::Proceed
                },
                None => {
                    &&& next == SignState::Failed {
                        error: SigningError::UnsupportedTransactionType(
                            request.tx.transaction_type->Some_0,
                        ),
                        hashed: None,
                    }
                    &&& action == SignAction::Done
                },
            },
            (SignState::Hashed { request, message_hash }, SignEvent::Proceed) => {
                &&& next == SignState::AwaitingSignature { request, message_hash }
                &&& action == SignAction::Sign { message_hash }
            },
            (SignState::AwaitingSignature { request, message_hash }, SignEvent::Signed(raw)) => {
                if raw@.len() >= 64 && recoverable(
                    message_hash@,
                    raw@.subrange(0, 32),
                    raw@.subrange(32, 64),
                ) {
                    &&& next is Resolving
                    &&& next->Resolving_request == request
                    &&& next->Resolving_message_hash == message_hash
                    &&& next->Resolving_r@ == raw@.subrange(0, 32)
                    &&& next->Resolving_s@ == raw@.subrange(32, 64)
                    &&& next->Resolving_parity == 0
                    &&& action == next.pending()
                } else {
                    &&& next == Self::failed_after(SigningError::InvalidSignature, message_hash)
                    &&& action == SignAction::Done
                }
            },
            (
                SignState::AwaitingSignature { request, message_hash },
                SignEvent::SignerFailed(reason),
            ) => {
                &&& next == Self::failed_after(SigningError::SigningFailed(reason), message_hash)
                &&& action == SignAction::Done
            },
            (
                SignState::Resolving { request, message_hash, r, s, parity },
                SignEvent::Recovered(address),
            ) => {
                if address@ == request.from@ {
                    &&& next == SignState::RecoveryResolved {
                        request,
                        message_hash,
                        r,
                        s,
                        recovery_id: parity,
                    }
                    &&& action == SignAction::Proceed
                } else if parity == 0 {
                    &&& next == SignState::Resolving { request, message_hash, r, s, parity: 1 }
                    &&& action == SignAction::Recover { message_hash, r, s, parity: 1 }
                } else {
                    &&& next == Self::failed_after(SigningError::RecoveryMismatch, message_hash)
                    &&& action == SignAction::Done
                }
            },
            (
                SignState::Resolving { request, message_hash, r, s, parity },
                SignEvent::RecoveryFailed,
            ) => {
                &&& next == Self::failed_after(SigningError::InvalidSignature, message_hash)
                &&& action == SignAction::Done
            },
            (
                SignState::RecoveryResolved { request, message_hash, r, s, recovery_id },
                SignEvent::Proceed,
            ) => {
                &&& next is Finalized
                &&& request.kind() is Some
                &&& signs(
                    next->Finalized_result,
                    request.tx,
                    request.kind()->Some_0,
                    request.chain_id,
                    r,
                    s,
                    recovery_id,
                )
                &&& next->Finalized_result.message_hash == message_hash
                &&& action == SignAction::Done
            },
            _ => next == self && action == self.pending(),
        }
    }

    /// The state in which signing starts.
    pub fn new(tx: Transaction, from: Address, chain_id: u64) -> (state: SignState)
        ensures
            state == (SignState::Built { request: SignRequest { tx, from, chain_id } }),
    {
        SignState::Built { request: SignRequest { tx, from, chain_id } }
    }

    /// The action that this state waits on.
    pub fn pending_action(&self) -> (action: SignAction)
        ensures
            action == self.pending(),
    {
        match self {
            SignState::Built { .. } => SignAction::Proceed,
            SignState::Hashed { .. } => SignAction::Proceed,
            SignState::AwaitingSignature { message_hash, .. } => SignAction::Sign {
                message_hash: *message_hash,
            },
            SignState::Resolving { message_hash, r, s, parity, .. } => SignAction::Recover {
                message_hash: *message_hash,
                r: *r,
                s: *s,
                parity: *parity,
            },
            SignState::RecoveryResolved { .. } => SignAction::Proceed,
            SignState::Finalized { .. } => SignAction::Done,
            SignState::Failed { .. } => SignAction::Done,
        }
    }

    /// Whether signing has ended, in success or in failure.
    pub fn is_final(&self) -> (done: bool)
        ensures
            done == (self is Finalized || self is Failed),
    {
        match self {
            SignState::Finalized { .. } => true,
            SignState::Failed { .. } => true,
            _ => false,
        }
    }

    /// Takes one step: the state and the action that follow on `event`.
    pub fn advance(self, event: SignEvent) -> (out: (SignState, SignAction))
        requires
            self.wf(),
        ensures
            self.follows(event, out.0, out.1),
            out.0.wf(),
            out.1 == out.0.pending(),
    {
        match (self, event) {
            (SignState::Built { request }, SignEvent::Proceed) => {
                match request.tx.message_hash(request.chain_id) {
                    Ok(message_hash) => (
                        SignState::Hashed { request, message_hash },
                        SignAction::Proceed,
                    ),
                    Err(error) => (
                        SignState::Failed { error, hashed: None },
                        SignAction::Done,
                    ),
                }
            },
            (SignState::Hashed { request, message_hash }, SignEvent::Proceed) => (
                SignState::AwaitingSignature { request, message_hash },
                SignAction::Sign { message_hash },
            ),
            (SignState::AwaitingSignature { request, message_hash }, SignEvent::Signed(raw)) => {
                if raw.len() < 64 {
                    return (
                        SignState::Failed {
                            error: SigningError::InvalidSignature,
                            hashed: Some(message_hash),
                        },
                        SignAction::Done,
                    );
                }
                let r = H256::from_slice(vstd::slice::slice_subrange(raw.as_slice(), 0, 32));
                let s = H256::from_slice(vstd::slice::slice_subrange(raw.as_slice(), 32, 64));
                match check_recoverable(&message_hash, &r, &s) {
                    Ok(()) => (
                        SignState::Resolving { request, message_hash, r, s, parity: 0 },
                        SignAction::Recover { message_hash, r, s, parity: 0 },
                    ),
                    Err(_) => (
                        SignState::Failed {
                            error: SigningError::InvalidSignature,
                            hashed: Some(message_hash),
                        },
                        SignAction::Done,
                    ),
                }
            },
            (
                SignState::AwaitingSignature { request, message_hash },
                SignEvent::SignerFailed(reason),
            ) => (
                SignState::Failed {
                    error: SigningError::SigningFailed(reason),
                    hashed: Some(message_hash),
                },
                SignAction::Done,
            ),
            (
                SignState::Resolving { request, message_hash, r, s, parity },
                SignEvent::Recovered(address),
            ) => {
                if address.same(&request.from) {
                    (
                        SignState::RecoveryResolved {
                            request,
                            message_hash,
                            r,
                            s,
                            recovery_id: parity,
                        },
                        SignAction::Proceed,
                    )
                } else if parity == 0 {
                    (
                        SignState::Resolving { request, message_hash, r, s, parity: 1 },
                        SignAction::Recover { message_hash, r, s, parity: 1 },
                    )
                } else {
                    (
                        SignState::Failed {
                            error: SigningError::RecoveryMismatch,
                            hashed: Some(message_hash),
                        },
                        SignAction::Done,
                    )
                }
            },
            (
                SignState::Resolving { request, message_hash, r, s, parity },
                SignEvent::RecoveryFailed,
            ) => (
                SignState::Failed {
                    error: SigningError::InvalidSignature,
                    hashed: Some(message_hash),
                },
                SignAction::Done,
            ),
            (
                SignState::RecoveryResolved { request, message_hash, r, s, recovery_id },
                SignEvent::Proceed,
            ) => {
                match request.tx.finalize(request.chain_id, message_hash, r, s, recovery_id) {
                    Ok(result) => (SignState::Finalized { result }, SignAction::Done),
                    Err(error) => (
                        SignState::Failed { error, hashed: Some(message_hash) },
                        SignAction::Done,
                    ),
                }
            },
            (state, _) => {
                let action = state.pending_action();
                (state, action)
            },
        }
    }
}

} // verus!
