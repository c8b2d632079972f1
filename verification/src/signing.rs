//! Digests, signatures and the errors of signing.

use vstd::prelude::*;
use vstd::string::StringExecFns;
use tiny_keccak::{Hasher, Keccak};
use crate::rlp::{be_value, put};
use crate::types::H256;

verus! {

/// Why a transaction could not be signed.
#[derive(Debug, Clone, PartialEq, Eq)]
pub enum SigningError {
    /// A required field was absent; the field's name.
    MissingField(String),
    /// The transaction type is none of legacy, access list and fee market;
    /// the type's number.
    UnsupportedTransactionType(u64),
    /// The signer refused or failed; its reason, unchanged.
    SigningFailed(String),
    /// The signature is too short, `r` or `s` is zero or not below the order
    /// of the curve, or the digest is zero.
    InvalidSignature,
    /// Neither parity recovers the expected sender.
    RecoveryMismatch,
}

/// Why a sender could not be recovered.
#[derive(Debug, Clone, PartialEq, Eq)]
pub enum RecoveryError {
    /// A message to recover is invalid: it has to be 32 bytes, not all zero.
    InvalidMessage,
    /// A signature is invalid and the sender could not be recovered.
    InvalidSignature,
}

impl SigningError {
    /// The error as a sentence.
    pub fn message(&self) -> (text: String)
        ensures
            self is InvalidSignature ==> text@ == "Signature is invalid (check recovery id)."@,
            self is RecoveryMismatch ==> text@ == "Neither recovery id gives the sender."@,
            self is MissingField ==> text@ == "A required field is missing: "@ + self->MissingField_0@,
            self is SigningFailed ==> text@ == "The signer failed: "@ + self->SigningFailed_0@,
            self is UnsupportedTransactionType ==> text@ == "Unsupported transaction type"@,
    {
        match self {
            SigningError::InvalidSignature => "Signature is invalid (check recovery id).".to_owned(),
            SigningError::RecoveryMismatch => "Neither recovery id gives the sender.".to_owned(),
            SigningError::MissingField(name) => "A required field is missing: ".to_owned().concat(name.as_str()),
            SigningError::SigningFailed(reason) => "The signer failed: ".to_owned().concat(reason.as_str()),
            SigningError::UnsupportedTransactionType(_) => "Unsupported transaction type".to_owned(),
        }
    }
}

impl RecoveryError {
    /// The error as a sentence.
    pub fn message(&self) -> (text: String)
        ensures
            self is InvalidMessage ==> text@ == "Message has to be a non-zero 32-bytes slice."@,
            self is InvalidSignature ==> text@ == "Signature is invalid (check recovery id)."@,
    {
        match self {
            RecoveryError::InvalidMessage => "Message has to be a non-zero 32-bytes slice.".to_owned(),
            RecoveryError::InvalidSignature => "Signature is invalid (check recovery id).".to_owned(),
        }
    }
}

/// The components of a secp256k1 signature.
#[derive(Debug, Clone, Copy, PartialEq, Eq)]
pub struct Signature {
    /// For a legacy transaction the recovery id with the chain's replay
    /// protection folded in; for a typed one the recovery id itself.
    pub v: u64,
    /// First half of the raw signature.
    pub r: H256,
    /// Second half of the raw signature.
    pub s: H256,
}

/// The Keccak-256 digest of a byte string.
pub uninterp spec fn keccak256_digest(bytes: Seq<u8>) -> Seq<u8>;

/// Computes the Keccak-256 digest of `bytes` with `tiny_keccak`. Claimed: the
/// 32 bytes are a function of the input bytes alone.
#[verifier::external_body]
pub fn keccak256(bytes: &[u8]) -> (out: [u8; 32])
    ensures
        out@ == keccak256_digest(bytes@),
{
    let mut output = [0u8; 32];
    let mut hasher = Keccak::v256();
    hasher.update(bytes);
    hasher.finalize(&mut output);
    output
}

/// The digits of `n` in base ten as ASCII, most significant first.
pub open spec fn decimal_digits(n: nat) -> Seq<u8>
    decreases n,
{
    if n < 10 {
        seq![(48 + n) as u8]
    } else {
        decimal_digits(n / 10).push((48 + n % 10) as u8)
    }
}

/// The bytes of `"\x19Ethereum Signed Message:\n"`.
pub open spec fn message_prefix() -> Seq<u8> {
    seq![
        0x19u8, 0x45, 0x74, 0x68, 0x65, 0x72, 0x65, 0x75, 0x6d, 0x20, 0x53, 0x69, 0x67, 0x6e,
        0x65, 0x64, 0x20, 0x4d, 0x65, 0x73, 0x73, 0x61, 0x67, 0x65, 0x3a, 0x0a,
    ]
}

/// A message in its signing envelope: the prefix, the message's length in
/// decimal, the message.
pub open spec fn message_envelope(message: Seq<u8>) -> Seq<u8> {
    message_prefix() + decimal_digits(message.len()) + message
}

/// The decimal digits of `n` as ASCII.
pub fn decimal_bytes(n: usize) -> (out: Vec<u8>)
    ensures
        out@ == decimal_digits(n as nat),
{
    let mut digits: Vec<u8> = Vec::new();
    digits.push(48 + (n % 10) as u8);
    let mut m: usize = n / 10;
    proof {
        if n >= 10 {
            assert(decimal_digits(n as nat) == decimal_digits(m as nat).push((48 + n % 10) as u8));
        }
    }
    while m > 0
        invariant
            digits@.len() > 0,
            m > 0 ==> decimal_digits(n as nat) == decimal_digits(m as nat) + digits@,
            m == 0 ==> decimal_digits(n as nat) == digits@,
        decreases m,
    {
        let d: u8 = 48 + (m % 10) as u8;
        proof {
            if m >= 10 {
                let rest = decimal_digits((m / 10) as nat);
                assert(decimal_digits(m as nat) == rest.push(d));
                assert(rest.push(d) + digits@ =~= rest + digits@.insert(0, d));
            } else {
                assert(decimal_digits(m as nat) + digits@ =~= digits@.insert(0, d));
            }
        }
        digits.insert(0, d);
        m = m / 10;
    }
    digits
}

/// Hashes a message for signing: the digest of the message in its envelope.
pub fn hash_message(message: &[u8]) -> (hash: H256)
    ensures
        hash@ == keccak256_digest(message_envelope(message@)),
{
    let mut eth_message: Vec<u8> = vec![
        0x19u8, 0x45, 0x74, 0x68, 0x65, 0x72, 0x65, 0x75, 0x6d, 0x20, 0x53, 0x69, 0x67, 0x6e,
        0x65, 0x64, 0x20, 0x4d, 0x65, 0x73, 0x73, 0x61, 0x67, 0x65, 0x3a, 0x0a,
    ];
    assert(eth_message@ =~= message_prefix());
    put(&mut eth_message, decimal_bytes(message.len()));
    put(&mut eth_message, vstd::slice::slice_to_vec(message));
    H256(keccak256(eth_message.as_slice()))
}

/// The order of the secp256k1 group as 32 bytes, most significant first.
pub open spec fn curve_order_bytes() -> Seq<u8> {
    seq![
        0xffu8, 0xff, 0xff, 0xff, 0xff, 0xff, 0xff, 0xff, 0xff, 0xff, 0xff, 0xff, 0xff, 0xff,
        0xff, 0xfe, 0xba, 0xae, 0xdc, 0xe6, 0xaf, 0x48, 0xa0, 0x3b, 0xbf, 0xd2, 0x5e, 0x8c,
        0xd0, 0x36, 0x41, 0x41,
    ]
}

/// A signature component in range: above zero and below the group's order.
pub open spec fn valid_scalar(x: Seq<u8>) -> bool {
    0 < be_value(x) < be_value(curve_order_bytes())
}

/// What the recovery of a sender asks of its input: a digest that is not
/// zero, and `r` and `s` in range.
pub open spec fn recoverable(digest: Seq<u8>, r: Seq<u8>, s: Seq<u8>) -> bool {
    be_value(digest) != 0 && valid_scalar(r) && valid_scalar(s)
}

/// Whether the number that `a` denotes is below the one that `b` denotes.
pub fn value_less(a: &[u8], b: &[u8]) -> (less: bool)
    requires
        a@.len() == b@.len(),
    ensures
        less == (be_value(a@) < be_value(b@)),
{
    let mut less: bool = false;
    let mut equal: bool = true;
    let mut i: usize = 0;
    assert(a@.take(0) =~= Seq::<u8>::empty() && b@.take(0) =~= Seq::<u8>::empty());
    while i < a.len()
        invariant
            a@.len() == b@.len(),
            i <= a@.len(),
            less == (be_value(a@.take(i as int)) < be_value(b@.take(i as int))),
            equal == (be_value(a@.take(i as int)) == be_value(b@.take(i as int))),
        decreases a@.len() - i,
    {
        proof {
            let x = a@.take(i + 1);
            let y = b@.take(i + 1);
            assert(x.drop_last() =~= a@.take(i as int));
            assert(y.drop_last() =~= b@.take(i as int));
            assert(x.last() == a@[i as int] && y.last() == b@[i as int]);
        }
        less = less || (equal && a[i] < b[i]);
        equal = equal && a[i] == b[i];
        i += 1;
    }
    assert(a@.take(i as int) =~= a@ && b@.take(i as int) =~= b@);
    less
}

/// Whether the number that `a` denotes is zero.
pub fn value_is_zero(a: &[u8]) -> (zero: bool)
    ensures
        zero == (be_value(a@) == 0),
{
    let mut zero: bool = true;
    let mut i: usize = 0;
    assert(a@.take(0) =~= Seq::<u8>::empty());
    while i < a.len()
        invariant
            i <= a@.len(),
            zero == (be_value(a@.take(i as int)) == 0),
        decreases a@.len() - i,
    {
        proof {
            let x = a@.take(i + 1);
            assert(x.drop_last() =~= a@.take(i as int));
            assert(x.last() == a@[i as int]);
        }
        zero = zero && a[i] == 0;
        i += 1;
    }
    assert(a@.take(i as int) =~= a@);
    zero
}

/// Whether a signature component is above zero and below the group's order.
pub fn is_valid_scalar(x: &H256) -> (valid: bool)
    ensures
        valid == valid_scalar(x@),
{
    let order: [u8; 32] = [
        0xffu8, 0xff, 0xff, 0xff, 0xff, 0xff, 0xff, 0xff, 0xff, 0xff, 0xff, 0xff, 0xff, 0xff,
        0xff, 0xfe, 0xba, 0xae, 0xdc, 0xe6, 0xaf, 0x48, 0xa0, 0x3b, 0xbf, 0xd2, 0x5e, 0x8c,
        0xd0, 0x36, 0x41, 0x41,
    ];
    assert(order@ =~= curve_order_bytes());
    !value_is_zero(x.as_bytes()) && value_less(x.as_bytes(), order.as_slice())
}

/// Checks what the recovery of a sender asks of its input: a digest that is
/// not zero, and `r` and `s` above zero and below the group's order. A zero
/// digest is an invalid message, whatever the signature.
pub fn check_recoverable(digest: &H256, r: &H256, s: &H256) -> (out: Result<(), RecoveryError>)
    ensures
        out is Ok <==> recoverable(digest@, r@, s@),
        out is Err ==> out == Err::<(), RecoveryError>(
            if be_value(digest@) == 0 {
                RecoveryError::InvalidMessage
            } else {
                RecoveryError::InvalidSignature
            },
        ),
{
    if value_is_zero(digest.as_bytes()) {
        Err(RecoveryError::InvalidMessage)
    } else if is_valid_scalar(r) && is_valid_scalar(s) {
        Ok(())
    } else {
        Err(RecoveryError::InvalidSignature)
    }
}

} // verus!
