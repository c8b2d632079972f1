//! Recursive length prefix: the byte format of every transaction envelope.
//!
//! The format is stated as spec functions on byte sequences. The executable
//! encoders hand the framing to the `rlp` crate and are specified against
//! those functions.

use vstd::prelude::*;

verus! {

/// Longest input for which the outside encoder writes a correct length.
pub const OUTSIDE_LIMIT: usize = 0xffff_ffff;

/// The digits of `n` in base 256, most significant first, without leading
/// zeros. Zero has no digits.
pub open spec fn be_bytes(n: nat) -> Seq<u8>
    decreases n,
{
    if n == 0 {
        Seq::empty()
    } else {
        be_bytes(n / 256).push((n % 256) as u8)
    }
}

/// The number that a byte string denotes when read most significant byte first.
pub open spec fn be_value(s: Seq<u8>) -> nat
    decreases s.len(),
{
    if s.len() == 0 {
        0
    } else {
        be_value(s.drop_last()) * 256 + s.last() as nat
    }
}

/// A byte string without a leading zero byte.
pub open spec fn is_minimal(s: Seq<u8>) -> bool {
    s.len() == 0 || s[0] != 0
}

/// The encoding of a byte string: a single byte below `0x80` stands for
/// itself, a string of up to 55 bytes follows `0x80 + len`, a longer one
/// follows `0xb7 + k` and the `k` digits of its length.
pub open spec fn rlp_string(b: Seq<u8>) -> Seq<u8> {
    if b.len() == 1 && b[0] < 0x80 {
        b
    } else if b.len() <= 55 {
        seq![(0x80 + b.len()) as u8] + b
    } else {
        seq![(0xb7 + be_bytes(b.len()).len()) as u8] + be_bytes(b.len()) + b
    }
}

/// The encoding of a list whose items, already encoded and concatenated, are
/// `payload`: up to 55 bytes follow `0xc0 + len`, more follow `0xf7 + k` and
/// the `k` digits of the length.
pub open spec fn rlp_list(payload: Seq<u8>) -> Seq<u8> {
    if payload.len() <= 55 {
        seq![(0xc0 + payload.len()) as u8] + payload
    } else {
        seq![(0xf7 + be_bytes(payload.len()).len()) as u8] + be_bytes(payload.len()) + payload
    }
}

/// The encoding of an unsigned integer of any size: its digits as a string.
pub open spec fn rlp_uint(n: nat) -> Seq<u8> {
    rlp_string(be_bytes(n))
}

/// `256^(8 - k)` for `k` in `0..=8`: the bound on a number with `8 - k` digits.
pub open spec fn digit_span(k: int) -> int {
    if k == 0 {
        0x1_0000_0000_0000_0000
    } else if k == 1 {
        0x1_00_0000_0000_0000
    } else if k == 2 {
        0x1_0000_0000_0000
    } else if k == 3 {
        0x1_00_0000_0000
    } else if k == 4 {
        0x1_0000_0000
    } else if k == 5 {
        0x1_00_0000
    } else if k == 6 {
        0x1_0000
    } else if k == 7 {
        0x1_00
    } else {
        1
    }
}

/// Reading the digits of a number gives the number back.
pub proof fn lemma_value_of_digits(n: nat)
    ensures
        be_value(be_bytes(n)) == n,
        is_minimal(be_bytes(n)),
        n > 0 ==> be_bytes(n).len() > 0,
    decreases n,
{
    if n > 0 {
        lemma_value_of_digits(n / 256);
        let init = be_bytes(n / 256);
        let s = be_bytes(n);
        assert(s == init.push((n % 256) as u8));
        assert(s.drop_last() =~= init);
        assert(s.last() == (n % 256) as u8);
        if n / 256 > 0 {
            assert(s[0] == init[0]);
        }
    }
}

/// Leading zero bytes do not change the number that a string denotes.
pub proof fn lemma_leading_zeros(s: Seq<u8>, k: int)
    requires
        0 <= k <= s.len(),
        forall|i: int| 0 <= i < k ==> s[i] == 0,
    ensures
        be_value(s) == be_value(s.subrange(k, s.len() as int)),
    decreases s.len(),
{
    let tail = s.subrange(k, s.len() as int);
    if s.len() == 0 {
        assert(tail =~= s);
    } else if k == s.len() {
        lemma_leading_zeros(s.drop_last(), k - 1);
        assert(s.drop_last().subrange(k - 1, s.len() - 1) =~= Seq::<u8>::empty());
        assert(tail =~= Seq::<u8>::empty());
    } else {
        lemma_leading_zeros(s.drop_last(), k);
        assert(tail.drop_last() =~= s.drop_last().subrange(k, s.len() - 1));
        assert(tail.last() == s.last());
    }
}

/// A string without a leading zero is the digit string of its own value.
pub proof fn lemma_digits_of_value(s: Seq<u8>)
    requires
        is_minimal(s),
    ensures
        be_bytes(be_value(s)) == s,
    decreases s.len(),
{
    if s.len() == 0 {
    } else {
        let init = s.drop_last();
        let v = be_value(s);
        if init.len() == 0 {
            assert(be_value(init) == 0);
            assert(v == s[0] as nat);
            assert(v / 256 == 0 && v % 256 == v);
            assert(be_bytes(v) == be_bytes(0).push(v as u8));
            assert(be_bytes(v) =~= s);
        } else {
            assert(init[0] == s[0]);
            lemma_digits_of_value(init);
            let w = be_value(init);
            if w == 0 {
                assert(be_bytes(w) =~= Seq::<u8>::empty());
                assert(false);
            }
            assert(v == w * 256 + s.last() as nat);
            assert(v / 256 == w && v % 256 == s.last() as nat);
            assert(be_bytes(v) == be_bytes(w).push(s.last()));
            assert(be_bytes(v) =~= s);
        }
    }
}

/// A number below `256^k` has at most `k` digits, for `k` up to eight.
pub proof fn lemma_digit_count(n: nat, k: int)
    requires
        0 <= k <= 8,
        n < digit_span(8 - k),
    ensures
        be_bytes(n).len() <= k,
    decreases n,
{
    if n > 0 {
        lemma_digit_count(n / 256, k - 1);
    }
}

/// The `rlp` crate's `encode` on a byte slice. Claimed: for input of less than
/// 2^32 bytes the output is the string encoding of the input.
#[verifier::external_body]
fn outside_string(bytes: &[u8]) -> (out: Vec<u8>)
    requires
        bytes@.len() <= OUTSIDE_LIMIT,
    ensures
        out@ == rlp_string(bytes@),
{
    ::rlp::encode(&bytes).to_vec()
}

/// The `rlp` crate's `RlpStream`, opened as a list and closed by one raw
/// append of the whole payload. Claimed: for a payload of less than 2^32
/// bytes the output is the list header followed by the payload.
#[verifier::external_body]
fn outside_list(payload: &[u8]) -> (out: Vec<u8>)
    requires
        payload@.len() <= OUTSIDE_LIMIT,
    ensures
        out@ == rlp_list(payload@),
{
    let mut stream = ::rlp::RlpStream::new_list(1);
    stream.append_raw(payload, 1);
    stream.out().to_vec()
}

/// The digits of `n` in base 256, most significant first.
pub fn uint_bytes(n: u64) -> (out: Vec<u8>)
    ensures
        out@ == be_bytes(n as nat),
        out@.len() <= 8,
{
    let mut digits: Vec<u8> = Vec::new();
    let mut m: u64 = n;
    while m > 0
        invariant
            be_bytes(n as nat) == be_bytes(m as nat) + digits@,
            digits@.len() <= 8,
            m < digit_span(digits@.len() as int),
        decreases m,
    {
        let d: u8 = (m % 256) as u8;
        proof {
            let rest = be_bytes((m / 256) as nat);
            assert(be_bytes(m as nat) == rest.push(d));
            assert(rest.push(d) + digits@ =~= rest + digits@.insert(0, d));
        }
        digits.insert(0, d);
        m = m / 256;
    }
    assert(be_bytes(0) + digits@ =~= digits@);
    digits
}

/// Appends `item` to `buf`.
pub fn put(buf: &mut Vec<u8>, item: Vec<u8>)
    ensures
        final(buf)@ == old(buf)@ + item@,
{
    let mut item = item;
    buf.append(&mut item);
}

/// Header byte `base + k` followed by the `k` digits of `len`.
fn long_header(base: u8, len: usize) -> (out: Vec<u8>)
    requires
        base <= 0xf7,
    ensures
        out@ == seq![(base + be_bytes(len as nat).len()) as u8] + be_bytes(len as nat),
{
    let size = uint_bytes(len as u64);
    let mut out: Vec<u8> = Vec::new();
    out.push(base + size.len() as u8);
    put(&mut out, size);
    out
}

/// Encodes a byte string.
pub fn encode_bytes(bytes: &[u8]) -> (out: Vec<u8>)
    ensures
        out@ == rlp_string(bytes@),
{
    if bytes.len() <= OUTSIDE_LIMIT {
        outside_string(bytes)
    } else {
        // The outside encoder keeps four digits of a length: a longer
        // string gets its header here.
        let mut out = long_header(0xb7, bytes.len());
        put(&mut out, vstd::slice::slice_to_vec(bytes));
        out
    }
}

/// Encodes a list from the concatenated encodings of its items.
pub fn encode_list(payload: &[u8]) -> (out: Vec<u8>)
    ensures
        out@ == rlp_list(payload@),
{
    if payload.len() <= OUTSIDE_LIMIT {
        outside_list(payload)
    } else {
        let mut out = long_header(0xf7, payload.len());
        put(&mut out, vstd::slice::slice_to_vec(payload));
        out
    }
}

/// Encodes an unsigned 64-bit integer.
pub fn encode_u64(n: u64) -> (out: Vec<u8>)
    ensures
        out@ == rlp_uint(n as nat),
{
    let digits = uint_bytes(n);
    encode_bytes(digits.as_slice())
}

} // verus!
