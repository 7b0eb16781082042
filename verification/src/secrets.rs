//! Constant-time comparison of shared secrets.
use subtle::ConstantTimeEq;
use vstd::prelude::*;

verus! {

/// `subtle`'s `ConstantTimeEq::ct_eq` on byte slices, turned into a `bool`.
/// Its source returns a false `Choice` when the lengths differ and otherwise
/// compares every byte without branching, so the result is `true` exactly when
/// the two slices hold the same bytes.
#[verifier::external_body]
fn ct_eq_bytes(a: &[u8], b: &[u8]) -> (r: bool)
    ensures
        r == (a@ == b@),
{
    a.ct_eq(b).into()
}

/// Whether a provided secret equals the expected one, compared in constant
/// time over their UTF-8 bytes.
pub fn secrets_match(provided: &str, expected: &str) -> (r: bool)
    ensures
        r == (provided@ == expected@),
{
    let a = provided.as_bytes();
    let b = expected.as_bytes();
    let r = ct_eq_bytes(a, b);
    proof {
        vstd::utf8::encode_utf8_decode_utf8(provided@);
        vstd::utf8::encode_utf8_decode_utf8(expected@);
    }
    r
}

/// `s` followed by zero bytes up to length `n`.
pub open spec fn zero_padded(s: Seq<u8>, n: nat) -> Seq<u8> {
    s + Seq::new((n - s.len()) as nat, |i: int| 0u8)
}

/// Equality of two byte strings after both are zero-padded to the longer
/// length: equal strings match, and so do strings that differ only in
/// trailing zero bytes.
pub open spec fn padded_equal(a: Seq<u8>, b: Seq<u8>) -> bool {
    let n = if a.len() >= b.len() {
        a.len()
    } else {
        b.len()
    };
    zero_padded(a, n) == zero_padded(b, n)
}

fn zero_pad(s: &[u8], n: usize) -> (r: Vec<u8>)
    requires
        s@.len() <= n,
    ensures
        r@ == zero_padded(s@, n as nat),
{
    let mut v: Vec<u8> = Vec::new();
    let mut i: usize = 0;
    while i < n
        invariant
            i <= n,
            s@.len() <= n,
            v@.len() == i,
            forall|k: int| 0 <= k < i ==> v@[k] == (if k < s@.len() {
                s@[k]
            } else {
                0u8
            }),
        decreases n - i,
    {
        if i < s.len() {
            v.push(s[i]);
        } else {
            v.push(0u8);
        }
        i = i + 1;
    }
    assert(v@ =~= zero_padded(s@, n as nat));
    v
}

/// Compares two identifiers in constant time after zero-padding both to the
/// longer length.
pub fn padded_secrets_match(a: &str, b: &str) -> (r: bool)
    ensures
        r == padded_equal(vstd::utf8::encode_utf8(a@), vstd::utf8::encode_utf8(b@)),
{
    let ab = a.as_bytes();
    let bb = b.as_bytes();
    let n = if ab.len() >= bb.len() {
        ab.len()
    } else {
        bb.len()
    };
    let pa = zero_pad(ab, n);
    let pb = zero_pad(bb, n);
    ct_eq_bytes(pa.as_slice(), pb.as_slice())
}

/// Identical identifiers always match.
pub proof fn lemma_padded_equal_refl(a: Seq<u8>)
    ensures
        padded_equal(a, a),
{
}

} // verus!
