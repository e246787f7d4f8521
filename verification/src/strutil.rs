//! String comparison primitives.
//!
//! All string equality checks in this crate go through [`str_eq`], whose inner
//! byte loop examines every byte of both inputs regardless of where the first
//! difference lies, so that comparisons of equal-length secrets (such as
//! password digests) take time independent of their contents.

use vstd::prelude::*;
use vstd::string::*;
use vstd::utf8::*;

verus! {

/// Compares two byte slices in constant time with respect to their (equal)
/// lengths: the loop never exits early on a mismatch.
fn bytes_eq(a: &[u8], b: &[u8]) -> (r: bool)
    ensures
        r == (a@ == b@),
{
    if a.len() != b.len() {
        assert(a@.len() != b@.len());
        return false;
    }
    let n = a.len();
    let mut diff: u8 = 0;
    assert(a@.take(0) =~= b@.take(0));
    for i in 0..n
        invariant
            n == a@.len() == b@.len(),
            (diff == 0) <==> (a@.take(i as int) == b@.take(i as int)),
    {
        let x = a[i];
        let y = b[i];
        proof {
            let d0 = diff;
            assert((d0 | (x ^ y)) == 0 <==> (d0 == 0 && x == y)) by (bit_vector);
            if d0 == 0 && x == y {
                assert(a@.take(i + 1) =~= a@.take(i as int).push(a@[i as int]));
                assert(b@.take(i + 1) =~= b@.take(i as int).push(b@[i as int]));
            } else {
                if a@.take(i + 1) == b@.take(i + 1) {
                    assert(a@.take(i as int) =~= a@.take(i + 1).take(i as int));
                    assert(b@.take(i as int) =~= b@.take(i + 1).take(i as int));
                    assert(a@[i as int] == a@.take(i + 1)[i as int]);
                }
            }
        }
        diff = diff | (x ^ y);
    }
    proof {
        assert(a@.take(n as int) =~= a@);
        assert(b@.take(n as int) =~= b@);
    }
    diff == 0
}

/// String equality, decided over the UTF-8 bytes in constant time with
/// respect to the byte length.
pub fn str_eq(a: &str, b: &str) -> (r: bool)
    ensures
        r == (a@ == b@),
{
    let r = bytes_eq(a.as_bytes(), b.as_bytes());
    proof {
        if a.spec_bytes() == b.spec_bytes() {
            encode_utf8_decode_utf8(a@);
            encode_utf8_decode_utf8(b@);
        }
    }
    r
}

} // verus!
