//! Byte-string helpers: ASCII case folding, equality, copying.

use vstd::prelude::*;

verus! {

/// Lower-case image of one byte: ASCII upper-case letters are folded,
/// every other byte is unchanged.
pub open spec fn byte_lower(b: u8) -> u8 {
    if 65 <= b <= 90 {
        (b + 32) as u8
    } else {
        b
    }
}

/// Lower-case image of a byte string.
pub open spec fn lower_bytes(s: Seq<u8>) -> Seq<u8> {
    s.map_values(|b: u8| byte_lower(b))
}

/// Lower-cases one byte.
pub fn lower_byte(b: u8) -> (r: u8)
    ensures
        r == byte_lower(b),
{
    if 65 <= b && b <= 90 {
        b + 32
    } else {
        b
    }
}

/// Byte-string equality.
pub fn bytes_eq(a: &[u8], b: &[u8]) -> (r: bool)
    ensures
        r == (a@ == b@),
{
    if a.len() != b.len() {
        return false;
    }
    let n = a.len();
    for i in 0..n
        invariant
            n == a.len() == b.len(),
            forall|j: int| 0 <= j < i ==> a@[j] == b@[j],
    {
        if a[i] != b[i] {
            return false;
        }
    }
    assert(a@ =~= b@);
    true
}

/// True iff the lower-cased `name` equals `expected` (given already lower case).
pub fn lower_bytes_eq(name: &[u8], expected: &[u8]) -> (r: bool)
    ensures
        r == (lower_bytes(name@) == expected@),
{
    if name.len() != expected.len() {
        assert(lower_bytes(name@).len() == name@.len());
        return false;
    }
    let n = name.len();
    for i in 0..n
        invariant
            n == name.len() == expected.len(),
            forall|j: int| 0 <= j < i ==> lower_bytes(name@)[j] == expected@[j],
    {
        if lower_byte(name[i]) != expected[i] {
            assert(lower_bytes(name@)[i as int] == byte_lower(name@[i as int]));
            return false;
        }
        assert(lower_bytes(name@)[i as int] == byte_lower(name@[i as int]));
    }
    assert(lower_bytes(name@) =~= expected@);
    true
}

/// Copies a byte string.
pub fn copy_bytes(src: &[u8]) -> (r: Vec<u8>)
    ensures
        r@ == src@,
{
    let mut r: Vec<u8> = Vec::new();
    let n = src.len();
    for i in 0..n
        invariant
            n == src.len(),
            r@ == src@.take(i as int),
    {
        r.push(src[i]);
        assert(r@ =~= src@.take(i + 1));
    }
    assert(src@.take(n as int) =~= src@);
    r
}

} // verus!
