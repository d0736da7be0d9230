//! The header multimap model and the header translator: the outbound
//! header set is the inbound one with the authentication header excluded
//! (case-insensitively, whether or not authentication is enforced) and
//! every field the outbound transport cannot represent dropped.

use vstd::prelude::*;

use crate::bytes::{copy_bytes, lower_bytes, lower_bytes_eq};
use crate::transport::{header_name_ok, header_value_ok, valid_header_name, valid_header_value};

verus! {

/// One header field: a name and a value, both plain bytes.
/// Duplicate names are allowed in a header list; order is kept.
pub struct HeaderField {
    pub name: Vec<u8>,
    pub value: Vec<u8>,
}

impl View for HeaderField {
    type V = (Seq<u8>, Seq<u8>);

    open spec fn view(&self) -> (Seq<u8>, Seq<u8>) {
        (self.name@, self.value@)
    }
}

/// A header list as a sequence of (name, value) byte strings.
pub open spec fn fields_view(s: Seq<HeaderField>) -> Seq<(Seq<u8>, Seq<u8>)> {
    s.map_values(|h: HeaderField| h@)
}

/// The authentication header name, lower case.
pub open spec fn auth_header_name() -> Seq<u8> {
    seq![104u8, 101u8, 97u8, 100u8, 101u8, 114u8, 95u8, 97u8, 117u8, 116u8, 104u8]
}

/// Case-insensitive match against the authentication header name.
pub open spec fn is_auth_name(s: Seq<u8>) -> bool {
    lower_bytes(s) == auth_header_name()
}

/// The authentication header name as a byte vector (`header_auth`).
pub fn auth_header_name_bytes() -> (v: Vec<u8>)
    ensures
        v@ == auth_header_name(),
{
    let mut v: Vec<u8> = Vec::new();
    v.push(104);
    v.push(101);
    v.push(97);
    v.push(100);
    v.push(101);
    v.push(114);
    v.push(95);
    v.push(97);
    v.push(117);
    v.push(116);
    v.push(104);
    assert(v@ =~= auth_header_name());
    v
}

/// Case-insensitive test for the authentication header name.
pub fn is_auth_header_name(name: &[u8]) -> (r: bool)
    ensures
        r == is_auth_name(name@),
{
    let expected = auth_header_name_bytes();
    lower_bytes_eq(name, expected.as_slice())
}

/// A header field the translator keeps: anything but the authentication
/// header, provided the outbound transport can represent it.
pub open spec fn header_kept(p: (Seq<u8>, Seq<u8>)) -> bool {
    &&& !is_auth_name(p.0)
    &&& valid_header_name(p.0)
    &&& valid_header_value(p.1)
}

/// The translator's filter as a single predicate value, so that every
/// contract and proof speaks of one and the same function.
pub open spec fn kept_pred() -> spec_fn((Seq<u8>, Seq<u8>)) -> bool {
    |p: (Seq<u8>, Seq<u8>)| header_kept(p)
}

/// Decides whether the translator keeps one field.
pub fn header_kept_exec(h: &HeaderField) -> (r: bool)
    ensures
        r == header_kept(h@),
{
    if is_auth_header_name(h.name.as_slice()) {
        return false;
    }
    header_name_ok(h.name.as_slice()) && header_value_ok(h.value.as_slice())
}

/// The header translator: copies every inbound field except the
/// authentication header (case-insensitive, unconditionally) and drops
/// any field the outbound transport cannot represent.
pub fn convert_headers(headers: &Vec<HeaderField>) -> (out: Vec<HeaderField>)
    ensures
        fields_view(out@) == fields_view(headers@).filter(kept_pred()),
{
    let mut out: Vec<HeaderField> = Vec::new();
    let n = headers.len();
    assert(fields_view(headers@.take(0)) =~= Seq::<(Seq<u8>, Seq<u8>)>::empty());
    for i in 0..n
        invariant
            n == headers.len(),
            fields_view(out@) == fields_view(headers@.take(i as int)).filter(kept_pred()),
    {
        let h = &headers[i];
        if header_kept_exec(h) {
            let copy = HeaderField {
                name: copy_bytes(h.name.as_slice()),
                value: copy_bytes(h.value.as_slice()),
            };
            proof {
                assert(copy@ == h@);
            }
            out.push(copy);
        }
        proof {
            lemma_filter_step(headers@, kept_pred(), i as int);
            assert(fields_view(out@) =~= fields_view(headers@.take(i + 1)).filter(kept_pred()));
        }
    }
    proof {
        assert(headers@.take(n as int) =~= headers@);
    }
    out
}

/// Extending a prefix of a header list by one field extends its filtered
/// image by that field exactly when the filter keeps it.
pub proof fn lemma_filter_step(
    headers: Seq<HeaderField>,
    pred: spec_fn((Seq<u8>, Seq<u8>)) -> bool,
    i: int,
)
    requires
        0 <= i < headers.len(),
    ensures
        fields_view(headers.take(i + 1)).filter(pred) == if pred(headers[i]@) {
            fields_view(headers.take(i)).filter(pred).push(headers[i]@)
        } else {
            fields_view(headers.take(i)).filter(pred)
        },
{
    let pre = fields_view(headers.take(i));
    let cur = fields_view(headers.take(i + 1));
    assert(cur =~= pre.push(headers[i]@));
    reveal(Seq::filter);
    assert(cur.drop_last() =~= pre);
    assert(cur.last() == headers[i]@);
}

/// The value of the first header whose name matches the authentication
/// header name, case-insensitively.
pub open spec fn first_auth_value(hs: Seq<(Seq<u8>, Seq<u8>)>) -> Option<Seq<u8>>
    decreases hs.len(),
{
    if hs.len() == 0 {
        Option::None
    } else if is_auth_name(hs[0].0) {
        Option::Some(hs[0].1)
    } else {
        first_auth_value(hs.drop_first())
    }
}

/// Looks up the authentication header among the inbound fields.
pub fn find_auth_value(headers: &Vec<HeaderField>) -> (r: Option<Vec<u8>>)
    ensures
        match r {
            Option::Some(v) => first_auth_value(fields_view(headers@)) == Option::Some(v@),
            Option::None => first_auth_value(fields_view(headers@)) is None,
        },
{
    let n = headers.len();
    let ghost full = fields_view(headers@);
    assert(full.skip(0) =~= full);
    for i in 0..n
        invariant
            n == headers.len(),
            full == fields_view(headers@),
            first_auth_value(full) == first_auth_value(full.skip(i as int)),
    {
        let h = &headers[i];
        if is_auth_header_name(h.name.as_slice()) {
            proof {
                assert(full.skip(i as int)[0] == headers@[i as int]@);
            }
            return Option::Some(copy_bytes(h.value.as_slice()));
        }
        proof {
            assert(full.skip(i as int)[0] == headers@[i as int]@);
            assert(full.skip(i as int).drop_first() =~= full.skip(i + 1));
        }
    }
    proof {
        assert(full.skip(n as int).len() == 0);
    }
    Option::None
}

} // verus!
