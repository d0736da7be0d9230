//! Query parameters, flattened: of a repeated key only the last
//! occurrence counts.

use vstd::prelude::*;

use crate::bytes::{bytes_eq, copy_bytes};

verus! {

/// One query parameter, in the order the query string gave it.
pub struct QueryParam {
    pub key: Vec<u8>,
    pub value: Vec<u8>,
}

impl View for QueryParam {
    type V = (Seq<u8>, Seq<u8>);

    open spec fn view(&self) -> (Seq<u8>, Seq<u8>) {
        (self.key@, self.value@)
    }
}

/// A parameter list as a sequence of (key, value) byte strings.
pub open spec fn params_view(s: Seq<QueryParam>) -> Seq<(Seq<u8>, Seq<u8>)> {
    s.map_values(|p: QueryParam| p@)
}

/// The value of the last occurrence of `key`, if any.
pub open spec fn last_value(params: Seq<(Seq<u8>, Seq<u8>)>, key: Seq<u8>) -> Option<Seq<u8>>
    decreases params.len(),
{
    if params.len() == 0 {
        Option::None
    } else if params.last().0 == key {
        Option::Some(params.last().1)
    } else {
        last_value(params.drop_last(), key)
    }
}

/// Looks `key` up in the parameter list, last occurrence first.
pub fn query_get(params: &Vec<QueryParam>, key: &[u8]) -> (r: Option<Vec<u8>>)
    ensures
        match r {
            Option::Some(v) => last_value(params_view(params@), key@) == Option::Some(v@),
            Option::None => last_value(params_view(params@), key@) is None,
        },
{
    let ghost full = params_view(params@);
    let mut i: usize = params.len();
    assert(full.take(params.len() as int) =~= full);
    while i > 0
        invariant
            i <= params.len(),
            full == params_view(params@),
            last_value(full, key@) == last_value(full.take(i as int), key@),
        decreases i,
    {
        i = i - 1;
        let p = &params[i];
        proof {
            assert(full.take(i + 1).last() == params@[i as int]@);
            assert(full.take(i + 1).drop_last() =~= full.take(i as int));
        }
        if bytes_eq(p.key.as_slice(), key) {
            return Option::Some(copy_bytes(p.value.as_slice()));
        }
    }
    proof {
        assert(full.take(0).len() == 0);
    }
    Option::None
}

} // verus!
