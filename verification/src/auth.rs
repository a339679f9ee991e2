//! The bearer-token authorization decision: given the raw `Authorization`
//! header bytes of a request and the configured API key, decide whether the
//! request is allowed. Reading the header and answering the request stay
//! with the HTTP layer.

use vstd::prelude::*;

verus! {

/// The ASCII bytes of the scheme prefix `Bearer ` (with its trailing
/// space).
pub open spec fn spec_bearer_prefix() -> Seq<u8> {
    seq![0x42u8, 0x65u8, 0x61u8, 0x72u8, 0x65u8, 0x72u8, 0x20u8]
}

/// Whether an `Authorization` header authorizes a request: the header must
/// be present, carry the `Bearer ` scheme, and its token must equal the API
/// key byte for byte.
pub open spec fn spec_authorized(header: Option<Seq<u8>>, api_key: Seq<u8>) -> bool {
    match header {
        Option::Some(h) => h.len() >= 7 && h.subrange(0, 7) == spec_bearer_prefix() && h.skip(7)
            == api_key,
        Option::None => false,
    }
}

/// Decide whether a request's `Authorization` header value matches the
/// configured API key under the `Bearer` scheme. `None` stands for a
/// request without the header.
pub fn authorize_bearer(header: &Option<Vec<u8>>, api_key: &Vec<u8>) -> (r: bool)
    ensures
        r == spec_authorized(header.deep_view(), api_key@),
{
    let h = match header {
        Option::Some(h) => h,
        Option::None => { return false },
    };
    proof {
        assert(h.deep_view() =~= h@);
        assert(header.deep_view() == Some(h@));
    }
    if h.len() < 7 {
        return false;
    }

    let prefix: [u8; 7] = [0x42, 0x65, 0x61, 0x72, 0x65, 0x72, 0x20];
    proof {
        assert(prefix@ =~= spec_bearer_prefix());
    }
    let mut i: usize = 0;
    while i < 7
        invariant
            i <= 7,
            h@.len() >= 7,
            header.deep_view() == Some(h@),
            prefix@ == spec_bearer_prefix(),
            forall|j: int| 0 <= j < i ==> h@[j] == prefix@[j],
        decreases 7 - i,
    {
        if h[i] != prefix[i] {
            proof {
                assert(h@.subrange(0, 7)[i as int] != spec_bearer_prefix()[i as int]);
                assert(h@.subrange(0, 7) != spec_bearer_prefix());
            }
            return false;
        }
        i += 1;
    }
    proof {
        assert(h@.subrange(0, 7) =~= spec_bearer_prefix());
    }

    if h.len() - 7 != api_key.len() {
        proof {
            assert(h@.skip(7).len() != api_key@.len());
        }
        return false;
    }
    let mut i: usize = 7;
    while i < h.len()
        invariant
            7 <= i <= h@.len(),
            header.deep_view() == Some(h@),
            h@.subrange(0, 7) == spec_bearer_prefix(),
            h@.len() - 7 == api_key@.len(),
            forall|j: int| 7 <= j < i ==> h@[j] == api_key@[j - 7],
        decreases h@.len() - i,
    {
        if h[i] != api_key[i - 7] {
            proof {
                assert(h@.skip(7)[i - 7] != api_key@[i - 7]);
                assert(h@.skip(7) != api_key@);
            }
            return false;
        }
        i += 1;
    }
    proof {
        assert(h@.skip(7) =~= api_key@);
    }
    true
}

} // verus!
