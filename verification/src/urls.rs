//! Presigned-URL adjustment for split-horizon deployments: the object store
//! is reached under one hostname from inside the deployment network and
//! under another from the clients outside it.

use vstd::prelude::*;

verus! {

use crate::text::chars_to_string;
use crate::text::replace_chars;
use crate::text::spec_replace;
use crate::text::str_to_chars;

/// Rewrite a presigned URL's host from the internal endpoint to the public
/// endpoint.
///
/// Every occurrence of `internal_endpoint` in `url` is replaced by
/// `public_endpoint`; a URL that never mentions the internal endpoint comes
/// back unchanged. Clients outside the deployment network need URLs that
/// point at the public endpoint, while the service itself signs them under
/// the internal one.
pub fn rewrite_presigned_url_for_public_access(
    url: &str,
    internal_endpoint: &str,
    public_endpoint: &str,
) -> (r: String)
    ensures
        r@ == spec_replace(url@, internal_endpoint@, public_endpoint@),
{
    let hay = str_to_chars(url);
    let from = str_to_chars(internal_endpoint);
    let to = str_to_chars(public_endpoint);
    let replaced = replace_chars(&hay, &from, &to);
    chars_to_string(&replaced)
}

} // verus!
