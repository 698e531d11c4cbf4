//! The value types and URL handling of the account flows. The HTTP calls
//! themselves (lookup, login, account creation) are outside collaborators;
//! this module pins down what they send and where: the endpoint paths and
//! the normalization of a user-entered host into the details-lookup URL.

use crate::text::bytes_eq;
use vstd::prelude::*;
use vstd::slice::{slice_subrange, slice_to_vec};
use vstd::string::StringSliceAdditionalSpecFns;

verus! {

/// The login endpoint on a target server.
pub fn login_endpoint() -> (r: &'static str)
    ensures
        r@ == "/ark/client/login"@,
{
    "/ark/client/login"
}

/// The account-creation endpoint on a target server.
pub fn create_endpoint() -> (r: &'static str)
    ensures
        r@ == "/ark/client/create"@,
{
    "/ark/client/create"
}

/// The details endpoint a lookup probes to recognize a server.
pub fn details_endpoint() -> (r: &'static str)
    ensures
        r@ == "/ark/client/details"@,
{
    "/ark/client/details"
}

/// `s` begins with the prefix `p`.
pub open spec fn starts_with(s: Seq<u8>, p: Seq<u8>) -> bool {
    p.len() <= s.len() && s.take(p.len() as int) == p
}

fn starts_with_bytes(s: &[u8], p: &[u8]) -> (r: bool)
    ensures
        r == starts_with(s@, p@),
{
    if p.len() > s.len() {
        return false;
    }
    bytes_eq(slice_subrange(s, 0, p.len()), p)
}

/// The details-lookup URL for a user-entered host: "http://" is prefixed
/// when the host names no scheme, one trailing slash is dropped, and the
/// details endpoint is appended.
pub open spec fn lookup_url_spec(host: Seq<u8>) -> Seq<u8> {
    let base = if !starts_with(host, "http://".spec_bytes()) && !starts_with(
        host,
        "https://".spec_bytes(),
    ) {
        "http://".spec_bytes() + host
    } else {
        host
    };
    let stripped = if base.len() > 0 && base.last() == 47 {
        base.drop_last()
    } else {
        base
    };
    stripped + "/ark/client/details".spec_bytes()
}

/// Normalizes a user-entered host into the URL of its details endpoint.
pub fn build_lookup_url(host: &[u8]) -> (r: Vec<u8>)
    ensures
        r@ == lookup_url_spec(host@),
{
    let mut url: Vec<u8>;
    if !starts_with_bytes(host, "http://".as_bytes()) && !starts_with_bytes(
        host,
        "https://".as_bytes(),
    ) {
        url = slice_to_vec("http://".as_bytes());
        let mut i: usize = 0;
        while i < host.len()
            invariant
                i <= host@.len(),
                url@ == "http://".spec_bytes() + host@.take(i as int),
            decreases host@.len() - i,
        {
            let b = host[i];
            url.push(b);
            proof {
                assert("http://".spec_bytes() + host@.take(i + 1) =~= ("http://".spec_bytes()
                    + host@.take(i as int)).push(b));
            }
            i = i + 1;
        }
        proof {
            assert(host@.take(host@.len() as int) =~= host@);
        }
    } else {
        url = slice_to_vec(host);
    }
    if url.len() > 0 && url[url.len() - 1] == 47 {
        let _ = url.pop();
    }
    let ghost stripped = url@;
    let tail: &[u8] = "/ark/client/details".as_bytes();
    let mut k: usize = 0;
    while k < tail.len()
        invariant
            k <= tail@.len(),
            url@ == stripped + tail@.take(k as int),
        decreases tail@.len() - k,
    {
        let b = tail[k];
        url.push(b);
        proof {
            assert(stripped + tail@.take(k + 1) =~= (stripped + tail@.take(k as int)).push(b));
        }
        k = k + 1;
    }
    proof {
        assert(tail@.take(tail@.len() as int) =~= tail@);
        assert(url@ =~= lookup_url_spec(host@));
    }
    url
}

/// The error reported when a server answers an account request with a
/// failure: the reason the server gave.
pub struct HttpError {
    /// The server's stated reason.
    pub reason: String,
}

/// The body of a login or account-creation request.
pub struct AuthRequest {
    /// The account name.
    pub username: String,
    /// The account password.
    pub password: String,
}

/// The body of a successful login or account-creation answer.
pub struct AuthResponse {
    /// The bearer token the services attach to outbound requests.
    pub token: String,
}

} // verus!
