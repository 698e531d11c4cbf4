//! The session-tunnel handshake plan. For each accepted game connection
//! the tunnel server snapshots the shared state and, when both a target
//! and a token are present, prepares the HTTP Upgrade request that turns
//! an outbound connection to the remote target into a raw byte tunnel:
//! the fixed upgrade endpoint, `Connection: Upgrade`, the protocol name,
//! and the custom headers carrying the remote target's scheme, host and
//! port plus the auth token. When either value is missing the connection
//! is closed without a handshake. The relaying itself — copying bytes both
//! ways until either side closes — is raw I/O and stays outside.

use crate::context::{create_target_url, target_url_spec, LookupData};
use vstd::prelude::*;

verus! {

/// The upgrade endpoint on the remote target.
pub fn upgrade_endpoint() -> (r: &'static str)
    ensures
        r@ == "/ark/client/upgrade"@,
{
    "/ark/client/upgrade"
}

/// The protocol name announced in the Upgrade header.
pub fn upgrade_protocol() -> (r: &'static str)
    ensures
        r@ == "blaze"@,
{
    "blaze"
}

/// The value of the Connection header on the handshake.
pub fn connection_upgrade_value() -> (r: &'static str)
    ensures
        r@ == "Upgrade"@,
{
    "Upgrade"
}

/// Name of the header carrying the remote target's scheme.
pub fn scheme_header_name() -> (r: &'static str)
    ensures
        r@ == "X-Pocket-Ark-Scheme"@,
{
    "X-Pocket-Ark-Scheme"
}

/// Name of the header carrying the remote target's host.
pub fn host_header_name() -> (r: &'static str)
    ensures
        r@ == "X-Pocket-Ark-Host"@,
{
    "X-Pocket-Ark-Host"
}

/// Name of the header carrying the remote target's port.
pub fn port_header_name() -> (r: &'static str)
    ensures
        r@ == "X-Pocket-Ark-Port"@,
{
    "X-Pocket-Ark-Port"
}

/// Name of the header carrying the auth token, on the tunnel handshake
/// and on proxied requests alike.
pub fn auth_header_name() -> (r: &'static str)
    ensures
        r@ == "X-Pocket-Ark-Auth"@,
{
    "X-Pocket-Ark-Auth"
}

/// The prepared upgrade handshake: the URL to request and the values of
/// the custom headers. The relay server reads the scheme, host and port
/// headers to decide where to route, so they carry the *remote* target's
/// coordinates, not the local ones.
pub struct UpgradeRequest {
    /// The URL of the upgrade endpoint on the remote target.
    pub url: String,
    /// Value of the scheme header: the target's scheme.
    pub scheme: String,
    /// Value of the host header: the target's host.
    pub host: String,
    /// Value of the port header: the target's port.
    pub port: u16,
    /// Value of the auth header: the bearer token.
    pub auth: String,
}

/// Prepares the upgrade handshake from a snapshot of the shared state.
/// Answers exactly when both a target and a token are set; a missing
/// target means the service is not ready, a missing token that the
/// handshake could not be authenticated — either way the local connection
/// is to be closed without a handshake.
pub fn plan_upgrade_request(target: &Option<LookupData>, token: &Option<String>) -> (r: Option<
    UpgradeRequest,
>)
    ensures
        match r {
            Some(u) => {
                &&& target matches Some(t) && {
                    &&& u.url@ == target_url_spec(*t, "/ark/client/upgrade"@)
                    &&& u.scheme@ == t.scheme@
                    &&& u.host@ == t.host@
                    &&& u.port == t.port
                }
                &&& token matches Some(k) && u.auth@ == k@
            },
            None => target == None::<LookupData> || token == None::<String>,
        },
{
    let t = match target {
        Some(t) => t,
        None => {
            return None;
        },
    };
    let k = match token {
        Some(k) => k,
        None => {
            return None;
        },
    };
    let url = create_target_url(t, upgrade_endpoint());
    Some(
        UpgradeRequest {
            url,
            scheme: t.scheme.clone(),
            host: t.host.clone(),
            port: t.port,
            auth: k.clone(),
        },
    )
}

} // verus!
