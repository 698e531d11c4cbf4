//! The request-planning logic of the HTTP reverse proxy. For each incoming
//! request the proxy answers the discovery probe locally, refuses service
//! while no target is set, and otherwise reconstructs the request against
//! the remote target: same method and path+query, the auth token attached
//! when present, and — for body-bearing methods only — the three
//! descriptive body headers forwarded verbatim along with the body itself.
//! Of the upstream response only the status, the content type and the body
//! are forwarded; every other upstream header is deliberately dropped.

use crate::context::{create_target_url, target_url_spec, LookupData};
use crate::discovery::{discovery_response, DiscoveryResponse};
use crate::text::bytes_eq;
use crate::MAIN_PORT;
use vstd::prelude::*;
use vstd::string::StringSliceAdditionalSpecFns;

verus! {

/// The HTTP methods the proxy distinguishes. Body-bearing methods carry
/// their body and its descriptive headers to the target; the rest do not.
#[derive(Clone, Copy, PartialEq, Eq, Structural, Debug)]
pub enum Method {
    Get,
    Head,
    Options,
    Post,
    Put,
    Patch,
    Delete,
    Other,
}

/// The methods whose body is streamed through to the target.
pub open spec fn body_bearing(m: Method) -> bool {
    m == Method::Post || m == Method::Put || m == Method::Patch || m == Method::Delete
}

fn is_body_bearing(m: Method) -> (r: bool)
    ensures
        r == body_bearing(m),
{
    m == Method::Post || m == Method::Put || m == Method::Patch || m == Method::Delete
}

/// The path some game builds probe for discovery over the proxy port
/// instead of the dedicated redirector port.
pub open spec fn discovery_path_bytes() -> Seq<u8> {
    "/redirector/getServerInstance".spec_bytes()
}

/// A request path (in byte form) is the discovery probe.
pub open spec fn is_discovery_probe(path_bytes: Seq<u8>) -> bool {
    path_bytes == discovery_path_bytes()
}

/// The outbound request the proxy sends to the remote target in place of
/// the received one.
pub struct ForwardRequest {
    /// The original request method.
    pub method: Method,
    /// The target URL: the target's scheme and host with the original
    /// path+query.
    pub url: String,
    /// The auth token to attach under the auth header, when one is set.
    pub token: Option<String>,
    /// The Content-Length value forwarded verbatim, body-bearing methods
    /// only.
    pub content_length: Option<String>,
    /// The Content-Type value forwarded verbatim, body-bearing methods
    /// only.
    pub content_type: Option<String>,
    /// The Content-Encoding value forwarded verbatim, body-bearing
    /// methods only.
    pub content_encoding: Option<String>,
    /// Whether the original body is streamed through unmodified.
    pub forward_body: bool,
}

/// What the proxy decides to do with one incoming request.
pub enum ProxyPlan {
    /// No target is set: answer 503 Service Unavailable with an empty
    /// body.
    NotReady,
    /// The request probes the discovery endpoint: answer it locally,
    /// exactly as the redirector service does.
    Discovery(DiscoveryResponse),
    /// Forward the reconstructed request to the remote target.
    Forward(ForwardRequest),
}

fn duplicate_opt_string(s: &Option<String>) -> (r: Option<String>)
    ensures
        r == *s,
{
    match s {
        Some(v) => Some(v.clone()),
        None => None,
    }
}

/// Decides how to handle one request: `target` and `token` are the
/// snapshot of the shared connection state, `method` and `path` the
/// request line (path with query), and the three header arguments the
/// request's body-descriptive headers, absent when the request lacks them.
pub fn plan_proxy_request(
    target: &Option<LookupData>,
    token: &Option<String>,
    method: Method,
    path: &str,
    content_length: &Option<String>,
    content_type: &Option<String>,
    content_encoding: &Option<String>,
) -> (r: ProxyPlan)
    ensures
        match r {
            ProxyPlan::Discovery(d) => is_discovery_probe(path.spec_bytes()) && d.wire_exact(
                MAIN_PORT,
            ),
            ProxyPlan::NotReady => !is_discovery_probe(path.spec_bytes()) && target
                == None::<LookupData>,
            ProxyPlan::Forward(f) => {
                &&& !is_discovery_probe(path.spec_bytes())
                &&& target matches Some(t) && f.url@ == target_url_spec(*t, path@)
                &&& f.method == method
                &&& f.token == *token
                &&& f.forward_body == body_bearing(method)
                &&& f.content_length == if body_bearing(method) {
                    *content_length
                } else {
                    None::<String>
                }
                &&& f.content_type == if body_bearing(method) {
                    *content_type
                } else {
                    None::<String>
                }
                &&& f.content_encoding == if body_bearing(method) {
                    *content_encoding
                } else {
                    None::<String>
                }
            },
        },
{
    if bytes_eq(path.as_bytes(), "/redirector/getServerInstance".as_bytes()) {
        return ProxyPlan::Discovery(discovery_response(MAIN_PORT));
    }
    let t = match target {
        Some(t) => t,
        None => {
            return ProxyPlan::NotReady;
        },
    };
    let url = create_target_url(t, path);
    let with_body = is_body_bearing(method);
    ProxyPlan::Forward(
        ForwardRequest {
            method,
            url,
            token: duplicate_opt_string(token),
            content_length: if with_body {
                duplicate_opt_string(content_length)
            } else {
                None
            },
            content_type: if with_body {
                duplicate_opt_string(content_type)
            } else {
                None
            },
            content_encoding: if with_body {
                duplicate_opt_string(content_encoding)
            } else {
                None
            },
            forward_body: with_body,
        },
    )
}

/// The response handed back to the game client.
pub struct ProxyResponse {
    /// The HTTP status code.
    pub status: u16,
    /// The Content-Type value, when one is carried.
    pub content_type: Option<String>,
}

/// The local answer for a request that arrives while no target is set:
/// 503 Service Unavailable, no content type, empty body.
pub fn not_ready_response() -> (r: ProxyResponse)
    ensures
        r.status == 503,
        r.content_type == None::<String>,
{
    ProxyResponse { status: 503, content_type: None }
}

/// Builds the response forwarded to the game client from an upstream
/// answer: the upstream status and its content type carry over, and every
/// other upstream header is dropped — the proxy is a protocol bridge, not
/// a transparent reverse proxy. The body is streamed through unmodified
/// beside this.
pub fn filter_upstream_response(status: u16, content_type: Option<String>) -> (r: ProxyResponse)
    ensures
        r.status == status,
        r.content_type == content_type,
{
    ProxyResponse { status, content_type }
}

} // verus!
