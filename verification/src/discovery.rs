//! The service-discovery ("redirector") response: a fixed XML document that
//! tells the game client where the local tunnel endpoint is, together with
//! the three protocol headers the client expects on it. The document must
//! be byte-exact for client compatibility, so its construction is specified
//! character by character.

use crate::numbers::{dec_digits, u16_to_decimal, u32_to_decimal};
use vstd::prelude::*;
use vstd::string::StringExecFns;

verus! {

/// The document up to and including the opening `<ip>` tag.
pub open spec fn discovery_prefix() -> Seq<char> {
    r#"<?xml version="1.0" encoding="UTF-8"?>
    <serverinstanceinfo>
        <address member="0">
            <valu>
                <hostname>localhost</hostname>
                <ip>"#@
}

/// The document between the `<ip>` and `<port>` values.
pub open spec fn discovery_middle() -> Seq<char> {
    r#"</ip>
                <port>"#@
}

/// The document after the `<port>` value.
pub open spec fn discovery_suffix() -> Seq<char> {
    r#"</port>
            </valu>
        </address>
        <secure>0</secure>
        <trialservicename></trialservicename>
        <defaultdnsaddress>0</defaultdnsaddress>
    </serverinstanceinfo>"#@
}

/// The whole discovery document for a given address (in big-endian 32-bit
/// integer form, the numeric encoding the game expects) and tunnel port,
/// both rendered in decimal.
pub open spec fn discovery_body_spec(ip_value: u32, port: u16) -> Seq<char> {
    discovery_prefix() + dec_digits(ip_value as nat) + discovery_middle() + dec_digits(
        port as nat,
    ) + discovery_suffix()
}

/// Builds the discovery document for the given address and tunnel port.
pub fn discovery_body(ip_value: u32, port: u16) -> (r: String)
    ensures
        r@ == discovery_body_spec(ip_value, port),
{
    let mut s = String::new();
    s.append(
        r#"<?xml version="1.0" encoding="UTF-8"?>
    <serverinstanceinfo>
        <address member="0">
            <valu>
                <hostname>localhost</hostname>
                <ip>"#,
    );
    let ip_dec = u32_to_decimal(ip_value);
    s.append(ip_dec.as_str());
    s.append(
        r#"</ip>
                <port>"#,
    );
    let port_dec = u16_to_decimal(port);
    s.append(port_dec.as_str());
    s.append(
        r#"</port>
            </valu>
        </address>
        <secure>0</secure>
        <trialservicename></trialservicename>
        <defaultdnsaddress>0</defaultdnsaddress>
    </serverinstanceinfo>"#,
    );
    proof {
        assert(s@ =~= discovery_body_spec(ip_value, port));
    }
    s
}

/// A complete discovery response: the three protocol headers that mark it
/// as a redirector "getServerInstance" answer, the content type, and the
/// XML document itself.
pub struct DiscoveryResponse {
    /// Value of the component header.
    pub component: String,
    /// Value of the command header.
    pub command: String,
    /// Value of the sequence-number header.
    pub seqno: String,
    /// Value of the Content-Type header.
    pub content_type: String,
    /// The XML document.
    pub body: String,
}

impl DiscoveryResponse {
    /// The exact wire contract of a discovery response directing the
    /// client to the local tunnel port: every field is pinned down.
    pub open spec fn wire_exact(self, tunnel_port: u16) -> bool {
        &&& self.component@ == "redirector"@
        &&& self.command@ == "getServerInstance"@
        &&& self.seqno@ == "0"@
        &&& self.content_type@ == "application/xml"@
        &&& self.body@ == discovery_body_spec(2130706433, tunnel_port)
    }
}

/// Name of the component header.
pub fn component_header_name() -> (r: &'static str)
    ensures
        r@ == "X-BLAZE-COMPONENT"@,
{
    "X-BLAZE-COMPONENT"
}

/// Name of the command header.
pub fn command_header_name() -> (r: &'static str)
    ensures
        r@ == "X-BLAZE-COMMAND"@,
{
    "X-BLAZE-COMMAND"
}

/// Name of the sequence-number header.
pub fn seqno_header_name() -> (r: &'static str)
    ensures
        r@ == "X-BLAZE-SEQNO"@,
{
    "X-BLAZE-SEQNO"
}

/// Builds the discovery response pointing the client at the local tunnel
/// port: the loopback address 127.0.0.1 in big-endian 32-bit integer form
/// (2130706433) and the given port, under the fixed redirector headers.
pub fn discovery_response(tunnel_port: u16) -> (r: DiscoveryResponse)
    ensures
        r.wire_exact(tunnel_port),
{
    let ip_value = crate::numbers::ipv4_to_u32(127, 0, 0, 1);
    proof {
        crate::numbers::lemma_loopback_u32();
    }
    let body = discovery_body(ip_value, tunnel_port);
    DiscoveryResponse {
        component: "redirector".to_owned(),
        command: "getServerInstance".to_owned(),
        seqno: "0".to_owned(),
        content_type: "application/xml".to_owned(),
        body,
    }
}

} // verus!
