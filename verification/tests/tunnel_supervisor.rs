//! The tunnel handshake plan, the shared connection state, and the
//! supervisor's generations.

use pocket_ark_client::context::{ConnectionContext, ContextState, LookupData};
use pocket_ark_client::supervisor::ServerSupervisor;
use pocket_ark_client::tunnel::{
    auth_header_name, host_header_name, plan_upgrade_request, port_header_name,
    scheme_header_name, upgrade_endpoint, upgrade_protocol,
};

fn target() -> Option<LookupData> {
    Some(LookupData {
        scheme: "http".to_string(),
        host: "relay.example.org".to_string(),
        version: "1.2.3".to_string(),
        port: 8080,
    })
}

#[test]
fn upgrade_needs_target_and_token() {
    assert!(plan_upgrade_request(&None, &None).is_none());
    assert!(plan_upgrade_request(&None, &Some("tok".to_string())).is_none());
    assert!(plan_upgrade_request(&target(), &None).is_none());
}

#[test]
fn upgrade_request_carries_remote_coordinates() {
    let u = plan_upgrade_request(&target(), &Some("secret".to_string())).unwrap();
    assert_eq!(u.url, "http://relay.example.org/ark/client/upgrade");
    assert_eq!(u.scheme, "http");
    assert_eq!(u.host, "relay.example.org");
    assert_eq!(u.port, 8080);
    assert_eq!(u.auth, "secret");
}

#[test]
fn tunnel_header_names_are_stable() {
    assert_eq!(upgrade_endpoint(), "/ark/client/upgrade");
    assert_eq!(upgrade_protocol(), "blaze");
    assert_eq!(scheme_header_name(), "X-Pocket-Ark-Scheme");
    assert_eq!(host_header_name(), "X-Pocket-Ark-Host");
    assert_eq!(port_header_name(), "X-Pocket-Ark-Port");
    assert_eq!(auth_header_name(), "X-Pocket-Ark-Auth");
}

#[test]
fn context_state_write_then_read() {
    // A read after a write observes exactly the written value.
    let mut s = ContextState::empty();
    assert!(s.get_target().is_none());
    assert!(s.get_token().is_none());
    s.set_target(target().unwrap());
    s.set_token("tok".to_string());
    let t = s.get_target().unwrap();
    assert_eq!(t.scheme, "http");
    assert_eq!(t.host, "relay.example.org");
    assert_eq!(t.version, "1.2.3");
    assert_eq!(t.port, 8080);
    assert_eq!(s.get_token(), Some("tok".to_string()));
    s.clear();
    assert!(s.get_target().is_none());
    assert!(s.get_token().is_none());
}

#[test]
fn shared_context_snapshot_is_consistent() {
    let ctx = ConnectionContext::new();
    let (t0, k0) = ctx.snapshot();
    assert!(t0.is_none());
    assert!(k0.is_none());
    ctx.write_target(target().unwrap());
    ctx.write_token("tok".to_string());
    let (t, k) = ctx.snapshot();
    let t = t.unwrap();
    assert_eq!(t.host, "relay.example.org");
    assert_eq!(k, Some("tok".to_string()));
    ctx.clear();
    assert!(ctx.read_target().is_none());
    assert!(ctx.read_token().is_none());
}

#[test]
fn shared_context_snapshots_across_many_writes() {
    // Snapshots interleaved with writes always observe a complete pair:
    // the target and token written together, or neither.
    let ctx = std::sync::Arc::new(ConnectionContext::new());
    for _ in 0..50 {
        ctx.write_target(target().unwrap());
        ctx.write_token("tok".to_string());
        let (t, k) = ctx.snapshot();
        assert_eq!(t.unwrap().host, "relay.example.org");
        assert_eq!(k, Some("tok".to_string()));
        ctx.clear();
        let (t, k) = ctx.snapshot();
        assert!(t.is_none());
        assert!(k.is_none());
    }
}

#[test]
fn supervisor_restart_keeps_single_generation() {
    // Two starts in a row leave exactly one generation live: the second.
    let ctx = ConnectionContext::new();
    let mut sup = ServerSupervisor::new();
    assert_eq!(sup.running, None);
    let g1 = sup.start_all(&ctx, target().unwrap(), Some("tok".to_string()));
    assert_eq!(sup.running, Some(g1));
    let g2 = sup.start_all(&ctx, target().unwrap(), Some("tok".to_string()));
    assert_ne!(g1, g2);
    assert_eq!(sup.running, Some(g2));
    assert_eq!(sup.started, 2);
}

#[test]
fn supervisor_start_writes_context_and_stop_clears_it() {
    let ctx = ConnectionContext::new();
    let mut sup = ServerSupervisor::new();
    sup.start_all(&ctx, target().unwrap(), Some("tok".to_string()));
    assert_eq!(ctx.read_target().unwrap().port, 8080);
    assert_eq!(ctx.read_token(), Some("tok".to_string()));
    sup.stop_all(&ctx);
    assert_eq!(sup.running, None);
    assert!(ctx.read_target().is_none());
    assert!(ctx.read_token().is_none());
}

#[test]
fn supervisor_start_without_token() {
    let ctx = ConnectionContext::new();
    let mut sup = ServerSupervisor::new();
    sup.start_all(&ctx, target().unwrap(), None);
    assert!(ctx.read_target().is_some());
    assert!(ctx.read_token().is_none());
}
