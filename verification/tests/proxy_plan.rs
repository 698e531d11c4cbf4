//! The proxy's request planning: the not-ready answer, the discovery
//! probe, and the reconstruction of forwarded requests.

use pocket_ark_client::context::{create_target_url, LookupData};
use pocket_ark_client::proxy::{
    filter_upstream_response, not_ready_response, plan_proxy_request, Method, ProxyPlan,
};
use pocket_ark_client::MAIN_PORT;

fn target() -> Option<LookupData> {
    Some(LookupData {
        scheme: "https".to_string(),
        host: "play.example.net".to_string(),
        version: "1.0.0".to_string(),
        port: 443,
    })
}

#[test]
fn target_url_concatenates_scheme_host_path() {
    let t = target().unwrap();
    assert_eq!(
        create_target_url(&t, "/ark/client/login"),
        "https://play.example.net/ark/client/login"
    );
    assert_eq!(create_target_url(&t, ""), "https://play.example.net");
}

#[test]
fn get_without_target_is_not_ready() {
    // A request while no target is set answers 503 with an empty body.
    let plan = plan_proxy_request(&None, &None, Method::Get, "/anything", &None, &None, &None);
    assert!(matches!(plan, ProxyPlan::NotReady));
    let resp = not_ready_response();
    assert_eq!(resp.status, 503);
    assert_eq!(resp.content_type, None);
}

#[test]
fn post_forwards_body_headers_verbatim() {
    // A POST with Content-Length: 10 and Content-Type: application/json
    // forwards both unmodified and streams the body through.
    let plan = plan_proxy_request(
        &target(),
        &Some("tok".to_string()),
        Method::Post,
        "/game/save",
        &Some("10".to_string()),
        &Some("application/json".to_string()),
        &None,
    );
    match plan {
        ProxyPlan::Forward(f) => {
            assert_eq!(f.url, "https://play.example.net/game/save");
            assert!(matches!(f.method, Method::Post));
            assert_eq!(f.token, Some("tok".to_string()));
            assert_eq!(f.content_length, Some("10".to_string()));
            assert_eq!(f.content_type, Some("application/json".to_string()));
            assert_eq!(f.content_encoding, None);
            assert!(f.forward_body);
        }
        _ => panic!("expected a forwarded request"),
    }
}

#[test]
fn get_forwards_no_body_and_no_body_headers() {
    let plan = plan_proxy_request(
        &target(),
        &None,
        Method::Get,
        "/menu?lang=en",
        &Some("10".to_string()),
        &Some("application/json".to_string()),
        &Some("gzip".to_string()),
    );
    match plan {
        ProxyPlan::Forward(f) => {
            assert_eq!(f.url, "https://play.example.net/menu?lang=en");
            assert_eq!(f.token, None);
            assert_eq!(f.content_length, None);
            assert_eq!(f.content_type, None);
            assert_eq!(f.content_encoding, None);
            assert!(!f.forward_body);
        }
        _ => panic!("expected a forwarded request"),
    }
}

#[test]
fn delete_and_put_and_patch_bear_bodies() {
    for m in [Method::Delete, Method::Put, Method::Patch] {
        let plan = plan_proxy_request(
            &target(),
            &None,
            m,
            "/x",
            &Some("3".to_string()),
            &None,
            &None,
        );
        match plan {
            ProxyPlan::Forward(f) => {
                assert!(f.forward_body);
                assert_eq!(f.content_length, Some("3".to_string()));
            }
            _ => panic!("expected a forwarded request"),
        }
    }
}

#[test]
fn discovery_probe_is_answered_locally() {
    // Even with no target set, the discovery endpoint is answered locally,
    // exactly as the redirector answers it.
    let plan = plan_proxy_request(
        &None,
        &None,
        Method::Get,
        "/redirector/getServerInstance",
        &None,
        &None,
        &None,
    );
    match plan {
        ProxyPlan::Discovery(d) => {
            assert_eq!(d.component, "redirector");
            assert!(d.body.contains(&format!("<port>{}</port>", MAIN_PORT)));
        }
        _ => panic!("expected a local discovery answer"),
    }
}

#[test]
fn upstream_response_keeps_only_status_and_content_type() {
    let r = filter_upstream_response(204, Some("text/xml".to_string()));
    assert_eq!(r.status, 204);
    assert_eq!(r.content_type, Some("text/xml".to_string()));
    let r = filter_upstream_response(500, None);
    assert_eq!(r.status, 500);
    assert_eq!(r.content_type, None);
}
