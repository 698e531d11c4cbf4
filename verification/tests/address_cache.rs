//! The public-address cache and the parsing of IP-echo answers.

use pocket_ark_client::cache::{parse_ipv4_bytes, parse_public_ip, AddressCache, ADDR_CACHE_SECS};

#[test]
fn parses_plain_dotted_quad() {
    assert_eq!(parse_ipv4_bytes(b"1.2.3.4"), Some([1, 2, 3, 4]));
    assert_eq!(parse_ipv4_bytes(b"0.0.0.0"), Some([0, 0, 0, 0]));
    assert_eq!(parse_ipv4_bytes(b"255.255.255.255"), Some([255, 255, 255, 255]));
}

#[test]
fn rejects_malformed_quads() {
    assert_eq!(parse_ipv4_bytes(b""), None);
    assert_eq!(parse_ipv4_bytes(b"1.2.3"), None);
    assert_eq!(parse_ipv4_bytes(b"1.2.3.4.5"), None);
    assert_eq!(parse_ipv4_bytes(b"256.1.1.1"), None);
    assert_eq!(parse_ipv4_bytes(b"01.2.3.4"), None);
    assert_eq!(parse_ipv4_bytes(b"a.b.c.d"), None);
    assert_eq!(parse_ipv4_bytes(b"1..2.3"), None);
    assert_eq!(parse_ipv4_bytes(b"1.2.3."), None);
    assert_eq!(parse_ipv4_bytes(b" 1.2.3.4"), None);
}

#[test]
fn cleans_echo_answers_before_parsing() {
    assert_eq!(parse_public_ip(b"  93.184.216.34\n"), Some([93, 184, 216, 34]));
    assert_eq!(parse_public_ip(b"93.184.216.34\r\n"), Some([93, 184, 216, 34]));
    assert_eq!(parse_public_ip(b"\t10.0.0.1"), Some([10, 0, 0, 1]));
    assert_eq!(parse_public_ip(b"<html>nope</html>"), None);
    assert_eq!(parse_public_ip(b""), None);
}

#[test]
fn cached_value_reused_within_window() {
    // A second call within 30 minutes of a successful resolution sees the
    // identical cached value, so no new external request is issued.
    let mut cache = AddressCache::new();
    assert_eq!(cache.cached(100), None);
    let got = cache.refresh(100, Some([9, 9, 9, 9]), None, [1, 1, 1, 1]);
    assert_eq!(got, [9, 9, 9, 9]);
    assert_eq!(cache.cached(100 + ADDR_CACHE_SECS - 1), Some([9, 9, 9, 9]));
    // A refresh within the window ignores every lookup outcome.
    let again = cache.refresh(200, Some([8, 8, 8, 8]), Some([7, 7, 7, 7]), [1, 1, 1, 1]);
    assert_eq!(again, [9, 9, 9, 9]);
    assert_eq!(cache.cached(300), Some([9, 9, 9, 9]));
}

#[test]
fn cached_value_expires_exactly_on_time() {
    let mut cache = AddressCache::new();
    cache.store([4, 3, 2, 1], 1000);
    assert_eq!(cache.cached(1000 + ADDR_CACHE_SECS - 1), Some([4, 3, 2, 1]));
    assert_eq!(cache.cached(1000 + ADDR_CACHE_SECS), None);
}

#[test]
fn refresh_prefers_external_then_local_then_fallback() {
    let mut cache = AddressCache::new();
    let got = cache.refresh(0, Some([2, 2, 2, 2]), Some([3, 3, 3, 3]), [4, 4, 4, 4]);
    assert_eq!(got, [2, 2, 2, 2]);

    let mut cache = AddressCache::new();
    let got = cache.refresh(0, None, Some([3, 3, 3, 3]), [4, 4, 4, 4]);
    assert_eq!(got, [3, 3, 3, 3]);
    // The local address is cached like an external one.
    assert_eq!(cache.cached(1), Some([3, 3, 3, 3]));

    let mut cache = AddressCache::new();
    let got = cache.refresh(0, None, None, [4, 4, 4, 4]);
    assert_eq!(got, [4, 4, 4, 4]);
    // Total failure answers the fallback without poisoning the cache.
    assert_eq!(cache.cached(1), None);
}
