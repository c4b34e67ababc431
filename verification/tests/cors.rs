use anycall::cors::apply_cors;

#[test]
fn cors_headers_are_set() {
    let mut headers = http::HeaderMap::new();
    headers.append("access-control-allow-origin", "https://a.example".parse().unwrap());
    headers.append("access-control-allow-origin", "https://b.example".parse().unwrap());
    headers.insert("content-type", "application/cbor".parse().unwrap());
    apply_cors(&mut headers);
    let origins: Vec<_> = headers.get_all("access-control-allow-origin").iter().collect();
    assert_eq!(origins, vec!["*"]);
    assert_eq!(headers["access-control-allow-methods"], "GET, POST, OPTIONS");
    assert_eq!(headers["access-control-allow-headers"], "*");
    assert_eq!(headers["access-control-allow-private-network"], "true");
    assert_eq!(headers["content-type"], "application/cbor");
    assert_eq!(headers.len(), 5);
}

#[test]
fn cors_twice_is_cors_once() {
    let mut headers = http::HeaderMap::new();
    headers.insert("x-kept", "1".parse().unwrap());
    assert!(anycall::cors::try_apply_cors(&mut headers));
    let once = headers.clone();
    assert!(anycall::cors::try_apply_cors(&mut headers));
    assert_eq!(headers, once);
    assert_eq!(headers["x-kept"], "1");
}

#[test]
fn cors_on_a_crowded_map_is_refused_and_leaves_it_alone() {
    let mut headers = http::HeaderMap::new();
    for i in 0..6552 {
        let name = http::HeaderName::from_bytes(format!("x-h{i}").as_bytes()).unwrap();
        headers.insert(name, "v".parse().unwrap());
    }
    let before = headers.clone();
    assert!(!anycall::cors::try_apply_cors(&mut headers));
    assert_eq!(headers, before);
    headers.insert("access-control-allow-origin", "x".parse().unwrap());
    headers.insert("access-control-allow-methods", "x".parse().unwrap());
    assert_eq!(headers.keys_len(), 6554);
    let mut smaller = http::HeaderMap::new();
    for i in 0..6550 {
        let name = http::HeaderName::from_bytes(format!("x-h{i}").as_bytes()).unwrap();
        smaller.insert(name, "v".parse().unwrap());
    }
    assert!(anycall::cors::try_apply_cors(&mut smaller));
    assert_eq!(smaller.keys_len(), 6554);
}
