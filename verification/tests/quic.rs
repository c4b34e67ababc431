use anycall::quic::{forget_connection, reuse_connection, ALPN};

#[test]
fn alpn_names_the_protocol() {
    assert_eq!(&ALPN[..], b"anycall/iroh/1");
}

#[test]
fn cached_connection_is_reused_only_when_everything_matches() {
    let id = [7u8; 32];
    let other = [8u8; 32];
    assert!(reuse_connection(&id, b"anycall/iroh/1", true, &id, b"anycall/iroh/1"));
    assert!(!reuse_connection(&id, b"anycall/iroh/1", false, &id, b"anycall/iroh/1"));
    assert!(!reuse_connection(&id, b"anycall/iroh/1", true, &other, b"anycall/iroh/1"));
    assert!(!reuse_connection(&id, b"anycall/iroh/1", true, &id, b"anycall/iroh/2"));
    assert!(!reuse_connection(&id, b"anycall", true, &id, b"anycall/iroh/1"));
}

#[test]
fn failed_call_on_closed_connection_forgets_it() {
    assert!(forget_connection(true, true));
    assert!(!forget_connection(true, false));
    assert!(!forget_connection(false, true));
    assert!(!forget_connection(false, false));
}
