//! The cross-origin headers a browser-facing test server adds to its replies.

use vstd::prelude::*;

verus! {

/// What a header map holds: for each header name, its values in order.
pub uninterp spec fn header_entries(h: http::HeaderMap) -> Map<Seq<char>, Seq<Seq<u8>>>;

/// The longest header name `HeaderName::from_static` accepts.
pub const MAX_HEADER_NAME_LEN: usize = 65535;

/// The number of distinct names below which `HeaderMap::insert` can always
/// make room: the map's index table stops growing at 32768 slots, a table in
/// danger of collisions grows once five times its names reach its size, and
/// a full table grows at three quarters; with at most 6553 names neither
/// asks for a table past the limit. `insert` makes room first, even for a
/// name already present.
pub const HEADER_NAMES_ROOM: usize = 6554;

/// Header names of lowercase ASCII letters, digits and `-`, not empty and at
/// most `MAX_HEADER_NAME_LEN` long. `HeaderName::from_static` accepts these
/// and more: the other token characters of the HTTP/2 header-name set.
pub open spec fn is_static_header_name(name: Seq<char>) -> bool {
    &&& name.len() > 0
    &&& name.len() <= MAX_HEADER_NAME_LEN
    &&& forall|i: int|
        0 <= i < name.len() ==> ('a' <= #[trigger] name[i] <= 'z' || '0' <= name[i] <= '9' || name[i] == '-')
}

/// The map can take another name without reaching the size `HeaderMap`
/// refuses.
pub open spec fn has_room_for_name(entries: Map<Seq<char>, Seq<Seq<u8>>>) -> bool {
    entries.dom().finite() && entries.dom().len() < HEADER_NAMES_ROOM
}

/// A header value that `HeaderValue::from_static` accepts: visible ASCII.
pub open spec fn is_static_header_value(value: Seq<char>) -> bool {
    forall|i: int| 0 <= i < value.len() ==> (' ' <= #[trigger] value[i] <= '~')
}

/// The bytes of an ASCII text.
pub open spec fn ascii_bytes(text: Seq<char>) -> Seq<u8> {
    text.map_values(|c: char| c as u8)
}

/// Calls `HeaderMap::insert` with the name and value made by
/// `HeaderName::from_static` and `HeaderValue::from_static`. As the http
/// documentation says, the name then holds this one value and no other;
/// the other names keep theirs. `insert` panics when the map would have to
/// grow past its largest size, and `from_static` on a name that is empty,
/// too long or holds a character outside the header-name set, or on a value
/// that is not visible ASCII: the `requires` leaves all of these out.
#[verifier::external_body]
fn insert_static_header(headers: &mut http::HeaderMap, name: &'static str, value: &'static str)
    requires
        is_static_header_name(name@),
        is_static_header_value(value@),
        has_room_for_name(header_entries(*old(headers))),
    ensures
        header_entries(*final(headers)) == header_entries(*old(headers)).insert(
            name@,
            seq![ascii_bytes(value@)],
        ),
{
    headers.insert(http::HeaderName::from_static(name), http::HeaderValue::from_static(value));
}

/// The map holds finitely many names, `n` of them.
pub open spec fn holds_names(entries: Map<Seq<char>, Seq<Seq<u8>>>, n: nat) -> bool {
    entries.dom().finite() && entries.dom().len() == n
}

/// Calls `HeaderMap::keys_len`: the number of distinct names in the map.
#[verifier::external_body]
fn header_names_count(headers: &http::HeaderMap) -> (n: usize)
    ensures
        holds_names(header_entries(*headers), n as nat),
{
    headers.keys_len()
}

/// Calls `HeaderMap::contains_key`: whether the map holds the name.
#[verifier::external_body]
fn has_header(headers: &http::HeaderMap, name: &'static str) -> (present: bool)
    requires
        is_static_header_name(name@),
    ensures
        present == header_entries(*headers).dom().contains(name@),
{
    headers.contains_key(name)
}

/// The four cross-origin header names, in the order they are set.
pub open spec fn cors_names() -> Seq<Seq<char>> {
    seq![
        "access-control-allow-origin"@,
        "access-control-allow-methods"@,
        "access-control-allow-headers"@,
        "access-control-allow-private-network"@,
    ]
}

/// The headers after the first `k` cross-origin headers are set.
pub open spec fn with_cors_upto(entries: Map<Seq<char>, Seq<Seq<u8>>>, k: int) -> Map<Seq<char>, Seq<Seq<u8>>> {
    let e1 = entries.insert("access-control-allow-origin"@, seq![ascii_bytes("*"@)]);
    let e2 = e1.insert("access-control-allow-methods"@, seq![ascii_bytes("GET, POST, OPTIONS"@)]);
    let e3 = e2.insert("access-control-allow-headers"@, seq![ascii_bytes("*"@)]);
    let e4 = e3.insert("access-control-allow-private-network"@, seq![ascii_bytes("true"@)]);
    if k <= 0 {
        entries
    } else if k == 1 {
        e1
    } else if k == 2 {
        e2
    } else if k == 3 {
        e3
    } else {
        e4
    }
}

/// The headers after `apply_cors`: any origin, the methods GET, POST and
/// OPTIONS, any header, and access from private networks.
pub open spec fn with_cors(entries: Map<Seq<char>, Seq<Seq<u8>>>) -> Map<Seq<char>, Seq<Seq<u8>>> {
    with_cors_upto(entries, 4)
}

/// Each of the four insertions of `apply_cors` finds room in the map.
pub open spec fn cors_fits(entries: Map<Seq<char>, Seq<Seq<u8>>>) -> bool {
    &&& has_room_for_name(with_cors_upto(entries, 0))
    &&& has_room_for_name(with_cors_upto(entries, 1))
    &&& has_room_for_name(with_cors_upto(entries, 2))
    &&& has_room_for_name(with_cors_upto(entries, 3))
}

/// Adds the cross-origin headers to a reply's headers, replacing any values
/// they had. Each insertion must find room in the map; names already
/// present take no new room.
pub fn apply_cors(headers: &mut http::HeaderMap)
    requires
        cors_fits(header_entries(*old(headers))),
    ensures
        header_entries(*final(headers)) == with_cors(header_entries(*old(headers))),
{
    proof {
        reveal_strlit("access-control-allow-origin");
        reveal_strlit("access-control-allow-methods");
        reveal_strlit("access-control-allow-headers");
        reveal_strlit("access-control-allow-private-network");
        reveal_strlit("*");
        reveal_strlit("GET, POST, OPTIONS");
        reveal_strlit("true");
    }
    insert_static_header(headers, "access-control-allow-origin", "*");
    insert_static_header(headers, "access-control-allow-methods", "GET, POST, OPTIONS");
    insert_static_header(headers, "access-control-allow-headers", "*");
    insert_static_header(headers, "access-control-allow-private-network", "true");
}

/// Adds the cross-origin headers when the map has room for them, as
/// `apply_cors` does; otherwise leaves the map as it was. Returns whether it
/// added them.
pub fn try_apply_cors(headers: &mut http::HeaderMap) -> (applied: bool)
    ensures
        applied == cors_fits(header_entries(*old(headers))),
        applied ==> header_entries(*final(headers)) == with_cors(header_entries(*old(headers))),
        !applied ==> *final(headers) == *old(headers),
{
    proof {
        reveal_strlit("access-control-allow-origin");
        reveal_strlit("access-control-allow-methods");
        reveal_strlit("access-control-allow-headers");
        reveal_strlit("access-control-allow-private-network");
        reveal_strlit("*");
        reveal_strlit("GET, POST, OPTIONS");
        reveal_strlit("true");
    }
    let ghost e = header_entries(*headers);
    let n: usize = header_names_count(headers);
    if n >= HEADER_NAMES_ROOM {
        return false;
    }
    let origin_present = has_header(headers, "access-control-allow-origin");
    let methods_present = has_header(headers, "access-control-allow-methods");
    let headers_present = has_header(headers, "access-control-allow-headers");
    let n1: usize = if origin_present { n } else { n + 1 };
    let n2: usize = if methods_present { n1 } else { n1 + 1 };
    let n3: usize = if headers_present { n2 } else { n2 + 1 };
    proof {
        let e1 = with_cors_upto(e, 1);
        let e2 = with_cors_upto(e, 2);
        let e3 = with_cors_upto(e, 3);
        assert(e1.dom() == e.dom().insert("access-control-allow-origin"@));
        assert(e1.dom().len() == n1);
        assert(e2.dom() == e1.dom().insert("access-control-allow-methods"@));
        assert(e1.dom().contains("access-control-allow-methods"@) == methods_present);
        assert(e2.dom().len() == n2);
        assert(e3.dom() == e2.dom().insert("access-control-allow-headers"@));
        assert("access-control-allow-headers"@[21] != "access-control-allow-methods"@[21]);
        assert("access-control-allow-headers"@ != "access-control-allow-origin"@);
        assert(e2.dom().contains("access-control-allow-headers"@) == headers_present);
        assert(e3.dom().len() == n3);
    }
    if n3 >= HEADER_NAMES_ROOM {
        return false;
    }
    apply_cors(headers);
    true
}

/// Setting the cross-origin headers twice is setting them once, and every
/// other name keeps exactly its values.
pub proof fn lemma_cors_idempotent(entries: Map<Seq<char>, Seq<Seq<u8>>>)
    ensures
        with_cors(with_cors(entries)) == with_cors(entries),
        forall|k: Seq<char>| !cors_names().contains(k) ==> {
            &&& (with_cors(entries).dom().contains(k) <==> entries.dom().contains(k))
            &&& entries.dom().contains(k) ==> #[trigger] with_cors(entries)[k] == entries[k]
        },
{
    reveal_strlit("access-control-allow-origin");
    reveal_strlit("access-control-allow-methods");
    reveal_strlit("access-control-allow-headers");
    reveal_strlit("access-control-allow-private-network");
    let w = with_cors(entries);
    assert(with_cors(w) =~= w);
    assert forall|k: Seq<char>| !cors_names().contains(k) implies {
        &&& (with_cors(entries).dom().contains(k) <==> entries.dom().contains(k))
        &&& entries.dom().contains(k) ==> #[trigger] with_cors(entries)[k] == entries[k]
    } by {
        assert(k != cors_names()[0]);
        assert(k != cors_names()[1]);
        assert(k != cors_names()[2]);
        assert(k != cors_names()[3]);
    }
}

} // verus!
