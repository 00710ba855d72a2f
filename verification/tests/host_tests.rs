use shenyu_client_rust::host::HostCandidate;
use shenyu_client_rust::host::Ipv4Octets;
use shenyu_client_rust::host::ipv4_text;
use shenyu_client_rust::host::select_host;
use shenyu_client_rust::model::EventType;

#[test]
fn the_first_qualifying_candidate_wins() {
    let candidates = vec![
        HostCandidate::V4 { a: 127, b: 0, c: 0, d: 1 },
        HostCandidate::V6Other,
        HostCandidate::V4 { a: 10, b: 1, c: 2, d: 3 },
        HostCandidate::V4 { a: 192, b: 168, c: 0, d: 9 },
    ];
    assert_eq!(select_host(&candidates), Some(Ipv4Octets { a: 10, b: 1, c: 2, d: 3 }));
}

#[test]
fn a_mapped_ipv6_address_counts_as_its_ipv4() {
    let candidates = vec![HostCandidate::V6MappedV4 { a: 172, b: 16, c: 5, d: 5 }];
    assert_eq!(select_host(&candidates), Some(Ipv4Octets { a: 172, b: 16, c: 5, d: 5 }));
}

#[test]
fn loopback_and_plain_ipv6_never_qualify() {
    let candidates = vec![
        HostCandidate::V4 { a: 127, b: 0, c: 0, d: 1 },
        HostCandidate::V6MappedV4 { a: 127, b: 1, c: 1, d: 1 },
        HostCandidate::V6Other,
    ];
    assert_eq!(select_host(&candidates), None);
    let no_candidates: Vec<HostCandidate> = Vec::new();
    assert_eq!(select_host(&no_candidates), None);
}

#[test]
fn dotted_decimal_notation_is_exact() {
    assert_eq!(ipv4_text(&Ipv4Octets { a: 192, b: 168, c: 0, d: 7 }), "192.168.0.7");
    assert_eq!(ipv4_text(&Ipv4Octets { a: 0, b: 9, c: 10, d: 99 }), "0.9.10.99");
    assert_eq!(ipv4_text(&Ipv4Octets { a: 255, b: 100, c: 101, d: 200 }), "255.100.101.200");
}

#[test]
fn event_types_have_their_wire_names() {
    assert_eq!(EventType::REGISTER.as_str(), "REGISTER");
    assert_eq!(EventType::UPDATED.as_str(), "UPDATED");
    assert_eq!(EventType::DELETED.as_str(), "DELETED");
    assert_eq!(EventType::IGNORED.as_str(), "IGNORED");
    assert_eq!(EventType::OFFLINE.as_str(), "OFFLINE");
}
