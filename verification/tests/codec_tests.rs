use geph5_broker::codec::{bytes_eq, encode_bridge_desc, encode_dom_msg, encode_u128};
use geph5_broker::routes::assemble_route_set;
use geph5_broker::types::{BridgeDescriptor, Endpoint, RouteCandidate};

#[test]
fn u128_encoding_is_little_endian() {
    let x: u128 = 0x0102_0304_0506_0708_090a_0b0c_0d0e_0f10;
    assert_eq!(encode_u128(x), x.to_le_bytes().to_vec());
    assert_eq!(encode_u128(0), vec![0u8; 16]);
}

#[test]
fn dom_msg_prefixes_the_domain_tag() {
    let body = vec![9u8, 8, 7];
    let msg = encode_dom_msg(0x01, &body);
    assert_eq!(msg.len(), 8 + 3);
    assert_eq!(&msg[..8], 0x01u64.to_le_bytes().as_slice());
    assert_eq!(&msg[8..], &[9u8, 8, 7]);
}

#[test]
fn bridge_encoding_covers_every_field() {
    let d = BridgeDescriptor {
        control_listen: Endpoint { ip: 0x01020304, port: 0x0506 },
        control_cookie: b"ck".to_vec(),
        pool: b"p".to_vec(),
        expiry: 2,
    };
    let enc = encode_bridge_desc(&d);
    let mut expect: Vec<u8> = Vec::new();
    expect.extend_from_slice(&0x01020304u32.to_le_bytes());
    expect.extend_from_slice(&0x0506u16.to_le_bytes());
    expect.extend_from_slice(&2u64.to_le_bytes());
    expect.extend_from_slice(b"ck");
    expect.extend_from_slice(&1u64.to_le_bytes());
    expect.extend_from_slice(b"p");
    expect.extend_from_slice(&2u64.to_le_bytes());
    assert_eq!(enc, expect);
}

#[test]
fn bytes_eq_compares_contents() {
    assert!(bytes_eq(&vec![1, 2, 3], &vec![1, 2, 3]));
    assert!(!bytes_eq(&vec![1, 2, 3], &vec![1, 2, 4]));
    assert!(!bytes_eq(&vec![1, 2], &vec![1, 2, 3]));
    assert!(bytes_eq(&Vec::new(), &Vec::new()));
}

fn candidate(port: u16) -> RouteCandidate {
    RouteCandidate {
        bridge: Endpoint { ip: 1, port },
        exit: Endpoint { ip: 2, port: 443 },
        payload: vec![port as u8],
    }
}

#[test]
fn all_failed_conversions_yield_empty_route_set() {
    let set = assemble_route_set(vec![None, None, None]);
    assert_eq!(set.candidates.len(), 0);
}

#[test]
fn failed_conversions_are_excluded_not_fatal() {
    let set = assemble_route_set(vec![
        None,
        Some(candidate(1000)),
        None,
        Some(candidate(2000)),
    ]);
    assert_eq!(set.candidates.len(), 2);
    assert_eq!(set.candidates[0].bridge.port, 1000);
    assert_eq!(set.candidates[1].bridge.port, 2000);
}
