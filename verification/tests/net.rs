use ember_bridge::machine::net::{addr_less, is_local_network_ip, NetAddr};

fn addr(text: &str) -> NetAddr {
    match text {
        "::1" => NetAddr::V6(1),
        "fe80::1" => NetAddr::V6((0xfe80u128 << 112) | 1),
        _ => {
            let o: Vec<u8> = text.split('.').map(|p| p.parse::<u8>().unwrap()).collect();
            NetAddr::V4(o[0], o[1], o[2], o[3])
        }
    }
}

#[test]
fn local_network_rule() {
    assert!(is_local_network_ip(addr("192.168.1.120")));
    assert!(is_local_network_ip(addr("10.0.0.5")));
    assert!(is_local_network_ip(addr("172.16.44.2")));
    assert!(is_local_network_ip(addr("169.254.10.10")));
    assert!(!is_local_network_ip(addr("8.8.8.8")));
    assert!(!is_local_network_ip(addr("127.0.0.1")));
    assert!(!is_local_network_ip(addr("::1")));
    assert!(!is_local_network_ip(addr("172.32.0.1")));
}

#[test]
fn private_range_edges() {
    assert!(is_local_network_ip(addr("172.31.255.255")));
    assert!(!is_local_network_ip(addr("172.15.0.1")));
    assert!(is_local_network_ip(addr("10.255.255.255")));
    assert!(!is_local_network_ip(addr("192.169.0.1")));
    assert!(!is_local_network_ip(addr("169.255.0.1")));
    assert!(!is_local_network_ip(addr("fe80::1")));
}

#[test]
fn addresses_order_numerically() {
    assert!(addr_less(addr("10.0.0.2"), addr("10.0.0.10")));
    assert!(!addr_less(addr("10.0.0.10"), addr("10.0.0.2")));
    assert!(!addr_less(addr("10.0.0.2"), addr("10.0.0.2")));
    assert!(addr_less(addr("192.168.1.1"), addr("::1")));
}
