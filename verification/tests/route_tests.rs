use rusty_proxy::route::{addr_text, route, Backend, BackendAddr};

#[test]
fn shell_tunnel_routes_to_loopback_port_22() {
    let a = route(Backend::ShellTunnel);
    assert_eq!(
        a,
        BackendAddr {
            o0: 127,
            o1: 0,
            o2: 0,
            o3: 1,
            port: 22
        }
    );
    assert_eq!(addr_text(&a), b"127.0.0.1:22".to_vec());
}

#[test]
fn vpn_tunnel_routes_to_loopback_port_1194() {
    let a = route(Backend::VpnTunnel);
    assert_eq!(
        a,
        BackendAddr {
            o0: 127,
            o1: 0,
            o2: 0,
            o3: 1,
            port: 1194
        }
    );
    assert_eq!(addr_text(&a), b"127.0.0.1:1194".to_vec());
}

#[test]
fn addr_text_renders_every_octet_and_the_port() {
    let a = BackendAddr {
        o0: 10,
        o1: 255,
        o2: 0,
        o3: 7,
        port: 65535,
    };
    assert_eq!(addr_text(&a), b"10.255.0.7:65535".to_vec());
}
