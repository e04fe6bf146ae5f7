use salvo_core::{
    AppProto, IpSocketAddr, LocalAddr, SocketAddr, SocketAddrV4, SocketAddrV6, TransProto, UnixSocketAddr,
};

fn v4(octets: [u8; 4], port: u16) -> SocketAddrV4 {
    SocketAddrV4::new(octets, port)
}

fn v6(segments: [u16; 8], port: u16, scope_id: u32) -> SocketAddrV6 {
    SocketAddrV6::new(segments, port, 0, scope_id)
}

#[test]
fn test_addr_ipv4() {
    let ipv4 = IpSocketAddr::V4(v4([127, 0, 0, 1], 8080));
    let ipv4: SocketAddr = ipv4.into();
    assert!(ipv4.is_ipv4());
    assert!(!ipv4.is_ipv6());
    assert!(!ipv4.is_unix());
    assert_eq!(ipv4.as_ipv4().unwrap().to_string(), "127.0.0.1:8080");
    assert!(ipv4.as_ipv6().is_none());
    assert!(ipv4.as_unix().is_none());
}

#[test]
fn test_addr_ipv6() {
    let ipv6 = IpSocketAddr::V6(v6([0, 0, 0, 0, 0, 65535, 0, 1], 8080, 0));
    let ipv6: SocketAddr = ipv6.into();
    assert!(!ipv6.is_ipv4());
    assert!(ipv6.is_ipv6());
    assert!(!ipv6.is_unix());
    assert!(ipv6.as_ipv4().is_none());
    assert_eq!(ipv6.as_ipv6().unwrap().to_string(), "[::ffff:0.0.0.1]:8080");
    assert!(ipv6.as_unix().is_none());
}

#[test]
fn std_form_round_trip() {
    let a = IpSocketAddr::V4(v4([10, 1, 2, 3], 65535));
    assert_eq!(SocketAddr::from(a).into_std(), Some(a));
    let b = IpSocketAddr::V6(v6([0x2001, 0xdb8, 0, 0, 0, 0, 0, 1], 443, 7));
    assert_eq!(SocketAddr::from(b).into_std(), Some(b));
    assert_eq!(SocketAddr::Unknown.into_std(), None);
    let u = UnixSocketAddr { path: Some("/tmp/app.sock".to_string()) };
    assert_eq!(SocketAddr::from(u).into_std(), None);
}

#[test]
fn unknown_is_of_no_family() {
    let a = SocketAddr::Unknown;
    assert!(!a.is_ipv4() && !a.is_ipv6() && !a.is_unix());
    assert!(a.as_ipv4().is_none() && a.as_ipv6().is_none() && a.as_unix().is_none());
}

#[test]
fn unix_is_of_one_family() {
    let a = SocketAddr::from(UnixSocketAddr { path: None });
    assert!(!a.is_ipv4() && !a.is_ipv6() && a.is_unix());
    assert!(a.as_ipv4().is_none() && a.as_ipv6().is_none());
    assert_eq!(a.as_unix().unwrap().path, None);
}

#[test]
fn render_socket_addresses() {
    assert_eq!(SocketAddr::Unknown.to_string(), "unknown");
    assert_eq!(SocketAddr::from(v4([127, 0, 0, 1], 8080)).to_string(), "socket://127.0.0.1:8080");
    assert_eq!(SocketAddr::from(v4([255, 0, 10, 99], 0)).to_string(), "socket://255.0.10.99:0");
    assert_eq!(
        SocketAddr::from(v6([0x2001, 0xdb8, 0, 0, 0, 0, 0, 1], 443, 0)).to_string(),
        "socket://[2001:db8::1]:443"
    );
    let u = UnixSocketAddr { path: Some("/tmp/app.sock".to_string()) };
    assert_eq!(SocketAddr::from(u).to_string(), "unix:///tmp/app.sock");
    assert_eq!(SocketAddr::from(UnixSocketAddr { path: None }).to_string(), "unix://unknown");
}

#[test]
fn render_ipv6_forms() {
    assert_eq!(v6([0; 8], 0, 0).to_string(), "[::]:0");
    assert_eq!(v6([0, 0, 0, 0, 0, 0, 0, 1], 80, 0).to_string(), "[::1]:80");
    assert_eq!(v6([0xfe80, 0, 0, 0, 0, 0, 0, 1], 8080, 3).to_string(), "[fe80::1%3]:8080");
    assert_eq!(v6([1, 0, 2, 3, 4, 5, 6, 7], 1, 0).to_string(), "[1:0:2:3:4:5:6:7]:1");
    assert_eq!(v6([1, 0, 0, 2, 0, 0, 3, 4], 1, 0).to_string(), "[1::2:0:0:3:4]:1");
    assert_eq!(v6([1, 0, 0, 2, 0, 0, 0, 4], 1, 0).to_string(), "[1:0:0:2::4]:1");
    assert_eq!(v6([0xabcd, 0xffff, 0x10, 0, 0, 0, 0, 0], 9, 0).to_string(), "[abcd:ffff:10::]:9");
    assert_eq!(v6([0, 0, 0, 0, 0, 0xffff, 0xc0a8, 0x0102], 5, 0).to_string(), "[::ffff:192.168.1.2]:5");
}

#[test]
fn render_local_addr_ipv4() {
    let l = LocalAddr::new(SocketAddr::from(v4([127, 0, 0, 1], 8080)), TransProto::Tcp, AppProto::Http);
    assert_eq!(l.to_string(), "(TCP) HTTP://127.0.0.1:8080");
}

#[test]
fn render_local_addr_other_kinds() {
    let l = LocalAddr::new(SocketAddr::from(v6([0, 0, 0, 0, 0, 0, 0, 1], 80, 0)), TransProto::Udp, AppProto::Unknown);
    assert_eq!(l.to_string(), "(UDP) unknown://[::1]:80");
    let u = UnixSocketAddr { path: Some("/run/s".to_string()) };
    let l = LocalAddr::new(SocketAddr::from(u), TransProto::Tcp, AppProto::Http);
    assert_eq!(l.to_string(), "(TCP) unix:///run/s");
    let l = LocalAddr::new(SocketAddr::from(UnixSocketAddr { path: None }), TransProto::Tcp, AppProto::Http);
    assert_eq!(l.to_string(), "(TCP) unix://unknown");
    let l = LocalAddr::new(SocketAddr::Unknown, TransProto::Tcp, AppProto::Http);
    assert_eq!(l.to_string(), "unknown");
}

#[test]
fn local_addr_default_and_read_through() {
    let d = LocalAddr::default();
    assert_eq!(d.addr, SocketAddr::Unknown);
    assert_eq!(d.trans_proto, TransProto::Unknown);
    assert_eq!(d.app_proto, AppProto::Unknown);
    assert_eq!(d.to_string(), "unknown");
    let l = LocalAddr::new(SocketAddr::from(v4([1, 2, 3, 4], 5)), TransProto::Tcp, AppProto::Http);
    assert!(l.is_ipv4());
    assert_eq!(l.as_ipv4().unwrap().to_string(), "1.2.3.4:5");
    assert_eq!(l.clone().into_std(), Some(IpSocketAddr::V4(v4([1, 2, 3, 4], 5))));
}

#[test]
fn proto_tags() {
    assert_eq!(TransProto::Tcp.as_str(), "TCP");
    assert_eq!(TransProto::Udp.as_str(), "UDP");
    assert_eq!(TransProto::Unknown.as_str(), "unknown");
    assert_eq!(AppProto::Http.as_str(), "HTTP");
    assert_eq!(AppProto::Unknown.as_str(), "unknown");
}

#[test]
fn local_addr_write_through() {
    let mut l = LocalAddr::new(SocketAddr::from(v4([1, 2, 3, 4], 5)), TransProto::Tcp, AppProto::Http);
    *l = SocketAddr::from(v6([0, 0, 0, 0, 0, 0, 0, 1], 80, 0));
    assert!(l.is_ipv6());
    assert_eq!(l.trans_proto, TransProto::Tcp);
    assert_eq!(l.to_string(), "(TCP) HTTP://[::1]:80");
    *l = SocketAddr::Unknown;
    assert_eq!(l.to_string(), "unknown");
}

#[test]
fn unix_copies_share_the_path() {
    let a = SocketAddr::from(UnixSocketAddr { path: Some("/tmp/shared.sock".to_string()) });
    let b = a.clone();
    assert_eq!(a, b);
    assert_eq!(b.to_string(), "unix:///tmp/shared.sock");
    assert!(std::ptr::eq(a.as_unix().unwrap(), b.as_unix().unwrap()));
}
