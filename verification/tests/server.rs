use start_page::server::{BindPolicy, IpAddress};

#[test]
fn default_binds_localhost_7878() {
    let p = BindPolicy::default();
    assert_eq!(p.host, IpAddress::V4(127, 0, 0, 1));
    assert_eq!(p.port, 7878);
}

#[test]
fn with_port_keeps_the_host_and_expose_keeps_the_port() {
    let p = BindPolicy::default().with_port(9000);
    assert_eq!(p.host, IpAddress::V4(127, 0, 0, 1));
    assert_eq!(p.port, 9000);
    let q = p.expose(IpAddress::V4(0, 0, 0, 0));
    assert_eq!(q.host, IpAddress::V4(0, 0, 0, 0));
    assert_eq!(q.port, 9000);
}
