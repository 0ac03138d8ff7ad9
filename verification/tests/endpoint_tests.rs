use desktopcast::endpoint::{get_own_ip, media_url, EndpointError, InterfaceAddress};

#[test]
fn own_ip_is_first_address_off_loopback() {
    let addresses = vec![
        InterfaceAddress { loopback: true, ip: "127.0.0.1".to_string() },
        InterfaceAddress { loopback: false, ip: "192.168.1.20".to_string() },
        InterfaceAddress { loopback: false, ip: "10.0.0.3".to_string() },
    ];
    assert_eq!(get_own_ip(&addresses), Ok("192.168.1.20".to_string()));
}

#[test]
fn own_ip_fails_on_loopback_only() {
    let addresses = vec![InterfaceAddress { loopback: true, ip: "127.0.0.1".to_string() }];
    assert_eq!(get_own_ip(&addresses), Err(EndpointError::NoPublicAddress));
    assert_eq!(get_own_ip(&vec![]), Err(EndpointError::NoPublicAddress));
}

#[test]
fn media_url_names_the_stream_port() {
    assert_eq!(media_url("192.168.1.20"), "rtsp://192.168.1.20:8554");
}
