use msger::address::{Address, IpAddress};
use msger::config::{
    default_allow_files, default_ip, default_message_timout, default_port, listed, ServerConfig,
    TimeSpan,
};

#[test]
fn defaults_of_the_configuration() {
    assert!(default_allow_files());
    assert_eq!(default_message_timout(), TimeSpan { secs: 5, nanos: 0 });
    assert_eq!(default_ip(), IpAddress::V4(0x7f00_0001));
    assert_eq!(default_ip(), IpAddress::V4(u32::from_be_bytes([127, 0, 0, 1])));
    assert_eq!(default_port(), 2004);
}

#[test]
fn ban_list_is_searched_by_ip() {
    let config = ServerConfig {
        banned_users: vec![IpAddress::V4(1), IpAddress::V6(1)],
        auth: None,
        allow_files: true,
        message_timeout: default_message_timout(),
        ip_addr: default_ip(),
        port: default_port(),
    };
    assert!(config.is_banned(IpAddress::V4(1)));
    assert!(config.is_banned(IpAddress::V6(1)));
    assert!(!config.is_banned(IpAddress::V4(2)));
    assert!(!config.is_banned(IpAddress::V6(2)));
    assert!(!listed(&Vec::new(), IpAddress::V4(1)));
}

#[test]
fn address_parts() {
    let v4 = Address::V4 { ip: 0x0a00_0001, port: 4000 };
    assert_eq!(v4.ip(), IpAddress::V4(0x0a00_0001));
    assert_eq!(v4.port(), 4000);
    let v6 = Address::V6 { ip: 1, port: 4001, flowinfo: 7, scope_id: 3 };
    assert_eq!(v6.ip(), IpAddress::V6(1));
    assert_eq!(v6.port(), 4001);
}

#[test]
fn addresses_of_different_families_or_scopes_differ() {
    let v4 = Address::V4 { ip: 1, port: 80 };
    let v6 = Address::V6 { ip: 1, port: 80, flowinfo: 0, scope_id: 0 };
    assert_ne!(v4.ip(), v6.ip());
    assert_ne!(v4, v6);
    assert_ne!(v6, Address::V6 { ip: 1, port: 80, flowinfo: 0, scope_id: 1 });
    assert_ne!(v4, Address::V4 { ip: 1, port: 81 });
    assert_eq!(v4, Address::V4 { ip: 1, port: 80 });
}
