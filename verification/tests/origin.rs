use rmt::origin::AllowedOrigins;
use rmt::Origin;

#[test]
fn remote_ip_is_the_configured_address() {
    let origin = Origin::Remote { ip: "10.0.0.1", port: 8080 };
    assert_eq!(origin.ip(), "10.0.0.1");
    assert_eq!(origin.port(), 8080);
}

#[test]
fn local_ip_is_loopback_whatever_the_port() {
    assert_eq!(Origin::Local { port: 0 }.ip(), "127.0.0.1");
    assert_eq!(Origin::Local { port: 2020 }.ip(), "127.0.0.1");
    assert_eq!(Origin::Local { port: 2020 }.port(), 2020);
}

#[test]
fn registry_from_empty_list_contains_nothing() {
    let registry = AllowedOrigins::from(&vec![]);
    assert!(!registry.contains("10.0.0.1"));
    assert!(!registry.contains("127.0.0.1"));
    assert!(!registry.contains(""));
}

#[test]
fn registry_answers_by_address_only() {
    let registry = AllowedOrigins::from(&vec![Origin::Remote { ip: "10.0.0.1", port: 1 }]);
    assert!(registry.contains("10.0.0.1"));
    assert!(!registry.contains("10.0.0.2"));
    let other_port = AllowedOrigins::from(&vec![Origin::Remote { ip: "10.0.0.1", port: 65535 }]);
    assert!(other_port.contains("10.0.0.1"));
    assert!(!other_port.contains("10.0.0.2"));
}
