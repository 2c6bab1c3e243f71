use rmt::attribute::{ArgsError, MainArgs, Protocol};

#[test]
fn protocol_names() {
    assert_eq!(Protocol::from_name("http"), Some(Protocol::Http));
    assert_eq!(Protocol::from_name("websocket"), Some(Protocol::Websocket));
    assert_eq!(Protocol::from_name("HTTP"), None);
    assert_eq!(Protocol::from_name(""), None);
    assert_eq!(Protocol::from_name("https"), None);
}

#[test]
fn arguments_of_an_entry_point() {
    assert_eq!(MainArgs::parse("protocol", "http"), Ok(MainArgs { protocol: Protocol::Http }));
    assert_eq!(
        MainArgs::parse("protocol", "websocket"),
        Ok(MainArgs { protocol: Protocol::Websocket })
    );
}

#[test]
fn argument_of_another_name_is_refused_first() {
    assert_eq!(MainArgs::parse("proto", "http"), Err(ArgsError::ExpectedProtocol));
    assert_eq!(MainArgs::parse("proto", "gopher"), Err(ArgsError::ExpectedProtocol));
    assert_eq!(MainArgs::parse("", ""), Err(ArgsError::ExpectedProtocol));
    assert_eq!(ArgsError::ExpectedProtocol.message(), "expected `protocol`");
}

#[test]
fn unknown_protocol_is_refused() {
    assert_eq!(MainArgs::parse("protocol", "gopher"), Err(ArgsError::UnknownProtocol));
    assert_eq!(MainArgs::parse("protocol", ""), Err(ArgsError::UnknownProtocol));
    assert_eq!(ArgsError::UnknownProtocol.message(), "protocol must be `http` or `websocket`");
}
