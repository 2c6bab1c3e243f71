use rmt::error::ServiceError;
use rmt::gates::GateErrorResponse;
use rmt::Error;

#[test]
fn transport_error_shows_quoted_detail() {
    let e = Error::Http(rmt::http::Error::Text("connection refused".to_string()));
    assert_eq!(e.to_string(), "Http error. Text(\"connection refused\")");
}

#[test]
fn transport_error_escapes_detail() {
    let e = Error::Http(rmt::http::Error::Text("a \"b\"\n".to_string()));
    assert_eq!(e.to_string(), "Http error. Text(\"a \\\"b\\\"\\n\")");
}

#[test]
fn websocket_error_message() {
    assert_eq!(Error::Websocket.to_string(), "Websocket error.");
}

#[test]
fn service_error_messages() {
    assert_eq!(
        Error::Service(ServiceError::ServiceRequestTimeout).to_string(),
        "Service error. ServiceRequestTimeout"
    );
    assert_eq!(Error::Service(ServiceError::WrongGate).to_string(), "Service error. WrongGate");
    assert_eq!(
        Error::Service(ServiceError::JSONParseError("expected value".to_string())).to_string(),
        "Service error. JSONParseError(\"expected value\")"
    );
}

#[test]
fn custom_error_messages() {
    assert_eq!(Error::Custom(Some("boom".to_string())).to_string(), "Custom Error. boom");
    assert_eq!(Error::Custom(None).to_string(), "Custom Error. empty");
}

#[test]
fn clone_keeps_the_error() {
    let e = Error::Service(ServiceError::JSONParseError("x".to_string()));
    assert_eq!(e.clone().to_string(), e.to_string());
    let c = Error::Custom(Some("detail".to_string()));
    assert_eq!(c.clone().to_string(), "Custom Error. detail");
}

#[test]
fn failure_body_holds_the_string_form() {
    let failure = GateErrorResponse::from(Error::Custom(Some("no".to_string())));
    assert_eq!(failure.message(), "Custom Error. no");
    assert_eq!(failure.clone().message(), "Custom Error. no");
}
