use rmt::error::ServiceError;
use rmt::example::{ExGatesReq, ExGatesRes};
use rmt::http::context::{Call, Exchange, SERVICE_REQUEST_TIMEOUT};
use rmt::http::Context;
use rmt::{Error, Origin};
use std::cell::RefCell;

fn public_contract() -> Context<ExGatesReq, ExGatesRes> {
    Context::new(Origin::Local { port: 2020 }, false)
}

#[test]
fn context_keeps_origin_and_visibility() {
    let c: Context<ExGatesReq, ExGatesRes> =
        Context::new(Origin::Remote { ip: "10.1.2.3", port: 80 }, true);
    assert_eq!(c.origin().ip(), "10.1.2.3");
    assert_eq!(c.origin().port(), 80);
    assert!(c.internal());
    assert!(!public_contract().internal());
}

#[test]
fn timeout_is_five_seconds() {
    assert_eq!(SERVICE_REQUEST_TIMEOUT, 5000);
}

#[test]
fn route_follows_visibility() {
    assert_eq!(public_contract().route(), "request");
    let c: Context<ExGatesReq, ExGatesRes> = Context::new(Origin::Local { port: 1 }, true);
    assert_eq!(c.route(), "internal-request");
}

#[test]
fn url_of_public_and_internal_contracts() {
    assert_eq!(public_contract().url(), "http://127.0.0.1:2020/request");
    let c: Context<ExGatesReq, ExGatesRes> =
        Context::new(Origin::Remote { ip: "10.0.0.1", port: 65535 }, true);
    assert_eq!(c.url(), "http://10.0.0.1:65535/internal-request");
    let z: Context<ExGatesReq, ExGatesRes> =
        Context::new(Origin::Remote { ip: "example.org", port: 0 }, false);
    assert_eq!(z.url(), "http://example.org:0/request");
}

#[test]
fn decimal_ports() {
    for port in [0u16, 7, 9, 10, 11, 99, 100, 101, 1000, 8080, 9999, 10000, 12345, 65535] {
        let mut out = String::from("p");
        rmt::http::context::push_decimal(&mut out, port);
        assert_eq!(out, format!("p{}", port));
    }
}

#[test]
fn request_hands_one_call_to_the_transport() {
    let seen: RefCell<Vec<(String, String, u64)>> = RefCell::new(Vec::new());
    let result = public_contract().request(
        |call: Call| {
            seen.borrow_mut().push((call.url, call.body, call.timeout));
            Exchange::Answered("{\"gate\":\"Hello\",\"msg\":\"dlrow\"}".to_string())
        },
        ExGatesReq::Hello { msg: "world".to_string() },
    );
    match result {
        Ok(ExGatesRes::Hello { msg }) => assert_eq!(msg, "dlrow"),
        _ => panic!("no answer"),
    }
    let seen = seen.into_inner();
    assert_eq!(seen.len(), 1);
    assert_eq!(seen[0].0, "http://127.0.0.1:2020/request");
    assert_eq!(seen[0].1, "{\"gate\":\"Hello\",\"msg\":\"world\"}");
    assert_eq!(seen[0].2, 5000);
}

#[test]
fn origin_that_never_responds_gives_service_timeout() {
    let result = public_contract().request(|_call: Call| Exchange::TimedOut, ExGatesReq::Ping {});
    assert!(matches!(result, Err(Error::Service(ServiceError::ServiceRequestTimeout))));
}

#[test]
fn connection_that_cannot_be_established_gives_transport_error() {
    let result = public_contract().request(
        |_call: Call| Exchange::Failed("connection refused".to_string()),
        ExGatesReq::Ping {},
    );
    match result {
        Err(Error::Http(rmt::http::Error::Text(detail))) => assert_eq!(detail, "connection refused"),
        _ => panic!("no transport error"),
    }
}

#[test]
fn malformed_response_body_gives_decode_failure() {
    let result = public_contract()
        .request(|_call: Call| Exchange::Answered("<html>".to_string()), ExGatesReq::Ping {});
    match result {
        Err(Error::Service(ServiceError::JSONParseError(detail))) => {
            assert_eq!(detail, "expected value at line 1 column 1")
        }
        _ => panic!("no decode failure"),
    }
}

#[test]
fn failure_body_gives_decode_failure_on_the_client() {
    let result: Result<ExGatesRes, Error> =
        Context::<ExGatesReq, ExGatesRes>::resolve(Exchange::Answered("{\"error\":\"x\"}".to_string()));
    match result {
        Err(Error::Service(ServiceError::JSONParseError(detail))) => {
            assert_eq!(detail, "body does not match the expected gates")
        }
        _ => panic!("no decode failure"),
    }
}

#[test]
fn resolve_answers() {
    let pong: Result<ExGatesRes, Error> =
        Context::<ExGatesReq, ExGatesRes>::resolve(Exchange::Answered("{\"gate\":\"Pong\"}".to_string()));
    assert!(matches!(pong, Ok(ExGatesRes::Pong {})));
    let timeout: Result<ExGatesRes, Error> =
        Context::<ExGatesReq, ExGatesRes>::resolve(Exchange::TimedOut);
    assert!(matches!(timeout, Err(Error::Service(ServiceError::ServiceRequestTimeout))));
}
