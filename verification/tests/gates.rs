use rmt::example::{ExGatesReq, ExGatesRes};
use rmt::gates::{decode, encode, encode_checked, GateErrorResponse, GateResult, Gates, Undecoded};
use rmt::wire::WireObject;
use rmt::Error;

fn is_pong(g: &ExGatesRes) -> bool {
    matches!(g, ExGatesRes::Pong {})
}

#[test]
fn ping_is_encoded_with_its_tag_alone() {
    assert_eq!(encode(&ExGatesReq::Ping {}), "{\"gate\":\"Ping\"}");
    assert_eq!(encode(&ExGatesRes::Pong {}), "{\"gate\":\"Pong\"}");
    assert_eq!(encode(&ExGatesReq::Time {}), "{\"gate\":\"Time\"}");
}

#[test]
fn fields_follow_the_tag() {
    assert_eq!(
        encode(&ExGatesReq::Hello { msg: "hi".to_string() }),
        "{\"gate\":\"Hello\",\"msg\":\"hi\"}"
    );
    assert_eq!(
        encode(&ExGatesReq::HelloToMe { msg: "you".to_string() }),
        "{\"gate\":\"HelloToMe\",\"msg\":\"you\"}"
    );
    assert_eq!(
        encode(&ExGatesRes::Time { time: "12:00".to_string() }),
        "{\"gate\":\"Time\",\"time\":\"12:00\"}"
    );
}

#[test]
fn text_is_escaped_on_the_wire() {
    assert_eq!(
        encode(&ExGatesRes::Hello { msg: "a\"b\\c\n".to_string() }),
        "{\"gate\":\"Hello\",\"msg\":\"a\\\"b\\\\c\\n\"}"
    );
}

#[test]
fn response_round_trip() {
    let cases = vec![
        ExGatesRes::Pong {},
        ExGatesRes::Hello { msg: "olleh".to_string() },
        ExGatesRes::Hello { msg: "quote \" backslash \\ newline \n unicode \u{e9}".to_string() },
        ExGatesRes::Time { time: "2024-01-01 00:00:00".to_string() },
        ExGatesRes::Time { time: String::new() },
    ];
    for gate in cases {
        let body = encode(&gate);
        match (decode::<ExGatesRes>(&body), gate) {
            (Ok(ExGatesRes::Pong {}), ExGatesRes::Pong {}) => {}
            (Ok(ExGatesRes::Hello { msg: a }), ExGatesRes::Hello { msg: b }) => assert_eq!(a, b),
            (Ok(ExGatesRes::Time { time: a }), ExGatesRes::Time { time: b }) => assert_eq!(a, b),
            _ => panic!("decoded to another gate: {}", body),
        }
    }
}

#[test]
fn request_round_trip() {
    let cases = vec![
        ExGatesReq::Ping {},
        ExGatesReq::Hello { msg: "hello".to_string() },
        ExGatesReq::HelloToMe { msg: "me".to_string() },
        ExGatesReq::Time {},
    ];
    for gate in cases {
        let body = encode(&gate);
        match (decode::<ExGatesReq>(&body), gate) {
            (Ok(ExGatesReq::Ping {}), ExGatesReq::Ping {}) => {}
            (Ok(ExGatesReq::Hello { msg: a }), ExGatesReq::Hello { msg: b }) => assert_eq!(a, b),
            (Ok(ExGatesReq::HelloToMe { msg: a }), ExGatesReq::HelloToMe { msg: b }) => {
                assert_eq!(a, b)
            }
            (Ok(ExGatesReq::Time {}), ExGatesReq::Time {}) => {}
            _ => panic!("decoded to another gate: {}", body),
        }
    }
}

#[test]
fn wire_object_round_trip() {
    let gate = ExGatesRes::Hello { msg: "x".to_string() };
    let object = gate.to_wire();
    assert_eq!(object.members.len(), 2);
    assert_eq!(object.members[0].name, "gate");
    assert_eq!(object.members[0].text.as_deref(), Some("Hello"));
    assert_eq!(object.members[1].name, "msg");
    assert_eq!(object.members[1].text.as_deref(), Some("x"));
    match ExGatesRes::from_wire(&object) {
        Some(ExGatesRes::Hello { msg }) => assert_eq!(msg, "x"),
        _ => panic!("not read back"),
    }
}

#[test]
fn failure_body_is_no_response_gate() {
    assert!(matches!(decode::<ExGatesRes>("{\"error\":\"x\"}"), Err(Undecoded::Unrecognized)));
    assert!(matches!(decode::<ExGatesReq>("{\"error\":\"x\"}"), Err(Undecoded::Unrecognized)));
}

#[test]
fn failure_body_is_read_through_the_fallback() {
    match GateResult::<ExGatesRes>::deserialize("{\"error\":\"x\"}") {
        Ok(GateResult::Failure(failure)) => assert_eq!(failure.message(), "x"),
        _ => panic!("the fallback did not read the failure"),
    }
}

#[test]
fn gate_is_read_before_the_fallback() {
    match GateResult::<ExGatesRes>::deserialize("{\"gate\":\"Pong\",\"error\":\"x\"}") {
        Ok(GateResult::Success(gate)) => assert!(is_pong(&gate)),
        _ => panic!("not read as a gate first"),
    }
}

#[test]
fn neither_shape_is_unrecognized() {
    assert!(matches!(
        GateResult::<ExGatesRes>::deserialize("{\"other\":\"x\"}"),
        Err(Undecoded::Unrecognized)
    ));
    assert!(matches!(
        GateResult::<ExGatesRes>::deserialize("{\"error\":5}"),
        Err(Undecoded::Unrecognized)
    ));
}

#[test]
fn outcome_bodies() {
    let ok: GateResult<ExGatesRes> = GateResult::Success(ExGatesRes::Pong {});
    assert_eq!(ok.serialize(), "{\"gate\":\"Pong\"}");
    let failed: GateResult<ExGatesRes> =
        GateResult::Failure(GateErrorResponse::from(Error::Custom(Some("x".to_string()))));
    assert_eq!(failed.serialize(), "{\"error\":\"Custom Error. x\"}");
}

#[test]
fn malformed_body_keeps_the_parsers_complaint() {
    match decode::<ExGatesRes>("not json") {
        Err(Undecoded::Malformed(detail)) => {
            assert_eq!(detail, "expected ident at line 1 column 2")
        }
        _ => panic!("a malformed body was decoded"),
    }
    assert!(matches!(decode::<ExGatesRes>(""), Err(Undecoded::Malformed(_))));
    assert!(matches!(decode::<ExGatesRes>("[1,2]"), Err(Undecoded::Malformed(_))));
    assert!(matches!(decode::<ExGatesRes>("{\"gate\":\"Pong\"} x"), Err(Undecoded::Malformed(_))));
}

#[test]
fn unknown_or_incomplete_gates_are_unrecognized() {
    assert!(matches!(decode::<ExGatesRes>("{\"gate\":\"Ping\"}"), Err(Undecoded::Unrecognized)));
    assert!(matches!(decode::<ExGatesRes>("{\"gate\":\"Hello\"}"), Err(Undecoded::Unrecognized)));
    assert!(matches!(decode::<ExGatesRes>("{\"gate\":7}"), Err(Undecoded::Unrecognized)));
    assert!(matches!(decode::<ExGatesRes>("{}"), Err(Undecoded::Unrecognized)));
    assert!(matches!(
        decode::<ExGatesRes>("{\"gate\":\"Hello\",\"msg\":1}"),
        Err(Undecoded::Unrecognized)
    ));
}

#[test]
fn members_in_any_order_and_extra_members() {
    match decode::<ExGatesRes>(" { \"msg\" : \"m\", \"more\": [1, {\"a\": null}], \"gate\" : \"Hello\" } ") {
        Ok(ExGatesRes::Hello { msg }) => assert_eq!(msg, "m"),
        _ => panic!("not decoded"),
    }
}

#[test]
fn wire_object_parse_and_print() {
    let object = WireObject::parse("{\"a\":\"1\",\"b\":2,\"c\":\"3\"}").ok().unwrap();
    assert_eq!(object.members.len(), 3);
    assert_eq!(object.text("a").map(|s| s.as_str()), Some("1"));
    assert_eq!(object.text("b"), None);
    assert_eq!(object.text("c").map(|s| s.as_str()), Some("3"));
    assert_eq!(object.text("d"), None);
    assert_eq!(object.print(), "{\"a\":\"1\",\"b\":null,\"c\":\"3\"}");
    let mut built = WireObject::new();
    assert_eq!(built.print(), "{}");
    built.push_text("k", "v");
    assert_eq!(built.print(), "{\"k\":\"v\"}");
}

#[test]
fn first_member_of_a_name_is_the_one_read() {
    let mut object = WireObject::new();
    object.push_text("k", "first");
    object.push_text("k", "second");
    assert_eq!(object.text("k").map(|s| s.as_str()), Some("first"));
}

#[test]
fn checked_bodies_read_back() {
    assert_eq!(encode_checked(&ExGatesRes::Pong {}), Some("{\"gate\":\"Pong\"}".to_string()));
    let gate = ExGatesRes::Hello { msg: "tab\t quote \" \u{1F980} \u{0}".to_string() };
    let body = encode_checked(&gate).unwrap();
    assert_eq!(body, encode(&gate));
    match decode::<ExGatesRes>(&body) {
        Ok(ExGatesRes::Hello { msg }) => assert_eq!(msg, "tab\t quote \" \u{1F980} \u{0}"),
        _ => panic!("not read back"),
    }
}

#[test]
fn checked_outcomes_read_back() {
    let failed: GateResult<ExGatesRes> =
        GateResult::Failure(GateErrorResponse::from(Error::Custom(Some("x".to_string()))));
    let body = failed.serialize_checked().unwrap();
    assert_eq!(body, "{\"error\":\"Custom Error. x\"}");
    assert!(matches!(decode::<ExGatesRes>(&body), Err(Undecoded::Unrecognized)));
    match GateResult::<ExGatesRes>::deserialize(&body) {
        Ok(GateResult::Failure(failure)) => assert_eq!(failure.message(), "Custom Error. x"),
        _ => panic!("not read back"),
    }
    let ok: GateResult<ExGatesRes> = GateResult::Success(ExGatesRes::Time { time: "now".to_string() });
    assert_eq!(ok.serialize_checked(), Some("{\"gate\":\"Time\",\"time\":\"now\"}".to_string()));
}

#[test]
fn objects_are_compared_member_by_member() {
    let mut a = WireObject::new();
    let mut b = WireObject::new();
    assert!(a.same(&b));
    a.push_text("k", "v");
    assert!(!a.same(&b));
    b.push_text("k", "v");
    assert!(a.same(&b));
    a.push_text("x", "1");
    b.push_text("x", "2");
    assert!(!a.same(&b));
    let parsed = WireObject::parse("{\"k\":\"v\",\"x\":null}").ok().unwrap();
    assert!(!parsed.same(&a));
    let again = WireObject::parse(" {\"k\":\"v\", \"x\":7}").ok().unwrap();
    assert!(parsed.same(&again));
}

#[test]
fn outcome_of_a_handler_result() {
    let ok: GateResult<ExGatesRes> = GateResult::from(Ok(ExGatesRes::Pong {}));
    assert!(matches!(ok, GateResult::Success(ExGatesRes::Pong {})));
    let failed: GateResult<ExGatesRes> = GateResult::from(Err(Error::Websocket));
    match failed {
        GateResult::Failure(failure) => assert_eq!(failure.message(), "Websocket error."),
        _ => panic!("an error became a gate"),
    }
}
