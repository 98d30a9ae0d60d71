use webdriver_session::json::{parse, Json};
use webdriver_session::reply::{
    decode_text, image_of, read_image, read_rect, read_size_member, read_text, read_text_member,
    read_unit, unwrap_document, Reply,
};
use webdriver_session::WebDriverError;

fn answer(body: &str) -> Reply {
    Reply::Received { status: 200, body: body.as_bytes().to_vec() }
}

#[test]
fn window_size_is_read_back_when_the_driver_echoes() {
    let reply = answer("{\"value\":{\"width\":800,\"height\":600}}");
    assert_eq!(reply.into_window_size(), Ok((800, 600)));
}

#[test]
fn window_size_may_differ_from_the_request() {
    let reply = answer("{\"value\":{\"x\":0,\"y\":0,\"width\":1024,\"height\":768}}");
    assert_eq!(reply.into_window_size(), Ok((1024, 768)));
}

#[test]
fn window_size_needs_both_members() {
    assert_eq!(
        answer("{\"value\":{\"width\":800}}").into_window_size(),
        Err(WebDriverError::ProtocolError)
    );
    assert_eq!(
        answer("{\"value\":{\"height\":600}}").into_window_size(),
        Err(WebDriverError::ProtocolError)
    );
}

#[test]
fn window_size_rejects_negative_fractional_and_textual_numbers() {
    assert_eq!(
        answer("{\"value\":{\"width\":-1,\"height\":600}}").into_window_size(),
        Err(WebDriverError::ProtocolError)
    );
    assert_eq!(
        answer("{\"value\":{\"width\":800.5,\"height\":600}}").into_window_size(),
        Err(WebDriverError::ProtocolError)
    );
    assert_eq!(
        answer("{\"value\":{\"width\":\"800\",\"height\":600}}").into_window_size(),
        Err(WebDriverError::ProtocolError)
    );
}

#[test]
fn script_result_hello_is_the_string_hello() {
    let payload = answer("{\"value\":\"hello\"}").into_payload();
    assert_eq!(payload, Ok(Json::Text(String::from("hello"))));
    assert_eq!(read_text(&payload.unwrap()), Ok(String::from("hello")));
    assert_eq!(answer("{\"value\":\"hello\"}").into_text(), Ok(String::from("hello")));
    assert_eq!(answer("{\"value\":5}").into_text(), Err(WebDriverError::ProtocolError));
}

#[test]
fn script_result_keeps_any_document() {
    let payload = answer("{\"value\":[1,-2,1.5,true,null,{\"a\":\"b\"}]}").into_payload();
    assert_eq!(
        payload,
        Ok(Json::Array(vec![
            Json::Unsigned(1),
            Json::Signed(-2),
            Json::Real(String::from("1.5")),
            Json::Bool(true),
            Json::Null,
            Json::Object(vec![(String::from("a"), Json::Text(String::from("b")))]),
        ]))
    );
}

#[test]
fn screenshot_payload_decodes_to_hello() {
    assert_eq!(answer("{\"value\":\"aGVsbG8=\"}").into_image(), Ok(b"hello".to_vec()));
}

#[test]
fn screenshot_payload_that_is_not_base64_is_a_decode_error() {
    assert_eq!(answer("{\"value\":\"!!!\"}").into_image(), Err(WebDriverError::DecodeError));
}

#[test]
fn screenshot_payload_that_is_not_a_text_is_a_protocol_error() {
    assert_eq!(answer("{\"value\":42}").into_image(), Err(WebDriverError::ProtocolError));
}

#[test]
fn empty_screenshot_payload_is_an_empty_image() {
    assert_eq!(answer("{\"value\":\"\"}").into_image(), Ok(Vec::new()));
}

#[test]
fn decoding_changes_the_text() {
    assert_eq!(decode_text("aGVsbG8="), Some(b"hello".to_vec()));
    assert_eq!(decode_text("AAEC"), Some(vec![0, 1, 2]));
    assert_eq!(decode_text("!!!"), None);
    assert_eq!(decode_text("aGVs bG8="), None);
}

#[test]
fn image_of_maps_a_missing_decoding_to_decode_error() {
    assert_eq!(image_of(Some(vec![1, 2, 3])), Ok(vec![1, 2, 3]));
    assert_eq!(image_of(None), Err(WebDriverError::DecodeError));
}

#[test]
fn read_image_reads_a_text_payload() {
    assert_eq!(read_image(&Json::Text(String::from("aGk="))), Ok(b"hi".to_vec()));
    assert_eq!(read_image(&Json::Null), Err(WebDriverError::ProtocolError));
}

#[test]
fn navigation_answer_is_null() {
    assert_eq!(answer("{\"value\":null}").into_unit(), Ok(()));
    assert_eq!(answer("{\"value\":0}").into_unit(), Err(WebDriverError::ProtocolError));
    assert_eq!(read_unit(&Json::Null), Ok(()));
    assert_eq!(read_unit(&Json::Bool(false)), Err(WebDriverError::ProtocolError));
}

#[test]
fn element_reference_is_read_from_its_member() {
    let reply = answer("{\"value\":{\"element-6066-11e4-a52e-4f735466cecf\":\"e-17\"}}");
    assert_eq!(reply.into_element(), Ok(String::from("e-17")));
    assert_eq!(
        answer("{\"value\":{\"element\":\"e-17\"}}").into_element(),
        Err(WebDriverError::ProtocolError)
    );
    assert_eq!(
        answer("{\"value\":{\"element-6066-11e4-a52e-4f735466cecf\":17}}").into_element(),
        Err(WebDriverError::ProtocolError)
    );
}

#[test]
fn session_id_is_read_from_its_member() {
    let reply = answer("{\"value\":{\"sessionId\":\"abc-123\",\"capabilities\":{}}}");
    assert_eq!(reply.into_session_id(), Ok(String::from("abc-123")));
    assert_eq!(
        answer("{\"value\":{\"session_id\":\"abc\"}}").into_session_id(),
        Err(WebDriverError::ProtocolError)
    );
}

#[test]
fn session_answer_is_read_whatever_its_status() {
    let reply = Reply::Received {
        status: 500,
        body: b"{\"value\":{\"sessionId\":\"s\"}}".to_vec(),
    };
    assert_eq!(reply.into_session_id(), Ok(String::from("s")));
    let error = Reply::Received {
        status: 500,
        body: b"{\"value\":{\"error\":\"session not created\",\"message\":\"\"}}".to_vec(),
    };
    assert_eq!(error.into_session_id(), Err(WebDriverError::ProtocolError));
    assert_eq!(Reply::Failed.into_session_id(), Err(WebDriverError::ProtocolError));
    assert_eq!(Reply::Failed.into_session_payload(), Err(WebDriverError::ProtocolError));
}

#[test]
fn transport_failure_is_a_protocol_error() {
    assert_eq!(Reply::Failed.into_payload(), Err(WebDriverError::ProtocolError));
    assert_eq!(Reply::Failed.into_unit(), Err(WebDriverError::ProtocolError));
    assert_eq!(Reply::Failed.into_image(), Err(WebDriverError::ProtocolError));
    assert_eq!(Reply::Failed.into_element(), Err(WebDriverError::ProtocolError));
    assert_eq!(Reply::Failed.into_window_size(), Err(WebDriverError::ProtocolError));
}

#[test]
fn failing_status_is_a_protocol_error() {
    for status in [199u16, 300, 404, 500] {
        let reply = Reply::Received { status, body: b"{\"value\":null}".to_vec() };
        assert_eq!(reply.into_unit(), Err(WebDriverError::ProtocolError));
    }
    for status in [200u16, 201, 299] {
        let reply = Reply::Received { status, body: b"{\"value\":null}".to_vec() };
        assert_eq!(reply.into_unit(), Ok(()));
    }
}

#[test]
fn body_without_envelope_is_a_protocol_error() {
    assert_eq!(answer("not json").into_payload(), Err(WebDriverError::ProtocolError));
    assert_eq!(answer("").into_payload(), Err(WebDriverError::ProtocolError));
    assert_eq!(answer("{\"valu\":1}").into_payload(), Err(WebDriverError::ProtocolError));
    assert_eq!(answer("[\"value\"]").into_payload(), Err(WebDriverError::ProtocolError));
    assert_eq!(answer("{\"value\":1} x").into_payload(), Err(WebDriverError::ProtocolError));
}

#[test]
fn unwrap_document_takes_the_member_value() {
    let doc = Json::Object(vec![
        (String::from("other"), Json::Null),
        (String::from("value"), Json::Unsigned(7)),
    ]);
    assert_eq!(unwrap_document(Some(doc)), Ok(Json::Unsigned(7)));
    assert_eq!(unwrap_document(None), Err(WebDriverError::ProtocolError));
    assert_eq!(unwrap_document(Some(Json::Unsigned(7))), Err(WebDriverError::ProtocolError));
}

#[test]
fn members_are_read_by_name() {
    let doc = Json::Object(vec![
        (String::from("width"), Json::Unsigned(3)),
        (String::from("name"), Json::Text(String::from("n"))),
        (String::from("width"), Json::Unsigned(4)),
    ]);
    assert_eq!(read_size_member(&doc, "width"), Ok(3));
    assert_eq!(read_size_member(&doc, "name"), Err(WebDriverError::ProtocolError));
    assert_eq!(read_size_member(&doc, "height"), Err(WebDriverError::ProtocolError));
    assert_eq!(read_text_member(&doc, "name"), Ok(String::from("n")));
    assert_eq!(read_text_member(&doc, "width"), Err(WebDriverError::ProtocolError));
    assert_eq!(read_rect(&doc), Err(WebDriverError::ProtocolError));
    assert_eq!(doc.member("name"), Some(&Json::Text(String::from("n"))));
    assert_eq!(doc.member("nam"), None);
    assert_eq!(Json::Null.member("name"), None);
    assert_eq!(doc.into_member("width"), Some(Json::Unsigned(3)));
}

#[test]
fn parse_reads_numbers_by_kind() {
    assert_eq!(parse(b"0"), Some(Json::Unsigned(0)));
    assert_eq!(parse(b"18446744073709551615"), Some(Json::Unsigned(u64::MAX)));
    assert_eq!(parse(b"-9223372036854775808"), Some(Json::Signed(i64::MIN)));
    assert_eq!(parse(b"2.5"), Some(Json::Real(String::from("2.5"))));
    assert_eq!(parse(b"\"a\\nb\""), Some(Json::Text(String::from("a\nb"))));
    assert_eq!(parse(b"{"), None);
}

#[test]
fn parse_keeps_the_last_of_two_members_with_one_name() {
    let doc = parse(b"{\"value\":1,\"value\":2}");
    assert_eq!(doc, Some(Json::Object(vec![(String::from("value"), Json::Unsigned(2))])));
}
