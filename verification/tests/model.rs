use paceman::models::{
    assemble_response, decode_body, decode_header_value, decode_method, encode_body,
    encode_method, HeaderValue, Method, Request, RequestBody, Response,
};

const ALL_METHODS: [Method; 9] = [
    Method::Get,
    Method::Post,
    Method::Put,
    Method::Patch,
    Method::Delete,
    Method::Head,
    Method::Options,
    Method::Trace,
    Method::Connect,
];

#[test]
fn method_round_trip_all_nine() {
    for m in ALL_METHODS {
        let token = encode_method(m);
        assert_eq!(decode_method(&token), Some(m));
    }
}

#[test]
fn method_tokens_are_canonical() {
    assert_eq!(encode_method(Method::Get), "GET");
    assert_eq!(encode_method(Method::Post), "POST");
    assert_eq!(encode_method(Method::Put), "PUT");
    assert_eq!(encode_method(Method::Patch), "PATCH");
    assert_eq!(encode_method(Method::Delete), "DELETE");
    assert_eq!(encode_method(Method::Head), "HEAD");
    assert_eq!(encode_method(Method::Options), "OPTIONS");
    assert_eq!(encode_method(Method::Trace), "TRACE");
    assert_eq!(encode_method(Method::Connect), "CONNECT");
}

#[test]
fn method_decode_refuses_unknown_tokens() {
    assert_eq!(decode_method(&"get".to_string()), None);
    assert_eq!(decode_method(&"".to_string()), None);
    assert_eq!(decode_method(&"FETCH".to_string()), None);
}

#[test]
fn body_round_trip_all_kinds() {
    let kinds = [
        RequestBody::NoBody,
        RequestBody::Text,
        RequestBody::Json,
        RequestBody::FormEncoded,
        RequestBody::RawBytes,
    ];
    for b in kinds {
        let label = encode_body(b);
        assert_eq!(decode_body(&label), Some(b));
    }
}

#[test]
fn select_body_switches_on_known_label() {
    let mut request = Request::new();
    assert_eq!(request.body, RequestBody::NoBody);
    assert!(request.select_body(&"JSON".to_string()));
    assert_eq!(request.body, RequestBody::Json);
}

#[test]
fn select_body_ignores_unknown_label() {
    let mut request = Request::new();
    request.select_body(&"Text".to_string());
    assert!(!request.select_body(&"YAML".to_string()));
    assert_eq!(request.body, RequestBody::Text);
}

#[test]
fn fresh_request_is_blank() {
    let request = Request::new();
    assert_eq!(request.method, Method::Get);
    assert_eq!(request.url, "");
    assert!(request.params.is_empty());
    assert!(request.headers.is_empty());
    assert_eq!(request.body, RequestBody::NoBody);
}

#[test]
fn header_value_text_when_visible_ascii() {
    let v = decode_header_value(b"application/json; charset=utf-8".to_vec());
    assert_eq!(
        v,
        HeaderValue::Text("application/json; charset=utf-8".to_string())
    );
}

#[test]
fn header_value_text_allows_tab() {
    let v = decode_header_value(b"a\tb".to_vec());
    assert_eq!(v, HeaderValue::Text("a\tb".to_string()));
}

#[test]
fn header_value_bytes_when_not_visible_ascii() {
    let raw = vec![0x66u8, 0x6f, 0x80];
    let v = decode_header_value(raw.clone());
    assert_eq!(v, HeaderValue::Bytes(raw));
    let ctl = decode_header_value(vec![0x0au8]);
    assert_eq!(ctl, HeaderValue::Bytes(vec![0x0au8]));
}

#[test]
fn assemble_response_carries_everything_over() {
    let raw_headers = vec![
        ("content-type".to_string(), b"text/plain".to_vec()),
        ("x-raw".to_string(), vec![0xffu8, 0x00]),
    ];
    let r: Response = assemble_response(
        200,
        Some(11),
        1_000,
        1_250,
        "hello there".to_string(),
        raw_headers,
    );
    assert_eq!(r.status, 200);
    assert_eq!(r.content_length, Some(11));
    assert_eq!(r.start, 1_000);
    assert_eq!(r.end, 1_250);
    assert_eq!(r.text, "hello there");
    assert_eq!(r.headers.len(), 2);
    assert_eq!(r.headers[0].name, "content-type");
    assert_eq!(
        r.headers[0].value,
        HeaderValue::Text("text/plain".to_string())
    );
    assert_eq!(r.headers[1].name, "x-raw");
    assert_eq!(r.headers[1].value, HeaderValue::Bytes(vec![0xffu8, 0x00]));
    assert_eq!(r.duration_millis(), 250);
}
