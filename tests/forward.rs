use std::io::Write;

use flate2::write::GzEncoder;
use flate2::Compression;
use rgate::exchange::finish_exchange;
use rgate::forward::{
    display_body, forwarded_headers, is_gzip_encoded, plan_forward, record_exchange,
    text_headers, value_is_text, ForwardError, InboundRequest, OutboundRequest, UpstreamReply,
};
use rgate::history::HistoryStore;
use rgate::hub::Hub;

fn raw(name: &str, value: &str) -> (String, Vec<u8>) {
    (name.to_string(), value.as_bytes().to_vec())
}

fn inbound(method: &str, path: &str, query: Option<&str>, body: &[u8]) -> InboundRequest {
    InboundRequest {
        method: method.to_string(),
        path: path.to_string(),
        query: query.map(|q| q.to_string()),
        headers: vec![raw("host", "localhost:9000"), raw("accept", "*/*")],
        body: body.to_vec(),
    }
}

fn gzip_raw(content: &[u8]) -> Vec<u8> {
    let mut enc = GzEncoder::new(Vec::new(), Compression::default());
    enc.write_all(content).unwrap();
    enc.finish().unwrap()
}

fn gzip(text: &str) -> Vec<u8> {
    gzip_raw(text.as_bytes())
}

fn reply(status: u16, headers: Vec<(String, Vec<u8>)>, body: &[u8]) -> UpstreamReply {
    UpstreamReply { status, headers, body: body.to_vec() }
}

#[test]
fn hop_headers_are_stripped_in_order() {
    let headers = vec![
        raw("accept", "a"),
        raw("host", "h"),
        raw("x-dup", "1"),
        raw("content-length", "5"),
        raw("x-dup", "2"),
    ];
    let kept = forwarded_headers(&headers);
    assert_eq!(kept, vec![raw("accept", "a"), raw("x-dup", "1"), raw("x-dup", "2")]);
}

#[test]
fn target_takes_path_and_query() {
    let out = plan_forward("https://example.test", inbound("GET", "/get", None, b"")).unwrap();
    assert_eq!(out.uri, "https://example.test/get");
    assert_eq!(out.method, "GET");
    assert_eq!(out.headers, vec![raw("accept", "*/*")]);

    let out = plan_forward("http://example.test:8080/base", inbound("POST", "/search", Some("q=1&r=2"), b"{\"name\":\"test\"}")).unwrap();
    assert_eq!(out.uri, "http://example.test:8080/search?q=1&r=2");
    assert_eq!(out.body, b"{\"name\":\"test\"}".to_vec());
}

#[test]
fn invalid_base_is_rejected() {
    let r = plan_forward("not a url", inbound("GET", "/get", None, b""));
    assert_eq!(r.err(), Some(ForwardError::InvalidTarget));
}

#[test]
fn header_values_must_be_text() {
    assert!(value_is_text(&b"text/html; q=0.9\t".to_vec()));
    assert!(!value_is_text(&vec![0x68, 0x80]));
    assert!(!value_is_text(&vec![0x7f]));
    let t = text_headers(&vec![raw("a", "x"), raw("b", "y")]).unwrap();
    assert_eq!(t, vec![("a".to_string(), "x".to_string()), ("b".to_string(), "y".to_string())]);
    assert!(text_headers(&vec![raw("a", "x"), ("b".to_string(), vec![0xff])]).is_none());
}

#[test]
fn gzip_is_decided_by_the_first_content_encoding() {
    assert!(is_gzip_encoded(&vec![raw("content-encoding", "gzip")]));
    assert!(!is_gzip_encoded(&vec![raw("content-encoding", "GZIP")]));
    assert!(!is_gzip_encoded(&vec![raw("content-encoding", "br"), raw("content-encoding", "gzip")]));
    assert!(is_gzip_encoded(&vec![raw("x", "gzip"), raw("content-encoding", "gzip"), raw("content-encoding", "br")]));
    assert!(!is_gzip_encoded(&vec![]));
}

#[test]
fn display_body_decodes_for_display_only() {
    let packed = gzip("{\"ok\":true}");
    let shown = display_body(&vec![raw("content-encoding", "gzip")], &packed).unwrap();
    assert_eq!(shown, "{\"ok\":true}");
    let plain = display_body(&vec![], &vec![0x66, 0xff, 0x6f]).unwrap();
    assert_eq!(plain, "f\u{FFFD}o");
    assert!(display_body(&vec![raw("content-encoding", "gzip")], &vec![1, 2, 3]).is_none());
}

#[test]
fn record_errors_name_their_cause() {
    let out = OutboundRequest {
        method: "GET".to_string(),
        uri: "https://example.test/get".to_string(),
        headers: vec![("x-bin".to_string(), vec![0x01])],
        body: vec![],
    };
    let ok_reply = reply(200, vec![], b"x");
    assert_eq!(record_exchange(&out, &ok_reply, 1).err(), Some(ForwardError::HeaderNotText));

    let out = OutboundRequest { headers: vec![], ..out };
    let bad_gzip = reply(200, vec![raw("content-encoding", "gzip")], b"not gzip");
    assert_eq!(record_exchange(&out, &bad_gzip, 1).err(), Some(ForwardError::DecodeFailure));

    let bad_reply_header = reply(200, vec![("x".to_string(), vec![0xc3, 0xa9])], b"x");
    assert_eq!(record_exchange(&out, &bad_reply_header, 1).err(), Some(ForwardError::HeaderNotText));
}

#[test]
fn gzip_reply_is_returned_compressed_and_stored_decompressed() {
    let mut store = HistoryStore::new();
    let hub = Hub::new();
    let out = plan_forward("https://example.test", inbound("GET", "/gz", None, b"")).unwrap();
    let packed = gzip("plain text");
    let upstream = reply(200, vec![raw("content-encoding", "gzip")], &packed);
    let back = finish_exchange(&mut store, &hub, &out, upstream, 3).unwrap();
    assert_eq!(back.body, packed);
    assert_eq!(back.headers, vec![raw("content-encoding", "gzip")]);
    let snap = store.snapshot();
    assert_eq!(snap[0].response_body, "plain text");
    assert_eq!(snap[0].response_headers, vec![("content-encoding".to_string(), "gzip".to_string())]);
}

#[test]
fn get_through_proxy_is_logged_once() {
    let mut store = HistoryStore::new();
    let hub = Hub::new();
    let mut live = hub.subscribe();
    let before = store.len();
    let out = plan_forward("https://example.test", inbound("GET", "/get", None, b"")).unwrap();
    let upstream = reply(200, vec![raw("content-type", "application/json")], b"{\"ok\":true}");
    let back = finish_exchange(&mut store, &hub, &out, upstream, 12).unwrap();
    assert_eq!(back.status, 200);
    assert_eq!(back.body, b"{\"ok\":true}".to_vec());
    assert_eq!(store.len(), before + 1);
    let rec = &store.snapshot()[0];
    assert_eq!(rec.method, "GET");
    assert_eq!(rec.uri, "https://example.test/get");
    assert_eq!(rec.response_status, 200);
    assert_eq!(rec.response_body, "{\"ok\":true}");
    assert_eq!(rec.headers, vec![("accept".to_string(), "*/*".to_string())]);
    assert_eq!(rec.response_time, 12);
    assert_eq!(live.try_recv().unwrap(), rec.clone());
}

#[test]
fn failed_record_leaves_history_unchanged() {
    let mut store = HistoryStore::new();
    let hub = Hub::new();
    let out = plan_forward("https://example.test", inbound("GET", "/gz", None, b"")).unwrap();
    let upstream = reply(200, vec![raw("content-encoding", "gzip")], b"garbage");
    let r = finish_exchange(&mut store, &hub, &out, upstream, 1);
    assert_eq!(r.err(), Some(ForwardError::DecodeFailure));
    assert_eq!(store.len(), 0);
}

#[test]
fn hundred_and_five_requests_keep_the_last_hundred() {
    let mut store = HistoryStore::new();
    let hub = Hub::new();
    for n in 1..=105u32 {
        let path = format!("/req/{}", n);
        let out = plan_forward("https://example.test", inbound("GET", &path, None, b"")).unwrap();
        finish_exchange(&mut store, &hub, &out, reply(200, vec![], b"ok"), 1).unwrap();
    }
    let snap = store.snapshot();
    assert_eq!(snap.len(), 100);
    assert_eq!(snap[0].uri, "https://example.test/req/6");
    assert_eq!(snap[99].uri, "https://example.test/req/105");
}

#[test]
fn request_body_is_logged_lossily() {
    let out = plan_forward("https://example.test", inbound("POST", "/post", None, &[0x68, 0x69, 0xfe])).unwrap();
    let rec = record_exchange(&out, &reply(201, vec![], b""), 0).unwrap();
    assert_eq!(rec.body, "hi\u{FFFD}");
    assert_eq!(out.body, vec![0x68, 0x69, 0xfe]);
    assert_eq!(rec.response_status, 201);
}

#[test]
fn gzip_reply_with_non_utf8_content_is_shown_lossily() {
    let mut store = HistoryStore::new();
    let hub = Hub::new();
    let out = plan_forward("https://example.test", inbound("GET", "/latin1", None, b"")).unwrap();
    let packed = gzip_raw(&[0x63, 0x61, 0x66, 0xe9]);
    let upstream = reply(200, vec![raw("content-encoding", "gzip")], &packed);
    let back = finish_exchange(&mut store, &hub, &out, upstream, 2).unwrap();
    assert_eq!(back.body, packed);
    assert_eq!(store.snapshot()[0].response_body, "caf\u{FFFD}");
    let shown = display_body(&vec![raw("content-encoding", "gzip")], &packed).unwrap();
    assert_eq!(shown, "caf\u{FFFD}");
}
