use std::io::Read;
use vstd::prelude::*;

use crate::entry::{pairs_view, EntryView, LogEntry};

verus! {

/// A header as it travels: its name as text, its value as raw bytes.
pub type RawHeader = (String, Vec<u8>);

/// Why a forward could not be completed.
#[derive(Clone, Copy, Debug, PartialEq, Eq)]
pub enum ForwardError {
    /// The base URL and the inbound path and query form no valid URL.
    InvalidTarget,
    /// The base URL, path or query is longer than `MAX_TARGET_PART` bytes.
    TargetTooLong,
    /// A request or response header value holds bytes that are not visible ASCII.
    HeaderNotText,
    /// The response declares gzip encoding but is not a valid gzip stream.
    DecodeFailure,
}

/// The longest base URL, path or query, in bytes, that a target is built from.
pub const MAX_TARGET_PART: usize = 0x0400_0000;

/// A request as it reached the proxy.
pub struct InboundRequest {
    pub method: String,
    pub path: String,
    pub query: Option<String>,
    pub headers: Vec<RawHeader>,
    pub body: Vec<u8>,
}

/// The request that is sent upstream.
pub struct OutboundRequest {
    pub method: String,
    pub uri: String,
    pub headers: Vec<RawHeader>,
    pub body: Vec<u8>,
}

/// What the upstream answered, with its body fully received.
pub struct UpstreamReply {
    pub status: u16,
    pub headers: Vec<RawHeader>,
    pub body: Vec<u8>,
}

/// The text URL made of a base URL with its path and query replaced.
pub uninterp spec fn rebased_uri(
    base: Seq<char>,
    path: Seq<char>,
    query: Option<Seq<char>>,
) -> Option<Seq<char>>;

/// The bytes that a gzip stream decompresses to, if the stream is valid.
pub uninterp spec fn gunzip_bytes(b: Seq<u8>) -> Option<Seq<u8>>;

/// Bytes read as UTF-8, each invalid sequence replaced by U+FFFD.
pub uninterp spec fn utf8_lossy(b: Seq<u8>) -> Seq<char>;

/// The text of an optional string.
pub open spec fn opt_text(r: Option<String>) -> Option<Seq<char>> {
    match r {
        Some(s) => Some(s@),
        None => None,
    }
}

/// The bytes of an optional byte vector.
pub open spec fn opt_bytes(r: Option<Vec<u8>>) -> Option<Seq<u8>> {
    match r {
        Some(v) => Some(v@),
        None => None,
    }
}

/// The text of an optional string slice.
pub open spec fn opt_str(q: Option<&str>) -> Option<Seq<char>> {
    match q {
        Some(s) => Some(s@),
        None => None,
    }
}

/// Each byte read as the character of the same code.
pub open spec fn ascii_text(b: Seq<u8>) -> Seq<char> {
    b.map_values(|c: u8| c as char)
}

/// Relies on `url::Url::parse`, `Url::set_path`, `Url::set_query` and the
/// URL's serialization: the result depends on the three texts alone. Each
/// part is bounded so that the serialization stays within `u32` offsets,
/// which `set_path` and `set_query` assert.
#[verifier::external_body]
fn rebase(base: &str, path: &str, query: Option<&str>) -> (r: Option<String>)
    requires
        base.len() <= MAX_TARGET_PART,
        path.len() <= MAX_TARGET_PART,
        query matches Some(q) ==> q.len() <= MAX_TARGET_PART,
    ensures
        opt_text(r) == rebased_uri(base@, path@, opt_str(query)),
{
    match url::Url::parse(base) {
        Ok(mut u) => {
            u.set_path(path);
            u.set_query(query);
            Some(u.into())
        },
        Err(_) => None,
    }
}

/// Relies on `flate2::read::GzDecoder` read to the end into bytes: the
/// decompressed content, or nothing when the stream is corrupt.
#[verifier::external_body]
fn gunzip(b: &[u8]) -> (r: Option<Vec<u8>>)
    ensures
        opt_bytes(r) == gunzip_bytes(b@),
{
    let mut bytes = Vec::new();
    match flate2::read::GzDecoder::new(b).read_to_end(&mut bytes) {
        Ok(_) => Some(bytes),
        Err(_) => None,
    }
}

/// Relies on `String::from_utf8_lossy`; ASCII bytes are valid UTF-8 and
/// come back as the same characters.
#[verifier::external_body]
fn lossy_text(b: &[u8]) -> (r: String)
    ensures
        r@ == utf8_lossy(b@),
        (forall|i: int| 0 <= i < b@.len() ==> b@[i] < 128) ==> r@ == ascii_text(b@),
{
    String::from_utf8_lossy(b).into_owned()
}

/// The name and value bytes of each header, in order.
pub open spec fn raw_view(h: Seq<RawHeader>) -> Seq<(Seq<char>, Seq<u8>)> {
    h.map_values(|p: RawHeader| (p.0@, p.1@))
}

/// Headers that the transport recomputes and that are therefore not forwarded.
pub open spec fn is_hop_header(name: Seq<char>) -> bool {
    name == "host"@ || name == "content-length"@
}

/// The headers that are forwarded: all but the hop headers, in order.
pub open spec fn kept_headers(h: Seq<(Seq<char>, Seq<u8>)>) -> Seq<(Seq<char>, Seq<u8>)>
    decreases h.len(),
{
    if h.len() == 0 {
        Seq::empty()
    } else {
        let front = kept_headers(h.drop_last());
        if is_hop_header(h.last().0) {
            front
        } else {
            front.push(h.last())
        }
    }
}

/// A byte that a header value may hold to be read as text.
pub open spec fn is_visible_ascii(b: u8) -> bool {
    (32 <= b && b < 127) || b == 9
}

/// A header value made of visible ASCII bytes only.
pub open spec fn is_text_value(v: Seq<u8>) -> bool {
    forall|j: int| 0 <= j < v.len() ==> is_visible_ascii(#[trigger] v[j])
}

/// Every header value can be read as text.
pub open spec fn all_text(h: Seq<(Seq<char>, Seq<u8>)>) -> bool {
    forall|i: int| 0 <= i < h.len() ==> is_text_value(#[trigger] h[i].1)
}

/// The headers with their values read as text.
pub open spec fn headers_text(h: Seq<(Seq<char>, Seq<u8>)>) -> Seq<(Seq<char>, Seq<char>)> {
    h.map_values(|p: (Seq<char>, Seq<u8>)| (p.0, ascii_text(p.1)))
}

/// The bytes of `gzip`.
pub open spec fn gzip_token() -> Seq<u8> {
    seq![103u8, 122u8, 105u8, 112u8]
}

/// The first `content-encoding` header of `h` says `gzip`.
pub open spec fn declares_gzip(h: Seq<(Seq<char>, Seq<u8>)>) -> bool {
    exists|i: int|
        0 <= i < h.len() && #[trigger] h[i].0 == "content-encoding"@ && h[i].1 == gzip_token()
            && forall|j: int| 0 <= j < i ==> h[j].0 != "content-encoding"@
}

/// The response body as it is stored and shown: read as lossy UTF-8, after
/// decompression when gzip is declared; nothing when that stream is corrupt.
pub open spec fn display_text(h: Seq<(Seq<char>, Seq<u8>)>, body: Seq<u8>) -> Option<Seq<char>> {
    if declares_gzip(h) {
        match gunzip_bytes(body) {
            Some(d) => Some(utf8_lossy(d)),
            None => None,
        }
    } else {
        Some(utf8_lossy(body))
    }
}

/// The headers that go upstream, without `host` and `content-length`.
pub fn forwarded_headers(headers: &Vec<RawHeader>) -> (r: Vec<RawHeader>)
    ensures
        raw_view(r@) == kept_headers(raw_view(headers@)),
{
    let host = "host".to_owned();
    let content_length = "content-length".to_owned();
    let mut r: Vec<RawHeader> = Vec::new();
    let mut i: usize = 0;
    while i < headers.len()
        invariant
            i <= headers@.len(),
            host@ == "host"@,
            content_length@ == "content-length"@,
            raw_view(r@) == kept_headers(raw_view(headers@).subrange(0, i as int)),
        decreases headers@.len() - i,
    {
        let ghost before = r@;
        let name = &headers[i].0;
        if !(*name == host) && !(*name == content_length) {
            r.push((name.clone(), headers[i].1.clone()));
            assert(raw_view(r@) =~= raw_view(before).push(raw_view(headers@)[i as int]));
        }
        assert(raw_view(headers@).subrange(0, i + 1).drop_last()
            =~= raw_view(headers@).subrange(0, i as int));
        i = i + 1;
    }
    assert(raw_view(headers@).subrange(0, i as int) =~= raw_view(headers@));
    r
}

/// Whether a header value can be read as text.
pub fn value_is_text(v: &Vec<u8>) -> (r: bool)
    ensures
        r == is_text_value(v@),
{
    let mut i: usize = 0;
    while i < v.len()
        invariant
            i <= v@.len(),
            forall|j: int| 0 <= j < i ==> is_visible_ascii(#[trigger] v@[j]),
        decreases v@.len() - i,
    {
        let b = v[i];
        if !((32 <= b && b < 127) || b == 9) {
            return false;
        }
        i = i + 1;
    }
    true
}

/// The headers with their values as text, or `None` when a value is not text.
pub fn text_headers(headers: &Vec<RawHeader>) -> (r: Option<Vec<(String, String)>>)
    ensures
        r is Some <==> all_text(raw_view(headers@)),
        r matches Some(t) ==> pairs_view(t@) == headers_text(raw_view(headers@)),
{
    let mut t: Vec<(String, String)> = Vec::new();
    let mut i: usize = 0;
    while i < headers.len()
        invariant
            i <= headers@.len(),
            t@.len() == i,
            forall|k: int| 0 <= k < i ==> is_text_value(#[trigger] raw_view(headers@)[k].1),
            forall|k: int|
                0 <= k < i ==> (#[trigger] t@[k]).0@ == headers@[k].0@ && t@[k].1@ == ascii_text(
                    headers@[k].1@,
                ),
        decreases headers@.len() - i,
    {
        if !value_is_text(&headers[i].1) {
            assert(!is_text_value(raw_view(headers@)[i as int].1));
            return None;
        }
        let value = lossy_text(headers[i].1.as_slice());
        t.push((headers[i].0.clone(), value));
        i = i + 1;
    }
    assert(pairs_view(t@) =~= headers_text(raw_view(headers@)));
    Some(t)
}

/// Whether the first `content-encoding` header says `gzip`, byte for byte.
pub fn is_gzip_encoded(headers: &Vec<RawHeader>) -> (r: bool)
    ensures
        r == declares_gzip(raw_view(headers@)),
{
    let name = "content-encoding".to_owned();
    let ghost h = raw_view(headers@);
    let mut i: usize = 0;
    while i < headers.len()
        invariant
            i <= headers@.len(),
            h == raw_view(headers@),
            name@ == "content-encoding"@,
            forall|j: int| 0 <= j < i ==> (#[trigger] h[j]).0 != "content-encoding"@,
        decreases headers@.len() - i,
    {
        if headers[i].0 == name {
            let v = &headers[i].1;
            let r = v.len() == 4 && v[0] == 103u8 && v[1] == 122u8 && v[2] == 105u8 && v[3]
                == 112u8;
            proof {
                assert(h[i as int].1 == v@);
                if r {
                    assert(h[i as int].1 =~= gzip_token());
                } else {
                    assert(!declares_gzip(h)) by {
                        if declares_gzip(h) {
                            let k = choose|k: int|
                                0 <= k < h.len() && #[trigger] h[k].0 == "content-encoding"@
                                    && h[k].1 == gzip_token() && forall|j: int|
                                    0 <= j < k ==> h[j].0 != "content-encoding"@;
                            if k == i {
                                assert(v@[0] == 103u8 && v@[1] == 122u8);
                                assert(v@[2] == 105u8 && v@[3] == 112u8);
                            } else if k > i {
                                assert(h[i as int].0 == "content-encoding"@);
                            }
                        }
                    }
                }
            }
            return r;
        }
        i = i + 1;
    }
    false
}

/// The response body as it is stored and shown; `None` when gzip is declared
/// and the body is not a valid gzip stream.
pub fn display_body(headers: &Vec<RawHeader>, body: &Vec<u8>) -> (r: Option<String>)
    ensures
        opt_text(r) == display_text(raw_view(headers@), body@),
{
    if is_gzip_encoded(headers) {
        match gunzip(body.as_slice()) {
            Some(d) => Some(lossy_text(d.as_slice())),
            None => None,
        }
    } else {
        Some(lossy_text(body.as_slice()))
    }
}

/// The length of a text in UTF-8 bytes, as `str::len` reports it.
pub open spec fn byte_len(s: Seq<char>) -> usize {
    vstd::utf8::encode_utf8(s).len() as usize
}

/// A part of the target is too long to be rebased safely.
pub open spec fn target_too_long(base: Seq<char>, req: InboundRequest) -> bool {
    byte_len(base) > MAX_TARGET_PART || byte_len(req.path@) > MAX_TARGET_PART
        || match req.query {
        Some(q) => byte_len(q@) > MAX_TARGET_PART,
        None => false,
    }
}

/// Builds the request sent upstream: the base URL's scheme, host and port
/// with the inbound path and query, the inbound method and body unchanged,
/// and every inbound header but `host` and `content-length`.
pub fn plan_forward(base: &str, req: InboundRequest) -> (r: Result<OutboundRequest, ForwardError>)
    ensures
        r is Err <==> (target_too_long(base@, req) || rebased_uri(
            base@,
            req.path@,
            opt_text(req.query),
        ) is None),
        r matches Err(e) ==> (if target_too_long(base@, req) {
            e == ForwardError::TargetTooLong
        } else {
            e == ForwardError::InvalidTarget
        }),
        r matches Ok(out) ==> {
            &&& rebased_uri(base@, req.path@, opt_text(req.query)) == Some(out.uri@)
            &&& out.method@ == req.method@
            &&& raw_view(out.headers@) == kept_headers(raw_view(req.headers@))
            &&& out.body@ == req.body@
        },
{
    let query: Option<&str> = match &req.query {
        Some(q) => Some(q.as_str()),
        None => None,
    };
    let query_long = match query {
        Some(q) => q.len() > MAX_TARGET_PART,
        None => false,
    };
    if base.len() > MAX_TARGET_PART || req.path.as_str().len() > MAX_TARGET_PART || query_long {
        return Err(ForwardError::TargetTooLong);
    }
    assert(opt_str(query) == opt_text(req.query));
    match rebase(base, req.path.as_str(), query) {
        None => Err(ForwardError::InvalidTarget),
        Some(uri) => {
            let headers = forwarded_headers(&req.headers);
            Ok(OutboundRequest { method: req.method, uri, headers, body: req.body })
        },
    }
}

/// The record of an exchange whose headers are text and whose body decodes.
pub open spec fn exchange_view(out: OutboundRequest, reply: UpstreamReply, elapsed_ms: u128) -> EntryView {
    EntryView {
        method: out.method@,
        uri: out.uri@,
        headers: headers_text(raw_view(out.headers@)),
        body: utf8_lossy(out.body@),
        response_status: reply.status,
        response_headers: headers_text(raw_view(reply.headers@)),
        response_body: display_text(raw_view(reply.headers@), reply.body@).unwrap(),
        response_time: elapsed_ms,
    }
}

/// Why an exchange cannot be recorded, if it cannot.
pub open spec fn exchange_error(out: OutboundRequest, reply: UpstreamReply) -> Option<ForwardError> {
    if !all_text(raw_view(out.headers@)) || !all_text(raw_view(reply.headers@)) {
        Some(ForwardError::HeaderNotText)
    } else if display_text(raw_view(reply.headers@), reply.body@) is None {
        Some(ForwardError::DecodeFailure)
    } else {
        None
    }
}

/// Builds the record of a completed exchange; the reply itself is not touched.
pub fn record_exchange(out: &OutboundRequest, reply: &UpstreamReply, elapsed_ms: u128) -> (r: Result<
    LogEntry,
    ForwardError,
>)
    ensures
        match r {
            Ok(e) => exchange_error(*out, *reply) is None && e@ == exchange_view(
                *out,
                *reply,
                elapsed_ms,
            ),
            Err(x) => exchange_error(*out, *reply) == Some(x),
        },
{
    let headers = match text_headers(&out.headers) {
        Some(h) => h,
        None => return Err(ForwardError::HeaderNotText),
    };
    let response_headers = match text_headers(&reply.headers) {
        Some(h) => h,
        None => return Err(ForwardError::HeaderNotText),
    };
    let response_body = match display_body(&reply.headers, &reply.body) {
        Some(b) => b,
        None => return Err(ForwardError::DecodeFailure),
    };
    Ok(LogEntry {
        method: out.method.clone(),
        uri: out.uri.clone(),
        headers,
        body: lossy_text(out.body.as_slice()),
        response_status: reply.status,
        response_headers,
        response_body,
        response_time: elapsed_ms,
    })
}

} // verus!
