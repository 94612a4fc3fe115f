//! Plain data describing a request being composed and a completed response,
//! together with the canonical token codec for the HTTP method set.

use vstd::prelude::*;

verus! {

/// The nine standard HTTP methods. The mapping to and from the network
/// collaborator's representation (the canonical token, e.g. `"GET"`) is total
/// and round-trips exactly: see [`encode_method`], [`decode_method`] and
/// [`lemma_method_round_trip`].
#[derive(Clone, Copy, PartialEq, Eq, Debug, Structural)]
pub enum Method {
    Get,
    Post,
    Put,
    Patch,
    Delete,
    Head,
    Options,
    Trace,
    Connect,
}

/// The canonical token of a method: what [`encode_method`] returns.
pub open spec fn method_token(m: Method) -> Seq<char> {
    match m {
        Method::Get => "GET"@,
        Method::Post => "POST"@,
        Method::Put => "PUT"@,
        Method::Patch => "PATCH"@,
        Method::Delete => "DELETE"@,
        Method::Head => "HEAD"@,
        Method::Options => "OPTIONS"@,
        Method::Trace => "TRACE"@,
        Method::Connect => "CONNECT"@,
    }
}

/// The method a token names, if any: what [`decode_method`] returns.
pub open spec fn method_of_token(s: Seq<char>) -> Option<Method> {
    if s == "GET"@ {
        Some(Method::Get)
    } else if s == "POST"@ {
        Some(Method::Post)
    } else if s == "PUT"@ {
        Some(Method::Put)
    } else if s == "PATCH"@ {
        Some(Method::Patch)
    } else if s == "DELETE"@ {
        Some(Method::Delete)
    } else if s == "HEAD"@ {
        Some(Method::Head)
    } else if s == "OPTIONS"@ {
        Some(Method::Options)
    } else if s == "TRACE"@ {
        Some(Method::Trace)
    } else if s == "CONNECT"@ {
        Some(Method::Connect)
    } else {
        None
    }
}

/// Encode a method as its canonical token.
pub fn encode_method(m: Method) -> (r: String)
    ensures
        r@ == method_token(m),
{
    match m {
        Method::Get => "GET".to_owned(),
        Method::Post => "POST".to_owned(),
        Method::Put => "PUT".to_owned(),
        Method::Patch => "PATCH".to_owned(),
        Method::Delete => "DELETE".to_owned(),
        Method::Head => "HEAD".to_owned(),
        Method::Options => "OPTIONS".to_owned(),
        Method::Trace => "TRACE".to_owned(),
        Method::Connect => "CONNECT".to_owned(),
    }
}

/// Decode a canonical token back into a method; any other string is refused.
pub fn decode_method(s: &String) -> (r: Option<Method>)
    ensures
        r == method_of_token(s@),
{
    if *s == "GET".to_owned() {
        Some(Method::Get)
    } else if *s == "POST".to_owned() {
        Some(Method::Post)
    } else if *s == "PUT".to_owned() {
        Some(Method::Put)
    } else if *s == "PATCH".to_owned() {
        Some(Method::Patch)
    } else if *s == "DELETE".to_owned() {
        Some(Method::Delete)
    } else if *s == "HEAD".to_owned() {
        Some(Method::Head)
    } else if *s == "OPTIONS".to_owned() {
        Some(Method::Options)
    } else if *s == "TRACE".to_owned() {
        Some(Method::Trace)
    } else if *s == "CONNECT".to_owned() {
        Some(Method::Connect)
    } else {
        None
    }
}

/// The method set round-trips through its token representation: decoding the
/// encoding of any method yields that method again.
pub proof fn lemma_method_round_trip(m: Method)
    ensures
        method_of_token(method_token(m)) == Some(m),
{
    reveal_strlit("GET");
    reveal_strlit("POST");
    reveal_strlit("PUT");
    reveal_strlit("PATCH");
    reveal_strlit("DELETE");
    reveal_strlit("HEAD");
    reveal_strlit("OPTIONS");
    reveal_strlit("TRACE");
    reveal_strlit("CONNECT");
    assert("GET"@.len() == 3);
    assert("POST"@.len() == 4);
    assert("PUT"@.len() == 3);
    assert("PATCH"@.len() == 5);
    assert("DELETE"@.len() == 6);
    assert("HEAD"@.len() == 4);
    assert("OPTIONS"@.len() == 7);
    assert("TRACE"@.len() == 5);
    assert("CONNECT"@.len() == 7);
    assert("GET"@[0] == 'G');
    assert("PUT"@[0] == 'P');
    assert("POST"@[0] == 'P');
    assert("HEAD"@[0] == 'H');
    assert("PATCH"@[0] == 'P');
    assert("TRACE"@[0] == 'T');
    assert("OPTIONS"@[0] == 'O');
    assert("CONNECT"@[0] == 'C');
}

/// The kind of body attached to a request. The body editor collaborator owns
/// the payloads themselves; the dispatcher does not yet wire the body into
/// the outgoing call, so only the tag is kept here.
#[derive(Clone, Copy, PartialEq, Eq, Debug, Structural)]
pub enum RequestBody {
    NoBody,
    Text,
    Json,
    FormEncoded,
    RawBytes,
}

/// The label under which a body kind is offered for selection.
pub open spec fn body_token(b: RequestBody) -> Seq<char> {
    match b {
        RequestBody::NoBody => "None"@,
        RequestBody::Text => "Text"@,
        RequestBody::Json => "JSON"@,
        RequestBody::FormEncoded => "Form"@,
        RequestBody::RawBytes => "Raw"@,
    }
}

/// The body kind a label names, if any.
pub open spec fn body_of_token(s: Seq<char>) -> Option<RequestBody> {
    if s == "None"@ {
        Some(RequestBody::NoBody)
    } else if s == "Text"@ {
        Some(RequestBody::Text)
    } else if s == "JSON"@ {
        Some(RequestBody::Json)
    } else if s == "Form"@ {
        Some(RequestBody::FormEncoded)
    } else if s == "Raw"@ {
        Some(RequestBody::RawBytes)
    } else {
        None
    }
}

/// Encode a body kind as its selection label.
pub fn encode_body(b: RequestBody) -> (r: String)
    ensures
        r@ == body_token(b),
{
    match b {
        RequestBody::NoBody => "None".to_owned(),
        RequestBody::Text => "Text".to_owned(),
        RequestBody::Json => "JSON".to_owned(),
        RequestBody::FormEncoded => "Form".to_owned(),
        RequestBody::RawBytes => "Raw".to_owned(),
    }
}

/// Decode a selection label back into a body kind; any other string is
/// refused.
pub fn decode_body(s: &String) -> (r: Option<RequestBody>)
    ensures
        r == body_of_token(s@),
{
    if *s == "None".to_owned() {
        Some(RequestBody::NoBody)
    } else if *s == "Text".to_owned() {
        Some(RequestBody::Text)
    } else if *s == "JSON".to_owned() {
        Some(RequestBody::Json)
    } else if *s == "Form".to_owned() {
        Some(RequestBody::FormEncoded)
    } else if *s == "Raw".to_owned() {
        Some(RequestBody::RawBytes)
    } else {
        None
    }
}

/// The body kinds round-trip through their selection labels.
pub proof fn lemma_body_round_trip(b: RequestBody)
    ensures
        body_of_token(body_token(b)) == Some(b),
{
    reveal_strlit("None");
    reveal_strlit("Text");
    reveal_strlit("JSON");
    reveal_strlit("Form");
    reveal_strlit("Raw");
    assert("None"@.len() == 4);
    assert("Text"@.len() == 4);
    assert("JSON"@.len() == 4);
    assert("Form"@.len() == 4);
    assert("Raw"@.len() == 3);
    assert("None"@[0] == 'N');
    assert("Text"@[0] == 'T');
    assert("JSON"@[0] == 'J');
    assert("Form"@[0] == 'F');
}

/// One key/value pair of the query parameters or of the request headers.
#[derive(Clone, Debug, PartialEq, Eq)]
pub struct Pair {
    pub key: String,
    pub value: String,
}

/// A request being composed. Mutated only by the interactive thread; the
/// dispatcher works on a snapshot of it.
#[derive(Clone, Debug)]
pub struct Request {
    pub method: Method,
    pub url: String,
    pub params: Vec<Pair>,
    pub headers: Vec<Pair>,
    pub body: RequestBody,
}

impl Request {
    /// A blank request: GET with an empty URL, no params, no headers, no
    /// body.
    pub fn new() -> (r: Request)
        ensures
            r.method == Method::Get,
            r.url@ == Seq::<char>::empty(),
            r.params@ == Seq::<Pair>::empty(),
            r.headers@ == Seq::<Pair>::empty(),
            r.body == RequestBody::NoBody,
    {
        Request {
            method: Method::Get,
            url: String::new(),
            params: Vec::new(),
            headers: Vec::new(),
            body: RequestBody::NoBody,
        }
    }

    /// Switch the body kind to the one the given selection label names; an
    /// unknown label leaves the request untouched. Reports whether the label
    /// was recognised.
    pub fn select_body(&mut self, label: &String) -> (changed: bool)
        ensures
            body_of_token(label@) matches Some(b) ==> {
                &&& changed
                &&& final(self).body == b
                &&& final(self).method == old(self).method
                &&& final(self).url == old(self).url
                &&& final(self).params == old(self).params
                &&& final(self).headers == old(self).headers
            },
            body_of_token(label@) is None ==> !changed && *final(self) == *old(self),
    {
        match decode_body(label) {
            Some(b) => {
                self.body = b;
                true
            },
            None => false,
        }
    }
}

/// The value of one response header: its text if every byte is visible
/// ASCII, otherwise the raw bytes.
#[derive(Clone, Debug, PartialEq, Eq)]
pub enum HeaderValue {
    Text(String),
    Bytes(Vec<u8>),
}

/// One response header.
#[derive(Clone, Debug, PartialEq, Eq)]
pub struct Header {
    pub name: String,
    pub value: HeaderValue,
}

/// Whether a byte may appear in the text form of a header value: the visible
/// ASCII range, with horizontal tab. This is the rule the wire format's
/// header type applies before handing a value out as a string.
pub open spec fn is_visible_ascii(b: u8) -> bool {
    b == 9 || (32 <= b && b < 127)
}

/// Whether every byte of a header value is visible ASCII.
pub open spec fn all_visible_ascii(s: Seq<u8>) -> bool {
    forall|i: int| 0 <= i < s.len() ==> is_visible_ascii(#[trigger] s[i])
}

/// The characters that a sequence of ASCII bytes spells.
pub open spec fn ascii_chars_of(s: Seq<u8>) -> Seq<char> {
    s.map_values(|b: u8| b as char)
}

/// Relies on `String::from_utf8`: bytes below 128 are valid UTF-8 and decode
/// to the characters with the same code points.
#[verifier::external_body]
fn ascii_to_string(bytes: Vec<u8>) -> (r: String)
    requires
        forall|i: int| 0 <= i < bytes@.len() ==> #[trigger] bytes@[i] < 128,
    ensures
        r@ == ascii_chars_of(bytes@),
{
    match String::from_utf8(bytes) {
        Ok(s) => s,
        Err(_) => String::new(),
    }
}

/// Whether a decoded header value is the one the bytes call for: their text
/// when every byte is visible ASCII, the raw bytes otherwise.
pub open spec fn is_decoded_value(v: HeaderValue, bytes: Seq<u8>) -> bool {
    if all_visible_ascii(bytes) {
        v matches HeaderValue::Text(s) && s@ == ascii_chars_of(bytes)
    } else {
        v matches HeaderValue::Bytes(b) && b@ == bytes
    }
}

/// Decode one raw header value: text if every byte is visible ASCII, raw
/// bytes otherwise.
pub fn decode_header_value(bytes: Vec<u8>) -> (r: HeaderValue)
    ensures
        is_decoded_value(r, bytes@),
{
    let mut i: usize = 0;
    while i < bytes.len()
        invariant
            i <= bytes@.len(),
            forall|j: int| 0 <= j < i ==> is_visible_ascii(#[trigger] bytes@[j]),
        decreases bytes@.len() - i,
    {
        let b = bytes[i];
        if !(b == 9 || (32 <= b && b < 127)) {
            return HeaderValue::Bytes(bytes);
        }
        i += 1;
    }
    HeaderValue::Text(ascii_to_string(bytes))
}

/// Whether a decoded header list matches the raw name/value pairs
/// element-wise.
pub open spec fn are_decoded_headers(hs: Seq<Header>, raw: Seq<(String, Seq<u8>)>) -> bool {
    &&& hs.len() == raw.len()
    &&& forall|i: int|
        0 <= i < raw.len() ==> {
            &&& (#[trigger] hs[i]).name@ == raw[i].0@
            &&& is_decoded_value(hs[i].value, raw[i].1)
        }
}

/// Decode a list of raw header name/value pairs, in order.
pub fn decode_headers(raw: Vec<(String, Vec<u8>)>) -> (r: Vec<Header>)
    ensures
        are_decoded_headers(r@, raw@.map_values(|p: (String, Vec<u8>)| (p.0, p.1@))),
{
    let ghost model = raw@.map_values(|p: (String, Vec<u8>)| (p.0, p.1@));
    let mut out: Vec<Header> = Vec::new();
    let mut rest = raw;
    let ghost done: int = 0;
    while rest.len() > 0
        invariant
            done == model.len() - rest@.len(),
            0 <= done <= model.len(),
            forall|i: int| 0 <= i < rest@.len() ==> #[trigger] rest@[i] == raw@[done + i],
            model == raw@.map_values(|p: (String, Vec<u8>)| (p.0, p.1@)),
            out@.len() == done,
            forall|i: int|
                0 <= i < done ==> {
                    &&& (#[trigger] out@[i]).name@ == model[i].0@
                    &&& is_decoded_value(out@[i].value, model[i].1)
                },
        decreases rest@.len(),
    {
        let pair = rest.remove(0);
        let value = decode_header_value(pair.1);
        out.push(Header { name: pair.0, value });
        proof {
            done = done + 1;
        }
    }
    out
}

/// A completed response. Timestamps are milliseconds; the duration of the
/// call is `end - start`.
#[derive(Clone, Debug, PartialEq, Eq)]
pub struct Response {
    pub status: u16,
    pub content_length: Option<u64>,
    pub start: i64,
    pub end: i64,
    pub text: String,
    pub headers: Vec<Header>,
}

impl Response {
    /// How long the call took, in milliseconds.
    pub fn duration_millis(&self) -> (r: i64)
        requires
            i64::MIN <= self.end - self.start <= i64::MAX,
        ensures
            r == self.end - self.start,
    {
        self.end - self.start
    }
}

/// Assemble a completed response from the raw values the executed call
/// exposed: every field is carried over as given, and the raw headers are
/// decoded in order.
pub fn assemble_response(
    status: u16,
    content_length: Option<u64>,
    start: i64,
    end: i64,
    text: String,
    raw_headers: Vec<(String, Vec<u8>)>,
) -> (r: Response)
    ensures
        r.status == status,
        r.content_length == content_length,
        r.start == start,
        r.end == end,
        r.text == text,
        are_decoded_headers(
            r.headers@,
            raw_headers@.map_values(|p: (String, Vec<u8>)| (p.0, p.1@)),
        ),
{
    let headers = decode_headers(raw_headers);
    Response { status, content_length, start, end, text, headers }
}

/// Why a dispatch or an execution failed: a single human-readable message.
#[derive(Clone, Debug, PartialEq, Eq)]
pub struct ResponseError(pub String);

} // verus!
