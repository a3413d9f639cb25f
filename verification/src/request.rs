//! The request and the response as they cross between the server and a
//! tenant's script, and how they are made from what the server receives
//! and from what the script returns.

use vstd::prelude::*;
use vstd::utf8::*;
use crate::error::{AppError, EngineError, EngineErrorView};
use crate::fields::{map_of, TextMap};
use crate::method::Method;
use crate::route_index::pairs_view;
use crate::router::Match;

verus! {

/// The request that a handler is called with.
#[derive(Debug)]
pub struct Req {
    pub headers: TextMap,
    pub body: Option<String>,
    pub method: String,
    pub url: String,
    pub query: TextMap,
    pub params: TextMap,
}

/// The response that a handler returned.
#[derive(Debug)]
pub struct Res {
    pub headers: TextMap,
    pub body: Option<String>,
    pub status: u16,
}

/// What the server has of a request before its body: the method, the
/// target as it was written, the path of the target, and the headers in
/// the order of their arrival, each value as the bytes that came.
#[derive(Debug)]
pub struct RequestParts {
    pub method: Method,
    pub uri: String,
    pub path: String,
    pub headers: Vec<(String, Vec<u8>)>,
}

/// What was read from the value that a handler returned, field by field:
/// `None` stands for a field that is missing or has another type than the
/// one expected. The body may be left out, which is `Some(None)`.
#[derive(Debug)]
pub struct GuestResponse {
    pub headers: Option<Vec<(String, String)>>,
    pub body: Option<Option<String>>,
    pub status: Option<i32>,
}

/// A value that a script is given as a property of an object.
pub enum GuestField {
    /// A string.
    Text(Seq<char>),
    /// A string, or `undefined` where there is none.
    OptionalText(Option<Seq<char>>),
    /// An object, with what it has under each of its names.
    Object(Map<Seq<char>, GuestField>),
}

/// The properties of the object that a map of texts is handed over as: one
/// string under each name of the map.
pub open spec fn text_fields(map: Map<Seq<char>, Seq<char>>) -> Map<Seq<char>, GuestField> {
    Map::new(|name: Seq<char>| map.dom().contains(name), |name: Seq<char>| GuestField::Text(map[name]))
}

/// The text of an optional string.
pub open spec fn text_view(text: Option<String>) -> Option<Seq<char>> {
    match text {
        Some(t) => Some(t@),
        None => None,
    }
}

/// The fields that a handler is given for a request, each under its name:
/// every field of the request is among them, with all that it holds.
pub open spec fn request_fields(req: Req) -> Map<Seq<char>, GuestField> {
    Map::<Seq<char>, GuestField>::empty().insert(
        "headers"@,
        GuestField::Object(text_fields(req.headers@)),
    ).insert("body"@, GuestField::OptionalText(text_view(req.body))).insert(
        "method"@,
        GuestField::Text(req.method@),
    ).insert("url"@, GuestField::Text(req.url@)).insert(
        "query"@,
        GuestField::Object(text_fields(req.query@)),
    ).insert("params"@, GuestField::Object(text_fields(req.params@)))
}

/// A byte that may stand in the text of a header: printable ASCII or a tab.
pub open spec fn visible_ascii(byte: u8) -> bool {
    32 <= byte < 127 || byte == 9
}

/// The bytes as characters, one for one.
pub open spec fn ascii_text(bytes: Seq<u8>) -> Seq<char> {
    Seq::new(bytes.len(), |i: int| bytes[i] as char)
}

/// The text of a header value: its bytes as characters where all of them
/// are visible ASCII, and the empty text where one is not.
pub open spec fn header_text_of(value: Seq<u8>) -> Seq<char> {
    if forall|i: int| 0 <= i < value.len() ==> visible_ascii(#[trigger] value[i]) {
        ascii_text(value)
    } else {
        Seq::empty()
    }
}

/// The headers of a request as pairs of name and text.
pub open spec fn header_pairs(headers: Seq<(String, Vec<u8>)>) -> Seq<(Seq<char>, Seq<char>)> {
    Seq::new(headers.len(), |i: int| (headers[i].0@, header_text_of(headers[i].1@)))
}

/// The body of a request as text: none where no body came, where it is
/// empty, and where it is not UTF-8.
pub open spec fn body_text_of(body: Option<Vec<u8>>) -> Option<Seq<char>> {
    match body {
        None => None,
        Some(bytes) => if bytes@.len() == 0 || !valid_utf8(bytes@) {
            None
        } else {
            Some(decode_utf8(bytes@))
        },
    }
}

/// A status that an HTTP response can carry.
pub open spec fn valid_status(status: int) -> bool {
    100 <= status <= 999
}

/// The field of a handler's result that is the first to be missing or of
/// the wrong type, in the order in which the fields are read.
pub open spec fn malformed_field(raw: GuestResponse) -> Option<Seq<char>> {
    if raw.headers is None {
        Some("headers"@)
    } else if raw.body is None {
        Some("body"@)
    } else if raw.status is None || !valid_status(raw.status.unwrap() as int) {
        Some("status"@)
    } else {
        None
    }
}

/// `String::from_utf8`: the text that the bytes encode, where they are
/// valid UTF-8, and nothing where they are not.
#[verifier::external_body]
pub(crate) fn utf8_text(bytes: &Vec<u8>) -> (text: Option<String>)
    ensures
        text is Some == valid_utf8(bytes@),
        text is Some ==> text.unwrap()@ == decode_utf8(bytes@),
{
    String::from_utf8(bytes.clone()).ok()
}

/// Bytes of ASCII are valid UTF-8, and decode to themselves.
pub proof fn lemma_ascii_is_utf8(bytes: Seq<u8>)
    requires
        forall|i: int| 0 <= i < bytes.len() ==> #[trigger] bytes[i] < 128,
    ensures
        valid_utf8(bytes),
        decode_utf8(bytes) == ascii_text(bytes),
{
    let chars = ascii_text(bytes);
    assert(is_ascii_chars(chars)) by {
        assert forall|i: int| 0 <= i < chars.len() implies '\0' <= #[trigger] chars[i]
            <= '\u{7f}' by {
            assert(bytes[i] < 128);
        }
    }
    is_ascii_chars_encode_utf8(chars);
    assert(encode_utf8(chars) =~= bytes) by {
        assert forall|i: int| 0 <= i < bytes.len() implies encode_utf8(chars)[i] == bytes[i] by {
            assert(bytes[i] < 128);
            assert(chars[i] as u8 == bytes[i]);
        }
    }
    encode_utf8_valid_utf8(chars);
    encode_utf8_decode_utf8(chars);
}

/// The text of a header value.
pub fn header_text(value: &Vec<u8>) -> (text: String)
    ensures
        text@ == header_text_of(value@),
{
    let mut i: usize = 0;
    while i < value.len()
        invariant
            i <= value.len(),
            forall|k: int| 0 <= k < i ==> visible_ascii(#[trigger] value@[k]),
        decreases value.len() - i,
    {
        let byte = value[i];
        if !((32 <= byte && byte < 127) || byte == 9) {
            assert(!visible_ascii(value@[i as int]));
            return String::new();
        }
        i = i + 1;
    }
    proof {
        lemma_ascii_is_utf8(value@);
    }
    match utf8_text(value) {
        Some(text) => text,
        None => String::new(),
    }
}

/// The body of a request as text.
pub fn body_text(body: Option<Vec<u8>>) -> (text: Option<String>)
    ensures
        text_view(text) == body_text_of(body),
{
    match body {
        None => None,
        Some(bytes) => if bytes.len() == 0 {
            None
        } else {
            utf8_text(&bytes)
        },
    }
}

/// The request that the handler of a matched route is called with. Nothing
/// that came is dropped: the method and the target as they are, every
/// header under its name, the query as it was parsed, and the parameters
/// that the route captured. Where a name comes twice, the later value
/// stands. A header value that is not visible ASCII becomes the empty text;
/// a body that is empty or not UTF-8 counts as no body.
pub fn get_request_parts(
    parts: RequestParts,
    body: Option<Vec<u8>>,
    matched: Match,
    query: TextMap,
) -> (made: Result<Req, AppError>)
    ensures
        made matches Ok(req) && {
            &&& req.method@ == parts.method@.name()
            &&& req.url@ == parts.uri@
            &&& req.headers@ == map_of(header_pairs(parts.headers@))
            &&& req.params@ == map_of(matched.params@)
            &&& req.query@ == query@
            &&& text_view(req.body) == body_text_of(body)
        },
{
    let mut headers = TextMap::new();
    let mut i: usize = 0;
    while i < parts.headers.len()
        invariant
            i <= parts.headers.len(),
            headers@ == crate::fields::map_first(header_pairs(parts.headers@), i as nat),
        decreases parts.headers.len() - i,
    {
        headers.insert(parts.headers[i].0.clone(), header_text(&parts.headers[i].1));
        i = i + 1;
    }
    let params = TextMap::from_pairs(matched.params.into_pairs());
    Ok(
        Req {
            headers,
            body: body_text(body),
            method: parts.method.name(),
            url: parts.uri,
            query,
            params,
        },
    )
}

impl Res {
    /// The response that a handler's result stands for. Every field must
    /// be there with its type, and the status must be one that an HTTP
    /// response can carry: the first field that fails is reported by name,
    /// and nothing is filled in for it.
    pub fn from_guest(raw: GuestResponse) -> (made: Result<Res, EngineError>)
        ensures
            match malformed_field(raw) {
                Some(field) => made matches Err(error) && error@
                    == EngineErrorView::MalformedResponse(field),
                None => made matches Ok(res) && {
                    &&& res.status == raw.status.unwrap()
                    &&& res.headers@ == map_of(pairs_view(raw.headers.unwrap()@))
                    &&& text_view(res.body) == text_view(raw.body.unwrap())
                },
            },
    {
        let headers = match raw.headers {
            Some(pairs) => TextMap::from_pairs(pairs),
            None => {
                return Err(EngineError::MalformedResponse("headers".to_owned()));
            },
        };
        let body = match raw.body {
            Some(body) => body,
            None => {
                return Err(EngineError::MalformedResponse("body".to_owned()));
            },
        };
        match raw.status {
            Some(status) if 100 <= status && status <= 999 => Ok(
                Res { headers, body, status: status as u16 },
            ),
            _ => Err(EngineError::MalformedResponse("status".to_owned())),
        }
    }
}

/// A request in the making. The method and the target must be given before
/// the request is built; everything else starts out empty.
#[derive(Debug)]
pub struct ReqBuilder {
    pub headers: TextMap,
    pub body: Option<String>,
    pub method: Option<String>,
    pub url: Option<String>,
    pub query: TextMap,
    pub params: TextMap,
}

impl Req {
    /// A builder that has been given nothing yet.
    pub fn builder() -> (builder: ReqBuilder)
        ensures
            builder.headers@ == Map::<Seq<char>, Seq<char>>::empty(),
            builder.query@ == Map::<Seq<char>, Seq<char>>::empty(),
            builder.params@ == Map::<Seq<char>, Seq<char>>::empty(),
            builder.body is None,
            builder.method is None,
            builder.url is None,
    {
        ReqBuilder {
            headers: TextMap::new(),
            body: None,
            method: None,
            url: None,
            query: TextMap::new(),
            params: TextMap::new(),
        }
    }
}

impl ReqBuilder {
    /// Sets the method.
    pub fn method(self, method: &str) -> (builder: ReqBuilder)
        ensures
            text_view(builder.method) == Some(method@),
            builder.headers == self.headers,
            builder.body == self.body,
            builder.url == self.url,
            builder.query == self.query,
            builder.params == self.params,
    {
        ReqBuilder { method: Some(method.to_owned()), ..self }
    }

    /// Sets the target.
    pub fn url(self, url: &str) -> (builder: ReqBuilder)
        ensures
            text_view(builder.url) == Some(url@),
            builder.headers == self.headers,
            builder.body == self.body,
            builder.method == self.method,
            builder.query == self.query,
            builder.params == self.params,
    {
        ReqBuilder { url: Some(url.to_owned()), ..self }
    }

    /// Sets the headers.
    pub fn headers(self, headers: TextMap) -> (builder: ReqBuilder)
        ensures
            builder.headers == headers,
            builder.body == self.body,
            builder.method == self.method,
            builder.url == self.url,
            builder.query == self.query,
            builder.params == self.params,
    {
        ReqBuilder { headers, ..self }
    }

    /// Sets the body.
    pub fn body(self, body: Option<String>) -> (builder: ReqBuilder)
        ensures
            builder.body == body,
            builder.headers == self.headers,
            builder.method == self.method,
            builder.url == self.url,
            builder.query == self.query,
            builder.params == self.params,
    {
        ReqBuilder { body, ..self }
    }

    /// Sets the query.
    pub fn query(self, query: TextMap) -> (builder: ReqBuilder)
        ensures
            builder.query == query,
            builder.headers == self.headers,
            builder.body == self.body,
            builder.method == self.method,
            builder.url == self.url,
            builder.params == self.params,
    {
        ReqBuilder { query, ..self }
    }

    /// Sets the parameters.
    pub fn params(self, params: TextMap) -> (builder: ReqBuilder)
        ensures
            builder.params == params,
            builder.headers == self.headers,
            builder.body == self.body,
            builder.method == self.method,
            builder.url == self.url,
            builder.query == self.query,
    {
        ReqBuilder { params, ..self }
    }

    /// Whether the method and the target have been given.
    pub fn is_complete(&self) -> (complete: bool)
        ensures
            complete == (self.method is Some && self.url is Some),
    {
        self.method.is_some() && self.url.is_some()
    }

    /// The request that was described.
    pub fn build(self) -> (req: Req)
        requires
            self.method is Some,
            self.url is Some,
        ensures
            req.method == self.method.unwrap(),
            req.url == self.url.unwrap(),
            req.headers == self.headers,
            req.body == self.body,
            req.query == self.query,
            req.params == self.params,
    {
        Req {
            headers: self.headers,
            body: self.body,
            method: self.method.unwrap(),
            url: self.url.unwrap(),
            query: self.query,
            params: self.params,
        }
    }
}

} // verus!
