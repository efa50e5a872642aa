//! HTTP requests to be sent and the replies that come back.
use crate::text;
use vstd::prelude::*;
use vstd::utf8::*;

verus! {

broadcast use crate::text::pairs_push;

/// An HTTP request.
pub struct HttpRequest {
    pub method: String,
    pub url: String,
    /// Header names and values, in the order in which they were given.
    pub headers: Vec<(String, String)>,
    /// `None` for a request that is sent without a body.
    pub body: Option<String>,
}

/// What an [`HttpRequest`] holds.
#[verifier::ext_equal]
pub struct HttpRequestView {
    pub method: Seq<char>,
    pub url: Seq<char>,
    pub headers: Seq<(Seq<char>, Seq<char>)>,
    pub body: Option<Seq<char>>,
}

impl View for HttpRequest {
    type V = HttpRequestView;

    open spec fn view(&self) -> HttpRequestView {
        HttpRequestView {
            method: self.method@,
            url: self.url@,
            headers: text::pairs(self.headers@),
            body: text::opt_text(self.body),
        }
    }
}

impl HttpRequestView {
    /// The same request with one header more.
    pub open spec fn with_header(self, name: Seq<char>, value: Seq<char>) -> HttpRequestView {
        HttpRequestView { headers: self.headers.push((name, value)), ..self }
    }
}

impl HttpRequest {
    /// A request without headers and body.
    pub fn new(method: &str, url: &str) -> (req: HttpRequest)
        ensures
            req@ == (HttpRequestView {
                method: method@,
                url: url@,
                headers: Seq::empty(),
                body: None,
            }),
    {
        let req = HttpRequest {
            method: method.to_owned(),
            url: url.to_owned(),
            headers: Vec::new(),
            body: None,
        };
        assert(req@.headers =~= Seq::<(Seq<char>, Seq<char>)>::empty());
        req
    }

    /// The same request with one header more.
    pub fn with_header(self, name: &str, value: &str) -> (req: HttpRequest)
        ensures
            req@ == self@.with_header(name@, value@),
    {
        let mut headers = self.headers;
        headers.push((name.to_owned(), value.to_owned()));
        HttpRequest { method: self.method, url: self.url, headers, body: self.body }
    }

    /// The same request with the given body.
    pub fn with_body(self, body: Option<String>) -> (req: HttpRequest)
        ensures
            req@ == (HttpRequestView { body: text::opt_text(body), ..self@ }),
    {
        HttpRequest { method: self.method, url: self.url, headers: self.headers, body }
    }
}

/// What came back for a request.
pub struct HttpReply {
    pub status: u16,
    /// The value of the `Date` header.
    pub date: Option<String>,
    pub body: Vec<u8>,
}

/// The text that `String::from_utf8_lossy` reads in the bytes.
pub uninterp spec fn utf8_lossy(bytes: Seq<u8>) -> Seq<char>;

/// `String::from_utf8_lossy` decodes the bytes as UTF-8, and puts a replacement
/// character where they are not. Bytes that are UTF-8 give the text they encode;
/// which bytes of others are replaced is left to the name.
#[verifier::external_body]
fn decode_lossy(bytes: &[u8]) -> (text: String)
    ensures
        text@ == utf8_lossy(bytes@),
        valid_utf8(bytes@) ==> text@ == decode_utf8(bytes@),
{
    String::from_utf8_lossy(bytes).into_owned()
}

impl HttpReply {
    /// The body as text.
    pub fn text(&self) -> (text: String)
        ensures
            text@ == utf8_lossy(self.body@),
            valid_utf8(self.body@) ==> text@ == decode_utf8(self.body@),
    {
        decode_lossy(self.body.as_slice())
    }
}

} // verus!
