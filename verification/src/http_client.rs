//! Requests and responses as plain values
//!
//! The checks decide which requests are made and what the responses mean. The caller makes the
//! requests. This module holds what passes between the two: the settings of a client, a request,
//! and what came back.

use vstd::pervasive::unreached;
use vstd::prelude::*;
use vstd::string::StrSliceExecFns;
use vstd::string::StringExecFns;
use vstd::string::StringSliceAdditionalSpecFns;

use crate::order::views;
use crate::text::optional_text;
use crate::text::same_text;

verus! {

/// User-Agent used for all tests
pub const USER_AGENT_HEADER: &'static str = "rust-lang/infra-smoke-tests";

/// The method of a request
#[derive(Clone, Copy, Debug, PartialEq, Eq, Structural)]
pub enum Method {
    /// Ask for the resource
    Get,
    /// Ask for the status line and the headers only
    Head,
}

/// A header: a name and a value. Names are compared as they are written, and HTTP libraries
/// hand them out in lower case.
#[derive(Debug, PartialEq, Eq)]
pub struct Header {
    /// The name of the header
    pub name: String,
    /// The bytes of the value
    pub value: Vec<u8>,
}

/// What a header says
pub struct HeaderView {
    /// The name of the header
    pub name: Seq<char>,
    /// The bytes of the value
    pub value: Seq<u8>,
}

impl View for Header {
    type V = HeaderView;

    open spec fn view(&self) -> HeaderView {
        HeaderView { name: self.name@, value: self.value@ }
    }
}

impl Clone for Header {
    fn clone(&self) -> (copy: Self)
        ensures
            copy@ == self@,
    {
        Header { name: self.name.clone(), value: self.value.clone() }
    }
}

impl Header {
    /// The header called `name` with the text `value`
    pub fn new(name: &str, value: &str) -> (header: Self)
        ensures
            header@ == (HeaderView { name: name@, value: value.spec_bytes() }),
    {
        Header { name: String::from_str(name), value: value.as_bytes_vec() }
    }
}

/// The value of the first header called `name` among those from position `i` on
pub open spec fn header_value_from(headers: Seq<HeaderView>, name: Seq<char>, i: int) -> Option<
    Seq<u8>,
>
    decreases headers.len() - i,
{
    if i < 0 || i >= headers.len() {
        None
    } else if headers[i].name == name {
        Some(headers[i].value)
    } else {
        header_value_from(headers, name, i + 1)
    }
}

/// Whether a byte of a header value is a visible ASCII character, a space or a tab
pub open spec fn is_visible_ascii(byte: u8) -> bool {
    32 <= byte < 127 || byte == 9
}

/// The text of a header value, where the value is made of visible ASCII characters alone
pub open spec fn visible_text(value: Seq<u8>) -> Option<Seq<char>> {
    if forall|i: int| 0 <= i < value.len() ==> is_visible_ascii(#[trigger] value[i]) {
        Some(value.map_values(|byte: u8| byte as char))
    } else {
        None
    }
}

/// The text of the first header called `name`, where there is such a header and its value is
/// text
pub open spec fn header_text(headers: Seq<HeaderView>, name: Seq<char>) -> Option<Seq<char>> {
    match header_value_from(headers, name, 0) {
        Some(value) => visible_text(value),
        None => None,
    }
}

/// `HeaderValue::from_bytes` and `HeaderValue::to_str` of the `http` crate, as `reqwest` hands
/// them on: the bytes as text where each of them is a visible ASCII character, a space or a tab,
/// and nothing where one of them is not.
#[verifier::external_body]
fn to_visible_text(value: &Vec<u8>) -> (text: Option<String>)
    ensures
        optional_text(text) == visible_text(value@),
{
    reqwest::header::HeaderValue::from_bytes(value).ok().and_then(
        |value| value.to_str().ok().map(String::from),
    )
}

/// The settings of an HTTP client: the headers that go with each request, and whether the
/// client follows redirects
pub struct Client {
    /// The headers that go with each request
    pub headers: Vec<Header>,
    /// Whether the client follows redirects
    pub follow_redirects: bool,
}

/// What the settings of a client say
pub struct ClientView {
    /// The headers that go with each request
    pub headers: Seq<HeaderView>,
    /// Whether the client follows redirects
    pub follow_redirects: bool,
}

impl View for Client {
    type V = ClientView;

    open spec fn view(&self) -> ClientView {
        ClientView { headers: views(self.headers@), follow_redirects: self.follow_redirects }
    }
}

/// A request: what to ask for, and how
pub struct Request {
    /// The method
    pub method: Method,
    /// The address
    pub url: String,
    /// The headers that go with the request
    pub headers: Vec<Header>,
    /// Whether a redirect is followed
    pub follow_redirects: bool,
    /// Whether the body of the response is read
    pub read_body: bool,
}

/// What a request says
pub struct RequestView {
    /// The method
    pub method: Method,
    /// The address
    pub url: Seq<char>,
    /// The headers that go with the request
    pub headers: Seq<HeaderView>,
    /// Whether a redirect is followed
    pub follow_redirects: bool,
    /// Whether the body of the response is read
    pub read_body: bool,
}

impl View for Request {
    type V = RequestView;

    open spec fn view(&self) -> RequestView {
        RequestView {
            method: self.method,
            url: self.url@,
            headers: views(self.headers@),
            follow_redirects: self.follow_redirects,
            read_body: self.read_body,
        }
    }
}

impl RequestView {
    /// The same request, with the body of the response read as text
    pub open spec fn with_body(self) -> RequestView {
        RequestView { read_body: true, ..self }
    }
}

impl ClientView {
    /// A client with default settings: no headers of its own, and redirects are followed
    pub open spec fn plain() -> ClientView {
        ClientView { headers: Seq::empty(), follow_redirects: true }
    }

    /// The client that the checks use: it names itself in the `user-agent` header
    pub open spec fn custom() -> ClientView {
        Self::plain().default_header("user-agent"@, USER_AGENT_HEADER@)
    }

    /// The same client with one more header
    pub open spec fn default_header(self, name: Seq<char>, value: Seq<char>) -> ClientView {
        ClientView {
            headers: self.headers.push(
                HeaderView { name, value: vstd::utf8::encode_utf8(value) },
            ),
            ..self
        }
    }

    /// The same client, but it does not follow redirects
    pub open spec fn no_redirects(self) -> ClientView {
        ClientView { follow_redirects: false, ..self }
    }

    /// The request that this client makes for `url`
    pub open spec fn request(self, method: Method, url: Seq<char>) -> RequestView {
        RequestView {
            method,
            url,
            headers: self.headers,
            follow_redirects: self.follow_redirects,
            read_body: false,
        }
    }
}

fn clone_headers(headers: &Vec<Header>) -> (copy: Vec<Header>)
    ensures
        views(copy@) == views(headers@),
{
    let mut copy: Vec<Header> = Vec::new();
    let mut i: usize = 0;
    while i < headers.len()
        invariant
            i <= headers.len(),
            views(copy@) == views(headers@).take(i as int),
        decreases headers.len() - i,
    {
        let ghost before = copy@;
        let header = headers[i].clone();
        copy.push(header);
        assert(views(copy@) =~= views(before).push(header@));
        assert(views(headers@).take(i + 1) =~= views(headers@).take(i as int).push(
            headers@[i as int]@,
        ));
        i += 1;
    }
    assert(views(headers@).take(headers@.len() as int) =~= views(headers@));
    copy
}

impl Client {
    /// A client with default settings
    pub fn new() -> (client: Self)
        ensures
            client@ == ClientView::plain(),
    {
        let client = Client { headers: Vec::new(), follow_redirects: true };
        assert(client@.headers =~= Seq::empty());
        client
    }

    /// The same client with one more header
    pub fn default_header(self, name: &str, value: &str) -> (client: Self)
        ensures
            client@ == self@.default_header(name@, value@),
    {
        let mut headers = self.headers;
        headers.push(Header::new(name, value));
        let client = Client { headers, follow_redirects: self.follow_redirects };
        assert(client@.headers =~= self@.default_header(name@, value@).headers);
        client
    }

    /// The same client, but it does not follow redirects
    pub fn no_redirects(self) -> (client: Self)
        ensures
            client@ == self@.no_redirects(),
    {
        Client { headers: self.headers, follow_redirects: false }
    }

    /// The request that asks for `url`
    pub fn get(&self, url: String) -> (request: Request)
        ensures
            request@ == self@.request(Method::Get, url@),
    {
        Request {
            method: Method::Get,
            url,
            headers: clone_headers(&self.headers),
            follow_redirects: self.follow_redirects,
            read_body: false,
        }
    }

    /// The request that asks for the headers of `url`
    pub fn head(&self, url: String) -> (request: Request)
        ensures
            request@ == self@.request(Method::Head, url@),
    {
        Request {
            method: Method::Head,
            url,
            headers: clone_headers(&self.headers),
            follow_redirects: self.follow_redirects,
            read_body: false,
        }
    }
}

impl Request {
    /// The same request, with the body of the response read as text
    pub fn with_body(self) -> (request: Self)
        ensures
            request@ == self@.with_body(),
    {
        Request {
            method: self.method,
            url: self.url,
            headers: self.headers,
            follow_redirects: self.follow_redirects,
            read_body: true,
        }
    }
}

/// Create a pre-configured client
///
/// The client sets the `User-Agent` header so that requests from the test suite can be more
/// easily filtered and inspected in the request logs.
pub fn custom_http_client() -> (client: Client)
    ensures
        client@ == ClientView::custom(),
{
    Client::new().default_header("user-agent", USER_AGENT_HEADER)
}

/// The reason phrase that the `http` crate's `StatusCode::canonical_reason` holds for the status
/// `code`, and `<unknown status code>` where it holds none
pub uninterp spec fn reason_phrase(code: u16) -> Seq<char>;

/// The decimal digit for a number below ten
pub open spec fn digit(value: int) -> char {
    ((48 + value) as u8) as char
}

/// The three decimal digits of a status code
pub open spec fn three_digits(code: u16) -> Seq<char> {
    seq![digit(code as int / 100), digit(code as int / 10 % 10), digit(code as int % 10)]
}

/// A status as the messages show it: the number, a space, and the reason phrase
pub open spec fn status_text(code: u16) -> Seq<char> {
    three_digits(code) + seq![' '] + reason_phrase(code)
}

/// `StatusCode::from_u16` and the `Display` of `StatusCode`, of the `http` crate as `reqwest`
/// hands them on: a number from 100 to 999 is a status code, and it is written as its decimal
/// digits, a space, and its canonical reason phrase or, where it has none,
/// `<unknown status code>`.
#[verifier::external_body]
fn display_status(code: u16) -> (text: Option<String>)
    ensures
        text is Some <==> 100 <= code <= 999,
        text matches Some(t) ==> t@ == three_digits(code) + seq![' '] + reason_phrase(code),
{
    reqwest::StatusCode::from_u16(code).ok().map(|status| status.to_string())
}

/// The status of a response: a number from 100 to 999
#[derive(Clone, Copy, Debug, PartialEq, Eq, PartialOrd, Ord, Hash)]
pub struct Status {
    code: u16,
}

impl View for Status {
    type V = u16;

    closed spec fn view(&self) -> u16 {
        self.code
    }
}

/// Whether a number is a status code
pub open spec fn is_status_code(code: u16) -> bool {
    100 <= code <= 999
}

/// Whether a status code says that the request succeeded
pub open spec fn is_success_code(code: u16) -> bool {
    200 <= code <= 299
}

/// Whether a status code says that the resource is elsewhere
pub open spec fn is_redirection_code(code: u16) -> bool {
    300 <= code <= 399
}

impl Status {
    #[verifier::type_invariant]
    spec fn well_formed(self) -> bool {
        is_status_code(self.code)
    }

    /// The status with the number `code`, where there is one
    pub fn new(code: u16) -> (status: Option<Self>)
        ensures
            status is Some <==> is_status_code(code),
            status matches Some(s) ==> s@ == code,
    {
        if 100 <= code && code <= 999 {
            Some(Status { code })
        } else {
            None
        }
    }

    /// 200 OK
    pub fn ok() -> (status: Self)
        ensures
            status@ == 200,
    {
        Status { code: 200 }
    }

    /// 403 Forbidden
    pub fn forbidden() -> (status: Self)
        ensures
            status@ == 403,
    {
        Status { code: 403 }
    }

    /// The number of the status
    pub fn as_u16(&self) -> (code: u16)
        ensures
            code == self@,
            is_status_code(code),
    {
        proof {
            use_type_invariant(self);
        }
        self.code
    }

    /// Check if status is within 200-299
    pub fn is_success(&self) -> (r: bool)
        ensures
            r == is_success_code(self@),
    {
        200 <= self.code && self.code <= 299
    }

    /// Check if status is within 300-399
    pub fn is_redirection(&self) -> (r: bool)
        ensures
            r == is_redirection_code(self@),
    {
        300 <= self.code && self.code <= 399
    }

    /// The status as the messages show it: the number and the reason phrase
    pub fn to_string(&self) -> (text: String)
        ensures
            text@ == status_text(self@),
    {
        proof {
            use_type_invariant(self);
        }
        match display_status(self.code) {
            Some(text) => text,
            None => unreached(),
        }
    }
}

/// A response: the status, the headers, the address that answered, and the body
pub struct Response {
    /// The status
    pub status: Status,
    /// The headers, in the order in which they came
    pub headers: Vec<Header>,
    /// The address that answered: that of the request, or the last one that a redirect led to
    pub url: String,
    /// The body as text, or why it could not be read. It is empty where the request did not ask
    /// for the body.
    pub body: Result<String, String>,
}

/// What a response says
pub struct ResponseView {
    /// The number of the status
    pub status: u16,
    /// The headers, in the order in which they came
    pub headers: Seq<HeaderView>,
    /// The address that answered
    pub url: Seq<char>,
    /// The body as text, or why it could not be read
    pub body: Result<Seq<char>, Seq<char>>,
}

impl View for Response {
    type V = ResponseView;

    open spec fn view(&self) -> ResponseView {
        ResponseView {
            status: self.status@,
            headers: views(self.headers@),
            url: self.url@,
            body: match self.body {
                Ok(text) => Ok(text@),
                Err(error) => Err(error@),
            },
        }
    }
}

impl ResponseView {
    /// The text of the first header called `name`
    pub open spec fn header(self, name: Seq<char>) -> Option<Seq<char>> {
        header_text(self.headers, name)
    }
}

impl Response {
    /// The text of the first header called `name`, where there is such a header and its value is
    /// made of visible ASCII characters alone
    pub fn header(&self, name: &str) -> (text: Option<String>)
        ensures
            optional_text(text) == self@.header(name@),
    {
        let ghost all = views(self.headers@);
        let mut i: usize = 0;
        while i < self.headers.len()
            invariant
                i <= self.headers.len(),
                all == views(self.headers@),
                header_value_from(all, name@, 0) == header_value_from(all, name@, i as int),
            decreases self.headers.len() - i,
        {
            if same_text(self.headers[i].name.as_str(), name) {
                return to_visible_text(&self.headers[i].value);
            }
            i += 1;
        }
        None
    }
}

/// What `Url::parse` of the `url` crate makes of `text`: the address in its normal form, and
/// nothing where `text` is no address
pub uninterp spec fn parsed_url(text: Seq<char>) -> Option<Seq<char>>;

/// `Url::parse` of the `url` crate: the address that `text` stands for, written out again, and
/// nothing where the crate refuses `text`.
#[verifier::external_body]
pub(crate) fn parse_url(text: &str) -> (url: Option<String>)
    ensures
        optional_text(url) == parsed_url(text@),
{
    url::Url::parse(text).ok().map(String::from)
}

/// What became of a request
pub enum Outcome {
    /// No response came: the description of the error
    Failed(String),
    /// A response came
    Received(Response),
}

/// What an outcome says
pub enum OutcomeView {
    /// No response came: the description of the error
    Failed(Seq<char>),
    /// A response came
    Received(ResponseView),
}

impl View for Outcome {
    type V = OutcomeView;

    open spec fn view(&self) -> OutcomeView {
        match self {
            Outcome::Failed(error) => OutcomeView::Failed(error@),
            Outcome::Received(response) => OutcomeView::Received(response@),
        }
    }
}

} // verus!
