//! One HTTP exchange with the API: what goes into the request, and what is
//! made of the reply.
use vstd::prelude::*;
use vstd::string::*;
use vstd::utf8::*;

use crate::api::{HttpRequest, HttpRequestView};
use crate::text::push_decimal;

verus! {

/// How PRodder introduces itself.
pub const USER_AGENT: &'static str = "PRodder";

/// The characters of an HTTP method.
pub open spec fn method_char(c: char) -> bool {
    ||| 'a' <= c <= 'z'
    ||| 'A' <= c <= 'Z'
    ||| '0' <= c <= '9'
    ||| c == '!' || c == '#' || c == '$' || c == '%' || c == '&' || c == '\''
    ||| c == '*' || c == '+' || c == '-' || c == '.' || c == '^' || c == '_'
    ||| c == '`' || c == '|' || c == '~'
}

/// Is this an HTTP method?
pub open spec fn is_method(method: Seq<char>) -> bool {
    method.len() > 0 && forall|i: int| 0 <= i < method.len() ==> method_char(#[trigger] method[i])
}

/// `reqwest::Method::from_bytes` of the bytes of a string, an error by its
/// `to_string`: accepts a name that is not empty and made of the characters of
/// an HTTP token, and has one error for all others.
#[verifier::external_body]
fn check_method(method: &str) -> (r: Result<(), String>)
    ensures
        r is Ok <==> is_method(method@),
        r is Err ==> r->Err_0@ == "invalid HTTP method"@,
{
    reqwest::Method::from_bytes(method.as_bytes()).map(|_| ()).map_err(|e| e.to_string())
}

/// The canonical reason of a status code as `reqwest::StatusCode` displays
/// it, which is a placeholder for a code that has none.
pub uninterp spec fn status_reason(status: u16) -> Seq<char>;

/// `reqwest::StatusCode::from_u16`, which accepts three-digit numbers, and
/// `to_string` of the status code: the number, a space and the reason.
#[verifier::external_body]
fn status_line(status: u16) -> (r: Option<String>)
    ensures
        r is Some <==> 100 <= status <= 999,
        r is Some ==> r->0@ == crate::text::decimal(status as nat) + " "@ + status_reason(status),
{
    reqwest::StatusCode::from_u16(status).ok().map(|code| code.to_string())
}

/// What `String::from_utf8_lossy` reads from bytes.
pub uninterp spec fn lossy_text(bytes: Seq<u8>) -> Seq<char>;

/// `String::from_utf8_lossy`: the characters that the bytes encode where they
/// are UTF-8. What stands for bytes that are not is not spelled out here.
#[verifier::external_body]
fn from_utf8_lossy(bytes: &Vec<u8>) -> (r: String)
    ensures
        r@ == lossy_text(bytes@),
        valid_utf8(bytes@) ==> r@ == decode_utf8(bytes@),
{
    String::from_utf8_lossy(bytes).into_owned()
}

/// A request with everything that goes over the wire. The token is kept apart
/// from the other headers: it is sent as a bearer token in the `Authorization`
/// header.
#[derive(Debug, PartialEq, Eq)]
pub struct Outgoing {
    pub method: String,
    pub url: String,
    pub bearer: String,
    pub headers: Vec<(String, String)>,
    pub body: Option<Vec<u8>>,
}

/// An [`Outgoing`] by its characters and bytes.
pub struct OutgoingView {
    pub method: Seq<char>,
    pub url: Seq<char>,
    pub bearer: Seq<char>,
    pub headers: Seq<(Seq<char>, Seq<char>)>,
    pub body: Option<Seq<u8>>,
}

impl View for Outgoing {
    type V = OutgoingView;

    open spec fn view(&self) -> OutgoingView {
        OutgoingView {
            method: self.method@,
            url: self.url@,
            bearer: self.bearer@,
            headers: self.headers@.map_values(|h: (String, String)| (h.0@, h.1@)),
            body: match self.body {
                Some(body) => Some(body@),
                None => None,
            },
        }
    }
}

/// The headers of every request, and the one more of a request with a body.
pub open spec fn headers_for(with_body: bool) -> Seq<(Seq<char>, Seq<char>)> {
    let common = seq![
        ("Accept"@, "application/vnd.github+json"@),
        ("X-GitHub-Api-Version"@, "2022-11-28"@),
        ("User-Agent"@, USER_AGENT@),
    ];
    if with_body {
        common.push(("Content-Type"@, "application/json"@))
    } else {
        common
    }
}

/// What is sent for a request.
pub open spec fn outgoing(token: Seq<char>, request: HttpRequestView) -> OutgoingView {
    OutgoingView {
        method: request.method,
        url: request.url,
        bearer: token,
        headers: headers_for(request.body is Some),
        body: request.body,
    }
}

/// Why an exchange gave no reply to go on with.
#[derive(Debug, PartialEq, Eq)]
pub enum SendError {
    /// The method is no HTTP method, for the reason given.
    InvalidMethod(String),
    /// The request could not be sent, for the reason given.
    Sending(String),
    /// The body of the reply could not be read, for the reason given.
    ReadingBody(String),
    /// The reply has a status other than success, and this body.
    Rejected(u16, Vec<u8>),
}

/// A [`SendError`] by the characters of its reason and the bytes of its body.
pub enum SendErrorView {
    InvalidMethod(Seq<char>),
    Sending(Seq<char>),
    ReadingBody(Seq<char>),
    Rejected(u16, Seq<u8>),
}

impl View for SendError {
    type V = SendErrorView;

    open spec fn view(&self) -> SendErrorView {
        match self {
            SendError::InvalidMethod(cause) => SendErrorView::InvalidMethod(cause@),
            SendError::Sending(cause) => SendErrorView::Sending(cause@),
            SendError::ReadingBody(cause) => SendErrorView::ReadingBody(cause@),
            SendError::Rejected(status, body) => SendErrorView::Rejected(*status, body@),
        }
    }
}

/// A status with its reason; a number that is no status code stands alone.
pub open spec fn status_words(status: u16) -> Seq<char> {
    if 100 <= status <= 999 {
        crate::text::decimal(status as nat) + " "@ + status_reason(status)
    } else {
        crate::text::decimal(status as nat)
    }
}

impl SendErrorView {
    /// The error in words.
    pub open spec fn words(self) -> Seq<char> {
        match self {
            SendErrorView::InvalidMethod(_) => "invalid HTTP method"@,
            SendErrorView::Sending(_) => "sending request"@,
            SendErrorView::ReadingBody(_) => "reading response body"@,
            SendErrorView::Rejected(status, body) => "request failed ("@ + status_words(status)
                + "): "@ + lossy_text(body),
        }
    }

    /// The error with everything that led to it.
    pub open spec fn chain(self) -> Seq<char> {
        match self {
            SendErrorView::InvalidMethod(cause) => self.words() + ": "@ + cause,
            SendErrorView::Sending(cause) => self.words() + ": "@ + cause,
            SendErrorView::ReadingBody(cause) => self.words() + ": "@ + cause,
            SendErrorView::Rejected(_, _) => self.words(),
        }
    }
}

impl SendError {
    /// The error in words.
    pub fn message(&self) -> (r: String)
        ensures
            r@ == self@.words(),
            self@ matches SendErrorView::Rejected(status, body) ==> valid_utf8(body) ==> r@
                == "request failed ("@ + status_words(status) + "): "@ + decode_utf8(body),
    {
        match self {
            SendError::InvalidMethod(_) => "invalid HTTP method".to_owned(),
            SendError::Sending(_) => "sending request".to_owned(),
            SendError::ReadingBody(_) => "reading response body".to_owned(),
            SendError::Rejected(status, body) => {
                let mut out = "request failed (".to_owned();
                match status_line(*status) {
                    Some(line) => {
                        out.append(line.as_str());
                    },
                    None => {
                        push_decimal(&mut out, *status as u64);
                    },
                }
                out.append("): ");
                out.append(from_utf8_lossy(body).as_str());
                out
            },
        }
    }

    /// The error with everything that led to it.
    pub fn chain(&self) -> (r: String)
        ensures
            r@ == self@.chain(),
    {
        let mut out = self.message();
        match self {
            SendError::InvalidMethod(cause) | SendError::Sending(cause) | SendError::ReadingBody(
                cause,
            ) => {
                out.append(": ");
                out.append(cause.as_str());
            },
            SendError::Rejected(_, _) => {},
        }
        out
    }
}

/// Puts a header together.
fn header(name: &str, value: &str) -> (r: (String, String))
    ensures
        r.0@ == name@,
        r.1@ == value@,
{
    (name.to_owned(), value.to_owned())
}

/// Puts together what is sent for a request to the GitHub API. The token is
/// attached as a bearer credential, so it never hits a command line.
pub fn prepare(token: &str, request: HttpRequest) -> (r: Result<Outgoing, SendError>)
    ensures
        match r {
            Ok(out) => is_method(request@.method) && out@ == outgoing(token@, request@),
            Err(e) => !is_method(request@.method) && e@ == SendErrorView::InvalidMethod(
                "invalid HTTP method"@,
            ),
        },
{
    if let Err(cause) = check_method(request.method.as_str()) {
        return Err(SendError::InvalidMethod(cause));
    }
    let mut headers: Vec<(String, String)> = Vec::new();
    headers.push(header("Accept", "application/vnd.github+json"));
    headers.push(header("X-GitHub-Api-Version", "2022-11-28"));
    headers.push(header("User-Agent", USER_AGENT));
    if request.body.is_some() {
        headers.push(header("Content-Type", "application/json"));
    }
    assert(headers@.map_values(|h: (String, String)| (h.0@, h.1@)) =~= headers_for(
        request@.body is Some,
    ));
    Ok(
        Outgoing {
            method: request.method,
            url: request.url,
            bearer: token.to_owned(),
            headers,
            body: request.body,
        },
    )
}

/// How an exchange over the wire went.
#[derive(Debug, PartialEq, Eq)]
pub enum Exchange {
    /// The request could not be sent, or no reply came, for the reason given.
    NotSent(String),
    /// A reply came, but its body could not be read, for the reason given.
    NotRead(String),
    /// A reply came, with this status and body.
    Answered(u16, Vec<u8>),
}

/// The body of a reply with a success status; the error in all other cases.
pub fn receive(exchange: Exchange) -> (r: Result<Vec<u8>, SendError>)
    ensures
        match exchange {
            Exchange::NotSent(cause) => r matches Err(e) && e@ == SendErrorView::Sending(cause@),
            Exchange::NotRead(cause) => r matches Err(e) && e@ == SendErrorView::ReadingBody(
                cause@,
            ),
            Exchange::Answered(status, body) => if 200 <= status < 300 {
                r matches Ok(got) && got@ == body@
            } else {
                r matches Err(e) && e@ == SendErrorView::Rejected(status, body@)
            },
        },
{
    match exchange {
        Exchange::NotSent(cause) => Err(SendError::Sending(cause)),
        Exchange::NotRead(cause) => Err(SendError::ReadingBody(cause)),
        Exchange::Answered(status, body) => {
            if 200 <= status && status < 300 {
                Ok(body)
            } else {
                Err(SendError::Rejected(status, body))
            }
        },
    }
}

/// The token is in the bearer field and nowhere else: what a request carries
/// besides does not depend on it.
pub proof fn token_is_only_the_bearer(
    one: Seq<char>,
    other: Seq<char>,
    request: HttpRequestView,
)
    ensures
        outgoing(one, request).bearer == one,
        outgoing(one, request) == (OutgoingView { bearer: one, ..outgoing(other, request) }),
{
}

/// What is sent, field by field: the request as it is, the token as the bearer,
/// and GitHub's media type, the API version and the user agent as headers, with
/// the content type as one more exactly when there is a body.
pub proof fn outgoing_is_spelled_out(token: Seq<char>, request: HttpRequestView)
    ensures
        ({
            let out = outgoing(token, request);
            &&& out.method == request.method
            &&& out.url == request.url
            &&& out.bearer == token
            &&& out.body == request.body
            &&& out.headers[0] == ("Accept"@, "application/vnd.github+json"@)
            &&& out.headers[1] == ("X-GitHub-Api-Version"@, "2022-11-28"@)
            &&& out.headers[2] == ("User-Agent"@, "PRodder"@)
            &&& request.body is None ==> out.headers.len() == 3
            &&& request.body is Some ==> out.headers.len() == 4 && out.headers[3] == (
                "Content-Type"@,
                "application/json"@,
            )
        }),
{
}

/// Every error in words, and with everything that led to it.
pub proof fn send_errors_are_spelled_out(cause: Seq<char>, status: u16, body: Seq<u8>)
    ensures
        SendErrorView::InvalidMethod(cause).words() == "invalid HTTP method"@,
        SendErrorView::InvalidMethod(cause).chain() == "invalid HTTP method"@ + ": "@ + cause,
        SendErrorView::Sending(cause).words() == "sending request"@,
        SendErrorView::Sending(cause).chain() == "sending request"@ + ": "@ + cause,
        SendErrorView::ReadingBody(cause).words() == "reading response body"@,
        SendErrorView::ReadingBody(cause).chain() == "reading response body"@ + ": "@ + cause,
        100 <= status <= 999 ==> SendErrorView::Rejected(status, body).words()
            == "request failed ("@ + (crate::text::decimal(status as nat) + " "@ + status_reason(
            status,
        )) + "): "@ + lossy_text(body),
        !(100 <= status <= 999) ==> SendErrorView::Rejected(status, body).words()
            == "request failed ("@ + crate::text::decimal(status as nat) + "): "@ + lossy_text(body),
        SendErrorView::Rejected(status, body).chain() == SendErrorView::Rejected(
            status,
            body,
        ).words(),
{
}

/// The views show every field as it is.
pub proof fn http_views_show_everything(out: Outgoing, e: SendError)
    ensures
        out@.method == out.method@,
        out@.url == out.url@,
        out@.bearer == out.bearer@,
        out@.headers.len() == out.headers@.len(),
        forall|i: int|
            0 <= i < out.headers@.len() ==> (#[trigger] out@.headers[i]) == (
                out.headers@[i].0@,
                out.headers@[i].1@,
            ),
        match out.body {
            Some(body) => out@.body == Some(body@),
            None => out@.body is None,
        },
        match e {
            SendError::InvalidMethod(cause) => e@ == SendErrorView::InvalidMethod(cause@),
            SendError::Sending(cause) => e@ == SendErrorView::Sending(cause@),
            SendError::ReadingBody(cause) => e@ == SendErrorView::ReadingBody(cause@),
            SendError::Rejected(status, body) => e@ == SendErrorView::Rejected(status, body@),
        },
{
}

}
