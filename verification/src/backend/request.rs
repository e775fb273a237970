//! What is sent to the service and what comes back, as plain values: the
//! program around this crate turns a `Request` into a call over the network
//! and the answer into a `Reply`.

use crate::backend::util::{exit_if_expired, expired_message, TorrentState, STATUS_FORBIDDEN};
use crate::config::{RequestInfo, SessionView};
use crate::error::{failure, ErrorKind, Failure};
use crate::text::{decimal, decimal_text, option_view, pairs_view, Pairs};
use vstd::prelude::*;
use vstd::string::*;

verus! {

/// The text of the url that the `url` crate reads from a text, or `None`
/// where it reads none. The text that comes back is the url in its normal
/// form, which need not be the text that went in.
pub uninterp spec fn url_parsed(input: Seq<char>) -> Option<Seq<char>>;

/// Calls `url::Url::parse` and hands back the url as text. The contract
/// only names the result: it is what the `url` crate computes from the
/// text, and nothing else is claimed of it.
#[verifier::external_body]
fn url_parse(input: &str) -> (r: Option<String>)
    ensures
        option_view(r) == url_parsed(input@),
{
    url::Url::parse(input).ok().map(String::from)
}

/// The text of the url that the `url` crate gives for a path joined to a
/// base url, or `None` where the base is no url or the two cannot be
/// joined.
pub uninterp spec fn url_joined(base: Seq<char>, path: Seq<char>) -> Option<Seq<char>>;

/// Reads the base with `url::Url::parse`, calls `url::Url::join` on it with
/// the path and hands back the url as text. The contract only names the
/// result: it is what the `url` crate computes from the two texts, and
/// nothing else is claimed of it.
#[verifier::external_body]
fn url_join(base: &str, path: &str) -> (r: Option<String>)
    ensures
        option_view(r) == url_joined(base@, path@),
{
    url::Url::parse(base).ok()?.join(path).ok().map(String::from)
}

/// Reads a url and gives it back in its normal form, or `None` where the
/// text is no url.
pub fn parse_url(input: &str) -> (r: Option<String>)
    ensures
        option_view(r) == url_parsed(input@),
{
    url_parse(input)
}

/// How a request is sent.
#[derive(Debug, Clone, Copy, PartialEq, Eq, Structural)]
pub enum Method {
    Get,
    Post,
}

/// How the fields of a request travel.
#[derive(Debug, Clone, Copy, PartialEq, Eq, Structural)]
pub enum Encoding {
    /// There are no fields.
    Plain,
    /// As the query of the url.
    Query,
    /// As a form in the body.
    Form,
    /// As a form of several parts in the body.
    Multipart,
}

/// What the body of the answer is read as.
#[derive(Debug, Clone, Copy, PartialEq, Eq, Structural)]
pub enum Expect {
    /// The body is not read.
    Nothing,
    /// The body as text.
    Text,
    /// A list of torrents.
    Torrents,
    /// A list of the files of a torrent.
    Files,
    /// A list of log entries.
    Logs,
    /// No body, but the cookies that the answer sets, in the order in
    /// which they came.
    Cookies,
}

/// A request to the service.
#[derive(Debug, PartialEq, Eq)]
pub struct Request {
    pub method: Method,
    /// The whole url.
    pub url: String,
    /// The value of the `Referer` header, if one is sent.
    pub referer: Option<String>,
    /// The cookie of the session, if the request belongs to one.
    pub cookie: Option<String>,
    pub encoding: Encoding,
    /// The fields, each a name with its value, in the order in which they
    /// are sent.
    pub fields: Vec<(String, String)>,
    /// The field of a form of several parts that holds a file, with the
    /// path of the file.
    pub file: Option<(String, String)>,
    pub expects: Expect,
}

/// A request, with texts in place of strings.
pub struct RequestView {
    pub method: Method,
    pub url: Seq<char>,
    pub referer: Option<Seq<char>>,
    pub cookie: Option<Seq<char>>,
    pub encoding: Encoding,
    pub fields: Pairs,
    pub file: Option<(Seq<char>, Seq<char>)>,
    pub expects: Expect,
}

impl View for Request {
    type V = RequestView;

    open spec fn view(&self) -> RequestView {
        RequestView {
            method: self.method,
            url: self.url@,
            referer: option_view(self.referer),
            cookie: option_view(self.cookie),
            encoding: self.encoding,
            fields: pairs_view(self.fields@),
            file: match self.file {
                Some(f) => Some((f.0@, f.1@)),
                None => None,
            },
            expects: self.expects,
        }
    }
}

/// What a function that makes a request hands back, with texts in place
/// of strings.
pub open spec fn built(r: Result<Request, Failure>) -> Result<RequestView, (ErrorKind, Seq<char>)> {
    match r {
        Ok(request) => Ok(request@),
        Err(f) => Err(f@),
    }
}

/// The line that tells the user that no request can be made for a url.
pub open spec fn bad_url_message(url: Seq<char>) -> Seq<char> {
    "Cannot make a request to "@ + url
}

/// The request that goes to `path` below the url `base`: it is refused as
/// invalid input where `path` cannot be joined to `base`.
pub open spec fn call(
    base: Seq<char>,
    cookie: Option<Seq<char>>,
    method: Method,
    path: Seq<char>,
    encoding: Encoding,
    fields: Pairs,
    file: Option<(Seq<char>, Seq<char>)>,
    expects: Expect,
) -> Result<RequestView, (ErrorKind, Seq<char>)> {
    match url_joined(base, path) {
        Some(url) => Ok(
            RequestView { method, url, referer: None, cookie, encoding, fields, file, expects },
        ),
        None => Err((ErrorKind::InvalidInput, bad_url_message(base))),
    }
}

/// The request of a session that goes to `path` below the url of the
/// session. It carries the cookie of the session.
pub open spec fn session_call(
    info: SessionView,
    method: Method,
    path: Seq<char>,
    encoding: Encoding,
    fields: Pairs,
    expects: Expect,
) -> Result<RequestView, (ErrorKind, Seq<char>)> {
    call(info.url, Some(info.cookie), method, path, encoding, fields, None, expects)
}

/// Makes the request that goes to `path` below the url `base`.
pub fn make_call(
    base: &str,
    cookie: Option<String>,
    method: Method,
    path: &str,
    encoding: Encoding,
    fields: Vec<(String, String)>,
    file: Option<(String, String)>,
    expects: Expect,
) -> (r: Result<Request, Failure>)
    ensures
        built(r) == call(
            base@,
            option_view(cookie),
            method,
            path@,
            encoding,
            pairs_view(fields@),
            match file {
                Some(f) => Some((f.0@, f.1@)),
                None => None,
            },
            expects,
        ),
{
    match url_join(base, path) {
        Some(url) => Ok(
            Request { method, url, referer: None, cookie, encoding, fields, file, expects },
        ),
        None => {
            let mut message = String::from_str("Cannot make a request to ");
            message.append(base);
            Err(Failure { kind: ErrorKind::InvalidInput, message })
        },
    }
}

/// Makes the request of a session that goes to `path` below the url of
/// the session.
pub fn make_session_call(
    info: &RequestInfo,
    method: Method,
    path: &str,
    encoding: Encoding,
    fields: Vec<(String, String)>,
    expects: Expect,
) -> (r: Result<Request, Failure>)
    ensures
        built(r) == session_call(info@, method, path@, encoding, pairs_view(fields@), expects),
{
    make_call(
        info.url.as_str(),
        Some(info.cookie.clone()),
        method,
        path,
        encoding,
        fields,
        None,
        expects,
    )
}

/// A list with one field.
pub fn one_field(name: &str, value: String) -> (r: Vec<(String, String)>)
    ensures
        pairs_view(r@) == seq![(name@, value@)],
{
    let mut r: Vec<(String, String)> = Vec::new();
    r.push((String::from_str(name), value));
    assert(pairs_view(r@) =~= seq![(name@, value@)]);
    r
}

/// Puts one more field at the end of a list of fields.
pub fn push_field(fields: &mut Vec<(String, String)>, name: &str, value: String)
    ensures
        pairs_view(final(fields)@) == pairs_view(old(fields)@).push((name@, value@)),
{
    fields.push((String::from_str(name), value));
    assert(pairs_view(fields@) =~= pairs_view(old(fields)@).push((name@, value@)));
}

/// A torrent, as the service reports it.
#[derive(Debug, PartialEq, Eq)]
pub struct TorrentInfo {
    pub hash: String,
    pub name: String,
    /// How much of the torrent is there, in millionths of the whole.
    pub progress: u32,
    /// Uploaded over downloaded, in hundredths.
    pub ratio: u64,
    /// The size in bytes.
    pub size: u64,
    pub state: TorrentState,
    /// When the torrent was added, in seconds since the start of 1970.
    pub added_on: i64,
}

/// A file of a torrent, as the service reports it.
#[derive(Debug, PartialEq, Eq)]
pub struct TorrentFile {
    pub index: u64,
    pub name: String,
    /// How much of the file is there, in millionths of the whole.
    pub progress: u32,
    /// The size in bytes.
    pub size: u64,
}

/// An entry of the log of the service, as the service reports it.
#[derive(Debug, PartialEq, Eq)]
pub struct LogEntry {
    pub id: u32,
    pub message: String,
    /// When the entry was written, in seconds since the start of 1970.
    pub timestamp: i64,
    /// The level of the entry, as the number that the service uses.
    pub level: u32,
}

/// The body of an answer, read as the request asked.
#[derive(Debug, PartialEq, Eq)]
pub enum Body {
    Nothing,
    Text(String),
    Torrents(Vec<TorrentInfo>),
    Files(Vec<TorrentFile>),
    Logs(Vec<LogEntry>),
    Cookies(Vec<(String, String)>),
}

/// What came of a request.
#[derive(Debug, PartialEq, Eq)]
pub enum Reply {
    /// The request could not be put together, because the file that it
    /// names could not be read; the text says why.
    Unsendable(String),
    /// The request did not get through; the text says why.
    Unreachable(String),
    /// The service answered. The body is `None` where it could not be read
    /// as the request asked.
    Answer { status: u16, body: Option<Body> },
}

/// The line that tells the user that the file of a request could not be
/// read.
pub open spec fn unsendable_message(cause: Seq<char>) -> Seq<char> {
    "Failed reading file: "@ + cause
}

/// The line that tells the user that a request did not get through.
pub open spec fn unreachable_message(cause: Seq<char>) -> Seq<char> {
    "The request failed: "@ + cause
}

/// The line that tells the user that the service answered with an error.
pub open spec fn status_message(status: u16) -> Seq<char> {
    "The service answered with status "@ + decimal(status as nat)
}

/// The line that tells the user that an answer could not be read.
pub open spec fn unreadable_message() -> Seq<char> {
    "The answer of the service could not be read."@
}

/// Whether a status reports success.
pub open spec fn is_success(status: u16) -> bool {
    200 <= status <= 299
}

/// What a reply is worth. A request that names a file that cannot be read
/// is invalid input, and one that did not get through is a failure of the
/// transport. Of an answer the status is looked at first: a rejected
/// cookie is the one failure on which the program leaves at once, and
/// every other status that does not report success is a failure of the
/// transport. Then a body that could not be read is a failure. Every other
/// reply is worth its body.
pub open spec fn judged(reply: Reply) -> Result<Body, (ErrorKind, Seq<char>)> {
    match reply {
        Reply::Unsendable(cause) => Err((ErrorKind::InvalidInput, unsendable_message(cause@))),
        Reply::Unreachable(cause) => Err((ErrorKind::Transport, unreachable_message(cause@))),
        Reply::Answer { status, body } => if status == STATUS_FORBIDDEN {
            Err((ErrorKind::SessionExpired, expired_message()))
        } else if !is_success(status) {
            Err((ErrorKind::Transport, status_message(status)))
        } else {
            match body {
                Some(b) => Ok(b),
                None => Err((ErrorKind::Decode, unreadable_message())),
            }
        },
    }
}

/// What `check_reply` hands back, with texts in place of strings in the
/// failure.
pub open spec fn checked(r: Result<Body, Failure>) -> Result<Body, (ErrorKind, Seq<char>)> {
    match r {
        Ok(body) => Ok(body),
        Err(f) => Err(f@),
    }
}

/// Judges a reply: every answer of the service passes through here before
/// a command looks at it.
pub fn check_reply(reply: Reply) -> (r: Result<Body, Failure>)
    ensures
        checked(r) == judged(reply),
{
    match reply {
        Reply::Unsendable(cause) => {
            let mut message = String::from_str("Failed reading file: ");
            message.append(cause.as_str());
            Err(Failure { kind: ErrorKind::InvalidInput, message })
        },
        Reply::Unreachable(cause) => {
            let mut message = String::from_str("The request failed: ");
            message.append(cause.as_str());
            Err(Failure { kind: ErrorKind::Transport, message })
        },
        Reply::Answer { status, body } => {
            match exit_if_expired(status) {
                Some(f) => {
                    return Err(f);
                },
                None => {},
            }
            if status < 200 || status > 299 {
                let mut message = String::from_str("The service answered with status ");
                let number = decimal_text(status as u64);
                message.append(number.as_str());
                return Err(Failure { kind: ErrorKind::Transport, message });
            }
            match body {
                Some(b) => Ok(b),
                None => Err(
                    failure(ErrorKind::Decode, "The answer of the service could not be read."),
                ),
            }
        },
    }
}

} // verus!
