//! One exchange with one endpoint: what to send, and what to make of the
//! response. Data operations take two requests: the NameNode answers the
//! first with a redirect to the DataNode that takes the second.

use vstd::prelude::*;
use vstd::string::StringExecFns;
use crate::datatypes::RemoteException;
use crate::error::{Cause, Error, Result, StdResult};
use crate::natmap::{translated, NatMapPtr};
use crate::op::Method;
use crate::text::{decimal_chars, lossy_text, owned, push_decimal, str_eq, utf8_lossy};
use crate::uri::{uri_parse, view_of_parts, Uri, UriView};

verus! {

/// Required response content-type.
#[derive(Debug, PartialEq, Eq, Copy, Clone, Structural)]
pub enum RCT {
    /// Response must not have content-type (i.e., must be empty)
    Empty,
    /// Response must be application/json, with optional charset=utf-8
    JSON,
    /// Response must be application/octet-stream
    Binary,
}

impl RCT {
    pub open spec fn name(self) -> Seq<char> {
        match self {
            RCT::Empty => "None"@,
            RCT::JSON => "JSON"@,
            RCT::Binary => "Binary"@,
        }
    }

    pub fn as_str(&self) -> (r: &'static str)
        ensures
            r@ == self.name(),
    {
        match self {
            RCT::Empty => "None",
            RCT::JSON => "JSON",
            RCT::Binary => "Binary",
        }
    }
}

/// A header as the transport read it.
#[derive(Debug)]
pub enum HeaderField {
    /// The response has no such header.
    Absent,
    /// The header's value.
    Text(String),
    /// The value is no visible ASCII; the text says why it could not be read.
    Unreadable(String),
}

/// Status line and the two headers that the client looks at.
#[derive(Debug)]
pub struct ResponseHead {
    pub status: u16,
    pub location: HeaderField,
    pub content_type: HeaderField,
}

/// A media type: type, subtype, the `charset` parameter if there is one,
/// and the whole text, all in lower case.
#[derive(Debug)]
pub struct ContentType {
    pub type_: String,
    pub subtype: String,
    pub charset: Option<String>,
    pub source: String,
}

/// What `mime`'s parser makes of a text: `None` where it rejects the text,
/// else type, subtype, `charset` parameter and the whole media type.
pub uninterp spec fn mime_parse(s: Seq<char>) -> Option<
    (Seq<char>, Seq<char>, Option<Seq<char>>, Seq<char>),
>;

pub open spec fn content_type_view(ct: ContentType) -> (
    Seq<char>,
    Seq<char>,
    Option<Seq<char>>,
    Seq<char>,
) {
    (
        ct.type_@,
        ct.subtype@,
        match ct.charset {
            Some(c) => Some(c@),
            None => None,
        },
        ct.source@,
    )
}

/// Calls `mime::Mime`'s parser (`str::parse::<Mime>`) and reads from the
/// result `type_()`, `subtype()`, `get_param("charset")` and the whole text
/// (`as_ref()`). The contract names the outcome `mime_parse`.
#[verifier::external_body]
fn mime_from_str(s: &str) -> (r: StdResult<ContentType, mime::FromStrError>)
    ensures
        match r {
            Ok(ct) => mime_parse(s@) == Some(content_type_view(ct)),
            Err(_) => mime_parse(s@) is None,
        },
{
    let m = s.parse::<mime::Mime>()?;
    Ok(
        ContentType {
            type_: m.type_().as_str().to_string(),
            subtype: m.subtype().as_str().to_string(),
            charset: m.get_param("charset").map(|n| n.as_str().to_string()),
            source: m.as_ref().to_string(),
        },
    )
}

/// The text of a `mime::FromStrError` (its `Display`).
#[verifier::external_body]
fn mime_error_text(e: &mime::FromStrError) -> String {
    e.to_string()
}

pub open spec fn is_redirection(status: u16) -> bool {
    300 <= status < 400
}

pub open spec fn is_success(status: u16) -> bool {
    200 <= status < 300
}

/// The error that stands for a redirect: status and location where the
/// location can be read, else what is wrong with it.
pub open spec fn redirect_error(head: ResponseHead, e: Error) -> bool {
    match head.location {
        HeaderField::Text(l) => e.is_redirect(head.status, l@),
        HeaderField::Unreadable(t) => e.is_unreadable_header(t@),
        HeaderField::Absent => e.is_generic("Redirect without Location header"@),
    }
}

/// A redirect is reported as an error that carries status and location.
pub fn redirect_filter(head: &ResponseHead) -> (r: Result<()>)
    ensures
        !is_redirection(head.status) ==> r is Ok,
        is_redirection(head.status) ==> r is Err && redirect_error(*head, r->Err_0),
{
    if 300 <= head.status && head.status < 400 {
        match &head.location {
            HeaderField::Text(l) => Err(Error::from_http_redirect(head.status, l.clone())),
            HeaderField::Unreadable(t) => Err(Error::anon(Cause::HyperHeaderToStr(t.clone()))),
            HeaderField::Absent => Err(Error::app_c("Redirect without Location header")),
        }
    } else {
        Ok(())
    }
}

/// The media type of the response, if it names one.
pub fn content_type_extractor(head: &ResponseHead) -> (r: Result<Option<ContentType>>)
    ensures
        match head.content_type {
            HeaderField::Absent => r == Ok::<Option<ContentType>, Error>(None),
            HeaderField::Unreadable(t) => r is Err && r->Err_0.is_unreadable_header(t@),
            HeaderField::Text(s) => match mime_parse(s@) {
                Some(v) => r is Ok && r->Ok_0 is Some && content_type_view(r->Ok_0->0) == v,
                None => r is Err && r->Err_0.spec_msg() is None && r->Err_0.spec_cause()
                    is MimeFromStr,
            },
        },
{
    match &head.content_type {
        HeaderField::Absent => Ok(None),
        HeaderField::Unreadable(t) => Err(Error::anon(Cause::HyperHeaderToStr(t.clone()))),
        HeaderField::Text(s) => match mime_from_str(s.as_str()) {
            Ok(ct) => Ok(Some(ct)),
            Err(e) => Err(Error::anon(Cause::MimeFromStr(mime_error_text(&e)))),
        },
    }
}

/// Whether a media type is what the caller asked for: `application/json`
/// with no charset or with `utf-8`; `application/octet-stream` and nothing
/// besides; or no media type at all.
pub open spec fn mimes_match(ct: Option<ContentType>, ct_required: RCT) -> bool {
    match (ct, ct_required) {
        (Some(ct), RCT::JSON) => ct.type_@ == "application"@ && ct.subtype@ == "json"@ && (
        ct.charset matches Some(c) ==> c@ == "utf-8"@),
        (Some(ct), RCT::Binary) => ct.source@ == "application/octet-stream"@,
        (None, RCT::Empty) => true,
        _ => false,
    }
}

pub fn match_mimes(ct: &Option<ContentType>, ct_required: RCT) -> (r: bool)
    ensures
        r == mimes_match(*ct, ct_required),
{
    match (ct, ct_required) {
        (Some(ct), RCT::JSON) => str_eq(ct.type_.as_str(), "application") && str_eq(
            ct.subtype.as_str(),
            "json",
        ) && match &ct.charset {
            Some(c) => str_eq(c.as_str(), "utf-8"),
            None => true,
        },
        (Some(ct), RCT::Binary) => str_eq(ct.source.as_str(), "application/octet-stream"),
        (None, RCT::Empty) => true,
        _ => false,
    }
}

/// How a media type reads in a message: `None`, or `Some("..")`.
pub open spec fn content_type_text(ct: Option<ContentType>) -> Seq<char> {
    match ct {
        Some(ct) => "Some(\""@ + ct.source@ + "\")"@,
        None => "None"@,
    }
}

fn push_content_type(s: &mut String, ct: &Option<ContentType>)
    ensures
        final(s)@ == old(s)@ + content_type_text(*ct),
{
    match ct {
        Some(ct) => {
            s.append("Some(\"");
            s.append(ct.source.as_str());
            s.append("\")");
            assert(s@ =~= old(s)@ + content_type_text(Some(*ct)));
        },
        None => {
            s.append("None");
        },
    }
}

/// What the client does with a response once status and media type are known.
#[derive(Debug)]
pub enum Verdict {
    /// The response is what was asked for.
    Accept,
    /// The server reports a failure in a JSON body, which is to be read.
    ReadException,
    /// The response is refused with this error.
    Fail(Error),
}

pub open spec fn invalid_content_type_text(ct_required: RCT, ct: Option<ContentType>) -> Seq<char> {
    "Invalid content type: required='"@ + ct_required.name() + "' found='"@ + content_type_text(ct)
        + "'"@
}

pub open spec fn remote_error_text(status: u16, ct: Option<ContentType>) -> Seq<char> {
    "Remote error: "@ + decimal_chars(status as nat) + ", content-type: "@ + content_type_text(ct)
}

/// Success asks for the required media type; a failure with a JSON body is
/// a remote exception to be read; any other failure is a remote error.
pub open spec fn verdict_ok(v: Verdict, ct_required: RCT, status: u16, ct: Option<ContentType>) -> bool {
    if is_success(status) {
        if mimes_match(ct, ct_required) {
            v is Accept
        } else {
            v matches Verdict::Fail(e) && e.is_generic(invalid_content_type_text(ct_required, ct))
        }
    } else if mimes_match(ct, RCT::JSON) {
        v is ReadException
    } else {
        v matches Verdict::Fail(e) && e.is_generic(remote_error_text(status, ct))
    }
}

/// Decides on a response whose media type has been read.
pub fn decide(ct_required: RCT, status: u16, ct: &Option<ContentType>) -> (v: Verdict)
    ensures
        verdict_ok(v, ct_required, status, *ct),
{
    if 200 <= status && status < 300 {
        if match_mimes(ct, ct_required) {
            Verdict::Accept
        } else {
            let mut s = owned("Invalid content type: required='");
            s.append(ct_required.as_str());
            s.append("' found='");
            push_content_type(&mut s, ct);
            s.append("'");
            assert(s@ =~= invalid_content_type_text(ct_required, *ct));
            Verdict::Fail(Error::app_s(s))
        }
    } else if match_mimes(ct, RCT::JSON) {
        Verdict::ReadException
    } else {
        let mut s = owned("Remote error: ");
        push_decimal(&mut s, status as u64);
        s.append(", content-type: ");
        push_content_type(&mut s, ct);
        assert(s@ =~= remote_error_text(status, *ct));
        Verdict::Fail(Error::app_s(s))
    }
}

/// What holds of the verdict on a response that is no redirect: a media
/// type that cannot be read refuses the response, and any other is decided on.
pub open spec fn filtered(v: Verdict, ct_required: RCT, head: ResponseHead) -> bool {
    match head.content_type {
        HeaderField::Absent => verdict_ok(v, ct_required, head.status, None),
        HeaderField::Unreadable(t) => v is Fail && v->Fail_0.is_unreadable_header(t@),
        HeaderField::Text(s) => match mime_parse(s@) {
            Some(m) => exists|ct: ContentType|
                content_type_view(ct) == m && #[trigger] verdict_ok(
                    v,
                    ct_required,
                    head.status,
                    Some(ct),
                ),
            None => v is Fail && v->Fail_0.spec_msg() is None && v->Fail_0.spec_cause()
                is MimeFromStr,
        },
    }
}

/// Reads the media type and decides on the response.
pub fn error_and_ct_filter(ct_required: RCT, head: &ResponseHead) -> (v: Verdict)
    ensures
        filtered(v, ct_required, *head),
{
    match content_type_extractor(head) {
        Ok(ct) => decide(ct_required, head.status, &ct),
        Err(e) => Verdict::Fail(e),
    }
}

/// What holds of the verdict on any response: a redirect is refused with
/// its signal, and what is no redirect is filtered.
pub open spec fn classified(v: Verdict, ct_required: RCT, head: ResponseHead) -> bool {
    if is_redirection(head.status) {
        v is Fail && redirect_error(head, v->Fail_0)
    } else {
        filtered(v, ct_required, head)
    }
}

/// A response is first held against redirection, then against what was asked for.
pub fn classify(ct_required: RCT, head: &ResponseHead) -> (v: Verdict)
    ensures
        classified(v, ct_required, *head),
{
    match redirect_filter(head) {
        Ok(()) => error_and_ct_filter(ct_required, head),
        Err(e) => Verdict::Fail(e),
    }
}

/// An empty body is what an operation without result expects.
pub fn extract_empty(body: &[u8]) -> (r: Result<()>)
    ensures
        body@.len() == 0 ==> r is Ok,
        body@.len() > 0 ==> r is Err && r->Err_0.is_generic(
            "Unexpected non-empty response received, where empty is expected"@,
        ),
{
    if body.len() == 0 {
        Ok(())
    } else {
        Err(Error::app_c("Unexpected non-empty response received, where empty is expected"))
    }
}

/// Data being sent out.
pub type Data = Vec<u8>;

pub fn data_owned(d: Vec<u8>) -> (r: Data)
    ensures
        r@ == d@,
{
    d
}

pub fn data_borrowed(d: &'static [u8]) -> (r: Data)
    ensures
        r@ == d@,
{
    vstd::slice::slice_to_vec(d)
}

pub fn data_empty() -> (r: Data)
    ensures
        r@ == Seq::<u8>::empty(),
{
    Vec::new()
}

/// Error that contains optional data recovered from an unsuccessful write operation.
#[derive(Debug)]
pub struct ErrorD {
    pub error: Error,
    pub data_opt: Option<Data>,
}

impl ErrorD {
    pub fn new(error: Error, data_opt: Option<Data>) -> (r: Self)
        ensures
            r.error == error,
            r.data_opt == data_opt,
    {
        Self { error, data_opt }
    }

    pub fn d(error: Error, data: Data) -> (r: Self)
        ensures
            r.error == error,
            r.data_opt == Some(data),
    {
        Self::new(error, Some(data))
    }

    pub fn lift(error: Error) -> (r: Self)
        ensures
            r.error == error,
            r.data_opt is None,
    {
        Self::new(error, None)
    }

    pub fn drop(e: Self) -> (r: Error)
        ensures
            r == e.error,
    {
        e.error
    }

    /// The error of an operation that ran out of time; it holds no data.
    pub fn timeout() -> (r: Self)
        ensures
            r.error.is_anon(Cause::Timeout),
            r.data_opt is None,
    {
        Self::lift(Error::anon(Cause::Timeout))
    }
}

/// Result with optional data recovered from error.
pub type DResult<T> = StdResult<T, ErrorD>;

/// The target of a request.
#[derive(Debug)]
pub struct HttpxEndpoint {
    uri: Uri,
}

impl View for HttpxEndpoint {
    type V = UriView;

    closed spec fn view(&self) -> UriView {
        self.uri@
    }
}

impl HttpxEndpoint {
    pub fn new(uri: Uri) -> (r: Self)
        ensures
            r@ == uri@,
    {
        Self { uri }
    }

    pub fn uri(&self) -> (r: &Uri)
        ensures
            r@ == self@,
    {
        &self.uri
    }

    pub fn into_uri(self) -> (r: Uri)
        ensures
            r@ == self@,
    {
        self.uri
    }
}

/// A request for the transport to send.
#[derive(Debug)]
pub struct Request {
    pub method: Method,
    pub uri: Uri,
    pub body: Data,
}

/// A response that was accepted. The body of a `Json` or `Binary` response
/// is the caller's to read; an `Empty` one has been read and is empty.
#[derive(Debug, Clone, Copy, PartialEq, Eq, Structural)]
pub enum Reply {
    Empty,
    Json,
    Binary,
}

/// The body of a failure response, as far as the transport could read it.
#[derive(Debug)]
pub enum ExceptionBody {
    /// The body is a remote exception.
    Decoded(RemoteException),
    /// The body is no remote exception: why, and the bytes that were read.
    Undecodable { detail: String, body: Vec<u8> },
    /// The body could not be read: why.
    Unread(String),
}

/// The error that a failure response stands for.
pub open spec fn exception_error(b: ExceptionBody, e: Error) -> bool {
    match b {
        ExceptionBody::Decoded(re) => e.is_anon(Cause::RemoteException(re)),
        ExceptionBody::Undecodable { detail, body } => e.is_generic(
            "JSON-error deserialization error: "@ + detail@ + ", recovered text: '"@ + utf8_lossy(
                body@,
            ) + "'"@,
        ),
        ExceptionBody::Unread(t) => e.is_generic("JSON-error aggregation error: "@ + t@),
    }
}

/// Makes the error out of the body of a failure response.
pub fn remote_error(b: ExceptionBody) -> (e: Error)
    ensures
        exception_error(b, e),
{
    match b {
        ExceptionBody::Decoded(re) => Error::anon(Cause::RemoteException(re)),
        ExceptionBody::Undecodable { detail, body } => {
            let mut s = owned("JSON-error deserialization error: ");
            s.append(detail.as_str());
            s.append(", recovered text: '");
            let t = lossy_text(body.as_slice());
            s.append(t.as_str());
            s.append("'");
            Error::app_s(s)
        },
        ExceptionBody::Unread(t) => {
            let mut s = owned("JSON-error aggregation error: ");
            s.append(t.as_str());
            Error::app_s(s)
        },
    }
}

/// One exchange in progress.
pub struct Attempt {
    natmap: NatMapPtr,
    method: Method,
    expect: RCT,
    redirect: bool,
    data: Option<Data>,
}

/// An exchange in progress, as plain values: the NAT map, the method of its
/// requests, what the last response must hold, whether the redirect of the
/// NameNode is still awaited, and the payload not yet sent.
pub struct AttemptView {
    pub natmap: Map<Seq<char>, Seq<char>>,
    pub method: Method,
    pub expect: RCT,
    pub redirect: bool,
    pub data: Option<Seq<u8>>,
}

impl View for Attempt {
    type V = AttemptView;

    closed spec fn view(&self) -> AttemptView {
        AttemptView {
            natmap: self.natmap@,
            method: self.method,
            expect: self.expect,
            redirect: self.redirect,
            data: match self.data {
                Some(d) => Some(d@),
                None => None,
            },
        }
    }
}

/// An exchange that waits for the head of a response.
pub struct AwaitHead {
    a: Attempt,
}

/// An exchange that waits for the body of a response that must be empty.
pub struct AwaitBody {
    a: Attempt,
}

/// An exchange that waits for the body of a failure response.
pub struct AwaitException {
    a: Attempt,
}

impl View for AwaitHead {
    type V = AttemptView;

    closed spec fn view(&self) -> AttemptView {
        self.a@
    }
}

impl View for AwaitBody {
    type V = AttemptView;

    closed spec fn view(&self) -> AttemptView {
        self.a@
    }
}

impl View for AwaitException {
    type V = AttemptView;

    closed spec fn view(&self) -> AttemptView {
        self.a@
    }
}

/// What the transport is to do next.
pub enum Next {
    /// Send the request; hand the head of the response to `on_head`.
    Send(Request, AwaitHead),
    /// Read the whole body; hand it to `on_body`.
    ReadBody(AwaitBody),
    /// Read the body of the failure response; hand it to `on_exception`.
    ReadException(AwaitException),
    /// The exchange is over.
    Done(DResult<Reply>),
}

pub open spec fn data_view(d: Option<Data>) -> Option<Seq<u8>> {
    match d {
        Some(d) => Some(d@),
        None => None,
    }
}

impl Next {
    /// The next step sends this request and then waits in this state.
    pub open spec fn sends(self, method: Method, uri: UriView, body: Seq<u8>, then: AttemptView) -> bool {
        self matches Next::Send(req, st) && req.method == method && req.uri@ == uri && req.body@
            == body && st@ == then
    }

    /// The exchange ends with this error and this recovered payload.
    pub open spec fn fails(self, e: Error, data: Option<Seq<u8>>) -> bool {
        self matches Next::Done(Err(ed)) && ed.error == e && data_view(ed.data_opt) == data
    }
}

/// The payload of a request: what is given, or nothing.
pub open spec fn body_of(data: Option<Seq<u8>>) -> Seq<u8> {
    match data {
        Some(d) => d,
        None => Seq::empty(),
    }
}

pub open spec fn expected_redirect_text(status: u16) -> Seq<char> {
    "Expected redirect, found non-redirect response status="@ + decimal_chars(status as nat)
}

/// What follows a verdict on the head of a response.
///
/// While the redirect is awaited, a redirect leads to the second request:
/// to the location, translated by the NAT map, with the payload as body; a
/// location that is no URI, and every response that is no redirect, end the
/// exchange with an error that hands the payload back. After that, an
/// accepted response ends the exchange, an empty one once its body is read.
pub open spec fn after_verdict(st: AttemptView, status: u16, v: Verdict, n: Next) -> bool {
    match v {
        Verdict::ReadException => n matches Next::ReadException(s) && s@ == st,
        Verdict::Accept => if st.redirect {
            n matches Next::Done(Err(ed)) && ed.error.is_generic(expected_redirect_text(status))
                && data_view(ed.data_opt) == st.data
        } else {
            match st.expect {
                RCT::Empty => n matches Next::ReadBody(s) && s@ == st,
                RCT::JSON => n == Next::Done(Ok(Reply::Json)),
                RCT::Binary => n == Next::Done(Ok(Reply::Binary)),
            }
        },
        Verdict::Fail(e) => if st.redirect {
            match *e.spec_cause() {
                Cause::HttpRedirect(_, location) => match uri_parse(location@) {
                    Some(p) => n.sends(
                        st.method,
                        translated(st.natmap, view_of_parts(p)),
                        body_of(st.data),
                        AttemptView { redirect: false, data: None, ..st },
                    ),
                    None => n matches Next::Done(Err(ed)) && ed.error.spec_msg() is Some
                        && ed.error.spec_msg()->0@
                        == "Cannot parse location URI returned by redirect"@
                        && ed.error.spec_cause() is HttpInvalidUri && data_view(ed.data_opt)
                        == st.data,
                },
                _ => n.fails(e, st.data),
            }
        } else {
            n.fails(e, None)
        },
    }
}

impl Attempt {
    /// Acts on a verdict.
    pub fn apply_verdict(self, status: u16, v: Verdict) -> (n: Next)
        ensures
            after_verdict(self@, status, v, n),
    {
        let Attempt { natmap, method, expect, redirect, data } = self;
        match v {
            Verdict::ReadException => Next::ReadException(
                AwaitException { a: Attempt { natmap, method, expect, redirect, data } },
            ),
            Verdict::Accept => {
                if redirect {
                    let mut s = owned("Expected redirect, found non-redirect response status=");
                    push_decimal(&mut s, status as u64);
                    Next::Done(Err(ErrorD::new(Error::app_s(s), data)))
                } else {
                    match expect {
                        RCT::Empty => Next::ReadBody(
                            AwaitBody { a: Attempt { natmap, method, expect, redirect, data } },
                        ),
                        RCT::JSON => Next::Done(Ok(Reply::Json)),
                        RCT::Binary => Next::Done(Ok(Reply::Binary)),
                    }
                }
            },
            Verdict::Fail(e) => {
                if redirect {
                    match e.to_http_redirect() {
                        Ok((_code, location)) => match Uri::parse(location.as_str()) {
                            Ok(uri) => match natmap.translate(uri) {
                                Ok(target) => {
                                    let body = match data {
                                        Some(d) => d,
                                        None => data_empty(),
                                    };
                                    Next::Send(
                                        Request { method, uri: target, body },
                                        AwaitHead {
                                            a: Attempt {
                                                natmap,
                                                method,
                                                expect,
                                                redirect: false,
                                                data: None,
                                            },
                                        },
                                    )
                                },
                                Err(e) => Next::Done(Err(ErrorD::new(e, data))),
                            },
                            Err(e) => Next::Done(
                                Err(
                                    ErrorD::new(
                                        e.with_msg_prepended(
                                            owned("Cannot parse location URI returned by redirect"),
                                        ),
                                        data,
                                    ),
                                ),
                            ),
                        },
                        Err(e) => Next::Done(Err(ErrorD::new(e, data))),
                    }
                } else {
                    Next::Done(Err(ErrorD::lift(e)))
                }
            },
        }
    }
}

/// What follows the head of a response, or the failure of the transport.
///
/// A failure of the transport ends the exchange; the payload comes back
/// with it while it has not been sent. A response is classified, the
/// first of a data operation as one that must be empty, and the verdict
/// acted on.
pub open spec fn head_step(st: AttemptView, ev: Result<ResponseHead>, n: Next) -> bool {
    match ev {
        Err(e) => n.fails(e, st.data),
        Ok(head) => exists|v: Verdict|
            classified(
                v,
                if st.redirect {
                    RCT::Empty
                } else {
                    st.expect
                },
                head,
            ) && #[trigger] after_verdict(st, head.status, v, n),
    }
}

/// What follows the body of a response that must be empty.
pub open spec fn body_step(ev: Result<Vec<u8>>, n: Next) -> bool {
    match ev {
        Err(e) => n.fails(e, None),
        Ok(body) => if body@.len() == 0 {
            n == Next::Done(Ok(Reply::Empty))
        } else {
            n matches Next::Done(Err(ed)) && ed.error.is_generic(
                "Unexpected non-empty response received, where empty is expected"@,
            ) && ed.data_opt is None
        },
    }
}

/// What follows the body of a failure response: the exchange ends with the
/// error that the body stands for, and with the payload if it is unsent.
pub open spec fn exception_step(st: AttemptView, ev: ExceptionBody, n: Next) -> bool {
    n matches Next::Done(Err(ed)) && exception_error(ev, ed.error) && data_view(ed.data_opt)
        == st.data
}

/// Where a redirect leads to the second request, that request carries the
/// payload that the exchange held, byte for byte.
pub proof fn lemma_payload_sent(st: AttemptView, head: ResponseHead, n: Next, d: Seq<u8>)
    requires
        st.redirect,
        st.data == Some(d),
        head_step(st, Ok(head), n),
        n is Send,
    ensures
        n->Send_0.body@ == d,
        n->Send_0.method == st.method,
        n->Send_1@.data is None,
{
}

/// An error hands a payload back only where the exchange held one: what
/// reads never does.
pub proof fn lemma_data_only_where_held(
    st: AttemptView,
    ev: Result<ResponseHead>,
    body: ExceptionBody,
    n: Next,
)
    requires
        head_step(st, ev, n) || exception_step(st, body, n),
        st.data is None,
    ensures
        n matches Next::Done(Err(ed)) ==> ed.data_opt is None,
{
}

impl AwaitHead {
    /// Takes the head of the response, or the failure of the transport.
    pub fn on_head(self, ev: Result<ResponseHead>) -> (n: Next)
        ensures
            head_step(self@, ev, n),
            self@.data is Some ==> self@.redirect,
    {
        proof {
            use_type_invariant(&self);
        }
        let a = self.a;
        match ev {
            Err(e) => {
                let Attempt { natmap: _, method: _, expect: _, redirect: _, data } = a;
                Next::Done(Err(ErrorD::new(e, data)))
            },
            Ok(head) => {
                let v = classify(if a.redirect { RCT::Empty } else { a.expect }, &head);
                a.apply_verdict(head.status, v)
            },
        }
    }

    /// The payload is held only until the redirect has come.
    #[verifier::type_invariant]
    pub open spec fn inv(self) -> bool {
        self@.data is Some ==> self@.redirect
    }
}

impl AwaitBody {
    /// Takes the body of a response that must be empty.
    pub fn on_body(self, ev: Result<Vec<u8>>) -> (n: Next)
        ensures
            body_step(ev, n),
    {
        match ev {
            Err(e) => Next::Done(Err(ErrorD::lift(e))),
            Ok(body) => match extract_empty(body.as_slice()) {
                Ok(()) => Next::Done(Ok(Reply::Empty)),
                Err(e) => Next::Done(Err(ErrorD::lift(e))),
            },
        }
    }
}

impl AwaitException {
    /// Takes the body of a failure response.
    pub fn on_exception(self, ev: ExceptionBody) -> (n: Next)
        ensures
            exception_step(self@, ev, n),
    {
        let Attempt { natmap: _, method: _, expect: _, redirect: _, data } = self.a;
        Next::Done(Err(ErrorD::new(remote_error(ev), data)))
    }
}

/// A client for one exchange with one endpoint.
pub struct HttpyClient {
    endpoint: HttpxEndpoint,
    natmap: NatMapPtr,
}

impl HttpyClient {
    /// The URI of the endpoint.
    pub closed spec fn target(self) -> UriView {
        self.endpoint@
    }

    pub closed spec fn nat_map(self) -> Map<Seq<char>, Seq<char>> {
        self.natmap@
    }

    pub fn new(endpoint: HttpxEndpoint, natmap: NatMapPtr) -> (r: Self)
        ensures
            r.target() == endpoint@,
            r.nat_map() == natmap@,
    {
        Self { endpoint, natmap }
    }

    fn start(self, method: Method, expect: RCT, redirect: bool, data: Option<Data>) -> (n: Next)
        requires
            data is Some ==> redirect,
        ensures
            n.sends(
                method,
                self.target(),
                if redirect {
                    Seq::empty()
                } else {
                    body_of(data_view(data))
                },
                AttemptView { natmap: self.nat_map(), method, expect, redirect, data: data_view(data) },
            ),
    {
        let HttpyClient { endpoint, natmap } = self;
        Next::Send(
            Request { method, uri: endpoint.into_uri(), body: data_empty() },
            AwaitHead { a: Attempt { natmap, method, expect, redirect, data } },
        )
    }

    /// Single-step request to the NameNode, no input, JSON output.
    pub fn get_json(self) -> (n: Next)
        ensures
            n.sends(
                Method::GET,
                self.target(),
                Seq::empty(),
                AttemptView {
                    natmap: self.nat_map(),
                    method: Method::GET,
                    expect: RCT::JSON,
                    redirect: false,
                    data: None,
                },
            ),
    {
        self.start(Method::GET, RCT::JSON, false, None)
    }

    /// Single-step mutation request, empty input, JSON output.
    pub fn op_json(self, method: Method) -> (n: Next)
        ensures
            n.sends(
                method,
                self.target(),
                Seq::empty(),
                AttemptView {
                    natmap: self.nat_map(),
                    method,
                    expect: RCT::JSON,
                    redirect: false,
                    data: None,
                },
            ),
    {
        self.start(method, RCT::JSON, false, None)
    }

    /// Single-step mutation request, empty input, empty output.
    pub fn op_empty(self, method: Method) -> (n: Next)
        ensures
            n.sends(
                method,
                self.target(),
                Seq::empty(),
                AttemptView {
                    natmap: self.nat_map(),
                    method,
                    expect: RCT::Empty,
                    redirect: false,
                    data: None,
                },
            ),
    {
        self.start(method, RCT::Empty, false, None)
    }

    /// Two-step data retrieval request, no input, binary output.
    pub fn get_binary(self) -> (n: Next)
        ensures
            n.sends(
                Method::GET,
                self.target(),
                Seq::empty(),
                AttemptView {
                    natmap: self.nat_map(),
                    method: Method::GET,
                    expect: RCT::Binary,
                    redirect: true,
                    data: None,
                },
            ),
    {
        self.start(Method::GET, RCT::Binary, true, None)
    }

    /// Two-step data submission request, data input, empty output. The data
    /// comes back with the error while it has not been sent.
    pub fn post_binary(self, method: Method, data: Data) -> (n: Next)
        ensures
            n.sends(
                method,
                self.target(),
                Seq::empty(),
                AttemptView {
                    natmap: self.nat_map(),
                    method,
                    expect: RCT::Empty,
                    redirect: true,
                    data: Some(data@),
                },
            ),
    {
        self.start(method, RCT::Empty, true, Some(data))
    }
}

} // verus!
