//! Errors: a tagged cause and an optional stack of annotations.

use vstd::prelude::*;
use vstd::string::StringExecFns;
use crate::datatypes::RemoteException;
use crate::text::{decimal_chars, owned, push_decimal, str_eq};

verus! {

/// The kinds of local I/O failure that the library itself tells apart.
#[derive(Debug, Clone, Copy, PartialEq, Eq, Structural)]
pub enum IoErrorKind {
    InvalidInput,
    TimedOut,
    Other,
}

/// A local I/O failure: its kind and, where there is one, its message.
#[derive(Debug)]
pub struct IoError {
    pub kind: IoErrorKind,
    pub msg: Option<String>,
}

impl IoError {
    /// The message, or the standard description of the kind where there is none.
    pub open spec fn render(self) -> Seq<char> {
        match self.msg {
            Some(m) => m@,
            None => match self.kind {
                IoErrorKind::InvalidInput => "invalid input parameter"@,
                IoErrorKind::TimedOut => "timed out"@,
                IoErrorKind::Other => "other error"@,
            },
        }
    }

    /// A copy of the failure.
    pub fn duplicate(&self) -> (r: IoError)
        ensures
            r == *self,
    {
        IoError {
            kind: self.kind,
            msg: match &self.msg {
                Some(m) => Some(m.clone()),
                None => None,
            },
        }
    }

    pub fn to_string(&self) -> (r: String)
        ensures
            r@ == self.render(),
    {
        match &self.msg {
            Some(m) => m.clone(),
            None => match self.kind {
                IoErrorKind::InvalidInput => owned("invalid input parameter"),
                IoErrorKind::TimedOut => owned("timed out"),
                IoErrorKind::Other => owned("other error"),
            },
        }
    }
}

/// What went wrong. Failures of the transport and of the decoders carry the
/// text that the failing layer gave.
#[derive(Debug)]
pub enum Cause {
    Generic,
    Hyper(String),
    HyperHeaderToStr(String),
    MimeFromStr(String),
    SerdeJson(String),
    SerdeToml(String),
    Http(String),
    HttpInvalidUri(String),
    HttpInvalidUriParts(String),
    Io(IoError),
    Tls(String),
    RemoteException(RemoteException),
    HttpRedirect(u16, String),
    Timeout,
}

impl Cause {
    /// The `; caused by ...` part of an error's text; empty where there is no cause.
    pub open spec fn render(self) -> Seq<char> {
        match self {
            Cause::Hyper(e) => "; caused by hyper::error::Error: "@ + e@,
            Cause::HyperHeaderToStr(e) => "; caused by hyper::header::ToStrError: "@ + e@,
            Cause::MimeFromStr(e) => "; caused by mime::FromStrError: "@ + e@,
            Cause::SerdeJson(e) => "; caused by serde_json::Error: "@ + e@,
            Cause::SerdeToml(e) => "; caused by toml::de::Error: "@ + e@,
            Cause::Http(e) => "; caused by http::Error: "@ + e@,
            Cause::HttpInvalidUri(e) => "; caused by http::uri::InvalidUri: "@ + e@,
            Cause::HttpInvalidUriParts(e) => "; caused by http::uri::InvalidUriParts: "@ + e@,
            Cause::Io(e) => "; caused by IoError: "@ + e.render(),
            Cause::Tls(e) => "; caused by native_tls::Error: "@ + e@,
            Cause::RemoteException(e) => "; caused by RemoteException "@ + e.render(),
            Cause::HttpRedirect(code, location) => "; caused by HTTP redirect "@ + decimal_chars(
                code as nat,
            ) + " "@ + location@,
            Cause::Timeout => "; caused by Timeout"@,
            Cause::Generic => Seq::empty(),
        }
    }

    /// The text of the underlying failure, where the cause wraps one.
    pub open spec fn source_text(self) -> Option<Seq<char>> {
        match self {
            Cause::Hyper(e) => Some(e@),
            Cause::HyperHeaderToStr(e) => Some(e@),
            Cause::MimeFromStr(e) => Some(e@),
            Cause::SerdeJson(e) => Some(e@),
            Cause::SerdeToml(e) => Some(e@),
            Cause::Http(e) => Some(e@),
            Cause::HttpInvalidUri(e) => Some(e@),
            Cause::HttpInvalidUriParts(e) => Some(e@),
            Cause::Io(e) => Some(e.render()),
            Cause::Tls(e) => Some(e@),
            Cause::RemoteException(e) => Some(e.render()),
            Cause::HttpRedirect(_, _) => None,
            Cause::Timeout => None,
            Cause::Generic => None,
        }
    }

    /// Whether this is the remote exception by which a standby NameNode refuses work.
    pub open spec fn is_standby(self) -> bool {
        match self {
            Cause::RemoteException(e) => e.exception@ == "StandbyException"@,
            _ => false,
        }
    }
}

pub type StdResult<T, E> = std::result::Result<T, E>;

pub type Result<T> = StdResult<T, Error>;

/// An error: its cause, and the annotations that the layers above attached,
/// newest first, one per line.
#[derive(Debug)]
pub struct Error {
    msg: Option<String>,
    cause: Cause,
}

impl Error {
    /// The annotations, if any were attached.
    pub closed spec fn spec_msg(self) -> Option<String> {
        self.msg
    }

    pub closed spec fn spec_cause(&self) -> &Cause {
        &self.cause
    }

    /// The annotations, or `GENERIC` where there are none.
    pub open spec fn msg_text(self) -> Seq<char> {
        match self.spec_msg() {
            Some(m) => m@,
            None => "GENERIC"@,
        }
    }

    /// The text of `to_string`.
    pub open spec fn render(self) -> Seq<char> {
        "AppError: "@ + self.msg_text() + self.spec_cause().render()
    }

    /// An error without cause whose only annotation is `text`.
    pub open spec fn is_generic(self, text: Seq<char>) -> bool {
        self.spec_msg() is Some && self.spec_msg()->0@ == text && *self.spec_cause()
            == Cause::Generic
    }

    /// An error with the given cause and no annotation.
    pub open spec fn is_anon(self, cause: Cause) -> bool {
        self.spec_msg() is None && *self.spec_cause() == cause
    }

    /// The signal of a redirect to `location`, without annotation.
    pub open spec fn is_redirect(self, status: u16, location: Seq<char>) -> bool {
        self.spec_msg() is None && match *self.spec_cause() {
            Cause::HttpRedirect(c, l) => c == status && l@ == location,
            _ => false,
        }
    }

    /// A header that could not be read as text, without annotation.
    pub open spec fn is_unreadable_header(self, text: Seq<char>) -> bool {
        self.spec_msg() is None && match *self.spec_cause() {
            Cause::HyperHeaderToStr(d) => d@ == text,
            _ => false,
        }
    }

    /// Whether this is the remote exception by which a standby NameNode refuses work.
    pub open spec fn spec_is_standby(&self) -> bool {
        self.spec_cause().is_standby()
    }

    #[verifier::when_used_as_spec(spec_is_standby)]
    pub fn is_standby(&self) -> (r: bool)
        ensures
            r == self.spec_is_standby(),
    {
        match &self.cause {
            Cause::RemoteException(e) => str_eq(e.exception.as_str(), "StandbyException"),
            _ => false,
        }
    }

    pub fn new(msg: Option<String>, cause: Cause) -> (r: Self)
        ensures
            r.spec_msg() == msg,
            *r.spec_cause() == cause,
    {
        Error { msg, cause }
    }

    pub fn anon(cause: Cause) -> (r: Self)
        ensures
            r.spec_msg() is None,
            *r.spec_cause() == cause,
    {
        Self::new(None, cause)
    }

    /// Puts `msg` on a line of its own above the annotations already there.
    pub fn with_msg_prepended(self, msg: String) -> (r: Self)
        ensures
            r.spec_msg() is Some,
            r.spec_msg()->0@ == match self.spec_msg() {
                Some(m) => msg@ + "\n"@ + m@,
                None => msg@,
            },
            r.spec_cause() == self.spec_cause(),
    {
        let Error { msg: old_msg, cause } = self;
        let m = match old_msg {
            Some(m) => {
                let mut s = msg;
                s.append("\n");
                s.append(m.as_str());
                s
            },
            None => msg,
        };
        Error { msg: Some(m), cause }
    }

    pub fn app_c(msg: &'static str) -> (r: Self)
        ensures
            r.spec_msg() is Some,
            r.spec_msg()->0@ == msg@,
            *r.spec_cause() == Cause::Generic,
    {
        Error::new(Some(owned(msg)), Cause::Generic)
    }

    pub fn app_s(msg: String) -> (r: Self)
        ensures
            r.spec_msg() == Some(msg),
            *r.spec_cause() == Cause::Generic,
    {
        Error::new(Some(msg), Cause::Generic)
    }

    pub fn msg_s(&self) -> (r: &str)
        ensures
            r@ == self.msg_text(),
    {
        match &self.msg {
            Some(m) => m.as_str(),
            None => "GENERIC",
        }
    }

    #[verifier::when_used_as_spec(spec_cause)]
    pub fn cause(&self) -> (r: &Cause)
        ensures
            r == self.spec_cause(),
    {
        &self.cause
    }

    pub fn from_http_redirect(status: u16, location: String) -> (r: Self)
        ensures
            r.spec_msg() is None,
            *r.spec_cause() == Cause::HttpRedirect(status, location),
    {
        Self::new(None, Cause::HttpRedirect(status, location))
    }

    /// The status and location of a redirect; any other error comes back unchanged.
    pub fn to_http_redirect(self) -> (r: Result<(u16, String)>)
        ensures
            match *self.spec_cause() {
                Cause::HttpRedirect(code, location) => r == Ok::<(u16, String), Error>(
                    (code, location),
                ),
                _ => r == Err::<(u16, String), Error>(self),
            },
    {
        let Error { msg, cause } = self;
        match cause {
            Cause::HttpRedirect(code, location) => Ok((code, location)),
            other => Err(Self::new(msg, other)),
        }
    }

    pub fn timeout_c(msg: &'static str) -> (r: Self)
        ensures
            r.spec_msg() is Some,
            r.spec_msg()->0@ == msg@,
            *r.spec_cause() == Cause::Timeout,
    {
        Self::new(Some(owned(msg)), Cause::Timeout)
    }

    /// `AppError: ` and the annotations, then the cause where there is one.
    pub fn to_string(&self) -> (r: String)
        ensures
            r@ == self.render(),
    {
        let mut s = owned("AppError: ");
        s.append(self.msg_s());
        match &self.cause {
            Cause::Hyper(e) => {
                s.append("; caused by hyper::error::Error: ");
                s.append(e.as_str());
            },
            Cause::HyperHeaderToStr(e) => {
                s.append("; caused by hyper::header::ToStrError: ");
                s.append(e.as_str());
            },
            Cause::MimeFromStr(e) => {
                s.append("; caused by mime::FromStrError: ");
                s.append(e.as_str());
            },
            Cause::SerdeJson(e) => {
                s.append("; caused by serde_json::Error: ");
                s.append(e.as_str());
            },
            Cause::SerdeToml(e) => {
                s.append("; caused by toml::de::Error: ");
                s.append(e.as_str());
            },
            Cause::Http(e) => {
                s.append("; caused by http::Error: ");
                s.append(e.as_str());
            },
            Cause::HttpInvalidUri(e) => {
                s.append("; caused by http::uri::InvalidUri: ");
                s.append(e.as_str());
            },
            Cause::HttpInvalidUriParts(e) => {
                s.append("; caused by http::uri::InvalidUriParts: ");
                s.append(e.as_str());
            },
            Cause::Io(e) => {
                s.append("; caused by IoError: ");
                let t = e.to_string();
                s.append(t.as_str());
            },
            Cause::Tls(e) => {
                s.append("; caused by native_tls::Error: ");
                s.append(e.as_str());
            },
            Cause::RemoteException(e) => {
                s.append("; caused by RemoteException ");
                let t = e.to_string();
                s.append(t.as_str());
            },
            Cause::HttpRedirect(code, location) => {
                s.append("; caused by HTTP redirect ");
                push_decimal(&mut s, *code as u64);
                s.append(" ");
                s.append(location.as_str());
            },
            Cause::Timeout => {
                s.append("; caused by Timeout");
            },
            Cause::Generic => {},
        }
        assert(s@ =~= self.render());
        s
    }

    /// The text of the failure underneath, where the cause wraps one.
    pub fn source(&self) -> (r: Option<String>)
        ensures
            r is Some <==> self.spec_cause().source_text() is Some,
            r is Some ==> r->0@ == self.spec_cause().source_text()->0,
    {
        match &self.cause {
            Cause::Hyper(e) => Some(e.clone()),
            Cause::HyperHeaderToStr(e) => Some(e.clone()),
            Cause::MimeFromStr(e) => Some(e.clone()),
            Cause::SerdeJson(e) => Some(e.clone()),
            Cause::SerdeToml(e) => Some(e.clone()),
            Cause::Http(e) => Some(e.clone()),
            Cause::HttpInvalidUri(e) => Some(e.clone()),
            Cause::HttpInvalidUriParts(e) => Some(e.clone()),
            Cause::Io(e) => Some(e.to_string()),
            Cause::Tls(e) => Some(e.clone()),
            Cause::RemoteException(e) => Some(e.to_string()),
            Cause::HttpRedirect(_, _) => None,
            Cause::Timeout => None,
            Cause::Generic => None,
        }
    }

    /// The local I/O failure that stands for this error: an I/O cause without
    /// annotation is handed back as it is, a timeout becomes `TimedOut`, and
    /// everything else `Other` with the error's text.
    pub open spec fn into_io_spec(self, r: IoError) -> bool {
        match (self.spec_msg(), *self.spec_cause()) {
            (None, Cause::Io(io)) => r == io,
            (Some(m), Cause::Timeout) => r.kind == IoErrorKind::TimedOut && r.msg == Some(m),
            (None, Cause::Timeout) => r.kind == IoErrorKind::TimedOut && r.msg is None,
            _ => r.kind == IoErrorKind::Other && r.msg is Some && r.msg->0@ == self.render(),
        }
    }

    /// The local I/O failure that stands for this error.
    pub fn into_io(self) -> (r: IoError)
        ensures
            self.into_io_spec(r),
    {
        let text = self.to_string();
        let Error { msg, cause } = self;
        match (msg, cause) {
            (None, Cause::Io(io)) => io,
            (Some(m), Cause::Timeout) => IoError { kind: IoErrorKind::TimedOut, msg: Some(m) },
            (None, Cause::Timeout) => IoError { kind: IoErrorKind::TimedOut, msg: None },
            _ => IoError { kind: IoErrorKind::Other, msg: Some(text) },
        }
    }
}

/// What can be turned into an error with an annotation.
pub trait IntoErrorAnnotated: Sized {
    /// Whether `r` is this value with the annotation `msg`.
    spec fn annotated(self, msg: Seq<char>, r: Error) -> bool;

    fn into_with(self, msg: String) -> (r: Error)
        ensures
            self.annotated(msg@, r),
    ;

    fn into_with_c(self, msg: &'static str) -> (r: Error)
        ensures
            self.annotated(msg@, r),
    {
        self.into_with(owned(msg))
    }

    fn into_with_s(self, msg: String) -> (r: Error)
        ensures
            self.annotated(msg@, r),
    {
        self.into_with(msg)
    }
}

impl IntoErrorAnnotated for Error {
    /// The annotation is put above those that the error has.
    open spec fn annotated(self, msg: Seq<char>, r: Error) -> bool {
        r.spec_msg() is Some && r.spec_msg()->0@ == (match self.spec_msg() {
            Some(m) => msg + "\n"@ + m@,
            None => msg,
        }) && r.spec_cause() == self.spec_cause()
    }

    fn into_with(self, msg: String) -> (r: Error) {
        self.with_msg_prepended(msg)
    }
}

impl IntoErrorAnnotated for Cause {
    /// The cause becomes an error with this one annotation.
    open spec fn annotated(self, msg: Seq<char>, r: Error) -> bool {
        r.spec_msg() is Some && r.spec_msg()->0@ == msg && *r.spec_cause() == self
    }

    fn into_with(self, msg: String) -> (r: Error) {
        Error::new(Some(msg), self)
    }
}

/// Results whose error can be annotated.
pub trait AnnotateError<T>: Sized {
    /// Whether `r` is this result, its error annotated with `msg`.
    spec fn annotated(self, msg: Seq<char>, r: Result<T>) -> bool;

    /// Whether there is no error to annotate.
    spec fn unannotated(self) -> bool;

    /// Annotates the error, if there is one.
    fn aerr(self, msg: &'static str) -> (r: Result<T>)
        ensures
            self.annotated(msg@, r),
    ;

    /// Annotates the error, if there is one, with a message that is made only then.
    fn aerr_f<F: FnOnce() -> String>(self, msg_f: F) -> (r: Result<T>)
        requires
            msg_f.requires(()),
        ensures
            self.unannotated() ==> self.annotated(Seq::empty(), r),
            !self.unannotated() ==> exists|m: String|
                msg_f.ensures((), m) && #[trigger] self.annotated(m@, r),
    ;
}

impl<T, E: IntoErrorAnnotated> AnnotateError<T> for StdResult<T, E> {
    open spec fn annotated(self, msg: Seq<char>, r: Result<T>) -> bool {
        match self {
            Ok(v) => r == Ok::<T, Error>(v),
            Err(e) => r is Err && e.annotated(msg, r->Err_0),
        }
    }

    open spec fn unannotated(self) -> bool {
        self is Ok
    }

    fn aerr(self, msg: &'static str) -> (r: Result<T>) {
        match self {
            Ok(v) => Ok(v),
            Err(e) => Err(e.into_with(owned(msg))),
        }
    }

    fn aerr_f<F: FnOnce() -> String>(self, msg_f: F) -> (r: Result<T>) {
        match self {
            Ok(v) => Ok(v),
            Err(e) => {
                let m = msg_f();
                let r = Err(e.into_with(m));
                assert(msg_f.ensures((), m) && self.annotated(m@, r));
                r
            },
        }
    }
}

} // verus!
