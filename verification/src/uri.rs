//! URIs as the client sees them: an optional scheme, an optional authority
//! and an optional path with query, each kept as text.

use vstd::prelude::*;
use vstd::string::StringExecFns;
use crate::error::{Cause, Error, Result, StdResult};
use crate::text::owned;

verus! {

/// What `http::Uri`'s parser makes of a text: `None` where it rejects the
/// text, else the scheme, the authority and the path with query that it found.
pub uninterp spec fn uri_parse(s: Seq<char>) -> Option<
    (Option<Seq<char>>, Option<Seq<char>>, Option<Seq<char>>),
>;

/// What `http::uri::Builder` makes of a scheme, an authority and the bytes of
/// a path with query: `None` where it rejects them, else the parts of the URI.
pub uninterp spec fn uri_build(
    scheme: Option<Seq<char>>,
    authority: Option<Seq<char>>,
    path_and_query: Seq<u8>,
) -> Option<(Option<Seq<char>>, Option<Seq<char>>, Option<Seq<char>>)>;

/// Whether `http::uri::Authority`'s parser accepts a text.
pub uninterp spec fn authority_valid(s: Seq<char>) -> bool;

/// The parts of a URI, as plain text.
pub struct UriView {
    pub scheme: Option<Seq<char>>,
    pub authority: Option<Seq<char>>,
    pub path_and_query: Option<Seq<char>>,
}

impl UriView {
    /// The combinations of parts that make a URI: with a scheme, all three;
    /// without one, not both of the others.
    pub open spec fn well_formed(self) -> bool {
        if self.scheme is Some {
            self.authority is Some && self.path_and_query is Some
        } else {
            !(self.authority is Some && self.path_and_query is Some)
        }
    }

    /// The text of the URI: `scheme://`, the authority, then path and query.
    pub open spec fn render(self) -> Seq<char> {
        (match self.scheme {
            Some(s) => s + "://"@,
            None => Seq::empty(),
        }) + (match self.authority {
            Some(a) => a,
            None => Seq::empty(),
        }) + (match self.path_and_query {
            Some(p) => p,
            None => Seq::empty(),
        })
    }
}

pub open spec fn opt_view(s: Option<String>) -> Option<Seq<char>> {
    match s {
        Some(t) => Some(t@),
        None => None,
    }
}

pub open spec fn parts_view(p: (Option<String>, Option<String>, Option<String>)) -> (
    Option<Seq<char>>,
    Option<Seq<char>>,
    Option<Seq<char>>,
) {
    (opt_view(p.0), opt_view(p.1), opt_view(p.2))
}

pub open spec fn view_of_parts(
    p: (Option<Seq<char>>, Option<Seq<char>>, Option<Seq<char>>),
) -> UriView {
    UriView { scheme: p.0, authority: p.1, path_and_query: p.2 }
}

/// Calls `http::Uri`'s parser (`str::parse::<http::Uri>`) and takes the URI
/// apart with `Uri::into_parts`. The contract names the outcome `uri_parse`
/// and adds what `into_parts` shows of every URI: with a scheme there are an
/// authority and a path, without one there is at most one of the two.
#[verifier::external_body]
fn http_parse_uri(s: &str) -> (r: StdResult<
    (Option<String>, Option<String>, Option<String>),
    http::uri::InvalidUri,
>)
    ensures
        match r {
            Ok(p) => uri_parse(s@) == Some(parts_view(p)) && view_of_parts(
                parts_view(p),
            ).well_formed(),
            Err(_) => uri_parse(s@) is None,
        },
{
    let p = s.parse::<http::Uri>()?.into_parts();
    let path_and_query = p.path_and_query.map(|x| x.as_str().to_string());
    Ok((p.scheme.map(|x| x.as_str().to_string()), p.authority.map(|x| x.as_str().to_string()), path_and_query))
}

/// Calls `http::uri::Builder`: `scheme` and `authority` where they are given,
/// then `path_and_query` and `build`; the URI is taken apart as in
/// `http_parse_uri`, and a failure is handed back as its text. The contract
/// names the outcome `uri_build` and adds that the builder keeps scheme and
/// authority as they were given.
#[verifier::external_body]
fn http_build_uri(scheme: Option<&str>, authority: Option<&str>, path_and_query: &[u8]) -> (r:
    StdResult<(Option<String>, Option<String>, Option<String>), String>)
    ensures
        match r {
            Ok(p) => uri_build(
                match scheme { Some(s) => Some(s@), None => None },
                match authority { Some(a) => Some(a@), None => None },
                path_and_query@,
            ) == Some(parts_view(p)) && view_of_parts(parts_view(p)).well_formed() && opt_view(p.0)
                == (match scheme { Some(s) => Some(s@), None => None }) && opt_view(p.1)
                == (match authority { Some(a) => Some(a@), None => None }),
            Err(_) => uri_build(
                match scheme { Some(s) => Some(s@), None => None },
                match authority { Some(a) => Some(a@), None => None },
                path_and_query@,
            ) is None,
        },
{
    let mut b = http::Uri::builder();
    if let Some(s) = scheme {
        b = b.scheme(s);
    }
    if let Some(a) = authority {
        b = b.authority(a);
    }
    let p = match b.path_and_query(path_and_query).build() {
        Ok(u) => u.into_parts(),
        Err(e) => return Err(e.to_string()),
    };
    let path_and_query = p.path_and_query.map(|x| x.as_str().to_string());
    Ok((p.scheme.map(|x| x.as_str().to_string()), p.authority.map(|x| x.as_str().to_string()), path_and_query))
}

/// Calls `http::uri::Authority`'s parser (`str::parse::<Authority>`) and says
/// whether it accepted the text.
#[verifier::external_body]
fn http_check_authority(s: &str) -> (r: StdResult<(), http::uri::InvalidUri>)
    ensures
        r is Ok <==> authority_valid(s@),
{
    s.parse::<http::uri::Authority>().map(|_a| ())
}

/// The text of an `http::uri::InvalidUri` (its `Display`).
#[verifier::external_body]
fn invalid_uri_text(e: &http::uri::InvalidUri) -> String {
    e.to_string()
}

/// A URI.
#[derive(Debug)]
pub struct Uri {
    scheme: Option<String>,
    authority: Option<String>,
    path_and_query: Option<String>,
}

impl View for Uri {
    type V = UriView;

    closed spec fn view(&self) -> UriView {
        UriView {
            scheme: opt_view(self.scheme),
            authority: opt_view(self.authority),
            path_and_query: opt_view(self.path_and_query),
        }
    }
}

/// The URI that `r` holds, if it holds one.
pub open spec fn parsed(r: Result<Uri>) -> Option<UriView> {
    match r {
        Ok(u) => Some(u@),
        Err(_) => None,
    }
}

impl Uri {
    /// Every URI is well formed.
    #[verifier::type_invariant]
    pub open spec fn inv(self) -> bool {
        self@.well_formed()
    }

    /// Parses a URI. Fails with cause `HttpInvalidUri` exactly where the
    /// parser rejects the text.
    pub fn parse(s: &str) -> (r: Result<Uri>)
        ensures
            match uri_parse(s@) {
                Some(p) => r is Ok && r->Ok_0@ == view_of_parts(p),
                None => r is Err && r->Err_0.spec_msg() is None && r->Err_0.spec_cause()
                    is HttpInvalidUri,
            },
            r is Ok ==> r->Ok_0@.well_formed(),
    {
        match http_parse_uri(s) {
            Ok((scheme, authority, path_and_query)) => Ok(Uri { scheme, authority, path_and_query }),
            Err(e) => Err(Error::anon(Cause::HttpInvalidUri(invalid_uri_text(&e)))),
        }
    }

    /// Builds a URI from the scheme and authority of an entrypoint and the
    /// bytes of a path with query. Fails with cause `Http` exactly where the
    /// builder rejects them.
    pub fn build(scheme: Option<&str>, authority: Option<&str>, path_and_query: &[u8]) -> (r:
        Result<Uri>)
        ensures
            match uri_build(
                match scheme { Some(s) => Some(s@), None => None },
                match authority { Some(a) => Some(a@), None => None },
                path_and_query@,
            ) {
                Some(p) => r is Ok && r->Ok_0@ == view_of_parts(p),
                None => r is Err && r->Err_0.spec_msg() is None && r->Err_0.spec_cause() is Http,
            },
            r is Ok ==> r->Ok_0@.well_formed(),
            r is Ok ==> r->Ok_0@.scheme == (match scheme { Some(s) => Some(s@), None => None }),
            r is Ok ==> r->Ok_0@.authority == (match authority { Some(a) => Some(a@), None => None }),
    {
        match http_build_uri(scheme, authority, path_and_query) {
            Ok((scheme, authority, path_and_query)) => Ok(Uri { scheme, authority, path_and_query }),
            Err(e) => Err(Error::anon(Cause::Http(e))),
        }
    }

    /// Puts a URI together from its parts. Fails with cause
    /// `HttpInvalidUriParts` exactly where the combination makes no URI.
    pub fn from_parts(
        scheme: Option<String>,
        authority: Option<String>,
        path_and_query: Option<String>,
    ) -> (r: Result<Uri>)
        ensures
            ({
                let v = UriView {
                    scheme: opt_view(scheme),
                    authority: opt_view(authority),
                    path_and_query: opt_view(path_and_query),
                };
                if v.well_formed() {
                    r is Ok && r->Ok_0@ == v
                } else {
                    r is Err && r->Err_0.spec_msg() is None && r->Err_0.spec_cause()
                        is HttpInvalidUriParts
                }
            }),
    {
        if scheme.is_some() {
            if authority.is_none() {
                return Err(Error::anon(Cause::HttpInvalidUriParts(owned("authority missing"))));
            }
            if path_and_query.is_none() {
                return Err(Error::anon(Cause::HttpInvalidUriParts(owned("path missing"))));
            }
        } else if authority.is_some() && path_and_query.is_some() {
            return Err(Error::anon(Cause::HttpInvalidUriParts(owned("scheme missing"))));
        }
        Ok(Uri { scheme, authority, path_and_query })
    }

    /// Takes the URI apart.
    pub fn into_parts(self) -> (r: (Option<String>, Option<String>, Option<String>))
        ensures
            view_of_parts(parts_view(r)) == self@,
    {
        (self.scheme, self.authority, self.path_and_query)
    }

    pub fn scheme(&self) -> (r: Option<&str>)
        ensures
            (match r { Some(s) => Some(s@), None => None }) == self@.scheme,
    {
        match &self.scheme {
            Some(s) => Some(s.as_str()),
            None => None,
        }
    }

    pub fn authority(&self) -> (r: Option<&str>)
        ensures
            (match r { Some(s) => Some(s@), None => None }) == self@.authority,
    {
        match &self.authority {
            Some(s) => Some(s.as_str()),
            None => None,
        }
    }

    pub fn path_and_query(&self) -> (r: Option<&str>)
        ensures
            (match r { Some(s) => Some(s@), None => None }) == self@.path_and_query,
    {
        match &self.path_and_query {
            Some(s) => Some(s.as_str()),
            None => None,
        }
    }

    /// The text of the URI.
    pub fn to_string(&self) -> (r: String)
        ensures
            r@ == self@.render(),
    {
        let mut s = String::new();
        if let Some(t) = &self.scheme {
            s.append(t.as_str());
            s.append("://");
        }
        if let Some(t) = &self.authority {
            s.append(t.as_str());
        }
        if let Some(t) = &self.path_and_query {
            s.append(t.as_str());
        }
        assert(s@ =~= self@.render());
        s
    }

    /// A copy of the URI.
    pub fn duplicate(&self) -> (r: Uri)
        ensures
            r@ == self@,
            r@.well_formed(),
    {
        proof {
            use_type_invariant(self);
        }
        Uri {
            scheme: self.scheme.clone(),
            authority: self.authority.clone(),
            path_and_query: self.path_and_query.clone(),
        }
    }
}

/// Whether an authority text is one that `http` accepts; fails with cause
/// `HttpInvalidUri` where it is not.
pub fn check_authority(s: &str) -> (r: Result<()>)
    ensures
        r is Ok <==> authority_valid(s@),
        r is Err ==> r->Err_0.spec_msg() is None && r->Err_0.spec_cause() is HttpInvalidUri,
{
    match http_check_authority(s) {
        Ok(()) => Ok(()),
        Err(e) => Err(Error::anon(Cause::HttpInvalidUri(invalid_uri_text(&e)))),
    }
}

} // verus!
