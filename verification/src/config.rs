//! Configuration values and the `key=value` lines of NAT map files.

use vstd::prelude::*;
use vstd::string::StrSliceExecFns;
use vstd::string::StringExecFns;
use crate::error::{Cause, Error, IoError, Result, StdResult};
use crate::text::{find_char, first_index, lemma_first_index, owned};
use crate::uri::{Uri, UriView};

verus! {

/// A span of time: whole seconds and the nanoseconds beyond them.
#[derive(Debug, Clone, Copy, PartialEq, Eq, Structural)]
pub struct Duration {
    pub secs: u64,
    pub nanos: u32,
}

impl Duration {
    pub fn from_secs(secs: u64) -> (r: Self)
        ensures
            r == (Duration { secs, nanos: 0 }),
    {
        Duration { secs, nanos: 0 }
    }
}

/// A URI as it stands in a configuration.
#[derive(Debug)]
pub struct UriW {
    uri: Uri,
}

impl View for UriW {
    type V = UriView;

    closed spec fn view(&self) -> UriView {
        self.uri@
    }
}

impl UriW {
    pub fn new(uri: Uri) -> (r: Self)
        ensures
            r@ == uri@,
    {
        Self { uri }
    }

    pub fn into_uri(self) -> (r: Uri)
        ensures
            r@ == self@,
    {
        self.uri
    }
}

/// TLS settings as configured: files, protocol versions by name, and the
/// relaxations of certificate and hostname checks.
#[derive(Debug)]
pub struct HttpsConfig {
    pub identity_file: Option<String>,
    pub identity_password: Option<String>,
    pub root_certificates: Option<Vec<String>>,
    pub min_protocol_version: Option<String>,
    pub max_protocol_version: Option<String>,
    pub danger_accept_invalid_certs: Option<bool>,
    pub danger_accept_invalid_hostnames: Option<bool>,
    pub use_sni: Option<bool>,
}

impl HttpsConfig {
    /// A configuration that sets nothing.
    pub fn new() -> (r: Self)
        ensures
            r.identity_file is None,
            r.identity_password is None,
            r.root_certificates is None,
            r.min_protocol_version is None,
            r.max_protocol_version is None,
            r.danger_accept_invalid_certs is None,
            r.danger_accept_invalid_hostnames is None,
            r.use_sni is None,
    {
        HttpsConfig {
            identity_file: None,
            identity_password: None,
            root_certificates: None,
            min_protocol_version: None,
            max_protocol_version: None,
            danger_accept_invalid_certs: None,
            danger_accept_invalid_hostnames: None,
            use_sni: None,
        }
    }
}

/// What a client is built from. Only the entrypoint is required.
#[derive(Debug)]
pub struct Config {
    pub entrypoint: UriW,
    pub alt_entrypoint: Option<UriW>,
    pub default_timeout: Option<Duration>,
    pub user_name: Option<String>,
    pub doas: Option<String>,
    pub dt: Option<String>,
    pub natmap: Option<Vec<(String, String)>>,
    pub https: Option<HttpsConfig>,
}

impl Config {
    /// A configuration that names the entrypoint and nothing else.
    pub fn new(uri: Uri) -> (r: Self)
        ensures
            r.entrypoint@ == uri@,
            r.alt_entrypoint is None,
            r.default_timeout is None,
            r.user_name is None,
            r.doas is None,
            r.dt is None,
            r.natmap is None,
            r.https is None,
    {
        Self {
            entrypoint: UriW::new(uri),
            alt_entrypoint: None,
            default_timeout: None,
            user_name: None,
            doas: None,
            dt: None,
            natmap: None,
            https: None,
        }
    }
}

/// What `split_kv` makes of a line: key and value around the first `=`, or
/// an error that quotes the line where it has no `=`.
pub open spec fn kv_split(l: Seq<char>, r: Result<(String, String)>) -> bool {
    match first_index(l, '=') {
        Some(i) => r is Ok && r->Ok_0.0@ == l.subrange(0, i) && r->Ok_0.1@ == l.subrange(
            i + 1,
            l.len() as int,
        ),
        None => r is Err && r->Err_0.is_generic("cannot read entry value: "@ + l),
    }
}

/// Splits a `key=value` string in two parts, at the first `=`.
pub fn split_kv(l: String) -> (r: Result<(String, String)>)
    ensures
        kv_split(l@, r),
{
    split_kv_str(l.as_str())
}

/// `split_kv` on a borrowed line.
pub fn split_kv_str(s: &str) -> (r: Result<(String, String)>)
    ensures
        kv_split(s@, r),
{
    proof {
        lemma_first_index(s@, '=');
    }
    match find_char(s, '=') {
        Some(i) => {
            let n = s.unicode_len();
            let a = owned(s.substring_char(0, i));
            let b = owned(s.substring_char(i + 1, n));
            Ok((a, b))
        },
        None => {
            let mut m = owned("cannot read entry value: ");
            m.append(s);
            Err(Error::app_s(m))
        },
    }
}

/// The lines before `n`, as far as they can be read and split.
pub open spec fn lines_ok(lines: Seq<StdResult<String, IoError>>, n: int) -> bool {
    forall|j: int|
        0 <= j < n ==> (#[trigger] lines[j]) is Ok && first_index(lines[j]->Ok_0@, '=') is Some
}

pub open spec fn key_of(l: Seq<char>) -> Seq<char> {
    l.subrange(0, first_index(l, '=')->0)
}

pub open spec fn value_of(l: Seq<char>) -> Seq<char> {
    l.subrange(first_index(l, '=')->0 + 1, l.len() as int)
}

/// What `read_kv_lines` makes of the lines: one pair for each line, in
/// order, or the error of the first line that cannot be read or split.
pub open spec fn kv_lines(
    lines: Seq<StdResult<String, IoError>>,
    r: Result<Vec<(String, String)>>,
) -> bool {
    if lines_ok(lines, lines.len() as int) {
        r is Ok && r->Ok_0.len() == lines.len() && forall|j: int|
            0 <= j < lines.len() ==> (#[trigger] r->Ok_0[j]).0@ == key_of(lines[j]->Ok_0@)
                && r->Ok_0[j].1@ == value_of(lines[j]->Ok_0@)
    } else {
        r is Err && exists|i: int|
            0 <= i < lines.len() && lines_ok(lines, i) && match #[trigger] lines[i] {
                Ok(l) => first_index(l@, '=') is None && r->Err_0.is_generic(
                    "cannot read entry value: "@ + l@,
                ),
                Err(e) => r->Err_0.spec_msg() is Some && r->Err_0.spec_msg()->0@
                    == "cannot read natmap line"@ && *r->Err_0.spec_cause() == Cause::Io(e),
            }
    }
}

/// Reads an object consisting of `key=value` lines.
pub fn read_kv_lines(lines: Vec<StdResult<String, IoError>>) -> (r: Result<Vec<(String, String)>>)
    ensures
        kv_lines(lines@, r),
{
    let mut out: Vec<(String, String)> = Vec::new();
    let n = lines.len();
    let mut k: usize = 0;
    while k < n
        invariant
            k <= n,
            n == lines.len(),
            lines_ok(lines@, k as int),
            out.len() == k,
            forall|j: int|
                0 <= j < k ==> (#[trigger] out[j]).0@ == key_of(lines[j]->Ok_0@) && out[j].1@
                    == value_of(lines[j]->Ok_0@),
        decreases n - k,
    {
        match &lines[k] {
            Ok(line) => match split_kv_str(line.as_str()) {
                Ok(kv) => {
                    out.push(kv);
                },
                Err(e) => {
                    assert(!lines_ok(lines@, lines.len() as int)) by {
                        assert(first_index(lines@[k as int]->Ok_0@, '=') is None);
                    }
                    return Err(e);
                },
            },
            Err(e) => {
                assert(!lines_ok(lines@, lines.len() as int)) by {
                    assert(lines@[k as int] is Err);
                }
                return Err(
                    Error::new(Some(owned("cannot read natmap line")), Cause::Io(e.duplicate())),
                );
            },
        }
        k = k + 1;
    }
    Ok(out)
}

/// What the search for a configuration makes of what the three places
/// hold: the first configuration that was found, the place named by the
/// environment before the working directory before the home directory. A
/// place that holds a broken configuration ends the search with its error,
/// whatever the other places hold.
pub open spec fn config_found(
    env: Result<Option<Config>>,
    local: Result<Option<Config>>,
    user: Result<Option<Config>>,
    r: Result<Option<Config>>,
) -> bool {
    match env {
        Err(e) => r is Err && annotated_with(
            e,
            "Configuration error (file specified by WEBHDFS_CONFIG environment var)"@,
            r->Err_0,
        ),
        Ok(a) => match local {
            Err(e) => r is Err && annotated_with(
                e,
                "Configuration error (webhdfs.toml in CWD)"@,
                r->Err_0,
            ),
            Ok(b) => match user {
                Err(e) => r is Err && annotated_with(
                    e,
                    "Configuration error (.webhdfs.toml in homedir)"@,
                    r->Err_0,
                ),
                Ok(c) => r == Ok::<Option<Config>, Error>(
                    if a is Some {
                        a
                    } else if b is Some {
                        b
                    } else {
                        c
                    },
                ),
            },
        },
    }
}

/// `r` is `e` with `msg` above its annotations.
pub open spec fn annotated_with(e: Error, msg: Seq<char>, r: Error) -> bool {
    r.spec_msg() is Some && r.spec_msg()->0@ == (match e.spec_msg() {
        Some(m) => msg + "\n"@ + m@,
        None => msg,
    }) && r.spec_cause() == e.spec_cause()
}

/// Picks the configuration to use out of what the three places hold.
pub fn read_config_opt(
    env: Result<Option<Config>>,
    local: Result<Option<Config>>,
    user: Result<Option<Config>>,
) -> (r: Result<Option<Config>>)
    ensures
        config_found(env, local, user, r),
{
    let a = match env {
        Ok(a) => a,
        Err(e) => {
            return Err(
                e.with_msg_prepended(
                    owned("Configuration error (file specified by WEBHDFS_CONFIG environment var)"),
                ),
            );
        },
    };
    let b = match local {
        Ok(b) => b,
        Err(e) => {
            return Err(e.with_msg_prepended(owned("Configuration error (webhdfs.toml in CWD)")));
        },
    };
    let c = match user {
        Ok(c) => c,
        Err(e) => {
            return Err(
                e.with_msg_prepended(owned("Configuration error (.webhdfs.toml in homedir)")),
            );
        },
    };
    if a.is_some() {
        Ok(a)
    } else if b.is_some() {
        Ok(b)
    } else {
        Ok(c)
    }
}

/// The configuration that was found, or the error that none was.
pub fn read_config(found: Option<Config>) -> (r: Result<Config>)
    ensures
        match found {
            Some(c) => r == Ok::<Config, Error>(c),
            None => r is Err && r->Err_0.is_generic(
                "No valid configuration file has been found"@,
            ),
        },
{
    match found {
        Some(c) => Ok(c),
        None => Err(Error::app_c("No valid configuration file has been found")),
    }
}

} // verus!
