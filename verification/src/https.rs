//! TLS settings: what a configuration asks of the transport.

use vstd::prelude::*;
use vstd::string::StringExecFns;
use crate::config::HttpsConfig;
use crate::error::{Error, Result};
use crate::text::{owned, str_eq};

verus! {

/// TLS protocol versions.
#[derive(Debug, Clone, Copy, PartialEq, Eq, Structural)]
pub enum Protocol {
    Sslv3,
    Tlsv10,
    Tlsv11,
    Tlsv12,
}

/// What the name of a protocol version stands for: a version, no check at
/// all (`no_check`), or nothing.
pub open spec fn protocol_of(s: Seq<char>) -> Option<Option<Protocol>> {
    if s == "Sslv3"@ {
        Some(Some(Protocol::Sslv3))
    } else if s == "Tlsv10"@ {
        Some(Some(Protocol::Tlsv10))
    } else if s == "Tlsv11"@ {
        Some(Some(Protocol::Tlsv11))
    } else if s == "Tlsv12"@ {
        Some(Some(Protocol::Tlsv12))
    } else if s == "no_check"@ {
        Some(None)
    } else {
        None
    }
}

pub open spec fn invalid_protocol_text(s: Seq<char>) -> Seq<char> {
    "Invalid TLS protocol version setting '"@ + s + "'"@
}

/// Reads the name of a protocol version.
pub fn pv(s: &str) -> (r: Result<Option<Protocol>>)
    ensures
        match protocol_of(s@) {
            Some(p) => r == Ok::<Option<Protocol>, Error>(p),
            None => r is Err && r->Err_0.is_generic(invalid_protocol_text(s@)),
        },
{
    if str_eq(s, "Sslv3") {
        Ok(Some(Protocol::Sslv3))
    } else if str_eq(s, "Tlsv10") {
        Ok(Some(Protocol::Tlsv10))
    } else if str_eq(s, "Tlsv11") {
        Ok(Some(Protocol::Tlsv11))
    } else if str_eq(s, "Tlsv12") {
        Ok(Some(Protocol::Tlsv12))
    } else if str_eq(s, "no_check") {
        Ok(None)
    } else {
        let mut m = owned("Invalid TLS protocol version setting '");
        m.append(s);
        m.append("'");
        Err(Error::app_s(m))
    }
}

/// TLS settings, checked: the protocol versions are read, the password of
/// the identity is there, and the files are still to be read.
#[derive(Debug)]
pub struct HttpsSettings {
    pub danger_accept_invalid_certs: Option<bool>,
    pub danger_accept_invalid_hostnames: Option<bool>,
    pub use_sni: Option<bool>,
    pub min_protocol_version: Option<Option<Protocol>>,
    pub max_protocol_version: Option<Option<Protocol>>,
    pub identity_file: Option<String>,
    pub identity_password: String,
    pub root_certificates: Vec<String>,
}

/// The protocol version that an optional name stands for; `None` where the name is wrong.
pub open spec fn opt_protocol(s: Option<String>) -> Option<Option<Option<Protocol>>> {
    match s {
        Some(n) => match protocol_of(n@) {
            Some(p) => Some(Some(p)),
            None => None,
        },
        None => Some(None),
    }
}

/// What `https_settings_from_config_f` makes of a configuration: settings
/// that take every value over, or the error of the first protocol version,
/// the lower before the upper, whose name is wrong.
pub open spec fn settings_of(config: HttpsConfig, r: Result<HttpsSettings>) -> bool {
    match opt_protocol(config.min_protocol_version) {
        None => r is Err && r->Err_0.is_generic(
            invalid_protocol_text(config.min_protocol_version->0@),
        ),
        Some(min) => match opt_protocol(config.max_protocol_version) {
            None => r is Err && r->Err_0.is_generic(
                invalid_protocol_text(config.max_protocol_version->0@),
            ),
            Some(max) => r is Ok && ({
                let s = r->Ok_0;
                &&& s.danger_accept_invalid_certs == config.danger_accept_invalid_certs
                &&& s.danger_accept_invalid_hostnames == config.danger_accept_invalid_hostnames
                &&& s.use_sni == config.use_sni
                &&& s.min_protocol_version == min
                &&& s.max_protocol_version == max
                &&& s.identity_file == config.identity_file
                &&& s.identity_password@ == match config.identity_password {
                    Some(p) => p@,
                    None => Seq::<char>::empty(),
                }
                &&& s.root_certificates@ == match config.root_certificates {
                    Some(c) => c@,
                    None => Seq::<String>::empty(),
                }
            }),
        },
    }
}

/// Checks the TLS settings of a configuration.
pub fn https_settings_from_config_f(config: HttpsConfig) -> (r: Result<HttpsSettings>)
    ensures
        settings_of(config, r),
{
    let HttpsConfig {
        identity_file,
        identity_password,
        root_certificates,
        min_protocol_version,
        max_protocol_version,
        danger_accept_invalid_certs,
        danger_accept_invalid_hostnames,
        use_sni,
    } = config;
    let identity_password = match identity_password {
        Some(s) => s,
        None => String::new(),
    };
    let min = match &min_protocol_version {
        Some(w) => match pv(w.as_str()) {
            Ok(p) => Some(p),
            Err(e) => {
                return Err(e);
            },
        },
        None => None,
    };
    let max = match &max_protocol_version {
        Some(w) => match pv(w.as_str()) {
            Ok(p) => Some(p),
            Err(e) => {
                return Err(e);
            },
        },
        None => None,
    };
    let root_certificates = match root_certificates {
        Some(c) => c,
        None => Vec::new(),
    };
    Ok(
        HttpsSettings {
            danger_accept_invalid_certs,
            danger_accept_invalid_hostnames,
            use_sni,
            min_protocol_version: min,
            max_protocol_version: max,
            identity_file,
            identity_password,
            root_certificates,
        },
    )
}

/// The error of an identity file that could not be read, naming the file.
pub fn identity_error(file: &str, e: Error) -> (r: Error)
    ensures
        r.spec_msg() is Some,
        r.spec_msg()->0@ == match e.spec_msg() {
            Some(m) => "read_identity_file("@ + file@ + "): error"@ + "\n"@ + m@,
            None => "read_identity_file("@ + file@ + "): error"@,
        },
        r.spec_cause() == e.spec_cause(),
{
    let mut m = owned("read_identity_file(");
    m.append(file);
    m.append("): error");
    e.with_msg_prepended(m)
}

} // verus!
