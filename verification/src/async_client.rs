//! The client: URI assembly, the operations, and failover between the
//! primary and the alternate NameNode.

use vstd::prelude::*;
use vstd::string::StringExecFns;
use vstd::string::StringSliceAdditionalSpecFns;
use crate::config::{Config, Duration};
use crate::error::{Error, Result, StdResult};
use crate::natmap::{entries_map, entries_view, NatMap, NatMapPtr};
use crate::op::{
    add_args, args_text, AppendOptions, CreateOptions, CreateSymlinkOptions, DeleteOptions, Method,
    MkdirsOptions, Op, OpArg, OpenOptions,
};
use crate::rest_client::{
    body_step, data_view, exception_step, head_step, AttemptView, AwaitBody, AwaitException,
    AwaitHead, DResult, Data, ErrorD, ExceptionBody, HttpxEndpoint, HttpyClient, Next, Reply,
    Request, ResponseHead, RCT,
};
use crate::text::{lossy_text, owned, utf8_lossy};
use crate::uri::{
    authority_valid, check_authority, opt_view, uri_build, view_of_parts, Uri, UriView,
};
use crate::uri_tools::{encode, join_path, param_head, PathEncoder};

verus! {

/// Failover state. PRIMARY === entrypoint is active. ALT === alt_entrypoint is active
#[derive(Clone, Copy, Debug, PartialEq, Eq, Structural)]
pub enum FOState {
    PRIMARY,
    ALT,
}

impl FOState {
    pub open spec fn spec_is_alt(&self) -> bool {
        *self == FOState::ALT
    }

    pub open spec fn spec_next(self) -> FOState {
        if self == FOState::ALT {
            FOState::PRIMARY
        } else {
            FOState::ALT
        }
    }

    #[verifier::when_used_as_spec(spec_is_alt)]
    pub fn is_alt(&self) -> (r: bool)
        ensures
            r == self.spec_is_alt(),
    {
        if let Self::ALT = self {
            true
        } else {
            false
        }
    }

    /// The other state.
    #[verifier::when_used_as_spec(spec_next)]
    pub fn next(self) -> (r: Self)
        ensures
            r == self.spec_next(),
    {
        if let Self::ALT = self {
            Self::PRIMARY
        } else {
            Self::ALT
        }
    }
}

pub type FOStdResult<T, E> = StdResult<(T, FOState), (E, FOState)>;

pub type FOResult<T> = FOStdResult<T, Error>;

pub type FODResult<T> = FOStdResult<T, ErrorD>;

pub struct FOR;

impl FOR {
    /// Parts a result from the failover state that came with it.
    pub fn split<T, E>(r: FOStdResult<T, E>) -> (out: (StdResult<T, E>, FOState))
        ensures
            match r {
                Ok((v, s)) => out == (Ok::<T, E>(v), s),
                Err((e, s)) => out == (Err::<T, E>(e), s),
            },
    {
        match r {
            Ok((r, s)) => (Ok(r), s),
            Err((e, s)) => (Err(e), s),
        }
    }

    /// Joins a result and a failover state.
    pub fn bind<T, E>(r: StdResult<T, E>, fostate: FOState) -> (out: FOStdResult<T, E>)
        ensures
            match r {
                Ok(v) => out == Ok::<(T, FOState), (E, FOState)>((v, fostate)),
                Err(e) => out == Err::<(T, FOState), (E, FOState)>((e, fostate)),
            },
    {
        match r {
            Ok(r) => Ok((r, fostate)),
            Err(e) => Err((e, fostate)),
        }
    }
}

/// What to do after an attempt: hand the result on, or try the other NameNode.
pub enum FOAction<T, D> {
    Proceed(Result<T>),
    FailOver(D),
}

/// Asynchronous WebHDFS client
pub struct HdfsClient {
    entrypoint: Uri,
    alt_entrypoint: Option<Uri>,
    natmap: NatMapPtr,
    default_timeout: Duration,
    user_name: Option<String>,
    doas: Option<String>,
    dt: Option<String>,
}

/// A client as plain values.
pub struct HdfsClientView {
    pub entrypoint: UriView,
    pub alt_entrypoint: Option<UriView>,
    pub natmap: Map<Seq<char>, Seq<char>>,
    pub default_timeout: Duration,
    pub user_name: Option<Seq<char>>,
    pub doas: Option<Seq<char>>,
    pub dt: Option<Seq<char>>,
}

/// The text so far, with `key=value` added where there is a value.
pub open spec fn with_param(acc: (Seq<u8>, bool), key: Seq<u8>, v: Option<Seq<char>>) -> (
    Seq<u8>,
    bool,
) {
    match v {
        Some(t) => (acc.0 + param_head(acc.1, key) + encode(vstd::utf8::encode_utf8(t), false), true),
        None => acc,
    }
}

impl HdfsClientView {
    /// The entrypoint that a failover state stands for: the alternate one
    /// where it is configured and the state names it, else the primary.
    pub open spec fn entry(self, s: FOState) -> UriView {
        if s.is_alt() {
            match self.alt_entrypoint {
                Some(a) => a,
                None => self.entrypoint,
            }
        } else {
            self.entrypoint
        }
    }

    /// Path and query of a request: `/webhdfs/v1` and the encoded path, then
    /// `user.name`, `doas` and `delegation` where they are set, then `op`,
    /// then the arguments in their order.
    pub open spec fn query_text(self, path: Seq<u8>, op: Op, args: Seq<OpArg>) -> Seq<u8> {
        let base = join_path(join_path(Seq::empty(), "/webhdfs/v1".spec_bytes()), path);
        let a = with_param((base, false), "user.name".spec_bytes(), self.user_name);
        let b = with_param(a, "doas".spec_bytes(), self.doas);
        let c = with_param(b, "delegation".spec_bytes(), self.dt);
        c.0 + param_head(c.1, "op".spec_bytes()) + encode(
            vstd::utf8::encode_utf8(op.name()),
            false,
        ) + args_text(true, args)
    }
}

impl View for HdfsClient {
    type V = HdfsClientView;

    closed spec fn view(&self) -> HdfsClientView {
        HdfsClientView {
            entrypoint: self.entrypoint@,
            alt_entrypoint: match self.alt_entrypoint {
                Some(u) => Some(u@),
                None => None,
            },
            natmap: self.natmap@,
            default_timeout: self.default_timeout,
            user_name: opt_view(self.user_name),
            doas: opt_view(self.doas),
            dt: opt_view(self.dt),
        }
    }
}

/// Builder for `HdfsClient`
pub struct HdfsClientBuilder {
    c: HdfsClient,
}

impl View for HdfsClientBuilder {
    type V = HdfsClientView;

    closed spec fn view(&self) -> HdfsClientView {
        self.c@
    }
}

pub const DEFAULT_TIMEOUT_S: u64 = 30;

pub open spec fn opt_uri_view(u: Option<crate::config::UriW>) -> Option<UriView> {
    match u {
        Some(u) => Some(u@),
        None => None,
    }
}

/// The client that a configuration describes.
pub open spec fn configured(conf: Config) -> HdfsClientView {
    HdfsClientView {
        entrypoint: conf.entrypoint@,
        alt_entrypoint: opt_uri_view(conf.alt_entrypoint),
        natmap: match conf.natmap {
            Some(m) => entries_map(entries_view(m@)),
            None => Map::empty(),
        },
        default_timeout: match conf.default_timeout {
            Some(t) => t,
            None => Duration { secs: DEFAULT_TIMEOUT_S, nanos: 0 },
        },
        user_name: opt_view(conf.user_name),
        doas: opt_view(conf.doas),
        dt: opt_view(conf.dt),
    }
}

/// Whether every replacement in the NAT map of a configuration is an authority.
pub open spec fn natmap_valid(conf: Config) -> bool {
    conf.natmap matches Some(m) ==> forall|i: int|
        0 <= i < m.len() ==> authority_valid(#[trigger] m[i].1@)
}

impl HdfsClientBuilder {
    /// Creates new builder from entrypoint
    pub fn new(entrypoint: Uri) -> (r: Self)
        ensures
            r@ == (HdfsClientView {
                entrypoint: entrypoint@,
                alt_entrypoint: None,
                natmap: Map::empty(),
                default_timeout: Duration { secs: DEFAULT_TIMEOUT_S, nanos: 0 },
                user_name: None,
                doas: None,
                dt: None,
            }),
    {
        Self {
            c: HdfsClient {
                entrypoint,
                alt_entrypoint: None,
                natmap: NatMapPtr::empty(),
                default_timeout: Duration::from_secs(DEFAULT_TIMEOUT_S),
                user_name: None,
                doas: None,
                dt: None,
            },
        }
    }

    /// Creates new builder from the specified configuration, whose NAT map
    /// must hold authorities only.
    pub fn from_explicit_config(conf: Config) -> (r: Self)
        requires
            natmap_valid(conf),
        ensures
            r@ == configured(conf),
    {
        let Config {
            entrypoint,
            alt_entrypoint,
            default_timeout,
            user_name,
            doas,
            dt,
            natmap,
            https: _,
        } = conf;
        let natmap = match natmap {
            Some(m) => match NatMap::new(m) {
                Ok(m) => NatMapPtr::new(m),
                Err(_) => vstd::pervasive::unreached(),
            },
            None => NatMapPtr::empty(),
        };
        Self {
            c: HdfsClient {
                entrypoint: entrypoint.into_uri(),
                alt_entrypoint: match alt_entrypoint {
                    Some(u) => Some(u.into_uri()),
                    None => None,
                },
                natmap,
                default_timeout: match default_timeout {
                    Some(t) => t,
                    None => Duration::from_secs(DEFAULT_TIMEOUT_S),
                },
                user_name,
                doas,
                dt,
            },
        }
    }

    /// Creates new builder from the specified configuration; fails at the
    /// first replacement in its NAT map that is no authority, naming its key.
    pub fn try_from_explicit_config(conf: Config) -> (r: Result<Self>)
        ensures
            natmap_valid(conf) <==> r is Ok,
            r is Ok ==> r->Ok_0@ == configured(conf),
            r is Err ==> r->Err_0.spec_cause() is HttpInvalidUri && exists|i: int|
                0 <= i < conf.natmap->0.len() && !authority_valid(#[trigger] conf.natmap->0[i].1@)
                    && (forall|j: int|
                    0 <= j < i ==> authority_valid(#[trigger] conf.natmap->0[j].1@))
                    && r->Err_0.spec_msg() is Some && r->Err_0.spec_msg()->0@
                    == "cannot parse NAT value for k="@ + conf.natmap->0[i].0@,
    {
        if let Some(m) = &conf.natmap {
            let mut i: usize = 0;
            while i < m.len()
                invariant
                    i <= m.len(),
                    conf.natmap == Some(*m),
                    forall|j: int| 0 <= j < i ==> authority_valid(#[trigger] m[j].1@),
                decreases m.len() - i,
            {
                match check_authority(m[i].1.as_str()) {
                    Ok(()) => {},
                    Err(e) => {
                        let mut msg = owned("cannot parse NAT value for k=");
                        msg.append(m[i].0.as_str());
                        return Err(e.with_msg_prepended(msg));
                    },
                }
                i = i + 1;
            }
        }
        Ok(Self::from_explicit_config(conf))
    }

    pub fn alt_entrypoint(self, alt_entrypoint: Uri) -> (r: Self)
        ensures
            r@ == (HdfsClientView { alt_entrypoint: Some(alt_entrypoint@), ..self@ }),
    {
        let HdfsClient { entrypoint, alt_entrypoint: _, natmap, default_timeout, user_name, doas, dt } =
            self.c;
        Self {
            c: HdfsClient {
                entrypoint,
                alt_entrypoint: Some(alt_entrypoint),
                natmap,
                default_timeout,
                user_name,
                doas,
                dt,
            },
        }
    }

    pub fn natmap(self, natmap: NatMap) -> (r: Self)
        ensures
            r@ == (HdfsClientView { natmap: natmap@, ..self@ }),
    {
        let HdfsClient { entrypoint, alt_entrypoint, natmap: _, default_timeout, user_name, doas, dt } =
            self.c;
        Self {
            c: HdfsClient {
                entrypoint,
                alt_entrypoint,
                natmap: NatMapPtr::new(natmap),
                default_timeout,
                user_name,
                doas,
                dt,
            },
        }
    }

    pub fn default_timeout(self, timeout: Duration) -> (r: Self)
        ensures
            r@ == (HdfsClientView { default_timeout: timeout, ..self@ }),
    {
        let HdfsClient { entrypoint, alt_entrypoint, natmap, default_timeout: _, user_name, doas, dt } =
            self.c;
        Self {
            c: HdfsClient {
                entrypoint,
                alt_entrypoint,
                natmap,
                default_timeout: timeout,
                user_name,
                doas,
                dt,
            },
        }
    }

    pub fn user_name(self, user_name: String) -> (r: Self)
        ensures
            r@ == (HdfsClientView { user_name: Some(user_name@), ..self@ }),
    {
        let HdfsClient { entrypoint, alt_entrypoint, natmap, default_timeout, user_name: _, doas, dt } =
            self.c;
        Self {
            c: HdfsClient {
                entrypoint,
                alt_entrypoint,
                natmap,
                default_timeout,
                user_name: Some(user_name),
                doas,
                dt,
            },
        }
    }

    pub fn doas(self, doas: String) -> (r: Self)
        ensures
            r@ == (HdfsClientView { doas: Some(doas@), ..self@ }),
    {
        let HdfsClient { entrypoint, alt_entrypoint, natmap, default_timeout, user_name, doas: _, dt } =
            self.c;
        Self {
            c: HdfsClient {
                entrypoint,
                alt_entrypoint,
                natmap,
                default_timeout,
                user_name,
                doas: Some(doas),
                dt,
            },
        }
    }

    pub fn delegation_token(self, dt: String) -> (r: Self)
        ensures
            r@ == (HdfsClientView { dt: Some(dt@), ..self@ }),
    {
        let HdfsClient { entrypoint, alt_entrypoint, natmap, default_timeout, user_name, doas, dt: _ } =
            self.c;
        Self {
            c: HdfsClient {
                entrypoint,
                alt_entrypoint,
                natmap,
                default_timeout,
                user_name,
                doas,
                dt: Some(dt),
            },
        }
    }

    pub fn build(self) -> (r: HdfsClient)
        ensures
            r@ == self@,
    {
        self.c
    }
}

/// The shape of an operation: how many requests it takes, with which method,
/// and what the last response holds.
#[derive(Clone, Copy, Debug, PartialEq, Eq, Structural)]
pub enum Kind {
    /// One `GET`, answered in JSON.
    GetJson,
    /// One request without body, answered in JSON.
    OpJson(Method),
    /// One request without body, answered by an empty response.
    OpEmpty(Method),
    /// A `GET` that is redirected to the DataNode that streams the bytes.
    GetBinary,
    /// A request that is redirected to the DataNode that takes the payload.
    PostBinary(Method),
}

impl Kind {
    pub open spec fn method(self) -> Method {
        match self {
            Kind::GetJson => Method::GET,
            Kind::OpJson(m) => m,
            Kind::OpEmpty(m) => m,
            Kind::GetBinary => Method::GET,
            Kind::PostBinary(m) => m,
        }
    }

    pub open spec fn expect(self) -> RCT {
        match self {
            Kind::GetJson => RCT::JSON,
            Kind::OpJson(_) => RCT::JSON,
            Kind::OpEmpty(_) => RCT::Empty,
            Kind::GetBinary => RCT::Binary,
            Kind::PostBinary(_) => RCT::Empty,
        }
    }

    pub open spec fn redirect(self) -> bool {
        self is GetBinary || self is PostBinary
    }

    /// The shape of each operation: listing and status are read in JSON;
    /// `OPEN` streams bytes; `CREATE` and `APPEND` send a payload; `CONCAT`
    /// and `CREATESYMLINK` answer with nothing; `MKDIRS`, `RENAME` and
    /// `DELETE` answer in JSON.
    pub open spec fn spec_of(op: Op) -> Kind {
        match op {
            Op::LISTSTATUS | Op::GETFILESTATUS => Kind::GetJson,
            Op::OPEN => Kind::GetBinary,
            Op::CREATE => Kind::PostBinary(Method::PUT),
            Op::APPEND => Kind::PostBinary(Method::POST),
            Op::CONCAT => Kind::OpEmpty(Method::POST),
            Op::MKDIRS => Kind::OpJson(Method::PUT),
            Op::RENAME => Kind::OpJson(Method::PUT),
            Op::CREATESYMLINK => Kind::OpEmpty(Method::PUT),
            Op::DELETE => Kind::OpJson(Method::DELETE),
        }
    }

    #[verifier::when_used_as_spec(spec_of)]
    pub fn of(op: Op) -> (r: Kind)
        ensures
            r == Kind::spec_of(op),
    {
        match op {
            Op::LISTSTATUS | Op::GETFILESTATUS => Kind::GetJson,
            Op::OPEN => Kind::GetBinary,
            Op::CREATE | Op::APPEND => Kind::PostBinary(op.method()),
            Op::CONCAT | Op::CREATESYMLINK => Kind::OpEmpty(op.method()),
            Op::MKDIRS | Op::RENAME | Op::DELETE => Kind::OpJson(op.method()),
        }
    }
}

/// An operation in progress, as plain values: the client, path and query of
/// its requests, its shape, the failover state it is in, and whether it has
/// failed over already.
pub struct CallView {
    pub client: HdfsClientView,
    pub pq: Seq<u8>,
    pub kind: Kind,
    pub fostate: FOState,
    pub retried: bool,
}

/// An operation in progress.
pub struct Call<'c> {
    client: &'c HdfsClient,
    pq: Vec<u8>,
    kind: Kind,
    fostate: FOState,
    retried: bool,
}

impl<'c> View for Call<'c> {
    type V = CallView;

    closed spec fn view(&self) -> CallView {
        CallView {
            client: self.client@,
            pq: self.pq@,
            kind: self.kind,
            fostate: self.fostate,
            retried: self.retried,
        }
    }
}

/// An operation and the exchange that it waits on.
pub struct PendingView {
    pub call: CallView,
    pub st: AttemptView,
}

/// An operation that waits for the head of a response.
pub struct CallHead<'c> {
    call: Call<'c>,
    st: AwaitHead,
}

/// An operation that waits for the body of a response that must be empty.
pub struct CallBody<'c> {
    call: Call<'c>,
    st: AwaitBody,
}

/// An operation that waits for the body of a failure response.
pub struct CallException<'c> {
    call: Call<'c>,
    st: AwaitException,
}

impl<'c> View for CallHead<'c> {
    type V = PendingView;

    closed spec fn view(&self) -> PendingView {
        PendingView { call: self.call@, st: self.st@ }
    }
}

impl<'c> View for CallBody<'c> {
    type V = PendingView;

    closed spec fn view(&self) -> PendingView {
        PendingView { call: self.call@, st: self.st@ }
    }
}

impl<'c> View for CallException<'c> {
    type V = PendingView;

    closed spec fn view(&self) -> PendingView {
        PendingView { call: self.call@, st: self.st@ }
    }
}

/// What the transport is to do next for an operation.
pub enum CallNext<'c> {
    /// Send the request; hand the head of the response to `on_head`.
    Send(Request, CallHead<'c>),
    /// Read the whole body; hand it to `on_body`.
    ReadBody(CallBody<'c>),
    /// Read the body of the failure response; hand it to `on_exception`.
    ReadException(CallException<'c>),
    /// The operation is over: its result, and the failover state to start the next one in.
    Done(FODResult<Reply>),
}

pub open spec fn build_error_text(pq: Seq<u8>) -> Seq<char> {
    "Could not build URI: path_and_query="@ + utf8_lossy(pq)
}

/// The first exchange of an operation of this shape.
pub open spec fn attempt_of(c: CallView, data: Option<Seq<u8>>) -> AttemptView {
    AttemptView {
        natmap: c.client.natmap,
        method: c.kind.method(),
        expect: c.kind.expect(),
        redirect: c.kind.redirect(),
        data,
    }
}

/// How an attempt begins: with a request without body to the entrypoint of
/// the failover state, or, where no URI can be built, with an error that
/// leaves the state as it is.
pub open spec fn begun(c: CallView, data: Option<Seq<u8>>, r: CallNext) -> bool {
    let ep = c.client.entry(c.fostate);
    match uri_build(ep.scheme, ep.authority, c.pq) {
        Some(p) => r matches CallNext::Send(req, h) && req.method == c.kind.method() && req.uri@
            == view_of_parts(p) && req.uri@.scheme == ep.scheme && req.uri@.authority
            == ep.authority && req.body@ == Seq::<u8>::empty() && h@ == (PendingView {
            call: c,
            st: attempt_of(c, data),
        }),
        None => r matches CallNext::Done(Err((ed, s))) && s == c.fostate && ed.data_opt is None
            && ed.error.spec_msg() is Some && ed.error.spec_msg()->0@ == build_error_text(c.pq)
            && ed.error.spec_cause() is Http,
    }
}

/// Whether an attempt that ended with `res` is followed by one at the other
/// NameNode: once only, where an alternate entrypoint is configured and a
/// standby NameNode refused the work; a data operation on top of that only
/// while it holds its payload.
pub open spec fn fails_over(c: CallView, res: DResult<Reply>) -> bool {
    !c.retried && c.client.alt_entrypoint is Some && res is Err && res->Err_0.error.is_standby() && (
    c.kind is PostBinary ==> res->Err_0.data_opt is Some)
}

/// The result of an operation: that of its last attempt, with the failover
/// state in which that attempt ran, and without payload.
pub open spec fn settled(res: DResult<Reply>, s: FOState, out: FODResult<Reply>) -> bool {
    match res {
        Ok(reply) => out == Ok::<(Reply, FOState), (ErrorD, FOState)>((reply, s)),
        Err(ed) => out matches Err((e, t)) && e.error == ed.error && e.data_opt is None && t == s,
    }
}

/// How an operation goes on after a step of its exchange. While the exchange
/// lasts, so does the operation. When the exchange is over, the operation
/// fails over or ends.
pub open spec fn advanced(c: CallView, n: Next, r: CallNext) -> bool {
    match n {
        Next::Send(req, st) => r matches CallNext::Send(req2, h) && req2 == req && h@
            == (PendingView { call: c, st: st@ }),
        Next::ReadBody(st) => r matches CallNext::ReadBody(h) && h@ == (PendingView {
            call: c,
            st: st@,
        }),
        Next::ReadException(st) => r matches CallNext::ReadException(h) && h@ == (PendingView {
            call: c,
            st: st@,
        }),
        Next::Done(res) => if fails_over(c, res) {
            begun(
                CallView { fostate: c.fostate.next(), retried: true, ..c },
                if c.kind is PostBinary {
                    data_view(res->Err_0.data_opt)
                } else {
                    None
                },
                r,
            )
        } else {
            r matches CallNext::Done(out) && settled(res, c.fostate, out)
        },
    }
}

impl HdfsClient {
    /// Path and query of the request for an operation.
    pub fn path_and_query(&self, file_path: &str, op: Op, args: Vec<OpArg>) -> (r: Vec<u8>)
        ensures
            r@ == self@.query_text(file_path.spec_bytes(), op, args@),
    {
        self.path_and_query_of(file_path, op, &args)
    }

    /// `path_and_query` on borrowed arguments.
    pub fn path_and_query_of(&self, file_path: &str, op: Op, args: &Vec<OpArg>) -> (r: Vec<u8>)
        ensures
            r@ == self@.query_text(file_path.spec_bytes(), op, args@),
    {
        let q = PathEncoder::new("/webhdfs/v1").extend(file_path).query();
        let q = if let Some(user) = &self.user_name {
            q.add_pv("user.name", user.as_str())
        } else {
            q
        };
        let q = if let Some(doas) = &self.doas {
            q.add_pv("doas", doas.as_str())
        } else {
            q
        };
        let q = if let Some(dt) = &self.dt {
            q.add_pv("delegation", dt.as_str())
        } else {
            q
        };
        let q = q.add_pv("op", op.op_string());
        let q = add_args(q, args);
        q.result()
    }

    /// The URI of a request: scheme and authority of the entrypoint that
    /// the failover state stands for, then path and query.
    pub fn uri(&self, fostate: FOState, pq: &[u8]) -> (r: FOResult<Uri>)
        ensures
            ({
                let ep = self@.entry(fostate);
                match uri_build(ep.scheme, ep.authority, pq@) {
                    Some(p) => r matches Ok((u, s)) && u@ == view_of_parts(p) && u@.scheme
                        == ep.scheme && u@.authority == ep.authority && s == fostate,
                    None => r matches Err((e, s)) && s == fostate && e.spec_msg() is Some
                        && e.spec_msg()->0@ == build_error_text(pq@) && e.spec_cause() is Http,
                }
            }),
    {
        let ep = if fostate.is_alt() {
            if let Some(ep) = &self.alt_entrypoint {
                ep
            } else {
                &self.entrypoint
            }
        } else {
            &self.entrypoint
        };
        let r = match Uri::build(ep.scheme(), ep.authority(), pq) {
            Ok(u) => Ok(u),
            Err(e) => {
                let mut m = owned("Could not build URI: path_and_query=");
                let t = lossy_text(pq);
                m.append(t.as_str());
                Err(e.with_msg_prepended(m))
            },
        };
        FOR::bind(r, fostate)
    }

    /// A client for one exchange with the entrypoint of the failover state.
    pub fn httpc(&self, fostate: FOState, pq: &[u8]) -> (r: FOResult<HttpyClient>)
        ensures
            ({
                let ep = self@.entry(fostate);
                match uri_build(ep.scheme, ep.authority, pq@) {
                    Some(p) => r matches Ok((h, s)) && h.target() == view_of_parts(p)
                        && h.target().scheme == ep.scheme && h.target().authority == ep.authority
                        && h.nat_map() == self@.natmap && s == fostate,
                    None => r matches Err((e, s)) && s == fostate && e.spec_msg() is Some
                        && e.spec_msg()->0@ == build_error_text(pq@) && e.spec_cause() is Http,
                }
            }),
    {
        let natmap = self.natmap.duplicate();
        match self.uri(fostate, pq) {
            Ok((uri, fostate)) => Ok((HttpyClient::new(HttpxEndpoint::new(uri), natmap), fostate)),
            Err(e) => Err(e),
        }
    }

    /// Whether the error is that of a standby NameNode.
    pub fn is_standby_error(error: &Error) -> (r: bool)
        ensures
            r == error.is_standby(),
    {
        error.is_standby()
    }

    /// Decides what follows an attempt without payload: to fail over where a
    /// standby NameNode refused and an alternate entrypoint is configured,
    /// else to go on with the result.
    pub fn failover_fsm<T>(&self, fostate: FOState, result: Result<T>) -> (r: (
        FOAction<T, ()>,
        FOState,
    ))
        ensures
            match result {
                Err(e) => if self@.alt_entrypoint is Some && e.is_standby() {
                    r.0 is FailOver && r.1 == fostate.next()
                } else {
                    r.0 == FOAction::<T, ()>::Proceed(Err(e)) && r.1 == fostate
                },
                Ok(v) => r.0 == FOAction::<T, ()>::Proceed(Ok(v)) && r.1 == fostate,
            },
    {
        match result {
            Err(e) => {
                if self.alt_entrypoint.is_some() && Self::is_standby_error(&e) {
                    (FOAction::FailOver(()), fostate.next())
                } else {
                    (FOAction::Proceed(Err(e)), fostate)
                }
            },
            other => (FOAction::Proceed(other), fostate),
        }
    }

    /// Decides what follows an attempt with payload: to fail over with the
    /// recovered payload where a standby NameNode refused, the payload came
    /// back and an alternate entrypoint is configured, else to go on with
    /// the result, the payload dropped.
    pub fn failover_fsm_d<T>(&self, fostate: FOState, result: DResult<T>) -> (r: (
        FOAction<T, Data>,
        FOState,
    ))
        ensures
            match result {
                Err(ed) => if ed.data_opt is Some && self@.alt_entrypoint is Some
                    && ed.error.is_standby() {
                    r.0 == FOAction::<T, Data>::FailOver(ed.data_opt->0) && r.1 == fostate.next()
                } else {
                    r.0 == FOAction::<T, Data>::Proceed(Err(ed.error)) && r.1 == fostate
                },
                Ok(v) => r.0 == FOAction::<T, Data>::Proceed(Ok(v)) && r.1 == fostate,
            },
    {
        match result {
            Err(ErrorD { error, data_opt }) => {
                let standby = self.alt_entrypoint.is_some() && Self::is_standby_error(&error);
                match data_opt {
                    Some(data) => {
                        if standby {
                            (FOAction::FailOver(data), fostate.next())
                        } else {
                            (FOAction::Proceed(Err(error)), fostate)
                        }
                    },
                    None => (FOAction::Proceed(Err(error)), fostate),
                }
            },
            Ok(v) => (FOAction::Proceed(Ok(v)), fostate),
        }
    }

    pub fn default_timeout(&self) -> (r: &Duration)
        ensures
            *r == self@.default_timeout,
    {
        &self.default_timeout
    }

    /// Begins an attempt of the operation in the failover state of `call`.
    fn begin<'c>(call: Call<'c>, data: Option<Data>) -> (r: CallNext<'c>)
        requires
            data is Some <==> call@.kind is PostBinary,
        ensures
            begun(call@, data_view(data), r),
    {
        match call.client.httpc(call.fostate, call.pq.as_slice()) {
            Ok((h, _)) => {
                let n = match call.kind {
                    Kind::GetJson => h.get_json(),
                    Kind::OpJson(m) => h.op_json(m),
                    Kind::OpEmpty(m) => h.op_empty(m),
                    Kind::GetBinary => h.get_binary(),
                    Kind::PostBinary(m) => match data {
                        Some(d) => h.post_binary(m, d),
                        None => vstd::pervasive::unreached(),
                    },
                };
                match n {
                    Next::Send(req, st) => CallNext::Send(req, CallHead { call, st }),
                    _ => vstd::pervasive::unreached(),
                }
            },
            Err((e, s)) => CallNext::Done(Err((ErrorD::lift(e), s))),
        }
    }
}

impl<'c> Call<'c> {
    /// Goes on after a step of the exchange.
    pub fn advance(self, n: Next) -> (r: CallNext<'c>)
        ensures
            advanced(self@, n, r),
    {
        match n {
            Next::Send(req, st) => CallNext::Send(req, CallHead { call: self, st }),
            Next::ReadBody(st) => CallNext::ReadBody(CallBody { call: self, st }),
            Next::ReadException(st) => CallNext::ReadException(CallException { call: self, st }),
            Next::Done(res) => {
                let Call { client, pq, kind, fostate, retried } = self;
                if retried {
                    match res {
                        Ok(reply) => CallNext::Done(Ok((reply, fostate))),
                        Err(ed) => CallNext::Done(Err((ErrorD::lift(ed.error), fostate))),
                    }
                } else {
                    match kind {
                        Kind::PostBinary(_) => {
                            let (action, s) = client.failover_fsm_d(fostate, res);
                            match action {
                                FOAction::Proceed(r) => match r {
                                    Ok(reply) => CallNext::Done(Ok((reply, s))),
                                    Err(e) => CallNext::Done(Err((ErrorD::lift(e), s))),
                                },
                                FOAction::FailOver(data) => HdfsClient::begin(
                                    Call { client, pq, kind, fostate: s, retried: true },
                                    Some(data),
                                ),
                            }
                        },
                        _ => {
                            let plain = match res {
                                Ok(reply) => Ok(reply),
                                Err(ed) => Err(ErrorD::drop(ed)),
                            };
                            let (action, s) = client.failover_fsm(fostate, plain);
                            match action {
                                FOAction::Proceed(r) => match r {
                                    Ok(reply) => CallNext::Done(Ok((reply, s))),
                                    Err(e) => CallNext::Done(Err((ErrorD::lift(e), s))),
                                },
                                FOAction::FailOver(_) => HdfsClient::begin(
                                    Call { client, pq, kind, fostate: s, retried: true },
                                    None,
                                ),
                            }
                        },
                    }
                }
            },
        }
    }
}

impl<'c> CallHead<'c> {
    /// Takes the head of the response, or the failure of the transport.
    pub fn on_head(self, ev: Result<ResponseHead>) -> (r: CallNext<'c>)
        ensures
            exists|n: Next| #[trigger] head_step(self@.st, ev, n) && advanced(self@.call, n, r),
    {
        let CallHead { call, st } = self;
        let n = st.on_head(ev);
        call.advance(n)
    }
}

impl<'c> CallBody<'c> {
    /// Takes the body of a response that must be empty.
    pub fn on_body(self, ev: Result<Vec<u8>>) -> (r: CallNext<'c>)
        ensures
            exists|n: Next| #[trigger] body_step(ev, n) && advanced(self@.call, n, r),
    {
        let CallBody { call, st } = self;
        let n = st.on_body(ev);
        call.advance(n)
    }
}

impl<'c> CallException<'c> {
    /// Takes the body of a failure response.
    pub fn on_exception(self, ev: ExceptionBody) -> (r: CallNext<'c>)
        ensures
            exists|n: Next| #[trigger] exception_step(self@.st, ev, n) && advanced(self@.call, n, r),
    {
        let CallException { call, st } = self;
        let n = st.on_exception(ev);
        call.advance(n)
    }
}

/// The operation on `path` as it begins in a failover state.
pub open spec fn op_call(
    client: HdfsClientView,
    fostate: FOState,
    path: Seq<u8>,
    op: Op,
    args: Seq<OpArg>,
) -> CallView {
    CallView {
        client,
        pq: client.query_text(path, op, args),
        kind: Kind::spec_of(op),
        fostate,
        retried: false,
    }
}

/// The shape of an operation has the method of the operation, and is
/// redirected exactly where the operation takes two phases.
pub proof fn lemma_kind_of(op: Op)
    ensures
        Kind::spec_of(op).method() == op.method(),
        Kind::spec_of(op).redirect() == op.two_phase(),
{
}

impl HdfsClient {
    fn request(&self, fostate: FOState, path: &str, op: Op, args: &Vec<OpArg>, data: Option<Data>) -> (r:
        CallNext<'_>)
        requires
            data is Some <==> Kind::spec_of(op) is PostBinary,
        ensures
            begun(
                op_call(self@, fostate, path.spec_bytes(), op, args@),
                data_view(data),
                r,
            ),
    {
        let pq = self.path_and_query_of(path, op, args);
        HdfsClient::begin(Call { client: self, pq, kind: Kind::of(op), fostate, retried: false }, data)
    }

    /// Get directory listing
    pub fn dir(&self, fostate: FOState, path: &str) -> (r: CallNext<'_>)
        ensures
            begun(
                op_call(self@, fostate, path.spec_bytes(), Op::LISTSTATUS, Seq::empty()),
                None,
                r,
            ),
    {
        self.request(fostate, path, Op::LISTSTATUS, &Vec::new(), None)
    }

    /// Get status
    pub fn stat(&self, fostate: FOState, path: &str) -> (r: CallNext<'_>)
        ensures
            begun(
                op_call(
                    self@,
                    fostate,
                    path.spec_bytes(),
                    Op::GETFILESTATUS,
                    Seq::empty(),
                ),
                None,
                r,
            ),
    {
        self.request(fostate, path, Op::GETFILESTATUS, &Vec::new(), None)
    }

    /// Read file data
    pub fn open(&self, fostate: FOState, path: &str, opts: OpenOptions) -> (r: CallNext<'_>)
        ensures
            begun(
                op_call(self@, fostate, path.spec_bytes(), Op::OPEN, opts.args()),
                None,
                r,
            ),
    {
        self.request(fostate, path, Op::OPEN, &opts.into(), None)
    }

    /// Create a HDFS file and write some data
    pub fn create(&self, fostate: FOState, path: &str, data: Data, opts: CreateOptions) -> (r:
        CallNext<'_>)
        ensures
            begun(
                op_call(
                    self@,
                    fostate,
                    path.spec_bytes(),
                    Op::CREATE,
                    opts.args(),
                ),
                Some(data@),
                r,
            ),
    {
        self.request(fostate, path, Op::CREATE, &opts.into(), Some(data))
    }

    /// Append to a HDFS file
    pub fn append(&self, fostate: FOState, path: &str, data: Data, opts: AppendOptions) -> (r:
        CallNext<'_>)
        ensures
            begun(
                op_call(
                    self@,
                    fostate,
                    path.spec_bytes(),
                    Op::APPEND,
                    opts.args(),
                ),
                Some(data@),
                r,
            ),
    {
        self.append_with(fostate, path, data, &opts)
    }

    /// `append` with borrowed options.
    pub fn append_with(&self, fostate: FOState, path: &str, data: Data, opts: &AppendOptions) -> (r:
        CallNext<'_>)
        ensures
            begun(
                op_call(
                    self@,
                    fostate,
                    path.spec_bytes(),
                    Op::APPEND,
                    opts.args(),
                ),
                Some(data@),
                r,
            ),
    {
        self.request(fostate, path, Op::APPEND, opts.as_args(), Some(data))
    }

    /// Concatenate files
    pub fn concat(&self, fostate: FOState, path: &str, paths: Vec<String>) -> (r: CallNext<'_>)
        ensures
            begun(
                op_call(
                    self@,
                    fostate,
                    path.spec_bytes(),
                    Op::CONCAT,
                    seq![OpArg::Sources(paths)],
                ),
                None,
                r,
            ),
    {
        let mut args: Vec<OpArg> = Vec::new();
        args.push(OpArg::Sources(paths));
        assert(args@ =~= seq![OpArg::Sources(paths)]);
        self.request(fostate, path, Op::CONCAT, &args, None)
    }

    /// Make a directory
    pub fn mkdirs(&self, fostate: FOState, path: &str, opts: MkdirsOptions) -> (r: CallNext<'_>)
        ensures
            begun(
                op_call(
                    self@,
                    fostate,
                    path.spec_bytes(),
                    Op::MKDIRS,
                    opts.args(),
                ),
                None,
                r,
            ),
    {
        self.request(fostate, path, Op::MKDIRS, &opts.into(), None)
    }

    /// Rename a file/directory
    pub fn rename(&self, fostate: FOState, path: &str, destination: String) -> (r: CallNext<'_>)
        ensures
            begun(
                op_call(
                    self@,
                    fostate,
                    path.spec_bytes(),
                    Op::RENAME,
                    seq![OpArg::Destination(destination)],
                ),
                None,
                r,
            ),
    {
        let mut args: Vec<OpArg> = Vec::new();
        args.push(OpArg::Destination(destination));
        assert(args@ =~= seq![OpArg::Destination(destination)]);
        self.request(fostate, path, Op::RENAME, &args, None)
    }

    /// Create a Symbolic Link
    pub fn create_symlink(
        &self,
        fostate: FOState,
        path: &str,
        destination: String,
        opts: CreateSymlinkOptions,
    ) -> (r: CallNext<'_>)
        ensures
            begun(
                op_call(
                    self@,
                    fostate,
                    path.spec_bytes(),
                    Op::CREATESYMLINK,
                    seq![OpArg::Destination(destination)] + opts.args(),
                ),
                None,
                r,
            ),
    {
        let mut o: Vec<OpArg> = Vec::new();
        o.push(OpArg::Destination(destination));
        let mut rest = opts.into();
        o.append(&mut rest);
        assert(o@ =~= seq![OpArg::Destination(destination)] + opts.args());
        self.request(fostate, path, Op::CREATESYMLINK, &o, None)
    }

    /// Delete a File/Directory
    pub fn delete(&self, fostate: FOState, path: &str, opts: DeleteOptions) -> (r: CallNext<'_>)
        ensures
            begun(
                op_call(
                    self@,
                    fostate,
                    path.spec_bytes(),
                    Op::DELETE,
                    opts.args(),
                ),
                None,
                r,
            ),
    {
        self.request(fostate, path, Op::DELETE, &opts.into(), None)
    }
}

/// Every attempt begins with a request to the entrypoint that the failover
/// state of the operation stands for, and waits in that state.
pub proof fn lemma_request_target(c: CallView, data: Option<Seq<u8>>, r: CallNext)
    requires
        begun(c, data, r),
        r is Send,
    ensures
        r->Send_0.uri@.scheme == c.client.entry(c.fostate).scheme,
        r->Send_0.uri@.authority == c.client.entry(c.fostate).authority,
        r->Send_1@.call.fostate == c.fostate,
{
}

/// Failover convergence: an operation that ends well hands back the failover
/// state in which its last attempt ran, which is the state of the NameNode
/// that served it. The next operation begins there.
pub proof fn lemma_failover_convergence(c: CallView, n: Next, r: CallNext)
    requires
        advanced(c, n, r),
        r matches CallNext::Done(Ok(_)),
    ensures
        n matches Next::Done(Ok(reply)) && r->Done_0->Ok_0 == (reply, c.fostate),
{
    match n {
        Next::Done(res) => {
            if fails_over(c, res) {
                let c2 = CallView { fostate: c.fostate.next(), retried: true, ..c };
                let ep = c2.client.entry(c2.fostate);
                assert(uri_build(ep.scheme, ep.authority, c2.pq) is None);
            }
        },
        _ => {},
    }
}

/// An operation leaves the failover state alone unless it fails over, and it
/// fails over only to a configured alternate entrypoint.
pub proof fn lemma_state_configured(c: CallView, n: Next, r: CallNext)
    requires
        advanced(c, n, r),
        c.client.alt_entrypoint is None || c.retried,
    ensures
        r matches CallNext::Done(Ok((_, s))) ==> s == c.fostate,
        r matches CallNext::Done(Err((_, s))) ==> s == c.fostate,
        r matches CallNext::Send(_, h) ==> h@.call.fostate == c.fostate,
{
}

/// The result of an operation never carries a payload: it is kept only to be
/// sent again.
pub proof fn lemma_result_without_data(c: CallView, n: Next, r: CallNext)
    requires
        advanced(c, n, r),
    ensures
        r matches CallNext::Done(Err((ed, _))) ==> ed.data_opt is None,
{
    match n {
        Next::Done(res) => {
            if fails_over(c, res) {
                let c2 = CallView { fostate: c.fostate.next(), retried: true, ..c };
                let ep = c2.client.entry(c2.fostate);
                if uri_build(ep.scheme, ep.authority, c2.pq) is Some {
                    assert(r is Send);
                }
            }
        },
        _ => {},
    }
}

/// Body preservation: when a standby NameNode refuses a data operation
/// before its payload was sent and an alternate entrypoint is configured,
/// the attempt at the other NameNode holds the same payload, byte for byte,
/// and sends it once that NameNode has redirected it.
pub proof fn lemma_body_preserved(
    c: CallView,
    st: AttemptView,
    ev: ExceptionBody,
    n: Next,
    r: CallNext,
    d: Seq<u8>,
)
    requires
        c.kind is PostBinary,
        !c.retried,
        c.client.alt_entrypoint is Some,
        st.data == Some(d),
        ev matches ExceptionBody::Decoded(re) && re.exception@ == "StandbyException"@,
        exception_step(st, ev, n),
        advanced(c, n, r),
        r is Send,
    ensures
        r->Send_1@.st.data == Some(d),
        r->Send_1@.st.redirect,
        r->Send_1@.call.fostate == c.fostate.next(),
        r->Send_1@.call.retried,
{
    let res = n->Done_0;
    assert(res->Err_0.error.is_standby());
    assert(fails_over(c, res));
}

} // verus!
