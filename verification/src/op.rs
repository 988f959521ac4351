//! WebHDFS operations, their arguments and the option builders.

use vstd::prelude::*;
use vstd::string::StringExecFns;
use vstd::string::StringSliceAdditionalSpecFns;
use crate::uri_tools::{bool_text, decimal_int, encode, octal3, param_head, QueryEncoder};

verus! {

/// HTTP methods that WebHDFS uses.
#[derive(Debug, Clone, Copy, PartialEq, Eq, Structural)]
pub enum Method {
    GET,
    PUT,
    POST,
    DELETE,
}

impl Method {
    pub fn as_str(&self) -> (r: &'static str)
        ensures
            r@ == match *self {
                Method::GET => "GET"@,
                Method::PUT => "PUT"@,
                Method::POST => "POST"@,
                Method::DELETE => "DELETE"@,
            },
    {
        match self {
            Method::GET => "GET",
            Method::PUT => "PUT",
            Method::POST => "POST",
            Method::DELETE => "DELETE",
        }
    }
}

#[derive(Debug, Clone, Copy, PartialEq, Eq, Structural)]
pub enum Op {
    LISTSTATUS,
    GETFILESTATUS,
    OPEN,
    CREATE,
    APPEND,
    CONCAT,
    MKDIRS,
    RENAME,
    CREATESYMLINK,
    DELETE,
}

impl Op {
    /// The name that stands behind `op=`.
    pub open spec fn name(self) -> Seq<char> {
        match self {
            Op::LISTSTATUS => "LISTSTATUS"@,
            Op::GETFILESTATUS => "GETFILESTATUS"@,
            Op::OPEN => "OPEN"@,
            Op::CREATE => "CREATE"@,
            Op::APPEND => "APPEND"@,
            Op::CONCAT => "CONCAT"@,
            Op::MKDIRS => "MKDIRS"@,
            Op::RENAME => "RENAME"@,
            Op::CREATESYMLINK => "CREATESYMLINK"@,
            Op::DELETE => "DELETE"@,
        }
    }

    /// `GET` to read, list and stat; `PUT` to create, mkdirs, rename and
    /// symlink; `POST` to append and concat; `DELETE` to delete.
    pub open spec fn spec_method(self) -> Method {
        match self {
            Op::LISTSTATUS | Op::GETFILESTATUS | Op::OPEN => Method::GET,
            Op::CREATE | Op::MKDIRS | Op::RENAME | Op::CREATESYMLINK => Method::PUT,
            Op::APPEND | Op::CONCAT => Method::POST,
            Op::DELETE => Method::DELETE,
        }
    }

    /// Whether the NameNode answers with a redirect to a DataNode.
    pub open spec fn spec_two_phase(self) -> bool {
        self == Op::OPEN || self == Op::CREATE || self == Op::APPEND
    }

    pub fn op_string(&self) -> (r: &'static str)
        ensures
            r@ == self.name(),
    {
        match self {
            Op::LISTSTATUS => "LISTSTATUS",
            Op::GETFILESTATUS => "GETFILESTATUS",
            Op::OPEN => "OPEN",
            Op::CREATE => "CREATE",
            Op::APPEND => "APPEND",
            Op::CONCAT => "CONCAT",
            Op::MKDIRS => "MKDIRS",
            Op::RENAME => "RENAME",
            Op::CREATESYMLINK => "CREATESYMLINK",
            Op::DELETE => "DELETE",
        }
    }

    #[verifier::when_used_as_spec(spec_method)]
    pub fn method(self) -> (r: Method)
        ensures
            r == self.spec_method(),
    {
        match self {
            Op::LISTSTATUS | Op::GETFILESTATUS | Op::OPEN => Method::GET,
            Op::CREATE | Op::MKDIRS | Op::RENAME | Op::CREATESYMLINK => Method::PUT,
            Op::APPEND | Op::CONCAT => Method::POST,
            Op::DELETE => Method::DELETE,
        }
    }

    #[verifier::when_used_as_spec(spec_two_phase)]
    pub fn two_phase(self) -> (r: bool)
        ensures
            r == self.spec_two_phase(),
    {
        match self {
            Op::OPEN | Op::CREATE | Op::APPEND => true,
            _ => false,
        }
    }
}

/// The texts of a list, with `sep` between neighbours.
pub open spec fn join_chars(v: Seq<Seq<char>>, sep: Seq<char>) -> Seq<char>
    decreases v.len(),
{
    if v.len() == 0 {
        Seq::empty()
    } else if v.len() == 1 {
        v[0]
    } else {
        join_chars(v.drop_last(), sep) + sep + v.last()
    }
}

pub open spec fn texts(v: Seq<String>) -> Seq<Seq<char>> {
    Seq::new(v.len(), |i: int| v[i]@)
}

/// The strings of `v` with `,` between them.
pub fn join_comma(v: &Vec<String>) -> (r: String)
    ensures
        r@ == join_chars(texts(v@), ","@),
{
    let mut s = String::new();
    let mut i: usize = 0;
    while i < v.len()
        invariant
            i <= v.len(),
            s@ == join_chars(texts(v@).take(i as int), ","@),
        decreases v.len() - i,
    {
        let ghost t = texts(v@).take(i + 1);
        assert(t.drop_last() =~= texts(v@).take(i as int));
        assert(t.last() == v@[i as int]@);
        if i > 0 {
            s.append(",");
        }
        s.append(v[i].as_str());
        assert(s@ =~= join_chars(t, ","@));
        i = i + 1;
    }
    assert(texts(v@).take(v.len() as int) =~= texts(v@));
    s
}

/// Operation argument.
#[derive(Debug, Clone)]
pub enum OpArg {
    /// `[&offset=<LONG>]`
    Offset(i64),
    /// `[&length=<LONG>]`
    Length(i64),
    /// `[&buffersize=<INT>]`
    BufferSize(i32),
    /// `[&overwrite=<true |false>]`
    Overwrite(bool),
    /// `[&blocksize=<LONG>]`
    Blocksize(i64),
    /// `[&replication=<SHORT>]`
    Replication(i16),
    /// `[&permission=<OCTAL>]`
    Permission(u16),
    /// `&sources=<PATHS>`
    Sources(Vec<String>),
    /// `&destination=<PATH>`
    Destination(String),
    /// `[&createParent=<true|false>]`
    CreateParent(bool),
    /// `[&recursive=<true|false>]`
    Recursive(bool),
}

impl OpArg {
    /// The parameter name in the URL.
    pub open spec fn key(self) -> Seq<u8> {
        match self {
            OpArg::Offset(_) => "offset".spec_bytes(),
            OpArg::Length(_) => "length".spec_bytes(),
            OpArg::BufferSize(_) => "buffersize".spec_bytes(),
            OpArg::Overwrite(_) => "overwrite".spec_bytes(),
            OpArg::Blocksize(_) => "blocksize".spec_bytes(),
            OpArg::Replication(_) => "replication".spec_bytes(),
            OpArg::Permission(_) => "permission".spec_bytes(),
            OpArg::Sources(_) => "sources".spec_bytes(),
            OpArg::Destination(_) => "destination".spec_bytes(),
            OpArg::CreateParent(_) => "createParent".spec_bytes(),
            OpArg::Recursive(_) => "recursive".spec_bytes(),
        }
    }

    /// The value as it stands in the URL: integers in decimal, booleans as
    /// `true` or `false`, a permission as three octal digits, a list joined
    /// by commas, and every text percent-encoded in query mode.
    pub open spec fn value(self) -> Seq<u8> {
        match self {
            OpArg::Offset(v) => decimal_int(v as int),
            OpArg::Length(v) => decimal_int(v as int),
            OpArg::BufferSize(v) => decimal_int(v as int),
            OpArg::Overwrite(v) => bool_text(v),
            OpArg::Blocksize(v) => decimal_int(v as int),
            OpArg::Replication(v) => decimal_int(v as int),
            OpArg::Permission(v) => octal3(v),
            OpArg::Sources(v) => encode(
                vstd::utf8::encode_utf8(join_chars(texts(v@), ","@)),
                false,
            ),
            OpArg::Destination(v) => encode(vstd::utf8::encode_utf8(v@), false),
            OpArg::CreateParent(v) => bool_text(v),
            OpArg::Recursive(v) => bool_text(v),
        }
    }

    /// `sep key=value`.
    pub open spec fn url_text(self, qm_added: bool) -> Seq<u8> {
        param_head(qm_added, self.key()) + self.value()
    }

    /// Adds the argument to a URL's query string.
    pub fn add_to_url(&self, qe: QueryEncoder) -> (r: QueryEncoder)
        ensures
            r.bytes() == qe.bytes() + self.url_text(qe.qm_added()),
            r.qm_added(),
    {
        let r = match self {
            OpArg::Offset(v) => qe.add_pi("offset", *v),
            OpArg::Length(v) => qe.add_pi("length", *v),
            OpArg::BufferSize(v) => qe.add_pi("buffersize", *v as i64),
            OpArg::Overwrite(v) => qe.add_pb("overwrite", *v),
            OpArg::Blocksize(v) => qe.add_pi("blocksize", *v),
            OpArg::Replication(v) => qe.add_pi("replication", *v as i64),
            OpArg::Permission(v) => qe.add_po("permission", *v),
            OpArg::Sources(v) => {
                let joined = join_comma(v);
                qe.add_pv("sources", joined.as_str())
            },
            OpArg::Destination(v) => qe.add_pv("destination", v.as_str()),
            OpArg::CreateParent(v) => qe.add_pb("createParent", *v),
            OpArg::Recursive(v) => qe.add_pb("recursive", *v),
        };
        assert(r.bytes() =~= qe.bytes() + self.url_text(qe.qm_added()));
        r
    }
}

/// The query text of a list of arguments, in their order.
pub open spec fn args_text(qm_added: bool, args: Seq<OpArg>) -> Seq<u8>
    decreases args.len(),
{
    if args.len() == 0 {
        Seq::empty()
    } else {
        args_text(qm_added, args.drop_last()) + args.last().url_text(
            qm_added || args.len() > 1,
        )
    }
}

/// Adds every argument to the query string, in order.
pub fn add_args(qe: QueryEncoder, args: &Vec<OpArg>) -> (r: QueryEncoder)
    ensures
        r.bytes() == qe.bytes() + args_text(qe.qm_added(), args@),
        r.qm_added() == (qe.qm_added() || args.len() > 0),
{
    let mut q = qe;
    let mut i: usize = 0;
    assert(qe.bytes() + args_text(qe.qm_added(), args@.take(0)) =~= qe.bytes());
    while i < args.len()
        invariant
            i <= args.len(),
            q.bytes() == qe.bytes() + args_text(qe.qm_added(), args@.take(i as int)),
            q.qm_added() == (qe.qm_added() || i > 0),
        decreases args.len() - i,
    {
        let ghost t = args@.take(i + 1);
        assert(t.drop_last() =~= args@.take(i as int));
        assert(t.last() == args@[i as int]);
        let ghost before = q.bytes();
        q = args[i].add_to_url(q);
        assert(q.bytes() =~= qe.bytes() + args_text(qe.qm_added(), t));
        i = i + 1;
    }
    assert(args@.take(args.len() as int) =~= args@);
    q
}

/// Options of `OPEN`.
#[derive(Debug, Clone)]
pub struct OpenOptions {
    o: Vec<OpArg>,
}

impl OpenOptions {
    /// The arguments set so far, in the order in which they were set.
    pub closed spec fn args(self) -> Seq<OpArg> {
        self.o@
    }

    pub fn new() -> (r: Self)
        ensures
            r.args() == Seq::<OpArg>::empty(),
    {
        Self { o: Vec::new() }
    }

    pub fn into(self) -> (r: Vec<OpArg>)
        ensures
            r@ == self.args(),
    {
        self.o
    }

    pub fn offset(self, v: i64) -> (r: Self)
        ensures
            r.args() == self.args().push(OpArg::Offset(v)),
    {
        let mut s = self;
        s.o.push(OpArg::Offset(v));
        s
    }

    pub fn length(self, v: i64) -> (r: Self)
        ensures
            r.args() == self.args().push(OpArg::Length(v)),
    {
        let mut s = self;
        s.o.push(OpArg::Length(v));
        s
    }

    pub fn buffersize(self, v: i32) -> (r: Self)
        ensures
            r.args() == self.args().push(OpArg::BufferSize(v)),
    {
        let mut s = self;
        s.o.push(OpArg::BufferSize(v));
        s
    }
}

/// Options of `CREATE`.
#[derive(Debug, Clone)]
pub struct CreateOptions {
    o: Vec<OpArg>,
}

impl CreateOptions {
    /// The arguments set so far, in the order in which they were set.
    pub closed spec fn args(self) -> Seq<OpArg> {
        self.o@
    }

    pub fn new() -> (r: Self)
        ensures
            r.args() == Seq::<OpArg>::empty(),
    {
        Self { o: Vec::new() }
    }

    pub fn into(self) -> (r: Vec<OpArg>)
        ensures
            r@ == self.args(),
    {
        self.o
    }

    pub fn overwrite(self, v: bool) -> (r: Self)
        ensures
            r.args() == self.args().push(OpArg::Overwrite(v)),
    {
        let mut s = self;
        s.o.push(OpArg::Overwrite(v));
        s
    }

    pub fn blocksize(self, v: i64) -> (r: Self)
        ensures
            r.args() == self.args().push(OpArg::Blocksize(v)),
    {
        let mut s = self;
        s.o.push(OpArg::Blocksize(v));
        s
    }

    pub fn replication(self, v: i16) -> (r: Self)
        ensures
            r.args() == self.args().push(OpArg::Replication(v)),
    {
        let mut s = self;
        s.o.push(OpArg::Replication(v));
        s
    }

    pub fn permission(self, v: u16) -> (r: Self)
        ensures
            r.args() == self.args().push(OpArg::Permission(v)),
    {
        let mut s = self;
        s.o.push(OpArg::Permission(v));
        s
    }

    pub fn buffersize(self, v: i32) -> (r: Self)
        ensures
            r.args() == self.args().push(OpArg::BufferSize(v)),
    {
        let mut s = self;
        s.o.push(OpArg::BufferSize(v));
        s
    }
}

/// Options of `APPEND`.
#[derive(Debug, Clone)]
pub struct AppendOptions {
    o: Vec<OpArg>,
}

impl AppendOptions {
    /// The arguments set so far, in the order in which they were set.
    pub closed spec fn args(self) -> Seq<OpArg> {
        self.o@
    }

    pub fn new() -> (r: Self)
        ensures
            r.args() == Seq::<OpArg>::empty(),
    {
        Self { o: Vec::new() }
    }

    pub fn into(self) -> (r: Vec<OpArg>)
        ensures
            r@ == self.args(),
    {
        self.o
    }

    pub fn buffersize(self, v: i32) -> (r: Self)
        ensures
            r.args() == self.args().push(OpArg::BufferSize(v)),
    {
        let mut s = self;
        s.o.push(OpArg::BufferSize(v));
        s
    }

    /// The arguments, borrowed.
    pub fn as_args(&self) -> (r: &Vec<OpArg>)
        ensures
            r@ == self.args(),
    {
        &self.o
    }
}

/// Options of `MKDIRS`.
#[derive(Debug, Clone)]
pub struct MkdirsOptions {
    o: Vec<OpArg>,
}

impl MkdirsOptions {
    /// The arguments set so far, in the order in which they were set.
    pub closed spec fn args(self) -> Seq<OpArg> {
        self.o@
    }

    pub fn new() -> (r: Self)
        ensures
            r.args() == Seq::<OpArg>::empty(),
    {
        Self { o: Vec::new() }
    }

    pub fn into(self) -> (r: Vec<OpArg>)
        ensures
            r@ == self.args(),
    {
        self.o
    }

    pub fn permission(self, v: u16) -> (r: Self)
        ensures
            r.args() == self.args().push(OpArg::Permission(v)),
    {
        let mut s = self;
        s.o.push(OpArg::Permission(v));
        s
    }
}

/// Options of `CREATESYMLINK`.
#[derive(Debug, Clone)]
pub struct CreateSymlinkOptions {
    o: Vec<OpArg>,
}

impl CreateSymlinkOptions {
    /// The arguments set so far, in the order in which they were set.
    pub closed spec fn args(self) -> Seq<OpArg> {
        self.o@
    }

    pub fn new() -> (r: Self)
        ensures
            r.args() == Seq::<OpArg>::empty(),
    {
        Self { o: Vec::new() }
    }

    pub fn into(self) -> (r: Vec<OpArg>)
        ensures
            r@ == self.args(),
    {
        self.o
    }

    pub fn create_parent(self, v: bool) -> (r: Self)
        ensures
            r.args() == self.args().push(OpArg::CreateParent(v)),
    {
        let mut s = self;
        s.o.push(OpArg::CreateParent(v));
        s
    }
}

/// Options of `DELETE`.
#[derive(Debug, Clone)]
pub struct DeleteOptions {
    o: Vec<OpArg>,
}

impl DeleteOptions {
    /// The arguments set so far, in the order in which they were set.
    pub closed spec fn args(self) -> Seq<OpArg> {
        self.o@
    }

    pub fn new() -> (r: Self)
        ensures
            r.args() == Seq::<OpArg>::empty(),
    {
        Self { o: Vec::new() }
    }

    pub fn into(self) -> (r: Vec<OpArg>)
        ensures
            r@ == self.args(),
    {
        self.o
    }

    pub fn recursive(self, v: bool) -> (r: Self)
        ensures
            r.args() == self.args().push(OpArg::Recursive(v)),
    {
        let mut s = self;
        s.o.push(OpArg::Recursive(v));
        s
    }
}

} // verus!
