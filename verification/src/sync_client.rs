//! The synchronous face of the client: it remembers the failover state that
//! served last, and offers sequential read and write handles on files.

use vstd::prelude::*;
use vstd::string::StringExecFns;
use vstd::string::StringSliceAdditionalSpecFns;
use crate::async_client::{
    begun, op_call, CallNext, FOState, FOStdResult, HdfsClient, HdfsClientBuilder,
    HdfsClientView, FOR,
};
use crate::config::Duration;
use crate::datatypes::FileStatusResponse;
use crate::error::{Cause, Error, IoError, IoErrorKind, Result, StdResult};
use crate::natmap::NatMap;
use crate::op::{
    AppendOptions, CreateOptions, CreateSymlinkOptions, DeleteOptions, MkdirsOptions, Op, OpArg,
    OpenOptions,
};
use crate::rest_client::{DResult, Data, ErrorD};
use crate::text::owned;
use crate::uri::Uri;

verus! {

/// HDFS Connection data, etc.
pub struct SyncHdfsClient {
    acx: HdfsClient,
    fostate: FOState,
}

pub struct SyncHdfsClientBuilder {
    a: HdfsClientBuilder,
}

impl View for SyncHdfsClientBuilder {
    type V = HdfsClientView;

    closed spec fn view(&self) -> HdfsClientView {
        self.a@
    }
}

impl SyncHdfsClientBuilder {
    pub fn new(entrypoint: Uri) -> (r: Self)
        ensures
            r@ == (HdfsClientView {
                entrypoint: entrypoint@,
                alt_entrypoint: None,
                natmap: Map::empty(),
                default_timeout: Duration { secs: crate::async_client::DEFAULT_TIMEOUT_S, nanos: 0 },
                user_name: None,
                doas: None,
                dt: None,
            }),
    {
        Self { a: HdfsClientBuilder::new(entrypoint) }
    }

    /// A builder for the synchronous client on top of one for the asynchronous.
    pub fn from_async_builder(a: HdfsClientBuilder) -> (r: Self)
        ensures
            r@ == a@,
    {
        Self { a }
    }

    pub fn alt_entrypoint(self, alt_entrypoint: Uri) -> (r: Self)
        ensures
            r@ == (HdfsClientView { alt_entrypoint: Some(alt_entrypoint@), ..self@ }),
    {
        Self { a: self.a.alt_entrypoint(alt_entrypoint) }
    }

    pub fn natmap(self, natmap: NatMap) -> (r: Self)
        ensures
            r@ == (HdfsClientView { natmap: natmap@, ..self@ }),
    {
        Self { a: self.a.natmap(natmap) }
    }

    pub fn default_timeout(self, timeout: Duration) -> (r: Self)
        ensures
            r@ == (HdfsClientView { default_timeout: timeout, ..self@ }),
    {
        Self { a: self.a.default_timeout(timeout) }
    }

    pub fn user_name(self, user_name: String) -> (r: Self)
        ensures
            r@ == (HdfsClientView { user_name: Some(user_name@), ..self@ }),
    {
        Self { a: self.a.user_name(user_name) }
    }

    pub fn doas(self, doas: String) -> (r: Self)
        ensures
            r@ == (HdfsClientView { doas: Some(doas@), ..self@ }),
    {
        Self { a: self.a.doas(doas) }
    }

    pub fn delegation_token(self, dt: String) -> (r: Self)
        ensures
            r@ == (HdfsClientView { dt: Some(dt@), ..self@ }),
    {
        Self { a: self.a.delegation_token(dt) }
    }

    /// The client, in the state `PRIMARY`.
    pub fn build(self) -> (r: Result<SyncHdfsClient>)
        ensures
            r is Ok,
            r->Ok_0.client() == self@,
            r->Ok_0.spec_fostate() == FOState::PRIMARY,
    {
        Ok(SyncHdfsClient { acx: self.a.build(), fostate: FOState::PRIMARY })
    }
}

impl SyncHdfsClient {
    /// The configuration of the client.
    pub closed spec fn client(self) -> HdfsClientView {
        self.acx@
    }

    /// The failover state in which the next operation begins.
    pub closed spec fn spec_fostate(&self) -> FOState {
        self.fostate
    }

    /// The client, in the state `PRIMARY`.
    pub fn from_async(acx: HdfsClient) -> (r: Result<Self>)
        ensures
            r is Ok,
            r->Ok_0.client() == acx@,
            r->Ok_0.spec_fostate() == FOState::PRIMARY,
    {
        Ok(Self { acx, fostate: FOState::PRIMARY })
    }

    #[verifier::when_used_as_spec(spec_fostate)]
    pub fn fostate(&self) -> (r: FOState)
        ensures
            r == self.spec_fostate(),
    {
        self.fostate
    }

    /// The same client, to begin its next operation in the given state.
    pub fn with_fostate(self, fostate: FOState) -> (r: Self)
        ensures
            r.client() == self.client(),
            r.spec_fostate() == fostate,
    {
        Self { acx: self.acx, fostate }
    }

    pub fn default_timeout(&self) -> (r: &Duration)
        ensures
            *r == self.client().default_timeout,
    {
        self.acx.default_timeout()
    }

    /// Takes the result of an operation and remembers the failover state that came with it.
    pub fn foresult<T, E>(&mut self, r: FOStdResult<T, E>) -> (out: StdResult<T, E>)
        ensures
            final(self).client() == old(self).client(),
            match r {
                Ok((v, s)) => out == Ok::<T, E>(v) && final(self).spec_fostate() == s,
                Err((e, s)) => out == Err::<T, E>(e) && final(self).spec_fostate() == s,
            },
    {
        let (r, fostate) = FOR::split(r);
        self.fostate = fostate;
        r
    }

    /// The result of an operation that ran out of time: the failover state stays.
    pub fn timed_out<T>(&self) -> (r: FOStdResult<T, ErrorD>)
        ensures
            r matches Err((ed, s)) && ed.error.is_anon(Cause::Timeout) && ed.data_opt is None && s
                == self.spec_fostate(),
    {
        Err((ErrorD::timeout(), self.fostate))
    }

    /// Open a file for reading
    pub fn open(&self, path: &str, open_options: OpenOptions) -> (r: CallNext<'_>)
        ensures
            begun(
                op_call(
                    self.client(),
                    self.spec_fostate(),
                    path.spec_bytes(),
                    Op::OPEN,
                    open_options.args(),
                ),
                None,
                r,
            ),
    {
        self.acx.open(self.fostate, path, open_options)
    }

    /// Append to a file
    pub fn append(&self, path: &str, data: Data, append_options: AppendOptions) -> (r: CallNext<'_>)
        ensures
            begun(
                op_call(
                    self.client(),
                    self.spec_fostate(),
                    path.spec_bytes(),
                    Op::APPEND,
                    append_options.args(),
                ),
                Some(data@),
                r,
            ),
    {
        self.acx.append(self.fostate, path, data, append_options)
    }

    /// `append` with borrowed options.
    pub fn append_with(&self, path: &str, data: Data, append_options: &AppendOptions) -> (r:
        CallNext<'_>)
        ensures
            begun(
                op_call(
                    self.client(),
                    self.spec_fostate(),
                    path.spec_bytes(),
                    Op::APPEND,
                    append_options.args(),
                ),
                Some(data@),
                r,
            ),
    {
        self.acx.append_with(self.fostate, path, data, append_options)
    }

    /// Create file
    pub fn create(&self, path: &str, data: Data, opts: CreateOptions) -> (r: CallNext<'_>)
        ensures
            begun(
                op_call(
                    self.client(),
                    self.spec_fostate(),
                    path.spec_bytes(),
                    Op::CREATE,
                    opts.args(),
                ),
                Some(data@),
                r,
            ),
    {
        self.acx.create(self.fostate, path, data, opts)
    }

    /// Get directory listing
    pub fn dir(&self, path: &str) -> (r: CallNext<'_>)
        ensures
            begun(
                op_call(
                    self.client(),
                    self.spec_fostate(),
                    path.spec_bytes(),
                    Op::LISTSTATUS,
                    Seq::empty(),
                ),
                None,
                r,
            ),
    {
        self.acx.dir(self.fostate, path)
    }

    /// Stat a file /dir
    pub fn stat(&self, path: &str) -> (r: CallNext<'_>)
        ensures
            begun(
                op_call(
                    self.client(),
                    self.spec_fostate(),
                    path.spec_bytes(),
                    Op::GETFILESTATUS,
                    Seq::empty(),
                ),
                None,
                r,
            ),
    {
        self.acx.stat(self.fostate, path)
    }

    /// Concat File(s)
    pub fn concat(&self, path: &str, paths: Vec<String>) -> (r: CallNext<'_>)
        ensures
            begun(
                op_call(
                    self.client(),
                    self.spec_fostate(),
                    path.spec_bytes(),
                    Op::CONCAT,
                    seq![OpArg::Sources(paths)],
                ),
                None,
                r,
            ),
    {
        self.acx.concat(self.fostate, path, paths)
    }

    /// Make a Directory
    pub fn mkdirs(&self, path: &str, opts: MkdirsOptions) -> (r: CallNext<'_>)
        ensures
            begun(
                op_call(
                    self.client(),
                    self.spec_fostate(),
                    path.spec_bytes(),
                    Op::MKDIRS,
                    opts.args(),
                ),
                None,
                r,
            ),
    {
        self.acx.mkdirs(self.fostate, path, opts)
    }

    /// Rename a file/directory
    pub fn rename(&self, path: &str, destination: String) -> (r: CallNext<'_>)
        ensures
            begun(
                op_call(
                    self.client(),
                    self.spec_fostate(),
                    path.spec_bytes(),
                    Op::RENAME,
                    seq![OpArg::Destination(destination)],
                ),
                None,
                r,
            ),
    {
        self.acx.rename(self.fostate, path, destination)
    }

    /// Create a Symbolic Link
    pub fn create_symlink(&self, path: &str, destination: String, opts: CreateSymlinkOptions) -> (r:
        CallNext<'_>)
        ensures
            begun(
                op_call(
                    self.client(),
                    self.spec_fostate(),
                    path.spec_bytes(),
                    Op::CREATESYMLINK,
                    seq![OpArg::Destination(destination)] + opts.args(),
                ),
                None,
                r,
            ),
    {
        self.acx.create_symlink(self.fostate, path, destination, opts)
    }

    /// Delete a File/Directory
    pub fn delete(&self, path: &str, opts: DeleteOptions) -> (r: CallNext<'_>)
        ensures
            begun(
                op_call(
                    self.client(),
                    self.spec_fostate(),
                    path.spec_bytes(),
                    Op::DELETE,
                    opts.args(),
                ),
                None,
                r,
            ),
    {
        self.acx.delete(self.fostate, path, opts)
    }

    /// Get a file: the request that opens `input` for reading from its start.
    pub fn get_file(&self, input: &str) -> (r: CallNext<'_>)
        ensures
            begun(
                op_call(
                    self.client(),
                    self.spec_fostate(),
                    input.spec_bytes(),
                    Op::OPEN,
                    Seq::empty(),
                ),
                None,
                r,
            ),
    {
        self.open(input, OpenOptions::new())
    }
}

/// What to do with what the stream of a file gave.
pub enum SaveNext {
    /// Write these bytes to the output, then ask the stream again.
    Write(Vec<u8>),
    /// The stream is over, or broken.
    Done(Result<()>),
}

/// Saving a stream: a chunk is to be written, a broken stream ends the
/// saving with its error, and the end of the stream ends it well.
pub fn save_stream(ev: Option<Result<Vec<u8>>>) -> (r: SaveNext)
    ensures
        match ev {
            Some(Ok(bytes)) => r == SaveNext::Write(bytes),
            Some(Err(e)) => r == SaveNext::Done(Err(e)),
            None => r == SaveNext::Done(Ok(())),
        },
{
    match ev {
        Some(Ok(bytes)) => SaveNext::Write(bytes),
        Some(Err(e)) => SaveNext::Done(Err(e)),
        None => SaveNext::Done(Ok(())),
    }
}

/// Checks one write of a chunk of `len` bytes: a failure of the output is
/// handed on, and a write of fewer bytes is an error.
pub fn write_bytes(len: usize, written: StdResult<usize, IoError>) -> (r: Result<()>)
    ensures
        match written {
            Ok(n) => if n == len {
                r is Ok
            } else {
                r is Err && r->Err_0.is_generic("Short write"@)
            },
            Err(e) => r is Err && r->Err_0.is_anon(Cause::Io(e)),
        },
{
    match written {
        Ok(n) => {
            if n != len {
                Err(Error::app_c("Short write"))
            } else {
                Ok(())
            }
        },
        Err(e) => Err(Error::anon(Cause::Io(e))),
    }
}

/// Where to seek to: from the start, from the end, or from the current position.
#[derive(Debug, Clone, Copy, PartialEq, Eq, Structural)]
pub enum SeekFrom {
    Start(u64),
    End(i64),
    Current(i64),
}

/// The outcome of a seek in a file of length `len` at position `pos`: the
/// new position, or `None` where the seek is refused.
///
/// A target before the start is refused. A target within the file, its end
/// included, is taken. From the start or from the current position, a target
/// beyond the end leaves the position where it is; from the end it leads to
/// the end. An offset from the start that no position can hold is refused,
/// and so is an offset from the current position that overflows.
pub open spec fn seek_target(len: i64, pos: i64, to: SeekFrom) -> Option<i64> {
    match to {
        SeekFrom::Start(o) => if o > i64::MAX {
            None
        } else if o <= len {
            Some(o as i64)
        } else {
            Some(pos)
        },
        SeekFrom::Current(d) => if pos + d > i64::MAX || pos + d < i64::MIN {
            None
        } else if pos + d < 0 {
            None
        } else if pos + d <= len {
            Some((pos + d) as i64)
        } else {
            Some(pos)
        },
        SeekFrom::End(d) => if len + d > i64::MAX || len + d < i64::MIN {
            Some(len)
        } else if len + d < 0 {
            None
        } else if len + d <= len {
            Some((len + d) as i64)
        } else {
            Some(len)
        },
    }
}

/// The position as `seek` and `len` report it.
pub open spec fn as_offset(p: i64) -> u64 {
    if p >= 0 {
        p as u64
    } else {
        (p + 0x1_0000_0000_0000_0000) as u64
    }
}

fn to_offset(p: i64) -> (r: u64)
    ensures
        r == as_offset(p),
{
    if p >= 0 {
        p as u64
    } else {
        let m: u64 = (-(p + 1)) as u64;
        u64::MAX - m
    }
}

fn invalid_input(msg: &'static str) -> (r: IoError)
    ensures
        r.kind == IoErrorKind::InvalidInput,
        r.msg is Some,
        r.msg->0@ == msg@,
{
    IoError { kind: IoErrorKind::InvalidInput, msg: Some(owned(msg)) }
}

/// HDFS file read object.
///
/// Lengths and offsets are signed 64-bit integers, as the protocol has them.
pub struct ReadHdfsFile {
    cx: SyncHdfsClient,
    path: String,
    len: i64,
    pos: i64,
}

/// What to do with what the stream of a read gave.
pub enum ReadNext {
    /// Ask the stream again; so many bytes of the buffer are filled.
    More(usize),
    /// The read is over.
    Done(StdResult<usize, IoError>),
}

/// The buffer after a chunk was put into it behind the first `filled` bytes,
/// as far as there is room.
pub open spec fn absorbed(buf: Seq<u8>, filled: int, chunk: Seq<u8>) -> Seq<u8> {
    let n = if chunk.len() <= buf.len() - filled {
        chunk.len() as int
    } else {
        buf.len() - filled
    };
    buf.subrange(0, filled) + chunk.subrange(0, n) + buf.subrange(filled + n, buf.len() as int)
}

impl ReadHdfsFile {
    pub closed spec fn client(self) -> SyncHdfsClient {
        self.cx
    }

    pub closed spec fn path(self) -> Seq<char> {
        self.path@
    }

    /// The length of the file.
    pub closed spec fn length(self) -> i64 {
        self.len
    }

    /// The position of the next read.
    pub closed spec fn position(self) -> i64 {
        self.pos
    }

    /// A handle on the file `path`, whose status `stat` reports, at position 0.
    pub fn open(cx: SyncHdfsClient, path: String, stat: &FileStatusResponse) -> (r: ReadHdfsFile)
        ensures
            r.client() == cx,
            r.path() == path@,
            r.length() == stat.file_status.length,
            r.position() == 0,
    {
        Self::new(cx, path, stat.file_status.length, 0)
    }

    pub fn new(cx: SyncHdfsClient, path: String, len: i64, pos: i64) -> (r: Self)
        ensures
            r.client() == cx,
            r.path() == path@,
            r.length() == len,
            r.position() == pos,
    {
        Self { cx, path, len, pos }
    }

    /// The client of this file.
    pub fn sync_client(&self) -> (r: &SyncHdfsClient)
        ensures
            *r == self.client(),
    {
        &self.cx
    }

    /// The position of the next read.
    pub fn pos(&self) -> (r: i64)
        ensures
            r == self.position(),
    {
        self.pos
    }

    /// File length in bytes
    pub fn len(&self) -> (r: u64)
        ensures
            r == as_offset(self.length()),
    {
        to_offset(self.len)
    }

    /// Splits self into `(sync_client, path, (pos, len))`
    pub fn into_parts(self) -> (r: (SyncHdfsClient, String, (i64, i64)))
        ensures
            r.0 == self.client(),
            r.1@ == self.path(),
            r.2 == (self.position(), self.length()),
    {
        (self.cx, self.path, (self.pos, self.len))
    }

    /// Takes the result of an operation on the client of this file and
    /// remembers the failover state that came with it.
    pub fn foresult<T, E>(&mut self, r: FOStdResult<T, E>) -> (out: StdResult<T, E>)
        ensures
            final(self).client().client() == old(self).client().client(),
            final(self).path() == old(self).path(),
            final(self).length() == old(self).length(),
            final(self).position() == old(self).position(),
            match r {
                Ok((v, s)) => out == Ok::<T, E>(v) && final(self).client().spec_fostate() == s,
                Err((e, s)) => out == Err::<T, E>(e) && final(self).client().spec_fostate() == s,
            },
    {
        self.cx.foresult(r)
    }

    /// The options of the request that reads `buf_len` bytes from the
    /// current position; a buffer longer than any file is refused.
    pub fn read_options(&self, buf_len: usize) -> (r: StdResult<OpenOptions, IoError>)
        ensures
            buf_len <= i64::MAX ==> r is Ok && r->Ok_0.args() == seq![
                OpArg::Offset(self.position()),
                OpArg::Length(buf_len as i64),
            ],
            buf_len > i64::MAX ==> r is Err && r->Err_0.kind == IoErrorKind::InvalidInput
                && r->Err_0.msg is Some && r->Err_0.msg->0@ == "buffer too big"@,
    {
        if buf_len as u64 > i64::MAX as u64 {
            return Err(invalid_input("buffer too big"));
        }
        let o = OpenOptions::new().offset(self.pos).length(buf_len as i64);
        assert(o.args() =~= seq![OpArg::Offset(self.position()), OpArg::Length(buf_len as i64)]);
        Ok(o)
    }

    /// Begins a read into a buffer of `buf_len` bytes: the request for that
    /// many bytes from the current position.
    pub fn read(&self, buf_len: usize) -> (r: StdResult<CallNext<'_>, IoError>)
        ensures
            buf_len <= i64::MAX ==> r is Ok && begun(
                op_call(
                    self.client().client(),
                    self.client().spec_fostate(),
                    vstd::utf8::encode_utf8(self.path()),
                    Op::OPEN,
                    seq![OpArg::Offset(self.position()), OpArg::Length(buf_len as i64)],
                ),
                None,
                r->Ok_0,
            ),
            buf_len > i64::MAX ==> r is Err && r->Err_0.kind == IoErrorKind::InvalidInput
                && r->Err_0.msg is Some && r->Err_0.msg->0@ == "buffer too big"@,
    {
        match self.read_options(buf_len) {
            Ok(o) => Ok(self.cx.open(self.path.as_str(), o)),
            Err(e) => Err(e),
        }
    }

    /// Takes what the stream gave. A chunk is put into the buffer behind
    /// the `filled` bytes that are there, as far as there is room, and the
    /// position moves on by the length of the chunk. A broken stream ends
    /// the read with its error, the end of the stream with the count of
    /// bytes in the buffer.
    pub fn on_chunk(&mut self, buf: &mut [u8], filled: usize, ev: Option<Result<Vec<u8>>>) -> (r:
        ReadNext)
        requires
            filled <= old(buf)@.len(),
            ev matches Some(Ok(chunk)) ==> old(self).position() + chunk@.len() <= i64::MAX,
        ensures
            final(self).client() == old(self).client(),
            final(self).path() == old(self).path(),
            final(self).length() == old(self).length(),
            match ev {
                Some(Ok(chunk)) => final(buf)@ == absorbed(old(buf)@, filled as int, chunk@)
                    && final(self).position() == old(self).position() + chunk@.len() && r
                    == ReadNext::More(
                    if chunk@.len() <= old(buf)@.len() - filled {
                        (filled + chunk@.len()) as usize
                    } else {
                        old(buf)@.len() as usize
                    },
                ),
                Some(Err(e)) => final(buf)@ == old(buf)@ && final(self).position() == old(self).position()
                    && r is Done && r->Done_0 is Err && e.into_io_spec(r->Done_0->Err_0),
                None => final(buf)@ == old(buf)@ && final(self).position() == old(self).position()
                    && r == ReadNext::Done(Ok(filled)),
            },
    {
        match ev {
            Some(Ok(chunk)) => {
                self.pos = (self.pos as i128 + chunk.len() as i128) as i64;
                let total = buf.len();
                let room = total - filled;
                let n = if chunk.len() <= room {
                    chunk.len()
                } else {
                    room
                };
                let mut i: usize = 0;
                while i < n
                    invariant
                        i <= n,
                        n <= chunk@.len(),
                        filled + n <= total,
                        total == buf@.len(),
                        buf@.len() == old(buf)@.len(),
                        buf@ == old(buf)@.subrange(0, filled as int) + chunk@.subrange(0, i as int)
                            + old(buf)@.subrange(filled + i, old(buf)@.len() as int),
                    decreases n - i,
                {
                    assert(filled + i < buf@.len());
                    buf[filled + i] = chunk[i];
                    assert(buf@ =~= old(buf)@.subrange(0, filled as int) + chunk@.subrange(
                        0,
                        i + 1,
                    ) + old(buf)@.subrange(filled + i + 1, old(buf)@.len() as int));
                    i = i + 1;
                }
                assert(buf@ =~= absorbed(old(buf)@, filled as int, chunk@));
                ReadNext::More(filled + n)
            },
            Some(Err(e)) => ReadNext::Done(Err(e.into_io())),
            None => ReadNext::Done(Ok(filled)),
        }
    }

    /// Moves the position of the next read and reports it.
    pub fn seek(&mut self, pos: SeekFrom) -> (r: StdResult<u64, IoError>)
        ensures
            final(self).client() == old(self).client(),
            final(self).path() == old(self).path(),
            final(self).length() == old(self).length(),
            match seek_target(old(self).length(), old(self).position(), pos) {
                Some(p) => final(self).position() == p && r == Ok::<u64, IoError>(as_offset(p)),
                None => final(self).position() == old(self).position() && r is Err && r->Err_0.kind
                    == IoErrorKind::InvalidInput,
            },
    {
        let target: i64 = match pos {
            SeekFrom::Start(o) => {
                if o > i64::MAX as u64 {
                    return Err(invalid_input("offset too big"));
                }
                let o = o as i64;
                if o <= self.len {
                    o
                } else {
                    self.pos
                }
            },
            SeekFrom::Current(d) => match self.pos.checked_add(d) {
                Some(p) => {
                    if p < 0 {
                        return Err(invalid_input("attempt to seek before start"));
                    }
                    if p <= self.len {
                        p
                    } else {
                        self.pos
                    }
                },
                None => {
                    return Err(invalid_input("offset too big"));
                },
            },
            SeekFrom::End(d) => match self.len.checked_add(d) {
                Some(p) => {
                    if p < 0 {
                        return Err(invalid_input("attempt to seek before start"));
                    }
                    if p <= self.len {
                        p
                    } else {
                        self.len
                    }
                },
                None => self.len,
            },
        };
        self.pos = target;
        Ok(to_offset(self.pos))
    }
}

/// Seek bounds: in a file of length `len`, a seek from the start to a
/// position within the file leads there, a seek to the end leads to `len`,
/// and a seek to before the start is refused, wherever it is counted from.
pub proof fn lemma_seek_bounds(len: i64, pos: i64, x: u64, d: i64)
    requires
        0 <= len,
        0 <= pos <= len,
    ensures
        x <= len ==> seek_target(len, pos, SeekFrom::Start(x)) == Some(x as i64),
        seek_target(len, pos, SeekFrom::End(0)) == Some(len),
        pos + d < 0 ==> seek_target(len, pos, SeekFrom::Current(d)) is None,
        len + d < 0 ==> seek_target(len, pos, SeekFrom::End(d)) is None,
{
}

/// A seek never leaves the file: from a position within the file it leads
/// to a position within the file.
pub proof fn lemma_seek_within(len: i64, pos: i64, to: SeekFrom)
    requires
        0 <= pos <= len,
    ensures
        seek_target(len, pos, to) matches Some(p) ==> 0 <= p <= len,
{
}

/// HDFS file write object
pub struct WriteHdfsFile {
    cx: SyncHdfsClient,
    path: String,
    opts: AppendOptions,
}

impl WriteHdfsFile {
    pub closed spec fn client(self) -> SyncHdfsClient {
        self.cx
    }

    pub closed spec fn path(self) -> Seq<char> {
        self.path@
    }

    /// The options of every append.
    pub closed spec fn options(self) -> Seq<OpArg> {
        self.opts.args()
    }

    /// A handle on the file `path`, which was just created; `created` is the
    /// result of the `CREATE` operation, whose error is handed on.
    pub fn create(cx: SyncHdfsClient, path: String, created: DResult<()>, a_opts: AppendOptions) -> (r:
        Result<WriteHdfsFile>)
        ensures
            match created {
                Ok(_) => r is Ok && r->Ok_0.client() == cx && r->Ok_0.path() == path@
                    && r->Ok_0.options() == a_opts.args(),
                Err(ed) => r == Err::<WriteHdfsFile, Error>(ed.error),
            },
    {
        match created {
            Ok(_) => Ok(Self { cx, path, opts: a_opts }),
            Err(ed) => Err(ErrorD::drop(ed)),
        }
    }

    /// A handle on an existing file, to append to it.
    pub fn append(cx: SyncHdfsClient, path: String, opts: AppendOptions) -> (r: Result<WriteHdfsFile>)
        ensures
            r is Ok,
            r->Ok_0.client() == cx,
            r->Ok_0.path() == path@,
            r->Ok_0.options() == opts.args(),
    {
        Ok(Self { cx, path, opts })
    }

    /// The client of this file.
    pub fn sync_client(&self) -> (r: &SyncHdfsClient)
        ensures
            *r == self.client(),
    {
        &self.cx
    }

    /// Splits self into `(sync_client, path)`
    pub fn into_parts(self) -> (r: (SyncHdfsClient, String))
        ensures
            r.0 == self.client(),
            r.1@ == self.path(),
    {
        (self.cx, self.path)
    }

    /// Takes the result of an operation on the client of this file and
    /// remembers the failover state that came with it.
    pub fn foresult<T, E>(&mut self, r: FOStdResult<T, E>) -> (out: StdResult<T, E>)
        ensures
            final(self).client().client() == old(self).client().client(),
            final(self).path() == old(self).path(),
            final(self).options() == old(self).options(),
            match r {
                Ok((v, s)) => out == Ok::<T, E>(v) && final(self).client().spec_fostate() == s,
                Err((e, s)) => out == Err::<T, E>(e) && final(self).client().spec_fostate() == s,
            },
    {
        self.cx.foresult(r)
    }

    /// Begins a write: the `APPEND` of exactly the bytes of `buf`.
    pub fn write(&self, buf: &[u8]) -> (r: CallNext<'_>)
        ensures
            begun(
                op_call(
                    self.client().client(),
                    self.client().spec_fostate(),
                    vstd::utf8::encode_utf8(self.path()),
                    Op::APPEND,
                    self.options(),
                ),
                Some(buf@),
                r,
            ),
    {
        let b = vstd::slice::slice_to_vec(buf);
        self.cx.append_with(self.path.as_str(), b, &self.opts)
    }

    /// Ends a write of `len` bytes: all of them are written, or none.
    pub fn written(len: usize, r: DResult<()>) -> (out: StdResult<usize, IoError>)
        ensures
            match r {
                Ok(_) => out == Ok::<usize, IoError>(len),
                Err(ed) => out matches Err(io) && ed.error.into_io_spec(io),
            },
    {
        match r {
            Ok(_) => Ok(len),
            Err(ed) => Err(ErrorD::drop(ed).into_io()),
        }
    }

    /// Nothing is held back: every write is durable on the server.
    pub fn flush(&mut self) -> (r: StdResult<(), IoError>)
        ensures
            r is Ok,
            *final(self) == *old(self),
    {
        Ok(())
    }
}

} // verus!
