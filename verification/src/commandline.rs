//! The command line of the `webhdfs` tool: how arguments are split, and what
//! the options ask for.

use vstd::prelude::*;
use vstd::string::StrSliceExecFns;
use vstd::string::StringExecFns;
use crate::async_client::{configured, natmap_valid, HdfsClientBuilder, HdfsClientView, DEFAULT_TIMEOUT_S};
use crate::config::{kv_lines, read_kv_lines, split_kv, Config, Duration};
use crate::error::{Cause, Error, IoError, Result, StdResult};
use crate::natmap::{entries_map, entries_view, NatMap};
use crate::sync_client::{SyncHdfsClient, SyncHdfsClientBuilder};
use crate::text::{find_char, first_index, lemma_first_index, owned, parse_u64, str_eq, u64_of};
use crate::uri::{authority_valid, uri_parse, view_of_parts, Uri};

verus! {

/// One item of the command line.
#[derive(Debug)]
pub enum CmdLn {
    Switch(String),
    Arg(String),
    Item(String),
}

/// An item of the command line as plain text.
pub enum CmdLnView {
    Switch(Seq<char>),
    Arg(Seq<char>),
    Item(Seq<char>),
}

impl View for CmdLn {
    type V = CmdLnView;

    open spec fn view(&self) -> CmdLnView {
        match self {
            CmdLn::Switch(s) => CmdLnView::Switch(s@),
            CmdLn::Arg(s) => CmdLnView::Arg(s@),
            CmdLn::Item(s) => CmdLnView::Item(s@),
        }
    }
}

pub open spec fn items_view(v: Seq<CmdLn>) -> Seq<CmdLnView> {
    Seq::new(v.len(), |i: int| v[i]@)
}

/// What one argument of the program stands for, and whether the arguments
/// after it are taken as they are.
///
/// After `--` every argument is an item. `--sw=arg` is a switch and its
/// argument, `--sw` an item. `-abc` is the items `-a`, `-b` and `-c`. Any
/// other argument is an item.
pub open spec fn converted(bypass: bool, v: Seq<char>) -> (Seq<CmdLnView>, bool) {
    if bypass {
        (seq![CmdLnView::Item(v)], true)
    } else if v == seq!['-', '-'] {
        (Seq::empty(), true)
    } else if v.len() >= 2 && v[0] == '-' && v[1] == '-' {
        match first_index(v, '=') {
            Some(i) => (
                seq![
                    CmdLnView::Switch(v.subrange(0, i)),
                    CmdLnView::Arg(v.subrange(i + 1, v.len() as int)),
                ],
                false,
            ),
            None => (seq![CmdLnView::Item(v)], false),
        }
    } else if v.len() >= 2 && v[0] == '-' {
        (Seq::new((v.len() - 1) as nat, |i: int| CmdLnView::Item(seq!['-', v[i + 1]])), false)
    } else {
        (seq![CmdLnView::Item(v)], false)
    }
}

impl CmdLn {
    /// Splits a command line argument if needed.
    pub fn convert_arg(bypass: &mut bool, v: String) -> (r: Vec<CmdLn>)
        ensures
            items_view(r@) == converted(*old(bypass), v@).0,
            *final(bypass) == converted(*old(bypass), v@).1,
    {
        let mut out: Vec<CmdLn> = Vec::new();
        if *bypass {
            out.push(CmdLn::Item(v));
            assert(items_view(out@) =~= seq![CmdLnView::Item(v@)]);
            return out;
        }
        let s = v.as_str();
        let n = s.unicode_len();
        let first = if n >= 1 {
            s.get_char(0) == '-'
        } else {
            false
        };
        let second = if n >= 2 {
            s.get_char(1) == '-'
        } else {
            false
        };
        if n == 2 && first && second {
            assert(v@ =~= seq!['-', '-']);
            *bypass = true;
            assert(items_view(out@) =~= Seq::empty());
            return out;
        }
        assert(v@ != seq!['-', '-']);
        if first && second {
            proof {
                lemma_first_index(v@, '=');
            }
            match find_char(s, '=') {
                Some(i) => {
                    let a = owned(s.substring_char(0, i));
                    let b = owned(s.substring_char(i + 1, n));
                    out.push(CmdLn::Switch(a));
                    out.push(CmdLn::Arg(b));
                    assert(items_view(out@) =~= converted(false, v@).0);
                },
                None => {
                    out.push(CmdLn::Item(v));
                    assert(items_view(out@) =~= converted(false, v@).0);
                },
            }
            return out;
        }
        if first && n >= 2 {
            let mut i: usize = 0;
            for c in it: s.chars()
                invariant
                    i == it.index(),
                    it.seq() == v@,
                    n == v@.len(),
                    out.len() == if i == 0 {
                        0int
                    } else {
                        i - 1
                    },
                    forall|j: int|
                        0 <= j < out.len() ==> (#[trigger] out[j])@ == CmdLnView::Item(
                            seq!['-', v@[j + 1]],
                        ),
            {
                if i > 0 {
                    let mut t = String::new();
                    t.push('-');
                    t.push(c);
                    assert(t@ =~= seq!['-', c]);
                    out.push(CmdLn::Item(t));
                }
                i = i + 1;
            }
            assert(items_view(out@) =~= converted(false, v@).0);
            return out;
        }
        out.push(CmdLn::Item(v));
        assert(items_view(out@) =~= converted(false, v@).0);
        out
    }

    /// How an item reads in a message: its kind and its text.
    pub open spec fn debug_text(self) -> Seq<char> {
        match self {
            CmdLn::Switch(s) => "Switch(\""@ + s@ + "\")"@,
            CmdLn::Arg(s) => "Arg(\""@ + s@ + "\")"@,
            CmdLn::Item(s) => "Item(\""@ + s@ + "\")"@,
        }
    }

    /// The text of `to_string`: `Switch '..'`, `Arg '..'` or `Item '..'`.
    pub open spec fn render(self) -> Seq<char> {
        match self {
            CmdLn::Switch(s) => "Switch '"@ + s@ + "'"@,
            CmdLn::Arg(s) => "Arg '"@ + s@ + "'"@,
            CmdLn::Item(s) => "Item '"@ + s@ + "'"@,
        }
    }

    pub fn to_string(&self) -> (r: String)
        ensures
            r@ == self.render(),
    {
        let (head, s) = match self {
            CmdLn::Switch(s) => ("Switch '", s),
            CmdLn::Arg(s) => ("Arg '", s),
            CmdLn::Item(s) => ("Item '", s),
        };
        let mut t = owned(head);
        t.append(s.as_str());
        t.append("'");
        t
    }

    /// The complaint about an item that is not what was wanted.
    pub fn raise(&self, w: &str) -> (r: CliError)
        ensures
            r.msg@ == "we wanted "@ + w@ + ", but got "@ + self.debug_text(),
            r.detail@ == "command line syntax error"@,
    {
        let (head, s) = match self {
            CmdLn::Switch(s) => ("Switch(\"", s),
            CmdLn::Arg(s) => ("Arg(\"", s),
            CmdLn::Item(s) => ("Item(\"", s),
        };
        let mut t = owned("we wanted ");
        t.append(w);
        t.append(", but got ");
        t.append(head);
        t.append(s.as_str());
        t.append("\")");
        assert(t@ =~= "we wanted "@ + w@ + ", but got "@ + self.debug_text());
        CliError { msg: t, detail: owned("command line syntax error") }
    }

    /// The text of a switch or of an item.
    pub fn switch_ref(&self) -> (r: &str)
        requires
            !(self is Arg),
        ensures
            self@ == CmdLnView::Switch(r@) || self@ == CmdLnView::Item(r@),
    {
        match self {
            CmdLn::Switch(v) => v.as_str(),
            CmdLn::Item(v) => v.as_str(),
            CmdLn::Arg(_) => vstd::pervasive::unreached(),
        }
    }

    /// The text of an argument or of an item.
    pub fn arg(self) -> (r: String)
        requires
            !(self is Switch),
        ensures
            self == CmdLn::Arg(r) || self == CmdLn::Item(r),
    {
        match self {
            CmdLn::Arg(v) => v,
            CmdLn::Item(v) => v,
            CmdLn::Switch(_) => vstd::pervasive::unreached(),
        }
    }
}

/// The items of a list of arguments, and whether `--` was among them.
pub open spec fn parsed(args: Seq<Seq<char>>) -> (Seq<CmdLnView>, bool)
    decreases args.len(),
{
    if args.len() == 0 {
        (Seq::empty(), false)
    } else {
        let p = parsed(args.drop_last());
        let c = converted(p.1, args.last());
        (p.0 + c.0, c.1)
    }
}

/// The arguments of a program, without its name.
pub open spec fn arguments(args: Seq<String>) -> Seq<Seq<char>> {
    Seq::new(if args.len() > 0 { (args.len() - 1) as nat } else { 0 }, |i: int| args[i + 1]@)
}

/// Splits the arguments of the program, whose name comes first, into items.
pub fn parse_cmdln(args: Vec<String>) -> (r: Vec<CmdLn>)
    ensures
        items_view(r@) == parsed(arguments(args@)).0,
{
    let mut out: Vec<CmdLn> = Vec::new();
    let mut bypass = false;
    let mut i: usize = 1;
    let ghost a = arguments(args@);
    assert(a.take(0) =~= Seq::empty());
    assert(items_view(out@) =~= Seq::empty());
    if args.len() == 0 {
        assert(a =~= Seq::empty());
        return out;
    }
    while i < args.len()
        invariant
            1 <= i <= args.len(),
            a == arguments(args@),
            (items_view(out@), bypass) == parsed(a.take(i - 1)),
        decreases args.len() - i,
    {
        let ghost t = a.take(i as int);
        assert(t.drop_last() =~= a.take(i - 1));
        assert(t.last() == args@[i as int]@);
        let ghost before = out@;
        let mut part = CmdLn::convert_arg(&mut bypass, args[i].clone());
        let ghost added = part@;
        out.append(&mut part);
        assert(items_view(out@) =~= items_view(before) + items_view(added));
        i = i + 1;
    }
    assert(a.take(args.len() - 1) =~= a);
    out
}

/// Why the command line is refused: a message and, where there is one, a detail.
#[derive(Debug)]
pub struct CliError {
    pub msg: String,
    pub detail: String,
}

impl CliError {
    /// The error with this message and this detail.
    pub open spec fn is(self, msg: Seq<char>, detail: Seq<char>) -> bool {
        self.msg@ == msg && self.detail@ == detail
    }

    pub fn new(msg: &str, detail: String) -> (r: Self)
        ensures
            r.is(msg@, detail@),
    {
        CliError { msg: owned(msg), detail }
    }

    /// The line that tells the user: `Error: msg`, with ` (detail)` where
    /// there is a detail.
    pub open spec fn render(self) -> Seq<char> {
        if self.detail@.len() == 0 {
            "Error: "@ + self.msg@
        } else {
            "Error: "@ + self.msg@ + " ("@ + self.detail@ + ")"@
        }
    }

    pub fn to_string(&self) -> (r: String)
        ensures
            r@ == self.render(),
    {
        let mut t = owned("Error: ");
        t.append(self.msg.as_str());
        if !self.detail.as_str().is_empty() {
            t.append(" (");
            t.append(self.detail.as_str());
            t.append(")");
        }
        t
    }
}

/// The options that take a value.
#[derive(Debug, Clone, Copy, PartialEq, Eq, Structural)]
pub enum Sw {
    Uri,
    User,
    Doas,
    DToken,
    Timeout,
    NMFile,
    NMEntry,
    SaveConfig,
}

/// What a switch asks for.
#[derive(Debug, Clone, Copy, PartialEq, Eq, Structural)]
pub enum Switch {
    Version,
    Help,
    Get,
    Takes(Sw),
    File,
}

/// The meaning of a switch; what is no switch is a file.
pub open spec fn switch_of(t: Seq<char>) -> Switch {
    if t == "-v"@ || t == "--version"@ {
        Switch::Version
    } else if t == "-h"@ || t == "--help"@ {
        Switch::Help
    } else if t == "-g"@ || t == "--get"@ {
        Switch::Get
    } else if t == "-U"@ || t == "--uri"@ || t == "--url"@ {
        Switch::Takes(Sw::Uri)
    } else if t == "-u"@ || t == "--user"@ {
        Switch::Takes(Sw::User)
    } else if t == "-d"@ || t == "--doas"@ {
        Switch::Takes(Sw::Doas)
    } else if t == "-T"@ || t == "--dt"@ {
        Switch::Takes(Sw::DToken)
    } else if t == "-t"@ || t == "--timeout"@ {
        Switch::Takes(Sw::Timeout)
    } else if t == "-N"@ || t == "--natmap-file"@ {
        Switch::Takes(Sw::NMFile)
    } else if t == "-n"@ || t == "--natmap-entry"@ {
        Switch::Takes(Sw::NMEntry)
    } else if t == "--save-config"@ {
        Switch::Takes(Sw::SaveConfig)
    } else {
        Switch::File
    }
}

/// Reads a switch.
pub fn read_switch(t: &str) -> (r: Switch)
    ensures
        r == switch_of(t@),
{
    if str_eq(t, "-v") || str_eq(t, "--version") {
        Switch::Version
    } else if str_eq(t, "-h") || str_eq(t, "--help") {
        Switch::Help
    } else if str_eq(t, "-g") || str_eq(t, "--get") {
        Switch::Get
    } else if str_eq(t, "-U") || str_eq(t, "--uri") || str_eq(t, "--url") {
        Switch::Takes(Sw::Uri)
    } else if str_eq(t, "-u") || str_eq(t, "--user") {
        Switch::Takes(Sw::User)
    } else if str_eq(t, "-d") || str_eq(t, "--doas") {
        Switch::Takes(Sw::Doas)
    } else if str_eq(t, "-T") || str_eq(t, "--dt") {
        Switch::Takes(Sw::DToken)
    } else if str_eq(t, "-t") || str_eq(t, "--timeout") {
        Switch::Takes(Sw::Timeout)
    } else if str_eq(t, "-N") || str_eq(t, "--natmap-file") {
        Switch::Takes(Sw::NMFile)
    } else if str_eq(t, "-n") || str_eq(t, "--natmap-entry") {
        Switch::Takes(Sw::NMEntry)
    } else if str_eq(t, "--save-config") {
        Switch::Takes(Sw::SaveConfig)
    } else {
        Switch::File
    }
}

/// The operations of the tool.
#[derive(Debug, Clone, Copy, PartialEq, Eq, Structural)]
pub enum CliOp {
    Get,
}

/// What the command line has asked for so far.
#[derive(Debug)]
pub struct Cli {
    /// The option whose value is awaited.
    pub sw: Option<Sw>,
    pub op: Option<CliOp>,
    pub files: Vec<String>,
    pub uri: Option<String>,
    pub user: Option<String>,
    pub doas: Option<String>,
    pub dtoken: Option<String>,
    pub timeout: Option<Duration>,
    pub natmap: Option<Vec<(String, String)>>,
    pub save_config: Option<String>,
}

impl Cli {
    /// Nothing asked for.
    pub fn new() -> (r: Self)
        ensures
            r.sw is None,
            r.op is None,
            r.files@ == Seq::<String>::empty(),
            r.uri is None,
            r.user is None,
            r.doas is None,
            r.dtoken is None,
            r.timeout is None,
            r.natmap is None,
            r.save_config is None,
    {
        Cli {
            sw: None,
            op: None,
            files: Vec::new(),
            uri: None,
            user: None,
            doas: None,
            dtoken: None,
            timeout: None,
            natmap: None,
            save_config: None,
        }
    }
}

/// What follows one item of the command line.
#[derive(Debug)]
pub enum CliStep {
    /// Go on with the next item.
    Go(Cli),
    /// Read the NAT map file of this name, hand its lines to `natmap_file`, and go on.
    ReadNatmapFile(Cli, String),
    /// Print the version and leave.
    Version,
    /// Print the usage and leave.
    Usage,
    /// Leave with this error.
    Fail(CliError),
}

/// The entries of a NAT map with one more at their end.
pub open spec fn entry_added(
    before: Option<Vec<(String, String)>>,
    after: Option<Vec<(String, String)>>,
    line: Seq<char>,
) -> bool {
    let i = first_index(line, '=')->0;
    &&& after is Some
    &&& after->0.len() == (match before {
        Some(m) => m.len(),
        None => 0,
    }) + 1
    &&& forall|j: int| 0 <= j < after->0.len() - 1 ==> after->0[j] == before->0[j]
    &&& after->0[after->0.len() - 1].0@ == line.subrange(0, i)
    &&& after->0[after->0.len() - 1].1@ == line.subrange(i + 1, line.len() as int)
}

/// What an item does to the state of the command line.
///
/// Where an option awaits its value, the item is that value, and a switch
/// in its place is refused. A timeout is a number of seconds; a NAT map
/// entry is `key=value`; a NAT map file is to be read. Otherwise the item is
/// a switch, and an argument in its place is refused: the switches of the
/// options await a value, `--get` names the operation, and what is no
/// switch is a file.
pub open spec fn stepped(s: Cli, arg: CmdLn, r: CliStep) -> bool {
    match s.sw {
        Some(sw) => match arg {
            CmdLn::Switch(_) => r is Fail && r->Fail_0.is(
                "we wanted "@ + "Arg"@ + ", but got "@ + arg.debug_text(),
                "command line syntax error"@,
            ),
            CmdLn::Arg(a) | CmdLn::Item(a) => match sw {
                Sw::Uri => r == CliStep::Go(Cli { sw: None, uri: Some(a), ..s }),
                Sw::User => r == CliStep::Go(Cli { sw: None, user: Some(a), ..s }),
                Sw::Doas => r == CliStep::Go(Cli { sw: None, doas: Some(a), ..s }),
                Sw::DToken => r == CliStep::Go(Cli { sw: None, dtoken: Some(a), ..s }),
                Sw::SaveConfig => r == CliStep::Go(Cli { sw: None, save_config: Some(a), ..s }),
                Sw::Timeout => match u64_of(a@) {
                    Ok(secs) => r == CliStep::Go(
                        Cli { sw: None, timeout: Some(Duration { secs, nanos: 0 }), ..s },
                    ),
                    Err(k) => r is Fail && r->Fail_0.is(
                        "Invalid timeout duration"@,
                        k.text(),
                    ),
                },
                Sw::NMFile => r == CliStep::ReadNatmapFile(Cli { sw: None, ..s }, a),
                Sw::NMEntry => match first_index(a@, '=') {
                    Some(_) => r matches CliStep::Go(t) && entry_added(s.natmap, t.natmap, a@)
                        && t == (Cli { sw: None, natmap: t.natmap, ..s }),
                    None => r is Fail && r->Fail_0.is(
                        "invalid natmap entry"@,
                        "AppError: "@ + ("cannot read entry value: "@ + a@) + Seq::<char>::empty(),
                    ),
                },
            },
        },
        None => match arg {
            CmdLn::Arg(_) => r is Fail && r->Fail_0.is(
                "we wanted "@ + "Switch"@ + ", but got "@ + arg.debug_text(),
                "command line syntax error"@,
            ),
            CmdLn::Switch(t) | CmdLn::Item(t) => match switch_of(t@) {
                Switch::Version => r is Version,
                Switch::Help => r is Usage,
                Switch::Get => r == CliStep::Go(Cli { op: Some(CliOp::Get), ..s }),
                Switch::Takes(sw) => r == CliStep::Go(Cli { sw: Some(sw), ..s }),
                Switch::File => match arg {
                    CmdLn::Item(t) => r matches CliStep::Go(n) && n.files@ == s.files@.push(t) && n
                        == (Cli { files: n.files, ..s }),
                    _ => r is Fail && r->Fail_0.is(
                        "we wanted "@ + "Arg"@ + ", but got "@ + arg.debug_text(),
                        "command line syntax error"@,
                    ),
                },
            },
        },
    }
}

/// Takes one item of the command line.
pub fn step(s: Cli, arg: CmdLn) -> (r: CliStep)
    ensures
        stepped(s, arg, r),
{
    let Cli { sw, op, files, uri, user, doas, dtoken, timeout, natmap, save_config } = s;
    match sw {
        Some(sw) => {
            if let CmdLn::Switch(_) = &arg {
                return CliStep::Fail(arg.raise("Arg"));
            }
            let a = arg.arg();
            let sw_none: Option<Sw> = None;
            match sw {
                Sw::Uri => CliStep::Go(
                    Cli {
                        sw: sw_none,
                        op,
                        files,
                        uri: Some(a),
                        user,
                        doas,
                        dtoken,
                        timeout,
                        natmap,
                        save_config,
                    },
                ),
                Sw::User => CliStep::Go(
                    Cli {
                        sw: sw_none,
                        op,
                        files,
                        uri,
                        user: Some(a),
                        doas,
                        dtoken,
                        timeout,
                        natmap,
                        save_config,
                    },
                ),
                Sw::Doas => CliStep::Go(
                    Cli {
                        sw: sw_none,
                        op,
                        files,
                        uri,
                        user,
                        doas: Some(a),
                        dtoken,
                        timeout,
                        natmap,
                        save_config,
                    },
                ),
                Sw::DToken => CliStep::Go(
                    Cli {
                        sw: sw_none,
                        op,
                        files,
                        uri,
                        user,
                        doas,
                        dtoken: Some(a),
                        timeout,
                        natmap,
                        save_config,
                    },
                ),
                Sw::SaveConfig => CliStep::Go(
                    Cli {
                        sw: sw_none,
                        op,
                        files,
                        uri,
                        user,
                        doas,
                        dtoken,
                        timeout,
                        natmap,
                        save_config: Some(a),
                    },
                ),
                Sw::Timeout => match parse_u64(a.as_str()) {
                    Ok(secs) => CliStep::Go(
                        Cli {
                            sw: sw_none,
                            op,
                            files,
                            uri,
                            user,
                            doas,
                            dtoken,
                            timeout: Some(Duration::from_secs(secs)),
                            natmap,
                            save_config,
                        },
                    ),
                    Err(k) => CliStep::Fail(
                        CliError::new("Invalid timeout duration", owned(k.as_str())),
                    ),
                },
                Sw::NMFile => CliStep::ReadNatmapFile(
                    Cli {
                        sw: sw_none,
                        op,
                        files,
                        uri,
                        user,
                        doas,
                        dtoken,
                        timeout,
                        natmap,
                        save_config,
                    },
                    a,
                ),
                Sw::NMEntry => {
                    proof {
                        lemma_first_index(a@, '=');
                    }
                    match split_kv(a) {
                        Ok(kv) => {
                            let mut nm = match natmap {
                                Some(nm) => nm,
                                None => Vec::new(),
                            };
                            nm.push(kv);
                            CliStep::Go(
                                Cli {
                                    sw: sw_none,
                                    op,
                                    files,
                                    uri,
                                    user,
                                    doas,
                                    dtoken,
                                    timeout,
                                    natmap: Some(nm),
                                    save_config,
                                },
                            )
                        },
                        Err(e) => CliStep::Fail(
                            CliError::new("invalid natmap entry", e.to_string()),
                        ),
                    }
                },
            }
        },
        None => {
            if let CmdLn::Arg(_) = &arg {
                return CliStep::Fail(arg.raise("Switch"));
            }
            match read_switch(arg.switch_ref()) {
                Switch::Version => CliStep::Version,
                Switch::Help => CliStep::Usage,
                Switch::Get => CliStep::Go(
                    Cli {
                        sw,
                        op: Some(CliOp::Get),
                        files,
                        uri,
                        user,
                        doas,
                        dtoken,
                        timeout,
                        natmap,
                        save_config,
                    },
                ),
                Switch::Takes(w) => CliStep::Go(
                    Cli {
                        sw: Some(w),
                        op,
                        files,
                        uri,
                        user,
                        doas,
                        dtoken,
                        timeout,
                        natmap,
                        save_config,
                    },
                ),
                Switch::File => {
                    if let CmdLn::Switch(_) = &arg {
                        return CliStep::Fail(arg.raise("Arg"));
                    }
                    let mut files = files;
                    files.push(arg.arg());
                    CliStep::Go(
                        Cli { sw, op, files, uri, user, doas, dtoken, timeout, natmap, save_config },
                    )
                },
            }
        },
    }
}

/// The entries of a NAT map file: `opened` holds its lines, or why it could
/// not be opened.
pub fn read_kv_file(opened: StdResult<Vec<StdResult<String, IoError>>, IoError>) -> (r: Result<
    Vec<(String, String)>,
>)
    ensures
        match opened {
            Ok(lines) => kv_lines(lines@, r),
            Err(e) => r is Err && r->Err_0.spec_msg() is Some && r->Err_0.spec_msg()->0@
                == "cannot open natmap"@ && *r->Err_0.spec_cause() == Cause::Io(e),
        },
{
    match opened {
        Ok(lines) => read_kv_lines(lines),
        Err(e) => Err(Error::new(Some(owned("cannot open natmap")), Cause::Io(e))),
    }
}

/// Takes the NAT map file that `step` asked for: its entries replace the
/// NAT map, and a file that cannot be read or split is refused.
pub fn natmap_file(s: Cli, opened: StdResult<Vec<StdResult<String, IoError>>, IoError>) -> (r:
    StdResult<Cli, CliError>)
    ensures
        match r {
            Ok(t) => opened is Ok && kv_lines(opened->Ok_0@, Ok(t.natmap->0)) && t.natmap is Some
                && t == (Cli { natmap: t.natmap, ..s }),
            Err(e) => e.msg@ == "malformed natmap file"@ && !(opened is Ok && exists|
                m: Vec<(String, String)>,
            | #[trigger] kv_lines(opened->Ok_0@, Ok(m))),
        },
{
    match read_kv_file(opened) {
        Ok(m) => {
            let Cli { sw, op, files, uri, user, doas, dtoken, timeout, natmap: _, save_config } = s;
            Ok(Cli { sw, op, files, uri, user, doas, dtoken, timeout, natmap: Some(m), save_config })
        },
        Err(e) => Err(CliError::new("malformed natmap file", e.to_string())),
    }
}

/// The options that shape the client, and the files of the operation.
#[derive(Debug)]
pub struct Options {
    pub user: Option<String>,
    pub doas: Option<String>,
    pub timeout: Option<Duration>,
    pub natmap: Option<Vec<(String, String)>>,
    pub dtoken: Option<String>,
    pub files: Vec<String>,
}

/// What the command line asks for, once it is read.
pub enum Finish {
    /// Save a configuration with this entrypoint to the file of this name.
    SaveConfig(String, Config),
    /// Run the operation with a client for the entrypoint of `--uri`.
    Client(SyncHdfsClientBuilder, Options),
    /// Run the operation with a client from the configuration files, which
    /// are to be read and handed to `with_config`.
    NeedConfig(Options),
}

pub open spec fn options_of(s: Cli) -> Options {
    Options {
        user: s.user,
        doas: s.doas,
        timeout: s.timeout,
        natmap: s.natmap,
        dtoken: s.dtoken,
        files: s.files,
    }
}

/// What the whole command line asks for.
///
/// An option that still awaits its value is refused. `--save-config` stands
/// alone and needs `--uri`. Otherwise an operation is needed; the client is
/// made for the entrypoint of `--uri`, or from the configuration files.
pub open spec fn finished(s: Cli, r: StdResult<Finish, CliError>) -> bool {
    if s.sw is Some {
        r is Err && r->Err_0.is("invalid command line at the end"@, Seq::empty())
    } else if s.save_config is Some {
        if s.op is Some {
            r is Err && r->Err_0.is("--save-config must be used alone"@, Seq::empty())
        } else if s.uri is None {
            r is Err && r->Err_0.is("must specify --uri when saving config"@, Seq::empty())
        } else {
            match uri_parse(s.uri->0@) {
                Some(p) => r matches Ok(Finish::SaveConfig(f, c)) && f == s.save_config->0
                    && c.entrypoint@ == view_of_parts(p) && c.alt_entrypoint is None
                    && c.default_timeout is None && c.user_name is None && c.doas is None && c.dt
                    is None && c.natmap is None && c.https is None,
                None => r is Err && r->Err_0.msg@ == "Cannot parse URI"@,
            }
        }
    } else if s.op is None {
        r is Err && r->Err_0.is("must specify operation"@, Seq::empty())
    } else if s.uri is Some {
        match uri_parse(s.uri->0@) {
            Some(p) => r matches Ok(Finish::Client(b, o)) && o == options_of(s) && b@
                == (HdfsClientView {
                entrypoint: view_of_parts(p),
                alt_entrypoint: None,
                natmap: Map::empty(),
                default_timeout: Duration { secs: DEFAULT_TIMEOUT_S, nanos: 0 },
                user_name: None,
                doas: None,
                dt: None,
            }),
            None => r is Err && r->Err_0.msg@ == "Cannot parse URI"@,
        }
    } else {
        r matches Ok(Finish::NeedConfig(o)) && o == options_of(s)
    }
}

fn parse_cli_uri(text: &str) -> (r: StdResult<Uri, CliError>)
    ensures
        match uri_parse(text@) {
            Some(p) => r is Ok && r->Ok_0@ == view_of_parts(p),
            None => r is Err && r->Err_0.msg@ == "Cannot parse URI"@,
        },
{
    match Uri::parse(text) {
        Ok(u) => Ok(u),
        Err(e) => {
            let detail = match e.source() {
                Some(t) => t,
                None => String::new(),
            };
            Err(CliError::new("Cannot parse URI", detail))
        },
    }
}

/// Ends the reading of the command line.
pub fn finish(s: Cli) -> (r: StdResult<Finish, CliError>)
    ensures
        finished(s, r),
{
    let Cli { sw, op, files, uri, user, doas, dtoken, timeout, natmap, save_config } = s;
    if sw.is_some() {
        return Err(CliError::new("invalid command line at the end", String::new()));
    }
    if let Some(f) = save_config {
        if op.is_some() {
            return Err(CliError::new("--save-config must be used alone", String::new()));
        }
        let text = match uri {
            Some(t) => t,
            None => {
                return Err(CliError::new("must specify --uri when saving config", String::new()));
            },
        };
        match parse_cli_uri(text.as_str()) {
            Ok(u) => Ok(Finish::SaveConfig(f, Config::new(u))),
            Err(e) => Err(e),
        }
    } else {
        if op.is_none() {
            return Err(CliError::new("must specify operation", String::new()));
        }
        let o = Options { user, doas, timeout, natmap, dtoken, files };
        match uri {
            Some(text) => match parse_cli_uri(text.as_str()) {
                Ok(u) => Ok(Finish::Client(SyncHdfsClientBuilder::new(u), o)),
                Err(e) => Err(e),
            },
            None => Ok(Finish::NeedConfig(o)),
        }
    }
}

/// The builder for the client that the configuration files describe;
/// `conf` is what was found in them.
pub fn with_config(conf: Option<Config>) -> (r: StdResult<SyncHdfsClientBuilder, CliError>)
    ensures
        match conf {
            None => r is Err && r->Err_0.is(
                "No configuration files were found, and no mandatory options (--uri) were specified"@,
                Seq::empty(),
            ),
            Some(c) => if natmap_valid(c) {
                r is Ok && r->Ok_0@ == configured(c)
            } else {
                r is Err && r->Err_0.msg@ == "cannot build natmap"@
            },
        },
{
    match conf {
        None => Err(
            CliError::new(
                "No configuration files were found, and no mandatory options (--uri) were specified",
                String::new(),
            ),
        ),
        Some(c) => match HdfsClientBuilder::try_from_explicit_config(c) {
            Ok(b) => Ok(SyncHdfsClientBuilder::from_async_builder(b)),
            Err(e) => Err(CliError::new("cannot build natmap", e.to_string())),
        },
    }
}

/// What the tool does.
#[derive(Debug)]
pub enum Operation {
    /// Get these files from HDFS.
    Get(Vec<String>),
}

/// The client that the options describe on top of `base`.
pub open spec fn with_options(base: HdfsClientView, o: Options) -> HdfsClientView {
    HdfsClientView {
        entrypoint: base.entrypoint,
        alt_entrypoint: base.alt_entrypoint,
        natmap: match o.natmap {
            Some(m) => entries_map(entries_view(m@)),
            None => base.natmap,
        },
        default_timeout: match o.timeout {
            Some(t) => t,
            None => base.default_timeout,
        },
        user_name: match o.user {
            Some(u) => Some(u@),
            None => base.user_name,
        },
        doas: match o.doas {
            Some(d) => Some(d@),
            None => base.doas,
        },
        dt: match o.dtoken {
            Some(t) => Some(t@),
            None => base.dt,
        },
    }
}

/// Whether every replacement in the NAT map of the options is an authority.
pub open spec fn options_valid(o: Options) -> bool {
    o.natmap matches Some(m) ==> forall|i: int|
        0 <= i < m.len() ==> authority_valid(#[trigger] m[i].1@)
}

/// Makes the client and names the operation. A NAT map with a replacement
/// that is no authority is refused, and so is `--get` without files.
pub fn complete(b: SyncHdfsClientBuilder, o: Options) -> (r: StdResult<
    (SyncHdfsClient, Operation),
    CliError,
>)
    ensures
        if !options_valid(o) {
            r is Err && r->Err_0.msg@ == "Invalid natmap"@
        } else if o.files.len() == 0 {
            r is Err && r->Err_0.is(
                "must specify at least one input file for --get"@,
                Seq::empty(),
            )
        } else {
            r is Ok && r->Ok_0.0.client() == with_options(b@, o) && r->Ok_0.1 == Operation::Get(
                o.files,
            )
        },
{
    let Options { user, doas, timeout, natmap, dtoken, files } = o;
    let mut cx = b;
    if let Some(user) = user {
        cx = cx.user_name(user);
    }
    if let Some(doas) = doas {
        cx = cx.doas(doas);
    }
    if let Some(timeout) = timeout {
        cx = cx.default_timeout(timeout);
    }
    if let Some(natmap) = natmap {
        match NatMap::new(natmap) {
            Ok(m) => {
                cx = cx.natmap(m);
            },
            Err(e) => {
                return Err(CliError::new("Invalid natmap", e.to_string()));
            },
        }
    }
    if let Some(dtoken) = dtoken {
        cx = cx.delegation_token(dtoken);
    }
    let client = match cx.build() {
        Ok(c) => c,
        Err(e) => {
            return Err(CliError::new("Cannot build SyncHdfsClient", e.to_string()));
        },
    };
    if files.len() > 0 {
        Ok((client, Operation::Get(files)))
    } else {
        Err(CliError::new("must specify at least one input file for --get", String::new()))
    }
}

/// Where the files of `--get` go.
#[derive(Debug)]
pub enum GetPlan {
    /// One remote file, to a local file of the same name.
    Here(String),
    /// One remote file, to the local file that is named.
    To(String, String),
    /// Several remote files, each to a file of its name in the directory that is named last.
    Into(Vec<String>, String),
}

/// What the files of `--get` ask for: one file is fetched under its own
/// name, of two the second names the local file, and of more the last names
/// the directory for the others.
pub fn get_plan(files: Vec<String>) -> (r: GetPlan)
    requires
        files.len() > 0,
    ensures
        files.len() == 1 ==> r == GetPlan::Here(files[0]),
        files.len() == 2 ==> r == GetPlan::To(files[0], files[1]),
        files.len() > 2 ==> r is Into && r->Into_0@ == files@.drop_last() && r->Into_1
            == files@.last(),
{
    let mut fs = files;
    let n = fs.len();
    let last = fs.pop().unwrap();
    if n == 1 {
        GetPlan::Here(last)
    } else if n == 2 {
        let first = fs.pop().unwrap();
        GetPlan::To(first, last)
    } else {
        assert(fs@ =~= files@.drop_last());
        GetPlan::Into(fs, last)
    }
}

} // verus!
