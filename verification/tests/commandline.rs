use webhdfs::commandline::{
    complete, finish, natmap_file, parse_cmdln, read_kv_file, read_switch, step, with_config, Cli,
    CliError, CliOp, CliStep, CmdLn, Finish, Operation, Sw, Switch,
};
use webhdfs::config::{Config, Duration};
use webhdfs::error::{IoError, IoErrorKind};
use webhdfs::sync_client::SyncHdfsClientBuilder;
use webhdfs::uri::Uri;

fn show(v: &[CmdLn]) -> Vec<String> {
    v.iter().map(|c| c.to_string()).collect()
}

fn convert(bypass: bool, v: &str) -> (Vec<String>, bool) {
    let mut b = bypass;
    let r = CmdLn::convert_arg(&mut b, v.to_owned());
    (show(&r), b)
}

#[test]
fn arguments_are_split() {
    assert_eq!(convert(false, "--sw=arg"), (vec!["Switch '--sw'".to_owned(), "Arg 'arg'".to_owned()], false));
    assert_eq!(convert(false, "--sw=a=b"), (vec!["Switch '--sw'".to_owned(), "Arg 'a=b'".to_owned()], false));
    assert_eq!(convert(false, "--sw="), (vec!["Switch '--sw'".to_owned(), "Arg ''".to_owned()], false));
    assert_eq!(convert(false, "--sw"), (vec!["Item '--sw'".to_owned()], false));
    assert_eq!(convert(false, "-abc"), (vec!["Item '-a'".to_owned(), "Item '-b'".to_owned(), "Item '-c'".to_owned()], false));
    assert_eq!(convert(false, "-я"), (vec!["Item '-я'".to_owned()], false));
    assert_eq!(convert(false, "-"), (vec!["Item '-'".to_owned()], false));
    assert_eq!(convert(false, ""), (vec!["Item ''".to_owned()], false));
    assert_eq!(convert(false, "file=x"), (vec!["Item 'file=x'".to_owned()], false));
    assert_eq!(convert(false, "--"), (vec![], true));
    assert_eq!(convert(true, "--"), (vec!["Item '--'".to_owned()], true));
    assert_eq!(convert(true, "--sw=arg"), (vec!["Item '--sw=arg'".to_owned()], true));
    assert_eq!(convert(true, "-abc"), (vec!["Item '-abc'".to_owned()], true));

    let args: Vec<String> = ["webhdfs", "-gU", "--user=me", "--", "-x", "--"].iter().map(|s| s.to_string()).collect();
    assert_eq!(
        show(&parse_cmdln(args)),
        vec!["Item '-g'", "Item '-U'", "Switch '--user'", "Arg 'me'", "Item '-x'", "Item '--'"]
    );
    assert!(parse_cmdln(vec![]).is_empty());
    assert!(parse_cmdln(vec!["webhdfs".to_owned()]).is_empty());
}

#[test]
fn items_as_switches_and_arguments() {
    assert_eq!(CmdLn::Switch("--x".to_owned()).switch_ref(), "--x");
    assert_eq!(CmdLn::Item("-x".to_owned()).switch_ref(), "-x");
    assert_eq!(CmdLn::Arg("v".to_owned()).arg(), "v");
    assert_eq!(CmdLn::Item("v".to_owned()).arg(), "v");
    let e = CmdLn::Arg("v".to_owned()).raise("Switch");
    assert_eq!(e.msg, "we wanted Switch, but got Arg(\"v\")");
    assert_eq!(e.detail, "command line syntax error");
    assert_eq!(e.to_string(), "Error: we wanted Switch, but got Arg(\"v\") (command line syntax error)");
    assert_eq!(CliError::new("must specify operation", String::new()).to_string(), "Error: must specify operation");
}

#[test]
fn switches() {
    let table = [
        ("-v", Switch::Version),
        ("--version", Switch::Version),
        ("-h", Switch::Help),
        ("--help", Switch::Help),
        ("-g", Switch::Get),
        ("--get", Switch::Get),
        ("-U", Switch::Takes(Sw::Uri)),
        ("--uri", Switch::Takes(Sw::Uri)),
        ("--url", Switch::Takes(Sw::Uri)),
        ("-u", Switch::Takes(Sw::User)),
        ("--user", Switch::Takes(Sw::User)),
        ("-d", Switch::Takes(Sw::Doas)),
        ("--doas", Switch::Takes(Sw::Doas)),
        ("-T", Switch::Takes(Sw::DToken)),
        ("--dt", Switch::Takes(Sw::DToken)),
        ("-t", Switch::Takes(Sw::Timeout)),
        ("--timeout", Switch::Takes(Sw::Timeout)),
        ("-N", Switch::Takes(Sw::NMFile)),
        ("--natmap-file", Switch::Takes(Sw::NMFile)),
        ("-n", Switch::Takes(Sw::NMEntry)),
        ("--natmap-entry", Switch::Takes(Sw::NMEntry)),
        ("--save-config", Switch::Takes(Sw::SaveConfig)),
        ("/some/file", Switch::File),
        ("-x", Switch::File),
        ("", Switch::File),
    ];
    for (text, meaning) in table {
        assert_eq!(read_switch(text), meaning, "{}", text);
    }
}

fn run(args: &[&str]) -> Result<Cli, String> {
    let mut v = vec!["webhdfs".to_owned()];
    v.extend(args.iter().map(|s| s.to_string()));
    let mut s = Cli::new();
    for item in parse_cmdln(v) {
        s = match step(s, item) {
            CliStep::Go(n) => n,
            CliStep::ReadNatmapFile(n, path) => {
                assert_eq!(path, "nat.map");
                natmap_file(n, Ok(vec![Ok("f:1=g:2".to_owned())])).map_err(|e| e.to_string())?
            }
            CliStep::Version => return Err("version".to_owned()),
            CliStep::Usage => return Err("usage".to_owned()),
            CliStep::Fail(e) => return Err(e.to_string()),
        }
    }
    Ok(s)
}

#[test]
fn options_are_read() {
    let s = run(&[
        "-U", "http://nn:50070", "--user=me", "-d", "other", "--dt", "tok", "-t", "7",
        "-n", "a:1=b:2", "--natmap-entry=c:3=d:4", "-g", "/remote/f", "local",
    ])
    .unwrap();
    assert_eq!(s.uri.as_deref(), Some("http://nn:50070"));
    assert_eq!(s.user.as_deref(), Some("me"));
    assert_eq!(s.doas.as_deref(), Some("other"));
    assert_eq!(s.dtoken.as_deref(), Some("tok"));
    assert_eq!(s.timeout, Some(Duration { secs: 7, nanos: 0 }));
    assert_eq!(
        s.natmap,
        Some(vec![("a:1".to_owned(), "b:2".to_owned()), ("c:3".to_owned(), "d:4".to_owned())])
    );
    assert_eq!(s.op, Some(CliOp::Get));
    assert_eq!(s.files, vec!["/remote/f".to_owned(), "local".to_owned()]);
    assert!(s.sw.is_none());
    assert!(s.save_config.is_none());

    // a NAT map file replaces what was there; entries after it are added
    let s = run(&["-n", "a:1=b:2", "-N", "nat.map", "-n", "h:1=i:2"]).unwrap();
    assert_eq!(
        s.natmap,
        Some(vec![("f:1".to_owned(), "g:2".to_owned()), ("h:1".to_owned(), "i:2".to_owned())])
    );

    assert_eq!(run(&["-v"]).err().unwrap(), "version");
    assert_eq!(run(&["--help", "-g"]).err().unwrap(), "usage");
    assert_eq!(run(&["-t", "soon"]).err().unwrap(), "Error: Invalid timeout duration (invalid digit found in string)");
    assert_eq!(run(&["-t", ""]).err().unwrap(), "Error: Invalid timeout duration (cannot parse integer from empty string)");
    assert_eq!(run(&["-n", "no-equals-sign"]).err().unwrap(), "Error: invalid natmap entry (AppError: cannot read entry value: no-equals-sign)");
    assert_eq!(
        run(&["-U", "--user=me"]).err().unwrap(),
        "Error: we wanted Arg, but got Switch(\"--user\") (command line syntax error)"
    );
    assert_eq!(
        run(&["--get=x"]).err().unwrap(),
        "Error: we wanted Switch, but got Arg(\"x\") (command line syntax error)"
    );
    assert_eq!(
        run(&["--unknown=x"]).err().unwrap(),
        "Error: we wanted Arg, but got Switch(\"--unknown\") (command line syntax error)"
    );
    // after `--` nothing is split any more
    assert_eq!(run(&["-g", "--", "--a=b", "-xy"]).unwrap().files, vec!["--a=b".to_owned(), "-xy".to_owned()]);
}

#[test]
fn natmap_files() {
    let r = read_kv_file(Ok(vec![Ok("a=b".to_owned())])).unwrap();
    assert_eq!(r, vec![("a".to_owned(), "b".to_owned())]);
    let e = read_kv_file(Err(IoError { kind: IoErrorKind::Other, msg: Some("No such file".to_owned()) })).err().unwrap();
    assert_eq!(e.to_string(), "AppError: cannot open natmap; caused by IoError: No such file");
    let e = natmap_file(Cli::new(), Ok(vec![Ok("ab".to_owned())])).err().unwrap();
    assert_eq!(e.to_string(), "Error: malformed natmap file (AppError: cannot read entry value: ab)");
    let e = natmap_file(Cli::new(), Err(IoError { kind: IoErrorKind::Other, msg: Some("gone".to_owned()) })).err().unwrap();
    assert_eq!(e.msg, "malformed natmap file");
}

fn finish_error(args: &[&str]) -> String {
    match finish(run(args).unwrap()) {
        Err(e) => e.to_string(),
        Ok(_) => panic!("expected the command line to be refused"),
    }
}

#[test]
fn the_command_line_is_completed() {
    assert_eq!(finish_error(&["-g", "f", "-U"]), "Error: invalid command line at the end");
    assert_eq!(finish_error(&["--save-config", "c.toml", "-g"]), "Error: --save-config must be used alone");
    assert_eq!(finish_error(&["--save-config", "c.toml"]), "Error: must specify --uri when saving config");
    assert_eq!(finish_error(&["--save-config", "c.toml", "-U", "http://a b"]), "Error: Cannot parse URI (invalid uri character)");
    assert_eq!(finish_error(&["-U", "http://nn:50070", "f"]), "Error: must specify operation");
    assert_eq!(finish_error(&["-g", "f", "-U", ""]), "Error: Cannot parse URI (empty string)");

    match finish(run(&["--save-config", "c.toml", "-U", "http://nn:50070"]).unwrap()) {
        Ok(Finish::SaveConfig(path, conf)) => {
            assert_eq!(path, "c.toml");
            assert_eq!(conf.entrypoint.into_uri().to_string(), "http://nn:50070/");
            assert!(conf.user_name.is_none());
        }
        _ => panic!(),
    }

    match finish(run(&["-g", "/f", "-U", "http://nn:50070", "-u", "me", "-t", "5"]).unwrap()) {
        Ok(Finish::Client(b, o)) => {
            let (cx, op) = complete(b, o).ok().unwrap();
            assert_eq!(cx.default_timeout().secs, 5);
            match op {
                Operation::Get(files) => assert_eq!(files, vec!["/f".to_owned()]),
            }
        }
        _ => panic!(),
    }

    match finish(run(&["-g", "-U", "http://nn:50070"]).unwrap()) {
        Ok(Finish::Client(b, o)) => assert_eq!(
            complete(b, o).err().unwrap().to_string(),
            "Error: must specify at least one input file for --get"
        ),
        _ => panic!(),
    }

    match finish(run(&["-g", "/f", "-U", "http://nn:50070", "-n", "a:1=b 2"]).unwrap()) {
        Ok(Finish::Client(b, o)) => assert_eq!(
            complete(b, o).err().unwrap().to_string(),
            "Error: Invalid natmap (AppError: cannot parse NAT value for k=a:1; caused by http::uri::InvalidUri: invalid uri character)"
        ),
        _ => panic!(),
    }

    match finish(run(&["-g", "/f", "-d", "joe"]).unwrap()) {
        Ok(Finish::NeedConfig(o)) => {
            assert_eq!(
                with_config(None).err().unwrap().to_string(),
                "Error: No configuration files were found, and no mandatory options (--uri) were specified"
            );
            let mut conf = Config::new(Uri::parse("http://nn:50070").unwrap());
            conf.default_timeout = Some(Duration::from_secs(11));
            let b = with_config(Some(conf)).ok().unwrap();
            let (cx, _) = complete(b, o).ok().unwrap();
            assert_eq!(cx.default_timeout().secs, 11);
        }
        _ => panic!(),
    }
    let mut conf = Config::new(Uri::parse("http://nn:50070").unwrap());
    conf.natmap = Some(vec![("a".to_owned(), "".to_owned())]);
    assert_eq!(with_config(Some(conf)).err().unwrap().msg, "cannot build natmap");
    let _ = SyncHdfsClientBuilder::new(Uri::parse("http://nn:50070").unwrap());
}
