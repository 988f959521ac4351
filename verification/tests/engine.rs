use std::collections::HashMap;

use webhdfs::async_client::{CallNext, FOAction, FOState, FODResult, HdfsClient, HdfsClientBuilder, FOR};
use webhdfs::datatypes::{FileStatus, FileStatusResponse, RemoteException};
use webhdfs::error::{Cause, Error, IoErrorKind};
use webhdfs::natmap::NatMap;
use webhdfs::op::{AppendOptions, CreateOptions, DeleteOptions, Method, MkdirsOptions, OpenOptions};
use webhdfs::rest_client::{
    data_empty, data_owned, ErrorD, ExceptionBody, HeaderField, Reply, Request, ResponseHead,
};
use webhdfs::sync_client::{ReadHdfsFile, ReadNext, SeekFrom, SyncHdfsClient, WriteHdfsFile};
use webhdfs::uri::Uri;

struct Response {
    status: u16,
    location: Option<String>,
    content_type: Option<String>,
    body: Vec<u8>,
}

fn json(status: u16, body: &str) -> Response {
    Response {
        status,
        location: None,
        content_type: Some("application/json".to_owned()),
        body: body.as_bytes().to_vec(),
    }
}

fn redirect(location: &str) -> Response {
    Response { status: 307, location: Some(location.to_owned()), content_type: None, body: vec![] }
}

fn empty(status: u16) -> Response {
    Response { status, location: None, content_type: None, body: vec![] }
}

fn binary(body: Vec<u8>) -> Response {
    Response {
        status: 200,
        location: None,
        content_type: Some("application/octet-stream".to_owned()),
        body,
    }
}

fn standby() -> Response {
    json(
        403,
        "{\"RemoteException\":{\"exception\":\"StandbyException\",\"javaClassName\":\"org.apache.hadoop.ipc.StandbyException\",\"message\":\"Operation category WRITE is not supported in state standby\"}}",
    )
}

fn head_of(r: &Response) -> ResponseHead {
    let field = |v: &Option<String>| match v {
        Some(t) => HeaderField::Text(t.clone()),
        None => HeaderField::Absent,
    };
    ResponseHead { status: r.status, location: field(&r.location), content_type: field(&r.content_type) }
}

fn exception_of(body: &[u8]) -> ExceptionBody {
    let text = |v: &serde_json::Value, k: &str| v.get(k).and_then(|s| s.as_str()).map(|s| s.to_owned());
    match serde_json::from_slice::<serde_json::Value>(body) {
        Ok(v) => {
            let e = v.get("RemoteException");
            match e.and_then(|e| {
                Some(RemoteException {
                    exception: text(e, "exception")?,
                    java_class_name: text(e, "javaClassName")?,
                    message: text(e, "message")?,
                })
            }) {
                Some(re) => ExceptionBody::Decoded(re),
                None => ExceptionBody::Undecodable {
                    detail: "missing field".to_owned(),
                    body: body.to_vec(),
                },
            }
        }
        Err(e) => ExceptionBody::Undecodable { detail: e.to_string(), body: body.to_vec() },
    }
}

struct Sent {
    method: Method,
    url: String,
    body: Vec<u8>,
}

/// Runs an operation against `server`; hands back its result, the body of
/// the last response, and every request that was sent.
fn drive<'c>(
    first: CallNext<'c>,
    server: &mut dyn FnMut(&Sent) -> Response,
) -> (FODResult<Reply>, Vec<u8>, Vec<Sent>) {
    let mut next = first;
    let mut log = Vec::new();
    let mut last = Vec::new();
    loop {
        next = match next {
            CallNext::Send(Request { method, uri, body }, waiting) => {
                let sent = Sent { method, url: uri.to_string(), body };
                let r = server(&sent);
                log.push(sent);
                let head = head_of(&r);
                last = r.body;
                waiting.on_head(Ok(head))
            }
            CallNext::ReadBody(waiting) => waiting.on_body(Ok(last.clone())),
            CallNext::ReadException(waiting) => waiting.on_exception(exception_of(&last)),
            CallNext::Done(r) => return (r, last, log),
        }
    }
}

fn uri(s: &str) -> Uri {
    Uri::parse(s).unwrap()
}

fn client() -> HdfsClient {
    HdfsClientBuilder::new(uri("http://nn:50070")).user_name("dr.who".to_owned()).build()
}

fn ha_client() -> HdfsClient {
    HdfsClientBuilder::new(uri("http://nn1:50070")).alt_entrypoint(uri("http://nn2:50070")).build()
}

#[test]
fn uri_assembly() {
    let c = client();
    let (r, _, log) = drive(c.dir(FOState::PRIMARY, "/x/КиР"), &mut |_| {
        json(200, "{\"FileStatuses\":{\"FileStatus\":[]}}")
    });
    assert!(matches!(r, Ok((Reply::Json, FOState::PRIMARY))));
    assert_eq!(log.len(), 1);
    assert_eq!(log[0].method, Method::GET);
    assert_eq!(
        log[0].url,
        "http://nn:50070/webhdfs/v1/x/%D0%9A%D0%B8%D0%A0?user.name=dr.who&op=LISTSTATUS"
    );
    assert!(log[0].body.is_empty());
}

#[test]
fn query_assembly_order() {
    let c = HdfsClientBuilder::new(uri("https://nn:50470"))
        .delegation_token("t/k".to_owned())
        .doas("joe".to_owned())
        .user_name("dr.who".to_owned())
        .build();
    let pq = c.path_and_query(
        "a b",
        webhdfs::op::Op::CREATE,
        CreateOptions::new()
            .overwrite(true)
            .blocksize(1048576)
            .replication(3)
            .permission(0o644)
            .buffersize(4096)
            .into(),
    );
    assert_eq!(
        String::from_utf8(pq).unwrap(),
        "/webhdfs/v1/a%20b?user.name=dr.who&doas=joe&delegation=t%2Fk&op=CREATE&overwrite=true&blocksize=1048576&replication=3&permission=644&buffersize=4096"
    );
    let (u, s) = c.uri(FOState::ALT, b"/webhdfs/v1/?op=LISTSTATUS").ok().unwrap();
    assert_eq!(u.to_string(), "https://nn:50470/webhdfs/v1/?op=LISTSTATUS");
    assert!(s.is_alt());
}

#[test]
fn uri_that_cannot_be_built() {
    let c = client();
    let (e, s) = c.uri(FOState::PRIMARY, b"/a b").err().unwrap();
    assert!(!s.is_alt());
    assert!(matches!(e.cause(), Cause::Http(_)));
    assert_eq!(e.msg_s(), "Could not build URI: path_and_query=/a b");
    // an entrypoint without scheme makes no request URI
    let c = HdfsClientBuilder::new(uri("nn:50070")).build();
    let (r, _, log) = drive(c.stat(FOState::PRIMARY, "/f"), &mut |_| empty(200));
    assert!(log.is_empty());
    let (ed, s) = r.err().unwrap();
    assert!(!s.is_alt());
    assert!(ed.data_opt.is_none());
    assert!(matches!(ed.error.cause(), Cause::Http(_)));
    assert_eq!(ed.error.msg_s(), "Could not build URI: path_and_query=/webhdfs/v1/f?op=GETFILESTATUS");
}

#[test]
fn redirect_and_nat() {
    let nat = NatMap::new(vec![("dn.internal:1006".to_owned(), "localhost:11006".to_owned())]).unwrap();
    let c = HdfsClientBuilder::new(uri("http://nn:50070")).natmap(nat).build();
    let (r, body, log) = drive(c.open(FOState::PRIMARY, "/f", OpenOptions::new().offset(5)), &mut |s| {
        if s.url.starts_with("http://nn:50070/") {
            redirect("http://dn.internal:1006/webhdfs/v1/f?op=OPEN&namenoderpcaddress=nn:8020&offset=5")
        } else {
            binary(b"hello".to_vec())
        }
    });
    assert!(matches!(r, Ok((Reply::Binary, FOState::PRIMARY))));
    assert_eq!(body, b"hello".to_vec());
    assert_eq!(log.len(), 2);
    assert_eq!(log[0].url, "http://nn:50070/webhdfs/v1/f?op=OPEN&offset=5");
    assert_eq!(
        log[1].url,
        "http://localhost:11006/webhdfs/v1/f?op=OPEN&namenoderpcaddress=nn:8020&offset=5"
    );
    assert_eq!(log[1].method, Method::GET);
}

#[test]
fn redirect_to_unmapped_authority_is_followed_as_it_is() {
    let nat = NatMap::new(vec![("dn.internal:1006".to_owned(), "localhost:11006".to_owned())]).unwrap();
    let c = HdfsClientBuilder::new(uri("http://nn:50070")).natmap(nat).build();
    let (_, _, log) = drive(c.open(FOState::PRIMARY, "/f", OpenOptions::new()), &mut |s| {
        if s.url.starts_with("http://nn:50070/") {
            redirect("http://dn.other:1006/webhdfs/v1/f?op=OPEN")
        } else {
            binary(vec![])
        }
    });
    assert_eq!(log[1].url, "http://dn.other:1006/webhdfs/v1/f?op=OPEN");
}

#[test]
fn standby_failover() {
    let c = ha_client();
    let mut cx = SyncHdfsClient::from_async(c).unwrap();
    let (r, body, log) = drive(cx.mkdirs("/d", MkdirsOptions::new()), &mut |s| {
        if s.url.starts_with("http://nn1:50070/") {
            standby()
        } else {
            json(200, "{\"boolean\":true}")
        }
    });
    assert_eq!(log.len(), 2);
    assert_eq!(log[0].url, "http://nn1:50070/webhdfs/v1/d?op=MKDIRS");
    assert_eq!(log[1].url, "http://nn2:50070/webhdfs/v1/d?op=MKDIRS");
    assert_eq!(log[0].method, Method::PUT);
    assert_eq!(log[1].method, Method::PUT);
    assert_eq!(body, b"{\"boolean\":true}".to_vec());
    let reply = cx.foresult(r).ok().unwrap();
    assert_eq!(reply, Reply::Json);
    assert!(cx.fostate().is_alt());

    // the next call goes directly to nn2: one request, not two
    let (r, _, log) = drive(cx.mkdirs("/e", MkdirsOptions::new()), &mut |s| {
        if s.url.starts_with("http://nn1:50070/") {
            standby()
        } else {
            json(200, "{\"boolean\":true}")
        }
    });
    assert_eq!(log.len(), 1);
    assert_eq!(log[0].url, "http://nn2:50070/webhdfs/v1/e?op=MKDIRS");
    assert!(cx.foresult(r).is_ok());
    assert!(cx.fostate().is_alt());
}

#[test]
fn failover_from_alt_leads_back_to_primary() {
    let c = ha_client();
    let (r, _, log) = drive(c.delete(FOState::ALT, "/d", DeleteOptions::new().recursive(true)), &mut |s| {
        if s.url.starts_with("http://nn2:50070/") {
            standby()
        } else {
            json(200, "{\"boolean\":false}")
        }
    });
    assert_eq!(log.len(), 2);
    assert_eq!(log[0].url, "http://nn2:50070/webhdfs/v1/d?op=DELETE&recursive=true");
    assert_eq!(log[1].url, "http://nn1:50070/webhdfs/v1/d?op=DELETE&recursive=true");
    assert_eq!(log[1].method, Method::DELETE);
    assert!(matches!(r, Ok((Reply::Json, FOState::PRIMARY))));
}

#[test]
fn failover_is_tried_once_only() {
    let c = ha_client();
    let (r, _, log) = drive(c.stat(FOState::PRIMARY, "/d"), &mut |_| standby());
    assert_eq!(log.len(), 2);
    let (ed, s) = r.err().unwrap();
    assert!(s.is_alt());
    assert!(ed.error.is_standby());
    assert!(ed.data_opt.is_none());
}

#[test]
fn no_failover_without_alternate_entrypoint() {
    let c = client();
    let (r, _, log) = drive(c.stat(FOState::PRIMARY, "/d"), &mut |_| standby());
    assert_eq!(log.len(), 1);
    let (ed, s) = r.err().unwrap();
    assert!(!s.is_alt());
    match ed.error.cause() {
        Cause::RemoteException(e) => {
            assert_eq!(e.exception, "StandbyException");
            assert_eq!(e.java_class_name, "org.apache.hadoop.ipc.StandbyException");
        }
        other => panic!("{:?}", other),
    }
    // the state ALT stands for the primary entrypoint where there is no other
    let (_, _, log) = drive(c.stat(FOState::ALT, "/d"), &mut |_| standby());
    assert_eq!(log.len(), 1);
    assert!(log[0].url.starts_with("http://nn:50070/"));
}

#[test]
fn no_failover_on_other_errors() {
    let c = ha_client();
    let (r, _, log) = drive(c.stat(FOState::PRIMARY, "/d"), &mut |_| {
        json(404, "{\"RemoteException\":{\"exception\":\"FileNotFoundException\",\"javaClassName\":\"java.io.FileNotFoundException\",\"message\":\"File does not exist: /d\"}}")
    });
    assert_eq!(log.len(), 1);
    let (ed, s) = r.err().unwrap();
    assert!(!s.is_alt());
    assert_eq!(
        ed.error.to_string(),
        "AppError: GENERIC; caused by RemoteException RemoteException[exception=FileNotFoundException, java_class_name=java.io.FileNotFoundException, msg='File does not exist: /d']"
    );
}

#[test]
fn body_preservation() {
    let c = ha_client();
    let payload = b"ABC\x00\xff".to_vec();
    let (r, _, log) = drive(
        c.create(FOState::PRIMARY, "/t", data_owned(payload.clone()), CreateOptions::new().overwrite(true)),
        &mut |s| {
            if s.url.starts_with("http://nn1:50070/") {
                standby()
            } else if s.url.starts_with("http://nn2:50070/") {
                redirect("http://dn1:50075/webhdfs/v1/t?op=CREATE&overwrite=true")
            } else {
                empty(201)
            }
        },
    );
    assert!(matches!(r, Ok((Reply::Empty, FOState::ALT))));
    assert_eq!(log.len(), 3);
    assert_eq!(log[0].url, "http://nn1:50070/webhdfs/v1/t?op=CREATE&overwrite=true");
    assert!(log[0].body.is_empty());
    assert_eq!(log[1].url, "http://nn2:50070/webhdfs/v1/t?op=CREATE&overwrite=true");
    assert!(log[1].body.is_empty());
    assert_eq!(log[2].url, "http://dn1:50075/webhdfs/v1/t?op=CREATE&overwrite=true");
    assert_eq!(log[2].method, Method::PUT);
    assert_eq!(log[2].body, payload);
}

#[test]
fn failure_of_the_datanode_does_not_fail_over() {
    let c = ha_client();
    let (r, _, log) = drive(
        c.append(FOState::PRIMARY, "/t", data_owned(b"DEF".to_vec()), AppendOptions::new()),
        &mut |s| {
            if s.url.starts_with("http://nn1:50070/") {
                redirect("http://dn1:50075/webhdfs/v1/t?op=APPEND")
            } else {
                standby()
            }
        },
    );
    assert_eq!(log.len(), 2);
    assert_eq!(log[1].body, b"DEF".to_vec());
    assert_eq!(log[1].method, Method::POST);
    let (ed, s) = r.err().unwrap();
    assert!(!s.is_alt());
    assert!(ed.error.is_standby());
    assert!(ed.data_opt.is_none());
}

#[test]
fn first_phase_must_redirect() {
    let c = client();
    let (r, _, log) = drive(c.open(FOState::PRIMARY, "/f", OpenOptions::new()), &mut |_| empty(200));
    assert_eq!(log.len(), 1);
    let (ed, _) = r.err().unwrap();
    assert_eq!(ed.error.msg_s(), "Expected redirect, found non-redirect response status=200");
    assert!(matches!(ed.error.cause(), Cause::Generic));

    let (r, _, _) = drive(c.open(FOState::PRIMARY, "/f", OpenOptions::new()), &mut |_| Response {
        status: 307,
        location: None,
        content_type: None,
        body: vec![],
    });
    assert_eq!(r.err().unwrap().0.error.msg_s(), "Redirect without Location header");

    let (r, _, _) = drive(c.open(FOState::PRIMARY, "/f", OpenOptions::new()), &mut |_| redirect("http://a b/"));
    let (ed, _) = r.err().unwrap();
    assert_eq!(ed.error.msg_s(), "Cannot parse location URI returned by redirect");
    assert!(matches!(ed.error.cause(), Cause::HttpInvalidUri(_)));
}

#[test]
fn redirect_of_a_single_step_operation_is_an_error() {
    let c = client();
    let (r, _, log) = drive(c.stat(FOState::PRIMARY, "/f"), &mut |_| redirect("http://dn:1/x"));
    assert_eq!(log.len(), 1);
    let (ed, _) = r.err().unwrap();
    match ed.error.cause() {
        Cause::HttpRedirect(307, l) => assert_eq!(l, "http://dn:1/x"),
        other => panic!("{:?}", other),
    }
    assert_eq!(ed.error.to_string(), "AppError: GENERIC; caused by HTTP redirect 307 http://dn:1/x");
}

#[test]
fn content_type_must_match() {
    let c = client();
    let (r, _, _) = drive(c.stat(FOState::PRIMARY, "/f"), &mut |_| binary(vec![1]));
    assert_eq!(
        r.err().unwrap().0.error.msg_s(),
        "Invalid content type: required='JSON' found='Some(\"application/octet-stream\")'"
    );
    let (r, _, _) = drive(c.stat(FOState::PRIMARY, "/f"), &mut |_| empty(200));
    assert_eq!(
        r.err().unwrap().0.error.msg_s(),
        "Invalid content type: required='JSON' found='None'"
    );
    let (r, _, _) = drive(c.stat(FOState::PRIMARY, "/f"), &mut |_| Response {
        status: 200,
        location: None,
        content_type: Some("Application/JSON; Charset=UTF-8".to_owned()),
        body: b"{}".to_vec(),
    });
    assert!(matches!(r, Ok((Reply::Json, _))));
    let (r, _, _) = drive(c.stat(FOState::PRIMARY, "/f"), &mut |_| Response {
        status: 200,
        location: None,
        content_type: Some("application/json; charset=latin1".to_owned()),
        body: b"{}".to_vec(),
    });
    assert_eq!(
        r.err().unwrap().0.error.msg_s(),
        "Invalid content type: required='JSON' found='Some(\"application/json; charset=latin1\")'"
    );
    let (r, _, _) = drive(c.stat(FOState::PRIMARY, "/f"), &mut |_| Response {
        status: 200,
        location: None,
        content_type: Some("not a mime".to_owned()),
        body: vec![],
    });
    assert!(matches!(r.err().unwrap().0.error.cause(), Cause::MimeFromStr(_)));
    let (r, _, _) = drive(c.concat(FOState::PRIMARY, "/f", vec!["/a".to_owned(), "/b c".to_owned()]), &mut |s| {
        assert_eq!(s.url, "http://nn:50070/webhdfs/v1/f?user.name=dr.who&op=CONCAT&sources=%2Fa%2C%2Fb%20c");
        assert_eq!(s.method, Method::POST);
        json(200, "{}")
    });
    assert_eq!(
        r.err().unwrap().0.error.msg_s(),
        "Invalid content type: required='None' found='Some(\"application/json\")'"
    );
}

#[test]
fn remote_errors() {
    let c = client();
    let (r, _, _) = drive(c.stat(FOState::PRIMARY, "/f"), &mut |_| Response {
        status: 500,
        location: None,
        content_type: Some("text/html".to_owned()),
        body: b"<html/>".to_vec(),
    });
    assert_eq!(
        r.err().unwrap().0.error.msg_s(),
        "Remote error: 500, content-type: Some(\"text/html\")"
    );
    let (r, _, _) = drive(c.stat(FOState::PRIMARY, "/f"), &mut |_| empty(404));
    assert_eq!(r.err().unwrap().0.error.msg_s(), "Remote error: 404, content-type: None");
    let (r, _, _) = drive(c.stat(FOState::PRIMARY, "/f"), &mut |_| json(500, "{oops"));
    let e = r.err().unwrap().0.error;
    assert!(e.msg_s().starts_with("JSON-error deserialization error: "), "{}", e.msg_s());
    assert!(e.msg_s().ends_with(", recovered text: '{oops'"), "{}", e.msg_s());
    assert!(matches!(e.cause(), Cause::Generic));
}

#[test]
fn empty_response_must_be_empty() {
    let c = client();
    let (r, _, log) = drive(
        c.create_symlink(FOState::PRIMARY, "/l", "/target".to_owned(), webhdfs::op::CreateSymlinkOptions::new().create_parent(true)),
        &mut |_| empty(200),
    );
    assert_eq!(log[0].url, "http://nn:50070/webhdfs/v1/l?user.name=dr.who&op=CREATESYMLINK&destination=%2Ftarget&createParent=true");
    assert_eq!(log[0].method, Method::PUT);
    assert!(matches!(r, Ok((Reply::Empty, _))));
    let (r, _, _) = drive(c.rename(FOState::PRIMARY, "/l", "/m".to_owned()), &mut |s| {
        assert_eq!(s.url, "http://nn:50070/webhdfs/v1/l?user.name=dr.who&op=RENAME&destination=%2Fm");
        json(200, "{\"boolean\":true}")
    });
    assert!(matches!(r, Ok((Reply::Json, _))));
    let (r, _, _) = drive(
        c.concat(FOState::PRIMARY, "/f", vec!["/a".to_owned()]),
        &mut |_| Response { status: 200, location: None, content_type: None, body: b"x".to_vec() },
    );
    assert_eq!(
        r.err().unwrap().0.error.msg_s(),
        "Unexpected non-empty response received, where empty is expected"
    );
}

#[test]
fn transport_failure_hands_the_payload_back() {
    let c = ha_client();
    match c.create(FOState::PRIMARY, "/t", data_owned(b"ABC".to_vec()), CreateOptions::new()) {
        CallNext::Send(_, waiting) => {
            match waiting.on_head(Err(Error::anon(Cause::Hyper("connection refused".to_owned())))) {
                CallNext::Done(Err((ed, s))) => {
                    assert!(!s.is_alt());
                    assert!(matches!(ed.error.cause(), Cause::Hyper(_)));
                    // the result of an operation never carries the payload
                    assert!(ed.data_opt.is_none());
                }
                _ => panic!("expected the operation to end"),
            }
        }
        _ => panic!("expected a request"),
    }
}

#[test]
fn failover_decisions() {
    let c = ha_client();
    let standby_error = || {
        Error::anon(Cause::RemoteException(RemoteException {
            exception: "StandbyException".to_owned(),
            java_class_name: "x".to_owned(),
            message: "y".to_owned(),
        }))
    };
    assert!(HdfsClient::is_standby_error(&standby_error()));
    assert!(!HdfsClient::is_standby_error(&Error::app_c("StandbyException")));
    match c.failover_fsm::<u8>(FOState::PRIMARY, Err(standby_error())) {
        (FOAction::FailOver(()), FOState::ALT) => {}
        _ => panic!(),
    }
    match c.failover_fsm(FOState::ALT, Ok(7u8)) {
        (FOAction::Proceed(Ok(7)), FOState::ALT) => {}
        _ => panic!(),
    }
    match c.failover_fsm_d::<u8>(FOState::ALT, Err(ErrorD::d(standby_error(), b"ABC".to_vec()))) {
        (FOAction::FailOver(d), FOState::PRIMARY) => assert_eq!(d, b"ABC".to_vec()),
        _ => panic!(),
    }
    match c.failover_fsm_d::<u8>(FOState::ALT, Err(ErrorD::lift(standby_error()))) {
        (FOAction::Proceed(Err(e)), FOState::ALT) => assert!(e.is_standby()),
        _ => panic!(),
    }
    match c.failover_fsm_d::<u8>(FOState::PRIMARY, Err(ErrorD::d(Error::app_c("no"), data_empty()))) {
        (FOAction::Proceed(Err(e)), FOState::PRIMARY) => assert_eq!(e.msg_s(), "no"),
        _ => panic!(),
    }
    let plain = client();
    match plain.failover_fsm::<u8>(FOState::PRIMARY, Err(standby_error())) {
        (FOAction::Proceed(Err(_)), FOState::PRIMARY) => {}
        _ => panic!(),
    }
    assert!(FOState::PRIMARY.next().is_alt());
    assert!(!FOState::ALT.next().is_alt());
    let (r, s) = FOR::split::<u8, u8>(Ok((1, FOState::ALT)));
    assert_eq!((r, s.is_alt()), (Ok(1), true));
    let (r, s) = FOR::split::<u8, u8>(Err((2, FOState::PRIMARY)));
    assert_eq!((r, s.is_alt()), (Err(2), false));
    assert!(matches!(FOR::bind::<u8, u8>(Ok(3), FOState::ALT), Ok((3, FOState::ALT))));
    assert!(matches!(FOR::bind::<u8, u8>(Err(4), FOState::PRIMARY), Err((4, FOState::PRIMARY))));
}

fn status(length: i64) -> FileStatusResponse {
    FileStatusResponse {
        file_status: FileStatus {
            access_time: 0,
            block_size: 0,
            group: "g".to_owned(),
            length,
            modification_time: 0,
            owner: "o".to_owned(),
            path_suffix: "".to_owned(),
            permission: "644".to_owned(),
            replication: 1,
            type_: "FILE".to_owned(),
        },
    }
}

fn parameter(url: &str, key: &str) -> Option<i64> {
    let query = url.split('?').nth(1)?;
    query.split('&').find_map(|kv| {
        let mut it = kv.splitn(2, '=');
        if it.next() == Some(key) { it.next()?.parse().ok() } else { None }
    })
}

/// A read as the blocking handle does it: one request, then the chunks.
fn read(file: &mut ReadHdfsFile, buf: &mut [u8], content: &[u8], log: &mut Vec<String>) -> usize {
    let mut chunks: Vec<Vec<u8>> = Vec::new();
    let r = {
        let first = file.read(buf.len()).ok().unwrap();
        let (r, body, sent) = drive(first, &mut |s| {
            if s.url.starts_with("http://nn:50070/") {
                redirect(&s.url.replace("http://nn:50070/", "http://dn:50075/"))
            } else {
                let offset = parameter(&s.url, "offset").unwrap_or(0) as usize;
                let length = parameter(&s.url, "length").map(|l| l as usize).unwrap_or(content.len());
                let from = offset.min(content.len());
                let to = (offset + length).min(content.len());
                binary(content[from..to].to_vec())
            }
        });
        log.extend(sent.into_iter().map(|s| s.url));
        for c in body.chunks(7) {
            chunks.push(c.to_vec());
        }
        r
    };
    assert_eq!(file.foresult(r).ok(), Some(Reply::Binary));
    let mut filled = 0;
    let mut events: Vec<Option<Vec<u8>>> = chunks.into_iter().map(Some).collect();
    events.push(None);
    for ev in events {
        match file.on_chunk(buf, filled, ev.map(Ok)) {
            ReadNext::More(n) => filled = n,
            ReadNext::Done(r) => return r.ok().unwrap(),
        }
    }
    panic!("the stream ended without the read ending")
}

#[test]
fn read_and_seek() {
    let content: Vec<u8> = (0..1000u32).map(|i| (i % 251) as u8).collect();
    let cx = SyncHdfsClient::from_async(client()).unwrap();
    let mut file = ReadHdfsFile::open(cx, "/f".to_owned(), &status(1000));
    assert_eq!(file.len(), 1000);
    assert_eq!(file.seek(SeekFrom::Start(100)).ok(), Some(100));
    let mut buf = [0u8; 50];
    let mut log = Vec::new();
    assert_eq!(read(&mut file, &mut buf, &content, &mut log), 50);
    assert_eq!(log[0], "http://nn:50070/webhdfs/v1/f?user.name=dr.who&op=OPEN&offset=100&length=50");
    assert_eq!(&buf[..], &content[100..150]);
    assert_eq!(file.seek(SeekFrom::Current(0)).ok(), Some(150));
    assert_eq!(file.seek(SeekFrom::End(0)).ok(), Some(1000));
    assert_eq!(read(&mut file, &mut buf, &content, &mut log), 0);
    let (_, path, (pos, len)) = file.into_parts();
    assert_eq!((path.as_str(), pos, len), ("/f", 1000, 1000));
}

#[test]
fn seek_bounds() {
    let cx = SyncHdfsClient::from_async(client()).unwrap();
    let mut file = ReadHdfsFile::new(cx, "/f".to_owned(), 1000, 10);
    for x in [0u64, 1, 999, 1000] {
        assert_eq!(file.seek(SeekFrom::Start(x)).ok(), Some(x));
    }
    assert_eq!(file.seek(SeekFrom::End(0)).ok(), Some(1000));
    assert_eq!(file.seek(SeekFrom::End(-1000)).ok(), Some(0));
    assert_eq!(file.seek(SeekFrom::Current(10)).ok(), Some(10));
    assert_eq!(file.seek(SeekFrom::Current(-10)).ok(), Some(0));

    // before the start
    let e = file.seek(SeekFrom::Current(-1)).err().unwrap();
    assert_eq!(e.kind, IoErrorKind::InvalidInput);
    assert_eq!(e.msg.as_deref(), Some("attempt to seek before start"));
    let e = file.seek(SeekFrom::End(-1001)).err().unwrap();
    assert_eq!(e.kind, IoErrorKind::InvalidInput);
    assert_eq!(file.seek(SeekFrom::Current(0)).ok(), Some(0));

    // beyond the end
    assert_eq!(file.seek(SeekFrom::Start(500)).ok(), Some(500));
    assert_eq!(file.seek(SeekFrom::Start(1001)).ok(), Some(500));
    assert_eq!(file.seek(SeekFrom::Current(501)).ok(), Some(500));
    assert_eq!(file.seek(SeekFrom::End(1)).ok(), Some(1000));
    assert_eq!(file.seek(SeekFrom::Start(500)).ok(), Some(500));
    assert_eq!(file.seek(SeekFrom::End(i64::MAX)).ok(), Some(1000));

    // what no position can hold
    assert_eq!(file.seek(SeekFrom::Start(500)).ok(), Some(500));
    let e = file.seek(SeekFrom::Start(u64::MAX)).err().unwrap();
    assert_eq!(e.kind, IoErrorKind::InvalidInput);
    assert_eq!(e.msg.as_deref(), Some("offset too big"));
    let e = file.seek(SeekFrom::Current(i64::MAX)).err().unwrap();
    assert_eq!(e.kind, IoErrorKind::InvalidInput);
    assert_eq!(file.seek(SeekFrom::Current(0)).ok(), Some(500));
}

#[test]
fn chunks_fill_the_buffer_as_far_as_there_is_room() {
    let cx = SyncHdfsClient::from_async(client()).unwrap();
    let mut file = ReadHdfsFile::new(cx, "/f".to_owned(), 100, 0);
    let mut buf = [9u8; 5];
    assert!(matches!(file.on_chunk(&mut buf, 0, Some(Ok(vec![1, 2, 3]))), ReadNext::More(3)));
    assert_eq!(buf, [1, 2, 3, 9, 9]);
    assert!(matches!(file.on_chunk(&mut buf, 3, Some(Ok(vec![4, 5, 6, 7]))), ReadNext::More(5)));
    assert_eq!(buf, [1, 2, 3, 4, 5]);
    assert!(matches!(file.on_chunk(&mut buf, 5, Some(Ok(vec![8]))), ReadNext::More(5)));
    assert_eq!(buf, [1, 2, 3, 4, 5]);
    assert_eq!(file.seek(SeekFrom::Current(0)).ok(), Some(8));
    match file.on_chunk(&mut buf, 5, Some(Err(Error::timeout_c("slow")))) {
        ReadNext::Done(Err(e)) => {
            assert_eq!(e.kind, IoErrorKind::TimedOut);
            assert_eq!(e.msg.as_deref(), Some("slow"));
        }
        _ => panic!(),
    }
    assert!(matches!(file.on_chunk(&mut buf, 5, None), ReadNext::Done(Ok(5))));
    assert!(file.read_options(usize::MAX).is_err() || usize::MAX as u64 <= i64::MAX as u64);
}

struct Cluster {
    files: HashMap<String, Vec<u8>>,
}

impl Cluster {
    fn serve(&mut self, s: &Sent) -> Response {
        let rest = s.url.splitn(2, "/webhdfs/v1").nth(1).unwrap().to_owned();
        let path = rest.split('?').next().unwrap().to_owned();
        let at_namenode = s.url.starts_with("http://nn:50070/");
        let op = rest.split("op=").nth(1).unwrap().split('&').next().unwrap().to_owned();
        match (op.as_str(), at_namenode) {
            ("CREATE", true) | ("APPEND", true) | ("OPEN", true) => {
                redirect(&s.url.replace("http://nn:50070/", "http://dn:50075/"))
            }
            ("CREATE", false) => {
                assert_eq!(s.method, Method::PUT);
                self.files.insert(path, s.body.clone());
                empty(201)
            }
            ("APPEND", false) => {
                assert_eq!(s.method, Method::POST);
                self.files.get_mut(&path).unwrap().extend_from_slice(&s.body);
                empty(200)
            }
            ("OPEN", false) => {
                let content = &self.files[&path];
                let offset = parameter(&s.url, "offset").unwrap_or(0) as usize;
                let length = parameter(&s.url, "length").map(|l| l as usize).unwrap_or(content.len());
                binary(content[offset.min(content.len())..(offset + length).min(content.len())].to_vec())
            }
            ("GETFILESTATUS", true) => match self.files.get(&path) {
                Some(c) => json(200, &format!("{{\"FileStatus\":{{\"length\":{}}}}}", c.len())),
                None => json(404, "{\"RemoteException\":{\"exception\":\"FileNotFoundException\",\"javaClassName\":\"java.io.FileNotFoundException\",\"message\":\"File does not exist\"}}"),
            },
            (other, _) => panic!("unexpected operation {}", other),
        }
    }
}

#[test]
fn write_round_trip() {
    let mut cluster = Cluster { files: HashMap::new() };
    let mut cx = SyncHdfsClient::from_async(HdfsClientBuilder::new(uri("http://nn:50070")).build()).unwrap();

    let (r, _, _) = drive(
        cx.create("/t", data_owned(b"ABC".to_vec()), CreateOptions::new().overwrite(true)),
        &mut |s| cluster.serve(s),
    );
    assert_eq!(cx.foresult(r).ok(), Some(Reply::Empty));
    let (r, _, _) = drive(cx.append("/t", data_owned(b"DEF".to_vec()), AppendOptions::new()), &mut |s| {
        cluster.serve(s)
    });
    assert_eq!(cx.foresult(r).ok(), Some(Reply::Empty));

    let (r, body, _) = drive(cx.stat("/t"), &mut |s| cluster.serve(s));
    assert_eq!(cx.foresult(r).ok(), Some(Reply::Json));
    let v: serde_json::Value = serde_json::from_slice(&body).unwrap();
    let length = v.get("FileStatus").unwrap().get("length").unwrap().as_i64().unwrap();
    assert_eq!(length, 6);

    let (r, body, _) = drive(cx.get_file("/t"), &mut |s| cluster.serve(s));
    assert_eq!(cx.foresult(r).ok(), Some(Reply::Binary));
    assert_eq!(body, b"ABCDEF".to_vec());

    // the same through the file handles
    let mut w = WriteHdfsFile::append(cx, "/t".to_owned(), AppendOptions::new().buffersize(16)).unwrap();
    let r = {
        let (r, _, log) = drive(w.write(b"GHI"), &mut |s| cluster.serve(s));
        assert_eq!(log[0].url, "http://nn:50070/webhdfs/v1/t?op=APPEND&buffersize=16");
        assert_eq!(log[1].body, b"GHI".to_vec());
        r
    };
    let r = w.foresult(r);
    assert_eq!(WriteHdfsFile::written(3, r.map(|_| ())).ok(), Some(3));
    assert!(w.flush().is_ok());
    let (cx, path) = w.into_parts();
    assert_eq!(path, "/t");
    assert_eq!(cluster.files["/t"], b"ABCDEFGHI".to_vec());

    let created = WriteHdfsFile::create(cx, "/u".to_owned(), Err(ErrorD::lift(Error::app_c("no"))), AppendOptions::new());
    assert_eq!(created.err().unwrap().msg_s(), "no");
    let e = WriteHdfsFile::written(3, Err(ErrorD::lift(Error::app_c("no")))).err().unwrap();
    assert_eq!(e.kind, IoErrorKind::Other);
    assert_eq!(e.msg.as_deref(), Some("AppError: no"));
}

#[test]
fn timeout_keeps_the_failover_state() {
    let cx = SyncHdfsClient::from_async(ha_client()).unwrap().with_fostate(FOState::ALT);
    let (ed, s) = cx.timed_out::<()>().err().unwrap();
    assert!(s.is_alt());
    assert!(matches!(ed.error.cause(), Cause::Timeout));
    assert!(ed.data_opt.is_none());
    assert_eq!(cx.default_timeout().secs, 30);
    assert_eq!(cx.default_timeout().nanos, 0);
}
