use async_imap::auth::{auth_challenge, auth_response_line, auth_step, challenge_from_decoded};
use async_imap::capabilities::{Capabilities, Capability};
use async_imap::collect::{
    capabilities_step, id_step, ids_step, mailbox_step, metadata_step, quota_result, quota_root_result,
    quota_root_step, quota_step,
};
use async_imap::error::{Error, IoErrorKind, ParseError};
use async_imap::idle::{append_step, idle_init_step, idle_wait_step, IdleResponse, WaitStep};
use async_imap::quota::{Quota, QuotaResource, QuotaResourceName, QuotaRoot};
use async_imap::response::{FetchData, Metadata, Response, ResponseCode, ResponseData, Status};
use async_imap::router::{check_ok_step, expunge_step, fetch_step, handle_unilateral, names_step, Step};
use async_imap::session::{transition, CommandKind, ConnectionState};
use async_imap::stream::{parse_outcome, FrameParse, ImapStream, ParseOutcome, ReadEvent, Request};
use async_imap::tag::IdGenerator;
use async_imap::types::{Fetch, Mailbox, UnsolicitedResponse};

fn data(parsed: Response) -> ResponseData {
    ResponseData::new(Vec::new(), parsed)
}

fn done(tag: &str, status: Status, info: &str) -> ResponseData {
    data(Response::Done {
        tag: tag.as_bytes().to_vec(),
        status,
        code: None,
        information: Some(info.to_string()),
    })
}

fn ok_code(code: ResponseCode) -> ResponseData {
    data(Response::Data { status: Status::Okay, code: Some(code), information: None })
}

fn fetch(message: u32, uid: Option<u32>) -> ResponseData {
    data(Response::Fetch(FetchData {
        message,
        uid,
        size: None,
        flags: vec!["\\Seen".to_string()],
        header: None,
        body: None,
        text: None,
        internal_date: None,
    }))
}

#[test]
fn tags_count_up_and_wrap() {
    let mut ids = IdGenerator::new();
    assert_eq!(ids.next(), b"A0001".to_vec());
    assert_eq!(ids.next(), b"A0002".to_vec());
    for _ in 3..10000 {
        ids.next();
    }
    assert_eq!(ids.next(), b"A0000".to_vec());
    assert_eq!(ids.next(), b"A0001".to_vec());
}

#[test]
fn request_encoding() {
    let r = Request(Some(b"A0001".to_vec()), b"NOOP".to_vec());
    assert_eq!(r.encode(), b"A0001 NOOP\r\n".to_vec());
    let r = Request(None, b"DONE".to_vec());
    assert_eq!(r.encode(), b"DONE\r\n".to_vec());
}

#[test]
fn capability_parse_case_insensitive() {
    let mut caps = Capabilities::new();
    let r = capabilities_step(
        &mut caps,
        b"A0001",
        data(Response::Capabilities(vec![Capability::Imap4rev1, Capability::Atom("STARTTLS".to_string())])),
    );
    assert!(matches!(r, Step::Item(())));
    assert!(matches!(capabilities_step(&mut caps, b"A0001", done("A0001", Status::Okay, "")), Step::Complete));
    assert_eq!(caps.len(), 2);
    assert!(caps.has(&Capability::Imap4rev1));
    assert!(caps.has(&Capability::Atom("STARTTLS".to_string())));
    assert!(caps.has_str("imap4rev1"));
    assert!(caps.has_str("IMAP4rev1"));
    assert!(caps.has_str("STARTTLS"));
    assert!(caps.has_str("starttls"));
    assert!(caps.has(&Capability::Atom("StartTLS".to_string())));
    assert!(!caps.has_str("LOGINDISABLED"));
    assert!(!caps.is_empty());
    assert_eq!(caps.iter().count(), 2);
}

#[test]
fn capabilities_are_a_set() {
    let mut caps = Capabilities::new();
    assert!(caps.is_empty());
    caps.insert(Capability::Auth("GSSAPI".to_string()));
    caps.insert(Capability::Auth("GSSAPI".to_string()));
    caps.insert(Capability::Atom("LOGINDISABLED".to_string()));
    assert_eq!(caps.len(), 2);
    assert!(caps.has_str("auth=GSSAPI"));
    assert!(caps.has_str("AUTH=GSSAPI"));
    assert!(caps.has_str("AUTH=gssapi"));
    assert!(!caps.has_str("AUTH=PLAIN"));
    assert!(!caps.has_str("GSSAPI"));
    assert!(caps.has_str("LOGINDISABLED"));
    assert!(!caps.has(&Capability::Imap4rev1));
}

#[test]
fn select_inbox_snapshot() {
    let tag = b"A0001";
    let mut mbox = Mailbox::default();
    let flags = vec!["\\Answered", "\\Flagged", "\\Deleted", "\\Seen", "\\Draft"];
    let owned: Vec<String> = flags.iter().map(|s| s.to_string()).collect();
    let mut perm = owned.clone();
    perm.push("\\*".to_string());
    let responses = vec![
        data(Response::Flags(owned.clone())),
        ok_code(ResponseCode::PermanentFlags(perm.clone())),
        data(Response::Exists(1)),
        data(Response::Recent(1)),
        ok_code(ResponseCode::Unseen(1)),
        ok_code(ResponseCode::UidValidity(1257842737)),
        ok_code(ResponseCode::UidNext(2)),
    ];
    for r in responses {
        assert!(matches!(mailbox_step(&mut mbox, tag, r), Step::Item(())));
    }
    assert!(matches!(mailbox_step(&mut mbox, tag, done("A0001", Status::Okay, "")), Step::Complete));
    assert_eq!(mbox.exists, 1);
    assert_eq!(mbox.recent, 1);
    assert_eq!(mbox.unseen, Some(1));
    assert_eq!(mbox.uid_validity, Some(1257842737));
    assert_eq!(mbox.uid_next, Some(2));
    assert_eq!(mbox.flags, owned);
    assert_eq!(mbox.permanent_flags, perm);
}

#[test]
fn select_routes_status_and_fails_on_no() {
    let mut mbox = Mailbox::default();
    let status = data(Response::Status { mailbox: "dev.github".to_string(), attributes: vec![] });
    match mailbox_step(&mut mbox, b"A0001", status) {
        Step::Route(UnsolicitedResponse::Status { mailbox, .. }) => assert_eq!(mailbox, "dev.github"),
        other => panic!("unexpected: {:?}", other),
    }
    let no = data(Response::Data { status: Status::No, code: None, information: Some("nope".to_string()) });
    assert!(matches!(mailbox_step(&mut mbox, b"A0001", no), Step::Failed(Error::No(None, Some(_)))));
    assert_eq!(mbox, Mailbox::default());
}

#[test]
fn fetch_with_intermixed_recent() {
    let tag = b"A0001";
    match fetch_step(tag, fetch(37, Some(74))) {
        Step::Item(f) => {
            assert_eq!(f.message, 37);
            assert_eq!(f.uid, Some(74));
            assert_eq!(f.flags(), &["\\Seen".to_string()][..]);
        }
        other => panic!("unexpected: {:?}", other),
    }
    assert!(matches!(fetch_step(tag, data(Response::Recent(1))), Step::Route(UnsolicitedResponse::Recent(1))));
    assert!(matches!(fetch_step(tag, done("A0001", Status::Okay, "Fetch completed")), Step::Complete));
}

#[test]
fn uid_expunge_three_messages() {
    let tag = b"A0001";
    let mut got = Vec::new();
    for n in [2u32, 3, 4] {
        match expunge_step(tag, data(Response::Expunge(n))) {
            Step::Item(x) => got.push(x),
            other => panic!("unexpected: {:?}", other),
        }
    }
    assert!(matches!(expunge_step(tag, done("A0001", Status::Okay, "")), Step::Complete));
    assert_eq!(got, vec![2, 3, 4]);
}

#[test]
fn names_with_unilateral() {
    let tag = b"A0001";
    let list = data(Response::List {
        attributes: vec!["\\HasNoChildren".to_string()],
        delimiter: Some(".".to_string()),
        name: "INBOX".to_string(),
    });
    match names_step(tag, list) {
        Step::Item(n) => {
            assert_eq!(n.name(), "INBOX");
            assert_eq!(n.delimiter(), Some("."));
            assert_eq!(n.attributes(), &["\\HasNoChildren".to_string()][..]);
        }
        other => panic!("unexpected: {:?}", other),
    }
    assert!(matches!(names_step(tag, data(Response::Expunge(4))), Step::Route(UnsolicitedResponse::Expunge(4))));
}

#[test]
fn search_ids_form_a_set() {
    let tag = b"A0001";
    let mut ids: Vec<u32> = Vec::new();
    assert!(matches!(ids_step(&mut ids, tag, data(Response::Ids(vec![23, 42, 4711]))), Step::Item(())));
    assert!(matches!(ids_step(&mut ids, tag, data(Response::Ids(vec![42, 5]))), Step::Item(())));
    assert!(matches!(ids_step(&mut ids, tag, data(Response::Recent(1))), Step::Route(UnsolicitedResponse::Recent(1))));
    assert!(matches!(ids_step(&mut ids, tag, done("A0001", Status::Okay, "")), Step::Complete));
    ids.sort();
    assert_eq!(ids, vec![5, 23, 42, 4711]);
}

#[test]
fn login_refused() {
    match check_ok_step(b"A0001", done("A0001", Status::No, "bad credentials")) {
        Step::Failed(Error::No(None, Some(info))) => assert_eq!(info, "bad credentials"),
        other => panic!("unexpected: {:?}", other),
    }
    assert!(matches!(check_ok_step(b"A0001", done("A0001", Status::Bad, "what")), Step::Failed(Error::Bad(..))));
}

#[test]
fn check_ok_routes_other_tags_and_untagged() {
    assert!(matches!(check_ok_step(b"A0002", done("A0001", Status::Okay, "")), Step::Route(UnsolicitedResponse::Other(_))));
    assert!(matches!(check_ok_step(b"A0002", data(Response::Exists(3))), Step::Route(UnsolicitedResponse::Exists(3))));
    assert!(matches!(check_ok_step(b"A0002", done("A0002", Status::Okay, "")), Step::Complete));
    assert!(matches!(check_ok_step(b"A0002", done("A0002", Status::Bye, "")), Step::Failed(Error::Io(IoErrorKind::Other))));
}

#[test]
fn unilateral_classification() {
    let m = data(Response::MetadataUnsolicited { mailbox: "INBOX".to_string(), entries: vec!["/shared/comment".to_string()] });
    match handle_unilateral(m) {
        UnsolicitedResponse::Metadata { mailbox, metadata_entries } => {
            assert_eq!(mailbox, "INBOX");
            assert_eq!(metadata_entries, vec!["/shared/comment".to_string()]);
        }
        other => panic!("unexpected: {:?}", other),
    }
    assert!(matches!(handle_unilateral(data(Response::Other)), UnsolicitedResponse::Other(_)));
}

#[test]
fn idle_manual_interrupt_flow() {
    let tag = b"A0001";
    let cont = data(Response::Continue { code: None, information: Some("idling".to_string()) });
    assert!(matches!(idle_init_step(tag, cont), Step::Complete));
    let bad = done("A0001", Status::Bad, "no idle");
    assert!(matches!(idle_init_step(tag, bad), Step::Failed(Error::Io(IoErrorKind::ConnectionRefused))));
    let ok = data(Response::Data { status: Status::Okay, code: None, information: Some("still here".to_string()) });
    assert!(matches!(idle_wait_step(ok), WaitStep::Ignore));
    assert!(matches!(idle_wait_step(data(Response::Exists(4))), WaitStep::Resolve(IdleResponse::NewData(_))));
    assert_eq!(Request(None, b"DONE".to_vec()).encode(), b"DONE\r\n".to_vec());
    assert!(matches!(check_ok_step(tag, done("A0001", Status::Okay, "IDLE terminated")), Step::Complete));
}

#[test]
fn append_needs_continuation() {
    let cont = data(Response::Continue { code: None, information: Some("Ready for literal".to_string()) });
    assert!(append_step(&cont).is_ok());
    assert!(matches!(append_step(&done("A0001", Status::No, "")), Err(Error::Append)));
}

#[test]
fn authenticate_challenge_and_response() {
    assert_eq!(auth_challenge(Some("YmFy")).unwrap(), b"bar".to_vec());
    assert_eq!(auth_challenge(None).unwrap(), Vec::<u8>::new());
    assert!(matches!(auth_challenge(Some("not base64!")), Err(Error::Parse(ParseError::Authentication(_)))));
    assert_eq!(auth_response_line(b"foo"), b"Zm9v".to_vec());
    assert_eq!(challenge_from_decoded("x", Some(vec![1, 2])).unwrap(), vec![1, 2]);
    let cont = data(Response::Continue { code: None, information: Some("YmFy".to_string()) });
    match auth_step(b"A0001", cont) {
        Step::Item(c) => assert_eq!(c, b"bar".to_vec()),
        other => panic!("unexpected: {:?}", other),
    }
    assert!(matches!(auth_step(b"A0001", done("A0001", Status::Okay, "Logged in")), Step::Complete));
}

#[test]
fn eof_discrimination() {
    let mut s = ImapStream::new(());
    assert!(s.prepare_read().unwrap() >= 1);
    assert!(matches!(s.on_read(&[]), ReadEvent::End));
    assert!(s.is_ended());

    let mut s = ImapStream::new(());
    s.prepare_read().unwrap();
    assert!(matches!(s.on_read(b"* OK"), ReadEvent::Progress));
    assert!(matches!(s.on_read(&[]), ReadEvent::Failed(Error::Io(IoErrorKind::UnexpectedEof))));
    assert!(s.decode_input().is_none());
}

#[test]
fn decode_splits_responses() {
    let mut s = ImapStream::new(());
    s.prepare_read().unwrap();
    assert!(matches!(s.on_read(b"* 1 EXISTS\r\n* 2 EX"), ReadEvent::Progress));
    assert_eq!(s.decode_input().unwrap(), b"* 1 EXISTS\r\n* 2 EX");
    let raw = s.after_parse(ParseOutcome::Complete { consumed: 12 }).unwrap().unwrap();
    assert_eq!(raw, b"* 1 EXISTS\r\n".to_vec());
    assert_eq!(s.decode_input().unwrap(), b"* 2 EX");
    assert!(s.after_parse(ParseOutcome::Incomplete(10)).unwrap().is_none());
    assert!(s.decode_input().is_none());
    assert!(s.prepare_read().unwrap() >= 1);
    assert!(matches!(s.on_read(b"ISTS\r\n"), ReadEvent::Progress));
    assert!(s.decode_input().is_none());
    assert!(matches!(s.on_read(b"xx"), ReadEvent::Progress));
    assert!(s.decode_input().is_none());
    assert!(matches!(s.on_read(b"yy"), ReadEvent::Progress));
    assert_eq!(s.decode_input().unwrap(), b"* 2 EXISTS\r\nxxyy");
    assert!(matches!(s.after_parse(ParseOutcome::Failed), Err(Error::Io(IoErrorKind::Malformed))));
    assert!(s.is_ended());
}

#[test]
fn response_outlives_stream() {
    let raw = {
        let mut s = ImapStream::new(());
        s.prepare_read().unwrap();
        s.on_read(b"* 3 RECENT\r\n");
        s.after_parse(ParseOutcome::Complete { consumed: 12 }).unwrap().unwrap()
    };
    let d = ResponseData::new(raw, Response::Recent(3));
    assert_eq!(d.raw(), b"* 3 RECENT\r\n");
    assert!(matches!(d.parsed(), Response::Recent(3)));
    assert!(d.request_id().is_none());
    assert_eq!(done("A0007", Status::Okay, "").request_id(), Some(&b"A0007".to_vec()));
}

#[test]
fn quota_collectors() {
    let q = Quota {
        root_name: "".to_string(),
        resources: vec![QuotaResource { name: QuotaResourceName::Storage, usage: 10, limit: 512 }],
    };
    let mut got = None;
    assert!(matches!(quota_step(&mut got, b"A0001", data(Response::Quota(q.clone()))), Step::Item(())));
    assert_eq!(quota_result(got).unwrap(), q);
    assert!(matches!(quota_result(None), Err(Error::Parse(ParseError::ExpectedResponseNotFound(_)))));
    let mut roots = Vec::new();
    let mut quotas = Vec::new();
    let root = QuotaRoot { mailbox_name: "INBOX".to_string(), quota_root_names: vec!["".to_string()] };
    assert!(matches!(quota_root_step(&mut roots, &mut quotas, b"A0001", data(Response::QuotaRoot(root.clone()))), Step::Item(())));
    assert!(matches!(quota_root_step(&mut roots, &mut quotas, b"A0001", data(Response::Quota(q.clone()))), Step::Item(())));
    let (r, qs) = quota_root_result(roots, quotas).unwrap();
    assert_eq!(r, vec![root]);
    assert_eq!(qs, vec![q]);
    assert!(quota_root_result(Vec::new(), Vec::new()).is_err());
}

#[test]
fn usage_percentage() {
    let r = QuotaResource { name: QuotaResourceName::Message, usage: 50, limit: 200 };
    assert_eq!(r.get_usage_percentage(), 25);
    let r = QuotaResource { name: QuotaResourceName::Atom("X".to_string()), usage: u64::MAX, limit: 1 };
    assert_eq!(r.get_usage_percentage(), u64::MAX);
}

#[test]
fn id_and_metadata_collectors() {
    let mut id = None;
    let pairs = vec![("name".to_string(), "Dovecot".to_string())];
    assert!(matches!(id_step(&mut id, b"A0001", data(Response::Id(Some(pairs.clone())))), Step::Item(())));
    assert_eq!(id, Some(pairs));
    let mut values = Vec::new();
    let m = Metadata { entry: "/shared/comment".to_string(), value: Some("hi".to_string()) };
    let solicited = data(Response::MetadataSolicited { mailbox: "INBOX".to_string(), values: vec![m] });
    assert!(matches!(metadata_step(&mut values, "INBOX", b"A0001", solicited), Step::Item(())));
    assert_eq!(values.len(), 1);
    assert_eq!(values[0].entry, "/shared/comment");
    let m = Metadata { entry: "/shared/comment".to_string(), value: None };
    let other = data(Response::MetadataSolicited { mailbox: "Sent".to_string(), values: vec![m] });
    assert!(matches!(metadata_step(&mut values, "INBOX", b"A0001", other), Step::Route(UnsolicitedResponse::Other(_))));
    assert_eq!(values.len(), 1);
}

#[test]
fn connection_states() {
    let s = transition(ConnectionState::Unauthenticated, CommandKind::Login, true);
    assert_eq!(s, ConnectionState::Authenticated);
    assert_eq!(transition(s, CommandKind::Noop, true), s);
    let sel = transition(s, CommandKind::Select, true);
    assert_eq!(sel, ConnectionState::Selected);
    assert_eq!(transition(sel, CommandKind::Select, true), sel);
    let idle = transition(sel, CommandKind::Idle, true);
    assert_eq!(idle, ConnectionState::Idling { selected: true });
    assert_eq!(transition(idle, CommandKind::IdleDone, true), ConnectionState::Selected);
    assert_eq!(transition(sel, CommandKind::Close, true), ConnectionState::Authenticated);
    assert_eq!(transition(sel, CommandKind::Logout, true), ConnectionState::LoggedOut);
    assert_eq!(transition(ConnectionState::Unauthenticated, CommandKind::Login, false), ConnectionState::Unauthenticated);
}

#[test]
fn decode_with_response_parser() {
    let mut s = ImapStream::new(());
    s.prepare_read().unwrap();
    assert!(matches!(s.on_read(b"* 1 EXISTS\r\n+ idling\r\nA0001 OK do"), ReadEvent::Progress));
    assert_eq!(s.decode().unwrap().unwrap(), b"* 1 EXISTS\r\n".to_vec());
    assert_eq!(s.decode().unwrap().unwrap(), b"+ idling\r\n".to_vec());
    assert!(s.decode().unwrap().is_none());
    assert!(matches!(s.on_read(b"ne\r\n"), ReadEvent::Progress));
    assert_eq!(s.decode().unwrap().unwrap(), b"A0001 OK done\r\n".to_vec());
    assert!(s.decode().unwrap().is_none());
    assert!(matches!(s.on_read(&[]), ReadEvent::End));
}

#[test]
fn decode_rejects_garbage() {
    let mut s = ImapStream::new(());
    s.prepare_read().unwrap();
    s.on_read(b")))) nonsense\r\n");
    assert!(matches!(s.decode(), Err(Error::Io(IoErrorKind::Malformed))));
    assert!(s.is_ended());
    assert!(s.decode().unwrap().is_none());
}

#[test]
fn parse_outcomes() {
    assert_eq!(parse_outcome(10, FrameParse::Parsed { remaining: 4 }), ParseOutcome::Complete { consumed: 6 });
    assert_eq!(parse_outcome(10, FrameParse::Parsed { remaining: 10 }), ParseOutcome::Failed);
    assert_eq!(parse_outcome(10, FrameParse::Incomplete(3)), ParseOutcome::Incomplete(3));
    assert_eq!(parse_outcome(10, FrameParse::IncompleteUnknown), ParseOutcome::IncompleteUnknown);
    assert_eq!(parse_outcome(10, FrameParse::Failed), ParseOutcome::Failed);
}

#[test]
fn starttls_handoff_needs_drained_buffer() {
    let s = ImapStream::new(7u8);
    assert_eq!(s.into_inner_drained().unwrap(), 7u8);
    let mut s = ImapStream::new(7u8);
    s.prepare_read().unwrap();
    s.on_read(b"* injected");
    assert!(matches!(s.into_inner_drained(), Err(Error::Io(IoErrorKind::Malformed))));
}

#[test]
fn fetch_internal_date() {
    let row = |date: &str| {
        data(Response::Fetch(FetchData {
            message: 1,
            uid: None,
            size: None,
            flags: vec![],
            header: None,
            body: None,
            text: None,
            internal_date: Some(date.to_string()),
        }))
    };
    let f = match fetch_step(b"A0001", row("17-Jul-1996 02:44:25 -0700")) {
        Step::Item(f) => f,
        other => panic!("unexpected: {:?}", other),
    };
    let d = f.internal_date().unwrap();
    assert_eq!((d.year, d.month, d.day), (1996, 7, 17));
    assert_eq!((d.hour, d.minute, d.second), (2, 44, 25));
    assert_eq!(d.offset_seconds, -7 * 3600);
    let g = match fetch_step(b"A0001", row("yesterday")) {
        Step::Item(f) => f,
        other => panic!("unexpected: {:?}", other),
    };
    assert!(g.internal_date().is_none());
    assert!(Fetch::new(fetch(2, None)).internal_date().is_none());
}

#[test]
fn decode_refuses_input_the_parser_would_panic_on() {
    let mut s = ImapStream::new(());
    s.prepare_read().unwrap();
    s.on_read(b"* 1 FETCH (INTERNALDATE NIL)\r\n");
    assert!(matches!(s.decode(), Err(Error::Io(IoErrorKind::Malformed))));

    let mut s = ImapStream::new(());
    s.prepare_read().unwrap();
    s.on_read(b"* METADATA \"INBOX\" (/shared/comment {3}\r\nabc)\r\n");
    assert!(matches!(s.decode(), Err(Error::Io(IoErrorKind::Malformed))));

    let mut s = ImapStream::new(());
    s.prepare_read().unwrap();
    s.on_read(b"* METADATA \"INBOX\" (/shared/comment \"hello\")\r\n");
    assert_eq!(s.decode().unwrap().unwrap(), b"* METADATA \"INBOX\" (/shared/comment \"hello\")\r\n".to_vec());

    let mut s = ImapStream::new(());
    s.prepare_read().unwrap();
    s.on_read(b"* 1 FETCH (INTERNALDATE \"17-Jul-1996 02:44:25 -0700\")\r\n");
    assert!(s.decode().unwrap().is_some());
}

#[test]
fn prepare_read_makes_room_for_what_decode_lacks() {
    let mut s = ImapStream::new(());
    assert_eq!(s.prepare_read().unwrap(), 4096);
    s.on_read(b"* 1 FETCH (BODY[] {10000}\r\n");
    assert!(s.decode().unwrap().is_none());
    let n = s.prepare_read().unwrap();
    assert!(n >= 1);
    assert_eq!(s.prepare_read().unwrap(), n);
}
