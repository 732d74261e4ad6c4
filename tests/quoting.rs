use async_imap::commands;
use async_imap::error::{Error, Result};
use async_imap::extensions::{format_identification, getmetadata_command, setmetadata_command, MetadataDepth};
use async_imap::response::Metadata;
use async_imap::validate::{quote, validate_str};

fn text(bytes: Vec<u8>) -> String {
    String::from_utf8(bytes).unwrap()
}

#[test]
fn quote_backslash() {
    assert_eq!("\"test\\\\text\"", text(quote(r"test\text")));
}

#[test]
fn quote_dquote() {
    assert_eq!("\"test\\\"text\"", text(quote("test\"text")));
}

#[test]
fn validate_random() {
    assert_eq!(
        "\"~iCQ_k;>[&\\\"sVCvUW`e<<P!wJ\"",
        &text(validate_str("~iCQ_k;>[&\"sVCvUW`e<<P!wJ").unwrap())
    );
}

#[test]
fn validate_newline() {
    if let Err(ref e) = validate_str("test\nstring") {
        if let &Error::Validate(ref ve) = e {
            if ve.0 == '\n' {
                return;
            }
        }
        panic!("Wrong error: {:?}", e);
    }
    panic!("No error");
}

#[test]
#[allow(unreachable_patterns)]
fn validate_carriage_return() {
    if let Err(ref e) = validate_str("test\rstring") {
        if let &Error::Validate(ref ve) = e {
            if ve.0 == '\r' {
                return;
            }
        }
        panic!("Wrong error: {:?}", e);
    }
    panic!("No error");
}

#[test]
fn validate_reports_line_feed_before_carriage_return() {
    match validate_str("a\rb\nc") {
        Err(Error::Validate(ve)) => assert_eq!(ve.0, '\n'),
        other => panic!("unexpected: {:?}", other),
    }
}

#[test]
fn test_format_identification() {
    assert_eq!(
        text(format_identification(&[("name", Some("MyClient"))])),
        r#""name" "MyClient""#
    );

    assert_eq!(
        text(format_identification(&[("name", Some(r#""MyClient"\"#))])),
        r#""name" "\"MyClient\"\\""#
    );

    assert_eq!(
        text(format_identification(&[("name", Some("MyClient")), ("version", Some("2.0"))])),
        r#""name" "MyClient" "version" "2.0""#
    );

    assert_eq!(
        text(format_identification(&[("name", None), ("version", Some("2.0"))])),
        r#""name" NIL "version" "2.0""#
    );
}

#[test]
fn test_send() {
    fn is_send<T: Send>(_t: T) {}
    is_send::<Result<usize>>(Ok(3));
}

#[test]
fn command_texts() {
    assert_eq!(text(commands::login_command("username", "password").unwrap()), "LOGIN \"username\" \"password\"");
    assert_eq!(text(commands::select_command("INBOX").unwrap()), "SELECT \"INBOX\"");
    assert_eq!(text(commands::examine_command("INBOX").unwrap()), "EXAMINE \"INBOX\"");
    assert_eq!(text(commands::create_command("INBOX").unwrap()), "CREATE \"INBOX\"");
    assert_eq!(text(commands::delete_command("INBOX").unwrap()), "DELETE \"INBOX\"");
    assert_eq!(text(commands::rename_command("INBOX", "NEWINBOX").unwrap()), "RENAME \"INBOX\" \"NEWINBOX\"");
    assert_eq!(text(commands::subscribe_command("INBOX").unwrap()), "SUBSCRIBE \"INBOX\"");
    assert_eq!(text(commands::unsubscribe_command("INBOX").unwrap()), "UNSUBSCRIBE \"INBOX\"");
    assert_eq!(text(commands::fetch_command("1:2", "(UID)")), "FETCH 1:2 (UID)");
    assert_eq!(text(commands::uid_fetch_command("1:2", "(UID)")), "UID FETCH 1:2 (UID)");
    assert_eq!(text(commands::store_command("1", "+FLAGS (\\Deleted)")), "STORE 1 +FLAGS (\\Deleted)");
    assert_eq!(text(commands::uid_store_command("1", "+FLAGS (\\Deleted)")), "UID STORE 1 +FLAGS (\\Deleted)");
    assert_eq!(text(commands::copy_command("1:2", "MEETING")), "COPY 1:2 MEETING");
    assert_eq!(text(commands::uid_copy_command("1:2", "MEETING")), "UID COPY 1:2 MEETING");
    assert_eq!(text(commands::mv_command("1:2", "MEETING").unwrap()), "MOVE 1:2 \"MEETING\"");
    assert_eq!(text(commands::uid_mv_command("41:42", "MEETING").unwrap()), "UID MOVE 41:42 \"MEETING\"");
    assert_eq!(text(commands::list_command(None, None).unwrap()), "LIST \"\" \"\"");
    assert_eq!(text(commands::list_command(Some("a"), Some("*")).unwrap()), "LIST \"a\" *");
    assert_eq!(text(commands::lsub_command(None, None).unwrap()), "LSUB \"\" ");
    assert_eq!(text(commands::status_command("INBOX", "(MESSAGES)").unwrap()), "STATUS \"INBOX\" (MESSAGES)");
    assert_eq!(text(commands::search_command("Unseen")), "SEARCH Unseen");
    assert_eq!(text(commands::uid_search_command("Unseen")), "UID SEARCH Unseen");
    assert_eq!(text(commands::uid_expunge_command("2:4")), "UID EXPUNGE 2:4");
    assert_eq!(text(commands::append_command("INBOX", 21).unwrap()), "APPEND \"INBOX\" {21}");
    assert_eq!(text(commands::authenticate_command("PLAIN")), "AUTHENTICATE PLAIN");
    assert_eq!(text(commands::simple_command("NOOP")), "NOOP");
}

#[test]
fn commands_refuse_line_breaks() {
    assert!(matches!(commands::select_command("IN\r\nBOX"), Err(Error::Validate(_))));
    assert!(matches!(commands::login_command("user", "pa\nss"), Err(Error::Validate(_))));
    assert!(matches!(commands::rename_command("a\rb", "c"), Err(Error::Validate(_))));
    assert!(matches!(commands::append_command("IN\nBOX", 3), Err(Error::Validate(_))));
}

#[test]
fn metadata_commands() {
    let cmd = getmetadata_command("INBOX", &["/private/comment", "/shared/comment"], MetadataDepth::Inf, Some(1024)).unwrap();
    assert_eq!(
        text(cmd),
        "GETMETADATA (DEPTH infinity MAXSIZE 1024) \"INBOX\" (\"/private/comment\" \"/shared/comment\")"
    );
    let cmd = getmetadata_command("", &["/shared/comment"], MetadataDepth::Zero, None).unwrap();
    assert_eq!(text(cmd), "GETMETADATA (DEPTH 0) \"\" (\"/shared/comment\")");
    let entries = vec![
        Metadata { entry: "/private/comment".to_string(), value: Some("hello".to_string()) },
        Metadata { entry: "/shared/comment".to_string(), value: None },
    ];
    assert_eq!(
        text(setmetadata_command("INBOX", &entries).unwrap()),
        "SETMETADATA \"INBOX\" (\"/private/comment\" \"hello\" \"/shared/comment\" NIL)"
    );
    let bad = vec![Metadata { entry: "/a".to_string(), value: Some("x\ny".to_string()) }];
    assert!(matches!(setmetadata_command("INBOX", &bad), Err(Error::Validate(_))));
}
