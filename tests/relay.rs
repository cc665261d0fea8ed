use mail_gateway::allowlist::Allowlist;
use mail_gateway::auth::validate_api_key;
use mail_gateway::error::{ErrorKind, RelayError};
use mail_gateway::mailbox::parse_mailbox;
use mail_gateway::metrics::Outcome;
use mail_gateway::models::mail::Mail;
use mail_gateway::relay::{check_mail, prepare_mail, response_of, send_outcome};

fn request() -> Mail {
    Mail::new(
        "a@allowed.com".to_string(),
        "b@example.com".to_string(),
        "hi".to_string(),
        "hello".to_string(),
    )
}

fn allowed() -> Allowlist {
    Allowlist::new(vec!["a@allowed.com".to_string()])
}

#[test]
fn new_mail_has_no_copies() {
    let m = request();
    assert_eq!(m.from, "a@allowed.com");
    assert_eq!(m.to, "b@example.com");
    assert_eq!(m.subject, "hi");
    assert_eq!(m.body, "hello");
    assert!(m.cc.is_none());
    assert!(m.bcc.is_none());
}

#[test]
fn missing_key_is_unauthorized() {
    let r = validate_api_key(None, b"secret");
    assert_eq!(r, Err(RelayError::Unauthorized("X-API-KEY header missing".to_string())));
}

#[test]
fn wrong_key_is_unauthorized() {
    let r = validate_api_key(Some(b"secreT"), b"secret");
    assert_eq!(r, Err(RelayError::Unauthorized("Incorrect api key".to_string())));
    let r = validate_api_key(Some(b"secre"), b"secret");
    assert_eq!(r, Err(RelayError::Unauthorized("Incorrect api key".to_string())));
}

#[test]
fn unreadable_key_is_unauthorized() {
    let r = validate_api_key(Some(&[b's', 0xff]), b"secret");
    assert_eq!(r, Err(RelayError::Unauthorized("Invalid api key".to_string())));
}

#[test]
fn right_key_is_accepted() {
    assert_eq!(validate_api_key(Some(b"secret"), b"secret"), Ok(()));
}

#[test]
fn missing_and_wrong_key_share_status() {
    let missing = validate_api_key(None, b"secret").unwrap_err();
    let wrong = validate_api_key(Some(b"nope"), b"secret").unwrap_err();
    assert_eq!(missing.kind(), ErrorKind::Unauthorized);
    assert_eq!(wrong.kind(), ErrorKind::Unauthorized);
    assert_eq!(missing.status_code(), 401);
    assert_eq!(wrong.status_code(), 401);
    assert_ne!(missing.message(), wrong.message());
}

#[test]
fn allowlist_from_config_splits_on_commas() {
    let a = Allowlist::from_config("a@x.com,b@y.com");
    assert!(a.is_allowed(&"a@x.com".to_string()));
    assert!(a.is_allowed(&"b@y.com".to_string()));
    assert!(!a.is_allowed(&"c@z.com".to_string()));
    assert!(!a.is_allowed(&"A@x.com".to_string()));
    assert!(!a.is_allowed(&"a@x.com,b@y.com".to_string()));
}

#[test]
fn allowlist_keeps_empty_pieces() {
    let a = Allowlist::from_config("a@x.com,,");
    assert!(a.is_allowed(&"a@x.com".to_string()));
    assert!(a.is_allowed(&"".to_string()));
    let b = Allowlist::from_config("");
    assert!(b.is_allowed(&"".to_string()));
    assert!(!b.is_allowed(&"a@x.com".to_string()));
}

#[test]
fn empty_allowlist_refuses_all() {
    let a = Allowlist::empty();
    assert!(!a.is_allowed(&"a@allowed.com".to_string()));
    assert!(!a.is_allowed(&"".to_string()));
}

#[test]
fn mailbox_with_display_name() {
    let m = parse_mailbox("Alice <alice@example.com>").unwrap();
    assert_eq!(m.email(), "alice@example.com");
    assert_eq!(m.name(), Some("Alice".to_string()));
}

#[test]
fn mailbox_without_display_name() {
    let m = parse_mailbox("bob@example.com").unwrap();
    assert_eq!(m.email(), "bob@example.com");
    assert_eq!(m.name(), None);
}

#[test]
fn invalid_mailbox_is_refused() {
    assert!(parse_mailbox("not an address").is_none());
    assert!(parse_mailbox("").is_none());
}

#[test]
fn allowed_request_is_prepared_and_answered_ok() {
    let r = prepare_mail(Some(b"secret"), b"secret", &allowed(), Ok(request()));
    assert!(r.is_ok());
    let done = send_outcome(Ok(()));
    assert_eq!(done, Ok(()));
    assert_eq!(response_of(&done), (200, String::new()));
    assert_eq!(Outcome::of(&done), Outcome::Success);
    assert_eq!(Outcome::of(&done).label(), "success");
}

#[test]
fn unlisted_sender_is_unauthorized_with_its_address() {
    let r = prepare_mail(Some(b"secret"), b"secret", &Allowlist::empty(), Ok(request()));
    let e = r.err().unwrap();
    assert_eq!(e, RelayError::Unauthorized("Not allowed to send from 'a@allowed.com'".to_string()));
    let (status, body) = response_of(&Err(e));
    assert_eq!(status, 401);
    assert!(body.contains("a@allowed.com"));
}

#[test]
fn unlisted_sender_with_display_name_is_named_by_address() {
    let mut m = request();
    m.from = "Eve <eve@else.com>".to_string();
    let e = prepare_mail(Some(b"secret"), b"secret", &allowed(), Ok(m)).err().unwrap();
    assert_eq!(e, RelayError::Unauthorized("Not allowed to send from 'eve@else.com'".to_string()));
}

#[test]
fn listed_sender_with_display_name_passes() {
    let mut m = request();
    m.from = "A <a@allowed.com>".to_string();
    assert!(check_mail(&m, &allowed()).is_ok());
}

#[test]
fn malformed_body_is_bad_request() {
    let r = prepare_mail(Some(b"secret"), b"secret", &allowed(), Err("expected value at line 1 column 1".to_string()));
    let e = r.err().unwrap();
    assert_eq!(e, RelayError::BadRequest("expected value at line 1 column 1".to_string()));
    assert_eq!(e.status_code(), 400);
}

#[test]
fn key_is_checked_before_body() {
    let r = prepare_mail(None, b"secret", &allowed(), Err("bad json".to_string()));
    assert_eq!(r.err().unwrap().kind(), ErrorKind::Unauthorized);
}

#[test]
fn invalid_sender_is_bad_request() {
    let mut m = request();
    m.from = "nobody".to_string();
    let e = check_mail(&m, &allowed()).err().unwrap();
    assert_eq!(e, RelayError::BadRequest("Invalid mailbox 'nobody'".to_string()));
}

#[test]
fn invalid_recipient_is_bad_request() {
    let mut m = request();
    m.to = "b at example".to_string();
    let e = prepare_mail(Some(b"secret"), b"secret", &allowed(), Ok(m)).err().unwrap();
    assert_eq!(e.kind(), ErrorKind::BadRequest);
}

#[test]
fn invalid_copy_is_bad_request() {
    let mut m = request();
    m.cc = Some("c@example.com".to_string());
    m.bcc = Some("@@".to_string());
    let e = check_mail(&m, &allowed()).err().unwrap();
    assert_eq!(e, RelayError::BadRequest("Invalid mailbox '@@'".to_string()));
}

#[test]
fn copies_are_read() {
    let mut m = request();
    m.cc = Some("Carol <c@example.com>".to_string());
    m.bcc = Some("d@example.com".to_string());
    let o = check_mail(&m, &allowed()).ok().unwrap();
    assert_eq!(o.from.email(), "a@allowed.com");
    assert_eq!(o.to.email(), "b@example.com");
    assert_eq!(o.cc.as_ref().unwrap().email(), "c@example.com");
    assert_eq!(o.bcc.as_ref().unwrap().email(), "d@example.com");
    assert_eq!(o.subject, "hi");
    assert_eq!(o.body, "hello");
    assert!(prepare_mail(Some(b"secret"), b"secret", &allowed(), Ok(m)).is_ok());
}

#[test]
fn upstream_failure_is_bad_gateway() {
    let r = send_outcome(Err("connection refused".to_string()));
    assert_eq!(r, Err(RelayError::UpstreamError("connection refused".to_string())));
    assert_eq!(response_of(&r), (502, "connection refused".to_string()));
    assert_eq!(Outcome::of(&r), Outcome::Failure);
    assert_eq!(Outcome::of(&r).label(), "error");
}

#[test]
fn status_codes() {
    assert_eq!(RelayError::BadRequest(String::new()).status_code(), 400);
    assert_eq!(RelayError::Unauthorized(String::new()).status_code(), 401);
    assert_eq!(RelayError::UpstreamError(String::new()).status_code(), 502);
    assert_eq!(RelayError::InternalError("x".to_string()).status_code(), 500);
    assert_eq!(RelayError::InternalError("x".to_string()).message(), "x");
}

#[test]
fn every_handled_request_has_one_outcome() {
    let results = vec![
        prepare_mail(None, b"secret", &allowed(), Ok(request())).map(|_| ()),
        prepare_mail(Some(b"secret"), b"secret", &Allowlist::empty(), Ok(request())).map(|_| ()),
        send_outcome(Ok(())),
        send_outcome(Err("down".to_string())),
    ];
    let success = results.iter().filter(|r| Outcome::of(*r) == Outcome::Success).count();
    let failure = results.iter().filter(|r| Outcome::of(*r) == Outcome::Failure).count();
    assert_eq!(success, 1);
    assert_eq!(failure, 3);
    assert_eq!(success + failure, results.len());
}

#[test]
fn byte_equal_key_outside_ascii_is_accepted() {
    let key: &[u8] = &[b'k', 0xff, b'y'];
    assert_eq!(validate_api_key(Some(key), key), Ok(()));
    let r = validate_api_key(Some(&[b'k', 0xfe, b'y']), key);
    assert_eq!(r, Err(RelayError::Unauthorized("Invalid api key".to_string())));
}

#[test]
fn sender_with_display_name_is_relayed() {
    let mut m = request();
    m.from = "Alice <a@allowed.com>".to_string();
    m.to = "Bob <b@example.com>".to_string();
    let o = check_mail(&m, &allowed()).ok().unwrap();
    assert_eq!(o.from.name(), Some("Alice".to_string()));
    assert_eq!(o.to.name(), Some("Bob".to_string()));
    assert_eq!(o.to.email(), "b@example.com");
    assert!(prepare_mail(Some(b"secret"), b"secret", &allowed(), Ok(m)).is_ok());
}
